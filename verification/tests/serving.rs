use iris_net::config::{Endian, IrisNetworkConfig, SizeType};
use iris_net::error::NetError;
use iris_net::frame::encode_frame;
use iris_net::handler::{
    read_message, send_message, IrisNetHandler, ReadEvent, ReadStep, Role,
};
use iris_net::server::{
    add_server_data_manager, worker_step, IrisNetMetadata, ServerAction, WorkerAction, WorkerEvent,
};

fn config() -> IrisNetworkConfig {
    IrisNetworkConfig { endian: Endian::Little, size: SizeType::U32 }
}

fn listener() -> IrisNetHandler {
    IrisNetHandler::new_server(config(), Ok(())).unwrap()
}

fn connection() -> IrisNetHandler {
    listener().accept(Ok(())).unwrap()
}

fn encode(value: u64, endian: Endian) -> Vec<u8> {
    match endian {
        Endian::Big => {
            bincode::encode_to_vec(value, bincode::config::standard().with_big_endian()).unwrap()
        }
        Endian::Little => {
            bincode::encode_to_vec(value, bincode::config::standard().with_little_endian()).unwrap()
        }
    }
}

fn decode(bytes: &[u8], endian: Endian) -> Result<u64, String> {
    let decoded = match endian {
        Endian::Big => {
            bincode::decode_from_slice(bytes, bincode::config::standard().with_big_endian())
        }
        Endian::Little => {
            bincode::decode_from_slice(bytes, bincode::config::standard().with_little_endian())
        }
    };
    decoded.map(|(value, _)| value).map_err(|e| format!("{:?}", e))
}

fn double(n: u64, _metadata: &IrisNetMetadata) -> u64 {
    n * 2
}

/// Runs a worker with the doubling handler over a stream that holds
/// `inbound` and then ends, giving at most `limit` bytes to a read. Returns
/// what the worker wrote, and the report it closed with.
fn serve(
    handler: &mut IrisNetHandler,
    metadata: &IrisNetMetadata,
    inbound: &[u8],
    limit: usize,
) -> (Vec<u8>, Option<NetError>) {
    let endian = handler.config().endian;
    let mut outbound = Vec::new();
    let mut taken = 0;
    let mut action = worker_step(handler, WorkerEvent::Start);
    loop {
        let event = match action {
            WorkerAction::Read(asked) => {
                let n = asked.min(limit).min(inbound.len() - taken);
                let chunk = inbound[taken..taken + n].to_vec();
                taken += n;
                WorkerEvent::Bytes(chunk)
            }
            WorkerAction::Handle(payload) => match decode(&payload, endian) {
                Ok(n) => WorkerEvent::Reply(encode(double(n, metadata), endian)),
                Err(cause) => WorkerEvent::DecodeFailed(cause),
            },
            WorkerAction::Write(wire) => {
                outbound.extend_from_slice(&wire);
                WorkerEvent::Sent
            }
            WorkerAction::Close(report) => return (outbound, report),
        };
        action = worker_step(handler, event);
    }
}

/// Receives one message from `wire`, starting at `*taken`.
fn receive(handler: &mut IrisNetHandler, wire: &[u8], taken: &mut usize) -> ReadStep {
    let mut step = read_message(handler, ReadEvent::Begin);
    loop {
        match step {
            ReadStep::Read(asked) => {
                let n = asked.min(wire.len() - *taken);
                let chunk = wire[*taken..*taken + n].to_vec();
                *taken += n;
                step = read_message(handler, ReadEvent::Bytes(chunk));
            }
            end => return end,
        }
    }
}

#[test]
fn accepted_connection_gets_a_worker() {
    let listener = listener();
    match add_server_data_manager(&listener, Ok("10.0.0.7:4100".to_string())) {
        ServerAction::Serve(connection, metadata) => {
            assert_eq!(connection.role(), Role::ActiveStream);
            assert_eq!(connection.config(), config());
            assert_eq!(metadata, IrisNetMetadata { ip: "10.0.0.7:4100".to_string() });
        }
        _ => panic!("an accepted connection must be served"),
    }
}

#[test]
fn failed_accept_is_reported_and_the_loop_goes_on() {
    let listener = listener();
    match add_server_data_manager(&listener, Err("connection aborted".to_string())) {
        ServerAction::Retry(e) => assert_eq!(e, NetError::Accept("connection aborted".to_string())),
        _ => panic!("a failed accept must be retried"),
    }
}

#[test]
fn accepts_succeed_after_a_failed_accept() {
    let listener = listener();
    let attempts = [
        Ok("a:1".to_string()),
        Err("first failure".to_string()),
        Ok("b:2".to_string()),
        Err("second failure".to_string()),
        Err("third failure".to_string()),
        Ok("c:3".to_string()),
    ];
    let mut served = Vec::new();
    let mut reported = Vec::new();
    for attempt in attempts {
        match add_server_data_manager(&listener, attempt) {
            ServerAction::Serve(_, metadata) => served.push(metadata.ip),
            ServerAction::Retry(e) => reported.push(e),
            ServerAction::Stop(_) => panic!("a listener does not stop"),
        }
    }
    assert_eq!(served, vec!["a:1", "b:2", "c:3"]);
    assert_eq!(
        reported,
        vec![
            NetError::Accept("first failure".to_string()),
            NetError::Accept("second failure".to_string()),
            NetError::Accept("third failure".to_string()),
        ]
    );
}

#[test]
fn server_without_listener_stops() {
    let stream = IrisNetHandler::new_client(config(), Ok(())).unwrap();
    for attempt in [Ok("a:1".to_string()), Err("x".to_string())] {
        match add_server_data_manager(&stream, attempt) {
            ServerAction::Stop(e) => assert_eq!(e, NetError::NoListener),
            _ => panic!("nothing to accept on"),
        }
    }
}

#[test]
fn worker_starts_by_reading_a_prefix() {
    let mut handler = connection();
    assert_eq!(worker_step(&mut handler, WorkerEvent::Start), WorkerAction::Read(4));
}

#[test]
fn worker_hands_a_whole_message_to_the_handler() {
    let mut handler = connection();
    assert_eq!(
        worker_step(&mut handler, WorkerEvent::Bytes(vec![3, 0, 0, 0])),
        WorkerAction::Read(3)
    );
    assert_eq!(worker_step(&mut handler, WorkerEvent::Bytes(vec![1])), WorkerAction::Read(2));
    assert_eq!(
        worker_step(&mut handler, WorkerEvent::Bytes(vec![2, 3])),
        WorkerAction::Handle(vec![1, 2, 3])
    );
}

#[test]
fn worker_writes_the_framed_reply_then_reads_again() {
    let mut handler = connection();
    assert_eq!(
        worker_step(&mut handler, WorkerEvent::Reply(vec![0xAB, 0xCD])),
        WorkerAction::Write(vec![2, 0, 0, 0, 0xAB, 0xCD])
    );
    assert_eq!(worker_step(&mut handler, WorkerEvent::Sent), WorkerAction::Read(4));
}

#[test]
fn worker_closes_quietly_on_graceful_close() {
    let mut handler = connection();
    assert_eq!(worker_step(&mut handler, WorkerEvent::Start), WorkerAction::Read(4));
    assert_eq!(
        worker_step(&mut handler, WorkerEvent::Bytes(Vec::new())),
        WorkerAction::Close(None)
    );
}

#[test]
fn worker_reports_every_failure_and_closes() {
    let cause = || "cause".to_string();
    let cases = [
        (WorkerEvent::ReadFailed(cause()), NetError::Read(cause())),
        (WorkerEvent::DecodeFailed(cause()), NetError::Decode(cause())),
        (WorkerEvent::EncodeFailed(cause()), NetError::Encode(cause())),
        (WorkerEvent::WriteFailed(cause()), NetError::Write(cause())),
        (WorkerEvent::FlushFailed(cause()), NetError::Flush(cause())),
    ];
    for (event, error) in cases {
        let mut handler = connection();
        assert_eq!(worker_step(&mut handler, event), WorkerAction::Close(Some(error)));
    }
}

#[test]
fn worker_reports_a_frame_cut_short() {
    let mut handler = connection();
    assert_eq!(worker_step(&mut handler, WorkerEvent::Bytes(vec![9, 0])), WorkerAction::Read(2));
    assert_eq!(
        worker_step(&mut handler, WorkerEvent::Bytes(Vec::new())),
        WorkerAction::Close(Some(NetError::UnexpectedEof))
    );
}

#[test]
fn worker_closes_on_a_reply_too_long_to_send() {
    let narrow = IrisNetworkConfig { endian: Endian::Big, size: SizeType::U16 };
    let mut handler = IrisNetHandler::new_client(narrow, Ok(())).unwrap();
    assert_eq!(
        worker_step(&mut handler, WorkerEvent::Reply(vec![0u8; 65_536])),
        WorkerAction::Close(Some(NetError::Overflow))
    );
}

#[test]
fn worker_without_stream_closes() {
    for event in [WorkerEvent::Start, WorkerEvent::Sent, WorkerEvent::Reply(vec![1])] {
        let mut handler = listener();
        assert_eq!(worker_step(&mut handler, event), WorkerAction::Close(Some(NetError::NoStream)));
    }
}

#[test]
fn handler_doubles_the_counter() {
    for endian in [Endian::Little, Endian::Big] {
        for size in [SizeType::U16, SizeType::U32, SizeType::U64] {
            let config = IrisNetworkConfig { endian, size };
            for n in [0u64, 1, 21, 250, 251, 70_000, 1 << 40] {
                let mut client = IrisNetHandler::new_client(config, Ok(())).unwrap();
                let listener = IrisNetHandler::new_server(config, Ok(())).unwrap();
                let (mut worker, metadata) =
                    match add_server_data_manager(&listener, Ok("peer:1".to_string())) {
                        ServerAction::Serve(worker, metadata) => (worker, metadata),
                        _ => panic!("an accepted connection must be served"),
                    };

                let request = send_message(&client, &encode(n, endian)).unwrap();
                let (response, report) = serve(&mut worker, &metadata, &request, 3);
                assert_eq!(report, None);

                let mut taken = 0;
                match receive(&mut client, &response, &mut taken) {
                    ReadStep::Message(payload) => assert_eq!(decode(&payload, endian), Ok(2 * n)),
                    other => panic!("expected a message, got {:?}", other),
                }
                assert_eq!(taken, response.len());
                assert_eq!(receive(&mut client, &response, &mut taken), ReadStep::Closed);
            }
        }
    }
}

#[test]
fn replies_come_in_the_order_of_the_requests() {
    let config = config();
    let client = IrisNetHandler::new_client(config, Ok(())).unwrap();
    let mut inbound = Vec::new();
    for n in [1u64, 2, 3, 1000] {
        inbound.extend_from_slice(&send_message(&client, &encode(n, config.endian)).unwrap());
    }
    let mut worker = connection();
    let metadata = IrisNetMetadata { ip: "peer:1".to_string() };
    for limit in [1usize, 2, 5, 1024] {
        let (outbound, report) = serve(&mut worker, &metadata, &inbound, limit);
        assert_eq!(report, None);
        let mut expected = Vec::new();
        for n in [2u64, 4, 6, 2000] {
            expected.extend_from_slice(&encode_frame(config, &encode(n, config.endian)).unwrap());
        }
        assert_eq!(outbound, expected);
    }
}

#[test]
fn worker_closes_on_a_payload_the_codec_rejects() {
    let config = config();
    let mut worker = connection();
    let metadata = IrisNetMetadata { ip: "peer:1".to_string() };
    let mut inbound = encode_frame(config, &encode(7, config.endian)).unwrap();
    inbound.extend_from_slice(&encode_frame(config, &[]).unwrap());
    inbound.extend_from_slice(&encode_frame(config, &encode(8, config.endian)).unwrap());
    let (outbound, report) = serve(&mut worker, &metadata, &inbound, 64);
    assert_eq!(outbound, encode_frame(config, &encode(14, config.endian)).unwrap());
    assert!(matches!(report, Some(NetError::Decode(_))));
}

#[test]
fn worker_stops_at_a_request_cut_short() {
    let config = config();
    let mut worker = connection();
    let metadata = IrisNetMetadata { ip: "peer:1".to_string() };
    let mut inbound = encode_frame(config, &encode(5, config.endian)).unwrap();
    inbound.extend_from_slice(&[9, 0, 0]);
    let (outbound, report) = serve(&mut worker, &metadata, &inbound, 2);
    assert_eq!(outbound, encode_frame(config, &encode(10, config.endian)).unwrap());
    assert_eq!(report, Some(NetError::UnexpectedEof));
}
