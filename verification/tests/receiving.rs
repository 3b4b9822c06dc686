use iris_net::config::{Endian, IrisNetworkConfig, SizeType};
use iris_net::error::NetError;
use iris_net::frame::encode_frame;
use iris_net::handler::{read_message, IrisNetHandler, ReadEvent, ReadStep};
use iris_net::reader::{FrameReader, Progress};

fn configs() -> Vec<IrisNetworkConfig> {
    let mut configs = Vec::new();
    for endian in [Endian::Little, Endian::Big] {
        for size in [SizeType::U16, SizeType::U32, SizeType::U64] {
            configs.push(IrisNetworkConfig { endian, size });
        }
    }
    configs
}

fn payload_of_len(len: usize) -> Vec<u8> {
    (0..len).map(|i| (i * 13 + 5) as u8).collect()
}

/// Runs a receive on a stream that holds `wire` and then ends, and that gives
/// at most `limit` bytes to a read. Returns the end of the receive and the
/// number of bytes taken from the stream.
fn receive(handler: &mut IrisNetHandler, wire: &[u8], limit: usize) -> (ReadStep, usize) {
    let mut taken = 0;
    let mut step = read_message(handler, ReadEvent::Begin);
    loop {
        match step {
            ReadStep::Read(asked) => {
                let n = asked.min(limit).min(wire.len() - taken);
                let chunk = wire[taken..taken + n].to_vec();
                taken += n;
                step = read_message(handler, ReadEvent::Bytes(chunk));
            }
            end => return (end, taken),
        }
    }
}

fn client(config: IrisNetworkConfig) -> IrisNetHandler {
    IrisNetHandler::new_client(config, Ok(())).unwrap()
}

#[test]
fn reader_asks_for_the_prefix_first() {
    for config in configs() {
        let reader = FrameReader::new(config);
        assert!(reader.at_boundary());
        assert_eq!(reader.wanted(), config.size.prefix_len());
        assert_eq!(reader.config(), config);
    }
}

#[test]
fn reader_asks_for_the_rest_of_the_prefix() {
    let config = IrisNetworkConfig { endian: Endian::Big, size: SizeType::U32 };
    let mut reader = FrameReader::new(config);
    assert_eq!(reader.accept(&[0x00]), Progress::Pending);
    assert!(!reader.at_boundary());
    assert_eq!(reader.wanted(), 3);
    assert_eq!(reader.accept(&[0x00, 0x01]), Progress::Pending);
    assert_eq!(reader.wanted(), 1);
}

#[test]
fn reader_asks_for_the_payload_once_the_prefix_is_whole() {
    let config = IrisNetworkConfig { endian: Endian::Big, size: SizeType::U32 };
    let mut reader = FrameReader::new(config);
    assert_eq!(reader.accept(&[0x00, 0x00, 0x01, 0x02]), Progress::Pending);
    assert_eq!(reader.wanted(), 0x0102);
    assert_eq!(reader.accept(&[9u8; 0x0100]), Progress::Pending);
    assert_eq!(reader.wanted(), 2);
    let mut expected = vec![9u8; 0x0100];
    expected.extend_from_slice(&[7, 8]);
    assert_eq!(reader.accept(&[7, 8]), Progress::Message(expected));
    assert!(reader.at_boundary());
    assert_eq!(reader.wanted(), 4);
}

#[test]
fn reader_wants_no_more_than_a_usize_holds() {
    let config = IrisNetworkConfig { endian: Endian::Little, size: SizeType::U64 };
    let mut reader = FrameReader::new(config);
    assert_eq!(reader.accept(&[0xFF; 8]), Progress::Pending);
    assert_eq!(reader.wanted() as u64, u64::MAX.min(usize::MAX as u64));
    assert_eq!(reader.accept(&[1, 2, 3]), Progress::Pending);
    assert_eq!(reader.wanted() as u64, (u64::MAX - 3).min(usize::MAX as u64));
}

#[test]
fn empty_message_is_whole_with_its_prefix() {
    for config in configs() {
        let mut reader = FrameReader::new(config);
        let prefix = vec![0u8; config.size.prefix_len()];
        assert_eq!(reader.accept(&prefix), Progress::Message(Vec::new()));
        assert!(reader.at_boundary());
    }
}

#[test]
fn reader_takes_one_frame_after_another() {
    let config = IrisNetworkConfig { endian: Endian::Little, size: SizeType::U16 };
    let mut reader = FrameReader::new(config);
    for text in [&b"one"[..], &b""[..], &b"three"[..]] {
        let wire = encode_frame(config, text).unwrap();
        assert_eq!(reader.accept(&wire[..2]), if text.is_empty() {
            Progress::Message(Vec::new())
        } else {
            Progress::Pending
        });
        if !text.is_empty() {
            assert_eq!(reader.accept(&wire[2..]), Progress::Message(text.to_vec()));
        }
    }
}

#[test]
fn one_byte_at_a_time() {
    for config in configs() {
        for len in [0usize, 1, 5, 300] {
            let payload = payload_of_len(len);
            let wire = encode_frame(config, &payload).unwrap();
            let mut handler = client(config);
            let (end, taken) = receive(&mut handler, &wire, 1);
            assert_eq!(end, ReadStep::Message(payload));
            assert_eq!(taken, wire.len());
        }
    }
}

#[test]
fn any_chunk_size_gives_the_same_message() {
    let payload = payload_of_len(1000);
    for config in configs() {
        let wire = encode_frame(config, &payload).unwrap();
        for limit in [1usize, 2, 3, 5, 7, 64, 999, 1000, 1001, usize::MAX] {
            let mut handler = client(config);
            let (end, taken) = receive(&mut handler, &wire, limit);
            assert_eq!(end, ReadStep::Message(payload.clone()));
            assert_eq!(taken, wire.len());
        }
    }
}

#[test]
fn a_receive_stops_at_the_end_of_its_frame() {
    let config = IrisNetworkConfig { endian: Endian::Big, size: SizeType::U16 };
    let mut wire = encode_frame(config, b"first").unwrap();
    let first_len = wire.len();
    wire.extend_from_slice(&encode_frame(config, b"second").unwrap());
    let mut handler = client(config);
    let (end, taken) = receive(&mut handler, &wire, 4);
    assert_eq!(end, ReadStep::Message(b"first".to_vec()));
    assert_eq!(taken, first_len);
    let (end, more) = receive(&mut handler, &wire[taken..], 4);
    assert_eq!(end, ReadStep::Message(b"second".to_vec()));
    assert_eq!(taken + more, wire.len());
    let (end, _) = receive(&mut handler, &[], 4);
    assert_eq!(end, ReadStep::Closed);
}

#[test]
fn close_before_any_byte_is_graceful() {
    for config in configs() {
        let mut handler = client(config);
        let (end, taken) = receive(&mut handler, &[], 16);
        assert_eq!(end, ReadStep::Closed);
        assert_eq!(taken, 0);
    }
}

#[test]
fn close_inside_the_prefix_is_a_fault() {
    for config in configs() {
        let wire = encode_frame(config, b"payload").unwrap();
        for cut in 1..config.size.prefix_len() {
            let mut handler = client(config);
            let (end, taken) = receive(&mut handler, &wire[..cut], 16);
            assert_eq!(end, ReadStep::Failed(NetError::UnexpectedEof));
            assert_eq!(taken, cut);
        }
    }
}

#[test]
fn close_inside_the_payload_is_a_fault() {
    for config in configs() {
        let wire = encode_frame(config, b"payload").unwrap();
        for cut in config.size.prefix_len()..wire.len() {
            for limit in [1usize, 3, 64] {
                let mut handler = client(config);
                let (end, taken) = receive(&mut handler, &wire[..cut], limit);
                assert_eq!(end, ReadStep::Failed(NetError::UnexpectedEof));
                assert_eq!(taken, cut);
            }
        }
    }
}

#[test]
fn reader_tells_the_two_closes_apart() {
    let config = IrisNetworkConfig::default();
    let mut reader = FrameReader::new(config);
    assert_eq!(reader.accept(&[]), Progress::Closed);
    assert_eq!(reader.accept(&[3]), Progress::Pending);
    assert_eq!(reader.accept(&[]), Progress::Truncated);
    assert_eq!(reader.wanted(), 3);
}

#[test]
fn failed_read_is_reported_with_its_cause() {
    let mut handler = client(IrisNetworkConfig::default());
    assert_eq!(read_message(&mut handler, ReadEvent::Begin), ReadStep::Read(4));
    assert_eq!(
        read_message(&mut handler, ReadEvent::Failed("connection reset".to_string())),
        ReadStep::Failed(NetError::Read("connection reset".to_string()))
    );
}

#[test]
fn begin_repeats_the_pending_request() {
    let config = IrisNetworkConfig { endian: Endian::Little, size: SizeType::U32 };
    let mut handler = client(config);
    assert_eq!(read_message(&mut handler, ReadEvent::Bytes(vec![2, 0])), ReadStep::Read(2));
    assert_eq!(read_message(&mut handler, ReadEvent::Begin), ReadStep::Read(2));
    assert_eq!(read_message(&mut handler, ReadEvent::Bytes(vec![0, 0])), ReadStep::Read(2));
    assert_eq!(read_message(&mut handler, ReadEvent::Begin), ReadStep::Read(2));
    assert_eq!(
        read_message(&mut handler, ReadEvent::Bytes(vec![0xAA, 0xBB])),
        ReadStep::Message(vec![0xAA, 0xBB])
    );
    assert_eq!(read_message(&mut handler, ReadEvent::Begin), ReadStep::Read(4));
}

#[test]
fn mismatched_byte_order_reads_another_length() {
    let sender = IrisNetworkConfig { endian: Endian::Big, size: SizeType::U16 };
    let receiver = IrisNetworkConfig { endian: Endian::Little, size: SizeType::U16 };
    let wire = encode_frame(sender, b"ab").unwrap();
    let mut handler = client(receiver);
    assert_eq!(
        read_message(&mut handler, ReadEvent::Bytes(wire[..2].to_vec())),
        ReadStep::Read(0x0200)
    );
}
