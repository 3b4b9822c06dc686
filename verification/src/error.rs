//! The failures a connection can report.

use vstd::prelude::*;

verus! {

/// Why an operation on a connection did not succeed.
///
/// Variants that carry a `String` hold the transport's or the codec's own
/// account of the failure, unchanged.
#[derive(Clone, Debug, PartialEq, Eq)]
pub enum NetError {
    /// The transport could not reach the remote address.
    Connect(String),
    /// The transport could not listen on the local address.
    Bind(String),
    /// One attempt to accept an incoming connection failed.
    Accept(String),
    /// The handle holds no open stream: it is a listener, or it is closed.
    NoStream,
    /// The handle holds no listener: it is a stream, or it is closed.
    NoListener,
    /// The payload is longer than the configured prefix can announce.
    Overflow,
    /// Reading from the stream failed.
    Read(String),
    /// Writing to the stream failed.
    Write(String),
    /// Flushing the stream failed.
    Flush(String),
    /// Shutting the stream down failed.
    Shutdown(String),
    /// The peer ended the stream in the middle of a frame.
    UnexpectedEof,
    /// The codec could not turn a value into bytes.
    Encode(String),
    /// The codec rejected a payload.
    Decode(String),
}

impl NetError {
    /// Whether the failure lies in moving bytes over an open stream.
    pub open spec fn is_io(self) -> bool {
        self is Read || self is Write || self is Flush || self is Shutdown
            || self is UnexpectedEof
    }

    /// Whether the failure leaves the connection fit for further use.
    ///
    /// Only a refused payload does: nothing was written, so the stream still
    /// stands at a frame boundary.
    pub open spec fn is_recoverable(self) -> bool {
        self is Overflow
    }

    /// Whether the failure lies in moving bytes over an open stream.
    pub fn is_io_error(&self) -> (b: bool)
        ensures
            b == self.is_io(),
    {
        match self {
            NetError::Read(_) => true,
            NetError::Write(_) => true,
            NetError::Flush(_) => true,
            NetError::Shutdown(_) => true,
            NetError::UnexpectedEof => true,
            _ => false,
        }
    }

    /// Whether the connection may still be used after this failure.
    pub fn leaves_connection_usable(&self) -> (b: bool)
        ensures
            b == self.is_recoverable(),
    {
        match self {
            NetError::Overflow => true,
            _ => false,
        }
    }
}

} // verus!
