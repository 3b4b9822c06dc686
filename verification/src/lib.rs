//! A length-prefixed message transport, written without any I/O of its own.
//!
//! A byte stream has no message boundaries. This crate puts them back: every
//! payload travels behind a fixed-width unsigned integer that states its
//! length, in a byte order and width that both ends agree on beforehand.
//!
//! The crate decides and computes; the caller owns the socket and the codec.
//! Each function here takes the outcome of the caller's last operation and
//! answers with the bytes to write or the next operation to perform.
//!
//! * [`config`]: byte order and prefix width.
//! * [`error`]: the failures a connection can report.
//! * [`frame`]: the wire format, as mathematics and as code.
//! * [`reader`]: putting a frame together from the pieces a stream delivers.
//! * [`handler`]: the connection handle and its send, receive and close steps.
//! * [`server`]: the accept loop's and the per-connection worker's decisions.
//! * [`stream`]: a model of a byte stream, and what a reader concludes from it.
//! * [`session`]: a model of a served connection, and what its peer reads.

pub mod config;
pub mod error;
pub mod frame;
pub mod handler;
pub mod reader;
pub mod server;
pub mod session;
pub mod stream;

pub use crate::handler::{read_message, send_message, IrisNetHandler};
pub use crate::server::{add_server_data_manager, IrisNetMetadata};
