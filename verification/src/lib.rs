//! A client-side protocol engine for the TeamSpeak 3 ServerQuery interface:
//! the codec of its line format, the framing of responses and events, and
//! the pairing of responses with the commands that asked for them.
//!
//! The library computes and decides; it opens no socket and waits for
//! nothing. A program that owns the connection hands it the lines that
//! were read and does what it says:
//!
//! - [`codec`], [`number`], [`shared`] and [`record`] read and write the
//!   values of the wire format;
//! - [`request`] and [`command`] build the line that a command sends;
//! - [`response`] and [`event`] hold what the server answers and what it
//!   tells unasked;
//! - [`engine`] frames the lines into events and responses and settles
//!   each command with its response, in the order of the commands;
//! - [`raw`] is the untyped view of the same protocol.

pub mod codec;
pub mod command;
pub mod engine;
pub mod error;
pub mod event;
pub mod number;
pub mod raw;
pub mod record;
pub mod request;
pub mod response;
pub mod shared;
mod types;
pub mod wire;

pub use codec::{Decode, Encode};
pub use error::{DecodeError, Error, ErrorKind, IntErrorKind};
pub use vstd::view::View;
