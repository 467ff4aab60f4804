//! The decisions of a connection: how the lines that are read are framed
//! into events and responses, and how a response settles the command that
//! asked for it. Reading, writing and waiting are the caller's; every
//! function here takes what happened and says what is to be done.

pub mod correlator;
pub mod framer;
pub mod reply;

use vstd::prelude::*;

pub use correlator::{Correlator, Input, Pair, Pending, Phase, SpecCorrelator, SpecStep, Step};
pub use framer::{Action, Framer, SpecAction, SpecFramer};
pub use reply::{finish, resolve};

verus! {

/// The number of bytes that end a line which the server sends.
pub const TERMINATOR_LEN: usize = 2;

/// The byte that ends a line which the client sends.
pub const NEWLINE: u8 = 10;

/// The number of lines with which the server greets a new connection, and
/// which are read and dropped before anything else.
pub const GREETING_LINES: usize = 2;

/// The number of seconds between two keepalive commands.
pub const KEEPALIVE_SECS: u64 = 60;

/// A line as it was read, without the two bytes that end it.
pub fn strip_terminator(raw: &[u8]) -> (line: &[u8])
    requires
        raw@.len() >= TERMINATOR_LEN,
    ensures
        line@ == raw@.take(raw@.len() - TERMINATOR_LEN),
{
    let line = &raw[0..raw.len() - TERMINATOR_LEN];
    assert(line@ == raw@.take(raw@.len() - TERMINATOR_LEN));
    line
}

/// Whether what one read gave says that the stream has ended: a read gives
/// no byte only there. The reader then stops, and the commands that are not
/// settled are failed.
pub fn stream_ended(raw: &[u8]) -> (r: bool)
    ensures
        r == (raw@.len() == 0),
{
    raw.len() == 0
}

} // verus!
