//! Replies: what a command is settled with, and what its caller gets.

use vstd::prelude::*;
use crate::codec::Decode;
use crate::error::{agrees, Error, SpecError};

verus! {

/// What the command gets whose response has the data `data` and the error
/// line `error`: the data if the error line states success, else the error
/// line as its error.
pub open spec fn resolved(data: Seq<u8>, error: SpecError) -> Result<Seq<u8>, SpecError> {
    if error.is_ok() {
        Ok(data)
    } else {
        Err(error)
    }
}

/// Settles a command with its response.
pub fn resolve(data: Vec<u8>, error: Error) -> (r: Result<Vec<u8>, Error>)
    ensures
        agrees(r, resolved(data@, error@)),
        r matches Ok(d) ==> d == data,
        r matches Err(e) ==> e == error,
{
    if error.ok() {
        Ok(data)
    } else {
        Err(error)
    }
}

/// The view of what a command was settled with.
pub open spec fn reply_view(reply: Result<Vec<u8>, Error>) -> Result<Seq<u8>, SpecError> {
    match reply {
        Ok(data) => Ok(data@),
        Err(e) => Err(e@),
    }
}

/// What the caller of a command gets from what the command was settled
/// with: the value that the data stands for, or the error of reading it,
/// or the error that the command was settled with.
pub open spec fn finished<T: Decode>(reply: Result<Seq<u8>, SpecError>) -> Result<T::V, SpecError> {
    match reply {
        Ok(data) => T::decoded(data),
        Err(e) => Err(e),
    }
}

/// Reads the value that the caller of a command asked for from what the
/// command was settled with.
pub fn finish<T: Decode>(reply: Result<Vec<u8>, Error>) -> (r: Result<T, Error>)
    ensures
        agrees(r, finished::<T>(reply_view(reply))),
        reply matches Err(e) ==> r == Err::<T, Error>(e),
{
    match reply {
        Ok(data) => T::decode(data.as_slice()),
        Err(e) => Err(e),
    }
}

/// A command whose error line states a failure never succeeds: whatever
/// its data and whatever the caller asked for, the caller gets the error
/// line as its error.
pub proof fn lemma_protocol_error_fails<T: Decode>(data: Seq<u8>, id: u16, msg: Seq<char>)
    requires
        id != 0,
    ensures
        finished::<T>(resolved(data, SpecError::TS3 { id, msg })) == Err::<T::V, SpecError>(
            SpecError::TS3 { id, msg },
        ),
{
}

/// A command whose error line states success gives the caller what its
/// data stands for.
pub proof fn lemma_success_is_decoded<T: Decode>(data: Seq<u8>, msg: Seq<char>)
    ensures
        finished::<T>(resolved(data, SpecError::TS3 { id: 0, msg })) == T::decoded(data),
{
}

} // verus!
