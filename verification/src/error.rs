//! The errors of the library and their mathematical views.

use vstd::prelude::*;
use crate::codec::Decode;
use crate::wire::{
    cut, head, is_word, lemma_try_fold_fails, lemma_try_fold_next, slices, split, split_on,
    tail, try_fold, word_bytes, EQUALS, SPACE,
};

verus! {

/// The standard library's report of where a byte sequence stops being
/// UTF-8. Nothing in this library looks inside it.
#[verifier::external_type_specification]
#[verifier::external_body]
pub struct ExUtf8Error(core::str::Utf8Error);

/// The standard library's I/O error. Nothing in this library looks inside
/// it.
#[verifier::external_type_specification]
#[verifier::external_body]
pub struct ExIoError(std::io::Error);

/// Why a text is not a decimal number of the wanted width.
#[derive(Clone, Copy, Debug, PartialEq, Eq, Structural)]
pub enum IntErrorKind {
    /// The text is empty.
    Empty,
    /// The text holds a byte that is no digit, or only a sign.
    InvalidDigit,
    /// The number is above the largest value of the type.
    PosOverflow,
    /// The number is below the smallest value of the type.
    NegOverflow,
}

/// Malformed wire text.
#[derive(Debug)]
pub enum DecodeError {
    /// The text ended where more was needed.
    UnexpectedEof,
    /// A byte that may not stand where it stands.
    UnexpectedByte(u8),
    /// A number that names no reason.
    InvalidReasonId(u8),
    /// A word that names no API key scope.
    InvalidApiKeyScope(String),
}

/// The view of a [`DecodeError`].
pub enum SpecDecodeError {
    UnexpectedEof,
    UnexpectedByte(u8),
    InvalidReasonId(u8),
    InvalidApiKeyScope(Seq<char>),
}

impl View for DecodeError {
    type V = SpecDecodeError;

    open spec fn view(&self) -> SpecDecodeError {
        match self {
            DecodeError::UnexpectedEof => SpecDecodeError::UnexpectedEof,
            DecodeError::UnexpectedByte(b) => SpecDecodeError::UnexpectedByte(*b),
            DecodeError::InvalidReasonId(b) => SpecDecodeError::InvalidReasonId(*b),
            DecodeError::InvalidApiKeyScope(s) => SpecDecodeError::InvalidApiKeyScope(s@),
        }
    }
}

/// What went wrong.
#[derive(Debug)]
pub enum ErrorKind {
    /// The error line that ends every response. An `id` of 0 means that the
    /// command succeeded.
    TS3 { id: u16, msg: String },
    /// The transport failed.
    Io(std::io::Error),
    /// The wire text is malformed.
    Decode(DecodeError),
    /// The text is no number of the wanted type.
    ParseInt(IntErrorKind),
    /// The bytes are not UTF-8.
    Utf8(core::str::Utf8Error),
    /// The command queue is gone and takes no more commands.
    SendError,
    /// The entry lacks the field, or the field has no value.
    NoField,
}

/// The view of an [`Error`]: its kind, with texts as sequences of
/// characters and without what the standard library's errors hold.
pub enum SpecError {
    TS3 { id: u16, msg: Seq<char> },
    Io,
    Decode(SpecDecodeError),
    ParseInt(IntErrorKind),
    Utf8,
    SendError,
    NoField,
}

impl View for ErrorKind {
    type V = SpecError;

    open spec fn view(&self) -> SpecError {
        match self {
            ErrorKind::TS3 { id, msg } => SpecError::TS3 { id: *id, msg: msg@ },
            ErrorKind::Io(_) => SpecError::Io,
            ErrorKind::Decode(e) => SpecError::Decode(e@),
            ErrorKind::ParseInt(k) => SpecError::ParseInt(*k),
            ErrorKind::Utf8(_) => SpecError::Utf8,
            ErrorKind::SendError => SpecError::SendError,
            ErrorKind::NoField => SpecError::NoField,
        }
    }
}

/// An error that can occur when talking to the query interface.
#[derive(Debug)]
pub struct Error(pub ErrorKind);

impl View for Error {
    type V = SpecError;

    open spec fn view(&self) -> SpecError {
        self.0@
    }
}

impl SpecError {
    /// Whether this is the error line of a command that succeeded.
    pub open spec fn is_ok(self) -> bool {
        self matches SpecError::TS3 { id, .. } && id == 0
    }
}

/// Whether the outcome `r` of a computation is the outcome `m` of its
/// model: the same value or the same error, each by its view.
pub open spec fn agrees<T: View>(r: Result<T, Error>, m: Result<T::V, SpecError>) -> bool {
    match r {
        Ok(v) => m == Ok::<T::V, SpecError>(v@),
        Err(e) => m == Err::<T::V, SpecError>(e@),
    }
}

/// The `id` and `msg` of an error line after one more token. The word
/// `error` changes nothing; any other token must have a value, else it is
/// `UnexpectedEof`. The value of `id` is read as a number and that of `msg`
/// as an escaped text; other keys change nothing.
pub open spec fn error_token_applied(state: (u16, Seq<char>), token: Seq<u8>) -> Result<
    (u16, Seq<char>),
    SpecError,
> {
    if token == word_bytes("error") {
        Ok(state)
    } else {
        match tail(token, EQUALS) {
            Some(value) => {
                if head(token, EQUALS) == word_bytes("id") {
                    match u16::decoded(value) {
                        Ok(id) => Ok((id, state.1)),
                        Err(e) => Err(e),
                    }
                } else if head(token, EQUALS) == word_bytes("msg") {
                    match String::decoded(value) {
                        Ok(msg) => Ok((state.0, msg)),
                        Err(e) => Err(e),
                    }
                } else {
                    Ok(state)
                }
            },
            None => Err(SpecError::Decode(SpecDecodeError::UnexpectedEof)),
        }
    }
}

/// The protocol error that the error line `buf` stands for: its tokens are
/// taken from the left, starting from `id` 0 and an empty `msg`.
pub open spec fn decoded_error_line(buf: Seq<u8>) -> Result<SpecError, SpecError> {
    match try_fold(
        split(buf, SPACE),
        (0u16, Seq::<char>::empty()),
        |state: (u16, Seq<char>), token: Seq<u8>| error_token_applied(state, token),
    ) {
        Ok((id, msg)) => Ok(SpecError::TS3 { id, msg }),
        Err(e) => Err(e),
    }
}

impl Error {
    /// Reads the error line that ends a response. What comes back in `Ok`
    /// is the protocol error that the line states, also where it states
    /// success.
    pub fn decode(buf: &[u8]) -> (r: Result<Error, Error>)
        ensures
            agrees(r, decoded_error_line(buf@)),
    {
        let tokens = split_on(buf, SPACE);
        let ghost step = |state: (u16, Seq<char>), token: Seq<u8>|
            error_token_applied(state, token);
        let ghost init = (0u16, Seq::<char>::empty());
        let mut id: u16 = 0;
        let mut msg = String::new();
        let mut i: usize = 0;
        assert(slices(tokens@).take(0) =~= Seq::<Seq<u8>>::empty());
        while i < tokens.len()
            invariant
                i <= tokens.len(),
                slices(tokens@) == split(buf@, SPACE),
                init == (0u16, Seq::<char>::empty()),
                step == |state: (u16, Seq<char>), token: Seq<u8>|
                    error_token_applied(state, token),
                try_fold(slices(tokens@).take(i as int), init, step) == Ok::<
                    (u16, Seq<char>),
                    SpecError,
                >((id, msg@)),
            decreases tokens.len() - i,
        {
            proof {
                lemma_try_fold_next(slices(tokens@), init, step, i as int);
                lemma_try_fold_fails(slices(tokens@), init, step, i + 1);
            }
            let token = tokens[i];
            if !is_word(token, "error") {
                let (key, value) = cut(token, EQUALS);
                let value = match value {
                    Some(value) => value,
                    None => {
                        return Err(Error(ErrorKind::Decode(DecodeError::UnexpectedEof)));
                    },
                };
                if is_word(key, "id") {
                    match u16::decode(value) {
                        Ok(x) => {
                            id = x;
                        },
                        Err(e) => {
                            return Err(e);
                        },
                    }
                } else if is_word(key, "msg") {
                    match String::decode(value) {
                        Ok(x) => {
                            msg = x;
                        },
                        Err(e) => {
                            return Err(e);
                        },
                    }
                }
            }
            i = i + 1;
        }
        assert(slices(tokens@).take(i as int) =~= slices(tokens@));
        Ok(Error(ErrorKind::TS3 { id, msg }))
    }

    /// Whether this is the error line of a command that succeeded: a
    /// protocol error with `id` 0.
    pub fn ok(&self) -> (r: bool)
        ensures
            r == self@.is_ok(),
    {
        match &self.0 {
            ErrorKind::TS3 { id, msg: _ } => *id == 0,
            _ => false,
        }
    }

}

} // verus!
