//! Records on the wire: named fields, each written as `key=value`, with
//! spaces between them.

use vstd::prelude::*;
use crate::error::{agrees, Error, SpecError};
use crate::wire::{
    cut, head, lemma_try_fold_fails, lemma_try_fold_next, slices, split, split_on, tail,
    try_fold, EQUALS, SPACE,
};

verus! {

/// A type with named fields that is read field by field.
pub trait Record: Sized + View {
    /// The record before any field is read: every field at its default.
    spec fn blank() -> Self::V;

    /// The record `v` after the field named `key` took what `value` stands
    /// for. A `key` that names no field leaves `v` as it is; a `value` that
    /// the field's type cannot read is that type's error.
    spec fn assigned(v: Self::V, key: Seq<u8>, value: Seq<u8>) -> Result<Self::V, SpecError>;

    /// A record with every field at its default.
    fn empty() -> (r: Self)
        ensures
            r@ == Self::blank(),
    ;

    /// Reads `value` into the field named `key`.
    fn assign(self, key: &[u8], value: &[u8]) -> (r: Result<Self, Error>)
        ensures
            agrees(r, Self::assigned(self@, key@, value@)),
    ;
}

/// The outcome `r` of reading a field's value, as the outcome of a record
/// that `wrap` makes with the value in the field.
pub open spec fn put<F, V>(r: Result<F, SpecError>, wrap: spec_fn(F) -> V) -> Result<V, SpecError> {
    match r {
        Ok(x) => Ok(wrap(x)),
        Err(e) => Err(e),
    }
}

/// The record `v` after the token `token`: a token without `=` changes
/// nothing, a token `key=value` assigns; only the first `=` separates.
pub open spec fn token_applied<R: Record>(v: R::V, token: Seq<u8>) -> Result<R::V, SpecError> {
    match tail(token, EQUALS) {
        Some(value) => R::assigned(v, head(token, EQUALS), value),
        None => Ok(v),
    }
}

/// The record that the bytes `buf` stand for: the tokens between the
/// spaces are applied from the left to a blank record, and the first value
/// that cannot be read decides the error.
pub open spec fn decoded_record<R: Record>(buf: Seq<u8>) -> Result<R::V, SpecError> {
    try_fold(split(buf, SPACE), R::blank(), |v: R::V, token: Seq<u8>| token_applied::<R>(v, token))
}

/// Reads a record from `buf`.
pub fn decode_record<R: Record>(buf: &[u8]) -> (r: Result<R, Error>)
    ensures
        agrees(r, decoded_record::<R>(buf@)),
{
    let tokens = split_on(buf, SPACE);
    let ghost step = |v: R::V, token: Seq<u8>| token_applied::<R>(v, token);
    let mut record = R::empty();
    let mut i: usize = 0;
    assert(slices(tokens@).take(0) =~= Seq::<Seq<u8>>::empty());
    while i < tokens.len()
        invariant
            i <= tokens.len(),
            slices(tokens@) == split(buf@, SPACE),
            step == |v: R::V, token: Seq<u8>| token_applied::<R>(v, token),
            try_fold(slices(tokens@).take(i as int), R::blank(), step) == Ok::<R::V, SpecError>(
                record@,
            ),
        decreases tokens.len() - i,
    {
        proof {
            lemma_try_fold_next(slices(tokens@), R::blank(), step, i as int);
        }
        let (key, value) = cut(tokens[i], EQUALS);
        match value {
            Some(value) => {
                match record.assign(key, value) {
                    Ok(next) => {
                        record = next;
                    },
                    Err(e) => {
                        proof {
                            lemma_try_fold_fails(slices(tokens@), R::blank(), step, i + 1);
                        }
                        return Err(e);
                    },
                }
            },
            None => {},
        }
        i = i + 1;
    }
    assert(slices(tokens@).take(i as int) =~= slices(tokens@));
    Ok(record)
}

} // verus!
