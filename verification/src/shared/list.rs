//! Lists on the wire: values of one type, written one after another with a
//! separator between them.

use vstd::prelude::*;
use vstd::string::{StringExecFns, StringSliceAdditionalSpecFns};
use std::marker::PhantomData;
use std::ops::Deref;
use crate::codec::{
    escape, lemma_ascii_bytes, lemma_encode_utf8_concat, lemma_encode_utf8_lacks,
    lemma_escape_has_no_pipe, lemma_text_round_trip, round_trips, Decode, Encode,
};
use crate::error::{Error, SpecError};
use crate::number::{decimal, is_digit, lemma_digits_are_digits, lemma_u64_round_trip};
use crate::wire::{bytes_eq, slices};

verus! {

/// A pattern that separates the elements of a [`List`].
pub trait Separator {
    /// The pattern that stands between two elements.
    const PATTERN: &'static str;

    /// The pattern is not empty.
    proof fn pattern_is_not_empty()
        ensures
            Self::PATTERN@.len() > 0,
    ;
}

/// The pipe (`|`) separator.
#[derive(Copy, Clone, Debug, PartialEq, Eq, PartialOrd, Ord, Hash)]
pub struct Pipe;

impl Separator for Pipe {
    const PATTERN: &'static str = "|";

    proof fn pattern_is_not_empty() {
        reveal_strlit("|");
    }
}

/// The comma (`,`) separator.
#[derive(Copy, Clone, Debug, Default, PartialEq, Eq, PartialOrd, Ord, Hash)]
pub struct Comma;

impl Separator for Comma {
    const PATTERN: &'static str = ",";

    proof fn pattern_is_not_empty() {
        reveal_strlit(",");
    }
}

/// The bytes of the pattern of the separator `S`.
pub open spec fn pattern_bytes<S: Separator>() -> Seq<u8> {
    S::PATTERN.spec_bytes()
}

/// The bytes of a separator's pattern are not empty either.
pub proof fn lemma_pattern_bytes<S: Separator>()
    ensures
        pattern_bytes::<S>().len() > 0,
{
    S::pattern_is_not_empty();
    vstd::utf8::encode_utf8_decode_utf8(S::PATTERN@);
    if pattern_bytes::<S>().len() == 0 {
        assert(vstd::utf8::decode_utf8(pattern_bytes::<S>()).len() == 0);
    }
}

/// Whether `pat` stands in `buf` at the index `i`.
pub open spec fn stands_at(buf: Seq<u8>, pat: Seq<u8>, i: int) -> bool {
    0 <= i && i + pat.len() <= buf.len() && buf.subrange(i, i + pat.len()) == pat
}

/// The first index at or behind `from` at which `pat` stands in `buf`.
pub open spec fn find_from(buf: Seq<u8>, pat: Seq<u8>, from: int) -> Option<int>
    decreases buf.len() + 1 - from,
{
    if 0 <= from && from + pat.len() <= buf.len() {
        if stands_at(buf, pat, from) {
            Some(from)
        } else {
            find_from(buf, pat, from + 1)
        }
    } else {
        None
    }
}

/// The pieces of `buf` between the occurrences of `pat`, which are looked
/// for from the left, each behind the one before. A piece may be empty.
/// Where what is left of `buf` is the pattern and nothing else, the empty
/// piece before it is the last one; in every other case the piece behind
/// the last occurrence is. An empty pattern splits nothing.
pub open spec fn split_pattern(buf: Seq<u8>, pat: Seq<u8>) -> Seq<Seq<u8>>
    decreases buf.len(),
{
    match find_from(buf, pat, 0) {
        Some(i) => {
            if pat.len() == 0 {
                seq![buf]
            } else if buf.len() <= pat.len() {
                seq![buf.take(i)]
            } else {
                proof {
                    lemma_find_from(buf, pat, 0);
                }
                seq![buf.take(i)] + split_pattern(buf.skip(i + pat.len()), pat)
            }
        },
        None => seq![buf],
    }
}

/// What `find_from` gives is a place at or behind `from` at which the
/// pattern stands.
pub proof fn lemma_find_from(buf: Seq<u8>, pat: Seq<u8>, from: int)
    ensures
        find_from(buf, pat, from) matches Some(i) ==> from <= i && stands_at(buf, pat, i),
    decreases buf.len() + 1 - from,
{
    if 0 <= from && from + pat.len() <= buf.len() && !stands_at(buf, pat, from) {
        lemma_find_from(buf, pat, from + 1);
    }
}

/// Splits `buf` at the occurrences of `pat`.
pub fn bytes_split<'a>(buf: &'a [u8], pat: &[u8]) -> (r: Vec<&'a [u8]>)
    requires
        pat@.len() > 0,
    ensures
        slices(r@) == split_pattern(buf@, pat@),
{
    let mut rest: &'a [u8] = buf;
    let mut cursor: usize = 0;
    let mut segs: Vec<&'a [u8]> = Vec::new();
    while rest.len() - cursor >= pat.len()
        invariant
            pat@.len() > 0,
            cursor <= rest.len(),
            find_from(rest@, pat@, 0) == find_from(rest@, pat@, cursor as int),
            split_pattern(buf@, pat@) == slices(segs@) + split_pattern(rest@, pat@),
        decreases rest.len(), rest.len() - cursor,
    {
        let window = &rest[cursor..cursor + pat.len()];
        if bytes_eq(window, pat) {
            let ghost before = slices(segs@);
            let piece = &rest[0..cursor];
            assert(piece@ == rest@.take(cursor as int));
            segs.push(piece);
            assert(slices(segs@) =~= before + seq![piece@]);
            if rest.len() <= pat.len() {
                return segs;
            }
            let next = &rest[cursor + pat.len()..rest.len()];
            assert(next@ == rest@.skip(cursor + pat.len()));
            assert(before + (seq![piece@] + split_pattern(next@, pat@)) =~= (before + seq![piece@])
                + split_pattern(next@, pat@));
            rest = next;
            cursor = 0;
        } else {
            cursor = cursor + 1;
        }
    }
    let ghost before = slices(segs@);
    segs.push(rest);
    assert(slices(segs@) =~= before + seq![rest@]);
    segs
}

/// The texts `parts` one after another with `sep` between them.
pub open spec fn join(parts: Seq<Seq<char>>, sep: Seq<char>) -> Seq<char>
    decreases parts.len(),
{
    if parts.len() == 0 {
        Seq::empty()
    } else if parts.len() == 1 {
        parts[0]
    } else {
        join(parts.drop_last(), sep) + sep + parts.last()
    }
}

/// The values that the pieces `segs` stand for, each read as a `T`; the
/// error of the first piece from the left that cannot be read.
pub open spec fn decode_all<T: Decode>(segs: Seq<Seq<u8>>) -> Result<Seq<T::V>, SpecError>
    decreases segs.len(),
{
    if segs.len() == 0 {
        Ok(Seq::empty())
    } else {
        match decode_all::<T>(segs.drop_last()) {
            Ok(vs) => match T::decoded(segs.last()) {
                Ok(v) => Ok(vs.push(v)),
                Err(e) => Err(e),
            },
            Err(e) => Err(e),
        }
    }
}

/// A list of elements separated by a [`Separator`].
#[derive(Debug, PartialEq, Eq, PartialOrd, Ord, Hash)]
pub struct List<T, S> where S: Separator {
    vec: Vec<T>,
    _marker: PhantomData<S>,
}

impl<T, S> List<T, S> where S: Separator {
    /// The elements of the list.
    pub closed spec fn items(&self) -> Seq<T> {
        self.vec@
    }

    /// Creates a new `List` from a [`Vec`].
    pub fn new(vec: Vec<T>) -> (r: Self)
        ensures
            r.items() == vec@,
    {
        Self { vec, _marker: PhantomData }
    }

    /// Consumes this `List` and returns the wrapped [`Vec`].
    pub fn into_inner(self) -> (r: Vec<T>)
        ensures
            r@ == self.items(),
    {
        self.vec
    }
}

impl<T: View, S: Separator> View for List<T, S> {
    type V = Seq<T::V>;

    open spec fn view(&self) -> Seq<T::V> {
        self.items().map_values(|e: T| e@)
    }
}

impl<T: Clone, S: Separator> Clone for List<T, S> {
    fn clone(&self) -> (r: Self)
        ensures
            r.items().len() == self.items().len(),
            forall|i: int|
                0 <= i < self.items().len() ==> cloned::<T>(self.items()[i], #[trigger] r.items()[i]),
    {
        Self { vec: self.vec.clone(), _marker: PhantomData }
    }
}

impl<T, S> Default for List<T, S> where S: Separator {
    fn default() -> (r: Self)
        ensures
            r.items() == Seq::<T>::empty(),
    {
        Self::new(Vec::new())
    }
}

impl<T, S> Deref for List<T, S> where S: Separator {
    type Target = Vec<T>;

    fn deref(&self) -> (r: &Vec<T>)
        ensures
            r@ == self.items(),
    {
        &self.vec
    }
}

impl<T, S> std::ops::DerefMut for List<T, S> where S: Separator {
    fn deref_mut(&mut self) -> (r: &mut Vec<T>)
        ensures
            r@ == old(self).items(),
            final(self).items() == final(r)@,
    {
        &mut self.vec
    }
}

impl<T, S> From<Vec<T>> for List<T, S> where S: Separator {
    fn from(value: Vec<T>) -> (r: Self)
        ensures
            r.items() == value@,
    {
        List { vec: value, _marker: PhantomData }
    }
}

impl<T, S> vstd::std_specs::convert::FromSpecImpl<Vec<T>> for List<T, S> where S: Separator {
    open spec fn obeys_from_spec() -> bool {
        true
    }

    closed spec fn from_spec(value: Vec<T>) -> Self {
        List { vec: value, _marker: PhantomData }
    }
}

impl<T, S> From<List<T, S>> for Vec<T> where S: Separator {
    fn from(value: List<T, S>) -> (r: Self)
        ensures
            r@ == value.items(),
    {
        value.vec
    }
}

impl<T, S> vstd::std_specs::convert::FromSpecImpl<List<T, S>> for Vec<T> where S: Separator {
    open spec fn obeys_from_spec() -> bool {
        true
    }

    closed spec fn from_spec(value: List<T, S>) -> Self {
        value.vec
    }
}

impl<T, S> Encode for List<T, S> where T: Encode, S: Separator {
    /// The texts of the elements with the pattern between them.
    open spec fn encoded(&self) -> Seq<char> {
        join(self.items().map_values(|e: T| e.encoded()), S::PATTERN@)
    }

    fn encode(&self, buf: &mut String) {
        let ghost texts = self.items().map_values(|e: T| e.encoded());
        let n = self.vec.len();
        if n == 0 {
            assert(final(buf)@ =~= old(buf)@ + Seq::<char>::empty());
            return ;
        }
        self.vec[0].encode(buf);
        assert(texts.take(1) =~= seq![texts[0]]);
        let mut i: usize = 1;
        while i < n
            invariant
                1 <= i <= n,
                n == self.vec.len(),
                texts == self.items().map_values(|e: T| e.encoded()),
                buf@ == old(buf)@ + join(texts.take(i as int), S::PATTERN@),
            decreases n - i,
        {
            let ghost before = buf@;
            buf.append(S::PATTERN);
            self.vec[i].encode(buf);
            proof {
                let t = texts.take(i + 1);
                assert(t.drop_last() =~= texts.take(i as int));
                assert(t.last() == self.vec[i as int].encoded());
                assert(buf@ =~= old(buf)@ + join(t, S::PATTERN@));
            }
            i = i + 1;
        }
        assert(texts.take(n as int) =~= texts);
    }
}

impl<T, S> Decode for List<T, S> where T: Decode, S: Separator {
    /// The pieces between the patterns, each read as a `T`.
    open spec fn decoded(buf: Seq<u8>) -> Result<Seq<T::V>, SpecError> {
        decode_all::<T>(split_pattern(buf, pattern_bytes::<S>()))
    }

    fn decode(buf: &[u8]) -> (r: Result<Self, Error>) {
        proof {
            lemma_pattern_bytes::<S>();
        }
        let segs = bytes_split(buf, S::PATTERN.as_bytes());
        let mut vec: Vec<T> = Vec::new();
        let mut i: usize = 0;
        assert(slices(segs@).take(0) =~= Seq::<Seq<u8>>::empty());
        assert(vec@.map_values(|e: T| e@) =~= Seq::<T::V>::empty());
        while i < segs.len()
            invariant
                i <= segs.len(),
                slices(segs@) == split_pattern(buf@, pattern_bytes::<S>()),
                decode_all::<T>(slices(segs@).take(i as int)) == Ok::<Seq<T::V>, SpecError>(
                    vec@.map_values(|e: T| e@),
                ),
            decreases segs.len() - i,
        {
            let ghost done = vec@.map_values(|e: T| e@);
            let ghost prefix = slices(segs@).take(i + 1);
            assert(prefix.drop_last() =~= slices(segs@).take(i as int));
            assert(prefix.last() == segs[i as int]@);
            match T::decode(segs[i]) {
                Ok(v) => {
                    vec.push(v);
                    assert(vec@.map_values(|e: T| e@) =~= done.push(v@));
                },
                Err(e) => {
                    proof {
                        assert(decode_all::<T>(prefix) == Err::<Seq<T::V>, SpecError>(e@));
                        lemma_decode_all_fails::<T>(slices(segs@), i + 1);
                    }
                    return Err(e);
                },
            }
            i = i + 1;
        }
        assert(slices(segs@).take(i as int) =~= slices(segs@));
        Ok(Self { vec, _marker: PhantomData })
    }
}

/// Pieces that can each be read can be read one after another.
pub proof fn lemma_decode_all_is_ok<T: Decode>(segs: Seq<Seq<u8>>)
    requires
        forall|k: int| 0 <= k < segs.len() ==> T::decoded(#[trigger] segs[k]) is Ok,
    ensures
        decode_all::<T>(segs) is Ok,
    decreases segs.len(),
{
    if segs.len() > 0 {
        lemma_decode_all_is_ok::<T>(segs.drop_last());
        assert(T::decoded(segs[segs.len() - 1]) is Ok);
    }
}

/// Reading pieces gives as many values as there are pieces.
pub proof fn lemma_decode_all_len<T: Decode>(segs: Seq<Seq<u8>>)
    ensures
        decode_all::<T>(segs) matches Ok(values) ==> values.len() == segs.len(),
    decreases segs.len(),
{
    if segs.len() > 0 {
        lemma_decode_all_len::<T>(segs.drop_last());
    }
}

/// Where reading the first `n` pieces fails, reading all of them fails in
/// the same way.
pub proof fn lemma_decode_all_fails<T: Decode>(segs: Seq<Seq<u8>>, n: int)
    requires
        0 <= n <= segs.len(),
        decode_all::<T>(segs.take(n)) is Err,
    ensures
        decode_all::<T>(segs) == decode_all::<T>(segs.take(n)),
    decreases segs.len() - n,
{
    if n < segs.len() {
        assert(segs.take(n + 1).drop_last() =~= segs.take(n));
        lemma_decode_all_fails::<T>(segs, n + 1);
    } else {
        assert(segs.take(n) =~= segs);
    }
}

/// The pieces `pieces` one after another with `sep` between them.
pub open spec fn join_bytes(pieces: Seq<Seq<u8>>, sep: Seq<u8>) -> Seq<u8>
    decreases pieces.len(),
{
    if pieces.len() == 0 {
        Seq::empty()
    } else if pieces.len() == 1 {
        pieces[0]
    } else {
        join_bytes(pieces.drop_last(), sep) + sep + pieces.last()
    }
}

/// Joined texts are in UTF-8 the joined bytes of the texts.
pub proof fn lemma_encode_join(texts: Seq<Seq<char>>, sep: Seq<char>)
    ensures
        vstd::utf8::encode_utf8(join(texts, sep)) == join_bytes(
            texts.map_values(|t: Seq<char>| vstd::utf8::encode_utf8(t)),
            vstd::utf8::encode_utf8(sep),
        ),
    decreases texts.len(),
{
    let pieces = texts.map_values(|t: Seq<char>| vstd::utf8::encode_utf8(t));
    if texts.len() >= 2 {
        lemma_encode_join(texts.drop_last(), sep);
        assert(pieces.drop_last() =~= texts.drop_last().map_values(
            |t: Seq<char>| vstd::utf8::encode_utf8(t),
        ));
        lemma_encode_utf8_concat(join(texts.drop_last(), sep) + sep, texts.last());
        lemma_encode_utf8_concat(join(texts.drop_last(), sep), sep);
    }
}

/// Joined pieces begin with the first piece; the separator and the other
/// pieces, joined, follow.
pub proof fn lemma_join_bytes_front(pieces: Seq<Seq<u8>>, sep: Seq<u8>)
    requires
        pieces.len() >= 2,
    ensures
        join_bytes(pieces, sep) == pieces[0] + sep + join_bytes(pieces.drop_first(), sep),
    decreases pieces.len(),
{
    if pieces.len() == 2 {
        assert(pieces.drop_last() =~= seq![pieces[0]]);
        assert(pieces.drop_first() =~= seq![pieces[1]]);
        assert(join_bytes(pieces.drop_last(), sep) == pieces[0]);
        assert(join_bytes(pieces.drop_first(), sep) == pieces[1]);
        assert(pieces.last() == pieces[1]);
    } else {
        lemma_join_bytes_front(pieces.drop_last(), sep);
        assert(pieces.drop_last().drop_first() =~= pieces.drop_first().drop_last());
        assert(pieces.drop_first().last() == pieces.last());
        assert(pieces.drop_last()[0] == pieces[0]);
        assert(join_bytes(pieces, sep) =~= pieces[0] + sep + join_bytes(pieces.drop_first(), sep));
    }
}

/// The first place from `from` on at which the pattern stands is what
/// `find_from` gives.
pub proof fn lemma_find_from_is(buf: Seq<u8>, pat: Seq<u8>, from: int, i: int)
    requires
        0 <= from <= i,
        stands_at(buf, pat, i),
        forall|j: int| from <= j < i ==> !#[trigger] stands_at(buf, pat, j),
    ensures
        find_from(buf, pat, from) == Some(i),
    decreases i - from,
{
    if from < i {
        lemma_find_from_is(buf, pat, from + 1, i);
    }
}

/// Where the pattern stands nowhere from `from` on, `find_from` gives
/// nothing.
pub proof fn lemma_find_from_none(buf: Seq<u8>, pat: Seq<u8>, from: int)
    requires
        0 <= from,
        forall|j: int| from <= j ==> !#[trigger] stands_at(buf, pat, j),
    ensures
        find_from(buf, pat, from) is None,
    decreases buf.len() + 1 - from,
{
    if from + pat.len() <= buf.len() {
        lemma_find_from_none(buf, pat, from + 1);
    }
}

/// Whether the pieces `pieces` can be told apart again once they are
/// joined with the byte `b`: there is at least one, none holds `b`, and
/// the last two are not both empty.
pub open spec fn separable(pieces: Seq<Seq<u8>>, b: u8) -> bool {
    &&& pieces.len() >= 1
    &&& forall|i: int| 0 <= i < pieces.len() ==> !(#[trigger] pieces[i]).contains(b)
    &&& !(pieces.len() >= 2 && pieces[pieces.len() - 1].len() == 0 && pieces[pieces.len()
        - 2].len() == 0)
}

/// Pieces that can be told apart are what splitting their join gives.
pub proof fn lemma_split_join(pieces: Seq<Seq<u8>>, b: u8)
    requires
        separable(pieces, b),
    ensures
        split_pattern(join_bytes(pieces, seq![b]), seq![b]) == pieces,
    decreases pieces.len(),
{
    let pat = seq![b];
    let buf = join_bytes(pieces, pat);
    if pieces.len() == 1 {
        assert forall|j: int| 0 <= j implies !#[trigger] stands_at(buf, pat, j) by {
            if stands_at(buf, pat, j) {
                assert(buf.subrange(j, j + 1)[0] == b);
                assert(buf[j] == b);
                assert(pieces[0].contains(b));
            }
        }
        lemma_find_from_none(buf, pat, 0);
        assert(pieces =~= seq![buf]);
    } else {
        let first = pieces[0];
        let others = pieces.drop_first();
        let rest = join_bytes(others, pat);
        lemma_join_bytes_front(pieces, pat);
        let i = first.len() as int;
        assert(buf =~= first + pat + rest);
        assert(buf.subrange(i, i + 1) =~= pat);
        assert forall|j: int| 0 <= j < i implies !#[trigger] stands_at(buf, pat, j) by {
            if stands_at(buf, pat, j) {
                assert(buf.subrange(j, j + 1)[0] == b);
                assert(first[j] == b);
                assert(first.contains(b));
            }
        }
        lemma_find_from_is(buf, pat, 0, i);
        assert(others.len() >= 1);
        assert forall|k: int| 0 <= k < others.len() implies !(#[trigger] others[k]).contains(
            b,
        ) by {
            assert(others[k] == pieces[k + 1]);
        }
        if others.len() >= 2 {
            assert(others[others.len() - 1] == pieces[pieces.len() - 1]);
            assert(others[others.len() - 2] == pieces[pieces.len() - 2]);
            lemma_join_bytes_front(others, pat);
            assert(rest.len() > 0);
        } else {
            assert(rest == others[0]);
            assert(others[0] == pieces[1]);
        }
        assert(buf.len() > pat.len());
        lemma_split_join(others, b);
        assert(buf.take(i) =~= first);
        assert(buf.skip(i + pat.len()) =~= rest);
        assert(seq![first] + others =~= pieces);
    }
}

/// Pieces that are each read as a value are read, one after another, as
/// the values.
pub proof fn lemma_decode_all_gives<D: Decode>(pieces: Seq<Seq<u8>>, values: Seq<D::V>)
    requires
        pieces.len() == values.len(),
        forall|i: int|
            0 <= i < pieces.len() ==> D::decoded(#[trigger] pieces[i]) == Ok::<D::V, SpecError>(
                values[i],
            ),
    ensures
        decode_all::<D>(pieces) == Ok::<Seq<D::V>, SpecError>(values),
    decreases pieces.len(),
{
    if pieces.len() == 0 {
        assert(values =~= Seq::<D::V>::empty());
    } else {
        lemma_decode_all_gives::<D>(pieces.drop_last(), values.drop_last());
        assert(D::decoded(pieces[pieces.len() - 1]) == Ok::<D::V, SpecError>(values.last()));
        assert(values.drop_last().push(values.last()) =~= values);
    }
}

/// What `encode` writes for a list of one type is read as a list of
/// another type with the values `values`, where the separator is the one
/// byte `b`, what is written for each element is read as its value, and
/// the bytes written for the elements can be told apart again.
pub proof fn lemma_list_is_read_as<E: Encode, D: Decode, S: Separator>(
    list: List<E, S>,
    values: Seq<D::V>,
    b: u8,
)
    requires
        pattern_bytes::<S>() == seq![b],
        values.len() == list.items().len(),
        forall|i: int|
            0 <= i < values.len() ==> D::decoded(
                vstd::utf8::encode_utf8((#[trigger] list.items()[i]).encoded()),
            ) == Ok::<D::V, SpecError>(values[i]),
        separable(list.items().map_values(|e: E| vstd::utf8::encode_utf8(e.encoded())), b),
    ensures
        List::<D, S>::decoded(vstd::utf8::encode_utf8(list.encoded())) == Ok::<
            Seq<D::V>,
            SpecError,
        >(values),
{
    let items = list.items();
    let texts = items.map_values(|e: E| e.encoded());
    let pieces = items.map_values(|e: E| vstd::utf8::encode_utf8(e.encoded()));
    lemma_encode_join(texts, S::PATTERN@);
    assert(texts.map_values(|t: Seq<char>| vstd::utf8::encode_utf8(t)) =~= pieces);
    lemma_split_join(pieces, b);
    assert forall|i: int| 0 <= i < pieces.len() implies D::decoded(#[trigger] pieces[i]) == Ok::<
        D::V,
        SpecError,
    >(values[i]) by {
        assert(pieces[i] == vstd::utf8::encode_utf8(items[i].encoded()));
    }
    lemma_decode_all_gives::<D>(pieces, values);
}

/// Round trip of lists: what `encode` writes for a list is read back as
/// the list, where the separator is one byte, every element makes the
/// round trip, and the bytes written for the elements can be told apart
/// again.
pub proof fn lemma_list_round_trip<T: Encode + Decode, S: Separator>(list: List<T, S>, b: u8)
    requires
        pattern_bytes::<S>() == seq![b],
        forall|i: int| 0 <= i < list.items().len() ==> round_trips(#[trigger] list.items()[i]),
        separable(list.items().map_values(|e: T| vstd::utf8::encode_utf8(e.encoded())), b),
    ensures
        round_trips(list),
{
    lemma_list_is_read_as::<T, T, S>(list, list@, b);
}

/// Round trip of lists of texts: a list of at least one text, with the
/// pipe between them, is read back as it was written, unless its last two
/// texts are both empty.
pub proof fn lemma_text_list_round_trip(list: List<&str, Pipe>)
    requires
        list.items().len() > 0,
        !(list.items().len() >= 2 && list.items()[list.items().len() - 1]@.len() == 0
            && list.items()[list.items().len() - 2]@.len() == 0),
    ensures
        List::<String, Pipe>::decoded(vstd::utf8::encode_utf8(list.encoded())) == Ok::<
            Seq<Seq<char>>,
            SpecError,
        >(list.items().map_values(|s: &str| s@)),
{
    let items = list.items();
    let values = items.map_values(|s: &str| s@);
    let pieces = items.map_values(|e: &str| vstd::utf8::encode_utf8(e.encoded()));
    lemma_pipe_pattern();
    assert forall|i: int| 0 <= i < items.len() implies String::decoded(
        vstd::utf8::encode_utf8((#[trigger] items[i]).encoded()),
    ) == Ok::<Seq<char>, SpecError>(values[i]) by {
        lemma_text_round_trip(items[i]);
    }
    assert forall|i: int| 0 <= i < pieces.len() implies !(#[trigger] pieces[i]).contains(
        124u8,
    ) && (pieces[i].len() == 0 <==> items[i]@.len() == 0) by {
        let text = escape(items[i]@);
        lemma_escape_has_no_pipe(items[i]@);
        lemma_encode_utf8_lacks(text, '|');
        assert(pieces[i] == vstd::utf8::encode_utf8(text));
    }
    lemma_list_is_read_as::<&str, String, Pipe>(list, values, 124u8);
}

/// Round trip of lists of numbers: a list of at least one number, with a
/// separator of one byte that is no digit, is read back as it was
/// written.
pub proof fn lemma_number_list_round_trip<S: Separator>(list: List<u64, S>, b: u8)
    requires
        pattern_bytes::<S>() == seq![b],
        !is_digit(b),
        list.items().len() > 0,
    ensures
        round_trips(list),
{
    let items = list.items();
    let pieces = items.map_values(|e: u64| vstd::utf8::encode_utf8(e.encoded()));
    assert forall|i: int| 0 <= i < items.len() implies round_trips(#[trigger] items[i]) by {
        lemma_u64_round_trip(items[i]);
    }
    assert forall|i: int| 0 <= i < pieces.len() implies !(#[trigger] pieces[i]).contains(b)
        && pieces[i].len() > 0 by {
        let text = decimal(items[i] as int);
        lemma_digits_are_digits(items[i] as nat);
        assert(vstd::utf8::is_ascii_chars(text));
        lemma_ascii_bytes(text);
        assert(pieces[i] == vstd::utf8::encode_utf8(text));
        if pieces[i].contains(b) {
            let j = choose|j: int| 0 <= j < pieces[i].len() && pieces[i][j] == b;
            assert(pieces[i][j] == text[j] as u8);
            assert('0' <= text[j] <= '9');
        }
    }
    lemma_list_round_trip::<u64, S>(list, b);
}

/// The pattern of [`Pipe`] is the one byte `|`.
pub proof fn lemma_pipe_pattern()
    ensures
        pattern_bytes::<Pipe>() == seq![124u8],
{
    reveal_strlit("|");
    assert(vstd::utf8::is_ascii_chars(Pipe::PATTERN@));
    vstd::utf8::is_ascii_chars_encode_utf8(Pipe::PATTERN@);
    assert(pattern_bytes::<Pipe>() =~= seq![124u8]);
}

/// The pattern of [`Comma`] is the one byte `,`.
pub proof fn lemma_comma_pattern()
    ensures
        pattern_bytes::<Comma>() == seq![44u8],
{
    reveal_strlit(",");
    assert(vstd::utf8::is_ascii_chars(Comma::PATTERN@));
    vstd::utf8::is_ascii_chars_encode_utf8(Comma::PATTERN@);
    assert(pattern_bytes::<Comma>() =~= seq![44u8]);
}

} // verus!
