//! Byte-level tools for the line format: comparison, searching and
//! splitting, each with the sequence function that says what it computes.

use vstd::prelude::*;
use vstd::string::StringSliceAdditionalSpecFns;
use crate::error::{Error, ErrorKind, SpecError};

verus! {

/// The byte that separates the tokens of an entry.
pub const SPACE: u8 = 32;

/// The byte that separates the entries of a response.
pub const PIPE: u8 = 124;

/// The byte that separates a key from its value.
pub const EQUALS: u8 = 61;

/// The byte sequences that a vector of slices stands for.
pub open spec fn slices(v: Seq<&[u8]>) -> Seq<Seq<u8>> {
    v.map_values(|s: &[u8]| s@)
}

/// The index of the first `b` in `s`, if `s` holds one.
pub open spec fn position(s: Seq<u8>, b: u8) -> Option<int>
    decreases s.len(),
{
    if s.len() == 0 {
        None
    } else if s[0] == b {
        Some(0)
    } else {
        match position(s.drop_first(), b) {
            Some(i) => Some(i + 1),
            None => None,
        }
    }
}

/// `position` finds an occurrence before which there is none, or reports
/// that there is none at all.
pub proof fn lemma_position(s: Seq<u8>, b: u8)
    ensures
        match position(s, b) {
            Some(i) => 0 <= i < s.len() && s[i] == b && forall|j: int| 0 <= j < i ==> s[j] != b,
            None => forall|j: int| 0 <= j < s.len() ==> s[j] != b,
        },
    decreases s.len(),
{
    if s.len() > 0 && s[0] != b {
        let t = s.drop_first();
        lemma_position(t, b);
        match position(t, b) {
            Some(i) => {
                assert forall|j: int| 0 <= j < i + 1 implies s[j] != b by {
                    if j > 0 {
                        assert(s[j] == t[j - 1]);
                    }
                }
            },
            None => {
                assert forall|j: int| 0 <= j < s.len() implies s[j] != b by {
                    if j > 0 {
                        assert(s[j] == t[j - 1]);
                    }
                }
            },
        }
    }
}

/// An index that holds `b` and has no `b` before it is the `position`.
pub proof fn lemma_position_is(s: Seq<u8>, b: u8, i: int)
    requires
        0 <= i < s.len(),
        s[i] == b,
        forall|j: int| 0 <= j < i ==> s[j] != b,
    ensures
        position(s, b) == Some(i),
{
    lemma_position(s, b);
}

/// A sequence without `b` has no `position`.
pub proof fn lemma_position_none(s: Seq<u8>, b: u8)
    requires
        forall|j: int| 0 <= j < s.len() ==> s[j] != b,
    ensures
        position(s, b) is None,
{
    lemma_position(s, b);
}

/// The pieces of `s` between the occurrences of `sep`, in order. There is
/// always at least one piece, and a piece may be empty.
pub open spec fn split(s: Seq<u8>, sep: u8) -> Seq<Seq<u8>>
    decreases s.len(),
{
    match position(s, sep) {
        Some(i) => {
            proof {
                lemma_position(s, sep);
            }
            seq![s.take(i)] + split(s.skip(i + 1), sep)
        },
        None => seq![s],
    }
}

/// Splitting gives at least one piece.
pub proof fn lemma_split_is_not_empty(s: Seq<u8>, sep: u8)
    ensures
        split(s, sep).len() > 0,
{
}

/// What stands before an ASCII byte of UTF-8 bytes is UTF-8, and so is
/// what stands behind it.
pub proof fn lemma_valid_utf8_around(s: Seq<u8>, i: int)
    requires
        vstd::utf8::valid_utf8(s),
        0 <= i < s.len(),
        s[i] < 128,
    ensures
        vstd::utf8::valid_utf8(s.take(i)),
        vstd::utf8::valid_utf8(s.skip(i + 1)),
{
    vstd::utf8::is_char_boundary_iff_is_leading_byte(s, i);
    vstd::utf8::valid_utf8_split(s, i);
    let behind = s.subrange(i, s.len() as int);
    assert(s.take(i) =~= s.subrange(0, i));
    assert(behind[0] == s[i]);
    assert(vstd::utf8::pop_first_scalar(behind) =~= s.skip(i + 1));
}

/// The pieces of UTF-8 bytes between the occurrences of an ASCII byte are
/// UTF-8.
pub proof fn lemma_split_valid_utf8(s: Seq<u8>, sep: u8)
    requires
        vstd::utf8::valid_utf8(s),
        sep < 128,
    ensures
        forall|k: int|
            0 <= k < split(s, sep).len() ==> vstd::utf8::valid_utf8(#[trigger] split(s, sep)[k]),
    decreases s.len(),
{
    lemma_position(s, sep);
    match position(s, sep) {
        Some(i) => {
            lemma_valid_utf8_around(s, i);
            let rest = s.skip(i + 1);
            lemma_split_valid_utf8(rest, sep);
            assert forall|k: int| 0 <= k < split(s, sep).len() implies vstd::utf8::valid_utf8(
                #[trigger] split(s, sep)[k],
            ) by {
                if k > 0 {
                    assert(split(s, sep)[k] == split(rest, sep)[k - 1]);
                }
            }
        },
        None => {},
    }
}

/// What stands before the first occurrence of an ASCII byte in UTF-8 bytes
/// is UTF-8, and so is what stands behind it.
pub proof fn lemma_cut_valid_utf8(s: Seq<u8>, sep: u8)
    requires
        vstd::utf8::valid_utf8(s),
        sep < 128,
    ensures
        vstd::utf8::valid_utf8(head(s, sep)),
        tail(s, sep) matches Some(t) ==> vstd::utf8::valid_utf8(t),
{
    lemma_position(s, sep);
    match position(s, sep) {
        Some(i) => {
            lemma_valid_utf8_around(s, i);
        },
        None => {},
    }
}

/// What stands before the first `sep` of `s`; all of `s` if it holds none.
pub open spec fn head(s: Seq<u8>, sep: u8) -> Seq<u8> {
    match position(s, sep) {
        Some(i) => s.take(i),
        None => s,
    }
}

/// What stands behind the first `sep` of `s`, if it holds one.
pub open spec fn tail(s: Seq<u8>, sep: u8) -> Option<Seq<u8>> {
    match position(s, sep) {
        Some(i) => Some(s.skip(i + 1)),
        None => None,
    }
}

/// Whether `s` begins with `prefix`.
pub open spec fn has_prefix(s: Seq<u8>, prefix: Seq<u8>) -> bool {
    prefix.len() <= s.len() && s.take(prefix.len() as int) == prefix
}

/// What comes of taking the pieces `items` from the left, one after
/// another: `step` gives the next state from the state and the piece, and
/// the first error ends it all.
pub open spec fn try_fold<S>(
    items: Seq<Seq<u8>>,
    init: S,
    step: spec_fn(S, Seq<u8>) -> Result<S, SpecError>,
) -> Result<S, SpecError>
    decreases items.len(),
{
    if items.len() == 0 {
        Ok(init)
    } else {
        match try_fold(items.drop_last(), init, step) {
            Ok(s) => step(s, items.last()),
            Err(e) => Err(e),
        }
    }
}

/// Taking one piece more is one `step` more.
pub proof fn lemma_try_fold_next<S>(
    items: Seq<Seq<u8>>,
    init: S,
    step: spec_fn(S, Seq<u8>) -> Result<S, SpecError>,
    n: int,
)
    requires
        0 <= n < items.len(),
    ensures
        try_fold(items.take(n + 1), init, step) == match try_fold(items.take(n), init, step) {
            Ok(s) => step(s, items[n]),
            Err(e) => Err(e),
        },
{
    assert(items.take(n + 1).drop_last() =~= items.take(n));
}

/// Where the first `n` pieces end in an error, all of them end in it.
pub proof fn lemma_try_fold_fails<S>(
    items: Seq<Seq<u8>>,
    init: S,
    step: spec_fn(S, Seq<u8>) -> Result<S, SpecError>,
    n: int,
)
    requires
        0 <= n <= items.len(),
    ensures
        try_fold(items.take(n), init, step) is Err ==> try_fold(items, init, step) == try_fold(
            items.take(n),
            init,
            step,
        ),
    decreases items.len() - n,
{
    if n < items.len() {
        lemma_try_fold_next(items, init, step, n);
        lemma_try_fold_fails(items, init, step, n + 1);
    } else {
        assert(items.take(n) =~= items);
    }
}

/// `core::str::from_utf8`: the bytes are taken as a text exactly if they
/// are UTF-8, and the text then has these bytes.
#[verifier::external_body]
pub(crate) fn check_utf8(buf: &[u8]) -> (r: Result<&str, core::str::Utf8Error>)
    ensures
        r is Ok <==> vstd::utf8::valid_utf8(buf@),
        r matches Ok(s) ==> s.spec_bytes() == buf@,
{
    core::str::from_utf8(buf)
}

/// The text that the bytes `buf` are in UTF-8.
pub fn text_of(buf: &[u8]) -> (r: Result<String, Error>)
    ensures
        match r {
            Ok(s) => vstd::utf8::valid_utf8(buf@) && s@ == vstd::utf8::decode_utf8(buf@),
            Err(e) => !vstd::utf8::valid_utf8(buf@) && e@ == SpecError::Utf8,
        },
{
    match check_utf8(buf) {
        Ok(s) => {
            proof {
                vstd::utf8::encode_utf8_decode_utf8(s@);
            }
            Ok(s.to_owned())
        },
        Err(e) => Err(Error(ErrorKind::Utf8(e))),
    }
}

/// Whether `a` and `b` hold the same bytes.
pub fn bytes_eq(a: &[u8], b: &[u8]) -> (r: bool)
    ensures
        r == (a@ == b@),
{
    if a.len() != b.len() {
        return false;
    }
    let mut i: usize = 0;
    while i < a.len()
        invariant
            a.len() == b.len(),
            i <= a.len(),
            forall|j: int| 0 <= j < i ==> a@[j] == b@[j],
        decreases a.len() - i,
    {
        if a[i] != b[i] {
            return false;
        }
        i = i + 1;
    }
    assert(a@ =~= b@);
    true
}

/// Whether `a` and `b` are the same text.
pub fn str_eq(a: &str, b: &str) -> (r: bool)
    ensures
        r == (a@ == b@),
{
    proof {
        vstd::utf8::encode_utf8_decode_utf8(a@);
        vstd::utf8::encode_utf8_decode_utf8(b@);
    }
    bytes_eq(a.as_bytes(), b.as_bytes())
}

/// The bytes that the word `word` is written with. The definition is
/// closed, so that a proof about the many words of the protocol unfolds
/// only those it asks for, with `lemma_word_bytes`.
pub closed spec fn word_bytes(word: &str) -> Seq<u8> {
    word.spec_bytes()
}

/// The bytes of a word are the bytes of its text in UTF-8.
pub proof fn lemma_word_bytes(word: &str)
    ensures
        word_bytes(word) == word.spec_bytes(),
{
}

/// Whether `buf` is the word `word`.
pub fn is_word(buf: &[u8], word: &str) -> (r: bool)
    ensures
        r == (buf@ == word_bytes(word)),
{
    bytes_eq(buf, word.as_bytes())
}

/// Whether `buf` begins with the word `word`.
pub fn begins_with_word(buf: &[u8], word: &str) -> (r: bool)
    ensures
        r == has_prefix(buf@, word_bytes(word)),
{
    starts_with(buf, word.as_bytes())
}

/// Whether `buf` begins with `prefix`.
pub fn starts_with(buf: &[u8], prefix: &[u8]) -> (r: bool)
    ensures
        r == has_prefix(buf@, prefix@),
{
    if prefix.len() > buf.len() {
        return false;
    }
    let r = bytes_eq(&buf[0..prefix.len()], prefix);
    assert(buf@.subrange(0, prefix.len() as int) == buf@.take(prefix.len() as int));
    r
}

/// The index of the first `b` in `buf`.
pub fn find(buf: &[u8], b: u8) -> (r: Option<usize>)
    ensures
        match r {
            Some(i) => i < buf.len() && position(buf@, b) == Some(i as int),
            None => position(buf@, b) is None,
        },
{
    let mut i: usize = 0;
    while i < buf.len()
        invariant
            i <= buf.len(),
            forall|j: int| 0 <= j < i ==> buf@[j] != b,
        decreases buf.len() - i,
    {
        if buf[i] == b {
            proof {
                lemma_position_is(buf@, b, i as int);
            }
            return Some(i);
        }
        i = i + 1;
    }
    proof {
        lemma_position_none(buf@, b);
    }
    None
}

/// Cuts `buf` at its first `sep`: what stands before it, and what stands
/// behind it if there is one.
pub fn cut<'a>(buf: &'a [u8], sep: u8) -> (r: (&'a [u8], Option<&'a [u8]>))
    ensures
        r.0@ == head(buf@, sep),
        match r.1 {
            Some(t) => tail(buf@, sep) == Some(t@),
            None => tail(buf@, sep) is None,
        },
{
    match find(buf, sep) {
        Some(i) => {
            proof {
                lemma_position(buf@, sep);
            }
            let h = &buf[0..i];
            let t = &buf[i + 1..buf.len()];
            assert(h@ == buf@.take(i as int));
            assert(t@ == buf@.skip(i + 1));
            (h, Some(t))
        },
        None => (buf, None),
    }
}

/// Splits `buf` at every `sep`.
pub fn split_on<'a>(buf: &'a [u8], sep: u8) -> (r: Vec<&'a [u8]>)
    ensures
        slices(r@) == split(buf@, sep),
{
    let mut parts: Vec<&'a [u8]> = Vec::new();
    let mut rest: &'a [u8] = buf;
    loop
        invariant
            split(buf@, sep) == slices(parts@) + split(rest@, sep),
        decreases rest.len(),
    {
        match find(rest, sep) {
            Some(i) => {
                proof {
                    lemma_position(rest@, sep);
                }
                let ghost before = slices(parts@);
                let piece = &rest[0..i];
                let next = &rest[i + 1..rest.len()];
                assert(piece@ == rest@.take(i as int));
                assert(next@ == rest@.skip(i + 1));
                parts.push(piece);
                assert(slices(parts@) =~= before + seq![piece@]);
                assert(before + (seq![piece@] + split(next@, sep)) =~= (before + seq![piece@])
                    + split(next@, sep));
                rest = next;
            },
            None => {
                let ghost before = slices(parts@);
                parts.push(rest);
                assert(slices(parts@) =~= before + seq![rest@]);
                return parts;
            },
        }
    }
}

} // verus!
