//! The two ends of the wire codec, and the codec of texts, truth values
//! and the empty response.

use vstd::prelude::*;
use crate::error::{agrees, DecodeError, Error, ErrorKind, SpecDecodeError, SpecError};
use crate::wire::text_of;

verus! {

/// A type that can be read from the bytes of a response.
pub trait Decode: Sized + View {
    /// What the bytes `buf` stand for: a value, by its view, or the error
    /// that reading them gives.
    spec fn decoded(buf: Seq<u8>) -> Result<Self::V, SpecError>;

    /// Reads a value from the whole of `buf`.
    fn decode(buf: &[u8]) -> (r: Result<Self, Error>)
        ensures
            agrees(r, Self::decoded(buf@)),
    ;
}

/// A type that can be written into a request.
pub trait Encode {
    /// The text that stands for the value in a request.
    spec fn encoded(&self) -> Seq<char>;

    /// Appends the text that stands for the value to `buf`.
    fn encode(&self, buf: &mut String)
        ensures
            final(buf)@ == old(buf)@ + self.encoded(),
    ;
}

/// The byte that begins an escape.
pub const BACKSLASH: u8 = 92;

/// `String::push`: the text grows by the one character.
#[verifier::external_body]
pub(crate) fn push_char(s: &mut String, c: char)
    ensures
        final(s)@ == old(s)@.push(c),
{
    s.push(c)
}

/// The letter that stands for `c` behind a backslash, if `c` is written
/// escaped.
pub open spec fn escape_letter(c: char) -> Option<char> {
    if c == '\\' {
        Some('\\')
    } else if c == '/' {
        Some('/')
    } else if c == ' ' {
        Some('s')
    } else if c == '|' {
        Some('p')
    } else if c == '\u{7}' {
        Some('a')
    } else if c == '\u{8}' {
        Some('b')
    } else if c == '\u{c}' {
        Some('f')
    } else if c == '\n' {
        Some('n')
    } else if c == '\r' {
        Some('r')
    } else if c == '\t' {
        Some('t')
    } else if c == '\u{b}' {
        Some('v')
    } else {
        None
    }
}

/// The byte that the byte `letter` stands for behind a backslash, if it
/// is an escape letter.
pub open spec fn escaped_byte(letter: u8) -> Option<u8> {
    if letter == 92 {
        Some(92)
    } else if letter == 47 {
        Some(47)
    } else if letter == 115 {
        Some(32)
    } else if letter == 112 {
        Some(124)
    } else if letter == 97 {
        Some(7)
    } else if letter == 98 {
        Some(8)
    } else if letter == 102 {
        Some(12)
    } else if letter == 110 {
        Some(10)
    } else if letter == 114 {
        Some(13)
    } else if letter == 116 {
        Some(9)
    } else if letter == 118 {
        Some(11)
    } else {
        None
    }
}

/// The escaped form of one character: a backslash and its letter, or the
/// character itself.
pub open spec fn escape_char(c: char) -> Seq<char> {
    match escape_letter(c) {
        Some(l) => seq!['\\', l],
        None => seq![c],
    }
}

/// The escaped form of a text: that of its characters, one after another.
pub open spec fn escape(s: Seq<char>) -> Seq<char>
    decreases s.len(),
{
    if s.len() == 0 {
        Seq::empty()
    } else {
        escape(s.drop_last()) + escape_char(s.last())
    }
}

/// `prefix` before the bytes of `r`, or the error of `r`.
pub open spec fn prepend(prefix: Seq<u8>, r: Result<Seq<u8>, SpecDecodeError>) -> Result<
    Seq<u8>,
    SpecDecodeError,
> {
    match r {
        Ok(rest) => Ok(prefix + rest),
        Err(e) => Err(e),
    }
}

/// The bytes that the escaped bytes `buf` stand for: each escape gives the
/// byte it stands for, and every other byte stays. A backslash at the end
/// is `UnexpectedEof`, one before a byte that is no escape letter is
/// `UnexpectedByte` with that byte; the first such fault from the left
/// decides.
pub open spec fn unescape(buf: Seq<u8>) -> Result<Seq<u8>, SpecDecodeError>
    decreases buf.len(),
{
    if buf.len() == 0 {
        Ok(Seq::empty())
    } else if buf[0] != BACKSLASH {
        prepend(seq![buf[0]], unescape(buf.skip(1)))
    } else if buf.len() == 1 {
        Err(SpecDecodeError::UnexpectedEof)
    } else {
        match escaped_byte(buf[1]) {
            Some(b) => prepend(seq![b], unescape(buf.skip(2))),
            None => Err(SpecDecodeError::UnexpectedByte(buf[1])),
        }
    }
}

/// The text that the escaped bytes `buf` stand for: the escapes are undone
/// on the bytes, and what results is read as UTF-8. A fault in an escape
/// is the `Decode` error of it; bytes that are not UTF-8 once the escapes
/// are undone are `Utf8`.
pub open spec fn decoded_text(buf: Seq<u8>) -> Result<Seq<char>, SpecError> {
    match unescape(buf) {
        Ok(bytes) => {
            if vstd::utf8::valid_utf8(bytes) {
                Ok(vstd::utf8::decode_utf8(bytes))
            } else {
                Err(SpecError::Utf8)
            }
        },
        Err(e) => Err(SpecError::Decode(e)),
    }
}

/// The byte that the escape letter `letter` stands for.
pub fn unescape_letter(letter: u8) -> (r: Option<u8>)
    ensures
        r == escaped_byte(letter),
{
    if letter == 92 {
        Some(92)
    } else if letter == 47 {
        Some(47)
    } else if letter == 115 {
        Some(32)
    } else if letter == 112 {
        Some(124)
    } else if letter == 97 {
        Some(7)
    } else if letter == 98 {
        Some(8)
    } else if letter == 102 {
        Some(12)
    } else if letter == 110 {
        Some(10)
    } else if letter == 114 {
        Some(13)
    } else if letter == 116 {
        Some(9)
    } else if letter == 118 {
        Some(11)
    } else {
        None
    }
}

/// The letter that stands for `c` behind a backslash.
pub fn letter_of(c: char) -> (r: Option<char>)
    ensures
        r == escape_letter(c),
{
    if c == '\\' {
        Some('\\')
    } else if c == '/' {
        Some('/')
    } else if c == ' ' {
        Some('s')
    } else if c == '|' {
        Some('p')
    } else if c == '\u{7}' {
        Some('a')
    } else if c == '\u{8}' {
        Some('b')
    } else if c == '\u{c}' {
        Some('f')
    } else if c == '\n' {
        Some('n')
    } else if c == '\r' {
        Some('r')
    } else if c == '\t' {
        Some('t')
    } else if c == '\u{b}' {
        Some('v')
    } else {
        None
    }
}

impl Decode for String {
    open spec fn decoded(buf: Seq<u8>) -> Result<Seq<char>, SpecError> {
        decoded_text(buf)
    }

    fn decode(buf: &[u8]) -> (r: Result<String, Error>) {
        let mut out: Vec<u8> = Vec::new();
        let mut i: usize = 0;
        assert(buf@.skip(0) == buf@);
        assert(out@ + Seq::<u8>::empty() == out@);
        while i < buf.len()
            invariant
                i <= buf.len(),
                unescape(buf@) == prepend(out@, unescape(buf@.skip(i as int))),
            decreases buf.len() - i,
        {
            let ghost rest = buf@.skip(i as int);
            let ghost before = out@;
            let b = buf[i];
            if b != BACKSLASH {
                out.push(b);
                i = i + 1;
                proof {
                    assert(rest.skip(1) == buf@.skip(i as int));
                    match unescape(rest.skip(1)) {
                        Ok(t) => {
                            assert(before + (seq![b] + t) == before.push(b) + t);
                        },
                        Err(_) => {},
                    }
                }
            } else if i + 1 >= buf.len() {
                assert(rest.len() == 1);
                return Err(Error(ErrorKind::Decode(DecodeError::UnexpectedEof)));
            } else {
                let letter = buf[i + 1];
                assert(rest[1] == letter);
                match unescape_letter(letter) {
                    Some(c) => {
                        out.push(c);
                        i = i + 2;
                        proof {
                            assert(rest.skip(2) == buf@.skip(i as int));
                            match unescape(rest.skip(2)) {
                                Ok(t) => {
                                    assert(before + (seq![c] + t) == before.push(c) + t);
                                },
                                Err(_) => {},
                            }
                        }
                    },
                    None => {
                        return Err(Error(ErrorKind::Decode(DecodeError::UnexpectedByte(letter))));
                    },
                }
            }
        }
        assert(buf@.skip(i as int).len() == 0);
        assert(out@ + Seq::<u8>::empty() == out@);
        text_of(out.as_slice())
    }
}

impl Encode for &str {
    open spec fn encoded(&self) -> Seq<char> {
        escape(self@)
    }

    fn encode(&self, buf: &mut String) {
        for c in it: self.chars()
            invariant
                it.seq() == self@,
                buf@ == old(buf)@ + escape(self@.take(it.index() as int)),
        {
            let ghost before = buf@;
            let ghost n = it.index() as int;
            match letter_of(c) {
                Some(l) => {
                    push_char(buf, '\\');
                    push_char(buf, l);
                },
                None => {
                    push_char(buf, c);
                },
            }
            proof {
                assert(self@.take(n + 1).drop_last() == self@.take(n));
                assert(self@.take(n + 1).last() == c);
                assert(buf@ == before + escape_char(c));
            }
        }
        assert(self@.take(self@.len() as int) == self@);
    }
}

impl Decode for () {
    open spec fn decoded(buf: Seq<u8>) -> Result<(), SpecError> {
        Ok(())
    }

    /// Reads nothing and never fails.
    fn decode(_buf: &[u8]) -> (r: Result<(), Error>) {
        Ok(())
    }
}

impl Decode for bool {
    /// The first byte decides: `0` is true and `1` is false.
    open spec fn decoded(buf: Seq<u8>) -> Result<bool, SpecError> {
        if buf.len() == 0 {
            Err(SpecError::Decode(SpecDecodeError::UnexpectedEof))
        } else if buf[0] == 48 {
            Ok(true)
        } else if buf[0] == 49 {
            Ok(false)
        } else {
            Err(SpecError::Decode(SpecDecodeError::UnexpectedByte(buf[0])))
        }
    }

    fn decode(buf: &[u8]) -> (r: Result<bool, Error>) {
        if buf.len() == 0 {
            return Err(Error(ErrorKind::Decode(DecodeError::UnexpectedEof)));
        }
        let b = buf[0];
        if b == 48 {
            Ok(true)
        } else if b == 49 {
            Ok(false)
        } else {
            Err(Error(ErrorKind::Decode(DecodeError::UnexpectedByte(b))))
        }
    }
}

impl Encode for bool {
    /// The digit that `decode` reads back as this value.
    open spec fn encoded(&self) -> Seq<char> {
        if *self {
            seq!['0']
        } else {
            seq!['1']
        }
    }

    fn encode(&self, buf: &mut String) {
        if *self {
            push_char(buf, '0');
        } else {
            push_char(buf, '1');
        }
        assert(final(buf)@ =~= old(buf)@ + self.encoded());
    }
}

/// Whether `decode` reads back what `encode` writes for `value`.
pub open spec fn round_trips<T: Encode + Decode>(value: T) -> bool {
    T::decoded(vstd::utf8::encode_utf8(value.encoded())) == Ok::<T::V, SpecError>(value@)
}

/// The bytes that a text of ASCII characters is written with: for each
/// character the byte of its number.
pub open spec fn ascii_bytes(s: Seq<char>) -> Seq<u8> {
    Seq::new(s.len(), |i: int| s[i] as u8)
}

/// A text of ASCII characters is in UTF-8 what `ascii_bytes` says.
pub proof fn lemma_ascii_bytes(s: Seq<char>)
    requires
        vstd::utf8::is_ascii_chars(s),
    ensures
        vstd::utf8::encode_utf8(s) == ascii_bytes(s),
{
    vstd::utf8::is_ascii_chars_encode_utf8(s);
    assert(vstd::utf8::encode_utf8(s) =~= ascii_bytes(s));
}

/// The escaped form of two texts, one after the other, is the escaped form
/// of the one and then that of the other.
pub proof fn lemma_escape_concat(a: Seq<char>, b: Seq<char>)
    ensures
        escape(a + b) == escape(a) + escape(b),
    decreases b.len(),
{
    if b.len() == 0 {
        assert(a + b =~= a);
        assert(escape(a) + escape(b) =~= escape(a));
    } else {
        lemma_escape_concat(a, b.drop_last());
        assert((a + b).drop_last() =~= a + b.drop_last());
        assert((a + b).last() == b.last());
        assert(escape(a) + (escape(b.drop_last()) + escape_char(b.last())) =~= (escape(a) + escape(
            b.drop_last(),
        )) + escape_char(b.last()));
    }
}

/// What is written for one character: its own byte if it is an ASCII
/// character, and else bytes that are no ASCII bytes.
pub proof fn lemma_encode_scalar_bytes(c: char)
    ensures
        '\0' <= c,
        ({
            let bytes = vstd::utf8::encode_scalar(c as u32);
            &&& bytes.len() > 0
            &&& c <= '\u{7f}' ==> bytes == seq![c as u8]
            &&& c > '\u{7f}' ==> forall|j: int| 0 <= j < bytes.len() ==> #[trigger] bytes[j] >= 128
        }),
{
    let v = c as u32;
    if c <= '\u{7f}' {
        assert((v & 0x7F) as u8 == v as u8) by (bit_vector)
            requires
                v <= 0x7F,
        ;
    }
    assert((0xC0u8 | ((v >> 6) & 0x1F) as u8) >= 128) by (bit_vector);
    assert((0xE0u8 | ((v >> 12) & 0x0F) as u8) >= 128) by (bit_vector);
    assert((0xF0u8 | ((v >> 18) & 0x7) as u8) >= 128) by (bit_vector);
    assert((0x80u8 | (v & 0x3F) as u8) >= 128) by (bit_vector);
    assert((0x80u8 | ((v >> 6) & 0x3F) as u8) >= 128) by (bit_vector);
    assert((0x80u8 | ((v >> 12) & 0x3F) as u8) >= 128) by (bit_vector);
    if c <= '\u{7f}' {
        assert(vstd::utf8::encode_scalar(v) =~= seq![c as u8]);
    }
}

/// Two texts, one after the other, are in UTF-8 the bytes of the one and
/// then those of the other.
pub proof fn lemma_encode_utf8_concat(a: Seq<char>, b: Seq<char>)
    ensures
        vstd::utf8::encode_utf8(a + b) == vstd::utf8::encode_utf8(a) + vstd::utf8::encode_utf8(b),
    decreases a.len(),
{
    if a.len() == 0 {
        assert(a + b =~= b);
        assert(vstd::utf8::encode_utf8(a) + vstd::utf8::encode_utf8(b) =~= vstd::utf8::encode_utf8(
            b,
        ));
    } else {
        assert((a + b).drop_first() =~= a.drop_first() + b);
        assert((a + b)[0] == a[0]);
        lemma_encode_utf8_concat(a.drop_first(), b);
        assert(vstd::utf8::encode_utf8(a + b) =~= vstd::utf8::encode_utf8(a)
            + vstd::utf8::encode_utf8(b));
    }
}

/// A text without the ASCII character `c` is written without the byte of
/// `c`; and only the empty text is written with no byte.
pub proof fn lemma_encode_utf8_lacks(s: Seq<char>, c: char)
    requires
        c <= '\u{7f}',
        forall|i: int| 0 <= i < s.len() ==> s[i] != c,
    ensures
        forall|j: int|
            0 <= j < vstd::utf8::encode_utf8(s).len() ==> vstd::utf8::encode_utf8(s)[j] != c as u8,
        vstd::utf8::encode_utf8(s).len() == 0 <==> s.len() == 0,
    decreases s.len(),
{
    if s.len() > 0 {
        let first = vstd::utf8::encode_scalar(s[0] as u32);
        let rest = vstd::utf8::encode_utf8(s.drop_first());
        lemma_encode_scalar_bytes(s[0]);
        lemma_encode_utf8_lacks(s.drop_first(), c);
        assert(vstd::utf8::encode_utf8(s) == first + rest);
        assert(s[0] != c);
        assert((c as u8) < 128);
        assert forall|j: int| 0 <= j < (first + rest).len() implies (first + rest)[j]
            != c as u8 by {
            if j < first.len() {
                assert((first + rest)[j] == first[j]);
                if s[0] <= '\u{7f}' {
                    assert(first == seq![s[0] as u8]);
                    assert(first[j] == s[0] as u8);
                    lemma_encode_scalar_bytes(c);
                    assert(s[0] as u8 != c as u8);
                } else {
                    assert(first[j] >= 128);
                }
            } else {
                assert((first + rest)[j] == rest[j - first.len()]);
                assert(rest[j - first.len()] != c as u8);
            }
        }
    }
}

/// Bytes without a backslash stand for themselves, whatever follows
/// them.
pub proof fn lemma_unescape_plain_prefix(a: Seq<u8>, b: Seq<u8>)
    requires
        forall|i: int| 0 <= i < a.len() ==> a[i] != BACKSLASH,
    ensures
        unescape(a + b) == prepend(a, unescape(b)),
    decreases a.len(),
{
    if a.len() == 0 {
        assert(a + b =~= b);
        match unescape(b) {
            Ok(t) => {
                assert(a + t =~= t);
            },
            Err(_) => {},
        }
    } else {
        let rest = a.drop_first();
        lemma_unescape_plain_prefix(rest, b);
        assert((a + b).skip(1) =~= rest + b);
        assert((a + b)[0] == a[0]);
        match unescape(b) {
            Ok(t) => {
                assert(seq![a[0]] + (rest + t) =~= a + t);
            },
            Err(_) => {},
        }
    }
}

/// The escaped form of a text holds no pipe, and it is empty only if the
/// text is.
pub proof fn lemma_escape_has_no_pipe(s: Seq<char>)
    ensures
        forall|i: int| 0 <= i < escape(s).len() ==> escape(s)[i] != '|',
        escape(s).len() == 0 <==> s.len() == 0,
    decreases s.len(),
{
    if s.len() > 0 {
        lemma_escape_has_no_pipe(s.drop_last());
        let c = s.last();
        assert(forall|i: int| 0 <= i < escape_char(c).len() ==> escape_char(c)[i] != '|');
        assert(escape_char(c).len() > 0);
    }
}

/// Undoing the escapes of what is written for a text gives the bytes of
/// the text.
pub proof fn lemma_unescape_escape(s: Seq<char>)
    ensures
        unescape(vstd::utf8::encode_utf8(escape(s))) == Ok::<Seq<u8>, SpecDecodeError>(
            vstd::utf8::encode_utf8(s),
        ),
    decreases s.len(),
{
    if s.len() == 0 {
        assert(escape(s) =~= Seq::<char>::empty());
    } else {
        let c = s[0];
        let rest = s.drop_first();
        assert(s =~= seq![c] + rest);
        lemma_escape_concat(seq![c], rest);
        assert(seq![c].drop_last() =~= Seq::<char>::empty());
        assert(seq![c].last() == c);
        assert(escape(Seq::<char>::empty()) =~= Seq::<char>::empty());
        assert(escape(seq![c]) =~= escape_char(c));
        assert(escape(s) == escape_char(c) + escape(rest));
        lemma_unescape_escape(rest);
        lemma_encode_utf8_concat(escape_char(c), escape(rest));
        lemma_encode_utf8_concat(seq![c], rest);
        lemma_encode_scalar_bytes(c);
        let written = vstd::utf8::encode_utf8(escape_char(c));
        let tail = vstd::utf8::encode_utf8(escape(rest));
        let own = vstd::utf8::encode_utf8(seq![c]);
        assert(seq![c].drop_first() =~= Seq::<char>::empty());
        assert(seq![c][0] == c);
        assert(vstd::utf8::encode_utf8(Seq::<char>::empty()) =~= Seq::<u8>::empty());
        assert(own =~= vstd::utf8::encode_scalar(c as u32));
        match escape_letter(c) {
            Some(l) => {
                assert(escape_char(c) =~= seq!['\\', l]);
                assert(vstd::utf8::is_ascii_chars(escape_char(c)));
                lemma_ascii_bytes(escape_char(c));
                assert(written =~= seq![BACKSLASH, l as u8]);
                assert((written + tail).skip(2) =~= tail);
                assert((written + tail)[0] == BACKSLASH);
                assert((written + tail)[1] == l as u8);
                assert(escaped_byte(l as u8) == Some(c as u8));
                assert(own =~= seq![c as u8]);
                assert(unescape(written + tail) == prepend(seq![c as u8], unescape(tail)));
            },
            None => {
                assert(escape_char(c) =~= seq![c]);
                assert(c != '\\');
                let e = vstd::utf8::encode_scalar(c as u32);
                assert(own == e);
                assert forall|j: int| 0 <= j < e.len() implies e[j] != BACKSLASH by {
                    if c <= '\u{7f}' {
                        assert(e == seq![c as u8]);
                        assert(e[j] == c as u8);
                        assert(c as u8 != 92u8);
                    } else {
                        assert(e[j] >= 128);
                    }
                }
                lemma_unescape_plain_prefix(own, tail);
            },
        }
    }
}

/// A text without a backslash is read as it stands.
pub proof fn lemma_unescape_plain(s: Seq<char>)
    requires
        forall|i: int| 0 <= i < s.len() ==> s[i] != '\\',
    ensures
        decoded_text(vstd::utf8::encode_utf8(s)) == Ok::<Seq<char>, SpecError>(s),
{
    let bytes = vstd::utf8::encode_utf8(s);
    lemma_encode_utf8_lacks(s, '\\');
    lemma_unescape_plain_prefix(bytes, Seq::empty());
    assert(bytes + Seq::<u8>::empty() =~= bytes);
    vstd::utf8::encode_utf8_valid_utf8(s);
    vstd::utf8::encode_utf8_decode_utf8(s);
}

/// Round trip of texts: what `encode` writes for a text, `decode` reads
/// back as that text.
pub proof fn lemma_text_round_trip(s: &str)
    ensures
        String::decoded(vstd::utf8::encode_utf8(s.encoded())) == Ok::<Seq<char>, SpecError>(s@),
{
    lemma_unescape_escape(s@);
    vstd::utf8::encode_utf8_valid_utf8(s@);
    vstd::utf8::encode_utf8_decode_utf8(s@);
}

/// Round trip of truth values: what `encode` writes, `decode` reads back.
pub proof fn lemma_bool_round_trip(b: bool)
    ensures
        round_trips(b),
{
    assert(vstd::utf8::is_ascii_chars(b.encoded()));
    lemma_ascii_bytes(b.encoded());
}

} // verus!
