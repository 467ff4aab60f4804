//! Decimal numbers on the wire: how the integer types are read and written.

use vstd::prelude::*;
use crate::codec::{ascii_bytes, lemma_ascii_bytes, push_char, round_trips, Decode, Encode};
use crate::error::{Error, ErrorKind, IntErrorKind, SpecError};
use crate::wire::check_utf8;

verus! {

/// The byte `+`.
pub const PLUS: u8 = 43;

/// The byte `-`.
pub const MINUS: u8 = 45;

/// Whether `b` is one of the digits `0` to `9`.
pub open spec fn is_digit(b: u8) -> bool {
    48 <= b <= 57
}

/// The number that results from reading the digits `s` behind a number
/// `acc` already read, where nothing above `limit` may be reached. At each
/// byte, from the left, a byte that is no digit is `InvalidDigit` and a
/// digit that leads above `limit` is `PosOverflow`.
pub open spec fn read_digits(s: Seq<u8>, acc: int, limit: int) -> Result<int, IntErrorKind>
    decreases s.len(),
{
    if s.len() == 0 {
        Ok(acc)
    } else if !is_digit(s[0]) {
        Err(IntErrorKind::InvalidDigit)
    } else if acc * 10 + (s[0] - 48) > limit {
        Err(IntErrorKind::PosOverflow)
    } else {
        read_digits(s.drop_first(), acc * 10 + (s[0] - 48), limit)
    }
}

/// The number between `min` and `max` that the text `s` stands for: digits,
/// with `+` allowed before them and, where `min` is negative, `-`.
pub open spec fn parse_decimal(s: Seq<u8>, min: int, max: int) -> Result<int, IntErrorKind> {
    if s.len() == 0 {
        Err(IntErrorKind::Empty)
    } else if s.len() == 1 && (s[0] == PLUS || s[0] == MINUS) {
        Err(IntErrorKind::InvalidDigit)
    } else if s[0] == PLUS {
        read_digits(s.drop_first(), 0, max)
    } else if s[0] == MINUS && min < 0 {
        match read_digits(s.drop_first(), 0, -min) {
            Ok(n) => Ok(-n),
            Err(IntErrorKind::PosOverflow) => Err(IntErrorKind::NegOverflow),
            Err(k) => Err(k),
        }
    } else {
        read_digits(s, 0, max)
    }
}

/// What the bytes `buf` give when read as an integer between `min` and
/// `max`: bytes that are not UTF-8 are `Utf8`, a text that is no such number
/// is `ParseInt` with the reason.
pub open spec fn decoded_integer(buf: Seq<u8>, min: int, max: int) -> Result<int, SpecError> {
    if !vstd::utf8::valid_utf8(buf) {
        Err(SpecError::Utf8)
    } else {
        match parse_decimal(buf, min, max) {
            Ok(n) => Ok(n),
            Err(k) => Err(SpecError::ParseInt(k)),
        }
    }
}

/// The character of the digit `d`.
pub open spec fn digit_char(d: nat) -> char {
    (48 + d) as char
}

/// The digits of `n`, without leading zeros; `0` has the one digit `0`.
pub open spec fn digits(n: nat) -> Seq<char>
    decreases n,
{
    if n < 10 {
        seq![digit_char(n)]
    } else {
        digits(n / 10).push(digit_char(n % 10))
    }
}

/// The decimal text of `n`: its digits, behind a `-` if it is negative.
pub open spec fn decimal(n: int) -> Seq<char> {
    if n < 0 {
        seq!['-'] + digits((-n) as nat)
    } else {
        digits(n as nat)
    }
}

/// Reads the digits of `buf` from `start` on, up to `limit`.
fn scan_digits(buf: &[u8], start: usize, limit: u128) -> (r: Result<u128, IntErrorKind>)
    requires
        start <= buf.len(),
    ensures
        match r {
            Ok(n) => n <= limit && read_digits(buf@.skip(start as int), 0, limit as int) == Ok::<
                int,
                IntErrorKind,
            >(n as int),
            Err(k) => read_digits(buf@.skip(start as int), 0, limit as int) == Err::<
                int,
                IntErrorKind,
            >(k),
        },
{
    let mut acc: u128 = 0;
    let mut i: usize = start;
    while i < buf.len()
        invariant
            start <= i <= buf.len(),
            acc <= limit,
            read_digits(buf@.skip(start as int), 0, limit as int) == read_digits(
                buf@.skip(i as int),
                acc as int,
                limit as int,
            ),
        decreases buf.len() - i,
    {
        let b = buf[i];
        assert(buf@.skip(i as int)[0] == b);
        assert(buf@.skip(i as int).drop_first() == buf@.skip(i + 1));
        if b < 48 || b > 57 {
            return Err(IntErrorKind::InvalidDigit);
        }
        let d: u128 = (b - 48) as u128;
        let next = match acc.checked_mul(10) {
            Some(m) => m.checked_add(d),
            None => None,
        };
        match next {
            Some(n) => {
                if n > limit {
                    return Err(IntErrorKind::PosOverflow);
                }
                acc = n;
            },
            None => {
                return Err(IntErrorKind::PosOverflow);
            },
        }
        i = i + 1;
    }
    Ok(acc)
}

/// Reads `buf` as a decimal number that is at least minus `lowest` and at
/// most `highest`, and returns its sign and its magnitude.
pub fn parse_integer(buf: &[u8], lowest: u128, highest: u128) -> (r: Result<(bool, u128), Error>)
    ensures
        match r {
            Ok((negative, magnitude)) => {
                &&& decoded_integer(buf@, -(lowest as int), highest as int) == Ok::<int, SpecError>(
                    if negative {
                        -(magnitude as int)
                    } else {
                        magnitude as int
                    },
                )
                &&& if negative {
                    magnitude <= lowest
                } else {
                    magnitude <= highest
                }
            },
            Err(e) => decoded_integer(buf@, -(lowest as int), highest as int) == Err::<
                int,
                SpecError,
            >(e@),
        },
{
    match check_utf8(buf) {
        Ok(_) => {},
        Err(e) => {
            return Err(Error(ErrorKind::Utf8(e)));
        },
    }
    if buf.len() == 0 {
        return Err(Error(ErrorKind::ParseInt(IntErrorKind::Empty)));
    }
    let first = buf[0];
    if buf.len() == 1 && (first == PLUS || first == MINUS) {
        return Err(Error(ErrorKind::ParseInt(IntErrorKind::InvalidDigit)));
    }
    assert(buf@.drop_first() == buf@.skip(1));
    assert(buf@ == buf@.skip(0));
    if first == PLUS {
        match scan_digits(buf, 1, highest) {
            Ok(n) => Ok((false, n)),
            Err(k) => Err(Error(ErrorKind::ParseInt(k))),
        }
    } else if first == MINUS && lowest > 0 {
        match scan_digits(buf, 1, lowest) {
            Ok(n) => Ok((true, n)),
            Err(IntErrorKind::PosOverflow) => Err(
                Error(ErrorKind::ParseInt(IntErrorKind::NegOverflow)),
            ),
            Err(k) => Err(Error(ErrorKind::ParseInt(k))),
        }
    } else {
        match scan_digits(buf, 0, highest) {
            Ok(n) => Ok((false, n)),
            Err(k) => Err(Error(ErrorKind::ParseInt(k))),
        }
    }
}

/// Appends the digits of `n` to `buf`.
pub(crate) fn push_digits(buf: &mut String, n: u128)
    ensures
        final(buf)@ == old(buf)@ + digits(n as nat),
    decreases n,
{
    if n >= 10 {
        push_digits(buf, n / 10);
    }
    let d: u8 = (n % 10) as u8;
    push_char(buf, (48 + d) as char);
    assert(final(buf)@ =~= old(buf)@ + digits(n as nat));
}

/// Appends the decimal text of a number to `buf`, given its sign and its
/// magnitude.
pub(crate) fn push_decimal(buf: &mut String, negative: bool, magnitude: u128)
    requires
        negative ==> magnitude > 0,
    ensures
        final(buf)@ == old(buf)@ + decimal(
            if negative {
                -(magnitude as int)
            } else {
                magnitude as int
            },
        ),
{
    if negative {
        push_char(buf, '-');
    }
    push_digits(buf, magnitude);
    assert(final(buf)@ =~= old(buf)@ + decimal(
        if negative {
            -(magnitude as int)
        } else {
            magnitude as int
        },
    ));
}

impl Decode for u8 {
    open spec fn decoded(buf: Seq<u8>) -> Result<u8, SpecError> {
        match decoded_integer(buf, u8::MIN as int, u8::MAX as int) {
            Ok(n) => Ok(n as u8),
            Err(e) => Err(e),
        }
    }

    fn decode(buf: &[u8]) -> (r: Result<u8, Error>) {
        match parse_integer(buf, 0, u8::MAX as u128) {
            Ok((_, magnitude)) => Ok(magnitude as u8),
            Err(e) => Err(e),
        }
    }
}

impl Encode for u8 {
    open spec fn encoded(&self) -> Seq<char> {
        decimal(*self as int)
    }

    fn encode(&self, buf: &mut String) {
        push_decimal(buf, false, *self as u128);
    }
}

impl Decode for i8 {
    open spec fn decoded(buf: Seq<u8>) -> Result<i8, SpecError> {
        match decoded_integer(buf, i8::MIN as int, i8::MAX as int) {
            Ok(n) => Ok(n as i8),
            Err(e) => Err(e),
        }
    }

    fn decode(buf: &[u8]) -> (r: Result<i8, Error>) {
        match parse_integer(buf, (i8::MAX as u128) + 1, i8::MAX as u128) {
            Ok((negative, magnitude)) => {
                if negative {
                    Ok((-(magnitude as i128)) as i8)
                } else {
                    Ok(magnitude as i8)
                }
            },
            Err(e) => Err(e),
        }
    }
}

impl Encode for i8 {
    open spec fn encoded(&self) -> Seq<char> {
        decimal(*self as int)
    }

    fn encode(&self, buf: &mut String) {
        let v: i128 = *self as i128;
        if v < 0 {
            push_decimal(buf, true, (-v) as u128);
        } else {
            push_decimal(buf, false, v as u128);
        }
    }
}

impl Decode for u16 {
    open spec fn decoded(buf: Seq<u8>) -> Result<u16, SpecError> {
        match decoded_integer(buf, u16::MIN as int, u16::MAX as int) {
            Ok(n) => Ok(n as u16),
            Err(e) => Err(e),
        }
    }

    fn decode(buf: &[u8]) -> (r: Result<u16, Error>) {
        match parse_integer(buf, 0, u16::MAX as u128) {
            Ok((_, magnitude)) => Ok(magnitude as u16),
            Err(e) => Err(e),
        }
    }
}

impl Encode for u16 {
    open spec fn encoded(&self) -> Seq<char> {
        decimal(*self as int)
    }

    fn encode(&self, buf: &mut String) {
        push_decimal(buf, false, *self as u128);
    }
}

impl Decode for u32 {
    open spec fn decoded(buf: Seq<u8>) -> Result<u32, SpecError> {
        match decoded_integer(buf, u32::MIN as int, u32::MAX as int) {
            Ok(n) => Ok(n as u32),
            Err(e) => Err(e),
        }
    }

    fn decode(buf: &[u8]) -> (r: Result<u32, Error>) {
        match parse_integer(buf, 0, u32::MAX as u128) {
            Ok((_, magnitude)) => Ok(magnitude as u32),
            Err(e) => Err(e),
        }
    }
}

impl Encode for u32 {
    open spec fn encoded(&self) -> Seq<char> {
        decimal(*self as int)
    }

    fn encode(&self, buf: &mut String) {
        push_decimal(buf, false, *self as u128);
    }
}

impl Decode for u64 {
    open spec fn decoded(buf: Seq<u8>) -> Result<u64, SpecError> {
        match decoded_integer(buf, u64::MIN as int, u64::MAX as int) {
            Ok(n) => Ok(n as u64),
            Err(e) => Err(e),
        }
    }

    fn decode(buf: &[u8]) -> (r: Result<u64, Error>) {
        match parse_integer(buf, 0, u64::MAX as u128) {
            Ok((_, magnitude)) => Ok(magnitude as u64),
            Err(e) => Err(e),
        }
    }
}

impl Encode for u64 {
    open spec fn encoded(&self) -> Seq<char> {
        decimal(*self as int)
    }

    fn encode(&self, buf: &mut String) {
        push_decimal(buf, false, *self as u128);
    }
}

impl Decode for u128 {
    open spec fn decoded(buf: Seq<u8>) -> Result<u128, SpecError> {
        match decoded_integer(buf, u128::MIN as int, u128::MAX as int) {
            Ok(n) => Ok(n as u128),
            Err(e) => Err(e),
        }
    }

    fn decode(buf: &[u8]) -> (r: Result<u128, Error>) {
        match parse_integer(buf, 0, u128::MAX as u128) {
            Ok((_, magnitude)) => Ok(magnitude as u128),
            Err(e) => Err(e),
        }
    }
}

impl Encode for u128 {
    open spec fn encoded(&self) -> Seq<char> {
        decimal(*self as int)
    }

    fn encode(&self, buf: &mut String) {
        push_decimal(buf, false, *self as u128);
    }
}

impl Decode for usize {
    open spec fn decoded(buf: Seq<u8>) -> Result<usize, SpecError> {
        match decoded_integer(buf, usize::MIN as int, usize::MAX as int) {
            Ok(n) => Ok(n as usize),
            Err(e) => Err(e),
        }
    }

    fn decode(buf: &[u8]) -> (r: Result<usize, Error>) {
        match parse_integer(buf, 0, usize::MAX as u128) {
            Ok((_, magnitude)) => Ok(magnitude as usize),
            Err(e) => Err(e),
        }
    }
}

impl Encode for usize {
    open spec fn encoded(&self) -> Seq<char> {
        decimal(*self as int)
    }

    fn encode(&self, buf: &mut String) {
        push_decimal(buf, false, *self as u128);
    }
}

impl Decode for i16 {
    open spec fn decoded(buf: Seq<u8>) -> Result<i16, SpecError> {
        match decoded_integer(buf, i16::MIN as int, i16::MAX as int) {
            Ok(n) => Ok(n as i16),
            Err(e) => Err(e),
        }
    }

    fn decode(buf: &[u8]) -> (r: Result<i16, Error>) {
        match parse_integer(buf, (i16::MAX as u128) + 1, i16::MAX as u128) {
            Ok((negative, magnitude)) => {
                if negative {
                    Ok((-(magnitude as i128)) as i16)
                } else {
                    Ok(magnitude as i16)
                }
            },
            Err(e) => Err(e),
        }
    }
}

impl Encode for i16 {
    open spec fn encoded(&self) -> Seq<char> {
        decimal(*self as int)
    }

    fn encode(&self, buf: &mut String) {
        let v: i128 = *self as i128;
        if v < 0 {
            push_decimal(buf, true, (-v) as u128);
        } else {
            push_decimal(buf, false, v as u128);
        }
    }
}

impl Decode for i32 {
    open spec fn decoded(buf: Seq<u8>) -> Result<i32, SpecError> {
        match decoded_integer(buf, i32::MIN as int, i32::MAX as int) {
            Ok(n) => Ok(n as i32),
            Err(e) => Err(e),
        }
    }

    fn decode(buf: &[u8]) -> (r: Result<i32, Error>) {
        match parse_integer(buf, (i32::MAX as u128) + 1, i32::MAX as u128) {
            Ok((negative, magnitude)) => {
                if negative {
                    Ok((-(magnitude as i128)) as i32)
                } else {
                    Ok(magnitude as i32)
                }
            },
            Err(e) => Err(e),
        }
    }
}

impl Encode for i32 {
    open spec fn encoded(&self) -> Seq<char> {
        decimal(*self as int)
    }

    fn encode(&self, buf: &mut String) {
        let v: i128 = *self as i128;
        if v < 0 {
            push_decimal(buf, true, (-v) as u128);
        } else {
            push_decimal(buf, false, v as u128);
        }
    }
}

impl Decode for i64 {
    open spec fn decoded(buf: Seq<u8>) -> Result<i64, SpecError> {
        match decoded_integer(buf, i64::MIN as int, i64::MAX as int) {
            Ok(n) => Ok(n as i64),
            Err(e) => Err(e),
        }
    }

    fn decode(buf: &[u8]) -> (r: Result<i64, Error>) {
        match parse_integer(buf, (i64::MAX as u128) + 1, i64::MAX as u128) {
            Ok((negative, magnitude)) => {
                if negative {
                    Ok((-(magnitude as i128)) as i64)
                } else {
                    Ok(magnitude as i64)
                }
            },
            Err(e) => Err(e),
        }
    }
}

impl Encode for i64 {
    open spec fn encoded(&self) -> Seq<char> {
        decimal(*self as int)
    }

    fn encode(&self, buf: &mut String) {
        let v: i128 = *self as i128;
        if v < 0 {
            push_decimal(buf, true, (-v) as u128);
        } else {
            push_decimal(buf, false, v as u128);
        }
    }
}

impl Decode for isize {
    open spec fn decoded(buf: Seq<u8>) -> Result<isize, SpecError> {
        match decoded_integer(buf, isize::MIN as int, isize::MAX as int) {
            Ok(n) => Ok(n as isize),
            Err(e) => Err(e),
        }
    }

    fn decode(buf: &[u8]) -> (r: Result<isize, Error>) {
        match parse_integer(buf, (isize::MAX as u128) + 1, isize::MAX as u128) {
            Ok((negative, magnitude)) => {
                if negative {
                    Ok((-(magnitude as i128)) as isize)
                } else {
                    Ok(magnitude as isize)
                }
            },
            Err(e) => Err(e),
        }
    }
}

impl Encode for isize {
    open spec fn encoded(&self) -> Seq<char> {
        decimal(*self as int)
    }

    fn encode(&self, buf: &mut String) {
        let v: i128 = *self as i128;
        if v < 0 {
            push_decimal(buf, true, (-v) as u128);
        } else {
            push_decimal(buf, false, v as u128);
        }
    }
}

/// The magnitude of the smallest `i128`.
pub const I128_MIN_MAGNITUDE: u128 = 170141183460469231731687303715884105728;

impl Decode for i128 {
    open spec fn decoded(buf: Seq<u8>) -> Result<i128, SpecError> {
        match decoded_integer(buf, i128::MIN as int, i128::MAX as int) {
            Ok(n) => Ok(n as i128),
            Err(e) => Err(e),
        }
    }

    fn decode(buf: &[u8]) -> (r: Result<i128, Error>) {
        match parse_integer(buf, I128_MIN_MAGNITUDE, i128::MAX as u128) {
            Ok((negative, magnitude)) => {
                if !negative {
                    Ok(magnitude as i128)
                } else if magnitude == I128_MIN_MAGNITUDE {
                    Ok(i128::MIN)
                } else {
                    Ok(-(magnitude as i128))
                }
            },
            Err(e) => Err(e),
        }
    }
}

impl Encode for i128 {
    open spec fn encoded(&self) -> Seq<char> {
        decimal(*self as int)
    }

    fn encode(&self, buf: &mut String) {
        let v: i128 = *self;
        if v == i128::MIN {
            push_decimal(buf, true, I128_MIN_MAGNITUDE);
        } else if v < 0 {
            push_decimal(buf, true, (-v) as u128);
        } else {
            push_decimal(buf, false, v as u128);
        }
    }
}

/// Reading digits that stand one after the other is reading the first
/// ones and then, from what they gave, the others.
pub proof fn lemma_read_digits_concat(a: Seq<u8>, b: Seq<u8>, acc: int, limit: int)
    ensures
        read_digits(a + b, acc, limit) == match read_digits(a, acc, limit) {
            Ok(n) => read_digits(b, n, limit),
            Err(k) => Err(k),
        },
    decreases a.len(),
{
    if a.len() == 0 {
        assert(a + b =~= b);
    } else {
        assert((a + b).drop_first() =~= a.drop_first() + b);
        assert((a + b)[0] == a[0]);
        if is_digit(a[0]) && acc * 10 + (a[0] - 48) <= limit {
            lemma_read_digits_concat(a.drop_first(), b, acc * 10 + (a[0] - 48), limit);
        }
    }
}

/// The digits of a number are digits, and there is at least one.
pub proof fn lemma_digits_are_digits(n: nat)
    ensures
        digits(n).len() > 0,
        forall|i: int| 0 <= i < digits(n).len() ==> '0' <= #[trigger] digits(n)[i] <= '9',
    decreases n,
{
    if n >= 10 {
        lemma_digits_are_digits(n / 10);
    }
}

/// The digits of a number that is at most `limit` are read as the number.
pub proof fn lemma_read_digits_of_digits(n: nat, limit: int)
    requires
        n <= limit,
    ensures
        read_digits(ascii_bytes(digits(n)), 0, limit) == Ok::<int, IntErrorKind>(n as int),
    decreases n,
{
    if n < 10 {
        let s = ascii_bytes(digits(n));
        assert(s.len() == 1);
        assert(s[0] == 48 + n);
        assert(s.drop_first() =~= Seq::<u8>::empty());
        assert(read_digits(s.drop_first(), n as int, limit) == Ok::<int, IntErrorKind>(n as int));
    } else {
        let q = n / 10;
        let d = n % 10;
        lemma_read_digits_of_digits(q, limit);
        let last = seq![(48 + d) as u8];
        assert(ascii_bytes(digits(n)) =~= ascii_bytes(digits(q)) + last);
        lemma_read_digits_concat(ascii_bytes(digits(q)), last, 0, limit);
        assert(last.drop_first() =~= Seq::<u8>::empty());
        assert(read_digits(last.drop_first(), n as int, limit) == Ok::<int, IntErrorKind>(
            n as int,
        ));
        assert(read_digits(last, q as int, limit) == Ok::<int, IntErrorKind>(n as int));
    }
}

/// Round trip of numbers: the decimal text of a number between `min` and
/// `max` is read as that number.
pub proof fn lemma_decimal_round_trip(n: int, min: int, max: int)
    requires
        min <= n <= max,
    ensures
        decoded_integer(vstd::utf8::encode_utf8(decimal(n)), min, max) == Ok::<int, SpecError>(n),
{
    let text = decimal(n);
    let m: nat = if n < 0 {
        (-n) as nat
    } else {
        n as nat
    };
    lemma_digits_are_digits(m);
    assert(vstd::utf8::is_ascii_chars(text));
    lemma_ascii_bytes(text);
    vstd::utf8::encode_utf8_valid_utf8(text);
    let bytes = ascii_bytes(text);
    if n < 0 {
        assert(bytes =~= seq![MINUS] + ascii_bytes(digits(m)));
        assert(bytes.drop_first() =~= ascii_bytes(digits(m)));
        lemma_read_digits_of_digits(m, -min);
    } else {
        assert(bytes =~= ascii_bytes(digits(m)));
        assert(bytes[0] == digits(m)[0] as u8);
        lemma_read_digits_of_digits(m, max);
    }
}

/// Round trip of `u8`: what `encode` writes, `decode` reads back.
pub proof fn lemma_u8_round_trip(value: u8)
    ensures
        round_trips(value),
{
    lemma_decimal_round_trip(value as int, u8::MIN as int, u8::MAX as int);
}

/// Round trip of `u16`: what `encode` writes, `decode` reads back.
pub proof fn lemma_u16_round_trip(value: u16)
    ensures
        round_trips(value),
{
    lemma_decimal_round_trip(value as int, u16::MIN as int, u16::MAX as int);
}

/// Round trip of `u32`: what `encode` writes, `decode` reads back.
pub proof fn lemma_u32_round_trip(value: u32)
    ensures
        round_trips(value),
{
    lemma_decimal_round_trip(value as int, u32::MIN as int, u32::MAX as int);
}

/// Round trip of `u64`: what `encode` writes, `decode` reads back.
pub proof fn lemma_u64_round_trip(value: u64)
    ensures
        round_trips(value),
{
    lemma_decimal_round_trip(value as int, u64::MIN as int, u64::MAX as int);
}

/// Round trip of `u128`: what `encode` writes, `decode` reads back.
pub proof fn lemma_u128_round_trip(value: u128)
    ensures
        round_trips(value),
{
    lemma_decimal_round_trip(value as int, u128::MIN as int, u128::MAX as int);
}

/// Round trip of `usize`: what `encode` writes, `decode` reads back.
pub proof fn lemma_usize_round_trip(value: usize)
    ensures
        round_trips(value),
{
    lemma_decimal_round_trip(value as int, usize::MIN as int, usize::MAX as int);
}

/// Round trip of `i8`: what `encode` writes, `decode` reads back.
pub proof fn lemma_i8_round_trip(value: i8)
    ensures
        round_trips(value),
{
    lemma_decimal_round_trip(value as int, i8::MIN as int, i8::MAX as int);
}

/// Round trip of `i16`: what `encode` writes, `decode` reads back.
pub proof fn lemma_i16_round_trip(value: i16)
    ensures
        round_trips(value),
{
    lemma_decimal_round_trip(value as int, i16::MIN as int, i16::MAX as int);
}

/// Round trip of `i32`: what `encode` writes, `decode` reads back.
pub proof fn lemma_i32_round_trip(value: i32)
    ensures
        round_trips(value),
{
    lemma_decimal_round_trip(value as int, i32::MIN as int, i32::MAX as int);
}

/// Round trip of `i64`: what `encode` writes, `decode` reads back.
pub proof fn lemma_i64_round_trip(value: i64)
    ensures
        round_trips(value),
{
    lemma_decimal_round_trip(value as int, i64::MIN as int, i64::MAX as int);
}

/// Round trip of `i128`: what `encode` writes, `decode` reads back.
pub proof fn lemma_i128_round_trip(value: i128)
    ensures
        round_trips(value),
{
    lemma_decimal_round_trip(value as int, i128::MIN as int, i128::MAX as int);
}

/// Round trip of `isize`: what `encode` writes, `decode` reads back.
pub proof fn lemma_isize_round_trip(value: isize)
    ensures
        round_trips(value),
{
    lemma_decimal_round_trip(value as int, isize::MIN as int, isize::MAX as int);
}

} // verus!
