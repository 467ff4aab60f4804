use ts3::{Decode, Encode, Error, ErrorKind, IntErrorKind};

fn encoded<T: Encode>(value: T) -> String {
    let mut buf = String::new();
    value.encode(&mut buf);
    buf
}

fn kind_of<T: std::fmt::Debug>(r: Result<T, Error>) -> IntErrorKind {
    match r {
        Err(Error(ErrorKind::ParseInt(kind))) => kind,
        other => panic!("{:?}", other),
    }
}

fn std_kind(kind: &std::num::IntErrorKind) -> IntErrorKind {
    match kind {
        std::num::IntErrorKind::Empty => IntErrorKind::Empty,
        std::num::IntErrorKind::InvalidDigit => IntErrorKind::InvalidDigit,
        std::num::IntErrorKind::PosOverflow => IntErrorKind::PosOverflow,
        std::num::IntErrorKind::NegOverflow => IntErrorKind::NegOverflow,
        other => panic!("{:?}", other),
    }
}

const TEXTS: [&str; 40] = [
    "", "+", "-", "0", "-0", "+0", "00", "007", "1", "+1", "-1", "--1", "+-1", "-+1", "1+", "1-",
    " 1", "1 ", "1_000", "0x10", "12a", "a12", "127", "128", "-128", "-129", "255", "256",
    "32767", "32768", "-32768", "-32769", "65535", "65536", "4294967295", "4294967296",
    "18446744073709551615", "18446744073709551616",
    "340282366920938463463374607431768211455", "340282366920938463463374607431768211456",
];

#[test]
fn decode_agrees_with_the_standard_parser_on_u8() {
    for text in TEXTS {
        match text.parse::<u8>() {
            Ok(n) => assert_eq!(u8::decode(text.as_bytes()).unwrap(), n, "{:?}", text),
            Err(e) => assert_eq!(kind_of(u8::decode(text.as_bytes())), std_kind(e.kind()), "{:?}", text),
        }
    }
}

#[test]
fn decode_agrees_with_the_standard_parser_on_i8() {
    for text in TEXTS {
        match text.parse::<i8>() {
            Ok(n) => assert_eq!(i8::decode(text.as_bytes()).unwrap(), n, "{:?}", text),
            Err(e) => assert_eq!(kind_of(i8::decode(text.as_bytes())), std_kind(e.kind()), "{:?}", text),
        }
    }
}

#[test]
fn decode_agrees_with_the_standard_parser_on_u16_and_i16() {
    for text in TEXTS {
        match text.parse::<u16>() {
            Ok(n) => assert_eq!(u16::decode(text.as_bytes()).unwrap(), n, "{:?}", text),
            Err(e) => assert_eq!(kind_of(u16::decode(text.as_bytes())), std_kind(e.kind()), "{:?}", text),
        }
        match text.parse::<i16>() {
            Ok(n) => assert_eq!(i16::decode(text.as_bytes()).unwrap(), n, "{:?}", text),
            Err(e) => assert_eq!(kind_of(i16::decode(text.as_bytes())), std_kind(e.kind()), "{:?}", text),
        }
    }
}

#[test]
fn decode_agrees_with_the_standard_parser_on_u32_and_i32() {
    for text in TEXTS {
        match text.parse::<u32>() {
            Ok(n) => assert_eq!(u32::decode(text.as_bytes()).unwrap(), n, "{:?}", text),
            Err(e) => assert_eq!(kind_of(u32::decode(text.as_bytes())), std_kind(e.kind()), "{:?}", text),
        }
        match text.parse::<i32>() {
            Ok(n) => assert_eq!(i32::decode(text.as_bytes()).unwrap(), n, "{:?}", text),
            Err(e) => assert_eq!(kind_of(i32::decode(text.as_bytes())), std_kind(e.kind()), "{:?}", text),
        }
    }
}

#[test]
fn decode_agrees_with_the_standard_parser_on_u64_and_i64() {
    for text in TEXTS {
        match text.parse::<u64>() {
            Ok(n) => assert_eq!(u64::decode(text.as_bytes()).unwrap(), n, "{:?}", text),
            Err(e) => assert_eq!(kind_of(u64::decode(text.as_bytes())), std_kind(e.kind()), "{:?}", text),
        }
        match text.parse::<i64>() {
            Ok(n) => assert_eq!(i64::decode(text.as_bytes()).unwrap(), n, "{:?}", text),
            Err(e) => assert_eq!(kind_of(i64::decode(text.as_bytes())), std_kind(e.kind()), "{:?}", text),
        }
    }
}

#[test]
fn decode_agrees_with_the_standard_parser_on_u128_and_i128() {
    for text in TEXTS {
        match text.parse::<u128>() {
            Ok(n) => assert_eq!(u128::decode(text.as_bytes()).unwrap(), n, "{:?}", text),
            Err(e) => assert_eq!(kind_of(u128::decode(text.as_bytes())), std_kind(e.kind()), "{:?}", text),
        }
        match text.parse::<i128>() {
            Ok(n) => assert_eq!(i128::decode(text.as_bytes()).unwrap(), n, "{:?}", text),
            Err(e) => assert_eq!(kind_of(i128::decode(text.as_bytes())), std_kind(e.kind()), "{:?}", text),
        }
    }
}

#[test]
fn decode_agrees_with_the_standard_parser_on_usize_and_isize() {
    for text in TEXTS {
        match text.parse::<usize>() {
            Ok(n) => assert_eq!(usize::decode(text.as_bytes()).unwrap(), n, "{:?}", text),
            Err(e) => assert_eq!(kind_of(usize::decode(text.as_bytes())), std_kind(e.kind()), "{:?}", text),
        }
        match text.parse::<isize>() {
            Ok(n) => assert_eq!(isize::decode(text.as_bytes()).unwrap(), n, "{:?}", text),
            Err(e) => assert_eq!(kind_of(isize::decode(text.as_bytes())), std_kind(e.kind()), "{:?}", text),
        }
    }
}

#[test]
fn decode_of_the_smallest_and_largest_i128() {
    assert_eq!(
        i128::decode(b"-170141183460469231731687303715884105728").unwrap(),
        i128::MIN
    );
    assert_eq!(
        i128::decode(b"170141183460469231731687303715884105727").unwrap(),
        i128::MAX
    );
    assert_eq!(
        kind_of(i128::decode(b"-170141183460469231731687303715884105729")),
        IntErrorKind::NegOverflow
    );
    assert_eq!(
        kind_of(i128::decode(b"170141183460469231731687303715884105728")),
        IntErrorKind::PosOverflow
    );
}

#[test]
fn decode_each_kind_of_failure() {
    assert_eq!(kind_of(u16::decode(b"")), IntErrorKind::Empty);
    assert_eq!(kind_of(u16::decode(b"12x")), IntErrorKind::InvalidDigit);
    assert_eq!(kind_of(u16::decode(b"65536")), IntErrorKind::PosOverflow);
    assert_eq!(kind_of(i16::decode(b"-32769")), IntErrorKind::NegOverflow);
}

#[test]
fn decode_sees_a_bad_digit_before_an_overflow_at_the_same_place() {
    assert_eq!(kind_of(u8::decode(b"25x")), IntErrorKind::InvalidDigit);
    assert_eq!(kind_of(u8::decode(b"256x")), IntErrorKind::PosOverflow);
    assert_eq!(kind_of(u8::decode(b"99x9")), IntErrorKind::InvalidDigit);
}

#[test]
fn decode_of_bytes_that_are_not_utf8_is_a_utf8_error() {
    assert!(matches!(
        u64::decode(&[b'1', 0xff]),
        Err(Error(ErrorKind::Utf8(_)))
    ));
    assert!(matches!(
        i8::decode(&[0xc3]),
        Err(Error(ErrorKind::Utf8(_)))
    ));
    assert!(matches!(
        u64::decode("1\u{e9}".as_bytes()),
        Err(Error(ErrorKind::ParseInt(IntErrorKind::InvalidDigit)))
    ));
}

#[test]
fn encode_writes_the_decimal_text() {
    assert_eq!(encoded(0u8), "0");
    assert_eq!(encoded(255u8), "255");
    assert_eq!(encoded(-128i8), "-128");
    assert_eq!(encoded(65535u16), "65535");
    assert_eq!(encoded(-32768i16), "-32768");
    assert_eq!(encoded(1000000u32), "1000000");
    assert_eq!(encoded(i32::MIN), "-2147483648");
    assert_eq!(encoded(u64::MAX), "18446744073709551615");
    assert_eq!(encoded(i64::MIN), "-9223372036854775808");
    assert_eq!(encoded(u128::MAX), "340282366920938463463374607431768211455");
    assert_eq!(encoded(i128::MIN), "-170141183460469231731687303715884105728");
    assert_eq!(encoded(i128::MAX), "170141183460469231731687303715884105727");
    assert_eq!(encoded(usize::MAX), usize::MAX.to_string());
    assert_eq!(encoded(isize::MIN), isize::MIN.to_string());
    assert_eq!(encoded(-1i64), "-1");
    assert_eq!(encoded(10u8), "10");
    assert_eq!(encoded(100u8), "100");
    assert_eq!(encoded(9u8), "9");
}

#[test]
fn encode_appends_to_what_is_there() {
    let mut buf = String::from("id=");
    4711u64.encode(&mut buf);
    assert_eq!(buf, "id=4711");
}

#[test]
fn integer_round_trip() {
    for n in [0u8, 1, 9, 10, 99, 100, 255] {
        assert_eq!(u8::decode(encoded(n).as_bytes()).unwrap(), n);
    }
    for n in [i8::MIN, -100, -10, -9, -1, 0, 1, 9, 10, i8::MAX] {
        assert_eq!(i8::decode(encoded(n).as_bytes()).unwrap(), n);
    }
    for n in [u16::MIN, 256, u16::MAX] {
        assert_eq!(u16::decode(encoded(n).as_bytes()).unwrap(), n);
    }
    for n in [i16::MIN, -1, i16::MAX] {
        assert_eq!(i16::decode(encoded(n).as_bytes()).unwrap(), n);
    }
    for n in [u32::MIN, 65536, u32::MAX] {
        assert_eq!(u32::decode(encoded(n).as_bytes()).unwrap(), n);
    }
    for n in [i32::MIN, -1, i32::MAX] {
        assert_eq!(i32::decode(encoded(n).as_bytes()).unwrap(), n);
    }
    for n in [u64::MIN, 4294967296, u64::MAX] {
        assert_eq!(u64::decode(encoded(n).as_bytes()).unwrap(), n);
    }
    for n in [i64::MIN, -1, i64::MAX] {
        assert_eq!(i64::decode(encoded(n).as_bytes()).unwrap(), n);
    }
    for n in [u128::MIN, 18446744073709551616, u128::MAX] {
        assert_eq!(u128::decode(encoded(n).as_bytes()).unwrap(), n);
    }
    for n in [i128::MIN, -1, i128::MAX] {
        assert_eq!(i128::decode(encoded(n).as_bytes()).unwrap(), n);
    }
    for n in [usize::MIN, usize::MAX] {
        assert_eq!(usize::decode(encoded(n).as_bytes()).unwrap(), n);
    }
    for n in [isize::MIN, isize::MAX] {
        assert_eq!(isize::decode(encoded(n).as_bytes()).unwrap(), n);
    }
}
