use ts3::request::RequestBuilder;
use ts3::shared::list::{bytes_split, Comma, List, Pipe};
use ts3::shared::{ApiKeyScope, ChannelId, ServerGroupId};
use ts3::{Decode, DecodeError, Encode, Error, ErrorKind};

fn encoded<T: Encode>(value: T) -> String {
    let mut buf = String::new();
    value.encode(&mut buf);
    buf
}

#[test]
fn it_works() {
    assert_eq!(2 + 2, 4);
}

#[test]
fn test_string_decode() {
    let buf = b"Hello\\sWorld!";
    assert_eq!(String::decode(buf).unwrap(), "Hello World!".to_owned());
}

#[test]
fn test_error_decode() {
    let buf = b"error id=0 msg=ok";
    let (id, msg) = match Error::decode(buf).unwrap().0 {
        ErrorKind::TS3 { id, msg } => (id, msg),
        _ => unreachable!(),
    };
    assert!(id == 0 && msg == "ok".to_owned());
}

#[test]
fn test_request_builder() {
    let cmd = RequestBuilder::new("testcmd");
    assert_eq!(cmd.clone().buf, "testcmd");

    let cmd = cmd.arg("hello", "world");
    assert_eq!(cmd.clone().buf, "testcmd hello=world");

    let cmd = cmd.arg("test", "1234");
    assert_eq!(cmd.clone().buf, "testcmd hello=world test=1234");
}

#[test]
fn test_bytes_split() {
    assert_eq!(bytes_split(b"a|b|c", b"|"), [b"a", b"b", b"c"]);
    assert_eq!(bytes_split(b"abc", b"|"), [b"abc"]);
    assert_eq!(
        bytes_split(b"a|bc", b"|"),
        [b"a".as_slice(), b"bc".as_slice()]
    );
    assert_eq!(
        bytes_split(b"a|bc|", b"|"),
        [b"a".as_slice(), b"bc".as_slice(), b"".as_slice()]
    );
    assert_eq!(bytes_split(b"ABCabcABC", b"abc"), [b"ABC", b"ABC"]);

    assert_eq!(
        bytes_split(b"00abcd0e0f00g000", b"0"),
        [
            b"".as_slice(),
            b"".as_slice(),
            b"abcd".as_slice(),
            b"e".as_slice(),
            b"f".as_slice(),
            b"".as_slice(),
            b"g".as_slice(),
            b"".as_slice(),
            b"".as_slice()
        ]
    );
}

#[test]
fn test_list_decode() {
    let input = b"test|test2";

    assert_eq!(
        &*List::<String, Pipe>::decode(input).unwrap(),
        &["test", "test2"]
    );
}

#[test]
fn string_decode_reads_every_escape() {
    let buf = b"\\\\ \\/ \\s \\p \\a \\b \\f \\n \\r \\t \\v";
    assert_eq!(
        String::decode(buf).unwrap(),
        "\\ /   | \u{7} \u{8} \u{c} \n \r \t \u{b}"
    );
}

#[test]
fn string_decode_of_nothing_is_empty() {
    assert_eq!(String::decode(b"").unwrap(), "");
}

#[test]
fn string_decode_reads_utf8() {
    assert_eq!(String::decode(&[0xc3, 0xa9]).unwrap(), "\u{e9}");
    assert_eq!(
        String::decode("J\u{fc}rgen\\s\u{20ac}\\p\u{1f600}".as_bytes()).unwrap(),
        "J\u{fc}rgen \u{20ac}|\u{1f600}"
    );
}

#[test]
fn string_decode_fails_on_bytes_that_are_not_utf8() {
    assert!(matches!(
        String::decode(&[0xc3]),
        Err(Error(ErrorKind::Utf8(_)))
    ));
    assert!(matches!(
        String::decode(&[b'a', 0xff, b'b']),
        Err(Error(ErrorKind::Utf8(_)))
    ));
    assert!(matches!(
        String::decode(&[0xc3, b'\\', b's', 0xa9]),
        Err(Error(ErrorKind::Utf8(_)))
    ));
}

#[test]
fn string_decode_sees_a_bad_escape_before_bad_utf8() {
    assert!(matches!(
        String::decode(&[0xff, b'\\']),
        Err(Error(ErrorKind::Decode(DecodeError::UnexpectedEof)))
    ));
    assert!(matches!(
        String::decode(&[0xff, b'\\', b'x']),
        Err(Error(ErrorKind::Decode(DecodeError::UnexpectedByte(b'x'))))
    ));
}

#[test]
fn string_decode_fails_on_backslash_at_the_end() {
    match String::decode(b"abc\\") {
        Err(Error(ErrorKind::Decode(DecodeError::UnexpectedEof))) => {}
        other => panic!("{:?}", other),
    }
}

#[test]
fn string_decode_fails_on_unknown_escape() {
    match String::decode(b"a\\xb\\") {
        Err(Error(ErrorKind::Decode(DecodeError::UnexpectedByte(b)))) => assert_eq!(b, b'x'),
        other => panic!("{:?}", other),
    }
}

#[test]
fn str_encode_writes_every_escape() {
    assert_eq!(
        encoded("\\/ |\u{7}\u{8}\u{c}\n\r\t\u{b}x"),
        "\\\\\\/\\s\\p\\a\\b\\f\\n\\r\\t\\vx"
    );
}

#[test]
fn str_encode_appends_to_what_is_there() {
    let mut buf = String::from("key=");
    "a b".encode(&mut buf);
    assert_eq!(buf, "key=a\\sb");
}

#[test]
fn string_round_trip_with_every_escaped_character() {
    let text = "Hello World! \\ / | \u{7} \u{8} \u{c} \n \r \t \u{b} end";
    let wire = encoded(text);
    assert_eq!(String::decode(wire.as_bytes()).unwrap(), text);
}

#[test]
fn string_round_trip_outside_ascii() {
    for text in [
        "\u{e9}",
        "J\u{fc}rgen M\u{fc}ller",
        "\u{20ac} 5 | \u{1f600} \\ / \u{7ff}\u{800}\u{ffff}\u{10000}\u{10ffff}",
        "\u{80}\u{7f}\u{0}",
    ] {
        let wire = encoded(text);
        assert_eq!(String::decode(wire.as_bytes()).unwrap(), text);
    }
    assert_eq!(encoded("\u{e9} \u{e9}"), "\u{e9}\\s\u{e9}");
}

#[test]
fn bool_decode_is_inverted() {
    assert_eq!(bool::decode(&[b'0']).unwrap(), true);
    assert_eq!(bool::decode(&[b'1']).unwrap(), false);
    assert_eq!(bool::decode(b"0anything").unwrap(), true);
}

#[test]
fn bool_decode_of_nothing_is_unexpected_eof() {
    match bool::decode(&[]) {
        Err(Error(ErrorKind::Decode(DecodeError::UnexpectedEof))) => {}
        other => panic!("{:?}", other),
    }
}

#[test]
fn bool_decode_of_another_byte_is_unexpected_byte() {
    match bool::decode(b"2") {
        Err(Error(ErrorKind::Decode(DecodeError::UnexpectedByte(b)))) => assert_eq!(b, b'2'),
        other => panic!("{:?}", other),
    }
}

#[test]
fn bool_round_trip() {
    assert_eq!(encoded(true), "0");
    assert_eq!(encoded(false), "1");
    assert_eq!(bool::decode(encoded(true).as_bytes()).unwrap(), true);
    assert_eq!(bool::decode(encoded(false).as_bytes()).unwrap(), false);
}

#[test]
fn unit_decode_never_fails() {
    assert_eq!(<()>::decode(b"anything at all").unwrap(), ());
    assert_eq!(<()>::decode(b"").unwrap(), ());
}

#[test]
fn list_separator_fidelity() {
    assert_eq!(
        List::<u64, Pipe>::decode(b"1|2|3").unwrap().into_inner(),
        vec![1, 2, 3]
    );
    assert_eq!(
        List::<String, Comma>::decode(b"a,b").unwrap().into_inner(),
        vec!["a".to_owned(), "b".to_owned()]
    );
}

#[test]
fn list_decode_does_not_split_at_the_other_separator() {
    assert_eq!(
        List::<String, Pipe>::decode(b"a,b").unwrap().into_inner(),
        vec!["a,b".to_owned()]
    );
    assert_eq!(
        List::<String, Comma>::decode(b"a|b").unwrap().into_inner(),
        vec!["a|b".to_owned()]
    );
}

#[test]
fn list_decode_fails_on_the_first_bad_element() {
    match List::<u8, Comma>::decode(b"1,x,300") {
        Err(Error(ErrorKind::ParseInt(kind))) => assert_eq!(kind, ts3::IntErrorKind::InvalidDigit),
        other => panic!("{:?}", other),
    }
    match List::<u8, Comma>::decode(b"1,300,x") {
        Err(Error(ErrorKind::ParseInt(kind))) => assert_eq!(kind, ts3::IntErrorKind::PosOverflow),
        other => panic!("{:?}", other),
    }
}

#[test]
fn list_decode_of_nothing_has_one_empty_element() {
    assert_eq!(
        List::<String, Pipe>::decode(b"").unwrap().into_inner(),
        vec!["".to_owned()]
    );
    assert!(List::<u64, Pipe>::decode(b"").is_err());
}

#[test]
fn list_encode_puts_the_pattern_between_elements() {
    assert_eq!(encoded(List::<u64, Pipe>::new(vec![1, 2, 3])), "1|2|3");
    assert_eq!(encoded(List::<u64, Comma>::new(vec![7])), "7");
    assert_eq!(encoded(List::<u64, Comma>::new(vec![])), "");
    assert_eq!(
        encoded(List::<ServerGroupId, Comma>::new(vec![
            ServerGroupId(6),
            ServerGroupId(12)
        ])),
        "6,12"
    );
    assert_eq!(encoded(List::<&str, Pipe>::new(vec!["a|b", "c d"])), "a\\pb|c\\sd");
}

#[test]
fn list_round_trip() {
    let numbers = List::<u64, Comma>::new(vec![0, 10, 18446744073709551615]);
    let wire = encoded(numbers.clone());
    assert_eq!(wire, "0,10,18446744073709551615");
    assert_eq!(List::<u64, Comma>::decode(wire.as_bytes()).unwrap(), numbers);

    let wire = encoded(List::<&str, Pipe>::new(vec!["a|b", "", "c d"]));
    assert_eq!(
        List::<String, Pipe>::decode(wire.as_bytes())
            .unwrap()
            .into_inner(),
        vec!["a|b".to_owned(), "".to_owned(), "c d".to_owned()]
    );
}

#[test]
fn list_round_trip_fails_where_the_last_two_elements_are_empty() {
    let wire = encoded(List::<&str, Pipe>::new(vec!["a", "", ""]));
    assert_eq!(wire, "a||");
    assert_eq!(
        List::<String, Pipe>::decode(wire.as_bytes())
            .unwrap()
            .into_inner(),
        vec!["a".to_owned(), "".to_owned()]
    );
}

#[test]
fn list_round_trip_of_texts_outside_ascii() {
    let wire = encoded(List::<&str, Pipe>::new(vec!["\u{e9}|\u{e9}", "", "\u{20ac} x"]));
    assert_eq!(wire, "\u{e9}\\p\u{e9}||\u{20ac}\\sx");
    assert_eq!(
        List::<String, Pipe>::decode(wire.as_bytes())
            .unwrap()
            .into_inner(),
        vec!["\u{e9}|\u{e9}".to_owned(), "".to_owned(), "\u{20ac} x".to_owned()]
    );
}

#[test]
fn list_comes_from_a_vec_and_goes_back() {
    let list: List<u8, Comma> = vec![1, 2, 3].into();
    assert_eq!(encoded(list.clone()), "1,2,3");
    let vec: Vec<u8> = list.into();
    assert_eq!(vec, vec![1, 2, 3]);
    let list = List::<u8, Pipe>::from(Vec::new());
    assert_eq!(Vec::from(list), Vec::<u8>::new());
}

#[test]
fn list_can_be_changed_as_a_vec() {
    let mut list = List::<u8, Pipe>::new(vec![1, 2]);
    list.push(3);
    list[0] = 9;
    assert_eq!(encoded(list.clone()), "9|2|3");
    list.clear();
    assert_eq!(list.into_inner(), Vec::<u8>::new());
}

#[test]
fn list_is_a_vec_inside() {
    let list = List::<u8, Pipe>::new(vec![1, 2]);
    assert_eq!(list.len(), 2);
    assert_eq!(list[1], 2);
    assert_eq!(list.clone().into_inner(), vec![1, 2]);
    assert_eq!(List::<u8, Pipe>::default().into_inner(), Vec::<u8>::new());
}

#[test]
fn bytes_split_with_a_longer_pattern() {
    assert_eq!(
        bytes_split(b"a--b-c--", b"--"),
        [b"a".as_slice(), b"b-c".as_slice(), b"".as_slice()]
    );
    assert_eq!(bytes_split(b"--", b"--"), [b"".as_slice()]);
    assert_eq!(bytes_split(b"", b"--"), [b"".as_slice()]);
    assert_eq!(bytes_split(b"-", b"--"), [b"-".as_slice()]);
}

#[test]
fn api_key_scope_codec() {
    assert_eq!(encoded(ApiKeyScope::Manage), "manage");
    assert_eq!(encoded(ApiKeyScope::Write), "write");
    assert_eq!(encoded(ApiKeyScope::Read), "read");
    assert_eq!(ApiKeyScope::decode(b"manage").unwrap(), ApiKeyScope::Manage);
    assert_eq!(ApiKeyScope::decode(b"write").unwrap(), ApiKeyScope::Write);
    assert_eq!(ApiKeyScope::decode(b"read").unwrap(), ApiKeyScope::Read);
    assert_eq!(ApiKeyScope::default(), ApiKeyScope::Manage);
}

#[test]
fn api_key_scope_decode_fails_on_another_word() {
    match ApiKeyScope::decode(b"read\\swrite") {
        Err(Error(ErrorKind::Decode(DecodeError::InvalidApiKeyScope(s)))) => {
            assert_eq!(s, "read write")
        }
        other => panic!("{:?}", other),
    }
    assert!(matches!(
        ApiKeyScope::decode(b"read\\"),
        Err(Error(ErrorKind::Decode(DecodeError::UnexpectedEof)))
    ));
}

#[test]
fn id_codec() {
    assert_eq!(encoded(ChannelId(42)), "42");
    assert_eq!(ChannelId::decode(b"42").unwrap(), ChannelId(42));
    assert_eq!(ChannelId::default(), ChannelId(0));
    assert!(ChannelId::decode(b"-1").is_err());
}

#[test]
fn error_decode_reads_id_and_escaped_message() {
    match Error::decode(b"error id=1024 msg=invalid\\sserverID").unwrap().0 {
        ErrorKind::TS3 { id, msg } => {
            assert_eq!(id, 1024);
            assert_eq!(msg, "invalid serverID");
        }
        other => panic!("{:?}", other),
    }
}

#[test]
fn error_decode_ignores_other_keys_and_takes_the_last_value() {
    match Error::decode(b"id=1 error extra=x msg=a id=2").unwrap().0 {
        ErrorKind::TS3 { id, msg } => {
            assert_eq!(id, 2);
            assert_eq!(msg, "a");
        }
        other => panic!("{:?}", other),
    }
}

#[test]
fn error_decode_fails_on_a_token_without_value() {
    assert!(matches!(
        Error::decode(b"error id=0 msg"),
        Err(Error(ErrorKind::Decode(DecodeError::UnexpectedEof)))
    ));
    assert!(matches!(
        Error::decode(b""),
        Err(Error(ErrorKind::Decode(DecodeError::UnexpectedEof)))
    ));
    assert!(matches!(
        Error::decode(b"error  id=0"),
        Err(Error(ErrorKind::Decode(DecodeError::UnexpectedEof)))
    ));
}

#[test]
fn error_decode_fails_on_a_bad_id() {
    assert!(matches!(
        Error::decode(b"error id=65536 msg=ok"),
        Err(Error(ErrorKind::ParseInt(ts3::IntErrorKind::PosOverflow)))
    ));
    assert!(matches!(
        Error::decode(b"error id= msg=ok"),
        Err(Error(ErrorKind::ParseInt(ts3::IntErrorKind::Empty)))
    ));
}

#[test]
fn error_ok_is_id_zero() {
    assert!(Error::decode(b"error id=0 msg=ok").unwrap().ok());
    assert!(!Error::decode(b"error id=1 msg=ok").unwrap().ok());
    assert!(!Error(ErrorKind::SendError).ok());
    assert!(!Error(ErrorKind::NoField).ok());
}
