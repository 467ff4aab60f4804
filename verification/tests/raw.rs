use ts3::raw::{
    frame, get_field, is_event, login_line, settle, use_line, Error, Field, Notification,
    ParseError, RawResp, ReasonID, TextMessage,
};
use ts3::wire::{begins_with_word, bytes_eq, cut, find, is_word, split_on, starts_with, str_eq, text_of};

#[test]
fn raw_response_is_read() {
    let resp = RawResp::from_bytes(b"a=1 b|c");
    assert_eq!(resp.items.len(), 2);
    assert_eq!(resp.items[0].value("a"), Some("1"));
    assert!(resp.items[0].contains("b"));
    assert_eq!(resp.items[0].value("b"), None);
    assert!(resp.items[1].contains("c"));
    assert_eq!(RawResp::from_bytes(b"").items.len(), 1);
    assert_eq!(RawResp::new().items.len(), 0);
}

#[test]
fn raw_response_is_an_error_by_its_first_key() {
    assert!(RawResp::from_bytes(b"error id=0 msg=ok").is_error());
    assert!(RawResp::from_bytes(b"id=0 error").is_error());
    assert!(!RawResp::from_bytes(b"a=1|error id=0").is_error());
    assert!(!RawResp::from_bytes(b"errors").is_error());
    assert!(!RawResp::new().is_error());
}

#[test]
fn raw_event_is_known_by_its_key() {
    assert_eq!(
        is_event(&RawResp::from_bytes(b"notifytextmessage msg=x")),
        Some("notifytextmessage".to_owned())
    );
    assert_eq!(
        is_event(&RawResp::from_bytes(b"a=1 notifytokenused")),
        Some("notifytokenused".to_owned())
    );
    assert_eq!(
        is_event(&RawResp::from_bytes(b"notifytokenused notifycliententerview")),
        Some("notifycliententerview".to_owned())
    );
    assert_eq!(is_event(&RawResp::from_bytes(b"notifysomething")), None);
    assert_eq!(is_event(&RawResp::from_bytes(b"a|notifytextmessage")), None);
    for name in [
        "notifycliententerview",
        "notifyclientleftview",
        "notifyserveredited",
        "notifychanneldescriptionchanged",
        "notifychannelpasswordchanged",
        "notifychannelmoved",
        "notifychanneledited",
        "notifychannelcreated",
        "notifychanneldeleted",
        "notifyclientmoved",
        "notifytextmessage",
        "notifytokenused",
    ] {
        assert_eq!(
            is_event(&RawResp::from_bytes(name.as_bytes())),
            Some(name.to_owned())
        );
    }
}

#[test]
fn raw_field_is_read_or_falls_back() {
    let resp = RawResp::from_bytes(b"n=12 s=a\\sb bad=x empty= key|n=13");
    assert_eq!(get_field::<usize>(&resp, "n"), 12);
    assert_eq!(get_field::<String>(&resp, "s"), "a\\sb");
    assert_eq!(get_field::<usize>(&resp, "bad"), 0);
    assert_eq!(get_field::<usize>(&resp, "empty"), 0);
    assert_eq!(get_field::<String>(&resp, "empty"), "");
    assert_eq!(get_field::<usize>(&resp, "key"), 0);
    assert_eq!(get_field::<String>(&resp, "key"), "");
    assert_eq!(get_field::<usize>(&resp, "missing"), 0);
    assert_eq!(get_field::<String>(&RawResp::new(), "n"), "");
    assert_eq!(usize::from_text("+7"), Some(7));
    assert_eq!(usize::from_text("-7"), None);
    assert_eq!(usize::missing(), 0);
    assert_eq!(String::from_text("x"), Some("x".to_owned()));
}

#[test]
fn raw_text_message_is_read_field_by_field() {
    let message = TextMessage::from_response(RawResp::from_bytes(
        b"notifytextmessage targetmode=1 msg=Hello target=3 invokerid=7 invokername=Nick invokeruid=uid",
    ));
    assert_eq!(message.targetmode, 1);
    assert_eq!(message.msg, "Hello");
    assert_eq!(message.target, 3);
    assert_eq!(message.invokerid, 7);
    assert_eq!(message.invokername, "Nick");
    assert_eq!(message.invokeruid, "uid");
    let message = TextMessage::from_response(RawResp::from_bytes(b"targetmod=2"));
    assert_eq!(message.targetmode, 0);
    assert_eq!(message.clone().msg, "");
}

#[test]
fn raw_reason_is_read_from_its_text() {
    assert_eq!(ReasonID::from_str("0"), Ok(ReasonID::SwitchChannel));
    assert_eq!(ReasonID::from_str("1"), Ok(ReasonID::Moved));
    assert_eq!(ReasonID::from_str("3"), Ok(ReasonID::Timeout));
    assert_eq!(ReasonID::from_str("4"), Ok(ReasonID::ChannelKick));
    assert_eq!(ReasonID::from_str("5"), Ok(ReasonID::ServerKick));
    assert_eq!(ReasonID::from_str("6"), Ok(ReasonID::Ban));
    assert_eq!(ReasonID::from_str("8"), Ok(ReasonID::ServerLeave));
    assert_eq!(ReasonID::from_str("10"), Ok(ReasonID::Edited));
    assert_eq!(ReasonID::from_str("11"), Ok(ReasonID::ServerShutdown));
    for text in ["2", "7", "9", "", "01", "12", " 1"] {
        assert_eq!(ReasonID::from_str(text), Err(ParseError::InvalidEnum));
    }
}

#[test]
fn raw_error_comes_from_an_error_line() {
    let error = Error::from_response(RawResp::from_bytes(b"error id=0 msg=ok"));
    assert!(error.ok());
    assert_eq!(error.message(), "TS3 Error 0: ok");
    let error = Error::from_response(RawResp::from_bytes(b"error id=1024 msg=invalid\\sserverID"));
    assert!(!error.ok());
    match &error {
        Error::TS3 { id, msg } => {
            assert_eq!(*id, 1024);
            assert_eq!(msg, "invalid\\sserverID");
        }
        other => panic!("{:?}", other),
    }
    assert_eq!(error.message(), "TS3 Error 1024: invalid\\sserverID");
}

#[test]
fn raw_error_messages() {
    assert_eq!(Error::SendError.message(), "SendError");
    assert!(!Error::SendError.ok());
    let io = std::io::Error::new(std::io::ErrorKind::Other, "boom");
    let error = Error::from(io);
    assert!(!error.ok());
    assert_eq!(error.message(), "boom");
}

#[test]
fn wire_comparisons() {
    assert!(bytes_eq(b"abc", b"abc"));
    assert!(!bytes_eq(b"abc", b"abd"));
    assert!(!bytes_eq(b"abc", b"ab"));
    assert!(bytes_eq(b"", b""));
    assert!(str_eq("a\u{e9}", "a\u{e9}"));
    assert!(!str_eq("a", "b"));
    assert!(is_word(b"error", "error"));
    assert!(!is_word(b"errors", "error"));
    assert!(starts_with(b"error id=0", b"error"));
    assert!(starts_with(b"error", b""));
    assert!(!starts_with(b"err", b"error"));
    assert!(!starts_with(b"xerror", b"error"));
    assert!(begins_with_word(b"errors", "error"));
    assert!(!begins_with_word(b"eror", "error"));
}

#[test]
fn wire_searching_and_splitting() {
    assert_eq!(find(b"a=b=c", b'='), Some(1));
    assert_eq!(find(b"abc", b'='), None);
    assert_eq!(find(b"", b'='), None);
    assert_eq!(cut(b"a=b=c", b'='), (b"a".as_slice(), Some(b"b=c".as_slice())));
    assert_eq!(cut(b"abc", b'='), (b"abc".as_slice(), None));
    assert_eq!(cut(b"abc=", b'='), (b"abc".as_slice(), Some(b"".as_slice())));
    assert_eq!(cut(b"=abc", b'='), (b"".as_slice(), Some(b"abc".as_slice())));
    assert_eq!(split_on(b"a b  c ", b' '), vec![b"a".as_slice(), b"b", b"", b"c", b""]);
    assert_eq!(split_on(b"", b' '), vec![b"".as_slice()]);
    assert_eq!(split_on(b" ", b' '), vec![b"".as_slice(), b""]);
    assert_eq!(split_on(b"abc", b' '), vec![b"abc".as_slice()]);
}

#[test]
fn wire_text_must_be_utf8() {
    assert_eq!(text_of("J\u{fc}rgen".as_bytes()).unwrap(), "J\u{fc}rgen");
    assert_eq!(text_of(b"").unwrap(), "");
    assert!(text_of(&[0xff]).is_err());
    assert!(text_of(&[b'a', 0xc3]).is_err());
}

#[test]
fn raw_frame_pairs_data_with_its_error_line() {
    let (held, pair) = frame(None, RawResp::from_bytes(b"a=1|b=2"));
    assert!(pair.is_none());
    let (held, pair) = frame(held, RawResp::from_bytes(b"error id=3 msg=x"));
    assert!(held.is_none());
    let (data, error) = pair.unwrap();
    assert_eq!(data.items.len(), 2);
    assert_eq!(data.items[1].value("b"), Some("2"));
    assert_eq!(error.message(), "TS3 Error 3: x");
}

#[test]
fn raw_frame_takes_an_error_line_as_a_response_without_data() {
    let (held, pair) = frame(None, RawResp::from_bytes(b"error id=0 msg=ok"));
    assert!(held.is_none());
    let (data, error) = pair.unwrap();
    assert!(data.items.is_empty());
    assert!(error.ok());
}

#[test]
fn raw_settle_goes_by_the_error_line() {
    let ok = Error::from_response(RawResp::from_bytes(b"error id=0 msg=ok"));
    assert_eq!(
        settle(RawResp::from_bytes(b"a=1"), ok).unwrap().items[0].value("a"),
        Some("1")
    );
    let failed = Error::from_response(RawResp::from_bytes(b"error id=2 msg=no"));
    match settle(RawResp::from_bytes(b"a=1"), failed) {
        Err(Error::TS3 { id, msg }) => {
            assert_eq!(id, 2);
            assert_eq!(msg, "no");
        }
        other => panic!("{:?}", other),
    }
    assert!(matches!(
        settle(RawResp::new(), Error::SendError),
        Err(Error::SendError)
    ));
}

#[test]
fn raw_lines_of_commands() {
    assert_eq!(
        login_line("serveradmin", "pass word"),
        "login client_login_name=serveradmin client_login_password=pass word"
    );
    assert_eq!(use_line(1), "use sid=1");
    assert_eq!(use_line(0), "use sid=0");
}

#[test]
fn raw_notification_goes_by_the_name() {
    match Notification::named(
        "notifytextmessage",
        RawResp::from_bytes(b"notifytextmessage msg=hi target=2"),
    ) {
        Some(Notification::TextMessage(message)) => {
            assert_eq!(message.msg, "hi");
            assert_eq!(message.target, 2);
        }
        other => panic!("{:?}", other),
    }
    match Notification::named("notifyclientmoved", RawResp::from_bytes(b"clid=4")) {
        Some(Notification::ClientMoved(resp)) => assert_eq!(resp.items[0].value("clid"), Some("4")),
        other => panic!("{:?}", other),
    }
    assert!(matches!(
        Notification::named("notifytokenused", RawResp::new()),
        Some(Notification::TokenUsed(_))
    ));
    assert!(matches!(
        Notification::named("notifycliententerview", RawResp::new()),
        Some(Notification::ClientEnterView(_))
    ));
    assert!(Notification::named("notifysomething", RawResp::new()).is_none());
    assert!(Notification::named("", RawResp::new()).is_none());
}
