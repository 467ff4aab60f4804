use ts3::response::{ApiKey, Entry, Response, Version, VirtualServerStatus, Whoami};
use ts3::shared::{ApiKeyScope, ChannelId, ClientDatabaseId, ClientId, ServerId};
use ts3::{Decode, DecodeError, Error, ErrorKind, IntErrorKind};

#[test]
fn entry_parsing() {
    let entry = Entry::decode(b"virt=0 test=1 ok").unwrap();
    assert!(entry.contains("virt"));
    assert!(entry.contains("test"));
    assert!(entry.contains("ok"));
    assert_eq!(entry.value("virt"), Some("0"));
    assert_eq!(entry.value("test"), Some("1"));
    assert_eq!(entry.value("ok"), None);
    assert_eq!(entry.get::<String>("virt").unwrap(), "0");
    assert_eq!(entry.get::<u8>("test").unwrap(), 1);
    assert!(matches!(
        entry.get::<String>("ok"),
        Err(Error(ErrorKind::NoField))
    ));
}

#[test]
fn entry_tells_a_key_without_value_from_a_missing_key() {
    let entry = Entry::decode(b"present").unwrap();
    assert!(entry.contains("present"));
    assert!(!entry.contains("absent"));
    assert_eq!(entry.value("present"), None);
    assert_eq!(entry.value("absent"), None);
    assert!(matches!(
        entry.get::<u64>("absent"),
        Err(Error(ErrorKind::NoField))
    ));
}

#[test]
fn entry_splits_at_the_first_equals_only() {
    let entry = Entry::decode(b"a=b=c d= =e").unwrap();
    assert_eq!(entry.value("a"), Some("b=c"));
    assert_eq!(entry.value("d"), Some(""));
    assert_eq!(entry.value(""), Some("e"));
}

#[test]
fn entry_keeps_the_last_of_equal_keys() {
    let entry = Entry::decode(b"a=1 a=2 b a b=3 b").unwrap();
    assert_eq!(entry.value("a"), None);
    assert!(entry.contains("a"));
    assert_eq!(entry.value("b"), None);
    let entry = Entry::decode(b"a a=1 a=2").unwrap();
    assert_eq!(entry.get::<u8>("a").unwrap(), 2);
}

#[test]
fn entry_of_nothing_has_the_empty_key() {
    let entry = Entry::decode(b"").unwrap();
    assert!(entry.contains(""));
    assert!(!entry.contains("a"));
}

#[test]
fn entry_get_decodes_the_value() {
    let entry = Entry::decode(b"name=Hello\\sWorld id=12 bad=x flag=0").unwrap();
    assert_eq!(entry.get::<String>("name").unwrap(), "Hello World");
    assert_eq!(entry.value("name"), Some("Hello\\sWorld"));
    assert_eq!(entry.get::<u64>("id").unwrap(), 12);
    assert_eq!(entry.get::<ClientId>("id").unwrap(), ClientId(12));
    assert_eq!(entry.get::<bool>("flag").unwrap(), true);
    assert!(matches!(
        entry.get::<u64>("bad"),
        Err(Error(ErrorKind::ParseInt(IntErrorKind::InvalidDigit)))
    ));
}

#[test]
fn entry_decode_fails_on_bytes_that_are_not_utf8() {
    assert!(matches!(
        Entry::decode(&[b'a', 0xff, b'=', b'1']),
        Err(Error(ErrorKind::Utf8(_)))
    ));
    assert!(matches!(
        Entry::decode(&[b'a', b'=', 0xff]),
        Err(Error(ErrorKind::Utf8(_)))
    ));
    assert!(matches!(
        Entry::decode(&[b'a', b' ', b'b', b'=', 0xc3]),
        Err(Error(ErrorKind::Utf8(_)))
    ));
}

#[test]
fn entry_decode_reads_utf8() {
    let entry = Entry::decode("n\u{e4}me=J\u{fc}rgen\\sM".as_bytes()).unwrap();
    assert_eq!(entry.value("n\u{e4}me"), Some("J\u{fc}rgen\\sM"));
    assert_eq!(entry.get::<String>("n\u{e4}me").unwrap(), "J\u{fc}rgen M");
}

#[test]
fn response_list_parsing() {
    let response = Response::decode(b"a=1|b=2").unwrap();
    assert_eq!(response.len(), 2);
    assert!(response[0].contains("a"));
    assert!(!response[0].contains("b"));
    assert_eq!(response[0].value("a"), Some("1"));
    assert!(response[1].contains("b"));
    assert!(!response[1].contains("a"));
    assert_eq!(response[1].value("b"), Some("2"));
}

#[test]
fn response_of_one_entry() {
    let response = Response::decode(b"a=1 b=2").unwrap();
    assert_eq!(response.len(), 1);
    assert_eq!(response[0].get::<u8>("b").unwrap(), 2);
    assert_eq!(Response::decode(b"").unwrap().len(), 1);
    assert_eq!(Response::decode(b"a|").unwrap().len(), 2);
    assert_eq!(Response::decode(b"|").unwrap().len(), 2);
}

#[test]
fn response_decode_fails_with_its_first_bad_entry() {
    assert!(matches!(
        Response::decode(&[b'a', b'|', 0xff, b'|', b'b']),
        Err(Error(ErrorKind::Utf8(_)))
    ));
}

#[test]
fn version_is_read_field_by_field() {
    let version =
        Version::decode(b"version=3.13.7 build=1655727713 platform=Linux\\sx64").unwrap();
    assert_eq!(version.version, "3.13.7");
    assert_eq!(version.build, 1655727713);
    assert_eq!(version.platform, "Linux x64");
}

#[test]
fn record_fields_may_come_in_any_order() {
    let version = Version::decode(b"platform=Linux version=3 build=7").unwrap();
    assert_eq!(version.version, "3");
    assert_eq!(version.build, 7);
    assert_eq!(version.platform, "Linux");
}

#[test]
fn record_ignores_unknown_keys() {
    let version = Version::decode(b"foo=bar version=3 nothing build=x7=").is_err();
    assert!(version);
    let version = Version::decode(b"foo=bar version=3 nothing buil=x7").unwrap();
    assert_eq!(version.version, "3");
    assert_eq!(version.build, 0);
    assert_eq!(version.platform, "");
}

#[test]
fn record_leaves_a_field_without_value_at_its_default() {
    let version = Version::decode(b"build version=3").unwrap();
    assert_eq!(version.build, 0);
    assert_eq!(version.version, "3");
    let version = Version::decode(b"build=5 build").unwrap();
    assert_eq!(version.build, 5);
}

#[test]
fn record_of_nothing_is_the_default() {
    let version = Version::decode(b"").unwrap();
    assert_eq!(version.version, "");
    assert_eq!(version.build, 0);
    assert_eq!(version.platform, "");
    let version = Version::default();
    assert_eq!(version.version, "");
    assert_eq!(version.build, 0);
    assert_eq!(version.platform, "");
}

#[test]
fn record_takes_the_last_of_equal_fields() {
    let version = Version::decode(b"build=1 build=2").unwrap();
    assert_eq!(version.build, 2);
}

#[test]
fn record_fails_on_the_first_malformed_value() {
    assert!(matches!(
        Version::decode(b"version=a\\ build=x"),
        Err(Error(ErrorKind::Decode(DecodeError::UnexpectedEof)))
    ));
    assert!(matches!(
        Version::decode(b"build=x version=a\\"),
        Err(Error(ErrorKind::ParseInt(IntErrorKind::InvalidDigit)))
    ));
    assert!(matches!(
        Version::decode(b"build= version=a"),
        Err(Error(ErrorKind::ParseInt(IntErrorKind::Empty)))
    ));
}

#[test]
fn record_value_may_hold_equals() {
    let version = Version::decode(b"version=a=b").unwrap();
    assert_eq!(version.version, "a=b");
}

#[test]
fn api_key_is_read() {
    let key = ApiKey::decode(
        b"apikey=BAB2B3u2 id=3 sid=1 cldbid=2 scope=write time_left=1209600 extra",
    )
    .unwrap();
    assert_eq!(key.apikey, "BAB2B3u2");
    assert_eq!(key.id, 3);
    assert_eq!(key.sid, 1);
    assert_eq!(key.cldbid, 2);
    assert_eq!(key.scope, ApiKeyScope::Write);
    assert_eq!(key.time_left, 1209600);
    assert!(matches!(
        ApiKey::decode(b"scope=all"),
        Err(Error(ErrorKind::Decode(DecodeError::InvalidApiKeyScope(_))))
    ));
    assert_eq!(ApiKey::default().scope, ApiKeyScope::Manage);
}

#[test]
fn whoami_is_read() {
    let who = Whoami::decode(
        b"virtualserver_status=online virtualserver_unique_identifier=abc\\/def= \
virtualserver_port=9987 virtualserver_id=1 client_id=5 client_channel_id=7 \
client_nickname=serveradmin client_database_id=1 client_login_name=serveradmin \
client_unique_identifier=serveradmin client_origin_server_id=0",
    )
    .unwrap();
    assert_eq!(who.virtualserver_status, VirtualServerStatus::Online);
    assert_eq!(who.virtualserver_unique_identifier, "abc/def=");
    assert_eq!(who.virtualserver_port, 9987);
    assert_eq!(who.virtualserver_id, ServerId(1));
    assert_eq!(who.client_id, ClientId(5));
    assert_eq!(who.client_channel_id, ChannelId(7));
    assert_eq!(who.client_nickname, "serveradmin");
    assert_eq!(who.client_database_id, ClientDatabaseId(1));
    assert_eq!(who.client_login_name, "serveradmin");
    assert_eq!(who.client_unique_identifier, "serveradmin");
    assert_eq!(who.client_origin_server_id, ServerId(0));
    assert_eq!(who.clone().client_id, ClientId(5));
}

#[test]
fn virtual_server_status_is_read() {
    assert_eq!(
        VirtualServerStatus::decode(b"unknown").unwrap(),
        VirtualServerStatus::Unknown
    );
    assert_eq!(
        VirtualServerStatus::decode(b"online").unwrap(),
        VirtualServerStatus::Online
    );
    assert_eq!(
        VirtualServerStatus::decode(b"offline").unwrap(),
        VirtualServerStatus::Offline
    );
    assert!(matches!(
        VirtualServerStatus::decode(b"Online"),
        Err(Error(ErrorKind::Decode(DecodeError::UnexpectedEof)))
    ));
    assert_eq!(VirtualServerStatus::default(), VirtualServerStatus::Unknown);
}
