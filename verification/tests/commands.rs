use ts3::command;
use ts3::request::{Request, RequestBuilder, ServerNotifyRegister, TextMessageTarget};
use ts3::shared::{ApiKeyScope, ChannelId, ClientDatabaseId, ClientId, ServerGroupId, ServerId};
use ts3::Encode;

fn encoded<T: Encode>(value: T) -> String {
    let mut buf = String::new();
    value.encode(&mut buf);
    buf
}

#[test]
fn request_builder_appends_flags() {
    let request = RequestBuilder::new("clientlist").flag("-uid").flag("-away").build();
    assert_eq!(request.buf, "clientlist -uid -away");
}

#[test]
fn request_builder_escapes_values_and_not_keys() {
    let request = RequestBuilder::new("gm").arg("a b", "c d|e").build();
    assert_eq!(request.buf, "gm a b=c\\sd\\pe");
}

#[test]
fn request_builder_takes_every_encodable_value() {
    let request = RequestBuilder::new("cmd")
        .arg("n", -5i32)
        .arg("b", true)
        .arg("id", ChannelId(3))
        .arg("scope", ApiKeyScope::Read)
        .build();
    assert_eq!(request.buf, "cmd n=-5 b=0 id=3 scope=read");
}

#[test]
fn request_comes_from_its_builder() {
    let request: Request = RequestBuilder::new("quit").into();
    assert_eq!(request.buf, "quit");
    assert_eq!(request.clone().buf, "quit");
    assert_eq!(RequestBuilder::default().buf, "");
}

#[test]
fn server_notify_register_is_written() {
    assert_eq!(encoded(ServerNotifyRegister::Server), "server");
    assert_eq!(encoded(ServerNotifyRegister::Channel(ChannelId(12))), "channel id=12");
    assert_eq!(encoded(ServerNotifyRegister::TextServer), "textserver");
    assert_eq!(encoded(ServerNotifyRegister::TextChannel), "textchannel");
    assert_eq!(encoded(ServerNotifyRegister::TextPrivate), "textprivate");
}

#[test]
fn text_message_target_is_written() {
    assert_eq!(encoded(TextMessageTarget::Client(ClientId(7))), "1 target=7");
    assert_eq!(encoded(TextMessageTarget::Channel), "2");
    assert_eq!(encoded(TextMessageTarget::Server), "3");
}

#[test]
fn apikeyadd_request() {
    assert_eq!(
        command::apikeyadd(ApiKeyScope::Manage, None, None).buf,
        "apikeyadd scope=manage"
    );
    assert_eq!(
        command::apikeyadd(ApiKeyScope::Write, Some(14), None).buf,
        "apikeyadd scope=write lifetime=14"
    );
    assert_eq!(
        command::apikeyadd(ApiKeyScope::Read, Some(0), Some(5)).buf,
        "apikeyadd scope=read lifetime=0 cldbid=5"
    );
    assert_eq!(
        command::apikeyadd(ApiKeyScope::Read, None, Some(5)).buf,
        "apikeyadd scope=read cldbid=5"
    );
}

#[test]
fn apikeydel_request() {
    assert_eq!(command::apikeydel(4).buf, "apikeydel id=4");
}

#[test]
fn apikeylist_request() {
    assert_eq!(command::apikeylist(None, None, None, false).buf, "apikeylist");
    assert_eq!(
        command::apikeylist(Some((0, true)), None, None, false).buf,
        "apikeylist cldbid=*"
    );
    assert_eq!(
        command::apikeylist(Some((3, false)), Some(10), Some(20), true).buf,
        "apikeylist cldbid=3 start=10 duration=20 -count"
    );
    assert_eq!(
        command::apikeylist(None, None, Some(20), true).buf,
        "apikeylist duration=20 -count"
    );
}

#[test]
fn banadd_request() {
    assert_eq!(
        command::banadd(None, None, None, None, None, None, None).buf,
        "banadd"
    );
    assert_eq!(
        command::banadd(
            Some("1.2.3.4"),
            Some("bad name"),
            Some("uid/x="),
            Some("my|id"),
            Some(3600),
            Some("being bad"),
            Some("Nick")
        )
        .buf,
        "banadd ip=1.2.3.4 name=bad\\sname uid=uid\\/x= mytsid=my\\pid time=3600 \
banreason=being\\sbad lastnickname=Nick"
    );
    assert_eq!(
        command::banadd(None, None, Some("u"), None, None, Some("r"), None).buf,
        "banadd uid=u banreason=r"
    );
}

#[test]
fn requests_of_the_other_commands() {
    assert_eq!(command::gm("Hello World").buf, "gm msg=Hello\\sWorld");
    assert_eq!(
        command::login("serveradmin", "pass word").buf,
        "login client_login_name=serveradmin client_login_password=pass\\sword"
    );
    assert_eq!(command::logout().buf, "logout");
    assert_eq!(command::quit().buf, "quit");
    assert_eq!(
        command::sendtextmessage(TextMessageTarget::Client(ClientId(5)), "Hello World!").buf,
        "sendtextmessage targetmode=1 target=5 msg=Hello\\sWorld!"
    );
    assert_eq!(
        command::sendtextmessage(TextMessageTarget::Server, "x").buf,
        "sendtextmessage targetmode=3 msg=x"
    );
    assert_eq!(
        command::servergroupaddclient(ServerGroupId(6), ClientDatabaseId(2)).buf,
        "servergroupaddclient sgid=6 cldbid=2"
    );
    assert_eq!(
        command::servergroupdelclient(ServerGroupId(6), ClientDatabaseId(2)).buf,
        "servergroupdelclient sgid=6 cldbid=2"
    );
    assert_eq!(
        command::servernotifyregister(ServerNotifyRegister::Channel(ChannelId(0))).buf,
        "servernotifyregister event=channel id=0"
    );
    assert_eq!(command::serverstart(ServerId(1)).buf, "serverstart sid=1");
    assert_eq!(command::serverstop(ServerId(1)).buf, "serverstop sid=1");
    assert_eq!(command::use_sid(ServerId(1)).buf, "use sid=1");
    assert_eq!(command::use_port(9987).buf, "use port=9987");
    assert_eq!(command::version().buf, "version");
    assert_eq!(command::whoami().buf, "whoami");
    assert_eq!(command::keepalive().buf, "version");
}
