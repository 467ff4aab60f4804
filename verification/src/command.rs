//! The commands of the query interface: for each one, the request that
//! asks for it.

use vstd::prelude::*;
use crate::codec::{escape, Encode};
use crate::number::decimal;
use crate::request::{Request, RequestBuilder, ServerNotifyRegister, TextMessageTarget};
use crate::shared::{ApiKeyScope, ClientDatabaseId, ServerGroupId, ServerId};

verus! {

/// An argument of a request: a space, the key, `=` and the value as it is
/// written.
pub open spec fn argument(key: Seq<char>, value: Seq<char>) -> Seq<char> {
    seq![' '] + key + seq!['='] + value
}

/// A flag of a request: a space and the flag.
pub open spec fn flag(name: Seq<char>) -> Seq<char> {
    seq![' '] + name
}

/// The argument for a number that may be left out.
pub open spec fn number_argument(key: Seq<char>, value: Option<u64>) -> Seq<char> {
    match value {
        Some(n) => argument(key, decimal(n as int)),
        None => Seq::empty(),
    }
}

/// The argument for a text that may be left out. The text is written
/// escaped.
pub open spec fn text_argument(key: Seq<char>, value: Option<&str>) -> Seq<char> {
    match value {
        Some(s) => argument(key, escape(s@)),
        None => Seq::empty(),
    }
}

/// Appends the argument for a number that may be left out.
fn with_number(builder: RequestBuilder, key: &str, value: Option<u64>) -> (r: RequestBuilder)
    ensures
        r@ == builder@ + number_argument(key@, value),
{
    match value {
        Some(n) => {
            let r = builder.arg(key, n);
            assert(r@ =~= builder@ + number_argument(key@, value));
            r
        },
        None => {
            assert(builder@ =~= builder@ + number_argument(key@, value));
            builder
        },
    }
}

/// Appends the argument for a text that may be left out.
fn with_text(builder: RequestBuilder, key: &str, value: Option<&str>) -> (r: RequestBuilder)
    ensures
        r@ == builder@ + text_argument(key@, value),
{
    match value {
        Some(s) => {
            let r = builder.arg(key, s);
            assert(r@ =~= builder@ + text_argument(key@, value));
            r
        },
        None => {
            assert(builder@ =~= builder@ + text_argument(key@, value));
            builder
        },
    }
}

/// Creates a new apikey using the specified scope, for the invoking user.
/// The default lifetime of a token is 14 days, a zero lifetime means no
/// expiration. It is possible to create apikeys for other users using
/// `b_virtualserver_apikey_manage`.
pub fn apikeyadd(scope: ApiKeyScope, lifetime: Option<u64>, cldbid: Option<u64>) -> (r: Request)
    ensures
        r@ == "apikeyadd"@ + argument("scope"@, scope.encoded()) + number_argument(
            "lifetime"@,
            lifetime,
        ) + number_argument("cldbid"@, cldbid),
{
    let req = RequestBuilder::new("apikeyadd").arg("scope", scope);
    assert(req@ =~= "apikeyadd"@ + argument("scope"@, scope.encoded()));
    let req = with_number(req, "lifetime", lifetime);
    let req = with_number(req, "cldbid", cldbid);
    req.build()
}

/// Delete an apikey. Any apikey owned by the current user can always be
/// deleted. Deleting apikeys from another user requires
/// `b_virtualserver_apikey_manage`.
pub fn apikeydel(id: u64) -> (r: Request)
    ensures
        r@ == "apikeydel"@ + argument("id"@, decimal(id as int)),
{
    let req = RequestBuilder::new("apikeydel").arg("id", id);
    assert(req@ =~= "apikeydel"@ + argument("id"@, decimal(id as int)));
    req.build()
}

/// The argument that says whose apikeys are listed: those of all users,
/// written `*`, or those of one user.
pub open spec fn owner_argument(cldbid: Option<(u64, bool)>) -> Seq<char> {
    match cldbid {
        Some((id, all)) => {
            if all {
                argument("cldbid"@, escape("*"@))
            } else {
                argument("cldbid"@, decimal(id as int))
            }
        },
        None => Seq::empty(),
    }
}

/// Lists all apikeys owned by the user, or of all users using
/// `cldbid`=`(0, true)`. Usage of `cldbid`=... requires
/// `b_virtualserver_apikey_manage`.
pub fn apikeylist(
    cldbid: Option<(u64, bool)>,
    start: Option<u64>,
    duration: Option<u64>,
    count: bool,
) -> (r: Request)
    ensures
        r@ == "apikeylist"@ + owner_argument(cldbid) + number_argument("start"@, start)
            + number_argument("duration"@, duration) + (if count {
            flag("-count"@)
        } else {
            Seq::empty()
        }),
{
    let mut req = RequestBuilder::new("apikeylist");
    match cldbid {
        Some((id, all)) => {
            if all {
                req = req.arg("cldbid", "*");
            } else {
                req = req.arg("cldbid", id);
            }
        },
        None => {},
    }
    assert(req@ =~= "apikeylist"@ + owner_argument(cldbid));
    let req = with_number(req, "start", start);
    let req = with_number(req, "duration", duration);
    let req = if count {
        req.flag("-count")
    } else {
        req
    };
    assert(req@ =~= "apikeylist"@ + owner_argument(cldbid) + number_argument("start"@, start)
        + number_argument("duration"@, duration) + (if count {
        flag("-count"@)
    } else {
        Seq::empty()
    }));
    req.build()
}

/// Add a new ban rule on the selected virtual server. One of `ip`, `name`,
/// `uid` and `mytsid` must not be `None`.
pub fn banadd(
    ip: Option<&str>,
    name: Option<&str>,
    uid: Option<&str>,
    mytsid: Option<&str>,
    time: Option<u64>,
    banreason: Option<&str>,
    lastnickname: Option<&str>,
) -> (r: Request)
    ensures
        r@ == "banadd"@ + text_argument("ip"@, ip) + text_argument("name"@, name) + text_argument(
            "uid"@,
            uid,
        ) + text_argument("mytsid"@, mytsid) + number_argument("time"@, time) + text_argument(
            "banreason"@,
            banreason,
        ) + text_argument("lastnickname"@, lastnickname),
{
    let req = RequestBuilder::new("banadd");
    let req = with_text(req, "ip", ip);
    let req = with_text(req, "name", name);
    let req = with_text(req, "uid", uid);
    let req = with_text(req, "mytsid", mytsid);
    let req = with_number(req, "time", time);
    let req = with_text(req, "banreason", banreason);
    let req = with_text(req, "lastnickname", lastnickname);
    req.build()
}

/// Sends a text message to all clients on all virtual servers in the
/// TeamSpeak 3 Server instance.
pub fn gm(msg: &str) -> (r: Request)
    ensures
        r@ == "gm"@ + argument("msg"@, escape(msg@)),
{
    let req = RequestBuilder::new("gm").arg("msg", msg);
    assert(req@ =~= "gm"@ + argument("msg"@, escape(msg@)));
    req.build()
}

/// Authenticate with the given data.
pub fn login(username: &str, password: &str) -> (r: Request)
    ensures
        r@ == "login"@ + argument("client_login_name"@, escape(username@)) + argument(
            "client_login_password"@,
            escape(password@),
        ),
{
    let req = RequestBuilder::new("login").arg("client_login_name", username).arg(
        "client_login_password",
        password,
    );
    assert(req@ =~= "login"@ + argument("client_login_name"@, escape(username@)) + argument(
        "client_login_password"@,
        escape(password@),
    ));
    req.build()
}

/// Deselects the active virtual server and logs out from the server
/// instance.
pub fn logout() -> (r: Request)
    ensures
        r@ == "logout"@,
{
    RequestBuilder::new("logout").build()
}

/// Send a quit command, disconnecting the client and closing the TCP
/// connection
pub fn quit() -> (r: Request)
    ensures
        r@ == "quit"@,
{
    RequestBuilder::new("quit").build()
}

/// Sends a text message to the target.
pub fn sendtextmessage(target: TextMessageTarget, msg: &str) -> (r: Request)
    ensures
        r@ == "sendtextmessage"@ + argument("targetmode"@, target.encoded()) + argument(
            "msg"@,
            escape(msg@),
        ),
{
    let req = RequestBuilder::new("sendtextmessage").arg("targetmode", target).arg("msg", msg);
    assert(req@ =~= "sendtextmessage"@ + argument("targetmode"@, target.encoded()) + argument(
        "msg"@,
        escape(msg@),
    ));
    req.build()
}

/// Adds one or more clients to the server group specified with sgid. Please
/// note that a client cannot be added to default groups or template groups.
pub fn servergroupaddclient(sgid: ServerGroupId, cldbid: ClientDatabaseId) -> (r: Request)
    ensures
        r@ == "servergroupaddclient"@ + argument("sgid"@, sgid.encoded()) + argument(
            "cldbid"@,
            cldbid.encoded(),
        ),
{
    let req = RequestBuilder::new("servergroupaddclient").arg("sgid", sgid).arg("cldbid", cldbid);
    assert(req@ =~= "servergroupaddclient"@ + argument("sgid"@, sgid.encoded()) + argument(
        "cldbid"@,
        cldbid.encoded(),
    ));
    req.build()
}

/// Removes one or more clients specified with cldbid from the server group
/// specified with sgid.
pub fn servergroupdelclient(sgid: ServerGroupId, cldbid: ClientDatabaseId) -> (r: Request)
    ensures
        r@ == "servergroupdelclient"@ + argument("sgid"@, sgid.encoded()) + argument(
            "cldbid"@,
            cldbid.encoded(),
        ),
{
    let req = RequestBuilder::new("servergroupdelclient").arg("sgid", sgid).arg("cldbid", cldbid);
    assert(req@ =~= "servergroupdelclient"@ + argument("sgid"@, sgid.encoded()) + argument(
        "cldbid"@,
        cldbid.encoded(),
    ));
    req.build()
}

/// Registers for a specified category of events on a virtual server to
/// receive notification messages. Depending on the notifications you've
/// registered for, the server will send you a message on every event in the
/// view of your ServerQuery client (e.g. clients joining your channel,
/// incoming text messages, server configuration changes, etc). The event
/// source is declared by the event parameter while id can be used to limit
/// the notifications to a specific channel.
pub fn servernotifyregister(event: ServerNotifyRegister) -> (r: Request)
    ensures
        r@ == "servernotifyregister"@ + argument("event"@, event.encoded()),
{
    let req = RequestBuilder::new("servernotifyregister").arg("event", event);
    assert(req@ =~= "servernotifyregister"@ + argument("event"@, event.encoded()));
    req.build()
}

/// Starts the virtual server specified with sid. Depending on your
/// permissions, you're able to start either your own virtual server only or
/// all virtual servers in the server instance.
pub fn serverstart(sid: ServerId) -> (r: Request)
    ensures
        r@ == "serverstart"@ + argument("sid"@, sid.encoded()),
{
    let req = RequestBuilder::new("serverstart").arg("sid", sid);
    assert(req@ =~= "serverstart"@ + argument("sid"@, sid.encoded()));
    req.build()
}

/// Stops the virtual server specified with sid. Depending on your
/// permissions, you're able to stop either your own virtual server only or
/// all virtual servers in the server instance.
pub fn serverstop(sid: ServerId) -> (r: Request)
    ensures
        r@ == "serverstop"@ + argument("sid"@, sid.encoded()),
{
    let req = RequestBuilder::new("serverstop").arg("sid", sid);
    assert(req@ =~= "serverstop"@ + argument("sid"@, sid.encoded()));
    req.build()
}

/// Switch to the virtualserver (voice) with the given server id
pub fn use_sid(sid: ServerId) -> (r: Request)
    ensures
        r@ == "use"@ + argument("sid"@, sid.encoded()),
{
    let req = RequestBuilder::new("use").arg("sid", sid);
    assert(req@ =~= "use"@ + argument("sid"@, sid.encoded()));
    req.build()
}

/// Like `use_sid` but instead use_port uses the voice port to connect to
/// the virtualserver
pub fn use_port(port: u16) -> (r: Request)
    ensures
        r@ == "use"@ + argument("port"@, decimal(port as int)),
{
    let req = RequestBuilder::new("use").arg("port", port);
    assert(req@ =~= "use"@ + argument("port"@, decimal(port as int)));
    req.build()
}

/// Returns information about the server version
pub fn version() -> (r: Request)
    ensures
        r@ == "version"@,
{
    RequestBuilder::new("version").build()
}

/// Returns information about the query client connected
pub fn whoami() -> (r: Request)
    ensures
        r@ == "whoami"@,
{
    RequestBuilder::new("whoami").build()
}

/// The command that is sent at intervals so that the server does not close
/// an idle connection: `version`, whose reply nobody waits for.
pub fn keepalive() -> (r: Request)
    ensures
        r@ == "version"@,
{
    version()
}

} // verus!
