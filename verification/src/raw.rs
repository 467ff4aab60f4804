//! The untyped view of the protocol: a response as entries of keys and
//! values, read without knowing which command it answers, and what can be
//! taken from it by name.

use vstd::prelude::*;
use vstd::string::StringExecFns;
use crate::codec::Decode;
use crate::number::{decimal, parse_decimal, parse_integer, push_decimal};
use crate::response::{Entry, Fields, Response};

verus! {

/// `Display` of `std::io::Error`, through `format!`: the text that the
/// standard library has for the error. Nothing is claimed of it.
#[verifier::external_body]
fn io_error_text(error: &std::io::Error) -> (r: String) {
    format!("{}", error)
}

/// An error of the untyped interface.
#[derive(Debug)]
pub enum Error {
    /// The transport failed.
    IO(std::io::Error),
    /// The error line of a response. An `id` of 0 means that the command
    /// succeeded.
    TS3 { id: usize, msg: String },
    /// The command queue is gone and takes no more commands.
    SendError,
}

/// The view of an [`Error`].
pub enum SpecError {
    IO,
    TS3 { id: usize, msg: Seq<char> },
    SendError,
}

impl View for Error {
    type V = SpecError;

    open spec fn view(&self) -> SpecError {
        match self {
            Error::IO(_) => SpecError::IO,
            Error::TS3 { id, msg } => SpecError::TS3 { id: *id, msg: msg@ },
            Error::SendError => SpecError::SendError,
        }
    }
}

impl From<std::io::Error> for Error {
    fn from(err: std::io::Error) -> (r: Error) {
        Error::IO(err)
    }
}

impl vstd::std_specs::convert::FromSpecImpl<std::io::Error> for Error {
    open spec fn obeys_from_spec() -> bool {
        true
    }

    open spec fn from_spec(err: std::io::Error) -> Error {
        Error::IO(err)
    }
}

/// What the value of the key `key` in the first entry of a response is
/// written as, if there is such an entry and the key has a value in it.
pub open spec fn raw_value(items: Seq<Fields>, key: Seq<char>) -> Option<Seq<char>> {
    if items.len() > 0 && items[0].dom().contains(key) {
        items[0][key]
    } else {
        None
    }
}

impl Error {
    /// Whether this is the error line of a command that succeeded.
    pub fn ok(&self) -> (r: bool)
        ensures
            r == (self@ matches SpecError::TS3 { id, .. } && id == 0),
    {
        match self {
            Error::TS3 { id, msg: _ } => *id == 0,
            _ => false,
        }
    }

    /// The text that tells of the error. For an error line it is `TS3
    /// Error`, the number, a colon and the message.
    pub fn message(&self) -> (r: String)
        ensures
            match self@ {
                SpecError::IO => true,
                SpecError::TS3 { id, msg } => r@ == "TS3 Error "@ + decimal(id as int) + ": "@
                    + msg,
                SpecError::SendError => r@ == "SendError"@,
            },
    {
        match self {
            Error::IO(err) => io_error_text(err),
            Error::TS3 { id, msg } => {
                let mut text = String::from_str("TS3 Error ");
                push_decimal(&mut text, false, *id as u128);
                text.append(": ");
                text.append(msg.as_str());
                text
            },
            Error::SendError => String::from_str("SendError"),
        }
    }

    /// Whether `resp` can be read as an error line: its first entry has
    /// an `id` that is a number and a `msg`.
    pub open spec fn readable(items: Seq<Fields>) -> bool {
        &&& raw_value(items, "id"@) matches Some(id)
        &&& usize::parsed(id) is Some
        &&& raw_value(items, "msg"@) is Some
    }

    /// Reads the error line that `resp` holds.
    pub fn from_response(resp: RawResp) -> (r: Error)
        requires
            Self::readable(resp@),
        ensures
            r@ == (SpecError::TS3 {
                id: usize::parsed(raw_value(resp@, "id"@).unwrap()).unwrap(),
                msg: raw_value(resp@, "msg"@).unwrap(),
            }),
    {
        let entry = &resp.items[0];
        assert(resp@[0] == entry@);
        let id = match entry.value("id") {
            Some(text) => match usize::from_text(text) {
                Some(id) => id,
                None => 0,
            },
            None => 0,
        };
        let msg = match entry.value("msg") {
            Some(text) => String::from_str(text),
            None => String::new(),
        };
        Error::TS3 { id, msg }
    }
}

/// RawResp contains all data returned from the server.
/// When the items vector contains multiple entries, the server returned a
/// list. Otherwise only a single item will be in the vector.
/// Each entry contains all key-value pairs, but values are optional.
#[derive(Debug)]
pub struct RawResp {
    pub items: Vec<Entry>,
}

impl View for RawResp {
    type V = Seq<Fields>;

    open spec fn view(&self) -> Seq<Fields> {
        self.items@.map_values(|e: Entry| e@)
    }
}

impl RawResp {
    /// A response without entries.
    pub fn new() -> (r: RawResp)
        ensures
            r@ == Seq::<Fields>::empty(),
    {
        let r = RawResp { items: Vec::new() };
        assert(r@ =~= Seq::<Fields>::empty());
        r
    }

    /// Returns whether the decoded response is the server error response.
    /// This is true when a key named "error" exists in the first entry.
    pub fn is_error(&self) -> (r: bool)
        ensures
            r == (self@.len() > 0 && self@[0].dom().contains("error"@)),
    {
        if self.items.len() == 0 {
            false
        } else {
            self.items[0].contains("error")
        }
    }

    /// Reads a response from a line that is UTF-8: the entries between the
    /// pipes, and in each the keys, with their values where they have one,
    /// between the spaces.
    pub fn from_bytes(buf: &[u8]) -> (r: RawResp)
        requires
            vstd::utf8::valid_utf8(buf@),
        ensures
            Response::decoded(buf@) == Ok::<Seq<Fields>, crate::error::SpecError>(r@),
            r@.len() > 0,
    {
        proof {
            crate::response::lemma_response_reads_utf8(buf@);
            crate::response::lemma_response_is_not_empty(buf@);
        }
        match Response::decode(buf) {
            Ok(resp) => RawResp { items: resp.into_entries() },
            Err(_) => RawResp::new(),
        }
    }
}

/// Settles a command with its response: the response if the error line
/// states success, else the error line as the error.
pub fn settle(resp: RawResp, err: Error) -> (r: Result<RawResp, Error>)
    ensures
        match r {
            Ok(x) => (err@ matches SpecError::TS3 { id, .. } && id == 0) && x == resp,
            Err(e) => !(err@ matches SpecError::TS3 { id, .. } && id == 0) && e == err,
        },
{
    if err.ok() {
        Ok(resp)
    } else {
        Err(err)
    }
}

/// Whether the line `line`, read while `held` is held, is read as an error
/// line: it is one that follows the data of a response, or one that begins
/// with an error line's key.
pub open spec fn ends_response(held: Option<RawResp>, line: Seq<Fields>) -> bool {
    held is Some || (line.len() > 0 && line[0].dom().contains("error"@))
}

/// Frames the responses of the untyped interface. `held` is the data of a
/// response whose error line is still to come. A line that ends a response
/// gives the pair of the data, which is empty where none is held, and the
/// error line; any other line is data and is held.
pub fn frame(held: Option<RawResp>, line: RawResp) -> (r: (Option<RawResp>, Option<(RawResp, Error)>))
    requires
        ends_response(held, line@) ==> Error::readable(line@),
    ensures
        if ends_response(held, line@) {
            &&& r.0 is None
            &&& r.1 matches Some((data, error))
            &&& error@ == (SpecError::TS3 {
                id: usize::parsed(raw_value(line@, "id"@).unwrap()).unwrap(),
                msg: raw_value(line@, "msg"@).unwrap(),
            })
            &&& match held {
                Some(resp) => data == resp,
                None => data@ == Seq::<Fields>::empty(),
            }
        } else {
            r.0 == Some(line) && r.1 is None
        },
{
    match held {
        Some(resp) => (None, Some((resp, Error::from_response(line)))),
        None => {
            if line.is_error() {
                (None, Some((RawResp::new(), Error::from_response(line))))
            } else {
                (Some(line), None)
            }
        },
    }
}

/// The name of the first event, in the order of the event names, that is
/// a key of the entry `m`.
pub open spec fn event_key(m: Fields) -> Option<Seq<char>> {
    if m.dom().contains("notifycliententerview"@) {
        Some("notifycliententerview"@)
    } else if m.dom().contains("notifyclientleftview"@) {
        Some("notifyclientleftview"@)
    } else if m.dom().contains("notifyserveredited"@) {
        Some("notifyserveredited"@)
    } else if m.dom().contains("notifychanneldescriptionchanged"@) {
        Some("notifychanneldescriptionchanged"@)
    } else if m.dom().contains("notifychannelpasswordchanged"@) {
        Some("notifychannelpasswordchanged"@)
    } else if m.dom().contains("notifychannelmoved"@) {
        Some("notifychannelmoved"@)
    } else if m.dom().contains("notifychanneledited"@) {
        Some("notifychanneledited"@)
    } else if m.dom().contains("notifychannelcreated"@) {
        Some("notifychannelcreated"@)
    } else if m.dom().contains("notifychanneldeleted"@) {
        Some("notifychanneldeleted"@)
    } else if m.dom().contains("notifyclientmoved"@) {
        Some("notifyclientmoved"@)
    } else if m.dom().contains("notifytextmessage"@) {
        Some("notifytextmessage"@)
    } else if m.dom().contains("notifytokenused"@) {
        Some("notifytokenused"@)
    } else {
        None
    }
}

/// Returns the name of the event when the response is an event message and
/// `None` if it is none.
pub fn is_event(resp: &RawResp) -> (r: Option<String>)
    requires
        resp@.len() > 0,
    ensures
        match r {
            Some(name) => event_key(resp@[0]) == Some(name@),
            None => event_key(resp@[0]) is None,
        },
{
    let entry = &resp.items[0];
    assert(resp@[0] == entry@);
    if entry.contains("notifycliententerview") {
        return Some(String::from_str("notifycliententerview"));
    }
    if entry.contains("notifyclientleftview") {
        return Some(String::from_str("notifyclientleftview"));
    }
    if entry.contains("notifyserveredited") {
        return Some(String::from_str("notifyserveredited"));
    }
    if entry.contains("notifychanneldescriptionchanged") {
        return Some(String::from_str("notifychanneldescriptionchanged"));
    }
    if entry.contains("notifychannelpasswordchanged") {
        return Some(String::from_str("notifychannelpasswordchanged"));
    }
    if entry.contains("notifychannelmoved") {
        return Some(String::from_str("notifychannelmoved"));
    }
    if entry.contains("notifychanneledited") {
        return Some(String::from_str("notifychanneledited"));
    }
    if entry.contains("notifychannelcreated") {
        return Some(String::from_str("notifychannelcreated"));
    }
    if entry.contains("notifychanneldeleted") {
        return Some(String::from_str("notifychanneldeleted"));
    }
    if entry.contains("notifyclientmoved") {
        return Some(String::from_str("notifyclientmoved"));
    }
    if entry.contains("notifytextmessage") {
        return Some(String::from_str("notifytextmessage"));
    }
    if entry.contains("notifytokenused") {
        return Some(String::from_str("notifytokenused"));
    }
    None
}

/// A type that a field of the untyped interface can be read as.
pub trait Field: Sized + View {
    /// What the text `text` stands for, if it stands for a value.
    spec fn parsed(text: Seq<char>) -> Option<Self::V>;

    /// The value of a field that is missing or cannot be read.
    spec fn fallback() -> Self::V;

    /// Reads a value from `text`.
    fn from_text(text: &str) -> (r: Option<Self>)
        ensures
            match r {
                Some(v) => Self::parsed(text@) == Some(v@),
                None => Self::parsed(text@) is None,
            },
    ;

    /// The value of a field that is missing or cannot be read.
    fn missing() -> (r: Self)
        ensures
            r@ == Self::fallback(),
    ;
}

impl Field for usize {
    /// The number that the text is the decimal text of.
    open spec fn parsed(text: Seq<char>) -> Option<usize> {
        match parse_decimal(vstd::utf8::encode_utf8(text), 0, usize::MAX as int) {
            Ok(n) => Some(n as usize),
            Err(_) => None,
        }
    }

    open spec fn fallback() -> usize {
        0
    }

    fn from_text(text: &str) -> (r: Option<usize>) {
        proof {
            vstd::utf8::encode_utf8_valid_utf8(text@);
        }
        match parse_integer(text.as_bytes(), 0, usize::MAX as u128) {
            Ok((_, magnitude)) => Some(magnitude as usize),
            Err(_) => None,
        }
    }

    fn missing() -> (r: usize) {
        0
    }
}

impl Field for String {
    /// The text itself, as it is written.
    open spec fn parsed(text: Seq<char>) -> Option<Seq<char>> {
        Some(text)
    }

    open spec fn fallback() -> Seq<char> {
        Seq::empty()
    }

    fn from_text(text: &str) -> (r: Option<String>) {
        Some(String::from_str(text))
    }

    fn missing() -> (r: String) {
        String::new()
    }
}

/// What the field `name` of the first entry of a response gives as a `T`:
/// the value that its text stands for, and the fallback of `T` where the
/// response is empty, the key is missing or without a value, or the text
/// cannot be read.
pub open spec fn field_value<T: Field>(items: Seq<Fields>, name: Seq<char>) -> T::V {
    match raw_value(items, name) {
        Some(text) => match T::parsed(text) {
            Some(v) => v,
            None => T::fallback(),
        },
        None => T::fallback(),
    }
}

/// Reads the field `name` of the first entry of `raw`.
pub fn get_field<T>(raw: &RawResp, name: &str) -> (r: T) where T: Field
    ensures
        r@ == field_value::<T>(raw@, name@),
{
    if raw.items.len() == 0 {
        return T::missing();
    }
    let entry = &raw.items[0];
    assert(raw@[0] == entry@);
    match entry.value(name) {
        Some(text) => match T::from_text(text) {
            Some(v) => v,
            None => T::missing(),
        },
        None => T::missing(),
    }
}

/// Data of a `clientleftview` event.
pub struct ClientLeftView {
    cfid: usize,
    ctid: usize,
    reasonid: ReasonID,
    invokerid: usize,
    invokername: String,
    invokeruid: String,
    reasonmsg: String,
    bantime: usize,
    clid: usize,
}

/// Defines a reason why an event happened. Used in multiple event types.
#[derive(Clone, Copy, Debug, PartialEq, Eq, Structural)]
pub enum ReasonID {
    /// Switched channel themselves or joined server
    SwitchChannel,
    /// Moved by another client or channel
    Moved,
    /// Left server because of timeout (disconnect)
    Timeout,
    /// Kicked from channel
    ChannelKick,
    /// Kicked from server
    ServerKick,
    /// Banned from server
    Ban,
    /// Left server themselves
    ServerLeave,
    /// Edited channel or server
    Edited,
    /// Left server due shutdown
    ServerShutdown,
}

/// Why a text names no value of an enumeration.
#[derive(Clone, Copy, Debug, PartialEq, Eq, Structural)]
pub enum ParseError {
    /// The text is none of the texts of the enumeration.
    InvalidEnum,
}

impl ReasonID {
    /// The reason that the text `s` names, in the numbering of the
    /// untyped interface.
    pub open spec fn named(s: Seq<char>) -> Option<ReasonID> {
        if s == "0"@ {
            Some(ReasonID::SwitchChannel)
        } else if s == "1"@ {
            Some(ReasonID::Moved)
        } else if s == "3"@ {
            Some(ReasonID::Timeout)
        } else if s == "4"@ {
            Some(ReasonID::ChannelKick)
        } else if s == "5"@ {
            Some(ReasonID::ServerKick)
        } else if s == "6"@ {
            Some(ReasonID::Ban)
        } else if s == "8"@ {
            Some(ReasonID::ServerLeave)
        } else if s == "10"@ {
            Some(ReasonID::Edited)
        } else if s == "11"@ {
            Some(ReasonID::ServerShutdown)
        } else {
            None
        }
    }

    /// Reads a reason from its text; a text that names none is
    /// `InvalidEnum`.
    pub fn from_str(s: &str) -> (r: Result<ReasonID, ParseError>)
        ensures
            match r {
                Ok(reason) => Self::named(s@) == Some(reason),
                Err(e) => Self::named(s@) is None && e == ParseError::InvalidEnum,
            },
    {
        if crate::wire::str_eq(s, "0") {
            Ok(ReasonID::SwitchChannel)
        } else if crate::wire::str_eq(s, "1") {
            Ok(ReasonID::Moved)
        } else if crate::wire::str_eq(s, "3") {
            Ok(ReasonID::Timeout)
        } else if crate::wire::str_eq(s, "4") {
            Ok(ReasonID::ChannelKick)
        } else if crate::wire::str_eq(s, "5") {
            Ok(ReasonID::ServerKick)
        } else if crate::wire::str_eq(s, "6") {
            Ok(ReasonID::Ban)
        } else if crate::wire::str_eq(s, "8") {
            Ok(ReasonID::ServerLeave)
        } else if crate::wire::str_eq(s, "10") {
            Ok(ReasonID::Edited)
        } else if crate::wire::str_eq(s, "11") {
            Ok(ReasonID::ServerShutdown)
        } else {
            Err(ParseError::InvalidEnum)
        }
    }
}

/// Returned from a "textmessage" event
#[derive(Debug)]
pub struct TextMessage {
    pub targetmode: usize,
    pub msg: String,
    pub target: usize,
    pub invokerid: usize,
    pub invokername: String,
    pub invokeruid: String,
}

/// The view of a [`TextMessage`].
pub struct SpecTextMessage {
    pub targetmode: usize,
    pub msg: Seq<char>,
    pub target: usize,
    pub invokerid: usize,
    pub invokername: Seq<char>,
    pub invokeruid: Seq<char>,
}

impl View for TextMessage {
    type V = SpecTextMessage;

    open spec fn view(&self) -> SpecTextMessage {
        SpecTextMessage {
            targetmode: self.targetmode,
            msg: self.msg@,
            target: self.target,
            invokerid: self.invokerid,
            invokername: self.invokername@,
            invokeruid: self.invokeruid@,
        }
    }
}

impl Clone for TextMessage {
    fn clone(&self) -> (r: Self)
        ensures
            r@ == self@,
    {
        TextMessage {
            targetmode: self.targetmode,
            msg: self.msg.clone(),
            target: self.target,
            invokerid: self.invokerid,
            invokername: self.invokername.clone(),
            invokeruid: self.invokeruid.clone(),
        }
    }
}

/// The message that the first entry of a response tells of: each field
/// is looked for under its own name.
pub open spec fn text_message_of(items: Seq<Fields>) -> SpecTextMessage {
    SpecTextMessage {
        targetmode: field_value::<usize>(items, "targetmode"@),
        msg: field_value::<String>(items, "msg"@),
        target: field_value::<usize>(items, "target"@),
        invokerid: field_value::<usize>(items, "invokerid"@),
        invokername: field_value::<String>(items, "invokername"@),
        invokeruid: field_value::<String>(items, "invokeruid"@),
    }
}

impl TextMessage {
    /// The message that the first entry of `raw` tells of.
    pub fn from_response(raw: RawResp) -> (r: TextMessage)
        ensures
            r@ == text_message_of(raw@),
    {
        TextMessage {
            targetmode: get_field(&raw, "targetmode"),
            msg: get_field(&raw, "msg"),
            target: get_field(&raw, "target"),
            invokerid: get_field(&raw, "invokerid"),
            invokername: get_field(&raw, "invokername"),
            invokeruid: get_field(&raw, "invokeruid"),
        }
    }
}

/// An event of the untyped interface, by its kind, with what the server
/// told of it. Only a text message is read into a type of its own.
#[derive(Debug)]
pub enum Notification {
    ClientEnterView(RawResp),
    ClientLeftView(RawResp),
    ServerEdited(RawResp),
    ChannelDescriptionChanged(RawResp),
    ChannelPasswordChanged(RawResp),
    ChannelMoved(RawResp),
    ChannelEdited(RawResp),
    ChannelCreated(RawResp),
    ChannelDeleted(RawResp),
    ClientMoved(RawResp),
    TextMessage(TextMessage),
    TokenUsed(RawResp),
}

/// The number of the kind of event that `name` names, in the order of the
/// event names, if it names one.
pub open spec fn kind_of(name: Seq<char>) -> Option<int> {
    if name == "notifycliententerview"@ {
        Some(0int)
    } else if name == "notifyclientleftview"@ {
        Some(1int)
    } else if name == "notifyserveredited"@ {
        Some(2int)
    } else if name == "notifychanneldescriptionchanged"@ {
        Some(3int)
    } else if name == "notifychannelpasswordchanged"@ {
        Some(4int)
    } else if name == "notifychannelmoved"@ {
        Some(5int)
    } else if name == "notifychanneledited"@ {
        Some(6int)
    } else if name == "notifychannelcreated"@ {
        Some(7int)
    } else if name == "notifychanneldeleted"@ {
        Some(8int)
    } else if name == "notifyclientmoved"@ {
        Some(9int)
    } else if name == "notifytextmessage"@ {
        Some(10int)
    } else if name == "notifytokenused"@ {
        Some(11int)
    } else {
        None
    }
}

impl Notification {
    /// The number of the kind of this event, in the order of the event
    /// names.
    pub open spec fn kind(self) -> int {
        match self {
            Notification::ClientEnterView(_) => 0int,
            Notification::ClientLeftView(_) => 1int,
            Notification::ServerEdited(_) => 2int,
            Notification::ChannelDescriptionChanged(_) => 3int,
            Notification::ChannelPasswordChanged(_) => 4int,
            Notification::ChannelMoved(_) => 5int,
            Notification::ChannelEdited(_) => 6int,
            Notification::ChannelCreated(_) => 7int,
            Notification::ChannelDeleted(_) => 8int,
            Notification::ClientMoved(_) => 9int,
            Notification::TextMessage(_) => 10int,
            Notification::TokenUsed(_) => 11int,
        }
    }

    /// What the server told of this event, where it is kept as it came.
    pub open spec fn raw(self) -> Option<RawResp> {
        match self {
            Notification::ClientEnterView(resp) => Some(resp),
            Notification::ClientLeftView(resp) => Some(resp),
            Notification::ServerEdited(resp) => Some(resp),
            Notification::ChannelDescriptionChanged(resp) => Some(resp),
            Notification::ChannelPasswordChanged(resp) => Some(resp),
            Notification::ChannelMoved(resp) => Some(resp),
            Notification::ChannelEdited(resp) => Some(resp),
            Notification::ChannelCreated(resp) => Some(resp),
            Notification::ChannelDeleted(resp) => Some(resp),
            Notification::ClientMoved(resp) => Some(resp),
            Notification::TextMessage(_) => None,
            Notification::TokenUsed(resp) => Some(resp),
        }
    }

    /// The event with the name `name` of which `resp` tells: `None` where
    /// `name` is no event name.
    pub fn named(name: &str, resp: RawResp) -> (r: Option<Notification>)
        ensures
            match r {
                Some(event) => {
                    &&& kind_of(name@) == Some(event.kind())
                    &&& match event {
                        Notification::TextMessage(message) => message@ == text_message_of(resp@),
                        _ => event.raw() == Some(resp),
                    }
                },
                None => kind_of(name@) is None,
            },
    {
        if crate::wire::str_eq(name, "notifycliententerview") {
            return Some(Notification::ClientEnterView(resp));
        }
        if crate::wire::str_eq(name, "notifyclientleftview") {
            return Some(Notification::ClientLeftView(resp));
        }
        if crate::wire::str_eq(name, "notifyserveredited") {
            return Some(Notification::ServerEdited(resp));
        }
        if crate::wire::str_eq(name, "notifychanneldescriptionchanged") {
            return Some(Notification::ChannelDescriptionChanged(resp));
        }
        if crate::wire::str_eq(name, "notifychannelpasswordchanged") {
            return Some(Notification::ChannelPasswordChanged(resp));
        }
        if crate::wire::str_eq(name, "notifychannelmoved") {
            return Some(Notification::ChannelMoved(resp));
        }
        if crate::wire::str_eq(name, "notifychanneledited") {
            return Some(Notification::ChannelEdited(resp));
        }
        if crate::wire::str_eq(name, "notifychannelcreated") {
            return Some(Notification::ChannelCreated(resp));
        }
        if crate::wire::str_eq(name, "notifychanneldeleted") {
            return Some(Notification::ChannelDeleted(resp));
        }
        if crate::wire::str_eq(name, "notifyclientmoved") {
            return Some(Notification::ClientMoved(resp));
        }
        if crate::wire::str_eq(name, "notifytextmessage") {
            return Some(Notification::TextMessage(TextMessage::from_response(resp)));
        }
        if crate::wire::str_eq(name, "notifytokenused") {
            return Some(Notification::TokenUsed(resp));
        }
        None
    }
}

/// The line of the `login` command: the name and the password as they
/// are, without escapes.
pub fn login_line(username: &str, password: &str) -> (r: String)
    ensures
        r@ == "login client_login_name="@ + username@ + " client_login_password="@ + password@,
{
    let mut line = String::from_str("login client_login_name=");
    line.append(username);
    line.append(" client_login_password=");
    line.append(password);
    line
}

/// The line of the `use` command for the virtual server with the number
/// `sid`.
pub fn use_line(sid: usize) -> (r: String)
    ensures
        r@ == "use sid="@ + decimal(sid as int),
{
    let mut line = String::from_str("use sid=");
    push_decimal(&mut line, false, sid as u128);
    line
}

} // verus!
