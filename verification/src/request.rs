//! Requests: the line that a command sends, and how it is built.

use vstd::prelude::*;
use vstd::string::StringExecFns;
use crate::codec::{push_char, Encode};
use crate::number::decimal;
use crate::types::{ChannelId, ClientId};

verus! {

/// An encoded request buffer: one command line, without the line's end.
#[derive(Debug)]
pub struct Request {
    pub buf: String,
}

impl Clone for Request {
    fn clone(&self) -> (r: Self)
        ensures
            r@ == self@,
    {
        Request { buf: self.buf.clone() }
    }
}

impl View for Request {
    type V = Seq<char>;

    open spec fn view(&self) -> Seq<char> {
        self.buf@
    }
}

/// A builder type for a [`Request`].
#[derive(Debug, Default)]
pub struct RequestBuilder {
    pub buf: String,
}

impl Clone for RequestBuilder {
    fn clone(&self) -> (r: Self)
        ensures
            r@ == self@,
    {
        RequestBuilder { buf: self.buf.clone() }
    }
}

impl View for RequestBuilder {
    type V = Seq<char>;

    open spec fn view(&self) -> Seq<char> {
        self.buf@
    }
}

impl RequestBuilder {
    /// Creates a new `RequestBuilder` for the command named `command`.
    pub fn new(command: &str) -> (r: Self)
        ensures
            r@ == command@,
    {
        Self { buf: String::from_str(command) }
    }

    /// Appends a key-value argument to the request: a space, the key, `=`
    /// and the text that stands for the value.
    pub fn arg<V>(self, key: &str, value: V) -> (r: Self) where V: Encode
        ensures
            r@ == self@ + (seq![' '] + key@ + seq!['='] + value.encoded()),
    {
        let mut buf = self.buf;
        push_char(&mut buf, ' ');
        buf.append(key);
        push_char(&mut buf, '=');
        value.encode(&mut buf);
        assert(buf@ =~= self@ + (seq![' '] + key@ + seq!['='] + value.encoded()));
        Self { buf }
    }

    /// Appends a flag to the request: a space and the flag.
    pub fn flag(self, flag: &str) -> (r: Self)
        ensures
            r@ == self@ + (seq![' '] + flag@),
    {
        let mut buf = self.buf;
        push_char(&mut buf, ' ');
        buf.append(flag);
        assert(buf@ =~= self@ + (seq![' '] + flag@));
        Self { buf }
    }

    /// Consumes this `RequestBuilder`, returning the constructed
    /// [`Request`].
    pub fn build(self) -> (r: Request)
        ensures
            r@ == self@,
    {
        Request { buf: self.buf }
    }
}

impl From<RequestBuilder> for Request {
    fn from(value: RequestBuilder) -> (r: Request) {
        Request { buf: value.buf }
    }
}

impl vstd::std_specs::convert::FromSpecImpl<RequestBuilder> for Request {
    open spec fn obeys_from_spec() -> bool {
        true
    }

    open spec fn from_spec(value: RequestBuilder) -> Request {
        Request { buf: value.buf }
    }
}

/// The events that a connection can ask to be told of.
#[derive(Copy, Clone, Debug, PartialEq, Eq, Structural, Hash)]
pub enum ServerNotifyRegister {
    Server,
    Channel(ChannelId),
    TextServer,
    TextChannel,
    TextPrivate,
}

impl Encode for ServerNotifyRegister {
    /// The word for the kind of event; for a channel, the word, a space and
    /// the argument `id` with the channel's number.
    open spec fn encoded(&self) -> Seq<char> {
        match self {
            ServerNotifyRegister::Server => "server"@,
            ServerNotifyRegister::Channel(cid) => "channel id="@ + decimal(cid.0 as int),
            ServerNotifyRegister::TextServer => "textserver"@,
            ServerNotifyRegister::TextChannel => "textchannel"@,
            ServerNotifyRegister::TextPrivate => "textprivate"@,
        }
    }

    fn encode(&self, buf: &mut String) {
        match self {
            Self::Server => buf.append("server"),
            Self::Channel(cid) => {
                buf.append("channel id=");
                cid.encode(buf);
                assert(final(buf)@ =~= old(buf)@ + self.encoded());
            },
            Self::TextServer => buf.append("textserver"),
            Self::TextChannel => buf.append("textchannel"),
            Self::TextPrivate => buf.append("textprivate"),
        }
    }
}

/// Whom a text message goes to.
#[derive(Copy, Clone, Debug, PartialEq, Eq, Structural, Hash)]
pub enum TextMessageTarget {
    Client(ClientId),
    Channel,
    Server,
}

impl Encode for TextMessageTarget {
    /// The number of the target mode; for a client, the number, a space and
    /// the argument `target` with the client's number.
    open spec fn encoded(&self) -> Seq<char> {
        match self {
            TextMessageTarget::Client(clid) => "1 target="@ + decimal(clid.0 as int),
            TextMessageTarget::Channel => "2"@,
            TextMessageTarget::Server => "3"@,
        }
    }

    fn encode(&self, buf: &mut String) {
        match self {
            Self::Client(clid) => {
                buf.append("1 target=");
                clid.encode(buf);
                assert(final(buf)@ =~= old(buf)@ + self.encoded());
            },
            Self::Channel => buf.append("2"),
            Self::Server => buf.append("3"),
        }
    }
}

} // verus!
