//! Events: the notifications that the server sends unasked, and how a
//! line is recognised as one.

pub mod channel;
pub mod client;
pub mod server;

use vstd::prelude::*;
use crate::codec::Decode;
use crate::error::{agrees, DecodeError, Error, ErrorKind, SpecDecodeError, SpecError};
use crate::wire::{cut, head, is_word, tail, word_bytes, SPACE};

pub use channel::{
    ChannelCreated, ChannelDeleted, ChannelDescriptionChanged, ChannelEdited, ChannelMoved,
    ChannelPasswordChanged, SpecChannelCreated, SpecChannelDeleted,
    SpecChannelDescriptionChanged, SpecChannelEdited, SpecChannelMoved,
    SpecChannelPasswordChanged,
};
pub use client::{
    ClientEnterView, ClientLeftView, ClientMoved, SpecClientEnterView, SpecClientLeftView,
    SpecClientMoved,
};
pub use server::{
    ServerEdited, SpecServerEdited, SpecTextMessage, SpecTokenUsed, TextMessage, TokenUsed,
};

verus! {

/// Defines a reason why an event happened. Used in multiple event types.
#[derive(Copy, Clone, Debug, PartialEq, Eq, Structural)]
pub enum ReasonId {
    /// Switched channel themselves or joined server
    SwitchChannel,
    /// Moved by another client or channel
    Moved,
    /// Left server because of timeout (disconnect)
    Timeout,
    /// Kicked from channel
    ChannelKick,
    /// Kicked from server
    ServerKick,
    /// Banned from server
    Ban,
    /// Left server themselves
    ServerLeave,
    /// Edited channel or server
    Edited,
    /// Left server due shutdown
    ServerShutdown,
}

impl View for ReasonId {
    type V = ReasonId;

    open spec fn view(&self) -> ReasonId {
        *self
    }
}

impl ReasonId {
    /// The reason with the number `n`, if `n` is at most 8.
    pub open spec fn of_number(n: u8) -> Option<ReasonId> {
        if n == 0 {
            Some(ReasonId::SwitchChannel)
        } else if n == 1 {
            Some(ReasonId::Moved)
        } else if n == 2 {
            Some(ReasonId::Timeout)
        } else if n == 3 {
            Some(ReasonId::ChannelKick)
        } else if n == 4 {
            Some(ReasonId::ServerKick)
        } else if n == 5 {
            Some(ReasonId::Ban)
        } else if n == 6 {
            Some(ReasonId::ServerLeave)
        } else if n == 7 {
            Some(ReasonId::Edited)
        } else if n == 8 {
            Some(ReasonId::ServerShutdown)
        } else {
            None
        }
    }
}

impl Decode for ReasonId {
    /// The reason whose number the bytes state; a number that names no
    /// reason is `InvalidReasonId` with that number.
    open spec fn decoded(buf: Seq<u8>) -> Result<ReasonId, SpecError> {
        match u8::decoded(buf) {
            Ok(n) => match Self::of_number(n) {
                Some(reason) => Ok(reason),
                None => Err(SpecError::Decode(SpecDecodeError::InvalidReasonId(n))),
            },
            Err(e) => Err(e),
        }
    }

    fn decode(buf: &[u8]) -> (r: Result<ReasonId, Error>) {
        let n = match u8::decode(buf) {
            Ok(n) => n,
            Err(e) => {
                return Err(e);
            },
        };
        if n == 0 {
            Ok(Self::SwitchChannel)
        } else if n == 1 {
            Ok(Self::Moved)
        } else if n == 2 {
            Ok(Self::Timeout)
        } else if n == 3 {
            Ok(Self::ChannelKick)
        } else if n == 4 {
            Ok(Self::ServerKick)
        } else if n == 5 {
            Ok(Self::Ban)
        } else if n == 6 {
            Ok(Self::ServerLeave)
        } else if n == 7 {
            Ok(Self::Edited)
        } else if n == 8 {
            Ok(Self::ServerShutdown)
        } else {
            Err(Error(ErrorKind::Decode(DecodeError::InvalidReasonId(n))))
        }
    }
}

impl Default for ReasonId {
    fn default() -> (r: ReasonId)
        ensures
            r == ReasonId::SwitchChannel,
    {
        ReasonId::SwitchChannel
    }
}

/// A notification of the server, by its kind.
#[derive(Debug)]
pub enum Event {
    ClientEnterView(ClientEnterView),
    ClientLeftView(ClientLeftView),
    ServerEdited(ServerEdited),
    ChannelDescriptionChanged(ChannelDescriptionChanged),
    ChannelPasswordChanged(ChannelPasswordChanged),
    ChannelMoved(ChannelMoved),
    ChannelEdited(ChannelEdited),
    ChannelCreated(ChannelCreated),
    ChannelDeleted(ChannelDeleted),
    ClientMoved(ClientMoved),
    TextMessage(TextMessage),
    TokenUsed(TokenUsed),
}

/// The view of an [`Event`].
pub enum SpecEvent {
    ClientEnterView(SpecClientEnterView),
    ClientLeftView(SpecClientLeftView),
    ServerEdited(SpecServerEdited),
    ChannelDescriptionChanged(SpecChannelDescriptionChanged),
    ChannelPasswordChanged(SpecChannelPasswordChanged),
    ChannelMoved(SpecChannelMoved),
    ChannelEdited(SpecChannelEdited),
    ChannelCreated(SpecChannelCreated),
    ChannelDeleted(SpecChannelDeleted),
    ClientMoved(SpecClientMoved),
    TextMessage(SpecTextMessage),
    TokenUsed(SpecTokenUsed),
}

impl View for Event {
    type V = SpecEvent;

    open spec fn view(&self) -> SpecEvent {
        match self {
            Event::ClientEnterView(e) => SpecEvent::ClientEnterView(e@),
            Event::ClientLeftView(e) => SpecEvent::ClientLeftView(e@),
            Event::ServerEdited(e) => SpecEvent::ServerEdited(e@),
            Event::ChannelDescriptionChanged(e) => SpecEvent::ChannelDescriptionChanged(e@),
            Event::ChannelPasswordChanged(e) => SpecEvent::ChannelPasswordChanged(e@),
            Event::ChannelMoved(e) => SpecEvent::ChannelMoved(e@),
            Event::ChannelEdited(e) => SpecEvent::ChannelEdited(e@),
            Event::ChannelCreated(e) => SpecEvent::ChannelCreated(e@),
            Event::ChannelDeleted(e) => SpecEvent::ChannelDeleted(e@),
            Event::ClientMoved(e) => SpecEvent::ClientMoved(e@),
            Event::TextMessage(e) => SpecEvent::TextMessage(e@),
            Event::TokenUsed(e) => SpecEvent::TokenUsed(e@),
        }
    }
}

/// What stands behind the name of an event: the rest of the line behind
/// its first space, or nothing where the line has no space.
pub open spec fn event_data(line: Seq<u8>) -> Seq<u8> {
    match tail(line, SPACE) {
        Some(rest) => rest,
        None => Seq::empty(),
    }
}

/// The outcome `r` of reading a record, as the outcome of reading an event
/// of the kind that `wrap` makes of the record.
pub open spec fn as_event<V>(r: Result<V, SpecError>, wrap: spec_fn(V) -> SpecEvent) -> Result<
    SpecEvent,
    SpecError,
> {
    match r {
        Ok(v) => Ok(wrap(v)),
        Err(e) => Err(e),
    }
}

/// What the line `line` is to the dispatcher. Its name is what stands
/// before the first space. A name that is none of the twelve event names
/// gives `None`: the line is no event. Else the rest of the line is read as
/// the record of that event, which gives the event or the error of reading
/// it.
pub open spec fn event_of(line: Seq<u8>) -> Option<Result<SpecEvent, SpecError>> {
    let name = head(line, SPACE);
    let data = event_data(line);
    if name == word_bytes("notifycliententerview") {
        Some(
            as_event(
                ClientEnterView::decoded(data),
                |v: SpecClientEnterView| SpecEvent::ClientEnterView(v),
            ),
        )
    } else if name == word_bytes("notifyclientleftview") {
        Some(
            as_event(
                ClientLeftView::decoded(data),
                |v: SpecClientLeftView| SpecEvent::ClientLeftView(v),
            ),
        )
    } else if name == word_bytes("notifyserveredited") {
        Some(
            as_event(
                ServerEdited::decoded(data),
                |v: SpecServerEdited| SpecEvent::ServerEdited(v),
            ),
        )
    } else if name == word_bytes("notifychanneldescriptionchanged") {
        Some(
            as_event(
                ChannelDescriptionChanged::decoded(data),
                |v: SpecChannelDescriptionChanged| SpecEvent::ChannelDescriptionChanged(v),
            ),
        )
    } else if name == word_bytes("notifychannelpasswordchanged") {
        Some(
            as_event(
                ChannelPasswordChanged::decoded(data),
                |v: SpecChannelPasswordChanged| SpecEvent::ChannelPasswordChanged(v),
            ),
        )
    } else if name == word_bytes("notifychannelmoved") {
        Some(
            as_event(
                ChannelMoved::decoded(data),
                |v: SpecChannelMoved| SpecEvent::ChannelMoved(v),
            ),
        )
    } else if name == word_bytes("notifychanneledited") {
        Some(
            as_event(
                ChannelEdited::decoded(data),
                |v: SpecChannelEdited| SpecEvent::ChannelEdited(v),
            ),
        )
    } else if name == word_bytes("notifychannelcreated") {
        Some(
            as_event(
                ChannelCreated::decoded(data),
                |v: SpecChannelCreated| SpecEvent::ChannelCreated(v),
            ),
        )
    } else if name == word_bytes("notifychanneldeleted") {
        Some(
            as_event(
                ChannelDeleted::decoded(data),
                |v: SpecChannelDeleted| SpecEvent::ChannelDeleted(v),
            ),
        )
    } else if name == word_bytes("notifyclientmoved") {
        Some(
            as_event(
                ClientMoved::decoded(data),
                |v: SpecClientMoved| SpecEvent::ClientMoved(v),
            ),
        )
    } else if name == word_bytes("notifytextmessage") {
        Some(
            as_event(
                TextMessage::decoded(data),
                |v: SpecTextMessage| SpecEvent::TextMessage(v),
            ),
        )
    } else if name == word_bytes("notifytokenused") {
        Some(
            as_event(
                TokenUsed::decoded(data),
                |v: SpecTokenUsed| SpecEvent::TokenUsed(v),
            ),
        )
    } else {
        None
    }
}

/// Whether `name` is one of the twelve event names.
pub open spec fn is_event_name(name: Seq<u8>) -> bool {
    name == word_bytes("notifycliententerview")
        || name == word_bytes("notifyclientleftview")
        || name == word_bytes("notifyserveredited")
        || name == word_bytes("notifychanneldescriptionchanged")
        || name == word_bytes("notifychannelpasswordchanged")
        || name == word_bytes("notifychannelmoved")
        || name == word_bytes("notifychanneledited")
        || name == word_bytes("notifychannelcreated")
        || name == word_bytes("notifychanneldeleted")
        || name == word_bytes("notifyclientmoved")
        || name == word_bytes("notifytextmessage")
        || name == word_bytes("notifytokenused")
}

impl Event {
    /// Reads the line `line` as an event. `None` says that the line is no
    /// event, so that it belongs to a response.
    pub fn from_line(line: &[u8]) -> (r: Option<Result<Event, Error>>)
        ensures
            match r {
                Some(outcome) => event_of(line@) matches Some(m) && agrees(outcome, m),
                None => event_of(line@) is None,
            },
            r is Some <==> is_event_name(head(line@, SPACE)),
    {
        let (name, rest) = cut(line, SPACE);
        let empty: [u8; 0] = [];
        let data: &[u8] = match rest {
            Some(rest) => rest,
            None => empty.as_slice(),
        };
        assert(data@ =~= event_data(line@));
        if is_word(name, "notifycliententerview") {
            match ClientEnterView::decode(data) {
                Ok(e) => Some(Ok(Event::ClientEnterView(e))),
                Err(e) => Some(Err(e)),
            }
        } else if is_word(name, "notifyclientleftview") {
            match ClientLeftView::decode(data) {
                Ok(e) => Some(Ok(Event::ClientLeftView(e))),
                Err(e) => Some(Err(e)),
            }
        } else if is_word(name, "notifyserveredited") {
            match ServerEdited::decode(data) {
                Ok(e) => Some(Ok(Event::ServerEdited(e))),
                Err(e) => Some(Err(e)),
            }
        } else if is_word(name, "notifychanneldescriptionchanged") {
            match ChannelDescriptionChanged::decode(data) {
                Ok(e) => Some(Ok(Event::ChannelDescriptionChanged(e))),
                Err(e) => Some(Err(e)),
            }
        } else if is_word(name, "notifychannelpasswordchanged") {
            match ChannelPasswordChanged::decode(data) {
                Ok(e) => Some(Ok(Event::ChannelPasswordChanged(e))),
                Err(e) => Some(Err(e)),
            }
        } else if is_word(name, "notifychannelmoved") {
            match ChannelMoved::decode(data) {
                Ok(e) => Some(Ok(Event::ChannelMoved(e))),
                Err(e) => Some(Err(e)),
            }
        } else if is_word(name, "notifychanneledited") {
            match ChannelEdited::decode(data) {
                Ok(e) => Some(Ok(Event::ChannelEdited(e))),
                Err(e) => Some(Err(e)),
            }
        } else if is_word(name, "notifychannelcreated") {
            match ChannelCreated::decode(data) {
                Ok(e) => Some(Ok(Event::ChannelCreated(e))),
                Err(e) => Some(Err(e)),
            }
        } else if is_word(name, "notifychanneldeleted") {
            match ChannelDeleted::decode(data) {
                Ok(e) => Some(Ok(Event::ChannelDeleted(e))),
                Err(e) => Some(Err(e)),
            }
        } else if is_word(name, "notifyclientmoved") {
            match ClientMoved::decode(data) {
                Ok(e) => Some(Ok(Event::ClientMoved(e))),
                Err(e) => Some(Err(e)),
            }
        } else if is_word(name, "notifytextmessage") {
            match TextMessage::decode(data) {
                Ok(e) => Some(Ok(Event::TextMessage(e))),
                Err(e) => Some(Err(e)),
            }
        } else if is_word(name, "notifytokenused") {
            match TokenUsed::decode(data) {
                Ok(e) => Some(Ok(Event::TokenUsed(e))),
                Err(e) => Some(Err(e)),
            }
        } else {
            None
        }
    }
}

} // verus!
