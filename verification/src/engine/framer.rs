//! Framing: what each line that is read is, and what is to be done with
//! it.

use vstd::prelude::*;
use vstd::slice::slice_to_vec;
use crate::engine::{strip_terminator, TERMINATOR_LEN};
use crate::error::{
    decoded_error_line, DecodeError, Error, ErrorKind, SpecDecodeError, SpecError,
};
use crate::event::{event_of, is_event_name, Event, SpecEvent};
use crate::wire::{begins_with_word, has_prefix, head, word_bytes, SPACE};

verus! {

/// Where the reader stands between two lines.
#[derive(Debug)]
pub enum Framer {
    /// The next line begins something new.
    AwaitingLine,
    /// The data of a response was read, and the next line must be its
    /// error line.
    AwaitingError(Vec<u8>),
}

/// The view of a [`Framer`].
pub enum SpecFramer {
    AwaitingLine,
    AwaitingError(Seq<u8>),
}

impl View for Framer {
    type V = SpecFramer;

    open spec fn view(&self) -> SpecFramer {
        match self {
            Framer::AwaitingLine => SpecFramer::AwaitingLine,
            Framer::AwaitingError(data) => SpecFramer::AwaitingError(data@),
        }
    }
}

/// What the reader is to do with a line.
#[derive(Debug)]
pub enum Action {
    /// Hand the event to the handler, without waiting for it.
    Dispatch(Event),
    /// Tell the handler of the error, and read on.
    Report(Error),
    /// Hand the data of a response and its error line to the writer.
    Deliver(Vec<u8>, Error),
    /// Nothing yet: the response's error line is still to come.
    Wait,
}

/// The view of an [`Action`].
pub enum SpecAction {
    Dispatch(SpecEvent),
    Report(SpecError),
    Deliver(Seq<u8>, SpecError),
    Wait,
}

impl View for Action {
    type V = SpecAction;

    open spec fn view(&self) -> SpecAction {
        match self {
            Action::Dispatch(event) => SpecAction::Dispatch(event@),
            Action::Report(error) => SpecAction::Report(error@),
            Action::Deliver(data, error) => SpecAction::Deliver(data@, error@),
            Action::Wait => SpecAction::Wait,
        }
    }
}

/// What is done with `data` once `line` was read as its error line: the
/// pair is delivered, or the error of reading the line is reported and the
/// data is dropped.
pub open spec fn paired(data: Seq<u8>, line: Seq<u8>) -> SpecAction {
    match decoded_error_line(line) {
        Ok(error) => SpecAction::Deliver(data, error),
        Err(e) => SpecAction::Report(e),
    }
}

/// The state after the line `line` was read in the state `state`, and what
/// is to be done.
///
/// A line that begins something new is an event if its name is that of an
/// event: the event is dispatched, or the error of reading it is reported,
/// and no response is touched. Else a line that begins with `error` is a
/// response without data, and any other line is the data of a response,
/// whose error line the next line must be.
pub open spec fn framed(state: SpecFramer, line: Seq<u8>) -> (SpecFramer, SpecAction) {
    match state {
        SpecFramer::AwaitingLine => match event_of(line) {
            Some(Ok(event)) => (SpecFramer::AwaitingLine, SpecAction::Dispatch(event)),
            Some(Err(e)) => (SpecFramer::AwaitingLine, SpecAction::Report(e)),
            None => {
                if has_prefix(line, word_bytes("error")) {
                    (SpecFramer::AwaitingLine, paired(Seq::empty(), line))
                } else {
                    (SpecFramer::AwaitingError(line), SpecAction::Wait)
                }
            },
        },
        SpecFramer::AwaitingError(data) => (SpecFramer::AwaitingLine, paired(data, line)),
    }
}

/// The state after one read gave the bytes `raw` in the state `state`, and
/// what is to be done. Bytes that hold a line and the bytes that end it are
/// framed as that line. Fewer bytes are no line: they are reported as
/// `UnexpectedEof`, what was read of a response is dropped, and the next
/// line begins something new.
pub open spec fn framed_raw(state: SpecFramer, raw: Seq<u8>) -> (SpecFramer, SpecAction) {
    if raw.len() >= TERMINATOR_LEN {
        framed(state, raw.take(raw.len() - TERMINATOR_LEN))
    } else {
        (
            SpecFramer::AwaitingLine,
            SpecAction::Report(SpecError::Decode(SpecDecodeError::UnexpectedEof)),
        )
    }
}

/// Reads `line` as the error line of the response with the data `data`.
fn pair(data: Vec<u8>, line: &[u8]) -> (action: Action)
    ensures
        action@ == paired(data@, line@),
{
    match Error::decode(line) {
        Ok(error) => Action::Deliver(data, error),
        Err(e) => Action::Report(e),
    }
}

impl Framer {
    /// The state in which a connection begins.
    pub fn new() -> (r: Framer)
        ensures
            r@ == SpecFramer::AwaitingLine,
    {
        Framer::AwaitingLine
    }

    /// Takes a line that was read, without the bytes that end it.
    pub fn on_line(self, line: &[u8]) -> (r: (Framer, Action))
        ensures
            (r.0@, r.1@) == framed(self@, line@),
    {
        match self {
            Framer::AwaitingLine => match Event::from_line(line) {
                Some(Ok(event)) => (Framer::AwaitingLine, Action::Dispatch(event)),
                Some(Err(e)) => (Framer::AwaitingLine, Action::Report(e)),
                None => {
                    if begins_with_word(line, "error") {
                        let data: Vec<u8> = Vec::new();
                        assert(data@ =~= Seq::<u8>::empty());
                        (Framer::AwaitingLine, pair(data, line))
                    } else {
                        (Framer::AwaitingError(slice_to_vec(line)), Action::Wait)
                    }
                },
            },
            Framer::AwaitingError(data) => (Framer::AwaitingLine, pair(data, line)),
        }
    }

    /// Takes what one read gave, with the bytes that end a line. No bytes
    /// are refused: what is too short to be a line is reported, and the
    /// reading goes on.
    pub fn on_raw(self, raw: &[u8]) -> (r: (Framer, Action))
        ensures
            (r.0@, r.1@) == framed_raw(self@, raw@),
            raw@.len() >= TERMINATOR_LEN ==> (r.0@, r.1@) == framed(
                self@,
                raw@.take(raw@.len() - TERMINATOR_LEN),
            ),
            raw@.len() < TERMINATOR_LEN ==> r.0@ == SpecFramer::AwaitingLine && r.1@
                == SpecAction::Report(SpecError::Decode(SpecDecodeError::UnexpectedEof)),
    {
        if raw.len() >= TERMINATOR_LEN {
            self.on_line(strip_terminator(raw))
        } else {
            (
                Framer::AwaitingLine,
                Action::Report(Error(ErrorKind::Decode(DecodeError::UnexpectedEof))),
            )
        }
    }

    /// Takes the failure of a read: the error is reported, what was read of
    /// a response is dropped, and the next line begins something new.
    pub fn on_failure(self, error: Error) -> (r: (Framer, Action))
        ensures
            r.0@ == SpecFramer::AwaitingLine,
            r.1 == Action::Report(error),
    {
        (Framer::AwaitingLine, Action::Report(error))
    }
}

/// A line is an event exactly if its name is an event name.
pub proof fn lemma_event_names(line: Seq<u8>)
    ensures
        event_of(line) is Some <==> is_event_name(head(line, SPACE)),
{
}

/// A line whose name is no event name is no event, and is framed as part
/// of a response.
pub proof fn lemma_unknown_name_is_response(line: Seq<u8>)
    requires
        !is_event_name(head(line, SPACE)),
    ensures
        event_of(line) is None,
        framed(SpecFramer::AwaitingLine, line) == if has_prefix(line, word_bytes("error")) {
            (SpecFramer::AwaitingLine, paired(Seq::empty(), line))
        } else {
            (SpecFramer::AwaitingError(line), SpecAction::Wait)
        },
{
}

/// The state after the lines `lines` were read one after another, from
/// the state `state` on, and what was to be done for each.
pub open spec fn frames(state: SpecFramer, lines: Seq<Seq<u8>>) -> (SpecFramer, Seq<SpecAction>)
    decreases lines.len(),
{
    if lines.len() == 0 {
        (state, Seq::empty())
    } else {
        let (before, actions) = frames(state, lines.drop_last());
        let (after, action) = framed(before, lines.last());
        (after, actions.push(action))
    }
}

/// The responses among the actions `actions`, in their order.
pub open spec fn deliveries(actions: Seq<SpecAction>) -> Seq<(Seq<u8>, SpecError)>
    decreases actions.len(),
{
    if actions.len() == 0 {
        Seq::empty()
    } else {
        match actions.last() {
            SpecAction::Deliver(data, error) => deliveries(actions.drop_last()).push(
                (data, error),
            ),
            _ => deliveries(actions.drop_last()),
        }
    }
}

/// Events do not touch responses: an event line between two responses
/// changes neither the responses that are delivered nor the state of the
/// framer.
pub proof fn lemma_events_leave_responses(
    before: Seq<Seq<u8>>,
    event: Seq<u8>,
    after: Seq<Seq<u8>>,
)
    requires
        is_event_name(head(event, SPACE)),
        frames(SpecFramer::AwaitingLine, before).0 == SpecFramer::AwaitingLine,
    ensures
        frames(SpecFramer::AwaitingLine, before + seq![event] + after).0 == frames(
            SpecFramer::AwaitingLine,
            before + after,
        ).0,
        deliveries(frames(SpecFramer::AwaitingLine, before + seq![event] + after).1) == deliveries(
            frames(SpecFramer::AwaitingLine, before + after).1,
        ),
    decreases after.len(),
{
    let start = SpecFramer::AwaitingLine;
    let with = before + seq![event] + after;
    let without = before + after;
    if after.len() == 0 {
        assert(without =~= before);
        assert(with.drop_last() =~= before);
        assert(with.last() == event);
        lemma_event_names(event);
        let (state, actions) = frames(start, before);
        let (next, action) = framed(state, event);
        assert(frames(start, with) == (next, actions.push(action)));
        assert(actions.push(action).drop_last() =~= actions);
    } else {
        lemma_events_leave_responses(before, event, after.drop_last());
        assert(with.drop_last() =~= before + seq![event] + after.drop_last());
        assert(without.drop_last() =~= before + after.drop_last());
        assert(with.last() == after.last());
        assert(without.last() == after.last());
        let (state1, actions1) = frames(start, with.drop_last());
        let (state2, actions2) = frames(start, without.drop_last());
        let (next, action) = framed(state1, after.last());
        assert(actions1.push(action).drop_last() =~= actions1);
        assert(actions2.push(action).drop_last() =~= actions2);
    }
}

} // verus!
