//! Correlation: the queue of commands, the one command under way, and the
//! response that settles it.

use vstd::prelude::*;
use std::collections::VecDeque;
use crate::engine::reply::{reply_view, resolve, resolved};
use crate::engine::NEWLINE;
use crate::error::{Error, ErrorKind, SpecError};

verus! {

/// A command that a caller handed in: the bytes of its request, and the
/// slot through which the caller gets its reply. The library does not look
/// into the slot.
#[derive(Debug)]
pub struct Pending<T> {
    pub bytes: Vec<u8>,
    pub slot: T,
}

/// What the writer is busy with.
#[derive(Debug)]
pub enum Phase<T> {
    /// Nothing: no command is under way.
    Idle,
    /// The command of this slot is being written.
    Writing(T),
    /// The command of this slot was written, and its response is awaited.
    Awaiting(T),
}

/// A response as the reader delivers it: its data and its error line.
pub type Pair = (Vec<u8>, Error);

/// The queue of commands and the one command under way.
///
/// Commands are written in the order in which they were handed in, one at a
/// time: the next one is written when the one before was settled. A
/// response settles the command under way. Responses that arrive while no
/// command awaits one are kept, oldest first, for the commands to come.
#[derive(Debug)]
pub struct Correlator<T> {
    phase: Phase<T>,
    queue: VecDeque<Pending<T>>,
    spare: VecDeque<Pair>,
}

/// The view of a [`Correlator`].
pub struct SpecCorrelator<T> {
    pub phase: Phase<T>,
    pub queue: Seq<(Seq<u8>, T)>,
    pub spare: Seq<(Seq<u8>, SpecError)>,
}

/// What can happen to a [`Correlator`].
pub enum Input<T> {
    /// A caller hands in a command.
    Submit(Seq<u8>, T),
    /// The command that was being written is written.
    Written,
    /// The command that was being written could not be written.
    WriteFailed(SpecError),
    /// The reader delivers a response.
    Pair(Seq<u8>, SpecError),
}

/// What is to be done after something happened to a [`Correlator`].
#[derive(Debug)]
pub struct Step<T> {
    /// The slot of a command that is settled, and what it is settled with.
    pub settle: Option<(T, Result<Vec<u8>, Error>)>,
    /// The line of a command that is to be written now.
    pub transmit: Option<Vec<u8>>,
}

/// The view of a [`Step`].
pub struct SpecStep<T> {
    pub settle: Option<(T, Result<Seq<u8>, SpecError>)>,
    pub transmit: Option<Seq<u8>>,
}

impl<T> View for Step<T> {
    type V = SpecStep<T>;

    open spec fn view(&self) -> SpecStep<T> {
        SpecStep {
            settle: match self.settle {
                Some((slot, reply)) => Some((slot, reply_view(reply))),
                None => None,
            },
            transmit: match self.transmit {
                Some(line) => Some(line@),
                None => None,
            },
        }
    }
}

/// The line that is written for a request: its bytes and a newline.
pub open spec fn line_of(bytes: Seq<u8>) -> Seq<u8> {
    bytes.push(NEWLINE)
}

/// The views of the commands of a queue.
pub open spec fn queue_view<T>(queue: Seq<Pending<T>>) -> Seq<(Seq<u8>, T)> {
    queue.map_values(|p: Pending<T>| (p.bytes@, p.slot))
}

/// The views of the responses that are kept.
pub open spec fn spare_view(spare: Seq<Pair>) -> Seq<(Seq<u8>, SpecError)> {
    spare.map_values(|p: Pair| (p.0@, p.1@))
}

/// The correlator `c` as its writer, being idle, turns to the queue: the
/// oldest command is written, and without one nothing happens.
pub open spec fn began<T>(c: SpecCorrelator<T>) -> (SpecCorrelator<T>, SpecStep<T>) {
    if c.queue.len() > 0 {
        (
            SpecCorrelator {
                phase: Phase::Writing(c.queue[0].1),
                queue: c.queue.drop_first(),
                spare: c.spare,
            },
            SpecStep { settle: None, transmit: Some(line_of(c.queue[0].0)) },
        )
    } else {
        (
            SpecCorrelator { phase: Phase::Idle, queue: c.queue, spare: c.spare },
            SpecStep { settle: None, transmit: None },
        )
    }
}

/// The correlator `c` once the command under way was settled with `reply`
/// through `slot`: the writer turns to the queue.
pub open spec fn settled<T>(c: SpecCorrelator<T>, slot: T, reply: Result<Seq<u8>, SpecError>) -> (
    SpecCorrelator<T>,
    SpecStep<T>,
) {
    let (next, step) = began(c);
    (next, SpecStep { settle: Some((slot, reply)), transmit: step.transmit })
}

/// The correlator `c` with nothing to be done.
pub open spec fn unmoved<T>(c: SpecCorrelator<T>) -> (SpecCorrelator<T>, SpecStep<T>) {
    (c, SpecStep { settle: None, transmit: None })
}

/// The correlator after `input` happened to `c`, and what is to be done.
///
/// A command that is handed in joins the queue, and an idle writer turns
/// to the queue at once. A command that was written is settled with the
/// oldest response that is kept, if there is one, else its response is
/// awaited. A command that could not be written is settled with the error.
/// A response is kept behind those that are kept already, and a command
/// that awaits one is settled with the oldest. When a command is settled,
/// the writer turns to the queue. What does not fit the phase changes
/// nothing.
pub open spec fn stepped<T>(c: SpecCorrelator<T>, input: Input<T>) -> (
    SpecCorrelator<T>,
    SpecStep<T>,
) {
    match input {
        Input::Submit(bytes, slot) => {
            let joined = SpecCorrelator {
                phase: c.phase,
                queue: c.queue.push((bytes, slot)),
                spare: c.spare,
            };
            match c.phase {
                Phase::Idle => began(joined),
                _ => unmoved(joined),
            }
        },
        Input::Written => match c.phase {
            Phase::Writing(slot) => {
                if c.spare.len() > 0 {
                    settled(
                        SpecCorrelator {
                            phase: c.phase,
                            queue: c.queue,
                            spare: c.spare.drop_first(),
                        },
                        slot,
                        resolved(c.spare[0].0, c.spare[0].1),
                    )
                } else {
                    unmoved(
                        SpecCorrelator {
                            phase: Phase::Awaiting(slot),
                            queue: c.queue,
                            spare: c.spare,
                        },
                    )
                }
            },
            _ => unmoved(c),
        },
        Input::WriteFailed(error) => match c.phase {
            Phase::Writing(slot) => settled(c, slot, Err(error)),
            _ => unmoved(c),
        },
        Input::Pair(data, error) => {
            let kept = c.spare.push((data, error));
            match c.phase {
                Phase::Awaiting(slot) => settled(
                    SpecCorrelator { phase: c.phase, queue: c.queue, spare: kept.drop_first() },
                    slot,
                    resolved(kept[0].0, kept[0].1),
                ),
                _ => unmoved(SpecCorrelator { phase: c.phase, queue: c.queue, spare: kept }),
            }
        },
    }
}

/// The slots of the commands of `c` that are not settled: that of the
/// command under way, then those of the queue, in their order.
pub open spec fn outstanding<T>(c: SpecCorrelator<T>) -> Seq<T> {
    let first = match c.phase {
        Phase::Idle => Seq::empty(),
        Phase::Writing(slot) => seq![slot],
        Phase::Awaiting(slot) => seq![slot],
    };
    first + c.queue.map_values(|p: (Seq<u8>, T)| p.1)
}

/// The line that is written for the request `bytes`.
fn frame(bytes: Vec<u8>) -> (line: Vec<u8>)
    ensures
        line@ == line_of(bytes@),
{
    let mut line = bytes;
    line.push(NEWLINE);
    line
}

impl<T> View for Correlator<T> {
    type V = SpecCorrelator<T>;

    closed spec fn view(&self) -> SpecCorrelator<T> {
        SpecCorrelator {
            phase: self.phase,
            queue: queue_view(self.queue@),
            spare: spare_view(self.spare@),
        }
    }
}

impl<T> Correlator<T> {
    /// A correlator with no command and no response.
    pub fn new() -> (r: Self)
        ensures
            r@ == (SpecCorrelator::<T> {
                phase: Phase::Idle,
                queue: Seq::empty(),
                spare: Seq::empty(),
            }),
    {
        let r = Correlator { phase: Phase::Idle, queue: VecDeque::new(), spare: VecDeque::new() };
        assert(queue_view(r.queue@) =~= Seq::empty());
        assert(spare_view(r.spare@) =~= Seq::empty());
        r
    }

    /// Whether no command is under way.
    pub fn is_idle(&self) -> (r: bool)
        ensures
            r == (self@.phase is Idle),
    {
        match &self.phase {
            Phase::Idle => true,
            _ => false,
        }
    }

    /// Ends the work of the correlator, when the connection is gone: every
    /// command that is not settled is settled with `SendError`, the one
    /// under way first and then those of the queue in their order, and
    /// nothing is left.
    pub fn shutdown(&mut self) -> (r: Vec<(T, Result<Vec<u8>, Error>)>)
        ensures
            final(self)@ == idle::<T>(),
            r@.len() == outstanding(old(self)@).len(),
            forall|i: int|
                0 <= i < r@.len() ==> {
                    &&& (#[trigger] r@[i]).0 == outstanding(old(self)@)[i]
                    &&& r@[i].1 matches Err(e) && e@ == SpecError::SendError
                },
    {
        let mut failed: Vec<(T, Result<Vec<u8>, Error>)> = Vec::new();
        let mut phase = Phase::Idle;
        core::mem::swap(&mut self.phase, &mut phase);
        match phase {
            Phase::Writing(slot) => failed.push((slot, Err(Error(ErrorKind::SendError)))),
            Phase::Awaiting(slot) => failed.push((slot, Err(Error(ErrorKind::SendError)))),
            Phase::Idle => {},
        }
        let ghost first = failed@.len();
        let ghost all = outstanding(old(self)@);
        let ghost queue = queue_view(old(self).queue@);
        assert(all.len() == first + queue.len());
        while self.queue.len() > 0
            invariant
                self.phase is Idle,
                all == outstanding(old(self)@),
                queue == queue_view(old(self).queue@),
                all.len() == first + queue.len(),
                forall|k: int| 0 <= k < queue.len() ==> all[first + k] == queue[k].1,
                failed@.len() + self.queue@.len() == all.len(),
                queue_view(self.queue@) =~= queue.skip(failed@.len() - first),
                first <= failed@.len(),
                forall|i: int|
                    0 <= i < failed@.len() ==> {
                        &&& (#[trigger] failed@[i]).0 == all[i]
                        &&& failed@[i].1 matches Err(e) && e@ == SpecError::SendError
                    },
            decreases self.queue.len(),
        {
            let ghost before = queue_view(self.queue@);
            match self.queue.pop_front() {
                Some(next) => {
                    assert(queue_view(self.queue@) =~= before.drop_first());
                    assert(before[0] == (next.bytes@, next.slot));
                    assert(before[0] == queue[failed@.len() - first]);
                    failed.push((next.slot, Err(Error(ErrorKind::SendError))));
                },
                None => {},
            }
        }
        self.spare.clear();
        assert(queue_view(self.queue@) =~= Seq::empty());
        assert(spare_view(self.spare@) =~= Seq::empty());
        failed
    }

    /// Settles the command of `slot` with `reply` and begins the next one.
    fn settle(&mut self, slot: T, reply: Result<Vec<u8>, Error>) -> (r: Step<T>)
        ensures
            (final(self)@, r@) == settled(old(self)@, slot, reply_view(reply)),
            r.settle == Some((slot, reply)),
    {
        match self.queue.pop_front() {
            Some(next) => {
                assert(queue_view(self.queue@) =~= queue_view(old(self).queue@).drop_first());
                self.phase = Phase::Writing(next.slot);
                Step { settle: Some((slot, reply)), transmit: Some(frame(next.bytes)) }
            },
            None => {
                self.phase = Phase::Idle;
                Step { settle: Some((slot, reply)), transmit: None }
            },
        }
    }

    /// A caller hands in a command.
    pub fn submit(&mut self, command: Pending<T>) -> (r: Step<T>)
        ensures
            (final(self)@, r@) == stepped(old(self)@, Input::Submit(command.bytes@, command.slot)),
    {
        let ghost before = queue_view(self.queue@);
        self.queue.push_back(command);
        assert(queue_view(self.queue@) =~= before.push((command.bytes@, command.slot)));
        if self.is_idle() {
            match self.queue.pop_front() {
                Some(next) => {
                    assert(queue_view(self.queue@) =~= before.push(
                        (command.bytes@, command.slot),
                    ).drop_first());
                    self.phase = Phase::Writing(next.slot);
                    Step { settle: None, transmit: Some(frame(next.bytes)) }
                },
                None => Step { settle: None, transmit: None },
            }
        } else {
            Step { settle: None, transmit: None }
        }
    }

    /// The command that was being written is written.
    pub fn written(&mut self) -> (r: Step<T>)
        ensures
            (final(self)@, r@) == stepped(old(self)@, Input::Written),
    {
        let mut phase = Phase::Idle;
        core::mem::swap(&mut self.phase, &mut phase);
        match phase {
            Phase::Writing(slot) => {
                match self.spare.pop_front() {
                    Some((data, error)) => {
                        assert(spare_view(self.spare@) =~= spare_view(old(self).spare@).drop_first());
                        let reply = resolve(data, error);
                        self.settle(slot, reply)
                    },
                    None => {
                        self.phase = Phase::Awaiting(slot);
                        Step { settle: None, transmit: None }
                    },
                }
            },
            other => {
                self.phase = other;
                Step { settle: None, transmit: None }
            },
        }
    }

    /// The command that was being written could not be written.
    pub fn write_failed(&mut self, error: Error) -> (r: Step<T>)
        ensures
            (final(self)@, r@) == stepped(old(self)@, Input::WriteFailed(error@)),
            r.settle matches Some((_, reply)) ==> reply == Err::<Vec<u8>, Error>(error),
    {
        let mut phase = Phase::Idle;
        core::mem::swap(&mut self.phase, &mut phase);
        match phase {
            Phase::Writing(slot) => {
                self.settle(slot, Err(error))
            },
            other => {
                self.phase = other;
                Step { settle: None, transmit: None }
            },
        }
    }

    /// The reader delivers a response.
    pub fn on_pair(&mut self, data: Vec<u8>, error: Error) -> (r: Step<T>)
        ensures
            (final(self)@, r@) == stepped(old(self)@, Input::Pair(data@, error@)),
    {
        let ghost before = spare_view(self.spare@);
        self.spare.push_back((data, error));
        assert(spare_view(self.spare@) =~= before.push((data@, error@)));
        let mut phase = Phase::Idle;
        core::mem::swap(&mut self.phase, &mut phase);
        match phase {
            Phase::Awaiting(slot) => {
                match self.spare.pop_front() {
                    Some((oldest_data, oldest_error)) => {
                        assert(spare_view(self.spare@) =~= before.push(
                            (data@, error@),
                        ).drop_first());
                        let reply = resolve(oldest_data, oldest_error);
                        self.settle(slot, reply)
                    },
                    None => {
                        self.phase = Phase::Awaiting(slot);
                        Step { settle: None, transmit: None }
                    },
                }
            },
            other => {
                self.phase = other;
                Step { settle: None, transmit: None }
            },
        }
    }
}

/// The correlator of a connection that begins.
pub open spec fn idle<T>() -> SpecCorrelator<T> {
    SpecCorrelator { phase: Phase::Idle, queue: Seq::empty(), spare: Seq::empty() }
}

/// The correlator after the inputs `inputs` happened one after another to
/// one that begins, and what was to be done after each.
pub open spec fn run<T>(inputs: Seq<Input<T>>) -> (SpecCorrelator<T>, Seq<SpecStep<T>>)
    decreases inputs.len(),
{
    if inputs.len() == 0 {
        (idle(), Seq::empty())
    } else {
        let (before, steps) = run(inputs.drop_last());
        let (after, step) = stepped(before, inputs.last());
        (after, steps.push(step))
    }
}

/// The commands that were handed in, in their order.
pub open spec fn submitted<T>(inputs: Seq<Input<T>>) -> Seq<(Seq<u8>, T)>
    decreases inputs.len(),
{
    if inputs.len() == 0 {
        Seq::empty()
    } else {
        match inputs.last() {
            Input::Submit(bytes, slot) => submitted(inputs.drop_last()).push((bytes, slot)),
            _ => submitted(inputs.drop_last()),
        }
    }
}

/// The responses that the reader delivered, in their order.
pub open spec fn arrived<T>(inputs: Seq<Input<T>>) -> Seq<(Seq<u8>, SpecError)>
    decreases inputs.len(),
{
    if inputs.len() == 0 {
        Seq::empty()
    } else {
        match inputs.last() {
            Input::Pair(data, error) => arrived(inputs.drop_last()).push((data, error)),
            _ => arrived(inputs.drop_last()),
        }
    }
}

/// The slots that were settled and what each was settled with, in their
/// order.
pub open spec fn replies<T>(steps: Seq<SpecStep<T>>) -> Seq<(T, Result<Seq<u8>, SpecError>)>
    decreases steps.len(),
{
    if steps.len() == 0 {
        Seq::empty()
    } else {
        match steps.last().settle {
            Some(reply) => replies(steps.drop_last()).push(reply),
            None => replies(steps.drop_last()),
        }
    }
}

/// The lines that were to be written, in their order.
pub open spec fn transmissions<T>(steps: Seq<SpecStep<T>>) -> Seq<Seq<u8>>
    decreases steps.len(),
{
    if steps.len() == 0 {
        Seq::empty()
    } else {
        match steps.last().transmit {
            Some(line) => transmissions(steps.drop_last()).push(line),
            None => transmissions(steps.drop_last()),
        }
    }
}

/// The number of commands under way: one unless the writer is idle.
pub open spec fn under_way<T>(c: SpecCorrelator<T>) -> int {
    if c.phase is Idle {
        0
    } else {
        1
    }
}

/// What holds after any inputs: of the commands that were handed in, the
/// first ones are settled, the next one is under way, and the others wait
/// in the queue, all in the order in which they came.
pub open spec fn in_order<T>(inputs: Seq<Input<T>>) -> bool {
    let (c, steps) = run(inputs);
    let s = submitted(inputs);
    let r = replies(steps);
    let x = transmissions(steps);
    &&& s.len() == r.len() + under_way(c) + c.queue.len()
    &&& c.queue == s.skip(r.len() + under_way(c))
    &&& (c.phase matches Phase::Writing(slot) ==> slot == s[r.len() as int].1)
    &&& (c.phase matches Phase::Awaiting(slot) ==> slot == s[r.len() as int].1)
    &&& (c.phase is Idle ==> c.queue.len() == 0)
    &&& x.len() == r.len() + under_way(c)
    &&& forall|i: int| 0 <= i < x.len() ==> #[trigger] x[i] == line_of(s[i].0)
    &&& forall|i: int| 0 <= i < r.len() ==> (#[trigger] r[i]).0 == s[i].1
}

/// `in_order` holds after any inputs.
pub proof fn lemma_in_order<T>(inputs: Seq<Input<T>>)
    ensures
        in_order(inputs),
    decreases inputs.len(),
{
    if inputs.len() == 0 {
        assert(run(inputs).0.queue =~= submitted(inputs).skip(0));
    } else {
        let past = inputs.drop_last();
        lemma_in_order(past);
        let (c, steps) = run(past);
        let (c2, step) = stepped(c, inputs.last());
        let s = submitted(past);
        let r = replies(steps);
        let x = transmissions(steps);
        let s2 = submitted(inputs);
        let r2 = replies(steps.push(step));
        let x2 = transmissions(steps.push(step));
        assert(steps.push(step).drop_last() =~= steps);
        assert(steps.push(step).last() == step);
        assert(run(inputs) == (c2, steps.push(step)));
        let n = r.len() + under_way(c);
        match inputs.last() {
            Input::Submit(bytes, slot) => {
                assert(s2 == s.push((bytes, slot)));
                let joined = c.queue.push((bytes, slot));
                assert(joined =~= s2.skip(n));
                if c.phase is Idle {
                    assert(joined.drop_first() =~= s2.skip(n + 1));
                    assert(joined[0] == s2[n]);
                }
            },
            Input::Written => {
                assert(s2 == s);
                if c.phase is Writing && c.spare.len() > 0 {
                    if c.queue.len() > 0 {
                        assert(c.queue.drop_first() =~= s.skip(n + 1));
                        assert(c.queue[0] == s[n]);
                    }
                }
            },
            Input::WriteFailed(error) => {
                assert(s2 == s);
                if c.phase is Writing {
                    if c.queue.len() > 0 {
                        assert(c.queue.drop_first() =~= s.skip(n + 1));
                        assert(c.queue[0] == s[n]);
                    }
                }
            },
            Input::Pair(data, error) => {
                assert(s2 == s);
                if c.phase is Awaiting {
                    if c.queue.len() > 0 {
                        assert(c.queue.drop_first() =~= s.skip(n + 1));
                        assert(c.queue[0] == s[n]);
                    }
                }
            },
        }
        assert(c2.queue =~= s2.skip(r2.len() + under_way(c2)));
    }
}

/// Commands are written in the order in which they were handed in: the
/// lines that were to be written are the lines of the first commands.
pub proof fn lemma_written_in_order<T>(inputs: Seq<Input<T>>, i: int)
    requires
        0 <= i < transmissions(run(inputs).1).len(),
    ensures
        i < submitted(inputs).len(),
        transmissions(run(inputs).1)[i] == line_of(submitted(inputs)[i].0),
{
    lemma_in_order(inputs);
}

/// Commands are settled in the order in which they were handed in: the
/// reply number `i` goes to the slot of the command number `i`.
pub proof fn lemma_settled_in_order<T>(inputs: Seq<Input<T>>, i: int)
    requires
        0 <= i < replies(run(inputs).1).len(),
    ensures
        i < submitted(inputs).len(),
        replies(run(inputs).1)[i].0 == submitted(inputs)[i].1,
{
    lemma_in_order(inputs);
}

/// At most one command is under way: every line that was to be written,
/// but for the last one, belongs to a command that is settled.
pub proof fn lemma_one_under_way<T>(inputs: Seq<Input<T>>)
    ensures
        replies(run(inputs).1).len() <= transmissions(run(inputs).1).len() <= replies(
            run(inputs).1,
        ).len() + 1,
{
    lemma_in_order(inputs);
}

/// Whether every command could be written.
pub open spec fn no_write_failed<T>(inputs: Seq<Input<T>>) -> bool {
    forall|i: int| 0 <= i < inputs.len() ==> !(#[trigger] inputs[i] is WriteFailed)
}

/// What holds after inputs without a failed write: the responses that
/// arrived settled the commands one by one, in the order of both, and the
/// others are kept.
pub open spec fn paired_in_order<T>(inputs: Seq<Input<T>>) -> bool {
    let (c, steps) = run(inputs);
    let a = arrived(inputs);
    let r = replies(steps);
    &&& a.len() == r.len() + c.spare.len()
    &&& c.spare == a.skip(r.len() as int)
    &&& (c.phase is Awaiting ==> c.spare.len() == 0)
    &&& forall|i: int| 0 <= i < r.len() ==> (#[trigger] r[i]).1 == resolved(a[i].0, a[i].1)
}

/// `paired_in_order` holds after any inputs without a failed write.
pub proof fn lemma_paired_in_order<T>(inputs: Seq<Input<T>>)
    requires
        no_write_failed(inputs),
    ensures
        paired_in_order(inputs),
    decreases inputs.len(),
{
    if inputs.len() == 0 {
        assert(run(inputs).0.spare =~= arrived(inputs).skip(0));
    } else {
        let past = inputs.drop_last();
        assert forall|i: int| 0 <= i < past.len() implies !(#[trigger] past[i] is WriteFailed) by {
            assert(past[i] == inputs[i]);
        }
        lemma_paired_in_order(past);
        let (c, steps) = run(past);
        let (c2, step) = stepped(c, inputs.last());
        let a = arrived(past);
        let r = replies(steps);
        let a2 = arrived(inputs);
        let r2 = replies(steps.push(step));
        assert(steps.push(step).drop_last() =~= steps);
        assert(steps.push(step).last() == step);
        assert(run(inputs) == (c2, steps.push(step)));
        assert(!(inputs[inputs.len() - 1] is WriteFailed));
        let n = r.len() as int;
        match inputs.last() {
            Input::Submit(bytes, slot) => {
                assert(a2 == a);
            },
            Input::Written => {
                assert(a2 == a);
                if c.phase is Writing && c.spare.len() > 0 {
                    assert(c.spare.drop_first() =~= a.skip(n + 1));
                    assert(c.spare[0] == a[n]);
                }
            },
            Input::WriteFailed(error) => {},
            Input::Pair(data, error) => {
                assert(a2 == a.push((data, error)));
                let kept = c.spare.push((data, error));
                assert(kept =~= a2.skip(n));
                if c.phase is Awaiting {
                    assert(kept.drop_first() =~= a2.skip(n + 1));
                    assert(kept[0] == a2[n]);
                }
            },
        }
        assert(c2.spare =~= a2.skip(r2.len() as int));
    }
}

/// Each caller gets the response to its own command: where every command
/// could be written, the reply number `i` goes to the slot of the command
/// number `i` and is made of the response number `i`.
pub proof fn lemma_fifo<T>(inputs: Seq<Input<T>>, i: int)
    requires
        no_write_failed(inputs),
        0 <= i < replies(run(inputs).1).len(),
    ensures
        i < submitted(inputs).len(),
        i < arrived(inputs).len(),
        replies(run(inputs).1)[i] == (
            submitted(inputs)[i].1,
            resolved(arrived(inputs)[i].0, arrived(inputs)[i].1),
        ),
{
    lemma_in_order(inputs);
    lemma_paired_in_order(inputs);
}

} // verus!
