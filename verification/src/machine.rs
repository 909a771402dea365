//! The vocabulary in which the driver and its caller take turns.
//!
//! The driver never touches the bus. An operation hands out a [`Request`],
//! the caller carries it out on its transport and reports an [`Event`], and
//! the operation answers with a [`Step`]: the next request, or the result.
//! An event that does not answer the outstanding request changes nothing:
//! the same request is handed out again.

use crate::error::Error;
use crate::ll::{le_value, Transaction, TransactionView};
use vstd::prelude::*;

verus! {

/// What the caller is asked to do next.
#[derive(Clone, Copy, Debug, PartialEq, Eq)]
pub enum Request<'a> {
    /// Wait for `ms` milliseconds; answered by [`Event::Elapsed`].
    Delay { ms: u32 },
    /// Run one transaction on the bus; answered by [`Event::Word`] where the
    /// transaction is a [`Transaction::ReadWord`], by [`Event::Done`] for any
    /// other, and by [`Event::Failed`] where the transport fails.
    Transact(Transaction<'a>),
}

/// A request as contracts see it.
pub enum RequestView {
    Delay { ms: u32 },
    Transact(TransactionView),
}

impl<'a> View for Request<'a> {
    type V = RequestView;

    open spec fn view(&self) -> RequestView {
        match *self {
            Request::Delay { ms } => RequestView::Delay { ms },
            Request::Transact(transaction) => RequestView::Transact(transaction@),
        }
    }
}

/// What happened to the outstanding request. `E` is the error type of the
/// transport.
#[derive(Debug, PartialEq, Eq)]
pub enum Event<E> {
    /// The delay has elapsed.
    Elapsed,
    /// The transaction completed; it hands nothing back to the driver.
    Done,
    /// The transaction completed and read these four bytes.
    Word([u8; 4]),
    /// The transport failed.
    Failed(E),
}

/// An event as contracts see it: the four bytes of a word are read as the
/// little-endian number they spell.
pub enum EventView<E> {
    Elapsed,
    Done,
    Word(u32),
    Failed(E),
}

impl<E> View for Event<E> {
    type V = EventView<E>;

    open spec fn view(&self) -> EventView<E> {
        match *self {
            Event::Elapsed => EventView::Elapsed,
            Event::Done => EventView::Done,
            Event::Word(bytes) => EventView::Word(le_value(bytes@)),
            Event::Failed(error) => EventView::Failed(error),
        }
    }
}

/// How an operation goes on after an event. `S` is its state, `T` what it
/// yields on success.
#[derive(Debug, PartialEq, Eq)]
pub enum Step<'a, S, T, E> {
    /// The operation is in `state` and asks for `request`.
    Continue { state: S, request: Request<'a> },
    /// The operation is over.
    Finished(Result<T, Error<E>>),
}

/// A step as contracts see it.
pub enum StepView<S, T, E> {
    Continue { state: S, request: RequestView },
    Finished(Result<T, Error<E>>),
}

impl<'a, S, T, E> View for Step<'a, S, T, E> {
    type V = StepView<S, T, E>;

    open spec fn view(&self) -> StepView<S, T, E> {
        match *self {
            Step::Continue { state, request } => StepView::Continue { state, request: request@ },
            Step::Finished(result) => StepView::Finished(result),
        }
    }
}

impl RequestView {
    /// Whether `event` is an answer to this request: the end of a wait to a
    /// wait, a word or a failure to the read of a word, completion or a
    /// failure to any other transaction.
    pub open spec fn answered_by<E>(self, event: EventView<E>) -> bool {
        match self {
            RequestView::Delay { .. } => event is Elapsed,
            RequestView::Transact(TransactionView::ReadWord { .. }) => event is Word
                || event is Failed,
            RequestView::Transact(_) => event is Done || event is Failed,
        }
    }
}

/// An operation as contracts see it: its states, what each state asks for
/// and how each state answers an event of a transport with errors of type
/// `E`.
pub trait Operation<E>: Sized {
    /// What the operation yields on success.
    type Output;

    /// The request that is outstanding in this state.
    spec fn request(self) -> RequestView;

    /// What follows when `event` is reported in this state.
    spec fn step(self, event: EventView<E>) -> StepView<Self, Self::Output, E>;

    /// How many requests, the outstanding one included, the operation hands
    /// out at most before it is over.
    spec fn remaining(self) -> nat;

    /// What every operation keeps to, in every state. An event that does
    /// not answer the outstanding request changes nothing. An event that
    /// answers it ends the operation or takes it to a state that is nearer
    /// to the end. A step that goes on asks for what its state asks for.
    proof fn keeps_to(self, event: EventView<E>)
        ensures
            self.remaining() > 0,
            !self.request().answered_by(event) ==> self.step(event) == (StepView::<
                Self,
                Self::Output,
                E,
            >::Continue { state: self, request: self.request() }),
            self.step(event) matches StepView::Continue { state, request } ==> request
                == state.request(),
            self.request().answered_by(event) ==> (self.step(event) matches StepView::Continue {
                state,
                ..
            } ==> state.remaining() < self.remaining()),
    ;
}

/// Where an operation stands after a sequence of events.
pub enum End<S, T, E> {
    /// It waits in this state for the answer to its request.
    Pending(S),
    /// It is over, with this result.
    Finished(Result<T, Error<E>>),
}

/// What an operation did over a sequence of events: the requests that were
/// answered, in order, and where it stands.
pub struct Run<S, T, E> {
    pub answered: Seq<RequestView>,
    pub end: End<S, T, E>,
}

impl<S, T, E> Run<S, T, E> {
    /// This run, preceded by requests that were answered before it.
    pub open spec fn after(self, earlier: Seq<RequestView>) -> Run<S, T, E> {
        Run { answered: earlier + self.answered, end: self.end }
    }
}

/// Runs `op` from the state it is in against `events`, one event per
/// request. Events that come after the operation is over are not looked at.
pub open spec fn run<E, O: Operation<E>>(op: O, events: Seq<EventView<E>>) -> Run<O, O::Output, E>
    decreases events.len(),
{
    if events.len() == 0 {
        Run { answered: seq![], end: End::Pending(op) }
    } else {
        match op.step(events[0]) {
            StepView::Finished(result) => Run {
                answered: seq![op.request()],
                end: End::Finished(result),
            },
            StepView::Continue { state, .. } => run(state, events.drop_first()).after(
                seq![op.request()],
            ),
        }
    }
}

/// An operation answers no more requests than it is given events.
pub proof fn run_length<E, O: Operation<E>>(op: O, events: Seq<EventView<E>>)
    ensures
        run(op, events).answered.len() <= events.len(),
        run(op, events).end is Pending ==> run(op, events).answered.len() == events.len(),
    decreases events.len(),
{
    if events.len() > 0 {
        match op.step(events[0]) {
            StepView::Finished(_) => {},
            StepView::Continue { state, .. } => {
                run_length(state, events.drop_first());
            },
        }
    }
}

/// A run can be cut in two: where the first part leaves the operation
/// pending, the whole run is the first part followed by the run of the
/// second part from that state; where it ends the operation, the second part
/// is not looked at.
pub proof fn run_split<E, O: Operation<E>>(
    op: O,
    first: Seq<EventView<E>>,
    second: Seq<EventView<E>>,
)
    ensures
        run(op, first + second) == match run(op, first).end {
            End::Pending(state) => run(state, second).after(run(op, first).answered),
            End::Finished(_) => run(op, first),
        },
    decreases first.len(),
{
    if first.len() == 0 {
        assert(first + second =~= second);
        assert(run(op, second).after(seq![]).answered =~= run(op, second).answered);
    } else {
        let all = first + second;
        assert(all[0] == first[0]);
        assert(all.drop_first() =~= first.drop_first() + second);
        match op.step(first[0]) {
            StepView::Finished(_) => {},
            StepView::Continue { state, .. } => {
                run_split(state, first.drop_first(), second);
                let head = seq![op.request()];
                match run(state, first.drop_first()).end {
                    End::Pending(then) => {
                        let middle = run(state, first.drop_first()).answered;
                        let rest = run(then, second);
                        assert(rest.after(middle).after(head).answered =~= rest.after(
                            run(op, first).answered,
                        ).answered);
                    },
                    End::Finished(_) => {},
                }
            },
        }
    }
}

/// Whether each of `events` answers the request that is outstanding when it
/// is reported, as far as the operation goes.
pub open spec fn answering<E, O: Operation<E>>(op: O, events: Seq<EventView<E>>) -> bool
    decreases events.len(),
{
    events.len() == 0 || (op.request().answered_by(events[0]) && match op.step(events[0]) {
        StepView::Finished(_) => true,
        StepView::Continue { state, .. } => answering(state, events.drop_first()),
    })
}

/// No operation goes on for ever: once it has been given as many answers as
/// [`Operation::remaining`] allows, it is over, whatever the answers were.
pub proof fn run_ends<E, O: Operation<E>>(op: O, events: Seq<EventView<E>>)
    requires
        answering(op, events),
        events.len() >= op.remaining(),
    ensures
        run(op, events).end is Finished,
        run(op, events).answered.len() <= op.remaining(),
    decreases events.len(),
{
    if events.len() == 0 {
        let unused: EventView<E> = arbitrary();
        op.keeps_to(unused);
    } else {
        op.keeps_to(events[0]);
        match op.step(events[0]) {
            StepView::Finished(_) => {},
            StepView::Continue { state, .. } => {
                run_ends(state, events.drop_first());
            },
        }
    }
}

} // verus!
