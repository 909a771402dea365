//! Chip-select framing of a bus transaction.
//!
//! A device on a shared bus takes a transaction as a sequence of operations
//! between two edges of its chip-select line: low before the first
//! operation, high after the last. The line goes high again whether the
//! operations succeed or not, no operation runs after one has failed, and
//! the transaction comes to the first failure, or to success.
//!
//! Nothing here touches a pin or a bus. A transaction hands out one
//! [`SelectRequest`] after the other, and the caller reports how each went.

use vstd::prelude::*;

verus! {

/// What the caller is asked to do next within a transaction.
#[derive(Clone, Copy, Debug, PartialEq, Eq)]
pub enum SelectRequest {
    /// Drive the chip-select line low.
    Assert,
    /// Run the operation at `index` on the bus.
    Operate { index: usize },
    /// Drive the chip-select line high.
    Release,
}

/// Which request of a transaction is outstanding.
#[derive(Debug, PartialEq, Eq)]
pub enum SelectStage<E> {
    /// The line is being driven low.
    Assert,
    /// The operation at `index` is running.
    Operate { index: usize },
    /// The line is being driven high; `result` is what came of the
    /// transaction so far.
    Release { result: Result<(), E> },
}

/// A transaction in flight: the number of its operations and the outstanding
/// request.
#[derive(Debug, PartialEq, Eq)]
pub struct Selected<E> {
    pub count: usize,
    pub stage: SelectStage<E>,
}

/// How a transaction goes on after a request was carried out.
#[derive(Debug, PartialEq, Eq)]
pub enum SelectStep<E> {
    /// The transaction is in `state` and asks for `request`.
    Continue { state: Selected<E>, request: SelectRequest },
    /// The transaction is over.
    Finished(Result<(), E>),
}

impl<E> Selected<E> {
    /// The state in which a transaction of `count` operations starts.
    pub open spec fn start(count: usize) -> Selected<E> {
        Selected { count, stage: SelectStage::Assert }
    }

    /// The request that is outstanding in this state.
    pub open spec fn asks(self) -> SelectRequest {
        match self.stage {
            SelectStage::Assert => SelectRequest::Assert,
            SelectStage::Operate { index } => SelectRequest::Operate { index },
            SelectStage::Release { .. } => SelectRequest::Release,
        }
    }

    /// The step that leaves the transaction in this state.
    pub open spec fn go(self) -> SelectStep<E> {
        SelectStep::Continue { state: self, request: self.asks() }
    }

    /// What follows the operations before `index`, all of which went well:
    /// the operation at `index`, or the release of the line where there is
    /// none.
    pub open spec fn before(count: usize, index: int) -> Selected<E> {
        if index < count {
            Selected { count, stage: SelectStage::Operate { index: index as usize } }
        } else {
            Selected::releasing(count, Ok(()))
        }
    }

    /// The state in which the line is released after the transaction came
    /// to `result`.
    pub open spec fn releasing(count: usize, result: Result<(), E>) -> Selected<E> {
        Selected { count, stage: SelectStage::Release { result } }
    }

    /// What follows when the outstanding request went as `outcome` says.
    /// After a failure the line is released at once. The release ends the
    /// transaction with the first failure, its own included, or with
    /// success.
    pub open spec fn step(self, outcome: Result<(), E>) -> SelectStep<E> {
        match (self.stage, outcome) {
            (SelectStage::Assert, Ok(_)) => Selected::before(self.count, 0).go(),
            (SelectStage::Operate { index }, Ok(_)) => Selected::before(self.count, index + 1).go(),
            (SelectStage::Assert, Err(error)) | (SelectStage::Operate { .. }, Err(error)) => {
                Selected::releasing(self.count, Err(error)).go()
            },
            (SelectStage::Release { result: Err(first) }, _) => SelectStep::Finished(Err(first)),
            (SelectStage::Release { result: Ok(_) }, _) => SelectStep::Finished(outcome),
        }
    }

    /// Begins a transaction of `count` operations.
    pub fn begin(count: usize) -> (begun: (Selected<E>, SelectRequest))
        ensures
            begun.0 == Selected::<E>::start(count),
            begun.1 == begun.0.asks(),
    {
        (Selected { count, stage: SelectStage::Assert }, SelectRequest::Assert)
    }

    /// Goes on to the operation at `index`, or to the release of the line
    /// where there is none.
    fn proceed(count: usize, index: usize) -> (step: SelectStep<E>)
        ensures
            step == Selected::<E>::before(count, index as int).go(),
    {
        if index < count {
            SelectStep::Continue {
                state: Selected { count, stage: SelectStage::Operate { index } },
                request: SelectRequest::Operate { index },
            }
        } else {
            Selected::release(count, Ok(()))
        }
    }

    /// Goes on to the release of the line.
    fn release(count: usize, result: Result<(), E>) -> (step: SelectStep<E>)
        ensures
            step == Selected::releasing(count, result).go(),
    {
        SelectStep::Continue {
            state: Selected { count, stage: SelectStage::Release { result } },
            request: SelectRequest::Release,
        }
    }

    /// Takes the transaction one request further: `outcome` says how the
    /// outstanding request went.
    pub fn resume(self, outcome: Result<(), E>) -> (step: SelectStep<E>)
        ensures
            step == self.step(outcome),
    {
        match self.stage {
            SelectStage::Assert => match outcome {
                Ok(_) => Selected::proceed(self.count, 0),
                Err(error) => Selected::release(self.count, Err(error)),
            },
            SelectStage::Operate { index } => match outcome {
                Ok(_) => if index < self.count {
                    Selected::proceed(self.count, index + 1)
                } else {
                    Selected::release(self.count, Ok(()))
                },
                Err(error) => Selected::release(self.count, Err(error)),
            },
            SelectStage::Release { result } => match result {
                Ok(_) => SelectStep::Finished(outcome),
                Err(first) => SelectStep::Finished(Err(first)),
            },
        }
    }
}

/// What a transaction did over a sequence of outcomes: the requests that
/// were carried out, in order, and its result if it came to an end.
pub struct SelectRun<E> {
    pub answered: Seq<SelectRequest>,
    pub result: Option<Result<(), E>>,
}

impl<E> SelectRun<E> {
    /// This run, preceded by requests that were carried out before it.
    pub open spec fn after(self, earlier: Seq<SelectRequest>) -> SelectRun<E> {
        SelectRun { answered: earlier + self.answered, result: self.result }
    }
}

/// Runs a transaction from `state` against `outcomes`, one outcome per
/// request. Outcomes that come after the transaction is over are not looked
/// at.
pub open spec fn select_run<E>(state: Selected<E>, outcomes: Seq<Result<(), E>>) -> SelectRun<E>
    decreases outcomes.len(),
{
    if outcomes.len() == 0 {
        SelectRun { answered: seq![], result: None }
    } else {
        match state.step(outcomes[0]) {
            SelectStep::Finished(result) => SelectRun {
                answered: seq![state.asks()],
                result: Some(result),
            },
            SelectStep::Continue { state: next, .. } => select_run(
                next,
                outcomes.drop_first(),
            ).after(seq![state.asks()]),
        }
    }
}

/// `count` requests that went well.
pub open spec fn successes<E>(count: nat) -> Seq<Result<(), E>> {
    Seq::new(count, |i: int| Ok(()))
}

/// The requests for the operations from `first` up to, not including,
/// `end`, in order.
pub open spec fn operations(first: int, end: int) -> Seq<SelectRequest> {
    Seq::new(
        (end - first) as nat,
        |i: int| SelectRequest::Operate { index: (first + i) as usize },
    )
}

/// Operations that go well follow one another in order.
proof fn select_operates<E>(count: usize, first: usize, done: nat, rest: Seq<Result<(), E>>)
    requires
        first + done <= count,
    ensures
        select_run(Selected::before(count, first as int), successes(done) + rest) == select_run(
            Selected::before(count, first + done),
            rest,
        ).after(operations(first as int, first + done)),
    decreases done,
{
    let state = Selected::<E>::before(count, first as int);
    let outcomes = successes::<E>(done) + rest;
    let then = select_run(Selected::before(count, first + done), rest);
    if done == 0 {
        assert(outcomes =~= rest);
        assert(then.after(operations(first as int, first as int)).answered =~= then.answered);
    } else {
        assert(outcomes[0] == Ok::<(), E>(()));
        assert(outcomes.drop_first() =~= successes::<E>((done - 1) as nat) + rest);
        select_operates(count, (first + 1) as usize, (done - 1) as nat, rest);
        assert(then.after(operations(first + 1, first + done)).after(seq![state.asks()]).answered
            =~= then.after(operations(first as int, first + done)).answered);
    }
}

/// The transaction whose operations all go well: the line goes low, the
/// operations run in order, each once, the line goes high, and the
/// transaction comes to what the release came to.
pub proof fn select_completes<E>(count: usize, release: Result<(), E>)
    ensures
        select_run(Selected::start(count), successes(count as nat + 1) + seq![release]) == (
        SelectRun {
            answered: seq![SelectRequest::Assert] + operations(0, count as int) + seq![
                SelectRequest::Release,
            ],
            result: Some(release),
        }),
{
    let outcomes = successes::<E>(count as nat + 1) + seq![release];
    let last = Selected::<E>::before(count, count as int);
    let closing = select_run(last, seq![release]);
    assert(outcomes[0] == Ok::<(), E>(()));
    assert(outcomes.drop_first() =~= successes::<E>(count as nat) + seq![release]);
    select_operates(count, 0, count as nat, seq![release]);
    assert(closing == (SelectRun { answered: seq![SelectRequest::Release], result: Some(release) }))
        by {
        assert(closing.answered =~= seq![SelectRequest::Release]);
    }
    assert(closing.after(operations(0, count as int)).after(
        seq![SelectRequest::Assert],
    ).answered =~= seq![SelectRequest::Assert] + operations(0, count as int) + seq![
        SelectRequest::Release,
    ]);
}

/// The transaction in which an operation fails: after `done` operations
/// that went well, the operation at `done` fails with `error`. No operation
/// runs after it, the line still goes high, and the transaction comes to
/// `error`, whatever the release comes to.
pub proof fn select_aborts<E>(count: usize, done: usize, error: E, release: Result<(), E>)
    requires
        done < count,
    ensures
        select_run(
            Selected::start(count),
            successes(done as nat + 1) + seq![Err(error), release],
        ) == (SelectRun {
            answered: seq![SelectRequest::Assert] + operations(0, done + 1) + seq![
                SelectRequest::Release,
            ],
            result: Some(Err(error)),
        }),
{
    let rest = seq![Err::<(), E>(error), release];
    let outcomes = successes::<E>(done as nat + 1) + rest;
    let failing = Selected::<E>::before(count, done as int);
    let releasing = Selected::releasing(count, Err::<(), E>(error));
    let closing = select_run(failing, rest);
    assert(outcomes[0] == Ok::<(), E>(()));
    assert(outcomes.drop_first() =~= successes::<E>(done as nat) + rest);
    select_operates(count, 0, done as nat, rest);
    assert(closing == (SelectRun {
        answered: seq![SelectRequest::Operate { index: done }, SelectRequest::Release],
        result: Some(Err(error)),
    })) by {
        assert(rest.drop_first() =~= seq![release]);
        assert(select_run(releasing, seq![release]).answered =~= seq![SelectRequest::Release]);
        assert(closing.answered =~= seq![
            SelectRequest::Operate { index: done },
            SelectRequest::Release,
        ]);
    }
    assert(closing.after(operations(0, done as int)).after(seq![SelectRequest::Assert]).answered
        =~= seq![SelectRequest::Assert] + operations(0, done + 1) + seq![SelectRequest::Release]);
}

/// The transaction whose line cannot be driven low: no operation runs, the
/// release is still asked for, and the transaction comes to that failure.
pub proof fn select_refused<E>(count: usize, error: E, release: Result<(), E>)
    ensures
        select_run(Selected::start(count), seq![Err(error), release]) == (SelectRun {
            answered: seq![SelectRequest::Assert, SelectRequest::Release],
            result: Some(Err(error)),
        }),
{
    let outcomes = seq![Err::<(), E>(error), release];
    let releasing = Selected::releasing(count, Err::<(), E>(error));
    assert(outcomes.drop_first() =~= seq![release]);
    assert(select_run(releasing, seq![release]).answered =~= seq![SelectRequest::Release]);
    assert(select_run(Selected::start(count), outcomes).answered =~= seq![
        SelectRequest::Assert,
        SelectRequest::Release,
    ]);
}

} // verus!
