//! Forcing the chip idle.
//!
//! One idle command, whatever the chip is doing: it aborts a transmission or
//! reception that was started behind the driver's back and leaves the chip
//! in a known state.

use crate::driver::{Ready, DW3000};
use crate::error::Error;
use crate::ll::{fast_command, TransactionView};
use crate::machine::{
    run, End, Event, EventView, Operation, Request, RequestView, Run, Step, StepView,
};
use crate::registers::CMD_TXRXOFF;
use vstd::prelude::*;

verus! {

/// The idle command is outstanding.
#[derive(Clone, Copy, Debug, PartialEq, Eq)]
pub struct Idling;

impl Idling {
    /// The request that is outstanding: the idle command.
    pub open spec fn asks(self) -> RequestView {
        RequestView::Transact(TransactionView::command(CMD_TXRXOFF))
    }

    /// The step that leaves the command outstanding.
    pub open spec fn go<E>(self) -> StepView<Idling, (), E> {
        StepView::Continue { state: self, request: self.asks() }
    }

    /// The request that is outstanding: the idle command.
    pub fn outstanding(&self) -> (request: Request<'static>)
        ensures
            request@ == self.asks(),
    {
        Request::Transact(fast_command(CMD_TXRXOFF))
    }
}

impl<E> Operation<E> for Idling {
    type Output = ();

    open spec fn request(self) -> RequestView {
        self.asks()
    }

    open spec fn step(self, event: EventView<E>) -> StepView<Idling, (), E> {
        match event {
            EventView::Done => StepView::Finished(Ok(())),
            EventView::Failed(error) => StepView::Finished(Err(Error::Spi(error))),
            _ => self.go(),
        }
    }

    open spec fn remaining(self) -> nat {
        1
    }

    proof fn keeps_to(self, event: EventView<E>) {
    }
}

impl<SPI> DW3000<SPI, Ready> {
    /// Begins forcing the chip idle. The caller carries out the request and
    /// reports what happened to [`DW3000::resume_idle`].
    pub fn force_idle(&mut self) -> (begun: (Idling, Request<'static>))
        ensures
            final(self)@ == old(self)@,
            begun.1@ == begun.0.asks(),
    {
        (Idling, Idling.outstanding())
    }

    /// Ends forcing the chip idle: with success when the command went out,
    /// with the transport's failure, unchanged, when it did not.
    pub fn resume_idle<E>(&mut self, state: Idling, event: Event<E>) -> (step: Step<
        'static,
        Idling,
        (),
        E,
    >)
        ensures
            final(self)@ == old(self)@,
            step@ == state.step(event@),
    {
        match event {
            Event::Done => Step::Finished(Ok(())),
            Event::Failed(error) => Step::Finished(Err(Error::Spi(error))),
            _ => Step::Continue { state, request: state.outstanding() },
        }
    }
}

/// Forcing the chip idle issues the idle command exactly once: where the
/// transport carries it out, the operation ends with success and no other
/// request.
pub proof fn idle_once<E>()
    ensures
        run::<E, _>(Idling, seq![EventView::Done]) == (Run::<Idling, (), E> {
            answered: seq![RequestView::Transact(TransactionView::command(CMD_TXRXOFF))],
            end: End::Finished(Ok(())),
        }),
{
    reveal_with_fuel(run, 2);
}

/// Forcing the chip idle hands a failure of the transport on unchanged,
/// after the one idle command and no other request.
pub proof fn idle_fails<E>(error: E)
    ensures
        run(Idling, seq![EventView::Failed(error)]) == (Run::<Idling, (), E> {
            answered: seq![RequestView::Transact(TransactionView::command(CMD_TXRXOFF))],
            end: End::Finished(Err(Error::Spi(error))),
        }),
{
    reveal_with_fuel(run, 2);
}

} // verus!
