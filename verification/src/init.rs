//! Bringing the chip from power-up to ready.
//!
//! The chip is given 5 ms to stabilise, forced idle, given 1 ms more, and
//! asked for its device identifier. An identifier of all zeros or all ones
//! shows that nothing answers on the bus and ends the initialisation with an
//! error. Otherwise the pending interrupt flags are cleared and the handle
//! becomes ready. The uninitialised handle is consumed either way.

use crate::driver::{HandleView, Ready, Uninitialized, DW3000};
use crate::error::Error;
use crate::ll::{fast_command, read_reg_u32, u32_from_le_bytes, TransactionView};
use crate::machine::{
    answering, run, run_ends, run_split, End, Event, EventView, Operation, Request, RequestView,
    Run, Step, StepView,
};
use crate::registers::{dev_id, CMD_CLR_IRQS, CMD_TXRXOFF};
use vstd::prelude::*;

verus! {

/// How long the chip is left alone after power-up, in milliseconds.
pub const POWER_UP_MS: u32 = 5;

/// How long the chip is left alone after it was forced idle, in
/// milliseconds.
pub const SETTLE_MS: u32 = 1;

/// Whether a device identifier shows a chip that answers: neither all zeros
/// nor all ones.
pub open spec fn plausible_device_id(id: u32) -> bool {
    id != 0x0000_0000 && id != 0xFFFF_FFFF
}

/// The state of a handle that is being initialised: which request is
/// outstanding.
#[derive(Clone, Copy, Debug, PartialEq, Eq)]
pub enum Initializing {
    /// The wait after power-up.
    PowerUp,
    /// The command that forces the chip idle.
    Idle,
    /// The wait after the idle command.
    Settle,
    /// The read of the device identifier.
    Identify,
    /// The command that clears the interrupt flags; the chip identified
    /// itself as `dev_id`.
    ClearIrqs { dev_id: u32 },
}

impl Initializing {
    /// The request that is outstanding in this state.
    pub open spec fn asks(self) -> RequestView {
        match self {
            Initializing::PowerUp => RequestView::Delay { ms: POWER_UP_MS },
            Initializing::Idle => RequestView::Transact(TransactionView::command(CMD_TXRXOFF)),
            Initializing::Settle => RequestView::Delay { ms: SETTLE_MS },
            Initializing::Identify => RequestView::Transact(TransactionView::read_word(dev_id())),
            Initializing::ClearIrqs { .. } => RequestView::Transact(
                TransactionView::command(CMD_CLR_IRQS),
            ),
        }
    }

    /// The step that leaves the initialisation in this state.
    pub open spec fn go<E>(self) -> StepView<Initializing, (), E> {
        StepView::Continue { state: self, request: self.asks() }
    }

    /// The request that is outstanding in this state.
    pub fn outstanding(&self) -> (request: Request<'static>)
        ensures
            request@ == self.asks(),
    {
        match self {
            Initializing::PowerUp => Request::Delay { ms: POWER_UP_MS },
            Initializing::Idle => Request::Transact(fast_command(CMD_TXRXOFF)),
            Initializing::Settle => Request::Delay { ms: SETTLE_MS },
            Initializing::Identify => Request::Transact(read_reg_u32(dev_id())),
            Initializing::ClearIrqs { .. } => Request::Transact(fast_command(CMD_CLR_IRQS)),
        }
    }
}

impl<E> Operation<E> for Initializing {
    type Output = ();

    open spec fn request(self) -> RequestView {
        self.asks()
    }

    open spec fn step(self, event: EventView<E>) -> StepView<Initializing, (), E> {
        match (self, event) {
            (Initializing::PowerUp, EventView::Elapsed) => Initializing::Idle.go(),
            (Initializing::Idle, EventView::Done) => Initializing::Settle.go(),
            (Initializing::Settle, EventView::Elapsed) => Initializing::Identify.go(),
            (Initializing::Identify, EventView::Word(id)) => if plausible_device_id(id) {
                Initializing::ClearIrqs { dev_id: id }.go()
            } else {
                StepView::Finished(Err(Error::UnexpectedDeviceId(id)))
            },
            (Initializing::ClearIrqs { .. }, EventView::Done) => StepView::Finished(Ok(())),
            (Initializing::Idle, EventView::Failed(error))
            | (Initializing::Identify, EventView::Failed(error))
            | (Initializing::ClearIrqs { .. }, EventView::Failed(error)) => StepView::Finished(
                Err(Error::Spi(error)),
            ),
            _ => self.go(),
        }
    }

    open spec fn remaining(self) -> nat {
        match self {
            Initializing::PowerUp => 5,
            Initializing::Idle => 4,
            Initializing::Settle => 3,
            Initializing::Identify => 2,
            Initializing::ClearIrqs { .. } => 1,
        }
    }

    proof fn keeps_to(self, event: EventView<E>) {
    }
}

impl<SPI> DW3000<SPI, Uninitialized> {
    /// Begins the initialisation. The caller carries out the request and
    /// reports what happened to [`DW3000::resume_init`], until that yields
    /// a ready handle or an error.
    pub fn init(self) -> (begun: (DW3000<SPI, Initializing>, Request<'static>))
        ensures
            begun.0@ == (HandleView { transport: self@.transport, state: Initializing::PowerUp }),
            begun.1@ == Initializing::PowerUp.asks(),
    {
        let state = Initializing::PowerUp;
        let request = state.outstanding();
        (self.into_state(state), request)
    }
}

impl<SPI> DW3000<SPI, Initializing> {
    /// Leaves the initialisation in `next`, asking for what that state asks
    /// for.
    fn proceed<E>(self, next: Initializing) -> (step: Step<
        'static,
        DW3000<SPI, Initializing>,
        DW3000<SPI, Ready>,
        E,
    >)
        ensures
            step matches Step::Continue { state, request } && state@ == (HandleView {
                transport: self@.transport,
                state: next,
            }) && request@ == next.asks(),
    {
        let request = next.outstanding();
        Step::Continue { state: self.into_state(next), request }
    }

    /// Takes the initialisation one event further.
    ///
    /// The handle is consumed. While the initialisation goes on it comes
    /// back in the next state, with the same transport. It comes back ready
    /// exactly when the chip has identified itself plausibly and the
    /// interrupt flags have been cleared. On an error it does not come back:
    /// a failure of the transport is handed on unchanged, an identifier of
    /// all zeros or all ones is reported with its value.
    pub fn resume_init<E>(self, event: Event<E>) -> (step: Step<
        'static,
        DW3000<SPI, Initializing>,
        DW3000<SPI, Ready>,
        E,
    >)
        ensures
            match self@.state.step(event@) {
                StepView::Continue { state: next, request: asked } => step matches Step::Continue {
                    state,
                    request,
                } && state@ == (HandleView { transport: self@.transport, state: next })
                    && request@ == asked,
                StepView::Finished(Ok(_)) => step matches Step::Finished(Ok(ready)) && ready@ == (
                HandleView { transport: self@.transport, state: Ready }),
                StepView::Finished(Err(error)) => step matches Step::Finished(Err(failure))
                    && failure == error,
            },
    {
        let stage: Initializing = *self.state();
        match event {
            Event::Elapsed => match stage {
                Initializing::PowerUp => self.proceed(Initializing::Idle),
                Initializing::Settle => self.proceed(Initializing::Identify),
                _ => self.proceed(stage),
            },
            Event::Done => match stage {
                Initializing::Idle => self.proceed(Initializing::Settle),
                Initializing::ClearIrqs { .. } => Step::Finished(Ok(self.into_state(Ready))),
                _ => self.proceed(stage),
            },
            Event::Word(bytes) => match stage {
                Initializing::Identify => {
                    let id: u32 = u32_from_le_bytes(bytes);
                    if id == 0x0000_0000 || id == 0xFFFF_FFFF {
                        Step::Finished(Err(Error::UnexpectedDeviceId(id)))
                    } else {
                        self.proceed(Initializing::ClearIrqs { dev_id: id })
                    }
                },
                _ => self.proceed(stage),
            },
            Event::Failed(error) => match stage {
                Initializing::Idle | Initializing::Identify | Initializing::ClearIrqs { .. } => {
                    Step::Finished(Err(Error::Spi(error)))
                },
                _ => self.proceed(stage),
            },
        }
    }
}

/// The four requests with which every initialisation begins: the wait after
/// power-up, the idle command, the wait after it, the read of the device
/// identifier.
pub open spec fn init_preamble() -> Seq<RequestView> {
    seq![
        RequestView::Delay { ms: POWER_UP_MS },
        RequestView::Transact(TransactionView::command(CMD_TXRXOFF)),
        RequestView::Delay { ms: SETTLE_MS },
        RequestView::Transact(TransactionView::read_word(dev_id())),
    ]
}

/// An initialisation starts with the wait, the idle command and the wait
/// after it, and then asks for the device identifier.
proof fn init_opening<E>()
    ensures
        run::<E, _>(
            Initializing::PowerUp,
            seq![EventView::Elapsed, EventView::Done, EventView::Elapsed],
        ) == (Run::<Initializing, (), E> {
            answered: init_preamble().drop_last(),
            end: End::Pending(Initializing::Identify),
        }),
{
    let one = seq![EventView::<E>::Elapsed];
    let two = seq![EventView::<E>::Done, EventView::Elapsed];
    let three = seq![EventView::<E>::Elapsed, EventView::Done, EventView::Elapsed];
    reveal_with_fuel(run, 2);
    assert(one.drop_first() =~= Seq::<EventView<E>>::empty());
    assert(two.drop_first() =~= one);
    assert(three.drop_first() =~= two);
    assert(run(Initializing::Settle, one).answered =~= seq![Initializing::Settle.asks()]);
    assert(run(Initializing::Idle, two).answered =~= seq![
        Initializing::Idle.asks(),
        Initializing::Settle.asks(),
    ]);
    assert(run(Initializing::PowerUp, three).answered =~= init_preamble().drop_last());
}

/// An initialisation succeeds when the chip identifies itself plausibly.
/// Against a transport that never fails and reports the identifier `id`,
/// neither all zeros nor all ones, the driver waits, forces the chip idle,
/// waits, reads the identifier, clears the interrupt flags, and is ready.
pub proof fn init_succeeds<E>(id: u32)
    requires
        plausible_device_id(id),
    ensures
        run::<E, _>(
            Initializing::PowerUp,
            seq![
                EventView::Elapsed,
                EventView::Done,
                EventView::Elapsed,
                EventView::Word(id),
                EventView::Done,
            ],
        ) == (Run::<Initializing, (), E> {
            answered: init_preamble() + seq![
                RequestView::Transact(TransactionView::command(CMD_CLR_IRQS)),
            ],
            end: End::Finished(Ok(())),
        }),
{
    let opening = seq![EventView::<E>::Elapsed, EventView::Done, EventView::Elapsed];
    let one = seq![EventView::<E>::Done];
    let closing = seq![EventView::<E>::Word(id), EventView::Done];
    let clear = Initializing::ClearIrqs { dev_id: id };
    init_opening::<E>();
    assert(one.drop_first() =~= Seq::<EventView<E>>::empty());
    assert(closing.drop_first() =~= one);
    assert(run(clear, one).answered =~= seq![clear.asks()]);
    assert(run(Initializing::Identify, closing).answered =~= seq![
        Initializing::Identify.asks(),
        clear.asks(),
    ]);
    run_split(Initializing::PowerUp, opening, closing);
    assert(opening + closing =~= seq![
        EventView::<E>::Elapsed,
        EventView::Done,
        EventView::Elapsed,
        EventView::Word(id),
        EventView::Done,
    ]);
    assert(init_preamble().drop_last() + seq![Initializing::Identify.asks(), clear.asks()]
        =~= init_preamble() + seq![RequestView::Transact(TransactionView::command(CMD_CLR_IRQS))]);
}

/// An initialisation is given up when nothing answers on the bus. Against a
/// transport that never fails and reports an identifier of all zeros or all
/// ones, the driver ends with that identifier as the error right after
/// reading it: it clears no interrupt flags and never becomes ready.
pub proof fn init_rejects<E>(id: u32)
    requires
        !plausible_device_id(id),
    ensures
        run::<E, _>(
            Initializing::PowerUp,
            seq![EventView::Elapsed, EventView::Done, EventView::Elapsed, EventView::Word(id)],
        ) == (Run::<Initializing, (), E> {
            answered: init_preamble(),
            end: End::Finished(Err(Error::UnexpectedDeviceId(id))),
        }),
{
    let opening = seq![EventView::<E>::Elapsed, EventView::Done, EventView::Elapsed];
    let closing = seq![EventView::<E>::Word(id)];
    init_opening::<E>();
    assert(closing.drop_first() =~= Seq::<EventView<E>>::empty());
    assert(run(Initializing::Identify, closing).answered =~= seq![Initializing::Identify.asks()]);
    run_split(Initializing::PowerUp, opening, closing);
    assert(opening + closing =~= seq![
        EventView::<E>::Elapsed,
        EventView::Done,
        EventView::Elapsed,
        EventView::Word(id),
    ]);
    assert(init_preamble().drop_last() + seq![Initializing::Identify.asks()] =~= init_preamble());
}

/// A failure of the transport ends an initialisation at once, in every
/// state in which a transaction is outstanding, with that failure unchanged.
pub proof fn init_fails<E>(state: Initializing, error: E)
    requires
        state != Initializing::PowerUp,
        state != Initializing::Settle,
    ensures
        run(state, seq![EventView::Failed(error)]) == (Run::<Initializing, (), E> {
            answered: seq![state.asks()],
            end: End::Finished(Err(Error::Spi(error))),
        }),
{
    reveal_with_fuel(run, 2);
}

/// An initialisation fails in two ways only: with the failure that the
/// transport has just reported, unchanged, or with the device identifier
/// that was just read, where that is all zeros or all ones. It never times
/// out.
pub proof fn init_errors<E>(state: Initializing, event: EventView<E>)
    ensures
        match state.step(event) {
            StepView::Finished(Err(Error::Spi(cause))) => event == EventView::Failed(cause),
            StepView::Finished(Err(Error::UnexpectedDeviceId(id))) => state
                == Initializing::Identify && event == EventView::<E>::Word(id)
                && !plausible_device_id(id),
            StepView::Finished(Err(Error::Timeout)) => false,
            _ => true,
        },
{
}

/// An initialisation never goes on for ever: whatever the transport answers,
/// it is over after at most five requests.
pub proof fn init_ends<E>(events: Seq<EventView<E>>)
    requires
        answering(Initializing::PowerUp, events),
        events.len() >= 5,
    ensures
        run(Initializing::PowerUp, events).end is Finished,
        run(Initializing::PowerUp, events).answered.len() <= 5,
{
    run_ends(Initializing::PowerUp, events);
}

} // verus!
