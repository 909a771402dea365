//! Transmitting a frame.
//!
//! The frame is written into the transmit buffer, its length (with the two
//! bytes of the frame check sequence that the chip appends) into the frame
//! control register, and transmission is started. The status register is
//! then read until it shows the frame-sent flag, which is cleared by writing
//! it back, or until the poll budget is used up.

use crate::driver::{Ready, DW3000};
use crate::error::Error;
use crate::ll::{
    fast_command, read_reg_u32, u32_from_le_bytes, write_reg, write_reg_u32, TransactionView,
};
use crate::machine::{
    answering, run, run_ends, run_split, End, Event, EventView, Operation, Request, RequestView,
    Run, Step, StepView,
};
use crate::registers::{sys_status, tx_buffer, tx_fctrl, CMD_TX, SYS_STATUS_TXFRS};
use vstd::arithmetic::div_mod::lemma_add_mod_noop;
use vstd::prelude::*;

verus! {

/// How many times the status register is read before a transmission is
/// given up.
pub const TX_POLLS: u32 = 10_000;

/// The value of the frame control register for a payload of `len` bytes: the
/// frame length, which counts the two bytes of the frame check sequence, in
/// ten bits.
pub open spec fn frame_control(len: nat) -> u32 {
    ((len + 2) % 1024) as u32
}

/// The frame control value depends on the low ten bits of the length only.
pub proof fn frame_control_of_low_bits(len: nat)
    ensures
        frame_control(len) == (len % 1024 + 2) % 1024,
        frame_control(len) < 1024,
{
    lemma_add_mod_noop(len as int, 2, 1024);
}

/// Which request of a transmission is outstanding.
#[derive(Clone, Copy, Debug, PartialEq, Eq)]
pub enum SendStage {
    /// The write of the frame into the transmit buffer.
    Payload,
    /// The write of the frame control register.
    FrameControl,
    /// The start-transmit command.
    Start,
    /// A read of the status register.
    Poll,
    /// The write that clears the frame-sent flag.
    Clear,
}

/// A transmission in flight: the frame, the outstanding request, and how
/// many reads of the status register are left, the outstanding one included.
#[derive(Clone, Copy, Debug, PartialEq, Eq)]
pub struct Sending<'a> {
    pub data: &'a [u8],
    pub stage: SendStage,
    pub polls_left: u32,
}

impl<'a> Sending<'a> {
    /// The state in which a transmission of `data` starts.
    pub open spec fn start(data: &'a [u8]) -> Sending<'a> {
        Sending { data, stage: SendStage::Payload, polls_left: TX_POLLS }
    }

    /// This transmission at another stage.
    pub open spec fn at(self, stage: SendStage) -> Sending<'a> {
        Sending { data: self.data, stage, polls_left: self.polls_left }
    }

    /// The request that is outstanding in this state.
    pub open spec fn asks(self) -> RequestView {
        RequestView::Transact(
            match self.stage {
                SendStage::Payload => TransactionView::write(tx_buffer(), self.data@),
                SendStage::FrameControl => TransactionView::write_word(
                    tx_fctrl(),
                    frame_control(self.data@.len()),
                ),
                SendStage::Start => TransactionView::command(CMD_TX),
                SendStage::Poll => TransactionView::read_word(sys_status()),
                SendStage::Clear => TransactionView::write_word(sys_status(), SYS_STATUS_TXFRS),
            },
        )
    }

    /// The step that leaves the transmission in this state.
    pub open spec fn go<E>(self) -> StepView<Sending<'a>, (), E> {
        StepView::Continue { state: self, request: self.asks() }
    }

    /// What follows when `left` reads of the status register remain: the
    /// next read, or the end of the transmission by timeout.
    pub open spec fn poll<E>(self, left: int) -> StepView<Sending<'a>, (), E> {
        if left > 0 {
            Sending { data: self.data, stage: SendStage::Poll, polls_left: left as u32 }.go()
        } else {
            StepView::Finished(Err(Error::Timeout))
        }
    }

    /// The request that is outstanding in this state.
    pub fn outstanding(&self) -> (request: Request<'a>)
        ensures
            request@ == self.asks(),
    {
        match self.stage {
            SendStage::Payload => Request::Transact(write_reg(tx_buffer(), self.data)),
            SendStage::FrameControl => {
                let len: usize = self.data.len();
                let low: u32 = (len % 1024) as u32;
                let field: u32 = (low + 2) % 1024;
                proof {
                    frame_control_of_low_bits(len as nat);
                }
                Request::Transact(write_reg_u32(tx_fctrl(), field))
            },
            SendStage::Start => Request::Transact(fast_command(CMD_TX)),
            SendStage::Poll => Request::Transact(read_reg_u32(sys_status())),
            SendStage::Clear => Request::Transact(write_reg_u32(sys_status(), SYS_STATUS_TXFRS)),
        }
    }

    /// Leaves the transmission in `next`, asking for what that state asks
    /// for.
    fn proceed<E>(next: Sending<'a>) -> (step: Step<'a, Sending<'a>, (), E>)
        ensures
            step@ == next.go::<E>(),
    {
        Step::Continue { state: next, request: next.outstanding() }
    }
}

impl<'a, E> Operation<E> for Sending<'a> {
    type Output = ();

    open spec fn request(self) -> RequestView {
        self.asks()
    }

    open spec fn step(self, event: EventView<E>) -> StepView<Sending<'a>, (), E> {
        match (self.stage, event) {
            (_, EventView::Failed(error)) => StepView::Finished(Err(Error::Spi(error))),
            (SendStage::Payload, EventView::Done) => self.at(SendStage::FrameControl).go(),
            (SendStage::FrameControl, EventView::Done) => self.at(SendStage::Start).go(),
            (SendStage::Start, EventView::Done) => self.poll(self.polls_left as int),
            (SendStage::Poll, EventView::Word(status)) => if status & SYS_STATUS_TXFRS != 0 {
                self.at(SendStage::Clear).go()
            } else {
                self.poll(self.polls_left - 1)
            },
            (SendStage::Clear, EventView::Done) => StepView::Finished(Ok(())),
            _ => self.go(),
        }
    }

    open spec fn remaining(self) -> nat {
        match self.stage {
            SendStage::Payload => self.polls_left as nat + 4,
            SendStage::FrameControl => self.polls_left as nat + 3,
            SendStage::Start => self.polls_left as nat + 2,
            SendStage::Poll => if self.polls_left > 0 {
                self.polls_left as nat + 1
            } else {
                2
            },
            SendStage::Clear => 1,
        }
    }

    proof fn keeps_to(self, event: EventView<E>) {
    }
}

impl<SPI> DW3000<SPI, Ready> {
    /// Begins the transmission of `data`. The caller carries out the request
    /// and reports what happened to [`DW3000::resume_send`], until that
    /// yields the result.
    pub fn send<'a>(&mut self, data: &'a [u8]) -> (begun: (Sending<'a>, Request<'a>))
        ensures
            final(self)@ == old(self)@,
            begun.0 == Sending::start(data),
            begun.1@ == begun.0.asks(),
    {
        let state = Sending { data, stage: SendStage::Payload, polls_left: TX_POLLS };
        (state, state.outstanding())
    }

    /// Takes a transmission in `state` one event further.
    ///
    /// A failure of the transport ends it with that failure. The frame-sent
    /// flag in a status word leads to the write that clears exactly that
    /// flag, and the answer to that write ends the transmission with
    /// success. A status word without the flag leads to the next read, or to
    /// a timeout where none is left.
    pub fn resume_send<'a, E>(&mut self, state: Sending<'a>, event: Event<E>) -> (step: Step<
        'a,
        Sending<'a>,
        (),
        E,
    >)
        ensures
            final(self)@ == old(self)@,
            step@ == state.step(event@),
    {
        match event {
            Event::Failed(error) => Step::Finished(Err(Error::Spi(error))),
            Event::Done => match state.stage {
                SendStage::Payload => Sending::proceed(
                    Sending { stage: SendStage::FrameControl, ..state },
                ),
                SendStage::FrameControl => Sending::proceed(
                    Sending { stage: SendStage::Start, ..state },
                ),
                SendStage::Start => if state.polls_left > 0 {
                    Sending::proceed(Sending { stage: SendStage::Poll, ..state })
                } else {
                    Step::Finished(Err(Error::Timeout))
                },
                SendStage::Clear => Step::Finished(Ok(())),
                SendStage::Poll => Sending::proceed(state),
            },
            Event::Word(bytes) => match state.stage {
                SendStage::Poll => {
                    let status: u32 = u32_from_le_bytes(bytes);
                    if status & SYS_STATUS_TXFRS != 0 {
                        Sending::proceed(Sending { stage: SendStage::Clear, ..state })
                    } else if state.polls_left > 1 {
                        Sending::proceed(
                            Sending {
                                stage: SendStage::Poll,
                                polls_left: state.polls_left - 1,
                                ..state
                            },
                        )
                    } else {
                        Step::Finished(Err(Error::Timeout))
                    }
                },
                _ => Sending::proceed(state),
            },
            Event::Elapsed => Sending::proceed(state),
        }
    }
}

/// The events of as many reads of the status register as `statuses` is
/// long, each answered with the status word at its place.
pub open spec fn status_words<E>(statuses: Seq<u32>) -> Seq<EventView<E>> {
    Seq::new(statuses.len(), |i: int| EventView::Word(statuses[i]))
}

/// `count` reads of the status register.
pub open spec fn status_reads(count: nat) -> Seq<RequestView> {
    Seq::new(count, |i: int| RequestView::Transact(TransactionView::read_word(sys_status())))
}

/// The three requests with which every transmission of `data` begins: the
/// frame into the transmit buffer, its length into the frame control
/// register, the start-transmit command.
pub open spec fn send_preamble(data: Seq<u8>) -> Seq<RequestView> {
    seq![
        RequestView::Transact(TransactionView::write(tx_buffer(), data)),
        RequestView::Transact(TransactionView::write_word(tx_fctrl(), frame_control(data.len()))),
        RequestView::Transact(TransactionView::command(CMD_TX)),
    ]
}

/// Status words without the frame-sent flag, fewer than the reads that are
/// left, are each answered with the next read.
proof fn send_polls<E>(state: Sending, misses: Seq<u32>)
    requires
        state.stage == SendStage::Poll,
        misses.len() < state.polls_left,
        forall|i: int| 0 <= i < misses.len() ==> misses[i] & SYS_STATUS_TXFRS == 0,
    ensures
        run::<E, _>(state, status_words(misses)) == (Run::<Sending, (), E> {
            answered: status_reads(misses.len()),
            end: End::Pending(
                Sending {
                    data: state.data,
                    stage: SendStage::Poll,
                    polls_left: (state.polls_left - misses.len()) as u32,
                },
            ),
        }),
    decreases misses.len(),
{
    let events = status_words::<E>(misses);
    if misses.len() == 0 {
        assert(run(state, events).answered =~= status_reads(0));
    } else {
        let next = Sending {
            data: state.data,
            stage: SendStage::Poll,
            polls_left: (state.polls_left - 1) as u32,
        };
        assert(events[0] == EventView::<E>::Word(misses[0]));
        assert(state.step(events[0]) == next.go::<E>());
        assert(events.drop_first() =~= status_words::<E>(misses.drop_first()));
        send_polls::<E>(next, misses.drop_first());
        assert(seq![state.asks()] + status_reads((misses.len() - 1) as nat) =~= status_reads(
            misses.len(),
        ));
    }
}

/// A transmission starts with the frame, its length and the start command.
proof fn send_opening<E>(data: &[u8])
    ensures
        run::<E, _>(Sending::start(data), seq![EventView::Done, EventView::Done, EventView::Done])
            == (Run::<Sending, (), E> {
            answered: send_preamble(data@),
            end: End::Pending(Sending { data, stage: SendStage::Poll, polls_left: TX_POLLS }),
        }),
{
    let payload = Sending::start(data);
    let control = payload.at(SendStage::FrameControl);
    let start = payload.at(SendStage::Start);
    let one = seq![EventView::<E>::Done];
    let two = seq![EventView::<E>::Done, EventView::Done];
    let three = seq![EventView::<E>::Done, EventView::Done, EventView::Done];
    reveal_with_fuel(run, 2);
    assert(one.drop_first() =~= Seq::<EventView<E>>::empty());
    assert(two.drop_first() =~= one);
    assert(three.drop_first() =~= two);
    assert(run(start, one).answered =~= seq![start.asks()]);
    assert(run(control, two).answered =~= seq![control.asks(), start.asks()]);
    assert(run(payload, three).answered =~= send_preamble(data@));
}

/// A status word with the frame-sent flag leads to the write that clears the
/// flag, and that to success.
proof fn send_closing<E>(state: Sending, hit: u32)
    requires
        state.stage == SendStage::Poll,
        hit & SYS_STATUS_TXFRS != 0,
    ensures
        run::<E, _>(state, seq![EventView::Word(hit), EventView::Done]) == (Run::<Sending, (), E> {
            answered: seq![
                RequestView::Transact(TransactionView::read_word(sys_status())),
                RequestView::Transact(TransactionView::write_word(sys_status(), SYS_STATUS_TXFRS)),
            ],
            end: End::Finished(Ok(())),
        }),
{
    let clear = state.at(SendStage::Clear);
    let one = seq![EventView::<E>::Done];
    let two = seq![EventView::<E>::Word(hit), EventView::Done];
    assert(one.drop_first() =~= Seq::<EventView<E>>::empty());
    assert(two.drop_first() =~= one);
    assert(run(clear, one).answered =~= seq![clear.asks()]);
    assert(run(state, two).answered =~= seq![state.asks(), clear.asks()]);
}

/// A transmission succeeds when the frame-sent flag shows within the poll
/// budget. Against a transport that never fails and whose status words are
/// `misses`, all without the flag and fewer than [`TX_POLLS`], and then
/// `hit`, with the flag, the driver writes the frame, writes the frame
/// control register and starts transmission, reads the status register once
/// per status word, clears the flag by a write that carries exactly that
/// flag, and reports success.
pub proof fn send_succeeds<E>(data: &[u8], misses: Seq<u32>, hit: u32)
    requires
        misses.len() < TX_POLLS,
        forall|i: int| 0 <= i < misses.len() ==> misses[i] & SYS_STATUS_TXFRS == 0,
        hit & SYS_STATUS_TXFRS != 0,
    ensures
        run::<E, _>(
            Sending::start(data),
            seq![EventView::Done, EventView::Done, EventView::Done] + status_words(misses)
                + seq![EventView::Word(hit), EventView::Done],
        ) == (Run::<Sending, (), E> {
            answered: send_preamble(data@) + status_reads(misses.len() + 1) + seq![
                RequestView::Transact(
                    TransactionView::write_word(sys_status(), SYS_STATUS_TXFRS),
                ),
            ],
            end: End::Finished(Ok(())),
        }),
{
    let start = Sending::start(data);
    let opening = seq![EventView::<E>::Done, EventView::Done, EventView::Done];
    let polling = Sending { data, stage: SendStage::Poll, polls_left: TX_POLLS };
    let last = Sending {
        data,
        stage: SendStage::Poll,
        polls_left: (TX_POLLS - misses.len()) as u32,
    };
    let closing = seq![EventView::<E>::Word(hit), EventView::Done];
    let clear = seq![
        RequestView::Transact(TransactionView::write_word(sys_status(), SYS_STATUS_TXFRS)),
    ];
    send_opening::<E>(data);
    send_polls::<E>(polling, misses);
    send_closing::<E>(last, hit);
    run_split(polling, status_words::<E>(misses), closing);
    run_split(start, opening, status_words::<E>(misses) + closing);
    assert(opening + status_words::<E>(misses) + closing =~= opening + (status_words::<E>(misses)
        + closing));
    assert(status_reads(misses.len()) + (status_reads(1) + clear) =~= status_reads(
        misses.len() + 1,
    ) + clear);
    assert(run(last, closing).answered =~= status_reads(1) + clear);
    assert(send_preamble(data@) + (status_reads(misses.len() + 1) + clear) =~= send_preamble(data@)
        + status_reads(misses.len() + 1) + clear);
}

/// A transmission times out when the frame-sent flag never shows. Against a
/// transport that never fails and whose first [`TX_POLLS`] status words are
/// all without the flag, the driver reads the status register exactly
/// [`TX_POLLS`] times, writes nothing back, and reports a timeout.
pub proof fn send_times_out<E>(data: &[u8], misses: Seq<u32>)
    requires
        misses.len() == TX_POLLS,
        forall|i: int| 0 <= i < misses.len() ==> misses[i] & SYS_STATUS_TXFRS == 0,
    ensures
        run::<E, _>(
            Sending::start(data),
            seq![EventView::Done, EventView::Done, EventView::Done] + status_words(misses),
        ) == (Run::<Sending, (), E> {
            answered: send_preamble(data@) + status_reads(TX_POLLS as nat),
            end: End::Finished(Err(Error::Timeout)),
        }),
{
    let start = Sending::start(data);
    let opening = seq![EventView::<E>::Done, EventView::Done, EventView::Done];
    let polling = Sending { data, stage: SendStage::Poll, polls_left: TX_POLLS };
    let last = Sending { data, stage: SendStage::Poll, polls_left: 1 };
    let before = misses.drop_last();
    let closing = seq![EventView::<E>::Word(misses.last())];
    send_opening::<E>(data);
    send_polls::<E>(polling, before);
    assert(run(last, closing) == (Run::<Sending, (), E> {
        answered: status_reads(1),
        end: End::Finished(Err(Error::Timeout)),
    })) by {
        assert(closing.drop_first() =~= Seq::<EventView<E>>::empty());
        assert(run(last, closing).answered =~= status_reads(1));
    }
    assert(status_words::<E>(misses) =~= status_words::<E>(before) + closing);
    run_split(polling, status_words::<E>(before), closing);
    run_split(start, opening, status_words::<E>(misses));
    assert(status_reads(before.len()) + status_reads(1) =~= status_reads(TX_POLLS as nat));
}

/// A failure of the transport ends a transmission at once, whatever its
/// state, with that failure unchanged.
pub proof fn send_fails<E>(state: Sending, error: E)
    ensures
        run(state, seq![EventView::Failed(error)]) == (Run::<Sending, (), E> {
            answered: seq![state.asks()],
            end: End::<Sending, (), E>::Finished(Err(Error::Spi(error))),
        }),
{
    reveal_with_fuel(run, 2);
}

/// A transmission fails in two ways only: with the failure that the
/// transport has just reported, unchanged, or with a timeout; and it times
/// out only on a status word or at the start of polling.
pub proof fn send_errors<E>(state: Sending, event: EventView<E>)
    ensures
        match state.step(event) {
            StepView::Finished(Err(Error::Spi(cause))) => event == EventView::Failed(cause),
            StepView::Finished(Err(Error::Timeout)) => (state.stage == SendStage::Poll
                && event is Word) || (state.stage == SendStage::Start && event is Done),
            StepView::Finished(Err(Error::UnexpectedDeviceId(_))) => false,
            _ => true,
        },
{
}

/// A transmission never goes on for ever: whatever the transport answers, it
/// is over after at most [`TX_POLLS`] reads of the status register and four
/// other requests.
pub proof fn send_ends<E>(data: &[u8], events: Seq<EventView<E>>)
    requires
        answering(Sending::start(data), events),
        events.len() >= TX_POLLS + 4,
    ensures
        run(Sending::start(data), events).end is Finished,
        run(Sending::start(data), events).answered.len() <= TX_POLLS + 4,
{
    run_ends(Sending::start(data), events);
}

} // verus!
