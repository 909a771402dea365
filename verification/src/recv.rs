//! Receiving a frame.
//!
//! The receiver is enabled and the status register is read, up to a number
//! of times that the caller sets. A status word with the good-frame flag
//! leads to the frame: its length is read from the frame information
//! register, its payload is read from the receive buffer, as far as the
//! caller's buffer has room, and the frame flags are cleared. A status word
//! that shows a frame check or header error leads to the write that clears
//! the error flags and to the command that enables the receiver again; this
//! uses up one read of the budget like any other. When the budget is used up
//! the chip is forced idle and the reception times out.

use crate::driver::{Ready, DW3000};
use crate::error::Error;
use crate::ll::{
    fast_command, read_reg, read_reg_u32, u32_from_le_bytes, write_reg_u32, TransactionView,
};
use crate::machine::{
    answering, run, run_ends, run_split, End, Event, EventView, Operation, Request, RequestView,
    Run, Step, StepView,
};
use crate::registers::{
    rx_buffer, rx_finfo, sys_status, CMD_RX, CMD_TXRXOFF, RX_FINFO_RXFLEN_MASK, SYS_STATUS_RXDFR,
    SYS_STATUS_RXFCE, SYS_STATUS_RXFCG, SYS_STATUS_RXPHE,
};
use vstd::prelude::*;

verus! {

/// The flags that are cleared once a frame has been read: data frame ready
/// and frame check good.
pub const RX_FRAME_FLAGS: u32 = SYS_STATUS_RXDFR | SYS_STATUS_RXFCG;

/// The flags that show a frame that cannot be used: frame check error and
/// header error. Both are cleared when either shows.
pub const RX_ERROR_FLAGS: u32 = SYS_STATUS_RXFCE | SYS_STATUS_RXPHE;

/// The payload length that a frame information word reports: the frame
/// length in its low ten bits, less the two bytes of the frame check
/// sequence, and not below zero.
pub open spec fn payload_len(finfo: u32) -> nat {
    let frame = finfo % 1024;
    if frame >= 2 {
        (frame - 2) as nat
    } else {
        0
    }
}

/// How many bytes of a frame are read into a buffer of `capacity` bytes: the
/// payload where it fits, else as many as the buffer holds.
pub open spec fn received_len(finfo: u32, capacity: usize) -> usize {
    if payload_len(finfo) < capacity {
        payload_len(finfo) as usize
    } else {
        capacity
    }
}

/// Which request of a reception is outstanding.
#[derive(Clone, Copy, Debug, PartialEq, Eq)]
pub enum RecvStage {
    /// The command that enables the receiver at the start.
    Enable,
    /// A read of the status register.
    Poll,
    /// The read of the frame information register.
    Info,
    /// The read of `len` bytes of payload from the receive buffer.
    Payload { len: usize },
    /// The write that clears the frame flags, after `len` bytes were read.
    ClearFrame { len: usize },
    /// The write that clears the error flags.
    ClearError,
    /// The command that enables the receiver again after an error.
    Reenable,
    /// The command that forces the chip idle once the budget is used up.
    Abort,
}

/// A reception in flight: the outstanding request, how many reads of the
/// status register are left, the outstanding one included, and the size of
/// the caller's buffer.
#[derive(Clone, Copy, Debug, PartialEq, Eq)]
pub struct Receiving {
    pub stage: RecvStage,
    pub polls_left: u32,
    pub capacity: usize,
}

impl Receiving {
    /// The state in which a reception starts.
    pub open spec fn start(capacity: usize, max_polls: u32) -> Receiving {
        Receiving { stage: RecvStage::Enable, polls_left: max_polls, capacity }
    }

    /// This reception at another stage.
    pub open spec fn at(self, stage: RecvStage) -> Receiving {
        Receiving { stage, polls_left: self.polls_left, capacity: self.capacity }
    }

    /// The state in which `left` reads of the status register remain: the
    /// next read is outstanding, or, where none remains, the idle command.
    pub open spec fn polling(capacity: usize, left: int) -> Receiving {
        if left > 0 {
            Receiving { stage: RecvStage::Poll, polls_left: left as u32, capacity }
        } else {
            Receiving { stage: RecvStage::Abort, polls_left: 0, capacity }
        }
    }

    /// The request that is outstanding in this state.
    pub open spec fn asks(self) -> RequestView {
        RequestView::Transact(
            match self.stage {
                RecvStage::Enable | RecvStage::Reenable => TransactionView::command(CMD_RX),
                RecvStage::Poll => TransactionView::read_word(sys_status()),
                RecvStage::Info => TransactionView::read_word(rx_finfo()),
                RecvStage::Payload { len } => TransactionView::read(rx_buffer(), len as nat),
                RecvStage::ClearFrame { .. } => TransactionView::write_word(
                    sys_status(),
                    RX_FRAME_FLAGS,
                ),
                RecvStage::ClearError => TransactionView::write_word(sys_status(), RX_ERROR_FLAGS),
                RecvStage::Abort => TransactionView::command(CMD_TXRXOFF),
            },
        )
    }

    /// The step that leaves the reception in this state.
    pub open spec fn go<E>(self) -> StepView<Receiving, usize, E> {
        StepView::Continue { state: self, request: self.asks() }
    }

    /// The request that is outstanding in this state.
    pub fn outstanding(&self) -> (request: Request<'static>)
        ensures
            request@ == self.asks(),
    {
        match self.stage {
            RecvStage::Enable | RecvStage::Reenable => Request::Transact(fast_command(CMD_RX)),
            RecvStage::Poll => Request::Transact(read_reg_u32(sys_status())),
            RecvStage::Info => Request::Transact(read_reg_u32(rx_finfo())),
            RecvStage::Payload { len } => Request::Transact(read_reg(rx_buffer(), len)),
            RecvStage::ClearFrame { .. } => Request::Transact(
                write_reg_u32(sys_status(), RX_FRAME_FLAGS),
            ),
            RecvStage::ClearError => Request::Transact(write_reg_u32(sys_status(), RX_ERROR_FLAGS)),
            RecvStage::Abort => Request::Transact(fast_command(CMD_TXRXOFF)),
        }
    }

    /// Leaves the reception in `next`, asking for what that state asks for.
    fn proceed<E>(next: Receiving) -> (step: Step<'static, Receiving, usize, E>)
        ensures
            step@ == next.go::<E>(),
    {
        Step::Continue { state: next, request: next.outstanding() }
    }

    /// Goes to the next read of the status register where `left` reads
    /// remain, to the idle command where none does.
    fn poll<E>(capacity: usize, left: u32) -> (step: Step<'static, Receiving, usize, E>)
        ensures
            step@ == Receiving::polling(capacity, left as int).go::<E>(),
    {
        if left > 0 {
            Receiving::proceed(Receiving { stage: RecvStage::Poll, polls_left: left, capacity })
        } else {
            Receiving::proceed(Receiving { stage: RecvStage::Abort, polls_left: 0, capacity })
        }
    }
}

impl<E> Operation<E> for Receiving {
    type Output = usize;

    open spec fn request(self) -> RequestView {
        self.asks()
    }

    open spec fn step(self, event: EventView<E>) -> StepView<Receiving, usize, E> {
        match (self.stage, event) {
            (_, EventView::Failed(error)) => StepView::Finished(Err(Error::Spi(error))),
            (RecvStage::Enable, EventView::Done) => Receiving::polling(
                self.capacity,
                self.polls_left as int,
            ).go(),
            (RecvStage::Poll, EventView::Word(status)) => if status & SYS_STATUS_RXFCG != 0 {
                self.at(RecvStage::Info).go()
            } else if status & RX_ERROR_FLAGS != 0 {
                self.at(RecvStage::ClearError).go()
            } else {
                Receiving::polling(self.capacity, self.polls_left - 1).go()
            },
            (RecvStage::Info, EventView::Word(finfo)) => self.at(
                RecvStage::Payload { len: received_len(finfo, self.capacity) },
            ).go(),
            (RecvStage::Payload { len }, EventView::Done) => self.at(
                RecvStage::ClearFrame { len },
            ).go(),
            (RecvStage::ClearFrame { len }, EventView::Done) => StepView::Finished(Ok(len)),
            (RecvStage::ClearError, EventView::Done) => self.at(RecvStage::Reenable).go(),
            (RecvStage::Reenable, EventView::Done) => Receiving::polling(
                self.capacity,
                self.polls_left - 1,
            ).go(),
            (RecvStage::Abort, EventView::Done) => StepView::Finished(Err(Error::Timeout)),
            _ => self.go(),
        }
    }

    open spec fn remaining(self) -> nat {
        let polls: nat = if self.polls_left > 0 {
            self.polls_left as nat
        } else {
            1
        };
        match self.stage {
            RecvStage::Enable => 3 * self.polls_left as nat + 2,
            RecvStage::Poll => 3 * polls + 1,
            RecvStage::ClearError => 3 * polls,
            RecvStage::Reenable => (3 * polls - 1) as nat,
            RecvStage::Info => 3,
            RecvStage::Payload { .. } => 2,
            RecvStage::ClearFrame { .. } => 1,
            RecvStage::Abort => 1,
        }
    }

    proof fn keeps_to(self, event: EventView<E>) {
    }
}

impl<SPI> DW3000<SPI, Ready> {
    /// Begins a reception into a buffer of `capacity` bytes, with at most
    /// `max_polls` reads of the status register. The caller carries out the
    /// request and reports what happened to [`DW3000::resume_recv`], until
    /// that yields the result: the number of bytes that were read into the
    /// buffer.
    pub fn recv(&mut self, capacity: usize, max_polls: u32) -> (begun: (
        Receiving,
        Request<'static>,
    ))
        ensures
            final(self)@ == old(self)@,
            begun.0 == Receiving::start(capacity, max_polls),
            begun.1@ == begun.0.asks(),
    {
        let state = Receiving { stage: RecvStage::Enable, polls_left: max_polls, capacity };
        (state, state.outstanding())
    }

    /// Takes a reception in `state` one event further.
    ///
    /// A failure of the transport ends it with that failure. A frame longer
    /// than the buffer is cut to the buffer's size: that is no failure.
    pub fn resume_recv<E>(&mut self, state: Receiving, event: Event<E>) -> (step: Step<
        'static,
        Receiving,
        usize,
        E,
    >)
        ensures
            final(self)@ == old(self)@,
            step@ == state.step(event@),
    {
        match event {
            Event::Failed(error) => Step::Finished(Err(Error::Spi(error))),
            Event::Done => match state.stage {
                RecvStage::Enable => Receiving::poll(state.capacity, state.polls_left),
                RecvStage::Payload { len } => Receiving::proceed(
                    Receiving { stage: RecvStage::ClearFrame { len }, ..state },
                ),
                RecvStage::ClearFrame { len } => Step::Finished(Ok(len)),
                RecvStage::ClearError => Receiving::proceed(
                    Receiving { stage: RecvStage::Reenable, ..state },
                ),
                RecvStage::Reenable => Receiving::poll(
                    state.capacity,
                    if state.polls_left > 0 {
                        state.polls_left - 1
                    } else {
                        0
                    },
                ),
                RecvStage::Abort => Step::Finished(Err(Error::Timeout)),
                RecvStage::Poll | RecvStage::Info => Receiving::proceed(state),
            },
            Event::Word(bytes) => match state.stage {
                RecvStage::Poll => {
                    let status: u32 = u32_from_le_bytes(bytes);
                    if status & SYS_STATUS_RXFCG != 0 {
                        Receiving::proceed(Receiving { stage: RecvStage::Info, ..state })
                    } else if status & RX_ERROR_FLAGS != 0 {
                        Receiving::proceed(Receiving { stage: RecvStage::ClearError, ..state })
                    } else {
                        Receiving::poll(
                            state.capacity,
                            if state.polls_left > 0 {
                                state.polls_left - 1
                            } else {
                                0
                            },
                        )
                    }
                },
                RecvStage::Info => {
                    let finfo: u32 = u32_from_le_bytes(bytes);
                    let frame: u32 = finfo & RX_FINFO_RXFLEN_MASK;
                    proof {
                        assert(finfo & 0x3FF == finfo % 1024) by (bit_vector);
                    }
                    let payload: usize = if frame >= 2 {
                        (frame - 2) as usize
                    } else {
                        0
                    };
                    let len: usize = if payload < state.capacity {
                        payload
                    } else {
                        state.capacity
                    };
                    Receiving::proceed(Receiving { stage: RecvStage::Payload { len }, ..state })
                },
                _ => Receiving::proceed(state),
            },
            Event::Elapsed => Receiving::proceed(state),
        }
    }
}

/// The two flag masks as numbers.
pub proof fn flag_masks()
    ensures
        RX_FRAME_FLAGS == 0x6000,
        RX_ERROR_FLAGS == 0x9000,
{
    assert(0x2000u32 | 0x4000u32 == 0x6000u32) by (bit_vector);
    assert(0x8000u32 | 0x1000u32 == 0x9000u32) by (bit_vector);
}

/// The frame length that [`payload_len`] starts from is the field that
/// [`RX_FINFO_RXFLEN_MASK`] selects, and the payload is at most 1021 bytes.
pub proof fn payload_len_bounds(finfo: u32)
    ensures
        finfo % 1024 == finfo & RX_FINFO_RXFLEN_MASK,
        payload_len(finfo) <= 1021,
        payload_len(finfo) + 2 == finfo % 1024 || (payload_len(finfo) == 0 && finfo % 1024 < 2),
{
    assert(finfo & 0x3FF == finfo % 1024) by (bit_vector);
}

/// A frame is cut to the buffer, never refused: what is read is the payload
/// where the buffer has room for it, and exactly the buffer's size where it
/// has not.
pub proof fn received_len_truncates(finfo: u32, capacity: usize)
    ensures
        received_len(finfo, capacity) <= capacity,
        received_len(finfo, capacity) <= payload_len(finfo),
        payload_len(finfo) <= capacity ==> received_len(finfo, capacity) == payload_len(finfo),
        payload_len(finfo) >= capacity ==> received_len(finfo, capacity) == capacity,
{
}

/// The events of one read of the status register that shows no good frame:
/// the status word and, where it shows an error, the answers to the write
/// that clears the error flags and to the command that enables the receiver
/// again.
pub open spec fn miss_events<E>(status: u32) -> Seq<EventView<E>> {
    if status & RX_ERROR_FLAGS != 0 {
        seq![EventView::Word(status), EventView::Done, EventView::Done]
    } else {
        seq![EventView::Word(status)]
    }
}

/// The requests that [`miss_events`] answers.
pub open spec fn miss_requests(status: u32) -> Seq<RequestView> {
    if status & RX_ERROR_FLAGS != 0 {
        seq![
            RequestView::Transact(TransactionView::read_word(sys_status())),
            RequestView::Transact(TransactionView::write_word(sys_status(), RX_ERROR_FLAGS)),
            RequestView::Transact(TransactionView::command(CMD_RX)),
        ]
    } else {
        seq![RequestView::Transact(TransactionView::read_word(sys_status()))]
    }
}

/// The events of one read after the other, each as [`miss_events`] has it.
pub open spec fn misses_events<E>(statuses: Seq<u32>) -> Seq<EventView<E>>
    decreases statuses.len(),
{
    if statuses.len() == 0 {
        seq![]
    } else {
        miss_events(statuses[0]) + misses_events(statuses.drop_first())
    }
}

/// The requests that [`misses_events`] answers.
pub open spec fn misses_requests(statuses: Seq<u32>) -> Seq<RequestView>
    decreases statuses.len(),
{
    if statuses.len() == 0 {
        seq![]
    } else {
        miss_requests(statuses[0]) + misses_requests(statuses.drop_first())
    }
}

/// One read without a good frame uses up one read of the budget.
proof fn recv_miss<E>(capacity: usize, left: u32, status: u32)
    requires
        left > 0,
        status & SYS_STATUS_RXFCG == 0,
    ensures
        run::<E, _>(Receiving::polling(capacity, left as int), miss_events(status)) == (Run::<
            Receiving,
            usize,
            E,
        > {
            answered: miss_requests(status),
            end: End::Pending(Receiving::polling(capacity, left - 1)),
        }),
{
    let state = Receiving::polling(capacity, left as int);
    let events = miss_events::<E>(status);
    if status & RX_ERROR_FLAGS != 0 {
        reveal_with_fuel(run, 4);
        assert(events.drop_first().drop_first().drop_first().len() == 0);
        assert(run(state, events).answered =~= miss_requests(status));
    } else {
        reveal_with_fuel(run, 2);
        assert(run(state, events).answered =~= miss_requests(status));
    }
}

/// Reads without a good frame, no more than the budget allows, use up one
/// read of the budget each.
proof fn recv_misses<E>(capacity: usize, left: u32, statuses: Seq<u32>)
    requires
        statuses.len() <= left,
        forall|i: int| 0 <= i < statuses.len() ==> statuses[i] & SYS_STATUS_RXFCG == 0,
    ensures
        run::<E, _>(Receiving::polling(capacity, left as int), misses_events(statuses)) == (Run::<
            Receiving,
            usize,
            E,
        > {
            answered: misses_requests(statuses),
            end: End::Pending(Receiving::polling(capacity, left - statuses.len())),
        }),
    decreases statuses.len(),
{
    let state = Receiving::polling(capacity, left as int);
    if statuses.len() == 0 {
        assert(run(state, misses_events::<E>(statuses)).answered =~= misses_requests(statuses));
    } else {
        let rest = statuses.drop_first();
        recv_miss::<E>(capacity, left, statuses[0]);
        recv_misses::<E>(capacity, (left - 1) as u32, rest);
        run_split(state, miss_events::<E>(statuses[0]), misses_events::<E>(rest));
    }
}

/// A reception starts with the command that enables the receiver.
proof fn recv_opening<E>(capacity: usize, max_polls: u32)
    ensures
        run::<E, _>(Receiving::start(capacity, max_polls), seq![EventView::Done]) == (Run::<
            Receiving,
            usize,
            E,
        > {
            answered: seq![RequestView::Transact(TransactionView::command(CMD_RX))],
            end: End::Pending(Receiving::polling(capacity, max_polls as int)),
        }),
{
    let start = Receiving::start(capacity, max_polls);
    reveal_with_fuel(run, 2);
    assert(run(start, seq![EventView::<E>::Done]).answered =~= seq![
        RequestView::Transact(TransactionView::command(CMD_RX)),
    ]);
}

/// The requests that fetch a frame, from the read of the status register
/// that shows it to the write that clears its flags.
pub open spec fn frame_requests(finfo: u32, capacity: usize) -> Seq<RequestView> {
    seq![
        RequestView::Transact(TransactionView::read_word(sys_status())),
        RequestView::Transact(TransactionView::read_word(rx_finfo())),
        RequestView::Transact(
            TransactionView::read(rx_buffer(), received_len(finfo, capacity) as nat),
        ),
        RequestView::Transact(TransactionView::write_word(sys_status(), RX_FRAME_FLAGS)),
    ]
}

/// A status word with the good-frame flag leads to the frame.
proof fn recv_frame<E>(capacity: usize, left: u32, good: u32, finfo: u32)
    requires
        left > 0,
        good & SYS_STATUS_RXFCG != 0,
    ensures
        run::<E, _>(
            Receiving::polling(capacity, left as int),
            seq![
                EventView::Word(good),
                EventView::Word(finfo),
                EventView::Done,
                EventView::Done,
            ],
        ) == (Run::<Receiving, usize, E> {
            answered: frame_requests(finfo, capacity),
            end: End::Finished(Ok(received_len(finfo, capacity))),
        }),
{
    let len = received_len(finfo, capacity);
    let poll = Receiving::polling(capacity, left as int);
    let info = poll.at(RecvStage::Info);
    let payload = poll.at(RecvStage::Payload { len });
    let clear = poll.at(RecvStage::ClearFrame { len });
    let last = seq![EventView::<E>::Done];
    let two = seq![EventView::<E>::Done, EventView::Done];
    let three = seq![EventView::<E>::Word(finfo), EventView::Done, EventView::Done];
    let four = seq![
        EventView::<E>::Word(good),
        EventView::Word(finfo),
        EventView::Done,
        EventView::Done,
    ];
    assert(last.drop_first() =~= Seq::<EventView<E>>::empty());
    assert(two.drop_first() =~= last);
    assert(three.drop_first() =~= two);
    assert(four.drop_first() =~= three);
    assert(run(clear, last) == (Run::<Receiving, usize, E> {
        answered: seq![clear.asks()],
        end: End::Finished(Ok(len)),
    }));
    assert(run(payload, two).answered =~= seq![payload.asks(), clear.asks()]);
    assert(run(info, three).answered =~= seq![info.asks(), payload.asks(), clear.asks()]);
    assert(run(poll, four).answered =~= frame_requests(finfo, capacity));
}

/// A reception yields a frame when one arrives within the poll budget.
/// Against a transport that never fails and whose status words are `misses`,
/// all without the good-frame flag and fewer than `max_polls`, and then
/// `good`, with the flag, the driver enables the receiver, answers each
/// status word without a frame as [`miss_requests`] has it, then fetches the
/// frame as [`frame_requests`] has it: it reads the frame information
/// register, reads [`received_len`] bytes from the receive buffer and clears
/// the frame flags. It reports that length.
pub proof fn recv_receives<E>(
    capacity: usize,
    max_polls: u32,
    misses: Seq<u32>,
    good: u32,
    finfo: u32,
)
    requires
        misses.len() < max_polls,
        forall|i: int| 0 <= i < misses.len() ==> misses[i] & SYS_STATUS_RXFCG == 0,
        good & SYS_STATUS_RXFCG != 0,
    ensures
        run::<E, _>(
            Receiving::start(capacity, max_polls),
            seq![EventView::Done] + misses_events(misses) + seq![
                EventView::Word(good),
                EventView::Word(finfo),
                EventView::Done,
                EventView::Done,
            ],
        ) == (Run::<Receiving, usize, E> {
            answered: seq![RequestView::Transact(TransactionView::command(CMD_RX))]
                + misses_requests(misses) + frame_requests(finfo, capacity),
            end: End::Finished(Ok(received_len(finfo, capacity))),
        }),
{
    let start = Receiving::start(capacity, max_polls);
    let opening = seq![EventView::<E>::Done];
    let polling = Receiving::polling(capacity, max_polls as int);
    let closing = seq![
        EventView::<E>::Word(good),
        EventView::Word(finfo),
        EventView::Done,
        EventView::Done,
    ];
    let enable = seq![RequestView::Transact(TransactionView::command(CMD_RX))];
    let frame = frame_requests(finfo, capacity);
    recv_opening::<E>(capacity, max_polls);
    recv_misses::<E>(capacity, max_polls, misses);
    recv_frame::<E>(capacity, (max_polls - misses.len()) as u32, good, finfo);
    run_split(polling, misses_events::<E>(misses), closing);
    run_split(start, opening, misses_events::<E>(misses) + closing);
    assert(opening + misses_events::<E>(misses) + closing =~= opening + (misses_events::<E>(misses)
        + closing));
    assert(enable + (misses_requests(misses) + frame) =~= enable + misses_requests(misses) + frame);
}

/// A reception times out when no frame arrives within the poll budget.
/// Against a transport that never fails and whose first `max_polls` status
/// words are all without the good-frame flag, the driver enables the
/// receiver, answers each status word as [`miss_requests`] has it, forces
/// the chip idle, and reports a timeout. With a budget of zero it reads no
/// status at all.
pub proof fn recv_times_out<E>(capacity: usize, max_polls: u32, misses: Seq<u32>)
    requires
        misses.len() == max_polls,
        forall|i: int| 0 <= i < misses.len() ==> misses[i] & SYS_STATUS_RXFCG == 0,
    ensures
        run::<E, _>(
            Receiving::start(capacity, max_polls),
            seq![EventView::Done] + misses_events(misses) + seq![EventView::Done],
        ) == (Run::<Receiving, usize, E> {
            answered: seq![RequestView::Transact(TransactionView::command(CMD_RX))]
                + misses_requests(misses) + seq![
                RequestView::Transact(TransactionView::command(CMD_TXRXOFF)),
            ],
            end: End::Finished(Err(Error::Timeout)),
        }),
{
    let start = Receiving::start(capacity, max_polls);
    let opening = seq![EventView::<E>::Done];
    let polling = Receiving::polling(capacity, max_polls as int);
    let last = Receiving::polling(capacity, 0);
    let closing = seq![EventView::<E>::Done];
    let enable = seq![RequestView::Transact(TransactionView::command(CMD_RX))];
    let abort = seq![RequestView::Transact(TransactionView::command(CMD_TXRXOFF))];
    recv_opening::<E>(capacity, max_polls);
    recv_misses::<E>(capacity, max_polls, misses);
    assert(run(last, closing) == (Run::<Receiving, usize, E> {
        answered: abort,
        end: End::Finished(Err(Error::Timeout)),
    })) by {
        reveal_with_fuel(run, 2);
        assert(run(last, closing).answered =~= abort);
    }
    run_split(polling, misses_events::<E>(misses), closing);
    run_split(start, opening, misses_events::<E>(misses) + closing);
    assert(opening + misses_events::<E>(misses) + closing =~= opening + (misses_events::<E>(misses)
        + closing));
    assert(enable + (misses_requests(misses) + abort) =~= enable + misses_requests(misses) + abort);
}

/// A failure of the transport ends a reception at once, whatever its state,
/// with that failure unchanged.
pub proof fn recv_fails<E>(state: Receiving, error: E)
    ensures
        run(state, seq![EventView::Failed(error)]) == (Run::<Receiving, usize, E> {
            answered: seq![state.asks()],
            end: End::Finished(Err(Error::Spi(error))),
        }),
{
    reveal_with_fuel(run, 2);
}

/// A reception fails in two ways only: with the failure that the transport
/// has just reported, unchanged, or with a timeout; and it times out only
/// after the chip was forced idle.
pub proof fn recv_errors<E>(state: Receiving, event: EventView<E>)
    ensures
        match state.step(event) {
            StepView::Finished(Err(Error::Spi(cause))) => event == EventView::Failed(cause),
            StepView::Finished(Err(Error::Timeout)) => state.stage == RecvStage::Abort
                && event is Done,
            StepView::Finished(Err(Error::UnexpectedDeviceId(_))) => false,
            _ => true,
        },
{
}

/// A reception never goes on for ever: whatever the transport answers, it is
/// over after at most three requests for each read of the budget and two
/// more, so frames with errors cannot hold it up.
pub proof fn recv_ends<E>(capacity: usize, max_polls: u32, events: Seq<EventView<E>>)
    requires
        answering(Receiving::start(capacity, max_polls), events),
        events.len() >= 3 * max_polls + 2,
    ensures
        run(Receiving::start(capacity, max_polls), events).end is Finished,
        run(Receiving::start(capacity, max_polls), events).answered.len() <= 3 * max_polls + 2,
{
    run_ends(Receiving::start(capacity, max_polls), events);
}

} // verus!
