use std::cell::RefCell;
use std::rc::Rc;

use dw3000::idle::Idling;
use dw3000::init::Initializing;
use dw3000::ll::Transaction;
use dw3000::recv::{Receiving, RecvStage, RX_ERROR_FLAGS, RX_FRAME_FLAGS};
use dw3000::send::{SendStage, Sending, TX_POLLS};
use dw3000::{Error, Event, Ready, Request, Step, DW3000};

const STATUS: [u8; 2] = [0x41, 0x10];
const STATUS_WRITE: [u8; 2] = [0xC1, 0x10];
const FRAME_INFO: [u8; 2] = [0x41, 0x30];
const DEVICE_ID: [u8; 2] = [0x40, 0x00];
const FRAME_CONTROL_WRITE: [u8; 2] = [0xC0, 0x90];
const TX_BUFFER_WRITE: [u8; 2] = [0xE8, 0x00];
const RX_BUFFER: [u8; 2] = [0x64, 0x00];

const TXFRS: u32 = 0x0000_0080;
const RXPHE: u32 = 0x0000_1000;
const RXDFR: u32 = 0x0000_2000;
const RXFCG: u32 = 0x0000_4000;
const RXFCE: u32 = 0x0000_8000;

/// The error of the scripted transport: the index of the transaction that
/// failed.
#[derive(Clone, Copy, Debug, PartialEq, Eq)]
struct Fault(usize);

/// What the scripted transport was asked to do.
#[derive(Clone, Debug, PartialEq, Eq)]
enum Seen {
    Delay(u32),
    Command(u8),
    Write { header: [u8; 2], data: Vec<u8> },
    ReadWord { header: [u8; 2] },
    Read { header: [u8; 2], len: usize },
}

/// A scripted chip behind a transport. The status register answers from a
/// script, one word per read, and with `rest` once the script is over.
struct Chip {
    device_id: u32,
    statuses: Vec<u32>,
    rest: u32,
    frame_info: u32,
    rx: Vec<u8>,
    fail_on: Option<usize>,
    polls: usize,
    transactions: usize,
    seen: Rc<RefCell<Vec<Seen>>>,
}

impl Chip {
    fn new() -> Chip {
        Chip {
            device_id: 0xDECA0302,
            statuses: Vec::new(),
            rest: 0,
            frame_info: 0,
            rx: (0..1024u32).map(|i| (i % 251) as u8).collect(),
            fail_on: None,
            polls: 0,
            transactions: 0,
            seen: Rc::new(RefCell::new(Vec::new())),
        }
    }

    fn carry_out(&mut self, request: Request<'_>, buffer: &mut [u8]) -> Event<Fault> {
        let transaction = match request {
            Request::Delay { ms } => {
                self.seen.borrow_mut().push(Seen::Delay(ms));
                return Event::Elapsed;
            }
            Request::Transact(transaction) => transaction,
        };
        let index = self.transactions;
        self.transactions += 1;
        self.seen.borrow_mut().push(match transaction {
            Transaction::Command { byte } => Seen::Command(byte),
            Transaction::Write { header, data } => Seen::Write { header, data: data.to_vec() },
            Transaction::WriteWord { header, word } => Seen::Write { header, data: word.to_vec() },
            Transaction::ReadWord { header } => Seen::ReadWord { header },
            Transaction::Read { header, len } => Seen::Read { header, len },
        });
        if self.fail_on == Some(index) {
            return Event::Failed(Fault(index));
        }
        match transaction {
            Transaction::ReadWord { header } => {
                let word = if header == DEVICE_ID {
                    self.device_id
                } else if header == FRAME_INFO {
                    self.frame_info
                } else if header == STATUS {
                    let word = self.statuses.get(self.polls).copied().unwrap_or(self.rest);
                    self.polls += 1;
                    word
                } else {
                    panic!("read of an unexpected register: {:02X?}", header)
                };
                Event::Word(word.to_le_bytes())
            }
            Transaction::Read { header, len } => {
                assert_eq!(header, RX_BUFFER);
                buffer[..len].copy_from_slice(&self.rx[..len]);
                Event::Done
            }
            _ => Event::Done,
        }
    }
}

fn run_init(chip: Chip) -> Result<DW3000<Chip, Ready>, Error<Fault>> {
    let (mut handle, mut request) = DW3000::new(chip).init();
    loop {
        let event = handle.spi().carry_out(request, &mut []);
        match handle.resume_init(event) {
            Step::Continue { state, request: next } => {
                handle = state;
                request = next;
            }
            Step::Finished(result) => return result,
        }
    }
}

fn run_send(handle: &mut DW3000<Chip, Ready>, data: &[u8]) -> Result<(), Error<Fault>> {
    let (mut state, mut request) = handle.send(data);
    loop {
        let event = handle.spi().carry_out(request, &mut []);
        match handle.resume_send(state, event) {
            Step::Continue { state: next, request: then } => {
                state = next;
                request = then;
            }
            Step::Finished(result) => return result,
        }
    }
}

fn run_recv(
    handle: &mut DW3000<Chip, Ready>,
    buffer: &mut [u8],
    max_polls: u32,
) -> Result<usize, Error<Fault>> {
    let (mut state, mut request) = handle.recv(buffer.len(), max_polls);
    loop {
        let event = handle.spi().carry_out(request, buffer);
        match handle.resume_recv(state, event) {
            Step::Continue { state: next, request: then } => {
                state = next;
                request = then;
            }
            Step::Finished(result) => return result,
        }
    }
}

fn run_idle(handle: &mut DW3000<Chip, Ready>) -> Result<(), Error<Fault>> {
    let (mut state, mut request) = handle.force_idle();
    loop {
        let event = handle.spi().carry_out(request, &mut []);
        match handle.resume_idle(state, event) {
            Step::Continue { state: next, request: then } => {
                state = next;
                request = then;
            }
            Step::Finished(result) => return result,
        }
    }
}

/// A ready handle on a fresh chip, and the log of what the chip is asked
/// from now on.
fn ready(setup: impl FnOnce(&mut Chip)) -> (DW3000<Chip, Ready>, Rc<RefCell<Vec<Seen>>>) {
    let mut handle = run_init(Chip::new()).expect("the chip identifies itself");
    let chip = handle.spi();
    chip.seen.borrow_mut().clear();
    chip.transactions = 0;
    setup(chip);
    let seen = chip.seen.clone();
    (handle, seen)
}

fn status_reads(seen: &[Seen]) -> usize {
    seen.iter().filter(|entry| **entry == Seen::ReadWord { header: STATUS }).count()
}

fn status_writes(seen: &[Seen]) -> Vec<Vec<u8>> {
    seen.iter()
        .filter_map(|entry| match entry {
            Seen::Write { header, data } if *header == STATUS_WRITE => Some(data.clone()),
            _ => None,
        })
        .collect()
}

// Initialisation.

#[test]
fn init_with_a_plausible_identity_becomes_ready() {
    let chip = Chip::new();
    let seen = chip.seen.clone();
    let mut handle = run_init(chip).expect("ready");
    assert_eq!(
        *seen.borrow(),
        vec![
            Seen::Delay(5),
            Seen::Command(0x87),
            Seen::Delay(1),
            Seen::ReadWord { header: DEVICE_ID },
            Seen::Command(0x9D),
        ]
    );
    assert_eq!(handle.spi().device_id, 0xDECA0302);
}

#[test]
fn init_with_an_all_zero_identity_is_refused() {
    let mut chip = Chip::new();
    chip.device_id = 0x0000_0000;
    let seen = chip.seen.clone();
    let result = run_init(chip);
    assert_eq!(result.err(), Some(Error::UnexpectedDeviceId(0x0000_0000)));
    assert_eq!(
        *seen.borrow(),
        vec![
            Seen::Delay(5),
            Seen::Command(0x87),
            Seen::Delay(1),
            Seen::ReadWord { header: DEVICE_ID },
        ]
    );
}

#[test]
fn init_with_an_all_one_identity_is_refused() {
    let mut chip = Chip::new();
    chip.device_id = 0xFFFF_FFFF;
    let seen = chip.seen.clone();
    let result = run_init(chip);
    assert_eq!(result.err(), Some(Error::UnexpectedDeviceId(0xFFFF_FFFF)));
    assert_eq!(seen.borrow().len(), 4);
    assert!(!seen.borrow().contains(&Seen::Command(0x9D)));
}

#[test]
fn init_accepts_the_identities_next_to_the_refused_ones() {
    for id in [0x0000_0001u32, 0xFFFF_FFFE, 0x0000_FFFF, 0xFFFF_0000, 0x8000_0000] {
        let mut chip = Chip::new();
        chip.device_id = id;
        assert!(run_init(chip).is_ok(), "identity {:#010X}", id);
    }
}

#[test]
fn init_hands_on_a_failure_of_the_transport() {
    let full = [
        Seen::Delay(5),
        Seen::Command(0x87),
        Seen::Delay(1),
        Seen::ReadWord { header: DEVICE_ID },
        Seen::Command(0x9D),
    ];
    for (failing, asked) in [(0usize, 2usize), (1, 4), (2, 5)] {
        let mut chip = Chip::new();
        chip.fail_on = Some(failing);
        let seen = chip.seen.clone();
        let result = run_init(chip);
        assert_eq!(result.err(), Some(Error::Spi(Fault(failing))));
        assert_eq!(*seen.borrow(), full[..asked].to_vec());
    }
}

#[test]
fn init_remembers_the_identity_until_it_is_ready() {
    let (handle, request) = DW3000::new(()).init();
    assert_eq!(*handle.state(), Initializing::PowerUp);
    assert_eq!(request, Request::Delay { ms: 5 });
    let Step::Continue { state: handle, request } = handle.resume_init::<Fault>(Event::Elapsed)
    else {
        panic!("over after the first wait")
    };
    assert_eq!(*handle.state(), Initializing::Idle);
    assert_eq!(request, Request::Transact(Transaction::Command { byte: 0x87 }));
    let Step::Continue { state: handle, request } = handle.resume_init::<Fault>(Event::Done)
    else {
        panic!("over after the idle command")
    };
    assert_eq!(*handle.state(), Initializing::Settle);
    assert_eq!(request, Request::Delay { ms: 1 });
    let Step::Continue { state: handle, request } = handle.resume_init::<Fault>(Event::Elapsed)
    else {
        panic!("over after the second wait")
    };
    assert_eq!(*handle.state(), Initializing::Identify);
    assert_eq!(request, Request::Transact(Transaction::ReadWord { header: DEVICE_ID }));
    let Step::Continue { state: handle, request } =
        handle.resume_init::<Fault>(Event::Word([0x02, 0x03, 0xCA, 0xDE]))
    else {
        panic!("over after the identity")
    };
    assert_eq!(*handle.state(), Initializing::ClearIrqs { dev_id: 0xDECA0302 });
    assert_eq!(request, Request::Transact(Transaction::Command { byte: 0x9D }));
    let Step::Finished(Ok(ready)) = handle.resume_init::<Fault>(Event::Done) else {
        panic!("not ready after the flags were cleared")
    };
    let _: &Ready = ready.state();
}

#[test]
fn init_asks_again_after_an_event_that_answers_nothing() {
    let (mut handle, mut request) = DW3000::new(()).init();
    let answers: [(Initializing, [Event<Fault>; 3]); 2] = [
        (Initializing::PowerUp, [Event::Done, Event::Word([1, 2, 3, 4]), Event::Failed(Fault(9))]),
        (Initializing::Idle, [Event::Elapsed, Event::Word([1, 2, 3, 4]), Event::Elapsed]),
    ];
    for (stage, events) in answers {
        for event in events {
            let before = request;
            match handle.resume_init(event) {
                Step::Continue { state, request: again } => {
                    assert_eq!(*state.state(), stage);
                    assert_eq!(again, before);
                    handle = state;
                }
                Step::Finished(_) => panic!("over in {:?}", stage),
            }
        }
        match handle.resume_init::<Fault>(if stage == Initializing::PowerUp {
            Event::Elapsed
        } else {
            Event::Done
        }) {
            Step::Continue { state, request: next } => {
                handle = state;
                request = next;
            }
            Step::Finished(_) => panic!("over in {:?}", stage),
        }
    }
    assert_eq!(*handle.state(), Initializing::Settle);
}

// Transmission.

#[test]
fn send_succeeds_when_the_flag_shows_on_the_third_poll() {
    let (mut handle, seen) = ready(|chip| chip.statuses = vec![0, 0, TXFRS]);
    let frame = [0x42u8];
    assert_eq!(run_send(&mut handle, &frame), Ok(()));
    assert_eq!(
        *seen.borrow(),
        vec![
            Seen::Write { header: TX_BUFFER_WRITE, data: vec![0x42] },
            Seen::Write { header: FRAME_CONTROL_WRITE, data: vec![0x03, 0x00, 0x00, 0x00] },
            Seen::Command(0x83),
            Seen::ReadWord { header: STATUS },
            Seen::ReadWord { header: STATUS },
            Seen::ReadWord { header: STATUS },
            Seen::Write { header: STATUS_WRITE, data: vec![0x80, 0x00, 0x00, 0x00] },
        ]
    );
}

#[test]
fn send_clears_only_the_sent_flag_whatever_else_is_set() {
    let (mut handle, seen) = ready(|chip| chip.statuses = vec![0xFFFF_FFFF]);
    assert_eq!(run_send(&mut handle, &[1, 2, 3]), Ok(()));
    assert_eq!(status_reads(&seen.borrow()), 1);
    assert_eq!(status_writes(&seen.borrow()), vec![vec![0x80, 0x00, 0x00, 0x00]]);
}

#[test]
fn send_times_out_after_ten_thousand_polls() {
    let (mut handle, seen) = ready(|chip| chip.rest = !TXFRS);
    assert_eq!(run_send(&mut handle, &[7; 12]), Err(Error::Timeout));
    let seen = seen.borrow();
    assert_eq!(TX_POLLS, 10_000);
    assert_eq!(status_reads(&seen), 10_000);
    assert_eq!(seen.len(), 3 + 10_000);
    assert!(status_writes(&seen).is_empty());
    assert_eq!(seen[2], Seen::Command(0x83));
    assert_eq!(seen.iter().filter(|entry| **entry == Seen::Command(0x83)).count(), 1);
}

#[test]
fn send_succeeds_on_the_last_poll_of_the_budget() {
    let (mut handle, seen) = ready(|chip| {
        chip.statuses = vec![0; 9_999];
        chip.statuses.push(TXFRS);
    });
    assert_eq!(run_send(&mut handle, &[0xAB]), Ok(()));
    assert_eq!(status_reads(&seen.borrow()), 10_000);
    assert_eq!(status_writes(&seen.borrow()).len(), 1);
}

#[test]
fn send_writes_the_frame_length_with_the_check_sequence_in_ten_bits() {
    for (len, field) in [
        (0usize, 2u32),
        (1, 3),
        (125, 127),
        (254, 256),
        (1021, 1023),
        (1022, 0),
        (1023, 1),
        (4000, 930),
    ] {
        let (mut handle, seen) = ready(|chip| chip.statuses = vec![TXFRS]);
        let frame = vec![0x5A; len];
        assert_eq!(run_send(&mut handle, &frame), Ok(()));
        let seen = seen.borrow();
        assert_eq!(seen[0], Seen::Write { header: TX_BUFFER_WRITE, data: frame.clone() });
        assert_eq!(
            seen[1],
            Seen::Write { header: FRAME_CONTROL_WRITE, data: field.to_le_bytes().to_vec() },
            "a frame of {} bytes",
            len
        );
    }
}

#[test]
fn send_hands_on_a_failure_of_the_transport() {
    for failing in 0..=5usize {
        let (mut handle, seen) = ready(|chip| {
            chip.statuses = vec![0, 0, TXFRS];
            chip.fail_on = Some(failing);
        });
        assert_eq!(run_send(&mut handle, &[1, 2]), Err(Error::Spi(Fault(failing))));
        assert_eq!(seen.borrow().len(), failing + 1);
    }
}

#[test]
fn send_is_not_retried_after_a_failure() {
    let (mut handle, seen) = ready(|chip| chip.fail_on = Some(2));
    assert_eq!(run_send(&mut handle, &[1]), Err(Error::Spi(Fault(2))));
    assert_eq!(seen.borrow().iter().filter(|entry| **entry == Seen::Command(0x83)).count(), 1);
    assert_eq!(status_reads(&seen.borrow()), 0);
}

#[test]
fn send_asks_again_after_an_event_that_answers_nothing() {
    let mut handle = run_init(Chip::new()).expect("ready");
    let frame = [9u8, 8, 7];
    let (state, request) = handle.send(&frame);
    assert_eq!(state, Sending { data: &frame, stage: SendStage::Payload, polls_left: 10_000 });
    for event in [Event::Elapsed, Event::Word([0x80, 0, 0, 0])] {
        assert_eq!(
            handle.resume_send::<Fault>(state, event),
            Step::Continue { state, request }
        );
    }
    let polling = Sending { data: &frame, stage: SendStage::Poll, polls_left: 17 };
    for event in [Event::Elapsed, Event::Done] {
        assert_eq!(
            handle.resume_send::<Fault>(polling, event),
            Step::Continue {
                state: polling,
                request: Request::Transact(Transaction::ReadWord { header: STATUS }),
            }
        );
    }
}

#[test]
fn send_counts_down_the_polls_that_are_left() {
    let mut handle = run_init(Chip::new()).expect("ready");
    let frame = [0u8; 4];
    let polling = Sending { data: &frame, stage: SendStage::Poll, polls_left: 2 };
    let next = handle.resume_send::<Fault>(polling, Event::Word([0x7F, 0xFF, 0xFF, 0xFF]));
    let last = Sending { data: &frame, stage: SendStage::Poll, polls_left: 1 };
    assert_eq!(
        next,
        Step::Continue {
            state: last,
            request: Request::Transact(Transaction::ReadWord { header: STATUS }),
        }
    );
    assert_eq!(
        handle.resume_send::<Fault>(last, Event::Word([0x00, 0x00, 0x00, 0x00])),
        Step::Finished(Err(Error::Timeout))
    );
    assert_eq!(
        handle.resume_send::<Fault>(last, Event::Word([0x80, 0x00, 0x00, 0x00])),
        Step::Continue {
            state: Sending { data: &frame, stage: SendStage::Clear, polls_left: 1 },
            request: Request::Transact(Transaction::WriteWord {
                header: STATUS_WRITE,
                word: [0x80, 0x00, 0x00, 0x00],
            }),
        }
    );
}

// Reception.

#[test]
fn recv_retries_after_a_frame_check_error_and_reads_the_frame() {
    let (mut handle, seen) = ready(|chip| {
        chip.statuses = vec![RXFCE, RXFCG | RXDFR];
        chip.frame_info = 6;
        chip.rx = vec![0x11, 0x22, 0x33, 0x44, 0x55, 0x66];
    });
    let mut buffer = [0xEEu8; 16];
    assert_eq!(run_recv(&mut handle, &mut buffer, 5), Ok(4));
    assert_eq!(buffer[..4], [0x11, 0x22, 0x33, 0x44]);
    assert_eq!(buffer[4..], [0xEE; 12]);
    assert_eq!(
        *seen.borrow(),
        vec![
            Seen::Command(0x85),
            Seen::ReadWord { header: STATUS },
            Seen::Write { header: STATUS_WRITE, data: vec![0x00, 0x90, 0x00, 0x00] },
            Seen::Command(0x85),
            Seen::ReadWord { header: STATUS },
            Seen::ReadWord { header: FRAME_INFO },
            Seen::Read { header: RX_BUFFER, len: 4 },
            Seen::Write { header: STATUS_WRITE, data: vec![0x00, 0x60, 0x00, 0x00] },
        ]
    );
}

#[test]
fn recv_retries_after_a_header_error() {
    let (mut handle, seen) = ready(|chip| {
        chip.statuses = vec![RXPHE, 0, RXFCG];
        chip.frame_info = 5;
    });
    let mut buffer = [0u8; 8];
    assert_eq!(run_recv(&mut handle, &mut buffer, 3), Ok(3));
    assert_eq!(buffer[..3], [0, 1, 2]);
    assert_eq!(status_reads(&seen.borrow()), 3);
    assert_eq!(
        status_writes(&seen.borrow()),
        vec![vec![0x00, 0x90, 0x00, 0x00], vec![0x00, 0x60, 0x00, 0x00]]
    );
}

#[test]
fn recv_cuts_a_frame_that_is_longer_than_the_buffer() {
    let (mut handle, seen) = ready(|chip| {
        chip.statuses = vec![RXFCG];
        chip.frame_info = 12;
    });
    let mut buffer = [0xEEu8; 3];
    assert_eq!(run_recv(&mut handle, &mut buffer, 1), Ok(3));
    assert_eq!(buffer, [0, 1, 2]);
    assert!(seen.borrow().contains(&Seen::Read { header: RX_BUFFER, len: 3 }));
}

#[test]
fn recv_reads_the_whole_payload_where_it_fits() {
    for (capacity, expected) in [(10usize, 10usize), (11, 10), (1024, 10), (9, 9), (0, 0)] {
        let (mut handle, seen) = ready(|chip| {
            chip.statuses = vec![RXFCG];
            chip.frame_info = 12;
        });
        let mut buffer = vec![0xEEu8; capacity];
        assert_eq!(run_recv(&mut handle, &mut buffer, 1), Ok(expected));
        assert!(seen.borrow().contains(&Seen::Read { header: RX_BUFFER, len: expected }));
        assert!(buffer[expected..].iter().all(|byte| *byte == 0xEE));
    }
}

#[test]
fn recv_takes_a_frame_without_payload_as_empty() {
    for frame_length in [0u32, 1, 2] {
        let (mut handle, seen) = ready(|chip| {
            chip.statuses = vec![RXFCG];
            chip.frame_info = frame_length;
        });
        let mut buffer = [0xEEu8; 4];
        assert_eq!(run_recv(&mut handle, &mut buffer, 1), Ok(0));
        assert_eq!(buffer, [0xEE; 4]);
        assert!(seen.borrow().contains(&Seen::Read { header: RX_BUFFER, len: 0 }));
    }
}

#[test]
fn recv_reads_the_frame_length_from_the_low_ten_bits() {
    for (frame_info, expected) in
        [(0xFFFF_FC06u32, 4usize), (0x0000_0403, 1), (0x0000_03FF, 1021), (0x8000_0002, 0)]
    {
        let (mut handle, _) = ready(|chip| {
            chip.statuses = vec![RXFCG];
            chip.frame_info = frame_info;
        });
        let mut buffer = [0u8; 1024];
        assert_eq!(run_recv(&mut handle, &mut buffer, 1), Ok(expected));
    }
}

#[test]
fn recv_times_out_and_forces_the_chip_idle() {
    let (mut handle, seen) = ready(|chip| chip.rest = !(RXFCG | RXFCE | RXPHE));
    let mut buffer = [0xEEu8; 8];
    assert_eq!(run_recv(&mut handle, &mut buffer, 5), Err(Error::Timeout));
    assert_eq!(buffer, [0xEE; 8]);
    let mut expected = vec![Seen::Command(0x85)];
    expected.extend(vec![Seen::ReadWord { header: STATUS }; 5]);
    expected.push(Seen::Command(0x87));
    assert_eq!(*seen.borrow(), expected);
}

#[test]
fn recv_without_a_budget_reads_no_status() {
    let (mut handle, seen) = ready(|chip| chip.rest = RXFCG);
    let mut buffer = [0u8; 8];
    assert_eq!(run_recv(&mut handle, &mut buffer, 0), Err(Error::Timeout));
    assert_eq!(*seen.borrow(), vec![Seen::Command(0x85), Seen::Command(0x87)]);
}

#[test]
fn recv_spends_the_budget_on_frames_with_errors() {
    let (mut handle, seen) = ready(|chip| {
        chip.statuses = vec![RXFCE, RXPHE | RXFCE, RXFCG];
        chip.frame_info = 6;
    });
    let mut buffer = [0u8; 8];
    assert_eq!(run_recv(&mut handle, &mut buffer, 2), Err(Error::Timeout));
    let error_clear = Seen::Write { header: STATUS_WRITE, data: vec![0x00, 0x90, 0x00, 0x00] };
    assert_eq!(
        *seen.borrow(),
        vec![
            Seen::Command(0x85),
            Seen::ReadWord { header: STATUS },
            error_clear.clone(),
            Seen::Command(0x85),
            Seen::ReadWord { header: STATUS },
            error_clear,
            Seen::Command(0x85),
            Seen::Command(0x87),
        ]
    );
}

#[test]
fn recv_takes_a_good_frame_even_where_an_error_flag_shows_too() {
    let (mut handle, seen) = ready(|chip| {
        chip.statuses = vec![RXFCG | RXFCE | RXPHE];
        chip.frame_info = 4;
    });
    let mut buffer = [0u8; 8];
    assert_eq!(run_recv(&mut handle, &mut buffer, 1), Ok(2));
    assert_eq!(status_writes(&seen.borrow()), vec![vec![0x00, 0x60, 0x00, 0x00]]);
}

#[test]
fn recv_succeeds_on_the_last_poll_of_the_budget() {
    let (mut handle, seen) = ready(|chip| {
        chip.statuses = vec![0, 0, 0, RXFCG];
        chip.frame_info = 3;
    });
    let mut buffer = [0u8; 8];
    assert_eq!(run_recv(&mut handle, &mut buffer, 4), Ok(1));
    assert_eq!(status_reads(&seen.borrow()), 4);
    assert!(!seen.borrow().contains(&Seen::Command(0x87)));
}

#[test]
fn recv_hands_on_a_failure_of_the_transport() {
    for failing in 0..=7usize {
        let (mut handle, seen) = ready(|chip| {
            chip.statuses = vec![RXFCE, RXFCG];
            chip.frame_info = 6;
            chip.fail_on = Some(failing);
        });
        let mut buffer = [0u8; 8];
        assert_eq!(run_recv(&mut handle, &mut buffer, 5), Err(Error::Spi(Fault(failing))));
        assert_eq!(seen.borrow().len(), failing + 1);
    }
}

#[test]
fn recv_hands_on_a_failure_of_the_idle_command_after_the_budget() {
    let (mut handle, seen) = ready(|chip| chip.fail_on = Some(3));
    let mut buffer = [0u8; 8];
    assert_eq!(run_recv(&mut handle, &mut buffer, 2), Err(Error::Spi(Fault(3))));
    assert_eq!(seen.borrow().last(), Some(&Seen::Command(0x87)));
}

#[test]
fn recv_asks_again_after_an_event_that_answers_nothing() {
    let mut handle = run_init(Chip::new()).expect("ready");
    let (state, request) = handle.recv(32, 9);
    assert_eq!(state, Receiving { stage: RecvStage::Enable, polls_left: 9, capacity: 32 });
    assert_eq!(request, Request::Transact(Transaction::Command { byte: 0x85 }));
    for event in [Event::Elapsed, Event::Word([0, 0x40, 0, 0])] {
        assert_eq!(
            handle.resume_recv::<Fault>(state, event),
            Step::Continue { state, request }
        );
    }
    let reading = Receiving { stage: RecvStage::Payload { len: 7 }, polls_left: 3, capacity: 32 };
    assert_eq!(
        handle.resume_recv::<Fault>(reading, Event::Word([0, 0, 0, 0])),
        Step::Continue {
            state: reading,
            request: Request::Transact(Transaction::Read { header: RX_BUFFER, len: 7 }),
        }
    );
}

#[test]
fn recv_flag_masks_are_the_documented_bits() {
    assert_eq!(RX_FRAME_FLAGS, RXDFR | RXFCG);
    assert_eq!(RX_FRAME_FLAGS, 0x6000);
    assert_eq!(RX_ERROR_FLAGS, RXFCE | RXPHE);
    assert_eq!(RX_ERROR_FLAGS, 0x9000);
}

// Forcing the chip idle.

#[test]
fn force_idle_issues_the_idle_command_once() {
    let (mut handle, seen) = ready(|_| {});
    assert_eq!(run_idle(&mut handle), Ok(()));
    assert_eq!(*seen.borrow(), vec![Seen::Command(0x87)]);
}

#[test]
fn force_idle_hands_on_a_failure_of_the_transport() {
    let (mut handle, seen) = ready(|chip| chip.fail_on = Some(0));
    assert_eq!(run_idle(&mut handle), Err(Error::Spi(Fault(0))));
    assert_eq!(*seen.borrow(), vec![Seen::Command(0x87)]);
}

#[test]
fn force_idle_asks_again_after_an_event_that_answers_nothing() {
    let mut handle = run_init(Chip::new()).expect("ready");
    let (state, request) = handle.force_idle();
    assert_eq!(state, Idling);
    assert_eq!(request, Request::Transact(Transaction::Command { byte: 0x87 }));
    for event in [Event::Elapsed, Event::Word([1, 2, 3, 4])] {
        assert_eq!(
            handle.resume_idle::<Fault>(state, event),
            Step::Continue { state, request }
        );
    }
}

#[test]
fn force_idle_leaves_the_handle_ready_for_the_next_operation() {
    let (mut handle, seen) = ready(|chip| chip.statuses = vec![TXFRS]);
    assert_eq!(run_idle(&mut handle), Ok(()));
    assert_eq!(run_send(&mut handle, &[1]), Ok(()));
    assert_eq!(run_idle(&mut handle), Ok(()));
    assert_eq!(seen.borrow().first(), Some(&Seen::Command(0x87)));
    assert_eq!(seen.borrow().last(), Some(&Seen::Command(0x87)));
}

// What each state asks for.

#[test]
fn every_stage_of_an_initialisation_asks_for_its_request() {
    assert_eq!(Initializing::PowerUp.outstanding(), Request::Delay { ms: 5 });
    assert_eq!(
        Initializing::Idle.outstanding(),
        Request::Transact(Transaction::Command { byte: 0x87 })
    );
    assert_eq!(Initializing::Settle.outstanding(), Request::Delay { ms: 1 });
    assert_eq!(
        Initializing::Identify.outstanding(),
        Request::Transact(Transaction::ReadWord { header: DEVICE_ID })
    );
    assert_eq!(
        Initializing::ClearIrqs { dev_id: 0xDECA0302 }.outstanding(),
        Request::Transact(Transaction::Command { byte: 0x9D })
    );
}

#[test]
fn every_stage_of_a_transmission_asks_for_its_request() {
    let frame = [0x10u8, 0x20, 0x30];
    let at = |stage| Sending { data: &frame, stage, polls_left: 10_000 }.outstanding();
    assert_eq!(
        at(SendStage::Payload),
        Request::Transact(Transaction::Write { header: TX_BUFFER_WRITE, data: &frame })
    );
    assert_eq!(
        at(SendStage::FrameControl),
        Request::Transact(Transaction::WriteWord {
            header: FRAME_CONTROL_WRITE,
            word: [0x05, 0x00, 0x00, 0x00],
        })
    );
    assert_eq!(at(SendStage::Start), Request::Transact(Transaction::Command { byte: 0x83 }));
    assert_eq!(at(SendStage::Poll), Request::Transact(Transaction::ReadWord { header: STATUS }));
    assert_eq!(
        at(SendStage::Clear),
        Request::Transact(Transaction::WriteWord {
            header: STATUS_WRITE,
            word: [0x80, 0x00, 0x00, 0x00],
        })
    );
}

#[test]
fn every_stage_of_a_reception_asks_for_its_request() {
    let at = |stage| Receiving { stage, polls_left: 3, capacity: 64 }.outstanding();
    let enable = Request::Transact(Transaction::Command { byte: 0x85 });
    assert_eq!(at(RecvStage::Enable), enable);
    assert_eq!(at(RecvStage::Reenable), enable);
    assert_eq!(at(RecvStage::Poll), Request::Transact(Transaction::ReadWord { header: STATUS }));
    assert_eq!(
        at(RecvStage::Info),
        Request::Transact(Transaction::ReadWord { header: FRAME_INFO })
    );
    assert_eq!(
        at(RecvStage::Payload { len: 9 }),
        Request::Transact(Transaction::Read { header: RX_BUFFER, len: 9 })
    );
    assert_eq!(
        at(RecvStage::ClearFrame { len: 9 }),
        Request::Transact(Transaction::WriteWord {
            header: STATUS_WRITE,
            word: [0x00, 0x60, 0x00, 0x00],
        })
    );
    assert_eq!(
        at(RecvStage::ClearError),
        Request::Transact(Transaction::WriteWord {
            header: STATUS_WRITE,
            word: [0x00, 0x90, 0x00, 0x00],
        })
    );
    assert_eq!(at(RecvStage::Abort), Request::Transact(Transaction::Command { byte: 0x87 }));
}

#[test]
fn forcing_idle_asks_for_the_idle_command() {
    assert_eq!(Idling.outstanding(), Request::Transact(Transaction::Command { byte: 0x87 }));
}

// How long an operation can go on.

#[test]
fn send_is_over_within_its_bound_whatever_the_status_says() {
    for rest in [0u32, 0xFFFF_FF7F, TXFRS, RXFCG | RXFCE] {
        let (mut handle, seen) = ready(|chip| chip.rest = rest);
        let _ = run_send(&mut handle, &[1, 2, 3]);
        assert!(seen.borrow().len() <= 10_000 + 4);
    }
}

#[test]
fn recv_is_over_within_its_bound_whatever_the_status_says() {
    for max_polls in [0u32, 1, 2, 7, 100] {
        for rest in [0u32, RXFCE, RXPHE, RXFCE | RXPHE, RXFCG, 0xFFFF_FFFF, !RXFCG] {
            let (mut handle, seen) = ready(|chip| {
                chip.rest = rest;
                chip.frame_info = 20;
            });
            let mut buffer = [0u8; 32];
            let _ = run_recv(&mut handle, &mut buffer, max_polls);
            assert!(seen.borrow().len() <= 3 * max_polls as usize + 2);
            if rest & RXFCG == 0 && rest & (RXFCE | RXPHE) != 0 {
                assert_eq!(seen.borrow().len(), 3 * max_polls as usize + 2);
            }
        }
    }
}
