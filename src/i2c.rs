//! The two-wire bus transaction engine.
//!
//! A transfer is a fixed program of register-level steps (START, address,
//! data, STOP, and the polls that separate them), chosen by the kind of
//! transfer and, for reads, by the number of bytes. A `Transaction` walks such
//! a program: its holder performs each step on the bus controller and hands
//! back what it observed, and the transaction decides what comes next. Every
//! poll is bounded: a flag that does not reach the wanted value within the
//! poll limit ends the transfer with an error. A transfer that ends so leaves
//! the bus as it stands; recovering it is up to the caller.

use vstd::prelude::*;

verus! {

/// A status condition of the bus controller.
#[derive(Clone, Copy, PartialEq, Eq, Structural, Debug)]
pub enum Flag {
    /// The bus is held by a transfer.
    Busy,
    /// A START condition has been generated.
    StartSent,
    /// The slave acknowledged its address.
    AddressMatched,
    /// The controller is the transmitter.
    Transmitter,
    /// The data register can take the next byte to send.
    TxEmpty,
    /// The current byte has been shifted completely.
    ByteFinished,
    /// The data register holds a received byte.
    RxNotEmpty,
}

/// One register-level step of a transfer.
#[derive(Clone, Copy, PartialEq, Eq, Structural, Debug)]
pub enum Step {
    /// Poll until the flag reads set.
    WaitSet(Flag),
    /// Poll until the flag reads clear.
    WaitClear(Flag),
    /// Enable acknowledging and clear the position bit.
    AckOn,
    /// Disable acknowledging.
    AckOff,
    /// Make the acknowledge setting apply to the next byte received.
    PosOn,
    /// Generate a START (or a repeated START).
    Start,
    /// Generate a STOP.
    Stop,
    /// Write a byte to the data register.
    Send(u8),
    /// Clear the address-matched condition.
    ClearAddress,
    /// Take a byte from the data register.
    Receive,
}

#[derive(Clone, Copy, PartialEq, Eq, Structural, Debug)]
pub enum BusError {
    /// The slave address does not fit in seven bits.
    InvalidAddress,
    /// A read of zero bytes was asked for.
    EmptyRead,
    /// The bus stayed busy.
    BusBusyTimeout,
    /// No slave acknowledged the address.
    NoAcknowledge,
    /// A byte transfer did not complete.
    TransferTimeout,
}

/// What the holder of a transaction is to do next.
#[derive(Clone, Copy, PartialEq, Eq, Structural, Debug)]
pub enum Action {
    /// Perform the step and report what was observed.
    Perform(Step),
    /// The transfer completed.
    Complete,
    /// The transfer was abandoned.
    Fail(BusError),
}

/// What the holder observed while performing a step.
#[derive(Clone, Copy, PartialEq, Eq, Structural, Debug)]
pub enum Event {
    /// The value of the flag that a wait step polls.
    Flag(bool),
    /// The byte taken by a receive step.
    Byte(u8),
    /// Any other step was performed.
    Done,
}

/// A one-byte register write that a device driver asks of the bus.
#[derive(Clone, Copy, PartialEq, Eq, Structural, Debug)]
pub struct WriteRequest {
    pub slave: u8,
    pub register: u8,
    pub value: u8,
}

/// One item of a driver's plan: a register write, or a pause of the given
/// number of idle cycles before the next item.
#[derive(Clone, Copy, PartialEq, Eq, Structural, Debug)]
pub enum Command {
    Write(WriteRequest),
    Pause(u32),
}

/// How many consecutive polls a wait step makes before it gives up.
pub const POLL_LIMIT: u32 = 100000;

/// The address byte: the seven-bit address, then the direction bit (set for reading).
pub open spec fn address_byte(slave: u8, reading: bool) -> u8 {
    (slave * 2 + if reading { 1int } else { 0int }) as u8
}

/// START, the address for writing, and the register index, shifted out completely.
pub open spec fn select_steps(slave: u8, register: u8) -> Seq<Step> {
    seq![
        Step::Start,
        Step::WaitSet(Flag::StartSent),
        Step::Send(address_byte(slave, false)),
        Step::WaitSet(Flag::AddressMatched),
        Step::WaitSet(Flag::Transmitter),
        Step::WaitSet(Flag::TxEmpty),
        Step::Send(register),
        Step::WaitSet(Flag::ByteFinished),
    ]
}

/// The program of a one-byte register write. It ends by waiting until the
/// bus is released, rather than on the start flag.
pub open spec fn write_steps(slave: u8, register: u8, value: u8) -> Seq<Step> {
    seq![Step::WaitClear(Flag::Busy)] + select_steps(slave, register) + seq![
        Step::Send(value),
        Step::WaitSet(Flag::ByteFinished),
        Step::Stop,
        Step::WaitClear(Flag::Busy),
    ]
}

/// The register selection of a read, up to the slave's acknowledge of the
/// address for reading after the repeated START.
pub open spec fn read_head(slave: u8, register: u8) -> Seq<Step> {
    seq![Step::WaitClear(Flag::Busy), Step::AckOn] + select_steps(slave, register) + seq![
        Step::Start,
        Step::WaitSet(Flag::StartSent),
        Step::Send(address_byte(slave, true)),
        Step::WaitSet(Flag::AddressMatched),
    ]
}

/// A single byte: no acknowledge, STOP before the byte is taken.
pub open spec fn read_one_steps() -> Seq<Step> {
    seq![
        Step::AckOff,
        Step::ClearAddress,
        Step::Stop,
        Step::WaitSet(Flag::RxNotEmpty),
        Step::Receive,
    ]
}

/// Two bytes: the acknowledge setting is moved to the second byte, and both
/// are taken after the STOP.
pub open spec fn read_two_steps() -> Seq<Step> {
    seq![
        Step::PosOn,
        Step::ClearAddress,
        Step::AckOff,
        Step::WaitSet(Flag::ByteFinished),
        Step::Stop,
        Step::Receive,
        Step::Receive,
    ]
}

/// `count` acknowledged bytes, each taken once it has been shifted in.
pub open spec fn stream_steps(count: nat) -> Seq<Step> {
    Seq::new(
        2 * count,
        |j: int|
            if j % 2 == 0 {
                Step::WaitSet(Flag::ByteFinished)
            } else {
                Step::Receive
            },
    )
}

/// The last three bytes of a longer read: the acknowledge is withdrawn before
/// the third to last is taken, and the STOP comes before the last two.
pub open spec fn read_last_three_steps() -> Seq<Step> {
    seq![
        Step::WaitSet(Flag::ByteFinished),
        Step::AckOff,
        Step::Receive,
        Step::Stop,
        Step::Receive,
        Step::WaitClear(Flag::Busy),
        Step::WaitSet(Flag::RxNotEmpty),
        Step::Receive,
    ]
}

/// Three or more bytes.
pub open spec fn read_many_steps(length: nat) -> Seq<Step>
    recommends
        length >= 3,
{
    seq![Step::ClearAddress] + stream_steps((length - 3) as nat) + read_last_three_steps()
}

/// The program of a read of `length` bytes from consecutive registers.
pub open spec fn read_steps(slave: u8, register: u8, length: nat) -> Seq<Step>
    recommends
        length >= 1,
{
    read_head(slave, register) + if length == 1 {
        read_one_steps()
    } else if length == 2 {
        read_two_steps()
    } else {
        read_many_steps(length)
    }
}

/// Whether an observed flag value ends a wait step.
pub open spec fn wait_met(step: Step, observed: bool) -> bool {
    match step {
        Step::WaitSet(_) => observed,
        _ => !observed,
    }
}

pub open spec fn is_wait(step: Step) -> bool {
    step is WaitSet || step is WaitClear
}

/// The error with which a wait step gives up.
pub open spec fn timeout_error(step: Step) -> BusError {
    match step {
        Step::WaitClear(Flag::Busy) => BusError::BusBusyTimeout,
        Step::WaitSet(Flag::AddressMatched) => BusError::NoAcknowledge,
        _ => BusError::TransferTimeout,
    }
}

/// Whether an event is the kind of report that a step calls for.
pub open spec fn fits(step: Step, event: Event) -> bool {
    if is_wait(step) {
        event is Flag
    } else if step is Receive {
        event is Byte
    } else {
        event is Done
    }
}

/// The state of a transfer in progress.
pub struct TransactionView {
    /// The program.
    pub steps: Seq<Step>,
    /// The index of the step to perform next.
    pub cursor: nat,
    /// How many polls of the current wait step found the flag not as wanted.
    pub polls: nat,
    /// The poll limit of each wait step.
    pub limit: nat,
    /// The bytes received so far, in order.
    pub data: Seq<u8>,
    /// Why the transfer was abandoned, if it was.
    pub failure: Option<BusError>,
}

/// A transfer that has not started.
pub open spec fn fresh(steps: Seq<Step>, limit: nat) -> TransactionView {
    TransactionView { steps, cursor: 0, polls: 0, limit, data: seq![], failure: None }
}

pub open spec fn action_of(t: TransactionView) -> Action {
    match t.failure {
        Some(e) => Action::Fail(e),
        None => if t.cursor < t.steps.len() {
            Action::Perform(t.steps[t.cursor as int])
        } else {
            Action::Complete
        },
    }
}

/// The transfer after the report of one step. A finished transfer, and one
/// given a report of the wrong kind, stays as it is.
pub open spec fn advance_spec(t: TransactionView, event: Event) -> TransactionView {
    if t.failure is Some || t.cursor >= t.steps.len() || !fits(t.steps[t.cursor as int], event) {
        t
    } else {
        let step = t.steps[t.cursor as int];
        match event {
            Event::Flag(observed) => if wait_met(step, observed) {
                TransactionView { cursor: t.cursor + 1, polls: 0, ..t }
            } else if t.polls + 1 >= t.limit {
                TransactionView { failure: Some(timeout_error(step)), ..t }
            } else {
                TransactionView { polls: t.polls + 1, ..t }
            },
            Event::Byte(b) => TransactionView { cursor: t.cursor + 1, data: t.data.push(b), ..t },
            Event::Done => TransactionView { cursor: t.cursor + 1, ..t },
        }
    }
}

/// A transfer in progress: its program, how far it has come, and what it received.
pub struct Transaction {
    steps: Vec<Step>,
    cursor: usize,
    polls: u32,
    limit: u32,
    data: Vec<u8>,
    failure: Option<BusError>,
}

impl View for Transaction {
    type V = TransactionView;

    closed spec fn view(&self) -> TransactionView {
        TransactionView {
            steps: self.steps@,
            cursor: self.cursor as nat,
            polls: self.polls as nat,
            limit: self.limit as nat,
            data: self.data@,
            failure: self.failure,
        }
    }
}

impl Transaction {
    /// The cursor stays within the program and the poll count below the limit.
    pub open spec fn wf(&self) -> bool {
        &&& self@.cursor <= self@.steps.len()
        &&& self@.polls < self@.limit
        &&& self@.limit <= u32::MAX
    }

    /// A transfer that runs `steps` with the default poll limit.
    fn start(steps: Vec<Step>) -> (r: Transaction)
        ensures
            r@ == fresh(steps@, POLL_LIMIT as nat),
            r.wf(),
    {
        Transaction { steps, cursor: 0, polls: 0, limit: POLL_LIMIT, data: Vec::new(), failure: None }
    }

    /// The same transfer with another poll limit for each wait step.
    pub fn with_poll_limit(self, limit: u32) -> (r: Transaction)
        requires
            limit >= 1,
            self@.polls == 0,
        ensures
            r@ == (TransactionView { limit: limit as nat, ..self@ }),
            self.wf() ==> r.wf(),
    {
        Transaction { limit, ..self }
    }

    /// What is to be done next.
    pub fn action(&self) -> (r: Action)
        requires
            self.wf(),
        ensures
            r == action_of(self@),
    {
        match self.failure {
            Some(e) => Action::Fail(e),
            None => if self.cursor < self.steps.len() {
                Action::Perform(self.steps[self.cursor])
            } else {
                Action::Complete
            },
        }
    }

    /// Takes the report of the step that `action` asked for.
    pub fn advance(&mut self, event: Event)
        requires
            old(self).wf(),
        ensures
            final(self)@ == advance_spec(old(self)@, event),
            final(self).wf(),
    {
        if self.failure.is_some() || self.cursor >= self.steps.len() {
            return;
        }
        let step = self.steps[self.cursor];
        match event {
            Event::Flag(observed) => {
                let (wanted, is_poll) = match step {
                    Step::WaitSet(_) => (true, true),
                    Step::WaitClear(_) => (false, true),
                    _ => (false, false),
                };
                if !is_poll {
                    return;
                }
                if observed == wanted {
                    self.cursor = self.cursor + 1;
                    self.polls = 0;
                } else if self.polls + 1 >= self.limit {
                    self.failure = Some(
                        match step {
                            Step::WaitClear(Flag::Busy) => BusError::BusBusyTimeout,
                            Step::WaitSet(Flag::AddressMatched) => BusError::NoAcknowledge,
                            _ => BusError::TransferTimeout,
                        },
                    );
                } else {
                    self.polls = self.polls + 1;
                }
            },
            Event::Byte(b) => {
                if let Step::Receive = step {
                    self.data.push(b);
                    self.cursor = self.cursor + 1;
                }
            },
            Event::Done => {
                match step {
                    Step::WaitSet(_) | Step::WaitClear(_) | Step::Receive => {},
                    _ => {
                        self.cursor = self.cursor + 1;
                    },
                }
            },
        }
    }

    /// The bytes received so far, in order.
    pub fn bytes(&self) -> (r: &Vec<u8>)
        ensures
            r@ == self@.data,
    {
        &self.data
    }

    /// Gives up the transaction for the bytes it received.
    pub fn into_bytes(self) -> (r: Vec<u8>)
        ensures
            r@ == self@.data,
    {
        self.data
    }
}

fn select_vec(slave: u8, register: u8) -> (r: Vec<Step>)
    requires
        slave < 128,
    ensures
        r@ == select_steps(slave, register),
{
    let r = vec![
        Step::Start,
        Step::WaitSet(Flag::StartSent),
        Step::Send(slave * 2),
        Step::WaitSet(Flag::AddressMatched),
        Step::WaitSet(Flag::Transmitter),
        Step::WaitSet(Flag::TxEmpty),
        Step::Send(register),
        Step::WaitSet(Flag::ByteFinished),
    ];
    assert(r@ =~= select_steps(slave, register));
    r
}

/// A write of `value` to register `register` of the slave at `slave`: START,
/// the address for writing, the register index, the value, STOP.
pub fn write(slave: u8, register: u8, value: u8) -> (r: Result<Transaction, BusError>)
    ensures
        slave >= 128 ==> r == Err::<Transaction, BusError>(BusError::InvalidAddress),
        slave < 128 ==> r is Ok && r->Ok_0@ == fresh(write_steps(slave, register, value), POLL_LIMIT as nat)
            && r->Ok_0.wf(),
{
    if slave >= 128 {
        return Err(BusError::InvalidAddress);
    }
    let mut steps = vec![Step::WaitClear(Flag::Busy)];
    let mut select = select_vec(slave, register);
    steps.append(&mut select);
    let mut tail = vec![
        Step::Send(value),
        Step::WaitSet(Flag::ByteFinished),
        Step::Stop,
        Step::WaitClear(Flag::Busy),
    ];
    steps.append(&mut tail);
    assert(steps@ =~= write_steps(slave, register, value));
    Ok(Transaction::start(steps))
}

/// A read of `length` bytes from consecutive registers of the slave at
/// `slave`, starting at `register`. The closing sequence differs for one,
/// two, and three or more bytes.
pub fn read(slave: u8, register: u8, length: usize) -> (r: Result<Transaction, BusError>)
    ensures
        slave >= 128 ==> r == Err::<Transaction, BusError>(BusError::InvalidAddress),
        slave < 128 && length == 0 ==> r == Err::<Transaction, BusError>(BusError::EmptyRead),
        slave < 128 && length >= 1 ==> r is Ok && r->Ok_0@ == fresh(
            read_steps(slave, register, length as nat),
            POLL_LIMIT as nat,
        ) && r->Ok_0.wf(),
{
    if slave >= 128 {
        return Err(BusError::InvalidAddress);
    }
    if length == 0 {
        return Err(BusError::EmptyRead);
    }
    let mut steps = vec![Step::WaitClear(Flag::Busy), Step::AckOn];
    let mut select = select_vec(slave, register);
    steps.append(&mut select);
    let mut again = vec![
        Step::Start,
        Step::WaitSet(Flag::StartSent),
        Step::Send(slave * 2 + 1),
        Step::WaitSet(Flag::AddressMatched),
    ];
    steps.append(&mut again);
    assert(steps@ =~= read_head(slave, register));
    let ghost head = steps@;
    if length == 1 {
        let mut tail = vec![
            Step::AckOff,
            Step::ClearAddress,
            Step::Stop,
            Step::WaitSet(Flag::RxNotEmpty),
            Step::Receive,
        ];
        steps.append(&mut tail);
    } else if length == 2 {
        let mut tail = vec![
            Step::PosOn,
            Step::ClearAddress,
            Step::AckOff,
            Step::WaitSet(Flag::ByteFinished),
            Step::Stop,
            Step::Receive,
            Step::Receive,
        ];
        steps.append(&mut tail);
    } else {
        steps.push(Step::ClearAddress);
        let mut i: usize = 0;
        while i < length - 3
            invariant
                length >= 3,
                i <= length - 3,
                steps@ == head + seq![Step::ClearAddress] + stream_steps(i as nat),
            decreases length - 3 - i,
        {
            steps.push(Step::WaitSet(Flag::ByteFinished));
            steps.push(Step::Receive);
            i = i + 1;
            assert(steps@ =~= head + seq![Step::ClearAddress] + stream_steps(i as nat));
        }
        let mut tail = vec![
            Step::WaitSet(Flag::ByteFinished),
            Step::AckOff,
            Step::Receive,
            Step::Stop,
            Step::Receive,
            Step::WaitClear(Flag::Busy),
            Step::WaitSet(Flag::RxNotEmpty),
            Step::Receive,
        ];
        steps.append(&mut tail);
    }
    assert(steps@ =~= read_steps(slave, register, length as nat));
    Ok(Transaction::start(steps))
}

} // verus!
