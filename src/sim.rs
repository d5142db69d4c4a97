//! A simulated bus controller with one register-file slave behind it.
//!
//! It answers every step of a transfer at once, the way an ideal controller
//! and slave would: the flags always read as the bus state dictates, writes
//! select a register and then store into consecutive registers, reads send
//! consecutive registers. It records the conditions and bytes on the bus, so
//! that what a transfer does can be stated over a run of its program.

use vstd::prelude::*;

use crate::i2c::{
    is_wait, timeout_error, wait_met, Action, BusError, Event, Flag, Step, Transaction,
};

verus! {

/// Where the slave stands in a transfer.
#[derive(Clone, Copy, PartialEq, Eq, Structural, Debug)]
pub enum Phase {
    /// No transfer.
    Idle,
    /// A START was seen; an address byte comes next.
    Started,
    /// Addressed for writing; the next byte selects the register.
    Selecting,
    /// A register was selected; further bytes are stored from it on.
    Storing,
    /// Addressed for reading; the slave sends its registers.
    Sending,
    /// Another address was sent; the slave stays silent.
    Ignored,
}

/// A condition or byte on the bus.
#[derive(Clone, Copy, PartialEq, Eq, Structural, Debug)]
pub enum Signal {
    Start,
    Stop,
    /// An address byte sent by the controller.
    Address(u8),
    /// A data byte sent by the controller.
    Written(u8),
    /// A data byte sent by the slave.
    Read(u8),
}

/// The state of the simulation.
pub struct SimView {
    /// The slave's seven-bit address.
    pub slave: u8,
    /// The slave's 256 registers.
    pub regs: Seq<u8>,
    /// The register that the slave reads or writes next.
    pub pointer: u8,
    pub phase: Phase,
    /// Whether the controller's data register holds a received byte.
    pub loaded: bool,
    /// Everything that happened on the bus, in order.
    pub log: Seq<Signal>,
}

impl SimView {
    pub open spec fn wf(self) -> bool {
        self.slave < 128 && self.regs.len() == 256
    }
}

/// The register after `p`, wrapping around after the last.
pub open spec fn next_register(p: u8) -> u8 {
    ((p + 1) % 256) as u8
}

pub open spec fn flag_value(s: SimView, flag: Flag) -> bool {
    match flag {
        Flag::Busy => s.phase != Phase::Idle,
        Flag::StartSent => s.phase == Phase::Started,
        Flag::AddressMatched => s.phase == Phase::Selecting || s.phase == Phase::Storing
            || s.phase == Phase::Sending,
        Flag::Transmitter => s.phase == Phase::Selecting || s.phase == Phase::Storing,
        Flag::TxEmpty => s.phase == Phase::Selecting || s.phase == Phase::Storing,
        Flag::ByteFinished => s.phase == Phase::Selecting || s.phase == Phase::Storing || s.loaded,
        Flag::RxNotEmpty => s.loaded,
    }
}

/// The flag that a wait step polls.
pub open spec fn polled(step: Step) -> Flag {
    match step {
        Step::WaitSet(f) => f,
        Step::WaitClear(f) => f,
        _ => Flag::Busy,
    }
}

/// The byte sent from `s`, as the controller or as an address.
pub open spec fn sent(s: SimView, b: u8) -> SimView {
    match s.phase {
        Phase::Started => if b / 2 == s.slave {
            if b % 2 == 1 {
                SimView { phase: Phase::Sending, loaded: true, log: s.log.push(Signal::Address(b)), ..s }
            } else {
                SimView { phase: Phase::Selecting, log: s.log.push(Signal::Address(b)), ..s }
            }
        } else {
            SimView { phase: Phase::Ignored, log: s.log.push(Signal::Address(b)), ..s }
        },
        Phase::Selecting => SimView {
            pointer: b,
            phase: Phase::Storing,
            log: s.log.push(Signal::Written(b)),
            ..s
        },
        Phase::Storing => SimView {
            regs: s.regs.update(s.pointer as int, b),
            pointer: next_register(s.pointer),
            log: s.log.push(Signal::Written(b)),
            ..s
        },
        _ => SimView { log: s.log.push(Signal::Written(b)), ..s },
    }
}

/// The simulation after one step.
pub open spec fn sim_step(s: SimView, step: Step) -> SimView {
    match step {
        Step::Start => SimView {
            phase: Phase::Started,
            loaded: false,
            log: s.log.push(Signal::Start),
            ..s
        },
        Step::Stop => SimView { phase: Phase::Idle, log: s.log.push(Signal::Stop), ..s },
        Step::Send(b) => sent(s, b),
        Step::Receive => SimView {
            pointer: next_register(s.pointer),
            log: s.log.push(Signal::Read(s.regs[s.pointer as int])),
            ..s
        },
        _ => s,
    }
}

/// What the simulation reports for one step.
pub open spec fn sim_event(s: SimView, step: Step) -> Event {
    match step {
        Step::WaitSet(f) => Event::Flag(flag_value(s, f)),
        Step::WaitClear(f) => Event::Flag(flag_value(s, f)),
        Step::Receive => Event::Byte(s.regs[s.pointer as int]),
        _ => Event::Done,
    }
}

/// Whether a wait step finds its flag not as wanted (it then never will:
/// polling changes nothing).
pub open spec fn blocked(s: SimView, step: Step) -> bool {
    is_wait(step) && !wait_met(step, flag_value(s, polled(step)))
}

/// The bytes received once a step has been performed on `s`.
pub open spec fn taken(s: SimView, step: Step, data: Seq<u8>) -> Seq<u8> {
    if step is Receive {
        data.push(s.regs[s.pointer as int])
    } else {
        data
    }
}

/// Runs `steps` from index `i` on, having received `data`: the final
/// simulation and the bytes received, or the error of the first wait step
/// that stays blocked.
pub open spec fn run_from(s: SimView, steps: Seq<Step>, i: nat, data: Seq<u8>) -> (
    SimView,
    Result<Seq<u8>, BusError>,
)
    decreases steps.len() - i,
{
    if i >= steps.len() {
        (s, Ok(data))
    } else if blocked(s, steps[i as int]) {
        (s, Err(timeout_error(steps[i as int])))
    } else {
        run_from(sim_step(s, steps[i as int]), steps, i + 1, taken(s, steps[i as int], data))
    }
}

/// Runs a whole program.
pub open spec fn run_program(s: SimView, steps: Seq<Step>) -> (SimView, Result<Seq<u8>, BusError>) {
    run_from(s, steps, 0, seq![])
}

pub open spec fn result_view(r: Result<Vec<u8>, BusError>) -> Result<Seq<u8>, BusError> {
    match r {
        Ok(v) => Ok(v@),
        Err(e) => Err(e),
    }
}

/// A simulated controller and slave.
pub struct SimBus {
    slave: u8,
    regs: Vec<u8>,
    pointer: u8,
    phase: Phase,
    loaded: bool,
    log: Vec<Signal>,
}

impl View for SimBus {
    type V = SimView;

    closed spec fn view(&self) -> SimView {
        SimView {
            slave: self.slave,
            regs: self.regs@,
            pointer: self.pointer,
            phase: self.phase,
            loaded: self.loaded,
            log: self.log@,
        }
    }
}

impl SimBus {
    /// An idle bus whose slave answers at `slave` and holds zero in every register.
    pub fn new(slave: u8) -> (r: SimBus)
        requires
            slave < 128,
        ensures
            r@.wf(),
            r@.slave == slave,
            r@.regs == Seq::new(256, |i: int| 0u8),
            r@.pointer == 0,
            r@.phase == Phase::Idle,
            !r@.loaded,
            r@.log == Seq::<Signal>::empty(),
    {
        let mut regs: Vec<u8> = Vec::new();
        let mut i: usize = 0;
        while i < 256
            invariant
                i <= 256,
                regs@ == Seq::new(i as nat, |j: int| 0u8),
            decreases 256 - i,
        {
            regs.push(0);
            i = i + 1;
            assert(regs@ =~= Seq::new(i as nat, |j: int| 0u8));
        }
        SimBus { slave, regs, pointer: 0, phase: Phase::Idle, loaded: false, log: Vec::new() }
    }

    /// Programs a register of the slave directly, off the bus.
    pub fn set_register(&mut self, register: u8, value: u8)
        requires
            old(self)@.wf(),
        ensures
            final(self)@ == (SimView { regs: old(self)@.regs.update(register as int, value), ..old(self)@ }),
    {
        self.regs.set(register as usize, value);
    }

    /// The value of a register of the slave.
    pub fn register(&self, register: u8) -> (r: u8)
        requires
            self@.wf(),
        ensures
            r == self@.regs[register as int],
    {
        self.regs[register as usize]
    }

    /// What happened on the bus, in order.
    pub fn log(&self) -> (r: &Vec<Signal>)
        ensures
            r@ == self@.log,
    {
        &self.log
    }

    /// Performs one step of a transfer and reports what it observed.
    pub fn respond(&mut self, step: Step) -> (r: Event)
        requires
            old(self)@.wf(),
        ensures
            final(self)@ == sim_step(old(self)@, step),
            r == sim_event(old(self)@, step),
    {
        let idle = match self.phase {
            Phase::Idle => true,
            _ => false,
        };
        let selecting = match self.phase {
            Phase::Selecting | Phase::Storing => true,
            _ => false,
        };
        let matched = match self.phase {
            Phase::Selecting | Phase::Storing | Phase::Sending => true,
            _ => false,
        };
        match step {
            Step::WaitSet(f) | Step::WaitClear(f) => {
                let value = match f {
                    Flag::Busy => !idle,
                    Flag::StartSent => match self.phase {
                        Phase::Started => true,
                        _ => false,
                    },
                    Flag::AddressMatched => matched,
                    Flag::Transmitter => selecting,
                    Flag::TxEmpty => selecting,
                    Flag::ByteFinished => selecting || self.loaded,
                    Flag::RxNotEmpty => self.loaded,
                };
                Event::Flag(value)
            },
            Step::Start => {
                self.phase = Phase::Started;
                self.loaded = false;
                self.log.push(Signal::Start);
                Event::Done
            },
            Step::Stop => {
                self.phase = Phase::Idle;
                self.log.push(Signal::Stop);
                Event::Done
            },
            Step::Send(b) => {
                match self.phase {
                    Phase::Started => {
                        if b / 2 == self.slave {
                            if b % 2 == 1 {
                                self.phase = Phase::Sending;
                                self.loaded = true;
                            } else {
                                self.phase = Phase::Selecting;
                            }
                        } else {
                            self.phase = Phase::Ignored;
                        }
                        self.log.push(Signal::Address(b));
                    },
                    Phase::Selecting => {
                        self.pointer = b;
                        self.phase = Phase::Storing;
                        self.log.push(Signal::Written(b));
                    },
                    Phase::Storing => {
                        self.regs.set(self.pointer as usize, b);
                        self.pointer = self.pointer.wrapping_add(1);
                        self.log.push(Signal::Written(b));
                    },
                    _ => {
                        self.log.push(Signal::Written(b));
                    },
                }
                Event::Done
            },
            Step::Receive => {
                let b = self.regs[self.pointer as usize];
                self.pointer = self.pointer.wrapping_add(1);
                self.log.push(Signal::Read(b));
                Event::Byte(b)
            },
            _ => Event::Done,
        }
    }
}

/// Runs a transaction that has not started against the simulation, to its end.
pub fn transfer(sim: &mut SimBus, transaction: Transaction) -> (r: Result<Vec<u8>, BusError>)
    requires
        old(sim)@.wf(),
        transaction.wf(),
        transaction@.cursor == 0,
        transaction@.polls == 0,
        transaction@.data == Seq::<u8>::empty(),
        transaction@.failure is None,
    ensures
        (final(sim)@, result_view(r)) == run_program(old(sim)@, transaction@.steps),
        final(sim)@.wf(),
        final(sim)@.slave == old(sim)@.slave,
{
    let ghost s0 = sim@;
    let ghost steps = transaction@.steps;
    let mut t = transaction;
    loop
        invariant
            t.wf(),
            sim@.wf(),
            s0 == old(sim)@,
            sim@.slave == s0.slave,
            steps == transaction@.steps,
            t@.steps == steps,
            t@.failure is None ==> run_program(s0, steps) == run_from(sim@, steps, t@.cursor, t@.data),
            t@.failure matches Some(e) ==> run_program(s0, steps) == (sim@, Err::<Seq<u8>, BusError>(e)),
        decreases
            (if t@.failure is None { 1int } else { 0int }),
            t@.steps.len() - t@.cursor,
            t@.limit - t@.polls,
    {
        match t.action() {
            Action::Perform(step) => {
                let event = sim.respond(step);
                t.advance(event);
            },
            Action::Complete => {
                return Ok(t.into_bytes());
            },
            Action::Fail(e) => {
                return Err(e);
            },
        }
    }
}

} // verus!
