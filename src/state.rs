//! The user-interface state machine, driven by debounced key events.

use vstd::prelude::*;

use crate::mma8652fc::Accel;

verus! {

#[derive(Clone, Copy, PartialEq, Eq, Structural, Debug)]
pub enum ConfigPage {
    Save,
}

/// A debounced key event: button A, button B, both together, or nothing.
#[derive(Clone, Copy, PartialEq, Eq, Structural, Debug)]
pub enum Keys {
    A,
    B,
    AB,
    NoKey,
}

#[derive(Clone, Copy, PartialEq, Eq, Structural, Debug)]
pub enum State {
    Idle,
    Soldering,
    TemperatureControl,
    Config(ConfigPage),
    Sleep,
    Cooling,
    Thermometer,
}

/// The transition table of the interface: total over every state and key.
pub open spec fn next_state(state: State, keys: Keys) -> State {
    match (state, keys) {
        (State::Idle, Keys::A) => State::Soldering,
        (State::Idle, Keys::B) => State::Thermometer,
        (State::Soldering, Keys::A) => State::TemperatureControl,
        (State::Soldering, Keys::B) => State::TemperatureControl,
        (State::Soldering, Keys::AB) => State::Idle,
        (_, Keys::NoKey) => state,
        _ => State::Idle,
    }
}

/// What the machine holds: the last acceleration sample, the pending key
/// event and the current state.
pub struct MachineView {
    pub accel: Accel,
    pub keys: Keys,
    pub state: State,
}

pub struct StateMachine {
    accel: Accel,
    keys: Keys,
    state: State,
}

impl View for StateMachine {
    type V = MachineView;

    closed spec fn view(&self) -> MachineView {
        MachineView { accel: self.accel, keys: self.keys, state: self.state }
    }
}

impl StateMachine {
    /// A machine at rest: state Idle, no pending key, a zero sample.
    pub fn new() -> (r: Self)
        ensures
            r@.state == State::Idle,
            r@.keys == Keys::NoKey,
            r@.accel == (Accel { x: 0, y: 0, z: 0 }),
    {
        StateMachine { accel: Accel { x: 0, y: 0, z: 0 }, keys: Keys::NoKey, state: State::Idle }
    }

    /// Records a key event; it is consumed by the next `update_state`.
    pub fn update_keys(&mut self, keys: Keys)
        ensures
            final(self)@ == (MachineView { keys, ..old(self)@ }),
    {
        self.keys = keys;
    }

    pub fn get_accel(&self) -> (r: Accel)
        ensures
            r == self@.accel,
    {
        self.accel
    }

    /// Records the latest acceleration sample.
    pub fn update_accel(&mut self, accel: Accel)
        ensures
            final(self)@ == (MachineView { accel, ..old(self)@ }),
    {
        self.accel = accel;
    }

    pub fn current_state(&self) -> (r: State)
        ensures
            r == self@.state,
    {
        self.state
    }

    /// Takes one transition on the pending key event, then clears it.
    pub fn update_state(&mut self)
        ensures
            final(self)@.state == next_state(old(self)@.state, old(self)@.keys),
            final(self)@.keys == Keys::NoKey,
            final(self)@.accel == old(self)@.accel,
    {
        self.state = match (self.state, self.keys) {
            (State::Idle, Keys::A) => State::Soldering,
            (State::Idle, Keys::B) => State::Thermometer,
            (State::Soldering, Keys::A) | (State::Soldering, Keys::B) => State::TemperatureControl,
            (State::Soldering, Keys::AB) => State::Idle,
            (_, Keys::NoKey) => self.state,
            _ => State::Idle,
        };
        self.keys = Keys::NoKey;
    }
}

} // verus!
