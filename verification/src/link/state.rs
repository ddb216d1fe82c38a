//! The operational state of a link, as one byte on the wire.

use crate::constants::{
    IF_OPER_DORMANT, IF_OPER_DOWN, IF_OPER_LOWERLAYERDOWN, IF_OPER_NOTPRESENT, IF_OPER_TESTING,
    IF_OPER_UNKNOWN, IF_OPER_UP,
};
use vstd::prelude::*;

verus! {

/// The operational state of a link.
#[derive(Debug, Clone, Copy, PartialEq, Eq)]
pub enum State {
    /// The state is not known.
    Unknown,
    /// A part of the hardware is missing.
    NotPresent,
    /// The link cannot carry packets.
    Down,
    /// The link that this one is stacked on is down.
    LowerLayerDown,
    /// The link is being tested.
    Testing,
    /// The link is up and waits for an event from outside.
    Dormant,
    /// The link can carry packets.
    Up,
    /// A number that names no state of the list above.
    Other(u8),
}

impl State {
    /// The state that the byte `code` stands for.
    pub open spec fn of_code(code: u8) -> State {
        match code {
            IF_OPER_UNKNOWN => State::Unknown,
            IF_OPER_NOTPRESENT => State::NotPresent,
            IF_OPER_DOWN => State::Down,
            IF_OPER_LOWERLAYERDOWN => State::LowerLayerDown,
            IF_OPER_TESTING => State::Testing,
            IF_OPER_DORMANT => State::Dormant,
            IF_OPER_UP => State::Up,
            _ => State::Other(code),
        }
    }

    /// The byte that the state is written as.
    pub open spec fn code(self) -> u8 {
        match self {
            State::Unknown => IF_OPER_UNKNOWN,
            State::NotPresent => IF_OPER_NOTPRESENT,
            State::Down => IF_OPER_DOWN,
            State::LowerLayerDown => IF_OPER_LOWERLAYERDOWN,
            State::Testing => IF_OPER_TESTING,
            State::Dormant => IF_OPER_DORMANT,
            State::Up => IF_OPER_UP,
            State::Other(code) => code,
        }
    }

    /// Whether a byte stands for the state: `Other` holds no number that
    /// has a name.
    pub open spec fn canonical(self) -> bool {
        match self {
            State::Other(code) => code > IF_OPER_UP,
            _ => true,
        }
    }

    /// The state that the byte `code` stands for.
    pub fn from_code(code: u8) -> (s: State)
        ensures
            s == State::of_code(code),
    {
        match code {
            IF_OPER_UNKNOWN => State::Unknown,
            IF_OPER_NOTPRESENT => State::NotPresent,
            IF_OPER_DOWN => State::Down,
            IF_OPER_LOWERLAYERDOWN => State::LowerLayerDown,
            IF_OPER_TESTING => State::Testing,
            IF_OPER_DORMANT => State::Dormant,
            IF_OPER_UP => State::Up,
            _ => State::Other(code),
        }
    }

    /// The byte that the state is written as.
    pub fn to_code(self) -> (code: u8)
        ensures
            code == self.code(),
    {
        match self {
            State::Unknown => IF_OPER_UNKNOWN,
            State::NotPresent => IF_OPER_NOTPRESENT,
            State::Down => IF_OPER_DOWN,
            State::LowerLayerDown => IF_OPER_LOWERLAYERDOWN,
            State::Testing => IF_OPER_TESTING,
            State::Dormant => IF_OPER_DORMANT,
            State::Up => IF_OPER_UP,
            State::Other(code) => code,
        }
    }
}

impl From<u8> for State {
    fn from(code: u8) -> (s: State) {
        State::from_code(code)
    }
}

impl vstd::std_specs::convert::FromSpecImpl<u8> for State {
    open spec fn obeys_from_spec() -> bool {
        true
    }

    open spec fn from_spec(code: u8) -> State {
        State::of_code(code)
    }
}

impl From<State> for u8 {
    fn from(state: State) -> (code: u8) {
        state.to_code()
    }
}

impl vstd::std_specs::convert::FromSpecImpl<State> for u8 {
    open spec fn obeys_from_spec() -> bool {
        true
    }

    open spec fn from_spec(state: State) -> u8 {
        state.code()
    }
}

/// Every byte stands for a state that is written as that byte; and a state
/// that a byte stands for is read back from the byte it is written as.
pub proof fn lemma_state_round_trip(code: u8, state: State)
    ensures
        State::of_code(code).code() == code,
        State::of_code(code).canonical(),
        state.canonical() ==> State::of_code(state.code()) == state,
{
}

} // verus!
