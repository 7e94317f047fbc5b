//! Connection lifecycle states and their shared, readable storage.

use vstd::prelude::*;
use crate::text::{spec_dec, u64_to_dec};

verus! {

/// The closed set of connection lifecycle states.
///
/// `NotConnected` is the rest state after a failed connect or a detected
/// drop; `Disconnected` is set during teardown; `Connecting` is transient
/// during (re)connection attempts.
#[derive(Clone, Copy, Debug, PartialEq, Eq, Structural)]
pub enum State {
    Connected,
    Connecting,
    NotConnected,
    Disconnected,
}

impl State {
    /// The numeric code under which a state is stored and exposed.
    pub open spec fn spec_code(self) -> usize {
        match self {
            State::Connected => 0,
            State::Connecting => 1,
            State::NotConnected => 2,
            State::Disconnected => 3,
        }
    }

    pub fn code(self) -> (c: usize)
        ensures
            c == self.spec_code(),
    {
        match self {
            State::Connected => 0,
            State::Connecting => 1,
            State::NotConnected => 2,
            State::Disconnected => 3,
        }
    }

    /// Decodes a stored code; a value outside the closed set is reported,
    /// with the offending value spelled out in the message.
    pub fn try_from(val: usize) -> (r: Result<State, String>)
        ensures
            match r {
                Ok(s) => s.spec_code() == val,
                Err(m) => val > 3 && m@ == "Invalid state value: "@ + spec_dec(val as nat),
            },
    {
        match val {
            0 => Ok(State::Connected),
            1 => Ok(State::Connecting),
            2 => Ok(State::NotConnected),
            3 => Ok(State::Disconnected),
            _ => {
                let mut m = "Invalid state value: ".to_owned();
                let num = u64_to_dec(val as u64);
                m.append(num.as_str());
                Err(m)
            },
        }
    }

    /// The human-readable name of a state.
    pub open spec fn spec_name(self) -> Seq<char> {
        match self {
            State::Connected => "Connected"@,
            State::Connecting => "Connecting"@,
            State::NotConnected => "Not Connected"@,
            State::Disconnected => "Disconnected"@,
        }
    }

    pub fn name(self) -> (r: String)
        ensures
            r@ == self.spec_name(),
    {
        match self {
            State::Connected => "Connected".to_owned(),
            State::Connecting => "Connecting".to_owned(),
            State::NotConnected => "Not Connected".to_owned(),
            State::Disconnected => "Disconnected".to_owned(),
        }
    }

    /// The constant name a state is registered under for the host.
    pub open spec fn spec_host_name(self) -> Seq<char> {
        match self {
            State::Connected => "CONNECTED"@,
            State::Connecting => "CONNECTING"@,
            State::NotConnected => "NOT_CONNECTED"@,
            State::Disconnected => "DISCONNECTED"@,
        }
    }

    pub fn host_name(self) -> (r: String)
        ensures
            r@ == self.spec_host_name(),
    {
        match self {
            State::Connected => "CONNECTED".to_owned(),
            State::Connecting => "CONNECTING".to_owned(),
            State::NotConnected => "NOT_CONNECTED".to_owned(),
            State::Disconnected => "DISCONNECTED".to_owned(),
        }
    }

    /// All states, in code order: what the registration walks when it
    /// exposes the state constants to the host.
    pub fn all() -> (r: Vec<State>)
        ensures
            r@.len() == 4,
            forall|i: int| 0 <= i < 4 ==> (#[trigger] r@[i]).spec_code() == i,
    {
        let mut v: Vec<State> = Vec::new();
        v.push(State::Connected);
        v.push(State::Connecting);
        v.push(State::NotConnected);
        v.push(State::Disconnected);
        v
    }
}

/// Storage for a [`State`] that external readers may consult at any time.
///
/// In the running system this cell is shared between the actor task and
/// arbitrary readers; only the actor ever writes it. The contracts state
/// the sequential behaviour every reader relies on: a load returns exactly
/// the last value stored.
pub struct AtomicState {
    value: State,
}

impl View for AtomicState {
    type V = State;

    closed spec fn view(&self) -> State {
        self.value
    }
}

impl AtomicState {
    pub fn new(v: State) -> (s: AtomicState)
        ensures
            s@ == v,
    {
        AtomicState { value: v }
    }

    pub fn store(&mut self, val: State)
        ensures
            final(self)@ == val,
    {
        self.value = val;
    }

    pub fn load(&self) -> (r: State)
        ensures
            r == self@,
    {
        self.value
    }
}

} // verus!
