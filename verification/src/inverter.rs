//! Per-device session state: the wrapping request sequence counter and the
//! three-state availability tracker driven by transport outcomes.
//!
//! The tracker starts in `Unknown`; a successful poll moves it to `Online`,
//! a failed one to `Offline`, and `Unknown` is never re-entered.  A
//! transition is reported only when the state actually changes, so repeated
//! identical outcomes report nothing.

use vstd::prelude::*;

verus! {

/// Availability of the polled device.
#[derive(Clone, Copy, Debug, PartialEq, Eq, Structural)]
pub enum NetworkState {
    Unknown,
    Online,
    Offline,
}

/// Why one poll produced no telemetry.  None is fatal: the poll loop feeds
/// the failure into the tracker and proceeds to the next tick.
#[derive(Clone, Copy, Debug, PartialEq, Eq, Structural)]
pub enum TransportError {
    /// Connecting to or writing at the device failed; it is presumed
    /// offline.
    Unreachable,
    /// The connection stood but no usable response arrived.
    ReadFailed,
    /// The response arrived but its payload did not decode.
    DecodeFailed,
}

/// How aggressively the device is polled; the cadence itself is the poll
/// loop's business.
#[derive(Clone, Copy, Debug, PartialEq, Eq, Structural)]
pub enum Mode {
    Cooperative,
    Exclusive,
}

/// Session state for one inverter.
pub struct Inverter {
    state: NetworkState,
    sequence: u16,
    mode: Mode,
}

/// The state an outcome drives the tracker into: `Online` after a success,
/// `Offline` after any failure.
pub open spec fn state_after(ok: bool) -> NetworkState {
    if ok {
        NetworkState::Online
    } else {
        NetworkState::Offline
    }
}

impl Inverter {
    pub closed spec fn spec_state(self) -> NetworkState {
        self.state
    }

    pub closed spec fn spec_sequence(self) -> u16 {
        self.sequence
    }

    pub closed spec fn spec_mode(self) -> Mode {
        self.mode
    }

    pub fn new(mode: Mode) -> (r: Self)
        ensures
            r.spec_state() == NetworkState::Unknown,
            r.spec_sequence() == 0u16,
            r.spec_mode() == mode,
    {
        Inverter { state: NetworkState::Unknown, sequence: 0u16, mode }
    }

    pub fn state(&self) -> (r: NetworkState)
        ensures
            r == self.spec_state(),
    {
        self.state
    }

    pub fn mode(&self) -> (r: Mode)
        ensures
            r == self.spec_mode(),
    {
        self.mode
    }

    /// Advances the request sequence counter, wrapping silently on overflow,
    /// and returns the new value to put into the next request frame.
    pub fn next_sequence(&mut self) -> (s: u16)
        ensures
            final(self).spec_sequence() == (old(self).spec_sequence() + 1) % 0x1_0000,
            s == final(self).spec_sequence(),
            final(self).spec_state() == old(self).spec_state(),
            final(self).spec_mode() == old(self).spec_mode(),
    {
        self.sequence = self.sequence.wrapping_add(1);
        self.sequence
    }

    /// Feeds one transport outcome into the availability tracker.  Returns
    /// the new state when it differs from the previous one, and `None` when
    /// the outcome repeats the current state.  The tracker never returns to
    /// `Unknown`.
    pub fn update(&mut self, ok: bool) -> (t: Option<NetworkState>)
        ensures
            final(self).spec_state() == state_after(ok),
            final(self).spec_state() != NetworkState::Unknown,
            t == if state_after(ok) != old(self).spec_state() {
                Some(state_after(ok))
            } else {
                None::<NetworkState>
            },
            final(self).spec_sequence() == old(self).spec_sequence(),
            final(self).spec_mode() == old(self).spec_mode(),
    {
        let new_state = if ok {
            NetworkState::Online
        } else {
            NetworkState::Offline
        };
        self.set_state(new_state)
    }

    /// Records a new availability state; reports it only on change.
    fn set_state(&mut self, new_state: NetworkState) -> (t: Option<NetworkState>)
        ensures
            final(self).spec_state() == new_state,
            t == if new_state != old(self).spec_state() {
                Some(new_state)
            } else {
                None::<NetworkState>
            },
            final(self).spec_sequence() == old(self).spec_sequence(),
            final(self).spec_mode() == old(self).spec_mode(),
    {
        if self.state != new_state {
            self.state = new_state;
            Some(new_state)
        } else {
            None
        }
    }
}

} // verus!
