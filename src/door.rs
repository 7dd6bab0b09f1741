//! The door of one elevator: a guarded open/close cycle with a dwell in the
//! middle of each transition.
use vstd::prelude::*;

verus! {

/// Where a door stands in its open/close cycle.
#[derive(Clone, Copy, Debug, PartialEq, Eq, Structural)]
pub enum DoorState {
    Closed,
    Opening,
    Open,
    Closing,
}

/// A door. `open` and `close` start a transition; the dwell that follows is
/// waited out by whoever drives the door, who then calls `complete_dwell`.
#[derive(Clone, Copy, Debug)]
pub struct Door {
    state: DoorState,
}

impl View for Door {
    type V = DoorState;

    closed spec fn view(&self) -> DoorState {
        self.state
    }
}

impl Door {
    /// A closed door.
    pub fn new() -> (d: Door)
        ensures
            d@ == DoorState::Closed,
    {
        Door { state: DoorState::Closed }
    }

    /// The state the door is in now.
    pub fn state(&self) -> (s: DoorState)
        ensures
            s == self@,
    {
        self.state
    }

    /// Starts opening the door. Only a closed door starts to open; on any
    /// other door this does nothing. Returns whether the door started to open.
    pub fn open(&mut self) -> (started: bool)
        ensures
            started == (old(self)@ == DoorState::Closed),
            started ==> final(self)@ == DoorState::Opening,
            !started ==> final(self)@ == old(self)@,
    {
        if self.state == DoorState::Closed {
            self.state = DoorState::Opening;
            true
        } else {
            false
        }
    }

    /// Starts closing the door. Only an open door starts to close; on any
    /// other door this does nothing. Returns whether the door started to close.
    pub fn close(&mut self) -> (started: bool)
        ensures
            started == (old(self)@ == DoorState::Open),
            started ==> final(self)@ == DoorState::Closing,
            !started ==> final(self)@ == old(self)@,
    {
        if self.state == DoorState::Open {
            self.state = DoorState::Closing;
            true
        } else {
            false
        }
    }

    /// Ends the dwell of a transition in progress: an opening door is then
    /// open and a closing door closed. A door at rest stays as it is.
    pub fn complete_dwell(&mut self)
        ensures
            final(self)@ == match old(self)@ {
                DoorState::Opening => DoorState::Open,
                DoorState::Closing => DoorState::Closed,
                s => s,
            },
    {
        match self.state {
            DoorState::Opening => {
                self.state = DoorState::Open;
            },
            DoorState::Closing => {
                self.state = DoorState::Closed;
            },
            _ => {},
        }
    }
}

} // verus!
