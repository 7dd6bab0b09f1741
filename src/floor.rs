//! The relay of one floor: it passes passengers' requests on to the
//! dispatcher under its own floor number.
use vstd::prelude::*;

use crate::messages::{ControlCommand, FloorCommand};

verus! {

/// The relay of one floor.
#[derive(Clone, Copy, Debug)]
pub struct Floor {
    id: u8,
}

impl View for Floor {
    type V = u8;

    closed spec fn view(&self) -> u8 {
        self.id
    }
}

impl Floor {
    /// The relay of floor `id`.
    pub fn new(id: u8) -> (f: Floor)
        ensures
            f@ == id,
    {
        Floor { id }
    }

    /// The floor this relay serves.
    pub fn id(&self) -> (r: u8)
        ensures
            r == self@,
    {
        self.id
    }

    /// The request to pass on to the dispatcher: the passenger's direction,
    /// tagged with this relay's floor whatever floor the passenger named.
    pub fn forward(&self, command: FloorCommand) -> (r: ControlCommand)
        ensures
            r == (ControlCommand::Request { floor: self@, direction: command->direction }),
    {
        match command {
            FloorCommand::Request { floor: _, direction } => ControlCommand::Request {
                floor: self.id,
                direction,
            },
        }
    }
}

} // verus!
