//! The arms of a biped.

use vstd::prelude::*;

verus! {

/// One of the two arms of a biped.
#[derive(Debug, Clone, Copy, PartialEq, Eq, Structural)]
pub enum Arm {
    Left,
    Right,
}

impl Arm {
    /// The numeric id of an arm: 0 for the left one, 1 for the right one.
    pub open spec fn spec_id(self) -> u8 {
        match self {
            Arm::Left => 0,
            Arm::Right => 1,
        }
    }

    /// The other arm.
    pub open spec fn spec_opposite(self) -> Arm {
        match self {
            Arm::Left => Arm::Right,
            Arm::Right => Arm::Left,
        }
    }

    /// The name of an arm.
    pub open spec fn spec_name(self) -> Seq<char> {
        match self {
            Arm::Left => "left"@,
            Arm::Right => "right"@,
        }
    }

    pub fn opposite(self) -> (other: Arm)
        ensures
            other == self.spec_opposite(),
    {
        if self == Arm::Left {
            Arm::Right
        } else {
            Arm::Left
        }
    }

    pub fn id(self) -> (id: u8)
        ensures
            id == self.spec_id(),
    {
        match self {
            Arm::Left => 0,
            Arm::Right => 1,
        }
    }

    pub fn to_str(self) -> (name: &'static str)
        ensures
            name@ == self.spec_name(),
    {
        match self {
            Arm::Left => "left",
            Arm::Right => "right",
        }
    }
}

} // verus!
