//! The health states of a monitored target.

use vstd::prelude::*;

verus! {

/// How a target looked at its last check.
///
/// `Yellow` is reserved for a degraded target: no probe of this library
/// produces it.
#[derive(Clone, Copy, Debug, PartialEq, Eq, Structural)]
pub enum SystemStatus {
    Green,
    Yellow,
    Red,
}

/// The number that stands for a status: 1 for green, 2 for yellow, 3 for red.
pub open spec fn status_tag(status: SystemStatus) -> nat {
    match status {
        SystemStatus::Green => 1,
        SystemStatus::Yellow => 2,
        SystemStatus::Red => 3,
    }
}

/// The name under which a status appears in a status file.
pub open spec fn status_name(status: SystemStatus) -> Seq<char> {
    match status {
        SystemStatus::Green => "Green"@,
        SystemStatus::Yellow => "Yellow"@,
        SystemStatus::Red => "Red"@,
    }
}

impl SystemStatus {
    /// The numeric tag of this status.
    pub fn tag(self) -> (tag: u8)
        ensures
            tag == status_tag(self),
    {
        match self {
            SystemStatus::Green => 1,
            SystemStatus::Yellow => 2,
            SystemStatus::Red => 3,
        }
    }

    /// The symbolic name of this status.
    pub fn name(self) -> (name: &'static str)
        ensures
            name@ == status_name(self),
    {
        match self {
            SystemStatus::Green => "Green",
            SystemStatus::Yellow => "Yellow",
            SystemStatus::Red => "Red",
        }
    }
}

} // verus!
