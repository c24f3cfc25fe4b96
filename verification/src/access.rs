//! The exclusive-access modes of the PICOBOOT EXCLUSIVE_ACCESS command, and
//! the direction of a data transfer.

use vstd::prelude::*;

verus! {

/// Exclusive access modes for PICOBOOT EXCLUSIVE_ACCESS command.
#[derive(Debug, Clone, Copy, PartialEq, Eq, Structural)]
pub enum Access {
    /// No restriction on USB Mass Storage operation
    NotExclusive,
    /// Disable USB Mass Storage writes (the host should see them as write
    /// protect failures, but in any case any active UF2 download will be
    /// aborted)
    Exclusive,
    /// Lock the USB Mass Storage Interface out by marking the drive media as
    /// not present (ejecting the drive)
    ExclusiveAndEject,
}

/// The byte that stands for an access mode in an EXCLUSIVE_ACCESS command.
pub open spec fn access_byte(access: Access) -> u8 {
    match access {
        Access::NotExclusive => 0,
        Access::Exclusive => 1,
        Access::ExclusiveAndEject => 2,
    }
}

impl vstd::std_specs::convert::FromSpecImpl<Access> for u8 {
    open spec fn obeys_from_spec() -> bool {
        true
    }

    open spec fn from_spec(access: Access) -> u8 {
        access_byte(access)
    }
}

impl From<Access> for u8 {
    fn from(access: Access) -> (r: u8) {
        match access {
            Access::NotExclusive => 0,
            Access::Exclusive => 1,
            Access::ExclusiveAndEject => 2,
        }
    }
}

/// Data transfer direction for PICOBOOT commands.
#[derive(Debug, Clone, Copy, PartialEq, Eq, Structural)]
pub enum Direction {
    /// Data transfer from RP2040/RP2350 to host
    In,
    /// Data transfer from host to RP2040/RP2350
    Out,
}

} // verus!
