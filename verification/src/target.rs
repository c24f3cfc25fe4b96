//! The PICOBOOT targets: which USB identity a target answers to and the
//! flash geometry and stack pointer that belong to it.

use vstd::prelude::*;

use crate::{
    FLASH_END_RP2040, FLASH_END_RP2350, FLASH_START, PAGE_SIZE, PICOBOOT_PID_RP2040,
    PICOBOOT_PID_RP2350, PICOBOOT_VID, SECTOR_SIZE, STACK_POINTER_RP2040, STACK_POINTER_RP2350,
};

verus! {

/// Target type for a PICOBOOT connection
#[derive(Debug, Clone, PartialEq, Eq, Structural)]
pub enum Target {
    /// RP2040/Pico target
    Rp2040,
    /// RP2350/Pico 2 target
    Rp2350,
    /// Custom target with specified VID/PID.  Used for an RP2040/RP2350 with
    /// non-standard VID/PIDs written via OTP.
    ///
    /// Some operations do not support custom targets, as they require
    /// knowledge of the target type; such a target has no known flash end
    /// and no default stack pointer.
    Custom { vid: u16, pid: u16 },
}

impl Target {
    /// The USB Product ID that this target answers to.
    pub open spec fn spec_pid(self) -> u16 {
        match self {
            Target::Rp2040 => PICOBOOT_PID_RP2040,
            Target::Rp2350 => PICOBOOT_PID_RP2350,
            Target::Custom { vid: _, pid } => pid,
        }
    }

    /// The USB Vendor ID that this target answers to.
    pub open spec fn spec_vid(self) -> u16 {
        match self {
            Target::Rp2040 => PICOBOOT_VID,
            Target::Rp2350 => PICOBOOT_VID,
            Target::Custom { vid, pid: _ } => vid,
        }
    }

    /// The end of flash (one past its last byte), where the part is known.
    pub open spec fn spec_flash_end(self) -> Option<u32> {
        match self {
            Target::Rp2040 => Some(FLASH_END_RP2040),
            Target::Rp2350 => Some(FLASH_END_RP2350),
            Target::Custom { .. } => None,
        }
    }

    /// The initial stack pointer (the end of SRAM), where the part is known.
    pub open spec fn spec_default_stack_pointer(self) -> Option<u32> {
        match self {
            Target::Rp2040 => Some(STACK_POINTER_RP2040),
            Target::Rp2350 => Some(STACK_POINTER_RP2350),
            Target::Custom { .. } => None,
        }
    }

    /// Returns the USB Product ID for this target
    pub fn pid(&self) -> (r: u16)
        ensures
            r == self.spec_pid(),
    {
        match self {
            Target::Rp2040 => PICOBOOT_PID_RP2040,
            Target::Rp2350 => PICOBOOT_PID_RP2350,
            Target::Custom { vid: _, pid } => *pid,
        }
    }

    /// Returns the USB Vendor ID for this target
    pub fn vid(&self) -> (r: u16)
        ensures
            r == self.spec_vid(),
    {
        match self {
            Target::Rp2040 => PICOBOOT_VID,
            Target::Rp2350 => PICOBOOT_VID,
            Target::Custom { vid, pid: _ } => *vid,
        }
    }

    /// Returns the flash start address for this target
    pub fn flash_start(&self) -> (r: u32)
        ensures
            r == FLASH_START,
    {
        FLASH_START
    }

    /// Returns the flash end address for this target, or `None` for a
    /// custom target
    pub fn flash_end(&self) -> (r: Option<u32>)
        ensures
            r == self.spec_flash_end(),
    {
        match self {
            Target::Rp2040 => Some(FLASH_END_RP2040),
            Target::Rp2350 => Some(FLASH_END_RP2350),
            Target::Custom { vid: _, pid: _ } => None,
        }
    }

    /// Returns the flash sector size (the unit of erasing) for this target
    pub fn flash_sector_size(&self) -> (r: u32)
        ensures
            r == SECTOR_SIZE,
    {
        SECTOR_SIZE
    }

    /// Returns the flash page size (the unit of writing) for this target
    pub fn flash_page_size(&self) -> (r: u32)
        ensures
            r == PAGE_SIZE,
    {
        PAGE_SIZE
    }

    /// Returns the default initial stack pointer for this target, or `None`
    /// for a custom target
    pub fn default_stack_pointer(&self) -> (r: Option<u32>)
        ensures
            r == self.spec_default_stack_pointer(),
    {
        match self {
            Target::Rp2040 => Some(STACK_POINTER_RP2040),
            Target::Rp2350 => Some(STACK_POINTER_RP2350),
            Target::Custom { vid: _, pid: _ } => None,
        }
    }
}

} // verus!
