//! Properties that hold across the functions of the crate: the flash
//! geometry of every target, how the stock targets are told apart, and how
//! an access mode is encoded.

use vstd::prelude::*;

use crate::access::{access_byte, Access};
use crate::target::Target;
use crate::{
    FLASH_START, PAGE_SIZE, PICOBOOT_VID, ROM_END_RP2040, ROM_END_RP2350, ROM_START, SECTOR_SIZE,
    SRAM_START_RP2040, XIP_SRAM_END_RP2040, XIP_SRAM_END_RP2350, XIP_SRAM_START_RP2040,
    XIP_SRAM_START_RP2350, FLASH_END_RP2040, FLASH_END_RP2350, SRAM_END_RP2040, SRAM_END_RP2350,
};

verus! {

/// A flash sector, the unit of erasing, is a whole number of flash pages,
/// the unit of writing, on every target: erasing a sector never leaves part
/// of a page behind.
pub proof fn lemma_sector_is_whole_pages()
    ensures
        SECTOR_SIZE % PAGE_SIZE == 0,
        PAGE_SIZE < SECTOR_SIZE,
        PAGE_SIZE > 0,
{
}

/// Where a target's flash end is known, its flash is a non-empty range that
/// starts at the flash start and holds a whole number of sectors (and so of
/// pages).
pub proof fn lemma_flash_is_whole_sectors(t: Target)
    ensures
        t.spec_flash_end() matches Some(end) ==> {
            &&& FLASH_START < end
            &&& (end - FLASH_START) % (SECTOR_SIZE as int) == 0
            &&& (end - FLASH_START) % (PAGE_SIZE as int) == 0
        },
{
}

/// The flash end and the default stack pointer are known for exactly the
/// same targets: the stock RP2040 and RP2350 parts, never a custom one.
pub proof fn lemma_known_part(t: Target)
    ensures
        t.spec_flash_end() is Some <==> !(t is Custom),
        t.spec_default_stack_pointer() is Some <==> !(t is Custom),
{
}

/// On a stock part, the memory regions lie in ascending order without
/// overlap: ROM, then flash, then XIP SRAM, then SRAM, and the default stack
/// pointer is the end of SRAM, above all of flash.
pub proof fn lemma_memory_map_ordered(t: Target)
    ensures
        ROM_START < ROM_END_RP2040 <= FLASH_START,
        ROM_START < ROM_END_RP2350 <= FLASH_START,
        FLASH_END_RP2040 <= XIP_SRAM_START_RP2040 < XIP_SRAM_END_RP2040 <= SRAM_START_RP2040,
        FLASH_END_RP2350 <= XIP_SRAM_START_RP2350 < XIP_SRAM_END_RP2350 <= SRAM_START_RP2040,
        SRAM_START_RP2040 < SRAM_END_RP2040 < SRAM_END_RP2350,
        t matches Target::Rp2040 ==> t.spec_default_stack_pointer() == Some(SRAM_END_RP2040),
        t matches Target::Rp2350 ==> t.spec_default_stack_pointer() == Some(SRAM_END_RP2350),
        t.spec_flash_end() matches Some(end) ==> ({
            &&& end <= SRAM_START_RP2040
            &&& t.spec_default_stack_pointer() matches Some(sp) && end < sp
        }),
{
}

/// The two stock targets answer to the Raspberry Pi vendor ID and are told
/// apart by their product IDs alone.
pub proof fn lemma_stock_targets_by_pid(t1: Target, t2: Target)
    requires
        !(t1 is Custom),
        !(t2 is Custom),
    ensures
        t1.spec_vid() == PICOBOOT_VID,
        t2.spec_vid() == PICOBOOT_VID,
        t1.spec_pid() == t2.spec_pid() <==> t1 == t2,
{
}

/// A custom target answers to exactly the vendor and product IDs it was
/// made with.
pub proof fn lemma_custom_target_ids(vid: u16, pid: u16)
    ensures
        (Target::Custom { vid, pid }).spec_vid() == vid,
        (Target::Custom { vid, pid }).spec_pid() == pid,
{
}

/// Distinct access modes are sent as distinct bytes, each below 3, so the
/// device can tell every mode apart.
pub proof fn lemma_access_byte_injective(a: Access, b: Access)
    ensures
        access_byte(a) < 3,
        access_byte(a) == access_byte(b) <==> a == b,
{
}

} // verus!
