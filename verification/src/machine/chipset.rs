//! What the chipset tells the firmware about memory.

use vstd::prelude::*;

use super::hotplug::mem::MMIO_HOLE_BASE;

verus! {

/// How much of the RAM lies below the MMIO hole, and how much above it.
///
/// UEFI reads both back out of RTC NVRAM.
pub fn split_memory(mem_size: u64) -> (r: (u64, u64))
    ensures
        r.0 + r.1 == mem_size,
        r.0 == if mem_size <= MMIO_HOLE_BASE {
            mem_size
        } else {
            MMIO_HOLE_BASE
        },
{
    if mem_size <= MMIO_HOLE_BASE {
        (mem_size, 0)
    } else {
        (MMIO_HOLE_BASE, mem_size - MMIO_HOLE_BASE)
    }
}

/// RAM lies below the hole at 3 GiB as far as it fits, and the rest above it.
pub proof fn memory_is_split_at_the_hole(mem_size: u64, r: (u64, u64))
    requires
        call_ensures(split_memory, (mem_size,), r),
    ensures
        r.0 + r.1 == mem_size,
        mem_size <= 0xC000_0000 ==> r.1 == 0,
        mem_size > 0xC000_0000 ==> r.0 == 0xC000_0000,
{
}

} // verus!
