//! Reference TSC overlay page (TLFS 12.7).
//!
//! Windows converts RDTSC to 100 ns units with a per-VM scale and
//! offset that the hypervisor publishes in a guest-physical page.
//! Without it, Windows falls back to the slow ACPI PM timer.

use vstd::prelude::*;

use super::hypercall::{is_enabled, page_of};
use super::overlay::PAGE_SIZE;
use crate::bytes::{le32_bytes, le64_bytes, put_le32, put_le64};

verus! {

/// REFERENCE_TSC MSR layout, the same shape as HYPERCALL (TLFS 12.7.1).
#[derive(Clone, Copy, Debug, PartialEq, Eq, Structural)]
pub struct MsrReferenceTscValue(pub u64);

impl Default for MsrReferenceTscValue {
    fn default() -> (r: Self)
        ensures
            r.0 == 0,
    {
        MsrReferenceTscValue(0)
    }
}

impl MsrReferenceTscValue {
    pub const ENABLED: u64 = 1;

    pub const PFN_MASK: u64 = 0xFFFF_FFFF_FFFF_F000;

    pub fn enabled(self) -> (r: bool)
        ensures
            r == is_enabled(self.0),
    {
        self.0 % 2 == 1
    }

    pub fn gpa(self) -> (r: u64)
        ensures
            r == page_of(self.0),
    {
        self.0 - self.0 % 4096
    }

    pub fn raw(self) -> (r: u64)
        ensures
            r == self.0,
    {
        self.0
    }
}

/// Reference TSC page layout (TLFS 12.7.3).
///
/// Guest formula: `time_in_100ns = ((rdtsc * scale) >> 64) + offset`.
/// `sequence == 0` tells the guest the page is invalid and to fall
/// back to the OS clock. A valid page carries sequence 1.
#[derive(Clone, Copy, Debug, PartialEq, Eq, Structural)]
pub struct ReferenceTscPage {
    pub sequence: u32,
    pub reserved: u32,
    pub scale: u64,
    pub offset: i64,
}

/// The bits of a signed quadword as an unsigned one.
pub open spec fn unsigned(v: i64) -> u64 {
    if v >= 0 {
        v as u64
    } else {
        (v + 0x1_0000_0000_0000_0000) as u64
    }
}

impl ReferenceTscPage {
    /// The page's 4 KiB: its fields, then zeros.
    pub open spec fn bytes(self) -> Seq<u8> {
        le32_bytes(self.sequence) + le32_bytes(self.reserved) + le64_bytes(self.scale)
            + le64_bytes(unsigned(self.offset)) + Seq::new((PAGE_SIZE - 24) as nat, |i: int| 0u8)
    }

    pub fn into_page(self) -> (page: Vec<u8>)
        ensures
            page@ == self.bytes(),
            page@.len() == PAGE_SIZE,
    {
        let offset: u64 = if self.offset >= 0 {
            self.offset as u64
        } else {
            (self.offset as i128 + 0x1_0000_0000_0000_0000) as u64
        };
        let mut page: Vec<u8> = Vec::new();
        put_le32(&mut page, self.sequence);
        put_le32(&mut page, self.reserved);
        put_le64(&mut page, self.scale);
        put_le64(&mut page, offset);
        super::overlay::pad_page(&mut page);
        assert(page@ =~= self.bytes());
        page
    }
}

/// Hundred-nanosecond units in a second.
pub const HUNDRED_NS_PER_SEC: u64 = 10_000_000;

/// The fixed-point scale of a frequency, before it is cut to 64 bits.
pub open spec fn wide_scale(freq_hz: u64) -> int {
    (HUNDRED_NS_PER_SEC * 0x1_0000_0000_0000_0000) / (freq_hz as int)
}

/// The scale, where the frequency has one that fits in 64 bits.
pub open spec fn scale_of(freq_hz: u64) -> Option<u64> {
    if freq_hz == 0 || wide_scale(freq_hz) > u64::MAX {
        None
    } else {
        Some(wide_scale(freq_hz) as u64)
    }
}

/// Compute the 0.64 fixed-point scale factor that converts a guest
/// TSC tick into 100 ns units: `scale = (1e7 << 64) / guest_freq_hz`.
///
/// `None` if `guest_freq_hz` is zero or so low (10 MHz or less, no real
/// x86 part) that the scale does not fit in 64 bits. The caller then
/// publishes sequence 0 so the guest falls back to the PM timer.
pub fn compute_scale(guest_freq_hz: u64) -> (r: Option<u64>)
    ensures
        r == scale_of(guest_freq_hz),
{
    if guest_freq_hz == 0 {
        return None;
    }
    let scale: u128 = (HUNDRED_NS_PER_SEC as u128 * 0x1_0000_0000_0000_0000u128)
        / guest_freq_hz as u128;
    if scale > u64::MAX as u128 {
        None
    } else {
        Some(scale as u64)
    }
}

/// One second of ticks times the scale gives 1e7 units of 100 ns, within the
/// rounding of the last unit.
pub proof fn scale_is_exact_within_one(freq_hz: u64)
    requires
        scale_of(freq_hz) is Some,
    ensures
        ({
            let units = (freq_hz * scale_of(freq_hz)->0) / 0x1_0000_0000_0000_0000;
            HUNDRED_NS_PER_SEC - 1 <= units <= HUNDRED_NS_PER_SEC
        }),
{
    let f = freq_hz as int;
    let one = 0x1_0000_0000_0000_0000int;
    let k = HUNDRED_NS_PER_SEC * one;
    let s = k / f;
    vstd::arithmetic::div_mod::lemma_fundamental_div_mod(k, f);
    vstd::arithmetic::div_mod::lemma_mod_bound(k, f);
    assert(k - f < f * s <= k);
    let units = (f * s) / one;
    vstd::arithmetic::div_mod::lemma_fundamental_div_mod(f * s, one);
    vstd::arithmetic::div_mod::lemma_mod_bound(f * s, one);
    assert(one * units <= k < one * (units + 2));
}

/// A frequency has a usable scale exactly where it is above ten megahertz.
pub proof fn scale_exists_above_ten_megahertz(freq_hz: u64)
    ensures
        scale_of(freq_hz) is Some <==> freq_hz > HUNDRED_NS_PER_SEC,
{
    if freq_hz > 0 {
        let f = freq_hz as int;
        let one = 0x1_0000_0000_0000_0000int;
        let k = HUNDRED_NS_PER_SEC * one;
        vstd::arithmetic::div_mod::lemma_fundamental_div_mod(k, f);
        vstd::arithmetic::div_mod::lemma_mod_bound(k, f);
        let s = k / f;
        if f > HUNDRED_NS_PER_SEC {
            assert(s < one) by (nonlinear_arith)
                requires
                    f * s <= k,
                    k == HUNDRED_NS_PER_SEC * one,
                    f > HUNDRED_NS_PER_SEC,
                    one > 0,
            ;
        } else {
            assert(f * (s + 1) == f * s + f) by (nonlinear_arith);
            assert(s >= one) by (nonlinear_arith)
                requires
                    k < f * (s + 1),
                    k == HUNDRED_NS_PER_SEC * one,
                    0 < f <= HUNDRED_NS_PER_SEC,
                    one > 0,
            ;
        }
    }
}

/// The scale is the largest that does not make a second of ticks more than ten
/// million units of 2^64.
pub proof fn scale_is_rounded_down(freq_hz: u64)
    requires
        scale_of(freq_hz) is Some,
    ensures
        ({
            let s = scale_of(freq_hz)->0;
            s * freq_hz <= 10_000_000 * 0x1_0000_0000_0000_0000 < (s + 1) * freq_hz
        }),
{
    let f = freq_hz as int;
    let k = 10_000_000 * 0x1_0000_0000_0000_0000int;
    let s = k / f;
    vstd::arithmetic::div_mod::lemma_fundamental_div_mod(k, f);
    vstd::arithmetic::div_mod::lemma_mod_bound(k, f);
    assert(s * f == f * s && (s + 1) * f == f * s + f) by (nonlinear_arith);
}

} // verus!
