//! Hypercall MSR + page.
//!
//! TLFS section 3.13. The guest writes a GPA into HV_X64_MSR_HYPERCALL,
//! and the hypervisor fills that page with a code sequence the guest
//! can call. No hypercall is implemented: the page returns "not
//! supported" without a trap. This is enough for the Windows boot-time
//! probe. Performance hypercalls (TLB flush, IPI) are not enabled.

use vstd::prelude::*;

use super::overlay::PAGE_SIZE;

verus! {

/// HYPERCALL MSR layout (TLFS 3.13):
///   bit 0     Enabled
///   bit 1     Locked (once set, MSR becomes write-protected)
///   bits 2-11 Reserved (must be 0)
///   bits 12-63 Hypercall page PFN
#[derive(Clone, Copy, Debug, PartialEq, Eq, Structural)]
pub struct MsrHypercallValue(pub u64);

impl Default for MsrHypercallValue {
    fn default() -> (r: Self)
        ensures
            r.0 == 0,
    {
        MsrHypercallValue(0)
    }
}

/// Bit 0 of an MSR that places a page.
pub open spec fn is_enabled(raw: u64) -> bool {
    raw % 2 == 1
}

/// Bit 1 of the hypercall MSR.
pub open spec fn is_locked(raw: u64) -> bool {
    raw / 2 % 2 == 1
}

/// The page that an MSR places.
pub open spec fn page_of(raw: u64) -> u64 {
    (raw - raw % 4096) as u64
}

impl MsrHypercallValue {
    pub const ENABLED: u64 = 1;

    pub const LOCKED: u64 = 2;

    pub const PFN_MASK: u64 = 0xFFFF_FFFF_FFFF_F000;

    pub fn enabled(self) -> (r: bool)
        ensures
            r == is_enabled(self.0),
    {
        self.0 % 2 == 1
    }

    pub fn locked(self) -> (r: bool)
        ensures
            r == is_locked(self.0),
    {
        self.0 / 2 % 2 == 1
    }

    pub fn gpa(self) -> (r: u64)
        ensures
            r == page_of(self.0),
    {
        self.0 - self.0 % 4096
    }

    pub fn raw(self) -> (r: u64)
        ensures
            r == self.0,
    {
        self.0
    }

    /// Apply a guest write. Once `Locked` is set, the guest cannot
    /// clear it or change the PFN or Enabled.
    pub fn apply_write(self, new: u64) -> (r: Self)
        ensures
            r.0 == written(self.0, new),
    {
        if self.locked() {
            return self;
        }
        MsrHypercallValue(new)
    }
}

/// The hypercall MSR after a guest write.
pub open spec fn written(was: u64, new: u64) -> u64 {
    if is_locked(was) {
        was
    } else {
        new
    }
}

/// A locked MSR keeps its value through every guest write.
pub proof fn lock_is_sticky(was: u64, first: u64, second: u64)
    requires
        is_locked(written(was, first)),
    ensures
        written(written(was, first), second) == written(was, first),
{
}

/// The hypercall page: `mov rax, 2; ret`, then zeros.
pub open spec fn hypercall_page() -> Seq<u8> {
    seq![0x48u8, 0xc7, 0xc0, 0x02, 0x00, 0x00, 0x00, 0xc3] + Seq::new(
        (PAGE_SIZE - 8) as nat,
        |i: int| 0u8,
    )
}

/// Build the 4 KiB hypercall page contents.
///
/// The first 8 bytes are `mov rax, 2; ret`: return status
/// HV_STATUS_INVALID_HYPERCALL_CODE without a trap. The rest is zero.
/// Windows accepts this, and does not use the page for
/// performance-critical paths while their CPUID feature bits are clear.
pub fn build_page() -> (page: Vec<u8>)
    ensures
        page@ == hypercall_page(),
        page@.len() == PAGE_SIZE,
{
    let mut page: Vec<u8> = Vec::new();
    // 48 c7 c0 02 00 00 00   mov rax, 2
    page.push(0x48);
    page.push(0xc7);
    page.push(0xc0);
    page.push(0x02);
    page.push(0x00);
    page.push(0x00);
    page.push(0x00);
    // c3                     ret
    page.push(0xc3);
    super::overlay::pad_page(&mut page);
    assert(page@ =~= hypercall_page());
    page
}

} // verus!
