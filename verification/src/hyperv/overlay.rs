//! Guest-physical "overlay" pages.
//!
//! Some Hyper-V MSRs (HYPERCALL, REFERENCE_TSC) carry a guest physical
//! page number. The hypervisor must fill that page with a 4 KiB
//! payload. TLFS requires the original guest contents back when the
//! guest disables the overlay or moves it to a different page.
//!
//! There is one independent overlay per kind (hypercall, reference TSC). Two
//! kinds at the same PFN do not stack. TLFS allows that only as a guest bug,
//! and here the latest writer wins.

use vstd::prelude::*;

use crate::mem::{GuestMem, PhysMap};

verus! {

/// Bytes of a guest page.
pub const PAGE_SIZE: usize = 4096;

/// One installed overlay. `original` holds the 4 KiB the guest had
/// there, for restore on remove or relocate.
pub struct Overlay {
    pub gpa: u64,
    pub original: Vec<u8>,
}

/// An installed overlay: its page, and what the guest had there.
pub ghost struct Ov {
    pub gpa: u64,
    pub original: Seq<u8>,
}

impl View for Overlay {
    type V = Ov;

    open spec fn view(&self) -> Ov {
        Ov { gpa: self.gpa, original: self.original@ }
    }
}

/// Why an overlay cannot be installed.
#[derive(Debug, Clone, Copy, PartialEq, Eq, Structural)]
pub enum OverlayError {
    /// The GPA is not page-aligned.
    Misaligned(u64),
    /// The GPA is not mapped to guest RAM.
    Unmapped(u64),
}

/// Whether a page can be laid over at `gpa`, and why not.
pub open spec fn install_error(mem: GuestMem, gpa: u64) -> Option<OverlayError> {
    if gpa % 4096 != 0 {
        Some(OverlayError::Misaligned(gpa))
    } else if !mem.maps(gpa as int, PAGE_SIZE as int) {
        Some(OverlayError::Unmapped(gpa))
    } else {
        None
    }
}

/// The overlay that an install at `gpa` makes.
pub open spec fn saved(mem: GuestMem, gpa: u64) -> Ov {
    Ov { gpa, original: mem.read(gpa as int, PAGE_SIZE as int) }
}

/// Install `payload` at `gpa`, returning the saved original page.
pub fn install(physmap: &mut PhysMap, gpa: u64, payload: &[u8]) -> (r: Result<
    Overlay,
    OverlayError,
>)
    requires
        old(physmap).wf(),
        payload@.len() == PAGE_SIZE,
    ensures
        final(physmap).wf(),
        match install_error(old(physmap)@, gpa) {
            None => r is Ok && r->Ok_0@ == saved(old(physmap)@, gpa) && final(physmap)@ == old(
                physmap
            )@.store(gpa as int, payload@),
            Some(e) => r is Err && r->Err_0 == e && final(physmap)@ == old(physmap)@,
        },
{
    if gpa % 4096 != 0 {
        return Err(OverlayError::Misaligned(gpa));
    }
    let original = match physmap.read_bytes(gpa, PAGE_SIZE) {
        Some(page) => page,
        None => {
            return Err(OverlayError::Unmapped(gpa));
        },
    };
    physmap.write_bytes(gpa, payload);
    Ok(Overlay { gpa, original })
}

/// Restore an overlay's original page contents.
///
/// Best effort: if the GPA is no longer mapped, the restore is skipped.
/// No guest state is left there to corrupt.
pub fn remove(physmap: &mut PhysMap, ov: &Overlay)
    requires
        old(physmap).wf(),
    ensures
        final(physmap).wf(),
        final(physmap)@ == old(physmap)@.store(ov@.gpa as int, ov@.original),
{
    physmap.write_bytes(ov.gpa, ov.original.as_slice());
}

/// Restore the old page, then install at `new_gpa`.
pub fn relocate(physmap: &mut PhysMap, old_ov: &Overlay, new_gpa: u64, payload: &[u8]) -> (r: Result<
    Overlay,
    OverlayError,
>)
    requires
        old(physmap).wf(),
        payload@.len() == PAGE_SIZE,
    ensures
        final(physmap).wf(),
        ({
            let restored = old(physmap)@.store(old_ov@.gpa as int, old_ov@.original);
            match install_error(restored, new_gpa) {
                None => r is Ok && r->Ok_0@ == saved(restored, new_gpa) && final(physmap)@
                    == restored.store(new_gpa as int, payload@),
                Some(e) => r is Err && r->Err_0 == e && final(physmap)@ == restored,
            }
        }),
{
    remove(physmap, old_ov);
    install(physmap, new_gpa, payload)
}

/// Fill a page up with zeros.
pub(crate) fn pad_page(page: &mut Vec<u8>)
    requires
        old(page)@.len() <= PAGE_SIZE,
    ensures
        final(page)@ == old(page)@ + Seq::new(
            (PAGE_SIZE - old(page)@.len()) as nat,
            |i: int| 0u8,
        ),
        final(page)@.len() == PAGE_SIZE,
{
    assert(page@ =~= page@ + Seq::new(0, |i: int| 0u8));
    while page.len() < PAGE_SIZE
        invariant
            old(page)@.len() <= page@.len() <= PAGE_SIZE,
            page@ == old(page)@ + Seq::new((page@.len() - old(page)@.len()) as nat, |i: int| 0u8),
        decreases PAGE_SIZE - page@.len(),
    {
        page.push(0);
        assert(page@ =~= old(page)@ + Seq::new(
            (page@.len() - old(page)@.len()) as nat,
            |i: int| 0u8,
        ));
    }
}

/// Removing an overlay gives the guest back exactly the memory it had.
pub proof fn remove_undoes_install(m: PhysMap, gpa: u64, payload: Seq<u8>)
    requires
        m.wf(),
        payload.len() == PAGE_SIZE,
        install_error(m@, gpa) is None,
    ensures
        ({
            let over = m@.store(gpa as int, payload);
            let ov = saved(m@, gpa);
            over.store(ov.gpa as int, ov.original) == m@
        }),
{
    m.maps_in_range(gpa as int, PAGE_SIZE as int);
    let over = m@.store(gpa as int, payload);
    let ov = saved(m@, gpa);
    let back = over.store(ov.gpa as int, ov.original);
    assert(over.spans == m@.spans);
    assert(over.maps(gpa as int, PAGE_SIZE as int)) by {
        let i = choose|i: int|
            0 <= i < m@.spans.len() && (#[trigger] m@.spans[i]).0 <= gpa && gpa + PAGE_SIZE
                <= m@.spans[i].0 + m@.spans[i].1;
        assert(over.spans[i].0 <= gpa);
    }
    assert(back.byte =~= m@.byte);
}

} // verus!
