//! What holds of the enlightenment across register accesses: what the guest
//! reads, and what the overlay pages leave of its own memory.

use vstd::prelude::*;

use super::bits::{HV_X64_MSR_GUEST_OS_ID, HV_X64_MSR_HYPERCALL, HV_X64_MSR_REFERENCE_TSC};
use super::hypercall::{hypercall_page, is_enabled, page_of, written};
use super::overlay::{install_error, saved, Ov, PAGE_SIZE};
use super::tsc::scale_of;
use super::{
    counter, leaves, placed, taken_keeps_wf, tsc_page, Features, Hv, HypervMigrateState,
    RdmsrOutcome, WrmsrOutcome,
};
use crate::mem::GuestMem;

verus! {

/// An overlay lies on a backed page and kept all of it.
pub open spec fn kept(ov: Option<Ov>, mem: GuestMem) -> bool {
    ov matches Some(o) ==> {
        &&& o.gpa % 4096 == 0
        &&& o.original.len() == PAGE_SIZE
        &&& mem.maps(o.gpa as int, PAGE_SIZE as int)
    }
}

/// Two overlays do not lie on one page.
pub open spec fn on_two_pages(a: Option<Ov>, b: Option<Ov>) -> bool {
    a is Some && b is Some ==> a->0.gpa != b->0.gpa
}

/// `mem` with the page under an overlay put back.
pub open spec fn restored(mem: GuestMem, ov: Option<Ov>) -> GuestMem {
    placed(ov, false, 0, Seq::empty(), false, mem).1
}

impl Hv {
    /// Both overlays kept what was under them, and they do not meet.
    pub open spec fn laid(self) -> bool {
        &&& self.mem.whole()
        &&& kept(self.hypercall_overlay, self.mem)
        &&& kept(self.tsc_overlay, self.mem)
        &&& on_two_pages(self.hypercall_overlay, self.tsc_overlay)
    }
}

proof fn store_keeps_spans(m: GuestMem, gpa: int, data: Seq<u8>, at: int, len: int)
    ensures
        m.store(gpa, data).spans == m.spans,
        m.store(gpa, data).byte.dom() =~= m.byte.dom(),
        m.store(gpa, data).maps(at, len) == m.maps(at, len),
        m.whole() ==> m.store(gpa, data).whole(),
{
    let n = m.store(gpa, data);
    assert(n.spans == m.spans);
    assert(n.byte.dom() =~= m.byte.dom());
    if m.whole() {
        assert forall|i: int, a: int|
            0 <= i < n.spans.len() && (#[trigger] n.spans[i]).0 <= a < n.spans[i].0
                + n.spans[i].1 implies #[trigger] n.byte.dom().contains(a) by {
            assert(m.spans[i].0 <= a);
            assert(m.byte.dom().contains(a));
        }
    }
}

/// What every byte of memory is after a store.
proof fn store_bytes(m: GuestMem, gpa: int, data: Seq<u8>)
    requires
        m.whole(),
        m.maps(gpa, data.len() as int),
    ensures
        m.store(gpa, data).byte.dom() == m.byte.dom(),
        forall|a: int|
            gpa <= a < gpa + data.len() ==> #[trigger] m.store(gpa, data).byte[a] == data[a - gpa]
                && m.byte.dom().contains(a),
        forall|a: int|
            m.byte.dom().contains(a) && !(gpa <= a < gpa + data.len()) ==> #[trigger] m.store(
                gpa,
                data,
            ).byte[a] == m.byte[a],
{
    let i = choose|i: int|
        0 <= i < m.spans.len() && (#[trigger] m.spans[i]).0 <= gpa && gpa + data.len()
            <= m.spans[i].0 + m.spans[i].1;
    assert forall|a: int| gpa <= a < gpa + data.len() implies m.byte.dom().contains(a) by {
        assert(m.spans[i].0 <= a);
    }
    assert(m.store(gpa, data).byte.dom() =~= m.byte.dom());
}

/// Stores on two pages come to the same in either order.
proof fn stores_commute(m: GuestMem, a: u64, x: Seq<u8>, b: u64, y: Seq<u8>)
    requires
        m.whole(),
        a % 4096 == 0,
        b % 4096 == 0,
        a != b,
        x.len() == PAGE_SIZE,
        y.len() == PAGE_SIZE,
        m.maps(a as int, PAGE_SIZE as int),
        m.maps(b as int, PAGE_SIZE as int),
    ensures
        m.store(a as int, x).store(b as int, y) == m.store(b as int, y).store(a as int, x),
{
    store_keeps_spans(m, a as int, x, b as int, PAGE_SIZE as int);
    store_keeps_spans(m, b as int, y, a as int, PAGE_SIZE as int);
    let one = m.store(a as int, x).store(b as int, y);
    let two = m.store(b as int, y).store(a as int, x);
    assert(a + 4096 <= b || b + 4096 <= a);
    assert(one.byte =~= two.byte);
}

/// A store hides an earlier one on the same page.
proof fn store_hides(m: GuestMem, a: u64, x: Seq<u8>, y: Seq<u8>)
    requires
        m.whole(),
        x.len() == PAGE_SIZE,
        y.len() == PAGE_SIZE,
        m.maps(a as int, PAGE_SIZE as int),
    ensures
        m.store(a as int, x).store(a as int, y) == m.store(a as int, y),
{
    store_keeps_spans(m, a as int, x, a as int, PAGE_SIZE as int);
    assert(m.store(a as int, x).store(a as int, y).byte =~= m.store(a as int, y).byte);
}

/// A page that is stored as it was is no change.
proof fn store_of_itself(m: GuestMem, a: u64)
    requires
        m.whole(),
        m.maps(a as int, PAGE_SIZE as int),
    ensures
        m.store(a as int, m.read(a as int, PAGE_SIZE as int)) == m,
{
    let data = m.read(a as int, PAGE_SIZE as int);
    store_bytes(m, a as int, data);
    assert(m.store(a as int, data).byte =~= m.byte);
}

/// Bringing one overlay to where the guest wants it changes nothing of the
/// memory under both.
proof fn placed_keeps_memory(
    was: Option<Ov>,
    want: bool,
    gpa: u64,
    payload: Seq<u8>,
    refresh: bool,
    other: Option<Ov>,
    mem: GuestMem,
)
    requires
        mem.whole(),
        want ==> payload.len() == PAGE_SIZE && gpa % 4096 == 0,
        kept(was, mem),
        kept(other, mem),
        on_two_pages(was, other),
        on_two_pages(placed(was, want, gpa, payload, refresh, mem).0, other),
    ensures
        ({
            let (ov, after) = placed(was, want, gpa, payload, refresh, mem);
            &&& after.whole()
            &&& kept(ov, after)
            &&& kept(other, after)
            &&& restored(restored(after, ov), other) == restored(restored(mem, was), other)
            &&& restored(restored(after, other), ov) == restored(restored(mem, other), was)
        }),
{
    let (ov, after) = placed(was, want, gpa, payload, refresh, mem);
    let bare = restored(mem, was);
    let size = PAGE_SIZE as int;
    if was is Some {
        let w = was->0;
        store_keeps_spans(mem, w.gpa as int, w.original, gpa as int, size);
        store_keeps_spans(mem, w.gpa as int, w.original, w.gpa as int, size);
        if other is Some {
            store_keeps_spans(mem, w.gpa as int, w.original, other->0.gpa as int, size);
        }
    }
    let before = if ov is Some && was is Some && was->0.gpa == gpa {
        mem
    } else {
        bare
    };
    store_keeps_spans(before, gpa as int, payload, gpa as int, size);
    if other is Some {
        store_keeps_spans(before, gpa as int, payload, other->0.gpa as int, size);
    }
    // One overlay taken off leaves what was bare before.
    assert(restored(after, ov) == bare) by {
        if ov is Some {
            if was is Some && was->0.gpa == gpa {
                store_hides(mem, gpa, payload, was->0.original);
            } else {
                store_hides(bare, gpa, payload, saved(bare, gpa).original);
                store_of_itself(bare, gpa);
            }
        }
    }
    if other is Some {
        let o = other->0;
        if was is Some {
            let w = was->0;
            stores_commute(mem, w.gpa, w.original, o.gpa, o.original);
        }
        if ov is Some {
            stores_commute(after, ov->0.gpa, ov->0.original, o.gpa, o.original);
        }
    }
}

/// No write to an MSR changes the guest's own memory: what a pause then gives
/// back is what it would have given back before. Two overlays on one page are
/// left out: there a pause can leave the hypercall page behind.
pub proof fn guest_memory_survives_writes(hv: Hv, msr: u32, value: u64, now_ms: u64)
    requires
        hv.laid(),
        ({
            let after = hv.wrmsr(msr, value, now_ms).1;
            on_two_pages(after.hypercall_overlay, after.tsc_overlay)
        }),
    ensures
        hv.wrmsr(msr, value, now_ms).1.laid(),
        hv.wrmsr(msr, value, now_ms).1.paused().mem == hv.paused().mem,
{
    let hc = hv.hypercall_overlay;
    let tsc = hv.tsc_overlay;
    let page = hypercall_page();
    let new = written(hv.hypercall, value);
    let clock = tsc_page(scale_of(hv.features.tsc_freq_hz));
    if msr == HV_X64_MSR_GUEST_OS_ID {
        placed_keeps_memory(hc, false, 0, Seq::empty(), false, tsc, hv.mem);
    } else if msr == HV_X64_MSR_HYPERCALL && hv.os_id != 0 {
        placed_keeps_memory(hc, is_enabled(new), page_of(new), page, false, tsc, hv.mem);
    } else if msr == HV_X64_MSR_REFERENCE_TSC && hv.features.reference_tsc {
        placed_keeps_memory(tsc, is_enabled(value), page_of(value), clock, true, hc, hv.mem);
    }
}

/// Pausing gives the guest back exactly the memory it had before its two
/// pages were laid, as long as it did not lay them over each other.
pub proof fn pause_restores_memory(hv: Hv, hypercall: u64, reference_tsc: u64)
    requires
        hv.mem.whole(),
        hv.hypercall_overlay is None,
        hv.tsc_overlay is None,
        page_of(written(hv.hypercall, hypercall)) != page_of(reference_tsc),
    ensures
        hv.wr_hypercall(hypercall).wr_reference_tsc(reference_tsc).paused().mem == hv.mem,
{
    let new = written(hv.hypercall, hypercall);
    let first = hv.wr_hypercall(hypercall);
    let clock = tsc_page(scale_of(hv.features.tsc_freq_hz));
    if hv.os_id != 0 {
        let page = hypercall_page();
        placed_keeps_memory(None, is_enabled(new), page_of(new), page, false, None, hv.mem);
    }
    placed_keeps_memory(
        None,
        is_enabled(reference_tsc),
        page_of(reference_tsc),
        clock,
        true,
        first.hypercall_overlay,
        first.mem,
    );
}

/// A destination whose memory backs the pages lays both that the source had,
/// and keeps what was under each.
pub proof fn pages_are_reinstalled(dest: Hv, state: HypervMigrateState)
    requires
        dest.mem.whole(),
        dest.features.reference_tsc,
        dest.hypercall == 0,
        dest.hypercall_overlay is None,
        dest.tsc_overlay is None,
        state.guest_os_id != 0,
        is_enabled(state.hypercall),
        is_enabled(state.reference_tsc),
        page_of(state.hypercall) != page_of(state.reference_tsc),
        install_error(dest.mem, page_of(state.hypercall)) is None,
        install_error(dest.mem, page_of(state.reference_tsc)) is None,
    ensures
        ({
            let after = dest.imported(state);
            let page = page_of(state.hypercall);
            let clock = page_of(state.reference_tsc);
            &&& after.hypercall_overlay == Some(saved(dest.mem, page))
            &&& after.tsc_overlay == Some(saved(dest.mem, clock))
            &&& after.mem == dest.mem.store(page as int, hypercall_page()).store(
                clock as int,
                tsc_page(scale_of(dest.features.tsc_freq_hz)),
            )
        }),
{
    let page = page_of(state.hypercall);
    let clock = page_of(state.reference_tsc);
    let first = dest.mem.store(page as int, hypercall_page());
    store_keeps_spans(dest.mem, page as int, hypercall_page(), clock as int, PAGE_SIZE as int);
    store_bytes(dest.mem, page as int, hypercall_page());
    store_bytes(dest.mem, clock as int, dest.mem.read(clock as int, PAGE_SIZE as int));
    assert(saved(first, clock).original =~= saved(dest.mem, clock).original);
}

/// A destination that has only the hypercall page to lay does so, and lays no
/// other.
pub proof fn hypercall_page_is_reinstalled(dest: Hv, state: HypervMigrateState)
    requires
        dest.hypercall == 0,
        dest.hypercall_overlay is None,
        dest.tsc_overlay is None,
        !dest.features.reference_tsc || !is_enabled(state.reference_tsc),
        state.guest_os_id != 0,
        is_enabled(state.hypercall),
        install_error(dest.mem, page_of(state.hypercall)) is None,
    ensures
        ({
            let after = dest.imported(state);
            &&& after.hypercall_overlay == Some(saved(dest.mem, page_of(state.hypercall)))
            &&& after.tsc_overlay is None
            &&& after.mem == dest.mem.store(page_of(state.hypercall) as int, hypercall_page())
        }),
{
}

/// A write of the reset register, at 0x40000003, resets the guest exactly
/// when its bit 0 is set and the feature is on. Without the feature it
/// faults, and no other register resets anything.
pub proof fn reset_is_asked_by_one_bit(hv: Hv, msr: u32, value: u64, now_ms: u64)
    ensures
        ({
            let r = hv.wrmsr(msr, value, now_ms).0;
            let on = hv.features.reset;
            &&& r == WrmsrOutcome::Reset <==> msr == 0x4000_0003 && on && value % 2 == 1
            &&& msr == 0x4000_0003 && on && value % 2 == 0 ==> r == WrmsrOutcome::Handled
            &&& msr == 0x4000_0003 && !on ==> r == WrmsrOutcome::GpException
            &&& msr == 0x4000_0003 ==> hv.wrmsr(msr, value, now_ms).1 == hv
        }),
{
}

/// Which writes are taken, which fault and which belong to somebody else: the
/// processor index and the reference counter are read-only, the clock page
/// and the reset need their features, and every other register is unknown.
pub proof fn writes_are_sorted(hv: Hv, msr: u32, value: u64, now_ms: u64)
    ensures
        ({
            let (r, after) = hv.wrmsr(msr, value, now_ms);
            let known = 0x4000_0000 <= msr <= 0x4000_0003 || msr == 0x4000_0020 || msr
                == 0x4000_0021 || 0x4000_0100 <= msr <= 0x4000_0105;
            let fixed = msr == 0x4000_0002 || msr == 0x4000_0020;
            let off = (msr == 0x4000_0021 && !hv.features.reference_tsc) || (msr == 0x4000_0003
                && !hv.features.reset);
            &&& r == WrmsrOutcome::NotHandled <==> !known
            &&& r == WrmsrOutcome::GpException <==> fixed || off
            &&& r == WrmsrOutcome::GpException || r == WrmsrOutcome::NotHandled ==> after == hv
            &&& after.features == hv.features
            &&& after.ref_base == hv.ref_base
        }),
{
}

/// Which reads are taken, which fault and which belong to somebody else.
pub proof fn reads_are_sorted(hv: Hv, vcpu_id: i32, msr: u32, nanos: u128)
    ensures
        ({
            let r = hv.rdmsr(vcpu_id, msr, nanos);
            let known = 0x4000_0000 <= msr <= 0x4000_0003 || msr == 0x4000_0020 || msr
                == 0x4000_0021 || 0x4000_0100 <= msr <= 0x4000_0105;
            let clock = msr == 0x4000_0020 || msr == 0x4000_0021;
            let off = (clock && !hv.features.reference_tsc) || (msr == 0x4000_0003
                && !hv.features.reset);
            &&& r == RdmsrOutcome::NotHandled <==> !known
            &&& r == RdmsrOutcome::GpException <==> off
            &&& msr == 0x4000_0002 && vcpu_id >= 0 ==> r == RdmsrOutcome::Handled(vcpu_id as u64)
            &&& msr == 0x4000_0003 && hv.features.reset ==> r == RdmsrOutcome::Handled(0)
            &&& msr == 0x4000_0105 ==> r == RdmsrOutcome::Handled(0x8000_0000_0000_0000)
        }),
{
}

/// The guest reads back what it wrote: its identity, the crash parameters one
/// by one, the clock page's register, and the hypercall register until its
/// lock bit is set. A write of one register leaves the others as they read.
pub proof fn registers_read_back(
    hv: Hv,
    msr: u32,
    value: u64,
    now_ms: u64,
    other: u32,
    vcpu_id: i32,
    nanos: u128,
)
    requires
        hv.wf(),
    ensures
        ({
            let after = hv.wrmsr(msr, value, now_ms).1;
            let reads = msr == 0x4000_0000 || 0x4000_0100 <= msr <= 0x4000_0104 || (msr
                == 0x4000_0021 && hv.features.reference_tsc);
            &&& reads ==> after.rdmsr(vcpu_id, msr, nanos) == RdmsrOutcome::Handled(value)
            &&& msr == 0x4000_0001 ==> after.rdmsr(vcpu_id, msr, nanos) == RdmsrOutcome::Handled(
                if hv.hypercall / 2 % 2 == 1 {
                    hv.hypercall
                } else {
                    value
                },
            )
            &&& other != msr && !(msr == 0x4000_0000 && value == 0 && other == 0x4000_0001)
                ==> after.rdmsr(vcpu_id, other, nanos) == hv.rdmsr(vcpu_id, other, nanos)
            &&& msr == 0x4000_0000 && value == 0 ==> after.rdmsr(vcpu_id, 0x4000_0001, nanos)
                == RdmsrOutcome::Handled((hv.hypercall / 2 * 2) as u64)
        }),
{
}

/// The CPUID leaves run from 0x40000000 without a gap up to the one that the
/// first of them names, and spell the hypervisor's name.
pub proof fn cpuid_leaves_are_consecutive(f: Features, i: int)
    ensures
        ({
            let l = leaves(f);
            &&& l.len() == if f.frequencies {
                7int
            } else {
                6
            }
            &&& l[0].vce_eax == 0x4000_0000 + l.len() - 1
            &&& l[0].vce_ebx == 0x7263_694D && l[0].vce_ecx == 0x666F_736F && l[0].vce_edx
                == 0x7648_2074
            &&& l[1].vce_eax == 0x3123_7648
            &&& l[3].vce_edx == 0x400
            &&& l[4].vce_eax == 0x20 && l[4].vce_ebx == 0xFFFF_FFFF
            &&& 0 <= i < l.len() ==> {
                &&& l[i].vce_function == 0x4000_0000 + i
                &&& l[i].vce_index == 0
                &&& l[i].vce_flags == 0
                &&& i != 0 && i != 4 ==> l[i].vce_ebx == 0
                &&& i != 0 ==> l[i].vce_ecx == 0
                &&& i != 0 && i != 3 ==> l[i].vce_edx == 0
                &&& i == 2 || i > 4 ==> l[i].vce_eax == 0
            }
        }),
{
}

/// A privilege bit of leaf 0x40000003 is set exactly where the register that
/// it speaks of can be used.
pub proof fn privileges_match_the_registers(
    hv: Hv,
    vcpu_id: i32,
    nanos: u128,
    value: u64,
    now_ms: u64,
)
    ensures
        ({
            let eax = leaves(hv.features)[3].vce_eax;
            let faults = |msr: u32| hv.rdmsr(vcpu_id, msr, nanos) == RdmsrOutcome::GpException;
            let refused = |msr: u32|
                hv.wrmsr(msr, value, now_ms).0 == WrmsrOutcome::GpException;
            &&& eax / 0x2 % 2 == 1 <==> !faults(0x4000_0020)
            &&& eax / 0x200 % 2 == 1 <==> !faults(0x4000_0021)
            &&& eax / 0x200 % 2 == 1 <==> !refused(0x4000_0021)
            &&& eax / 0x20 % 2 == 1 <==> !faults(0x4000_0001)
            &&& eax / 0x40 % 2 == 1 <==> !faults(0x4000_0002)
            &&& eax / 0x80 % 2 == 1 <==> !refused(0x4000_0003)
            &&& eax / 0x100 % 2 == 1 <==> hv.features.frequencies
            &&& eax % 2 == 0 && eax / 4 % 8 == 0 && eax / 0x400 == 0
        }),
{
}

/// The reference counter counts 100 ns from its base, and stays at its
/// largest value.
pub proof fn counter_counts_tenths_of_microseconds(base: u64, nanos: u128)
    requires
        nanos + 100 <= u128::MAX,
    ensures
        counter(base, 0) == base,
        nanos < 100 ==> counter(base, nanos) == base,
        counter(base, nanos) < u64::MAX ==> counter(base, (nanos + 100) as u128) == counter(
            base,
            nanos,
        ) + 1,
        counter(base, nanos) == u64::MAX ==> counter(base, (nanos + 100) as u128) == u64::MAX,
{
}

/// The counter register reads the count, and every processor reads its own
/// index.
pub proof fn counter_register_counts(hv: Hv, vcpu_id: i32, nanos: u128)
    requires
        hv.features.reference_tsc,
        hv.ref_base + nanos / 100 <= u64::MAX,
    ensures
        hv.rdmsr(vcpu_id, 0x4000_0020, nanos) == RdmsrOutcome::Handled(
            (hv.ref_base + nanos / 100) as u64,
        ),
{
}

/// A guest that names itself and enables the hypercall page finds on it the
/// code that refuses every hypercall, `mov rax, 2; ret`, and zeros behind it.
/// Before it names itself, or with the page disabled, its memory is its own.
pub proof fn hypercall_page_holds_its_code(hv: Hv, value: u64, now_ms: u64, i: int)
    requires
        hv.mem.whole(),
        hv.hypercall_overlay is None,
        hv.hypercall / 2 % 2 == 0,
        hv.mem.maps(value / 4096 * 4096, 4096),
        0 <= i < 4096,
    ensures
        ({
            let after = hv.wrmsr(0x4000_0001, value, now_ms).1;
            let code = seq![0x48u8, 0xC7, 0xC0, 0x02, 0x00, 0x00, 0x00, 0xC3];
            let live = hv.os_id != 0 && value % 2 == 1;
            &&& live ==> after.mem.byte[value / 4096 * 4096 + i] == if i < 8 {
                code[i]
            } else {
                0
            }
            &&& !live ==> after.mem == hv.mem
        }),
{
    let at = value / 4096 * 4096;
    assert(page_of(value) == at);
    store_bytes(hv.mem, at, hypercall_page());
    let k = choose|k: int|
        0 <= k < hv.mem.spans.len() && (#[trigger] hv.mem.spans[k]).0 <= at && at + 4096
            <= hv.mem.spans[k].0 + hv.mem.spans[k].1;
    assert(hv.mem.spans[k].0 <= at + i < hv.mem.spans[k].0 + hv.mem.spans[k].1);
    assert(hv.mem.byte.dom().contains(at + i));
}

/// A guest that enables the clock page finds a valid one exactly where the
/// frequency has a scale: its sequence is 1 and its scale turns a second's
/// worth of ticks into ten million units, within one. Everything else on the
/// page is zero.
pub proof fn clock_page_is_in_guest_memory(hv: Hv, value: u64, now_ms: u64, i: int)
    requires
        hv.mem.whole(),
        hv.tsc_overlay is None,
        hv.features.reference_tsc,
        value % 2 == 1,
        hv.mem.maps(value / 4096 * 4096, 4096),
        0 <= i < 4096,
    ensures
        ({
            let after = hv.wrmsr(0x4000_0021, value, now_ms).1;
            let page = after.mem.read(value / 4096 * 4096, 4096);
            let valid = hv.features.tsc_freq_hz > 10_000_000;
            &&& page[0] == if valid {
                1int
            } else {
                0
            }
            &&& 1 <= i < 8 || 16 <= i ==> page[i] == 0
            &&& !valid ==> page[i] == 0
            &&& valid ==> 9_999_999 <= hv.features.tsc_freq_hz * crate::bytes::le64(page, 8)
                / 0x1_0000_0000_0000_0000 <= 10_000_000
        }),
{
    let at = value / 4096 * 4096;
    assert(page_of(value) == at);
    let scale = scale_of(hv.features.tsc_freq_hz);
    let content = tsc_page(scale);
    let after = hv.wrmsr(0x4000_0021, value, now_ms).1;
    super::tsc::scale_exists_above_ten_megahertz(hv.features.tsc_freq_hz);
    store_bytes(hv.mem, at, content);
    let k = choose|k: int|
        0 <= k < hv.mem.spans.len() && (#[trigger] hv.mem.spans[k]).0 <= at && at + 4096
            <= hv.mem.spans[k].0 + hv.mem.spans[k].1;
    assert forall|j: int| 0 <= j < 4096 implies after.mem.byte[at + j] == content[j] by {
        assert(hv.mem.spans[k].0 <= at + j < hv.mem.spans[k].0 + hv.mem.spans[k].1);
        assert(hv.mem.byte.dom().contains(at + j));
    }
    let page = after.mem.read(at, 4096);
    assert(page =~= content);
    if hv.features.tsc_freq_hz > 10_000_000 {
        let f = hv.features.tsc_freq_hz;
        let s = scale->0;
        super::tsc::scale_is_exact_within_one(f);
        assert(s != 0) by {
            if s == 0 {
                assert(f * s == 0);
            }
        }
        let bytes = crate::bytes::le64_bytes(s);
        crate::bytes::le64_round_trip(s);
        assert forall|j: int| 0 <= j < 8 implies content[8 + j] == bytes[j] by {}
    }
}

/// A crash report carries the five parameters as they stand, is made only by
/// a write of the control register with bit 63 set, and only while the budget
/// lasts. None already made is lost.
pub proof fn crash_reports_carry_parameters(hv: Hv, msr: u32, value: u64, now_ms: u64)
    requires
        hv.wf(),
    ensures
        ({
            let after = hv.wrmsr(msr, value, now_ms).1;
            let asked = msr == 0x4000_0105 && value >= 0x8000_0000_0000_0000;
            let paid = hv.budget.taken(now_ms as nat).0;
            &&& asked && paid ==> after.reports == hv.reports.push(hv.crash_p)
            &&& !(asked && paid) ==> after.reports == hv.reports
            &&& asked ==> after.budget.tokens <= hv.budget.burst && after.crash_p == hv.crash_p
            &&& !asked ==> after.budget == hv.budget
        }),
{
    taken_keeps_wf(hv.budget, now_ms as nat);
}

/// The budget that every VM starts with: within the first fifteen seconds four
/// crashes are reported and a fifth is not.
pub proof fn crash_reports_are_limited(hv: Hv, a: u64, b: u64, c: u64, d: u64, e: u64)
    requires
        hv.budget == (crate::ratelimit::Bucket {
            burst: super::CRASH_LOG_BURST as nat,
            period_ms: super::CRASH_LOG_PERIOD_MS as nat,
            tokens: super::CRASH_LOG_BURST as nat,
            since_ms: 0,
        }),
        a == 0,
        a <= b <= c <= d <= e < 15_000,
    ensures
        ({
            let ctl = 0x8000_0000_0000_0000u64;
            let h1 = hv.wrmsr(0x4000_0105, ctl, a).1;
            let h2 = h1.wrmsr(0x4000_0105, ctl, b).1;
            let h3 = h2.wrmsr(0x4000_0105, ctl, c).1;
            let h4 = h3.wrmsr(0x4000_0105, ctl, d).1;
            let h5 = h4.wrmsr(0x4000_0105, ctl, e).1;
            &&& h4.reports.len() == hv.reports.len() + 4
            &&& h5.reports.len() == hv.reports.len() + 4
        }),
{
    let b0 = hv.budget;
    assert(0nat / 15_000nat == 0);
    let b1 = b0.taken(a as nat).1;
    assert(b1.tokens == 3 && b1.since_ms == 0);
    let b2 = b1.taken(b as nat).1;
    assert(b as nat / 15_000nat == 0);
    assert(b2.tokens == 2 && b2.since_ms == 0);
    let b3 = b2.taken(c as nat).1;
    assert(c as nat / 15_000nat == 0);
    assert(b3.tokens == 1 && b3.since_ms == 0);
    let b4 = b3.taken(d as nat).1;
    assert(d as nat / 15_000nat == 0);
    assert(b4.tokens == 0 && b4.since_ms == 0);
    assert(e as nat / 15_000nat == 0);
}

/// The registers that the dispatcher hands over are those that can be read and
/// written here, and no others.
pub proof fn handled_registers_are_answered(
    hv: Hv,
    msr: u32,
    vcpu_id: i32,
    nanos: u128,
    value: u64,
    now_ms: u64,
)
    ensures
        super::bits::handled_msr(msr) <==> hv.rdmsr(vcpu_id, msr, nanos)
            != RdmsrOutcome::NotHandled,
        super::bits::handled_msr(msr) <==> hv.wrmsr(msr, value, now_ms).0
            != WrmsrOutcome::NotHandled,
{
}

/// An overlay goes on a whole page of 4096 bytes that is backed, and keeps
/// what was there.
pub proof fn overlays_go_on_backed_pages(mem: GuestMem, gpa: u64, i: int)
    requires
        0 <= i < 4096,
    ensures
        install_error(mem, gpa) is None <==> gpa % 4096 == 0 && mem.maps(gpa as int, 4096),
        install_error(mem, gpa) matches Some(e) ==> match e {
            super::overlay::OverlayError::Misaligned(g) => g == gpa && gpa % 4096 != 0,
            super::overlay::OverlayError::Unmapped(g) => g == gpa && gpa % 4096 == 0,
        },
        saved(mem, gpa).gpa == gpa,
        saved(mem, gpa).original.len() == 4096,
        saved(mem, gpa).original[i] == mem.byte[gpa + i],
{
}

/// A page register names its page by all but the low twelve bits and is
/// enabled by bit 0.
pub proof fn page_registers_name_a_page(raw: u64)
    ensures
        page_of(raw) % 4096 == 0,
        page_of(raw) <= raw < page_of(raw) + 4096,
        is_enabled(raw) <==> raw % 2 == 1,
{
}

} // verus!
