//! Microsoft Hyper-V enlightenment.
//!
//! Implements the subset that Windows guests need:
//!
//!   * Hypervisor identification CPUID leaves 0x4000_0000 to 0x4000_0006
//!   * `relaxed timing` recommendation (suppresses CLOCK_WATCHDOG bugcheck)
//!   * `spinlock retries = 0xFFFFFFFF` (suppresses spinlock notifications)
//!   * `HV_X64_MSR_GUEST_OS_ID` / `HV_X64_MSR_HYPERCALL` (with overlay page)
//!   * `HV_X64_MSR_VP_INDEX` (per-vCPU readback)
//!   * `HV_X64_MSR_TIME_REF_COUNT` (monotonic 100 ns counter since VM boot)
//!   * `HV_X64_MSR_REFERENCE_TSC` (with overlay page, the largest perf gain)
//!   * `HV_X64_MSR_RESET` (writing the reset bit triggers a guest reset)
//!   * Crash dump MSRs `CRASH_P0..P4` + `CRASH_CTL` (the crash payload is
//!     reported)
//!
//! Synthetic interrupts (synic), synthetic timers (stimer), virtual
//! APIC, TLB-flush hypercalls and IPI hypercalls are not implemented.

pub mod bits;
pub mod hypercall;
pub mod laws;
pub mod overlay;
pub mod tsc;

use vstd::prelude::*;

use bits::{
    is_hyperv_msr, HV_CPUID_INTERFACE_EAX, HV_CPUID_VENDOR_EBX, HV_CPUID_VENDOR_ECX,
    HV_CPUID_VENDOR_EDX, HV_CRASH_CTL_NOTIFY, HV_LEAF3_EAX_FREQUENCIES, HV_LEAF3_EAX_HYPERCALL,
    HV_LEAF3_EAX_PARTITION_REFERENCE_COUNTER, HV_LEAF3_EAX_PARTITION_REFERENCE_TSC,
    HV_LEAF3_EAX_SYSTEM_RESET, HV_LEAF3_EAX_VP_INDEX, HV_LEAF3_EDX_GUEST_CRASH_MSRS,
    HV_LEAF4_EAX_RELAXED_TIMING, HV_X64_MSR_CRASH_CTL, HV_X64_MSR_CRASH_P0, HV_X64_MSR_CRASH_P4,
    HV_X64_MSR_GUEST_OS_ID, HV_X64_MSR_HYPERCALL, HV_X64_MSR_REFERENCE_TSC, HV_X64_MSR_RESET,
    HV_X64_MSR_TIME_REF_COUNT, HV_X64_MSR_VP_INDEX, HYPERV_MAX_CPUID_LEAF,
};
use hypercall::{hypercall_page, is_enabled, page_of, written, MsrHypercallValue};
use overlay::{install_error, saved, Ov, Overlay, PAGE_SIZE};
use tsc::{scale_of, MsrReferenceTscValue, ReferenceTscPage};

use crate::mem::{GuestMem, PhysMap};
use crate::ratelimit::{Bucket, TokenBucket};

verus! {

/// Feature gates for the enlightenment.
#[derive(Debug, Clone, Copy, PartialEq, Eq, Structural)]
pub struct Features {
    /// Advertise and handle `HV_X64_MSR_REFERENCE_TSC` and
    /// `TIME_REF_COUNT`.
    pub reference_tsc: bool,
    pub reset: bool,
    /// Advertise the `frequencies` CPUID leaf (0x4000_0006). Some
    /// Windows guests need it to skip TSC calibration.
    pub frequencies: bool,
    /// Guest TSC frequency in Hz, for the reference-TSC page scale
    /// factor. It must match the frequency the kernel VMM gives the
    /// guest. Ignored if `reference_tsc` is false.
    pub tsc_freq_hz: u64,
}

impl Default for Features {
    fn default() -> (r: Self)
        ensures
            r == (Features {
                reference_tsc: true,
                reset: true,
                frequencies: true,
                tsc_freq_hz: 0,
            }),
    {
        Features { reference_tsc: true, reset: true, frequencies: true, tsc_freq_hz: 0 }
    }
}

/// Crash reports that a guest can earn at once.
pub const CRASH_LOG_BURST: u32 = 4;

/// How long it takes to earn another, in milliseconds.
pub const CRASH_LOG_PERIOD_MS: u64 = 15_000;

/// One CPUID leaf.
#[derive(Debug, Clone, Copy, PartialEq, Eq, Structural)]
pub struct CpuidEntry {
    pub vce_function: u32,
    pub vce_index: u32,
    pub vce_flags: u32,
    pub vce_eax: u32,
    pub vce_ebx: u32,
    pub vce_ecx: u32,
    pub vce_edx: u32,
}

/// What a guest RDMSR comes to.
#[derive(Debug, Clone, Copy, PartialEq, Eq, Structural)]
pub enum RdmsrOutcome {
    Handled(u64),
    NotHandled,
    /// The guest gets a general protection fault.
    GpException,
}

/// What a guest WRMSR comes to.
#[derive(Debug, Clone, Copy, PartialEq, Eq, Structural)]
pub enum WrmsrOutcome {
    Handled,
    NotHandled,
    /// The guest gets a general protection fault.
    GpException,
    /// The guest asked for a reset.
    Reset,
}

/// The guest-visible state a migration carries.
#[derive(Debug, Clone, Copy)]
pub struct HypervMigrateState {
    pub guest_os_id: u64,
    pub hypercall: u64,
    pub reference_tsc: u64,
    pub crash_p: [u64; 5],
    pub time_ref_count: u64,
}

/// Per-VM Hyper-V state.
pub struct HyperV {
    features: Features,
    /// Reports a guest can earn by writing CRASH_CTL.
    crash_log_budget: TokenBucket,
    /// What `HV_X64_MSR_TIME_REF_COUNT` read when this VM started, in
    /// 100 ns units.
    ///
    /// Zero for a VM that booted here. A migration destination takes
    /// the source's last value, because the guest is told the counter
    /// is monotonic and a fresh process clock runs it backwards.
    ref_count_base: u64,
    msr_guest_os_id: u64,
    msr_hypercall: MsrHypercallValue,
    msr_reference_tsc: MsrReferenceTscValue,
    hypercall_overlay: Option<Overlay>,
    reference_tsc_overlay: Option<Overlay>,
    crash_p: [u64; 5],
    /// Crash parameters that have to be reported.
    reports: Vec<[u64; 5]>,
}

/// The enlightenment together with guest memory.
pub ghost struct Hv {
    pub features: Features,
    pub budget: Bucket,
    pub ref_base: u64,
    pub os_id: u64,
    pub hypercall: u64,
    pub reference_tsc: u64,
    pub hypercall_overlay: Option<Ov>,
    pub tsc_overlay: Option<Ov>,
    pub crash_p: Seq<u64>,
    pub reports: Seq<Seq<u64>>,
    pub mem: GuestMem,
}

pub open spec fn ov_view(o: Option<Overlay>) -> Option<Ov> {
    match o {
        Some(ov) => Some(ov@),
        None => None,
    }
}

/// Where an overlay page goes from `was` when the guest wants it at `gpa`, or
/// not at all: the overlay afterwards, and guest memory.
///
/// An overlay that stays where it is keeps the page that was saved under it.
/// `refresh` says whether it is then written again. One that moves gives the
/// guest its old page back first. Where the new page cannot be laid, there is
/// no overlay.
pub open spec fn placed(
    was: Option<Ov>,
    want: bool,
    gpa: u64,
    payload: Seq<u8>,
    refresh: bool,
    mem: GuestMem,
) -> (Option<Ov>, GuestMem) {
    let bare = match was {
        Some(ov) => mem.store(ov.gpa as int, ov.original),
        None => mem,
    };
    if want && was is Some && was->0.gpa == gpa {
        (
            was,
            if refresh {
                mem.store(gpa as int, payload)
            } else {
                mem
            },
        )
    } else if want && install_error(bare, gpa) is None {
        (Some(saved(bare, gpa)), bare.store(gpa as int, payload))
    } else {
        (None, bare)
    }
}

/// The reference TSC page for a scale. Without one its sequence is 0, which
/// tells the guest to fall back.
pub open spec fn tsc_page(scale: Option<u64>) -> Seq<u8> {
    match scale {
        Some(s) if s != 0 => ReferenceTscPage { sequence: 1, reserved: 0, scale: s, offset: 0 },
        _ => ReferenceTscPage { sequence: 0, reserved: 0, scale: 0, offset: 0 },
    }.bytes()
}

/// The reference counter after `elapsed_nanos` since boot.
pub open spec fn counter(base: u64, elapsed_nanos: u128) -> u64 {
    let elapsed = elapsed_nanos / 100;
    if base + elapsed > u64::MAX {
        u64::MAX
    } else {
        (base + elapsed) as u64
    }
}

impl Hv {
    /// What every access keeps: a hypercall page is laid only for a guest that
    /// named itself, and where the MSR says, and a reference TSC page only
    /// where its MSR says.
    pub open spec fn wf(self) -> bool {
        &&& self.budget.wf()
        &&& self.crash_p.len() == 5
        &&& self.hypercall_overlay matches Some(ov) ==> {
            &&& self.os_id != 0
            &&& is_enabled(self.hypercall)
            &&& ov.gpa == page_of(self.hypercall)
        }
        &&& self.tsc_overlay matches Some(ov) ==> {
            &&& is_enabled(self.reference_tsc)
            &&& ov.gpa == page_of(self.reference_tsc)
        }
    }

    pub open spec fn wr_guest_os_id(self, value: u64) -> Hv {
        if value == 0 {
            // The hypercall page goes with the guest's identity.
            let (ov, mem) = placed(self.hypercall_overlay, false, 0, Seq::empty(), false, self.mem);
            Hv {
                os_id: 0,
                hypercall: (self.hypercall - self.hypercall % 2) as u64,
                hypercall_overlay: ov,
                mem,
                ..self
            }
        } else {
            Hv { os_id: value, ..self }
        }
    }

    pub open spec fn wr_hypercall(self, value: u64) -> Hv {
        let new = written(self.hypercall, value);
        if self.os_id == 0 {
            // The page cannot become live before the guest names itself.
            Hv { hypercall: new, ..self }
        } else {
            let (ov, mem) = placed(
                self.hypercall_overlay,
                is_enabled(new),
                page_of(new),
                hypercall_page(),
                false,
                self.mem,
            );
            Hv { hypercall: new, hypercall_overlay: ov, mem, ..self }
        }
    }

    pub open spec fn wr_reference_tsc(self, value: u64) -> Hv {
        let (ov, mem) = placed(
            self.tsc_overlay,
            is_enabled(value),
            page_of(value),
            tsc_page(scale_of(self.features.tsc_freq_hz)),
            true,
            self.mem,
        );
        Hv { reference_tsc: value, tsc_overlay: ov, mem, ..self }
    }

    /// The crash parameters are reported, as far as the budget goes.
    pub open spec fn crashed(self, now_ms: u64) -> Hv {
        let (ok, budget) = self.budget.taken(now_ms as nat);
        Hv {
            budget,
            reports: if ok {
                self.reports.push(self.crash_p)
            } else {
                self.reports
            },
            ..self
        }
    }

    pub open spec fn rdmsr(self, vcpu_id: i32, msr: u32, elapsed_nanos: u128) -> RdmsrOutcome {
        if msr == HV_X64_MSR_GUEST_OS_ID {
            RdmsrOutcome::Handled(self.os_id)
        } else if msr == HV_X64_MSR_HYPERCALL {
            RdmsrOutcome::Handled(self.hypercall)
        } else if msr == HV_X64_MSR_VP_INDEX {
            RdmsrOutcome::Handled(vcpu_id as u64)
        } else if msr == HV_X64_MSR_TIME_REF_COUNT {
            if self.features.reference_tsc {
                RdmsrOutcome::Handled(counter(self.ref_base, elapsed_nanos))
            } else {
                RdmsrOutcome::GpException
            }
        } else if msr == HV_X64_MSR_REFERENCE_TSC {
            if self.features.reference_tsc {
                RdmsrOutcome::Handled(self.reference_tsc)
            } else {
                RdmsrOutcome::GpException
            }
        } else if msr == HV_X64_MSR_RESET {
            // A read sees no reset in progress.
            if self.features.reset {
                RdmsrOutcome::Handled(0)
            } else {
                RdmsrOutcome::GpException
            }
        } else if HV_X64_MSR_CRASH_P0 <= msr <= HV_X64_MSR_CRASH_P4 {
            RdmsrOutcome::Handled(self.crash_p[msr - HV_X64_MSR_CRASH_P0])
        } else if msr == HV_X64_MSR_CRASH_CTL {
            RdmsrOutcome::Handled(HV_CRASH_CTL_NOTIFY)
        } else {
            RdmsrOutcome::NotHandled
        }
    }

    pub open spec fn wrmsr(self, msr: u32, value: u64, now_ms: u64) -> (WrmsrOutcome, Hv) {
        if msr == HV_X64_MSR_GUEST_OS_ID {
            (WrmsrOutcome::Handled, self.wr_guest_os_id(value))
        } else if msr == HV_X64_MSR_HYPERCALL {
            (WrmsrOutcome::Handled, self.wr_hypercall(value))
        } else if msr == HV_X64_MSR_VP_INDEX || msr == HV_X64_MSR_TIME_REF_COUNT {
            (WrmsrOutcome::GpException, self)
        } else if msr == HV_X64_MSR_RESET {
            if !self.features.reset {
                (WrmsrOutcome::GpException, self)
            } else if value % 2 == 1 {
                (WrmsrOutcome::Reset, self)
            } else {
                (WrmsrOutcome::Handled, self)
            }
        } else if msr == HV_X64_MSR_REFERENCE_TSC {
            if self.features.reference_tsc {
                (WrmsrOutcome::Handled, self.wr_reference_tsc(value))
            } else {
                (WrmsrOutcome::GpException, self)
            }
        } else if HV_X64_MSR_CRASH_P0 <= msr <= HV_X64_MSR_CRASH_P4 {
            (
                WrmsrOutcome::Handled,
                Hv { crash_p: self.crash_p.update(msr - HV_X64_MSR_CRASH_P0, value), ..self },
            )
        } else if msr == HV_X64_MSR_CRASH_CTL {
            (
                WrmsrOutcome::Handled,
                if value >= HV_CRASH_CTL_NOTIFY {
                    self.crashed(now_ms)
                } else {
                    self
                },
            )
        } else {
            (WrmsrOutcome::NotHandled, self)
        }
    }

    /// A source's state put back, as the guest's own writes would: the guest's
    /// identity first, because the hypercall page needs it.
    pub open spec fn imported(self, state: HypervMigrateState) -> Hv {
        let hv = Hv {
            ref_base: state.time_ref_count,
            crash_p: state.crash_p@,
            ..self
        }.wr_guest_os_id(state.guest_os_id).wr_hypercall(state.hypercall);
        if self.features.reference_tsc {
            hv.wr_reference_tsc(state.reference_tsc)
        } else {
            hv
        }
    }

    /// Both overlays gone, and the guest's own bytes back.
    pub open spec fn paused(self) -> Hv {
        let (hc, mem) = placed(self.hypercall_overlay, false, 0, Seq::empty(), false, self.mem);
        let (tsc, mem) = placed(self.tsc_overlay, false, 0, Seq::empty(), false, mem);
        Hv { hypercall_overlay: hc, tsc_overlay: tsc, mem, ..self }
    }
}

/// A leaf without sub-leaves, which any index matches.
pub open spec fn leaf(func: u32, eax: u32, ebx: u32, ecx: u32, edx: u32) -> CpuidEntry {
    CpuidEntry {
        vce_function: func,
        vce_index: 0,
        vce_flags: 0,
        vce_eax: eax,
        vce_ebx: ebx,
        vce_ecx: ecx,
        vce_edx: edx,
    }
}

/// `bit` where a feature is on.
pub open spec fn feature_bit(on: bool, bit: u32) -> int {
    if on {
        bit as int
    } else {
        0
    }
}

/// The MSRs that leaf 0x4000_0003 grants. The two clock MSRs come together.
pub open spec fn privileges(f: Features) -> u32 {
    (HV_LEAF3_EAX_HYPERCALL + HV_LEAF3_EAX_VP_INDEX + feature_bit(
        f.reset,
        HV_LEAF3_EAX_SYSTEM_RESET,
    ) + feature_bit(f.frequencies, HV_LEAF3_EAX_FREQUENCIES) + feature_bit(
        f.reference_tsc,
        HV_LEAF3_EAX_PARTITION_REFERENCE_COUNTER,
    ) + feature_bit(f.reference_tsc, HV_LEAF3_EAX_PARTITION_REFERENCE_TSC)) as u32
}

/// The leaves of the enlightenment, in order.
pub open spec fn leaves(f: Features) -> Seq<CpuidEntry> {
    let base = seq![
        leaf(
            0x4000_0000,
            if f.frequencies {
                HYPERV_MAX_CPUID_LEAF
            } else {
                0x4000_0005
            },
            HV_CPUID_VENDOR_EBX,
            HV_CPUID_VENDOR_ECX,
            HV_CPUID_VENDOR_EDX,
        ),
        leaf(0x4000_0001, HV_CPUID_INTERFACE_EAX, 0, 0, 0),
        leaf(0x4000_0002, 0, 0, 0, 0),
        leaf(0x4000_0003, privileges(f), 0, 0, HV_LEAF3_EDX_GUEST_CRASH_MSRS),
        leaf(0x4000_0004, HV_LEAF4_EAX_RELAXED_TIMING, 0xFFFF_FFFF, 0, 0),
        leaf(0x4000_0005, 0, 0, 0, 0),
    ];
    if f.frequencies {
        base.push(leaf(0x4000_0006, 0, 0, 0, 0))
    } else {
        base
    }
}

fn cpuid_entry(func: u32, eax: u32, ebx: u32, ecx: u32, edx: u32) -> (r: CpuidEntry)
    ensures
        r == leaf(func, eax, ebx, ecx, edx),
{
    // Hyper-V leaves have no sub-leaves, so no flag asks for the index to
    // match.
    CpuidEntry {
        vce_function: func,
        vce_index: 0,
        vce_flags: 0,
        vce_eax: eax,
        vce_ebx: ebx,
        vce_ecx: ecx,
        vce_edx: edx,
    }
}

/// Bring an overlay to where the guest wants it.
fn place(
    physmap: &mut PhysMap,
    was: Option<Overlay>,
    want: bool,
    gpa: u64,
    payload: &[u8],
    refresh: bool,
) -> (r: Option<Overlay>)
    requires
        old(physmap).wf(),
        payload@.len() == PAGE_SIZE,
    ensures
        final(physmap).wf(),
        (ov_view(r), final(physmap)@) == placed(
            ov_view(was),
            want,
            gpa,
            payload@,
            refresh,
            old(physmap)@,
        ),
{
    match was {
        Some(ov) => {
            if want && ov.gpa == gpa {
                if refresh {
                    physmap.write_bytes(gpa, payload);
                }
                Some(ov)
            } else if want {
                match overlay::relocate(physmap, &ov, gpa, payload) {
                    Ok(new_ov) => Some(new_ov),
                    Err(_) => None,
                }
            } else {
                overlay::remove(physmap, &ov);
                None
            }
        },
        None => {
            if want {
                match overlay::install(physmap, gpa, payload) {
                    Ok(ov) => Some(ov),
                    Err(_) => None,
                }
            } else {
                None
            }
        },
    }
}

/// Take an overlay off, giving the guest its own bytes back.
fn lift(physmap: &mut PhysMap, was: Option<Overlay>)
    requires
        old(physmap).wf(),
    ensures
        final(physmap).wf(),
        placed(ov_view(was), false, 0, Seq::empty(), false, old(physmap)@) == (
            None::<Ov>,
            final(physmap)@,
        ),
{
    match was {
        Some(ov) => overlay::remove(physmap, &ov),
        None => {},
    }
}

impl HyperV {
    pub closed spec fn with(&self, mem: PhysMap) -> Hv {
        Hv {
            features: self.features,
            budget: self.crash_log_budget@,
            ref_base: self.ref_count_base,
            os_id: self.msr_guest_os_id,
            hypercall: self.msr_hypercall.0,
            reference_tsc: self.msr_reference_tsc.0,
            hypercall_overlay: ov_view(self.hypercall_overlay),
            tsc_overlay: ov_view(self.reference_tsc_overlay),
            crash_p: self.crash_p@,
            reports: self.reports@.map_values(|p: [u64; 5]| p@),
            mem: mem@,
        }
    }

    /// The reports' budget is well-formed.
    pub closed spec fn wf(&self) -> bool {
        self.crash_log_budget@.wf()
    }

    pub fn new(features: Features) -> (r: Self)
        ensures
            r.wf(),
            forall|mem: PhysMap| #[trigger]
                r.with(mem) == (Hv {
                    features,
                    budget: Bucket {
                        burst: CRASH_LOG_BURST as nat,
                        period_ms: CRASH_LOG_PERIOD_MS as nat,
                        tokens: CRASH_LOG_BURST as nat,
                        since_ms: 0,
                    },
                    ref_base: 0,
                    os_id: 0,
                    hypercall: 0,
                    reference_tsc: 0,
                    hypercall_overlay: None,
                    tsc_overlay: None,
                    crash_p: seq![0, 0, 0, 0, 0],
                    reports: Seq::empty(),
                    mem: mem@,
                }),
    {
        let r = HyperV {
            features,
            crash_log_budget: TokenBucket::new(CRASH_LOG_BURST, CRASH_LOG_PERIOD_MS),
            ref_count_base: 0,
            msr_guest_os_id: 0,
            msr_hypercall: MsrHypercallValue(0),
            msr_reference_tsc: MsrReferenceTscValue(0),
            hypercall_overlay: None,
            reference_tsc_overlay: None,
            crash_p: [0, 0, 0, 0, 0],
            reports: Vec::new(),
        };
        assert(r.crash_p@ =~= seq![0u64, 0, 0, 0, 0]);
        assert(r.reports@.map_values(|p: [u64; 5]| p@) =~= Seq::<Seq<u64>>::empty());
        r
    }

    /// Append the Hyper-V CPUID leaves to `entries`.
    ///
    /// The caller must sort again before it programs the kernel VMM, which
    /// requires sorted input.
    pub fn add_cpuid(&self, entries: &mut Vec<CpuidEntry>)
        ensures
            forall|mem: PhysMap|
                final(entries)@ == old(entries)@ + leaves((#[trigger] self.with(mem)).features),
    {
        let f = self.features;
        let max_leaf: u32 = if f.frequencies {
            HYPERV_MAX_CPUID_LEAF
        } else {
            0x4000_0005
        };
        // 0x4000_0000: vendor signature.
        entries.push(
            cpuid_entry(
                0x4000_0000,
                max_leaf,
                HV_CPUID_VENDOR_EBX,
                HV_CPUID_VENDOR_ECX,
                HV_CPUID_VENDOR_EDX,
            ),
        );
        // 0x4000_0001: interface signature ("Hv#1").
        entries.push(cpuid_entry(0x4000_0001, HV_CPUID_INTERFACE_EAX, 0, 0, 0));
        // 0x4000_0002: hypervisor version. Zero, so no version
        // semantics must hold across migration.
        entries.push(cpuid_entry(0x4000_0002, 0, 0, 0, 0));
        // 0x4000_0003: per-MSR access privileges.
        let mut leaf3: u32 = HV_LEAF3_EAX_HYPERCALL + HV_LEAF3_EAX_VP_INDEX;
        if f.reset {
            leaf3 = leaf3 + HV_LEAF3_EAX_SYSTEM_RESET;
        }
        if f.frequencies {
            leaf3 = leaf3 + HV_LEAF3_EAX_FREQUENCIES;
        }
        if f.reference_tsc {
            leaf3 = leaf3 + HV_LEAF3_EAX_PARTITION_REFERENCE_COUNTER;
            leaf3 = leaf3 + HV_LEAF3_EAX_PARTITION_REFERENCE_TSC;
        }
        // EDX: the crash MSRs are always handled, and both Windows and
        // Linux test this bit before they write them.
        entries.push(cpuid_entry(0x4000_0003, leaf3, 0, 0, HV_LEAF3_EDX_GUEST_CRASH_MSRS));
        // 0x4000_0004: recommended guest behaviors.
        // EAX = RELAXED_TIMING (the watchdog suppression bit).
        // EBX = 0xFFFFFFFF: the guest should never call out to the
        //       hypervisor on spinlock contention.
        entries.push(cpuid_entry(0x4000_0004, HV_LEAF4_EAX_RELAXED_TIMING, 0xFFFF_FFFF, 0, 0));
        // 0x4000_0005: implementation limits. All zero.
        entries.push(cpuid_entry(0x4000_0005, 0, 0, 0, 0));
        // 0x4000_0006: hardware features advertised by the host.
        // Without `frequencies`, max_leaf stops at 0x4000_0005 and the
        // leaf is not visible.
        if f.frequencies {
            entries.push(cpuid_entry(0x4000_0006, 0, 0, 0, 0));
        }
        assert(entries@ =~= old(entries)@ + leaves(f));
    }

    fn handle_wr_guest_os_id(&mut self, physmap: &mut PhysMap, value: u64)
        requires
            old(self).wf(),
            old(physmap).wf(),
        ensures
            final(self).wf(),
            final(physmap).wf(),
            final(self).with(*final(physmap)) == old(self).with(*old(physmap)).wr_guest_os_id(
                value,
            ),
    {
        self.msr_guest_os_id = value;
        // Writing 0 to GUEST_OS_ID clears the hypercall MSR's Enabled bit, so
        // the overlay goes too.
        if value == 0 {
            let raw: u64 = self.msr_hypercall.raw();
            self.msr_hypercall = MsrHypercallValue(raw - raw % 2);
            let was = self.hypercall_overlay.take();
            lift(physmap, was);
        }
    }

    fn handle_wr_hypercall(&mut self, physmap: &mut PhysMap, value: u64)
        requires
            old(self).wf(),
            old(physmap).wf(),
        ensures
            final(self).wf(),
            final(physmap).wf(),
            final(self).with(*final(physmap)) == old(self).with(*old(physmap)).wr_hypercall(value),
    {
        let new = self.msr_hypercall.apply_write(value);
        self.msr_hypercall = new;
        // The hypercall page cannot become live while GUEST_OS_ID is 0.
        if self.msr_guest_os_id == 0 {
            return;
        }
        let payload = hypercall::build_page();
        let was = self.hypercall_overlay.take();
        self.hypercall_overlay =
        place(physmap, was, new.enabled(), new.gpa(), payload.as_slice(), false);
    }

    fn handle_wr_reference_tsc(&mut self, physmap: &mut PhysMap, value: u64)
        requires
            old(self).wf(),
            old(physmap).wf(),
        ensures
            final(self).wf(),
            final(physmap).wf(),
            final(self).with(*final(physmap)) == old(self).with(*old(physmap)).wr_reference_tsc(
                value,
            ),
    {
        let new = MsrReferenceTscValue(value);
        self.msr_reference_tsc = new;
        // Without a usable frequency the page says so, and the guest falls
        // back. The GPA is still honored.
        let scale: u64 = match tsc::compute_scale(self.features.tsc_freq_hz) {
            Some(s) => s,
            None => 0,
        };
        self.publish_tsc_page(physmap, new, scale);
    }

    fn publish_tsc_page(&mut self, physmap: &mut PhysMap, msr: MsrReferenceTscValue, scale: u64)
        requires
            old(self).wf(),
            old(physmap).wf(),
        ensures
            final(self).wf(),
            final(physmap).wf(),
            ({
                let hv = old(self).with(*old(physmap));
                let (ov, mem) = placed(
                    hv.tsc_overlay,
                    is_enabled(msr.0),
                    page_of(msr.0),
                    tsc_page(
                        if scale == 0 {
                            None
                        } else {
                            Some(scale)
                        },
                    ),
                    true,
                    hv.mem,
                );
                final(self).with(*final(physmap)) == (Hv { tsc_overlay: ov, mem, ..hv })
            }),
    {
        let page = if scale == 0 {
            // Sequence=0 means "page invalid". The guest falls back.
            ReferenceTscPage { sequence: 0, reserved: 0, scale: 0, offset: 0 }
        } else {
            ReferenceTscPage { sequence: 1, reserved: 0, scale, offset: 0 }
        };
        let bytes = page.into_page();
        let was = self.reference_tsc_overlay.take();
        self.reference_tsc_overlay =
        place(physmap, was, msr.enabled(), msr.gpa(), bytes.as_slice(), true);
    }

    fn log_crash(&mut self, now_ms: u64)
        requires
            old(self).wf(),
        ensures
            final(self).wf(),
            forall|mem: PhysMap| #[trigger]
                final(self).with(mem) == old(self).with(mem).crashed(now_ms),
    {
        // CRASH_CTL is a guest WRMSR, so the reports need a cap.
        if !self.crash_log_budget.take(now_ms) {
            return;
        }
        self.reports.push(self.crash_p);
        assert(self.reports@.map_values(|p: [u64; 5]| p@) =~= old(self).reports@.map_values(
            |p: [u64; 5]| p@,
        ).push(self.crash_p@));
    }

    /// Hand over the crash parameters to report, oldest first, and forget
    /// them.
    pub fn take_reports(&mut self) -> (r: Vec<[u64; 5]>)
        requires
            old(self).wf(),
        ensures
            final(self).wf(),
            forall|mem: PhysMap|
                {
                    &&& r@.map_values(|p: [u64; 5]| p@) == (#[trigger] old(self).with(mem)).reports
                    &&& final(self).with(mem) == (Hv {
                        reports: Seq::empty(),
                        ..old(self).with(mem)
                    })
                },
    {
        let mut taken: Vec<[u64; 5]> = Vec::new();
        taken.append(&mut self.reports);
        assert(taken@ =~= old(self).reports@);
        assert(self.reports@.map_values(|p: [u64; 5]| p@) =~= Seq::<Seq<u64>>::empty());
        taken
    }

    /// The partition reference counter, in 100 ns units.
    ///
    /// Continues from the base a migration import set, so it never
    /// runs backwards for a guest that was told it is monotonic.
    pub fn time_ref_count(&self, elapsed_nanos: u128) -> (r: u64)
        ensures
            forall|mem: PhysMap|
                r == counter((#[trigger] self.with(mem)).ref_base, elapsed_nanos),
    {
        let wide: u128 = elapsed_nanos / 100;
        let elapsed: u64 = if wide > u64::MAX as u128 {
            u64::MAX
        } else {
            wide as u64
        };
        self.ref_count_base.saturating_add(elapsed)
    }

    /// The guest-visible state a migration carries.
    pub fn export_state(&self, elapsed_nanos: u128) -> (r: HypervMigrateState)
        ensures
            forall|mem: PhysMap|
                {
                    let hv = #[trigger] self.with(mem);
                    &&& r.guest_os_id == hv.os_id
                    &&& r.hypercall == hv.hypercall
                    &&& r.reference_tsc == hv.reference_tsc
                    &&& r.crash_p@ == hv.crash_p
                    &&& r.time_ref_count == counter(hv.ref_base, elapsed_nanos)
                },
    {
        HypervMigrateState {
            guest_os_id: self.msr_guest_os_id,
            hypercall: self.msr_hypercall.raw(),
            reference_tsc: self.msr_reference_tsc.raw(),
            crash_p: self.crash_p,
            time_ref_count: self.time_ref_count(elapsed_nanos),
        }
    }

    /// Put a source's enlightenment back.
    ///
    /// The MSR writes are replayed through the same handlers a guest
    /// goes through, so both overlay pages are reinstalled from the
    /// values rather than copied. GUEST_OS_ID goes first: the
    /// hypercall page cannot become live before it.
    pub fn import_state(&mut self, physmap: &mut PhysMap, state: &HypervMigrateState)
        requires
            old(self).wf(),
            old(physmap).wf(),
        ensures
            final(self).wf(),
            final(physmap).wf(),
            final(self).with(*final(physmap)) == old(self).with(*old(physmap)).imported(*state),
    {
        self.ref_count_base = state.time_ref_count;
        self.crash_p = state.crash_p;
        self.handle_wr_guest_os_id(physmap, state.guest_os_id);
        self.handle_wr_hypercall(physmap, state.hypercall);
        if self.features.reference_tsc {
            self.handle_wr_reference_tsc(physmap, state.reference_tsc);
        }
    }

    /// Drop overlay pages and restore the original guest contents.
    ///
    /// The migration source calls this before the final RAM pass, so
    /// the destination receives the guest's own bytes, not the overlay
    /// payloads. The destination reinstalls both overlays from the MSR
    /// values in [`Self::import_state`].
    pub fn pause_overlays(&mut self, physmap: &mut PhysMap)
        requires
            old(self).wf(),
            old(physmap).wf(),
        ensures
            final(self).wf(),
            final(physmap).wf(),
            final(self).with(*final(physmap)) == old(self).with(*old(physmap)).paused(),
    {
        let hypercall = self.hypercall_overlay.take();
        lift(physmap, hypercall);
        let reference_tsc = self.reference_tsc_overlay.take();
        lift(physmap, reference_tsc);
    }

    /// Whether the hypercall page is laid over guest memory.
    pub fn has_hypercall_overlay(&self) -> (r: bool)
        ensures
            forall|mem: PhysMap| r == (#[trigger] self.with(mem)).hypercall_overlay is Some,
    {
        self.hypercall_overlay.is_some()
    }

    /// A guest RDMSR on vCPU `vcpu_id`, so long after boot.
    pub fn rdmsr(&self, vcpu_id: i32, msr: u32, elapsed_nanos: u128) -> (r: RdmsrOutcome)
        ensures
            forall|mem: PhysMap|
                r == (#[trigger] self.with(mem)).rdmsr(vcpu_id, msr, elapsed_nanos),
    {
        if !is_hyperv_msr(msr) {
            return RdmsrOutcome::NotHandled;
        }
        if msr == HV_X64_MSR_GUEST_OS_ID {
            RdmsrOutcome::Handled(self.msr_guest_os_id)
        } else if msr == HV_X64_MSR_HYPERCALL {
            RdmsrOutcome::Handled(self.msr_hypercall.raw())
        } else if msr == HV_X64_MSR_VP_INDEX {
            RdmsrOutcome::Handled(vcpu_id as u64)
        } else if msr == HV_X64_MSR_TIME_REF_COUNT {
            // Read-only. Gated on the reference-TSC feature because one
            // privilege bit governs both.
            if self.features.reference_tsc {
                RdmsrOutcome::Handled(self.time_ref_count(elapsed_nanos))
            } else {
                RdmsrOutcome::GpException
            }
        } else if msr == HV_X64_MSR_REFERENCE_TSC {
            if self.features.reference_tsc {
                RdmsrOutcome::Handled(self.msr_reference_tsc.raw())
            } else {
                RdmsrOutcome::GpException
            }
        } else if msr == HV_X64_MSR_RESET {
            // The reset MSR acts on a write. A read returns 0 (no reset
            // in progress).
            if self.features.reset {
                RdmsrOutcome::Handled(0)
            } else {
                RdmsrOutcome::GpException
            }
        } else if msr == HV_X64_MSR_CRASH_CTL {
            // Bit 63 (NOTIFY) reads back as set, which tells the guest its
            // writes are accepted. Lower bits are zero.
            RdmsrOutcome::Handled(HV_CRASH_CTL_NOTIFY)
        } else {
            // Crash MSRs: the guest reads back what it last wrote.
            let i: usize = (msr - HV_X64_MSR_CRASH_P0) as usize;
            RdmsrOutcome::Handled(self.crash_p[i])
        }
    }

    /// A guest WRMSR at `now_ms`.
    pub fn wrmsr(&mut self, physmap: &mut PhysMap, msr: u32, value: u64, now_ms: u64) -> (r:
        WrmsrOutcome)
        requires
            old(self).wf(),
            old(physmap).wf(),
        ensures
            final(self).wf(),
            final(physmap).wf(),
            (r, final(self).with(*final(physmap))) == old(self).with(*old(physmap)).wrmsr(
                msr,
                value,
                now_ms,
            ),
    {
        if !is_hyperv_msr(msr) {
            return WrmsrOutcome::NotHandled;
        }
        if msr == HV_X64_MSR_GUEST_OS_ID {
            self.handle_wr_guest_os_id(physmap, value);
            WrmsrOutcome::Handled
        } else if msr == HV_X64_MSR_HYPERCALL {
            self.handle_wr_hypercall(physmap, value);
            WrmsrOutcome::Handled
        } else if msr == HV_X64_MSR_VP_INDEX || msr == HV_X64_MSR_TIME_REF_COUNT {
            WrmsrOutcome::GpException
        } else if msr == HV_X64_MSR_RESET {
            if !self.features.reset {
                WrmsrOutcome::GpException
            } else if value % 2 == 1 {
                WrmsrOutcome::Reset
            } else {
                WrmsrOutcome::Handled
            }
        } else if msr == HV_X64_MSR_REFERENCE_TSC {
            if self.features.reference_tsc {
                self.handle_wr_reference_tsc(physmap, value);
                WrmsrOutcome::Handled
            } else {
                WrmsrOutcome::GpException
            }
        } else if msr == HV_X64_MSR_CRASH_CTL {
            if value >= HV_CRASH_CTL_NOTIFY {
                self.log_crash(now_ms);
            }
            WrmsrOutcome::Handled
        } else {
            let i: usize = (msr - HV_X64_MSR_CRASH_P0) as usize;
            self.crash_p[i] = value;
            assert(self.crash_p@ =~= old(self).crash_p@.update(i as int, value));
            WrmsrOutcome::Handled
        }
    }
}

// ---- Laws ------------------------------------------------------------------

/// Every guest write and every pause keeps the enlightenment's invariant.
pub proof fn invariant_kept(hv: Hv, msr: u32, value: u64, now_ms: u64)
    requires
        hv.wf(),
    ensures
        hv.wrmsr(msr, value, now_ms).1.wf(),
        hv.paused().wf(),
{
    taken_keeps_wf(hv.budget, now_ms as nat);
}

proof fn taken_keeps_wf(b: Bucket, now_ms: nat)
    requires
        b.wf(),
    ensures
        b.taken(now_ms).1.wf(),
{
}

/// An import keeps the enlightenment's invariant.
pub proof fn import_keeps_invariant(hv: Hv, state: HypervMigrateState)
    requires
        hv.wf(),
    ensures
        hv.imported(state).wf(),
{
}

/// A guest that gives up its identity has no hypercall page, and none comes
/// back until it has one again.
pub proof fn no_hypercall_page_without_identity(hv: Hv, value: u64)
    requires
        hv.wf(),
    ensures
        ({
            let gone = hv.wr_guest_os_id(0);
            &&& gone.hypercall_overlay is None
            &&& !is_enabled(gone.hypercall)
            &&& gone.wr_hypercall(value).hypercall_overlay is None
            &&& gone.wr_hypercall(value).mem == gone.mem
        }),
{
}

/// The MSRs survive a migration: what a destination that never used the
/// enlightenment reads is what the source read, and its counter starts where
/// the source's stood.
pub proof fn state_survives_migration(source: Hv, dest: Hv, state: HypervMigrateState, nanos: u128)
    requires
        source.wf(),
        source.features == dest.features,
        dest.hypercall == 0,
        state.guest_os_id == source.os_id,
        state.hypercall == source.hypercall,
        state.reference_tsc == source.reference_tsc,
        state.crash_p@ == source.crash_p,
        state.time_ref_count == counter(source.ref_base, nanos),
    ensures
        ({
            let after = dest.imported(state);
            &&& after.os_id == source.os_id
            &&& after.hypercall == source.hypercall
            &&& source.features.reference_tsc ==> after.reference_tsc == source.reference_tsc
            &&& after.crash_p == source.crash_p
            &&& counter(after.ref_base, 0) == counter(source.ref_base, nanos)
        }),
{
}

/// The reference counter never runs backwards, and never falls below what an
/// import set.
pub proof fn counter_never_runs_backwards(base: u64, earlier: u128, later: u128)
    requires
        earlier <= later,
    ensures
        base <= counter(base, earlier) <= counter(base, later),
{
}

} // verus!
