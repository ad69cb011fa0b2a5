//! Hyper-V CPUID leaf and MSR constants.
//!
//! Naming follows Microsoft's TLFS v6.0b where possible.

use vstd::prelude::*;

verus! {

/// Highest hypervisor CPUID leaf populated.
///
/// TLFS requires at least 0x4000_0005 for any Hyper-V-compatible
/// hypervisor. 0x4000_0006 advertises hardware features (the
/// frequencies leaf).
pub const HYPERV_MAX_CPUID_LEAF: u32 = 0x4000_0006;

/// CPUID leaf 0x4000_0000: hypervisor identification.
///
/// eax = highest valid hypervisor CPUID leaf.
/// ebx/ecx/edx = 12-byte vendor signature. Linux accepts only
/// "Microsoft Hv" here, so this is always the Microsoft signature.
pub const HV_CPUID_VENDOR_EBX: u32 = 0x7263_694D; // "Micr"
pub const HV_CPUID_VENDOR_ECX: u32 = 0x666F_736F; // "osof"
pub const HV_CPUID_VENDOR_EDX: u32 = 0x7648_2074; // "t Hv"

/// CPUID leaf 0x4000_0001: interface signature. eax = "Hv#1".
pub const HV_CPUID_INTERFACE_EAX: u32 = 0x3123_7648;

// CPUID leaf 0x4000_0003 EAX: per-MSR access privilege flags.
//
// Only the bits in use are listed. The others gate features that are not
// implemented (synic, stimer, virtual APIC and others) and must stay clear.

pub const HV_LEAF3_EAX_PARTITION_REFERENCE_COUNTER: u32 = 0x2;

pub const HV_LEAF3_EAX_HYPERCALL: u32 = 0x20;

pub const HV_LEAF3_EAX_VP_INDEX: u32 = 0x40;

pub const HV_LEAF3_EAX_SYSTEM_RESET: u32 = 0x80;

pub const HV_LEAF3_EAX_FREQUENCIES: u32 = 0x100;

pub const HV_LEAF3_EAX_PARTITION_REFERENCE_TSC: u32 = 0x200;

// CPUID leaf 0x4000_0003 EDX: miscellaneous feature availability.

/// Linux and Windows both test this before they write the crash MSRs, so the
/// crash payload depends on it.
pub const HV_LEAF3_EDX_GUEST_CRASH_MSRS: u32 = 0x400;

// CPUID leaf 0x4000_0004 EAX: recommended guest behaviors.

pub const HV_LEAF4_EAX_USE_HYPERCALL_FOR_TLB_FLUSH: u32 = 0x2;

pub const HV_LEAF4_EAX_USE_HYPERCALL_FOR_REMOTE_TLB: u32 = 0x4;

pub const HV_LEAF4_EAX_USE_MSR_FOR_APIC: u32 = 0x8;

pub const HV_LEAF4_EAX_USE_MSR_FOR_RESET: u32 = 0x10;

/// Disables the CLOCK_WATCHDOG bugcheck of Windows on slow vCPUs.
pub const HV_LEAF4_EAX_RELAXED_TIMING: u32 = 0x20;

// ---- MSR addresses ----

pub const HV_X64_MSR_GUEST_OS_ID: u32 = 0x4000_0000;
pub const HV_X64_MSR_HYPERCALL: u32 = 0x4000_0001;
pub const HV_X64_MSR_VP_INDEX: u32 = 0x4000_0002;
pub const HV_X64_MSR_RESET: u32 = 0x4000_0003;

pub const HV_X64_MSR_TIME_REF_COUNT: u32 = 0x4000_0020;
pub const HV_X64_MSR_REFERENCE_TSC: u32 = 0x4000_0021;

/// Crash dump MSRs. Windows writes BSOD parameters here before the
/// triple fault, then sets the NOTIFY bit on `CRASH_CTL`. The
/// parameters are logged and otherwise opaque.
pub const HV_X64_MSR_CRASH_P0: u32 = 0x4000_0100;
pub const HV_X64_MSR_CRASH_P1: u32 = 0x4000_0101;
pub const HV_X64_MSR_CRASH_P2: u32 = 0x4000_0102;
pub const HV_X64_MSR_CRASH_P3: u32 = 0x4000_0103;
pub const HV_X64_MSR_CRASH_P4: u32 = 0x4000_0104;
pub const HV_X64_MSR_CRASH_CTL: u32 = 0x4000_0105;

/// Bit 63 of CRASH_CTL. The guest sets it when the crash data is
/// published.
pub const HV_CRASH_CTL_NOTIFY: u64 = 0x8000_0000_0000_0000;

// ---- Quick predicates ----

/// True if `msr` is a Hyper-V synthetic MSR this crate handles. The
/// central MSR dispatcher uses it to skip the enlightenment.
pub fn is_hyperv_msr(msr: u32) -> (r: bool)
    ensures
        r == handled_msr(msr),
{
    match msr {
        HV_X64_MSR_GUEST_OS_ID
        | HV_X64_MSR_HYPERCALL
        | HV_X64_MSR_VP_INDEX
        | HV_X64_MSR_RESET
        | HV_X64_MSR_TIME_REF_COUNT
        | HV_X64_MSR_REFERENCE_TSC
        | HV_X64_MSR_CRASH_P0
        | HV_X64_MSR_CRASH_P1
        | HV_X64_MSR_CRASH_P2
        | HV_X64_MSR_CRASH_P3
        | HV_X64_MSR_CRASH_P4
        | HV_X64_MSR_CRASH_CTL => true,
        _ => false,
    }
}

/// The synthetic MSRs: four at 0x4000_0000, two clocks at 0x4000_0020, and six
/// for crash reports at 0x4000_0100.
pub open spec fn handled_msr(msr: u32) -> bool {
    0x4000_0000 <= msr <= 0x4000_0003 || 0x4000_0020 <= msr <= 0x4000_0021 || 0x4000_0100 <= msr
        <= 0x4000_0105
}

} // verus!
