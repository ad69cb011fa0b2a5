//! The enlightenment a guest finds.

use std::mem::size_of;

use vmm::mem::PhysMap;
use vmm::hyperv::bits::{
    is_hyperv_msr, HV_CRASH_CTL_NOTIFY, HV_LEAF3_EDX_GUEST_CRASH_MSRS, HV_X64_MSR_CRASH_CTL,
    HV_X64_MSR_CRASH_P0, HV_X64_MSR_GUEST_OS_ID, HV_X64_MSR_HYPERCALL, HV_X64_MSR_REFERENCE_TSC,
    HV_X64_MSR_VP_INDEX,
};
use vmm::hyperv::hypercall::{build_page, MsrHypercallValue};
use vmm::hyperv::tsc::{compute_scale, ReferenceTscPage};
use vmm::hyperv::overlay::{install, relocate, remove, OverlayError};
use vmm::hyperv::{
    Features, HyperV, HypervMigrateState, RdmsrOutcome, WrmsrOutcome, CRASH_LOG_BURST,
};

/// The enlightenment and the memory of its guest.
struct Vm {
    hv: HyperV,
    mem: PhysMap,
}

impl Vm {
    fn wrmsr(&mut self, msr: u32, value: u64) -> WrmsrOutcome {
        self.hv.wrmsr(&mut self.mem, msr, value, 0)
    }

    fn import(&mut self, state: &HypervMigrateState) {
        self.hv.import_state(&mut self.mem, state);
    }
}

fn fresh() -> Vm {
    Vm { hv: HyperV::new(Features::default()), mem: PhysMap::new() }
}

#[test]
fn the_crash_msrs_are_advertised_in_leaf_3_edx() {
    // Windows and Linux both test this bit before they write the
    // crash MSRs, so without it the BSOD payload never arrives.
    let hv = fresh().hv;
    let mut entries = Vec::new();
    hv.add_cpuid(&mut entries);
    let leaf3 = entries
        .iter()
        .find(|e| e.vce_function == 0x4000_0003)
        .expect("leaf 0x4000_0003");
    assert_ne!(leaf3.vce_edx & HV_LEAF3_EDX_GUEST_CRASH_MSRS, 0);
}

#[test]
fn a_crash_ctl_loop_cannot_flood_the_log() {
    let mut vm = fresh();
    for _ in 0..1000 {
        assert!(matches!(
            vm.wrmsr(HV_X64_MSR_CRASH_CTL, HV_CRASH_CTL_NOTIFY),
            WrmsrOutcome::Handled
        ));
    }
    let logged = vm.hv.take_reports().len();
    assert!(logged > 0, "the first crash must be reported");
    assert!(logged <= CRASH_LOG_BURST as usize, "{logged} records");
}

#[test]
fn crash_ctl_without_notify_reports_nothing() {
    let mut vm = fresh();
    assert!(matches!(vm.wrmsr(HV_X64_MSR_CRASH_CTL, 0), WrmsrOutcome::Handled));
    assert!(vm.hv.take_reports().is_empty());
}

/// Enough guest memory for both overlay pages.
const GPA: u64 = 0x1000;
const LEN: usize = 0x10000;

fn enlightenment() -> Vm {
    Vm {
        hv: HyperV::new(Features { tsc_freq_hz: 3_000_000_000, ..Features::default() }),
        mem: PhysMap::new_anon(GPA, LEN).expect("guest memory"),
    }
}

/// The hypercall MSR with the Enabled bit and a page at `gpa`.
fn hypercall_msr(gpa: u64) -> u64 {
    gpa | MsrHypercallValue::ENABLED
}

/// What a guest RDMSR reads back. `RdmsrOutcome` carries no
/// equality, so the value is taken out here.
fn read(vm: &Vm, msr: u32) -> u64 {
    match vm.hv.rdmsr(0, msr, 0) {
        RdmsrOutcome::Handled(value) => value,
        other => panic!("msr {msr:#x} was not handled: {other:?}"),
    }
}

#[test]
fn the_msr_state_survives_an_export_and_import() {
    let mut source = enlightenment();
    source.wrmsr(HV_X64_MSR_GUEST_OS_ID, 0x8100_0000_0000_0001);
    source.wrmsr(HV_X64_MSR_HYPERCALL, hypercall_msr(0x2000));
    source.wrmsr(HV_X64_MSR_REFERENCE_TSC, 0x3000 | 1);
    source.wrmsr(HV_X64_MSR_CRASH_P0, 0xDEAD);

    let state = source.hv.export_state(0);
    let mut dest = enlightenment();
    dest.import(&state);

    assert_eq!(read(&dest, HV_X64_MSR_GUEST_OS_ID), 0x8100_0000_0000_0001);
    assert_eq!(read(&dest, HV_X64_MSR_HYPERCALL), hypercall_msr(0x2000));
    assert_eq!(read(&dest, HV_X64_MSR_CRASH_P0), 0xDEAD);
}

#[test]
fn the_hypercall_overlay_is_reinstalled_from_the_msr() {
    // The source drops its overlays before the final RAM pass, so
    // the destination must rebuild the page.
    let mut source = enlightenment();
    source.wrmsr(HV_X64_MSR_GUEST_OS_ID, 1);
    source.wrmsr(HV_X64_MSR_HYPERCALL, hypercall_msr(0x2000));
    let state = source.hv.export_state(0);

    let mut dest = enlightenment();
    dest.import(&state);
    assert!(
        dest.hv.has_hypercall_overlay(),
        "the destination must hold the hypercall page",
    );
}

#[test]
fn the_reference_counter_never_runs_backwards() {
    // A monotonic partition counter that restarts at zero is a
    // counter the guest sees go backwards.
    let source = enlightenment();
    let state = HypervMigrateState {
        time_ref_count: 500_000_000,
        ..source.hv.export_state(0)
    };

    let mut dest = enlightenment();
    assert!(dest.hv.time_ref_count(0) < 500_000_000, "a fresh VM starts low");
    dest.import(&state);
    assert!(
        dest.hv.time_ref_count(0) >= 500_000_000,
        "the counter must continue from the source's value",
    );
}

#[test]
fn a_guest_that_never_used_the_enlightenment_carries_nothing() {
    let state = enlightenment().hv.export_state(0);
    assert_eq!(state.guest_os_id, 0);
    assert_eq!(state.hypercall, 0);
    assert_eq!(state.crash_p, [0; 5]);
}

#[test]
fn the_hypercall_page_gives_the_guest_its_memory_back() {
    let mut vm = enlightenment();
    assert!(vm.mem.write_bytes(0x2000, &[0x11, 0x22, 0x33]));
    vm.wrmsr(HV_X64_MSR_GUEST_OS_ID, 1);
    vm.wrmsr(HV_X64_MSR_HYPERCALL, hypercall_msr(0x2000));
    let page = vm.mem.read_bytes(0x2000, 4096).expect("mapped");
    assert_eq!(page, build_page());
    vm.hv.pause_overlays(&mut vm.mem);
    assert_eq!(vm.mem.read_bytes(0x2000, 4), Some(vec![0x11, 0x22, 0x33, 0]));
}

#[test]
fn pages_that_move_leave_the_guests_memory_as_it_was() {
    let mut vm = enlightenment();
    for (at, byte) in [(0x2000u64, 1u8), (0x3000, 2), (0x4000, 3)] {
        assert!(vm.mem.write_bytes(at, &[byte; 4096]));
    }
    vm.wrmsr(HV_X64_MSR_GUEST_OS_ID, 1);
    vm.wrmsr(HV_X64_MSR_HYPERCALL, hypercall_msr(0x2000));
    vm.wrmsr(HV_X64_MSR_REFERENCE_TSC, 0x3000 | 1);
    vm.wrmsr(HV_X64_MSR_HYPERCALL, hypercall_msr(0x4000));
    vm.wrmsr(HV_X64_MSR_REFERENCE_TSC, 0x2000 | 1);
    vm.wrmsr(HV_X64_MSR_REFERENCE_TSC, 0x2000 | 1);
    vm.hv.pause_overlays(&mut vm.mem);
    assert_eq!(vm.mem.read_bytes(0x2000, 4096), Some(vec![1; 4096]));
    assert_eq!(vm.mem.read_bytes(0x3000, 4096), Some(vec![2; 4096]));
    assert_eq!(vm.mem.read_bytes(0x4000, 4096), Some(vec![3; 4096]));
}

#[test]
fn a_destination_lays_both_pages() {
    let mut source = enlightenment();
    source.wrmsr(HV_X64_MSR_GUEST_OS_ID, 1);
    source.wrmsr(HV_X64_MSR_HYPERCALL, hypercall_msr(0x2000));
    source.wrmsr(HV_X64_MSR_REFERENCE_TSC, 0x3000 | 1);

    let mut dest = enlightenment();
    dest.import(&source.hv.export_state(0));
    assert_eq!(dest.mem.read_bytes(0x2000, 4096), Some(build_page().to_vec()));
    let scale = compute_scale(3_000_000_000).expect("a usable frequency");
    let page = ReferenceTscPage { sequence: 1, reserved: 0, scale, offset: 0 };
    assert_eq!(dest.mem.read_bytes(0x3000, 4096), Some(page.into_page()));
}

#[test]
fn no_page_without_an_identity() {
    let mut vm = enlightenment();
    vm.wrmsr(HV_X64_MSR_HYPERCALL, hypercall_msr(0x2000));
    assert!(!vm.hv.has_hypercall_overlay());
    assert_eq!(vm.mem.read_bytes(0x2000, 1), Some(vec![0]));
}

#[test]
fn a_read_only_register_faults() {
    let mut vm = enlightenment();
    assert!(matches!(vm.wrmsr(HV_X64_MSR_VP_INDEX, 1), WrmsrOutcome::GpException));
    assert!(matches!(vm.wrmsr(0x1234, 1), WrmsrOutcome::NotHandled));
    assert!(matches!(vm.hv.rdmsr(3, HV_X64_MSR_VP_INDEX, 0), RdmsrOutcome::Handled(3)));
    assert!(is_hyperv_msr(HV_X64_MSR_CRASH_CTL));
    assert!(!is_hyperv_msr(0x3FFF_FFFF));
}

#[test]
fn an_overlay_needs_a_whole_page() {
    let mut mem = PhysMap::new_anon(GPA, LEN).expect("guest memory");
    let page = build_page();
    assert_eq!(install(&mut mem, 0x2001, &page).err(), Some(OverlayError::Misaligned(0x2001)));
    assert_eq!(install(&mut mem, 0x10_0000, &page).err(), Some(OverlayError::Unmapped(0x10_0000)));
    assert!(mem.write_bytes(0x2000, &[9, 8, 7]));
    let over = install(&mut mem, 0x2000, &page).expect("a mapped page");
    let over = relocate(&mut mem, &over, 0x3000, &page).expect("another one");
    assert_eq!(mem.read_bytes(0x2000, 3), Some(vec![9, 8, 7]));
    assert_eq!(mem.read_bytes(0x3000, 8), Some(page[..8].to_vec()));
    remove(&mut mem, &over);
    assert_eq!(mem.read_bytes(0x3000, 8), Some(vec![0; 8]));
}

#[test]
fn the_counter_counts_hundreds_of_nanoseconds() {
    let vm = enlightenment();
    assert_eq!(vm.hv.time_ref_count(1_000_000_000), 10_000_000);
    assert_eq!(vm.hv.time_ref_count(199), 1);
}

#[test]
fn locked_bit_is_sticky() {
    let v = MsrHypercallValue(
        MsrHypercallValue::LOCKED | MsrHypercallValue::ENABLED,
    );
    assert!(v.locked());
    // A write that clears Locked and Enabled is ignored.
    let v2 = v.apply_write(0);
    assert!(v2.locked());
    assert!(v2.enabled());
    assert_eq!(v2.0, v.0);
}

#[test]
fn unlocked_writes_pass_through() {
    let v = MsrHypercallValue(0);
    let new = MsrHypercallValue::ENABLED
        | (0xdead_0000 & MsrHypercallValue::PFN_MASK);
    let v2 = v.apply_write(new);
    assert!(v2.enabled());
    assert_eq!(v2.gpa(), 0xdead_0000);
}

#[test]
fn page_starts_with_mov_ret() {
    let page = build_page();
    assert_eq!(
        &page[0..8],
        &[0x48, 0xc7, 0xc0, 0x02, 0x00, 0x00, 0x00, 0xc3]
    );
    assert!(page[8..].iter().all(|&b| b == 0));
}

/// One second of ticks times the scale must give 1e7 100 ns units,
/// within fixed-point rounding.
fn roundtrip(freq_hz: u64) {
    let scale = compute_scale(freq_hz).expect("in range");
    let ticks = freq_hz as u128;
    let hundred_ns = (ticks * scale as u128) >> 64;
    assert!(
        (hundred_ns as i64 - 10_000_000).abs() <= 1,
        "freq={} scale={:#x} got={}",
        freq_hz,
        scale,
        hundred_ns
    );
}

#[test]
fn typical_frequencies_roundtrip() {
    roundtrip(2_400_000_000); // 2.4 GHz
    roundtrip(3_000_000_000); // 3.0 GHz
    roundtrip(3_600_000_000); // 3.6 GHz
    roundtrip(2_100_000_000); // 2.1 GHz (NUC AVX2 box)
}

#[test]
fn zero_frequency_rejected() {
    assert_eq!(compute_scale(0), None);
}

#[test]
fn page_layout_matches_tlfs() {
    // sequence=4, reserved=4, scale=8, offset=8: 24 bytes.
    assert_eq!(size_of::<ReferenceTscPage>(), 24);
}

#[test]
fn page_serialization_round_trips() {
    let p = ReferenceTscPage {
        sequence: 1,
        reserved: 0,
        scale: 0x1234_5678_9abc_def0,
        offset: -42,
    };
    let bytes = p.into_page();
    assert_eq!(&bytes[0..4], &1u32.to_le_bytes());
    assert_eq!(&bytes[8..16], &0x1234_5678_9abc_def0u64.to_le_bytes());
    assert_eq!(&bytes[16..24], &(-42i64).to_le_bytes());
    assert!(bytes[24..].iter().all(|&b| b == 0));
}
