//! Before a run and after it.

use vmm::machine::entry::{exit_code, version_requested, RunOutcome};
use vmm::machine::building::{host_tsc_frequency_hz, CpuidRegs};
use vmm::machine::chipset::split_memory;

/// RESET 0, POWEROFF 1, HALT 2, TRIPLEFAULT 3. The kernel restarts a zone's
/// init only on exit 0, so only a reboot may map there.
#[test]
fn the_exit_codes_match_the_ones_the_zone_brand_reads() {
    let cases = [
        (RunOutcome::Reboot, 0u8),
        (RunOutcome::PowerOff, 1),
        (RunOutcome::Halt, 2),
        (RunOutcome::TripleFault(0), 3),
        // Distinct from HALT, or a guest fault reads as a clean halt.
        (RunOutcome::GuestFault, 4),
    ];
    for (outcome, code) in cases {
        assert_eq!(exit_code(outcome), code, "{outcome:?}");
    }
}

#[test]
fn the_version_is_asked_for_by_either_flag() {
    let args = |list: &[&str]| -> Vec<String> { list.iter().map(|s| s.to_string()).collect() };
    assert!(version_requested(&args(&["vmm", "--version"])));
    assert!(version_requested(&args(&["vmm", "-m", "4G", "-V"])));
    assert!(!version_requested(&args(&["vmm", "--versions", "-v"])));
    assert!(!version_requested(&[]));
}

#[test]
fn the_host_frequency_comes_from_the_first_leaf_that_has_it() {
    let none = CpuidRegs { eax: 0, ebx: 0, ecx: 0 };
    let base = CpuidRegs { eax: 2400, ebx: 0, ecx: 0 };
    let crystal = CpuidRegs { eax: 2, ebx: 168, ecx: 25_000_000 };
    assert_eq!(host_tsc_frequency_hz(0x16, base, crystal), Some(2_400_000_000));
    assert_eq!(host_tsc_frequency_hz(0x16, none, crystal), Some(2_100_000_000));
    assert_eq!(host_tsc_frequency_hz(0x15, base, crystal), Some(2_100_000_000));
    assert_eq!(host_tsc_frequency_hz(0x14, base, crystal), None);
    assert_eq!(host_tsc_frequency_hz(0x16, none, CpuidRegs { ebx: 0, ..crystal }), None);
}

#[test]
fn memory_is_split_at_the_hole() {
    assert_eq!(split_memory(1 << 30), (1 << 30, 0));
    assert_eq!(split_memory(3 << 30), (3 << 30, 0));
    assert_eq!(split_memory(4 << 30), (3 << 30, 1 << 30));
}
