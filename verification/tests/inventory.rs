//! What a control plane reports.

use vmm::machine::inventory::{
    cpu_inventory, CpuKind, CpuSlotState, MemWindowReport, CPU_HOTPLUG_OFF, MEM_HOTPLUG_OFF,
    NO_CPU_REMOVE, NO_MEM_REMOVE,
};
use vmm::machine::hotplug::cpu::{CpuOnline, VcpuError};
use vmm::machine::hotplug::mem::{MemHotplugEngine, MemWindow, SegidAlloc};
use vmm::machine::hotplug::regs::{CpuHotplug, MemHotplug};
use vmm::machine::hotplug::start_cpu_hotplug;

/// A machine that is never asked.
struct NoCpus;

impl CpuOnline for NoCpus {
    fn possible_cpus(&self) -> u32 {
        0
    }

    fn boot_cpus(&self) -> u32 {
        0
    }

    fn is_online(&self, _id: u32) -> bool {
        false
    }

    fn add_vcpu(&mut self, id: u32) -> Result<(), VcpuError> {
        Err(VcpuError::ThreadGone(id))
    }
}

#[test]
fn no_refusal_carries_a_run_of_spaces() {
    // A `\` line continuation in a string literal eats the newline
    // AND the indent that follows it. A message rebuilt without one
    // keeps that indent and reaches the operator as a gap.
    for message in [
        CPU_HOTPLUG_OFF,
        MEM_HOTPLUG_OFF,
        NO_CPU_REMOVE,
        NO_MEM_REMOVE,
    ] {
        assert!(!message.contains("  "), "{message}");
    }
}

#[test]
fn the_madt_slots_are_listed_even_with_no_engine() {
    // -c cpus=2,maxcpus=4 without --hotplug still gives the guest
    // four LAPIC entries. Hiding two of them would contradict what
    // the guest reads.
    let inv = cpu_inventory::<NoCpus>(2, 4, None);
    assert!(!inv.hotplug);
    let shape: Vec<(u32, String, String)> = inv
        .slots
        .iter()
        .map(|s| (s.id, s.state.to_text(), s.kind.to_text()))
        .collect();
    assert_eq!(
        shape,
        [
            (0, "present".into(), "boot".into()),
            (1, "present".into(), "boot".into()),
            (2, "absent".into(), "hotplug".into()),
            (3, "absent".into(), "hotplug".into()),
        ]
    );
}

/// Two boot CPUs of four slots, and nobody to run a third.
#[derive(Default)]
struct TwoOfFour {
    spent: Option<u32>,
}

impl CpuOnline for TwoOfFour {
    fn possible_cpus(&self) -> u32 {
        4
    }

    fn boot_cpus(&self) -> u32 {
        2
    }

    fn is_online(&self, id: u32) -> bool {
        assert_ne!(Some(id), self.spent, "asked about a spent id");
        id < 2
    }

    fn add_vcpu(&mut self, id: u32) -> Result<(), VcpuError> {
        self.spent = Some(id);
        Err(VcpuError::ThreadGone(id))
    }
}

#[test]
fn a_spent_slot_is_listed_as_spent() {
    let mut slots = start_cpu_hotplug(Some(CpuHotplug::new(4)), TwoOfFour::default())
        .expect("register file");
    assert!(slots.add(3).is_err());
    let inv = cpu_inventory(9, 9, Some(&slots));
    assert!(inv.hotplug);
    assert_eq!((inv.boot_cpus, inv.max_cpus), (2, 4));
    let states: Vec<CpuSlotState> = inv.slots.iter().map(|s| s.state).collect();
    assert_eq!(
        states,
        [
            CpuSlotState::Present,
            CpuSlotState::Present,
            CpuSlotState::Absent,
            CpuSlotState::Consumed,
        ]
    );
    assert_eq!(inv.slots[3].kind, CpuKind::Hotplug);
}

#[test]
fn a_window_reports_what_is_left_of_it() {
    let window = MemWindow::new(0x1_0000_0000, 4 << 27, 1 << 27).expect("legal");
    let report = MemWindowReport::new(&window, 2, 3 << 27);
    assert_eq!(
        report,
        MemWindowReport {
            base: 0x1_0000_0000,
            bytes: 4 << 27,
            slot_bytes: 1 << 27,
            slots: 4,
            slots_used: 2,
            added_bytes: 3 << 27,
        }
    );
    let engine =
        MemHotplugEngine::start_with(SegidAlloc::new(0), MemHotplug::new(8), window);
    assert_eq!(MemWindowReport::of(&engine).slots_used, 0);
}
