//! The power-management phase.

use vmm::machine::pm::{
    attach_gpe0, attach_hotplug_registers, mem_hotplug_window, register_gpe0, register_pm_devices,
    setup_timers_and_pm, start_mem_hotplug, HotplugOpts, HotplugRegisters, PmError, PmSetup, PmStep,
    RegisterFile, TimerAndPmDevices, CPU_HOTPLUG_LEN, CPU_HOTPLUG_PORT, GPE0_BLK_ADDR, GPE0_BLK_LEN,
    MEM_HOTPLUG_IO_BASE, MEM_HOTPLUG_IO_LEN, PCI_HOTPLUG_ADDR, PCI_HOTPLUG_LEN, PVPANIC_IOPORT,
};
use vmm::machine::pio::{PioBus, PortError};
use vmm::machine::opts::VmOpts;
use vmm::machine::registry::DeviceRegistry;
use vmm::machine::hotplug::mem::{MemWindow, SegidAlloc};
use vmm::machine::hotplug::regs::MemHotplug;

fn vm_opts() -> VmOpts {
    VmOpts {
        vm_name: "guest".to_string(),
        uuid: None,
        num_cpus: 1,
        max_cpus: 1,
        mem_size: 256 << 20,
        hotplug: true,
        max_mem: None,
        mem_slot_size: None,
        smbios: None,
    }
}

const GIB: u64 = 1024 * 1024 * 1024;

#[test]
fn a_vm_that_asked_for_no_window_gets_none() {
    let opts = vm_opts();
    assert!(mem_hotplug_window(&opts).expect("no window").is_none());
}

#[test]
fn the_window_is_built_from_the_same_opts_the_tables_read() {
    let opts = VmOpts {
        mem_size: 4 * GIB,
        max_mem: Some(4 * GIB),
        mem_slot_size: Some(GIB),
        ..vm_opts()
    };

    let window = mem_hotplug_window(&opts)
        .expect("the window is legal")
        .expect("a window was asked for");

    // 4 GiB of RAM is 3 GiB low and 1 GiB high, so high RAM ends at
    // 5 GiB and the window starts there.
    assert_eq!(window.base(), 0x1_4000_0000);
    assert_eq!(window.size(), 4 * 1024 * 1024 * 1024);
    assert_eq!(window.slots(), 4);
}

#[test]
fn a_window_the_guest_could_not_reach_is_refused_before_the_vm_exists() {
    // Four GiB of the 128 MiB default slot needs 32 slots and the
    // guest has eight.
    let opts = VmOpts { max_mem: Some(4 * GIB), ..vm_opts() };

    let error = mem_hotplug_window(&opts).expect_err("32 slots");
    assert!(error.to_text().contains("raise the slot size"), "{error:?}");
}

fn opts(enabled: bool, num_cpus: u32, max_cpus: u32) -> HotplugOpts {
    HotplugOpts {
        enabled,
        num_cpus,
        max_cpus,
    }
}

/// The bus, and whatever the attach produced.
struct Attached {
    bus: PioBus,
    gpe: bool,
    regs: Option<HotplugRegisters>,
}

fn attach(opts: HotplugOpts) -> Attached {
    let mut bus = PioBus::new();
    let gpe = attach_gpe0(&mut bus, opts.enabled).expect("the GPE0 block should attach");
    let mut regs = None;
    if gpe {
        match attach_hotplug_registers(&mut bus, opts) {
            Ok(r) => regs = Some(r),
            Err(e) => panic!("the register files should attach: {e:?}"),
        }
    }
    Attached { bus, gpe, regs }
}

/// True when nothing holds `port`, read back through a claim.
fn unclaimed(bus: &mut PioBus, port: u16) -> bool {
    match bus.register(port, 1) {
        Ok(()) => {
            assert!(bus.unregister(port), "the claim above went through");
            assert!(!bus.is_held(port));
            true
        }
        Err(_) => {
            assert!(bus.is_held(port));
            false
        }
    }
}

fn block_is_claimed(bus: &mut PioBus, base: u16, len: u16) -> bool {
    (0..len).all(|offset| !unclaimed(bus, base + offset))
}

fn block_is_free(bus: &mut PioBus, base: u16, len: u16) -> bool {
    (0..len).all(|offset| unclaimed(bus, base + offset))
}

/// Every block that can be claimed, and its length.
const BLOCKS: [(u16, u16); 4] = [
    (GPE0_BLK_ADDR, GPE0_BLK_LEN),
    (PCI_HOTPLUG_ADDR, PCI_HOTPLUG_LEN),
    (CPU_HOTPLUG_PORT, CPU_HOTPLUG_LEN),
    (MEM_HOTPLUG_IO_BASE, MEM_HOTPLUG_IO_LEN),
];

#[test]
fn a_vm_without_hotplug_claims_no_port() {
    let mut attached = attach(opts(false, 2, 8));

    assert!(!attached.gpe);
    assert!(attached.regs.is_none());
    for (base, len) in BLOCKS {
        assert!(
            block_is_free(&mut attached.bus, base, len),
            "port {base:#x} is claimed",
        );
    }
}

#[test]
fn a_vm_with_hotplug_claims_the_gpe0_block() {
    let mut attached = attach(opts(true, 2, 8));

    assert!(attached.gpe);
    assert!(block_is_claimed(&mut attached.bus, GPE0_BLK_ADDR, GPE0_BLK_LEN));
    // Exactly the block: the byte after it stays free.
    assert!(unclaimed(&mut attached.bus, GPE0_BLK_ADDR + GPE0_BLK_LEN));
}

#[test]
fn a_hotplug_vm_claims_the_pci_and_memory_register_files() {
    let mut attached = attach(opts(true, 2, 8));

    assert!(block_is_claimed(&mut attached.bus, PCI_HOTPLUG_ADDR, PCI_HOTPLUG_LEN));
    assert!(block_is_claimed(&mut attached.bus, MEM_HOTPLUG_IO_BASE, MEM_HOTPLUG_IO_LEN));
    // Exactly the blocks the tables reserve.
    assert!(unclaimed(&mut attached.bus, PCI_HOTPLUG_ADDR + PCI_HOTPLUG_LEN));
    assert!(unclaimed(&mut attached.bus, MEM_HOTPLUG_IO_BASE + MEM_HOTPLUG_IO_LEN));
}

#[test]
fn the_cpu_register_file_follows_the_cpu_slots_the_dsdt_describes() {
    // There is no controller when max_cpus is not above the boot count, so
    // its ports are not reserved and must stay free.
    let mut no_slots = attach(opts(true, 4, 4));
    assert!(no_slots.regs.expect("hotplug is on").cpu.is_none());
    assert!(block_is_free(&mut no_slots.bus, CPU_HOTPLUG_PORT, CPU_HOTPLUG_LEN));

    let mut slots = attach(opts(true, 2, 8));
    assert!(slots.regs.expect("hotplug is on").cpu.is_some());
    assert!(block_is_claimed(&mut slots.bus, CPU_HOTPLUG_PORT, CPU_HOTPLUG_LEN));
}

#[test]
fn the_boot_cpus_are_present_in_the_register_file() {
    // A new register file marks every slot absent. Without the boot CPUs
    // the guest boots with none of them visible.
    let attached = attach(opts(true, 2, 8));
    let regs = attached.regs.expect("hotplug is on").cpu.expect("there are spare slots");

    for cpu in 0..2 {
        assert!(regs.is_enabled(cpu), "boot CPU {cpu} is absent");
        // A boot CPU was never inserted, so it raises no event.
        assert!(!regs.is_inserting(cpu), "CPU {cpu} looks hot-added");
    }
    for cpu in 2..8 {
        assert!(!regs.is_enabled(cpu), "spare slot {cpu} is not empty");
    }
}

#[test]
fn every_spare_slot_a_hot_add_can_take_is_in_the_register_file() {
    // The hot-add engine hands out ids up to max_cpus - 1. A
    // register file built with fewer slots would drop the notify,
    // and the guest would never learn about the new CPU.
    let attached = attach(opts(true, 2, 8));
    let mut cpu = attached
        .regs
        .expect("hotplug is on")
        .cpu
        .expect("there are spare slots");

    cpu.notify_added(7);

    assert!(cpu.is_enabled(7), "the last spare slot is not described");
}

#[test]
fn the_gpe0_block_sits_inside_the_pci_io_window() {
    // The reason the claim is gated. The DSDT hands the guest
    // 0x0D00-0xFFFF for I/O BARs, and these ports are in it, unlike
    // every other port this VMM claims.
    for (base, _len) in [BLOCKS[0], BLOCKS[1], BLOCKS[2]] {
        assert!((0x0D00..=0xFFFF).contains(&base));
    }
}

#[test]
fn the_registry_entry_follows_the_gpe0_block() {
    // Registering it is what makes the reset and migration
    // hooks reachable. A VM without hotplug has no block, so it
    // registers nothing and its device list does not change.
    let mut registry = DeviceRegistry::new();
    register_gpe0(&mut registry, None).expect("nothing to register");
    assert!(registry.is_empty());

    let attached = attach(opts(true, 2, 8));
    assert!(attached.gpe, "hotplug is on");
    let devs = TimerAndPmDevices { gpe: Some(77), hotplug: attached.regs };
    register_pm_devices(&mut registry, &devs).expect("one entry");

    let entry = registry.get_by_id("acpi-gpe").expect("registered");
    assert!(entry.bdf.is_none(), "the GPE0 block is not on the PCI bus");
    assert_eq!(registry.lifecycle_devices(), [77], "the registry must hold the block itself");
}

#[test]
fn a_taken_port_stops_the_boot_with_its_name() {
    let mut bus = PioBus::new();
    bus.register(MEM_HOTPLUG_IO_BASE + 3, 1).expect("free");
    let Err(error) = attach_hotplug_registers(&mut bus, opts(true, 2, 8)) else {
        panic!("a port of the memory block is taken");
    };
    assert_eq!(error, PmError::Claim { file: RegisterFile::Mem, error: PortError::Taken });
    assert_eq!(
        error.to_text(),
        "hotplug-mem: cannot claim port 0xa00: another block holds one of its ports",
    );
    let past = PmError::Claim { file: RegisterFile::Pci, error: PortError::OutOfSpace };
    assert!(past.to_text().ends_with(": the block is not inside the port space"));
    // What was claimed before stays claimed.
    assert!(bus.is_held(PCI_HOTPLUG_ADDR));
    assert!(bus.is_held(CPU_HOTPLUG_PORT));

    let mut bus = PioBus::new();
    bus.register(GPE0_BLK_ADDR, 1).expect("free");
    assert_eq!(attach_gpe0(&mut bus, true), Err(PmError::Gpe0));
    assert_eq!(bus.register(0xFFFF, 2), Err(PortError::OutOfSpace));
    assert_eq!(bus.register(0, 0), Err(PortError::OutOfSpace));
}

/// Every step of the phase, where all of them work, and the phase at its end.
fn steps(opts: HotplugOpts, bus: &mut PioBus) -> (Vec<PmStep>, PmSetup) {
    let mut setup = setup_timers_and_pm(opts);
    let mut all = vec![setup.step()];
    while setup.step() != PmStep::Done {
        all.push(setup.advance(bus, true).expect("it worked"));
    }
    (all, setup)
}

#[test]
fn the_phase_takes_its_steps_in_order() {
    let mut bus = PioBus::new();
    let (all, setup) = steps(opts(true, 2, 8), &mut bus);
    assert_eq!(
        all,
        [
            PmStep::AttachPmTimer,
            PmStep::SetIrqTrigger(9),
            PmStep::SetIrqTrigger(10),
            PmStep::SetIrqTrigger(11),
            PmStep::AttachAcpiPm,
            PmStep::TakeSciPin,
            PmStep::Done,
        ]
    );
    assert!(setup.has_pvpanic());
    assert!(bus.is_held(PVPANIC_IOPORT));
    for (base, len) in BLOCKS {
        assert!(block_is_claimed(&mut bus, base, len));
    }
    let devs = setup.finish(77);
    assert_eq!(devs.gpe, Some(77));
    assert!(devs.hotplug.expect("hotplug is on").cpu.is_some());

    let mut bus = PioBus::new();
    let (_, setup) = steps(opts(false, 2, 8), &mut bus);
    for (base, len) in BLOCKS {
        assert!(block_is_free(&mut bus, base, len));
    }
    assert!(setup.finish(77).gpe.is_none());
}

#[test]
fn only_a_missing_pvpanic_does_not_stop_the_boot() {
    let mut bus = PioBus::new();
    bus.register(PVPANIC_IOPORT, 1).expect("free");
    let (_, setup) = steps(opts(true, 2, 8), &mut bus);
    assert!(!setup.has_pvpanic());

    // Let the step after `n` good ones fail.
    let failed = |n: usize| {
        let mut bus = PioBus::new();
        let mut setup = setup_timers_and_pm(opts(true, 2, 8));
        for _ in 0..n {
            setup.advance(&mut bus, true).expect("it worked");
        }
        let before = setup.step();
        let error = setup.advance(&mut bus, false).expect_err("it failed");
        assert_eq!(setup.step(), before);
        assert!(!bus.is_held(GPE0_BLK_ADDR), "a stopped boot claimed a port");
        (error, error.to_text())
    };
    let text = |s: &str| s.to_string();
    assert_eq!(failed(0), (PmError::PmTimer, text("failed to configure PM timer")));
    assert_eq!(
        failed(1),
        (PmError::IrqTrigger(9), text("failed to set SCI IRQ trigger mode"))
    );
    assert_eq!(
        failed(2),
        (PmError::IrqTrigger(10), text("failed to set IRQ 10 trigger mode"))
    );
    assert_eq!(
        failed(3),
        (PmError::IrqTrigger(11), text("failed to set IRQ 11 trigger mode"))
    );
    assert_eq!(
        failed(4),
        (PmError::AcpiPm, text("failed to attach ACPI PM registers"))
    );
    assert_eq!(failed(5), (PmError::SciPin, text("IRQ 9 cannot carry the SCI")));
    assert_eq!(PmError::Gpe0.to_text(), "failed to attach the GPE0 block");
}

#[test]
fn a_window_needs_the_register_files() {
    let window = MemWindow::new(4 * GIB, GIB, GIB).expect("legal");
    assert!(matches!(
        start_mem_hotplug(None, SegidAlloc::new(0), None),
        Ok(None)
    ));
    assert!(matches!(
        start_mem_hotplug(Some(window), SegidAlloc::new(0), None),
        Err(PmError::NoRegisters)
    ));
    assert_eq!(
        PmError::NoRegisters.to_text(),
        "a memory window needs the hotplug register files"
    );
    let Ok(Some(engine)) =
        start_mem_hotplug(Some(window), SegidAlloc::new(0), Some(MemHotplug::new(8)))
    else {
        panic!("both are there");
    };
    assert_eq!(engine.window().size(), GIB);
    assert_eq!(HotplugOpts::from_vm(&vm_opts()), opts(true, 1, 1));
}
