//! CPU hot-add.

use std::collections::BTreeSet;

use vmm::machine::hotplug::cpu::{CpuHotplugEngine, CpuHotplugError, CpuOnline, CpuSlots, VcpuError};
use vmm::machine::hotplug::regs::CpuHotplug;
use vmm::machine::hotplug::start_cpu_hotplug;

const STS_ENABLED: u8 = 1 << 0;
const STS_INSERT_EVENT: u8 = 1 << 1;

/// A stand-in machine.
struct FakeCpus {
    possible: u32,
    boot: u32,
    online: BTreeSet<u32>,
    /// What the next adds answer, taken from the back.
    answers: Vec<VcpuError>,
    /// Every id that reached the machine, in order.
    adds: Vec<u32>,
}

impl FakeCpus {
    fn answer_with(&mut self, error: VcpuError) {
        self.answers.push(error);
    }
}

impl CpuOnline for FakeCpus {
    fn possible_cpus(&self) -> u32 {
        self.possible
    }

    fn boot_cpus(&self) -> u32 {
        self.boot
    }

    fn is_online(&self, id: u32) -> bool {
        self.online.contains(&id)
    }

    fn add_vcpu(&mut self, id: u32) -> Result<(), VcpuError> {
        self.adds.push(id);
        match self.answers.pop() {
            None => {
                self.online.insert(id);
                Ok(())
            }
            Some(error) => {
                // The machine keeps the claim when the kernel
                // activated the CPU, because nothing undoes that.
                if !error.left_cpu_inactive() {
                    self.online.insert(id);
                }
                Err(error)
            }
        }
    }
}

/// One engine over a stand-in machine.
struct Harness {
    engine: CpuHotplugEngine,
    cpus: FakeCpus,
}

impl Harness {
    /// What the drain does: refuse every eject.
    fn drain(&mut self) {
        for id in self.engine.drain_ejects() {
            let online = self.cpus.is_online(id);
            self.engine.refuse_eject(id, online);
        }
    }
}

fn harness(possible: u32, boot: u32) -> Harness {
    let mut regs = CpuHotplug::new(possible);
    regs.set_boot_cpus(boot);
    Harness {
        engine: CpuHotplugEngine::start(regs),
        cpus: FakeCpus {
            possible,
            boot,
            online: (0..boot.min(possible)).collect(),
            answers: Vec::new(),
            adds: Vec::new(),
        },
    }
}

/// The status byte the guest reads for one slot.
fn status(h: &Harness, id: u32) -> u8 {
    let regs = h.engine.regs();
    u8::from(regs.is_enabled(id)) * STS_ENABLED + u8::from(regs.is_inserting(id)) * STS_INSERT_EVENT
}

#[test]
fn an_add_brings_the_cpu_online_and_then_tells_the_guest() {
    let mut h = harness(8, 2);

    h.engine.add_cpu(&mut h.cpus, 4).expect("slot 4 is free");

    assert_eq!(h.cpus.adds, [4], "the registry was asked once");
    assert!(h.cpus.is_online(4));
    let status: u8 = status(&h, 4);
    assert_eq!(status & STS_ENABLED, STS_ENABLED, "the slot reads absent");
    assert_eq!(status & STS_INSERT_EVENT, STS_INSERT_EVENT);
}

#[test]
fn an_add_raises_the_cpu_gpe_bit() {
    // Bit 2 runs the guest's `_E02` handler, which scans the slots.
    // Without it the guest never looks at the register file again.
    let mut h = harness(8, 2);

    h.engine.add_cpu(&mut h.cpus, 4).expect("slot 4 is free");

    assert_eq!(h.engine.regs().events(), 1);
}

#[test]
fn an_id_past_the_last_slot_is_refused_before_the_kernel() {
    let mut h = harness(8, 2);

    assert_eq!(
        h.engine.add_cpu(&mut h.cpus, 8),
        Err(CpuHotplugError::OutOfRange { id: 8, max_cpus: 8 }),
    );
    assert_eq!(
        h.engine.add_cpu(&mut h.cpus, u32::MAX),
        Err(CpuHotplugError::OutOfRange {
            id: u32::MAX,
            max_cpus: 8,
        }),
    );
    assert!(h.cpus.adds.is_empty(), "the kernel was asked anyway");
    assert!(h.engine.regs().events() == 0, "the guest was told anyway");
}

#[test]
fn a_boot_cpu_cannot_be_hot_added() {
    // A boot CPU is running before the guest reads the DSDT, so an
    // insert event for it describes something that never happened.
    let mut h = harness(8, 2);

    assert_eq!(h.engine.add_cpu(&mut h.cpus, 0), Err(CpuHotplugError::BootCpu(0)));
    assert_eq!(h.engine.add_cpu(&mut h.cpus, 1), Err(CpuHotplugError::BootCpu(1)));
    assert!(h.cpus.adds.is_empty());
    assert!(h.engine.regs().events() == 0);
}

#[test]
fn a_vm_with_no_spare_slot_can_add_nothing() {
    // `pm::HotplugOpts::has_cpu_slots` claims no register file when
    // max_cpus is not above the boot count, and the DSDT emits no
    // controller. The engine has to make the same cut, or the two
    // halves disagree about what a guest can be told.
    let mut h = harness(4, 4);

    for id in 0..5 {
        assert!(h.engine.add_cpu(&mut h.cpus, id).is_err(), "id {id} was accepted");
    }
    assert!(h.cpus.adds.is_empty());
    assert!(h.engine.regs().events() == 0);
}

#[test]
fn a_cpu_that_is_running_cannot_be_added_again() {
    let mut h = harness(8, 2);
    h.engine.add_cpu(&mut h.cpus, 4).expect("slot 4 is free");

    assert_eq!(h.engine.add_cpu(&mut h.cpus, 4), Err(CpuHotplugError::AlreadyOnline(4)),);
    assert_eq!(h.cpus.adds, [4], "the second add reached the kernel");
}

#[test]
fn an_add_that_left_the_kernel_alone_can_be_retried() {
    // A spawn failure never reached VM_ACTIVATE_CPU, so the id is
    // still free and a retry must work.
    let mut h = harness(8, 2);
    h.cpus.answer_with(VcpuError::Spawn {
        id: 4,
        error: "EAGAIN".into(),
    });

    let refused = h.engine.add_cpu(&mut h.cpus, 4).expect_err("the spawn failed");
    assert!(matches!(refused, CpuHotplugError::Online(_)));
    assert!(
        h.engine.regs().events() == 0,
        "the guest was told of a failure"
    );
    assert_eq!(status(&h, 4) & STS_ENABLED, 0, "the slot is not free");

    h.engine.add_cpu(&mut h.cpus, 4).expect("the id was given back");
    assert_eq!(h.cpus.adds, [4, 4]);
}

#[test]
fn an_id_the_kernel_consumed_is_refused_for_good() {
    // ThreadGone means VM_ACTIVATE_CPU went through and the thread
    // did not. There is no vm_deactivate_cpu, so the id is spent.
    let mut h = harness(8, 2);
    h.cpus.answer_with(VcpuError::ThreadGone(4));

    let refused = h.engine.add_cpu(&mut h.cpus, 4).expect_err("the thread has gone");
    assert_eq!(refused, CpuHotplugError::Online(VcpuError::ThreadGone(4)),);

    assert_eq!(h.engine.add_cpu(&mut h.cpus, 4), Err(CpuHotplugError::Consumed(4)));
    assert_eq!(h.cpus.adds, [4], "a consumed id reached the kernel");
    assert_eq!(h.engine.consumed_cpus(), [4]);
    // A neighbouring id is untouched.
    h.engine.add_cpu(&mut h.cpus, 5).expect("slot 5 is free");
}

#[test]
fn an_ebusy_from_the_kernel_also_spends_the_id() {
    // vm_activate_cpu sets active_cpus and only then answers EBUSY
    // for a VM that was suspended in the meantime. The CPU may be
    // active, so the id cannot go back into the pool.
    let mut h = harness(8, 2);
    h.cpus.answer_with(VcpuError::Suspended(4));

    h.engine.add_cpu(&mut h.cpus, 4).expect_err("the kernel said EBUSY");

    assert_eq!(h.engine.add_cpu(&mut h.cpus, 4), Err(CpuHotplugError::Consumed(4)));
    assert_eq!(h.cpus.adds, [4], "a spent id reached the kernel once");
    assert_eq!(h.engine.consumed_cpus(), [4]);
}

#[test]
fn an_eject_is_refused_and_the_cpu_keeps_its_slot() {
    let mut h = harness(8, 2);
    h.engine.add_cpu(&mut h.cpus, 4).expect("slot 4 is free");
    h.engine.notify_removed(4);
    h.engine.guest_ejects(4);
    assert_eq!(
        status(&h, 4) & STS_ENABLED,
        0,
        "the register file did not take the eject",
    );

    h.drain();

    assert_eq!(
        status(&h, 4) & STS_ENABLED,
        STS_ENABLED,
        "a CPU the kernel still runs reads as gone",
    );
    assert!(h.cpus.is_online(4), "nothing may take a vCPU down");
}

#[test]
fn a_refused_eject_cannot_be_repeated_by_the_guest() {
    // The refusal clears `pending_removal`, so the next `_EJ0`
    // finds nothing to do and the exchange ends.
    let mut h = harness(8, 2);
    h.engine.add_cpu(&mut h.cpus, 4).expect("slot 4 is free");
    h.engine.notify_removed(4);
    h.engine.guest_ejects(4);
    h.drain();

    h.engine.guest_ejects(4);

    assert!(h.engine.drain_ejects().is_empty());
    assert_eq!(status(&h, 4) & STS_ENABLED, STS_ENABLED);
}

#[test]
fn an_eject_of_a_cpu_that_is_not_online_is_not_advertised_back() {
    // The register file is told about a slot the registry never
    // brought online. Re-advertising it would claim a CPU that no
    // thread runs.
    let mut h = harness(8, 2);
    // Nobody runs this CPU, but the guest was told of it.
    h.engine.refuse_eject(4, true);
    h.engine.notify_removed(4);
    h.engine.guest_ejects(4);

    h.drain();

    assert_eq!(status(&h, 4) & STS_ENABLED, 0);
}

#[test]
fn the_drain_takes_every_eject_in_one_pass() {
    let mut h = harness(8, 1);
    for id in [1u32, 2, 3] {
        h.engine.add_cpu(&mut h.cpus, id).expect("the slot is free");
        h.engine.notify_removed(id);
        h.engine.guest_ejects(id);
    }

    h.drain();

    for id in [1u32, 2, 3] {
        assert_eq!(
            status(&h, id) & STS_ENABLED,
            STS_ENABLED,
            "CPU {id} was left reading as gone",
        );
    }
    assert!(h.engine.drain_ejects().is_empty());
}

#[test]
fn every_error_says_which_cpu_it_is_about() {
    let errors = [
        CpuHotplugError::OutOfRange { id: 7, max_cpus: 4 },
        CpuHotplugError::BootCpu(7),
        CpuHotplugError::AlreadyOnline(7),
        CpuHotplugError::Consumed(7),
        CpuHotplugError::Online(VcpuError::ThreadGone(7)),
    ];

    for error in errors {
        assert!(
            error.to_text().contains('7'),
            "{error:?} does not name the vCPU",
        );
    }
}

#[test]
fn the_slots_of_a_vm_drain_themselves() {
    let h = harness(8, 2);
    let mut slots = CpuSlots::new(h.engine, h.cpus);
    slots.add(4).expect("slot 4 is free");
    assert_eq!((slots.boot_cpus(), slots.max_cpus()), (2, 8));
    assert!(slots.is_online(4));
    slots.guest_ejects(4);
    // No removal was asked for, so there is nothing to drain.
    slots.drain_ejects();
    assert!(slots.engine().regs().is_enabled(4));
    assert!(slots.consumed().is_empty());
    assert_eq!(slots.vcpus().adds, [4]);
}

#[test]
fn spent_ids_are_listed_in_order() {
    let mut h = harness(16, 2);
    for id in [9u32, 4, 12, 4] {
        h.cpus.answer_with(VcpuError::ThreadGone(id));
        let _ = h.engine.add_cpu(&mut h.cpus, id);
    }
    assert_eq!(h.engine.consumed_cpus(), [4, 9, 12]);
}

#[test]
fn a_vm_without_cpu_slots_has_no_engine() {
    let h = harness(2, 2);
    assert!(start_cpu_hotplug(None, h.cpus).is_none());
}

#[test]
fn the_texts_of_the_refusals() {
    assert_eq!(
        CpuHotplugError::OutOfRange { id: 8, max_cpus: 8 }.to_text(),
        "vCPU 8 is not one of the 8 CPU slots"
    );
    assert_eq!(
        CpuHotplugError::BootCpu(1).to_text(),
        "vCPU 1 is a boot CPU and is online already"
    );
    assert_eq!(CpuHotplugError::AlreadyOnline(3).to_text(), "vCPU 3 is online already");
    assert_eq!(
        CpuHotplugError::Consumed(3).to_text(),
        "vCPU 3 was consumed by a failed add: the kernel cannot deactivate a vCPU, \
         so the id cannot be reused"
    );
    assert!(VcpuError::Spawn { id: 6, error: "EAGAIN".to_string() }.to_text().contains("EAGAIN"));
    assert!(VcpuError::Suspended(6).to_text().contains('6'));
}

/// A machine that answers only for the ids an add may ask about.
struct StrictCpus {
    spent: u32,
}

impl CpuOnline for StrictCpus {
    fn possible_cpus(&self) -> u32 {
        8
    }

    fn boot_cpus(&self) -> u32 {
        2
    }

    fn is_online(&self, id: u32) -> bool {
        assert!((2..8).contains(&id), "asked about vCPU {id}");
        assert_ne!(id, self.spent, "asked about a spent id");
        false
    }

    fn add_vcpu(&mut self, id: u32) -> Result<(), VcpuError> {
        if id == 5 {
            self.spent = id;
            return Err(VcpuError::ThreadGone(id));
        }
        Ok(())
    }
}

#[test]
fn the_machine_is_not_asked_about_an_id_that_is_refused_without_it() {
    let mut cpus = StrictCpus { spent: u32::MAX };
    let mut regs = CpuHotplug::new(8);
    regs.set_boot_cpus(2);
    let mut engine = CpuHotplugEngine::start(regs);
    assert_eq!(
        engine.add_cpu(&mut cpus, 8),
        Err(CpuHotplugError::OutOfRange { id: 8, max_cpus: 8 }),
    );
    assert_eq!(engine.add_cpu(&mut cpus, 1), Err(CpuHotplugError::BootCpu(1)));
    assert_eq!(
        engine.add_cpu(&mut cpus, 5),
        Err(CpuHotplugError::Online(VcpuError::ThreadGone(5))),
    );
    assert_eq!(engine.add_cpu(&mut cpus, 5), Err(CpuHotplugError::Consumed(5)));
    assert_eq!(engine.add_cpu(&mut cpus, 6), Ok(()));
}
