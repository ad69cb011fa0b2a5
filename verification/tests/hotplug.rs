//! PCI hot-add and hot-remove.

use std::collections::BTreeMap;

use vmm::machine::hotplug::cpu::{CpuOnline, VcpuError};
use vmm::machine::hotplug::mem::{
    MapFailure, MemHotplugEngine, MemHotplugError, MemMapper, MemWindow, SegidAlloc,
    DEFAULT_SLOT_SIZE, MAX_SLOTS,
};
use vmm::machine::hotplug::regs::{MemHotplug, PciHotplug};
use vmm::machine::hotplug::unplug::{
    unplug_bounded, unplug_budget, Prepared, Unplug, UNPLUG_BUDGET_MS, UNPLUG_HALT_SLACK_MS,
};
use vmm::machine::hotplug::{
    hotplug_bdf, hotplug_specs, roll_back, AddOutcome, CreatedPciDevice, Eject, EjectAction,
    EjectEvent, HotplugEngine, HotplugEngines, HotplugError,
};
use vmm::machine::pause::{PauseError, VmPause, VmPauseGate};
use vmm::machine::pci::PciDeviceFactory;
use vmm::machine::registry::{DeviceRegistry, RegisteredDevice, RegistryError, SlotState};
use vmm::machine::devspec::device_id;
use vmm::pci::Bdf;

/// A backend that reports whether its work has drained.
#[derive(Default)]
struct Stub {
    quiesces: bool,
    paused: bool,
    halted: bool,
    resumes: usize,
    /// Whether an operator had paused it before.
    operator_paused: bool,
    halt_wedges: bool,
}

impl Stub {
    fn new(quiesces: bool) -> Self {
        Stub { quiesces, ..Stub::default() }
    }

    /// A device whose release never returns.
    fn wedged_halt() -> Self {
        Stub { quiesces: true, halt_wedges: true, ..Stub::default() }
    }

    /// A device an operator has already paused. Resuming it would start it
    /// behind their back.
    fn already_paused() -> Self {
        Stub { paused: true, operator_paused: true, ..Stub::default() }
    }

    /// Prepare the device for its removal: pause it, wait for its work, and
    /// release it.
    fn prepare(&mut self) -> Prepared {
        self.paused = true;
        if !self.quiesces {
            return Prepared::Refused;
        }
        self.halted = true;
        if self.halt_wedges {
            return Prepared::TimedOut;
        }
        Prepared::Released
    }
}

/// Counts the pauses that reach the VM.
#[derive(Default)]
struct RecordingPause {
    pauses: usize,
    resumes: usize,
    fails: bool,
}

impl VmPause for RecordingPause {
    fn pause(&mut self) -> Result<(), PauseError> {
        self.pauses += 1;
        if self.fails {
            return Err(PauseError::Refused("pause refused".into()));
        }
        Ok(())
    }

    fn resume(&mut self) -> Result<(), PauseError> {
        self.resumes += 1;
        Ok(())
    }
}

/// An engine, and an owner that carries out what it asks for.
struct Fixture {
    core: HotplugEngine,
    gate: VmPauseGate<RecordingPause>,
    stubs: BTreeMap<u64, Stub>,
    builds: usize,
    detached: usize,
    trace: Vec<&'static str>,
}

impl Fixture {
    fn new() -> Self {
        Self::with_pause(RecordingPause::default())
    }

    fn with_pause(pause: RecordingPause) -> Self {
        Fixture {
            core: HotplugEngine::new(DeviceRegistry::new(), PciHotplug::new()),
            gate: VmPauseGate::new(pause),
            stubs: BTreeMap::new(),
            builds: 0,
            detached: 0,
            trace: Vec::new(),
        }
    }

    /// Give a backend its handle.
    fn stub(&mut self, stub: Stub) -> u64 {
        let handle = 100 + self.stubs.len() as u64;
        self.stubs.insert(handle, stub);
        handle
    }

    fn add(&mut self, spec: &str) -> Result<String, HotplugError> {
        self.add_with(spec, Stub::new(true)).0
    }

    /// Add a device, and hand back the handle of its backend.
    fn add_with(&mut self, spec: &str, stub: Stub) -> (Result<String, HotplugError>, u64) {
        let lifecycle = self.stub(stub);
        let made = CreatedPciDevice { pci: Some(lifecycle), lifecycle: Some(lifecycle) };
        (self.add_built(spec, Ok(made)), lifecycle)
    }

    /// Add what a catalog made of a spec, and undo it where it is refused.
    fn add_built(
        &mut self,
        spec: &str,
        made: Result<CreatedPciDevice, String>,
    ) -> Result<String, HotplugError> {
        let mut catalog = Catalog { made: Some(made), builds: 0 };
        let outcome = self.core.add_device(spec, &mut catalog);
        self.builds += catalog.builds;
        match outcome {
            AddOutcome::Added(id) => Ok(id),
            AddOutcome::Refused { error, stop, detach } => {
                if let Some(handle) = stop {
                    let stub = self.stubs.get_mut(&handle).expect("a backend");
                    let _ = stub.prepare();
                }
                if let Some(eject) = detach {
                    self.run(eject);
                }
                Err(error)
            }
        }
    }

    /// The slot bits the guest would read as plugged.
    fn slot_up_bits(&self) -> u32 {
        (0..32u8).filter(|s| self.core.regs().is_up(*s)).map(|s| 1 << s).sum()
    }

    /// The slot bits the guest would read as asked for.
    fn slot_down_bits(&self) -> u32 {
        (0..32u8).filter(|s| self.core.regs().is_down(*s)).map(|s| 1 << s).sum()
    }

    fn guest_ejects(&mut self, slot: u8) {
        self.core.guest_ejects(slot);
    }

    fn slot_is_empty(&self, slot: u8) -> bool {
        self.core.slot_is_empty(slot)
    }

    fn drain_ejects(&mut self) {
        for slot in self.core.drain_ejects() {
            self.eject(slot);
        }
    }

    fn eject(&mut self, slot: u8) {
        if let Some(eject) = self.core.eject(slot) {
            self.run(eject);
        }
    }

    /// Carry out one eject to its end.
    fn run(&mut self, mut eject: Eject) {
        let mut action = eject.first_action();
        loop {
            let event = match action {
                EjectAction::Nothing => return,
                EjectAction::Unplug(handle) => {
                    let stub = self.stubs.get_mut(&handle).expect("a backend");
                    let paused_here = !stub.operator_paused;
                    let outcome = unplug_bounded(stub.prepare());
                    EjectEvent::Unplugged { outcome, paused_here }
                }
                EjectAction::ResumeDevice(handle) => {
                    let stub = self.stubs.get_mut(&handle).expect("a backend");
                    assert!(stub.paused, "resume of a device that was not paused");
                    stub.paused = false;
                    stub.resumes += 1;
                    EjectEvent::DeviceResumed
                }
                EjectAction::PauseVm => {
                    let ok = self.gate.pause().is_ok();
                    if ok {
                        self.trace.push("vm-pause");
                    }
                    EjectEvent::VmPaused(ok)
                }
                EjectAction::DetachRegions(device) => {
                    if device.is_some() {
                        self.detached += 1;
                        self.trace.push("detach-regions");
                    }
                    EjectEvent::RegionsDetached
                }
                EjectAction::ResumeVm => {
                    self.trace.push("vm-resume");
                    EjectEvent::VmResumed(self.gate.resume().is_ok())
                }
            };
            action = self.core.advance(&mut eject, event);
        }
    }
}

/// A catalog with one answer.
struct Catalog {
    made: Option<Result<CreatedPciDevice, String>>,
    builds: usize,
}

impl PciDeviceFactory for Catalog {
    fn create(&mut self, _spec: &str) -> Result<CreatedPciDevice, String> {
        self.builds += 1;
        self.made.take().expect("the catalog is asked once")
    }
}

// -- Spec parsing --

#[test]
fn the_hot_add_id_matches_the_boot_path() {
    // One device gets one id however it arrived, or an operator could
    // not name a hot-added device the way device-list reports it.
    assert_eq!(device_id("4,virtio-blk,/disk"), "virtio-blk@4");
    assert_eq!(device_id(" 4 ,virtio-blk"), "virtio-blk@4");
    assert_eq!(device_id("4"), "4");
}

#[test]
fn the_fixed_chipset_slots_are_refused() {
    for slot in [0u8, 1] {
        let spec = format!("{slot},virtio-blk,/disk");
        assert_eq!(
            hotplug_bdf(&spec),
            Err(HotplugError::FixedSlot(slot)),
            "slot {slot} must keep the chipset device it holds",
        );
    }
    for slot in 2..32u8 {
        let spec = format!("{slot},virtio-blk,/disk");
        assert!(hotplug_bdf(&spec).is_ok(), "slot {slot} is hot-pluggable");
    }
}

#[test]
fn an_address_the_register_file_cannot_describe_is_refused() {
    // PCIU, PCID and B0EJ hold one bit per slot of bus 0, and only
    // function 0 gets an _EJ0 method.
    for spec in ["1:4,virtio-blk,/d", "4:1,virtio-blk,/d", "32,virtio-blk"] {
        assert!(
            matches!(hotplug_bdf(spec), Err(HotplugError::BadSpec(_))),
            "'{spec}' must be refused",
        );
    }
}

#[test]
fn a_spec_without_a_driver_is_refused() {
    for spec in ["4", "4,", "4, "] {
        assert!(matches!(hotplug_bdf(spec), Err(HotplugError::BadSpec(_))));
    }
}

// -- Add 

#[test]
fn a_hot_add_registers_the_device_and_tells_the_guest() {
    let mut fixture = Fixture::new();

    let id = fixture.add("5,virtio-blk,/disk").expect("slot 5 is free");

    assert_eq!(id, "virtio-blk@5");
    let device = fixture.core.registry().get_by_id(&id).expect("registered");
    assert_eq!(device.bdf, Bdf::new(0, 5, 0));
    assert_eq!(device.spec.as_deref(), Some("5,virtio-blk,/disk"));
    assert_eq!(device.state, SlotState::Present);
    assert!(device.hotpluggable, "a boot device cannot be removed");
    assert!(!fixture.slot_is_empty(5), "the device is not on the bus");
    // The guest is told last, through PCIU.
    assert_eq!(fixture.slot_up_bits(), 1 << 5);
}

#[test]
fn a_fixed_slot_is_refused_before_anything_is_allocated() {
    // The build opens the backing file and takes a memory segment. A
    // refusal after that leaks both.
    let mut fixture = Fixture::new();
    let err = fixture
        .add("1,virtio-blk,/disk")
        .expect_err("slot 1 holds the LPC bridge");

    assert_eq!(err, HotplugError::FixedSlot(1));
    assert_eq!(fixture.builds, 0, "the catalog ran");
    assert!(fixture.core.registry().is_empty());
}

#[test]
fn an_occupied_slot_is_refused_before_anything_is_allocated() {
    let mut fixture = Fixture::new();
    fixture.add("5,virtio-blk,/first").expect("slot 5 is free");
    assert_eq!(fixture.builds, 1);

    let err = fixture
        .add("5,nvme,/second")
        .expect_err("slot 5 is taken");

    assert_eq!(
        err,
        HotplugError::SlotTaken(Bdf::new(0, 5, 0).expect("slot 5"))
    );
    assert_eq!(fixture.builds, 1, "the catalog ran");
}

#[test]
fn a_slot_the_chipset_holds_is_refused() {
    // The chipset attaches devices the registry never sees, so the
    // registry alone is not proof that a slot is free.
    let mut fixture = Fixture::new();
    let bdf = Bdf::new(0, 6, 0).expect("slot 6");
    assert!(fixture.core.attach(6), "the bus is empty");

    let err = fixture
        .add("6,virtio-blk,/disk")
        .expect_err("the bus holds slot 6");

    assert_eq!(err, HotplugError::SlotTaken(bdf));
}

#[test]
fn a_duplicate_id_is_refused() {
    let mut fixture = Fixture::new();
    fixture.core.register(RegisteredDevice::new("virtio-blk@5".to_string(),
            None,
            None,
            None,
            None,
        ))
        .expect("a backend with no BDF");

    let err = fixture
        .add("5,virtio-blk,/disk")
        .expect_err("the id is taken");

    assert_eq!(err, HotplugError::DuplicateId("virtio-blk@5".to_string()));
}

#[test]
fn a_failed_build_leaves_nothing_behind() {
    let mut fixture = Fixture::new();
    let err = fixture
        .add_built("5,virtio-blk,/missing", Err("failed to open disk".to_string()))
        .expect_err("the disk is missing");

    assert!(
        matches!(err, HotplugError::Create(ref m) if m.contains("open disk")),
        "got {err:?}",
    );
    assert!(fixture.core.registry().is_empty());
    assert!(fixture.slot_is_empty(5));
    assert_eq!(fixture.slot_up_bits(), 0, "the guest was told about it");
}

#[test]
fn a_driver_that_builds_no_pci_device_cannot_be_added() {
    // hostbridge and lpc, and any name the catalog does not know. A
    // record for a slot the guest reads as empty helps nobody.
    let mut fixture = Fixture::new();
    let nothing = CreatedPciDevice { pci: None, lifecycle: None };
    let err = fixture
        .add_built("31,lpc", Ok(nothing))
        .expect_err("the chipset already owns lpc");

    assert_eq!(err, HotplugError::NothingBuilt("lpc".to_string()));
    assert!(fixture.core.registry().is_empty());

    // A backend with no PCI face is refused for the same reason.
    let backend = fixture.stub(Stub::new(true));
    let faceless = CreatedPciDevice { pci: None, lifecycle: Some(backend) };
    assert!(fixture.add_built("5,virtio-blk,/d", Ok(faceless)).is_err());
    assert!(fixture.core.registry().is_empty());
}

#[test]
fn a_rolled_back_add_stops_the_device_and_leaves_the_bus() {
    // The path a registry refusal takes. A device left on the bus with
    // no record would answer config reads that nothing can undo, and
    // its workers would hold the backing file open.
    let mut fixture = Fixture::new();
    assert!(fixture.core.attach(5), "the bus is empty");

    let eject = roll_back(5, Some(1));
    fixture.run(eject);

    assert!(fixture.slot_is_empty(5));
    assert_eq!(fixture.trace, ["vm-pause", "detach-regions", "vm-resume"]);
    assert_eq!(fixture.gate.instance().pauses, 1);
    assert_eq!(fixture.gate.instance().resumes, 1);
}

#[test]
fn the_vm_is_paused_around_the_region_unregister() {
    // A vCPU can be part-way through a BAR access on the device that is
    // leaving. Unregistering the region outside the pause races that
    // access against a bus map that no longer holds the handler.
    let mut fixture = Fixture::new();
    assert!(fixture.core.attach(5), "the bus is empty");

    let eject = roll_back(5, Some(1));
    fixture.run(eject);

    assert_eq!(fixture.trace, ["vm-pause", "detach-regions", "vm-resume"]);
    assert!(fixture.slot_is_empty(5));
}

/// A vCPU can be part-way through a BAR access on the device that is
/// leaving, so the detach needs the pause and must not proceed without.
#[test]
fn a_failed_pause_leaves_the_device_on_the_bus() {
    let pause = RecordingPause { fails: true, ..RecordingPause::default() };
    let mut fixture = Fixture::with_pause(pause);
    assert!(fixture.core.attach(5), "the bus is empty");

    let eject = roll_back(5, Some(1));
    fixture.run(eject);

    assert!(!fixture.slot_is_empty(5), "the device must keep its slot");
    // Resuming after a pause that never took would start the VM behind
    // an operator who paused it.
    assert_eq!(fixture.gate.instance().resumes, 0);
}

/// The guest picks the moment it runs `_EJ0`. An operator pause inside
/// that window must not be answered `EALREADY` and reported as failed.
#[test]
fn an_operator_pause_and_an_eject_share_one_kernel_pause() {
    let mut fixture = Fixture::new();
    let id = fixture.add("5,virtio-blk,/added").expect("added");
    fixture.core.request_remove(&id).expect("requested");

    // The operator pauses, and holds it across the whole eject.
    fixture
        .gate
        .pause()
        .expect("the operator pause is accepted");
    fixture.guest_ejects(5);
    fixture.drain_ejects();

    assert!(fixture.slot_is_empty(5), "the eject must still finish");
    assert_eq!(fixture.gate.instance().pauses, 1);
    // The VM stays stopped: the operator has not resumed it yet.
    assert_eq!(fixture.gate.instance().resumes, 0);
    assert!(fixture.gate.is_held());

    fixture.gate.resume().expect("the operator resumes");
    assert_eq!(fixture.gate.instance().resumes, 1);
    // One pause and one resume reached the kernel for the two holders.
    assert_eq!(fixture.gate.instance().pauses, 1);
}

// -- Remove --------

#[test]
fn a_removal_request_asks_the_guest_and_tears_nothing_down() {
    let mut fixture = Fixture::new();
    let id = fixture.add("5,virtio-blk,/disk").expect("added");

    fixture
        .core
        .request_remove(&id)
        .expect("a hot-added device");

    assert_eq!(
        fixture.core.registry().get_by_id(&id).expect("still there").state,
        SlotState::RemovePending,
    );
    assert!(!fixture.slot_is_empty(5), "the device left before _EJ0");
    assert_eq!(fixture.slot_down_bits(), 1 << 5);
}

#[test]
fn a_boot_device_cannot_be_removed() {
    // Only a hot-added slot was ever advertised as ejectable, so a boot
    // device has no _EJ0 for the guest to run.
    let mut fixture = Fixture::new();
    fixture.core.register(RegisteredDevice::new("virtio-blk@4".to_string(),
            Bdf::new(0, 4, 0),
            None,
            None,
            Some("4,virtio-blk,/disk".to_string()),
        ))
        .expect("a boot device");

    let err = fixture
        .core
        .request_remove("virtio-blk@4")
        .expect_err("argv devices stay");

    assert_eq!(
        err,
        HotplugError::NotHotpluggable("virtio-blk@4".to_string())
    );
}

#[test]
fn an_unknown_id_is_refused() {
    let mut fixture = Fixture::new();
    assert_eq!(
        fixture.core.request_remove("ghost").expect_err("no device"),
        HotplugError::NoSuchDevice("ghost".to_string()),
    );
}

#[test]
fn a_second_request_asks_the_guest_again() {
    // The guest may not have had a driver bound the first time. A
    // repeat must re-raise the event, not fail.
    let mut fixture = Fixture::new();
    let id = fixture.add("5,virtio-blk,/disk").expect("added");
    fixture.core.request_remove(&id).expect("first request");
    assert_eq!(fixture.slot_down_bits(), 1 << 5);

    fixture.core.request_remove(&id).expect("second request");

    assert_eq!(fixture.slot_down_bits(), 1 << 5, "the guest was not asked");
    assert_eq!(
        fixture.core.registry().get_by_id(&id).expect("still there").state,
        SlotState::RemovePending,
    );
}

#[test]
fn a_guest_eject_no_operator_asked_for_is_refused() {
    // A guest that ejects on its own must not take a device out of the
    // machine.
    let mut fixture = Fixture::new();
    let id = fixture.add("5,virtio-blk,/disk").expect("added");

    fixture.guest_ejects(5);
    fixture.drain_ejects();

    let device = fixture.core.registry().get_by_id(&id).expect("still registered");
    assert_eq!(device.state, SlotState::Present);
    assert!(!fixture.slot_is_empty(5));
    // The slot is offered back, so the guest re-binds its driver and
    // the slot is ejectable again.
    assert_eq!(fixture.slot_up_bits(), 1 << 5);
}

#[test]
fn an_eject_the_operator_asked_for_tears_the_device_down() {
    let mut fixture = Fixture::new();
    let (id, lifecycle) = fixture.add_with("5,virtio-blk,/disk", Stub::new(true));
    let id = id.expect("added");
    fixture.core.request_remove(&id).expect("requested");

    fixture.guest_ejects(5);
    fixture.drain_ejects();

    assert!(
        fixture.core.registry().get_by_id(&id).is_none(),
        "still registered"
    );
    assert!(fixture.slot_is_empty(5), "still on the bus");
    assert_eq!(fixture.detached, 1);
    assert!(fixture.stubs[&lifecycle].paused);
    assert!(fixture.stubs[&lifecycle].halted);
    assert_eq!(fixture.gate.instance().pauses, 1);
    assert_eq!(fixture.gate.instance().resumes, 1);
}

#[test]
fn a_device_with_in_flight_work_keeps_its_slot() {
    // Tearing a device out while it still holds DMA would corrupt guest
    // memory. The eject is abandoned, never forced.
    let mut fixture = Fixture::new();
    let (id, lifecycle) = fixture.add_with("5,virtio-blk,/disk", Stub::new(false));
    let id = id.expect("added");
    fixture.core.request_remove(&id).expect("requested");

    fixture.guest_ejects(5);
    fixture.drain_ejects();

    let record = fixture.core.registry().get_by_id(&id).expect("still registered");
    // The removal did not happen, so the slot must not keep reporting
    // one. The operator asks again if they still want it.
    assert_eq!(record.state, SlotState::Present);
    assert!(!fixture.slot_is_empty(5));
    assert!(!fixture.stubs[&lifecycle].halted, "halted anyway");
    assert!(!fixture.stubs[&lifecycle].paused, "left paused");
    assert_eq!(fixture.detached, 0);
    assert_eq!(fixture.gate.instance().pauses, 0);
    // The slot is ejectable again, so a later _EJ0 can retry.
    assert_eq!(fixture.slot_up_bits(), 1 << 5);
}

#[test]
fn an_aborted_eject_leaves_the_device_running() {
    // prepare_unplug pauses before it waits. An abort that walks away
    // leaves a device that never serves the guest again: not halted,
    // backing file still open, and silently dead.
    let mut fixture = Fixture::new();
    let (id, lifecycle) = fixture.add_with("5,virtio-blk,/disk", Stub::new(false));
    let id = id.expect("added");
    fixture.core.request_remove(&id).expect("requested");

    fixture.guest_ejects(5);
    fixture.drain_ejects();

    assert!(!fixture.stubs[&lifecycle].paused, "the device was left paused");
    assert_eq!(fixture.stubs[&lifecycle].resumes, 1);
    assert!(!fixture.stubs[&lifecycle].halted);
}

#[test]
fn an_aborted_eject_puts_the_slot_back_to_present() {
    // The operator's request did not take, so the slot holds a working
    // device again. Leaving it RemovePending would report a removal
    // that is not happening, and would keep it out of a reboot replay.
    let mut fixture = Fixture::new();
    let (id, _lifecycle) = fixture.add_with("5,virtio-blk,/disk", Stub::new(false));
    let id = id.expect("added");
    fixture.core.request_remove(&id).expect("requested");

    fixture.guest_ejects(5);
    fixture.drain_ejects();

    let record = fixture.core.registry().get_by_id(&id).expect("still registered");
    assert_eq!(record.state, SlotState::Present);
    assert_eq!(hotplug_specs(fixture.core.registry()), ["5,virtio-blk,/disk"]);
    // A second request must still be accepted, which needs the Present
    // edge the first one took.
    fixture.core.request_remove(&id).expect("a second request");
    assert_eq!(
        fixture.core.registry().get_by_id(&id).expect("still there").state,
        SlotState::RemovePending,
    );
}

#[test]
fn an_aborted_eject_does_not_resume_a_device_the_operator_paused() {
    // Indicator::resume panics on anything but Pause, and a VM the
    // operator stopped must not be started from here.
    let mut fixture = Fixture::new();
    let (id, lifecycle) = fixture.add_with("5,virtio-blk,/disk", Stub::already_paused());
    let id = id.expect("added");
    fixture.core.request_remove(&id).expect("requested");

    fixture.guest_ejects(5);
    fixture.drain_ejects();

    assert_eq!(
        fixture.stubs[&lifecycle].resumes,
        0,
        "the engine started a device it did not pause",
    );
    assert!(!fixture.stubs[&lifecycle].halted);
}

#[test]
fn one_slot_is_torn_down_once_however_often_the_eject_runs() {
    // The CAS out of RemovePending is the only guard against two
    // teardowns of one device. A second pass must reach nothing.
    let mut fixture = Fixture::new();
    let (id, _lifecycle) = fixture.add_with("5,virtio-blk,/disk", Stub::new(true));
    let id = id.expect("added");
    fixture.core.request_remove(&id).expect("requested");

    fixture.eject(5);
    fixture.eject(5);
    fixture.eject(5);

    assert_eq!(fixture.detached, 1);
    assert_eq!(fixture.gate.instance().pauses, 1);
    assert_eq!(fixture.gate.instance().resumes, 1);
    assert!(fixture.core.registry().get_by_id(&id).is_none());
}

#[test]
fn a_backend_with_no_pci_face_is_stopped_when_the_add_is_refused() {
    // Dropping the handle does not join a worker. A backend the catalog
    // built and the engine refused would hold its backing file open for
    // the life of the VM.
    let mut fixture = Fixture::new();
    let backend = fixture.stub(Stub::new(true));
    let faceless = CreatedPciDevice { pci: None, lifecycle: Some(backend) };

    let err = fixture
        .add_built("5,virtio-blk,/disk", Ok(faceless))
        .expect_err("no PCI device was built");

    assert!(matches!(err, HotplugError::NothingBuilt(_)));
    assert!(fixture.core.registry().is_empty());
    assert!(fixture.stubs[&backend].halted, "the backend was left running");
}

#[test]
fn a_device_that_cannot_be_quiesced_keeps_its_slot() {
    // passthru carries no lifecycle, so nothing reports that its DMA
    // has stopped.
    let mut fixture = Fixture::new();
    let passthru = CreatedPciDevice { pci: Some(1), lifecycle: None };
    let id = fixture
        .add_built("5,passthru,/dev/ppt0", Ok(passthru))
        .expect("added");
    fixture.core.request_remove(&id).expect("requested");

    fixture.guest_ejects(5);
    fixture.drain_ejects();

    assert!(fixture.core.registry().get_by_id(&id).is_some());
    assert!(!fixture.slot_is_empty(5));
}

#[test]
fn an_eject_of_an_empty_slot_does_nothing() {
    let mut fixture = Fixture::new();

    fixture.eject(9);

    assert!(fixture.core.registry().is_empty());
    assert_eq!(fixture.gate.instance().pauses, 0);
}

#[test]
fn a_slot_can_be_reused_after_its_device_leaves() {
    let mut fixture = Fixture::new();
    let id = fixture.add("5,virtio-blk,/first").expect("added");
    fixture.core.request_remove(&id).expect("requested");
    fixture.guest_ejects(5);
    fixture.drain_ejects();

    let second = fixture.add("5,virtio-blk,/second").expect("slot 5 is free");

    assert_eq!(second, id);
    assert_eq!(
        fixture
            .core
            .registry()
            .get_by_id(&second)
            .expect("registered")
            .spec
            .as_deref(),
        Some("5,virtio-blk,/second"),
    );
}

#[test]
fn only_hot_added_devices_are_replayed_on_a_restart() {
    // An argv device already has its own -s entry, with the bootindex
    // token the registry does not keep.
    let mut fixture = Fixture::new();
    fixture.core.register(RegisteredDevice::new("virtio-blk@4".to_string(),
            Bdf::new(0, 4, 0),
            None,
            None,
            Some("4,virtio-blk,/boot".to_string()),
        ))
        .expect("a boot device");
    fixture.add("5,virtio-blk,/added").expect("added");

    assert_eq!(hotplug_specs(fixture.core.registry()), ["5,virtio-blk,/added"]);
}

#[test]
fn a_slot_on_its_way_out_is_not_replayed() {
    let mut fixture = Fixture::new();
    let id = fixture.add("5,virtio-blk,/added").expect("added");
    fixture.core.set_state(&id, SlotState::Present, SlotState::RemovePending)
        .expect("requested");
    // A guest that never runs _EJ0 keeps the device, so it is replayed.
    assert_eq!(hotplug_specs(fixture.core.registry()), ["5,virtio-blk,/added"]);

    // A device whose teardown has begun is going, so replaying its spec
    // in the next run would open its backing file again.
    fixture.core.set_state(&id, SlotState::RemovePending, SlotState::Ejecting)
        .expect("ejecting");
    assert!(hotplug_specs(fixture.core.registry()).is_empty());

    fixture.core.set_state(&id, SlotState::Ejecting, SlotState::Absent)
        .expect("absent");
    assert!(hotplug_specs(fixture.core.registry()).is_empty());
}

/// viona's release is an untimed `cv_wait` that heeds no signal. Run on
/// the drain thread it would answer no later eject, and teardown's join
/// would never return.
#[test]
fn a_release_that_never_returns_does_not_park_the_drain_thread() {
    let mut fixture = Fixture::new();
    let (added, lifecycle) = fixture.add_with("5,virtio-blk,/added", Stub::wedged_halt());
    let id = added.expect("added");
    fixture.core.request_remove(&id).expect("requested");
    fixture.guest_ejects(5);

    fixture.drain_ejects();

    // The slot is not taken apart: a worker can still be inside the
    // device that is leaving.
    assert_eq!(
        fixture.core.registry().get_by_id(&id).map(|d| d.state),
        Some(SlotState::Ejecting),
    );
    assert_eq!(fixture.detached, 0);
    assert_eq!(fixture.stubs[&lifecycle].resumes, 0);
}

/// A refused drain thread means nothing acts on the guest's `_EJ0`, so
/// the slot would report remove-pending for the life of the VM and be
/// replayed on the next boot.
#[test]
fn a_removal_is_refused_when_no_thread_would_drain_it() {
    let mut fixture = Fixture::new();
    let id = fixture.add("5,virtio-blk,/added").expect("added");

    fixture.core.set_not_drained();

    assert_eq!(
        fixture.core.request_remove(&id),
        Err(HotplugError::NotDrained),
    );
    // The slot is untouched, so the device goes on serving the guest.
    assert_eq!(
        fixture.core.registry().get_by_id(&id).map(|d| d.state),
        Some(SlotState::Present),
    );
}

/// Teardown takes its device list once. Anything added after that is
/// never halted, and its `vmm_drv` lease parks the VM destroy.
#[test]
fn a_closed_engine_refuses_every_add_and_removal() {
    let mut fixture = Fixture::new();
    let id = fixture.add("5,virtio-blk,/added").expect("added");

    fixture.core.close();

    assert_eq!(fixture.add("6,virtio-blk,/late"), Err(HotplugError::Closed),);
    assert_eq!(fixture.core.request_remove(&id), Err(HotplugError::Closed),);
    // The device that was already there is untouched, so the teardown
    // sweep still finds it.
    assert!(fixture.core.registry().get_by_id(&id).is_some());
}

/// The guest picks the moment it runs `_EJ0`, so it can pick the instant
/// the VM powers off. An eject then halts the same device the teardown
/// sweep is halting, from a second thread.
#[test]
fn a_closed_engine_drains_no_eject() {
    let mut fixture = Fixture::new();
    let id = fixture.add("5,virtio-blk,/added").expect("added");
    fixture.core.set_state(&id, SlotState::Present, SlotState::RemovePending)
        .expect("requested");
    fixture.guest_ejects(5);

    fixture.core.close();
    fixture.drain_ejects();

    assert!(fixture.core.registry().get_by_id(&id).is_some());
    assert_eq!(
        fixture.core.registry().get_by_id(&id).map(|d| d.state),
        Some(SlotState::RemovePending),
    );
}

#[test]
fn engines_a_vm_did_not_ask_for_are_absent() {
    let mut engines = HotplugEngines::<NoCpus>::none();
    assert!(engines.pci.is_none());
    assert!(engines.cpu.is_none());
    assert!(engines.mem.is_none());
    // Closing nothing must be quiet, because teardown does it on every VM.
    engines.close();

    engines.pci = Some(HotplugEngine::new(DeviceRegistry::new(), PciHotplug::new()));
    engines.close();
    let pci = engines.pci.expect("it is still there");
    assert!(matches!(pci.add("5,virtio-blk,/d"), Err(HotplugError::Closed)));
}

#[test]
fn the_engine_works_on_the_register_file_it_was_given() {
    let mut regs = PciHotplug::new();
    regs.notify_added(7);
    let engine = HotplugEngine::new(DeviceRegistry::new(), regs);
    assert!(engine.regs().is_up(7));
    assert!(!engine.regs().is_up(5));
}

#[test]
fn two_ejects_of_one_device_tear_it_down_once() {
    let mut fixture = Fixture::new();
    let (id, _) = fixture.add_with("5,virtio-blk,/disk", Stub::new(true));
    let id = id.expect("added");
    fixture.core.request_remove(&id).expect("requested");

    // Both began before either got anywhere.
    let mut first = fixture.core.eject(5).expect("asked for");
    let mut second = fixture.core.eject(5).expect("asked for");
    let done = EjectEvent::Unplugged { outcome: Unplug::Done, paused_here: true };
    assert_eq!(fixture.core.advance(&mut first, done), EjectAction::PauseVm);
    assert_eq!(fixture.core.advance(&mut second, done), EjectAction::Nothing);
    assert_eq!(second.first_action(), EjectAction::Nothing, "it is over");

    assert!(matches!(
        fixture.core.advance(&mut first, EjectEvent::VmPaused(true)),
        EjectAction::DetachRegions(Some(_)),
    ));
    assert_eq!(first.first_action(), EjectAction::Nothing, "it has begun");
    assert_eq!(
        fixture.core.advance(&mut second, EjectEvent::VmPaused(true)),
        EjectAction::Nothing,
    );
    assert_eq!(
        fixture.core.advance(&mut first, EjectEvent::RegionsDetached),
        EjectAction::ResumeVm,
    );
    assert_eq!(
        fixture.core.advance(&mut first, EjectEvent::VmResumed(true)),
        EjectAction::Nothing,
    );
    assert!(fixture.core.registry().get_by_id(&id).is_none());
    assert!(fixture.core.eject(5).is_none());
}

/// A mapper that counts what it was asked for.
#[derive(Default)]
struct CountingMapper {
    adds: usize,
}

impl MemMapper for CountingMapper {
    fn add_ram(&mut self, _segid: i32, _gpa: u64, _len: u64) -> Result<(), MapFailure> {
        self.adds += 1;
        Ok(())
    }
}

#[test]
fn a_memory_add_after_the_close_is_refused_as_stopped() {
    let window = MemWindow::new(0x4_0000_0000, 4 * DEFAULT_SLOT_SIZE, DEFAULT_SLOT_SIZE)
        .expect("a legal window");
    let mut mapper = CountingMapper::default();
    let mut engine =
        MemHotplugEngine::start_with(SegidAlloc::new(0), MemHotplug::new(MAX_SLOTS), window);
    assert_eq!(engine.add_memory(&mut mapper, DEFAULT_SLOT_SIZE), Ok(0));
    engine.guest_ejects(0);
    assert!(engine.regs().slot(0).requested);

    let mut engines = HotplugEngines::<NoCpus>::none();
    engines.mem = Some(engine);
    engines.close();

    let mut engine = engines.mem.expect("it is still there");
    // The eject that came last still got its answer, and took nothing.
    assert!(!engine.regs().slot(0).requested);
    assert!(engine.regs().slot(0).enabled);
    let events = engine.regs().events();
    assert_eq!(
        engine.add_memory(&mut mapper, DEFAULT_SLOT_SIZE),
        Err(MemHotplugError::Stopped),
    );
    // Before every other limit.
    assert_eq!(engine.add_memory(&mut mapper, 0), Err(MemHotplugError::Stopped));
    assert_eq!(mapper.adds, 1, "the mapper was asked for a stopped engine");
    assert_eq!(engine.slots_used(), 1);
    assert_eq!(engine.bytes_added(), DEFAULT_SLOT_SIZE);
    assert_eq!(engine.regs().events(), events);
}

/// A machine that is never asked.
struct NoCpus;

impl CpuOnline for NoCpus {
    fn possible_cpus(&self) -> u32 {
        0
    }

    fn boot_cpus(&self) -> u32 {
        0
    }

    fn is_online(&self, _id: u32) -> bool {
        false
    }

    fn add_vcpu(&mut self, id: u32) -> Result<(), VcpuError> {
        Err(VcpuError::ThreadGone(id))
    }
}

#[test]
fn the_texts_of_the_hotplug_refusals() {
    let bdf = Bdf::new(0, 5, 0).expect("slot 5");
    for (error, text) in [
        (HotplugError::Disabled, "this VM was not started with --hotplug"),
        (HotplugError::Closed, "the VM is shutting down"),
        (
            HotplugError::NotDrained,
            "this VM has no hotplug drain thread, so a removal could not be finished",
        ),
        (HotplugError::BadSpec("x".to_string()), "bad spec: x"),
        (HotplugError::FixedSlot(1), "PCI slot 1 is fixed and cannot be plugged"),
        (HotplugError::SlotTaken(bdf), "PCI slot 0:5:0 is already in use"),
        (HotplugError::DuplicateId("a".to_string()), "device id a is already registered"),
        (HotplugError::Create("e".to_string()), "cannot create the device: e"),
        (
            HotplugError::NothingBuilt("lpc".to_string()),
            "driver lpc builds no device to put in a slot",
        ),
        (
            HotplugError::Registry(RegistryError::NoSuchDevice("q".to_string())),
            "no device with id q",
        ),
        (HotplugError::NoSuchDevice("q".to_string()), "no device with id q"),
        (
            HotplugError::NotHotpluggable("q".to_string()),
            "device q was not hot-added and cannot be removed",
        ),
        (
            HotplugError::NotRemovable { id: "q".to_string(), state: SlotState::Ejecting },
            "device q is ejecting",
        ),
    ] {
        assert_eq!(error.to_text(), text);
    }
}

#[test]
fn a_slot_that_is_leaving_cannot_be_asked_for() {
    let mut fixture = Fixture::new();
    let id = fixture.add("5,virtio-blk,/disk").expect("added");
    fixture
        .core
        .set_state(&id, SlotState::Present, SlotState::RemovePending)
        .expect("requested");
    fixture
        .core
        .set_state(&id, SlotState::RemovePending, SlotState::Ejecting)
        .expect("ejecting");
    assert_eq!(
        fixture.core.request_remove(&id),
        Err(HotplugError::NotRemovable { id, state: SlotState::Ejecting })
    );
}

#[test]
fn what_a_preparation_means_for_the_slot() {
    assert_eq!(unplug_bounded(Prepared::Released), Unplug::Done);
    assert_eq!(unplug_bounded(Prepared::Refused), Unplug::Kept { paused: true });
    assert_eq!(unplug_bounded(Prepared::NotStarted), Unplug::Kept { paused: false });
    assert_eq!(unplug_bounded(Prepared::TimedOut), Unplug::InFlight);
    assert_eq!(unplug_bounded(Prepared::Vanished), Unplug::InFlight);
    assert_eq!(unplug_budget(UNPLUG_BUDGET_MS, UNPLUG_HALT_SLACK_MS), 10_000);
}

#[test]
fn an_ejectable_slot_is_one_the_guest_was_told_of() {
    let mut fixture = Fixture::new();
    assert!(!fixture.core.regs().is_ejectable(5));
    fixture.add("5,virtio-blk,/disk").expect("added");
    assert!(fixture.core.regs().is_ejectable(5));
}
