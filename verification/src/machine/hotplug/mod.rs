//! Run-time PCI hot-add and hot-remove.
//!
//! The register files in [`regs`] only record what the guest asked for. This
//! is the other half: it decides every add and every removal. Its owner
//! carries out what touches a device or the VM, and says what came of it.
//!
//! # Add
//!
//! An operator names a `-s` spec. The slot is checked before anything
//! is allocated, the device is built through the catalog that boot uses,
//! and only then does the guest hear about it.
//!
//! # Remove
//!
//! A removal is a REQUEST, never an order. `request_remove` marks the
//! slot and asks the guest to eject. It tears nothing down and
//! returns at once. The guest answers when its driver has let go. A
//! guest that never answers leaves the slot in
//! [`SlotState::RemovePending`] for the life of the VM, which is the
//! correct outcome: the device is still in use. Nothing here forces a
//! removal, and no backing file is closed before the guest is done with
//! it.

pub mod cpu;
pub mod laws;
pub mod mem;
pub mod regs;
pub mod unplug;

use vstd::prelude::*;
use vstd::string::*;

use self::cpu::{CpuHot, CpuHotplugEngine, CpuOnline, CpuSlots};
use self::mem::MemHotplugEngine;
use self::regs::{all_down, flags_down, raised, CpuHotplug, PciHotplug, PciRegs, PCI_SLOTS};
use self::unplug::Unplug;
use super::devspec::{device_id, driver_of, id_of, parts, slot_of};
use super::parse::{bdf_numbers, names_bdf, parse_bdf};
use super::pci::{made_of, Made, PciDeviceFactory};
use super::registry::{
    address, append_address, has_bdf, has_id, index_of_bdf, index_of_id, insert_error, step_error,
    stepped, Device, DeviceRegistry, RegErr, RegisteredDevice, RegistryError, SlotState,
};
use crate::pci::Bdf;
use crate::text::{append_decimal, decimal, owned};

verus! {

// ---- Errors ----------------------------------------------------------------

/// Why a hotplug request was refused.
#[derive(Debug, PartialEq, Eq)]
pub enum HotplugError {
    /// The VM did not ask for the ACPI hotplug interface.
    Disabled,
    /// The spec is not `slot,driver[,config]`, or names an address a
    /// hot-add cannot use.
    BadSpec(String),
    /// Slot 0 is the host bridge and slot 1 is the LPC bridge. Neither
    /// can be ejected, so neither can be plugged.
    FixedSlot(u8),
    /// Something already holds the slot.
    SlotTaken(Bdf),
    /// Another device holds the id this spec would take.
    DuplicateId(String),
    /// The catalog refused the spec or could not build the device.
    Create(String),
    /// The catalog built no PCI device. `hostbridge` and `lpc` do that,
    /// because the chipset already owns them, and so does a driver name
    /// the catalog does not know.
    NothingBuilt(String),
    /// The registry refused the record.
    Registry(RegistryError),
    /// No device holds this id.
    NoSuchDevice(String),
    /// The device came from argv. Only a hot-added device can be
    /// removed, because only its slot was ever advertised as ejectable.
    NotHotpluggable(String),
    /// The slot is already on its way out.
    NotRemovable { id: String, state: SlotState },
    /// The VM has stopped. Teardown has already taken its list of
    /// devices, so a device added now would never be halted.
    Closed,
    /// Nothing is draining ejects, so the guest's eject would never
    /// be acted on and the slot would stay `RemovePending` for the life
    /// of the VM.
    NotDrained,
}

/// What a hotplug error says.
pub ghost enum HotErr {
    Disabled,
    BadSpec(Seq<char>),
    FixedSlot(u8),
    SlotTaken(Bdf),
    DuplicateId(Seq<char>),
    Create(Seq<char>),
    NothingBuilt(Seq<char>),
    Registry(RegErr),
    NoSuchDevice(Seq<char>),
    NotHotpluggable(Seq<char>),
    NotRemovable { id: Seq<char>, state: SlotState },
    Closed,
    NotDrained,
}

impl View for HotplugError {
    type V = HotErr;

    open spec fn view(&self) -> HotErr {
        match *self {
            HotplugError::Disabled => HotErr::Disabled,
            HotplugError::BadSpec(reason) => HotErr::BadSpec(reason@),
            HotplugError::FixedSlot(slot) => HotErr::FixedSlot(slot),
            HotplugError::SlotTaken(bdf) => HotErr::SlotTaken(bdf),
            HotplugError::DuplicateId(id) => HotErr::DuplicateId(id@),
            HotplugError::Create(reason) => HotErr::Create(reason@),
            HotplugError::NothingBuilt(driver) => HotErr::NothingBuilt(driver@),
            HotplugError::Registry(e) => HotErr::Registry(e@),
            HotplugError::NoSuchDevice(id) => HotErr::NoSuchDevice(id@),
            HotplugError::NotHotpluggable(id) => HotErr::NotHotpluggable(id@),
            HotplugError::NotRemovable { id, state } => HotErr::NotRemovable { id: id@, state },
            HotplugError::Closed => HotErr::Closed,
            HotplugError::NotDrained => HotErr::NotDrained,
        }
    }
}

impl HotErr {
    pub open spec fn text(self) -> Seq<char> {
        match self {
            HotErr::Disabled => "this VM was not started with --hotplug"@,
            HotErr::Closed => "the VM is shutting down"@,
            HotErr::NotDrained => {
                "this VM has no hotplug drain thread, so a removal could not be finished"@
            },
            HotErr::BadSpec(reason) => "bad spec: "@ + reason,
            HotErr::FixedSlot(slot) => "PCI slot "@ + decimal(slot as nat)
                + " is fixed and cannot be plugged"@,
            HotErr::SlotTaken(bdf) => "PCI slot "@ + address(bdf) + " is already in use"@,
            HotErr::DuplicateId(id) => "device id "@ + id + " is already registered"@,
            HotErr::Create(reason) => "cannot create the device: "@ + reason,
            HotErr::NothingBuilt(driver) => "driver "@ + driver
                + " builds no device to put in a slot"@,
            HotErr::Registry(e) => e.text(),
            HotErr::NoSuchDevice(id) => "no device with id "@ + id,
            HotErr::NotHotpluggable(id) => "device "@ + id
                + " was not hot-added and cannot be removed"@,
            HotErr::NotRemovable { id, state } => "device "@ + id + " is "@ + state.spec_name(),
        }
    }
}

impl HotplugError {
    /// The error as an operator reads it.
    pub fn to_text(&self) -> (r: String)
        ensures
            r@ == self@.text(),
    {
        match self {
            HotplugError::Disabled => owned("this VM was not started with --hotplug"),
            HotplugError::Closed => owned("the VM is shutting down"),
            HotplugError::NotDrained => owned(
                "this VM has no hotplug drain thread, so a removal could not be finished",
            ),
            HotplugError::BadSpec(reason) => quoted("bad spec: ", reason.as_str(), ""),
            HotplugError::FixedSlot(slot) => {
                let mut r = owned("PCI slot ");
                append_decimal(&mut r, *slot as u64);
                r.append(" is fixed and cannot be plugged");
                r
            },
            HotplugError::SlotTaken(bdf) => {
                let mut r = owned("PCI slot ");
                append_address(&mut r, *bdf);
                r.append(" is already in use");
                r
            },
            HotplugError::DuplicateId(id) => quoted(
                "device id ",
                id.as_str(),
                " is already registered",
            ),
            HotplugError::Create(reason) => quoted(
                "cannot create the device: ",
                reason.as_str(),
                "",
            ),
            HotplugError::NothingBuilt(driver) => quoted(
                "driver ",
                driver.as_str(),
                " builds no device to put in a slot",
            ),
            HotplugError::Registry(e) => e.to_text(),
            HotplugError::NoSuchDevice(id) => quoted("no device with id ", id.as_str(), ""),
            HotplugError::NotHotpluggable(id) => quoted(
                "device ",
                id.as_str(),
                " was not hot-added and cannot be removed",
            ),
            HotplugError::NotRemovable { id, state } => {
                let mut r = quoted("device ", id.as_str(), " is ");
                r.append(state.to_text().as_str());
                r
            },
        }
    }
}

// ---- What a spec asks for --------------------------------------------------

/// Whether a device can be plugged into a slot: the host bridge and the LPC
/// bridge keep theirs.
pub open spec fn is_pluggable(slot: u8) -> bool {
    2 <= slot < PCI_SLOTS
}

/// Why a spec's address cannot be hot-added to.
pub open spec fn spec_refusal(spec: Seq<char>) -> Option<HotErr> {
    let slot = slot_of(spec);
    if driver_of(spec).len() == 0 {
        Some(HotErr::BadSpec("'"@ + spec + "' needs slot,driver[,config]"@))
    } else if !names_bdf(slot) {
        Some(HotErr::BadSpec("'"@ + slot + "' is not a PCI address"@))
    } else {
        let (bus, dev, func) = bdf_numbers(slot)->0;
        if bus != 0 || func != 0 {
            Some(HotErr::BadSpec("hot-add takes bus 0 function 0, not '"@ + slot + "'"@))
        } else if !is_pluggable(dev) {
            Some(HotErr::FixedSlot(dev))
        } else {
            None
        }
    }
}

/// The slot that a spec names.
pub open spec fn spec_slot(spec: Seq<char>) -> u8 {
    (bdf_numbers(slot_of(spec))->0).1
}

fn quoted(before: &str, text: &str, after: &str) -> (r: String)
    ensures
        r@ == before@ + text@ + after@,
        after@ == ""@ ==> r@ == before@ + text@,
{
    let mut r = owned(before);
    r.append(text);
    r.append(after);
    proof {
        reveal_strlit("");
        if after@ == ""@ {
            assert(r@ =~= before@ + text@);
        }
    }
    r
}

/// The address a hot-add spec names, if a hot-add can use it.
///
/// Rejects everything the PCI hotplug register file cannot describe:
/// its registers hold one bit per slot on bus 0, and only function 0 can be
/// ejected.
pub fn hotplug_bdf(spec: &str) -> (r: Result<Bdf, HotplugError>)
    ensures
        match r {
            Ok(bdf) => spec_refusal(spec@) is None && bdf == Bdf::at(0, spec_slot(spec@), 0),
            Err(e) => spec_refusal(spec@) == Some(e@),
        },
{
    let p = parts(spec);
    if p.driver.unicode_len() == 0 {
        return Err(HotplugError::BadSpec(quoted("'", spec, "' needs slot,driver[,config]")));
    }
    let bdf = match parse_bdf(p.slot) {
        Some(bdf) => bdf,
        None => {
            return Err(HotplugError::BadSpec(quoted("'", p.slot, "' is not a PCI address")));
        },
    };
    proof {
        crate::pci::bdf_is_at(bdf);
    }
    if bdf.bus() != 0 || bdf.func() != 0 {
        return Err(
            HotplugError::BadSpec(
                quoted("hot-add takes bus 0 function 0, not '", p.slot, "'"),
            ),
        );
    }
    let dev: u8 = bdf.dev();
    if dev < 2 {
        return Err(HotplugError::FixedSlot(dev));
    }
    Ok(bdf)
}

// ---- The machine's hot-pluggable part --------------------------------------

/// What a catalog built from a spec.
///
/// All four shapes are legal. A PCI device without a lifecycle is passthru.
/// Neither is a driver the chipset already created, such as hostbridge or
/// lpc.
#[derive(Debug, Clone, Copy, PartialEq, Eq, Structural)]
pub struct CreatedPciDevice {
    pub pci: Option<u64>,
    pub lifecycle: Option<u64>,
}

/// Everything an add or a removal decides on.
pub struct HotplugEngine {
    registry: DeviceRegistry,
    /// Which slots of bus 0 something answers in.
    bus: Vec<bool>,
    regs: PciHotplug,
    /// Set once the guest has stopped. Every entry point reads it.
    closed: bool,
    /// False when nothing drains ejects. An add still works. A removal
    /// does not, because nothing would act on the guest's eject.
    drains: bool,
}

/// The hot-pluggable part of the machine.
pub ghost struct Hot {
    pub devices: Seq<Device>,
    pub bus: Seq<bool>,
    pub regs: PciRegs,
    pub closed: bool,
    pub drains: bool,
}

impl View for HotplugEngine {
    type V = Hot;

    closed spec fn view(&self) -> Hot {
        Hot {
            devices: self.registry@,
            bus: self.bus@,
            regs: self.regs@,
            closed: self.closed,
            drains: self.drains,
        }
    }
}

/// A spec whose slot was found free. The device is built next.
#[derive(Debug)]
pub struct Add {
    spec: String,
    id: String,
    bdf: Bdf,
}

/// The spec, the id and the slot of an add that is under way.
pub ghost struct Adding {
    pub spec: Seq<char>,
    pub id: Seq<char>,
    pub slot: u8,
}

impl View for Add {
    type V = Adding;

    closed spec fn view(&self) -> Adding {
        Adding { spec: self.spec@, id: self.id@, slot: self.bdf.spec_dev() }
    }
}

impl Add {
    /// It is what the checks before it let through.
    pub closed spec fn wf(&self) -> bool {
        &&& spec_refusal(self.spec@) is None
        &&& self.id@ == id_of(self.spec@)
        &&& self.bdf == Bdf::at(0, spec_slot(self.spec@), 0)
        &&& self.bdf.spec_dev() == spec_slot(self.spec@)
    }

    /// The slot the device goes in.
    pub fn slot(&self) -> (r: u8)
        requires
            self.wf(),
        ensures
            r == self@.slot,
            r < PCI_SLOTS,
    {
        self.bdf.dev()
    }
}

/// What became of an add.
#[derive(Debug)]
pub enum AddOutcome {
    /// The guest was told. This is the device's id.
    Added(String),
    /// Nothing is left of it once the caller has stopped the backend that is
    /// named, if one is, and taken the device off the bus, if that is asked
    /// for.
    Refused { error: HotplugError, stop: Option<u64>, detach: Option<Eject> },
}

/// What an add comes to where the catalog made `made` of its spec: `after` is
/// the machine then, and `r` what the caller is told.
pub open spec fn add_comes_to(h: Hot, add: Adding, made: Made, r: AddOutcome, after: Hot) -> bool {
    match made {
        Made::Failed(reason) => {
            &&& after == h
            &&& r matches AddOutcome::Refused { error, stop, detach }
            &&& error@ == HotErr::Create(reason)
            &&& stop is None
            &&& detach is None
        },
        Made::Device(b) => match h.built_refusal(add, b) {
            None => {
                &&& after == h.with_device(add, b)
                &&& r matches AddOutcome::Added(id)
                &&& id@ == add.id
            },
            Some(e) => {
                &&& after == h
                &&& r matches AddOutcome::Refused { error, stop, detach }
                &&& error@ == e
                &&& stop == b.lifecycle
                &&& b.pci is None ==> detach is None
                &&& b.pci is Some ==> detach is Some && detach->0@ == undo(add.slot, b.pci)
            },
        },
    }
}

/// The steps an eject takes, each done once its event has come.
#[derive(Debug, Clone, Copy, PartialEq, Eq, Structural)]
pub enum EjectPhase {
    /// The device is being prepared for its removal.
    Unplugging,
    /// The device is being resumed, because the removal is off.
    Resuming,
    /// Every vCPU is being stopped for the bus change.
    Pausing,
    /// The device's regions are being unregistered.
    Detaching,
    /// The vCPUs are being started again.
    Restarting,
    Over,
}

/// What the owner has to do next.
#[derive(Debug, Clone, Copy, PartialEq, Eq, Structural)]
pub enum EjectAction {
    Nothing,
    /// Prepare the device for its removal, within the unplug budget.
    Unplug(u64),
    /// Let the device run again.
    ResumeDevice(u64),
    /// Take a hold of the VM's pause.
    PauseVm,
    /// Unregister the device's regions.
    DetachRegions(Option<u64>),
    /// Give the hold up.
    ResumeVm,
}

/// What came of what the owner did.
#[derive(Debug, Clone, Copy, PartialEq, Eq, Structural)]
pub enum EjectEvent {
    /// `paused_here` says that the device was not paused before: the operator
    /// may have paused it, and resuming it then would start it behind them.
    Unplugged { outcome: Unplug, paused_here: bool },
    DeviceResumed,
    VmPaused(bool),
    RegionsDetached,
    VmResumed(bool),
}

/// An eject that is under way, or the bus change of an add that was refused.
#[derive(Debug)]
pub struct Eject {
    /// The id of the device's record. A refused add has none.
    record: Option<String>,
    slot: u8,
    pci: Option<u64>,
    lifecycle: Option<u64>,
    phase: EjectPhase,
}

/// An eject as its owner sees it.
pub ghost struct Ejecting {
    pub record: Option<Seq<char>>,
    pub slot: u8,
    pub pci: Option<u64>,
    pub lifecycle: Option<u64>,
    pub phase: EjectPhase,
}

impl View for Eject {
    type V = Ejecting;

    closed spec fn view(&self) -> Ejecting {
        Ejecting {
            record: super::registry::text_of(self.record),
            slot: self.slot,
            pci: self.pci,
            lifecycle: self.lifecycle,
            phase: self.phase,
        }
    }
}

impl Ejecting {
    pub open spec fn wf(self) -> bool {
        &&& self.slot < PCI_SLOTS
        &&& self.phase == EjectPhase::Unplugging || self.phase == EjectPhase::Resuming
            ==> self.lifecycle is Some && self.record is Some
    }

    pub open spec fn at(self, phase: EjectPhase) -> Ejecting {
        Ejecting { phase, ..self }
    }
}

/// The bus change that undoes an add.
pub open spec fn undo(slot: u8, pci: Option<u64>) -> Ejecting {
    Ejecting { record: None, slot, pci, lifecycle: None, phase: EjectPhase::Pausing }
}

/// The devices without the one with `id`.
pub open spec fn without(devices: Seq<Device>, id: Seq<char>) -> Seq<Device> {
    if has_id(devices, id) {
        devices.remove(index_of_id(devices, id))
    } else {
        devices
    }
}

/// The devices with a slot moved, where it may.
pub open spec fn moved(
    devices: Seq<Device>,
    id: Seq<char>,
    from: SlotState,
    to: SlotState,
) -> Seq<Device> {
    if step_error(devices, id, from, to) is None {
        stepped(devices, id, to)
    } else {
        devices
    }
}

impl Hot {
    pub open spec fn wf(self) -> bool {
        self.bus.len() == PCI_SLOTS && self.regs.wf()
    }

    /// The machine with what a catalog made in its slot.
    pub open spec fn answering(self, slot: u8, made: Made) -> Hot {
        match made {
            Made::Device(b) => if b.pci is Some {
                Hot { bus: self.bus.update(slot as int, true), ..self }
            } else {
                self
            },
            Made::Failed(_) => self,
        }
    }

    /// Why a spec cannot be added: the engine may be closed, the address
    /// unusable, or the id or the slot taken. The bus counts too, because the
    /// chipset attaches devices that the registry never sees.
    pub open spec fn add_refusal(self, spec: Seq<char>) -> Option<HotErr> {
        let slot = spec_slot(spec);
        let bdf = Bdf::at(0, slot, 0);
        if self.closed {
            Some(HotErr::Closed)
        } else if spec_refusal(spec) is Some {
            spec_refusal(spec)
        } else if has_id(self.devices, id_of(spec)) {
            Some(HotErr::DuplicateId(id_of(spec)))
        } else if has_bdf(self.devices, bdf) || self.bus[slot as int] {
            Some(HotErr::SlotTaken(bdf))
        } else {
            None
        }
    }

    /// The record of a hot-added device.
    pub open spec fn record(add: Adding, built: CreatedPciDevice) -> Device {
        Device {
            id: add.id,
            bdf: Some(Bdf::at(0, add.slot, 0)),
            pci: built.pci,
            lifecycle: built.lifecycle,
            spec: Some(add.spec),
            hotpluggable: true,
            state: SlotState::Present,
        }
    }

    /// Why a device that was built is not added.
    pub open spec fn built_refusal(self, add: Adding, built: CreatedPciDevice) -> Option<HotErr> {
        if built.pci is None {
            Some(HotErr::NothingBuilt(driver_of(add.spec)))
        } else {
            match insert_error(self.devices, Hot::record(add, built)) {
                Some(e) => Some(HotErr::Registry(e)),
                None => None,
            }
        }
    }

    /// The device recorded, and the guest told.
    pub open spec fn with_device(self, add: Adding, built: CreatedPciDevice) -> Hot {
        Hot {
            devices: self.devices.push(Hot::record(add, built)),
            regs: self.regs.added(add.slot as int),
            ..self
        }
    }

    /// Why a removal cannot be asked for.
    pub open spec fn remove_refusal(self, id: Seq<char>) -> Option<HotErr> {
        let d = self.devices[index_of_id(self.devices, id)];
        if self.closed {
            Some(HotErr::Closed)
        } else if !self.drains {
            Some(HotErr::NotDrained)
        } else if !has_id(self.devices, id) {
            Some(HotErr::NoSuchDevice(id))
        } else if d.bdf is None || !d.hotpluggable {
            Some(HotErr::NotHotpluggable(id))
        } else if d.state != SlotState::Present && d.state != SlotState::RemovePending {
            Some(HotErr::NotRemovable { id, state: d.state })
        } else {
            None
        }
    }

    /// The slot marked, and the guest asked. A second request asks again.
    pub open spec fn asked(self, id: Seq<char>) -> Hot {
        let d = self.devices[index_of_id(self.devices, id)];
        Hot {
            devices: if d.state == SlotState::Present {
                stepped(self.devices, id, SlotState::RemovePending)
            } else {
                self.devices
            },
            regs: self.regs.removed(d.bdf->0.spec_dev() as int),
            ..self
        }
    }

    /// The slot offered to the guest again.
    pub open spec fn offered(self, slot: u8) -> Hot {
        Hot { regs: self.regs.added(slot as int), ..self }
    }

    /// A removal that will not happen: the slot is present again, and
    /// ejectable.
    pub open spec fn aborted(self, id: Seq<char>, slot: u8) -> Hot {
        Hot {
            devices: moved(self.devices, id, SlotState::RemovePending, SlotState::Present),
            ..self
        }.offered(slot)
    }

    /// What an eject the guest ran comes to.
    ///
    /// A device leaves only when an operator asked for it: a guest that ejects
    /// on its own is offered the slot again. A device without a lifecycle
    /// cannot be quiesced, so it keeps its slot.
    pub open spec fn eject(self, slot: u8) -> (Hot, Option<Ejecting>) {
        let bdf = Bdf::at(0, slot, 0);
        let d = self.devices[index_of_bdf(self.devices, bdf)];
        if slot >= PCI_SLOTS || !has_bdf(self.devices, bdf) {
            (self, None)
        } else if d.state != SlotState::RemovePending {
            (self.offered(slot), None)
        } else if d.lifecycle is None {
            (self.aborted(d.id, slot), None)
        } else {
            (
                self,
                Some(
                    Ejecting {
                        record: Some(d.id),
                        slot,
                        pci: d.pci,
                        lifecycle: d.lifecycle,
                        phase: EjectPhase::Unplugging,
                    },
                ),
            )
        }
    }

    /// What an event does to an eject. An event that the phase does not wait
    /// for does nothing.
    pub open spec fn advance(self, e: Ejecting, event: EjectEvent) -> (
        Hot,
        Ejecting,
        EjectAction,
    ) {
        let over = e.at(EjectPhase::Over);
        match (e.phase, event) {
            (
                EjectPhase::Unplugging,
                EjectEvent::Unplugged { outcome: Unplug::Done, paused_here },
            ) => {
                // The slot's step is taken after the quiesce, because there is
                // no way back out of it.
                if step_error(
                    self.devices,
                    e.record->0,
                    SlotState::RemovePending,
                    SlotState::Ejecting,
                ) is None {
                    (
                        Hot {
                            devices: stepped(self.devices, e.record->0, SlotState::Ejecting),
                            ..self
                        },
                        e.at(EjectPhase::Pausing),
                        EjectAction::PauseVm,
                    )
                } else {
                    (self, over, EjectAction::Nothing)
                }
            },
            (
                EjectPhase::Unplugging,
                EjectEvent::Unplugged { outcome: Unplug::Kept { paused }, paused_here },
            ) => {
                // Never forced: the device keeps running and keeps its slot.
                if paused && paused_here {
                    (
                        self,
                        e.at(EjectPhase::Resuming),
                        EjectAction::ResumeDevice(e.lifecycle->0),
                    )
                } else {
                    (self.aborted(e.record->0, e.slot), over, EjectAction::Nothing)
                }
            },
            (
                EjectPhase::Unplugging,
                EjectEvent::Unplugged { outcome: Unplug::InFlight, paused_here },
            ) => {
                // The release still runs, so nothing may touch the slot.
                (
                    Hot {
                        devices: moved(
                            self.devices,
                            e.record->0,
                            SlotState::RemovePending,
                            SlotState::Ejecting,
                        ),
                        ..self
                    },
                    over,
                    EjectAction::Nothing,
                )
            },
            (EjectPhase::Resuming, EjectEvent::DeviceResumed) => {
                (self.aborted(e.record->0, e.slot), over, EjectAction::Nothing)
            },
            (EjectPhase::Pausing, EjectEvent::VmPaused(ok)) => {
                if ok {
                    (self, e.at(EjectPhase::Detaching), EjectAction::DetachRegions(e.pci))
                } else {
                    (self, over, EjectAction::Nothing)
                }
            },
            (EjectPhase::Detaching, EjectEvent::RegionsDetached) => {
                (
                    Hot { bus: self.bus.update(e.slot as int, false), ..self },
                    e.at(EjectPhase::Restarting),
                    EjectAction::ResumeVm,
                )
            },
            (EjectPhase::Restarting, EjectEvent::VmResumed(_)) => {
                (
                    match e.record {
                        Some(id) => Hot {
                            devices: without(
                                moved(self.devices, id, SlotState::Ejecting, SlotState::Absent),
                                id,
                            ),
                            ..self
                        },
                        None => self,
                    },
                    over,
                    EjectAction::Nothing,
                )
            },
            _ => (self, e, EjectAction::Nothing),
        }
    }
}

impl HotplugEngine {
    /// Start over the devices that boot registered and the register file that
    /// the PM phase claimed. What already answers on the bus is told by
    /// [`Self::attach`].
    pub fn new(registry: DeviceRegistry, regs: PciHotplug) -> (r: Self)
        requires
            regs@.wf(),
        ensures
            r@.wf(),
            r@ == (Hot {
                devices: registry@,
                bus: all_down(PCI_SLOTS as nat),
                regs: regs@,
                closed: false,
                drains: true,
            }),
    {
        HotplugEngine {
            registry,
            bus: flags_down(PCI_SLOTS),
            regs,
            closed: false,
            drains: true,
        }
    }

    pub fn registry(&self) -> (r: &DeviceRegistry)
        ensures
            r@ == self@.devices,
    {
        &self.registry
    }

    pub fn regs(&self) -> (r: &PciHotplug)
        ensures
            r@ == self@.regs,
    {
        &self.regs
    }

    /// Register a device that boot created.
    pub fn register(&mut self, device: RegisteredDevice) -> (r: Result<(), RegistryError>)
        requires
            old(self)@.wf(),
        ensures
            final(self)@.wf(),
            super::registry::outcome(r) == insert_error(old(self)@.devices, device@),
            final(self)@ == (Hot {
                devices: if r is Ok {
                    old(self)@.devices.push(device@)
                } else {
                    old(self)@.devices
                },
                ..old(self)@
            }),
    {
        self.registry.insert(device)
    }

    /// Advance one slot through the eject sequence by hand.
    pub fn set_state(&mut self, id: &str, expected: SlotState, next: SlotState) -> (r: Result<
        (),
        RegistryError,
    >)
        requires
            old(self)@.wf(),
        ensures
            final(self)@.wf(),
            super::registry::outcome(r) == step_error(old(self)@.devices, id@, expected, next),
            final(self)@ == (Hot {
                devices: moved(old(self)@.devices, id@, expected, next),
                ..old(self)@
            }),
    {
        self.registry.set_state(id, expected, next)
    }

    /// Something on bus 0 answers in `slot` from now on. False if something
    /// did already.
    pub fn attach(&mut self, slot: u8) -> (ok: bool)
        requires
            old(self)@.wf(),
            slot < PCI_SLOTS,
        ensures
            final(self)@.wf(),
            ok == !old(self)@.bus[slot as int],
            final(self)@ == (Hot { bus: old(self)@.bus.update(slot as int, true), ..old(self)@ }),
    {
        let ok = !self.bus[slot as usize];
        self.bus[slot as usize] = true;
        ok
    }

    /// Whether nothing on bus 0 answers in `slot`.
    pub fn slot_is_empty(&self, slot: u8) -> (r: bool)
        requires
            self@.wf(),
            slot < PCI_SLOTS,
        ensures
            r == !self@.bus[slot as int],
    {
        !self.bus[slot as usize]
    }

    /// The guest ran an eject of `slot`.
    pub fn guest_ejects(&mut self, slot: u8)
        requires
            old(self)@.wf(),
            slot < PCI_SLOTS,
        ensures
            final(self)@.wf(),
            final(self)@ == (Hot { regs: old(self)@.regs.ejected(slot as int), ..old(self)@ }),
    {
        self.regs.guest_ejects(slot);
    }

    /// Refuse every later add and removal.
    ///
    /// Teardown calls this before it takes its list of devices: a device
    /// added after that would never be halted.
    pub fn close(&mut self)
        requires
            old(self)@.wf(),
        ensures
            final(self)@.wf(),
            final(self)@ == (Hot { closed: true, ..old(self)@ }),
    {
        self.closed = true;
    }

    /// Say that nothing will drain ejects.
    pub fn set_not_drained(&mut self)
        requires
            old(self)@.wf(),
        ensures
            final(self)@.wf(),
            final(self)@ == (Hot { drains: false, ..old(self)@ }),
    {
        self.drains = false;
    }

    /// Check that a spec can be added.
    ///
    /// The device is built only after this, so a refused request opens no
    /// file, allocates no memory segment and takes no interrupt vector.
    pub fn add(&self, spec: &str) -> (r: Result<Add, HotplugError>)
        requires
            self@.wf(),
        ensures
            match r {
                Ok(add) => self@.add_refusal(spec@) is None && add.wf() && add@ == (Adding {
                    spec: spec@,
                    id: id_of(spec@),
                    slot: spec_slot(spec@),
                }),
                Err(e) => self@.add_refusal(spec@) == Some(e@),
            },
    {
        if self.closed {
            return Err(HotplugError::Closed);
        }
        let bdf = match hotplug_bdf(spec) {
            Ok(bdf) => bdf,
            Err(e) => {
                return Err(e);
            },
        };
        proof {
            Bdf::numbers(0, spec_slot(spec@), 0);
        }
        let id = device_id(spec);
        match self.check_free(id.as_str(), bdf) {
            Ok(()) => Ok(Add { spec: owned(spec), id, bdf }),
            Err(e) => Err(e),
        }
    }

    /// Refuse a slot or an id that is already in use.
    fn check_free(&self, id: &str, bdf: Bdf) -> (r: Result<(), HotplugError>)
        requires
            self@.wf(),
        ensures
            match r {
                Ok(()) => !has_id(self@.devices, id@) && !has_bdf(self@.devices, bdf)
                    && !self@.bus[bdf.spec_dev() as int],
                Err(e) => if has_id(self@.devices, id@) {
                    e@ == HotErr::DuplicateId(id@)
                } else {
                    e@ == HotErr::SlotTaken(bdf) && (has_bdf(self@.devices, bdf)
                        || self@.bus[bdf.spec_dev() as int])
                },
            },
    {
        if self.registry.get_by_id(id).is_some() {
            return Err(HotplugError::DuplicateId(owned(id)));
        }
        if self.registry.get_by_bdf(bdf).is_some() {
            return Err(HotplugError::SlotTaken(bdf));
        }
        if self.bus[bdf.dev() as usize] {
            return Err(HotplugError::SlotTaken(bdf));
        }
        Ok(())
    }

    /// Take what the catalog built, record it, then tell the guest.
    ///
    /// A slot holds a PCI device. Without one there is nothing for the guest
    /// to find, and a backend that was started has to be stopped again. A
    /// device that the registry refuses is taken off the bus before the guest
    /// is ever told.
    pub fn built(&mut self, add: Add, built: Result<CreatedPciDevice, String>) -> (r: AddOutcome)
        requires
            old(self)@.wf(),
            add.wf(),
        ensures
            final(self)@.wf(),
            add_comes_to(old(self)@, add@, made_of(built), r, final(self)@),
    {
        let b = match built {
            Ok(b) => b,
            Err(reason) => {
                return AddOutcome::Refused {
                    error: HotplugError::Create(reason),
                    stop: None,
                    detach: None,
                };
            },
        };
        if b.pci.is_none() {
            let p = parts(add.spec.as_str());
            return AddOutcome::Refused {
                error: HotplugError::NothingBuilt(owned(p.driver)),
                stop: b.lifecycle,
                detach: None,
            };
        }
        let slot: u8 = add.bdf.dev();
        let mut record = RegisteredDevice::new(
            add.id.clone(),
            Some(add.bdf),
            b.pci,
            b.lifecycle,
            Some(add.spec.clone()),
        );
        record.hotpluggable = true;
        match self.registry.insert(record) {
            Ok(()) => {
                // Last: the guest must not find the device before there is a
                // record of it.
                self.regs.notify_added(slot);
                AddOutcome::Added(add.id)
            },
            Err(e) => AddOutcome::Refused {
                error: HotplugError::Registry(e),
                stop: b.lifecycle,
                detach: Some(roll_back(slot, b.pci)),
            },
        }
    }

    /// Add one device: check its spec, have the catalog build it, then record
    /// it and tell the guest.
    ///
    /// What the catalog builds is its own to say. Whatever that is, it is
    /// asked exactly once, and only for a spec that nothing refuses. A PCI
    /// device that it built answers in its slot from then on.
    pub fn add_device<F: PciDeviceFactory>(&mut self, spec: &str, factory: &mut F) -> (r:
        AddOutcome)
        requires
            old(self)@.wf(),
        ensures
            final(self)@.wf(),
            old(self)@.add_refusal(spec@) matches Some(e) ==> {
                &&& r matches AddOutcome::Refused { error, stop, detach }
                &&& error@ == e
                &&& stop is None
                &&& detach is None
                &&& final(self)@ == old(self)@
                &&& *final(factory) == *old(factory)
            },
            old(self)@.add_refusal(spec@) is None ==> exists|
                f: &mut F,
                b: Result<CreatedPciDevice, String>,
            |
                {
                    &&& *f == *old(factory)
                    &&& *final(f) == *final(factory)
                    &&& #[trigger] call_ensures(F::create, (f, spec), b)
                    &&& add_comes_to(
                        old(self)@.answering(spec_slot(spec@), made_of(b)),
                        Adding { spec: spec@, id: id_of(spec@), slot: spec_slot(spec@) },
                        made_of(b),
                        r,
                        final(self)@,
                    )
                },
    {
        match self.add(spec) {
            Ok(add) => {
                let slot: u8 = add.slot();
                let built = factory.create(spec);
                let ghost made = made_of(built);
                if let Ok(b) = &built {
                    if b.pci.is_some() {
                        self.attach(slot);
                    }
                }
                assert(self@ == old(self)@.answering(spec_slot(spec@), made));
                self.built(add, built)
            },
            Err(error) => AddOutcome::Refused { error, stop: None, detach: None },
        }
    }

    /// Ask the guest to give a device up. Tears nothing down.
    pub fn request_remove(&mut self, id: &str) -> (r: Result<(), HotplugError>)
        requires
            old(self)@.wf(),
        ensures
            final(self)@.wf(),
            match r {
                Ok(()) => old(self)@.remove_refusal(id@) is None && final(self)@ == old(
                    self
                )@.asked(id@),
                Err(e) => old(self)@.remove_refusal(id@) == Some(e@) && final(self)@ == old(
                    self
                )@,
            },
    {
        if self.closed {
            return Err(HotplugError::Closed);
        }
        if !self.drains {
            // Marking the slot would ask the guest for a device nothing
            // could then take.
            return Err(HotplugError::NotDrained);
        }
        let device = match self.registry.get_by_id(id) {
            Some(d) => d,
            None => {
                return Err(HotplugError::NoSuchDevice(owned(id)));
            },
        };
        let bdf = match device.bdf {
            Some(bdf) => bdf,
            None => {
                return Err(HotplugError::NotHotpluggable(owned(id)));
            },
        };
        if !device.hotpluggable {
            return Err(HotplugError::NotHotpluggable(owned(id)));
        }
        match device.state {
            SlotState::Present => {
                match self.registry.set_state(id, SlotState::Present, SlotState::RemovePending) {
                    Ok(()) => {},
                    Err(e) => {
                        return Err(HotplugError::Registry(e));
                    },
                }
            },
            // The guest may have missed the first request, or its
            // driver may not have been bound yet. Asking again raises
            // the same event for the same slot and changes nothing
            // else.
            SlotState::RemovePending => {},
            state => {
                return Err(HotplugError::NotRemovable { id: owned(id), state });
            },
        }
        let slot: u8 = bdf.dev();
        self.regs.notify_removed(slot);
        Ok(())
    }

    /// Take every eject the guest has run since the last pass. A closed
    /// engine takes none: the guest can pick the instant the VM powers off,
    /// and teardown is then halting the same devices.
    pub fn drain_ejects(&mut self) -> (r: Vec<u8>)
        requires
            old(self)@.wf(),
        ensures
            final(self)@.wf(),
            old(self)@.closed ==> r@.len() == 0 && final(self)@ == old(self)@,
            !old(self)@.closed ==> {
                &&& r@.map_values(|s: u8| s as int) == raised(old(self)@.regs.requested)
                &&& final(self)@ == (Hot { regs: old(self)@.regs.taken(), ..old(self)@ })
            },
    {
        if self.closed {
            return Vec::new();
        }
        self.regs.take_eject_requests()
    }

    /// Begin one eject the guest has already run. The first thing to do is to
    /// unplug the device.
    pub fn eject(&mut self, slot: u8) -> (r: Option<Eject>)
        requires
            old(self)@.wf(),
        ensures
            final(self)@.wf(),
            ({
                let (hot, e) = old(self)@.eject(slot);
                &&& final(self)@ == hot
                &&& r is Some <==> e is Some
                &&& r matches Some(eject) ==> Some(eject@) == e && eject@.wf()
            }),
    {
        let bdf = match Bdf::new(0, slot, 0) {
            Some(bdf) => bdf,
            None => {
                return None;
            },
        };
        let device = match self.registry.get_by_bdf(bdf) {
            Some(d) => d,
            // A slot whose teardown already ran.
            None => {
                return None;
            },
        };
        if device.state != SlotState::RemovePending {
            // The guest ejected on its own. A device leaves only when
            // an operator asks, so put the slot back in front of the
            // guest instead of tearing it out.
            self.regs.notify_added(slot);
            return None;
        }
        if device.lifecycle.is_none() {
            // Nothing can report that its DMA has stopped. It keeps its slot.
            self.abort_eject(device.id.as_str(), slot);
            return None;
        }
        Some(
            Eject {
                record: Some(device.id),
                slot,
                pci: device.pci,
                lifecycle: device.lifecycle,
                phase: EjectPhase::Unplugging,
            },
        )
    }

    /// Give a device back after a removal that will not happen.
    fn abort_eject(&mut self, id: &str, slot: u8)
        requires
            old(self)@.wf(),
            slot < PCI_SLOTS,
        ensures
            final(self)@.wf(),
            final(self)@ == old(self)@.aborted(id@, slot),
    {
        // Not fatal where the slot has moved: it is reported as it is, and the
        // device is running either way.
        let _ = self.registry.set_state(id, SlotState::RemovePending, SlotState::Present);
        self.regs.notify_added(slot);
    }

    /// Take an eject one step further, now that `event` has come.
    pub fn advance(&mut self, eject: &mut Eject, event: EjectEvent) -> (r: EjectAction)
        requires
            old(self)@.wf(),
            old(eject)@.wf(),
        ensures
            final(self)@.wf(),
            final(eject)@.wf(),
            (final(self)@, final(eject)@, r) == old(self)@.advance(old(eject)@, event),
    {
        match (eject.phase, event) {
            (EjectPhase::Unplugging, EjectEvent::Unplugged { outcome, paused_here }) => {
                self.unplugged(eject, outcome, paused_here)
            },
            (EjectPhase::Resuming, EjectEvent::DeviceResumed) => {
                self.abort_recorded(eject);
                EjectAction::Nothing
            },
            (EjectPhase::Pausing, EjectEvent::VmPaused(ok)) => {
                if ok {
                    eject.phase = EjectPhase::Detaching;
                    EjectAction::DetachRegions(eject.pci)
                } else {
                    // A vCPU can be part-way through an access to the device
                    // that is leaving, so nothing is taken apart. The slot
                    // stays `Ejecting`.
                    eject.phase = EjectPhase::Over;
                    EjectAction::Nothing
                }
            },
            (EjectPhase::Detaching, EjectEvent::RegionsDetached) => {
                self.bus[eject.slot as usize] = false;
                eject.phase = EjectPhase::Restarting;
                EjectAction::ResumeVm
            },
            (EjectPhase::Restarting, EjectEvent::VmResumed(_)) => {
                self.finish(eject);
                EjectAction::Nothing
            },
            _ => EjectAction::Nothing,
        }
    }

    fn unplugged(&mut self, eject: &mut Eject, outcome: Unplug, paused_here: bool) -> (r:
        EjectAction)
        requires
            old(self)@.wf(),
            old(eject)@.wf(),
            old(eject)@.phase == EjectPhase::Unplugging,
        ensures
            final(self)@.wf(),
            final(eject)@.wf(),
            (final(self)@, final(eject)@, r) == old(self)@.advance(
                old(eject)@,
                EjectEvent::Unplugged { outcome, paused_here },
            ),
    {
        match outcome {
            Unplug::Done => {
                let id = match &eject.record {
                    Some(id) => id.clone(),
                    None => String::new(),
                };
                match self.registry.set_state(
                    id.as_str(),
                    SlotState::RemovePending,
                    SlotState::Ejecting,
                ) {
                    Ok(()) => {
                        eject.phase = EjectPhase::Pausing;
                        EjectAction::PauseVm
                    },
                    // The slot moved.
                    Err(_) => {
                        eject.phase = EjectPhase::Over;
                        EjectAction::Nothing
                    },
                }
            },
            Unplug::Kept { paused } => {
                if paused && paused_here {
                    match eject.lifecycle {
                        Some(lifecycle) => {
                            eject.phase = EjectPhase::Resuming;
                            EjectAction::ResumeDevice(lifecycle)
                        },
                        None => EjectAction::Nothing,
                    }
                } else {
                    self.abort_recorded(eject);
                    EjectAction::Nothing
                }
            },
            Unplug::InFlight => {
                let id = match &eject.record {
                    Some(id) => id.clone(),
                    None => String::new(),
                };
                let _ = self.registry.set_state(
                    id.as_str(),
                    SlotState::RemovePending,
                    SlotState::Ejecting,
                );
                eject.phase = EjectPhase::Over;
                EjectAction::Nothing
            },
        }
    }

    /// The removal is off: the slot goes back to the guest.
    fn abort_recorded(&mut self, eject: &mut Eject)
        requires
            old(self)@.wf(),
            old(eject)@.wf(),
            old(eject)@.record is Some,
        ensures
            final(self)@.wf(),
            final(eject)@ == old(eject)@.at(EjectPhase::Over),
            final(self)@ == old(self)@.aborted(old(eject)@.record->0, old(eject)@.slot),
    {
        let id = match &eject.record {
            Some(id) => id.clone(),
            None => String::new(),
        };
        self.abort_eject(id.as_str(), eject.slot);
        eject.phase = EjectPhase::Over;
    }

    /// The device is off the bus: its record goes, and with it the last
    /// handles.
    fn finish(&mut self, eject: &mut Eject)
        requires
            old(self)@.wf(),
            old(eject)@.wf(),
            old(eject)@.phase == EjectPhase::Restarting,
        ensures
            final(self)@.wf(),
            final(eject)@.wf(),
            (final(self)@, final(eject)@, EjectAction::Nothing) == old(self)@.advance(
                old(eject)@,
                EjectEvent::VmResumed(true),
            ),
    {
        match &eject.record {
            Some(id) => {
                let _ = self.registry.set_state(
                    id.as_str(),
                    SlotState::Ejecting,
                    SlotState::Absent,
                );
                let _ = self.registry.remove_by_id(id.as_str());
            },
            None => {},
        }
        eject.phase = EjectPhase::Over;
    }
}

/// Undo a hot-add that got as far as building the device: take it off the
/// bus with no vCPU inside a bus handler.
pub fn roll_back(slot: u8, pci: Option<u64>) -> (r: Eject)
    requires
        slot < PCI_SLOTS,
    ensures
        r@ == undo(slot, pci),
        r@.wf(),
{
    Eject { record: None, slot, pci, lifecycle: None, phase: EjectPhase::Pausing }
}

impl Eject {
    /// What the owner has to do before the first event.
    pub fn first_action(&self) -> (r: EjectAction)
        requires
            self@.wf(),
        ensures
            self@.phase == EjectPhase::Unplugging ==> r == EjectAction::Unplug(self@.lifecycle->0),
            self@.phase == EjectPhase::Pausing ==> r == EjectAction::PauseVm,
            self@.phase != EjectPhase::Unplugging && self@.phase != EjectPhase::Pausing ==> r
                == EjectAction::Nothing,
    {
        match self.phase {
            EjectPhase::Unplugging => match self.lifecycle {
                Some(lifecycle) => EjectAction::Unplug(lifecycle),
                None => EjectAction::Nothing,
            },
            EjectPhase::Pausing => EjectAction::PauseVm,
            _ => EjectAction::Nothing,
        }
    }

    pub fn phase(&self) -> (r: EjectPhase)
        ensures
            r == self@.phase,
    {
        self.phase
    }
}

/// The specs that a restart replays.
pub open spec fn replayed(devices: Seq<Device>) -> Seq<Seq<char>>
    decreases devices.len(),
{
    if devices.len() == 0 {
        Seq::empty()
    } else {
        let before = replayed(devices.drop_last());
        let d = devices.last();
        if d.hotpluggable && d.state != SlotState::Absent && d.state != SlotState::Ejecting
            && d.spec is Some {
            before.push(d.spec->0)
        } else {
            before
        }
    }
}

/// The `-s` specs a restart has to replay.
///
/// Only hot-added devices: an argv device already has its own `-s`
/// entry, complete with the bootindex the registry does not keep. A slot
/// whose teardown has begun is dropped: replaying its spec would open its
/// backing file again in the next run.
pub fn hotplug_specs(registry: &DeviceRegistry) -> (r: Vec<String>)
    ensures
        r@.map_values(|s: String| s@) == replayed(registry@),
{
    let list = registry.list();
    let ghost devices = registry@;
    let mut out: Vec<String> = Vec::new();
    let mut i: usize = 0;
    proof {
        assert(list@.map_values(|d: RegisteredDevice| d@) == devices);
        assert(out@.map_values(|s: String| s@) =~= replayed(devices.take(0)));
    }
    while i < list.len()
        invariant
            i <= list@.len(),
            devices == registry@,
            list@.map_values(|d: RegisteredDevice| d@) == devices,
            out@.map_values(|s: String| s@) == replayed(devices.take(i as int)),
        decreases list@.len() - i,
    {
        let d = &list[i];
        let ghost before = out@.map_values(|s: String| s@);
        proof {
            assert(devices[i as int] == d@);
            assert(devices.take(i + 1).drop_last() =~= devices.take(i as int));
            assert(devices.take(i + 1).last() == d@);
        }
        if d.hotpluggable && d.state != SlotState::Absent && d.state != SlotState::Ejecting {
            if let Some(s) = &d.spec {
                out.push(s.clone());
                assert(out@.map_values(|s: String| s@) =~= before.push(s@));
            }
        }
        i += 1;
    }
    assert(devices.take(i as int) =~= devices);
    out
}

// ---- Every engine of one VM ------------------------------------------------

/// Every hot-add engine one VM has.
///
/// `None` means the VM was started without the option that engine
/// needs, so a request for it is refused and never queued.
pub struct HotplugEngines<C: CpuOnline> {
    /// PCI add and remove. Needs `--hotplug`.
    pub pci: Option<HotplugEngine>,
    /// CPU add. Needs `--hotplug` and a `maxcpus` above the boot count.
    pub cpu: Option<CpuSlots<C>>,
    /// Memory add. Needs `--hotplug` and `-o hotplug.maxmem`.
    pub mem: Option<MemHotplugEngine>,
}

impl<C: CpuOnline> HotplugEngines<C> {
    /// The engines of a VM that asked for none.
    pub fn none() -> (r: Self)
        ensures
            r.pci is None,
            r.cpu is None,
            r.mem is None,
    {
        HotplugEngines { pci: None, cpu: None, mem: None }
    }

    /// Refuse every later request.
    ///
    /// Called from inside the event loop, before teardown takes its
    /// list of devices. A request that arrives after this finds every engine
    /// closed: PCI and memory on their own flags, CPU on the machine's roster.
    pub fn close(&mut self)
        requires
            old(self).pci matches Some(pci) ==> pci@.wf(),
            old(self).mem matches Some(mem) ==> mem@.wf(),
        ensures
            final(self).pci is Some <==> old(self).pci is Some,
            final(self).pci matches Some(pci) ==> pci@.wf() && pci@ == (Hot {
                closed: true,
                ..old(self).pci->0@
            }),
            final(self).cpu == old(self).cpu,
            final(self).mem is Some <==> old(self).mem is Some,
            final(self).mem matches Some(mem) ==> mem@.wf() && mem@.closed && mem@ == old(
                self,
            ).mem->0@.stopped(),
    {
        if let Some(pci) = &mut self.pci {
            pci.close();
        }
        if let Some(mem) = &mut self.mem {
            mem.shutdown();
        }
    }
}

/// Start CPU hot-add, or nothing for a VM without CPU slots.
pub fn start_cpu_hotplug<C: CpuOnline>(regs: Option<CpuHotplug>, vcpus: C) -> (r: Option<
    CpuSlots<C>,
>)
    requires
        regs matches Some(regs) ==> regs@.wf() && regs@.slots() <= u32::MAX,
    ensures
        r is Some <==> regs is Some,
        r matches Some(slots) ==> slots.wf() && slots.cpus() == vcpus && slots.hot() == (CpuHot {
            regs: regs->0@,
            consumed: Set::empty(),
        }),
{
    match regs {
        Some(regs) => Some(CpuSlots::new(CpuHotplugEngine::start(regs), vcpus)),
        None => None,
    }
}

} // verus!
