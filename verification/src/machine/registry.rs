//! Run-time device registry.
//!
//! One shared record of the device set. Hotplug needs a record that a
//! control request can add to and remove from while the guest runs.

use vstd::prelude::*;
use vstd::string::*;

use crate::pci::Bdf;
use crate::text::{append_decimal, decimal, owned, same};

verus! {

/// Where a slot is in the eject sequence.
///
/// An operator request marks the slot `RemovePending`, the guest
/// acknowledges by starting the eject, and the slot reaches `Absent`
/// when the device is detached.
#[derive(Debug, Clone, Copy, PartialEq, Eq, Structural)]
pub enum SlotState {
    Present,
    RemovePending,
    Ejecting,
    Absent,
}

/// The legal steps of the eject sequence.
///
/// `Present` -> `RemovePending` -> `Ejecting` -> `Absent`, one step
/// at a time, plus `RemovePending` -> `Present` for a removal that
/// was abandoned. Every other pair is refused, a repeat of the
/// current state included, so a guest that writes the eject
/// register twice cannot start two teardowns of one device: only
/// `RemovePending` -> `Ejecting` reaches teardown, and a slot leaves
/// `RemovePending` once.
pub open spec fn legal_step(from: SlotState, to: SlotState) -> bool {
    match (from, to) {
        (SlotState::Present, SlotState::RemovePending) => true,
        (SlotState::RemovePending, SlotState::Present) => true,
        (SlotState::RemovePending, SlotState::Ejecting) => true,
        (SlotState::Ejecting, SlotState::Absent) => true,
        _ => false,
    }
}

impl SlotState {
    /// True for the legal steps of the eject sequence.
    pub fn can_advance_to(self, next: SlotState) -> (r: bool)
        ensures
            r == legal_step(self, next),
    {
        match (self, next) {
            (SlotState::Present, SlotState::RemovePending) => true,
            (SlotState::RemovePending, SlotState::Present) => true,
            (SlotState::RemovePending, SlotState::Ejecting) => true,
            (SlotState::Ejecting, SlotState::Absent) => true,
            _ => false,
        }
    }

    pub open spec fn spec_name(self) -> Seq<char> {
        match self {
            SlotState::Present => "present"@,
            SlotState::RemovePending => "remove-pending"@,
            SlotState::Ejecting => "ejecting"@,
            SlotState::Absent => "absent"@,
        }
    }

    /// The state as an operator reads it.
    pub fn to_text(&self) -> (r: String)
        ensures
            r@ == self.spec_name(),
    {
        match self {
            SlotState::Present => owned("present"),
            SlotState::RemovePending => owned("remove-pending"),
            SlotState::Ejecting => owned("ejecting"),
            SlotState::Absent => owned("absent"),
        }
    }
}

/// Reason a registry request was refused.
#[derive(Debug, PartialEq, Eq)]
pub enum RegistryError {
    /// Another device holds this id.
    DuplicateId(String),
    /// Another device holds this BDF.
    DuplicateBdf(Bdf),
    /// No device has this id.
    NoSuchDevice(String),
    /// The slot moved between the read and the write.
    StateMismatch { id: String, expected: SlotState, found: SlotState },
    /// The eject sequence has no such step.
    IllegalTransition { id: String, from: SlotState, to: SlotState },
}

/// What a registry error says.
pub ghost enum RegErr {
    DuplicateId(Seq<char>),
    DuplicateBdf(Bdf),
    NoSuchDevice(Seq<char>),
    StateMismatch { id: Seq<char>, expected: SlotState, found: SlotState },
    IllegalTransition { id: Seq<char>, from: SlotState, to: SlotState },
}

impl View for RegistryError {
    type V = RegErr;

    open spec fn view(&self) -> RegErr {
        match *self {
            RegistryError::DuplicateId(id) => RegErr::DuplicateId(id@),
            RegistryError::DuplicateBdf(bdf) => RegErr::DuplicateBdf(bdf),
            RegistryError::NoSuchDevice(id) => RegErr::NoSuchDevice(id@),
            RegistryError::StateMismatch { id, expected, found } => {
                RegErr::StateMismatch { id: id@, expected, found }
            },
            RegistryError::IllegalTransition { id, from, to } => {
                RegErr::IllegalTransition { id: id@, from, to }
            },
        }
    }
}

/// An address as an operator writes it.
pub open spec fn address(b: Bdf) -> Seq<char> {
    decimal(b.spec_bus() as nat) + ":"@ + decimal(b.spec_dev() as nat) + ":"@ + decimal(
        b.spec_func() as nat,
    )
}

/// Append an address as an operator writes it.
pub fn append_address(out: &mut String, b: Bdf)
    ensures
        final(out)@ == old(out)@ + address(b),
{
    append_decimal(out, b.bus() as u64);
    out.append(":");
    append_decimal(out, b.dev() as u64);
    out.append(":");
    append_decimal(out, b.func() as u64);
    assert(out@ =~= old(out)@ + address(b));
}

impl RegErr {
    pub open spec fn text(self) -> Seq<char> {
        match self {
            RegErr::DuplicateId(id) => "device id "@ + id + " is already registered"@,
            RegErr::DuplicateBdf(bdf) => "a device is already registered at BDF "@ + address(bdf),
            RegErr::NoSuchDevice(id) => "no device with id "@ + id,
            RegErr::StateMismatch { id, expected, found } => "device "@ + id + " is "@
                + found.spec_name() + ", not the expected "@ + expected.spec_name(),
            RegErr::IllegalTransition { id, from, to } => "device "@ + id + " cannot move from "@
                + from.spec_name() + " to "@ + to.spec_name(),
        }
    }
}

impl RegistryError {
    /// The error as an operator reads it.
    pub fn to_text(&self) -> (r: String)
        ensures
            r@ == self@.text(),
    {
        match self {
            RegistryError::DuplicateId(id) => {
                let mut r = owned("device id ");
                r.append(id.as_str());
                r.append(" is already registered");
                r
            },
            RegistryError::DuplicateBdf(bdf) => {
                let mut r = owned("a device is already registered at BDF ");
                append_address(&mut r, *bdf);
                r
            },
            RegistryError::NoSuchDevice(id) => {
                let mut r = owned("no device with id ");
                r.append(id.as_str());
                r
            },
            RegistryError::StateMismatch { id, expected, found } => {
                let mut r = owned("device ");
                r.append(id.as_str());
                r.append(" is ");
                r.append(found.to_text().as_str());
                r.append(", not the expected ");
                r.append(expected.to_text().as_str());
                r
            },
            RegistryError::IllegalTransition { id, from, to } => {
                let mut r = owned("device ");
                r.append(id.as_str());
                r.append(" cannot move from ");
                r.append(from.to_text().as_str());
                r.append(" to ");
                r.append(to.to_text().as_str());
                r
            },
        }
    }
}

/// What a registry request came to.
pub open spec fn outcome<T>(r: Result<T, RegistryError>) -> Option<RegErr> {
    match r {
        Ok(_) => None,
        Err(e) => Some(e@),
    }
}

/// One device in the machine.
///
/// A handle is the number by which the machine's owner finds the device. All
/// four handle shapes are legal: a PCI device with no lifecycle is passthru,
/// and a lifecycle with no PCI handle is a backend such as the UEFI variable
/// store.
#[derive(Debug)]
pub struct RegisteredDevice {
    /// Stable, unique and operator-facing.
    pub id: String,
    /// `None` for a device that is not on the PCI bus.
    pub bdf: Option<Bdf>,
    pub pci: Option<u64>,
    pub lifecycle: Option<u64>,
    /// The `-s` spec that created the device. Reboot rebuilds its argv
    /// from these.
    pub spec: Option<String>,
    pub hotpluggable: bool,
    pub state: SlotState,
}

/// A device as the registry records it.
pub ghost struct Device {
    pub id: Seq<char>,
    pub bdf: Option<Bdf>,
    pub pci: Option<u64>,
    pub lifecycle: Option<u64>,
    pub spec: Option<Seq<char>>,
    pub hotpluggable: bool,
    pub state: SlotState,
}

pub open spec fn text_of(s: Option<String>) -> Option<Seq<char>> {
    match s {
        Some(t) => Some(t@),
        None => None,
    }
}

impl View for RegisteredDevice {
    type V = Device;

    open spec fn view(&self) -> Device {
        Device {
            id: self.id@,
            bdf: self.bdf,
            pci: self.pci,
            lifecycle: self.lifecycle,
            spec: text_of(self.spec),
            hotpluggable: self.hotpluggable,
            state: self.state,
        }
    }
}

impl RegisteredDevice {
    /// A present, not hot-pluggable device, the shape the boot path
    /// creates.
    pub fn new(
        id: String,
        bdf: Option<Bdf>,
        pci: Option<u64>,
        lifecycle: Option<u64>,
        spec: Option<String>,
    ) -> (r: Self)
        ensures
            r@ == (Device {
                id: id@,
                bdf,
                pci,
                lifecycle,
                spec: text_of(spec),
                hotpluggable: false,
                state: SlotState::Present,
            }),
    {
        RegisteredDevice {
            id,
            bdf,
            pci,
            lifecycle,
            spec,
            hotpluggable: false,
            state: SlotState::Present,
        }
    }

    /// The same record again.
    pub fn copy(&self) -> (r: Self)
        ensures
            r@ == self@,
    {
        RegisteredDevice {
            id: self.id.clone(),
            bdf: self.bdf,
            pci: self.pci,
            lifecycle: self.lifecycle,
            spec: match &self.spec {
                Some(s) => Some(s.clone()),
                None => None,
            },
            hotpluggable: self.hotpluggable,
            state: self.state,
        }
    }
}

/// Where the device with `id` stands in a list, or the list's length.
pub open spec fn index_of_id(devices: Seq<Device>, id: Seq<char>) -> int
    decreases devices.len(),
{
    if devices.len() == 0 || devices[0].id == id {
        0
    } else {
        1 + index_of_id(devices.skip(1), id)
    }
}

/// Where the device at `bdf` stands in a list, or the list's length.
pub open spec fn index_of_bdf(devices: Seq<Device>, bdf: Bdf) -> int
    decreases devices.len(),
{
    if devices.len() == 0 || devices[0].bdf == Some(bdf) {
        0
    } else {
        1 + index_of_bdf(devices.skip(1), bdf)
    }
}

pub open spec fn has_id(devices: Seq<Device>, id: Seq<char>) -> bool {
    index_of_id(devices, id) < devices.len()
}

pub open spec fn has_bdf(devices: Seq<Device>, bdf: Bdf) -> bool {
    index_of_bdf(devices, bdf) < devices.len()
}

/// No two devices share an id or a BDF.
pub open spec fn distinct(devices: Seq<Device>) -> bool {
    &&& forall|i: int, j: int|
        0 <= i < j < devices.len() ==> (#[trigger] devices[i]).id != (#[trigger] devices[j]).id
    &&& forall|i: int, j: int|
        0 <= i < j < devices.len() ==> (#[trigger] devices[i]).bdf is None || devices[i].bdf != (
        #[trigger] devices[j]).bdf
}

/// Why a device cannot be registered beside `devices`: its id is looked at
/// first.
pub open spec fn insert_error(devices: Seq<Device>, d: Device) -> Option<RegErr> {
    if has_id(devices, d.id) {
        Some(RegErr::DuplicateId(d.id))
    } else if d.bdf is Some && has_bdf(devices, d.bdf->0) {
        Some(RegErr::DuplicateBdf(d.bdf->0))
    } else {
        None
    }
}

/// Why a slot cannot move from `expected` to `next`.
pub open spec fn step_error(
    devices: Seq<Device>,
    id: Seq<char>,
    expected: SlotState,
    next: SlotState,
) -> Option<RegErr> {
    if !has_id(devices, id) {
        Some(RegErr::NoSuchDevice(id))
    } else {
        let found = devices[index_of_id(devices, id)].state;
        if found != expected {
            Some(RegErr::StateMismatch { id, expected, found })
        } else if !legal_step(expected, next) {
            Some(RegErr::IllegalTransition { id, from: expected, to: next })
        } else {
            None
        }
    }
}

/// The devices with the slot `id` in state `next`.
pub open spec fn stepped(devices: Seq<Device>, id: Seq<char>, next: SlotState) -> Seq<Device> {
    let i = index_of_id(devices, id);
    devices.update(i, Device { state: next, ..devices[i] })
}

/// The handles that a predicate finds, in order.
pub open spec fn handles(devices: Seq<Device>, of: spec_fn(Device) -> Option<u64>) -> Seq<u64>
    decreases devices.len(),
{
    if devices.len() == 0 {
        Seq::empty()
    } else {
        let before = handles(devices.drop_last(), of);
        match of(devices.last()) {
            Some(h) => before.push(h),
            None => before,
        }
    }
}

pub proof fn index_of_id_is(devices: Seq<Device>, id: Seq<char>, i: int)
    requires
        0 <= i <= devices.len(),
        forall|k: int| 0 <= k < i ==> (#[trigger] devices[k]).id != id,
        i < devices.len() ==> devices[i].id == id,
    ensures
        index_of_id(devices, id) == i,
    decreases devices.len(),
{
    if devices.len() > 0 && i > 0 {
        assert(devices[0].id != id);
        assert forall|k: int| 0 <= k < i - 1 implies (#[trigger] devices.skip(1)[k]).id != id by {
            assert(devices[k + 1].id != id);
        }
        index_of_id_is(devices.skip(1), id, i - 1);
    }
}

pub proof fn index_of_id_range(devices: Seq<Device>, id: Seq<char>)
    ensures
        0 <= index_of_id(devices, id) <= devices.len(),
        has_id(devices, id) ==> devices[index_of_id(devices, id)].id == id,
        forall|k: int|
            0 <= k < index_of_id(devices, id) ==> (#[trigger] devices[k]).id != id,
    decreases devices.len(),
{
    if devices.len() > 0 && devices[0].id != id {
        index_of_id_range(devices.skip(1), id);
        assert forall|k: int| 0 <= k < index_of_id(devices, id) implies (
        #[trigger] devices[k]).id != id by {
            if k > 0 {
                assert(devices.skip(1)[k - 1] == devices[k]);
            }
        }
    }
}

pub proof fn index_of_bdf_is(devices: Seq<Device>, bdf: Bdf, i: int)
    requires
        0 <= i <= devices.len(),
        forall|k: int| 0 <= k < i ==> (#[trigger] devices[k]).bdf != Some(bdf),
        i < devices.len() ==> devices[i].bdf == Some(bdf),
    ensures
        index_of_bdf(devices, bdf) == i,
    decreases devices.len(),
{
    if devices.len() > 0 && i > 0 {
        assert(devices[0].bdf != Some(bdf));
        assert forall|k: int| 0 <= k < i - 1 implies (#[trigger] devices.skip(1)[k]).bdf != Some(
            bdf,
        ) by {
            assert(devices[k + 1].bdf != Some(bdf));
        }
        index_of_bdf_is(devices.skip(1), bdf, i - 1);
    }
}

pub proof fn index_of_bdf_range(devices: Seq<Device>, bdf: Bdf)
    ensures
        0 <= index_of_bdf(devices, bdf) <= devices.len(),
        has_bdf(devices, bdf) ==> devices[index_of_bdf(devices, bdf)].bdf == Some(bdf),
        forall|k: int|
            0 <= k < index_of_bdf(devices, bdf) ==> (#[trigger] devices[k]).bdf != Some(bdf),
    decreases devices.len(),
{
    if devices.len() > 0 && devices[0].bdf != Some(bdf) {
        index_of_bdf_range(devices.skip(1), bdf);
        assert forall|k: int| 0 <= k < index_of_bdf(devices, bdf) implies (
        #[trigger] devices[k]).bdf != Some(bdf) by {
            if k > 0 {
                assert(devices.skip(1)[k - 1] == devices[k]);
            }
        }
    }
}

/// Every device in the machine, in one place, mutable at run time.
pub struct DeviceRegistry {
    devices: Vec<RegisteredDevice>,
}

impl View for DeviceRegistry {
    type V = Seq<Device>;

    closed spec fn view(&self) -> Seq<Device> {
        self.devices@.map_values(|d: RegisteredDevice| d@)
    }
}

impl Default for DeviceRegistry {
    fn default() -> (r: Self)
        ensures
            r@ == Seq::<Device>::empty(),
    {
        Self::new()
    }
}

impl DeviceRegistry {
    pub fn new() -> (r: Self)
        ensures
            r@ == Seq::<Device>::empty(),
    {
        let r = DeviceRegistry { devices: Vec::new() };
        assert(r@ =~= Seq::<Device>::empty());
        r
    }

    fn position(&self, id: &str) -> (r: Option<usize>)
        ensures
            match r {
                Some(i) => i < self@.len() && index_of_id(self@, id@) == i,
                None => !has_id(self@, id@),
            },
    {
        let mut i: usize = 0;
        while i < self.devices.len()
            invariant
                i <= self.devices@.len(),
                self@.len() == self.devices@.len(),
                forall|k: int| 0 <= k < i ==> (#[trigger] self@[k]).id != id@,
            decreases self.devices@.len() - i,
        {
            if same(self.devices[i].id.as_str(), id) {
                proof {
                    index_of_id_is(self@, id@, i as int);
                }
                return Some(i);
            }
            i += 1;
        }
        proof {
            index_of_id_is(self@, id@, i as int);
        }
        None
    }

    fn position_at(&self, bdf: Bdf) -> (r: Option<usize>)
        ensures
            match r {
                Some(i) => i < self@.len() && index_of_bdf(self@, bdf) == i,
                None => !has_bdf(self@, bdf),
            },
    {
        let mut i: usize = 0;
        while i < self.devices.len()
            invariant
                i <= self.devices@.len(),
                self@.len() == self.devices@.len(),
                forall|k: int| 0 <= k < i ==> (#[trigger] self@[k]).bdf != Some(bdf),
            decreases self.devices@.len() - i,
        {
            let here = match self.devices[i].bdf {
                Some(b) => b == bdf,
                None => false,
            };
            if here {
                proof {
                    index_of_bdf_is(self@, bdf, i as int);
                }
                return Some(i);
            }
            i += 1;
        }
        proof {
            index_of_bdf_is(self@, bdf, i as int);
        }
        None
    }

    /// Register a device, refusing a duplicate id or BDF.
    pub fn insert(&mut self, device: RegisteredDevice) -> (r: Result<(), RegistryError>)
        ensures
            outcome(r) == insert_error(old(self)@, device@),
            r is Ok ==> final(self)@ == old(self)@.push(device@),
            r is Err ==> final(self)@ == old(self)@,
            distinct(old(self)@) ==> distinct(final(self)@),
    {
        if self.position(device.id.as_str()).is_some() {
            return Err(RegistryError::DuplicateId(device.id));
        }
        if let Some(bdf) = device.bdf {
            if self.position_at(bdf).is_some() {
                return Err(RegistryError::DuplicateBdf(bdf));
            }
        }
        let ghost d = device@;
        self.devices.push(device);
        proof {
            assert(self@ =~= old(self)@.push(d));
            if distinct(old(self)@) {
                insert_keeps_distinct(old(self)@, d);
            }
        }
        Ok(())
    }

    /// Remove a device and return it, so the caller owns the last handles.
    pub fn remove_by_id(&mut self, id: &str) -> (r: Option<RegisteredDevice>)
        ensures
            !has_id(old(self)@, id@) ==> r is None && final(self)@ == old(self)@,
            has_id(old(self)@, id@) ==> {
                let i = index_of_id(old(self)@, id@);
                r is Some && r->0@ == old(self)@[i] && final(self)@ == old(self)@.remove(i)
            },
            distinct(old(self)@) ==> distinct(final(self)@),
    {
        match self.position(id) {
            Some(i) => {
                let d = self.devices.remove(i);
                proof {
                    assert(self@ =~= old(self)@.remove(i as int));
                }
                Some(d)
            },
            None => None,
        }
    }

    pub fn get_by_id(&self, id: &str) -> (r: Option<RegisteredDevice>)
        ensures
            !has_id(self@, id@) ==> r is None,
            has_id(self@, id@) ==> r is Some && r->0@ == self@[index_of_id(self@, id@)],
    {
        match self.position(id) {
            Some(i) => Some(self.devices[i].copy()),
            None => None,
        }
    }

    pub fn get_by_bdf(&self, bdf: Bdf) -> (r: Option<RegisteredDevice>)
        ensures
            !has_bdf(self@, bdf) ==> r is None,
            has_bdf(self@, bdf) ==> r is Some && r->0@ == self@[index_of_bdf(self@, bdf)],
    {
        match self.position_at(bdf) {
            Some(i) => Some(self.devices[i].copy()),
            None => None,
        }
    }

    /// Advance one slot through the eject sequence.
    ///
    /// A compare-and-swap: the write lands only when the slot still
    /// holds `expected` and the step is legal. A second eject request
    /// for one device is therefore a no-op, not a second teardown.
    pub fn set_state(&mut self, id: &str, expected: SlotState, next: SlotState) -> (r: Result<
        (),
        RegistryError,
    >)
        ensures
            outcome(r) == step_error(old(self)@, id@, expected, next),
            r is Ok ==> final(self)@ == stepped(old(self)@, id@, next),
            r is Err ==> final(self)@ == old(self)@,
            distinct(old(self)@) ==> distinct(final(self)@),
    {
        let i: usize = match self.position(id) {
            Some(i) => i,
            None => {
                return Err(RegistryError::NoSuchDevice(owned(id)));
            },
        };
        proof {
            index_of_id_range(self@, id@);
        }
        let found = self.devices[i].state;
        if found != expected {
            return Err(
                RegistryError::StateMismatch { id: self.devices[i].id.clone(), expected, found },
            );
        }
        if !expected.can_advance_to(next) {
            return Err(
                RegistryError::IllegalTransition {
                    id: self.devices[i].id.clone(),
                    from: expected,
                    to: next,
                },
            );
        }
        self.devices[i].state = next;
        proof {
            assert(self@ =~= stepped(old(self)@, id@, next));
        }
        Ok(())
    }

    /// Snapshot of the lifecycle handles.
    pub fn lifecycle_devices(&self) -> (r: Vec<u64>)
        ensures
            r@ == handles(self@, |d: Device| d.lifecycle),
    {
        let ghost of = |d: Device| d.lifecycle;
        let mut out: Vec<u64> = Vec::new();
        let mut i: usize = 0;
        assert(self@.take(0) =~= Seq::<Device>::empty());
        while i < self.devices.len()
            invariant
                i <= self.devices@.len(),
                self@.len() == self.devices@.len(),
                of == (|d: Device| d.lifecycle),
                out@ == handles(self@.take(i as int), of),
            decreases self.devices@.len() - i,
        {
            if let Some(h) = self.devices[i].lifecycle {
                out.push(h);
            }
            i += 1;
            assert(self@.take(i as int).drop_last() =~= self@.take(i - 1));
        }
        assert(self@.take(i as int) =~= self@);
        out
    }

    /// Snapshot of the PCI handles.
    pub fn pci_devices(&self) -> (r: Vec<u64>)
        ensures
            r@ == handles(self@, |d: Device| d.pci),
    {
        let ghost of = |d: Device| d.pci;
        let mut out: Vec<u64> = Vec::new();
        let mut i: usize = 0;
        assert(self@.take(0) =~= Seq::<Device>::empty());
        while i < self.devices.len()
            invariant
                i <= self.devices@.len(),
                self@.len() == self.devices@.len(),
                of == (|d: Device| d.pci),
                out@ == handles(self@.take(i as int), of),
            decreases self.devices@.len() - i,
        {
            if let Some(h) = self.devices[i].pci {
                out.push(h);
            }
            i += 1;
            assert(self@.take(i as int).drop_last() =~= self@.take(i - 1));
        }
        assert(self@.take(i as int) =~= self@);
        out
    }

    /// Read-only view of every slot, in insert order.
    pub fn list(&self) -> (r: Vec<RegisteredDevice>)
        ensures
            r@.map_values(|d: RegisteredDevice| d@) == self@,
    {
        let mut out: Vec<RegisteredDevice> = Vec::new();
        let mut i: usize = 0;
        while i < self.devices.len()
            invariant
                i <= self.devices@.len(),
                self@.len() == self.devices@.len(),
                out@.len() == i,
                forall|k: int| 0 <= k < i ==> (#[trigger] out@[k])@ == self@[k],
            decreases self.devices@.len() - i,
        {
            out.push(self.devices[i].copy());
            i += 1;
        }
        assert(out@.map_values(|d: RegisteredDevice| d@) =~= self@);
        out
    }

    pub fn len(&self) -> (r: usize)
        ensures
            r == self@.len(),
    {
        self.devices.len()
    }

    pub fn is_empty(&self) -> (r: bool)
        ensures
            r == (self@.len() == 0),
    {
        self.devices.len() == 0
    }
}

// ---- Laws ------------------------------------------------------------------

/// Registering keeps every id and every BDF unique.
pub proof fn insert_keeps_distinct(devices: Seq<Device>, d: Device)
    requires
        distinct(devices),
        insert_error(devices, d) is None,
    ensures
        distinct(devices.push(d)),
{
    index_of_id_range(devices, d.id);
    if d.bdf is Some {
        index_of_bdf_range(devices, d.bdf->0);
    }
}

/// Looking a device up by its id and by its BDF finds the same slot.
pub proof fn lookups_agree(devices: Seq<Device>, i: int)
    requires
        distinct(devices),
        0 <= i < devices.len(),
    ensures
        index_of_id(devices, devices[i].id) == i,
        devices[i].bdf matches Some(bdf) ==> index_of_bdf(devices, bdf) == i,
{
    index_of_id_is(devices, devices[i].id, i);
    match devices[i].bdf {
        Some(bdf) => {
            index_of_bdf_is(devices, bdf, i);
        },
        None => {},
    }
}

/// Removing a device frees its id and its BDF.
pub proof fn remove_frees(devices: Seq<Device>, i: int)
    requires
        distinct(devices),
        0 <= i < devices.len(),
    ensures
        distinct(devices.remove(i)),
        insert_error(devices.remove(i), devices[i]) is None,
{
    let left = devices.remove(i);
    let d = devices[i];
    index_of_id_is(left, d.id, left.len() as int);
    match d.bdf {
        Some(bdf) => {
            index_of_bdf_is(left, bdf, left.len() as int);
        },
        None => {},
    }
}

/// One slot is torn down once: after the step that starts a teardown, that
/// step is refused, whatever else the guest or the operator does in between
/// to that slot.
pub proof fn teardown_starts_once(devices: Seq<Device>, id: Seq<char>, next: SlotState)
    requires
        step_error(devices, id, SlotState::RemovePending, SlotState::Ejecting) is None,
    ensures
        ({
            let ejecting = stepped(devices, id, SlotState::Ejecting);
            &&& step_error(ejecting, id, SlotState::RemovePending, SlotState::Ejecting) is Some
            &&& step_error(ejecting, id, SlotState::Ejecting, next) is None ==> {
                let after = stepped(ejecting, id, next);
                step_error(after, id, SlotState::RemovePending, SlotState::Ejecting) is Some
            }
        }),
{
    index_of_id_range(devices, id);
    let i = index_of_id(devices, id);
    let ejecting = stepped(devices, id, SlotState::Ejecting);
    assert forall|k: int| 0 <= k < i implies (#[trigger] ejecting[k]).id != id by {
        assert(ejecting[k] == devices[k]);
    }
    index_of_id_is(ejecting, id, i);
    let after = stepped(ejecting, id, next);
    assert forall|k: int| 0 <= k < i implies (#[trigger] after[k]).id != id by {
        assert(after[k] == devices[k]);
    }
    index_of_id_is(after, id, i);
}

/// A slot moves only along the eject's way: it is asked for, given back or
/// ejected from there, and gone behind that.
pub proof fn slots_move_along_one_way(from: SlotState, to: SlotState)
    ensures
        legal_step(from, to) <==> {
            ||| from == SlotState::Present && to == SlotState::RemovePending
            ||| from == SlotState::RemovePending && to == SlotState::Present
            ||| from == SlotState::RemovePending && to == SlotState::Ejecting
            ||| from == SlotState::Ejecting && to == SlotState::Absent
        },
{
}

/// A step is taken exactly where the device is there, in the state that was
/// expected, and the way leads on; it changes that device's state and nothing
/// else.
pub proof fn steps_move_one_device(
    devices: Seq<Device>,
    id: Seq<char>,
    expected: SlotState,
    next: SlotState,
    k: int,
)
    requires
        0 <= k < devices.len(),
        distinct(devices),
    ensures
        step_error(devices, id, expected, next) is None <==> has_id(devices, id)
            && devices[index_of_id(devices, id)].state == expected && legal_step(expected, next),
        step_error(devices, id, expected, next) is None ==> {
            let after = stepped(devices, id, next);
            &&& after.len() == devices.len()
            &&& after[k] == if devices[k].id == id {
                Device { state: next, ..devices[k] }
            } else {
                devices[k]
            }
        },
{
    index_of_id_range(devices, id);
    if devices[k].id == id {
        lookups_agree(devices, k);
    }
}

/// A device is refused exactly where another has its id or, on the bus, its
/// place.
pub proof fn ids_and_places_are_held_once(devices: Seq<Device>, d: Device)
    ensures
        insert_error(devices, d) is Some <==> exists|k: int|
            0 <= k < devices.len() && ((#[trigger] devices[k]).id == d.id || (d.bdf is Some
                && devices[k].bdf == d.bdf)),
{
    index_of_id_range(devices, d.id);
    if d.bdf is Some {
        index_of_bdf_range(devices, d.bdf->0);
    }
    if insert_error(devices, d) is Some {
        if has_id(devices, d.id) {
            assert(devices[index_of_id(devices, d.id)].id == d.id);
        } else {
            assert(devices[index_of_bdf(devices, d.bdf->0)].bdf == d.bdf);
        }
    }
}

/// The handles of the devices come in the devices' order, one for each that
/// has one.
pub proof fn handles_follow_the_devices(
    devices: Seq<Device>,
    d: Device,
    of: spec_fn(Device) -> Option<u64>,
)
    ensures
        handles(Seq::empty(), of).len() == 0,
        of(d) is None ==> handles(devices.push(d), of) == handles(devices, of),
        of(d) is Some ==> handles(devices.push(d), of) == handles(devices, of).push(of(d)->0),
{
    assert(devices.push(d).drop_last() =~= devices);
}

} // verus!
