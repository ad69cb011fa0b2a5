//! What holds of hot-plugging across steps.

use vstd::prelude::*;

use super::regs::PCI_SLOTS;
use super::unplug::Unplug;
use super::{
    add_comes_to, moved, replayed, spec_refusal, spec_slot, undo, without, AddOutcome, Adding, CreatedPciDevice, EjectAction, EjectEvent,
    EjectPhase, Ejecting, Hot, HotErr,
};
use crate::machine::devspec::{driver_of, id_of, slot_of};
use crate::machine::parse::{bdf_numbers, names_bdf};
use crate::machine::pci::Made;
use crate::machine::registry::{
    distinct, has_bdf, has_id, index_of_bdf, index_of_bdf_is, index_of_id, index_of_id_is,
    index_of_id_range, insert_error, insert_keeps_distinct, remove_frees, step_error, stepped,
    Device, SlotState,
};
use crate::pci::Bdf;

verus! {

/// A closed engine adds nothing and removes nothing.
pub proof fn closed_refuses_everything(h: Hot, spec: Seq<char>, id: Seq<char>)
    requires
        h.closed,
    ensures
        h.add_refusal(spec) == Some(HotErr::Closed),
        h.remove_refusal(id) == Some(HotErr::Closed),
{
}

/// The fixed slots of the chipset are refused, whatever else is true.
pub proof fn fixed_slots_are_refused(h: Hot, spec: Seq<char>)
    requires
        h.add_refusal(spec) is None,
    ensures
        2 <= spec_slot(spec) < PCI_SLOTS,
{
}

/// An eject that no operator asked for takes nothing: no device leaves the
/// registry or the bus, and the slot is ejectable again.
pub proof fn unasked_eject_takes_nothing(h: Hot, slot: u8)
    requires
        h.wf(),
        slot < PCI_SLOTS,
        has_bdf(h.devices, Bdf::at(0, slot, 0)),
        h.devices[index_of_bdf(h.devices, Bdf::at(0, slot, 0))].state != SlotState::RemovePending,
    ensures
        ({
            let (after, eject) = h.eject(slot);
            &&& eject is None
            &&& after.devices == h.devices
            &&& after.bus == h.bus
            &&& after.regs.ejectable[slot as int]
            &&& after.regs.up[slot as int]
        }),
{
}

/// A device that will not let go keeps its slot on the bus and in the
/// registry, whatever it was doing, and a later eject can try again.
pub proof fn kept_device_keeps_its_slot(h: Hot, e: Ejecting, paused: bool, paused_here: bool)
    requires
        h.wf(),
        e.wf(),
        e.phase == EjectPhase::Unplugging,
        step_error(h.devices, e.record->0, SlotState::RemovePending, SlotState::Present) is None,
    ensures
        ({
            let event = EjectEvent::Unplugged { outcome: Unplug::Kept { paused }, paused_here };
            let (h1, e1, action) = h.advance(e, event);
            let (h2, e2, last) = if action == EjectAction::Nothing {
                (h1, e1, action)
            } else {
                h1.advance(e1, EjectEvent::DeviceResumed)
            };
            // It is resumed exactly if this eject paused it.
            &&& action == if paused && paused_here {
                EjectAction::ResumeDevice(e.lifecycle->0)
            } else {
                EjectAction::Nothing
            }
            &&& last == EjectAction::Nothing
            &&& e2.phase == EjectPhase::Over
            &&& h2.bus == h.bus
            &&& h2.devices == stepped(h.devices, e.record->0, SlotState::Present)
            &&& h2.regs.ejectable[e.slot as int]
        }),
{
}

/// A release that is still in flight leaves the slot alone: it stays on the
/// bus, is not offered again, and nothing is resumed or detached.
pub proof fn release_in_flight_is_left_alone(h: Hot, e: Ejecting, paused_here: bool)
    requires
        e.phase == EjectPhase::Unplugging,
    ensures
        ({
            let event = EjectEvent::Unplugged { outcome: Unplug::InFlight, paused_here };
            let (h1, e1, action) = h.advance(e, event);
            &&& action == EjectAction::Nothing
            &&& e1.phase == EjectPhase::Over
            &&& h1.bus == h.bus
            &&& h1.regs == h.regs
        }),
{
}

/// A device's regions go only while every vCPU is stopped, and the vCPUs are
/// started again right behind them.
pub proof fn regions_go_only_under_pause(h: Hot, e: Ejecting, event: EjectEvent)
    requires
        h.wf(),
        e.wf(),
    ensures
        ({
            let (h1, e1, action) = h.advance(e, event);
            &&& action is DetachRegions ==> event == EjectEvent::VmPaused(true)
            &&& h1.bus != h.bus ==> e.phase == EjectPhase::Detaching && action
                == EjectAction::ResumeVm
            &&& e.phase == EjectPhase::Detaching && event == EjectEvent::RegionsDetached ==> action
                == EjectAction::ResumeVm && !h1.bus[e.slot as int]
        }),
{
}

/// A pause that is refused stops the eject with the device still on the bus.
pub proof fn refused_pause_keeps_the_device(h: Hot, e: Ejecting)
    requires
        e.phase == EjectPhase::Pausing,
    ensures
        ({
            let (h1, e1, action) = h.advance(e, EjectEvent::VmPaused(false));
            h1 == h && action == EjectAction::Nothing && e1.phase == EjectPhase::Over
        }),
{
}

/// The state after an eject in which every step went well.
pub open spec fn ejected(h: Hot, e: Ejecting, paused_here: bool) -> Hot {
    let (h1, e1, _a1) = h.advance(
        e,
        EjectEvent::Unplugged { outcome: Unplug::Done, paused_here },
    );
    let (h2, e2, _a2) = h1.advance(e1, EjectEvent::VmPaused(true));
    let (h3, e3, _a3) = h2.advance(e2, EjectEvent::RegionsDetached);
    let (h4, _e4, _a4) = h3.advance(e3, EjectEvent::VmResumed(true));
    h4
}

/// A device that left can come back: once its eject went well, its record and
/// its place on the bus are gone, no other device is touched, and its spec can
/// be added again.
pub proof fn slot_can_be_reused(h: Hot, slot: u8, spec: Seq<char>, paused_here: bool)
    requires
        h.wf(),
        !h.closed,
        distinct(h.devices),
        spec_refusal(spec) is None,
        spec_slot(spec) == slot,
        has_bdf(h.devices, Bdf::at(0, slot, 0)),
        h.devices[index_of_bdf(h.devices, Bdf::at(0, slot, 0))].id == id_of(spec),
        h.eject(slot).1 is Some,
    ensures
        ({
            let i = index_of_bdf(h.devices, Bdf::at(0, slot, 0));
            let after = ejected(h, h.eject(slot).1->0, paused_here);
            &&& after.devices == h.devices.remove(i)
            &&& after.bus == h.bus.update(slot as int, false)
            &&& after.regs == h.regs
            &&& after.add_refusal(spec) is None
        }),
{
    let bdf = Bdf::at(0, slot, 0);
    let i = index_of_bdf(h.devices, bdf);
    let id = id_of(spec);
    crate::machine::registry::index_of_bdf_range(h.devices, bdf);
    assert forall|k: int| 0 <= k < i implies (#[trigger] h.devices[k]).id != id by {
        assert(h.devices[k].id != h.devices[i].id);
    }
    index_of_id_is(h.devices, id, i);
    let d1 = stepped(h.devices, id, SlotState::Ejecting);
    assert forall|k: int| 0 <= k < i implies (#[trigger] d1[k]).id != id by {
        assert(d1[k] == h.devices[k]);
    }
    index_of_id_is(d1, id, i);
    let d2 = stepped(d1, id, SlotState::Absent);
    assert forall|k: int| 0 <= k < i implies (#[trigger] d2[k]).id != id by {
        assert(d2[k] == h.devices[k]);
    }
    index_of_id_is(d2, id, i);
    let left = h.devices.remove(i);
    assert(d2.remove(i) =~= left);
    assert forall|k: int| 0 <= k < left.len() implies (#[trigger] left[k]).id != id by {
        if k < i {
            assert(left[k] == h.devices[k]);
        } else {
            assert(left[k] == h.devices[k + 1]);
            assert(h.devices[i].id != h.devices[k + 1].id);
        }
    }
    index_of_id_is(left, id, left.len() as int);
    assert forall|k: int| 0 <= k < left.len() implies (#[trigger] left[k]).bdf != Some(bdf) by {
        if k < i {
            assert(left[k] == h.devices[k]);
        } else {
            assert(left[k] == h.devices[k + 1]);
            assert(h.devices[i].bdf != h.devices[k + 1].bdf);
        }
    }
    index_of_bdf_is(left, bdf, left.len() as int);
}

/// A removal request changes only the slot's state and tells the guest: the
/// device stays registered and on the bus.
pub proof fn request_tears_nothing_down(h: Hot, id: Seq<char>)
    requires
        h.wf(),
        h.remove_refusal(id) is None,
        h.devices[index_of_id(h.devices, id)].bdf->0.spec_dev() < PCI_SLOTS,
    ensures
        ({
            let after = h.asked(id);
            let i = index_of_id(h.devices, id);
            &&& after.bus == h.bus
            &&& after.devices.len() == h.devices.len()
            &&& after.devices[i] == (Device { state: SlotState::RemovePending, ..h.devices[i] })
            &&& forall|k: int|
                0 <= k < h.devices.len() && k != i ==> after.devices[k] == h.devices[k]
            &&& after.regs.down[h.devices[i].bdf->0.spec_dev() as int]
        }),
{
    index_of_id_range(h.devices, id);
}

// ---- One teardown for one device -------------------------------------------

/// What can happen while devices come and go.
pub ghost enum Happening {
    /// The guest ran an eject of a slot.
    Ran(u8),
    /// An event came for one of the ejects that were begun.
    Came { which: int, event: EjectEvent },
    /// An operator asked for a device's removal.
    Asked(Seq<char>),
    /// A device was built.
    Added(Adding, CreatedPciDevice),
}

/// The engine with every eject that was begun, and how often the regions of
/// one device were unregistered.
pub ghost struct Removals {
    pub hot: Hot,
    pub ejects: Seq<Ejecting>,
    pub detached: nat,
}

impl Removals {
    /// Before the first eject.
    pub open spec fn start(hot: Hot) -> Removals {
        Removals { hot, ejects: Seq::empty(), detached: 0 }
    }

    /// What `what` comes to, counting for the device `id`.
    pub open spec fn next(self, id: Seq<char>, what: Happening) -> Removals {
        match what {
            Happening::Ran(slot) => {
                let (hot, e) = self.hot.eject(slot);
                Removals {
                    hot,
                    ejects: match e {
                        Some(e) => self.ejects.push(e),
                        None => self.ejects,
                    },
                    ..self
                }
            },
            Happening::Came { which, event } => if 0 <= which < self.ejects.len() {
                let before = self.ejects[which];
                let (hot, e, action) = self.hot.advance(before, event);
                Removals {
                    hot,
                    ejects: self.ejects.update(which, e),
                    detached: if before.record == Some(id) && action is DetachRegions {
                        self.detached + 1
                    } else {
                        self.detached
                    },
                }
            } else {
                self
            },
            Happening::Asked(asked) => if self.hot.remove_refusal(asked) is None {
                Removals { hot: self.hot.asked(asked), ..self }
            } else {
                self
            },
            Happening::Added(add, built) => if self.hot.built_refusal(add, built) is None {
                let hot = self.hot.answering(add.slot, Made::Device(built));
                Removals { hot: hot.with_device(add, built), ..self }
            } else {
                self
            },
        }
    }

    /// What all of `happened` comes to, in its order.
    pub open spec fn after(self, id: Seq<char>, happened: Seq<Happening>) -> Removals
        decreases happened.len(),
    {
        if happened.len() == 0 {
            self
        } else {
            self.after(id, happened.drop_last()).next(id, happened.last())
        }
    }
}

/// Whether the teardown of `id` has begun, or is over.
spec fn leaving(devices: Seq<Device>, id: Seq<char>) -> bool {
    has_id(devices, id) ==> {
        let state = devices[index_of_id(devices, id)].state;
        state == SlotState::Ejecting || state == SlotState::Absent
    }
}

/// Whether an eject of `id` waits for the VM's pause, behind which the regions
/// go.
spec fn pausing(e: Ejecting, id: Seq<char>) -> bool {
    e.record == Some(id) && e.phase == EjectPhase::Pausing
}

/// Whether an eject of `id` is past the point where the regions went.
spec fn past(e: Ejecting, id: Seq<char>) -> bool {
    e.record == Some(id) && (e.phase == EjectPhase::Detaching || e.phase
        == EjectPhase::Restarting)
}

/// What is kept, whatever happens: the regions of a device go at most once,
/// and then its teardown has begun.
spec fn torn_down_once(r: Removals, id: Seq<char>) -> bool {
    &&& distinct(r.hot.devices)
    &&& r.detached <= 1
    &&& r.detached == 1 ==> leaving(r.hot.devices, id)
    &&& !has_id(r.hot.devices, id) ==> r.detached == 1
    &&& forall|i: int|
        0 <= i < r.ejects.len() && pausing(#[trigger] r.ejects[i], id) ==> r.detached == 0
            && leaving(r.hot.devices, id)
    &&& forall|i: int|
        0 <= i < r.ejects.len() && past(#[trigger] r.ejects[i], id) ==> r.detached == 1
    &&& forall|i: int, j: int|
        0 <= i < j < r.ejects.len() ==> !(pausing(#[trigger] r.ejects[i], id) && pausing(
            #[trigger] r.ejects[j],
            id,
        ))
}

proof fn step_keeps_places(
    devices: Seq<Device>,
    stepping: Seq<char>,
    next: SlotState,
    id: Seq<char>,
)
    requires
        distinct(devices),
        has_id(devices, stepping),
    ensures
        ({
            let after = stepped(devices, stepping, next);
            &&& distinct(after)
            &&& index_of_id(after, id) == index_of_id(devices, id)
            &&& after.len() == devices.len()
            &&& has_id(devices, id) && stepping != id ==> after[index_of_id(devices, id)]
                == devices[index_of_id(devices, id)]
            &&& stepping == id ==> after[index_of_id(devices, id)].state == next
        }),
{
    let after = stepped(devices, stepping, next);
    let at = index_of_id(devices, stepping);
    let i = index_of_id(devices, id);
    index_of_id_range(devices, stepping);
    index_of_id_range(devices, id);
    assert forall|k: int| 0 <= k < devices.len() implies (#[trigger] after[k]).id == devices[k].id
        && after[k].bdf == devices[k].bdf by {}
    assert forall|a: int, b: int| 0 <= a < b < after.len() implies (#[trigger] after[a]).id != (
    #[trigger] after[b]).id by {
        assert(devices[a].id != devices[b].id);
    }
    assert forall|a: int, b: int| 0 <= a < b < after.len() implies (#[trigger] after[a]).bdf is None
        || after[a].bdf != (#[trigger] after[b]).bdf by {
        assert(devices[a].bdf is None || devices[a].bdf != devices[b].bdf);
    }
    assert forall|k: int| 0 <= k < i implies (#[trigger] after[k]).id != id by {
        assert(devices[k].id != id);
    }
    index_of_id_is(after, id, i);
}

proof fn move_keeps_leaving(
    devices: Seq<Device>,
    moving: Seq<char>,
    from: SlotState,
    to: SlotState,
    id: Seq<char>,
)
    requires
        distinct(devices),
    ensures
        ({
            let after = moved(devices, moving, from, to);
            &&& distinct(after)
            &&& has_id(after, id) == has_id(devices, id)
            &&& leaving(devices, id) ==> leaving(after, id)
        }),
{
    if step_error(devices, moving, from, to) is None {
        step_keeps_places(devices, moving, to, id);
    }
}

proof fn removal_keeps_leaving(devices: Seq<Device>, gone: Seq<char>, id: Seq<char>)
    requires
        distinct(devices),
    ensures
        ({
            let after = without(devices, gone);
            &&& distinct(after)
            &&& gone == id ==> !has_id(after, id)
            &&& gone != id ==> has_id(after, id) == has_id(devices, id)
            &&& leaving(devices, id) ==> leaving(after, id)
        }),
{
    if has_id(devices, gone) {
        let at = index_of_id(devices, gone);
        let i = index_of_id(devices, id);
        let after = devices.remove(at);
        index_of_id_range(devices, gone);
        index_of_id_range(devices, id);
        remove_frees(devices, at);
        let to = if gone == id || i == devices.len() {
            after.len() as int
        } else if at < i {
            i - 1
        } else {
            i
        };
        assert forall|k: int| 0 <= k < to implies (#[trigger] after[k]).id != id by {
            let from = if k < at {
                k
            } else {
                k + 1
            };
            assert(after[k] == devices[from]);
            if gone == id {
                if from < at {
                    assert(devices[from].id != devices[at].id);
                } else {
                    assert(devices[at].id != devices[from].id);
                }
            }
        }
        index_of_id_is(after, id, to);
    }
}

proof fn addition_keeps_leaving(devices: Seq<Device>, d: Device, id: Seq<char>)
    requires
        distinct(devices),
        insert_error(devices, d) is None,
        d.id != id,
    ensures
        distinct(devices.push(d)),
        has_id(devices.push(d), id) == has_id(devices, id),
        leaving(devices, id) ==> leaving(devices.push(d), id),
{
    let after = devices.push(d);
    let i = index_of_id(devices, id);
    insert_keeps_distinct(devices, d);
    index_of_id_range(devices, id);
    let to = if i < devices.len() {
        i
    } else {
        after.len() as int
    };
    assert forall|k: int| 0 <= k < to implies (#[trigger] after[k]).id != id by {
        if k < devices.len() {
            assert(after[k] == devices[k]);
        }
    }
    index_of_id_is(after, id, to);
}

proof fn event_keeps_teardown(r: Removals, id: Seq<char>, which: int, event: EjectEvent)
    requires
        torn_down_once(r, id),
        0 <= which < r.ejects.len(),
    ensures
        torn_down_once(r.next(id, Happening::Came { which, event }), id),
{
    let e = r.ejects[which];
    let after = r.next(id, Happening::Came { which, event });
    let devices = r.hot.devices;
    let record = e.record->0;
    move_keeps_leaving(devices, record, SlotState::RemovePending, SlotState::Present, id);
    move_keeps_leaving(devices, record, SlotState::RemovePending, SlotState::Ejecting, id);
    move_keeps_leaving(devices, record, SlotState::Ejecting, SlotState::Absent, id);
    removal_keeps_leaving(
        moved(devices, record, SlotState::Ejecting, SlotState::Absent),
        record,
        id,
    );
    if step_error(devices, record, SlotState::RemovePending, SlotState::Ejecting) is None {
        step_keeps_places(devices, record, SlotState::Ejecting, id);
    }
    assert forall|i: int| 0 <= i < after.ejects.len() && i != which implies #[trigger]
        after.ejects[i] == r.ejects[i] by {}
}

proof fn happening_keeps_teardown(r: Removals, id: Seq<char>, what: Happening)
    requires
        torn_down_once(r, id),
        what matches Happening::Added(add, built) ==> add.id != id,
    ensures
        torn_down_once(r.next(id, what), id),
{
    let devices = r.hot.devices;
    match what {
        Happening::Ran(slot) => {
            let d = devices[index_of_bdf(devices, Bdf::at(0, slot, 0))];
            move_keeps_leaving(devices, d.id, SlotState::RemovePending, SlotState::Present, id);
        },
        Happening::Came { which, event } => {
            if 0 <= which < r.ejects.len() {
                event_keeps_teardown(r, id, which, event);
            }
        },
        Happening::Asked(asked) => {
            if r.hot.remove_refusal(asked) is None {
                step_keeps_places(devices, asked, SlotState::RemovePending, id);
            }
        },
        Happening::Added(add, built) => {
            if r.hot.built_refusal(add, built) is None {
                addition_keeps_leaving(devices, Hot::record(add, built), id);
            }
        },
    }
}

proof fn teardown_kept(r: Removals, id: Seq<char>, happened: Seq<Happening>)
    requires
        torn_down_once(r, id),
        forall|k: int|
            0 <= k < happened.len() ==> ((#[trigger] happened[k]) matches Happening::Added(
                add,
                built,
            ) ==> add.id != id),
    ensures
        torn_down_once(r.after(id, happened), id),
    decreases happened.len(),
{
    if happened.len() > 0 {
        let before = happened.drop_last();
        assert forall|k: int| 0 <= k < before.len() implies ((
        #[trigger] before[k]) matches Happening::Added(add, built) ==> add.id != id) by {
            assert(before[k] == happened[k]);
        }
        teardown_kept(r, id, before);
        happening_keeps_teardown(r.after(id, before), id, happened.last());
    }
}

/// A registered device is torn down at most once. However often its eject
/// runs, however the ejects are interleaved, whatever comes of each of their
/// steps, and whatever is asked for or added beside it, its regions are
/// unregistered at most once, and its record goes only behind them. Another
/// device under the same id is left out.
pub proof fn one_teardown_for_one_device(h: Hot, id: Seq<char>, happened: Seq<Happening>)
    requires
        distinct(h.devices),
        has_id(h.devices, id),
        forall|k: int|
            0 <= k < happened.len() ==> ((#[trigger] happened[k]) matches Happening::Added(
                add,
                built,
            ) ==> add.id != id),
    ensures
        ({
            let after = Removals::start(h).after(id, happened);
            &&& after.detached <= 1
            &&& !has_id(after.hot.devices, id) ==> after.detached == 1
        }),
{
    teardown_kept(Removals::start(h), id, happened);
}

/// A spec that can be hot-added names a driver and a PCI address on bus 0,
/// function 0, in a slot from 2 to 31. A fixed slot is refused as such.
pub proof fn hot_adds_go_to_free_slots(spec: Seq<char>)
    ensures
        spec_refusal(spec) is None <==> {
            &&& driver_of(spec).len() > 0
            &&& names_bdf(slot_of(spec))
            &&& bdf_numbers(slot_of(spec)) == Some((0u8, spec_slot(spec), 0u8))
            &&& 2 <= spec_slot(spec) < 32
        },
        spec_refusal(spec) matches Some(HotErr::FixedSlot(slot)) ==> slot < 2,
{
}

/// Why an add is refused: the engine is closed, the spec is, the id is taken,
/// or something is in the slot, on the bus or in the records. Nothing else
/// refuses it.
pub proof fn adds_are_refused_for_a_reason(h: Hot, spec: Seq<char>)
    ensures
        ({
            let slot = spec_slot(spec);
            let bdf = Bdf::at(0, slot, 0);
            let refusal = h.add_refusal(spec);
            let taken = has_bdf(h.devices, bdf) || h.bus[slot as int];
            &&& refusal is None <==> !h.closed && spec_refusal(spec) is None && !has_id(
                h.devices,
                id_of(spec),
            ) && !taken
            &&& refusal == Some(HotErr::Closed) ==> h.closed
            &&& refusal matches Some(HotErr::DuplicateId(id)) ==> id == id_of(spec) && has_id(
                h.devices,
                id,
            )
            &&& refusal matches Some(HotErr::SlotTaken(b)) ==> b == bdf && taken
        }),
{
}

/// A device that was added is the last record, under its own id and in its own
/// slot, present and removable, and the guest is told to look in that slot.
/// Only what answers on the bus holds the slot there.
pub proof fn added_device_is_shown(h: Hot, add: Adding, built: CreatedPciDevice, k: int)
    requires
        h.wf(),
        add.slot < 32,
        0 <= k < 32,
    ensures
        ({
            let after = h.with_device(add, built);
            let d = after.devices.last();
            let answers = h.answering(add.slot, Made::Device(built));
            &&& after.devices.drop_last() == h.devices
            &&& d.id == add.id
            &&& d.bdf == Some(Bdf::at(0, add.slot, 0))
            &&& d.pci == built.pci && d.lifecycle == built.lifecycle
            &&& d.spec == Some(add.spec)
            &&& d.hotpluggable
            &&& d.state == SlotState::Present
            &&& after.regs.up[k] == (h.regs.up[k] || k == add.slot)
            &&& after.regs.ejectable[k] == (h.regs.ejectable[k] || k == add.slot)
            &&& after.regs.down == h.regs.down
            &&& after.bus == h.bus
            &&& answers.bus[k] == (h.bus[k] || (k == add.slot && built.pci is Some))
            &&& answers.devices == h.devices && answers.regs == h.regs
            &&& h.built_refusal(add, built) is None ==> built.pci is Some
            &&& built.pci is None ==> h.built_refusal(add, built) is Some
        }),
{
    assert(h.with_device(add, built).devices.drop_last() =~= h.devices);
}

/// Why a removal is refused: the engine is closed or nothing drains its
/// ejects, there is no such device, it came from the command line, or it is
/// already leaving. Nothing else refuses it, and asking twice is no error.
pub proof fn removals_are_refused_for_a_reason(h: Hot, id: Seq<char>)
    ensures
        ({
            let d = h.devices[index_of_id(h.devices, id)];
            let refusal = h.remove_refusal(id);
            &&& refusal is None <==> !h.closed && h.drains && has_id(h.devices, id) && d.bdf is Some
                && d.hotpluggable && (d.state == SlotState::Present || d.state
                == SlotState::RemovePending)
            &&& refusal == Some(HotErr::NotDrained) ==> !h.drains
            &&& refusal matches Some(HotErr::NoSuchDevice(i)) ==> i == id && !has_id(h.devices, id)
            &&& refusal matches Some(HotErr::NotHotpluggable(i)) ==> i == id && (d.bdf is None
                || !d.hotpluggable)
            &&& refusal matches Some(HotErr::NotRemovable { id: i, state }) ==> i == id && state
                == d.state && (state == SlotState::Ejecting || state == SlotState::Absent)
        }),
{
}

/// An eject begins exactly where the device in the slot was asked for and can
/// be stopped, and then it is that device's.
pub proof fn ejects_begin_for_asked_devices(h: Hot, slot: u8)
    ensures
        ({
            let bdf = Bdf::at(0, slot, 0);
            let d = h.devices[index_of_bdf(h.devices, bdf)];
            let (after, e) = h.eject(slot);
            &&& e is Some <==> slot < 32 && has_bdf(h.devices, bdf) && d.state
                == SlotState::RemovePending && d.lifecycle is Some
            &&& e matches Some(e) ==> {
                &&& after == h
                &&& e.record == Some(d.id)
                &&& e.slot == slot
                &&& e.pci == d.pci
                &&& e.lifecycle == d.lifecycle
                &&& e.phase == EjectPhase::Unplugging
            }
        }),
{
}

/// An eject goes its way one action at a time: once the device let go, all
/// vCPUs stop, its own regions go, the vCPUs start again, and its record is
/// dropped, whether or not they would start.
pub proof fn ejects_go_one_way(h: Hot, e: Ejecting, paused_here: bool, started: bool)
    requires
        h.wf(),
        e.wf(),
        e.phase == EjectPhase::Unplugging,
        step_error(h.devices, e.record->0, SlotState::RemovePending, SlotState::Ejecting) is None,
        distinct(h.devices),
    ensures
        ({
            let (h1, e1, a1) = h.advance(
                e,
                EjectEvent::Unplugged { outcome: Unplug::Done, paused_here },
            );
            let (h2, e2, a2) = h1.advance(e1, EjectEvent::VmPaused(true));
            let (h3, e3, a3) = h2.advance(e2, EjectEvent::RegionsDetached);
            let (h4, e4, a4) = h3.advance(e3, EjectEvent::VmResumed(started));
            &&& a1 == EjectAction::PauseVm
            &&& a2 == EjectAction::DetachRegions(e.pci)
            &&& a3 == EjectAction::ResumeVm
            &&& a4 == EjectAction::Nothing
            &&& h2.bus == h.bus
            &&& h3.bus == h.bus.update(e.slot as int, false)
            &&& e4.phase == EjectPhase::Over
            &&& !has_id(h4.devices, e.record->0)
            &&& h4.devices.len() == h.devices.len() - 1
        }),
{
    let id = e.record->0;
    step_keeps_places(h.devices, id, SlotState::Ejecting, id);
    let d1 = stepped(h.devices, id, SlotState::Ejecting);
    step_keeps_places(d1, id, SlotState::Absent, id);
    let d2 = stepped(d1, id, SlotState::Absent);
    removal_keeps_leaving(d2, id, id);
    index_of_id_range(d2, id);
}

/// A device's spec is replayed on a reboot exactly where it was hot-added and
/// is not on its way out for good, in the order of the records.
pub proof fn hot_added_specs_are_replayed(devices: Seq<Device>, d: Device)
    ensures
        ({
            let kept = d.hotpluggable && d.spec is Some && (d.state == SlotState::Present || d.state
                == SlotState::RemovePending);
            &&& replayed(Seq::empty()).len() == 0
            &&& kept ==> replayed(devices.push(d)) == replayed(devices).push(d.spec->0)
            &&& !kept ==> replayed(devices.push(d)) == replayed(devices)
        }),
{
    assert(devices.push(d).drop_last() =~= devices);
}

/// A device that was built and then refused is taken off the bus again: its
/// regions go under a pause, its slot is free behind that, and no record is
/// touched.
pub proof fn refused_device_leaves_the_bus(h: Hot, slot: u8, pci: Option<u64>, started: bool)
    requires
        h.wf(),
        slot < 32,
    ensures
        ({
            let e = undo(slot, pci);
            let (h1, e1, a1) = h.advance(e, EjectEvent::VmPaused(true));
            let (h2, e2, a2) = h1.advance(e1, EjectEvent::RegionsDetached);
            let (h3, e3, a3) = h2.advance(e2, EjectEvent::VmResumed(started));
            &&& a1 == EjectAction::DetachRegions(pci)
            &&& a2 == EjectAction::ResumeVm
            &&& a3 == EjectAction::Nothing
            &&& h3.bus == h.bus.update(slot as int, false)
            &&& h3.devices == h.devices
            &&& h3.regs == h.regs
            &&& e3.phase == EjectPhase::Over
        }),
{
}

/// An event that an eject does not wait for changes nothing.
pub proof fn stray_events_change_nothing(h: Hot, e: Ejecting, event: EjectEvent)
    requires
        e.phase == EjectPhase::Over || (e.phase == EjectPhase::Unplugging && !(event is Unplugged))
            || (e.phase == EjectPhase::Pausing && !(event is VmPaused)) || (e.phase
            == EjectPhase::Detaching && !(event is RegionsDetached)) || (e.phase
            == EjectPhase::Restarting && !(event is VmResumed)) || (e.phase == EjectPhase::Resuming
            && !(event is DeviceResumed)),
    ensures
        h.advance(e, event) == (h, e, EjectAction::Nothing),
{
}

/// What the caller of an add is told: only a device that the engine now shows
/// was added, under its own id; a refusal leaves the engine as it was, says to
/// stop what was built, and to take it off the bus where it answers there.
pub proof fn add_is_all_or_nothing(h: Hot, add: Adding, made: Made, r: AddOutcome, after: Hot)
    requires
        add_comes_to(h, add, made, r, after),
    ensures
        r matches AddOutcome::Added(id) ==> {
            &&& made is Device
            &&& id@ == add.id
            &&& after.devices.len() == h.devices.len() + 1
            &&& after.devices.last().id == add.id
            &&& after.regs.up[add.slot as int] || add.slot >= h.regs.up.len()
        },
        r matches AddOutcome::Refused { error, stop, detach } ==> {
            &&& after == h
            &&& made matches Made::Failed(reason) ==> error@ == HotErr::Create(reason) && stop
                is None && detach is None
            &&& made matches Made::Device(b) ==> stop == b.lifecycle && (detach is Some <==> b.pci
                is Some)
            &&& detach matches Some(e) ==> e@.slot == add.slot && e@.record is None && e@.phase
                == EjectPhase::Pausing
        },
        made matches Made::Device(b) ==> (r is Added <==> h.built_refusal(add, b) is None),
{
}

} // verus!
