//! What a control plane reports about the machine's CPU and memory
//! slots, and why it refuses what it refuses.
//!
//! The facts are computed here once. Each control plane serialises
//! them its own way.

use std::collections::BTreeSet;

use vstd::prelude::*;

use super::hotplug::cpu::{CpuOnline, CpuSlots};
use super::hotplug::mem::{MemHotplugEngine, MemWindow};
use crate::text::owned;

verus! {

/// Why a CPU request was refused on a VM with no CPU slots.
///
/// Two starts give a VM no engine: no `--hotplug`, and a `maxcpus` that
/// is not above the boot count. The answer names both, because the
/// operator has to fix whichever one applies.
pub const CPU_HOTPLUG_OFF: &'static str = "CPU hot-add needs --hotplug and -c cpus=N,maxcpus=M";

/// The same for memory.
pub const MEM_HOTPLUG_OFF: &'static str = "memory hot-add needs --hotplug and -o hotplug.maxmem=SIZE";

/// Why `cpu-remove` cannot exist on this platform.
pub const NO_CPU_REMOVE: &'static str =
    "cpu-remove is not supported: illumos has no vm_deactivate_cpu, so an active vCPU cannot be taken back";

/// Why `mem-remove` cannot exist on this platform.
pub const NO_MEM_REMOVE: &'static str =
    "mem-remove is not supported: illumos has no VM_FREE_MEMSEG, so a memory segment lives until the VM does";

/// What one CPU slot holds.
#[derive(Clone, Copy, Debug, PartialEq, Eq, Structural)]
pub enum CpuSlotState {
    /// A CPU is online in it.
    Present,
    /// Empty, and a hot-add may fill it.
    Absent,
    /// A failed add spent the id, so the slot can never be filled.
    Consumed,
}

impl CpuSlotState {
    pub open spec fn spec_text(self) -> Seq<char> {
        match self {
            CpuSlotState::Present => "present"@,
            CpuSlotState::Absent => "absent"@,
            CpuSlotState::Consumed => "consumed"@,
        }
    }

    pub fn to_text(&self) -> (r: String)
        ensures
            r@ == self.spec_text(),
    {
        match self {
            CpuSlotState::Present => owned("present"),
            CpuSlotState::Absent => owned("absent"),
            CpuSlotState::Consumed => owned("consumed"),
        }
    }
}

/// Whether a slot was filled at boot or is one a hot-add may fill.
#[derive(Clone, Copy, Debug, PartialEq, Eq, Structural)]
pub enum CpuKind {
    Boot,
    Hotplug,
}

impl CpuKind {
    pub open spec fn spec_text(self) -> Seq<char> {
        match self {
            CpuKind::Boot => "boot"@,
            CpuKind::Hotplug => "hotplug"@,
        }
    }

    pub fn to_text(&self) -> (r: String)
        ensures
            r@ == self.spec_text(),
    {
        match self {
            CpuKind::Boot => owned("boot"),
            CpuKind::Hotplug => owned("hotplug"),
        }
    }
}

#[derive(Clone, Copy, Debug, PartialEq, Eq, Structural)]
pub struct CpuSlot {
    pub id: u32,
    pub state: CpuSlotState,
    pub kind: CpuKind,
}

/// Every CPU slot the machine has, with the state of each.
///
/// Every slot the tables describe is listed, whether or not this VM can
/// fill it: hiding the spare slots would contradict what the guest
/// reads. `hotplug` is what says whether `cpu-add` can work.
#[derive(Debug)]
pub struct CpuInventory {
    pub boot_cpus: u32,
    pub max_cpus: u32,
    pub hotplug: bool,
    pub slots: Vec<CpuSlot>,
}

/// The slot of one CPU, where the ids of `consumed` are spent and `online`
/// says whether it runs.
pub open spec fn slot_of(id: u32, boot_cpus: u32, consumed: Set<u32>, online: bool) -> CpuSlot {
    CpuSlot {
        id,
        state: if consumed.contains(id) {
            CpuSlotState::Consumed
        } else if online {
            CpuSlotState::Present
        } else {
            CpuSlotState::Absent
        },
        kind: if id < boot_cpus {
            CpuKind::Boot
        } else {
            CpuKind::Hotplug
        },
    }
}

/// The slots of a machine, one for every id below its CPU count, in order.
pub open spec fn slots_of(boot_cpus: u32, consumed: Set<u32>, online: Seq<bool>) -> Seq<CpuSlot> {
    Seq::new(online.len(), |id: int| slot_of(id as u32, boot_cpus, consumed, online[id]))
}

/// The CPUs that run in a machine without an engine: those it booted with.
pub open spec fn boot_online(boot_cpus: u32, max_cpus: u32) -> Seq<bool> {
    Seq::new(max_cpus as nat, |id: int| id < boot_cpus)
}

fn set_of(ids: &Vec<u32>) -> (r: BTreeSet<u32>)
    ensures
        r@ == ids@.to_set(),
{
    broadcast use vstd::std_specs::btree::group_btree_axioms;

    let mut r: BTreeSet<u32> = BTreeSet::new();
    let mut i: usize = 0;
    assert(ids@.take(0).to_set() =~= Set::<u32>::empty());
    while i < ids.len()
        invariant
            i <= ids@.len(),
            r@ == ids@.take(i as int).to_set(),
        decreases ids@.len() - i,
    {
        r.insert(ids[i]);
        proof {
            let before = ids@.take(i as int);
            assert(ids@.take(i + 1) =~= before.push(ids@[i as int]));
            before.lemma_push_to_set_commute(ids@[i as int]);
        }
        i += 1;
    }
    assert(ids@.take(i as int) =~= ids@);
    r
}

/// The slot of one CPU.
pub fn cpu_slot(id: u32, boot_cpus: u32, consumed: &BTreeSet<u32>, online: bool) -> (r: CpuSlot)
    ensures
        r == slot_of(id, boot_cpus, consumed@, online),
{
    broadcast use vstd::std_specs::btree::group_btree_axioms;

    let state = if consumed.contains(&id) {
        CpuSlotState::Consumed
    } else if online {
        CpuSlotState::Present
    } else {
        CpuSlotState::Absent
    };
    let kind = if id < boot_cpus {
        CpuKind::Boot
    } else {
        CpuKind::Hotplug
    };
    CpuSlot { id, state, kind }
}

/// The CPU slots, from the engine when the VM has one and from the
/// boot counts otherwise.
///
/// With an engine its counts are the ones an add is checked against, and the
/// machine says of each CPU whether it runs. Of a spent id it is not asked.
pub fn cpu_inventory<C: CpuOnline>(
    boot_cpus: u32,
    max_cpus: u32,
    cpus: Option<&CpuSlots<C>>,
) -> (r: CpuInventory)
    requires
        cpus matches Some(c) ==> c.wf(),
    ensures
        r.hotplug == (cpus is Some),
        cpus is None ==> r.boot_cpus == boot_cpus && r.max_cpus == max_cpus && r.slots@ == slots_of(
            boot_cpus,
            Set::empty(),
            boot_online(boot_cpus, max_cpus),
        ),
        cpus matches Some(c) ==> call_ensures(C::boot_cpus, (&c.cpus(),), r.boot_cpus)
            && call_ensures(C::possible_cpus, (&c.cpus(),), r.max_cpus) && exists|online: Seq<bool>|
            {
                &&& online.len() == r.max_cpus
                &&& forall|id: int|
                    0 <= id < online.len() && !c.hot().consumed.contains(
                        id as u32,
                    ) ==> call_ensures(
                        C::is_online,
                        (&c.cpus(), id as u32),
                        #[trigger] online[id],
                    )
                &&& r.slots@ == #[trigger] slots_of(r.boot_cpus, c.hot().consumed, online)
            },
{
    broadcast use vstd::std_specs::btree::group_btree_axioms;

    let max: u32 = match cpus {
        Some(c) => c.max_cpus(),
        None => max_cpus,
    };
    let boot: u32 = match cpus {
        Some(c) => c.boot_cpus(),
        None => boot_cpus,
    };
    let consumed: BTreeSet<u32> = match cpus {
        Some(c) => set_of(&c.consumed()),
        None => BTreeSet::new(),
    };
    let ghost spent = match cpus {
        Some(c) => c.hot().consumed,
        None => Set::<u32>::empty(),
    };
    assert(consumed@ =~= spent);
    let mut slots: Vec<CpuSlot> = Vec::new();
    let ghost mut online: Seq<bool> = Seq::empty();
    let mut id: u32 = 0;
    while id < max
        invariant
            id <= max,
            consumed@ == spent,
            spent == match cpus {
                Some(c) => c.hot().consumed,
                None => Set::<u32>::empty(),
            },
            cpus matches Some(c) ==> c.wf(),
            online.len() == id,
            cpus is None ==> online == boot_online(boot, id),
            cpus matches Some(c) ==> forall|k: int|
                0 <= k < id && !spent.contains(k as u32) ==> call_ensures(
                    C::is_online,
                    (&c.cpus(), k as u32),
                    #[trigger] online[k],
                ),
            slots@ == slots_of(boot, spent, online),
        decreases max - id,
    {
        let runs = match cpus {
            Some(c) => !consumed.contains(&id) && c.is_online(id),
            None => id < boot,
        };
        slots.push(cpu_slot(id, boot, &consumed, runs));
        proof {
            let before = online;
            online = online.push(runs);
            assert(slots@ =~= slots_of(boot, spent, online));
            if cpus is None {
                assert(online =~= boot_online(boot, (id + 1) as u32));
            }
        }
        id += 1;
    }
    CpuInventory { boot_cpus: boot, max_cpus: max, hotplug: cpus.is_some(), slots }
}

/// What `mem-list` says about the hot-add window.
#[derive(Clone, Copy, Debug, PartialEq, Eq, Structural)]
pub struct MemWindowReport {
    pub base: u64,
    pub bytes: u64,
    pub slot_bytes: u64,
    pub slots: usize,
    pub slots_used: usize,
    pub added_bytes: u64,
}

/// The report on a window of which `slots_used` slots hold `added_bytes`.
pub open spec fn report_of(w: MemWindow, slots_used: usize, added_bytes: u64) -> MemWindowReport {
    MemWindowReport {
        base: w.spec_base(),
        bytes: w.spec_size(),
        slot_bytes: w.spec_slot_size(),
        slots: w.spec_slots() as usize,
        slots_used,
        added_bytes,
    }
}

impl MemWindowReport {
    pub fn new(window: &MemWindow, slots_used: usize, added_bytes: u64) -> (r: Self)
        ensures
            r == report_of(*window, slots_used, added_bytes),
    {
        MemWindowReport {
            base: window.base(),
            bytes: window.size(),
            slot_bytes: window.slot_size(),
            slots: window.slots(),
            slots_used,
            added_bytes,
        }
    }

    pub fn of(engine: &MemHotplugEngine) -> (r: Self)
        ensures
            r == report_of(engine@.window, engine@.next_slot as usize, engine@.used),
    {
        MemWindowReport::new(&engine.window(), engine.slots_used(), engine.bytes_added())
    }
}

/// Every slot is listed once, under its own id, and a spent one as spent
/// whether or not its CPU runs.
pub proof fn every_slot_is_listed(
    boot_cpus: u32,
    consumed: Set<u32>,
    online: Seq<bool>,
    id: u32,
)
    requires
        id < online.len(),
    ensures
        ({
            let s = slots_of(boot_cpus, consumed, online);
            &&& s.len() == online.len()
            &&& s[id as int].id == id
            &&& consumed.contains(id) ==> s[id as int].state == CpuSlotState::Consumed
        }),
{
}

/// What a listed slot says: spent where the id is, else present exactly where
/// its CPU runs; and of the boot exactly below the boot count. Without an
/// engine the CPUs of the boot run and no others.
pub proof fn slots_say_what_they_hold(
    boot_cpus: u32,
    max_cpus: u32,
    consumed: Set<u32>,
    online: Seq<bool>,
    id: u32,
)
    requires
        id < online.len(),
    ensures
        ({
            let s = slots_of(boot_cpus, consumed, online)[id as int];
            &&& s.state == CpuSlotState::Present <==> online[id as int] && !consumed.contains(id)
            &&& s.state == CpuSlotState::Absent <==> !online[id as int] && !consumed.contains(id)
            &&& s.kind == CpuKind::Boot <==> id < boot_cpus
        }),
        boot_online(boot_cpus, max_cpus).len() == max_cpus,
        id < max_cpus ==> boot_online(boot_cpus, max_cpus)[id as int] == (id < boot_cpus),
{
}

/// The report repeats the window's own numbers, each in its place.
pub proof fn report_repeats_the_window(w: MemWindow, slots_used: usize, added_bytes: u64)
    ensures
        ({
            let r = report_of(w, slots_used, added_bytes);
            &&& r.base == w.spec_base()
            &&& r.bytes == w.spec_size()
            &&& r.slot_bytes == w.spec_slot_size()
            &&& 0 <= w.spec_slots() <= usize::MAX ==> r.slots == w.spec_slots()
            &&& r.slots_used == slots_used
            &&& r.added_bytes == added_bytes
        }),
{
}

} // verus!
