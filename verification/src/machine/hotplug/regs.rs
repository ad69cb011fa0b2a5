//! What the guest and the host tell each other about hot-pluggable slots.
//!
//! A guest access only records what the guest asked for. The engines act on
//! it later.

use vstd::prelude::*;

verus! {

/// PCI slots on bus 0.
pub const PCI_SLOTS: usize = 32;

/// `n` flags, all down.
pub open spec fn all_down(n: nat) -> Seq<bool> {
    Seq::new(n, |i: int| false)
}

/// `n` flags, all down.
pub fn flags_down(n: usize) -> (r: Vec<bool>)
    ensures
        r@ == all_down(n as nat),
{
    let mut r: Vec<bool> = Vec::new();
    let mut i: usize = 0;
    while i < n
        invariant
            i <= n,
            r@ == all_down(i as nat),
        decreases n - i,
    {
        r.push(false);
        i += 1;
        assert(r@ =~= all_down(i as nat));
    }
    r
}

/// The flags that are up, in ascending order.
pub open spec fn raised(flags: Seq<bool>) -> Seq<int>
    decreases flags.len(),
{
    if flags.len() == 0 {
        Seq::empty()
    } else if flags.last() {
        raised(flags.drop_last()).push(flags.len() - 1)
    } else {
        raised(flags.drop_last())
    }
}

/// A flag stands in the list of raised ones exactly while it is up.
pub proof fn raised_are_up(flags: Seq<bool>, i: int)
    ensures
        raised(flags).contains(i) <==> 0 <= i < flags.len() && flags[i],
    decreases flags.len(),
{
    if flags.len() > 0 {
        let before = raised(flags.drop_last());
        raised_are_up(flags.drop_last(), i);
        if flags.last() {
            let all = raised(flags);
            if before.contains(i) {
                let k = choose|k: int| 0 <= k < before.len() && before[k] == i;
                assert(all[k] == i);
            }
            if i == flags.len() - 1 {
                assert(all[all.len() - 1] == i);
            }
            if all.contains(i) && i != flags.len() - 1 {
                let k = choose|k: int| 0 <= k < all.len() && all[k] == i;
                assert(before[k] == i);
            }
        }
    }
}

// ---- PCI -------------------------------------------------------------------

/// The PCI hotplug register file: one bit per slot of bus 0.
pub struct PciHotplug {
    up: Vec<bool>,
    down: Vec<bool>,
    ejectable: Vec<bool>,
    requested: Vec<bool>,
}

/// The register file as both sides see it.
pub ghost struct PciRegs {
    /// The guest has to look for a device here.
    pub up: Seq<bool>,
    /// The guest has to give the device here up.
    pub down: Seq<bool>,
    /// An eject of this slot is accepted.
    pub ejectable: Seq<bool>,
    /// The guest ran an eject that nobody has acted on.
    pub requested: Seq<bool>,
}

impl View for PciHotplug {
    type V = PciRegs;

    closed spec fn view(&self) -> PciRegs {
        PciRegs {
            up: self.up@,
            down: self.down@,
            ejectable: self.ejectable@,
            requested: self.requested@,
        }
    }
}

impl PciRegs {
    pub open spec fn wf(self) -> bool {
        &&& self.up.len() == PCI_SLOTS
        &&& self.down.len() == PCI_SLOTS
        &&& self.ejectable.len() == PCI_SLOTS
        &&& self.requested.len() == PCI_SLOTS
    }

    pub open spec fn fresh() -> PciRegs {
        PciRegs {
            up: all_down(PCI_SLOTS as nat),
            down: all_down(PCI_SLOTS as nat),
            ejectable: all_down(PCI_SLOTS as nat),
            requested: all_down(PCI_SLOTS as nat),
        }
    }

    /// The guest is told that a slot holds a device, which it may eject.
    pub open spec fn added(self, slot: int) -> PciRegs {
        PciRegs {
            up: self.up.update(slot, true),
            ejectable: self.ejectable.update(slot, true),
            ..self
        }
    }

    /// The guest is asked to give a slot's device up.
    pub open spec fn removed(self, slot: int) -> PciRegs {
        PciRegs { down: self.down.update(slot, true), ..self }
    }

    /// The guest ran an eject. A slot that holds nothing ejectable takes none.
    pub open spec fn ejected(self, slot: int) -> PciRegs {
        if self.ejectable[slot] {
            PciRegs { requested: self.requested.update(slot, true), ..self }
        } else {
            self
        }
    }

    /// The requests are taken, and no slot of theirs takes another.
    pub open spec fn taken(self) -> PciRegs {
        PciRegs {
            ejectable: Seq::new(
                self.ejectable.len(),
                |i: int| self.ejectable[i] && !self.requested[i],
            ),
            requested: all_down(PCI_SLOTS as nat),
            ..self
        }
    }
}

impl PciHotplug {
    pub fn new() -> (r: Self)
        ensures
            r@ == PciRegs::fresh(),
            r@.wf(),
    {
        PciHotplug {
            up: flags_down(PCI_SLOTS),
            down: flags_down(PCI_SLOTS),
            ejectable: flags_down(PCI_SLOTS),
            requested: flags_down(PCI_SLOTS),
        }
    }

    /// Tell the guest that `slot` holds a device.
    pub fn notify_added(&mut self, slot: u8)
        requires
            old(self)@.wf(),
            slot < PCI_SLOTS,
        ensures
            final(self)@ == old(self)@.added(slot as int),
            final(self)@.wf(),
    {
        self.up[slot as usize] = true;
        self.ejectable[slot as usize] = true;
    }

    /// Ask the guest to give up what `slot` holds.
    pub fn notify_removed(&mut self, slot: u8)
        requires
            old(self)@.wf(),
            slot < PCI_SLOTS,
        ensures
            final(self)@ == old(self)@.removed(slot as int),
            final(self)@.wf(),
    {
        self.down[slot as usize] = true;
    }

    /// The guest ran an eject of `slot`.
    pub fn guest_ejects(&mut self, slot: u8)
        requires
            old(self)@.wf(),
            slot < PCI_SLOTS,
        ensures
            final(self)@ == old(self)@.ejected(slot as int),
            final(self)@.wf(),
    {
        if self.ejectable[slot as usize] {
            self.requested[slot as usize] = true;
        }
    }

    /// Take every eject the guest has run, in slot order.
    pub fn take_eject_requests(&mut self) -> (r: Vec<u8>)
        requires
            old(self)@.wf(),
        ensures
            final(self)@ == old(self)@.taken(),
            final(self)@.wf(),
            r@.map_values(|s: u8| s as int) == raised(old(self)@.requested),
            forall|i: int| 0 <= i < r@.len() ==> (#[trigger] r@[i]) < PCI_SLOTS,
    {
        let ghost o = self@;
        let mut slots: Vec<u8> = Vec::new();
        let mut i: usize = 0;
        proof {
            assert(slots@.map_values(|s: u8| s as int) =~= raised(o.requested.take(0)));
        }
        while i < PCI_SLOTS
            invariant
                i <= PCI_SLOTS,
                o.wf(),
                o == old(self)@,
                self@.wf(),
                self@.up == o.up,
                self@.down == o.down,
                slots@.map_values(|s: u8| s as int) == raised(o.requested.take(i as int)),
                forall|k: int| 0 <= k < slots@.len() ==> (#[trigger] slots@[k]) < PCI_SLOTS,
                forall|k: int| 0 <= k < i ==> !(#[trigger] self@.requested[k]),
                forall|k: int|
                    0 <= k < i ==> (#[trigger] self@.ejectable[k]) == (o.ejectable[k]
                        && !o.requested[k]),
                forall|k: int|
                    i <= k < PCI_SLOTS ==> (#[trigger] self@.requested[k]) == o.requested[k],
                forall|k: int|
                    i <= k < PCI_SLOTS ==> (#[trigger] self@.ejectable[k]) == o.ejectable[k],
            decreases PCI_SLOTS - i,
        {
            let ghost before = slots@.map_values(|s: u8| s as int);
            proof {
                assert(o.requested.take(i + 1).drop_last() =~= o.requested.take(i as int));
                assert(o.requested.take(i + 1).last() == o.requested[i as int]);
            }
            if self.requested[i] {
                slots.push(i as u8);
                assert(slots@.map_values(|s: u8| s as int) =~= before.push(i as int));
                self.requested[i] = false;
                self.ejectable[i] = false;
            }
            i += 1;
        }
        proof {
            assert(o.requested.take(PCI_SLOTS as int) =~= o.requested);
            assert(self@.requested =~= o.taken().requested);
            assert(self@.ejectable =~= o.taken().ejectable);
        }
        slots
    }

    pub fn is_up(&self, slot: u8) -> (r: bool)
        requires
            self@.wf(),
            slot < PCI_SLOTS,
        ensures
            r == self@.up[slot as int],
    {
        self.up[slot as usize]
    }

    pub fn is_down(&self, slot: u8) -> (r: bool)
        requires
            self@.wf(),
            slot < PCI_SLOTS,
        ensures
            r == self@.down[slot as int],
    {
        self.down[slot as usize]
    }

    pub fn is_ejectable(&self, slot: u8) -> (r: bool)
        requires
            self@.wf(),
            slot < PCI_SLOTS,
        ensures
            r == self@.ejectable[slot as int],
    {
        self.ejectable[slot as usize]
    }
}

// ---- CPU -------------------------------------------------------------------

/// The CPU hotplug register file: the state of every CPU slot the tables
/// describe.
pub struct CpuHotplug {
    enabled: Vec<bool>,
    inserting: Vec<bool>,
    leaving: Vec<bool>,
    requested: Vec<bool>,
    /// How often the guest was told to look.
    events: u64,
}

/// The register file as both sides see it.
pub ghost struct CpuRegs {
    /// The guest reads the CPU as present.
    pub enabled: Seq<bool>,
    /// The guest has to bring the CPU up.
    pub inserting: Seq<bool>,
    /// The host asked for the CPU.
    pub leaving: Seq<bool>,
    /// The guest ran an eject that nobody has answered.
    pub requested: Seq<bool>,
    pub events: nat,
}

impl View for CpuHotplug {
    type V = CpuRegs;

    closed spec fn view(&self) -> CpuRegs {
        CpuRegs {
            enabled: self.enabled@,
            inserting: self.inserting@,
            leaving: self.leaving@,
            requested: self.requested@,
            events: self.events as nat,
        }
    }
}

impl CpuRegs {
    pub open spec fn slots(self) -> nat {
        self.enabled.len()
    }

    pub open spec fn wf(self) -> bool {
        &&& self.inserting.len() == self.slots()
        &&& self.leaving.len() == self.slots()
        &&& self.requested.len() == self.slots()
    }

    /// One event more. The count stays at its end.
    pub open spec fn raised(self) -> CpuRegs {
        CpuRegs {
            events: if self.events < u64::MAX {
                self.events + 1
            } else {
                self.events
            },
            ..self
        }
    }

    /// The guest is told that a slot holds a CPU. A slot the file does not
    /// have tells it nothing.
    pub open spec fn added(self, id: int) -> CpuRegs {
        if id < self.slots() {
            CpuRegs {
                enabled: self.enabled.update(id, true),
                inserting: self.inserting.update(id, true),
                leaving: self.leaving.update(id, false),
                ..self
            }.raised()
        } else {
            self
        }
    }

    /// The guest is asked to give a CPU up.
    pub open spec fn removed(self, id: int) -> CpuRegs {
        if id < self.slots() {
            CpuRegs { leaving: self.leaving.update(id, true), ..self }.raised()
        } else {
            self
        }
    }

    /// The guest ran an eject. Only a CPU that the host asked for goes.
    pub open spec fn ejected(self, id: int) -> CpuRegs {
        if id < self.slots() && self.enabled[id] && self.leaving[id] {
            CpuRegs {
                enabled: self.enabled.update(id, false),
                requested: self.requested.update(id, true),
                ..self
            }
        } else {
            self
        }
    }

    pub open spec fn taken(self) -> CpuRegs {
        CpuRegs { requested: all_down(self.slots()), ..self }
    }
}

impl CpuHotplug {
    /// A register file of `slots` slots, all empty.
    pub fn new(slots: u32) -> (r: Self)
        ensures
            r@ == (CpuRegs {
                enabled: all_down(slots as nat),
                inserting: all_down(slots as nat),
                leaving: all_down(slots as nat),
                requested: all_down(slots as nat),
                events: 0,
            }),
            r@.wf(),
    {
        CpuHotplug {
            enabled: flags_down(slots as usize),
            inserting: flags_down(slots as usize),
            leaving: flags_down(slots as usize),
            requested: flags_down(slots as usize),
            events: 0,
        }
    }

    /// Mark the CPUs the VM boots with. No event comes of it: a boot CPU was
    /// never inserted.
    pub fn set_boot_cpus(&mut self, boot: u32)
        requires
            old(self)@.wf(),
        ensures
            final(self)@.wf(),
            final(self)@ == (CpuRegs {
                enabled: Seq::new(
                    old(self)@.slots(),
                    |i: int| i < boot || old(self)@.enabled[i],
                ),
                ..old(self)@
            }),
    {
        let ghost o = self@;
        let mut i: usize = 0;
        while i < self.enabled.len() && i < boot as usize
            invariant
                i <= o.slots(),
                i <= boot,
                o == old(self)@,
                o.wf(),
                self@ == (CpuRegs { enabled: self@.enabled, ..o }),
                self@.enabled.len() == o.slots(),
                forall|k: int| 0 <= k < i ==> #[trigger] self@.enabled[k],
                forall|k: int|
                    i <= k < o.slots() ==> (#[trigger] self@.enabled[k]) == o.enabled[k],
            decreases o.slots() - i,
        {
            self.enabled[i] = true;
            i += 1;
        }
        proof {
            assert(self@.enabled =~= Seq::new(o.slots(), |k: int| k < boot || o.enabled[k]));
        }
    }

    fn raise(&mut self)
        ensures
            final(self)@ == old(self)@.raised(),
    {
        if self.events < u64::MAX {
            self.events = self.events + 1;
        }
    }

    /// Tell the guest that slot `id` holds a CPU.
    pub fn notify_added(&mut self, id: u32)
        requires
            old(self)@.wf(),
        ensures
            final(self)@ == old(self)@.added(id as int),
            final(self)@.wf(),
    {
        let i: usize = id as usize;
        if i < self.enabled.len() {
            self.enabled[i] = true;
            self.inserting[i] = true;
            self.leaving[i] = false;
            self.raise();
        }
    }

    /// Ask the guest to give the CPU in slot `id` up.
    pub fn notify_removed(&mut self, id: u32)
        requires
            old(self)@.wf(),
        ensures
            final(self)@ == old(self)@.removed(id as int),
            final(self)@.wf(),
    {
        let i: usize = id as usize;
        if i < self.enabled.len() {
            self.leaving[i] = true;
            self.raise();
        }
    }

    /// The guest ran an eject of slot `id`.
    pub fn guest_ejects(&mut self, id: u32)
        requires
            old(self)@.wf(),
        ensures
            final(self)@ == old(self)@.ejected(id as int),
            final(self)@.wf(),
    {
        let i: usize = id as usize;
        if i < self.enabled.len() && self.enabled[i] && self.leaving[i] {
            self.enabled[i] = false;
            self.requested[i] = true;
        }
    }

    /// Take every eject the guest has run, in slot order.
    pub fn take_eject_requests(&mut self) -> (r: Vec<u32>)
        requires
            old(self)@.wf(),
            old(self)@.slots() <= u32::MAX,
        ensures
            final(self)@ == old(self)@.taken(),
            final(self)@.wf(),
            r@.map_values(|s: u32| s as int) == raised(old(self)@.requested),
    {
        let ghost o = self@;
        let n: usize = self.requested.len();
        let mut ids: Vec<u32> = Vec::new();
        let mut i: usize = 0;
        proof {
            assert(ids@.map_values(|s: u32| s as int) =~= raised(o.requested.take(0)));
        }
        while i < n
            invariant
                i <= n,
                n == o.slots(),
                n <= u32::MAX,
                o.wf(),
                o == old(self)@,
                self@ == (CpuRegs { requested: self@.requested, ..o }),
                self@.requested.len() == n,
                ids@.map_values(|s: u32| s as int) == raised(o.requested.take(i as int)),
                forall|k: int| 0 <= k < i ==> !(#[trigger] self@.requested[k]),
                forall|k: int| i <= k < n ==> (#[trigger] self@.requested[k]) == o.requested[k],
            decreases n - i,
        {
            let ghost before = ids@.map_values(|s: u32| s as int);
            proof {
                assert(o.requested.take(i + 1).drop_last() =~= o.requested.take(i as int));
                assert(o.requested.take(i + 1).last() == o.requested[i as int]);
            }
            if self.requested[i] {
                ids.push(i as u32);
                assert(ids@.map_values(|s: u32| s as int) =~= before.push(i as int));
                self.requested[i] = false;
            }
            i += 1;
        }
        proof {
            assert(o.requested.take(n as int) =~= o.requested);
            assert(self@.requested =~= all_down(o.slots()));
        }
        ids
    }

    pub fn is_enabled(&self, id: u32) -> (r: bool)
        ensures
            r == (id < self@.slots() && self@.enabled[id as int]),
    {
        (id as usize) < self.enabled.len() && self.enabled[id as usize]
    }

    pub fn is_inserting(&self, id: u32) -> (r: bool)
        requires
            self@.wf(),
        ensures
            r == (id < self@.slots() && self@.inserting[id as int]),
    {
        (id as usize) < self.inserting.len() && self.inserting[id as usize]
    }

    /// How many slots the file describes.
    pub fn slots(&self) -> (r: usize)
        ensures
            r == self@.slots(),
    {
        self.enabled.len()
    }

    /// How often the guest was told to look.
    pub fn events(&self) -> (r: u64)
        ensures
            r == self@.events,
    {
        self.events
    }
}

// ---- Memory ----------------------------------------------------------------

/// One memory slot as the guest reads it.
#[derive(Debug, Clone, Copy, PartialEq, Eq, Structural)]
pub struct MemSlot {
    pub base: u64,
    pub len: u64,
    pub enabled: bool,
    pub inserting: bool,
    /// The guest ran an eject that nobody has answered.
    pub requested: bool,
}

/// An empty slot.
pub open spec fn empty_mem_slot() -> MemSlot {
    MemSlot { base: 0, len: 0, enabled: false, inserting: false, requested: false }
}

/// The memory hotplug register file.
pub struct MemHotplug {
    slots: Vec<MemSlot>,
    /// How often the guest was told to look.
    events: u64,
}

/// The register file as both sides see it.
pub ghost struct MemRegs {
    pub slots: Seq<MemSlot>,
    pub events: nat,
}

impl View for MemHotplug {
    type V = MemRegs;

    closed spec fn view(&self) -> MemRegs {
        MemRegs { slots: self.slots@, events: self.events as nat }
    }
}

impl MemRegs {
    /// Where the memory of a slot lies.
    pub open spec fn filled(self, slot: int, base: u64, len: u64) -> MemRegs {
        MemRegs {
            slots: self.slots.update(slot, MemSlot { base, len, enabled: true, ..self.slots[slot] }),
            ..self
        }
    }

    /// The guest is told to look at a slot.
    pub open spec fn added(self, slot: int) -> MemRegs {
        MemRegs {
            slots: self.slots.update(slot, MemSlot { inserting: true, ..self.slots[slot] }),
            events: if self.events < u64::MAX {
                self.events + 1
            } else {
                self.events
            },
        }
    }

    /// The guest ran an eject of an enabled slot.
    pub open spec fn ejected(self, slot: int) -> MemRegs {
        if slot < self.slots.len() && self.slots[slot].enabled {
            MemRegs {
                slots: self.slots.update(slot, MemSlot { requested: true, ..self.slots[slot] }),
                ..self
            }
        } else {
            self
        }
    }

    /// Every request dropped.
    pub open spec fn refused(self) -> MemRegs {
        MemRegs {
            slots: self.slots.map_values(|s: MemSlot| MemSlot { requested: false, ..s }),
            ..self
        }
    }
}

impl MemHotplug {
    /// A register file of `n` empty slots.
    pub fn new(n: usize) -> (r: Self)
        ensures
            r@ == (MemRegs { slots: Seq::new(n as nat, |i: int| empty_mem_slot()), events: 0 }),
    {
        let mut slots: Vec<MemSlot> = Vec::new();
        let mut i: usize = 0;
        while i < n
            invariant
                i <= n,
                slots@ == Seq::new(i as nat, |k: int| empty_mem_slot()),
            decreases n - i,
        {
            slots.push(
                MemSlot { base: 0, len: 0, enabled: false, inserting: false, requested: false },
            );
            i += 1;
            assert(slots@ =~= Seq::new(i as nat, |k: int| empty_mem_slot()));
        }
        MemHotplug { slots, events: 0 }
    }

    pub fn slots(&self) -> (r: usize)
        ensures
            r == self@.slots.len(),
    {
        self.slots.len()
    }

    /// Say where the memory of a slot lies. False where there is no such
    /// slot.
    pub fn set_slot(&mut self, slot: usize, base: u64, len: u64) -> (ok: bool)
        ensures
            ok == (slot < old(self)@.slots.len()),
            final(self)@ == if ok {
                old(self)@.filled(slot as int, base, len)
            } else {
                old(self)@
            },
    {
        if slot >= self.slots.len() {
            return false;
        }
        let s = self.slots[slot];
        self.slots[slot] = MemSlot {
            base,
            len,
            enabled: true,
            inserting: s.inserting,
            requested: s.requested,
        };
        true
    }

    /// Tell the guest to look at a slot.
    pub fn notify_added(&mut self, slot: usize)
        requires
            slot < old(self)@.slots.len(),
        ensures
            final(self)@ == old(self)@.added(slot as int),
    {
        let s = self.slots[slot];
        self.slots[slot] = MemSlot {
            base: s.base,
            len: s.len,
            enabled: s.enabled,
            inserting: true,
            requested: s.requested,
        };
        if self.events < u64::MAX {
            self.events = self.events + 1;
        }
    }

    /// The guest ran an eject.
    pub fn guest_ejects(&mut self, slot: usize)
        ensures
            final(self)@ == old(self)@.ejected(slot as int),
    {
        if slot < self.slots.len() {
            let s = self.slots[slot];
            if s.enabled {
                self.slots[slot] = MemSlot {
                    base: s.base,
                    len: s.len,
                    enabled: s.enabled,
                    inserting: s.inserting,
                    requested: true,
                };
            }
        }
    }

    /// Drop every eject the guest has run.
    pub fn refuse_ejects(&mut self)
        ensures
            final(self)@ == old(self)@.refused(),
    {
        let ghost o = self@;
        let n: usize = self.slots.len();
        let mut i: usize = 0;
        while i < n
            invariant
                i <= n,
                n == o.slots.len(),
                o == old(self)@,
                self@.events == o.events,
                self@.slots.len() == n,
                forall|k: int|
                    0 <= k < i ==> (#[trigger] self@.slots[k]) == (MemSlot {
                        requested: false,
                        ..o.slots[k]
                    }),
                forall|k: int| i <= k < n ==> (#[trigger] self@.slots[k]) == o.slots[k],
            decreases n - i,
        {
            let s = self.slots[i];
            self.slots[i] = MemSlot {
                base: s.base,
                len: s.len,
                enabled: s.enabled,
                inserting: s.inserting,
                requested: false,
            };
            i += 1;
        }
        proof {
            assert(self@.slots =~= o.refused().slots);
        }
    }

    /// One slot as the guest reads it.
    pub fn slot(&self, slot: usize) -> (r: MemSlot)
        requires
            slot < self@.slots.len(),
        ensures
            r == self@.slots[slot as int],
    {
        self.slots[slot]
    }

    /// How often the guest was told to look.
    pub fn events(&self) -> (r: u64)
        ensures
            r == self@.events,
    {
        self.events
    }
}

/// The raised flags are listed in their order, each once.
pub proof fn raised_are_in_order(flags: Seq<bool>)
    ensures
        forall|i: int, j: int|
            0 <= i < j < raised(flags).len() ==> #[trigger] raised(flags)[i] < #[trigger] raised(
                flags,
            )[j],
        forall|i: int| 0 <= i < raised(flags).len() ==> 0 <= #[trigger] raised(flags)[i] < flags.len(),
    decreases flags.len(),
{
    if flags.len() > 0 {
        let before = raised(flags.drop_last());
        raised_are_in_order(flags.drop_last());
        let all = raised(flags);
        assert forall|i: int| 0 <= i < all.len() implies 0 <= #[trigger] all[i] < flags.len() by {
            if i < before.len() {
                assert(all[i] == before[i]);
            }
        }
        assert forall|i: int, j: int| 0 <= i < j < all.len() implies #[trigger] all[i]
            < #[trigger] all[j] by {
            assert(all[i] == before[i]);
            if j < before.len() {
                assert(all[j] == before[j]);
            }
        }
    }
}

/// What happens to a PCI slot shows in its own flags and in no other's: an
/// added device is up and ejectable, one that was asked back is down, an
/// eject counts only where it was offered, and one that was taken is neither
/// pending nor offered any more.
pub proof fn pci_flags_are_the_slots_own(r: PciRegs, slot: int, k: int)
    requires
        r.wf(),
        0 <= slot < 32,
        0 <= k < 32,
    ensures
        ({
            let a = r.added(slot);
            let d = r.removed(slot);
            let e = r.ejected(slot);
            let t = r.taken();
            &&& a.up[k] == (r.up[k] || k == slot)
            &&& a.ejectable[k] == (r.ejectable[k] || k == slot)
            &&& a.down == r.down && a.requested == r.requested
            &&& d.down[k] == (r.down[k] || k == slot)
            &&& d.up == r.up && d.ejectable == r.ejectable && d.requested == r.requested
            &&& e.requested[k] == (r.requested[k] || (k == slot && r.ejectable[slot]))
            &&& e.up == r.up && e.down == r.down && e.ejectable == r.ejectable
            &&& !t.requested[k]
            &&& t.ejectable[k] == (r.ejectable[k] && !r.requested[k])
            &&& t.up == r.up && t.down == r.down
        }),
{
}

/// What happens to a CPU shows in its own flags and in no other's, and the
/// guest is told by one event: an added CPU is present and to be brought up,
/// one that was asked back stays until the guest ejects it, and an eject that
/// nobody asked for takes nothing.
pub proof fn cpu_flags_are_the_cpus_own(r: CpuRegs, id: int, k: int)
    requires
        r.wf(),
        0 <= id < r.slots(),
        0 <= k < r.slots(),
        r.events < u64::MAX,
    ensures
        ({
            let a = r.added(id);
            let d = r.removed(id);
            let e = r.ejected(id);
            let gone = k == id && r.enabled[id] && r.leaving[id];
            &&& a.enabled[k] == (r.enabled[k] || k == id)
            &&& a.inserting[k] == (r.inserting[k] || k == id)
            &&& a.leaving[k] == (r.leaving[k] && k != id)
            &&& a.requested == r.requested
            &&& a.events == r.events + 1
            &&& d.leaving[k] == (r.leaving[k] || k == id)
            &&& d.enabled == r.enabled && d.inserting == r.inserting && d.requested == r.requested
            &&& d.events == r.events + 1
            &&& e.enabled[k] == (r.enabled[k] && !gone)
            &&& e.requested[k] == (r.requested[k] || gone)
            &&& e.leaving == r.leaving && e.inserting == r.inserting && e.events == r.events
            &&& !r.taken().requested[k]
            &&& r.taken().enabled == r.enabled
        }),
{
}

/// An id past the last slot is nobody's.
pub proof fn cpus_past_the_slots_are_ignored(r: CpuRegs, id: int)
    requires
        id >= r.slots(),
    ensures
        r.added(id) == r,
        r.removed(id) == r,
        r.ejected(id) == r,
{
}

/// A memory slot reads what it was filled with. An eject is noted where the
/// slot is present, changes nothing of what it reads, and is forgotten when
/// ejects are refused.
pub proof fn memory_slots_keep_their_range(r: MemRegs, slot: int, base: u64, len: u64, k: int)
    requires
        0 <= slot < r.slots.len(),
        0 <= k < r.slots.len(),
    ensures
        ({
            let f = r.filled(slot, base, len);
            let e = r.ejected(slot);
            let n = r.refused();
            &&& f.slots[slot].base == base && f.slots[slot].len == len && f.slots[slot].enabled
            &&& f.events == r.events
            &&& k != slot ==> f.slots[k] == r.slots[k] && e.slots[k] == r.slots[k]
            &&& e.slots[slot] == (MemSlot {
                requested: r.slots[slot].requested || r.slots[slot].enabled,
                ..r.slots[slot]
            })
            &&& n.slots[k] == (MemSlot { requested: false, ..r.slots[k] })
            &&& e.events == r.events && n.events == r.events
        }),
{
}

/// A fresh register file shows the guest nothing to do and no memory.
pub proof fn fresh_registers_are_quiet(k: int)
    requires
        0 <= k < 32,
    ensures
        PciRegs::fresh().wf(),
        !PciRegs::fresh().up[k] && !PciRegs::fresh().down[k],
        !PciRegs::fresh().ejectable[k] && !PciRegs::fresh().requested[k],
        empty_mem_slot().base == 0 && empty_mem_slot().len == 0,
        !empty_mem_slot().enabled && !empty_mem_slot().inserting && !empty_mem_slot().requested,
{
}

/// An eject past the last memory slot is nobody's.
pub proof fn ejects_past_the_slots_are_ignored(r: MemRegs, slot: int)
    requires
        slot >= r.slots.len(),
    ensures
        r.ejected(slot) == r,
{
}

} // verus!
