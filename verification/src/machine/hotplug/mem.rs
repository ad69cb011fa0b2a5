//! Memory hot-add.
//!
//! The kernel cannot free a memory segment, so this is add only. Each add gets
//! a segment of its own, sized to what the operator asked for, so the host
//! pays only for memory the guest really has. The price is the segment count:
//! one VM gets five, and boot spends some of them.
//!
//! Every eject the guest asks for is refused.

use vstd::prelude::*;
use vstd::string::*;

use super::regs::{MemHotplug, MemRegs};
use crate::text::{append_decimal, append_hex, append_signed, decimal, hex, owned, signed};

verus! {

/// Guest page size. A mapping the kernel accepts is a whole number of
/// these.
pub const PAGE_SIZE: u64 = 4096;

/// Default size of one hot-add slot.
///
/// Linux uses 128 MiB memory blocks on x86-64 and will not online a
/// part of one, so a smaller slot would give the guest memory it cannot
/// use.
pub const DEFAULT_SLOT_SIZE: u64 = 0x800_0000;

/// Memory slots that the register file and the tables describe.
pub const MAX_SLOTS: usize = 8;

/// Kernel memory segments that one VM has.
pub const VM_MAX_MEMSEGS: i32 = 5;

/// Where low RAM ends and the 32-bit MMIO hole begins.
pub const MMIO_HOLE_BASE: u64 = 0xC000_0000;

/// Where the MMIO hole ends.
pub const MMIO_HOLE_END: u64 = 0x1_0000_0000;

/// What is wrong with a window.
#[derive(Debug, Clone, Copy, PartialEq, Eq, Structural)]
pub enum WindowFault {
    /// The slot size is not a whole number of pages.
    SlotSize { slot_size: u64 },
    /// The size is not a whole number of slots.
    Size { size: u64, slot_size: u64 },
    /// The base is not page aligned.
    Base { base: u64 },
    /// The base is below the end of the MMIO hole.
    BelowHole { base: u64 },
    /// The window runs off the address space.
    OffTheEnd { base: u64, size: u64 },
    /// A slot size of 0 describes no memory.
    NoSlotSize,
    /// The RAM leaves no window.
    NoRoom { mem_size: u64 },
    /// The window does not divide into slots of that size.
    NotDivided { max_mem: u64, slot_size: u64 },
    /// The window needs more slots than the guest has; a larger slot size
    /// needs fewer.
    TooManySlots { max_mem: u64, slot_size: u64, slots: u64 },
}

impl WindowFault {
    pub open spec fn spec_text(self) -> Seq<char> {
        match self {
            WindowFault::SlotSize { slot_size } => "slot size "@ + hex(slot_size as nat)
                + " is not page sized"@,
            WindowFault::Size { size, slot_size } => "size "@ + hex(size as nat)
                + " is not a multiple of the "@ + hex(slot_size as nat) + " slot"@,
            WindowFault::Base { base } => "base "@ + hex(base as nat) + " is not page aligned"@,
            WindowFault::BelowHole { base } => "base "@ + hex(base as nat) + " is below the "@
                + hex(MMIO_HOLE_END as nat) + " line"@,
            WindowFault::OffTheEnd { base, size } => "["@ + hex(base as nat) + ", +"@ + hex(
                size as nat,
            ) + ") runs off the address space"@,
            WindowFault::NoSlotSize => "a slot size of 0 describes no memory"@,
            WindowFault::NoRoom { mem_size } => decimal(mem_size as nat)
                + " bytes of RAM leaves no window"@,
            WindowFault::NotDivided { max_mem, slot_size } => "a window of "@ + hex(max_mem as nat)
                + " does not divide into "@ + hex(slot_size as nat) + " slots"@,
            WindowFault::TooManySlots { max_mem, slot_size, slots } => "a "@ + hex(max_mem as nat)
                + " window of "@ + hex(slot_size as nat) + " slots needs "@ + decimal(slots as nat)
                + " slots, and the guest has "@ + decimal(MAX_SLOTS as nat)
                + "; raise the slot size"@,
        }
    }

    fn append_to(&self, r: &mut String)
        ensures
            final(r)@ == old(r)@ + self.spec_text(),
    {
        let ghost o = r@;
        match self {
            WindowFault::SlotSize { slot_size } => {
                r.append("slot size ");
                append_hex(r, *slot_size);
                r.append(" is not page sized");
            },
            WindowFault::Size { size, slot_size } => {
                r.append("size ");
                append_hex(r, *size);
                r.append(" is not a multiple of the ");
                append_hex(r, *slot_size);
                r.append(" slot");
            },
            WindowFault::Base { base } => {
                r.append("base ");
                append_hex(r, *base);
                r.append(" is not page aligned");
            },
            WindowFault::BelowHole { base } => {
                r.append("base ");
                append_hex(r, *base);
                r.append(" is below the ");
                append_hex(r, MMIO_HOLE_END);
                r.append(" line");
            },
            WindowFault::OffTheEnd { base, size } => {
                r.append("[");
                append_hex(r, *base);
                r.append(", +");
                append_hex(r, *size);
                r.append(") runs off the address space");
            },
            WindowFault::NoSlotSize => {
                r.append("a slot size of 0 describes no memory");
            },
            WindowFault::NoRoom { mem_size } => {
                append_decimal(r, *mem_size);
                r.append(" bytes of RAM leaves no window");
            },
            WindowFault::NotDivided { max_mem, slot_size } => {
                r.append("a window of ");
                append_hex(r, *max_mem);
                r.append(" does not divide into ");
                append_hex(r, *slot_size);
                r.append(" slots");
            },
            WindowFault::TooManySlots { max_mem, slot_size, slots } => {
                r.append("a ");
                append_hex(r, *max_mem);
                r.append(" window of ");
                append_hex(r, *slot_size);
                r.append(" slots needs ");
                append_decimal(r, *slots);
                r.append(" slots, and the guest has ");
                append_decimal(r, MAX_SLOTS as u64);
                r.append("; raise the slot size");
            },
        }
        assert(r@ =~= o + self.spec_text());
    }
}

/// Why a memory hot-add was refused.
#[derive(Debug, PartialEq, Eq)]
pub enum MemHotplugError {
    /// The VM was not started with a hot-add window.
    Disabled,
    /// The window an operator asked for cannot be used.
    BadWindow(WindowFault),
    /// An add of no memory.
    EmptyRequest,
    /// Every slot the window describes is full.
    NoSlots { slots: usize },
    /// The window has no room left for this add.
    WindowFull { asked: u64, free: u64 },
    /// The kernel has no memory segment left.
    NoSegment { limit: i32 },
    /// The kernel or the physical map refused the mapping.
    Mapping(String),
    /// The register file refused the slot.
    Registers(String),
    /// The engine is shut down.
    Stopped,
}

impl MemHotplugError {
    pub open spec fn spec_text(self) -> Seq<char> {
        match self {
            MemHotplugError::Disabled => "this VM was not started with a memory window"@,
            MemHotplugError::BadWindow(fault) => "bad memory window: "@ + fault.spec_text(),
            MemHotplugError::EmptyRequest => "an add needs a size"@,
            MemHotplugError::NoSlots { slots } => "all "@ + decimal(slots as nat)
                + " memory slots are full"@,
            MemHotplugError::WindowFull { asked, free } => "the memory window has "@ + hex(
                free as nat,
            ) + " bytes left, not "@ + hex(asked as nat),
            MemHotplugError::NoSegment { limit } => "this VM has spent all "@ + signed(limit as int)
                + " of its kernel memory segments"@,
            MemHotplugError::Mapping(reason) => "cannot map the memory: "@ + reason@,
            MemHotplugError::Registers(reason) => "cannot fill the memory slot: "@ + reason@,
            MemHotplugError::Stopped => "the memory engine is shut down"@,
        }
    }

    /// The error as an operator reads it.
    pub fn to_text(&self) -> (r: String)
        ensures
            r@ == self.spec_text(),
    {
        let mut r = owned("");
        proof {
            reveal_strlit("");
        }
        match self {
            MemHotplugError::Disabled => {
                r.append("this VM was not started with a memory window");
            },
            MemHotplugError::BadWindow(fault) => {
                r.append("bad memory window: ");
                fault.append_to(&mut r);
            },
            MemHotplugError::EmptyRequest => {
                r.append("an add needs a size");
            },
            MemHotplugError::NoSlots { slots } => {
                r.append("all ");
                append_decimal(&mut r, *slots as u64);
                r.append(" memory slots are full");
            },
            MemHotplugError::WindowFull { asked, free } => {
                r.append("the memory window has ");
                append_hex(&mut r, *free);
                r.append(" bytes left, not ");
                append_hex(&mut r, *asked);
            },
            MemHotplugError::NoSegment { limit } => {
                r.append("this VM has spent all ");
                append_signed(&mut r, *limit);
                r.append(" of its kernel memory segments");
            },
            MemHotplugError::Mapping(reason) => {
                r.append("cannot map the memory: ");
                r.append(reason.as_str());
            },
            MemHotplugError::Registers(reason) => {
                r.append("cannot fill the memory slot: ");
                r.append(reason.as_str());
            },
            MemHotplugError::Stopped => {
                r.append("the memory engine is shut down");
            },
        }
        assert(r@ =~= self.spec_text());
        r
    }
}

// ---- The window ------------------------------------------------------------

/// The guest address range hot-added memory is placed in.
///
/// It sits above the 4 GiB line, past every RAM region the VM booted with, so
/// a slot can never land in the 32-bit MMIO hole.
#[derive(Debug, Clone, Copy, PartialEq, Eq, Structural)]
pub struct MemWindow {
    base: u64,
    size: u64,
    slot_size: u64,
}

/// What is wrong with a window, if anything is.
pub open spec fn window_fault(base: u64, size: u64, slot_size: u64) -> Option<WindowFault> {
    if slot_size == 0 || slot_size % 4096 != 0 {
        Some(WindowFault::SlotSize { slot_size })
    } else if size == 0 || size as int % slot_size as int != 0 {
        Some(WindowFault::Size { size, slot_size })
    } else if base % 4096 != 0 {
        Some(WindowFault::Base { base })
    } else if base < MMIO_HOLE_END {
        Some(WindowFault::BelowHole { base })
    } else if base + size > u64::MAX {
        Some(WindowFault::OffTheEnd { base, size })
    } else {
        None
    }
}

/// The least number of slots that hold `bytes`.
pub open spec fn slots_for(bytes: u64, slot_size: u64) -> int {
    (bytes + slot_size - 1) / (slot_size as int)
}

impl MemWindow {
    pub closed spec fn spec_base(self) -> u64 {
        self.base
    }

    pub closed spec fn spec_size(self) -> u64 {
        self.size
    }

    pub closed spec fn spec_slot_size(self) -> u64 {
        self.slot_size
    }

    /// The window can be used.
    #[verifier::type_invariant]
    pub closed spec fn wf(self) -> bool {
        window_fault(self.base, self.size, self.slot_size) is None
    }

    /// A window that can be used has nothing wrong with it.
    pub proof fn no_fault(self)
        requires
            self.wf(),
        ensures
            window_fault(self.spec_base(), self.spec_size(), self.spec_slot_size()) is None,
    {
    }

    /// How many slots the window describes: never more than the register file
    /// has.
    pub open spec fn spec_slots(self) -> int {
        let by_size = self.spec_size() as int / self.spec_slot_size() as int;
        if by_size <= MAX_SLOTS {
            by_size
        } else {
            MAX_SLOTS as int
        }
    }

    /// Describe a window, or say why it cannot be used.
    pub fn new(base: u64, size: u64, slot_size: u64) -> (r: Result<Self, MemHotplugError>)
        ensures
            match r {
                Ok(w) => window_fault(base, size, slot_size) is None && w.wf() && w.spec_base()
                    == base && w.spec_size() == size && w.spec_slot_size() == slot_size,
                Err(e) => window_fault(base, size, slot_size) is Some && e
                    == MemHotplugError::BadWindow(window_fault(base, size, slot_size)->0),
            },
    {
        if slot_size == 0 || slot_size % PAGE_SIZE != 0 {
            return Err(MemHotplugError::BadWindow(WindowFault::SlotSize { slot_size }));
        }
        if size == 0 || size % slot_size != 0 {
            return Err(MemHotplugError::BadWindow(WindowFault::Size { size, slot_size }));
        }
        if base % PAGE_SIZE != 0 {
            return Err(MemHotplugError::BadWindow(WindowFault::Base { base }));
        }
        // Below this line the window would run into the PCI BARs, the
        // APICs or the firmware flash window.
        if base < MMIO_HOLE_END {
            return Err(MemHotplugError::BadWindow(WindowFault::BelowHole { base }));
        }
        if size > u64::MAX - base {
            return Err(MemHotplugError::BadWindow(WindowFault::OffTheEnd { base, size }));
        }
        Ok(MemWindow { base, size, slot_size })
    }

    pub fn base(&self) -> (r: u64)
        ensures
            r == self.spec_base(),
    {
        self.base
    }

    pub fn size(&self) -> (r: u64)
        ensures
            r == self.spec_size(),
    {
        self.size
    }

    pub fn slot_size(&self) -> (r: u64)
        ensures
            r == self.spec_slot_size(),
    {
        self.slot_size
    }

    /// How many slots the window describes.
    ///
    /// Never more than [`MAX_SLOTS`]: the register file has no more,
    /// and the kernel could not back them.
    pub fn slots(&self) -> (r: usize)
        ensures
            r == self.spec_slots(),
            1 <= r <= MAX_SLOTS,
    {
        proof {
            use_type_invariant(self);
            assert(self.size as int / self.slot_size as int >= 1) by (nonlinear_arith)
                requires
                    self.size > 0,
                    self.slot_size > 0,
                    self.size as int % self.slot_size as int == 0,
            ;
        }
        let by_size: u64 = self.size / self.slot_size;
        if by_size <= MAX_SLOTS as u64 {
            by_size as usize
        } else {
            MAX_SLOTS
        }
    }

    /// What a request comes to in whole slots.
    pub open spec fn rounded(self, bytes: u64) -> Result<u64, MemHotplugError> {
        let whole = slots_for(bytes, self.spec_slot_size()) * self.spec_slot_size();
        if bytes == 0 {
            Err(MemHotplugError::EmptyRequest)
        } else if whole > u64::MAX {
            Err(MemHotplugError::WindowFull { asked: bytes, free: self.spec_size() })
        } else {
            Ok(whole as u64)
        }
    }

    /// Round a request up to a whole number of slots.
    pub fn round_up(&self, bytes: u64) -> (r: Result<u64, MemHotplugError>)
        ensures
            r == self.rounded(bytes),
    {
        proof {
            use_type_invariant(self);
        }
        if bytes == 0 {
            return Err(MemHotplugError::EmptyRequest);
        }
        let n: u128 = (bytes as u128 + self.slot_size as u128 - 1) / self.slot_size as u128;
        proof {
            assert(n <= bytes) by (nonlinear_arith)
                requires
                    bytes >= 1,
                    self.slot_size >= 1,
                    n == (bytes + self.slot_size - 1) / (self.slot_size as int),
            ;
            assert(n * self.slot_size <= 0xFFFF_FFFF_FFFF_FFFF * 0xFFFF_FFFF_FFFF_FFFF)
                by (nonlinear_arith)
                requires
                    0 <= n <= 0xFFFF_FFFF_FFFF_FFFF,
                    0 <= self.slot_size <= 0xFFFF_FFFF_FFFF_FFFF,
            ;
        }
        let whole: u128 = n * self.slot_size as u128;
        if whole > u64::MAX as u128 {
            Err(MemHotplugError::WindowFull { asked: bytes, free: self.size })
        } else {
            Ok(whole as u64)
        }
    }
}

/// A rounded request is a whole number of slots, at least what was asked for,
/// and less than a slot more.
pub proof fn round_up_is_tight(w: MemWindow, bytes: u64)
    requires
        w.wf(),
        w.rounded(bytes) is Ok,
    ensures
        ({
            let len = w.rounded(bytes)->Ok_0;
            &&& len as int % w.spec_slot_size() as int == 0
            &&& bytes <= len < bytes + w.spec_slot_size()
        }),
{
    w.no_fault();
    let s = w.spec_slot_size() as int;
    let n = slots_for(bytes, w.spec_slot_size());
    vstd::arithmetic::div_mod::lemma_fundamental_div_mod(bytes + s - 1, s);
    vstd::arithmetic::div_mod::lemma_mod_bound(bytes + s - 1, s);
    assert(n * s == s * n) by (nonlinear_arith);
    vstd::arithmetic::div_mod::lemma_mod_multiples_basic(n, s);
}

// ---- Segment ids -----------------------------------------------------------

/// Hands out kernel segment ids, in order.
pub struct SegidAlloc {
    next: i32,
}

impl SegidAlloc {
    /// The next id.
    pub closed spec fn spec_next(&self) -> i32 {
        self.next
    }

    pub fn new(first: i32) -> (r: Self)
        ensures
            r.spec_next() == first,
    {
        SegidAlloc { next: first }
    }

    /// The next id, while the VM has one left.
    pub fn take_next(&mut self) -> (r: Option<i32>)
        ensures
            old(self).spec_next() < VM_MAX_MEMSEGS ==> r == Some(old(self).spec_next()) && final(
                self
            ).spec_next() == old(self).spec_next() + 1,
            old(self).spec_next() >= VM_MAX_MEMSEGS ==> r is None && final(self).spec_next()
                == old(self).spec_next(),
    {
        if self.next < VM_MAX_MEMSEGS {
            let id: i32 = self.next;
            self.next = id + 1;
            Some(id)
        } else {
            None
        }
    }

    /// Take an id back, if it was the last one handed out.
    pub fn release(&mut self, id: i32) -> (r: bool)
        ensures
            r == (old(self).spec_next() == id + 1),
            final(self).spec_next() == if r {
                id
            } else {
                old(self).spec_next()
            },
    {
        if self.next > i32::MIN && self.next - 1 == id {
            self.next = id;
            true
        } else {
            false
        }
    }
}

// ---- The engine ------------------------------------------------------------

/// Why an add failed, and what it spent on the way.
#[derive(Debug, PartialEq, Eq)]
pub struct MapFailure {
    pub error: MemHotplugError,
    /// Whether the kernel created the segment. Nothing frees one, so a created
    /// segment is gone for the life of the VM and its ID must never be handed
    /// out again.
    pub segment_spent: bool,
}

/// Puts one slice of guest RAM in place.
pub trait MemMapper: Sized {
    /// Allocate a kernel segment of `len` bytes and map it at `gpa`.
    fn add_ram(&mut self, segid: i32, gpa: u64, len: u64) -> Result<(), MapFailure>;
}

/// An add that every check let through. The memory is mapped next.
#[derive(Debug, Clone, Copy, PartialEq, Eq, Structural)]
pub struct MemAdd {
    pub slot: usize,
    pub segid: i32,
    pub base: u64,
    pub len: u64,
}

impl MemAdd {
    /// What the add answers where mapping it came to `result`.
    pub open spec fn answer(self, result: Result<(), MapFailure>) -> Result<
        usize,
        MemHotplugError,
    > {
        match result {
            Ok(()) => Ok(self.slot),
            Err(failure) => Err(failure.error),
        }
    }
}

/// The memory hot-add engine.
pub struct MemHotplugEngine {
    segids: SegidAlloc,
    regs: MemHotplug,
    window: MemWindow,
    /// Slots this engine will use: the window and the register file
    /// have to agree, and the smaller of the two wins.
    slots: usize,
    /// Bytes handed out from the front of the window.
    used: u64,
    /// The next unused slot.
    next_slot: usize,
    /// Whether the engine is shut down, and every add refused.
    closed: bool,
}

/// The engine as its owner sees it.
pub ghost struct MemHot {
    pub window: MemWindow,
    pub regs: MemRegs,
    pub slots: nat,
    pub used: u64,
    pub next_slot: nat,
    pub next_segid: i32,
    /// Every add is refused.
    pub closed: bool,
}

impl View for MemHotplugEngine {
    type V = MemHot;

    closed spec fn view(&self) -> MemHot {
        MemHot {
            window: self.window,
            regs: self.regs@,
            slots: self.slots as nat,
            used: self.used,
            next_slot: self.next_slot as nat,
            next_segid: self.segids.spec_next(),
            closed: self.closed,
        }
    }
}

impl MemHot {
    /// What every add keeps: nothing is handed out past the window, nor past
    /// the slots that both sides describe.
    pub open spec fn wf(self) -> bool {
        &&& self.window.wf()
        &&& self.used <= self.window.spec_size()
        &&& self.next_slot <= self.slots
        &&& self.slots <= self.regs.slots.len()
        &&& self.slots <= self.window.spec_slots()
    }

    /// What is left of the window.
    pub open spec fn free(self) -> u64 {
        (self.window.spec_size() - self.used) as u64
    }

    /// What an add of `bytes` comes to before the first ioctl: the first limit
    /// that it meets, or where it goes.
    pub open spec fn planned(self, bytes: u64) -> Result<MemAdd, MemHotplugError> {
        if self.closed {
            Err(MemHotplugError::Stopped)
        } else {
            match self.window.rounded(bytes) {
                Err(e) => Err(e),
                Ok(len) => if self.next_slot >= self.slots {
                    Err(MemHotplugError::NoSlots { slots: self.slots as usize })
                } else if len > self.free() {
                    Err(MemHotplugError::WindowFull { asked: len, free: self.free() })
                } else if self.next_segid >= VM_MAX_MEMSEGS {
                    Err(MemHotplugError::NoSegment { limit: VM_MAX_MEMSEGS })
                } else {
                    Ok(
                        MemAdd {
                            slot: self.next_slot as usize,
                            segid: self.next_segid,
                            base: (self.window.spec_base() + self.used) as u64,
                            len,
                        },
                    )
                },
            }
        }
    }

    /// The engine shut down: the ejects that came last are refused like every
    /// other, and so is every add from now on.
    pub open spec fn stopped(self) -> MemHot {
        MemHot { regs: self.regs.refused(), closed: true, ..self }
    }

    /// The engine with the segment id of a planned add taken.
    pub open spec fn claimed(self) -> MemHot {
        MemHot { next_segid: (self.next_segid + 1) as i32, ..self }
    }

    /// The engine after the mapping of a planned add came to `result`.
    ///
    /// A failed add leaves its slot and its addresses for the next one, and
    /// its segment id too unless the kernel created the segment.
    pub open spec fn settled(self, add: MemAdd, result: Result<(), MapFailure>) -> MemHot {
        match result {
            Ok(()) => MemHot {
                next_slot: self.next_slot + 1,
                used: (self.used + add.len) as u64,
                regs: self.regs.filled(add.slot as int, add.base, add.len).added(add.slot as int),
                ..self
            },
            Err(failure) => if failure.segment_spent || self.next_segid != add.segid + 1 {
                self
            } else {
                MemHot { next_segid: add.segid, ..self }
            },
        }
    }
}

impl MemHotplugEngine {
    /// Start over a register file and a window.
    pub fn start_with(segids: SegidAlloc, regs: MemHotplug, window: MemWindow) -> (r: Self)
        requires
            window.wf(),
        ensures
            r@.wf(),
            r@ == (MemHot {
                window,
                regs: regs@,
                slots: if window.spec_slots() <= regs@.slots.len() {
                    window.spec_slots() as nat
                } else {
                    regs@.slots.len()
                },
                used: 0,
                next_slot: 0,
                next_segid: segids.spec_next(),
                closed: false,
            }),
    {
        // A window that claims more slots than the register file would
        // advertise memory the guest cannot see.
        let slots: usize = if window.slots() <= regs.slots() {
            window.slots()
        } else {
            regs.slots()
        };
        MemHotplugEngine { segids, regs, window, slots, used: 0, next_slot: 0, closed: false }
    }

    /// The window this engine hands out.
    pub fn window(&self) -> (r: MemWindow)
        ensures
            r == self@.window,
    {
        self.window
    }

    /// How many slots are filled.
    pub fn slots_used(&self) -> (r: usize)
        ensures
            r == self@.next_slot,
    {
        self.next_slot
    }

    /// Bytes handed to the guest so far.
    pub fn bytes_added(&self) -> (r: u64)
        ensures
            r == self@.used,
    {
        self.used
    }

    pub fn regs(&self) -> (r: &MemHotplug)
        ensures
            r@ == self@.regs,
    {
        &self.regs
    }

    /// Check an add and take its segment id. Every limit is checked before
    /// the first ioctl, so a refused request allocates nothing.
    pub fn plan_add(&mut self, bytes: u64) -> (r: Result<MemAdd, MemHotplugError>)
        requires
            old(self)@.wf(),
        ensures
            final(self)@.wf(),
            r == old(self)@.planned(bytes),
            final(self)@ == if r is Ok {
                old(self)@.claimed()
            } else {
                old(self)@
            },
    {
        proof {
            self.window.no_fault();
        }
        if self.closed {
            return Err(MemHotplugError::Stopped);
        }
        let len: u64 = match self.window.round_up(bytes) {
            Ok(len) => len,
            Err(e) => {
                return Err(e);
            },
        };
        let slot: usize = self.next_slot;
        if slot >= self.slots {
            return Err(MemHotplugError::NoSlots { slots: self.slots });
        }
        let free: u64 = self.window.size() - self.used;
        if len > free {
            return Err(MemHotplugError::WindowFull { asked: len, free });
        }
        let base: u64 = self.window.base() + self.used;
        // Last of the cheap checks. Reporting exhaustion here gives the
        // operator a reason.
        match self.segids.take_next() {
            Some(segid) => Ok(MemAdd { slot, segid, base, len }),
            None => Err(MemHotplugError::NoSegment { limit: VM_MAX_MEMSEGS }),
        }
    }

    /// Take what came of mapping a planned add. The slot and the addresses
    /// are only spent once the memory is really there.
    pub fn finish_add(&mut self, add: MemAdd, result: Result<(), MapFailure>) -> (r: Result<
        usize,
        MemHotplugError,
    >)
        requires
            old(self)@.wf(),
            add.slot == old(self)@.next_slot,
            add.slot < old(self)@.slots,
            add.len <= old(self)@.free(),
            add.segid < VM_MAX_MEMSEGS,
        ensures
            final(self)@.wf(),
            final(self)@ == old(self)@.settled(add, result),
            r == add.answer(result),
    {
        match result {
            Ok(()) => {},
            Err(failure) => {
                // An ID whose segment was never created can go back. One
                // whose segment exists cannot: the kernel has no free.
                if !failure.segment_spent {
                    let _ = self.segids.release(add.segid);
                }
                return Err(failure.error);
            },
        }
        self.next_slot = add.slot + 1;
        self.used = self.used + add.len;
        // The registers before the event: the guest reads them as soon as it
        // sees the device check.
        if !self.regs.set_slot(add.slot, add.base, add.len) {
            return Err(MemHotplugError::Registers(owned("no such slot")));
        }
        self.regs.notify_added(add.slot);
        Ok(add.slot)
    }

    /// Give the guest `bytes` more memory and return the slot it went
    /// in. The size is rounded up to a whole slot.
    ///
    /// What the mapper answers is not this engine's to say. It is asked once,
    /// for the place that was planned, and only where no limit stops the add.
    /// Memory and slot are spent together or not at all.
    pub fn add_memory<M: MemMapper>(&mut self, mapper: &mut M, bytes: u64) -> (r: Result<
        usize,
        MemHotplugError,
    >)
        requires
            old(self)@.wf(),
        ensures
            final(self)@.wf(),
            old(self)@.planned(bytes) matches Err(e) ==> r == Err::<usize, MemHotplugError>(e)
                && final(self)@ == old(self)@ && *final(mapper) == *old(mapper),
            old(self)@.planned(bytes) matches Ok(add) ==> exists|
                m: &mut M,
                a: Result<(), MapFailure>,
            |
                {
                    &&& *m == *old(mapper)
                    &&& *final(m) == *final(mapper)
                    &&& #[trigger] call_ensures(
                        M::add_ram,
                        (m, add.segid, add.base, add.len),
                        a,
                    )
                    &&& r == add.answer(a)
                    &&& final(self)@ == old(self)@.claimed().settled(add, a)
                },
    {
        let add = match self.plan_add(bytes) {
            Ok(add) => add,
            Err(e) => {
                return Err(e);
            },
        };
        let result = mapper.add_ram(add.segid, add.base, add.len);
        self.finish_add(add, result)
    }

    /// The guest ran an eject of a slot.
    pub fn guest_ejects(&mut self, slot: usize)
        requires
            old(self)@.wf(),
        ensures
            final(self)@.wf(),
            final(self)@ == (MemHot { regs: old(self)@.regs.ejected(slot as int), ..old(self)@ }),
    {
        self.regs.guest_ejects(slot);
    }

    /// Refuse every eject the guest has run: the memory stays.
    pub fn refuse_ejects(&mut self)
        requires
            old(self)@.wf(),
        ensures
            final(self)@.wf(),
            final(self)@ == (MemHot { regs: old(self)@.regs.refused(), ..old(self)@ }),
    {
        self.regs.refuse_ejects();
    }

    /// Refuse every later add. The ejects that came last still get an answer.
    pub fn shutdown(&mut self)
        requires
            old(self)@.wf(),
        ensures
            final(self)@.wf(),
            final(self)@ == old(self)@.stopped(),
    {
        self.closed = true;
        self.refuse_ejects();
    }
}

// ---- Where the window lies -------------------------------------------------

/// The first address behind the RAM of a VM that booted with `mem_size`.
pub open spec fn top_of_ram(mem_size: u64) -> int {
    if mem_size <= MMIO_HOLE_BASE {
        MMIO_HOLE_END as int
    } else {
        MMIO_HOLE_END + mem_size - MMIO_HOLE_BASE
    }
}

/// What is wrong with the window of a VM, if anything is.
pub open spec fn hot_add_fault(mem_size: u64, max_mem: u64, slot_size: u64) -> Option<WindowFault> {
    if slot_size == 0 {
        Some(WindowFault::NoSlotSize)
    } else if top_of_ram(mem_size) > u64::MAX {
        Some(WindowFault::NoRoom { mem_size })
    } else if max_mem as int % slot_size as int != 0 {
        Some(WindowFault::NotDivided { max_mem, slot_size })
    } else if max_mem as int / slot_size as int > MAX_SLOTS {
        Some(
            WindowFault::TooManySlots {
                max_mem,
                slot_size,
                slots: (max_mem as int / slot_size as int) as u64,
            },
        )
    } else {
        window_fault(top_of_ram(mem_size) as u64, max_mem, slot_size)
    }
}

/// The guest address window that hot-added memory goes in.
///
/// It starts above every RAM region the VM booted with, so it is always above
/// 4 GiB and can never land in the 32-bit MMIO hole. `slot_size` has to divide
/// `max_mem`, and the quotient has to fit the slots the register file
/// describes. Both are refused here rather than silently clamped, because a
/// window that claims more slots than the guest has would report free memory
/// no add can reach.
pub fn hot_add_window(mem_size: u64, max_mem: u64, slot_size: u64) -> (r: Result<
    MemWindow,
    MemHotplugError,
>)
    ensures
        match r {
            Ok(w) => hot_add_fault(mem_size, max_mem, slot_size) is None && w.wf()
                && w.spec_base() == top_of_ram(mem_size) && w.spec_size() == max_mem
                && w.spec_slot_size() == slot_size,
            Err(e) => hot_add_fault(mem_size, max_mem, slot_size) is Some && e
                == MemHotplugError::BadWindow(hot_add_fault(mem_size, max_mem, slot_size)->0),
        },
{
    if slot_size == 0 {
        return Err(MemHotplugError::BadWindow(WindowFault::NoSlotSize));
    }
    let highmem: u64 = mem_size.saturating_sub(MMIO_HOLE_BASE);
    let base: u64 = match MMIO_HOLE_END.checked_add(highmem) {
        Some(base) => base,
        None => {
            return Err(MemHotplugError::BadWindow(WindowFault::NoRoom { mem_size }));
        },
    };
    if max_mem % slot_size != 0 {
        return Err(MemHotplugError::BadWindow(WindowFault::NotDivided { max_mem, slot_size }));
    }
    let slots: u64 = max_mem / slot_size;
    if slots > MAX_SLOTS as u64 {
        return Err(
            MemHotplugError::BadWindow(WindowFault::TooManySlots { max_mem, slot_size, slots }),
        );
    }
    MemWindow::new(base, max_mem, slot_size)
}

// ---- Laws ------------------------------------------------------------------

/// The window of a VM starts behind all of its RAM and behind the MMIO hole,
/// and describes exactly the slots that its size asks for.
pub proof fn window_is_clear_of_ram(mem_size: u64, max_mem: u64, slot_size: u64, w: MemWindow)
    requires
        hot_add_fault(mem_size, max_mem, slot_size) is None,
        w.spec_base() == top_of_ram(mem_size),
        w.spec_size() == max_mem,
        w.spec_slot_size() == slot_size,
    ensures
        MMIO_HOLE_END <= w.spec_base(),
        mem_size > MMIO_HOLE_BASE ==> w.spec_base() - MMIO_HOLE_END == mem_size - MMIO_HOLE_BASE,
        w.spec_slots() == max_mem as int / slot_size as int,
{
}

/// Slots are handed out in order and their memory without gaps or overlap:
/// each add starts where the one before it ended, inside the window.
pub proof fn adds_are_contiguous(h: MemHot, first: u64, second: u64)
    requires
        h.wf(),
        h.planned(first) is Ok,
        h.claimed().settled(h.planned(first)->Ok_0, Ok(())).planned(second) is Ok,
    ensures
        ({
            let a = h.planned(first)->Ok_0;
            let b = h.claimed().settled(a, Ok(())).planned(second)->Ok_0;
            &&& b.slot == a.slot + 1
            &&& b.base == a.base + a.len
            &&& h.window.spec_base() <= a.base
            &&& b.base + b.len <= h.window.spec_base() + h.window.spec_size()
        }),
{
    h.window.no_fault();
}

/// Memory handed out later lies above all that was handed out before, however
/// many adds came in between: no two adds ever overlap.
pub proof fn later_adds_lie_above(h: MemHot, first: u64, later: MemHot, second: u64)
    requires
        h.wf(),
        later.wf(),
        h.planned(first) is Ok,
        later.planned(second) is Ok,
        later.window == h.window,
        later.used >= h.claimed().settled(h.planned(first)->Ok_0, Ok(())).used,
    ensures
        h.planned(first)->Ok_0.base + h.planned(first)->Ok_0.len <= later.planned(
            second,
        )->Ok_0.base,
{
    h.window.no_fault();
}

/// No add, whatever comes of it, gives handed-out memory back or moves the
/// window.
pub proof fn used_memory_only_grows(h: MemHot, bytes: u64, result: Result<(), MapFailure>)
    requires
        h.wf(),
        h.planned(bytes) is Ok,
    ensures
        ({
            let after = h.claimed().settled(h.planned(bytes)->Ok_0, result);
            after.wf() && after.window == h.window && h.used <= after.used && h.next_slot
                <= after.next_slot
        }),
{
}

/// An add that failed before the kernel created its segment leaves nothing
/// behind: the next one takes the same slot, address and segment id. One that
/// failed later leaves only the segment id spent.
pub proof fn failed_add_leaves_its_place(h: MemHot, bytes: u64, error: MemHotplugError)
    requires
        h.wf(),
        h.planned(bytes) is Ok,
    ensures
        ({
            let a = h.planned(bytes)->Ok_0;
            let kept = h.claimed().settled(a, Err(MapFailure { error, segment_spent: false }));
            let spent = h.claimed().settled(a, Err(MapFailure { error, segment_spent: true }));
            &&& kept == h
            &&& spent == h.claimed()
        }),
{
}

/// An engine that is shut down adds no memory, whatever is asked of it and
/// however much of its window is left, and no eject waits for an answer.
pub proof fn stopped_engine_adds_nothing(h: MemHot, bytes: u64)
    ensures
        h.stopped().planned(bytes) == Err::<MemAdd, MemHotplugError>(MemHotplugError::Stopped),
        forall|i: int|
            0 <= i < h.regs.slots.len() ==> !(#[trigger] h.stopped().regs.slots[i]).requested,
{
}

/// The slot that an add filled reads exactly the range that the mapper was
/// asked to map, and tells the guest to look. Every other slot reads as
/// before.
pub proof fn filled_slot_reads_the_mapping(h: MemHot, add: MemAdd, k: int)
    requires
        add.slot < h.regs.slots.len(),
        0 <= k < h.regs.slots.len(),
    ensures
        ({
            let after = h.settled(add, Ok(()));
            let slot = after.regs.slots[add.slot as int];
            &&& after.regs.slots.len() == h.regs.slots.len()
            &&& slot.base == add.base
            &&& slot.len == add.len
            &&& slot.enabled
            &&& slot.inserting
            &&& k != add.slot ==> after.regs.slots[k] == h.regs.slots[k]
            &&& h.regs.events < u64::MAX ==> after.regs.events == h.regs.events + 1
            &&& add.answer(Ok(())) == Ok::<usize, MemHotplugError>(add.slot)
        }),
{
}

/// A failed add changes nothing that the guest reads, and its error is what
/// the operator gets.
pub proof fn failed_add_shows_the_guest_nothing(h: MemHot, add: MemAdd, failure: MapFailure)
    ensures
        h.settled(add, Err(failure)).regs == h.regs,
        h.settled(add, Err(failure)).used == h.used,
        h.settled(add, Err(failure)).next_slot == h.next_slot,
        add.answer(Err(failure)) == Err::<usize, MemHotplugError>(failure.error),
{
}

/// Where the slots that the guest reads as present lie: in the front of the
/// window that was handed out, in their order, none over another.
pub open spec fn slots_lie_apart(h: MemHot) -> bool {
    let w = h.window.spec_base();
    &&& forall|k: int|
        0 <= k < h.regs.slots.len() && (#[trigger] h.regs.slots[k]).enabled ==> {
            &&& k < h.next_slot
            &&& w <= h.regs.slots[k].base
            &&& h.regs.slots[k].base + h.regs.slots[k].len <= w + h.used
        }
    &&& forall|j: int, k: int|
        0 <= j < k < h.regs.slots.len() && (#[trigger] h.regs.slots[j]).enabled && (
        #[trigger] h.regs.slots[k]).enabled ==> h.regs.slots[j].base + h.regs.slots[j].len
            <= h.regs.slots[k].base
}

/// The ranges that the guest reads in the register file never overlap: none
/// does before the first add, and every add, shutdown and eject keeps it so.
pub proof fn guest_slots_never_overlap(
    h: MemHot,
    bytes: u64,
    result: Result<(), MapFailure>,
    ejected: int,
)
    requires
        h.wf(),
        0 <= ejected,
    ensures
        (forall|k: int|
            0 <= k < h.regs.slots.len() ==> !(#[trigger] h.regs.slots[k]).enabled)
            ==> slots_lie_apart(h),
        slots_lie_apart(h) && h.planned(bytes) is Ok ==> slots_lie_apart(
            h.claimed().settled(h.planned(bytes)->Ok_0, result),
        ),
        slots_lie_apart(h) ==> slots_lie_apart(h.stopped()),
        slots_lie_apart(h) ==> slots_lie_apart(MemHot { regs: h.regs.ejected(ejected), ..h }),
{
    h.window.no_fault();
    if slots_lie_apart(h) {
        let out = MemHot { regs: h.regs.ejected(ejected), ..h };
        let end = h.stopped();
        assert forall|k: int| 0 <= k < h.regs.slots.len() implies {
            &&& (#[trigger] out.regs.slots[k]).enabled == h.regs.slots[k].enabled
            &&& out.regs.slots[k].base == h.regs.slots[k].base
            &&& out.regs.slots[k].len == h.regs.slots[k].len
        } by {}
        assert forall|k: int| 0 <= k < h.regs.slots.len() implies {
            &&& (#[trigger] end.regs.slots[k]).enabled == h.regs.slots[k].enabled
            &&& end.regs.slots[k].base == h.regs.slots[k].base
            &&& end.regs.slots[k].len == h.regs.slots[k].len
        } by {}
        if h.planned(bytes) is Ok {
            let add = h.planned(bytes)->Ok_0;
            let after = h.claimed().settled(add, result);
            if result is Ok {
                assert forall|k: int|
                    0 <= k < h.regs.slots.len() && k != add.slot implies #[trigger] after.regs.slots[k]
                    == h.regs.slots[k] by {}
                assert(after.regs.slots[add.slot as int].base == add.base);
                assert(after.regs.slots[add.slot as int].len == add.len);
            }
        }
    }
}

/// When an add can go ahead, and with what: the next slot and segment, the
/// first free address, and the request rounded up to whole slots. A shut down
/// engine, an empty request, eight slots in use, five segments spent and a
/// request past the window's end are refused, each by its own error.
pub proof fn adds_take_the_next_place(h: MemHot, bytes: u64)
    requires
        h.wf(),
        !h.closed,
        bytes > 0,
        h.window.rounded(bytes) is Ok,
    ensures
        ({
            let len = h.window.rounded(bytes)->Ok_0;
            let room = len <= h.window.spec_size() - h.used;
            match h.planned(bytes) {
                Ok(add) => {
                    &&& h.next_slot < h.slots && room && h.next_segid < 5
                    &&& h.next_slot < 8
                    &&& add.slot == h.next_slot
                    &&& add.segid == h.next_segid
                    &&& add.base == h.window.spec_base() + h.used
                    &&& add.len == len
                    &&& h.claimed().next_segid == add.segid + 1
                    &&& h.claimed().settled(add, Ok(())).used == h.used + len
                    &&& h.claimed().settled(add, Ok(())).next_slot == h.next_slot + 1
                },
                Err(e) => {
                    &&& h.next_slot == h.slots || !room || h.next_segid >= 5
                    &&& e is NoSlots <==> h.next_slot == h.slots
                    &&& e is WindowFull <==> h.next_slot < h.slots && !room
                    &&& e is NoSegment <==> h.next_slot < h.slots && room
                },
            }
        }),
{
    h.window.no_fault();
}

/// Which requests are refused before the window is looked at.
pub proof fn idle_requests_are_refused(h: MemHot, bytes: u64)
    ensures
        h.closed ==> h.planned(bytes) == Err::<MemAdd, MemHotplugError>(MemHotplugError::Stopped),
        !h.closed && bytes == 0 ==> h.planned(bytes) == Err::<MemAdd, MemHotplugError>(
            MemHotplugError::EmptyRequest,
        ),
{
}

/// A window is accepted exactly where it is whole slots of whole pages, on a
/// page boundary, above 4 GiB and inside the address space; and the fault
/// that is reported is one that it has.
pub proof fn windows_are_whole_slots_above_the_hole(base: u64, size: u64, slot_size: u64)
    ensures
        ({
            let paged = slot_size > 0 && slot_size % 4096 == 0;
            let divided = slot_size > 0 && size > 0 && size as int % slot_size as int == 0;
            match window_fault(base, size, slot_size) {
                None => {
                    &&& paged && divided
                    &&& base % 4096 == 0 && base >= 0x1_0000_0000
                    &&& base + size <= u64::MAX
                },
                Some(WindowFault::SlotSize { slot_size: s }) => s == slot_size && !paged,
                Some(WindowFault::Size { size: z, slot_size: s }) => z == size && s == slot_size
                    && !divided,
                Some(WindowFault::Base { base: b }) => b == base && base % 4096 != 0,
                Some(WindowFault::BelowHole { base: b }) => b == base && base < 0x1_0000_0000,
                Some(WindowFault::OffTheEnd { base: b, size: z }) => b == base && z == size && base
                    + size > u64::MAX,
                _ => false,
            }
        }),
{
}

/// The hot-add window starts at 4 GiB, or behind the RAM that the 1 GiB hole
/// below 4 GiB pushed above it, and has at most eight slots.
pub proof fn hot_add_window_follows_the_ram(mem_size: u64, max_mem: u64, slot_size: u64)
    ensures
        mem_size <= 0xC000_0000 ==> top_of_ram(mem_size) == 0x1_0000_0000,
        mem_size > 0xC000_0000 ==> top_of_ram(mem_size) == mem_size + 0x4000_0000,
        hot_add_fault(mem_size, max_mem, slot_size) is None ==> {
            &&& 0 < slot_size
            &&& max_mem as int % slot_size as int == 0
            &&& max_mem as int / slot_size as int <= 8
            &&& top_of_ram(mem_size) + max_mem <= u64::MAX
        },
        hot_add_fault(mem_size, max_mem, slot_size) matches Some(WindowFault::TooManySlots {
            max_mem: m,
            slot_size: s,
            slots,
        }) ==> m == max_mem && s == slot_size && slots == max_mem as int / slot_size as int && slots
            > 8,
        hot_add_fault(mem_size, max_mem, slot_size) matches Some(WindowFault::NoRoom {
            mem_size: m,
        }) ==> m == mem_size && mem_size > u64::MAX - 0x4000_0000,
{
}

} // verus!
