//! Memory hot-add.

use vmm::machine::hotplug::mem::{
    hot_add_window, MapFailure, MemHotplugEngine, MemHotplugError, MemMapper, MemWindow, SegidAlloc,
    DEFAULT_SLOT_SIZE, MAX_SLOTS, MMIO_HOLE_END, VM_MAX_MEMSEGS,
};
use vmm::machine::hotplug::regs::MemHotplug;
use vmm::mem::PhysMap;

/// A window well above the 4 GiB line, so both halves of the base
/// carry bits.
const BASE: u64 = 0x0000_0004_0000_0000;
const SLOT: u64 = DEFAULT_SLOT_SIZE;
const STATUS_ENABLED: u64 = 1 << 0;
const STATUS_INSERTING: u64 = 1 << 1;

/// What one add asked the mapper for.
#[derive(Debug, Clone, Copy, PartialEq, Eq)]
struct Mapped {
    segid: i32,
    gpa: u64,
    len: u64,
}

/// A mapper with no kernel behind it.
///
/// `fail_next` makes exactly one add fail, so a test can show what
/// a failure leaves behind.
#[derive(Default)]
struct FakeMapper {
    calls: Vec<Mapped>,
    fail_next: Option<MapFailure>,
}

impl FakeMapper {
    fn fail_next(&mut self, segment_spent: bool) {
        self.fail_next = Some(MapFailure {
            error: MemHotplugError::Mapping("no kernel here".into()),
            segment_spent,
        });
    }
}

impl MemMapper for FakeMapper {
    fn add_ram(&mut self, segid: i32, gpa: u64, len: u64) -> Result<(), MapFailure> {
        if let Some(failure) = self.fail_next.take() {
            return Err(failure);
        }
        self.calls.push(Mapped { segid, gpa, len });
        Ok(())
    }
}

/// A mapper with the memory map's own overlap rule behind it and no kernel.
///
/// [`FakeMapper`] answers every add, so it cannot show what happens when a
/// window lands on memory the guest already has.
struct ClaimingMapper {
    physmap: PhysMap,
    granted: Vec<u64>,
}

impl ClaimingMapper {
    fn new(physmap: PhysMap) -> Self {
        ClaimingMapper { physmap, granted: Vec::new() }
    }
}

impl MemMapper for ClaimingMapper {
    fn add_ram(&mut self, _segid: i32, gpa: u64, len: u64) -> Result<(), MapFailure> {
        // A refused range must never spend a segment: nothing frees one.
        self.physmap.add_region(gpa, len as usize).map_err(|e| MapFailure {
            error: MemHotplugError::Mapping(e.text().into()),
            segment_spent: false,
        })?;
        self.granted.push(gpa);
        Ok(())
    }
}

struct Harness {
    engine: MemHotplugEngine,
    mapper: FakeMapper,
}

fn harness(window: MemWindow, first_segid: i32) -> Harness {
    Harness {
        engine: MemHotplugEngine::start_with(
            SegidAlloc::new(first_segid),
            MemHotplug::new(MAX_SLOTS),
            window,
        ),
        mapper: FakeMapper::default(),
    }
}

/// A window with room for four slots and one free segment, which is
/// what a UEFI VM with a framebuffer and more than 3 GiB has.
fn one_segment_harness() -> Harness {
    let window = MemWindow::new(BASE, 4 * SLOT, SLOT).expect("a legal window");
    harness(window, VM_MAX_MEMSEGS - 1)
}

/// The base and length the guest reads back for the first slot.
fn slot_window(h: &Harness) -> (u64, u64) {
    let s = h.engine.regs().slot(0);
    (s.base, s.len)
}

fn slot_status(h: &Harness) -> u64 {
    let s = h.engine.regs().slot(0);
    u64::from(s.enabled) * STATUS_ENABLED + u64::from(s.inserting) * STATUS_INSERTING
}

// -- The window ------------------------------------------------

#[test]
fn a_window_below_the_four_gib_line_is_refused() {
    // Anything lower runs into the PCI BARs, the APICs or the
    // firmware flash window.
    for base in [0, 0x8000_0000, MMIO_HOLE_END - SLOT] {
        assert!(matches!(
            MemWindow::new(base, SLOT, SLOT),
            Err(MemHotplugError::BadWindow(_)),
        ));
    }
    MemWindow::new(MMIO_HOLE_END, SLOT, SLOT).expect("4 GiB is legal");
}

#[test]
fn a_window_the_kernel_would_refuse_is_refused_here() {
    for (base, size, slot) in [
        // A slot the kernel cannot map.
        (BASE, SLOT, 0),
        (BASE, SLOT, 0x800),
        // A size that is not a whole number of slots.
        (BASE, 0, SLOT),
        (BASE, SLOT + 0x1000, SLOT),
        // A base that is not page aligned.
        (BASE + 1, SLOT, SLOT),
        // A window that runs off the end of the address space.
        (0xFFFF_FFFF_C000_0000, 0x8000_0000, SLOT),
    ] {
        assert!(
            matches!(
                MemWindow::new(base, size, slot),
                Err(MemHotplugError::BadWindow(_)),
            ),
            "{base:#x} {size:#x} {slot:#x}",
        );
    }
}

#[test]
fn a_window_never_describes_more_slots_than_the_kernel_can_back() {
    let window = MemWindow::new(BASE, 64 * SLOT, SLOT).expect("a legal window");
    assert_eq!(window.slots(), MAX_SLOTS);

    let small = MemWindow::new(BASE, 3 * SLOT, SLOT).expect("a legal window");
    assert_eq!(small.slots(), 3);
}

#[test]
fn a_request_is_rounded_up_to_a_whole_slot() {
    let window = MemWindow::new(BASE, 4 * SLOT, SLOT).expect("a legal window");
    assert_eq!(window.round_up(1), Ok(SLOT));
    assert_eq!(window.round_up(SLOT), Ok(SLOT));
    assert_eq!(window.round_up(SLOT + 1), Ok(2 * SLOT));
    assert_eq!(window.round_up(0), Err(MemHotplugError::EmptyRequest));
}

// -- The add path ----------------------------------------------

#[test]
fn an_add_maps_the_memory_then_tells_the_guest() {
    let mut h = harness(
        MemWindow::new(BASE, 4 * SLOT, SLOT).expect("a legal window"),
        0,
    );

    assert_eq!(h.engine.add_memory(&mut h.mapper, SLOT), Ok(0));

    assert_eq!(
        h.mapper.calls.clone(),
        vec![Mapped {
            segid: 0,
            gpa: BASE,
            len: SLOT,
        }],
    );
    assert_eq!(slot_window(&h), (BASE, SLOT));
    assert_eq!(slot_status(&h), STATUS_ENABLED | STATUS_INSERTING,);
    assert_eq!(h.engine.regs().events(), 1);
    assert_eq!(h.engine.slots_used(), 1);
    assert_eq!(h.engine.bytes_added(), SLOT);
}

#[test]
fn slots_are_handed_out_in_order_with_no_gaps() {
    let mut h = harness(
        MemWindow::new(BASE, 4 * SLOT, SLOT).expect("a legal window"),
        0,
    );

    assert_eq!(h.engine.add_memory(&mut h.mapper, SLOT), Ok(0));
    assert_eq!(h.engine.add_memory(&mut h.mapper, 2 * SLOT), Ok(1));
    assert_eq!(h.engine.add_memory(&mut h.mapper, SLOT), Ok(2));

    let bases: Vec<u64> = h.mapper.calls.clone().iter().map(|c| c.gpa).collect();
    assert_eq!(bases, vec![BASE, BASE + SLOT, BASE + 3 * SLOT]);
    assert_eq!(h.engine.bytes_added(), 4 * SLOT);
}

#[test]
fn the_slot_cap_stops_an_add_before_any_ioctl() {
    // Three slots of room, so the cap bites before the window does.
    let mut h = harness(
        MemWindow::new(BASE, 3 * SLOT, SLOT).expect("a legal window"),
        0,
    );

    for slot in 0..3 {
        assert_eq!(h.engine.add_memory(&mut h.mapper, SLOT), Ok(slot));
    }
    assert_eq!(
        h.engine.add_memory(&mut h.mapper, SLOT),
        Err(MemHotplugError::NoSlots { slots: 3 }),
    );
    assert_eq!(h.mapper.calls.clone().len(), 3);
}

#[test]
fn the_total_cap_stops_an_add_before_any_ioctl() {
    let mut h = harness(
        MemWindow::new(BASE, 4 * SLOT, SLOT).expect("a legal window"),
        0,
    );

    assert_eq!(h.engine.add_memory(&mut h.mapper, 3 * SLOT), Ok(0));
    assert_eq!(
        h.engine.add_memory(&mut h.mapper, 2 * SLOT),
        Err(MemHotplugError::WindowFull {
            asked: 2 * SLOT,
            free: SLOT,
        }),
    );
    // The window still has room for exactly one more slot.
    assert_eq!(h.mapper.calls.clone().len(), 1);
    assert_eq!(h.engine.add_memory(&mut h.mapper, SLOT), Ok(1));
}

#[test]
fn a_failed_add_leaves_its_slot_and_its_segment_for_the_next_one() {
    let mut h = harness(
        MemWindow::new(BASE, 4 * SLOT, SLOT).expect("a legal window"),
        0,
    );
    // Nothing was created, so the segment ID goes back.
    h.mapper.fail_next(false);

    assert!(matches!(
        h.engine.add_memory(&mut h.mapper, SLOT),
        Err(MemHotplugError::Mapping(_)),
    ));
    assert_eq!(h.engine.slots_used(), 0);
    assert_eq!(h.engine.bytes_added(), 0);
    assert!(h.mapper.calls.clone().is_empty());
    // Nothing was advertised, so the guest never saw a slot.
    assert_eq!(h.engine.regs().events(), 0);
    assert_eq!(slot_status(&h), 0);

    // The retry takes the same slot, the same address and the same
    // segment ID.
    assert_eq!(h.engine.add_memory(&mut h.mapper, SLOT), Ok(0));
    assert_eq!(
        h.mapper.calls.clone(),
        vec![Mapped {
            segid: 0,
            gpa: BASE,
            len: SLOT,
        }],
    );
}

#[test]
fn a_failure_past_the_allocation_keeps_the_segment_spent() {
    let mut h = harness(
        MemWindow::new(BASE, 4 * SLOT, SLOT).expect("a legal window"),
        0,
    );
    // The kernel created the segment, and it has no free.
    h.mapper.fail_next(true);

    assert!(matches!(
        h.engine.add_memory(&mut h.mapper, SLOT),
        Err(MemHotplugError::Mapping(_)),
    ));
    // The slot comes back, the segment ID does not.
    assert_eq!(h.engine.slots_used(), 0);
    assert_eq!(h.engine.add_memory(&mut h.mapper, SLOT), Ok(0));
    assert_eq!(h.mapper.calls.clone()[0].segid, 1);
}

#[test]
fn segment_exhaustion_is_reported_and_not_a_panic() {
    // One segment left, which is what UEFI plus a framebuffer plus
    // more than 3 GiB leaves.
    let mut h = one_segment_harness();

    assert_eq!(h.engine.add_memory(&mut h.mapper, SLOT), Ok(0));
    assert_eq!(
        h.engine.add_memory(&mut h.mapper, SLOT),
        Err(MemHotplugError::NoSegment {
            limit: VM_MAX_MEMSEGS,
        }),
    );
    // The refused add spent no slot and no address.
    assert_eq!(h.engine.slots_used(), 1);
    assert_eq!(h.engine.bytes_added(), SLOT);
}

#[test]
fn an_engine_never_uses_a_slot_the_register_file_lacks() {
    // Two slots in the register file, eight in the window.
    let mut mapper = FakeMapper::default();
    let mut engine = MemHotplugEngine::start_with(
        SegidAlloc::new(0),
        MemHotplug::new(2),
        MemWindow::new(BASE, 8 * SLOT, SLOT).expect("a legal window"),
    );

    assert_eq!(engine.add_memory(&mut mapper, SLOT), Ok(0));
    assert_eq!(engine.add_memory(&mut mapper, SLOT), Ok(1));
    assert_eq!(
        engine.add_memory(&mut mapper, SLOT),
        Err(MemHotplugError::NoSlots { slots: 2 }),
    );
}

// -- The eject path --------------------------------------------

#[test]
fn a_window_that_lands_on_real_ram_is_refused_and_not_misplaced() {
    // The window base is computed before the VM exists. If the layout it was
    // computed from ever moved, the FIRST add has to be refused, never placed
    // on top of live RAM.
    let mut physmap = PhysMap::new();
    // High RAM that reaches past the window base, as a bigger guest
    // than the window was built for would have.
    physmap.add_region(BASE - SLOT, 2 * SLOT as usize).expect("the map is empty");
    let mut mapper = ClaimingMapper::new(physmap);
    let mut engine = MemHotplugEngine::start_with(
        SegidAlloc::new(0),
        MemHotplug::new(MAX_SLOTS),
        MemWindow::new(BASE, 4 * SLOT, SLOT).expect("a legal window"),
    );

    let refused = engine.add_memory(&mut mapper, SLOT).expect_err("BASE is taken");
    assert!(
        matches!(&refused, MemHotplugError::Mapping(reason)
            if reason.contains("overlaps")),
        "{refused:?}",
    );
    assert!(mapper.granted.is_empty(), "a range was handed out anyway");
    assert_eq!(engine.slots_used(), 0, "a refused add spent a slot");
    assert_eq!(engine.bytes_added(), 0);
    assert!(!engine.regs().slot(0).enabled);
    // The segment id goes back: nothing was created.
    let planned = engine.plan_add(SLOT).expect("the window has room");
    assert_eq!(planned.segid, 0);
    let failure = MapFailure {
        error: MemHotplugError::Mapping("not mapped after all".to_string()),
        segment_spent: false,
    };
    assert!(engine.finish_add(planned, Err(failure)).is_err());

    // The window is handed out from the front and a refused add spends
    // nothing, so the next add asks for the same range and is refused
    // the same way.
    let again = engine.add_memory(&mut mapper, SLOT).expect_err("BASE is still taken");
    assert_eq!(again.to_text(), refused.to_text());
    assert!(mapper.granted.is_empty());
}

#[test]
fn a_window_whose_tail_meets_real_ram_stops_at_the_ram() {
    // Every add below the live RAM works and the one that reaches it is
    // refused.
    let mut physmap = PhysMap::new();
    physmap.add_region(BASE + 3 * SLOT, SLOT as usize).expect("the map is empty");
    let mut mapper = ClaimingMapper::new(physmap);
    let mut engine = MemHotplugEngine::start_with(
        SegidAlloc::new(0),
        MemHotplug::new(MAX_SLOTS),
        MemWindow::new(BASE, 4 * SLOT, SLOT).expect("a legal window"),
    );

    for slot in 0..3 {
        assert_eq!(engine.add_memory(&mut mapper, SLOT), Ok(slot));
    }
    engine.add_memory(&mut mapper, SLOT).expect_err("the last slot is taken");

    assert_eq!(mapper.granted, [BASE, BASE + SLOT, BASE + 2 * SLOT]);
    assert_eq!(engine.slots_used(), 3);
}

#[test]
fn an_eject_is_refused_and_tears_nothing_down() {
    let mut h = harness(
        MemWindow::new(BASE, 4 * SLOT, SLOT).expect("a legal window"),
        0,
    );
    assert_eq!(h.engine.add_memory(&mut h.mapper, SLOT), Ok(0));

    // The guest runs `_EJ0`, and the request really reaches the file.
    h.engine.guest_ejects(0);
    assert!(h.engine.regs().slot(0).requested);
    h.engine.refuse_ejects();
    assert!(
        !h.engine.regs().slot(0).requested,
        "the refusal left the request in the queue",
    );

    // The memory is still there and the slot is still enabled.
    assert_eq!(slot_window(&h), (BASE, SLOT));
    assert_eq!(slot_status(&h) & STATUS_ENABLED, STATUS_ENABLED);
    assert_eq!(h.engine.slots_used(), 1);
    assert_eq!(h.engine.bytes_added(), SLOT);
    // Nothing was unmapped: the kernel cannot free a segment.
    assert_eq!(h.mapper.calls.clone().len(), 1);
}

const GIB: u64 = 1024 * 1024 * 1024;

#[test]
fn the_window_starts_above_every_ram_region_the_vm_booted_with() {
    // A window that overlapped high RAM would map a second segment
    // over memory the guest is already using.
    let small = hot_add_window(1024 * 1024 * 1024, GIB, SLOT)
        .expect("1 GiB of RAM is all low memory");
    assert_eq!(small.base(), MMIO_HOLE_END);

    // 4 GiB of RAM is 3 GiB low and 1 GiB high, so high RAM ends at
    // 5 GiB and the window starts there.
    let big = hot_add_window(4 * 1024 * 1024 * 1024, GIB, SLOT)
        .expect("4 GiB of RAM has a high half");
    assert_eq!(big.base(), MMIO_HOLE_END + GIB);
}

#[test]
fn the_window_never_reaches_the_mmio_hole() {
    for gib in [1u64, 3, 4, 8, 64] {
        let window = hot_add_window(gib * GIB, GIB, SLOT)
            .unwrap_or_else(|e| panic!("{gib} GiB: {e:?}"));
        assert!(
            window.base() >= MMIO_HOLE_END,
            "{gib} GiB put the window at {:#x}",
            window.base(),
        );
    }
}

#[test]
fn a_window_the_guest_has_no_slots_for_is_refused() {
    // 8 GiB of 128 MiB slots wants 64 slots and the AML declares 8.
    // Clamping instead would report free memory no add can reach.
    let refused =
        hot_add_window(GIB, 8 * GIB, SLOT).expect_err("64 slots");
    assert!(
        refused.to_text().contains("raise the slot size"),
        "{refused:?}",
    );

    // The same window in slots the guest has.
    let window = hot_add_window(GIB, 8 * GIB, GIB)
        .expect("8 slots of 1 GiB");
    assert_eq!(window.slots(), 8);
}

#[test]
fn a_window_the_slot_size_does_not_divide_is_refused() {
    let refused = hot_add_window(GIB, GIB + 1, SLOT)
        .expect_err("not a whole number of slots");
    assert!(refused.to_text().contains("does not divide"), "{refused:?}");

    assert!(hot_add_window(GIB, GIB, 0).is_err());
}

#[test]
fn every_refusal_says_why() {
    let text = |e: MemHotplugError| e.to_text();
    assert_eq!(
        text(MemHotplugError::Disabled),
        "this VM was not started with a memory window"
    );
    assert_eq!(text(MemHotplugError::EmptyRequest), "an add needs a size");
    assert_eq!(
        text(MemHotplugError::NoSlots { slots: 3 }),
        "all 3 memory slots are full"
    );
    assert_eq!(
        text(MemHotplugError::WindowFull { asked: 0x1000_0000, free: 0 }),
        "the memory window has 0x0 bytes left, not 0x10000000"
    );
    assert_eq!(
        text(MemHotplugError::NoSegment { limit: 5 }),
        "this VM has spent all 5 of its kernel memory segments"
    );
    assert_eq!(
        text(MemHotplugError::Mapping("x".to_string())),
        "cannot map the memory: x"
    );
    assert_eq!(
        text(MemHotplugError::Registers("y".to_string())),
        "cannot fill the memory slot: y"
    );
    assert_eq!(text(MemHotplugError::Stopped), "the memory engine is shut down");

    let bad = |base: u64, size: u64, slot: u64| match MemWindow::new(base, size, slot) {
        Err(e) => e.to_text(),
        Ok(_) => panic!("accepted"),
    };
    assert_eq!(bad(BASE, SLOT, 0x800), "bad memory window: slot size 0x800 is not page sized");
    assert_eq!(
        bad(BASE, 0x9000, 0x2000),
        "bad memory window: size 0x9000 is not a multiple of the 0x2000 slot"
    );
    assert_eq!(
        bad(BASE + 0xABC, SLOT, SLOT),
        "bad memory window: base 0x400000abc is not page aligned"
    );
    assert_eq!(
        bad(0x8000_0000, SLOT, SLOT),
        "bad memory window: base 0x80000000 is below the 0x100000000 line"
    );
    assert_eq!(
        bad(0xFFFF_FFFF_C000_0000, 0x8000_0000, SLOT),
        "bad memory window: [0xffffffffc0000000, +0x80000000) runs off the address space"
    );
    let hot = |mem: u64, max: u64, slot: u64| match hot_add_window(mem, max, slot) {
        Err(e) => e.to_text(),
        Ok(_) => panic!("accepted"),
    };
    assert_eq!(
        hot(GIB, GIB, 0),
        "bad memory window: a slot size of 0 describes no memory"
    );
    assert_eq!(
        hot(u64::MAX, GIB, SLOT),
        "bad memory window: 18446744073709551615 bytes of RAM leaves no window"
    );
    assert_eq!(
        hot(GIB, 0x4000_0001, 0x800_0000),
        "bad memory window: a window of 0x40000001 does not divide into 0x8000000 slots"
    );
    assert_eq!(
        hot(GIB, 8 * GIB, SLOT),
        "bad memory window: a 0x200000000 window of 0x8000000 slots needs 64 slots, \
         and the guest has 8; raise the slot size"
    );
}

#[test]
fn only_the_last_segment_id_goes_back() {
    let mut ids = SegidAlloc::new(3);
    assert_eq!(ids.take_next(), Some(3));
    assert_eq!(ids.take_next(), Some(4));
    assert_eq!(ids.take_next(), None);
    assert!(!ids.release(3));
    assert!(ids.release(4));
    assert_eq!(ids.take_next(), Some(4));
}

#[test]
fn adds_never_overlap_whatever_fails_between_them() {
    let window = MemWindow::new(BASE, 8 * SLOT, SLOT).expect("a legal window");
    let mut h = harness(window, 0);

    assert_eq!(h.engine.add_memory(&mut h.mapper, 2 * SLOT), Ok(0));
    h.mapper.fail_next(false);
    assert!(h.engine.add_memory(&mut h.mapper, SLOT).is_err());
    assert_eq!(h.engine.bytes_added(), 2 * SLOT);
    assert_eq!(h.engine.add_memory(&mut h.mapper, SLOT), Ok(1));
    h.mapper.fail_next(true);
    assert!(h.engine.add_memory(&mut h.mapper, 3 * SLOT).is_err());
    assert_eq!(h.engine.add_memory(&mut h.mapper, 3 * SLOT), Ok(2));

    let spans: Vec<(u64, u64)> = h.mapper.calls.iter().map(|c| (c.gpa, c.len)).collect();
    assert_eq!(
        spans,
        vec![(BASE, 2 * SLOT), (BASE + 2 * SLOT, SLOT), (BASE + 3 * SLOT, 3 * SLOT)],
    );
    assert_eq!(h.engine.bytes_added(), 6 * SLOT);
}
