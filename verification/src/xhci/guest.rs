//! What a driver in the guest sees of the controller: the events it finds in
//! its event ring, the rings it is followed along, and its registers, by the
//! bytes and bits that the driver reads and writes.

use vstd::prelude::*;

use super::bits::RawTrb;
use super::model::{
    advanced, command_completion, port_status_change, transfer_event, with_cycle, SlotState, Xhci,
    XhciState,
};
use super::tablet::{pointed, TabletState};
use crate::bytes::le32_bytes;

verus! {

/// The number that the four bytes of `s` at `at` hold, the lowest first.
pub open spec fn dword_in(s: Seq<u8>, at: int) -> int {
    s[at] + 0x100 * s[at + 1] + 0x1_0000 * s[at + 2] + 0x100_0000 * s[at + 3]
}

/// The number that the eight bytes of `s` at `at` hold, the lowest first.
pub open spec fn qword_in(s: Seq<u8>, at: int) -> int {
    dword_in(s, at) + 0x1_0000_0000 * dword_in(s, at + 4)
}

/// An event as a driver takes it apart: the pointer in its first two dwords,
/// the completion code and the 24 bits below it in the third, and type,
/// endpoint and slot in the fourth, whose lowest bit is the cycle bit.
pub open spec fn is_event(
    e: Seq<u8>,
    pointer: int,
    code: int,
    residual: int,
    kind: int,
    endpoint: int,
    slot: int,
    cycle: bool,
) -> bool {
    &&& e.len() == 16
    &&& qword_in(e, 0) == pointer
    &&& dword_in(e, 8) / 0x100_0000 == code
    &&& dword_in(e, 8) % 0x100_0000 == residual
    &&& dword_in(e, 12) / 0x100_0000 == slot
    &&& dword_in(e, 12) / 0x1_0000 % 0x100 == endpoint
    &&& dword_in(e, 12) / 0x400 % 0x40 == kind
    &&& dword_in(e, 12) % 0x400 == if cycle {
        1int
    } else {
        0
    }
}

/// Where the controller stores its next event.
pub open spec fn event_slot(x: Xhci) -> int {
    x.st.event_ring_base + 16 * x.st.event_ring_enqueue
}

/// Whether the guest placed an event ring and backs its next slot.
pub open spec fn has_room(x: Xhci) -> bool {
    &&& x.mem.whole()
    &&& x.st.event_ring_base != 0
    &&& x.st.event_ring_enqueue < x.st.event_ring_size
    &&& event_slot(x) <= u64::MAX
    &&& x.mem.maps(event_slot(x), 16)
}

/// The 16 bytes in the memory of `y` at the slot where `x` had room for an
/// event.
pub open spec fn found(x: Xhci, y: Xhci) -> Seq<u8> {
    y.mem.read(event_slot(x), 16)
}

/// Whether the guest stored the TRB `t` at `addr`.
pub open spec fn queued(x: Xhci, addr: u64, t: RawTrb) -> bool {
    let s = x.mem.read(addr as int, 16);
    &&& x.mem.maps(addr as int, 16)
    &&& dword_in(s, 0) == t.dword0
    &&& dword_in(s, 4) == t.dword1
    &&& dword_in(s, 8) == t.dword2
    &&& dword_in(s, 12) == t.dword3
}

/// Whether the TRB's cycle bit is `ccs`, its type `kind`.
pub open spec fn is_trb(t: RawTrb, ccs: bool, kind: int) -> bool {
    &&& t.dword3 % 2 == if ccs {
        1int
    } else {
        0
    }
    &&& t.dword3 / 0x400 % 0x40 == kind
}

/// Whether nothing is queued at `addr`, nor will the next event be stored
/// there.
pub open spec fn ends_at(x: Xhci, addr: u64, ccs: bool) -> bool {
    ||| !x.mem.maps(addr as int, 16)
    ||| x.mem.byte[addr + 12] % 2 != (if ccs {
        1int
    } else {
        0
    }) && (event_slot(x) + 16 <= addr || addr + 16 <= event_slot(x))
}

proof fn dword_of_bytes(v: u32)
    ensures
        le32_bytes(v).len() == 4,
        dword_in(le32_bytes(v), 0) == v,
{
    crate::bytes::le32_round_trip(Seq::empty(), v, Seq::empty());
}

proof fn dwords_of_trb(t: RawTrb)
    ensures
        t.bytes().len() == 16,
        dword_in(t.bytes(), 0) == t.dword0,
        dword_in(t.bytes(), 4) == t.dword1,
        dword_in(t.bytes(), 8) == t.dword2,
        dword_in(t.bytes(), 12) == t.dword3,
{
    dword_of_bytes(t.dword0);
    dword_of_bytes(t.dword1);
    dword_of_bytes(t.dword2);
    dword_of_bytes(t.dword3);
    let s = t.bytes();
    let a = le32_bytes(t.dword0);
    let b = le32_bytes(t.dword1);
    let c = le32_bytes(t.dword2);
    let d = le32_bytes(t.dword3);
    assert(s[0] == a[0] && s[1] == a[1] && s[2] == a[2] && s[3] == a[3]);
    assert(s[4] == b[0] && s[5] == b[1] && s[6] == b[2] && s[7] == b[3]);
    assert(s[8] == c[0] && s[9] == c[1] && s[10] == c[2] && s[11] == c[3]);
    assert(s[12] == d[0] && s[13] == d[1] && s[14] == d[2] && s[15] == d[3]);
}

/// A TRB that the guest stored is the one that the controller takes up.
pub proof fn queued_trb_is_fetched(x: Xhci, addr: u64, t: RawTrb)
    requires
        queued(x, addr, t),
    ensures
        x.fetch(addr) == Some(t),
{
    let s = x.mem.read(addr as int, 16);
    let f = RawTrb::of_bytes(s);
    assert(f.dword0 == dword_in(s, 0));
    assert(f.dword1 == dword_in(s, 4));
    assert(f.dword2 == dword_in(s, 8));
    assert(f.dword3 == dword_in(s, 12));
}

proof fn fields_of_dword(slot: int, endpoint: int, kind: int, cycle: int)
    requires
        0 <= slot < 0x100,
        0 <= endpoint < 0x100,
        0 <= kind < 0x40,
        0 <= cycle < 2,
    ensures
        ({
            let d = slot * 0x100_0000 + endpoint * 0x1_0000 + kind * 0x400 + cycle;
            &&& 0 <= d < 0x1_0000_0000
            &&& d / 0x100_0000 == slot
            &&& d / 0x1_0000 % 0x100 == endpoint
            &&& d / 0x400 % 0x40 == kind
            &&& d % 0x400 == cycle
        }),
{
}

proof fn event_is(
    t: RawTrb,
    pointer: u64,
    code: int,
    residual: int,
    kind: int,
    endpoint: int,
    slot: int,
    cycle: bool,
)
    requires
        0 <= code < 0x100,
        0 <= residual < 0x100_0000,
        0 <= slot < 0x100,
        0 <= endpoint < 0x100,
        0 <= kind < 0x40,
        t.dword0 == pointer % 0x1_0000_0000,
        t.dword1 == pointer / 0x1_0000_0000,
        t.dword2 == code * 0x100_0000 + residual,
        t.dword3 == slot * 0x100_0000 + endpoint * 0x1_0000 + kind * 0x400 + if cycle {
            1int
        } else {
            0
        },
    ensures
        is_event(t.bytes(), pointer as int, code, residual, kind, endpoint, slot, cycle),
{
    dwords_of_trb(t);
    fields_of_dword(
        slot,
        endpoint,
        kind,
        if cycle {
            1
        } else {
            0
        },
    );
}

proof fn transfer_event_is(addr: u64, cc: u32, residual: u32, ep_id: u8, cycle: bool)
    requires
        cc < 0x100,
        ep_id < 0x20,
    ensures
        is_event(
            with_cycle(transfer_event(addr, cc, residual, ep_id), cycle).bytes(),
            addr as int,
            cc as int,
            (residual % 0x100_0000) as int,
            32,
            ep_id as int,
            1,
            cycle,
        ),
{
    let t = with_cycle(transfer_event(addr, cc, residual, ep_id), cycle);
    let r = (residual % 0x100_0000) as int;
    event_is(t, addr, cc as int, r, 32, ep_id as int, 1, cycle);
}

proof fn command_completion_is(addr: u64, cc: u32, slot_id: u8, cycle: bool)
    requires
        cc < 0x100,
    ensures
        is_event(
            with_cycle(command_completion(addr, cc, slot_id), cycle).bytes(),
            addr as int,
            cc as int,
            0,
            33,
            0,
            slot_id as int,
            cycle,
        ),
{
    let t = with_cycle(command_completion(addr, cc, slot_id), cycle);
    event_is(t, addr, cc as int, 0, 33, 0, slot_id as int, cycle);
}

/// How a driver takes a Port Status Change Event apart.
pub proof fn port_status_change_is(port_id: u8, cycle: bool)
    ensures
        is_event(
            with_cycle(port_status_change(port_id), cycle).bytes(),
            0,
            1,
            0,
            34,
            0,
            port_id as int,
            cycle,
        ),
{
    let t = with_cycle(port_status_change(port_id), cycle);
    event_is(t, 0, 1, 0, 34, 0, port_id as int, cycle);
}

/// The guest finds the bytes of an event in its slot.
pub proof fn posted_event_is_found(x: Xhci, event: RawTrb)
    requires
        has_room(x),
    ensures
        found(x, x.post_event(event)) == with_cycle(event, x.st.event_ring_pcs).bytes(),
{
    let t = with_cycle(event, x.st.event_ring_pcs);
    let at = event_slot(x);
    dwords_of_trb(t);
    let y = x.post_event(event);
    let i = choose|i: int|
        0 <= i < x.mem.spans.len() && (#[trigger] x.mem.spans[i]).0 <= at && at + 16
            <= x.mem.spans[i].0 + x.mem.spans[i].1;
    assert forall|k: int| 0 <= k < 16 implies y.mem.byte[at + k] == t.bytes()[k] by {
        assert(x.mem.spans[i].0 <= at + k < x.mem.spans[i].0 + x.mem.spans[i].1);
        assert(x.mem.byte.dom().contains(at + k));
    }
    assert(found(x, y) =~= t.bytes());
}

/// An event is stored in its own slot of the ring and nowhere else, and the
/// next one goes to the slot behind it, or to the first with the cycle bit
/// flipped.
pub proof fn event_fills_one_slot(x: Xhci, event: RawTrb, a: int)
    requires
        has_room(x),
        x.mem.byte.dom().contains(a),
        a < event_slot(x) || event_slot(x) + 16 <= a,
    ensures
        ({
            let y = x.post_event(event);
            &&& y.mem.byte[a] == x.mem.byte[a]
            &&& y.mem.spans == x.mem.spans
            &&& x.st.event_ring_enqueue + 1 < x.st.event_ring_size ==> event_slot(y) == event_slot(
                x,
            ) + 16 && y.st.event_ring_pcs == x.st.event_ring_pcs
            &&& x.st.event_ring_enqueue + 1 == x.st.event_ring_size ==> event_slot(y)
                == x.st.event_ring_base && y.st.event_ring_pcs != x.st.event_ring_pcs
        }),
{
    dwords_of_trb(with_cycle(event, x.st.event_ring_pcs));
}

/// Whether the driver of `x` finds in `y` a Transfer Event for the TRB at
/// `addr`, of the endpoint whose device context index is `endpoint`.
pub open spec fn transfer_found(
    x: Xhci,
    y: Xhci,
    addr: u64,
    code: int,
    residual: int,
    endpoint: int,
) -> bool {
    is_event(found(x, y), addr as int, code, residual, 32, endpoint, 1, x.st.event_ring_pcs)
}

proof fn store_keeps(x: Xhci, at: int, data: Seq<u8>)
    requires
        has_room(x),
    ensures
        has_room(Xhci { mem: x.mem.store(at, data), ..x }),
{
    let m = x.mem.store(at, data);
    assert(m.spans == x.mem.spans);
    assert(m.byte.dom() =~= x.mem.byte.dom());
}

/// How many bytes a transfer TRB asks for: the low 17 bits of its third dword.
pub open spec fn asked(t: RawTrb) -> int {
    (t.dword2 % 0x2_0000) as int
}

/// What of `n` bytes the TRB `t` leaves unfilled.
pub open spec fn unfilled(t: RawTrb, n: int) -> int {
    if n < asked(t) {
        asked(t) - n
    } else {
        0
    }
}

proof fn delivery_is_announced(x: Xhci, addr: u64, t: RawTrb, data: Seq<u8>, ep_id: u8)
    requires
        has_room(x),
        ep_id < 0x20,
    ensures
        ({
            let rest = unfilled(t, data.len() as int);
            transfer_found(
                x,
                x.deliver(addr, t, data, ep_id),
                addr,
                if rest > 0 {
                    13
                } else {
                    1
                },
                rest,
                ep_id as int,
            )
        }),
{
    let room = t.spec_transfer_length();
    let n = if data.len() <= room {
        data.len() as int
    } else {
        room as int
    };
    let at = t.spec_parameter() as int;
    let z = Xhci { mem: x.mem.store(at, data.take(n)), ..x };
    store_keeps(x, at, data.take(n));
    let cc: u32 = if n < room {
        13
    } else {
        1
    };
    posted_event_is_found(z, transfer_event(addr, cc, (room - n) as u32, ep_id));
    transfer_event_is(addr, cc, (room - n) as u32, ep_id, x.st.event_ring_pcs);
}

/// The interrupt endpoint answers a Normal TRB at once: the guest finds a
/// Transfer Event of endpoint 3, slot 1, that points at that TRB, a short
/// packet exactly where the TRB asked for more than a report's six bytes.
pub proof fn interrupt_transfer_is_announced(x: Xhci, t: RawTrb)
    requires
        has_room(x),
        queued(x, x.st.ep1_in_ring.dequeue, t),
        is_trb(t, x.st.ep1_in_ring.ccs, 1),
    ensures
        ({
            let (y, more) = x.ep1_step();
            let rest = unfilled(t, 6);
            &&& transfer_found(
                x,
                y,
                x.st.ep1_in_ring.dequeue,
                if rest > 0 {
                    13
                } else {
                    1
                },
                rest,
                3,
            )
            &&& !more
            &&& !y.tablet.report_pending
            &&& !y.st.ep1_in_has_trbs
        }),
{
    let ring = x.st.ep1_in_ring;
    queued_trb_is_fetched(x, ring.dequeue, t);
    let sent = Xhci { tablet: TabletState { report_pending: false, ..x.tablet }, ..x };
    let report = x.tablet.report();
    assert(report.len() == 6);
    delivery_is_announced(sent, ring.dequeue, t, report, 3);
}

proof fn first_step_ends_the_walk(x: Xhci)
    ensures
        !x.ep1_step().1 ==> x.ep1_walk(4) == x.ep1_step().0,
{
}

/// A pointer event that a guest waits for leaves in guest memory the report
/// of that very event and a Transfer Event of endpoint 3 that points at the
/// TRB.
pub proof fn pointer_report_is_announced(x: Xhci, t: RawTrb, buttons: u8, px: u16, py: u16)
    requires
        has_room(x),
        x.st.slot_state == SlotState::Configured,
        x.st.ep1_in_has_trbs,
        queued(x, x.st.ep1_in_ring.dequeue, t),
        is_trb(t, x.st.ep1_in_ring.ccs, 1),
    ensures
        ({
            let y = x.pointer(buttons, px, py);
            let rest = unfilled(t, 6);
            transfer_found(
                x,
                y,
                x.st.ep1_in_ring.dequeue,
                if rest > 0 {
                    13
                } else {
                    1
                },
                rest,
                3,
            )
        }),
{
    let start = Xhci { tablet: pointed(x.tablet, buttons, px, py), ..x };
    interrupt_transfer_is_announced(start, t);
    reveal_with_fuel(Xhci::ep1_walk, 2);
}

/// What a four-byte write holds, by its bytes.
pub proof fn written_dword(bytes: Seq<u8>)
    requires
        bytes.len() == 4,
    ensures
        crate::access::written32(bytes) == dword_in(bytes, 0),
        crate::access::written32(bytes) % 0x100 == bytes[0],
{
    let z = crate::access::zero_extended(bytes, 4);
    assert(z =~= bytes);
}

/// A doorbell is a dword at 0x440 for the command ring, and one behind it for
/// the device, whose low byte names the endpoint.
pub proof fn doorbell_names_its_ring(x: Xhci, bytes: Seq<u8>)
    requires
        bytes.len() == 4,
    ensures
        x.write_bar0(0x440, bytes) == x.process_command_ring(),
        bytes[0] == 1 ==> x.write_bar0(0x444, bytes) == x.ep0(32),
        bytes[0] == 3 ==> x.write_bar0(0x444, bytes) == x.ep1(),
        bytes[0] != 1 && bytes[0] != 3 ==> x.write_bar0(0x444, bytes) == x,
{
    written_dword(bytes);
}

/// A ring of doorbell 1 for endpoint 3, with a report pending and a Normal
/// TRB queued, is answered in the same way.
pub proof fn interrupt_doorbell_is_answered(x: Xhci, t: RawTrb, bytes: Seq<u8>)
    requires
        has_room(x),
        x.st.slot_state == SlotState::Configured,
        x.tablet.report_pending,
        queued(x, x.st.ep1_in_ring.dequeue, t),
        is_trb(t, x.st.ep1_in_ring.ccs, 1),
        bytes.len() == 4,
        bytes[0] == 3,
    ensures
        ({
            let y = x.write_bar0(0x444, bytes);
            let rest = unfilled(t, 6);
            transfer_found(
                x,
                y,
                x.st.ep1_in_ring.dequeue,
                if rest > 0 {
                    13
                } else {
                    1
                },
                rest,
                3,
            )
        }),
{
    interrupt_transfer_is_announced(x, t);
    doorbell_names_its_ring(x, bytes);
    first_step_ends_the_walk(x);
}

/// A ring of doorbell 1 for endpoint 3 with no report pending is remembered,
/// and one before the endpoint is configured is not.
pub proof fn interrupt_doorbell_is_remembered(x: Xhci, bytes: Seq<u8>)
    requires
        bytes.len() == 4,
        bytes[0] == 3,
    ensures
        ({
            let y = x.write_bar0(0x444, bytes);
            &&& x.st.slot_state == SlotState::Configured && !x.tablet.report_pending
                ==> y.st.ep1_in_has_trbs && y.mem == x.mem && y.pin == x.pin
            &&& x.st.slot_state != SlotState::Configured ==> y == x
        }),
{
    doorbell_names_its_ring(x, bytes);
}

/// The control endpoint answers each DATA stage with a Transfer Event of
/// endpoint 1 that points at its TRB: success for data towards the device, a
/// stall where the request was refused, and a short packet where the answer
/// is shorter than the TRB asked for.
pub proof fn data_stage_is_announced(x: Xhci, t: RawTrb, response: Option<Seq<u8>>)
    requires
        has_room(x),
        queued(x, x.st.ep0_ring.dequeue, t),
        is_trb(t, x.st.ep0_ring.ccs, 3),
    ensures
        ({
            let (y, more) = x.stage_step(response);
            let inward = t.dword3 / 0x1_0000 % 2 == 1;
            let addr = x.st.ep0_ring.dequeue;
            &&& more
            &&& !inward ==> transfer_found(x, y, addr, 1, 0, 1)
            &&& inward && response is None ==> transfer_found(x, y, addr, 6, asked(t), 1)
            &&& inward && response is Some && response->0.len() >= asked(t) ==> transfer_found(
                x,
                y,
                addr,
                1,
                0,
                1,
            )
            &&& inward && response is Some && response->0.len() < asked(t) ==> transfer_found(
                x,
                y,
                addr,
                13,
                asked(t) - response->0.len(),
                1,
            )
        }),
{
    let addr = x.st.ep0_ring.dequeue;
    queued_trb_is_fetched(x, addr, t);
    let pcs = x.st.event_ring_pcs;
    if response is Some {
        delivery_is_announced(x, addr, t, response->0, 1);
    }
    posted_event_is_found(x, transfer_event(addr, 1, 0, 1));
    posted_event_is_found(x, transfer_event(addr, 6, t.spec_transfer_length(), 1));
    transfer_event_is(addr, 1, 0, 1, pcs);
    transfer_event_is(addr, 6, t.spec_transfer_length(), 1, pcs);
}

/// The control endpoint answers a STATUS stage with a Transfer Event of
/// endpoint 1 that points at its TRB, a stall exactly where the request was
/// refused, and the request ends there.
pub proof fn status_stage_is_announced(x: Xhci, t: RawTrb, response: Option<Seq<u8>>)
    requires
        has_room(x),
        queued(x, x.st.ep0_ring.dequeue, t),
        is_trb(t, x.st.ep0_ring.ccs, 4),
    ensures
        ({
            let (y, more) = x.stage_step(response);
            &&& transfer_found(
                x,
                y,
                x.st.ep0_ring.dequeue,
                if response is Some {
                    1
                } else {
                    6
                },
                0,
                1,
            )
            &&& !more
        }),
{
    let addr = x.st.ep0_ring.dequeue;
    queued_trb_is_fetched(x, addr, t);
    let pcs = x.st.event_ring_pcs;
    posted_event_is_found(x, transfer_event(addr, 1, 0, 1));
    posted_event_is_found(x, transfer_event(addr, 6, 0, 1));
    transfer_event_is(addr, 1, 0, 1, pcs);
    transfer_event_is(addr, 6, 0, 1, pcs);
}

proof fn event_keeps_the_end(x: Xhci, event: RawTrb, addr: u64, ccs: bool)
    requires
        has_room(x),
        ends_at(x, addr, ccs),
    ensures
        x.fetch(addr) matches Some(t) ==> t.spec_cycle_bit() != ccs,
        x.post_event(event).fetch(addr) matches Some(t) ==> t.spec_cycle_bit() != ccs,
{
    let y = x.post_event(event);
    dwords_of_trb(with_cycle(event, x.st.event_ring_pcs));
    if x.mem.maps(addr as int, 16) {
        let i = choose|i: int|
            0 <= i < x.mem.spans.len() && (#[trigger] x.mem.spans[i]).0 <= addr && addr + 16
                <= x.mem.spans[i].0 + x.mem.spans[i].1;
        assert(x.mem.spans[i].0 <= addr + 12 < x.mem.spans[i].0 + x.mem.spans[i].1);
        assert(x.mem.byte.dom().contains(addr + 12));
        assert(y.mem.byte[addr + 12] == x.mem.byte[addr + 12]);
        assert(x.mem.read(addr as int, 16)[12] == x.mem.byte[addr + 12]);
        assert(y.mem.read(addr as int, 16)[12] == x.mem.byte[addr + 12]);
    }
}

/// The bytes and words that a dword is made of.
pub proof fn words_of_dword(s: Seq<u8>, at: int)
    ensures
        dword_in(s, at) % 0x100 == s[at],
        dword_in(s, at) / 0x100 % 0x100 == s[at + 1],
        dword_in(s, at) / 0x1_0000 == s[at + 2] + 0x100 * s[at + 3],
{
}

proof fn no_stage_follows(x: Xhci, response: Option<Seq<u8>>)
    requires
        x.fetch(x.st.ep0_ring.dequeue) matches Some(t) ==> t.spec_cycle_bit() != x.st.ep0_ring.ccs,
    ensures
        x.stages(response, 8) == x,
{
}

/// The control endpoint answers a SETUP stage with a Transfer Event of
/// endpoint 1 that points at its TRB, whatever the request, and the device
/// takes the request that the TRB holds: type, code, value and length from
/// its eight bytes.
pub proof fn setup_stage_is_announced(x: Xhci, t: RawTrb)
    requires
        has_room(x),
        queued(x, x.st.ep0_ring.dequeue, t),
        is_trb(t, x.st.ep0_ring.ccs, 2),
        ends_at(x, (x.st.ep0_ring.dequeue + 16) as u64, x.st.ep0_ring.ccs),
    ensures
        ({
            let (y, more) = x.ep0_step();
            let s = x.mem.read(x.st.ep0_ring.dequeue as int, 16);
            &&& transfer_found(x, y, x.st.ep0_ring.dequeue, 1, 8, 1)
            &&& more
            &&& y.tablet == super::tablet::control(
                x.tablet,
                s[0],
                s[1],
                (s[2] + 0x100 * s[3]) as u16,
                (s[6] + 0x100 * s[7]) as u16,
            ).0
        }),
{
    let ring = x.st.ep0_ring;
    let addr = ring.dequeue;
    let s = x.mem.read(addr as int, 16);
    queued_trb_is_fetched(x, addr, t);
    let c = super::tablet::control(
        x.tablet,
        (t.dword0 % 0x100) as u8,
        (t.dword0 / 0x100 % 0x100) as u8,
        (t.dword0 / 0x1_0000) as u16,
        (t.dword1 / 0x1_0000) as u16,
    );
    words_of_dword(s, 0);
    words_of_dword(s, 4);
    let z = Xhci { tablet: c.0, ..x };
    let e = transfer_event(addr, 1, 8, 1);
    posted_event_is_found(z, e);
    transfer_event_is(addr, 1, 8, 1, x.st.event_ring_pcs);
    event_keeps_the_end(z, e, (addr + 16) as u64, ring.ccs);
    no_stage_follows(z.post_event(e).at_ep0(advanced(ring)), c.1);
}

/// The pointer in the first two dwords of a TRB.
pub open spec fn pointer_of(t: RawTrb) -> int {
    t.dword0 + 0x1_0000_0000 * t.dword1
}

/// Where a ring goes on behind the TRB `t`: behind a Link TRB at the 64-byte
/// block that it points at, with the cycle state flipped exactly where its
/// toggle bit is set, and behind any other 16 bytes on.
pub open spec fn goes_on(dequeue: u64, ccs: bool, t: RawTrb, next: u64, next_ccs: bool) -> bool {
    if t.dword3 / 0x400 % 0x40 == 6 {
        &&& next % 64 == 0
        &&& next <= pointer_of(t) < next + 64
        &&& next_ccs != ccs <==> t.dword3 / 2 % 2 == 1
    } else {
        &&& dequeue + 16 <= u64::MAX ==> next == dequeue + 16
        &&& next_ccs == ccs
    }
}

/// Whether the cycle bit of `t` is not the one that the ring waits for.
pub open spec fn is_stale(t: RawTrb, ccs: bool) -> bool {
    t.dword3 % 2 != if ccs {
        1int
    } else {
        0
    }
}

proof fn link_points(t: RawTrb)
    ensures
        super::model::aligned(t.spec_parameter(), 64) % 64 == 0,
        super::model::aligned(t.spec_parameter(), 64) <= pointer_of(t) < super::model::aligned(
            t.spec_parameter(),
            64,
        ) + 64,
        super::model::toggles(t) <==> t.dword3 / 2 % 2 == 1,
        t.spec_trb_type() == t.dword3 / 0x400 % 0x40,
        t.spec_cycle_bit() <==> t.dword3 % 2 == 1,
{
}

/// The interrupt endpoint's ring is followed TRB by TRB until one takes the
/// report. A stale TRB, or one that is not backed, ends the queue, and the
/// guest has to ring again.
pub proof fn interrupt_ring_is_followed(x: Xhci, t: RawTrb)
    requires
        queued(x, x.st.ep1_in_ring.dequeue, t),
    ensures
        ({
            let ring = x.st.ep1_in_ring;
            let (y, more) = x.ep1_step();
            let kind = t.dword3 / 0x400 % 0x40;
            &&& is_stale(t, ring.ccs) ==> !more && y.st == (XhciState {
                ep1_in_has_trbs: false,
                ..x.st
            }) && y.mem == x.mem && y.tablet == x.tablet && y.pin == x.pin
            &&& !is_stale(t, ring.ccs) ==> {
                &&& more <==> kind != 1
                &&& goes_on(ring.dequeue, ring.ccs, t, y.st.ep1_in_ring.dequeue, y.st.ep1_in_ring.ccs)
                &&& y.st.ep1_in_ring.base == ring.base
                &&& y.st.ep0_ring == x.st.ep0_ring
                &&& y.st.cmd_ring_dequeue == x.st.cmd_ring_dequeue
                &&& kind != 1 ==> y.mem == x.mem && y.tablet == x.tablet && y.pin == x.pin
            }
        }),
{
    queued_trb_is_fetched(x, x.st.ep1_in_ring.dequeue, t);
    link_points(t);
}

/// The control endpoint's ring is followed in the same way while no request
/// is under way. What is no SETUP stage is passed over.
pub proof fn control_ring_is_followed(x: Xhci, t: RawTrb)
    requires
        queued(x, x.st.ep0_ring.dequeue, t),
        t.dword3 / 0x400 % 0x40 != 2,
    ensures
        ({
            let ring = x.st.ep0_ring;
            let (y, more) = x.ep0_step();
            &&& is_stale(t, ring.ccs) ==> !more && y == x
            &&& !is_stale(t, ring.ccs) ==> {
                &&& more
                &&& goes_on(ring.dequeue, ring.ccs, t, y.st.ep0_ring.dequeue, y.st.ep0_ring.ccs)
                &&& y == x.at_ep0(y.st.ep0_ring)
                &&& y.st.ep0_ring.base == ring.base
            }
        }),
{
    queued_trb_is_fetched(x, x.st.ep0_ring.dequeue, t);
    link_points(t);
}

/// The stages of a request are followed in the same way, up to the STATUS
/// stage. What is neither a DATA nor a STATUS stage is passed over.
pub proof fn stages_are_followed(x: Xhci, t: RawTrb, response: Option<Seq<u8>>)
    requires
        queued(x, x.st.ep0_ring.dequeue, t),
    ensures
        ({
            let ring = x.st.ep0_ring;
            let (y, more) = x.stage_step(response);
            let kind = t.dword3 / 0x400 % 0x40;
            &&& is_stale(t, ring.ccs) ==> !more && y == x
            &&& !is_stale(t, ring.ccs) ==> {
                &&& more <==> kind != 4
                &&& goes_on(ring.dequeue, ring.ccs, t, y.st.ep0_ring.dequeue, y.st.ep0_ring.ccs)
                &&& y.st.ep0_ring.base == ring.base
                &&& y.tablet == x.tablet
                &&& kind != 3 && kind != 4 ==> y == x.at_ep0(y.st.ep0_ring)
            }
        }),
{
    queued_trb_is_fetched(x, x.st.ep0_ring.dequeue, t);
    link_points(t);
}

/// The command ring is followed in the same way.
pub proof fn command_ring_is_followed(x: Xhci, t: RawTrb)
    requires
        queued(x, x.st.cmd_ring_dequeue, t),
    ensures
        ({
            let (y, more) = x.command_step();
            &&& is_stale(t, x.st.cmd_ring_ccs) ==> !more && y == x
            &&& !is_stale(t, x.st.cmd_ring_ccs) ==> {
                &&& more
                &&& goes_on(
                    x.st.cmd_ring_dequeue,
                    x.st.cmd_ring_ccs,
                    t,
                    y.st.cmd_ring_dequeue,
                    y.st.cmd_ring_ccs,
                )
                &&& y.st.cmd_ring_base == x.st.cmd_ring_base
                &&& y.tablet == x.tablet
                &&& t.dword3 / 0x400 % 0x40 == 6 ==> y.mem == x.mem && y.pin == x.pin
            }
        }),
{
    queued_trb_is_fetched(x, x.st.cmd_ring_dequeue, t);
    link_points(t);
}

/// What is not backed by guest memory is never followed.
pub proof fn unbacked_rings_end(x: Xhci, response: Option<Seq<u8>>)
    ensures
        !x.mem.maps(x.st.cmd_ring_dequeue as int, 16) ==> x.command_step() == (x, false),
        !x.mem.maps(x.st.ep0_ring.dequeue as int, 16) ==> x.ep0_step() == (x, false)
            && x.stage_step(response) == (x, false),
        !x.mem.maps(x.st.ep1_in_ring.dequeue as int, 16) ==> !x.ep1_step().1 && x.ep1_step().0.st
            == (XhciState { ep1_in_has_trbs: false, ..x.st }),
{
}

/// The completion code that a command of type `kind` is answered with.
pub open spec fn answered(kind: int, enabled: bool) -> int {
    if kind == 9 {
        if enabled {
            9
        } else {
            1
        }
    } else if kind == 11 || kind == 12 {
        if enabled {
            1
        } else {
            11
        }
    } else if kind == 13 || kind == 14 || kind == 16 || kind == 23 {
        1
    } else {
        5
    }
}

/// Every command is answered with a Command Completion Event that points at
/// it. There is one slot to enable, whose number the event carries; the
/// other events carry the slot that the command named.
pub proof fn commands_are_answered(x: Xhci, t: RawTrb)
    requires
        has_room(x),
        queued(x, x.st.cmd_ring_dequeue, t),
        !is_stale(t, x.st.cmd_ring_ccs),
        t.dword3 / 0x400 % 0x40 != 6,
    ensures
        ({
            let (y, more) = x.command_step();
            let kind = (t.dword3 / 0x400 % 0x40) as int;
            let enabled = x.st.slot_state != SlotState::Disabled;
            let slot = if kind == 9 {
                if enabled {
                    0
                } else {
                    1
                }
            } else {
                (t.dword3 / 0x100_0000) as int
            };
            is_event(
                found(x, y),
                x.st.cmd_ring_dequeue as int,
                answered(kind, enabled),
                0,
                33,
                0,
                slot,
                x.st.event_ring_pcs,
            )
        }),
{
    let addr = x.st.cmd_ring_dequeue;
    queued_trb_is_fetched(x, addr, t);
    let pcs = x.st.event_ring_pcs;
    let kind = t.dword3 / 0x400 % 0x40;
    let enabled = x.st.slot_state != SlotState::Disabled;
    let slot: u8 = if kind == 9 {
        if enabled {
            0
        } else {
            1
        }
    } else {
        (t.dword3 / 0x100_0000) as u8
    };
    let cc = answered(kind as int, enabled) as u32;
    let e = command_completion(addr, cc, slot);
    command_completion_is(addr, cc, slot, pcs);
    command_is_one_event(x, addr, t, e);
}

proof fn command_is_one_event(x: Xhci, addr: u64, t: RawTrb, e: RawTrb)
    requires
        has_room(x),
        ({
            let kind = (t.dword3 / 0x400 % 0x40) as int;
            let enabled = x.st.slot_state != SlotState::Disabled;
            let slot: u8 = if kind == 9 {
                if enabled {
                    0
                } else {
                    1
                }
            } else {
                (t.dword3 / 0x100_0000) as u8
            };
            e == command_completion(addr, answered(kind, enabled) as u32, slot)
        }),
    ensures
        found(x, x.command(addr, t)) == with_cycle(e, x.st.event_ring_pcs).bytes(),
{
    let y = x.command(addr, t);
    let z = Xhci {
        st: XhciState {
            slot_state: y.st.slot_state,
            ep0_ring: y.st.ep0_ring,
            ep1_in_ring: y.st.ep1_in_ring,
            ..x.st
        },
        ..x
    };
    posted_event_is_found(z, e);
    assert(y.mem == z.post_event(e).mem);
}

} // verus!
