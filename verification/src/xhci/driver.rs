//! What a driver's commands and register writes do to the controller, by the
//! offsets and bits that the driver uses.

use vstd::prelude::*;

use super::bits::RawTrb;
use super::guest::{dword_in, is_stale, pointer_of, queued, qword_in};
use super::model::{SlotState, TransferRing, Xhci, XhciState};

verus! {

/// What a command of type `kind` makes of the device slot.
pub open spec fn slot_after(kind: int, was: SlotState) -> SlotState {
    match was {
        SlotState::Disabled => if kind == 9 {
            SlotState::Enabled
        } else {
            SlotState::Disabled
        },
        _ => if kind == 11 {
            SlotState::Addressed
        } else if kind == 12 {
            SlotState::Configured
        } else {
            was
        },
    }
}

/// Enable Slot enables a disabled slot, Address Device and Configure Endpoint
/// move an enabled one on, and no other command moves it. The tablet, the
/// registers and the event ring's place are no command's business.
pub proof fn commands_move_the_slot(x: Xhci, addr: u64, t: RawTrb)
    ensures
        ({
            let y = x.command(addr, t);
            &&& y.st.slot_state == slot_after((t.dword3 / 0x400 % 0x40) as int, x.st.slot_state)
            &&& y.tablet == x.tablet
            &&& y.st == (XhciState {
                usbsts: y.st.usbsts,
                iman: y.st.iman,
                event_ring_enqueue: y.st.event_ring_enqueue,
                event_ring_pcs: y.st.event_ring_pcs,
                slot_state: y.st.slot_state,
                ep0_ring: y.st.ep0_ring,
                ep1_in_ring: y.st.ep1_in_ring,
                ..x.st
            })
        }),
{
}

/// Whether `ring` starts at the place that an endpoint context or command
/// names by `deq`: a 16-byte block, with the cycle state in the lowest bit.
pub open spec fn starts_at(ring: TransferRing, deq: int) -> bool {
    &&& ring.dequeue == deq - deq % 16
    &&& ring.ccs <==> deq % 2 == 1
}

proof fn context_ring_is(x: Xhci, addr: u64)
    ensures
        x.context_ring(addr) is Some <==> x.mem.maps(addr as int, 32),
        x.context_ring(addr) matches Some(ring) ==> starts_at(
            ring,
            qword_in(x.mem.read(addr as int, 32), 8),
        ) && ring.base == ring.dequeue,
{
    let s = x.mem.read(addr as int, 32);
    let deq = crate::bytes::le64(s, 8);
    assert(crate::bytes::le32(s, 8) == dword_in(s, 8));
    assert(crate::bytes::le32(s, 12) == dword_in(s, 12));
    assert(deq == qword_in(s, 8));
}

/// The control endpoint's ring is placed by Address Device, from the context
/// 64 bytes behind the input context, and moved by Set TR Dequeue Pointer for
/// endpoint 1. No other command touches it.
pub proof fn commands_place_the_control_ring(x: Xhci, addr: u64, t: RawTrb)
    ensures
        ({
            let y = x.command(addr, t);
            let kind = t.dword3 / 0x400 % 0x40;
            let p = pointer_of(t);
            let context = p - p % 16 + 64;
            let enabled = x.st.slot_state != SlotState::Disabled;
            let addressed = kind == 11 && enabled;
            let moved = kind == 16 && t.dword3 / 0x1_0000 % 0x20 == 1;
            &&& addressed && context <= u64::MAX && x.mem.maps(context, 32) ==> {
                &&& starts_at(y.st.ep0_ring, qword_in(x.mem.read(context, 32), 8))
                &&& y.st.ep0_ring.base == y.st.ep0_ring.dequeue
            }
            &&& addressed && context <= u64::MAX && !x.mem.maps(context, 32) ==> y.st.ep0_ring
                == x.st.ep0_ring
            &&& moved ==> starts_at(y.st.ep0_ring, p) && y.st.ep0_ring.base == x.st.ep0_ring.base
            &&& !addressed && !moved ==> y.st.ep0_ring == x.st.ep0_ring
        }),
{
    let p = t.spec_parameter();
    assert(p == pointer_of(t));
    context_ring_is(x, super::model::offset_by(super::model::aligned(p, 16), 64));
}

/// The interrupt endpoint's ring is placed by Configure Endpoint, from the
/// context 128 bytes behind the input context, and moved by Set TR Dequeue
/// Pointer for endpoint 3. No other command touches it.
pub proof fn commands_place_the_interrupt_ring(x: Xhci, addr: u64, t: RawTrb)
    ensures
        ({
            let y = x.command(addr, t);
            let kind = t.dword3 / 0x400 % 0x40;
            let p = pointer_of(t);
            let context = p - p % 16 + 128;
            let enabled = x.st.slot_state != SlotState::Disabled;
            let configured = kind == 12 && enabled;
            let moved = kind == 16 && t.dword3 / 0x1_0000 % 0x20 == 3;
            &&& configured && context <= u64::MAX && x.mem.maps(context, 32) ==> {
                &&& starts_at(y.st.ep1_in_ring, qword_in(x.mem.read(context, 32), 8))
                &&& y.st.ep1_in_ring.base == y.st.ep1_in_ring.dequeue
            }
            &&& configured && context <= u64::MAX && !x.mem.maps(context, 32) ==> y.st.ep1_in_ring
                == x.st.ep1_in_ring
            &&& moved ==> starts_at(y.st.ep1_in_ring, p) && y.st.ep1_in_ring.base
                == x.st.ep1_in_ring.base
            &&& !configured && !moved ==> y.st.ep1_in_ring == x.st.ep1_in_ring
        }),
{
    let p = t.spec_parameter();
    assert(p == pointer_of(t));
    context_ring_is(x, super::model::offset_by(super::model::aligned(p, 16), 128));
}

/// One TRB of the command ring, and whether another may follow.
#[verifier::opaque]
pub open spec fn next_command(x: Xhci) -> (Xhci, bool) {
    x.command_step()
}

#[verifier::opaque]
spec fn ran(x: Xhci, n: nat) -> Xhci {
    x.commands(n)
}

proof fn ran_by_one(x: Xhci, n: nat)
    ensures
        ran(x, 0) == x,
        n > 0 ==> ran(x, n) == if next_command(x).1 {
            ran(next_command(x).0, (n - 1) as nat)
        } else {
            next_command(x).0
        },
{
    reveal(next_command);
    reveal(ran);
}

/// The controller after `n` TRBs of the command ring.
pub open spec fn commanded(x: Xhci, n: nat) -> Xhci
    decreases n,
{
    if n == 0 {
        x
    } else {
        next_command(commanded(x, (n - 1) as nat)).0
    }
}

proof fn commands_are_steps(x: Xhci, done: nat, left: nat)
    requires
        forall|k: nat| done <= k < done + left ==> next_command(#[trigger] commanded(x, k)).1,
    ensures
        ran(commanded(x, done), left) == commanded(x, done + left),
    decreases left,
{
    let y = commanded(x, done);
    ran_by_one(y, left);
    if left > 0 {
        assert(next_command(y).1);
        assert(commanded(x, done + 1) == next_command(y).0);
        commands_are_steps(x, done + 1, (left - 1) as nat);
    }
}

/// One ring of the command doorbell takes sixteen TRBs where so many are
/// queued, and none where no command ring was placed.
pub proof fn doorbell_takes_sixteen_commands(x: Xhci)
    ensures
        x.st.cmd_ring_base != 0 && (forall|k: nat|
            k < 16 ==> next_command(#[trigger] commanded(x, k)).1) ==> x.process_command_ring()
            == commanded(x, 16),
        x.st.cmd_ring_base == 0 ==> x.process_command_ring() == x,
{
    if x.st.cmd_ring_base != 0 && (forall|k: nat|
        k < 16 ==> next_command(#[trigger] commanded(x, k)).1) {
        commands_are_steps(x, 0, 16);
        assert(commanded(x, 0) == x);
        reveal(ran);
    }
}

/// One ring of the command doorbell runs a single queued command and stops.
pub proof fn doorbell_stops_at_the_end(x: Xhci)
    ensures
        x.st.cmd_ring_base != 0 && !x.command_step().1 ==> x.process_command_ring()
            == x.command_step().0,
        x.st.cmd_ring_base != 0 && x.command_step().1 && !x.command_step().0.command_step().1
            ==> x.process_command_ring() == x.command_step().0.command_step().0,
{
    let y = x.command_step().0;
    assert(x.commands(16) == if x.command_step().1 {
        y.commands(15)
    } else {
        y
    });
    assert(y.commands(15) == if y.command_step().1 {
        y.command_step().0.commands(14)
    } else {
        y.command_step().0
    });
}

/// One TRB of the control endpoint's ring, and whether another may follow.
#[verifier::opaque]
pub open spec fn next_transfer(x: Xhci) -> (Xhci, bool) {
    x.ep0_step()
}

#[verifier::opaque]
spec fn transferred(x: Xhci, n: nat) -> Xhci {
    x.ep0(n)
}

proof fn transferred_by_one(x: Xhci, n: nat)
    ensures
        transferred(x, 0) == x,
        n > 0 ==> transferred(x, n) == if next_transfer(x).1 {
            transferred(next_transfer(x).0, (n - 1) as nat)
        } else {
            next_transfer(x).0
        },
{
    reveal(next_transfer);
    reveal(transferred);
}

/// The controller after `n` TRBs of the control endpoint's ring.
pub open spec fn controlled(x: Xhci, n: nat) -> Xhci
    decreases n,
{
    if n == 0 {
        x
    } else {
        next_transfer(controlled(x, (n - 1) as nat)).0
    }
}

proof fn control_is_steps(x: Xhci, done: nat, left: nat)
    requires
        forall|k: nat| done <= k < done + left ==> next_transfer(#[trigger] controlled(x, k)).1,
    ensures
        transferred(controlled(x, done), left) == controlled(x, done + left),
    decreases left,
{
    let y = controlled(x, done);
    transferred_by_one(y, left);
    if left > 0 {
        assert(next_transfer(y).1);
        assert(controlled(x, done + 1) == next_transfer(y).0);
        control_is_steps(x, done + 1, (left - 1) as nat);
    }
}

/// One ring of the control endpoint's doorbell takes 32 TRBs where so many
/// are queued.
pub proof fn doorbell_takes_thirty_two_transfers(x: Xhci, bytes: Seq<u8>)
    requires
        bytes.len() == 4,
        bytes[0] == 1,
        forall|k: nat| k < 32 ==> next_transfer(#[trigger] controlled(x, k)).1,
    ensures
        x.write_bar0(0x444, bytes) == controlled(x, 32),
{
    super::guest::doorbell_names_its_ring(x, bytes);
    control_is_steps(x, 0, 32);
    assert(controlled(x, 0) == x);
    reveal(transferred);
}

/// The controller after `n` TRBs behind a SETUP stage.
pub open spec fn staged(x: Xhci, response: Option<Seq<u8>>, n: nat) -> Xhci
    decreases n,
{
    if n == 0 {
        x
    } else {
        staged(x, response, (n - 1) as nat).stage_step(response).0
    }
}

proof fn stages_are_steps(x: Xhci, response: Option<Seq<u8>>, done: nat, left: nat)
    requires
        forall|k: nat|
            done <= k < done + left ==> (#[trigger] staged(x, response, k)).stage_step(response).1,
    ensures
        staged(x, response, done).stages(response, left) == staged(x, response, done + left),
    decreases left,
{
    if left > 0 {
        let y = staged(x, response, done);
        assert(y.stage_step(response).1);
        assert(staged(x, response, done + 1) == y.stage_step(response).0);
        stages_are_steps(x, response, done + 1, (left - 1) as nat);
    }
}

/// A request runs to its end: the stages are taken one by one until the one
/// that ends it, as far as the eighth.
pub proof fn stages_run_to_the_end(x: Xhci, response: Option<Seq<u8>>, n: nat)
    requires
        n < 8,
        forall|k: nat| k < n ==> (#[trigger] staged(x, response, k)).stage_step(response).1,
        !staged(x, response, n).stage_step(response).1,
    ensures
        x.stages(response, 8) == staged(x, response, n + 1),
{
    stages_end(x, response, 0, n, 8);
    assert(staged(x, response, 0) == x);
}

proof fn stages_end(x: Xhci, response: Option<Seq<u8>>, done: nat, n: nat, left: nat)
    requires
        done <= n,
        n - done < left,
        forall|k: nat| k < n ==> (#[trigger] staged(x, response, k)).stage_step(response).1,
        !staged(x, response, n).stage_step(response).1,
    ensures
        staged(x, response, done).stages(response, left) == staged(x, response, n + 1),
    decreases left,
{
    let y = staged(x, response, done);
    assert(staged(x, response, done + 1) == y.stage_step(response).0);
    if done < n {
        assert(y.stage_step(response).1);
        stages_end(x, response, done + 1, n, (left - 1) as nat);
    }
}

/// The controller after `n` TRBs of the interrupt endpoint's ring.
pub open spec fn reported(x: Xhci, n: nat) -> Xhci
    decreases n,
{
    if n == 0 {
        x
    } else {
        reported(x, (n - 1) as nat).ep1_step().0
    }
}

proof fn reports_end(x: Xhci, done: nat, n: nat, left: nat)
    requires
        done <= n,
        n - done < left,
        forall|k: nat| k < n ==> (#[trigger] reported(x, k)).ep1_step().1,
        !reported(x, n).ep1_step().1,
    ensures
        reported(x, done).ep1_walk(left) == reported(x, n + 1),
    decreases left,
{
    let y = reported(x, done);
    assert(reported(x, done + 1) == y.ep1_step().0);
    if done < n {
        assert(y.ep1_step().1);
        reports_end(x, done + 1, n, (left - 1) as nat);
    }
}

/// A pending report finds its TRB behind up to three others.
pub proof fn report_finds_its_trb(x: Xhci, n: nat)
    requires
        n < 4,
        x.st.slot_state == SlotState::Configured,
        x.tablet.report_pending,
        forall|k: nat| k < n ==> (#[trigger] reported(x, k)).ep1_step().1,
        !reported(x, n).ep1_step().1,
    ensures
        x.ep1() == reported(x, n + 1),
{
    reports_end(x, 0, n, 4);
    assert(reported(x, 0) == x);
}

/// A DATA stage towards the host puts the answer in the TRB's buffer, as much
/// of it as the TRB takes, where the event that follows is not stored over it.
pub proof fn answers_reach_the_buffer(
    x: Xhci,
    m: crate::mem::PhysMap,
    t: RawTrb,
    answer: Seq<u8>,
)
    requires
        m.wf(),
        x.mem == m@,
        queued(x, x.st.ep0_ring.dequeue, t),
        !is_stale(t, x.st.ep0_ring.ccs),
        t.dword3 / 0x400 % 0x40 == 3,
        t.dword3 / 0x1_0000 % 2 == 1,
        answer.len() <= t.dword2 % 0x2_0000,
        x.mem.maps(pointer_of(t), answer.len() as int),
        super::laws::event_is_clear_of(x, pointer_of(t), answer.len() as int),
    ensures
        x.stage_step(Some(answer)).0.mem.read(pointer_of(t), answer.len() as int) == answer,
{
    super::guest::queued_trb_is_fetched(x, x.st.ep0_ring.dequeue, t);
    assert(t.spec_parameter() == pointer_of(t));
    assert(answer.take(answer.len() as int) =~= answer);
    super::laws::delivered_bytes_are_read(x, m, x.st.ep0_ring.dequeue, t, answer, 1);
}

/// The answer to a SETUP stage is what its stages carry: behind the event for
/// the SETUP itself they run with the device's answer to the request in the
/// TRB's eight bytes, up to the one that ends it.
pub proof fn stages_carry_the_answer(x: Xhci, t: RawTrb, n: nat)
    requires
        queued(x, x.st.ep0_ring.dequeue, t),
        n < 8,
        ({
            let (begun, answer) = begun(x);
            &&& forall|k: nat|
                k < n ==> (#[trigger] staged(begun, answer, k)).stage_step(answer).1
            &&& !staged(begun, answer, n).stage_step(answer).1
        }),
    ensures
        x.setup_stage(t) == staged(begun(x).0, begun(x).1, n + 1),
{
    let s = x.mem.read(x.st.ep0_ring.dequeue as int, 16);
    super::guest::words_of_dword(s, 0);
    super::guest::words_of_dword(s, 4);
    let (start, answer) = begun(x);
    stages_run_to_the_end(start, answer, n);
}

/// The controller behind the event for a SETUP stage, and the device's answer
/// to the request in the eight bytes that the ring holds.
pub open spec fn begun(x: Xhci) -> (Xhci, Option<Seq<u8>>) {
    let ring = x.st.ep0_ring;
    let s = x.mem.read(ring.dequeue as int, 16);
    let (tablet, answer) = super::tablet::control(
        x.tablet,
        s[0],
        s[1],
        (s[2] + 0x100 * s[3]) as u16,
        (s[6] + 0x100 * s[7]) as u16,
    );
    let posted = Xhci { tablet, ..x }.post_event(
        super::model::transfer_event(ring.dequeue, 1, 8, 1),
    );
    (
        Xhci {
            st: XhciState {
                ep0_ring: TransferRing { dequeue: (ring.dequeue + 16) as u64, ..ring },
                ..posted.st
            },
            ..posted
        },
        answer,
    )
}

} // verus!
