//! What holds of the host controller across guest actions.

use vstd::prelude::*;

use super::bits::{
    RawTrb, CRCR_CRR, DBOFF, IMAN_IE, IR0_BASE, IR_ERDP, IR_ERSTBA, IR_ERSTSZ, OP_BASE, OP_CRCR,
    OP_DCBAAP, OP_USBCMD, RTSOFF, TRB_CC_SHORT_PACKET, TRB_CC_SUCCESS, TRB_TYPE_NORMAL,
    USBCMD_HCRST, USBCMD_INTE,
};
use super::model::{
    advanced, aligned, bar0_read, high, low, power_on, transfer_event, with_cycle, with_high,
    with_low, SlotState, Xhci, XhciState,
};
use super::tablet::{pointed, TabletState, REPORT_SIZE};
use crate::access::{
    bytes_of_written64, dword_at, written32, written64, written64_of_halves,
};
use crate::bytes::{le32_bytes, le64_bytes};
use crate::intr::PinOp;

verus! {

/// What an event can change: the event ring's position, the two interrupt
/// status registers, the pin and guest memory.
proof fn post_event_frame(x: Xhci, event: RawTrb)
    ensures
        ({
            let y = x.post_event(event);
            &&& y.st == (XhciState {
                usbsts: y.st.usbsts,
                iman: y.st.iman,
                event_ring_enqueue: y.st.event_ring_enqueue,
                event_ring_pcs: y.st.event_ring_pcs,
                ..x.st
            })
            &&& y.tablet == x.tablet
            &&& y.has_pin == x.has_pin
            &&& y.bar0 == x.bar0
            &&& y.mem.spans == x.mem.spans
            &&& x.st.wf() ==> y.st.wf()
        }),
{
}

proof fn command_keeps(x: Xhci, addr: u64, t: RawTrb)
    ensures
        x.st.wf() ==> x.command(addr, t).st.wf(),
        x.st.slot_state != SlotState::Disabled ==> x.command(addr, t).st.slot_state
            != SlotState::Disabled,
{
}

proof fn commands_keep(x: Xhci, n: nat)
    ensures
        x.st.wf() ==> x.commands(n).st.wf(),
        x.st.slot_state != SlotState::Disabled ==> x.commands(n).st.slot_state
            != SlotState::Disabled,
    decreases n,
{
    if n > 0 {
        let (y, more) = x.command_step();
        let addr = x.st.cmd_ring_dequeue;
        match x.fetch(addr) {
            Some(t) => {
                command_keeps(x, addr, t);
            },
            None => {},
        }
        if more {
            commands_keep(y, (n - 1) as nat);
        }
    }
}

proof fn data_stage_keeps(x: Xhci, addr: u64, t: RawTrb, response: Option<Seq<u8>>)
    ensures
        x.st.wf() ==> x.data_stage(addr, t, response).st.wf(),
        x.data_stage(addr, t, response).st.slot_state == x.st.slot_state,
{
}

proof fn stage_step_keeps(x: Xhci, response: Option<Seq<u8>>)
    ensures
        x.st.wf() ==> x.stage_step(response).0.st.wf(),
        x.stage_step(response).0.st.slot_state == x.st.slot_state,
{
    let ring = x.st.ep0_ring;
    match x.fetch(ring.dequeue) {
        Some(t) => {
            data_stage_keeps(x, ring.dequeue, t, response);
            let cc = if response is Some {
                super::bits::TRB_CC_SUCCESS
            } else {
                super::bits::TRB_CC_STALL
            };
            post_event_frame(x, super::model::transfer_event(ring.dequeue, cc, 0, 1));
        },
        None => {},
    }
}

proof fn stages_keep(x: Xhci, response: Option<Seq<u8>>, n: nat)
    ensures
        x.st.wf() ==> x.stages(response, n).st.wf(),
        x.stages(response, n).st.slot_state == x.st.slot_state,
    decreases n,
{
    if n > 0 {
        stage_step_keeps(x, response);
        let (y, more) = x.stage_step(response);
        if more {
            stages_keep(y, response, (n - 1) as nat);
        }
    }
}

proof fn ep0_keeps(x: Xhci, n: nat)
    ensures
        x.st.wf() ==> x.ep0(n).st.wf(),
        x.ep0(n).st.slot_state == x.st.slot_state,
    decreases n,
{
    if n > 0 {
        let (y, more) = x.ep0_step();
        let ring = x.st.ep0_ring;
        match x.fetch(ring.dequeue) {
            Some(t) => {
                setup_stage_keeps(x, t);
            },
            None => {},
        }
        if more {
            ep0_keeps(y, (n - 1) as nat);
        }
    }
}

proof fn setup_stage_keeps(x: Xhci, t: RawTrb)
    ensures
        x.st.wf() ==> x.setup_stage(t).st.wf(),
        x.setup_stage(t).st.slot_state == x.st.slot_state,
{
    let ring = x.st.ep0_ring;
    let c = super::tablet::control(
        x.tablet,
        (t.dword0 % 0x100) as u8,
        (t.dword0 / 0x100 % 0x100) as u8,
        (t.dword0 / 0x1_0000) as u16,
        (t.dword1 / 0x1_0000) as u16,
    );
    let e = super::model::transfer_event(ring.dequeue, super::bits::TRB_CC_SUCCESS, 8, 1);
    let y = Xhci { tablet: c.0, ..x };
    post_event_frame(y, e);
    stages_keep(
        y.post_event(e).at_ep0(super::model::advanced(ring)),
        c.1,
        super::model::STAGES_PER_SETUP as nat,
    );
}

proof fn ep1_walk_keeps(x: Xhci, n: nat)
    ensures
        x.st.wf() ==> x.ep1_walk(n).st.wf(),
        x.ep1_walk(n).st.slot_state == x.st.slot_state,
    decreases n,
{
    if n > 0 {
        let (y, more) = x.ep1_step();
        if more {
            ep1_walk_keeps(y, (n - 1) as nat);
        }
    }
}

proof fn aligned_multiples(x: u64)
    ensures
        aligned(x, 64) % 64 == 0,
        aligned(x, 16) % 16 == 0,
{
}

proof fn write_usbcmd_keeps(x: Xhci, val: u32)
    ensures
        x.st.wf() ==> x.write_usbcmd(val).st.wf(),
        x.write_usbcmd(val).st.slot_state == x.st.slot_state || val & USBCMD_HCRST != 0,
{
}

proof fn write_port_keeps(x: Xhci, op_off: int, val: u32)
    ensures
        x.st.wf() ==> x.write_port(op_off, val).st.wf(),
        x.write_port(op_off, val).st.slot_state == x.st.slot_state,
{
}

proof fn write_crcr_keeps(x: Xhci, val: u64)
    ensures
        x.st.wf() ==> x.write_crcr(val).st.wf(),
        x.write_crcr(val).st.slot_state == x.st.slot_state,
{
    aligned_multiples(val);
}

proof fn write_op_keeps(x: Xhci, op_off: int, bytes: Seq<u8>)
    ensures
        x.st.wf() ==> x.write_op(op_off, bytes).st.wf(),
        x.write_op(op_off, bytes).st.slot_state == x.st.slot_state || (OP_USBCMD <= op_off
            < OP_USBCMD + 4 && written32(bytes) & USBCMD_HCRST != 0),
{
    let val = written32(bytes);
    let wide = written64(bytes);
    write_usbcmd_keeps(x, val);
    write_port_keeps(x, op_off, val);
    write_crcr_keeps(x, wide);
    write_crcr_keeps(x, with_low(x.st.crcr, val));
    write_crcr_keeps(x, with_high(x.st.crcr, val));
}

proof fn write_erstba_keeps(x: Xhci, val: u64)
    ensures
        x.st.wf() ==> x.write_erstba(val).st.wf() && x.write_erdp(val).st.wf(),
        x.write_erstba(val).st.slot_state == x.st.slot_state,
        x.write_erdp(val).st.slot_state == x.st.slot_state,
{
    aligned_multiples(val);
}

proof fn write_runtime_keeps(x: Xhci, rt_off: int, bytes: Seq<u8>)
    ensures
        x.st.wf() ==> x.write_runtime(rt_off, bytes).st.wf(),
        x.write_runtime(rt_off, bytes).st.slot_state == x.st.slot_state,
{
    let val = written32(bytes);
    let wide = written64(bytes);
    write_erstba_keeps(x, wide);
    write_erstba_keeps(x, with_low(x.st.erstba, val));
    write_erstba_keeps(x, with_high(x.st.erstba, val));
    write_erstba_keeps(x, with_low(x.st.erdp, val));
    write_erstba_keeps(x, with_high(x.st.erdp, val));
}

proof fn write_doorbell_keeps(x: Xhci, db_off: int, bytes: Seq<u8>)
    ensures
        x.st.wf() ==> x.write_doorbell(db_off, bytes).st.wf(),
        x.st.slot_state != SlotState::Disabled ==> x.write_doorbell(db_off, bytes).st.slot_state
            != SlotState::Disabled,
{
    commands_keep(x, super::model::COMMANDS_PER_DOORBELL as nat);
    ep0_keeps(x, super::model::EP0_PER_DOORBELL as nat);
    ep1_walk_keeps(x, super::model::EP1_PER_REPORT as nat);
}

/// Every guest write keeps the controller's invariant: the event ring index
/// stays inside the ring, the ring inside its bound, and no register passes
/// what it advertises.
pub proof fn write_keeps_invariant(x: Xhci, offset: int, bytes: Seq<u8>)
    requires
        x.st.wf(),
    ensures
        x.write_bar0(offset, bytes).st.wf(),
{
    write_op_keeps(x, offset - OP_BASE, bytes);
    write_runtime_keeps(x, offset - RTSOFF, bytes);
    write_doorbell_keeps(x, offset - DBOFF, bytes);
}

/// Every pointer event keeps the controller's invariant.
pub proof fn pointer_keeps_invariant(x: Xhci, buttons: u8, px: u16, py: u16)
    requires
        x.st.wf(),
    ensures
        x.pointer(buttons, px, py).st.wf(),
{
    let y = Xhci { tablet: super::tablet::pointed(x.tablet, buttons, px, py), ..x };
    ep1_walk_keeps(y, super::model::EP1_PER_REPORT as nat);
}

/// Once the slot is enabled only a host controller reset disables it: a
/// second enable is refused until then.
pub proof fn slot_stays_enabled(x: Xhci, offset: int, bytes: Seq<u8>)
    requires
        x.st.slot_state != SlotState::Disabled,
        x.write_bar0(offset, bytes).st.slot_state == SlotState::Disabled,
    ensures
        OP_BASE + OP_USBCMD <= offset < OP_BASE + OP_USBCMD + 4,
        written32(bytes) & USBCMD_HCRST != 0,
{
    write_op_keeps(x, offset - OP_BASE, bytes);
    write_runtime_keeps(x, offset - RTSOFF, bytes);
    write_doorbell_keeps(x, offset - DBOFF, bytes);
}

/// A reset puts every register back to its power-on value but the ports and
/// the notification control, and no event ring, command ring or device slot
/// is left.
pub proof fn reset_is_power_on(x: Xhci, bytes: Seq<u8>)
    requires
        bytes.len() != 8,
        written32(bytes) & USBCMD_HCRST != 0,
    ensures
        ({
            let y = x.write_bar0(OP_BASE + OP_USBCMD, bytes);
            &&& y.st == (XhciState {
                dnctrl: x.st.dnctrl,
                port1_sc: x.st.port1_sc,
                port2_sc: y.st.port2_sc,
                ..power_on()
            })
            &&& y.tablet == x.tablet
            &&& forall|event: RawTrb| #[trigger] y.post_event(event) == y
            &&& y.process_command_ring() == y
        }),
{
}

proof fn qword_op_writes(x: Xhci, bytes: Seq<u8>, val: u64)
    requires
        bytes.len() == 8,
        written64(bytes) == val,
    ensures
        x.write_op(OP_DCBAAP as int, bytes) == (Xhci {
            st: XhciState { dcbaap: val, ..x.st },
            ..x
        }),
        x.write_op(OP_CRCR as int, bytes) == x.write_crcr(val),
{
}

proof fn qword_runtime_writes(x: Xhci, bytes: Seq<u8>, val: u64)
    requires
        bytes.len() == 8,
        written64(bytes) == val,
    ensures
        x.write_runtime(IR0_BASE + IR_ERSTBA, bytes) == x.write_erstba(val),
        x.write_runtime(IR0_BASE + IR_ERDP, bytes) == x.write_erdp(val),
{
}

proof fn wide_registers_read(st: XhciState)
    ensures
        bar0_read(st, OP_BASE + OP_DCBAAP, 8) == le64_bytes(st.dcbaap),
        bar0_read(st, OP_BASE + OP_CRCR, 8) == le64_bytes(st.crcr),
        bar0_read(st, RTSOFF + IR0_BASE + IR_ERSTBA, 8) == le64_bytes(st.erstba),
        bar0_read(st, RTSOFF + IR0_BASE + IR_ERDP, 8) == le64_bytes(st.erdp),
{
}

proof fn op_write_of_bar0(x: Xhci, op_off: int, bytes: Seq<u8>)
    requires
        0 <= op_off,
        OP_BASE + op_off < DBOFF,
    ensures
        x.write_bar0(OP_BASE + op_off, bytes) == x.write_op(op_off, bytes),
{
}

proof fn runtime_write_of_bar0(x: Xhci, rt_off: int, bytes: Seq<u8>)
    requires
        0 <= rt_off,
        RTSOFF + rt_off < super::bits::XCAP_BASE,
    ensures
        x.write_bar0(RTSOFF + rt_off, bytes) == x.write_runtime(rt_off, bytes),
{
}

/// An eight-byte write of DCBAAP is read back whole, by one access or by two.
pub proof fn dcbaap_reads_back(x: Xhci, bytes: Seq<u8>)
    requires
        bytes.len() == 8,
    ensures
        ({
            let off = OP_BASE + OP_DCBAAP;
            let y = x.write_bar0(off, bytes);
            &&& y == (Xhci { st: XhciState { dcbaap: written64(bytes), ..x.st }, ..x })
            &&& bar0_read(y.st, off, 8) == bytes
            &&& bar0_read(y.st, off, 4) + bar0_read(y.st, off + 4, 4) == bytes
        }),
{
    let val = written64(bytes);
    op_write_of_bar0(x, OP_DCBAAP as int, bytes);
    qword_op_writes(x, bytes, val);
    let y = Xhci { st: XhciState { dcbaap: val, ..x.st }, ..x };
    registers_read_by_halves(y.st);
    bytes_of_written64(bytes);
}

/// Two dword writes, in either order, leave a 64-bit register as one qword
/// write does.
pub proof fn split_writes_agree(reg: u64, val: u64)
    ensures
        ({
            let lo = (val % 0x1_0000_0000) as u32;
            let hi = (val / 0x1_0000_0000) as u32;
            &&& with_high(with_low(reg, lo), hi) == val
            &&& with_low(with_high(reg, hi), lo) == val
        }),
{
}

/// An eight-byte write of CRCR places the command ring, and reads back
/// without the running bit.
pub proof fn crcr_reads_back(x: Xhci, bytes: Seq<u8>)
    requires
        bytes.len() == 8,
    ensures
        ({
            let off = OP_BASE + OP_CRCR;
            let val = written64(bytes);
            let y = x.write_bar0(off, bytes);
            &&& y.st.cmd_ring_base == aligned(val, 64)
            &&& y.st.cmd_ring_dequeue == aligned(val, 64)
            &&& y.st.cmd_ring_ccs == (val % 2 == 1)
            &&& bar0_read(y.st, off, 8) == le64_bytes(val & !CRCR_CRR)
        }),
{
    let val = written64(bytes);
    op_write_of_bar0(x, OP_CRCR as int, bytes);
    qword_op_writes(x, bytes, val);
    wide_registers_read(x.write_crcr(val).st);
}

/// An eight-byte write of ERSTBA or ERDP reads back aligned to what the
/// register can hold.
pub proof fn event_ring_pointers_read_back(x: Xhci, bytes: Seq<u8>)
    requires
        bytes.len() == 8,
    ensures
        ({
            let off = RTSOFF + IR0_BASE + IR_ERSTBA;
            let y = x.write_bar0(off, bytes);
            bar0_read(y.st, off, 8) == le64_bytes(aligned(written64(bytes), 64))
        }),
        ({
            let off = RTSOFF + IR0_BASE + IR_ERDP;
            let y = x.write_bar0(off, bytes);
            bar0_read(y.st, off, 8) == le64_bytes(aligned(written64(bytes), 16))
        }),
{
    let val = written64(bytes);
    runtime_write_of_bar0(x, IR0_BASE + IR_ERSTBA, bytes);
    runtime_write_of_bar0(x, IR0_BASE + IR_ERDP, bytes);
    qword_runtime_writes(x, bytes, val);
    wide_registers_read(x.write_erstba(val).st);
    wide_registers_read(x.write_erdp(val).st);
}

/// How a guest writes a 64-bit register.
pub ghost enum Way {
    /// By one access.
    Whole,
    /// By its halves, the low one first.
    LowFirst,
    /// By its halves, the high one first.
    HighFirst,
}

/// The controller after one guest write.
#[verifier::opaque]
pub open spec fn after_write(x: Xhci, off: int, bytes: Seq<u8>) -> Xhci {
    x.write_bar0(off, bytes)
}

/// The controller after the halves `lo` and `hi` of a value were written to
/// the 64-bit register at `off`.
pub open spec fn wrote(x: Xhci, off: int, lo: Seq<u8>, hi: Seq<u8>, way: Way) -> Xhci {
    match way {
        Way::Whole => after_write(x, off, lo + hi),
        Way::LowFirst => after_write(after_write(x, off, lo), off + 4, hi),
        Way::HighFirst => after_write(after_write(x, off + 4, hi), off, lo),
    }
}

/// The 64-bit register at `off` reads as `val`, whole and by its halves.
pub open spec fn reads_as(st: XhciState, off: int, val: u64) -> bool {
    &&& bar0_read(st, off, 8) == le64_bytes(val)
    &&& bar0_read(st, off, 4) == le32_bytes(low(val))
    &&& bar0_read(st, off + 4, 4) == le32_bytes(high(val))
}

proof fn dword_reads_whole(val: u32, offset: int)
    requires
        offset % 4 == 0,
    ensures
        dword_at(val, offset, 4) == le32_bytes(val),
{
    assert(dword_at(val, offset, 4) =~= le32_bytes(val));
}

proof fn registers_read_by_halves(st: XhciState)
    ensures
        reads_as(st, OP_BASE + OP_CRCR, st.crcr),
        reads_as(st, OP_BASE + OP_DCBAAP, st.dcbaap),
        reads_as(st, RTSOFF + IR0_BASE + IR_ERSTBA, st.erstba),
        reads_as(st, RTSOFF + IR0_BASE + IR_ERDP, st.erdp),
{
    wide_registers_read(st);
    dword_reads_whole(low(st.crcr), 0x18);
    dword_reads_whole(high(st.crcr), 0x1C);
    dword_reads_whole(low(st.dcbaap), 0x30);
    dword_reads_whole(high(st.dcbaap), 0x34);
    dword_reads_whole(low(st.erstba), 0x30);
    dword_reads_whole(high(st.erstba), 0x34);
    dword_reads_whole(low(st.erdp), 0x38);
    dword_reads_whole(high(st.erdp), 0x3C);
}

spec fn dcbaap_set(x: Xhci, val: u64) -> Xhci {
    Xhci { st: XhciState { dcbaap: val, ..x.st }, ..x }
}

proof fn op_dword_writes(x: Xhci, bytes: Seq<u8>, val: u32)
    requires
        bytes.len() == 4,
        written32(bytes) == val,
    ensures
        x.write_op(OP_DCBAAP as int, bytes) == dcbaap_set(x, with_low(x.st.dcbaap, val)),
        x.write_op(OP_DCBAAP + 4, bytes) == dcbaap_set(x, with_high(x.st.dcbaap, val)),
        x.write_op(OP_CRCR as int, bytes) == x.write_crcr(with_low(x.st.crcr, val)),
        x.write_op(OP_CRCR + 4, bytes) == x.write_crcr(with_high(x.st.crcr, val)),
{
}

proof fn runtime_dword_writes(x: Xhci, bytes: Seq<u8>, val: u32)
    requires
        bytes.len() == 4,
        written32(bytes) == val,
    ensures
        x.write_runtime(IR0_BASE + IR_ERSTBA, bytes) == x.write_erstba(
            with_low(x.st.erstba, val),
        ),
        x.write_runtime(IR0_BASE + IR_ERSTBA + 4, bytes) == x.write_erstba(
            with_high(x.st.erstba, val),
        ),
        x.write_runtime(IR0_BASE + IR_ERDP, bytes) == x.write_erdp(with_low(x.st.erdp, val)),
        x.write_runtime(IR0_BASE + IR_ERDP + 4, bytes) == x.write_erdp(with_high(x.st.erdp, val)),
{
}

proof fn dcbaap_writes(x: Xhci, bytes: Seq<u8>)
    ensures
        bytes.len() == 8 ==> after_write(x, OP_BASE + OP_DCBAAP, bytes) == dcbaap_set(
            x,
            written64(bytes),
        ),
        bytes.len() == 4 ==> after_write(x, OP_BASE + OP_DCBAAP, bytes) == dcbaap_set(
            x,
            with_low(x.st.dcbaap, written32(bytes)),
        ),
        bytes.len() == 4 ==> after_write(x, OP_BASE + OP_DCBAAP + 4, bytes) == dcbaap_set(
            x,
            with_high(x.st.dcbaap, written32(bytes)),
        ),
{
    reveal(after_write);
    op_write_of_bar0(x, OP_DCBAAP as int, bytes);
    op_write_of_bar0(x, OP_DCBAAP + 4, bytes);
    if bytes.len() == 8 {
        qword_op_writes(x, bytes, written64(bytes));
    } else if bytes.len() == 4 {
        op_dword_writes(x, bytes, written32(bytes));
    }
}

proof fn crcr_writes(x: Xhci, bytes: Seq<u8>)
    ensures
        bytes.len() == 8 ==> after_write(x, OP_BASE + OP_CRCR, bytes) == x.write_crcr(
            written64(bytes),
        ),
        bytes.len() == 4 ==> after_write(x, OP_BASE + OP_CRCR, bytes) == x.write_crcr(
            with_low(x.st.crcr, written32(bytes)),
        ),
        bytes.len() == 4 ==> after_write(x, OP_BASE + OP_CRCR + 4, bytes) == x.write_crcr(
            with_high(x.st.crcr, written32(bytes)),
        ),
{
    reveal(after_write);
    op_write_of_bar0(x, OP_CRCR as int, bytes);
    op_write_of_bar0(x, OP_CRCR + 4, bytes);
    if bytes.len() == 8 {
        qword_op_writes(x, bytes, written64(bytes));
    } else if bytes.len() == 4 {
        op_dword_writes(x, bytes, written32(bytes));
    }
}

proof fn erdp_writes(x: Xhci, bytes: Seq<u8>)
    ensures
        bytes.len() == 8 ==> after_write(x, RTSOFF + IR0_BASE + IR_ERDP, bytes) == x.write_erdp(
            written64(bytes),
        ),
        bytes.len() == 4 ==> after_write(x, RTSOFF + IR0_BASE + IR_ERDP, bytes) == x.write_erdp(
            with_low(x.st.erdp, written32(bytes)),
        ),
        bytes.len() == 4 ==> after_write(x, RTSOFF + IR0_BASE + IR_ERDP + 4, bytes)
            == x.write_erdp(with_high(x.st.erdp, written32(bytes))),
{
    reveal(after_write);
    runtime_write_of_bar0(x, IR0_BASE + IR_ERDP, bytes);
    runtime_write_of_bar0(x, IR0_BASE + IR_ERDP + 4, bytes);
    if bytes.len() == 8 {
        qword_runtime_writes(x, bytes, written64(bytes));
    } else if bytes.len() == 4 {
        runtime_dword_writes(x, bytes, written32(bytes));
    }
}

proof fn erstba_writes(x: Xhci, bytes: Seq<u8>)
    ensures
        bytes.len() == 8 ==> after_write(x, RTSOFF + IR0_BASE + IR_ERSTBA, bytes) == x.write_erstba(
            written64(bytes),
        ),
        bytes.len() == 4 ==> after_write(x, RTSOFF + IR0_BASE + IR_ERSTBA, bytes) == x.write_erstba(
            with_low(x.st.erstba, written32(bytes)),
        ),
        bytes.len() == 4 ==> after_write(x, RTSOFF + IR0_BASE + IR_ERSTBA + 4, bytes)
            == x.write_erstba(with_high(x.st.erstba, written32(bytes))),
{
    reveal(after_write);
    runtime_write_of_bar0(x, IR0_BASE + IR_ERSTBA, bytes);
    runtime_write_of_bar0(x, IR0_BASE + IR_ERSTBA + 4, bytes);
    if bytes.len() == 8 {
        qword_runtime_writes(x, bytes, written64(bytes));
    } else if bytes.len() == 4 {
        runtime_dword_writes(x, bytes, written32(bytes));
    }
}

proof fn dcbaap_written(x: Xhci, lo: Seq<u8>, hi: Seq<u8>, val: u64, way: Way)
    requires
        lo.len() == 4,
        hi.len() == 4,
        (lo + hi).len() == 8,
        written64(lo + hi) == val,
        written32(lo) == low(val),
        written32(hi) == high(val),
    ensures
        wrote(x, OP_BASE + OP_DCBAAP, lo, hi, way) == dcbaap_set(x, val),
{
    let off = OP_BASE + OP_DCBAAP;
    split_writes_agree(x.st.dcbaap, val);
    match way {
        Way::Whole => {
            dcbaap_writes(x, lo + hi);
        },
        Way::LowFirst => {
            dcbaap_writes(x, lo);
            dcbaap_writes(after_write(x, off, lo), hi);
        },
        Way::HighFirst => {
            dcbaap_writes(x, hi);
            dcbaap_writes(after_write(x, off + 4, hi), lo);
        },
    }
}

/// However the guest writes DCBAAP, by one access or by two in either order,
/// the controller comes to the same state and reads back what was written.
pub proof fn dcbaap_halves_agree(x: Xhci, lo: Seq<u8>, hi: Seq<u8>, way: Way)
    requires
        lo.len() == 4,
        hi.len() == 4,
    ensures
        ({
            let off = OP_BASE + OP_DCBAAP;
            let y = wrote(x, off, lo, hi, way);
            &&& y == wrote(x, off, lo, hi, Way::Whole)
            &&& reads_as(y.st, off, written64(lo + hi))
        }),
{
    written64_of_halves(lo, hi);
    dcbaap_written(x, lo, hi, written64(lo + hi), way);
    dcbaap_written(x, lo, hi, written64(lo + hi), Way::Whole);
    registers_read_by_halves(dcbaap_set(x, written64(lo + hi)).st);
}

proof fn crcr_parts(reg: u64, val: u64)
    ensures
        ({
            let one = with_high(with_low(reg, low(val)) & !CRCR_CRR, high(val));
            let other = with_low(with_high(reg, high(val)) & !CRCR_CRR, low(val));
            &&& one & !CRCR_CRR == val & !CRCR_CRR
            &&& aligned(one, 64) == aligned(val, 64)
            &&& one % 2 == val % 2
            &&& other == val
        }),
{
    assert(with_high(with_low(reg, low(val)) & !CRCR_CRR, high(val)) == val & !CRCR_CRR)
        by (bit_vector);
    assert(with_low(with_high(reg, high(val)) & !CRCR_CRR, low(val)) == val) by (bit_vector);
    assert((val & !CRCR_CRR) & !CRCR_CRR == val & !CRCR_CRR) by (bit_vector);
    assert(aligned(val & !CRCR_CRR, 64) == aligned(val, 64)) by (bit_vector);
    assert((val & !CRCR_CRR) % 2 == val % 2) by (bit_vector);
}

proof fn crcr_written(x: Xhci, lo: Seq<u8>, hi: Seq<u8>, val: u64, way: Way)
    requires
        lo.len() == 4,
        hi.len() == 4,
        (lo + hi).len() == 8,
        written64(lo + hi) == val,
        written32(lo) == low(val),
        written32(hi) == high(val),
    ensures
        wrote(x, OP_BASE + OP_CRCR, lo, hi, way) == x.write_crcr(val),
{
    let off = OP_BASE + OP_CRCR;
    crcr_parts(x.st.crcr, val);
    match way {
        Way::Whole => {
            crcr_writes(x, lo + hi);
        },
        Way::LowFirst => {
            crcr_writes(x, lo);
            crcr_writes(after_write(x, off, lo), hi);
        },
        Way::HighFirst => {
            crcr_writes(x, hi);
            crcr_writes(after_write(x, off + 4, hi), lo);
        },
    }
}

/// However the guest writes CRCR, by one access or by two in either order, the
/// controller comes to the same state, its command ring included, and reads
/// back what was written without the running bit.
pub proof fn crcr_halves_agree(x: Xhci, lo: Seq<u8>, hi: Seq<u8>, way: Way)
    requires
        lo.len() == 4,
        hi.len() == 4,
    ensures
        ({
            let off = OP_BASE + OP_CRCR;
            let y = wrote(x, off, lo, hi, way);
            &&& y == wrote(x, off, lo, hi, Way::Whole)
            &&& reads_as(y.st, off, written64(lo + hi) & !CRCR_CRR)
        }),
{
    written64_of_halves(lo, hi);
    crcr_written(x, lo, hi, written64(lo + hi), way);
    crcr_written(x, lo, hi, written64(lo + hi), Way::Whole);
    registers_read_by_halves(x.write_crcr(written64(lo + hi)).st);
}

proof fn aligned_parts_16(reg: u64, val: u64)
    ensures
        ({
            let one = aligned(with_low(reg, low(val)), 16);
            let other = aligned(with_high(reg, high(val)), 16);
            &&& aligned(with_high(one, high(val)), 16) == aligned(val, 16)
            &&& aligned(with_low(other, low(val)), 16) == aligned(val, 16)
        }),
{
    assert(aligned(with_high(aligned(with_low(reg, low(val)), 16), high(val)), 16) == aligned(
        val,
        16,
    )) by (bit_vector);
    assert(aligned(with_low(aligned(with_high(reg, high(val)), 16), low(val)), 16) == aligned(
        val,
        16,
    )) by (bit_vector);
}

proof fn aligned_parts_64(reg: u64, val: u64)
    ensures
        ({
            let one = aligned(with_low(reg, low(val)), 64);
            let other = aligned(with_high(reg, high(val)), 64);
            &&& aligned(with_high(one, high(val)), 64) == aligned(val, 64)
            &&& aligned(with_low(other, low(val)), 64) == aligned(val, 64)
        }),
{
    assert(aligned(with_high(aligned(with_low(reg, low(val)), 64), high(val)), 64) == aligned(
        val,
        64,
    )) by (bit_vector);
    assert(aligned(with_low(aligned(with_high(reg, high(val)), 64), low(val)), 64) == aligned(
        val,
        64,
    )) by (bit_vector);
}

proof fn erdp_written(x: Xhci, lo: Seq<u8>, hi: Seq<u8>, val: u64, way: Way)
    requires
        lo.len() == 4,
        hi.len() == 4,
        (lo + hi).len() == 8,
        written64(lo + hi) == val,
        written32(lo) == low(val),
        written32(hi) == high(val),
    ensures
        wrote(x, RTSOFF + IR0_BASE + IR_ERDP, lo, hi, way) == x.write_erdp(val),
{
    let off = RTSOFF + IR0_BASE + IR_ERDP;
    aligned_parts_16(x.st.erdp, val);
    match way {
        Way::Whole => {
            erdp_writes(x, lo + hi);
        },
        Way::LowFirst => {
            erdp_writes(x, lo);
            erdp_writes(after_write(x, off, lo), hi);
        },
        Way::HighFirst => {
            erdp_writes(x, hi);
            erdp_writes(after_write(x, off + 4, hi), lo);
        },
    }
}

/// However the guest writes ERDP, by one access or by two in either order, the
/// controller comes to the same state and reads back what was written, aligned
/// to 16 bytes.
pub proof fn erdp_halves_agree(x: Xhci, lo: Seq<u8>, hi: Seq<u8>, way: Way)
    requires
        lo.len() == 4,
        hi.len() == 4,
    ensures
        ({
            let off = RTSOFF + IR0_BASE + IR_ERDP;
            let y = wrote(x, off, lo, hi, way);
            &&& y == wrote(x, off, lo, hi, Way::Whole)
            &&& reads_as(y.st, off, aligned(written64(lo + hi), 16))
        }),
{
    written64_of_halves(lo, hi);
    erdp_written(x, lo, hi, written64(lo + hi), way);
    erdp_written(x, lo, hi, written64(lo + hi), Way::Whole);
    registers_read_by_halves(x.write_erdp(written64(lo + hi)).st);
}

proof fn erstba_written(x: Xhci, lo: Seq<u8>, hi: Seq<u8>, val: u64, way: Way)
    requires
        lo.len() == 4,
        hi.len() == 4,
        (lo + hi).len() == 8,
        written64(lo + hi) == val,
        written32(lo) == low(val),
        written32(hi) == high(val),
    ensures
        wrote(x, RTSOFF + IR0_BASE + IR_ERSTBA, lo, hi, way).st.erstba == aligned(val, 64),
{
    let off = RTSOFF + IR0_BASE + IR_ERSTBA;
    aligned_parts_64(x.st.erstba, val);
    match way {
        Way::Whole => {
            erstba_writes(x, lo + hi);
        },
        Way::LowFirst => {
            erstba_writes(x, lo);
            erstba_writes(after_write(x, off, lo), hi);
        },
        Way::HighFirst => {
            erstba_writes(x, hi);
            erstba_writes(after_write(x, off + 4, hi), lo);
        },
    }
}

/// However the guest writes ERSTBA, by one access or by two in either order,
/// it reads back what was written, aligned to 64 bytes. The event ring may
/// differ: each write looks for a segment table at the address so far.
pub proof fn erstba_halves_agree(x: Xhci, lo: Seq<u8>, hi: Seq<u8>, way: Way)
    requires
        lo.len() == 4,
        hi.len() == 4,
    ensures
        ({
            let off = RTSOFF + IR0_BASE + IR_ERSTBA;
            let y = wrote(x, off, lo, hi, way);
            &&& reads_as(y.st, off, aligned(written64(lo + hi), 64))
        }),
{
    written64_of_halves(lo, hi);
    erstba_written(x, lo, hi, written64(lo + hi), way);
    registers_read_by_halves(wrote(x, RTSOFF + IR0_BASE + IR_ERSTBA, lo, hi, way).st);
}

/// The segment table has at most the one segment that the controller
/// advertises: its size reads back as 1 where the low half of what was written
/// is not 0.
pub proof fn segment_table_size_is_clamped(x: Xhci, bytes: Seq<u8>)
    requires
        bytes.len() == 4,
    ensures
        ({
            let off = RTSOFF + IR0_BASE + IR_ERSTSZ;
            let size: u32 = if written32(bytes) % 0x1_0000 == 0 {
                0
            } else {
                1
            };
            bar0_read(x.write_bar0(off, bytes).st, off, 4) == le32_bytes(size)
        }),
{
    runtime_write_of_bar0(x, IR0_BASE + IR_ERSTSZ, bytes);
    dword_reads_whole(0, 0x28);
    dword_reads_whole(1, 0x28);
}

/// A write below the interrupter's registers changes nothing.
pub proof fn low_runtime_writes_are_inert(x: Xhci, rt_off: int, bytes: Seq<u8>)
    requires
        0 <= rt_off < IR0_BASE,
    ensures
        x.write_bar0(RTSOFF + rt_off, bytes) == x,
{
}

/// Whether the event ring has a slot for an event.
pub open spec fn takes_event(x: Xhci) -> bool {
    &&& x.st.event_ring_base != 0
    &&& x.st.event_ring_enqueue < x.st.event_ring_size
    &&& x.st.event_ring_base + 16 * x.st.event_ring_enqueue <= u64::MAX
}

/// An event interrupts the guest only while both the interrupter and the
/// controller have interrupts enabled, and then exactly once.
pub proof fn interrupts_need_both_enables(x: Xhci, event: RawTrb)
    ensures
        ({
            let y = x.post_event(event);
            &&& y.pin == x.pin || y.pin == x.pin.push(PinOp::Pulse)
            &&& y.pin != x.pin ==> x.has_pin && x.st.iman & IMAN_IE != 0 && x.st.usbcmd
                & USBCMD_INTE != 0
            &&& x.has_pin && x.st.iman & IMAN_IE != 0 && x.st.usbcmd & USBCMD_INTE != 0
                && takes_event(x) ==> y.pin == x.pin.push(PinOp::Pulse)
        }),
{
    assert(x.pin.push(PinOp::Pulse).len() != x.pin.len());
}

/// The state after `events` were posted, oldest first.
pub open spec fn posted(x: Xhci, events: Seq<RawTrb>) -> Xhci
    decreases events.len(),
{
    if events.len() == 0 {
        x
    } else {
        posted(x, events.drop_last()).post_event(events.last())
    }
}

/// A producer that starts at the ring's first slot fills one lap and comes
/// back to it with the cycle state flipped, so the guest can tell the new lap
/// from the old one.
pub proof fn event_ring_laps(x: Xhci, events: Seq<RawTrb>)
    requires
        x.st.event_ring_base != 0,
        x.st.event_ring_enqueue == 0,
        0 < x.st.event_ring_size,
        events.len() <= x.st.event_ring_size,
        x.st.event_ring_base + 16 * x.st.event_ring_size <= u64::MAX,
    ensures
        ({
            let y = posted(x, events);
            let full = events.len() == x.st.event_ring_size;
            &&& y.st.event_ring_base == x.st.event_ring_base
            &&& y.st.event_ring_size == x.st.event_ring_size
            &&& y.st.event_ring_enqueue == if full { 0 } else { events.len() as int }
            &&& y.st.event_ring_pcs == if full { !x.st.event_ring_pcs } else { x.st.event_ring_pcs }
        }),
    decreases events.len(),
{
    if events.len() > 0 {
        event_ring_laps(x, events.drop_last());
    }
}

/// The guest reads a posted event out of its slot of the ring, with the cycle
/// bit that marks it as new.
pub proof fn event_is_in_guest_memory(x: Xhci, m: crate::mem::PhysMap, event: RawTrb)
    requires
        m.wf(),
        x.mem == m@,
        x.st.event_ring_base != 0,
        x.st.event_ring_enqueue < x.st.event_ring_size,
        x.mem.maps(x.st.event_ring_base + 16 * x.st.event_ring_enqueue, 16),
    ensures
        ({
            let slot = x.st.event_ring_base + 16 * x.st.event_ring_enqueue;
            RawTrb::of_bytes(x.post_event(event).mem.read(slot, 16)) == with_cycle(
                event,
                x.st.event_ring_pcs,
            )
        }),
{
    let slot = x.st.event_ring_base + 16 * x.st.event_ring_enqueue;
    let t = with_cycle(event, x.st.event_ring_pcs);
    m.maps_in_range(slot, 16);
    assert(t.bytes().len() == 16);
    crate::mem::read_after_write(m, slot, t.bytes());
    super::bits::trb_round_trip(t);
}

/// Whether the next event is stored clear of `len` bytes at `at`.
pub open spec fn event_is_clear_of(x: Xhci, at: int, len: int) -> bool {
    let slot = x.st.event_ring_base + 16 * x.st.event_ring_enqueue;
    takes_event(x) ==> slot + 16 <= at || at + len <= slot
}

/// How many of `len` bytes a TRB takes.
pub open spec fn taken_by(t: RawTrb, len: nat) -> int {
    if len <= t.spec_transfer_length() {
        len as int
    } else {
        t.spec_transfer_length() as int
    }
}

/// What a transfer delivers is what the guest reads in the TRB's buffer, as
/// far as the buffer is backed and the event that follows is not stored over
/// it.
pub proof fn delivered_bytes_are_read(
    x: Xhci,
    m: crate::mem::PhysMap,
    addr: u64,
    t: RawTrb,
    data: Seq<u8>,
    ep_id: u8,
)
    requires
        m.wf(),
        x.mem == m@,
        x.mem.maps(t.spec_parameter() as int, taken_by(t, data.len())),
        event_is_clear_of(x, t.spec_parameter() as int, taken_by(t, data.len())),
    ensures
        x.deliver(addr, t, data, ep_id).mem.read(
            t.spec_parameter() as int,
            taken_by(t, data.len()),
        ) == data.take(taken_by(t, data.len())),
{
    let n = taken_by(t, data.len());
    let at = t.spec_parameter() as int;
    let part = data.take(n);
    assert(part.len() == n);
    m.maps_in_range(at, n);
    let y = x.deliver(addr, t, data, ep_id);
    assert forall|i: int| 0 <= i < n implies y.mem.byte[at + i] == part[i] by {
        assert(x.mem.byte.dom().contains(at + i));
    }
    assert(y.mem.read(at, n) =~= part);
}

/// A pointer event reaches a guest that waits for one: with a TRB queued on
/// the interrupt endpoint's ring whose buffer has room, the guest reads the
/// report of that very event out of the buffer, and nothing is left pending.
pub proof fn pointer_event_reaches_the_guest(
    x: Xhci,
    m: crate::mem::PhysMap,
    t: RawTrb,
    buttons: u8,
    px: u16,
    py: u16,
)
    requires
        m.wf(),
        x.mem == m@,
        x.st.slot_state == SlotState::Configured,
        x.st.ep1_in_has_trbs,
        x.fetch(x.st.ep1_in_ring.dequeue) == Some(t),
        t.spec_cycle_bit() == x.st.ep1_in_ring.ccs,
        t.spec_trb_type() == TRB_TYPE_NORMAL,
        t.spec_transfer_length() >= REPORT_SIZE,
        x.mem.maps(t.spec_parameter() as int, REPORT_SIZE as int),
        event_is_clear_of(x, t.spec_parameter() as int, REPORT_SIZE as int),
    ensures
        ({
            let y = x.pointer(buttons, px, py);
            &&& y.mem.read(t.spec_parameter() as int, REPORT_SIZE as int) == pointed(
                x.tablet,
                buttons,
                px,
                py,
            ).report()
            &&& !y.tablet.report_pending
            &&& !y.st.ep1_in_has_trbs
            &&& y.st.ep1_in_ring == advanced(x.st.ep1_in_ring)
        }),
{
    let moved = pointed(x.tablet, buttons, px, py);
    let report = moved.report();
    assert(report.len() == REPORT_SIZE);
    let start = Xhci { tablet: moved, ..x };
    let sent = Xhci { tablet: TabletState { report_pending: false, ..moved }, ..x };
    let addr = x.st.ep1_in_ring.dequeue;
    assert(start.fetch(addr) == Some(t));
    reveal_with_fuel(Xhci::ep1_walk, 2);
    delivered_bytes_are_read(sent, m, addr, t, report, 3);
    assert(report.take(REPORT_SIZE as int) =~= report);
    let n = taken_by(t, report.len());
    let cc = if n < t.spec_transfer_length() {
        TRB_CC_SHORT_PACKET
    } else {
        TRB_CC_SUCCESS
    };
    post_event_frame(
        Xhci { mem: sent.mem.store(t.spec_parameter() as int, report.take(n)), ..sent },
        transfer_event(addr, cc, (t.spec_transfer_length() - n) as u32, 3),
    );
}

/// A doorbell past the last slot does nothing.
pub proof fn doorbell_past_slots_ignored(x: Xhci, index: int, bytes: Seq<u8>)
    requires
        2 <= index,
        DBOFF + 4 * index < RTSOFF,
    ensures
        x.write_bar0(DBOFF + 4 * index, bytes) == x,
{
}

} // verus!
