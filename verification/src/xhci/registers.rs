//! The controller's registers, by the offsets at which a driver finds them
//! and the bits that it reads and writes.

use vstd::prelude::*;

use super::bits::RawTrb;
use super::guest::{
    dword_in, found, has_room, is_event, port_status_change_is, posted_event_is_found, qword_in,
    written_dword,
};
use super::laws::after_write;
use super::model::{
    bar0_read, port_resets, port_status_change, port_written, power_on, SlotState, Xhci, XhciState,
};
use crate::access::{dword_at, written32};
use crate::bytes::le32_bytes;
use crate::intr::PinOp;

verus! {

/// The dword that a driver reads at `off`.
pub open spec fn reads(st: XhciState, off: int) -> int {
    dword_in(bar0_read(st, off, 4), 0)
}

proof fn dword_reads(val: u32, off: int)
    requires
        off % 4 == 0,
    ensures
        dword_in(dword_at(val, off, 4), 0) == val,
{
    assert(dword_at(val, off, 4) =~= le32_bytes(val));
    crate::bytes::le32_round_trip(Seq::empty(), val, Seq::empty());
}

proof fn dword_reads_at(val: u32)
    ensures
        forall|off: int| off % 4 == 0 ==> dword_in(#[trigger] dword_at(val, off, 4), 0) == val,
{
    assert forall|off: int| off % 4 == 0 implies dword_in(#[trigger] dword_at(val, off, 4), 0)
        == val by {
        dword_reads(val, off);
    }
}

/// The operational and runtime registers stand where a driver looks for them,
/// from 0x20 and from 0x580 on, and the two ports at 0x400 and 0x410.
pub proof fn registers_stand_in_place(st: XhciState)
    ensures
        reads(st, 0x20) == st.usbcmd,
        reads(st, 0x24) == st.usbsts,
        reads(st, 0x28) == 1,
        reads(st, 0x34) == st.dnctrl,
        reads(st, 0x38) == st.crcr % 0x1_0000_0000,
        reads(st, 0x3C) == st.crcr / 0x1_0000_0000,
        reads(st, 0x50) == st.dcbaap % 0x1_0000_0000,
        reads(st, 0x54) == st.dcbaap / 0x1_0000_0000,
        reads(st, 0x58) == st.config,
        reads(st, 0x400) == st.port1_sc,
        reads(st, 0x410) == st.port2_sc,
        reads(st, 0x580) == st.iman,
        reads(st, 0x584) == st.imod,
        reads(st, 0x588) == st.erstsz,
        reads(st, 0x590) == st.erstba % 0x1_0000_0000,
        reads(st, 0x594) == st.erstba / 0x1_0000_0000,
        reads(st, 0x598) == st.erdp % 0x1_0000_0000,
        reads(st, 0x59C) == st.erdp / 0x1_0000_0000,
{
    dword_reads_at(st.usbcmd);
    dword_reads_at(st.usbsts);
    dword_reads_at(1);
    dword_reads_at(st.dnctrl);
    dword_reads_at(super::model::low(st.crcr));
    dword_reads_at(super::model::high(st.crcr));
    dword_reads_at(super::model::low(st.dcbaap));
    dword_reads_at(super::model::high(st.dcbaap));
    dword_reads_at(st.config);
    dword_reads_at(st.port1_sc);
    dword_reads_at(st.port2_sc);
    dword_reads_at(st.iman);
    dword_reads_at(st.imod);
    dword_reads_at(st.erstsz);
    dword_reads_at(super::model::low(st.erstba));
    dword_reads_at(super::model::high(st.erstba));
    dword_reads_at(super::model::low(st.erdp));
    dword_reads_at(super::model::high(st.erdp));
}

/// The capability registers lead a driver to the others: the operational ones
/// 0x20 bytes on, the doorbells at 0x440, the runtime ones at 0x560 and the
/// extended capabilities 0x180 dwords on. There are 64 slots, one interrupter
/// and two ports.
pub proof fn capabilities_lead_on(st: XhciState)
    ensures
        reads(st, 0x00) % 0x100 == 0x20,
        reads(st, 0x00) / 0x1_0000 == 0x100,
        reads(st, 0x04) % 0x100 == 64,
        reads(st, 0x04) / 0x100 % 0x800 == 1,
        reads(st, 0x04) / 0x100_0000 == 2,
        reads(st, 0x08) == 0,
        reads(st, 0x0C) == 0,
        reads(st, 0x10) / 0x1_0000 == 0x180,
        reads(st, 0x10) % 0x1_0000 == 1,
        reads(st, 0x14) == 0x440,
        reads(st, 0x18) == 0x560,
        reads(st, 0x1C) == 0,
{
    dword_reads_at(0x0100_0020);
    dword_reads_at(0x0200_0140);
    dword_reads_at(0x0180_0001);
    dword_reads_at(0x440);
    dword_reads_at(0x560);
    dword_reads_at(0);
}

/// The extended capabilities name two protocols, `USB ` 2.0 with port 1 and,
/// sixteen bytes on, `USB ` 3.0 with port 2, and end there.
pub proof fn protocols_name_their_ports(st: XhciState)
    ensures
        reads(st, 0x600) == 0x0402,
        reads(st, 0x604) == 0x5355_0200,
        reads(st, 0x608) == 0x2042,
        reads(st, 0x60C) == 0x0101,
        reads(st, 0x610) == 0x0002,
        reads(st, 0x614) == 0x5355_0300,
        reads(st, 0x618) == 0x2042,
        reads(st, 0x61C) == 0x0102,
        reads(st, 0x620) == 0,
{
    dword_reads_at(0x0402);
    dword_reads_at(0x5355_0200);
    dword_reads_at(0x2042);
    dword_reads_at(0x0101);
    dword_reads_at(0x0002);
    dword_reads_at(0x5355_0300);
    dword_reads_at(0x0102);
    dword_reads_at(0);
}

/// A one-byte read sees its byte of the dword, below the ports.
pub proof fn narrow_reads_agree(st: XhciState, off: int, k: int)
    requires
        0 <= off < 0x400 || 0x560 <= off < 0x600,
        off % 4 == 0,
        0 <= k < 4,
    ensures
        bar0_read(st, off + k, 1).len() == 1,
        bar0_read(st, off + k, 1)[0] == bar0_read(st, off, 4)[k],
        bar0_read(st, off, 4).len() == 4,
{
    assert((off + k) % 4 == k);
    assert((off + k) - (off + k) % 4 == off);
    if off < 0x20 {
    } else if off < 0x400 {
        assert((off - 0x20 + k) % 4 == k);
        assert((off - 0x20) % 4 == 0);
    } else {
        assert((off - 0x560 + k) % 4 == k);
        assert((off - 0x560) % 4 == 0);
        assert((off - 0x580 + k) % 4 == k);
        assert((off - 0x580) % 4 == 0);
    }
}

/// The plain registers take what is written, and no other register changes:
/// notification control at 0x34 and moderation at 0x584 as it is, and the
/// slot count at 0x58 by its low byte, up to 64.
pub proof fn plain_registers_read_back(x: Xhci, bytes: Seq<u8>)
    requires
        bytes.len() == 4,
    ensures
        ({
            let val = dword_in(bytes, 0);
            let a = x.write_bar0(0x34, bytes);
            let b = x.write_bar0(0x584, bytes);
            let c = x.write_bar0(0x58, bytes);
            let slots = val % 0x100;
            &&& reads(a.st, 0x34) == val
            &&& a == (Xhci { st: XhciState { dnctrl: a.st.dnctrl, ..x.st }, ..x })
            &&& reads(b.st, 0x584) == val
            &&& b == (Xhci { st: XhciState { imod: b.st.imod, ..x.st }, ..x })
            &&& reads(c.st, 0x58) == if slots <= 64 {
                slots
            } else {
                64
            }
            &&& c == (Xhci { st: XhciState { config: c.st.config, ..x.st }, ..x })
        }),
{
    written_dword(bytes);
    registers_stand_in_place(x.write_bar0(0x34, bytes).st);
    registers_stand_in_place(x.write_bar0(0x584, bytes).st);
    registers_stand_in_place(x.write_bar0(0x58, bytes).st);
}

proof fn cleared_bits(reg: u32, val: u32)
    ensures
        (reg & !val) & val == 0,
        (reg & !val) & !val == reg & !val,
        val & 8 == 8 <==> val / 8 % 2 == 1,
        val & 8 == 0 <==> val / 8 % 2 == 0,
{
    assert((reg & !val) & val == 0) by (bit_vector);
    assert((reg & !val) & !val == reg & !val) by (bit_vector);
    assert(val & 8 == 8 <==> val / 8 % 2 == 1) by (bit_vector);
    assert(val & 8 == 0 <==> val / 8 % 2 == 0) by (bit_vector);
}

/// Writing ones to the status register at 0x24 clears those bits and no
/// others, and acknowledging the event interrupt, bit 3, lowers the pin.
pub proof fn status_bits_clear_by_ones(x: Xhci, bytes: Seq<u8>)
    requires
        bytes.len() == 4,
    ensures
        ({
            let val = dword_in(bytes, 0);
            let y = x.write_bar0(0x24, bytes);
            &&& y.st.usbsts & (val as u32) == 0
            &&& y.st.usbsts & !(val as u32) == x.st.usbsts & !(val as u32)
            &&& y.st == (XhciState { usbsts: y.st.usbsts, ..x.st })
            &&& y.mem == x.mem
            &&& y.tablet == x.tablet
            &&& x.has_pin && val / 8 % 2 == 1 ==> y.pin == x.pin.push(PinOp::Deassert)
            &&& !x.has_pin || val / 8 % 2 == 0 ==> y.pin == x.pin
        }),
{
    written_dword(bytes);
    cleared_bits(x.st.usbsts, written32(bytes));
}

proof fn iman_bits(iman: u32, val: u32)
    ensures
        val & 1 != 0 <==> val % 2 == 1,
        val & 2 != 0 <==> val / 2 % 2 == 1,
        (iman & !1u32) % 2 == 0,
        (iman & !1u32) / 2 == iman / 2,
        (iman | 2) % 2 == iman % 2,
        (iman | 2) / 2 % 2 == 1,
        (iman | 2) / 4 == iman / 4,
        (iman & !2u32) % 2 == iman % 2,
        (iman & !2u32) / 2 % 2 == 0,
        (iman & !2u32) / 4 == iman / 4,
{
    assert(val & 1 != 0 <==> val % 2 == 1) by (bit_vector);
    assert(val & 2 != 0 <==> val / 2 % 2 == 1) by (bit_vector);
    assert((iman & !1u32) % 2 == 0 && (iman & !1u32) / 2 == iman / 2) by (bit_vector);
    assert((iman | 2) % 2 == iman % 2 && (iman | 2) / 2 % 2 == 1 && (iman | 2) / 4 == iman / 4)
        by (bit_vector);
    assert((iman & !2u32) % 2 == iman % 2 && (iman & !2u32) / 2 % 2 == 0 && (iman & !2u32) / 4
        == iman / 4) by (bit_vector);
}

proof fn iman_is_written(x: Xhci, bytes: Seq<u8>)
    requires
        bytes.len() == 4,
    ensures
        after_write(x, 0x580, bytes) == x.write_iman(written32(bytes)),
{
    reveal(after_write);
}

proof fn iman_after(x: Xhci, val: u32)
    ensures
        ({
            let y = x.write_iman(val);
            let pending = if val & 1 != 0 {
                x.st.iman & !1u32
            } else {
                x.st.iman
            };
            &&& y == (Xhci { st: XhciState { iman: y.st.iman, ..x.st }, ..x })
            &&& y.st.iman == if val & 2 != 0 {
                pending | 2
            } else {
                pending & !2u32
            }
        }),
{
}

/// In the interrupter's register at 0x580 bit 0, pending, clears by writing a
/// one, and bit 1, enabled, takes what is written. The other bits stay.
pub proof fn interrupter_bits(x: Xhci, bytes: Seq<u8>)
    requires
        bytes.len() == 4,
    ensures
        ({
            let val = dword_in(bytes, 0);
            let y = after_write(x, 0x580, bytes);
            &&& y.st.iman % 2 == 1 <==> x.st.iman % 2 == 1 && val % 2 == 0
            &&& y.st.iman / 2 % 2 == val / 2 % 2
            &&& y.st.iman / 4 == x.st.iman / 4
            &&& y == (Xhci { st: XhciState { iman: y.st.iman, ..x.st }, ..x })
        }),
{
    written_dword(bytes);
    let val = written32(bytes);
    iman_is_written(x, bytes);
    let (iman, cleared) = (x.st.iman, x.st.iman & !1u32);
    iman_bits(iman, val);
    iman_bits(cleared, val);
    iman_after(x, val);
}

proof fn interrupt_bits(usbsts: u32, iman: u32, usbcmd: u32)
    ensures
        (usbsts | 8) / 8 % 2 == 1,
        (usbsts | 8) & !8u32 == usbsts & !8u32,
        (iman | 1) % 2 == 1,
        (iman | 1) / 2 == iman / 2,
        iman & 2 != 0 <==> iman / 2 % 2 == 1,
        usbcmd & 4 != 0 <==> usbcmd / 4 % 2 == 1,
{
    assert((usbsts | 8) / 8 % 2 == 1 && (usbsts | 8) & !8u32 == usbsts & !8u32) by (bit_vector);
    assert((iman | 1) % 2 == 1 && (iman | 1) / 2 == iman / 2) by (bit_vector);
    assert(iman & 2 != 0 <==> iman / 2 % 2 == 1) by (bit_vector);
    assert(usbcmd & 4 != 0 <==> usbcmd / 4 % 2 == 1) by (bit_vector);
}

/// An event interrupts exactly while bit 1 of the interrupter's register and
/// bit 2 of the command register are set: it marks both status registers and
/// pulses the pin once. Otherwise no register and no pin moves but the ring.
pub proof fn events_interrupt(x: Xhci, event: RawTrb)
    requires
        has_room(x),
    ensures
        ({
            let y = x.post_event(event);
            let on = x.st.iman / 2 % 2 == 1 && x.st.usbcmd / 4 % 2 == 1;
            &&& on ==> {
                &&& y.st.usbsts / 8 % 2 == 1
                &&& y.st.usbsts & !8u32 == x.st.usbsts & !8u32
                &&& y.st.iman % 2 == 1
                &&& y.st.iman / 2 == x.st.iman / 2
                &&& x.has_pin ==> y.pin == x.pin.push(PinOp::Pulse)
            }
            &&& !on ==> y.st.usbsts == x.st.usbsts && y.st.iman == x.st.iman && y.pin == x.pin
        }),
{
    interrupt_bits(x.st.usbsts, x.st.iman, x.st.usbcmd);
}

/// Bit `n` of `v`.
pub open spec fn bit(v: u32, n: u32) -> bool {
    (v >> n) & 1 == 1
}

/// What a write does to a port, bit by bit. A reset, bit 4 of what is written
/// to a connected port, completes at once. The three change bits clear by
/// writing ones, the link state in bits 8:5 is written only with its strobe,
/// bit 16, and all other bits stay.
pub proof fn port_bits(port: u32, val: u32)
    ensures
        ({
            let p = port_written(port, val);
            let reset = bit(val, 4) && bit(port, 0);
            &&& port_resets(port, val) <==> reset
            &&& bit(p, 17) <==> bit(port, 17) && !bit(val, 17)
            &&& bit(p, 19) <==> bit(port, 19) && !bit(val, 19)
            &&& bit(p, 21) <==> reset || (bit(port, 21) && !bit(val, 21))
            &&& bit(p, 1) <==> reset || bit(port, 1)
            &&& bit(p, 4) <==> !reset && bit(port, 4)
            &&& (p >> 5) & 0xF == if bit(val, 16) {
                (val >> 5) & 0xF
            } else if reset {
                0
            } else {
                (port >> 5) & 0xF
            }
            &&& p & !0x2A_01F2u32 == port & !0x2A_01F2u32
        }),
{
    let strobe = (val / 0x20 % 0x10 * 0x20) as u32;
    assert(strobe == val & 0x1E0) by {
        assert(val / 0x20 % 0x10 * 0x20 == val & 0x1E0) by (bit_vector);
    }
    let cleared = port & !(val & 0x2A_0000);
    let reset = val & 0x10 != 0 && cleared & 1 != 0;
    let after = if reset {
        (cleared | 0x20_0002) & !0x10u32 & !0x1E0u32
    } else {
        cleared
    };
    let p = if val & 0x1_0000 != 0 {
        (after & !0x1E0u32) | strobe
    } else {
        after
    };
    assert(p == port_written(port, val));
    assert((val & 0x10 != 0 && cleared & 1 != 0) <==> ((val >> 4) & 1 == 1 && (port >> 0) & 1 == 1))
        by (bit_vector)
        requires
            cleared == port & !(val & 0x2A_0000),
    ;
    assert({
        &&& (p >> 17) & 1 == 1 <==> (port >> 17) & 1 == 1 && (val >> 17) & 1 != 1
        &&& (p >> 19) & 1 == 1 <==> (port >> 19) & 1 == 1 && (val >> 19) & 1 != 1
        &&& (p >> 21) & 1 == 1 <==> reset || ((port >> 21) & 1 == 1 && (val >> 21) & 1 != 1)
        &&& (p >> 1) & 1 == 1 <==> reset || (port >> 1) & 1 == 1
        &&& (p >> 4) & 1 == 1 <==> !reset && (port >> 4) & 1 == 1
        &&& (p >> 5) & 0xF == if (val >> 16) & 1 == 1 {
            (val >> 5) & 0xF
        } else if reset {
            0
        } else {
            (port >> 5) & 0xF
        }
        &&& p & !0x2A_01F2u32 == port & !0x2A_01F2u32
    }) by (bit_vector)
        requires
            cleared == port & !(val & 0x2A_0000),
            after == if reset {
                (cleared | 0x20_0002) & !0x10u32 & !0x1E0u32
            } else {
                cleared
            },
            strobe == val & 0x1E0,
            p == if val & 0x1_0000 != 0 {
                (after & !0x1E0u32) | strobe
            } else {
                after
            },
    ;
}

/// A port is written at its own offset, 0x400 or 0x410, and a write to one
/// leaves the other. A reset, and nothing else, leaves the guest a Port
/// Status Change Event with that port's number.
pub proof fn port_writes_stay_apart(x: Xhci, bytes: Seq<u8>)
    requires
        bytes.len() == 4,
        has_room(x),
    ensures
        ({
            let val = dword_in(bytes, 0) as u32;
            let a = x.write_bar0(0x400, bytes);
            let b = x.write_bar0(0x410, bytes);
            let first = bit(val, 4) && bit(x.st.port1_sc, 0);
            let second = bit(val, 4) && bit(x.st.port2_sc, 0);
            &&& a.st.port1_sc == port_written(x.st.port1_sc, val)
            &&& a.st.port2_sc == x.st.port2_sc
            &&& b.st.port2_sc == port_written(x.st.port2_sc, val)
            &&& b.st.port1_sc == x.st.port1_sc
            &&& first ==> is_event(found(x, a), 0, 1, 0, 34, 0, 1, x.st.event_ring_pcs)
            &&& second ==> is_event(found(x, b), 0, 1, 0, 34, 0, 2, x.st.event_ring_pcs)
            &&& !first ==> a.mem == x.mem && a.pin == x.pin
            &&& !second ==> b.mem == x.mem && b.pin == x.pin
        }),
{
    written_dword(bytes);
    let val = written32(bytes);
    port_bits(x.st.port1_sc, val);
    port_bits(x.st.port2_sc, val);
    let a = Xhci {
        st: XhciState { port1_sc: port_written(x.st.port1_sc, val), ..x.st },
        ..x
    };
    let b = Xhci {
        st: XhciState { port2_sc: port_written(x.st.port2_sc, val), ..x.st },
        ..x
    };
    posted_event_is_found(a, port_status_change(1));
    posted_event_is_found(b, port_status_change(2));
    port_status_change_is(1, x.st.event_ring_pcs);
    port_status_change_is(2, x.st.event_ring_pcs);
}

proof fn run_bits(usbsts: u32, port: u32, cmd: u32)
    ensures
        cmd & 1 != 0 <==> cmd % 2 == 1,
        cmd & 2 != 0 <==> cmd / 2 % 2 == 1,
        (usbsts & !1u32) % 2 == 0,
        (usbsts & !1u32) / 2 == usbsts / 2,
        (usbsts | 1) % 2 == 1,
        (usbsts | 1) / 2 == usbsts / 2,
        ((port | 0x2_0000) >> 17) & 1 == 1,
        (port | 0x2_0000) & !0x2_0000u32 == port & !0x2_0000u32,
{
    assert(cmd & 1 != 0 <==> cmd % 2 == 1) by (bit_vector);
    assert(cmd & 2 != 0 <==> cmd / 2 % 2 == 1) by (bit_vector);
    assert((usbsts & !1u32) % 2 == 0 && (usbsts & !1u32) / 2 == usbsts / 2) by (bit_vector);
    assert((usbsts | 1) % 2 == 1 && (usbsts | 1) / 2 == usbsts / 2) by (bit_vector);
    assert(((port | 0x2_0000) >> 17) & 1 == 1 && (port | 0x2_0000) & !0x2_0000u32 == port
        & !0x2_0000u32) by (bit_vector);
}

proof fn usbcmd_is_written(x: Xhci, bytes: Seq<u8>)
    requires
        bytes.len() == 4,
    ensures
        after_write(x, 0x20, bytes) == x.write_usbcmd(written32(bytes)),
{
    reveal(after_write);
}

proof fn starting(x: Xhci, val: u32)
    requires
        has_room(x),
        x.st.usbcmd % 2 == 0,
        val % 4 == 1,
    ensures
        ({
            let y = x.write_usbcmd(val);
            &&& y.st.usbcmd == val
            &&& y.st.usbsts % 2 == 0
            &&& bit(y.st.port2_sc, 17)
            &&& y.st.port2_sc & !0x2_0000u32 == x.st.port2_sc & !0x2_0000u32
            &&& y.st.port1_sc == x.st.port1_sc
            &&& is_event(found(x, y), 0, 1, 0, 34, 0, 2, x.st.event_ring_pcs)
        }),
{
    run_bits(x.st.usbsts, x.st.port2_sc, val);
    run_bits(x.st.usbsts, x.st.port2_sc, x.st.usbcmd);
    let z = Xhci {
        st: XhciState {
            usbcmd: val,
            usbsts: x.st.usbsts & !1u32,
            port2_sc: x.st.port2_sc | 0x2_0000,
            ..x.st
        },
        ..x
    };
    posted_event_is_found(z, port_status_change(2));
    port_status_change_is(2, x.st.event_ring_pcs);
    let w = z.post_event(port_status_change(2));
    assert(x.write_usbcmd(val) == w);
    assert(w.st.usbsts % 2 == 0) by {
        let before = z.st.usbsts;
        assert((before | 8) % 2 == before % 2) by (bit_vector);
    }
}

/// Starting the controller, bit 0 of the command register at 0x20, clears the
/// halted bit, marks the tablet's port as changed and leaves the guest a Port
/// Status Change Event for port 2.
pub proof fn starting_reports_the_tablet(x: Xhci, bytes: Seq<u8>)
    requires
        bytes.len() == 4,
        has_room(x),
        x.st.usbcmd % 2 == 0,
        dword_in(bytes, 0) % 4 == 1,
    ensures
        ({
            let y = after_write(x, 0x20, bytes);
            &&& y.st.usbcmd == dword_in(bytes, 0)
            &&& y.st.usbsts % 2 == 0
            &&& bit(y.st.port2_sc, 17)
            &&& y.st.port2_sc & !0x2_0000u32 == x.st.port2_sc & !0x2_0000u32
            &&& y.st.port1_sc == x.st.port1_sc
            &&& is_event(found(x, y), 0, 1, 0, 34, 0, 2, x.st.event_ring_pcs)
        }),
{
    written_dword(bytes);
    usbcmd_is_written(x, bytes);
    starting(x, written32(bytes));
}

/// Stopping sets the halted bit and does nothing else; a write that neither
/// starts, stops nor resets only reads back.
pub proof fn stopping_halts(x: Xhci, bytes: Seq<u8>)
    requires
        bytes.len() == 4,
        dword_in(bytes, 0) / 2 % 2 == 0,
    ensures
        ({
            let val = dword_in(bytes, 0);
            let y = after_write(x, 0x20, bytes);
            let stops = x.st.usbcmd % 2 == 1 && val % 2 == 0;
            &&& stops ==> {
                &&& y.st.usbsts % 2 == 1
                &&& y.st.usbsts / 2 == x.st.usbsts / 2
                &&& y.st == (XhciState { usbcmd: val as u32, usbsts: y.st.usbsts, ..x.st })
                &&& y.mem == x.mem && y.pin == x.pin
            }
            &&& x.st.usbcmd % 2 == val % 2 ==> y == (Xhci {
                st: XhciState { usbcmd: val as u32, ..x.st },
                ..x
            })
        }),
{
    written_dword(bytes);
    usbcmd_is_written(x, bytes);
    run_bits(x.st.usbsts, x.st.port2_sc, written32(bytes));
    run_bits(x.st.usbsts, x.st.port2_sc, x.st.usbcmd);
}

/// The registers after power-on: halted, nothing enabled, no ring placed, a
/// powered port 1 that looks for a device and a powered port 2 with a
/// SuperSpeed device connected.
pub proof fn power_on_reads()
    ensures
        ({
            let st = power_on();
            &&& reads(st, 0x20) == 0
            &&& reads(st, 0x24) == 1
            &&& reads(st, 0x400) == 0x2A0
            &&& reads(st, 0x410) == 0x1201
            &&& reads(st, 0x580) == 0
            &&& reads(st, 0x38) == 0 && reads(st, 0x3C) == 0
            &&& reads(st, 0x50) == 0 && reads(st, 0x54) == 0
            &&& reads(st, 0x58) == 0
            &&& st.slot_state == SlotState::Disabled
            &&& st.event_ring_base == 0
            &&& st.event_ring_pcs
            &&& st.cmd_ring_base == 0
            &&& !st.ep1_in_has_trbs
        }),
{
    registers_stand_in_place(power_on());
}

proof fn erstba_after(x: Xhci, val: u64)
    ensures
        ({
            let table = val - val % 64;
            let entry = x.mem.read(table, 16);
            let y = x.write_erstba(val);
            let usable = table != 0 && x.st.erstsz != 0 && x.mem.maps(table, 16) && 1 <= dword_in(
                entry,
                8,
            ) <= 4096;
            &&& y.st.erstba == table
            &&& usable ==> {
                &&& y.st.event_ring_base == qword_in(entry, 0)
                &&& y.st.event_ring_size == dword_in(entry, 8)
                &&& y.st.event_ring_enqueue == 0
                &&& y.st.event_ring_pcs
            }
            &&& !usable ==> y.st == (XhciState { erstba: table as u64, ..x.st })
            &&& y.mem == x.mem && y.tablet == x.tablet && y.pin == x.pin
        }),
{
    let table = super::model::aligned(val, 64) as int;
    qword_is_read(x.mem.read(table, 16));
}

/// Placing the segment table, at 0x590, makes the controller take the event
/// ring that its first entry describes: the base in its first eight bytes and
/// the size in the four behind, where that is between 1 and 4096. The
/// producer starts at the first slot with its cycle bit set. Without a table,
/// or with one that cannot be read, the ring stays where it was.
pub proof fn segment_table_places_the_ring(x: Xhci, bytes: Seq<u8>)
    requires
        bytes.len() == 8,
    ensures
        ({
            let val = qword_in(bytes, 0);
            let table = val - val % 64;
            let entry = x.mem.read(table, 16);
            let y = after_write(x, 0x590, bytes);
            let usable = table != 0 && x.st.erstsz != 0 && x.mem.maps(table, 16) && 1 <= dword_in(
                entry,
                8,
            ) <= 4096;
            &&& y.st.erstba == table
            &&& usable ==> {
                &&& y.st.event_ring_base == qword_in(entry, 0)
                &&& y.st.event_ring_size == dword_in(entry, 8)
                &&& y.st.event_ring_enqueue == 0
                &&& y.st.event_ring_pcs
            }
            &&& !usable ==> y.st == (XhciState { erstba: table as u64, ..x.st })
            &&& y.mem == x.mem && y.tablet == x.tablet && y.pin == x.pin
        }),
{
    qword_is_written(bytes);
    erstba_is_written(x, bytes);
    erstba_after(x, crate::access::written64(bytes));
}

proof fn qword_is_written(bytes: Seq<u8>)
    requires
        bytes.len() == 8,
    ensures
        crate::access::written64(bytes) == qword_in(bytes, 0),
{
    let z = crate::access::zero_extended(bytes, 8);
    assert(z =~= bytes);
    assert(crate::bytes::le32(z, 0) == dword_in(bytes, 0));
    assert(crate::bytes::le32(z, 4) == dword_in(bytes, 4));
}

proof fn qword_is_read(s: Seq<u8>)
    requires
        s.len() == 16,
    ensures
        crate::bytes::le64(s, 0) == qword_in(s, 0),
        crate::bytes::le32(s, 8) == dword_in(s, 8),
{
    assert(crate::bytes::le32(s, 0) == dword_in(s, 0));
    assert(crate::bytes::le32(s, 4) == dword_in(s, 4));
}

proof fn erstba_is_written(x: Xhci, bytes: Seq<u8>)
    requires
        bytes.len() == 8,
    ensures
        after_write(x, 0x590, bytes) == x.write_erstba(crate::access::written64(bytes)),
        after_write(x, 0x598, bytes) == x.write_erdp(crate::access::written64(bytes)),
        after_write(x, 0x38, bytes) == x.write_crcr(crate::access::written64(bytes)),
{
    reveal(after_write);
}

proof fn running_bit(val: u64)
    ensures
        (val & !8u64) / 16 == val / 16,
        (val & !8u64) % 8 == val % 8,
        (val & !8u64) / 8 % 2 == 0,
{
    assert((val & !8u64) / 16 == val / 16 && (val & !8u64) % 8 == val % 8 && (val & !8u64) / 8 % 2
        == 0) by (bit_vector);
}

proof fn crcr_after(x: Xhci, val: u64)
    ensures
        ({
            let y = x.write_crcr(val);
            &&& y.st.cmd_ring_base == val - val % 64
            &&& y.st.cmd_ring_dequeue == val - val % 64
            &&& y.st.cmd_ring_ccs <==> val % 2 == 1
            &&& y.st.crcr / 16 == val / 16
            &&& y.st.crcr % 8 == val % 8
            &&& y.st.crcr / 8 % 2 == 0
            &&& y.mem == x.mem && y.tablet == x.tablet && y.pin == x.pin
            &&& x.write_erdp(val) == (Xhci {
                st: XhciState { erdp: (val - val % 16) as u64, ..x.st },
                ..x
            })
        }),
{
    running_bit(val);
}

/// The command ring is placed at 0x38: its base and its cycle state in bit 0,
/// and what reads back differs only in bit 3, which is clear. The consumer's
/// pointer is kept at 0x598, to sixteen bytes.
pub proof fn command_ring_is_placed(x: Xhci, bytes: Seq<u8>)
    requires
        bytes.len() == 8,
    ensures
        ({
            let val = qword_in(bytes, 0);
            let y = after_write(x, 0x38, bytes);
            let z = after_write(x, 0x598, bytes);
            &&& y.st.cmd_ring_base == val - val % 64
            &&& y.st.cmd_ring_dequeue == val - val % 64
            &&& y.st.cmd_ring_ccs <==> val % 2 == 1
            &&& y.st.crcr / 16 == val / 16
            &&& y.st.crcr % 8 == val % 8
            &&& y.st.crcr / 8 % 2 == 0
            &&& y.mem == x.mem && y.tablet == x.tablet && y.pin == x.pin
            &&& z == (Xhci { st: XhciState { erdp: (val - val % 16) as u64, ..x.st }, ..x })
        }),
{
    qword_is_written(bytes);
    erstba_is_written(x, bytes);
    crcr_after(x, crate::access::written64(bytes));
}

/// The capability registers, the page size, the extended capabilities and
/// what lies behind them take no writes.
pub proof fn read_only_registers_are_inert(x: Xhci, bytes: Seq<u8>, off: int)
    ensures
        off < 0x20 ==> x.write_bar0(off, bytes) == x,
        0x28 <= off < 0x2C ==> x.write_bar0(off, bytes) == x,
        off >= 0x600 ==> x.write_bar0(off, bytes) == x,
        0x420 <= off < 0x440 ==> x.write_bar0(off, bytes) == x,
        0x401 <= off < 0x410 ==> x.write_bar0(off, bytes) == x,
{
}

/// The doorbells, and what lies behind the last capability, read as zeros.
pub proof fn doorbells_read_zero(st: XhciState, off: int, len: nat, i: int)
    requires
        0x440 <= off < 0x560 || off >= 0x2000,
        0 <= i < len,
    ensures
        bar0_read(st, off, len).len() == len,
        bar0_read(st, off, len)[i] == 0,
{
}

/// A pointer event that no TRB waits for is kept: the report is pending, and
/// guest memory, the rings and the pin are as they were.
pub proof fn pointer_event_is_kept(x: Xhci, buttons: u8, px: u16, py: u16)
    requires
        !x.st.ep1_in_has_trbs,
    ensures
        ({
            let y = x.pointer(buttons, px, py);
            &&& y.tablet.report_pending
            &&& y.tablet.report()[0] == buttons % 8
            &&& y.mem == x.mem
            &&& y.st == x.st
            &&& y.pin == x.pin
        }),
{
}

/// A pin that is not there is not driven.
pub proof fn absent_pin_is_not_driven(x: Xhci, op: PinOp)
    ensures
        !x.has_pin ==> x.act(op) == x,
        x.has_pin ==> x.act(op).pin == x.pin.push(op),
        x.act(op).st == x.st && x.act(op).mem == x.mem && x.act(op).tablet == x.tablet,
{
}

} // verus!
