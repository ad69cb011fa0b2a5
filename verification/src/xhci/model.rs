//! The host controller as a state machine over guest memory.
//!
//! Each function here says what one guest action does to the controller, its
//! tablet, its interrupt pin and guest memory.

use vstd::prelude::*;

use super::bits::{
    RawTrb, BAR0_SIZE, CRCR_CRR, DBOFF, IMAN_IE, IMAN_IP, IR0_BASE, IR_ERDP, IR_ERSTBA, IR_ERSTSZ,
    IR_IMAN, IR_IMOD, MAX_SLOTS, OP_BASE, OP_CONFIG, OP_CRCR, OP_DCBAAP, OP_DNCTRL, OP_PAGESIZE,
    OP_USBCMD, OP_USBSTS, PORTSC_BASE, PORTSC_CCS, PORTSC_CSC, PORTSC_LWS, PORTSC_PR, RTSOFF,
    TRB_CC_NO_SLOTS_AVAILABLE, TRB_CC_SHORT_PACKET, TRB_CC_SLOT_NOT_ENABLED, TRB_CC_STALL,
    TRB_CC_SUCCESS, TRB_CC_TRB_ERROR, TRB_TYPE_ADDRESS_DEVICE, TRB_TYPE_CMD_COMPLETION,
    TRB_TYPE_CONFIGURE_EP, TRB_TYPE_DATA_STAGE, TRB_TYPE_ENABLE_SLOT, TRB_TYPE_EVALUATE_CTX,
    TRB_TYPE_LINK, TRB_TYPE_NOOP_CMD, TRB_TYPE_NORMAL, TRB_TYPE_PORT_STATUS_CHANGE,
    TRB_TYPE_RESET_EP, TRB_TYPE_SETUP_STAGE, TRB_TYPE_SET_TR_DEQUEUE, TRB_TYPE_STATUS_STAGE,
    TRB_TYPE_TRANSFER_EVENT, USBCMD_HCRST, USBCMD_INTE, USBCMD_RS, USBSTS_EINT, USBSTS_HCH,
    XCAP_BASE, XCAP_PROTO_SIZE,
};
use super::tablet::{control, pointed, TabletState};
use crate::access::{dword, dword_at, written32, written64};
use crate::bytes::{le32, le64, le64_bytes};
use crate::intr::PinOp;
use crate::mem::GuestMem;

verus! {

/// Life of the one device slot.
#[derive(Debug, Clone, Copy, PartialEq, Eq, Structural)]
pub enum SlotState {
    Disabled,
    Enabled,
    Addressed,
    Configured,
}

/// Per-endpoint transfer ring tracking.
#[derive(Debug, Clone, Copy, PartialEq, Eq, Structural)]
pub struct TransferRing {
    /// Guest physical address of the ring base.
    pub base: u64,
    pub dequeue: u64,
    /// Ring cycle state (expected cycle bit).
    pub ccs: bool,
}

/// The controller's registers and ring positions.
#[derive(Debug, Clone, Copy, PartialEq, Eq, Structural)]
pub struct XhciState {
    // ---- Operational registers ----
    pub usbcmd: u32,
    pub usbsts: u32,
    pub dnctrl: u32,
    /// Command Ring Control Register.
    pub crcr: u64,
    /// Device Context Base Address Array Pointer.
    pub dcbaap: u64,
    pub config: u32,
    // ---- Port state ----
    /// Port 1 (USB2) status/control.
    pub port1_sc: u32,
    /// Port 2 (USB3) status/control. The tablet is connected here.
    pub port2_sc: u32,
    // ---- Runtime / interrupter 0 ----
    pub iman: u32,
    pub imod: u32,
    pub erstsz: u32,
    pub erstba: u64,
    pub erdp: u64,
    // ---- Event ring state ----
    /// Guest physical base of event ring segment 0.
    pub event_ring_base: u64,
    /// Size of event ring segment 0 (in TRBs).
    pub event_ring_size: u32,
    /// Next write index into the event ring.
    pub event_ring_enqueue: u32,
    /// Event ring producer cycle state.
    pub event_ring_pcs: bool,
    // ---- Command ring state ----
    pub cmd_ring_base: u64,
    pub cmd_ring_dequeue: u64,
    pub cmd_ring_ccs: bool,
    // ---- Device slot 1 ----
    pub slot_state: SlotState,
    /// EP0 (control) transfer ring.
    pub ep0_ring: TransferRing,
    /// EP1 IN (interrupt) transfer ring for tablet reports.
    pub ep1_in_ring: TransferRing,
    /// Whether EP1 IN has pending TRBs queued by the guest.
    pub ep1_in_has_trbs: bool,
}

/// Port reset, connect and warm reset change bits, cleared by writing 1.
pub const PORTSC_CHANGE_BITS: u32 = 0x2A_0000;

/// The port link state field, bits 8:5.
pub const PORTSC_PLS_FIELD: u32 = 0x1E0;

/// Port enabled, and its reset complete.
pub const PORTSC_RESET_DONE: u32 = 0x20_0002;

/// Port 1 at power-on: powered, no device, looking for one.
pub const PORT1_INITIAL: u32 = 0x2A0;

/// Port 2 at power-on: powered, with a SuperSpeed device.
pub const PORT2_INITIAL: u32 = 0x1201;

/// The largest event ring the controller follows, in TRBs.
pub const MAX_EVENT_RING_SIZE: u32 = 4096;

/// TRBs that one doorbell takes off the command ring at most.
pub const COMMANDS_PER_DOORBELL: u32 = 16;

/// TRBs that one doorbell takes off the control endpoint's ring at most.
pub const EP0_PER_DOORBELL: u32 = 32;

/// TRBs that follow one SETUP stage at most.
pub const STAGES_PER_SETUP: u32 = 8;

/// TRBs that one delivery looks at on the interrupt endpoint's ring.
pub const EP1_PER_REPORT: u32 = 4;

/// A transfer ring that the guest has not placed.
pub open spec fn unset_ring() -> TransferRing {
    TransferRing { base: 0, dequeue: 0, ccs: true }
}

/// The state after power-on.
pub open spec fn power_on() -> XhciState {
    XhciState {
        usbcmd: 0,
        usbsts: USBSTS_HCH,
        dnctrl: 0,
        crcr: 0,
        dcbaap: 0,
        config: 0,
        port1_sc: PORT1_INITIAL,
        port2_sc: PORT2_INITIAL,
        iman: 0,
        imod: 0,
        erstsz: 0,
        erstba: 0,
        erdp: 0,
        event_ring_base: 0,
        event_ring_size: 0,
        event_ring_enqueue: 0,
        event_ring_pcs: true,
        cmd_ring_base: 0,
        cmd_ring_dequeue: 0,
        cmd_ring_ccs: true,
        slot_state: SlotState::Disabled,
        ep0_ring: unset_ring(),
        ep1_in_ring: unset_ring(),
        ep1_in_has_trbs: false,
    }
}

impl XhciState {
    /// What every guest action keeps: the event ring is bounded and its index
    /// inside it, one segment at most is in use, and no register holds more
    /// than it advertises.
    pub open spec fn wf(self) -> bool {
        &&& self.event_ring_size <= MAX_EVENT_RING_SIZE
        &&& self.event_ring_size == 0 ==> self.event_ring_enqueue == 0
        &&& self.event_ring_size > 0 ==> self.event_ring_enqueue < self.event_ring_size
        &&& self.erstsz <= 1
        &&& self.config <= MAX_SLOTS
        &&& self.erstba % 64 == 0
        &&& self.erdp % 16 == 0
        &&& self.cmd_ring_base % 64 == 0
    }

    /// A host controller reset. The ports and the notification register keep
    /// what they hold.
    pub open spec fn reset(self) -> XhciState {
        XhciState {
            dnctrl: self.dnctrl,
            port1_sc: self.port1_sc,
            port2_sc: self.port2_sc,
            ..power_on()
        }
    }
}

/// The largest multiple of `n` not above `x`.
pub open spec fn aligned(x: u64, n: u64) -> u64 {
    (x - x % n) as u64
}

/// `reg` with its low dword replaced.
pub open spec fn with_low(reg: u64, val: u32) -> u64 {
    (reg / 0x1_0000_0000 * 0x1_0000_0000 + val) as u64
}

/// `reg` with its high dword replaced.
pub open spec fn with_high(reg: u64, val: u32) -> u64 {
    (reg % 0x1_0000_0000 + 0x1_0000_0000 * val) as u64
}

pub open spec fn low(reg: u64) -> u32 {
    (reg % 0x1_0000_0000) as u32
}

pub open spec fn high(reg: u64) -> u32 {
    (reg / 0x1_0000_0000) as u32
}

/// `t` with its cycle bit set or cleared.
pub open spec fn with_cycle(t: RawTrb, cycle: bool) -> RawTrb {
    RawTrb { dword3: (t.dword3 / 2 * 2 + if cycle { 1int } else { 0 }) as u32, ..t }
}

/// A Command Completion Event.
pub open spec fn command_completion(addr: u64, cc: u32, slot_id: u8) -> RawTrb {
    RawTrb {
        dword0: low(addr),
        dword1: high(addr),
        dword2: (cc * 0x100_0000) as u32,
        dword3: (TRB_TYPE_CMD_COMPLETION * 0x400 + slot_id * 0x100_0000) as u32,
    }
}

/// A Port Status Change Event.
pub open spec fn port_status_change(port_id: u8) -> RawTrb {
    RawTrb {
        dword0: 0,
        dword1: 0,
        dword2: (TRB_CC_SUCCESS * 0x100_0000) as u32,
        dword3: (TRB_TYPE_PORT_STATUS_CHANGE * 0x400 + port_id * 0x100_0000) as u32,
    }
}

/// A Transfer Event of slot 1.
pub open spec fn transfer_event(addr: u64, cc: u32, residual: u32, ep_id: u8) -> RawTrb {
    RawTrb {
        dword0: low(addr),
        dword1: high(addr),
        dword2: (cc * 0x100_0000 + residual % 0x100_0000) as u32,
        dword3: (TRB_TYPE_TRANSFER_EVENT * 0x400 + 0x100_0000 + ep_id * 0x1_0000) as u32,
    }
}

/// Whether a Link TRB flips the consumer cycle state.
pub open spec fn toggles(t: RawTrb) -> bool {
    t.dword3 / 2 % 2 == 1
}

/// The ring position behind a Link TRB.
pub open spec fn linked(ring: TransferRing, t: RawTrb) -> TransferRing {
    TransferRing {
        base: ring.base,
        dequeue: aligned(t.spec_parameter(), 64),
        ccs: if toggles(t) { !ring.ccs } else { ring.ccs },
    }
}

/// The ring position behind an ordinary TRB.
pub open spec fn advanced(ring: TransferRing) -> TransferRing {
    TransferRing { dequeue: (ring.dequeue + 16) as u64, ..ring }
}

/// A port register after a write of `val`: written change bits clear, a reset
/// of a connected port completes at once, and the link state is set where its
/// strobe is.
pub open spec fn port_written(port: u32, val: u32) -> u32 {
    let cleared = port & !(val & PORTSC_CHANGE_BITS);
    let after_reset = if port_resets(port, val) {
        (cleared | PORTSC_RESET_DONE) & !PORTSC_PR & !PORTSC_PLS_FIELD
    } else {
        cleared
    };
    if val & PORTSC_LWS != 0 {
        (after_reset & !PORTSC_PLS_FIELD) | ((val / 0x20 % 0x10 * 0x20) as u32)
    } else {
        after_reset
    }
}

/// Whether a write of `val` resets the port.
pub open spec fn port_resets(port: u32, val: u32) -> bool {
    val & PORTSC_PR != 0 && (port & !(val & PORTSC_CHANGE_BITS)) & PORTSC_CCS != 0
}

/// Everything a guest action can change.
pub ghost struct Xhci {
    pub st: XhciState,
    pub tablet: TabletState,
    pub has_pin: bool,
    /// What was done to the interrupt pin, oldest first.
    pub pin: Seq<PinOp>,
    /// Where BAR0 is on the bus.
    pub bar0: Option<u64>,
    pub mem: GuestMem,
}

impl Xhci {
    pub open spec fn act(self, op: PinOp) -> Xhci {
        if self.has_pin {
            Xhci { pin: self.pin.push(op), ..self }
        } else {
            self
        }
    }

    /// Mark the interrupt pending and pulse the pin.
    pub open spec fn interrupt(self) -> Xhci {
        Xhci {
            st: XhciState {
                usbsts: self.st.usbsts | USBSTS_EINT,
                iman: self.st.iman | IMAN_IP,
                ..self.st
            },
            ..self
        }.act(PinOp::Pulse)
    }

    /// Put an event on the event ring. Without a ring, or where its slot
    /// passes the end of the address space, the event is lost.
    pub open spec fn post_event(self, event: RawTrb) -> Xhci {
        let st = self.st;
        let idx = st.event_ring_enqueue;
        if st.event_ring_base == 0 || st.event_ring_size == 0 {
            self
        } else if idx >= st.event_ring_size {
            Xhci { st: XhciState { event_ring_enqueue: 0, ..st }, ..self }
        } else if st.event_ring_base + 16 * idx > u64::MAX {
            self
        } else {
            let wraps = idx + 1 >= st.event_ring_size;
            let x = Xhci {
                st: XhciState {
                    event_ring_enqueue: if wraps { 0 } else { (idx + 1) as u32 },
                    event_ring_pcs: if wraps { !st.event_ring_pcs } else { st.event_ring_pcs },
                    ..st
                },
                mem: self.mem.store(
                    st.event_ring_base + 16 * idx,
                    with_cycle(event, st.event_ring_pcs).bytes(),
                ),
                ..self
            };
            if st.iman & IMAN_IE != 0 && st.usbcmd & USBCMD_INTE != 0 {
                x.interrupt()
            } else {
                x
            }
        }
    }

    /// The TRB at `addr`, where guest memory backs it.
    pub open spec fn fetch(self, addr: u64) -> Option<RawTrb> {
        if self.mem.maps(addr as int, 16) {
            Some(RawTrb::of_bytes(self.mem.read(addr as int, 16)))
        } else {
            None
        }
    }

    pub open spec fn write_crcr(self, crcr: u64) -> Xhci {
        Xhci {
            st: XhciState {
                crcr: crcr & !CRCR_CRR,
                cmd_ring_base: aligned(crcr, 64),
                cmd_ring_dequeue: aligned(crcr, 64),
                cmd_ring_ccs: crcr % 2 == 1,
                ..self.st
            },
            ..self
        }
    }

    /// Take the event ring from entry 0 of the segment table. A table that is
    /// not backed, or a segment with no TRBs or too many, changes nothing.
    pub open spec fn setup_event_ring(self) -> Xhci {
        let entry = self.mem.read(self.st.erstba as int, 16);
        let size = le32(entry, 8);
        if self.st.erstba == 0 || self.st.erstsz == 0 || !self.mem.maps(self.st.erstba as int, 16)
            || size == 0 || size > MAX_EVENT_RING_SIZE {
            self
        } else {
            Xhci {
                st: XhciState {
                    event_ring_base: le64(entry, 0),
                    event_ring_size: size,
                    event_ring_enqueue: 0,
                    event_ring_pcs: true,
                    ..self.st
                },
                ..self
            }
        }
    }

    /// The transfer ring that the endpoint context at `addr` names.
    pub open spec fn context_ring(self, addr: u64) -> Option<TransferRing> {
        if self.mem.maps(addr as int, 32) {
            let deq = le64(self.mem.read(addr as int, 32), 8);
            Some(
                TransferRing {
                    base: aligned(deq, 16),
                    dequeue: aligned(deq, 16),
                    ccs: deq % 2 == 1,
                },
            )
        } else {
            None
        }
    }

    /// What one command does, before the ring moves on.
    pub open spec fn command(self, addr: u64, t: RawTrb) -> Xhci {
        let kind = t.spec_trb_type();
        let st = self.st;
        let ok = command_completion(addr, TRB_CC_SUCCESS, t.spec_slot_id());
        let not_enabled = command_completion(addr, TRB_CC_SLOT_NOT_ENABLED, t.spec_slot_id());
        let input = aligned(t.spec_parameter(), 16);
        if kind == TRB_TYPE_ENABLE_SLOT {
            if st.slot_state == SlotState::Disabled {
                Xhci { st: XhciState { slot_state: SlotState::Enabled, ..st }, ..self }.post_event(
                    command_completion(addr, TRB_CC_SUCCESS, 1),
                )
            } else {
                self.post_event(command_completion(addr, TRB_CC_NO_SLOTS_AVAILABLE, 0))
            }
        } else if kind == TRB_TYPE_ADDRESS_DEVICE {
            if st.slot_state == SlotState::Disabled {
                self.post_event(not_enabled)
            } else {
                // EP0's context follows the input control and slot contexts.
                let ring = self.context_ring(offset_by(input, 64));
                Xhci {
                    st: XhciState {
                        slot_state: SlotState::Addressed,
                        ep0_ring: if ring is Some { ring->0 } else { st.ep0_ring },
                        ..st
                    },
                    ..self
                }.post_event(ok)
            }
        } else if kind == TRB_TYPE_CONFIGURE_EP {
            if st.slot_state == SlotState::Disabled {
                self.post_event(not_enabled)
            } else {
                // EP1 IN's context is the third behind the slot context.
                let ring = self.context_ring(offset_by(input, 128));
                Xhci {
                    st: XhciState {
                        slot_state: SlotState::Configured,
                        ep1_in_ring: if ring is Some { ring->0 } else { st.ep1_in_ring },
                        ..st
                    },
                    ..self
                }.post_event(ok)
            }
        } else if kind == TRB_TYPE_EVALUATE_CTX || kind == TRB_TYPE_NOOP_CMD || kind
            == TRB_TYPE_RESET_EP {
            self.post_event(ok)
        } else if kind == TRB_TYPE_SET_TR_DEQUEUE {
            let ep_id = t.dword3 / 0x1_0000 % 0x20;
            let deq = t.spec_parameter();
            let moved = |ring: TransferRing|
                TransferRing { base: ring.base, dequeue: aligned(deq, 16), ccs: deq % 2 == 1 };
            Xhci {
                st: XhciState {
                    ep0_ring: if ep_id == 1 { moved(st.ep0_ring) } else { st.ep0_ring },
                    ep1_in_ring: if ep_id == 3 { moved(st.ep1_in_ring) } else { st.ep1_in_ring },
                    ..st
                },
                ..self
            }.post_event(ok)
        } else {
            self.post_event(command_completion(addr, TRB_CC_TRB_ERROR, t.spec_slot_id()))
        }
    }

    /// One TRB of the command ring, and whether the next may follow. Nothing
    /// follows where the TRB is not backed or its cycle bit marks the end of
    /// what is queued.
    pub open spec fn command_step(self) -> (Xhci, bool) {
        let addr = self.st.cmd_ring_dequeue;
        match self.fetch(addr) {
            Some(t) => {
                if t.spec_cycle_bit() != self.st.cmd_ring_ccs {
                    (self, false)
                } else if t.spec_trb_type() == TRB_TYPE_LINK {
                    let ccs = self.st.cmd_ring_ccs;
                    let st = XhciState {
                        cmd_ring_dequeue: aligned(t.spec_parameter(), 64),
                        cmd_ring_ccs: if toggles(t) { !ccs } else { ccs },
                        ..self.st
                    };
                    (Xhci { st, ..self }, true)
                } else {
                    let x = self.command(addr, t);
                    let st = XhciState { cmd_ring_dequeue: (addr + 16) as u64, ..x.st };
                    (Xhci { st, ..x }, true)
                }
            },
            None => (self, false),
        }
    }

    /// Run the command ring for at most `n` TRBs.
    pub open spec fn commands(self, n: nat) -> Xhci
        decreases n,
    {
        if n == 0 {
            self
        } else {
            let (x, more) = self.command_step();
            if more {
                x.commands((n - 1) as nat)
            } else {
                x
            }
        }
    }

    /// A command doorbell.
    pub open spec fn process_command_ring(self) -> Xhci {
        if self.st.cmd_ring_base == 0 {
            self
        } else {
            self.commands(COMMANDS_PER_DOORBELL as nat)
        }
    }

    pub open spec fn at_ep0(self, ring: TransferRing) -> Xhci {
        Xhci { st: XhciState { ep0_ring: ring, ..self.st }, ..self }
    }

    pub open spec fn at_ep1(self, ring: TransferRing) -> Xhci {
        Xhci { st: XhciState { ep1_in_ring: ring, ..self.st }, ..self }
    }

    /// Copy as much of `data` as the TRB takes to its buffer, and say how
    /// much of it was not filled.
    pub open spec fn deliver(self, addr: u64, t: RawTrb, data: Seq<u8>, ep_id: u8) -> Xhci {
        let room = t.spec_transfer_length();
        let n = if data.len() <= room { data.len() as int } else { room as int };
        let cc = if n < room { TRB_CC_SHORT_PACKET } else { TRB_CC_SUCCESS };
        Xhci {
            mem: self.mem.store(t.spec_parameter() as int, data.take(n)),
            ..self
        }.post_event(transfer_event(addr, cc, (room - n) as u32, ep_id))
    }

    /// One DATA stage.
    pub open spec fn data_stage(self, addr: u64, t: RawTrb, response: Option<Seq<u8>>) -> Xhci {
        let dir_in = t.dword3 / 0x1_0000 % 2 == 1;
        if !dir_in {
            self.post_event(transfer_event(addr, TRB_CC_SUCCESS, 0, 1))
        } else if response is Some {
            self.deliver(addr, t, response->0, 1)
        } else {
            self.post_event(transfer_event(addr, TRB_CC_STALL, t.spec_transfer_length(), 1))
        }
    }

    /// One TRB behind a SETUP stage, and whether the next may follow. The
    /// STATUS stage is the last.
    pub open spec fn stage_step(self, response: Option<Seq<u8>>) -> (Xhci, bool) {
        let ring = self.st.ep0_ring;
        match self.fetch(ring.dequeue) {
            Some(t) => {
                let kind = t.spec_trb_type();
                if t.spec_cycle_bit() != ring.ccs {
                    (self, false)
                } else if kind == TRB_TYPE_LINK {
                    (self.at_ep0(linked(ring, t)), true)
                } else if kind == TRB_TYPE_STATUS_STAGE {
                    let cc = if response is Some { TRB_CC_SUCCESS } else { TRB_CC_STALL };
                    let x = self.post_event(transfer_event(ring.dequeue, cc, 0, 1));
                    (x.at_ep0(advanced(ring)), false)
                } else if kind == TRB_TYPE_DATA_STAGE {
                    let x = self.data_stage(ring.dequeue, t, response);
                    (x.at_ep0(advanced(ring)), true)
                } else {
                    (self.at_ep0(advanced(ring)), true)
                }
            },
            None => (self, false),
        }
    }

    /// The DATA and STATUS stages behind a SETUP stage, for at most `n` TRBs.
    pub open spec fn stages(self, response: Option<Seq<u8>>, n: nat) -> Xhci
        decreases n,
    {
        if n == 0 {
            self
        } else {
            let (x, more) = self.stage_step(response);
            if more {
                x.stages(response, (n - 1) as nat)
            } else {
                x
            }
        }
    }

    /// One SETUP stage and the stages behind it.
    pub open spec fn setup_stage(self, t: RawTrb) -> Xhci {
        let ring = self.st.ep0_ring;
        let c = control(
            self.tablet,
            (t.dword0 % 0x100) as u8,
            (t.dword0 / 0x100 % 0x100) as u8,
            (t.dword0 / 0x1_0000) as u16,
            (t.dword1 / 0x1_0000) as u16,
        );
        Xhci { tablet: c.0, ..self }.post_event(
            transfer_event(ring.dequeue, TRB_CC_SUCCESS, 8, 1),
        ).at_ep0(advanced(ring)).stages(c.1, STAGES_PER_SETUP as nat)
    }

    /// One TRB of the control endpoint's ring, and whether the next may follow.
    pub open spec fn ep0_step(self) -> (Xhci, bool) {
        let ring = self.st.ep0_ring;
        match self.fetch(ring.dequeue) {
            Some(t) => {
                if t.spec_cycle_bit() != ring.ccs {
                    (self, false)
                } else if t.spec_trb_type() == TRB_TYPE_LINK {
                    (self.at_ep0(linked(ring, t)), true)
                } else if t.spec_trb_type() == TRB_TYPE_SETUP_STAGE {
                    (self.setup_stage(t), true)
                } else {
                    (self.at_ep0(advanced(ring)), true)
                }
            },
            None => (self, false),
        }
    }

    /// Run the control endpoint's ring for at most `n` TRBs.
    pub open spec fn ep0(self, n: nat) -> Xhci
        decreases n,
    {
        if n == 0 {
            self
        } else {
            let (x, more) = self.ep0_step();
            if more {
                x.ep0((n - 1) as nat)
            } else {
                x
            }
        }
    }

    pub open spec fn waiting(self, has_trbs: bool) -> Xhci {
        Xhci { st: XhciState { ep1_in_has_trbs: has_trbs, ..self.st }, ..self }
    }

    /// One TRB of the interrupt endpoint's ring, and whether to look at the
    /// next: not once the report is delivered or the queue has ended.
    pub open spec fn ep1_step(self) -> (Xhci, bool) {
        let ring = self.st.ep1_in_ring;
        match self.fetch(ring.dequeue) {
            Some(t) => {
                if t.spec_cycle_bit() != ring.ccs {
                    (self.waiting(false), false)
                } else if t.spec_trb_type() == TRB_TYPE_LINK {
                    (self.at_ep1(linked(ring, t)), true)
                } else if t.spec_trb_type() == TRB_TYPE_NORMAL {
                    let sent = TabletState { report_pending: false, ..self.tablet };
                    let x = Xhci { tablet: sent, ..self }.deliver(
                        ring.dequeue,
                        t,
                        self.tablet.report(),
                        3,
                    );
                    (x.at_ep1(advanced(ring)).waiting(false), false)
                } else {
                    (self.at_ep1(advanced(ring)), true)
                }
            },
            None => (self.waiting(false), false),
        }
    }

    /// Look for a TRB that takes the report, for at most `n` TRBs.
    pub open spec fn ep1_walk(self, n: nat) -> Xhci
        decreases n,
    {
        if n == 0 {
            self
        } else {
            let (x, more) = self.ep1_step();
            if more {
                x.ep1_walk((n - 1) as nat)
            } else {
                x
            }
        }
    }

    /// The interrupt endpoint's turn: with a report pending it is delivered,
    /// else the TRBs are remembered for later.
    pub open spec fn ep1(self) -> Xhci {
        if self.st.slot_state != SlotState::Configured {
            self
        } else if !self.tablet.report_pending {
            self.waiting(true)
        } else {
            self.ep1_walk(EP1_PER_REPORT as nat)
        }
    }

    /// A pointer report is pending: deliver it if TRBs wait for one.
    pub open spec fn notify(self) -> Xhci {
        if self.st.ep1_in_has_trbs {
            self.ep1()
        } else {
            self
        }
    }

    /// The pointer moved or a button changed.
    pub open spec fn pointer(self, buttons: u8, x: u16, y: u16) -> Xhci {
        Xhci { tablet: pointed(self.tablet, buttons, x, y), ..self }.notify()
    }

    // ---- Registers --------------------------------------------------------

    pub open spec fn write_usbcmd(self, val: u32) -> Xhci {
        let was = self.st.usbcmd;
        let st = XhciState { usbcmd: val, ..self.st };
        let x = if val & USBCMD_RS != 0 && was & USBCMD_RS == 0 {
            // Starting reports the connected port.
            Xhci {
                st: XhciState {
                    usbsts: st.usbsts & !USBSTS_HCH,
                    port2_sc: st.port2_sc | PORTSC_CSC,
                    ..st
                },
                ..self
            }.post_event(port_status_change(2))
        } else if val & USBCMD_RS == 0 && was & USBCMD_RS != 0 {
            Xhci { st: XhciState { usbsts: st.usbsts | USBSTS_HCH, ..st }, ..self }
        } else {
            Xhci { st, ..self }
        };
        if val & USBCMD_HCRST != 0 {
            Xhci { st: x.st.reset(), ..x }
        } else {
            x
        }
    }

    pub open spec fn write_usbsts(self, val: u32) -> Xhci {
        let x = Xhci { st: XhciState { usbsts: self.st.usbsts & !val, ..self.st }, ..self };
        if val & USBSTS_EINT != 0 {
            x.act(PinOp::Deassert)
        } else {
            x
        }
    }

    /// A write to the port register that starts at `op_off`.
    pub open spec fn write_port(self, op_off: int, val: u32) -> Xhci {
        let port = (op_off - PORTSC_BASE) / 16;
        if (op_off - PORTSC_BASE) % 16 != 0 {
            self
        } else if port == 0 {
            let x = Xhci {
                st: XhciState { port1_sc: port_written(self.st.port1_sc, val), ..self.st },
                ..self
            };
            if port_resets(self.st.port1_sc, val) {
                x.post_event(port_status_change(1))
            } else {
                x
            }
        } else if port == 1 {
            let x = Xhci {
                st: XhciState { port2_sc: port_written(self.st.port2_sc, val), ..self.st },
                ..self
            };
            if port_resets(self.st.port2_sc, val) {
                x.post_event(port_status_change(2))
            } else {
                x
            }
        } else {
            self
        }
    }

    /// A write to the operational registers, `op_off` bytes behind their base.
    pub open spec fn write_op(self, op_off: int, bytes: Seq<u8>) -> Xhci {
        let st = self.st;
        let val = written32(bytes);
        let reg = op_off - op_off % 4;
        if op_off >= PORTSC_BASE {
            self.write_port(op_off, val)
        } else if bytes.len() == 8 {
            if op_off == OP_CRCR {
                self.write_crcr(written64(bytes))
            } else if op_off == OP_DCBAAP {
                Xhci { st: XhciState { dcbaap: written64(bytes), ..st }, ..self }
            } else {
                self
            }
        } else if reg == OP_USBCMD {
            self.write_usbcmd(val)
        } else if reg == OP_USBSTS {
            self.write_usbsts(val)
        } else if reg == OP_DNCTRL {
            Xhci { st: XhciState { dnctrl: val, ..st }, ..self }
        } else if reg == OP_CRCR {
            self.write_crcr(with_low(st.crcr, val))
        } else if reg == OP_CRCR + 4 {
            self.write_crcr(with_high(st.crcr, val))
        } else if reg == OP_DCBAAP {
            Xhci { st: XhciState { dcbaap: with_low(st.dcbaap, val), ..st }, ..self }
        } else if reg == OP_DCBAAP + 4 {
            Xhci { st: XhciState { dcbaap: with_high(st.dcbaap, val), ..st }, ..self }
        } else if reg == OP_CONFIG {
            let slots = val % 0x100;
            Xhci {
                st: XhciState {
                    config: if slots <= MAX_SLOTS { slots } else { MAX_SLOTS as u32 },
                    ..st
                },
                ..self
            }
        } else {
            self
        }
    }

    /// A write to doorbell `db_off / 4`.
    pub open spec fn write_doorbell(self, db_off: int, bytes: Seq<u8>) -> Xhci {
        let target = written32(bytes) % 0x100;
        if db_off / 4 == 0 {
            self.process_command_ring()
        } else if db_off / 4 == 1 && target == 1 {
            self.ep0(EP0_PER_DOORBELL as nat)
        } else if db_off / 4 == 1 && target == 3 {
            self.ep1()
        } else {
            self
        }
    }

    pub open spec fn write_erstba(self, val: u64) -> Xhci {
        Xhci { st: XhciState { erstba: aligned(val, 64), ..self.st }, ..self }.setup_event_ring()
    }

    pub open spec fn write_erdp(self, val: u64) -> Xhci {
        Xhci { st: XhciState { erdp: aligned(val, 16), ..self.st }, ..self }
    }

    /// IP is write-1-to-clear. IE is read/write.
    pub open spec fn write_iman(self, val: u32) -> Xhci {
        let pending = if val & IMAN_IP != 0 {
            self.st.iman & !IMAN_IP
        } else {
            self.st.iman
        };
        Xhci {
            st: XhciState {
                iman: if val & IMAN_IE != 0 { pending | IMAN_IE } else { pending & !IMAN_IE },
                ..self.st
            },
            ..self
        }
    }

    /// A write to the runtime registers, `rt_off` bytes behind their base.
    pub open spec fn write_runtime(self, rt_off: int, bytes: Seq<u8>) -> Xhci {
        let st = self.st;
        let val = written32(bytes);
        let ir_off = rt_off - IR0_BASE;
        let reg = ir_off - ir_off % 4;
        if rt_off < IR0_BASE {
            self
        } else if bytes.len() == 8 {
            if ir_off == IR_ERSTBA {
                self.write_erstba(written64(bytes))
            } else if ir_off == IR_ERDP {
                self.write_erdp(written64(bytes))
            } else {
                self
            }
        } else if reg == IR_IMAN {
            self.write_iman(val)
        } else if reg == IR_IMOD {
            Xhci { st: XhciState { imod: val, ..st }, ..self }
        } else if reg == IR_ERSTSZ {
            Xhci {
                st: XhciState { erstsz: if val % 0x1_0000 == 0 { 0 } else { 1 }, ..st },
                ..self
            }
        } else if reg == IR_ERSTBA {
            self.write_erstba(with_low(st.erstba, val))
        } else if reg == IR_ERSTBA + 4 {
            self.write_erstba(with_high(st.erstba, val))
        } else if reg == IR_ERDP {
            self.write_erdp(with_low(st.erdp, val))
        } else if reg == IR_ERDP + 4 {
            self.write_erdp(with_high(st.erdp, val))
        } else {
            self
        }
    }

    /// A guest write of `bytes` at `offset` in BAR0.
    pub open spec fn write_bar0(self, offset: int, bytes: Seq<u8>) -> Xhci {
        if offset < OP_BASE {
            self
        } else if offset < DBOFF {
            self.write_op(offset - OP_BASE, bytes)
        } else if offset < RTSOFF {
            self.write_doorbell(offset - DBOFF, bytes)
        } else if offset < XCAP_BASE {
            self.write_runtime(offset - RTSOFF, bytes)
        } else {
            self
        }
    }
}

// ---- Reads ------------------------------------------------------------------

/// The capability register at the aligned offset `reg`.
pub open spec fn cap_reg(reg: int) -> u32 {
    if reg == 0x00 {
        0x0100_0020
    } else if reg == 0x04 {
        0x0200_0140
    } else if reg == 0x10 {
        0x0180_0001
    } else if reg == 0x14 {
        DBOFF
    } else if reg == 0x18 {
        RTSOFF
    } else {
        0
    }
}

/// What a read of the operational registers sees.
pub open spec fn op_read(st: XhciState, op_off: int, len: nat) -> Seq<u8> {
    let reg = op_off - op_off % 4;
    if op_off >= PORTSC_BASE {
        dword_at(
            if op_off == PORTSC_BASE {
                st.port1_sc
            } else if op_off == PORTSC_BASE + 16 {
                st.port2_sc
            } else {
                0
            },
            op_off,
            len,
        )
    } else if len == 8 && op_off == OP_CRCR {
        le64_bytes(st.crcr)
    } else if len == 8 && op_off == OP_DCBAAP {
        le64_bytes(st.dcbaap)
    } else {
        dword_at(
            if reg == OP_USBCMD {
                st.usbcmd
            } else if reg == OP_USBSTS {
                st.usbsts
            } else if reg == OP_PAGESIZE {
                1
            } else if reg == OP_DNCTRL {
                st.dnctrl
            } else if reg == OP_CRCR {
                low(st.crcr)
            } else if reg == OP_CRCR + 4 {
                high(st.crcr)
            } else if reg == OP_DCBAAP {
                low(st.dcbaap)
            } else if reg == OP_DCBAAP + 4 {
                high(st.dcbaap)
            } else if reg == OP_CONFIG {
                st.config
            } else {
                0
            },
            op_off,
            len,
        )
    }
}

/// What a read of the runtime registers sees.
pub open spec fn runtime_read(st: XhciState, rt_off: int, len: nat) -> Seq<u8> {
    let ir_off = rt_off - IR0_BASE;
    let reg = ir_off - ir_off % 4;
    if len == 8 && ir_off == IR_ERSTBA {
        le64_bytes(st.erstba)
    } else if len == 8 && ir_off == IR_ERDP {
        le64_bytes(st.erdp)
    } else {
        dword_at(
            if rt_off < IR0_BASE {
                0
            } else if reg == IR_IMAN {
                st.iman
            } else if reg == IR_IMOD {
                st.imod
            } else if reg == IR_ERSTSZ {
                st.erstsz
            } else if reg == IR_ERSTBA {
                low(st.erstba)
            } else if reg == IR_ERSTBA + 4 {
                high(st.erstba)
            } else if reg == IR_ERDP {
                low(st.erdp)
            } else if reg == IR_ERDP + 4 {
                high(st.erdp)
            } else {
                0
            },
            rt_off,
            len,
        )
    }
}

/// The extended capability dword that holds `xcap_off`.
pub open spec fn xcap_reg(xcap_off: int) -> u32 {
    if xcap_off < XCAP_PROTO_SIZE {
        super::bits::xcap_usb2_dwords()[xcap_off / 4]
    } else if xcap_off < 2 * XCAP_PROTO_SIZE {
        super::bits::xcap_usb3_dwords()[(xcap_off - XCAP_PROTO_SIZE) / 4]
    } else {
        0
    }
}

/// What a guest read of `len` bytes at `offset` in BAR0 sees.
pub open spec fn bar0_read(st: XhciState, offset: int, len: nat) -> Seq<u8> {
    if offset < OP_BASE {
        dword_at(cap_reg(offset - offset % 4), offset, len)
    } else if offset < DBOFF {
        op_read(st, offset - OP_BASE, len)
    } else if offset < RTSOFF {
        dword(0, len)
    } else if offset < XCAP_BASE {
        runtime_read(st, offset - RTSOFF, len)
    } else if offset < BAR0_SIZE {
        dword_at(xcap_reg(offset - XCAP_BASE), offset - XCAP_BASE, len)
    } else {
        dword(0, len)
    }
}

/// `addr` and `n` bytes further on, modulo the address space.
pub open spec fn offset_by(addr: u64, n: u64) -> u64 {
    if addr + n > u64::MAX {
        (addr + n - 0x1_0000_0000_0000_0000) as u64
    } else {
        (addr + n) as u64
    }
}

} // verus!
