//! xHCI USB 3.0 host controller with built-in HID tablet device.
//!
//! A minimal xHCI controller that presents one USB HID absolute-pointer
//! tablet to the guest.
//!
//! - BAR0: 32-bit MMIO (8 KiB) containing capability, operational,
//!   port, doorbell, runtime, and extended capability registers.
//! - INTx interrupt delivery: the controller records what it did to its pin,
//!   and its owner carries that out.
//! - Single device slot (slot 1) hosting the tablet.
//! - 2 ports (1 USB2 + 1 USB3) for extended capability compliance.
//! - 1 interrupter (interrupter 0).
//! - Command ring, event ring, and per-endpoint transfer rings.

pub mod bits;
pub mod driver;
pub mod guest;
pub mod laws;
pub mod model;
pub mod registers;
pub mod tablet;

use vstd::prelude::*;

use bits::{
    hccparams1, hcsparams1, hcsparams2, xcap_usb2, xcap_usb3, RawTrb, BAR0_SIZE, CRCR_CRR, DBOFF,
    DB_REG_SIZE, EP_CTX_SIZE, HCCPARAMS2, HCSPARAMS3, IMAN_IE, IMAN_IP, INPUT_CTRL_CTX_SIZE,
    IR0_BASE, IR_ERDP, IR_ERSTBA, IR_ERSTSZ, IR_IMAN, IR_IMOD, MAX_SLOTS, OP_BASE, OP_CONFIG,
    OP_CRCR, OP_DCBAAP, OP_DNCTRL, OP_PAGESIZE, OP_USBCMD, OP_USBSTS, PCI_CLASS_SERIAL,
    PCI_DEVICE_XHCI_PPT, PCI_PROGIF_XHCI, PCI_SUBCLASS_USB, PCI_VENDOR_INTEL, PORTSC_BASE,
    PORTSC_CCS, PORTSC_CSC, PORTSC_LWS, PORTSC_PR, PORT_REG_SIZE, RTSOFF, SLOT_CTX_SIZE,
    TRB_CC_NO_SLOTS_AVAILABLE, TRB_CC_SHORT_PACKET, TRB_CC_SLOT_NOT_ENABLED, TRB_CC_STALL,
    TRB_CC_SUCCESS, TRB_CC_TRB_ERROR, TRB_SIZE, TRB_TYPE_ADDRESS_DEVICE, TRB_TYPE_CMD_COMPLETION,
    TRB_TYPE_CONFIGURE_EP, TRB_TYPE_DATA_STAGE, TRB_TYPE_ENABLE_SLOT, TRB_TYPE_EVALUATE_CTX,
    TRB_TYPE_LINK, TRB_TYPE_NOOP_CMD, TRB_TYPE_NORMAL, TRB_TYPE_PORT_STATUS_CHANGE,
    TRB_TYPE_RESET_EP, TRB_TYPE_SETUP_STAGE, TRB_TYPE_SET_TR_DEQUEUE, TRB_TYPE_STATUS_STAGE,
    TRB_TYPE_TRANSFER_EVENT, USBCMD_HCRST, USBCMD_INTE, USBCMD_RS, USBSTS_EINT, USBSTS_HCH,
    XCAP_BASE, XCAP_PROTO_SIZE,
};
use model::{
    bar0_read, cap_reg, command_completion, high, low, offset_by, op_read, port_resets,
    port_status_change, port_written, power_on, runtime_read, transfer_event, unset_ring, with_high,
    with_low, xcap_reg, SlotState, TransferRing, Xhci, XhciState, COMMANDS_PER_DOORBELL,
    EP0_PER_DOORBELL, EP1_PER_REPORT, MAX_EVENT_RING_SIZE, PORT1_INITIAL, PORT2_INITIAL,
    PORTSC_CHANGE_BITS, PORTSC_PLS_FIELD, PORTSC_RESET_DONE, STAGES_PER_SETUP,
};
use tablet::TabletDevice;

use crate::access::{
    answer_dword, answer_dword_at, answer_qword, dword, write_value32, write_value64, RWOp,
};
use crate::bytes::{get_le32, get_le64, take_bytes};
use crate::intr::PinOp;
use crate::mem::PhysMap;
use crate::pci::{decoded_at, mmio_target, DeviceIdent, MmioUpdate};

verus! {

/// Replace the low dword of a 64-bit register.
fn merge_low_dword(reg: u64, val: u32) -> (r: u64)
    ensures
        r == with_low(reg, val),
{
    reg / 0x1_0000_0000 * 0x1_0000_0000 + val as u64
}

/// Replace the high dword of a 64-bit register.
fn merge_high_dword(reg: u64, val: u32) -> (r: u64)
    ensures
        r == with_high(reg, val),
{
    reg % 0x1_0000_0000 + 0x1_0000_0000 * (val as u64)
}

fn low_dword(reg: u64) -> (r: u32)
    ensures
        r == low(reg),
{
    (reg % 0x1_0000_0000) as u32
}

fn high_dword(reg: u64) -> (r: u32)
    ensures
        r == high(reg),
{
    (reg / 0x1_0000_0000) as u32
}

impl TransferRing {
    pub fn new() -> (r: Self)
        ensures
            r == unset_ring(),
    {
        TransferRing { base: 0, dequeue: 0, ccs: true }
    }

    /// The position behind the Link TRB `trb`.
    fn linked(self, trb: RawTrb) -> (r: Self)
        ensures
            r == model::linked(self, trb),
    {
        let target: u64 = trb.parameter();
        TransferRing {
            base: self.base,
            dequeue: target - target % 64,
            // Toggle cycle if the Toggle Cycle bit is set
            ccs: if trb.dword3 / 2 % 2 == 1 {
                !self.ccs
            } else {
                self.ccs
            },
        }
    }

    /// The position behind an ordinary TRB.
    fn advanced(self) -> (r: Self)
        requires
            self.dequeue + 16 <= u64::MAX,
        ensures
            r == model::advanced(self),
    {
        TransferRing { base: self.base, dequeue: self.dequeue + TRB_SIZE as u64, ccs: self.ccs }
    }
}

impl XhciState {
    pub fn new() -> (r: Self)
        ensures
            r == power_on(),
            r.wf(),
    {
        XhciState {
            usbcmd: 0,
            usbsts: USBSTS_HCH,  // Halted on reset
            dnctrl: 0,
            crcr: 0,
            dcbaap: 0,
            config: 0,
            port1_sc: PORT1_INITIAL,
            port2_sc: PORT2_INITIAL,
            iman: 0,
            imod: 0,
            erstsz: 0,
            erstba: 0,
            erdp: 0,
            event_ring_base: 0,
            event_ring_size: 0,
            event_ring_enqueue: 0,
            event_ring_pcs: true,
            cmd_ring_base: 0,
            cmd_ring_dequeue: 0,
            cmd_ring_ccs: true,
            slot_state: SlotState::Disabled,
            ep0_ring: TransferRing::new(),
            ep1_in_ring: TransferRing::new(),
            ep1_in_has_trbs: false,
        }
    }

    /// Take the one device slot: its completion code and its number.
    pub fn enable_slot(&mut self) -> (r: (u32, u8))
        ensures
            old(self).slot_state == SlotState::Disabled ==> r == (TRB_CC_SUCCESS, 1u8)
                && *final(self) == (XhciState { slot_state: SlotState::Enabled, ..*old(self) }),
            old(self).slot_state != SlotState::Disabled ==> r == (TRB_CC_NO_SLOTS_AVAILABLE, 0u8)
                && *final(self) == *old(self),
    {
        if self.slot_state != SlotState::Disabled {
            return (TRB_CC_NO_SLOTS_AVAILABLE, 0);
        }
        self.slot_state = SlotState::Enabled;
        (TRB_CC_SUCCESS, 1)
    }
}

/// xHCI USB 3.0 host controller.
///
/// Presents a PCI device with a single BAR0 (MMIO) and INTx interrupt.
/// Hosts a built-in USB HID tablet device for absolute pointer input.
pub struct XhciController {
    state: XhciState,
    tablet: TabletDevice,
    /// Whether an interrupt pin is wired up.
    has_pin: bool,
    /// What was done to the pin since its owner last looked.
    pin_ops: Vec<PinOp>,
    /// Currently registered BAR0 address.
    registered_bar0: Option<u64>,
}

impl XhciController {
    /// The controller together with guest memory.
    pub closed spec fn with(&self, mem: PhysMap) -> Xhci {
        Xhci {
            st: self.state,
            tablet: self.tablet@,
            has_pin: self.has_pin,
            pin: self.pin_ops@,
            bar0: self.registered_bar0,
            mem: mem@,
        }
    }

    /// The controller's registers and ring positions.
    pub closed spec fn registers(&self) -> XhciState {
        self.state
    }

    /// The model's registers are the controller's.
    pub broadcast proof fn registers_of(&self, mem: PhysMap)
        ensures
            #[trigger] self.with(mem).st == self.registers(),
            self.with(mem).mem == mem@,
    {
    }

    /// Create a new xHCI controller with a built-in tablet device.
    pub fn new(has_pin: bool) -> (r: Self)
        ensures
            r.registers() == power_on(),
            forall|mem: PhysMap| #[trigger]
                r.with(mem) == (Xhci {
                    st: power_on(),
                    tablet: tablet::initial(),
                    has_pin,
                    pin: Seq::empty(),
                    bar0: None,
                    mem: mem@,
                }),
    {
        let r = XhciController {
            state: XhciState::new(),
            tablet: TabletDevice::new(),
            has_pin,
            pin_ops: Vec::new(),
            registered_bar0: None,
        };
        assert(r.pin_ops@ =~= Seq::empty());
        r
    }

    /// The identity the controller shows on the PCI bus.
    pub fn ident() -> (r: DeviceIdent)
        ensures
            r.vendor_id == PCI_VENDOR_INTEL,
            r.device_id == PCI_DEVICE_XHCI_PPT,
            r.class == PCI_CLASS_SERIAL,
            r.subclass == PCI_SUBCLASS_USB,
            r.prog_if == PCI_PROGIF_XHCI,
            r.revision == 0x04,
            r.sub_vendor_id == PCI_VENDOR_INTEL,
            r.sub_device_id == PCI_DEVICE_XHCI_PPT,
            r.vendor_id == 0x8086 && r.device_id == 0x1E31,
            r.class == 0x0C && r.subclass == 0x03 && r.prog_if == 0x30,
    {
        DeviceIdent {
            vendor_id: PCI_VENDOR_INTEL,
            device_id: PCI_DEVICE_XHCI_PPT,
            class: PCI_CLASS_SERIAL,
            subclass: PCI_SUBCLASS_USB,
            prog_if: PCI_PROGIF_XHCI,
            revision: 0x04,
            sub_vendor_id: PCI_VENDOR_INTEL,
            sub_device_id: PCI_DEVICE_XHCI_PPT,
        }
    }

    /// Get a reference to the built-in tablet device.
    pub fn tablet(&self) -> (r: &TabletDevice)
        ensures
            forall|mem: PhysMap| (#[trigger] self.with(mem)).tablet == r@,
    {
        &self.tablet
    }

    /// The controller's registers and ring positions.
    pub fn state(&self) -> (r: XhciState)
        ensures
            r == self.registers(),
    {
        self.state
    }

    /// Hand over what was done to the interrupt pin, oldest first, and forget
    /// it.
    pub fn take_pin_ops(&mut self) -> (r: Vec<PinOp>)
        ensures
            forall|mem: PhysMap|
                {
                    &&& r@ == (#[trigger] old(self).with(mem)).pin
                    &&& final(self).with(mem) == (Xhci {
                        pin: Seq::empty(),
                        ..old(self).with(mem)
                    })
                },
    {
        let mut ops: Vec<PinOp> = Vec::new();
        ops.append(&mut self.pin_ops);
        assert(ops@ =~= old(self).pin_ops@);
        assert(self.pin_ops@ =~= Seq::empty());
        ops
    }

    // ---- MMIO BAR registration -------------------------------------------

    /// Forget the recorded BAR0 base and hand it out, to be taken off the bus.
    fn release_mmio(&mut self) -> (r: Option<u64>)
        ensures
            forall|mem: PhysMap|
                {
                    &&& r == (#[trigger] old(self).with(mem)).bar0
                    &&& final(self).with(mem) == (Xhci { bar0: None, ..old(self).with(mem) })
                },
    {
        let addr = self.registered_bar0;
        self.registered_bar0 = None;
        addr
    }

    /// What changes on the MMIO bus after a BAR or command register write.
    ///
    /// The old base always comes off. BAR0 counts as unregistered until
    /// [`XhciController::mmio_registered`] says that the bus took the new one.
    pub fn update_mmio_registration(&mut self, mmio_enabled: bool, bar0: Option<u64>) -> (r:
        MmioUpdate)
        ensures
            r.register == decoded_at(mmio_enabled, bar0),
            forall|mem: PhysMap|
                {
                    &&& r.unregister == (#[trigger] old(self).with(mem)).bar0
                    &&& final(self).with(mem) == (Xhci { bar0: None, ..old(self).with(mem) })
                },
    {
        let unregister = self.release_mmio();
        MmioUpdate { unregister, register: mmio_target(mmio_enabled, bar0) }
    }

    /// The bus took BAR0 at `addr`.
    pub fn mmio_registered(&mut self, addr: u64)
        ensures
            forall|mem: PhysMap| #[trigger]
                final(self).with(mem) == (Xhci { bar0: Some(addr), ..old(self).with(mem) }),
    {
        self.registered_bar0 = Some(addr);
    }

    /// Leave the bus: the base to take off it, if BAR0 is on it.
    pub fn detach_regions(&mut self) -> (r: Option<u64>)
        ensures
            forall|mem: PhysMap|
                {
                    &&& r == (#[trigger] old(self).with(mem)).bar0
                    &&& final(self).with(mem) == (Xhci { bar0: None, ..old(self).with(mem) })
                },
    {
        self.release_mmio()
    }

    // ---- Interrupt delivery ----------------------------------------------

    fn pin_op(&mut self, op: PinOp)
        ensures
            forall|mem: PhysMap| #[trigger]
                final(self).with(mem) == old(self).with(mem).act(op),
    {
        if self.has_pin {
            self.pin_ops.push(op);
        }
    }

    /// Assert the INTx interrupt to the guest.
    fn assert_interrupt(&mut self)
        ensures
            forall|mem: PhysMap| #[trigger]
                final(self).with(mem) == old(self).with(mem).interrupt(),
    {
        self.state.usbsts = self.state.usbsts | USBSTS_EINT;
        self.state.iman = self.state.iman | IMAN_IP;
        self.pin_op(PinOp::Pulse);
    }

    // ---- Event ring management -------------------------------------------

    /// Write an event TRB to the event ring and optionally assert interrupt.
    fn post_event(&mut self, mem: &mut PhysMap, event: RawTrb)
        requires
            old(mem).wf(),
        ensures
            final(mem).wf(),
            final(self).with(*final(mem)) == old(self).with(*old(mem)).post_event(event),
    {
        if self.state.event_ring_base == 0 || self.state.event_ring_size == 0 {
            return;
        }
        let idx: u32 = self.state.event_ring_enqueue;
        if idx >= self.state.event_ring_size {
            // An out-of-range index would write outside the ring. Reset
            // it and drop the event.
            self.state.event_ring_enqueue = 0;
            return;
        }
        let offset: u64 = idx as u64 * TRB_SIZE as u64;
        let gpa: u64 = match self.state.event_ring_base.checked_add(offset) {
            Some(a) => a,
            None => {
                return;
            },
        };
        let cycle: u32 = if self.state.event_ring_pcs {
            1
        } else {
            0
        };
        let trb = RawTrb { dword3: event.dword3 / 2 * 2 + cycle, ..event };
        let bytes = trb.to_bytes();
        mem.write_bytes(gpa, bytes.as_slice());
        self.state.event_ring_enqueue = idx + 1;
        if self.state.event_ring_enqueue >= self.state.event_ring_size {
            self.state.event_ring_enqueue = 0;
            self.state.event_ring_pcs = !self.state.event_ring_pcs;
        }
        if (self.state.iman & IMAN_IE) != 0 && (self.state.usbcmd & USBCMD_INTE) != 0 {
            self.assert_interrupt();
        }
    }

    /// Post a Command Completion Event.
    fn post_cmd_completion(&mut self, mem: &mut PhysMap, cmd_trb_addr: u64, cc: u32, slot_id: u8)
        requires
            old(mem).wf(),
            cc < 0x100,
        ensures
            final(mem).wf(),
            final(self).with(*final(mem)) == old(self).with(*old(mem)).post_event(
                command_completion(cmd_trb_addr, cc, slot_id),
            ),
    {
        let event = RawTrb {
            dword0: low_dword(cmd_trb_addr),
            dword1: high_dword(cmd_trb_addr),
            dword2: cc * 0x100_0000,
            dword3: TRB_TYPE_CMD_COMPLETION * 0x400 + slot_id as u32 * 0x100_0000,
        };
        self.post_event(mem, event);
    }

    /// Post a Port Status Change Event.
    fn post_port_status_change(&mut self, mem: &mut PhysMap, port_id: u8)
        requires
            old(mem).wf(),
        ensures
            final(mem).wf(),
            final(self).with(*final(mem)) == old(self).with(*old(mem)).post_event(
                port_status_change(port_id),
            ),
    {
        let event = RawTrb {
            dword0: 0,
            dword1: 0,
            dword2: TRB_CC_SUCCESS * 0x100_0000,
            dword3: TRB_TYPE_PORT_STATUS_CHANGE * 0x400 + port_id as u32 * 0x100_0000,
        };
        self.post_event(mem, event);
    }

    /// Post a Transfer Event of slot 1.
    fn post_transfer_event(
        &mut self,
        mem: &mut PhysMap,
        trb_addr: u64,
        cc: u32,
        transfer_len: u32,
        ep_id: u8,
    )
        requires
            old(mem).wf(),
            cc < 0x100,
        ensures
            final(mem).wf(),
            final(self).with(*final(mem)) == old(self).with(*old(mem)).post_event(
                transfer_event(trb_addr, cc, transfer_len, ep_id),
            ),
    {
        let event = RawTrb {
            dword0: low_dword(trb_addr),
            dword1: high_dword(trb_addr),
            dword2: cc * 0x100_0000 + transfer_len % 0x100_0000,
            dword3: TRB_TYPE_TRANSFER_EVENT * 0x400 + 0x100_0000 + ep_id as u32 * 0x1_0000,
        };
        self.post_event(mem, event);
    }

    /// Apply a complete CRCR value.
    ///
    /// The command ring never runs between doorbells in this model, so
    /// CRR is never set and every write lands. A driver that writes the
    /// two halves separately reaches here twice. The last write wins.
    fn write_crcr(&mut self, crcr: u64)
        ensures
            forall|mem: PhysMap| #[trigger]
                final(self).with(mem) == old(self).with(mem).write_crcr(crcr),
    {
        let ptr: u64 = crcr - crcr % 64;
        self.state.crcr = crcr & !CRCR_CRR;
        self.state.cmd_ring_base = ptr;
        self.state.cmd_ring_dequeue = ptr;
        self.state.cmd_ring_ccs = crcr % 2 == 1;
    }

    // ---- Event Ring Segment Table parsing ---------------------------------

    /// Read the ERST and configure the event ring.
    ///
    /// ERST Max advertises one segment, and ERSTSZ is clamped to match,
    /// so entry 0 describes the whole ring.
    fn setup_event_ring(&mut self, mem: &PhysMap)
        requires
            mem.wf(),
        ensures
            final(self).with(*mem) == old(self).with(*mem).setup_event_ring(),
    {
        if self.state.erstba == 0 || self.state.erstsz == 0 {
            return;
        }
        let buf = match mem.read_bytes(self.state.erstba, 16) {
            Some(b) => b,
            None => {
                return;
            },
        };
        let base: u64 = get_le64(buf.as_slice(), 0);
        let size: u32 = get_le32(buf.as_slice(), 8);

        // Cap the ring size so a guest cannot make the enqueue pointer sweep
        // a huge range of guest memory before it wraps.
        if size == 0 || size > MAX_EVENT_RING_SIZE {
            return;
        }
        self.state.event_ring_base = base;
        self.state.event_ring_size = size;
        self.state.event_ring_enqueue = 0;
        self.state.event_ring_pcs = true;
    }

    // ---- Command ring processing -----------------------------------------

    /// Read a TRB from guest memory at the given GPA.
    fn read_trb(&self, mem: &PhysMap, gpa: u64) -> (r: Option<RawTrb>)
        requires
            mem.wf(),
        ensures
            r == self.with(*mem).fetch(gpa),
            r is Some ==> gpa + 16 <= u64::MAX,
    {
        match mem.read_bytes(gpa, TRB_SIZE) {
            Some(buf) => {
                proof {
                    mem.maps_in_range(gpa as int, 16);
                }
                Some(RawTrb::from_bytes(buf.as_slice()))
            },
            None => None,
        }
    }

    /// Process all pending TRBs on the command ring.
    fn process_command_ring(&mut self, mem: &mut PhysMap)
        requires
            old(mem).wf(),
        ensures
            final(mem).wf(),
            final(self).with(*final(mem)) == old(self).with(*old(mem)).process_command_ring(),
    {
        if self.state.cmd_ring_base == 0 {
            return;
        }
        // Bound the work per doorbell so a looping ring cannot hang the vCPU.
        let mut i: u32 = 0;
        while i < COMMANDS_PER_DOORBELL
            invariant
                i <= COMMANDS_PER_DOORBELL,
                mem.wf(),
                self.with(*mem).commands((COMMANDS_PER_DOORBELL - i) as nat) == old(self).with(
                    *old(mem),
                ).process_command_ring(),
            decreases COMMANDS_PER_DOORBELL - i,
        {
            i += 1;
            if !self.take_command(mem) {
                return;
            }
        }
    }

    /// Take one TRB off the command ring. False ends the run.
    fn take_command(&mut self, mem: &mut PhysMap) -> (more: bool)
        requires
            old(mem).wf(),
        ensures
            final(mem).wf(),
            (final(self).with(*final(mem)), more) == old(self).with(*old(mem)).command_step(),
    {
        let trb_addr: u64 = self.state.cmd_ring_dequeue;
        let trb = match self.read_trb(mem, trb_addr) {
            Some(t) => t,
            None => {
                return false;
            },
        };
        // A cycle bit mismatch marks the end of the queued commands.
        if trb.cycle_bit() != self.state.cmd_ring_ccs {
            return false;
        }
        if trb.trb_type() == TRB_TYPE_LINK {
            // Follow the link to the new segment
            let target: u64 = trb.parameter();
            self.state.cmd_ring_dequeue = target - target % 64;
            // Toggle cycle if the Toggle Cycle bit is set
            if trb.dword3 / 2 % 2 == 1 {
                self.state.cmd_ring_ccs = !self.state.cmd_ring_ccs;
            }
        } else {
            self.run_command(mem, trb_addr, trb);
            self.state.cmd_ring_dequeue = trb_addr + TRB_SIZE as u64;
        }
        true
    }

    /// Carry out one command and post its completion.
    fn run_command(&mut self, mem: &mut PhysMap, trb_addr: u64, trb: RawTrb)
        requires
            old(mem).wf(),
        ensures
            final(mem).wf(),
            final(self).with(*final(mem)) == old(self).with(*old(mem)).command(trb_addr, trb),
    {
        let slot_id: u8 = trb.slot_id();
        let trb_type: u32 = trb.trb_type();
        let parameter: u64 = trb.parameter();
        if trb_type == TRB_TYPE_ENABLE_SLOT {
            let (cc, new_slot) = self.state.enable_slot();
            self.post_cmd_completion(mem, trb_addr, cc, new_slot);
        } else if trb_type == TRB_TYPE_ADDRESS_DEVICE {
            if self.state.slot_state == SlotState::Disabled {
                self.post_cmd_completion(mem, trb_addr, TRB_CC_SLOT_NOT_ENABLED, slot_id);
            } else {
                // Read the input context to get EP0 transfer ring
                self.parse_input_context_for_ep0(mem, parameter - parameter % 16);
                self.state.slot_state = SlotState::Addressed;
                self.post_cmd_completion(mem, trb_addr, TRB_CC_SUCCESS, slot_id);
            }
        } else if trb_type == TRB_TYPE_CONFIGURE_EP {
            if self.state.slot_state == SlotState::Disabled {
                self.post_cmd_completion(mem, trb_addr, TRB_CC_SLOT_NOT_ENABLED, slot_id);
            } else {
                // Parse input context for EP1 IN configuration
                self.parse_input_context_for_ep1(mem, parameter - parameter % 16);
                self.state.slot_state = SlotState::Configured;
                self.post_cmd_completion(mem, trb_addr, TRB_CC_SUCCESS, slot_id);
            }
        } else if trb_type == TRB_TYPE_EVALUATE_CTX || trb_type == TRB_TYPE_NOOP_CMD || trb_type
            == TRB_TYPE_RESET_EP {
            self.post_cmd_completion(mem, trb_addr, TRB_CC_SUCCESS, slot_id);
        } else if trb_type == TRB_TYPE_SET_TR_DEQUEUE {
            let ep_id: u32 = trb.dword3 / 0x1_0000 % 0x20;
            let new_deq: u64 = parameter - parameter % 16;
            let new_ccs = parameter % 2 == 1;
            if ep_id == 1 {
                self.state.ep0_ring.dequeue = new_deq;
                self.state.ep0_ring.ccs = new_ccs;
            } else if ep_id == 3 {
                self.state.ep1_in_ring.dequeue = new_deq;
                self.state.ep1_in_ring.ccs = new_ccs;
            }
            self.post_cmd_completion(mem, trb_addr, TRB_CC_SUCCESS, slot_id);
        } else {
            // Unknown command: complete with error
            self.post_cmd_completion(mem, trb_addr, TRB_CC_TRB_ERROR, slot_id);
        }
    }

    /// The transfer ring that the endpoint context at `addr` names.
    fn read_context_ring(&self, mem: &PhysMap, addr: u64) -> (r: Option<TransferRing>)
        requires
            mem.wf(),
        ensures
            r == self.with(*mem).context_ring(addr),
    {
        // EP Context dword 2 (offset 0x08): TR Dequeue Pointer low
        // EP Context dword 3 (offset 0x0C): TR Dequeue Pointer high
        match mem.read_bytes(addr, EP_CTX_SIZE) {
            Some(buf) => {
                let deq: u64 = get_le64(buf.as_slice(), 8);
                let ptr: u64 = deq - deq % 16;
                Some(TransferRing { base: ptr, dequeue: ptr, ccs: deq % 2 == 1 })
            },
            None => None,
        }
    }

    /// Read the EP0 transfer ring dequeue pointer from the Input Context.
    fn parse_input_context_for_ep0(&mut self, mem: &PhysMap, input_ctx_addr: u64)
        requires
            mem.wf(),
        ensures
            ({
                let x = old(self).with(*mem);
                let ring = x.context_ring(offset_by(input_ctx_addr, 64));
                final(self).with(*mem) == x.at_ep0(
                    if ring is Some {
                        ring->0
                    } else {
                        x.st.ep0_ring
                    },
                )
            }),
    {
        // Input Context layout (32-byte contexts):
        //   [0x00..0x1F] Input Control Context
        //   [0x20..0x3F] Slot Context
        //   [0x40..0x5F] EP0 Context (DCI 1)
        let ep0_ctx_addr: u64 = input_ctx_addr.wrapping_add(
            INPUT_CTRL_CTX_SIZE as u64 + SLOT_CTX_SIZE as u64,
        );
        if let Some(ring) = self.read_context_ring(mem, ep0_ctx_addr) {
            self.state.ep0_ring = ring;
        }
    }

    /// Read the EP1 IN transfer ring dequeue pointer from the Input Context.
    fn parse_input_context_for_ep1(&mut self, mem: &PhysMap, input_ctx_addr: u64)
        requires
            mem.wf(),
        ensures
            ({
                let x = old(self).with(*mem);
                let ring = x.context_ring(offset_by(input_ctx_addr, 128));
                final(self).with(*mem) == x.at_ep1(
                    if ring is Some {
                        ring->0
                    } else {
                        x.st.ep1_in_ring
                    },
                )
            }),
    {
        // After the Input Control Context, contexts are indexed by DCI
        // (slot = 0, DCI = 2 * endpoint + direction). EP1 IN is DCI 3, at
        // offset 0x80 even though the tablet has no EP1 OUT.
        let ep1_in_ctx_addr: u64 = input_ctx_addr.wrapping_add(
            INPUT_CTRL_CTX_SIZE as u64 + 3 * EP_CTX_SIZE as u64,
        );
        if let Some(ring) = self.read_context_ring(mem, ep1_in_ctx_addr) {
            self.state.ep1_in_ring = ring;
        }
    }

    // ---- Transfer ring processing ----------------------------------------

    fn place_ep0(&mut self, ring: TransferRing)
        ensures
            forall|mem: PhysMap| #[trigger]
                final(self).with(mem) == old(self).with(mem).at_ep0(ring),
    {
        self.state.ep0_ring = ring;
    }

    fn place_ep1(&mut self, ring: TransferRing)
        ensures
            forall|mem: PhysMap| #[trigger]
                final(self).with(mem) == old(self).with(mem).at_ep1(ring),
    {
        self.state.ep1_in_ring = ring;
    }

    fn set_waiting(&mut self, has_trbs: bool)
        ensures
            forall|mem: PhysMap| #[trigger]
                final(self).with(mem) == old(self).with(mem).waiting(has_trbs),
    {
        self.state.ep1_in_has_trbs = has_trbs;
    }

    /// Process the EP0 (control) transfer ring.
    ///
    /// Handles SETUP/DATA/STATUS stage TRBs for USB control transfers.
    fn process_ep0_transfer_ring(&mut self, mem: &mut PhysMap)
        requires
            old(mem).wf(),
        ensures
            final(mem).wf(),
            final(self).with(*final(mem)) == old(self).with(*old(mem)).ep0(
                EP0_PER_DOORBELL as nat,
            ),
    {
        let mut i: u32 = 0;
        while i < EP0_PER_DOORBELL
            invariant
                i <= EP0_PER_DOORBELL,
                mem.wf(),
                self.with(*mem).ep0((EP0_PER_DOORBELL - i) as nat) == old(self).with(
                    *old(mem),
                ).ep0(EP0_PER_DOORBELL as nat),
            decreases EP0_PER_DOORBELL - i,
        {
            i += 1;
            if !self.take_ep0_trb(mem) {
                return;
            }
        }
    }

    /// Take one TRB off the EP0 ring. False ends the run.
    fn take_ep0_trb(&mut self, mem: &mut PhysMap) -> (more: bool)
        requires
            old(mem).wf(),
        ensures
            final(mem).wf(),
            (final(self).with(*final(mem)), more) == old(self).with(*old(mem)).ep0_step(),
    {
        let ring = self.state.ep0_ring;
        let trb_addr: u64 = ring.dequeue;
        let trb = match self.read_trb(mem, trb_addr) {
            Some(t) => t,
            None => {
                return false;
            },
        };
        if trb.cycle_bit() != ring.ccs {
            return false;
        }
        let trb_type: u32 = trb.trb_type();
        if trb_type == TRB_TYPE_LINK {
            self.place_ep0(ring.linked(trb));
        } else if trb_type == TRB_TYPE_SETUP_STAGE {
            // Parse the 8-byte SETUP packet from the TRB
            let bm_request_type: u8 = (trb.dword0 % 0x100) as u8;
            let b_request: u8 = (trb.dword0 / 0x100 % 0x100) as u8;
            let w_value: u16 = (trb.dword0 / 0x1_0000) as u16;
            let w_index: u16 = (trb.dword1 % 0x1_0000) as u16;
            let w_length: u16 = (trb.dword1 / 0x1_0000) as u16;
            let response = self.tablet.handle_control(
                bm_request_type,
                b_request,
                w_value,
                w_index,
                w_length,
            );
            // Complete the SETUP stage, which is always 8 bytes.
            self.post_transfer_event(mem, trb_addr, TRB_CC_SUCCESS, 8, 1);
            self.place_ep0(ring.advanced());
            self.process_ep0_data_status(mem, &response);
        } else {
            // Skip unexpected TRB types
            self.place_ep0(ring.advanced());
        }
        true
    }

    /// Process DATA and STATUS stage TRBs following a SETUP stage.
    fn process_ep0_data_status(&mut self, mem: &mut PhysMap, response: &Option<Vec<u8>>)
        requires
            old(mem).wf(),
        ensures
            final(mem).wf(),
            final(self).with(*final(mem)) == old(self).with(*old(mem)).stages(
                response_data(*response),
                STAGES_PER_SETUP as nat,
            ),
    {
        let mut i: u32 = 0;
        while i < STAGES_PER_SETUP
            invariant
                i <= STAGES_PER_SETUP,
                mem.wf(),
                self.with(*mem).stages(
                    response_data(*response),
                    (STAGES_PER_SETUP - i) as nat,
                ) == old(self).with(*old(mem)).stages(
                    response_data(*response),
                    STAGES_PER_SETUP as nat,
                ),
            decreases STAGES_PER_SETUP - i,
        {
            i += 1;
            if !self.take_stage(mem, response) {
                return;
            }
        }
    }

    /// Take one TRB behind a SETUP stage. False ends the transfer.
    fn take_stage(&mut self, mem: &mut PhysMap, response: &Option<Vec<u8>>) -> (more: bool)
        requires
            old(mem).wf(),
        ensures
            final(mem).wf(),
            (final(self).with(*final(mem)), more) == old(self).with(*old(mem)).stage_step(
                response_data(*response),
            ),
    {
        let ring = self.state.ep0_ring;
        let trb_addr: u64 = ring.dequeue;
        let trb = match self.read_trb(mem, trb_addr) {
            Some(t) => t,
            None => {
                return false;
            },
        };
        if trb.cycle_bit() != ring.ccs {
            return false;
        }
        let trb_type: u32 = trb.trb_type();
        if trb_type == TRB_TYPE_LINK {
            self.place_ep0(ring.linked(trb));
        } else if trb_type == TRB_TYPE_DATA_STAGE {
            self.run_data_stage(mem, trb_addr, trb, response);
            self.place_ep0(ring.advanced());
        } else if trb_type == TRB_TYPE_STATUS_STAGE {
            let cc: u32 = if response.is_some() {
                TRB_CC_SUCCESS
            } else {
                TRB_CC_STALL
            };
            self.post_transfer_event(mem, trb_addr, cc, 0, 1);
            self.place_ep0(ring.advanced());
            return false;
        } else {
            self.place_ep0(ring.advanced());
        }
        true
    }

    /// One DATA stage.
    fn run_data_stage(
        &mut self,
        mem: &mut PhysMap,
        trb_addr: u64,
        trb: RawTrb,
        response: &Option<Vec<u8>>,
    )
        requires
            old(mem).wf(),
        ensures
            final(mem).wf(),
            final(self).with(*final(mem)) == old(self).with(*old(mem)).data_stage(
                trb_addr,
                trb,
                response_data(*response),
            ),
    {
        let dir_in = trb.dword3 / 0x1_0000 % 2 == 1;
        if !dir_in {
            // OUT data stage. The device accepts the data and ignores it.
            self.post_transfer_event(mem, trb_addr, TRB_CC_SUCCESS, 0, 1);
            return;
        }
        match response {
            // IN data stage: copy response data to guest buffer
            Some(data) => self.deliver(mem, trb_addr, trb, data.as_slice(), 1),
            // STALL
            None => self.post_transfer_event(
                mem,
                trb_addr,
                TRB_CC_STALL,
                trb.transfer_length(),
                1,
            ),
        }
    }

    /// Copy `data` to the TRB's buffer as far as it goes, and post the event.
    fn deliver(
        &mut self,
        mem: &mut PhysMap,
        trb_addr: u64,
        trb: RawTrb,
        data: &[u8],
        ep_id: u8,
    )
        requires
            old(mem).wf(),
        ensures
            final(mem).wf(),
            final(self).with(*final(mem)) == old(self).with(*old(mem)).deliver(
                trb_addr,
                trb,
                data@,
                ep_id,
            ),
    {
        let room: u32 = trb.transfer_length();
        let copy_len: usize = if data.len() <= room as usize {
            data.len()
        } else {
            room as usize
        };
        let part = take_bytes(data, copy_len);
        mem.write_bytes(trb.parameter(), part.as_slice());
        let residual: u32 = room - copy_len as u32;
        let cc: u32 = if copy_len < room as usize {
            TRB_CC_SHORT_PACKET
        } else {
            TRB_CC_SUCCESS
        };
        self.post_transfer_event(mem, trb_addr, cc, residual, ep_id);
    }

    /// Process the EP1 IN (interrupt) transfer ring.
    ///
    /// If the tablet has a pending report and the guest has queued TRBs,
    /// copy the report into the guest buffer and post a transfer event.
    fn process_ep1_in_transfer_ring(&mut self, mem: &mut PhysMap)
        requires
            old(mem).wf(),
        ensures
            final(mem).wf(),
            final(self).with(*final(mem)) == old(self).with(*old(mem)).ep1(),
    {
        if self.state.slot_state != SlotState::Configured {
            return;
        }
        if !self.tablet.has_pending_report() {
            // No data to send. Mark that TRBs are available for later.
            self.state.ep1_in_has_trbs = true;
            return;
        }
        let mut i: u32 = 0;
        while i < EP1_PER_REPORT
            invariant
                i <= EP1_PER_REPORT,
                mem.wf(),
                self.with(*mem).ep1_walk((EP1_PER_REPORT - i) as nat) == old(self).with(
                    *old(mem),
                ).ep1(),
            decreases EP1_PER_REPORT - i,
        {
            i += 1;
            if !self.take_ep1_trb(mem) {
                return;
            }
        }
    }

    /// Look at one TRB of the EP1 IN ring. False ends the walk.
    fn take_ep1_trb(&mut self, mem: &mut PhysMap) -> (more: bool)
        requires
            old(mem).wf(),
        ensures
            final(mem).wf(),
            (final(self).with(*final(mem)), more) == old(self).with(*old(mem)).ep1_step(),
    {
        let ring = self.state.ep1_in_ring;
        let trb_addr: u64 = ring.dequeue;
        let trb = match self.read_trb(mem, trb_addr) {
            Some(t) => t,
            None => {
                self.set_waiting(false);
                return false;
            },
        };
        if trb.cycle_bit() != ring.ccs {
            self.set_waiting(false);
            return false;
        }
        let trb_type: u32 = trb.trb_type();
        if trb_type == TRB_TYPE_LINK {
            self.place_ep1(ring.linked(trb));
        } else if trb_type == TRB_TYPE_NORMAL {
            let report = self.tablet.get_report();
            // EP1 IN = DCI 3
            self.deliver(mem, trb_addr, trb, &report, 3);
            self.place_ep1(ring.advanced());
            self.set_waiting(false);
            return false;
        } else {
            self.place_ep1(ring.advanced());
        }
        true
    }

    /// Deliver a pending tablet report if the guest has queued EP1 IN TRBs.
    pub fn notify_pointer_event(&mut self, mem: &mut PhysMap)
        requires
            old(mem).wf(),
        ensures
            final(mem).wf(),
            final(self).with(*final(mem)) == old(self).with(*old(mem)).notify(),
    {
        if self.state.ep1_in_has_trbs {
            self.process_ep1_in_transfer_ring(mem);
        }
    }

    /// The remote client moved the pointer or changed a button.
    pub fn pointer_event(&mut self, mem: &mut PhysMap, buttons: u8, x: u16, y: u16)
        requires
            old(mem).wf(),
        ensures
            final(mem).wf(),
            final(self).with(*final(mem)) == old(self).with(*old(mem)).pointer(buttons, x, y),
    {
        self.tablet.pointer_event(buttons, x, y);
        self.notify_pointer_event(mem);
    }

    // ---- BAR0 register access -------------------------------------------

    /// Handle a BAR0 MMIO read or write. A read returns the bytes it sees, a
    /// write nothing.
    pub fn bar0_rw(&mut self, mem: &mut PhysMap, offset: usize, rwo: RWOp<'_>) -> (r: Vec<u8>)
        requires
            old(mem).wf(),
        ensures
            final(mem).wf(),
            match rwo {
                RWOp::Read(len) => r@ == bar0_read(old(self).registers(), offset as int, len as nat)
                    && final(self).with(*final(mem)) == old(self).with(*old(mem)),
                RWOp::Write(bytes) => r@.len() == 0 && final(self).with(*final(mem)) == old(
                    self,
                ).with(*old(mem)).write_bar0(offset as int, bytes@),
            },
    {
        if offset < OP_BASE {
            self.cap_reg_rw(offset, rwo)
        } else if offset < DBOFF as usize {
            // Operational + port registers
            self.op_reg_rw(mem, offset - OP_BASE, rwo)
        } else if offset < RTSOFF as usize {
            self.doorbell_rw(mem, offset - DBOFF as usize, rwo)
        } else if offset < XCAP_BASE {
            self.runtime_reg_rw(mem, offset - RTSOFF as usize, rwo)
        } else if offset < BAR0_SIZE as usize {
            // Extended capabilities
            self.xcap_rw(offset - XCAP_BASE, rwo)
        } else {
            // Out of range
            match rwo {
                RWOp::Read(len) => answer_dword(0, len),
                RWOp::Write(_) => Vec::new(),
            }
        }
    }

    /// Handle a read or write of any BAR. Only BAR0 exists.
    pub fn bar_rw(&mut self, mem: &mut PhysMap, bar: u8, offset: usize, rwo: RWOp<'_>) -> (r: Vec<
        u8,
    >)
        requires
            old(mem).wf(),
        ensures
            final(mem).wf(),
            match rwo {
                RWOp::Read(len) => {
                    &&& bar == 0 ==> r@ == bar0_read(
                        old(self).registers(),
                        offset as int,
                        len as nat,
                    )
                    &&& bar != 0 ==> r@ == dword(0, len as nat)
                    &&& final(self).with(*final(mem)) == old(self).with(*old(mem))
                },
                RWOp::Write(bytes) => {
                    let x = old(self).with(*old(mem));
                    &&& r@.len() == 0
                    &&& bar == 0 ==> final(self).with(*final(mem)) == x.write_bar0(
                        offset as int,
                        bytes@,
                    )
                    &&& bar != 0 ==> final(self).with(*final(mem)) == x
                },
            },
    {
        if bar == 0 {
            self.bar0_rw(mem, offset, rwo)
        } else {
            match rwo {
                RWOp::Read(len) => answer_dword(0, len),
                RWOp::Write(_) => Vec::new(),
            }
        }
    }

    // ---- Capability registers (read-only) --------------------------------

    fn cap_reg_rw(&self, offset: usize, rwo: RWOp<'_>) -> (r: Vec<u8>)
        ensures
            match rwo {
                RWOp::Read(len) => r@ == crate::access::dword_at(
                    cap_reg(offset - offset % 4),
                    offset as int,
                    len as nat,
                ),
                RWOp::Write(_) => r@.len() == 0,
            },
    {
        match rwo {
            RWOp::Read(len) => {
                let reg: usize = offset - offset % 4;
                let val: u32 = match reg {
                    // CAPLENGTH (8) | reserved (8) | HCIVERSION (16)
                    0x00 => bits::CAPLENGTH as u32 + 0x1_0000 * bits::HCIVERSION as u32,
                    0x04 => hcsparams1(),
                    0x08 => hcsparams2(),
                    0x0C => HCSPARAMS3,
                    0x10 => hccparams1(),
                    0x14 => DBOFF,
                    0x18 => RTSOFF,
                    0x1C => HCCPARAMS2,
                    _ => 0,
                };
                answer_dword_at(val, offset, len)
            },
            // Capability registers are read-only
            RWOp::Write(_) => Vec::new(),
        }
    }

    // ---- Operational registers -------------------------------------------

    fn op_reg_rw(&mut self, mem: &mut PhysMap, op_off: usize, rwo: RWOp<'_>) -> (r: Vec<u8>)
        requires
            old(mem).wf(),
        ensures
            final(mem).wf(),
            match rwo {
                RWOp::Read(len) => r@ == op_read(old(self).registers(), op_off as int, len as nat)
                    && final(self).with(*final(mem)) == old(self).with(*old(mem)),
                RWOp::Write(bytes) => r@.len() == 0 && final(self).with(*final(mem)) == old(
                    self,
                ).with(*old(mem)).write_op(op_off as int, bytes@),
            },
    {
        if op_off >= PORTSC_BASE {
            return self.port_reg_rw(mem, op_off, rwo);
        }
        let reg: usize = op_off - op_off % 4;
        match rwo {
            RWOp::Read(len) => {
                // AC64 is advertised, so a guest may read a 64-bit
                // register in one access.
                if len == 8 && op_off == OP_CRCR {
                    return answer_qword(self.state.crcr);
                }
                if len == 8 && op_off == OP_DCBAAP {
                    return answer_qword(self.state.dcbaap);
                }
                let val: u32 = match reg {
                    OP_USBCMD => self.state.usbcmd,
                    OP_USBSTS => self.state.usbsts,
                    OP_PAGESIZE => 1,  // 4K pages
                    OP_DNCTRL => self.state.dnctrl,
                    OP_CRCR => low_dword(self.state.crcr),
                    0x1C => high_dword(self.state.crcr),
                    OP_DCBAAP => low_dword(self.state.dcbaap),
                    0x34 => high_dword(self.state.dcbaap),
                    OP_CONFIG => self.state.config,
                    _ => 0,
                };
                answer_dword_at(val, op_off, len)
            },
            RWOp::Write(bytes) => {
                if bytes.len() == 8 {
                    if op_off == OP_CRCR {
                        self.write_crcr(write_value64(bytes));
                    } else if op_off == OP_DCBAAP {
                        self.state.dcbaap = write_value64(bytes);
                    }
                    return Vec::new();
                }
                let val: u32 = write_value32(bytes);
                if reg == OP_USBCMD {
                    self.write_usbcmd(mem, val);
                } else if reg == OP_USBSTS {
                    self.write_usbsts(val);
                } else if reg == OP_DNCTRL {
                    self.state.dnctrl = val;
                } else if reg == OP_CRCR {
                    self.write_crcr(merge_low_dword(self.state.crcr, val));
                } else if reg == OP_CRCR + 4 {
                    self.write_crcr(merge_high_dword(self.state.crcr, val));
                } else if reg == OP_DCBAAP {
                    self.state.dcbaap = merge_low_dword(self.state.dcbaap, val);
                } else if reg == OP_DCBAAP + 4 {
                    self.state.dcbaap = merge_high_dword(self.state.dcbaap, val);
                } else if reg == OP_CONFIG {
                    let slots: u32 = val % 0x100;
                    self.state.config = if slots <= MAX_SLOTS as u32 {
                        slots
                    } else {
                        MAX_SLOTS as u32
                    };
                }
                Vec::new()
            },
        }
    }

    fn write_usbcmd(&mut self, mem: &mut PhysMap, val: u32)
        requires
            old(mem).wf(),
        ensures
            final(mem).wf(),
            final(self).with(*final(mem)) == old(self).with(*old(mem)).write_usbcmd(val),
    {
        let was: u32 = self.state.usbcmd;
        self.state.usbcmd = val;
        // Handle Run/Stop transition
        if (val & USBCMD_RS) != 0 && (was & USBCMD_RS) == 0 {
            // Starting: clear HCHalted
            self.state.usbsts = self.state.usbsts & !USBSTS_HCH;
            // Report the connected USB3 port (port 2).
            self.state.port2_sc = self.state.port2_sc | PORTSC_CSC;
            self.post_port_status_change(mem, 2);
        } else if (val & USBCMD_RS) == 0 && (was & USBCMD_RS) != 0 {
            // Stopping: set HCHalted
            self.state.usbsts = self.state.usbsts | USBSTS_HCH;
        }
        // Handle Host Controller Reset
        if (val & USBCMD_HCRST) != 0 {
            self.state = XhciState {
                dnctrl: self.state.dnctrl,
                port1_sc: self.state.port1_sc,
                port2_sc: self.state.port2_sc,
                ..XhciState::new()
            };
        }
    }

    fn write_usbsts(&mut self, val: u32)
        ensures
            forall|mem: PhysMap| #[trigger]
                final(self).with(mem) == old(self).with(mem).write_usbsts(val),
    {
        // Write-1-to-clear for status bits
        self.state.usbsts = self.state.usbsts & !val;
        // Deassert interrupt if EINT was cleared
        if (val & USBSTS_EINT) != 0 {
            self.pin_op(PinOp::Deassert);
        }
    }

    // ---- Port registers --------------------------------------------------

    fn port_reg_rw(&mut self, mem: &mut PhysMap, op_off: usize, rwo: RWOp<'_>) -> (r: Vec<u8>)
        requires
            old(mem).wf(),
            op_off >= PORTSC_BASE,
        ensures
            final(mem).wf(),
            match rwo {
                RWOp::Read(len) => r@ == op_read(old(self).registers(), op_off as int, len as nat)
                    && final(self).with(*final(mem)) == old(self).with(*old(mem)),
                RWOp::Write(bytes) => r@.len() == 0 && final(self).with(*final(mem)) == old(
                    self,
                ).with(*old(mem)).write_op(op_off as int, bytes@),
            },
    {
        let port_off: usize = op_off - PORTSC_BASE;
        let port_idx: usize = port_off / PORT_REG_SIZE;
        let reg_off: usize = port_off % PORT_REG_SIZE;
        match rwo {
            RWOp::Read(len) => {
                let val: u32 = if reg_off == 0 && port_idx == 0 {
                    self.state.port1_sc
                } else if reg_off == 0 && port_idx == 1 {
                    self.state.port2_sc
                } else {
                    0
                };
                answer_dword_at(val, op_off, len)
            },
            RWOp::Write(bytes) => {
                let val: u32 = write_value32(bytes);
                if reg_off == 0 && port_idx == 0 {
                    let (port, resets) = write_portsc(self.state.port1_sc, val);
                    self.state.port1_sc = port;
                    if resets {
                        self.post_port_status_change(mem, 1);
                    }
                } else if reg_off == 0 && port_idx == 1 {
                    let (port, resets) = write_portsc(self.state.port2_sc, val);
                    self.state.port2_sc = port;
                    if resets {
                        self.post_port_status_change(mem, 2);
                    }
                }
                Vec::new()
            },
        }
    }

    // ---- Doorbell registers ----------------------------------------------

    fn doorbell_rw(&mut self, mem: &mut PhysMap, db_off: usize, rwo: RWOp<'_>) -> (r: Vec<u8>)
        requires
            old(mem).wf(),
        ensures
            final(mem).wf(),
            match rwo {
                RWOp::Read(len) => r@ == dword(0, len as nat)
                    && final(self).with(*final(mem)) == old(self).with(*old(mem)),
                RWOp::Write(bytes) => r@.len() == 0 && final(self).with(*final(mem)) == old(
                    self,
                ).with(*old(mem)).write_doorbell(db_off as int, bytes@),
            },
    {
        match rwo {
            // Doorbell registers read as 0
            RWOp::Read(len) => answer_dword(0, len),
            RWOp::Write(bytes) => {
                let db_idx: usize = db_off / DB_REG_SIZE;
                if db_idx > MAX_SLOTS as usize {
                    return Vec::new();
                }
                let ep_target: u32 = write_value32(bytes) % 0x100;
                if db_idx == 0 {
                    // Doorbell 0: Command ring
                    self.process_command_ring(mem);
                } else if db_idx == 1 {
                    // Doorbell 1: Device slot 1
                    if ep_target == 1 {
                        // DCI 1 = EP0 (control, bidirectional)
                        self.process_ep0_transfer_ring(mem);
                    } else if ep_target == 3 {
                        // DCI 3 = EP1 IN (interrupt)
                        self.process_ep1_in_transfer_ring(mem);
                    }
                }
                Vec::new()
            },
        }
    }

    // ---- Runtime registers -----------------------------------------------

    fn runtime_reg_rw(&mut self, mem: &PhysMap, rt_off: usize, rwo: RWOp<'_>) -> (r: Vec<u8>)
        requires
            mem.wf(),
        ensures
            match rwo {
                RWOp::Read(len) => r@ == runtime_read(
                    old(self).registers(),
                    rt_off as int,
                    len as nat,
                ) && final(self).with(*mem) == old(self).with(*mem),
                RWOp::Write(bytes) => r@.len() == 0 && final(self).with(*mem) == old(self).with(
                    *mem,
                ).write_runtime(rt_off as int, bytes@),
            },
    {
        match rwo {
            RWOp::Read(len) => {
                if rt_off < IR0_BASE {
                    // Microframes are not tracked, so MFINDEX stays 0.
                    return answer_dword_at(0, rt_off, len);
                }
                let ir_off: usize = rt_off - IR0_BASE;
                let reg: usize = ir_off - ir_off % 4;
                // AC64 is advertised, so a guest may read a 64-bit
                // register in one access.
                if len == 8 && ir_off == IR_ERSTBA {
                    return answer_qword(self.state.erstba);
                }
                if len == 8 && ir_off == IR_ERDP {
                    return answer_qword(self.state.erdp);
                }
                let val: u32 = match reg {
                    IR_IMAN => self.state.iman,
                    IR_IMOD => self.state.imod,
                    IR_ERSTSZ => self.state.erstsz,
                    IR_ERSTBA => low_dword(self.state.erstba),
                    0x14 => high_dword(self.state.erstba),
                    IR_ERDP => low_dword(self.state.erdp),
                    0x1C => high_dword(self.state.erdp),
                    _ => 0,
                };
                answer_dword_at(val, rt_off, len)
            },
            RWOp::Write(bytes) => {
                if rt_off < IR0_BASE {
                    // MFINDEX is read-only
                    return Vec::new();
                }
                let ir_off: usize = rt_off - IR0_BASE;
                let reg: usize = ir_off - ir_off % 4;
                if bytes.len() == 8 {
                    if ir_off == IR_ERSTBA {
                        self.write_erstba(mem, write_value64(bytes));
                    } else if ir_off == IR_ERDP {
                        self.write_erdp(write_value64(bytes));
                    }
                    return Vec::new();
                }
                let val: u32 = write_value32(bytes);
                if reg == IR_IMAN {
                    self.write_iman(val);
                } else if reg == IR_IMOD {
                    self.state.imod = val;
                } else if reg == IR_ERSTSZ {
                    // ERST Max advertises one segment, so only the
                    // first entry can ever be valid.
                    self.state.erstsz = if val % 0x1_0000 == 0 {
                        0
                    } else {
                        1
                    };
                } else if reg == IR_ERSTBA {
                    self.write_erstba(mem, merge_low_dword(self.state.erstba, val));
                } else if reg == IR_ERSTBA + 4 {
                    self.write_erstba(mem, merge_high_dword(self.state.erstba, val));
                } else if reg == IR_ERDP {
                    self.write_erdp(merge_low_dword(self.state.erdp, val));
                } else if reg == IR_ERDP + 4 {
                    self.write_erdp(merge_high_dword(self.state.erdp, val));
                }
                Vec::new()
            },
        }
    }

    fn write_erstba(&mut self, mem: &PhysMap, val: u64)
        requires
            mem.wf(),
        ensures
            final(self).with(*mem) == old(self).with(*mem).write_erstba(val),
    {
        self.state.erstba = val - val % 64;
        self.setup_event_ring(mem);
    }

    fn write_erdp(&mut self, val: u64)
        ensures
            forall|mem: PhysMap| #[trigger]
                final(self).with(mem) == old(self).with(mem).write_erdp(val),
    {
        self.state.erdp = val - val % 16;
    }

    fn write_iman(&mut self, val: u32)
        ensures
            forall|mem: PhysMap| #[trigger]
                final(self).with(mem) == old(self).with(mem).write_iman(val),
    {
        // IP is write-1-to-clear. IE is read/write.
        if (val & IMAN_IP) != 0 {
            self.state.iman = self.state.iman & !IMAN_IP;
        }
        if (val & IMAN_IE) != 0 {
            self.state.iman = self.state.iman | IMAN_IE;
        } else {
            self.state.iman = self.state.iman & !IMAN_IE;
        }
    }

    // ---- Extended capabilities -------------------------------------------

    fn xcap_rw(&self, xcap_off: usize, rwo: RWOp<'_>) -> (r: Vec<u8>)
        ensures
            match rwo {
                RWOp::Read(len) => r@ == crate::access::dword_at(
                    xcap_reg(xcap_off as int),
                    xcap_off as int,
                    len as nat,
                ),
                RWOp::Write(_) => r@.len() == 0,
            },
    {
        match rwo {
            RWOp::Read(len) => {
                let val: u32 = if xcap_off < XCAP_PROTO_SIZE {
                    // USB2 Supported Protocol
                    let usb2 = xcap_usb2();
                    usb2[xcap_off / 4]
                } else if xcap_off < 2 * XCAP_PROTO_SIZE {
                    // USB3 Supported Protocol
                    let usb3 = xcap_usb3();
                    usb3[(xcap_off - XCAP_PROTO_SIZE) / 4]
                } else {
                    0
                };
                answer_dword_at(val, xcap_off, len)
            },
            // Extended capabilities are read-only
            RWOp::Write(_) => Vec::new(),
        }
    }
}

/// A port register after a write, and whether the write reset the port.
fn write_portsc(port: u32, val: u32) -> (r: (u32, bool))
    ensures
        r.0 == port_written(port, val),
        r.1 == port_resets(port, val),
{
    // Write-1-to-clear for change bits
    let mut portsc: u32 = port & !(val & PORTSC_CHANGE_BITS);
    let resets = (val & PORTSC_PR) != 0 && (portsc & PORTSC_CCS) != 0;
    if resets {
        // Complete reset immediately, with the link in U0.
        portsc = (portsc | PORTSC_RESET_DONE) & !PORTSC_PR & !PORTSC_PLS_FIELD;
    }
    // Handle port link state write
    if (val & PORTSC_LWS) != 0 {
        portsc = (portsc & !PORTSC_PLS_FIELD) | (val / 0x20 % 0x10 * 0x20);
    }
    (portsc, resets)
}

/// The bytes of a control response.
pub open spec fn response_data(response: Option<Vec<u8>>) -> Option<Seq<u8>> {
    match response {
        Some(data) => Some(data@),
        None => None,
    }
}

} // verus!
