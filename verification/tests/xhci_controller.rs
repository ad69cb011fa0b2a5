//! The USB controller, driven as a guest drives it.

use vmm::access::RWOp;
use vmm::mem::PhysMap;
use vmm::pci::write_moves_bar;
use vmm::xhci::tablet::DEVICE_DESC;
use vmm::xhci::XhciController;
use vmm::xhci::model::{SlotState, TransferRing, XhciState};
use vmm::xhci::bits::{
    hccparams1, hcsparams1, hcsparams2, xcap_usb2, xcap_usb3, RawTrb, BAR0_SIZE, CAPLENGTH,
    CRCR_PTR_MASK, CRCR_RCS, DBOFF, DB_REG_SIZE, HCIVERSION, IR0_BASE, IR_ERDP, IR_ERSTBA,
    IR_ERSTSZ, IR_IMAN, MAX_SLOTS, OP_BASE, OP_CONFIG, OP_CRCR, OP_DCBAAP, OP_USBCMD, PORTSC_CCS,
    PORTSC_CSC, PORTSC_PP, PORTSC_SPEED_MASK, PORTSC_SPEED_SHIFT, RTSOFF, SPEED_SUPER,
    TRB_CC_NO_SLOTS_AVAILABLE, TRB_CC_SHORT_PACKET, TRB_CC_STALL, TRB_CC_SUCCESS, TRB_CYCLE,
    TRB_DATA_DIR_IN, TRB_TYPE_ADDRESS_DEVICE, TRB_TYPE_CMD_COMPLETION, TRB_TYPE_CONFIGURE_EP,
    TRB_TYPE_DATA_STAGE, TRB_TYPE_ENABLE_SLOT, TRB_TYPE_NOOP_CMD, TRB_TYPE_NORMAL,
    TRB_TYPE_PORT_STATUS_CHANGE, TRB_TYPE_SETUP_STAGE, TRB_TYPE_SHIFT, TRB_TYPE_STATUS_STAGE,
    TRB_TYPE_TRANSFER_EVENT, USBCMD_HCRST, USBCMD_INTE, USBCMD_RS, USBSTS_HCH,
};

fn test_state() -> XhciState {
    XhciState::new()
}

/// A controller and the memory of its guest.
struct Rig {
    ctrl: XhciController,
    mem: PhysMap,
}

fn test_controller() -> Rig {
    Rig { ctrl: XhciController::new(false), mem: PhysMap::new() }
}

const RAM_LEN: usize = 0x10_000;

/// A controller over real guest memory, so the ring walks reach something.
fn test_controller_with_ram() -> Rig {
    let mem = PhysMap::new_anon(0, RAM_LEN).expect("anonymous guest memory");
    Rig { ctrl: XhciController::new(false), mem }
}

fn write_ram(rig: &mut Rig, gpa: u64, bytes: &[u8]) {
    assert!(rig.mem.write_bytes(gpa, bytes), "guest memory at gpa");
}

/// One ERST entry: `base` and `size` TRBs.
fn write_erst_entry(rig: &mut Rig, gpa: u64, base: u64, size: u32) {
    let mut entry = [0u8; 16];
    entry[..8].copy_from_slice(&base.to_le_bytes());
    entry[8..12].copy_from_slice(&size.to_le_bytes());
    write_ram(rig, gpa, &entry);
}

fn write_reg(rig: &mut Rig, off: usize, bytes: &[u8]) {
    rig.ctrl.bar0_rw(&mut rig.mem, off, RWOp::Write(bytes));
}

fn read_reg(rig: &mut Rig, off: usize, len: usize) -> u64 {
    let got = rig.ctrl.bar0_rw(&mut rig.mem, off, RWOp::Read(len));
    let mut buf = [0u8; 8];
    buf[..len].copy_from_slice(&got);
    u64::from_le_bytes(buf)
}

const ERSTBA_OFF: usize = RTSOFF as usize + IR0_BASE + IR_ERSTBA;
const ERSTSZ_OFF: usize = RTSOFF as usize + IR0_BASE + IR_ERSTSZ;
const ERDP_OFF: usize = RTSOFF as usize + IR0_BASE + IR_ERDP;

#[test]
fn a_qword_erstba_write_sets_up_the_event_ring() {
    // The illumos xhci driver writes ERSTBA with one ddi_put64, so
    // a device that only latches the high dword never gets a ring.
    let mut ctrl = test_controller_with_ram();
    write_erst_entry(&mut ctrl, 0x2000, 0x3000, 16);
    write_reg(&mut ctrl, ERSTSZ_OFF, &1u32.to_le_bytes());
    write_reg(&mut ctrl, ERSTBA_OFF, &0x2000u64.to_le_bytes());

    let st = ctrl.ctrl.state();
    assert_eq!(st.erstba, 0x2000);
    assert_eq!(st.event_ring_base, 0x3000);
    assert_eq!(st.event_ring_size, 16);
}

#[test]
fn split_dword_erstba_writes_still_set_up_the_event_ring() {
    // Linux writes the low half first. Both orders must end with a
    // configured ring.
    for high_first in [false, true] {
        let mut ctrl = test_controller_with_ram();
        write_erst_entry(&mut ctrl, 0x2000, 0x3000, 16);
        write_reg(&mut ctrl, ERSTSZ_OFF, &1u32.to_le_bytes());
        let halves: [(usize, u32); 2] =
            [(ERSTBA_OFF, 0x2000), (ERSTBA_OFF + 4, 0)];
        let order = if high_first { [1, 0] } else { [0, 1] };
        for i in order {
            write_reg(&mut ctrl, halves[i].0, &halves[i].1.to_le_bytes());
        }

        let st = ctrl.ctrl.state();
        assert_eq!(st.event_ring_base, 0x3000, "high_first={high_first}");
        assert_eq!(st.event_ring_size, 16, "high_first={high_first}");
    }
}

#[test]
fn qword_writes_keep_the_upper_dword_of_every_64_bit_register() {
    let mut ctrl = test_controller_with_ram();
    let crcr = 0x0000_0001_2345_6740u64;
    let dcbaap = 0x0000_0002_3456_7800u64;
    let erdp = 0x0000_0003_4567_8900u64;
    write_reg(&mut ctrl, OP_BASE + OP_CRCR, &(crcr | CRCR_RCS).to_le_bytes());
    write_reg(&mut ctrl, OP_BASE + OP_DCBAAP, &dcbaap.to_le_bytes());
    write_reg(&mut ctrl, ERDP_OFF, &erdp.to_le_bytes());

    let st = ctrl.ctrl.state();
    assert_eq!(st.cmd_ring_base, crcr);
    assert_eq!(st.cmd_ring_dequeue, crcr);
    assert!(st.cmd_ring_ccs);
    assert_eq!(st.dcbaap, dcbaap);
    assert_eq!(st.erdp, erdp);
}

#[test]
fn qword_reads_answer_with_all_eight_bytes() {
    let mut ctrl = test_controller_with_ram();
    let dcbaap = 0x0000_0002_3456_7800u64;
    write_reg(&mut ctrl, OP_BASE + OP_DCBAAP, &dcbaap.to_le_bytes());
    assert_eq!(read_reg(&mut ctrl, OP_BASE + OP_DCBAAP, 8), dcbaap);

    write_erst_entry(&mut ctrl, 0x2000, 0x3000, 16);
    write_reg(&mut ctrl, ERSTSZ_OFF, &1u32.to_le_bytes());
    write_reg(&mut ctrl, ERSTBA_OFF, &0x2000u64.to_le_bytes());
    assert_eq!(read_reg(&mut ctrl, ERSTBA_OFF, 8), 0x2000);
}

#[test]
fn halves_in_either_order_read_back_as_one_write() {
    let val = 0x1234_5678_9ABC_DEFFu64;
    let registers = [
        (OP_BASE + OP_CRCR, val & !0x8),
        (OP_BASE + OP_DCBAAP, val),
        (ERSTBA_OFF, val & !0x3F),
        (ERDP_OFF, val & !0xF),
    ];
    for (off, expected) in registers {
        for way in 0..3 {
            let mut ctrl = test_controller_with_ram();
            // Whatever stood there before has to go.
            write_reg(&mut ctrl, off, &u64::MAX.to_le_bytes());
            let bytes = val.to_le_bytes();
            match way {
                0 => write_reg(&mut ctrl, off, &bytes),
                1 => {
                    write_reg(&mut ctrl, off, &bytes[..4]);
                    write_reg(&mut ctrl, off + 4, &bytes[4..]);
                }
                _ => {
                    write_reg(&mut ctrl, off + 4, &bytes[4..]);
                    write_reg(&mut ctrl, off, &bytes[..4]);
                }
            }
            assert_eq!(read_reg(&mut ctrl, off, 8), expected, "{off:#x} way {way}");
            assert_eq!(read_reg(&mut ctrl, off, 4), expected & 0xFFFF_FFFF);
            assert_eq!(read_reg(&mut ctrl, off + 4, 4), expected >> 32);
        }
    }
}

#[test]
fn a_segment_table_size_reads_back_clamped() {
    let mut ctrl = test_controller();
    for (n, size) in [(0u32, 0), (1, 1), (7, 1), (0xFFFF, 1), (0x1_0000, 0), (0x1_0001, 1)] {
        write_reg(&mut ctrl, ERSTSZ_OFF, &n.to_le_bytes());
        assert_eq!(read_reg(&mut ctrl, ERSTSZ_OFF, 4), size, "{n:#x}");
    }
    // Below the interrupter nothing is written.
    write_reg(&mut ctrl, RTSOFF as usize + 0x8, &5u32.to_le_bytes());
    assert_eq!(read_reg(&mut ctrl, RTSOFF as usize + 0x8, 4), 0);
    assert_eq!(read_reg(&mut ctrl, ERSTSZ_OFF, 4), 1);
}

#[test]
fn erstsz_is_clamped_to_the_one_segment_we_advertise() {
    // Only ERST entry 0 is read, so a larger table would lose every
    // event posted into the segments the controller never walks.
    assert_eq!((hcsparams2() >> 4) & 0xF, 0, "ERST Max = 2^0 = 1");

    let mut ctrl = test_controller_with_ram();
    write_reg(&mut ctrl, ERSTSZ_OFF, &0xFFFFu32.to_le_bytes());
    assert_eq!(ctrl.ctrl.state().erstsz, 1);
}

#[test]
fn initial_state_is_halted() {
    let st = test_state();
    assert_ne!(st.usbsts & USBSTS_HCH, 0);
    assert_eq!(st.usbcmd & USBCMD_RS, 0);
}

#[test]
fn slot_starts_disabled() {
    let st = test_state();
    assert_eq!(st.slot_state, SlotState::Disabled);
}

#[test]
fn enable_slot_twice_reports_no_slots() {
    let mut st = test_state();
    assert_eq!(st.enable_slot(), (TRB_CC_SUCCESS, 1));
    assert_eq!(st.enable_slot(), (TRB_CC_NO_SLOTS_AVAILABLE, 0));
}

#[test]
fn port2_connected_at_superspeed() {
    let st = test_state();
    assert_ne!(st.port2_sc & PORTSC_CCS, 0);
    let speed = (st.port2_sc >> PORTSC_SPEED_SHIFT) & PORTSC_SPEED_MASK;
    assert_eq!(speed, SPEED_SUPER);
}

#[test]
fn port1_not_connected() {
    let st = test_state();
    assert_eq!(st.port1_sc & PORTSC_CCS, 0);
}

#[test]
fn cap_caplength_hciversion() {
    let val = u32::from(CAPLENGTH) | (u32::from(HCIVERSION) << 16);
    assert_eq!(val & 0xFF, 0x20);
    assert_eq!((val >> 16) & 0xFFFF, 0x0100);
}

#[test]
fn cap_hcsparams1() {
    let val = hcsparams1();
    assert_eq!(val & 0xFF, 64);
    assert_eq!((val >> 8) & 0x3FF, 1);
    assert_eq!((val >> 24) & 0xFF, 2);
}

#[test]
fn cap_hccparams1_ac64() {
    let val = hccparams1();
    assert_ne!(val & 1, 0);
}

#[test]
fn cap_dboff_rtsoff() {
    assert_eq!(DBOFF, 0x440);
    assert_eq!(RTSOFF, 0x560);
}

#[test]
fn config_max_slots_is_clamped() {
    let mut ctrl = test_controller();
    write_reg(&mut ctrl, OP_BASE + OP_CONFIG, &u32::MAX.to_le_bytes());

    let st = ctrl.ctrl.state();
    assert_eq!(st.config, u32::from(MAX_SLOTS));
}

#[test]
fn doorbell_beyond_max_slots_is_ignored() {
    let mut ctrl = test_controller();
    let original_erstba: u64 = 0x1122_3344_5566_7780;
    write_reg(&mut ctrl, ERSTBA_OFF, &original_erstba.to_le_bytes());
    assert_eq!(ctrl.ctrl.state().erstba, original_erstba);

    write_reg(&mut ctrl, DBOFF as usize + 20 * DB_REG_SIZE, &20u32.to_le_bytes());
    assert_eq!(ctrl.ctrl.state().erstba, original_erstba);

    write_reg(&mut ctrl, DBOFF as usize + 28 * DB_REG_SIZE, &28u32.to_le_bytes());
    assert_eq!(ctrl.ctrl.state().erstba, original_erstba);

    let beyond_max = usize::from(MAX_SLOTS) + 1;
    write_reg(
        &mut ctrl,
        DBOFF as usize + beyond_max * DB_REG_SIZE,
        &(beyond_max as u32).to_le_bytes(),
    );
    assert_eq!(ctrl.ctrl.state().erstba, original_erstba);
}

#[test]
fn trb_type_values() {
    assert_eq!(TRB_TYPE_ENABLE_SLOT, 9);
    assert_eq!(TRB_TYPE_ADDRESS_DEVICE, 11);
    assert_eq!(TRB_TYPE_CONFIGURE_EP, 12);
    assert_eq!(TRB_TYPE_NOOP_CMD, 23);
    assert_eq!(TRB_TYPE_CMD_COMPLETION, 33);
    assert_eq!(TRB_TYPE_PORT_STATUS_CHANGE, 34);
}

#[test]
fn raw_trb_parsing() {
    let trb = RawTrb {
        dword0: 0x1000,
        dword1: 0,
        dword2: (TRB_CC_SUCCESS << 24) | 64,
        dword3: (TRB_TYPE_TRANSFER_EVENT << TRB_TYPE_SHIFT)
            | (1u32 << 24)
            | TRB_CYCLE,
    };
    assert_eq!(trb.trb_type(), TRB_TYPE_TRANSFER_EVENT);
    assert!(trb.cycle_bit());
    assert_eq!(trb.slot_id(), 1);
    assert_eq!(trb.parameter(), 0x1000);
    assert_eq!(trb.completion_code(), TRB_CC_SUCCESS);
    assert_eq!(trb.transfer_length(), 64);
}

#[test]
fn event_ring_pcs_toggles_on_wrap() {
    let mut st = test_state();
    st.event_ring_base = 0x1000;
    st.event_ring_size = 2;
    st.event_ring_pcs = true;

    st.event_ring_enqueue = 1;
    st.event_ring_enqueue += 1;
    if st.event_ring_enqueue >= st.event_ring_size {
        st.event_ring_enqueue = 0;
        st.event_ring_pcs = !st.event_ring_pcs;
    }
    assert_eq!(st.event_ring_enqueue, 0);
    assert!(!st.event_ring_pcs);
}

#[test]
fn transfer_ring_initial_state() {
    let ring = TransferRing::new();
    assert_eq!(ring.base, 0);
    assert_eq!(ring.dequeue, 0);
    assert!(ring.ccs);
}

#[test]
fn xcap_usb2_cap_id() {
    let cap = xcap_usb2();
    assert_eq!(cap[0] & 0xFF, 2);
}

#[test]
fn xcap_usb3_is_last() {
    let cap = xcap_usb3();
    assert_eq!((cap[0] >> 8) & 0xFF, 0);
}

#[test]
fn crcr_ptr_mask() {
    let addr: u64 = 0x0000_1234_5678_9ABC;
    let masked = addr & CRCR_PTR_MASK;
    assert_eq!(masked & 0x3F, 0);
    assert_eq!(masked, 0x0000_1234_5678_9A80);
}

#[test]
fn bar0_size_is_8k() {
    assert_eq!(BAR0_SIZE, 0x2000);
    assert!(BAR0_SIZE.is_power_of_two());
}

#[test]
fn portsc_change_bits_are_w1c() {
    let mut portsc: u32 = PORTSC_CCS | PORTSC_PP | PORTSC_CSC;
    portsc &= !(PORTSC_CSC);
    assert_eq!(portsc & PORTSC_CSC, 0);
    assert_ne!(portsc & PORTSC_CCS, 0);
    assert_ne!(portsc & PORTSC_PP, 0);
}

/// The four dwords of a transfer block as the guest stores them.
fn trb(dword0: u32, dword1: u32, dword2: u32, dword3: u32) -> Vec<u8> {
    RawTrb { dword0, dword1, dword2, dword3 }.to_bytes()
}

/// A running controller with a command ring at 0x1000 and an event ring of
/// 16 blocks at 0x3000.
fn running(has_pin: bool) -> Rig {
    let mem = PhysMap::new_anon(0, RAM_LEN).expect("anonymous guest memory");
    let mut rig = Rig { ctrl: XhciController::new(has_pin), mem };
    write_erst_entry(&mut rig, 0x2000, 0x3000, 16);
    write_reg(&mut rig, ERSTSZ_OFF, &1u32.to_le_bytes());
    write_reg(&mut rig, ERSTBA_OFF, &0x2000u64.to_le_bytes());
    write_reg(&mut rig, OP_BASE + OP_DCBAAP, &0x4000u64.to_le_bytes());
    write_reg(&mut rig, OP_BASE + OP_CRCR, &(0x1000u64 | CRCR_RCS).to_le_bytes());
    write_reg(&mut rig, RTSOFF as usize + IR0_BASE + IR_IMAN, &2u32.to_le_bytes());
    write_reg(&mut rig, OP_BASE + OP_USBCMD, &(USBCMD_RS | USBCMD_INTE).to_le_bytes());
    rig
}

fn event(rig: &Rig, n: u64) -> RawTrb {
    let bytes = rig.mem.read_bytes(0x3000 + 16 * n, 16).expect("event ring");
    RawTrb::from_bytes(&bytes)
}

/// Every event block that the controller has handed over on its first lap.
fn events(rig: &Rig) -> Vec<RawTrb> {
    let mut out = Vec::new();
    for n in 0..16 {
        let e = event(rig, n);
        if !e.cycle_bit() {
            return out;
        }
        out.push(e);
    }
    out
}

#[test]
fn a_command_is_answered_in_the_event_ring() {
    let mut rig = running(true);
    let seen = events(&rig).len();
    rig.ctrl.take_pin_ops();
    let enable = trb(0, 0, 0, (TRB_TYPE_ENABLE_SLOT << TRB_TYPE_SHIFT) | TRB_CYCLE);
    write_ram(&mut rig, 0x1000, &enable);
    write_reg(&mut rig, DBOFF as usize, &0u32.to_le_bytes());

    let all = events(&rig);
    assert_eq!(all.len(), seen + 1);
    let done = all[seen];
    assert_eq!(done.trb_type(), TRB_TYPE_CMD_COMPLETION);
    assert_eq!(done.completion_code(), TRB_CC_SUCCESS);
    assert_eq!(done.slot_id(), 1);
    assert_eq!(done.parameter(), 0x1000);
    assert_eq!(rig.ctrl.state().slot_state, SlotState::Enabled);
    assert!(!rig.ctrl.take_pin_ops().is_empty(), "the guest was not told");
}

#[test]
fn a_command_past_the_cycle_is_left_alone() {
    let mut rig = running(false);
    let seen = events(&rig).len();
    write_ram(&mut rig, 0x1000, &trb(0, 0, 0, TRB_TYPE_ENABLE_SLOT << TRB_TYPE_SHIFT));
    write_reg(&mut rig, DBOFF as usize, &0u32.to_le_bytes());
    assert_eq!(events(&rig).len(), seen);
    assert_eq!(rig.ctrl.state().slot_state, SlotState::Disabled);
}

#[test]
fn a_second_slot_is_refused_in_the_event_ring() {
    let mut rig = running(false);
    let enable = trb(0, 0, 0, (TRB_TYPE_ENABLE_SLOT << TRB_TYPE_SHIFT) | TRB_CYCLE);
    write_ram(&mut rig, 0x1000, &enable);
    write_ram(&mut rig, 0x1010, &enable);
    let seen = events(&rig).len();
    write_reg(&mut rig, DBOFF as usize, &0u32.to_le_bytes());
    let all = events(&rig);
    assert_eq!(all.len(), seen + 2);
    assert_eq!(all[seen + 1].completion_code(), TRB_CC_NO_SLOTS_AVAILABLE);
    assert_eq!(all[seen + 1].slot_id(), 0);
}

#[test]
fn no_pin_moves_without_a_pin() {
    let mut rig = running(false);
    write_ram(&mut rig, 0x1000, &trb(0, 0, 0, (TRB_TYPE_NOOP_CMD << TRB_TYPE_SHIFT) | TRB_CYCLE));
    write_reg(&mut rig, DBOFF as usize, &0u32.to_le_bytes());
    assert!(rig.ctrl.take_pin_ops().is_empty());
}

#[test]
fn a_reset_gives_the_power_on_state() {
    let mut rig = running(false);
    let enable = trb(0, 0, 0, (TRB_TYPE_ENABLE_SLOT << TRB_TYPE_SHIFT) | TRB_CYCLE);
    write_ram(&mut rig, 0x1000, &enable);
    write_reg(&mut rig, DBOFF as usize, &0u32.to_le_bytes());
    assert_eq!(rig.ctrl.state().slot_state, SlotState::Enabled);
    write_reg(&mut rig, OP_BASE + OP_USBCMD, &USBCMD_HCRST.to_le_bytes());
    let st = rig.ctrl.state();
    assert_eq!(st.slot_state, SlotState::Disabled);
    assert_eq!(st.dcbaap, 0);
    assert_ne!(st.usbsts & USBSTS_HCH, 0);
    assert_eq!(read_reg(&mut rig, OP_BASE + OP_USBCMD, 4), 0);
}

#[test]
fn a_write_past_the_bar_does_nothing() {
    let mut rig = test_controller_with_ram();
    let before = rig.ctrl.state();
    write_reg(&mut rig, BAR0_SIZE as usize, &u32::MAX.to_le_bytes());
    assert_eq!(rig.ctrl.state(), before);
    assert_eq!(read_reg(&mut rig, BAR0_SIZE as usize, 4), 0);
}

#[test]
fn the_bar_follows_its_decoder() {
    let mut ctrl = XhciController::new(false);
    let up = ctrl.update_mmio_registration(true, Some(0xC000_0000));
    assert_eq!((up.unregister, up.register), (None, Some(0xC000_0000)));
    ctrl.mmio_registered(0xC000_0000);
    let moved = ctrl.update_mmio_registration(true, Some(0xC100_0000));
    assert_eq!((moved.unregister, moved.register), (Some(0xC000_0000), Some(0xC100_0000)));
    ctrl.mmio_registered(0xC100_0000);
    assert_eq!(ctrl.detach_regions(), Some(0xC100_0000));
    assert_eq!(ctrl.detach_regions(), None);
}

/// Enable the slot, and place both of its transfer rings.
fn configured() -> Rig {
    let mut rig = running(false);
    let command = |kind: u32, param: u32| {
        trb(param, 0, 0, (kind << TRB_TYPE_SHIFT) | (1 << 24) | TRB_CYCLE)
    };
    write_ram(&mut rig, 0x1000, &command(TRB_TYPE_ENABLE_SLOT, 0));
    write_ram(&mut rig, 0x1010, &command(TRB_TYPE_ADDRESS_DEVICE, 0x5000));
    write_ram(&mut rig, 0x1020, &command(TRB_TYPE_CONFIGURE_EP, 0x5000));
    // The dequeue pointers of EP0 and EP1 IN, each with its cycle state.
    write_ram(&mut rig, 0x5040 + 8, &0x6001u64.to_le_bytes());
    write_ram(&mut rig, 0x5080 + 8, &0x7001u64.to_le_bytes());
    write_reg(&mut rig, DBOFF as usize, &0u32.to_le_bytes());
    let st = rig.ctrl.state();
    assert_eq!(st.slot_state, SlotState::Configured);
    assert_eq!((st.ep0_ring.dequeue, st.ep0_ring.ccs), (0x6000, true));
    assert_eq!((st.ep1_in_ring.dequeue, st.ep1_in_ring.ccs), (0x7000, true));
    rig
}

#[test]
fn a_descriptor_reaches_guest_memory() {
    let mut rig = configured();
    let seen = events(&rig).len();
    let stage = |kind: u32, flags: u32| (kind << TRB_TYPE_SHIFT) | flags | TRB_CYCLE;
    // GET_DESCRIPTOR of the device, 18 bytes.
    write_ram(
        &mut rig,
        0x6000,
        &trb(0x0100_0680, 18 << 16, 8, stage(TRB_TYPE_SETUP_STAGE, 0)),
    );
    write_ram(
        &mut rig,
        0x6010,
        &trb(0x8000, 0, 18, stage(TRB_TYPE_DATA_STAGE, TRB_DATA_DIR_IN)),
    );
    write_ram(&mut rig, 0x6020, &trb(0, 0, 0, stage(TRB_TYPE_STATUS_STAGE, 0)));
    write_reg(&mut rig, DBOFF as usize + DB_REG_SIZE, &1u32.to_le_bytes());

    assert_eq!(rig.mem.read_bytes(0x8000, 18), Some(DEVICE_DESC.to_vec()));
    let codes: Vec<(u32, u64)> =
        events(&rig)[seen..].iter().map(|e| (e.completion_code(), e.parameter())).collect();
    assert_eq!(
        codes,
        [(TRB_CC_SUCCESS, 0x6000), (TRB_CC_SUCCESS, 0x6010), (TRB_CC_SUCCESS, 0x6020)]
    );
    assert_eq!(rig.ctrl.state().ep0_ring.dequeue, 0x6030);
}

#[test]
fn a_request_the_tablet_does_not_know_stalls() {
    let mut rig = configured();
    let seen = events(&rig).len();
    let stage = |kind: u32, flags: u32| (kind << TRB_TYPE_SHIFT) | flags | TRB_CYCLE;
    write_ram(&mut rig, 0x6000, &trb(0xFF80, 4 << 16, 8, stage(TRB_TYPE_SETUP_STAGE, 0)));
    write_ram(
        &mut rig,
        0x6010,
        &trb(0x8000, 0, 4, stage(TRB_TYPE_DATA_STAGE, TRB_DATA_DIR_IN)),
    );
    write_ram(&mut rig, 0x6020, &trb(0, 0, 0, stage(TRB_TYPE_STATUS_STAGE, 0)));
    write_reg(&mut rig, DBOFF as usize + DB_REG_SIZE, &1u32.to_le_bytes());
    let codes: Vec<u32> = events(&rig)[seen..].iter().map(|e| e.completion_code()).collect();
    assert_eq!(codes, [TRB_CC_SUCCESS, TRB_CC_STALL, TRB_CC_STALL]);
}

#[test]
fn a_pointer_event_reaches_the_guest() {
    let mut rig = configured();
    write_ram(
        &mut rig,
        0x7000,
        &trb(0x9000, 0, 8, (TRB_TYPE_NORMAL << TRB_TYPE_SHIFT) | TRB_CYCLE),
    );
    write_reg(&mut rig, DBOFF as usize + DB_REG_SIZE, &3u32.to_le_bytes());
    assert!(rig.ctrl.state().ep1_in_has_trbs, "the endpoint waits for a report");
    let seen = events(&rig).len();

    rig.ctrl.pointer_event(&mut rig.mem, 0x01, 0x1234, 0x0567);

    assert_eq!(
        rig.mem.read_bytes(0x9000, 6),
        Some(vec![0x01, 0x34, 0x12, 0x67, 0x05, 0x00])
    );
    let last = events(&rig)[seen];
    assert_eq!(last.trb_type(), TRB_TYPE_TRANSFER_EVENT);
    // Two of the eight bytes were not filled.
    assert_eq!(last.completion_code(), TRB_CC_SHORT_PACKET);
    assert_eq!(last.transfer_length(), 2);
    assert!(!rig.ctrl.state().ep1_in_has_trbs);
    assert!(!rig.ctrl.tablet().has_pending_report());
}

#[test]
fn a_moved_bar_is_noticed() {
    assert!(write_moves_bar(0x04));
    assert!(write_moves_bar(0x10));
    assert!(write_moves_bar(0x27));
    assert!(!write_moves_bar(0x28));
    assert!(!write_moves_bar(0x0C));
}
