//! Registers and transfer blocks of the USB controller.

use std::mem::size_of;

use vmm::xhci::bits::{
    hccparams1, hcsparams1, xcap_usb2, xcap_usb3, ErstEntry, RawTrb, BAR0_SIZE, CAPLENGTH, DBOFF,
    DB_REG_SIZE, IR0_BASE, MAX_SLOTS, OP_BASE, OP_USBCMD, PORTSC_BASE, PORT_REG_SIZE, RTSOFF,
    TRB_CYCLE, TRB_SIZE, TRB_TYPE_ENABLE_SLOT, TRB_TYPE_SHIFT, XCAP_BASE, XCAP_PROTO_SIZE,
};

#[test]
fn trb_size_is_16() {
    assert_eq!(size_of::<RawTrb>(), TRB_SIZE);
}

#[test]
fn erst_entry_size_is_16() {
    assert_eq!(size_of::<ErstEntry>(), 16);
}

#[test]
fn hcsparams1_fields() {
    let val = hcsparams1();
    assert_eq!(val & 0xFF, 64); // MaxSlots = 64
    assert_eq!((val >> 8) & 0x3FF, 1); // MaxIntrs = 1
    assert_eq!((val >> 24) & 0xFF, 2); // MaxPorts = 2
}

#[test]
fn hccparams1_ac64_set() {
    let val = hccparams1();
    assert_ne!(val & 1, 0); // AC64 = 1
}

#[test]
fn hccparams1_xecp_points_to_xcap_base() {
    let val = hccparams1();
    let xecp = (val >> 16) & 0xFFFF;
    assert_eq!(xecp * 4, XCAP_BASE as u32);
}

#[test]
fn xcap_usb2_fields() {
    let cap = xcap_usb2();
    // Capability ID = 2
    assert_eq!(cap[0] & 0xFF, 2);
    // Next pointer = 4 (16 bytes / 4)
    assert_eq!((cap[0] >> 8) & 0xFF, 4);
    // Revision minor.major in dword1 low 16 bits
    assert_eq!(cap[1] & 0xFFFF, 0x0200);
    // Port offset = 1, count = 1
    assert_eq!(cap[3] & 0xFF, 1);
    assert_eq!((cap[3] >> 8) & 0xFF, 1);
}

#[test]
fn xcap_usb3_fields() {
    let cap = xcap_usb3();
    assert_eq!(cap[0] & 0xFF, 2);
    // Next = 0 (last)
    assert_eq!((cap[0] >> 8) & 0xFF, 0);
    assert_eq!(cap[1] & 0xFFFF, 0x0300);
    // Port offset = 2, count = 1
    assert_eq!(cap[3] & 0xFF, 2);
    assert_eq!((cap[3] >> 8) & 0xFF, 1);
}

#[test]
fn raw_trb_type_extraction() {
    let trb = RawTrb {
        dword0: 0,
        dword1: 0,
        dword2: 0,
        dword3: (TRB_TYPE_ENABLE_SLOT << TRB_TYPE_SHIFT) | TRB_CYCLE,
    };
    assert_eq!(trb.trb_type(), TRB_TYPE_ENABLE_SLOT);
    assert!(trb.cycle_bit());
}

#[test]
fn raw_trb_slot_id() {
    let trb = RawTrb {
        dword0: 0,
        dword1: 0,
        dword2: 0,
        dword3: 1u32 << 24,
    };
    assert_eq!(trb.slot_id(), 1);
}

#[test]
fn raw_trb_parameter() {
    let trb = RawTrb {
        dword0: 0xDEAD_BEEF,
        dword1: 0x0000_1234,
        dword2: 0,
        dword3: 0,
    };
    assert_eq!(trb.parameter(), 0x0000_1234_DEAD_BEEF);
}

#[test]
fn portsc_base_alignment() {
    // Port registers start at offset 0x400 from BAR0,
    // which is 0x400 - 0x20 = 0x3E0 from operational base.
    assert_eq!(PORTSC_BASE + OP_BASE, 0x400);
}

#[test]
fn register_layout_no_overlap() {
    let cap_end = CAPLENGTH as usize; // 0x20
    let op_end: usize = 0x400; // operational regs end at port base
    let port_end = 0x400 + 2 * PORT_REG_SIZE; // 2 ports
    let db_start = DBOFF as usize; // 0x440
    let db_end = db_start + (usize::from(MAX_SLOTS) + 1) * DB_REG_SIZE;
    let rt_start = RTSOFF as usize; // 0x560
    let runtime_window_len = IR0_BASE + 0x20;
    let xcap_start = XCAP_BASE; // 0x600

    assert!(cap_end <= OP_BASE + OP_USBCMD);
    assert!(op_end <= db_start);
    assert!(port_end <= db_start);
    assert!(db_end <= rt_start);
    assert_eq!(rt_start % 32, 0);
    assert!(rt_start + runtime_window_len <= xcap_start);
    assert!(xcap_start + 2 * XCAP_PROTO_SIZE <= BAR0_SIZE as usize);
}
