//! The USB tablet.

use vmm::xhci::tablet::{TabletDevice, CONFIG_DESC, DEVICE_DESC, HID_REPORT_DESC, REPORT_SIZE};
use vmm::xhci::bits::USB_DT_STRING;

#[test]
fn device_desc_length() {
    assert_eq!(DEVICE_DESC.len(), 18);
    assert_eq!(DEVICE_DESC[0], 18);
}

#[test]
fn device_desc_vendor_product() {
    // idVendor at offset 8-9 (LE)
    let vendor = u16::from_le_bytes([DEVICE_DESC[8], DEVICE_DESC[9]]);
    assert_eq!(vendor, 0xFB5D);
    // idProduct at offset 10-11 (LE)
    let product = u16::from_le_bytes([DEVICE_DESC[10], DEVICE_DESC[11]]);
    assert_eq!(product, 0x0001);
}

#[test]
fn config_desc_total_length() {
    assert_eq!(CONFIG_DESC.len(), 34);
    let total = u16::from_le_bytes([CONFIG_DESC[2], CONFIG_DESC[3]]);
    assert_eq!(total, 34);
}

#[test]
fn config_desc_contains_hid_report_len() {
    // HID descriptor is at offset 18 in CONFIG_DESC.
    // wDescriptorLength is at offset 25-26 within CONFIG_DESC.
    let hid_desc_start: usize = 18; // config(9) + interface(9)
    let report_len_offset = hid_desc_start + 7;
    let report_len = u16::from_le_bytes([
        CONFIG_DESC[report_len_offset],
        CONFIG_DESC[report_len_offset + 1],
    ]);
    assert_eq!(report_len as usize, HID_REPORT_DESC.len());
}

#[test]
fn hid_report_desc_size() {
    assert_eq!(HID_REPORT_DESC.len(), 84);
}

#[test]
fn report_size() {
    assert_eq!(REPORT_SIZE, 6);
}

#[test]
fn pointer_event_clamps_coordinates() {
    let mut tablet = TabletDevice::new();
    tablet.pointer_event(0xFF, 0xFFFF, 0xFFFF);
    let report = tablet.get_report();
    assert_eq!(report[0], 0x07);
    let x = u16::from_le_bytes([report[1], report[2]]);
    assert_eq!(x, 0x7FFF);
    let y = u16::from_le_bytes([report[3], report[4]]);
    assert_eq!(y, 0x7FFF);
}

#[test]
fn pointer_event_sets_pending() {
    let mut tablet = TabletDevice::new();
    assert!(!tablet.has_pending_report());
    tablet.pointer_event(0, 100, 200);
    assert!(tablet.has_pending_report());
}

#[test]
fn get_report_clears_pending() {
    let mut tablet = TabletDevice::new();
    tablet.pointer_event(1, 0x1000, 0x2000);
    assert!(tablet.has_pending_report());
    let report = tablet.get_report();
    assert!(!tablet.has_pending_report());
    assert_eq!(report[0], 1);
    let x = u16::from_le_bytes([report[1], report[2]]);
    assert_eq!(x, 0x1000);
}

#[test]
fn handle_get_device_descriptor() {
    let mut tablet = TabletDevice::new();
    let result = tablet.handle_control(0x80, 6, 0x0100, 0, 18);
    assert!(result.is_some());
    let data = result.expect("descriptor");
    assert_eq!(data.len(), 18);
    assert_eq!(data[0], 18);
}

#[test]
fn handle_get_config_descriptor() {
    let mut tablet = TabletDevice::new();
    let result = tablet.handle_control(0x80, 6, 0x0200, 0, 255);
    assert!(result.is_some());
    let data = result.expect("descriptor");
    assert_eq!(data.len(), 34);
}

#[test]
fn handle_get_hid_report_descriptor() {
    let mut tablet = TabletDevice::new();
    // Request HID report descriptor (type 0x22)
    let result = tablet.handle_control(0x80, 6, 0x2200, 0, 255);
    assert!(result.is_some());
    let data = result.expect("descriptor");
    assert_eq!(data.len(), HID_REPORT_DESC.len());
}

#[test]
fn handle_set_address() {
    let mut tablet = TabletDevice::new();
    let result = tablet.handle_control(0x00, 5, 0x0002, 0, 0);
    assert!(result.is_some());
    let st = tablet.state();
    assert_eq!(st.address, 2);
}

#[test]
fn handle_set_configuration() {
    let mut tablet = TabletDevice::new();
    let result = tablet.handle_control(0x00, 9, 0x0001, 0, 0);
    assert!(result.is_some());
    let st = tablet.state();
    assert_eq!(st.configuration, 1);
}

#[test]
fn handle_hid_set_idle() {
    let mut tablet = TabletDevice::new();
    let result = tablet.handle_control(0x21, 0x0A, 0x0800, 0, 0);
    assert!(result.is_some());
    let st = tablet.state();
    assert_eq!(st.idle_rate, 8);
}

#[test]
fn handle_unknown_request_stalls() {
    let mut tablet = TabletDevice::new();
    let result = tablet.handle_control(0x80, 0xFF, 0, 0, 0);
    assert!(result.is_none());
}

#[test]
fn string_descriptor_0_is_language() {
    let mut tablet = TabletDevice::new();
    let result = tablet.handle_control(0x80, 6, 0x0300, 0, 255);
    assert!(result.is_some());
    let data = result.expect("string 0");
    assert_eq!(data.len(), 4);
    assert_eq!(data[2], 0x09);
    assert_eq!(data[3], 0x04);
}

#[test]
fn string_descriptor_product() {
    let mut tablet = TabletDevice::new();
    let result = tablet.handle_control(0x80, 6, 0x0302, 0, 255);
    assert!(result.is_some());
    let data = result.expect("string 2");
    assert!(data.len() >= 2);
    assert_eq!(data[1], USB_DT_STRING);
    // "USB Tablet" in UTF-16LE: U=0x55, S=0x53, B=0x42, ...
    assert_eq!(data[2], b'U');
    assert_eq!(data[3], 0);
}

#[test]
fn string_descriptors_name_the_device() {
    let mut tablet = TabletDevice::new();
    let maker = tablet.handle_control(0x80, 6, 0x0301, 0, 255).expect("string 1");
    assert_eq!(maker[0] as usize, maker.len());
    assert_eq!(maker[1], USB_DT_STRING);
    let product = tablet.handle_control(0x80, 6, 0x0302, 0, 255).expect("string 2");
    let text: Vec<u8> = product[2..].iter().copied().step_by(2).collect();
    assert_eq!(text, b"USB Tablet");
}

#[test]
fn a_descriptor_is_cut_to_what_was_asked_for() {
    let mut tablet = TabletDevice::new();
    let data = tablet.handle_control(0x80, 6, 0x0100, 0, 8).expect("descriptor");
    assert_eq!(data, DEVICE_DESC[..8].to_vec());
    assert_eq!(tablet.handle_control(0x80, 6, 0x0100, 0, 0), Some(vec![]));
}

#[test]
fn a_report_holds_the_last_pointer_event() {
    let mut tablet = TabletDevice::new();
    tablet.pointer_event(0x02, 0x0123, 0x4567);
    assert_eq!(tablet.get_report(), [0x02, 0x23, 0x01, 0x67, 0x45, 0x00]);
}

#[test]
fn settings_read_back() {
    let mut tablet = TabletDevice::new();
    assert!(tablet.handle_control(0x00, 9, 0x0001, 0, 0).is_some());
    assert_eq!(tablet.handle_control(0x80, 8, 0, 0, 1), Some(vec![1]));
    assert!(tablet.handle_control(0x21, 0x0A, 0x0800, 0, 0).is_some());
    assert_eq!(tablet.handle_control(0xA1, 0x02, 0, 0, 1), Some(vec![8]));
}
