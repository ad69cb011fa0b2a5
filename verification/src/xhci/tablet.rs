//! USB HID tablet (absolute pointer) device.
//!
//! The device has 3 buttons, a 2-axis absolute pointer (16-bit X/Y, range
//! 0..0x7FFF) and a scroll wheel. The display server calls
//! [`TabletDevice::pointer_event`] when the remote client moves the pointer
//! or presses a button. The xHCI controller then sends the report to the
//! guest through the interrupt IN endpoint.

use vstd::prelude::*;
use vstd::string::*;

use super::bits::{
    USB_DIR_IN, USB_DT_CONFIG, USB_DT_DEVICE, USB_DT_ENDPOINT, USB_DT_HID, USB_DT_HID_REPORT,
    USB_DT_INTERFACE, USB_DT_STRING, USB_REQ_CLEAR_FEATURE, USB_REQ_GET_CONFIGURATION,
    USB_REQ_GET_DESCRIPTOR, USB_REQ_GET_STATUS, USB_REQ_HID_GET_IDLE, USB_REQ_HID_GET_REPORT,
    USB_REQ_HID_SET_IDLE, USB_REQ_HID_SET_PROTOCOL, USB_REQ_SET_ADDRESS, USB_REQ_SET_CONFIGURATION,
    USB_REQ_SET_FEATURE, USB_TYPE_CLASS, USB_TYPE_STANDARD,
};
use crate::bytes::{le16_bytes, take_bytes};

verus! {

// ---- USB descriptors ------------------------------------------------------

/// Device descriptor (18 bytes).
pub const DEVICE_DESC: [u8; 18] = [
    18,                  // bLength
    USB_DT_DEVICE, // bDescriptorType
    0x00,
    0x02, // bcdUSB = 2.00
    0x00, // bDeviceClass (defined at interface level)
    0x00, // bDeviceSubClass
    0x00, // bDeviceProtocol
    64,   // bMaxPacketSize0
    0x5D,
    0xFB, // idVendor = 0xFB5D (little-endian)
    0x01,
    0x00, // idProduct = 0x0001
    0x00,
    0x01, // bcdDevice = 1.00
    1,    // iManufacturer (string index)
    2,    // iProduct (string index)
    0,    // iSerialNumber
    1,    // bNumConfigurations
];

/// Configuration descriptor + interface + HID + endpoint (total 34 bytes).
pub const CONFIG_DESC: [u8; 34] = [
    // Configuration descriptor (9 bytes)
    9,                   // bLength
    USB_DT_CONFIG, // bDescriptorType
    34,
    0,    // wTotalLength = 34
    1,    // bNumInterfaces
    1,    // bConfigurationValue
    0,    // iConfiguration
    0xA0, // bmAttributes (bus-powered, remote wakeup)
    50,   // bMaxPower (100 mA)
    // Interface descriptor (9 bytes)
    9,                      // bLength
    USB_DT_INTERFACE, // bDescriptorType
    0,                      // bInterfaceNumber
    0,                      // bAlternateSetting
    1,                      // bNumEndpoints
    0x03,                   // bInterfaceClass (HID)
    0x00,                   // bInterfaceSubClass (no boot)
    0x00,                   // bInterfaceProtocol (none)
    0,                      // iInterface
    // HID descriptor (9 bytes)
    9,                // bLength
    USB_DT_HID, // bDescriptorType
    0x10,
    0x01,                    // bcdHID = 1.10
    0,                       // bCountryCode
    1,                       // bNumDescriptors
    USB_DT_HID_REPORT, // bDescriptorType (report)
    // wDescriptorLength = length of HID_REPORT_DESC
    84,
    0,
    // Endpoint descriptor (7 bytes)
    7,                     // bLength
    USB_DT_ENDPOINT, // bDescriptorType
    0x81,                  // bEndpointAddress (EP1 IN)
    0x03,                  // bmAttributes (interrupt)
    8,
    0,  // wMaxPacketSize = 8
    10, // bInterval (10 ms)
];

/// HID Report Descriptor for absolute pointer tablet.
///
/// Usage Page: Generic Desktop
///   Usage: Mouse
///     Collection: Application
///       Usage: Pointer
///         Collection: Physical
///           Usage Page: Button (1-3)
///           Usage Page: Generic Desktop (X, Y absolute 0..0x7FFF)
///           Usage Page: Generic Desktop (Wheel relative -127..127)
///         End Collection
///     End Collection
pub const HID_REPORT_DESC: [u8; 84] = [
    0x05, 0x01, // Usage Page (Generic Desktop)
    0x09, 0x02, // Usage (Mouse)
    0xA1, 0x01, // Collection (Application)
    0x09, 0x01, //   Usage (Pointer)
    0xA1, 0x00, //   Collection (Physical)
    // Buttons (3 buttons, 1 bit each + 5 padding bits)
    0x05, 0x09, //     Usage Page (Button)
    0x19, 0x01, //     Usage Minimum (Button 1)
    0x29, 0x03, //     Usage Maximum (Button 3)
    0x15, 0x00, //     Logical Minimum (0)
    0x25, 0x01, //     Logical Maximum (1)
    0x95, 0x03, //     Report Count (3)
    0x75, 0x01, //     Report Size (1)
    0x81, 0x02, //     Input (Data, Var, Abs)
    0x95, 0x01, //     Report Count (1)
    0x75, 0x05, //     Report Size (5) -- padding
    0x81, 0x01, //     Input (Const, Array, Abs)
    // X axis (absolute, 16-bit, 0..0x7FFF)
    0x05, 0x01, //     Usage Page (Generic Desktop)
    0x09, 0x30, //     Usage (X)
    0x15, 0x00, //     Logical Minimum (0)
    0x26, 0xFF, 0x7F, //     Logical Maximum (32767)
    0x35, 0x00, //     Physical Minimum (0)
    0x46, 0xFF, 0x7F, //     Physical Maximum (32767)
    0x75, 0x10, //     Report Size (16)
    0x95, 0x01, //     Report Count (1)
    0x81, 0x02, //     Input (Data, Var, Abs)
    // Y axis (absolute, 16-bit, 0..0x7FFF)
    0x09, 0x31, //     Usage (Y)
    0x15, 0x00, //     Logical Minimum (0)
    0x26, 0xFF, 0x7F, //     Logical Maximum (32767)
    0x35, 0x00, //     Physical Minimum (0)
    0x46, 0xFF, 0x7F, //     Physical Maximum (32767)
    0x75, 0x10, //     Report Size (16)
    0x95, 0x01, //     Report Count (1)
    0x81, 0x02, //     Input (Data, Var, Abs)
    // Scroll wheel (relative, 8-bit, -127..127)
    0x09, 0x38, //     Usage (Wheel)
    0x15, 0x81, //     Logical Minimum (-127)
    0x25, 0x7F, //     Logical Maximum (127)
    0x75, 0x08, //     Report Size (8)
    0x95, 0x01, //     Report Count (1)
    0x81, 0x06, //     Input (Data, Var, Rel)
    0xC0, //   End Collection
    0xC0, // End Collection
];

/// Size of the HID report: buttons(1) + X(2) + Y(2) + wheel(1) = 6 bytes.
pub const REPORT_SIZE: usize = 6;

// ---- String descriptors --------------------------------------------------

/// String descriptor 0: language ID (US English 0x0409).
pub const STRING_DESC_0: [u8; 4] = [4, USB_DT_STRING, 0x09, 0x04];

/// The UTF-16LE descriptor of an ASCII text: its length, its type, and each
/// character with a zero byte behind it.
pub open spec fn string_desc_of(s: Seq<char>) -> Seq<u8> {
    Seq::new(
        2 + 2 * s.len(),
        |i: int|
            if i == 0 {
                (2 + 2 * s.len()) as u8
            } else if i == 1 {
                USB_DT_STRING
            } else if i % 2 == 0 {
                s[(i - 2) / 2] as u8
            } else {
                0u8
            },
    )
}

/// The string descriptors that the device descriptor names.
pub open spec fn string_desc(index: int) -> Seq<u8> {
    if index == 0 {
        STRING_DESC_0@
    } else if index == 1 {
        string_desc_of("Triton VMM"@)
    } else {
        string_desc_of("USB Tablet"@)
    }
}

/// Build a UTF-16LE string descriptor from an ASCII string.
fn make_string_desc(s: &str) -> (desc: Vec<u8>)
    requires
        s.is_ascii(),
        2 * s@.len() + 2 <= 0xFF,
    ensures
        desc@ == string_desc_of(s@),
{
    broadcast use is_ascii_spec_bytes;

    let bytes = s.as_bytes();
    let mut desc: Vec<u8> = Vec::new();
    desc.push((2 + 2 * bytes.len()) as u8);
    desc.push(USB_DT_STRING);
    let mut i: usize = 0;
    while i < bytes.len()
        invariant
            i <= bytes@.len(),
            bytes@.len() == s@.len(),
            2 * s@.len() + 2 <= 0xFF,
            forall|k: int| 0 <= k < s@.len() ==> bytes@[k] == #[trigger] s@[k] as u8,
            desc@ == string_desc_of(s@).take(2 + 2 * i),
        decreases bytes@.len() - i,
    {
        desc.push(bytes[i]);
        desc.push(0);
        i += 1;
        assert(desc@ =~= string_desc_of(s@).take(2 + 2 * i));
    }
    assert(desc@ =~= string_desc_of(s@));
    desc
}

// ---- Tablet device state -------------------------------------------------

/// What the tablet remembers.
#[derive(Debug, Clone, Copy, PartialEq, Eq, Structural)]
pub struct TabletState {
    /// Current button state (bits 0-2).
    pub buttons: u8,
    /// Current X position (0..0x7FFF).
    pub x: u16,
    /// Current Y position (0..0x7FFF).
    pub y: u16,
    /// Pending report ready to send.
    pub report_pending: bool,
    /// USB address assigned by SET_ADDRESS.
    pub address: u8,
    /// Current configuration (0 = unconfigured, 1 = configured).
    pub configuration: u8,
    /// HID idle rate (in 4ms units, 0 = infinite).
    pub idle_rate: u8,
}

impl TabletState {
    /// The positions and buttons that the HID report can carry, and an
    /// address that USB can assign.
    pub open spec fn wf(self) -> bool {
        self.buttons < 8 && self.x <= 0x7FFF && self.y <= 0x7FFF && self.address < 0x80
    }

    /// The report: buttons, X, Y, and a wheel that never turns.
    pub open spec fn report(self) -> Seq<u8> {
        seq![self.buttons] + le16_bytes(self.x) + le16_bytes(self.y) + seq![0u8]
    }
}

/// The smaller of a transfer length and a number of bytes.
pub open spec fn at_most(w_length: u16, len: nat) -> int {
    if w_length <= len {
        w_length as int
    } else {
        len as int
    }
}

/// The answer to GET_DESCRIPTOR: the descriptor cut to the length asked for.
///
/// A string index the device does not have gets an empty string descriptor,
/// whatever the length.
pub open spec fn descriptor(desc_type: u8, desc_index: u8, w_length: u16) -> Option<Seq<u8>> {
    if desc_type == USB_DT_DEVICE {
        Some(DEVICE_DESC@.take(at_most(w_length, 18)))
    } else if desc_type == USB_DT_CONFIG {
        Some(CONFIG_DESC@.take(at_most(w_length, 34)))
    } else if desc_type == USB_DT_STRING {
        if desc_index < 3 {
            let desc = string_desc(desc_index as int);
            Some(desc.take(at_most(w_length, desc.len())))
        } else {
            Some(seq![2u8, USB_DT_STRING])
        }
    } else if desc_type == USB_DT_HID_REPORT {
        Some(HID_REPORT_DESC@.take(at_most(w_length, 84)))
    } else {
        None
    }
}

/// Bits 6:5 of a request type.
pub open spec fn request_class(bm_request_type: u8) -> u8 {
    (bm_request_type % 0x80 / 0x20 * 0x20) as u8
}

/// What a SETUP packet does to the tablet, and what it answers. `None` is a
/// STALL.
pub open spec fn control(
    st: TabletState,
    bm_request_type: u8,
    b_request: u8,
    w_value: u16,
    w_length: u16,
) -> (TabletState, Option<Seq<u8>>) {
    let dir_in = bm_request_type >= USB_DIR_IN;
    let class = request_class(bm_request_type);
    let low = (w_value % 0x100) as u8;
    let high = (w_value / 0x100) as u8;
    let done = Some(Seq::<u8>::empty());
    if class == USB_TYPE_STANDARD {
        if b_request == USB_REQ_GET_DESCRIPTOR && dir_in {
            (st, descriptor(high, low, w_length))
        } else if b_request == USB_REQ_SET_ADDRESS {
            (TabletState { address: (w_value % 0x80) as u8, ..st }, done)
        } else if b_request == USB_REQ_SET_CONFIGURATION {
            (TabletState { configuration: low, ..st }, done)
        } else if b_request == USB_REQ_GET_CONFIGURATION && dir_in {
            (st, Some(seq![st.configuration]))
        } else if b_request == USB_REQ_GET_STATUS && dir_in {
            (st, Some(seq![0u8, 0u8]))
        } else if b_request == USB_REQ_CLEAR_FEATURE || b_request == USB_REQ_SET_FEATURE {
            (st, done)
        } else {
            (st, None)
        }
    } else if class == USB_TYPE_CLASS {
        if b_request == USB_REQ_HID_SET_IDLE {
            (TabletState { idle_rate: high, ..st }, done)
        } else if b_request == USB_REQ_HID_GET_IDLE && dir_in {
            (st, Some(seq![st.idle_rate]))
        } else if b_request == USB_REQ_HID_SET_PROTOCOL {
            (st, done)
        } else if b_request == USB_REQ_HID_GET_REPORT && dir_in {
            (
                TabletState { report_pending: false, ..st },
                Some(st.report().take(at_most(w_length, 6))),
            )
        } else {
            (st, None)
        }
    } else {
        (st, None)
    }
}

/// The state after the pointer moved or a button changed.
pub open spec fn pointed(st: TabletState, buttons: u8, x: u16, y: u16) -> TabletState {
    TabletState {
        buttons: (buttons % 8) as u8,
        x: if x <= 0x7FFF { x } else { 0x7FFF },
        y: if y <= 0x7FFF { y } else { 0x7FFF },
        report_pending: true,
        ..st
    }
}

/// USB HID absolute pointer tablet device.
#[derive(Debug, Clone, Copy)]
pub struct TabletDevice {
    inner: TabletState,
}

impl View for TabletDevice {
    type V = TabletState;

    closed spec fn view(&self) -> TabletState {
        self.inner
    }
}

impl Default for TabletDevice {
    fn default() -> (r: Self)
        ensures
            r@ == initial(),
            r@.wf(),
    {
        Self::new()
    }
}

/// A tablet that no host has spoken to.
pub open spec fn initial() -> TabletState {
    TabletState {
        buttons: 0,
        x: 0,
        y: 0,
        report_pending: false,
        address: 0,
        configuration: 0,
        idle_rate: 0,
    }
}

impl TabletDevice {
    pub fn new() -> (r: Self)
        ensures
            r@ == initial(),
            r@.wf(),
    {
        TabletDevice {
            inner: TabletState {
                buttons: 0,
                x: 0,
                y: 0,
                report_pending: false,
                address: 0,
                configuration: 0,
                idle_rate: 0,
            },
        }
    }

    /// What the tablet remembers now.
    pub fn state(&self) -> (r: TabletState)
        ensures
            r == self@,
    {
        self.inner
    }

    /// Called by the display server when the remote client moves the pointer
    /// or changes button state.
    ///
    /// Coordinates are absolute in the range [0, 0x7FFF].
    pub fn pointer_event(&mut self, buttons: u8, x: u16, y: u16)
        ensures
            final(self)@ == pointed(old(self)@, buttons, x, y),
            old(self)@.wf() ==> final(self)@.wf(),
    {
        self.inner.buttons = buttons % 8;
        self.inner.x = if x <= 0x7FFF {
            x
        } else {
            0x7FFF
        };
        self.inner.y = if y <= 0x7FFF {
            y
        } else {
            0x7FFF
        };
        self.inner.report_pending = true;
    }

    pub fn has_pending_report(&self) -> (r: bool)
        ensures
            r == self@.report_pending,
    {
        self.inner.report_pending
    }

    /// Build the current HID report and clear the pending flag.
    ///
    /// Returns the 6-byte report: [buttons, x_lo, x_hi, y_lo, y_hi, wheel].
    pub fn get_report(&mut self) -> (r: [u8; REPORT_SIZE])
        ensures
            r@ == old(self)@.report(),
            final(self)@ == (TabletState { report_pending: false, ..old(self)@ }),
    {
        self.inner.report_pending = false;
        let x: u16 = self.inner.x;
        let y: u16 = self.inner.y;
        let r = [
            self.inner.buttons,
            (x % 0x100) as u8,
            (x / 0x100) as u8,
            (y % 0x100) as u8,
            (y / 0x100) as u8,
            0,
        ];
        assert(r@ =~= old(self)@.report());
        r
    }

    /// Handle a USB control transfer (SETUP stage).
    ///
    /// `bm_request_type`, `b_request`, `w_value`, `w_index`, `w_length`
    /// are the fields from the 8-byte SETUP packet.
    ///
    /// Returns `Some(data)` for IN transfers (data to send to host),
    /// or `Some(empty)` for successful OUT/no-data transfers,
    /// or `None` to STALL.
    pub fn handle_control(
        &mut self,
        bm_request_type: u8,
        b_request: u8,
        w_value: u16,
        _w_index: u16,
        w_length: u16,
    ) -> (r: Option<Vec<u8>>)
        ensures
            ({
                let c = control(old(self)@, bm_request_type, b_request, w_value, w_length);
                &&& final(self)@ == c.0
                &&& r.is_some() == c.1.is_some()
                &&& r matches Some(data) ==> c.1 == Some(data@) && data@.len() <= 84
            }),
            old(self)@.wf() ==> final(self)@.wf(),
    {
        let dir_in = bm_request_type >= USB_DIR_IN;
        let req_type: u8 = bm_request_type % 0x80 / 0x20 * 0x20;
        let low: u8 = (w_value % 0x100) as u8;
        let high: u8 = (w_value / 0x100) as u8;

        if req_type == USB_TYPE_STANDARD {
            if b_request == USB_REQ_GET_DESCRIPTOR && dir_in {
                self.get_descriptor(high, low, w_length)
            } else if b_request == USB_REQ_SET_ADDRESS {
                self.inner.address = (w_value % 0x80) as u8;
                Some(no_data())
            } else if b_request == USB_REQ_SET_CONFIGURATION {
                self.inner.configuration = low;
                Some(no_data())
            } else if b_request == USB_REQ_GET_CONFIGURATION && dir_in {
                Some(data_of(self.inner.configuration))
            } else if b_request == USB_REQ_GET_STATUS && dir_in {
                // Neither self-powered nor able to wake the host.
                let mut data: Vec<u8> = Vec::new();
                data.push(0);
                data.push(0);
                assert(data@ =~= seq![0u8, 0u8]);
                Some(data)
            } else if b_request == USB_REQ_CLEAR_FEATURE || b_request == USB_REQ_SET_FEATURE {
                // Accepted and ignored.
                Some(no_data())
            } else {
                None
            }
        } else if req_type == USB_TYPE_CLASS {
            if b_request == USB_REQ_HID_SET_IDLE {
                self.inner.idle_rate = high;
                Some(no_data())
            } else if b_request == USB_REQ_HID_GET_IDLE && dir_in {
                Some(data_of(self.inner.idle_rate))
            } else if b_request == USB_REQ_HID_SET_PROTOCOL {
                // The device supports only the report protocol.
                Some(no_data())
            } else if b_request == USB_REQ_HID_GET_REPORT && dir_in {
                let report = self.get_report();
                Some(cut(&report, w_length))
            } else {
                None
            }
        } else {
            // Unknown request: STALL
            None
        }
    }

    /// Handle GET_DESCRIPTOR for device-level descriptors.
    fn get_descriptor(&self, desc_type: u8, desc_index: u8, w_length: u16) -> (r: Option<Vec<u8>>)
        ensures
            ({
                let d = descriptor(desc_type, desc_index, w_length);
                &&& r.is_some() == d.is_some()
                &&& r matches Some(data) ==> d == Some(data@) && data@.len() <= 84
            }),
    {
        match desc_type {
            USB_DT_DEVICE => Some(cut(&DEVICE_DESC, w_length)),
            USB_DT_CONFIG => Some(cut(&CONFIG_DESC, w_length)),
            USB_DT_STRING => {
                proof {
                    reveal_strlit("Triton VMM");
                    reveal_strlit("USB Tablet");
                }
                match desc_index {
                    0 => Some(cut(&STRING_DESC_0, w_length)),
                    1 => Some(cut(make_string_desc("Triton VMM").as_slice(), w_length)),
                    2 => Some(cut(make_string_desc("USB Tablet").as_slice(), w_length)),
                    _ => {
                        // Unknown string index: return empty string descriptor
                        let mut data: Vec<u8> = Vec::new();
                        data.push(2);
                        data.push(USB_DT_STRING);
                        assert(data@ =~= seq![2u8, USB_DT_STRING]);
                        Some(data)
                    },
                }
            },
            USB_DT_HID_REPORT => Some(cut(&HID_REPORT_DESC, w_length)),
            _ => None,
        }
    }
}

/// As much of `desc` as the host asked for.
fn cut(desc: &[u8], w_length: u16) -> (r: Vec<u8>)
    ensures
        r@ == desc@.take(at_most(w_length, desc@.len())),
{
    let len: usize = if w_length as usize <= desc.len() {
        w_length as usize
    } else {
        desc.len()
    };
    take_bytes(desc, len)
}

fn no_data() -> (r: Vec<u8>)
    ensures
        r@ == Seq::<u8>::empty(),
{
    Vec::new()
}

fn data_of(b: u8) -> (r: Vec<u8>)
    ensures
        r@ == seq![b],
{
    let mut r: Vec<u8> = Vec::new();
    r.push(b);
    assert(r@ =~= seq![b]);
    r
}

/// A report carries the last pointer event: its buttons and its position,
/// each cut to what the tablet can say.
pub proof fn report_carries_pointer_event(st: TabletState, buttons: u8, x: u16, y: u16)
    ensures
        ({
            let after = pointed(st, buttons, x, y);
            &&& after.report_pending
            &&& after.report().len() == REPORT_SIZE
            &&& after.report()[0] == buttons % 8
            &&& crate::bytes::le16(after.report(), 1) == if x <= 0x7FFF { x } else { 0x7FFF }
            &&& crate::bytes::le16(after.report(), 3) == if y <= 0x7FFF { y } else { 0x7FFF }
            &&& after.report()[5] == 0
        }),
{
}

/// No answer to a SETUP packet that names a length is longer than it, but
/// for the empty string descriptor and the fixed-size status answers.
pub proof fn control_respects_length(
    st: TabletState,
    bm_request_type: u8,
    b_request: u8,
    w_value: u16,
    w_length: u16,
)
    ensures
        ({
            let data = control(st, bm_request_type, b_request, w_value, w_length).1;
            data matches Some(d) ==> d.len() <= w_length || d.len() <= 2
        }),
{
}

/// SET_ADDRESS, SET_CONFIGURATION and SET_IDLE are read back: the
/// configuration and the idle rate by their GET requests, with nothing else
/// in the tablet changed.
pub proof fn control_reads_back(st: TabletState, w_value: u16, w_length: u16)
    ensures
        ({
            let set = control(st, 0x00, USB_REQ_SET_CONFIGURATION, w_value, 0).0;
            let got = control(set, 0x80, USB_REQ_GET_CONFIGURATION, 0, w_length);
            &&& got.0 == set
            &&& got.1 == Some(seq![(w_value % 0x100) as u8])
            &&& set == (TabletState { configuration: (w_value % 0x100) as u8, ..st })
        }),
        ({
            let set = control(st, 0x21, USB_REQ_HID_SET_IDLE, w_value, 0).0;
            let got = control(set, 0xA1, USB_REQ_HID_GET_IDLE, 0, w_length);
            &&& got.0 == set
            &&& got.1 == Some(seq![(w_value / 0x100) as u8])
            &&& set == (TabletState { idle_rate: (w_value / 0x100) as u8, ..st })
        }),
{
}

/// A request is a standard one or one of the device's class by bits 6:5 of
/// its type, and nothing else is taken. The standard ones that are taken are
/// 0, 1, 3, 5, 6, 8 and 9, the class ones 1, 2, 10 and 11, and of these the
/// ones that read only towards the host. A refused request changes nothing.
pub proof fn requests_are_sorted(
    st: TabletState,
    bm_request_type: u8,
    b_request: u8,
    w_value: u16,
    w_length: u16,
)
    ensures
        ({
            let (after, answer) = control(st, bm_request_type, b_request, w_value, w_length);
            let class = bm_request_type / 0x20 % 4;
            let inward = bm_request_type / 0x80 == 1;
            let kind = w_value / 0x100;
            let known = kind == 1 || kind == 2 || kind == 3 || kind == 0x22;
            let standard = b_request == 1 || b_request == 3 || b_request == 5 || b_request == 9 || (
            inward && (b_request == 0 || b_request == 8 || (b_request == 6 && known)));
            let own = b_request == 10 || b_request == 11 || (inward && (b_request == 1 || b_request
                == 2));
            &&& answer is Some <==> (class == 0 && standard) || (class == 1 && own)
            &&& answer is None ==> after == st
            &&& class == 0 && (b_request == 1 || b_request == 3 || b_request == 5 || b_request == 9)
                ==> answer->0.len() == 0
            &&& class == 1 && (b_request == 10 || b_request == 11) ==> answer->0.len() == 0
        }),
{
}

/// What a request can change, each in its own field: the address by the low
/// seven bits of its value, the configuration by the low byte, the idle rate
/// by the high one, and the pending report by reading it.
pub proof fn requests_change_their_own_field(
    st: TabletState,
    bm_request_type: u8,
    b_request: u8,
    w_value: u16,
    w_length: u16,
)
    ensures
        ({
            let after = control(st, bm_request_type, b_request, w_value, w_length).0;
            let class = bm_request_type / 0x20 % 4;
            let inward = bm_request_type / 0x80 == 1;
            &&& after.address == if class == 0 && b_request == 5 {
                w_value as int % 0x80
            } else {
                st.address as int
            }
            &&& after.configuration == if class == 0 && b_request == 9 {
                w_value as int % 0x100
            } else {
                st.configuration as int
            }
            &&& after.idle_rate == if class == 1 && b_request == 10 {
                w_value as int / 0x100
            } else {
                st.idle_rate as int
            }
            &&& after.report_pending == (st.report_pending && !(class == 1 && inward && b_request
                == 1))
            &&& after.buttons == st.buttons && after.x == st.x && after.y == st.y
        }),
{
}

/// The device reports the same six bytes on the control endpoint as on the
/// interrupt endpoint, as many as were asked for, and two zero bytes for its
/// status.
pub proof fn control_reads_the_report(st: TabletState, w_value: u16, w_length: u16, i: int)
    ensures
        ({
            let got = control(st, 0xA1, 1, w_value, w_length).1->0;
            &&& got.len() == if w_length <= 6 {
                w_length as int
            } else {
                6
            }
            &&& 0 <= i < got.len() ==> got[i] == st.report()[i]
            &&& control(st, 0x80, 0, w_value, w_length).1 == Some(seq![0u8, 0u8])
        }),
{
}

/// The device descriptor, as far as it was asked for: 18 bytes of type 1, USB
/// 2.0, 64-byte control packets, vendor 0xFB5D, product 1, one configuration.
pub proof fn device_descriptor_is_read(st: TabletState, index: u8, w_length: u16)
    ensures
        ({
            let d = control(st, 0x80, 6, (0x100 + index) as u16, w_length).1->0;
            &&& d.len() == if w_length <= 18 {
                w_length as int
            } else {
                18
            }
            &&& w_length >= 18 ==> {
                &&& d[0] == 18 && d[1] == 1
                &&& d[2] == 0 && d[3] == 2
                &&& d[4] == 0 && d[5] == 0 && d[6] == 0
                &&& d[7] == 64
                &&& d[8] == 0x5D && d[9] == 0xFB
                &&& d[10] == 1 && d[11] == 0
                &&& d[12] == 0 && d[13] == 1
                &&& d[14] == 1 && d[15] == 2 && d[16] == 0
                &&& d[17] == 1
            }
        }),
{
}

/// The configuration descriptor says its own length, 34, and the descriptors
/// in it follow one another by theirs: interface, HID and endpoint. The
/// endpoint is interrupt IN 1, and the report descriptor has the length that
/// the HID descriptor names.
pub proof fn configuration_descriptor_is_read(st: TabletState, index: u8, w_length: u16)
    requires
        w_length >= 84,
    ensures
        ({
            let d = control(st, 0x80, 6, (0x200 + index) as u16, w_length).1->0;
            let hid = control(st, 0x80, 6, (0x2200 + index) as u16, w_length).1->0;
            &&& d.len() == 34
            &&& d[0] == 9 && d[1] == 2 && d[2] == 34 && d[3] == 0
            &&& d[4] == 1 && d[5] == 1 && d[6] == 0 && d[7] == 0xA0 && d[8] == 50
            &&& d[9] == 9 && d[10] == 4 && d[11] == 0 && d[12] == 0 && d[13] == 1 && d[14] == 3
                && d[15] == 0 && d[16] == 0 && d[17] == 0
            &&& d[18] == 9 && d[19] == 0x21 && d[20] == 0x10 && d[21] == 1 && d[22] == 0 && d[23]
                == 1 && d[24] == 0x22
            &&& d[25] + 0x100 * d[26] == hid.len()
            &&& hid.len() == 84
            &&& d[27] == 7 && d[28] == 5 && d[29] == 0x81 && d[30] == 3 && d[31] == 8 && d[32] == 0
                && d[33] == 10
            &&& hid[0] == 5 && hid[1] == 1 && hid[82] == 0xC0 && hid[83] == 0xC0
        }),
{
}

/// A string descriptor spells its text in 16-bit letters behind its length
/// and type, and an index past the third string has no text.
pub proof fn string_descriptors_are_read(st: TabletState, index: u8, w_length: u16, i: int)
    requires
        w_length >= 22,
        0 <= i < 10,
    ensures
        ({
            let d = control(st, 0x80, 6, (0x300 + index) as u16, w_length).1->0;
            let name = if index == 1 {
                "Triton VMM"@
            } else {
                "USB Tablet"@
            };
            &&& d[0] == d.len()
            &&& d[1] == 3
            &&& index == 0 ==> d == seq![4u8, 3, 9, 4]
            &&& index == 1 || index == 2 ==> d.len() == 22 && d[2 + 2 * i] == name[i] as u8 && d[3
                + 2 * i] == 0
            &&& index >= 3 ==> d.len() == 2
        }),
{
    reveal_strlit("Triton VMM");
    reveal_strlit("USB Tablet");
    assert((0x300 + index) as u16 % 0x100 == index);
    assert((0x300 + index) as u16 / 0x100 == 3);
    let d = control(st, 0x80, 6, (0x300 + index) as u16, w_length).1->0;
    if index == 0 {
        assert(d =~= seq![4u8, 3, 9, 4]);
    }
}

/// A tablet that nobody touched reports the origin with no button, and is
/// neither addressed nor configured.
pub proof fn fresh_tablet_is_idle()
    ensures
        initial().report() == seq![0u8, 0, 0, 0, 0, 0],
        !initial().report_pending,
        initial().address == 0 && initial().configuration == 0 && initial().idle_rate == 0,
{
    assert(initial().report() =~= seq![0u8, 0, 0, 0, 0, 0]);
}

} // verus!
