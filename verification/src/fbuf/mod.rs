//! PCI framebuffer device with integrated VNC server.
//!
//! A display adapter with two MMIO BARs:
//!
//! - **BAR0** (128 bytes): mode control registers (width, height, depth,
//!   framebuffer size)
//! - **BAR1** (16 MiB): XRGB8888 pixel framebuffer
//!
//! A VNC server streams the pixels to connected clients using the RFB 3.8
//! protocol with Raw encoding.
//!
//! # PCI Identity
//!
//! - Vendor: `0xFB5D`, Device: `0x40FB`
//! - Class: Display (0x03), Subclass: VGA (0x00)

pub mod rfb;
pub mod stream;
pub mod vnc;
pub mod wire;

use vstd::prelude::*;

use crate::access::{answer_dword, dword, write_value32, written32, RWOp};
use crate::pci::{decoded_at, mmio_target, DeviceIdent, MmioUpdate};

verus! {

pub const PCI_VENDOR_ID: u16 = 0xFB5D;

pub const PCI_DEVICE_ID: u16 = 0x40FB;

pub const PCI_CLASS_DISPLAY: u8 = 0x03;

pub const PCI_SUBCLASS_VGA: u8 = 0x00;

/// BAR0 size: 128 bytes for mode control registers.
pub const BAR0_SIZE: u32 = 128;

/// BAR1 size: 16 MiB framebuffer.
pub const BAR1_SIZE: u32 = 0x100_0000;

/// Bits per pixel (always 32, XRGB8888).
pub const DEFAULT_BPP: u16 = 32;

/// Bytes per pixel (XRGB8888).
pub const BYTES_PER_PIXEL: u64 = 4;

/// Framebuffer size in bytes (u32, read-only).
pub const MEMREG_FBSIZE: usize = 0x00;

/// Display width in pixels (u16, read-write).
pub const MEMREG_WIDTH: usize = 0x04;

/// Display height in pixels (u16, read-write).
pub const MEMREG_HEIGHT: usize = 0x06;

/// Bits per pixel (u16, read-only, always 32).
pub const MEMREG_DEPTH: usize = 0x08;

/// Refresh rate hint (u16, read-only, always 0).
pub const MEMREG_REFRESH: usize = 0x0A;

/// Whether a picture of that size fits within the BAR1 framebuffer.
pub open spec fn fits(width: u16, height: u16) -> bool {
    4 * (width as int) * (height as int) <= BAR1_SIZE
}

/// Returns true if `width x height x 4` fits within the BAR1 framebuffer.
pub fn resolution_fits(width: u16, height: u16) -> (r: bool)
    ensures
        r == fits(width, height),
{
    let row: u64 = width as u64 * BYTES_PER_PIXEL;
    assert(row * height <= 0x3_FFFC * 0xFFFF) by (nonlinear_arith)
        requires
            row <= 0x3_FFFC,
            height <= 0xFFFF,
    ;
    assert(row * height == 4 * (width as int) * (height as int)) by (nonlinear_arith)
        requires
            row == 4 * width,
    ;
    row * height as u64 <= BAR1_SIZE as u64
}

// ---- Resolution packing helpers --------------------------------------------

pub open spec fn packed(width: u16, height: u16) -> u32 {
    (0x1_0000 * width + height) as u32
}

pub open spec fn packed_width(packed: u32) -> u16 {
    (packed / 0x1_0000) as u16
}

pub open spec fn packed_height(packed: u32) -> u16 {
    (packed % 0x1_0000) as u16
}

/// Both dimensions in one word: the width in its high half.
pub fn pack_resolution(width: u16, height: u16) -> (r: u32)
    ensures
        r == packed(width, height),
{
    0x1_0000 * width as u32 + height as u32
}

pub fn unpack_width(packed: u32) -> (r: u16)
    ensures
        r == packed_width(packed),
{
    (packed / 0x1_0000) as u16
}

pub fn unpack_height(packed: u32) -> (r: u16)
    ensures
        r == packed_height(packed),
{
    (packed % 0x1_0000) as u16
}

/// Packing loses neither dimension.
pub proof fn packing_round_trip(width: u16, height: u16)
    ensures
        packed_width(packed(width, height)) == width,
        packed_height(packed(width, height)) == height,
{
}

/// `v` of `extent` pixels on the tablet's axis, which ends at 0x7FFF.
pub open spec fn scaled(v: u16, extent: u16) -> int {
    let last = if extent <= 1 {
        1int
    } else {
        extent - 1
    };
    let at = (v * 0x7FFF) / last;
    if at <= 0x7FFF {
        at
    } else {
        0x7FFF
    }
}

/// Scale a pixel position to the tablet's axis.
pub fn scale_abs(v: u16, extent: u16) -> (r: u16)
    ensures
        r == scaled(v, extent),
        r <= 0x7FFF,
{
    let divisor: u32 = if extent <= 1 {
        1
    } else {
        extent as u32 - 1
    };
    let at: u32 = (v as u32 * 0x7FFF) / divisor;
    if at <= 0x7FFF {
        at as u16
    } else {
        0x7FFF
    }
}

/// The first pixel is the start of the tablet's axis, the last its end, and
/// the order of positions is kept.
pub proof fn scaling_spans_the_axis(a: u16, b: u16, extent: u16)
    requires
        a <= b,
    ensures
        scaled(0, extent) == 0,
        extent >= 2 ==> scaled((extent - 1) as u16, extent) == 0x7FFF,
        scaled(a, extent) <= scaled(b, extent),
{
    let last = if extent <= 1 {
        1int
    } else {
        extent - 1
    };
    if extent >= 2 {
        assert((last * 0x7FFF) / last == 0x7FFF) by (nonlinear_arith)
            requires
                last >= 1,
        ;
    }
    vstd::arithmetic::div_mod::lemma_div_is_ordered(a * 0x7FFF, b * 0x7FFF, last);
    assert(0int / last == 0) by (nonlinear_arith)
        requires
            last >= 1,
    ;
}

// ---- The device ------------------------------------------------------------

/// What moving the pixel memory in the guest's address space takes.
#[derive(Debug, Clone, Copy, PartialEq, Eq, Structural)]
pub struct Remap {
    /// Whether to unmap what is mapped.
    pub unmap: bool,
    /// Where to map it then.
    pub map: Option<u64>,
}

/// What to do to bring the pixel memory from `mapped` to `want`: nothing
/// where it is there, else unmap it and map it anew.
pub open spec fn remapped(mapped: Option<u64>, want: Option<u64>) -> Remap {
    if mapped == want {
        Remap { unmap: false, map: None }
    } else {
        Remap { unmap: true, map: want }
    }
}

/// PCI framebuffer device.
pub struct Framebuffer {
    /// Current display width and height packed into one word:
    /// high 16 bits = width, low 16 bits = height.
    resolution: u32,
    /// Currently registered BAR0 base address (if any).
    registered_bar0: Option<u64>,
    /// Set once the VNC server has to stop.
    shutdown: bool,
}

/// What the framebuffer device remembers.
pub ghost struct FramebufferView {
    pub width: u16,
    pub height: u16,
    pub bar0: Option<u64>,
    pub shutdown: bool,
}

impl View for Framebuffer {
    type V = FramebufferView;

    closed spec fn view(&self) -> FramebufferView {
        FramebufferView {
            width: packed_width(self.resolution),
            height: packed_height(self.resolution),
            bar0: self.registered_bar0,
            shutdown: self.shutdown,
        }
    }
}

impl FramebufferView {
    /// The display mode `w` by `h`, where it is one that fits.
    pub open spec fn mode(self, w: u16, h: u16) -> FramebufferView {
        if fits(w, h) {
            FramebufferView { width: w, height: h, ..self }
        } else {
            self
        }
    }

    /// A write of the `len`-byte value `val` at `offset` in BAR0. A zero
    /// dimension or a mode that does not fit is ignored.
    pub open spec fn written(self, offset: int, val: u32, len: int) -> FramebufferView {
        let lo = (val % 0x1_0000) as u16;
        let hi = (val / 0x1_0000) as u16;
        if offset == MEMREG_WIDTH && len >= 4 {
            if lo > 0 && hi > 0 {
                self.mode(lo, hi)
            } else {
                self
            }
        } else if offset == MEMREG_WIDTH {
            if lo > 0 {
                self.mode(lo, self.height)
            } else {
                self
            }
        } else if offset == MEMREG_HEIGHT {
            if lo > 0 {
                self.mode(self.width, lo)
            } else {
                self
            }
        } else {
            self
        }
    }

    /// The register at `offset` in BAR0 as a read of `len` bytes sees it.
    pub open spec fn register(self, offset: int, len: int) -> u32 {
        if offset == MEMREG_FBSIZE {
            BAR1_SIZE
        } else if offset == MEMREG_WIDTH {
            if len >= 4 {
                (self.width + 0x1_0000 * self.height) as u32
            } else {
                self.width as u32
            }
        } else if offset == MEMREG_HEIGHT {
            self.height as u32
        } else if offset == MEMREG_DEPTH {
            DEFAULT_BPP as u32
        } else {
            0
        }
    }
}

impl Framebuffer {
    /// Create a framebuffer device with the given display mode.
    pub fn new(width: u16, height: u16) -> (r: Self)
        ensures
            r@ == (FramebufferView { width, height, bar0: None, shutdown: false }),
    {
        Framebuffer {
            resolution: pack_resolution(width, height),
            registered_bar0: None,
            shutdown: false,
        }
    }

    /// The identity the device shows on the PCI bus.
    pub fn ident() -> (r: DeviceIdent)
        ensures
            r == (DeviceIdent {
                vendor_id: PCI_VENDOR_ID,
                device_id: PCI_DEVICE_ID,
                class: PCI_CLASS_DISPLAY,
                subclass: PCI_SUBCLASS_VGA,
                prog_if: 0,
                revision: 1,
                sub_vendor_id: PCI_VENDOR_ID,
                sub_device_id: PCI_DEVICE_ID,
            }),
            r.vendor_id == 0xFB5D && r.device_id == 0x40FB,
            r.class == 0x03 && r.subclass == 0x00,
    {
        DeviceIdent {
            vendor_id: PCI_VENDOR_ID,
            device_id: PCI_DEVICE_ID,
            class: PCI_CLASS_DISPLAY,
            subclass: PCI_SUBCLASS_VGA,
            prog_if: 0,
            revision: 1,
            sub_vendor_id: PCI_VENDOR_ID,
            sub_device_id: PCI_DEVICE_ID,
        }
    }

    pub fn width(&self) -> (r: u16)
        ensures
            r == self@.width,
    {
        unpack_width(self.resolution)
    }

    pub fn height(&self) -> (r: u16)
        ensures
            r == self@.height,
    {
        unpack_height(self.resolution)
    }

    /// Both dimensions in one word.
    pub fn resolution(&self) -> (r: u32)
        ensures
            packed_width(r) == self@.width,
            packed_height(r) == self@.height,
    {
        self.resolution
    }

    /// Tell the VNC server to stop.
    pub fn shutdown(&mut self)
        ensures
            final(self)@ == (FramebufferView { shutdown: true, ..old(self)@ }),
    {
        self.shutdown = true;
    }

    pub fn is_shut_down(&self) -> (r: bool)
        ensures
            r == self@.shutdown,
    {
        self.shutdown
    }

    // ---- MMIO registration -------------------------------------------------

    /// Forget the recorded BAR0 base and hand it out, to be taken off the bus.
    fn release_mmio(&mut self) -> (r: Option<u64>)
        ensures
            r == old(self)@.bar0,
            final(self)@ == (FramebufferView { bar0: None, ..old(self)@ }),
    {
        let addr = self.registered_bar0;
        self.registered_bar0 = None;
        addr
    }

    /// What changes on the MMIO bus, and where the pixel memory moves, after
    /// a BAR or command register write.
    ///
    /// `mapped` is where the pixel memory is now. BAR0 counts as unregistered
    /// until [`Framebuffer::mmio_registered`] says that the bus took it.
    pub fn update_mmio_registration(
        &mut self,
        mmio_enabled: bool,
        bar0: Option<u64>,
        bar1: u64,
        mapped: Option<u64>,
    ) -> (r: (MmioUpdate, Remap))
        ensures
            r.0 == (MmioUpdate {
                unregister: old(self)@.bar0,
                register: decoded_at(mmio_enabled, bar0),
            }),
            r.1 == remapped(mapped, decoded_at(mmio_enabled, Some(bar1))),
            final(self)@ == (FramebufferView { bar0: None, ..old(self)@ }),
    {
        let unregister = self.release_mmio();
        let update = MmioUpdate { unregister, register: mmio_target(mmio_enabled, bar0) };
        (update, remap_framebuffer(mapped, bar1_target(mmio_enabled, bar1)))
    }

    /// The bus took BAR0 at `addr`.
    pub fn mmio_registered(&mut self, addr: u64)
        ensures
            final(self)@ == (FramebufferView { bar0: Some(addr), ..old(self)@ }),
    {
        self.registered_bar0 = Some(addr);
    }

    /// Leave the bus: the BAR0 base to take off it, and what to do about the
    /// pixel memory, which decodes guest addresses too.
    pub fn detach_regions(&mut self, mapped: Option<u64>) -> (r: (Option<u64>, Remap))
        ensures
            r.0 == old(self)@.bar0,
            r.1 == remapped(mapped, None),
            final(self)@ == (FramebufferView { bar0: None, ..old(self)@ }),
    {
        (self.release_mmio(), remap_framebuffer(mapped, None))
    }

    // ---- BAR0: mode control registers --------------------------------------

    /// Handle an access to any BAR. Only BAR0 has registers: a read of
    /// another sees zeros.
    pub fn bar_rw(&mut self, bar: u8, offset: usize, rwo: RWOp<'_>) -> (r: Vec<u8>)
        ensures
            match rwo {
                RWOp::Read(len) => {
                    &&& final(self)@ == old(self)@
                    &&& bar == 0 ==> r@ == dword(
                        old(self)@.register(offset as int, len as int),
                        len as nat,
                    )
                    &&& bar != 0 ==> r@ == dword(0, len as nat)
                },
                RWOp::Write(bytes) => {
                    &&& r@.len() == 0
                    &&& bar == 0 ==> final(self)@ == old(self)@.written(
                        offset as int,
                        written32(bytes@),
                        bytes@.len() as int,
                    )
                    &&& bar != 0 ==> final(self)@ == old(self)@
                },
            },
    {
        if bar == 0 {
            self.bar0_rw(offset, rwo)
        } else {
            match rwo {
                RWOp::Read(len) => answer_dword(0, len),
                RWOp::Write(_) => Vec::new(),
            }
        }
    }

    /// Handle BAR0 MMIO access (mode control registers).
    pub fn bar0_rw(&mut self, offset: usize, rwo: RWOp<'_>) -> (r: Vec<u8>)
        ensures
            match rwo {
                RWOp::Read(len) => r@ == dword(
                    old(self)@.register(offset as int, len as int),
                    len as nat,
                ) && final(self)@ == old(self)@,
                RWOp::Write(bytes) => r@.len() == 0 && final(self)@ == old(self)@.written(
                    offset as int,
                    written32(bytes@),
                    bytes@.len() as int,
                ),
            },
    {
        match rwo {
            RWOp::Read(len) => answer_dword(self.bar0_read(offset, len), len),
            RWOp::Write(bytes) => {
                self.bar0_write(offset, write_value32(bytes), bytes.len());
                Vec::new()
            },
        }
    }

    /// Read a value from the BAR0 register space.
    pub fn bar0_read(&self, offset: usize, len: usize) -> (r: u32)
        ensures
            r == self@.register(offset as int, len as int),
    {
        let width: u16 = unpack_width(self.resolution);
        let height: u16 = unpack_height(self.resolution);
        match offset {
            MEMREG_FBSIZE => BAR1_SIZE,
            MEMREG_WIDTH => {
                if len >= 4 {
                    // The width, with the height in the high half.
                    width as u32 + 0x1_0000 * height as u32
                } else {
                    width as u32
                }
            },
            MEMREG_HEIGHT => height as u32,
            // REFRESH is always 0, so a 4-byte read at DEPTH has a zero
            // high half.
            MEMREG_DEPTH => DEFAULT_BPP as u32,
            MEMREG_REFRESH => 0,
            _ => 0,
        }
    }

    /// Write a value to the BAR0 register space.
    pub fn bar0_write(&mut self, offset: usize, val: u32, len: usize)
        ensures
            final(self)@ == old(self)@.written(offset as int, val, len as int),
    {
        let low: u16 = (val % 0x1_0000) as u16;
        let high: u16 = (val / 0x1_0000) as u16;
        if offset == MEMREG_WIDTH && len >= 4 {
            // Width in the low 16 bits, height in the high 16 bits.
            if low > 0 && high > 0 {
                self.set_mode(low, high);
            }
        } else if offset == MEMREG_WIDTH {
            if low > 0 {
                self.set_mode(low, unpack_height(self.resolution));
            }
        } else if offset == MEMREG_HEIGHT {
            if low > 0 {
                self.set_mode(unpack_width(self.resolution), low);
            }
        }
        // FBSIZE, DEPTH, REFRESH are read-only
    }

    fn set_mode(&mut self, width: u16, height: u16)
        ensures
            final(self)@ == old(self)@.mode(width, height),
    {
        if resolution_fits(width, height) {
            self.resolution = pack_resolution(width, height);
        }
    }
}

/// Where the pixel memory belongs: at BAR1's address while memory decoding is
/// on and BAR1 has one.
pub fn bar1_target(mmio_enabled: bool, addr: u64) -> (r: Option<u64>)
    ensures
        r == decoded_at(mmio_enabled, Some(addr)),
{
    if mmio_enabled && addr != 0 {
        Some(addr)
    } else {
        None
    }
}

/// Move the framebuffer mapping to `want`, or unmap it.
pub fn remap_framebuffer(mapped: Option<u64>, want: Option<u64>) -> (r: Remap)
    ensures
        r == remapped(mapped, want),
{
    let same = match (mapped, want) {
        (Some(a), Some(b)) => a == b,
        (None, None) => true,
        _ => false,
    };
    if same {
        Remap { unmap: false, map: None }
    } else {
        Remap { unmap: true, map: want }
    }
}

/// No guest write leaves a mode that does not fit the pixel memory, or a zero
/// dimension, once the mode is neither.
pub proof fn guest_keeps_mode_valid(fb: FramebufferView, offset: int, val: u32, len: int)
    requires
        fits(fb.width, fb.height),
        fb.width > 0,
        fb.height > 0,
    ensures
        ({
            let after = fb.written(offset, val, len);
            &&& fits(after.width, after.height)
            &&& after.width > 0
            &&& after.height > 0
        }),
{
}

/// A mode that fits, written by one dword, is read back by one dword.
pub proof fn mode_reads_back(fb: FramebufferView, width: u16, height: u16)
    requires
        width > 0,
        height > 0,
        fits(width, height),
    ensures
        ({
            let val = (width + 0x1_0000 * height) as u32;
            let after = fb.written(MEMREG_WIDTH as int, val, 4);
            &&& after.width == width
            &&& after.height == height
            &&& after.register(MEMREG_WIDTH as int, 4) == val
        }),
{
}

/// A resolution is packed with the width in the upper half and the height in
/// the lower.
pub proof fn width_is_packed_above(width: u16, height: u16)
    ensures
        packed(width, height) / 0x1_0000 == width,
        packed(width, height) % 0x1_0000 == height,
{
}

/// The guest sets the mode at offset 4, whole by a dword of both or by a word
/// of each, and only to one that has pixels and fits the sixteen mebibytes of
/// pixel memory. What it may not set leaves the mode as it was, and no other
/// offset sets anything.
pub proof fn modes_are_set_in_place(fb: FramebufferView, offset: int, val: u32, len: int)
    ensures
        ({
            let after = fb.written(offset, val, len);
            let lo = (val % 0x1_0000) as int;
            let hi = (val / 0x1_0000) as int;
            let both = offset == 4 && len >= 4;
            let w = if offset == 4 {
                lo
            } else {
                fb.width as int
            };
            let h = if both {
                hi
            } else if offset == 6 {
                lo
            } else {
                fb.height as int
            };
            let named = lo > 0 && (both ==> hi > 0);
            let taken = (offset == 4 || offset == 6) && named && 4 * w * h <= 0x100_0000;
            &&& taken ==> after.width == w && after.height == h
            &&& !taken ==> after.width == fb.width && after.height == fb.height
            &&& after.bar0 == fb.bar0
            &&& after.shutdown == fb.shutdown
        }),
{
}

/// What the registers read: the size of pixel memory, the width and the
/// height, together by a dword at 4, and 32 bits to a pixel.
pub proof fn registers_read_the_mode(fb: FramebufferView, len: int)
    ensures
        fb.register(0, len) == 0x100_0000,
        len >= 4 ==> fb.register(4, len) % 0x1_0000 == fb.width && fb.register(4, len) / 0x1_0000
            == fb.height,
        len < 4 ==> fb.register(4, len) == fb.width,
        fb.register(6, len) == fb.height,
        fb.register(8, len) == 32,
        fb.register(0x0A, len) == 0,
{
}

/// The pixel memory is remapped exactly where it is not where it should be:
/// it leaves its old place, if any, and goes to the new one, if any.
pub proof fn remapping_follows_the_target(mapped: Option<u64>, want: Option<u64>)
    ensures
        mapped == want ==> !remapped(mapped, want).unmap && remapped(mapped, want).map is None,
        mapped != want ==> remapped(mapped, want).unmap && remapped(mapped, want).map == want,
{
}

/// A pointer on or past the last pixel is at the end of the axis, and so is
/// one past the only pixel there is.
pub proof fn scaling_stops_at_the_edge(v: u16, extent: u16)
    ensures
        0 <= scaled(v, extent) <= 0x7FFF,
        extent >= 2 && v >= extent - 1 ==> scaled(v, extent) == 0x7FFF,
        extent <= 1 && v >= 1 ==> scaled(v, extent) == 0x7FFF,
        v == 0 ==> scaled(v, extent) == 0,
{
    let last = if extent <= 1 {
        1int
    } else {
        extent - 1
    };
    let n = v * 0x7FFF;
    assert(n / last >= 0) by (nonlinear_arith)
        requires
            n >= 0,
            last >= 1,
    ;
    if v >= last {
        assert(n / last >= 0x7FFF) by (nonlinear_arith)
            requires
                n == v * 0x7FFF,
                v >= last,
                last >= 1,
        ;
    }
    if v == 0 {
        assert(0int / last == 0) by (nonlinear_arith)
            requires
                last >= 1,
        ;
    }
}

} // verus!
