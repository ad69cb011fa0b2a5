//! The framebuffer device.

use vmm::access::RWOp;
use vmm::fbuf::{
    bar1_target, pack_resolution, remap_framebuffer, resolution_fits, scale_abs, unpack_height,
    unpack_width, Framebuffer, BAR1_SIZE, MEMREG_DEPTH, MEMREG_FBSIZE, MEMREG_HEIGHT,
    MEMREG_REFRESH, MEMREG_WIDTH, PCI_CLASS_DISPLAY, PCI_DEVICE_ID, PCI_SUBCLASS_VGA, PCI_VENDOR_ID,
};

#[test]
fn resolution_packing() {
    let packed = pack_resolution(1024, 768);
    assert_eq!(unpack_width(packed), 1024);
    assert_eq!(unpack_height(packed), 768);
}

#[test]
fn resolution_packing_max() {
    let packed = pack_resolution(u16::MAX, u16::MAX);
    assert_eq!(unpack_width(packed), u16::MAX);
    assert_eq!(unpack_height(packed), u16::MAX);
}

#[test]
fn resolution_packing_zero() {
    let packed = pack_resolution(0, 0);
    assert_eq!(unpack_width(packed), 0);
    assert_eq!(unpack_height(packed), 0);
}

#[test]
fn absolute_pointer_scaling() {
    assert_eq!(scale_abs(0, 1024), 0);
    assert_eq!(scale_abs(1023, 1024), 0x7FFF);

    let midpoint = scale_abs(512, 1024);
    assert!((0x3FE0..=0x4020).contains(&midpoint));
}

#[test]
fn absolute_pointer_scaling_handles_degenerate_extents() {
    assert_eq!(scale_abs(0, 0), 0);
    assert_eq!(scale_abs(5, 1), 0x7FFF);
}

#[test]
fn absolute_pointer_scaling_never_exceeds_tablet_range() {
    for extent in [0, 1, 2, 768, 1024, u16::MAX] {
        for value in 0..=u16::MAX {
            assert!(scale_abs(value, extent) <= 0x7FFF);
        }
    }
}

#[test]
fn bar0_read_fbsize() {
    let dev = Framebuffer::new(1024, 768);
    let val = dev.bar0_read(MEMREG_FBSIZE, 4);
    assert_eq!(val, BAR1_SIZE);
}

#[test]
fn bar0_read_resolution() {
    let dev = Framebuffer::new(1024, 768);
    assert_eq!(dev.bar0_read(MEMREG_WIDTH, 2), 1024);
    assert_eq!(dev.bar0_read(MEMREG_HEIGHT, 2), 768);
}

#[test]
fn bar0_read_depth() {
    let dev = Framebuffer::new(1024, 768);
    assert_eq!(dev.bar0_read(MEMREG_DEPTH, 2), 32);
}

#[test]
fn bar0_read_refresh() {
    let dev = Framebuffer::new(1024, 768);
    assert_eq!(dev.bar0_read(MEMREG_REFRESH, 2), 0);
}

#[test]
fn bar0_write_width() {
    let mut dev = Framebuffer::new(1024, 768);
    dev.bar0_write(MEMREG_WIDTH, 1920, 2);
    assert_eq!(dev.width(), 1920);
    assert_eq!(dev.height(), 768); // unchanged
}

#[test]
fn bar0_write_height() {
    let mut dev = Framebuffer::new(1024, 768);
    dev.bar0_write(MEMREG_HEIGHT, 1080, 2);
    assert_eq!(dev.width(), 1024); // unchanged
    assert_eq!(dev.height(), 1080);
}

#[test]
fn bar0_write_resolution_dword() {
    let mut dev = Framebuffer::new(1024, 768);
    // 4-byte write at WIDTH offset: low16 = width, high16 = height
    let val = u32::from(1920u16) | (u32::from(1080u16) << 16);
    dev.bar0_write(MEMREG_WIDTH, val, 4);
    assert_eq!(dev.width(), 1920);
    assert_eq!(dev.height(), 1080);
}

#[test]
fn bar0_write_zero_width_ignored() {
    let mut dev = Framebuffer::new(1024, 768);
    dev.bar0_write(MEMREG_WIDTH, 0, 2);
    assert_eq!(dev.width(), 1024); // unchanged
}

#[test]
fn bar0_write_zero_height_ignored() {
    let mut dev = Framebuffer::new(1024, 768);
    dev.bar0_write(MEMREG_HEIGHT, 0, 2);
    assert_eq!(dev.height(), 768); // unchanged
}

#[test]
fn bar0_reserved_reads_zero() {
    let dev = Framebuffer::new(1024, 768);
    assert_eq!(dev.bar0_read(0x20, 4), 0);
    assert_eq!(dev.bar0_read(0x7C, 4), 0);
}

#[test]
fn pci_ident_reads() {
    let ident = Framebuffer::ident();
    assert_eq!(ident.vendor_id, PCI_VENDOR_ID);
    assert_eq!(ident.device_id, PCI_DEVICE_ID);
    assert_eq!(ident.class, PCI_CLASS_DISPLAY);
    assert_eq!(ident.subclass, PCI_SUBCLASS_VGA);
    assert_eq!((ident.prog_if, ident.revision), (0, 1));
    assert_eq!((ident.sub_vendor_id, ident.sub_device_id), (PCI_VENDOR_ID, PCI_DEVICE_ID));
}

#[test]
fn bar0_write_oversized_resolution_rejected() {
    let mut dev = Framebuffer::new(1024, 768);
    // 65535×65535 × 4 = ~16 GiB -- far exceeds 16 MiB BAR1
    let val = u32::from(u16::MAX) | (u32::from(u16::MAX) << 16);
    dev.bar0_write(MEMREG_WIDTH, val, 4);
    // Resolution must remain unchanged
    assert_eq!(dev.width(), 1024);
    assert_eq!(dev.height(), 768);
}

#[test]
fn bar0_write_oversized_width_rejected() {
    let mut dev = Framebuffer::new(1024, 768);
    // 65535 × 768 × 4 = ~191 MiB -- exceeds 16 MiB BAR1
    dev.bar0_write(MEMREG_WIDTH, u32::from(u16::MAX), 2);
    assert_eq!(dev.width(), 1024); // unchanged
}

#[test]
fn bar0_write_oversized_height_rejected() {
    let mut dev = Framebuffer::new(1024, 768);
    // 1024 × 65535 × 4 = ~256 MiB -- exceeds 16 MiB BAR1
    dev.bar0_write(MEMREG_HEIGHT, u32::from(u16::MAX), 2);
    assert_eq!(dev.height(), 768); // unchanged
}

#[test]
fn bar0_write_max_fitting_resolution_accepted() {
    let mut dev = Framebuffer::new(1024, 768);
    // 2048 × 2048 × 4 = 16 MiB -- exactly fits BAR1
    let val = u32::from(2048u16) | (u32::from(2048u16) << 16);
    dev.bar0_write(MEMREG_WIDTH, val, 4);
    assert_eq!(dev.width(), 2048);
    assert_eq!(dev.height(), 2048);
}

#[test]
fn resolution_fits_boundary() {
    // 2048 × 2048 × 4 = 16 MiB = BAR1_SIZE exactly
    assert!(resolution_fits(2048, 2048));
    // One pixel over
    assert!(!resolution_fits(2049, 2048));
    // Way over
    assert!(!resolution_fits(u16::MAX, u16::MAX));
    // Zero dimensions (rejected elsewhere, but fits check is true)
    assert!(resolution_fits(0, 0));
}

#[test]
fn bar1_is_not_registered_on_the_mmio_bus() {
    let mut dev = Framebuffer::new(1024, 768);
    let bar0_addr: u64 = 0xE000_0000;
    let bar1_addr: u64 = 0xE100_0000;

    let (bus, remap) =
        dev.update_mmio_registration(true, Some(bar0_addr), bar1_addr, None);
    // Only the mode registers go on the bus. The framebuffer is mapped.
    assert_eq!((bus.unregister, bus.register), (None, Some(bar0_addr)));
    assert_eq!(remap.map, Some(bar1_addr));
    dev.mmio_registered(bar0_addr);

    let fbsize = dev.bar_rw(0, MEMREG_FBSIZE, RWOp::Read(4));
    assert_eq!(fbsize, BAR1_SIZE.to_le_bytes());
    assert_eq!(dev.bar_rw(1, 0, RWOp::Read(4)), [0, 0, 0, 0]);
}

#[test]
fn bar1_remap_is_gated_on_mmio_en() {
    let addr: u64 = 0xE100_0000;

    assert_eq!(bar1_target(false, addr), None);
    assert_eq!(bar1_target(true, 0), None);
    assert_eq!(bar1_target(true, addr), Some(addr));
    assert_eq!(bar1_target(false, addr), None);
}

#[test]
fn a_guest_mode_reads_back() {
    let mut dev = Framebuffer::new(1024, 768);
    dev.bar0_rw(MEMREG_WIDTH, RWOp::Write(&[0x20, 0x03]));
    dev.bar0_rw(MEMREG_HEIGHT, RWOp::Write(&[0x58, 0x02]));
    assert_eq!(dev.bar0_rw(MEMREG_WIDTH, RWOp::Read(2)), [0x20, 0x03]);
    assert_eq!(dev.bar0_rw(MEMREG_HEIGHT, RWOp::Read(2)), [0x58, 0x02]);
    assert_eq!(dev.resolution(), pack_resolution(800, 600));
}

#[test]
fn a_mapping_moves_only_when_its_target_does() {
    let stay = remap_framebuffer(Some(0xE100_0000), Some(0xE100_0000));
    assert!(!stay.unmap);
    assert_eq!(stay.map, None);
    let moved = remap_framebuffer(Some(0xE100_0000), Some(0xE200_0000));
    assert!(moved.unmap);
    assert_eq!(moved.map, Some(0xE200_0000));
    let gone = remap_framebuffer(Some(0xE100_0000), None);
    assert!(gone.unmap);
    assert_eq!(gone.map, None);
}

#[test]
fn a_shutdown_stays() {
    let mut dev = Framebuffer::new(640, 480);
    assert!(!dev.is_shut_down());
    dev.shutdown();
    assert!(dev.is_shut_down());
    assert_eq!((dev.width(), dev.height()), (640, 480));
}
