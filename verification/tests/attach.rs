//! The boot-time pass over the device specs.

use vmm::machine::pci::{
    attach_each, created, push_created, AttachError, PciAttachment, PciDeviceFactory,
};
use vmm::machine::registry::{DeviceRegistry, RegistryError, SlotState};
use vmm::machine::hotplug::mem::SegidAlloc;
use vmm::machine::hotplug::CreatedPciDevice;
use vmm::pci::Bdf;

fn shape(pci: bool, lifecycle: bool) -> CreatedPciDevice {
    CreatedPciDevice { pci: pci.then_some(1), lifecycle: lifecycle.then_some(2) }
}

/// A catalog that answers each spec by a rule, and remembers what it was
/// asked for.
struct Catalog {
    seen: Vec<String>,
    rule: fn(&str) -> Result<CreatedPciDevice, String>,
}

impl Catalog {
    fn new(rule: fn(&str) -> Result<CreatedPciDevice, String>) -> Self {
        Catalog { seen: Vec::new(), rule }
    }
}

impl PciDeviceFactory for Catalog {
    fn create(&mut self, spec: &str) -> Result<CreatedPciDevice, String> {
        self.seen.push(spec.to_string());
        (self.rule)(spec)
    }
}

/// PCI handles, lifecycle handles, registered slots.
fn collect(created: CreatedPciDevice) -> (usize, usize, usize) {
    let mut out = PciAttachment { registry: DeviceRegistry::new() };
    push_created("4,stub,/disk", created, &mut out)
        .expect("one device never collides");
    (
        out.registry.pci_devices().len(),
        out.registry.lifecycle_devices().len(),
        out.registry.len(),
    )
}

#[test]
fn normal_device_carries_both_handles() {
    assert_eq!(collect(shape(true, true)), (1, 1, 1));
}

#[test]
fn passthru_shape_registers_a_pci_handle_only() {
    // passthru carries no Lifecycle and is never quiesced, paused or
    // migrated. The factory contract must keep permitting this.
    assert_eq!(collect(shape(true, false)), (1, 0, 1));
}

#[test]
fn chipset_owned_driver_contributes_nothing() {
    // hostbridge and lpc: the chipset already created them.
    assert_eq!(collect(shape(false, false)), (0, 0, 0));
}

#[test]
fn lifecycle_without_a_pci_handle_is_kept() {
    // A backend with no PCI face must still be registered, or it
    // could never be quiesced or paused.
    assert_eq!(collect(shape(false, true)), (0, 1, 1));
}

#[test]
fn the_registry_records_the_id_bdf_and_spec() {
    let mut out = PciAttachment { registry: DeviceRegistry::new() };
    push_created(
        "4:1,virtio-blk,/disk",
        shape(true, true),
        &mut out,
    )
    .expect("first device");

    let dev = out
        .registry
        .get_by_id("virtio-blk@4:1")
        .expect("id follows driver@slot");
    let bdf = dev.bdf.expect("the slot field parses");
    assert_eq!((bdf.bus(), bdf.dev(), bdf.func()), (0, 4, 1));
    assert_eq!(dev.spec.as_deref(), Some("4:1,virtio-blk,/disk"));
    assert_eq!(dev.state, SlotState::Present);
    assert!(!dev.hotpluggable);
}

#[test]
fn the_id_and_the_bdf_read_the_same_slot_field() {
    // Both must read one trimmed slot. A spec that names a slot the
    // id shows but the BDF drops would be unreachable by address.
    let mut out = PciAttachment { registry: DeviceRegistry::new() };
    push_created(" 4 ,virtio-blk", shape(true, false), &mut out)
        .expect("insert");

    let dev = out.registry.get_by_id("virtio-blk@4").expect("id");
    assert_eq!(dev.bdf, Bdf::new(0, 4, 0));
}

#[test]
fn two_specs_at_one_slot_are_refused() {
    // The bus rejects the second attach. The registry is the second
    // guard, and it must not silently keep two slot 4 devices.
    let specs = vec!["4,virtio-blk,/a".to_string(), "4,virtio-net,/b".to_string()];
    let mut catalog = Catalog::new(|_| Ok(shape(true, true)));

    let Err(err) = attach_each(&specs, &mut catalog) else {
        panic!("the second slot 4 spec must fail");
    };
    match err {
        AttachError::Registry(e) => assert_eq!(
            e,
            RegistryError::DuplicateBdf(Bdf::new(0, 4, 0).expect("slot 4"))
        ),
        other => panic!("refused for another reason: {other:?}"),
    }
}

#[test]
fn every_spec_reaches_the_factory_in_order() {
    // Slot order decides PCI enumeration order, so the loop must not
    // reorder or skip.
    let specs = vec![
        "0,hostbridge".to_string(),
        "4,virtio-blk,/disk".to_string(),
        "5,virtio-rnd".to_string(),
    ];
    let mut catalog = Catalog::new(|_| Ok(shape(true, true)));
    let Ok(attached) = attach_each(&specs, &mut catalog) else {
        panic!("factory never fails here");
    };
    assert_eq!(catalog.seen, specs);
    assert_eq!(attached.registry.pci_devices().len(), 3);
    assert_eq!(attached.registry.lifecycle_devices().len(), 3);
    let ids: Vec<String> =
        attached.registry.list().into_iter().map(|d| d.id).collect();
    assert_eq!(ids, ["hostbridge@0", "virtio-blk@4", "virtio-rnd@5"]);
}

#[test]
fn a_failed_device_stops_the_remaining_specs() {
    // A half-built machine must not run, so the first error aborts
    // the pass and no later spec is created.
    let specs = vec![
        "4,virtio-blk,/disk".to_string(),
        "5,nvme,/missing".to_string(),
        "6,virtio-rnd".to_string(),
    ];
    let mut catalog = Catalog::new(|spec| {
        if spec.contains("nvme") {
            return Err("failed to open disk".to_string());
        }
        Ok(shape(true, false))
    });
    let Err(err) = attach_each(&specs, &mut catalog) else {
        panic!("the nvme spec must fail");
    };
    match err {
        AttachError::Create(reason) => assert_eq!(reason, "failed to open disk"),
        other => panic!("refused for another reason: {other:?}"),
    }
    assert_eq!(catalog.seen, ["4,virtio-blk,/disk", "5,nvme,/missing"]);
}

#[test]
fn an_arc_segid_alloc_keeps_one_counter() {
    // One allocator is shared by every device. A copy would restart the
    // counter and hand two devices the same segment ID.
    let mut owned = SegidAlloc::new(0);
    let first = owned.take_next().expect("segment 0 is free");
    let second = owned.take_next().expect("segment 1 is free");
    assert_ne!(first, second);
}

#[test]
fn an_emulated_device_has_both_faces() {
    let c = created(5);
    assert_eq!((c.pci, c.lifecycle), (Some(5), Some(5)));
}
