//! The record of the devices.

use vmm::machine::registry::{DeviceRegistry, RegisteredDevice, RegistryError, SlotState};
use vmm::pci::Bdf;

fn bdf(dev: u8) -> Bdf {
    Bdf::new(0, dev, 0).expect("device number is in range")
}

const PCI: Option<u64> = Some(7);
const LIFECYCLE: Option<u64> = Some(9);

fn record(
    id: &str,
    bdf: Option<Bdf>,
    pci: Option<u64>,
    lifecycle: Option<u64>,
    spec: Option<String>,
) -> RegisteredDevice {
    RegisteredDevice::new(id.to_string(), bdf, pci, lifecycle, spec)
}

fn device(id: &str, dev: u8) -> RegisteredDevice {
    record(id, Some(bdf(dev)), PCI, LIFECYCLE, Some(format!("{dev},stub")))
}

const STATES: [SlotState; 4] = [
    SlotState::Present,
    SlotState::RemovePending,
    SlotState::Ejecting,
    SlotState::Absent,
];

#[test]
fn insert_rejects_a_duplicate_id() {
    let mut registry = DeviceRegistry::new();
    registry.insert(device("blk@4", 4)).expect("first insert");

    let err = registry
        .insert(device("blk@4", 5))
        .expect_err("the id is taken");

    assert_eq!(err, RegistryError::DuplicateId("blk@4".to_string()));
    assert_eq!(registry.len(), 1);
}

#[test]
fn insert_rejects_a_duplicate_bdf() {
    let mut registry = DeviceRegistry::new();
    registry.insert(device("blk@4", 4)).expect("first insert");

    let err = registry
        .insert(device("net@4", 4))
        .expect_err("the BDF is taken");

    assert_eq!(err, RegistryError::DuplicateBdf(bdf(4)));
    assert_eq!(registry.len(), 1);
}

#[test]
fn devices_without_a_bdf_do_not_collide() {
    // None is "not on the PCI bus", not one shared address.
    let mut registry = DeviceRegistry::new();
    for id in ["varstore", "tpm"] {
        registry
            .insert(record(
                id,
                None,
                None,
                LIFECYCLE,
                None,
            ))
            .expect("no BDF to collide");
    }
    assert_eq!(registry.len(), 2);
}

#[test]
fn a_lifecycle_without_a_pci_handle_is_registered() {
    // The varstore shape. Dropping it here is why rshyve has to push
    // the handle by hand.
    let mut registry = DeviceRegistry::new();
    registry
        .insert(record(
            "varstore",
            None,
            None,
            LIFECYCLE,
            None,
        ))
        .expect("insert varstore");

    assert_eq!(registry.lifecycle_devices().len(), 1);
    assert!(registry.pci_devices().is_empty());
    assert!(registry.get_by_id("varstore").is_some());
}

#[test]
fn passthru_registers_a_pci_handle_with_no_lifecycle() {
    let mut registry = DeviceRegistry::new();
    registry
        .insert(record(
            "passthru@6",
            Some(bdf(6)),
            PCI,
            None,
            Some("6,passthru".to_string()),
        ))
        .expect("insert passthru");

    assert_eq!(registry.pci_devices().len(), 1);
    assert!(registry.lifecycle_devices().is_empty());
}

#[test]
fn lookup_by_id_and_bdf_finds_the_same_slot() {
    let mut registry = DeviceRegistry::new();
    registry.insert(device("blk@4", 4)).expect("insert");

    let by_id = registry.get_by_id("blk@4").expect("id lookup");
    let by_bdf = registry.get_by_bdf(bdf(4)).expect("BDF lookup");

    assert_eq!(by_id.id, by_bdf.id);
    assert_eq!(by_id.spec.as_deref(), Some("4,stub"));
    assert!(registry.get_by_id("absent").is_none());
    assert!(registry.get_by_bdf(bdf(9)).is_none());
}

#[test]
fn remove_frees_the_id_and_the_bdf() {
    let mut registry = DeviceRegistry::new();
    registry.insert(device("blk@4", 4)).expect("insert");

    let removed = registry.remove_by_id("blk@4").expect("remove");

    assert_eq!(removed.id, "blk@4");
    assert!(registry.is_empty());
    assert!(registry.remove_by_id("blk@4").is_none());
    registry
        .insert(device("blk@4", 4))
        .expect("the id and BDF are free again");
}

#[test]
fn the_legal_state_walk_runs_to_absent() {
    let mut registry = DeviceRegistry::new();
    registry.insert(device("blk@4", 4)).expect("insert");

    for pair in STATES.windows(2) {
        registry
            .set_state("blk@4", pair[0], pair[1])
            .expect("each step of the eject sequence is legal");
        assert_eq!(
            registry.get_by_id("blk@4").expect("device").state,
            pair[1]
        );
    }
}

#[test]
fn an_abandoned_removal_walks_back_to_present() {
    // A device that will not quiesce keeps its slot and keeps
    // running, so the slot must stop reporting a removal that is
    // not going to happen.
    let mut registry = DeviceRegistry::new();
    registry.insert(device("blk@4", 4)).expect("insert");
    registry
        .set_state("blk@4", SlotState::Present, SlotState::RemovePending)
        .expect("requested");

    registry
        .set_state("blk@4", SlotState::RemovePending, SlotState::Present)
        .expect("the removal was abandoned");

    assert_eq!(
        registry.get_by_id("blk@4").expect("device").state,
        SlotState::Present,
    );
    // And the operator can ask again.
    registry
        .set_state("blk@4", SlotState::Present, SlotState::RemovePending)
        .expect("a second request");
}

#[test]
fn every_other_transition_is_refused() {
    for from in STATES {
        for to in STATES {
            let legal = matches!(
                (from, to),
                (SlotState::Present, SlotState::RemovePending)
                    | (SlotState::RemovePending, SlotState::Present)
                    | (SlotState::RemovePending, SlotState::Ejecting)
                    | (SlotState::Ejecting, SlotState::Absent)
            );
            if legal {
                continue;
            }

            let mut registry = DeviceRegistry::new();
            let mut dev = device("blk@4", 4);
            dev.state = from;
            registry.insert(dev).expect("insert");

            let err = registry
                .set_state("blk@4", from, to)
                .expect_err("only the eject sequence is legal");

            assert_eq!(
                err,
                RegistryError::IllegalTransition {
                    id: "blk@4".to_string(),
                    from,
                    to,
                }
            );
            assert_eq!(
                registry.get_by_id("blk@4").expect("device").state,
                from
            );
        }
    }
}

#[test]
fn a_second_eject_request_is_a_no_op() {
    // A hostile guest writing the eject register twice must not
    // start a second teardown.
    let mut registry = DeviceRegistry::new();
    registry.insert(device("blk@4", 4)).expect("insert");
    registry
        .set_state("blk@4", SlotState::Present, SlotState::RemovePending)
        .expect("first request");

    let err = registry
        .set_state("blk@4", SlotState::Present, SlotState::RemovePending)
        .expect_err("the slot already moved");

    assert_eq!(
        err,
        RegistryError::StateMismatch {
            id: "blk@4".to_string(),
            expected: SlotState::Present,
            found: SlotState::RemovePending,
        }
    );
    assert_eq!(
        registry.get_by_id("blk@4").expect("device").state,
        SlotState::RemovePending
    );
}

#[test]
fn set_state_reports_an_unknown_id() {
    let mut registry = DeviceRegistry::new();

    let err = registry
        .set_state("ghost", SlotState::Present, SlotState::RemovePending)
        .expect_err("no such device");

    assert_eq!(err, RegistryError::NoSuchDevice("ghost".to_string()));
}

#[test]
fn list_keeps_insert_order() {
    // PCI enumeration order follows slot order, so the view must not
    // reorder.
    let mut registry = DeviceRegistry::new();
    for (id, dev) in [("a@4", 4), ("b@5", 5), ("c@6", 6)] {
        registry.insert(device(id, dev)).expect("insert");
    }

    let ids: Vec<String> =
        registry.list().into_iter().map(|d| d.id).collect();

    assert_eq!(ids, ["a@4", "b@5", "c@6"]);
}

#[test]
fn every_refusal_says_what_it_is_about() {
    assert_eq!(
        RegistryError::DuplicateId("blk@4".to_string()).to_text(),
        "device id blk@4 is already registered"
    );
    assert_eq!(
        RegistryError::DuplicateBdf(bdf(4)).to_text(),
        "a device is already registered at BDF 0:4:0"
    );
    assert_eq!(RegistryError::NoSuchDevice("x".to_string()).to_text(), "no device with id x");
    assert_eq!(
        RegistryError::StateMismatch {
            id: "x".to_string(),
            expected: SlotState::Present,
            found: SlotState::RemovePending,
        }
        .to_text(),
        "device x is remove-pending, not the expected present"
    );
    assert_eq!(
        RegistryError::IllegalTransition {
            id: "x".to_string(),
            from: SlotState::Ejecting,
            to: SlotState::Present,
        }
        .to_text(),
        "device x cannot move from ejecting to present"
    );
    assert!(SlotState::Present.can_advance_to(SlotState::RemovePending));
    assert_eq!(SlotState::Absent.to_text(), "absent");
}
