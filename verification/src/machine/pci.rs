//! PCI device attachment seam.
//!
//! The machine layer must attach devices without naming one. Each binary
//! supplies its own catalog. This module supplies the loop that drives it
//! and the record of what came of it.

use vstd::prelude::*;
use vstd::string::*;

use super::devspec::{device_id, id_of, parts, slot_of};
use super::hotplug::CreatedPciDevice;
use super::parse::{bdf_of, parse_bdf};
use super::registry::{
    distinct, insert_error, Device, DeviceRegistry, RegErr, RegisteredDevice, RegistryError,
    SlotState,
};
use crate::text::owned;

verus! {

/// The pair for a device that is both on the bus and in the lifecycle
/// sweep, which is every emulated device.
pub fn created(dev: u64) -> (r: CreatedPciDevice)
    ensures
        r == (CreatedPciDevice { pci: Some(dev), lifecycle: Some(dev) }),
{
    CreatedPciDevice { pci: Some(dev), lifecycle: Some(dev) }
}

/// A binary's device catalog.
pub trait PciDeviceFactory: Sized {
    /// Build the device that a spec names, or say why it cannot be built.
    fn create(&mut self, spec: &str) -> Result<CreatedPciDevice, String>;
}

/// Handles collected from one pass over the device specs.
pub struct PciAttachment {
    /// Every device the pass created, addressable by id and BDF at run
    /// time. The one record the binaries read: a boot-time snapshot
    /// cannot show a device that hotplug added or removed.
    pub registry: DeviceRegistry,
}

/// Why a pass stopped.
#[derive(Debug)]
pub enum AttachError {
    /// The catalog could not build the device.
    Create(String),
    /// The registry refused the device.
    Registry(RegistryError),
}

/// What an attach error says.
pub ghost enum AttachErr {
    Create(Seq<char>),
    Registry(RegErr),
}

impl View for AttachError {
    type V = AttachErr;

    open spec fn view(&self) -> AttachErr {
        match *self {
            AttachError::Create(e) => AttachErr::Create(e@),
            AttachError::Registry(e) => AttachErr::Registry(e@),
        }
    }
}

/// Whether a catalog handed over anything to hold. The chipset already
/// created a hostbridge or an lpc.
pub open spec fn holds_something(created: CreatedPciDevice) -> bool {
    created.pci is Some || created.lifecycle is Some
}

/// The record of a device that the spec `spec` created. The id and the BDF
/// read one trimmed slot field.
pub open spec fn boot_record(spec: Seq<char>, created: CreatedPciDevice) -> Device {
    Device {
        id: id_of(spec),
        bdf: bdf_of(slot_of(spec)),
        pci: created.pci,
        lifecycle: created.lifecycle,
        spec: Some(spec),
        hotpluggable: false,
        state: SlotState::Present,
    }
}

/// Why the registry refuses a device, if it does.
pub open spec fn push_error(
    devices: Seq<Device>,
    spec: Seq<char>,
    created: CreatedPciDevice,
) -> Option<RegErr> {
    if holds_something(created) {
        insert_error(devices, boot_record(spec, created))
    } else {
        None
    }
}

/// The devices with one more, where there is one to hold.
pub open spec fn pushed(
    devices: Seq<Device>,
    spec: Seq<char>,
    created: CreatedPciDevice,
) -> Seq<Device> {
    if holds_something(created) {
        devices.push(boot_record(spec, created))
    } else {
        devices
    }
}

/// Record what a catalog built for a spec.
pub fn push_created(spec: &str, created: CreatedPciDevice, out: &mut PciAttachment) -> (r: Result<
    (),
    RegistryError,
>)
    ensures
        match r {
            Ok(()) => {
                &&& push_error(old(out).registry@, spec@, created) is None
                &&& final(out).registry@ == pushed(old(out).registry@, spec@, created)
            },
            Err(e) => {
                &&& push_error(old(out).registry@, spec@, created) == Some(e@)
                &&& final(out).registry@ == old(out).registry@
            },
        },
        distinct(old(out).registry@) ==> distinct(final(out).registry@),
{
    if created.pci.is_none() && created.lifecycle.is_none() {
        return Ok(());
    }
    let record = RegisteredDevice::new(
        device_id(spec),
        parse_bdf(parts(spec).slot),
        created.pci,
        created.lifecycle,
        Some(owned(spec)),
    );
    assert(record@ == boot_record(spec@, created));
    out.registry.insert(record)
}

/// What a catalog made of one spec.
pub ghost enum Made {
    Device(CreatedPciDevice),
    Failed(Seq<char>),
}

pub open spec fn made_of(r: Result<CreatedPciDevice, String>) -> Made {
    match r {
        Ok(c) => Made::Device(c),
        Err(e) => Made::Failed(e@),
    }
}

/// The devices after a pass over `specs` of which the catalog made `made`, or
/// why it stopped. The first failure ends it.
pub open spec fn attached(specs: Seq<Seq<char>>, made: Seq<Made>) -> Result<
    Seq<Device>,
    AttachErr,
>
    decreases made.len(),
{
    if made.len() == 0 {
        Ok(Seq::empty())
    } else {
        match attached(specs, made.drop_last()) {
            Err(e) => Err(e),
            Ok(devices) => match made.last() {
                Made::Failed(e) => Err(AttachErr::Create(e)),
                Made::Device(c) => match push_error(devices, specs[made.len() - 1], c) {
                    Some(e) => Err(AttachErr::Registry(e)),
                    None => Ok(pushed(devices, specs[made.len() - 1], c)),
                },
            },
        }
    }
}

/// Run the catalog over `slot,driver[,config]` specs, in order, and collect
/// the handles.
///
/// A half-built machine must not run, so the first error ends the pass and no
/// later spec reaches the catalog. A device the registry refuses is a
/// mis-specified machine, and stops the pass like a creation failure.
///
/// What the catalog builds is its own to say. Whatever that is, the pass made
/// one call for each spec up to the one that stopped it, and came to what
/// those calls come to.
pub fn attach_each<F: PciDeviceFactory>(specs: &[String], factory: &mut F) -> (r: Result<
    PciAttachment,
    AttachError,
>)
    ensures
        exists|made: Seq<Made>, catalogs: Seq<F>|
            {
                &&& made.len() <= specs@.len()
                // The catalog is asked for one spec after the other.
                &&& catalogs.len() == made.len() + 1
                &&& catalogs[0] == *old(factory)
                &&& #[trigger] catalogs.last() == *final(factory)
                &&& forall|k: int|
                    #![trigger made[k]]
                    #![trigger catalogs[k]]
                    0 <= k < made.len() ==> exists|
                        f: &mut F,
                        t: &str,
                        a: Result<CreatedPciDevice, String>,
                    |
                        {
                            &&& *f == catalogs[k]
                            &&& *final(f) == catalogs[k + 1]
                            &&& t@ == specs@[k]@
                            &&& made_of(a) == made[k]
                            &&& #[trigger] call_ensures(F::create, (f, t), a)
                        }
                &&& match r {
                    Ok(out) => made.len() == specs@.len() && (#[trigger] attached(
                        spec_texts(specs@),
                        made,
                    )) == Ok::<Seq<Device>, AttachErr>(out.registry@) && distinct(out.registry@),
                    Err(e) => made.len() > 0 && attached(spec_texts(specs@), made.drop_last())
                        is Ok && attached(spec_texts(specs@), made) == Err::<
                        Seq<Device>,
                        AttachErr,
                    >(e@),
                }
            },
{
    let ghost all = spec_texts(specs@);
    let ghost mut made: Seq<Made> = Seq::empty();
    let ghost mut catalogs: Seq<F> = seq![*factory];
    let mut out = PciAttachment { registry: DeviceRegistry::new() };
    let mut i: usize = 0;
    while i < specs.len()
        invariant
            i <= specs@.len(),
            all == spec_texts(specs@),
            made.len() == i,
            catalogs.len() == i + 1,
            catalogs[0] == *old(factory),
            catalogs.last() == *factory,
            forall|k: int|
                #![trigger made[k]]
                0 <= k < i ==> exists|
                    f: &mut F,
                    t: &str,
                    a: Result<CreatedPciDevice, String>,
                |
                    {
                        &&& *f == catalogs[k]
                        &&& *final(f) == catalogs[k + 1]
                        &&& t@ == specs@[k]@
                        &&& made_of(a) == made[k]
                        &&& #[trigger] call_ensures(F::create, (f, t), a)
                    },
            attached(all, made) == Ok::<Seq<Device>, AttachErr>(out.registry@),
            distinct(out.registry@),
        decreases specs@.len() - i,
    {
        let result = factory.create(specs[i].as_str());
        proof {
            let before = made;
            made = made.push(made_of(result));
            catalogs = catalogs.push(*factory);
            assert(catalogs.last() == *factory);
            assert(made.drop_last() =~= before);
            assert(all[i as int] == specs@[i as int]@);
        }
        match result {
            Ok(c) => {
                match push_created(specs[i].as_str(), c, &mut out) {
                    Ok(()) => {},
                    Err(e) => {
                        let e = AttachError::Registry(e);
                        assert(attached(all, made) == Err::<Seq<Device>, AttachErr>(e@));
                        return Err(e);
                    },
                }
            },
            Err(e) => {
                let e = AttachError::Create(e);
                assert(attached(all, made) == Err::<Seq<Device>, AttachErr>(e@));
                return Err(e);
            },
        }
        i += 1;
    }
    Ok(out)
}

/// The texts of a list of specs.
pub open spec fn spec_texts(specs: Seq<String>) -> Seq<Seq<char>> {
    specs.map_values(|s: String| s@)
}

/// A pass that built every device registered as many as hold something, in
/// the order of their specs: an earlier spec's device stands where it stood
/// when the pass went on.
pub proof fn pass_keeps_spec_order(specs: Seq<Seq<char>>, made: Seq<Made>, n: int)
    requires
        0 <= n <= made.len(),
        attached(specs, made) is Ok,
    ensures
        attached(specs, made.take(n)) is Ok,
        attached(specs, made.take(n))->Ok_0.is_prefix_of(attached(specs, made)->Ok_0),
    decreases made.len(),
{
    if n == made.len() {
        assert(made.take(n) =~= made);
    } else {
        assert(made.drop_last().take(n) =~= made.take(n));
        pass_keeps_spec_order(specs, made.drop_last(), n);
    }
}

/// What the pass records of a device: its id and address from its spec, what
/// the catalog made, that it was there from the start and cannot be taken out.
/// What made nothing leaves no record, and a failure ends the pass.
pub proof fn pass_records_each_device(
    specs: Seq<Seq<char>>,
    made: Seq<Made>,
    next: Made,
    devices: Seq<Device>,
)
    requires
        made.len() < specs.len(),
        attached(specs, made) == Ok::<Seq<Device>, AttachErr>(devices),
    ensures
        ({
            let spec = specs[made.len() as int];
            let r = attached(specs, made.push(next));
            match next {
                Made::Failed(e) => r == Err::<Seq<Device>, AttachErr>(AttachErr::Create(e)),
                Made::Device(c) => {
                    let d = Device {
                        id: id_of(spec),
                        bdf: bdf_of(slot_of(spec)),
                        pci: c.pci,
                        lifecycle: c.lifecycle,
                        spec: Some(spec),
                        hotpluggable: false,
                        state: SlotState::Present,
                    };
                    let empty = c.pci is None && c.lifecycle is None;
                    &&& empty ==> r == Ok::<Seq<Device>, AttachErr>(devices)
                    &&& !empty && insert_error(devices, d) is None ==> r == Ok::<
                        Seq<Device>,
                        AttachErr,
                    >(devices.push(d))
                    &&& !empty && insert_error(devices, d) is Some ==> r == Err::<
                        Seq<Device>,
                        AttachErr,
                    >(AttachErr::Registry(insert_error(devices, d)->0))
                },
            }
        }),
        attached(specs, Seq::empty()) == Ok::<Seq<Device>, AttachErr>(Seq::empty()),
{
    assert(made.push(next).drop_last() =~= made);
}

} // verus!
