//! PCI addresses, identities, and where a device's BAR is decoded.

use vstd::prelude::*;

verus! {

/// The bus, device and function numbers of one PCI function.
#[derive(Debug, Clone, Copy, PartialEq, Eq, Structural)]
pub struct Bdf {
    bus: u8,
    dev: u8,
    func: u8,
}

impl Bdf {
    /// A bus holds 32 devices of 8 functions.
    #[verifier::type_invariant]
    spec fn inv(self) -> bool {
        self.dev < 32 && self.func < 8
    }

    pub closed spec fn spec_bus(self) -> u8 {
        self.bus
    }

    pub closed spec fn spec_dev(self) -> u8 {
        self.dev
    }

    pub closed spec fn spec_func(self) -> u8 {
        self.func
    }

    /// The address with the three numbers.
    pub closed spec fn at(bus: u8, dev: u8, func: u8) -> Bdf {
        Bdf { bus, dev, func }
    }

    /// An address is its three numbers.
    pub proof fn numbers(bus: u8, dev: u8, func: u8)
        ensures
            Bdf::at(bus, dev, func).spec_bus() == bus,
            Bdf::at(bus, dev, func).spec_dev() == dev,
            Bdf::at(bus, dev, func).spec_func() == func,
    {
    }

    /// The address, or `None` when the device or function number is too
    /// large for PCI.
    pub fn new(bus: u8, dev: u8, func: u8) -> (r: Option<Bdf>)
        ensures
            r == if dev < 32 && func < 8 {
                Some(Bdf::at(bus, dev, func))
            } else {
                None
            },
            r matches Some(b) ==> b.spec_bus() == bus && b.spec_dev() == dev && b.spec_func()
                == func,
    {
        if dev < 32 && func < 8 {
            Some(Bdf { bus, dev, func })
        } else {
            None
        }
    }

    pub fn bus(&self) -> (r: u8)
        ensures
            r == self.spec_bus(),
    {
        self.bus
    }

    pub fn dev(&self) -> (r: u8)
        ensures
            r == self.spec_dev(),
            r < 32,
    {
        proof {
            use_type_invariant(self);
        }
        self.dev
    }

    pub fn func(&self) -> (r: u8)
        ensures
            r == self.spec_func(),
            r < 8,
    {
        proof {
            use_type_invariant(self);
        }
        self.func
    }
}

/// Two addresses with the same three numbers are one address.
pub proof fn bdf_determined(a: Bdf, b: Bdf)
    requires
        a.spec_bus() == b.spec_bus(),
        a.spec_dev() == b.spec_dev(),
        a.spec_func() == b.spec_func(),
    ensures
        a == b,
{
}

/// An address is the one with its three numbers.
pub proof fn bdf_is_at(b: Bdf)
    ensures
        b == Bdf::at(b.spec_bus(), b.spec_dev(), b.spec_func()),
{
}

/// The identity registers of a PCI function.
#[derive(Debug, Clone, Copy, PartialEq, Eq, Structural)]
pub struct DeviceIdent {
    pub vendor_id: u16,
    pub device_id: u16,
    pub class: u8,
    pub subclass: u8,
    pub prog_if: u8,
    pub revision: u8,
    pub sub_vendor_id: u16,
    pub sub_device_id: u16,
}

/// Which bus registrations change after a BAR or command register write: the
/// base to take off the bus first, then the base to put on it.
#[derive(Debug, Clone, Copy, PartialEq, Eq, Structural)]
pub struct MmioUpdate {
    pub unregister: Option<u64>,
    pub register: Option<u64>,
}

/// Whether a configuration write at `offset` can move or disable a BAR: the
/// command register's dword, or one of the six BAR dwords.
pub open spec fn moves_bar(offset: u8) -> bool {
    let dword = offset - offset % 4;
    dword == 0x04 || 0x10 <= dword <= 0x24
}

/// Whether a configuration write at `offset` can move or disable a BAR.
pub fn write_moves_bar(offset: u8) -> (r: bool)
    ensures
        r == moves_bar(offset),
{
    let dword: u8 = offset - offset % 4;
    dword == 0x04 || (0x10 <= dword && dword <= 0x24)
}

/// Where a memory BAR is decoded: nowhere while memory decoding is off or the
/// BAR holds no address, else at its address.
pub open spec fn decoded_at(mmio_enabled: bool, addr: Option<u64>) -> Option<u64> {
    if mmio_enabled && addr is Some && addr != Some(0u64) {
        addr
    } else {
        None
    }
}

/// Where a memory BAR is decoded.
pub fn mmio_target(mmio_enabled: bool, addr: Option<u64>) -> (r: Option<u64>)
    ensures
        r == decoded_at(mmio_enabled, addr),
{
    match addr {
        Some(a) => {
            if mmio_enabled && a != 0 {
                Some(a)
            } else {
                None
            }
        },
        None => None,
    }
}

/// The accesses that can move a BAR are those of the command register, at 4
/// to 7, and of the BARs themselves, at 0x10 to 0x27.
pub proof fn bars_are_moved_by_their_registers(offset: u8)
    ensures
        moves_bar(offset) <==> 4 <= offset < 8 || 0x10 <= offset < 0x28,
{
}

/// A BAR is decoded at its address exactly while memory decoding is on and an
/// address was written.
pub proof fn bars_decode_where_they_stand(mmio_enabled: bool, addr: Option<u64>)
    ensures
        decoded_at(mmio_enabled, addr) is Some <==> mmio_enabled && addr is Some && addr->0 != 0,
        decoded_at(mmio_enabled, addr) is Some ==> decoded_at(mmio_enabled, addr) == addr,
{
}

} // verus!
