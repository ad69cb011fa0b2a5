//! Small device-agnostic parse helpers.

use vstd::prelude::*;
use vstd::string::*;

use crate::pci::Bdf;
use crate::text::{
    begins_with, decimal, fields, owned, parse_uint, split, strip_prefix, texts, uint,
};

verus! {

/// The three numbers of a BDF text, with zero for those it leaves out: "dev",
/// "dev:func", or "bus:dev:func".
pub open spec fn bdf_numbers(s: Seq<char>) -> Option<(u8, u8, u8)> {
    let f = fields(s, ':');
    let bus = if f.len() == 3 {
        uint(f[0], 255)
    } else {
        Some(0)
    };
    let dev = if f.len() == 3 {
        uint(f[1], 255)
    } else {
        uint(f[0], 255)
    };
    let func = if f.len() == 1 {
        Some(0)
    } else {
        uint(f.last(), 255)
    };
    if f.len() <= 3 && bus is Some && dev is Some && func is Some {
        Some((bus->0 as u8, dev->0 as u8, func->0 as u8))
    } else {
        None
    }
}

/// Whether a text names a PCI function.
pub open spec fn names_bdf(s: Seq<char>) -> bool {
    match bdf_numbers(s) {
        Some((_, dev, func)) => dev < 32 && func < 8,
        None => false,
    }
}

/// Whether `b` is the function that a text names.
pub open spec fn is_bdf_of(b: Bdf, s: Seq<char>) -> bool {
    names_bdf(s) && bdf_numbers(s) == Some((b.spec_bus(), b.spec_dev(), b.spec_func()))
}

/// The PCI function that a text names, if it names one.
pub open spec fn bdf_of(s: Seq<char>) -> Option<Bdf> {
    if names_bdf(s) {
        let n = bdf_numbers(s)->0;
        Some(Bdf::at(n.0, n.1, n.2))
    } else {
        None
    }
}

fn small(s: &str) -> (r: Option<u8>)
    ensures
        match r {
            Some(n) => uint(s@, 255) == Some(n as nat),
            None => uint(s@, 255) is None,
        },
{
    match parse_uint(s, 255) {
        Some(n) => Some(n as u8),
        None => None,
    }
}

/// Parse a BDF string: "dev", "dev:func", or "bus:dev:func".
pub fn parse_bdf(s: &str) -> (r: Option<Bdf>)
    ensures
        r is Some <==> names_bdf(s@),
        r matches Some(b) ==> is_bdf_of(b, s@),
        r == bdf_of(s@),
{
    let parts = split(s, ':');
    let ghost f = fields(s@, ':');
    proof {
        assert(texts(parts@).len() == parts@.len());
        assert(forall|i: int| 0 <= i < f.len() ==> f[i] == parts@[i]@);
    }
    if parts.len() == 1 {
        match small(parts[0]) {
            Some(dev) => Bdf::new(0, dev, 0),
            None => None,
        }
    } else if parts.len() == 2 {
        match (small(parts[0]), small(parts[1])) {
            (Some(dev), Some(func)) => Bdf::new(0, dev, func),
            _ => None,
        }
    } else if parts.len() == 3 {
        match (small(parts[0]), small(parts[1]), small(parts[2])) {
            (Some(bus), Some(dev), Some(func)) => Bdf::new(bus, dev, func),
            _ => None,
        }
    } else {
        None
    }
}

/// Whether `arg` configures `device`: its name, then a comma.
pub open spec fn configures(arg: Seq<char>, device: Seq<char>) -> bool {
    begins_with(arg, device.push(','))
}

/// Extract a device config from `-l` flags (e.g. `com1,/dev/zconsole`).
///
/// The first flag that names the device wins.
pub fn find_lpc_device(lpc_args: &[String], device: &str) -> (r: Option<String>)
    ensures
        match r {
            Some(config) => exists|i: int|
                {
                    &&& 0 <= i < lpc_args@.len()
                    &&& configures(#[trigger] lpc_args@[i]@, device@)
                    &&& config@ == lpc_args@[i]@.skip(device@.len() as int + 1)
                    &&& forall|k: int|
                        0 <= k < i ==> !configures(#[trigger] lpc_args@[k]@, device@)
                },
            None => forall|i: int|
                0 <= i < lpc_args@.len() ==> !configures(#[trigger] lpc_args@[i]@, device@),
        },
{
    let mut prefix: String = owned(device);
    prefix.append(",");
    proof {
        reveal_strlit(",");
        assert(prefix@ =~= device@.push(','));
    }
    let mut i: usize = 0;
    while i < lpc_args.len()
        invariant
            i <= lpc_args@.len(),
            prefix@ == device@.push(','),
            forall|k: int| 0 <= k < i ==> !configures(#[trigger] lpc_args@[k]@, device@),
        decreases lpc_args@.len() - i,
    {
        match strip_prefix(lpc_args[i].as_str(), prefix.as_str()) {
            Some(config) => {
                return Some(owned(config));
            },
            None => {},
        }
        i += 1;
    }
    None
}

proof fn decimal_has_no_colon(n: nat, i: int)
    requires
        0 <= i < decimal(n).len(),
    ensures
        decimal(n)[i] != ':',
{
    crate::text::decimal_round_trip(n);
    assert(crate::text::is_digit(decimal(n)[i]));
}

/// An address is read as bus, device and function, the bus left out being 0
/// and the function too, and names a device where there are 32 of them with
/// eight functions each.
pub proof fn addresses_are_read_back(bus: u8, dev: u8, func: u8)
    ensures
        ({
            let d = decimal(dev as nat);
            let df = d + seq![':'] + decimal(func as nat);
            let bdf = decimal(bus as nat) + seq![':'] + df;
            &&& bdf_numbers(bdf) == Some((bus, dev, func))
            &&& bdf_numbers(df) == Some((0u8, dev, func))
            &&& bdf_numbers(d) == Some((0u8, dev, 0u8))
            &&& names_bdf(bdf) <==> dev < 32 && func < 8
        }),
{
    let b = decimal(bus as nat);
    let d = decimal(dev as nat);
    let f = decimal(func as nat);
    let df = d + seq![':'] + f;
    let bdf = b + seq![':'] + df;
    assert forall|i: int| 0 <= i < b.len() implies b[i] != ':' by {
        decimal_has_no_colon(bus as nat, i);
    }
    assert forall|i: int| 0 <= i < d.len() implies d[i] != ':' by {
        decimal_has_no_colon(dev as nat, i);
    }
    assert forall|i: int| 0 <= i < f.len() implies f[i] != ':' by {
        decimal_has_no_colon(func as nat, i);
    }
    crate::text::fields_come_off_the_front(b, ':', df);
    crate::text::fields_come_off_the_front(d, ':', f);
    crate::text::fields_come_off_the_front(f, ':', f);
    crate::text::numbers_are_read_back(bus as nat, 255, b, 0);
    crate::text::numbers_are_read_back(dev as nat, 255, d, 0);
    crate::text::numbers_are_read_back(func as nat, 255, f, 0);
    assert(fields(df, ':') =~= seq![d, f]);
    assert(fields(bdf, ':') =~= seq![b, d, f]);
    assert(fields(d, ':') =~= seq![d]);
}

/// What has four parts or more, or a part that is no number up to 255, is no
/// address.
pub proof fn other_texts_are_no_address(s: Seq<char>, i: int)
    ensures
        fields(s, ':').len() > 3 ==> bdf_numbers(s) is None,
        0 <= i < fields(s, ':').len() && fields(s, ':').len() <= 3 && uint(fields(s, ':')[i], 255)
            is None ==> bdf_numbers(s) is None,
        bdf_of(s) is Some <==> names_bdf(s),
        bdf_of(s) matches Some(b) ==> is_bdf_of(b, s),
{
    if names_bdf(s) {
        let n = bdf_numbers(s)->0;
        Bdf::numbers(n.0, n.1, n.2);
    }
}

/// An argument configures the device whose name stands in front of its first
/// comma.
pub proof fn arguments_name_their_device(device: Seq<char>, rest: Seq<char>, other: Seq<char>)
    ensures
        configures(device + seq![','] + rest, device),
        other.len() == device.len() && other != device ==> !configures(
            device + seq![','] + rest,
            other,
        ),
{
    let arg = device + seq![','] + rest;
    assert(arg.take(device.len() as int + 1) =~= device.push(','));
    if other.len() == device.len() && configures(arg, other) {
        assert(other =~= other.push(',').take(other.len() as int));
        assert(other =~= device);
    }
}

} // verus!
