//! The `-s slot,driver[,config]` grammar and each driver's config.
//!
//! One home for the text an operator types, so a device carries
//! no command-line syntax and every caller parses a spec the same way.
//! A device takes typed options. The text stops here.

use vstd::prelude::*;
use vstd::string::*;
use vstd::utf8::*;

use super::parse::{is_bdf_of, names_bdf, parse_bdf};
use crate::pci::Bdf;
use crate::text::{
    append_decimal, begins_with, decimal, fields, find, first_at, is_white, owned, parse_uint, same,
    skip, split as split_fields, strip_prefix, take, texts, trim, trimmed, uint,
};

verus! {

/// The lowest context id a guest may have. Those below are the hypervisor,
/// loopback and the host.
pub const CID_GUEST_MIN: u64 = 3;

/// The longest virtio-fs tag, in bytes.
pub const FS_TAG_LEN: usize = 36;

pub const FS_QUEUE_SIZE_MIN: u16 = 8;

pub const FS_QUEUE_SIZE_MAX: u16 = 1024;

pub const FS_QUEUE_SIZE_DEFAULT: u16 = 128;

// ---- Errors ----------------------------------------------------------------

/// Why a spec or a config was refused.
#[derive(Debug, PartialEq, Eq)]
pub enum SpecError {
    /// The spec names no driver.
    NeedDriver { spec: String },
    /// The spec's slot is not a BDF.
    BadBdf { slot: String, spec: String },
    ConsoleNeedsPath,
    ConsoleOption(String),
    VsockNeedsPath,
    VsockBadCid(String),
    VsockUnknownOption(String),
    VsockNeedsCid,
    VsockReservedCid(u64),
    FsNeedsPath,
    FsQueueSize(String),
    FsUnknownOption(String),
    FsTagTooLong(String),
    AhciNeedsPath,
    AhciOption(String),
}

/// What a refusal says.
pub ghost enum Refusal {
    NeedDriver { spec: Seq<char> },
    BadBdf { slot: Seq<char>, spec: Seq<char> },
    ConsoleNeedsPath,
    ConsoleOption(Seq<char>),
    VsockNeedsPath,
    VsockBadCid(Seq<char>),
    VsockUnknownOption(Seq<char>),
    VsockNeedsCid,
    VsockReservedCid(u64),
    FsNeedsPath,
    FsQueueSize(Seq<char>),
    FsUnknownOption(Seq<char>),
    FsTagTooLong(Seq<char>),
    AhciNeedsPath,
    AhciOption(Seq<char>),
}

impl View for SpecError {
    type V = Refusal;

    open spec fn view(&self) -> Refusal {
        match *self {
            SpecError::NeedDriver { spec } => Refusal::NeedDriver { spec: spec@ },
            SpecError::BadBdf { slot, spec } => Refusal::BadBdf { slot: slot@, spec: spec@ },
            SpecError::ConsoleNeedsPath => Refusal::ConsoleNeedsPath,
            SpecError::ConsoleOption(o) => Refusal::ConsoleOption(o@),
            SpecError::VsockNeedsPath => Refusal::VsockNeedsPath,
            SpecError::VsockBadCid(v) => Refusal::VsockBadCid(v@),
            SpecError::VsockUnknownOption(o) => Refusal::VsockUnknownOption(o@),
            SpecError::VsockNeedsCid => Refusal::VsockNeedsCid,
            SpecError::VsockReservedCid(n) => Refusal::VsockReservedCid(n),
            SpecError::FsNeedsPath => Refusal::FsNeedsPath,
            SpecError::FsQueueSize(v) => Refusal::FsQueueSize(v@),
            SpecError::FsUnknownOption(o) => Refusal::FsUnknownOption(o@),
            SpecError::FsTagTooLong(t) => Refusal::FsTagTooLong(t@),
            SpecError::AhciNeedsPath => Refusal::AhciNeedsPath,
            SpecError::AhciOption(o) => Refusal::AhciOption(o@),
        }
    }
}

impl Refusal {
    /// The refusal as an operator reads it.
    pub open spec fn text(self) -> Seq<char> {
        match self {
            Refusal::NeedDriver { spec } => "invalid PCI slot spec '"@ + spec
                + "': need slot,driver[,config]"@,
            Refusal::BadBdf { slot, spec } => "invalid BDF '"@ + slot + "' in spec '"@ + spec
                + "'"@,
            Refusal::ConsoleNeedsPath => "virtio-console requires a socket path"@,
            Refusal::ConsoleOption(o) => "virtio-console takes no options, got '"@ + o + "'"@,
            Refusal::VsockNeedsPath => "virtio-vsock requires a socket path"@,
            Refusal::VsockBadCid(v) => "virtio-vsock: bad cid '"@ + v + "'"@,
            Refusal::VsockUnknownOption(o) => "virtio-vsock: unknown option '"@ + o + "'"@,
            Refusal::VsockNeedsCid => "virtio-vsock requires cid=<n>"@,
            Refusal::VsockReservedCid(n) => "virtio-vsock cid must be 3 or above, got "@ + decimal(
                n as nat,
            ),
            Refusal::FsNeedsPath => "virtio-fs requires a host directory path"@,
            Refusal::FsQueueSize(v) => "virtio-fs queue-size must be 8..=1024, got "@ + v,
            Refusal::FsUnknownOption(o) => "virtio-fs: unknown option '"@ + o + "'"@,
            Refusal::FsTagTooLong(t) => "virtio-fs tag '"@ + t + "' exceeds 36 bytes"@,
            Refusal::AhciNeedsPath => "ahci-cd requires an ISO path"@,
            Refusal::AhciOption(o) => "ahci-cd takes no options, got '"@ + o + "'"@,
        }
    }
}

/// `before`, `middle`, and `after`, as one text.
fn joined(before: &str, middle: &str, after: &str) -> (r: String)
    ensures
        r@ == before@ + middle@ + after@,
{
    let mut r = owned(before);
    r.append(middle);
    r.append(after);
    r
}

impl SpecError {
    /// The error as an operator reads it.
    pub fn to_text(&self) -> (r: String)
        ensures
            r@ == self@.text(),
    {
        match self {
            SpecError::NeedDriver { spec } => joined(
                "invalid PCI slot spec '",
                spec.as_str(),
                "': need slot,driver[,config]",
            ),
            SpecError::BadBdf { slot, spec } => {
                let mut r = joined("invalid BDF '", slot.as_str(), "' in spec '");
                r.append(spec.as_str());
                r.append("'");
                r
            },
            SpecError::ConsoleNeedsPath => owned("virtio-console requires a socket path"),
            SpecError::ConsoleOption(o) => joined(
                "virtio-console takes no options, got '",
                o.as_str(),
                "'",
            ),
            SpecError::VsockNeedsPath => owned("virtio-vsock requires a socket path"),
            SpecError::VsockBadCid(v) => joined("virtio-vsock: bad cid '", v.as_str(), "'"),
            SpecError::VsockUnknownOption(o) => joined(
                "virtio-vsock: unknown option '",
                o.as_str(),
                "'",
            ),
            SpecError::VsockNeedsCid => owned("virtio-vsock requires cid=<n>"),
            SpecError::VsockReservedCid(n) => {
                let mut r = owned("virtio-vsock cid must be 3 or above, got ");
                append_decimal(&mut r, *n);
                r
            },
            SpecError::FsNeedsPath => owned("virtio-fs requires a host directory path"),
            SpecError::FsQueueSize(v) => {
                let mut r = owned("virtio-fs queue-size must be 8..=1024, got ");
                r.append(v.as_str());
                r
            },
            SpecError::FsUnknownOption(o) => joined("virtio-fs: unknown option '", o.as_str(), "'"),
            SpecError::FsTagTooLong(t) => joined(
                "virtio-fs tag '",
                t.as_str(),
                "' exceeds 36 bytes",
            ),
            SpecError::AhciNeedsPath => owned("ahci-cd requires an ISO path"),
            SpecError::AhciOption(o) => joined("ahci-cd takes no options, got '", o.as_str(), "'"),
        }
    }
}

// ---- The spec itself -------------------------------------------------------

/// The three text fields of a spec, before any of them is checked.
///
/// Lenient on purpose: the registry ids a spec by its slot even when
/// the driver field is missing, so the split must not refuse one.
#[derive(Debug, Clone, Copy, PartialEq, Eq)]
pub struct SpecParts<'a> {
    pub slot: &'a str,
    /// Empty when the spec has no driver field.
    pub driver: &'a str,
    /// Everything after the second comma, or empty.
    pub config: &'a str,
}

/// `s` before the first comma.
pub open spec fn head(s: Seq<char>) -> Seq<char> {
    s.take(first_at(s, ','))
}

/// `s` behind the first comma, or nothing.
pub open spec fn tail(s: Seq<char>) -> Seq<char> {
    if first_at(s, ',') < s.len() {
        s.skip(first_at(s, ',') + 1)
    } else {
        Seq::empty()
    }
}

pub open spec fn slot_of(spec: Seq<char>) -> Seq<char> {
    trimmed(head(spec))
}

pub open spec fn driver_of(spec: Seq<char>) -> Seq<char> {
    trimmed(head(tail(spec)))
}

pub open spec fn config_of(spec: Seq<char>) -> Seq<char> {
    tail(tail(spec))
}

/// `s` before and behind its first comma.
fn cut(s: &str) -> (r: (&str, &str))
    ensures
        r.0@ == head(s@),
        r.1@ == tail(s@),
{
    let len: usize = s.unicode_len();
    match find(s, ',') {
        Some(i) => (take(s, i), skip(s, i + 1)),
        None => {
            let none = skip(s, len);
            assert(none@ =~= Seq::<char>::empty());
            assert(s@.take(len as int) =~= s@);
            (s, none)
        },
    }
}

/// Split a spec into its fields.
pub fn parts(spec: &str) -> (r: SpecParts<'_>)
    ensures
        r.slot@ == slot_of(spec@),
        r.driver@ == driver_of(spec@),
        r.config@ == config_of(spec@),
{
    let (slot, rest) = cut(spec);
    let (driver, config) = cut(rest);
    SpecParts { slot: trim(slot), driver: trim(driver), config }
}

/// The id of a spec: `driver@slot`, or the slot alone when the spec names no
/// driver.
pub open spec fn id_of(spec: Seq<char>) -> Seq<char> {
    if driver_of(spec).len() == 0 {
        slot_of(spec)
    } else {
        driver_of(spec) + "@"@ + slot_of(spec)
    }
}

/// Stable, operator-facing id for a spec: `driver@slot`, or the slot
/// alone when the spec names no driver.
///
/// The slot makes it unique: the PCI bus refuses a second device at one
/// BDF, so no two specs share a slot. One rule for the boot-time attach
/// pass and for hot-add, so a device has one id however it arrived.
pub fn device_id(spec: &str) -> (r: String)
    ensures
        r@ == id_of(spec@),
{
    let p = parts(spec);
    if p.driver.unicode_len() == 0 {
        owned(p.slot)
    } else {
        joined(p.driver, "@", p.slot)
    }
}

/// Why a spec is refused: it needs a driver first, then an address.
pub open spec fn split_refusal(spec: Seq<char>) -> Option<Refusal> {
    if driver_of(spec).len() == 0 {
        Some(Refusal::NeedDriver { spec })
    } else if !names_bdf(slot_of(spec)) {
        Some(Refusal::BadBdf { slot: slot_of(spec), spec })
    } else {
        None
    }
}

/// Split a spec and resolve its address. Refuses a spec with no driver
/// field or an address that is not a BDF.
pub fn split(spec: &str) -> (r: Result<(Bdf, &str, &str), SpecError>)
    ensures
        match r {
            Ok((bdf, driver, config)) => split_refusal(spec@) is None && is_bdf_of(
                bdf,
                slot_of(spec@),
            ) && driver@ == driver_of(spec@) && config@ == config_of(spec@),
            Err(e) => split_refusal(spec@) == Some(e@),
        },
{
    let p = parts(spec);
    if p.driver.unicode_len() == 0 {
        return Err(SpecError::NeedDriver { spec: owned(spec) });
    }
    match parse_bdf(p.slot) {
        Some(bdf) => Ok((bdf, p.driver, p.config)),
        None => Err(SpecError::BadBdf { slot: owned(p.slot), spec: owned(spec) }),
    }
}

// ---- virtio-blk and nvme ---------------------------------------------------

/// Options of a block device.
#[derive(Debug, Clone, Copy, PartialEq, Eq, Structural)]
pub struct VirtioBlockOpts {
    pub nodelete: bool,
    pub read_only: bool,
    pub sector_size: u32,
    pub num_queues: Option<u16>,
}

/// The options of a config that names none.
pub open spec fn default_blk() -> VirtioBlockOpts {
    VirtioBlockOpts { nodelete: false, read_only: false, sector_size: 512, num_queues: None }
}

impl Default for VirtioBlockOpts {
    fn default() -> (r: Self)
        ensures
            r == default_blk(),
    {
        VirtioBlockOpts { nodelete: false, read_only: false, sector_size: 512, num_queues: None }
    }
}

/// The sector sizes there are: powers of two from 512 bytes to 64 KiB.
pub open spec fn is_sector_size(n: nat) -> bool {
    n == 512 || n == 1024 || n == 2048 || n == 4096 || n == 8192 || n == 16384 || n == 32768 || n
        == 65536
}

/// One option of a block device config. An unknown option, and a value that
/// is out of range, change nothing.
pub open spec fn blk_option(opts: VirtioBlockOpts, opt: Seq<char>) -> VirtioBlockOpts {
    if opt == "nodelete"@ {
        VirtioBlockOpts { nodelete: true, ..opts }
    } else if opt == "ro"@ {
        VirtioBlockOpts { read_only: true, ..opts }
    } else if begins_with(opt, "sectorsize="@) {
        match uint(opt.skip("sectorsize="@.len() as int), u32::MAX as nat) {
            Some(n) if is_sector_size(n) => VirtioBlockOpts { sector_size: n as u32, ..opts },
            _ => opts,
        }
    } else if begins_with(opt, "num-queues="@) {
        match uint(opt.skip("num-queues="@.len() as int), u16::MAX as nat) {
            Some(n) if 1 <= n <= 8 => VirtioBlockOpts { num_queues: Some(n as u16), ..opts },
            _ => opts,
        }
    } else {
        opts
    }
}

/// The options of a config, each applied behind those before it.
pub open spec fn blk_options(opts: Seq<Seq<char>>) -> VirtioBlockOpts
    decreases opts.len(),
{
    if opts.len() == 0 {
        default_blk()
    } else {
        blk_option(blk_options(opts.drop_last()), opts.last())
    }
}

fn apply_blk_option(opts: VirtioBlockOpts, opt: &str) -> (r: VirtioBlockOpts)
    ensures
        r == blk_option(opts, opt@),
{
    if same(opt, "nodelete") {
        VirtioBlockOpts { nodelete: true, ..opts }
    } else if same(opt, "ro") {
        VirtioBlockOpts { read_only: true, ..opts }
    } else if let Some(v) = strip_prefix(opt, "sectorsize=") {
        match parse_uint(v, u32::MAX as u64) {
            Some(n) => {
                if n == 512 || n == 1024 || n == 2048 || n == 4096 || n == 8192 || n == 16384 || n
                    == 32768 || n == 65536 {
                    VirtioBlockOpts { sector_size: n as u32, ..opts }
                } else {
                    opts
                }
            },
            None => opts,
        }
    } else if let Some(v) = strip_prefix(opt, "num-queues=") {
        match parse_uint(v, u16::MAX as u64) {
            Some(n) => {
                if 1 <= n && n <= 8 {
                    VirtioBlockOpts { num_queues: Some(n as u16), ..opts }
                } else {
                    opts
                }
            },
            None => opts,
        }
    } else {
        opts
    }
}

/// Parse a virtio-blk or nvme config:
/// `path[,nodelete][,ro][,sectorsize=N][,num-queues=N]`.
///
/// Unknown options are ignored so an older binary still boots a config
/// written for a newer one. A path cannot contain a comma, so the split
/// is unambiguous.
pub fn parse_blk_config(config: &str) -> (r: (&str, VirtioBlockOpts))
    ensures
        r.0@ == head(config@),
        r.1 == blk_options(fields(tail(config@), ',')),
{
    let (path, rest) = cut(config);
    let list = split_fields(rest, ',');
    let ghost all = fields(tail(config@), ',');
    let mut opts = VirtioBlockOpts {
        nodelete: false,
        read_only: false,
        sector_size: 512,
        num_queues: None,
    };
    let mut i: usize = 0;
    proof {
        assert(all == texts(list@));
        assert(all.take(0) =~= Seq::<Seq<char>>::empty());
    }
    while i < list.len()
        invariant
            i <= list@.len(),
            all == texts(list@),
            opts == blk_options(all.take(i as int)),
        decreases list@.len() - i,
    {
        opts = apply_blk_option(opts, list[i]);
        i += 1;
        proof {
            assert(all.take(i as int).drop_last() =~= all.take(i - 1));
            assert(all.take(i as int).last() == list@[i - 1]@);
        }
    }
    assert(all.take(i as int) =~= all);
    (path, opts)
}

// ---- viona -----------------------------------------------------------------

/// Whether one of the options asks for promiscuous mode.
pub open spec fn asks_promisc(opts: Seq<Seq<char>>) -> bool {
    opts.contains("promiscphys"@) || opts.contains("promiscphys=true"@)
}

fn lists_text(list: &Vec<&str>, text: &str) -> (r: bool)
    ensures
        r == texts(list@).contains(text@),
{
    let ghost all = texts(list@);
    let mut i: usize = 0;
    while i < list.len()
        invariant
            i <= list@.len(),
            all == texts(list@),
            forall|k: int| 0 <= k < i ==> all[k] != text@,
        decreases list@.len() - i,
    {
        if same(list[i], text) {
            assert(all[i as int] == text@);
            return true;
        }
        i += 1;
    }
    false
}

/// Split a viona config into the VNIC name and the promiscphys flag.
///
/// promiscphys puts the VNIC in physical promiscuous mode, which a zone
/// with MAC spoofing allowed needs.
pub fn parse_viona_config(config: &str) -> (r: (&str, bool))
    ensures
        r.0@ == head(config@),
        r.1 == asks_promisc(fields(tail(config@), ',')),
{
    let (name, rest) = cut(config);
    let list = split_fields(rest, ',');
    let promisc = lists_text(&list, "promiscphys") || lists_text(&list, "promiscphys=true");
    (name, promisc)
}

// ---- virtio-console --------------------------------------------------------

/// Why a console config is refused.
pub open spec fn console_refusal(config: Seq<char>) -> Option<Refusal> {
    let f = fields(config, ',');
    if config.len() == 0 {
        Some(Refusal::ConsoleNeedsPath)
    } else if f.len() > 1 {
        Some(Refusal::ConsoleOption(f[1]))
    } else {
        None
    }
}

/// Parse a virtio-console config, which is a socket path and nothing
/// else.
pub fn parse_console_config(config: &str) -> (r: Result<&str, SpecError>)
    ensures
        match r {
            Ok(path) => console_refusal(config@) is None && path@ == config@,
            Err(e) => console_refusal(config@) == Some(e@),
        },
{
    if config.unicode_len() == 0 {
        return Err(SpecError::ConsoleNeedsPath);
    }
    let list = split_fields(config, ',');
    let ghost f = fields(config@, ',');
    assert(f == texts(list@));
    if list.len() > 1 {
        // Rejecting unknown options stops a misspelled flag from
        // looking as though it were honored.
        assert(f[1] == list@[1]@);
        return Err(SpecError::ConsoleOption(owned(list[1])));
    }
    Ok(config)
}

// ---- virtio-vsock ----------------------------------------------------------

/// What the options of a vsock config come to: the last context id, or the
/// first refusal. Empty options are passed over.
pub open spec fn vsock_options(opts: Seq<Seq<char>>) -> Result<Option<u64>, Refusal>
    decreases opts.len(),
{
    if opts.len() == 0 {
        Ok(None)
    } else {
        let opt = opts.last();
        match vsock_options(opts.drop_last()) {
            Err(e) => Err(e),
            Ok(cid) => if opt.len() == 0 {
                Ok(cid)
            } else if begins_with(opt, "cid="@) {
                match uint(opt.skip("cid="@.len() as int), u64::MAX as nat) {
                    Some(n) => Ok(Some(n as u64)),
                    None => Err(Refusal::VsockBadCid(opt.skip("cid="@.len() as int))),
                }
            } else {
                Err(Refusal::VsockUnknownOption(opt))
            },
        }
    }
}

/// What a vsock config comes to: its path and its context id.
pub open spec fn vsock_config(config: Seq<char>) -> Result<(Seq<char>, u64), Refusal> {
    let f = fields(config, ',');
    if f[0].len() == 0 {
        Err(Refusal::VsockNeedsPath)
    } else {
        match vsock_options(f.skip(1)) {
            Err(e) => Err(e),
            Ok(None) => Err(Refusal::VsockNeedsCid),
            Ok(Some(cid)) => if cid < CID_GUEST_MIN {
                Err(Refusal::VsockReservedCid(cid))
            } else {
                Ok((f[0], cid))
            },
        }
    }
}

proof fn vsock_refusal_stays(opts: Seq<Seq<char>>, n: int)
    requires
        0 <= n <= opts.len(),
        vsock_options(opts.take(n)) is Err,
    ensures
        vsock_options(opts) == vsock_options(opts.take(n)),
    decreases opts.len() - n,
{
    if n < opts.len() {
        assert(opts.take(n + 1).drop_last() =~= opts.take(n));
        vsock_refusal_stays(opts, n + 1);
    } else {
        assert(opts.take(n) =~= opts);
    }
}

/// Parse a virtio-vsock config: `path,cid=<n>`.
///
/// The CID has no default: two guests sharing one is a routing bug
/// that only shows up under load.
pub fn parse_vsock_config(config: &str) -> (r: Result<(String, u64), SpecError>)
    ensures
        match r {
            Ok((path, cid)) => vsock_config(config@) == Ok::<(Seq<char>, u64), Refusal>(
                (path@, cid),
            ),
            Err(e) => vsock_config(config@) == Err::<(Seq<char>, u64), Refusal>(e@),
        },
{
    let list = split_fields(config, ',');
    let ghost f = fields(config@, ',');
    let ghost opts = f.skip(1);
    proof {
        assert(f == texts(list@));
        assert(f[0] == list@[0]@);
        assert(opts.take(0) =~= Seq::<Seq<char>>::empty());
    }
    if list[0].unicode_len() == 0 {
        return Err(SpecError::VsockNeedsPath);
    }
    let mut cid: Option<u64> = None;
    let mut i: usize = 1;
    while i < list.len()
        invariant
            1 <= i <= list@.len(),
            f == texts(list@),
            opts == f.skip(1),
            f == fields(config@, ','),
            f[0].len() > 0,
            vsock_options(opts.take(i - 1)) == Ok::<Option<u64>, Refusal>(cid),
        decreases list@.len() - i,
    {
        let opt = list[i];
        proof {
            assert(opts.take(i as int).drop_last() =~= opts.take(i - 1));
            assert(opts.take(i as int).last() == opt@);
        }
        i += 1;
        if opt.unicode_len() > 0 {
            match strip_prefix(opt, "cid=") {
                Some(v) => match parse_uint(v, u64::MAX) {
                    Some(n) => {
                        cid = Some(n);
                    },
                    None => {
                        proof {
                            vsock_refusal_stays(opts, i - 1);
                        }
                        return Err(SpecError::VsockBadCid(owned(v)));
                    },
                },
                None => {
                    proof {
                        vsock_refusal_stays(opts, i - 1);
                    }
                    return Err(SpecError::VsockUnknownOption(owned(opt)));
                },
            }
        }
    }
    assert(opts.take(i - 1) =~= opts);
    match cid {
        None => Err(SpecError::VsockNeedsCid),
        Some(n) => {
            if n < CID_GUEST_MIN {
                Err(SpecError::VsockReservedCid(n))
            } else {
                Ok((owned(list[0]), n))
            }
        },
    }
}

// ---- virtio-fs -------------------------------------------------------------

/// Options of a shared directory.
#[derive(Debug, PartialEq, Eq)]
pub struct VirtioFsOpts {
    pub path: String,
    pub tag: String,
    pub read_only: bool,
    pub queue_size: u16,
}

/// What the options of a shared directory have named so far.
pub ghost struct FsOptions {
    pub tag: Option<Seq<char>>,
    pub read_only: bool,
    pub queue_size: u16,
}

/// One option of a shared directory. An unknown one is a hard error.
pub open spec fn fs_option(o: FsOptions, opt: Seq<char>) -> Result<FsOptions, Refusal> {
    let number = opt.skip("queue-size="@.len() as int);
    let n = match uint(number, u32::MAX as nat) {
        Some(n) => n,
        None => 0,
    };
    if opt.len() == 0 {
        Ok(o)
    } else if begins_with(opt, "tag="@) {
        Ok(FsOptions { tag: Some(opt.skip("tag="@.len() as int)), ..o })
    } else if opt == "ro"@ {
        Ok(FsOptions { read_only: true, ..o })
    } else if begins_with(opt, "queue-size="@) {
        if FS_QUEUE_SIZE_MIN <= n <= FS_QUEUE_SIZE_MAX {
            Ok(FsOptions { queue_size: n as u16, ..o })
        } else {
            Err(Refusal::FsQueueSize(number))
        }
    } else {
        Err(Refusal::FsUnknownOption(opt))
    }
}

/// What the options come to, up to the first refusal.
pub open spec fn fs_options(opts: Seq<Seq<char>>) -> Result<FsOptions, Refusal>
    decreases opts.len(),
{
    if opts.len() == 0 {
        Ok(FsOptions { tag: None, read_only: false, queue_size: FS_QUEUE_SIZE_DEFAULT })
    } else {
        match fs_options(opts.drop_last()) {
            Err(e) => Err(e),
            Ok(o) => fs_option(o, opts.last()),
        }
    }
}

/// Whether a path component names something: an empty one and "." do not.
pub open spec fn is_named(component: Seq<char>) -> bool {
    component.len() > 0 && component != "."@
}

/// The last component that names something, unless it is the parent
/// directory.
pub open spec fn last_component(components: Seq<Seq<char>>) -> Seq<char>
    decreases components.len(),
{
    if components.len() == 0 || components.last() == ".."@ {
        Seq::empty()
    } else if is_named(components.last()) {
        components.last()
    } else {
        last_component(components.drop_last())
    }
}

/// What a shared directory config comes to.
pub open spec fn fs_config(config: Seq<char>) -> Result<(Seq<char>, FsOptions), Refusal> {
    let f = fields(config, ',');
    if f[0].len() == 0 {
        Err(Refusal::FsNeedsPath)
    } else {
        match fs_options(f.skip(1)) {
            Err(e) => Err(e),
            Ok(o) => {
                let tag = match o.tag {
                    Some(t) => t,
                    None => last_component(fields(f[0], '/')),
                };
                if encode_utf8(tag).len() > FS_TAG_LEN {
                    Err(Refusal::FsTagTooLong(tag))
                } else {
                    Ok((f[0], FsOptions { tag: Some(tag), ..o }))
                }
            },
        }
    }
}

proof fn fs_refusal_stays(opts: Seq<Seq<char>>, n: int)
    requires
        0 <= n <= opts.len(),
        fs_options(opts.take(n)) is Err,
    ensures
        fs_options(opts) == fs_options(opts.take(n)),
    decreases opts.len() - n,
{
    if n < opts.len() {
        assert(opts.take(n + 1).drop_last() =~= opts.take(n));
        fs_refusal_stays(opts, n + 1);
    } else {
        assert(opts.take(n) =~= opts);
    }
}

/// The last component of a path, or nothing.
fn file_name(path: &str) -> (r: String)
    ensures
        r@ == last_component(fields(path@, '/')),
{
    let list = split_fields(path, '/');
    let ghost all = fields(path@, '/');
    let mut n: usize = list.len();
    proof {
        assert(all == texts(list@));
        assert(all.take(n as int) =~= all);
    }
    while n > 0
        invariant
            n <= list@.len(),
            all == texts(list@),
            all == fields(path@, '/'),
            last_component(all.take(n as int)) == last_component(all),
        decreases n,
    {
        let c = list[n - 1];
        proof {
            assert(all.take(n as int).last() == c@);
            assert(all.take(n as int).drop_last() =~= all.take(n - 1));
        }
        if same(c, "..") {
            return String::new();
        }
        if c.unicode_len() > 0 && !same(c, ".") {
            return owned(c);
        }
        n -= 1;
    }
    String::new()
}

/// What the loop over the options holds.
struct FsSoFar {
    tag: Option<String>,
    read_only: bool,
    queue_size: u16,
}

impl FsSoFar {
    spec fn view(&self) -> FsOptions {
        FsOptions {
            tag: super::registry::text_of(self.tag),
            read_only: self.read_only,
            queue_size: self.queue_size,
        }
    }
}

fn apply_fs_option(o: FsSoFar, opt: &str) -> (r: Result<FsSoFar, SpecError>)
    ensures
        match r {
            Ok(n) => fs_option(o.view(), opt@) == Ok::<FsOptions, Refusal>(n.view()),
            Err(e) => fs_option(o.view(), opt@) == Err::<FsOptions, Refusal>(e@),
        },
{
    if opt.unicode_len() == 0 {
        return Ok(o);
    }
    match strip_prefix(opt, "tag=") {
        Some(v) => {
            return Ok(FsSoFar { tag: Some(owned(v)), ..o });
        },
        None => {},
    }
    if same(opt, "ro") {
        return Ok(FsSoFar { read_only: true, ..o });
    }
    match strip_prefix(opt, "queue-size=") {
        Some(v) => {
            let n: u64 = match parse_uint(v, u32::MAX as u64) {
                Some(n) => n,
                None => 0,
            };
            if FS_QUEUE_SIZE_MIN as u64 <= n && n <= FS_QUEUE_SIZE_MAX as u64 {
                Ok(FsSoFar { queue_size: n as u16, ..o })
            } else {
                Err(SpecError::FsQueueSize(owned(v)))
            }
        },
        None => Err(SpecError::FsUnknownOption(owned(opt))),
    }
}

/// Parse a virtio-fs config: `path[,tag=NAME][,ro][,queue-size=N]`.
///
/// The tag defaults to the last path component. virtio-fs has no older
/// configs to stay compatible with, so an unknown option is a hard
/// error, unlike the virtio-blk grammar.
pub fn parse_fs_config(config: &str) -> (r: Result<VirtioFsOpts, SpecError>)
    ensures
        match r {
            Ok(opts) => fs_config(config@) == Ok::<(Seq<char>, FsOptions), Refusal>(
                (
                    opts.path@,
                    FsOptions {
                        tag: Some(opts.tag@),
                        read_only: opts.read_only,
                        queue_size: opts.queue_size,
                    },
                ),
            ),
            Err(e) => fs_config(config@) == Err::<(Seq<char>, FsOptions), Refusal>(e@),
        },
{
    let list = split_fields(config, ',');
    let ghost f = fields(config@, ',');
    let ghost opts = f.skip(1);
    proof {
        assert(f == texts(list@));
        assert(f[0] == list@[0]@);
        assert(opts.take(0) =~= Seq::<Seq<char>>::empty());
    }
    if list[0].unicode_len() == 0 {
        return Err(SpecError::FsNeedsPath);
    }
    let mut o = FsSoFar { tag: None, read_only: false, queue_size: FS_QUEUE_SIZE_DEFAULT };
    let mut i: usize = 1;
    while i < list.len()
        invariant
            1 <= i <= list@.len(),
            f == texts(list@),
            opts == f.skip(1),
            f == fields(config@, ','),
            f[0].len() > 0,
            fs_options(opts.take(i - 1)) == Ok::<FsOptions, Refusal>(o.view()),
        decreases list@.len() - i,
    {
        let opt = list[i];
        proof {
            assert(opts.take(i as int).drop_last() =~= opts.take(i - 1));
            assert(opts.take(i as int).last() == opt@);
        }
        i += 1;
        match apply_fs_option(o, opt) {
            Ok(next) => {
                o = next;
            },
            Err(e) => {
                proof {
                    fs_refusal_stays(opts, i - 1);
                }
                return Err(e);
            },
        }
    }
    assert(opts.take(i - 1) =~= opts);
    let path = owned(list[0]);
    let tag: String = match o.tag {
        Some(t) => t,
        None => file_name(path.as_str()),
    };
    if tag.as_str().as_bytes().len() > FS_TAG_LEN {
        return Err(SpecError::FsTagTooLong(tag));
    }
    Ok(VirtioFsOpts { path, tag, read_only: o.read_only, queue_size: o.queue_size })
}

// ---- ahci-cd ---------------------------------------------------------------

/// The first option that is not empty.
pub open spec fn first_option(opts: Seq<Seq<char>>) -> Option<Seq<char>>
    decreases opts.len(),
{
    if opts.len() == 0 {
        None
    } else if opts[0].len() > 0 {
        Some(opts[0])
    } else {
        first_option(opts.skip(1))
    }
}

/// Why an ahci-cd config is refused.
pub open spec fn ahci_refusal(config: Seq<char>) -> Option<Refusal> {
    if config.len() == 0 {
        Some(Refusal::AhciNeedsPath)
    } else {
        match first_option(fields(config, ',').skip(1)) {
            Some(opt) => Some(Refusal::AhciOption(opt)),
            None => None,
        }
    }
}

/// Parse an ahci-cd config, which is an ISO path and nothing else.
///
/// Rejecting options prevents a read-only device from appearing to
/// honor a writable configuration.
pub fn parse_ahci_cd_path(config: &str) -> (r: Result<&str, SpecError>)
    ensures
        match r {
            Ok(path) => ahci_refusal(config@) is None && path@ == fields(config@, ',')[0],
            Err(e) => ahci_refusal(config@) == Some(e@),
        },
{
    if config.unicode_len() == 0 {
        return Err(SpecError::AhciNeedsPath);
    }
    let list = split_fields(config, ',');
    let ghost f = fields(config@, ',');
    let ghost opts = f.skip(1);
    proof {
        assert(f == texts(list@));
        assert(f[0] == list@[0]@);
        assert(opts.skip(0) =~= opts);
    }
    let mut i: usize = 1;
    while i < list.len()
        invariant
            1 <= i <= list@.len(),
            f == texts(list@),
            opts == f.skip(1),
            f == fields(config@, ','),
            config@.len() > 0,
            first_option(opts.skip(i - 1)) == first_option(opts),
        decreases list@.len() - i,
    {
        proof {
            assert(opts.skip(i - 1)[0] == list@[i as int]@);
            assert(opts.skip(i - 1).skip(1) =~= opts.skip(i as int));
        }
        if list[i].unicode_len() > 0 {
            return Err(SpecError::AhciOption(owned(list[i])));
        }
        i += 1;
    }
    assert(opts.skip(i - 1) =~= Seq::<Seq<char>>::empty());
    Ok(list[0])
}

// ---- Laws ------------------------------------------------------------------

/// A path without a comma is its own config: no option comes of it.
pub proof fn bare_path_has_no_options(path: Seq<char>)
    requires
        forall|i: int| 0 <= i < path.len() ==> path[i] != ',',
        path.len() > 0,
    ensures
        head(path) == path,
        blk_options(fields(tail(path), ',')) == default_blk(),
        !asks_promisc(fields(tail(path), ',')),
        console_refusal(path) is None,
        ahci_refusal(path) is None,
{
    crate::text::first_at_is(path, ',', path.len() as int);
    assert(path.take(path.len() as int) =~= path);
    let none = Seq::<char>::empty();
    assert(fields(none, ',') == seq![none]);
    let one = seq![none];
    reveal_strlit("nodelete");
    reveal_strlit("ro");
    reveal_strlit("sectorsize=");
    reveal_strlit("num-queues=");
    reveal_strlit("promiscphys");
    reveal_strlit("promiscphys=true");
    assert(one.drop_last() =~= Seq::<Seq<char>>::empty());
    assert(blk_options(one) == blk_option(default_blk(), none)) by {
        assert(blk_options(one.drop_last()) == default_blk());
    }
    assert(fields(path, ',') == seq![path]);
    assert(seq![path].skip(1) =~= Seq::<Seq<char>>::empty());
}

/// No config gives a guest a reserved context id.
pub proof fn vsock_cid_is_a_guests(config: Seq<char>)
    ensures
        vsock_config(config) matches Ok((_, cid)) ==> cid >= CID_GUEST_MIN,
{
}

/// A spec is a slot, a driver and what is left, between its first two commas,
/// and a device is known by driver and slot.
pub proof fn specs_are_split_at_commas(slot: Seq<char>, driver: Seq<char>, config: Seq<char>)
    requires
        forall|i: int| 0 <= i < slot.len() ==> slot[i] != ',',
        forall|i: int| 0 <= i < driver.len() ==> driver[i] != ',',
        slot.len() > 0 ==> !is_white(slot[0]) && !is_white(slot.last()),
        driver.len() > 0 ==> !is_white(driver[0]) && !is_white(driver.last()),
    ensures
        ({
            let bare = slot + seq![','] + driver;
            let spec = bare + seq![','] + config;
            &&& slot_of(spec) == slot && slot_of(bare) == slot
            &&& driver_of(spec) == driver && driver_of(bare) == driver
            &&& config_of(spec) == config
            &&& config_of(bare).len() == 0
            &&& driver.len() > 0 ==> id_of(spec) == driver + "@"@ + slot
            &&& driver.len() == 0 ==> id_of(spec) == slot
            &&& split_refusal(spec) is None <==> driver.len() > 0 && names_bdf(slot)
        }),
{
    let bare = slot + seq![','] + driver;
    let behind = driver + seq![','] + config;
    let spec = bare + seq![','] + config;
    let n = slot.len() as int;
    let m = driver.len() as int;
    assert(spec =~= slot + seq![','] + behind);
    crate::text::first_at_is(spec, ',', n);
    crate::text::first_at_is(bare, ',', n);
    crate::text::first_at_is(driver, ',', m);
    crate::text::first_at_is(behind, ',', m);
    assert(spec.take(n) =~= slot);
    assert(bare.take(n) =~= slot);
    assert(spec.skip(n + 1) =~= behind);
    assert(bare.skip(n + 1) =~= driver);
    assert(behind.take(m) =~= driver);
    assert(driver.take(m) =~= driver);
    assert(behind.skip(m + 1) =~= config);
    crate::text::trimmed_already(slot);
    crate::text::trimmed_already(driver);
    assert(tail(driver) =~= Seq::<char>::empty());
}

/// What one option does to a disk: it is kept, read only, of another sector
/// size, a power of two from 512 to 65536, or of one to eight queues. A number
/// that is out of range changes nothing, and neither does any other option.
pub proof fn disk_options_set_their_own(opts: VirtioBlockOpts, n: nat, other: Seq<char>)
    ensures
        blk_option(opts, "nodelete"@) == (VirtioBlockOpts { nodelete: true, ..opts }),
        blk_option(opts, "ro"@) == (VirtioBlockOpts { read_only: true, ..opts }),
        ({
            let after = blk_option(opts, "sectorsize="@ + decimal(n));
            let fits = n == 512 || n == 1024 || n == 2048 || n == 4096 || n == 8192 || n == 16384
                || n == 32768 || n == 65536;
            &&& fits ==> after == (VirtioBlockOpts { sector_size: n as u32, ..opts })
            &&& !fits ==> after == opts
        }),
        ({
            let after = blk_option(opts, "num-queues="@ + decimal(n));
            &&& 1 <= n <= 8 ==> after == (VirtioBlockOpts { num_queues: Some(n as u16), ..opts })
            &&& n == 0 || n > 8 ==> after == opts
        }),
        ({
            let d = default_blk();
            !d.nodelete && !d.read_only && d.sector_size == 512 && d.num_queues is None
        }),
{
    reveal_strlit("nodelete");
    reveal_strlit("ro");
    reveal_strlit("sectorsize=");
    reveal_strlit("num-queues=");
    let d = decimal(n);
    let a = "sectorsize="@;
    let b = "num-queues="@;
    assert((a + d).take(a.len() as int) =~= a);
    assert((a + d).skip(a.len() as int) =~= d);
    assert((b + d).take(b.len() as int) =~= b);
    assert((b + d).skip(b.len() as int) =~= d);
    assert((a + d)[0] == 's');
    assert((b + d)[0] == 'n' && (b + d)[1] == 'u');
    assert(("nodelete"@)[1] == 'o');
    assert(("ro"@)[0] == 'r');
    crate::text::decimal_round_trip(n);
    assert((a + d).take(b.len() as int)[0] == 's');
    crate::text::numbers_are_read_back(n, u32::MAX as nat, d, 0);
    crate::text::numbers_are_read_back(n, u16::MAX as nat, d, 0);
}

/// Options are taken in their order, so the last one stands.
pub proof fn last_disk_option_stands(opts: Seq<Seq<char>>, opt: Seq<char>)
    ensures
        blk_options(Seq::empty()) == default_blk(),
        blk_options(opts.push(opt)) == blk_option(blk_options(opts), opt),
{
    assert(opts.push(opt).drop_last() =~= opts);
}

/// A socket for the guest's address family is a path and a context id of 3 or
/// above. A lower one is reserved.
pub proof fn vsock_takes_path_and_cid(path: Seq<char>, n: nat)
    requires
        forall|i: int| 0 <= i < path.len() ==> path[i] != ',',
    ensures
        ({
            let config = path + seq![','] + ("cid="@ + decimal(n));
            &&& path.len() > 0 && 3 <= n <= u64::MAX ==> vsock_config(config) == Ok::<
                (Seq<char>, u64),
                Refusal,
            >((path, n as u64))
            &&& path.len() > 0 && n < 3 ==> vsock_config(config) == Err::<
                (Seq<char>, u64),
                Refusal,
            >(Refusal::VsockReservedCid(n as u64))
            &&& path.len() > 0 && n > u64::MAX ==> vsock_config(config) == Err::<
                (Seq<char>, u64),
                Refusal,
            >(Refusal::VsockBadCid(decimal(n)))
            &&& path.len() == 0 ==> vsock_config(config) == Err::<(Seq<char>, u64), Refusal>(
                Refusal::VsockNeedsPath,
            )
            &&& path.len() > 0 ==> vsock_config(path) == Err::<(Seq<char>, u64), Refusal>(
                Refusal::VsockNeedsCid,
            )
        }),
{
    reveal_strlit("cid=");
    let d = decimal(n);
    let c = "cid="@;
    let opt = c + d;
    let config = path + seq![','] + opt;
    crate::text::decimal_round_trip(n);
    assert forall|i: int| 0 <= i < opt.len() implies opt[i] != ',' by {
        if i >= c.len() {
            assert(crate::text::is_digit(d[i - c.len()]));
        }
    }
    crate::text::fields_come_off_the_front(path, ',', opt);
    crate::text::fields_come_off_the_front(opt, ',', opt);
    assert(fields(config, ',') =~= seq![path, opt]);
    let opts = seq![opt];
    assert(fields(config, ',').skip(1) =~= opts);
    assert(opts.drop_last() =~= Seq::<Seq<char>>::empty());
    assert(vsock_options(opts.drop_last()) == Ok::<Option<u64>, Refusal>(None));
    assert(opt.take(c.len() as int) =~= c);
    assert(opt.skip(c.len() as int) =~= d);
    crate::text::numbers_are_read_back(n, u64::MAX as nat, d, 0);
    assert(fields(path, ',').skip(1) =~= Seq::<Seq<char>>::empty());
}

/// What one option does to a shared directory: a tag, read only, or a queue
/// size from 8 to 1024, 128 without one. Any other is refused, and so is a
/// size out of range.
pub proof fn directory_options_set_their_own(o: FsOptions, n: nat, tag: Seq<char>)
    ensures
        fs_option(o, "ro"@) == Ok::<FsOptions, Refusal>(FsOptions { read_only: true, ..o }),
        fs_option(o, "tag="@ + tag) == Ok::<FsOptions, Refusal>(FsOptions { tag: Some(tag), ..o }),
        ({
            let after = fs_option(o, "queue-size="@ + decimal(n));
            &&& 8 <= n <= 1024 ==> after == Ok::<FsOptions, Refusal>(
                FsOptions { queue_size: n as u16, ..o },
            )
            &&& n < 8 || n > 1024 ==> after == Err::<FsOptions, Refusal>(
                Refusal::FsQueueSize(decimal(n)),
            )
        }),
        fs_option(o, Seq::empty()) == Ok::<FsOptions, Refusal>(o),
        fs_options(Seq::empty()) == Ok::<FsOptions, Refusal>(
            FsOptions { tag: None, read_only: false, queue_size: 128 },
        ),
{
    reveal_strlit("ro");
    reveal_strlit("tag=");
    reveal_strlit("queue-size=");
    let t = "tag="@;
    let q = "queue-size="@;
    let d = decimal(n);
    assert((t + tag).take(t.len() as int) =~= t);
    assert((t + tag).skip(t.len() as int) =~= tag);
    assert((q + d).take(q.len() as int) =~= q);
    assert((q + d).skip(q.len() as int) =~= d);
    assert((q + d)[0] == 'q');
    assert(("ro"@)[0] == 'r');
    assert(("ro"@).len() == 2);
    crate::text::decimal_round_trip(n);
    assert((q + d).take(t.len() as int)[0] == 'q');
    crate::text::numbers_are_read_back(n, u32::MAX as nat, d, 0);
}

/// A directory needs a path and a tag of at most 36 bytes; without one, the
/// last part of the path is the tag.
pub proof fn directory_tags_are_short(config: Seq<char>)
    ensures
        fs_config(config) matches Ok((path, o)) ==> {
            &&& path.len() > 0
            &&& path == fields(config, ',')[0]
            &&& o.tag is Some
            &&& encode_utf8(o.tag->0).len() <= 36
        },
{
}

/// The last part of a path is what stands behind its last slash, empty parts
/// and single dots passed over; a path that ends upwards has none.
pub proof fn last_part_names_the_directory(parts: Seq<Seq<char>>, part: Seq<char>)
    ensures
        last_component(Seq::empty()).len() == 0,
        part.len() > 0 && part != "."@ && part != ".."@ ==> last_component(parts.push(part)) == part,
        part.len() == 0 || part == "."@ ==> last_component(parts.push(part)) == last_component(
            parts,
        ),
        part == ".."@ ==> last_component(parts.push(part)).len() == 0,
{
    assert(parts.push(part).drop_last() =~= parts);
    reveal_strlit(".");
    reveal_strlit("..");
    assert(("."@).len() == 1 && (".."@).len() == 2);
}

/// A console takes a path and nothing behind it, and a disc drive only empty
/// options: the first that is not is named.
pub proof fn plain_devices_take_a_path(path: Seq<char>, opt: Seq<char>)
    requires
        forall|i: int| 0 <= i < path.len() ==> path[i] != ',',
        forall|i: int| 0 <= i < opt.len() ==> opt[i] != ',',
    ensures
        ({
            let config = path + seq![','] + opt;
            &&& console_refusal(config) == Some(Refusal::ConsoleOption(opt))
            &&& opt.len() > 0 ==> ahci_refusal(config) == Some(Refusal::AhciOption(opt))
            &&& opt.len() == 0 ==> ahci_refusal(config) is None
            &&& console_refusal(Seq::empty()) == Some(Refusal::ConsoleNeedsPath)
            &&& ahci_refusal(Seq::empty()) == Some(Refusal::AhciNeedsPath)
        }),
{
    let config = path + seq![','] + opt;
    crate::text::fields_come_off_the_front(path, ',', opt);
    crate::text::fields_come_off_the_front(opt, ',', opt);
    assert(fields(config, ',') =~= seq![path, opt]);
    assert(seq![path, opt].skip(1) =~= seq![opt]);
    assert(seq![opt].skip(1) =~= Seq::<Seq<char>>::empty());
    assert(config.len() > 0);
    let opts = seq![opt];
    assert(first_option(opts.skip(1)) is None);
}

/// A network device runs promiscuous exactly where one of its options says
/// so.
pub proof fn promiscuity_is_asked_for(opts: Seq<Seq<char>>, opt: Seq<char>)
    ensures
        !asks_promisc(Seq::empty()),
        asks_promisc(opts.push(opt)) <==> asks_promisc(opts) || opt == "promiscphys"@ || opt
            == "promiscphys=true"@,
{
    let all = opts.push(opt);
    let a = "promiscphys"@;
    let b = "promiscphys=true"@;
    assert(all.contains(a) <==> opts.contains(a) || opt == a) by {
        assert(all.last() == opt);
        if opts.contains(a) {
            let k = choose|k: int| 0 <= k < opts.len() && opts[k] == a;
            assert(all[k] == a);
        }
        if all.contains(a) {
            let k = choose|k: int| 0 <= k < all.len() && all[k] == a;
            if k < opts.len() {
                assert(opts[k] == a);
            }
        }
    }
    assert(all.contains(b) <==> opts.contains(b) || opt == b) by {
        assert(all.last() == opt);
        if opts.contains(b) {
            let k = choose|k: int| 0 <= k < opts.len() && opts[k] == b;
            assert(all[k] == b);
        }
        if all.contains(b) {
            let k = choose|k: int| 0 <= k < all.len() && all[k] == b;
            if k < opts.len() {
                assert(opts[k] == b);
            }
        }
    }
}

} // verus!
