//! fw_cfg, ACPI, and SMBIOS table emission.

use vstd::prelude::*;
use vstd::string::*;

use super::opts::VmOpts;
use super::registry::text_of;
use crate::bytes::{le16_bytes, le32_bytes, put_le16, take_bytes};
use crate::mem::{GuestMem, PhysMap};

verus! {

/// Where the legacy ACPI tables lie in guest memory.
pub const BHYVE_ACPI_BASE: u64 = 0xF2400;

/// Where a scanning guest finds a second RSDP.
pub const RSDP_SCAN_GPA: u64 = 0xE0000;

/// The size of an RSDP.
pub const RSDP_SIZE: usize = 36;

/// Linux scans 0xF0000-0xFFFFF for the "_SM_" entry point signature.
pub const SMBIOS_EP_GPA: u64 = 0xF0000;

pub const SMBIOS_TABLE_GPA: u64 = 0xF1000;

/// The CPUs that the kernel can run in one VM.
pub const VM_MAXCPU: u32 = 64;

/// Proof that the ACPI tables are already in guest memory.
///
/// A direct-boot or PVH kernel loader takes it, so the ACPI-before-kernel
/// ordering becomes a compile error to reverse instead of a comment.
#[derive(Debug, Clone, Copy)]
pub struct AcpiTables {
    rsdp_addr: u64,
}

impl AcpiTables {
    pub closed spec fn spec_rsdp_addr(&self) -> u64 {
        self.rsdp_addr
    }

    /// The one construction path. `write_legacy_acpi_tables` puts the
    /// tables at the fixed base, so the token names that address.
    pub fn at_bhyve_base() -> (r: Self)
        ensures
            r.spec_rsdp_addr() == BHYVE_ACPI_BASE,
    {
        AcpiTables { rsdp_addr: BHYVE_ACPI_BASE }
    }

    /// Guest physical address of the RSDP, for the kernel loader.
    pub fn rsdp_addr(&self) -> (r: u64)
        ensures
            r == self.spec_rsdp_addr(),
    {
        self.rsdp_addr
    }
}

/// What the ACPI tables describe.
#[derive(Debug, Clone, Copy, PartialEq, Eq, Structural)]
pub struct AcpiConfig {
    pub num_cpus: u32,
    pub max_cpus: u32,
    pub hotplug: bool,
}

impl AcpiConfig {
    /// `num_cpus` boot CPUs of `max_cpus` slots. `None` where there are fewer
    /// slots than CPUs, or more than the kernel can run: a ceiling the kernel
    /// cannot honour must not reach the guest as slots it cannot use.
    pub fn new(num_cpus: u32, max_cpus: u32) -> (r: Option<Self>)
        ensures
            r == if num_cpus <= max_cpus <= VM_MAXCPU {
                Some(AcpiConfig { num_cpus, max_cpus, hotplug: false })
            } else {
                None
            },
    {
        if num_cpus <= max_cpus && max_cpus <= VM_MAXCPU {
            Some(AcpiConfig { num_cpus, max_cpus, hotplug: false })
        } else {
            None
        }
    }

    /// A machine with no spare slots.
    pub fn boot_only(num_cpus: u32) -> (r: Self)
        ensures
            r == (AcpiConfig { num_cpus, max_cpus: num_cpus, hotplug: false }),
    {
        AcpiConfig { num_cpus, max_cpus: num_cpus, hotplug: false }
    }

    /// The same machine, with or without the hotplug interface.
    pub fn with_hotplug(self, hotplug: bool) -> (r: Self)
        ensures
            r == (AcpiConfig { hotplug, ..self }),
    {
        AcpiConfig { num_cpus: self.num_cpus, max_cpus: self.max_cpus, hotplug }
    }
}

/// The fw_cfg NB_CPUS and MAX_CPUS words.
///
/// OVMF sizes its per-CPU structures from MAX_CPUS, so that word follows
/// the slot count and not the boot CPU count.
pub fn fw_cfg_cpu_counts(cfg: &AcpiConfig) -> (r: (Vec<u8>, Vec<u8>))
    ensures
        r.0@ == le16_bytes((cfg.num_cpus % 0x1_0000) as u16),
        r.1@ == le16_bytes((cfg.max_cpus % 0x1_0000) as u16),
{
    let mut nb_cpus: Vec<u8> = Vec::new();
    put_le16(&mut nb_cpus, (cfg.num_cpus % 0x1_0000) as u16);
    let mut max_cpus: Vec<u8> = Vec::new();
    put_le16(&mut max_cpus, (cfg.max_cpus % 0x1_0000) as u16);
    assert(nb_cpus@ =~= le16_bytes((cfg.num_cpus % 0x1_0000) as u16));
    assert(max_cpus@ =~= le16_bytes((cfg.max_cpus % 0x1_0000) as u16));
    (nb_cpus, max_cpus)
}

// ---- fw_cfg entries --------------------------------------------------------

/// How the firmware asks for an entry.
#[derive(Debug, Clone, Copy, PartialEq, Eq, Structural)]
pub enum FwCfgKey {
    /// The boot CPU count.
    NbCpus,
    /// The CPU slot count.
    MaxCpus,
    E820,
    AcpiTables,
    AcpiRsdp,
    TableLoader,
    BootOrder,
    SmbiosAnchor,
    SmbiosTables,
}

impl FwCfgKey {
    pub open spec fn spec_selector(self) -> Option<u16> {
        match self {
            FwCfgKey::NbCpus => Some(0x05),
            FwCfgKey::MaxCpus => Some(0x0F),
            _ => None,
        }
    }

    /// The fixed selector of a legacy entry.
    pub fn selector(self) -> (r: Option<u16>)
        ensures
            r == self.spec_selector(),
    {
        match self {
            FwCfgKey::NbCpus => Some(0x05),
            FwCfgKey::MaxCpus => Some(0x0F),
            _ => None,
        }
    }

    pub open spec fn spec_name(self) -> Option<Seq<char>> {
        match self {
            FwCfgKey::NbCpus => None,
            FwCfgKey::MaxCpus => None,
            FwCfgKey::E820 => Some("etc/e820"@),
            FwCfgKey::AcpiTables => Some("etc/acpi/tables"@),
            FwCfgKey::AcpiRsdp => Some("etc/acpi/rsdp"@),
            FwCfgKey::TableLoader => Some("etc/table-loader"@),
            FwCfgKey::BootOrder => Some("bootorder"@),
            FwCfgKey::SmbiosAnchor => Some("etc/smbios/smbios-anchor"@),
            FwCfgKey::SmbiosTables => Some("etc/smbios/smbios-tables"@),
        }
    }

    /// The name of an entry in the directory.
    pub fn name(self) -> (r: Option<&'static str>)
        ensures
            match r {
                Some(s) => self.spec_name() == Some(s@),
                None => self.spec_name() is None,
            },
    {
        match self {
            FwCfgKey::NbCpus => None,
            FwCfgKey::MaxCpus => None,
            FwCfgKey::E820 => Some("etc/e820"),
            FwCfgKey::AcpiTables => Some("etc/acpi/tables"),
            FwCfgKey::AcpiRsdp => Some("etc/acpi/rsdp"),
            FwCfgKey::TableLoader => Some("etc/table-loader"),
            FwCfgKey::BootOrder => Some("bootorder"),
            FwCfgKey::SmbiosAnchor => Some("etc/smbios/smbios-anchor"),
            FwCfgKey::SmbiosTables => Some("etc/smbios/smbios-tables"),
        }
    }
}

/// One entry that the firmware can read.
#[derive(Debug)]
pub struct FwCfgEntry {
    pub key: FwCfgKey,
    pub data: Vec<u8>,
}

/// The tables that the firmware links and patches by itself.
pub struct FirmwareTables {
    pub e820: Vec<u8>,
    pub acpi_tables: Vec<u8>,
    pub acpi_rsdp: Vec<u8>,
    pub table_loader: Vec<u8>,
    pub bootorder: Vec<u8>,
}

/// What a list of entries holds, in its order.
pub open spec fn entries_of(v: Seq<FwCfgEntry>) -> Seq<(FwCfgKey, Seq<u8>)> {
    v.map_values(|e: FwCfgEntry| (e.key, e.data@))
}

/// The fw_cfg entries of a machine, in the order in which they are added: the
/// CPU counts, the memory map, the ACPI tables with the commands that link
/// them, and the boot order, which arrives already encoded.
pub fn fwcfg_entries(cfg: &AcpiConfig, tables: FirmwareTables) -> (r: Vec<FwCfgEntry>)
    ensures
        entries_of(r@) == seq![
            (FwCfgKey::NbCpus, le16_bytes((cfg.num_cpus % 0x1_0000) as u16)),
            (FwCfgKey::MaxCpus, le16_bytes((cfg.max_cpus % 0x1_0000) as u16)),
            (FwCfgKey::E820, tables.e820@),
            (FwCfgKey::AcpiTables, tables.acpi_tables@),
            (FwCfgKey::AcpiRsdp, tables.acpi_rsdp@),
            (FwCfgKey::TableLoader, tables.table_loader@),
            (FwCfgKey::BootOrder, tables.bootorder@),
        ],
{
    let (nb_cpus, max_cpus) = fw_cfg_cpu_counts(cfg);
    let mut r: Vec<FwCfgEntry> = Vec::new();
    r.push(FwCfgEntry { key: FwCfgKey::NbCpus, data: nb_cpus });
    r.push(FwCfgEntry { key: FwCfgKey::MaxCpus, data: max_cpus });
    r.push(FwCfgEntry { key: FwCfgKey::E820, data: tables.e820 });
    r.push(FwCfgEntry { key: FwCfgKey::AcpiTables, data: tables.acpi_tables });
    r.push(FwCfgEntry { key: FwCfgKey::AcpiRsdp, data: tables.acpi_rsdp });
    r.push(FwCfgEntry { key: FwCfgKey::TableLoader, data: tables.table_loader });
    r.push(FwCfgEntry { key: FwCfgKey::BootOrder, data: tables.bootorder });
    assert(entries_of(r@) =~= seq![
        (FwCfgKey::NbCpus, le16_bytes((cfg.num_cpus % 0x1_0000) as u16)),
        (FwCfgKey::MaxCpus, le16_bytes((cfg.max_cpus % 0x1_0000) as u16)),
        (FwCfgKey::E820, tables.e820@),
        (FwCfgKey::AcpiTables, tables.acpi_tables@),
        (FwCfgKey::AcpiRsdp, tables.acpi_rsdp@),
        (FwCfgKey::TableLoader, tables.table_loader@),
        (FwCfgKey::BootOrder, tables.bootorder@),
    ]);
    r
}

// ---- Legacy ACPI -----------------------------------------------------------

/// Guest memory with the legacy ACPI tables in it: their RSDP in the BIOS scan
/// area too, where they are long enough to hold one.
pub open spec fn with_acpi_tables(mem: GuestMem, tables: Seq<u8>) -> GuestMem {
    let scanned = if tables.len() >= RSDP_SIZE {
        mem.store(RSDP_SCAN_GPA as int, tables.take(RSDP_SIZE as int))
    } else {
        mem
    };
    scanned.store(BHYVE_ACPI_BASE as int, tables)
}

/// Place legacy ACPI tables and their RSDP in guest memory, for both UEFI and
/// BIOS discovery paths. A range that is not mapped is left out. Says of each
/// of the two whether it was written.
pub fn write_legacy_acpi_tables(mem: &mut PhysMap, tables: &[u8]) -> (r: (bool, bool))
    requires
        old(mem).wf(),
    ensures
        final(mem).wf(),
        final(mem)@ == with_acpi_tables(old(mem)@, tables@),
        r.0 == (tables@.len() >= RSDP_SIZE && old(mem)@.maps(
            RSDP_SCAN_GPA as int,
            RSDP_SIZE as int,
        )),
        r.1 == old(mem)@.maps(BHYVE_ACPI_BASE as int, tables@.len() as int),
{
    // A second RSDP is easier for a scanning guest to find.
    let mut scanned = false;
    if tables.len() >= RSDP_SIZE {
        let rsdp = take_bytes(tables, RSDP_SIZE);
        scanned = mem.write_bytes(RSDP_SCAN_GPA, rsdp.as_slice());
    }
    assert(mem@.spans == old(mem)@.spans);
    assert(mem@.maps(BHYVE_ACPI_BASE as int, tables@.len() as int) == old(mem)@.maps(
        BHYVE_ACPI_BASE as int,
        tables@.len() as int,
    ));
    // The full tables go to the legacy base for non-UEFI and direct-mapped
    // scenarios.
    let placed = mem.write_bytes(BHYVE_ACPI_BASE, tables);
    (scanned, placed)
}

// ---- SMBIOS ----------------------------------------------------------------

/// What the SMBIOS tables say of the machine.
#[derive(Debug)]
pub struct SmbiosConfig {
    pub vm_name: String,
    pub uuid: Option<String>,
    pub num_cpus: u32,
    pub memory_mb: u64,
    pub manufacturer: Option<String>,
    pub product: Option<String>,
    pub version: Option<String>,
    pub serial: Option<String>,
    pub sku: Option<String>,
    pub family: Option<String>,
}

/// What an operator can set of the SMBIOS tables.
#[derive(Debug)]
pub struct SmbiosStrings {
    pub manufacturer: Option<String>,
    pub product: Option<String>,
    pub version: Option<String>,
    pub serial: Option<String>,
    pub sku: Option<String>,
    pub family: Option<String>,
}

/// What the SMBIOS tables say: the machine describes itself, and the operator
/// sets the rest. Without a flag of the operator's nothing of it is set.
pub fn smbios_config(
    opts: &VmOpts,
    flag: Option<SmbiosStrings>,
    num_cpus: u32,
    mem_size: u64,
) -> (r: SmbiosConfig)
    ensures
        r.vm_name@ == opts.vm_name@,
        text_of(r.uuid) == text_of(opts.uuid),
        r.num_cpus == num_cpus,
        r.memory_mb == mem_size / 0x10_0000,
        match flag {
            Some(f) => {
                &&& r.manufacturer == f.manufacturer
                &&& r.product == f.product
                &&& r.version == f.version
                &&& r.serial == f.serial
                &&& r.sku == f.sku
                &&& r.family == f.family
            },
            None => {
                &&& r.manufacturer is None
                &&& r.product is None
                &&& r.version is None
                &&& r.serial is None
                &&& r.sku is None
                &&& r.family is None
            },
        },
{
    let vm_name = opts.vm_name.clone();
    let uuid = match &opts.uuid {
        Some(uuid) => Some(uuid.clone()),
        None => None,
    };
    let memory_mb: u64 = mem_size / 0x10_0000;
    match flag {
        Some(f) => SmbiosConfig {
            vm_name,
            uuid,
            num_cpus,
            memory_mb,
            manufacturer: f.manufacturer,
            product: f.product,
            version: f.version,
            serial: f.serial,
            sku: f.sku,
            family: f.family,
        },
        None => SmbiosConfig {
            vm_name,
            uuid,
            num_cpus,
            memory_mb,
            manufacturer: None,
            product: None,
            version: None,
            serial: None,
            sku: None,
            family: None,
        },
    }
}

/// The room for the structure table: it has to stay clear of the legacy ACPI
/// tables right above it.
pub const SMBIOS_WINDOW: u64 = 0x1400;

/// The sum of some bytes.
pub open spec fn byte_sum(s: Seq<u8>) -> nat
    decreases s.len(),
{
    if s.len() == 0 {
        0
    } else {
        byte_sum(s.drop_last()) + s.last() as nat
    }
}

/// The byte that brings a sum to 0.
pub open spec fn balance(sum: nat) -> u8 {
    ((0x100 - sum % 0x100) % 0x100) as u8
}

/// The bytes with the one at `at` chosen so that those of `from..to` add up
/// to 0.
pub open spec fn balanced(s: Seq<u8>, at: int, from: int, to: int) -> Seq<u8> {
    s.update(at, balance(byte_sum(s.update(at, 0).subrange(from, to))))
}

/// The entry point with the structure table's address and both checksums set,
/// where it is long enough to hold them.
pub open spec fn pointed(ep: Seq<u8>) -> Seq<u8> {
    if ep.len() >= 0x1F {
        let addr = le32_bytes(SMBIOS_TABLE_GPA as u32);
        let placed = ep.update(0x18, addr[0]).update(0x19, addr[1]).update(0x1A, addr[2]).update(
            0x1B,
            addr[3],
        );
        balanced(balanced(placed, 0x15, 0x10, 0x1F), 0x04, 0x00, 0x10)
    } else {
        ep
    }
}

/// The sum of the bytes `from..to`, modulo 256.
fn sum_of(s: &Vec<u8>, from: usize, to: usize) -> (r: u8)
    requires
        from <= to <= s@.len(),
    ensures
        r == byte_sum(s@.subrange(from as int, to as int)) % 0x100,
{
    let mut sum: u8 = 0;
    let mut i: usize = from;
    assert(s@.subrange(from as int, from as int) =~= Seq::<u8>::empty());
    while i < to
        invariant
            from <= i <= to,
            to <= s@.len(),
            sum == byte_sum(s@.subrange(from as int, i as int)) % 0x100,
        decreases to - i,
    {
        proof {
            let part = s@.subrange(from as int, i + 1);
            assert(part.drop_last() =~= s@.subrange(from as int, i as int));
            assert(part.last() == s@[i as int]);
        }
        sum = ((sum as u32 + s[i] as u32) % 0x100) as u8;
        i += 1;
    }
    sum
}

/// Set the byte at `at` so that those of `from..to` add up to 0.
fn balance_at(s: &mut Vec<u8>, at: usize, from: usize, to: usize)
    requires
        from <= at < to <= old(s)@.len(),
    ensures
        final(s)@ == balanced(old(s)@, at as int, from as int, to as int),
{
    s[at] = 0;
    let sum: u8 = sum_of(s, from, to);
    s[at] = ((0x100 - sum as u32) % 0x100) as u8;
    assert(s@ =~= balanced(old(s)@, at as int, from as int, to as int));
}

/// Point the entry point at the structure table, and balance both of its
/// checksums again. One that is too short is left as it is.
pub fn point_entry(ep: &mut Vec<u8>)
    ensures
        final(ep)@ == pointed(old(ep)@),
{
    if ep.len() < 0x1F {
        return;
    }
    // The structure table address, low byte first.
    let addr: u32 = SMBIOS_TABLE_GPA as u32;
    ep[0x18] = (addr % 0x100) as u8;
    ep[0x19] = (addr / 0x100 % 0x100) as u8;
    ep[0x1A] = (addr / 0x1_0000 % 0x100) as u8;
    ep[0x1B] = (addr / 0x100_0000) as u8;
    // The intermediate checksum, then that of the entry point.
    balance_at(ep, 0x15, 0x10, 0x1F);
    balance_at(ep, 0x04, 0x00, 0x10);
}

/// Write the SMBIOS structure table and then the entry point that points at
/// it to the legacy scan area. A range that is not mapped is left out. Says of
/// each of the two whether it was written.
pub fn write_smbios_tables(mem: &mut PhysMap, anchor: Vec<u8>, tables: &[u8]) -> (r: (bool, bool))
    requires
        old(mem).wf(),
    ensures
        final(mem).wf(),
        final(mem)@ == old(mem)@.store(SMBIOS_TABLE_GPA as int, tables@).store(
            SMBIOS_EP_GPA as int,
            pointed(anchor@),
        ),
        r.0 == old(mem)@.maps(SMBIOS_TABLE_GPA as int, tables@.len() as int),
        r.1 == old(mem)@.maps(SMBIOS_EP_GPA as int, anchor@.len() as int),
{
    let placed = mem.write_bytes(SMBIOS_TABLE_GPA, tables);
    let mut ep = anchor;
    point_entry(&mut ep);
    let found = mem.write_bytes(SMBIOS_EP_GPA, ep.as_slice());
    (placed, found)
}

/// Every table that the machine is given, already generated.
pub struct GeneratedTables {
    /// What the firmware links and patches by itself.
    pub firmware: FirmwareTables,
    /// The tables with their addresses filled in.
    pub legacy: Vec<u8>,
    pub smbios_anchor: Vec<u8>,
    pub smbios_tables: Vec<u8>,
}

/// Set up the fw_cfg entries with the E820 memory map, ACPI tables (both
/// table-loader protocol and legacy addresses), SMBIOS tables, and boot order,
/// and put the legacy tables in guest memory.
///
/// `None` for a CPU ceiling the kernel cannot honour: it must stop the boot
/// here, not reach the guest as slots it cannot use.
pub fn setup_fwcfg_and_acpi(
    mem: &mut PhysMap,
    opts: &VmOpts,
    num_cpus: u32,
    tables: GeneratedTables,
) -> (r: Option<(Vec<FwCfgEntry>, AcpiTables)>)
    requires
        old(mem).wf(),
    ensures
        final(mem).wf(),
        r is Some <==> num_cpus <= opts.max_cpus <= VM_MAXCPU,
        r is None ==> final(mem)@ == old(mem)@,
        r matches Some((entries, token)) ==> {
            &&& token.spec_rsdp_addr() == BHYVE_ACPI_BASE
            &&& entries_of(entries@) == seq![
                (FwCfgKey::NbCpus, le16_bytes(num_cpus as u16)),
                (FwCfgKey::MaxCpus, le16_bytes(opts.max_cpus as u16)),
                (FwCfgKey::E820, tables.firmware.e820@),
                (FwCfgKey::AcpiTables, tables.firmware.acpi_tables@),
                (FwCfgKey::AcpiRsdp, tables.firmware.acpi_rsdp@),
                (FwCfgKey::TableLoader, tables.firmware.table_loader@),
                (FwCfgKey::BootOrder, tables.firmware.bootorder@),
                (FwCfgKey::SmbiosAnchor, tables.smbios_anchor@),
                (FwCfgKey::SmbiosTables, tables.smbios_tables@),
            ]
            &&& final(mem)@ == with_acpi_tables(old(mem)@, tables.legacy@).store(
                SMBIOS_TABLE_GPA as int,
                tables.smbios_tables@,
            ).store(SMBIOS_EP_GPA as int, pointed(tables.smbios_anchor@))
        },
{
    let cfg = match AcpiConfig::new(num_cpus, opts.max_cpus) {
        Some(cfg) => cfg.with_hotplug(opts.hotplug),
        None => {
            return None;
        },
    };
    let ghost first = seq![
        (FwCfgKey::NbCpus, le16_bytes(num_cpus as u16)),
        (FwCfgKey::MaxCpus, le16_bytes(opts.max_cpus as u16)),
        (FwCfgKey::E820, tables.firmware.e820@),
        (FwCfgKey::AcpiTables, tables.firmware.acpi_tables@),
        (FwCfgKey::AcpiRsdp, tables.firmware.acpi_rsdp@),
        (FwCfgKey::TableLoader, tables.firmware.table_loader@),
        (FwCfgKey::BootOrder, tables.firmware.bootorder@),
    ];
    let mut entries = fwcfg_entries(&cfg, tables.firmware);
    assert(entries_of(entries@) == first);
    let _ = write_legacy_acpi_tables(mem, tables.legacy.as_slice());
    let anchor = take_bytes(tables.smbios_anchor.as_slice(), tables.smbios_anchor.len());
    let _ = write_smbios_tables(mem, anchor, tables.smbios_tables.as_slice());
    let ghost before = entries@;
    entries.push(FwCfgEntry { key: FwCfgKey::SmbiosAnchor, data: tables.smbios_anchor });
    entries.push(FwCfgEntry { key: FwCfgKey::SmbiosTables, data: tables.smbios_tables });
    proof {
        assert(anchor@ =~= tables.smbios_anchor@);
        assert(entries_of(entries@) =~= first.push(
            (FwCfgKey::SmbiosAnchor, tables.smbios_anchor@),
        ).push((FwCfgKey::SmbiosTables, tables.smbios_tables@))) by {
            assert(entries_of(before) == first);
            assert forall|i: int| 0 <= i < 7 implies entries_of(entries@)[i] == first[i] by {
                assert(entries@[i] == before[i]);
                assert(entries_of(before)[i] == first[i]);
            }
        }
    }
    Some((entries, AcpiTables::at_bhyve_base()))
}

// ---- Laws ------------------------------------------------------------------

proof fn sum_of_update(s: Seq<u8>, at: int, v: u8)
    requires
        0 <= at < s.len(),
    ensures
        byte_sum(s.update(at, v)) + s[at] == byte_sum(s) + v,
    decreases s.len(),
{
    if at == s.len() - 1 {
        assert(s.update(at, v).drop_last() =~= s.drop_last());
    } else {
        assert(s.update(at, v).drop_last() =~= s.drop_last().update(at, v));
        sum_of_update(s.drop_last(), at, v);
    }
}

/// A balanced range adds up to 0 modulo 256.
pub proof fn balanced_range_is_zero(s: Seq<u8>, at: int, from: int, to: int)
    requires
        0 <= from <= at < to <= s.len(),
    ensures
        byte_sum(balanced(s, at, from, to).subrange(from, to)) % 0x100 == 0,
{
    let zero = s.update(at, 0).subrange(from, to);
    let sum = byte_sum(zero);
    let done = balanced(s, at, from, to).subrange(from, to);
    assert(done =~= zero.update(at - from, balance(sum)));
    sum_of_update(zero, at - from, balance(sum));
    assert(byte_sum(done) == sum + balance(sum));
}

/// An entry point that is long enough names the structure table, and a guest
/// that adds up either of its checksums finds 0.
pub proof fn entry_point_is_valid(ep: Seq<u8>)
    requires
        ep.len() >= 0x1F,
    ensures
        pointed(ep).len() == ep.len(),
        pointed(ep).subrange(0x18, 0x1C) == le32_bytes(SMBIOS_TABLE_GPA as u32),
        byte_sum(pointed(ep).subrange(0x10, 0x1F)) % 0x100 == 0,
        byte_sum(pointed(ep).subrange(0x00, 0x10)) % 0x100 == 0,
{
    let addr = le32_bytes(SMBIOS_TABLE_GPA as u32);
    let placed = ep.update(0x18, addr[0]).update(0x19, addr[1]).update(0x1A, addr[2]).update(
        0x1B,
        addr[3],
    );
    let half = balanced(placed, 0x15, 0x10, 0x1F);
    balanced_range_is_zero(placed, 0x15, 0x10, 0x1F);
    balanced_range_is_zero(half, 0x04, 0x00, 0x10);
    assert(pointed(ep).subrange(0x10, 0x1F) =~= half.subrange(0x10, 0x1F));
    assert(pointed(ep).subrange(0x18, 0x1C) =~= addr);
}

/// The entry point, the structure table and the ACPI tables lie in this order
/// below the first megabyte, and a structure table that keeps to its window
/// stays clear of the ACPI tables.
pub proof fn tables_keep_apart(tables: Seq<u8>)
    requires
        tables.len() <= SMBIOS_WINDOW,
    ensures
        SMBIOS_EP_GPA < SMBIOS_TABLE_GPA < BHYVE_ACPI_BASE < 0x10_0000,
        SMBIOS_TABLE_GPA + tables.len() <= BHYVE_ACPI_BASE,
{
}

/// Firmware finds the ACPI tables at 0xF2400, and their root pointer once more
/// at 0xE0000 where it scans for it, as far as memory is there.
pub proof fn acpi_tables_are_found(mem: GuestMem, tables: Seq<u8>)
    requires
        mem.whole(),
        mem.maps(0xF2400, tables.len() as int),
        mem.maps(0xE0000, 36),
    ensures
        with_acpi_tables(mem, tables).read(0xF2400, tables.len() as int) == tables,
        tables.len() >= 36 ==> with_acpi_tables(mem, tables).read(0xE0000, 36) == tables.take(36),
        tables.len() < 36 ==> with_acpi_tables(mem, tables).read(0xE0000, 36) == mem.read(
            0xE0000,
            36,
        ),
{
    let after = with_acpi_tables(mem, tables);
    let first = tables.take(36);
    let scanned = if tables.len() >= 36 {
        mem.store(0xE0000, first)
    } else {
        mem
    };
    let n = tables.len() as int;
    let i = choose|i: int|
        0 <= i < mem.spans.len() && (#[trigger] mem.spans[i]).0 <= 0xF2400 && 0xF2400 + n
            <= mem.spans[i].0 + mem.spans[i].1;
    let j = choose|j: int|
        0 <= j < mem.spans.len() && (#[trigger] mem.spans[j]).0 <= 0xE0000 && 0xE0000 + 36
            <= mem.spans[j].0 + mem.spans[j].1;
    assert(scanned.spans == mem.spans);
    assert(scanned.maps(0xF2400, n)) by {
        assert(scanned.spans[i].0 <= 0xF2400);
    }
    assert forall|k: int| 0 <= k < n implies after.byte[0xF2400 + k] == tables[k] by {
        assert(mem.spans[i].0 <= 0xF2400 + k < mem.spans[i].0 + mem.spans[i].1);
        assert(mem.byte.dom().contains(0xF2400 + k));
    }
    assert forall|k: int| 0 <= k < 36 implies after.byte[0xE0000 + k] == if tables.len() >= 36 {
        first[k]
    } else {
        mem.byte[0xE0000 + k]
    } by {
        assert(mem.spans[j].0 <= 0xE0000 + k < mem.spans[j].0 + mem.spans[j].1);
        assert(mem.byte.dom().contains(0xE0000 + k));
    }
    assert(after.read(0xF2400, n) =~= tables);
    if tables.len() >= 36 {
        assert(after.read(0xE0000, 36) =~= first);
    } else {
        assert(after.read(0xE0000, 36) =~= mem.read(0xE0000, 36));
    }
}

/// The entry point that the guest finds points at the tables, at 0xF1000, and
/// keeps every other byte but its two checksums. A short one is left alone.
pub proof fn entry_point_leads_to_the_tables(ep: Seq<u8>, i: int)
    requires
        0 <= i < ep.len(),
    ensures
        ep.len() >= 0x1F ==> {
            let p = pointed(ep);
            &&& p[0x18] + 0x100 * p[0x19] + 0x1_0000 * p[0x1A] + 0x100_0000 * p[0x1B] == 0xF1000
            &&& i != 0x04 && i != 0x15 && !(0x18 <= i < 0x1C) ==> p[i] == ep[i]
        },
        ep.len() < 0x1F ==> pointed(ep) == ep,
{
}

/// A firmware entry is found by a number or by a name and never by both: the
/// CPU counts at 5 and 15, the files by their paths.
pub proof fn entries_are_found_one_way(key: FwCfgKey)
    ensures
        key.spec_selector() is Some <==> key.spec_name() is None,
        key.spec_selector() == Some(5u16) <==> key == FwCfgKey::NbCpus,
        key.spec_selector() == Some(15u16) <==> key == FwCfgKey::MaxCpus,
        key.spec_selector() matches Some(n) ==> n == 5 || n == 15,
{
}

/// A VM has at most 64 CPUs, and at least as many slots as CPUs; hotplug is
/// asked for apart from that. The counts reach the firmware as two bytes each,
/// the lowest first.
pub proof fn cpu_counts_are_checked(
    num_cpus: u32,
    max_cpus: u32,
    r: Option<AcpiConfig>,
    counts: (Vec<u8>, Vec<u8>),
)
    requires
        call_ensures(AcpiConfig::new, (num_cpus, max_cpus), r),
        r matches Some(cfg) ==> call_ensures(fw_cfg_cpu_counts, (&cfg,), counts),
    ensures
        r is Some <==> num_cpus <= max_cpus && max_cpus <= 64,
        r matches Some(cfg) ==> {
            &&& cfg.num_cpus == num_cpus && cfg.max_cpus == max_cpus && !cfg.hotplug
            &&& counts.0@.len() == 2 && counts.1@.len() == 2
            &&& counts.0@[0] == num_cpus && counts.0@[1] == 0
            &&& counts.1@[0] == max_cpus && counts.1@[1] == 0
        },
{
}

} // verus!
