//! What the firmware is given.

use vmm::mem::PhysMap;
use vmm::machine::firmware::{
    fw_cfg_cpu_counts, fwcfg_entries, point_entry, setup_fwcfg_and_acpi, smbios_config,
    write_legacy_acpi_tables, write_smbios_tables, AcpiConfig, AcpiTables, FirmwareTables,
    GeneratedTables, SmbiosStrings, BHYVE_ACPI_BASE, RSDP_SCAN_GPA, SMBIOS_EP_GPA, SMBIOS_TABLE_GPA,
};
use vmm::machine::opts::VmOpts;

#[test]
fn acpi_tables_token_names_the_bhyve_rsdp_base() {
    // The token is the kernel loader's proof that the tables are
    // already in guest memory, so it must carry the same address
    // write_legacy_acpi_tables placed them at.
    assert_eq!(AcpiTables::at_bhyve_base().rsdp_addr(), BHYVE_ACPI_BASE);
}

#[test]
fn fw_cfg_max_cpus_follows_the_madt_slot_count() {
        let cfg = AcpiConfig::new(2, 8).expect("2 boot CPUs of 8 slots");
    let (nb_cpus, max_cpus) = fw_cfg_cpu_counts(&cfg);
    assert_eq!(nb_cpus, 2u16.to_le_bytes());
    assert_eq!(max_cpus, 8u16.to_le_bytes());

    // A VM with no spare slots gets two equal words.
    let (nb_cpus, max_cpus) = fw_cfg_cpu_counts(&AcpiConfig::boot_only(4));
    assert_eq!(nb_cpus, 4u16.to_le_bytes());
    assert_eq!(nb_cpus, max_cpus);
}

#[test]
fn smbios_entry_point_precedes_its_tables() {
    // Linux scans 0xF0000..0xFFFFF for "_SM_". The entry point must
    // sit below the table blob it points at, in the same window.
    assert!(SMBIOS_EP_GPA < SMBIOS_TABLE_GPA);
    assert!(SMBIOS_TABLE_GPA < 0x10_0000);
}

#[test]
fn a_ceiling_the_kernel_cannot_honour_is_refused() {
    assert!(AcpiConfig::new(2, 65).is_none());
    assert!(AcpiConfig::new(4, 2).is_none());
    let cfg = AcpiConfig::new(2, 64).expect("64 slots");
    assert!(cfg.with_hotplug(true).hotplug);
}

fn sum(bytes: &[u8]) -> u8 {
    bytes.iter().fold(0u8, |a, b| a.wrapping_add(*b))
}

#[test]
fn the_entry_point_names_its_tables_and_adds_up() {
    let mut ep: Vec<u8> = (0..0x1Fu8).map(|b| b.wrapping_mul(37)).collect();
    point_entry(&mut ep);
    assert_eq!(&ep[0x18..0x1C], (SMBIOS_TABLE_GPA as u32).to_le_bytes());
    assert_eq!(sum(&ep[0x10..0x1F]), 0);
    assert_eq!(sum(&ep[0x00..0x10]), 0);

    // One that is too short is left alone.
    let mut short = vec![1u8; 0x1E];
    point_entry(&mut short);
    assert_eq!(short, vec![1u8; 0x1E]);
}

#[test]
fn the_tables_reach_guest_memory() {
    let mut mem = PhysMap::new_anon(0xE0000, 0x20000).expect("guest memory");
    let tables: Vec<u8> = (0..100u8).collect();
    assert_eq!(write_legacy_acpi_tables(&mut mem, &tables), (true, true));
    assert_eq!(mem.read_bytes(RSDP_SCAN_GPA, 36), Some(tables[..36].to_vec()));
    assert_eq!(mem.read_bytes(BHYVE_ACPI_BASE, 100), Some(tables.clone()));

    let anchor = vec![0x5Fu8; 0x1F];
    assert_eq!(write_smbios_tables(&mut mem, anchor, &[7, 8, 9]), (true, true));
    assert_eq!(mem.read_bytes(SMBIOS_TABLE_GPA, 3), Some(vec![7, 8, 9]));
    let ep = mem.read_bytes(SMBIOS_EP_GPA, 0x1F).expect("mapped");
    assert_eq!(sum(&ep[0x10..]), 0);

    // A range that is not mapped is left out.
    let mut low = PhysMap::new_anon(0xE0000, 0x1000).expect("guest memory");
    assert_eq!(write_legacy_acpi_tables(&mut low, &tables), (true, false));
    assert_eq!(write_legacy_acpi_tables(&mut low, &tables[..35]), (false, false));
}

fn opts() -> VmOpts {
    VmOpts {
        vm_name: "guest".to_string(),
        uuid: Some("u-1".to_string()),
        num_cpus: 2,
        max_cpus: 8,
        mem_size: 1 << 30,
        hotplug: true,
        max_mem: None,
        mem_slot_size: None,
        smbios: None,
    }
}

#[test]
fn the_machine_describes_itself_in_smbios() {
    let plain = smbios_config(&opts(), None, 2, 512 << 20);
    assert_eq!(plain.vm_name, "guest");
    assert_eq!(plain.uuid.as_deref(), Some("u-1"));
    assert_eq!((plain.num_cpus, plain.memory_mb), (2, 512));
    assert!(plain.manufacturer.is_none());

    let flag = SmbiosStrings {
        manufacturer: Some("ACME".to_string()),
        product: None,
        version: Some("1".to_string()),
        serial: None,
        sku: None,
        family: None,
    };
    let set = smbios_config(&opts(), Some(flag), 4, 3 << 20);
    assert_eq!(set.manufacturer.as_deref(), Some("ACME"));
    assert_eq!(set.version.as_deref(), Some("1"));
    assert_eq!((set.num_cpus, set.memory_mb), (4, 3));
}

#[test]
fn the_firmware_finds_its_entries() {
    let tables = FirmwareTables {
        e820: vec![1],
        acpi_tables: vec![2],
        acpi_rsdp: vec![3],
        table_loader: vec![4],
        bootorder: vec![5],
    };
    let cfg = AcpiConfig::new(2, 8).expect("2 boot CPUs of 8 slots");
    let entries = fwcfg_entries(&cfg, tables);
    let keys: Vec<(Option<u16>, Option<&str>, Vec<u8>)> = entries
        .into_iter()
        .map(|e| (e.key.selector(), e.key.name(), e.data))
        .collect();
    assert_eq!(
        keys,
        [
            (Some(0x05), None, vec![2, 0]),
            (Some(0x0F), None, vec![8, 0]),
            (None, Some("etc/e820"), vec![1]),
            (None, Some("etc/acpi/tables"), vec![2]),
            (None, Some("etc/acpi/rsdp"), vec![3]),
            (None, Some("etc/table-loader"), vec![4]),
            (None, Some("bootorder"), vec![5]),
        ]
    );
}

#[test]
fn the_firmware_phase_leaves_tables_and_entries() {
    let generated = || GeneratedTables {
        firmware: FirmwareTables {
            e820: vec![1],
            acpi_tables: vec![2],
            acpi_rsdp: vec![3],
            table_loader: vec![4],
            bootorder: vec![5],
        },
        legacy: vec![6; 40],
        smbios_anchor: vec![7; 0x1F],
        smbios_tables: vec![8, 9],
    };
    let mut mem = PhysMap::new_anon(0xE0000, 0x20000).expect("guest memory");
    let (entries, token) =
        setup_fwcfg_and_acpi(&mut mem, &opts(), 2, generated()).expect("8 slots");
    assert_eq!(token.rsdp_addr(), BHYVE_ACPI_BASE);
    let names: Vec<Option<&str>> = entries.iter().map(|e| e.key.name()).collect();
    assert_eq!(names.len(), 9);
    assert_eq!(names[7], Some("etc/smbios/smbios-anchor"));
    assert_eq!(names[8], Some("etc/smbios/smbios-tables"));
    // The firmware gets the anchor as it was generated.
    assert_eq!(entries[7].data, vec![7; 0x1F]);
    assert_eq!(mem.read_bytes(BHYVE_ACPI_BASE, 40), Some(vec![6; 40]));
    assert_eq!(mem.read_bytes(SMBIOS_TABLE_GPA, 2), Some(vec![8, 9]));

    let mut mem = PhysMap::new();
    let too_many = VmOpts { max_cpus: 65, ..opts() };
    assert!(setup_fwcfg_and_acpi(&mut mem, &too_many, 2, generated()).is_none());
}
