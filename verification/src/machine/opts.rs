//! The decisions of an operator that the machine reads.
//!
//! Every phase takes a [`VmOpts`], so the ACPI tables, the PM port claims, and
//! the hotplug engines describe the same machine and none of them can read
//! a flag the others did not.

use vstd::prelude::*;

verus! {

/// The command-line decisions the machine phases read, taken once.
#[derive(Debug)]
pub struct VmOpts {
    pub vm_name: String,
    pub uuid: Option<String>,
    pub num_cpus: u32,
    /// Every CPU slot the tables describe. Equal to `num_cpus` unless
    /// the operator asked for spare slots.
    pub max_cpus: u32,
    pub mem_size: u64,
    /// Whether the guest gets the ACPI hotplug interface at all.
    pub hotplug: bool,
    /// The memory ceiling a hot-add may reach, when one was asked for.
    pub max_mem: Option<u64>,
    pub mem_slot_size: Option<u64>,
    /// The raw `-B` SMBIOS flag, parsed by the firmware phase.
    pub smbios: Option<String>,
}

} // verus!
