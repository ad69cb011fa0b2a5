//! ACPI PM timer, PM1 and GPE0 registers, the hotplug register files,
//! ISA IRQ trigger modes, and pvpanic: in which order they are set up, under
//! which condition, and which ports they hold.

use vstd::prelude::*;
use vstd::string::*;

use super::hotplug::mem::{
    hot_add_fault, hot_add_window, top_of_ram, MemHot, MemHotplugEngine, MemHotplugError, MemWindow,
    SegidAlloc, DEFAULT_SLOT_SIZE, MAX_SLOTS,
};
use super::hotplug::regs::{
    all_down, empty_mem_slot, CpuHotplug, CpuRegs, MemHotplug, MemRegs, PciHotplug, PciRegs,
};
use super::opts::VmOpts;
use super::pio::{apart, claim_error, held, PioBus, PortBlock, PortError};
use super::registry::{
    distinct, insert_error, outcome, Device, DeviceRegistry, RegisteredDevice, RegistryError,
    SlotState,
};
use crate::text::{append_decimal, append_hex, decimal, hex, owned};

verus! {

/// ISA IRQ the SCI is delivered on. The FADT publishes the same number.
pub const SCI_IRQ: u8 = 9;

/// The GPE0 register block.
pub const GPE0_BLK_ADDR: u16 = 0xAFE0;

pub const GPE0_BLK_LEN: u16 = 4;

/// The PCI hotplug register block.
pub const PCI_HOTPLUG_ADDR: u16 = 0xAE00;

pub const PCI_HOTPLUG_LEN: u16 = 0x18;

/// The CPU hotplug register block.
pub const CPU_HOTPLUG_PORT: u16 = 0xAF00;

pub const CPU_HOTPLUG_LEN: u16 = 12;

/// The memory hotplug register block.
pub const MEM_HOTPLUG_IO_BASE: u16 = 0x0A00;

pub const MEM_HOTPLUG_IO_LEN: u16 = 0x18;

/// The port a guest writes on a kernel panic.
pub const PVPANIC_IOPORT: u16 = 0x505;

/// What a register file answers for.
#[derive(Debug, Clone, Copy, PartialEq, Eq, Structural)]
pub enum RegisterFile {
    Pci,
    Cpu,
    Mem,
}

impl RegisterFile {
    pub open spec fn spec_name(self) -> Seq<char> {
        match self {
            RegisterFile::Pci => "pci"@,
            RegisterFile::Cpu => "cpu"@,
            RegisterFile::Mem => "mem"@,
        }
    }

    fn name(self) -> (r: &'static str)
        ensures
            r@ == self.spec_name(),
    {
        match self {
            RegisterFile::Pci => "pci",
            RegisterFile::Cpu => "cpu",
            RegisterFile::Mem => "mem",
        }
    }

    /// The ports that the file answers.
    pub open spec fn spec_block(self) -> PortBlock {
        match self {
            RegisterFile::Pci => PortBlock { base: PCI_HOTPLUG_ADDR, len: PCI_HOTPLUG_LEN },
            RegisterFile::Cpu => PortBlock { base: CPU_HOTPLUG_PORT, len: CPU_HOTPLUG_LEN },
            RegisterFile::Mem => PortBlock { base: MEM_HOTPLUG_IO_BASE, len: MEM_HOTPLUG_IO_LEN },
        }
    }

    pub fn block(self) -> (r: PortBlock)
        ensures
            r == self.spec_block(),
    {
        match self {
            RegisterFile::Pci => PortBlock { base: PCI_HOTPLUG_ADDR, len: PCI_HOTPLUG_LEN },
            RegisterFile::Cpu => PortBlock { base: CPU_HOTPLUG_PORT, len: CPU_HOTPLUG_LEN },
            RegisterFile::Mem => PortBlock { base: MEM_HOTPLUG_IO_BASE, len: MEM_HOTPLUG_IO_LEN },
        }
    }
}

/// The ports of the GPE0 block.
pub open spec fn gpe0_block() -> PortBlock {
    PortBlock { base: GPE0_BLK_ADDR, len: GPE0_BLK_LEN }
}

/// Why the PM phase stopped the boot.
#[derive(Debug, Clone, Copy, PartialEq, Eq, Structural)]
pub enum PmError {
    PmTimer,
    IrqTrigger(u8),
    AcpiPm,
    SciPin,
    Gpe0,
    Claim { file: RegisterFile, error: PortError },
    /// A memory window with no register file is a contradiction and not a
    /// silent omission.
    NoRegisters,
}

impl PmError {
    pub open spec fn spec_text(self) -> Seq<char> {
        match self {
            PmError::PmTimer => "failed to configure PM timer"@,
            PmError::IrqTrigger(irq) => if irq == SCI_IRQ {
                "failed to set SCI IRQ trigger mode"@
            } else {
                "failed to set IRQ "@ + decimal(irq as nat) + " trigger mode"@
            },
            PmError::AcpiPm => "failed to attach ACPI PM registers"@,
            PmError::SciPin => "IRQ "@ + decimal(SCI_IRQ as nat) + " cannot carry the SCI"@,
            PmError::Gpe0 => "failed to attach the GPE0 block"@,
            PmError::Claim { file, error } => "hotplug-"@ + file.spec_name()
                + ": cannot claim port "@ + hex(file.spec_block().base as nat) + ": "@
                + error.spec_text(),
            PmError::NoRegisters => "a memory window needs the hotplug register files"@,
        }
    }

    /// The error as an operator reads it.
    pub fn to_text(&self) -> (r: String)
        ensures
            r@ == self.spec_text(),
    {
        match self {
            PmError::PmTimer => owned("failed to configure PM timer"),
            PmError::IrqTrigger(irq) => {
                if *irq == SCI_IRQ {
                    return owned("failed to set SCI IRQ trigger mode");
                }
                let mut r = owned("failed to set IRQ ");
                append_decimal(&mut r, *irq as u64);
                r.append(" trigger mode");
                r
            },
            PmError::AcpiPm => owned("failed to attach ACPI PM registers"),
            PmError::SciPin => {
                let mut r = owned("IRQ ");
                append_decimal(&mut r, SCI_IRQ as u64);
                r.append(" cannot carry the SCI");
                r
            },
            PmError::Gpe0 => owned("failed to attach the GPE0 block"),
            PmError::Claim { file, error } => {
                let mut r = owned("hotplug-");
                r.append(file.name());
                r.append(": cannot claim port ");
                append_hex(&mut r, file.block().base as u64);
                r.append(": ");
                r.append(error.text());
                r
            },
            PmError::NoRegisters => owned("a memory window needs the hotplug register files"),
        }
    }
}

/// What the PM phase needs to know about hotplug.
///
/// Built from the one [`VmOpts`] the ACPI tables also read, so the
/// ports this file claims and the ports the DSDT reserves cannot
/// disagree.
#[derive(Debug, Clone, Copy, PartialEq, Eq, Structural)]
pub struct HotplugOpts {
    pub enabled: bool,
    pub num_cpus: u32,
    pub max_cpus: u32,
}

impl HotplugOpts {
    pub fn from_vm(opts: &VmOpts) -> (r: Self)
        ensures
            r == (HotplugOpts {
                enabled: opts.hotplug,
                num_cpus: opts.num_cpus,
                max_cpus: opts.max_cpus,
            }),
    {
        HotplugOpts { enabled: opts.hotplug, num_cpus: opts.num_cpus, max_cpus: opts.max_cpus }
    }

    pub open spec fn cpu_slots(self) -> bool {
        self.enabled && self.max_cpus > self.num_cpus
    }

    /// Whether the DSDT describes CPU slots, and so whether the CPU
    /// register file may claim its ports.
    ///
    /// The CPU engine makes the same cut from the other side: it refuses
    /// every id at or above `max_cpus` and every id below the boot count, so
    /// a VM where the two are equal can add no CPU and needs no register
    /// file.
    pub fn has_cpu_slots(&self) -> (r: bool)
        ensures
            r == self.cpu_slots(),
    {
        self.enabled && self.max_cpus > self.num_cpus
    }
}

// ---- Memory window ---------------------------------------------------------

/// The slot size a VM asks for.
pub open spec fn slot_size_of(opts: VmOpts) -> u64 {
    match opts.mem_slot_size {
        Some(size) => size,
        None => DEFAULT_SLOT_SIZE,
    }
}

/// The memory hot-add window this VM asked for, or `None`.
///
/// Call this BEFORE the VM is created. Every refusal here is an
/// operator mistake, and finding one after the VM exists wastes a boot.
pub fn mem_hotplug_window(opts: &VmOpts) -> (r: Result<Option<MemWindow>, MemHotplugError>)
    ensures
        opts.max_mem is None ==> r == Ok::<Option<MemWindow>, MemHotplugError>(None),
        opts.max_mem matches Some(max_mem) ==> match r {
            Ok(w) => {
                &&& hot_add_fault(opts.mem_size, max_mem, slot_size_of(*opts)) is None
                &&& w is Some
                &&& w->0.wf()
                &&& w->0.spec_base() == top_of_ram(opts.mem_size)
                &&& w->0.spec_size() == max_mem
                &&& w->0.spec_slot_size() == slot_size_of(*opts)
            },
            Err(e) => {
                let fault = hot_add_fault(opts.mem_size, max_mem, slot_size_of(*opts));
                fault is Some && e == MemHotplugError::BadWindow(fault->0)
            },
        },
{
    let max_mem: u64 = match opts.max_mem {
        Some(max_mem) => max_mem,
        None => {
            return Ok(None);
        },
    };
    let slot_size: u64 = match opts.mem_slot_size {
        Some(size) => size,
        None => DEFAULT_SLOT_SIZE,
    };
    match hot_add_window(opts.mem_size, max_mem, slot_size) {
        Ok(w) => Ok(Some(w)),
        Err(e) => Err(e),
    }
}

/// Start the memory hot-add engine, or nothing when the VM asked for no
/// window.
pub fn start_mem_hotplug(
    window: Option<MemWindow>,
    segids: SegidAlloc,
    regs: Option<MemHotplug>,
) -> (r: Result<Option<MemHotplugEngine>, PmError>)
    requires
        window matches Some(w) ==> w.wf(),
    ensures
        window is None ==> r is Ok && r->Ok_0 is None,
        window is Some && regs is None ==> r is Err && r->Err_0 == PmError::NoRegisters,
        window is Some && regs is Some ==> {
            let w = window->0;
            &&& r is Ok
            &&& r->Ok_0 is Some
            &&& (r->Ok_0)->0@.wf()
            &&& (r->Ok_0)->0@ == (MemHot {
                window: w,
                regs: regs->0@,
                slots: if w.spec_slots() <= regs->0@.slots.len() {
                    w.spec_slots() as nat
                } else {
                    regs->0@.slots.len()
                },
                used: 0,
                next_slot: 0,
                next_segid: segids.spec_next(),
                closed: false,
            })
        },
{
    let window = match window {
        Some(window) => window,
        None => {
            return Ok(None);
        },
    };
    match regs {
        Some(regs) => Ok(Some(MemHotplugEngine::start_with(segids, regs, window))),
        None => Err(PmError::NoRegisters),
    }
}

// ---- Register blocks -------------------------------------------------------

/// The three hotplug register files, once their ports are claimed.
///
/// Each one only records what the guest asked for. The engines act on it.
pub struct HotplugRegisters {
    pub pci: PciHotplug,
    /// `None` when the VM has no spare CPU slot. Such a VM reserves no CPU
    /// port and must not claim one.
    pub cpu: Option<CpuHotplug>,
    pub mem: MemHotplug,
}

/// The register files of a VM, in the order in which they claim their ports.
pub open spec fn files_of(opts: HotplugOpts) -> Seq<RegisterFile> {
    if opts.cpu_slots() {
        seq![RegisterFile::Pci, RegisterFile::Cpu, RegisterFile::Mem]
    } else {
        seq![RegisterFile::Pci, RegisterFile::Mem]
    }
}

/// The claims after the first `n` register files took their ports, and the
/// error of the first that could not.
pub open spec fn claimed_files(claims: Seq<PortBlock>, files: Seq<RegisterFile>) -> (
    Seq<PortBlock>,
    Option<PmError>,
)
    decreases files.len(),
{
    if files.len() == 0 {
        (claims, None)
    } else {
        let before = claimed_files(claims, files.drop_last());
        if before.1 is Some {
            before
        } else {
            match claim_error(before.0, files.last().spec_block()) {
                Some(error) => (before.0, Some(PmError::Claim { file: files.last(), error })),
                None => (before.0.push(files.last().spec_block()), None),
            }
        }
    }
}

/// Claim the GPE0 register block, or nothing at all.
///
/// `hotplug` must be the same flag the FADT and the DSDT read. Without
/// hotplug the FADT publishes no GPE0 block and the DSDT reserves no
/// port, while it does advertise 0x0D00-0xFFFF as the PCI I/O window.
/// The block is inside that window, so a VM that claimed the port would
/// hold an address the guest is told it may give to an I/O BAR.
pub fn attach_gpe0(bus_pio: &mut PioBus, hotplug: bool) -> (r: Result<bool, PmError>)
    ensures
        !hotplug ==> r == Ok::<bool, PmError>(false) && final(bus_pio)@ == old(bus_pio)@,
        hotplug && claim_error(old(bus_pio)@, gpe0_block()) is None ==> r == Ok::<bool, PmError>(
            true,
        ) && final(bus_pio)@ == old(bus_pio)@.push(gpe0_block()),
        hotplug && claim_error(old(bus_pio)@, gpe0_block()) is Some ==> r == Err::<bool, PmError>(
            PmError::Gpe0,
        ) && final(bus_pio)@ == old(bus_pio)@,
        apart(old(bus_pio)@) ==> apart(final(bus_pio)@),
{
    if !hotplug {
        return Ok(false);
    }
    match bus_pio.register(GPE0_BLK_ADDR, GPE0_BLK_LEN) {
        Ok(()) => Ok(true),
        Err(_) => Err(PmError::Gpe0),
    }
}

fn register_block(bus_pio: &mut PioBus, file: RegisterFile) -> (r: Result<(), PmError>)
    ensures
        match claim_error(old(bus_pio)@, file.spec_block()) {
            None => r is Ok && final(bus_pio)@ == old(bus_pio)@.push(file.spec_block()),
            Some(error) => r == Err::<(), PmError>(PmError::Claim { file, error }) && final(
                bus_pio
            )@ == old(bus_pio)@,
        },
        apart(old(bus_pio)@) ==> apart(final(bus_pio)@),
{
    let block = file.block();
    match bus_pio.register(block.base, block.len) {
        Ok(()) => Ok(()),
        Err(error) => Err(PmError::Claim { file, error }),
    }
}

/// The CPU register file of a VM with spare slots: its boot CPUs are there.
pub open spec fn boot_cpu_regs(opts: HotplugOpts) -> CpuRegs {
    CpuRegs {
        enabled: Seq::new(opts.max_cpus as nat, |i: int| i < opts.num_cpus),
        inserting: all_down(opts.max_cpus as nat),
        leaving: all_down(opts.max_cpus as nat),
        requested: all_down(opts.max_cpus as nat),
        events: 0,
    }
}

/// Claim the three hotplug register blocks.
///
/// The PCI and CPU blocks sit inside the PCI I/O window the DSDT hands
/// the guest, so they are claimed under the same condition as the GPE0
/// block: only when the tables reserve them.
pub fn attach_hotplug_registers(bus_pio: &mut PioBus, opts: HotplugOpts) -> (r: Result<
    HotplugRegisters,
    PmError,
>)
    ensures
        final(bus_pio)@ == claimed_files(old(bus_pio)@, files_of(opts)).0,
        match r {
            Ok(regs) => claimed_files(old(bus_pio)@, files_of(opts)).1 is None && fresh_registers(
                regs,
                opts,
            ),
            Err(e) => claimed_files(old(bus_pio)@, files_of(opts)).1 == Some(e),
        },
        apart(old(bus_pio)@) ==> apart(final(bus_pio)@),
{
    let ghost start = bus_pio@;
    let ghost files = files_of(opts);
    proof {
        reveal_with_fuel(claimed_files, 4);
        let first = seq![RegisterFile::Pci];
        assert(first.drop_last() =~= Seq::<RegisterFile>::empty());
        if opts.cpu_slots() {
            let two = seq![RegisterFile::Pci, RegisterFile::Cpu];
            assert(files.drop_last() =~= two);
            assert(two.drop_last() =~= first);
        } else {
            assert(files.drop_last() =~= first);
        }
    }
    let pci = PciHotplug::new();
    match register_block(bus_pio, RegisterFile::Pci) {
        Ok(()) => {},
        Err(e) => {
            return Err(e);
        },
    }
    let cpu = if opts.has_cpu_slots() {
        let mut cpu = CpuHotplug::new(opts.max_cpus);
        // Without this, every slot answers with zero and the
        // guest boots seeing no CPU at all.
        cpu.set_boot_cpus(opts.num_cpus);
        proof {
            assert(cpu@.enabled =~= boot_cpu_regs(opts).enabled);
        }
        match register_block(bus_pio, RegisterFile::Cpu) {
            Ok(()) => {},
            Err(e) => {
                return Err(e);
            },
        }
        Some(cpu)
    } else {
        None
    };
    let mem = MemHotplug::new(MAX_SLOTS);
    match register_block(bus_pio, RegisterFile::Mem) {
        Ok(()) => {},
        Err(e) => {
            return Err(e);
        },
    }
    Ok(HotplugRegisters { pci, cpu, mem })
}

// ---- The phase -------------------------------------------------------------

/// One thing that the PM phase asks of the VM.
#[derive(Debug, Clone, Copy, PartialEq, Eq, Structural)]
pub enum PmStep {
    AttachPmTimer,
    /// Make an ISA IRQ level-triggered.
    SetIrqTrigger(u8),
    AttachAcpiPm,
    /// Take the pin that carries the SCI.
    TakeSciPin,
    Done,
}

/// The step after one that worked. The claims follow the last of them.
pub open spec fn following(step: PmStep) -> PmStep {
    match step {
        PmStep::AttachPmTimer => PmStep::SetIrqTrigger(SCI_IRQ),
        // PCI INTx is level-triggered. Firmware routes PIRQ links A-D to
        // IRQs 10 and 11 through the PIR registers.
        PmStep::SetIrqTrigger(irq) => if irq == SCI_IRQ {
            PmStep::SetIrqTrigger(10)
        } else if irq == 10 {
            PmStep::SetIrqTrigger(11)
        } else {
            PmStep::AttachAcpiPm
        },
        PmStep::AttachAcpiPm => PmStep::TakeSciPin,
        PmStep::TakeSciPin => PmStep::Done,
        PmStep::Done => PmStep::Done,
    }
}

/// Why a step that did not work ends the boot.
pub open spec fn step_failure(step: PmStep) -> Option<PmError> {
    match step {
        PmStep::AttachPmTimer => Some(PmError::PmTimer),
        PmStep::SetIrqTrigger(irq) => Some(PmError::IrqTrigger(irq)),
        PmStep::AttachAcpiPm => Some(PmError::AcpiPm),
        PmStep::TakeSciPin => Some(PmError::SciPin),
        PmStep::Done => None,
    }
}

/// The one port of pvpanic.
pub open spec fn pvpanic_block() -> PortBlock {
    PortBlock { base: PVPANIC_IOPORT, len: 1 }
}

/// The claims with that of pvpanic, and whether it could be had. A VM without
/// pvpanic runs.
pub open spec fn with_pvpanic(claims: Seq<PortBlock>) -> (Seq<PortBlock>, Result<bool, PmError>) {
    if claim_error(claims, pvpanic_block()) is None {
        (claims.push(pvpanic_block()), Ok(true))
    } else {
        (claims, Ok(false))
    }
}

/// What the phase leaves claimed once every step has worked, and whether
/// pvpanic answers, or why the boot stops. The GPE0 block and the register
/// files are claimed only for a VM with hotplug.
pub open spec fn phase_claims(claims: Seq<PortBlock>, opts: HotplugOpts) -> (
    Seq<PortBlock>,
    Result<bool, PmError>,
) {
    if !opts.enabled {
        with_pvpanic(claims)
    } else if claim_error(claims, gpe0_block()) is Some {
        (claims, Err(PmError::Gpe0))
    } else {
        let files = claimed_files(claims.push(gpe0_block()), files_of(opts));
        match files.1 {
            Some(e) => (files.0, Err(e)),
            None => with_pvpanic(files.0),
        }
    }
}

/// The PM phase under way.
pub struct PmSetup {
    opts: HotplugOpts,
    step: PmStep,
    hotplug: Option<HotplugRegisters>,
    pvpanic: bool,
}

/// The phase as its owner sees it.
pub ghost struct PmPhase {
    pub opts: HotplugOpts,
    pub step: PmStep,
    /// Whether the GPE0 block and the register files are there.
    pub hotplug: bool,
    pub pvpanic: bool,
}

impl View for PmSetup {
    type V = PmPhase;

    closed spec fn view(&self) -> PmPhase {
        PmPhase {
            opts: self.opts,
            step: self.step,
            hotplug: self.hotplug is Some,
            pvpanic: self.pvpanic,
        }
    }
}

/// Whether register files are those of a VM that has just booted.
pub open spec fn fresh_registers(regs: HotplugRegisters, opts: HotplugOpts) -> bool {
    &&& regs.pci@ == PciRegs::fresh()
    &&& regs.cpu is Some <==> opts.cpu_slots()
    &&& regs.cpu matches Some(cpu) ==> cpu@ == boot_cpu_regs(opts)
    &&& regs.mem@ == (MemRegs {
        slots: Seq::new(MAX_SLOTS as nat, |i: int| empty_mem_slot()),
        events: 0,
    })
}

/// Begin the PM phase: the ACPI PM timer, ISA IRQ trigger modes for SCI and
/// PCI, the ACPI PM1 and GPE0 registers, the hotplug register files, and the
/// pvpanic port.
///
/// The owner carries out each step and reports it to [`PmSetup::advance`].
pub fn setup_timers_and_pm(opts: HotplugOpts) -> (r: PmSetup)
    ensures
        r.wf(),
        r@ == (PmPhase { opts, step: PmStep::AttachPmTimer, hotplug: false, pvpanic: false }),
{
    PmSetup { opts, step: PmStep::AttachPmTimer, hotplug: None, pvpanic: false }
}

impl PmSetup {
    pub closed spec fn wf(&self) -> bool {
        self.hotplug matches Some(regs) ==> fresh_registers(regs, self.opts)
    }

    /// The step that the owner has to carry out.
    pub fn step(&self) -> (r: PmStep)
        ensures
            r == self@.step,
    {
        self.step
    }

    /// Whether pvpanic answers.
    pub fn has_pvpanic(&self) -> (r: bool)
        ensures
            r == self@.pvpanic,
    {
        self.pvpanic
    }

    /// Take what came of the current step, and go on to the next.
    ///
    /// A step that did not work ends the boot. The three IRQs become
    /// level-triggered before anything is attached that raises them. After
    /// the last step the ports are claimed.
    pub fn advance(&mut self, bus_pio: &mut PioBus, worked: bool) -> (r: Result<PmStep, PmError>)
        requires
            old(self).wf(),
        ensures
            final(self).wf(),
            apart(old(bus_pio)@) ==> apart(final(bus_pio)@),
            !worked && step_failure(old(self)@.step) is Some ==> {
                &&& r == Err::<PmStep, PmError>(step_failure(old(self)@.step)->0)
                &&& final(self)@ == old(self)@
                &&& final(bus_pio)@ == old(bus_pio)@
            },
            worked && !(old(self)@.step is TakeSciPin) || old(self)@.step is Done ==> {
                &&& r == Ok::<PmStep, PmError>(following(old(self)@.step))
                &&& final(self)@ == (PmPhase { step: following(old(self)@.step), ..old(self)@ })
                &&& final(bus_pio)@ == old(bus_pio)@
            },
            worked && old(self)@.step is TakeSciPin ==> {
                let done = phase_claims(old(bus_pio)@, old(self)@.opts);
                &&& final(bus_pio)@ == done.0
                &&& match done.1 {
                    Ok(pvpanic) => r == Ok::<PmStep, PmError>(PmStep::Done) && final(self)@ == (
                    PmPhase {
                        step: PmStep::Done,
                        hotplug: old(self)@.opts.enabled,
                        pvpanic,
                        ..old(self)@
                    }),
                    Err(e) => r == Err::<PmStep, PmError>(e) && final(self)@ == old(self)@,
                }
            },
    {
        if !worked {
            match self.step {
                PmStep::AttachPmTimer => {
                    return Err(PmError::PmTimer);
                },
                PmStep::SetIrqTrigger(irq) => {
                    return Err(PmError::IrqTrigger(irq));
                },
                PmStep::AttachAcpiPm => {
                    return Err(PmError::AcpiPm);
                },
                PmStep::TakeSciPin => {
                    return Err(PmError::SciPin);
                },
                PmStep::Done => {},
            }
        }
        let next = match self.step {
            PmStep::AttachPmTimer => PmStep::SetIrqTrigger(SCI_IRQ),
            PmStep::SetIrqTrigger(irq) => if irq == SCI_IRQ {
                PmStep::SetIrqTrigger(10)
            } else if irq == 10 {
                PmStep::SetIrqTrigger(11)
            } else {
                PmStep::AttachAcpiPm
            },
            PmStep::AttachAcpiPm => PmStep::TakeSciPin,
            PmStep::TakeSciPin => {
                return self.claim(bus_pio);
            },
            PmStep::Done => PmStep::Done,
        };
        self.step = next;
        Ok(next)
    }

    /// Claim the ports of the phase.
    fn claim(&mut self, bus_pio: &mut PioBus) -> (r: Result<PmStep, PmError>)
        requires
            old(self).wf(),
        ensures
            final(self).wf(),
            apart(old(bus_pio)@) ==> apart(final(bus_pio)@),
            final(bus_pio)@ == phase_claims(old(bus_pio)@, old(self)@.opts).0,
            match phase_claims(old(bus_pio)@, old(self)@.opts).1 {
                Ok(pvpanic) => r == Ok::<PmStep, PmError>(PmStep::Done) && final(self)@ == (
                PmPhase {
                    step: PmStep::Done,
                    hotplug: old(self)@.opts.enabled,
                    pvpanic,
                    ..old(self)@
                }),
                Err(e) => r == Err::<PmStep, PmError>(e) && final(self)@ == old(self)@,
            },
    {
        let mut hotplug: Option<HotplugRegisters> = None;
        match attach_gpe0(bus_pio, self.opts.enabled) {
            Ok(true) => {
                match attach_hotplug_registers(bus_pio, self.opts) {
                    Ok(regs) => {
                        hotplug = Some(regs);
                    },
                    Err(e) => {
                        return Err(e);
                    },
                }
            },
            Ok(false) => {},
            Err(e) => {
                return Err(e);
            },
        }
        // The guest writes this port on a kernel panic.
        self.pvpanic = bus_pio.register(PVPANIC_IOPORT, 1).is_ok();
        self.hotplug = hotplug;
        self.step = PmStep::Done;
        Ok(PmStep::Done)
    }

    /// The devices of a phase that is over. `gpe` is the handle of the GPE0
    /// block, which a VM without hotplug does not have.
    pub fn finish(self, gpe: u64) -> (r: TimerAndPmDevices)
        requires
            self.wf(),
        ensures
            r.gpe == if self@.hotplug {
                Some(gpe)
            } else {
                None
            },
            r.hotplug is Some <==> self@.hotplug,
            r.hotplug matches Some(regs) ==> fresh_registers(regs, self@.opts),
    {
        let handle = if self.hotplug.is_some() {
            Some(gpe)
        } else {
            None
        };
        TimerAndPmDevices { gpe: handle, hotplug: self.hotplug }
    }
}

/// Timer and power-management devices that live as long as the VM.
pub struct TimerAndPmDevices {
    /// The handle of the GPE0 block. `None` unless the VM publishes the ACPI
    /// hotplug interface.
    pub gpe: Option<u64>,
    /// `None` for the same reason.
    pub hotplug: Option<HotplugRegisters>,
}

/// The record of the GPE0 block: it is not on the PCI bus.
pub open spec fn gpe0_record(block: u64) -> Device {
    Device {
        id: "acpi-gpe"@,
        bdf: None,
        pci: None,
        lifecycle: Some(block),
        spec: None,
        hotpluggable: false,
        state: SlotState::Present,
    }
}

/// Put the PM devices that carry reset or migration state into the
/// registry.
///
/// Without it the GPE0 block takes no part in reset and its migration payload
/// is never asked for. The three hotplug register files are not here: the
/// registry has nothing of them to hold.
pub fn register_pm_devices(registry: &mut DeviceRegistry, devs: &TimerAndPmDevices) -> (r: Result<
    (),
    RegistryError,
>)
    ensures
        devs.gpe is None ==> r is Ok && final(registry)@ == old(registry)@,
        devs.gpe matches Some(block) ==> outcome(r) == insert_error(
            old(registry)@,
            gpe0_record(block),
        ) && final(registry)@ == if r is Ok {
            old(registry)@.push(gpe0_record(block))
        } else {
            old(registry)@
        },
        distinct(old(registry)@) ==> distinct(final(registry)@),
{
    register_gpe0(registry, devs.gpe)
}

/// Register the GPE0 block, where there is one.
pub fn register_gpe0(registry: &mut DeviceRegistry, gpe: Option<u64>) -> (r: Result<
    (),
    RegistryError,
>)
    ensures
        gpe is None ==> r is Ok && final(registry)@ == old(registry)@,
        gpe matches Some(block) ==> outcome(r) == insert_error(old(registry)@, gpe0_record(block))
            && final(registry)@ == if r is Ok {
            old(registry)@.push(gpe0_record(block))
        } else {
            old(registry)@
        },
        distinct(old(registry)@) ==> distinct(final(registry)@),
{
    match gpe {
        None => Ok(()),
        Some(block) => {
            let record = RegisteredDevice::new(owned("acpi-gpe"), None, None, Some(block), None);
            assert(record@ == gpe0_record(block));
            registry.insert(record)
        },
    }
}

// ---- Laws ------------------------------------------------------------------

/// On a bus that holds nothing, a VM with hotplug gets the GPE0 block and
/// every register file it has, and no port is claimed twice. The CPU ports
/// are held exactly if the VM has spare CPU slots.
pub proof fn hotplug_blocks_fit(opts: HotplugOpts)
    requires
        opts.enabled,
    ensures
        ({
            let gpe = Seq::<PortBlock>::empty().push(gpe0_block());
            let all = claimed_files(gpe, files_of(opts));
            &&& claim_error(Seq::empty(), gpe0_block()) is None
            &&& all.1 is None
            &&& apart(all.0)
            &&& all.0.contains(RegisterFile::Pci.spec_block())
            &&& all.0.contains(RegisterFile::Mem.spec_block())
            &&& held(all.0, CPU_HOTPLUG_PORT as int) <==> opts.cpu_slots()
        }),
{
    let gpe = Seq::<PortBlock>::empty().push(gpe0_block());
    let files = files_of(opts);
    reveal_with_fuel(claimed_files, 4);
    let one = seq![RegisterFile::Pci];
    assert(one.drop_last() =~= Seq::<RegisterFile>::empty());
    let pci = RegisterFile::Pci.spec_block();
    let cpu = RegisterFile::Cpu.spec_block();
    let mem = RegisterFile::Mem.spec_block();
    let all = claimed_files(gpe, files).0;
    assert(claim_error(gpe, pci) is None);
    if opts.cpu_slots() {
        let two = seq![RegisterFile::Pci, RegisterFile::Cpu];
        assert(files.drop_last() =~= two);
        assert(two.drop_last() =~= one);
        assert(claim_error(gpe.push(pci), cpu) is None);
        assert(claim_error(gpe.push(pci).push(cpu), mem) is None);
        assert(all == gpe.push(pci).push(cpu).push(mem));
        assert(all[1] == pci && all[2] == cpu && all[3] == mem);
        assert(all[2].holds(CPU_HOTPLUG_PORT as int));
    } else {
        assert(files.drop_last() =~= one);
        assert(claim_error(gpe.push(pci), mem) is None);
        assert(all == gpe.push(pci).push(mem));
        assert(all[1] == pci && all[2] == mem);
    }
}

/// The blocks that follow the hotplug flag sit inside the I/O window that the
/// DSDT hands the guest, except for the memory block, which is below it.
pub proof fn gated_blocks_are_in_the_io_window()
    ensures
        0x0D00 <= gpe0_block().base,
        0x0D00 <= RegisterFile::Pci.spec_block().base,
        0x0D00 <= RegisterFile::Cpu.spec_block().base,
        RegisterFile::Mem.spec_block().base + RegisterFile::Mem.spec_block().len <= 0x0D00,
{
}

/// A VM without hotplug holds no hotplug port: whatever the phase claims for
/// it is the one port of pvpanic.
pub proof fn no_hotplug_no_claim(claims: Seq<PortBlock>, opts: HotplugOpts, port: int)
    requires
        apart(claims),
        !opts.enabled,
        held(phase_claims(claims, opts).0, port),
    ensures
        held(claims, port) || port == PVPANIC_IOPORT,
        phase_claims(claims, opts).1 is Ok,
{
    if claim_error(claims, pvpanic_block()) is None {
        super::pio::claim_can_be_given_back(claims, pvpanic_block(), port);
    }
}

/// The phase ends after six steps that all worked, and a step comes only
/// after every one before it.
pub proof fn phase_has_six_steps()
    ensures
        following(
            following(
                following(
                    following(following(following(PmStep::AttachPmTimer))),
                ),
            ),
        ) == PmStep::Done,
        forall|step: PmStep| #[trigger] following(step) != PmStep::AttachPmTimer,
        forall|step: PmStep| #[trigger]
            following(step) == PmStep::AttachAcpiPm ==> step is SetIrqTrigger,
        forall|step: PmStep| #[trigger]
            following(step) == PmStep::TakeSciPin ==> step is AttachAcpiPm,
{
}

/// Where the guest's tables say the hotplug registers are: the event block at
/// 0xAFE0, PCI at 0xAE00, the CPUs at 0xAF00 and memory at 0x0A00, and the
/// panic port at 0x505.
pub proof fn register_blocks_stand_in_place()
    ensures
        gpe0_block() == (PortBlock { base: 0xAFE0, len: 4 }),
        RegisterFile::Pci.spec_block() == (PortBlock { base: 0xAE00, len: 0x18 }),
        RegisterFile::Cpu.spec_block() == (PortBlock { base: 0xAF00, len: 12 }),
        RegisterFile::Mem.spec_block() == (PortBlock { base: 0x0A00, len: 0x18 }),
        pvpanic_block() == (PortBlock { base: 0x505, len: 1 }),
{
}

/// The steps come in one order: the timer, the level-triggered interrupts 9,
/// 10 and 11, the ACPI registers and the pin that carries the interrupt. A
/// failure names the step that failed.
pub proof fn steps_come_in_order(irq: u8)
    ensures
        following(PmStep::AttachPmTimer) == PmStep::SetIrqTrigger(9),
        following(PmStep::SetIrqTrigger(9)) == PmStep::SetIrqTrigger(10),
        following(PmStep::SetIrqTrigger(10)) == PmStep::SetIrqTrigger(11),
        following(PmStep::SetIrqTrigger(11)) == PmStep::AttachAcpiPm,
        following(PmStep::AttachAcpiPm) == PmStep::TakeSciPin,
        following(PmStep::TakeSciPin) == PmStep::Done,
        following(PmStep::Done) == PmStep::Done,
        step_failure(PmStep::AttachPmTimer) == Some(PmError::PmTimer),
        step_failure(PmStep::SetIrqTrigger(irq)) == Some(PmError::IrqTrigger(irq)),
        step_failure(PmStep::AttachAcpiPm) == Some(PmError::AcpiPm),
        step_failure(PmStep::TakeSciPin) == Some(PmError::SciPin),
        step_failure(PmStep::Done) is None,
{
}

/// A VM has spare CPU slots exactly where it was started with hotplug and more
/// slots than CPUs, and only then a CPU register file, whose first CPUs are
/// present and of which none is on its way in or out. A memory slot has 128
/// MiB unless the operator says otherwise.
pub proof fn spare_slots_need_hotplug(opts: HotplugOpts, vm: VmOpts, id: int)
    requires
        0 <= id < opts.max_cpus,
    ensures
        opts.cpu_slots() <==> opts.enabled && opts.num_cpus < opts.max_cpus,
        files_of(opts).contains(RegisterFile::Cpu) <==> opts.cpu_slots(),
        files_of(opts).len() == if opts.cpu_slots() {
            3int
        } else {
            2
        },
        files_of(opts)[0] == RegisterFile::Pci,
        files_of(opts).last() == RegisterFile::Mem,
        boot_cpu_regs(opts).slots() == opts.max_cpus,
        boot_cpu_regs(opts).enabled[id] <==> id < opts.num_cpus,
        !boot_cpu_regs(opts).inserting[id],
        !boot_cpu_regs(opts).leaving[id],
        !boot_cpu_regs(opts).requested[id],
        boot_cpu_regs(opts).events == 0,
        vm.mem_slot_size is None ==> slot_size_of(vm) == 0x800_0000,
        vm.mem_slot_size matches Some(size) ==> slot_size_of(vm) == size,
{
    let f = files_of(opts);
    if opts.cpu_slots() {
        assert(f[1] == RegisterFile::Cpu);
    }
}

/// The panic port is claimed where it is free, and where it is not the VM goes
/// on without it.
pub proof fn panic_port_is_optional(claims: Seq<PortBlock>)
    requires
        apart(claims),
    ensures
        with_pvpanic(claims).1 == Ok::<bool, PmError>(!held(claims, 0x505)),
        held(claims, 0x505) ==> with_pvpanic(claims).0 == claims,
        held(with_pvpanic(claims).0, 0x505),
{
    super::pio::claims_need_free_ports(claims, pvpanic_block());
    if claim_error(claims, pvpanic_block()) is None {
        super::pio::claim_can_be_given_back(claims, pvpanic_block(), 0x505);
        assert(!held(claims, 0x505));
    } else {
        assert(held(claims, 0x505));
    }
}

/// The event block's record is a device of its own, off the PCI bus, that is
/// there for good.
pub proof fn event_block_is_a_fixed_device(block: u64)
    ensures
        gpe0_record(block).id == "acpi-gpe"@,
        gpe0_record(block).bdf is None,
        gpe0_record(block).pci is None,
        gpe0_record(block).lifecycle == Some(block),
        gpe0_record(block).spec is None,
        !gpe0_record(block).hotpluggable,
        gpe0_record(block).state == SlotState::Present,
{
}

/// The register files that a VM starts with: no PCI slot to look at, the CPUs
/// of the boot present where there is a CPU file at all, and eight empty memory
/// slots.
pub proof fn registers_start_empty(regs: HotplugRegisters, opts: HotplugOpts, id: int, k: int)
    requires
        fresh_registers(regs, opts),
        0 <= k < 32,
    ensures
        !regs.pci@.up[k] && !regs.pci@.down[k] && !regs.pci@.ejectable[k],
        regs.cpu is Some <==> opts.enabled && opts.num_cpus < opts.max_cpus,
        regs.cpu matches Some(cpu) ==> {
            &&& cpu@.slots() == opts.max_cpus
            &&& 0 <= id < opts.max_cpus ==> cpu@.enabled[id] == (id < opts.num_cpus)
            &&& cpu@.events == 0
        },
        regs.mem@.slots.len() == 8,
        k < 8 ==> !regs.mem@.slots[k].enabled && regs.mem@.slots[k].len == 0,
        regs.mem@.events == 0,
{
}

} // verus!
