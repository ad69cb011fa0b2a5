//! CPU hot-add.
//!
//! The register file only records what the guest asked for. This is the other
//! half: it owns every add, and answers the ejects the guest runs.
//!
//! # Add only
//!
//! The kernel cannot take an active vCPU back. So there is no remove call, and
//! the drain refuses every eject instead of performing it.
//!
//! # Why the id can be consumed
//!
//! Activating a CPU has no inverse. An add that reaches the kernel and
//! then fails leaves the CPU active with nothing running it, and no
//! later call can undo that. Such an id is recorded and refused for the
//! life of the VM, rather than retried into a second active CPU with no
//! thread.

use std::collections::BTreeSet;

use vstd::laws_cmp::obeys_cmp;
use vstd::prelude::*;
use vstd::std_specs::btree::{increasing_seq, spec_btree_keys_iter};
use vstd::std_specs::cmp::OrdSpec;
use vstd::std_specs::iter::IteratorSpec;
use vstd::string::*;

use super::regs::{raised, CpuHotplug, CpuRegs};
use crate::text::{append_decimal, decimal, owned};

verus! {

/// Why bringing a vCPU online failed.
#[derive(Debug, PartialEq, Eq)]
pub enum VcpuError {
    /// No thread could be started for it. The kernel was not asked.
    Spawn { id: u32, error: String },
    /// Its thread went away after the kernel had activated it.
    ThreadGone(u32),
    /// The VM was suspended while the kernel activated it.
    Suspended(u32),
}

impl VcpuError {
    pub open spec fn leaves_inactive(self) -> bool {
        self is Spawn
    }

    /// Whether the kernel left the CPU alone, so that the id can be retried.
    pub fn left_cpu_inactive(&self) -> (r: bool)
        ensures
            r == self.leaves_inactive(),
    {
        match self {
            VcpuError::Spawn { .. } => true,
            VcpuError::ThreadGone(_) | VcpuError::Suspended(_) => false,
        }
    }

    /// The vCPU it is about.
    pub open spec fn spec_id(self) -> u32 {
        match self {
            VcpuError::Spawn { id, error } => id,
            VcpuError::ThreadGone(id) => id,
            VcpuError::Suspended(id) => id,
        }
    }

    pub open spec fn text(self) -> Seq<char> {
        let id = decimal(self.spec_id() as nat);
        match self {
            VcpuError::Spawn { id: _, error } => "cannot start a thread for vCPU "@ + id + ": "@
                + error@,
            VcpuError::ThreadGone(_) => "the thread of vCPU "@ + id + " has gone"@,
            VcpuError::Suspended(_) => "the VM was suspended while vCPU "@ + id
                + " was activated"@,
        }
    }

    /// The error as an operator reads it.
    pub fn to_text(&self) -> (r: String)
        ensures
            r@ == self.text(),
    {
        match self {
            VcpuError::Spawn { id, error } => {
                let mut r = owned("cannot start a thread for vCPU ");
                append_decimal(&mut r, *id as u64);
                r.append(": ");
                r.append(error.as_str());
                r
            },
            VcpuError::ThreadGone(id) => {
                let mut r = owned("the thread of vCPU ");
                append_decimal(&mut r, *id as u64);
                r.append(" has gone");
                r
            },
            VcpuError::Suspended(id) => {
                let mut r = owned("the VM was suspended while vCPU ");
                append_decimal(&mut r, *id as u64);
                r.append(" was activated");
                r
            },
        }
    }
}

/// Why a CPU hot-add was refused.
#[derive(Debug, PartialEq, Eq)]
pub enum CpuHotplugError {
    /// The id names no CPU slot this machine describes.
    OutOfRange { id: u32, max_cpus: u32 },
    /// The id belongs to a CPU the boot path already brought online.
    /// No boot CPU gets an insert event, so nothing would reach the guest.
    BootCpu(u32),
    /// The CPU is running already.
    AlreadyOnline(u32),
    /// An earlier add activated the CPU in the kernel and then failed.
    /// The id cannot be retried.
    Consumed(u32),
    /// Bringing the CPU online failed.
    Online(VcpuError),
}

impl CpuHotplugError {
    pub open spec fn text(self) -> Seq<char> {
        match self {
            CpuHotplugError::OutOfRange { id, max_cpus } => "vCPU "@ + decimal(id as nat)
                + " is not one of the "@ + decimal(max_cpus as nat) + " CPU slots"@,
            CpuHotplugError::BootCpu(id) => "vCPU "@ + decimal(id as nat)
                + " is a boot CPU and is online already"@,
            CpuHotplugError::AlreadyOnline(id) => "vCPU "@ + decimal(id as nat)
                + " is online already"@,
            CpuHotplugError::Consumed(id) => "vCPU "@ + decimal(id as nat)
                + " was consumed by a failed add: the kernel cannot deactivate a vCPU, so the id cannot be reused"@,
            CpuHotplugError::Online(e) => e.text(),
        }
    }

    /// The error as an operator reads it.
    pub fn to_text(&self) -> (r: String)
        ensures
            r@ == self.text(),
    {
        match self {
            CpuHotplugError::OutOfRange { id, max_cpus } => {
                let mut r = vcpu(*id, " is not one of the ");
                append_decimal(&mut r, *max_cpus as u64);
                r.append(" CPU slots");
                r
            },
            CpuHotplugError::BootCpu(id) => vcpu(*id, " is a boot CPU and is online already"),
            CpuHotplugError::AlreadyOnline(id) => vcpu(*id, " is online already"),
            CpuHotplugError::Consumed(id) => vcpu(
                *id,
                " was consumed by a failed add: the kernel cannot deactivate a vCPU, so the id cannot be reused",
            ),
            CpuHotplugError::Online(e) => e.to_text(),
        }
    }
}

fn vcpu(id: u32, rest: &str) -> (r: String)
    ensures
        r@ == "vCPU "@ + decimal(id as nat) + rest@,
{
    let mut r = owned("vCPU ");
    append_decimal(&mut r, id as u64);
    r.append(rest);
    r
}

/// Brings one CPU online on the running VM.
pub trait CpuOnline: Sized {
    /// Every CPU slot this machine describes, boot CPUs included.
    fn possible_cpus(&self) -> u32;

    /// How many CPUs the boot path brought online, ids 0 upward.
    fn boot_cpus(&self) -> u32;

    fn is_online(&self, id: u32) -> bool;

    fn add_vcpu(&mut self, id: u32) -> Result<(), VcpuError>;
}

/// What an add of `id` answers on a machine with `max_cpus` slots, as far as
/// those tell.
pub open spec fn in_range(id: u32, max_cpus: u32) -> Result<(), CpuHotplugError> {
    if id >= max_cpus {
        Err(CpuHotplugError::OutOfRange { id, max_cpus })
    } else {
        Ok(())
    }
}

/// What an add of `id` answers on a machine that booted with `boot_cpus` CPUs
/// and spent the ids of `consumed`, as far as those tell.
pub open spec fn spare(id: u32, boot_cpus: u32, consumed: Set<u32>) -> Result<
    (),
    CpuHotplugError,
> {
    if id < boot_cpus {
        Err(CpuHotplugError::BootCpu(id))
    } else if consumed.contains(id) {
        Err(CpuHotplugError::Consumed(id))
    } else {
        Ok(())
    }
}

/// What an add of a spare CPU answers, where `online` says whether it runs.
pub open spec fn idle(id: u32, online: bool) -> Result<(), CpuHotplugError> {
    if online {
        Err(CpuHotplugError::AlreadyOnline(id))
    } else {
        Ok(())
    }
}

/// Refuse an id past the slots of a machine that has `max_cpus`.
pub fn check_range(id: u32, max_cpus: u32) -> (r: Result<(), CpuHotplugError>)
    ensures
        r == in_range(id, max_cpus),
{
    if id >= max_cpus {
        Err(CpuHotplugError::OutOfRange { id, max_cpus })
    } else {
        Ok(())
    }
}

/// Refuse a CPU that runs already.
pub fn check_idle(id: u32, online: bool) -> (r: Result<(), CpuHotplugError>)
    ensures
        r == idle(id, online),
{
    if online {
        Err(CpuHotplugError::AlreadyOnline(id))
    } else {
        Ok(())
    }
}

/// What an add answers where the machine answered `a`.
pub open spec fn added(a: Result<(), VcpuError>) -> Result<(), CpuHotplugError> {
    match a {
        Ok(()) => Ok(()),
        Err(e) => Err(CpuHotplugError::Online(e)),
    }
}

/// Everything an add or an eject decides on.
pub struct CpuHotplugEngine {
    regs: CpuHotplug,
    /// Ids the kernel activated for an add that then failed.
    consumed: BTreeSet<u32>,
}

/// What the engine knows.
pub ghost struct CpuHot {
    pub regs: CpuRegs,
    pub consumed: Set<u32>,
}

pub open spec fn ascending(v: Seq<u32>) -> bool {
    forall|i: int, j: int| 0 <= i < j < v.len() ==> v[i] < v[j]
}

impl View for CpuHotplugEngine {
    type V = CpuHot;

    closed spec fn view(&self) -> CpuHot {
        CpuHot { regs: self.regs@, consumed: self.consumed@ }
    }
}

impl CpuHot {
    /// What is left of an add that came back with `result`.
    ///
    /// The guest is told of a CPU only once it is there. A failure behind the
    /// activation spends the id for the life of the VM.
    pub open spec fn finished(self, id: u32, result: Result<(), VcpuError>) -> CpuHot {
        match result {
            Ok(()) => CpuHot { regs: self.regs.added(id as int), ..self },
            Err(e) => if e.leaves_inactive() {
                self
            } else {
                CpuHot { consumed: self.consumed.insert(id), ..self }
            },
        }
    }

    /// The answers to a row of ejects, in their order, where `online` says of
    /// each whether the CPU runs.
    pub open spec fn ejects_refused(self, ids: Seq<int>, online: Seq<bool>) -> CpuHot
        decreases ids.len(),
    {
        if ids.len() == 0 {
            self
        } else {
            self.ejects_refused(ids.drop_last(), online.drop_last()).eject_refused(
                ids.last() as u32,
                online.last(),
            )
        }
    }

    /// Every request taken out of the register file.
    pub open spec fn drained(self) -> CpuHot {
        CpuHot { regs: self.regs.taken(), ..self }
    }

    /// The answer to an eject: a CPU that runs is offered again.
    pub open spec fn eject_refused(self, id: u32, online: bool) -> CpuHot {
        if online {
            CpuHot { regs: self.regs.added(id as int), ..self }
        } else {
            self
        }
    }
}

impl CpuHotplugEngine {
    pub closed spec fn wf(&self) -> bool {
        self.regs@.wf() && self.regs@.slots() <= u32::MAX
    }

    /// Start over a register file.
    pub fn start(regs: CpuHotplug) -> (r: Self)
        requires
            regs@.wf(),
            regs@.slots() <= u32::MAX,
        ensures
            r.wf(),
            r@ == (CpuHot { regs: regs@, consumed: Set::empty() }),
    {
        CpuHotplugEngine { regs, consumed: BTreeSet::new() }
    }

    pub fn regs(&self) -> (r: &CpuHotplug)
        ensures
            r@ == self@.regs,
    {
        &self.regs
    }

    fn is_consumed(&self, id: u32) -> (r: bool)
        ensures
            r == self@.consumed.contains(id),
    {
        broadcast use vstd::std_specs::btree::group_btree_axioms;

        self.consumed.contains(&id)
    }

    /// Refuse an id that the boot set or an earlier add owns.
    pub fn check_spare(&self, id: u32, boot_cpus: u32) -> (r: Result<(), CpuHotplugError>)
        ensures
            r == spare(id, boot_cpus, self@.consumed),
    {
        if id < boot_cpus {
            return Err(CpuHotplugError::BootCpu(id));
        }
        if self.is_consumed(id) {
            return Err(CpuHotplugError::Consumed(id));
        }
        Ok(())
    }

    /// Refuse an id the machine, the boot set or an earlier add owns.
    ///
    /// Every refusal lands before the kernel is asked, so a bad request
    /// activates nothing and consumes no id. The machine is asked no more
    /// than the answer needs: of a CPU that is out of range, a boot CPU or
    /// spent it is not asked whether it runs.
    pub fn check_addable<C: CpuOnline>(&self, cpus: &C, id: u32) -> (r: Result<
        (),
        CpuHotplugError,
    >)
        ensures
            exists|max_cpus: u32|
                #[trigger] call_ensures(C::possible_cpus, (cpus,), max_cpus) && match in_range(
                    id,
                    max_cpus,
                ) {
                    Err(e) => r == Err::<(), CpuHotplugError>(e),
                    Ok(()) => exists|boot_cpus: u32|
                        #[trigger] call_ensures(C::boot_cpus, (cpus,), boot_cpus)
                            && match spare(id, boot_cpus, self@.consumed) {
                            Err(e) => r == Err::<(), CpuHotplugError>(e),
                            Ok(()) => exists|online: bool|
                                #[trigger] call_ensures(C::is_online, (cpus, id), online)
                                    && r == idle(id, online),
                        },
                },
    {
        match check_range(id, cpus.possible_cpus()) {
            Ok(()) => {},
            Err(e) => {
                return Err(e);
            },
        }
        match self.check_spare(id, cpus.boot_cpus()) {
            Ok(()) => {},
            Err(e) => {
                return Err(e);
            },
        }
        check_idle(id, cpus.is_online(id))
    }

    /// Take what came of bringing the CPU online: tell the guest, or spend
    /// the id where the kernel kept it.
    pub fn finish_add(&mut self, id: u32, result: Result<(), VcpuError>) -> (r: Result<
        (),
        CpuHotplugError,
    >)
        requires
            old(self).wf(),
        ensures
            final(self).wf(),
            final(self)@ == old(self)@.finished(id, result),
            r == added(result),
    {
        match result {
            Ok(()) => {
                self.regs.notify_added(id);
                Ok(())
            },
            Err(e) => Err(self.roll_back(id, e)),
        }
    }

    /// Decide whether a failed add gives its id back.
    fn roll_back(&mut self, id: u32, error: VcpuError) -> (r: CpuHotplugError)
        requires
            old(self).wf(),
        ensures
            final(self).wf(),
            final(self)@ == old(self)@.finished(id, Err(error)),
            r == CpuHotplugError::Online(error),
    {
        if !error.left_cpu_inactive() {
            self.consume(id);
        }
        CpuHotplugError::Online(error)
    }

    fn consume(&mut self, id: u32)
        requires
            old(self).wf(),
        ensures
            final(self).wf(),
            final(self)@ == (CpuHot { consumed: old(self)@.consumed.insert(id), ..old(self)@ }),
    {
        broadcast use vstd::std_specs::btree::group_btree_axioms;

        self.consumed.insert(id);
    }

    /// Bring one CPU online, then tell the guest.
    ///
    /// Activation is LAZY, at the moment of the request, and a spare
    /// CPU is never activated in advance: the kernel declares the VM halted
    /// only when every active CPU has halted, and a CPU that the guest has
    /// never onlined never does.
    ///
    /// What the machine answers is not this engine's to say. It is asked for
    /// this CPU alone, and to bring it online only where nothing refuses the
    /// id. The guest hears of the CPU exactly if the add succeeded, and no
    /// spent id is given back.
    pub fn add_cpu<C: CpuOnline>(&mut self, cpus: &mut C, id: u32) -> (r: Result<
        (),
        CpuHotplugError,
    >)
        requires
            old(self).wf(),
        ensures
            final(self).wf(),
            // A refusal leaves everything as it was.
            r is Err && !(r->Err_0 is Online) ==> final(self)@ == old(self)@ && *final(cpus)
                == *old(cpus),
            exists|max_cpus: u32|
                #[trigger] call_ensures(C::possible_cpus, (&*old(cpus),), max_cpus)
                    && match in_range(id, max_cpus) {
                    Err(e) => r == Err::<(), CpuHotplugError>(e),
                    Ok(()) => exists|boot_cpus: u32|
                        #[trigger] call_ensures(C::boot_cpus, (&*old(cpus),), boot_cpus)
                            && match spare(id, boot_cpus, old(self)@.consumed) {
                            Err(e) => r == Err::<(), CpuHotplugError>(e),
                            Ok(()) => exists|online: bool|
                                #[trigger] call_ensures(C::is_online, (&*old(cpus), id), online)
                                    && match idle(id, online) {
                                    Err(e) => r == Err::<(), CpuHotplugError>(e),
                                    Ok(()) => exists|c: &mut C, a: Result<(), VcpuError>|
                                        {
                                            &&& *c == *old(cpus)
                                            &&& *final(c) == *final(cpus)
                                            &&& #[trigger] call_ensures(C::add_vcpu, (c, id), a)
                                            &&& r == added(a)
                                            &&& final(self)@ == old(self)@.finished(id, a)
                                        },
                                },
                        },
                },
    {
        match self.check_addable(cpus, id) {
            Ok(()) => {},
            Err(e) => {
                return Err(e);
            },
        }
        let result = cpus.add_vcpu(id);
        self.finish_add(id, result)
    }

    /// The ids no add can take again, in ascending order.
    pub fn consumed_cpus(&self) -> (r: Vec<u32>)
        requires
            self.wf(),
        ensures
            r@.to_set() == self@.consumed,
            ascending(r@),
    {
        broadcast use vstd::std_specs::btree::group_btree_axioms;

        let mut out: Vec<u32> = Vec::new();
        let ghost all = spec_btree_keys_iter(&self.consumed).remaining();
        for id in it: self.consumed.iter()
            invariant
                it.seq() == all,
                out@ == all.unref().take(it.index()),
        {
            out.push(*id);
            assert(out@ =~= all.unref().take(it.index() + 1));
        }
        proof {
            assert(out@ =~= all.unref());
            assert(obeys_cmp::<&u32>());
            assert(increasing_seq(all));
            assert forall|i: int, j: int| 0 <= i < j < out@.len() implies out@[i] < out@[j] by {
                let (x, y) = (all[i], all[j]);
                assert(out@[i] == *x && out@[j] == *y);
                assert(OrdSpec::cmp_spec(&x, &y) is Less);
            }
        }
        out
    }

    /// Ask the guest for the CPU in slot `id`.
    pub fn notify_removed(&mut self, id: u32)
        requires
            old(self).wf(),
        ensures
            final(self).wf(),
            final(self)@ == (CpuHot { regs: old(self)@.regs.removed(id as int), ..old(self)@ }),
    {
        self.regs.notify_removed(id);
    }

    /// The guest ran an eject of slot `id`.
    pub fn guest_ejects(&mut self, id: u32)
        requires
            old(self).wf(),
        ensures
            final(self).wf(),
            final(self)@ == (CpuHot { regs: old(self)@.regs.ejected(id as int), ..old(self)@ }),
    {
        self.regs.guest_ejects(id);
    }

    /// Take every eject the guest has run since the last pass, in slot order.
    pub fn drain_ejects(&mut self) -> (r: Vec<u32>)
        requires
            old(self).wf(),
        ensures
            final(self).wf(),
            r@.map_values(|s: u32| s as int) == raised(old(self)@.regs.requested),
            final(self)@ == old(self)@.drained(),
    {
        self.regs.take_eject_requests()
    }

    /// Answer one eject. The CPU keeps running.
    ///
    /// The guest now reads the CPU as absent, while the kernel still counts
    /// it. Putting the slot back is the honest answer: the CPU IS there. One
    /// that is not online is not claimed.
    pub fn refuse_eject(&mut self, id: u32, online: bool)
        requires
            old(self).wf(),
        ensures
            final(self).wf(),
            final(self)@ == old(self)@.eject_refused(id, online),
    {
        if online {
            self.regs.notify_added(id);
        }
    }
}

/// The CPU slots of one VM: the engine, and the CPUs it brings online.
pub struct CpuSlots<C: CpuOnline> {
    engine: CpuHotplugEngine,
    vcpus: C,
}

impl<C: CpuOnline> CpuSlots<C> {
    /// What the engine knows.
    pub closed spec fn hot(&self) -> CpuHot {
        self.engine@
    }

    /// The CPUs.
    pub closed spec fn cpus(&self) -> C {
        self.vcpus
    }

    pub closed spec fn wf(&self) -> bool {
        self.engine.wf()
    }

    pub fn new(engine: CpuHotplugEngine, vcpus: C) -> (r: Self)
        requires
            engine.wf(),
        ensures
            r.wf(),
            r.hot() == engine@,
            r.cpus() == vcpus,
    {
        CpuSlots { engine, vcpus }
    }

    /// Bring one CPU online on the running VM.
    pub fn add(&mut self, id: u32) -> (r: Result<(), CpuHotplugError>)
        requires
            old(self).wf(),
        ensures
            final(self).wf(),
            // A refusal leaves everything as it was.
            r is Err && !(r->Err_0 is Online) ==> final(self).hot() == old(self).hot() && final(
                self
            ).cpus() == old(self).cpus(),
            exists|max_cpus: u32|
                #[trigger] call_ensures(C::possible_cpus, (&old(self).cpus(),), max_cpus)
                    && match in_range(id, max_cpus) {
                    Err(e) => r == Err::<(), CpuHotplugError>(e),
                    Ok(()) => exists|boot_cpus: u32|
                        #[trigger] call_ensures(C::boot_cpus, (&old(self).cpus(),), boot_cpus)
                            && match spare(id, boot_cpus, old(self).hot().consumed) {
                            Err(e) => r == Err::<(), CpuHotplugError>(e),
                            Ok(()) => exists|online: bool|
                                #[trigger] call_ensures(C::is_online, (&old(self).cpus(), id), online)
                                    && match idle(id, online) {
                                    Err(e) => r == Err::<(), CpuHotplugError>(e),
                                    Ok(()) => exists|c: &mut C, a: Result<(), VcpuError>|
                                        {
                                            &&& *c == old(self).cpus()
                                            &&& *final(c) == final(self).cpus()
                                            &&& #[trigger] call_ensures(C::add_vcpu, (c, id), a)
                                            &&& r == added(a)
                                            &&& final(self).hot() == old(self).hot().finished(
                                                id,
                                                a,
                                            )
                                        },
                                },
                        },
                },
    {
        assert(self.vcpus == old(self).cpus());
        self.engine.add_cpu(&mut self.vcpus, id)
    }

    /// How many CPUs the boot path brought online, ids 0 upward. The machine
    /// answers.
    pub fn boot_cpus(&self) -> (r: u32)
        ensures
            call_ensures(C::boot_cpus, (&self.cpus(),), r),
    {
        self.vcpus.boot_cpus()
    }

    /// Every CPU slot the tables describe, boot CPUs included. The machine
    /// answers.
    pub fn max_cpus(&self) -> (r: u32)
        ensures
            call_ensures(C::possible_cpus, (&self.cpus(),), r),
    {
        self.vcpus.possible_cpus()
    }

    /// Whether the CPU in `id` is running. The machine answers.
    pub fn is_online(&self, id: u32) -> (r: bool)
        ensures
            call_ensures(C::is_online, (&self.cpus(), id), r),
    {
        self.vcpus.is_online(id)
    }

    /// The ids a failed add spent, in ascending order. No later add can take
    /// one back.
    pub fn consumed(&self) -> (r: Vec<u32>)
        requires
            self.wf(),
        ensures
            r@.to_set() == self.hot().consumed,
            ascending(r@),
    {
        self.engine.consumed_cpus()
    }

    pub fn engine(&self) -> (r: &CpuHotplugEngine)
        ensures
            r@ == self.hot(),
            self.wf() ==> r.wf(),
    {
        &self.engine
    }

    pub fn vcpus(&self) -> (r: &C)
        ensures
            *r == self.cpus(),
    {
        &self.vcpus
    }

    /// The guest ran an eject of slot `id`.
    pub fn guest_ejects(&mut self, id: u32)
        requires
            old(self).wf(),
        ensures
            final(self).wf(),
            final(self).hot() == (CpuHot {
                regs: old(self).hot().regs.ejected(id as int),
                ..old(self).hot()
            }),
            final(self).cpus() == old(self).cpus(),
    {
        self.engine.guest_ejects(id);
    }

    /// Refuse every eject the guest has run since the last pass: each CPU
    /// that is online is offered to the guest again.
    pub fn drain_ejects(&mut self)
        requires
            old(self).wf(),
        ensures
            final(self).wf(),
            final(self).cpus() == old(self).cpus(),
            exists|online: Seq<bool>|
                {
                    let ids = raised(old(self).hot().regs.requested);
                    &&& online.len() == ids.len()
                    &&& forall|k: int|
                        0 <= k < ids.len() ==> call_ensures(
                            C::is_online,
                            (&old(self).cpus(), ids[k] as u32),
                            #[trigger] online[k],
                        )
                    &&& final(self).hot() == #[trigger] old(self).hot().drained().ejects_refused(
                        raised(old(self).hot().regs.requested),
                        online,
                    )
                },
    {
        let ids = self.engine.drain_ejects();
        let ghost all = raised(old(self).hot().regs.requested);
        let ghost start = self.hot();
        let ghost mut answers: Seq<bool> = Seq::empty();
        let mut i: usize = 0;
        assert(all.take(0) =~= Seq::<int>::empty());
        while i < ids.len()
            invariant
                i <= ids@.len(),
                ids@.map_values(|s: u32| s as int) == all,
                self.wf(),
                self.cpus() == old(self).cpus(),
                answers.len() == i,
                forall|k: int|
                    0 <= k < i ==> call_ensures(
                        C::is_online,
                        (&old(self).cpus(), all[k] as u32),
                        #[trigger] answers[k],
                    ),
                self.hot() == start.ejects_refused(all.take(i as int), answers),
            decreases ids@.len() - i,
        {
            let online = self.vcpus.is_online(ids[i]);
            self.engine.refuse_eject(ids[i], online);
            proof {
                let before = answers;
                answers = answers.push(online);
                assert(answers.drop_last() =~= before);
                assert(all.take(i + 1).drop_last() =~= all.take(i as int));
                assert(all[i as int] == ids@[i as int]);
            }
            i += 1;
        }
        assert(all.take(i as int) =~= all);
    }
}

/// A spent id stays spent: no later add, whatever comes of it, gives it back.
pub proof fn consumed_is_for_good(h: CpuHot, id: u32, other: u32, result: Result<(), VcpuError>)
    requires
        h.consumed.contains(id),
    ensures
        h.finished(other, result).consumed.contains(id),
        forall|boot_cpus: u32| #[trigger]
            spare(id, boot_cpus, h.finished(other, result).consumed) is Err,
{
}

/// A VM whose CPUs are all boot CPUs can add none.
pub proof fn no_spare_slot_adds_nothing(id: u32, cpus: u32, consumed: Set<u32>)
    ensures
        in_range(id, cpus) is Err || spare(id, cpus, consumed) is Err,
{
}

/// A refused eject of a running CPU leaves the guest reading it as present,
/// and the guest cannot eject it again on its own.
pub proof fn refused_eject_ends_the_exchange(h: CpuHot, id: u32)
    requires
        h.regs.wf(),
        id < h.regs.slots(),
    ensures
        ({
            let after = h.eject_refused(id, true);
            &&& after.regs.enabled[id as int]
            &&& after.regs.ejected(id as int) == after.regs
        }),
{
}

/// Which ids can be added: those below the slot count that no boot CPU has,
/// that no failed add spent and that do not run. Each of the others is refused
/// for the first of these reasons, in this order.
pub proof fn spare_ids_are_added(
    id: u32,
    max_cpus: u32,
    boot_cpus: u32,
    consumed: Set<u32>,
    online: bool,
)
    ensures
        in_range(id, max_cpus) is Ok <==> id < max_cpus,
        in_range(id, max_cpus) is Err ==> in_range(id, max_cpus)->Err_0
            == (CpuHotplugError::OutOfRange { id, max_cpus }),
        spare(id, boot_cpus, consumed) is Ok <==> id >= boot_cpus && !consumed.contains(id),
        id < boot_cpus ==> spare(id, boot_cpus, consumed)->Err_0 == CpuHotplugError::BootCpu(id),
        id >= boot_cpus && consumed.contains(id) ==> spare(id, boot_cpus, consumed)->Err_0
            == CpuHotplugError::Consumed(id),
        idle(id, online) is Ok <==> !online,
        online ==> idle(id, online)->Err_0 == CpuHotplugError::AlreadyOnline(id),
{
}

/// What an add comes to: a CPU that came up is present to the guest, which is
/// told; one whose thread never started can be tried again; and any other
/// failure spends the id. No other id is touched.
pub proof fn adds_come_to(h: CpuHot, id: u32, other: u32, e: VcpuError)
    requires
        h.regs.wf(),
        id < h.regs.slots(),
        other < h.regs.slots(),
        other != id,
        h.regs.events < u64::MAX,
    ensures
        ({
            let up = h.finished(id, Ok(()));
            let down = h.finished(id, Err(e));
            &&& up.regs.enabled[id as int] && up.regs.inserting[id as int]
            &&& up.regs.enabled[other as int] == h.regs.enabled[other as int]
            &&& up.regs.inserting[other as int] == h.regs.inserting[other as int]
            &&& up.regs.events == h.regs.events + 1
            &&& up.consumed == h.consumed
            &&& down.regs == h.regs
            &&& e is Spawn ==> down.consumed == h.consumed
            &&& !(e is Spawn) ==> down.consumed == h.consumed.insert(id)
            &&& added(Ok(())) is Ok
            &&& added(Err(e)) == Err::<(), CpuHotplugError>(CpuHotplugError::Online(e))
        }),
{
}

/// A CPU that the guest gave back while it still runs is offered again, and
/// one that does not run is left alone; the requests that were drained are
/// pending no more.
pub proof fn drained_ejects_are_answered(h: CpuHot, id: u32, k: int)
    requires
        h.regs.wf(),
        id < h.regs.slots(),
        0 <= k < h.regs.slots(),
    ensures
        h.eject_refused(id, false) == h,
        h.eject_refused(id, true).regs.enabled[id as int],
        h.eject_refused(id, true).regs.inserting[id as int],
        !h.eject_refused(id, true).regs.leaving[id as int],
        h.eject_refused(id, true).consumed == h.consumed,
        !h.drained().regs.requested[k],
        h.drained().regs.enabled == h.regs.enabled,
        h.drained().consumed == h.consumed,
{
}

/// An ascending list names nothing twice.
pub proof fn ascending_lists_repeat_nothing(v: Seq<u32>, i: int, j: int)
    requires
        ascending(v),
        0 <= i < v.len(),
        0 <= j < v.len(),
    ensures
        i != j ==> v[i] != v[j],
        i < j ==> v[i] < v[j],
{
}

/// Drained ejects are answered one by one, in the order of their ids, each by
/// whether its own CPU runs.
pub proof fn ejects_are_answered_in_order(
    h: CpuHot,
    ids: Seq<int>,
    online: Seq<bool>,
    id: u32,
    runs: bool,
)
    requires
        ids.len() == online.len(),
    ensures
        h.ejects_refused(Seq::empty(), Seq::empty()) == h,
        h.ejects_refused(ids.push(id as int), online.push(runs)) == h.ejects_refused(
            ids,
            online,
        ).eject_refused(id, runs),
{
    assert(ids.push(id as int).drop_last() =~= ids);
    assert(online.push(runs).drop_last() =~= online);
}

} // verus!
