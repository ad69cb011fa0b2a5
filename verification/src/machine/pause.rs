//! One count over the kernel's single VM pause flag.
//!
//! The kernel keeps one boolean per instance and refuses a second pause. A
//! resume from either owner starts the VM under the other. Two paths stop the
//! whole VM: the operator's `pause` command, and the bus change a hot-unplug
//! makes. The guest picks the moment it ejects, so it picks when the second
//! one happens.
//!
//! Both go through one [`VmPauseGate`]. The first hold pauses the
//! instance and the last release resumes it, so neither owner reads the
//! other's hold as a failure and neither starts the VM while the other
//! still needs it stopped.

use vstd::prelude::*;

use crate::text::owned;

verus! {

/// Why a pause or a resume failed.
#[derive(Debug, PartialEq, Eq)]
pub enum PauseError {
    /// The instance refused, for its own reason.
    Refused(String),
    /// A resume with no pause to give up.
    NoHold,
}

impl PauseError {
    pub open spec fn spec_text(self) -> Seq<char> {
        match self {
            PauseError::Refused(reason) => reason@,
            PauseError::NoHold => "a resume with no pause to give up"@,
        }
    }

    /// The error as an operator reads it.
    pub fn to_text(&self) -> (r: String)
        ensures
            r@ == self.spec_text(),
    {
        match self {
            PauseError::Refused(reason) => reason.clone(),
            PauseError::NoHold => owned("a resume with no pause to give up"),
        }
    }
}

/// Stops every vCPU while something changes shape underneath them.
pub trait VmPause: Sized {
    fn pause(&mut self) -> Result<(), PauseError>;

    fn resume(&mut self) -> Result<(), PauseError>;
}

/// What a holder's call has to do to the instance.
#[derive(Debug, Clone, Copy, PartialEq, Eq, Structural)]
pub enum GateStep {
    /// Nothing: another hold keeps the VM stopped.
    Nothing,
    /// Stop the VM.
    Pause,
    /// Start the VM.
    Resume,
    /// There is no hold to give up.
    Refuse,
}

/// What taking a hold does, with `holds` of them taken.
pub open spec fn on_pause(holds: nat) -> GateStep {
    if holds == 0 {
        GateStep::Pause
    } else {
        GateStep::Nothing
    }
}

/// What giving up a hold does, with `holds` of them taken.
pub open spec fn on_resume(holds: nat) -> GateStep {
    if holds == 0 {
        GateStep::Refuse
    } else if holds == 1 {
        GateStep::Resume
    } else {
        GateStep::Nothing
    }
}

/// One hold more. A VM cannot have 2^32 pause holders; the count then stays.
pub open spec fn held(holds: nat) -> nat {
    if holds < u32::MAX {
        holds + 1
    } else {
        holds
    }
}

/// How many hold the pause, and what each of their calls does.
pub struct PauseCount {
    holds: u32,
}

impl View for PauseCount {
    type V = nat;

    closed spec fn view(&self) -> nat {
        self.holds as nat
    }
}

impl PauseCount {
    pub fn new() -> (r: Self)
        ensures
            r@ == 0,
    {
        PauseCount { holds: 0 }
    }

    /// What taking a hold has to do first.
    pub fn before_pause(&self) -> (r: GateStep)
        ensures
            r == on_pause(self@),
    {
        if self.holds == 0 {
            GateStep::Pause
        } else {
            GateStep::Nothing
        }
    }

    /// What giving up a hold has to do first.
    pub fn before_resume(&self) -> (r: GateStep)
        ensures
            r == on_resume(self@),
    {
        if self.holds == 0 {
            GateStep::Refuse
        } else if self.holds == 1 {
            GateStep::Resume
        } else {
            GateStep::Nothing
        }
    }

    /// A hold was taken.
    pub fn hold(&mut self)
        ensures
            final(self)@ == held(old(self)@),
    {
        if self.holds < u32::MAX {
            self.holds = self.holds + 1;
        }
    }

    /// A hold was given up.
    pub fn release(&mut self)
        requires
            old(self)@ > 0,
        ensures
            final(self)@ == old(self)@ - 1,
    {
        self.holds = self.holds - 1;
    }

    /// The instance answered the first hold. A refused pause takes no hold.
    pub fn paused(&mut self, answer: Result<(), PauseError>) -> (r: Result<(), PauseError>)
        ensures
            r == answer,
            final(self)@ == if answer is Ok {
                held(old(self)@)
            } else {
                old(self)@
            },
    {
        if answer.is_ok() {
            self.hold();
        }
        answer
    }

    /// The instance answered the last release. One that would not start is
    /// still held.
    pub fn resumed(&mut self, answer: Result<(), PauseError>) -> (r: Result<(), PauseError>)
        requires
            old(self)@ > 0,
        ensures
            r == answer,
            final(self)@ == if answer is Ok {
                (old(self)@ - 1) as nat
            } else {
                old(self)@
            },
    {
        if answer.is_ok() {
            self.release();
        }
        answer
    }

    pub fn is_held(&self) -> (r: bool)
        ensures
            r == (self@ > 0),
    {
        self.holds > 0
    }
}

/// A refcount over one instance's pause.
pub struct VmPauseGate<P: VmPause> {
    instance: P,
    count: PauseCount,
}

impl<P: VmPause> VmPauseGate<P> {
    /// How many hold the pause.
    pub closed spec fn holds(&self) -> nat {
        self.count@
    }

    pub closed spec fn spec_instance(&self) -> P {
        self.instance
    }

    pub fn new(instance: P) -> (r: Self)
        ensures
            r.holds() == 0,
            r.spec_instance() == instance,
    {
        VmPauseGate { instance, count: PauseCount::new() }
    }

    /// Whether anything holds the pause.
    pub fn is_held(&self) -> (r: bool)
        ensures
            r == (self.holds() > 0),
    {
        self.count.is_held()
    }

    pub fn instance(&self) -> (r: &P)
        ensures
            *r == self.spec_instance(),
    {
        &self.instance
    }
}

impl<P: VmPause> VmPause for VmPauseGate<P> {
    /// Take a hold, pausing the instance when it is the first.
    ///
    /// A refused pause takes no hold.
    fn pause(&mut self) -> (r: Result<(), PauseError>)
        ensures
            r is Ok ==> final(self).holds() == held(old(self).holds()),
            r is Err ==> final(self).holds() == old(self).holds(),
            old(self).holds() > 0 ==> r is Ok && final(self).spec_instance() == old(
                self
            ).spec_instance(),
            // The instance is asked, and what it answers is returned.
            old(self).holds() == 0 ==> exists|p: &mut P|
                *p == old(self).spec_instance() && *final(p) == final(self).spec_instance()
                    && #[trigger] call_ensures(P::pause, (p,), r),
    {
        if self.count.before_pause() == GateStep::Pause {
            let answer = self.instance.pause();
            return self.count.paused(answer);
        }
        self.count.hold();
        Ok(())
    }

    /// Give up a hold, resuming the instance when it was the last.
    fn resume(&mut self) -> (r: Result<(), PauseError>)
        ensures
            r is Ok ==> final(self).holds() == old(self).holds() - 1,
            r is Err ==> final(self).holds() == old(self).holds(),
            old(self).holds() == 0 ==> r == Err::<(), PauseError>(PauseError::NoHold),
            old(self).holds() > 1 ==> r is Ok,
            old(self).holds() != 1 ==> final(self).spec_instance() == old(self).spec_instance(),
            // The instance is asked, and what it answers is returned.
            old(self).holds() == 1 ==> exists|p: &mut P|
                *p == old(self).spec_instance() && *final(p) == final(self).spec_instance()
                    && #[trigger] call_ensures(P::resume, (p,), r),
    {
        match self.count.before_resume() {
            GateStep::Refuse => Err(PauseError::NoHold),
            GateStep::Resume => {
                let answer = self.instance.resume();
                self.count.resumed(answer)
            },
            // Somebody else still needs the VM stopped.
            _ => {
                self.count.release();
                Ok(())
            },
        }
    }
}

/// A second holder neither stops the VM again nor starts it early: between
/// the first hold and the last release nothing reaches the instance.
pub proof fn inner_holds_are_silent(holds: nat)
    requires
        0 < holds < u32::MAX,
    ensures
        on_pause(holds) == GateStep::Nothing,
        held(holds) == holds + 1,
        on_resume(held(holds)) == GateStep::Nothing,
{
}

/// The instance is paused by the first hold alone and resumed by the last
/// release alone, and a release without a hold is refused.
pub proof fn outer_holds_reach_the_instance(holds: nat)
    ensures
        on_pause(holds) == GateStep::Pause <==> holds == 0,
        on_resume(holds) == GateStep::Refuse <==> holds == 0,
        on_resume(holds) == GateStep::Resume <==> holds == 1,
        on_pause(holds) != GateStep::Resume && on_pause(holds) != GateStep::Refuse,
        on_resume(holds) != GateStep::Pause,
        holds < u32::MAX ==> held(holds) == holds + 1,
        held(holds) >= holds,
{
}

} // verus!
