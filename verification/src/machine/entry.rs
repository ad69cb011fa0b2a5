//! What every VMM binary decides before it runs a VM and after it.

use vstd::prelude::*;
use vstd::string::*;

use crate::text::same;

verus! {

/// How a run ended.
#[derive(Debug, Clone, Copy, PartialEq, Eq, Structural)]
pub enum RunOutcome {
    Reboot,
    PowerOff,
    Halt,
    /// The vCPU the fault is reported against.
    TripleFault(i32),
    GuestFault,
}

/// Whether an argument asks for the version.
pub open spec fn asks_for_version(arg: Seq<char>) -> bool {
    arg == "--version"@ || arg == "-V"@
}

/// Whether the argv asks for the version. Answered before the arguments are
/// parsed so it works with the required ones absent.
pub fn version_requested(args: &[String]) -> (r: bool)
    ensures
        r == exists|i: int| 0 <= i < args@.len() && asks_for_version(#[trigger] args@[i]@),
{
    let mut i: usize = 0;
    while i < args.len()
        invariant
            i <= args@.len(),
            forall|k: int| 0 <= k < i ==> !asks_for_version(#[trigger] args@[k]@),
        decreases args@.len() - i,
    {
        let arg = args[i].as_str();
        if same(arg, "--version") || same(arg, "-V") {
            assert(asks_for_version(args@[i as int]@));
            return true;
        }
        i += 1;
    }
    false
}

/// The exit code the zone brand reads for a run that ended.
pub open spec fn code_of(outcome: RunOutcome) -> u8 {
    match outcome {
        RunOutcome::Reboot => 0,
        RunOutcome::PowerOff => 1,
        RunOutcome::Halt => 2,
        RunOutcome::TripleFault(_) => 3,
        RunOutcome::GuestFault => 4,
    }
}

/// The exit code the zone brand reads for a run that ended.
///
/// They are not cosmetic: the kernel restarts a zone's init only on exit 0
/// and halts the zone on anything else. A guest that powers itself off must
/// therefore NOT exit 0, or the zone restarts it for ever.
pub fn exit_code(outcome: RunOutcome) -> (r: u8)
    ensures
        r == code_of(outcome),
{
    match outcome {
        RunOutcome::Reboot => 0,
        RunOutcome::PowerOff => 1,
        RunOutcome::Halt => 2,
        RunOutcome::TripleFault(_) => 3,
        // Distinct from HALT, or a guest fault reads as a clean halt.
        RunOutcome::GuestFault => 4,
    }
}

/// Only a reboot restarts the zone, and no two ends of a run but two triple
/// faults share a code.
pub proof fn only_a_reboot_restarts(a: RunOutcome, b: RunOutcome)
    ensures
        code_of(a) == 0 <==> a == RunOutcome::Reboot,
        code_of(a) == code_of(b) ==> a == b || (a is TripleFault && b is TripleFault),
{
}

/// What a supervisor reads in the exit code: 0 to start the VM again, 1 for a
/// power off, 2 for a halt, 3 for a triple fault and 4 for any other fault.
pub proof fn exit_codes_are_fixed(outcome: RunOutcome)
    ensures
        outcome == RunOutcome::Reboot ==> code_of(outcome) == 0,
        outcome == RunOutcome::PowerOff ==> code_of(outcome) == 1,
        outcome == RunOutcome::Halt ==> code_of(outcome) == 2,
        outcome is TripleFault ==> code_of(outcome) == 3,
        outcome == RunOutcome::GuestFault ==> code_of(outcome) == 4,
{
}

} // verus!
