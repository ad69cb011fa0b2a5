//! The shutdown watchdog: the SIGTERM escalation, and the clock every
//! teardown is held to.
//!
//! All times are milliseconds of one monotonic clock.

use vstd::prelude::*;

verus! {

/// How often the watchdog looks.
pub const POLL_INTERVAL_MS: u64 = 500;

/// How long the guest gets to act on the stop request.
pub const GRACEFUL_BUDGET_MS: u64 = 30_000;

/// How long the hard stop gets before the process is ended.
///
/// This covers a VMM that never reached its teardown at all. A teardown
/// that is running is held to the deadline it armed instead, because
/// its own work scales with the device count and this constant cannot.
pub const HARD_BUDGET_MS: u64 = 20_000;

/// How long the last log line gets to leave the async drain.
pub const LOG_DRAIN_GRACE_MS: u64 = 250;

/// Exit code for a VMM that outlived its own shutdown.
///
/// Distinct from the guest-caused codes, because this
/// one says the VMM itself would not stop.
pub const WEDGED_EXIT: i32 = 4;

/// The `source` a suspend that did not come from a guest CPU carries.
///
/// The kernel reads -1 as "a device or the VMM". Zero names guest CPU 0, so a
/// stop the operator asked for would be reported against a CPU that did not
/// ask.
pub const SUSPEND_SOURCE_VMM: i32 = -1;

/// How a shutdown reaches the VM.
///
/// A VM with a control plane stops through it: only the control plane knows
/// whether an operator has the VM paused.
pub trait GuestStop: Sized {
    /// Ask the guest to power off.
    fn request_poweroff(&mut self) -> Result<(), String>;

    /// Stop the VM whether the guest agreed or not.
    fn halt(&mut self) -> Result<(), String>;
}

/// The deadline after a teardown asked for `budget` at `now`.
///
/// A budget too large to add to the clock arms nothing, which keeps the fixed
/// escalation rather than granting an unbounded one.
pub open spec fn armed(current: Option<u64>, now: u64, budget: u64) -> Option<u64> {
    if now + budget > u64::MAX {
        current
    } else if current is Some && current->0 >= now + budget {
        current
    } else {
        Some((now + budget) as u64)
    }
}

/// Give the running teardown a deadline the escalation holds it to.
///
/// Teardown calls this before its first wait, with a budget sized from
/// the work it is about to do. A later call can only push the deadline
/// out: shortening one would cut a running flush short.
pub fn arm_teardown_deadline(current: Option<u64>, now: u64, budget: u64) -> (r: Option<u64>)
    ensures
        r == armed(current, now, budget),
{
    let deadline: u64 = match now.checked_add(budget) {
        Some(deadline) => deadline,
        None => {
            return current;
        },
    };
    match current {
        Some(c) => if deadline > c {
            Some(deadline)
        } else {
            current
        },
        None => Some(deadline),
    }
}

/// Why a VMM is ended without its teardown.
#[derive(Debug, Clone, Copy, PartialEq, Eq, Structural)]
pub enum Wedge {
    /// The VMM never reached its teardown.
    NoTeardown,
    /// Teardown did not finish inside its deadline.
    TeardownOverran,
}

/// Where a shutdown stands.
#[derive(Debug, Clone, Copy, PartialEq, Eq, Structural)]
pub enum Watch {
    /// Nothing has asked the VMM to stop.
    Idle,
    /// The guest was asked to power off, and has `left` to do so.
    Graceful { left: u64 },
    /// The VM was halted, and its teardown has `left` to begin.
    Hard { left: u64 },
    /// Teardown is running under the deadline it first showed.
    Teardown { armed: u64 },
    /// Nothing is left to try.
    Over,
}

/// What the watchdog does next.
#[derive(Debug, Clone, Copy, PartialEq, Eq, Structural)]
pub enum WatchAction {
    /// Sleep for some milliseconds, then look again.
    Wait(u64),
    /// Ask the guest to power off.
    RequestPoweroff,
    /// Stop the VM whether the guest agreed or not.
    Halt,
    /// End the process.
    GiveUp(Wedge),
    /// The watch is over.
    Stop,
}

pub open spec fn least(a: u64, b: u64) -> u64 {
    if a <= b {
        a
    } else {
        b
    }
}

/// What a running teardown gets: a look again while its deadline is ahead,
/// and the end once it has passed.
pub open spec fn held_to(first: u64, deadline: Option<u64>, now: u64) -> (Watch, WatchAction) {
    let d = match deadline {
        Some(d) => d,
        None => first,
    };
    if d > now {
        (
            Watch::Teardown { armed: first },
            WatchAction::Wait(least((d - now) as u64, POLL_INTERVAL_MS)),
        )
    } else {
        (Watch::Over, WatchAction::GiveUp(Wedge::TeardownOverran))
    }
}

/// What one look at the clock, the signal and the deadline comes to.
///
/// The deadline is read before the signal. A SIGTERM that lands on a
/// teardown that is already running must watch that teardown, because
/// the guest it would ask to stop has stopped.
pub open spec fn watched(w: Watch, now: u64, signalled: bool, deadline: Option<u64>) -> (
    Watch,
    WatchAction,
) {
    match w {
        Watch::Over => (Watch::Over, WatchAction::Stop),
        Watch::Teardown { armed } => held_to(armed, deadline, now),
        Watch::Idle => if deadline is Some {
            held_to(deadline->0, deadline, now)
        } else if signalled {
            (Watch::Graceful { left: GRACEFUL_BUDGET_MS }, WatchAction::RequestPoweroff)
        } else {
            (Watch::Idle, WatchAction::Wait(POLL_INTERVAL_MS))
        },
        Watch::Graceful { left } => if deadline is Some {
            held_to(deadline->0, deadline, now)
        } else if left == 0 {
            (Watch::Hard { left: HARD_BUDGET_MS }, WatchAction::Halt)
        } else {
            (
                Watch::Graceful { left: (left - least(left, POLL_INTERVAL_MS)) as u64 },
                WatchAction::Wait(least(left, POLL_INTERVAL_MS)),
            )
        },
        Watch::Hard { left } => if deadline is Some {
            held_to(deadline->0, deadline, now)
        } else if left == 0 {
            (Watch::Over, WatchAction::GiveUp(Wedge::NoTeardown))
        } else {
            (
                Watch::Hard { left: (left - least(left, POLL_INTERVAL_MS)) as u64 },
                WatchAction::Wait(least(left, POLL_INTERVAL_MS)),
            )
        },
    }
}

/// Hold a running teardown to the deadline it armed. A deadline that was
/// pushed out since counts as it stands now.
fn watch_teardown(first: u64, deadline: Option<u64>, now: u64) -> (r: (Watch, WatchAction))
    ensures
        r == held_to(first, deadline, now),
{
    let d: u64 = match deadline {
        Some(d) => d,
        None => first,
    };
    if d > now {
        let left: u64 = d - now;
        let slice: u64 = if left <= POLL_INTERVAL_MS {
            left
        } else {
            POLL_INTERVAL_MS
        };
        (Watch::Teardown { armed: first }, WatchAction::Wait(slice))
    } else {
        (Watch::Over, WatchAction::GiveUp(Wedge::TeardownOverran))
    }
}

/// One slice of a budget, and what is left of it.
///
/// The wait is sliced so that a teardown starting near the end of a
/// budget is watched, and not cut off by the step that follows it.
fn slice_of(left: u64) -> (r: (u64, u64))
    ensures
        r.0 == least(left, POLL_INTERVAL_MS),
        r.1 == left - r.0,
{
    let slice: u64 = if left <= POLL_INTERVAL_MS {
        left
    } else {
        POLL_INTERVAL_MS
    };
    (slice, left - slice)
}

impl Watch {
    /// Look once, and say what to do.
    ///
    /// Not the signal alone: a guest that powers itself off runs the same
    /// teardown, over the same devices, and it needs the same watch. Reaching
    /// a later step means the step before it did not work: a VM that stopped
    /// ends the process, and the watch with it.
    pub fn look(&mut self, now: u64, signalled: bool, deadline: Option<u64>) -> (r: WatchAction)
        ensures
            (*final(self), r) == watched(*old(self), now, signalled, deadline),
    {
        let (next, action) = match *self {
            Watch::Over => (Watch::Over, WatchAction::Stop),
            Watch::Teardown { armed } => watch_teardown(armed, deadline, now),
            Watch::Idle => match deadline {
                Some(d) => watch_teardown(d, deadline, now),
                None => if signalled {
                    (Watch::Graceful { left: GRACEFUL_BUDGET_MS }, WatchAction::RequestPoweroff)
                } else {
                    (Watch::Idle, WatchAction::Wait(POLL_INTERVAL_MS))
                },
            },
            Watch::Graceful { left } => match deadline {
                Some(d) => watch_teardown(d, deadline, now),
                None => if left == 0 {
                    (Watch::Hard { left: HARD_BUDGET_MS }, WatchAction::Halt)
                } else {
                    let (slice, rest) = slice_of(left);
                    (Watch::Graceful { left: rest }, WatchAction::Wait(slice))
                },
            },
            Watch::Hard { left } => match deadline {
                Some(d) => watch_teardown(d, deadline, now),
                None => if left == 0 {
                    (Watch::Over, WatchAction::GiveUp(Wedge::NoTeardown))
                } else {
                    let (slice, rest) = slice_of(left);
                    (Watch::Hard { left: rest }, WatchAction::Wait(slice))
                },
            },
        };
        *self = next;
        action
    }

    /// Look once, and do what concerns the VM. A request that does not reach
    /// it changes nothing: the next step is due all the same.
    pub fn step<G: GuestStop>(
        &mut self,
        vm: &mut G,
        now: u64,
        signalled: bool,
        deadline: Option<u64>,
    ) -> (r: WatchAction)
        ensures
            (*final(self), r) == watched(*old(self), now, signalled, deadline),
            // The VM is asked for what the action says, and for nothing else.
            r is RequestPoweroff ==> exists|g: &mut G, a: Result<(), String>|
                *g == *old(vm) && *final(g) == *final(vm) && #[trigger] call_ensures(
                    G::request_poweroff,
                    (g,),
                    a,
                ),
            r is Halt ==> exists|g: &mut G, a: Result<(), String>|
                *g == *old(vm) && *final(g) == *final(vm) && #[trigger] call_ensures(
                    G::halt,
                    (g,),
                    a,
                ),
            !(r is RequestPoweroff) && !(r is Halt) ==> *final(vm) == *old(vm),
    {
        let action = self.look(now, signalled, deadline);
        match action {
            WatchAction::RequestPoweroff => {
                let _ = vm.request_poweroff();
            },
            WatchAction::Halt => {
                let _ = vm.halt();
            },
            WatchAction::Wait(_) | WatchAction::GiveUp(_) | WatchAction::Stop => {},
        }
        action
    }
}

// ---- Laws ------------------------------------------------------------------

/// A later call never shortens a deadline, and the clock it set is not before
/// what it asked for.
pub proof fn deadline_only_moves_out(current: Option<u64>, now: u64, budget: u64)
    ensures
        current matches Some(c) ==> armed(current, now, budget) is Some && armed(
            current,
            now,
            budget,
        )->0 >= c,
        now + budget <= u64::MAX ==> armed(current, now, budget) is Some && armed(
            current,
            now,
            budget,
        )->0 >= now + budget,
{
}

/// While a teardown has armed its clock, the guest is asked for nothing, and
/// the process is not ended before the deadline in force.
pub proof fn running_teardown_is_left_to_finish(
    w: Watch,
    now: u64,
    signalled: bool,
    deadline: u64,
)
    requires
        !(w is Over),
        now < deadline,
    ensures
        ({
            let r = watched(w, now, signalled, Some(deadline));
            &&& r.0 is Teardown
            &&& r.1 is Wait
            &&& 0 < r.1->Wait_0 <= deadline - now
        }),
{
}

/// A teardown past its deadline ends the process at the next look.
pub proof fn overrun_teardown_is_ended(w: Watch, now: u64, signalled: bool, deadline: u64)
    requires
        !(w is Over),
        deadline <= now,
    ensures
        watched(w, now, signalled, Some(deadline)).1 == WatchAction::GiveUp(
            Wedge::TeardownOverran,
        ),
{
}

/// The watch after `n` looks at which no teardown had armed a clock.
pub open spec fn unanswered(w: Watch, n: nat) -> Watch
    decreases n,
{
    if n == 0 {
        w
    } else {
        watched(unanswered(w, (n - 1) as nat), 0, true, None).0
    }
}

/// How long the watch has slept after `n` such looks.
pub open spec fn slept(w: Watch, n: nat) -> nat
    decreases n,
{
    if n == 0 {
        0
    } else {
        slept(w, (n - 1) as nat) + match watched(unanswered(w, (n - 1) as nat), 0, true, None).1 {
            WatchAction::Wait(ms) => ms as nat,
            _ => 0,
        }
    }
}

proof fn budget_is_spent(budget: u64, n: nat)
    requires
        n * POLL_INTERVAL_MS <= budget,
    ensures
        unanswered(Watch::Graceful { left: budget }, n) == (Watch::Graceful {
            left: (budget - n * POLL_INTERVAL_MS) as u64,
        }),
        slept(Watch::Graceful { left: budget }, n) == n * POLL_INTERVAL_MS,
        unanswered(Watch::Hard { left: budget }, n) == (Watch::Hard {
            left: (budget - n * POLL_INTERVAL_MS) as u64,
        }),
        slept(Watch::Hard { left: budget }, n) == n * POLL_INTERVAL_MS,
    decreases n,
{
    if n > 0 {
        budget_is_spent(budget, (n - 1) as nat);
    }
}

/// A guest that never answers is halted once its whole budget has passed, and
/// a VMM that never reaches its teardown is ended once the second one has.
pub proof fn escalation_takes_its_whole_budgets()
    ensures
        ({
            let asked = Watch::Graceful { left: GRACEFUL_BUDGET_MS };
            &&& slept(asked, 60) == GRACEFUL_BUDGET_MS
            &&& watched(unanswered(asked, 60), 0, true, None) == (
                Watch::Hard { left: HARD_BUDGET_MS },
                WatchAction::Halt,
            )
        }),
        ({
            let halted = Watch::Hard { left: HARD_BUDGET_MS };
            &&& slept(halted, 40) == HARD_BUDGET_MS
            &&& watched(unanswered(halted, 40), 0, true, None).1 == WatchAction::GiveUp(
                Wedge::NoTeardown,
            )
        }),
{
    budget_is_spent(GRACEFUL_BUDGET_MS, 60);
    budget_is_spent(HARD_BUDGET_MS, 40);
}

/// What a watch does with no teardown in sight: it looks every half second; a
/// signal makes it ask the guest to power off and wait thirty seconds; then it
/// halts the VM and waits twenty; then it gives up. A watch that is over stops.
pub proof fn signals_escalate(now: u64, signalled: bool, left: u64)
    ensures
        watched(Watch::Idle, now, true, None) == (
            Watch::Graceful { left: 30_000 },
            WatchAction::RequestPoweroff,
        ),
        watched(Watch::Idle, now, false, None) == (Watch::Idle, WatchAction::Wait(500)),
        watched(Watch::Graceful { left: 0 }, now, signalled, None) == (
            Watch::Hard { left: 20_000 },
            WatchAction::Halt,
        ),
        watched(Watch::Hard { left: 0 }, now, signalled, None) == (
            Watch::Over,
            WatchAction::GiveUp(Wedge::NoTeardown),
        ),
        watched(Watch::Over, now, signalled, None) == (Watch::Over, WatchAction::Stop),
        left > 0 ==> {
            let ms = if left <= 500 {
                left
            } else {
                500
            };
            &&& watched(Watch::Graceful { left }, now, signalled, None) == (
                Watch::Graceful { left: (left - ms) as u64 },
                WatchAction::Wait(ms),
            )
            &&& watched(Watch::Hard { left }, now, signalled, None) == (
                Watch::Hard { left: (left - ms) as u64 },
                WatchAction::Wait(ms),
            )
        },
{
}

/// A teardown that has begun is watched under the deadline that stands now,
/// or under its first one where that was taken back, half a second at a time.
pub proof fn teardown_is_watched(w: Watch, now: u64, signalled: bool, deadline: Option<u64>)
    requires
        !(w is Over),
        w is Teardown || deadline is Some,
    ensures
        ({
            let first = if w is Teardown {
                w->armed
            } else {
                deadline->0
            };
            let until = if deadline is Some {
                deadline->0
            } else {
                first
            };
            let (next, action) = watched(w, now, signalled, deadline);
            &&& until > now ==> next == (Watch::Teardown { armed: first }) && action
                == WatchAction::Wait(
                if until - now <= 500 {
                    (until - now) as u64
                } else {
                    500
                },
            )
            &&& until <= now ==> next == Watch::Over && action == WatchAction::GiveUp(
                Wedge::TeardownOverran,
            )
        }),
{
}

/// Arming sets the later of the two deadlines, and one past the end of time
/// changes nothing.
pub proof fn later_deadline_stands(current: Option<u64>, now: u64, budget: u64)
    ensures
        now + budget <= u64::MAX && current is None ==> armed(current, now, budget) == Some(
            (now + budget) as u64,
        ),
        now + budget <= u64::MAX && current is Some ==> armed(current, now, budget)->0
            == if current->0 >= now + budget {
            current->0 as int
        } else {
            now + budget
        },
        now + budget > u64::MAX ==> armed(current, now, budget) == current,
{
}

} // verus!
