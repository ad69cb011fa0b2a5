//! The bound the eject path puts on a device release.
//!
//! Preparing a device for its removal bounds the wait for its work to drain,
//! and then halts it, which nothing can bound. So the work runs on a thread
//! that the caller can let go of. Past its budget the caller stops waiting, so
//! that every later eject is still answered.

use vstd::prelude::*;

verus! {

/// How long a device gets to drain before an eject is abandoned, in
/// milliseconds.
///
/// A device that is still doing DMA must keep its slot, so the budget
/// expiring aborts the removal instead of forcing it.
pub const UNPLUG_BUDGET_MS: u64 = 5000;

/// How much longer than its drain budget one unplug may take.
pub const UNPLUG_HALT_SLACK_MS: u64 = 5000;

/// How long one unplug may take in all.
pub open spec fn total_budget(drain_ms: u64, slack_ms: u64) -> u64 {
    if drain_ms + slack_ms > u64::MAX {
        u64::MAX
    } else {
        (drain_ms + slack_ms) as u64
    }
}

/// How long one unplug may take in all, its halt included.
pub fn unplug_budget(drain_ms: u64, slack_ms: u64) -> (r: u64)
    ensures
        r == total_budget(drain_ms, slack_ms),
{
    drain_ms.saturating_add(slack_ms)
}

/// What came back from the thread that prepares a device for its removal.
#[derive(Debug, Clone, Copy, PartialEq, Eq, Structural)]
pub enum Prepared {
    /// No thread could be started.
    NotStarted,
    /// The device gave up its resources.
    Released,
    /// The device would not quiesce.
    Refused,
    /// Nothing came inside the budget.
    TimedOut,
    /// The thread ended with no result.
    Vanished,
}

/// What a bounded unplug preparation ended in.
#[derive(Debug, Clone, Copy, PartialEq, Eq, Structural)]
pub enum Unplug {
    /// The device gave up its resources. The slot can be taken apart.
    Done,
    /// The device keeps its slot and goes on running. `paused` is true
    /// when the preparation got as far as pausing it, so the abort has
    /// to undo that.
    Kept { paused: bool },
    /// Past its budget with the release still in flight.
    InFlight,
}

/// What a preparation means for the slot.
///
/// Where nothing ran the device is still running. A thread that went without
/// a word neither finished nor reported, so the slot is the thing that must
/// not be touched.
pub open spec fn meaning(p: Prepared) -> Unplug {
    match p {
        Prepared::NotStarted => Unplug::Kept { paused: false },
        Prepared::Released => Unplug::Done,
        Prepared::Refused => Unplug::Kept { paused: true },
        Prepared::TimedOut => Unplug::InFlight,
        Prepared::Vanished => Unplug::InFlight,
    }
}

/// What a preparation means for the slot.
pub fn unplug_bounded(p: Prepared) -> (r: Unplug)
    ensures
        r == meaning(p),
{
    match p {
        Prepared::NotStarted => Unplug::Kept { paused: false },
        Prepared::Released => Unplug::Done,
        Prepared::Refused => Unplug::Kept { paused: true },
        Prepared::TimedOut => Unplug::InFlight,
        Prepared::Vanished => Unplug::InFlight,
    }
}

/// Only a device that let go may be taken apart. One that refused was paused
/// on the way, one that was never asked was not, and one that has not answered
/// is still letting go.
pub proof fn only_a_release_frees(p: Prepared)
    ensures
        meaning(p) == Unplug::Done <==> p == Prepared::Released,
        meaning(p) == (Unplug::Kept { paused: true }) <==> p == Prepared::Refused,
        meaning(p) == (Unplug::Kept { paused: false }) <==> p == Prepared::NotStarted,
        meaning(p) == Unplug::InFlight <==> p == Prepared::TimedOut || p == Prepared::Vanished,
{
}

/// The budget is the drain's time and the slack together, as far as it can be
/// counted.
pub proof fn budget_is_the_sum(drain_ms: u64, slack_ms: u64)
    ensures
        drain_ms + slack_ms <= u64::MAX ==> total_budget(drain_ms, slack_ms) == drain_ms + slack_ms,
        drain_ms + slack_ms > u64::MAX ==> total_budget(drain_ms, slack_ms) == u64::MAX,
{
}

} // verus!
