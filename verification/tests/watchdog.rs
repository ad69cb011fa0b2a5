//! The shutdown watchdog.

use vmm::machine::signal::{
    arm_teardown_deadline, GuestStop, Watch, WatchAction, Wedge, GRACEFUL_BUDGET_MS, HARD_BUDGET_MS,
    POLL_INTERVAL_MS, SUSPEND_SOURCE_VMM, WEDGED_EXIT,
};

/// A VM that counts what reaches it.
#[derive(Default)]
struct Recorder {
    asked: usize,
    halted: usize,
}

impl GuestStop for Recorder {
    fn request_poweroff(&mut self) -> Result<(), String> {
        self.asked += 1;
        Err("the request did not reach the VM".to_string())
    }

    fn halt(&mut self) -> Result<(), String> {
        self.halted += 1;
        Ok(())
    }
}

/// Run the watch with its own clock until it ends. Says how long it slept and
/// why it ended.
fn run(
    vm: &mut Recorder,
    signalled: bool,
    deadline_at: impl Fn(u64) -> Option<u64>,
) -> (u64, Wedge) {
    let mut watch = Watch::Idle;
    let mut now: u64 = 0;
    loop {
        match watch.step(vm, now, signalled, deadline_at(now)) {
            WatchAction::Wait(ms) => {
                assert!(ms > 0 && ms <= POLL_INTERVAL_MS);
                now += ms;
                assert!(now < 10_000_000, "the watch never ends");
            }
            WatchAction::GiveUp(why) => return (now, why),
            WatchAction::RequestPoweroff | WatchAction::Halt => {}
            WatchAction::Stop => panic!("ended without a word"),
        }
    }
}

#[test]
fn a_vm_that_answers_nothing_is_ended_after_both_budgets() {
    let mut vm = Recorder::default();
    let (slept, why) = run(&mut vm, true, |_| None);
    assert_eq!(slept, GRACEFUL_BUDGET_MS + HARD_BUDGET_MS);
    assert_eq!(why, Wedge::NoTeardown);
    assert_eq!((vm.asked, vm.halted), (1, 1));
}

#[test]
fn a_guest_that_stopped_itself_is_asked_for_nothing() {
    let mut vm = Recorder::default();
    let (slept, why) = run(&mut vm, false, |now| (now >= 1000).then_some(61_234));
    assert_eq!((slept, why), (61_234, Wedge::TeardownOverran));
    assert_eq!((vm.asked, vm.halted), (0, 0));
}

#[test]
fn a_teardown_late_in_a_budget_is_watched_and_not_cut_off() {
    let mut vm = Recorder::default();
    let (slept, why) = run(&mut vm, true, |now| (now >= 29_500).then_some(40_000));
    assert_eq!((slept, why), (40_000, Wedge::TeardownOverran));
    assert_eq!((vm.asked, vm.halted), (1, 0));
}

#[test]
fn a_deadline_that_moves_out_is_honoured() {
    let mut vm = Recorder::default();
    let (slept, _) = run(&mut vm, false, |now| Some(if now < 500 { 1000 } else { 5000 }));
    assert_eq!(slept, 5000);
}

#[test]
fn a_later_call_only_pushes_the_deadline_out() {
    let first = arm_teardown_deadline(None, 100, 1000);
    assert_eq!(first, Some(1100));
    assert_eq!(arm_teardown_deadline(first, 200, 100), Some(1100));
    assert_eq!(arm_teardown_deadline(first, 200, 2000), Some(2200));
    // A budget too large to add to the clock arms nothing.
    assert_eq!(arm_teardown_deadline(None, 1, u64::MAX), None);
    assert_eq!(arm_teardown_deadline(first, 1, u64::MAX), Some(1100));
}

#[test]
fn the_codes_of_the_watchdog() {
    assert_eq!(SUSPEND_SOURCE_VMM, -1);
    assert_eq!(WEDGED_EXIT, 4);
    let mut over = Watch::Over;
    assert_eq!(over.look(0, true, Some(0)), WatchAction::Stop);
}
