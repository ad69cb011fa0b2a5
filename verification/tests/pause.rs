//! Two owners of one pause.

use vmm::machine::pause::{GateStep, PauseCount, PauseError, VmPause, VmPauseGate};

#[derive(Default)]
struct RecordingInstance {
    pauses: usize,
    resumes: usize,
    refuses: bool,
}

impl VmPause for RecordingInstance {
    fn pause(&mut self) -> Result<(), PauseError> {
        self.pauses += 1;
        if self.refuses {
            return Err(PauseError::Refused("pause refused".into()));
        }
        Ok(())
    }

    fn resume(&mut self) -> Result<(), PauseError> {
        self.resumes += 1;
        Ok(())
    }
}

/// The guest picks the moment it runs `_EJ0`, so an operator pause
/// can land inside the eject's bus change. Neither may be refused,
/// and neither may start the VM under the other.
#[test]
fn a_second_holder_does_not_pause_again_or_resume_early() {
    let mut gate = VmPauseGate::new(RecordingInstance::default());

    gate.pause().expect("the eject takes the pause");
    gate.pause().expect("the operator takes it too");
    assert_eq!(gate.instance().pauses, 1);

    // The eject finishes. The operator still needs the VM stopped.
    gate.resume().expect("the eject gives up its hold");
    assert_eq!(gate.instance().resumes, 0);
    assert!(gate.is_held());

    gate.resume().expect("the operator resumes");
    assert_eq!(gate.instance().resumes, 1);
    assert!(!gate.is_held());
}

#[test]
fn a_resume_with_no_hold_is_refused() {
    let mut gate = VmPauseGate::new(RecordingInstance::default());

    let error = gate.resume().expect_err("nothing is held");
    assert_eq!(error.to_text(), "a resume with no pause to give up");
    assert_eq!(gate.instance().resumes, 0);
}

/// A refused pause must not leave a hold behind: the caller aborts
/// and nothing is left to release.
#[test]
fn a_refused_pause_takes_no_hold() {
    let mut gate = VmPauseGate::new(RecordingInstance {
        refuses: true,
        ..RecordingInstance::default()
    });

    // The instance's own reason reaches the caller.
    let error = gate.pause().expect_err("the instance refuses");
    assert_eq!(error.to_text(), "pause refused");
    assert!(!gate.is_held());
}

#[test]
fn a_pause_and_resume_pair_reaches_the_instance_once_each() {
    let mut gate = VmPauseGate::new(RecordingInstance::default());

    for _ in 0..2 {
        gate.pause().expect("pause");
        gate.resume().expect("resume");
    }

    assert_eq!(gate.instance().pauses, 2);
    assert_eq!(gate.instance().resumes, 2);
}

#[test]
fn a_resume_the_instance_refuses_keeps_the_hold() {
    let mut count = PauseCount::new();
    assert!(matches!(count.before_resume(), GateStep::Refuse));

    assert!(matches!(count.before_pause(), GateStep::Pause));
    assert!(count.paused(Err(PauseError::Refused("busy".into()))).is_err());
    assert!(matches!(count.before_pause(), GateStep::Pause));

    assert!(count.paused(Ok(())).is_ok());
    assert!(matches!(count.before_pause(), GateStep::Nothing));
    assert!(count.resumed(Err(PauseError::Refused("busy".into()))).is_err());
    assert!(matches!(count.before_resume(), GateStep::Resume));
    assert!(count.resumed(Ok(())).is_ok());
    assert!(matches!(count.before_resume(), GateStep::Refuse));
}
