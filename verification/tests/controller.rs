use fader::channel::Slot;
use fader::motion::MotorCommand;
use fader::slider::{
    Controller, ControllerEffect, DriverFault, Error, FaultAction, Phase, Slider, SliderAction,
    SliderValue,
};

#[test]
fn latest_value_wins() {
    let mut slot: Slot<SliderAction> = Slot::empty();
    slot.publish(SliderAction::MoveSlider(30));
    slot.publish(SliderAction::MoveSlider(60));
    assert_eq!(slot.take(), Some(SliderAction::MoveSlider(60)));
    assert_eq!(slot.take(), None);
}

#[test]
fn end_to_end_move_cycle() {
    let mut c = Controller::new(Slider::with_calibration(20, 0, 26000));

    // Startup: the initial baseline reads raw 13000, reporting 50 percent.
    match c.on_reading(13000) {
        Some(ControllerEffect::BaselineDone { window, notify }) => {
            assert_eq!(window.low, 12980);
            assert_eq!(window.high, 13020);
            assert_eq!(notify, Some(SliderValue::Percent(50)));
        },
        other => panic!("expected a baseline effect, got {:?}", other),
    }

    // Listening: a reading is refused, a move command is accepted.
    assert!(c.on_reading(0).is_none());
    assert!(c.on_action(SliderAction::MoveSlider(75)));

    // Seeking toward raw 19630 through shrinking distances.
    for r in [14000i16, 17000, 18800] {
        match c.on_reading(r) {
            Some(ControllerEffect::Driving(MotorCommand::Forward(_))) => {},
            other => panic!("expected a forward drive, got {:?}", other),
        }
    }
    match c.on_reading(19500) {
        Some(ControllerEffect::MoveEnded { fault: None }) => {},
        other => panic!("expected the move to end cleanly, got {:?}", other),
    }

    // The post-move baseline reports the new position.
    match c.on_reading(19500) {
        Some(ControllerEffect::BaselineDone { window, notify }) => {
            assert_eq!(window.low, 19480);
            assert_eq!(window.high, 19520);
            assert_eq!(notify, Some(SliderValue::Percent(75)));
        },
        other => panic!("expected a baseline effect, got {:?}", other),
    }

    // And the controller listens again.
    assert!(matches!(c.phase, Phase::Listening));
}

#[test]
fn stalled_move_surfaces_the_fault_and_rebaselines() {
    let mut c = Controller::new(Slider::with_calibration(20, 0, 26000));
    assert!(c.on_reading(13000).is_some());
    assert!(c.on_action(SliderAction::MoveSlider(75)));
    // Distances 12000 then 13000: the second reading moved away.
    assert!(matches!(
        c.on_reading(7630),
        Some(ControllerEffect::Driving(MotorCommand::Forward(90)))
    ));
    match c.on_reading(6630) {
        Some(ControllerEffect::MoveEnded { fault: Some(e) }) => {
            assert_eq!(e, fader::slider::Error::DirectionReversalDetected);
        },
        other => panic!("expected the stall fault, got {:?}", other),
    }
    // The fault leads into the post-move baseline, not back into driving.
    assert!(matches!(
        c.on_reading(6630),
        Some(ControllerEffect::BaselineDone { .. })
    ));
}

#[test]
fn read_action_runs_a_baseline_pass() {
    let mut c = Controller::new(Slider::with_calibration(20, 0, 26000));
    assert!(c.on_reading(13000).is_some());
    assert!(c.on_action(SliderAction::ReadSlider));
    match c.on_reading(26100) {
        Some(ControllerEffect::BaselineDone { window, notify }) => {
            assert_eq!(window.low, 26080);
            assert_eq!(window.high, 26120);
            // The bound widened to 26100, which therefore reads as full scale.
            assert_eq!(notify, Some(SliderValue::Percent(100)));
        },
        other => panic!("expected a baseline effect, got {:?}", other),
    }
}

#[test]
fn actions_are_refused_outside_listening() {
    let mut c = Controller::new(Slider::with_calibration(20, 0, 26000));
    // Baselining: an action must not preempt the reading the cycle is owed.
    assert!(!c.on_action(SliderAction::ReadSlider));
    assert!(c.on_reading(13000).is_some());
    assert!(c.on_action(SliderAction::MoveSlider(75)));
    // Seeking: likewise.
    assert!(!c.on_action(SliderAction::MoveSlider(10)));
}

#[test]
fn driver_faults_retry_then_abandon() {
    let mut c = Controller::new(Slider::with_calibration(20, 0, 26000));
    // The startup baseline read keeps failing: three retries, then give up.
    for _ in 0..3 {
        assert_eq!(c.on_fault(DriverFault::ReadFailed), FaultAction::Retry);
    }
    assert_eq!(
        c.on_fault(DriverFault::ReadFailed),
        FaultAction::Abandon(Error::FailedUpdate)
    );
    // Once the device answers again the owed baseline pass runs as usual.
    assert!(matches!(
        c.on_reading(13000),
        Some(ControllerEffect::BaselineDone { .. })
    ));
}

#[test]
fn exhausted_faults_abandon_a_move_in_progress() {
    let mut c = Controller::new(Slider::with_calibration(20, 0, 26000));
    assert!(c.on_reading(13000).is_some());
    assert!(c.on_action(SliderAction::MoveSlider(75)));
    assert!(matches!(
        c.on_reading(14000),
        Some(ControllerEffect::Driving(MotorCommand::Forward(_)))
    ));
    // The next one-shot read never comes back: retries, then abandonment.
    for _ in 0..3 {
        assert_eq!(c.on_fault(DriverFault::ReadFailed), FaultAction::Retry);
    }
    assert_eq!(
        c.on_fault(DriverFault::ReadFailed),
        FaultAction::Abandon(Error::FailedUpdate)
    );
    // The move is gone; the next reading feeds the post-move baseline, not
    // the motor.
    assert!(matches!(
        c.on_reading(14000),
        Some(ControllerEffect::BaselineDone { .. })
    ));
}

#[test]
fn successful_reading_refills_the_retry_budget() {
    let mut c = Controller::new(Slider::with_calibration(20, 0, 26000));
    assert_eq!(
        c.on_fault(DriverFault::ModeTransitionFailed),
        FaultAction::Retry
    );
    assert_eq!(
        c.on_fault(DriverFault::ModeTransitionFailed),
        FaultAction::Retry
    );
    assert!(c.on_reading(13000).is_some());
    assert!(c.on_action(SliderAction::ReadSlider));
    // A full budget is available again for the next failing operation.
    for _ in 0..3 {
        assert_eq!(c.on_fault(DriverFault::ModeTransitionFailed), FaultAction::Retry);
    }
    assert_eq!(
        c.on_fault(DriverFault::ModeTransitionFailed),
        FaultAction::Abandon(Error::FailedUpdate)
    );
}

#[test]
fn move_command_percent_is_clamped() {
    let mut c = Controller::new(Slider::with_calibration(20, 0, 26000));
    assert!(c.on_reading(13000).is_some());
    assert!(c.on_action(SliderAction::MoveSlider(127)));
    match c.phase {
        Phase::Seeking(run) => assert_eq!(run.target, 26130),
        ref other => panic!("expected a seeking phase, got {:?}", other),
    }
}
