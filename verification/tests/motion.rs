use fader::motion::{
    calculate_speed, distance, run_motion, MotionState, MotionStatus, MotorCommand, MotorDrive,
};
use fader::slider::{Error, Slider};

#[test]
fn speed_tier_boundaries() {
    assert_eq!(calculate_speed(10001), 90);
    assert_eq!(calculate_speed(10000), 85);
    assert_eq!(calculate_speed(7001), 85);
    assert_eq!(calculate_speed(7000), 80);
    assert_eq!(calculate_speed(5001), 80);
    assert_eq!(calculate_speed(5000), 75);
    assert_eq!(calculate_speed(1), 75);
}

#[test]
fn motor_drive_pins_and_clamped_duty() {
    assert_eq!(
        MotorCommand::Forward(90).drive(),
        MotorDrive { ain1_high: true, ain2_high: false, duty_percent: 90 }
    );
    assert_eq!(
        MotorCommand::Reverse(75).drive(),
        MotorDrive { ain1_high: false, ain2_high: true, duty_percent: 75 }
    );
    assert_eq!(
        MotorCommand::Stop.drive(),
        MotorDrive { ain1_high: false, ain2_high: false, duty_percent: 0 }
    );
    // An out-of-range speed is clamped, never handed on.
    assert_eq!(MotorCommand::Forward(255).drive().duty_percent, 100);
    assert_eq!(MotorCommand::Reverse(101).drive().duty_percent, 100);
}

#[test]
fn overlapping_direction_checks_prefer_reverse() {
    // With a threshold wider than the distance both direction conditions
    // hold; the reverse command, checked second, is the one that stands.
    let mut run = MotionState::start(1000, 900);
    let step = run.step(200);
    assert_eq!(step.status, MotionStatus::Continue);
    assert_eq!(step.command, MotorCommand::Reverse(75));
}

#[test]
fn distance_is_absolute_and_saturates() {
    assert_eq!(distance(19630, 14000), 5630);
    assert_eq!(distance(14000, 19630), 5630);
    assert_eq!(distance(0, 0), 0);
    assert_eq!(distance(32767, -32768), 32767);
    assert_eq!(distance(-32768, 32767), 32767);
}

#[test]
fn monotone_approach_drives_forward_then_stops() {
    let s = Slider::with_calibration(20, 0, 26000);
    let mut run = s.start_move(75);
    assert_eq!(run.target, 19630);
    // Distances: 11630, 8630, 5630, 3130, 1430, 330.
    let reads: Vec<i16> = vec![8000, 11000, 14000, 16500, 18200, 19300];
    let (trace, status) = run_motion(&mut run, &reads);
    assert_eq!(status, MotionStatus::Arrived);
    assert_eq!(
        trace,
        vec![
            MotorCommand::Forward(90),
            MotorCommand::Forward(85),
            MotorCommand::Forward(80),
            MotorCommand::Forward(75),
            MotorCommand::Forward(75),
            MotorCommand::Stop,
        ]
    );
}

#[test]
fn monotone_approach_from_above_drives_reverse() {
    let s = Slider::with_calibration(20, 0, 26000);
    let mut run = s.start_move(25);
    assert_eq!(run.target, 6630);
    // Distances: 9370, 4370, 1370, 170.
    let reads: Vec<i16> = vec![16000, 11000, 8000, 6800];
    let (trace, status) = run_motion(&mut run, &reads);
    assert_eq!(status, MotionStatus::Arrived);
    assert_eq!(
        trace,
        vec![
            MotorCommand::Reverse(85),
            MotorCommand::Reverse(75),
            MotorCommand::Reverse(75),
            MotorCommand::Stop,
        ]
    );
}

#[test]
fn stall_stops_the_motor_before_the_fault_and_issues_nothing_more() {
    let s = Slider::with_calibration(20, 0, 26000);
    let mut run = s.start_move(75);
    // Distances: 12000 then 13000 — the distance grew, so the run must stop
    // and fault at once, ignoring the readings that follow.
    let reads: Vec<i16> = vec![7630, 6630, 19000, 19600];
    let (trace, status) = run_motion(&mut run, &reads);
    assert_eq!(status, MotionStatus::Fault(Error::DirectionReversalDetected));
    assert_eq!(trace, vec![MotorCommand::Forward(90), MotorCommand::Stop]);
}

#[test]
fn run_out_of_readings_keeps_driving() {
    let s = Slider::with_calibration(20, 0, 26000);
    let mut run = s.start_move(75);
    let reads: Vec<i16> = vec![8000, 11000];
    let (trace, status) = run_motion(&mut run, &reads);
    assert_eq!(status, MotionStatus::Continue);
    assert_eq!(trace, vec![MotorCommand::Forward(90), MotorCommand::Forward(85)]);
}

#[test]
fn arrival_on_first_reading_stops_immediately() {
    let s = Slider::with_calibration(20, 0, 26000);
    let mut run = s.start_move(75);
    let reads: Vec<i16> = vec![19629];
    let (trace, status) = run_motion(&mut run, &reads);
    assert_eq!(status, MotionStatus::Arrived);
    assert_eq!(trace, vec![MotorCommand::Stop]);
}
