//! Closed-loop positioning toward a raw target: the tiered bang-bang speed
//! law, the per-iteration motor decision, and stall/overshoot detection.
//!
//! The loop around the decisions belongs to the driver: it performs the
//! one-shot read, applies the returned motor command, waits briefly and
//! feeds the next reading back in. [`MotionState::step`] makes every
//! decision of one iteration, so the driver loop holds no logic of its own.

use crate::slider::{sat_add_i16, sat_sub_i16, Error};
use vstd::prelude::*;

verus! {

/// A command for the motor driver. Speeds are duty-cycle percentages.
#[derive(Clone, Copy, Debug, PartialEq, Eq, Structural)]
pub enum MotorCommand {
    Forward(u8),
    Reverse(u8),
    Stop,
}

/// How a positioning iteration left the run.
#[derive(Clone, Copy, Debug, PartialEq, Eq, Structural)]
pub enum MotionStatus {
    /// Keep driving: apply the command, wait briefly, read again.
    Continue,
    /// Within the arrival tolerance of the target; the motor is stopped.
    Arrived,
    /// The measured distance grew between iterations; the motor is stopped
    /// before the fault is surfaced.
    Fault(Error),
}

/// One iteration's outcome: the motor command to apply now, and whether the
/// run goes on.
#[derive(Clone, Copy, Debug, PartialEq, Eq, Structural)]
pub struct MotionStep {
    pub command: MotorCommand,
    pub status: MotionStatus,
}

/// A run counts as arrived once the distance falls below this many raw
/// units.
pub const ARRIVAL_EPSILON: i16 = 500;

/// The pin drive behind a motor command: the two direction outputs and the
/// PWM duty-cycle percent.
#[derive(Clone, Copy, Debug, PartialEq, Eq, Structural)]
pub struct MotorDrive {
    pub ain1_high: bool,
    pub ain2_high: bool,
    pub duty_percent: u8,
}

impl MotorCommand {
    /// Maps the command onto the direction pins and the duty cycle the motor
    /// driver sets: forward drives the first pin high, reverse the second,
    /// stop neither with a zero duty cycle. A speed beyond one hundred is
    /// clamped to one hundred rather than handed to the duty-cycle register,
    /// so no command can take the driver down.
    pub fn drive(&self) -> (d: MotorDrive)
        ensures
            self matches MotorCommand::Forward(s) ==> d == (MotorDrive {
                ain1_high: true,
                ain2_high: false,
                duty_percent: clamp_speed(*s),
            }),
            self matches MotorCommand::Reverse(s) ==> d == (MotorDrive {
                ain1_high: false,
                ain2_high: true,
                duty_percent: clamp_speed(*s),
            }),
            self is Stop ==> d == (MotorDrive {
                ain1_high: false,
                ain2_high: false,
                duty_percent: 0u8,
            }),
            d.duty_percent <= 100,
            !(d.ain1_high && d.ain2_high),
    {
        match *self {
            MotorCommand::Forward(s) => MotorDrive {
                ain1_high: true,
                ain2_high: false,
                duty_percent: if s > 100 {
                    100
                } else {
                    s
                },
            },
            MotorCommand::Reverse(s) => MotorDrive {
                ain1_high: false,
                ain2_high: true,
                duty_percent: if s > 100 {
                    100
                } else {
                    s
                },
            },
            MotorCommand::Stop => MotorDrive { ain1_high: false, ain2_high: false, duty_percent: 0 },
        }
    }
}

/// A duty-cycle speed forced into `0..=100`.
pub open spec fn clamp_speed(s: u8) -> u8 {
    if s > 100 {
        100
    } else {
        s
    }
}

/// The speed tier for a distance to the target: a step function, not an
/// interpolated law.
pub open spec fn tier_spec(distance: int) -> int {
    if distance > 10000 {
        90
    } else if distance > 7000 {
        85
    } else if distance > 5000 {
        80
    } else {
        75
    }
}

/// Picks the duty-cycle speed for the remaining distance to the target.
pub fn calculate_speed(distance: i16) -> (speed: u8)
    ensures
        speed == tier_spec(distance as int),
        0 < speed <= 100,
{
    if distance > 10000 {
        90
    } else if distance > 7000 {
        85
    } else if distance > 5000 {
        80
    } else {
        75
    }
}

/// Distance from a reading to the target, saturated to the largest `i16`
/// value.
pub open spec fn dist_spec(target: int, current: int) -> int {
    vstd::math::min(vstd::math::abs(target - current) as int, i16::MAX as int)
}

/// Measures the distance from a reading to the target.
pub fn distance(target: i16, current: i16) -> (d: i16)
    ensures
        d as int == dist_spec(target as int, current as int),
        0 <= d,
{
    let diff: i32 = target as i32 - current as i32;
    let a: i32 = if diff < 0 {
        -diff
    } else {
        diff
    };
    if a > i16::MAX as i32 {
        i16::MAX
    } else {
        a as i16
    }
}

/// Whether the per-iteration arbitration issues a reverse command: the
/// target lies below the reading raised by the threshold. The forward
/// condition is checked first and the reverse condition second, so when both
/// hold — only possible inside a threshold-wide band — the reverse command
/// is the one that stands, and one command at most is active per iteration.
pub open spec fn reverse_wanted(target: int, current: int, threshold: int) -> bool {
    target < sat_add_i16(current, threshold)
}

/// Whether the per-iteration arbitration would issue a forward command: the
/// target lies above the reading lowered by the threshold.
pub open spec fn forward_wanted(target: int, current: int, threshold: int) -> bool {
    target > sat_sub_i16(current, threshold)
}

/// State of one positioning run.
///
/// `previous_distance` is refreshed with the measured distance on every
/// continuing iteration, so the very next iteration faults if the distance
/// grew: the run never keeps driving once it has moved away from the target.
#[derive(Clone, Copy, Debug, PartialEq, Eq, Structural)]
pub struct MotionState {
    /// Raw value the run drives toward.
    pub target: i16,
    /// Half-width of the band in which the direction checks overlap, in raw
    /// units; taken from the controller's comparator threshold.
    pub threshold: i16,
    /// Distance measured by the previous iteration, or the largest `i16`
    /// value before the first measurement.
    pub previous_distance: i16,
}

/// The motor command a run state issues for a fresh reading.
pub open spec fn step_command(s: MotionState, current: i16) -> MotorCommand {
    let d = dist_spec(s.target as int, current as int);
    if s.previous_distance < d {
        MotorCommand::Stop
    } else if d < ARRIVAL_EPSILON {
        MotorCommand::Stop
    } else if reverse_wanted(s.target as int, current as int, s.threshold as int) {
        MotorCommand::Reverse(tier_spec(d) as u8)
    } else {
        MotorCommand::Forward(tier_spec(d) as u8)
    }
}

/// Whether a run state continues, arrives or faults on a fresh reading.
pub open spec fn step_status(s: MotionState, current: i16) -> MotionStatus {
    let d = dist_spec(s.target as int, current as int);
    if s.previous_distance < d {
        MotionStatus::Fault(Error::DirectionReversalDetected)
    } else if d < ARRIVAL_EPSILON {
        MotionStatus::Arrived
    } else {
        MotionStatus::Continue
    }
}

/// The run state after an iteration on a fresh reading.
pub open spec fn step_state(s: MotionState, current: i16) -> MotionState {
    let d = dist_spec(s.target as int, current as int);
    if s.previous_distance < d || d < ARRIVAL_EPSILON {
        s
    } else {
        MotionState { previous_distance: d as i16, ..s }
    }
}

impl MotionState {
    /// A run state whose threshold is a width and whose recorded distance is
    /// representable.
    pub open spec fn wf(&self) -> bool {
        &&& 0 <= self.threshold
        &&& 0 <= self.previous_distance
    }

    /// Starts a positioning run toward a raw target. No distance has been
    /// measured yet, so the recorded previous distance starts at the largest
    /// representable value and the first reading can never fault.
    pub fn start(target: i16, threshold: i16) -> (s: Self)
        requires
            0 <= threshold,
        ensures
            s.wf(),
            s.target == target,
            s.threshold == threshold,
            s.previous_distance == i16::MAX,
    {
        MotionState { target, threshold, previous_distance: i16::MAX }
    }

    /// One iteration of the closed loop against a fresh reading: decides the
    /// motor command and whether the run continues, arrives or faults.
    ///
    /// On every exit path — arrival as well as fault — the command is
    /// `Stop`, so the motor is never left driving after the run ends.
    pub fn step(&mut self, current: i16) -> (r: MotionStep)
        requires
            old(self).wf(),
        ensures
            final(self).wf(),
            r.command == step_command(*old(self), current),
            r.status == step_status(*old(self), current),
            *final(self) == step_state(*old(self), current),
            !(r.status is Continue) ==> r.command == MotorCommand::Stop,
            r.status is Fault ==> r.status == MotionStatus::Fault(
                Error::DirectionReversalDetected,
            ),
            final(self).target == old(self).target,
            final(self).threshold == old(self).threshold,
    {
        let d: i16 = distance(self.target, current);
        if self.previous_distance < d {
            return MotionStep {
                command: MotorCommand::Stop,
                status: MotionStatus::Fault(Error::DirectionReversalDetected),
            };
        }
        if d < ARRIVAL_EPSILON {
            return MotionStep { command: MotorCommand::Stop, status: MotionStatus::Arrived };
        }
        let speed: u8 = calculate_speed(d);
        let cap: i16 = if current > i16::MAX - self.threshold {
            i16::MAX
        } else {
            current + self.threshold
        };
        let command: MotorCommand = if self.target < cap {
            MotorCommand::Reverse(speed)
        } else {
            MotorCommand::Forward(speed)
        };
        self.previous_distance = d;
        MotionStep { command, status: MotionStatus::Continue }
    }
}

/// The motor commands a run issues over a sequence of readings: one command
/// per reading until the first iteration that arrives or faults, whose
/// `Stop` is the last command issued.
pub open spec fn run_commands(s: MotionState, reads: Seq<i16>) -> Seq<MotorCommand>
    decreases reads.len(),
{
    if reads.len() == 0 {
        Seq::empty()
    } else if step_status(s, reads[0]) is Continue {
        seq![step_command(s, reads[0])] + run_commands(step_state(s, reads[0]), reads.skip(1))
    } else {
        seq![step_command(s, reads[0])]
    }
}

/// How a run over a sequence of readings ends: `Continue` when the readings
/// run out with the run still in progress, otherwise the first terminal
/// status.
pub open spec fn run_status(s: MotionState, reads: Seq<i16>) -> MotionStatus
    decreases reads.len(),
{
    if reads.len() == 0 {
        MotionStatus::Continue
    } else if step_status(s, reads[0]) is Continue {
        run_status(step_state(s, reads[0]), reads.skip(1))
    } else {
        step_status(s, reads[0])
    }
}

/// The per-iteration arbitration is total: outside the arrival tolerance,
/// whenever the reverse condition fails the forward condition holds, so an
/// iteration that keeps driving always has a direction — the two checks
/// never both fall through and leave the motor undirected.
pub proof fn lemma_arbitration_total(target: i16, current: i16, threshold: i16)
    requires
        0 <= threshold,
        dist_spec(target as int, current as int) >= ARRIVAL_EPSILON,
    ensures
        reverse_wanted(target as int, current as int, threshold as int) || forward_wanted(
            target as int,
            current as int,
            threshold as int,
        ),
{
}

/// Stall detection: once a continuing iteration has accepted a measured
/// distance, a following reading whose distance is larger ends the run at
/// once — that iteration issues `Stop` and faults with
/// `DirectionReversalDetected`, so the run never keeps driving after moving
/// away from the target.
pub proof fn lemma_stall_faults(s: MotionState, first: i16, second: i16)
    requires
        s.wf(),
        dist_spec(s.target as int, first as int) <= s.previous_distance,
        ARRIVAL_EPSILON <= dist_spec(s.target as int, first as int),
        dist_spec(s.target as int, second as int) > dist_spec(s.target as int, first as int),
    ensures
        step_status(s, first) is Continue,
        step_status(step_state(s, first), second) == MotionStatus::Fault(
            Error::DirectionReversalDetected,
        ),
        step_command(step_state(s, first), second) == MotorCommand::Stop,
{
}

/// Monotone approach from below: over readings that stay below the target
/// and whose distances to it strictly shrink, ending with the first reading
/// inside the arrival tolerance, the run never faults and never reverses the
/// motor: every reading outside the tolerance issues a forward command at
/// the tier for its measured distance, and the in-tolerance reading stops
/// the motor and arrives — one command per reading, none after the stop.
pub proof fn lemma_monotone_approach(s: MotionState, reads: Seq<i16>)
    requires
        s.wf(),
        s.threshold < ARRIVAL_EPSILON,
        reads.len() > 0,
        dist_spec(s.target as int, reads[0] as int) <= s.previous_distance,
        forall|i: int|
            0 <= i < reads.len() - 1 ==> dist_spec(s.target as int, reads[i + 1] as int)
                < dist_spec(s.target as int, #[trigger] reads[i] as int),
        forall|i: int|
            0 <= i < reads.len() - 1 ==> dist_spec(s.target as int, #[trigger] reads[i] as int)
                >= ARRIVAL_EPSILON,
        forall|i: int| 0 <= i < reads.len() - 1 ==> #[trigger] reads[i] < s.target,
        dist_spec(s.target as int, reads[reads.len() - 1] as int) < ARRIVAL_EPSILON,
    ensures
        run_status(s, reads) == MotionStatus::Arrived,
        run_commands(s, reads).len() == reads.len(),
        run_commands(s, reads).last() == MotorCommand::Stop,
        forall|i: int|
            0 <= i < reads.len() - 1 ==> run_commands(s, reads)[i] == MotorCommand::Forward(
                tier_spec(dist_spec(s.target as int, #[trigger] reads[i] as int)) as u8,
            ),
    decreases reads.len(),
{
    if reads.len() == 1 {
        assert(run_commands(s, reads) =~= seq![MotorCommand::Stop]);
    } else {
        let d0 = dist_spec(s.target as int, reads[0] as int);
        assert(dist_spec(s.target as int, reads[0] as int) >= ARRIVAL_EPSILON);
        assert(reads[0] < s.target);
        assert(!reverse_wanted(s.target as int, reads[0] as int, s.threshold as int));
        let s1 = step_state(s, reads[0]);
        let rest = reads.skip(1);
        assert forall|i: int| 0 <= i < rest.len() - 1 implies dist_spec(
            s1.target as int,
            rest[i + 1] as int,
        ) < dist_spec(s1.target as int, #[trigger] rest[i] as int) by {
            assert(rest[i] == reads[i + 1]);
            assert(rest[i + 1] == reads[i + 2]);
        }
        assert forall|i: int| 0 <= i < rest.len() - 1 implies dist_spec(
            s1.target as int,
            #[trigger] rest[i] as int,
        ) >= ARRIVAL_EPSILON by {
            assert(rest[i] == reads[i + 1]);
        }
        assert forall|i: int| 0 <= i < rest.len() - 1 implies #[trigger] rest[i] < s1.target by {
            assert(rest[i] == reads[i + 1]);
        }
        assert(rest[rest.len() - 1] == reads[reads.len() - 1]);
        assert(dist_spec(s1.target as int, rest[0] as int) <= s1.previous_distance) by {
            assert(rest[0] == reads[1]);
        }
        lemma_monotone_approach(s1, rest);
        let cmd0 = step_command(s, reads[0]);
        assert(run_commands(s, reads) == seq![cmd0] + run_commands(s1, rest));
        assert forall|i: int| 0 <= i < reads.len() - 1 implies run_commands(s, reads)[i]
            == MotorCommand::Forward(
            tier_spec(dist_spec(s.target as int, #[trigger] reads[i] as int)) as u8,
        ) by {
            if i > 0 {
                assert(run_commands(s, reads)[i] == run_commands(s1, rest)[i - 1]);
                assert(rest[i - 1] == reads[i]);
            }
        }
    }
}

/// Monotone approach from above, the mirror image: readings that stay above
/// the target with strictly shrinking distances issue only reverse commands
/// until the in-tolerance reading stops the motor and arrives.
pub proof fn lemma_monotone_approach_reverse(s: MotionState, reads: Seq<i16>)
    requires
        s.wf(),
        reads.len() > 0,
        dist_spec(s.target as int, reads[0] as int) <= s.previous_distance,
        forall|i: int|
            0 <= i < reads.len() - 1 ==> dist_spec(s.target as int, reads[i + 1] as int)
                < dist_spec(s.target as int, #[trigger] reads[i] as int),
        forall|i: int|
            0 <= i < reads.len() - 1 ==> dist_spec(s.target as int, #[trigger] reads[i] as int)
                >= ARRIVAL_EPSILON,
        forall|i: int| 0 <= i < reads.len() - 1 ==> #[trigger] reads[i] > s.target,
        dist_spec(s.target as int, reads[reads.len() - 1] as int) < ARRIVAL_EPSILON,
    ensures
        run_status(s, reads) == MotionStatus::Arrived,
        run_commands(s, reads).len() == reads.len(),
        run_commands(s, reads).last() == MotorCommand::Stop,
        forall|i: int|
            0 <= i < reads.len() - 1 ==> run_commands(s, reads)[i] == MotorCommand::Reverse(
                tier_spec(dist_spec(s.target as int, #[trigger] reads[i] as int)) as u8,
            ),
    decreases reads.len(),
{
    if reads.len() == 1 {
        assert(run_commands(s, reads) =~= seq![MotorCommand::Stop]);
    } else {
        assert(reads[0] > s.target);
        assert(reverse_wanted(s.target as int, reads[0] as int, s.threshold as int));
        let s1 = step_state(s, reads[0]);
        let rest = reads.skip(1);
        assert forall|i: int| 0 <= i < rest.len() - 1 implies dist_spec(
            s1.target as int,
            rest[i + 1] as int,
        ) < dist_spec(s1.target as int, #[trigger] rest[i] as int) by {
            assert(rest[i] == reads[i + 1]);
            assert(rest[i + 1] == reads[i + 2]);
        }
        assert forall|i: int| 0 <= i < rest.len() - 1 implies dist_spec(
            s1.target as int,
            #[trigger] rest[i] as int,
        ) >= ARRIVAL_EPSILON by {
            assert(rest[i] == reads[i + 1]);
        }
        assert forall|i: int| 0 <= i < rest.len() - 1 implies #[trigger] rest[i] > s1.target by {
            assert(rest[i] == reads[i + 1]);
        }
        assert(rest[rest.len() - 1] == reads[reads.len() - 1]);
        assert(dist_spec(s1.target as int, rest[0] as int) <= s1.previous_distance) by {
            assert(rest[0] == reads[1]);
        }
        lemma_monotone_approach_reverse(s1, rest);
        let cmd0 = step_command(s, reads[0]);
        assert(run_commands(s, reads) == seq![cmd0] + run_commands(s1, rest));
        assert forall|i: int| 0 <= i < reads.len() - 1 implies run_commands(s, reads)[i]
            == MotorCommand::Reverse(
            tier_spec(dist_spec(s.target as int, #[trigger] reads[i] as int)) as u8,
        ) by {
            if i > 0 {
                assert(run_commands(s, reads)[i] == run_commands(s1, rest)[i - 1]);
                assert(rest[i - 1] == reads[i]);
            }
        }
    }
}

/// Arrival is within tolerance: a run that arrives issued one command per
/// reading it consumed, and the reading its final `Stop` answered lies
/// within the arrival tolerance of the target.
pub proof fn lemma_arrival_within_tolerance(s: MotionState, reads: Seq<i16>)
    requires
        run_status(s, reads) == MotionStatus::Arrived,
    ensures
        1 <= run_commands(s, reads).len() <= reads.len(),
        dist_spec(
            s.target as int,
            reads[run_commands(s, reads).len() - 1] as int,
        ) < ARRIVAL_EPSILON,
    decreases reads.len(),
{
    if step_status(s, reads[0]) is Continue {
        let s1 = step_state(s, reads[0]);
        let rest = reads.skip(1);
        lemma_arrival_within_tolerance(s1, rest);
        let n = run_commands(s1, rest).len();
        assert(rest[n - 1] == reads[n as int]);
    }
}

/// Runs the closed loop over a sequence of readings, exactly as the driver
/// loop would against the live sensor: each reading yields one motor
/// command, nothing is issued after the first arrival or fault, and a
/// terminated run ends on `Stop`.
pub fn run_motion(state: &mut MotionState, reads: &Vec<i16>) -> (r: (
    Vec<MotorCommand>,
    MotionStatus,
))
    requires
        old(state).wf(),
    ensures
        final(state).wf(),
        r.0@ == run_commands(*old(state), reads@),
        r.1 == run_status(*old(state), reads@),
        !(r.1 is Continue) ==> r.0@.len() > 0 && r.0@.last() == MotorCommand::Stop,
{
    let mut trace: Vec<MotorCommand> = Vec::new();
    let mut i: usize = 0;
    proof {
        assert(reads@.skip(0) =~= reads@);
        assert(trace@ + run_commands(*state, reads@) =~= run_commands(*state, reads@));
    }
    while i < reads.len()
        invariant
            i <= reads.len(),
            state.wf(),
            trace@ + run_commands(*state, reads@.skip(i as int)) == run_commands(
                *old(state),
                reads@,
            ),
            run_status(*state, reads@.skip(i as int)) == run_status(*old(state), reads@),
        decreases reads.len() - i,
    {
        proof {
            assert(reads@.skip(i as int)[0] == reads@[i as int]);
            assert(reads@.skip(i as int).skip(1) =~= reads@.skip(i as int + 1));
        }
        let ghost pre = *state;
        let step = state.step(reads[i]);
        trace.push(step.command);
        match step.status {
            MotionStatus::Continue => {},
            _ => {
                proof {
                    assert(run_commands(pre, reads@.skip(i as int)) =~= seq![step.command]);
                }
                return (trace, step.status);
            },
        }
        i = i + 1;
    }
    proof {
        assert(reads@.skip(reads@.len() as int) =~= Seq::<i16>::empty());
        assert(trace@ + Seq::<MotorCommand>::empty() =~= trace@);
    }
    (trace, MotionStatus::Continue)
}

} // verus!
