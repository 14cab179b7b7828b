//! Calibration, conversion and baseline logic of the fader controller, and
//! the controller's dispatch state machine.

use crate::motion::{step_command, step_state, step_status, MotionState, MotionStatus, MotorCommand};
use vstd::arithmetic::div_mod::{
    lemma_div_by_multiple, lemma_div_is_ordered, lemma_fundamental_div_mod,
    lemma_fundamental_div_mod_converse, lemma_mod_bound,
};
use vstd::prelude::*;

verus! {

/// Faults the control core can report.
#[derive(Clone, Copy, Debug, PartialEq, Eq, Structural)]
pub enum Error {
    /// The requested update of the fader state could not be carried out:
    /// the sensor kept failing a mode switch or a reading after the retry
    /// budget ran out.
    FailedUpdate,
    /// The measured distance to the target grew between two positioning
    /// iterations: the fader was moving away from the target, so the motor
    /// was stopped and the move abandoned.
    DirectionReversalDetected,
}

/// Outbound notification: the fader position as a percentage of the
/// calibrated range.
#[derive(Clone, Copy, Debug, PartialEq, Eq, Structural)]
pub enum SliderValue {
    Percent(i8),
}

/// Inbound command for the controller.
#[derive(Clone, Copy, Debug, PartialEq, Eq, Structural)]
pub enum SliderAction {
    /// Drive the fader to the given percent of the calibrated range.
    MoveSlider(i8),
    /// Re-run the baseline: recalibrate and report the position.
    ReadSlider,
}

/// Comparator window for the sensor: the hardware alert fires when the raw
/// value leaves `[low, high]`.
#[derive(Clone, Copy, Debug, PartialEq, Eq, Structural)]
pub struct ThresholdWindow {
    pub low: i16,
    pub high: i16,
}

/// `i16` addition, saturating at the bounds of the type.
pub open spec fn sat_add_i16(a: int, b: int) -> int {
    if a + b > i16::MAX {
        i16::MAX as int
    } else if a + b < i16::MIN {
        i16::MIN as int
    } else {
        a + b
    }
}

/// `i16` subtraction, saturating at the bounds of the type.
pub open spec fn sat_sub_i16(a: int, b: int) -> int {
    sat_add_i16(a, -b)
}

/// `v` forced into `[lo, hi]`.
pub open spec fn clamp_int(v: int, lo: int, hi: int) -> int {
    if v < lo {
        lo
    } else if v > hi {
        hi
    } else {
        v
    }
}

/// `n / d` rounded to the nearest integer, halves rounding up, for
/// `0 <= n` and `0 < d`.
pub open spec fn round_div(n: int, d: int) -> int
    recommends
        0 <= n,
        0 < d,
{
    (2 * n + d) / (2 * d)
}

/// The percent reported for a raw reading under calibration bounds
/// `[min, max]`: the reading is clamped into the bounds and mapped linearly
/// onto `0..=100`, rounded to the nearest integer.
pub open spec fn percent_of(min: int, max: int, raw: int) -> int
    recommends
        min < max,
{
    round_div((clamp_int(raw, min, max) - min) * 100, max - min)
}

/// The raw target for a percent command under calibration bounds
/// `[min, max]`: the inverse linear map with a half-bucket rounding bias —
/// the sum `percent·range/100 + range/200` truncated once as a whole, not
/// term by term — offset by `min` and saturated to the `i16` range of the
/// sensor unit.
pub open spec fn raw_of(min: int, max: int, percent: int) -> int
    recommends
        min < max,
        0 <= percent <= 100,
{
    clamp_int(
        min + (2 * percent * (max - min) + (max - min)) / 200,
        i16::MIN as int,
        i16::MAX as int,
    )
}

/// What one baseline pass asks the surrounding driver loop to do: push a
/// fresh comparator window to the sensor, and publish a notification when
/// the reported percent changed.
pub struct BaselineEffect {
    /// Window to push to the sensor before re-entering continuous mode.
    pub window: ThresholdWindow,
    /// Notification for the value channel, present exactly when the percent
    /// differs from the last published one.
    pub notify: Option<SliderValue>,
}

/// Fader control state: the calibration bounds, the comparator threshold
/// width, and the last published percent.
pub struct Slider {
    /// Half-width of the comparator window, in raw units.
    pub threshold: i16,
    /// The percent most recently published on the value channel.
    pub slider_percent: i8,
    /// Largest raw value observed so far.
    pub observed_max: i16,
    /// Smallest raw value observed so far.
    pub observed_min: i16,
}

/// The control state after its calibration bounds widen to cover a reading.
pub open spec fn calibrate_spec(s: Slider, raw: i16) -> Slider {
    Slider {
        observed_min: vstd::math::min(s.observed_min as int, raw as int) as i16,
        observed_max: vstd::math::max(s.observed_max as int, raw as int) as i16,
        ..s
    }
}

/// The comparator window a control state pushes for a center reading.
pub open spec fn window_spec(s: Slider, center: i16) -> ThresholdWindow {
    ThresholdWindow {
        low: sat_sub_i16(center as int, s.threshold as int) as i16,
        high: sat_add_i16(center as int, s.threshold as int) as i16,
    }
}

/// The percent a baseline pass reports for a reading: computed against the
/// bounds as already widened by that same reading.
pub open spec fn baseline_percent(s: Slider, raw: i16) -> int {
    let c = calibrate_spec(s, raw);
    percent_of(c.observed_min as int, c.observed_max as int, raw as int)
}

/// The control state after a full baseline pass on a reading.
pub open spec fn baseline_slider(s: Slider, raw: i16) -> Slider {
    Slider { slider_percent: baseline_percent(s, raw) as i8, ..calibrate_spec(s, raw) }
}

/// The notification a baseline pass publishes: the new percent exactly when
/// it differs from the last published one, nothing otherwise.
pub open spec fn baseline_notify(s: Slider, raw: i16) -> Option<SliderValue> {
    if baseline_percent(s, raw) == s.slider_percent {
        None
    } else {
        Some(SliderValue::Percent(baseline_percent(s, raw) as i8))
    }
}

impl Slider {
    /// Well-formed control state: the calibration bounds span a proper
    /// range, the threshold is a width, and the published value is a
    /// percentage.
    pub open spec fn wf(&self) -> bool {
        &&& self.observed_min < self.observed_max
        &&& 0 <= self.threshold
        &&& 0 <= self.slider_percent <= 100
    }

    /// A controller with a conservative full-scale estimate of the sensor
    /// range; the first baseline widens the bounds to what the fader really
    /// reaches.
    pub fn new(threshold: i16) -> (s: Self)
        requires
            0 <= threshold,
        ensures
            s.wf(),
            s.threshold == threshold,
            s.slider_percent == 0,
            s.observed_min == 350,
            s.observed_max == 25000,
    {
        Slider { threshold, slider_percent: 0, observed_max: 25000, observed_min: 350 }
    }

    /// A controller that starts from known calibration bounds.
    pub fn with_calibration(threshold: i16, observed_min: i16, observed_max: i16) -> (s: Self)
        requires
            0 <= threshold,
            observed_min < observed_max,
        ensures
            s.wf(),
            s.threshold == threshold,
            s.slider_percent == 0,
            s.observed_min == observed_min,
            s.observed_max == observed_max,
    {
        Slider { threshold, slider_percent: 0, observed_max, observed_min }
    }

    /// Widens the observed calibration bounds to cover a fresh reading.
    /// Bounds move monotonically: a reading may widen them, never narrow
    /// them.
    pub fn update_calibration(&mut self, raw: i16)
        requires
            old(self).wf(),
        ensures
            final(self).wf(),
            *final(self) == calibrate_spec(*old(self), raw),
            final(self).observed_min as int == vstd::math::min(
                old(self).observed_min as int,
                raw as int,
            ),
            final(self).observed_max as int == vstd::math::max(
                old(self).observed_max as int,
                raw as int,
            ),
            final(self).observed_min <= raw <= final(self).observed_max,
            final(self).observed_min <= old(self).observed_min,
            final(self).observed_max >= old(self).observed_max,
            final(self).threshold == old(self).threshold,
            final(self).slider_percent == old(self).slider_percent,
    {
        if self.observed_min > raw {
            self.observed_min = raw;
        }
        if self.observed_max < raw {
            self.observed_max = raw;
        }
    }

    /// Computes the comparator window around a center reading: exactly
    /// `[center - threshold, center + threshold]`, each edge saturating at
    /// the bounds of the raw unit.
    pub fn set_thresholds(&self, center: i16) -> (w: ThresholdWindow)
        requires
            self.wf(),
        ensures
            w == window_spec(*self, center),
            w.low as int == sat_sub_i16(center as int, self.threshold as int),
            w.high as int == sat_add_i16(center as int, self.threshold as int),
            i16::MIN <= center - self.threshold ==> w.low == center - self.threshold,
            center + self.threshold <= i16::MAX ==> w.high == center + self.threshold,
    {
        let low: i16 = if center < i16::MIN + self.threshold {
            i16::MIN
        } else {
            center - self.threshold
        };
        let high: i16 = if center > i16::MAX - self.threshold {
            i16::MAX
        } else {
            center + self.threshold
        };
        ThresholdWindow { low, high }
    }

    /// Converts a raw reading into the percent of the calibrated range that
    /// the controller reports; readings outside the bounds clamp silently to
    /// the nearest bound.
    pub fn value_to_percent(&self, value: i16) -> (p: i8)
        requires
            self.wf(),
        ensures
            p as int == percent_of(
                self.observed_min as int,
                self.observed_max as int,
                value as int,
            ),
            0 <= p <= 100,
    {
        let min: i32 = self.observed_min as i32;
        let max: i32 = self.observed_max as i32;
        let v: i32 = value as i32;
        let c: i32 = if v < min {
            min
        } else if v > max {
            max
        } else {
            v
        };
        let d: i32 = max - min;
        let num: i32 = (c - min) * 200 + d;
        let q: i32 = num / (2 * d);
        proof {
            lemma_round_div_bounds((c - min) as int * 100, d as int, 100);
        }
        q as i8
    }

    /// Converts a percent command into the raw target value: the inverse
    /// linear map with a half-bucket rounding bias, truncated once as a
    /// whole sum and saturated to the `i16` range of the sensor unit.
    pub fn percent_to_value(&self, percent: i8) -> (r: i16)
        requires
            self.wf(),
            0 <= percent <= 100,
        ensures
            r as int == raw_of(
                self.observed_min as int,
                self.observed_max as int,
                percent as int,
            ),
    {
        let min: i32 = self.observed_min as i32;
        let d: i32 = self.observed_max as i32 - min;
        proof {
            assert(0 <= 2 * percent as int * d as int <= 200 * (d as int)) by (nonlinear_arith)
                requires
                    0 <= percent <= 100,
                    0 < d,
            ;
        }
        let num: i32 = 2 * percent as i32 * d + d;
        proof {
            vstd::arithmetic::div_mod::lemma_div_pos_is_pos(num as int, 200);
            vstd::arithmetic::div_mod::lemma_div_nonincreasing(num as int, 200);
        }
        let v: i32 = min + num / 200;
        if v > i16::MAX as i32 {
            i16::MAX
        } else if v < i16::MIN as i32 {
            i16::MIN
        } else {
            v as i16
        }
    }

    /// One baseline pass over a fresh one-shot reading: recomputes the
    /// comparator window around the reading, widens the calibration bounds
    /// to cover it, and reports the new percent exactly when it differs from
    /// the last published one.
    pub fn baseline(&mut self, raw: i16) -> (eff: BaselineEffect)
        requires
            old(self).wf(),
        ensures
            final(self).wf(),
            *final(self) == baseline_slider(*old(self), raw),
            eff.window == window_spec(*old(self), raw),
            eff.notify == baseline_notify(*old(self), raw),
            final(self).threshold == old(self).threshold,
            final(self).observed_min <= old(self).observed_min,
            final(self).observed_max >= old(self).observed_max,
            final(self).observed_min <= raw <= final(self).observed_max,
            final(self).slider_percent as int == baseline_percent(*old(self), raw),
    {
        let window = self.set_thresholds(raw);
        self.update_calibration(raw);
        let new_percent: i8 = self.value_to_percent(raw);
        let notify: Option<SliderValue> = if self.slider_percent != new_percent {
            self.slider_percent = new_percent;
            Some(SliderValue::Percent(new_percent))
        } else {
            None
        };
        BaselineEffect { window, notify }
    }

    /// Begins a positioning run toward a percent command: converts the
    /// percent into its raw target and hands back the run state for the
    /// closed loop.
    pub fn start_move(&self, percent: i8) -> (run: MotionState)
        requires
            self.wf(),
            0 <= percent <= 100,
        ensures
            run.wf(),
            run.target as int == raw_of(
                self.observed_min as int,
                self.observed_max as int,
                percent as int,
            ),
            run.threshold == self.threshold,
            run.previous_distance == i16::MAX,
    {
        let target: i16 = self.percent_to_value(percent);
        MotionState::start(target, self.threshold)
    }
}

/// Where the controller stands in its dispatch cycle.
#[derive(Clone, Copy, Debug)]
pub enum Phase {
    /// Sensor in continuous mode; waiting on the action channel.
    Listening,
    /// Sensor in one-shot mode; one reading is owed for a baseline pass.
    Baselining,
    /// Sensor in one-shot mode; driving the motor toward a target, one
    /// reading owed per iteration.
    Seeking(MotionState),
}

/// A hardware mishap the driver loop can meet between decisions: the sensor
/// refused the switch between one-shot and continuous mode, or a one-shot
/// read came back with a bus error. Both are transient bus conditions, not
/// data corruption, so neither ends the controller.
#[derive(Clone, Copy, Debug, PartialEq, Eq, Structural)]
pub enum DriverFault {
    ModeTransitionFailed,
    ReadFailed,
}

/// The controller's recovery decision for a reported driver fault.
#[derive(Clone, Copy, Debug, PartialEq, Eq, Structural)]
pub enum FaultAction {
    /// Try the failed mode switch or read once more.
    Retry,
    /// The retry budget ran out: surface the error, abandon any move in
    /// progress, and resume the cycle with a fresh baseline pass once the
    /// device answers again.
    Abandon(Error),
}

/// How many times in a row a failed mode switch or read is retried before
/// the controller gives the operation up.
pub const FAULT_RETRY_BUDGET: u8 = 3;

/// What the driver loop must do after handing the controller a reading.
#[derive(Clone, Copy, Debug, PartialEq, Eq)]
pub enum ControllerEffect {
    /// The baseline pass finished: push the window to the sensor, publish
    /// the notification if one is present, re-enter continuous mode and
    /// listen again.
    BaselineDone { window: ThresholdWindow, notify: Option<SliderValue> },
    /// The move goes on: apply the motor command, wait briefly, then take
    /// another one-shot reading.
    Driving(MotorCommand),
    /// The move ended — stopped on arrival, or stopped and faulted — and a
    /// reading is owed next for the post-move baseline. The driver stops the
    /// motor before acting on the fault.
    MoveEnded { fault: Option<Error> },
}

/// The top-level controller: the calibration and notification state together
/// with the dispatch cycle of listening, baselining and seeking. The driver
/// loop owns the sensor and the motor; the controller owns every decision.
pub struct Controller {
    pub slider: Slider,
    pub phase: Phase,
    /// How many more times the currently failing operation may be retried.
    pub retries_left: u8,
}

impl Controller {
    /// Well-formed controller: the control state is well-formed, a run in
    /// progress carries the controller's own threshold, and the retry
    /// counter stays within its budget.
    pub open spec fn wf(&self) -> bool {
        &&& self.slider.wf()
        &&& (self.phase matches Phase::Seeking(run) ==> run.wf() && run.threshold
            == self.slider.threshold)
        &&& self.retries_left <= FAULT_RETRY_BUDGET
    }

    /// A controller right after startup: the initial baseline pass is owed
    /// before it first listens.
    pub fn new(slider: Slider) -> (c: Self)
        requires
            slider.wf(),
        ensures
            c.wf(),
            c.slider == slider,
            c.phase is Baselining,
            c.retries_left == FAULT_RETRY_BUDGET,
    {
        Controller { slider, phase: Phase::Baselining, retries_left: FAULT_RETRY_BUDGET }
    }

    /// The listening-to-dispatching transition: accepts one action off the
    /// channel and decides what the cycle does next. A read request owes a
    /// baseline pass; a move command starts a positioning run toward the
    /// commanded percent, forced into `0..=100`. In any other phase the
    /// action is refused and nothing changes.
    pub fn on_action(&mut self, action: SliderAction) -> (accepted: bool)
        requires
            old(self).wf(),
        ensures
            final(self).wf(),
            final(self).slider == old(self).slider,
            final(self).retries_left == old(self).retries_left,
            accepted == (old(self).phase is Listening),
            !accepted ==> *final(self) == *old(self),
            accepted && action is ReadSlider ==> final(self).phase is Baselining,
            action matches SliderAction::MoveSlider(v) ==> (accepted ==> final(self).phase
                == Phase::Seeking(
                (MotionState {
                    target: raw_of(
                        old(self).slider.observed_min as int,
                        old(self).slider.observed_max as int,
                        clamp_int(v as int, 0, 100),
                    ) as i16,
                    threshold: old(self).slider.threshold,
                    previous_distance: i16::MAX,
                }),
            )),
    {
        match self.phase {
            Phase::Listening => {},
            _ => {
                return false;
            },
        }
        match action {
            SliderAction::ReadSlider => {
                self.phase = Phase::Baselining;
            },
            SliderAction::MoveSlider(v) => {
                let percent: i8 = if v < 0 {
                    0
                } else if v > 100 {
                    100
                } else {
                    v
                };
                let run = self.slider.start_move(percent);
                self.phase = Phase::Seeking(run);
            },
        }
        true
    }

    /// Hands the controller the one reading it is owed. While baselining,
    /// the baseline pass runs and the controller listens again; while
    /// seeking, one positioning iteration runs, and the move's end leads
    /// into the post-move baseline. A reading while listening is refused.
    pub fn on_reading(&mut self, raw: i16) -> (eff: Option<ControllerEffect>)
        requires
            old(self).wf(),
        ensures
            final(self).wf(),
            old(self).phase is Listening ==> *final(self) == *old(self) && eff is None,
            !(old(self).phase is Listening) ==> final(self).retries_left == FAULT_RETRY_BUDGET,
            old(self).phase is Baselining ==> {
                &&& final(self).phase is Listening
                &&& final(self).slider == baseline_slider(old(self).slider, raw)
                &&& eff == Some(
                    (ControllerEffect::BaselineDone {
                        window: window_spec(old(self).slider, raw),
                        notify: baseline_notify(old(self).slider, raw),
                    }),
                )
            },
            old(self).phase matches Phase::Seeking(run) ==> {
                &&& final(self).slider == old(self).slider
                &&& (step_status(run, raw) is Continue ==> final(self).phase == Phase::Seeking(
                    step_state(run, raw),
                ) && eff == Some(ControllerEffect::Driving(step_command(run, raw))))
                &&& (step_status(run, raw) is Arrived ==> final(self).phase is Baselining && eff
                    == Some((ControllerEffect::MoveEnded { fault: None })))
                &&& (step_status(run, raw) is Fault ==> final(self).phase is Baselining && eff
                    == Some(
                    (ControllerEffect::MoveEnded {
                        fault: Some(Error::DirectionReversalDetected),
                    }),
                ))
            },
    {
        match self.phase {
            Phase::Listening => None,
            Phase::Baselining => {
                self.retries_left = FAULT_RETRY_BUDGET;
                let eff = self.baseline_pass(raw);
                Some(eff)
            },
            Phase::Seeking(run) => {
                self.retries_left = FAULT_RETRY_BUDGET;
                let mut run = run;
                let step = run.step(raw);
                match step.status {
                    MotionStatus::Continue => {
                        self.phase = Phase::Seeking(run);
                        Some(ControllerEffect::Driving(step.command))
                    },
                    MotionStatus::Arrived => {
                        self.phase = Phase::Baselining;
                        Some(ControllerEffect::MoveEnded { fault: None })
                    },
                    MotionStatus::Fault(e) => {
                        self.phase = Phase::Baselining;
                        Some(ControllerEffect::MoveEnded { fault: Some(e) })
                    },
                }
            },
        }
    }

    /// Runs the baseline pass while one is owed and returns to listening.
    fn baseline_pass(&mut self, raw: i16) -> (eff: ControllerEffect)
        requires
            old(self).wf(),
            old(self).phase is Baselining,
        ensures
            final(self).wf(),
            final(self).phase is Listening,
            final(self).slider == baseline_slider(old(self).slider, raw),
            final(self).retries_left == old(self).retries_left,
            eff == (ControllerEffect::BaselineDone {
                window: window_spec(old(self).slider, raw),
                notify: baseline_notify(old(self).slider, raw),
            }),
    {
        let b = self.slider.baseline(raw);
        self.phase = Phase::Listening;
        ControllerEffect::BaselineDone { window: b.window, notify: b.notify }
    }

    /// The recovery decision for a fault the driver met while switching the
    /// sensor mode or taking a reading: a bounded number of retries, then
    /// the operation is given up. On `Abandon` any move in progress is
    /// abandoned and the cycle resumes with a fresh baseline pass — the
    /// driver has the motor stopped before it reports, so no fault ever
    /// leaves the motor driving, and the controller can always resume. A
    /// later successful reading refills the retry budget.
    pub fn on_fault(&mut self, fault: DriverFault) -> (action: FaultAction)
        requires
            old(self).wf(),
        ensures
            final(self).wf(),
            final(self).slider == old(self).slider,
            old(self).retries_left > 0 ==> {
                &&& action is Retry
                &&& final(self).retries_left == old(self).retries_left - 1
                &&& final(self).phase == old(self).phase
            },
            old(self).retries_left == 0 ==> {
                &&& action == FaultAction::Abandon(Error::FailedUpdate)
                &&& final(self).retries_left == FAULT_RETRY_BUDGET
                &&& final(self).phase is Baselining
            },
    {
        if self.retries_left > 0 {
            self.retries_left = self.retries_left - 1;
            FaultAction::Retry
        } else {
            // Either kind of fault means the commanded update of the fader
            // state could not be carried out; the driver knows which
            // operation it was retrying.
            let error: Error = match fault {
                DriverFault::ModeTransitionFailed => Error::FailedUpdate,
                DriverFault::ReadFailed => Error::FailedUpdate,
            };
            self.retries_left = FAULT_RETRY_BUDGET;
            self.phase = Phase::Baselining;
            FaultAction::Abandon(error)
        }
    }
}

/// The control state after its calibration bounds widen to cover each
/// reading of a sequence in turn.
pub open spec fn calibrate_all(s: Slider, raws: Seq<i16>) -> Slider
    decreases raws.len(),
{
    if raws.len() == 0 {
        s
    } else {
        calibrate_all(calibrate_spec(s, raws[0]), raws.skip(1))
    }
}

/// Monotonic calibration: over any sequence of calibration updates the lower
/// bound only falls or stays, the upper bound only rises or stays — the
/// bounds never regress toward a narrower range — and everything else in the
/// control state is untouched.
pub proof fn lemma_calibration_monotone(s: Slider, raws: Seq<i16>)
    ensures
        calibrate_all(s, raws).observed_min <= s.observed_min,
        calibrate_all(s, raws).observed_max >= s.observed_max,
        calibrate_all(s, raws).threshold == s.threshold,
        calibrate_all(s, raws).slider_percent == s.slider_percent,
        s.wf() ==> calibrate_all(s, raws).wf(),
    decreases raws.len(),
{
    if raws.len() > 0 {
        lemma_calibration_monotone(calibrate_spec(s, raws[0]), raws.skip(1));
    }
}

/// Round trip between the two conversions: with calibration bounds at least
/// two hundred raw units apart, converting a percent into its raw target and
/// that target back into a percent lands within one percent of where it
/// started — in fact never below it. Narrower bounds quantise too coarsely
/// for any such promise: with bounds 0 and 1, every percent command maps
/// onto raw 0 or raw 1, and both read back near the middle of the scale.
pub proof fn lemma_round_trip(min: int, max: int, p: int)
    requires
        i16::MIN <= min,
        max <= i16::MAX,
        max - min >= 200,
        0 <= p <= 100,
    ensures
        p <= percent_of(min, max, raw_of(min, max, p)) <= p + 1,
{
    let d = max - min;
    let x = p * d;
    assert(0 <= x <= 100 * d) by (nonlinear_arith)
        requires
            0 <= p <= 100,
            0 < d,
            x == p * d,
    ;
    assert(2 * p * d == 2 * x) by (nonlinear_arith)
        requires
            x == p * d,
    ;
    let e = (2 * x + d) / 200;
    let r1 = (2 * x + d) % 200;
    lemma_fundamental_div_mod(2 * x + d, 200);
    lemma_mod_bound(2 * x + d, 200);
    let v0 = min + e;
    if p <= 99 {
        assert(x <= 99 * d) by (nonlinear_arith)
            requires
                p <= 99,
                0 < d,
                x == p * d,
        ;
        assert(200 * e <= 199 * d);
        assert(v0 < max);
    }
    let raw = raw_of(min, max, p);
    assert(raw == clamp_int(v0, i16::MIN as int, i16::MAX as int));
    if v0 > max {
        // Only the full-scale command can overshoot the upper bound, and its
        // target reads back as exactly full scale.
        assert(p == 100);
        assert(raw >= max);
        assert(clamp_int(raw, min, max) == max);
        assert(2 * ((max - min) * 100) + d == 100 * (2 * d) + d);
        lemma_fundamental_div_mod_converse(2 * ((max - min) * 100) + d, 2 * d, 100, d);
        assert(percent_of(min, max, raw) == 100);
    } else {
        assert(raw == v0);
        assert(clamp_int(raw, min, max) == v0);
        let m = 2 * ((v0 - min) * 100) + d;
        assert(m == 200 * e + d);
        assert(200 * e == 2 * x + d - r1);
        assert(2 * x < m <= 2 * x + 2 * d);
        assert(2 * x == p * (2 * d)) by (nonlinear_arith)
            requires
                x == p * d,
        ;
        assert(2 * x + 2 * d == (p + 1) * (2 * d)) by (nonlinear_arith)
            requires
                x == p * d,
        ;
        lemma_div_by_multiple(p, 2 * d);
        lemma_div_by_multiple(p + 1, 2 * d);
        lemma_div_is_ordered(p * (2 * d), m, 2 * d);
        lemma_div_is_ordered(m, (p + 1) * (2 * d), 2 * d);
        assert(percent_of(min, max, raw) == m / (2 * d));
    }
}

/// Bounds for the rounding division behind the percent conversions: when
/// `0 <= n <= c * d`, the rounded quotient `n / d` lies in `[0, c]`.
pub proof fn lemma_round_div_bounds(n: int, d: int, c: int)
    requires
        0 < d,
        0 <= c,
        0 <= n <= c * d,
    ensures
        0 <= round_div(n, d) <= c,
{
    vstd::arithmetic::div_mod::lemma_div_pos_is_pos(2 * n + d, 2 * d);
    assert(2 * n + d < (2 * d) * (c + 1)) by (nonlinear_arith)
        requires
            n <= c * d,
            0 < d,
    ;
    vstd::arithmetic::div_mod::lemma_multiply_divide_lt(2 * n + d, 2 * d, c + 1);
}

} // verus!

