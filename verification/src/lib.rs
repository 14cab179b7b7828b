//! Control core for a motorized fader.
//!
//! The library holds the decision and bookkeeping logic of the fader
//! controller: adaptive calibration of the observed raw sensor range,
//! raw/percent conversion, comparator threshold-window management, the
//! tiered-speed closed-loop positioning algorithm with stall detection, and
//! the single-slot latest-value-wins event channels that connect the
//! controller to its surroundings.
//!
//! Hardware stays with the caller: the analog sensor, the motor outputs and
//! the timer are driven by an outer loop that feeds raw readings in and
//! carries motor commands and threshold windows out. Every function here is
//! a pure computation or state update over plain integers, and each carries
//! a contract that pins its result down.

pub mod channel;
pub mod motion;
pub mod slider;
