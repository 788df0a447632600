//! Morphology: the organism's adaptable sensing and learning parameters.
//!
//! Four scalars — sensor distance, sensor stereo angle, belief learning rate
//! and the homeostatic target concentration — each independently clamped to
//! a physiological range. Only the slow regulator mutates them; sensing,
//! inference and the generative model read them.

use vstd::prelude::*;
use crate::fixed::{Fix, fadd, fsub, fmul, fclamp};
use crate::params::{BELIEF_LEARNING_RATE, SENSOR_ANGLE, SENSOR_DIST, TARGET_CONCENTRATION};

verus! {

/// Smallest physiological sensor distance.
pub const MIN_SENSOR_DIST: i64 = 1_000_000;
/// Largest physiological sensor distance.
pub const MAX_SENSOR_DIST: i64 = 4_000_000;
/// Step scale of sensor-distance adjustments.
pub const SENSOR_DIST_RATE: i64 = 100_000;

/// Smallest physiological sensor stereo angle (about 11.5 degrees).
pub const MIN_SENSOR_ANGLE: i64 = 200_000;
/// Largest physiological sensor stereo angle (about 57 degrees).
pub const MAX_SENSOR_ANGLE: i64 = 1_000_000;
/// Step scale of sensor-angle adjustments.
pub const SENSOR_ANGLE_RATE: i64 = 50_000;

/// Smallest belief learning rate.
pub const MIN_LEARNING_RATE: i64 = 50_000;
/// Largest belief learning rate.
pub const MAX_LEARNING_RATE: i64 = 300_000;
/// Step scale of learning-rate adjustments.
pub const LEARNING_RATE_RATE: i64 = 10_000;

/// Lowest homeostatic target concentration.
pub const MIN_TARGET: i64 = 500_000;
/// Highest homeostatic target concentration.
pub const MAX_TARGET: i64 = 900_000;
/// Step scale of target-concentration adjustments.
pub const TARGET_RATE: i64 = 20_000;
/// Fraction of the gap to the ideal target recovered per quiet adjustment.
pub const TARGET_RECOVERY_RATE: i64 = 50_000;

/// Ghost model of a [`Morphology`].
pub struct MorphV {
    pub sensor_dist: int,
    pub sensor_angle: int,
    pub belief_learning_rate: int,
    pub target_concentration: int,
}

/// The default morphology.
pub open spec fn morph_default_s() -> MorphV {
    MorphV {
        sensor_dist: SENSOR_DIST as int,
        sensor_angle: SENSOR_ANGLE as int,
        belief_learning_rate: BELIEF_LEARNING_RATE as int,
        target_concentration: TARGET_CONCENTRATION as int,
    }
}

/// All four parameters sit inside their physiological ranges.
pub open spec fn morph_in_bounds(m: MorphV) -> bool {
    &&& MIN_SENSOR_DIST as int <= m.sensor_dist <= MAX_SENSOR_DIST as int
    &&& MIN_SENSOR_ANGLE as int <= m.sensor_angle <= MAX_SENSOR_ANGLE as int
    &&& MIN_LEARNING_RATE as int <= m.belief_learning_rate <= MAX_LEARNING_RATE as int
    &&& MIN_TARGET as int <= m.target_concentration <= MAX_TARGET as int
}

/// Sensor-distance adjustment: nudged by the surprise delta, then clamped.
pub open spec fn adj_sensor_dist_s(m: MorphV, delta: int) -> MorphV {
    MorphV {
        sensor_dist: fclamp(
            fadd(m.sensor_dist, fmul(SENSOR_DIST_RATE as int, delta)),
            MIN_SENSOR_DIST as int,
            MAX_SENSOR_DIST as int,
        ),
        sensor_angle: m.sensor_angle,
        belief_learning_rate: m.belief_learning_rate,
        target_concentration: m.target_concentration,
    }
}

/// Sensor-angle adjustment: nudged by the surprise delta, then clamped.
pub open spec fn adj_sensor_angle_s(m: MorphV, delta: int) -> MorphV {
    MorphV {
        sensor_dist: m.sensor_dist,
        sensor_angle: fclamp(
            fadd(m.sensor_angle, fmul(SENSOR_ANGLE_RATE as int, delta)),
            MIN_SENSOR_ANGLE as int,
            MAX_SENSOR_ANGLE as int,
        ),
        belief_learning_rate: m.belief_learning_rate,
        target_concentration: m.target_concentration,
    }
}

/// Learning-rate adjustment: nudged by the surprise delta, then clamped.
pub open spec fn adj_learning_rate_s(m: MorphV, delta: int) -> MorphV {
    MorphV {
        sensor_dist: m.sensor_dist,
        sensor_angle: m.sensor_angle,
        belief_learning_rate: fclamp(
            fadd(m.belief_learning_rate, fmul(LEARNING_RATE_RATE as int, delta)),
            MIN_LEARNING_RATE as int,
            MAX_LEARNING_RATE as int,
        ),
        target_concentration: m.target_concentration,
    }
}

/// Target-concentration adjustment: frustration lowers the target, and
/// absent frustration it recovers a fraction of the gap to the ideal.
pub open spec fn adj_target_s(m: MorphV, delta: int) -> MorphV {
    let moved = if delta > 0 {
        fsub(m.target_concentration, fmul(TARGET_RATE as int, delta))
    } else {
        fadd(
            m.target_concentration,
            fmul(
                fsub(TARGET_CONCENTRATION as int, m.target_concentration),
                TARGET_RECOVERY_RATE as int,
            ),
        )
    };
    MorphV {
        sensor_dist: m.sensor_dist,
        sensor_angle: m.sensor_angle,
        belief_learning_rate: m.belief_learning_rate,
        target_concentration: fclamp(moved, MIN_TARGET as int, MAX_TARGET as int),
    }
}

/// Morphological parameters that adapt over time.
#[derive(Clone, Copy, PartialEq, Eq, Structural, Debug)]
pub struct Morphology {
    /// Distance from body center to the chemical sensors.
    pub sensor_dist: Fix,
    /// Angle offset of the sensors from the heading (stereo spread).
    pub sensor_angle: Fix,
    /// Learning rate for belief updates via free-energy gradient descent.
    pub belief_learning_rate: Fix,
    /// Target nutrient concentration (homeostatic set-point).
    pub target_concentration: Fix,
}

impl View for Morphology {
    type V = MorphV;

    open spec fn view(&self) -> MorphV {
        MorphV {
            sensor_dist: self.sensor_dist@,
            sensor_angle: self.sensor_angle@,
            belief_learning_rate: self.belief_learning_rate@,
            target_concentration: self.target_concentration@,
        }
    }
}

impl Morphology {
    /// A new morphology with the default parameters.
    pub fn new() -> (r: Morphology)
        ensures
            r@ == morph_default_s(),
            morph_in_bounds(r@),
    {
        Morphology {
            sensor_dist: Fix::from_micros(SENSOR_DIST),
            sensor_angle: Fix::from_micros(SENSOR_ANGLE),
            belief_learning_rate: Fix::from_micros(BELIEF_LEARNING_RATE),
            target_concentration: Fix::from_micros(TARGET_CONCENTRATION),
        }
    }

    /// Adjust the sensor distance: more surprise reaches farther out.
    pub fn adjust_sensor_dist(&mut self, surprise_delta: Fix)
        ensures
            final(self)@ == adj_sensor_dist_s(old(self)@, surprise_delta@),
            MIN_SENSOR_DIST as int <= final(self)@.sensor_dist <= MAX_SENSOR_DIST as int,
    {
        let step = Fix::from_micros(SENSOR_DIST_RATE).mul(surprise_delta);
        self.sensor_dist = self.sensor_dist.add(step).clamp(
            Fix::from_micros(MIN_SENSOR_DIST),
            Fix::from_micros(MAX_SENSOR_DIST),
        );
    }

    /// Adjust the sensor angle: more surprise widens the stereo spread.
    pub fn adjust_sensor_angle(&mut self, surprise_delta: Fix)
        ensures
            final(self)@ == adj_sensor_angle_s(old(self)@, surprise_delta@),
            MIN_SENSOR_ANGLE as int <= final(self)@.sensor_angle <= MAX_SENSOR_ANGLE as int,
    {
        let step = Fix::from_micros(SENSOR_ANGLE_RATE).mul(surprise_delta);
        self.sensor_angle = self.sensor_angle.add(step).clamp(
            Fix::from_micros(MIN_SENSOR_ANGLE),
            Fix::from_micros(MAX_SENSOR_ANGLE),
        );
    }

    /// Adjust the belief learning rate: more surprise adapts faster.
    pub fn adjust_belief_learning_rate(&mut self, surprise_delta: Fix)
        ensures
            final(self)@ == adj_learning_rate_s(old(self)@, surprise_delta@),
            MIN_LEARNING_RATE as int <= final(self)@.belief_learning_rate
                <= MAX_LEARNING_RATE as int,
    {
        let step = Fix::from_micros(LEARNING_RATE_RATE).mul(surprise_delta);
        self.belief_learning_rate = self.belief_learning_rate.add(step).clamp(
            Fix::from_micros(MIN_LEARNING_RATE),
            Fix::from_micros(MAX_LEARNING_RATE),
        );
    }

    /// Adjust the homeostatic target: frustration lowers it (allostatic
    /// load); without frustration it recovers toward the ideal.
    pub fn adjust_target_concentration(&mut self, frustration_delta: Fix)
        ensures
            final(self)@ == adj_target_s(old(self)@, frustration_delta@),
            MIN_TARGET as int <= final(self)@.target_concentration <= MAX_TARGET as int,
    {
        let moved = if frustration_delta.gt(Fix::zero()) {
            let step = Fix::from_micros(TARGET_RATE).mul(frustration_delta);
            self.target_concentration.sub(step)
        } else {
            let gap = Fix::from_micros(TARGET_CONCENTRATION).sub(self.target_concentration);
            self.target_concentration.add(gap.mul(Fix::from_micros(TARGET_RECOVERY_RATE)))
        };
        self.target_concentration = moved.clamp(
            Fix::from_micros(MIN_TARGET),
            Fix::from_micros(MAX_TARGET),
        );
    }
}

} // verus!
