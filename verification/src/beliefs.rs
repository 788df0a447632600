//! Gaussian-style beliefs over hidden state.
//!
//! The organism keeps a mean and a per-component uncertainty (variance) over
//! four hidden-state components: position x, position y, heading, and the
//! nutrient concentration at its location. Uncertainty shrinks on
//! observation and grows on prediction, always clamped between a floor and
//! a ceiling so beliefs never become perfectly certain nor unboundedly
//! vague.

use vstd::prelude::*;
use crate::fixed::{Fix, SCALE, fadd, fsub, fmul, fclamp};
use crate::params::{INITIAL_UNCERTAINTY, MAX_UNCERTAINTY, MIN_UNCERTAINTY};

verus! {

/// Ghost model of a [`BeliefMean`].
pub struct BeliefMeanV {
    pub x: int,
    pub y: int,
    pub angle: int,
    pub nutrient: int,
}

/// Ghost model of a [`BeliefUncertainty`].
pub struct BeliefUncertaintyV {
    pub x: int,
    pub y: int,
    pub angle: int,
    pub nutrient: int,
}

/// Ghost model of a [`BeliefState`].
pub struct BeliefStateV {
    pub mean: BeliefMeanV,
    pub uncertainty: BeliefUncertaintyV,
}

/// Mean of the belief distribution per hidden-state component.
#[derive(Clone, Copy, PartialEq, Eq, Structural, Debug)]
pub struct BeliefMean {
    pub x: Fix,
    pub y: Fix,
    pub angle: Fix,
    pub nutrient: Fix,
}

/// Uncertainty (variance) of the belief distribution per component.
#[derive(Clone, Copy, PartialEq, Eq, Structural, Debug)]
pub struct BeliefUncertainty {
    pub x: Fix,
    pub y: Fix,
    pub angle: Fix,
    pub nutrient: Fix,
}

/// Gradient of the free energy with respect to each belief mean.
#[derive(Clone, Copy, PartialEq, Eq, Structural, Debug)]
pub struct BeliefGradient {
    pub x: Fix,
    pub y: Fix,
    pub angle: Fix,
    pub nutrient: Fix,
}

/// Gaussian-style beliefs: mean and per-component uncertainty.
#[derive(Clone, Copy, PartialEq, Eq, Structural, Debug)]
pub struct BeliefState {
    pub mean: BeliefMean,
    pub uncertainty: BeliefUncertainty,
}

impl View for BeliefMean {
    type V = BeliefMeanV;

    open spec fn view(&self) -> BeliefMeanV {
        BeliefMeanV { x: self.x@, y: self.y@, angle: self.angle@, nutrient: self.nutrient@ }
    }
}

impl View for BeliefUncertainty {
    type V = BeliefUncertaintyV;

    open spec fn view(&self) -> BeliefUncertaintyV {
        BeliefUncertaintyV {
            x: self.x@,
            y: self.y@,
            angle: self.angle@,
            nutrient: self.nutrient@,
        }
    }
}

impl View for BeliefState {
    type V = BeliefStateV;

    open spec fn view(&self) -> BeliefStateV {
        BeliefStateV { mean: self.mean@, uncertainty: self.uncertainty@ }
    }
}

/// Every uncertainty component sits between the floor and the ceiling.
pub open spec fn uncertainty_in_bounds(u: BeliefUncertaintyV) -> bool {
    &&& MIN_UNCERTAINTY as int <= u.x <= MAX_UNCERTAINTY as int
    &&& MIN_UNCERTAINTY as int <= u.y <= MAX_UNCERTAINTY as int
    &&& MIN_UNCERTAINTY as int <= u.angle <= MAX_UNCERTAINTY as int
    &&& MIN_UNCERTAINTY as int <= u.nutrient <= MAX_UNCERTAINTY as int
}

/// The belief state at agent birth: the true pose, a neutral nutrient
/// belief, and the initial uncertainty on every component.
pub open spec fn beliefs_new_s(x: int, y: int, angle: int) -> BeliefStateV {
    BeliefStateV {
        mean: BeliefMeanV { x: x, y: y, angle: angle, nutrient: 0 },
        uncertainty: BeliefUncertaintyV {
            x: INITIAL_UNCERTAINTY as int,
            y: INITIAL_UNCERTAINTY as int,
            angle: INITIAL_UNCERTAINTY as int,
            nutrient: INITIAL_UNCERTAINTY as int,
        },
    }
}

/// Position beliefs synchronized to the true pose (perfect proprioception).
pub open spec fn beliefs_sync_s(b: BeliefStateV, x: int, y: int, angle: int) -> BeliefStateV {
    BeliefStateV {
        mean: BeliefMeanV { x: x, y: y, angle: angle, nutrient: b.mean.nutrient },
        uncertainty: b.uncertainty,
    }
}

/// One gradient-descent step on the belief means. The nutrient belief is
/// a concentration, so it stays clamped to the observable range `[0, 1]`.
pub open spec fn beliefs_update_s(b: BeliefStateV, g: BeliefMeanV, lr: int) -> BeliefStateV {
    BeliefStateV {
        mean: BeliefMeanV {
            x: fsub(b.mean.x, fmul(lr, g.x)),
            y: fsub(b.mean.y, fmul(lr, g.y)),
            angle: fsub(b.mean.angle, fmul(lr, g.angle)),
            nutrient: fclamp(fsub(b.mean.nutrient, fmul(lr, g.nutrient)), 0, SCALE as int),
        },
        uncertainty: b.uncertainty,
    }
}

/// Every uncertainty component multiplied by a factor, then clamped into
/// the band between the floor and the ceiling.
pub open spec fn beliefs_scale_uncertainty_s(b: BeliefStateV, factor: int) -> BeliefStateV {
    BeliefStateV {
        mean: b.mean,
        uncertainty: BeliefUncertaintyV {
            x: fclamp(fmul(b.uncertainty.x, factor), MIN_UNCERTAINTY as int, MAX_UNCERTAINTY as int),
            y: fclamp(fmul(b.uncertainty.y, factor), MIN_UNCERTAINTY as int, MAX_UNCERTAINTY as int),
            angle: fclamp(
                fmul(b.uncertainty.angle, factor),
                MIN_UNCERTAINTY as int,
                MAX_UNCERTAINTY as int,
            ),
            nutrient: fclamp(
                fmul(b.uncertainty.nutrient, factor),
                MIN_UNCERTAINTY as int,
                MAX_UNCERTAINTY as int,
            ),
        },
    }
}

/// Sum of the four uncertainty components.
pub open spec fn total_uncertainty_s(b: BeliefStateV) -> int {
    fadd(fadd(fadd(b.uncertainty.x, b.uncertainty.y), b.uncertainty.angle), b.uncertainty.nutrient)
}

impl BeliefState {
    /// Beliefs at agent birth, from the organism's true pose.
    pub fn new(x: Fix, y: Fix, angle: Fix) -> (r: BeliefState)
        ensures
            r@ == beliefs_new_s(x@, y@, angle@),
            uncertainty_in_bounds(r@.uncertainty),
    {
        let u = Fix::from_micros(INITIAL_UNCERTAINTY);
        BeliefState {
            mean: BeliefMean { x, y, angle, nutrient: Fix::zero() },
            uncertainty: BeliefUncertainty { x: u, y: u, angle: u, nutrient: u },
        }
    }

    /// Synchronize position beliefs with the true pose.
    pub fn sync_position(&mut self, x: Fix, y: Fix, angle: Fix)
        ensures
            final(self)@ == beliefs_sync_s(old(self)@, x@, y@, angle@),
    {
        self.mean.x = x;
        self.mean.y = y;
        self.mean.angle = angle;
    }

    /// Move the belief means one step against the free-energy gradient.
    pub fn update(&mut self, gradient: &BeliefGradient, learning_rate: Fix)
        ensures
            final(self)@ == beliefs_update_s(
                old(self)@,
                BeliefMeanV {
                    x: gradient.x@,
                    y: gradient.y@,
                    angle: gradient.angle@,
                    nutrient: gradient.nutrient@,
                },
                learning_rate@,
            ),
    {
        self.mean.x = self.mean.x.sub(learning_rate.mul(gradient.x));
        self.mean.y = self.mean.y.sub(learning_rate.mul(gradient.y));
        self.mean.angle = self.mean.angle.sub(learning_rate.mul(gradient.angle));
        self.mean.nutrient = self.mean.nutrient.sub(learning_rate.mul(gradient.nutrient)).clamp(
            Fix::zero(),
            Fix::from_micros(SCALE),
        );
    }

    /// Shrink uncertainty after incorporating an observation.
    pub fn decrease_uncertainty(&mut self, factor: Fix)
        ensures
            final(self)@ == beliefs_scale_uncertainty_s(old(self)@, factor@),
            uncertainty_in_bounds(final(self)@.uncertainty),
    {
        self.scale_uncertainty(factor);
    }

    /// Grow uncertainty when predicting an unobserved future.
    pub fn increase_uncertainty(&mut self, factor: Fix)
        ensures
            final(self)@ == beliefs_scale_uncertainty_s(old(self)@, factor@),
            uncertainty_in_bounds(final(self)@.uncertainty),
    {
        self.scale_uncertainty(factor);
    }

    /// Multiply every uncertainty component by a factor, clamped into the
    /// band between the floor and the ceiling.
    fn scale_uncertainty(&mut self, factor: Fix)
        ensures
            final(self)@ == beliefs_scale_uncertainty_s(old(self)@, factor@),
            uncertainty_in_bounds(final(self)@.uncertainty),
    {
        let lo = Fix::from_micros(MIN_UNCERTAINTY);
        let hi = Fix::from_micros(MAX_UNCERTAINTY);
        self.uncertainty.x = self.uncertainty.x.mul(factor).clamp(lo, hi);
        self.uncertainty.y = self.uncertainty.y.mul(factor).clamp(lo, hi);
        self.uncertainty.angle = self.uncertainty.angle.mul(factor).clamp(lo, hi);
        self.uncertainty.nutrient = self.uncertainty.nutrient.mul(factor).clamp(lo, hi);
    }

    /// Total variance across all components.
    pub fn total_uncertainty(&self) -> (r: Fix)
        ensures
            r@ == total_uncertainty_s(self@),
    {
        self.uncertainty.x.add(self.uncertainty.y).add(self.uncertainty.angle).add(
            self.uncertainty.nutrient,
        )
    }
}

} // verus!
