//! The organism's generative model: how observations arise from hidden
//! state, and which states it prefers.
//!
//! The prior mean over the nutrient component encodes the organism's
//! homeostatic preference; the sensory precisions say how much the two
//! chemoreceptors are trusted. The observation function predicts both
//! sensor readings from the current beliefs through the stereo geometry of
//! the sensors.

use vstd::prelude::*;
use crate::beliefs::{BeliefMean, BeliefMeanV};
use crate::fixed::{Fix, SCALE, fadd, fsub, fmul, fclamp};
use crate::params::{
    DISH_HEIGHT, DISH_WIDTH, INITIAL_SENSORY_PRECISION, NUTRIENT_PRIOR_PRECISION,
    POSITION_PRIOR_PRECISION, SENSOR_ANGLE, TARGET_CONCENTRATION,
};
use crate::trig::{cos_s, sin_s, cos_fix, sin_fix};

verus! {

/// Differential gain of the stereo geometry (0.2 per unit of spread sine).
pub const GRADIENT_GAIN: i64 = 200_000;

/// Ghost model of a [`PriorMean`].
pub struct PriorMeanV {
    pub nutrient: int,
    pub x: int,
    pub y: int,
    pub angle: int,
}

/// Ghost model of a [`PriorPrecision`].
pub struct PriorPrecisionV {
    pub nutrient: int,
    pub x: int,
    pub y: int,
    pub angle: int,
}

/// Ghost model of a [`SensoryPrecision`].
pub struct SensoryPrecisionV {
    pub left: int,
    pub right: int,
}

/// Ghost model of a [`GenerativeModel`].
pub struct ModelV {
    pub prior_mean: PriorMeanV,
    pub prior_precision: PriorPrecisionV,
    pub sensory_precision: SensoryPrecisionV,
    pub sensor_angle: int,
}

/// Prior means over hidden states. The nutrient component is the
/// organism's preference: preferences are priors.
#[derive(Clone, Copy, PartialEq, Eq, Structural, Debug)]
pub struct PriorMean {
    /// Preferred nutrient concentration.
    pub nutrient: Fix,
    /// Prior mean for position x (center of the dish).
    pub x: Fix,
    /// Prior mean for position y (center of the dish).
    pub y: Fix,
    /// Prior mean for heading (no preferred direction).
    pub angle: Fix,
}

/// Prior precisions (inverse variances): the strength of each preference.
#[derive(Clone, Copy, PartialEq, Eq, Structural, Debug)]
pub struct PriorPrecision {
    /// How strongly the target nutrient concentration is preferred.
    pub nutrient: Fix,
    /// Precision on position x (weak: free to roam).
    pub x: Fix,
    /// Precision on position y (weak: free to roam).
    pub y: Fix,
    /// Precision on heading (reserved; the heading prior is not active).
    pub angle: Fix,
}

/// Sensory precision (inverse observation variance) per receptor.
#[derive(Clone, Copy, PartialEq, Eq, Structural, Debug)]
pub struct SensoryPrecision {
    /// Precision of the left chemoreceptor.
    pub left: Fix,
    /// Precision of the right chemoreceptor.
    pub right: Fix,
}

/// Jacobian of the observation function: partial derivatives of each
/// predicted reading with respect to each belief component.
#[derive(Clone, Copy, PartialEq, Eq, Debug)]
pub struct ObservationJacobian {
    /// Derivatives of (left, right) with respect to the nutrient belief.
    pub d_obs_d_nutrient: (Fix, Fix),
    /// Derivatives of (left, right) with respect to the heading belief.
    pub d_obs_d_angle: (Fix, Fix),
}

/// The organism's generative model of the world.
#[derive(Clone, Copy, PartialEq, Eq, Structural, Debug)]
pub struct GenerativeModel {
    /// Prior mean (the nutrient entry is the homeostatic preference).
    pub prior_mean: PriorMean,
    /// Prior precision: the strength of each preference.
    pub prior_precision: PriorPrecision,
    /// Sensory precision: how reliable each receptor is.
    pub sensory_precision: SensoryPrecision,
    /// Sensor stereo angle used by the observation function.
    pub sensor_angle: Fix,
}

impl View for GenerativeModel {
    type V = ModelV;

    open spec fn view(&self) -> ModelV {
        ModelV {
            prior_mean: PriorMeanV {
                nutrient: self.prior_mean.nutrient@,
                x: self.prior_mean.x@,
                y: self.prior_mean.y@,
                angle: self.prior_mean.angle@,
            },
            prior_precision: PriorPrecisionV {
                nutrient: self.prior_precision.nutrient@,
                x: self.prior_precision.x@,
                y: self.prior_precision.y@,
                angle: self.prior_precision.angle@,
            },
            sensory_precision: SensoryPrecisionV {
                left: self.sensory_precision.left@,
                right: self.sensory_precision.right@,
            },
            sensor_angle: self.sensor_angle@,
        }
    }
}

/// The default generative model.
pub open spec fn model_default_s() -> ModelV {
    ModelV {
        prior_mean: PriorMeanV {
            nutrient: TARGET_CONCENTRATION as int,
            x: (DISH_WIDTH / 2) as int,
            y: (DISH_HEIGHT / 2) as int,
            angle: 0,
        },
        prior_precision: PriorPrecisionV {
            nutrient: NUTRIENT_PRIOR_PRECISION as int,
            x: POSITION_PRIOR_PRECISION as int,
            y: POSITION_PRIOR_PRECISION as int,
            angle: POSITION_PRIOR_PRECISION as int,
        },
        sensory_precision: SensoryPrecisionV {
            left: INITIAL_SENSORY_PRECISION as int,
            right: INITIAL_SENSORY_PRECISION as int,
        },
        sensor_angle: SENSOR_ANGLE as int,
    }
}

/// The stereo differential factor: `sin(sensor_angle) * GRADIENT_GAIN`.
pub open spec fn gradient_factor_s(m: ModelV) -> int {
    fmul(sin_s(m.sensor_angle), GRADIENT_GAIN as int)
}

/// Predicted (left, right) readings from the beliefs: the believed
/// nutrient plus or minus the stereo differential, clamped to `[0, 1]`.
pub open spec fn obs_fn_s(m: ModelV, b: BeliefMeanV) -> (int, int) {
    let gf = gradient_factor_s(m);
    let diff = fmul(gf, sin_s(b.angle));
    (
        fclamp(fadd(b.nutrient, diff), 0, SCALE as int),
        fclamp(fsub(b.nutrient, diff), 0, SCALE as int),
    )
}

/// Derivative of the stereo differential with respect to the heading.
pub open spec fn obs_jacobian_angle_s(m: ModelV, b: BeliefMeanV) -> int {
    fmul(gradient_factor_s(m), cos_s(b.angle))
}

impl GenerativeModel {
    /// A new generative model with the default priors and precisions.
    pub fn new() -> (r: GenerativeModel)
        ensures
            r@ == model_default_s(),
    {
        GenerativeModel {
            prior_mean: PriorMean {
                nutrient: Fix::from_micros(TARGET_CONCENTRATION),
                x: Fix::from_micros(DISH_WIDTH / 2),
                y: Fix::from_micros(DISH_HEIGHT / 2),
                angle: Fix::zero(),
            },
            prior_precision: PriorPrecision {
                nutrient: Fix::from_micros(NUTRIENT_PRIOR_PRECISION),
                x: Fix::from_micros(POSITION_PRIOR_PRECISION),
                y: Fix::from_micros(POSITION_PRIOR_PRECISION),
                angle: Fix::from_micros(POSITION_PRIOR_PRECISION),
            },
            sensory_precision: SensoryPrecision {
                left: Fix::from_micros(INITIAL_SENSORY_PRECISION),
                right: Fix::from_micros(INITIAL_SENSORY_PRECISION),
            },
            sensor_angle: Fix::from_micros(SENSOR_ANGLE),
        }
    }

    /// Predict both sensor readings from the current beliefs.
    pub fn observation_function(&self, beliefs: &BeliefMean) -> (r: (Fix, Fix))
        ensures
            (r.0@, r.1@) == obs_fn_s(self@, beliefs@),
            0 <= r.0@ <= SCALE as int,
            0 <= r.1@ <= SCALE as int,
    {
        let gf = sin_fix(self.sensor_angle).mul(Fix::from_micros(GRADIENT_GAIN));
        let diff = gf.mul(sin_fix(beliefs.angle));
        let lo = Fix::zero();
        let hi = Fix::from_micros(SCALE);
        let left = beliefs.nutrient.add(diff).clamp(lo, hi);
        let right = beliefs.nutrient.sub(diff).clamp(lo, hi);
        (left, right)
    }

    /// The observation-function Jacobian at the current beliefs.
    pub fn observation_jacobian(&self, beliefs: &BeliefMean) -> (r: ObservationJacobian)
        ensures
            r.d_obs_d_nutrient.0@ == SCALE as int,
            r.d_obs_d_nutrient.1@ == SCALE as int,
            r.d_obs_d_angle.0@ == obs_jacobian_angle_s(self@, beliefs@),
            r.d_obs_d_angle.1@ == -obs_jacobian_angle_s(self@, beliefs@),
    {
        let gf = sin_fix(self.sensor_angle).mul(Fix::from_micros(GRADIENT_GAIN));
        let da = gf.mul(cos_fix(beliefs.angle));
        let one = Fix::from_micros(SCALE);
        ObservationJacobian {
            d_obs_d_nutrient: (one, one),
            d_obs_d_angle: (da, da.neg()),
        }
    }

    /// Overwrite the sensory precisions with learned estimates.
    pub fn update_sensory_precision(&mut self, left: Fix, right: Fix)
        ensures
            final(self)@ == (ModelV {
                sensory_precision: SensoryPrecisionV { left: left@, right: right@ },
                ..old(self)@
            }),
    {
        self.sensory_precision.left = left;
        self.sensory_precision.right = right;
    }

    /// Resync the sensor stereo angle after morphological regulation.
    pub fn update_sensor_angle(&mut self, sensor_angle: Fix)
        ensures
            final(self)@ == (ModelV { sensor_angle: sensor_angle@, ..old(self)@ }),
    {
        self.sensor_angle = sensor_angle;
    }
}

} // verus!
