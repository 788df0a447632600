//! Variational inference: free energy, its gradient, prediction errors,
//! expected free energy, and the online precision estimator.
//!
//! Free energy combines an accuracy term (precision-weighted squared
//! prediction error per receptor) and a complexity term (precision-weighted
//! squared deviation of the beliefs from the prior means over the nutrient
//! and position components; the heading prior is reserved and not active).
//! Scores are comparable: lower is always better.

use vstd::prelude::*;
use crate::beliefs::{BeliefGradient, BeliefState, BeliefStateV, BeliefMeanV};
use crate::fixed::{Fix, SCALE, fadd, fsub, fmul, fdiv, fclamp, iabs};
use crate::model::{GenerativeModel, ModelV, obs_fn_s, obs_jacobian_angle_s};
use crate::params::{
    INITIAL_SMOOTHED_ERROR, MAX_SENSORY_PRECISION, MIN_SENSORY_PRECISION, PRECISION_EPSILON,
    PRECISION_SMOOTHING,
};

verus! {

/// One half, in micro-units.
pub const HALF: i64 = 500_000;

/// Epistemic weight inside the expected free energy.
pub const EPISTEMIC_WEIGHT: i64 = 500_000;

/// Precision-weighted squared difference: `p * (a - b)^2`.
pub open spec fn weighted_sq_s(p: int, a: int, b: int) -> int {
    fmul(p, fmul(fsub(a, b), fsub(a, b)))
}

/// The (left, right) prediction errors: observed minus predicted.
pub open spec fn prediction_errors_s(o: (int, int), b: BeliefStateV, m: ModelV) -> (int, int) {
    let g = obs_fn_s(m, b.mean);
    (fsub(o.0, g.0), fsub(o.1, g.1))
}

/// Variational free energy: half the precision-weighted observation misfit
/// plus half the precision-weighted deviation from the priors.
pub open spec fn vfe_s(o: (int, int), b: BeliefStateV, m: ModelV) -> int {
    let g = obs_fn_s(m, b.mean);
    let accuracy = fadd(
        weighted_sq_s(m.sensory_precision.left, o.0, g.0),
        weighted_sq_s(m.sensory_precision.right, o.1, g.1),
    );
    let complexity = fadd(
        fadd(
            weighted_sq_s(m.prior_precision.nutrient, b.mean.nutrient, m.prior_mean.nutrient),
            weighted_sq_s(m.prior_precision.x, b.mean.x, m.prior_mean.x),
        ),
        weighted_sq_s(m.prior_precision.y, b.mean.y, m.prior_mean.y),
    );
    fadd(fmul(HALF as int, accuracy), fmul(HALF as int, complexity))
}

/// Gradient of the free energy with respect to each belief mean: the
/// precision-weighted prediction error pulled through the observation
/// Jacobian, plus the prior pull.
pub open spec fn vfe_gradient_s(o: (int, int), b: BeliefStateV, m: ModelV) -> BeliefMeanV {
    let e = prediction_errors_s(o, b, m);
    let wl = fmul(m.sensory_precision.left, e.0);
    let wr = fmul(m.sensory_precision.right, e.1);
    let ja = obs_jacobian_angle_s(m, b.mean);
    BeliefMeanV {
        x: fmul(m.prior_precision.x, fsub(b.mean.x, m.prior_mean.x)),
        y: fmul(m.prior_precision.y, fsub(b.mean.y, m.prior_mean.y)),
        angle: fsub(0, fsub(fmul(wl, ja), fmul(wr, ja))),
        nutrient: fadd(
            fsub(0, fadd(wl, wr)),
            fmul(m.prior_precision.nutrient, fsub(b.mean.nutrient, m.prior_mean.nutrient)),
        ),
    }
}

/// Expected free energy of a predicted belief state: a pragmatic term
/// (precision-weighted squared distance of the predicted nutrient from the
/// preference) minus an epistemic term (weighted predicted uncertainty).
/// Lower is better.
pub open spec fn efe_s(b: BeliefStateV, m: ModelV) -> int {
    let pragmatic = fmul(
        HALF as int,
        weighted_sq_s(m.prior_precision.nutrient, b.mean.nutrient, m.prior_mean.nutrient),
    );
    let epistemic = fmul(EPISTEMIC_WEIGHT as int, crate::beliefs::total_uncertainty_s(b));
    fsub(pragmatic, epistemic)
}

/// The precision estimate from a smoothed error magnitude: the clamped
/// inverse of the magnitude plus a small floor.
pub open spec fn precision_of_error_s(s: int) -> int {
    fclamp(
        fdiv(SCALE as int, fadd(s, PRECISION_EPSILON as int)),
        MIN_SENSORY_PRECISION as int,
        MAX_SENSORY_PRECISION as int,
    )
}

/// One smoothing step of the running error magnitude.
pub open spec fn smooth_error_s(s: int, e: int) -> int {
    fadd(
        fmul(fsub(SCALE as int, PRECISION_SMOOTHING as int), s),
        fmul(PRECISION_SMOOTHING as int, iabs(e)),
    )
}

/// Ghost model of a [`PrecisionEstimator`].
pub struct PrecisionEstimatorV {
    pub err_left: int,
    pub err_right: int,
}

/// Online estimator of sensory precision from recent prediction errors:
/// a smoothed error magnitude per channel, inverted and clamped.
#[derive(Clone, Copy, PartialEq, Eq, Structural, Debug)]
pub struct PrecisionEstimator {
    /// Smoothed magnitude of the left-channel prediction error.
    pub err_left: Fix,
    /// Smoothed magnitude of the right-channel prediction error.
    pub err_right: Fix,
}

impl View for PrecisionEstimator {
    type V = PrecisionEstimatorV;

    open spec fn view(&self) -> PrecisionEstimatorV {
        PrecisionEstimatorV { err_left: self.err_left@, err_right: self.err_right@ }
    }
}

impl PrecisionEstimator {
    /// A fresh estimator with the initial smoothed error magnitude.
    pub fn new() -> (r: PrecisionEstimator)
        ensures
            r@.err_left == INITIAL_SMOOTHED_ERROR as int,
            r@.err_right == INITIAL_SMOOTHED_ERROR as int,
    {
        PrecisionEstimator {
            err_left: Fix::from_micros(INITIAL_SMOOTHED_ERROR),
            err_right: Fix::from_micros(INITIAL_SMOOTHED_ERROR),
        }
    }

    /// Feed this tick's prediction errors into the running magnitudes.
    pub fn update(&mut self, err_l: Fix, err_r: Fix)
        ensures
            final(self)@.err_left == smooth_error_s(old(self)@.err_left, err_l@),
            final(self)@.err_right == smooth_error_s(old(self)@.err_right, err_r@),
    {
        let keep = Fix::from_micros(SCALE - PRECISION_SMOOTHING);
        let gain = Fix::from_micros(PRECISION_SMOOTHING);
        self.err_left = keep.mul(self.err_left).add(gain.mul(err_l.abs()));
        self.err_right = keep.mul(self.err_right).add(gain.mul(err_r.abs()));
    }

    /// Learned precision of the left receptor.
    pub fn precision_left(&self) -> (r: Fix)
        ensures
            r@ == precision_of_error_s(self@.err_left),
    {
        precision_of_error(self.err_left)
    }

    /// Learned precision of the right receptor.
    pub fn precision_right(&self) -> (r: Fix)
        ensures
            r@ == precision_of_error_s(self@.err_right),
    {
        precision_of_error(self.err_right)
    }
}

/// Invert a smoothed error magnitude into a clamped precision.
fn precision_of_error(s: Fix) -> (r: Fix)
    ensures
        r@ == precision_of_error_s(s@),
{
    Fix::from_micros(SCALE).div(s.add(Fix::from_micros(PRECISION_EPSILON))).clamp(
        Fix::from_micros(MIN_SENSORY_PRECISION),
        Fix::from_micros(MAX_SENSORY_PRECISION),
    )
}

/// The (left, right) prediction errors for the given observations.
pub fn prediction_errors(
    observations: (Fix, Fix),
    beliefs: &BeliefState,
    model: &GenerativeModel,
) -> (r: (Fix, Fix))
    ensures
        (r.0@, r.1@) == prediction_errors_s((observations.0@, observations.1@), beliefs@, model@),
{
    let g = model.observation_function(&beliefs.mean);
    (observations.0.sub(g.0), observations.1.sub(g.1))
}

/// The scalar surprise of this tick's observations under the model.
pub fn variational_free_energy(
    observations: (Fix, Fix),
    beliefs: &BeliefState,
    model: &GenerativeModel,
) -> (r: Fix)
    ensures
        r@ == vfe_s((observations.0@, observations.1@), beliefs@, model@),
{
    let g = model.observation_function(&beliefs.mean);
    let el = observations.0.sub(g.0);
    let er = observations.1.sub(g.1);
    let accuracy = model.sensory_precision.left.mul(el.mul(el)).add(
        model.sensory_precision.right.mul(er.mul(er)),
    );
    let dn = beliefs.mean.nutrient.sub(model.prior_mean.nutrient);
    let dx = beliefs.mean.x.sub(model.prior_mean.x);
    let dy = beliefs.mean.y.sub(model.prior_mean.y);
    let complexity = model.prior_precision.nutrient.mul(dn.mul(dn)).add(
        model.prior_precision.x.mul(dx.mul(dx)),
    ).add(model.prior_precision.y.mul(dy.mul(dy)));
    let half = Fix::from_micros(HALF);
    half.mul(accuracy).add(half.mul(complexity))
}

/// The free-energy gradient with respect to each belief mean.
pub fn vfe_gradient(
    observations: (Fix, Fix),
    beliefs: &BeliefState,
    model: &GenerativeModel,
) -> (r: BeliefGradient)
    ensures
        (BeliefMeanV { x: r.x@, y: r.y@, angle: r.angle@, nutrient: r.nutrient@ })
            == vfe_gradient_s((observations.0@, observations.1@), beliefs@, model@),
{
    let e = prediction_errors(observations, beliefs, model);
    let wl = model.sensory_precision.left.mul(e.0);
    let wr = model.sensory_precision.right.mul(e.1);
    let jac = model.observation_jacobian(&beliefs.mean);
    let ja = jac.d_obs_d_angle.0;
    let zero = Fix::zero();
    BeliefGradient {
        x: model.prior_precision.x.mul(beliefs.mean.x.sub(model.prior_mean.x)),
        y: model.prior_precision.y.mul(beliefs.mean.y.sub(model.prior_mean.y)),
        angle: zero.sub(wl.mul(ja).sub(wr.mul(ja))),
        nutrient: zero.sub(wl.add(wr)).add(
            model.prior_precision.nutrient.mul(
                beliefs.mean.nutrient.sub(model.prior_mean.nutrient),
            ),
        ),
    }
}

/// The expected free energy of a predicted belief state. Lower is better.
pub fn expected_free_energy(predicted: &BeliefState, model: &GenerativeModel) -> (r: Fix)
    ensures
        r@ == efe_s(predicted@, model@),
{
    let dn = predicted.mean.nutrient.sub(model.prior_mean.nutrient);
    let pragmatic = Fix::from_micros(HALF).mul(
        model.prior_precision.nutrient.mul(dn.mul(dn)),
    );
    let epistemic = Fix::from_micros(EPISTEMIC_WEIGHT).mul(predicted.total_uncertainty());
    pragmatic.sub(epistemic)
}

} // verus!
