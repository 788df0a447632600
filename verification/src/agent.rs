//! The organism: a single agent driven by continuous active inference.
//!
//! Each tick the agent senses the field through two offset receptors, then
//! runs one full pass of sense -> infer -> learn precision -> plan -> act
//! -> remember -> metabolize -> regulate. Every transition is a pure
//! function of the previous state and the two sensor readings ([`step_s`]),
//! with randomness drawn from the agent's own seeded generator, so whole
//! runs are reproducible from the seed.

use vstd::prelude::*;
use crate::beliefs::{
    BeliefMeanV, BeliefState, BeliefStateV, beliefs_new_s, beliefs_scale_uncertainty_s,
    beliefs_sync_s, beliefs_update_s, total_uncertainty_s, uncertainty_in_bounds,
};
use crate::episodic::{
    EpisodicMemory, MemV, best_distant_from_s, decay_all_s, land_value_s, maybe_store_s, mem_wf,
    update_visit_s,
};
use crate::environment::Field;
use crate::fixed::{Fix, FIX_BOUND, SCALE, fadd, fsub, fmul, fdiv, fclamp, fmax};
use crate::history::{SensorHistory, SensorSnapshotV, history_push_s, history_wf};
use crate::inference::{
    PrecisionEstimator, PrecisionEstimatorV, efe_s, expected_free_energy, prediction_errors,
    prediction_errors_s, precision_of_error_s, smooth_error_s, variational_free_energy,
    vfe_gradient, vfe_gradient_s, vfe_s, HALF,
};
use crate::model::{GenerativeModel, ModelV, PriorMeanV, SensoryPrecisionV, model_default_s};
use crate::morphology::{
    Morphology, MorphV, adj_learning_rate_s, adj_sensor_angle_s, adj_sensor_dist_s, adj_target_s,
    morph_default_s, morph_in_bounds,
};
use crate::params::{
    BASE_METABOLIC_COST, DISH_HEIGHT, DISH_WIDTH, EXHAUSTION_SPEED_FACTOR, EXHAUSTION_THRESHOLD,
    EXPLORATION_SCALE, INTAKE_RATE, LANDMARK_ATTRACTION_SCALE, LANDMARK_THRESHOLD,
    LANDMARK_VISIT_RADIUS, MAX_PRECISION, MAX_SPEED, MAX_VFE, MCTS_REPLAN_INTERVAL,
    MCTS_URGENT_ENERGY, MIN_PRECISION, MORPH_ACCUMULATOR_DECAY, MORPH_FRUSTRATION_THRESHOLD,
    MORPH_SURPRISE_THRESHOLD, MORPH_WINDOW_SIZE, NOISE_SCALE, PANIC_THRESHOLD, PANIC_TURN_RANGE,
    SPEED_METABOLIC_COST, TARGET_CONCENTRATION, UNCERTAINTY_GROWTH, UNCERTAINTY_REDUCTION,
};
use crate::planning::{
    Action, ActionDetailV, AgentState, AgentStateV, MCTSPlanner, MIN_PLAN_SPEED, action_delta_s,
    plan_action_s, plan_details_s,
};
use crate::rng::{Rng64, rng_next, rng_range};
use crate::spatial::{SpatialGrid, SpatialGridV, grid_cell_s, grid_new_s, grid_update_s, grid_wf};
use crate::trig::{PI_FIX, TWO_PI_FIX, ang_norm, atan2_s, atan2_fix, cos_s, sin_s, cos_fix, sin_fix, normalize_angle};

verus! {

/// Seed the default constructor hands to the agent's generator.
pub const AGENT_SEED: u64 = 0xA9E17_5EED;

/// Weight of the reactive expected-free-energy action in heading blending.
pub const EFE_BLEND_WEIGHT: i64 = 400_000;

/// Weight of the planner's action in heading blending.
pub const PLAN_BLEND_WEIGHT: i64 = 200_000;

/// Weight of the legacy gradient-following term in heading blending.
pub const REACTIVE_BLEND_WEIGHT: i64 = 200_000;

/// Gain of the legacy gradient-following term (-0.1).
pub const REACTIVE_GAIN: i64 = -100_000;

/// Behavioral mode of the agent, derived from internal state.
#[derive(Clone, Copy, PartialEq, Eq, Structural, Debug)]
pub enum AgentMode {
    /// Normal gradient following with exploration bonus.
    Exploring,
    /// In a high-nutrient area with high precision.
    Exploiting,
    /// Temporal gradient below the panic threshold.
    Panicking,
    /// Energy at or below the exhaustion threshold.
    Exhausted,
    /// Actively navigating toward a landmark.
    GoalNav,
}

/// Ghost model of the whole agent.
#[verifier::ext_equal]
pub struct AgentV {
    pub x: int,
    pub y: int,
    pub angle: int,
    pub speed: int,
    pub energy: int,
    pub last_mean_sense: int,
    pub temp_gradient: int,
    pub val_l: int,
    pub val_r: int,
    pub beliefs: BeliefStateV,
    pub model: ModelV,
    pub precision: PrecisionEstimatorV,
    pub vfe: int,
    pub grid: SpatialGridV,
    pub history: Seq<SensorSnapshotV>,
    pub memory: MemV,
    pub tick: u64,
    pub plan: Seq<ActionDetailV>,
    pub last_plan_tick: u64,
    pub planned_action: Action,
    pub morph: MorphV,
    pub cum_surprise: int,
    pub cum_frustration: int,
    pub window_start: u64,
    pub rng: u64,
}

/// The single-cell organism.
#[derive(Clone, Debug)]
pub struct Protozoa {
    /// Position x.
    pub x: Fix,
    /// Position y.
    pub y: Fix,
    /// Heading in micro-radians.
    pub angle: Fix,
    /// Current forward speed.
    pub speed: Fix,
    /// Energy in `[0, 1]`.
    pub energy: Fix,
    /// Mean sensed value of the previous tick.
    pub last_mean_sense: Fix,
    /// Tick-over-tick change of the mean sensed value.
    pub temp_gradient: Fix,
    /// Left receptor reading.
    pub val_l: Fix,
    /// Right receptor reading.
    pub val_r: Fix,
    /// Gaussian-style beliefs over hidden state.
    pub beliefs: BeliefState,
    /// The agent's generative model.
    pub generative_model: GenerativeModel,
    /// Online precision estimator fed by prediction errors.
    pub precision_estimator: PrecisionEstimator,
    /// This tick's variational free energy (the surprise signal).
    pub current_vfe: Fix,
    /// Long-term memory: learned expectations over the world rectangle.
    pub spatial_priors: SpatialGrid,
    /// Short-term memory: recent sensor experiences.
    pub sensor_history: SensorHistory,
    /// Episodic memory: remembered high-nutrient landmarks.
    pub episodic_memory: EpisodicMemory,
    /// Current simulation tick.
    pub tick_count: u64,
    /// Rollout planner for trajectory lookahead.
    pub planner: MCTSPlanner,
    /// Tick when planning last ran.
    pub last_plan_tick: u64,
    /// Best action from the last planning cycle.
    pub planned_action: Action,
    /// Adaptable sensing and learning parameters.
    pub morphology: Morphology,
    /// Accumulated surprise for morphogenesis.
    pub cumulative_surprise: Fix,
    /// Accumulated frustration for allostatic regulation.
    pub cumulative_frustration: Fix,
    /// Tick at which the current regulation window started.
    pub morph_window_start: u64,
    /// The agent's own seeded random generator.
    pub rng: Rng64,
}

impl View for Protozoa {
    type V = AgentV;

    open spec fn view(&self) -> AgentV {
        AgentV {
            x: self.x@,
            y: self.y@,
            angle: self.angle@,
            speed: self.speed@,
            energy: self.energy@,
            last_mean_sense: self.last_mean_sense@,
            temp_gradient: self.temp_gradient@,
            val_l: self.val_l@,
            val_r: self.val_r@,
            beliefs: self.beliefs@,
            model: self.generative_model@,
            precision: self.precision_estimator@,
            vfe: self.current_vfe@,
            grid: self.spatial_priors@,
            history: self.sensor_history@,
            memory: self.episodic_memory@,
            tick: self.tick_count,
            plan: self.planner@,
            last_plan_tick: self.last_plan_tick,
            planned_action: self.planned_action,
            morph: self.morphology@,
            cum_surprise: self.cumulative_surprise@,
            cum_frustration: self.cumulative_frustration@,
            window_start: self.morph_window_start,
            rng: self.rng@,
        }
    }
}

/// Structural well-formedness: the memory structures have their shapes.
pub open spec fn agent_wf(a: AgentV) -> bool {
    &&& grid_wf(a.grid)
    &&& mem_wf(a.memory)
    &&& history_wf(a.history)
}

/// The state invariant of a living agent after any update: energy in
/// `[0, 1]`, heading normalized into `[0, 2 pi)`, morphology within its
/// physiological bounds, position inside the world rectangle, uncertainty
/// between its floor and ceiling.
pub open spec fn agent_regular(a: AgentV, w: int, h: int) -> bool {
    &&& 0 <= a.energy <= SCALE as int
    &&& 0 <= a.angle < TWO_PI_FIX as int
    &&& morph_in_bounds(a.morph)
    &&& 0 <= a.x <= w
    &&& 0 <= a.y <= h
    &&& uncertainty_in_bounds(a.beliefs.uncertainty)
}

/// The freshly-born agent at a position, from a seed.
pub open spec fn agent_new_s(x: int, y: int, seed: u64) -> AgentV {
    let angle = rng_range(seed, 0, TWO_PI_FIX as int);
    AgentV {
        x: x,
        y: y,
        angle: angle,
        speed: 0,
        energy: SCALE as int,
        last_mean_sense: 0,
        temp_gradient: 0,
        val_l: 0,
        val_r: 0,
        beliefs: beliefs_new_s(x, y, angle),
        model: model_default_s(),
        precision: PrecisionEstimatorV {
            err_left: crate::params::INITIAL_SMOOTHED_ERROR as int,
            err_right: crate::params::INITIAL_SMOOTHED_ERROR as int,
        },
        vfe: 0,
        grid: grid_new_s(DISH_WIDTH as int, DISH_HEIGHT as int),
        history: Seq::empty(),
        memory: Seq::new(crate::params::MAX_LANDMARKS as nat, |i: int| None),
        tick: 0,
        plan: Seq::empty(),
        last_plan_tick: 0,
        planned_action: Action::Straight,
        morph: morph_default_s(),
        cum_surprise: 0,
        cum_frustration: 0,
        window_start: 0,
        rng: rng_next(seed),
    }
}

/// The mean of the two current readings.
pub open spec fn mean_sense_s(a: AgentV) -> int {
    fmul(fadd(a.val_l, a.val_r), HALF as int)
}

/// The agent after reading both receptors: positions offset from the body
/// by the sensor distance at the stereo angles, values taken from the
/// field.
pub open spec fn sense_s<F: Field>(a: AgentV, field: &F) -> AgentV {
    let theta_l = fadd(a.angle, a.morph.sensor_angle);
    let theta_r = fsub(a.angle, a.morph.sensor_angle);
    let xl = fadd(a.x, fmul(a.morph.sensor_dist, cos_s(theta_l)));
    let yl = fadd(a.y, fmul(a.morph.sensor_dist, sin_s(theta_l)));
    let xr = fadd(a.x, fmul(a.morph.sensor_dist, cos_s(theta_r)));
    let yr = fadd(a.y, fmul(a.morph.sensor_dist, sin_s(theta_r)));
    AgentV {
        val_l: field.spec_concentration(xl, yl),
        val_r: field.spec_concentration(xr, yr),
        ..a
    }
}

/// The behavioral mode read off the agent's state.
pub open spec fn mode_s(a: AgentV) -> AgentMode {
    if a.energy <= EXHAUSTION_THRESHOLD as int {
        AgentMode::Exhausted
    } else if a.temp_gradient < PANIC_THRESHOLD as int {
        AgentMode::Panicking
    } else if a.energy < MCTS_URGENT_ENERGY as int && best_distant_from_s(
        a.memory,
        a.x,
        a.y,
        LANDMARK_VISIT_RADIUS as int,
        0,
        None,
    ) is Some {
        AgentMode::GoalNav
    } else if grid_cell_s(a.grid, a.x, a.y).precision > 5 * SCALE as int && mean_sense_s(a)
        > 600_000 && a.vfe < SCALE as int {
        AgentMode::Exploiting
    } else {
        AgentMode::Exploring
    }
}

impl Protozoa {
    /// A new agent at the given position, from the default seed.
    pub fn new(x: Fix, y: Fix) -> (r: Protozoa)
        ensures
            r@ == agent_new_s(x@, y@, AGENT_SEED),
            agent_wf(r@),
    {
        Protozoa::with_seed(x, y, AGENT_SEED)
    }

    /// A new agent at the given position, drawing its initial heading and
    /// all later noise from the given seed.
    pub fn with_seed(x: Fix, y: Fix, seed: u64) -> (r: Protozoa)
        ensures
            r@ == agent_new_s(x@, y@, seed),
            agent_wf(r@),
    {
        let mut rng = Rng64::seeded(seed);
        let initial_angle = rng.next_fix(Fix::zero(), Fix::from_micros(TWO_PI_FIX));
        let r = Protozoa {
            x,
            y,
            angle: initial_angle,
            speed: Fix::zero(),
            energy: Fix::from_micros(SCALE),
            last_mean_sense: Fix::zero(),
            temp_gradient: Fix::zero(),
            val_l: Fix::zero(),
            val_r: Fix::zero(),
            beliefs: BeliefState::new(x, y, initial_angle),
            generative_model: GenerativeModel::new(),
            precision_estimator: PrecisionEstimator::new(),
            current_vfe: Fix::zero(),
            spatial_priors: SpatialGrid::new(
                Fix::from_micros(DISH_WIDTH),
                Fix::from_micros(DISH_HEIGHT),
            ),
            sensor_history: SensorHistory::new(),
            episodic_memory: EpisodicMemory::new(),
            tick_count: 0,
            planner: MCTSPlanner::new(),
            last_plan_tick: 0,
            planned_action: Action::Straight,
            morphology: Morphology::new(),
            cumulative_surprise: Fix::zero(),
            cumulative_frustration: Fix::zero(),
            morph_window_start: 0,
            rng,
        };
        proof {
            assert(r@ =~= agent_new_s(x@, y@, seed));
        }
        r
    }

    /// Read both receptors from the field at the sensor positions given by
    /// the current pose and morphology.
    pub fn sense<F: Field>(&mut self, field: &F)
        requires
            field.inv(),
        ensures
            final(self)@ == sense_s(old(self)@, field),
            -(SCALE as int) <= final(self)@.val_l <= SCALE as int,
            -(SCALE as int) <= final(self)@.val_r <= SCALE as int,
    {
        let sensor_dist = self.morphology.sensor_dist;
        let sensor_angle = self.morphology.sensor_angle;

        let theta_l = self.angle.add(sensor_angle);
        let x_l = self.x.add(sensor_dist.mul(cos_fix(theta_l)));
        let y_l = self.y.add(sensor_dist.mul(sin_fix(theta_l)));
        self.val_l = field.concentration_at(x_l, y_l);

        let theta_r = self.angle.sub(sensor_angle);
        let x_r = self.x.add(sensor_dist.mul(cos_fix(theta_r)));
        let y_r = self.y.add(sensor_dist.mul(sin_fix(theta_r)));
        self.val_r = field.concentration_at(x_r, y_r);
        proof {
            assert(self@ =~= sense_s(old(self)@, field));
        }
    }

    /// The current behavioral mode, derived from internal state.
    pub fn current_mode<F: Field>(&self, _field: &F) -> (r: AgentMode)
        requires
            agent_wf(self@),
        ensures
            r == mode_s(self@),
    {
        if self.energy.le(Fix::from_micros(EXHAUSTION_THRESHOLD)) {
            return AgentMode::Exhausted;
        }
        if self.temp_gradient.lt(Fix::from_micros(PANIC_THRESHOLD)) {
            return AgentMode::Panicking;
        }
        if self.energy.lt(Fix::from_micros(MCTS_URGENT_ENERGY)) {
            let target = self.episodic_memory.best_distant_landmark(
                self.x,
                self.y,
                Fix::from_micros(LANDMARK_VISIT_RADIUS),
            );
            if target.is_some() {
                return AgentMode::GoalNav;
            }
        }
        let mean_sense = self.val_l.add(self.val_r).mul(Fix::from_micros(HALF));
        let precision = self.spatial_priors.get_cell(self.x, self.y).precision;
        if precision.gt(Fix::from_int(5)) && mean_sense.gt(Fix::from_micros(600_000))
            && self.current_vfe.lt(Fix::from_micros(SCALE)) {
            return AgentMode::Exploiting;
        }
        AgentMode::Exploring
    }

    /// Ticks until the next scheduled replan.
    pub fn ticks_until_replan(&self) -> (r: u64)
        ensures
            ({
                let elapsed: int = if self@.tick >= self@.last_plan_tick {
                    self@.tick - self@.last_plan_tick
                } else {
                    0
                };
                r as int == if MCTS_REPLAN_INTERVAL as int >= elapsed {
                    MCTS_REPLAN_INTERVAL as int - elapsed
                } else {
                    0
                }
            }),
    {
        let elapsed: u64 = if self.tick_count >= self.last_plan_tick {
            self.tick_count - self.last_plan_tick
        } else {
            0
        };
        if elapsed >= MCTS_REPLAN_INTERVAL {
            0
        } else {
            MCTS_REPLAN_INTERVAL - elapsed
        }
    }

    /// The current variational free energy (the surprise signal).
    pub fn free_energy(&self) -> (r: Fix)
        ensures
            r@ == self@.vfe,
    {
        self.current_vfe
    }

    /// The agent's current belief about the nutrient concentration.
    pub fn believed_nutrient(&self) -> (r: Fix)
        ensures
            r@ == self@.beliefs.mean.nutrient,
    {
        self.beliefs.mean.nutrient
    }

    /// The agent's total belief uncertainty.
    pub fn belief_uncertainty(&self) -> (r: Fix)
        ensures
            r@ == total_uncertainty_s(self@.beliefs),
    {
        self.beliefs.total_uncertainty()
    }
}


/// Beliefs predicted after taking an action: the heading advances by the
/// action's delta, the position by at least the minimum planning speed,
/// the nutrient belief blends with the spatial prior at the predicted
/// cell, and uncertainty grows.
pub open spec fn predict_beliefs_s(a: AgentV, act: Action) -> BeliefStateV {
    let b = a.beliefs;
    let angle2 = ang_norm(fadd(b.mean.angle, action_delta_s(act)));
    let speed_est = fmax(a.speed, MIN_PLAN_SPEED as int);
    let px = fclamp(fadd(b.mean.x, fmul(speed_est, cos_s(angle2))), 0, DISH_WIDTH as int);
    let py = fclamp(fadd(b.mean.y, fmul(speed_est, sin_s(angle2))), 0, DISH_HEIGHT as int);
    let cell = grid_cell_s(a.grid, px, py);
    let nutrient2 = fadd(
        fmul(HALF as int, b.mean.nutrient),
        fmul(HALF as int, fclamp(cell.mean, 0, SCALE as int)),
    );
    beliefs_scale_uncertainty_s(
        BeliefStateV {
            mean: BeliefMeanV { x: px, y: py, angle: angle2, nutrient: nutrient2 },
            uncertainty: b.uncertainty,
        },
        UNCERTAINTY_GROWTH as int,
    )
}

/// The reactive action: the first of turn-left, straight, turn-right with
/// the strictly smallest expected free energy.
pub open spec fn select_efe_s(a: AgentV) -> Action {
    let etl = efe_s(predict_beliefs_s(a, Action::TurnLeft), a.model);
    let es = efe_s(predict_beliefs_s(a, Action::Straight), a.model);
    let etr = efe_s(predict_beliefs_s(a, Action::TurnRight), a.model);
    if es < etl {
        if etr < es {
            Action::TurnRight
        } else {
            Action::Straight
        }
    } else {
        if etr < etl {
            Action::TurnRight
        } else {
            Action::TurnLeft
        }
    }
}

/// Inference: position beliefs sync to the true pose, the means descend
/// the free-energy gradient, uncertainty shrinks, and the remaining free
/// energy is recorded as this tick's surprise.
pub open spec fn infer_s(a: AgentV) -> AgentV {
    let obs = (a.val_l, a.val_r);
    let b1 = beliefs_sync_s(a.beliefs, a.x, a.y, a.angle);
    let g = vfe_gradient_s(obs, b1, a.model);
    let b2 = beliefs_update_s(b1, g, a.morph.belief_learning_rate);
    let b3 = beliefs_scale_uncertainty_s(b2, UNCERTAINTY_REDUCTION as int);
    AgentV { beliefs: b3, vfe: vfe_s(obs, b3, a.model), ..a }
}

/// Precision learning: the prediction errors feed the smoothed error
/// magnitudes, whose clamped inverses overwrite the model's sensory
/// precisions.
pub open spec fn learn_precision_s(a: AgentV) -> AgentV {
    let e = prediction_errors_s((a.val_l, a.val_r), a.beliefs, a.model);
    let el = smooth_error_s(a.precision.err_left, e.0);
    let er = smooth_error_s(a.precision.err_right, e.1);
    AgentV {
        precision: PrecisionEstimatorV { err_left: el, err_right: er },
        model: ModelV {
            sensory_precision: SensoryPrecisionV {
                left: precision_of_error_s(el),
                right: precision_of_error_s(er),
            },
            ..a.model
        },
        ..a
    }
}

/// Temporal gradient: the change of the mean sensed value this tick.
pub open spec fn temporal_s(a: AgentV) -> AgentV {
    let mean = mean_sense_s(a);
    AgentV { temp_gradient: fsub(mean, a.last_mean_sense), last_mean_sense: mean, ..a }
}

/// The planner runs on the first tick, every replan interval, and
/// whenever energy is urgently low.
pub open spec fn should_replan_s(a: AgentV) -> bool {
    ||| a.tick == 0
    ||| (if a.tick >= a.last_plan_tick { a.tick - a.last_plan_tick } else { 0 })
        >= MCTS_REPLAN_INTERVAL as int
    ||| a.energy < MCTS_URGENT_ENERGY as int
}

/// Periodic deeper planning: the rollout planner picks the next planned
/// action and its score breakdown is retained.
pub open spec fn replan_s(a: AgentV) -> AgentV {
    if should_replan_s(a) {
        let st = AgentStateV { x: a.x, y: a.y, angle: a.angle, speed: a.speed, energy: a.energy };
        AgentV {
            planned_action: plan_action_s(st, a.grid),
            plan: plan_details_s(st, a.grid),
            last_plan_tick: a.tick,
            ..a
        }
    } else {
        a
    }
}

/// Attraction toward the most reliable distant landmark, active only when
/// energy is low: the shortest signed angular difference to the landmark,
/// scaled by its reliability.
pub open spec fn goal_attraction_s(a: AgentV) -> int {
    if a.energy < MCTS_URGENT_ENERGY as int {
        match best_distant_from_s(a.memory, a.x, a.y, LANDMARK_VISIT_RADIUS as int, 0, None) {
            Some(l) => {
                let dx = fsub(l.x, a.x);
                let dy = fsub(l.y, a.y);
                let ta = atan2_s(dy, dx);
                let diff = ang_norm(fsub(ta, a.angle));
                let nd = if diff > PI_FIX as int {
                    fsub(diff, TWO_PI_FIX as int)
                } else {
                    diff
                };
                fmul(fmul(LANDMARK_ATTRACTION_SCALE as int, nd), l.reliability)
            },
            None => 0,
        }
    } else {
        0
    }
}

/// Action execution: all heading contributions blend into one delta, the
/// heading normalizes into `[0, 2 pi)`, and speed follows the surprise.
pub open spec fn act_s(a: AgentV, efe_action: Action) -> AgentV {
    let sp = fclamp(
        grid_cell_s(a.grid, a.x, a.y).precision,
        MIN_PRECISION as int,
        MAX_PRECISION as int,
    );
    let homeo_err = fsub(a.last_mean_sense, TARGET_CONCENTRATION as int);
    let gradient = fsub(a.val_l, a.val_r);
    let reactive = fmul(fmul(fmul(REACTIVE_GAIN as int, homeo_err), sp), gradient);
    let explore_bonus = fdiv(EXPLORATION_SCALE as int, sp);
    let r0 = a.rng;
    let explore_dir = fmul(rng_range(r0, -(SCALE as int), SCALE as int), explore_bonus);
    let r1 = rng_next(r0);
    let noise = fmul(
        rng_range(r1, -(NOISE_SCALE as int), NOISE_SCALE as int),
        fclamp(fdiv(a.vfe, MAX_VFE as int), 0, SCALE as int),
    );
    let r2 = rng_next(r1);
    let panic = if a.temp_gradient < PANIC_THRESHOLD as int {
        rng_range(r2, -(PANIC_TURN_RANGE as int), PANIC_TURN_RANGE as int)
    } else {
        0
    };
    let r3 = if a.temp_gradient < PANIC_THRESHOLD as int {
        rng_next(r2)
    } else {
        r2
    };
    let goal = goal_attraction_s(a);
    let d_theta = fadd(
        fadd(
            fadd(
                fadd(
                    fadd(
                        fadd(
                            fmul(EFE_BLEND_WEIGHT as int, action_delta_s(efe_action)),
                            fmul(PLAN_BLEND_WEIGHT as int, action_delta_s(a.planned_action)),
                        ),
                        fmul(REACTIVE_BLEND_WEIGHT as int, reactive),
                    ),
                    explore_dir,
                ),
                noise,
            ),
            panic,
        ),
        goal,
    );
    AgentV {
        angle: ang_norm(fadd(a.angle, d_theta)),
        speed: fmul(
            MAX_SPEED as int,
            fclamp(fdiv(a.vfe, MAX_VFE as int), 100_000, SCALE as int),
        ),
        rng: r3,
        ..a
    }
}

/// Memory writes: the visited grid cell learns, the snapshot enters the
/// ring, the tick advances, landmarks decay, a strong reading stores or
/// refreshes a landmark, and any landmark under the agent refreshes.
pub open spec fn memory_s(a: AgentV) -> AgentV {
    let mean = a.last_mean_sense;
    let g2 = grid_update_s(a.grid, a.x, a.y, mean);
    let h2 = history_push_s(
        a.history,
        SensorSnapshotV {
            val_l: a.val_l,
            val_r: a.val_r,
            x: a.x,
            y: a.y,
            energy: a.energy,
            tick: a.tick,
        },
    );
    let t2: u64 = if a.tick == u64::MAX {
        u64::MAX
    } else {
        (a.tick + 1) as u64
    };
    let m1 = decay_all_s(a.memory);
    let m2 = if mean > LANDMARK_THRESHOLD as int {
        maybe_store_s(m1, a.x, a.y, mean, t2)
    } else {
        m1
    };
    let m3 = update_visit_s(m2, a.x, a.y, mean, t2);
    AgentV { grid: g2, history: h2, tick: t2, memory: m3, ..a }
}

/// Metabolism: energy pays a base cost plus a speed cost, gains intake
/// proportional to the mean sensed value, clamps to `[0, 1]`, and
/// crossing the exhaustion threshold halves the speed.
pub open spec fn metabolism_s(a: AgentV) -> AgentV {
    let cost = fadd(
        BASE_METABOLIC_COST as int,
        fmul(SPEED_METABOLIC_COST as int, fdiv(a.speed, MAX_SPEED as int)),
    );
    let intake = fmul(INTAKE_RATE as int, a.last_mean_sense);
    let e2 = fclamp(fadd(fsub(a.energy, cost), intake), 0, SCALE as int);
    let sp2 = if e2 <= EXHAUSTION_THRESHOLD as int {
        fmul(a.speed, EXHAUSTION_SPEED_FACTOR as int)
    } else {
        a.speed
    };
    AgentV { energy: e2, speed: sp2, ..a }
}

/// Position integration: advance along the heading, then clamp to the
/// world rectangle (the boundary absorbs).
pub open spec fn position_s(a: AgentV, w: int, h: int) -> AgentV {
    AgentV {
        x: fclamp(fadd(a.x, fmul(a.speed, cos_s(a.angle))), 0, w),
        y: fclamp(fadd(a.y, fmul(a.speed, sin_s(a.angle))), 0, h),
        ..a
    }
}

/// Accumulation for the slow regulator: surprise takes this tick's free
/// energy; frustration takes the expected free energy of the planned
/// action, but only when positive.
pub open spec fn accumulate_s(a: AgentV) -> AgentV {
    let cs = fadd(a.cum_surprise, a.vfe);
    let efe = efe_s(predict_beliefs_s(a, a.planned_action), a.model);
    let cf = if efe > 0 {
        fadd(a.cum_frustration, efe)
    } else {
        a.cum_frustration
    };
    AgentV { cum_surprise: cs, cum_frustration: cf, ..a }
}

/// Average accumulator value per tick of the regulation window.
pub open spec fn window_avg_s(total: int, ticks: u64) -> int {
    let t: int = if ticks > 1_000_000 {
        1_000_000
    } else {
        ticks as int
    };
    fdiv(total, t * SCALE as int)
}

/// Morphological regulation: once a window has elapsed, high average
/// surprise widens the sensing geometry and speeds learning (resetting
/// the accumulator), high average frustration lowers the homeostatic
/// target; accumulators below threshold decay instead, and the window
/// restarts whenever either regulation fires.
pub open spec fn regulate_s(a: AgentV) -> AgentV {
    let elapsed: u64 = if a.tick >= a.window_start {
        (a.tick - a.window_start) as u64
    } else {
        0
    };
    if elapsed < MORPH_WINDOW_SIZE {
        a
    } else {
        let avg_s = window_avg_s(a.cum_surprise, elapsed);
        let avg_f = window_avg_s(a.cum_frustration, elapsed);
        let a1 = if avg_s > MORPH_SURPRISE_THRESHOLD as int {
            let delta = fdiv(
                fsub(avg_s, MORPH_SURPRISE_THRESHOLD as int),
                MORPH_SURPRISE_THRESHOLD as int,
            );
            let m3 = adj_learning_rate_s(
                adj_sensor_angle_s(adj_sensor_dist_s(a.morph, delta), delta),
                delta,
            );
            AgentV {
                morph: m3,
                model: ModelV { sensor_angle: m3.sensor_angle, ..a.model },
                cum_surprise: 0,
                window_start: a.tick,
                ..a
            }
        } else {
            AgentV { cum_surprise: fmul(a.cum_surprise, MORPH_ACCUMULATOR_DECAY as int), ..a }
        };
        if avg_f > MORPH_FRUSTRATION_THRESHOLD as int {
            let delta = fdiv(
                fsub(avg_f, MORPH_FRUSTRATION_THRESHOLD as int),
                MORPH_FRUSTRATION_THRESHOLD as int,
            );
            let m = adj_target_s(a1.morph, delta);
            AgentV {
                morph: m,
                model: ModelV {
                    prior_mean: PriorMeanV {
                        nutrient: m.target_concentration,
                        ..a1.model.prior_mean
                    },
                    ..a1.model
                },
                cum_frustration: 0,
                window_start: a.tick,
                ..a1
            }
        } else {
            AgentV {
                cum_frustration: fmul(a1.cum_frustration, MORPH_ACCUMULATOR_DECAY as int),
                ..a1
            }
        }
    }
}

/// One full tick of the agent, as a pure function of the previous state
/// (including the stored sensor readings) and the world extent.
pub open spec fn step_s(a: AgentV, w: int, h: int) -> AgentV {
    let a1 = infer_s(a);
    let a2 = learn_precision_s(a1);
    let a3 = temporal_s(a2);
    let efe_action = select_efe_s(a3);
    let a4 = replan_s(a3);
    let a5 = act_s(a4, efe_action);
    let a6 = memory_s(a5);
    let a7 = metabolism_s(a6);
    let a8 = position_s(a7, w, h);
    regulate_s(accumulate_s(a8))
}

impl Protozoa {
    /// Inference (spec: [`infer_s`]).
    fn phase_infer(&mut self)
        ensures
            final(self)@ == infer_s(old(self)@),
            uncertainty_in_bounds(final(self)@.beliefs.uncertainty),
    {
        let observations = (self.val_l, self.val_r);
        self.beliefs.sync_position(self.x, self.y, self.angle);
        let gradient = vfe_gradient(observations, &self.beliefs, &self.generative_model);
        let learning_rate = self.morphology.belief_learning_rate;
        self.beliefs.update(&gradient, learning_rate);
        self.beliefs.decrease_uncertainty(Fix::from_micros(UNCERTAINTY_REDUCTION));
        self.current_vfe = variational_free_energy(
            observations,
            &self.beliefs,
            &self.generative_model,
        );
        proof {
            assert(self@ =~= infer_s(old(self)@));
        }
    }

    /// Precision learning (spec: [`learn_precision_s`]).
    fn phase_learn_precision(&mut self)
        ensures
            final(self)@ == learn_precision_s(old(self)@),
    {
        let observations = (self.val_l, self.val_r);
        let e = prediction_errors(observations, &self.beliefs, &self.generative_model);
        self.precision_estimator.update(e.0, e.1);
        let pl = self.precision_estimator.precision_left();
        let pr = self.precision_estimator.precision_right();
        self.generative_model.update_sensory_precision(pl, pr);
        proof {
            assert(self@ =~= learn_precision_s(old(self)@));
        }
    }

    /// Temporal gradient tracking (spec: [`temporal_s`]).
    fn phase_temporal(&mut self)
        ensures
            final(self)@ == temporal_s(old(self)@),
    {
        let mean_sense = self.val_l.add(self.val_r).mul(Fix::from_micros(HALF));
        self.temp_gradient = mean_sense.sub(self.last_mean_sense);
        self.last_mean_sense = mean_sense;
        proof {
            assert(self@ =~= temporal_s(old(self)@));
        }
    }

    /// Predict beliefs after taking an action (spec: [`predict_beliefs_s`]).
    fn predict_beliefs_after_action(&self, action: Action) -> (r: BeliefState)
        requires
            grid_wf(self@.grid),
        ensures
            r@ == predict_beliefs_s(self@, action),
    {
        let mut predicted = self.beliefs;
        predicted.mean.angle = normalize_angle(predicted.mean.angle.add(action.angle_delta()));
        let speed_est = self.speed.max(Fix::from_micros(MIN_PLAN_SPEED));
        predicted.mean.x = predicted.mean.x.add(speed_est.mul(cos_fix(predicted.mean.angle)))
            .clamp(Fix::zero(), Fix::from_micros(DISH_WIDTH));
        predicted.mean.y = predicted.mean.y.add(speed_est.mul(sin_fix(predicted.mean.angle)))
            .clamp(Fix::zero(), Fix::from_micros(DISH_HEIGHT));
        let expected = self.spatial_priors.get_cell(predicted.mean.x, predicted.mean.y);
        let half = Fix::from_micros(HALF);
        predicted.mean.nutrient = half.mul(predicted.mean.nutrient).add(
            half.mul(expected.mean.clamp(Fix::zero(), Fix::from_micros(SCALE))),
        );
        predicted.increase_uncertainty(Fix::from_micros(UNCERTAINTY_GROWTH));
        predicted
    }

    /// Reactive action selection by minimal expected free energy (spec:
    /// [`select_efe_s`]).
    fn select_action_efe(&self) -> (r: Action)
        requires
            grid_wf(self@.grid),
        ensures
            r == select_efe_s(self@),
    {
        let ptl = self.predict_beliefs_after_action(Action::TurnLeft);
        let ps = self.predict_beliefs_after_action(Action::Straight);
        let ptr_ = self.predict_beliefs_after_action(Action::TurnRight);
        let etl = expected_free_energy(&ptl, &self.generative_model);
        let es = expected_free_energy(&ps, &self.generative_model);
        let etr = expected_free_energy(&ptr_, &self.generative_model);
        let mut best = Action::TurnLeft;
        let mut best_efe = etl;
        if es.lt(best_efe) {
            best = Action::Straight;
            best_efe = es;
        }
        if etr.lt(best_efe) {
            best = Action::TurnRight;
        }
        best
    }

    /// Periodic replanning (spec: [`replan_s`]).
    fn phase_replan(&mut self)
        requires
            grid_wf(old(self)@.grid),
        ensures
            final(self)@ == replan_s(old(self)@),
    {
        let elapsed: u64 = if self.tick_count >= self.last_plan_tick {
            self.tick_count - self.last_plan_tick
        } else {
            0
        };
        let should_replan = self.tick_count == 0 || elapsed >= MCTS_REPLAN_INTERVAL
            || self.energy.lt(Fix::from_micros(MCTS_URGENT_ENERGY));
        if should_replan {
            let state = AgentState::new(self.x, self.y, self.angle, self.speed, self.energy);
            self.planned_action = self.planner.plan(&state, &self.spatial_priors);
            self.last_plan_tick = self.tick_count;
        }
        proof {
            assert(self@ =~= replan_s(old(self)@));
        }
    }

    /// Action execution (spec: [`act_s`]).
    fn phase_act(&mut self, efe_action: Action)
        requires
            grid_wf(old(self)@.grid),
        ensures
            final(self)@ == act_s(old(self)@, efe_action),
            0 <= final(self)@.angle < TWO_PI_FIX as int,
            150_000 <= final(self)@.speed <= MAX_SPEED as int,
    {
        let efe_delta = efe_action.angle_delta();
        let mcts_delta = self.planned_action.angle_delta();

        let prior = self.spatial_priors.get_cell(self.x, self.y);
        let spatial_precision = prior.precision.clamp(
            Fix::from_micros(MIN_PRECISION),
            Fix::from_micros(MAX_PRECISION),
        );
        let homeostatic_error = self.last_mean_sense.sub(
            Fix::from_micros(TARGET_CONCENTRATION),
        );
        let gradient = self.val_l.sub(self.val_r);
        let reactive_d_theta = Fix::from_micros(REACTIVE_GAIN).mul(homeostatic_error).mul(
            spatial_precision,
        ).mul(gradient);

        let exploration_bonus = Fix::from_micros(EXPLORATION_SCALE).div(spatial_precision);
        let explore_direction = self.rng.next_fix(
            Fix::from_micros(-SCALE),
            Fix::from_micros(SCALE),
        ).mul(exploration_bonus);

        let vfe_fraction = self.current_vfe.div(Fix::from_micros(MAX_VFE)).clamp(
            Fix::zero(),
            Fix::from_micros(SCALE),
        );
        let noise = self.rng.next_fix(
            Fix::from_micros(-NOISE_SCALE),
            Fix::from_micros(NOISE_SCALE),
        ).mul(vfe_fraction);

        let panic_turn = if self.temp_gradient.lt(Fix::from_micros(PANIC_THRESHOLD)) {
            self.rng.next_fix(
                Fix::from_micros(-PANIC_TURN_RANGE),
                Fix::from_micros(PANIC_TURN_RANGE),
            )
        } else {
            Fix::zero()
        };

        let goal_attraction = if self.energy.lt(Fix::from_micros(MCTS_URGENT_ENERGY)) {
            let target = self.episodic_memory.best_distant_landmark(
                self.x,
                self.y,
                Fix::from_micros(LANDMARK_VISIT_RADIUS),
            );
            match target {
                Some(landmark) => {
                    let dx = landmark.x.sub(self.x);
                    let dy = landmark.y.sub(self.y);
                    let target_angle = atan2_fix(dy, dx);
                    let diff = normalize_angle(target_angle.sub(self.angle));
                    let normalized_diff = if diff.gt(Fix::from_micros(PI_FIX)) {
                        diff.sub(Fix::from_micros(TWO_PI_FIX))
                    } else {
                        diff
                    };
                    Fix::from_micros(LANDMARK_ATTRACTION_SCALE).mul(normalized_diff).mul(
                        landmark.reliability,
                    )
                },
                None => Fix::zero(),
            }
        } else {
            Fix::zero()
        };

        let d_theta = Fix::from_micros(EFE_BLEND_WEIGHT).mul(efe_delta).add(
            Fix::from_micros(PLAN_BLEND_WEIGHT).mul(mcts_delta),
        ).add(Fix::from_micros(REACTIVE_BLEND_WEIGHT).mul(reactive_d_theta)).add(
            explore_direction,
        ).add(noise).add(panic_turn).add(goal_attraction);

        self.angle = normalize_angle(self.angle.add(d_theta));
        self.speed = Fix::from_micros(MAX_SPEED).mul(
            self.current_vfe.div(Fix::from_micros(MAX_VFE)).clamp(
                Fix::from_micros(100_000),
                Fix::from_micros(SCALE),
            ),
        );
        proof {
            assert(self@ =~= act_s(old(self)@, efe_action));
        }
    }

    /// Memory writes (spec: [`memory_s`]).
    fn phase_memory(&mut self)
        requires
            grid_wf(old(self)@.grid),
            mem_wf(old(self)@.memory),
            history_wf(old(self)@.history),
        ensures
            final(self)@ == memory_s(old(self)@),
            grid_wf(final(self)@.grid),
            mem_wf(final(self)@.memory),
            history_wf(final(self)@.history),
    {
        let mean_sense = self.last_mean_sense;
        self.spatial_priors.update(self.x, self.y, mean_sense);
        self.sensor_history.push(
            crate::history::SensorSnapshot {
                val_l: self.val_l,
                val_r: self.val_r,
                x: self.x,
                y: self.y,
                energy: self.energy,
                tick: self.tick_count,
            },
        );
        if self.tick_count < u64::MAX {
            self.tick_count = self.tick_count + 1;
        }
        self.episodic_memory.decay_all();
        if mean_sense.gt(Fix::from_micros(LANDMARK_THRESHOLD)) {
            self.episodic_memory.maybe_store(self.x, self.y, mean_sense, self.tick_count);
        }
        self.episodic_memory.update_on_visit(self.x, self.y, mean_sense, self.tick_count);
        proof {
            assert(self@ =~= memory_s(old(self)@));
        }
    }

    /// Metabolism (spec: [`metabolism_s`]).
    fn phase_metabolism(&mut self)
        ensures
            final(self)@ == metabolism_s(old(self)@),
            0 <= final(self)@.energy <= SCALE as int,
            150_000 <= old(self)@.speed <= MAX_SPEED as int ==> 75_000 <= final(self)@.speed
                <= MAX_SPEED as int,
    {
        let metabolic_cost = Fix::from_micros(BASE_METABOLIC_COST).add(
            Fix::from_micros(SPEED_METABOLIC_COST).mul(
                self.speed.div(Fix::from_micros(MAX_SPEED)),
            ),
        );
        let intake = Fix::from_micros(INTAKE_RATE).mul(self.last_mean_sense);
        self.energy = self.energy.sub(metabolic_cost).add(intake).clamp(
            Fix::zero(),
            Fix::from_micros(SCALE),
        );
        if self.energy.le(Fix::from_micros(EXHAUSTION_THRESHOLD)) {
            proof {
                let sp = self@.speed;
                assert(150_000 <= sp <= MAX_SPEED as int ==> 75_000 <= fmul(
                    sp,
                    EXHAUSTION_SPEED_FACTOR as int,
                ) <= MAX_SPEED as int) by (nonlinear_arith)
                    requires
                        EXHAUSTION_SPEED_FACTOR as int == 500_000,
                        SCALE as int == 1_000_000,
                        MAX_SPEED as int == 1_500_000,
                        FIX_BOUND as int == 1_000_000_000_000,
                ;
            }
            self.speed = self.speed.mul(Fix::from_micros(EXHAUSTION_SPEED_FACTOR));
        }
        proof {
            assert(self@ =~= metabolism_s(old(self)@));
        }
    }

    /// Position integration (spec: [`position_s`]).
    fn phase_position(&mut self, w: Fix, h: Fix)
        requires
            w@ > 0,
            h@ > 0,
        ensures
            final(self)@ == position_s(old(self)@, w@, h@),
            0 <= final(self)@.x <= w@,
            0 <= final(self)@.y <= h@,
    {
        self.x = self.x.add(self.speed.mul(cos_fix(self.angle))).clamp(Fix::zero(), w);
        self.y = self.y.add(self.speed.mul(sin_fix(self.angle))).clamp(Fix::zero(), h);
        proof {
            assert(self@ =~= position_s(old(self)@, w@, h@));
        }
    }

    /// Accumulation for the regulator (spec: [`accumulate_s`]).
    fn phase_accumulate(&mut self)
        requires
            grid_wf(old(self)@.grid),
        ensures
            final(self)@ == accumulate_s(old(self)@),
    {
        self.cumulative_surprise = self.cumulative_surprise.add(self.current_vfe);
        let predicted = self.predict_beliefs_after_action(self.planned_action);
        let current_efe = expected_free_energy(&predicted, &self.generative_model);
        if current_efe.gt(Fix::zero()) {
            self.cumulative_frustration = self.cumulative_frustration.add(current_efe);
        }
        proof {
            assert(self@ =~= accumulate_s(old(self)@));
        }
    }

    /// Morphological regulation (spec: [`regulate_s`]).
    fn regulate_morphology(&mut self)
        ensures
            final(self)@ == regulate_s(old(self)@),
    {
        let elapsed: u64 = if self.tick_count >= self.morph_window_start {
            self.tick_count - self.morph_window_start
        } else {
            0
        };
        if elapsed < MORPH_WINDOW_SIZE {
            proof {
                assert(self@ =~= regulate_s(old(self)@));
            }
            return ;
        }
        let avg_surprise = window_avg(self.cumulative_surprise, elapsed);
        let avg_frustration = window_avg(self.cumulative_frustration, elapsed);

        let surprise_threshold = Fix::from_micros(MORPH_SURPRISE_THRESHOLD);
        if avg_surprise.gt(surprise_threshold) {
            let surprise_delta = avg_surprise.sub(surprise_threshold).div(surprise_threshold);
            self.morphology.adjust_sensor_dist(surprise_delta);
            self.morphology.adjust_sensor_angle(surprise_delta);
            self.morphology.adjust_belief_learning_rate(surprise_delta);
            self.generative_model.update_sensor_angle(self.morphology.sensor_angle);
            self.cumulative_surprise = Fix::zero();
            self.morph_window_start = self.tick_count;
        } else {
            self.cumulative_surprise = self.cumulative_surprise.mul(
                Fix::from_micros(MORPH_ACCUMULATOR_DECAY),
            );
        }

        let frustration_threshold = Fix::from_micros(MORPH_FRUSTRATION_THRESHOLD);
        if avg_frustration.gt(frustration_threshold) {
            let frustration_delta = avg_frustration.sub(frustration_threshold).div(
                frustration_threshold,
            );
            self.morphology.adjust_target_concentration(frustration_delta);
            self.generative_model.prior_mean.nutrient = self.morphology.target_concentration;
            self.cumulative_frustration = Fix::zero();
            self.morph_window_start = self.tick_count;
        } else {
            self.cumulative_frustration = self.cumulative_frustration.mul(
                Fix::from_micros(MORPH_ACCUMULATOR_DECAY),
            );
        }
        proof {
            assert(self@ =~= regulate_s(old(self)@));
        }
    }

    /// One full tick: infer, learn precision, track the temporal gradient,
    /// select and blend actions, write memories, metabolize, move, and
    /// regulate the morphology. The new state is exactly
    /// `step_s(old state, world width, world height)`; afterward the agent
    /// is regular: energy in `[0, 1]`, heading in `[0, 2 pi)`, morphology
    /// within bounds, position inside the world rectangle, and speed
    /// strictly positive yet never above the maximum.
    #[verifier::rlimit(100)]
    pub fn update_state<F: Field>(&mut self, field: &F)
        requires
            field.inv(),
            agent_wf(old(self)@),
            morph_in_bounds(old(self)@.morph),
        ensures
            final(self)@ == step_s(old(self)@, field.spec_width(), field.spec_height()),
            agent_wf(final(self)@),
            agent_regular(final(self)@, field.spec_width(), field.spec_height()),
            0 < final(self)@.speed <= MAX_SPEED as int,
    {
        self.phase_infer();
        self.phase_learn_precision();
        self.phase_temporal();
        let efe_action = self.select_action_efe();
        self.phase_replan();
        self.phase_act(efe_action);
        self.phase_memory();
        self.phase_metabolism();
        let w = field.width();
        let h = field.height();
        self.phase_position(w, h);
        self.phase_accumulate();
        self.regulate_morphology();
    }
}

/// Average accumulator value per tick (spec: [`window_avg_s`]).
fn window_avg(total: Fix, ticks: u64) -> (r: Fix)
    ensures
        r@ == window_avg_s(total@, ticks),
{
    let t: i64 = if ticks > 1_000_000 {
        1_000_000
    } else {
        ticks as i64
    };
    total.div(Fix::from_int(t))
}


/// One sensing-plus-update tick at the spec level: the observation pair is
/// stored, then the state steps.
pub open spec fn tick_s(a: AgentV, obs: (int, int), w: int, h: int) -> AgentV {
    step_s(AgentV { val_l: obs.0, val_r: obs.1, ..a }, w, h)
}

/// The state trace of a run: the initial state followed by the state after
/// each observation pair.
pub open spec fn trace_s(a: AgentV, obs: Seq<(int, int)>, w: int, h: int) -> Seq<AgentV>
    decreases obs.len(),
{
    if obs.len() == 0 {
        seq![a]
    } else {
        seq![a] + trace_s(tick_s(a, obs[0], w, h), obs.drop_first(), w, h)
    }
}

/// Determinism: two runs from identical states, fed identical observation
/// sequences over the same world, produce identical state traces.
/// [`Protozoa::sense`] stores exactly the field's values and
/// [`Protozoa::update_state`] returns exactly [`step_s`] of its old state,
/// so two executions with identical seeds (hence identical initial states,
/// [`agent_new_s`]) and identical field trajectories follow these traces.
pub proof fn lemma_deterministic_runs(
    a1: AgentV,
    a2: AgentV,
    obs1: Seq<(int, int)>,
    obs2: Seq<(int, int)>,
    w: int,
    h: int,
)
    requires
        a1 == a2,
        obs1.len() == obs2.len(),
        forall|i: int| 0 <= i < obs1.len() ==> obs1[i] == obs2[i],
    ensures
        trace_s(a1, obs1, w, h) == trace_s(a2, obs2, w, h),
    decreases obs1.len(),
{
    if obs1.len() == 0 {
    } else {
        assert(obs1[0] == obs2[0]);
        assert forall|i: int| 0 <= i < obs1.drop_first().len() implies obs1.drop_first()[i]
            == obs2.drop_first()[i] by {
            assert(obs1.drop_first()[i] == obs1[i + 1]);
            assert(obs2.drop_first()[i] == obs2[i + 1]);
        }
        lemma_deterministic_runs(
            tick_s(a1, obs1[0], w, h),
            tick_s(a2, obs2[0], w, h),
            obs1.drop_first(),
            obs2.drop_first(),
            w,
            h,
        );
    }
}

} // verus!
