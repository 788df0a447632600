//! Simulation hyperparameters.
//!
//! Every scalar parameter is given in micro-units: one whole unit is
//! `1_000_000` (see [`crate::fixed::SCALE`]). Angles are in micro-radians.

use vstd::prelude::*;

verus! {

// === Agent sensing parameters ===
/// Preferred nutrient concentration (the homeostatic set-point).
pub const TARGET_CONCENTRATION: i64 = 800_000;
/// Distance from body center to the chemical sensors.
pub const SENSOR_DIST: i64 = 2_000_000;
/// Sensor stereo spread in micro-radians (about 28.6 degrees).
pub const SENSOR_ANGLE: i64 = 500_000;
/// Maximum forward speed per tick.
pub const MAX_SPEED: i64 = 1_500_000;

// === Agent behavior parameters ===
/// Temporal gradient below which a panic turn is triggered.
pub const PANIC_THRESHOLD: i64 = -10_000;
/// Maximum panic turn magnitude in micro-radians (about 115 degrees each way).
pub const PANIC_TURN_RANGE: i64 = 2_000_000;
/// Scale factor for random noise on heading updates.
pub const NOISE_SCALE: i64 = 500_000;
/// Energy level at or below which the agent enters the exhaustion state.
pub const EXHAUSTION_THRESHOLD: i64 = 10_000;
/// Speed multiplier applied when the agent is exhausted.
pub const EXHAUSTION_SPEED_FACTOR: i64 = 500_000;

// === Agent metabolism parameters ===
/// Base metabolic energy cost per tick (independent of movement).
pub const BASE_METABOLIC_COST: i64 = 500;
/// Additional metabolic cost per unit of normalized speed.
pub const SPEED_METABOLIC_COST: i64 = 2_500;
/// Energy intake rate per unit of sensed concentration.
pub const INTAKE_RATE: i64 = 30_000;

// === Environment parameters ===
/// Width of the world rectangle.
pub const DISH_WIDTH: i64 = 100_000_000;
/// Height of the world rectangle (adjusted for terminal aspect ratio).
pub const DISH_HEIGHT: i64 = 50_000_000;
/// Margin from dish edges for source placement.
pub const SOURCE_MARGIN: i64 = 10_000_000;
/// Minimum radius for nutrient sources.
pub const SOURCE_RADIUS_MIN: i64 = 2_500_000;
/// Maximum radius for nutrient sources.
pub const SOURCE_RADIUS_MAX: i64 = 8_000_000;
/// Minimum initial intensity for nutrient sources.
pub const SOURCE_INTENSITY_MIN: i64 = 500_000;
/// Maximum initial intensity for nutrient sources.
pub const SOURCE_INTENSITY_MAX: i64 = 1_000_000;
/// Minimum decay rate for nutrient sources (per-tick multiplier).
pub const SOURCE_DECAY_MIN: i64 = 990_000;
/// Maximum decay rate for nutrient sources (per-tick multiplier).
pub const SOURCE_DECAY_MAX: i64 = 998_000;
/// Brownian motion step size for source drift.
pub const BROWNIAN_STEP: i64 = 500_000;
/// Intensity threshold below which a source respawns.
pub const RESPAWN_THRESHOLD: i64 = 50_000;
/// Number of nutrient sources kept in the dish.
pub const SOURCE_COUNT: usize = 7;

// === Memory parameters ===
/// Size of the sensor history ring buffer.
pub const HISTORY_SIZE: usize = 32;
/// Width of the spatial prior grid (cells).
pub const GRID_WIDTH: usize = 20;
/// Height of the spatial prior grid (cells).
pub const GRID_HEIGHT: usize = 10;

// === Learning parameters ===
/// Learning rate for spatial prior updates.
pub const PRIOR_LEARNING_RATE: i64 = 100_000;
/// Confidence gained by a grid cell on each visit.
pub const PRIOR_VISIT_GAIN: i64 = 100_000;
/// Scale factor for the exploration bonus in uncertain regions.
pub const EXPLORATION_SCALE: i64 = 300_000;
/// Minimum precision value (prevents division by zero).
pub const MIN_PRECISION: i64 = 100_000;
/// Maximum precision value (prevents over-confidence).
pub const MAX_PRECISION: i64 = 10_000_000;

// === Episodic memory parameters ===
/// Maximum number of landmarks to remember.
pub const MAX_LANDMARKS: usize = 8;
/// Minimum nutrient concentration that triggers landmark storage.
pub const LANDMARK_THRESHOLD: i64 = 700_000;
/// Reliability decay rate per tick (when not visited).
pub const LANDMARK_DECAY: i64 = 995_000;
/// Reliability below which a landmark slot is freed.
pub const LANDMARK_PRUNE: i64 = 10_000;
/// Scale factor for goal-directed navigation toward landmarks.
pub const LANDMARK_ATTRACTION_SCALE: i64 = 500_000;
/// Distance threshold for considering a landmark "visited".
pub const LANDMARK_VISIT_RADIUS: i64 = 5_000_000;

// === Planning parameters ===
/// Upper budget for rollouts per planning step.
pub const MCTS_ROLLOUTS: usize = 50;
/// Maximum depth for trajectory simulation.
pub const MCTS_DEPTH: usize = 10;
/// Ticks between replanning (unless urgent).
pub const MCTS_REPLAN_INTERVAL: u64 = 20;
/// Energy threshold below which replanning becomes urgent.
pub const MCTS_URGENT_ENERGY: i64 = 300_000;

// === Active inference parameters ===
/// Learning rate for belief updates via free-energy gradient descent.
pub const BELIEF_LEARNING_RATE: i64 = 150_000;
/// Maximum free energy used for speed scaling normalization.
pub const MAX_VFE: i64 = 5_000_000;
/// Initial sensory precision (inverse observation variance).
pub const INITIAL_SENSORY_PRECISION: i64 = 5_000_000;
/// Prior precision on the nutrient belief (strength of the preference).
pub const NUTRIENT_PRIOR_PRECISION: i64 = 2_000_000;
/// Prior precision on the position beliefs (weak: free to roam).
pub const POSITION_PRIOR_PRECISION: i64 = 1_000;
/// Minimum sensory precision (prevents over-trust of noisy sensors).
pub const MIN_SENSORY_PRECISION: i64 = 500_000;
/// Maximum sensory precision (prevents over-confidence).
pub const MAX_SENSORY_PRECISION: i64 = 20_000_000;
/// Uncertainty growth factor for predictive beliefs.
pub const UNCERTAINTY_GROWTH: i64 = 1_100_000;
/// Uncertainty reduction factor after an observation.
pub const UNCERTAINTY_REDUCTION: i64 = 950_000;
/// Uncertainty floor: beliefs never become perfectly certain.
pub const MIN_UNCERTAINTY: i64 = 10_000;
/// Uncertainty ceiling: beliefs never become unboundedly vague.
pub const MAX_UNCERTAINTY: i64 = 10_000_000;
/// Uncertainty each belief component starts with.
pub const INITIAL_UNCERTAINTY: i64 = 1_000_000;
/// Smoothing rate of the running prediction-error magnitude.
pub const PRECISION_SMOOTHING: i64 = 100_000;
/// Additive floor inside the inverse-error precision estimate.
pub const PRECISION_EPSILON: i64 = 10_000;
/// Initial smoothed prediction-error magnitude.
pub const INITIAL_SMOOTHED_ERROR: i64 = 190_000;

// === Morphological regulation parameters ===
/// Ticks in one regulation window.
pub const MORPH_WINDOW_SIZE: u64 = 50;
/// Average surprise above which structural morphogenesis fires.
pub const MORPH_SURPRISE_THRESHOLD: i64 = 2_000_000;
/// Average frustration above which allostatic regulation fires.
pub const MORPH_FRUSTRATION_THRESHOLD: i64 = 5_000_000;
/// Multiplicative decay of the accumulators when below threshold.
pub const MORPH_ACCUMULATOR_DECAY: i64 = 900_000;

} // verus!
