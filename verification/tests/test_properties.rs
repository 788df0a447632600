use protozoa::agent::Protozoa;
use protozoa::environment::PetriDish;
use protozoa::fixed::Fix;
use protozoa::history::{SensorHistory, SensorSnapshot};
use protozoa::params::{DISH_HEIGHT, DISH_WIDTH, EXHAUSTION_THRESHOLD, MAX_SPEED};
use protozoa::planning::{Action, MCTSPlanner};
use protozoa::render::{action_to_name, format_mcts_summary};
use protozoa::trig::{TWO_PI_FIX, normalize_angle, sin_fix, cos_fix};

fn fix(m: i64) -> Fix {
    Fix::from_micros(m)
}

fn dish() -> PetriDish {
    PetriDish::new(fix(DISH_WIDTH), fix(DISH_HEIGHT))
}

fn agent_states_equal(a: &Protozoa, b: &Protozoa) -> bool {
    a.x == b.x && a.y == b.y && a.angle == b.angle && a.speed == b.speed && a.energy == b.energy
        && a.last_mean_sense == b.last_mean_sense && a.temp_gradient == b.temp_gradient
        && a.val_l == b.val_l && a.val_r == b.val_r && a.current_vfe == b.current_vfe
        && a.tick_count == b.tick_count && a.last_plan_tick == b.last_plan_tick
        && a.planned_action == b.planned_action
        && a.morphology == b.morphology
        && a.cumulative_surprise == b.cumulative_surprise
        && a.cumulative_frustration == b.cumulative_frustration
        && a.morph_window_start == b.morph_window_start
}

#[test]
fn test_deterministic_runs_with_identical_seeds() {
    // Two runs with identical seeds and identical field trajectories
    // produce identical agent state sequences.
    let mut dish1 = dish();
    let mut dish2 = dish();
    let mut a1 = Protozoa::with_seed(fix(50_000_000), fix(25_000_000), 42);
    let mut a2 = Protozoa::with_seed(fix(50_000_000), fix(25_000_000), 42);
    assert!(agent_states_equal(&a1, &a2));

    for _ in 0..50 {
        dish1.update();
        dish2.update();
        a1.sense(&dish1);
        a2.sense(&dish2);
        a1.update_state(&dish1);
        a2.update_state(&dish2);
        assert!(agent_states_equal(&a1, &a2), "state sequences must be identical");
    }
}

#[test]
fn test_different_seeds_may_diverge() {
    let dish = dish();
    let mut a1 = Protozoa::with_seed(fix(50_000_000), fix(25_000_000), 1);
    let mut a2 = Protozoa::with_seed(fix(50_000_000), fix(25_000_000), 2);
    for _ in 0..5 {
        a1.sense(&dish);
        a2.sense(&dish);
        a1.update_state(&dish);
        a2.update_state(&dish);
    }
    // Different seeds draw different exploration noise: headings differ.
    assert_ne!(a1.angle, a2.angle);
}

#[test]
fn test_invariants_over_long_run() {
    // Energy in [0, 1], heading in [0, 2 pi), morphology in bounds, and
    // the position inside the world rectangle, on every tick.
    let mut dish = dish();
    let mut agent = Protozoa::new(fix(50_000_000), fix(25_000_000));
    for _ in 0..200 {
        dish.update();
        agent.sense(&dish);
        agent.update_state(&dish);

        assert!(agent.energy.micros() >= 0 && agent.energy.micros() <= 1_000_000);
        assert!(agent.angle.micros() >= 0 && agent.angle.micros() < TWO_PI_FIX);
        assert!(agent.x.micros() >= 0 && agent.x.micros() <= DISH_WIDTH);
        assert!(agent.y.micros() >= 0 && agent.y.micros() <= DISH_HEIGHT);
        assert!(
            agent.morphology.sensor_dist.micros() >= 1_000_000
                && agent.morphology.sensor_dist.micros() <= 4_000_000
        );
        assert!(
            agent.morphology.sensor_angle.micros() >= 200_000
                && agent.morphology.sensor_angle.micros() <= 1_000_000
        );
        assert!(agent.speed.micros() > 0 && agent.speed.micros() <= MAX_SPEED);
    }
}

#[test]
fn test_starved_agent_at_center_moves_and_drains() {
    // Both sensors forced to zero, far below the homeostatic target:
    // the resulting speed is strictly positive and bounded by the maximum
    // speed, and energy strictly decreases that tick.
    let dish = dish();
    let mut agent = Protozoa::new(fix(DISH_WIDTH / 2), fix(DISH_HEIGHT / 2));
    let energy_before = agent.energy.micros();
    agent.val_l = fix(0);
    agent.val_r = fix(0);

    agent.update_state(&dish);

    assert!(agent.speed.micros() > 0, "speed must be strictly positive");
    assert!(agent.speed.micros() <= MAX_SPEED, "speed must be bounded by max speed");
    assert!(agent.energy.micros() < energy_before, "energy must strictly decrease");
}

#[test]
fn test_exhausted_speed_is_halved() {
    // An exhausted agent moves at most half as fast as an unexhausted one
    // fed the same readings.
    let dish = dish();
    let mut weary = Protozoa::with_seed(fix(50_000_000), fix(25_000_000), 7);
    let mut rested = Protozoa::with_seed(fix(50_000_000), fix(25_000_000), 7);
    weary.energy = fix(EXHAUSTION_THRESHOLD / 2);
    weary.val_l = fix(0);
    weary.val_r = fix(0);
    rested.val_l = fix(0);
    rested.val_r = fix(0);

    weary.update_state(&dish);
    rested.update_state(&dish);

    assert!(
        weary.speed.micros() <= rested.speed.micros() / 2,
        "exhausted speed {} must be at most half of {}",
        weary.speed.micros(),
        rested.speed.micros()
    );
}

#[test]
fn test_trig_bounds_and_periodicity() {
    for k in -20i64..20i64 {
        let a = fix(k * 1_234_567);
        let s = sin_fix(a);
        let c = cos_fix(a);
        assert!(s.micros() >= -1_000_000 && s.micros() <= 1_000_000);
        assert!(c.micros() >= -1_000_000 && c.micros() <= 1_000_000);
        let n = normalize_angle(a);
        assert!(n.micros() >= 0 && n.micros() < TWO_PI_FIX);
        assert_eq!(sin_fix(n).micros(), s.micros(), "sine is invariant under normalization");
    }
    assert_eq!(sin_fix(fix(0)).micros(), 0);
    assert_eq!(normalize_angle(fix(-31_415_920)).micros(), 0);
}

#[test]
fn test_planner_returns_legal_action_with_breakdown() {
    let agent = Protozoa::new(fix(50_000_000), fix(25_000_000));
    let mut planner = MCTSPlanner::new();
    let state = protozoa::planning::AgentState::new(
        agent.x,
        agent.y,
        agent.angle,
        agent.speed,
        agent.energy,
    );
    let action = planner.plan(&state, &agent.spatial_priors);
    assert!(matches!(
        action,
        Action::TurnLeft | Action::Straight | Action::TurnRight
    ));
    let details = planner.last_plan_details();
    assert_eq!(details.len(), 3);
    for d in &details {
        assert_eq!(
            d.total_efe.micros(),
            d.pragmatic_value.micros() + d.epistemic_value.micros()
        );
    }
    // The chosen action minimizes the combined score.
    let chosen = details.iter().find(|d| d.action == action).unwrap();
    for d in &details {
        assert!(chosen.total_efe.micros() <= d.total_efe.micros());
    }
}

#[test]
fn test_mcts_summary_exact_lines() {
    let mut planner = MCTSPlanner::new();
    let agent = Protozoa::new(fix(50_000_000), fix(25_000_000));
    let state = protozoa::planning::AgentState::new(
        agent.x,
        agent.y,
        agent.angle,
        agent.speed,
        agent.energy,
    );
    planner.plan(&state, &agent.spatial_priors);
    let lines = format_mcts_summary(&planner.last_plan_details(), 15);
    assert_eq!(lines.len(), 7);
    assert!(lines[0].starts_with("Best: "));
    assert_eq!(lines[4], "Rolls: 50");
    assert_eq!(lines[5], "Depth: 10");
    assert_eq!(lines[6], "Replan: 15");

    let empty = format_mcts_summary(&Vec::new(), 0);
    assert_eq!(empty.len(), 1);
    assert_eq!(empty[0], "No plan data");
}

#[test]
fn test_action_names() {
    assert_eq!(action_to_name(Action::TurnLeft), "L");
    assert_eq!(action_to_name(Action::Straight), "S");
    assert_eq!(action_to_name(Action::TurnRight), "R");
}

#[test]
fn test_history_is_bounded() {
    let mut h = SensorHistory::new();
    for i in 0..40u64 {
        h.push(SensorSnapshot {
            val_l: fix(0),
            val_r: fix(0),
            x: fix(0),
            y: fix(0),
            energy: fix(1_000_000),
            tick: i,
        });
    }
    assert_eq!(h.len(), 32);
    let snaps = h.snapshots();
    // The oldest entries were dropped: the first kept tick is 8.
    assert_eq!(snaps[0].tick, 8);
    assert_eq!(snaps[31].tick, 39);
}

#[test]
fn test_landmark_attraction_when_starving() {
    // An agent low on energy with a single distant landmark drifts toward
    // goal navigation mode.
    let dish = dish();
    let mut agent = Protozoa::new(fix(10_000_000), fix(10_000_000));
    agent.energy = fix(200_000);
    agent.episodic_memory.maybe_store(fix(80_000_000), fix(40_000_000), fix(900_000), 0);
    assert!(matches!(
        agent.current_mode(&dish),
        protozoa::agent::AgentMode::GoalNav
    ));
}
