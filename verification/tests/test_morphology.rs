use protozoa::agent::Protozoa;
use protozoa::environment::PetriDish;
use protozoa::fixed::Fix;
use protozoa::morphology::Morphology;
use protozoa::params::{
    BELIEF_LEARNING_RATE, DISH_HEIGHT, DISH_WIDTH, MORPH_FRUSTRATION_THRESHOLD,
    MORPH_SURPRISE_THRESHOLD, MORPH_WINDOW_SIZE, SENSOR_ANGLE, SENSOR_DIST, TARGET_CONCENTRATION,
};

fn fix(m: i64) -> Fix {
    Fix::from_micros(m)
}

fn dish() -> PetriDish {
    PetriDish::new(fix(DISH_WIDTH), fix(DISH_HEIGHT))
}

// === Morphology structure tests ===

#[test]
fn test_morphology_initialization() {
    let morph = Morphology::new();
    assert_eq!(morph.sensor_dist.micros(), SENSOR_DIST, "sensor_dist");
    assert_eq!(morph.sensor_angle.micros(), SENSOR_ANGLE, "sensor_angle");
    assert_eq!(
        morph.belief_learning_rate.micros(),
        BELIEF_LEARNING_RATE,
        "belief_learning_rate"
    );
    assert_eq!(
        morph.target_concentration.micros(),
        TARGET_CONCENTRATION,
        "target_concentration"
    );
}

#[test]
fn test_morphology_default() {
    let morph = Morphology::new();
    assert_eq!(morph.sensor_dist.micros(), SENSOR_DIST);
    assert_eq!(morph.sensor_angle.micros(), SENSOR_ANGLE);
    assert_eq!(morph.belief_learning_rate.micros(), BELIEF_LEARNING_RATE);
    assert_eq!(morph.target_concentration.micros(), TARGET_CONCENTRATION);
}

#[test]
fn test_sensor_dist_increases_with_surprise() {
    let mut morph = Morphology::new();
    let initial = morph.sensor_dist.micros();

    morph.adjust_sensor_dist(fix(1_000_000));
    assert!(morph.sensor_dist.micros() > initial);
}

#[test]
fn test_sensor_dist_decreases_with_negative_delta() {
    let mut morph = Morphology::new();
    let initial = morph.sensor_dist.micros();

    morph.adjust_sensor_dist(fix(-1_000_000));
    assert!(morph.sensor_dist.micros() < initial);
}

#[test]
fn test_adjust_sensor_dist() {
    let mut morph = Morphology::new();
    let initial = morph.sensor_dist.micros();

    // High surprise increases distance.
    morph.adjust_sensor_dist(fix(1_000_000));
    assert!(morph.sensor_dist.micros() > initial);

    // Should clamp at the maximum.
    morph.adjust_sensor_dist(fix(100_000_000));
    assert!(morph.sensor_dist.micros() <= 4_000_000);
}

#[test]
fn test_sensor_angle_widens_with_surprise() {
    let mut morph = Morphology::new();
    let initial = morph.sensor_angle.micros();

    morph.adjust_sensor_angle(fix(1_000_000));
    assert!(morph.sensor_angle.micros() > initial);
}

#[test]
fn test_adjust_sensor_angle() {
    let mut morph = Morphology::new();
    let initial = morph.sensor_angle.micros();

    morph.adjust_sensor_angle(fix(1_000_000));
    assert!(morph.sensor_angle.micros() > initial);

    morph.adjust_sensor_angle(fix(100_000_000));
    assert!(morph.sensor_angle.micros() <= 1_000_000);
}

#[test]
fn test_belief_learning_rate_increases_with_surprise() {
    let mut morph = Morphology::new();
    let initial = morph.belief_learning_rate.micros();

    morph.adjust_belief_learning_rate(fix(1_000_000));
    assert!(morph.belief_learning_rate.micros() > initial);
}

#[test]
fn test_adjust_belief_learning_rate() {
    let mut morph = Morphology::new();
    let initial = morph.belief_learning_rate.micros();

    morph.adjust_belief_learning_rate(fix(1_000_000));
    assert!(morph.belief_learning_rate.micros() > initial);

    morph.adjust_belief_learning_rate(fix(100_000_000));
    assert!(morph.belief_learning_rate.micros() <= 300_000);
}

#[test]
fn test_target_concentration_decreases_with_frustration() {
    let mut morph = Morphology::new();
    let initial = morph.target_concentration.micros();

    morph.adjust_target_concentration(fix(1_000_000));
    assert!(morph.target_concentration.micros() < initial);
}

#[test]
fn test_adjust_target_concentration() {
    let mut morph = Morphology::new();
    let initial = morph.target_concentration.micros();

    // High frustration lowers the target.
    morph.adjust_target_concentration(fix(1_000_000));
    assert!(morph.target_concentration.micros() < initial);

    // Should clamp at the minimum.
    morph.adjust_target_concentration(fix(100_000_000));
    assert!(morph.target_concentration.micros() >= 500_000);

    // Recovery restores toward the ideal.
    for _ in 0..100 {
        morph.adjust_target_concentration(fix(-100_000));
    }
    assert!(morph.target_concentration.micros() > 500_000);
}

#[test]
fn test_morphology_clamping() {
    let mut morph = Morphology::new();

    morph.adjust_sensor_dist(fix(100_000_000));
    assert!(morph.sensor_dist.micros() <= 4_000_000);

    morph.adjust_sensor_angle(fix(100_000_000));
    assert!(morph.sensor_angle.micros() <= 1_000_000);

    morph.adjust_belief_learning_rate(fix(100_000_000));
    assert!(morph.belief_learning_rate.micros() <= 300_000);

    morph.adjust_target_concentration(fix(100_000_000));
    assert!(morph.target_concentration.micros() >= 500_000);
}

// === Agent integration tests ===

#[test]
fn test_agent_has_morphology() {
    let agent = Protozoa::new(fix(50_000_000), fix(25_000_000));
    assert_eq!(agent.morphology.sensor_dist.micros(), SENSOR_DIST, "sensor_dist");
    assert_eq!(agent.morphology.sensor_angle.micros(), SENSOR_ANGLE, "sensor_angle");
}

#[test]
fn test_agent_has_accumulators() {
    let agent = Protozoa::new(fix(50_000_000), fix(25_000_000));
    assert_eq!(agent.cumulative_surprise.micros(), 0, "cumulative_surprise");
    assert_eq!(agent.cumulative_frustration.micros(), 0, "cumulative_frustration");
    assert_eq!(agent.morph_window_start, 0);
}

#[test]
fn test_agent_sense_uses_dynamic_parameters() {
    let mut agent = Protozoa::new(fix(50_000_000), fix(25_000_000));
    let dish = dish();

    agent.morphology.sensor_dist = fix(3_000_000);
    agent.morphology.sensor_angle = fix(800_000);

    agent.sense(&dish);

    assert!(agent.val_l.micros() >= -1_000_000 && agent.val_l.micros() <= 1_000_000);
    assert!(agent.val_r.micros() >= -1_000_000 && agent.val_r.micros() <= 1_000_000);
}

#[test]
fn test_agent_update_uses_dynamic_learning_rate() {
    let mut agent = Protozoa::new(fix(50_000_000), fix(25_000_000));
    let dish = dish();

    agent.morphology.belief_learning_rate = fix(250_000);

    agent.sense(&dish);
    let initial_beliefs = agent.beliefs.mean.nutrient;
    agent.update_state(&dish);

    assert_ne!(agent.beliefs.mean.nutrient, initial_beliefs);
}

// === System 2 regulation tests ===

#[test]
fn test_surprise_accumulation() {
    let mut agent = Protozoa::new(fix(50_000_000), fix(25_000_000));
    let dish = dish();

    agent.sense(&dish);
    agent.update_state(&dish);

    assert!(agent.cumulative_surprise.micros() > 0);
}

#[test]
fn test_frustration_accumulation() {
    let mut agent = Protozoa::new(fix(50_000_000), fix(25_000_000));
    let dish = dish();

    for _ in 0..10 {
        agent.sense(&dish);
        agent.update_state(&dish);
    }

    assert!(
        agent.cumulative_frustration.micros() >= 0,
        "Frustration accumulator should be non-negative"
    );
}

#[test]
fn test_morphology_regulation_requires_window() {
    let mut agent = Protozoa::new(fix(50_000_000), fix(25_000_000));
    let dish = dish();

    let initial_sensor_dist = agent.morphology.sensor_dist.micros();

    for _ in 0..(MORPH_WINDOW_SIZE - 1) {
        agent.sense(&dish);
        agent.update_state(&dish);
    }

    assert_eq!(
        agent.morphology.sensor_dist.micros(),
        initial_sensor_dist,
        "sensor_dist should not change before the window completes"
    );
}

#[test]
fn test_structural_morphogenesis_with_high_surprise() {
    let mut agent = Protozoa::new(fix(50_000_000), fix(25_000_000));
    let dish = dish();

    let initial_sensor_dist = agent.morphology.sensor_dist.micros();
    let initial_sensor_angle = agent.morphology.sensor_angle.micros();

    for _ in 0..MORPH_WINDOW_SIZE {
        agent.cumulative_surprise =
            agent.cumulative_surprise.add(fix(MORPH_SURPRISE_THRESHOLD + MORPH_SURPRISE_THRESHOLD / 2));
        agent.sense(&dish);
        agent.update_state(&dish);
    }

    assert_ne!(
        agent.morphology.sensor_dist.micros(),
        initial_sensor_dist,
        "sensor_dist should change with high surprise"
    );
    assert_ne!(
        agent.morphology.sensor_angle.micros(),
        initial_sensor_angle,
        "sensor_angle should change with high surprise"
    );
}

#[test]
fn test_allostatic_regulation_with_high_frustration() {
    let mut agent = Protozoa::new(fix(50_000_000), fix(25_000_000));
    let dish = dish();

    let initial_target = agent.morphology.target_concentration.micros();

    for _ in 0..MORPH_WINDOW_SIZE {
        agent.cumulative_frustration = agent.cumulative_frustration.add(
            fix(MORPH_FRUSTRATION_THRESHOLD + MORPH_FRUSTRATION_THRESHOLD / 2),
        );
        agent.sense(&dish);
        agent.update_state(&dish);
    }

    assert!(
        agent.morphology.target_concentration.micros() < initial_target,
        "target should decrease with high frustration"
    );
}

#[test]
fn test_accumulator_reset_after_regulation() {
    let mut agent = Protozoa::new(fix(50_000_000), fix(25_000_000));
    let dish = dish();

    for _ in 0..MORPH_WINDOW_SIZE {
        agent.cumulative_surprise =
            agent.cumulative_surprise.add(fix(2 * MORPH_SURPRISE_THRESHOLD));
        agent.sense(&dish);
        agent.update_state(&dish);
    }

    assert!(agent.cumulative_surprise.micros() < 1_000_000);
}

#[test]
fn test_generative_model_sync_with_morphology() {
    let mut agent = Protozoa::new(fix(50_000_000), fix(25_000_000));
    let dish = dish();

    agent.morphology.sensor_angle = fix(900_000);

    for _ in 0..MORPH_WINDOW_SIZE {
        agent.cumulative_surprise =
            agent.cumulative_surprise.add(fix(2 * MORPH_SURPRISE_THRESHOLD));
        agent.sense(&dish);
        agent.update_state(&dish);
    }

    let gap = agent.generative_model.sensor_angle.micros() - agent.morphology.sensor_angle.micros();
    assert!(
        gap.abs() < 500_000,
        "generative model sensor_angle should sync with morphology"
    );
}

// === Integration tests ===

#[test]
fn test_system_1_system_2_loop() {
    let mut agent = Protozoa::new(fix(50_000_000), fix(25_000_000));
    let mut dish = dish();

    for _ in 0..(MORPH_WINDOW_SIZE * 2) {
        dish.update();
        agent.sense(&dish);
        agent.update_state(&dish);
    }

    assert!(agent.energy.micros() > 0);
    assert!(agent.tick_count > 0);

    assert!(agent.morphology.sensor_dist.micros() > 0);
    assert!(agent.morphology.sensor_angle.micros() > 0);
}

#[test]
fn test_morphology_bounds_maintained() {
    let mut agent = Protozoa::new(fix(50_000_000), fix(25_000_000));
    let dish = dish();

    for _ in 0..(MORPH_WINDOW_SIZE * 5) {
        agent.cumulative_surprise =
            agent.cumulative_surprise.add(fix(10 * MORPH_SURPRISE_THRESHOLD));
        agent.cumulative_frustration =
            agent.cumulative_frustration.add(fix(10 * MORPH_FRUSTRATION_THRESHOLD));
        agent.sense(&dish);
        agent.update_state(&dish);
    }

    assert!(
        agent.morphology.sensor_dist.micros() >= 1_000_000
            && agent.morphology.sensor_dist.micros() <= 4_000_000
    );
    assert!(
        agent.morphology.sensor_angle.micros() >= 200_000
            && agent.morphology.sensor_angle.micros() <= 1_000_000
    );
    assert!(
        agent.morphology.belief_learning_rate.micros() >= 50_000
            && agent.morphology.belief_learning_rate.micros() <= 300_000
    );
    assert!(
        agent.morphology.target_concentration.micros() >= 500_000
            && agent.morphology.target_concentration.micros() <= 900_000
    );
}
