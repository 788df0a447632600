use protozoa::agent::{AgentMode, Protozoa};
use protozoa::environment::PetriDish;
use protozoa::fixed::{Fix, SCALE};
use protozoa::params::{DISH_HEIGHT, DISH_WIDTH, EXHAUSTION_THRESHOLD, MAX_SPEED};
use protozoa::trig::TWO_PI_FIX;

fn fix(m: i64) -> Fix {
    Fix::from_micros(m)
}

fn dish() -> PetriDish {
    PetriDish::new(fix(DISH_WIDTH), fix(DISH_HEIGHT))
}

#[test]
fn test_agent_initialization() {
    let agent = Protozoa::new(fix(50_000_000), fix(50_000_000));
    assert_eq!(agent.x.micros(), 50_000_000, "x position");
    assert_eq!(agent.y.micros(), 50_000_000, "y position");
    assert_eq!(agent.speed.micros(), 0, "speed");
    assert_eq!(agent.energy.micros(), SCALE, "energy");
}

#[test]
fn test_sense() {
    let mut agent = Protozoa::new(fix(50_000_000), fix(50_000_000));
    let dish = dish();

    agent.sense(&dish);
    // Values should be between -1.0 (void) and 1.0 (max nutrient).
    assert!(agent.val_l.micros() >= -SCALE && agent.val_l.micros() <= SCALE);
    assert!(agent.val_r.micros() >= -SCALE && agent.val_r.micros() <= SCALE);
}

#[test]
fn test_update_state_movement() {
    let mut agent = Protozoa::new(fix(50_000_000), fix(50_000_000));
    let dish = dish();

    // Set high error to force movement.
    agent.val_l = fix(0);
    agent.val_r = fix(0);

    agent.update_state(&dish);

    assert!(agent.speed.micros() > 0);
    assert!(agent.speed.micros() <= MAX_SPEED);

    // Position should have changed.
    assert!(agent.x.micros() != 50_000_000 || agent.y.micros() != 50_000_000);
}

#[test]
fn test_energy_consumption() {
    let mut agent = Protozoa::new(fix(50_000_000), fix(50_000_000));
    let dish = dish();

    // Force movement with zero intake.
    agent.val_l = fix(0);
    agent.val_r = fix(0);

    agent.update_state(&dish);

    // Energy decreases: intake is zero but the metabolic cost is not.
    assert!(agent.energy.micros() < SCALE);
}

#[test]
fn test_exhaustion_state() {
    let mut agent = Protozoa::new(fix(50_000_000), fix(50_000_000));
    let dish = dish();

    // Force low energy state, below the exhaustion threshold.
    agent.energy = fix(EXHAUSTION_THRESHOLD / 2);
    agent.val_l = fix(0);
    agent.val_r = fix(0);

    agent.update_state(&dish);

    // Speed should be reduced by the exhaustion factor.
    let expected_max = MAX_SPEED * 8 / 10 / 2;
    assert!(
        agent.speed.micros() <= expected_max,
        "Speed {} should be <= {} when exhausted",
        agent.speed.micros(),
        expected_max
    );
}

#[test]
fn test_boundary_clamping() {
    let mut agent = Protozoa::new(fix(DISH_WIDTH - 100_000), fix(DISH_HEIGHT / 2));
    let dish = dish();

    // Set heading to push the agent past the right boundary.
    agent.angle = fix(0);
    agent.val_l = fix(0);
    agent.val_r = fix(0);

    for _ in 0..100 {
        agent.update_state(&dish);
    }

    assert!(
        agent.x.micros() >= 0 && agent.x.micros() <= DISH_WIDTH,
        "x={} should be in [0, {}]",
        agent.x.micros(),
        DISH_WIDTH
    );
    assert!(
        agent.y.micros() >= 0 && agent.y.micros() <= DISH_HEIGHT,
        "y={} should be in [0, {}]",
        agent.y.micros(),
        DISH_HEIGHT
    );
}

#[test]
fn test_angle_normalization() {
    let mut agent = Protozoa::new(fix(50_000_000), fix(50_000_000));
    let dish = dish();

    // Set heading to an extreme negative value (minus ten half-turns).
    agent.angle = fix(-31_415_920);
    agent.val_l = fix(0);
    agent.val_r = fix(0);

    agent.update_state(&dish);

    assert!(agent.angle.micros() >= 0, "Angle {} should be >= 0", agent.angle.micros());
    assert!(
        agent.angle.micros() < TWO_PI_FIX,
        "Angle {} should be < 2*PI",
        agent.angle.micros()
    );
}

#[test]
fn test_angle_normalization_positive() {
    let mut agent = Protozoa::new(fix(50_000_000), fix(50_000_000));
    let dish = dish();

    // Set heading to an extreme positive value (a hundred half-turns).
    agent.angle = fix(314_159_200);
    agent.val_l = fix(0);
    agent.val_r = fix(0);

    agent.update_state(&dish);

    assert!(agent.angle.micros() >= 0, "Angle {} should be >= 0", agent.angle.micros());
    assert!(
        agent.angle.micros() < TWO_PI_FIX,
        "Angle {} should be < 2*PI",
        agent.angle.micros()
    );
}

#[test]
fn test_temporal_gradient_tracking() {
    let mut agent = Protozoa::new(fix(50_000_000), fix(50_000_000));
    let dish = dish();

    // First tick: establish a baseline.
    agent.val_l = fix(600_000);
    agent.val_r = fix(400_000);
    agent.update_state(&dish);

    let first_mean = 500_000;
    assert_eq!(
        agent.last_mean_sense.micros(),
        first_mean,
        "last_mean_sense should be the midpoint of val_l and val_r"
    );
    assert_eq!(
        agent.temp_gradient.micros(),
        first_mean,
        "temp_gradient should be the first mean on the first tick"
    );

    // Second tick: create a temporal gradient.
    agent.val_l = fix(800_000);
    agent.val_r = fix(600_000);
    agent.update_state(&dish);

    let second_mean = 700_000;
    let expected_gradient = second_mean - first_mean;
    assert_eq!(
        agent.temp_gradient.micros(),
        expected_gradient,
        "temp_gradient should be the change of the mean"
    );
}

#[test]
fn test_speed_proportional_to_error() {
    let mut agent = Protozoa::new(fix(50_000_000), fix(50_000_000));
    let dish = dish();

    // Target is 0.8, so a mean of 0.0 is a large error.
    agent.val_l = fix(0);
    agent.val_r = fix(0);
    agent.update_state(&dish);
    let speed_high_error = agent.speed.micros();

    // A mean of 0.7 is a small error.
    let mut agent2 = Protozoa::new(fix(50_000_000), fix(50_000_000));
    agent2.val_l = fix(700_000);
    agent2.val_r = fix(700_000);
    agent2.update_state(&dish);
    let speed_low_error = agent2.speed.micros();

    assert!(
        speed_high_error > speed_low_error,
        "Speed with high error ({}) should be > speed with low error ({})",
        speed_high_error,
        speed_low_error
    );
}

#[test]
fn test_energy_clamped_to_valid_range() {
    let mut agent = Protozoa::new(fix(50_000_000), fix(50_000_000));
    let dish = dish();

    agent.energy = fix(100);
    agent.val_l = fix(0);
    agent.val_r = fix(0);

    for _ in 0..1000 {
        agent.update_state(&dish);
    }

    assert!(agent.energy.micros() >= 0, "Energy {} should be >= 0", agent.energy.micros());
    assert!(agent.energy.micros() <= SCALE, "Energy {} should be <= 1", agent.energy.micros());
}

#[test]
fn test_energy_increases_near_nutrients() {
    let mut agent = Protozoa::new(fix(50_000_000), fix(50_000_000));
    let dish = dish();

    // Simulate a high-nutrient area: readings at the homeostatic target.
    agent.val_l = fix(800_000);
    agent.val_r = fix(800_000);
    agent.energy = fix(500_000);

    agent.update_state(&dish);

    assert!(
        agent.energy.micros() > 500_000,
        "Energy {} should increase when near nutrients (started at 0.5)",
        agent.energy.micros()
    );
}

#[test]
fn test_agent_mode_exploring() {
    let dish = dish();
    let agent = Protozoa::new(fix(50_000_000), fix(25_000_000));
    assert!(matches!(agent.current_mode(&dish), AgentMode::Exploring));
}

#[test]
fn test_agent_mode_exhausted() {
    let dish = dish();
    let mut agent = Protozoa::new(fix(50_000_000), fix(25_000_000));
    agent.energy = fix(5_000);
    assert!(matches!(agent.current_mode(&dish), AgentMode::Exhausted));
}

#[test]
fn test_agent_ticks_until_replan() {
    let dish = dish();
    let mut agent = Protozoa::new(fix(50_000_000), fix(25_000_000));

    agent.sense(&dish);
    agent.update_state(&dish);

    assert!(agent.ticks_until_replan() > 0);
    assert!(agent.ticks_until_replan() <= 20);
}
