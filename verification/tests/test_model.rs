use protozoa::beliefs::BeliefMean;
use protozoa::fixed::Fix;
use protozoa::model::GenerativeModel;
use protozoa::params::TARGET_CONCENTRATION;

fn fix(m: i64) -> Fix {
    Fix::from_micros(m)
}

#[test]
fn test_generative_model_default() {
    let model = GenerativeModel::new();
    assert_eq!(model.prior_mean.nutrient.micros(), TARGET_CONCENTRATION);
}

#[test]
fn test_observation_function_bounds() {
    let model = GenerativeModel::new();
    let beliefs = BeliefMean {
        nutrient: fix(500_000),
        x: fix(50_000_000),
        y: fix(25_000_000),
        angle: fix(1_000_000),
    };

    let (pred_l, pred_r) = model.observation_function(&beliefs);

    assert!(pred_l.micros() >= 0 && pred_l.micros() <= 1_000_000);
    assert!(pred_r.micros() >= 0 && pred_r.micros() <= 1_000_000);
}

#[test]
fn test_observation_function_symmetric_at_zero_angle() {
    let model = GenerativeModel::new();
    let beliefs = BeliefMean {
        nutrient: fix(500_000),
        x: fix(50_000_000),
        y: fix(25_000_000),
        angle: fix(0),
    };

    let (pred_l, pred_r) = model.observation_function(&beliefs);

    // At a zero heading the predictions are equal.
    assert_eq!(pred_l.micros(), pred_r.micros());
}

#[test]
fn test_observation_jacobian() {
    let model = GenerativeModel::new();
    let beliefs = BeliefMean {
        nutrient: fix(500_000),
        x: fix(50_000_000),
        y: fix(25_000_000),
        angle: fix(500_000),
    };

    let jacobian = model.observation_jacobian(&beliefs);

    // The nutrient derivatives are exactly one (direct mapping).
    assert_eq!(jacobian.d_obs_d_nutrient.0.micros(), 1_000_000);
    assert_eq!(jacobian.d_obs_d_nutrient.1.micros(), 1_000_000);

    // The heading derivatives have opposite signs.
    let a = jacobian.d_obs_d_angle.0.micros() as i128;
    let b = jacobian.d_obs_d_angle.1.micros() as i128;
    assert!(a * b <= 0);
}

#[test]
fn test_sensory_precision_overwrite() {
    let mut model = GenerativeModel::new();
    model.update_sensory_precision(fix(7_000_000), fix(3_000_000));
    assert_eq!(model.sensory_precision.left.micros(), 7_000_000);
    assert_eq!(model.sensory_precision.right.micros(), 3_000_000);
}

#[test]
fn test_sensor_angle_resync() {
    let mut model = GenerativeModel::new();
    model.update_sensor_angle(fix(900_000));
    assert_eq!(model.sensor_angle.micros(), 900_000);
}
