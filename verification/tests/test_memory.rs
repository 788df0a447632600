use protozoa::episodic::{EpisodicMemory, Landmark};
use protozoa::fixed::Fix;

fn fix(m: i64) -> Fix {
    Fix::from_micros(m)
}

#[test]
fn test_landmark_creation() {
    let lm = Landmark::new(fix(50_000_000), fix(25_000_000), fix(900_000), 100);
    assert_eq!(lm.x.micros(), 50_000_000);
    assert_eq!(lm.y.micros(), 25_000_000);
    assert_eq!(lm.peak_nutrient.micros(), 900_000);
    assert_eq!(lm.reliability.micros(), 1_000_000);
}

#[test]
fn test_landmark_distance() {
    let lm = Landmark::new(fix(0), fix(0), fix(900_000), 0);
    let d = lm.distance_to(fix(3_000_000), fix(4_000_000));
    assert_eq!(d.micros(), 5_000_000);
}

#[test]
fn test_landmark_decay() {
    let mut lm = Landmark::new(fix(50_000_000), fix(25_000_000), fix(900_000), 0);
    let initial = lm.reliability.micros();
    lm.decay();
    assert!(lm.reliability.micros() < initial);
    // The decay rate is 0.995 per tick.
    assert!(lm.reliability.micros() > 990_000);
}

#[test]
fn test_episodic_memory_storage() {
    let mut mem = EpisodicMemory::new();
    assert_eq!(mem.count(), 0);

    mem.maybe_store(fix(10_000_000), fix(10_000_000), fix(800_000), 0);
    assert_eq!(mem.count(), 1);

    mem.maybe_store(fix(50_000_000), fix(25_000_000), fix(900_000), 1);
    assert_eq!(mem.count(), 2);
}

#[test]
fn test_episodic_memory_nearby_update() {
    let mut mem = EpisodicMemory::new();
    mem.maybe_store(fix(10_000_000), fix(10_000_000), fix(700_000), 0);

    // Store near the same location: should update, not add.
    mem.maybe_store(fix(11_000_000), fix(11_000_000), fix(900_000), 1);
    assert_eq!(mem.count(), 1);

    // The peak nutrient should be updated to the higher value.
    let best = mem.best_landmark().unwrap();
    assert_eq!(best.peak_nutrient.micros(), 900_000);
}

#[test]
fn test_episodic_memory_best_landmark() {
    let mut mem = EpisodicMemory::new();
    mem.maybe_store(fix(10_000_000), fix(10_000_000), fix(600_000), 0);
    mem.maybe_store(fix(50_000_000), fix(25_000_000), fix(900_000), 1);
    mem.maybe_store(fix(80_000_000), fix(40_000_000), fix(700_000), 2);

    let best = mem.best_landmark().unwrap();
    assert_eq!(best.peak_nutrient.micros(), 900_000);
}

#[test]
fn test_decay_removes_stale_landmarks() {
    let mut mem = EpisodicMemory::new();
    mem.maybe_store(fix(10_000_000), fix(10_000_000), fix(800_000), 0);

    // Decay many times until reliability drops below the prune threshold.
    for _ in 0..1000 {
        mem.decay_all();
    }

    assert_eq!(mem.count(), 0);
}

#[test]
fn test_best_distant_landmark() {
    let mut mem = EpisodicMemory::new();
    mem.maybe_store(fix(10_000_000), fix(10_000_000), fix(900_000), 0);
    mem.maybe_store(fix(50_000_000), fix(25_000_000), fix(800_000), 1);

    // From a position near the first landmark, the best distant landmark
    // should be the second.
    let best = mem
        .best_distant_landmark(fix(11_000_000), fix(11_000_000), fix(10_000_000))
        .unwrap();
    assert_eq!(best.x.micros(), 50_000_000);
}

#[test]
fn test_capacity_and_value_ordered_eviction() {
    let mut mem = EpisodicMemory::new();
    // Fill far-apart slots well past the capacity.
    for i in 0..20i64 {
        let x = 6_000_000 * i % 90_000_000;
        let y = 11_000_000 * i % 45_000_000;
        let peak = 700_000 + 10_000 * i;
        mem.maybe_store(fix(x), fix(y), fix(peak), i as u64);
        assert!(mem.count() <= 8, "landmark count must never exceed capacity");
    }
    assert_eq!(mem.count(), 8);
}

#[test]
fn test_reliability_strictly_decreases_without_refresh() {
    let mut mem = EpisodicMemory::new();
    mem.maybe_store(fix(10_000_000), fix(10_000_000), fix(800_000), 0);
    let before = mem.best_landmark().unwrap().reliability.micros();
    mem.decay_all();
    let after = mem.best_landmark().unwrap().reliability.micros();
    assert!(after < before, "reliability must strictly decrease unless refreshed");
    assert!(after > 0 && after <= 1_000_000);
}

#[test]
fn test_refresh_restores_reliability() {
    let mut mem = EpisodicMemory::new();
    mem.maybe_store(fix(10_000_000), fix(10_000_000), fix(800_000), 0);
    for _ in 0..10 {
        mem.decay_all();
    }
    assert!(mem.best_landmark().unwrap().reliability.micros() < 1_000_000);
    mem.update_on_visit(fix(10_000_000), fix(10_000_000), fix(750_000), 11);
    let lm = mem.best_landmark().unwrap();
    assert_eq!(lm.reliability.micros(), 1_000_000);
    assert_eq!(lm.peak_nutrient.micros(), 800_000);
    assert_eq!(lm.last_visit_tick, 11);
}

#[test]
fn test_clear_empties_memory() {
    let mut mem = EpisodicMemory::new();
    mem.maybe_store(fix(10_000_000), fix(10_000_000), fix(800_000), 0);
    mem.maybe_store(fix(50_000_000), fix(25_000_000), fix(900_000), 1);
    mem.clear();
    assert_eq!(mem.count(), 0);
    assert!(mem.best_landmark().is_none());
    assert_eq!(mem.iter().len(), 0);
}
