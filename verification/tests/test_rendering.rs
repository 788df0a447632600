use protozoa::agent::{AgentMode, Protozoa};
use protozoa::environment::PetriDish;
use protozoa::fixed::Fix;
use protozoa::params::{DISH_HEIGHT, DISH_WIDTH};
use protozoa::render::{
    compress_spatial_grid, compute_field_grid, format_metrics_overlay, render_spatial_grid_lines,
    world_to_grid_coords,
};
use protozoa::snapshot::DashboardState;
use protozoa::spatial::CellPrior;

fn fix(m: i64) -> Fix {
    Fix::from_micros(m)
}

#[test]
fn test_dashboard_state_from_agent() {
    let dish = PetriDish::new(fix(DISH_WIDTH), fix(DISH_HEIGHT));
    let agent = Protozoa::new(fix(50_000_000), fix(25_000_000));

    let state = DashboardState::from_agent(&agent, &dish);

    assert_eq!(state.energy.micros(), 1_000_000);
    assert!(matches!(state.mode, AgentMode::Exploring));
    assert_eq!(state.landmark_count, 0);
}

#[test]
fn test_field_grid_computation() {
    let dish = PetriDish::new(fix(100_000_000), fix(50_000_000));
    let rows = 10;
    let cols = 20;

    let grid = compute_field_grid(&dish, rows, cols);

    assert_eq!(grid.len(), rows);
    assert_eq!(grid[0].len(), cols);

    // Every character comes from the field density ramp.
    for row in grid {
        for c in row.chars() {
            assert!(" .:-=+*#%@".contains(c));
        }
    }
}

#[test]
fn test_metrics_overlay_content() {
    let lines = format_metrics_overlay(
        fix(820_000),  // energy
        AgentMode::Exploring,
        fix(-120_000),  // prediction_error
        fix(850_000),  // precision
        fix(1_300_000),  // speed
        fix(127_000_000),  // heading in degrees
        fix(740_000),  // sensor_left
        fix(680_000),  // sensor_right
        fix(-20_000),  // temporal_gradient
    );

    assert_eq!(lines.len(), 6);

    assert!(lines[0].contains("E:"));
    assert!(lines[0].contains("82%"));

    assert!(lines[1].contains("EXPLORING"));

    // Two-decimal rendering is exact.
    assert!(lines[4].contains("L:0.74"));
    assert!(lines[4].contains("R:0.68"));
}

#[test]
fn test_spatial_grid_ascii_mapping() {
    // A simple 4x2 grid.
    let mut cells = vec![CellPrior::default(); 8];

    cells[0].mean = fix(0);
    cells[1].mean = fix(300_000);
    cells[2].mean = fix(600_000);
    cells[3].mean = fix(900_000);

    let lines = render_spatial_grid_lines(&cells, 4, 2, None);

    assert_eq!(lines.len(), 2);
    assert!(lines[0].contains(' '));
    assert!(lines[1].chars().count() >= 4);
}

#[test]
fn test_boundary_coordinates() {
    let width = fix(100_000_000);
    let height = fix(50_000_000);
    let rows = 10;
    let cols = 20;

    // Middle of the world.
    let (r, c) = world_to_grid_coords(fix(50_000_000), fix(25_000_000), width, height, rows, cols);
    assert_eq!(r, 5);
    assert_eq!(c, 10);

    // Exact right/bottom edge must clamp to the last valid index.
    let (r_edge, c_edge) = world_to_grid_coords(width, height, width, height, rows, cols);
    assert_eq!(r_edge, rows - 1, "Row index should be clamped to max valid index");
    assert_eq!(c_edge, cols - 1, "Col index should be clamped to max valid index");
}

#[test]
fn test_compress_spatial_grid_no_compression_needed() {
    // A 4x2 grid with target width 4 (no compression).
    let cells: Vec<CellPrior> = (0..8)
        .map(|i| {
            let mut c = CellPrior::default();
            c.mean = fix(i as i64 * 100_000);
            c
        })
        .collect();

    let result = compress_spatial_grid(&cells, 4, 2, 4);
    assert_eq!(result.len(), 8);
    assert_eq!(result[0].mean.micros(), 0);
    assert_eq!(result[3].mean.micros(), 300_000);
}

#[test]
fn test_compress_spatial_grid_halves_width() {
    // A 4x2 grid compressed to width 2:
    // row 0: [0.0, 0.2, 0.4, 0.6] -> [0.1, 0.5]
    // row 1: [0.8, 1.0, 1.2, 1.4] -> [0.9, 1.3]
    let mut cells = Vec::new();
    for row in 0..2 {
        for col in 0..4 {
            let mut c = CellPrior::default();
            c.mean = fix((row * 4 + col) as i64 * 200_000);
            cells.push(c);
        }
    }

    let result = compress_spatial_grid(&cells, 4, 2, 2);
    assert_eq!(result.len(), 4);

    assert_eq!(result[0].mean.micros(), 100_000, "avg of 0.0 and 0.2");
    assert_eq!(result[1].mean.micros(), 500_000, "avg of 0.4 and 0.6");
}
