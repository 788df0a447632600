//! Read-only snapshots of agent state for presentation.
//!
//! A [`DashboardState`] is a fully-owned copy of everything a dashboard
//! might show: pose, metrics, the flattened spatial grid, the last
//! planning breakdown, and the stored landmarks. Producing one never
//! mutates the agent.

use vstd::prelude::*;
use crate::agent::{AgentMode, Protozoa, agent_wf, mean_sense_s, mode_s};
use crate::environment::Field;
use crate::episodic::{LandV, occupied_s};
use crate::fixed::{Fix, fsub};
use crate::inference::HALF;
use crate::params::{LANDMARK_VISIT_RADIUS, TARGET_CONCENTRATION};
use crate::planning::ActionDetail;
use crate::spatial::{CellPrior, grid_cell_s};

verus! {

/// Ghost model of a [`LandmarkSnapshot`].
pub struct LandmarkSnapshotV {
    pub x: int,
    pub y: int,
    pub reliability: int,
    pub visit_count: u64,
}

/// A landmark as the dashboard sees it.
#[derive(Clone, Copy, PartialEq, Eq, Structural, Debug)]
pub struct LandmarkSnapshot {
    pub x: Fix,
    pub y: Fix,
    pub reliability: Fix,
    pub visit_count: u64,
}

impl View for LandmarkSnapshot {
    type V = LandmarkSnapshotV;

    open spec fn view(&self) -> LandmarkSnapshotV {
        LandmarkSnapshotV {
            x: self.x@,
            y: self.y@,
            reliability: self.reliability@,
            visit_count: self.visit_count,
        }
    }
}

/// The snapshot of one stored landmark.
pub open spec fn land_snapshot_s(l: LandV) -> LandmarkSnapshotV {
    LandmarkSnapshotV {
        x: l.x,
        y: l.y,
        reliability: l.reliability,
        visit_count: l.visit_count,
    }
}

/// Snapshot of agent state for dashboard rendering.
#[derive(Clone, Debug)]
pub struct DashboardState {
    /// Position x.
    pub x: Fix,
    /// Position y.
    pub y: Fix,
    /// Heading in micro-radians.
    pub angle: Fix,
    /// Forward speed.
    pub speed: Fix,
    /// Energy in `[0, 1]`.
    pub energy: Fix,
    /// Behavioral mode.
    pub mode: AgentMode,
    /// Mean sensed value minus the ideal target concentration.
    pub prediction_error: Fix,
    /// Spatial-grid precision at the agent's cell.
    pub precision: Fix,
    /// Left receptor reading.
    pub sensor_left: Fix,
    /// Right receptor reading.
    pub sensor_right: Fix,
    /// Tick-over-tick change of the mean sensed value.
    pub temporal_gradient: Fix,
    /// The spatial grid, flattened row by row.
    pub spatial_grid: Vec<CellPrior>,
    /// Grid width in cells.
    pub grid_width: usize,
    /// Grid height in cells.
    pub grid_height: usize,
    /// The last planning cycle's score breakdown.
    pub plan_details: Vec<ActionDetail>,
    /// Ticks until the next scheduled replan.
    pub ticks_until_replan: u64,
    /// The stored landmarks, in slot order.
    pub landmarks: Vec<LandmarkSnapshot>,
    /// How many landmarks are stored.
    pub landmark_count: usize,
    /// Index into `landmarks` of the current navigation target, if any.
    pub nav_target_index: Option<usize>,
    /// Sensor distance of the current morphology.
    pub sensor_dist: Fix,
    /// Sensor stereo angle of the current morphology.
    pub sensor_angle: Fix,
    /// Belief learning rate of the current morphology.
    pub belief_learning_rate: Fix,
    /// Homeostatic target of the current morphology.
    pub target_concentration: Fix,
    /// Accumulated surprise.
    pub cumulative_surprise: Fix,
    /// Accumulated frustration.
    pub cumulative_frustration: Fix,
}

impl DashboardState {
    /// A dashboard snapshot of the agent: a fully-owned, read-only copy.
    pub fn from_agent<F: Field>(agent: &Protozoa, field: &F) -> (r: DashboardState)
        requires
            agent_wf(agent@),
        ensures
            r.x@ == agent@.x,
            r.y@ == agent@.y,
            r.angle@ == agent@.angle,
            r.speed@ == agent@.speed,
            r.energy@ == agent@.energy,
            r.mode == mode_s(agent@),
            r.prediction_error@ == fsub(mean_sense_s(agent@), TARGET_CONCENTRATION as int),
            r.precision@ == grid_cell_s(agent@.grid, agent@.x, agent@.y).precision,
            r.sensor_left@ == agent@.val_l,
            r.sensor_right@ == agent@.val_r,
            r.temporal_gradient@ == agent@.temp_gradient,
            r.spatial_grid@.map_values(|c: CellPrior| c@) == agent@.grid.cells,
            r.grid_width == crate::params::GRID_WIDTH,
            r.grid_height == crate::params::GRID_HEIGHT,
            r.plan_details@.map_values(|d: ActionDetail| d@) == agent@.plan,
            r.landmarks@.map_values(|l: LandmarkSnapshot| l@) == occupied_s(agent@.memory, 0)
                .map_values(|l: LandV| land_snapshot_s(l)),
            r.landmark_count as nat == crate::episodic::count_from_s(agent@.memory, 0),
            r.sensor_dist@ == agent@.morph.sensor_dist,
            r.sensor_angle@ == agent@.morph.sensor_angle,
            r.belief_learning_rate@ == agent@.morph.belief_learning_rate,
            r.target_concentration@ == agent@.morph.target_concentration,
            r.cumulative_surprise@ == agent@.cum_surprise,
            r.cumulative_frustration@ == agent@.cum_frustration,
            match r.nav_target_index {
                Some(i) => mode_s(agent@) == AgentMode::GoalNav && i < r.landmarks@.len(),
                None => true,
            },
    {
        let mean_sense = agent.val_l.add(agent.val_r).mul(Fix::from_micros(HALF));
        let prediction_error = mean_sense.sub(Fix::from_micros(TARGET_CONCENTRATION));
        let precision = agent.spatial_priors.get_cell(agent.x, agent.y).precision;

        let spatial_grid = agent.spatial_priors.flatten();
        let (gw, gh) = agent.spatial_priors.dimensions();

        let stored = agent.episodic_memory.iter();
        let mut landmarks: Vec<LandmarkSnapshot> = Vec::new();
        let mut i: usize = 0;
        while i < stored.len()
            invariant
                i <= stored@.len(),
                landmarks@.len() == i as nat,
                forall|j: int| 0 <= j < i ==> landmarks@[j]@ == land_snapshot_s(stored@[j]@),
            decreases stored@.len() - i,
        {
            let lm = stored[i];
            landmarks.push(
                LandmarkSnapshot {
                    x: lm.x,
                    y: lm.y,
                    reliability: lm.reliability,
                    visit_count: lm.visit_count,
                },
            );
            i = i + 1;
        }
        proof {
            count_matches_occupied(agent@.memory, 0);
            assert(landmarks@.map_values(|l: LandmarkSnapshot| l@) =~= occupied_s(
                agent@.memory,
                0,
            ).map_values(|l: LandV| land_snapshot_s(l)));
        }

        let mode = agent.current_mode(field);
        let nav_target_index: Option<usize> = if matches!(mode, AgentMode::GoalNav) {
            let target = agent.episodic_memory.best_distant_landmark(
                agent.x,
                agent.y,
                Fix::from_micros(LANDMARK_VISIT_RADIUS),
            );
            match target {
                Some(t) => find_position(&landmarks, t.x, t.y),
                None => None,
            }
        } else {
            None
        };

        DashboardState {
            x: agent.x,
            y: agent.y,
            angle: agent.angle,
            speed: agent.speed,
            energy: agent.energy,
            mode,
            prediction_error,
            precision,
            sensor_left: agent.val_l,
            sensor_right: agent.val_r,
            temporal_gradient: agent.temp_gradient,
            spatial_grid,
            grid_width: gw,
            grid_height: gh,
            plan_details: agent.planner.last_plan_details(),
            ticks_until_replan: agent.ticks_until_replan(),
            landmarks,
            landmark_count: agent.episodic_memory.count(),
            nav_target_index,
            sensor_dist: agent.morphology.sensor_dist,
            sensor_angle: agent.morphology.sensor_angle,
            belief_learning_rate: agent.morphology.belief_learning_rate,
            target_concentration: agent.morphology.target_concentration,
            cumulative_surprise: agent.cumulative_surprise,
            cumulative_frustration: agent.cumulative_frustration,
        }
    }
}

/// The count of occupied slots equals the length of the occupied list.
proof fn count_matches_occupied(m: crate::episodic::MemV, i: nat)
    requires
        i <= m.len(),
    ensures
        crate::episodic::count_from_s(m, i) == occupied_s(m, i).len(),
    decreases m.len() - i,
{
    if i < m.len() {
        count_matches_occupied(m, i + 1);
    }
}

/// The index of the first snapshot at exactly the given position.
fn find_position(landmarks: &Vec<LandmarkSnapshot>, x: Fix, y: Fix) -> (r: Option<usize>)
    ensures
        match r {
            Some(i) => i < landmarks@.len() && landmarks@[i as int]@.x == x@
                && landmarks@[i as int]@.y == y@,
            None => true,
        },
{
    let mut i: usize = 0;
    while i < landmarks.len()
        invariant
            i <= landmarks@.len(),
        decreases landmarks@.len() - i,
    {
        let lx = landmarks[i].x;
        let ly = landmarks[i].y;
        if lx.le(x) && lx.ge(x) && ly.le(y) && ly.ge(y) {
            return Some(i);
        }
        i = i + 1;
    }
    None
}

} // verus!
