//! Deterministic lookahead planning over the spatial prior grid.
//!
//! Three discrete actions exist: turn left, go straight, turn right. The
//! planner evaluates each by an exhaustive straight-line rollout to a fixed
//! horizon, scoring visited grid cells by a pragmatic term (squared
//! distance of the learned mean from the homeostatic target) and an
//! epistemic term (accumulated novelty, the inverse of cell precision).
//! Scores follow the lower-is-better convention throughout: the chosen
//! action minimizes `total_efe = pragmatic_value + epistemic_value`, where
//! the epistemic value of an informative path is negative.

use vstd::prelude::*;
use crate::fixed::{Fix, SCALE, fadd, fsub, fmul, fdiv, fclamp, fmax};
use crate::params::{DISH_HEIGHT, DISH_WIDTH, MCTS_DEPTH, TARGET_CONCENTRATION};
use crate::spatial::{SpatialGrid, SpatialGridV, grid_cell_s, grid_wf};
use crate::trig::{ang_norm, cos_s, sin_s, cos_fix, sin_fix, normalize_angle};

verus! {

/// Heading change of one turn action, in micro-radians (0.4 rad).
pub const TURN_DELTA: i64 = 400_000;

/// Slowest speed assumed during rollouts.
pub const MIN_PLAN_SPEED: i64 = 500_000;

/// The three discrete actions.
#[derive(Clone, Copy, PartialEq, Eq, Structural, Debug)]
pub enum Action {
    /// Steer left by the turn delta.
    TurnLeft,
    /// Keep the current heading.
    Straight,
    /// Steer right by the turn delta.
    TurnRight,
}

/// The heading delta of an action.
pub open spec fn action_delta_s(a: Action) -> int {
    match a {
        Action::TurnLeft => TURN_DELTA as int,
        Action::Straight => 0,
        Action::TurnRight => -(TURN_DELTA as int),
    }
}

impl Action {
    /// The heading delta of this action.
    pub fn angle_delta(self) -> (r: Fix)
        ensures
            r@ == action_delta_s(self),
    {
        match self {
            Action::TurnLeft => Fix::from_micros(TURN_DELTA),
            Action::Straight => Fix::zero(),
            Action::TurnRight => Fix::from_micros(-TURN_DELTA),
        }
    }

    /// All three actions, in evaluation order.
    pub fn all() -> (r: Vec<Action>)
        ensures
            r@ == seq![Action::TurnLeft, Action::Straight, Action::TurnRight],
    {
        let mut v: Vec<Action> = Vec::new();
        v.push(Action::TurnLeft);
        v.push(Action::Straight);
        v.push(Action::TurnRight);
        proof {
            assert(v@ =~= seq![Action::TurnLeft, Action::Straight, Action::TurnRight]);
        }
        v
    }
}

/// Ghost model of an [`ActionDetail`].
pub struct ActionDetailV {
    pub action: Action,
    pub pragmatic_value: int,
    pub epistemic_value: int,
    pub total_efe: int,
}

/// Per-action score breakdown kept for introspection.
#[derive(Clone, Copy, PartialEq, Eq, Structural, Debug)]
pub struct ActionDetail {
    /// The evaluated action.
    pub action: Action,
    /// Accumulated squared distance from the homeostatic target.
    pub pragmatic_value: Fix,
    /// Negated accumulated novelty (lower means more informative).
    pub epistemic_value: Fix,
    /// The combined score the planner minimizes.
    pub total_efe: Fix,
}

impl View for ActionDetail {
    type V = ActionDetailV;

    open spec fn view(&self) -> ActionDetailV {
        ActionDetailV {
            action: self.action,
            pragmatic_value: self.pragmatic_value@,
            epistemic_value: self.epistemic_value@,
            total_efe: self.total_efe@,
        }
    }
}

/// Ghost model of an [`AgentState`].
pub struct AgentStateV {
    pub x: int,
    pub y: int,
    pub angle: int,
    pub speed: int,
    pub energy: int,
}

/// The slice of agent state the planner reads.
#[derive(Clone, Copy, PartialEq, Eq, Structural, Debug)]
pub struct AgentState {
    pub x: Fix,
    pub y: Fix,
    pub angle: Fix,
    pub speed: Fix,
    pub energy: Fix,
}

impl View for AgentState {
    type V = AgentStateV;

    open spec fn view(&self) -> AgentStateV {
        AgentStateV {
            x: self.x@,
            y: self.y@,
            angle: self.angle@,
            speed: self.speed@,
            energy: self.energy@,
        }
    }
}

impl AgentState {
    /// Capture the planner-visible slice of agent state.
    pub fn new(x: Fix, y: Fix, angle: Fix, speed: Fix, energy: Fix) -> (r: AgentState)
        ensures
            r@ == (AgentStateV { x: x@, y: y@, angle: angle@, speed: speed@, energy: energy@ }),
    {
        AgentState { x, y, angle, speed, energy }
    }
}

/// A straight-line rollout: advance `depth` more steps along the heading,
/// accumulating the pragmatic misfit and the novelty of visited cells.
pub open spec fn rollout_s(
    g: SpatialGridV,
    x: int,
    y: int,
    angle: int,
    speed: int,
    depth: nat,
    prag: int,
    nov: int,
) -> (int, int)
    decreases depth,
{
    if depth == 0 {
        (prag, nov)
    } else {
        let nx = fclamp(fadd(x, fmul(speed, cos_s(angle))), 0, DISH_WIDTH as int);
        let ny = fclamp(fadd(y, fmul(speed, sin_s(angle))), 0, DISH_HEIGHT as int);
        let cell = grid_cell_s(g, nx, ny);
        let d = fsub(cell.mean, TARGET_CONCENTRATION as int);
        rollout_s(
            g,
            nx,
            ny,
            angle,
            speed,
            (depth - 1) as nat,
            fadd(prag, fmul(d, d)),
            fadd(nov, fdiv(SCALE as int, cell.precision)),
        )
    }
}

/// The score breakdown of one action from the given state.
pub open spec fn action_detail_s(st: AgentStateV, g: SpatialGridV, a: Action) -> ActionDetailV {
    let angle = ang_norm(fadd(st.angle, action_delta_s(a)));
    let speed = fmax(st.speed, MIN_PLAN_SPEED as int);
    let scores = rollout_s(g, st.x, st.y, angle, speed, MCTS_DEPTH as nat, 0, 0);
    ActionDetailV {
        action: a,
        pragmatic_value: scores.0,
        epistemic_value: fsub(0, scores.1),
        total_efe: fadd(scores.0, fsub(0, scores.1)),
    }
}

/// The planner's score table: all three actions in evaluation order.
pub open spec fn plan_details_s(st: AgentStateV, g: SpatialGridV) -> Seq<ActionDetailV> {
    seq![
        action_detail_s(st, g, Action::TurnLeft),
        action_detail_s(st, g, Action::Straight),
        action_detail_s(st, g, Action::TurnRight),
    ]
}

/// The chosen action: the first one with the strictly smallest combined
/// score, scores compared in evaluation order.
pub open spec fn plan_action_s(st: AgentStateV, g: SpatialGridV) -> Action {
    let tl = action_detail_s(st, g, Action::TurnLeft).total_efe;
    let st_ = action_detail_s(st, g, Action::Straight).total_efe;
    let tr = action_detail_s(st, g, Action::TurnRight).total_efe;
    if st_ < tl {
        if tr < st_ {
            Action::TurnRight
        } else {
            Action::Straight
        }
    } else {
        if tr < tl {
            Action::TurnRight
        } else {
            Action::TurnLeft
        }
    }
}

/// The rollout planner; it keeps the score breakdown of its last plan.
#[derive(Clone, Debug)]
pub struct MCTSPlanner {
    details: Vec<ActionDetail>,
}

impl View for MCTSPlanner {
    type V = Seq<ActionDetailV>;

    closed spec fn view(&self) -> Seq<ActionDetailV> {
        self.details@.map_values(|d: ActionDetail| d@)
    }
}

/// One action's rollout scores (mirrors [`action_detail_s`]).
#[verifier::loop_isolation(false)]
fn eval_action(st: &AgentState, grid: &SpatialGrid, a: Action) -> (r: ActionDetail)
    requires
        grid_wf(grid@),
    ensures
        r@ == action_detail_s(st@, grid@, a),
{
    let angle = normalize_angle(st.angle.add(a.angle_delta()));
    let speed = st.speed.max(Fix::from_micros(MIN_PLAN_SPEED));
    let cs = cos_fix(angle);
    let sn = sin_fix(angle);
    let lo = Fix::zero();
    let w = Fix::from_micros(DISH_WIDTH);
    let h = Fix::from_micros(DISH_HEIGHT);
    let target = Fix::from_micros(TARGET_CONCENTRATION);
    let one = Fix::from_micros(SCALE);
    let mut x = st.x;
    let mut y = st.y;
    let mut prag = Fix::zero();
    let mut nov = Fix::zero();
    let mut d: usize = 0;
    while d < MCTS_DEPTH
        invariant
            d <= MCTS_DEPTH,
            rollout_s(
                grid@,
                x@,
                y@,
                angle@,
                speed@,
                (MCTS_DEPTH - d) as nat,
                prag@,
                nov@,
            ) == rollout_s(grid@, st@.x, st@.y, angle@, speed@, MCTS_DEPTH as nat, 0, 0),
        decreases MCTS_DEPTH - d,
    {
        x = x.add(speed.mul(cs)).clamp(lo, w);
        y = y.add(speed.mul(sn)).clamp(lo, h);
        let cell = grid.get_cell(x, y);
        let diff = cell.mean.sub(target);
        prag = prag.add(diff.mul(diff));
        nov = nov.add(one.div(cell.precision));
        d = d + 1;
    }
    let epistemic = Fix::zero().sub(nov);
    ActionDetail {
        action: a,
        pragmatic_value: prag,
        epistemic_value: epistemic,
        total_efe: prag.add(epistemic),
    }
}

impl MCTSPlanner {
    /// A fresh planner with no recorded plan.
    pub fn new() -> (r: MCTSPlanner)
        ensures
            r@ == Seq::<ActionDetailV>::empty(),
    {
        let r = MCTSPlanner { details: Vec::new() };
        proof {
            assert(r@ =~= Seq::<ActionDetailV>::empty());
        }
        r
    }

    /// Evaluate all three actions by rollouts from the given state and
    /// return the one with the lowest combined score; the per-action
    /// breakdown is retained for introspection.
    pub fn plan(&mut self, state: &AgentState, grid: &SpatialGrid) -> (r: Action)
        requires
            grid_wf(grid@),
        ensures
            r == plan_action_s(state@, grid@),
            final(self)@ == plan_details_s(state@, grid@),
    {
        let dl = eval_action(state, grid, Action::TurnLeft);
        let ds = eval_action(state, grid, Action::Straight);
        let dr = eval_action(state, grid, Action::TurnRight);
        let mut details: Vec<ActionDetail> = Vec::new();
        details.push(dl);
        details.push(ds);
        details.push(dr);
        self.details = details;
        proof {
            assert(self@ =~= plan_details_s(state@, grid@));
        }
        let mut best = dl;
        if ds.total_efe.lt(best.total_efe) {
            best = ds;
        }
        if dr.total_efe.lt(best.total_efe) {
            best = dr;
        }
        best.action
    }

    /// The score breakdown of the last planning cycle.
    pub fn last_plan_details(&self) -> (r: Vec<ActionDetail>)
        ensures
            r@.map_values(|d: ActionDetail| d@) == self@,
    {
        let mut out: Vec<ActionDetail> = Vec::new();
        let mut i: usize = 0;
        while i < self.details.len()
            invariant
                i <= self.details@.len(),
                out@.len() == i as nat,
                forall|j: int| 0 <= j < i ==> out@[j] == self.details@[j],
            decreases self.details@.len() - i,
        {
            out.push(self.details[i]);
            i = i + 1;
        }
        proof {
            assert(out@.map_values(|d: ActionDetail| d@) =~= self@);
        }
        out
    }
}

} // verus!
