//! Plain-text rendering of the organism's state: ASCII heat maps of the
//! spatial memory and the field, and the dashboard's text panels.
//!
//! Everything here produces owned strings from read-only state; screen
//! layout and drawing belong to the embedding process. Planner scores use
//! the lower-is-better convention throughout, matching the planner itself.

use vstd::prelude::*;
use vstd::string::{StrSliceExecFns, StringExecFns};
use crate::environment::{Field, PetriDish, dish_conc_s};
use crate::fixed::{Fix, SCALE, fcl, fclamp, fmin, fadd, fdiv, dtz};
use crate::fmt::{digits_s, fix_str_s, pad_left_s, repeat_s, fix_string, pad_left, u64_string};
use crate::params::{MCTS_DEPTH, MCTS_ROLLOUTS, MIN_PRECISION};
use crate::planning::{Action, ActionDetail, ActionDetailV, action_delta_s};
use crate::spatial::{CellPrior, CellPriorV, cell_default_s};

verus! {

/// The ASCII density ramp for spatial-memory cells, sparse to dense.
pub open spec fn density_char_s(mean: int) -> char {
    let idx = (fclamp(mean, 0, SCALE as int) * 8 + 500_000) / 1_000_000;
    if idx <= 0 {
        ' '
    } else if idx == 1 {
        '.'
    } else if idx == 2 {
        ','
    } else if idx == 3 {
        ':'
    } else if idx == 4 {
        ';'
    } else if idx == 5 {
        '+'
    } else if idx == 6 {
        '*'
    } else if idx == 7 {
        '#'
    } else {
        '@'
    }
}

/// The one-character string of the density ramp for a cell mean.
fn density_str(mean: Fix) -> (r: &'static str)
    ensures
        r@ == seq![density_char_s(mean@)],
{
    let v: i64 = mean.micros();
    let c: i64 = if v < 0 {
        0
    } else if v > SCALE {
        SCALE
    } else {
        v
    };
    let idx: i64 = (c * 8 + 500_000) / 1_000_000;
    let r: &'static str = if idx <= 0 {
        " "
    } else if idx == 1 {
        "."
    } else if idx == 2 {
        ","
    } else if idx == 3 {
        ":"
    } else if idx == 4 {
        ";"
    } else if idx == 5 {
        "+"
    } else if idx == 6 {
        "*"
    } else if idx == 7 {
        "#"
    } else {
        "@"
    };
    proof {
        reveal_strlit(" ");
        reveal_strlit(".");
        reveal_strlit(",");
        reveal_strlit(":");
        reveal_strlit(";");
        reveal_strlit("+");
        reveal_strlit("*");
        reveal_strlit("#");
        reveal_strlit("@");
        assert(r@ =~= seq![density_char_s(mean@)]);
    }
    r
}

/// The character drawn for one grid position: the agent marker, the
/// density of the cell's mean, or blank past the end of the cell list.
pub open spec fn grid_char_s(
    cells: Seq<CellPriorV>,
    width: int,
    row: int,
    col: int,
    agent_cell: Option<(usize, usize)>,
) -> char {
    let idx = row * width + col;
    if agent_cell == Some((row as usize, col as usize)) {
        '\u{25cb}'
    } else if 0 <= idx < cells.len() {
        density_char_s(cells[idx].mean)
    } else {
        ' '
    }
}

/// One rendered row of the spatial grid.
pub open spec fn grid_line_s(
    cells: Seq<CellPriorV>,
    width: nat,
    row: int,
    agent_cell: Option<(usize, usize)>,
) -> Seq<char> {
    Seq::new(width, |col: int| grid_char_s(cells, width as int, row, col, agent_cell))
}

/// Render the spatial grid as ASCII lines; `agent_cell` is the (row, col)
/// of the agent's current cell, if known, drawn as a circle.
#[verifier::loop_isolation(false)]
pub fn render_spatial_grid_lines(
    cells: &Vec<CellPrior>,
    width: usize,
    height: usize,
    agent_cell: Option<(usize, usize)>,
) -> (r: Vec<String>)
    ensures
        r@.len() == height as nat,
        forall|i: int|
            0 <= i < height ==> r@[i]@ == grid_line_s(
                cells@.map_values(|c: CellPrior| c@),
                width as nat,
                i,
                agent_cell,
            ),
{
    let ghost cv = cells@.map_values(|c: CellPrior| c@);
    let mut lines: Vec<String> = Vec::new();
    let mut row: usize = 0;
    while row < height
        invariant
            row <= height,
            lines@.len() == row as nat,
            forall|i: int|
                0 <= i < row ==> lines@[i]@ == grid_line_s(cv, width as nat, i, agent_cell),
        decreases height - row,
    {
        let mut line = String::new();
        let mut col: usize = 0;
        while col < width
            invariant
                col <= width,
                line@.len() == col as nat,
                forall|j: int|
                    0 <= j < col ==> line@[j] == grid_char_s(
                        cv,
                        width as int,
                        row as int,
                        j,
                        agent_cell,
                    ),
            decreases width - col,
        {
            let is_agent = match agent_cell {
                Some(rc) => rc.0 == row && rc.1 == col,
                None => false,
            };
            proof {
                assert((row as u128) as int * (width as u128) as int <= 0xFFFF_FFFF_FFFF_FFFF
                    * 0xFFFF_FFFF_FFFF_FFFF) by (nonlinear_arith)
                    requires
                        0 <= (row as u128) as int <= 0xFFFF_FFFF_FFFF_FFFF,
                        0 <= (width as u128) as int <= 0xFFFF_FFFF_FFFF_FFFF,
                ;
            }
            let idx: u128 = (row as u128) * (width as u128) + (col as u128);
            if is_agent {
                line.append("\u{25cb}");
                proof {
                    reveal_strlit("\u{25cb}");
                }
            } else if idx < cells.len() as u128 {
                let iu: usize = idx as usize;
                line.append(density_str(cells[iu].mean));
            } else {
                line.append(" ");
                proof {
                    reveal_strlit(" ");
                }
            }
            col = col + 1;
        }
        lines.push(line);
        proof {
            assert(lines@[row as int]@ =~= grid_line_s(cv, width as nat, row as int, agent_cell));
        }
        row = row + 1;
    }
    lines
}

/// Forward accumulation over the columns `[col, end)` of one row: the
/// clamped running sum of the cell means and the count of cells present.
pub open spec fn span_acc_s(
    cells: Seq<CellPriorV>,
    row: int,
    orig_width: int,
    col: int,
    end: int,
    sum: int,
    count: int,
) -> (int, int)
    decreases end - col,
{
    if col >= end {
        (sum, count)
    } else {
        let idx = row * orig_width + col;
        if 0 <= idx < cells.len() {
            span_acc_s(cells, row, orig_width, col + 1, end, fadd(sum, cells[idx].mean), count + 1)
        } else {
            span_acc_s(cells, row, orig_width, col + 1, end, sum, count)
        }
    }
}

/// One compressed cell: the span's mean average and the default precision.
pub open spec fn compress_cell_s(
    cells: Seq<CellPriorV>,
    row: int,
    orig_width: int,
    target_width: int,
    tcol: int,
) -> CellPriorV {
    let start = (tcol * orig_width) / target_width;
    let end0 = ((tcol + 1) * orig_width) / target_width;
    let end = fmin(end0, orig_width);
    let sc = span_acc_s(cells, row, orig_width, start, end, 0, 0);
    if sc.1 > 0 {
        CellPriorV { mean: fdiv(sc.0, fcl(sc.1 * SCALE as int)), precision: MIN_PRECISION as int }
    } else {
        cell_default_s()
    }
}

/// Compress the spatial grid horizontally by averaging adjacent cells; a
/// target width at least the original width returns the cells unchanged.
#[verifier::loop_isolation(false)]
pub fn compress_spatial_grid(
    cells: &Vec<CellPrior>,
    orig_width: usize,
    orig_height: usize,
    target_width: usize,
) -> (r: Vec<CellPrior>)
    requires
        0 < target_width,
        orig_width <= 10_000,
        orig_height <= 10_000,
    ensures
        target_width >= orig_width ==> r@ == cells@,
        target_width < orig_width ==> r@.len() == orig_height * target_width
            && (forall|k: int|
            0 <= k < r@.len() ==> #[trigger] r@[k]@ == compress_cell_s(
                cells@.map_values(|c: CellPrior| c@),
                k / (target_width as int),
                orig_width as int,
                target_width as int,
                k % (target_width as int),
            )),
{
    if target_width >= orig_width {
        let mut out: Vec<CellPrior> = Vec::new();
        let mut i: usize = 0;
        while i < cells.len()
            invariant
                i <= cells@.len(),
                out@ == cells@.subrange(0, i as int),
            decreases cells@.len() - i,
        {
            out.push(cells[i]);
            proof {
                assert(out@ =~= cells@.subrange(0, i + 1 as int));
            }
            i = i + 1;
        }
        proof {
            assert(out@ =~= cells@);
        }
        return out;
    }
    let ghost cv = cells@.map_values(|c: CellPrior| c@);
    let mut out: Vec<CellPrior> = Vec::new();
    let mut row: usize = 0;
    while row < orig_height
        invariant
            row <= orig_height,
            out@.len() == row * target_width,
            forall|k: int|
                0 <= k < out@.len() ==> #[trigger] out@[k]@ == compress_cell_s(
                    cv,
                    k / (target_width as int),
                    orig_width as int,
                    target_width as int,
                    k % (target_width as int),
                ),
        decreases orig_height - row,
    {
        let mut tcol: usize = 0;
        while tcol < target_width
            invariant
                tcol <= target_width,
                out@.len() == row * target_width + tcol,
                forall|k: int|
                    0 <= k < out@.len() ==> #[trigger] out@[k]@ == compress_cell_s(
                        cv,
                        k / (target_width as int),
                        orig_width as int,
                        target_width as int,
                        k % (target_width as int),
                    ),
            decreases target_width - tcol,
        {
            proof {
                assert((tcol as int) * (orig_width as int) <= 10_000 * 10_000
                    && 0 <= (tcol as int) * (orig_width as int)
                    && ((tcol + 1) as int) * (orig_width as int) <= 10_001 * 10_000
                    && 0 <= ((tcol + 1) as int) * (orig_width as int)
                    && (tcol as int) * (orig_width as int) <= ((tcol + 1) as int) * (
                orig_width as int)) by (nonlinear_arith)
                    requires
                        0 <= tcol as int <= 10_000,
                        0 <= orig_width as int <= 10_000,
                ;
            }
            let start: usize = (tcol * orig_width) / target_width;
            let end0: usize = ((tcol + 1) * orig_width) / target_width;
            let end: usize = if end0 < orig_width {
                end0
            } else {
                orig_width
            };
            proof {
                vstd::arithmetic::div_mod::lemma_div_is_ordered(
                    (tcol * orig_width) as int,
                    ((tcol + 1) * orig_width) as int,
                    target_width as int,
                );
                assert(((tcol * orig_width) as int) < (target_width as int) * (orig_width as int))
                    by (nonlinear_arith)
                    requires
                        0 <= tcol as int,
                        (tcol as int) < target_width as int,
                        0 < orig_width as int,
                        (tcol * orig_width) as int == (tcol as int) * (orig_width as int),
                ;
                vstd::arithmetic::div_mod::lemma_multiply_divide_lt(
                    (tcol * orig_width) as int,
                    target_width as int,
                    orig_width as int,
                );
            }
            let mut sum = Fix::zero();
            let mut count: usize = 0;
            let mut col = start;
            while col < end
                invariant
                    start <= col <= end,
                    count <= col,
                    span_acc_s(
                        cv,
                        row as int,
                        orig_width as int,
                        col as int,
                        end as int,
                        sum@,
                        count as int,
                    ) == span_acc_s(
                        cv,
                        row as int,
                        orig_width as int,
                        start as int,
                        end as int,
                        0,
                        0,
                    ),
                decreases end - col,
            {
                proof {
                    assert((row as u128) as int * (orig_width as u128) as int
                        <= 0xFFFF_FFFF_FFFF_FFFF * 0xFFFF_FFFF_FFFF_FFFF) by (nonlinear_arith)
                        requires
                            0 <= (row as u128) as int <= 0xFFFF_FFFF_FFFF_FFFF,
                            0 <= (orig_width as u128) as int <= 0xFFFF_FFFF_FFFF_FFFF,
                    ;
                }
                let idx: u128 = (row as u128) * (orig_width as u128) + (col as u128);
                if idx < cells.len() as u128 {
                    let iu: usize = idx as usize;
                    sum = sum.add(cells[iu].mean);
                    count = count + 1;
                }
                col = col + 1;
            }
            let compressed = if count > 0 {
                CellPrior {
                    mean: sum.div(Fix::from_int(count as i64)),
                    precision: Fix::from_micros(MIN_PRECISION),
                }
            } else {
                CellPrior::unvisited()
            };
            let ghost k0: int = out@.len() as int;
            out.push(compressed);
            proof {
                vstd::arithmetic::div_mod::lemma_fundamental_div_mod_converse(
                    k0,
                    target_width as int,
                    row as int,
                    tcol as int,
                );
                assert(out@[k0]@ == compress_cell_s(
                    cv,
                    k0 / (target_width as int),
                    orig_width as int,
                    target_width as int,
                    k0 % (target_width as int),
                ));
            }
            tcol = tcol + 1;
        }
        row = row + 1;
        proof {
            assert(out@.len() == row * target_width) by (nonlinear_arith)
                requires
                    out@.len() == (row - 1) * (target_width as int) + target_width as int,
            ;
        }
    }
    out
}


/// Grid row and column of a world position, clamped to valid indices;
/// degenerate grids map everything to the origin cell.
pub open spec fn w2g_s(x: int, y: int, width: int, height: int, rows: int, cols: int) -> (
    int,
    int,
) {
    if rows <= 0 || cols <= 0 {
        (0, 0)
    } else {
        let r = if y <= 0 || height <= 0 {
            0
        } else {
            fmin((y * rows) / height, rows - 1)
        };
        let c = if x <= 0 || width <= 0 {
            0
        } else {
            fmin((x * cols) / width, cols - 1)
        };
        (r, c)
    }
}

/// Map a world position to a (row, column) cell of an ASCII grid; total
/// and clamped to valid indices.
pub fn world_to_grid_coords(x: Fix, y: Fix, width: Fix, height: Fix, rows: usize, cols: usize)
    -> (r: (usize, usize))
    ensures
        (r.0 as int, r.1 as int) == w2g_s(x@, y@, width@, height@, rows as int, cols as int),
        rows > 0 ==> r.0 < rows,
        cols > 0 ==> r.1 < cols,
{
    if rows == 0 || cols == 0 {
        return (0, 0);
    }
    let row = axis_cell(y, height, rows);
    let col = axis_cell(x, width, cols);
    (row, col)
}

/// Clamped coordinate-to-index mapping along one axis.
fn axis_cell(pos: Fix, extent: Fix, n: usize) -> (r: usize)
    requires
        n > 0,
    ensures
        r as int == if pos@ <= 0 || extent@ <= 0 {
            0int
        } else {
            fmin((pos@ * n as int) / extent@, n as int - 1)
        },
        r < n,
{
    let p = pos.micros();
    let e = extent.micros();
    if p <= 0 || e <= 0 {
        0
    } else {
        proof {
            assert((p as u128) as int * (n as u128) as int <= 0xFFFF_FFFF_FFFF_FFFF
                * 0xFFFF_FFFF_FFFF_FFFF) by (nonlinear_arith)
                requires
                    0 <= (p as u128) as int <= 0xFFFF_FFFF_FFFF_FFFF,
                    0 <= (n as u128) as int <= 0xFFFF_FFFF_FFFF_FFFF,
            ;
        }
        let q: u128 = ((p as u128) * (n as u128)) / (e as u128);
        proof {
            assert(q as int == (pos@ * n as int) / extent@);
        }
        let m: u128 = (n - 1) as u128;
        if q > m {
            n - 1
        } else {
            q as usize
        }
    }
}

/// The display name of an action.
pub open spec fn action_name_s(a: Action) -> Seq<char> {
    match a {
        Action::TurnLeft => seq!['L'],
        Action::Straight => seq!['S'],
        Action::TurnRight => seq!['R'],
    }
}

/// The one-letter display name of an action.
pub fn action_to_name(action: Action) -> (r: &'static str)
    ensures
        r@ == action_name_s(action),
{
    let r: &'static str = match action {
        Action::TurnLeft => "L",
        Action::Straight => "S",
        Action::TurnRight => "R",
    };
    proof {
        reveal_strlit("L");
        reveal_strlit("S");
        reveal_strlit("R");
        assert(r@ =~= action_name_s(action));
    }
    r
}

/// The compass octant of an angle in micro-radians: the angle shifted by
/// an eighth of a quarter turn, floor-divided into eighth turns, reduced
/// into `[0, 8)`.
pub open spec fn octant_s(angle: int) -> int {
    let t = angle + 392_699;
    let q = if t >= 0 {
        t / 785_398
    } else {
        -((-t + 785_397) / 785_398)
    };
    if q >= 0 {
        q % 8
    } else {
        let m = (-q) % 8;
        if m == 0 {
            0
        } else {
            8 - m
        }
    }
}

/// The arrow glyph of a compass octant.
pub open spec fn arrow_s(o: int) -> Seq<char> {
    if o == 0 {
        "\u{2192}"@
    } else if o == 1 {
        "\u{2197}"@
    } else if o == 2 {
        "\u{2191}"@
    } else if o == 3 {
        "\u{2196}"@
    } else if o == 4 {
        "\u{2190}"@
    } else if o == 5 {
        "\u{2199}"@
    } else if o == 6 {
        "\u{2193}"@
    } else {
        "\u{2198}"@
    }
}

/// The direction arrow of an action applied on top of a base heading.
fn action_to_arrow(action: Action, base_angle: Fix) -> (r: &'static str)
    ensures
        r@ == arrow_s(octant_s(fadd(base_angle@, action_delta_s(action)))),
{
    let a = base_angle.add(action.angle_delta());
    let t: i64 = a.micros() + 392_699;
    let q: i64 = if t >= 0 {
        t / 785_398
    } else {
        -((-t + 785_397) / 785_398)
    };
    let o: i64 = if q >= 0 {
        q % 8
    } else {
        let m = (-q) % 8;
        if m == 0 {
            0
        } else {
            8 - m
        }
    };
    if o == 0 {
        "\u{2192}"
    } else if o == 1 {
        "\u{2197}"
    } else if o == 2 {
        "\u{2191}"
    } else if o == 3 {
        "\u{2196}"
    } else if o == 4 {
        "\u{2190}"
    } else if o == 5 {
        "\u{2199}"
    } else if o == 6 {
        "\u{2193}"
    } else {
        "\u{2198}"
    }
}

/// The score entry the planner would favor: the first one with the
/// strictly smallest combined score (lower is better).
pub open spec fn best_detail_s(ds: Seq<ActionDetailV>, i: nat, acc: ActionDetailV)
    -> ActionDetailV
    decreases ds.len() - i,
{
    if i >= ds.len() {
        acc
    } else {
        let next = if ds[i as int].total_efe < acc.total_efe {
            ds[i as int]
        } else {
            acc
        };
        best_detail_s(ds, i + 1, next)
    }
}

/// The planning summary lines.
pub open spec fn mcts_summary_s(ds: Seq<ActionDetailV>, ticks_until_replan: u64) -> Seq<
    Seq<char>,
> {
    if ds.len() == 0 {
        seq!["No plan data"@]
    } else {
        let best = best_detail_s(ds, 1, ds[0]);
        seq![
            "Best: "@ + arrow_s(octant_s(fadd(0, action_delta_s(best.action)))) + " ("@
                + action_name_s(best.action) + ")"@,
            "G: "@ + fix_str_s(best.total_efe, 2),
            "\u{251c}\u{2500}Prag: "@ + fix_str_s(best.pragmatic_value, 2),
            "\u{2514}\u{2500}Epis: "@ + fix_str_s(best.epistemic_value, 2),
            "Rolls: "@ + digits_s(MCTS_ROLLOUTS as int),
            "Depth: "@ + digits_s(MCTS_DEPTH as int),
            "Replan: "@ + digits_s(ticks_until_replan as int),
        ]
    }
}

/// Format the planning summary: the action the planner favors (lowest
/// combined score), its score breakdown, the rollout budgets, and the
/// replan countdown.
#[verifier::loop_isolation(false)]
pub fn format_mcts_summary(details: &Vec<ActionDetail>, ticks_until_replan: u64) -> (r: Vec<
    String,
>)
    ensures
        r@.map_values(|s: String| s@) == mcts_summary_s(
            details@.map_values(|d: ActionDetail| d@),
            ticks_until_replan,
        ),
{
    let ghost dv = details@.map_values(|d: ActionDetail| d@);
    let mut lines: Vec<String> = Vec::new();
    if details.len() == 0 {
        let mut l = String::new();
        l.append("No plan data");
        lines.push(l);
        proof {
            assert(lines@.map_values(|s: String| s@) =~= mcts_summary_s(dv, ticks_until_replan));
        }
        return lines;
    }
    let mut best = details[0];
    let mut i: usize = 1;
    while i < details.len()
        invariant
            1 <= i <= details@.len(),
            best_detail_s(dv, i as nat, best@) == best_detail_s(dv, 1, dv[0]),
        decreases details@.len() - i,
    {
        if details[i].total_efe.lt(best.total_efe) {
            best = details[i];
        }
        i = i + 1;
    }
    proof {
        assert(best@ == best_detail_s(dv, 1, dv[0]));
    }

    let mut l0 = String::new();
    l0.append("Best: ");
    l0.append(action_to_arrow(best.action, Fix::zero()));
    l0.append(" (");
    l0.append(action_to_name(best.action));
    l0.append(")");
    lines.push(l0);

    let mut l1 = String::new();
    l1.append("G: ");
    let g = fix_string(best.total_efe, 2);
    l1.append(g.as_str());
    lines.push(l1);

    let mut l2 = String::new();
    l2.append("\u{251c}\u{2500}Prag: ");
    let p = fix_string(best.pragmatic_value, 2);
    l2.append(p.as_str());
    lines.push(l2);

    let mut l3 = String::new();
    l3.append("\u{2514}\u{2500}Epis: ");
    let e = fix_string(best.epistemic_value, 2);
    l3.append(e.as_str());
    lines.push(l3);

    let mut l4 = String::new();
    l4.append("Rolls: ");
    let rolls = u64_string(MCTS_ROLLOUTS as u64);
    l4.append(rolls.as_str());
    lines.push(l4);

    let mut l5 = String::new();
    l5.append("Depth: ");
    let depth = u64_string(MCTS_DEPTH as u64);
    l5.append(depth.as_str());
    lines.push(l5);

    let mut l6 = String::new();
    l6.append("Replan: ");
    let t = u64_string(ticks_until_replan);
    l6.append(t.as_str());
    lines.push(l6);

    proof {
        assert(lines@.map_values(|s: String| s@) =~~= mcts_summary_s(dv, ticks_until_replan));
    }
    lines
}


/// The display name of a behavioral mode.
pub open spec fn mode_name_s(mode: crate::agent::AgentMode) -> Seq<char> {
    match mode {
        crate::agent::AgentMode::Exploring => "EXPLORING"@,
        crate::agent::AgentMode::Exploiting => "EXPLOITING"@,
        crate::agent::AgentMode::Panicking => "PANICKING"@,
        crate::agent::AgentMode::Exhausted => "EXHAUSTED"@,
        crate::agent::AgentMode::GoalNav => "GOAL-NAV"@,
    }
}

/// A micro-unit value scaled up and rounded to a whole number, floored
/// at zero (for bar widths and percentages).
pub open spec fn round_scaled_s(v: int, mult: int) -> int {
    if v <= 0 {
        0
    } else {
        (v * mult + 500_000) / 1_000_000
    }
}

/// The six metrics lines: energy bar with percentage, mode, prediction
/// error and precision, speed and heading, both readings, and the
/// temporal gradient.
pub open spec fn metrics_overlay_s(
    energy: int,
    mode: crate::agent::AgentMode,
    prediction_error: int,
    precision: int,
    speed: int,
    angle_deg: int,
    sensor_left: int,
    sensor_right: int,
    temporal_gradient: int,
) -> Seq<Seq<char>> {
    let filled = fmin(round_scaled_s(energy, 10), 10);
    let bar = repeat_s('\u{2588}', filled as nat) + repeat_s('\u{2591}', (10 - filled) as nat);
    let pct = round_scaled_s(energy, 100);
    seq![
        "E:["@ + bar + "] "@ + pad_left_s(digits_s(pct), 3) + "%"@,
        "Mode: "@ + mode_name_s(mode),
        "PE:"@ + pad_left_s(fix_str_s(prediction_error, 2), 6) + "  \u{3c1}:"@ + fix_str_s(
            precision,
            2,
        ),
        "v:"@ + pad_left_s(fix_str_s(speed, 1), 4) + "  \u{3b8}:"@ + pad_left_s(
            fix_str_s(angle_deg, 0),
            4,
        ) + "\u{b0}"@,
        "L:"@ + fix_str_s(sensor_left, 2) + "  R:"@ + fix_str_s(sensor_right, 2),
        "\u{2202}t:"@ + pad_left_s(fix_str_s(temporal_gradient, 2), 6),
    ]
}

/// The display name of a behavioral mode.
fn mode_name(mode: crate::agent::AgentMode) -> (r: &'static str)
    ensures
        r@ == mode_name_s(mode),
{
    match mode {
        crate::agent::AgentMode::Exploring => "EXPLORING",
        crate::agent::AgentMode::Exploiting => "EXPLOITING",
        crate::agent::AgentMode::Panicking => "PANICKING",
        crate::agent::AgentMode::Exhausted => "EXHAUSTED",
        crate::agent::AgentMode::GoalNav => "GOAL-NAV",
    }
}

/// A micro-unit value scaled up and rounded (exec of [`round_scaled_s`]).
fn round_scaled(v: Fix, mult: i64) -> (r: u64)
    requires
        0 < mult <= 1000,
    ensures
        r as int == round_scaled_s(v@, mult as int),
{
    let m = v.micros();
    if m <= 0 {
        0
    } else {
        proof {
            assert((m as int) * (mult as int) <= 1_000_000_000_000 * 1_000) by (nonlinear_arith)
                requires
                    0 < m as int <= 1_000_000_000_000,
                    0 < mult as int <= 1_000,
            ;
            assert(0 <= (m as int) * (mult as int)) by (nonlinear_arith)
                requires
                    0 < m as int,
                    0 < mult as int,
            ;
        }
        ((m * mult + 500_000) / 1_000_000) as u64
    }
}

/// Format the metrics overlay for the dashboard's agent panel: energy bar
/// and percentage, mode, prediction error with precision, speed with
/// heading in degrees, both sensor readings, and the temporal gradient.
pub fn format_metrics_overlay(
    energy: Fix,
    mode: crate::agent::AgentMode,
    prediction_error: Fix,
    precision: Fix,
    speed: Fix,
    angle_deg: Fix,
    sensor_left: Fix,
    sensor_right: Fix,
    temporal_gradient: Fix,
) -> (r: Vec<String>)
    ensures
        r@.map_values(|s: String| s@) == metrics_overlay_s(
            energy@,
            mode,
            prediction_error@,
            precision@,
            speed@,
            angle_deg@,
            sensor_left@,
            sensor_right@,
            temporal_gradient@,
        ),
{
    let filled_raw = round_scaled(energy, 10);
    let filled: usize = if filled_raw > 10 {
        10
    } else {
        filled_raw as usize
    };
    let pct = round_scaled(energy, 100);

    proof {
        reveal_strlit("\u{2588}");
        reveal_strlit("\u{2591}");
    }
    let mut l0 = String::new();
    l0.append("E:[");
    let fill = crate::fmt::repeat_str("\u{2588}", filled);
    l0.append(fill.as_str());
    let rest = crate::fmt::repeat_str("\u{2591}", 10 - filled);
    l0.append(rest.as_str());
    l0.append("] ");
    let pcts = pad_left(u64_string(pct), 3);
    l0.append(pcts.as_str());
    l0.append("%");

    let mut l1 = String::new();
    l1.append("Mode: ");
    l1.append(mode_name(mode));

    let mut l2 = String::new();
    l2.append("PE:");
    let pe = pad_left(fix_string(prediction_error, 2), 6);
    l2.append(pe.as_str());
    l2.append("  \u{3c1}:");
    let pr = fix_string(precision, 2);
    l2.append(pr.as_str());

    let mut l3 = String::new();
    l3.append("v:");
    let sp = pad_left(fix_string(speed, 1), 4);
    l3.append(sp.as_str());
    l3.append("  \u{3b8}:");
    let ang = pad_left(fix_string(angle_deg, 0), 4);
    l3.append(ang.as_str());
    l3.append("\u{b0}");

    let mut l4 = String::new();
    l4.append("L:");
    let sl = fix_string(sensor_left, 2);
    l4.append(sl.as_str());
    l4.append("  R:");
    let sr = fix_string(sensor_right, 2);
    l4.append(sr.as_str());

    let mut l5 = String::new();
    l5.append("\u{2202}t:");
    let tg = pad_left(fix_string(temporal_gradient, 2), 6);
    l5.append(tg.as_str());

    let mut lines: Vec<String> = Vec::new();
    lines.push(l0);
    lines.push(l1);
    lines.push(l2);
    lines.push(l3);
    lines.push(l4);
    lines.push(l5);
    proof {
        assert(lines@.map_values(|s: String| s@) =~~= metrics_overlay_s(
            energy@,
            mode,
            prediction_error@,
            precision@,
            speed@,
            angle_deg@,
            sensor_left@,
            sensor_right@,
            temporal_gradient@,
        ));
    }
    lines
}

/// One row of the landmarks table.
pub open spec fn landmark_row_s(
    i: int,
    lm: crate::snapshot::LandmarkSnapshotV,
    nav_target: Option<usize>,
) -> Seq<char> {
    let prefix: Seq<char> = if nav_target == Some(i as usize) {
        "\u{2192}"@
    } else {
        " "@
    };
    prefix + digits_s(i + 1) + " \u{2502}("@ + pad_left_s(crate::fmt::int_str_s(dtz(lm.x, SCALE as int)), 3)
        + ","@ + pad_left_s(crate::fmt::int_str_s(dtz(lm.y, SCALE as int)), 3) + ")\u{2502}"@
        + pad_left_s(fix_str_s(fclamp(lm.reliability, 0, SCALE as int), 2), 4) + "\u{2502} "@
        + digits_s(lm.visit_count as int)
}

/// One placeholder row of the landmarks table for an empty slot.
pub open spec fn empty_row_s(i: int) -> Seq<char> {
    " "@ + digits_s(i + 1) + " \u{2502}   --    \u{2502} -- \u{2502} -"@
}

/// The landmarks table: a header, one row per stored landmark, and
/// placeholder rows up to the arena capacity.
pub open spec fn landmarks_list_s(
    ls: Seq<crate::snapshot::LandmarkSnapshotV>,
    nav_target: Option<usize>,
) -> Seq<Seq<char>> {
    let header = seq![
        " # \u{2502} Pos     \u{2502}Rel \u{2502}Vis"@,
        "\u{2500}\u{2500}\u{2500}\u{253c}\u{2500}\u{2500}\u{2500}\u{2500}\u{2500}\u{2500}\u{2500}\u{2500}\u{2500}\u{253c}\u{2500}\u{2500}\u{2500}\u{2500}\u{253c}\u{2500}\u{2500}\u{2500}"@,
    ];
    let rows = Seq::new(ls.len(), |i: int| landmark_row_s(i, ls[i], nav_target));
    let pad: Seq<Seq<char>> = if ls.len() < 8 {
        Seq::new((8 - ls.len()) as nat, |j: int| empty_row_s(ls.len() as int + j))
    } else {
        Seq::empty()
    };
    header + rows + pad
}

/// Format the landmarks table; `nav_target` marks the row the agent is
/// navigating toward.
#[verifier::loop_isolation(false)]
pub fn format_landmarks_list(
    landmarks: &Vec<crate::snapshot::LandmarkSnapshot>,
    nav_target: Option<usize>,
) -> (r: Vec<String>)
    ensures
        r@.map_values(|s: String| s@) == landmarks_list_s(
            landmarks@.map_values(|l: crate::snapshot::LandmarkSnapshot| l@),
            nav_target,
        ),
{
    let ghost lv = landmarks@.map_values(|l: crate::snapshot::LandmarkSnapshot| l@);
    let mut lines: Vec<String> = Vec::new();
    let mut h0 = String::new();
    h0.append(" # \u{2502} Pos     \u{2502}Rel \u{2502}Vis");
    lines.push(h0);
    let mut h1 = String::new();
    h1.append("\u{2500}\u{2500}\u{2500}\u{253c}\u{2500}\u{2500}\u{2500}\u{2500}\u{2500}\u{2500}\u{2500}\u{2500}\u{2500}\u{253c}\u{2500}\u{2500}\u{2500}\u{2500}\u{253c}\u{2500}\u{2500}\u{2500}");
    lines.push(h1);

    let mut i: usize = 0;
    while i < landmarks.len()
        invariant
            i <= landmarks@.len(),
            lines@.len() == 2 + i as nat,
            forall|j: int| 0 <= j < i ==> lines@[2 + j]@ == landmark_row_s(j, lv[j], nav_target),
            forall|j: int|
                0 <= j < 2 ==> lines@[j]@ == landmarks_list_s(lv, nav_target)[j],
        decreases landmarks@.len() - i,
    {
        let lm = landmarks[i];
        let mut row = String::new();
        let is_target = match nav_target {
            Some(t) => t == i,
            None => false,
        };
        if is_target {
            row.append("\u{2192}");
        } else {
            row.append(" ");
        }
        let num = u64_string((i as u64) + 1);
        row.append(num.as_str());
        row.append(" \u{2502}(");
        let xs = pad_left(i64_trunc_string(lm.x), 3);
        row.append(xs.as_str());
        row.append(",");
        let ys = pad_left(i64_trunc_string(lm.y), 3);
        row.append(ys.as_str());
        row.append(")\u{2502}");
        let rel = pad_left(
            fix_string(lm.reliability.clamp(Fix::zero(), Fix::from_micros(SCALE)), 2),
            4,
        );
        row.append(rel.as_str());
        row.append("\u{2502} ");
        let vc = u64_string(lm.visit_count);
        row.append(vc.as_str());
        lines.push(row);
        proof {
            assert(lines@[2 + i as int]@ =~= landmark_row_s(i as int, lv[i as int], nav_target));
        }
        i = i + 1;
    }

    while i < 8
        invariant
            landmarks@.len() <= i <= 8 || (landmarks@.len() > 8 && i == landmarks@.len()),
            lines@.len() == 2 + i as nat,
            forall|j: int|
                0 <= j < landmarks@.len() && j < i ==> lines@[2 + j]@ == landmark_row_s(
                    j,
                    lv[j],
                    nav_target,
                ),
            forall|j: int|
                landmarks@.len() <= j < i ==> lines@[2 + j]@ == empty_row_s(j),
            forall|j: int|
                0 <= j < 2 ==> lines@[j]@ == landmarks_list_s(lv, nav_target)[j],
        decreases 8 - i,
    {
        let mut row = String::new();
        row.append(" ");
        let num = u64_string((i as u64) + 1);
        row.append(num.as_str());
        row.append(" \u{2502}   --    \u{2502} -- \u{2502} -");
        lines.push(row);
        proof {
            assert(lines@[2 + i as int]@ =~= empty_row_s(i as int));
        }
        i = i + 1;
    }
    proof {
        assert(lines@.map_values(|s: String| s@) =~~= landmarks_list_s(lv, nav_target));
    }
    lines
}

/// A fixed-point value truncated toward zero to a whole number, rendered
/// in decimal.
fn i64_trunc_string(v: Fix) -> (r: String)
    ensures
        r@ == crate::fmt::int_str_s(dtz(v@, SCALE as int)),
{
    let m = v.micros();
    let t: i64 = if m >= 0 {
        m / SCALE
    } else {
        -((-m) / SCALE)
    };
    crate::fmt::i64_string(t)
}

/// The ASCII ramp for field concentrations, void to dense.
pub open spec fn field_char_s(c: int) -> char {
    let idx = (fclamp(c, 0, SCALE as int) * 9 + 500_000) / 1_000_000;
    if idx <= 0 {
        ' '
    } else if idx == 1 {
        '.'
    } else if idx == 2 {
        ':'
    } else if idx == 3 {
        '-'
    } else if idx == 4 {
        '='
    } else if idx == 5 {
        '+'
    } else if idx == 6 {
        '*'
    } else if idx == 7 {
        '#'
    } else if idx == 8 {
        '%'
    } else {
        '@'
    }
}

/// The center coordinate of sample cell `i` of `n` along one axis.
pub open spec fn center_s(extent: int, n: int, i: int) -> int {
    if n <= 0 {
        0
    } else {
        ((2 * i + 1) * extent) / (2 * n)
    }
}

/// One rendered row of the field.
pub open spec fn field_line_s(
    srcs: Seq<crate::environment::SourceV>,
    w: int,
    h: int,
    rows: int,
    cols: nat,
    row: int,
) -> Seq<char> {
    Seq::new(
        cols,
        |c: int| field_char_s(dish_conc_s(srcs, center_s(w, cols as int, c), center_s(h, rows, row))),
    )
}

/// The one-character string of the field ramp for a concentration.
fn field_str(c: Fix) -> (r: &'static str)
    ensures
        r@ == seq![field_char_s(c@)],
{
    let v: i64 = c.micros();
    let cl: i64 = if v < 0 {
        0
    } else if v > SCALE {
        SCALE
    } else {
        v
    };
    let idx: i64 = (cl * 9 + 500_000) / 1_000_000;
    let r: &'static str = if idx <= 0 {
        " "
    } else if idx == 1 {
        "."
    } else if idx == 2 {
        ":"
    } else if idx == 3 {
        "-"
    } else if idx == 4 {
        "="
    } else if idx == 5 {
        "+"
    } else if idx == 6 {
        "*"
    } else if idx == 7 {
        "#"
    } else if idx == 8 {
        "%"
    } else {
        "@"
    };
    proof {
        reveal_strlit(" ");
        reveal_strlit(".");
        reveal_strlit(":");
        reveal_strlit("-");
        reveal_strlit("=");
        reveal_strlit("+");
        reveal_strlit("*");
        reveal_strlit("#");
        reveal_strlit("%");
        reveal_strlit("@");
        assert(r@ =~= seq![field_char_s(c@)]);
    }
    r
}

/// The center coordinate of sample cell `i` of `n` along one axis.
fn center(extent: Fix, n: usize, i: usize) -> (r: Fix)
    requires
        0 < n,
        i < n,
        0 < extent@,
    ensures
        r@ == center_s(extent@, n as int, i as int),
{
    let e = extent.micros();
    let t2: u128 = 2 * (i as u128) + 1;
    let eu: u128 = e as u128;
    proof {
        assert((t2 as int) * (eu as int) <= 0x2_0000_0000_0000_0000 * 1_000_000_000_000
            && 0 <= (t2 as int) * (eu as int)) by (nonlinear_arith)
            requires
                0 <= t2 as int <= 0x2_0000_0000_0000_0000,
                0 <= eu as int <= 1_000_000_000_000,
        ;
    }
    let num: u128 = t2 * eu;
    let den: u128 = 2 * (n as u128);
    let q: u128 = num / den;
    proof {
        assert((num as int) < (den as int) * (e as int)) by (nonlinear_arith)
            requires
                num as int == (2 * (i as int) + 1) * (e as int),
                den as int == 2 * (n as int),
                0 <= i as int,
                (i as int) < n as int,
                0 < e as int,
        ;
        vstd::arithmetic::div_mod::lemma_multiply_divide_lt(
            num as int,
            den as int,
            e as int,
        );
        assert(crate::fixed::fcl(q as int) == q as int);
    }
    Fix::from_micros(q as i64)
}

/// Render the nutrient field as ASCII rows, sampling each cell's center.
#[verifier::loop_isolation(false)]
pub fn compute_field_grid(dish: &PetriDish, rows: usize, cols: usize) -> (r: Vec<String>)
    requires
        dish.inv(),
    ensures
        r@.len() == rows as nat,
        forall|i: int|
            0 <= i < rows ==> r@[i]@ == field_line_s(
                dish@.sources,
                dish@.width,
                dish@.height,
                rows as int,
                cols as nat,
                i,
            ),
{
    let w = dish.width();
    let h = dish.height();
    let mut lines: Vec<String> = Vec::new();
    let mut row: usize = 0;
    while row < rows
        invariant
            row <= rows,
            lines@.len() == row as nat,
            forall|i: int|
                0 <= i < row ==> lines@[i]@ == field_line_s(
                    dish@.sources,
                    dish@.width,
                    dish@.height,
                    rows as int,
                    cols as nat,
                    i,
                ),
        decreases rows - row,
    {
        let cy = center(h, rows, row);
        let mut line = String::new();
        let mut col: usize = 0;
        while col < cols
            invariant
                col <= cols,
                line@.len() == col as nat,
                forall|j: int|
                    0 <= j < col ==> line@[j] == field_char_s(
                        dish_conc_s(
                            dish@.sources,
                            center_s(dish@.width, cols as int, j),
                            center_s(dish@.height, rows as int, row as int),
                        ),
                    ),
            decreases cols - col,
        {
            let cx = center(w, cols, col);
            let c = dish.concentration_at(cx, cy);
            line.append(field_str(c));
            col = col + 1;
        }
        lines.push(line);
        proof {
            assert(lines@[row as int]@ =~= field_line_s(
                dish@.sources,
                dish@.width,
                dish@.height,
                rows as int,
                cols as nat,
                row as int,
            ));
        }
        row = row + 1;
    }
    lines
}

} // verus!
