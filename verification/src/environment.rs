//! The world the organism lives in.
//!
//! The cognition core sees the world only through the [`Field`] trait: a
//! bounded rectangle exposing a scalar concentration in `[-1, 1]` at every
//! point. [`PetriDish`] is the built-in world: a handful of circular
//! nutrient sources that drift, decay and respawn, driven by the dish's
//! own seeded random generator.

use vstd::prelude::*;
use crate::fixed::{Fix, SCALE, fadd, fsub, fmul, fclamp};
use crate::params::{
    BROWNIAN_STEP, RESPAWN_THRESHOLD, SOURCE_COUNT, SOURCE_DECAY_MAX, SOURCE_DECAY_MIN,
    SOURCE_INTENSITY_MAX, SOURCE_INTENSITY_MIN, SOURCE_MARGIN, SOURCE_RADIUS_MAX,
    SOURCE_RADIUS_MIN,
};
use crate::rng::Rng64;

verus! {

/// Seed of the dish's own random generator.
pub const DISH_SEED: u64 = 0x5EED_0D15;

/// The world as the organism sees it: a bounded rectangle with a scalar
/// concentration in `[-1, 1]` at every point.
pub trait Field {
    /// The world width, as a mathematical value.
    spec fn spec_width(&self) -> int;

    /// The world height, as a mathematical value.
    spec fn spec_height(&self) -> int;

    /// The concentration at a point, as a mathematical value.
    spec fn spec_concentration(&self, x: int, y: int) -> int;

    /// The field is internally consistent.
    spec fn inv(&self) -> bool;

    /// The world width.
    fn width(&self) -> (r: Fix)
        requires
            self.inv(),
        ensures
            r@ == self.spec_width(),
            0 < r@,
    ;

    /// The world height.
    fn height(&self) -> (r: Fix)
        requires
            self.inv(),
        ensures
            r@ == self.spec_height(),
            0 < r@,
    ;

    /// The concentration at a point, always within `[-1, 1]`.
    fn concentration_at(&self, x: Fix, y: Fix) -> (r: Fix)
        requires
            self.inv(),
        ensures
            r@ == self.spec_concentration(x@, y@),
            -(SCALE as int) <= r@ <= SCALE as int,
    ;
}

/// Ghost model of a [`Source`].
pub struct SourceV {
    pub x: int,
    pub y: int,
    pub radius: int,
    pub intensity: int,
    pub decay: int,
}

/// One circular nutrient source.
#[derive(Clone, Copy, PartialEq, Eq, Structural, Debug)]
pub struct Source {
    /// Center x.
    pub x: Fix,
    /// Center y.
    pub y: Fix,
    /// Radius of influence.
    pub radius: Fix,
    /// Peak concentration at the center.
    pub intensity: Fix,
    /// Per-tick intensity multiplier.
    pub decay: Fix,
}

impl View for Source {
    type V = SourceV;

    open spec fn view(&self) -> SourceV {
        SourceV {
            x: self.x@,
            y: self.y@,
            radius: self.radius@,
            intensity: self.intensity@,
            decay: self.decay@,
        }
    }
}

/// Contribution of one source at a point: its intensity scaled by a
/// quadratic falloff inside its radius, zero outside.
pub open spec fn contrib_s(s: SourceV, x: int, y: int) -> int {
    let dx = fsub(s.x, x);
    let dy = fsub(s.y, y);
    let d2 = dx * dx + dy * dy;
    let r2 = s.radius * s.radius;
    if d2 < r2 {
        fmul(s.intensity, ((r2 - d2) * SCALE as int) / r2)
    } else {
        0
    }
}

/// Clamped sum of the source contributions from slot `i` on.
pub open spec fn sum_contrib_s(srcs: Seq<SourceV>, x: int, y: int, i: nat) -> int
    decreases srcs.len() - i,
{
    if i >= srcs.len() {
        0
    } else {
        fadd(contrib_s(srcs[i as int], x, y), sum_contrib_s(srcs, x, y, i + 1))
    }
}

/// The field concentration: the clamped sum of all source contributions.
pub open spec fn dish_conc_s(srcs: Seq<SourceV>, x: int, y: int) -> int {
    fclamp(sum_contrib_s(srcs, x, y, 0), -(SCALE as int), SCALE as int)
}

/// The built-in world: drifting, decaying, respawning nutrient sources.
#[derive(Clone, Debug)]
pub struct PetriDish {
    width: Fix,
    height: Fix,
    sources: Vec<Source>,
    rng: Rng64,
}

/// Ghost model of a [`PetriDish`].
pub struct PetriDishV {
    pub width: int,
    pub height: int,
    pub sources: Seq<SourceV>,
    pub rng: u64,
}

impl View for PetriDish {
    type V = PetriDishV;

    closed spec fn view(&self) -> PetriDishV {
        PetriDishV {
            width: self.width@,
            height: self.height@,
            sources: self.sources@.map_values(|s: Source| s@),
            rng: self.rng@,
        }
    }
}

/// A well-formed dish: room for the source margins, and every source with
/// a positive radius.
pub open spec fn dish_wf(d: PetriDishV) -> bool {
    &&& d.width > 2 * SOURCE_MARGIN as int
    &&& d.height > 2 * SOURCE_MARGIN as int
    &&& forall|i: int| 0 <= i < d.sources.len() ==> d.sources[i].radius > 0
}

impl PetriDish {
    /// A new dish of the given extent, with deterministically placed
    /// sources.
    #[verifier::loop_isolation(false)]
    pub fn new(width: Fix, height: Fix) -> (r: PetriDish)
        requires
            width@ > 2 * SOURCE_MARGIN as int,
            height@ > 2 * SOURCE_MARGIN as int,
        ensures
            dish_wf(r@),
            r@.width == width@,
            r@.height == height@,
    {
        let mut rng = Rng64::seeded(DISH_SEED);
        let mut sources: Vec<Source> = Vec::new();
        let mut i: usize = 0;
        while i < SOURCE_COUNT
            invariant
                forall|j: int| 0 <= j < sources@.len() ==> sources@[j].radius@ > 0,
            decreases SOURCE_COUNT - i,
        {
            let s = spawn_source(&mut rng, width, height);
            sources.push(s);
            i = i + 1;
        }
        PetriDish { width, height, sources, rng }
    }

    /// Evolve the field one tick: intensities decay, sources drift, and
    /// spent sources respawn.
    #[verifier::loop_isolation(false)]
    pub fn update(&mut self)
        requires
            dish_wf(old(self)@),
        ensures
            dish_wf(final(self)@),
            final(self)@.width == old(self)@.width,
            final(self)@.height == old(self)@.height,
            final(self)@.sources.len() == old(self)@.sources.len(),
    {
        let w = self.width;
        let h = self.height;
        let mut i: usize = 0;
        while i < self.sources.len()
            invariant
                self.width == old(self).width,
                self.height == old(self).height,
                w == self.width,
                h == self.height,
                self@.sources.len() == old(self)@.sources.len(),
                forall|j: int| 0 <= j < self@.sources.len() ==> self@.sources[j].radius > 0,
            decreases self.sources@.len() - i,
        {
            let prev_s = self.sources[i];
            proof {
                assert(prev_s@ == self@.sources[i as int]);
            }
            let s = evolve_source(&mut self.rng, prev_s, w, h);
            let ghost prev = self@.sources;
            self.sources.set(i, s);
            proof {
                assert(self@.sources =~= prev.update(i as int, s@));
            }
            i = i + 1;
        }
    }
}

impl Field for PetriDish {
    open spec fn spec_width(&self) -> int {
        self@.width
    }

    open spec fn spec_height(&self) -> int {
        self@.height
    }

    open spec fn spec_concentration(&self, x: int, y: int) -> int {
        dish_conc_s(self@.sources, x, y)
    }

    open spec fn inv(&self) -> bool {
        dish_wf(self@)
    }

    fn width(&self) -> (r: Fix) {
        self.width
    }

    fn height(&self) -> (r: Fix) {
        self.height
    }

    #[verifier::loop_isolation(false)]
    fn concentration_at(&self, x: Fix, y: Fix) -> (r: Fix) {
        let mut sum = Fix::zero();
        let mut i: usize = self.sources.len();
        while i > 0
            invariant
                i <= self.sources@.len(),
                sum@ == sum_contrib_s(self@.sources, x@, y@, i as nat),
            decreases i,
        {
            i = i - 1;
            proof {
                assert(self@.sources[i as int] == self.sources@[i as int]@);
            }
            let c = source_contribution(&self.sources[i], x, y);
            sum = c.add(sum);
        }
        sum.clamp(Fix::from_micros(-SCALE), Fix::from_micros(SCALE))
    }
}

/// Advance one source a tick: decay its intensity, drift it inside the
/// margins, and respawn it once spent.
fn evolve_source(rng: &mut Rng64, source: Source, width: Fix, height: Fix) -> (r: Source)
    requires
        width@ > 2 * SOURCE_MARGIN as int,
        height@ > 2 * SOURCE_MARGIN as int,
    ensures
        r@.radius > 0 || r@.radius == source@.radius,
{
    let step = Fix::from_micros(BROWNIAN_STEP);
    let lo_m = Fix::from_micros(SOURCE_MARGIN);
    let mut s = source;
    s.intensity = s.intensity.mul(s.decay);
    let dx = rng.next_fix(step.neg(), step);
    let dy = rng.next_fix(step.neg(), step);
    s.x = s.x.add(dx).clamp(lo_m, width.sub(lo_m));
    s.y = s.y.add(dy).clamp(lo_m, height.sub(lo_m));
    if s.intensity.lt(Fix::from_micros(RESPAWN_THRESHOLD)) {
        s = spawn_source(rng, width, height);
    }
    s
}

/// Draw a fresh source inside the margins from the generator.
fn spawn_source(rng: &mut Rng64, width: Fix, height: Fix) -> (r: Source)
    requires
        width@ > 2 * SOURCE_MARGIN as int,
        height@ > 2 * SOURCE_MARGIN as int,
    ensures
        r@.radius > 0,
{
    let lo_m = Fix::from_micros(SOURCE_MARGIN);
    let x = rng.next_fix(lo_m, width.sub(lo_m));
    let y = rng.next_fix(lo_m, height.sub(lo_m));
    let radius = rng.next_fix(
        Fix::from_micros(SOURCE_RADIUS_MIN),
        Fix::from_micros(SOURCE_RADIUS_MAX),
    );
    let intensity = rng.next_fix(
        Fix::from_micros(SOURCE_INTENSITY_MIN),
        Fix::from_micros(SOURCE_INTENSITY_MAX),
    );
    let decay = rng.next_fix(
        Fix::from_micros(SOURCE_DECAY_MIN),
        Fix::from_micros(SOURCE_DECAY_MAX),
    );
    Source { x, y, radius, intensity, decay }
}

/// One source's contribution at a point (mirrors [`contrib_s`]).
fn source_contribution(s: &Source, x: Fix, y: Fix) -> (r: Fix)
    requires
        s@.radius > 0,
    ensures
        r@ == contrib_s(s@, x@, y@),
{
    let dx = s.x.sub(x);
    let dy = s.y.sub(y);
    let dxm: i128 = dx.micros() as i128;
    let dym: i128 = dy.micros() as i128;
    let rm: i128 = s.radius.micros() as i128;
    proof {
        assert(dxm * dxm <= 1_000_000_000_000_000_000_000_000 && dxm * dxm >= 0)
            by (nonlinear_arith)
            requires
                -1_000_000_000_000 <= dxm <= 1_000_000_000_000,
        ;
        assert(dym * dym <= 1_000_000_000_000_000_000_000_000 && dym * dym >= 0)
            by (nonlinear_arith)
            requires
                -1_000_000_000_000 <= dym <= 1_000_000_000_000,
        ;
        assert(rm * rm <= 1_000_000_000_000_000_000_000_000 && rm * rm > 0) by (nonlinear_arith)
            requires
                0 < rm <= 1_000_000_000_000,
        ;
    }
    let d2: i128 = dxm * dxm + dym * dym;
    let r2: i128 = rm * rm;
    if d2 < r2 {
        let num: u128 = ((r2 - d2) as u128) * 1_000_000;
        let frac: u128 = num / (r2 as u128);
        proof {
            assert(num as int == (r2 - d2) * SCALE as int) by (nonlinear_arith)
                requires
                    num as int == (r2 as int - d2 as int) * 1_000_000,
                    SCALE as int == 1_000_000,
            ;
            assert(frac as int <= SCALE as int) by (nonlinear_arith)
                requires
                    frac as int == ((r2 as int - d2 as int) * (SCALE as int)) / (r2 as int),
                    0 <= r2 as int - d2 as int <= r2 as int,
                    r2 as int > 0,
                    SCALE as int > 0,
            ;
        }
        s.intensity.mul(Fix::from_micros(frac as i64))
    } else {
        Fix::zero()
    }
}

} // verus!
