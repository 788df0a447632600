//! Episodic memory: a fixed arena of remembered high-nutrient landmarks.
//!
//! Eight slots, each empty or holding a landmark with a position, the peak
//! value observed there, visit bookkeeping, and a reliability in `(0, 1]`.
//! Reliability decays every tick and resets to one on refresh; a slot is
//! freed once reliability falls below the prune threshold. When the arena
//! is full, a new landmark replaces the least valuable stored one only if
//! it is more valuable (value = peak nutrient times reliability).

use vstd::prelude::*;
use crate::fixed::{Fix, FIX_BOUND, SCALE, fsub, fmul, fmax, fcl, dtz, iabs};
use crate::params::{LANDMARK_DECAY, LANDMARK_PRUNE, LANDMARK_VISIT_RADIUS, MAX_LANDMARKS};
use crate::trig::isqrt_u128;

verus! {

/// Ghost model of a [`Landmark`].
pub struct LandV {
    pub x: int,
    pub y: int,
    pub peak_nutrient: int,
    pub last_visit_tick: u64,
    pub visit_count: u64,
    pub reliability: int,
}

/// A remembered high-nutrient location.
#[derive(Clone, Copy, PartialEq, Eq, Structural, Debug)]
pub struct Landmark {
    /// X position of the landmark.
    pub x: Fix,
    /// Y position of the landmark.
    pub y: Fix,
    /// Peak nutrient concentration observed at this location.
    pub peak_nutrient: Fix,
    /// Tick when this landmark was last visited.
    pub last_visit_tick: u64,
    /// Number of visits to this landmark.
    pub visit_count: u64,
    /// Reliability score; decays over time when not visited.
    pub reliability: Fix,
}

impl View for Landmark {
    type V = LandV;

    open spec fn view(&self) -> LandV {
        LandV {
            x: self.x@,
            y: self.y@,
            peak_nutrient: self.peak_nutrient@,
            last_visit_tick: self.last_visit_tick,
            visit_count: self.visit_count,
            reliability: self.reliability@,
        }
    }
}

/// A fresh landmark: full reliability, one visit.
pub open spec fn land_new_s(x: int, y: int, nutrient: int, tick: u64) -> LandV {
    LandV {
        x: x,
        y: y,
        peak_nutrient: nutrient,
        last_visit_tick: tick,
        visit_count: 1,
        reliability: SCALE as int,
    }
}

/// A refreshed landmark: peak kept at its maximum, reliability restored.
pub open spec fn land_refresh_s(l: LandV, nutrient: int, tick: u64) -> LandV {
    LandV {
        x: l.x,
        y: l.y,
        peak_nutrient: fmax(l.peak_nutrient, nutrient),
        last_visit_tick: tick,
        visit_count: if l.visit_count == u64::MAX {
            u64::MAX
        } else {
            (l.visit_count + 1) as u64
        },
        reliability: SCALE as int,
    }
}

/// One decay step of the reliability.
pub open spec fn land_decay_s(l: LandV) -> LandV {
    LandV { reliability: fmul(l.reliability, LANDMARK_DECAY as int), ..l }
}

/// The weighted worth of a landmark: peak nutrient times reliability.
pub open spec fn land_value_s(l: LandV) -> int {
    fmul(l.peak_nutrient, l.reliability)
}

/// The landmark lies strictly within `rad` of the position.
pub open spec fn land_near_s(l: LandV, x: int, y: int, rad: int) -> bool {
    let dx = fsub(l.x, x);
    let dy = fsub(l.y, y);
    dx * dx + dy * dy < rad * rad
}

impl Landmark {
    /// A new landmark at the given position.
    pub fn new(x: Fix, y: Fix, nutrient: Fix, tick: u64) -> (r: Landmark)
        ensures
            r@ == land_new_s(x@, y@, nutrient@, tick),
    {
        Landmark {
            x,
            y,
            peak_nutrient: nutrient,
            last_visit_tick: tick,
            visit_count: 1,
            reliability: Fix::from_micros(SCALE),
        }
    }

    /// The distance from this landmark to a position, rounded down (and
    /// saturating at the representable bound for extreme inputs).
    pub fn distance_to(&self, x: Fix, y: Fix) -> (r: Fix)
        ensures
            ({
                let dx = fsub(self@.x, x@);
                let dy = fsub(self@.y, y@);
                &&& r@ * r@ <= dx * dx + dy * dy
                &&& (dx * dx + dy * dy < (r@ + 1) * (r@ + 1) || r@ == FIX_BOUND as int)
                &&& r@ >= 0
            }),
    {
        let dx = self.x.sub(x);
        let dy = self.y.sub(y);
        let dxm: i128 = dx.micros() as i128;
        let dym: i128 = dy.micros() as i128;
        proof {
            assert(dxm * dxm <= 1_000_000_000_000_000_000_000_000
                && dxm * dxm >= 0) by (nonlinear_arith)
                requires
                    -1_000_000_000_000 <= dxm <= 1_000_000_000_000,
            ;
            assert(dym * dym <= 1_000_000_000_000_000_000_000_000
                && dym * dym >= 0) by (nonlinear_arith)
                requires
                    -1_000_000_000_000 <= dym <= 1_000_000_000_000,
            ;
        }
        let d2: u128 = ((dxm * dxm) as u128) + ((dym * dym) as u128);
        let s = isqrt_u128(d2);
        proof {
            assert(s as int <= 2_000_000_000_000) by (nonlinear_arith)
                requires
                    0 <= (s as int),
                    (s as int) * (s as int) <= 2_000_000_000_000_000_000_000_000,
            ;
        }
        let m: i64 = s as i64;
        if m > FIX_BOUND {
            proof {
                assert((FIX_BOUND as int) * (FIX_BOUND as int) < (s as int) * (s as int))
                    by (nonlinear_arith)
                    requires
                        0 <= FIX_BOUND as int,
                        (FIX_BOUND as int) < (s as int),
                ;
            }
            Fix::from_micros(FIX_BOUND)
        } else {
            Fix::from_micros(m)
        }
    }

    /// The weighted worth of this landmark (peak nutrient x reliability).
    pub fn value(&self) -> (r: Fix)
        ensures
            r@ == land_value_s(self@),
    {
        self.peak_nutrient.mul(self.reliability)
    }

    /// Decay the reliability one step.
    pub fn decay(&mut self)
        ensures
            final(self)@ == land_decay_s(old(self)@),
    {
        self.reliability = self.reliability.mul(Fix::from_micros(LANDMARK_DECAY));
    }

    /// Refresh this landmark on a revisit.
    pub fn refresh(&mut self, nutrient: Fix, tick: u64)
        ensures
            final(self)@ == land_refresh_s(old(self)@, nutrient@, tick),
    {
        self.peak_nutrient = self.peak_nutrient.max(nutrient);
        self.last_visit_tick = tick;
        if self.visit_count < u64::MAX {
            self.visit_count = self.visit_count + 1;
        }
        self.reliability = Fix::from_micros(SCALE);
    }
}

/// The view of an optional landmark.
pub open spec fn opt_land_v(o: Option<Landmark>) -> Option<LandV> {
    match o {
        Some(l) => Some(l@),
        None => None,
    }
}

/// Ghost model of the landmark arena: exactly [`MAX_LANDMARKS`] slots.
pub type MemV = Seq<Option<LandV>>;

/// A well-formed arena: eight slots, every stored reliability in
/// `[LANDMARK_PRUNE, 1]`.
pub open spec fn mem_wf(m: MemV) -> bool {
    &&& m.len() == MAX_LANDMARKS as nat
    &&& forall|i: int|
        0 <= i < m.len() && m[i] is Some ==> (LANDMARK_PRUNE as int)
            <= m[i].unwrap().reliability <= SCALE as int
}

/// Number of occupied slots at or after `i`.
pub open spec fn count_from_s(m: MemV, i: nat) -> nat
    decreases m.len() - i,
{
    if i >= m.len() {
        0
    } else if m[i as int] is Some {
        1 + count_from_s(m, i + 1)
    } else {
        count_from_s(m, i + 1)
    }
}

/// First slot at or after `i` holding a landmark within `rad` of the
/// position, or the arena length if there is none.
pub open spec fn find_near_s(m: MemV, x: int, y: int, rad: int, i: nat) -> nat
    decreases m.len() - i,
{
    if i >= m.len() {
        m.len()
    } else if m[i as int] is Some && land_near_s(m[i as int].unwrap(), x, y, rad) {
        i
    } else {
        find_near_s(m, x, y, rad, i + 1)
    }
}

/// First empty slot at or after `i`, or the arena length if none is empty.
pub open spec fn first_empty_s(m: MemV, i: nat) -> nat
    decreases m.len() - i,
{
    if i >= m.len() {
        m.len()
    } else if m[i as int] is None {
        i
    } else {
        first_empty_s(m, i + 1)
    }
}

/// Index of the least valuable stored landmark scanning from `i` with
/// current best `acc` (the earliest minimum wins ties).
pub open spec fn min_value_idx_s(m: MemV, i: nat, acc: int) -> int
    decreases m.len() - i,
{
    if i >= m.len() {
        acc
    } else {
        let next = match m[i as int] {
            Some(l) => if acc < 0 || land_value_s(l) < land_value_s(m[acc].unwrap()) {
                i as int
            } else {
                acc
            },
            None => acc,
        };
        min_value_idx_s(m, i + 1, next)
    }
}

/// The best stored landmark scanning from `i` among those at least
/// `mind` away from the position (the latest maximum wins ties).
pub open spec fn best_distant_from_s(
    m: MemV,
    x: int,
    y: int,
    mind: int,
    i: nat,
    acc: Option<LandV>,
) -> Option<LandV>
    decreases m.len() - i,
{
    if i >= m.len() {
        acc
    } else {
        let next = match m[i as int] {
            Some(l) => if !land_near_s(l, x, y, mind) && (acc is None || land_value_s(l)
                >= land_value_s(acc.unwrap())) {
                Some(l)
            } else {
                acc
            },
            None => acc,
        };
        best_distant_from_s(m, x, y, mind, i + 1, next)
    }
}

/// The arena after a store attempt: refresh a nearby landmark if one
/// exists; otherwise fill the first empty slot; otherwise replace the
/// least valuable landmark, but only by a more valuable one.
pub open spec fn maybe_store_s(m: MemV, x: int, y: int, nutrient: int, tick: u64) -> MemV {
    let ni = find_near_s(m, x, y, LANDMARK_VISIT_RADIUS as int, 0);
    if ni < m.len() {
        m.update(ni as int, Some(land_refresh_s(m[ni as int].unwrap(), nutrient, tick)))
    } else {
        let e = first_empty_s(m, 0);
        if e < m.len() {
            m.update(e as int, Some(land_new_s(x, y, nutrient, tick)))
        } else {
            let mi = min_value_idx_s(m, 0, -1);
            if 0 <= mi < m.len() && nutrient > land_value_s(m[mi].unwrap()) {
                m.update(mi, Some(land_new_s(x, y, nutrient, tick)))
            } else {
                m
            }
        }
    }
}

/// The arena after one decay pass: every reliability decays, and slots
/// falling below the prune threshold are freed.
pub open spec fn decay_all_s(m: MemV) -> MemV {
    Seq::new(
        m.len(),
        |i: int|
            match m[i] {
                Some(l) => {
                    let d = land_decay_s(l);
                    if d.reliability < LANDMARK_PRUNE as int {
                        None
                    } else {
                        Some(d)
                    }
                },
                None => None,
            },
    )
}

/// The arena after a visit: every stored landmark within the visit radius
/// of the position is refreshed.
pub open spec fn update_visit_s(m: MemV, x: int, y: int, nutrient: int, tick: u64) -> MemV {
    Seq::new(
        m.len(),
        |i: int|
            match m[i] {
                Some(l) => if land_near_s(l, x, y, LANDMARK_VISIT_RADIUS as int) {
                    Some(land_refresh_s(l, nutrient, tick))
                } else {
                    Some(l)
                },
                None => None,
            },
    )
}

/// The stored landmarks in slot order.
pub open spec fn occupied_s(m: MemV, i: nat) -> Seq<LandV>
    decreases m.len() - i,
{
    if i >= m.len() {
        Seq::empty()
    } else {
        match m[i as int] {
            Some(l) => seq![l] + occupied_s(m, i + 1),
            None => occupied_s(m, i + 1),
        }
    }
}

/// Episodic memory: the fixed arena of landmark slots.
#[derive(Clone, Debug)]
pub struct EpisodicMemory {
    landmarks: Vec<Option<Landmark>>,
}

impl View for EpisodicMemory {
    type V = MemV;

    closed spec fn view(&self) -> MemV {
        self.landmarks@.map_values(|o: Option<Landmark>| opt_land_v(o))
    }
}

impl EpisodicMemory {
    /// A new, empty episodic memory.
    pub fn new() -> (r: EpisodicMemory)
        ensures
            r@ == Seq::new(MAX_LANDMARKS as nat, |i: int| None::<LandV>),
            mem_wf(r@),
    {
        let mut landmarks: Vec<Option<Landmark>> = Vec::new();
        let mut i: usize = 0;
        while i < MAX_LANDMARKS
            invariant
                i <= MAX_LANDMARKS,
                landmarks@.len() == i as nat,
                forall|j: int| 0 <= j < i ==> landmarks@[j] is None,
            decreases MAX_LANDMARKS - i,
        {
            landmarks.push(None);
            i = i + 1;
        }
        let r = EpisodicMemory { landmarks };
        proof {
            assert(r@ =~= Seq::new(MAX_LANDMARKS as nat, |i: int| None::<LandV>));
        }
        r
    }

    /// The number of stored landmarks.
    pub fn count(&self) -> (r: usize)
        requires
            mem_wf(self@),
        ensures
            r as nat == count_from_s(self@, 0),
            r <= MAX_LANDMARKS,
    {
        let n = count_rec(&self.landmarks, 0);
        proof {
            count_le_len(self@, 0);
        }
        n
    }

    /// Store a new landmark if it is valuable enough: refresh a nearby
    /// one, fill an empty slot, or replace the least valuable landmark.
    pub fn maybe_store(&mut self, x: Fix, y: Fix, nutrient: Fix, tick: u64)
        requires
            mem_wf(old(self)@),
        ensures
            final(self)@ == maybe_store_s(old(self)@, x@, y@, nutrient@, tick),
            mem_wf(final(self)@),
    {
        let ghost prev = self@;
        let rad = Fix::from_micros(LANDMARK_VISIT_RADIUS);
        let ni = find_near_rec(&self.landmarks, x, y, rad, 0);
        if ni < self.landmarks.len() {
            let l = self.landmarks[ni].unwrap();
            let mut fresh = l;
            fresh.refresh(nutrient, tick);
            self.landmarks.set(ni, Some(fresh));
            proof {
                assert(self@ =~= prev.update(ni as int, Some(fresh@)));
            }
            return ;
        }
        let e = first_empty_rec(&self.landmarks, 0);
        if e < self.landmarks.len() {
            let fresh = Landmark::new(x, y, nutrient, tick);
            self.landmarks.set(e, Some(fresh));
            proof {
                assert(self@ =~= prev.update(e as int, Some(fresh@)));
            }
            return ;
        }
        let mi = min_value_rec(&self.landmarks, 0, None);
        if let Some(mi) = mi {
            let worst = self.landmarks[mi].unwrap();
            if nutrient.gt(worst.value()) {
                let fresh = Landmark::new(x, y, nutrient, tick);
                self.landmarks.set(mi, Some(fresh));
                proof {
                    assert(self@ =~= prev.update(mi as int, Some(fresh@)));
                }
            }
        }
    }

    /// Decay every landmark's reliability and free the stale slots.
    #[verifier::loop_isolation(false)]
    pub fn decay_all(&mut self)
        requires
            mem_wf(old(self)@),
        ensures
            final(self)@ == decay_all_s(old(self)@),
            mem_wf(final(self)@),
    {
        let prune = Fix::from_micros(LANDMARK_PRUNE);
        let mut i: usize = 0;
        while i < self.landmarks.len()
            invariant
                i <= self.landmarks@.len(),
                self.landmarks@.len() == old(self)@.len(),
                self@.len() == old(self)@.len(),
                forall|j: int| 0 <= j < i ==> self@[j] == decay_all_s(old(self)@)[j],
                forall|j: int| i <= j < self@.len() ==> self@[j] == old(self)@[j],
            decreases self.landmarks@.len() - i,
        {
            let ghost prev = self@;
            if let Some(l) = self.landmarks[i] {
                let mut d = l;
                d.decay();
                proof {
                    assert(self@[i as int] == opt_land_v(self.landmarks@[i as int]));
                    assert(self@[i as int] == old(self)@[i as int]);
                    assert(self@[i as int] == Some(l@));
                    lemma_fmul_frac_le(l@.reliability, LANDMARK_DECAY as int);
                }
                if d.reliability.lt(prune) {
                    self.landmarks.set(i, None);
                    proof {
                        assert(self@ =~= prev.update(i as int, None::<LandV>));
                    }
                } else {
                    self.landmarks.set(i, Some(d));
                    proof {
                        assert(self@ =~= prev.update(i as int, Some(d@)));
                    }
                }
            }
            i = i + 1;
        }
        proof {
            assert(self@ =~= decay_all_s(old(self)@));
            assert forall|k: int|
                0 <= k < self@.len() && self@[k] is Some implies (LANDMARK_PRUNE as int)
                <= self@[k].unwrap().reliability <= SCALE as int by {
                if old(self)@[k] is Some {
                    lemma_fmul_frac_le(old(self)@[k].unwrap().reliability, LANDMARK_DECAY as int);
                }
            }
        }
    }

    /// Refresh every landmark the agent is currently visiting.
    #[verifier::loop_isolation(false)]
    pub fn update_on_visit(&mut self, x: Fix, y: Fix, nutrient: Fix, tick: u64)
        requires
            mem_wf(old(self)@),
        ensures
            final(self)@ == update_visit_s(old(self)@, x@, y@, nutrient@, tick),
            mem_wf(final(self)@),
    {
        let rad = Fix::from_micros(LANDMARK_VISIT_RADIUS);
        let mut i: usize = 0;
        while i < self.landmarks.len()
            invariant
                i <= self.landmarks@.len(),
                self.landmarks@.len() == old(self)@.len(),
                self@.len() == old(self)@.len(),
                forall|j: int|
                    0 <= j < i ==> self@[j] == update_visit_s(
                        old(self)@,
                        x@,
                        y@,
                        nutrient@,
                        tick,
                    )[j],
                forall|j: int| i <= j < self@.len() ==> self@[j] == old(self)@[j],
            decreases self.landmarks@.len() - i,
        {
            let ghost prev = self@;
            if let Some(l) = self.landmarks[i] {
                if is_near(&l, x, y, rad) {
                    let mut fresh = l;
                    fresh.refresh(nutrient, tick);
                    self.landmarks.set(i, Some(fresh));
                    proof {
                        assert(self@ =~= prev.update(i as int, Some(fresh@)));
                    }
                }
            }
            i = i + 1;
        }
        proof {
            assert(self@ =~= update_visit_s(old(self)@, x@, y@, nutrient@, tick));
        }
    }

    /// The most valuable stored landmark, if any.
    pub fn best_landmark(&self) -> (r: Option<Landmark>)
        ensures
            opt_land_v(r) == best_distant_from_s(self@, 0, 0, 0, 0, None),
    {
        best_distant_rec(&self.landmarks, Fix::zero(), Fix::zero(), Fix::zero(), 0, None)
    }

    /// The most valuable stored landmark at least `min_distance` away from
    /// the position: the one to navigate to, not the one stood upon.
    pub fn best_distant_landmark(&self, x: Fix, y: Fix, min_distance: Fix) -> (r: Option<
        Landmark,
    >)
        ensures
            opt_land_v(r) == best_distant_from_s(self@, x@, y@, min_distance@, 0, None),
    {
        best_distant_rec(&self.landmarks, x, y, min_distance, 0, None)
    }

    /// The stored landmarks in slot order.
    #[verifier::loop_isolation(false)]
    pub fn iter(&self) -> (r: Vec<Landmark>)
        ensures
            r@.map_values(|l: Landmark| l@) == occupied_s(self@, 0),
    {
        let mut out: Vec<Landmark> = Vec::new();
        let mut i: usize = self.landmarks.len();
        while i > 0
            invariant
                i <= self.landmarks@.len(),
                out@.map_values(|l: Landmark| l@) == occupied_s(self@, i as nat),
            decreases i,
        {
            i = i - 1;
            if let Some(l) = self.landmarks[i] {
                out.insert(0, l);
                proof {
                    assert(out@.map_values(|l: Landmark| l@) =~= occupied_s(self@, i as nat));
                }
            }
        }
        out
    }

    /// Forget every landmark.
    #[verifier::loop_isolation(false)]
    pub fn clear(&mut self)
        requires
            mem_wf(old(self)@),
        ensures
            final(self)@ == Seq::new(MAX_LANDMARKS as nat, |i: int| None::<LandV>),
            mem_wf(final(self)@),
    {
        let mut i: usize = 0;
        while i < self.landmarks.len()
            invariant
                i <= self.landmarks@.len(),
                self.landmarks@.len() == old(self)@.len(),
                self@.len() == old(self)@.len(),
                forall|j: int| 0 <= j < i ==> self@[j] is None,
            decreases self.landmarks@.len() - i,
        {
            let ghost prev = self@;
            self.landmarks.set(i, None);
            proof {
                assert(self@ =~= prev.update(i as int, None::<LandV>));
            }
            i = i + 1;
        }
        proof {
            assert(self@ =~= Seq::new(MAX_LANDMARKS as nat, |i: int| None::<LandV>));
        }
    }
}

/// Scaling by a factor in `[0, 1]` keeps a nonnegative value nonnegative
/// and never grows it.
pub proof fn lemma_fmul_frac_le(a: int, f: int)
    requires
        0 <= a <= FIX_BOUND as int,
        0 <= f <= SCALE as int,
    ensures
        0 <= fmul(a, f) <= a,
{
    assert(0 <= a * f <= a * SCALE as int) by (nonlinear_arith)
        requires
            0 <= a,
            0 <= f <= SCALE as int,
    ;
    assert(dtz(a * f, SCALE as int) == (a * f) / (SCALE as int));
    assert((a * f) / (SCALE as int) <= a && 0 <= (a * f) / (SCALE as int)) by (nonlinear_arith)
        requires
            0 <= a * f <= a * (SCALE as int),
            0 <= a,
            SCALE as int > 0,
    ;
}


/// Unless refreshed, a stored landmark's reliability strictly decreases on
/// every decay pass, and any landmark that survives the pass keeps its
/// reliability in `(0, 1]`.
pub proof fn lemma_decay_strictly_decreases(m: MemV, i: int)
    requires
        mem_wf(m),
        0 <= i < m.len(),
        decay_all_s(m)[i] is Some,
    ensures
        m[i] is Some,
        decay_all_s(m)[i].unwrap().reliability < m[i].unwrap().reliability,
        0 < decay_all_s(m)[i].unwrap().reliability <= SCALE as int,
{
    let rel = m[i].unwrap().reliability;
    assert(dtz(rel * (LANDMARK_DECAY as int), SCALE as int) == (rel * (LANDMARK_DECAY as int)) / (
    SCALE as int));
    assert(0 <= (rel * (LANDMARK_DECAY as int)) / (SCALE as int) < rel) by (nonlinear_arith)
        requires
            10_000 <= rel <= 1_000_000,
            LANDMARK_DECAY as int == 995_000,
            SCALE as int == 1_000_000,
    ;
}

/// The count never exceeds the number of slots.
pub proof fn count_le_len(m: MemV, i: nat)
    requires
        i <= m.len(),
    ensures
        count_from_s(m, i) <= m.len() - i,
    decreases m.len() - i,
{
    if i < m.len() {
        count_le_len(m, i + 1);
    }
}

/// The landmark lies strictly within `rad` of the position.
fn is_near(l: &Landmark, x: Fix, y: Fix, rad: Fix) -> (r: bool)
    ensures
        r == land_near_s(l@, x@, y@, rad@),
{
    let dx = l.x.sub(x);
    let dy = l.y.sub(y);
    let dxm: i128 = dx.micros() as i128;
    let dym: i128 = dy.micros() as i128;
    let rm: i128 = rad.micros() as i128;
    proof {
        assert(dxm * dxm <= 4_000_000_000_000_000_000_000_000 && dxm * dxm >= 0)
            by (nonlinear_arith)
            requires
                -2_000_000_000_000 <= dxm <= 2_000_000_000_000,
        ;
        assert(dym * dym <= 4_000_000_000_000_000_000_000_000 && dym * dym >= 0)
            by (nonlinear_arith)
            requires
                -2_000_000_000_000 <= dym <= 2_000_000_000_000,
        ;
        assert(rm * rm <= 4_000_000_000_000_000_000_000_000 && rm * rm >= 0) by (nonlinear_arith)
            requires
                -2_000_000_000_000 <= rm <= 2_000_000_000_000,
        ;
    }
    dxm * dxm + dym * dym < rm * rm
}

/// Occupied-slot count from `i` (mirrors [`count_from_s`]).
fn count_rec(v: &Vec<Option<Landmark>>, i: usize) -> (r: usize)
    requires
        i <= v@.len(),
        v@.len() <= MAX_LANDMARKS,
    ensures
        r as nat == count_from_s(v@.map_values(|o: Option<Landmark>| opt_land_v(o)), i as nat),
        r <= v@.len() - i,
    decreases v@.len() - i,
{
    if i >= v.len() {
        0
    } else if v[i].is_some() {
        1 + count_rec(v, i + 1)
    } else {
        count_rec(v, i + 1)
    }
}

/// First nearby occupied slot from `i` (mirrors [`find_near_s`]).
fn find_near_rec(v: &Vec<Option<Landmark>>, x: Fix, y: Fix, rad: Fix, i: usize) -> (r: usize)
    requires
        i <= v@.len(),
    ensures
        r as nat == find_near_s(
            v@.map_values(|o: Option<Landmark>| opt_land_v(o)),
            x@,
            y@,
            rad@,
            i as nat,
        ),
        r <= v@.len(),
        r < v@.len() ==> v@[r as int] is Some,
    decreases v@.len() - i,
{
    if i >= v.len() {
        v.len()
    } else {
        let hit = match &v[i] {
            Some(l) => is_near(l, x, y, rad),
            None => false,
        };
        if hit {
            i
        } else {
            find_near_rec(v, x, y, rad, i + 1)
        }
    }
}

/// First empty slot from `i` (mirrors [`first_empty_s`]).
fn first_empty_rec(v: &Vec<Option<Landmark>>, i: usize) -> (r: usize)
    requires
        i <= v@.len(),
    ensures
        r as nat == first_empty_s(v@.map_values(|o: Option<Landmark>| opt_land_v(o)), i as nat),
        r <= v@.len(),
    decreases v@.len() - i,
{
    if i >= v.len() {
        v.len()
    } else if v[i].is_none() {
        i
    } else {
        first_empty_rec(v, i + 1)
    }
}

/// Index of the least valuable stored landmark (mirrors
/// [`min_value_idx_s`]).
fn min_value_rec(v: &Vec<Option<Landmark>>, i: usize, acc: Option<usize>) -> (r: Option<usize>)
    requires
        i <= v@.len(),
        match acc {
            Some(a) => a < i && v@[a as int] is Some,
            None => true,
        },
    ensures
        ({
            let m = v@.map_values(|o: Option<Landmark>| opt_land_v(o));
            let acci: int = match acc {
                Some(a) => a as int,
                None => -1,
            };
            let ri: int = match r {
                Some(a) => a as int,
                None => -1,
            };
            &&& ri == min_value_idx_s(m, i as nat, acci)
            &&& (match r {
                Some(a) => a < v@.len() && v@[a as int] is Some,
                None => true,
            })
        }),
    decreases v@.len() - i,
{
    if i >= v.len() {
        acc
    } else {
        let next: Option<usize> = match &v[i] {
            Some(l) => {
                let take = match acc {
                    Some(a) => {
                        let best = v[a].unwrap();
                        l.value().lt(best.value())
                    },
                    None => true,
                };
                if take {
                    Some(i)
                } else {
                    acc
                }
            },
            None => acc,
        };
        min_value_rec(v, i + 1, next)
    }
}

/// Best distant landmark from `i` (mirrors [`best_distant_from_s`]).
fn best_distant_rec(
    v: &Vec<Option<Landmark>>,
    x: Fix,
    y: Fix,
    mind: Fix,
    i: usize,
    acc: Option<Landmark>,
) -> (r: Option<Landmark>)
    requires
        i <= v@.len(),
    ensures
        opt_land_v(r) == best_distant_from_s(
            v@.map_values(|o: Option<Landmark>| opt_land_v(o)),
            x@,
            y@,
            mind@,
            i as nat,
            opt_land_v(acc),
        ),
    decreases v@.len() - i,
{
    if i >= v.len() {
        acc
    } else {
        let next: Option<Landmark> = match &v[i] {
            Some(l) => {
                let far = !is_near(l, x, y, mind);
                let better = match &acc {
                    Some(b) => l.value().ge(b.value()),
                    None => true,
                };
                if far && better {
                    Some(*l)
                } else {
                    acc
                }
            },
            None => acc,
        };
        best_distant_rec(v, x, y, mind, i + 1, next)
    }
}

} // verus!
