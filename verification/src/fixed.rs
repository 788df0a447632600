//! Fixed-point scalars.
//!
//! A [`Fix`] stores a real number as micro-units in an `i64`: the value `1.5`
//! is stored as `1_500_000`. Every operation is total: results are clamped
//! into the representable band `[-FIX_BOUND, FIX_BOUND]`, so state stays
//! bounded and no operation can overflow or produce an undefined value.

use vstd::prelude::*;

verus! {

/// One whole unit in micro-units.
pub const SCALE: i64 = 1_000_000;

/// Largest magnitude (in micro-units) a fixed-point value may carry.
pub const FIX_BOUND: i64 = 1_000_000_000_000;

/// Clamp a mathematical integer into the representable band.
pub open spec fn fcl(x: int) -> int {
    if x > FIX_BOUND as int {
        FIX_BOUND as int
    } else if x < -(FIX_BOUND as int) {
        -(FIX_BOUND as int)
    } else {
        x
    }
}

/// Magnitude of a mathematical integer.
pub open spec fn iabs(x: int) -> int {
    if x >= 0 {
        x
    } else {
        -x
    }
}

/// Division truncating toward zero, total (zero divisor gives zero).
pub open spec fn dtz(a: int, b: int) -> int {
    if b == 0 {
        0
    } else if (a >= 0) == (b >= 0) {
        iabs(a) / iabs(b)
    } else {
        -(iabs(a) / iabs(b))
    }
}

/// Addition in the clamped fixed-point domain.
pub open spec fn fadd(a: int, b: int) -> int {
    fcl(a + b)
}

/// Subtraction in the clamped fixed-point domain.
pub open spec fn fsub(a: int, b: int) -> int {
    fcl(a - b)
}

/// Multiplication in the clamped fixed-point domain.
pub open spec fn fmul(a: int, b: int) -> int {
    fcl(dtz(a * b, SCALE as int))
}

/// Division in the clamped fixed-point domain (zero divisor gives zero).
pub open spec fn fdiv(a: int, b: int) -> int {
    if b == 0 {
        0
    } else {
        fcl(dtz(a * (SCALE as int), b))
    }
}

/// Clamp into `[lo, hi]` (callers keep `lo <= hi`).
pub open spec fn fclamp(x: int, lo: int, hi: int) -> int {
    if x < lo {
        lo
    } else if x > hi {
        hi
    } else {
        x
    }
}

/// Minimum of two integers.
pub open spec fn fmin(a: int, b: int) -> int {
    if a <= b {
        a
    } else {
        b
    }
}

/// Maximum of two integers.
pub open spec fn fmax(a: int, b: int) -> int {
    if a >= b {
        a
    } else {
        b
    }
}

/// A fixed-point scalar: micro-units in an `i64`, always within
/// `[-FIX_BOUND, FIX_BOUND]`.
#[derive(Clone, Copy, PartialEq, Eq, Structural, Debug)]
pub struct Fix {
    v: i64,
}

impl View for Fix {
    type V = int;

    closed spec fn view(&self) -> int {
        self.v as int
    }
}

impl Fix {
    #[verifier::type_invariant]
    spec fn inv(self) -> bool {
        -FIX_BOUND <= self.v <= FIX_BOUND
    }

    /// The zero value.
    pub fn zero() -> (r: Fix)
        ensures
            r@ == 0,
    {
        Fix { v: 0 }
    }

    /// Build a value from raw micro-units, clamped into the band.
    pub fn from_micros(m: i64) -> (r: Fix)
        ensures
            r@ == fcl(m as int),
    {
        let c: i64 = if m > FIX_BOUND {
            FIX_BOUND
        } else if m < -FIX_BOUND {
            -FIX_BOUND
        } else {
            m
        };
        Fix { v: c }
    }

    /// Build a value from whole units, clamped into the band.
    pub fn from_int(i: i64) -> (r: Fix)
        ensures
            r@ == fcl(i as int * SCALE as int),
    {
        let w: i128 = (i as i128) * (SCALE as i128);
        let c: i128 = if w > FIX_BOUND as i128 {
            FIX_BOUND as i128
        } else if w < -(FIX_BOUND as i128) {
            -(FIX_BOUND as i128)
        } else {
            w
        };
        Fix { v: c as i64 }
    }

    /// The raw micro-unit representation.
    pub fn micros(self) -> (r: i64)
        ensures
            r as int == self@,
            -FIX_BOUND <= r <= FIX_BOUND,
    {
        proof {
            use_type_invariant(&self);
        }
        self.v
    }

    /// Clamped addition.
    pub fn add(self, o: Fix) -> (r: Fix)
        ensures
            r@ == fadd(self@, o@),
    {
        proof {
            use_type_invariant(&self);
            use_type_invariant(&o);
        }
        let s: i64 = self.v + o.v;
        let c: i64 = if s > FIX_BOUND {
            FIX_BOUND
        } else if s < -FIX_BOUND {
            -FIX_BOUND
        } else {
            s
        };
        Fix { v: c }
    }

    /// Clamped subtraction.
    pub fn sub(self, o: Fix) -> (r: Fix)
        ensures
            r@ == fsub(self@, o@),
    {
        proof {
            use_type_invariant(&self);
            use_type_invariant(&o);
        }
        let s: i64 = self.v - o.v;
        let c: i64 = if s > FIX_BOUND {
            FIX_BOUND
        } else if s < -FIX_BOUND {
            -FIX_BOUND
        } else {
            s
        };
        Fix { v: c }
    }

    /// Clamped fixed-point multiplication (truncates toward zero).
    pub fn mul(self, o: Fix) -> (r: Fix)
        ensures
            r@ == fmul(self@, o@),
    {
        proof {
            use_type_invariant(&self);
            use_type_invariant(&o);
        }
        let a: i128 = self.v as i128;
        let b: i128 = o.v as i128;
        let neg: bool = (a < 0) != (b < 0);
        let ma: u128 = if a < 0 {
            (-a) as u128
        } else {
            a as u128
        };
        let mb: u128 = if b < 0 {
            (-b) as u128
        } else {
            b as u128
        };
        proof {
            assert(ma as int == iabs(self@));
            assert(mb as int == iabs(o@));
            assert(ma as int * mb as int == iabs(self@ * o@)) by (nonlinear_arith)
                requires
                    ma as int == iabs(self@),
                    mb as int == iabs(o@),
            ;
            assert(ma as int * mb as int <= (FIX_BOUND as int) * (FIX_BOUND as int))
                by (nonlinear_arith)
                requires
                    0 <= ma as int <= FIX_BOUND as int,
                    0 <= mb as int <= FIX_BOUND as int,
            ;
        }
        let p: u128 = ma * mb;
        let q: u128 = p / (SCALE as u128);
        let qc: u128 = if q > FIX_BOUND as u128 {
            FIX_BOUND as u128
        } else {
            q
        };
        let v: i64 = if neg {
            -(qc as i64)
        } else {
            qc as i64
        };
        proof {
            assert(q as int == iabs(self@ * o@) / (SCALE as int));
            assert(((self@ < 0) != (o@ < 0)) ==> self@ * o@ <= 0) by (nonlinear_arith);
            assert((!((self@ < 0) != (o@ < 0))) ==> self@ * o@ >= 0) by (nonlinear_arith);
            assert(v as int == fcl(dtz(self@ * o@, SCALE as int)));
        }
        Fix { v }
    }

    /// Clamped fixed-point division (zero divisor gives zero).
    pub fn div(self, o: Fix) -> (r: Fix)
        ensures
            r@ == fdiv(self@, o@),
    {
        proof {
            use_type_invariant(&self);
            use_type_invariant(&o);
        }
        if o.v == 0 {
            return Fix { v: 0 };
        }
        let a: i128 = self.v as i128;
        let b: i128 = o.v as i128;
        let neg: bool = (a < 0) != (b < 0);
        let ma: u128 = if a < 0 {
            (-a) as u128
        } else {
            a as u128
        };
        let mb: u128 = if b < 0 {
            (-b) as u128
        } else {
            b as u128
        };
        let p: u128 = ma * (SCALE as u128);
        let q: u128 = p / mb;
        let qc: u128 = if q > FIX_BOUND as u128 {
            FIX_BOUND as u128
        } else {
            q
        };
        let v: i64 = if neg {
            -(qc as i64)
        } else {
            qc as i64
        };
        proof {
            assert(ma as int == iabs(self@));
            assert(mb as int == iabs(o@));
            assert(p as int == iabs(self@ * (SCALE as int))) by (nonlinear_arith)
                requires
                    ma as int == iabs(self@),
                    p as int == ma as int * (SCALE as int),
            ;
            assert((self@ * (SCALE as int) >= 0) == (self@ >= 0)) by (nonlinear_arith);
            assert((self@ * (SCALE as int) < 0) == (self@ < 0)) by (nonlinear_arith);
            assert(q as int == iabs(self@ * (SCALE as int)) / iabs(o@));
            assert(v as int == fcl(dtz(self@ * (SCALE as int), o@)));
        }
        Fix { v }
    }

    /// Negation.
    pub fn neg(self) -> (r: Fix)
        ensures
            r@ == -self@,
    {
        proof {
            use_type_invariant(&self);
        }
        Fix { v: -self.v }
    }

    /// Magnitude.
    pub fn abs(self) -> (r: Fix)
        ensures
            r@ == iabs(self@),
    {
        proof {
            use_type_invariant(&self);
        }
        if self.v < 0 {
            Fix { v: -self.v }
        } else {
            Fix { v: self.v }
        }
    }

    /// Clamp into `[lo, hi]`.
    pub fn clamp(self, lo: Fix, hi: Fix) -> (r: Fix)
        requires
            lo@ <= hi@,
        ensures
            r@ == fclamp(self@, lo@, hi@),
    {
        if self.v < lo.v {
            lo
        } else if self.v > hi.v {
            hi
        } else {
            self
        }
    }

    /// Minimum.
    pub fn min(self, o: Fix) -> (r: Fix)
        ensures
            r@ == fmin(self@, o@),
    {
        if self.v <= o.v {
            self
        } else {
            o
        }
    }

    /// Maximum.
    pub fn max(self, o: Fix) -> (r: Fix)
        ensures
            r@ == fmax(self@, o@),
    {
        if self.v >= o.v {
            self
        } else {
            o
        }
    }

    /// Strictly less than.
    pub fn lt(self, o: Fix) -> (r: bool)
        ensures
            r == (self@ < o@),
    {
        self.v < o.v
    }

    /// Less than or equal.
    pub fn le(self, o: Fix) -> (r: bool)
        ensures
            r == (self@ <= o@),
    {
        self.v <= o.v
    }

    /// Strictly greater than.
    pub fn gt(self, o: Fix) -> (r: bool)
        ensures
            r == (self@ > o@),
    {
        self.v > o.v
    }

    /// Greater than or equal.
    pub fn ge(self, o: Fix) -> (r: bool)
        ensures
            r == (self@ >= o@),
    {
        self.v >= o.v
    }
}

} // verus!
