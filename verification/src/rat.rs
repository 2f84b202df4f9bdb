//! Exact rational scalars.
//!
//! Ray parameters, intersection points and model-matrix entries are exact
//! fractions of integers. A fraction is kept unreduced: its mathematical
//! value is `num / den` with `den > 0`, and two fractions are compared by
//! cross-multiplication. The bounds [`NUM_BOUND`] and [`DEN_BOUND`] keep
//! every cross product inside `i128`.

use vstd::prelude::*;

verus! {

/// Largest numerator magnitude a well-formed fraction may have.
pub const NUM_BOUND: i128 = 100_000_000_000_000_000_000_000;

/// Largest denominator a well-formed fraction may have.
pub const DEN_BOUND: i128 = 100_000_000_000_000;

/// The mathematical content of a fraction: an integer numerator and a
/// positive integer denominator, standing for the rational `num / den`.
pub ghost struct GRat {
    pub num: int,
    pub den: int,
}

/// `a <= b` on rationals with positive denominators, by cross-multiplication.
pub open spec fn grat_le(a: GRat, b: GRat) -> bool {
    a.num * b.den <= b.num * a.den
}

/// `a < b` on rationals with positive denominators.
pub open spec fn grat_lt(a: GRat, b: GRat) -> bool {
    a.num * b.den < b.num * a.den
}

/// `a == b` as rational values (the representations may differ).
pub open spec fn grat_eq(a: GRat, b: GRat) -> bool {
    a.num * b.den == b.num * a.den
}

/// The rational `a` is exactly the integer `i`.
pub open spec fn grat_is_int(a: GRat, i: int) -> bool {
    a.num == i * a.den
}

/// The rational `a` is at least zero.
pub open spec fn grat_nonneg(a: GRat) -> bool {
    a.num >= 0
}

/// The larger of two rationals, taking `b` on ties.
pub open spec fn grat_max(a: GRat, b: GRat) -> GRat {
    if grat_le(a, b) {
        b
    } else {
        a
    }
}

/// The smaller of two rationals, taking `b` on ties.
pub open spec fn grat_min(a: GRat, b: GRat) -> GRat {
    if grat_le(b, a) {
        b
    } else {
        a
    }
}

/// A fraction whose value and representation stay inside the bounds that
/// keep cross-multiplication free of `i128` overflow.
pub open spec fn grat_wf(a: GRat) -> bool {
    &&& 0 < a.den <= DEN_BOUND
    &&& -NUM_BOUND <= a.num <= NUM_BOUND
}

/// Bound on a product of two bounded integers.
pub proof fn lemma_prod_bound(a: int, b: int, abound: int, bbound: int)
    by (nonlinear_arith)
    requires
        -abound <= a <= abound,
        -bbound <= b <= bbound,
        0 <= abound,
        0 <= bbound,
    ensures
        -(abound * bbound) <= a * b <= abound * bbound,
{
}

/// An exact fraction: the rational `num / den`, with `den > 0`.
#[derive(Clone, Copy, PartialEq, Eq, Structural, Debug)]
pub struct Rat {
    pub num: i128,
    pub den: i128,
}

impl View for Rat {
    type V = GRat;

    open spec fn view(&self) -> GRat {
        GRat { num: self.num as int, den: self.den as int }
    }
}

impl Rat {
    /// The representation obeys the well-formedness bounds.
    pub open spec fn wf(self) -> bool {
        grat_wf(self@)
    }

    /// The fraction `num / den`.
    pub fn new(num: i64, den: i64) -> (r: Rat)
        requires
            0 < den <= DEN_BOUND,
        ensures
            r@ == (GRat { num: num as int, den: den as int }),
            r.wf(),
    {
        Rat { num: num as i128, den: den as i128 }
    }

    /// The integer `i` as a fraction.
    pub fn from_int(i: i64) -> (r: Rat)
        ensures
            r@ == (GRat { num: i as int, den: 1int }),
            r.wf(),
            grat_is_int(r@, i as int),
    {
        Rat { num: i as i128, den: 1 }
    }

    /// Whether `self <= other` as rational values.
    pub fn le(&self, other: &Rat) -> (r: bool)
        requires
            self.wf(),
            other.wf(),
        ensures
            r == grat_le(self@, other@),
    {
        proof {
            lemma_prod_bound(self.num as int, other.den as int, NUM_BOUND as int, DEN_BOUND as int);
            lemma_prod_bound(other.num as int, self.den as int, NUM_BOUND as int, DEN_BOUND as int);
        }
        self.num * other.den <= other.num * self.den
    }

    /// Whether `self < other` as rational values.
    pub fn lt(&self, other: &Rat) -> (r: bool)
        requires
            self.wf(),
            other.wf(),
        ensures
            r == grat_lt(self@, other@),
    {
        proof {
            lemma_prod_bound(self.num as int, other.den as int, NUM_BOUND as int, DEN_BOUND as int);
            lemma_prod_bound(other.num as int, self.den as int, NUM_BOUND as int, DEN_BOUND as int);
        }
        self.num * other.den < other.num * self.den
    }

    /// Whether `self` and `other` denote the same rational value.
    pub fn equals(&self, other: &Rat) -> (r: bool)
        requires
            self.wf(),
            other.wf(),
        ensures
            r == grat_eq(self@, other@),
    {
        proof {
            lemma_prod_bound(self.num as int, other.den as int, NUM_BOUND as int, DEN_BOUND as int);
            lemma_prod_bound(other.num as int, self.den as int, NUM_BOUND as int, DEN_BOUND as int);
        }
        self.num * other.den == other.num * self.den
    }

    /// Whether `self` is exactly the integer `i`.
    pub fn eq_int(&self, i: i64) -> (r: bool)
        requires
            self.wf(),
        ensures
            r == grat_is_int(self@, i as int),
    {
        proof {
            lemma_prod_bound(i as int, self.den as int, 0x8000_0000_0000_0000, DEN_BOUND as int);
        }
        self.num == (i as i128) * self.den
    }

    /// Whether `self >= 0` as a rational value.
    pub fn is_nonneg(&self) -> (r: bool)
        requires
            self.wf(),
        ensures
            r == grat_nonneg(self@),
    {
        self.num >= 0
    }

    /// The larger of `self` and `other`, taking `other` on ties.
    pub fn max(&self, other: &Rat) -> (r: Rat)
        requires
            self.wf(),
            other.wf(),
        ensures
            r@ == grat_max(self@, other@),
            r.wf(),
    {
        if self.le(other) {
            *other
        } else {
            *self
        }
    }

    /// The smaller of `self` and `other`, taking `other` on ties.
    pub fn min(&self, other: &Rat) -> (r: Rat)
        requires
            self.wf(),
            other.wf(),
        ensures
            r@ == grat_min(self@, other@),
            r.wf(),
    {
        if other.le(self) {
            *other
        } else {
            *self
        }
    }
}

/// A point or vector with exact rational components, as produced by the
/// intersection routines.
#[derive(Clone, Copy, PartialEq, Eq, Structural, Debug)]
pub struct RatVec3 {
    pub x: Rat,
    pub y: Rat,
    pub z: Rat,
}

impl RatVec3 {
    /// Every component obeys the fraction bounds.
    pub open spec fn wf(self) -> bool {
        self.x.wf() && self.y.wf() && self.z.wf()
    }

    pub fn new(x: Rat, y: Rat, z: Rat) -> (v: RatVec3)
        ensures
            v == (RatVec3 { x, y, z }),
    {
        RatVec3 { x, y, z }
    }

    /// Whether `self` is exactly the integer point `(x, y, z)`.
    pub fn eq_ints(&self, x: i64, y: i64, z: i64) -> (r: bool)
        requires
            self.wf(),
        ensures
            r == (grat_is_int(self.x@, x as int) && grat_is_int(self.y@, y as int)
                && grat_is_int(self.z@, z as int)),
    {
        let rx = self.x.eq_int(x);
        let ry = self.y.eq_int(y);
        let rz = self.z.eq_int(z);
        rx && ry && rz
    }
}

} // verus!
