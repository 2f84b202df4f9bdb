//! Axis-aligned bounding boxes computed from vertex data.
//!
//! A box is six per-axis bounds. Computing a box from an empty vertex set
//! yields the inverted sentinel whose minima are `+inf` and whose maxima are
//! `-inf`; callers treat that box as "no geometry", and every intersection
//! test against it misses.

use vstd::prelude::*;
use crate::vec3::Vec3;

verus! {

/// One bound of an axis-aligned box: either a finite coordinate or one of
/// the two infinities used by the empty box.
#[derive(Clone, Copy, PartialEq, Eq, Structural, Debug)]
pub enum Bound {
    NegInf,
    Finite(i64),
    PosInf,
}

/// The order on bounds, with `-inf` below every finite coordinate and
/// `+inf` above.
pub open spec fn bound_le(a: Bound, b: Bound) -> bool {
    match (a, b) {
        (Bound::NegInf, _) => true,
        (_, Bound::PosInf) => true,
        (Bound::Finite(x), Bound::Finite(y)) => x <= y,
        _ => false,
    }
}

/// The smaller of two bounds.
pub open spec fn bound_min(a: Bound, b: Bound) -> Bound {
    if bound_le(a, b) {
        a
    } else {
        b
    }
}

/// The larger of two bounds.
pub open spec fn bound_max(a: Bound, b: Bound) -> Bound {
    if bound_le(a, b) {
        b
    } else {
        a
    }
}

/// A finite bound lies within the world coordinate range; the infinities
/// carry no coordinate.
pub open spec fn bound_in_range(b: Bound) -> bool {
    match b {
        Bound::Finite(c) => -crate::vec3::COORD_BOUND <= c <= crate::vec3::COORD_BOUND,
        _ => true,
    }
}

/// An axis-aligned bounding box: per-axis minima and maxima.
#[derive(Clone, Copy, PartialEq, Eq, Structural, Debug)]
pub struct BoundingBox {
    pub x_min: Bound,
    pub x_max: Bound,
    pub y_min: Bound,
    pub y_max: Bound,
    pub z_min: Bound,
    pub z_max: Bound,
}

/// The box computed from no vertices at all: minima at `+inf`, maxima at
/// `-inf`.
pub open spec fn empty_box() -> BoundingBox {
    BoundingBox {
        x_min: Bound::PosInf,
        x_max: Bound::NegInf,
        y_min: Bound::PosInf,
        y_max: Bound::NegInf,
        z_min: Bound::PosInf,
        z_max: Bound::NegInf,
    }
}

/// The box for a vertex sequence: the running min/max reduction over every
/// component, seeded with the empty box.
pub open spec fn aabb_spec(s: Seq<Vec3>) -> BoundingBox
    decreases s.len(),
{
    if s.len() == 0 {
        empty_box()
    } else {
        let prev = aabb_spec(s.drop_last());
        let v = s.last();
        BoundingBox {
            x_min: bound_min(prev.x_min, Bound::Finite(v.x)),
            x_max: bound_max(prev.x_max, Bound::Finite(v.x)),
            y_min: bound_min(prev.y_min, Bound::Finite(v.y)),
            y_max: bound_max(prev.y_max, Bound::Finite(v.y)),
            z_min: bound_min(prev.z_min, Bound::Finite(v.z)),
            z_max: bound_max(prev.z_max, Bound::Finite(v.z)),
        }
    }
}

impl BoundingBox {
    /// All six bounds are finite coordinates.
    pub open spec fn is_finite(self) -> bool {
        &&& self.x_min is Finite
        &&& self.x_max is Finite
        &&& self.y_min is Finite
        &&& self.y_max is Finite
        &&& self.z_min is Finite
        &&& self.z_max is Finite
    }

    /// The box is the inverted "no geometry" sentinel.
    pub open spec fn is_degenerate(self) -> bool {
        self == empty_box()
    }

    /// A box is either fully finite or the empty sentinel; the two public
    /// constructors establish this and nothing mutates a box.
    pub open spec fn wf(self) -> bool {
        self.is_finite() || self.is_degenerate()
    }

    /// Every finite bound lies within the world coordinate range.
    pub open spec fn in_range(self) -> bool {
        &&& bound_in_range(self.x_min)
        &&& bound_in_range(self.x_max)
        &&& bound_in_range(self.y_min)
        &&& bound_in_range(self.y_max)
        &&& bound_in_range(self.z_min)
        &&& bound_in_range(self.z_max)
    }

    /// A box with the six given finite bounds.
    pub fn new(x_min: i64, x_max: i64, y_min: i64, y_max: i64, z_min: i64, z_max: i64) -> (r:
        BoundingBox)
        ensures
            r == (BoundingBox {
                x_min: Bound::Finite(x_min),
                x_max: Bound::Finite(x_max),
                y_min: Bound::Finite(y_min),
                y_max: Bound::Finite(y_max),
                z_min: Bound::Finite(z_min),
                z_max: Bound::Finite(z_max),
            }),
            r.is_finite(),
            r.wf(),
    {
        BoundingBox {
            x_min: Bound::Finite(x_min),
            x_max: Bound::Finite(x_max),
            y_min: Bound::Finite(y_min),
            y_max: Bound::Finite(y_max),
            z_min: Bound::Finite(z_min),
            z_max: Bound::Finite(z_max),
        }
    }

    /// The inverted box that stands for "no geometry yet".
    pub fn empty() -> (r: BoundingBox)
        ensures
            r == empty_box(),
            r.wf(),
    {
        BoundingBox {
            x_min: Bound::PosInf,
            x_max: Bound::NegInf,
            y_min: Bound::PosInf,
            y_max: Bound::NegInf,
            z_min: Bound::PosInf,
            z_max: Bound::NegInf,
        }
    }

    /// Whether the box is the "no geometry" sentinel.
    pub fn is_empty(&self) -> (r: bool)
        ensures
            r == self.is_degenerate(),
    {
        match (self.x_min, self.x_max, self.y_min, self.y_max, self.z_min, self.z_max) {
            (Bound::PosInf, Bound::NegInf, Bound::PosInf, Bound::NegInf, Bound::PosInf, Bound::NegInf) => true,
            _ => false,
        }
    }
}

/// The smaller of two bounds.
fn bound_min_ex(a: Bound, b: Bound) -> (r: Bound)
    ensures
        r == bound_min(a, b),
{
    let le = match (a, b) {
        (Bound::NegInf, _) => true,
        (_, Bound::PosInf) => true,
        (Bound::Finite(x), Bound::Finite(y)) => x <= y,
        _ => false,
    };
    if le {
        a
    } else {
        b
    }
}

/// The larger of two bounds.
fn bound_max_ex(a: Bound, b: Bound) -> (r: Bound)
    ensures
        r == bound_max(a, b),
{
    let le = match (a, b) {
        (Bound::NegInf, _) => true,
        (_, Bound::PosInf) => true,
        (Bound::Finite(x), Bound::Finite(y)) => x <= y,
        _ => false,
    };
    if le {
        b
    } else {
        a
    }
}

/// The bounding box of a vertex sequence: a single pass tracking the
/// running minimum and maximum of every component, seeded with the
/// inverted empty box. An empty input yields exactly that empty box.
pub fn get_bounding_box(vertices: &Vec<Vec3>) -> (r: BoundingBox)
    ensures
        r == aabb_spec(vertices@),
        r.wf(),
{
    let mut acc = BoundingBox::empty();
    let n = vertices.len();
    let mut i: usize = 0;
    while i < n
        invariant
            0 <= i <= n,
            n == vertices@.len(),
            acc == aabb_spec(vertices@.take(i as int)),
        decreases n - i,
    {
        let v = vertices[i];
        acc = BoundingBox {
            x_min: bound_min_ex(acc.x_min, Bound::Finite(v.x)),
            x_max: bound_max_ex(acc.x_max, Bound::Finite(v.x)),
            y_min: bound_min_ex(acc.y_min, Bound::Finite(v.y)),
            y_max: bound_max_ex(acc.y_max, Bound::Finite(v.y)),
            z_min: bound_min_ex(acc.z_min, Bound::Finite(v.z)),
            z_max: bound_max_ex(acc.z_max, Bound::Finite(v.z)),
        };
        proof {
            assert(vertices@.take(i + 1).drop_last() =~= vertices@.take(i as int));
            assert(vertices@.take(i + 1).last() == vertices@[i as int]);
        }
        i = i + 1;
    }
    proof {
        assert(vertices@.take(n as int) =~= vertices@);
        lemma_aabb_wf(vertices@);
    }
    acc
}

/// The computed box is always well formed: finite for a non-empty vertex
/// sequence, the empty sentinel otherwise.
pub proof fn lemma_aabb_wf(s: Seq<Vec3>)
    ensures
        s.len() == 0 ==> aabb_spec(s) == empty_box(),
        s.len() > 0 ==> aabb_spec(s).is_finite(),
        aabb_spec(s).wf(),
    decreases s.len(),
{
    if s.len() > 0 {
        lemma_aabb_wf(s.drop_last());
    }
}

/// For a non-empty vertex sequence, each computed minimum and maximum is
/// both a bound for every vertex and attained by some vertex. This pins
/// the box down uniquely.
pub proof fn lemma_aabb_characterization(s: Seq<Vec3>)
    requires
        s.len() > 0,
    ensures
        forall|i: int|
            #![trigger s[i]]
            0 <= i < s.len() ==> {
                &&& bound_le(aabb_spec(s).x_min, Bound::Finite(s[i].x))
                &&& bound_le(Bound::Finite(s[i].x), aabb_spec(s).x_max)
                &&& bound_le(aabb_spec(s).y_min, Bound::Finite(s[i].y))
                &&& bound_le(Bound::Finite(s[i].y), aabb_spec(s).y_max)
                &&& bound_le(aabb_spec(s).z_min, Bound::Finite(s[i].z))
                &&& bound_le(Bound::Finite(s[i].z), aabb_spec(s).z_max)
            },
        exists|i: int| 0 <= i < s.len() && aabb_spec(s).x_min == Bound::Finite(#[trigger] s[i].x),
        exists|i: int| 0 <= i < s.len() && aabb_spec(s).x_max == Bound::Finite(#[trigger] s[i].x),
        exists|i: int| 0 <= i < s.len() && aabb_spec(s).y_min == Bound::Finite(#[trigger] s[i].y),
        exists|i: int| 0 <= i < s.len() && aabb_spec(s).y_max == Bound::Finite(#[trigger] s[i].y),
        exists|i: int| 0 <= i < s.len() && aabb_spec(s).z_min == Bound::Finite(#[trigger] s[i].z),
        exists|i: int| 0 <= i < s.len() && aabb_spec(s).z_max == Bound::Finite(#[trigger] s[i].z),
    decreases s.len(),
{
    let last = s.len() - 1;
    if s.len() == 1 {
        assert(aabb_spec(s).x_min == Bound::Finite(s[0].x));
        assert(aabb_spec(s).x_max == Bound::Finite(s[0].x));
        assert(aabb_spec(s).y_min == Bound::Finite(s[0].y));
        assert(aabb_spec(s).y_max == Bound::Finite(s[0].y));
        assert(aabb_spec(s).z_min == Bound::Finite(s[0].z));
        assert(aabb_spec(s).z_max == Bound::Finite(s[0].z));
    } else {
        lemma_aabb_characterization(s.drop_last());
        assert(forall|i: int| 0 <= i < s.len() - 1 ==> s.drop_last()[i] == s[i]);
        assert(s.last() == s[last]);
    }
}

/// A box computed from vertices within the world coordinate range has all
/// of its finite bounds within that range, as the ray tests require.
pub proof fn lemma_aabb_in_range(s: Seq<Vec3>)
    requires
        forall|i: int| 0 <= i < s.len() ==> (#[trigger] s[i]).in_range(),
    ensures
        aabb_spec(s).in_range(),
    decreases s.len(),
{
    if s.len() > 0 {
        assert(forall|i: int| 0 <= i < s.len() - 1 ==> s.drop_last()[i] == s[i]);
        lemma_aabb_in_range(s.drop_last());
        assert(s.last() == s[s.len() - 1]);
    }
}

/// A box computed from at least one vertex is properly ordered: on every
/// axis its minimum does not exceed its maximum.
pub proof fn lemma_aabb_min_le_max(s: Seq<Vec3>)
    requires
        s.len() > 0,
    ensures
        bound_le(aabb_spec(s).x_min, aabb_spec(s).x_max),
        bound_le(aabb_spec(s).y_min, aabb_spec(s).y_max),
        bound_le(aabb_spec(s).z_min, aabb_spec(s).z_max),
{
    lemma_aabb_characterization(s);
    assert(bound_le(aabb_spec(s).x_min, Bound::Finite(s[0].x)));
    assert(bound_le(Bound::Finite(s[0].x), aabb_spec(s).x_max));
}

/// Computing a bounding box is order-invariant: two vertex sequences with
/// the same multiset of vertices yield the very same box.
pub proof fn lemma_aabb_order_invariant(s1: Seq<Vec3>, s2: Seq<Vec3>)
    requires
        s1.to_multiset() == s2.to_multiset(),
    ensures
        aabb_spec(s1) == aabb_spec(s2),
{
    s1.to_multiset_ensures();
    s2.to_multiset_ensures();
    assert(s1.len() == s2.len());
    if s1.len() == 0 {
    } else {
        lemma_aabb_characterization(s1);
        lemma_aabb_characterization(s2);
        lemma_bound_agree(s1, s2);
        lemma_bound_agree(s2, s1);
        let b1 = aabb_spec(s1);
        let b2 = aabb_spec(s2);
        assert(bound_le(b1.x_min, b2.x_min) && bound_le(b2.x_min, b1.x_min));
        assert(b1.x_min == b2.x_min);
        assert(b1.x_max == b2.x_max);
        assert(b1.y_min == b2.y_min);
        assert(b1.y_max == b2.y_max);
        assert(b1.z_min == b2.z_min);
        assert(b1.z_max == b2.z_max);
    }
}

/// Helper: the bounds computed for `s1` also bound every vertex of `s2`
/// when the two sequences hold the same vertices.
proof fn lemma_bound_agree(s1: Seq<Vec3>, s2: Seq<Vec3>)
    requires
        s1.to_multiset() == s2.to_multiset(),
        s1.len() > 0,
        s2.len() > 0,
    ensures
        bound_le(aabb_spec(s2).x_min, aabb_spec(s1).x_min),
        bound_le(aabb_spec(s1).x_max, aabb_spec(s2).x_max),
        bound_le(aabb_spec(s2).y_min, aabb_spec(s1).y_min),
        bound_le(aabb_spec(s1).y_max, aabb_spec(s2).y_max),
        bound_le(aabb_spec(s2).z_min, aabb_spec(s1).z_min),
        bound_le(aabb_spec(s1).z_max, aabb_spec(s2).z_max),
{
    lemma_aabb_characterization(s1);
    lemma_aabb_characterization(s2);
    let i_xmin = choose|i: int|
        0 <= i < s1.len() && aabb_spec(s1).x_min == Bound::Finite(#[trigger] s1[i].x);
    let j_xmin = lemma_contains_carries(s1, s2, i_xmin);
    assert(bound_le(aabb_spec(s2).x_min, Bound::Finite(s2[j_xmin].x)));
    let i_xmax = choose|i: int|
        0 <= i < s1.len() && aabb_spec(s1).x_max == Bound::Finite(#[trigger] s1[i].x);
    let j_xmax = lemma_contains_carries(s1, s2, i_xmax);
    assert(bound_le(Bound::Finite(s2[j_xmax].x), aabb_spec(s2).x_max));
    let i_ymin = choose|i: int|
        0 <= i < s1.len() && aabb_spec(s1).y_min == Bound::Finite(#[trigger] s1[i].y);
    let j_ymin = lemma_contains_carries(s1, s2, i_ymin);
    assert(bound_le(aabb_spec(s2).y_min, Bound::Finite(s2[j_ymin].y)));
    let i_ymax = choose|i: int|
        0 <= i < s1.len() && aabb_spec(s1).y_max == Bound::Finite(#[trigger] s1[i].y);
    let j_ymax = lemma_contains_carries(s1, s2, i_ymax);
    assert(bound_le(Bound::Finite(s2[j_ymax].y), aabb_spec(s2).y_max));
    let i_zmin = choose|i: int|
        0 <= i < s1.len() && aabb_spec(s1).z_min == Bound::Finite(#[trigger] s1[i].z);
    let j_zmin = lemma_contains_carries(s1, s2, i_zmin);
    assert(bound_le(aabb_spec(s2).z_min, Bound::Finite(s2[j_zmin].z)));
    let i_zmax = choose|i: int|
        0 <= i < s1.len() && aabb_spec(s1).z_max == Bound::Finite(#[trigger] s1[i].z);
    let j_zmax = lemma_contains_carries(s1, s2, i_zmax);
    assert(bound_le(Bound::Finite(s2[j_zmax].z), aabb_spec(s2).z_max));
}

/// Helper: a vertex found at index `i` of `s1` also occurs somewhere in
/// `s2` when the two sequences hold the same multiset of vertices.
proof fn lemma_contains_carries(s1: Seq<Vec3>, s2: Seq<Vec3>, i: int) -> (j: int)
    requires
        s1.to_multiset() == s2.to_multiset(),
        0 <= i < s1.len(),
    ensures
        0 <= j < s2.len(),
        s2[j] == s1[i],
{
    s1.to_multiset_ensures();
    s2.to_multiset_ensures();
    assert(s1.contains(s1[i]));
    assert(s1.to_multiset().count(s1[i]) > 0);
    assert(s2.contains(s1[i]));
    let j = choose|j: int| 0 <= j < s2.len() && s2[j] == s1[i];
    j
}

} // verus!
