//! Rays and exact intersection tests.
//!
//! The ray/box test is the slab method: each axis clips the ray's parameter
//! range, and the box is hit exactly when the remaining range `[t_min,
//! t_max]` is non-empty and not entirely behind the origin. All parameters
//! are exact fractions, so an axis-parallel ray (a zero direction
//! component) needs no reciprocal at all: such an axis either constrains
//! nothing, when the origin lies between the two slab planes, or rules the
//! hit out.

use vstd::prelude::*;
use crate::collision::{Bound, BoundingBox};
use crate::rat::{
    GRat, Rat, RatVec3, grat_is_int, grat_le, grat_max, grat_min, grat_nonneg, grat_wf,
    lemma_prod_bound,
};
use crate::vec3::{Vec3, COORD_BOUND};

verus! {

/// Largest magnitude a plane-normal component may have; normals are
/// direction-like data and stay small so that every dot product and every
/// derived fraction stays inside the rational bounds.
pub const NORMAL_BOUND: i64 = 1_000;

/// A ray: an origin and a direction. The direction need not be normalised;
/// the intersection routines work with exact ratios along it.
#[derive(Clone, Copy, PartialEq, Eq, Structural, Debug)]
pub struct Ray {
    pub origin: Vec3,
    pub direction: Vec3,
}

/// A plane given by a point on it and a normal vector.
#[derive(Clone, Copy, PartialEq, Eq, Structural, Debug)]
pub struct Plane {
    pub point: Vec3,
    pub normal: Vec3,
}

/// The coordinate carried by a finite bound.
pub open spec fn fin(b: Bound) -> int {
    match b {
        Bound::Finite(c) => c as int,
        _ => 0,
    }
}

/// `t` bounds as produced by the intersection routines: denominators come
/// from dot products or direction components, numerators from coordinate
/// differences.
pub open spec fn ray_t_wf(t: GRat) -> bool {
    &&& 0 < t.den <= 3_000_000_000_000
    &&& -6_000_000_000_000 <= t.num <= 6_000_000_000_000
}

/// Component of the point `origin + direction * t` along one axis, as an
/// exact fraction over `t`'s denominator.
pub open spec fn ray_point_comp(o: int, d: int, t: GRat) -> GRat {
    GRat { num: o * t.den + d * t.num, den: t.den }
}

/// An axis with a zero direction component rules the hit out exactly when
/// the origin lies outside that slab.
pub open spec fn axis_empty(o: int, d: int, lo: int, hi: int) -> bool {
    d == 0 && !(lo <= o <= hi)
}

/// Parameter at which the ray enters the slab `[lo, hi]` along one axis
/// with a non-zero direction component.
pub open spec fn axis_lo(o: int, d: int, lo: int, hi: int) -> GRat {
    if d > 0 {
        GRat { num: lo - o, den: d }
    } else {
        GRat { num: o - hi, den: -d }
    }
}

/// Parameter at which the ray leaves the slab `[lo, hi]` along one axis
/// with a non-zero direction component.
pub open spec fn axis_hi(o: int, d: int, lo: int, hi: int) -> GRat {
    if d > 0 {
        GRat { num: hi - o, den: d }
    } else {
        GRat { num: o - lo, den: -d }
    }
}

/// The parameter span an axis contributes: nothing when its direction
/// component is zero, the slab entry/exit pair otherwise.
pub open spec fn axis_span(o: int, d: int, lo: int, hi: int) -> Option<(GRat, GRat)> {
    if d == 0 {
        None
    } else {
        Some((axis_lo(o, d, lo, hi), axis_hi(o, d, lo, hi)))
    }
}

/// Intersection of two optional parameter spans: the running maximum of
/// the entries and minimum of the exits.
pub open spec fn span_merge(a: Option<(GRat, GRat)>, b: Option<(GRat, GRat)>) -> Option<
    (GRat, GRat),
> {
    match (a, b) {
        (Option::None, x) => x,
        (x, Option::None) => x,
        (Option::Some(p), Option::Some(q)) => Option::Some(
            (grat_max(p.0, q.0), grat_min(p.1, q.1)),
        ),
    }
}

/// Some axis with a zero direction component already rules the hit out.
pub open spec fn ray_box_empty_axis(r: Ray, b: BoundingBox) -> bool {
    ||| axis_empty(r.origin.x as int, r.direction.x as int, fin(b.x_min), fin(b.x_max))
    ||| axis_empty(r.origin.y as int, r.direction.y as int, fin(b.y_min), fin(b.y_max))
    ||| axis_empty(r.origin.z as int, r.direction.z as int, fin(b.z_min), fin(b.z_max))
}

/// The `[t_min, t_max]` span left after all three axes have clipped the
/// ray, for a fully finite box.
pub open spec fn ray_span(r: Ray, b: BoundingBox) -> Option<(GRat, GRat)> {
    span_merge(
        span_merge(
            axis_span(r.origin.x as int, r.direction.x as int, fin(b.x_min), fin(b.x_max)),
            axis_span(r.origin.y as int, r.direction.y as int, fin(b.y_min), fin(b.y_max)),
        ),
        axis_span(r.origin.z as int, r.direction.z as int, fin(b.z_min), fin(b.z_max)),
    )
}

/// The ray hits the box: the box is finite, no zero-direction axis rules
/// the hit out, and the clipped span is non-empty and not entirely behind
/// the origin.
pub open spec fn ray_box_hit(r: Ray, b: BoundingBox) -> bool {
    &&& b.is_finite()
    &&& !ray_box_empty_axis(r, b)
    &&& match ray_span(r, b) {
        Option::Some(s) => grat_le(s.0, s.1) && grat_nonneg(s.1),
        Option::None => false,
    }
}

/// The parameter at which a hitting ray enters the box.
pub open spec fn hit_t_min(r: Ray, b: BoundingBox) -> GRat {
    match ray_span(r, b) {
        Option::Some(s) => s.0,
        Option::None => GRat { num: 0, den: 1 },
    }
}

/// The parameter at which a hitting ray leaves the box.
pub open spec fn hit_t_max(r: Ray, b: BoundingBox) -> GRat {
    match ray_span(r, b) {
        Option::Some(s) => s.1,
        Option::None => GRat { num: 0, den: 1 },
    }
}

/// Dot product of two integer vectors, component-wise.
pub open spec fn dot3(ax: int, ay: int, az: int, bx: int, by: int, bz: int) -> int {
    ax * bx + ay * by + az * bz
}

/// Denominator of the ray/plane solution: the alignment of the plane's
/// normal with the ray's direction. Zero means the ray is parallel to the
/// plane.
pub open spec fn plane_denom(r: Ray, p: Plane) -> int {
    dot3(
        p.normal.x as int,
        p.normal.y as int,
        p.normal.z as int,
        r.direction.x as int,
        r.direction.y as int,
        r.direction.z as int,
    )
}

/// The parameter at which the ray meets the plane, sign-normalised so its
/// denominator is positive. Meaningful only when `plane_denom` is nonzero.
pub open spec fn plane_t(r: Ray, p: Plane) -> GRat {
    let den = plane_denom(r, p);
    let num = dot3(
        p.normal.x as int,
        p.normal.y as int,
        p.normal.z as int,
        p.point.x - r.origin.x,
        p.point.y - r.origin.y,
        p.point.z - r.origin.z,
    );
    if den > 0 {
        GRat { num, den }
    } else {
        GRat { num: -num, den: -den }
    }
}

/// The ray meets the plane at or ahead of its origin.
pub open spec fn ray_plane_hit(r: Ray, p: Plane) -> bool {
    plane_denom(r, p) != 0 && grat_nonneg(plane_t(r, p))
}

/// Spec view of an accumulated runtime span.
pub open spec fn span_view(a: Option<(Rat, Rat)>) -> Option<(GRat, GRat)> {
    match a {
        Option::None => Option::None,
        Option::Some(p) => Option::Some((p.0@, p.1@)),
    }
}

/// Both ends of an optional span are well-formed slab parameters.
pub open spec fn span_wf(a: Option<(GRat, GRat)>) -> bool {
    match a {
        Option::None => true,
        Option::Some(p) => {
            &&& grat_wf(p.0) && ray_t_wf(p.0)
            &&& grat_wf(p.1) && ray_t_wf(p.1)
        },
    }
}

impl Plane {
    /// The point is a world coordinate and the normal is small.
    pub open spec fn in_range(self) -> bool {
        &&& self.point.in_range()
        &&& -NORMAL_BOUND <= self.normal.x <= NORMAL_BOUND
        &&& -NORMAL_BOUND <= self.normal.y <= NORMAL_BOUND
        &&& -NORMAL_BOUND <= self.normal.z <= NORMAL_BOUND
    }

    pub fn new(point: Vec3, normal: Vec3) -> (r: Plane)
        ensures
            r == (Plane { point, normal }),
    {
        Plane { point, normal }
    }
}

/// The point `origin + direction * t`, one exact fraction per component.
fn ray_point(origin: Vec3, direction: Vec3, t: &Rat) -> (p: RatVec3)
    requires
        origin.in_range(),
        direction.in_range(),
        grat_wf(t@),
        ray_t_wf(t@),
    ensures
        p.x@ == ray_point_comp(origin.x as int, direction.x as int, t@),
        p.y@ == ray_point_comp(origin.y as int, direction.y as int, t@),
        p.z@ == ray_point_comp(origin.z as int, direction.z as int, t@),
        p.wf(),
{
    proof {
        lemma_prod_bound(origin.x as int, t@.den, COORD_BOUND as int, 3_000_000_000_000);
        lemma_prod_bound(origin.y as int, t@.den, COORD_BOUND as int, 3_000_000_000_000);
        lemma_prod_bound(origin.z as int, t@.den, COORD_BOUND as int, 3_000_000_000_000);
        lemma_prod_bound(direction.x as int, t@.num, COORD_BOUND as int, 6_000_000_000_000);
        lemma_prod_bound(direction.y as int, t@.num, COORD_BOUND as int, 6_000_000_000_000);
        lemma_prod_bound(direction.z as int, t@.num, COORD_BOUND as int, 6_000_000_000_000);
    }
    RatVec3 {
        x: Rat { num: (origin.x as i128) * t.den + (direction.x as i128) * t.num, den: t.den },
        y: Rat { num: (origin.y as i128) * t.den + (direction.y as i128) * t.num, den: t.den },
        z: Rat { num: (origin.z as i128) * t.den + (direction.z as i128) * t.num, den: t.den },
    }
}

/// Clips the accumulated span by one axis. `None` means the axis has ruled
/// the hit out; otherwise the updated span is returned.
fn axis_update(o: i64, d: i64, lo_b: i64, hi_b: i64, acc: Option<(Rat, Rat)>) -> (r: Option<
    Option<(Rat, Rat)>,
>)
    requires
        -COORD_BOUND <= o <= COORD_BOUND,
        -COORD_BOUND <= d <= COORD_BOUND,
        -COORD_BOUND <= lo_b <= COORD_BOUND,
        -COORD_BOUND <= hi_b <= COORD_BOUND,
        span_wf(span_view(acc)),
    ensures
        r is None <==> axis_empty(o as int, d as int, lo_b as int, hi_b as int),
        r matches Some(acc2) ==> span_view(acc2) == span_merge(
            span_view(acc),
            axis_span(o as int, d as int, lo_b as int, hi_b as int),
        ) && span_wf(span_view(acc2)),
{
    if d == 0 {
        if lo_b <= o && o <= hi_b {
            Some(acc)
        } else {
            None
        }
    } else {
        let (a_lo, a_hi) = if d > 0 {
            (
                Rat { num: (lo_b as i128) - (o as i128), den: d as i128 },
                Rat { num: (hi_b as i128) - (o as i128), den: d as i128 },
            )
        } else {
            (
                Rat { num: (o as i128) - (hi_b as i128), den: -(d as i128) },
                Rat { num: (o as i128) - (lo_b as i128), den: -(d as i128) },
            )
        };
        match acc {
            None => Some(Some((a_lo, a_hi))),
            Some((l, h)) => Some(Some((l.max(&a_lo), h.min(&a_hi)))),
        }
    }
}

impl Ray {
    /// Origin and direction both lie within the world coordinate range.
    pub open spec fn in_range(self) -> bool {
        self.origin.in_range() && self.direction.in_range()
    }

    /// The direction is not the zero vector.
    pub open spec fn has_direction(self) -> bool {
        !(self.direction.x == 0 && self.direction.y == 0 && self.direction.z == 0)
    }

    pub fn new(origin: Vec3, direction: Vec3) -> (r: Ray)
        ensures
            r == (Ray { origin, direction }),
    {
        Ray { origin, direction }
    }

    /// Where the ray meets the plane: `None` when the ray is parallel to
    /// the plane or the solution lies behind the origin, the exact meeting
    /// point otherwise.
    pub fn intersect_plane(&self, plane: &Plane) -> (r: Option<RatVec3>)
        requires
            self.in_range(),
            plane.in_range(),
        ensures
            match r {
                Option::Some(p) => {
                    &&& ray_plane_hit(*self, *plane)
                    &&& p.x@ == ray_point_comp(
                        self.origin.x as int,
                        self.direction.x as int,
                        plane_t(*self, *plane),
                    )
                    &&& p.y@ == ray_point_comp(
                        self.origin.y as int,
                        self.direction.y as int,
                        plane_t(*self, *plane),
                    )
                    &&& p.z@ == ray_point_comp(
                        self.origin.z as int,
                        self.direction.z as int,
                        plane_t(*self, *plane),
                    )
                    &&& p.wf()
                },
                Option::None => !ray_plane_hit(*self, *plane),
            },
    {
        proof {
            lemma_prod_bound(
                plane.normal.x as int,
                self.direction.x as int,
                NORMAL_BOUND as int,
                COORD_BOUND as int,
            );
            lemma_prod_bound(
                plane.normal.y as int,
                self.direction.y as int,
                NORMAL_BOUND as int,
                COORD_BOUND as int,
            );
            lemma_prod_bound(
                plane.normal.z as int,
                self.direction.z as int,
                NORMAL_BOUND as int,
                COORD_BOUND as int,
            );
        }
        let denom: i128 = (plane.normal.x as i128) * (self.direction.x as i128) + (
        plane.normal.y as i128) * (self.direction.y as i128) + (plane.normal.z as i128) * (
        self.direction.z as i128);
        if denom == 0 {
            return None;
        }
        proof {
            lemma_prod_bound(
                plane.normal.x as int,
                plane.point.x - self.origin.x,
                NORMAL_BOUND as int,
                2 * COORD_BOUND as int,
            );
            lemma_prod_bound(
                plane.normal.y as int,
                plane.point.y - self.origin.y,
                NORMAL_BOUND as int,
                2 * COORD_BOUND as int,
            );
            lemma_prod_bound(
                plane.normal.z as int,
                plane.point.z - self.origin.z,
                NORMAL_BOUND as int,
                2 * COORD_BOUND as int,
            );
        }
        let num: i128 = (plane.normal.x as i128) * ((plane.point.x as i128) - (self.origin.x
            as i128)) + (plane.normal.y as i128) * ((plane.point.y as i128) - (self.origin.y
            as i128)) + (plane.normal.z as i128) * ((plane.point.z as i128) - (self.origin.z
            as i128));
        let t = if denom > 0 {
            Rat { num, den: denom }
        } else {
            Rat { num: -num, den: -denom }
        };
        if t.num < 0 {
            return None;
        }
        Some(ray_point(self.origin, self.direction, &t))
    }

    /// Where the ray passes through the bounding box: `None` on a miss or
    /// against a non-finite box, otherwise the exact entry and exit
    /// points, in that order along the ray.
    pub fn intersect_bounding_box(&self, bbox: &BoundingBox) -> (r: Option<(RatVec3, RatVec3)>)
        requires
            self.in_range(),
            self.has_direction(),
            bbox.wf(),
            bbox.in_range(),
        ensures
            match r {
                Option::Some(pts) => {
                    &&& ray_box_hit(*self, *bbox)
                    &&& pts.0.x@ == ray_point_comp(
                        self.origin.x as int,
                        self.direction.x as int,
                        hit_t_min(*self, *bbox),
                    )
                    &&& pts.0.y@ == ray_point_comp(
                        self.origin.y as int,
                        self.direction.y as int,
                        hit_t_min(*self, *bbox),
                    )
                    &&& pts.0.z@ == ray_point_comp(
                        self.origin.z as int,
                        self.direction.z as int,
                        hit_t_min(*self, *bbox),
                    )
                    &&& pts.1.x@ == ray_point_comp(
                        self.origin.x as int,
                        self.direction.x as int,
                        hit_t_max(*self, *bbox),
                    )
                    &&& pts.1.y@ == ray_point_comp(
                        self.origin.y as int,
                        self.direction.y as int,
                        hit_t_max(*self, *bbox),
                    )
                    &&& pts.1.z@ == ray_point_comp(
                        self.origin.z as int,
                        self.direction.z as int,
                        hit_t_max(*self, *bbox),
                    )
                    &&& pts.0.wf() && pts.1.wf()
                },
                Option::None => !ray_box_hit(*self, *bbox),
            },
    {
        let (xmin, xmax, ymin, ymax, zmin, zmax) = match (
            bbox.x_min,
            bbox.x_max,
            bbox.y_min,
            bbox.y_max,
            bbox.z_min,
            bbox.z_max,
        ) {
            (
                Bound::Finite(a),
                Bound::Finite(b),
                Bound::Finite(c),
                Bound::Finite(d),
                Bound::Finite(e),
                Bound::Finite(f),
            ) => (a, b, c, d, e, f),
            _ => {
                return None;
            },
        };
        let acc0: Option<(Rat, Rat)> = None;
        let acc1 = match axis_update(self.origin.x, self.direction.x, xmin, xmax, acc0) {
            Some(a) => a,
            None => {
                return None;
            },
        };
        let acc2 = match axis_update(self.origin.y, self.direction.y, ymin, ymax, acc1) {
            Some(a) => a,
            None => {
                return None;
            },
        };
        let acc3 = match axis_update(self.origin.z, self.direction.z, zmin, zmax, acc2) {
            Some(a) => a,
            None => {
                return None;
            },
        };
        proof {
            assert(span_view(acc3) == ray_span(*self, *bbox));
        }
        match acc3 {
            Some((tl, th)) => {
                if th.is_nonneg() && tl.le(&th) {
                    let entry = ray_point(self.origin, self.direction, &tl);
                    let exit = ray_point(self.origin, self.direction, &th);
                    Some((entry, exit))
                } else {
                    None
                }
            },
            None => {
                proof {
                    assert(false);
                }
                None
            },
        }
    }
}

/// On a hit, the entry parameter never exceeds the exit parameter: the
/// entry point is met first along the ray, so it lies no farther from the
/// origin than the exit point.
pub proof fn lemma_entry_before_exit(r: Ray, b: BoundingBox)
    requires
        ray_box_hit(r, b),
    ensures
        grat_le(hit_t_min(r, b), hit_t_max(r, b)),
        grat_nonneg(hit_t_max(r, b)),
{
}

/// Along one axis with a non-zero direction component, the slab entry
/// parameter lands exactly on the near bound and the slab exit parameter
/// exactly on the far bound.
proof fn lemma_axis_on_face(o: int, d: int, lo: int, hi: int)
    requires
        d != 0,
    ensures
        grat_is_int(ray_point_comp(o, d, axis_lo(o, d, lo, hi)), if d > 0 { lo } else { hi }),
        grat_is_int(ray_point_comp(o, d, axis_hi(o, d, lo, hi)), if d > 0 { hi } else { lo }),
{
    if d > 0 {
        assert(o * d + d * (lo - o) == lo * d) by (nonlinear_arith);
        assert(o * d + d * (hi - o) == hi * d) by (nonlinear_arith);
    } else {
        assert(o * (-d) + d * (o - hi) == hi * (-d)) by (nonlinear_arith);
        assert(o * (-d) + d * (o - lo) == lo * (-d)) by (nonlinear_arith);
    }
}

/// On a hit, the entry point lies exactly on one of the box's six face
/// planes: along the axis whose slab is entered last, its coordinate is
/// that axis's near bound.
pub proof fn lemma_entry_point_on_surface(r: Ray, b: BoundingBox)
    requires
        r.has_direction(),
        ray_box_hit(r, b),
    ensures
        ({
        ||| grat_is_int(
            ray_point_comp(r.origin.x as int, r.direction.x as int, hit_t_min(r, b)),
            fin(b.x_min),
        )
        ||| grat_is_int(
            ray_point_comp(r.origin.x as int, r.direction.x as int, hit_t_min(r, b)),
            fin(b.x_max),
        )
        ||| grat_is_int(
            ray_point_comp(r.origin.y as int, r.direction.y as int, hit_t_min(r, b)),
            fin(b.y_min),
        )
        ||| grat_is_int(
            ray_point_comp(r.origin.y as int, r.direction.y as int, hit_t_min(r, b)),
            fin(b.y_max),
        )
        ||| grat_is_int(
            ray_point_comp(r.origin.z as int, r.direction.z as int, hit_t_min(r, b)),
            fin(b.z_min),
        )
        ||| grat_is_int(
            ray_point_comp(r.origin.z as int, r.direction.z as int, hit_t_min(r, b)),
            fin(b.z_max),
        )
        }),
{
    let ox = r.origin.x as int;
    let oy = r.origin.y as int;
    let oz = r.origin.z as int;
    let dx = r.direction.x as int;
    let dy = r.direction.y as int;
    let dz = r.direction.z as int;
    let t = hit_t_min(r, b);
    if dx != 0 && t == axis_lo(ox, dx, fin(b.x_min), fin(b.x_max)) {
        lemma_axis_on_face(ox, dx, fin(b.x_min), fin(b.x_max));
    } else if dy != 0 && t == axis_lo(oy, dy, fin(b.y_min), fin(b.y_max)) {
        lemma_axis_on_face(oy, dy, fin(b.y_min), fin(b.y_max));
    } else {
        assert(dz != 0 && t == axis_lo(oz, dz, fin(b.z_min), fin(b.z_max)));
        lemma_axis_on_face(oz, dz, fin(b.z_min), fin(b.z_max));
    }
}

/// On a hit, the exit point lies exactly on one of the box's six face
/// planes: along the axis whose slab is left first, its coordinate is
/// that axis's far bound.
pub proof fn lemma_exit_point_on_surface(r: Ray, b: BoundingBox)
    requires
        r.has_direction(),
        ray_box_hit(r, b),
    ensures
        ({
        ||| grat_is_int(
            ray_point_comp(r.origin.x as int, r.direction.x as int, hit_t_max(r, b)),
            fin(b.x_min),
        )
        ||| grat_is_int(
            ray_point_comp(r.origin.x as int, r.direction.x as int, hit_t_max(r, b)),
            fin(b.x_max),
        )
        ||| grat_is_int(
            ray_point_comp(r.origin.y as int, r.direction.y as int, hit_t_max(r, b)),
            fin(b.y_min),
        )
        ||| grat_is_int(
            ray_point_comp(r.origin.y as int, r.direction.y as int, hit_t_max(r, b)),
            fin(b.y_max),
        )
        ||| grat_is_int(
            ray_point_comp(r.origin.z as int, r.direction.z as int, hit_t_max(r, b)),
            fin(b.z_min),
        )
        ||| grat_is_int(
            ray_point_comp(r.origin.z as int, r.direction.z as int, hit_t_max(r, b)),
            fin(b.z_max),
        )
        }),
{
    let ox = r.origin.x as int;
    let oy = r.origin.y as int;
    let oz = r.origin.z as int;
    let dx = r.direction.x as int;
    let dy = r.direction.y as int;
    let dz = r.direction.z as int;
    let t = hit_t_max(r, b);
    if dx != 0 && t == axis_hi(ox, dx, fin(b.x_min), fin(b.x_max)) {
        lemma_axis_on_face(ox, dx, fin(b.x_min), fin(b.x_max));
    } else if dy != 0 && t == axis_hi(oy, dy, fin(b.y_min), fin(b.y_max)) {
        lemma_axis_on_face(oy, dy, fin(b.y_min), fin(b.y_max));
    } else {
        assert(dz != 0 && t == axis_hi(oz, dz, fin(b.z_min), fin(b.z_max)));
        lemma_axis_on_face(oz, dz, fin(b.z_min), fin(b.z_max));
    }
}

/// A degenerate box — the one computed from an empty vertex set — is never
/// hit by any ray.
pub proof fn lemma_degenerate_box_never_hit(r: Ray, b: BoundingBox)
    requires
        b.is_degenerate(),
    ensures
        !ray_box_hit(r, b),
{
}

} // verus!
