//! Entity transforms and renderable objects.
//!
//! A [`Model`] holds position, scale and rotation. `translate` and `scale`
//! set absolute values — `translate` is not an additive move, a behaviour
//! callers depend on — while `rotate` left-multiplies a new rotation onto
//! the current one, accumulating in world space. The composed model matrix
//! multiplies `Scale * Translation * Rotation`, in exactly that order; the
//! order is a deliberate property of this runtime and is preserved here.
//!
//! Rotations are quaternions with exact integer components; the matrix
//! normalises by the squared norm, so a quaternion need not have unit
//! length, only a non-zero one.

use vstd::prelude::*;
use crate::collision::{aabb_spec, get_bounding_box, BoundingBox};
use crate::material::Physical;
use crate::rat::{GRat, Rat, RatVec3, grat_wf, lemma_prod_bound};
use crate::vec3::{Vec2, Vec3, COORD_BOUND};

verus! {

/// Largest magnitude a stored quaternion component may have. The bound
/// keeps every model-matrix numerator inside the rational bounds.
pub const QUAT_BOUND: i64 = 4_000_000;

/// A rotation quaternion with exact integer components; `w` is the scalar
/// part. Any non-zero quaternion stands for the rotation of its
/// normalisation.
#[derive(Clone, Copy, PartialEq, Eq, Structural, Debug)]
pub struct Quat {
    pub w: i64,
    pub x: i64,
    pub y: i64,
    pub z: i64,
}

/// The exact (unbounded) components of a quaternion product.
pub ghost struct GQuat {
    pub w: int,
    pub x: int,
    pub y: int,
    pub z: int,
}

/// The squared norm `w^2 + x^2 + y^2 + z^2`.
pub open spec fn quat_norm_sq(q: Quat) -> int {
    q.w * q.w + q.x * q.x + q.y * q.y + q.z * q.z
}

/// The Hamilton product `a * b`, component by component.
pub open spec fn quat_product(a: Quat, b: Quat) -> GQuat {
    GQuat {
        w: a.w * b.w - a.x * b.x - a.y * b.y - a.z * b.z,
        x: a.w * b.x + a.x * b.w + a.y * b.z - a.z * b.y,
        y: a.w * b.y - a.x * b.z + a.y * b.w + a.z * b.x,
        z: a.w * b.z + a.x * b.y - a.y * b.x + a.z * b.w,
    }
}

/// The product components fit back into the stored component bound.
pub open spec fn quat_fits(g: GQuat) -> bool {
    &&& -QUAT_BOUND <= g.w <= QUAT_BOUND
    &&& -QUAT_BOUND <= g.x <= QUAT_BOUND
    &&& -QUAT_BOUND <= g.y <= QUAT_BOUND
    &&& -QUAT_BOUND <= g.z <= QUAT_BOUND
}

impl Quat {
    /// Every component lies within the stored bound.
    pub open spec fn in_range(self) -> bool {
        &&& -QUAT_BOUND <= self.w <= QUAT_BOUND
        &&& -QUAT_BOUND <= self.x <= QUAT_BOUND
        &&& -QUAT_BOUND <= self.y <= QUAT_BOUND
        &&& -QUAT_BOUND <= self.z <= QUAT_BOUND
    }

    /// At least one component is non-zero, so the quaternion stands for a
    /// rotation.
    pub open spec fn is_nonzero(self) -> bool {
        !(self.w == 0 && self.x == 0 && self.y == 0 && self.z == 0)
    }

    /// A rotation the model matrix can normalise: bounded and non-zero.
    pub open spec fn wf(self) -> bool {
        self.in_range() && self.is_nonzero()
    }

    pub fn new(w: i64, x: i64, y: i64, z: i64) -> (q: Quat)
        ensures
            q == (Quat { w, x, y, z }),
    {
        Quat { w, x, y, z }
    }

    /// The identity rotation.
    pub fn identity() -> (q: Quat)
        ensures
            q == (Quat { w: 1i64, x: 0i64, y: 0i64, z: 0i64 }),
            q.wf(),
    {
        Quat { w: 1, x: 0, y: 0, z: 0 }
    }
}

/// Rotation-matrix numerators of a quaternion, over the common denominator
/// `quat_norm_sq`. Row then column.
pub open spec fn rot00(q: Quat) -> int {
    quat_norm_sq(q) - 2 * (q.y * q.y + q.z * q.z)
}

pub open spec fn rot01(q: Quat) -> int {
    2 * (q.x * q.y - q.w * q.z)
}

pub open spec fn rot02(q: Quat) -> int {
    2 * (q.x * q.z + q.w * q.y)
}

pub open spec fn rot10(q: Quat) -> int {
    2 * (q.x * q.y + q.w * q.z)
}

pub open spec fn rot11(q: Quat) -> int {
    quat_norm_sq(q) - 2 * (q.x * q.x + q.z * q.z)
}

pub open spec fn rot12(q: Quat) -> int {
    2 * (q.y * q.z - q.w * q.x)
}

pub open spec fn rot20(q: Quat) -> int {
    2 * (q.x * q.z - q.w * q.y)
}

pub open spec fn rot21(q: Quat) -> int {
    2 * (q.y * q.z + q.w * q.x)
}

pub open spec fn rot22(q: Quat) -> int {
    quat_norm_sq(q) - 2 * (q.x * q.x + q.y * q.y)
}

/// A 4x4 matrix of exact fractions; `mRC` is row `R`, column `C`.
#[derive(Clone, Copy, PartialEq, Eq, Structural, Debug)]
pub struct Mat4 {
    pub m00: Rat,
    pub m01: Rat,
    pub m02: Rat,
    pub m03: Rat,
    pub m10: Rat,
    pub m11: Rat,
    pub m12: Rat,
    pub m13: Rat,
    pub m20: Rat,
    pub m21: Rat,
    pub m22: Rat,
    pub m23: Rat,
    pub m30: Rat,
    pub m31: Rat,
    pub m32: Rat,
    pub m33: Rat,
}

/// The mathematical content of a [`Mat4`].
pub ghost struct GMat4 {
    pub m00: GRat,
    pub m01: GRat,
    pub m02: GRat,
    pub m03: GRat,
    pub m10: GRat,
    pub m11: GRat,
    pub m12: GRat,
    pub m13: GRat,
    pub m20: GRat,
    pub m21: GRat,
    pub m22: GRat,
    pub m23: GRat,
    pub m30: GRat,
    pub m31: GRat,
    pub m32: GRat,
    pub m33: GRat,
}

impl View for Mat4 {
    type V = GMat4;

    open spec fn view(&self) -> GMat4 {
        GMat4 {
            m00: self.m00@,
            m01: self.m01@,
            m02: self.m02@,
            m03: self.m03@,
            m10: self.m10@,
            m11: self.m11@,
            m12: self.m12@,
            m13: self.m13@,
            m20: self.m20@,
            m21: self.m21@,
            m22: self.m22@,
            m23: self.m23@,
            m30: self.m30@,
            m31: self.m31@,
            m32: self.m32@,
            m33: self.m33@,
        }
    }
}

/// Every entry obeys the fraction bounds.
pub open spec fn gmat_wf(g: GMat4) -> bool {
    &&& grat_wf(g.m00) && grat_wf(g.m01) && grat_wf(g.m02) && grat_wf(g.m03)
    &&& grat_wf(g.m10) && grat_wf(g.m11) && grat_wf(g.m12) && grat_wf(g.m13)
    &&& grat_wf(g.m20) && grat_wf(g.m21) && grat_wf(g.m22) && grat_wf(g.m23)
    &&& grat_wf(g.m30) && grat_wf(g.m31) && grat_wf(g.m32) && grat_wf(g.m33)
}

/// An entity transform: absolute position, absolute per-axis scale, and an
/// accumulated rotation.
#[derive(Clone, Copy, PartialEq, Eq, Structural, Debug)]
pub struct Model {
    pub position: Vec3,
    pub scale: Vec3,
    pub rotation: Quat,
    pub centroid: RatVec3,
}

/// The composed matrix `Scale * Translation * Rotation` of a transform:
/// the rotation block scaled row-wise, the translation column scaled
/// component-wise, and the homogeneous bottom row. This is a pure function
/// of the transform's position, scale and rotation.
pub open spec fn model_matrix_spec(m: Model) -> GMat4 {
    let n = quat_norm_sq(m.rotation);
    GMat4 {
        m00: GRat { num: m.scale.x * rot00(m.rotation), den: n },
        m01: GRat { num: m.scale.x * rot01(m.rotation), den: n },
        m02: GRat { num: m.scale.x * rot02(m.rotation), den: n },
        m03: GRat { num: m.scale.x * m.position.x, den: 1 },
        m10: GRat { num: m.scale.y * rot10(m.rotation), den: n },
        m11: GRat { num: m.scale.y * rot11(m.rotation), den: n },
        m12: GRat { num: m.scale.y * rot12(m.rotation), den: n },
        m13: GRat { num: m.scale.y * m.position.y, den: 1 },
        m20: GRat { num: m.scale.z * rot20(m.rotation), den: n },
        m21: GRat { num: m.scale.z * rot21(m.rotation), den: n },
        m22: GRat { num: m.scale.z * rot22(m.rotation), den: n },
        m23: GRat { num: m.scale.z * m.position.z, den: 1 },
        m30: GRat { num: 0, den: 1 },
        m31: GRat { num: 0, den: 1 },
        m32: GRat { num: 0, den: 1 },
        m33: GRat { num: 1, den: 1 },
    }
}

/// Sum of the `x` components of a vertex sequence.
pub open spec fn sum_x(s: Seq<Vec3>) -> int
    decreases s.len(),
{
    if s.len() == 0 {
        0
    } else {
        sum_x(s.drop_last()) + s.last().x
    }
}

/// Sum of the `y` components of a vertex sequence.
pub open spec fn sum_y(s: Seq<Vec3>) -> int
    decreases s.len(),
{
    if s.len() == 0 {
        0
    } else {
        sum_y(s.drop_last()) + s.last().y
    }
}

/// Sum of the `z` components of a vertex sequence.
pub open spec fn sum_z(s: Seq<Vec3>) -> int
    decreases s.len(),
{
    if s.len() == 0 {
        0
    } else {
        sum_z(s.drop_last()) + s.last().z
    }
}

impl Model {
    /// Position, scale and rotation all lie within the ranges the matrix
    /// needs.
    pub open spec fn wf(self) -> bool {
        &&& self.position.in_range()
        &&& self.scale.in_range()
        &&& self.rotation.wf()
    }

    /// A transform with identity defaults: the origin, unit scale and no
    /// rotation.
    pub fn new() -> (m: Model)
        ensures
            m.position == (Vec3 { x: 0i64, y: 0i64, z: 0i64 }),
            m.scale == (Vec3 { x: 1i64, y: 1i64, z: 1i64 }),
            m.rotation == (Quat { w: 1i64, x: 0i64, y: 0i64, z: 0i64 }),
            m.wf(),
    {
        Model {
            position: Vec3::zeros(),
            scale: Vec3 { x: 1, y: 1, z: 1 },
            rotation: Quat::identity(),
            centroid: RatVec3 {
                x: Rat { num: 0, den: 1 },
                y: Rat { num: 0, den: 1 },
                z: Rat { num: 0, den: 1 },
            },
        }
    }

    /// Left-multiplies the given rotation onto the current one:
    /// `rotation' = q * rotation`, so repeated calls accumulate in world
    /// space. The caller keeps the exact product within the component
    /// bound.
    pub fn rotate(&mut self, q: Quat)
        requires
            q.wf(),
            old(self).rotation.wf(),
            quat_fits(quat_product(q, old(self).rotation)),
        ensures
            final(self).rotation.w == quat_product(q, old(self).rotation).w,
            final(self).rotation.x == quat_product(q, old(self).rotation).x,
            final(self).rotation.y == quat_product(q, old(self).rotation).y,
            final(self).rotation.z == quat_product(q, old(self).rotation).z,
            final(self).rotation.wf(),
            final(self).position == old(self).position,
            final(self).scale == old(self).scale,
            final(self).centroid == old(self).centroid,
    {
        proof {
            let qb = QUAT_BOUND as int;
            lemma_prod_bound(q.w as int, self.rotation.w as int, qb, qb);
            lemma_prod_bound(q.w as int, self.rotation.x as int, qb, qb);
            lemma_prod_bound(q.w as int, self.rotation.y as int, qb, qb);
            lemma_prod_bound(q.w as int, self.rotation.z as int, qb, qb);
            lemma_prod_bound(q.x as int, self.rotation.w as int, qb, qb);
            lemma_prod_bound(q.x as int, self.rotation.x as int, qb, qb);
            lemma_prod_bound(q.x as int, self.rotation.y as int, qb, qb);
            lemma_prod_bound(q.x as int, self.rotation.z as int, qb, qb);
            lemma_prod_bound(q.y as int, self.rotation.w as int, qb, qb);
            lemma_prod_bound(q.y as int, self.rotation.x as int, qb, qb);
            lemma_prod_bound(q.y as int, self.rotation.y as int, qb, qb);
            lemma_prod_bound(q.y as int, self.rotation.z as int, qb, qb);
            lemma_prod_bound(q.z as int, self.rotation.w as int, qb, qb);
            lemma_prod_bound(q.z as int, self.rotation.x as int, qb, qb);
            lemma_prod_bound(q.z as int, self.rotation.y as int, qb, qb);
            lemma_prod_bound(q.z as int, self.rotation.z as int, qb, qb);
            lemma_quat_product_nonzero(q, self.rotation);
        }
        let aw = q.w as i128;
        let ax = q.x as i128;
        let ay = q.y as i128;
        let az = q.z as i128;
        let bw = self.rotation.w as i128;
        let bx = self.rotation.x as i128;
        let by = self.rotation.y as i128;
        let bz = self.rotation.z as i128;
        let rw = aw * bw - ax * bx - ay * by - az * bz;
        let rx = aw * bx + ax * bw + ay * bz - az * by;
        let ry = aw * by - ax * bz + ay * bw + az * bx;
        let rz = aw * bz + ax * by - ay * bx + az * bw;
        self.rotation = Quat { w: rw as i64, x: rx as i64, y: ry as i64, z: rz as i64 };
    }

    /// Sets the absolute scale.
    pub fn scale(&mut self, target: Vec3)
        ensures
            final(self).scale == target,
            final(self).position == old(self).position,
            final(self).rotation == old(self).rotation,
            final(self).centroid == old(self).centroid,
    {
        self.scale = target;
    }

    /// Sets the absolute position. Despite the name this is not a
    /// relative move: the transform's position becomes `target`.
    pub fn translate(&mut self, target: Vec3)
        ensures
            final(self).position == target,
            final(self).scale == old(self).scale,
            final(self).rotation == old(self).rotation,
            final(self).centroid == old(self).centroid,
    {
        self.position = target;
    }

    /// The composed model matrix `Scale * Translation * Rotation`. A pure
    /// function of the current transform: equal transforms always yield
    /// the identical matrix.
    pub fn get_model_matrix(&self) -> (r: Mat4)
        requires
            self.wf(),
        ensures
            r@ == model_matrix_spec(*self),
            gmat_wf(r@),
    {
        let w = self.rotation.w as i128;
        let x = self.rotation.x as i128;
        let y = self.rotation.y as i128;
        let z = self.rotation.z as i128;
        proof {
            let qb = QUAT_BOUND as int;
            lemma_prod_bound(w as int, w as int, qb, qb);
            lemma_prod_bound(x as int, x as int, qb, qb);
            lemma_prod_bound(y as int, y as int, qb, qb);
            lemma_prod_bound(z as int, z as int, qb, qb);
            lemma_prod_bound(x as int, y as int, qb, qb);
            lemma_prod_bound(x as int, z as int, qb, qb);
            lemma_prod_bound(y as int, z as int, qb, qb);
            lemma_prod_bound(w as int, x as int, qb, qb);
            lemma_prod_bound(w as int, y as int, qb, qb);
            lemma_prod_bound(w as int, z as int, qb, qb);
            lemma_norm_sq_positive(self.rotation);
        }
        let n = w * w + x * x + y * y + z * z;
        let r00 = n - 2 * (y * y + z * z);
        let r01 = 2 * (x * y - w * z);
        let r02 = 2 * (x * z + w * y);
        let r10 = 2 * (x * y + w * z);
        let r11 = n - 2 * (x * x + z * z);
        let r12 = 2 * (y * z - w * x);
        let r20 = 2 * (x * z - w * y);
        let r21 = 2 * (y * z + w * x);
        let r22 = n - 2 * (x * x + y * y);
        let sx = self.scale.x as i128;
        let sy = self.scale.y as i128;
        let sz = self.scale.z as i128;
        proof {
            let cb = COORD_BOUND as int;
            let rb = 4 * (QUAT_BOUND as int) * (QUAT_BOUND as int);
            lemma_prod_bound(sx as int, r00 as int, cb, rb);
            lemma_prod_bound(sx as int, r01 as int, cb, rb);
            lemma_prod_bound(sx as int, r02 as int, cb, rb);
            lemma_prod_bound(sy as int, r10 as int, cb, rb);
            lemma_prod_bound(sy as int, r11 as int, cb, rb);
            lemma_prod_bound(sy as int, r12 as int, cb, rb);
            lemma_prod_bound(sz as int, r20 as int, cb, rb);
            lemma_prod_bound(sz as int, r21 as int, cb, rb);
            lemma_prod_bound(sz as int, r22 as int, cb, rb);
            lemma_prod_bound(sx as int, self.position.x as int, cb, cb);
            lemma_prod_bound(sy as int, self.position.y as int, cb, cb);
            lemma_prod_bound(sz as int, self.position.z as int, cb, cb);
        }
        Mat4 {
            m00: Rat { num: sx * r00, den: n },
            m01: Rat { num: sx * r01, den: n },
            m02: Rat { num: sx * r02, den: n },
            m03: Rat { num: sx * (self.position.x as i128), den: 1 },
            m10: Rat { num: sy * r10, den: n },
            m11: Rat { num: sy * r11, den: n },
            m12: Rat { num: sy * r12, den: n },
            m13: Rat { num: sy * (self.position.y as i128), den: 1 },
            m20: Rat { num: sz * r20, den: n },
            m21: Rat { num: sz * r21, den: n },
            m22: Rat { num: sz * r22, den: n },
            m23: Rat { num: sz * (self.position.z as i128), den: 1 },
            m30: Rat { num: 0, den: 1 },
            m31: Rat { num: 0, den: 1 },
            m32: Rat { num: 0, den: 1 },
            m33: Rat { num: 1, den: 1 },
        }
    }

    /// Computes and stores the exact mean of the given vertices.
    pub fn calculate_centroid(&mut self, vertices: &Vec<Vec3>)
        requires
            vertices@.len() > 0,
            vertices@.len() <= 1_000_000_000,
            forall|i: int| 0 <= i < vertices@.len() ==> (#[trigger] vertices@[i]).in_range(),
        ensures
            final(self).centroid.x@ == (GRat {
                num: sum_x(vertices@),
                den: vertices@.len() as int,
            }),
            final(self).centroid.y@ == (GRat {
                num: sum_y(vertices@),
                den: vertices@.len() as int,
            }),
            final(self).centroid.z@ == (GRat {
                num: sum_z(vertices@),
                den: vertices@.len() as int,
            }),
            final(self).centroid.wf(),
            final(self).position == old(self).position,
            final(self).scale == old(self).scale,
            final(self).rotation == old(self).rotation,
    {
        let n = vertices.len();
        let mut sx: i128 = 0;
        let mut sy: i128 = 0;
        let mut sz: i128 = 0;
        let mut i: usize = 0;
        while i < n
            invariant
                0 <= i <= n,
                n == vertices@.len(),
                n <= 1_000_000_000,
                forall|k: int| 0 <= k < vertices@.len() ==> (#[trigger] vertices@[k]).in_range(),
                sx == sum_x(vertices@.take(i as int)),
                sy == sum_y(vertices@.take(i as int)),
                sz == sum_z(vertices@.take(i as int)),
                -(i as int) * (COORD_BOUND as int) <= sx <= (i as int) * (COORD_BOUND as int),
                -(i as int) * (COORD_BOUND as int) <= sy <= (i as int) * (COORD_BOUND as int),
                -(i as int) * (COORD_BOUND as int) <= sz <= (i as int) * (COORD_BOUND as int),
            decreases n - i,
        {
            let v = vertices[i];
            proof {
                assert(vertices@.take(i + 1).drop_last() =~= vertices@.take(i as int));
                assert(vertices@.take(i + 1).last() == vertices@[i as int]);
            }
            sx = sx + (v.x as i128);
            sy = sy + (v.y as i128);
            sz = sz + (v.z as i128);
            i = i + 1;
        }
        proof {
            assert(vertices@.take(n as int) =~= vertices@);
        }
        self.centroid = RatVec3 {
            x: Rat { num: sx, den: n as i128 },
            y: Rat { num: sy, den: n as i128 },
            z: Rat { num: sz, den: n as i128 },
        };
    }
}

/// Two transforms with the same position, scale and rotation compose the
/// very same model matrix: composition is deterministic, whatever sequence
/// of calls produced the state.
pub proof fn lemma_model_matrix_deterministic(a: Model, b: Model)
    requires
        a.position == b.position,
        a.scale == b.scale,
        a.rotation == b.rotation,
    ensures
        model_matrix_spec(a) == model_matrix_spec(b),
{
}

/// The product of two bounded quaternions stays within four times the
/// squared bound, component by component.
proof fn lemma_quat_product_bounds(a: Quat, b: Quat)
    requires
        a.in_range(),
        b.in_range(),
    ensures
        -4 * QUAT_BOUND * QUAT_BOUND <= quat_product(a, b).w <= 4 * QUAT_BOUND * QUAT_BOUND,
        -4 * QUAT_BOUND * QUAT_BOUND <= quat_product(a, b).x <= 4 * QUAT_BOUND * QUAT_BOUND,
        -4 * QUAT_BOUND * QUAT_BOUND <= quat_product(a, b).y <= 4 * QUAT_BOUND * QUAT_BOUND,
        -4 * QUAT_BOUND * QUAT_BOUND <= quat_product(a, b).z <= 4 * QUAT_BOUND * QUAT_BOUND,
{
    let qb = QUAT_BOUND as int;
    lemma_prod_bound(a.w as int, b.w as int, qb, qb);
    lemma_prod_bound(a.w as int, b.x as int, qb, qb);
    lemma_prod_bound(a.w as int, b.y as int, qb, qb);
    lemma_prod_bound(a.w as int, b.z as int, qb, qb);
    lemma_prod_bound(a.x as int, b.w as int, qb, qb);
    lemma_prod_bound(a.x as int, b.x as int, qb, qb);
    lemma_prod_bound(a.x as int, b.y as int, qb, qb);
    lemma_prod_bound(a.x as int, b.z as int, qb, qb);
    lemma_prod_bound(a.y as int, b.w as int, qb, qb);
    lemma_prod_bound(a.y as int, b.x as int, qb, qb);
    lemma_prod_bound(a.y as int, b.y as int, qb, qb);
    lemma_prod_bound(a.y as int, b.z as int, qb, qb);
    lemma_prod_bound(a.z as int, b.w as int, qb, qb);
    lemma_prod_bound(a.z as int, b.x as int, qb, qb);
    lemma_prod_bound(a.z as int, b.y as int, qb, qb);
    lemma_prod_bound(a.z as int, b.z as int, qb, qb);
}

/// Multiplying a value by a four-term sum distributes over the terms.
proof fn lemma_mul_distributes4(x: int, s: int, a: int, b: int, c: int, d: int)
    by (nonlinear_arith)
    requires
        s == a + b + c + d,
    ensures
        x * s == x * a + x * b + x * c + x * d,
{
}

/// The factors of a nested product may change places.
proof fn lemma_mul_swap_left(p: int, q: int, r: int)
    by (nonlinear_arith)
    ensures
        p * (q * r) == q * (p * r),
        p * (-(q * r)) == -(q * (p * r)),
        p * (q * r) == p * (r * q),
        p * (q * r) == (q * r) * p,
{
}

/// One component of the conjugate identity: multiplying the conjugate of
/// `a` onto `a * b` recovers the `w` component of `b` scaled by the
/// squared norm of `a`.
proof fn lemma_conj_w(a: Quat, b: Quat)
    ensures
        a.w * quat_product(a, b).w + a.x * quat_product(a, b).x + a.y * quat_product(a, b).y
            + a.z * quat_product(a, b).z == quat_norm_sq(a) * b.w,
{
    let aw = a.w as int;
    let ax = a.x as int;
    let ay = a.y as int;
    let az = a.z as int;
    let bw = b.w as int;
    let bx = b.x as int;
    let by = b.y as int;
    let bz = b.z as int;
    let p = quat_product(a, b);
    lemma_mul_distributes4(aw, p.w, aw * bw, -(ax * bx), -(ay * by), -(az * bz));
    lemma_mul_distributes4(ax, p.x, aw * bx, ax * bw, ay * bz, -(az * by));
    lemma_mul_distributes4(ay, p.y, aw * by, -(ax * bz), ay * bw, az * bx);
    lemma_mul_distributes4(az, p.z, aw * bz, ax * by, -(ay * bx), az * bw);
    lemma_mul_swap_left(aw, ax, bx);
    lemma_mul_swap_left(aw, ay, by);
    lemma_mul_swap_left(aw, az, bz);
    lemma_mul_swap_left(aw, bw, aw);
    lemma_mul_swap_left(ax, aw, bx);
    lemma_mul_swap_left(ax, ay, bz);
    lemma_mul_swap_left(ax, az, by);
    lemma_mul_swap_left(ax, bw, ax);
    lemma_mul_swap_left(ay, aw, by);
    lemma_mul_swap_left(ay, ax, bz);
    lemma_mul_swap_left(ay, az, bx);
    lemma_mul_swap_left(ay, bw, ay);
    lemma_mul_swap_left(az, aw, bz);
    lemma_mul_swap_left(az, ax, by);
    lemma_mul_swap_left(az, ay, bx);
    lemma_mul_swap_left(az, bw, az);
    lemma_mul_swap_left(bw, aw, aw);
    lemma_mul_swap_left(bw, ax, ax);
    lemma_mul_swap_left(bw, ay, ay);
    lemma_mul_swap_left(bw, az, az);
    lemma_mul_distributes4(bw, quat_norm_sq(a), aw * aw, ax * ax, ay * ay, az * az);
}

/// One component of the conjugate identity: multiplying the conjugate of
/// `a` onto `a * b` recovers the `x` component of `b` scaled by the
/// squared norm of `a`.
proof fn lemma_conj_x(a: Quat, b: Quat)
    ensures
        a.w * quat_product(a, b).x - a.x * quat_product(a, b).w - a.y * quat_product(a, b).z
            + a.z * quat_product(a, b).y == quat_norm_sq(a) * b.x,
{
    let aw = a.w as int;
    let ax = a.x as int;
    let ay = a.y as int;
    let az = a.z as int;
    let bw = b.w as int;
    let bx = b.x as int;
    let by = b.y as int;
    let bz = b.z as int;
    let p = quat_product(a, b);
    lemma_mul_distributes4(aw, p.x, aw * bx, ax * bw, ay * bz, -(az * by));
    lemma_mul_distributes4(ax, p.w, aw * bw, -(ax * bx), -(ay * by), -(az * bz));
    lemma_mul_distributes4(ay, p.z, aw * bz, ax * by, -(ay * bx), az * bw);
    lemma_mul_distributes4(az, p.y, aw * by, -(ax * bz), ay * bw, az * bx);
    lemma_mul_swap_left(aw, ax, bw);
    lemma_mul_swap_left(aw, ay, bz);
    lemma_mul_swap_left(aw, az, by);
    lemma_mul_swap_left(aw, bx, aw);
    lemma_mul_swap_left(ax, aw, bw);
    lemma_mul_swap_left(ax, ay, by);
    lemma_mul_swap_left(ax, az, bz);
    lemma_mul_swap_left(ax, bx, ax);
    lemma_mul_swap_left(ay, aw, bz);
    lemma_mul_swap_left(ay, ax, by);
    lemma_mul_swap_left(ay, az, bw);
    lemma_mul_swap_left(ay, bx, ay);
    lemma_mul_swap_left(az, aw, by);
    lemma_mul_swap_left(az, ax, bz);
    lemma_mul_swap_left(az, ay, bw);
    lemma_mul_swap_left(az, bx, az);
    lemma_mul_swap_left(bx, aw, aw);
    lemma_mul_swap_left(bx, ax, ax);
    lemma_mul_swap_left(bx, ay, ay);
    lemma_mul_swap_left(bx, az, az);
    lemma_mul_distributes4(bx, quat_norm_sq(a), aw * aw, ax * ax, ay * ay, az * az);
}

/// One component of the conjugate identity: multiplying the conjugate of
/// `a` onto `a * b` recovers the `y` component of `b` scaled by the
/// squared norm of `a`.
proof fn lemma_conj_y(a: Quat, b: Quat)
    ensures
        a.w * quat_product(a, b).y + a.x * quat_product(a, b).z - a.y * quat_product(a, b).w
            - a.z * quat_product(a, b).x == quat_norm_sq(a) * b.y,
{
    let aw = a.w as int;
    let ax = a.x as int;
    let ay = a.y as int;
    let az = a.z as int;
    let bw = b.w as int;
    let bx = b.x as int;
    let by = b.y as int;
    let bz = b.z as int;
    let p = quat_product(a, b);
    lemma_mul_distributes4(aw, p.y, aw * by, -(ax * bz), ay * bw, az * bx);
    lemma_mul_distributes4(ax, p.z, aw * bz, ax * by, -(ay * bx), az * bw);
    lemma_mul_distributes4(ay, p.w, aw * bw, -(ax * bx), -(ay * by), -(az * bz));
    lemma_mul_distributes4(az, p.x, aw * bx, ax * bw, ay * bz, -(az * by));
    lemma_mul_swap_left(aw, ax, bz);
    lemma_mul_swap_left(aw, ay, bw);
    lemma_mul_swap_left(aw, az, bx);
    lemma_mul_swap_left(aw, by, aw);
    lemma_mul_swap_left(ax, aw, bz);
    lemma_mul_swap_left(ax, ay, bx);
    lemma_mul_swap_left(ax, az, bw);
    lemma_mul_swap_left(ax, by, ax);
    lemma_mul_swap_left(ay, aw, bw);
    lemma_mul_swap_left(ay, ax, bx);
    lemma_mul_swap_left(ay, az, bz);
    lemma_mul_swap_left(ay, by, ay);
    lemma_mul_swap_left(az, aw, bx);
    lemma_mul_swap_left(az, ax, bw);
    lemma_mul_swap_left(az, ay, bz);
    lemma_mul_swap_left(az, by, az);
    lemma_mul_swap_left(by, aw, aw);
    lemma_mul_swap_left(by, ax, ax);
    lemma_mul_swap_left(by, ay, ay);
    lemma_mul_swap_left(by, az, az);
    lemma_mul_distributes4(by, quat_norm_sq(a), aw * aw, ax * ax, ay * ay, az * az);
}

/// One component of the conjugate identity: multiplying the conjugate of
/// `a` onto `a * b` recovers the `z` component of `b` scaled by the
/// squared norm of `a`.
proof fn lemma_conj_z(a: Quat, b: Quat)
    ensures
        a.w * quat_product(a, b).z - a.x * quat_product(a, b).y + a.y * quat_product(a, b).x
            - a.z * quat_product(a, b).w == quat_norm_sq(a) * b.z,
{
    let aw = a.w as int;
    let ax = a.x as int;
    let ay = a.y as int;
    let az = a.z as int;
    let bw = b.w as int;
    let bx = b.x as int;
    let by = b.y as int;
    let bz = b.z as int;
    let p = quat_product(a, b);
    lemma_mul_distributes4(aw, p.z, aw * bz, ax * by, -(ay * bx), az * bw);
    lemma_mul_distributes4(ax, p.y, aw * by, -(ax * bz), ay * bw, az * bx);
    lemma_mul_distributes4(ay, p.x, aw * bx, ax * bw, ay * bz, -(az * by));
    lemma_mul_distributes4(az, p.w, aw * bw, -(ax * bx), -(ay * by), -(az * bz));
    lemma_mul_swap_left(aw, ax, by);
    lemma_mul_swap_left(aw, ay, bx);
    lemma_mul_swap_left(aw, az, bw);
    lemma_mul_swap_left(aw, bz, aw);
    lemma_mul_swap_left(ax, aw, by);
    lemma_mul_swap_left(ax, ay, bw);
    lemma_mul_swap_left(ax, az, bx);
    lemma_mul_swap_left(ax, bz, ax);
    lemma_mul_swap_left(ay, aw, bx);
    lemma_mul_swap_left(ay, ax, bw);
    lemma_mul_swap_left(ay, az, by);
    lemma_mul_swap_left(ay, bz, ay);
    lemma_mul_swap_left(az, aw, bw);
    lemma_mul_swap_left(az, ax, bx);
    lemma_mul_swap_left(az, ay, by);
    lemma_mul_swap_left(az, bz, az);
    lemma_mul_swap_left(bz, aw, aw);
    lemma_mul_swap_left(bz, ax, ax);
    lemma_mul_swap_left(bz, ay, ay);
    lemma_mul_swap_left(bz, az, az);
    lemma_mul_distributes4(bz, quat_norm_sq(a), aw * aw, ax * ax, ay * ay, az * az);
}

/// The Hamilton product of two non-zero quaternions is non-zero: were it
/// zero, the conjugate identity above would force every component of `b`,
/// scaled by the positive squared norm of `a`, to vanish.
proof fn lemma_quat_product_nonzero(a: Quat, b: Quat)
    requires
        a.is_nonzero(),
        b.is_nonzero(),
    ensures
        !(quat_product(a, b).w == 0 && quat_product(a, b).x == 0 && quat_product(a, b).y == 0
            && quat_product(a, b).z == 0),
{
    let p = quat_product(a, b);
    if p.w == 0 && p.x == 0 && p.y == 0 && p.z == 0 {
        lemma_conj_w(a, b);
        lemma_conj_x(a, b);
        lemma_conj_y(a, b);
        lemma_conj_z(a, b);
        let n = quat_norm_sq(a);
        assert(a.w * p.w == 0 && a.x * p.x == 0 && a.y * p.y == 0 && a.z * p.z == 0)
            by (nonlinear_arith)
            requires
                p.w == 0 && p.x == 0 && p.y == 0 && p.z == 0,
        ;
        assert(a.w * p.x == 0 && a.x * p.w == 0 && a.y * p.z == 0 && a.z * p.y == 0)
            by (nonlinear_arith)
            requires
                p.w == 0 && p.x == 0 && p.y == 0 && p.z == 0,
        ;
        assert(a.w * p.y == 0 && a.x * p.z == 0 && a.y * p.w == 0 && a.z * p.x == 0)
            by (nonlinear_arith)
            requires
                p.w == 0 && p.x == 0 && p.y == 0 && p.z == 0,
        ;
        assert(a.w * p.z == 0 && a.x * p.y == 0 && a.y * p.x == 0 && a.z * p.w == 0)
            by (nonlinear_arith)
            requires
                p.w == 0 && p.x == 0 && p.y == 0 && p.z == 0,
        ;
        lemma_norm_sq_positive(a);
        assert(false) by (nonlinear_arith)
            requires
                n > 0,
                n * b.w == 0,
                n * b.x == 0,
                n * b.y == 0,
                n * b.z == 0,
                !(b.w == 0 && b.x == 0 && b.y == 0 && b.z == 0),
        ;
    }
}

/// A non-zero quaternion has a strictly positive squared norm.
proof fn lemma_norm_sq_positive(q: Quat)
    requires
        q.is_nonzero(),
    ensures
        quat_norm_sq(q) > 0,
{
    assert(quat_norm_sq(q) > 0) by (nonlinear_arith)
        requires
            !(q.w == 0 && q.x == 0 && q.y == 0 && q.z == 0),
            quat_norm_sq(q) == q.w * q.w + q.x * q.x + q.y * q.y + q.z * q.z,
    ;
}

/// The renderer capability the core and the frame driver call through:
/// `upload` hands geometry to the graphics backend once per entity and
/// returns a handle that stays valid for the entity's lifetime; the
/// external frame loop later binds, draws and unbinds by that handle.
/// Implementations belong to the driver and are outside this core.
pub trait RendererPort: Sized {
    fn upload(&mut self, positions: &Vec<Vec3>, normals: &Vec<Vec3>, uvs: &Vec<Vec2>) -> u64;

    fn bind(&mut self, handle: u64);

    fn draw(&mut self, handle: u64, vertex_count: usize);

    fn unbind(&mut self, handle: u64);
}

/// A renderable entity: a transform, raw geometry, a material, the
/// bounding box derived from the geometry, and the renderer's buffer
/// handle once the entity has been initialised.
pub struct Object {
    pub model: Model,
    pub vertices: Vec<Vec3>,
    pub normals: Vec<Vec3>,
    pub uvs: Vec<Vec2>,
    pub material: Physical,
    pub bounding_box: BoundingBox,
    pub buffer_handle: Option<u64>,
}

impl Object {
    /// A new entity around already-loaded geometry. Its bounding box is
    /// the degenerate "no geometry" box, and it holds no buffer handle,
    /// until `init` runs.
    pub fn new(m: Model, v: Vec<Vec3>, n: Vec<Vec3>, uv: Vec<Vec2>, material: Physical) -> (r:
        Object)
        ensures
            r.model == m,
            r.vertices@ == v@,
            r.normals@ == n@,
            r.uvs@ == uv@,
            r.material == material,
            r.bounding_box == crate::collision::empty_box(),
            r.buffer_handle is None,
    {
        Object {
            model: m,
            vertices: v,
            normals: n,
            uvs: uv,
            material,
            bounding_box: BoundingBox::empty(),
            buffer_handle: None,
        }
    }

    /// Uploads the geometry through the renderer port, keeps the handle,
    /// and derives the bounding box of the entity's vertices; everything
    /// else is left untouched. Run once after the geometry is assigned
    /// and before the entity is drawn or picked.
    pub fn init<R: RendererPort>(&mut self, renderer: &mut R)
        ensures
            final(self).bounding_box == aabb_spec(old(self).vertices@),
            final(self).bounding_box.wf(),
            final(self).buffer_handle is Some,
            final(self).model == old(self).model,
            final(self).vertices@ == old(self).vertices@,
            final(self).normals@ == old(self).normals@,
            final(self).uvs@ == old(self).uvs@,
            final(self).material == old(self).material,
    {
        let handle = renderer.upload(&self.vertices, &self.normals, &self.uvs);
        self.buffer_handle = Some(handle);
        self.bounding_box = get_bounding_box(&self.vertices);
    }
}

} // verus!
