//! Rotation quaternions over the fixed-point scalars.
//!
//! Quaternions produced by the constructors here are unit quaternions up to
//! fixed-point rounding; `inverse` is the conjugate, as for any unit
//! quaternion. Every operation is specified exactly over the raw components.

use vstd::prelude::*;
use crate::fx::INV2_FX;
use crate::fx::PI_FX;
use crate::fx::SCALE;
use crate::fx::fx_add;
use crate::fx::fx_add_spec;
use crate::fx::fx_cos;
use crate::fx::fx_cos_spec;
use crate::fx::fx_div;
use crate::fx::fx_div_spec;
use crate::fx::fx_mul;
use crate::fx::fx_mul_spec;
use crate::fx::fx_neg;
use crate::fx::fx_neg_spec;
use crate::fx::fx_sin;
use crate::fx::fx_sin_spec;
use crate::fx::fx_sqrt;
use crate::fx::fx_sqrt_spec;
use crate::vec3::V3;
use crate::vec3::Vec3;
use crate::vec3::v3_add_spec;
use crate::vec3::v3_cross_spec;
use crate::vec3::v3_dot_spec;
use crate::vec3::v3_normalize_spec;
use crate::vec3::v3_scale_spec;

verus! {

/// Dot products of unit vectors at least this close to one are treated as
/// parallel by `quat_from_rotation_arc`.
pub const NEAR_ONE: i64 = 999_999_998;

/// Mathematical view of a quaternion: the four raw components.
pub ghost struct Q4 {
    pub x: int,
    pub y: int,
    pub z: int,
    pub w: int,
}

/// A rotation quaternion with fixed-point components.
#[derive(Clone, Copy, Debug, PartialEq, Eq, Structural)]
pub struct Quat {
    pub x: i64,
    pub y: i64,
    pub z: i64,
    pub w: i64,
}

impl View for Quat {
    type V = Q4;

    open spec fn view(&self) -> Q4 {
        Q4 { x: self.x as int, y: self.y as int, z: self.z as int, w: self.w as int }
    }
}

pub open spec fn quat_identity_spec() -> Q4 {
    Q4 { x: 0, y: 0, z: 0, w: SCALE as int }
}

/// Conjugation; the inverse rotation for a unit quaternion.
pub open spec fn quat_inverse_spec(q: Q4) -> Q4 {
    Q4 { x: fx_neg_spec(q.x), y: fx_neg_spec(q.y), z: fx_neg_spec(q.z), w: q.w }
}

/// The quaternion of a rotation about `axis` (assumed of unit length) by
/// `angle` raw radians.
pub open spec fn quat_from_axis_angle_spec(axis: V3, angle: int) -> Q4 {
    let half: int = fx_mul_spec(angle, INV2_FX as int);
    let s: int = fx_sin_spec(half);
    Q4 {
        x: fx_mul_spec(axis.x, s),
        y: fx_mul_spec(axis.y, s),
        z: fx_mul_spec(axis.z, s),
        w: fx_cos_spec(half),
    }
}

pub open spec fn quat_from_rotation_x_spec(angle: int) -> Q4 {
    let half: int = fx_mul_spec(angle, INV2_FX as int);
    Q4 { x: fx_sin_spec(half), y: 0, z: 0, w: fx_cos_spec(half) }
}

pub open spec fn quat_from_rotation_y_spec(angle: int) -> Q4 {
    let half: int = fx_mul_spec(angle, INV2_FX as int);
    Q4 { x: 0, y: fx_sin_spec(half), z: 0, w: fx_cos_spec(half) }
}

pub open spec fn quat_from_rotation_z_spec(angle: int) -> Q4 {
    let half: int = fx_mul_spec(angle, INV2_FX as int);
    Q4 { x: 0, y: 0, z: fx_sin_spec(half), w: fx_cos_spec(half) }
}

/// Rotation of a vector: v + w * t + u x t with t = 2 (u x v), u the vector
/// part of the quaternion.
pub open spec fn quat_mul_vec3_spec(q: Q4, v: V3) -> V3 {
    let u: V3 = V3 { x: q.x, y: q.y, z: q.z };
    let c: V3 = v3_cross_spec(u, v);
    let t: V3 = v3_add_spec(c, c);
    v3_add_spec(v3_add_spec(v, v3_scale_spec(t, q.w)), v3_cross_spec(u, t))
}

pub open spec fn quat_norm2_spec(q: Q4) -> int {
    fx_add_spec(
        fx_add_spec(fx_mul_spec(q.x, q.x), fx_mul_spec(q.y, q.y)),
        fx_add_spec(fx_mul_spec(q.z, q.z), fx_mul_spec(q.w, q.w)),
    )
}

pub open spec fn quat_normalize_spec(q: Q4) -> Q4 {
    let n: int = fx_sqrt_spec(quat_norm2_spec(q));
    Q4 {
        x: fx_div_spec(q.x, n),
        y: fx_div_spec(q.y, n),
        z: fx_div_spec(q.z, n),
        w: fx_div_spec(q.w, n),
    }
}

/// A unit vector orthogonal to `v` (assumed of unit length): the normalized
/// cross product with whichever coordinate axis is not parallel to `v`.
pub open spec fn orthonormal_spec(v: V3) -> V3 {
    let cx: V3 = v3_cross_spec(v, V3 { x: SCALE as int, y: 0, z: 0 });
    if v3_dot_spec(cx, cx) > 0 {
        v3_normalize_spec(cx)
    } else {
        v3_normalize_spec(v3_cross_spec(v, V3 { x: 0, y: SCALE as int, z: 0 }))
    }
}

/// The shortest-arc rotation taking the unit vector `from` onto the unit
/// vector `to`: identity when they are (nearly) equal, a half turn about an
/// orthogonal axis when they are (nearly) opposite, and otherwise the
/// normalized quaternion built from their cross product and 1 + dot.
pub open spec fn quat_from_rotation_arc_spec(from: V3, to: V3) -> Q4 {
    let d: int = v3_dot_spec(from, to);
    if d >= NEAR_ONE {
        quat_identity_spec()
    } else if d <= -(NEAR_ONE as int) {
        quat_from_axis_angle_spec(orthonormal_spec(from), PI_FX as int)
    } else {
        let c: V3 = v3_cross_spec(from, to);
        quat_normalize_spec(Q4 { x: c.x, y: c.y, z: c.z, w: fx_add_spec(SCALE as int, d) })
    }
}

impl Quat {
    pub fn identity() -> (r: Quat)
        ensures
            r@ == quat_identity_spec(),
    {
        Quat { x: 0, y: 0, z: 0, w: SCALE }
    }

    pub fn inverse(&self) -> (r: Quat)
        ensures
            r@ == quat_inverse_spec(self@),
    {
        Quat { x: fx_neg(self.x), y: fx_neg(self.y), z: fx_neg(self.z), w: self.w }
    }

    pub fn from_axis_angle(axis: &Vec3, angle: i64) -> (r: Quat)
        ensures
            r@ == quat_from_axis_angle_spec(axis@, angle as int),
    {
        let half: i64 = fx_mul(angle, INV2_FX);
        let s: i64 = fx_sin(half);
        Quat {
            x: fx_mul(axis.x, s),
            y: fx_mul(axis.y, s),
            z: fx_mul(axis.z, s),
            w: fx_cos(half),
        }
    }

    pub fn from_rotation_x(angle: i64) -> (r: Quat)
        ensures
            r@ == quat_from_rotation_x_spec(angle as int),
    {
        let half: i64 = fx_mul(angle, INV2_FX);
        Quat { x: fx_sin(half), y: 0, z: 0, w: fx_cos(half) }
    }

    pub fn from_rotation_y(angle: i64) -> (r: Quat)
        ensures
            r@ == quat_from_rotation_y_spec(angle as int),
    {
        let half: i64 = fx_mul(angle, INV2_FX);
        Quat { x: 0, y: fx_sin(half), z: 0, w: fx_cos(half) }
    }

    pub fn from_rotation_z(angle: i64) -> (r: Quat)
        ensures
            r@ == quat_from_rotation_z_spec(angle as int),
    {
        let half: i64 = fx_mul(angle, INV2_FX);
        Quat { x: 0, y: 0, z: fx_sin(half), w: fx_cos(half) }
    }

    pub fn mul_vec3(&self, v: &Vec3) -> (r: Vec3)
        ensures
            r@ == quat_mul_vec3_spec(self@, v@),
    {
        let u: Vec3 = Vec3::new(self.x, self.y, self.z);
        let c: Vec3 = u.cross(v);
        let t: Vec3 = c.add(&c);
        v.add(&t.scale(self.w)).add(&u.cross(&t))
    }

    pub fn normalize(&self) -> (r: Quat)
        ensures
            r@ == quat_normalize_spec(self@),
    {
        let n2: i64 = fx_add(
            fx_add(fx_mul(self.x, self.x), fx_mul(self.y, self.y)),
            fx_add(fx_mul(self.z, self.z), fx_mul(self.w, self.w)),
        );
        let n: i64 = fx_sqrt(n2);
        Quat {
            x: fx_div(self.x, n),
            y: fx_div(self.y, n),
            z: fx_div(self.z, n),
            w: fx_div(self.w, n),
        }
    }

    pub fn from_rotation_arc(from: &Vec3, to: &Vec3) -> (r: Quat)
        ensures
            r@ == quat_from_rotation_arc_spec(from@, to@),
    {
        let d: i64 = from.dot(to);
        if d >= NEAR_ONE {
            Quat::identity()
        } else if d <= -NEAR_ONE {
            let axis: Vec3 = orthonormal(from);
            Quat::from_axis_angle(&axis, PI_FX)
        } else {
            let c: Vec3 = from.cross(to);
            let q: Quat = Quat { x: c.x, y: c.y, z: c.z, w: fx_add(SCALE, d) };
            q.normalize()
        }
    }
}

fn orthonormal(v: &Vec3) -> (r: Vec3)
    ensures
        r@ == orthonormal_spec(v@),
{
    let cx: Vec3 = v.cross(&Vec3::new(SCALE, 0, 0));
    if cx.dot(&cx) > 0 {
        cx.normalize()
    } else {
        v.cross(&Vec3::new(0, SCALE, 0)).normalize()
    }
}

} // verus!
