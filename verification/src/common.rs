//! Physical constants, unit conversions and the coordinate-frame swap between
//! the host engine's frame and the aerodynamic (baseball) frame.
//!
//! All constants are raw fixed-point values (the real value times `fx::SCALE`).
//! The engine frame is right-handed with y up; the aerodynamic frame has z up,
//! so the swap negates x and exchanges y with z in both directions.

use vstd::prelude::*;
use crate::fx::fx_div;
use crate::fx::fx_div_spec;
use crate::fx::fx_mul;
use crate::fx::fx_mul_spec;
use crate::fx::fx_neg_spec;
use crate::vec3::V3;
use crate::vec3::Vec3;

verus! {

/// Feet per metre.
pub const M_TO_FEET: i64 = 3_280_840_000;
/// Pounds per kilogram.
pub const KG_TO_IBS: i64 = 2_204_620_000;
/// Radians per second for one revolution per minute.
pub const RPM_TO_RADS: i64 = 104_719_755;
/// Feet per second for one mile per hour.
pub const MPH_TO_FTS: i64 = 1_467_000_000;

/// Ball mass in kilograms.
pub const MASS: i64 = 145_000_000;
/// Ball radius in metres.
pub const RADIUS: i64 = 37_000_000;

/// Fixed integration sub-step, in seconds (one millisecond).
pub const T_STEP: i64 = 1_000_000;
/// Number of points on the stitched-seam curve.
pub const N_SEAMS: usize = 108;
/// Ball diameter in feet (2 + 15/16 inches).
pub const DIAMETER: i64 = 244_791_667;
/// Ball radius in feet; half of `DIAMETER`.
pub const BALL_RADIUS_FT: i64 = 122_395_833;
/// Radius of the seam curve: half the seam diameter of 2 + 15/16.
pub const SEAM_R: i64 = 1_468_750_000;
/// Combined constant 0.5 * rho * area / mass, with air density rho = 0.074,
/// cross-section area 0.25 * pi * DIAMETER^2 and mass 0.3203125 pounds.
pub const C_0: i64 = 5_436_395;
/// Drag coefficient.
pub const CD_CONST: i64 = 330_000_000;
/// Lift coefficient per active seam per unit offset from the ball center.
pub const C_SEAMS: i64 = 20_000_000;
/// Natural spin decay time in seconds; deliberately large.
pub const SPIN_DECAY: i64 = 10_000_000_000_000;
/// Gravitational acceleration in feet per second squared.
pub const GRAVITY: i64 = 32_200_000_000;

/// Constant term of the lift-coefficient formula 1 / (2.42 + 0.4 / s).
pub const CL_DENOM_CONST: i64 = 2_420_000_000;
/// Spin-parameter coefficient of the lift-coefficient formula.
pub const CL_SPIN_COEF: i64 = 400_000_000;

/// The coordinate swap between the engine frame and the aerodynamic frame:
/// (x, y, z) becomes (-x, z, y). Applying it twice gives the vector back.
pub open spec fn swap_coordinates_spec(v: V3) -> V3 {
    V3 { x: fx_neg_spec(v.x), y: v.z, z: v.y }
}

/// Frame swap for a vector of engine-frame coordinates.
pub fn swap_coordinates_vec3(vec: &Vec3) -> (r: Vec3)
    ensures
        r@ == swap_coordinates_spec(vec@),
{
    Vec3::new(crate::fx::fx_neg(vec.x), vec.z, vec.y)
}

/// Frame swap for a vector that a host keeps in double precision. One
/// fixed-point width serves every caller here, so this is the same
/// permutation as `swap_coordinates_vec3` under its second customary name.
pub fn swap_coordinates_dvec3(vec: &Vec3) -> (r: Vec3)
    ensures
        r@ == swap_coordinates_spec(vec@),
{
    Vec3::new(crate::fx::fx_neg(vec.x), vec.z, vec.y)
}

pub fn kg_to_pound(weight: i64) -> (r: i64)
    ensures
        r as int == fx_mul_spec(weight as int, KG_TO_IBS as int),
{
    fx_mul(weight, KG_TO_IBS)
}

pub fn pound_to_kg(weight: i64) -> (r: i64)
    ensures
        r as int == fx_div_spec(weight as int, KG_TO_IBS as int),
{
    fx_div(weight, KG_TO_IBS)
}

/// View of the engine-to-aerodynamic conversion: swap the axes, then scale
/// metres to feet.
pub open spec fn to_baseball_coord_spec(v: V3) -> V3 {
    let s: V3 = swap_coordinates_spec(v);
    V3 {
        x: fx_mul_spec(s.x, M_TO_FEET as int),
        y: fx_mul_spec(s.y, M_TO_FEET as int),
        z: fx_mul_spec(s.z, M_TO_FEET as int),
    }
}

/// View of the aerodynamic-to-engine conversion: swap the axes, then scale
/// feet to metres.
pub open spec fn to_bevy_coord_spec(v: V3) -> V3 {
    let s: V3 = swap_coordinates_spec(v);
    V3 {
        x: fx_div_spec(s.x, M_TO_FEET as int),
        y: fx_div_spec(s.y, M_TO_FEET as int),
        z: fx_div_spec(s.z, M_TO_FEET as int),
    }
}

impl Vec3 {
    /// Converts an engine-frame vector in metres to an aerodynamic-frame
    /// vector in feet.
    pub fn from_bevy_to_baseball_coord(&self) -> (r: Vec3)
        ensures
            r@ == to_baseball_coord_spec(self@),
    {
        let s: Vec3 = swap_coordinates_vec3(self);
        s.scale(M_TO_FEET)
    }

    /// Converts an aerodynamic-frame vector in feet to an engine-frame vector
    /// in metres.
    pub fn from_baseball_coord_to_bevy(&self) -> (r: Vec3)
        ensures
            r@ == to_bevy_coord_spec(self@),
    {
        let s: Vec3 = swap_coordinates_vec3(self);
        s.divs(M_TO_FEET)
    }
}

} // verus!
