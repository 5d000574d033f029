//! The flight state of a ball and its dynamics: seam-geometry synthesis,
//! seam-shifted-wake activation detection, the force model and the
//! Runge-Kutta integrator that advances the state in fixed sub-steps.

use vstd::prelude::*;
use vstd::arithmetic::div_mod::lemma_div_is_ordered;
use vstd::arithmetic::mul::lemma_mul_inequality;
use vstd::arithmetic::mul::lemma_mul_is_commutative;
use crate::common::BALL_RADIUS_FT;
use crate::common::CD_CONST;
use crate::common::CL_DENOM_CONST;
use crate::common::CL_SPIN_COEF;
use crate::common::C_0;
use crate::common::C_SEAMS;
use crate::common::GRAVITY;
use crate::common::N_SEAMS;
use crate::common::SEAM_R;
use crate::common::SPIN_DECAY;
use crate::common::T_STEP;
use crate::config::BaseballPluginConfig;
use crate::config::ConfigV;
use crate::config::SeamShiftedWake;
use crate::config::SswV;
use crate::fx::HALF_PI_FX;
use crate::fx::INV2_FX;
use crate::fx::PI_6_FX;
use crate::fx::PI_360_FX;
use crate::fx::SCALE;
use crate::fx::TWO_PI_FX;
use crate::fx::fx_add;
use crate::fx::fx_add_spec;
use crate::fx::fx_cos;
use crate::fx::fx_cos_spec;
use crate::fx::fx_div;
use crate::fx::fx_div_spec;
use crate::fx::fx_exp_neg;
use crate::fx::fx_exp_neg_spec;
use crate::fx::fx_mul;
use crate::fx::fx_mul_spec;
use crate::fx::fx_neg;
use crate::fx::fx_neg_spec;
use crate::fx::fx_sin;
use crate::fx::fx_sin_spec;
use crate::fx::fx_sub;
use crate::fx::fx_sub_spec;
use crate::fx::lemma_fx_div_nonneg;
use crate::fx::lemma_fx_mul_nonneg;
use crate::quat::Quat;
use crate::quat::quat_from_axis_angle_spec;
use crate::quat::quat_from_rotation_arc_spec;
use crate::quat::quat_from_rotation_x_spec;
use crate::quat::quat_from_rotation_y_spec;
use crate::quat::quat_from_rotation_z_spec;
use crate::quat::quat_inverse_spec;
use crate::quat::quat_mul_vec3_spec;
use crate::vec3::V3;
use crate::vec3::Vec3;
use crate::vec3::v3_add_spec;
use crate::vec3::v3_cross_spec;
use crate::vec3::v3_div_comp_spec;
use crate::vec3::v3_divs_spec;
use crate::vec3::v3_dot_spec;
use crate::vec3::v3_len_spec;
use crate::vec3::v3_mul_comp_spec;
use crate::vec3::v3_normalize_spec;
use crate::vec3::v3_scale_spec;
use crate::vec3::v3_sub_spec;
use crate::vec3::v3_zero;

verus! {

/// 9, in raw units: coefficient of the first seam-curve harmonic.
pub const NINE_FX: i64 = 9_000_000_000;
/// 4, in raw units: coefficient of the third seam-curve harmonic.
pub const FOUR_FX: i64 = 4_000_000_000;
/// 1/13, in raw units: overall factor of the seam-curve formula.
pub const THIRTEENTH_FX: i64 = 76_923_077;
/// 12/13, in raw units: coefficient of the axial seam-curve term.
pub const TWELVE_THIRTEENTHS_FX: i64 = 923_076_923;
/// 6, in raw units: divisor of the Runge-Kutta slope combination.
pub const SIX_FX: i64 = 6_000_000_000;

/// Handedness convention for decomposing spin relative to the tilt axis.
#[derive(Clone, Copy, Debug, PartialEq, Eq, Structural)]
pub enum GyroPole {
    Right,
    Left,
}

impl Default for GyroPole {
    fn default() -> (r: Self)
        ensures
            r == GyroPole::Right,
    {
        GyroPole::Right
    }
}

/// Spin-axis orientation given as a clock-face hour/minute pair, stored as a
/// raw angle in radians.
#[derive(Clone, Copy, Debug, PartialEq, Eq, Structural)]
pub struct Tilt(pub i64);

impl Tilt {
    /// The tilt angle of a clock reading: (h - 3) * pi/6 + m * pi/360.
    /// An hour outside 1..=12 is a precondition violation, not a runtime
    /// check, so the constructor never panics.
    pub fn from_hour_mintes(h: i8, m: i8) -> (r: Self)
        requires
            1 <= h <= 12,
        ensures
            r.0 as int == PI_6_FX * (h - 3) + PI_360_FX * m,
    {
        let rad_hrs: i64 = PI_6_FX * ((h - 3) as i64);
        let rad_mins: i64 = PI_360_FX * (m as i64);
        Tilt(rad_hrs + rad_mins)
    }

    pub fn get(&self) -> (r: i64)
        ensures
            r == self.0,
    {
        self.0
    }
}

/// The mathematical contents of a sequence of stored vectors.
pub open spec fn seams_view(s: Seq<Vec3>) -> Seq<V3> {
    s.map_values(|p: Vec3| p@)
}

/// A sequence of stored indices as mathematical integers.
pub open spec fn to_int_seq(s: Seq<usize>) -> Seq<int> {
    s.map_values(|u: usize| u as int)
}

/// Mathematical view of a flight state.
pub ghost struct StateV {
    pub translation: V3,
    pub v: V3,
    pub spin: V3,
    pub seams: Seq<V3>,
    pub time_elapsed: int,
    pub active: bool,
}

/// The aggregate mutable record of one ball in flight: position, velocity and
/// spin in the aerodynamic frame, the world-oriented seam points, the time
/// since activation, and the activity flag.
#[derive(Clone, Debug)]
pub struct BaseballFlightState {
    pub translation: Vec3,
    pub v: Vec3,
    pub spin: Vec3,
    pub seams: Vec<Vec3>,
    pub time_elapsed: i64,
    pub active: bool,
}

impl View for BaseballFlightState {
    type V = StateV;

    open spec fn view(&self) -> StateV {
        StateV {
            translation: self.translation@,
            v: self.v@,
            spin: self.spin@,
            seams: seams_view(self.seams@),
            time_elapsed: self.time_elapsed as int,
            active: self.active,
        }
    }
}

impl Default for BaseballFlightState {
    /// The inactive rest state a ball starts in.
    fn default() -> (s: Self)
        ensures
            s@.translation == v3_zero(),
            s@.v == v3_zero(),
            s@.spin == v3_zero(),
            s@.seams.len() == 0,
            s@.time_elapsed == 0,
            s@.active == false,
    {
        BaseballFlightState {
            translation: Vec3::zero(),
            v: Vec3::zero(),
            spin: Vec3::zero(),
            seams: Vec::new(),
            time_elapsed: 0,
            active: false,
        }
    }
}

/// Well-formedness: a nonnegative clock, and the full seam set while active.
pub open spec fn state_wf(s: StateV) -> bool {
    s.time_elapsed >= 0 && (s.active ==> s.seams.len() == N_SEAMS)
}

/// The curve parameter of seam point `i`: 2 * pi * i / 108, in raw radians.
pub open spec fn seam_alpha_spec(i: int) -> int {
    (TWO_PI_FX * i) / (N_SEAMS as int)
}

/// Seam point `i` in the canonical seam-space frame: the three-lobed closed
/// curve x = (9 cos a - 4 cos 3a)/13, y = (9 sin a + 4 sin 3a)/13,
/// z = 12 cos 2a / 13, scaled by the seam radius.
pub open spec fn canonical_seam_point_spec(i: int) -> V3 {
    let alpha: int = seam_alpha_spec(i);
    let c1: int = fx_cos_spec(alpha);
    let s1: int = fx_sin_spec(alpha);
    let c3: int = fx_cos_spec(3 * alpha);
    let s3: int = fx_sin_spec(3 * alpha);
    let c2: int = fx_cos_spec(2 * alpha);
    let x: int = fx_mul_spec(
        fx_sub_spec(fx_mul_spec(NINE_FX as int, c1), fx_mul_spec(FOUR_FX as int, c3)),
        THIRTEENTH_FX as int,
    );
    let y: int = fx_mul_spec(
        fx_add_spec(fx_mul_spec(NINE_FX as int, s1), fx_mul_spec(FOUR_FX as int, s3)),
        THIRTEENTH_FX as int,
    );
    let z: int = fx_mul_spec(TWELVE_THIRTEENTHS_FX as int, c2);
    v3_scale_spec(V3 { x, y, z }, SEAM_R as int)
}

/// A canonical seam point reoriented into world space: the fixed -90 degree
/// x and +90 degree y rotations, the two seam-placement rotations, then the
/// shortest-arc rotation taking the local x axis onto the spin axis.
pub open spec fn oriented_seam_point_spec(p: V3, spin: V3, seam_y_angle: int, seam_z_angle: int) -> V3 {
    let p1: V3 = quat_mul_vec3_spec(quat_from_rotation_x_spec(-(HALF_PI_FX as int)), p);
    let p2: V3 = quat_mul_vec3_spec(quat_from_rotation_y_spec(HALF_PI_FX as int), p1);
    let p3: V3 = quat_mul_vec3_spec(quat_from_rotation_y_spec(seam_y_angle), p2);
    let p4: V3 = quat_mul_vec3_spec(quat_from_rotation_z_spec(fx_neg_spec(seam_z_angle)), p3);
    quat_mul_vec3_spec(
        quat_from_rotation_arc_spec(V3 { x: SCALE as int, y: 0, z: 0 }, v3_normalize_spec(spin)),
        p4,
    )
}

/// The full world-oriented seam set of a launch configuration.
pub open spec fn initial_seams_spec(spin: V3, seam_y_angle: int, seam_z_angle: int) -> Seq<V3> {
    Seq::new(
        N_SEAMS as nat,
        |i: int| oriented_seam_point_spec(canonical_seam_point_spec(i), spin, seam_y_angle, seam_z_angle),
    )
}

fn seam_alpha(i: usize) -> (r: i64)
    requires
        i < N_SEAMS,
    ensures
        r as int == seam_alpha_spec(i as int),
        0 <= r as int <= TWO_PI_FX as int,
{
    proof {
        lemma_mul_inequality(i as int, 107, TWO_PI_FX as int);
        lemma_mul_is_commutative(i as int, TWO_PI_FX as int);
        lemma_mul_is_commutative(107, TWO_PI_FX as int);
        lemma_div_is_ordered(TWO_PI_FX * (i as int), (TWO_PI_FX as int) * 107, N_SEAMS as int);
        vstd::arithmetic::div_mod::lemma_div_pos_is_pos(TWO_PI_FX * (i as int), N_SEAMS as int);
        vstd::arithmetic::mul::lemma_mul_nonnegative(TWO_PI_FX as int, i as int);
    }
    ((TWO_PI_FX as u64 * i as u64) / (N_SEAMS as u64)) as i64
}

/// Seam point `i` of the canonical pattern.
pub fn canonical_seam_point(i: usize) -> (r: Vec3)
    requires
        i < N_SEAMS,
    ensures
        r@ == canonical_seam_point_spec(i as int),
{
    let alpha: i64 = seam_alpha(i);
    let c1: i64 = fx_cos(alpha);
    let s1: i64 = fx_sin(alpha);
    let c3: i64 = fx_cos(3 * alpha);
    let s3: i64 = fx_sin(3 * alpha);
    let c2: i64 = fx_cos(2 * alpha);
    let x: i64 = fx_mul(fx_sub(fx_mul(NINE_FX, c1), fx_mul(FOUR_FX, c3)), THIRTEENTH_FX);
    let y: i64 = fx_mul(fx_add(fx_mul(NINE_FX, s1), fx_mul(FOUR_FX, s3)), THIRTEENTH_FX);
    let z: i64 = fx_mul(TWELVE_THIRTEENTHS_FX, c2);
    Vec3::new(x, y, z).scale(SEAM_R)
}

/// The 108 points of the canonical (pre-orientation) seam pattern.
pub fn canonical_seam_points() -> (r: Vec<Vec3>)
    ensures
        r@.len() == N_SEAMS,
        forall|i: int| 0 <= i < N_SEAMS ==> r@[i]@ == canonical_seam_point_spec(i),
{
    let mut out: Vec<Vec3> = Vec::new();
    let mut i: usize = 0;
    while i < N_SEAMS
        invariant
            i <= N_SEAMS,
            out@.len() == i,
            forall|j: int| 0 <= j < i ==> out@[j]@ == canonical_seam_point_spec(j),
        decreases N_SEAMS - i,
    {
        out.push(canonical_seam_point(i));
        i = i + 1;
    }
    out
}

impl BaseballFlightState {
    /// Stops integration and resets the activation clock; every other field
    /// keeps its last computed value.
    pub fn deactivate(&mut self)
        ensures
            final(self)@.active == false,
            final(self)@.time_elapsed == 0,
            final(self)@.translation == old(self)@.translation,
            final(self)@.v == old(self)@.v,
            final(self)@.spin == old(self)@.spin,
            final(self)@.seams == old(self)@.seams,
    {
        self.active = false;
        self.time_elapsed = 0;
    }

    /// Constructs an active state from launch parameters: position, velocity
    /// and spin in the aerodynamic frame, and the two seam-placement angles
    /// in raw radians.
    pub fn from_params(
        translation_: Vec3,
        velocity_: Vec3,
        spin_: Vec3,
        seam_y_angle_: i64,
        seam_z_angle_: i64,
    ) -> (s: Self)
        ensures
            s@.translation == translation_@,
            s@.v == velocity_@,
            s@.spin == spin_@,
            s@.seams == initial_seams_spec(spin_@, seam_y_angle_ as int, seam_z_angle_ as int),
            s@.time_elapsed == 0,
            s@.active == true,
            state_wf(s@),
    {
        let canonical: Vec<Vec3> = canonical_seam_points();
        let qx: Quat = Quat::from_rotation_x(-HALF_PI_FX);
        let qy90: Quat = Quat::from_rotation_y(HALF_PI_FX);
        let qy: Quat = Quat::from_rotation_y(seam_y_angle_);
        let qz: Quat = Quat::from_rotation_z(fx_neg(seam_z_angle_));
        let axis: Vec3 = spin_.normalize();
        let q_arc: Quat = Quat::from_rotation_arc(&Vec3::new(SCALE, 0, 0), &axis);
        let mut seams: Vec<Vec3> = Vec::new();
        let mut i: usize = 0;
        while i < N_SEAMS
            invariant
                i <= N_SEAMS,
                seams@.len() == i,
                canonical@.len() == N_SEAMS,
                forall|j: int| 0 <= j < N_SEAMS ==> canonical@[j]@ == canonical_seam_point_spec(j),
                qx@ == quat_from_rotation_x_spec(-(HALF_PI_FX as int)),
                qy90@ == quat_from_rotation_y_spec(HALF_PI_FX as int),
                qy@ == quat_from_rotation_y_spec(seam_y_angle_ as int),
                qz@ == quat_from_rotation_z_spec(fx_neg_spec(seam_z_angle_ as int)),
                q_arc@ == quat_from_rotation_arc_spec(
                    V3 { x: SCALE as int, y: 0, z: 0 },
                    v3_normalize_spec(spin_@),
                ),
                forall|j: int|
                    0 <= j < i ==> seams@[j]@ == oriented_seam_point_spec(
                        canonical_seam_point_spec(j),
                        spin_@,
                        seam_y_angle_ as int,
                        seam_z_angle_ as int,
                    ),
            decreases N_SEAMS - i,
        {
            let p: Vec3 = canonical[i];
            let oriented: Vec3 = q_arc.mul_vec3(
                &qz.mul_vec3(&qy.mul_vec3(&qy90.mul_vec3(&qx.mul_vec3(&p)))),
            );
            seams.push(oriented);
            i = i + 1;
        }
        let s: BaseballFlightState = BaseballFlightState {
            translation: translation_,
            v: velocity_,
            spin: spin_,
            seams,
            time_elapsed: 0,
            active: true,
        };
        proof {
            assert(s@.seams =~= initial_seams_spec(
                spin_@,
                seam_y_angle_ as int,
                seam_z_angle_ as int,
            ));
        }
        s
    }
}

/// The rotation taking the canonical "down" axis -y onto the direction of
/// travel; it defines the velocity-aligned frame of the activation test.
pub open spec fn ssw_rot_v_spec(v: V3) -> crate::quat::Q4 {
    quat_from_rotation_arc_spec(V3 { x: 0, y: -(SCALE as int), z: 0 }, v3_normalize_spec(v))
}

/// A seam point carried into the velocity-aligned, shift-corrected frame:
/// first the inverse of the small phase-lag rotation about the x axis, then
/// the inverse of the velocity-alignment rotation.
pub open spec fn ssw_adjusted_point_spec(p: V3, v: V3, shift: int) -> V3 {
    let rot_v: crate::quat::Q4 = ssw_rot_v_spec(v);
    let rot_spin: crate::quat::Q4 = quat_from_rotation_x_spec(fx_mul_spec(shift, T_STEP as int));
    quat_mul_vec3_spec(
        quat_inverse_spec(rot_v),
        quat_mul_vec3_spec(quat_inverse_spec(rot_spin), p),
    )
}

/// Strict membership in the activation-region box, axis by axis.
pub open spec fn in_activation_region_spec(p: V3, ssw: SswV) -> bool {
    p.x < ssw.activation_max.x && p.x > ssw.activation_min.x && p.y < ssw.activation_max.y && p.y
        > ssw.activation_min.y && p.z < ssw.activation_max.z && p.z > ssw.activation_min.z
}

/// Whether seam point `i` sits outside already-separated flow: the angles its
/// two neighbour edges subtend with the direction of travel must both deviate
/// from a straight line (pi) by at least `range`. Since the arc cosine is
/// decreasing, a deviation of at least `range` from pi is the same as a
/// cosine of at least -cos(range), which is how the test is computed here.
pub open spec fn outside_separated_flow_spec(seams: Seq<V3>, v: V3, range: int, i: int) -> bool {
    let n: int = seams.len() as int;
    let p: V3 = seams[i];
    let nxt: V3 = seams[(i + 1) % n];
    let prv: V3 = seams[(i + n - 1) % n];
    let vhat: V3 = v3_normalize_spec(v);
    let dd: int = v3_dot_spec(vhat, v3_normalize_spec(v3_sub_spec(p, prv)));
    let du: int = v3_dot_spec(vhat, v3_normalize_spec(v3_sub_spec(nxt, p)));
    let thr: int = fx_neg_spec(fx_cos_spec(range));
    dd >= thr && du >= thr
}

/// Whether seam point `i` produces seam-shifted-wake force this sub-step.
pub open spec fn is_ssw_active_spec(seams: Seq<V3>, v: V3, ssw: SswV, i: int) -> bool {
    in_activation_region_spec(ssw_adjusted_point_spec(seams[i], v, ssw.seam_shift_factor), ssw)
        && outside_separated_flow_spec(seams, v, ssw.separated_flow_range, i)
}

/// The active indices below `k`, in increasing order.
pub open spec fn active_upto_spec(seams: Seq<V3>, v: V3, ssw: SswV, k: nat) -> Seq<int>
    decreases k,
{
    if k == 0 {
        Seq::empty()
    } else {
        let rest: Seq<int> = active_upto_spec(seams, v, ssw, (k - 1) as nat);
        if is_ssw_active_spec(seams, v, ssw, k - 1) {
            rest.push(k - 1)
        } else {
            rest
        }
    }
}

/// The set of seam indices that currently produce seam-shifted-wake force,
/// as the increasing sequence of all indices passing the activation test.
pub open spec fn active_seams_spec(seams: Seq<V3>, v: V3, ssw: SswV) -> Seq<int> {
    active_upto_spec(seams, v, ssw, N_SEAMS as nat)
}

/// Left fold of the selected seam offsets.
pub open spec fn seam_sum_spec(seams: Seq<V3>, active: Seq<int>) -> V3
    decreases active.len(),
{
    if active.len() == 0 {
        v3_zero()
    } else {
        v3_add_spec(seam_sum_spec(seams, active.drop_last()), seams[active.last()])
    }
}

/// The acceleration of the force model: drag opposing the velocity, Magnus
/// lift along spin x velocity with the decaying lift coefficient
/// 1 / (2.42 + 0.4 / s), and the summed offsets of the active seams scaled
/// against the squared airspeed. Gravity is not part of the force model.
pub open spec fn derivs_spec(
    cfg: ConfigV,
    v: V3,
    spin: V3,
    seams: Seq<V3>,
    t: int,
    active: Seq<int>,
) -> V3 {
    let v_tot: int = v3_len_spec(v);
    let spin_rate: int = v3_len_spec(spin);
    let rw: int = fx_mul_spec(BALL_RADIUS_FT as int, spin_rate);
    let s: int = fx_mul_spec(
        fx_div_spec(rw, v_tot),
        fx_exp_neg_spec(fx_div_spec(t, SPIN_DECAY as int)),
    );
    let cl: int = fx_div_spec(
        SCALE as int,
        fx_add_spec(CL_DENOM_CONST as int, fx_div_spec(CL_SPIN_COEF as int, s)),
    );
    let a_drag: V3 = if cfg.drag_on {
        v3_scale_spec(
            v3_scale_spec(v3_scale_spec(v, fx_neg_spec(C_0 as int)), CD_CONST as int),
            v_tot,
        )
    } else {
        v3_zero()
    };
    let a_spin: V3 = if cfg.magnus_on {
        v3_scale_spec(
            v3_scale_spec(
                v3_scale_spec(v3_cross_spec(spin, v), C_0 as int),
                fx_div_spec(cl, spin_rate),
            ),
            v_tot,
        )
    } else {
        v3_zero()
    };
    let a_ssw: V3 = if cfg.ssw_on {
        v3_scale_spec(
            v3_scale_spec(
                v3_scale_spec(seam_sum_spec(seams, active), fx_neg_spec(C_0 as int)),
                C_SEAMS as int,
            ),
            fx_mul_spec(v_tot, v_tot),
        )
    } else {
        v3_zero()
    };
    v3_add_spec(v3_add_spec(a_drag, a_spin), a_ssw)
}

impl BaseballFlightState {
    /// Whether seam point `index` lies outside already-separated flow; see
    /// `outside_separated_flow_spec` for the angle criterion.
    pub fn outside_separated_flow(&self, ssw: &SeamShiftedWake, index: usize) -> (r: bool)
        requires
            self@.seams.len() == N_SEAMS,
            index < N_SEAMS,
        ensures
            r == outside_separated_flow_spec(
                self@.seams,
                self@.v,
                ssw@.separated_flow_range,
                index as int,
            ),
    {
        let p: Vec3 = self.seams[index];
        let nxt: Vec3 = self.seams[(index + 1) % N_SEAMS];
        let prv: Vec3 = self.seams[(index + N_SEAMS - 1) % N_SEAMS];
        let vhat: Vec3 = self.v.normalize();
        let dd: i64 = vhat.dot(&p.sub(&prv).normalize());
        let du: i64 = vhat.dot(&nxt.sub(&p).normalize());
        let thr: i64 = fx_neg(fx_cos(ssw.separated_flow_range));
        dd >= thr && du >= thr
    }

    /// The activation test for one seam index: membership in the activation
    /// box of the velocity-aligned frame, and the separated-flow exclusion.
    pub fn seam_active(&self, ssw: &SeamShiftedWake, index: usize) -> (r: bool)
        requires
            self@.seams.len() == N_SEAMS,
            index < N_SEAMS,
        ensures
            r == is_ssw_active_spec(self@.seams, self@.v, ssw@, index as int),
    {
        let rot_v: Quat = Quat::from_rotation_arc(&Vec3::new(0, -SCALE, 0), &self.v.normalize());
        let rot_spin: Quat = Quat::from_rotation_x(fx_mul(ssw.seam_shift_factor, T_STEP));
        let p_adj: Vec3 = rot_v.inverse().mul_vec3(&rot_spin.inverse().mul_vec3(&self.seams[index]));
        let inside: bool = p_adj.x < ssw.activation_max.x && p_adj.x > ssw.activation_min.x
            && p_adj.y < ssw.activation_max.y && p_adj.y > ssw.activation_min.y
            && p_adj.z < ssw.activation_max.z && p_adj.z > ssw.activation_min.z;
        inside && self.outside_separated_flow(ssw, index)
    }

    /// The indices of the seam points that currently produce seam-shifted-wake
    /// force: those inside the activation box of the velocity-aligned frame
    /// that are not excluded by the separated-flow rule.
    pub fn find_ssw_seams(&self, ssw: &SeamShiftedWake) -> (r: Vec<usize>)
        requires
            self@.seams.len() == N_SEAMS,
        ensures
            to_int_seq(r@) == active_seams_spec(self@.seams, self@.v, ssw@),
            forall|k: int| 0 <= k < r@.len() ==> (r@[k] as int) < N_SEAMS,
    {
        let mut out: Vec<usize> = Vec::new();
        let mut i: usize = 0;
        while i < N_SEAMS
            invariant
                i <= N_SEAMS,
                self@.seams.len() == N_SEAMS,
                to_int_seq(out@) == active_upto_spec(self@.seams, self@.v, ssw@, i as nat),
                forall|k: int| 0 <= k < out@.len() ==> (out@[k] as int) < N_SEAMS,
            decreases N_SEAMS - i,
        {
            if self.seam_active(ssw, i) {
                let ghost prev_out: Seq<usize> = out@;
                out.push(i);
                proof {
                    assert(to_int_seq(out@) =~= to_int_seq(prev_out).push(i as int));
                }
            }
            i = i + 1;
        }
        out
    }

    /// The force-model acceleration for one Runge-Kutta stage; a pure function
    /// of its arguments, exactly `derivs_spec`.
    pub fn derivs(
        config: &BaseballPluginConfig,
        v: &Vec3,
        spin: &Vec3,
        seams: &Vec<Vec3>,
        time_elapsed: i64,
        active_seams: &Vec<usize>,
    ) -> (r: Vec3)
        requires
            time_elapsed >= 0,
            forall|k: int|
                0 <= k < active_seams@.len() ==> (active_seams@[k] as int) < seams@.len(),
        ensures
            r@ == derivs_spec(
                config@,
                v@,
                spin@,
                seams_view(seams@),
                time_elapsed as int,
                to_int_seq(active_seams@),
            ),
    {
        let v_tot: i64 = v.length();
        let spin_rate: i64 = spin.length();
        let rw: i64 = fx_mul(BALL_RADIUS_FT, spin_rate);
        proof {
            lemma_fx_div_nonneg(time_elapsed as int, SPIN_DECAY as int);
        }
        let decay: i64 = fx_exp_neg(fx_div(time_elapsed, SPIN_DECAY));
        let s: i64 = fx_mul(fx_div(rw, v_tot), decay);
        let cl: i64 = fx_div(SCALE, fx_add(CL_DENOM_CONST, fx_div(CL_SPIN_COEF, s)));
        let a_drag: Vec3 = if config.drag_on {
            v.scale(fx_neg(C_0)).scale(CD_CONST).scale(v_tot)
        } else {
            Vec3::zero()
        };
        let a_spin: Vec3 = if config.magnus_on {
            spin.cross(v).scale(C_0).scale(fx_div(cl, spin_rate)).scale(v_tot)
        } else {
            Vec3::zero()
        };
        let a_ssw: Vec3 = if config.ssw_on {
            let mut acc: Vec3 = Vec3::zero();
            let mut k: usize = 0;
            while k < active_seams.len()
                invariant
                    k <= active_seams@.len(),
                    forall|j: int|
                        0 <= j < active_seams@.len() ==> (active_seams@[j] as int) < seams@.len(),
                    acc@ == seam_sum_spec(
                        seams_view(seams@),
                        to_int_seq(active_seams@).take(k as int),
                    ),
                decreases active_seams@.len() - k,
            {
                let idx: usize = active_seams[k];
                acc = acc.add(&seams[idx]);
                proof {
                    let a: Seq<int> = to_int_seq(active_seams@);
                    assert(a.take(k + 1).drop_last() =~= a.take(k as int));
                }
                k = k + 1;
            }
            proof {
                let a: Seq<int> = to_int_seq(active_seams@);
                assert(a.take(active_seams@.len() as int) =~= a);
            }
            acc.scale(fx_neg(C_0)).scale(C_SEAMS).scale(fx_mul(v_tot, v_tot))
        } else {
            Vec3::zero()
        };
        a_drag.add(&a_spin).add(&a_ssw)
    }
}

/// One Runge-Kutta slope: four force evaluations at t, t + h/2, t + h/2 and
/// t + h, combined as (a1 + 2 (a2 + a3) + a4) / 6. Seam geometry and the
/// active-seam set are held fixed across the four stages.
pub open spec fn rk4_spec(
    cfg: ConfigV,
    v: V3,
    spin: V3,
    seams: Seq<V3>,
    t: int,
    active: Seq<int>,
    h: int,
) -> V3 {
    let half_h: int = fx_mul_spec(h, INV2_FX as int);
    let a1: V3 = derivs_spec(cfg, v, spin, seams, t, active);
    let vs2: V3 = v3_add_spec(v, v3_scale_spec(v3_scale_spec(a1, h), INV2_FX as int));
    let t2: int = fx_add_spec(t, half_h);
    let a2: V3 = derivs_spec(cfg, vs2, spin, seams, t2, active);
    let vs3: V3 = v3_add_spec(vs2, v3_scale_spec(v3_scale_spec(a2, h), INV2_FX as int));
    let t3: int = fx_add_spec(t2, half_h);
    let a3: V3 = derivs_spec(cfg, vs3, spin, seams, t3, active);
    let vs4: V3 = v3_add_spec(vs3, v3_scale_spec(a3, h));
    let t4: int = fx_add_spec(t3, h);
    let a4: V3 = derivs_spec(cfg, vs4, spin, seams, t4, active);
    let dbl: V3 = v3_add_spec(a2, a3);
    v3_divs_spec(
        v3_add_spec(v3_add_spec(a1, v3_add_spec(dbl, dbl)), a4),
        SIX_FX as int,
    )
}

/// One whole sub-step of size `h`: rotate the seams rigidly about the spin
/// axis by |spin| * h, detect the active seams, take one Runge-Kutta slope,
/// add gravity on the vertical axis, and advance velocity, position and the
/// activation clock.
pub open spec fn substep_spec(s: StateV, cfg: ConfigV, h: int) -> StateV {
    let axis: V3 = v3_normalize_spec(s.spin);
    let angle: int = fx_mul_spec(v3_len_spec(s.spin), h);
    let q: crate::quat::Q4 = quat_from_axis_angle_spec(axis, angle);
    let seams2: Seq<V3> = Seq::new(s.seams.len(), |i: int| quat_mul_vec3_spec(q, s.seams[i]));
    let active: Seq<int> = active_seams_spec(seams2, s.v, cfg.ssw);
    let a: V3 = rk4_spec(cfg, s.v, s.spin, seams2, s.time_elapsed, active, h);
    let dv: V3 = v3_scale_spec(
        V3 { x: a.x, y: a.y, z: fx_sub_spec(a.z, GRAVITY as int) },
        h,
    );
    let v2: V3 = v3_add_spec(s.v, dv);
    StateV {
        translation: v3_add_spec(s.translation, v3_scale_spec(v2, h)),
        v: v2,
        spin: s.spin,
        seams: seams2,
        time_elapsed: fx_add_spec(s.time_elapsed, h),
        active: s.active,
    }
}

/// `n` sub-steps of size `h` in order.
pub open spec fn update_n_spec(s: StateV, cfg: ConfigV, h: int, n: nat) -> StateV
    decreases n,
{
    if n == 0 {
        s
    } else {
        substep_spec(update_n_spec(s, cfg, h, (n - 1) as nat), cfg, h)
    }
}

/// How many whole millisecond sub-steps fit in a raw duration: the fraction
/// below one millisecond is dropped, and a nonpositive duration runs none.
pub open spec fn iterations_spec(delta_t: int) -> nat {
    if delta_t <= 0 {
        0
    } else {
        (delta_t / (T_STEP as int)) as nat
    }
}

/// A sub-step keeps the shape of the state: the seam count, the activity
/// flag and the spin are untouched, and the activation clock never moves
/// backwards.
#[verifier::rlimit(50)]
pub proof fn lemma_substep_preserves_shape(s: StateV, cfg: ConfigV, h: int)
    requires
        0 <= s.time_elapsed <= i64::MAX as int,
        h >= 0,
    ensures
        substep_spec(s, cfg, h).seams.len() == s.seams.len(),
        substep_spec(s, cfg, h).time_elapsed >= s.time_elapsed,
        0 <= substep_spec(s, cfg, h).time_elapsed <= i64::MAX as int,
        substep_spec(s, cfg, h).active == s.active,
        substep_spec(s, cfg, h).spin == s.spin,
{
}

impl BaseballFlightState {
    /// One Runge-Kutta slope over the current state; exactly `rk4_spec`.
    pub fn rk4(&self, config: &BaseballPluginConfig, active_seams: &Vec<usize>, h: i64) -> (r:
        Vec3)
        requires
            self@.time_elapsed >= 0,
            h >= 0,
            forall|k: int|
                0 <= k < active_seams@.len() ==> (active_seams@[k] as int) < self@.seams.len(),
        ensures
            r@ == rk4_spec(
                config@,
                self@.v,
                self@.spin,
                self@.seams,
                self@.time_elapsed,
                to_int_seq(active_seams@),
                h as int,
            ),
    {
        proof {
            lemma_fx_mul_nonneg(h as int, INV2_FX as int);
        }
        let half_h: i64 = fx_mul(h, INV2_FX);
        let t1: i64 = self.time_elapsed;
        let a1: Vec3 = Self::derivs(config, &self.v, &self.spin, &self.seams, t1, active_seams);
        let vs2: Vec3 = self.v.add(&a1.scale(h).scale(INV2_FX));
        let t2: i64 = fx_add(t1, half_h);
        let a2: Vec3 = Self::derivs(config, &vs2, &self.spin, &self.seams, t2, active_seams);
        let vs3: Vec3 = vs2.add(&a2.scale(h).scale(INV2_FX));
        let t3: i64 = fx_add(t2, half_h);
        let a3: Vec3 = Self::derivs(config, &vs3, &self.spin, &self.seams, t3, active_seams);
        let vs4: Vec3 = vs3.add(&a3.scale(h));
        let t4: i64 = fx_add(t3, h);
        let a4: Vec3 = Self::derivs(config, &vs4, &self.spin, &self.seams, t4, active_seams);
        let dbl: Vec3 = a2.add(&a3);
        a1.add(&dbl.add(&dbl)).add(&a4).divs(SIX_FX)
    }

    /// Advances the state by one sub-step of size `h`; exactly `substep_spec`.
    pub fn step_once(&mut self, config: &BaseballPluginConfig, h: i64)
        requires
            old(self)@.seams.len() == N_SEAMS,
            old(self)@.time_elapsed >= 0,
            h >= 0,
        ensures
            final(self)@ == substep_spec(old(self)@, config@, h as int),
            final(self)@.seams.len() == N_SEAMS,
            final(self)@.time_elapsed >= 0,
    {
        let axis: Vec3 = self.spin.normalize();
        let angle: i64 = fx_mul(self.spin.length(), h);
        let q: Quat = Quat::from_axis_angle(&axis, angle);
        let ghost old_seams: Seq<V3> = self@.seams;
        let ghost qg: crate::quat::Q4 = q@;
        let mut rotated: Vec<Vec3> = Vec::new();
        let mut i: usize = 0;
        while i < N_SEAMS
            invariant
                i <= N_SEAMS,
                self@.seams == old_seams,
                self@.seams.len() == N_SEAMS,
                qg == q@,
                rotated@.len() == i,
                forall|j: int|
                    0 <= j < i ==> rotated@[j]@ == quat_mul_vec3_spec(qg, old_seams[j]),
            decreases N_SEAMS - i,
        {
            rotated.push(q.mul_vec3(&self.seams[i]));
            i = i + 1;
        }
        self.seams = rotated;
        proof {
            assert(self@.seams =~= Seq::new(
                old_seams.len(),
                |j: int| quat_mul_vec3_spec(qg, old_seams[j]),
            ));
        }
        let active: Vec<usize> = self.find_ssw_seams(&config.ssw);
        let a: Vec3 = self.rk4(config, &active, h);
        self.time_elapsed = fx_add(self.time_elapsed, h);
        let dv: Vec3 = Vec3::new(a.x, a.y, fx_sub(a.z, GRAVITY)).scale(h);
        self.v = self.v.add(&dv);
        self.translation = self.translation.add(&self.v.scale(h));
    }

    /// Advances the state over `delta_t` raw seconds by whole millisecond
    /// sub-steps; the caller reads the updated fields directly. The fraction
    /// of `delta_t` below one millisecond is dropped, not carried forward.
    pub fn update_state(&mut self, config: &BaseballPluginConfig, delta_t: i64)
        requires
            old(self)@.active,
            state_wf(old(self)@),
        ensures
            final(self)@ == update_n_spec(
                old(self)@,
                config@,
                T_STEP as int,
                iterations_spec(delta_t as int),
            ),
            state_wf(final(self)@),
            final(self)@.active,
    {
        let iterations: u64 = if delta_t <= 0 {
            0
        } else {
            (delta_t as u64) / (T_STEP as u64)
        };
        let mut k: u64 = 0;
        while k < iterations
            invariant
                k <= iterations,
                iterations == iterations_spec(delta_t as int),
                self@ == update_n_spec(old(self)@, config@, T_STEP as int, k as nat),
                self@.seams.len() == N_SEAMS,
                self@.time_elapsed >= 0,
                self@.active,
            decreases iterations - k,
        {
            let ghost before: StateV = self@;
            self.step_once(config, T_STEP);
            proof {
                lemma_substep_preserves_shape(before, config@, T_STEP as int);
            }
            k = k + 1;
        }
    }

    /// Advances the state from a caller-supplied position and returns the
    /// average velocity over the call, (new position - old position) / delta_t.
    pub fn update_state_and_get_velo(
        &mut self,
        config: &BaseballPluginConfig,
        translation: Vec3,
        delta_t: i64,
    ) -> (r: Vec3)
        requires
            old(self)@.active,
            state_wf(old(self)@),
        ensures
            final(self)@ == update_n_spec(
                (StateV { translation: translation@, ..old(self)@ }),
                config@,
                T_STEP as int,
                iterations_spec(delta_t as int),
            ),
            r@ == v3_divs_spec(
                v3_sub_spec(final(self)@.translation, translation@),
                delta_t as int,
            ),
            state_wf(final(self)@),
    {
        self.translation = translation;
        self.update_state(config, delta_t);
        self.translation.sub(&translation).divs(delta_t)
    }

    /// Advances the state from a caller-supplied position and velocity and
    /// returns the acceleration that explains the change of squared velocity
    /// over the distance travelled, componentwise:
    /// (v_new^2 - v_old^2) / (2 * distance).
    pub fn update_state_and_get_acceleration(
        &mut self,
        config: &BaseballPluginConfig,
        translation: Vec3,
        velocity: Vec3,
        delta_t: i64,
    ) -> (r: Vec3)
        requires
            old(self)@.active,
            state_wf(old(self)@),
        ensures
            final(self)@ == update_n_spec(
                (StateV { translation: translation@, v: velocity@, ..old(self)@ }),
                config@,
                T_STEP as int,
                iterations_spec(delta_t as int),
            ),
            r@ == v3_div_comp_spec(
                v3_sub_spec(
                    v3_mul_comp_spec(final(self)@.v, final(self)@.v),
                    v3_mul_comp_spec(velocity@, velocity@),
                ),
                v3_add_spec(
                    v3_sub_spec(final(self)@.translation, translation@),
                    v3_sub_spec(final(self)@.translation, translation@),
                ),
            ),
            state_wf(final(self)@),
    {
        self.translation = translation;
        self.v = velocity;
        self.update_state(config, delta_t);
        let distance: Vec3 = self.translation.sub(&translation);
        let num: Vec3 = self.v.mul_comp(&self.v).sub(&velocity.mul_comp(&velocity));
        num.div_comp(&distance.add(&distance))
    }
}

} // verus!
