//! Laws of the flight model that hold beyond any single call: proved here
//! once and for all from the specification functions the contracts use.

use vstd::prelude::*;
use crate::ball_flight_state::active_seams_spec;
use crate::ball_flight_state::active_upto_spec;
use crate::ball_flight_state::derivs_spec;
use crate::ball_flight_state::is_ssw_active_spec;
use crate::ball_flight_state::rk4_spec;
use crate::ball_flight_state::substep_spec;
use crate::ball_flight_state::update_n_spec;
use crate::common::GRAVITY;
use crate::common::N_SEAMS;
use crate::config::ConfigV;
use crate::config::SswV;
use crate::fx::fx_sub_spec;
use crate::vec3::V3;
use crate::vec3::v3_add_spec;
use crate::vec3::v3_scale_spec;
use crate::vec3::v3_zero;

verus! {

/// With every force toggle off, the force model contributes exactly the zero
/// acceleration, whatever the state: gravity alone moves the ball.
pub proof fn lemma_forces_off_zero_acceleration(
    cfg: ConfigV,
    v: V3,
    spin: V3,
    seams: Seq<V3>,
    t: int,
    active: Seq<int>,
)
    requires
        !cfg.drag_on,
        !cfg.magnus_on,
        !cfg.ssw_on,
    ensures
        derivs_spec(cfg, v, spin, seams, t, active) == v3_zero(),
{
}

/// An index is in the prefix-activation sequence exactly when it is below the
/// prefix bound and passes the per-index activation test.
pub proof fn lemma_active_upto_membership(seams: Seq<V3>, v: V3, ssw: SswV, k: nat, i: int)
    ensures
        active_upto_spec(seams, v, ssw, k).contains(i) <==> (0 <= i < k && is_ssw_active_spec(
            seams,
            v,
            ssw,
            i,
        )),
    decreases k,
{
    if k > 0 {
        lemma_active_upto_membership(seams, v, ssw, (k - 1) as nat, i);
        let rest: Seq<int> = active_upto_spec(seams, v, ssw, (k - 1) as nat);
        if is_ssw_active_spec(seams, v, ssw, k - 1) {
            let s: Seq<int> = rest.push(k - 1);
            if rest.contains(i) {
                let idx: int = choose|idx: int| 0 <= idx < rest.len() && rest[idx] == i;
                assert(s[idx] == i);
            }
            if i == k - 1 {
                assert(s[s.len() - 1] == i);
            }
            if s.contains(i) {
                let idx: int = choose|idx: int| 0 <= idx < s.len() && s[idx] == i;
                if idx < rest.len() {
                    assert(rest[idx] == i);
                }
            }
        }
    }
}

/// Membership in the active-seam set depends on the index alone.
pub proof fn lemma_active_seams_membership(seams: Seq<V3>, v: V3, ssw: SswV, i: int)
    ensures
        active_seams_spec(seams, v, ssw).contains(i) <==> (0 <= i < N_SEAMS
            && is_ssw_active_spec(seams, v, ssw, i)),
{
    lemma_active_upto_membership(seams, v, ssw, N_SEAMS as nat, i);
}

/// The active-seam sequence is strictly increasing and stays below the prefix
/// bound, so as a sequence it is determined by its set of indices alone.
pub proof fn lemma_active_upto_sorted(seams: Seq<V3>, v: V3, ssw: SswV, k: nat)
    ensures
        forall|j: int|
            0 <= j < active_upto_spec(seams, v, ssw, k).len() ==> #[trigger] active_upto_spec(
                seams,
                v,
                ssw,
                k,
            )[j] < k,
        forall|j1: int, j2: int|
            0 <= j1 < j2 < active_upto_spec(seams, v, ssw, k).len() ==> active_upto_spec(
                seams,
                v,
                ssw,
                k,
            )[j1] < active_upto_spec(seams, v, ssw, k)[j2],
    decreases k,
{
    if k > 0 {
        lemma_active_upto_sorted(seams, v, ssw, (k - 1) as nat);
        let rest: Seq<int> = active_upto_spec(seams, v, ssw, (k - 1) as nat);
        let cur: Seq<int> = active_upto_spec(seams, v, ssw, k);
        if is_ssw_active_spec(seams, v, ssw, k - 1) {
            assert(forall|j: int| 0 <= j < rest.len() ==> cur[j] == rest[j]);
            assert(cur[cur.len() - 1] == k - 1);
        }
    }
}

/// The activation detector is order-independent: any two enumerations of the
/// per-index activation test, whatever order each visits the seam indices in,
/// carry the same set of indices.
pub proof fn lemma_ssw_order_independent(
    a: Seq<int>,
    b: Seq<int>,
    seams: Seq<V3>,
    v: V3,
    ssw: SswV,
)
    requires
        forall|i: int|
            a.contains(i) <==> (0 <= i < N_SEAMS && is_ssw_active_spec(seams, v, ssw, i)),
        forall|i: int|
            b.contains(i) <==> (0 <= i < N_SEAMS && is_ssw_active_spec(seams, v, ssw, i)),
    ensures
        a.to_set() == b.to_set(),
{
    assert(a.to_set() =~= b.to_set());
}

/// While a ball is advanced, its activation clock never moves backwards, and
/// the activity flag and spin are untouched: only deactivation resets the
/// clock.
pub proof fn lemma_update_clock_monotonic(
    s: crate::ball_flight_state::StateV,
    cfg: ConfigV,
    h: int,
    n: nat,
)
    requires
        0 <= s.time_elapsed <= i64::MAX as int,
        h >= 0,
    ensures
        update_n_spec(s, cfg, h, n).time_elapsed >= s.time_elapsed,
        0 <= update_n_spec(s, cfg, h, n).time_elapsed <= i64::MAX as int,
        update_n_spec(s, cfg, h, n).active == s.active,
        update_n_spec(s, cfg, h, n).spin == s.spin,
    decreases n,
{
    if n > 0 {
        lemma_update_clock_monotonic(s, cfg, h, (n - 1) as nat);
        crate::ball_flight_state::lemma_substep_preserves_shape(
            update_n_spec(s, cfg, h, (n - 1) as nat),
            cfg,
            h,
        );
    }
}

/// With every force toggle off, one sub-step is plain discrete projectile
/// motion: the velocity changes by gravity alone and the position advances by
/// the new velocity, both over the sub-step h.
pub proof fn lemma_substep_pure_gravity(s: crate::ball_flight_state::StateV, cfg: ConfigV, h: int)
    requires
        !cfg.drag_on,
        !cfg.magnus_on,
        !cfg.ssw_on,
    ensures
        ({
            let dv: V3 = v3_scale_spec(
                (V3 { x: 0, y: 0, z: fx_sub_spec(0, GRAVITY as int) }),
                h,
            );
            let v2: V3 = v3_add_spec(s.v, dv);
            substep_spec(s, cfg, h).v == v2 && substep_spec(s, cfg, h).translation == v3_add_spec(
                s.translation,
                v3_scale_spec(v2, h),
            )
        }),
{
    let seams2: Seq<V3> = substep_spec(s, cfg, h).seams;
    let active: Seq<int> = active_seams_spec(seams2, s.v, cfg.ssw);
    lemma_forces_off_zero_acceleration(cfg, s.v, s.spin, seams2, s.time_elapsed, active);
    let a1: V3 = derivs_spec(cfg, s.v, s.spin, seams2, s.time_elapsed, active);
    assert(a1 == v3_zero());
    let slope: V3 = rk4_spec(cfg, s.v, s.spin, seams2, s.time_elapsed, active, h);
    assert forall|w: V3, t: int|
        derivs_spec(cfg, w, s.spin, seams2, t, active) == v3_zero() by {
        lemma_forces_off_zero_acceleration(cfg, w, s.spin, seams2, t, active);
    }
    assert(slope == v3_zero());
}

} // verus!
