//! Caller-supplied configuration: the three force toggles and the
//! seam-shifted-wake sub-parameters. Supplied once per run, never mutated
//! mid-flight.

use vstd::prelude::*;
use crate::vec3::V3;
use crate::vec3::Vec3;

verus! {

/// Mathematical view of the SSW parameters.
pub ghost struct SswV {
    pub seam_shift_factor: int,
    pub activation_min: V3,
    pub activation_max: V3,
    pub separated_flow_range: int,
}

/// Parameters of the seam-shifted-wake activation test: a phase-lag factor, a
/// bounding box in the velocity-aligned frame, and the angular threshold (raw
/// radians) telling attached flow from separated flow.
#[derive(Clone, Copy, Debug)]
pub struct SeamShiftedWake {
    pub seam_shift_factor: i64,
    pub activation_min: Vec3,
    pub activation_max: Vec3,
    pub separated_flow_range: i64,
}

impl View for SeamShiftedWake {
    type V = SswV;

    open spec fn view(&self) -> SswV {
        SswV {
            seam_shift_factor: self.seam_shift_factor as int,
            activation_min: self.activation_min@,
            activation_max: self.activation_max@,
            separated_flow_range: self.separated_flow_range as int,
        }
    }
}

impl SeamShiftedWake {
    /// The activation-region box as a (max, min) pair of corners.
    pub fn get_activation_region(&self) -> (r: (Vec3, Vec3))
        ensures
            r.0@ == self@.activation_max,
            r.1@ == self@.activation_min,
    {
        (self.activation_max, self.activation_min)
    }
}

/// Mathematical view of the whole configuration.
pub ghost struct ConfigV {
    pub drag_on: bool,
    pub magnus_on: bool,
    pub ssw_on: bool,
    pub ssw: SswV,
}

/// The force toggles and the SSW parameters, immutable for a run.
#[derive(Clone, Copy, Debug)]
pub struct BaseballPluginConfig {
    pub drag_on: bool,
    pub magnus_on: bool,
    pub ssw_on: bool,
    pub ssw: SeamShiftedWake,
}

impl View for BaseballPluginConfig {
    type V = ConfigV;

    open spec fn view(&self) -> ConfigV {
        ConfigV {
            drag_on: self.drag_on,
            magnus_on: self.magnus_on,
            ssw_on: self.ssw_on,
            ssw: self.ssw@,
        }
    }
}

} // verus!
