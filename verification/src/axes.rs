//! Virtual-device capability synthesis: the digitizer's absolute-axis
//! descriptors are cloned from the hardware's existing raw input node,
//! with the X and Y ranges swapped (the physical sensor is mounted rotated
//! relative to the desired on-screen orientation) and the calibration
//! ceilings reconciled with the live configuration.

use vstd::prelude::*;

use crate::config::Config;

verus! {

/// One absolute-axis descriptor, as read from the raw device. The
/// "current value", fuzz and flat fields are always zeroed when cloning,
/// so only these three are carried.
#[derive(Clone, Copy, Debug, PartialEq, Eq, Structural)]
pub struct AbsAxisInfo {
    pub minimum: i32,
    pub maximum: i32,
    pub resolution: i32,
}

/// The five absolute-axis descriptors to enable on the virtual digitizer.
#[derive(Clone, Copy, Debug, PartialEq, Eq, Structural)]
pub struct DigitizerAxisPlan {
    pub x: AbsAxisInfo,
    pub y: AbsAxisInfo,
    pub pressure: AbsAxisInfo,
    pub tilt_x: AbsAxisInfo,
    pub tilt_y: AbsAxisInfo,
}

/// Plan the virtual digitizer's axes from the physical descriptors.
///
/// The virtual X axis is cloned from the physical Y descriptor and vice
/// versa. For each position axis, an unset (zero) calibration ceiling in
/// the live configuration is populated from the cloned descriptor's
/// maximum (first-run calibration capture); otherwise the descriptor's
/// maximum is overridden with the configured ceiling. Pressure and tilt
/// descriptors are carried over unchanged.
pub fn plan_digitizer_axes(
    conf: &mut Config,
    phys_x: AbsAxisInfo,
    phys_y: AbsAxisInfo,
    pressure: AbsAxisInfo,
    tilt_x: AbsAxisInfo,
    tilt_y: AbsAxisInfo,
) -> (plan: DigitizerAxisPlan)
    requires
        old(conf)@.wf(),
        0 <= phys_x.maximum <= u16::MAX,
        0 <= phys_y.maximum <= u16::MAX,
    ensures
        final(conf)@.y_max_value as int == if old(conf)@.y_max_value > 0 {
            old(conf)@.y_max_value as int
        } else {
            phys_x.maximum as int
        },
        final(conf)@.x_max_value as int == if old(conf)@.x_max_value > 0 {
            old(conf)@.x_max_value as int
        } else {
            phys_y.maximum as int
        },
        final(conf)@.x_map == old(conf)@.x_map,
        final(conf)@.y_map == old(conf)@.y_map,
        final(conf)@.keymaps == old(conf)@.keymaps,
        final(conf)@.wf(),
        plan.x == (AbsAxisInfo { maximum: final(conf)@.x_max_value as i32, ..phys_y }),
        plan.y == (AbsAxisInfo { maximum: final(conf)@.y_max_value as i32, ..phys_x }),
        plan.pressure == pressure,
        plan.tilt_x == tilt_x,
        plan.tilt_y == tilt_y,
{
    let mut ax = phys_x;
    if conf.y_max_value > 0 {
        ax.maximum = conf.y_max_value as i32;
    } else {
        conf.y_max_value = ax.maximum as u16;
    }
    let mut ay = phys_y;
    if conf.x_max_value > 0 {
        ay.maximum = conf.x_max_value as i32;
    } else {
        conf.x_max_value = ay.maximum as u16;
    }
    DigitizerAxisPlan { x: ay, y: ax, pressure, tilt_x, tilt_y }
}

} // verus!
