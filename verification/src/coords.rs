//! Coordinate mapping: clamp a raw axis value to the calibration ceiling,
//! apply the optional linear remap (rounded to the nearest integer), and,
//! for the Y axis, invert the result to correct the sensor's native
//! direction.

use vstd::prelude::*;

use crate::config::{remap_wf, AxisRemap};
use vstd::arithmetic::div_mod::{
    lemma_div_is_ordered, lemma_div_multiples_vanish_fancy, lemma_div_pos_is_pos,
};
use vstd::arithmetic::mul::{lemma_mul_inequality, lemma_mul_is_distributive_add};

verus! {

/// A raw axis value clamped to the calibration ceiling.
pub open spec fn clamped(raw: u16, max: u16) -> int {
    if raw > max {
        max as int
    } else {
        raw as int
    }
}

/// The ratio-pair remap of an already-clamped value `v`:
/// `max * min_ratio + v * (max_ratio - min_ratio)`, rounded to the nearest
/// integer, with the ratios expressed as fractions over `r.den`.
pub open spec fn remapped(max: u16, r: AxisRemap, v: int) -> int {
    (max * r.min_num + v * (r.max_num - r.min_num) + r.den / 2) / (r.den as int)
}

/// The full mapping of a raw axis value: clamp, then remap if a ratio pair
/// is configured.
pub open spec fn map_coord(max: u16, remap: Option<AxisRemap>, raw: u16) -> int {
    match remap {
        Some(r) => remapped(max, r, clamped(raw, max)),
        None => clamped(raw, max),
    }
}

/// The Y axis is additionally inverted after the remap.
pub open spec fn map_y_coord(max: u16, remap: Option<AxisRemap>, raw: u16) -> int {
    max - map_coord(max, remap, raw)
}

/// A valid remap of a value within `[0, max]` lands within `[0, max]`.
pub proof fn lemma_remapped_le_max(max: u16, r: AxisRemap, v: int)
    requires
        remap_wf(r),
        0 <= v <= max,
    ensures
        0 <= remapped(max, r, v) <= max,
{
    let m = max as int;
    let mn = r.min_num as int;
    let mx = r.max_num as int;
    let d = r.den as int;
    let num = m * mn + v * (mx - mn) + d / 2;
    assert(v * (mx - mn) >= 0) by (nonlinear_arith)
        requires
            v >= 0,
            mx >= mn,
    ;
    assert(m * mn >= 0) by (nonlinear_arith)
        requires
            m >= 0,
            mn >= 0,
    ;
    lemma_div_pos_is_pos(num, d);
    lemma_mul_inequality(v, m, mx - mn);
    assert(m * mn + m * (mx - mn) == m * mx) by {
        lemma_mul_is_distributive_add(m, mn, mx - mn);
    }
    lemma_mul_inequality(mx, d, m);
    assert(m * mx == mx * m && m * d == d * m) by (nonlinear_arith);
    assert(num <= d * m + d / 2);
    lemma_div_is_ordered(num, d * m + d / 2, d);
    lemma_div_multiples_vanish_fancy(m, d / 2, d);
}

/// The full mapping keeps every output within `[0, max]`.
pub proof fn lemma_map_coord_le_max(max: u16, remap: Option<AxisRemap>, raw: u16)
    requires
        remap matches Some(r) ==> remap_wf(r),
    ensures
        0 <= map_coord(max, remap, raw) <= max,
{
    match remap {
        Some(r) => lemma_remapped_le_max(max, r, clamped(raw, max)),
        None => {},
    }
}

/// For a fixed ceiling and ratio pair, the mapped output is a monotonically
/// non-decreasing function of the raw input, and never exceeds the ceiling.
pub proof fn lemma_map_coord_monotonic(max: u16, remap: Option<AxisRemap>, a: u16, b: u16)
    requires
        remap matches Some(r) ==> remap_wf(r),
        a <= b,
    ensures
        map_coord(max, remap, a) <= map_coord(max, remap, b),
        map_coord(max, remap, b) <= max,
{
    lemma_map_coord_le_max(max, remap, b);
    let va = clamped(a, max);
    let vb = clamped(b, max);
    match remap {
        Some(r) => {
            let m = max as int;
            let mn = r.min_num as int;
            let mx = r.max_num as int;
            let d = r.den as int;
            lemma_mul_inequality(va, vb, mx - mn);
            lemma_div_is_ordered(
                m * mn + va * (mx - mn) + d / 2,
                m * mn + vb * (mx - mn) + d / 2,
                d,
            );
        }
        None => {},
    }
}

/// Map one axis value: clamp to the ceiling, then apply the optional remap.
pub fn map_axis_value(raw: u16, max: u16, remap: &Option<AxisRemap>) -> (r: u16)
    requires
        *remap matches Some(rm) ==> remap_wf(rm),
    ensures
        r as int == map_coord(max, *remap, raw),
        r <= max,
{
    let v: u16 = if raw > max {
        max
    } else {
        raw
    };
    match remap {
        Some(rm) => {
            let span: u16 = rm.max_num - rm.min_num;
            proof {
                assert((max as int) * (rm.min_num as int) <= 0xffff * 0xffff) by (nonlinear_arith)
                    requires
                        max <= 0xffff,
                        rm.min_num <= 0xffff,
                ;
                assert((max as int) * (rm.min_num as int) >= 0) by (nonlinear_arith)
                    requires
                        max >= 0,
                        rm.min_num >= 0,
                ;
                assert((v as int) * (span as int) <= 0xffff * 0xffff) by (nonlinear_arith)
                    requires
                        v <= 0xffff,
                        span <= 0xffff,
                ;
                assert((v as int) * (span as int) >= 0) by (nonlinear_arith)
                    requires
                        v >= 0,
                        span >= 0,
                ;
            }
            let num: u64 = (max as u64) * (rm.min_num as u64) + (v as u64) * (span as u64)
                + ((rm.den / 2) as u64);
            let q: u64 = num / (rm.den as u64);
            proof {
                lemma_remapped_le_max(max, *rm, v as int);
            }
            q as u16
        }
        None => v,
    }
}

/// Map the Y axis value: clamp, remap, then invert against the ceiling.
pub fn map_y_axis_value(raw: u16, max: u16, remap: &Option<AxisRemap>) -> (r: u16)
    requires
        *remap matches Some(rm) ==> remap_wf(rm),
    ensures
        r as int == map_y_coord(max, *remap, raw),
        r <= max,
{
    let mapped = map_axis_value(raw, max, remap);
    max - mapped
}

} // verus!
