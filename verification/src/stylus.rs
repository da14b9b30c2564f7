//! The stylus state machine: it tracks the last-emitted digitizer sub-state
//! and, for each decoded report, emits only the fields that changed, with
//! special-cased hover enter/leave and touch down/up transitions.

use vstd::prelude::*;

use crate::config::{Config, ConfigV};
use crate::coords::{lemma_map_coord_le_max, map_coord, map_y_coord};
use crate::coords::{map_axis_value, map_y_axis_value};
use crate::events::DigitizerEvent;
use vstd::seq_lib::lemma_concat_associative;

verus! {

/// The last-reported digitizer sub-state, used purely for change detection.
#[derive(Clone, Copy, Debug, PartialEq, Eq, Structural)]
pub struct StylusState {
    pub in_area: bool,
    pub tip_pressed: bool,
    pub pressure: u16,
    pub button0_pressed: bool,
    pub button1_pressed: bool,
    pub x: u16,
    pub y: u16,
    pub tilt_x: i8,
    pub tilt_y: i8,
}

/// One decoded digitizer report, in logical orientation (X and Y already
/// swapped from their wire order).
#[derive(Clone, Copy, Debug, PartialEq, Eq, Structural)]
pub struct DigitizerReport {
    pub in_area: bool,
    pub touching: bool,
    pub button0: bool,
    pub button1: bool,
    pub x: u16,
    pub y: u16,
    pub pressure: u16,
    pub tilt_x: i8,
    pub tilt_y: i8,
}

/// A 16-bit value from two little-endian bytes.
pub open spec fn le16(lo: u8, hi: u8) -> u16 {
    (lo + hi * 256) as u16
}

/// A signed tilt value from its raw two's-complement byte.
pub open spec fn signed_tilt(b: u8) -> i8 {
    if b < 128 {
        b as i8
    } else {
        ((b as i16) - 256) as i8
    }
}

/// Decode a digitizer report from a raw buffer (usage byte already
/// stripped). The high nibble of byte 0 must name a known area state
/// (`0xA0` in range, `0xC0` out of range); otherwise the report is
/// unrecognized and dropped. Bytes 1-4 carry Y then X (the wire order is
/// swapped from the logical orientation), bytes 5-6 the pressure, bytes
/// 7-8 the signed tilts.
pub open spec fn parse_digitizer_report(buf: Seq<u8>) -> Option<DigitizerReport> {
    let area = buf[0] & 0xf0;
    if area == 0xa0 || area == 0xc0 {
        Some(
            DigitizerReport {
                in_area: area == 0xa0,
                touching: buf[0] & 0x01 != 0,
                button0: buf[0] & 0x02 != 0,
                button1: buf[0] & 0x04 != 0,
                y: le16(buf[1], buf[2]),
                x: le16(buf[3], buf[4]),
                pressure: le16(buf[5], buf[6]),
                tilt_x: signed_tilt(buf[7]),
                tilt_y: signed_tilt(buf[8]),
            },
        )
    } else {
        None
    }
}

/// Change-suppressed X write: the candidate is the mapped raw value; if it
/// equals the snapshot and the write is not forced, nothing is emitted.
#[verifier::opaque]
pub open spec fn x_update(s: StylusState, conf: ConfigV, raw: u16, force: bool) -> (
    StylusState,
    Seq<DigitizerEvent>,
) {
    let m = map_coord(conf.x_max_value, conf.x_map, raw) as u16;
    if !force && m == s.x {
        (s, Seq::<DigitizerEvent>::empty())
    } else {
        (StylusState { x: m, ..s }, seq![DigitizerEvent::PositionX { value: m }])
    }
}

/// Change-suppressed Y write, with the Y-specific inversion applied.
#[verifier::opaque]
pub open spec fn y_update(s: StylusState, conf: ConfigV, raw: u16, force: bool) -> (
    StylusState,
    Seq<DigitizerEvent>,
) {
    let m = map_y_coord(conf.y_max_value, conf.y_map, raw) as u16;
    if !force && m == s.y {
        (s, Seq::<DigitizerEvent>::empty())
    } else {
        (StylusState { y: m, ..s }, seq![DigitizerEvent::PositionY { value: m }])
    }
}

/// Change-suppressed pressure write.
#[verifier::opaque]
pub open spec fn pressure_update(s: StylusState, p: u16, force: bool) -> (
    StylusState,
    Seq<DigitizerEvent>,
) {
    if !force && p == s.pressure {
        (s, Seq::<DigitizerEvent>::empty())
    } else {
        (StylusState { pressure: p, ..s }, seq![DigitizerEvent::Pressure { value: p }])
    }
}

/// Change-suppressed tilt-X write.
#[verifier::opaque]
pub open spec fn tilt_x_update(s: StylusState, t: i8) -> (StylusState, Seq<DigitizerEvent>) {
    if t == s.tilt_x {
        (s, Seq::<DigitizerEvent>::empty())
    } else {
        (StylusState { tilt_x: t, ..s }, seq![DigitizerEvent::TiltX { value: t }])
    }
}

/// Change-suppressed tilt-Y write.
#[verifier::opaque]
pub open spec fn tilt_y_update(s: StylusState, t: i8) -> (StylusState, Seq<DigitizerEvent>) {
    if t == s.tilt_y {
        (s, Seq::<DigitizerEvent>::empty())
    } else {
        (StylusState { tilt_y: t, ..s }, seq![DigitizerEvent::TiltY { value: t }])
    }
}

/// Change-suppressed lower side-button write.
#[verifier::opaque]
pub open spec fn button0_update(s: StylusState, pressed: bool) -> (
    StylusState,
    Seq<DigitizerEvent>,
) {
    if pressed == s.button0_pressed {
        (s, Seq::<DigitizerEvent>::empty())
    } else {
        (
            StylusState { button0_pressed: pressed, ..s },
            seq![DigitizerEvent::SideButton0 { pressed }],
        )
    }
}

/// Change-suppressed upper side-button write.
#[verifier::opaque]
pub open spec fn button1_update(s: StylusState, pressed: bool) -> (
    StylusState,
    Seq<DigitizerEvent>,
) {
    if pressed == s.button1_pressed {
        (s, Seq::<DigitizerEvent>::empty())
    } else {
        (
            StylusState { button1_pressed: pressed, ..s },
            seq![DigitizerEvent::SideButton1 { pressed }],
        )
    }
}

/// Tip-contact transition to down: emits the tip press and a forced
/// pressure of 1 so that the transition is always visible.
#[verifier::opaque]
pub open spec fn tip_press_update(s: StylusState) -> (StylusState, Seq<DigitizerEvent>) {
    if s.tip_pressed {
        (s, Seq::<DigitizerEvent>::empty())
    } else {
        (
            StylusState { tip_pressed: true, pressure: 1, ..s },
            seq![DigitizerEvent::Touch { active: true }, DigitizerEvent::Pressure { value: 1 }],
        )
    }
}

/// Tip-contact transition to up: emits the tip release and a forced
/// pressure of 0.
#[verifier::opaque]
pub open spec fn tip_release_update(s: StylusState) -> (StylusState, Seq<DigitizerEvent>) {
    if !s.tip_pressed {
        (s, Seq::<DigitizerEvent>::empty())
    } else {
        (
            StylusState { tip_pressed: false, pressure: 0, ..s },
            seq![DigitizerEvent::Touch { active: false }, DigitizerEvent::Pressure { value: 0 }],
        )
    }
}

/// The hover-enter transition: the pen entered the sensing area. Tool on,
/// X and Y force-written, one synchronization event.
pub open spec fn hover_enter_step(s: StylusState, conf: ConfigV, r: DigitizerReport) -> (
    StylusState,
    Seq<DigitizerEvent>,
) {
    let s1 = StylusState { in_area: true, ..s };
    let (s2, e2) = x_update(s1, conf, r.x, true);
    let (s3, e3) = y_update(s2, conf, r.y, true);
    (s3, seq![DigitizerEvent::ToolPen { active: true }] + e2 + e3 + seq![DigitizerEvent::SynReport])
}

/// The hover-leave transition: the pen left the sensing area. Tip release
/// if the tip was down, suppressed writes of position, tilt reset and
/// button release, tool off, one synchronization event.
pub open spec fn hover_leave_step(s: StylusState, conf: ConfigV, r: DigitizerReport) -> (
    StylusState,
    Seq<DigitizerEvent>,
) {
    let (s1, e1) = tip_release_update(s);
    let (s2, e2) = x_update(s1, conf, r.x, false);
    let (s3, e3) = y_update(s2, conf, r.y, false);
    let (s4, e4) = tilt_x_update(s3, 0);
    let (s5, e5) = tilt_y_update(s4, 0);
    let (s6, e6) = button0_update(s5, false);
    let (s7, e7) = button1_update(s6, false);
    let s8 = StylusState { in_area: false, ..s7 };
    (
        s8,
        e1 + e2 + e3 + e4 + e5 + e6 + e7
            + seq![DigitizerEvent::ToolPen { active: false }, DigitizerEvent::SynReport],
    )
}

/// A tip-contact transition while in range: tip press or release with
/// forced pressure, suppressed X and Y, one synchronization event.
pub open spec fn tip_transition_step(s: StylusState, conf: ConfigV, r: DigitizerReport) -> (
    StylusState,
    Seq<DigitizerEvent>,
) {
    let (s1, e1) = if r.touching {
        tip_press_update(s)
    } else {
        tip_release_update(s)
    };
    let (s2, e2) = x_update(s1, conf, r.x, false);
    let (s3, e3) = y_update(s2, conf, r.y, false);
    (s3, e1 + e2 + e3 + seq![DigitizerEvent::SynReport])
}

/// The steady in-range case: every field written change-suppressed, and
/// one synchronization event exactly when some field changed.
pub open spec fn steady_step(s: StylusState, conf: ConfigV, r: DigitizerReport) -> (
    StylusState,
    Seq<DigitizerEvent>,
) {
    let (s1, e1) = button0_update(s, r.button0);
    let (s2, e2) = button1_update(s1, r.button1);
    let (s3, e3) = pressure_update(s2, r.pressure, false);
    let (s4, e4) = x_update(s3, conf, r.x, false);
    let (s5, e5) = y_update(s4, conf, r.y, false);
    let (s6, e6) = tilt_x_update(s5, r.tilt_x);
    let (s7, e7) = tilt_y_update(s6, r.tilt_y);
    let evs = e1 + e2 + e3 + e4 + e5 + e6 + e7;
    if evs.len() > 0 {
        (s7, evs + seq![DigitizerEvent::SynReport])
    } else {
        (s7, evs)
    }
}

/// One full step of the stylus state machine on a decoded report: the new
/// snapshot and the exact event sequence emitted, in order. The transition
/// rules fire in priority order: hover enter, hover leave, tip down or up,
/// then the independent change-suppressed field updates.
pub open spec fn stylus_step(s: StylusState, conf: ConfigV, r: DigitizerReport) -> (
    StylusState,
    Seq<DigitizerEvent>,
) {
    if r.in_area && !s.in_area {
        hover_enter_step(s, conf, r)
    } else if !r.in_area && s.in_area {
        hover_leave_step(s, conf, r)
    } else if !r.in_area {
        (s, Seq::<DigitizerEvent>::empty())
    } else if r.touching != s.tip_pressed {
        tip_transition_step(s, conf, r)
    } else {
        steady_step(s, conf, r)
    }
}

impl StylusState {
    /// The initial snapshot: out of range, tip up, everything zero.
    pub fn new() -> (s: StylusState)
        ensures
            s == (StylusState {
                in_area: false,
                tip_pressed: false,
                pressure: 0,
                button0_pressed: false,
                button1_pressed: false,
                x: 0,
                y: 0,
                tilt_x: 0,
                tilt_y: 0,
            }),
    {
        StylusState {
            in_area: false,
            tip_pressed: false,
            pressure: 0,
            button0_pressed: false,
            button1_pressed: false,
            x: 0,
            y: 0,
            tilt_x: 0,
            tilt_y: 0,
        }
    }

    /// Write the X coordinate, mapped and change-suppressed.
    pub fn write_digitizer_x(
        &mut self,
        conf: &Config,
        x: u16,
        force: bool,
        out: &mut Vec<DigitizerEvent>,
    ) -> (changed: bool)
        requires
            conf@.wf(),
        ensures
            *final(self) == x_update(*old(self), conf@, x, force).0,
            final(out)@ == old(out)@ + x_update(*old(self), conf@, x, force).1,
            changed == (x_update(*old(self), conf@, x, force).1.len() > 0),
    {
        proof {
            reveal(x_update);
        }
        proof {
            lemma_map_coord_le_max(conf@.x_max_value, conf@.x_map, x);
        }
        let mapped = map_axis_value(x, conf.x_max_value, &conf.x_map);
        if !force && mapped == self.x {
            assert(out@ =~= old(out)@ + x_update(*old(self), conf@, x, force).1);
            return false;
        }
        self.x = mapped;
        out.push(DigitizerEvent::PositionX { value: mapped });
        assert(out@ =~= old(out)@ + x_update(*old(self), conf@, x, force).1);
        true
    }

    /// Write the Y coordinate, mapped, inverted, and change-suppressed.
    pub fn write_digitizer_y(
        &mut self,
        conf: &Config,
        y: u16,
        force: bool,
        out: &mut Vec<DigitizerEvent>,
    ) -> (changed: bool)
        requires
            conf@.wf(),
        ensures
            *final(self) == y_update(*old(self), conf@, y, force).0,
            final(out)@ == old(out)@ + y_update(*old(self), conf@, y, force).1,
            changed == (y_update(*old(self), conf@, y, force).1.len() > 0),
    {
        proof {
            reveal(y_update);
        }
        proof {
            lemma_map_coord_le_max(conf@.y_max_value, conf@.y_map, y);
        }
        let mapped = map_y_axis_value(y, conf.y_max_value, &conf.y_map);
        if !force && mapped == self.y {
            assert(out@ =~= old(out)@ + y_update(*old(self), conf@, y, force).1);
            return false;
        }
        self.y = mapped;
        out.push(DigitizerEvent::PositionY { value: mapped });
        assert(out@ =~= old(out)@ + y_update(*old(self), conf@, y, force).1);
        true
    }

    /// Write the pressure, change-suppressed unless forced.
    pub fn write_digitizer_tip_pressure(
        &mut self,
        pressure: u16,
        force: bool,
        out: &mut Vec<DigitizerEvent>,
    ) -> (changed: bool)
        ensures
            *final(self) == pressure_update(*old(self), pressure, force).0,
            final(out)@ == old(out)@ + pressure_update(*old(self), pressure, force).1,
            changed == (pressure_update(*old(self), pressure, force).1.len() > 0),
    {
        proof {
            reveal(pressure_update);
        }
        if !force && pressure == self.pressure {
            assert(out@ =~= old(out)@ + pressure_update(*old(self), pressure, force).1);
            return false;
        }
        self.pressure = pressure;
        out.push(DigitizerEvent::Pressure { value: pressure });
        assert(out@ =~= old(out)@ + pressure_update(*old(self), pressure, force).1);
        true
    }

    /// Report the tip transitioning to down, if it was up.
    pub fn write_digitizer_tip_pressed(&mut self, out: &mut Vec<DigitizerEvent>) -> (changed:
        bool)
        ensures
            *final(self) == tip_press_update(*old(self)).0,
            final(out)@ == old(out)@ + tip_press_update(*old(self)).1,
            changed == (tip_press_update(*old(self)).1.len() > 0),
    {
        proof {
            reveal(tip_press_update);
            reveal(pressure_update);
        }
        if self.tip_pressed {
            assert(out@ =~= old(out)@ + tip_press_update(*old(self)).1);
            return false;
        }
        self.tip_pressed = true;
        out.push(DigitizerEvent::Touch { active: true });
        self.write_digitizer_tip_pressure(1, true, out);
        assert(out@ =~= old(out)@ + tip_press_update(*old(self)).1);
        true
    }

    /// Report the tip transitioning to up, if it was down.
    pub fn write_digitizer_tip_released(&mut self, out: &mut Vec<DigitizerEvent>) -> (changed:
        bool)
        ensures
            *final(self) == tip_release_update(*old(self)).0,
            final(out)@ == old(out)@ + tip_release_update(*old(self)).1,
            changed == (tip_release_update(*old(self)).1.len() > 0),
    {
        proof {
            reveal(tip_release_update);
            reveal(pressure_update);
        }
        if !self.tip_pressed {
            assert(out@ =~= old(out)@ + tip_release_update(*old(self)).1);
            return false;
        }
        self.tip_pressed = false;
        out.push(DigitizerEvent::Touch { active: false });
        self.write_digitizer_tip_pressure(0, true, out);
        assert(out@ =~= old(out)@ + tip_release_update(*old(self)).1);
        true
    }

    /// Report the lower side button as pressed, change-suppressed.
    pub fn write_digitizer_button0_pressed(&mut self, out: &mut Vec<DigitizerEvent>) -> (changed:
        bool)
        ensures
            *final(self) == button0_update(*old(self), true).0,
            final(out)@ == old(out)@ + button0_update(*old(self), true).1,
            changed == (button0_update(*old(self), true).1.len() > 0),
    {
        proof {
            reveal(button0_update);
        }
        if self.button0_pressed {
            assert(out@ =~= old(out)@ + button0_update(*old(self), true).1);
            return false;
        }
        self.button0_pressed = true;
        out.push(DigitizerEvent::SideButton0 { pressed: true });
        assert(out@ =~= old(out)@ + button0_update(*old(self), true).1);
        true
    }

    /// Report the lower side button as released, change-suppressed.
    pub fn write_digitizer_button0_released(&mut self, out: &mut Vec<DigitizerEvent>) -> (changed:
        bool)
        ensures
            *final(self) == button0_update(*old(self), false).0,
            final(out)@ == old(out)@ + button0_update(*old(self), false).1,
            changed == (button0_update(*old(self), false).1.len() > 0),
    {
        proof {
            reveal(button0_update);
        }
        if !self.button0_pressed {
            assert(out@ =~= old(out)@ + button0_update(*old(self), false).1);
            return false;
        }
        self.button0_pressed = false;
        out.push(DigitizerEvent::SideButton0 { pressed: false });
        assert(out@ =~= old(out)@ + button0_update(*old(self), false).1);
        true
    }

    /// Report the upper side button as pressed, change-suppressed.
    pub fn write_digitizer_button1_pressed(&mut self, out: &mut Vec<DigitizerEvent>) -> (changed:
        bool)
        ensures
            *final(self) == button1_update(*old(self), true).0,
            final(out)@ == old(out)@ + button1_update(*old(self), true).1,
            changed == (button1_update(*old(self), true).1.len() > 0),
    {
        proof {
            reveal(button1_update);
        }
        if self.button1_pressed {
            assert(out@ =~= old(out)@ + button1_update(*old(self), true).1);
            return false;
        }
        self.button1_pressed = true;
        out.push(DigitizerEvent::SideButton1 { pressed: true });
        assert(out@ =~= old(out)@ + button1_update(*old(self), true).1);
        true
    }

    /// Report the upper side button as released, change-suppressed.
    pub fn write_digitizer_button1_released(&mut self, out: &mut Vec<DigitizerEvent>) -> (changed:
        bool)
        ensures
            *final(self) == button1_update(*old(self), false).0,
            final(out)@ == old(out)@ + button1_update(*old(self), false).1,
            changed == (button1_update(*old(self), false).1.len() > 0),
    {
        proof {
            reveal(button1_update);
        }
        if !self.button1_pressed {
            assert(out@ =~= old(out)@ + button1_update(*old(self), false).1);
            return false;
        }
        self.button1_pressed = false;
        out.push(DigitizerEvent::SideButton1 { pressed: false });
        assert(out@ =~= old(out)@ + button1_update(*old(self), false).1);
        true
    }

    /// Write the tilt around X, change-suppressed.
    pub fn write_digitizer_tilt_x(&mut self, tilt_x: i8, out: &mut Vec<DigitizerEvent>) -> (changed:
        bool)
        ensures
            *final(self) == tilt_x_update(*old(self), tilt_x).0,
            final(out)@ == old(out)@ + tilt_x_update(*old(self), tilt_x).1,
            changed == (tilt_x_update(*old(self), tilt_x).1.len() > 0),
    {
        proof {
            reveal(tilt_x_update);
        }
        if tilt_x == self.tilt_x {
            assert(out@ =~= old(out)@ + tilt_x_update(*old(self), tilt_x).1);
            return false;
        }
        self.tilt_x = tilt_x;
        out.push(DigitizerEvent::TiltX { value: tilt_x });
        assert(out@ =~= old(out)@ + tilt_x_update(*old(self), tilt_x).1);
        true
    }

    /// Write the tilt around Y, change-suppressed.
    pub fn write_digitizer_tilt_y(&mut self, tilt_y: i8, out: &mut Vec<DigitizerEvent>) -> (changed:
        bool)
        ensures
            *final(self) == tilt_y_update(*old(self), tilt_y).0,
            final(out)@ == old(out)@ + tilt_y_update(*old(self), tilt_y).1,
            changed == (tilt_y_update(*old(self), tilt_y).1.len() > 0),
    {
        proof {
            reveal(tilt_y_update);
        }
        if tilt_y == self.tilt_y {
            assert(out@ =~= old(out)@ + tilt_y_update(*old(self), tilt_y).1);
            return false;
        }
        self.tilt_y = tilt_y;
        out.push(DigitizerEvent::TiltY { value: tilt_y });
        assert(out@ =~= old(out)@ + tilt_y_update(*old(self), tilt_y).1);
        true
    }

    /// The hover-enter transition: tool on, forced X and Y, one
    /// synchronization event.
    fn step_hover_enter(&mut self, conf: &Config, r: DigitizerReport, out: &mut Vec<
        DigitizerEvent,
    >)
        requires
            conf@.wf(),
            r.in_area,
            !old(self).in_area,
        ensures
            *final(self) == hover_enter_step(*old(self), conf@, r).0,
            final(out)@ == old(out)@ + hover_enter_step(*old(self), conf@, r).1,
    {
        let ghost s0 = *self;
        let ghost out0 = out@;
        self.in_area = true;
        let ghost s1 = StylusState { in_area: true, ..s0 };
        out.push(DigitizerEvent::ToolPen { active: true });
        self.write_digitizer_x(conf, r.x, true, out);
        assert(*self == x_update(s1, conf@, r.x, true).0);
        self.write_digitizer_y(conf, r.y, true, out);
        out.push(DigitizerEvent::SynReport);
        assert(out@ =~= out0 + hover_enter_step(s0, conf@, r).1);
    }

    /// The hover-leave transition: tip release if the tip was down, the
    /// suppressed field resets, tool off, one synchronization event.
    #[verifier::rlimit(60)]
    fn step_hover_leave(&mut self, conf: &Config, r: DigitizerReport, out: &mut Vec<
        DigitizerEvent,
    >)
        requires
            conf@.wf(),
            !r.in_area,
            old(self).in_area,
        ensures
            *final(self) == hover_leave_step(*old(self), conf@, r).0,
            final(out)@ == old(out)@ + hover_leave_step(*old(self), conf@, r).1,
    {
        let ghost s0 = *self;
        let ghost out0 = out@;
        self.write_digitizer_tip_released(out);
        let ghost s1 = tip_release_update(s0).0;
        let ghost e1 = tip_release_update(s0).1;
        assert(*self == s1);
        assert(out@ == out0 + e1);
        self.write_digitizer_x(conf, r.x, false, out);
        let ghost s2 = x_update(s1, conf@, r.x, false).0;
        let ghost e2 = x_update(s1, conf@, r.x, false).1;
        assert(*self == s2);
        proof {
            lemma_concat_associative(out0, e1, e2);
        }
        assert(out@ == out0 + (e1 + e2));
        self.write_digitizer_y(conf, r.y, false, out);
        let ghost s3 = y_update(s2, conf@, r.y, false).0;
        let ghost e3 = y_update(s2, conf@, r.y, false).1;
        assert(*self == s3);
        proof {
            lemma_concat_associative(out0, e1 + e2, e3);
        }
        assert(out@ == out0 + (e1 + e2 + e3));
        self.write_digitizer_tilt_x(0, out);
        let ghost s4 = tilt_x_update(s3, 0).0;
        let ghost e4 = tilt_x_update(s3, 0).1;
        assert(*self == s4);
        proof {
            lemma_concat_associative(out0, e1 + e2 + e3, e4);
        }
        assert(out@ == out0 + (e1 + e2 + e3 + e4));
        self.write_digitizer_tilt_y(0, out);
        let ghost s5 = tilt_y_update(s4, 0).0;
        let ghost e5 = tilt_y_update(s4, 0).1;
        assert(*self == s5);
        proof {
            lemma_concat_associative(out0, e1 + e2 + e3 + e4, e5);
        }
        assert(out@ == out0 + (e1 + e2 + e3 + e4 + e5));
        self.write_digitizer_button0_released(out);
        let ghost s6 = button0_update(s5, false).0;
        let ghost e6 = button0_update(s5, false).1;
        assert(*self == s6);
        proof {
            lemma_concat_associative(out0, e1 + e2 + e3 + e4 + e5, e6);
        }
        assert(out@ == out0 + (e1 + e2 + e3 + e4 + e5 + e6));
        self.write_digitizer_button1_released(out);
        let ghost s7 = button1_update(s6, false).0;
        let ghost e7 = button1_update(s6, false).1;
        assert(*self == s7);
        proof {
            lemma_concat_associative(out0, e1 + e2 + e3 + e4 + e5 + e6, e7);
        }
        let ghost evs = e1 + e2 + e3 + e4 + e5 + e6 + e7;
        assert(out@ == out0 + evs);
        out.push(DigitizerEvent::ToolPen { active: false });
        self.in_area = false;
        out.push(DigitizerEvent::SynReport);
        let ghost tail = seq![
            DigitizerEvent::ToolPen { active: false },
            DigitizerEvent::SynReport,
        ];
        assert(out@ =~= (out0 + evs) + tail);
        proof {
            lemma_concat_associative(out0, evs, tail);
        }
        assert(*self == hover_leave_step(s0, conf@, r).0);
        assert(out@ == out0 + hover_leave_step(s0, conf@, r).1);
    }

    /// A touch transition while hovering in range: tip press or release
    /// with forced pressure, then X and Y, one synchronization event.
    fn step_tip_transition(&mut self, conf: &Config, r: DigitizerReport, out: &mut Vec<
        DigitizerEvent,
    >)
        requires
            conf@.wf(),
            r.in_area,
            old(self).in_area,
            r.touching != old(self).tip_pressed,
        ensures
            *final(self) == tip_transition_step(*old(self), conf@, r).0,
            final(out)@ == old(out)@ + tip_transition_step(*old(self), conf@, r).1,
    {
        let ghost s0 = *self;
        let ghost out0 = out@;
        if r.touching {
            self.write_digitizer_tip_pressed(out);
            let ghost s1 = tip_press_update(s0).0;
            assert(*self == s1);
            self.write_digitizer_x(conf, r.x, false, out);
            let ghost s2 = x_update(s1, conf@, r.x, false).0;
            assert(*self == s2);
            self.write_digitizer_y(conf, r.y, false, out);
            out.push(DigitizerEvent::SynReport);
            assert(out@ =~= out0 + tip_transition_step(s0, conf@, r).1);
        } else {
            self.write_digitizer_tip_released(out);
            let ghost s1 = tip_release_update(s0).0;
            assert(*self == s1);
            self.write_digitizer_x(conf, r.x, false, out);
            let ghost s2 = x_update(s1, conf@, r.x, false).0;
            assert(*self == s2);
            self.write_digitizer_y(conf, r.y, false, out);
            out.push(DigitizerEvent::SynReport);
            assert(out@ =~= out0 + tip_transition_step(s0, conf@, r).1);
        }
    }

    /// The steady in-range case: every field written change-suppressed,
    /// one synchronization event exactly when some field changed.
    #[verifier::rlimit(100)]
    #[verifier::spinoff_prover]
    fn step_steady(&mut self, conf: &Config, r: DigitizerReport, out: &mut Vec<DigitizerEvent>)
        requires
            conf@.wf(),
            r.in_area,
            old(self).in_area,
            r.touching == old(self).tip_pressed,
        ensures
            *final(self) == steady_step(*old(self), conf@, r).0,
            final(out)@ == old(out)@ + steady_step(*old(self), conf@, r).1,
    {
        let ghost s0 = *self;
        let ghost out0 = out@;
        let mut report = false;
        if r.button0 {
            report = self.write_digitizer_button0_pressed(out) || report;
        } else {
            report = self.write_digitizer_button0_released(out) || report;
        }
        let ghost s1 = button0_update(s0, r.button0).0;
        let ghost e1 = button0_update(s0, r.button0).1;
        assert(*self == s1);
        assert(out@ == out0 + e1);
        assert(report == (e1.len() > 0));
        if r.button1 {
            report = self.write_digitizer_button1_pressed(out) || report;
        } else {
            report = self.write_digitizer_button1_released(out) || report;
        }
        let ghost s2 = button1_update(s1, r.button1).0;
        let ghost e2 = button1_update(s1, r.button1).1;
        assert(*self == s2);
        proof {
            lemma_concat_associative(out0, e1, e2);
        }
        assert(out@ == out0 + (e1 + e2));
        assert(report == ((e1 + e2).len() > 0));
        report = self.write_digitizer_tip_pressure(r.pressure, false, out) || report;
        let ghost s3 = pressure_update(s2, r.pressure, false).0;
        let ghost e3 = pressure_update(s2, r.pressure, false).1;
        assert(*self == s3);
        proof {
            lemma_concat_associative(out0, e1 + e2, e3);
        }
        assert(out@ == out0 + (e1 + e2 + e3));
        assert(report == ((e1 + e2 + e3).len() > 0));
        report = self.write_digitizer_x(conf, r.x, false, out) || report;
        let ghost s4 = x_update(s3, conf@, r.x, false).0;
        let ghost e4 = x_update(s3, conf@, r.x, false).1;
        assert(*self == s4);
        proof {
            lemma_concat_associative(out0, e1 + e2 + e3, e4);
        }
        assert(out@ == out0 + (e1 + e2 + e3 + e4));
        assert(report == ((e1 + e2 + e3 + e4).len() > 0));
        report = self.write_digitizer_y(conf, r.y, false, out) || report;
        let ghost s5 = y_update(s4, conf@, r.y, false).0;
        let ghost e5 = y_update(s4, conf@, r.y, false).1;
        assert(*self == s5);
        proof {
            lemma_concat_associative(out0, e1 + e2 + e3 + e4, e5);
        }
        assert(out@ == out0 + (e1 + e2 + e3 + e4 + e5));
        assert(report == ((e1 + e2 + e3 + e4 + e5).len() > 0));
        report = self.write_digitizer_tilt_x(r.tilt_x, out) || report;
        let ghost s6 = tilt_x_update(s5, r.tilt_x).0;
        let ghost e6 = tilt_x_update(s5, r.tilt_x).1;
        assert(*self == s6);
        proof {
            lemma_concat_associative(out0, e1 + e2 + e3 + e4 + e5, e6);
        }
        assert(out@ == out0 + (e1 + e2 + e3 + e4 + e5 + e6));
        assert(report == ((e1 + e2 + e3 + e4 + e5 + e6).len() > 0));
        report = self.write_digitizer_tilt_y(r.tilt_y, out) || report;
        let ghost s7 = tilt_y_update(s6, r.tilt_y).0;
        let ghost e7 = tilt_y_update(s6, r.tilt_y).1;
        assert(*self == s7);
        let ghost evs = e1 + e2 + e3 + e4 + e5 + e6 + e7;
        proof {
            lemma_concat_associative(out0, e1 + e2 + e3 + e4 + e5 + e6, e7);
        }
        assert(out@ == out0 + evs);
        assert(report == (evs.len() > 0));
        if report {
            out.push(DigitizerEvent::SynReport);
            assert(out@ =~= (out0 + evs) + seq![DigitizerEvent::SynReport]);
            proof {
                lemma_concat_associative(out0, evs, seq![DigitizerEvent::SynReport]);
            }
        }
        assert(out@ == out0 + steady_step(s0, conf@, r).1);
    }

    /// Run one step of the state machine on an already-decoded report,
    /// appending the emitted events.
    pub fn apply_report(&mut self, conf: &Config, r: DigitizerReport, out: &mut Vec<DigitizerEvent>)
        requires
            conf@.wf(),
        ensures
            *final(self) == stylus_step(*old(self), conf@, r).0,
            final(out)@ == old(out)@ + stylus_step(*old(self), conf@, r).1,
    {
        let ghost s0 = *self;
        let ghost out0 = out@;
        if r.in_area {
            if !self.in_area {
                self.step_hover_enter(conf, r, out);
            } else if r.touching != self.tip_pressed {
                self.step_tip_transition(conf, r, out);
            } else {
                self.step_steady(conf, r, out);
            }
        } else {
            if self.in_area {
                self.step_hover_leave(conf, r, out);
            } else {
                assert(out@ =~= out0 + stylus_step(s0, conf@, r).1);
            }
        }
    }

    /// Process one digitizer report buffer (usage byte already stripped):
    /// decode it, run one step of the state machine, and append the emitted
    /// events. An unrecognized area nibble leaves everything unchanged.
    pub fn handle_digitizer_event(
        &mut self,
        conf: &Config,
        buf: &[u8],
        out: &mut Vec<DigitizerEvent>,
    )
        requires
            conf@.wf(),
            buf@.len() >= 9,
        ensures
            match parse_digitizer_report(buf@) {
                Some(r) => {
                    &&& *final(self) == stylus_step(*old(self), conf@, r).0
                    &&& final(out)@ == old(out)@ + stylus_step(*old(self), conf@, r).1
                },
                None => {
                    &&& *final(self) == *old(self)
                    &&& final(out)@ == old(out)@
                },
            },
    {
        match parse_report(buf) {
            Some(r) => {
                self.apply_report(conf, r, out);
            }
            None => {},
        }
    }
}

/// Decode a digitizer report buffer (usage byte already stripped) into its
/// fields; `None` for an unrecognized area nibble.
pub fn parse_report(buf: &[u8]) -> (r: Option<DigitizerReport>)
    requires
        buf@.len() >= 9,
    ensures
        r == parse_digitizer_report(buf@),
{
    let area = buf[0] & 0xf0;
    if area != 0xa0 && area != 0xc0 {
        return None;
    }
    Some(
        DigitizerReport {
            in_area: area == 0xa0,
            touching: buf[0] & 0x01 != 0,
            button0: buf[0] & 0x02 != 0,
            button1: buf[0] & 0x04 != 0,
            y: (buf[1] as u16) + (buf[2] as u16) * 256,
            x: (buf[3] as u16) + (buf[4] as u16) * 256,
            pressure: (buf[5] as u16) + (buf[6] as u16) * 256,
            tilt_x: decode_tilt(buf[7]),
            tilt_y: decode_tilt(buf[8]),
        },
    )
}

/// A report whose decoded fields all equal the stored snapshot, with the
/// stylus in range on both sides.
pub open spec fn report_matches(s: StylusState, conf: ConfigV, r: DigitizerReport) -> bool {
    &&& s.in_area && r.in_area
    &&& r.touching == s.tip_pressed
    &&& r.button0 == s.button0_pressed
    &&& r.button1 == s.button1_pressed
    &&& map_coord(conf.x_max_value, conf.x_map, r.x) == s.x as int
    &&& map_y_coord(conf.y_max_value, conf.y_map, r.y) == s.y as int
    &&& r.pressure == s.pressure
    &&& r.tilt_x == s.tilt_x
    &&& r.tilt_y == s.tilt_y
}

/// Idempotence of change suppression: a report that matches the snapshot
/// emits no event at all — no sub-field event and no synchronization
/// event — and leaves the snapshot unchanged; so does any report while
/// the stylus stays out of range.
pub proof fn lemma_matching_report_is_silent(s: StylusState, conf: ConfigV, r: DigitizerReport)
    requires
        report_matches(s, conf, r) || (!s.in_area && !r.in_area),
    ensures
        stylus_step(s, conf, r).0 == s,
        stylus_step(s, conf, r).1 == Seq::<DigitizerEvent>::empty(),
{
        reveal(x_update);
        reveal(y_update);
        reveal(pressure_update);
        reveal(tilt_x_update);
        reveal(tilt_y_update);
        reveal(button0_update);
        reveal(button1_update);
        reveal(tip_press_update);
        reveal(tip_release_update);
    if report_matches(s, conf, r) {
        assert(stylus_step(s, conf, r).1 =~= Seq::<DigitizerEvent>::empty());
    }
}

/// A steady in-range report (no hover or touch transition) is fully
/// absorbed into the snapshot: afterwards the snapshot matches the report.
pub proof fn lemma_steady_step_absorbs(s: StylusState, conf: ConfigV, r: DigitizerReport)
    requires
        conf.wf(),
        s.in_area,
        r.in_area,
        r.touching == s.tip_pressed,
    ensures
        report_matches(stylus_step(s, conf, r).0, conf, r),
{
        reveal(x_update);
        reveal(y_update);
        reveal(pressure_update);
        reveal(tilt_x_update);
        reveal(tilt_y_update);
        reveal(button0_update);
        reveal(button1_update);
        reveal(tip_press_update);
        reveal(tip_release_update);
    lemma_map_coord_le_max(conf.x_max_value, conf.x_map, r.x);
    lemma_map_coord_le_max(conf.y_max_value, conf.y_map, r.y);
}

/// Idempotence over two calls: once a steady in-range report has been
/// processed, processing the identical report again emits nothing and
/// changes nothing.
pub proof fn lemma_consecutive_identical_reports(s: StylusState, conf: ConfigV, r: DigitizerReport)
    requires
        conf.wf(),
        s.in_area,
        r.in_area,
        r.touching == s.tip_pressed,
    ensures
        stylus_step(stylus_step(s, conf, r).0, conf, r).0 == stylus_step(s, conf, r).0,
        stylus_step(stylus_step(s, conf, r).0, conf, r).1 == Seq::<DigitizerEvent>::empty(),
{
    lemma_steady_step_absorbs(s, conf, r);
    lemma_matching_report_is_silent(stylus_step(s, conf, r).0, conf, r);
}

/// Hover-enter invariant: the first report after an out-of-range to
/// in-range transition emits exactly tool-on, then X, then Y, then one
/// synchronization event, regardless of whether X and Y equal the stored
/// snapshot.
pub proof fn lemma_hover_enter_events(s: StylusState, conf: ConfigV, r: DigitizerReport)
    requires
        !s.in_area,
        r.in_area,
    ensures
        stylus_step(s, conf, r).1 == seq![
            DigitizerEvent::ToolPen { active: true },
            DigitizerEvent::PositionX {
                value: map_coord(conf.x_max_value, conf.x_map, r.x) as u16,
            },
            DigitizerEvent::PositionY {
                value: map_y_coord(conf.y_max_value, conf.y_map, r.y) as u16,
            },
            DigitizerEvent::SynReport,
        ],
        stylus_step(s, conf, r).0.in_area,
{
    reveal(x_update);
    reveal(y_update);
    assert(stylus_step(s, conf, r).1 =~= seq![
        DigitizerEvent::ToolPen { active: true },
        DigitizerEvent::PositionX { value: map_coord(conf.x_max_value, conf.x_map, r.x) as u16 },
        DigitizerEvent::PositionY {
            value: map_y_coord(conf.y_max_value, conf.y_map, r.y) as u16,
        },
        DigitizerEvent::SynReport,
    ]);
}

/// Hover-leave invariant: if the tip was down when the pen left the
/// sensing area, the tip release (and its zeroed pressure) is emitted
/// first, before the tool-off event that closes the batch.
pub proof fn lemma_hover_leave_tip_release_first(s: StylusState, conf: ConfigV, r: DigitizerReport)
    requires
        s.in_area,
        !r.in_area,
        s.tip_pressed,
    ensures
        ({
            let evs = stylus_step(s, conf, r).1;
            &&& evs.len() >= 4
            &&& evs[0] == DigitizerEvent::Touch { active: false }
            &&& evs[1] == DigitizerEvent::Pressure { value: 0 }
            &&& evs[evs.len() - 2] == DigitizerEvent::ToolPen { active: false }
            &&& evs[evs.len() - 1] == DigitizerEvent::SynReport
        }),
{
        reveal(x_update);
        reveal(y_update);
        reveal(pressure_update);
        reveal(tilt_x_update);
        reveal(tilt_y_update);
        reveal(button0_update);
        reveal(button1_update);
        reveal(tip_press_update);
        reveal(tip_release_update);
    let evs = stylus_step(s, conf, r).1;
    let e1 = tip_release_update(s).1;
    assert(e1.len() == 2);
    assert(evs[0] == DigitizerEvent::Touch { active: false });
    assert(evs[1] == DigitizerEvent::Pressure { value: 0 });
}

/// Decode a signed tilt byte.
fn decode_tilt(b: u8) -> (t: i8)
    ensures
        t == signed_tilt(b),
{
    if b < 128 {
        b as i8
    } else {
        ((b as i16) - 256) as i8
    }
}

} // verus!
