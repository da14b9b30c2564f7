//! The driver engine's state and per-report dispatch: the active
//! configuration, the active schema index, the held-keys set, and the
//! stylus snapshot, advanced by one raw interrupt buffer at a time.

use vstd::prelude::*;

use crate::buttons::{button_code, button_step, handle_button_event};
use crate::config::{apply_config_reload, config_is_wf, Config};
use crate::events::{DigitizerEvent, KeyboardEvent};
use crate::reload::take_pending_config;
use crate::stylus::{parse_digitizer_report, stylus_step, StylusState};

verus! {

/// The usage identifier carried in byte 0 of every report this device
/// streams; buffers with any other usage are dropped.
pub const REPORT_USAGE: u8 = 0x02;

/// The mutable state of the driver engine. The device handles stay
/// outside: the engine turns raw buffers into event lists and leaves the
/// writing to its caller.
pub struct DriverState {
    pub conf: Config,
    pub keymap_index: usize,
    pub pressed_keys: Vec<u16>,
    pub stylus: StylusState,
}

/// Two engine states with equal values in every field.
pub open spec fn state_eq(a: DriverState, b: DriverState) -> bool {
    &&& a.conf@ == b.conf@
    &&& a.keymap_index == b.keymap_index
    &&& a.pressed_keys@ == b.pressed_keys@
    &&& a.stylus == b.stylus
}

impl DriverState {
    /// The engine invariant: a usable configuration, a valid schema
    /// index, and no key held twice.
    pub open spec fn wf(self) -> bool {
        &&& self.conf@.wf()
        &&& (self.keymap_index as int) < self.conf@.keymaps.len()
        &&& self.pressed_keys@.no_duplicates()
    }

    /// A fresh engine: schema 0 active, nothing held, stylus out of range
    /// with every field zeroed.
    pub fn new(conf: Config) -> (s: DriverState)
        requires
            conf@.wf(),
        ensures
            s.wf(),
            s.conf@ == conf@,
            s.keymap_index == 0,
            s.pressed_keys@ == Seq::<u16>::empty(),
            s.stylus == (StylusState {
                in_area: false,
                tip_pressed: false,
                pressure: 0,
                button0_pressed: false,
                button1_pressed: false,
                x: 0,
                y: 0,
                tilt_x: 0,
                tilt_y: 0,
            }),
    {
        DriverState {
            conf,
            keymap_index: 0,
            pressed_keys: Vec::new(),
            stylus: StylusState::new(),
        }
    }

    /// Classify and dispatch one raw interrupt buffer.
    ///
    /// An empty buffer and a buffer with an unknown usage byte are
    /// dropped silently. Otherwise the usage byte is stripped; a high
    /// nibble of 0xF in the next byte selects the button dispatcher,
    /// anything else the stylus state machine. Emitted events are
    /// appended to the respective output, at most one synchronization
    /// event per report.
    pub fn handle_device_input(
        &mut self,
        buf: &[u8],
        dig_out: &mut Vec<DigitizerEvent>,
        kbd_out: &mut Vec<KeyboardEvent>,
    )
        requires
            old(self).wf(),
            buf@.len() == 0 || buf@.len() >= 10,
        ensures
            final(self).wf(),
            final(self).conf@ == old(self).conf@,
            (buf@.len() == 0 || buf@[0] != REPORT_USAGE) ==> {
                &&& state_eq(*final(self), *old(self))
                &&& final(dig_out)@ == old(dig_out)@
                &&& final(kbd_out)@ == old(kbd_out)@
            },
            (buf@.len() >= 10 && buf@[0] == REPORT_USAGE && buf@[1] & 0xf0 == 0xf0) ==> {
                let stripped = buf@.subrange(1, buf@.len() as int);
                let step = button_step(
                    old(self).conf@,
                    old(self).keymap_index as int,
                    old(self).pressed_keys@,
                    button_code(stripped),
                );
                &&& final(self).keymap_index as int == step.0
                &&& final(self).pressed_keys@ == step.1
                &&& final(kbd_out)@ == old(kbd_out)@ + step.2
                &&& final(self).stylus == old(self).stylus
                &&& final(dig_out)@ == old(dig_out)@
            },
            (buf@.len() >= 10 && buf@[0] == REPORT_USAGE && buf@[1] & 0xf0 != 0xf0) ==> {
                let stripped = buf@.subrange(1, buf@.len() as int);
                &&& match parse_digitizer_report(stripped) {
                    Some(r) => {
                        &&& final(self).stylus == stylus_step(
                            old(self).stylus,
                            old(self).conf@,
                            r,
                        ).0
                        &&& final(dig_out)@ == old(dig_out)@ + stylus_step(
                            old(self).stylus,
                            old(self).conf@,
                            r,
                        ).1
                    },
                    None => {
                        &&& final(self).stylus == old(self).stylus
                        &&& final(dig_out)@ == old(dig_out)@
                    },
                }
                &&& final(self).keymap_index == old(self).keymap_index
                &&& final(self).pressed_keys@ == old(self).pressed_keys@
                &&& final(kbd_out)@ == old(kbd_out)@
            },
    {
        if buf.len() == 0 {
            return ;
        }
        if buf[0] != REPORT_USAGE {
            return ;
        }
        let inner = &buf[1..buf.len()];
        if inner[0] & 0xf0 == 0xf0 {
            handle_button_event(
                &self.conf,
                &mut self.keymap_index,
                &mut self.pressed_keys,
                inner,
                kbd_out,
            );
        } else {
            self.stylus.handle_digitizer_event(&self.conf, inner, dig_out);
        }
    }

    /// Apply a pending replacement configuration, if the watcher left one
    /// in the slot.
    ///
    /// The two calibration ceilings always carry over from the live
    /// configuration, and the active schema index resets to 0 exactly
    /// when the replacement has fewer schemas. A replacement that does
    /// not satisfy the configuration invariant is ignored, as is an empty
    /// slot. The stylus snapshot and the held keys are never touched.
    pub fn check_config_change(&mut self, slot: &parking_lot::Mutex<Option<Config>>)
        requires
            old(self).wf(),
        ensures
            final(self).wf(),
            final(self).conf@.x_max_value == old(self).conf@.x_max_value,
            final(self).conf@.y_max_value == old(self).conf@.y_max_value,
            final(self).stylus == old(self).stylus,
            final(self).pressed_keys@ == old(self).pressed_keys@,
    {
        let incoming = match take_pending_config(slot) {
            Some(c) => c,
            None => {
                return ;
            },
        };
        if !config_is_wf(&incoming) {
            return ;
        }
        apply_config_reload(&mut self.conf, &mut self.keymap_index, incoming);
    }
}

} // verus!
