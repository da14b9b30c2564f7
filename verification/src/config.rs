//! Configuration model: calibration ceilings, optional per-axis linear
//! remaps, and an ordered, non-empty list of keymap schemas.

use vstd::prelude::*;

verus! {

/// A linear remap for one axis, expressed as a rational ratio pair over a
/// common denominator: the mapped value is
/// `max * min_num / den + raw * (max_num - min_num) / den`, rounded to the
/// nearest integer.
#[derive(Clone, Copy, Debug, PartialEq, Eq, Structural)]
pub struct AxisRemap {
    pub min_num: u16,
    pub max_num: u16,
    pub den: u16,
}

/// A valid ratio pair: positive denominator and
/// `0 <= min_num <= max_num <= den`, i.e. both ratios lie in `[0, 1]` and
/// the pair is ordered. This keeps every mapped value within `[0, max]`.
pub open spec fn remap_wf(r: AxisRemap) -> bool {
    0 < r.den && r.min_num <= r.max_num && r.max_num <= r.den
}

/// What a hardware button is bound to in one schema slot.
#[derive(Clone, Debug)]
pub enum Action {
    /// Press (and hold) these keyboard codes, in order.
    Press(Vec<u16>),
    /// Advance to the next keymap schema, cyclically.
    SwitchSchema,
    /// Ignore the button.
    NoOp,
}

/// Spec-level value of an [`Action`].
#[verifier::ext_equal]
pub enum ActionV {
    Press(Seq<u16>),
    SwitchSchema,
    NoOp,
}

impl View for Action {
    type V = ActionV;

    open spec fn view(&self) -> ActionV {
        match self {
            Action::Press(keys) => ActionV::Press(keys@),
            Action::SwitchSchema => ActionV::SwitchSchema,
            Action::NoOp => ActionV::NoOp,
        }
    }
}

/// One complete set of button-to-action bindings: eight numbered buttons,
/// the two ring-rotation directions, and the ring-center button.
#[derive(Clone, Debug)]
pub struct KeymapSchema {
    pub button0: Action,
    pub button1: Action,
    pub button2: Action,
    pub button3: Action,
    pub button4: Action,
    pub button5: Action,
    pub button6: Action,
    pub button7: Action,
    pub ring0: Action,
    pub ring1: Action,
    pub ring_button: Action,
}

/// Spec-level value of a [`KeymapSchema`].
#[verifier::ext_equal]
pub struct SchemaV {
    pub button0: ActionV,
    pub button1: ActionV,
    pub button2: ActionV,
    pub button3: ActionV,
    pub button4: ActionV,
    pub button5: ActionV,
    pub button6: ActionV,
    pub button7: ActionV,
    pub ring0: ActionV,
    pub ring1: ActionV,
    pub ring_button: ActionV,
}

impl View for KeymapSchema {
    type V = SchemaV;

    open spec fn view(&self) -> SchemaV {
        SchemaV {
            button0: self.button0@,
            button1: self.button1@,
            button2: self.button2@,
            button3: self.button3@,
            button4: self.button4@,
            button5: self.button5@,
            button6: self.button6@,
            button7: self.button7@,
            ring0: self.ring0@,
            ring1: self.ring1@,
            ring_button: self.ring_button@,
        }
    }
}

/// The driver's configuration: the calibration ceiling of each axis, an
/// optional remap per axis, and the schema list.
#[derive(Clone, Debug)]
pub struct Config {
    pub x_max_value: u16,
    pub y_max_value: u16,
    pub x_map: Option<AxisRemap>,
    pub y_map: Option<AxisRemap>,
    pub keymaps: Vec<KeymapSchema>,
}

/// Spec-level value of a [`Config`].
#[verifier::ext_equal]
pub struct ConfigV {
    pub x_max_value: u16,
    pub y_max_value: u16,
    pub x_map: Option<AxisRemap>,
    pub y_map: Option<AxisRemap>,
    pub keymaps: Seq<SchemaV>,
}

impl View for Config {
    type V = ConfigV;

    open spec fn view(&self) -> ConfigV {
        ConfigV {
            x_max_value: self.x_max_value,
            y_max_value: self.y_max_value,
            x_map: self.x_map,
            y_map: self.y_map,
            keymaps: self.keymaps@.map_values(|s: KeymapSchema| s@),
        }
    }
}

impl ConfigV {
    /// A usable configuration: at least one schema, and any configured
    /// remap is a valid ratio pair.
    pub open spec fn wf(self) -> bool {
        &&& self.keymaps.len() > 0
        &&& (self.x_map matches Some(r) ==> remap_wf(r))
        &&& (self.y_map matches Some(r) ==> remap_wf(r))
    }
}

/// Runtime check that a configuration satisfies [`ConfigV::wf`], for
/// configurations that arrive from outside the verified engine.
pub fn config_is_wf(conf: &Config) -> (r: bool)
    ensures
        r == conf@.wf(),
{
    let x_ok = match conf.x_map {
        Some(r) => 0 < r.den && r.min_num <= r.max_num && r.max_num <= r.den,
        None => true,
    };
    let y_ok = match conf.y_map {
        Some(r) => 0 < r.den && r.min_num <= r.max_num && r.max_num <= r.den,
        None => true,
    };
    conf.keymaps.len() > 0 && x_ok && y_ok
}

/// Install a replacement configuration over a live one.
///
/// The two calibration maximums always carry over from the live
/// configuration: they are derived from hardware capabilities and cannot be
/// hot-swapped. The active schema index resets to 0 exactly when the
/// replacement has fewer schemas than the live configuration; otherwise it
/// is kept.
pub fn apply_config_reload(conf: &mut Config, keymap_index: &mut usize, incoming: Config)
    requires
        old(conf)@.wf(),
        incoming@.wf(),
        *old(keymap_index) < old(conf)@.keymaps.len(),
    ensures
        final(conf)@.x_max_value == old(conf)@.x_max_value,
        final(conf)@.y_max_value == old(conf)@.y_max_value,
        final(conf)@.x_map == incoming@.x_map,
        final(conf)@.y_map == incoming@.y_map,
        final(conf)@.keymaps == incoming@.keymaps,
        *final(keymap_index) == if incoming@.keymaps.len() < old(conf)@.keymaps.len() {
            0int
        } else {
            *old(keymap_index) as int
        },
        final(conf)@.wf(),
        *final(keymap_index) < final(conf)@.keymaps.len(),
{
    let mut incoming = incoming;
    incoming.x_max_value = conf.x_max_value;
    incoming.y_max_value = conf.y_max_value;
    if incoming.keymaps.len() < conf.keymaps.len() {
        *keymap_index = 0;
    }
    *conf = incoming;
}

} // verus!
