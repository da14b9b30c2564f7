//! The events the engine emits towards the two virtual devices. Each value
//! stands for one input event written to the digitizer or keyboard device;
//! `SynReport` is the synchronization marker closing a batch.

use vstd::prelude::*;

verus! {

/// One event for the virtual digitizer.
#[derive(Clone, Copy, Debug, PartialEq, Eq, Structural)]
pub enum DigitizerEvent {
    /// Pen tool in or out of range (`BTN_TOOL_PEN`).
    ToolPen { active: bool },
    /// Tip contact (`BTN_TOUCH`).
    Touch { active: bool },
    /// Lower stylus side button (`BTN_STYLUS`).
    SideButton0 { pressed: bool },
    /// Upper stylus side button (`BTN_STYLUS2`).
    SideButton1 { pressed: bool },
    /// Absolute X position (`ABS_X`).
    PositionX { value: u16 },
    /// Absolute Y position (`ABS_Y`).
    PositionY { value: u16 },
    /// Tip pressure (`ABS_PRESSURE`).
    Pressure { value: u16 },
    /// Pen tilt around X (`ABS_TILT_X`).
    TiltX { value: i8 },
    /// Pen tilt around Y (`ABS_TILT_Y`).
    TiltY { value: i8 },
    /// Synchronization marker (`SYN_REPORT`).
    SynReport,
}

/// One event for the virtual keyboard.
#[derive(Clone, Copy, Debug, PartialEq, Eq, Structural)]
pub enum KeyboardEvent {
    /// A key going down (`pressed`) or up.
    Key { code: u16, pressed: bool },
    /// Synchronization marker (`SYN_REPORT`).
    SynReport,
}

} // verus!
