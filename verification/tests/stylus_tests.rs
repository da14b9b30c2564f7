use intangbo_driver::config::{Action, Config, KeymapSchema};
use intangbo_driver::driver::DriverState;
use intangbo_driver::events::{DigitizerEvent, KeyboardEvent};

fn plain_schema() -> KeymapSchema {
    KeymapSchema {
        button0: Action::NoOp,
        button1: Action::NoOp,
        button2: Action::NoOp,
        button3: Action::NoOp,
        button4: Action::NoOp,
        button5: Action::NoOp,
        button6: Action::NoOp,
        button7: Action::NoOp,
        ring0: Action::NoOp,
        ring1: Action::NoOp,
        ring_button: Action::NoOp,
    }
}

fn plain_config(x_max: u16, y_max: u16) -> Config {
    Config {
        x_max_value: x_max,
        y_max_value: y_max,
        x_map: None,
        y_map: None,
        keymaps: vec![plain_schema()],
    }
}

fn feed(
    state: &mut DriverState,
    buf: &[u8],
) -> (Vec<DigitizerEvent>, Vec<KeyboardEvent>) {
    let mut dig = Vec::new();
    let mut kbd = Vec::new();
    state.handle_device_input(buf, &mut dig, &mut kbd);
    (dig, kbd)
}

#[test]
fn hover_enter_emits_tool_x_y_sync() {
    // Out of range, then an in-range report: exactly tool-on, X, Y, sync,
    // with X/Y equal to the decoded values (wire order carries Y first).
    let mut state = DriverState::new(plain_config(2000, 1000));
    let y: u16 = 300;
    let x: u16 = 500;
    let buf = [
        0x02,
        0xa0,
        (y & 0xff) as u8,
        (y >> 8) as u8,
        (x & 0xff) as u8,
        (x >> 8) as u8,
        0,
        0,
        0,
        0,
    ];
    let (dig, kbd) = feed(&mut state, &buf);
    assert_eq!(
        dig,
        vec![
            DigitizerEvent::ToolPen { active: true },
            DigitizerEvent::PositionX { value: 500 },
            DigitizerEvent::PositionY { value: 700 }, // inverted: 1000 - 300
            DigitizerEvent::SynReport,
        ]
    );
    assert_eq!(kbd, Vec::new());
}

#[test]
fn hover_enter_forces_x_y_even_when_unchanged() {
    // Leave and re-enter at the same coordinates: the forced writes emit
    // X and Y again even though they equal the stored snapshot.
    let mut state = DriverState::new(plain_config(2000, 1000));
    let enter = [0x02, 0xa0, 44, 1, 244, 1, 0, 0, 0, 0];
    let leave = [0x02, 0xc0, 44, 1, 244, 1, 0, 0, 0, 0];
    feed(&mut state, &enter);
    feed(&mut state, &leave);
    let (dig, _) = feed(&mut state, &enter);
    assert_eq!(
        dig,
        vec![
            DigitizerEvent::ToolPen { active: true },
            DigitizerEvent::PositionX { value: 500 },
            DigitizerEvent::PositionY { value: 700 },
            DigitizerEvent::SynReport,
        ]
    );
}

#[test]
fn identical_reports_are_silent() {
    // After a steady report is absorbed, the identical report emits
    // nothing at all: no sub-field event and no synchronization event.
    let mut state = DriverState::new(plain_config(2000, 1000));
    let report = [0x02, 0xa0, 44, 1, 244, 1, 0, 0, 5, 3];
    feed(&mut state, &report); // hover enter
    feed(&mut state, &report); // steady: absorbs tilt values
    let (dig, kbd) = feed(&mut state, &report);
    assert_eq!(dig, Vec::new());
    assert_eq!(kbd, Vec::new());
    let (dig2, _) = feed(&mut state, &report);
    assert_eq!(dig2, Vec::new());
}

#[test]
fn out_of_range_reports_are_silent() {
    let mut state = DriverState::new(plain_config(2000, 1000));
    let report = [0x02, 0xc0, 44, 1, 244, 1, 0, 0, 0, 0];
    let (dig, kbd) = feed(&mut state, &report);
    assert_eq!(dig, Vec::new());
    assert_eq!(kbd, Vec::new());
}

#[test]
fn tip_press_forces_pressure_one() {
    let mut state = DriverState::new(plain_config(2000, 1000));
    let enter = [0x02, 0xa0, 44, 1, 244, 1, 0, 0, 0, 0];
    feed(&mut state, &enter);
    // Touch down at the same coordinates: tip press, forced pressure 1,
    // X/Y suppressed, sync.
    let touch = [0x02, 0xa1, 44, 1, 244, 1, 0, 0, 0, 0];
    let (dig, _) = feed(&mut state, &touch);
    assert_eq!(
        dig,
        vec![
            DigitizerEvent::Touch { active: true },
            DigitizerEvent::Pressure { value: 1 },
            DigitizerEvent::SynReport,
        ]
    );
}

#[test]
fn tip_release_forces_pressure_zero() {
    let mut state = DriverState::new(plain_config(2000, 1000));
    feed(&mut state, &[0x02, 0xa0, 44, 1, 244, 1, 0, 0, 0, 0]);
    feed(&mut state, &[0x02, 0xa1, 44, 1, 244, 1, 200, 0, 0, 0]);
    let (dig, _) = feed(&mut state, &[0x02, 0xa0, 44, 1, 244, 1, 0, 0, 0, 0]);
    assert_eq!(
        dig,
        vec![
            DigitizerEvent::Touch { active: false },
            DigitizerEvent::Pressure { value: 0 },
            DigitizerEvent::SynReport,
        ]
    );
}

#[test]
fn hover_leave_releases_tip_before_tool_off() {
    // Tip down when leaving the sensing area: the tip release comes
    // before tool-off.
    let mut state = DriverState::new(plain_config(2000, 1000));
    feed(&mut state, &[0x02, 0xa0, 44, 1, 244, 1, 0, 0, 0, 0]);
    feed(&mut state, &[0x02, 0xa1, 44, 1, 244, 1, 1, 0, 0, 0]);
    let (dig, _) = feed(&mut state, &[0x02, 0xc0, 44, 1, 244, 1, 0, 0, 0, 0]);
    assert_eq!(
        dig,
        vec![
            DigitizerEvent::Touch { active: false },
            DigitizerEvent::Pressure { value: 0 },
            DigitizerEvent::ToolPen { active: false },
            DigitizerEvent::SynReport,
        ]
    );
}

#[test]
fn hover_leave_resets_nonzero_tilt_and_buttons() {
    let mut state = DriverState::new(plain_config(2000, 1000));
    feed(&mut state, &[0x02, 0xa0, 44, 1, 244, 1, 0, 0, 0, 0]);
    // Steady report: side button 0 held, tilts move.
    let (dig, _) = feed(&mut state, &[0x02, 0xa2, 44, 1, 244, 1, 0, 0, 10, 246]);
    assert_eq!(
        dig,
        vec![
            DigitizerEvent::SideButton0 { pressed: true },
            DigitizerEvent::TiltX { value: 10 },
            DigitizerEvent::TiltY { value: -10 },
            DigitizerEvent::SynReport,
        ]
    );
    // Leaving resets tilt to 0 and releases the held side button.
    let (dig, _) = feed(&mut state, &[0x02, 0xc0, 44, 1, 244, 1, 0, 0, 0, 0]);
    assert_eq!(
        dig,
        vec![
            DigitizerEvent::TiltX { value: 0 },
            DigitizerEvent::TiltY { value: 0 },
            DigitizerEvent::SideButton0 { pressed: false },
            DigitizerEvent::ToolPen { active: false },
            DigitizerEvent::SynReport,
        ]
    );
}

#[test]
fn unknown_usage_byte_is_dropped() {
    // A report whose usage byte is not 0x02 yields zero events.
    let mut state = DriverState::new(plain_config(2000, 1000));
    let buf = [0x01, 0xa0, 44, 1, 244, 1, 0, 0, 0, 0];
    let (dig, kbd) = feed(&mut state, &buf);
    assert_eq!(dig, Vec::new());
    assert_eq!(kbd, Vec::new());
}

#[test]
fn unknown_area_nibble_is_dropped() {
    let mut state = DriverState::new(plain_config(2000, 1000));
    let buf = [0x02, 0xb0, 44, 1, 244, 1, 0, 0, 0, 0];
    let (dig, kbd) = feed(&mut state, &buf);
    assert_eq!(dig, Vec::new());
    assert_eq!(kbd, Vec::new());
}

#[test]
fn empty_buffer_is_dropped() {
    let mut state = DriverState::new(plain_config(2000, 1000));
    let (dig, kbd) = feed(&mut state, &[]);
    assert_eq!(dig, Vec::new());
    assert_eq!(kbd, Vec::new());
}

#[test]
fn coordinates_clamp_to_the_ceiling() {
    let mut state = DriverState::new(plain_config(400, 300));
    // Raw X 500 and Y 1000 exceed the ceilings 400 and 300.
    let buf = [0x02, 0xa0, 0xe8, 0x03, 0xf4, 0x01, 0, 0, 0, 0];
    let (dig, _) = feed(&mut state, &buf);
    assert_eq!(
        dig,
        vec![
            DigitizerEvent::ToolPen { active: true },
            DigitizerEvent::PositionX { value: 400 },
            DigitizerEvent::PositionY { value: 0 }, // 300 - clamp(1000) = 0
            DigitizerEvent::SynReport,
        ]
    );
}

#[test]
fn pressure_changes_are_suppressed_when_equal() {
    let mut state = DriverState::new(plain_config(2000, 1000));
    feed(&mut state, &[0x02, 0xa0, 44, 1, 244, 1, 0, 0, 0, 0]);
    feed(&mut state, &[0x02, 0xa1, 44, 1, 244, 1, 100, 0, 0, 0]);
    // Steady touching report with a new pressure: only the pressure moves.
    let (dig, _) = feed(&mut state, &[0x02, 0xa1, 44, 1, 244, 1, 200, 0, 0, 0]);
    assert_eq!(
        dig,
        vec![DigitizerEvent::Pressure { value: 200 }, DigitizerEvent::SynReport]
    );
    // The same pressure again: silent.
    let (dig, _) = feed(&mut state, &[0x02, 0xa1, 44, 1, 244, 1, 200, 0, 0, 0]);
    assert_eq!(dig, Vec::new());
}
