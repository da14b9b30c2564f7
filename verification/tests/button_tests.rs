use intangbo_driver::buttons::{slot_for_code, ButtonSlot};
use intangbo_driver::config::{Action, Config, KeymapSchema};
use intangbo_driver::driver::DriverState;
use intangbo_driver::events::{DigitizerEvent, KeyboardEvent};

fn schema_with(button0: Action, button1: Action) -> KeymapSchema {
    KeymapSchema {
        button0,
        button1,
        button2: Action::NoOp,
        button3: Action::NoOp,
        button4: Action::NoOp,
        button5: Action::NoOp,
        button6: Action::NoOp,
        button7: Action::NoOp,
        ring0: Action::NoOp,
        ring1: Action::NoOp,
        ring_button: Action::NoOp,
    }
}

fn config_with(keymaps: Vec<KeymapSchema>) -> Config {
    Config {
        x_max_value: 1000,
        y_max_value: 1000,
        x_map: None,
        y_map: None,
        keymaps,
    }
}

fn button_report(code: u16) -> [u8; 10] {
    [0x02, 0xf0, (code >> 8) as u8, (code & 0xff) as u8, 0, 0, 0, 0, 0, 0]
}

fn feed_buttons(state: &mut DriverState, buf: &[u8]) -> Vec<KeyboardEvent> {
    let mut dig: Vec<DigitizerEvent> = Vec::new();
    let mut kbd = Vec::new();
    state.handle_device_input(buf, &mut dig, &mut kbd);
    assert_eq!(dig, Vec::new());
    kbd
}

const KEY_A: u16 = 30;
const KEY_B: u16 = 48;

#[test]
fn press_action_presses_in_order_then_syncs() {
    // Code 0x0100 bound to Press([KEY_A, KEY_B]) yields press(KEY_A),
    // press(KEY_B), sync; a following release-all yields release(KEY_A),
    // release(KEY_B), sync, in insertion order.
    let conf = config_with(vec![schema_with(
        Action::Press(vec![KEY_A, KEY_B]),
        Action::NoOp,
    )]);
    let mut state = DriverState::new(conf);
    let kbd = feed_buttons(&mut state, &button_report(0x0100));
    assert_eq!(
        kbd,
        vec![
            KeyboardEvent::Key { code: KEY_A, pressed: true },
            KeyboardEvent::Key { code: KEY_B, pressed: true },
            KeyboardEvent::SynReport,
        ]
    );
    let kbd = feed_buttons(&mut state, &button_report(0x0000));
    assert_eq!(
        kbd,
        vec![
            KeyboardEvent::Key { code: KEY_A, pressed: false },
            KeyboardEvent::Key { code: KEY_B, pressed: false },
            KeyboardEvent::SynReport,
        ]
    );
}

#[test]
fn release_all_with_nothing_held_is_a_no_op() {
    let conf = config_with(vec![schema_with(Action::NoOp, Action::NoOp)]);
    let mut state = DriverState::new(conf);
    let kbd = feed_buttons(&mut state, &button_report(0x0000));
    assert_eq!(kbd, Vec::new());
    assert_eq!(state.pressed_keys, Vec::new());
}

#[test]
fn release_all_clears_the_held_set() {
    let conf = config_with(vec![schema_with(
        Action::Press(vec![KEY_A, KEY_B]),
        Action::NoOp,
    )]);
    let mut state = DriverState::new(conf);
    feed_buttons(&mut state, &button_report(0x0100));
    assert_eq!(state.pressed_keys, vec![KEY_A, KEY_B]);
    feed_buttons(&mut state, &button_report(0x0000));
    assert_eq!(state.pressed_keys, Vec::new());
    // A second release-all emits nothing.
    let kbd = feed_buttons(&mut state, &button_report(0x0000));
    assert_eq!(kbd, Vec::new());
}

#[test]
fn repeated_press_keeps_one_copy_held() {
    let conf = config_with(vec![schema_with(
        Action::Press(vec![KEY_A]),
        Action::NoOp,
    )]);
    let mut state = DriverState::new(conf);
    feed_buttons(&mut state, &button_report(0x0100));
    let kbd = feed_buttons(&mut state, &button_report(0x0100));
    // The press event is emitted again, but the held set keeps one copy.
    assert_eq!(
        kbd,
        vec![
            KeyboardEvent::Key { code: KEY_A, pressed: true },
            KeyboardEvent::SynReport,
        ]
    );
    assert_eq!(state.pressed_keys, vec![KEY_A]);
}

#[test]
fn distinct_presses_accumulate_until_release_all() {
    // Keys from a prior, unreleased action remain held: only an explicit
    // release-all clears the set.
    let conf = config_with(vec![schema_with(
        Action::Press(vec![KEY_A]),
        Action::Press(vec![KEY_B]),
    )]);
    let mut state = DriverState::new(conf);
    feed_buttons(&mut state, &button_report(0x0100));
    feed_buttons(&mut state, &button_report(0x0200));
    assert_eq!(state.pressed_keys, vec![KEY_A, KEY_B]);
    let kbd = feed_buttons(&mut state, &button_report(0x0000));
    assert_eq!(
        kbd,
        vec![
            KeyboardEvent::Key { code: KEY_A, pressed: false },
            KeyboardEvent::Key { code: KEY_B, pressed: false },
            KeyboardEvent::SynReport,
        ]
    );
}

#[test]
fn schema_cycle_returns_to_start() {
    // With N schemas, N consecutive switch actions return the index to
    // its starting value.
    let s = || schema_with(Action::SwitchSchema, Action::NoOp);
    let conf = config_with(vec![s(), s(), s()]);
    let mut state = DriverState::new(conf);
    assert_eq!(state.keymap_index, 0);
    feed_buttons(&mut state, &button_report(0x0100));
    assert_eq!(state.keymap_index, 1);
    feed_buttons(&mut state, &button_report(0x0100));
    assert_eq!(state.keymap_index, 2);
    let kbd = feed_buttons(&mut state, &button_report(0x0100));
    assert_eq!(state.keymap_index, 0);
    assert_eq!(kbd, Vec::new());
}

#[test]
fn single_schema_switch_is_a_no_op() {
    let conf = config_with(vec![schema_with(Action::SwitchSchema, Action::NoOp)]);
    let mut state = DriverState::new(conf);
    let kbd = feed_buttons(&mut state, &button_report(0x0100));
    assert_eq!(state.keymap_index, 0);
    assert_eq!(kbd, Vec::new());
}

#[test]
fn unknown_button_code_is_dropped() {
    let conf = config_with(vec![schema_with(
        Action::Press(vec![KEY_A]),
        Action::NoOp,
    )]);
    let mut state = DriverState::new(conf);
    let kbd = feed_buttons(&mut state, &button_report(0x1234));
    assert_eq!(kbd, Vec::new());
    assert_eq!(state.pressed_keys, Vec::new());
}

#[test]
fn every_slot_code_reaches_its_binding() {
    assert_eq!(slot_for_code(0x0100), Some(ButtonSlot::Button0));
    assert_eq!(slot_for_code(0x0200), Some(ButtonSlot::Button1));
    assert_eq!(slot_for_code(0x0400), Some(ButtonSlot::Button2));
    assert_eq!(slot_for_code(0x0800), Some(ButtonSlot::Button3));
    assert_eq!(slot_for_code(0x1000), Some(ButtonSlot::Button4));
    assert_eq!(slot_for_code(0x2000), Some(ButtonSlot::Button5));
    assert_eq!(slot_for_code(0x4000), Some(ButtonSlot::Button6));
    assert_eq!(slot_for_code(0x8000), Some(ButtonSlot::Button7));
    assert_eq!(slot_for_code(0x0802), Some(ButtonSlot::Ring0));
    assert_eq!(slot_for_code(0x0801), Some(ButtonSlot::Ring1));
    assert_eq!(slot_for_code(0x0803), Some(ButtonSlot::RingButton));
    assert_eq!(slot_for_code(0x03ff), None);
}

#[test]
fn ring_slot_runs_its_action() {
    let mut schema = schema_with(Action::NoOp, Action::NoOp);
    schema.ring_button = Action::Press(vec![KEY_B]);
    let conf = config_with(vec![schema]);
    let mut state = DriverState::new(conf);
    let kbd = feed_buttons(&mut state, &button_report(0x0803));
    assert_eq!(
        kbd,
        vec![
            KeyboardEvent::Key { code: KEY_B, pressed: true },
            KeyboardEvent::SynReport,
        ]
    );
}
