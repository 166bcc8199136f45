use frame_pipeline::input::{
    character_unit, ClickAction, KeyCode, KeyEventData, KeyboardState, MouseButton, PointerState,
};

#[test]
fn hardware_codes_map_to_keys() {
    let table = [
        (22, KeyCode::Backspace),
        (23, KeyCode::Tab),
        (36, KeyCode::Enter),
        (37, KeyCode::Control),
        (9, KeyCode::Escape),
        (65, KeyCode::Space),
        (112, KeyCode::PageUp),
        (117, KeyCode::PageDown),
        (115, KeyCode::End),
        (110, KeyCode::Home),
        (113, KeyCode::ArrowLeft),
        (111, KeyCode::ArrowUp),
        (114, KeyCode::ArrowRight),
        (116, KeyCode::ArrowDown),
        (21, KeyCode::Equal),
        (38, KeyCode::A),
        (54, KeyCode::C),
        (55, KeyCode::V),
        (53, KeyCode::X),
        (20, KeyCode::Minus),
        (0, KeyCode::Unmapped),
        (1000, KeyCode::Unmapped),
    ];
    for (code, key) in table {
        assert_eq!(KeyCode::from(code), key);
    }
}

#[test]
fn keys_have_their_windows_codes() {
    let table = [
        (KeyCode::Backspace, 8),
        (KeyCode::Tab, 9),
        (KeyCode::Enter, 13),
        (KeyCode::Control, 17),
        (KeyCode::Escape, 27),
        (KeyCode::Space, 32),
        (KeyCode::PageUp, 33),
        (KeyCode::PageDown, 34),
        (KeyCode::End, 35),
        (KeyCode::Home, 36),
        (KeyCode::ArrowLeft, 37),
        (KeyCode::ArrowUp, 38),
        (KeyCode::ArrowRight, 39),
        (KeyCode::ArrowDown, 40),
        (KeyCode::Equal, 61),
        (KeyCode::A, 65),
        (KeyCode::C, 67),
        (KeyCode::V, 86),
        (KeyCode::X, 88),
        (KeyCode::Minus, 173),
        (KeyCode::Unmapped, 0),
    ];
    for (key, code) in table {
        assert_eq!(key.windows(), code);
    }
}

#[test]
fn keyboard_state_remembers_what_was_set() {
    let mut state = KeyboardState::new();
    assert_eq!(state.character(), None);
    assert!(!state.pressed());
    assert_eq!(state.code(), 0);
    assert!(!state.control_modifier());
    assert!(!state.shift_modifier());
    state.set_character(Some('x'));
    state.set_pressed(true);
    state.set_code(53);
    state.set_modifiers(true, false);
    assert_eq!(state.character(), Some('x'));
    assert!(state.pressed());
    assert_eq!(state.code(), 53);
    assert!(state.control_modifier());
    assert!(!state.shift_modifier());
    state.set_modifiers(false, true);
    assert!(!state.control_modifier());
    assert!(state.shift_modifier());
    assert_eq!(state.code(), 53);
}

#[test]
fn setters_leave_the_other_fields() {
    let mut state = KeyboardState::default();
    state.set_code(36);
    state.set_pressed(true);
    state.set_character(None);
    assert_eq!(state.code(), 36);
    assert!(state.pressed());
    state.set_code(37);
    assert!(state.pressed());
    assert_eq!(state.character(), None);
}

#[test]
fn windows_code_follows_the_hardware_code() {
    let mut state = KeyboardState::new();
    assert_eq!(state.windows_code(), 0);
    state.set_code(36);
    assert_eq!(state.windows_code(), 13);
    state.set_code(20);
    assert_eq!(state.windows_code(), 173);
    state.set_code(12345);
    assert_eq!(state.windows_code(), 0);
}

#[test]
fn key_event_carries_the_codes_and_the_modifiers() {
    let mut state = KeyboardState::new();
    state.set_code(38);
    state.set_pressed(true);
    state.set_modifiers(true, true);
    assert_eq!(
        state.key_event(),
        KeyEventData { pressed: true, native_key_code: 38, windows_key_code: 65, shift: true, control: true }
    );
    state.set_pressed(false);
    state.set_modifiers(false, false);
    state.set_code(0xffff_ffff);
    assert_eq!(
        state.key_event(),
        KeyEventData { pressed: false, native_key_code: -1, windows_key_code: 0, shift: false, control: false }
    );
    state.set_code(0x8000_0000);
    assert_eq!(state.key_event().native_key_code, i32::MIN);
    state.set_code(0x7fff_ffff);
    assert_eq!(state.key_event().native_key_code, i32::MAX);
}

#[test]
fn character_is_typed_when_a_key_goes_down_without_control() {
    let mut state = KeyboardState::new();
    state.set_character(Some('a'));
    assert_eq!(state.typed_character(), None);
    state.set_pressed(true);
    assert_eq!(state.typed_character(), Some(97));
    state.set_modifiers(false, true);
    assert_eq!(state.typed_character(), Some(97));
    state.set_modifiers(true, false);
    assert_eq!(state.typed_character(), None);
    state.set_modifiers(false, false);
    state.set_character(None);
    assert_eq!(state.typed_character(), None);
    state.set_character(Some('\u{20ac}'));
    assert_eq!(state.typed_character(), Some(0x20ac));
    state.set_character(Some('\u{1f600}'));
    assert_eq!(state.typed_character(), Some(0xf600));
}

#[test]
fn pointer_state_remembers_what_was_set() {
    let mut state = PointerState::new();
    assert_eq!(state.position(), (0, 0));
    assert!(!state.pressed());
    assert_eq!(state.button(), 0);
    assert!(!state.over());
    state.set_position(12, -7);
    state.set_pressed(true);
    state.set_button(3);
    state.set_over(true);
    assert_eq!(state.position(), (12, -7));
    assert!(state.pressed());
    assert_eq!(state.button(), 3);
    assert!(state.over());
    let fresh = PointerState::default();
    assert_eq!(fresh.position(), (0, 0));
}

#[test]
fn held_button_is_reported_only_while_pressed() {
    let mut state = PointerState::new();
    state.set_button(1);
    assert_eq!(state.held_button(), None);
    state.set_pressed(true);
    assert_eq!(state.held_button(), Some(MouseButton::Left));
    state.set_button(3);
    assert_eq!(state.held_button(), Some(MouseButton::Middle));
    state.set_button(2);
    assert_eq!(state.held_button(), Some(MouseButton::Right));
    state.set_button(4);
    assert_eq!(state.held_button(), None);
    state.set_button(0);
    assert_eq!(state.held_button(), None);
}

#[test]
fn click_follows_the_button() {
    let mut state = PointerState::new();
    let table = [
        (1, ClickAction::Click(MouseButton::Left)),
        (2, ClickAction::Click(MouseButton::Middle)),
        (3, ClickAction::Click(MouseButton::Right)),
        (8, ClickAction::Back),
        (9, ClickAction::Forward),
        (0, ClickAction::Ignore),
        (4, ClickAction::Ignore),
        (10, ClickAction::Ignore),
    ];
    for (button, action) in table {
        state.set_button(button);
        assert_eq!(state.click_action(), action);
    }
}

#[test]
fn character_is_brought_to_sixteen_bits() {
    assert_eq!(character_unit('a'), 97);
    assert_eq!(character_unit('\u{0}'), 0);
    assert_eq!(character_unit('\u{ffff}'), 0xffff);
    assert_eq!(character_unit('\u{10000}'), 0);
    assert_eq!(character_unit('\u{1f600}'), 0xf600);
    for c in ['x', '\u{e9}', '\u{20ac}', '\u{10ffff}'] {
        assert_eq!(character_unit(c), c as u16);
    }
}
