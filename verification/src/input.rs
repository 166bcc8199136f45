//! The state of the pointer and of the keyboard as the widget last saw them,
//! and what of it is forwarded to the browser.

use vstd::prelude::*;
use vstd::std_specs::convert::FromSpecImpl;

verus! {

/// A mouse button that the browser knows.
#[derive(Clone, Copy, Debug, PartialEq, Eq, Structural)]
pub enum MouseButton {
    Left,
    Middle,
    Right,
}

/// What a click of a button does.
#[derive(Clone, Copy, Debug, PartialEq, Eq, Structural)]
pub enum ClickAction {
    /// The click is forwarded as a click of this button.
    Click(MouseButton),
    /// The browser goes back in its history.
    Back,
    /// The browser goes forward in its history.
    Forward,
    /// Nothing happens.
    Ignore,
}

/// The button that a mouse event reports as held, for the widget's button
/// number and whether it is pressed.
pub open spec fn held_button_of(button: u32, pressed: bool) -> Option<MouseButton> {
    if !pressed {
        None
    } else if button == 1 {
        Some(MouseButton::Left)
    } else if button == 3 {
        Some(MouseButton::Middle)
    } else if button == 2 {
        Some(MouseButton::Right)
    } else {
        None
    }
}

/// What a click of the widget's button number does.
pub open spec fn click_action_of(button: u32) -> ClickAction {
    if button == 1 {
        ClickAction::Click(MouseButton::Left)
    } else if button == 2 {
        ClickAction::Click(MouseButton::Middle)
    } else if button == 3 {
        ClickAction::Click(MouseButton::Right)
    } else if button == 8 {
        ClickAction::Back
    } else if button == 9 {
        ClickAction::Forward
    } else {
        ClickAction::Ignore
    }
}

/// Where the pointer is, in whole pixels, and what its buttons do.
#[derive(Debug)]
pub struct PointerState {
    position: (i32, i32),
    pressed: bool,
    button: u32,
    over: bool,
}

/// The state of the pointer.
pub struct PointerView {
    pub position: (i32, i32),
    pub pressed: bool,
    pub button: u32,
    pub over: bool,
}

impl View for PointerState {
    type V = PointerView;

    closed spec fn view(&self) -> PointerView {
        PointerView {
            position: self.position,
            pressed: self.pressed,
            button: self.button,
            over: self.over,
        }
    }
}

impl PointerState {
    /// A pointer at the origin, outside the widget, with no button pressed.
    pub fn new() -> (state: Self)
        ensures
            state@ == (PointerView { position: (0, 0), pressed: false, button: 0, over: false }),
    {
        PointerState { position: (0, 0), pressed: false, button: 0, over: false }
    }

    /// Where the pointer is.
    pub fn position(&self) -> (position: (i32, i32))
        ensures
            position == self@.position,
    {
        self.position
    }

    /// Records where the pointer is.
    pub fn set_position(&mut self, x: i32, y: i32)
        ensures
            final(self)@ == (PointerView { position: (x, y), ..old(self)@ }),
    {
        self.position = (x, y);
    }

    /// Whether the button last seen is down.
    pub fn pressed(&self) -> (pressed: bool)
        ensures
            pressed == self@.pressed,
    {
        self.pressed
    }

    /// Records whether the button last seen is down.
    pub fn set_pressed(&mut self, pressed: bool)
        ensures
            final(self)@ == (PointerView { pressed, ..old(self)@ }),
    {
        self.pressed = pressed;
    }

    /// The widget's number of the button last seen.
    pub fn button(&self) -> (button: u32)
        ensures
            button == self@.button,
    {
        self.button
    }

    /// Records the widget's number of the button last seen.
    pub fn set_button(&mut self, button: u32)
        ensures
            final(self)@ == (PointerView { button, ..old(self)@ }),
    {
        self.button = button;
    }

    /// Whether the pointer is over the widget.
    pub fn over(&self) -> (over: bool)
        ensures
            over == self@.over,
    {
        self.over
    }

    /// Records whether the pointer is over the widget.
    pub fn set_over(&mut self, state: bool)
        ensures
            final(self)@ == (PointerView { over: state, ..old(self)@ }),
    {
        self.over = state;
    }

    /// The button that a mouse event made from this state reports as held.
    pub fn held_button(&self) -> (held: Option<MouseButton>)
        ensures
            held == held_button_of(self@.button, self@.pressed),
    {
        if !self.pressed {
            None
        } else if self.button == 1 {
            Some(MouseButton::Left)
        } else if self.button == 3 {
            Some(MouseButton::Middle)
        } else if self.button == 2 {
            Some(MouseButton::Right)
        } else {
            None
        }
    }

    /// What a click in this state does.
    pub fn click_action(&self) -> (action: ClickAction)
        ensures
            action == click_action_of(self@.button),
    {
        if self.button == 1 {
            ClickAction::Click(MouseButton::Left)
        } else if self.button == 2 {
            ClickAction::Click(MouseButton::Middle)
        } else if self.button == 3 {
            ClickAction::Click(MouseButton::Right)
        } else if self.button == 8 {
            ClickAction::Back
        } else if self.button == 9 {
            ClickAction::Forward
        } else {
            ClickAction::Ignore
        }
    }
}

impl Default for PointerState {
    fn default() -> (state: Self)
        ensures
            state@ == (PointerView { position: (0, 0), pressed: false, button: 0, over: false }),
    {
        PointerState::new()
    }
}

/// The keys that are forwarded with a key code of their own.
#[derive(Clone, Copy, Debug, PartialEq, Eq, Structural)]
pub enum KeyCode {
    Unmapped,
    Backspace,
    Tab,
    Enter,
    Control,
    Escape,
    Space,
    PageUp,
    PageDown,
    End,
    Home,
    ArrowLeft,
    ArrowUp,
    ArrowRight,
    ArrowDown,
    Equal,
    Minus,
    A,
    C,
    V,
    X,
}

/// The key behind a hardware key code of the widget.
pub open spec fn key_of(code: u32) -> KeyCode {
    if code == 22 {
        KeyCode::Backspace
    } else if code == 23 {
        KeyCode::Tab
    } else if code == 36 {
        KeyCode::Enter
    } else if code == 37 {
        KeyCode::Control
    } else if code == 9 {
        KeyCode::Escape
    } else if code == 65 {
        KeyCode::Space
    } else if code == 112 {
        KeyCode::PageUp
    } else if code == 117 {
        KeyCode::PageDown
    } else if code == 115 {
        KeyCode::End
    } else if code == 110 {
        KeyCode::Home
    } else if code == 113 {
        KeyCode::ArrowLeft
    } else if code == 111 {
        KeyCode::ArrowUp
    } else if code == 114 {
        KeyCode::ArrowRight
    } else if code == 116 {
        KeyCode::ArrowDown
    } else if code == 21 {
        KeyCode::Equal
    } else if code == 38 {
        KeyCode::A
    } else if code == 54 {
        KeyCode::C
    } else if code == 55 {
        KeyCode::V
    } else if code == 53 {
        KeyCode::X
    } else if code == 20 {
        KeyCode::Minus
    } else {
        KeyCode::Unmapped
    }
}

/// The Windows virtual-key code of a key.
pub open spec fn windows_of(key: KeyCode) -> u32 {
    match key {
        KeyCode::Backspace => 8,
        KeyCode::Tab => 9,
        KeyCode::Enter => 13,
        KeyCode::Control => 17,
        KeyCode::Escape => 27,
        KeyCode::Space => 32,
        KeyCode::PageUp => 33,
        KeyCode::PageDown => 34,
        KeyCode::End => 35,
        KeyCode::Home => 36,
        KeyCode::ArrowLeft => 37,
        KeyCode::ArrowUp => 38,
        KeyCode::ArrowRight => 39,
        KeyCode::ArrowDown => 40,
        KeyCode::Equal => 61,
        KeyCode::A => 65,
        KeyCode::C => 67,
        KeyCode::V => 86,
        KeyCode::X => 88,
        KeyCode::Minus => 173,
        KeyCode::Unmapped => 0,
    }
}

/// A key that is not `Unmapped` has a Windows code of its own, and no two keys
/// share one.
pub proof fn lemma_windows_codes_differ(a: KeyCode, b: KeyCode)
    ensures
        windows_of(a) == windows_of(b) ==> a == b,
        windows_of(a) == 0 <==> a == KeyCode::Unmapped,
{
}

impl KeyCode {
    /// The Windows virtual-key code of the key.
    pub fn windows(&self) -> (code: u32)
        ensures
            code == windows_of(*self),
    {
        match self {
            KeyCode::Backspace => 8,
            KeyCode::Tab => 9,
            KeyCode::Enter => 13,
            KeyCode::Control => 17,
            KeyCode::Escape => 27,
            KeyCode::Space => 32,
            KeyCode::PageUp => 33,
            KeyCode::PageDown => 34,
            KeyCode::End => 35,
            KeyCode::Home => 36,
            KeyCode::ArrowLeft => 37,
            KeyCode::ArrowUp => 38,
            KeyCode::ArrowRight => 39,
            KeyCode::ArrowDown => 40,
            KeyCode::Equal => 61,
            KeyCode::A => 65,
            KeyCode::C => 67,
            KeyCode::V => 86,
            KeyCode::X => 88,
            KeyCode::Minus => 173,
            KeyCode::Unmapped => 0,
        }
    }
}

impl From<u32> for KeyCode {
    fn from(value: u32) -> (key: KeyCode) {
        match value {
            22 => KeyCode::Backspace,
            23 => KeyCode::Tab,
            36 => KeyCode::Enter,
            37 => KeyCode::Control,
            9 => KeyCode::Escape,
            65 => KeyCode::Space,
            112 => KeyCode::PageUp,
            117 => KeyCode::PageDown,
            115 => KeyCode::End,
            110 => KeyCode::Home,
            113 => KeyCode::ArrowLeft,
            111 => KeyCode::ArrowUp,
            114 => KeyCode::ArrowRight,
            116 => KeyCode::ArrowDown,
            21 => KeyCode::Equal,
            38 => KeyCode::A,
            54 => KeyCode::C,
            55 => KeyCode::V,
            53 => KeyCode::X,
            20 => KeyCode::Minus,
            _ => KeyCode::Unmapped,
        }
    }
}

impl FromSpecImpl<u32> for KeyCode {
    open spec fn obeys_from_spec() -> bool {
        true
    }

    open spec fn from_spec(value: u32) -> KeyCode {
        key_of(value)
    }
}

/// What the widget last saw of the keyboard.
#[derive(Debug)]
pub struct KeyboardState {
    character: Option<char>,
    pressed: bool,
    code: u32,
    control_modifier: bool,
    shift_modifier: bool,
}

/// The state of the keyboard.
pub struct KeyboardView {
    pub character: Option<char>,
    pub pressed: bool,
    pub code: u32,
    pub control_modifier: bool,
    pub shift_modifier: bool,
}

impl View for KeyboardState {
    type V = KeyboardView;

    closed spec fn view(&self) -> KeyboardView {
        KeyboardView {
            character: self.character,
            pressed: self.pressed,
            code: self.code,
            control_modifier: self.control_modifier,
            shift_modifier: self.shift_modifier,
        }
    }
}

/// What of a key press or release is forwarded to the browser.
#[derive(Clone, Copy, Debug, PartialEq, Eq, Structural)]
pub struct KeyEventData {
    /// The key went down; else it went up.
    pub pressed: bool,
    /// The hardware key code.
    pub native_key_code: i32,
    /// The Windows virtual-key code.
    pub windows_key_code: i32,
    pub shift: bool,
    pub control: bool,
}

/// A `u32` read as the `i32` of the same bits.
pub open spec fn as_signed(value: u32) -> i32 {
    if value <= 0x7fff_ffff {
        value as i32
    } else {
        (value - 0x1_0000_0000) as i32
    }
}

/// The key event that a keyboard state is forwarded as.
pub open spec fn key_event_of(state: KeyboardView) -> KeyEventData {
    KeyEventData {
        pressed: state.pressed,
        native_key_code: as_signed(state.code),
        windows_key_code: windows_of(key_of(state.code)) as i32,
        shift: state.shift_modifier,
        control: state.control_modifier,
    }
}

/// A character in the 16 bits in which it is forwarded: the low 16 bits of
/// its scalar value.
pub open spec fn unit_of(character: char) -> u16 {
    ((character as u32) % 0x1_0000) as u16
}

/// Brings a character to the 16 bits in which it is forwarded.
pub fn character_unit(character: char) -> (unit: u16)
    ensures
        unit == unit_of(character),
{
    let scalar = character as u32;
    (scalar % 0x1_0000) as u16
}

/// The character that a keyboard state is forwarded as, in 16 bits: there is
/// one where a key that gives a character went down without the control key.
pub open spec fn typed_character_of(state: KeyboardView) -> Option<u16> {
    match state.character {
        Some(character) => if state.pressed && !state.control_modifier {
            Some(unit_of(character))
        } else {
            None
        },
        None => None,
    }
}

impl KeyboardState {
    /// A keyboard on which nothing has happened yet.
    pub fn new() -> (state: Self)
        ensures
            state@ == (KeyboardView {
                character: None,
                pressed: false,
                code: 0,
                control_modifier: false,
                shift_modifier: false,
            }),
    {
        KeyboardState {
            character: None,
            pressed: false,
            code: 0,
            control_modifier: false,
            shift_modifier: false,
        }
    }

    /// The character of the key last seen, if it gives one.
    pub fn character(&self) -> (character: Option<char>)
        ensures
            character == self@.character,
    {
        self.character
    }

    /// Records the character of the key last seen.
    pub fn set_character(&mut self, character: Option<char>)
        ensures
            final(self)@ == (KeyboardView { character, ..old(self)@ }),
    {
        self.character = character;
    }

    /// Whether the key last seen went down.
    pub fn pressed(&self) -> (pressed: bool)
        ensures
            pressed == self@.pressed,
    {
        self.pressed
    }

    /// Records whether the key last seen went down.
    pub fn set_pressed(&mut self, pressed: bool)
        ensures
            final(self)@ == (KeyboardView { pressed, ..old(self)@ }),
    {
        self.pressed = pressed;
    }

    /// The hardware code of the key last seen.
    pub fn code(&self) -> (code: u32)
        ensures
            code == self@.code,
    {
        self.code
    }

    /// The Windows virtual-key code of the key last seen; 0 for a key that
    /// has none of its own.
    pub fn windows_code(&self) -> (code: u32)
        ensures
            code == windows_of(key_of(self@.code)),
    {
        let native_code = KeyCode::from(self.code);
        native_code.windows()
    }

    /// Records the hardware code of the key last seen.
    pub fn set_code(&mut self, code: u32)
        ensures
            final(self)@ == (KeyboardView { code, ..old(self)@ }),
    {
        self.code = code;
    }

    /// Whether the control key is held.
    pub fn control_modifier(&self) -> (held: bool)
        ensures
            held == self@.control_modifier,
    {
        self.control_modifier
    }

    /// Whether the shift key is held.
    pub fn shift_modifier(&self) -> (held: bool)
        ensures
            held == self@.shift_modifier,
    {
        self.shift_modifier
    }

    /// Records which of the control and shift keys are held.
    pub fn set_modifiers(&mut self, control: bool, shift: bool)
        ensures
            final(self)@ == (KeyboardView {
                control_modifier: control,
                shift_modifier: shift,
                ..old(self)@
            }),
    {
        self.control_modifier = control;
        self.shift_modifier = shift;
    }

    /// The key event that this state is forwarded as.
    pub fn key_event(&self) -> (event: KeyEventData)
        ensures
            event == key_event_of(self@),
    {
        let windows_code = self.windows_code();
        KeyEventData {
            pressed: self.pressed,
            native_key_code: reinterpret(self.code),
            windows_key_code: windows_code as i32,
            shift: self.shift_modifier,
            control: self.control_modifier,
        }
    }

    /// The character that this state is forwarded as, if it is.
    pub fn typed_character(&self) -> (typed: Option<u16>)
        ensures
            typed == typed_character_of(self@),
    {
        match self.character {
            Some(character) => {
                if self.pressed && !self.control_modifier {
                    Some(character_unit(character))
                } else {
                    None
                }
            },
            None => None,
        }
    }
}

impl Default for KeyboardState {
    fn default() -> (state: Self)
        ensures
            state@ == (KeyboardView {
                character: None,
                pressed: false,
                code: 0,
                control_modifier: false,
                shift_modifier: false,
            }),
    {
        KeyboardState::new()
    }
}

/// Reads a `u32` as the `i32` of the same bits.
fn reinterpret(value: u32) -> (signed: i32)
    ensures
        signed == as_signed(value),
{
    if value <= 0x7fff_ffff {
        value as i32
    } else {
        let low: u32 = value - 0x8000_0000;
        let lifted: i64 = low as i64 - 0x8000_0000;
        lifted as i32
    }
}

} // verus!
