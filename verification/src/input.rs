//! Translation of raw input events into editor actions.
//!
//! The engine's event objects are read by the host; this module receives
//! the values that the translation depends on (key code, modifiers, the
//! unicode value, mouse button and button mask) and decides the action.
//! Pointer positions are carried by the host next to the action.
use vstd::prelude::*;

verus! {

/// The keys that take part in shortcuts and navigation.
#[derive(Clone, Copy, Debug, PartialEq, Eq, Structural)]
pub enum Key {
    A,
    B,
    C,
    I,
    U,
    V,
    X,
    Y,
    Z,
    Backspace,
    Delete,
    Home,
    End,
    Left,
    Right,
    Up,
    Down,
    Enter,
    KpEnter,
    Tab,
    PageUp,
    PageDown,
    /// Any other key: only its unicode value can matter.
    Other,
}

/// Mouse buttons, wheel directions included.
#[derive(Clone, Copy, Debug, PartialEq, Eq, Structural)]
pub enum MouseButton {
    Left,
    Right,
    Middle,
    WheelUp,
    WheelDown,
    WheelLeft,
    WheelRight,
    Other,
}

/// Bit of the left button in a mouse button mask.
pub const MOUSE_MASK_LEFT: u64 = 1;

/// A keyboard event, as far as the translation reads it.
#[derive(Clone, Copy, Debug, PartialEq, Eq)]
pub struct KeyEvent {
    pub keycode: Key,
    pub pressed: bool,
    pub echo: bool,
    pub ctrl: bool,
    pub shift: bool,
    pub unicode: u32,
}

/// A mouse button event, as far as the translation reads it.
#[derive(Clone, Copy, Debug, PartialEq, Eq)]
pub struct MouseButtonEvent {
    pub button: MouseButton,
    pub pressed: bool,
    pub double_click: bool,
    pub shift: bool,
}

/// A mouse motion event, as far as the translation reads it.
#[derive(Clone, Copy, Debug, PartialEq, Eq)]
pub struct MouseMotionEvent {
    pub button_mask: u64,
}

/// An input event handed to [`translate_input`].
#[derive(Clone, Copy, Debug, PartialEq, Eq)]
pub enum InputEvent {
    Key(KeyEvent),
    MouseButton(MouseButtonEvent),
    MouseMotion(MouseMotionEvent),
    Other,
}

/// What an input event asks the editor to do.
///
/// The mouse actions (`Click`, `ShiftClick`, `DragSelect`, `DoubleClick`)
/// refer to the pointer position of the event they come from.
#[derive(Clone, Copy, Debug, PartialEq, Eq, Structural)]
pub enum InputAction {
    NoAction,
    InsertChar(char),
    MoveLeft,
    MoveRight,
    MoveUp,
    MoveDown,
    MoveWordLeft,
    MoveWordRight,
    MoveHome,
    MoveEnd,
    MoveDocStart,
    MoveDocEnd,
    PageUp,
    PageDown,
    SelectLeft,
    SelectRight,
    SelectUp,
    SelectDown,
    SelectWordLeft,
    SelectWordRight,
    SelectHome,
    SelectEnd,
    SelectDocStart,
    SelectDocEnd,
    SelectAll,
    Backspace,
    Delete,
    DeleteWordLeft,
    DeleteWordRight,
    Enter,
    CtrlEnter,
    Tab,
    ShiftTab,
    Cut,
    Copy,
    Paste,
    Undo,
    Redo,
    Click,
    ShiftClick,
    DragSelect,
    DoubleClick,
    ScrollUp,
    ScrollDown,
    ScrollLeft,
    ScrollRight,
    ToggleBold,
    ToggleItalic,
    ToggleUnderline,
}

/// A value that names a Unicode scalar value (a `char`).
pub open spec fn is_scalar_value(u: u32) -> bool {
    u <= 0x10FFFF && !(0xD800 <= u && u <= 0xDFFF)
}

/// A control code: general category Cc.
pub open spec fn is_control_code(u: u32) -> bool {
    u <= 0x1F || (0x7F <= u && u <= 0x9F)
}

/// A unicode value that is entered as text.
pub open spec fn is_printable(u: u32) -> bool {
    u > 0 && is_scalar_value(u) && !is_control_code(u)
}

/// The shortcut or navigation action of a key with the given modifiers,
/// if it has one.
pub open spec fn key_shortcut(key: Key, ctrl: bool, shift: bool) -> Option<InputAction> {
    let plain = !ctrl && !shift;
    let ctrl_only = ctrl && !shift;
    let shift_only = shift && !ctrl;
    let both = ctrl && shift;
    match key {
        Key::A => if ctrl_only { Some(InputAction::SelectAll) } else { None },
        Key::C => if ctrl_only { Some(InputAction::Copy) } else { None },
        Key::X => if ctrl_only { Some(InputAction::Cut) } else { None },
        Key::V => if ctrl_only { Some(InputAction::Paste) } else { None },
        Key::Y => if ctrl_only { Some(InputAction::Redo) } else { None },
        Key::B => if ctrl_only { Some(InputAction::ToggleBold) } else { None },
        Key::I => if ctrl_only { Some(InputAction::ToggleItalic) } else { None },
        Key::U => if ctrl_only { Some(InputAction::ToggleUnderline) } else { None },
        Key::Z => if ctrl_only {
            Some(InputAction::Undo)
        } else if both {
            Some(InputAction::Redo)
        } else {
            None
        },
        Key::Backspace => if ctrl_only {
            Some(InputAction::DeleteWordLeft)
        } else if !ctrl {
            Some(InputAction::Backspace)
        } else {
            None
        },
        Key::Delete => if ctrl_only {
            Some(InputAction::DeleteWordRight)
        } else if !ctrl {
            Some(InputAction::Delete)
        } else {
            None
        },
        Key::Home => Some(
            if ctrl_only {
                InputAction::MoveDocStart
            } else if both {
                InputAction::SelectDocStart
            } else if shift_only {
                InputAction::SelectHome
            } else {
                InputAction::MoveHome
            },
        ),
        Key::End => Some(
            if ctrl_only {
                InputAction::MoveDocEnd
            } else if both {
                InputAction::SelectDocEnd
            } else if shift_only {
                InputAction::SelectEnd
            } else {
                InputAction::MoveEnd
            },
        ),
        Key::Left => Some(
            if ctrl_only {
                InputAction::MoveWordLeft
            } else if both {
                InputAction::SelectWordLeft
            } else if shift_only {
                InputAction::SelectLeft
            } else {
                InputAction::MoveLeft
            },
        ),
        Key::Right => Some(
            if ctrl_only {
                InputAction::MoveWordRight
            } else if both {
                InputAction::SelectWordRight
            } else if shift_only {
                InputAction::SelectRight
            } else {
                InputAction::MoveRight
            },
        ),
        Key::Up => if shift_only {
            Some(InputAction::SelectUp)
        } else if plain {
            Some(InputAction::MoveUp)
        } else {
            None
        },
        Key::Down => if shift_only {
            Some(InputAction::SelectDown)
        } else if plain {
            Some(InputAction::MoveDown)
        } else {
            None
        },
        Key::Enter | Key::KpEnter => Some(
            if ctrl {
                InputAction::CtrlEnter
            } else {
                InputAction::Enter
            },
        ),
        Key::Tab => if ctrl {
            None
        } else if shift {
            Some(InputAction::ShiftTab)
        } else {
            Some(InputAction::Tab)
        },
        Key::PageUp => if plain { Some(InputAction::PageUp) } else { None },
        Key::PageDown => if plain { Some(InputAction::PageDown) } else { None },
        Key::Other => None,
    }
}

/// The action of a pressed (or repeated) key: its shortcut if it has one,
/// else the character it types, else nothing.
pub open spec fn key_action(e: KeyEvent) -> InputAction {
    match key_shortcut(e.keycode, e.ctrl, e.shift) {
        Some(a) => a,
        None => if is_printable(e.unicode) {
            InputAction::InsertChar(e.unicode as char)
        } else {
            InputAction::NoAction
        },
    }
}

/// The action of a pressed mouse button.
pub open spec fn mouse_button_action(e: MouseButtonEvent) -> InputAction {
    match e.button {
        MouseButton::Left => if e.double_click {
            InputAction::DoubleClick
        } else if e.shift {
            InputAction::ShiftClick
        } else {
            InputAction::Click
        },
        MouseButton::WheelUp => if e.shift {
            InputAction::ScrollLeft
        } else {
            InputAction::ScrollUp
        },
        MouseButton::WheelDown => if e.shift {
            InputAction::ScrollRight
        } else {
            InputAction::ScrollDown
        },
        MouseButton::WheelLeft => InputAction::ScrollLeft,
        MouseButton::WheelRight => InputAction::ScrollRight,
        _ => InputAction::NoAction,
    }
}

/// The action of a mouse motion: a drag while the left button is held.
pub open spec fn mouse_motion_action(e: MouseMotionEvent) -> InputAction {
    if e.button_mask & MOUSE_MASK_LEFT != 0 {
        InputAction::DragSelect
    } else {
        InputAction::NoAction
    }
}

/// The action of any input event.
pub open spec fn input_action(e: InputEvent) -> InputAction {
    match e {
        InputEvent::Key(k) => if k.pressed || k.echo {
            key_action(k)
        } else {
            InputAction::NoAction
        },
        InputEvent::MouseButton(b) => if b.pressed {
            mouse_button_action(b)
        } else {
            InputAction::NoAction
        },
        InputEvent::MouseMotion(m) => mouse_motion_action(m),
        InputEvent::Other => InputAction::NoAction,
    }
}

/// The character whose scalar value is `u`, if there is one.
///
/// Calls `char::from_u32`, which std documents to return `None` exactly when
/// `u` is not a valid `char` (above 0x10FFFF or a surrogate).
#[verifier::external_body]
fn char_from_u32(u: u32) -> (r: Option<char>)
    ensures
        r is Some <==> is_scalar_value(u),
        r matches Some(c) ==> c as u32 == u && c == u as char,
{
    char::from_u32(u)
}

/// Whether `c` is a control character (general category Cc).
pub fn is_control(c: char) -> (r: bool)
    ensures r == is_control_code(c as u32),
{
    c <= '\u{1f}' || ('\u{7f}' <= c && c <= '\u{9f}')
}

/// Translates any input event into an action.
pub fn translate_input(event: &InputEvent) -> (r: InputAction)
    ensures r == input_action(*event),
{
    match event {
        InputEvent::Key(k) => {
            if k.pressed || k.echo {
                return translate_key(k);
            }
            InputAction::NoAction
        },
        InputEvent::MouseButton(b) => {
            if b.pressed {
                return translate_mouse_button(b);
            }
            InputAction::NoAction
        },
        InputEvent::MouseMotion(m) => translate_mouse_motion(m),
        InputEvent::Other => InputAction::NoAction,
    }
}

/// Translates a pressed or repeated key into an action.
pub fn translate_key(event: &KeyEvent) -> (r: InputAction)
    ensures r == key_action(*event),
{
    let keycode = event.keycode;
    let ctrl = event.ctrl;
    let shift = event.shift;

    // Ctrl shortcuts
    if ctrl && !shift {
        match keycode {
            Key::A => { return InputAction::SelectAll; },
            Key::C => { return InputAction::Copy; },
            Key::X => { return InputAction::Cut; },
            Key::V => { return InputAction::Paste; },
            Key::Z => { return InputAction::Undo; },
            Key::Y => { return InputAction::Redo; },
            Key::B => { return InputAction::ToggleBold; },
            Key::I => { return InputAction::ToggleItalic; },
            Key::U => { return InputAction::ToggleUnderline; },
            Key::Backspace => { return InputAction::DeleteWordLeft; },
            Key::Delete => { return InputAction::DeleteWordRight; },
            _ => {},
        }
    }
    // Ctrl+Shift shortcuts
    if ctrl && shift {
        match keycode {
            Key::Z => { return InputAction::Redo; },
            Key::Home => { return InputAction::SelectDocStart; },
            Key::End => { return InputAction::SelectDocEnd; },
            _ => {},
        }
    }
    // Word and document movement
    if ctrl && !shift {
        match keycode {
            Key::Left => { return InputAction::MoveWordLeft; },
            Key::Right => { return InputAction::MoveWordRight; },
            Key::Home => { return InputAction::MoveDocStart; },
            Key::End => { return InputAction::MoveDocEnd; },
            _ => {},
        }
    }
    // Word selection
    if ctrl && shift {
        match keycode {
            Key::Left => { return InputAction::SelectWordLeft; },
            Key::Right => { return InputAction::SelectWordRight; },
            _ => {},
        }
    }
    // Selection
    if shift && !ctrl {
        match keycode {
            Key::Left => { return InputAction::SelectLeft; },
            Key::Right => { return InputAction::SelectRight; },
            Key::Up => { return InputAction::SelectUp; },
            Key::Down => { return InputAction::SelectDown; },
            Key::Home => { return InputAction::SelectHome; },
            Key::End => { return InputAction::SelectEnd; },
            _ => {},
        }
    }
    // Enter: Ctrl+Enter is a separate action
    if keycode == Key::Enter || keycode == Key::KpEnter {
        if ctrl {
            return InputAction::CtrlEnter;
        }
        return InputAction::Enter;
    }
    // Keys that work regardless of Shift
    if !ctrl {
        match keycode {
            Key::Backspace => { return InputAction::Backspace; },
            Key::Delete => { return InputAction::Delete; },
            Key::Tab => {
                if shift {
                    return InputAction::ShiftTab;
                }
                return InputAction::Tab;
            },
            _ => {},
        }
    }
    // Plain navigation
    if !ctrl && !shift {
        match keycode {
            Key::Left => { return InputAction::MoveLeft; },
            Key::Right => { return InputAction::MoveRight; },
            Key::Up => { return InputAction::MoveUp; },
            Key::Down => { return InputAction::MoveDown; },
            Key::Home => { return InputAction::MoveHome; },
            Key::End => { return InputAction::MoveEnd; },
            Key::PageUp => { return InputAction::PageUp; },
            Key::PageDown => { return InputAction::PageDown; },
            _ => {},
        }
    }
    // Printable character input
    let unicode = event.unicode;
    if unicode > 0 {
        if let Some(ch) = char_from_u32(unicode) {
            if !is_control(ch) {
                return InputAction::InsertChar(ch);
            }
        }
    }
    InputAction::NoAction
}

/// Translates a pressed mouse button into an action.
pub fn translate_mouse_button(event: &MouseButtonEvent) -> (r: InputAction)
    ensures r == mouse_button_action(*event),
{
    match event.button {
        MouseButton::Left => {
            if event.double_click {
                return InputAction::DoubleClick;
            }
            if event.shift {
                return InputAction::ShiftClick;
            }
            InputAction::Click
        },
        MouseButton::WheelUp => {
            if event.shift {
                return InputAction::ScrollLeft;
            }
            InputAction::ScrollUp
        },
        MouseButton::WheelDown => {
            if event.shift {
                return InputAction::ScrollRight;
            }
            InputAction::ScrollDown
        },
        MouseButton::WheelLeft => InputAction::ScrollLeft,
        MouseButton::WheelRight => InputAction::ScrollRight,
        _ => InputAction::NoAction,
    }
}

/// Translates a mouse motion into an action: a drag selection while the
/// left button is held.
pub fn translate_mouse_motion(event: &MouseMotionEvent) -> (r: InputAction)
    ensures r == mouse_motion_action(*event),
{
    if event.button_mask & MOUSE_MASK_LEFT != 0 {
        return InputAction::DragSelect;
    }
    InputAction::NoAction
}

/// Home and End with Ctrl go to the start and the end of the document,
/// with Ctrl+Shift they select to there, with Shift alone they select to
/// the start and end of the line, and alone they move there; whatever
/// character the key event carries.
pub proof fn law_home_end_keys(e: KeyEvent)
    ensures
        e.keycode == Key::Home && e.ctrl && !e.shift ==> key_action(e) == InputAction::MoveDocStart,
        e.keycode == Key::End && e.ctrl && !e.shift ==> key_action(e) == InputAction::MoveDocEnd,
        e.keycode == Key::Home && e.ctrl && e.shift ==> key_action(e) == InputAction::SelectDocStart,
        e.keycode == Key::End && e.ctrl && e.shift ==> key_action(e) == InputAction::SelectDocEnd,
        e.keycode == Key::Home && !e.ctrl && e.shift ==> key_action(e) == InputAction::SelectHome,
        e.keycode == Key::End && !e.ctrl && e.shift ==> key_action(e) == InputAction::SelectEnd,
        e.keycode == Key::Home && !e.ctrl && !e.shift ==> key_action(e) == InputAction::MoveHome,
        e.keycode == Key::End && !e.ctrl && !e.shift ==> key_action(e) == InputAction::MoveEnd,
        e.pressed && e.keycode == Key::End && e.ctrl && !e.shift ==> input_action(InputEvent::Key(e)) == InputAction::MoveDocEnd,
        e.pressed && e.keycode == Key::Home && e.ctrl && !e.shift ==> input_action(InputEvent::Key(e)) == InputAction::MoveDocStart,
{
}

/// Keys that go left or back never give an action that goes right or
/// forward, and the reverse: the direction of Home, End, Left and Right
/// is kept under every modifier.
pub proof fn law_key_direction(e: KeyEvent)
    ensures
        e.keycode == Key::Home || e.keycode == Key::Left ==> !(key_action(e) == InputAction::MoveDocEnd
            || key_action(e) == InputAction::MoveEnd || key_action(e) == InputAction::SelectDocEnd
            || key_action(e) == InputAction::SelectEnd || key_action(e) == InputAction::MoveRight
            || key_action(e) == InputAction::MoveWordRight || key_action(e) == InputAction::SelectRight
            || key_action(e) == InputAction::SelectWordRight),
        e.keycode == Key::End || e.keycode == Key::Right ==> !(key_action(e) == InputAction::MoveDocStart
            || key_action(e) == InputAction::MoveHome || key_action(e) == InputAction::SelectDocStart
            || key_action(e) == InputAction::SelectHome || key_action(e) == InputAction::MoveLeft
            || key_action(e) == InputAction::MoveWordLeft || key_action(e) == InputAction::SelectLeft
            || key_action(e) == InputAction::SelectWordLeft),
{
}

/// The arrow keys move one character sideways or one line up or down;
/// with Shift they extend the selection the same way; Ctrl makes the
/// sideways arrows move by words; whatever character the event carries.
pub proof fn law_arrow_keys(e: KeyEvent)
    ensures
        e.keycode == Key::Left && !e.ctrl && !e.shift ==> key_action(e) == InputAction::MoveLeft,
        e.keycode == Key::Right && !e.ctrl && !e.shift ==> key_action(e) == InputAction::MoveRight,
        e.keycode == Key::Up && !e.ctrl && !e.shift ==> key_action(e) == InputAction::MoveUp,
        e.keycode == Key::Down && !e.ctrl && !e.shift ==> key_action(e) == InputAction::MoveDown,
        e.keycode == Key::Left && !e.ctrl && e.shift ==> key_action(e) == InputAction::SelectLeft,
        e.keycode == Key::Right && !e.ctrl && e.shift ==> key_action(e) == InputAction::SelectRight,
        e.keycode == Key::Up && !e.ctrl && e.shift ==> key_action(e) == InputAction::SelectUp,
        e.keycode == Key::Down && !e.ctrl && e.shift ==> key_action(e) == InputAction::SelectDown,
        e.keycode == Key::Left && e.ctrl && !e.shift ==> key_action(e) == InputAction::MoveWordLeft,
        e.keycode == Key::Right && e.ctrl && !e.shift ==> key_action(e) == InputAction::MoveWordRight,
        e.keycode == Key::Left && e.ctrl && e.shift ==> key_action(e) == InputAction::SelectWordLeft,
        e.keycode == Key::Right && e.ctrl && e.shift ==> key_action(e) == InputAction::SelectWordRight,
{
}

/// The editing shortcuts: Ctrl with C, X, V, A, Z, Y, B, I, U copies,
/// cuts, pastes, selects all, undoes, redoes and toggles bold, italic and
/// underline; Ctrl+Shift+Z also redoes; Ctrl+Backspace and Ctrl+Delete
/// delete the word before and after the caret, and without Ctrl they
/// delete a character.
pub proof fn law_shortcut_keys(e: KeyEvent)
    ensures
        e.ctrl && !e.shift ==> {
            &&& e.keycode == Key::C ==> key_action(e) == InputAction::Copy
            &&& e.keycode == Key::X ==> key_action(e) == InputAction::Cut
            &&& e.keycode == Key::V ==> key_action(e) == InputAction::Paste
            &&& e.keycode == Key::A ==> key_action(e) == InputAction::SelectAll
            &&& e.keycode == Key::Z ==> key_action(e) == InputAction::Undo
            &&& e.keycode == Key::Y ==> key_action(e) == InputAction::Redo
            &&& e.keycode == Key::B ==> key_action(e) == InputAction::ToggleBold
            &&& e.keycode == Key::I ==> key_action(e) == InputAction::ToggleItalic
            &&& e.keycode == Key::U ==> key_action(e) == InputAction::ToggleUnderline
            &&& e.keycode == Key::Backspace ==> key_action(e) == InputAction::DeleteWordLeft
            &&& e.keycode == Key::Delete ==> key_action(e) == InputAction::DeleteWordRight
        },
        e.ctrl && e.shift && e.keycode == Key::Z ==> key_action(e) == InputAction::Redo,
        !e.ctrl && e.keycode == Key::Backspace ==> key_action(e) == InputAction::Backspace,
        !e.ctrl && e.keycode == Key::Delete ==> key_action(e) == InputAction::Delete,
{
}

} // verus!
