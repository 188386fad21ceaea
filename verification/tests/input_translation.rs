use godot_rich_text::input::{
    is_control, translate_input, translate_key, translate_mouse_button, translate_mouse_motion, InputAction, InputEvent,
    Key, KeyEvent, MouseButton, MouseButtonEvent, MouseMotionEvent,
};

fn key(keycode: Key, ctrl: bool, shift: bool, unicode: u32) -> KeyEvent {
    KeyEvent { keycode, pressed: true, echo: false, ctrl, shift, unicode }
}

#[test]
fn ctrl_shortcuts() {
    assert_eq!(translate_key(&key(Key::A, true, false, 0)), InputAction::SelectAll);
    assert_eq!(translate_key(&key(Key::C, true, false, 0)), InputAction::Copy);
    assert_eq!(translate_key(&key(Key::X, true, false, 0)), InputAction::Cut);
    assert_eq!(translate_key(&key(Key::V, true, false, 0)), InputAction::Paste);
    assert_eq!(translate_key(&key(Key::Z, true, false, 0)), InputAction::Undo);
    assert_eq!(translate_key(&key(Key::Y, true, false, 0)), InputAction::Redo);
    assert_eq!(translate_key(&key(Key::B, true, false, 0)), InputAction::ToggleBold);
    assert_eq!(translate_key(&key(Key::I, true, false, 0)), InputAction::ToggleItalic);
    assert_eq!(translate_key(&key(Key::U, true, false, 0)), InputAction::ToggleUnderline);
    assert_eq!(translate_key(&key(Key::Backspace, true, false, 0)), InputAction::DeleteWordLeft);
    assert_eq!(translate_key(&key(Key::Delete, true, false, 0)), InputAction::DeleteWordRight);
}

#[test]
fn ctrl_shift_shortcuts() {
    assert_eq!(translate_key(&key(Key::Z, true, true, 0)), InputAction::Redo);
    assert_eq!(translate_key(&key(Key::Home, true, true, 0)), InputAction::SelectDocStart);
    assert_eq!(translate_key(&key(Key::End, true, true, 0)), InputAction::SelectDocEnd);
    assert_eq!(translate_key(&key(Key::Left, true, true, 0)), InputAction::SelectWordLeft);
    assert_eq!(translate_key(&key(Key::Right, true, true, 0)), InputAction::SelectWordRight);
    // Ctrl+Shift+A is no shortcut: it types its character if it has one.
    assert_eq!(translate_key(&key(Key::A, true, true, 65)), InputAction::InsertChar('A'));
}

#[test]
fn navigation_keys() {
    assert_eq!(translate_key(&key(Key::Left, false, false, 0)), InputAction::MoveLeft);
    assert_eq!(translate_key(&key(Key::Left, true, false, 0)), InputAction::MoveWordLeft);
    assert_eq!(translate_key(&key(Key::Left, false, true, 0)), InputAction::SelectLeft);
    assert_eq!(translate_key(&key(Key::Up, false, false, 0)), InputAction::MoveUp);
    assert_eq!(translate_key(&key(Key::Up, false, true, 0)), InputAction::SelectUp);
    assert_eq!(translate_key(&key(Key::Up, true, false, 0)), InputAction::NoAction);
    assert_eq!(translate_key(&key(Key::Home, false, false, 0)), InputAction::MoveHome);
    assert_eq!(translate_key(&key(Key::Home, true, false, 0)), InputAction::MoveDocStart);
    assert_eq!(translate_key(&key(Key::End, false, true, 0)), InputAction::SelectEnd);
    assert_eq!(translate_key(&key(Key::PageUp, false, false, 0)), InputAction::PageUp);
    assert_eq!(translate_key(&key(Key::PageDown, false, true, 0)), InputAction::NoAction);
}

#[test]
fn editing_keys() {
    assert_eq!(translate_key(&key(Key::Enter, false, false, 13)), InputAction::Enter);
    assert_eq!(translate_key(&key(Key::KpEnter, false, true, 13)), InputAction::Enter);
    assert_eq!(translate_key(&key(Key::Enter, true, false, 13)), InputAction::CtrlEnter);
    assert_eq!(translate_key(&key(Key::Enter, true, true, 13)), InputAction::CtrlEnter);
    assert_eq!(translate_key(&key(Key::Backspace, false, true, 8)), InputAction::Backspace);
    assert_eq!(translate_key(&key(Key::Delete, false, false, 127)), InputAction::Delete);
    assert_eq!(translate_key(&key(Key::Tab, false, false, 9)), InputAction::Tab);
    assert_eq!(translate_key(&key(Key::Tab, false, true, 9)), InputAction::ShiftTab);
    assert_eq!(translate_key(&key(Key::Tab, true, false, 9)), InputAction::NoAction);
    assert_eq!(translate_key(&key(Key::Backspace, true, true, 8)), InputAction::NoAction);
}

#[test]
fn typed_characters() {
    assert_eq!(translate_key(&key(Key::Other, false, false, 'a' as u32)), InputAction::InsertChar('a'));
    assert_eq!(translate_key(&key(Key::Other, false, true, 'é' as u32)), InputAction::InsertChar('é'));
    assert_eq!(translate_key(&key(Key::A, false, false, 'a' as u32)), InputAction::InsertChar('a'));
    assert_eq!(translate_key(&key(Key::Other, false, false, 0)), InputAction::NoAction);
    // Control codes, surrogates and values past the last scalar type nothing.
    assert_eq!(translate_key(&key(Key::Other, false, false, 0x1b)), InputAction::NoAction);
    assert_eq!(translate_key(&key(Key::Other, false, false, 0x85)), InputAction::NoAction);
    assert_eq!(translate_key(&key(Key::Other, false, false, 0xD800)), InputAction::NoAction);
    assert_eq!(translate_key(&key(Key::Other, false, false, 0x110000)), InputAction::NoAction);
    assert_eq!(translate_key(&key(Key::Other, false, false, 0xA0)), InputAction::InsertChar('\u{a0}'));
}

#[test]
fn control_characters() {
    assert!(is_control('\0'));
    assert!(is_control('\u{1f}'));
    assert!(is_control('\u{7f}'));
    assert!(is_control('\u{9f}'));
    assert!(!is_control(' '));
    assert!(!is_control('\u{a0}'));
    assert!(!is_control('z'));
}

#[test]
fn mouse_buttons() {
    let b = |button, double_click, shift| MouseButtonEvent { button, pressed: true, double_click, shift };
    assert_eq!(translate_mouse_button(&b(MouseButton::Left, false, false)), InputAction::Click);
    assert_eq!(translate_mouse_button(&b(MouseButton::Left, false, true)), InputAction::ShiftClick);
    assert_eq!(translate_mouse_button(&b(MouseButton::Left, true, true)), InputAction::DoubleClick);
    assert_eq!(translate_mouse_button(&b(MouseButton::WheelUp, false, false)), InputAction::ScrollUp);
    assert_eq!(translate_mouse_button(&b(MouseButton::WheelUp, false, true)), InputAction::ScrollLeft);
    assert_eq!(translate_mouse_button(&b(MouseButton::WheelDown, false, false)), InputAction::ScrollDown);
    assert_eq!(translate_mouse_button(&b(MouseButton::WheelDown, false, true)), InputAction::ScrollRight);
    assert_eq!(translate_mouse_button(&b(MouseButton::WheelLeft, false, false)), InputAction::ScrollLeft);
    assert_eq!(translate_mouse_button(&b(MouseButton::WheelRight, false, false)), InputAction::ScrollRight);
    assert_eq!(translate_mouse_button(&b(MouseButton::Right, false, false)), InputAction::NoAction);
}

#[test]
fn mouse_motion() {
    assert_eq!(translate_mouse_motion(&MouseMotionEvent { button_mask: 1 }), InputAction::DragSelect);
    assert_eq!(translate_mouse_motion(&MouseMotionEvent { button_mask: 3 }), InputAction::DragSelect);
    assert_eq!(translate_mouse_motion(&MouseMotionEvent { button_mask: 2 }), InputAction::NoAction);
    assert_eq!(translate_mouse_motion(&MouseMotionEvent { button_mask: 0 }), InputAction::NoAction);
}

#[test]
fn event_dispatch() {
    let mut k = key(Key::A, true, false, 0);
    assert_eq!(translate_input(&InputEvent::Key(k)), InputAction::SelectAll);
    k.pressed = false;
    assert_eq!(translate_input(&InputEvent::Key(k)), InputAction::NoAction);
    k.echo = true;
    assert_eq!(translate_input(&InputEvent::Key(k)), InputAction::SelectAll);
    let released = MouseButtonEvent { button: MouseButton::Left, pressed: false, double_click: false, shift: false };
    assert_eq!(translate_input(&InputEvent::MouseButton(released)), InputAction::NoAction);
    let pressed = MouseButtonEvent { pressed: true, ..released };
    assert_eq!(translate_input(&InputEvent::MouseButton(pressed)), InputAction::Click);
    assert_eq!(translate_input(&InputEvent::MouseMotion(MouseMotionEvent { button_mask: 1 })), InputAction::DragSelect);
    assert_eq!(translate_input(&InputEvent::Other), InputAction::NoAction);
}
