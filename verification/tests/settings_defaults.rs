use godot_rich_text::settings::{EditSettings, ViewSettings, WrapMode};

#[test]
fn wrap_modes() {
    assert!(WrapMode::Word.wraps());
    assert!(!WrapMode::NoWrap.wraps());
    assert!(WrapMode::NoWrap.scrolls_horizontally());
    assert!(!WrapMode::Word.scrolls_horizontally());
    assert_eq!(WrapMode::default(), WrapMode::NoWrap);
}

#[test]
fn editor_defaults() {
    assert_eq!(
        EditSettings::default(),
        EditSettings {
            editable: true,
            wrap_mode: WrapMode::NoWrap,
            default_font_size: 24,
            caret_blink: true,
            scroll_active: true,
        }
    );
}

#[test]
fn viewer_defaults() {
    assert_eq!(
        ViewSettings::default(),
        ViewSettings { wrap_mode: WrapMode::NoWrap, default_font_size: 24, scroll_active: true, selectable: false }
    );
}
