use godot_rich_text::fonts::{FontIds, FontRegistration, FontSlot, FontSource, FontStep, FontsProvided};

fn provided(default: bool, bold: bool, monospace: bool) -> FontsProvided {
    FontsProvided { default, bold, italic: false, bold_italic: false, monospace }
}

#[test]
fn embedded_faces_without_user_fonts() {
    let (mut reg, first) = FontRegistration::start(provided(false, false, false));
    assert_eq!(first, FontStep::Register(FontSlot::Default, FontSource::Embedded));
    assert_eq!(reg.advance(Some(1)), FontStep::SetDefaultFont(1));
    assert_eq!(reg.advance(None), FontStep::Register(FontSlot::Bold, FontSource::Embedded));
    assert_eq!(reg.advance(Some(2)), FontStep::Register(FontSlot::Italic, FontSource::Embedded));
    assert_eq!(reg.advance(Some(3)), FontStep::Register(FontSlot::BoldItalic, FontSource::Embedded));
    // There is no embedded monospace face.
    assert_eq!(reg.advance(Some(4)), FontStep::Done);
    assert_eq!(
        reg.ids(),
        FontIds { default: Some(1), bold: Some(2), italic: Some(3), bold_italic: Some(4), monospace: None }
    );
    assert_eq!(reg.advance(None), FontStep::Done);
}

#[test]
fn user_font_wins_over_embedded() {
    let (mut reg, first) = FontRegistration::start(provided(true, true, true));
    assert_eq!(first, FontStep::Register(FontSlot::Default, FontSource::User));
    assert_eq!(reg.advance(Some(10)), FontStep::SetDefaultFont(10));
    assert_eq!(reg.advance(None), FontStep::Register(FontSlot::Bold, FontSource::User));
    assert_eq!(reg.advance(Some(11)), FontStep::Register(FontSlot::Italic, FontSource::Embedded));
    assert_eq!(reg.advance(Some(12)), FontStep::Register(FontSlot::BoldItalic, FontSource::Embedded));
    assert_eq!(reg.advance(Some(13)), FontStep::Register(FontSlot::Monospace, FontSource::User));
    assert_eq!(reg.advance(Some(14)), FontStep::SetMonospaceFamily(14));
    assert_eq!(reg.advance(None), FontStep::Done);
    assert_eq!(
        reg.ids(),
        FontIds { default: Some(10), bold: Some(11), italic: Some(12), bold_italic: Some(13), monospace: Some(14) }
    );
}

#[test]
fn unusable_user_font_falls_back() {
    let (mut reg, _) = FontRegistration::start(provided(true, false, true));
    assert_eq!(reg.advance(None), FontStep::Register(FontSlot::Default, FontSource::Embedded));
    assert_eq!(reg.advance(Some(5)), FontStep::SetDefaultFont(5));
    assert_eq!(reg.advance(None), FontStep::Register(FontSlot::Bold, FontSource::Embedded));
    assert_eq!(reg.advance(None), FontStep::Register(FontSlot::Italic, FontSource::Embedded));
    assert_eq!(reg.advance(None), FontStep::Register(FontSlot::BoldItalic, FontSource::Embedded));
    assert_eq!(reg.advance(None), FontStep::Register(FontSlot::Monospace, FontSource::User));
    // An unusable monospace font has no embedded fallback.
    assert_eq!(reg.advance(None), FontStep::Done);
    assert_eq!(
        reg.ids(),
        FontIds { default: Some(5), bold: None, italic: None, bold_italic: None, monospace: None }
    );
}

#[test]
fn missing_default_face_skips_default_font() {
    let (mut reg, _) = FontRegistration::start(provided(false, false, false));
    assert_eq!(reg.advance(None), FontStep::Register(FontSlot::Bold, FontSource::Embedded));
}

#[test]
fn registration_ends_within_fifteen_steps() {
    for mask in 0..32u32 {
        let p = FontsProvided {
            default: mask & 1 != 0,
            bold: mask & 2 != 0,
            italic: mask & 4 != 0,
            bold_italic: mask & 8 != 0,
            monospace: mask & 16 != 0,
        };
        for outcome in [None, Some(7)] {
            let (mut reg, mut step) = FontRegistration::start(p);
            let mut steps = 0;
            while step != FontStep::Done {
                step = reg.advance(outcome);
                steps += 1;
                assert!(steps <= 15);
            }
        }
    }
}
