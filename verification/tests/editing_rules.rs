use godot_rich_text::editing::{
    alignment_code, alignment_from_code, backspace_edit, count_as_i32, format_flag, format_query_position,
    heading_level_byte, heading_level_code, initial_content_source, list_kind, offset_in_block, select_all_step,
    shift_tab_edit, size_as_u32, size_as_usize, tab_edit, toggled_flag, Alignment, BackspaceEdit, ClickCounter,
    ClickSelection, ContentSource, ListKind, PasteContent, PendingChars, RichClipboard, SelectAllLevel,
    SelectAllTarget, TabEdit,
};

#[test]
fn alignment_codes_round_trip() {
    for code in 0..4 {
        assert_eq!(alignment_code(Some(alignment_from_code(code))), code);
    }
    assert_eq!(alignment_from_code(1), Alignment::Center);
    assert_eq!(alignment_from_code(3), Alignment::Justify);
    assert_eq!(alignment_from_code(7), Alignment::Left);
    assert_eq!(alignment_from_code(-1), Alignment::Left);
    assert_eq!(alignment_code(None), 0);
    assert_eq!(alignment_code(Some(Alignment::Right)), 2);
}

#[test]
fn heading_levels_round_trip() {
    for level in 0..=255 {
        assert_eq!(heading_level_code(Some(heading_level_byte(level))), level);
    }
    assert_eq!(heading_level_byte(257), 1);
    assert_eq!(heading_level_code(None), 0);
}

#[test]
fn script_sizes_convert_by_bits() {
    assert_eq!(size_as_u32(12), 12);
    assert_eq!(size_as_u32(-1), u32::MAX);
    assert_eq!(size_as_usize(3), 3);
    assert_eq!(count_as_i32(42), 42);
    assert_eq!(count_as_i32(0x1_0000_0005), 5);
}

#[test]
fn format_flags_and_toggles() {
    assert!(format_flag(Some(true)));
    assert!(!format_flag(Some(false)));
    assert!(!format_flag(None));
    assert!(toggled_flag(None));
    assert!(toggled_flag(Some(false)));
    assert!(!toggled_flag(Some(true)));
}

#[test]
fn format_is_read_at_selection_start() {
    assert_eq!(format_query_position(true, 3, 9), 3);
    assert_eq!(format_query_position(false, 3, 9), 9);
    assert_eq!(offset_in_block(10, 4), 6);
    assert_eq!(offset_in_block(2, 4), 0);
}

#[test]
fn list_kinds() {
    assert_eq!(list_kind(true), ListKind::Decimal);
    assert_eq!(list_kind(false), ListKind::Disc);
}

#[test]
fn backspace_outdents_then_leaves_list() {
    assert_eq!(backspace_edit(true, true, Some(Some(2))), BackspaceEdit::SetIndent(1));
    assert_eq!(backspace_edit(true, true, Some(Some(0))), BackspaceEdit::RemoveFromList);
    assert_eq!(backspace_edit(true, true, Some(None)), BackspaceEdit::RemoveFromList);
    assert_eq!(backspace_edit(true, true, None), BackspaceEdit::Keep);
    assert_eq!(backspace_edit(false, true, Some(Some(3))), BackspaceEdit::DeletePrevious);
    assert_eq!(backspace_edit(true, false, None), BackspaceEdit::DeletePrevious);
}

#[test]
fn tab_navigates_indents_or_inserts() {
    assert_eq!(tab_edit(true, true, true, Some(Some(1))), TabEdit::NavigateCell(1));
    assert_eq!(tab_edit(false, true, true, Some(Some(1))), TabEdit::SetIndent(2));
    assert_eq!(tab_edit(false, true, true, Some(None)), TabEdit::SetIndent(1));
    assert_eq!(tab_edit(false, true, true, None), TabEdit::Keep);
    assert_eq!(tab_edit(false, false, true, Some(Some(1))), TabEdit::InsertTab);
    assert_eq!(tab_edit(false, true, false, None), TabEdit::InsertTab);
}

#[test]
fn shift_tab_navigates_or_outdents() {
    assert_eq!(shift_tab_edit(true, false, None), TabEdit::NavigateCell(-1));
    assert_eq!(shift_tab_edit(false, true, Some(Some(2))), TabEdit::SetIndent(1));
    assert_eq!(shift_tab_edit(false, true, Some(Some(0))), TabEdit::Keep);
    assert_eq!(shift_tab_edit(false, true, None), TabEdit::Keep);
    assert_eq!(shift_tab_edit(false, false, Some(Some(2))), TabEdit::Keep);
}

#[test]
fn indent_then_outdent_restores_level() {
    for level in [None, Some(0u8), Some(4u8)] {
        let l = level.unwrap_or(0);
        assert_eq!(tab_edit(false, true, true, Some(level)), TabEdit::SetIndent(l + 1));
        assert_eq!(shift_tab_edit(false, true, Some(Some(l + 1))), TabEdit::SetIndent(l));
    }
}

#[test]
fn select_all_escalates_inside_table() {
    assert_eq!(select_all_step(0, true), (SelectAllTarget::CellContent, 1));
    assert_eq!(select_all_step(1, true), (SelectAllTarget::Cell, 2));
    assert_eq!(select_all_step(2, true), (SelectAllTarget::Table, 3));
    assert_eq!(select_all_step(3, true), (SelectAllTarget::Document, 0));
    assert_eq!(select_all_step(2, false), (SelectAllTarget::Document, 0));
}

#[test]
fn select_all_level_cycles_and_resets() {
    let mut level = SelectAllLevel::new();
    assert_eq!(level.press(true), SelectAllTarget::CellContent);
    assert_eq!(level.press(true), SelectAllTarget::Cell);
    assert_eq!(level.press(true), SelectAllTarget::Table);
    assert_eq!(level.press(true), SelectAllTarget::Document);
    assert_eq!(level.press(true), SelectAllTarget::CellContent);
    level.reset();
    assert_eq!(level.press(true), SelectAllTarget::CellContent);
    assert_eq!(level.press(false), SelectAllTarget::Document);
    assert_eq!(level.press(true), SelectAllTarget::CellContent);
}

#[test]
fn clicks_select_caret_word_paragraph() {
    let mut clicks = ClickCounter::new();
    assert_eq!(clicks.count(), 0);
    assert_eq!(clicks.register_click(true), ClickSelection::Caret);
    assert_eq!(clicks.register_click(true), ClickSelection::Word);
    assert_eq!(clicks.register_click(true), ClickSelection::Line);
    assert_eq!(clicks.register_click(true), ClickSelection::Line);
    assert_eq!(clicks.count(), 3);
    assert_eq!(clicks.register_click(false), ClickSelection::Caret);
    assert_eq!(clicks.count(), 1);
}

#[test]
fn engine_double_click_continues_to_triple() {
    let mut clicks = ClickCounter::new();
    clicks.register_double_click();
    assert_eq!(clicks.count(), 2);
    assert_eq!(clicks.register_click(true), ClickSelection::Line);
}

#[test]
fn copy_then_paste_is_rich() {
    let mut clip = RichClipboard::new();
    assert!(clip.record_copy("bold".to_string(), "<b>bold</b>".to_string()));
    assert_eq!(clip.paste_content(&"bold".to_string()), PasteContent::Html("<b>bold</b>".to_string()));
}

#[test]
fn foreign_clipboard_text_is_plain() {
    let mut clip = RichClipboard::new();
    clip.record_copy("bold".to_string(), "<b>bold</b>".to_string());
    assert_eq!(clip.paste_content(&"other".to_string()), PasteContent::Plain("other".to_string()));
    assert_eq!(clip.paste_content(&String::new()), PasteContent::Nothing);
}

#[test]
fn empty_copy_keeps_previous_clipboard() {
    let mut clip = RichClipboard::new();
    assert_eq!(clip.paste_content(&"x".to_string()), PasteContent::Plain("x".to_string()));
    clip.record_copy("a".to_string(), "<i>a</i>".to_string());
    assert!(!clip.record_copy(String::new(), "<p></p>".to_string()));
    assert_eq!(clip.paste_content(&"a".to_string()), PasteContent::Html("<i>a</i>".to_string()));
}

#[test]
fn typed_characters_are_buffered() {
    let mut pending = PendingChars::new();
    assert_eq!(pending.take(), None);
    pending.push('h');
    pending.push('é');
    pending.push('!');
    assert_eq!(pending.take(), Some("hé!".to_string()));
    assert_eq!(pending.take(), None);
}

#[test]
fn initial_content_priority() {
    assert_eq!(initial_content_source("# t", "<p>h</p>", "t"), ContentSource::Markdown);
    assert_eq!(initial_content_source("", "<p>h</p>", "t"), ContentSource::Html);
    assert_eq!(initial_content_source("", "", "t"), ContentSource::PlainText);
    assert_eq!(initial_content_source("", "", ""), ContentSource::Empty);
}
