use godot_rich_text::commands::{MoveMode, MoveOp};
use godot_rich_text::document::Selection;
use godot_rich_text::editing::{BackspaceEdit, ClickSelection, ContentSource, PasteContent, SelectAllTarget, TabEdit};
use godot_rich_text::session::{click_selection, EditorSession, FormatFlag};

fn session_with(text: &str) -> EditorSession<u32> {
    let mut s = EditorSession::new(true);
    s.set_plain_text(text);
    let _ = s.poll_edit_events();
    let _ = s.take_due_signals();
    s
}

#[test]
fn plain_text_round_trips() {
    let mut s = session_with("Hello world");
    assert_eq!(s.plain_text(), "Hello world");
    assert_eq!(s.character_count(), 11);
    assert_eq!(s.block_count(), 1);
}

#[test]
fn viewer_session_has_no_caret() {
    let mut s: EditorSession<u32> = EditorSession::new(false);
    assert!(!s.has_cursor());
    assert_eq!(s.caret_position(), 0);
    assert!(!s.set_caret_position(3));
    assert_eq!(s.caret_and_anchor(), None);
    assert_eq!(s.backspace(), None);
    assert_eq!(s.tab(), None);
    assert_eq!(s.select_all_escalating(), None);
    assert_eq!(s.copy_plain(), None);
    assert!(!s.has_selection());
}

#[test]
fn initial_content_prefers_markdown() {
    let mut s: EditorSession<u32> = EditorSession::new(true);
    assert_eq!(s.load_initial("", "", "plain"), ContentSource::PlainText);
    assert_eq!(s.plain_text(), "plain");
    let mut empty: EditorSession<u32> = EditorSession::new(true);
    assert_eq!(empty.load_initial("", "", ""), ContentSource::Empty);
    assert_eq!(empty.plain_text(), "");
}

#[test]
fn caret_moves_and_selects() {
    let mut s = session_with("Hello");
    assert!(s.move_caret(MoveOp::End, MoveMode::MoveAnchor));
    assert_eq!(s.caret_position(), 5);
    assert!(s.move_caret(MoveOp::Start, MoveMode::KeepAnchor));
    assert!(s.has_selection());
    assert_eq!(s.selected_text(), "Hello");
    assert!(s.deselect());
    assert!(!s.has_selection());
    assert!(s.set_caret_position(2));
    assert_eq!(s.caret_and_anchor(), Some((2, 2)));
}

#[test]
fn typed_characters_arrive_together() {
    let mut s = session_with("Hello");
    s.move_caret(MoveOp::End, MoveMode::MoveAnchor);
    s.push_char(',');
    s.push_char(' ');
    s.push_char('x');
    assert_eq!(s.flush_pending_chars(), Some(", x".to_string()));
    assert_eq!(s.flush_pending_chars(), None);
    assert_eq!(s.plain_text(), "Hello, x");
    let events = s.poll_edit_events();
    assert!(events.content_changed && events.text_changed);
    assert!(s.take_due_signals().text_changed);
}

#[test]
fn undo_restores_text() {
    let mut s = session_with("abc");
    s.move_caret(MoveOp::End, MoveMode::MoveAnchor);
    s.insert_text("def");
    assert_eq!(s.plain_text(), "abcdef");
    assert!(s.can_undo());
    s.undo();
    assert_eq!(s.plain_text(), "abc");
    assert!(s.can_redo());
    s.redo();
    assert_eq!(s.plain_text(), "abcdef");
}

#[test]
fn backspace_deletes_outside_lists() {
    let mut s = session_with("abc");
    s.move_caret(MoveOp::End, MoveMode::MoveAnchor);
    let r = s.backspace().unwrap();
    assert_eq!(r.3, BackspaceEdit::DeletePrevious);
    assert_eq!(s.plain_text(), "ab");
}

#[test]
fn tab_inserts_tab_character_in_text() {
    let mut s = session_with("ab");
    s.move_caret(MoveOp::End, MoveMode::MoveAnchor);
    let r = s.tab().unwrap();
    assert_eq!(r.4, TabEdit::InsertTab);
    assert_eq!(s.plain_text(), "ab\t");
    let r = s.shift_tab().unwrap();
    assert_eq!(r.3, TabEdit::Keep);
}

#[test]
fn bold_toggles_at_caret() {
    let mut s = session_with("word");
    s.select(Selection::Document);
    assert!(!s.is_bold());
    assert!(s.toggle(FormatFlag::Bold));
    assert!(s.is_bold());
    assert!(!s.is_italic());
    s.set_italic(true);
    assert!(s.is_italic());
    s.set_bold(false);
    assert!(!s.is_bold());
}

#[test]
fn select_all_outside_table_selects_document() {
    let mut s = session_with("some text");
    assert_eq!(s.select_all_escalating(), Some((false, SelectAllTarget::Document)));
    assert_eq!(s.selected_text(), "some text");
    assert_eq!(s.copy_plain(), Some("some text".to_string()));
}

#[test]
fn rich_copy_then_paste_keeps_html() {
    let mut s = session_with("copy me");
    s.select(Selection::Document);
    let plain = s.copy_rich().unwrap();
    assert_eq!(plain, "copy me");
    s.move_caret(MoveOp::End, MoveMode::MoveAnchor);
    match s.paste_rich(&plain) {
        PasteContent::Html(h) => assert!(h.contains("copy me")),
        other => panic!("expected the kept HTML, got {:?}", other),
    }
    assert_eq!(s.paste_rich(&"zz".to_string()), PasteContent::Plain("zz".to_string()));
    assert!(s.plain_text().ends_with("zz"));
}

#[test]
fn copy_without_selection_gives_nothing() {
    let mut s = session_with("text");
    assert_eq!(s.copy_rich(), None);
    assert_eq!(s.copy_plain(), None);
    assert_eq!(s.paste_rich(&String::new()), PasteContent::Nothing);
}

#[test]
fn clicks_count_in_session() {
    let mut s = session_with("a b");
    assert_eq!(s.register_click(false), ClickSelection::Caret);
    assert_eq!(s.register_click(true), ClickSelection::Word);
    assert_eq!(s.register_click(true), ClickSelection::Line);
    assert_eq!(click_selection(ClickSelection::Caret), None);
    assert_eq!(click_selection(ClickSelection::Word), Some(Selection::WordUnderCursor));
    assert_eq!(click_selection(ClickSelection::Line), Some(Selection::LineUnderCursor));
    s.register_double_click();
    assert_eq!(s.register_click(true), ClickSelection::Line);
}

#[test]
fn images_are_cached_and_cleared() {
    let mut s = session_with("x");
    let mut images = s.take_images();
    assert_eq!(images.get_or_load("pic", |_| Some(7)), Some(&7));
    s.restore_images(images);
    let images = s.take_images();
    assert_eq!(images.get("pic"), Some(&7));
    s.restore_images(images);
    s.set_plain_text("y");
    assert!(!s.take_images().contains("pic"));
}

#[test]
fn table_navigation_with_tab_and_enter() {
    let mut s = session_with("");
    s.insert_table(2, 2);
    let _ = s.poll_edit_events();
    s.move_caret(MoveOp::Start, MoveMode::MoveAnchor);
    assert!(s.is_in_table());
    let r = s.tab().unwrap();
    assert_eq!(r.4, TabEdit::NavigateCell(1));
    assert!(s.is_in_table());
    let r = s.enter();
    assert_eq!(r, Some((0, 1, 2)));
    assert!(s.is_in_table());
    let r = s.shift_tab().unwrap();
    assert_eq!(r.3, TabEdit::NavigateCell(-1));
    assert_eq!(s.select_all_escalating(), Some((true, SelectAllTarget::CellContent)));
    assert_eq!(s.select_all_escalating(), Some((true, SelectAllTarget::Cell)));
    s.reset_select_all();
    assert_eq!(s.select_all_escalating(), Some((true, SelectAllTarget::CellContent)));
}

#[test]
fn negative_table_size_inserts_nothing() {
    let mut s = session_with("x");
    s.insert_table(-1, 2);
    assert!(!s.is_in_table());
    assert_eq!(s.plain_text(), "x");
}

#[test]
fn enter_in_last_row_reports_the_cell() {
    let mut s = session_with("");
    s.insert_table(1, 1);
    s.move_caret(MoveOp::Start, MoveMode::MoveAnchor);
    assert!(s.is_in_table());
    assert_eq!(s.enter(), Some((0, 0, 1)));
}
