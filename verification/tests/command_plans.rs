use godot_rich_text::commands::{
    click_outcome, flushes_pending, plan_edit_input, plan_readonly_input, plan_view_input, selection_fallback, ClickOutcome,
    EditCommand,
    EditPlan, HitKind, MoveMode, MoveOp,
    ReadonlyCommand, ViewCommand, ViewPlan, SCROLL_STEP,
};
use godot_rich_text::input::InputAction;

#[test]
fn typing_is_buffered_without_settling() {
    assert_eq!(
        plan_edit_input(InputAction::InsertChar('x')),
        EditPlan {
            clear_preferred_x: true,
            reset_select_all: true,
            command: EditCommand::BufferChar('x'),
            settle: false,
            accept: true,
        }
    );
}

#[test]
fn unhandled_event_is_not_consumed() {
    let plan = plan_edit_input(InputAction::NoAction);
    assert_eq!(plan.command, EditCommand::Nothing);
    assert!(!plan.accept);
    assert!(!plan.clear_preferred_x);
}

#[test]
fn vertical_moves_keep_the_column() {
    let up = plan_edit_input(InputAction::MoveUp);
    assert_eq!(up.command, EditCommand::MoveVertical(-1, MoveMode::MoveAnchor));
    assert!(!up.clear_preferred_x && up.settle);
    let page = plan_edit_input(InputAction::PageDown);
    assert_eq!(page.command, EditCommand::MovePage(1));
    assert!(!page.clear_preferred_x);
    let left = plan_edit_input(InputAction::MoveLeft);
    assert_eq!(left.command, EditCommand::Move(MoveOp::Left, MoveMode::MoveAnchor));
    assert!(left.clear_preferred_x);
}

#[test]
fn ctrl_a_keeps_its_escalation() {
    let plan = plan_edit_input(InputAction::SelectAll);
    assert_eq!(plan.command, EditCommand::SelectAll);
    assert!(!plan.reset_select_all);
    assert!(plan_edit_input(InputAction::Copy).reset_select_all);
}

#[test]
fn word_deletion_and_selection() {
    assert_eq!(plan_edit_input(InputAction::DeleteWordLeft).command, EditCommand::DeleteWord(MoveOp::WordLeft));
    assert_eq!(
        plan_edit_input(InputAction::SelectWordRight).command,
        EditCommand::Move(MoveOp::WordRight, MoveMode::KeepAnchor)
    );
    assert_eq!(
        plan_edit_input(InputAction::SelectDocStart).command,
        EditCommand::Move(MoveOp::Start, MoveMode::KeepAnchor)
    );
}

#[test]
fn shift_arrows_extend_like_arrows() {
    for (shifted, plain) in [
        (InputAction::SelectLeft, InputAction::MoveLeft),
        (InputAction::SelectRight, InputAction::MoveRight),
        (InputAction::SelectUp, InputAction::MoveUp),
        (InputAction::SelectDown, InputAction::MoveDown),
    ] {
        let extended = match plan_edit_input(shifted).command {
            EditCommand::ExtendSelection { dcol, drow } => selection_fallback(dcol, drow),
            other => panic!("unexpected {:?}", other),
        };
        let moved = match plan_edit_input(plain).command {
            EditCommand::Move(op, MoveMode::MoveAnchor) => EditCommand::Move(op, MoveMode::KeepAnchor),
            EditCommand::MoveVertical(d, MoveMode::MoveAnchor) => EditCommand::MoveVertical(d, MoveMode::KeepAnchor),
            other => panic!("unexpected {:?}", other),
        };
        assert_eq!(extended, moved);
    }
}

#[test]
fn scrolling_and_drags_do_not_settle() {
    let down = plan_edit_input(InputAction::ScrollDown);
    assert_eq!(down.command, EditCommand::ScrollVertical(SCROLL_STEP));
    assert!(!down.settle && !down.clear_preferred_x);
    assert_eq!(plan_edit_input(InputAction::ScrollLeft).command, EditCommand::ScrollHorizontal(-40));
    assert!(!plan_edit_input(InputAction::DragSelect).settle);
    assert!(plan_edit_input(InputAction::Click).settle);
}

#[test]
fn viewer_ignores_edits() {
    for action in [
        InputAction::InsertChar('a'),
        InputAction::Backspace,
        InputAction::Delete,
        InputAction::Enter,
        InputAction::Tab,
        InputAction::Cut,
        InputAction::Paste,
        InputAction::Undo,
        InputAction::ToggleBold,
        InputAction::ScrollLeft,
    ] {
        assert_eq!(plan_view_input(action).command, ViewCommand::Ignore);
    }
}

#[test]
fn viewer_navigates_selects_and_copies() {
    assert_eq!(
        plan_view_input(InputAction::SelectEnd),
        ViewPlan { clear_preferred_x: true, command: ViewCommand::Move(MoveOp::EndOfBlock, MoveMode::KeepAnchor) }
    );
    assert_eq!(
        plan_view_input(InputAction::MoveDown),
        ViewPlan { clear_preferred_x: false, command: ViewCommand::MoveVertical(1, MoveMode::MoveAnchor) }
    );
    assert_eq!(plan_view_input(InputAction::Copy).command, ViewCommand::Copy);
    assert_eq!(plan_view_input(InputAction::ScrollUp).command, ViewCommand::ScrollVertical(-40));
}

#[test]
fn readonly_control_answers_clicks_and_wheel() {
    assert_eq!(plan_readonly_input(InputAction::Click, false), ReadonlyCommand::Click);
    assert_eq!(plan_readonly_input(InputAction::ScrollDown, false), ReadonlyCommand::ScrollVertical(40));
    assert_eq!(plan_readonly_input(InputAction::ScrollRight, false), ReadonlyCommand::Ignore);
    assert_eq!(plan_readonly_input(InputAction::ScrollRight, true), ReadonlyCommand::ScrollHorizontal(40));
    assert_eq!(plan_readonly_input(InputAction::ScrollLeft, true), ReadonlyCommand::ScrollHorizontal(-40));
    assert_eq!(plan_readonly_input(InputAction::SelectAll, true), ReadonlyCommand::Ignore);
}

#[test]
fn clicks_on_links_and_images_are_reported() {
    let link = Some((HitKind::Link("https://example.org".to_string()), 3));
    assert_eq!(click_outcome(link, false, true), ClickOutcome::LinkClicked("https://example.org".to_string()));
    let image = Some((HitKind::Image("pic.png".to_string()), 7));
    assert_eq!(click_outcome(image, true, false), ClickOutcome::ImageClicked("pic.png".to_string()));
}

#[test]
fn clicks_on_text_place_the_caret() {
    assert_eq!(click_outcome(Some((HitKind::Text, 5)), false, true), ClickOutcome::PlaceCaret(5, MoveMode::MoveAnchor));
    assert_eq!(
        click_outcome(Some((HitKind::PastLineEnd, 9)), true, true),
        ClickOutcome::PlaceCaret(9, MoveMode::KeepAnchor)
    );
    assert_eq!(click_outcome(Some((HitKind::Text, 5)), false, false), ClickOutcome::Nothing);
    assert_eq!(click_outcome(None, false, true), ClickOutcome::Nothing);
}

#[test]
fn typing_does_not_flush_pending_characters() {
    assert!(!flushes_pending(InputAction::InsertChar('a')));
    assert!(flushes_pending(InputAction::Enter));
    assert!(flushes_pending(InputAction::MoveLeft));
    assert!(flushes_pending(InputAction::NoAction));
}
