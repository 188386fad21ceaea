//! What each input action does in the editor and in the viewer.
use vstd::prelude::*;
use crate::input::InputAction;

verus! {

/// A caret movement.
#[derive(Clone, Copy, Debug, PartialEq, Eq, Structural)]
pub enum MoveOp {
    Left,
    Right,
    WordLeft,
    WordRight,
    StartOfBlock,
    EndOfBlock,
    Start,
    End,
}

/// Whether a movement drops the selection or extends it.
#[derive(Clone, Copy, Debug, PartialEq, Eq, Structural)]
pub enum MoveMode {
    MoveAnchor,
    KeepAnchor,
}

/// The editor's response to an input action.
#[derive(Clone, Copy, Debug, PartialEq, Eq, Structural)]
pub enum EditCommand {
    /// Do nothing.
    Nothing,
    /// Buffer a typed character (inserted with the rest of the frame's
    /// typing) and show the caret.
    BufferChar(char),
    /// Enter: next row inside a table, else a new paragraph.
    Enter,
    /// Ctrl+Enter: a new paragraph.
    InsertBlock,
    /// Backspace (see `editing::backspace_edit`).
    Backspace,
    /// Delete the character after the caret.
    DeleteChar,
    /// Select to the given word boundary and delete the selection.
    DeleteWord(MoveOp),
    /// Tab (see `editing::tab_edit`).
    Tab,
    /// Shift+Tab (see `editing::shift_tab_edit`).
    ShiftTab,
    /// Move the caret.
    Move(MoveOp, MoveMode),
    /// Move the caret one line up (`-1`) or down (`1`).
    MoveVertical(i32, MoveMode),
    /// Move the caret one page up (`-1`) or down (`1`).
    MovePage(i32),
    /// Extend the selection by (`dcol`, `drow`): a cell selection inside a
    /// table where one applies (see `tables::cell_selection_step`), else
    /// the text selection by [`selection_fallback`].
    ExtendSelection { dcol: i32, drow: i32 },
    /// Ctrl+A (see `editing::select_all_step`).
    SelectAll,
    Copy,
    Cut,
    Paste,
    Undo,
    Redo,
    ToggleBold,
    ToggleItalic,
    ToggleUnderline,
    /// A click at the event's position.
    Click,
    /// A double click at the event's position.
    DoubleClick,
    /// A shift-click: extend the selection to the event's position.
    ShiftClick,
    /// A drag: extend the selection to the event's position.
    DragSelect,
    /// Scroll the view vertically by this many pixels.
    ScrollVertical(i32),
    /// Scroll the view horizontally by this many pixels.
    ScrollHorizontal(i32),
}

/// How the editor handles an input action.
#[derive(Clone, Copy, Debug, PartialEq, Eq, Structural)]
pub struct EditPlan {
    /// Forget the remembered column of vertical movement.
    pub clear_preferred_x: bool,
    /// Reset the Ctrl+A escalation level.
    pub reset_select_all: bool,
    pub command: EditCommand,
    /// After the command: keep the caret in view, update the scrollbars and
    /// restart the caret blink.
    pub settle: bool,
    /// The event is consumed.
    pub accept: bool,
}

/// Pixels that one wheel step scrolls.
pub const SCROLL_STEP: i32 = 40;

/// Actions that keep the remembered column of vertical movement in the
/// editor.
pub open spec fn keeps_column_in_editor(a: InputAction) -> bool {
    match a {
        InputAction::NoAction | InputAction::MoveUp | InputAction::MoveDown | InputAction::SelectUp
        | InputAction::SelectDown | InputAction::PageUp | InputAction::PageDown | InputAction::ScrollUp
        | InputAction::ScrollDown | InputAction::ScrollLeft | InputAction::ScrollRight => true,
        _ => false,
    }
}

/// The editor's command for an action.
pub open spec fn edit_command_of(a: InputAction) -> EditCommand {
    match a {
        InputAction::NoAction => EditCommand::Nothing,
        InputAction::InsertChar(c) => EditCommand::BufferChar(c),
        InputAction::Enter => EditCommand::Enter,
        InputAction::CtrlEnter => EditCommand::InsertBlock,
        InputAction::Backspace => EditCommand::Backspace,
        InputAction::Delete => EditCommand::DeleteChar,
        InputAction::DeleteWordLeft => EditCommand::DeleteWord(MoveOp::WordLeft),
        InputAction::DeleteWordRight => EditCommand::DeleteWord(MoveOp::WordRight),
        InputAction::Tab => EditCommand::Tab,
        InputAction::ShiftTab => EditCommand::ShiftTab,
        InputAction::MoveLeft => EditCommand::Move(MoveOp::Left, MoveMode::MoveAnchor),
        InputAction::MoveRight => EditCommand::Move(MoveOp::Right, MoveMode::MoveAnchor),
        InputAction::MoveUp => EditCommand::MoveVertical(-1i32, MoveMode::MoveAnchor),
        InputAction::MoveDown => EditCommand::MoveVertical(1, MoveMode::MoveAnchor),
        InputAction::MoveWordLeft => EditCommand::Move(MoveOp::WordLeft, MoveMode::MoveAnchor),
        InputAction::MoveWordRight => EditCommand::Move(MoveOp::WordRight, MoveMode::MoveAnchor),
        InputAction::MoveHome => EditCommand::Move(MoveOp::StartOfBlock, MoveMode::MoveAnchor),
        InputAction::MoveEnd => EditCommand::Move(MoveOp::EndOfBlock, MoveMode::MoveAnchor),
        InputAction::MoveDocStart => EditCommand::Move(MoveOp::Start, MoveMode::MoveAnchor),
        InputAction::MoveDocEnd => EditCommand::Move(MoveOp::End, MoveMode::MoveAnchor),
        InputAction::PageUp => EditCommand::MovePage(-1i32),
        InputAction::PageDown => EditCommand::MovePage(1),
        InputAction::SelectLeft => EditCommand::ExtendSelection { dcol: -1i32, drow: 0 },
        InputAction::SelectRight => EditCommand::ExtendSelection { dcol: 1, drow: 0 },
        InputAction::SelectUp => EditCommand::ExtendSelection { dcol: 0, drow: -1i32 },
        InputAction::SelectDown => EditCommand::ExtendSelection { dcol: 0, drow: 1 },
        InputAction::SelectWordLeft => EditCommand::Move(MoveOp::WordLeft, MoveMode::KeepAnchor),
        InputAction::SelectWordRight => EditCommand::Move(MoveOp::WordRight, MoveMode::KeepAnchor),
        InputAction::SelectHome => EditCommand::Move(MoveOp::StartOfBlock, MoveMode::KeepAnchor),
        InputAction::SelectEnd => EditCommand::Move(MoveOp::EndOfBlock, MoveMode::KeepAnchor),
        InputAction::SelectDocStart => EditCommand::Move(MoveOp::Start, MoveMode::KeepAnchor),
        InputAction::SelectDocEnd => EditCommand::Move(MoveOp::End, MoveMode::KeepAnchor),
        InputAction::SelectAll => EditCommand::SelectAll,
        InputAction::Copy => EditCommand::Copy,
        InputAction::Cut => EditCommand::Cut,
        InputAction::Paste => EditCommand::Paste,
        InputAction::Undo => EditCommand::Undo,
        InputAction::Redo => EditCommand::Redo,
        InputAction::ToggleBold => EditCommand::ToggleBold,
        InputAction::ToggleItalic => EditCommand::ToggleItalic,
        InputAction::ToggleUnderline => EditCommand::ToggleUnderline,
        InputAction::Click => EditCommand::Click,
        InputAction::DoubleClick => EditCommand::DoubleClick,
        InputAction::ShiftClick => EditCommand::ShiftClick,
        InputAction::DragSelect => EditCommand::DragSelect,
        InputAction::ScrollUp => EditCommand::ScrollVertical((-SCROLL_STEP) as i32),
        InputAction::ScrollDown => EditCommand::ScrollVertical(SCROLL_STEP),
        InputAction::ScrollLeft => EditCommand::ScrollHorizontal((-SCROLL_STEP) as i32),
        InputAction::ScrollRight => EditCommand::ScrollHorizontal(SCROLL_STEP),
    }
}

/// Actions after which the editor does not bring the caret into view:
/// typing (buffered), drags and scrolling.
pub open spec fn skips_settle(a: InputAction) -> bool {
    match a {
        InputAction::NoAction | InputAction::InsertChar(_) | InputAction::DragSelect | InputAction::ScrollUp
        | InputAction::ScrollDown | InputAction::ScrollLeft | InputAction::ScrollRight => true,
        _ => false,
    }
}

/// How the editable editor handles an action.
pub open spec fn edit_plan_spec(a: InputAction) -> EditPlan {
    EditPlan {
        clear_preferred_x: !keeps_column_in_editor(a),
        reset_select_all: a != InputAction::SelectAll,
        command: edit_command_of(a),
        settle: !skips_settle(a),
        accept: a != InputAction::NoAction,
    }
}

/// Decides how the editable editor handles an action.
pub fn plan_edit_input(action: InputAction) -> (r: EditPlan)
    ensures
        r == edit_plan_spec(action),
{
    let clear_preferred_x = match action {
        InputAction::NoAction | InputAction::MoveUp | InputAction::MoveDown | InputAction::SelectUp
        | InputAction::SelectDown | InputAction::PageUp | InputAction::PageDown | InputAction::ScrollUp
        | InputAction::ScrollDown | InputAction::ScrollLeft | InputAction::ScrollRight => false,
        _ => true,
    };
    let reset_select_all = match action {
        InputAction::SelectAll => false,
        _ => true,
    };
    let (command, settle) = match action {
        InputAction::NoAction => {
            return EditPlan {
                clear_preferred_x,
                reset_select_all,
                command: EditCommand::Nothing,
                settle: false,
                accept: false,
            };
        },
        InputAction::InsertChar(c) => (EditCommand::BufferChar(c), false),
        InputAction::Enter => (EditCommand::Enter, true),
        InputAction::CtrlEnter => (EditCommand::InsertBlock, true),
        InputAction::Backspace => (EditCommand::Backspace, true),
        InputAction::Delete => (EditCommand::DeleteChar, true),
        InputAction::DeleteWordLeft => (EditCommand::DeleteWord(MoveOp::WordLeft), true),
        InputAction::DeleteWordRight => (EditCommand::DeleteWord(MoveOp::WordRight), true),
        InputAction::Tab => (EditCommand::Tab, true),
        InputAction::ShiftTab => (EditCommand::ShiftTab, true),
        InputAction::MoveLeft => (EditCommand::Move(MoveOp::Left, MoveMode::MoveAnchor), true),
        InputAction::MoveRight => (EditCommand::Move(MoveOp::Right, MoveMode::MoveAnchor), true),
        InputAction::MoveUp => (EditCommand::MoveVertical(-1, MoveMode::MoveAnchor), true),
        InputAction::MoveDown => (EditCommand::MoveVertical(1, MoveMode::MoveAnchor), true),
        InputAction::MoveWordLeft => (EditCommand::Move(MoveOp::WordLeft, MoveMode::MoveAnchor), true),
        InputAction::MoveWordRight => (EditCommand::Move(MoveOp::WordRight, MoveMode::MoveAnchor), true),
        InputAction::MoveHome => (EditCommand::Move(MoveOp::StartOfBlock, MoveMode::MoveAnchor), true),
        InputAction::MoveEnd => (EditCommand::Move(MoveOp::EndOfBlock, MoveMode::MoveAnchor), true),
        InputAction::MoveDocStart => (EditCommand::Move(MoveOp::Start, MoveMode::MoveAnchor), true),
        InputAction::MoveDocEnd => (EditCommand::Move(MoveOp::End, MoveMode::MoveAnchor), true),
        InputAction::PageUp => (EditCommand::MovePage(-1), true),
        InputAction::PageDown => (EditCommand::MovePage(1), true),
        InputAction::SelectLeft => (EditCommand::ExtendSelection { dcol: -1, drow: 0 }, true),
        InputAction::SelectRight => (EditCommand::ExtendSelection { dcol: 1, drow: 0 }, true),
        InputAction::SelectUp => (EditCommand::ExtendSelection { dcol: 0, drow: -1 }, true),
        InputAction::SelectDown => (EditCommand::ExtendSelection { dcol: 0, drow: 1 }, true),
        InputAction::SelectWordLeft => (EditCommand::Move(MoveOp::WordLeft, MoveMode::KeepAnchor), true),
        InputAction::SelectWordRight => (EditCommand::Move(MoveOp::WordRight, MoveMode::KeepAnchor), true),
        InputAction::SelectHome => (EditCommand::Move(MoveOp::StartOfBlock, MoveMode::KeepAnchor), true),
        InputAction::SelectEnd => (EditCommand::Move(MoveOp::EndOfBlock, MoveMode::KeepAnchor), true),
        InputAction::SelectDocStart => (EditCommand::Move(MoveOp::Start, MoveMode::KeepAnchor), true),
        InputAction::SelectDocEnd => (EditCommand::Move(MoveOp::End, MoveMode::KeepAnchor), true),
        InputAction::SelectAll => (EditCommand::SelectAll, true),
        InputAction::Copy => (EditCommand::Copy, true),
        InputAction::Cut => (EditCommand::Cut, true),
        InputAction::Paste => (EditCommand::Paste, true),
        InputAction::Undo => (EditCommand::Undo, true),
        InputAction::Redo => (EditCommand::Redo, true),
        InputAction::ToggleBold => (EditCommand::ToggleBold, true),
        InputAction::ToggleItalic => (EditCommand::ToggleItalic, true),
        InputAction::ToggleUnderline => (EditCommand::ToggleUnderline, true),
        InputAction::Click => (EditCommand::Click, true),
        InputAction::DoubleClick => (EditCommand::DoubleClick, true),
        InputAction::ShiftClick => (EditCommand::ShiftClick, true),
        InputAction::DragSelect => (EditCommand::DragSelect, false),
        InputAction::ScrollUp => (EditCommand::ScrollVertical(-SCROLL_STEP), false),
        InputAction::ScrollDown => (EditCommand::ScrollVertical(SCROLL_STEP), false),
        InputAction::ScrollLeft => (EditCommand::ScrollHorizontal(-SCROLL_STEP), false),
        InputAction::ScrollRight => (EditCommand::ScrollHorizontal(SCROLL_STEP), false),
    };
    EditPlan { clear_preferred_x, reset_select_all, command, settle, accept: true }
}

/// The text selection that a Shift+arrow extends when no cell selection
/// applies: sideways by a character, up or down by a line.
pub open spec fn selection_fallback_spec(dcol: i32, drow: i32) -> EditCommand {
    if drow == 0 {
        EditCommand::Move(if dcol < 0 { MoveOp::Left } else { MoveOp::Right }, MoveMode::KeepAnchor)
    } else {
        EditCommand::MoveVertical(drow, MoveMode::KeepAnchor)
    }
}

/// The text selection step of a Shift+arrow outside a cell selection.
pub fn selection_fallback(dcol: i32, drow: i32) -> (r: EditCommand)
    ensures
        r == selection_fallback_spec(dcol, drow),
{
    if drow == 0 {
        EditCommand::Move(if dcol < 0 { MoveOp::Left } else { MoveOp::Right }, MoveMode::KeepAnchor)
    } else {
        EditCommand::MoveVertical(drow, MoveMode::KeepAnchor)
    }
}

/// Outside tables, Shift+arrows extend the text selection as the matching
/// plain arrows move the caret.
pub proof fn law_shift_arrows_extend_like_arrows()
    ensures
        ({
            let e = |a: InputAction| match edit_command_of(a) {
                EditCommand::ExtendSelection { dcol, drow } => selection_fallback_spec(dcol, drow),
                c => c,
            };
            &&& e(InputAction::SelectLeft) == EditCommand::Move(MoveOp::Left, MoveMode::KeepAnchor)
            &&& e(InputAction::SelectRight) == EditCommand::Move(MoveOp::Right, MoveMode::KeepAnchor)
            &&& e(InputAction::SelectUp) == EditCommand::MoveVertical(-1i32, MoveMode::KeepAnchor)
            &&& e(InputAction::SelectDown) == EditCommand::MoveVertical(1, MoveMode::KeepAnchor)
            &&& edit_command_of(InputAction::MoveLeft) == EditCommand::Move(MoveOp::Left, MoveMode::MoveAnchor)
            &&& edit_command_of(InputAction::MoveUp) == EditCommand::MoveVertical(-1i32, MoveMode::MoveAnchor)
        }),
{
}

/// The viewer's response to an input action when its text can be
/// selected.
#[derive(Clone, Copy, Debug, PartialEq, Eq, Structural)]
pub enum ViewCommand {
    /// The action does not apply to a read-only view: the event is not
    /// consumed.
    Ignore,
    Click,
    ShiftClick,
    DoubleClick,
    DragSelect,
    Move(MoveOp, MoveMode),
    MoveVertical(i32, MoveMode),
    SelectAll,
    Copy,
    ScrollVertical(i32),
}

/// How the selectable viewer handles an action.
#[derive(Clone, Copy, Debug, PartialEq, Eq, Structural)]
pub struct ViewPlan {
    /// Forget the remembered column of vertical movement.
    pub clear_preferred_x: bool,
    pub command: ViewCommand,
}

/// Actions that keep the remembered column of vertical movement in the
/// viewer.
pub open spec fn keeps_column_in_viewer(a: InputAction) -> bool {
    match a {
        InputAction::NoAction | InputAction::MoveUp | InputAction::MoveDown | InputAction::SelectUp
        | InputAction::SelectDown | InputAction::ScrollUp | InputAction::ScrollDown => true,
        _ => false,
    }
}

/// The selectable viewer's command for an action: navigation, selection,
/// copy and vertical scrolling; every editing action is ignored.
pub open spec fn view_command_of(a: InputAction) -> ViewCommand {
    match a {
        InputAction::Click => ViewCommand::Click,
        InputAction::ShiftClick => ViewCommand::ShiftClick,
        InputAction::DoubleClick => ViewCommand::DoubleClick,
        InputAction::DragSelect => ViewCommand::DragSelect,
        InputAction::MoveLeft => ViewCommand::Move(MoveOp::Left, MoveMode::MoveAnchor),
        InputAction::MoveRight => ViewCommand::Move(MoveOp::Right, MoveMode::MoveAnchor),
        InputAction::MoveUp => ViewCommand::MoveVertical(-1i32, MoveMode::MoveAnchor),
        InputAction::MoveDown => ViewCommand::MoveVertical(1, MoveMode::MoveAnchor),
        InputAction::MoveWordLeft => ViewCommand::Move(MoveOp::WordLeft, MoveMode::MoveAnchor),
        InputAction::MoveWordRight => ViewCommand::Move(MoveOp::WordRight, MoveMode::MoveAnchor),
        InputAction::MoveHome => ViewCommand::Move(MoveOp::StartOfBlock, MoveMode::MoveAnchor),
        InputAction::MoveEnd => ViewCommand::Move(MoveOp::EndOfBlock, MoveMode::MoveAnchor),
        InputAction::MoveDocStart => ViewCommand::Move(MoveOp::Start, MoveMode::MoveAnchor),
        InputAction::MoveDocEnd => ViewCommand::Move(MoveOp::End, MoveMode::MoveAnchor),
        InputAction::SelectLeft => ViewCommand::Move(MoveOp::Left, MoveMode::KeepAnchor),
        InputAction::SelectRight => ViewCommand::Move(MoveOp::Right, MoveMode::KeepAnchor),
        InputAction::SelectUp => ViewCommand::MoveVertical(-1i32, MoveMode::KeepAnchor),
        InputAction::SelectDown => ViewCommand::MoveVertical(1, MoveMode::KeepAnchor),
        InputAction::SelectWordLeft => ViewCommand::Move(MoveOp::WordLeft, MoveMode::KeepAnchor),
        InputAction::SelectWordRight => ViewCommand::Move(MoveOp::WordRight, MoveMode::KeepAnchor),
        InputAction::SelectHome => ViewCommand::Move(MoveOp::StartOfBlock, MoveMode::KeepAnchor),
        InputAction::SelectEnd => ViewCommand::Move(MoveOp::EndOfBlock, MoveMode::KeepAnchor),
        InputAction::SelectDocStart => ViewCommand::Move(MoveOp::Start, MoveMode::KeepAnchor),
        InputAction::SelectDocEnd => ViewCommand::Move(MoveOp::End, MoveMode::KeepAnchor),
        InputAction::SelectAll => ViewCommand::SelectAll,
        InputAction::Copy => ViewCommand::Copy,
        InputAction::ScrollUp => ViewCommand::ScrollVertical((-SCROLL_STEP) as i32),
        InputAction::ScrollDown => ViewCommand::ScrollVertical(SCROLL_STEP),
        _ => ViewCommand::Ignore,
    }
}

/// Decides how the selectable viewer handles an action.
pub fn plan_view_input(action: InputAction) -> (r: ViewPlan)
    ensures
        r == (ViewPlan { clear_preferred_x: !keeps_column_in_viewer(action), command: view_command_of(action) }),
{
    let clear_preferred_x = match action {
        InputAction::NoAction | InputAction::MoveUp | InputAction::MoveDown | InputAction::SelectUp
        | InputAction::SelectDown | InputAction::ScrollUp | InputAction::ScrollDown => false,
        _ => true,
    };
    let command = match action {
        InputAction::Click => ViewCommand::Click,
        InputAction::ShiftClick => ViewCommand::ShiftClick,
        InputAction::DoubleClick => ViewCommand::DoubleClick,
        InputAction::DragSelect => ViewCommand::DragSelect,
        InputAction::MoveLeft => ViewCommand::Move(MoveOp::Left, MoveMode::MoveAnchor),
        InputAction::MoveRight => ViewCommand::Move(MoveOp::Right, MoveMode::MoveAnchor),
        InputAction::MoveUp => ViewCommand::MoveVertical(-1, MoveMode::MoveAnchor),
        InputAction::MoveDown => ViewCommand::MoveVertical(1, MoveMode::MoveAnchor),
        InputAction::MoveWordLeft => ViewCommand::Move(MoveOp::WordLeft, MoveMode::MoveAnchor),
        InputAction::MoveWordRight => ViewCommand::Move(MoveOp::WordRight, MoveMode::MoveAnchor),
        InputAction::MoveHome => ViewCommand::Move(MoveOp::StartOfBlock, MoveMode::MoveAnchor),
        InputAction::MoveEnd => ViewCommand::Move(MoveOp::EndOfBlock, MoveMode::MoveAnchor),
        InputAction::MoveDocStart => ViewCommand::Move(MoveOp::Start, MoveMode::MoveAnchor),
        InputAction::MoveDocEnd => ViewCommand::Move(MoveOp::End, MoveMode::MoveAnchor),
        InputAction::SelectLeft => ViewCommand::Move(MoveOp::Left, MoveMode::KeepAnchor),
        InputAction::SelectRight => ViewCommand::Move(MoveOp::Right, MoveMode::KeepAnchor),
        InputAction::SelectUp => ViewCommand::MoveVertical(-1, MoveMode::KeepAnchor),
        InputAction::SelectDown => ViewCommand::MoveVertical(1, MoveMode::KeepAnchor),
        InputAction::SelectWordLeft => ViewCommand::Move(MoveOp::WordLeft, MoveMode::KeepAnchor),
        InputAction::SelectWordRight => ViewCommand::Move(MoveOp::WordRight, MoveMode::KeepAnchor),
        InputAction::SelectHome => ViewCommand::Move(MoveOp::StartOfBlock, MoveMode::KeepAnchor),
        InputAction::SelectEnd => ViewCommand::Move(MoveOp::EndOfBlock, MoveMode::KeepAnchor),
        InputAction::SelectDocStart => ViewCommand::Move(MoveOp::Start, MoveMode::KeepAnchor),
        InputAction::SelectDocEnd => ViewCommand::Move(MoveOp::End, MoveMode::KeepAnchor),
        InputAction::SelectAll => ViewCommand::SelectAll,
        InputAction::Copy => ViewCommand::Copy,
        InputAction::ScrollUp => ViewCommand::ScrollVertical(-SCROLL_STEP),
        InputAction::ScrollDown => ViewCommand::ScrollVertical(SCROLL_STEP),
        _ => ViewCommand::Ignore,
    };
    ViewPlan { clear_preferred_x, command }
}

/// The selectable viewer never changes the document: no editing action
/// gets a command.
pub proof fn law_viewer_ignores_edits(c: char)
    ensures
        view_command_of(InputAction::InsertChar(c)) == ViewCommand::Ignore,
        view_command_of(InputAction::Backspace) == ViewCommand::Ignore,
        view_command_of(InputAction::Delete) == ViewCommand::Ignore,
        view_command_of(InputAction::DeleteWordLeft) == ViewCommand::Ignore,
        view_command_of(InputAction::DeleteWordRight) == ViewCommand::Ignore,
        view_command_of(InputAction::Enter) == ViewCommand::Ignore,
        view_command_of(InputAction::CtrlEnter) == ViewCommand::Ignore,
        view_command_of(InputAction::Tab) == ViewCommand::Ignore,
        view_command_of(InputAction::ShiftTab) == ViewCommand::Ignore,
        view_command_of(InputAction::Cut) == ViewCommand::Ignore,
        view_command_of(InputAction::Paste) == ViewCommand::Ignore,
        view_command_of(InputAction::Undo) == ViewCommand::Ignore,
        view_command_of(InputAction::Redo) == ViewCommand::Ignore,
        view_command_of(InputAction::ToggleBold) == ViewCommand::Ignore,
        view_command_of(InputAction::ToggleItalic) == ViewCommand::Ignore,
        view_command_of(InputAction::ToggleUnderline) == ViewCommand::Ignore,
{
}

/// The response of a control whose text is neither editable nor
/// selectable.
#[derive(Clone, Copy, Debug, PartialEq, Eq, Structural)]
pub enum ReadonlyCommand {
    Ignore,
    /// A click: follow a link or an image under the pointer.
    Click,
    ScrollVertical(i32),
    ScrollHorizontal(i32),
}

/// A read-only control answers clicks (links and images) and the wheel;
/// `horizontal_scroll` tells whether it scrolls sideways too.
pub open spec fn readonly_command_of(a: InputAction, horizontal_scroll: bool) -> ReadonlyCommand {
    match a {
        InputAction::Click => ReadonlyCommand::Click,
        InputAction::ScrollUp => ReadonlyCommand::ScrollVertical((-SCROLL_STEP) as i32),
        InputAction::ScrollDown => ReadonlyCommand::ScrollVertical(SCROLL_STEP),
        InputAction::ScrollLeft => if horizontal_scroll {
            ReadonlyCommand::ScrollHorizontal((-SCROLL_STEP) as i32)
        } else {
            ReadonlyCommand::Ignore
        },
        InputAction::ScrollRight => if horizontal_scroll {
            ReadonlyCommand::ScrollHorizontal(SCROLL_STEP)
        } else {
            ReadonlyCommand::Ignore
        },
        _ => ReadonlyCommand::Ignore,
    }
}

/// Decides how a read-only control handles an action.
pub fn plan_readonly_input(action: InputAction, horizontal_scroll: bool) -> (r: ReadonlyCommand)
    ensures
        r == readonly_command_of(action, horizontal_scroll),
{
    match action {
        InputAction::Click => ReadonlyCommand::Click,
        InputAction::ScrollUp => ReadonlyCommand::ScrollVertical(-SCROLL_STEP),
        InputAction::ScrollDown => ReadonlyCommand::ScrollVertical(SCROLL_STEP),
        InputAction::ScrollLeft => {
            if horizontal_scroll {
                ReadonlyCommand::ScrollHorizontal(-SCROLL_STEP)
            } else {
                ReadonlyCommand::Ignore
            }
        },
        InputAction::ScrollRight => {
            if horizontal_scroll {
                ReadonlyCommand::ScrollHorizontal(SCROLL_STEP)
            } else {
                ReadonlyCommand::Ignore
            }
        },
        _ => ReadonlyCommand::Ignore,
    }
}

/// What lies under a click, as the layout's hit test reports it.
#[derive(Clone, Debug, PartialEq, Eq)]
pub enum HitKind {
    Text,
    LeftMargin,
    Indent,
    TableBorder,
    BelowContent,
    PastLineEnd,
    /// An inline image, by resource name.
    Image(String),
    /// A hyperlink, by its target.
    Link(String),
}

/// What a click does.
#[derive(Clone, Debug, PartialEq, Eq)]
pub enum ClickOutcome {
    Nothing,
    /// Report a click on the link with this target.
    LinkClicked(String),
    /// Report a click on the image with this resource name.
    ImageClicked(String),
    /// Place the caret at this position.
    PlaceCaret(usize, MoveMode),
}

/// A click on a link or an image reports it; a click elsewhere on the
/// document places the caret at the hit position (extending the selection
/// when `extend_selection`), where the control has a caret; a click that
/// hits nothing does nothing.
pub open spec fn click_outcome_spec(hit: Option<(HitKind, usize)>, extend_selection: bool, places_caret: bool) -> ClickOutcome {
    match hit {
        None => ClickOutcome::Nothing,
        Some((HitKind::Link(h), _)) => ClickOutcome::LinkClicked(h),
        Some((HitKind::Image(n), _)) => ClickOutcome::ImageClicked(n),
        Some((_, p)) => if places_caret {
            ClickOutcome::PlaceCaret(p, if extend_selection { MoveMode::KeepAnchor } else { MoveMode::MoveAnchor })
        } else {
            ClickOutcome::Nothing
        },
    }
}

/// Decides what a click does from what the hit test found (its kind and
/// the document position under the pointer).
pub fn click_outcome(hit: Option<(HitKind, usize)>, extend_selection: bool, places_caret: bool) -> (r: ClickOutcome)
    ensures
        r == click_outcome_spec(hit, extend_selection, places_caret),
{
    match hit {
        None => ClickOutcome::Nothing,
        Some((HitKind::Link(h), _)) => ClickOutcome::LinkClicked(h),
        Some((HitKind::Image(n), _)) => ClickOutcome::ImageClicked(n),
        Some((_, p)) => {
            if places_caret {
                ClickOutcome::PlaceCaret(p, if extend_selection { MoveMode::KeepAnchor } else { MoveMode::MoveAnchor })
            } else {
                ClickOutcome::Nothing
            }
        },
    }
}

/// Whether the editor inserts the characters typed so far before it
/// handles an action: before every action but typing, so that the
/// characters of a frame reach the document as one insertion.
pub fn flushes_pending(a: InputAction) -> (r: bool)
    ensures
        r == !(a is InsertChar),
{
    match a {
        InputAction::InsertChar(_) => false,
        _ => true,
    }
}

/// A word deletion deletes in the direction of its key: the plan of
/// Ctrl+Backspace selects a word to the left and deletes it, that of
/// Ctrl+Delete a word to the right, each the way the matching word move
/// goes; and no other action deletes a word.
pub proof fn law_word_deletion_direction(a: InputAction)
    ensures
        edit_command_of(InputAction::DeleteWordLeft) == EditCommand::DeleteWord(MoveOp::WordLeft),
        edit_command_of(InputAction::DeleteWordRight) == EditCommand::DeleteWord(MoveOp::WordRight),
        edit_command_of(InputAction::MoveWordLeft) == EditCommand::Move(MoveOp::WordLeft, MoveMode::MoveAnchor),
        edit_command_of(InputAction::MoveWordRight) == EditCommand::Move(MoveOp::WordRight, MoveMode::MoveAnchor),
        edit_command_of(a) matches EditCommand::DeleteWord(op) ==> (
            (op == MoveOp::WordLeft <==> a == InputAction::DeleteWordLeft)
            && (op == MoveOp::WordRight <==> a == InputAction::DeleteWordRight)),
{
}

/// The selectable viewer moves the caret as the editor does: for every
/// action that the viewer turns into a movement, the editor's plan (with a
/// Shift+arrow taken as the text selection it extends) is the same
/// movement; in particular Ctrl+End goes to the end of the document and
/// Ctrl+Home to its start in both.
pub proof fn law_viewer_moves_like_editor(a: InputAction)
    ensures
        ({
            let e = match edit_command_of(a) {
                EditCommand::ExtendSelection { dcol, drow } => selection_fallback_spec(dcol, drow),
                c => c,
            };
            &&& view_command_of(a) matches ViewCommand::Move(op, m) ==> e == EditCommand::Move(op, m)
            &&& view_command_of(a) matches ViewCommand::MoveVertical(d, m) ==> e == EditCommand::MoveVertical(d, m)
        }),
        view_command_of(InputAction::MoveDocEnd) == ViewCommand::Move(MoveOp::End, MoveMode::MoveAnchor),
        view_command_of(InputAction::MoveDocStart) == ViewCommand::Move(MoveOp::Start, MoveMode::MoveAnchor),
        view_command_of(InputAction::SelectDocEnd) == ViewCommand::Move(MoveOp::End, MoveMode::KeepAnchor),
        view_command_of(InputAction::SelectDocStart) == ViewCommand::Move(MoveOp::Start, MoveMode::KeepAnchor),
        edit_command_of(InputAction::MoveDocEnd) == EditCommand::Move(MoveOp::End, MoveMode::MoveAnchor),
        edit_command_of(InputAction::MoveDocStart) == EditCommand::Move(MoveOp::Start, MoveMode::MoveAnchor),
{
}

} // verus!
