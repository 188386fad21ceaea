//! A control's document, its caret, and the editing state kept beside
//! them: the non-graphical half of the editor and the viewer.
//!
//! The document model is reached through [`crate::document`], whose
//! functions record each call they make, with its arguments and what it
//! reported, in the session's [`CallLog`]. The contracts here say which
//! calls each operation makes, what it decides from what the document
//! reported, and what happens to the state the session keeps itself
//! (Ctrl+A escalation, the click run, the rich clipboard, buffered typing,
//! pending notifications and the image cache).
use vstd::prelude::*;
use crate::commands::{MoveMode, MoveOp};
use crate::document::{
    block_char_format_at, block_list, block_position, cell_blocks, cell_ref_parts, cursor_anchor, cursor_at_block_end,
    cursor_at_block_start, cursor_block_format, cursor_char_format, cursor_clear_selection, cursor_create_list,
    cursor_current_table_cell, cursor_delete_char, cursor_delete_previous_char, cursor_has_selection, cursor_current_table,
    cursor_insert_block, cursor_insert_column_after, cursor_insert_column_before, cursor_insert_html, cursor_insert_image,
    cursor_insert_row_above, cursor_insert_row_below, cursor_insert_table, cursor_insert_text, cursor_merge_char_format,
    cursor_move_position, cursor_position, cursor_remove_current_block_from_list, cursor_remove_current_column,
    cursor_remove_current_row, cursor_remove_current_table, cursor_remove_selected_text, cursor_select,
    cursor_select_cell_range, cursor_select_table_cell, cursor_selected_cell_range, cursor_selected_cells,
    cursor_selected_text, cursor_selection, cursor_selection_kind, cursor_selection_start, cursor_set_block_format,
    cursor_set_position, doc_block_at_position, doc_block_count, doc_can_redo, doc_can_undo, doc_character_count, doc_clear,
    doc_cursor, doc_flow, doc_new, doc_poll_events, doc_redo, doc_resource, doc_set_html, doc_set_markdown,
    doc_set_plain_text, doc_snapshot_block_at, doc_snapshot_flow, doc_to_html, doc_to_markdown, doc_to_plain_text, doc_undo, doc_word_count, flow_part,
    fragment_html, fragment_plain_text, operation_wait, table_cell, table_columns, table_id, table_rows, BlockFormatChange,
    BlockFormatInfo, CallLog, CaretEdit, CharFlags, CharFormatChange, CharFormatChangeView, DocCall, FlowPart, Selection, SelectionShape, text_of,
};
use crate::editing::{
    alignment_code, alignment_from_code, alignment_of_code, code_of_alignment, backspace_edit, backspace_spec, click_step, copy_spec,
    count_as_i32, format_flag, format_query_position, heading_level_byte, heading_level_code, initial_content_source,
    initial_content_source_spec, list_kind, offset_in_block, paste_spec, select_all_spec, shift_tab_edit,
    shift_tab_spec, size_as_u32, size_as_usize, tab_edit, tab_spec, toggled_flag, BackspaceEdit, ClickCounter, ClickSelection,
    ClipboardView, ContentSource, ListKind, PasteContent, PasteView, PendingChars, RichClipboard, SelectAllLevel,
    SelectAllTarget, TabEdit,
};
use crate::events::{
    classify_edit_events, classify_view_events, edit_events_spec, nothing_due, record_spec, view_events_spec, DocEvent,
    DueSignals, EditEvents, PendingSignals, ViewEvents,
};
use crate::render::ImageCache;
use crate::tables::{
    cell, cell_below, cell_selection_spec, cell_selection_step, next_cell, next_cell_spec, position_after_table,
    position_after_table_spec, selected_cells, selected_cells_spec, selection_range, selection_range_spec, CellDown, CellPos, CellRange, CellStep, FlowItem, TableCell,
};
use text_document::{BlockSnapshot, FlowSnapshot, TextCursor, TextDocument, TextTable};

verus! {

/// The state a session keeps besides the document.
pub struct SessionView<T> {
    pub has_cursor: bool,
    /// Ctrl+A presses in a row (0 to 3).
    pub select_all_level: u8,
    /// Clicks in the current run (0 to 3).
    pub clicks: u32,
    pub clipboard: ClipboardView,
    /// Characters typed and not yet inserted.
    pub pending: Seq<char>,
    /// Notifications waiting to be sent.
    pub signals: DueSignals,
    /// Cached image textures by resource name.
    pub images: Map<Seq<char>, T>,
    /// The calls made into the document model, in order.
    pub calls: Seq<DocCall>,
}

/// The session after the calls `e`; nothing else changes.
pub open spec fn after_calls<T>(v: SessionView<T>, e: Seq<DocCall>) -> SessionView<T> {
    SessionView { calls: v.calls + e, ..v }
}

/// The session after the call `c`; nothing else changes.
pub open spec fn after_call<T>(v: SessionView<T>, c: DocCall) -> SessionView<T> {
    after_calls(v, seq![c])
}

/// The session after the calls `a` and `b`; nothing else changes.
pub open spec fn after_two_calls<T>(v: SessionView<T>, a: DocCall, b: DocCall) -> SessionView<T> {
    after_calls(v, seq![a, b])
}

/// The calls of an import asked for by `start`: when it started, the wait
/// for it to finish; then the events of the load are taken.
pub open spec fn import_calls(start: DocCall, started: bool, events: Seq<DocEvent>) -> Seq<DocCall> {
    seq![start] + (if started { seq![DocCall::Wait] } else { Seq::empty() }) + seq![DocCall::PollEvents(events)]
}

/// The calls that load a control's initial content from `source`.
pub open spec fn initial_load_calls(
    source: ContentSource,
    markdown: Seq<char>,
    html: Seq<char>,
    text: Seq<char>,
    started: bool,
    events: Seq<DocEvent>,
) -> Seq<DocCall> {
    match source {
        ContentSource::Markdown => import_calls(DocCall::SetMarkdown(markdown, started), started, events),
        ContentSource::Html => import_calls(DocCall::SetHtml(html, started), started, events),
        ContentSource::PlainText => seq![DocCall::SetPlainText(text), DocCall::PollEvents(events)],
        ContentSource::Empty => Seq::empty(),
    }
}

/// The text, or nothing for none.
pub open spec fn text_or_empty(t: Option<Seq<char>>) -> Seq<char> {
    match t {
        Some(s) => s,
        None => Seq::empty(),
    }
}

/// The bytes of an optional byte buffer.
pub open spec fn bytes_of(b: Option<Vec<u8>>) -> Option<Seq<u8>> {
    match b {
        Some(v) => Some(v@),
        None => None,
    }
}

/// The same state, apart from the image cache.
pub open spec fn same_state<T>(a: SessionView<T>, b: SessionView<T>) -> bool {
    &&& a.has_cursor == b.has_cursor
    &&& a.select_all_level == b.select_all_level
    &&& a.clicks == b.clicks
    &&& a.clipboard == b.clipboard
    &&& a.pending == b.pending
    &&& a.signals == b.signals
    &&& a.calls == b.calls
}

/// The calls that read the caret's format where the toolbar reads it:
/// whether there is a selection (`h`), its start (`s`) and the caret (`p`),
/// then the block at the start of the selection if there is one, else at
/// the caret (not looked up beyond the document model's positions); when
/// there is that block (`found`), its start (`bs`) and the format `f` at the
/// offset in it.
pub open spec fn char_format_calls(h: bool, s: usize, p: usize, found: bool, bs: usize, f: Option<CharFlags>) -> Seq<DocCall> {
    let q: usize = if h { s } else { p };
    let caret = seq![DocCall::HasSelection(h), DocCall::SelectionStart(s), DocCall::Position(p)];
    let reads = caret + seq![DocCall::BlockAt(q, found)];
    if q > i64::MAX {
        caret
    } else if found {
        reads + seq![DocCall::BlockPosition(bs), DocCall::CharFormatAt(if q >= bs { (q - bs) as usize } else { 0 }, f)]
    } else {
        reads
    }
}

/// `new` is `old` after the calls that read the format `f` where the
/// toolbar reads it, with the readings `h`, `s`, `p`, `found` and `bs`
/// (see [`char_format_calls`]); `f` is `None` when there is no block there.
pub open spec fn format_read_with<T>(old: SessionView<T>, new: SessionView<T>, f: Option<CharFlags>, h: bool, s: usize, p: usize, found: bool, bs: usize) -> bool {
    new == after_calls(old, char_format_calls(h, s, p, found, bs, f)) && (!found ==> f is None)
}

/// `new` is `old` after the calls that read the format `f` where the
/// toolbar reads it.
pub open spec fn format_read<T>(old: SessionView<T>, new: SessionView<T>, f: Option<CharFlags>) -> bool {
    exists|h: bool, s: usize, p: usize, found: bool, bs: usize| #[trigger] format_read_with(old, new, f, h, s, p, found, bs)
}

/// The calls that tell whether the caret's block is a list item: the
/// caret's position `p`, the block there (not looked up beyond the document
/// model's positions), and its list when it is found.
pub open spec fn in_list_calls(p: usize, found: bool, in_list: bool) -> Seq<DocCall> {
    if p > i64::MAX {
        seq![DocCall::Position(p)]
    } else if found {
        seq![DocCall::Position(p), DocCall::BlockAt(p, true), DocCall::BlockInList(in_list)]
    } else {
        seq![DocCall::Position(p), DocCall::BlockAt(p, false)]
    }
}

/// The indent of a block format read (`None` when it could not be read).
pub open spec fn indent_of(info: Option<BlockFormatInfo>) -> Option<Option<u8>> {
    match info {
        Some(f) => Some(f.indent),
        None => None,
    }
}

/// The edit calls that Backspace makes for its decision.
pub open spec fn backspace_calls(e: BackspaceEdit) -> Seq<DocCall> {
    match e {
        BackspaceEdit::SetIndent(n) => seq![DocCall::Edit(CaretEdit::SetBlockFormat(BlockFormatChange::Indent(n)))],
        BackspaceEdit::RemoveFromList => seq![DocCall::Edit(CaretEdit::RemoveFromList)],
        BackspaceEdit::DeletePrevious => seq![DocCall::Edit(CaretEdit::DeletePreviousChar)],
        BackspaceEdit::Keep => Seq::empty(),
    }
}

/// The edit calls that Tab or Shift+Tab makes outside a table cell.
pub open spec fn tab_calls(e: TabEdit) -> Seq<DocCall> {
    match e {
        TabEdit::SetIndent(n) => seq![DocCall::Edit(CaretEdit::SetBlockFormat(BlockFormatChange::Indent(n)))],
        TabEdit::InsertTab => seq![DocCall::Edit(CaretEdit::InsertText(seq!['\t']))],
        _ => Seq::empty(),
    }
}

/// The calls that list-aware editing reads at the caret: whether the caret
/// is at its block's start (when `reads_start`), whether its block is a
/// list item, and, for a list item, the block's format.
pub open spec fn list_reads(reads_start: bool, at_start: bool, p: usize, found: bool, listed: bool, info: Option<BlockFormatInfo>) -> Seq<DocCall> {
    let start = if reads_start { seq![DocCall::AtBlockStart(at_start)] } else { Seq::empty() };
    let list = if at_start { in_list_calls(p, found, listed) } else { Seq::empty() };
    let in_list = at_start && found && listed;
    start + list + if in_list { seq![DocCall::BlockFormat(info)] } else { Seq::empty() }
}

/// The calls that move the caret to the first block of cell `p`: the cell,
/// if found its blocks, and if it has any the first one's start, where the
/// caret is then set.
pub open spec fn go_to_cell_calls(p: CellPos, found: bool, n: nat, bp: usize) -> Seq<DocCall> {
    let head = seq![DocCall::TableCell(p.row, p.col, found)];
    if !found {
        head
    } else if n == 0 {
        head + seq![DocCall::CellBlocks(n)]
    } else {
        head + seq![DocCall::CellBlocks(n), DocCall::BlockPosition(bp), DocCall::SetPosition(bp, MoveMode::MoveAnchor)]
    }
}

/// The calls of a move to another cell of a table with `rows` and `cols`:
/// its size, then, where the step is not beyond the machine's integers,
/// the row added at the table's end if any, and the move into the cell.
pub open spec fn navigate_calls(row: usize, col: usize, rows: usize, cols: usize, direction: i32, found: bool, n: nat, bp: usize) -> Seq<DocCall> {
    let size = seq![DocCall::TableRows(rows), DocCall::TableColumns(cols)];
    if direction > 0 && (col == usize::MAX || (col + 1 >= cols && row == usize::MAX)) {
        size
    } else {
        size + match next_cell_spec(row, col, rows, cols, direction) {
            CellStep::Stay => Seq::empty(),
            CellStep::Goto(p) => go_to_cell_calls(p, found, n, bp),
            CellStep::AppendRowThenGoto(p) => seq![DocCall::Edit(CaretEdit::InsertRowBelow)] + go_to_cell_calls(p, found, n, bp),
        }
    }
}

/// The calls that Ctrl+A makes after reading the caret's cell, for what it
/// selects.
pub open spec fn select_all_calls(target: SelectAllTarget, in_cell: bool, row: usize, col: usize, id: usize, rows: usize, cols: usize) -> Seq<DocCall> {
    if !in_cell {
        seq![DocCall::Select(Selection::Document)]
    } else {
        match target {
            SelectAllTarget::CellContent => seq![DocCall::Select(Selection::BlockUnderCursor)],
            SelectAllTarget::Cell => seq![DocCall::TableId(id), DocCall::SelectTableCell(id, row, col)],
            SelectAllTarget::Table => seq![
                DocCall::TableRows(rows),
                DocCall::TableColumns(cols),
                DocCall::TableId(id),
                DocCall::SelectCellRange(CellRange {
                    table_id: id,
                    start_row: 0,
                    start_col: 0,
                    end_row: if rows > 0 { (rows - 1) as usize } else { 0 },
                    end_col: if cols > 0 { (cols - 1) as usize } else { 0 },
                }),
            ],
            SelectAllTarget::Document => seq![DocCall::Select(Selection::Document)],
        }
    }
}

/// The call that applies a cell selection, when there is one.
pub open spec fn apply_range_calls(r: Option<CellRange>) -> Seq<DocCall> {
    match r {
        Some(range) => seq![DocCall::SelectCellRange(range)],
        None => Seq::empty(),
    }
}

/// The size of the table of the current cell selection, from the number of
/// selected cells and the table's size read when there are some.
pub open spec fn dims_calls(n: nat, rows: usize, cols: usize) -> Seq<DocCall> {
    if n > 0 {
        seq![DocCall::SelectedCells(n), DocCall::TableRows(rows), DocCall::TableColumns(cols)]
    } else {
        seq![DocCall::SelectedCells(n)]
    }
}

/// `new` is `old` after a Shift+arrow that extends the current cell
/// selection `range`, whose `n` cells lie in a table read to have `rows`
/// and `cols` (read only when `n > 0`); `r` is the range decided and
/// selected, `None` for tables too large for the script's integers.
pub open spec fn selection_extended<T>(old: SessionView<T>, new: SessionView<T>, dcol: i32, drow: i32, r: Option<CellRange>, range: CellRange, n: nat, rows: usize, cols: usize) -> bool {
    let dims = if n > 0 { (rows, cols) } else { (0usize, 0usize) };
    let reads = seq![DocCall::SelectedCellRange(Some(range))] + dims_calls(n, rows, cols);
    let too_large = dims.0 > i32::MAX || dims.1 > i32::MAX || range.end_row >= i32::MAX || range.end_col >= i32::MAX;
    &&& too_large ==> r is None && new == after_calls(old, reads)
    &&& !too_large ==> r == cell_selection_spec(Some(range), dims, None, false, false, dcol, drow)
        && new == after_calls(old, reads + apply_range_calls(r))
}

/// `new` is `old` after a Shift+arrow that starts a cell selection from
/// the caret's cell (`row`, `col`) of table `id`, read to have `rows` and
/// `cols`, with the caret at its block's start or end as read; `r` is the
/// range decided and selected, `None` for coordinates too large for the
/// script's integers.
pub open spec fn selection_started<T>(old: SessionView<T>, new: SessionView<T>, dcol: i32, drow: i32, r: Option<CellRange>, row: usize, col: usize, id: usize, rows: usize, cols: usize, at_start: bool, at_end: bool) -> bool {
    let head = seq![DocCall::SelectedCellRange(None), DocCall::CurrentCell(Some((row, col)))];
    let reads = head + seq![
        DocCall::TableId(id),
        DocCall::TableRows(rows),
        DocCall::TableColumns(cols),
        DocCall::AtBlockStart(at_start),
        DocCall::AtBlockEnd(at_end),
    ];
    let c = TableCell { table_id: id, row, col, rows, cols };
    &&& row >= i32::MAX || col >= i32::MAX ==> r is None && new == after_calls(old, head)
    &&& row < i32::MAX && col < i32::MAX ==> {
        &&& r == cell_selection_spec(None, (0, 0), Some(c), at_start, at_end, dcol, drow)
        &&& new == after_calls(old, reads + apply_range_calls(r))
    }
}

/// `new` is `old` after a Shift+arrow in a table moved by (`dcol`, `drow`)
/// with result `r`: the current cell selection is extended, or one is
/// started from the caret's cell when there is none; the range decided
/// from what was read is then selected.
pub open spec fn cell_selection_made<T>(old: SessionView<T>, new: SessionView<T>, dcol: i32, drow: i32, r: Option<CellRange>) -> bool {
    ||| exists|range: CellRange, n: nat, rows: usize, cols: usize|
        #[trigger] selection_extended(old, new, dcol, drow, r, range, n, rows, cols)
    ||| r is None && new == after_calls(old, seq![DocCall::SelectedCellRange(None), DocCall::CurrentCell(None)])
    ||| exists|row: usize, col: usize, id: usize, rows: usize, cols: usize, at_start: bool, at_end: bool|
        #[trigger] selection_started(old, new, dcol, drow, r, row, col, id, rows, cols, at_start, at_end)
}

/// `new` is `old` after a copy that took the selection and found its
/// plain text empty.
pub open spec fn copied_empty<T>(old: SessionView<T>, new: SessionView<T>, plain: Seq<char>) -> bool {
    plain.len() == 0 && new == after_calls(old, seq![DocCall::HasSelection(true), DocCall::TakeSelection, DocCall::FragmentText(plain)])
}

/// `new` is `old` after a copy that took the selection, read its plain
/// text `plain` (not empty) and its HTML `html`, and put both on the rich
/// clipboard.
pub open spec fn copied_text<T>(old: SessionView<T>, new: SessionView<T>, plain: Seq<char>, html: Seq<char>) -> bool {
    &&& plain.len() > 0
    &&& new == SessionView {
        clipboard: copy_spec(old.clipboard, plain, html),
        ..after_calls(old, seq![
            DocCall::HasSelection(true),
            DocCall::TakeSelection,
            DocCall::FragmentText(plain),
            DocCall::FragmentHtml(html),
        ])
    }
}

/// `new` is `old` after a copy of the selection with result `r`: whether
/// there is a selection is read; if so the selection is taken and its plain
/// text read; if that is not empty, its HTML is read, the text and the
/// HTML go to the rich clipboard, and the text is the result.
pub open spec fn copied<T>(old: SessionView<T>, new: SessionView<T>, r: Option<Seq<char>>) -> bool {
    ||| r is None && new == after_calls(old, seq![DocCall::HasSelection(false)])
    ||| r is None && exists|plain: Seq<char>| #[trigger] copied_empty(old, new, plain)
    ||| exists|plain: Seq<char>, html: Seq<char>| r == Some(plain) && #[trigger] copied_text(old, new, plain, html)
}

/// The calls that paste `content` at the caret.
pub open spec fn paste_calls(content: PasteView) -> Seq<DocCall> {
    match content {
        PasteView::Html(h) => seq![DocCall::Edit(CaretEdit::InsertHtml(h)), DocCall::ClearSelection],
        PasteView::Plain(t) => seq![DocCall::Edit(CaretEdit::InsertText(t)), DocCall::ClearSelection],
        PasteView::Nothing => Seq::empty(),
    }
}

/// The character format change that sets `flag` to `value`.
pub open spec fn flag_change(flag: FormatFlag, value: bool) -> CharFormatChangeView {
    match flag {
        FormatFlag::Bold => CharFormatChangeView::Bold(value),
        FormatFlag::Italic => CharFormatChangeView::Italic(value),
        FormatFlag::Underline => CharFormatChangeView::Underline(value),
    }
}

/// The value of `flag` in a format read.
pub open spec fn flag_in(flag: FormatFlag, f: Option<CharFlags>) -> Option<bool> {
    match f {
        Some(x) => match flag {
            FormatFlag::Bold => x.bold,
            FormatFlag::Italic => x.italic,
            FormatFlag::Underline => x.underline,
        },
        None => None,
    }
}

/// A formatting toggle's flag.
#[derive(Clone, Copy, Debug, PartialEq, Eq, Structural)]
pub enum FormatFlag {
    Bold,
    Italic,
    Underline,
}

/// `new` is `old` after reading, for an edit at the caret, whether the
/// caret is at its block's start (when `reads_start`; else it counts as
/// there), whether its block is a list item and, for a list item, the
/// block's format, followed by the edit calls `edit_calls`. `in_list` and
/// `indent` are what the edit was decided from.
pub open spec fn list_edit_made<T>(
    old: SessionView<T>,
    new: SessionView<T>,
    reads_start: bool,
    at_start: bool,
    in_list: bool,
    indent: Option<Option<u8>>,
    edit_calls: Seq<DocCall>,
    p: usize,
    found: bool,
    listed: bool,
    info: Option<BlockFormatInfo>,
) -> bool {
    &&& in_list == (at_start && found && listed)
    &&& indent == (if in_list { indent_of(info) } else { None })
    &&& new == after_calls(old, list_reads(reads_start, at_start, p, found, listed, info) + edit_calls)
}

/// `new` is `old` after moving from the caret's cell (`row`, `col`) to
/// the next (`direction > 0`) or previous cell of a table read to have
/// `rows` and `cols`; `found`, `n` and `bp` are what was read of the
/// target cell.
pub open spec fn navigated<T>(old: SessionView<T>, new: SessionView<T>, direction: i32, row: usize, col: usize, rows: usize, cols: usize, found: bool, n: nat, bp: usize) -> bool {
    new == after_calls(old, seq![DocCall::CurrentCell(Some((row, col)))] + navigate_calls(row, col, rows, cols, direction, found, n, bp))
}

/// `new` is `old` after Enter in the cell (`row`, `col`) of a table read to
/// have `rows`: to the same column of the next row when there is one, read
/// as `found`, `n` and `bp`; from the last row, past the table, with the
/// flow and the table's id read as `past` says.
pub open spec fn entered_cell<T>(old: SessionView<T>, new: SessionView<T>, at: (usize, usize, usize), found: bool, n: nat, bp: usize, past: AfterTable) -> bool {
    let (row, col, rows) = at;
    let head = seq![DocCall::CurrentCell(Some((row, col))), DocCall::TableRows(rows)];
    if row == usize::MAX {
        new == after_calls(old, head)
    } else if row + 1 < rows {
        new == after_calls(old, head + go_to_cell_calls(cell(row + 1, col as int), found, n, bp))
    } else {
        &&& flow_details_fit(past.items, past.details)
        &&& new == after_calls(old, head + after_table_calls(past.items, past.details, past.table_id))
    }
}

/// What the walk past a table read: the top-level flow as items, what was
/// read of each item's table cell (see [`flow_item_calls`]), and the id of
/// the table left.
pub struct AfterTable {
    pub items: Seq<FlowItem>,
    pub details: Seq<(bool, nat)>,
    pub table_id: usize,
}

/// The calls that read one element of the top-level flow as `item`: a
/// block's start; for a table, its first cell (found or not, `d.0`), that
/// cell's blocks (`d.1` of them) and the first one's start, then the
/// table's id; nothing for a frame.
pub open spec fn flow_item_calls(item: FlowItem, d: (bool, nat)) -> Seq<DocCall> {
    match item {
        FlowItem::Block { position } => seq![DocCall::BlockPosition(position)],
        FlowItem::Table { id, first_cell_position } => match first_cell_position {
            Some(bp) => seq![DocCall::TableCell(0, 0, true), DocCall::CellBlocks(d.1), DocCall::BlockPosition(bp), DocCall::TableId(id)],
            None => if d.0 {
                seq![DocCall::TableCell(0, 0, true), DocCall::CellBlocks(0), DocCall::TableId(id)]
            } else {
                seq![DocCall::TableCell(0, 0, false), DocCall::TableId(id)]
            },
        },
        FlowItem::Frame => Seq::empty(),
    }
}

/// The calls that read the elements of the flow as `items`, in order.
pub open spec fn flow_read_calls(items: Seq<FlowItem>, details: Seq<(bool, nat)>) -> Seq<DocCall>
    decreases items.len(),
{
    if items.len() == 0 {
        Seq::empty()
    } else {
        flow_read_calls(items.drop_last(), details.drop_last()) + flow_item_calls(items.last(), details.last())
    }
}

/// One detail for each item; a table whose first block was read has one.
pub open spec fn flow_details_fit(items: Seq<FlowItem>, details: Seq<(bool, nat)>) -> bool {
    &&& details.len() == items.len()
    &&& forall|i: int| 0 <= i < items.len() && (#[trigger] items[i] matches FlowItem::Table { first_cell_position: Some(_), .. })
        ==> details[i].1 > 0
}

/// The calls that move the caret past the table with id `table_id`: the
/// flow and its elements are read, then the table's id, and the caret is
/// set at the first place after the table, if there is one.
pub open spec fn after_table_calls(items: Seq<FlowItem>, details: Seq<(bool, nat)>, table_id: usize) -> Seq<DocCall> {
    seq![DocCall::Flow(items.len())] + flow_read_calls(items, details) + seq![DocCall::TableId(table_id)]
        + match position_after_table_spec(items, table_id) {
            Some(p) => seq![DocCall::SetPosition(p, MoveMode::MoveAnchor)],
            None => Seq::empty(),
        }
}

/// `new` is `old` after Ctrl+A read the caret's cell (`row`, `col`) when
/// `in_cell`, took the next escalation step and selected `target`, reading
/// the table's id and size where the selection needs them.
pub open spec fn select_all_made<T>(old: SessionView<T>, new: SessionView<T>, made: (bool, SelectAllTarget), row: usize, col: usize, id: usize, rows: usize, cols: usize) -> bool {
    let (in_cell, target) = made;
    let step = select_all_spec(old.select_all_level, in_cell);
    let read = DocCall::CurrentCell(if in_cell { Some((row, col)) } else { None });
    &&& target == step.0
    &&& new == SessionView {
        select_all_level: step.1,
        ..after_calls(old, seq![read] + select_all_calls(target, in_cell, row, col, id, rows, cols))
    }
}

/// A control's document and caret, with the editing state kept beside
/// them. `T` is the host's image texture type.
#[verifier::reject_recursive_types(T)]
pub struct EditorSession<T> {
    document: TextDocument,
    cursor: Option<TextCursor>,
    log: CallLog,
    images: ImageCache<T>,
    pending: PendingChars,
    clipboard: RichClipboard,
    select_all_level: SelectAllLevel,
    clicks: ClickCounter,
    signals: PendingSignals,
}

impl<T> View for EditorSession<T> {
    type V = SessionView<T>;

    closed spec fn view(&self) -> SessionView<T> {
        SessionView {
            has_cursor: self.cursor is Some,
            select_all_level: self.select_all_level.view_level(),
            clicks: self.clicks.view_count(),
            clipboard: self.clipboard@,
            pending: self.pending.view_text(),
            signals: self.signals@,
            images: self.images@,
            calls: self.log.calls(),
        }
    }
}

/// The selection that a click of a run makes after placing the caret.
pub fn click_selection(c: ClickSelection) -> (r: Option<Selection>)
    ensures
        r == match c {
            ClickSelection::Caret => None::<Selection>,
            ClickSelection::Word => Some(Selection::WordUnderCursor),
            ClickSelection::Line => Some(Selection::LineUnderCursor),
        },
{
    match c {
        ClickSelection::Caret => None,
        ClickSelection::Word => Some(Selection::WordUnderCursor),
        ClickSelection::Line => Some(Selection::LineUnderCursor),
    }
}

/// Reads whether the caret's block is a list item: the result is the
/// caret's position, whether a block is there, and whether that block is
/// in a list.
fn caret_in_list(log: &mut CallLog, doc: &TextDocument, c: &TextCursor) -> (r: (usize, bool, bool))
    ensures
        final(log).calls() == old(log).calls() + in_list_calls(r.0, r.1, r.2),
        !r.1 ==> !r.2,
{
    let p = cursor_position(log, c);
    if p as u64 > i64::MAX as u64 {
        proof {
            assert(log.calls() =~= old(log).calls() + in_list_calls(p, false, false));
        }
        return (p, false, false);
    }
    match doc_block_at_position(log, doc, p) {
        Some(block) => {
            let listed = block_list(log, &block).is_some();
            proof {
                assert(log.calls() =~= old(log).calls() + in_list_calls(p, true, listed));
            }
            (p, true, listed)
        },
        None => {
            proof {
                assert(log.calls() =~= old(log).calls() + in_list_calls(p, false, false));
            }
            (p, false, false)
        },
    }
}

/// Reads what list-aware editing needs at the caret (see [`list_reads`]):
/// whether it is at its block's start (when `reads_start`), its position,
/// whether a block is there, whether that block is in a list, and the
/// block's format for a list item.
fn list_state(log: &mut CallLog, doc: &TextDocument, c: &TextCursor, reads_start: bool) -> (r: (bool, usize, bool, bool, Option<BlockFormatInfo>))
    ensures
        final(log).calls() == old(log).calls() + list_reads(reads_start, r.0, r.1, r.2, r.3, r.4),
        !reads_start ==> r.0,
        !r.2 ==> !r.3,
        !(r.0 && r.2 && r.3) ==> r.4 is None,
{
    let ghost start = log.calls();
    let at_start = if reads_start {
        cursor_at_block_start(log, c)
    } else {
        true
    };
    let ghost after_start = log.calls();
    let (p, found, listed) = if at_start {
        caret_in_list(log, doc, c)
    } else {
        (0, false, false)
    };
    let ghost after_list = log.calls();
    let info = if at_start && found && listed {
        cursor_block_format(log, c)
    } else {
        None
    };
    proof {
        let s = if reads_start { seq![DocCall::AtBlockStart(at_start)] } else { Seq::<DocCall>::empty() };
        let l = if at_start { in_list_calls(p, found, listed) } else { Seq::<DocCall>::empty() };
        let f = if at_start && found && listed { seq![DocCall::BlockFormat(info)] } else { Seq::<DocCall>::empty() };
        assert(after_start =~= start + s);
        assert(after_list =~= start + s + l);
        assert(log.calls() =~= start + s + l + f);
        assert(list_reads(reads_start, at_start, p, found, listed, info) =~= s + l + f);
        assert(log.calls() =~= start + list_reads(reads_start, at_start, p, found, listed, info));
    }
    (at_start, p, found, listed, info)
}

/// Moves the caret to the first block of cell `p` of `table`, if the cell
/// exists and has one; the result is whether the cell was found, its number
/// of blocks and the first block's start.
fn go_to_cell(log: &mut CallLog, c: &TextCursor, table: &TextTable, p: CellPos) -> (r: (bool, usize, usize))
    ensures
        final(log).calls() == old(log).calls() + go_to_cell_calls(p, r.0, r.1 as nat, r.2),
{
    match table_cell(log, table, p.row, p.col) {
        Some(cell) => {
            let blocks = cell_blocks(log, &cell);
            if blocks.len() > 0 {
                let bp = block_position(log, &blocks[0]);
                cursor_set_position(log, c, bp, MoveMode::MoveAnchor);
                proof {
                    assert(log.calls() =~= old(log).calls() + go_to_cell_calls(p, true, blocks@.len(), bp));
                }
                (true, blocks.len(), bp)
            } else {
                proof {
                    assert(log.calls() =~= old(log).calls() + go_to_cell_calls(p, true, 0, 0));
                }
                (true, 0, 0)
            }
        },
        None => {
            proof {
                assert(log.calls() =~= old(log).calls() + go_to_cell_calls(p, false, 0, 0));
            }
            (false, 0, 0)
        },
    }
}

/// Moves from the cell (`row`, `col`) of `table` to the next
/// (`direction > 0`, adding a row after the last cell) or previous cell, as
/// [`next_cell`] decides; the result holds the table's size and what was
/// read of the target cell.
fn navigate_table_cell(log: &mut CallLog, c: &TextCursor, table: &TextTable, row: usize, col: usize, direction: i32) -> (r: (usize, usize, bool, usize, usize))
    ensures
        final(log).calls() == old(log).calls() + navigate_calls(row, col, r.0, r.1, direction, r.2, r.3 as nat, r.4),
{
    let rows = table_rows(log, table);
    let cols = table_columns(log, table);
    let ghost size = log.calls();
    if direction > 0 && (col == usize::MAX || (col + 1 >= cols && row == usize::MAX)) {
        // Coordinates this large do not occur in a document.
        proof {
            assert(log.calls() =~= old(log).calls() + navigate_calls(row, col, rows, cols, direction, false, 0, 0));
        }
        return (rows, cols, false, 0, 0);
    }
    let step = next_cell(row, col, rows, cols, direction);
    match step {
        CellStep::Stay => {
            proof {
                assert(log.calls() =~= old(log).calls() + navigate_calls(row, col, rows, cols, direction, false, 0, 0));
            }
            (rows, cols, false, 0, 0)
        },
        CellStep::Goto(p) => {
            let (found, n, bp) = go_to_cell(log, c, table, p);
            proof {
                assert(log.calls() =~= old(log).calls() + navigate_calls(row, col, rows, cols, direction, found, n as nat, bp));
            }
            (rows, cols, found, n, bp)
        },
        CellStep::AppendRowThenGoto(p) => {
            cursor_insert_row_below(log, c);
            let (found, n, bp) = go_to_cell(log, c, table, p);
            proof {
                assert(log.calls() =~= old(log).calls() + navigate_calls(row, col, rows, cols, direction, found, n as nat, bp));
            }
            (rows, cols, found, n, bp)
        },
    }
}

/// The top-level flow as seen by [`position_after_table`]; the result's
/// second part is what was read of each table's first cell.
fn flow_items(log: &mut CallLog, doc: &TextDocument) -> (r: (Vec<FlowItem>, Ghost<Seq<(bool, nat)>>))
    ensures
        flow_details_fit(r.0@, r.1@),
        final(log).calls() == old(log).calls() + seq![DocCall::Flow(r.0@.len())] + flow_read_calls(r.0@, r.1@),
{
    let mut flow = doc_flow(log, doc);
    let ghost head = log.calls();
    let ghost n = flow@.len();
    let mut items: Vec<FlowItem> = Vec::new();
    let ghost mut details: Seq<(bool, nat)> = Seq::empty();
    proof {
        assert(flow_read_calls(items@, details) =~= Seq::<DocCall>::empty());
        assert(log.calls() =~= head + flow_read_calls(items@, details));
    }
    while flow.len() > 0
        invariant
            items@.len() + flow@.len() == n,
            flow_details_fit(items@, details),
            log.calls() == head + flow_read_calls(items@, details),
        decreases flow.len(),
    {
        let ghost before = log.calls();
        let e = flow.remove(0);
        let (item, d) = match flow_part(e) {
            FlowPart::Block(b) => (FlowItem::Block { position: block_position(log, &b) }, Ghost((false, 0nat))),
            FlowPart::Table(t) => {
                let (first, found, count) = match table_cell(log, &t, 0, 0) {
                    Some(cell) => {
                        let blocks = cell_blocks(log, &cell);
                        if blocks.len() > 0 {
                            (Some(block_position(log, &blocks[0])), true, blocks.len())
                        } else {
                            (None, true, 0)
                        }
                    },
                    None => (None, false, 0),
                };
                (FlowItem::Table { id: table_id(log, &t), first_cell_position: first }, Ghost((found, count as nat)))
            },
            FlowPart::Frame => (FlowItem::Frame, Ghost((false, 0nat))),
        };
        proof {
            assert(log.calls() =~= before + flow_item_calls(item, d@));
        }
        let ghost old_items = items@;
        items.push(item);
        proof {
            let old_details = details;
            details = details.push(d@);
            assert(items@.drop_last() =~= old_items);
            assert(details.drop_last() =~= old_details);
            assert(log.calls() =~= head + flow_read_calls(items@, details));
            assert forall|i: int| 0 <= i < items@.len() && (#[trigger] items@[i] matches FlowItem::Table { first_cell_position: Some(_), .. })
                implies details[i].1 > 0 by {
                if i < old_items.len() {
                    assert(items@[i] == old_items[i]);
                }
            }
        }
    }
    proof {
        assert(log.calls() =~= old(log).calls() + seq![DocCall::Flow(items@.len())] + flow_read_calls(items@, details));
    }
    (items, Ghost(details))
}

/// Moves the caret to the first place after `table` in the flow, if there
/// is one; the result is what was read on the way.
fn move_cursor_after_table(log: &mut CallLog, doc: &TextDocument, c: &TextCursor, table: &TextTable) -> (r: Ghost<AfterTable>)
    ensures
        flow_details_fit(r@.items, r@.details),
        final(log).calls() == old(log).calls() + after_table_calls(r@.items, r@.details, r@.table_id),
{
    let (items, details) = flow_items(log, doc);
    let id = table_id(log, table);
    let ghost read = log.calls();
    let target = position_after_table(&items, id);
    if let Some(p) = target {
        cursor_set_position(log, c, p, MoveMode::MoveAnchor);
    }
    proof {
        assert(log.calls() =~= old(log).calls() + after_table_calls(items@, details@, id));
    }
    Ghost(AfterTable { items: items@, details: details@, table_id: id })
}

/// The text, or the empty string for none.
fn or_empty(s: Option<String>) -> (r: String)
    ensures
        r@ == match s {
            Some(t) => t@,
            None => Seq::<char>::empty(),
        },
{
    match s {
        Some(t) => t,
        None => String::new(),
    }
}

impl<T> EditorSession<T> {
    /// A session on a new, empty document, with a caret when `with_cursor`.
    pub fn new(with_cursor: bool) -> (r: Self)
        ensures
            r@.has_cursor == with_cursor,
            r@.select_all_level == 0,
            r@.clicks == 0,
            r@.clipboard.html is None && r@.clipboard.plain is None,
            r@.pending == Seq::<char>::empty(),
            r@.signals == nothing_due(),
            r@.images == Map::<Seq<char>, T>::empty(),
            r@.calls == Seq::<DocCall>::empty(),
    {
        let document = doc_new();
        let cursor = if with_cursor { Some(doc_cursor(&document)) } else { None };
        EditorSession {
            document,
            cursor,
            log: CallLog::new(),
            images: ImageCache::new(),
            pending: PendingChars::new(),
            clipboard: RichClipboard::new(),
            select_all_level: SelectAllLevel::new(),
            clicks: ClickCounter::new(),
            signals: PendingSignals::new(),
        }
    }

    /// Whether the session has a caret (the editor, or a selectable view).
    pub fn has_cursor(&self) -> (r: bool)
        ensures r == self@.has_cursor,
    {
        self.cursor.is_some()
    }

    /// Loads the control's initial content from the first non-empty of its
    /// markdown, HTML and plain text properties, waiting for the import to
    /// finish; the events of the load are dropped.
    pub fn load_initial(&mut self, markdown: &str, html: &str, text: &str) -> (r: ContentSource)
        ensures
            r == initial_content_source_spec(markdown@, html@, text@),
            exists|started: bool, events: Seq<DocEvent>|
                final(self)@ == #[trigger] after_calls(old(self)@, initial_load_calls(r, markdown@, html@, text@, started, events)),
    {
        let source = initial_content_source(markdown, html, text);
        match source {
            ContentSource::Markdown => {
                let op = doc_set_markdown(&mut self.log, &self.document, markdown);
                let started = op.is_some();
                if let Some(op) = op {
                    operation_wait(&mut self.log, op);
                }
                let events = doc_poll_events(&mut self.log, &self.document);
                proof {
                    assert(self@.calls =~= old(self)@.calls + initial_load_calls(source, markdown@, html@, text@, started, events@));
                    assert(self@ == after_calls(old(self)@, initial_load_calls(source, markdown@, html@, text@, started, events@)));
                }
            },
            ContentSource::Html => {
                let op = doc_set_html(&mut self.log, &self.document, html);
                let started = op.is_some();
                if let Some(op) = op {
                    operation_wait(&mut self.log, op);
                }
                let events = doc_poll_events(&mut self.log, &self.document);
                proof {
                    assert(self@.calls =~= old(self)@.calls + initial_load_calls(source, markdown@, html@, text@, started, events@));
                    assert(self@ == after_calls(old(self)@, initial_load_calls(source, markdown@, html@, text@, started, events@)));
                }
            },
            ContentSource::PlainText => {
                doc_set_plain_text(&mut self.log, &self.document, text);
                let events = doc_poll_events(&mut self.log, &self.document);
                proof {
                    assert(self@.calls =~= old(self)@.calls + initial_load_calls(source, markdown@, html@, text@, false, events@));
                    assert(self@ == after_calls(old(self)@, initial_load_calls(source, markdown@, html@, text@, false, events@)));
                }
            },
            ContentSource::Empty => {
                proof {
                    assert(self@.calls =~= old(self)@.calls + initial_load_calls(source, markdown@, html@, text@, false, Seq::empty()));
                    assert(self@ == after_calls(old(self)@, initial_load_calls(source, markdown@, html@, text@, false, Seq::empty())));
                }
            },
        }
        source
    }

    /// Replaces the content with plain text; the cached images go.
    pub fn set_plain_text(&mut self, text: &str)
        ensures
            final(self)@ == (SessionView {
                images: Map::<Seq<char>, T>::empty(),
                ..after_calls(old(self)@, seq![DocCall::SetPlainText(text@)])
            }),
    {
        doc_set_plain_text(&mut self.log, &self.document, text);
        self.images.clear();
        proof {
            assert(self@.calls =~= old(self)@.calls + seq![DocCall::SetPlainText(text@)]);
        }
    }

    /// Replaces the content with HTML (imported in the background); the
    /// cached images go.
    pub fn set_html(&mut self, html: &str)
        ensures
            exists|started: bool| final(self)@ == (SessionView {
                images: Map::<Seq<char>, T>::empty(),
                ..#[trigger] after_call(old(self)@, DocCall::SetHtml(html@, started))
            }),
    {
        let op = doc_set_html(&mut self.log, &self.document, html);
        self.images.clear();
        proof {
            assert(self@.calls =~= old(self)@.calls + seq![DocCall::SetHtml(html@, op is Some)]);
            assert(self@ == (SessionView {
                images: Map::<Seq<char>, T>::empty(),
                ..after_call(old(self)@, DocCall::SetHtml(html@, op is Some))
            }));
        }
    }

    /// Replaces the content with markdown (imported in the background); the
    /// cached images go.
    pub fn set_markdown(&mut self, markdown: &str)
        ensures
            exists|started: bool| final(self)@ == (SessionView {
                images: Map::<Seq<char>, T>::empty(),
                ..#[trigger] after_call(old(self)@, DocCall::SetMarkdown(markdown@, started))
            }),
    {
        let op = doc_set_markdown(&mut self.log, &self.document, markdown);
        self.images.clear();
        proof {
            assert(self@.calls =~= old(self)@.calls + seq![DocCall::SetMarkdown(markdown@, op is Some)]);
            assert(self@ == (SessionView {
                images: Map::<Seq<char>, T>::empty(),
                ..after_call(old(self)@, DocCall::SetMarkdown(markdown@, op is Some))
            }));
        }
    }

    /// Empties the document; the cached images go.
    pub fn clear(&mut self)
        ensures
            final(self)@ == (SessionView {
                images: Map::<Seq<char>, T>::empty(),
                ..after_calls(old(self)@, seq![DocCall::Clear])
            }),
    {
        doc_clear(&mut self.log, &self.document);
        self.images.clear();
        proof {
            assert(self@.calls =~= old(self)@.calls + seq![DocCall::Clear]);
        }
    }

    /// The document as plain text (empty if it cannot be exported).
    pub fn plain_text(&mut self) -> (r: String)
        ensures
            exists|t: Option<Seq<char>>|
                final(self)@ == #[trigger] after_call(old(self)@, DocCall::PlainText(t)) && r@ == text_or_empty(t),
    {
        let t = doc_to_plain_text(&mut self.log, &self.document);
        proof {
            assert(self@.calls =~= old(self)@.calls + seq![DocCall::PlainText(text_of(t))]);
            assert(self@ == after_call(old(self)@, DocCall::PlainText(text_of(t))));
        }
        or_empty(t)
    }

    /// The document as HTML (empty if it cannot be exported).
    pub fn html(&mut self) -> (r: String)
        ensures
            exists|t: Option<Seq<char>>|
                final(self)@ == #[trigger] after_call(old(self)@, DocCall::HtmlText(t)) && r@ == text_or_empty(t),
    {
        let t = doc_to_html(&mut self.log, &self.document);
        proof {
            assert(self@.calls =~= old(self)@.calls + seq![DocCall::HtmlText(text_of(t))]);
            assert(self@ == after_call(old(self)@, DocCall::HtmlText(text_of(t))));
        }
        or_empty(t)
    }

    /// The document as markdown (empty if it cannot be exported).
    pub fn markdown(&mut self) -> (r: String)
        ensures
            exists|t: Option<Seq<char>>|
                final(self)@ == #[trigger] after_call(old(self)@, DocCall::MarkdownText(t)) && r@ == text_or_empty(t),
    {
        let t = doc_to_markdown(&mut self.log, &self.document);
        proof {
            assert(self@.calls =~= old(self)@.calls + seq![DocCall::MarkdownText(text_of(t))]);
            assert(self@ == after_call(old(self)@, DocCall::MarkdownText(text_of(t))));
        }
        or_empty(t)
    }

    /// The number of characters, as the script reads it.
    pub fn character_count(&mut self) -> (r: i32)
        ensures
            exists|n: usize| final(self)@ == #[trigger] after_call(old(self)@, DocCall::CharacterCount(n)) && r == n as i32,
    {
        let n = doc_character_count(&mut self.log, &self.document);
        proof {
            assert(self@.calls =~= old(self)@.calls + seq![DocCall::CharacterCount(n)]);
            assert(self@ == after_call(old(self)@, DocCall::CharacterCount(n)));
        }
        count_as_i32(n)
    }

    /// The number of words, as the script reads it.
    pub fn word_count(&mut self) -> (r: i32)
        ensures
            exists|n: usize| final(self)@ == #[trigger] after_call(old(self)@, DocCall::WordCount(n)) && r == n as i32,
    {
        let n = doc_word_count(&mut self.log, &self.document);
        proof {
            assert(self@.calls =~= old(self)@.calls + seq![DocCall::WordCount(n)]);
            assert(self@ == after_call(old(self)@, DocCall::WordCount(n)));
        }
        count_as_i32(n)
    }

    /// The number of blocks, as the script reads it.
    pub fn block_count(&mut self) -> (r: i32)
        ensures
            exists|n: usize| final(self)@ == #[trigger] after_call(old(self)@, DocCall::BlockCount(n)) && r == n as i32,
    {
        let n = doc_block_count(&mut self.log, &self.document);
        proof {
            assert(self@.calls =~= old(self)@.calls + seq![DocCall::BlockCount(n)]);
            assert(self@ == after_call(old(self)@, DocCall::BlockCount(n)));
        }
        count_as_i32(n)
    }

    /// Undoes the last edit.
    pub fn undo(&mut self)
        ensures final(self)@ == after_calls(old(self)@, seq![DocCall::Undo]),
    {
        doc_undo(&mut self.log, &self.document);
        proof {
            assert(self@.calls =~= old(self)@.calls + seq![DocCall::Undo]);
        }
    }

    /// Redoes the last undone edit.
    pub fn redo(&mut self)
        ensures final(self)@ == after_calls(old(self)@, seq![DocCall::Redo]),
    {
        doc_redo(&mut self.log, &self.document);
        proof {
            assert(self@.calls =~= old(self)@.calls + seq![DocCall::Redo]);
        }
    }

    /// Whether there is an edit to undo.
    pub fn can_undo(&mut self) -> (r: bool)
        ensures final(self)@ == after_call(old(self)@, DocCall::CanUndo(r)),
    {
        let b = doc_can_undo(&mut self.log, &self.document);
        proof {
            assert(self@.calls =~= old(self)@.calls + seq![DocCall::CanUndo(b)]);
        }
        b
    }

    /// Whether there is an edit to redo.
    pub fn can_redo(&mut self) -> (r: bool)
        ensures final(self)@ == after_call(old(self)@, DocCall::CanRedo(r)),
    {
        let b = doc_can_redo(&mut self.log, &self.document);
        proof {
            assert(self@.calls =~= old(self)@.calls + seq![DocCall::CanRedo(b)]);
        }
        b
    }

    /// The bytes of the image resource `name`, if the document has them.
    pub fn resource(&mut self, name: &str) -> (r: Option<Vec<u8>>)
        ensures final(self)@ == after_call(old(self)@, DocCall::Resource(name@, bytes_of(r))),
    {
        let b = doc_resource(&mut self.log, &self.document, name);
        proof {
            assert(self@.calls =~= old(self)@.calls + seq![DocCall::Resource(name@, bytes_of(b))]);
        }
        b
    }

    /// A snapshot of the whole document for layout.
    pub fn snapshot_flow(&mut self) -> (r: FlowSnapshot)
        ensures final(self)@ == after_call(old(self)@, DocCall::SnapshotFlow),
    {
        let f = doc_snapshot_flow(&mut self.log, &self.document);
        proof {
            assert(self@.calls =~= old(self)@.calls + seq![DocCall::SnapshotFlow]);
        }
        f
    }

    /// A snapshot of the block at `position` for layout, if there is one.
    pub fn snapshot_block_at(&mut self, position: usize) -> (r: Option<BlockSnapshot>)
        ensures final(self)@ == after_call(old(self)@, DocCall::SnapshotBlockAt(position, r is Some)),
    {
        let b = doc_snapshot_block_at(&mut self.log, &self.document, position);
        proof {
            assert(self@.calls =~= old(self)@.calls + seq![DocCall::SnapshotBlockAt(position, b is Some)]);
        }
        b
    }

    /// Takes the image cache out of the session (to draw with it), leaving
    /// an empty one.
    pub fn take_images(&mut self) -> (r: ImageCache<T>)
        ensures
            r@ == old(self)@.images,
            final(self)@.images == Map::<Seq<char>, T>::empty(),
            same_state(final(self)@, old(self)@),
    {
        let mut out = ImageCache::new();
        std::mem::swap(&mut out, &mut self.images);
        out
    }

    /// Puts an image cache back into the session.
    pub fn restore_images(&mut self, images: ImageCache<T>)
        ensures
            final(self)@.images == images@,
            same_state(final(self)@, old(self)@),
    {
        self.images = images;
    }

    /// Takes the document's events since the last poll, summarizes them for
    /// the editor, and adds their notifications to the pending ones.
    pub fn poll_edit_events(&mut self) -> (r: EditEvents)
        ensures
            exists|events: Seq<DocEvent>| {
                &&& r@ == edit_events_spec(events)
                &&& final(self)@ == (SessionView {
                    signals: record_spec(old(self)@.signals, r@),
                    ..#[trigger] after_call(old(self)@, DocCall::PollEvents(events))
                })
            },
    {
        let events = doc_poll_events(&mut self.log, &self.document);
        let summary = classify_edit_events(&events);
        self.signals.record(&summary);
        proof {
            assert(self@.calls =~= old(self)@.calls + seq![DocCall::PollEvents(events@)]);
            assert(self@ == (SessionView {
                signals: record_spec(old(self)@.signals, summary@),
                ..after_call(old(self)@, DocCall::PollEvents(events@))
            }));
        }
        summary
    }

    /// Takes the document's events since the last poll and summarizes them
    /// for the viewer.
    pub fn poll_view_events(&mut self) -> (r: ViewEvents)
        ensures
            exists|events: Seq<DocEvent>|
                r == view_events_spec(events) && final(self)@ == #[trigger] after_call(old(self)@, DocCall::PollEvents(events)),
    {
        let events = doc_poll_events(&mut self.log, &self.document);
        proof {
            assert(self@.calls =~= old(self)@.calls + seq![DocCall::PollEvents(events@)]);
            assert(self@ == after_call(old(self)@, DocCall::PollEvents(events@)));
        }
        classify_view_events(&events)
    }

    /// Hands out the notifications that are due and clears them.
    pub fn take_due_signals(&mut self) -> (r: DueSignals)
        ensures
            r == old(self)@.signals,
            final(self)@ == (SessionView { signals: nothing_due(), ..old(self)@ }),
    {
        self.signals.take_due()
    }

    /// The caret position and the selection anchor, when there is a caret.
    pub fn caret_and_anchor(&mut self) -> (r: Option<(usize, usize)>)
        ensures
            r is Some == old(self)@.has_cursor,
            r is None ==> final(self)@ == old(self)@,
            r matches Some(x) ==> final(self)@ == after_calls(old(self)@, seq![DocCall::Position(x.0), DocCall::Anchor(x.1)]),
    {
        match &self.cursor {
            Some(c) => {
                let p = cursor_position(&mut self.log, c);
                let a = cursor_anchor(&mut self.log, c);
                proof {
                    assert(self@.calls =~= old(self)@.calls + seq![DocCall::Position(p), DocCall::Anchor(a)]);
                }
                Some((p, a))
            },
            None => None,
        }
    }

    /// The caret position as the script reads it (0 without a caret).
    pub fn caret_position(&mut self) -> (r: i32)
        ensures
            !old(self)@.has_cursor ==> r == 0 && final(self)@ == old(self)@,
            old(self)@.has_cursor ==> exists|p: usize|
                r == p as i32 && final(self)@ == #[trigger] after_call(old(self)@, DocCall::Position(p)),
    {
        match &self.cursor {
            Some(c) => {
                let p = cursor_position(&mut self.log, c);
                proof {
                    assert(self@.calls =~= old(self)@.calls + seq![DocCall::Position(p)]);
                    assert(self@ == after_call(old(self)@, DocCall::Position(p)));
                }
                count_as_i32(p)
            },
            None => 0,
        }
    }

    /// Places the caret at a script-facing position, dropping the selection;
    /// the result tells whether there is a caret.
    pub fn set_caret_position(&mut self, position: i32) -> (r: bool)
        ensures
            r == old(self)@.has_cursor,
            !r ==> final(self)@ == old(self)@,
            r ==> final(self)@ == after_calls(old(self)@, seq![DocCall::SetPosition(position as usize, MoveMode::MoveAnchor)]),
    {
        match &self.cursor {
            Some(c) => {
                cursor_set_position(&mut self.log, c, size_as_usize(position), MoveMode::MoveAnchor);
                proof {
                    assert(self@.calls =~= old(self)@.calls + seq![DocCall::SetPosition(position as usize, MoveMode::MoveAnchor)]);
                }
                true
            },
            None => false,
        }
    }

    /// Places the caret at a document position; the result tells whether
    /// there is a caret.
    pub fn set_caret(&mut self, position: usize, mode: MoveMode) -> (r: bool)
        ensures
            r == old(self)@.has_cursor,
            !r ==> final(self)@ == old(self)@,
            r ==> final(self)@ == after_calls(old(self)@, seq![DocCall::SetPosition(position, mode)]),
    {
        match &self.cursor {
            Some(c) => {
                cursor_set_position(&mut self.log, c, position, mode);
                proof {
                    assert(self@.calls =~= old(self)@.calls + seq![DocCall::SetPosition(position, mode)]);
                }
                true
            },
            None => false,
        }
    }

    /// Moves the caret once; the result tells whether there is a caret.
    pub fn move_caret(&mut self, op: MoveOp, mode: MoveMode) -> (r: bool)
        ensures
            r == old(self)@.has_cursor,
            !r ==> final(self)@ == old(self)@,
            r ==> final(self)@ == after_calls(old(self)@, seq![DocCall::Move(op, mode)]),
    {
        match &self.cursor {
            Some(c) => {
                cursor_move_position(&mut self.log, c, op, mode);
                proof {
                    assert(self@.calls =~= old(self)@.calls + seq![DocCall::Move(op, mode)]);
                }
                true
            },
            None => false,
        }
    }

    /// Selects around the caret; the result tells whether there is a caret.
    pub fn select(&mut self, what: Selection) -> (r: bool)
        ensures
            r == old(self)@.has_cursor,
            !r ==> final(self)@ == old(self)@,
            r ==> final(self)@ == after_calls(old(self)@, seq![DocCall::Select(what)]),
    {
        match &self.cursor {
            Some(c) => {
                cursor_select(&mut self.log, c, what);
                proof {
                    assert(self@.calls =~= old(self)@.calls + seq![DocCall::Select(what)]);
                }
                true
            },
            None => false,
        }
    }

    /// Drops the selection; the result tells whether there is a caret.
    pub fn deselect(&mut self) -> (r: bool)
        ensures
            r == old(self)@.has_cursor,
            !r ==> final(self)@ == old(self)@,
            r ==> final(self)@ == after_calls(old(self)@, seq![DocCall::ClearSelection]),
    {
        match &self.cursor {
            Some(c) => {
                cursor_clear_selection(&mut self.log, c);
                proof {
                    assert(self@.calls =~= old(self)@.calls + seq![DocCall::ClearSelection]);
                }
                true
            },
            None => false,
        }
    }

    /// The selected text (empty without a caret or on error).
    pub fn selected_text(&mut self) -> (r: String)
        ensures
            !old(self)@.has_cursor ==> r@ == Seq::<char>::empty() && final(self)@ == old(self)@,
            old(self)@.has_cursor ==> exists|t: Option<Seq<char>>| {
                &&& final(self)@ == #[trigger] after_call(old(self)@, DocCall::SelectedText(t))
                &&& r@ == match t {
                    Some(s) => s,
                    None => Seq::<char>::empty(),
                }
            },
    {
        match &self.cursor {
            Some(c) => {
                let t = cursor_selected_text(&mut self.log, c);
                proof {
                    let v = match &t {
                        Some(s) => Some(s@),
                        None => None,
                    };
                    assert(self@.calls =~= old(self)@.calls + seq![DocCall::SelectedText(v)]);
                    assert(self@ == after_call(old(self)@, DocCall::SelectedText(v)));
                }
                or_empty(t)
            },
            None => String::new(),
        }
    }

    /// Whether some text is selected.
    pub fn has_selection(&mut self) -> (r: bool)
        ensures
            !old(self)@.has_cursor ==> !r && final(self)@ == old(self)@,
            old(self)@.has_cursor ==> final(self)@ == after_calls(old(self)@, seq![DocCall::HasSelection(r)]),
    {
        match &self.cursor {
            Some(c) => {
                let h = cursor_has_selection(&mut self.log, c);
                proof {
                    assert(self@.calls =~= old(self)@.calls + seq![DocCall::HasSelection(h)]);
                }
                h
            },
            None => false,
        }
    }

    /// Whether the caret is in a table.
    pub fn is_in_table(&mut self) -> (r: bool)
        ensures
            !old(self)@.has_cursor ==> !r && final(self)@ == old(self)@,
            old(self)@.has_cursor ==> final(self)@ == after_calls(old(self)@, seq![DocCall::InTable(r)]),
    {
        match &self.cursor {
            Some(c) => {
                let t = cursor_current_table(&mut self.log, c).is_some();
                proof {
                    assert(self@.calls =~= old(self)@.calls + seq![DocCall::InTable(t)]);
                }
                t
            },
            None => false,
        }
    }

    /// Buffers a typed character; the characters of a frame are inserted
    /// together by [`Self::flush_pending_chars`].
    pub fn push_char(&mut self, c: char)
        ensures
            final(self)@ == (SessionView { pending: old(self)@.pending.push(c), ..old(self)@ }),
    {
        self.pending.push(c);
    }

    /// Inserts the buffered characters at the caret as one insertion and
    /// empties the buffer; the result is the inserted text, if any was
    /// buffered and there is a caret.
    pub fn flush_pending_chars(&mut self) -> (r: Option<String>)
        ensures
            old(self)@.pending.len() == 0 || !old(self)@.has_cursor ==> r is None
                && final(self)@ == (SessionView { pending: Seq::<char>::empty(), ..old(self)@ }),
            old(self)@.pending.len() > 0 && old(self)@.has_cursor ==> (r matches Some(s) && s@ == old(self)@.pending)
                && final(self)@ == (SessionView {
                    pending: Seq::<char>::empty(),
                    ..after_calls(old(self)@, seq![DocCall::Edit(CaretEdit::InsertText(old(self)@.pending))])
                }),
    {
        let text = self.pending.take();
        match text {
            Some(s) => match &self.cursor {
                Some(c) => {
                    cursor_insert_text(&mut self.log, c, s.as_str());
                    proof {
                        assert(self@.calls =~= old(self)@.calls + seq![DocCall::Edit(CaretEdit::InsertText(s@))]);
                    }
                    Some(s)
                },
                None => None,
            },
            None => None,
        }
    }

    /// Inserts text at the caret.
    pub fn insert_text(&mut self, text: &str)
        ensures
            !old(self)@.has_cursor ==> final(self)@ == old(self)@,
            old(self)@.has_cursor ==> final(self)@ == after_calls(old(self)@, seq![DocCall::Edit(CaretEdit::InsertText(text@))]),
    {
        if let Some(c) = &self.cursor {
            cursor_insert_text(&mut self.log, c, text);
            proof {
                assert(self@.calls =~= old(self)@.calls + seq![DocCall::Edit(CaretEdit::InsertText(text@))]);
            }
        }
    }

    /// Inserts HTML at the caret.
    pub fn insert_html(&mut self, html: &str)
        ensures
            !old(self)@.has_cursor ==> final(self)@ == old(self)@,
            old(self)@.has_cursor ==> final(self)@ == after_calls(old(self)@, seq![DocCall::Edit(CaretEdit::InsertHtml(html@))]),
    {
        if let Some(c) = &self.cursor {
            cursor_insert_html(&mut self.log, c, html);
            proof {
                assert(self@.calls =~= old(self)@.calls + seq![DocCall::Edit(CaretEdit::InsertHtml(html@))]);
            }
        }
    }

    /// Inserts the image resource `name` at the caret, with a script-facing
    /// size.
    pub fn insert_image(&mut self, name: &str, width: i32, height: i32)
        ensures
            !old(self)@.has_cursor ==> final(self)@ == old(self)@,
            old(self)@.has_cursor ==> final(self)@ == after_calls(old(self)@, seq![DocCall::Edit(CaretEdit::InsertImage(name@, width as u32, height as u32))]),
    {
        if let Some(c) = &self.cursor {
            cursor_insert_image(&mut self.log, c, name, size_as_u32(width), size_as_u32(height));
            proof {
                assert(self@.calls =~= old(self)@.calls + seq![DocCall::Edit(CaretEdit::InsertImage(name@, width as u32, height as u32))]);
            }
        }
    }

    /// Deletes the selected text.
    pub fn delete_selection(&mut self)
        ensures
            !old(self)@.has_cursor ==> final(self)@ == old(self)@,
            old(self)@.has_cursor ==> final(self)@ == after_calls(old(self)@, seq![DocCall::Edit(CaretEdit::DeleteSelection)]),
    {
        if let Some(c) = &self.cursor {
            cursor_remove_selected_text(&mut self.log, c);
            proof {
                assert(self@.calls =~= old(self)@.calls + seq![DocCall::Edit(CaretEdit::DeleteSelection)]);
            }
        }
    }

    /// Ctrl+Enter: starts a new paragraph at the caret.
    pub fn insert_block(&mut self)
        ensures
            !old(self)@.has_cursor ==> final(self)@ == old(self)@,
            old(self)@.has_cursor ==> final(self)@ == after_calls(old(self)@, seq![DocCall::Edit(CaretEdit::InsertBlock)]),
    {
        if let Some(c) = &self.cursor {
            cursor_insert_block(&mut self.log, c);
            proof {
                assert(self@.calls =~= old(self)@.calls + seq![DocCall::Edit(CaretEdit::InsertBlock)]);
            }
        }
    }

    /// Delete: removes the character after the caret.
    pub fn delete_char(&mut self)
        ensures
            !old(self)@.has_cursor ==> final(self)@ == old(self)@,
            old(self)@.has_cursor ==> final(self)@ == after_calls(old(self)@, seq![DocCall::Edit(CaretEdit::DeleteChar)]),
    {
        if let Some(c) = &self.cursor {
            cursor_delete_char(&mut self.log, c);
            proof {
                assert(self@.calls =~= old(self)@.calls + seq![DocCall::Edit(CaretEdit::DeleteChar)]);
            }
        }
    }

    /// Applies a character format change at the caret (to the selection).
    pub fn merge_char_format(&mut self, change: CharFormatChange)
        ensures
            !old(self)@.has_cursor ==> final(self)@ == old(self)@,
            old(self)@.has_cursor ==> final(self)@ == after_calls(old(self)@, seq![DocCall::Edit(CaretEdit::MergeCharFormat(change@))]),
    {
        if let Some(c) = &self.cursor {
            let ghost v = change@;
            cursor_merge_char_format(&mut self.log, c, change);
            proof {
                assert(self@.calls =~= old(self)@.calls + seq![DocCall::Edit(CaretEdit::MergeCharFormat(v))]);
            }
        }
    }

    /// Applies a block format change to the caret's block.
    pub fn set_block_format(&mut self, change: BlockFormatChange)
        ensures
            !old(self)@.has_cursor ==> final(self)@ == old(self)@,
            old(self)@.has_cursor ==> final(self)@ == after_calls(old(self)@, seq![DocCall::Edit(CaretEdit::SetBlockFormat(change))]),
    {
        if let Some(c) = &self.cursor {
            cursor_set_block_format(&mut self.log, c, change);
            proof {
                assert(self@.calls =~= old(self)@.calls + seq![DocCall::Edit(CaretEdit::SetBlockFormat(change))]);
            }
        }
    }

    /// Makes the caret's paragraphs a numbered (`ordered`) or bullet list.
    pub fn insert_list(&mut self, ordered: bool)
        ensures
            !old(self)@.has_cursor ==> final(self)@ == old(self)@,
            old(self)@.has_cursor ==> final(self)@ == after_calls(old(self)@, seq![DocCall::Edit(CaretEdit::CreateList(if ordered { ListKind::Decimal } else { ListKind::Disc }))]),
    {
        if let Some(c) = &self.cursor {
            cursor_create_list(&mut self.log, c, list_kind(ordered));
            proof {
                assert(self@.calls =~= old(self)@.calls + seq![DocCall::Edit(CaretEdit::CreateList(if ordered { ListKind::Decimal } else { ListKind::Disc }))]);
            }
        }
    }

    /// Removes the caret's table.
    pub fn remove_current_table(&mut self)
        ensures
            !old(self)@.has_cursor ==> final(self)@ == old(self)@,
            old(self)@.has_cursor ==> final(self)@ == after_calls(old(self)@, seq![DocCall::Edit(CaretEdit::RemoveTable)]),
    {
        if let Some(c) = &self.cursor {
            cursor_remove_current_table(&mut self.log, c);
            proof {
                assert(self@.calls =~= old(self)@.calls + seq![DocCall::Edit(CaretEdit::RemoveTable)]);
            }
        }
    }

    /// Inserts a row above the caret's row.
    pub fn insert_row_above(&mut self)
        ensures
            !old(self)@.has_cursor ==> final(self)@ == old(self)@,
            old(self)@.has_cursor ==> final(self)@ == after_calls(old(self)@, seq![DocCall::Edit(CaretEdit::InsertRowAbove)]),
    {
        if let Some(c) = &self.cursor {
            cursor_insert_row_above(&mut self.log, c);
            proof {
                assert(self@.calls =~= old(self)@.calls + seq![DocCall::Edit(CaretEdit::InsertRowAbove)]);
            }
        }
    }

    /// Inserts a row below the caret's row.
    pub fn insert_row_below(&mut self)
        ensures
            !old(self)@.has_cursor ==> final(self)@ == old(self)@,
            old(self)@.has_cursor ==> final(self)@ == after_calls(old(self)@, seq![DocCall::Edit(CaretEdit::InsertRowBelow)]),
    {
        if let Some(c) = &self.cursor {
            cursor_insert_row_below(&mut self.log, c);
            proof {
                assert(self@.calls =~= old(self)@.calls + seq![DocCall::Edit(CaretEdit::InsertRowBelow)]);
            }
        }
    }

    /// Inserts a column before the caret's column.
    pub fn insert_column_before(&mut self)
        ensures
            !old(self)@.has_cursor ==> final(self)@ == old(self)@,
            old(self)@.has_cursor ==> final(self)@ == after_calls(old(self)@, seq![DocCall::Edit(CaretEdit::InsertColumnBefore)]),
    {
        if let Some(c) = &self.cursor {
            cursor_insert_column_before(&mut self.log, c);
            proof {
                assert(self@.calls =~= old(self)@.calls + seq![DocCall::Edit(CaretEdit::InsertColumnBefore)]);
            }
        }
    }

    /// Inserts a column after the caret's column.
    pub fn insert_column_after(&mut self)
        ensures
            !old(self)@.has_cursor ==> final(self)@ == old(self)@,
            old(self)@.has_cursor ==> final(self)@ == after_calls(old(self)@, seq![DocCall::Edit(CaretEdit::InsertColumnAfter)]),
    {
        if let Some(c) = &self.cursor {
            cursor_insert_column_after(&mut self.log, c);
            proof {
                assert(self@.calls =~= old(self)@.calls + seq![DocCall::Edit(CaretEdit::InsertColumnAfter)]);
            }
        }
    }

    /// Removes the caret's row.
    pub fn remove_current_row(&mut self)
        ensures
            !old(self)@.has_cursor ==> final(self)@ == old(self)@,
            old(self)@.has_cursor ==> final(self)@ == after_calls(old(self)@, seq![DocCall::Edit(CaretEdit::RemoveRow)]),
    {
        if let Some(c) = &self.cursor {
            cursor_remove_current_row(&mut self.log, c);
            proof {
                assert(self@.calls =~= old(self)@.calls + seq![DocCall::Edit(CaretEdit::RemoveRow)]);
            }
        }
    }

    /// Removes the caret's column.
    pub fn remove_current_column(&mut self)
        ensures
            !old(self)@.has_cursor ==> final(self)@ == old(self)@,
            old(self)@.has_cursor ==> final(self)@ == after_calls(old(self)@, seq![DocCall::Edit(CaretEdit::RemoveColumn)]),
    {
        if let Some(c) = &self.cursor {
            cursor_remove_current_column(&mut self.log, c);
            proof {
                assert(self@.calls =~= old(self)@.calls + seq![DocCall::Edit(CaretEdit::RemoveColumn)]);
            }
        }
    }

    /// Sets bold on or off.
    pub fn set_bold(&mut self, enabled: bool)
        ensures
            !old(self)@.has_cursor ==> final(self)@ == old(self)@,
            old(self)@.has_cursor ==> final(self)@ == after_calls(old(self)@, seq![DocCall::Edit(CaretEdit::MergeCharFormat(CharFormatChangeView::Bold(enabled)))]),
    {
        self.merge_char_format(CharFormatChange::Bold(enabled));
    }

    /// Sets italic on or off.
    pub fn set_italic(&mut self, enabled: bool)
        ensures
            !old(self)@.has_cursor ==> final(self)@ == old(self)@,
            old(self)@.has_cursor ==> final(self)@ == after_calls(old(self)@, seq![DocCall::Edit(CaretEdit::MergeCharFormat(CharFormatChangeView::Italic(enabled)))]),
    {
        self.merge_char_format(CharFormatChange::Italic(enabled));
    }

    /// Sets underline on or off.
    pub fn set_underline(&mut self, enabled: bool)
        ensures
            !old(self)@.has_cursor ==> final(self)@ == old(self)@,
            old(self)@.has_cursor ==> final(self)@ == after_calls(old(self)@, seq![DocCall::Edit(CaretEdit::MergeCharFormat(CharFormatChangeView::Underline(enabled)))]),
    {
        self.merge_char_format(CharFormatChange::Underline(enabled));
    }

    /// Sets strike-out on or off.
    pub fn set_strikethrough(&mut self, enabled: bool)
        ensures
            !old(self)@.has_cursor ==> final(self)@ == old(self)@,
            old(self)@.has_cursor ==> final(self)@ == after_calls(old(self)@, seq![DocCall::Edit(CaretEdit::MergeCharFormat(CharFormatChangeView::Strikeout(enabled)))]),
    {
        self.merge_char_format(CharFormatChange::Strikeout(enabled));
    }

    /// Sets the font size from a script-facing value.
    pub fn set_font_size(&mut self, size: i32)
        ensures
            !old(self)@.has_cursor ==> final(self)@ == old(self)@,
            old(self)@.has_cursor ==> final(self)@ == after_calls(old(self)@, seq![DocCall::Edit(CaretEdit::MergeCharFormat(CharFormatChangeView::PointSize(size as u32)))]),
    {
        self.merge_char_format(CharFormatChange::PointSize(size_as_u32(size)));
    }

    /// Sets the font family.
    pub fn set_font_family(&mut self, family: String)
        ensures
            !old(self)@.has_cursor ==> final(self)@ == old(self)@,
            old(self)@.has_cursor ==> final(self)@ == after_calls(old(self)@, seq![DocCall::Edit(CaretEdit::MergeCharFormat(CharFormatChangeView::Family(family@)))]),
    {
        self.merge_char_format(CharFormatChange::Family(family));
    }

    /// Sets the alignment from a script-facing code.
    pub fn set_alignment(&mut self, code: i32)
        ensures
            !old(self)@.has_cursor ==> final(self)@ == old(self)@,
            old(self)@.has_cursor ==> final(self)@ == after_calls(old(self)@, seq![DocCall::Edit(CaretEdit::SetBlockFormat(BlockFormatChange::Alignment(alignment_of_code(code))))]),
    {
        self.set_block_format(BlockFormatChange::Alignment(alignment_from_code(code)));
    }

    /// Sets the heading level from a script-facing value.
    pub fn set_heading_level(&mut self, level: i32)
        ensures
            !old(self)@.has_cursor ==> final(self)@ == old(self)@,
            old(self)@.has_cursor ==> final(self)@ == after_calls(old(self)@, seq![DocCall::Edit(CaretEdit::SetBlockFormat(BlockFormatChange::HeadingLevel(level as u8)))]),
    {
        self.set_block_format(BlockFormatChange::HeadingLevel(heading_level_byte(level)));
    }

    /// Ctrl+Backspace / Ctrl+Delete: selects to the word boundary in the
    /// given direction and deletes the selection.
    pub fn delete_word(&mut self, op: MoveOp)
        ensures
            !old(self)@.has_cursor ==> final(self)@ == old(self)@,
            old(self)@.has_cursor ==> final(self)@ == after_calls(old(self)@, seq![
                DocCall::Move(op, MoveMode::KeepAnchor),
                DocCall::Edit(CaretEdit::DeleteSelection),
            ]),
    {
        if let Some(c) = &self.cursor {
            cursor_move_position(&mut self.log, c, op, MoveMode::KeepAnchor);
            cursor_remove_selected_text(&mut self.log, c);
            proof {
                assert(self@.calls =~= old(self)@.calls + seq![
                    DocCall::Move(op, MoveMode::KeepAnchor),
                    DocCall::Edit(CaretEdit::DeleteSelection),
                ]);
            }
        }
    }

    /// Inserts a table of script-facing size at the caret; a negative size
    /// inserts nothing.
    pub fn insert_table(&mut self, rows: i32, cols: i32)
        ensures
            !old(self)@.has_cursor || rows < 0 || cols < 0 ==> final(self)@ == old(self)@,
            old(self)@.has_cursor && rows >= 0 && cols >= 0 ==> final(self)@ == after_calls(old(self)@, seq![
                DocCall::Edit(CaretEdit::InsertTable(rows as usize, cols as usize)),
            ]),
    {
        if rows < 0 || cols < 0 {
            return;
        }
        if let Some(c) = &self.cursor {
            cursor_insert_table(&mut self.log, c, rows as usize, cols as usize);
            proof {
                assert(self@.calls =~= old(self)@.calls + seq![DocCall::Edit(CaretEdit::InsertTable(rows as usize, cols as usize))]);
            }
        }
    }

    /// The character format where the toolbar reads it: in the block at the
    /// start of the selection if there is one, else at the caret.
    pub fn query_char_format(&mut self) -> (r: Option<CharFlags>)
        ensures
            !old(self)@.has_cursor ==> r is None && final(self)@ == old(self)@,
            old(self)@.has_cursor ==> format_read(old(self)@, final(self)@, r),
    {
        let c = match &self.cursor {
            Some(c) => c,
            None => {
                return None;
            },
        };
        let h = cursor_has_selection(&mut self.log, c);
        let s = cursor_selection_start(&mut self.log, c);
        let p = cursor_position(&mut self.log, c);
        let pos = format_query_position(h, s, p);
        if pos as u64 > i64::MAX as u64 {
            proof {
                assert(self@.calls =~= old(self)@.calls + char_format_calls(h, s, p, false, 0, None));
                assert(format_read_with(old(self)@, self@, None, h, s, p, false, 0));
            }
            return None;
        }
        match doc_block_at_position(&mut self.log, &self.document, pos) {
            Some(block) => {
                let bs = block_position(&mut self.log, &block);
                let offset = offset_in_block(pos, bs);
                let f = block_char_format_at(&mut self.log, &block, offset);
                proof {
                    assert(self@.calls =~= old(self)@.calls + char_format_calls(h, s, p, true, bs, f));
                    assert(format_read_with(old(self)@, self@, f, h, s, p, true, bs));
                }
                f
            },
            None => {
                proof {
                    assert(self@.calls =~= old(self)@.calls + char_format_calls(h, s, p, false, 0, None));
                    assert(format_read_with(old(self)@, self@, None, h, s, p, false, 0));
                }
                None
            },
        }
    }

    /// Whether the text where the toolbar reads the format is bold.
    pub fn is_bold(&mut self) -> (r: bool)
        ensures
            !old(self)@.has_cursor ==> !r && final(self)@ == old(self)@,
            old(self)@.has_cursor ==> exists|f: Option<CharFlags>|
                #[trigger] format_read(old(self)@, final(self)@, f) && r == (f matches Some(x) && x.bold == Some(true)),
    {
        match self.query_char_format() {
            Some(f) => format_flag(f.bold),
            None => false,
        }
    }

    /// Whether the text where the toolbar reads the format is italic.
    pub fn is_italic(&mut self) -> (r: bool)
        ensures
            !old(self)@.has_cursor ==> !r && final(self)@ == old(self)@,
            old(self)@.has_cursor ==> exists|f: Option<CharFlags>|
                #[trigger] format_read(old(self)@, final(self)@, f) && r == (f matches Some(x) && x.italic == Some(true)),
    {
        match self.query_char_format() {
            Some(f) => format_flag(f.italic),
            None => false,
        }
    }

    /// Whether the text where the toolbar reads the format is underlined.
    pub fn is_underline(&mut self) -> (r: bool)
        ensures
            !old(self)@.has_cursor ==> !r && final(self)@ == old(self)@,
            old(self)@.has_cursor ==> exists|f: Option<CharFlags>|
                #[trigger] format_read(old(self)@, final(self)@, f) && r == (f matches Some(x) && x.underline == Some(true)),
    {
        match self.query_char_format() {
            Some(f) => format_flag(f.underline),
            None => false,
        }
    }

    /// Whether the text where the toolbar reads the format is struck out.
    pub fn is_strikethrough(&mut self) -> (r: bool)
        ensures
            !old(self)@.has_cursor ==> !r && final(self)@ == old(self)@,
            old(self)@.has_cursor ==> exists|f: Option<CharFlags>|
                #[trigger] format_read(old(self)@, final(self)@, f) && r == (f matches Some(x) && x.strikeout == Some(true)),
    {
        match self.query_char_format() {
            Some(f) => format_flag(f.strikeout),
            None => false,
        }
    }

    /// The caret block's format, if it can be read.
    fn block_format_info(&mut self) -> (r: Option<BlockFormatInfo>)
        ensures
            !old(self)@.has_cursor ==> r is None && final(self)@ == old(self)@,
            old(self)@.has_cursor ==> final(self)@ == after_calls(old(self)@, seq![DocCall::BlockFormat(r)]),
    {
        match &self.cursor {
            Some(c) => {
                let f = cursor_block_format(&mut self.log, c);
                proof {
                    assert(self@.calls =~= old(self)@.calls + seq![DocCall::BlockFormat(f)]);
                    assert(self@ == after_call(old(self)@, DocCall::BlockFormat(f)));
                }
                f
            },
            None => None,
        }
    }

    /// The caret block's heading level as the script reads it (0 for none).
    pub fn heading_level(&mut self) -> (r: i32)
        ensures
            !old(self)@.has_cursor ==> r == 0 && final(self)@ == old(self)@,
            old(self)@.has_cursor ==> exists|info: Option<BlockFormatInfo>| {
                &&& final(self)@ == #[trigger] after_call(old(self)@, DocCall::BlockFormat(info))
                &&& r == match info {
                    Some(f) => match f.heading_level {
                        Some(l) => l as int,
                        None => 0,
                    },
                    None => 0,
                }
            },
    {
        let info = self.block_format_info();
        proof {
            if old(self)@.has_cursor {
                assert(self@ == after_call(old(self)@, DocCall::BlockFormat(info)));
            }
        }
        match info {
            Some(f) => heading_level_code(f.heading_level),
            None => 0,
        }
    }

    /// The caret block's alignment as the script reads it (0 for left or
    /// none).
    pub fn alignment(&mut self) -> (r: i32)
        ensures
            !old(self)@.has_cursor ==> r == 0 && final(self)@ == old(self)@,
            old(self)@.has_cursor ==> exists|info: Option<BlockFormatInfo>| {
                &&& final(self)@ == #[trigger] after_call(old(self)@, DocCall::BlockFormat(info))
                &&& r == match info {
                    Some(f) => code_of_alignment(f.alignment),
                    None => 0,
                }
            },
    {
        let info = self.block_format_info();
        proof {
            if old(self)@.has_cursor {
                assert(self@ == after_call(old(self)@, DocCall::BlockFormat(info)));
            }
        }
        match info {
            Some(f) => alignment_code(f.alignment),
            None => 0,
        }
    }

    /// Flips a format flag at the caret: on where the caret's format does
    /// not have it on, else off. The result is the value set.
    pub fn toggle(&mut self, flag: FormatFlag) -> (r: bool)
        ensures
            !old(self)@.has_cursor ==> r && final(self)@ == old(self)@,
            old(self)@.has_cursor ==> exists|f: Option<CharFlags>| {
                &&& r == (flag_in(flag, f) != Some(true))
                &&& final(self)@ == #[trigger] after_two_calls(old(self)@,
                    DocCall::CharFormat(f),
                    DocCall::Edit(CaretEdit::MergeCharFormat(flag_change(flag, r))))
            },
    {
        let read = match &self.cursor {
            Some(c) => Some(cursor_char_format(&mut self.log, c)),
            None => None,
        };
        let ghost mid = self@;
        let current = match read {
            Some(Some(f)) => match flag {
                FormatFlag::Bold => f.bold,
                FormatFlag::Italic => f.italic,
                FormatFlag::Underline => f.underline,
            },
            _ => None,
        };
        let value = toggled_flag(current);
        match flag {
            FormatFlag::Bold => self.set_bold(value),
            FormatFlag::Italic => self.set_italic(value),
            FormatFlag::Underline => self.set_underline(value),
        }
        proof {
            if old(self)@.has_cursor {
                let f = read.unwrap();
                assert(self@.calls =~= old(self)@.calls + seq![
                    DocCall::CharFormat(f),
                    DocCall::Edit(CaretEdit::MergeCharFormat(flag_change(flag, value))),
                ]);
                assert(self@ == after_two_calls(old(self)@,
                    DocCall::CharFormat(f),
                    DocCall::Edit(CaretEdit::MergeCharFormat(flag_change(flag, value)))));
            }
        }
        value
    }

    /// Backspace: outdents or leaves a list at the start of a list item,
    /// else deletes the previous character. The result holds what was read
    /// (caret at block start, in a list, the block's indent) and the edit
    /// made from it.
    pub fn backspace(&mut self) -> (r: Option<(bool, bool, Option<Option<u8>>, BackspaceEdit)>)
        ensures
            r is Some == old(self)@.has_cursor,
            r is None ==> final(self)@ == old(self)@,
            r matches Some(x) ==> x.3 == backspace_spec(x.0, x.1, x.2),
            r matches Some(x) ==> exists|p: usize, found: bool, listed: bool, info: Option<BlockFormatInfo>|
                #[trigger] list_edit_made(old(self)@, final(self)@, true, x.0, x.1, x.2, backspace_calls(x.3), p, found, listed, info),
    {
        let c = match &self.cursor {
            Some(c) => c,
            None => {
                return None;
            },
        };
        let (at_start, p, found, listed, info) = list_state(&mut self.log, &self.document, c, true);
        let ghost reads = self@.calls;
        let in_list = at_start && found && listed;
        let indent = if in_list {
            match info {
                Some(f) => Some(f.indent),
                None => None,
            }
        } else {
            None
        };
        let edit = backspace_edit(at_start, in_list, indent);
        match edit {
            BackspaceEdit::SetIndent(n) => cursor_set_block_format(&mut self.log, c, BlockFormatChange::Indent(n)),
            BackspaceEdit::RemoveFromList => cursor_remove_current_block_from_list(&mut self.log, c),
            BackspaceEdit::DeletePrevious => cursor_delete_previous_char(&mut self.log, c),
            BackspaceEdit::Keep => {},
        }
        proof {
            assert(self@.calls =~= reads + backspace_calls(edit));
            assert(self@.calls =~= old(self)@.calls + (list_reads(true, at_start, p, found, listed, info) + backspace_calls(edit)));
            assert(list_edit_made(old(self)@, self@, true, at_start, in_list, indent, backspace_calls(edit), p, found, listed, info));
        }
        Some((at_start, in_list, indent, edit))
    }

    /// Tab: next table cell, list indent, or a tab character. The result
    /// holds what was read (in a table cell, caret at block start, in a
    /// list, the block's indent) and the edit made from it.
    pub fn tab(&mut self) -> (r: Option<(bool, bool, bool, Option<Option<u8>>, TabEdit)>)
        ensures
            r is Some == old(self)@.has_cursor,
            r is None ==> final(self)@ == old(self)@,
            r matches Some(x) ==> x.4 == (if x.3 == Some(Some(255u8)) {
                TabEdit::Keep
            } else {
                tab_spec(x.0, x.1, x.2, x.3)
            }),
            r matches Some(x) ==> (x.0 ==> exists|row: usize, col: usize, rows: usize, cols: usize, found: bool, n: nat, bp: usize|
                #[trigger] navigated(old(self)@, final(self)@, 1, row, col, rows, cols, found, n, bp)),
            r matches Some(x) ==> (!x.0 ==> exists|p: usize, found: bool, listed: bool, info: Option<BlockFormatInfo>|
                #[trigger] list_edit_made(
                    after_calls(old(self)@, seq![DocCall::CurrentCell(None)]),
                    final(self)@, true, x.1, x.2, x.3, tab_calls(x.4), p, found, listed, info)),
    {
        let c = match &self.cursor {
            Some(c) => c,
            None => {
                return None;
            },
        };
        if let Some((table, row, col)) = cursor_current_table_cell(&mut self.log, c) {
            let (rows, cols, found, n, bp) = navigate_table_cell(&mut self.log, c, &table, row, col, 1);
            proof {
                assert(self@.calls =~= old(self)@.calls + (seq![DocCall::CurrentCell(Some((row, col)))]
                    + navigate_calls(row, col, rows, cols, 1, found, n as nat, bp)));
                assert(navigated(old(self)@, self@, 1, row, col, rows, cols, found, n as nat, bp));
            }
            return Some((true, false, false, None, TabEdit::NavigateCell(1)));
        }
        let ghost before = self@;
        proof {
            assert(before.calls =~= old(self)@.calls + seq![DocCall::CurrentCell(None)]);
            assert(before == after_calls(old(self)@, seq![DocCall::CurrentCell(None)]));
        }
        let (at_start, p, found, listed, info) = list_state(&mut self.log, &self.document, c, true);
        let ghost reads = self@.calls;
        let in_list = at_start && found && listed;
        let indent = if in_list {
            match info {
                Some(f) => Some(f.indent),
                None => None,
            }
        } else {
            None
        };
        if let Some(Some(255u8)) = indent {
            // One more level does not fit the document's indent.
            proof {
                assert(self@.calls =~= before.calls + (list_reads(true, at_start, p, found, listed, info) + tab_calls(TabEdit::Keep)));
                assert(list_edit_made(before, self@, true, at_start, in_list, indent, tab_calls(TabEdit::Keep), p, found, listed, info));
            }
            return Some((false, at_start, in_list, indent, TabEdit::Keep));
        }
        let edit = tab_edit(false, at_start, in_list, indent);
        match edit {
            TabEdit::SetIndent(n) => cursor_set_block_format(&mut self.log, c, BlockFormatChange::Indent(n)),
            TabEdit::InsertTab => {
                cursor_insert_text(&mut self.log, c, "\t");
                proof {
                    reveal_strlit("\t");
                    assert("\t"@ =~= seq!['\t']);
                }
            },
            _ => {},
        }
        proof {
            assert(self@.calls =~= reads + tab_calls(edit));
            assert(self@.calls =~= before.calls + (list_reads(true, at_start, p, found, listed, info) + tab_calls(edit)));
            assert(list_edit_made(before, self@, true, at_start, in_list, indent, tab_calls(edit), p, found, listed, info));
        }
        Some((false, at_start, in_list, indent, edit))
    }

    /// Shift+Tab: previous table cell, or list outdent. The result holds
    /// what was read (in a table cell, in a list, the block's indent) and
    /// the edit made from it.
    pub fn shift_tab(&mut self) -> (r: Option<(bool, bool, Option<Option<u8>>, TabEdit)>)
        ensures
            r is Some == old(self)@.has_cursor,
            r is None ==> final(self)@ == old(self)@,
            r matches Some(x) ==> x.3 == shift_tab_spec(x.0, x.1, x.2),
            r matches Some(x) ==> (x.0 ==> exists|row: usize, col: usize, rows: usize, cols: usize, found: bool, n: nat, bp: usize|
                #[trigger] navigated(old(self)@, final(self)@, -1i32, row, col, rows, cols, found, n, bp)),
            r matches Some(x) ==> (!x.0 ==> exists|p: usize, found: bool, listed: bool, info: Option<BlockFormatInfo>|
                #[trigger] list_edit_made(
                    after_calls(old(self)@, seq![DocCall::CurrentCell(None)]),
                    final(self)@, false, true, x.1, x.2, tab_calls(x.3), p, found, listed, info)),
    {
        let c = match &self.cursor {
            Some(c) => c,
            None => {
                return None;
            },
        };
        if let Some((table, row, col)) = cursor_current_table_cell(&mut self.log, c) {
            let (rows, cols, found, n, bp) = navigate_table_cell(&mut self.log, c, &table, row, col, -1);
            proof {
                assert(self@.calls =~= old(self)@.calls + (seq![DocCall::CurrentCell(Some((row, col)))]
                    + navigate_calls(row, col, rows, cols, -1i32, found, n as nat, bp)));
                assert(navigated(old(self)@, self@, -1i32, row, col, rows, cols, found, n as nat, bp));
            }
            return Some((true, false, None, TabEdit::NavigateCell(-1)));
        }
        let ghost before = self@;
        proof {
            assert(before.calls =~= old(self)@.calls + seq![DocCall::CurrentCell(None)]);
            assert(before == after_calls(old(self)@, seq![DocCall::CurrentCell(None)]));
        }
        let (at_start, p, found, listed, info) = list_state(&mut self.log, &self.document, c, false);
        let ghost reads = self@.calls;
        let in_list = found && listed;
        let indent = if in_list {
            match info {
                Some(f) => Some(f.indent),
                None => None,
            }
        } else {
            None
        };
        let edit = shift_tab_edit(false, in_list, indent);
        if let TabEdit::SetIndent(n) = edit {
            cursor_set_block_format(&mut self.log, c, BlockFormatChange::Indent(n));
        }
        proof {
            assert(self@.calls =~= reads + tab_calls(edit));
            assert(self@.calls =~= before.calls + (list_reads(false, at_start, p, found, listed, info) + tab_calls(edit)));
            assert(list_edit_made(before, self@, false, true, in_list, indent, tab_calls(edit), p, found, listed, info));
        }
        Some((false, in_list, indent, edit))
    }

    /// Enter: inside a table, to the same column of the next row, or past
    /// the table from its last row; elsewhere a new paragraph. The result
    /// is the caret's cell (row, column, rows), if it is in one.
    pub fn enter(&mut self) -> (r: Option<(usize, usize, usize)>)
        ensures
            !old(self)@.has_cursor ==> r is None && final(self)@ == old(self)@,
            old(self)@.has_cursor && r is None ==> final(self)@ == after_calls(old(self)@, seq![
                DocCall::CurrentCell(None),
                DocCall::Edit(CaretEdit::InsertBlock),
            ]),
            r is Some ==> exists|at: (usize, usize, usize), found: bool, n: nat, bp: usize, past: AfterTable|
                r == Some(at) && #[trigger] entered_cell(old(self)@, final(self)@, at, found, n, bp, past),
    {
        let c = match &self.cursor {
            Some(c) => c,
            None => {
                return None;
            },
        };
        match cursor_current_table_cell(&mut self.log, c) {
            Some((table, row, col)) => {
                let rows = table_rows(&mut self.log, &table);
                let ghost head = self@.calls;
                proof {
                    assert(head =~= old(self)@.calls + seq![DocCall::CurrentCell(Some((row, col))), DocCall::TableRows(rows)]);
                }
                if row == usize::MAX {
                    // Coordinates this large do not occur in a document.
                    proof {
                        let past = AfterTable { items: Seq::empty(), details: Seq::empty(), table_id: 0 };
                        assert(entered_cell(old(self)@, self@, (row, col, rows), false, 0, 0, past));
                    }
                    return Some((row, col, rows));
                }
                match cell_below(row, col, rows) {
                    CellDown::Goto(p) => {
                        let (found, n, bp) = go_to_cell(&mut self.log, c, &table, p);
                        proof {
                            assert(self@.calls =~= old(self)@.calls + (seq![DocCall::CurrentCell(Some((row, col))), DocCall::TableRows(rows)]
                                + go_to_cell_calls(p, found, n as nat, bp)));
                            let past = AfterTable { items: Seq::empty(), details: Seq::empty(), table_id: 0 };
                            assert(entered_cell(old(self)@, self@, (row, col, rows), found, n as nat, bp, past));
                        }
                    },
                    CellDown::AfterTable => {
                        let past = move_cursor_after_table(&mut self.log, &self.document, c, &table);
                        proof {
                            assert(self@.calls =~= old(self)@.calls + (seq![DocCall::CurrentCell(Some((row, col))), DocCall::TableRows(rows)]
                                + after_table_calls(past@.items, past@.details, past@.table_id)));
                            assert(entered_cell(old(self)@, self@, (row, col, rows), false, 0, 0, past@));
                        }
                    },
                }
                Some((row, col, rows))
            },
            None => {
                cursor_insert_block(&mut self.log, c);
                proof {
                    assert(self@.calls =~= old(self)@.calls + seq![DocCall::CurrentCell(None), DocCall::Edit(CaretEdit::InsertBlock)]);
                }
                None
            },
        }
    }

    /// Forgets the Ctrl+A escalation (any action but Ctrl+A).
    pub fn reset_select_all(&mut self)
        ensures
            final(self)@ == (SessionView { select_all_level: 0, ..old(self)@ }),
    {
        self.select_all_level.reset();
    }

    /// Ctrl+A: widens the selection step by step inside a table (cell
    /// content, cell, table, document), else selects the document. The
    /// result tells whether the caret is in a table cell, and what was
    /// selected.
    pub fn select_all_escalating(&mut self) -> (r: Option<(bool, SelectAllTarget)>)
        ensures
            r is Some == old(self)@.has_cursor,
            r is None ==> final(self)@ == old(self)@,
            r is Some ==> exists|made: (bool, SelectAllTarget), row: usize, col: usize, id: usize, rows: usize, cols: usize|
                r == Some(made) && #[trigger] select_all_made(old(self)@, final(self)@, made, row, col, id, rows, cols),
    {
        let c = match &self.cursor {
            Some(c) => c,
            None => {
                return None;
            },
        };
        let cell = cursor_current_table_cell(&mut self.log, c);
        let ghost read = self@.calls;
        let in_cell = cell.is_some();
        let target = self.select_all_level.press(in_cell);
        match cell {
            Some((table, row, col)) => {
                match target {
                    SelectAllTarget::CellContent => {
                        cursor_select(&mut self.log, c, Selection::BlockUnderCursor);
                        proof {
                            assert(self@.calls =~= read + select_all_calls(target, true, row, col, 0, 0, 0));
                            assert(self@.calls =~= old(self)@.calls + (seq![DocCall::CurrentCell(Some((row, col)))]
                                + select_all_calls(target, true, row, col, 0, 0, 0)));
                            assert(select_all_made(old(self)@, self@, (true, target), row, col, 0, 0, 0));
                        }
                    },
                    SelectAllTarget::Cell => {
                        let id = table_id(&mut self.log, &table);
                        cursor_select_table_cell(&mut self.log, c, id, row, col);
                        proof {
                            assert(self@.calls =~= read + select_all_calls(target, true, row, col, id, 0, 0));
                            assert(self@.calls =~= old(self)@.calls + (seq![DocCall::CurrentCell(Some((row, col)))]
                                + select_all_calls(target, true, row, col, id, 0, 0)));
                            assert(select_all_made(old(self)@, self@, (true, target), row, col, id, 0, 0));
                        }
                    },
                    SelectAllTarget::Table => {
                        let rows = table_rows(&mut self.log, &table);
                        let cols = table_columns(&mut self.log, &table);
                        let id = table_id(&mut self.log, &table);
                        cursor_select_cell_range(
                            &mut self.log,
                            c,
                            CellRange {
                                table_id: id,
                                start_row: 0,
                                start_col: 0,
                                end_row: rows.saturating_sub(1),
                                end_col: cols.saturating_sub(1),
                            },
                        );
                        proof {
                            assert(self@.calls =~= read + select_all_calls(target, true, row, col, id, rows, cols));
                            assert(self@.calls =~= old(self)@.calls + (seq![DocCall::CurrentCell(Some((row, col)))]
                                + select_all_calls(target, true, row, col, id, rows, cols)));
                            assert(select_all_made(old(self)@, self@, (true, target), row, col, id, rows, cols));
                        }
                    },
                    SelectAllTarget::Document => {
                        cursor_select(&mut self.log, c, Selection::Document);
                        proof {
                            assert(self@.calls =~= read + select_all_calls(target, true, row, col, 0, 0, 0));
                            assert(self@.calls =~= old(self)@.calls + (seq![DocCall::CurrentCell(Some((row, col)))]
                                + select_all_calls(target, true, row, col, 0, 0, 0)));
                            assert(select_all_made(old(self)@, self@, (true, target), row, col, 0, 0, 0));
                        }
                    },
                }
            },
            None => {
                cursor_select(&mut self.log, c, Selection::Document);
                proof {
                    assert(self@.calls =~= old(self)@.calls + (seq![DocCall::CurrentCell(None)]
                        + select_all_calls(target, false, 0, 0, 0, 0, 0)));
                    assert(select_all_made(old(self)@, self@, (false, target), 0, 0, 0, 0, 0));
                }
            },
        }
        Some((in_cell, target))
    }

    /// Shift+arrow in a table: extends the cell selection, or starts one
    /// when the caret leaves its cell through an edge, and selects the range
    /// decided. The result is that range, `None` when the ordinary text
    /// selection applies (see `commands::selection_fallback`).
    pub fn extend_cell_selection(&mut self, dcol: i32, drow: i32) -> (r: Option<CellRange>)
        requires
            -1 <= dcol <= 1,
            -1 <= drow <= 1,
        ensures
            !old(self)@.has_cursor ==> r is None && final(self)@ == old(self)@,
            old(self)@.has_cursor ==> cell_selection_made(old(self)@, final(self)@, dcol, drow, r),
    {
        let c = match &self.cursor {
            Some(c) => c,
            None => {
                return None;
            },
        };
        let current = cursor_selected_cell_range(&mut self.log, c);
        match current {
            Some(range) => {
                let mut cells = cursor_selected_cells(&mut self.log, c);
                let n = cells.len();
                let dims = if n > 0 {
                    let (t, _, _) = cell_ref_parts(cells.remove(0));
                    let rows = table_rows(&mut self.log, &t);
                    let cols = table_columns(&mut self.log, &t);
                    (rows, cols)
                } else {
                    (0, 0)
                };
                let ghost reads = self@.calls;
                proof {
                    assert(reads =~= old(self)@.calls + (seq![DocCall::SelectedCellRange(Some(range))]
                        + dims_calls(n as nat, dims.0, dims.1)));
                }
                if dims.0 > i32::MAX as usize || dims.1 > i32::MAX as usize || range.end_row >= i32::MAX as usize
                    || range.end_col >= i32::MAX as usize {
                    // Tables this large do not occur in a document.
                    proof {
                        assert(selection_extended(old(self)@, self@, dcol, drow, None, range, n as nat, dims.0, dims.1));
                    }
                    return None;
                }
                let r = cell_selection_step(Some(range), dims, None, false, false, dcol, drow);
                if let Some(sel) = r {
                    cursor_select_cell_range(&mut self.log, c, sel);
                }
                proof {
                    assert(self@.calls =~= old(self)@.calls + (seq![DocCall::SelectedCellRange(Some(range))]
                        + dims_calls(n as nat, dims.0, dims.1) + apply_range_calls(r)));
                    assert(selection_extended(old(self)@, self@, dcol, drow, r, range, n as nat, dims.0, dims.1));
                }
                r
            },
            None => match cursor_current_table_cell(&mut self.log, c) {
                Some((table, row, col)) => {
                    let ghost head = self@.calls;
                    if row >= i32::MAX as usize || col >= i32::MAX as usize {
                        proof {
                            assert(head =~= old(self)@.calls + seq![DocCall::SelectedCellRange(None), DocCall::CurrentCell(Some((row, col)))]);
                            assert(selection_started(old(self)@, self@, dcol, drow, None, row, col, 0, 0, 0, false, false));
                        }
                        return None;
                    }
                    let id = table_id(&mut self.log, &table);
                    let rows = table_rows(&mut self.log, &table);
                    let cols = table_columns(&mut self.log, &table);
                    let cell = TableCell { table_id: id, row, col, rows, cols };
                    let at_start = cursor_at_block_start(&mut self.log, c);
                    let at_end = cursor_at_block_end(&mut self.log, c);
                    let r = cell_selection_step(None, (0, 0), Some(cell), at_start, at_end, dcol, drow);
                    if let Some(sel) = r {
                        cursor_select_cell_range(&mut self.log, c, sel);
                    }
                    proof {
                        assert(self@.calls =~= old(self)@.calls + (seq![DocCall::SelectedCellRange(None), DocCall::CurrentCell(Some((row, col)))]
                            + seq![
                            DocCall::TableId(id),
                            DocCall::TableRows(rows),
                            DocCall::TableColumns(cols),
                            DocCall::AtBlockStart(at_start),
                            DocCall::AtBlockEnd(at_end),
                        ] + apply_range_calls(r)));
                        assert(selection_started(old(self)@, self@, dcol, drow, r, row, col, id, rows, cols, at_start, at_end));
                    }
                    r
                },
                None => {
                    proof {
                        assert(self@.calls =~= old(self)@.calls + seq![DocCall::SelectedCellRange(None), DocCall::CurrentCell(None)]);
                    }
                    None
                },
            },
        }
    }

    /// The selected cells for the renderer, row by row (none outside a
    /// cell selection).
    pub fn selected_cells(&mut self) -> (r: Vec<(usize, usize, usize)>)
        ensures
            !old(self)@.has_cursor ==> r@ == selected_cells_spec(None) && final(self)@ == old(self)@,
            old(self)@.has_cursor ==> exists|shape: SelectionShape|
                r@ == selected_cells_spec(selection_range_spec(shape))
                && final(self)@ == #[trigger] after_call(old(self)@, DocCall::SelectionKind(shape)),
    {
        match &self.cursor {
            Some(c) => {
                let shape = cursor_selection_kind(&mut self.log, c);
                proof {
                    assert(self@.calls =~= old(self)@.calls + seq![DocCall::SelectionKind(shape)]);
                    assert(self@ == after_call(old(self)@, DocCall::SelectionKind(shape)));
                }
                selected_cells(selection_range(shape))
            },
            None => selected_cells(None),
        }
    }

    /// Records a click of a run (`is_repeat`: soon and close enough to the
    /// previous one) and returns what it selects once the caret is placed.
    pub fn register_click(&mut self, is_repeat: bool) -> (r: ClickSelection)
        ensures
            (r, final(self)@.clicks) == click_step(old(self)@.clicks, is_repeat),
            final(self)@ == (SessionView { clicks: final(self)@.clicks, ..old(self)@ }),
    {
        self.clicks.register_click(is_repeat)
    }

    /// Records a double click reported by the engine.
    pub fn register_double_click(&mut self)
        ensures
            final(self)@ == (SessionView { clicks: 2, ..old(self)@ }),
    {
        self.clicks.register_double_click();
    }

    /// Copy in the editor: keeps the selection's text and HTML on the rich
    /// clipboard and returns the text for the system clipboard (`None` when
    /// nothing is selected or the selection has no text).
    pub fn copy_rich(&mut self) -> (r: Option<String>)
        ensures
            !old(self)@.has_cursor ==> r is None && final(self)@ == old(self)@,
            old(self)@.has_cursor ==> copied(old(self)@, final(self)@, text_of(r)),
    {
        let c = match &self.cursor {
            Some(c) => c,
            None => {
                return None;
            },
        };
        if !cursor_has_selection(&mut self.log, c) {
            proof {
                assert(self@.calls =~= old(self)@.calls + seq![DocCall::HasSelection(false)]);
            }
            return None;
        }
        let fragment = cursor_selection(&mut self.log, c);
        let plain = fragment_plain_text(&mut self.log, &fragment);
        if plain.as_str().is_empty() {
            proof {
                assert(self@.calls =~= old(self)@.calls + seq![DocCall::HasSelection(true), DocCall::TakeSelection, DocCall::FragmentText(plain@)]);
                assert(copied_empty(old(self)@, self@, plain@));
            }
            return None;
        }
        let html = fragment_html(&mut self.log, &fragment);
        let out = plain.clone();
        let ghost h = html@;
        let _ = self.clipboard.record_copy(plain, html);
        proof {
            assert(self@.calls =~= old(self)@.calls + seq![
                DocCall::HasSelection(true),
                DocCall::TakeSelection,
                DocCall::FragmentText(out@),
                DocCall::FragmentHtml(h),
            ]);
            assert(copied_text(old(self)@, self@, out@, h));
        }
        Some(out)
    }

    /// Cut in the editor: copies as [`Self::copy_rich`] does, then deletes
    /// the selection.
    pub fn cut_rich(&mut self) -> (r: Option<String>)
        ensures
            !old(self)@.has_cursor ==> r is None && final(self)@ == old(self)@,
            old(self)@.has_cursor ==> exists|mid: SessionView<T>| {
                &&& #[trigger] copied(old(self)@, mid, text_of(r))
                &&& final(self)@ == after_calls(mid, seq![DocCall::Edit(CaretEdit::DeleteSelection)])
            },
    {
        let r = self.copy_rich();
        let ghost mid = self@;
        self.delete_selection();
        proof {
            if old(self)@.has_cursor {
                assert(copied(old(self)@, mid, text_of(r)));
            }
        }
        r
    }

    /// Paste in the editor, given the system clipboard's text: the kept
    /// HTML when the clipboard still holds the last copy's text, else the
    /// clipboard's text; the selection is then dropped. The result is what
    /// was pasted.
    pub fn paste_rich(&mut self, system_text: &String) -> (r: PasteContent)
        ensures
            r@ == paste_spec(old(self)@.clipboard, system_text@),
            !old(self)@.has_cursor ==> final(self)@ == old(self)@,
            old(self)@.has_cursor ==> final(self)@ == after_calls(old(self)@, paste_calls(r@)),
    {
        let content = self.clipboard.paste_content(system_text);
        if let Some(c) = &self.cursor {
            match &content {
                PasteContent::Html(h) => {
                    cursor_insert_html(&mut self.log, c, h.as_str());
                    cursor_clear_selection(&mut self.log, c);
                },
                PasteContent::Plain(t) => {
                    cursor_insert_text(&mut self.log, c, t.as_str());
                    cursor_clear_selection(&mut self.log, c);
                },
                PasteContent::Nothing => {},
            }
            proof {
                assert(self@.calls =~= old(self)@.calls + paste_calls(content@));
            }
        }
        content
    }

    /// Copy in the viewer: the selected text for the system clipboard, if
    /// some non-empty text is selected.
    pub fn copy_plain(&mut self) -> (r: Option<String>)
        ensures
            !old(self)@.has_cursor ==> r is None && final(self)@ == old(self)@,
            old(self)@.has_cursor && r is None ==> final(self)@ == after_calls(old(self)@, seq![DocCall::HasSelection(false)])
                || exists|t: Option<Seq<char>>| {
                    &&& final(self)@ == #[trigger] after_two_calls(old(self)@, DocCall::HasSelection(true), DocCall::SelectedText(t))
                    &&& (t matches Some(s) ==> s.len() == 0)
                },
            old(self)@.has_cursor && r is Some ==> exists|t: Seq<char>| {
                &&& t.len() > 0
                &&& r matches Some(s) && s@ == t
                &&& final(self)@ == #[trigger] after_two_calls(old(self)@, DocCall::HasSelection(true), DocCall::SelectedText(Some(t)))
            },
    {
        let c = match &self.cursor {
            Some(c) => c,
            None => {
                return None;
            },
        };
        if !cursor_has_selection(&mut self.log, c) {
            proof {
                assert(self@.calls =~= old(self)@.calls + seq![DocCall::HasSelection(false)]);
            }
            return None;
        }
        let text = cursor_selected_text(&mut self.log, c);
        proof {
            let v = match &text {
                Some(s) => Some(s@),
                None => None,
            };
            assert(self@.calls =~= old(self)@.calls + seq![DocCall::HasSelection(true), DocCall::SelectedText(v)]);
            assert(self@ == after_two_calls(old(self)@, DocCall::HasSelection(true), DocCall::SelectedText(v)));
        }
        match text {
            Some(t) => {
                if t.as_str().is_empty() {
                    None
                } else {
                    Some(t)
                }
            },
            None => None,
        }
    }
}

} // verus!
