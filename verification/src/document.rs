//! The calls into the document model (`text_document`).
//!
//! Each function here makes one call into the document model and converts
//! its arguments and result between the model's types and this library's
//! plain values. Those that a control's decisions or edits rest on take the
//! session's [`CallLog`] and claim that the call is recorded there, with
//! its arguments and, for a read, what it reported; the record is written
//! by nothing else. The document model keeps its state behind shared
//! handles and changes it in the background, so what a read returns is
//! not described: nothing is claimed of a result beyond its record.
use vstd::prelude::*;
use crate::commands::{MoveMode, MoveOp};
use crate::editing::{Alignment, ListKind};
use crate::events::DocEvent;
use crate::tables::CellRange;
use text_document::DocumentEvent as E;
use text_document::MoveOperation as O;
use text_document::MoveMode as M;
use text_document::SelectionType as S;
use text_document::SelectionKind as K;
use text_document::Alignment as A;
use text_document::{
    BlockSnapshot, DocumentFragment, FlowSnapshot, FlowElement, HtmlImportResult, MarkdownImportResult, Operation, TableCellRef,
    TextBlock, TextCursor, TextDocument, TextList, TextTable, TextTableCell,
};

verus! {

#[verifier::external_type_specification]
#[verifier::external_body]
pub struct ExTextDocument(TextDocument);

#[verifier::external_type_specification]
#[verifier::external_body]
pub struct ExTextCursor(TextCursor);

#[verifier::external_type_specification]
#[verifier::external_body]
pub struct ExTextBlock(TextBlock);

#[verifier::external_type_specification]
#[verifier::external_body]
pub struct ExTextTable(TextTable);

#[verifier::external_type_specification]
#[verifier::external_body]
pub struct ExTextList(TextList);

#[verifier::external_type_specification]
#[verifier::external_body]
pub struct ExTextTableCell(TextTableCell);

#[verifier::external_type_specification]
#[verifier::external_body]
pub struct ExTableCellRef(TableCellRef);

#[verifier::external_type_specification]
#[verifier::external_body]
pub struct ExDocumentEvent(E);

#[verifier::external_type_specification]
#[verifier::external_body]
pub struct ExFlowElement(FlowElement);

#[verifier::external_type_specification]
#[verifier::external_body]
pub struct ExDocumentFragment(DocumentFragment);

#[verifier::external_type_specification]
#[verifier::external_body]
pub struct ExHtmlImportResult(HtmlImportResult);

#[verifier::external_type_specification]
#[verifier::external_body]
pub struct ExMarkdownImportResult(MarkdownImportResult);

#[verifier::external_type_specification]
#[verifier::external_body]
#[verifier::reject_recursive_types(T)]
pub struct ExOperation<T>(Operation<T>);

#[verifier::external_type_specification]
#[verifier::external_body]
pub struct ExFlowSnapshot(FlowSnapshot);

#[verifier::external_type_specification]
#[verifier::external_body]
pub struct ExBlockSnapshot(BlockSnapshot);

/// The character format flags that the controls read.
#[derive(Clone, Copy, Debug, PartialEq, Eq, Structural)]
pub struct CharFlags {
    pub bold: Option<bool>,
    pub italic: Option<bool>,
    pub underline: Option<bool>,
    pub strikeout: Option<bool>,
}

/// The block format fields that the controls read.
#[derive(Clone, Copy, Debug, PartialEq, Eq, Structural)]
pub struct BlockFormatInfo {
    pub indent: Option<u8>,
    pub heading_level: Option<u8>,
    pub alignment: Option<Alignment>,
}

/// A change of one character format property; the others stay as they
/// are.
#[derive(Clone, Debug, PartialEq, Eq)]
pub enum CharFormatChange {
    Bold(bool),
    Italic(bool),
    Underline(bool),
    Strikeout(bool),
    PointSize(u32),
    Family(String),
}

/// [`CharFormatChange`] with its font family as characters.
pub enum CharFormatChangeView {
    Bold(bool),
    Italic(bool),
    Underline(bool),
    Strikeout(bool),
    PointSize(u32),
    Family(Seq<char>),
}

impl View for CharFormatChange {
    type V = CharFormatChangeView;

    open spec fn view(&self) -> CharFormatChangeView {
        match self {
            CharFormatChange::Bold(b) => CharFormatChangeView::Bold(*b),
            CharFormatChange::Italic(b) => CharFormatChangeView::Italic(*b),
            CharFormatChange::Underline(b) => CharFormatChangeView::Underline(*b),
            CharFormatChange::Strikeout(b) => CharFormatChangeView::Strikeout(*b),
            CharFormatChange::PointSize(n) => CharFormatChangeView::PointSize(*n),
            CharFormatChange::Family(f) => CharFormatChangeView::Family(f@),
        }
    }
}

/// A change of one block format property; the others stay as they are.
#[derive(Clone, Copy, Debug, PartialEq, Eq, Structural)]
pub enum BlockFormatChange {
    Indent(u8),
    Alignment(Alignment),
    HeadingLevel(u8),
}

/// What a selection command selects around the caret.
#[derive(Clone, Copy, Debug, PartialEq, Eq, Structural)]
pub enum Selection {
    WordUnderCursor,
    LineUnderCursor,
    BlockUnderCursor,
    Document,
}

/// An element of the document's top-level flow.
pub enum FlowPart {
    Block(TextBlock),
    Table(TextTable),
    Frame,
}

/// The kind of a selection.
#[derive(Clone, Copy, Debug, PartialEq, Eq, Structural)]
pub enum SelectionShape {
    /// No selection.
    Nothing,
    /// A text selection within one cell or outside any table.
    Text,
    /// A rectangular cell selection within a table.
    Cells(CellRange),
    /// A selection that crosses a table's boundary: its cell range, and
    /// whether text before and after the table is selected too.
    Mixed(CellRange, bool, bool),
}

/// The characters of an optional text.
pub open spec fn text_of(t: Option<String>) -> Option<Seq<char>> {
    match t {
        Some(s) => Some(s@),
        None => None,
    }
}

/// An edit asked of the document at the caret.
pub enum CaretEdit {
    InsertText(Seq<char>),
    InsertHtml(Seq<char>),
    /// The image resource's name and its size.
    InsertImage(Seq<char>, u32, u32),
    InsertBlock,
    DeleteChar,
    DeletePreviousChar,
    DeleteSelection,
    MergeCharFormat(CharFormatChangeView),
    SetBlockFormat(BlockFormatChange),
    CreateList(ListKind),
    RemoveFromList,
    /// A table of (rows, columns).
    InsertTable(usize, usize),
    RemoveTable,
    InsertRowAbove,
    InsertRowBelow,
    InsertColumnBefore,
    InsertColumnAfter,
    RemoveRow,
    RemoveColumn,
}

/// A call made into the document model, with the arguments it was given
/// and, for a read, what it reported.
pub enum DocCall {
    // The document.
    SetPlainText(Seq<char>),
    /// An HTML import was asked for; whether it started.
    SetHtml(Seq<char>, bool),
    /// A markdown import was asked for; whether it started.
    SetMarkdown(Seq<char>, bool),
    /// The import that started was waited for until it finished.
    Wait,
    Clear,
    Undo,
    Redo,
    /// The events since the last poll were taken, in order.
    PollEvents(Seq<DocEvent>),
    /// The exports, `None` where they failed.
    PlainText(Option<Seq<char>>),
    HtmlText(Option<Seq<char>>),
    MarkdownText(Option<Seq<char>>),
    CharacterCount(usize),
    WordCount(usize),
    BlockCount(usize),
    CanUndo(bool),
    CanRedo(bool),
    /// The bytes of the resource with this name, if it has any.
    Resource(Seq<char>, Option<Seq<u8>>),
    /// A layout snapshot of the whole document was taken.
    SnapshotFlow,
    /// A layout snapshot of the block at a position was asked for; whether
    /// there is one.
    SnapshotBlockAt(usize, bool),
    /// The block at a position was looked up; whether there is one.
    BlockAt(usize, bool),
    /// The top-level flow was read; its number of elements.
    Flow(nat),
    // A block.
    BlockPosition(usize),
    BlockInList(bool),
    /// The character format at an offset of a block.
    CharFormatAt(usize, Option<CharFlags>),
    // A table and its cells.
    TableId(usize),
    TableRows(usize),
    TableColumns(usize),
    /// The cell at (row, column) was looked up; whether there is one.
    TableCell(usize, usize, bool),
    /// The number of blocks of a cell.
    CellBlocks(nat),
    // The caret: reads.
    Position(usize),
    Anchor(usize),
    HasSelection(bool),
    SelectionStart(usize),
    SelectedText(Option<Seq<char>>),
    AtBlockStart(bool),
    AtBlockEnd(bool),
    InTable(bool),
    /// The caret's table cell (row, column), if any.
    CurrentCell(Option<(usize, usize)>),
    CharFormat(Option<CharFlags>),
    BlockFormat(Option<BlockFormatInfo>),
    SelectedCellRange(Option<CellRange>),
    /// The number of selected cells.
    SelectedCells(nat),
    /// The kind of the selection.
    SelectionKind(SelectionShape),
    /// The selection was taken as a fragment.
    TakeSelection,
    /// The fragment's plain text.
    FragmentText(Seq<char>),
    /// The fragment's HTML.
    FragmentHtml(Seq<char>),
    // The caret: moves and selections.
    SetPosition(usize, MoveMode),
    Move(MoveOp, MoveMode),
    Select(Selection),
    ClearSelection,
    /// (table id, row, column)
    SelectTableCell(usize, usize, usize),
    SelectCellRange(CellRange),
    // The caret: edits.
    Edit(CaretEdit),
}

/// The record of the calls made into a document model, in order. Only the
/// functions of this module that make a call add to it, each with the call
/// it makes.
pub struct CallLog {
    calls: Ghost<Seq<DocCall>>,
}

impl CallLog {
    /// The calls made so far.
    pub closed spec fn calls(self) -> Seq<DocCall> {
        self.calls@
    }

    /// A record of no call.
    pub fn new() -> (r: Self)
        ensures r.calls() == Seq::<DocCall>::empty(),
    {
        CallLog { calls: Ghost(Seq::empty()) }
    }
}

/// Calls `TextDocument::new`: a new, empty document.
#[verifier::external_body]
pub(crate) fn doc_new() -> TextDocument {
    TextDocument::new()
}

/// Calls `TextDocument::cursor`: a new cursor at the start of the document.
#[verifier::external_body]
pub(crate) fn doc_cursor(doc: &TextDocument) -> TextCursor {
    doc.cursor()
}

/// Calls `TextDocument::set_plain_text` with `text`; its error is dropped.
/// Claims that the call is recorded.
#[verifier::external_body]
pub(crate) fn doc_set_plain_text(log: &mut CallLog, doc: &TextDocument, text: &str)
    ensures final(log).calls() == old(log).calls().push(DocCall::SetPlainText(text@)),
{
    let _ = doc.set_plain_text(text);
}

/// Calls `TextDocument::set_html` with `html`: the import runs in the
/// background; the result is the operation to wait on, `None` when it could
/// not start. Claims that the call is recorded with whether it started.
#[verifier::external_body]
pub(crate) fn doc_set_html(log: &mut CallLog, doc: &TextDocument, html: &str) -> (r: Option<Operation<HtmlImportResult>>)
    ensures final(log).calls() == old(log).calls().push(DocCall::SetHtml(html@, r is Some)),
{
    doc.set_html(html).ok()
}

/// Calls `TextDocument::set_markdown` with `markdown`: the import runs in
/// the background; the result is the operation to wait on, `None` when it
/// could not start. Claims that the call is recorded with whether it started.
#[verifier::external_body]
pub(crate) fn doc_set_markdown(log: &mut CallLog, doc: &TextDocument, markdown: &str) -> (r: Option<Operation<MarkdownImportResult>>)
    ensures final(log).calls() == old(log).calls().push(DocCall::SetMarkdown(markdown@, r is Some)),
{
    doc.set_markdown(markdown).ok()
}

/// Calls `Operation::wait`: blocks until the operation finished; its
/// result is dropped. Claims that the call is recorded.
#[verifier::external_body]
pub(crate) fn operation_wait<T>(log: &mut CallLog, op: Operation<T>)
    ensures final(log).calls() == old(log).calls().push(DocCall::Wait),
{
    let _ = op.wait();
}

/// Calls `TextDocument::to_plain_text`; `None` on error. Claims that the
/// call is recorded with its result.
#[verifier::external_body]
pub(crate) fn doc_to_plain_text(log: &mut CallLog, doc: &TextDocument) -> (r: Option<String>)
    ensures final(log).calls() == old(log).calls().push(DocCall::PlainText(text_of(r))),
{
    doc.to_plain_text().ok()
}

/// Calls `TextDocument::to_html`; `None` on error. Claims that the
/// call is recorded with its result.
#[verifier::external_body]
pub(crate) fn doc_to_html(log: &mut CallLog, doc: &TextDocument) -> (r: Option<String>)
    ensures final(log).calls() == old(log).calls().push(DocCall::HtmlText(text_of(r))),
{
    doc.to_html().ok()
}

/// Calls `TextDocument::to_markdown`; `None` on error. Claims that the
/// call is recorded with its result.
#[verifier::external_body]
pub(crate) fn doc_to_markdown(log: &mut CallLog, doc: &TextDocument) -> (r: Option<String>)
    ensures final(log).calls() == old(log).calls().push(DocCall::MarkdownText(text_of(r))),
{
    doc.to_markdown().ok()
}

/// Calls `TextDocument::clear`; its error is dropped. Claims that the call
/// is recorded.
#[verifier::external_body]
pub(crate) fn doc_clear(log: &mut CallLog, doc: &TextDocument)
    ensures final(log).calls() == old(log).calls().push(DocCall::Clear),
{
    let _ = doc.clear();
}

/// Calls `TextDocument::character_count`. Claims that the call is recorded
/// with its result.
#[verifier::external_body]
pub(crate) fn doc_character_count(log: &mut CallLog, doc: &TextDocument) -> (r: usize)
    ensures final(log).calls() == old(log).calls().push(DocCall::CharacterCount(r)),
{
    doc.character_count()
}

/// Calls `TextDocument::stats` and reads its word count. Claims that the call is recorded
/// with its result.
#[verifier::external_body]
pub(crate) fn doc_word_count(log: &mut CallLog, doc: &TextDocument) -> (r: usize)
    ensures final(log).calls() == old(log).calls().push(DocCall::WordCount(r)),
{
    doc.stats().word_count
}

/// Calls `TextDocument::block_count`. Claims that the call is recorded
/// with its result.
#[verifier::external_body]
pub(crate) fn doc_block_count(log: &mut CallLog, doc: &TextDocument) -> (r: usize)
    ensures final(log).calls() == old(log).calls().push(DocCall::BlockCount(r)),
{
    doc.block_count()
}

/// Calls `TextDocument::undo`; its error is dropped. Claims that the call
/// is recorded.
#[verifier::external_body]
pub(crate) fn doc_undo(log: &mut CallLog, doc: &TextDocument)
    ensures final(log).calls() == old(log).calls().push(DocCall::Undo),
{
    let _ = doc.undo();
}

/// Calls `TextDocument::redo`; its error is dropped. Claims that the call
/// is recorded.
#[verifier::external_body]
pub(crate) fn doc_redo(log: &mut CallLog, doc: &TextDocument)
    ensures final(log).calls() == old(log).calls().push(DocCall::Redo),
{
    let _ = doc.redo();
}

/// Calls `TextDocument::can_undo`. Claims that the call is recorded
/// with its result.
#[verifier::external_body]
pub(crate) fn doc_can_undo(log: &mut CallLog, doc: &TextDocument) -> (r: bool)
    ensures final(log).calls() == old(log).calls().push(DocCall::CanUndo(r)),
{
    doc.can_undo()
}

/// Calls `TextDocument::can_redo`. Claims that the call is recorded
/// with its result.
#[verifier::external_body]
pub(crate) fn doc_can_redo(log: &mut CallLog, doc: &TextDocument) -> (r: bool)
    ensures final(log).calls() == old(log).calls().push(DocCall::CanRedo(r)),
{
    doc.can_redo()
}

/// Calls `TextDocument::resource`: the bytes stored under `name`; `None`
/// when there are none or on error. Claims that the call is recorded
/// with the name and the result.
#[verifier::external_body]
pub(crate) fn doc_resource(log: &mut CallLog, doc: &TextDocument, name: &str) -> (r: Option<Vec<u8>>)
    ensures
        final(log).calls() == old(log).calls().push(DocCall::Resource(name@, match r {
            Some(b) => Some(b@),
            None => None,
        })),
{
    doc.resource(name).ok().flatten()
}

/// Calls `TextDocument::block_at_position` with `position`, which the
/// document model converts to `i64` and asserts that it fits. Claims that
/// the call is recorded with whether a block was found.
#[verifier::external_body]
pub(crate) fn doc_block_at_position(log: &mut CallLog, doc: &TextDocument, position: usize) -> (r: Option<TextBlock>)
    requires
        position <= i64::MAX,
    ensures final(log).calls() == old(log).calls().push(DocCall::BlockAt(position, r is Some)),
{
    doc.block_at_position(position)
}

/// Calls `TextBlock::position`: where the block starts in the document.
/// Claims that the call is recorded with its result.
#[verifier::external_body]
pub(crate) fn block_position(log: &mut CallLog, block: &TextBlock) -> (r: usize)
    ensures final(log).calls() == old(log).calls().push(DocCall::BlockPosition(r)),
{
    block.position()
}

/// Calls `TextBlock::list`: the list the block belongs to, if any. Claims
/// that the call is recorded with whether there is one.
#[verifier::external_body]
pub(crate) fn block_list(log: &mut CallLog, block: &TextBlock) -> (r: Option<TextList>)
    ensures final(log).calls() == old(log).calls().push(DocCall::BlockInList(r is Some)),
{
    block.list()
}

/// Calls `TextBlock::char_format_at` with `offset` and reads its flags.
/// Claims that the call is recorded with its result.
#[verifier::external_body]
pub(crate) fn block_char_format_at(log: &mut CallLog, block: &TextBlock, offset: usize) -> (r: Option<CharFlags>)
    ensures final(log).calls() == old(log).calls().push(DocCall::CharFormatAt(offset, r)),
{
    block.char_format_at(offset).map(|f| CharFlags {
        bold: f.font_bold,
        italic: f.font_italic,
        underline: f.font_underline,
        strikeout: f.font_strikeout,
    })
}

/// Calls `TextDocument::poll_events`: the events since the last poll, in
/// order, each converted by [`doc_event`]. Claims that the call is
/// recorded with the events.
#[verifier::external_body]
pub(crate) fn doc_poll_events(log: &mut CallLog, doc: &TextDocument) -> (r: Vec<DocEvent>)
    ensures final(log).calls() == old(log).calls().push(DocCall::PollEvents(r@)),
{
    doc.poll_events().iter().map(doc_event).collect()
}

/// Converts a document event into the library's event, variant for
/// variant, keeping the fields the controls read.
#[verifier::external_body]
pub(crate) fn doc_event(e: &E) -> DocEvent {
    match e {
        E::ContentsChanged { position: p, blocks_affected: b, .. } => DocEvent::ContentsChanged { position: *p, blocks_affected: *b },
        E::TextInserted { .. } => DocEvent::TextInserted,
        E::FormatChanged { .. } => DocEvent::FormatChanged,
        E::HighlightPaintChanged { .. } => DocEvent::HighlightPaintChanged,
        E::BlockCountChanged(_) => DocEvent::BlockCountChanged,
        E::FlowElementsInserted { .. } => DocEvent::FlowElementsInserted,
        E::FlowElementsRemoved { .. } => DocEvent::FlowElementsRemoved,
        E::DocumentReset => DocEvent::DocumentReset,
        E::UndoRedoChanged { can_undo: u, can_redo: r } => DocEvent::UndoRedoChanged { can_undo: *u, can_redo: *r },
        E::ModificationChanged(_) => DocEvent::ModificationChanged,
        E::LongOperationProgress { .. } => DocEvent::LongOperationProgress,
        E::LongOperationFinished { .. } => DocEvent::LongOperationFinished,
    }
}

/// Calls `TextDocument::flow`: the top-level elements of the document, in
/// order. Claims that the call is recorded with their number.
#[verifier::external_body]
pub(crate) fn doc_flow(log: &mut CallLog, doc: &TextDocument) -> (r: Vec<FlowElement>)
    ensures final(log).calls() == old(log).calls().push(DocCall::Flow(r@.len())),
{
    doc.flow()
}

/// Converts a flow element into the library's enum, variant for variant.
#[verifier::external_body]
pub(crate) fn flow_part(e: FlowElement) -> FlowPart {
    match e {
        FlowElement::Block(b) => FlowPart::Block(b),
        FlowElement::Table(t) => FlowPart::Table(t),
        FlowElement::Frame(_) => FlowPart::Frame,
    }
}

/// Calls `TextTable::id`. Claims that the call is recorded with its result.
#[verifier::external_body]
pub(crate) fn table_id(log: &mut CallLog, table: &TextTable) -> (r: usize)
    ensures final(log).calls() == old(log).calls().push(DocCall::TableId(r)),
{
    table.id()
}

/// Calls `TextTable::rows`. Claims that the call is recorded with its
/// result.
#[verifier::external_body]
pub(crate) fn table_rows(log: &mut CallLog, table: &TextTable) -> (r: usize)
    ensures final(log).calls() == old(log).calls().push(DocCall::TableRows(r)),
{
    table.rows()
}

/// Calls `TextTable::columns`. Claims that the call is recorded with its
/// result.
#[verifier::external_body]
pub(crate) fn table_columns(log: &mut CallLog, table: &TextTable) -> (r: usize)
    ensures final(log).calls() == old(log).calls().push(DocCall::TableColumns(r)),
{
    table.columns()
}

/// Calls `TextTable::cell` for (`row`, `col`): the cell, if there is one.
/// Claims that the call is recorded with whether there is one.
#[verifier::external_body]
pub(crate) fn table_cell(log: &mut CallLog, table: &TextTable, row: usize, col: usize) -> (r: Option<TextTableCell>)
    ensures final(log).calls() == old(log).calls().push(DocCall::TableCell(row, col, r is Some)),
{
    table.cell(row, col)
}

/// Calls `TextTableCell::blocks`: the cell's blocks, in order. Claims that
/// the call is recorded with their number.
#[verifier::external_body]
pub(crate) fn cell_blocks(log: &mut CallLog, cell: &TextTableCell) -> (r: Vec<TextBlock>)
    ensures final(log).calls() == old(log).calls().push(DocCall::CellBlocks(r@.len())),
{
    cell.blocks()
}

/// Splits a table cell reference into its table, row and column.
#[verifier::external_body]
pub(crate) fn cell_ref_parts(r: TableCellRef) -> (TextTable, usize, usize) {
    (r.table, r.row, r.column)
}

/// Calls `TextCursor::position`. Claims that the call is recorded with its
/// result.
#[verifier::external_body]
pub(crate) fn cursor_position(log: &mut CallLog, c: &TextCursor) -> (r: usize)
    ensures final(log).calls() == old(log).calls().push(DocCall::Position(r)),
{
    c.position()
}

/// Calls `TextCursor::anchor`. Claims that the call is recorded with its
/// result.
#[verifier::external_body]
pub(crate) fn cursor_anchor(log: &mut CallLog, c: &TextCursor) -> (r: usize)
    ensures final(log).calls() == old(log).calls().push(DocCall::Anchor(r)),
{
    c.anchor()
}

/// Calls `TextCursor::has_selection`. Claims that the call is recorded with
/// its result.
#[verifier::external_body]
pub(crate) fn cursor_has_selection(log: &mut CallLog, c: &TextCursor) -> (r: bool)
    ensures final(log).calls() == old(log).calls().push(DocCall::HasSelection(r)),
{
    c.has_selection()
}

/// Calls `TextCursor::selection_start`. Claims that the call is recorded
/// with its result.
#[verifier::external_body]
pub(crate) fn cursor_selection_start(log: &mut CallLog, c: &TextCursor) -> (r: usize)
    ensures final(log).calls() == old(log).calls().push(DocCall::SelectionStart(r)),
{
    c.selection_start()
}

/// Calls `TextCursor::selected_text`; `None` on error. Claims that the call
/// is recorded with its result.
#[verifier::external_body]
pub(crate) fn cursor_selected_text(log: &mut CallLog, c: &TextCursor) -> (r: Option<String>)
    ensures
        final(log).calls() == old(log).calls().push(DocCall::SelectedText(match r {
            Some(t) => Some(t@),
            None => None,
        })),
{
    c.selected_text().ok()
}

/// Calls `TextCursor::clear_selection`. Claims that the call is recorded.
#[verifier::external_body]
pub(crate) fn cursor_clear_selection(log: &mut CallLog, c: &TextCursor)
    ensures final(log).calls() == old(log).calls().push(DocCall::ClearSelection),
{
    c.clear_selection()
}

/// Calls `TextCursor::at_block_start`. Claims that the call is recorded
/// with its result.
#[verifier::external_body]
pub(crate) fn cursor_at_block_start(log: &mut CallLog, c: &TextCursor) -> (r: bool)
    ensures final(log).calls() == old(log).calls().push(DocCall::AtBlockStart(r)),
{
    c.at_block_start()
}

/// Calls `TextCursor::at_block_end`. Claims that the call is recorded with
/// its result.
#[verifier::external_body]
pub(crate) fn cursor_at_block_end(log: &mut CallLog, c: &TextCursor) -> (r: bool)
    ensures final(log).calls() == old(log).calls().push(DocCall::AtBlockEnd(r)),
{
    c.at_block_end()
}

/// Calls `TextCursor::set_position` with `position` and the given anchor
/// mode. Claims that the call is recorded.
#[verifier::external_body]
pub(crate) fn cursor_set_position(log: &mut CallLog, c: &TextCursor, position: usize, mode: MoveMode)
    ensures final(log).calls() == old(log).calls().push(DocCall::SetPosition(position, mode)),
{
    c.set_position(position, match mode { MoveMode::MoveAnchor => M::MoveAnchor, MoveMode::KeepAnchor => M::KeepAnchor })
}

/// Calls `TextCursor::move_position` once with the given movement and
/// anchor mode; whether it moved is dropped. Claims that the call is
/// recorded.
#[verifier::external_body]
pub(crate) fn cursor_move_position(log: &mut CallLog, c: &TextCursor, op: MoveOp, mode: MoveMode)
    ensures final(log).calls() == old(log).calls().push(DocCall::Move(op, mode)),
{
    let op = match op {
        MoveOp::Left => O::Left,
        MoveOp::Right => O::Right,
        MoveOp::WordLeft => O::WordLeft,
        MoveOp::WordRight => O::WordRight,
        MoveOp::StartOfBlock => O::StartOfBlock,
        MoveOp::EndOfBlock => O::EndOfBlock,
        MoveOp::Start => O::Start,
        MoveOp::End => O::End,
    };
    c.move_position(op, match mode { MoveMode::MoveAnchor => M::MoveAnchor, MoveMode::KeepAnchor => M::KeepAnchor }, 1);
}

/// Calls `TextCursor::select` with the matching selection type. Claims that
/// the call is recorded.
#[verifier::external_body]
pub(crate) fn cursor_select(log: &mut CallLog, c: &TextCursor, what: Selection)
    ensures final(log).calls() == old(log).calls().push(DocCall::Select(what)),
{
    c.select(match what {
        Selection::WordUnderCursor => S::WordUnderCursor,
        Selection::LineUnderCursor => S::LineUnderCursor,
        Selection::BlockUnderCursor => S::BlockUnderCursor,
        Selection::Document => S::Document,
    })
}

/// Calls `TextCursor::insert_text` with `text`; its error is dropped.
/// Claims that the call is recorded.
#[verifier::external_body]
pub(crate) fn cursor_insert_text(log: &mut CallLog, c: &TextCursor, text: &str)
    ensures final(log).calls() == old(log).calls().push(DocCall::Edit(CaretEdit::InsertText(text@))),
{
    let _ = c.insert_text(text);
}

/// Calls `TextCursor::insert_block`; its error is dropped. Claims that the
/// call is recorded.
#[verifier::external_body]
pub(crate) fn cursor_insert_block(log: &mut CallLog, c: &TextCursor)
    ensures final(log).calls() == old(log).calls().push(DocCall::Edit(CaretEdit::InsertBlock)),
{
    let _ = c.insert_block();
}

/// Calls `TextCursor::insert_html` with `html`; its error is dropped.
/// Claims that the call is recorded.
#[verifier::external_body]
pub(crate) fn cursor_insert_html(log: &mut CallLog, c: &TextCursor, html: &str)
    ensures final(log).calls() == old(log).calls().push(DocCall::Edit(CaretEdit::InsertHtml(html@))),
{
    let _ = c.insert_html(html);
}

/// Calls `TextCursor::insert_image` with the resource name, an empty
/// description and the size; its error is dropped. Claims that the call is
/// recorded.
#[verifier::external_body]
pub(crate) fn cursor_insert_image(log: &mut CallLog, c: &TextCursor, name: &str, width: u32, height: u32)
    ensures final(log).calls() == old(log).calls().push(DocCall::Edit(CaretEdit::InsertImage(name@, width, height))),
{
    let _ = c.insert_image(name, "", width, height);
}

/// Calls `TextCursor::selection`: the selected part of the document.
/// Claims that the call is recorded.
#[verifier::external_body]
pub(crate) fn cursor_selection(log: &mut CallLog, c: &TextCursor) -> (r: DocumentFragment)
    ensures final(log).calls() == old(log).calls().push(DocCall::TakeSelection),
{
    c.selection()
}

/// Calls `DocumentFragment::to_plain_text` and copies the text. Claims
/// that the call is recorded with its result.
#[verifier::external_body]
pub(crate) fn fragment_plain_text(log: &mut CallLog, f: &DocumentFragment) -> (r: String)
    ensures final(log).calls() == old(log).calls().push(DocCall::FragmentText(r@)),
{
    f.to_plain_text().to_string()
}

/// Calls `DocumentFragment::to_html`. Claims that the call is recorded with
/// its result.
#[verifier::external_body]
pub(crate) fn fragment_html(log: &mut CallLog, f: &DocumentFragment) -> (r: String)
    ensures final(log).calls() == old(log).calls().push(DocCall::FragmentHtml(r@)),
{
    f.to_html()
}

/// Calls `TextCursor::insert_table` with `rows` and `columns`; its result is
/// dropped. The document model converts both to `i64` and asserts that
/// they fit. Claims that the call is recorded.
#[verifier::external_body]
pub(crate) fn cursor_insert_table(log: &mut CallLog, c: &TextCursor, rows: usize, columns: usize)
    requires
        rows <= i64::MAX,
        columns <= i64::MAX,
    ensures final(log).calls() == old(log).calls().push(DocCall::Edit(CaretEdit::InsertTable(rows, columns))),
{
    let _ = c.insert_table(rows, columns);
}

/// Calls `TextCursor::current_table`: the table the caret is in, if any.
/// Claims that the call is recorded with whether there is one.
#[verifier::external_body]
pub(crate) fn cursor_current_table(log: &mut CallLog, c: &TextCursor) -> (r: Option<TextTable>)
    ensures final(log).calls() == old(log).calls().push(DocCall::InTable(r is Some)),
{
    c.current_table()
}

/// Calls `TextCursor::current_table_cell` and splits the cell reference
/// into its table, row and column. Claims that the call is recorded with
/// the row and column.
#[verifier::external_body]
pub(crate) fn cursor_current_table_cell(log: &mut CallLog, c: &TextCursor) -> (r: Option<(TextTable, usize, usize)>)
    ensures
        final(log).calls() == old(log).calls().push(DocCall::CurrentCell(match r {
            Some(x) => Some((x.1, x.2)),
            None => None,
        })),
{
    c.current_table_cell().map(|r| (r.table, r.row, r.column))
}

/// Calls `TextCursor::remove_current_table`; its error is dropped. Claims
/// that the call is recorded.
#[verifier::external_body]
pub(crate) fn cursor_remove_current_table(log: &mut CallLog, c: &TextCursor)
    ensures final(log).calls() == old(log).calls().push(DocCall::Edit(CaretEdit::RemoveTable)),
{
    let _ = c.remove_current_table();
}

/// Calls `TextCursor::insert_row_above`; its error is dropped. Claims that
/// the call is recorded.
#[verifier::external_body]
pub(crate) fn cursor_insert_row_above(log: &mut CallLog, c: &TextCursor)
    ensures final(log).calls() == old(log).calls().push(DocCall::Edit(CaretEdit::InsertRowAbove)),
{
    let _ = c.insert_row_above();
}

/// Calls `TextCursor::insert_row_below`; its error is dropped. Claims that
/// the call is recorded.
#[verifier::external_body]
pub(crate) fn cursor_insert_row_below(log: &mut CallLog, c: &TextCursor)
    ensures final(log).calls() == old(log).calls().push(DocCall::Edit(CaretEdit::InsertRowBelow)),
{
    let _ = c.insert_row_below();
}

/// Calls `TextCursor::insert_column_before`; its error is dropped. Claims
/// that the call is recorded.
#[verifier::external_body]
pub(crate) fn cursor_insert_column_before(log: &mut CallLog, c: &TextCursor)
    ensures final(log).calls() == old(log).calls().push(DocCall::Edit(CaretEdit::InsertColumnBefore)),
{
    let _ = c.insert_column_before();
}

/// Calls `TextCursor::insert_column_after`; its error is dropped. Claims
/// that the call is recorded.
#[verifier::external_body]
pub(crate) fn cursor_insert_column_after(log: &mut CallLog, c: &TextCursor)
    ensures final(log).calls() == old(log).calls().push(DocCall::Edit(CaretEdit::InsertColumnAfter)),
{
    let _ = c.insert_column_after();
}

/// Calls `TextCursor::remove_current_row`; its error is dropped. Claims
/// that the call is recorded.
#[verifier::external_body]
pub(crate) fn cursor_remove_current_row(log: &mut CallLog, c: &TextCursor)
    ensures final(log).calls() == old(log).calls().push(DocCall::Edit(CaretEdit::RemoveRow)),
{
    let _ = c.remove_current_row();
}

/// Calls `TextCursor::remove_current_column`; its error is dropped. Claims
/// that the call is recorded.
#[verifier::external_body]
pub(crate) fn cursor_remove_current_column(log: &mut CallLog, c: &TextCursor)
    ensures final(log).calls() == old(log).calls().push(DocCall::Edit(CaretEdit::RemoveColumn)),
{
    let _ = c.remove_current_column();
}

/// Calls `TextCursor::selection_kind` and converts the kind, variant for
/// variant. Claims that the call is recorded with its result.
#[verifier::external_body]
pub(crate) fn cursor_selection_kind(log: &mut CallLog, c: &TextCursor) -> (r: SelectionShape)
    ensures final(log).calls() == old(log).calls().push(DocCall::SelectionKind(r)),
{
    let range = |r: text_document::CellRange| CellRange {
        table_id: r.table_id, start_row: r.start_row, start_col: r.start_col, end_row: r.end_row, end_col: r.end_col,
    };
    match c.selection_kind() {
        K::None => SelectionShape::Nothing,
        K::Text => SelectionShape::Text,
        K::Cells(r) => SelectionShape::Cells(range(r)),
        K::Mixed { cell_range: r, text_before: b, text_after: a } => SelectionShape::Mixed(range(r), b, a),
    }
}

/// Calls `TextDocument::snapshot_flow`: a snapshot of the whole document
/// for layout. Claims that the call is recorded.
#[verifier::external_body]
pub(crate) fn doc_snapshot_flow(log: &mut CallLog, doc: &TextDocument) -> (r: FlowSnapshot)
    ensures final(log).calls() == old(log).calls().push(DocCall::SnapshotFlow),
{
    doc.snapshot_flow()
}

/// Calls `TextDocument::snapshot_block_at_position` with `position`: a
/// snapshot of the block there for layout, if there is one. Claims that
/// the call is recorded with whether there is one.
#[verifier::external_body]
pub(crate) fn doc_snapshot_block_at(log: &mut CallLog, doc: &TextDocument, position: usize) -> (r: Option<BlockSnapshot>)
    ensures final(log).calls() == old(log).calls().push(DocCall::SnapshotBlockAt(position, r is Some)),
{
    doc.snapshot_block_at_position(position)
}

/// Calls `TextCursor::selected_cell_range`. Claims that the call is
/// recorded with its result.
#[verifier::external_body]
pub(crate) fn cursor_selected_cell_range(log: &mut CallLog, c: &TextCursor) -> (r: Option<CellRange>)
    ensures final(log).calls() == old(log).calls().push(DocCall::SelectedCellRange(r)),
{
    c.selected_cell_range().map(|r| CellRange {
        table_id: r.table_id, start_row: r.start_row, start_col: r.start_col, end_row: r.end_row, end_col: r.end_col,
    })
}

/// Calls `TextCursor::selected_cells`. Claims that the call is recorded
/// with their number.
#[verifier::external_body]
pub(crate) fn cursor_selected_cells(log: &mut CallLog, c: &TextCursor) -> (r: Vec<TableCellRef>)
    ensures final(log).calls() == old(log).calls().push(DocCall::SelectedCells(r@.len())),
{
    c.selected_cells()
}

/// Calls `TextCursor::select_table_cell`. Claims that the call is recorded.
#[verifier::external_body]
pub(crate) fn cursor_select_table_cell(log: &mut CallLog, c: &TextCursor, table_id: usize, row: usize, col: usize)
    ensures final(log).calls() == old(log).calls().push(DocCall::SelectTableCell(table_id, row, col)),
{
    c.select_table_cell(table_id, row, col)
}

/// Calls `TextCursor::select_cell_range` with the range's corners. Claims
/// that the call is recorded.
#[verifier::external_body]
pub(crate) fn cursor_select_cell_range(log: &mut CallLog, c: &TextCursor, r: CellRange)
    ensures final(log).calls() == old(log).calls().push(DocCall::SelectCellRange(r)),
{
    c.select_cell_range(r.table_id, r.start_row, r.start_col, r.end_row, r.end_col)
}

/// Calls `TextCursor::delete_char`; its error is dropped. Claims that the
/// call is recorded.
#[verifier::external_body]
pub(crate) fn cursor_delete_char(log: &mut CallLog, c: &TextCursor)
    ensures final(log).calls() == old(log).calls().push(DocCall::Edit(CaretEdit::DeleteChar)),
{
    let _ = c.delete_char();
}

/// Calls `TextCursor::delete_previous_char`; its error is dropped. Claims
/// that the call is recorded.
#[verifier::external_body]
pub(crate) fn cursor_delete_previous_char(log: &mut CallLog, c: &TextCursor)
    ensures final(log).calls() == old(log).calls().push(DocCall::Edit(CaretEdit::DeletePreviousChar)),
{
    let _ = c.delete_previous_char();
}

/// Calls `TextCursor::remove_selected_text`; its result is dropped. Claims
/// that the call is recorded.
#[verifier::external_body]
pub(crate) fn cursor_remove_selected_text(log: &mut CallLog, c: &TextCursor)
    ensures final(log).calls() == old(log).calls().push(DocCall::Edit(CaretEdit::DeleteSelection)),
{
    let _ = c.remove_selected_text();
}

/// Calls `TextCursor::create_list` with the decimal or disc style; its
/// error is dropped. Claims that the call is recorded.
#[verifier::external_body]
pub(crate) fn cursor_create_list(log: &mut CallLog, c: &TextCursor, kind: ListKind)
    ensures final(log).calls() == old(log).calls().push(DocCall::Edit(CaretEdit::CreateList(kind))),
{
    let _ = c.create_list(match kind {
        ListKind::Decimal => text_document::ListStyle::Decimal,
        ListKind::Disc => text_document::ListStyle::Disc,
    });
}

/// Calls `TextCursor::remove_current_block_from_list`; its error is
/// dropped. Claims that the call is recorded.
#[verifier::external_body]
pub(crate) fn cursor_remove_current_block_from_list(log: &mut CallLog, c: &TextCursor)
    ensures final(log).calls() == old(log).calls().push(DocCall::Edit(CaretEdit::RemoveFromList)),
{
    let _ = c.remove_current_block_from_list();
}

/// Calls `TextCursor::char_format` and reads its flags; `None` on error.
/// Claims that the call is recorded with its result.
#[verifier::external_body]
pub(crate) fn cursor_char_format(log: &mut CallLog, c: &TextCursor) -> (r: Option<CharFlags>)
    ensures final(log).calls() == old(log).calls().push(DocCall::CharFormat(r)),
{
    c.char_format().ok().map(|f| CharFlags {
        bold: f.font_bold,
        italic: f.font_italic,
        underline: f.font_underline,
        strikeout: f.font_strikeout,
    })
}

/// Calls `TextCursor::block_format` and reads its indent, heading level
/// and alignment; `None` on error. Claims that the call is recorded with
/// its result.
#[verifier::external_body]
pub(crate) fn cursor_block_format(log: &mut CallLog, c: &TextCursor) -> (r: Option<BlockFormatInfo>)
    ensures final(log).calls() == old(log).calls().push(DocCall::BlockFormat(r)),
{
    c.block_format().ok().map(|f| BlockFormatInfo {
        indent: f.indent,
        heading_level: f.heading_level,
        alignment: f.alignment.map(|a| match a {
            A::Left => Alignment::Left, A::Center => Alignment::Center, A::Right => Alignment::Right, A::Justify => Alignment::Justify,
        }),
    })
}

/// Calls `TextCursor::merge_char_format` with a format that sets only the
/// changed property; its error is dropped. Claims that the call is
/// recorded.
#[verifier::external_body]
pub(crate) fn cursor_merge_char_format(log: &mut CallLog, c: &TextCursor, change: CharFormatChange)
    ensures final(log).calls() == old(log).calls().push(DocCall::Edit(CaretEdit::MergeCharFormat(change@))),
{
    let mut f = text_document::TextFormat::default();
    match change {
        CharFormatChange::Bold(b) => f.font_bold = Some(b),
        CharFormatChange::Italic(b) => f.font_italic = Some(b),
        CharFormatChange::Underline(b) => f.font_underline = Some(b),
        CharFormatChange::Strikeout(b) => f.font_strikeout = Some(b),
        CharFormatChange::PointSize(n) => f.font_point_size = Some(n),
        CharFormatChange::Family(s) => f.font_family = Some(s),
    }
    let _ = c.merge_char_format(&f);
}

/// Calls `TextCursor::set_block_format` with a format that sets only the
/// changed property; its error is dropped. Claims that the call is
/// recorded.
#[verifier::external_body]
pub(crate) fn cursor_set_block_format(log: &mut CallLog, c: &TextCursor, change: BlockFormatChange)
    ensures final(log).calls() == old(log).calls().push(DocCall::Edit(CaretEdit::SetBlockFormat(change))),
{
    let mut f = text_document::BlockFormat::default();
    match change {
        BlockFormatChange::Indent(n) => f.indent = Some(n),
        BlockFormatChange::Alignment(a) => f.alignment = Some(match a {
            Alignment::Left => A::Left, Alignment::Center => A::Center, Alignment::Right => A::Right, Alignment::Justify => A::Justify,
        }),
        BlockFormatChange::HeadingLevel(n) => f.heading_level = Some(n),
    }
    let _ = c.set_block_format(&f);
}

} // verus!
