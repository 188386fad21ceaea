//! Editing decisions: formats, list indentation, select-all escalation,
//! click counting, the rich clipboard and buffered typing.
use vstd::prelude::*;

verus! {

/// Paragraph alignment.
#[derive(Clone, Copy, Debug, PartialEq, Eq, Structural)]
pub enum Alignment {
    Left,
    Center,
    Right,
    Justify,
}

/// The alignment that a script-facing code selects: 0 left, 1 center,
/// 2 right, 3 justify; any other code selects left.
pub open spec fn alignment_of_code(code: i32) -> Alignment {
    if code == 1 {
        Alignment::Center
    } else if code == 2 {
        Alignment::Right
    } else if code == 3 {
        Alignment::Justify
    } else {
        Alignment::Left
    }
}

/// The script-facing code of a block's alignment; a block without one
/// reports 0 (left).
pub open spec fn code_of_alignment(a: Option<Alignment>) -> i32 {
    match a {
        Some(Alignment::Left) | None => 0,
        Some(Alignment::Center) => 1,
        Some(Alignment::Right) => 2,
        Some(Alignment::Justify) => 3,
    }
}

/// The alignment selected by a script-facing code.
pub fn alignment_from_code(code: i32) -> (r: Alignment)
    ensures r == alignment_of_code(code),
{
    match code {
        0 => Alignment::Left,
        1 => Alignment::Center,
        2 => Alignment::Right,
        3 => Alignment::Justify,
        _ => Alignment::Left,
    }
}

/// The script-facing code of a block's alignment.
pub fn alignment_code(alignment: Option<Alignment>) -> (r: i32)
    ensures r == code_of_alignment(alignment),
{
    match alignment {
        Some(Alignment::Left) => 0,
        Some(Alignment::Center) => 1,
        Some(Alignment::Right) => 2,
        Some(Alignment::Justify) => 3,
        None => 0,
    }
}

/// Setting an alignment by code and reading it back gives the code, for
/// every code from 0 to 3.
pub proof fn law_alignment_round_trip(code: i32)
    requires
        0 <= code <= 3,
    ensures
        code_of_alignment(Some(alignment_of_code(code))) == code,
{
}

/// The heading level stored for a script-facing level: its low byte.
pub fn heading_level_byte(level: i32) -> (r: u8)
    ensures r == level as u8,
{
    #[verifier::truncate]
    (level as u8)
}

/// The script-facing heading level of a block: 0 for a block that is not
/// a heading.
pub fn heading_level_code(level: Option<u8>) -> (r: i32)
    ensures
        r == match level {
            Some(l) => l as int,
            None => 0,
        },
{
    match level {
        Some(l) => l as i32,
        None => 0,
    }
}

/// Setting a heading level and reading it back gives the level, for every
/// level from 0 to 255.
pub proof fn law_heading_level_round_trip(level: i32)
    requires
        0 <= level <= 255,
    ensures
        (level as u8) as int == level,
{
}

/// A script-facing size or count as the unsigned value the document takes
/// (the two's complement bits of a negative value).
pub fn size_as_u32(value: i32) -> (r: u32)
    ensures r == value as u32,
{
    #[verifier::truncate]
    (value as u32)
}

/// A script-facing size or count as a `usize` (the two's complement bits
/// of a negative value).
pub fn size_as_usize(value: i32) -> (r: usize)
    ensures r == value as usize,
{
    #[verifier::truncate]
    (value as usize)
}

/// A document count or position as the script-facing `i32` (its low
/// 32 bits, read as two's complement).
pub fn count_as_i32(value: usize) -> (r: i32)
    ensures r == value as i32,
{
    #[verifier::truncate]
    (value as i32)
}

/// A character format flag as the script reads it: unset means off.
pub fn format_flag(flag: Option<bool>) -> (r: bool)
    ensures r == (flag == Some(true)),
{
    match flag {
        Some(b) => b,
        None => false,
    }
}

/// The value a formatting toggle sets: the opposite of the flag at the
/// caret, where unset counts as off.
pub fn toggled_flag(current: Option<bool>) -> (r: bool)
    ensures r == (current != Some(true)),
{
    !format_flag(current)
}

/// The position at which the character format is read: the start of the
/// selection if there is one, else the caret.
pub fn format_query_position(has_selection: bool, selection_start: usize, position: usize) -> (r: usize)
    ensures r == if has_selection { selection_start } else { position },
{
    if has_selection {
        selection_start
    } else {
        position
    }
}

/// The offset of a position in the block that starts at `block_start`
/// (0 for a position before it).
pub fn offset_in_block(position: usize, block_start: usize) -> (r: usize)
    ensures r == if position >= block_start { position - block_start } else { 0 },
{
    position.saturating_sub(block_start)
}

/// The list style that `insert_list` creates.
#[derive(Clone, Copy, Debug, PartialEq, Eq, Structural)]
pub enum ListKind {
    /// A numbered list.
    Decimal,
    /// A bullet list.
    Disc,
}

/// An ordered list is numbered, any other gets bullets.
pub fn list_kind(ordered: bool) -> (r: ListKind)
    ensures r == if ordered { ListKind::Decimal } else { ListKind::Disc },
{
    if ordered {
        ListKind::Decimal
    } else {
        ListKind::Disc
    }
}

/// What Backspace does at the caret.
#[derive(Clone, Copy, Debug, PartialEq, Eq, Structural)]
pub enum BackspaceEdit {
    /// Set the block's list indent to this level.
    SetIndent(u8),
    /// Take the block out of its list.
    RemoveFromList,
    /// Delete the character before the caret.
    DeletePrevious,
    /// Leave the document as it is (its block format could not be read).
    Keep,
}

/// Backspace at the start of a list item first undoes one level of
/// indent, then takes the item out of the list; elsewhere it deletes the
/// previous character. `indent` is the block's indent (`None` when its
/// format could not be read, `Some(None)` when it has no indent).
pub open spec fn backspace_spec(at_block_start: bool, in_list: bool, indent: Option<Option<u8>>) -> BackspaceEdit {
    if at_block_start && in_list {
        match indent {
            None => BackspaceEdit::Keep,
            Some(level) => {
                let l: u8 = match level {
                    Some(v) => v,
                    None => 0,
                };
                if l > 0 {
                    BackspaceEdit::SetIndent((l - 1) as u8)
                } else {
                    BackspaceEdit::RemoveFromList
                }
            },
        }
    } else {
        BackspaceEdit::DeletePrevious
    }
}

/// Decides what Backspace does.
pub fn backspace_edit(at_block_start: bool, in_list: bool, indent: Option<Option<u8>>) -> (r: BackspaceEdit)
    ensures r == backspace_spec(at_block_start, in_list, indent),
{
    if at_block_start && in_list {
        match indent {
            None => BackspaceEdit::Keep,
            Some(level) => {
                let l: u8 = match level {
                    Some(v) => v,
                    None => 0,
                };
                if l > 0 {
                    BackspaceEdit::SetIndent(l - 1)
                } else {
                    BackspaceEdit::RemoveFromList
                }
            },
        }
    } else {
        BackspaceEdit::DeletePrevious
    }
}

/// What Tab or Shift+Tab does at the caret.
#[derive(Clone, Copy, Debug, PartialEq, Eq, Structural)]
pub enum TabEdit {
    /// Move to the next (`1`) or previous (`-1`) table cell.
    NavigateCell(i32),
    /// Set the block's list indent to this level.
    SetIndent(u8),
    /// Insert a tab character.
    InsertTab,
    /// Leave the document as it is.
    Keep,
}

pub open spec fn indent_level(indent: Option<u8>) -> u8 {
    match indent {
        Some(v) => v,
        None => 0,
    }
}

/// Tab moves to the next table cell inside a table, indents a list item
/// at its start, and inserts a tab character elsewhere.
pub open spec fn tab_spec(in_cell: bool, at_block_start: bool, in_list: bool, indent: Option<Option<u8>>) -> TabEdit {
    if in_cell {
        TabEdit::NavigateCell(1i32)
    } else if at_block_start && in_list {
        match indent {
            None => TabEdit::Keep,
            Some(level) => TabEdit::SetIndent((indent_level(level) + 1) as u8),
        }
    } else {
        TabEdit::InsertTab
    }
}

/// Decides what Tab does.
pub fn tab_edit(in_cell: bool, at_block_start: bool, in_list: bool, indent: Option<Option<u8>>) -> (r: TabEdit)
    requires
        in_cell == false && at_block_start && in_list ==> (indent matches Some(level) ==> indent_level(level) < u8::MAX),
    ensures r == tab_spec(in_cell, at_block_start, in_list, indent),
{
    if in_cell {
        TabEdit::NavigateCell(1)
    } else if at_block_start && in_list {
        match indent {
            None => TabEdit::Keep,
            Some(level) => {
                let l: u8 = match level {
                    Some(v) => v,
                    None => 0,
                };
                TabEdit::SetIndent(l + 1)
            },
        }
    } else {
        TabEdit::InsertTab
    }
}

/// Shift+Tab moves to the previous table cell inside a table and
/// outdents an indented list item; elsewhere it does nothing.
pub open spec fn shift_tab_spec(in_cell: bool, in_list: bool, indent: Option<Option<u8>>) -> TabEdit {
    if in_cell {
        TabEdit::NavigateCell(-1i32)
    } else if in_list {
        match indent {
            Some(level) => if indent_level(level) > 0 {
                TabEdit::SetIndent((indent_level(level) - 1) as u8)
            } else {
                TabEdit::Keep
            },
            None => TabEdit::Keep,
        }
    } else {
        TabEdit::Keep
    }
}

/// Decides what Shift+Tab does.
pub fn shift_tab_edit(in_cell: bool, in_list: bool, indent: Option<Option<u8>>) -> (r: TabEdit)
    ensures r == shift_tab_spec(in_cell, in_list, indent),
{
    if in_cell {
        TabEdit::NavigateCell(-1)
    } else if in_list {
        match indent {
            Some(level) => {
                let l: u8 = match level {
                    Some(v) => v,
                    None => 0,
                };
                if l > 0 {
                    TabEdit::SetIndent(l - 1)
                } else {
                    TabEdit::Keep
                }
            },
            None => TabEdit::Keep,
        }
    } else {
        TabEdit::Keep
    }
}

/// Tab at the start of a list item followed by Shift+Tab restores the
/// item's indent.
pub proof fn law_indent_then_outdent(level: Option<u8>)
    requires
        indent_level(level) < u8::MAX,
    ensures
        ({
            let l = indent_level(level);
            &&& tab_spec(false, true, true, Some(level)) == TabEdit::SetIndent((l + 1) as u8)
            &&& shift_tab_spec(false, true, Some(Some((l + 1) as u8))) == TabEdit::SetIndent(l)
        }),
{
}

/// What Ctrl+A selects.
#[derive(Clone, Copy, Debug, PartialEq, Eq, Structural)]
pub enum SelectAllTarget {
    /// The content of the caret's cell (its block).
    CellContent,
    /// The caret's cell.
    Cell,
    /// The whole table.
    Table,
    /// The whole document.
    Document,
}

/// Repeated Ctrl+A inside a table widens the selection from the cell's
/// content to the cell, the table and then the document, and starts over;
/// outside a table it selects the document. `level` counts the Ctrl+A
/// presses in a row before this one (0 to 3); the result holds the new
/// count.
pub open spec fn select_all_spec(level: u8, in_cell: bool) -> (SelectAllTarget, u8) {
    if in_cell {
        let next = level + 1;
        let target = if next == 1 {
            SelectAllTarget::CellContent
        } else if next == 2 {
            SelectAllTarget::Cell
        } else if next == 3 {
            SelectAllTarget::Table
        } else {
            SelectAllTarget::Document
        };
        (target, if next >= 4 { 0u8 } else { next as u8 })
    } else {
        (SelectAllTarget::Document, 0u8)
    }
}

/// Decides what Ctrl+A selects and the new escalation level.
pub fn select_all_step(level: u8, in_cell: bool) -> (r: (SelectAllTarget, u8))
    requires
        level < u8::MAX,
    ensures
        r == select_all_spec(level, in_cell),
{
    if in_cell {
        let next = level + 1;
        let target = match next {
            1 => SelectAllTarget::CellContent,
            2 => SelectAllTarget::Cell,
            3 => SelectAllTarget::Table,
            _ => SelectAllTarget::Document,
        };
        (target, if next >= 4 { 0 } else { next })
    } else {
        (SelectAllTarget::Document, 0)
    }
}

/// The number of Ctrl+A presses in a row (0 to 3).
pub struct SelectAllLevel {
    level: u8,
}

impl SelectAllLevel {
    #[verifier::type_invariant]
    spec fn inv(self) -> bool {
        self.level <= 3
    }

    /// The number of presses in a row.
    pub closed spec fn view_level(self) -> u8 {
        self.level
    }

    /// No press yet.
    pub fn new() -> (r: Self)
        ensures r.view_level() == 0,
    {
        SelectAllLevel { level: 0 }
    }

    /// Forgets the presses (another action came in between).
    pub fn reset(&mut self)
        ensures final(self).view_level() == 0,
    {
        self.level = 0;
    }

    /// Records a press and returns what it selects.
    pub fn press(&mut self, in_cell: bool) -> (r: SelectAllTarget)
        ensures
            (r, final(self).view_level()) == select_all_spec(old(self).view_level(), in_cell),
            final(self).view_level() <= 3,
    {
        proof {
            use_type_invariant(&*self);
        }
        let (target, level) = select_all_step(self.level, in_cell);
        self.level = level;
        target
    }
}

/// Four Ctrl+A in a row inside a table select the cell's content, the
/// cell, the table and the document, and the fifth starts over.
pub proof fn law_select_all_cycle()
    ensures
        select_all_spec(0, true) == (SelectAllTarget::CellContent, 1u8),
        select_all_spec(1, true) == (SelectAllTarget::Cell, 2u8),
        select_all_spec(2, true) == (SelectAllTarget::Table, 3u8),
        select_all_spec(3, true) == (SelectAllTarget::Document, 0u8),
{
}

/// The escalation level stays within 0..=3 whatever is pressed.
pub proof fn law_select_all_level_bounded(level: u8, in_cell: bool)
    requires
        level <= 3,
    ensures
        select_all_spec(level, in_cell).1 <= 3,
{
}

/// What a click selects after positioning the caret.
#[derive(Clone, Copy, Debug, PartialEq, Eq, Structural)]
pub enum ClickSelection {
    /// A single click only places the caret.
    Caret,
    /// A double click selects the word.
    Word,
    /// A triple click selects the line.
    Line,
}

/// Counts clicks in a row to tell single, double and triple clicks apart.
pub struct ClickCounter {
    count: u32,
}

impl ClickCounter {
    #[verifier::type_invariant]
    spec fn inv(self) -> bool {
        self.count <= 3
    }

    /// The number of clicks in the current run (0 before the first).
    pub closed spec fn view_count(self) -> u32 {
        self.count
    }

    /// A counter that has seen no click.
    pub fn new() -> (r: Self)
        ensures r.view_count() == 0,
    {
        ClickCounter { count: 0 }
    }

    /// The number of clicks in the current run.
    pub fn count(&self) -> (r: u32)
        ensures r == self.view_count(),
    {
        self.count
    }

    /// Records a click; `is_repeat` tells whether it came soon enough and
    /// close enough to the previous one to continue its run.
    pub fn register_click(&mut self, is_repeat: bool) -> (r: ClickSelection)
        ensures
            (r, final(self).view_count()) == click_step(old(self).view_count(), is_repeat),
    {
        proof {
            use_type_invariant(&*self);
        }
        let n = if is_repeat { self.count + 1 } else { 1 };
        if n == 1 {
            self.count = 1;
            ClickSelection::Caret
        } else if n == 2 {
            self.count = 2;
            ClickSelection::Word
        } else {
            self.count = 3;
            ClickSelection::Line
        }
    }

    /// Records a double click reported by the engine: the run counts two
    /// clicks.
    pub fn register_double_click(&mut self)
        ensures final(self).view_count() == 2,
    {
        self.count = 2;
    }
}

/// A click continues the run of clicks before it when `is_repeat`, else
/// starts a new run; the first click of a run places the caret, the second
/// selects the word, the third and later select the line, and the run
/// count stays at 3 from then on.
pub open spec fn click_step(count: u32, is_repeat: bool) -> (ClickSelection, u32) {
    let n = if is_repeat { count + 1 } else { 1 };
    if n == 1 {
        (ClickSelection::Caret, 1u32)
    } else if n == 2 {
        (ClickSelection::Word, 2u32)
    } else {
        (ClickSelection::Line, 3u32)
    }
}

/// Clicks in quick succession place the caret, then select the word, then
/// the line, and go on selecting the line; a click that is no
/// repeat starts over.
pub proof fn law_click_sequence(count: u32)
    requires
        count <= 3,
    ensures
        click_step(0, true) == (ClickSelection::Caret, 1u32),
        click_step(1, true) == (ClickSelection::Word, 2u32),
        click_step(2, true) == (ClickSelection::Line, 3u32),
        click_step(3, true) == (ClickSelection::Line, 3u32),
        click_step(count, false) == (ClickSelection::Caret, 1u32),
{
}

/// What Paste inserts.
#[derive(Clone, Debug, PartialEq, Eq)]
pub enum PasteContent {
    /// The formatted copy kept by the editor.
    Html(String),
    /// The clipboard's plain text.
    Plain(String),
    /// Nothing: the clipboard is empty.
    Nothing,
}

/// [`PasteContent`] with its text as characters.
pub enum PasteView {
    Html(Seq<char>),
    Plain(Seq<char>),
    Nothing,
}

impl View for PasteContent {
    type V = PasteView;

    open spec fn view(&self) -> PasteView {
        match self {
            PasteContent::Html(h) => PasteView::Html(h@),
            PasteContent::Plain(p) => PasteView::Plain(p@),
            PasteContent::Nothing => PasteView::Nothing,
        }
    }
}

/// The rich clipboard's content: the HTML and the plain text of the last
/// copy, if any.
pub struct ClipboardView {
    pub html: Option<Seq<char>>,
    pub plain: Option<Seq<char>>,
}

/// A copy of a selection with an empty plain text leaves the clipboard as
/// it was; any other keeps its HTML and plain text.
pub open spec fn copy_spec(clip: ClipboardView, plain: Seq<char>, html: Seq<char>) -> ClipboardView {
    if plain.len() == 0 {
        clip
    } else {
        ClipboardView { html: Some(html), plain: Some(plain) }
    }
}

/// Paste inserts the kept HTML when the system clipboard still holds the
/// text of the last copy, else the system clipboard's text, else nothing.
pub open spec fn paste_spec(clip: ClipboardView, system_text: Seq<char>) -> PasteView {
    match (clip.html, clip.plain) {
        (Some(h), Some(p)) if p == system_text => PasteView::Html(h),
        _ => if system_text.len() > 0 {
            PasteView::Plain(system_text)
        } else {
            PasteView::Nothing
        },
    }
}

/// The editor's own rich clipboard: the formatted (HTML) form of the last
/// copy, next to the plain text that went to the system clipboard.
pub struct RichClipboard {
    html: Option<String>,
    plain: Option<String>,
}

impl View for RichClipboard {
    type V = ClipboardView;

    closed spec fn view(&self) -> ClipboardView {
        ClipboardView {
            html: match self.html {
                Some(h) => Some(h@),
                None => None,
            },
            plain: match self.plain {
                Some(p) => Some(p@),
                None => None,
            },
        }
    }
}

impl RichClipboard {
    /// An empty rich clipboard.
    pub fn new() -> (r: Self)
        ensures
            r@.html is None,
            r@.plain is None,
    {
        RichClipboard { html: None, plain: None }
    }

    /// Records a copy of a selection with the given plain text and HTML;
    /// the result tells whether the plain text is to go to the system
    /// clipboard (it is not empty).
    pub fn record_copy(&mut self, plain: String, html: String) -> (r: bool)
        ensures
            r == (plain@.len() > 0),
            final(self)@ == copy_spec(old(self)@, plain@, html@),
    {
        if plain.as_str().is_empty() {
            return false;
        }
        self.html = Some(html);
        self.plain = Some(plain);
        true
    }

    /// What Paste inserts, given the system clipboard's text.
    pub fn paste_content(&self, system_text: &String) -> (r: PasteContent)
        ensures
            r@ == paste_spec(self@, system_text@),
    {
        match (&self.html, &self.plain) {
            (Some(html), Some(our_plain)) => {
                if *system_text == *our_plain {
                    return PasteContent::Html(html.clone());
                }
            },
            _ => {},
        }
        if !system_text.as_str().is_empty() {
            PasteContent::Plain(system_text.clone())
        } else {
            PasteContent::Nothing
        }
    }
}

/// A copy followed by a paste, while the system clipboard still holds the
/// copied text, pastes the copied HTML.
pub proof fn law_copy_then_paste_is_rich(clip: ClipboardView, plain: Seq<char>, html: Seq<char>)
    requires
        plain.len() > 0,
    ensures
        paste_spec(copy_spec(clip, plain, html), plain) == PasteView::Html(html),
{
}

/// When the system clipboard holds other text than the last copy, Paste
/// inserts that text as it is.
pub proof fn law_foreign_clipboard_is_plain(clip: ClipboardView, system_text: Seq<char>)
    requires
        system_text.len() > 0,
        clip.plain != Some(system_text),
    ensures
        paste_spec(clip, system_text) == PasteView::Plain(system_text),
{
}

/// Characters typed since the last flush; they reach the document as one
/// insertion.
pub struct PendingChars {
    text: String,
}

impl PendingChars {
    /// The buffered characters.
    pub closed spec fn view_text(self) -> Seq<char> {
        self.text@
    }

    /// An empty buffer.
    pub fn new() -> (r: Self)
        ensures r.view_text() == Seq::<char>::empty(),
    {
        PendingChars { text: String::new() }
    }

    /// Buffers one typed character.
    pub fn push(&mut self, c: char)
        ensures final(self).view_text() == old(self).view_text().push(c),
    {
        string_push(&mut self.text, c);
    }

    /// Takes the buffered text for insertion, leaving the buffer empty;
    /// `None` when nothing was typed.
    pub fn take(&mut self) -> (r: Option<String>)
        ensures
            final(self).view_text() == Seq::<char>::empty(),
            old(self).view_text().len() == 0 ==> r is None,
            old(self).view_text().len() > 0 ==> (r matches Some(s) && s@ == old(self).view_text()),
    {
        if self.text.as_str().is_empty() {
            return None;
        }
        let mut out = String::new();
        std::mem::swap(&mut out, &mut self.text);
        Some(out)
    }
}

/// Appends a character to a string.
///
/// Calls `String::push`, which std documents to append the character to
/// the end of the string.
#[verifier::external_body]
fn string_push(s: &mut String, c: char)
    ensures final(s)@ == old(s)@.push(c),
{
    s.push(c);
}

/// Where a control's initial content comes from.
#[derive(Clone, Copy, Debug, PartialEq, Eq, Structural)]
pub enum ContentSource {
    Markdown,
    Html,
    PlainText,
    /// No initial content.
    Empty,
}

/// The initial content is taken from the first non-empty of the markdown,
/// HTML and plain text properties, in that order.
pub open spec fn initial_content_source_spec(markdown: Seq<char>, html: Seq<char>, text: Seq<char>) -> ContentSource {
    if markdown.len() > 0 {
        ContentSource::Markdown
    } else if html.len() > 0 {
        ContentSource::Html
    } else if text.len() > 0 {
        ContentSource::PlainText
    } else {
        ContentSource::Empty
    }
}

/// Chooses where a control's initial content comes from.
pub fn initial_content_source(markdown: &str, html: &str, text: &str) -> (r: ContentSource)
    ensures
        r == initial_content_source_spec(markdown@, html@, text@),
{
    if !markdown.is_empty() {
        ContentSource::Markdown
    } else if !html.is_empty() {
        ContentSource::Html
    } else if !text.is_empty() {
        ContentSource::PlainText
    } else {
        ContentSource::Empty
    }
}

/// Backspace at the start of a list item whose indent `l` can be read
/// takes one level off when it is indented (the new level plus one is
/// `l`), and takes the item out of its list when it is not (`l` is 0 or
/// unset).
pub proof fn law_backspace_outdents_then_leaves(level: Option<u8>)
    ensures
        ({
            let l = match level {
                Some(v) => v as int,
                None => 0,
            };
            &&& l > 0 ==> (backspace_spec(true, true, Some(level)) matches BackspaceEdit::SetIndent(k) && k + 1 == l)
            &&& l == 0 ==> backspace_spec(true, true, Some(level)) == BackspaceEdit::RemoveFromList
        }),
{
}

/// Tab at the start of a list item followed by Backspace restores the
/// item's indent, at every level below the largest.
pub proof fn law_tab_then_backspace(level: u8)
    requires
        level < u8::MAX,
    ensures
        tab_spec(false, true, true, Some(Some(level))) == TabEdit::SetIndent((level + 1) as u8),
        backspace_spec(true, true, Some(Some((level + 1) as u8))) == BackspaceEdit::SetIndent(level),
{
}

/// Shift+Tab in a list item takes one level off an indented item (the new
/// level plus one is the old one) and leaves an item at level 0 as it is.
pub proof fn law_shift_tab_outdents(level: Option<u8>)
    ensures
        ({
            let l = match level {
                Some(v) => v as int,
                None => 0,
            };
            &&& l > 0 ==> (shift_tab_spec(false, true, Some(level)) matches TabEdit::SetIndent(k) && k + 1 == l)
            &&& l == 0 ==> shift_tab_spec(false, true, Some(level)) == TabEdit::Keep
        }),
{
}

} // verus!
