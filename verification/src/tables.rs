//! Table navigation and rectangular cell selection.
use vstd::prelude::*;
use crate::document::SelectionShape;

verus! {

/// A cell of a table, by row and column.
#[derive(Clone, Copy, Debug, PartialEq, Eq, Structural)]
pub struct CellPos {
    pub row: usize,
    pub col: usize,
}

/// The caret's cell and the size of its table.
#[derive(Clone, Copy, Debug, PartialEq, Eq, Structural)]
pub struct TableCell {
    pub table_id: usize,
    pub row: usize,
    pub col: usize,
    pub rows: usize,
    pub cols: usize,
}

/// A rectangular range of cells; `start` is the anchor corner and `end`
/// the corner that moves.
#[derive(Clone, Copy, Debug, PartialEq, Eq, Structural)]
pub struct CellRange {
    pub table_id: usize,
    pub start_row: usize,
    pub start_col: usize,
    pub end_row: usize,
    pub end_col: usize,
}

/// Where Tab / Shift+Tab takes the caret from a cell.
#[derive(Clone, Copy, Debug, PartialEq, Eq, Structural)]
pub enum CellStep {
    /// Already at the first cell: the caret stays.
    Stay,
    /// Move to the first block of this cell.
    Goto(CellPos),
    /// At the last cell: insert a row below, then move to this cell.
    AppendRowThenGoto(CellPos),
}

/// Where Enter takes the caret from a cell.
#[derive(Clone, Copy, Debug, PartialEq, Eq, Structural)]
pub enum CellDown {
    /// Move to the same column of the next row.
    Goto(CellPos),
    /// The cell is in the last row: move to the first place after the table.
    AfterTable,
}

pub open spec fn cell(row: int, col: int) -> CellPos {
    CellPos { row: row as usize, col: col as usize }
}

/// Tab (`direction > 0`) walks the cells in reading order and grows the
/// table by a row at its end; Shift+Tab walks back and stops at the first
/// cell.
pub open spec fn next_cell_spec(row: usize, col: usize, rows: usize, cols: usize, direction: i32) -> CellStep {
    if direction > 0 {
        if col + 1 < cols {
            CellStep::Goto(cell(row as int, col + 1))
        } else if row + 1 < rows {
            CellStep::Goto(cell(row + 1, 0))
        } else {
            CellStep::AppendRowThenGoto(cell(row + 1, 0))
        }
    } else {
        if col > 0 {
            CellStep::Goto(cell(row as int, col - 1))
        } else if row > 0 {
            CellStep::Goto(cell(row - 1, if cols > 0 { cols - 1 } else { 0 }))
        } else {
            CellStep::Stay
        }
    }
}

/// The cell that Tab (`direction > 0`) or Shift+Tab (otherwise) moves to.
pub fn next_cell(row: usize, col: usize, rows: usize, cols: usize, direction: i32) -> (r: CellStep)
    requires
        direction > 0 ==> col < usize::MAX,
        direction > 0 && col + 1 >= cols ==> row < usize::MAX,
    ensures
        r == next_cell_spec(row, col, rows, cols, direction),
{
    if direction > 0 {
        if col + 1 < cols {
            CellStep::Goto(CellPos { row, col: col + 1 })
        } else if row + 1 < rows {
            CellStep::Goto(CellPos { row: row + 1, col: 0 })
        } else {
            CellStep::AppendRowThenGoto(CellPos { row: row + 1, col: 0 })
        }
    } else {
        if col > 0 {
            CellStep::Goto(CellPos { row, col: col - 1 })
        } else if row > 0 {
            CellStep::Goto(CellPos { row: row - 1, col: cols.saturating_sub(1) })
        } else {
            CellStep::Stay
        }
    }
}

/// Tab followed by Shift+Tab comes back to the cell it started from, in
/// every cell of a table.
pub proof fn law_tab_then_shift_tab(row: usize, col: usize, rows: usize, cols: usize)
    requires
        row < rows,
        col < cols,
    ensures
        match next_cell_spec(row, col, rows, cols, 1i32) {
            CellStep::Goto(p) | CellStep::AppendRowThenGoto(p) =>
                next_cell_spec(p.row, p.col, rows, cols, -1i32) == CellStep::Goto(cell(row as int, col as int)),
            CellStep::Stay => false,
        },
{
}

/// Shift+Tab followed by Tab comes back to the cell it started from, in
/// every cell but the first.
pub proof fn law_shift_tab_then_tab(row: usize, col: usize, rows: usize, cols: usize)
    requires
        row < rows,
        col < cols,
        row > 0 || col > 0,
    ensures
        match next_cell_spec(row, col, rows, cols, -1i32) {
            CellStep::Goto(p) =>
                next_cell_spec(p.row, p.col, rows, cols, 1i32) == CellStep::Goto(cell(row as int, col as int)),
            _ => false,
        },
{
}

/// Where Enter moves the caret from a cell.
pub fn cell_below(row: usize, col: usize, rows: usize) -> (r: CellDown)
    requires
        row < usize::MAX,
    ensures
        row + 1 < rows ==> r == CellDown::Goto(cell(row + 1, col as int)),
        row + 1 >= rows ==> r == CellDown::AfterTable,
{
    if row + 1 < rows {
        CellDown::Goto(CellPos { row: row + 1, col })
    } else {
        CellDown::AfterTable
    }
}

pub open spec fn clamp(x: int, lo: int, hi: int) -> int {
    if x < lo {
        lo
    } else if x > hi {
        hi
    } else {
        x
    }
}

/// The cell range after moving its end corner by (`dcol`, `drow`), kept in
/// a table of `rows` by `cols`; `None` when the table has no cell.
pub open spec fn extend_range_spec(range: CellRange, rows: usize, cols: usize, dcol: i32, drow: i32) -> Option<CellRange> {
    if rows == 0 || cols == 0 {
        None
    } else {
        Some(CellRange {
            end_row: clamp(range.end_row + drow, 0, rows - 1) as usize,
            end_col: clamp(range.end_col + dcol, 0, cols - 1) as usize,
            ..range
        })
    }
}

/// Whether a step out of `c` in direction (`dcol`, `drow`) starts a cell
/// selection: only when the caret leaves its cell through that edge and a
/// neighbour cell lies there.
pub open spec fn starts_cell_selection(c: TableCell, at_block_start: bool, at_block_end: bool, dcol: i32, drow: i32) -> bool {
    if dcol == -1 && drow == 0 {
        at_block_start && c.col > 0
    } else if dcol == 1 && drow == 0 {
        at_block_end && c.col + 1 < c.cols
    } else if dcol == 0 && drow == -1 {
        at_block_start && c.row > 0
    } else if dcol == 0 && drow == 1 {
        at_block_end && c.row + 1 < c.rows
    } else {
        false
    }
}

pub open spec fn min(a: int, b: int) -> int {
    if a <= b { a } else { b }
}

pub open spec fn max(a: int, b: int) -> int {
    if a >= b { a } else { b }
}

/// The cell selection that a step out of `c` starts, covering `c` and its
/// neighbour.
pub open spec fn start_range_spec(c: TableCell, at_block_start: bool, at_block_end: bool, dcol: i32, drow: i32) -> Option<CellRange> {
    if !starts_cell_selection(c, at_block_start, at_block_end, dcol, drow) {
        None
    } else {
        let tr = c.row + drow;
        let tc = c.col + dcol;
        Some(CellRange {
            table_id: c.table_id,
            start_row: min(c.row as int, tr) as usize,
            start_col: min(c.col as int, tc) as usize,
            end_row: max(c.row as int, tr) as usize,
            end_col: max(c.col as int, tc) as usize,
        })
    }
}

/// Moves the end corner of an existing cell selection.
pub fn extend_cell_range(range: CellRange, rows: usize, cols: usize, dcol: i32, drow: i32) -> (r: Option<CellRange>)
    requires
        -1 <= dcol <= 1,
        -1 <= drow <= 1,
        rows <= i32::MAX,
        cols <= i32::MAX,
        range.end_row < i32::MAX,
        range.end_col < i32::MAX,
    ensures
        r == extend_range_spec(range, rows, cols, dcol, drow),
{
    if rows == 0 || cols == 0 {
        return None;
    }
    let er: i32 = range.end_row as i32 + drow;
    let ec: i32 = range.end_col as i32 + dcol;
    let max_row: i32 = rows as i32 - 1;
    let max_col: i32 = cols as i32 - 1;
    let new_end_row: i32 = if er < 0 { 0 } else if er > max_row { max_row } else { er };
    let new_end_col: i32 = if ec < 0 { 0 } else if ec > max_col { max_col } else { ec };
    Some(CellRange { end_row: new_end_row as usize, end_col: new_end_col as usize, ..range })
}

/// Starts a cell selection when the caret leaves its cell through an edge.
pub fn start_cell_selection(c: TableCell, at_block_start: bool, at_block_end: bool, dcol: i32, drow: i32) -> (r: Option<CellRange>)
    requires
        -1 <= dcol <= 1,
        -1 <= drow <= 1,
        c.row < i32::MAX,
        c.col < i32::MAX,
    ensures
        r == start_range_spec(c, at_block_start, at_block_end, dcol, drow),
{
    let should_activate = if dcol == -1 && drow == 0 {
        at_block_start && c.col > 0
    } else if dcol == 1 && drow == 0 {
        at_block_end && c.col + 1 < c.cols
    } else if dcol == 0 && drow == -1 {
        at_block_start && c.row > 0
    } else if dcol == 0 && drow == 1 {
        at_block_end && c.row + 1 < c.rows
    } else {
        false
    };
    if !should_activate {
        return None;
    }
    let tr: i32 = c.row as i32 + drow;
    let tc: i32 = c.col as i32 + dcol;
    let target_row: usize = if tr < 0 { 0 } else { tr as usize };
    let target_col: usize = if tc < 0 { 0 } else { tc as usize };
    Some(CellRange {
        table_id: c.table_id,
        start_row: if c.row <= target_row { c.row } else { target_row },
        start_col: if c.col <= target_col { c.col } else { target_col },
        end_row: if c.row >= target_row { c.row } else { target_row },
        end_col: if c.col >= target_col { c.col } else { target_col },
    })
}

/// What a Shift+arrow does to the cell selection: extend the current cell
/// selection, whose table has `selected_table_dims` (rows, columns), or
/// start one from the caret's cell; `None` means the ordinary text
/// selection applies.
pub open spec fn cell_selection_spec(
    current: Option<CellRange>,
    selected_table_dims: (usize, usize),
    caret_cell: Option<TableCell>,
    at_block_start: bool,
    at_block_end: bool,
    dcol: i32,
    drow: i32,
) -> Option<CellRange> {
    match current {
        Some(range) => extend_range_spec(range, selected_table_dims.0, selected_table_dims.1, dcol, drow),
        None => match caret_cell {
            Some(c) => start_range_spec(c, at_block_start, at_block_end, dcol, drow),
            None => None,
        },
    }
}

/// Decides a Shift+arrow step in a table: the new cell selection, or `None`
/// when the ordinary text selection applies.
pub fn cell_selection_step(
    current: Option<CellRange>,
    selected_table_dims: (usize, usize),
    caret_cell: Option<TableCell>,
    at_block_start: bool,
    at_block_end: bool,
    dcol: i32,
    drow: i32,
) -> (r: Option<CellRange>)
    requires
        -1 <= dcol <= 1,
        -1 <= drow <= 1,
        current matches Some(range) ==> {
            &&& selected_table_dims.0 <= i32::MAX
            &&& selected_table_dims.1 <= i32::MAX
            &&& range.end_row < i32::MAX
            &&& range.end_col < i32::MAX
        },
        caret_cell matches Some(c) ==> c.row < i32::MAX && c.col < i32::MAX,
    ensures
        r == cell_selection_spec(current, selected_table_dims, caret_cell, at_block_start, at_block_end, dcol, drow),
{
    match current {
        Some(range) => extend_cell_range(range, selected_table_dims.0, selected_table_dims.1, dcol, drow),
        None => match caret_cell {
            Some(c) => start_cell_selection(c, at_block_start, at_block_end, dcol, drow),
            None => None,
        },
    }
}

/// The cells of one row of a range, left to right.
pub open spec fn row_cells(table_id: usize, row: int, start_col: int, end_col: int) -> Seq<(usize, usize, usize)>
    decreases end_col - start_col + 1,
{
    if start_col > end_col {
        Seq::empty()
    } else {
        row_cells(table_id, row, start_col, end_col - 1).push((table_id, row as usize, end_col as usize))
    }
}

/// The cells of rows `start_row..=end_row` of a range, row by row.
pub open spec fn range_cells(table_id: usize, start_row: int, end_row: int, start_col: int, end_col: int) -> Seq<(usize, usize, usize)>
    decreases end_row - start_row + 1,
{
    if start_row > end_row {
        Seq::empty()
    } else {
        range_cells(table_id, start_row, end_row - 1, start_col, end_col) + row_cells(table_id, end_row, start_col, end_col)
    }
}

/// The `(table, row, column)` triples of the selected cells, row by row.
pub open spec fn selected_cells_spec(range: Option<CellRange>) -> Seq<(usize, usize, usize)> {
    match range {
        Some(r) => range_cells(r.table_id, r.start_row as int, r.end_row as int, r.start_col as int, r.end_col as int),
        None => Seq::empty(),
    }
}

/// Lists the selected cells for the renderer, row by row.
pub fn selected_cells(range: Option<CellRange>) -> (r: Vec<(usize, usize, usize)>)
    ensures
        r@ == selected_cells_spec(range),
{
    let mut cells: Vec<(usize, usize, usize)> = Vec::new();
    match range {
        None => cells,
        Some(rg) => {
            if rg.start_row > rg.end_row || rg.start_col > rg.end_col {
                proof {
                    if rg.start_col > rg.end_col {
                        lemma_empty_rows(rg.table_id, rg.start_row as int, rg.end_row as int, rg.start_col as int, rg.end_col as int);
                    }
                }
                return cells;
            }
            let mut row: usize = rg.start_row;
            loop
                invariant_except_break
                    cells@ == range_cells(rg.table_id, rg.start_row as int, row - 1, rg.start_col as int, rg.end_col as int),
                invariant
                    rg.start_row <= row <= rg.end_row,
                    rg.start_col <= rg.end_col,
                ensures
                    cells@ == range_cells(rg.table_id, rg.start_row as int, rg.end_row as int, rg.start_col as int, rg.end_col as int),
                decreases rg.end_row - row,
            {
                let ghost before = cells@;
                let mut col: usize = rg.start_col;
                loop
                    invariant_except_break
                        cells@ == before + row_cells(rg.table_id, row as int, rg.start_col as int, col - 1),
                    invariant
                        rg.start_col <= col <= rg.end_col,
                    ensures
                        cells@ == before + row_cells(rg.table_id, row as int, rg.start_col as int, rg.end_col as int),
                    decreases rg.end_col - col,
                {
                    cells.push((rg.table_id, row, col));
                    assert(cells@ == before + row_cells(rg.table_id, row as int, rg.start_col as int, col as int));
                    if col == rg.end_col {
                        break;
                    }
                    col = col + 1;
                }
                if row == rg.end_row {
                    break;
                }
                row = row + 1;
            }
            cells
        },
    }
}

proof fn lemma_empty_rows(table_id: usize, start_row: int, end_row: int, start_col: int, end_col: int)
    requires
        start_col > end_col,
    ensures
        range_cells(table_id, start_row, end_row, start_col, end_col) == Seq::<(usize, usize, usize)>::empty(),
    decreases end_row - start_row + 1,
{
    if start_row <= end_row {
        lemma_empty_rows(table_id, start_row, end_row - 1, start_col, end_col);
    }
}

/// An element of a document's top-level flow, as far as moving the caret
/// past a table reads it.
#[derive(Clone, Copy, Debug, PartialEq, Eq, Structural)]
pub enum FlowItem {
    /// A block that starts at `position`.
    Block { position: usize },
    /// A table; `first_cell_position` is the position of the first block of
    /// its first cell, where it has one.
    Table { id: usize, first_cell_position: Option<usize> },
    /// A sub-frame: the caret does not land in it.
    Frame,
}

/// The position at which the caret can land on a flow element.
pub open spec fn landing(e: FlowItem) -> Option<usize> {
    match e {
        FlowItem::Block { position } => Some(position),
        FlowItem::Table { first_cell_position, .. } => first_cell_position,
        FlowItem::Frame => None,
    }
}

pub open spec fn is_table(e: FlowItem, table_id: usize) -> bool {
    e matches FlowItem::Table { id, .. } && id == table_id
}

/// The first landing position in `flow[from..]` once the table has been
/// passed (`passed` tells whether it was passed before `from`).
pub open spec fn after_table_from(flow: Seq<FlowItem>, table_id: usize, from: int, passed: bool) -> Option<usize>
    decreases flow.len() - from,
{
    if from < 0 || from >= flow.len() {
        None
    } else if passed && landing(flow[from]) is Some {
        landing(flow[from])
    } else {
        after_table_from(flow, table_id, from + 1, passed || is_table(flow[from], table_id))
    }
}

/// The position of the first block, or first cell of a table, that follows
/// table `table_id` in the flow.
pub open spec fn position_after_table_spec(flow: Seq<FlowItem>, table_id: usize) -> Option<usize> {
    after_table_from(flow, table_id, 0, false)
}

/// Where Enter in the last row of a table takes the caret: the first block
/// (or first cell of a following table) after the table, if any.
pub fn position_after_table(flow: &Vec<FlowItem>, table_id: usize) -> (r: Option<usize>)
    ensures
        r == position_after_table_spec(flow@, table_id),
{
    let mut found = false;
    let mut i: usize = 0;
    while i < flow.len()
        invariant
            i <= flow@.len(),
            after_table_from(flow@, table_id, i as int, found) == position_after_table_spec(flow@, table_id),
        decreases flow.len() - i,
    {
        let element = flow[i];
        if found {
            match element {
                FlowItem::Block { position } => {
                    return Some(position);
                },
                FlowItem::Table { first_cell_position, .. } => {
                    if let Some(p) = first_cell_position {
                        return Some(p);
                    }
                },
                FlowItem::Frame => {},
            }
        }
        if let FlowItem::Table { id, .. } = element {
            if id == table_id {
                found = true;
            }
        }
        i = i + 1;
    }
    None
}

/// The cell range of a cell selection, or of the table part of a selection
/// that crosses a table's boundary; no range for the other kinds.
pub open spec fn selection_range_spec(shape: SelectionShape) -> Option<CellRange> {
    match shape {
        SelectionShape::Cells(r) => Some(r),
        SelectionShape::Mixed(r, _, _) => Some(r),
        _ => None,
    }
}

/// The cells a selection of this kind covers, as a range.
pub fn selection_range(shape: SelectionShape) -> (r: Option<CellRange>)
    ensures r == selection_range_spec(shape),
{
    match shape {
        SelectionShape::Cells(r) => Some(r),
        SelectionShape::Mixed(r, _, _) => Some(r),
        SelectionShape::Nothing => None,
        SelectionShape::Text => None,
    }
}

/// Shift+arrows inside a cell selection move its end corner by the step,
/// in every direction, and keep it in the table: the new end row is
/// `end_row + drow`, or 0 where that is negative, or the last row where it
/// is past it (and likewise for the column); the start corner and the
/// table stay. A table with no cell has no range.
pub proof fn law_extend_moves_end_corner(range: CellRange, rows: usize, cols: usize, dcol: i32, drow: i32)
    requires
        -1 <= dcol <= 1,
        -1 <= drow <= 1,
    ensures
        rows == 0 || cols == 0 ==> extend_range_spec(range, rows, cols, dcol, drow) is None,
        rows > 0 && cols > 0 ==> ({
            let er = range.end_row + drow;
            let ec = range.end_col + dcol;
            extend_range_spec(range, rows, cols, dcol, drow) == Some(CellRange {
                table_id: range.table_id,
                start_row: range.start_row,
                start_col: range.start_col,
                end_row: (if er < 0 { 0 } else if er > rows - 1 { rows - 1 } else { er }) as usize,
                end_col: (if ec < 0 { 0 } else if ec > cols - 1 { cols - 1 } else { ec }) as usize,
            })
        }),
{
}

/// Inside a table, a Shift+arrow moves the end corner of a cell selection
/// one cell in the arrow's direction, left and up as well as right and
/// down, unless that would leave the table, where the corner stays; the
/// opposite arrow then brings it back.
pub proof fn law_extend_steps_and_returns(range: CellRange, rows: usize, cols: usize, dcol: i32, drow: i32)
    requires
        -1 <= dcol <= 1,
        -1 <= drow <= 1,
        range.end_row < rows,
        range.end_col < cols,
    ensures
        extend_range_spec(range, rows, cols, dcol, drow) matches Some(r) && {
            &&& 0 <= range.end_row + drow < rows ==> r.end_row == range.end_row + drow
            &&& !(0 <= range.end_row + drow < rows) ==> r.end_row == range.end_row
            &&& 0 <= range.end_col + dcol < cols ==> r.end_col == range.end_col + dcol
            &&& !(0 <= range.end_col + dcol < cols) ==> r.end_col == range.end_col
            &&& r.start_row == range.start_row && r.start_col == range.start_col && r.table_id == range.table_id
        },
        0 <= range.end_row + drow < rows && 0 <= range.end_col + dcol < cols ==>
            extend_range_spec(extend_range_spec(range, rows, cols, dcol, drow)->0, rows, cols, -dcol as i32, -drow as i32)
                == Some(range),
{
}

/// A cell selection started by a Shift+arrow out of cell `c` (a cell of
/// its table) covers exactly `c` and its neighbour in the arrow's
/// direction, in the same table.
pub proof fn law_started_selection_covers_both_cells(c: TableCell, at_block_start: bool, at_block_end: bool, dcol: i32, drow: i32)
    requires
        -1 <= dcol <= 1,
        -1 <= drow <= 1,
        c.row < c.rows,
        c.col < c.cols,
    ensures
        start_range_spec(c, at_block_start, at_block_end, dcol, drow) matches Some(r) ==> {
            &&& r.table_id == c.table_id
            &&& dcol == -1 ==> r.start_col + 1 == c.col && r.end_col == c.col && r.start_row == c.row && r.end_row == c.row
            &&& dcol == 1 ==> r.start_col == c.col && r.end_col == c.col + 1 && r.start_row == c.row && r.end_row == c.row
            &&& drow == -1 ==> r.start_row + 1 == c.row && r.end_row == c.row && r.start_col == c.col && r.end_col == c.col
            &&& drow == 1 ==> r.start_row == c.row && r.end_row == c.row + 1 && r.start_col == c.col && r.end_col == c.col
            &&& r.end_row < c.rows && r.end_col < c.cols
        },
{
}

} // verus!
