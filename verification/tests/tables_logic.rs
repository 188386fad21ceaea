use godot_rich_text::document::SelectionShape;
use godot_rich_text::tables::{
    cell_below, cell_selection_step, extend_cell_range, next_cell, position_after_table, selected_cells, selection_range,
    start_cell_selection, CellDown, CellPos, CellRange, CellStep, FlowItem, TableCell,
};

#[test]
fn tab_walks_cells_in_reading_order() {
    assert_eq!(next_cell(0, 0, 2, 3, 1), CellStep::Goto(CellPos { row: 0, col: 1 }));
    assert_eq!(next_cell(0, 2, 2, 3, 1), CellStep::Goto(CellPos { row: 1, col: 0 }));
    assert_eq!(next_cell(1, 2, 2, 3, 1), CellStep::AppendRowThenGoto(CellPos { row: 2, col: 0 }));
}

#[test]
fn shift_tab_walks_back() {
    assert_eq!(next_cell(1, 1, 2, 3, -1), CellStep::Goto(CellPos { row: 1, col: 0 }));
    assert_eq!(next_cell(1, 0, 2, 3, -1), CellStep::Goto(CellPos { row: 0, col: 2 }));
    assert_eq!(next_cell(0, 0, 2, 3, -1), CellStep::Stay);
    assert_eq!(next_cell(0, 1, 2, 3, 0), CellStep::Goto(CellPos { row: 0, col: 0 }));
    assert_eq!(next_cell(1, 0, 2, 0, -1), CellStep::Goto(CellPos { row: 0, col: 0 }));
}

#[test]
fn tab_then_shift_tab_returns() {
    for row in 0..3 {
        for col in 0..4 {
            let back = match next_cell(row, col, 3, 4, 1) {
                CellStep::Goto(p) | CellStep::AppendRowThenGoto(p) => next_cell(p.row, p.col, 3, 4, -1),
                CellStep::Stay => panic!("tab stays"),
            };
            assert_eq!(back, CellStep::Goto(CellPos { row, col }));
        }
    }
}

#[test]
fn enter_moves_down_or_out() {
    assert_eq!(cell_below(0, 2, 3), CellDown::Goto(CellPos { row: 1, col: 2 }));
    assert_eq!(cell_below(2, 2, 3), CellDown::AfterTable);
}

fn range(end_row: usize, end_col: usize) -> CellRange {
    CellRange { table_id: 7, start_row: 1, start_col: 1, end_row, end_col }
}

#[test]
fn cell_range_extends_and_clamps() {
    assert_eq!(extend_cell_range(range(1, 1), 3, 3, 1, 0), Some(range(1, 2)));
    assert_eq!(extend_cell_range(range(1, 2), 3, 3, 1, 0), Some(range(1, 2)));
    assert_eq!(extend_cell_range(range(0, 0), 3, 3, -1, -1), Some(range(0, 0)));
    assert_eq!(extend_cell_range(range(2, 1), 3, 3, 0, 1), Some(range(2, 1)));
    assert_eq!(extend_cell_range(range(5, 5), 3, 3, 0, 0), Some(range(2, 2)));
    assert_eq!(extend_cell_range(range(1, 1), 0, 3, 1, 0), None);
}

#[test]
fn cell_selection_starts_at_edges() {
    let c = TableCell { table_id: 4, row: 1, col: 1, rows: 3, cols: 3 };
    let r = |sr, sc, er, ec| Some(CellRange { table_id: 4, start_row: sr, start_col: sc, end_row: er, end_col: ec });
    assert_eq!(start_cell_selection(c, true, false, -1, 0), r(1, 0, 1, 1));
    assert_eq!(start_cell_selection(c, false, true, 1, 0), r(1, 1, 1, 2));
    assert_eq!(start_cell_selection(c, true, false, 0, -1), r(0, 1, 1, 1));
    assert_eq!(start_cell_selection(c, false, true, 0, 1), r(1, 1, 2, 1));
    // Inside the cell's text, or at the table's edge, the text selection applies.
    assert_eq!(start_cell_selection(c, false, false, -1, 0), None);
    assert_eq!(start_cell_selection(c, true, true, 1, 1), None);
    let edge = TableCell { row: 2, col: 2, ..c };
    assert_eq!(start_cell_selection(edge, true, true, 1, 0), None);
    assert_eq!(start_cell_selection(edge, true, true, 0, 1), None);
}

#[test]
fn cell_selection_step_prefers_existing_range() {
    let c = TableCell { table_id: 4, row: 1, col: 1, rows: 3, cols: 3 };
    assert_eq!(cell_selection_step(Some(range(1, 1)), (3, 3), Some(c), true, true, 0, 1), Some(range(2, 1)));
    assert_eq!(
        cell_selection_step(None, (0, 0), Some(c), true, false, 0, -1),
        Some(CellRange { table_id: 4, start_row: 0, start_col: 1, end_row: 1, end_col: 1 })
    );
    assert_eq!(cell_selection_step(None, (0, 0), None, true, true, 1, 0), None);
}

#[test]
fn selected_cells_row_by_row() {
    let r = CellRange { table_id: 9, start_row: 1, start_col: 0, end_row: 2, end_col: 1 };
    assert_eq!(selected_cells(Some(r)), vec![(9, 1, 0), (9, 1, 1), (9, 2, 0), (9, 2, 1)]);
    let single = CellRange { table_id: 1, start_row: 0, start_col: 0, end_row: 0, end_col: 0 };
    assert_eq!(selected_cells(Some(single)), vec![(1, 0, 0)]);
    let empty = CellRange { table_id: 1, start_row: 2, start_col: 0, end_row: 1, end_col: 0 };
    assert_eq!(selected_cells(Some(empty)), Vec::<(usize, usize, usize)>::new());
    assert_eq!(selected_cells(None), Vec::<(usize, usize, usize)>::new());
}

#[test]
fn after_table_landing() {
    let flow = vec![
        FlowItem::Block { position: 0 },
        FlowItem::Table { id: 3, first_cell_position: Some(5) },
        FlowItem::Frame,
        FlowItem::Table { id: 8, first_cell_position: None },
        FlowItem::Block { position: 40 },
    ];
    assert_eq!(position_after_table(&flow, 3), Some(40));
    assert_eq!(position_after_table(&flow, 8), Some(40));
    assert_eq!(position_after_table(&flow, 99), None);
    let tables = vec![
        FlowItem::Table { id: 1, first_cell_position: Some(2) },
        FlowItem::Table { id: 2, first_cell_position: Some(20) },
    ];
    assert_eq!(position_after_table(&tables, 1), Some(20));
    assert_eq!(position_after_table(&tables, 2), None);
}

#[test]
fn selection_kinds_give_their_cell_range() {
    let r = CellRange { table_id: 2, start_row: 0, start_col: 1, end_row: 1, end_col: 2 };
    assert_eq!(selection_range(SelectionShape::Cells(r)), Some(r));
    assert_eq!(selection_range(SelectionShape::Mixed(r, true, false)), Some(r));
    assert_eq!(selection_range(SelectionShape::Text), None);
    assert_eq!(selection_range(SelectionShape::Nothing), None);
}
