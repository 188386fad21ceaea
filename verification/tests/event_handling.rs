use godot_rich_text::events::{
    classify_edit_events, classify_view_events, layout_plan, DocEvent, DueSignals, EditEvents, LayoutPlan,
    PendingSignals, ViewEvents,
};

fn typed(position: usize) -> DocEvent {
    DocEvent::ContentsChanged { position, blocks_affected: 1 }
}

#[test]
fn no_events_change_nothing() {
    let r = classify_edit_events(&Vec::new());
    assert_eq!(
        r,
        EditEvents {
            needs_full_layout: false,
            incremental_positions: Vec::new(),
            content_changed: false,
            text_changed: false,
            format_changed: false,
            undo_redo: None,
            document_loaded: false,
        }
    );
    assert_eq!(layout_plan(r.needs_full_layout, &r.incremental_positions), LayoutPlan::Keep);
}

#[test]
fn typing_relayouts_one_block() {
    let r = classify_edit_events(&vec![typed(3), typed(4), DocEvent::UndoRedoChanged { can_undo: true, can_redo: false }]);
    assert!(!r.needs_full_layout);
    assert_eq!(r.incremental_positions, vec![3, 4]);
    assert!(r.content_changed && r.text_changed && !r.format_changed);
    assert_eq!(r.undo_redo, Some((true, false)));
    assert_eq!(layout_plan(r.needs_full_layout, &r.incremental_positions), LayoutPlan::Block(4));
}

#[test]
fn structural_event_forces_full_layout() {
    let r = classify_edit_events(&vec![typed(1), DocEvent::BlockCountChanged, typed(9)]);
    assert!(r.needs_full_layout);
    assert_eq!(r.incremental_positions, vec![1]);
    assert_eq!(layout_plan(r.needs_full_layout, &r.incremental_positions), LayoutPlan::Full);
    let r = classify_edit_events(&vec![DocEvent::ContentsChanged { position: 0, blocks_affected: 3 }]);
    assert!(r.needs_full_layout && r.text_changed);
    assert!(r.incremental_positions.is_empty());
    let r = classify_edit_events(&vec![DocEvent::FormatChanged]);
    assert!(r.needs_full_layout && r.format_changed && !r.text_changed);
}

#[test]
fn events_without_content_do_not_redraw() {
    let r = classify_edit_events(&vec![
        DocEvent::TextInserted,
        DocEvent::HighlightPaintChanged,
        DocEvent::ModificationChanged,
        DocEvent::LongOperationProgress,
        DocEvent::LongOperationFinished,
    ]);
    assert!(!r.content_changed && !r.needs_full_layout);
    assert!(r.document_loaded);
}

#[test]
fn latest_undo_state_wins() {
    let r = classify_edit_events(&vec![
        DocEvent::UndoRedoChanged { can_undo: true, can_redo: false },
        DocEvent::UndoRedoChanged { can_undo: false, can_redo: true },
    ]);
    assert_eq!(r.undo_redo, Some((false, true)));
}

#[test]
fn viewer_relayouts_on_any_content_change() {
    assert_eq!(
        classify_view_events(&vec![typed(2)]),
        ViewEvents { needs_full_layout: true, document_loaded: false }
    );
    assert_eq!(
        classify_view_events(&vec![DocEvent::ModificationChanged, DocEvent::LongOperationFinished]),
        ViewEvents { needs_full_layout: false, document_loaded: true }
    );
}

#[test]
fn recorded_changes_are_reported_once() {
    let mut pending = PendingSignals::new();
    pending.record(&classify_edit_events(&vec![typed(0)]));
    pending.record(&classify_edit_events(&vec![
        DocEvent::FormatChanged,
        DocEvent::UndoRedoChanged { can_undo: true, can_redo: false },
    ]));
    pending.record(&classify_edit_events(&vec![DocEvent::ModificationChanged]));
    assert_eq!(
        pending.take_due(),
        DueSignals { text_changed: true, format_changed: true, undo_redo: Some((true, false)) }
    );
    assert_eq!(pending.take_due(), DueSignals { text_changed: false, format_changed: false, undo_redo: None });
}
