//! What the controls do with the document's change events: which layout
//! a frame needs, and which notifications are due.
use vstd::prelude::*;

verus! {

/// A document event, as far as the controls read it.
#[derive(Clone, Copy, Debug, PartialEq, Eq, Structural)]
pub enum DocEvent {
    /// Text changed at `position`, touching `blocks_affected` blocks.
    ContentsChanged { position: usize, blocks_affected: usize },
    TextInserted,
    FormatChanged,
    HighlightPaintChanged,
    BlockCountChanged,
    FlowElementsInserted,
    FlowElementsRemoved,
    DocumentReset,
    UndoRedoChanged { can_undo: bool, can_redo: bool },
    ModificationChanged,
    LongOperationProgress,
    LongOperationFinished,
}

/// An event that changes the structure of the document: the editor lays
/// the whole document out again after it.
pub open spec fn is_structural(e: DocEvent) -> bool {
    match e {
        DocEvent::FormatChanged | DocEvent::DocumentReset | DocEvent::FlowElementsInserted
        | DocEvent::FlowElementsRemoved | DocEvent::BlockCountChanged => true,
        DocEvent::ContentsChanged { blocks_affected, .. } => blocks_affected > 1,
        _ => false,
    }
}

/// An event that changes what the document shows.
pub open spec fn is_content_change(e: DocEvent) -> bool {
    match e {
        DocEvent::ContentsChanged { .. } | DocEvent::FormatChanged | DocEvent::DocumentReset
        | DocEvent::FlowElementsInserted | DocEvent::FlowElementsRemoved | DocEvent::BlockCountChanged => true,
        _ => false,
    }
}

/// What the editor learns from one frame's events.
#[derive(Clone, Debug, PartialEq, Eq)]
pub struct EditEvents {
    /// The whole document must be laid out again.
    pub needs_full_layout: bool,
    /// Positions of single-block text changes seen before any structural
    /// event, in order.
    pub incremental_positions: Vec<usize>,
    /// Something the document shows changed (a redraw is due).
    pub content_changed: bool,
    /// The text changed.
    pub text_changed: bool,
    /// The formatting changed.
    pub format_changed: bool,
    /// The last undo/redo availability reported.
    pub undo_redo: Option<(bool, bool)>,
    /// A long operation (such as loading markdown) finished.
    pub document_loaded: bool,
}

/// [`EditEvents`] with its positions as a sequence.
pub struct EditEventsView {
    pub needs_full_layout: bool,
    pub incremental_positions: Seq<usize>,
    pub content_changed: bool,
    pub text_changed: bool,
    pub format_changed: bool,
    pub undo_redo: Option<(bool, bool)>,
    pub document_loaded: bool,
}

impl View for EditEvents {
    type V = EditEventsView;

    open spec fn view(&self) -> EditEventsView {
        EditEventsView {
            needs_full_layout: self.needs_full_layout,
            incremental_positions: self.incremental_positions@,
            content_changed: self.content_changed,
            text_changed: self.text_changed,
            format_changed: self.format_changed,
            undo_redo: self.undo_redo,
            document_loaded: self.document_loaded,
        }
    }
}

/// The summary of no events.
pub open spec fn no_edit_events() -> EditEventsView {
    EditEventsView {
        needs_full_layout: false,
        incremental_positions: Seq::empty(),
        content_changed: false,
        text_changed: false,
        format_changed: false,
        undo_redo: None,
        document_loaded: false,
    }
}

/// The summary after one more event.
pub open spec fn edit_event_step(s: EditEventsView, e: DocEvent) -> EditEventsView {
    match e {
        DocEvent::ContentsChanged { position, blocks_affected } => EditEventsView {
            needs_full_layout: s.needs_full_layout || blocks_affected > 1,
            incremental_positions: if blocks_affected <= 1 && !s.needs_full_layout {
                s.incremental_positions.push(position)
            } else {
                s.incremental_positions
            },
            content_changed: true,
            text_changed: true,
            ..s
        },
        DocEvent::FormatChanged => EditEventsView {
            needs_full_layout: true,
            content_changed: true,
            format_changed: true,
            ..s
        },
        DocEvent::DocumentReset | DocEvent::FlowElementsInserted | DocEvent::FlowElementsRemoved
        | DocEvent::BlockCountChanged => EditEventsView {
            needs_full_layout: true,
            content_changed: true,
            ..s
        },
        DocEvent::UndoRedoChanged { can_undo, can_redo } => EditEventsView {
            undo_redo: Some((can_undo, can_redo)),
            ..s
        },
        DocEvent::LongOperationFinished => EditEventsView { document_loaded: true, ..s },
        _ => s,
    }
}

/// The summary of a frame's events, in order.
pub open spec fn edit_events_spec(events: Seq<DocEvent>) -> EditEventsView
    decreases events.len(),
{
    if events.len() == 0 {
        no_edit_events()
    } else {
        edit_event_step(edit_events_spec(events.drop_last()), events.last())
    }
}

/// Summarizes a frame's document events for the editor.
pub fn classify_edit_events(events: &Vec<DocEvent>) -> (r: EditEvents)
    ensures
        r@ == edit_events_spec(events@),
{
    let mut r = EditEvents {
        needs_full_layout: false,
        incremental_positions: Vec::new(),
        content_changed: false,
        text_changed: false,
        format_changed: false,
        undo_redo: None,
        document_loaded: false,
    };
    let mut i: usize = 0;
    while i < events.len()
        invariant
            i <= events@.len(),
            r@ == edit_events_spec(events@.take(i as int)),
        decreases events.len() - i,
    {
        let e = events[i];
        proof {
            assert(events@.take(i + 1).drop_last() == events@.take(i as int));
        }
        match e {
            DocEvent::ContentsChanged { position, blocks_affected } => {
                if blocks_affected <= 1 && !r.needs_full_layout {
                    r.incremental_positions.push(position);
                } else {
                    r.needs_full_layout = true;
                }
                r.content_changed = true;
                r.text_changed = true;
            },
            DocEvent::FormatChanged => {
                r.needs_full_layout = true;
                r.content_changed = true;
                r.format_changed = true;
            },
            DocEvent::DocumentReset | DocEvent::FlowElementsInserted | DocEvent::FlowElementsRemoved
            | DocEvent::BlockCountChanged => {
                r.needs_full_layout = true;
                r.content_changed = true;
            },
            DocEvent::UndoRedoChanged { can_undo, can_redo } => {
                r.undo_redo = Some((can_undo, can_redo));
            },
            DocEvent::LongOperationFinished => {
                r.document_loaded = true;
            },
            _ => {},
        }
        i = i + 1;
    }
    proof {
        assert(events@.take(events@.len() as int) == events@);
    }
    r
}

/// Once any structural event has been seen in a frame, the whole document
/// is laid out again.
pub proof fn law_structural_event_forces_full_layout(events: Seq<DocEvent>, i: int)
    requires
        0 <= i < events.len(),
        is_structural(events[i]),
    ensures
        edit_events_spec(events).needs_full_layout,
    decreases events.len(),
{
    if i < events.len() - 1 {
        law_structural_event_forces_full_layout(events.drop_last(), i);
    }
}

/// A frame with a content change asks for a redraw, and one without any
/// asks for none.
pub proof fn law_content_change_redraws(events: Seq<DocEvent>)
    ensures
        edit_events_spec(events).content_changed <==> exists|i: int| 0 <= i < events.len() && is_content_change(#[trigger] events[i]),
    decreases events.len(),
{
    if events.len() > 0 {
        law_content_change_redraws(events.drop_last());
        let p = events.drop_last();
        if edit_events_spec(p).content_changed {
            let j = choose|j: int| 0 <= j < p.len() && is_content_change(#[trigger] p[j]);
            assert(events[j] == p[j]);
        }
        if exists|i: int| 0 <= i < events.len() && is_content_change(#[trigger] events[i]) {
            let i = choose|i: int| 0 <= i < events.len() && is_content_change(#[trigger] events[i]);
            if i < events.len() - 1 {
                assert(p[i] == events[i]);
            }
        }
    }
}

/// How the next frame is laid out.
#[derive(Clone, Copy, Debug, PartialEq, Eq, Structural)]
pub enum LayoutPlan {
    /// Lay the whole document out again.
    Full,
    /// Lay out again only the block at this position.
    Block(usize),
    /// Keep the current layout.
    Keep,
}

/// A full layout when one is needed; else the block of the last
/// single-block change, if any. (Several keystrokes of one frame all edit
/// the same block, so one relayout of it is enough.)
pub open spec fn layout_plan_spec(needs_full_layout: bool, incremental_positions: Seq<usize>) -> LayoutPlan {
    if needs_full_layout {
        LayoutPlan::Full
    } else if incremental_positions.len() > 0 {
        LayoutPlan::Block(incremental_positions.last())
    } else {
        LayoutPlan::Keep
    }
}

/// Decides how the next frame is laid out.
pub fn layout_plan(needs_full_layout: bool, incremental_positions: &Vec<usize>) -> (r: LayoutPlan)
    ensures
        r == layout_plan_spec(needs_full_layout, incremental_positions@),
{
    if needs_full_layout {
        LayoutPlan::Full
    } else if incremental_positions.len() > 0 {
        LayoutPlan::Block(incremental_positions[incremental_positions.len() - 1])
    } else {
        LayoutPlan::Keep
    }
}

/// What the viewer learns from one frame's events.
#[derive(Clone, Copy, Debug, PartialEq, Eq, Structural)]
pub struct ViewEvents {
    /// The document must be laid out again and redrawn.
    pub needs_full_layout: bool,
    /// A long operation (such as loading markdown) finished.
    pub document_loaded: bool,
}

/// The viewer lays the document out again after any content change and
/// reports when a long operation finished.
pub open spec fn view_events_spec(events: Seq<DocEvent>) -> ViewEvents
    decreases events.len(),
{
    if events.len() == 0 {
        ViewEvents { needs_full_layout: false, document_loaded: false }
    } else {
        let s = view_events_spec(events.drop_last());
        let e = events.last();
        ViewEvents {
            needs_full_layout: s.needs_full_layout || is_content_change(e),
            document_loaded: s.document_loaded || e == DocEvent::LongOperationFinished,
        }
    }
}

/// Summarizes a frame's document events for the viewer.
pub fn classify_view_events(events: &Vec<DocEvent>) -> (r: ViewEvents)
    ensures
        r == view_events_spec(events@),
{
    let mut r = ViewEvents { needs_full_layout: false, document_loaded: false };
    let mut i: usize = 0;
    while i < events.len()
        invariant
            i <= events@.len(),
            r == view_events_spec(events@.take(i as int)),
        decreases events.len() - i,
    {
        let e = events[i];
        proof {
            assert(events@.take(i + 1).drop_last() == events@.take(i as int));
        }
        match e {
            DocEvent::ContentsChanged { .. } | DocEvent::FormatChanged | DocEvent::DocumentReset
            | DocEvent::FlowElementsInserted | DocEvent::FlowElementsRemoved | DocEvent::BlockCountChanged => {
                r.needs_full_layout = true;
            },
            DocEvent::LongOperationFinished => {
                r.document_loaded = true;
            },
            _ => {},
        }
        i = i + 1;
    }
    proof {
        assert(events@.take(events@.len() as int) == events@);
    }
    r
}

/// Notifications that are due once typing pauses.
#[derive(Clone, Copy, Debug, PartialEq, Eq)]
pub struct DueSignals {
    pub text_changed: bool,
    pub format_changed: bool,
    /// `(can_undo, can_redo)` to report, if any.
    pub undo_redo: Option<(bool, bool)>,
}

/// Notifications collected across frames and sent together once typing
/// pauses.
pub struct PendingSignals {
    pending: DueSignals,
}

impl View for PendingSignals {
    type V = DueSignals;

    closed spec fn view(&self) -> DueSignals {
        self.pending
    }
}

/// The pending notifications after a frame's events: text and format
/// changes accumulate, and the latest undo/redo report replaces older ones.
pub open spec fn record_spec(p: DueSignals, e: EditEventsView) -> DueSignals {
    DueSignals {
        text_changed: p.text_changed || e.text_changed,
        format_changed: p.format_changed || e.format_changed,
        undo_redo: match e.undo_redo {
            Some(u) => Some(u),
            None => p.undo_redo,
        },
    }
}

pub open spec fn nothing_due() -> DueSignals {
    DueSignals { text_changed: false, format_changed: false, undo_redo: None }
}

impl PendingSignals {
    /// No notification pending.
    pub fn new() -> (r: Self)
        ensures r@ == nothing_due(),
    {
        PendingSignals { pending: DueSignals { text_changed: false, format_changed: false, undo_redo: None } }
    }

    /// Adds the notifications of a frame's events.
    pub fn record(&mut self, events: &EditEvents)
        ensures final(self)@ == record_spec(old(self)@, events@),
    {
        if events.text_changed {
            self.pending.text_changed = true;
        }
        if events.format_changed {
            self.pending.format_changed = true;
        }
        if let Some(u) = events.undo_redo {
            self.pending.undo_redo = Some(u);
        }
    }

    /// Hands out the pending notifications and clears them.
    pub fn take_due(&mut self) -> (r: DueSignals)
        ensures
            r == old(self)@,
            final(self)@ == nothing_due(),
    {
        let r = self.pending;
        self.pending = DueSignals { text_changed: false, format_changed: false, undo_redo: None };
        r
    }
}

/// A change recorded in any frame since the notifications were last
/// sent is reported when they are next sent, and the undo/redo state
/// reported is the latest one.
pub proof fn law_recorded_changes_are_reported(p: DueSignals, e: EditEventsView)
    ensures
        e.text_changed ==> record_spec(p, e).text_changed,
        e.format_changed ==> record_spec(p, e).format_changed,
        p.text_changed ==> record_spec(p, e).text_changed,
        p.format_changed ==> record_spec(p, e).format_changed,
        e.undo_redo is Some ==> record_spec(p, e).undo_redo == e.undo_redo,
{
}

} // verus!
