//! The order in which a control registers its fonts, with the fallback to
//! the embedded faces.
//!
//! The host performs each step (reading a font resource, registering its
//! bytes, setting the default face) and reports what came of it; this
//! module decides the next step and keeps the registered face ids.
use vstd::prelude::*;

verus! {

/// A font slot of a control.
#[derive(Clone, Copy, Debug, PartialEq, Eq, Structural)]
pub enum FontSlot {
    Default,
    Bold,
    Italic,
    BoldItalic,
    Monospace,
}

/// Where a font's bytes come from.
#[derive(Clone, Copy, Debug, PartialEq, Eq, Structural)]
pub enum FontSource {
    /// The font resource the user set on the slot.
    User,
    /// The face embedded in the library for the slot.
    Embedded,
}

/// Which slots hold a user font.
#[derive(Clone, Copy, Debug, PartialEq, Eq, Structural)]
pub struct FontsProvided {
    pub default: bool,
    pub bold: bool,
    pub italic: bool,
    pub bold_italic: bool,
    pub monospace: bool,
}

/// The face ids registered for each slot.
#[derive(Clone, Copy, Debug, PartialEq, Eq, Structural)]
pub struct FontIds {
    pub default: Option<u32>,
    pub bold: Option<u32>,
    pub italic: Option<u32>,
    pub bold_italic: Option<u32>,
    pub monospace: Option<u32>,
}

/// The next thing the host does.
#[derive(Clone, Copy, Debug, PartialEq, Eq, Structural)]
pub enum FontStep {
    /// Register the slot's font from this source and report the face id,
    /// or `None` when there was no usable font data.
    Register(FontSlot, FontSource),
    /// Make this face the default font, at the control's default size.
    SetDefaultFont(u32),
    /// Use the family of this face, if it has a name, as the monospace
    /// family.
    SetMonospaceFamily(u32),
    /// Registration is complete.
    Done,
}

/// The state of a registration.
pub struct FontRegistrationView {
    pub provided: FontsProvided,
    pub ids: FontIds,
    pub awaiting: FontStep,
}

pub open spec fn provided_in(p: FontsProvided, s: FontSlot) -> bool {
    match s {
        FontSlot::Default => p.default,
        FontSlot::Bold => p.bold,
        FontSlot::Italic => p.italic,
        FontSlot::BoldItalic => p.bold_italic,
        FontSlot::Monospace => p.monospace,
    }
}

pub open spec fn id_in(ids: FontIds, s: FontSlot) -> Option<u32> {
    match s {
        FontSlot::Default => ids.default,
        FontSlot::Bold => ids.bold,
        FontSlot::Italic => ids.italic,
        FontSlot::BoldItalic => ids.bold_italic,
        FontSlot::Monospace => ids.monospace,
    }
}

pub open spec fn with_id(ids: FontIds, s: FontSlot, v: Option<u32>) -> FontIds {
    match s {
        FontSlot::Default => FontIds { default: v, ..ids },
        FontSlot::Bold => FontIds { bold: v, ..ids },
        FontSlot::Italic => FontIds { italic: v, ..ids },
        FontSlot::BoldItalic => FontIds { bold_italic: v, ..ids },
        FontSlot::Monospace => FontIds { monospace: v, ..ids },
    }
}

/// The slots are registered in this order.
pub open spec fn slot_after(s: FontSlot) -> FontSlot {
    match s {
        FontSlot::Default => FontSlot::Bold,
        FontSlot::Bold => FontSlot::Italic,
        FontSlot::Italic => FontSlot::BoldItalic,
        _ => FontSlot::Monospace,
    }
}

/// The first step for a slot: its user font if it has one, else its
/// embedded face; there is no embedded monospace face.
pub open spec fn slot_start(p: FontsProvided, s: FontSlot) -> FontStep {
    if provided_in(p, s) {
        FontStep::Register(s, FontSource::User)
    } else if s == FontSlot::Monospace {
        FontStep::Done
    } else {
        FontStep::Register(s, FontSource::Embedded)
    }
}

/// The registration after the host reports `outcome` for the awaited step.
pub open spec fn advance_spec(st: FontRegistrationView, outcome: Option<u32>) -> FontRegistrationView {
    let p = st.provided;
    let ids = st.ids;
    let (ids2, next) = match st.awaiting {
        FontStep::Register(FontSlot::Monospace, _) => (
            with_id(ids, FontSlot::Monospace, outcome),
            match outcome {
                Some(id) => FontStep::SetMonospaceFamily(id),
                None => FontStep::Done,
            },
        ),
        FontStep::Register(s, FontSource::User) => match outcome {
            Some(id) => (
                with_id(ids, s, Some(id)),
                if s == FontSlot::Default {
                    FontStep::SetDefaultFont(id)
                } else {
                    slot_start(p, slot_after(s))
                },
            ),
            None => (ids, FontStep::Register(s, FontSource::Embedded)),
        },
        FontStep::Register(s, FontSource::Embedded) => (
            with_id(ids, s, outcome),
            match outcome {
                Some(id) if s == FontSlot::Default => FontStep::SetDefaultFont(id),
                _ => slot_start(p, slot_after(s)),
            },
        ),
        FontStep::SetDefaultFont(_) => (ids, slot_start(p, FontSlot::Bold)),
        FontStep::SetMonospaceFamily(_) | FontStep::Done => (ids, FontStep::Done),
    };
    FontRegistrationView { provided: p, ids: ids2, awaiting: next }
}

/// The registration of a control's fonts.
pub struct FontRegistration {
    provided: FontsProvided,
    ids: FontIds,
    awaiting: FontStep,
}

impl View for FontRegistration {
    type V = FontRegistrationView;

    closed spec fn view(&self) -> FontRegistrationView {
        FontRegistrationView { provided: self.provided, ids: self.ids, awaiting: self.awaiting }
    }
}

fn slot_start_exec(p: FontsProvided, s: FontSlot) -> (r: FontStep)
    ensures r == slot_start(p, s),
{
    let provided = match s {
        FontSlot::Default => p.default,
        FontSlot::Bold => p.bold,
        FontSlot::Italic => p.italic,
        FontSlot::BoldItalic => p.bold_italic,
        FontSlot::Monospace => p.monospace,
    };
    if provided {
        FontStep::Register(s, FontSource::User)
    } else if s == FontSlot::Monospace {
        FontStep::Done
    } else {
        FontStep::Register(s, FontSource::Embedded)
    }
}

fn set_id(ids: &mut FontIds, s: FontSlot, v: Option<u32>)
    ensures *final(ids) == with_id(*old(ids), s, v),
{
    match s {
        FontSlot::Default => ids.default = v,
        FontSlot::Bold => ids.bold = v,
        FontSlot::Italic => ids.italic = v,
        FontSlot::BoldItalic => ids.bold_italic = v,
        FontSlot::Monospace => ids.monospace = v,
    }
}

fn slot_after_exec(s: FontSlot) -> (r: FontSlot)
    ensures r == slot_after(s),
{
    match s {
        FontSlot::Default => FontSlot::Bold,
        FontSlot::Bold => FontSlot::Italic,
        FontSlot::Italic => FontSlot::BoldItalic,
        _ => FontSlot::Monospace,
    }
}

impl FontRegistration {
    /// Starts registering the fonts of a control whose user fonts are
    /// `provided`; the result holds the first step.
    pub fn start(provided: FontsProvided) -> (r: (Self, FontStep))
        ensures
            r.0@.provided == provided,
            r.0@.ids == (FontIds { default: None, bold: None, italic: None, bold_italic: None, monospace: None }),
            r.0@.awaiting == slot_start(provided, FontSlot::Default),
            r.1 == r.0@.awaiting,
    {
        let first = slot_start_exec(provided, FontSlot::Default);
        let reg = FontRegistration {
            provided,
            ids: FontIds { default: None, bold: None, italic: None, bold_italic: None, monospace: None },
            awaiting: first,
        };
        (reg, first)
    }

    /// Takes the outcome of the awaited step (the registered face id for a
    /// `Register` step; ignored for the others) and returns the next step.
    pub fn advance(&mut self, outcome: Option<u32>) -> (r: FontStep)
        ensures
            final(self)@ == advance_spec(old(self)@, outcome),
            r == final(self)@.awaiting,
    {
        let p = self.provided;
        let next = match self.awaiting {
            FontStep::Register(FontSlot::Monospace, _) => {
                set_id(&mut self.ids, FontSlot::Monospace, outcome);
                match outcome {
                    Some(id) => FontStep::SetMonospaceFamily(id),
                    None => FontStep::Done,
                }
            },
            FontStep::Register(s, FontSource::User) => {
                match outcome {
                    Some(id) => {
                        set_id(&mut self.ids, s, Some(id));
                        if s == FontSlot::Default {
                            FontStep::SetDefaultFont(id)
                        } else {
                            slot_start_exec(p, slot_after_exec(s))
                        }
                    },
                    None => FontStep::Register(s, FontSource::Embedded),
                }
            },
            FontStep::Register(s, FontSource::Embedded) => {
                set_id(&mut self.ids, s, outcome);
                match outcome {
                    Some(id) => {
                        if s == FontSlot::Default {
                            FontStep::SetDefaultFont(id)
                        } else {
                            slot_start_exec(p, slot_after_exec(s))
                        }
                    },
                    None => slot_start_exec(p, slot_after_exec(s)),
                }
            },
            FontStep::SetDefaultFont(_) => slot_start_exec(p, FontSlot::Bold),
            FontStep::SetMonospaceFamily(_) | FontStep::Done => FontStep::Done,
        };
        self.awaiting = next;
        next
    }

    /// The face ids registered so far.
    pub fn ids(&self) -> (r: FontIds)
        ensures r == self@.ids,
    {
        self.ids
    }
}

/// A user font that registers is the slot's face, and the embedded face is
/// then not registered for the slot.
pub proof fn law_user_font_wins(st: FontRegistrationView, s: FontSlot, id: u32)
    requires
        st.awaiting == FontStep::Register(s, FontSource::User),
    ensures
        id_in(advance_spec(st, Some(id)).ids, s) == Some(id),
        advance_spec(st, Some(id)).awaiting != FontStep::Register(s, FontSource::Embedded),
{
}

/// A slot whose user font is missing or unusable falls back to the
/// embedded face, except the monospace slot, which has none.
pub proof fn law_embedded_fallback(st: FontRegistrationView, s: FontSlot)
    requires
        st.awaiting == FontStep::Register(s, FontSource::User),
        s != FontSlot::Monospace,
    ensures
        advance_spec(st, None).awaiting == FontStep::Register(s, FontSource::Embedded),
        advance_spec(st, None).ids == st.ids,
{
}

/// The monospace slot never falls back to an embedded face.
pub proof fn law_no_embedded_monospace(st: FontRegistrationView, outcome: Option<u32>)
    requires
        st.awaiting != FontStep::Register(FontSlot::Monospace, FontSource::Embedded),
    ensures
        advance_spec(st, outcome).awaiting != FontStep::Register(FontSlot::Monospace, FontSource::Embedded),
{
}

/// A registered default face becomes the default font before any other
/// slot is registered.
pub proof fn law_default_face_is_set(st: FontRegistrationView, src: FontSource, id: u32)
    requires
        st.awaiting == FontStep::Register(FontSlot::Default, src),
    ensures
        advance_spec(st, Some(id)).awaiting == FontStep::SetDefaultFont(id),
        advance_spec(st, Some(id)).ids.default == Some(id),
{
}

/// The number of steps left at most: every step brings registration
/// closer to its end.
pub open spec fn steps_left(st: FontRegistrationView) -> nat {
    match st.awaiting {
        FontStep::Register(FontSlot::Default, FontSource::User) => 14,
        FontStep::Register(FontSlot::Default, FontSource::Embedded) => 13,
        FontStep::SetDefaultFont(_) => 12,
        FontStep::Register(FontSlot::Bold, FontSource::User) => 11,
        FontStep::Register(FontSlot::Bold, FontSource::Embedded) => 10,
        FontStep::Register(FontSlot::Italic, FontSource::User) => 8,
        FontStep::Register(FontSlot::Italic, FontSource::Embedded) => 7,
        FontStep::Register(FontSlot::BoldItalic, FontSource::User) => 5,
        FontStep::Register(FontSlot::BoldItalic, FontSource::Embedded) => 4,
        FontStep::Register(FontSlot::Monospace, _) => 2,
        FontStep::SetMonospaceFamily(_) => 1,
        FontStep::Done => 0,
    }
}

/// Registration always comes to an end: each step leaves fewer to go.
pub proof fn law_registration_terminates(st: FontRegistrationView, outcome: Option<u32>)
    requires
        st.awaiting != FontStep::Done,
    ensures
        steps_left(advance_spec(st, outcome)) < steps_left(st),
{
}

} // verus!
