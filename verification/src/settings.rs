//! Wrap modes and the default settings of the two controls.
use vstd::prelude::*;

verus! {

/// How long lines are laid out.
#[derive(Clone, Copy, Debug, PartialEq, Eq, Structural)]
pub enum WrapMode {
    /// Lines are not wrapped; the view scrolls sideways.
    NoWrap,
    /// Lines wrap at word boundaries to the view's width.
    Word,
}

impl WrapMode {
    /// Whether the layout width follows the view's width.
    pub fn wraps(&self) -> (r: bool)
        ensures r == (*self == WrapMode::Word),
    {
        match self {
            WrapMode::NoWrap => false,
            WrapMode::Word => true,
        }
    }

    /// Whether the view scrolls sideways (it has a horizontal scrollbar):
    /// only when lines are not wrapped.
    pub fn scrolls_horizontally(&self) -> (r: bool)
        ensures r == (*self == WrapMode::NoWrap),
    {
        !self.wraps()
    }
}

impl Default for WrapMode {
    fn default() -> (r: Self)
        ensures r == WrapMode::NoWrap,
    {
        WrapMode::NoWrap
    }
}

/// The editor's settings that are not colors or sizes in pixels.
#[derive(Clone, Copy, Debug, PartialEq, Eq, Structural)]
pub struct EditSettings {
    pub editable: bool,
    pub wrap_mode: WrapMode,
    pub default_font_size: i32,
    pub caret_blink: bool,
    pub scroll_active: bool,
}

impl Default for EditSettings {
    /// An editable editor without wrapping, 24-pixel text, a blinking
    /// caret and a scrollbar.
    fn default() -> (r: Self)
        ensures
            r == (EditSettings {
                editable: true,
                wrap_mode: WrapMode::NoWrap,
                default_font_size: 24,
                caret_blink: true,
                scroll_active: true,
            }),
    {
        EditSettings {
            editable: true,
            wrap_mode: WrapMode::NoWrap,
            default_font_size: 24,
            caret_blink: true,
            scroll_active: true,
        }
    }
}

/// The viewer's settings that are not colors or sizes in pixels.
#[derive(Clone, Copy, Debug, PartialEq, Eq, Structural)]
pub struct ViewSettings {
    pub wrap_mode: WrapMode,
    pub default_font_size: i32,
    pub scroll_active: bool,
    pub selectable: bool,
}

impl Default for ViewSettings {
    /// A viewer without wrapping, 24-pixel text, a scrollbar, and text
    /// that cannot be selected.
    fn default() -> (r: Self)
        ensures
            r == (ViewSettings {
                wrap_mode: WrapMode::NoWrap,
                default_font_size: 24,
                scroll_active: true,
                selectable: false,
            }),
    {
        ViewSettings { wrap_mode: WrapMode::NoWrap, default_font_size: 24, scroll_active: true, selectable: false }
    }
}

} // verus!
