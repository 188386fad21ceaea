//! Painting decisions for a rendered frame, and the cache of inline image
//! textures.
use vstd::prelude::*;
use vstd::hash_map::StringHashMap;

verus! {

/// The kind of a decoration rectangle of a rendered frame.
#[derive(Clone, Copy, Debug, PartialEq, Eq, Structural)]
pub enum DecorationKind {
    Selection,
    Cursor,
    Underline,
    Strikeout,
    Overline,
    Background,
    BlockBackground,
    TableBorder,
    TableCellBackground,
    TextBackground,
    CellSelection,
}

/// How a decoration is painted behind the text.
#[derive(Clone, Copy, Debug, PartialEq, Eq, Structural)]
pub enum BackgroundPaint {
    /// A filled rectangle.
    Filled,
    /// The rectangle's outline.
    Outline,
}

/// How a decoration is painted over the text.
#[derive(Clone, Copy, Debug, PartialEq, Eq, Structural)]
pub enum ForegroundPaint {
    /// A filled rectangle.
    Filled,
    /// A horizontal line along the rectangle's top edge.
    TopLine,
    /// A horizontal line along the rectangle's bottom edge.
    BottomLine,
    /// A horizontal line through the rectangle's middle.
    MiddleLine,
}

/// Selections, backgrounds and table borders go behind the text; table
/// borders are outlined, the others filled.
pub open spec fn background_paint_spec(kind: DecorationKind) -> Option<BackgroundPaint> {
    match kind {
        DecorationKind::Selection | DecorationKind::CellSelection | DecorationKind::Background
        | DecorationKind::BlockBackground | DecorationKind::TableCellBackground => Some(BackgroundPaint::Filled),
        DecorationKind::TableBorder => Some(BackgroundPaint::Outline),
        _ => None,
    }
}

/// The caret and the text lines go over the text: underlines at the
/// bottom, overlines at the top, strike-outs through the middle.
pub open spec fn foreground_paint_spec(kind: DecorationKind) -> Option<ForegroundPaint> {
    match kind {
        DecorationKind::Cursor => Some(ForegroundPaint::Filled),
        DecorationKind::Underline => Some(ForegroundPaint::BottomLine),
        DecorationKind::Overline => Some(ForegroundPaint::TopLine),
        DecorationKind::Strikeout => Some(ForegroundPaint::MiddleLine),
        _ => None,
    }
}

/// How a decoration is painted in the pass behind the text, if at all.
pub fn background_paint(kind: DecorationKind) -> (r: Option<BackgroundPaint>)
    ensures r == background_paint_spec(kind),
{
    match kind {
        DecorationKind::Selection | DecorationKind::CellSelection | DecorationKind::Background
        | DecorationKind::BlockBackground | DecorationKind::TableCellBackground => Some(BackgroundPaint::Filled),
        DecorationKind::TableBorder => Some(BackgroundPaint::Outline),
        _ => None,
    }
}

/// How a decoration is painted in the pass over the text, if at all.
pub fn foreground_paint(kind: DecorationKind) -> (r: Option<ForegroundPaint>)
    ensures r == foreground_paint_spec(kind),
{
    match kind {
        DecorationKind::Cursor => Some(ForegroundPaint::Filled),
        DecorationKind::Underline => Some(ForegroundPaint::BottomLine),
        DecorationKind::Overline => Some(ForegroundPaint::TopLine),
        DecorationKind::Strikeout => Some(ForegroundPaint::MiddleLine),
        _ => None,
    }
}

/// No decoration is painted twice: selections lie behind the text and the
/// caret and underlines over it.
pub proof fn law_each_decoration_painted_once(kind: DecorationKind)
    ensures
        !(background_paint_spec(kind) is Some && foreground_paint_spec(kind) is Some),
        background_paint_spec(DecorationKind::Selection) is Some,
        foreground_paint_spec(DecorationKind::Cursor) is Some,
{
}

/// Whether the glyph atlas must be uploaded to its texture: only when it
/// changed and has pixels.
pub fn atlas_upload_needed(dirty: bool, width: u32, height: u32) -> (r: bool)
    ensures r == (dirty && width != 0 && height != 0),
{
    !(!dirty || width == 0 || height == 0)
}

/// Which part of a frame is rendered.
#[derive(Clone, Copy, Debug, PartialEq, Eq, Structural)]
pub enum RenderPass {
    /// Only the block with this id, the only one laid out again.
    BlockOnly(usize),
    /// The whole frame.
    Full,
    /// Only the caret and selection, over the frame rendered before.
    CursorOnly,
}

/// A frame whose content changed is rendered whole, or only its block when
/// a single block was laid out again; else only the caret is redrawn.
pub open spec fn render_pass_spec(content_dirty: bool, incremental_block: Option<usize>) -> RenderPass {
    if content_dirty {
        match incremental_block {
            Some(id) => RenderPass::BlockOnly(id),
            None => RenderPass::Full,
        }
    } else {
        RenderPass::CursorOnly
    }
}

/// Decides which part of a frame is rendered.
pub fn render_pass(content_dirty: bool, incremental_block: Option<usize>) -> (r: RenderPass)
    ensures r == render_pass_spec(content_dirty, incremental_block),
{
    if content_dirty {
        match incremental_block {
            Some(id) => RenderPass::BlockOnly(id),
            None => RenderPass::Full,
        }
    } else {
        RenderPass::CursorOnly
    }
}

/// Textures of inline images, by resource name.
#[verifier::reject_recursive_types(T)]
pub struct ImageCache<T> {
    textures: StringHashMap<T>,
}

impl<T> View for ImageCache<T> {
    type V = Map<Seq<char>, T>;

    closed spec fn view(&self) -> Map<Seq<char>, T> {
        self.textures@
    }
}

impl<T> ImageCache<T> {
    /// An empty cache.
    pub fn new() -> (r: Self)
        ensures r@ == Map::<Seq<char>, T>::empty(),
    {
        ImageCache { textures: StringHashMap::new() }
    }

    /// The texture cached for `name`, if any.
    pub fn get(&self, name: &str) -> (r: Option<&T>)
        ensures
            match r {
                Some(t) => self@.contains_key(name@) && *t == self@[name@],
                None => !self@.contains_key(name@),
            },
    {
        self.textures.get(name)
    }

    /// Whether a texture is cached for `name`.
    pub fn contains(&self, name: &str) -> (r: bool)
        ensures r == self@.contains_key(name@),
    {
        self.textures.contains_key(name)
    }

    /// The texture for `name`: the cached one, or else the one that `load`
    /// makes for the name, which is then cached. `load` is not called when
    /// the texture is cached; when it gives nothing, nothing is cached.
    pub fn get_or_load<F: FnOnce(&str) -> Option<T>>(&mut self, name: &str, load: F) -> (r: Option<&T>)
        requires
            load.requires((name,)),
        ensures
            old(self)@.contains_key(name@) ==> final(self)@ == old(self)@,
            !old(self)@.contains_key(name@) ==> exists|made: Option<T>| {
                &&& load.ensures((name,), made)
                &&& final(self)@ == match made {
                    Some(t) => old(self)@.insert(name@, t),
                    None => old(self)@,
                }
            },
            match r {
                Some(t) => final(self)@.contains_key(name@) && *t == final(self)@[name@],
                None => !final(self)@.contains_key(name@),
            },
    {
        if !self.textures.contains_key(name) {
            let made = load(name);
            match made {
                Some(t) => {
                    self.textures.insert(name.to_owned(), t);
                },
                None => {
                    return None;
                },
            }
        }
        self.textures.get(name)
    }

    /// Empties the cache (the document's images are replaced).
    pub fn clear(&mut self)
        ensures final(self)@ == Map::<Seq<char>, T>::empty(),
    {
        self.textures.clear();
    }
}

impl<T> Default for ImageCache<T> {
    fn default() -> (r: Self)
        ensures r@ == Map::<Seq<char>, T>::empty(),
    {
        Self::new()
    }
}

} // verus!
