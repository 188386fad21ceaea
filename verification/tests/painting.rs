use godot_rich_text::render::{
    atlas_upload_needed, background_paint, foreground_paint, render_pass, BackgroundPaint, DecorationKind,
    ForegroundPaint, ImageCache, RenderPass,
};

const KINDS: [DecorationKind; 11] = [
    DecorationKind::Selection,
    DecorationKind::Cursor,
    DecorationKind::Underline,
    DecorationKind::Strikeout,
    DecorationKind::Overline,
    DecorationKind::Background,
    DecorationKind::BlockBackground,
    DecorationKind::TableBorder,
    DecorationKind::TableCellBackground,
    DecorationKind::TextBackground,
    DecorationKind::CellSelection,
];

#[test]
fn decorations_behind_the_text() {
    assert_eq!(background_paint(DecorationKind::Selection), Some(BackgroundPaint::Filled));
    assert_eq!(background_paint(DecorationKind::CellSelection), Some(BackgroundPaint::Filled));
    assert_eq!(background_paint(DecorationKind::TableBorder), Some(BackgroundPaint::Outline));
    assert_eq!(background_paint(DecorationKind::TableCellBackground), Some(BackgroundPaint::Filled));
    assert_eq!(background_paint(DecorationKind::Cursor), None);
    assert_eq!(background_paint(DecorationKind::TextBackground), None);
}

#[test]
fn decorations_over_the_text() {
    assert_eq!(foreground_paint(DecorationKind::Cursor), Some(ForegroundPaint::Filled));
    assert_eq!(foreground_paint(DecorationKind::Underline), Some(ForegroundPaint::BottomLine));
    assert_eq!(foreground_paint(DecorationKind::Overline), Some(ForegroundPaint::TopLine));
    assert_eq!(foreground_paint(DecorationKind::Strikeout), Some(ForegroundPaint::MiddleLine));
    assert_eq!(foreground_paint(DecorationKind::Selection), None);
}

#[test]
fn each_decoration_painted_at_most_once() {
    for kind in KINDS {
        assert!(!(background_paint(kind).is_some() && foreground_paint(kind).is_some()));
    }
}

#[test]
fn atlas_uploads_only_when_dirty_and_sized() {
    assert!(atlas_upload_needed(true, 256, 256));
    assert!(!atlas_upload_needed(false, 256, 256));
    assert!(!atlas_upload_needed(true, 0, 256));
    assert!(!atlas_upload_needed(true, 256, 0));
}

#[test]
fn image_cache_loads_once() {
    let mut cache: ImageCache<u32> = ImageCache::new();
    assert!(!cache.contains("logo.png"));
    assert_eq!(cache.get_or_load("logo.png", |name| Some(name.len() as u32)), Some(&8));
    assert!(cache.contains("logo.png"));
    assert_eq!(cache.get("logo.png"), Some(&8));
    // A cached texture is not loaded again.
    assert_eq!(cache.get_or_load("logo.png", |_| panic!("loaded twice")), Some(&8));
}

#[test]
fn image_cache_keeps_nothing_for_failed_loads() {
    let mut cache: ImageCache<u32> = ImageCache::default();
    assert_eq!(cache.get_or_load("missing.png", |_| None), None);
    assert!(!cache.contains("missing.png"));
    assert_eq!(cache.get("missing.png"), None);
}

#[test]
fn image_cache_clears() {
    let mut cache: ImageCache<u32> = ImageCache::new();
    cache.get_or_load("a", |_| Some(1));
    cache.get_or_load("b", |_| Some(2));
    assert_eq!(cache.get("b"), Some(&2));
    cache.clear();
    assert!(!cache.contains("a") && !cache.contains("b"));
}

#[test]
fn render_pass_by_change() {
    assert_eq!(render_pass(true, Some(4)), RenderPass::BlockOnly(4));
    assert_eq!(render_pass(true, None), RenderPass::Full);
    assert_eq!(render_pass(false, Some(4)), RenderPass::CursorOnly);
}
