use std::cell::Cell;

use glyph_text::atlas::{CacheConfig, PackOutcome};
use glyph_text::error::RenderError;
use glyph_text::geometry::{AtlasRect, CachedGlyph, ScreenRect};
use glyph_text::layout::{FontMetrics, GlyphMetrics, GlyphRequest, VMetrics};
use glyph_text::text::{place_glyphs, GlGlyphRenderer, TEXT_SCALE};

fn font() -> FontMetrics {
    FontMetrics {
        font_key: 0,
        v_metrics: VMetrics { ascent: 50, descent: -14, line_gap: 6 },
        glyphs: vec![
            GlyphMetrics { code_point: 'a', glyph_id: 1, advance_width: 30 },
            GlyphMetrics { code_point: 'b', glyph_id: 2, advance_width: 32 },
            GlyphMetrics { code_point: ' ', glyph_id: 3, advance_width: 16 },
        ],
        kerning: vec![],
    }
}

/// A packer's answer: every glyph but the space has a place, 20 by 40, in
/// the row of the atlas that its glyph id names.
fn place(g: GlyphRequest) -> Option<CachedGlyph> {
    if g.code_point == ' ' {
        return None;
    }
    Some(CachedGlyph {
        atlas: AtlasRect { min_u: 1, min_v: 50 * g.glyph_id, max_u: 21, max_v: 50 * g.glyph_id + 40 },
        screen: ScreenRect {
            min_x: g.x as i32,
            min_y: g.y as i32 - 40,
            max_x: g.x as i32 + 20,
            max_y: g.y as i32,
        },
    })
}

fn packs(_: Option<CacheConfig>, _: &Vec<GlyphRequest>) -> PackOutcome {
    PackOutcome::Packed
}

#[test]
fn new_renderer_is_empty() {
    let r = GlGlyphRenderer::new(800, 600);
    assert_eq!(r.size(), (800, 600));
    assert_eq!(r.cache().dimensions(), (0, 0));
    assert!(r.vertices().is_empty());
    assert!(r.indices().is_empty());
    assert_eq!(r.draw(), 0);
}

#[test]
fn empty_text_draws_nothing() {
    let mut r = GlGlyphRenderer::new(800, 600);
    let queued = Cell::new(usize::MAX);
    let result = r.set_text(
        &font(),
        "",
        |_, queue| {
            queued.set(queue.len());
            PackOutcome::Packed
        },
        place,
    );
    assert_eq!(result, Ok(()));
    assert_eq!(queued.get(), 0);
    assert!(r.vertices().is_empty());
    assert!(r.indices().is_empty());
    assert_eq!(r.draw(), 0);
    assert_eq!(r.cache().dimensions(), (0, 0));
}

#[test]
fn text_is_laid_out_at_the_text_scale() {
    let mut r = GlGlyphRenderer::new(800, 600);
    let mut queued: Vec<GlyphRequest> = Vec::new();
    let result = r.set_text(
        &font(),
        "ab",
        |_, queue| {
            queued = queue.clone();
            PackOutcome::Packed
        },
        place,
    );
    assert_eq!(result, Ok(()));
    assert_eq!(TEXT_SCALE, 64);
    assert_eq!(queued.len(), 2);
    assert_eq!((queued[0].scale, queued[0].x, queued[0].y), (64, 0, 50));
    assert_eq!((queued[1].scale, queued[1].x, queued[1].y), (64, 30, 50));
}

#[test]
fn set_text_builds_the_mesh_of_the_placed_glyphs() {
    let mut r = GlGlyphRenderer::new(800, 600);
    let mut side = 0;
    let result = r.set_text(
        &font(),
        "ab a\nb",
        |resize, _| {
            if let Some(c) = resize {
                side = c.width;
            }
            if side >= 512 {
                PackOutcome::Packed
            } else {
                PackOutcome::Overflow
            }
        },
        place,
    );
    assert_eq!(result, Ok(()));
    assert_eq!(r.cache().dimensions(), (512, 512));
    assert_eq!(r.vertices().len(), 16);
    assert_eq!(r.indices().len(), 8);
    assert_eq!(r.draw(), 24);
    assert_eq!(r.indices()[7], [12, 14, 15]);
    // the second glyph, `b`, at x = 30 on the first baseline
    let v = r.vertices()[4];
    assert_eq!((v.position.x.num, v.position.x.den), (2 * 30 - 800, 800));
    assert_eq!((v.position.y.num, v.position.y.den), (600 - 2 * 50, 600));
    assert_eq!((v.tex_coords.x.num, v.tex_coords.x.den), (1, 512));
    assert_eq!((v.tex_coords.y.num, v.tex_coords.y.den), (140, 512));
    // the last glyph, `b`, at the start of the second line
    let v = r.vertices()[13];
    assert_eq!((v.position.x.num, v.position.y.num), (-800, 600 - 2 * (50 + 70 - 40)));
}

#[test]
fn new_text_replaces_the_old_one() {
    let mut r = GlGlyphRenderer::new(800, 600);
    assert_eq!(r.set_text(&font(), "abab", packs, place), Ok(()));
    assert_eq!(r.draw(), 24);
    assert_eq!(r.set_text(&font(), "b", packs, place), Ok(()));
    assert_eq!(r.vertices().len(), 4);
    assert_eq!(r.indices(), &vec![[0, 1, 2], [0, 2, 3]]);
    assert_eq!(r.draw(), 6);
    assert_eq!(r.set_text(&font(), " \n ", packs, place), Ok(()));
    assert_eq!(r.draw(), 0);
}

#[test]
fn setting_the_same_text_twice_changes_nothing() {
    let mut r = GlGlyphRenderer::new(640, 480);
    assert_eq!(r.set_text(&font(), "ab ba", packs, place), Ok(()));
    let vertices = r.vertices().clone();
    let indices = r.indices().clone();
    assert_eq!(vertices.len(), 16);
    assert_eq!(r.set_text(&font(), "ab ba", packs, place), Ok(()));
    assert_eq!(r.vertices(), &vertices);
    assert_eq!(r.indices(), &indices);
}

#[test]
fn exhausted_atlas_is_reported_and_the_placed_glyphs_are_drawn() {
    let mut r = GlGlyphRenderer::new(640, 480);
    let mut attempts = 0;
    let result = r.set_text(
        &font(),
        "abb",
        |_, _| {
            attempts += 1;
            PackOutcome::Overflow
        },
        |g| if g.code_point == 'a' { place(g) } else { None },
    );
    assert_eq!(result, Err(RenderError::CacheExhaustedError));
    assert_eq!(attempts, 5);
    assert_eq!(r.cache().dimensions(), (2048, 2048));
    assert_eq!(r.vertices().len(), 4);
    assert_eq!(r.indices(), &vec![[0, 1, 2], [0, 2, 3]]);
    assert_eq!(r.vertices()[3].tex_coords.y.den, 2048);
    assert_eq!(r.draw(), 6);
}

#[test]
fn mesh_follows_the_atlas_as_it_grows() {
    let mut r = GlGlyphRenderer::new(640, 480);
    assert_eq!(r.set_text(&font(), "a", packs, place), Ok(()));
    assert_eq!(r.vertices()[0].tex_coords.x.den, 0);
    let mut first = true;
    let result = r.set_text(
        &font(),
        "a",
        |_, _| {
            if first {
                first = false;
                PackOutcome::Overflow
            } else {
                PackOutcome::Packed
            }
        },
        place,
    );
    assert_eq!(result, Ok(()));
    assert_eq!(r.cache().dimensions(), (256, 256));
    assert_eq!(r.vertices()[0].tex_coords.x.den, 256);
    assert_eq!(r.vertices()[0].tex_coords.y.den, 256);
}

#[test]
fn places_are_asked_in_the_order_of_the_text() {
    let glyphs = vec![
        GlyphRequest { font_key: 0, code_point: 'b', glyph_id: 2, scale: 64, x: 0, y: 50 },
        GlyphRequest { font_key: 0, code_point: ' ', glyph_id: 3, scale: 64, x: 32, y: 50 },
        GlyphRequest { font_key: 0, code_point: 'a', glyph_id: 1, scale: 64, x: 48, y: 50 },
    ];
    let placements = place_glyphs(&glyphs, place);
    assert_eq!(placements, vec![place(glyphs[0]), None, place(glyphs[2])]);
    assert_eq!(place_glyphs(&vec![], place), vec![]);
}
