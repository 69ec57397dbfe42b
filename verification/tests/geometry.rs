use glyph_text::geometry::{build_geometry, AtlasRect, CachedGlyph, ScreenRect, Vec2, Vertex};
use glyph_text::ratio::Ratio;

fn glyph(u: u32, v: u32, x: i32, y: i32, w: u32, h: u32) -> CachedGlyph {
    CachedGlyph {
        atlas: AtlasRect { min_u: u, min_v: v, max_u: u + w, max_v: v + h },
        screen: ScreenRect { min_x: x, min_y: y, max_x: x + w as i32, max_y: y + h as i32 },
    }
}

fn vertex(px: i64, py: i64, tu: i64, tv: i64) -> Vertex {
    Vertex {
        position: Vec2 { x: Ratio { num: px, den: 800 }, y: Ratio { num: py, den: 600 } },
        tex_coords: Vec2 { x: Ratio { num: tu, den: 256 }, y: Ratio { num: tv, den: 512 } },
    }
}

#[test]
fn quad_corners_and_triangles() {
    let (vertices, indices) =
        build_geometry(&vec![Some(glyph(1, 2, 100, 30, 20, 40))], (800, 600), (256, 512));
    assert_eq!(
        vertices,
        vec![
            vertex(2 * 100 - 800, 600 - 2 * 70, 1, 42),
            vertex(2 * 100 - 800, 600 - 2 * 30, 1, 2),
            vertex(2 * 120 - 800, 600 - 2 * 30, 21, 2),
            vertex(2 * 120 - 800, 600 - 2 * 70, 21, 42),
        ]
    );
    assert_eq!(indices, vec![[0, 1, 2], [0, 2, 3]]);
}

#[test]
fn screen_corners_map_to_device_corners() {
    let full = CachedGlyph {
        atlas: AtlasRect { min_u: 0, min_v: 0, max_u: 256, max_v: 512 },
        screen: ScreenRect { min_x: 0, min_y: 0, max_x: 800, max_y: 600 },
    };
    let (vertices, _) = build_geometry(&vec![Some(full)], (800, 600), (256, 512));
    assert_eq!(vertices[0], vertex(-800, -600, 0, 512));
    assert_eq!(vertices[1], vertex(-800, 600, 0, 0));
    assert_eq!(vertices[2], vertex(800, 600, 256, 0));
    assert_eq!(vertices[3], vertex(800, -600, 256, 512));
}

#[test]
fn glyphs_without_a_place_take_no_slots() {
    let a = glyph(1, 1, 0, 0, 10, 10);
    let b = glyph(12, 1, 10, 0, 8, 10);
    let c = glyph(21, 1, 18, 0, 9, 10);
    let (vertices, indices) =
        build_geometry(&vec![None, Some(a), None, None, Some(b), Some(c), None], (800, 600), (256, 512));
    let (dense_vertices, dense_indices) =
        build_geometry(&vec![Some(a), Some(b), Some(c)], (800, 600), (256, 512));
    assert_eq!(vertices, dense_vertices);
    assert_eq!(indices, dense_indices);
    assert_eq!(vertices.len(), 12);
    assert_eq!(indices, vec![[0, 1, 2], [0, 2, 3], [4, 5, 6], [4, 6, 7], [8, 9, 10], [8, 10, 11]]);
    assert_eq!(vertices[4], vertex(2 * 10 - 800, 600 - 2 * 10, 12, 11));
}

#[test]
fn no_placements_no_mesh() {
    let (vertices, indices) = build_geometry(&vec![], (800, 600), (0, 0));
    assert!(vertices.is_empty());
    assert!(indices.is_empty());
    let (vertices, indices) = build_geometry(&vec![None, None], (800, 600), (0, 0));
    assert!(vertices.is_empty());
    assert!(indices.is_empty());
}

#[test]
fn negative_pixels_and_empty_screen() {
    let g = CachedGlyph {
        atlas: AtlasRect { min_u: 0, min_v: 0, max_u: u32::MAX, max_v: u32::MAX },
        screen: ScreenRect { min_x: i32::MIN, min_y: i32::MIN, max_x: i32::MAX, max_y: i32::MAX },
    };
    let (vertices, _) = build_geometry(&vec![Some(g)], (0, u32::MAX), (0, 0));
    assert_eq!(vertices[0].position.x, Ratio { num: 2 * (i32::MIN as i64), den: 0 });
    assert_eq!(
        vertices[0].position.y,
        Ratio { num: u32::MAX as i64 - 2 * (i32::MAX as i64), den: u32::MAX as i64 }
    );
    assert_eq!(vertices[2].tex_coords.x, Ratio { num: u32::MAX as i64, den: 0 });
}
