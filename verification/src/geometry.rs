//! Quad geometry: from the glyphs that have a place in the atlas to the
//! vertices and triangles of one indexed draw call.
//!
//! Screen positions become normalized device coordinates, with the vertical
//! axis turned over: pixels count downwards from the top, device coordinates
//! upwards from the centre. Atlas positions become fractions of the atlas.

use vstd::prelude::*;
use crate::ratio::Ratio;

verus! {

/// The largest number of glyph placements one mesh is built from. Up to this
/// number every vertex index fits in `u32`.
pub const MAX_GLYPHS: usize = 0x1000_0000;

/// A rectangle in the atlas, in texels from its top left corner.
#[derive(Clone, Copy, Debug, PartialEq, Eq, Structural)]
pub struct AtlasRect {
    pub min_u: u32,
    pub min_v: u32,
    pub max_u: u32,
    pub max_v: u32,
}

/// A rectangle on the screen, in pixels from its top left corner.
#[derive(Clone, Copy, Debug, PartialEq, Eq, Structural)]
pub struct ScreenRect {
    pub min_x: i32,
    pub min_y: i32,
    pub max_x: i32,
    pub max_y: i32,
}

/// A glyph that has a place in the atlas: where its bitmap lies there, and
/// where it is to appear on the screen.
#[derive(Clone, Copy, Debug, PartialEq, Eq, Structural)]
pub struct CachedGlyph {
    pub atlas: AtlasRect,
    pub screen: ScreenRect,
}

/// A pair of coordinates.
#[derive(Clone, Copy, Debug, PartialEq, Eq, Structural)]
pub struct Vec2 {
    pub x: Ratio,
    pub y: Ratio,
}

/// A corner of a quad: its place in normalized device coordinates and the
/// point of the atlas that is shown there.
#[derive(Clone, Copy, Debug, PartialEq, Eq, Structural)]
pub struct Vertex {
    pub position: Vec2,
    pub tex_coords: Vec2,
}

/// The device coordinate of the pixel column `x` on a screen `width` pixels
/// wide, columns counted from the left edge: `(x / width - 1/2) * 2`.
pub open spec fn ndc_x(x: i32, width: u32) -> Ratio {
    Ratio { num: (2 * x - width) as i64, den: width as i64 }
}

/// The device coordinate of the pixel row `y` on a screen `height` pixels
/// high, rows counted from the top edge: `(1 - y / height - 1/2) * 2`.
pub open spec fn ndc_y(y: i32, height: u32) -> Ratio {
    Ratio { num: (height - 2 * y) as i64, den: height as i64 }
}

/// The texel offset `t` as a fraction of an atlas side.
pub open spec fn tex_coord(t: u32, side: u32) -> Ratio {
    Ratio { num: t as i64, den: side as i64 }
}

/// The four corners of a glyph's quad: bottom left, top left, top right,
/// bottom right, each with the matching corner of its atlas rectangle.
pub open spec fn quad_of(g: CachedGlyph, screen: (u32, u32), atlas: (u32, u32)) -> Seq<Vertex> {
    let left = ndc_x(g.screen.min_x, screen.0);
    let right = ndc_x(g.screen.max_x, screen.0);
    let top = ndc_y(g.screen.min_y, screen.1);
    let bottom = ndc_y(g.screen.max_y, screen.1);
    let min_u = tex_coord(g.atlas.min_u, atlas.0);
    let max_u = tex_coord(g.atlas.max_u, atlas.0);
    let min_v = tex_coord(g.atlas.min_v, atlas.1);
    let max_v = tex_coord(g.atlas.max_v, atlas.1);
    seq![
        Vertex { position: Vec2 { x: left, y: bottom }, tex_coords: Vec2 { x: min_u, y: max_v } },
        Vertex { position: Vec2 { x: left, y: top }, tex_coords: Vec2 { x: min_u, y: min_v } },
        Vertex { position: Vec2 { x: right, y: top }, tex_coords: Vec2 { x: max_u, y: min_v } },
        Vertex { position: Vec2 { x: right, y: bottom }, tex_coords: Vec2 { x: max_u, y: max_v } },
    ]
}

/// The glyphs among `placements` that have a place, in their order.
pub open spec fn packed_glyphs(placements: Seq<Option<CachedGlyph>>) -> Seq<CachedGlyph>
    decreases placements.len(),
{
    if placements.len() == 0 {
        Seq::empty()
    } else {
        let before = packed_glyphs(placements.drop_last());
        match placements.last() {
            Some(g) => before.push(g),
            None => before,
        }
    }
}

/// The quads of `glyphs`, one after the other.
pub open spec fn quads_of(glyphs: Seq<CachedGlyph>, screen: (u32, u32), atlas: (u32, u32)) -> Seq<
    Vertex,
>
    decreases glyphs.len(),
{
    if glyphs.len() == 0 {
        Seq::empty()
    } else {
        quads_of(glyphs.drop_last(), screen, atlas) + quad_of(glyphs.last(), screen, atlas)
    }
}

/// The two triangles of the quad whose first vertex has index `base`.
pub open spec fn quad_triangles(base: u32) -> Seq<[u32; 3]> {
    seq![
        [base, (base + 1) as u32, (base + 2) as u32],
        [base, (base + 2) as u32, (base + 3) as u32],
    ]
}

/// The triangles of `count` quads that lie one after the other.
pub open spec fn triangles_of(count: nat) -> Seq<[u32; 3]>
    decreases count,
{
    if count == 0 {
        Seq::empty()
    } else {
        triangles_of((count - 1) as nat) + quad_triangles((4 * (count - 1)) as u32)
    }
}

/// The device coordinate of the pixel column `x`.
fn to_ndc_x(x: i32, width: u32) -> (r: Ratio)
    ensures
        r == ndc_x(x, width),
{
    Ratio { num: 2 * (x as i64) - width as i64, den: width as i64 }
}

/// The device coordinate of the pixel row `y`.
fn to_ndc_y(y: i32, height: u32) -> (r: Ratio)
    ensures
        r == ndc_y(y, height),
{
    Ratio { num: height as i64 - 2 * (y as i64), den: height as i64 }
}

/// Builds the mesh of a text: four vertices and two triangles for each glyph
/// that has a place in the atlas, in the order of the text. A glyph without
/// a place takes up neither vertices nor indices.
pub fn build_geometry(
    placements: &Vec<Option<CachedGlyph>>,
    screen: (u32, u32),
    atlas: (u32, u32),
) -> (mesh: (Vec<Vertex>, Vec<[u32; 3]>))
    requires
        placements.len() <= MAX_GLYPHS,
    ensures
        mesh.0@ == quads_of(packed_glyphs(placements@), screen, atlas),
        mesh.1@ == triangles_of(packed_glyphs(placements@).len()),
        mesh.0@.len() == 4 * packed_glyphs(placements@).len(),
        mesh.1@.len() == 2 * packed_glyphs(placements@).len(),
        packed_glyphs(placements@).len() <= placements@.len(),
{
    let mut vertices: Vec<Vertex> = Vec::new();
    let mut indices: Vec<[u32; 3]> = Vec::new();
    let mut glyph_count: u32 = 0;
    let mut i: usize = 0;
    proof {
        assert(placements@.take(0) =~= Seq::<Option<CachedGlyph>>::empty());
    }
    while i < placements.len()
        invariant
            i <= placements.len() <= MAX_GLYPHS,
            glyph_count == packed_glyphs(placements@.take(i as int)).len(),
            glyph_count <= i,
            vertices@ == quads_of(packed_glyphs(placements@.take(i as int)), screen, atlas),
            indices@ == triangles_of(glyph_count as nat),
            vertices@.len() == 4 * glyph_count,
            indices@.len() == 2 * glyph_count,
        decreases placements.len() - i,
    {
        let placement = placements[i];
        proof {
            let next = placements@.take(i + 1);
            assert(next.drop_last() =~= placements@.take(i as int));
            assert(next.last() == placement);
        }
        match placement {
            Some(g) => {
                let left = to_ndc_x(g.screen.min_x, screen.0);
                let right = to_ndc_x(g.screen.max_x, screen.0);
                let top = to_ndc_y(g.screen.min_y, screen.1);
                let bottom = to_ndc_y(g.screen.max_y, screen.1);
                let min_u = Ratio { num: g.atlas.min_u as i64, den: atlas.0 as i64 };
                let max_u = Ratio { num: g.atlas.max_u as i64, den: atlas.0 as i64 };
                let min_v = Ratio { num: g.atlas.min_v as i64, den: atlas.1 as i64 };
                let max_v = Ratio { num: g.atlas.max_v as i64, den: atlas.1 as i64 };
                let ghost before = vertices@;
                let ghost packed_before = packed_glyphs(placements@.take(i as int));
                vertices.push(
                    Vertex {
                        position: Vec2 { x: left, y: bottom },
                        tex_coords: Vec2 { x: min_u, y: max_v },
                    },
                );
                vertices.push(
                    Vertex {
                        position: Vec2 { x: left, y: top },
                        tex_coords: Vec2 { x: min_u, y: min_v },
                    },
                );
                vertices.push(
                    Vertex {
                        position: Vec2 { x: right, y: top },
                        tex_coords: Vec2 { x: max_u, y: min_v },
                    },
                );
                vertices.push(
                    Vertex {
                        position: Vec2 { x: right, y: bottom },
                        tex_coords: Vec2 { x: max_u, y: max_v },
                    },
                );
                let base: u32 = 4 * glyph_count;
                let ghost triangles_before = indices@;
                indices.push([base, base + 1, base + 2]);
                indices.push([base, base + 2, base + 3]);
                glyph_count = glyph_count + 1;
                proof {
                    assert(packed_before.push(g).drop_last() =~= packed_before);
                    assert(vertices@ =~= before + quad_of(g, screen, atlas));
                    assert(indices@ =~= triangles_before + quad_triangles(base));
                }
            },
            None => {},
        }
        i += 1;
    }
    proof {
        assert(placements@.take(i as int) =~= placements@);
    }
    (vertices, indices)
}

/// The quad of the `k`-th glyph takes up the vertices from `4 * k` on.
pub proof fn quad_has_its_own_block(
    glyphs: Seq<CachedGlyph>,
    screen: (u32, u32),
    atlas: (u32, u32),
    k: int,
    corner: int,
)
    requires
        0 <= k < glyphs.len(),
        0 <= corner < 4,
    ensures
        quads_of(glyphs, screen, atlas).len() == 4 * glyphs.len(),
        quads_of(glyphs, screen, atlas)[4 * k + corner] == quad_of(glyphs[k], screen, atlas)[corner],
    decreases glyphs.len(),
{
    quads_length(glyphs, screen, atlas);
    quads_length(glyphs.drop_last(), screen, atlas);
    if k < glyphs.len() - 1 {
        quad_has_its_own_block(glyphs.drop_last(), screen, atlas, k, corner);
    }
}

/// A mesh has four vertices for each glyph.
pub proof fn quads_length(glyphs: Seq<CachedGlyph>, screen: (u32, u32), atlas: (u32, u32))
    ensures
        quads_of(glyphs, screen, atlas).len() == 4 * glyphs.len(),
    decreases glyphs.len(),
{
    if glyphs.len() > 0 {
        quads_length(glyphs.drop_last(), screen, atlas);
    }
}

/// The two triangles of the `k`-th of `count` quads are `4k, 4k+1, 4k+2` and
/// `4k, 4k+2, 4k+3`: they name vertices of that quad and of no other.
pub proof fn triangles_name_their_quad(count: nat, k: int)
    requires
        0 <= k < count <= MAX_GLYPHS,
    ensures
        triangles_of(count).len() == 2 * count,
        triangles_of(count)[2 * k]@ == seq![(4 * k) as u32, (4 * k + 1) as u32, (4 * k + 2) as u32],
        triangles_of(count)[2 * k + 1]@ == seq![
            (4 * k) as u32,
            (4 * k + 2) as u32,
            (4 * k + 3) as u32,
        ],
        forall|t: int, j: int|
            2 * k <= t < 2 * k + 2 && 0 <= j < 3 ==> 4 * k <= (#[trigger] triangles_of(
                count,
            )[t]@[j]) < 4 * k + 4,
    decreases count,
{
    triangles_length(count);
    triangles_length((count - 1) as nat);
    if k < count - 1 {
        triangles_name_their_quad((count - 1) as nat, k);
    } else {
        let last = quad_triangles((4 * (count - 1)) as u32);
        assert(triangles_of(count)[2 * k] == last[0]);
        assert(triangles_of(count)[2 * k + 1] == last[1]);
    }
}

/// A mesh has two triangles for each glyph.
pub proof fn triangles_length(count: nat)
    ensures
        triangles_of(count).len() == 2 * count,
    decreases count,
{
    if count > 0 {
        triangles_length((count - 1) as nat);
    }
}

impl CachedGlyph {
    /// The glyph lies within a screen and an atlas of the given sizes.
    pub open spec fn within(self, screen: (u32, u32), atlas: (u32, u32)) -> bool {
        &&& 0 <= self.screen.min_x <= screen.0
        &&& 0 <= self.screen.max_x <= screen.0
        &&& 0 <= self.screen.min_y <= screen.1
        &&& 0 <= self.screen.max_y <= screen.1
        &&& self.atlas.min_u <= atlas.0
        &&& self.atlas.max_u <= atlas.0
        &&& self.atlas.min_v <= atlas.1
        &&& self.atlas.max_v <= atlas.1
        &&& screen.0 > 0
        &&& screen.1 > 0
        &&& atlas.0 > 0
        &&& atlas.1 > 0
    }
}

/// The quad of a glyph that lies within the screen and the atlas has its
/// positions between minus one and one and its texture coordinates between
/// zero and one.
pub proof fn quad_stays_in_range(g: CachedGlyph, screen: (u32, u32), atlas: (u32, u32), corner: int)
    requires
        g.within(screen, atlas),
        0 <= corner < 4,
    ensures
        quad_of(g, screen, atlas)[corner].position.x.in_signed_unit_interval(),
        quad_of(g, screen, atlas)[corner].position.y.in_signed_unit_interval(),
        quad_of(g, screen, atlas)[corner].tex_coords.x.in_unit_interval(),
        quad_of(g, screen, atlas)[corner].tex_coords.y.in_unit_interval(),
{
}

} // verus!
