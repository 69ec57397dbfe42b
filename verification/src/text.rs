//! The text renderer: the atlas, the size of the screen, and the mesh of the
//! text that was set last.

use vstd::prelude::*;
use crate::atlas::{packing_ended, valid_dims, CacheConfig, GlGlyphCache, PackOutcome};
use crate::error::RenderError;
use crate::geometry::{
    build_geometry, packed_glyphs, quads_of, triangles_of, CachedGlyph, Vertex, MAX_GLYPHS,
};
use crate::layout::{
    layout_length, layout_paragraph, nfc_form, FontMetrics, GlyphRequest, MAX_TEXT_LEN,
};

verus! {

/// The scale at which text is set.
pub const TEXT_SCALE: u32 = 64;

/// A text renderer as contracts see it.
pub struct RendererView {
    /// Width and height of the screen in pixels.
    pub size: (u32, u32),
    /// Width and height of the atlas in texels.
    pub atlas: (u32, u32),
    pub vertices: Seq<Vertex>,
    pub indices: Seq<[u32; 3]>,
}

impl RendererView {
    /// The renderer once a text is set whose glyphs have the places
    /// `placements` in an atlas of size `atlas`: its mesh is that of the
    /// text, whatever it was before.
    pub open spec fn with_text(
        self,
        atlas: (u32, u32),
        placements: Seq<Option<CachedGlyph>>,
    ) -> RendererView {
        RendererView {
            size: self.size,
            atlas,
            vertices: quads_of(packed_glyphs(placements), self.size, atlas),
            indices: triangles_of(packed_glyphs(placements).len()),
        }
    }

    /// The mesh is whole, and every texture coordinate in it is a fraction
    /// of the atlas as it is now.
    pub open spec fn wf(self) -> bool {
        &&& valid_dims(self.atlas)
        &&& self.indices.len() <= 2 * MAX_GLYPHS
        &&& self.vertices.len() == 2 * self.indices.len()
        &&& forall|i: int|
            0 <= i < self.vertices.len() ==> (#[trigger] self.vertices[i]).tex_coords.x.den
                == self.atlas.0 && self.vertices[i].tex_coords.y.den == self.atlas.1
    }
}

/// Whether `placements` are what `lookup` gave for `glyphs`, one by one.
pub open spec fn placed_by<L: Fn(GlyphRequest) -> Option<CachedGlyph>>(
    lookup: L,
    glyphs: Seq<GlyphRequest>,
    placements: Seq<Option<CachedGlyph>>,
) -> bool {
    &&& placements.len() == glyphs.len()
    &&& forall|i: int|
        0 <= i < glyphs.len() ==> call_ensures(lookup, (glyphs[i],), #[trigger] placements[i])
}

/// Asks `lookup` for the place of each glyph, in the order of the text.
pub fn place_glyphs<L: Fn(GlyphRequest) -> Option<CachedGlyph>>(
    glyphs: &Vec<GlyphRequest>,
    lookup: L,
) -> (placements: Vec<Option<CachedGlyph>>)
    requires
        forall|g: GlyphRequest| call_requires(lookup, (g,)),
    ensures
        placed_by(lookup, glyphs@, placements@),
{
    let mut placements: Vec<Option<CachedGlyph>> = Vec::new();
    let mut i: usize = 0;
    while i < glyphs.len()
        invariant
            i <= glyphs.len(),
            forall|g: GlyphRequest| call_requires(lookup, (g,)),
            placed_by(lookup, glyphs@.take(i as int), placements@),
        decreases glyphs.len() - i,
    {
        let placement = lookup(glyphs[i]);
        placements.push(placement);
        i += 1;
    }
    proof {
        assert(glyphs@.take(i as int) =~= glyphs@);
    }
    placements
}

/// Draws one text at a time: holds the atlas and the mesh of the text, which
/// each new text replaces as a whole.
pub struct GlGlyphRenderer {
    cache: GlGlyphCache,
    size: (u32, u32),
    vertices: Vec<Vertex>,
    indices: Vec<[u32; 3]>,
}

impl View for GlGlyphRenderer {
    type V = RendererView;

    closed spec fn view(&self) -> RendererView {
        RendererView {
            size: self.size,
            atlas: self.cache.dims(),
            vertices: self.vertices@,
            indices: self.indices@,
        }
    }
}

impl GlGlyphRenderer {
    #[verifier::type_invariant]
    spec fn inv(&self) -> bool {
        self@.wf()
    }

    /// A renderer for a screen of the given size in pixels, with an atlas
    /// without storage and no text.
    pub fn new(screen_width: u32, screen_height: u32) -> (r: GlGlyphRenderer)
        ensures
            r@ == (RendererView {
                size: (screen_width, screen_height),
                atlas: (0u32, 0u32),
                vertices: Seq::empty(),
                indices: Seq::empty(),
            }),
            r@.wf(),
    {
        GlGlyphRenderer {
            cache: GlGlyphCache::new(),
            size: (screen_width, screen_height),
            vertices: Vec::new(),
            indices: Vec::new(),
        }
    }

    /// Sets a text: lays it out at `TEXT_SCALE` with the metrics `font`,
    /// brings its glyphs into the atlas, asks for the place of each and
    /// builds the mesh of those that have one. The mesh of the text before
    /// is dropped.
    ///
    /// `pack` queues and packs the glyphs it is handed, as `cache_glyphs` of
    /// the atlas asks; `lookup` says where a glyph lies in the atlas and on
    /// the screen, or that it has no place. An atlas that is exhausted is
    /// reported, and the text is set all the same, without the glyphs that
    /// have no place. A text that is too long is reported and not set.
    pub fn set_text<P, L>(&mut self, font: &FontMetrics, text: &str, pack: P, lookup: L) -> (r:
        Result<(), RenderError>) where
        P: FnMut(Option<CacheConfig>, &Vec<GlyphRequest>) -> PackOutcome,
        L: Fn(GlyphRequest) -> Option<CachedGlyph>,

        requires
            forall|resize: Option<CacheConfig>, queue: &Vec<GlyphRequest>|
                call_requires(pack, (resize, queue)),
            forall|g: GlyphRequest| call_requires(lookup, (g,)),
        ensures
            final(self)@.wf(),
            nfc_form(text@).len() > MAX_TEXT_LEN ==> r == Err::<(), RenderError>(
                RenderError::TextTooLongError,
            ) && final(self)@ == old(self)@,
            nfc_form(text@).len() <= MAX_TEXT_LEN ==> {
                let glyphs = font.layout_of(nfc_form(text@), TEXT_SCALE);
                let atlas = final(self)@.atlas;
                &&& exists|placements: Seq<Option<CachedGlyph>>|
                    placed_by(lookup, glyphs, placements) && final(self)@ == old(self)@.with_text(
                        atlas,
                        placements,
                    )
                &&& r is Err ==> r == Err::<(), RenderError>(RenderError::CacheExhaustedError)
                &&& exists|queue: &Vec<GlyphRequest>|
                    queue@ == glyphs && #[trigger] packing_ended(
                        pack,
                        old(self)@.atlas,
                        queue,
                        atlas,
                        r is Err,
                    )
            },
    {
        proof {
            use_type_invariant(&*self);
        }
        let glyphs = match layout_paragraph(font, text, TEXT_SCALE) {
            Some(glyphs) => glyphs,
            None => {
                return Err(RenderError::TextTooLongError);
            },
        };
        proof {
            layout_length(*font, nfc_form(text@), TEXT_SCALE);
        }
        let mut cache = self.cache;
        let packed = cache.cache_glyphs(&glyphs, pack);
        let placements = place_glyphs(&glyphs, lookup);
        let atlas = cache.dimensions();
        let (vertices, indices) = build_geometry(&placements, self.size, atlas);
        proof {
            quads_refer_to_atlas(packed_glyphs(placements@), self.size, atlas);
        }
        let ghost before = self@;
        *self = GlGlyphRenderer { cache, size: self.size, vertices, indices };
        proof {
            assert(self@ == before.with_text(atlas, placements@));
            assert(packing_ended(pack, before.atlas, &glyphs, atlas, packed is Err));
        }
        match packed {
            Ok(_) => Ok(()),
            Err(e) => Err(e),
        }
    }

    /// The atlas.
    pub fn cache(&self) -> (c: &GlGlyphCache)
        ensures
            c.dims() == self@.atlas,
    {
        &self.cache
    }

    /// The vertices of the text, four for each glyph.
    pub fn vertices(&self) -> (v: &Vec<Vertex>)
        ensures
            v@ == self@.vertices,
    {
        &self.vertices
    }

    /// The triangles of the text, two for each glyph.
    pub fn indices(&self) -> (t: &Vec<[u32; 3]>)
        ensures
            t@ == self@.indices,
    {
        &self.indices
    }

    /// Width and height of the screen in pixels.
    pub fn size(&self) -> (s: (u32, u32))
        ensures
            s == self@.size,
    {
        self.size
    }

    /// The number of indices that one draw call over the mesh takes: three
    /// for each triangle, none for an empty text.
    pub fn draw(&self) -> (count: u32)
        ensures
            count == 3 * self@.indices.len(),
    {
        proof {
            use_type_invariant(self);
        }
        let triangles: usize = self.indices.len();
        (triangles * 3) as u32
    }
}

/// Every texture coordinate of a mesh is a fraction of the atlas it was
/// built for.
pub proof fn quads_refer_to_atlas(glyphs: Seq<CachedGlyph>, screen: (u32, u32), atlas: (u32, u32))
    ensures
        quads_of(glyphs, screen, atlas).len() == 4 * glyphs.len(),
        forall|i: int|
            0 <= i < quads_of(glyphs, screen, atlas).len() ==> (#[trigger] quads_of(
                glyphs,
                screen,
                atlas,
            )[i]).tex_coords.x.den == atlas.0 && quads_of(glyphs, screen, atlas)[i].tex_coords.y.den
                == atlas.1,
    decreases glyphs.len(),
{
    if glyphs.len() > 0 {
        quads_refer_to_atlas(glyphs.drop_last(), screen, atlas);
    }
}

/// Setting the same text twice in a row, with the atlas unchanged in
/// between and the glyphs in the same places, gives the same renderer as
/// setting it once: the same vertices and the same triangles.
pub proof fn set_text_is_idempotent(
    r: RendererView,
    atlas: (u32, u32),
    placements: Seq<Option<CachedGlyph>>,
)
    ensures
        r.with_text(atlas, placements).with_text(atlas, placements) == r.with_text(
            atlas,
            placements,
        ),
{
}

/// The mesh of a text depends on the places of its glyphs, the screen and
/// the atlas, and on nothing else: not on the text that was set before.
pub proof fn set_text_forgets_the_text_before(
    r: RendererView,
    s: RendererView,
    atlas: (u32, u32),
    placements: Seq<Option<CachedGlyph>>,
)
    requires
        r.size == s.size,
    ensures
        r.with_text(atlas, placements) == s.with_text(atlas, placements),
{
}

} // verus!
