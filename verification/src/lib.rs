//! Text as textured quads: glyph layout from font metrics, a glyph atlas
//! that grows until the glyphs fit, the quad geometry of the glyphs that
//! were packed, and the renderer that takes a text through all three.
//!
//! All quantities are integers. Lengths along the text are in layout units
//! (the caller chooses the unit, for instance 1/64 of a pixel); coordinates
//! that are normalized on the GPU are kept as exact fractions. The font, the
//! rectangle packer and the GPU stay with the caller, who hands in the
//! font's metrics as tables and the packer's work as functions.

pub mod atlas;
pub mod error;
pub mod geometry;
pub mod layout;
pub mod mesh;
pub mod ratio;
pub mod shader;
pub mod text;
