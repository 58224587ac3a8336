use vstd::prelude::*;

use crate::pipeline::Command;
use crate::GlyphBrush;

verus! {

/// Builder for a [`GlyphBrush`].
pub struct GlyphBrushBuilder {
    /// The font sections reference by default (font id 0).
    pub font: glyph_brush::ab_glyph::FontArc,
    /// Initial atlas texture width, in texels.
    pub initial_cache_width: u32,
    /// Initial atlas texture height, in texels.
    pub initial_cache_height: u32,
}

impl GlyphBrushBuilder {
    /// A builder with the given font and the stock initial atlas size.
    pub fn using_font(font: glyph_brush::ab_glyph::FontArc) -> (r: GlyphBrushBuilder)
        ensures
            r.initial_cache_width == 256,
            r.initial_cache_height == 256,
            r.font == font,
    {
        GlyphBrushBuilder { font, initial_cache_width: 256, initial_cache_height: 256 }
    }

    /// Initial size of the 2D texture used as a GPU glyph cache, in texels
    /// `(width, height)`. The atlas grows on demand whenever it runs out of
    /// room; pre-size it to avoid resizes.
    pub fn initial_cache_size(self, size: (u32, u32)) -> (r: GlyphBrushBuilder)
        ensures
            r.initial_cache_width == size.0,
            r.initial_cache_height == size.1,
            r.font == self.font,
    {
        GlyphBrushBuilder {
            font: self.font,
            initial_cache_width: size.0,
            initial_cache_height: size.1,
        }
    }

    /// Builds the renderer for a GPU context reporting the given major API
    /// version and maximum texture size: the modern tier for version 3 or
    /// higher, the compatibility tier otherwise.
    pub fn build(self, major_version: u32, max_texture_size: u32) -> (r: GlyphBrush)
        requires
            self.initial_cache_width <= crate::MAX_ATLAS_DIMENSION,
            self.initial_cache_height <= crate::MAX_ATLAS_DIMENSION,
        ensures
            r.wf(),
            r.is_core() <==> major_version >= 3,
            r.pipeline_of().atlas_dims() == (self.initial_cache_width, self.initial_cache_height),
            r.pipeline_of().max_texture_size == max_texture_size,
            r.pipeline_of().quad_count == 0,
            r.fonts_spec() == seq![self.font],
            r.pending_sections() == 0,
            r.pending_pre_positioned() == 0,
            r.commands() == Seq::<Command>::empty(),
    {
        GlyphBrush::new(
            major_version,
            max_texture_size,
            self.font,
            self.initial_cache_width,
            self.initial_cache_height,
        )
    }
}

} // verus!
