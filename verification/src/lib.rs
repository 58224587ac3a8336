//! A text renderer that keeps a GPU glyph atlas in sync with a CPU-side
//! glyph cache engine, dispatching between two GPU capability tiers.
use vstd::prelude::*;

pub mod builder;
pub mod cache;
pub mod pipeline;
pub mod region;

use crate::cache::{
    cache_add_font, cache_build, cache_dims, cache_fonts, cache_fonts_list, cache_fonts_ok,
    cache_glyph_bounds_custom_layout, cache_glyphs_custom_layout, cache_keep_cached,
    cache_keep_cached_custom_layout, cache_marked, cache_marked_custom, cache_pre_positioned,
    cache_process_queued, cache_queue, cache_queue_custom_layout, cache_queue_pre_positioned,
    cache_queued_sections, cache_resize_texture, cache_texture_dimensions, glyph_bounds,
    glyph_layout, pre_positioned_in_range, pre_positioned_ok, section_fonts_below,
    section_fonts_in_range, section_scales_in_range, section_scales_ok, CacheBrush, LayoutParam,
    Patch, ProcessOutcome,
};
use crate::pipeline::{patch_commands, Command, Pipeline, Transform};
use crate::region::Region;

verus! {

/// Largest value the renderer lets an atlas axis take. The cache engine
/// computes texel counts — a width times a row coordinate — in 32 bits, so
/// with both axes bounded by this limit every such product stays in range
/// (and so does the doubling in its resize suggestion); no real hardware
/// accepts a larger texture axis either.
pub const MAX_ATLAS_DIMENSION: u32 = 0xFFFF;

/// Each atlas axis is at or below the hardware texture limit, or each is at
/// or above it. A growing atlas keeps this: both axes cross the limit
/// together (the suggestion is passed through only once no axis has room
/// left). Only an atlas constructed astride the limit mixes the two regimes,
/// and for such an atlas one clamped resize can shrink the larger axis.
pub open spec fn dims_aligned_with_limit(dims: (u32, u32), max_size: u32) -> bool {
    ||| dims.0 <= max_size && dims.1 <= max_size
    ||| dims.0 >= max_size && dims.1 >= max_size
}

/// Computes the dimensions the atlas texture is grown to after the cache
/// engine reports that its texture is too small and suggests new dimensions.
///
/// When the suggestion exceeds the hardware limit on either axis while the
/// current atlas still has room to grow on either axis, the target is clamped
/// to the hardware limit on both axes, so the atlas grows all the way in one
/// step instead of through repeated small resizes. Once the atlas is already
/// at (or past) the limit on both axes, the suggestion is passed through
/// unmodified.
pub open spec fn resize_target_spec(
    suggested: (u32, u32),
    max_size: u32,
    current: (u32, u32),
) -> (u32, u32) {
    if (suggested.0 > max_size || suggested.1 > max_size)
        && (current.0 < max_size || current.1 < max_size) {
        (max_size, max_size)
    } else {
        suggested
    }
}

/// Executable form of [`resize_target_spec`].
pub fn resize_target(
    suggested: (u32, u32),
    max_size: u32,
    current: (u32, u32),
) -> (r: (u32, u32))
    ensures
        r == resize_target_spec(suggested, max_size, current),
{
    if (suggested.0 > max_size || suggested.1 > max_size)
        && (current.0 < max_size || current.1 < max_size) {
        (max_size, max_size)
    } else {
        suggested
    }
}

/// Object allowing glyph drawing, containing cache state: a tagged union over
/// the two GPU capability tiers, each pairing one backend [`Pipeline`] with
/// one cache engine instance. The tier is chosen once at construction and
/// never changes.
///
/// Build using a [`GlyphBrushBuilder`](crate::builder::GlyphBrushBuilder).
pub enum GlyphBrush {
    /// The modern pipeline, selected for contexts reporting a major API
    /// version of 3 or higher.
    Core { pipeline: Pipeline, glyph_brush: CacheBrush },
    /// The conservative fallback pipeline for every older context.
    Compatibility { pipeline: Pipeline, glyph_brush: CacheBrush },
}

impl GlyphBrush {
    /// The backend pipeline of the active tier.
    pub open spec fn pipeline_of(&self) -> Pipeline {
        match self {
            GlyphBrush::Core { pipeline, .. } => *pipeline,
            GlyphBrush::Compatibility { pipeline, .. } => *pipeline,
        }
    }

    /// The cache engine instance of the active tier.
    pub open spec fn cache_of(&self) -> CacheBrush {
        match self {
            GlyphBrush::Core { glyph_brush, .. } => *glyph_brush,
            GlyphBrush::Compatibility { glyph_brush, .. } => *glyph_brush,
        }
    }

    /// Whether the modern tier is active.
    pub open spec fn is_core(&self) -> bool {
        self matches GlyphBrush::Core { .. }
    }

    /// The fonts the renderer holds, in insertion order; a font id is an
    /// index into this sequence.
    pub open spec fn fonts_spec(&self) -> Seq<glyph_brush::ab_glyph::FontArc> {
        cache_fonts_list(self.cache_of())
    }

    /// How many fonts the renderer holds.
    pub open spec fn font_count(&self) -> int {
        self.fonts_spec().len() as int
    }

    /// How many sections stand queued for the next draw call.
    pub open spec fn pending_sections(&self) -> int {
        cache_queued_sections(self.cache_of())
    }

    /// How many pre-positioned glyph batches stand queued for the next draw
    /// call.
    pub open spec fn pending_pre_positioned(&self) -> int {
        cache_pre_positioned(self.cache_of())
    }

    /// The GPU commands recorded and not yet handed to the host.
    pub open spec fn commands(&self) -> Seq<Command> {
        self.pipeline_of().commands@
    }

    /// The central invariant this renderer maintains: the cache engine's
    /// logical texture dimensions always equal the backend pipeline's atlas
    /// texture dimensions; every glyph the engine holds names a font (and
    /// extra entry) it holds; and no atlas axis exceeds
    /// [`MAX_ATLAS_DIMENSION`]. Every public operation preserves it.
    pub open spec fn wf(&self) -> bool {
        &&& self.pipeline_of().atlas_dims() == cache_dims(self.cache_of())
        &&& cache_fonts_ok(self.cache_of())
        &&& self.pipeline_of().atlas_width <= MAX_ATLAS_DIMENSION
        &&& self.pipeline_of().atlas_height <= MAX_ATLAS_DIMENSION
    }

    /// Selects the capability tier from the context's reported major API
    /// version — `Core` for version 3 or higher, `Compatibility` otherwise,
    /// the conservative default — and pairs a fresh backend pipeline with a
    /// fresh cache engine, both sized to the given initial atlas dimensions.
    pub fn new(
        major_version: u32,
        max_texture_size: u32,
        font: glyph_brush::ab_glyph::FontArc,
        initial_width: u32,
        initial_height: u32,
    ) -> (r: GlyphBrush)
        requires
            initial_width <= MAX_ATLAS_DIMENSION,
            initial_height <= MAX_ATLAS_DIMENSION,
        ensures
            r.wf(),
            r.is_core() <==> major_version >= 3,
            r.pipeline_of().atlas_dims() == (initial_width, initial_height),
            r.pipeline_of().max_texture_size == max_texture_size,
            r.pipeline_of().quad_count == 0,
            r.fonts_spec() == seq![font],
            r.pending_sections() == 0,
            r.pending_pre_positioned() == 0,
            r.commands() == Seq::<Command>::empty(),
    {
        let glyph_brush = cache_build(font, initial_width, initial_height);
        let pipeline = Pipeline::new(initial_width, initial_height, max_texture_size);
        if major_version >= 3 {
            GlyphBrush::Core { pipeline, glyph_brush }
        } else {
            GlyphBrush::Compatibility { pipeline, glyph_brush }
        }
    }

    /// Queues a section to be drawn by the next draw call. Can be called
    /// multiple times to queue multiple sections for drawing. Every text of
    /// the section must name a font this renderer holds (see
    /// [`Self::section_fits`]).
    pub fn queue(&mut self, section: &glyph_brush::OwnedSection<glyph_brush::Extra>)
        requires
            old(self).wf(),
            section_fonts_below(*section, old(self).font_count()),
            section_scales_ok(*section),
        ensures
            final(self).wf(),
            final(self).is_core() == old(self).is_core(),
            final(self).fonts_spec() == old(self).fonts_spec(),
            final(self).pipeline_of() == old(self).pipeline_of(),
            final(self).pending_sections() == old(self).pending_sections() + 1,
            final(self).pending_pre_positioned() == old(self).pending_pre_positioned(),
            cache_marked(final(self).cache_of(), *section),
    {
        match self {
            GlyphBrush::Core { glyph_brush, .. } => cache_queue(glyph_brush, section),
            GlyphBrush::Compatibility { glyph_brush, .. } => cache_queue(glyph_brush, section),
        }
    }

    /// Queues a section under the given layout in place of its own, to be
    /// drawn by the next draw call.
    pub fn queue_custom_layout(
        &mut self,
        section: &glyph_brush::OwnedSection<glyph_brush::Extra>,
        custom_layout: &LayoutParam,
    )
        requires
            old(self).wf(),
            section_fonts_below(*section, old(self).font_count()),
            section_scales_ok(*section),
        ensures
            final(self).wf(),
            final(self).is_core() == old(self).is_core(),
            final(self).fonts_spec() == old(self).fonts_spec(),
            final(self).pipeline_of() == old(self).pipeline_of(),
            final(self).pending_sections() == old(self).pending_sections() + 1,
            final(self).pending_pre_positioned() == old(self).pending_pre_positioned(),
            cache_marked_custom(final(self).cache_of(), *section, *custom_layout),
    {
        match self {
            GlyphBrush::Core { glyph_brush, .. } => {
                cache_queue_custom_layout(glyph_brush, section, custom_layout)
            },
            GlyphBrush::Compatibility { glyph_brush, .. } => {
                cache_queue_custom_layout(glyph_brush, section, custom_layout)
            },
        }
    }

    /// Queues pre-positioned glyphs to be processed by the next draw call.
    /// Each glyph must name a font this renderer holds and an entry of
    /// `extra` (see [`Self::pre_positioned_fits`]).
    pub fn queue_pre_positioned(
        &mut self,
        glyphs: Vec<glyph_brush::SectionGlyph>,
        extra: Vec<glyph_brush::Extra>,
        bounds: glyph_brush::ab_glyph::Rect,
    )
        requires
            old(self).wf(),
            pre_positioned_ok(glyphs@, old(self).font_count(), extra@.len() as int),
        ensures
            final(self).wf(),
            final(self).is_core() == old(self).is_core(),
            final(self).fonts_spec() == old(self).fonts_spec(),
            final(self).pipeline_of() == old(self).pipeline_of(),
            final(self).pending_pre_positioned() == old(self).pending_pre_positioned() + 1,
            final(self).pending_sections() == old(self).pending_sections(),
    {
        match self {
            GlyphBrush::Core { glyph_brush, .. } => {
                cache_queue_pre_positioned(glyph_brush, glyphs, extra, bounds)
            },
            GlyphBrush::Compatibility { glyph_brush, .. } => {
                cache_queue_pre_positioned(glyph_brush, glyphs, extra, bounds)
            },
        }
    }

    /// Retains the section in the cache as if it had been drawn this frame.
    pub fn keep_cached(&mut self, section: &glyph_brush::OwnedSection<glyph_brush::Extra>)
        requires
            old(self).wf(),
            section_fonts_below(*section, old(self).font_count()),
        ensures
            final(self).wf(),
            final(self).is_core() == old(self).is_core(),
            final(self).fonts_spec() == old(self).fonts_spec(),
            final(self).pipeline_of() == old(self).pipeline_of(),
            cache_marked(final(self).cache_of(), *section),
    {
        match self {
            GlyphBrush::Core { glyph_brush, .. } => cache_keep_cached(glyph_brush, section),
            GlyphBrush::Compatibility { glyph_brush, .. } => cache_keep_cached(glyph_brush, section),
        }
    }

    /// Retains the section, laid out by the given layout, in the cache as if
    /// it had been drawn this frame.
    pub fn keep_cached_custom_layout(
        &mut self,
        section: &glyph_brush::OwnedSection<glyph_brush::Extra>,
        custom_layout: &LayoutParam,
    )
        requires
            old(self).wf(),
            section_fonts_below(*section, old(self).font_count()),
        ensures
            final(self).wf(),
            final(self).is_core() == old(self).is_core(),
            final(self).fonts_spec() == old(self).fonts_spec(),
            final(self).pipeline_of() == old(self).pipeline_of(),
            cache_marked_custom(final(self).cache_of(), *section, *custom_layout),
    {
        match self {
            GlyphBrush::Core { glyph_brush, .. } => {
                cache_keep_cached_custom_layout(glyph_brush, section, custom_layout)
            },
            GlyphBrush::Compatibility { glyph_brush, .. } => {
                cache_keep_cached_custom_layout(glyph_brush, section, custom_layout)
            },
        }
    }

    /// Returns the available fonts; an id returned by [`Self::add_font`] is
    /// an index into this list.
    pub fn fonts(&self) -> (r: Vec<glyph_brush::ab_glyph::FontArc>)
        ensures
            r@ == self.fonts_spec(),
    {
        match self {
            GlyphBrush::Core { glyph_brush, .. } => cache_fonts(glyph_brush),
            GlyphBrush::Compatibility { glyph_brush, .. } => cache_fonts(glyph_brush),
        }
    }

    /// Adds an additional font to the one given on build. Returns an id — the
    /// index of the font — to reference it in sections.
    pub fn add_font(&mut self, font: glyph_brush::ab_glyph::FontArc) -> (id: glyph_brush::FontId)
        requires
            old(self).wf(),
        ensures
            final(self).wf(),
            id.0 == old(self).font_count(),
            final(self).fonts_spec() == old(self).fonts_spec().push(font),
            final(self).is_core() == old(self).is_core(),
            final(self).pipeline_of() == old(self).pipeline_of(),
    {
        match self {
            GlyphBrush::Core { glyph_brush, .. } => cache_add_font(glyph_brush, font),
            GlyphBrush::Compatibility { glyph_brush, .. } => cache_add_font(glyph_brush, font),
        }
    }

    /// Whether every text of the section names a font this renderer holds
    /// and has a sane pixel scale: the precondition of queueing it (retaining
    /// needs only the font part).
    pub fn section_fits(&self, section: &glyph_brush::OwnedSection<glyph_brush::Extra>) -> (r: bool)
        ensures
            r == (section_fonts_below(*section, self.font_count()) && section_scales_ok(
                *section,
            )),
    {
        let fonts = self.fonts();
        section_fonts_in_range(section, fonts.len()) && section_scales_in_range(section)
    }

    /// Whether every pre-positioned glyph names a font this renderer holds
    /// and an entry of `extra`: the precondition of queueing them.
    pub fn pre_positioned_fits(
        &self,
        glyphs: &Vec<glyph_brush::SectionGlyph>,
        extra: &Vec<glyph_brush::Extra>,
    ) -> (r: bool)
        ensures
            r == pre_positioned_ok(glyphs@, self.font_count(), extra@.len() as int),
    {
        let fonts = self.fonts();
        pre_positioned_in_range(glyphs, fonts.len(), extra.len())
    }

    /// Computes (and caches) the positioned glyphs of the section under the
    /// given layout.
    pub fn glyphs_custom_layout(
        &mut self,
        section: &glyph_brush::OwnedSection<glyph_brush::Extra>,
        custom_layout: &LayoutParam,
    ) -> (r: Vec<glyph_brush::SectionGlyph>)
        requires
            old(self).wf(),
            section_fonts_below(*section, old(self).font_count()),
            section_scales_ok(*section),
        ensures
            r@ == glyph_layout(old(self).cache_of(), *section, *custom_layout),
            final(self).wf(),
            final(self).is_core() == old(self).is_core(),
            final(self).fonts_spec() == old(self).fonts_spec(),
            final(self).pipeline_of() == old(self).pipeline_of(),
            cache_marked_custom(final(self).cache_of(), *section, *custom_layout),
    {
        match self {
            GlyphBrush::Core { glyph_brush, .. } => {
                cache_glyphs_custom_layout(glyph_brush, section, custom_layout)
            },
            GlyphBrush::Compatibility { glyph_brush, .. } => {
                cache_glyphs_custom_layout(glyph_brush, section, custom_layout)
            },
        }
    }

    /// The bounding box of the section's glyphs under the given layout, if it
    /// has any.
    pub fn glyph_bounds_custom_layout(
        &mut self,
        section: &glyph_brush::OwnedSection<glyph_brush::Extra>,
        custom_layout: &LayoutParam,
    ) -> (r: Option<glyph_brush::ab_glyph::Rect>)
        requires
            old(self).wf(),
            section_fonts_below(*section, old(self).font_count()),
            section_scales_ok(*section),
        ensures
            r == glyph_bounds(old(self).cache_of(), *section, *custom_layout),
            final(self).wf(),
            final(self).is_core() == old(self).is_core(),
            final(self).fonts_spec() == old(self).fonts_spec(),
            final(self).pipeline_of() == old(self).pipeline_of(),
            cache_marked_custom(final(self).cache_of(), *section, *custom_layout),
    {
        match self {
            GlyphBrush::Core { glyph_brush, .. } => {
                cache_glyph_bounds_custom_layout(glyph_brush, section, custom_layout)
            },
            GlyphBrush::Compatibility { glyph_brush, .. } => {
                cache_glyph_bounds_custom_layout(glyph_brush, section, custom_layout)
            },
        }
    }

    /// The atlas texture dimensions `(width, height)`, equal on the GPU side
    /// and the cache engine side whenever the renderer is well formed.
    pub fn texture_dimensions(&self) -> (r: (u32, u32))
        ensures
            r == self.pipeline_of().atlas_dims(),
    {
        match self {
            GlyphBrush::Core { pipeline, .. } => pipeline.atlas_dimensions(),
            GlyphBrush::Compatibility { pipeline, .. } => pipeline.atlas_dimensions(),
        }
    }

    /// Hands every pending GPU command to the host, in the order they must
    /// run, and leaves the buffer empty.
    pub fn take_commands(&mut self) -> (r: Vec<Command>)
        requires
            old(self).wf(),
        ensures
            final(self).wf(),
            r@ == old(self).commands(),
            final(self).commands() == Seq::<Command>::empty(),
            final(self).is_core() == old(self).is_core(),
            final(self).fonts_spec() == old(self).fonts_spec(),
            final(self).pipeline_of().atlas_dims() == old(self).pipeline_of().atlas_dims(),
            final(self).pipeline_of().max_texture_size == old(self).pipeline_of().max_texture_size,
            final(self).pipeline_of().quad_count == old(self).pipeline_of().quad_count,
    {
        match self {
            GlyphBrush::Core { pipeline, .. } => pipeline.take_commands(),
            GlyphBrush::Compatibility { pipeline, .. } => pipeline.take_commands(),
        }
    }

    /// Draws all queued sections onto a render target of the given pixel
    /// dimensions, under the default orthographic projection. Atlas
    /// synchronization runs first, so afterwards the GPU atlas and the cache
    /// engine dimensions agree (the renderer stays well formed). Fails only
    /// if atlas resizing did not converge.
    pub fn draw_queued(&mut self, target_width: u32, target_height: u32) -> (r: Result<(), String>)
        requires
            old(self).wf(),
        ensures
            final(self).wf(),
            final(self).is_core() == old(self).is_core(),
            final(self).fonts_spec() == old(self).fonts_spec(),
            final(self).pipeline_of().max_texture_size == old(self).pipeline_of().max_texture_size,
            dims_aligned_with_limit(
                old(self).pipeline_of().atlas_dims(),
                old(self).pipeline_of().max_texture_size,
            ) ==> {
                &&& final(self).pipeline_of().atlas_width >= old(self).pipeline_of().atlas_width
                &&& final(self).pipeline_of().atlas_height >= old(self).pipeline_of().atlas_height
            },
            r is Ok ==> final(self).pending_sections() == 0
                && final(self).pending_pre_positioned() == 0,
            old(self).commands().is_prefix_of(final(self).commands()),
            r is Ok ==> final(self).commands().last() == (Command::Draw {
                transform: Transform::Orthographic { width: target_width, height: target_height },
                scissor: None,
            }),
    {
        self.draw_queued_with_transform(
            Transform::Orthographic { width: target_width, height: target_height },
        )
    }

    /// Draws all queued sections onto a render target, applying a position
    /// transform (e.g. a projection). As [`Self::draw_queued`] otherwise.
    pub fn draw_queued_with_transform(&mut self, transform: Transform) -> (r: Result<(), String>)
        requires
            old(self).wf(),
        ensures
            final(self).wf(),
            final(self).is_core() == old(self).is_core(),
            final(self).fonts_spec() == old(self).fonts_spec(),
            final(self).pipeline_of().max_texture_size == old(self).pipeline_of().max_texture_size,
            dims_aligned_with_limit(
                old(self).pipeline_of().atlas_dims(),
                old(self).pipeline_of().max_texture_size,
            ) ==> {
                &&& final(self).pipeline_of().atlas_width >= old(self).pipeline_of().atlas_width
                &&& final(self).pipeline_of().atlas_height >= old(self).pipeline_of().atlas_height
            },
            r is Ok ==> final(self).pending_sections() == 0
                && final(self).pending_pre_positioned() == 0,
            old(self).commands().is_prefix_of(final(self).commands()),
            r is Ok ==> final(self).commands().last() == (Command::Draw {
                transform,
                scissor: None,
            }),
    {
        self.draw_queued_inner(transform, None)
    }

    /// Draws all queued sections onto a render target, applying a position
    /// transform and a scissoring region. As [`Self::draw_queued`] otherwise.
    pub fn draw_queued_with_transform_and_scissoring(
        &mut self,
        transform: Transform,
        region: Region,
    ) -> (r: Result<(), String>)
        requires
            old(self).wf(),
        ensures
            final(self).wf(),
            final(self).is_core() == old(self).is_core(),
            final(self).fonts_spec() == old(self).fonts_spec(),
            final(self).pipeline_of().max_texture_size == old(self).pipeline_of().max_texture_size,
            dims_aligned_with_limit(
                old(self).pipeline_of().atlas_dims(),
                old(self).pipeline_of().max_texture_size,
            ) ==> {
                &&& final(self).pipeline_of().atlas_width >= old(self).pipeline_of().atlas_width
                &&& final(self).pipeline_of().atlas_height >= old(self).pipeline_of().atlas_height
            },
            r is Ok ==> final(self).pending_sections() == 0
                && final(self).pending_pre_positioned() == 0,
            old(self).commands().is_prefix_of(final(self).commands()),
            r is Ok ==> final(self).commands().last() == (Command::Draw {
                transform,
                scissor: Some(region),
            }),
    {
        self.draw_queued_inner(transform, Some(region))
    }

    /// Shared body of the draw variants: runs the cache-sync protocol, then
    /// records one draw call under the given transform and scissor.
    fn draw_queued_inner(&mut self, transform: Transform, scissor: Option<Region>) -> (r: Result<
        (),
        String,
    >)
        requires
            old(self).wf(),
        ensures
            final(self).wf(),
            final(self).is_core() == old(self).is_core(),
            final(self).fonts_spec() == old(self).fonts_spec(),
            final(self).pipeline_of().max_texture_size == old(self).pipeline_of().max_texture_size,
            dims_aligned_with_limit(
                old(self).pipeline_of().atlas_dims(),
                old(self).pipeline_of().max_texture_size,
            ) ==> {
                &&& final(self).pipeline_of().atlas_width >= old(self).pipeline_of().atlas_width
                &&& final(self).pipeline_of().atlas_height >= old(self).pipeline_of().atlas_height
            },
            r is Ok ==> final(self).pending_sections() == 0
                && final(self).pending_pre_positioned() == 0,
            old(self).commands().is_prefix_of(final(self).commands()),
            r is Ok ==> final(self).commands().last() == (Command::Draw { transform, scissor }),
    {
        match self {
            GlyphBrush::Core { pipeline, glyph_brush } => {
                match process_queued(pipeline, glyph_brush) {
                    Ok(()) => {
                        pipeline.draw(transform, scissor);
                        Ok(())
                    },
                    Err(e) => Err(e),
                }
            },
            GlyphBrush::Compatibility { pipeline, glyph_brush } => {
                match process_queued(pipeline, glyph_brush) {
                    Ok(()) => {
                        pipeline.draw(transform, scissor);
                        Ok(())
                    },
                    Err(e) => Err(e),
                }
            },
        }
    }
}

/// The GPU work the renderer records for one processing step of the cache
/// engine, given the patches the engine emitted and the outcome it reported:
/// the atlas patch writes in order, then, on a draw outcome, the upload of the
/// fresh vertex batch. (The engine emits no patches for the other outcomes.)
pub open spec fn step_commands(patches: Seq<Patch>, outcome: ProcessOutcome) -> Seq<Command> {
    match outcome {
        ProcessOutcome::Draw(quads) => patch_commands(patches).push(
            Command::UploadVertices { quads },
        ),
        ProcessOutcome::ReDraw => patch_commands(patches),
        ProcessOutcome::TextureTooSmall { .. } => patch_commands(patches),
    }
}

/// A processing step that reports "redraw" — the queued content is unchanged
/// since the last frame — comes with no patches and records no GPU work at
/// all: such a frame re-uses the previous atlas contents and vertex batch
/// verbatim.
pub proof fn lemma_redraw_step_records_nothing(patches: Seq<Patch>, outcome: ProcessOutcome)
    requires
        outcome is ReDraw,
        patches.len() == 0,
    ensures
        step_commands(patches, outcome) =~= Seq::<Command>::empty(),
{
}

/// Applies one processing step's results to the backend: records the atlas
/// patch writes and, on a draw outcome, the upload of the new vertex batch;
/// reports the suggested dimensions when the engine found its texture too
/// small, and nothing else in every other case.
pub fn apply_step(pipeline: &mut Pipeline, patches: Vec<Patch>, outcome: ProcessOutcome) -> (resize:
    Option<(u32, u32)>)
    requires
        forall|i: int|
            0 <= i < patches@.len() ==> (#[trigger] patches@[i]).fits(old(pipeline).atlas_dims()),
    ensures
        final(pipeline).commands@ == old(pipeline).commands@ + step_commands(patches@, outcome),
        final(pipeline).atlas_width == old(pipeline).atlas_width,
        final(pipeline).atlas_height == old(pipeline).atlas_height,
        final(pipeline).max_texture_size == old(pipeline).max_texture_size,
        (resize is Some) <==> (outcome is TextureTooSmall),
        outcome matches ProcessOutcome::TextureTooSmall { suggested_width, suggested_height }
            ==> resize == Some((suggested_width, suggested_height)),
        outcome matches ProcessOutcome::Draw(quads) ==> final(pipeline).quad_count == quads@.len(),
        !(outcome is Draw) ==> final(pipeline).quad_count == old(pipeline).quad_count,
{
    pipeline.apply_patches(patches);
    match outcome {
        ProcessOutcome::Draw(quads) => {
            pipeline.upload(quads);
            None
        },
        ProcessOutcome::ReDraw => None,
        ProcessOutcome::TextureTooSmall { suggested_width, suggested_height } => {
            Some((suggested_width, suggested_height))
        },
    }
}

/// Upper bound on atlas resize attempts within one draw cycle. Each resize
/// target doubles the dimensions or jumps to the hardware maximum, so a
/// converging cache engine succeeds long before this bound; the guard only
/// stops a misbehaving engine from retrying forever, surfacing a fatal error
/// instead.
pub const MAX_RESIZE_RETRIES: u32 = 64;

/// Runs the cache-sync protocol once, before a draw call: processes the
/// queued sections, recording their atlas patches and vertex upload, and on
/// "texture too small" grows the atlas — GPU side and cache engine side to
/// the same target, computed by [`resize_target`] — and retries, keeping the
/// two sides' dimensions equal throughout.
fn process_queued(pipeline: &mut Pipeline, glyph_brush: &mut CacheBrush) -> (r: Result<(), String>)
    requires
        old(pipeline).atlas_dims() == cache_dims(*old(glyph_brush)),
        cache_fonts_ok(*old(glyph_brush)),
        old(pipeline).atlas_width <= MAX_ATLAS_DIMENSION,
        old(pipeline).atlas_height <= MAX_ATLAS_DIMENSION,
    ensures
        final(pipeline).atlas_dims() == cache_dims(*final(glyph_brush)),
        cache_fonts_ok(*final(glyph_brush)),
        cache_fonts_list(*final(glyph_brush)) == cache_fonts_list(*old(glyph_brush)),
        final(pipeline).max_texture_size == old(pipeline).max_texture_size,
        final(pipeline).atlas_width <= MAX_ATLAS_DIMENSION,
        final(pipeline).atlas_height <= MAX_ATLAS_DIMENSION,
        dims_aligned_with_limit(old(pipeline).atlas_dims(), old(pipeline).max_texture_size) ==> {
            &&& final(pipeline).atlas_width >= old(pipeline).atlas_width
            &&& final(pipeline).atlas_height >= old(pipeline).atlas_height
            &&& dims_aligned_with_limit(
                final(pipeline).atlas_dims(),
                old(pipeline).max_texture_size,
            )
        },
        r is Ok ==> cache_queued_sections(*final(glyph_brush)) == 0 && cache_pre_positioned(
            *final(glyph_brush),
        ) == 0,
        old(pipeline).commands@.is_prefix_of(final(pipeline).commands@),
{
    let mut retries: u32 = 0;
    loop
        invariant
            pipeline.atlas_dims() == cache_dims(*glyph_brush),
            cache_fonts_ok(*glyph_brush),
            cache_fonts_list(*glyph_brush) == cache_fonts_list(*old(glyph_brush)),
            pipeline.max_texture_size == old(pipeline).max_texture_size,
            pipeline.atlas_width <= MAX_ATLAS_DIMENSION,
            pipeline.atlas_height <= MAX_ATLAS_DIMENSION,
            dims_aligned_with_limit(old(pipeline).atlas_dims(), old(pipeline).max_texture_size)
                ==> {
                &&& pipeline.atlas_width >= old(pipeline).atlas_width
                &&& pipeline.atlas_height >= old(pipeline).atlas_height
                &&& dims_aligned_with_limit(pipeline.atlas_dims(), old(pipeline).max_texture_size)
            },
            old(pipeline).commands@.is_prefix_of(pipeline.commands@),
            retries < MAX_RESIZE_RETRIES,
        decreases MAX_RESIZE_RETRIES - retries,
    {
        let ghost commands_before = pipeline.commands@;
        let (patches, outcome) = cache_process_queued(glyph_brush);
        match apply_step(pipeline, patches, outcome) {
            None => {
                proof {
                    lemma_prefix_extends(
                        old(pipeline).commands@,
                        commands_before,
                        pipeline.commands@,
                    );
                }
                return Ok(());
            },
            Some((suggested_width, suggested_height)) => {
                let max_size = pipeline.get_max_texture_size();
                let current = cache_texture_dimensions(glyph_brush);
                let (target_width, target_height) = resize_target(
                    (suggested_width, suggested_height),
                    max_size,
                    current,
                );
                // The cache engine stores dimensions in 32 bits and doubles
                // them when suggesting growth, so an axis may never pass
                // MAX_ATLAS_DIMENSION.
                let new_width = if target_width > MAX_ATLAS_DIMENSION {
                    MAX_ATLAS_DIMENSION
                } else {
                    target_width
                };
                let new_height = if target_height > MAX_ATLAS_DIMENSION {
                    MAX_ATLAS_DIMENSION
                } else {
                    target_height
                };
                pipeline.increase_cache_size(new_width, new_height);
                cache_resize_texture(glyph_brush, new_width, new_height);
                proof {
                    lemma_prefix_extends(
                        old(pipeline).commands@,
                        commands_before,
                        pipeline.commands@,
                    );
                }
                retries = retries + 1;
                if retries == MAX_RESIZE_RETRIES {
                    return Err(
                        "atlas resizing did not converge: the glyph cache engine kept reporting its texture too small".to_string(),
                    );
                }
            },
        }
    }
}

/// A prefix of `a` is a prefix of anything `a` was extended to.
proof fn lemma_prefix_extends(p: Seq<Command>, a: Seq<Command>, b: Seq<Command>)
    requires
        p.is_prefix_of(a),
        a.len() <= b.len(),
        forall|i: int| 0 <= i < a.len() ==> a[i] == b[i],
    ensures
        p.is_prefix_of(b),
{
    assert(b.take(p.len() as int) =~= p);
}

} // verus!
