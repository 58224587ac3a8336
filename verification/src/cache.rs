//! Trusted bindings to the CPU-side glyph cache engine (`glyph_brush`).
//!
//! The cache engine owns glyph layout, a CPU-side logical mirror of the glyph
//! atlas, and eviction of stale glyphs. This renderer drives it through the
//! wrappers below; each wrapper's contract states only what the engine's
//! source shows, over names for the engine's observable state (its texture
//! dimensions, font list, queued work and retained marks), and the verified
//! sync driver in the crate root is proved against those contracts.
use vstd::prelude::*;

verus! {

#[verifier::external_type_specification]
#[verifier::external_body]
pub struct ExFontArc(glyph_brush::ab_glyph::FontArc);

#[verifier::external_type_specification]
#[verifier::external_body]
pub struct ExRect(glyph_brush::ab_glyph::Rect);

#[verifier::external_type_specification]
#[verifier::external_body]
pub struct ExExtra(glyph_brush::Extra);

#[verifier::external_type_specification]
#[verifier::external_body]
#[verifier::reject_recursive_types(X)]
pub struct ExOwnedSection<X>(glyph_brush::OwnedSection<X>);

#[verifier::external_type_specification]
#[verifier::external_body]
pub struct ExBuiltInLineBreaker(glyph_brush::BuiltInLineBreaker);

#[verifier::external_type_specification]
#[verifier::external_body]
pub struct ExHorizontalAlign(glyph_brush::HorizontalAlign);

#[verifier::external_type_specification]
#[verifier::external_body]
pub struct ExVerticalAlign(glyph_brush::VerticalAlign);

#[verifier::external_type_specification]
#[verifier::external_body]
pub struct ExSectionGlyph(glyph_brush::SectionGlyph);

#[verifier::external_type_specification]
pub struct ExFontId(glyph_brush::FontId);

#[verifier::external_type_specification]
#[verifier::external_body]
#[verifier::reject_recursive_types(V)]
pub struct ExBrushAction<V>(glyph_brush::BrushAction<V>);

#[verifier::external_type_specification]
#[verifier::external_body]
pub struct ExBrushError(glyph_brush::BrushError);

/// Relies on `ab_glyph::Rect`'s derived `Clone` on a `Copy` type: the clone
/// equals the original.
pub assume_specification[ <glyph_brush::ab_glyph::Rect as Clone>::clone ](
    r: &glyph_brush::ab_glyph::Rect,
) -> (res: glyph_brush::ab_glyph::Rect)
    ensures
        res == *r,
;

/// Relies on `glyph_brush::Extra`'s derived `Clone` on a `Copy` type: the
/// clone equals the original.
pub assume_specification[ <glyph_brush::Extra as Clone>::clone ](
    e: &glyph_brush::Extra,
) -> (res: glyph_brush::Extra)
    ensures
        res == *e,
;

/// The cache engine instance this renderer drives, held opaquely (the
/// engine's type cannot be declared to the verifier here): one [`Quad`] per
/// glyph, the engine's stock extra data, reference-counted fonts. Values
/// exist only through [`cache_build`] and are read and changed only through
/// the wrappers below, whose contracts speak of the names [`cache_dims`],
/// [`cache_fonts_list`], [`cache_queued_sections`] and their companions.
#[verifier::external_body]
pub struct CacheBrush {
    inner: glyph_brush::GlyphBrush<
        Quad,
        glyph_brush::Extra,
        glyph_brush::ab_glyph::FontArc,
        std::collections::hash_map::RandomState,
    >,
}

/// A single glyph quad's vertex data: atlas texture coordinates, screen pixel
/// coordinates, layout bounds and per-glyph extra data (color and depth). The
/// renderer carries quads as opaque payload from the cache engine to the GPU
/// backend; it never inspects them.
#[derive(Clone)]
pub struct Quad {
    pub tex_coords: glyph_brush::ab_glyph::Rect,
    pub pixel_coords: glyph_brush::ab_glyph::Rect,
    pub bounds: glyph_brush::ab_glyph::Rect,
    pub extra: glyph_brush::Extra,
}

/// A rectangular atlas update emitted by the cache engine: `data` holds
/// `width * height` single-channel coverage bytes, one per texel, row major,
/// to be written at offset `(x, y)` of the atlas texture.
pub struct Patch {
    pub x: u32,
    pub y: u32,
    pub width: u32,
    pub height: u32,
    pub data: Vec<u8>,
}

impl Patch {
    /// The patch lies inside an atlas of dimensions `dims` and carries exactly
    /// one byte per texel.
    pub open spec fn fits(&self, dims: (u32, u32)) -> bool {
        &&& self.x + self.width <= dims.0
        &&& self.y + self.height <= dims.1
        &&& self.data@.len() == self.width * self.height
    }
}

/// A glyph layout strategy of the cache engine, held opaquely: the engine's
/// own layout type carries a line-breaker trait bound that cannot be declared
/// here, so values of it are built by [`layout_single_line`] and
/// [`layout_wrap`] and carried through unread.
#[verifier::external_body]
pub struct LayoutParam {
    inner: glyph_brush::Layout<glyph_brush::BuiltInLineBreaker>,
}

/// Relies on `glyph_brush::Layout::SingleLine`: a single-line layout with the
/// given alignments and line breaker.
#[verifier::external_body]
pub fn layout_single_line(
    line_breaker: glyph_brush::BuiltInLineBreaker,
    h_align: glyph_brush::HorizontalAlign,
    v_align: glyph_brush::VerticalAlign,
) -> LayoutParam {
    LayoutParam { inner: glyph_brush::Layout::SingleLine { line_breaker, h_align, v_align } }
}

/// Relies on `glyph_brush::Layout::Wrap`: a word-wrapping layout with the
/// given alignments and line breaker.
#[verifier::external_body]
pub fn layout_wrap(
    line_breaker: glyph_brush::BuiltInLineBreaker,
    h_align: glyph_brush::HorizontalAlign,
    v_align: glyph_brush::VerticalAlign,
) -> LayoutParam {
    LayoutParam { inner: glyph_brush::Layout::Wrap { line_breaker, h_align, v_align } }
}

/// What one processing step of the cache engine asks the renderer to do next.
pub enum ProcessOutcome {
    /// New vertex data: replace the previously uploaded batch with these quads.
    Draw(Vec<Quad>),
    /// Nothing changed since the last step: keep the previous batch.
    ReDraw,
    /// The engine's logical atlas no longer fits all needed glyphs; it
    /// suggests growing to these dimensions.
    TextureTooSmall { suggested_width: u32, suggested_height: u32 },
}

/// The cache engine's logical texture dimensions `(width, height)`.
pub uninterp spec fn cache_dims(b: CacheBrush) -> (u32, u32);

/// The fonts the cache engine holds, in insertion order: the build font
/// first, then each added font. A font id is an index into this sequence.
pub uninterp spec fn cache_fonts_list(b: CacheBrush) -> Seq<glyph_brush::ab_glyph::FontArc>;

/// How many sections stand queued for the next processing step (the engine's
/// section buffer).
pub uninterp spec fn cache_queued_sections(b: CacheBrush) -> int;

/// How many pre-positioned glyph batches stand queued for the next
/// processing step.
pub uninterp spec fn cache_pre_positioned(b: CacheBrush) -> int;

/// The engine will retain the cached layout of section `s` (laid out by the
/// section's own layout) through the next processing step instead of
/// evicting it.
pub uninterp spec fn cache_marked(b: CacheBrush, s: glyph_brush::OwnedSection<glyph_brush::Extra>) -> bool;

/// As [`cache_marked`], for section `s` laid out by `layout` in place of its
/// own.
pub uninterp spec fn cache_marked_custom(b: CacheBrush, s: glyph_brush::OwnedSection<glyph_brush::Extra>, layout: LayoutParam) -> bool;

/// The positioned glyphs the engine computes for section `s` under `layout`,
/// against the fonts and cached layouts that `b` holds.
pub uninterp spec fn glyph_layout(b: CacheBrush, s: glyph_brush::OwnedSection<glyph_brush::Extra>, layout: LayoutParam) -> Seq<glyph_brush::SectionGlyph>;

/// The bounding box of the glyphs of section `s` under `layout`, against the
/// fonts and cached layouts that `b` holds; nothing when the section lays
/// out to no glyphs.
pub uninterp spec fn glyph_bounds(b: CacheBrush, s: glyph_brush::OwnedSection<glyph_brush::Extra>, layout: LayoutParam) -> Option<glyph_brush::ab_glyph::Rect>;

/// Every glyph held in the engine's queues and caches names a font index
/// the engine holds and a valid extra index, with a bounded pixel scale, so
/// that a processing step never indexes out of bounds and never overflows
/// its 32-bit texel arithmetic.
pub uninterp spec fn cache_fonts_ok(b: CacheBrush) -> bool;

/// Every text of section `s` names a font index below `n`.
pub uninterp spec fn section_fonts_below(s: glyph_brush::OwnedSection<glyph_brush::Extra>, n: int) -> bool;

/// Every text of section `s` has a finite pixel scale no larger than the
/// atlas dimension limit, so its glyphs' texel sizes stay within the
/// engine's 32-bit arithmetic.
pub uninterp spec fn section_scales_ok(s: glyph_brush::OwnedSection<glyph_brush::Extra>) -> bool;

/// Every glyph of `glyphs` names a font index below `fonts` and an extra
/// index below `extras`, and has a finite pixel scale no larger than the
/// atlas dimension limit.
pub uninterp spec fn pre_positioned_ok(glyphs: Seq<glyph_brush::SectionGlyph>, fonts: int, extras: int) -> bool;

/// Relies on reading `OwnedSection::text`: reports whether every text of the
/// section names a font index below `n`.
#[verifier::external_body]
pub fn section_fonts_in_range(s: &glyph_brush::OwnedSection<glyph_brush::Extra>, n: usize) -> (r: bool)
    ensures
        r == section_fonts_below(*s, n as int),
{
    s.text.iter().all(|t| t.font_id.0 < n)
}

/// Relies on reading `OwnedSection::text`: reports whether every text's
/// pixel scale is finite and at most the atlas dimension limit (the cast
/// saturates, so an over-large scale fails the comparison).
#[verifier::external_body]
pub fn section_scales_in_range(s: &glyph_brush::OwnedSection<glyph_brush::Extra>) -> (r: bool)
    ensures
        r == section_scales_ok(*s),
{
    s.text.iter().all(|t| {
        t.scale.x.is_finite() && t.scale.y.is_finite()
            && (t.scale.x as u32) <= crate::MAX_ATLAS_DIMENSION
            && (t.scale.y as u32) <= crate::MAX_ATLAS_DIMENSION
    })
}

/// Relies on reading `SectionGlyph`'s public fields: reports whether every
/// glyph names a font index below `fonts` and an extra index below `extras`
/// and has a finite pixel scale at most the atlas dimension limit.
#[verifier::external_body]
pub fn pre_positioned_in_range(
    glyphs: &Vec<glyph_brush::SectionGlyph>,
    fonts: usize,
    extras: usize,
) -> (r: bool)
    ensures
        r == pre_positioned_ok(glyphs@, fonts as int, extras as int),
{
    glyphs.iter().all(|g| {
        g.font_id.0 < fonts && g.section_index < extras
            && g.glyph.scale.x.is_finite() && g.glyph.scale.y.is_finite()
            && (g.glyph.scale.x as u32) <= crate::MAX_ATLAS_DIMENSION
            && (g.glyph.scale.y as u32) <= crate::MAX_ATLAS_DIMENSION
    })
}

/// Relies on `GlyphBrushBuilder::using_font`, `initial_cache_size`,
/// `section_hasher` and `build`: the built engine holds exactly the one given
/// font and a logical texture of exactly the given dimensions.
#[verifier::external_body]
pub fn cache_build(font: glyph_brush::ab_glyph::FontArc, width: u32, height: u32) -> (b: CacheBrush)
    ensures
        cache_dims(b) == (width, height),
        cache_fonts_list(b) == seq![font],
        cache_queued_sections(b) == 0,
        cache_pre_positioned(b) == 0,
        cache_fonts_ok(b),
{
    let inner = glyph_brush::GlyphBrushBuilder::using_font(font)
        .initial_cache_size((width, height))
        .section_hasher(std::collections::hash_map::RandomState::new())
        .build();
    CacheBrush { inner }
}

/// Relies on `GlyphBrush::texture_dimensions`: returns the logical texture
/// dimensions.
#[verifier::external_body]
pub fn cache_texture_dimensions(b: &CacheBrush) -> (r: (u32, u32))
    ensures
        r == cache_dims(*b),
{
    b.inner.texture_dimensions()
}

/// Relies on `GlyphBrush::resize_texture`: rebuilds the engine's logical
/// texture cache with exactly the new dimensions; fonts are untouched.
#[verifier::external_body]
pub fn cache_resize_texture(b: &mut CacheBrush, new_width: u32, new_height: u32)
    ensures
        cache_dims(*final(b)) == (new_width, new_height),
        cache_fonts_list(*final(b)) == cache_fonts_list(*old(b)),
        cache_fonts_ok(*old(b)) ==> cache_fonts_ok(*final(b)),
{
    b.inner.resize_texture(new_width, new_height)
}

/// Relies on `GlyphBrush::add_font`: pushes the font and returns an id whose
/// index is the previous font count; texture dimensions are untouched.
#[verifier::external_body]
pub fn cache_add_font(b: &mut CacheBrush, font: glyph_brush::ab_glyph::FontArc) -> (id: glyph_brush::FontId)
    ensures
        id.0 == cache_fonts_list(*old(b)).len(),
        cache_fonts_list(*final(b)) == cache_fonts_list(*old(b)).push(font),
        cache_dims(*final(b)) == cache_dims(*old(b)),
        cache_fonts_ok(*old(b)) ==> cache_fonts_ok(*final(b)),
{
    b.inner.add_font(font)
}

/// Relies on `GlyphBrush::fonts`: returns a clone of the engine's font
/// list, in insertion order.
#[verifier::external_body]
pub fn cache_fonts(b: &CacheBrush) -> (r: Vec<glyph_brush::ab_glyph::FontArc>)
    ensures
        r@ == cache_fonts_list(*b),
{
    glyph_brush::GlyphCruncher::fonts(&b.inner).to_vec()
}

/// Relies on `GlyphBrush::queue`: records the section for the next processing
/// step. Only sections whose texts name fonts the engine holds may be queued
/// (the engine's layout step indexes its font list by those ids).
#[verifier::external_body]
pub fn cache_queue(b: &mut CacheBrush, section: &glyph_brush::OwnedSection<glyph_brush::Extra>)
    requires
        section_fonts_below(*section, cache_fonts_list(*old(b)).len() as int),
        section_scales_ok(*section),
        cache_fonts_ok(*old(b)),
    ensures
        cache_dims(*final(b)) == cache_dims(*old(b)),
        cache_fonts_list(*final(b)) == cache_fonts_list(*old(b)),
        cache_fonts_ok(*final(b)),
        cache_queued_sections(*final(b)) == cache_queued_sections(*old(b)) + 1,
        cache_pre_positioned(*final(b)) == cache_pre_positioned(*old(b)),
        cache_marked(*final(b), *section),
{
    b.inner.queue(section.to_borrowed())
}

/// Relies on `GlyphBrush::queue_custom_layout`: as [`cache_queue`], with the
/// given layout in place of the section's own.
#[verifier::external_body]
pub fn cache_queue_custom_layout(
    b: &mut CacheBrush,
    section: &glyph_brush::OwnedSection<glyph_brush::Extra>,
    layout: &LayoutParam,
)
    requires
        section_fonts_below(*section, cache_fonts_list(*old(b)).len() as int),
        section_scales_ok(*section),
        cache_fonts_ok(*old(b)),
    ensures
        cache_dims(*final(b)) == cache_dims(*old(b)),
        cache_fonts_list(*final(b)) == cache_fonts_list(*old(b)),
        cache_fonts_ok(*final(b)),
        cache_queued_sections(*final(b)) == cache_queued_sections(*old(b)) + 1,
        cache_pre_positioned(*final(b)) == cache_pre_positioned(*old(b)),
        cache_marked_custom(*final(b), *section, *layout),
{
    b.inner.queue_custom_layout(section.to_borrowed(), &layout.inner)
}

/// Relies on `GlyphBrush::queue_pre_positioned`: records already-positioned
/// glyphs for the next processing step. Each glyph's font id and extra index
/// are dereferenced by that step, so they must be in range.
#[verifier::external_body]
pub fn cache_queue_pre_positioned(
    b: &mut CacheBrush,
    glyphs: Vec<glyph_brush::SectionGlyph>,
    extra: Vec<glyph_brush::Extra>,
    bounds: glyph_brush::ab_glyph::Rect,
)
    requires
        pre_positioned_ok(glyphs@, cache_fonts_list(*old(b)).len() as int, extra@.len() as int),
        cache_fonts_ok(*old(b)),
    ensures
        cache_dims(*final(b)) == cache_dims(*old(b)),
        cache_fonts_list(*final(b)) == cache_fonts_list(*old(b)),
        cache_fonts_ok(*final(b)),
        cache_pre_positioned(*final(b)) == cache_pre_positioned(*old(b)) + 1,
        cache_queued_sections(*final(b)) == cache_queued_sections(*old(b)),
{
    b.inner.queue_pre_positioned(glyphs, extra, bounds)
}

/// Relies on `GlyphBrush::keep_cached`: marks the section as used this frame
/// so its cached layout survives the next processing step.
#[verifier::external_body]
pub fn cache_keep_cached(b: &mut CacheBrush, section: &glyph_brush::OwnedSection<glyph_brush::Extra>)
    requires
        section_fonts_below(*section, cache_fonts_list(*old(b)).len() as int),
        cache_fonts_ok(*old(b)),
    ensures
        cache_dims(*final(b)) == cache_dims(*old(b)),
        cache_fonts_list(*final(b)) == cache_fonts_list(*old(b)),
        cache_fonts_ok(*final(b)),
        cache_marked(*final(b), *section),
{
    b.inner.keep_cached(section.to_borrowed())
}

/// Relies on `GlyphBrush::keep_cached_custom_layout`: as
/// [`cache_keep_cached`], with the given layout in place of the section's own.
#[verifier::external_body]
pub fn cache_keep_cached_custom_layout(
    b: &mut CacheBrush,
    section: &glyph_brush::OwnedSection<glyph_brush::Extra>,
    layout: &LayoutParam,
)
    requires
        section_fonts_below(*section, cache_fonts_list(*old(b)).len() as int),
        cache_fonts_ok(*old(b)),
    ensures
        cache_dims(*final(b)) == cache_dims(*old(b)),
        cache_fonts_list(*final(b)) == cache_fonts_list(*old(b)),
        cache_fonts_ok(*final(b)),
        cache_marked_custom(*final(b), *section, *layout),
{
    b.inner.keep_cached_custom_layout(section.to_borrowed(), &layout.inner)
}

/// Relies on `GlyphBrush::process_queued`, whose source shows, for one
/// processing step:
/// - the logical texture dimensions and the font list never change, and on
///   a successful step the queued sections and pre-positioned batches are
///   consumed (the frame cleanup runs only on success);
/// - every atlas update it reports lies inside those dimensions and carries
///   one byte per texel (the draw cache packs glyph rectangles into rows that
///   fit its width and height);
/// - on "redraw" and on "texture too small" it reports no atlas updates
///   (updates are only written on a successful caching pass);
/// - on "texture too small" it suggests exactly double the current
///   dimensions (the dimension bound below keeps that doubling from
///   overflowing the engine's 32-bit arithmetic).
///
/// The outcome itself depends on the engine's internal caches, so nothing is
/// promised about which variant comes back; the driver handles every one.
/// The per-glyph conversion handed to the engine only copies the engine's own
/// vertex fields into a [`Quad`].
///
/// The dimension bound and the scale screening in the queueing contracts
/// keep the engine's 32-bit texel arithmetic in range for fonts whose
/// outline bounds are proportionate to their em box; what a user-written
/// font implementation reports is beyond what these contracts can see.
#[verifier::external_body]
pub fn cache_process_queued(b: &mut CacheBrush) -> (r: (Vec<Patch>, ProcessOutcome))
    requires
        cache_fonts_ok(*old(b)),
        cache_dims(*old(b)).0 <= crate::MAX_ATLAS_DIMENSION,
        cache_dims(*old(b)).1 <= crate::MAX_ATLAS_DIMENSION,
    ensures
        cache_dims(*final(b)) == cache_dims(*old(b)),
        cache_fonts_list(*final(b)) == cache_fonts_list(*old(b)),
        cache_fonts_ok(*final(b)),
        forall|i: int| 0 <= i < r.0@.len() ==> (#[trigger] r.0@[i]).fits(cache_dims(*old(b))),
        !(r.1 is Draw) ==> r.0@.len() == 0,
        r.1 matches ProcessOutcome::TextureTooSmall { suggested_width, suggested_height } ==> {
            &&& suggested_width == cache_dims(*old(b)).0 * 2
            &&& suggested_height == cache_dims(*old(b)).1 * 2
        },
        !(r.1 is TextureTooSmall) ==> {
            &&& cache_queued_sections(*final(b)) == 0
            &&& cache_pre_positioned(*final(b)) == 0
        },
{
    let mut patches: Vec<Patch> = Vec::new();
    let action = b.inner.process_queued(
        |rect: glyph_brush::Rectangle<u32>, data: &[u8]| patches.push(Patch {
            x: rect.min[0], y: rect.min[1],
            width: rect.width(), height: rect.height(),
            data: data.to_vec(),
        }),
        |gv: glyph_brush::GlyphVertex| Quad {
            tex_coords: gv.tex_coords, pixel_coords: gv.pixel_coords,
            bounds: gv.bounds, extra: *gv.extra,
        },
    );
    (patches, convert_outcome(action))
}

/// Relies on the engine's action and error types: maps each variant to the
/// corresponding [`ProcessOutcome`], moving its fields.
#[verifier::external_body]
fn convert_outcome(
    action: Result<glyph_brush::BrushAction<Quad>, glyph_brush::BrushError>,
) -> ProcessOutcome {
    match action {
        Ok(glyph_brush::BrushAction::Draw(quads)) => ProcessOutcome::Draw(quads),
        Ok(glyph_brush::BrushAction::ReDraw) => ProcessOutcome::ReDraw,
        Err(glyph_brush::BrushError::TextureTooSmall { suggested }) => {
            ProcessOutcome::TextureTooSmall {
                suggested_width: suggested.0,
                suggested_height: suggested.1,
            }
        },
    }
}

/// Relies on `GlyphCruncher::glyphs_custom_layout`: computes (and caches) the
/// positioned glyphs of the section under the given layout, a deterministic
/// function of the engine state, the section and the layout, named
/// [`glyph_layout`]; the section is then retained through the next
/// processing step.
#[verifier::external_body]
pub fn cache_glyphs_custom_layout(
    b: &mut CacheBrush,
    section: &glyph_brush::OwnedSection<glyph_brush::Extra>,
    layout: &LayoutParam,
) -> (r: Vec<glyph_brush::SectionGlyph>)
    requires
        section_fonts_below(*section, cache_fonts_list(*old(b)).len() as int),
        section_scales_ok(*section),
        cache_fonts_ok(*old(b)),
    ensures
        r@ == glyph_layout(*old(b), *section, *layout),
        cache_dims(*final(b)) == cache_dims(*old(b)),
        cache_fonts_list(*final(b)) == cache_fonts_list(*old(b)),
        cache_fonts_ok(*final(b)),
        cache_marked_custom(*final(b), *section, *layout),
{
    glyph_brush::GlyphCruncher::glyphs_custom_layout(&mut b.inner, section.to_borrowed(), &layout.inner)
        .cloned()
        .collect()
}

/// Relies on `GlyphCruncher::glyph_bounds_custom_layout`: the bounding box of
/// the section's glyphs under the given layout, if it has any — a
/// deterministic function of the engine state, the section and the layout,
/// named [`glyph_bounds`]; the section is then retained through the next
/// processing step.
#[verifier::external_body]
pub fn cache_glyph_bounds_custom_layout(
    b: &mut CacheBrush,
    section: &glyph_brush::OwnedSection<glyph_brush::Extra>,
    layout: &LayoutParam,
) -> (r: Option<glyph_brush::ab_glyph::Rect>)
    requires
        section_fonts_below(*section, cache_fonts_list(*old(b)).len() as int),
        section_scales_ok(*section),
        cache_fonts_ok(*old(b)),
    ensures
        r == glyph_bounds(*old(b), *section, *layout),
        cache_dims(*final(b)) == cache_dims(*old(b)),
        cache_fonts_list(*final(b)) == cache_fonts_list(*old(b)),
        cache_fonts_ok(*final(b)),
        cache_marked_custom(*final(b), *section, *layout),
{
    glyph_brush::GlyphCruncher::glyph_bounds_custom_layout(&mut b.inner, section.to_borrowed(), &layout.inner)
}

} // verus!
