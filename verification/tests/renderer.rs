use glow_glyph::builder::GlyphBrushBuilder;
use glow_glyph::cache::cache_texture_dimensions;
use glow_glyph::pipeline::{Command, Transform};
use glow_glyph::region::Region;
use glow_glyph::{resize_target, GlyphBrush};
use glyph_brush::ab_glyph;
use glyph_brush::{OwnedSection, OwnedText};

/// A hand-written font holding one glyph: a square of 500x500 font units
/// (half the 1000-unit em), so a glyph at pixel scale `s` rasterizes to
/// roughly `s/2` by `s/2` pixels.
struct SquareGlyphFont;

impl ab_glyph::Font for SquareGlyphFont {
    fn units_per_em(&self) -> Option<f32> {
        Some(1000.0)
    }
    fn ascent_unscaled(&self) -> f32 {
        800.0
    }
    fn descent_unscaled(&self) -> f32 {
        -200.0
    }
    fn line_gap_unscaled(&self) -> f32 {
        0.0
    }
    fn glyph_id(&self, _c: char) -> ab_glyph::GlyphId {
        ab_glyph::GlyphId(1)
    }
    fn h_advance_unscaled(&self, _: ab_glyph::GlyphId) -> f32 {
        600.0
    }
    fn h_side_bearing_unscaled(&self, _: ab_glyph::GlyphId) -> f32 {
        0.0
    }
    fn v_advance_unscaled(&self, _: ab_glyph::GlyphId) -> f32 {
        1000.0
    }
    fn v_side_bearing_unscaled(&self, _: ab_glyph::GlyphId) -> f32 {
        0.0
    }
    fn kern_unscaled(&self, _: ab_glyph::GlyphId, _: ab_glyph::GlyphId) -> f32 {
        0.0
    }
    fn outline(&self, id: ab_glyph::GlyphId) -> Option<ab_glyph::Outline> {
        if id.0 == 0 {
            return None;
        }
        let p = ab_glyph::point;
        Some(ab_glyph::Outline {
            // min holds (x_min, y_max), max holds (x_max, y_min): font space
            // has y pointing up.
            bounds: ab_glyph::Rect { min: p(0.0, 500.0), max: p(500.0, 0.0) },
            curves: vec![
                ab_glyph::OutlineCurve::Line(p(0.0, 0.0), p(500.0, 0.0)),
                ab_glyph::OutlineCurve::Line(p(500.0, 0.0), p(500.0, 500.0)),
                ab_glyph::OutlineCurve::Line(p(500.0, 500.0), p(0.0, 500.0)),
                ab_glyph::OutlineCurve::Line(p(0.0, 500.0), p(0.0, 0.0)),
            ],
        })
    }
    fn glyph_count(&self) -> usize {
        2
    }
    fn codepoint_ids(&self) -> ab_glyph::CodepointIdIter<'_> {
        panic!("the cache engine never enumerates codepoints")
    }
    fn glyph_raster_image2(
        &self,
        _: ab_glyph::GlyphId,
        _: u16,
    ) -> Option<ab_glyph::v2::GlyphImage<'_>> {
        None
    }
}

fn square_font() -> ab_glyph::FontArc {
    ab_glyph::FontArc::new(SquareGlyphFont)
}

fn brush(major: u32, max_size: u32, width: u32, height: u32) -> GlyphBrush {
    GlyphBrushBuilder::using_font(square_font())
        .initial_cache_size((width, height))
        .build(major, max_size)
}

/// A section whose single text rasterizes to about `scale / 2` pixels square.
fn section(scale: f32) -> OwnedSection {
    OwnedSection::default().add_text(OwnedText::new("A").with_scale(scale))
}

fn count_patches(commands: &[Command]) -> usize {
    commands.iter().filter(|c| matches!(c, Command::PatchAtlas { .. })).count()
}

fn count_grows(commands: &[Command]) -> usize {
    commands.iter().filter(|c| matches!(c, Command::GrowAtlas { .. })).count()
}

fn count_uploads(commands: &[Command]) -> usize {
    commands.iter().filter(|c| matches!(c, Command::UploadVertices { .. })).count()
}

#[test]
fn clamp_prefers_hardware_limit() {
    let target = resize_target((5000, 5000), 4096, (512, 512));
    assert_eq!(target, (4096, 4096));
}

#[test]
fn clamp_leaves_suggestion_once_at_limit() {
    let target = resize_target((5000, 5000), 4096, (4096, 4096));
    assert_eq!(target, (5000, 5000));
}

#[test]
fn clamp_leaves_suggestion_within_limit() {
    let target = resize_target((512, 512), 4096, (256, 256));
    assert_eq!(target, (512, 512));
}

#[test]
fn clamp_acts_when_one_axis_overflows() {
    let target = resize_target((5000, 100), 4096, (512, 512));
    assert_eq!(target, (4096, 4096));
}

#[test]
fn tier_selection_by_major_version() {
    assert!(matches!(brush(1, 4096, 64, 64), GlyphBrush::Compatibility { .. }));
    assert!(matches!(brush(2, 4096, 64, 64), GlyphBrush::Compatibility { .. }));
    assert!(matches!(brush(3, 4096, 64, 64), GlyphBrush::Core { .. }));
    assert!(matches!(brush(4, 4096, 64, 64), GlyphBrush::Core { .. }));
}

#[test]
fn tier_is_stable_across_activity() {
    let mut gb = brush(3, 4096, 64, 64);
    gb.queue(&section(40.0));
    gb.draw_queued(800, 600).unwrap();
    let _ = gb.take_commands();
    gb.queue(&section(40.0));
    gb.draw_queued(800, 600).unwrap();
    assert!(matches!(gb, GlyphBrush::Core { .. }));
}

#[test]
fn first_draw_patches_once_and_uploads_one_quad() {
    let mut gb = brush(3, 4096, 64, 64);
    gb.queue(&section(40.0));
    gb.draw_queued(800, 600).unwrap();
    let commands = gb.take_commands();

    assert_eq!(count_grows(&commands), 0);
    assert_eq!(count_patches(&commands), 1);
    assert_eq!(count_uploads(&commands), 1);
    assert_eq!(commands.len(), 3);
    assert!(matches!(commands[0], Command::PatchAtlas { .. }));
    match &commands[1] {
        Command::UploadVertices { quads } => assert_eq!(quads.len(), 1),
        other => panic!("expected an upload, got {:?}", command_name(other)),
    }
    assert!(matches!(commands[2], Command::Draw { .. }));
    assert_eq!(gb.texture_dimensions(), (64, 64));
}

fn command_name(c: &Command) -> &'static str {
    match c {
        Command::PatchAtlas { .. } => "PatchAtlas",
        Command::GrowAtlas { .. } => "GrowAtlas",
        Command::UploadVertices { .. } => "UploadVertices",
        Command::Draw { .. } => "Draw",
    }
}

#[test]
fn redrawing_same_content_is_free() {
    let mut gb = brush(3, 4096, 64, 64);
    gb.queue(&section(40.0));
    gb.draw_queued(800, 600).unwrap();
    let _ = gb.take_commands();

    // The same content again: the engine reports a redraw, so the renderer
    // records no atlas patches and no vertex upload, only the draw call.
    gb.queue(&section(40.0));
    gb.draw_queued(800, 600).unwrap();
    let commands = gb.take_commands();
    assert_eq!(commands.len(), 1);
    assert!(matches!(commands[0], Command::Draw { .. }));
}

#[test]
fn patch_lies_within_atlas_and_carries_one_byte_per_texel() {
    let mut gb = brush(3, 4096, 64, 64);
    gb.queue(&section(40.0));
    gb.draw_queued(800, 600).unwrap();
    let commands = gb.take_commands();
    match &commands[0] {
        Command::PatchAtlas { x, y, width, height, data } => {
            assert!(x + width <= 64);
            assert!(y + height <= 64);
            assert_eq!(data.len(), (width * height) as usize);
            assert!(data.iter().any(|&b| b > 0), "the glyph rasterized to nothing");
        }
        other => panic!("expected a patch, got {}", command_name(other)),
    }
}

#[test]
fn atlas_grows_until_the_glyph_fits() {
    // A 20x20 pixel glyph (22x22 padded) cannot fit a 16x16 atlas: the engine
    // suggests doubling, the driver grows both sides once, and the retry
    // succeeds.
    let mut gb = brush(3, 4096, 16, 16);
    gb.queue(&section(40.0));
    gb.draw_queued(800, 600).unwrap();
    let commands = gb.take_commands();

    assert_eq!(count_grows(&commands), 1);
    match &commands[0] {
        Command::GrowAtlas { old_width, old_height, width, height } => {
            assert_eq!((*old_width, *old_height), (16, 16));
            assert_eq!((*width, *height), (32, 32));
        }
        other => panic!("expected a grow, got {}", command_name(other)),
    }
    assert_eq!(count_uploads(&commands), 1);
    assert_eq!(count_patches(&commands), 1);
    assert_eq!(gb.texture_dimensions(), (32, 32));
    // Final dimensions cover the padded glyph bounding box.
    assert!(gb.texture_dimensions().0 >= 22 && gb.texture_dimensions().1 >= 22);
}

#[test]
fn growth_is_clamped_to_the_hardware_limit() {
    // Doubling 16 gives 32, above the limit of 24, while the atlas still has
    // room to grow: the driver must clamp the target to (24, 24).
    let mut gb = brush(3, 24, 16, 16);
    gb.queue(&section(40.0));
    gb.draw_queued(800, 600).unwrap();
    let commands = gb.take_commands();

    assert_eq!(count_grows(&commands), 1);
    match &commands[0] {
        Command::GrowAtlas { width, height, .. } => assert_eq!((*width, *height), (24, 24)),
        other => panic!("expected a grow, got {}", command_name(other)),
    }
    assert_eq!(gb.texture_dimensions(), (24, 24));
}

#[test]
fn suggestion_passes_unclamped_once_at_the_limit() {
    // The atlas already stands at the hardware limit on both axes, so the
    // engine's suggestion goes through unmodified even though it exceeds the
    // limit.
    let mut gb = brush(3, 24, 24, 24);
    gb.queue(&section(52.0));
    gb.draw_queued(800, 600).unwrap();
    let commands = gb.take_commands();

    assert_eq!(count_grows(&commands), 1);
    match &commands[0] {
        Command::GrowAtlas { width, height, .. } => assert_eq!((*width, *height), (48, 48)),
        other => panic!("expected a grow, got {}", command_name(other)),
    }
    assert_eq!(gb.texture_dimensions(), (48, 48));
}

#[test]
fn atlas_and_cache_dimensions_agree_after_drawing() {
    let mut gb = brush(3, 4096, 16, 16);
    gb.queue(&section(40.0));
    gb.draw_queued(800, 600).unwrap();
    gb.queue(&section(40.0));
    gb.queue(&section(52.0));
    gb.draw_queued(800, 600).unwrap();

    let atlas = gb.texture_dimensions();
    match &gb {
        GlyphBrush::Core { glyph_brush, .. } => {
            assert_eq!(atlas, cache_texture_dimensions(glyph_brush));
        }
        GlyphBrush::Compatibility { glyph_brush, .. } => {
            assert_eq!(atlas, cache_texture_dimensions(glyph_brush));
        }
    }
}

#[test]
fn default_transform_is_the_orthographic_projection() {
    let mut gb = brush(2, 4096, 64, 64);
    gb.draw_queued(800, 600).unwrap();
    let commands = gb.take_commands();
    match commands.last().unwrap() {
        Command::Draw { transform, scissor } => {
            assert!(matches!(
                transform,
                Transform::Orthographic { width: 800, height: 600 }
            ));
            assert!(scissor.is_none());
        }
        other => panic!("expected a draw, got {}", command_name(other)),
    }
}

#[test]
fn scissor_region_is_carried_to_the_draw_call() {
    let mut gb = brush(3, 4096, 64, 64);
    let cells = [1.0f32; 16].map(f32::to_bits);
    let region = Region { x: 10, y: 20, width: 30, height: 40 };
    gb.draw_queued_with_transform_and_scissoring(Transform::Matrix { cells }, region).unwrap();
    let commands = gb.take_commands();
    match commands.last().unwrap() {
        Command::Draw { transform, scissor } => {
            assert_eq!(*scissor, Some(region));
            match transform {
                Transform::Matrix { cells: c } => assert_eq!(c[0], 1.0f32.to_bits()),
                Transform::Orthographic { .. } => panic!("expected the given matrix"),
            }
        }
        other => panic!("expected a draw, got {}", command_name(other)),
    }
}

#[test]
fn drawing_nothing_uploads_an_empty_batch() {
    let mut gb = brush(3, 4096, 64, 64);
    gb.draw_queued(800, 600).unwrap();
    let commands = gb.take_commands();
    assert_eq!(count_patches(&commands), 0);
    assert_eq!(count_grows(&commands), 0);
    match &commands[0] {
        Command::UploadVertices { quads } => assert_eq!(quads.len(), 0),
        other => panic!("expected an upload, got {}", command_name(other)),
    }
    assert!(matches!(commands[1], Command::Draw { .. }));
}

#[test]
fn added_fonts_get_consecutive_ids() {
    let mut gb = brush(3, 4096, 64, 64);
    assert_eq!(gb.fonts().len(), 1);
    let id = gb.add_font(square_font());
    assert_eq!(id.0, 1);
    assert_eq!(gb.fonts().len(), 2);

    let two_font_section = OwnedSection::default()
        .add_text(OwnedText::new("A").with_scale(40.0))
        .add_text(OwnedText::new("B").with_scale(30.0).with_font_id(id));
    assert!(gb.section_fits(&two_font_section));
    gb.queue(&two_font_section);
    gb.draw_queued(800, 600).unwrap();
}

#[test]
fn sections_naming_missing_fonts_do_not_fit() {
    let gb = brush(3, 4096, 64, 64);
    let stray = OwnedSection::default()
        .add_text(OwnedText::new("A").with_font_id(glyph_brush::FontId(7)));
    assert!(!gb.section_fits(&stray));
    assert!(gb.section_fits(&section(40.0)));
}

#[test]
fn pre_positioned_glyphs_are_checked_and_queued() {
    let mut gb = brush(3, 4096, 64, 64);
    let glyphs = vec![glyph_brush::SectionGlyph {
        section_index: 0,
        byte_index: 0,
        glyph: ab_glyph::Glyph {
            id: ab_glyph::GlyphId(1),
            scale: ab_glyph::PxScale::from(40.0),
            position: ab_glyph::point(10.0, 30.0),
        },
        font_id: glyph_brush::FontId(0),
    }];
    let extra = vec![glyph_brush::Extra::default()];
    let bounds = ab_glyph::Rect {
        min: ab_glyph::point(0.0, 0.0),
        max: ab_glyph::point(100.0, 100.0),
    };
    assert!(gb.pre_positioned_fits(&glyphs, &extra));

    let out_of_range = vec![glyph_brush::SectionGlyph {
        section_index: 3,
        byte_index: 0,
        glyph: ab_glyph::Glyph {
            id: ab_glyph::GlyphId(1),
            scale: ab_glyph::PxScale::from(40.0),
            position: ab_glyph::point(0.0, 0.0),
        },
        font_id: glyph_brush::FontId(0),
    }];
    assert!(!gb.pre_positioned_fits(&out_of_range, &extra));

    gb.queue_pre_positioned(glyphs, extra, bounds);
    gb.draw_queued(800, 600).unwrap();
    let commands = gb.take_commands();
    assert_eq!(count_uploads(&commands), 1);
    match &commands[commands.len() - 2] {
        Command::UploadVertices { quads } => assert_eq!(quads.len(), 1),
        other => panic!("expected an upload, got {}", command_name(other)),
    }
}

#[test]
fn keeping_cached_preserves_a_section_layout() {
    let mut gb = brush(3, 4096, 64, 64);
    gb.queue(&section(40.0));
    gb.draw_queued(800, 600).unwrap();
    let _ = gb.take_commands();

    // Keep the section alive one frame without drawing it, then queue it
    // again: its glyph is still cached, so no new patch is needed.
    gb.keep_cached(&section(40.0));
    gb.draw_queued(800, 600).unwrap();
    let _ = gb.take_commands();

    gb.queue(&section(40.0));
    gb.draw_queued(800, 600).unwrap();
    let commands = gb.take_commands();
    assert_eq!(count_patches(&commands), 0);
    assert_eq!(count_grows(&commands), 0);
}

#[test]
fn take_commands_leaves_the_buffer_empty() {
    let mut gb = brush(3, 4096, 64, 64);
    gb.queue(&section(40.0));
    gb.draw_queued(800, 600).unwrap();
    let first = gb.take_commands();
    assert!(!first.is_empty());
    let second = gb.take_commands();
    assert!(second.is_empty());
}

#[test]
fn glyph_bounds_cover_the_laid_out_text() {
    let mut gb = brush(3, 4096, 64, 64);
    let layout = glow_glyph::cache::layout_single_line(
        glyph_brush::BuiltInLineBreaker::UnicodeLineBreaker,
        glyph_brush::HorizontalAlign::Left,
        glyph_brush::VerticalAlign::Top,
    );
    let bounds = gb.glyph_bounds_custom_layout(&section(40.0), &layout);
    let rect = bounds.expect("one glyph was laid out");
    assert!(rect.width() > 0.0);
    assert!(rect.height() > 0.0);

    let glyphs = gb.glyphs_custom_layout(&section(40.0), &layout);
    assert_eq!(glyphs.len(), 1);
    assert_eq!(glyphs[0].font_id, glyph_brush::FontId(0));
}

#[test]
fn custom_layout_queue_draws_like_the_plain_one() {
    let mut gb = brush(3, 4096, 64, 64);
    let layout = glow_glyph::cache::layout_wrap(
        glyph_brush::BuiltInLineBreaker::UnicodeLineBreaker,
        glyph_brush::HorizontalAlign::Left,
        glyph_brush::VerticalAlign::Top,
    );
    gb.queue_custom_layout(&section(40.0), &layout);
    gb.draw_queued(800, 600).unwrap();
    let commands = gb.take_commands();
    assert_eq!(count_patches(&commands), 1);
    assert_eq!(count_uploads(&commands), 1);

    // Retaining under the same custom layout keeps the cache warm.
    gb.keep_cached_custom_layout(&section(40.0), &layout);
    gb.draw_queued(800, 600).unwrap();
    gb.queue_custom_layout(&section(40.0), &layout);
    gb.draw_queued(800, 600).unwrap();
    let commands = gb.take_commands();
    assert_eq!(count_patches(&commands), 0);
}

#[test]
fn compatibility_tier_runs_the_same_protocol() {
    let mut gb = brush(1, 4096, 16, 16);
    gb.queue(&section(40.0));
    gb.draw_queued(800, 600).unwrap();
    let commands = gb.take_commands();
    assert_eq!(count_grows(&commands), 1);
    assert_eq!(count_patches(&commands), 1);
    assert_eq!(count_uploads(&commands), 1);
    assert_eq!(gb.texture_dimensions(), (32, 32));
    assert!(matches!(gb, GlyphBrush::Compatibility { .. }));
}

#[test]
fn atlas_doubles_repeatedly_until_convergence() {
    // From a 4x4 atlas, a 22x22 padded glyph needs three doublings
    // (8, 16, 32) before it fits; every retry grows both sides in step.
    let mut gb = brush(3, 4096, 4, 4);
    gb.queue(&section(40.0));
    gb.draw_queued(800, 600).unwrap();
    let commands = gb.take_commands();

    let grows: Vec<(u32, u32, u32, u32)> = commands
        .iter()
        .filter_map(|c| match c {
            Command::GrowAtlas { old_width, old_height, width, height } => {
                Some((*old_width, *old_height, *width, *height))
            }
            _ => None,
        })
        .collect();
    assert_eq!(grows, vec![(4, 4, 8, 8), (8, 8, 16, 16), (16, 16, 32, 32)]);
    assert_eq!(count_uploads(&commands), 1);
    assert_eq!(count_patches(&commands), 1);
    assert_eq!(gb.texture_dimensions(), (32, 32));
}

#[test]
fn sections_with_absurd_scales_do_not_fit() {
    let gb = brush(3, 4096, 64, 64);
    assert!(!gb.section_fits(&section(f32::INFINITY)));
    assert!(!gb.section_fits(&section(f32::NAN)));
    assert!(!gb.section_fits(&section(1.0e9)));
    assert!(gb.section_fits(&section(65535.0)));
}

#[test]
fn pre_positioned_glyphs_with_absurd_scales_do_not_fit() {
    let gb = brush(3, 4096, 64, 64);
    let glyphs = vec![glyph_brush::SectionGlyph {
        section_index: 0,
        byte_index: 0,
        glyph: ab_glyph::Glyph {
            id: ab_glyph::GlyphId(1),
            scale: ab_glyph::PxScale::from(1.0e9),
            position: ab_glyph::point(0.0, 0.0),
        },
        font_id: glyph_brush::FontId(0),
    }];
    let extra = vec![glyph_brush::Extra::default()];
    assert!(!gb.pre_positioned_fits(&glyphs, &extra));
}
