//! Leaf rendering: glyph outlines, text runs, images, stroke conversion.

use velyst::font::{outline_glyph, Font, GlyphDef};
use velyst::geom::{Affine, BezPath, PathEl, RenderState, Vec2};
use velyst::leaf::{convert_fixed_stroke, render_image, render_text};
use velyst::num::ONE;
use velyst::paint::{Color, Paint};
use velyst::scene::{Cap, Join, Scene, SceneOp};
use velyst::tree::{
    DashPattern, FixedStroke, Glyph, ImageKind, PdfImage, PdfPage, RasterImage, SvgImage,
    TextItem,
};

fn square_outline(side: i64) -> BezPath {
    BezPath {
        els: vec![
            PathEl::MoveTo(Vec2 { x: 0, y: 0 }),
            PathEl::LineTo(Vec2 { x: side, y: 0 }),
            PathEl::LineTo(Vec2 { x: side, y: side }),
            PathEl::ClosePath,
        ],
    }
}

fn one_glyph_font() -> Font {
    Font {
        units_per_em: 1000,
        glyphs: vec![
            GlyphDef {
                bbox: Some(Vec2 { x: 500, y: 700 }),
                outline: Some(square_outline(500)),
            },
            GlyphDef { bbox: Some(Vec2 { x: 10, y: 10 }), outline: None },
        ],
    }
}

#[test]
fn outline_coordinates_are_scaled_during_emission() {
    let font = one_glyph_font();
    // A unit scale turns font units into fixed-point values directly.
    let path = outline_glyph(&font, 0, ONE).expect("glyph has an outline");
    assert_eq!(
        path.els,
        vec![
            PathEl::MoveTo(Vec2 { x: 0, y: 0 }),
            PathEl::LineTo(Vec2 { x: 500 * ONE, y: 0 }),
            PathEl::LineTo(Vec2 { x: 500 * ONE, y: 500 * ONE }),
            PathEl::ClosePath,
        ]
    );
    // A fractional scale truncates toward zero coordinate by coordinate.
    let path = outline_glyph(&font, 0, 3).expect("glyph has an outline");
    assert_eq!(path.els[1], PathEl::LineTo(Vec2 { x: 1500, y: 0 }));
}

#[test]
fn missing_outline_and_unknown_glyph_draw_nothing() {
    let font = one_glyph_font();
    assert!(outline_glyph(&font, 1, ONE).is_none());
    assert!(outline_glyph(&font, 99, ONE).is_none());
}

#[test]
fn text_run_accumulates_advances_and_flips_vertically() {
    let font = one_glyph_font();
    let text = TextItem {
        font,
        size: 2 * ONE,
        fill: Paint::Solid(Color { r: 0, g: 0, b: 0, a: 255 }),
        stroke: None,
        glyphs: vec![
            Glyph { id: 0, x_advance: ONE, x_offset: 0 },
            Glyph { id: 0, x_advance: ONE, x_offset: 0 },
        ],
    };
    let state = RenderState::new(Vec2 { x: 10 * ONE, y: 10 * ONE }, Affine::identity());
    let out = render_text(&text, state, Affine::identity());
    assert_eq!(out.glyphs.len(), 2);
    // First glyph sits at the origin, the second one em (two units) over;
    // both carry the vertical flip of font space into canvas space.
    assert_eq!(out.glyphs[0].transform.tx, 0);
    assert_eq!(out.glyphs[1].transform.tx, 2 * ONE);
    assert_eq!(out.glyphs[0].transform.yy, -ONE);
    assert_eq!(out.glyphs[1].transform.yy, -ONE);
    assert!(out.glyphs[0].fill.is_some());
}

#[test]
fn glyphs_without_outlines_are_skipped_in_runs() {
    let font = one_glyph_font();
    let text = TextItem {
        font,
        size: ONE,
        fill: Paint::Solid(Color { r: 0, g: 0, b: 0, a: 255 }),
        stroke: None,
        glyphs: vec![
            Glyph { id: 1, x_advance: ONE, x_offset: 0 },
            Glyph { id: 0, x_advance: ONE, x_offset: 0 },
        ],
    };
    let state = RenderState::new(Vec2 { x: 10 * ONE, y: 10 * ONE }, Affine::identity());
    let out = render_text(&text, state, Affine::identity());
    // The first glyph has no outline and is skipped, but its advance still
    // moves the second glyph.
    assert_eq!(out.glyphs.len(), 1);
    assert_eq!(out.glyphs[0].transform.tx, ONE);
}

#[test]
fn stroke_specification_is_copied_verbatim() {
    let stroke = FixedStroke {
        paint: Paint::Solid(Color { r: 0, g: 0, b: 0, a: 255 }),
        thickness: 3 * ONE,
        cap: Cap::Round,
        join: Join::Miter,
        dash: Some(DashPattern { array: vec![ONE, ONE / 2], phase: ONE / 4 }),
        miter_limit: 4 * ONE,
    };
    let style = convert_fixed_stroke(&stroke);
    assert_eq!(style.width, 3 * ONE);
    assert_eq!(style.start_cap, Cap::Round);
    assert_eq!(style.end_cap, Cap::Round);
    assert_eq!(style.join, Join::Miter);
    assert_eq!(style.miter_limit, 4 * ONE);
    assert_eq!(style.dash_pattern, vec![ONE, ONE / 2]);
    assert_eq!(style.dash_offset, ONE / 4);

    let undashed = FixedStroke { dash: None, ..stroke };
    let style = convert_fixed_stroke(&undashed);
    assert!(style.dash_pattern.is_empty());
    assert_eq!(style.dash_offset, 0);
}

#[test]
fn raster_image_scales_to_requested_size() {
    let image = ImageKind::Raster(RasterImage {
        width: 2,
        height: 4,
        data: vec![0u8; 2 * 4 * 4],
    });
    let out = render_image(&image, Vec2 { x: 8 * ONE, y: 8 * ONE }, Affine::identity());
    assert_eq!(out.scene.ops.len(), 1);
    match &out.scene.ops[0] {
        SceneOp::DrawImage { width, height, data, transform } => {
            assert_eq!((*width, *height), (2, 4));
            assert_eq!(data.len(), 32);
            assert_eq!(*transform, Affine::identity());
        }
        _ => unreachable!(),
    }
    // Non-uniform scale: 8 units / 2 px and 8 units / 4 px.
    assert_eq!(out.transform.xx, 4 * ONE);
    assert_eq!(out.transform.yy, 2 * ONE);
}

#[test]
fn nested_vector_image_keeps_its_sub_scene() {
    let mut sub = Scene::new();
    sub.pop_layer(); // any recognizable content
    let image = ImageKind::Svg(SvgImage {
        width: 2 * ONE,
        height: 2 * ONE,
        scene: sub,
    });
    let out = render_image(&image, Vec2 { x: 4 * ONE, y: 2 * ONE }, Affine::identity());
    assert_eq!(out.scene.ops, vec![SceneOp::PopLayer]);
    assert_eq!(out.transform.xx, 2 * ONE);
    assert_eq!(out.transform.yy, ONE);
}

#[test]
fn missing_embedded_page_degrades_to_empty_draw() {
    let image = ImageKind::Pdf(PdfImage { pages: Vec::new(), page_index: 3 });
    let out = render_image(&image, Vec2 { x: 4 * ONE, y: 4 * ONE }, Affine::identity());
    assert!(out.scene.ops.is_empty());
    assert_eq!(out.transform, Affine::identity());
}

#[test]
fn present_embedded_page_draws_its_pixels() {
    let image = ImageKind::Pdf(PdfImage {
        pages: vec![PdfPage {
            width: 3,
            height: 3,
            data: vec![1u8; 36],
            render_width: 2 * ONE,
            render_height: 2 * ONE,
        }],
        page_index: 0,
    });
    let out = render_image(&image, Vec2 { x: 4 * ONE, y: 4 * ONE }, Affine::identity());
    assert_eq!(out.scene.ops.len(), 1);
    assert!(matches!(&out.scene.ops[0], SceneOp::DrawImage { width: 3, height: 3, .. }));
    assert_eq!(out.transform.xx, 2 * ONE);
}
