use scene::atlas::{AtlasTextureId, AtlasTextureKind, AtlasTile, TileId};
use scene::geometry::{
    Bounds, ContentMask, Corners, DevicePixels, Edges, Hsla, Point, Scalar, ScaledPixels, Size,
};
use scene::primitive::{Keyed, MonochromeSprite, Quad};
use scene::paint_order::compare;
use scene::sort::sort;
use std::cmp::Ordering;

fn rect(x: i32, y: i32, width: i32, height: i32) -> Bounds<ScaledPixels> {
    Bounds {
        origin: Point { x: ScaledPixels(x), y: ScaledPixels(y) },
        size: Size { width: ScaledPixels(width), height: ScaledPixels(height) },
    }
}

fn no_color() -> Hsla {
    Hsla { h: Scalar(0), s: Scalar(0), l: Scalar(0), a: Scalar(0) }
}

fn quad(order: u32, x: i32) -> Quad {
    Quad {
        order,
        bounds: rect(x, 0, 10, 10),
        content_mask: ContentMask { bounds: rect(0, 0, 100, 100) },
        background: no_color(),
        border_color: no_color(),
        corner_radii: Corners {
            top_left: ScaledPixels(0),
            top_right: ScaledPixels(0),
            bottom_right: ScaledPixels(0),
            bottom_left: ScaledPixels(0),
        },
        border_widths: Edges {
            top: ScaledPixels(0),
            right: ScaledPixels(0),
            bottom: ScaledPixels(0),
            left: ScaledPixels(0),
        },
    }
}

fn glyph(order: u32, tile_id: u32, texture_index: u32) -> MonochromeSprite {
    MonochromeSprite {
        order,
        bounds: rect(0, 0, 8, 8),
        content_mask: ContentMask { bounds: rect(0, 0, 100, 100) },
        color: no_color(),
        tile: AtlasTile {
            texture_id: AtlasTextureId { index: texture_index, kind: AtlasTextureKind::Monochrome },
            tile_id: TileId(tile_id),
            bounds: Bounds {
                origin: Point { x: DevicePixels(0), y: DevicePixels(0) },
                size: Size { width: DevicePixels(8), height: DevicePixels(8) },
            },
        },
    }
}

#[test]
fn sort_orders_by_draw_order() {
    let mut quads = vec![quad(5, 0), quad(2, 1), quad(9, 2), quad(1, 3), quad(7, 4)];
    sort(&mut quads);
    let orders: Vec<u32> = quads.iter().map(|q| q.order).collect();
    assert_eq!(orders, vec![1, 2, 5, 7, 9]);
    let xs: Vec<i32> = quads.iter().map(|q| q.bounds.origin.x.0).collect();
    assert_eq!(xs, vec![3, 1, 0, 4, 2]);
}

#[test]
fn sort_keeps_every_primitive() {
    let mut quads = vec![quad(3, 0), quad(3, 1), quad(1, 2), quad(3, 3), quad(1, 4)];
    let before = quads.clone();
    sort(&mut quads);
    assert_eq!(quads.len(), before.len());
    for quad in &before {
        assert_eq!(
            quads.iter().filter(|q| *q == quad).count(),
            before.iter().filter(|q| *q == quad).count()
        );
    }
    let orders: Vec<u32> = quads.iter().map(|q| q.order).collect();
    assert_eq!(orders, vec![1, 1, 3, 3, 3]);
}

#[test]
fn sort_breaks_ties_between_sprites_by_tile() {
    let mut glyphs = vec![glyph(2, 9, 0), glyph(1, 7, 1), glyph(2, 3, 1), glyph(1, 4, 0)];
    sort(&mut glyphs);
    let keys: Vec<(u32, u32)> = glyphs.iter().map(|g| (g.order, g.tile.tile_id.0)).collect();
    assert_eq!(keys, vec![(1, 4), (1, 7), (2, 3), (2, 9)]);
}

#[test]
fn sort_leaves_short_and_sorted_lists_alone() {
    let mut none: Vec<Quad> = Vec::new();
    sort(&mut none);
    assert!(none.is_empty());
    let mut one = vec![quad(4, 0)];
    sort(&mut one);
    assert_eq!(one, vec![quad(4, 0)]);
    let mut sorted = vec![quad(1, 0), quad(2, 1), quad(3, 2)];
    sort(&mut sorted);
    assert_eq!(sorted, vec![quad(1, 0), quad(2, 1), quad(3, 2)]);
    let mut reversed = vec![quad(3, 0), quad(2, 1), quad(1, 2)];
    sort(&mut reversed);
    assert_eq!(reversed, vec![quad(1, 2), quad(2, 1), quad(3, 0)]);
}

#[test]
fn comparison_goes_by_order_then_tile() {
    assert_eq!(compare(&quad(1, 0), &quad(2, 0)), Ordering::Less);
    assert_eq!(compare(&quad(2, 0), &quad(1, 0)), Ordering::Greater);
    assert_eq!(compare(&quad(2, 5), &quad(2, 0)), Ordering::Equal);
    assert_eq!(compare(&glyph(1, 9, 0), &glyph(2, 1, 0)), Ordering::Less);
    assert_eq!(compare(&glyph(2, 1, 5), &glyph(2, 9, 0)), Ordering::Less);
    assert_eq!(compare(&glyph(2, 9, 0), &glyph(2, 1, 5)), Ordering::Greater);
    assert_eq!(compare(&glyph(2, 9, 0), &glyph(2, 9, 1)), Ordering::Equal);
}

#[test]
fn primitives_compare_by_paint_order() {
    assert!(quad(1, 9) < quad(2, 0));
    assert!(quad(3, 0) > quad(2, 9));
    assert!(quad(2, 0) <= quad(2, 9));
    assert_eq!(quad(2, 0).partial_cmp(&quad(2, 9)), Some(Ordering::Equal));
    assert!(glyph(2, 1, 0) < glyph(2, 2, 0));
    assert!(glyph(1, 9, 0) < glyph(2, 2, 0));
    assert_eq!(glyph(4, 4, 0).partial_cmp(&glyph(4, 4, 9)), Some(Ordering::Equal));
}

#[test]
fn default_quad_is_blank() {
    let blank = Quad::default();
    assert_eq!(blank.order, 0);
    assert_eq!(blank.bounds, rect(0, 0, 0, 0));
    assert_eq!(blank.content_mask, ContentMask { bounds: rect(0, 0, 0, 0) });
    assert_eq!(blank.background, no_color());
    assert_eq!(blank.border_color, no_color());
    assert_eq!(blank.corner_radii.bottom_left, ScaledPixels(0));
    assert_eq!(blank.border_widths.right, ScaledPixels(0));
}

#[test]
fn keys_report_what_batching_reads() {
    let sprite = glyph(6, 11, 3);
    assert_eq!(sprite.order(), 6);
    assert_eq!(sprite.tile_id(), 11);
    assert_eq!(
        sprite.texture_id(),
        Some(AtlasTextureId { index: 3, kind: AtlasTextureKind::Monochrome })
    );
    let quad = quad(8, 0);
    assert_eq!(quad.order(), 8);
    assert_eq!(quad.tile_id(), 0);
    assert_eq!(quad.texture_id(), None);
}
