use scene::geometry::{
    Bounds, ContentMask, Pixels, Point, ScaleFactor, ScaledPixels, Size,
};

fn scaled_box(x: i32, y: i32, width: i32, height: i32) -> Bounds<ScaledPixels> {
    Bounds {
        origin: Point { x: ScaledPixels(x), y: ScaledPixels(y) },
        size: Size { width: ScaledPixels(width), height: ScaledPixels(height) },
    }
}

fn logical_box(x: i32, y: i32, width: i32, height: i32) -> Bounds<Pixels> {
    Bounds {
        origin: Point { x: Pixels(x), y: Pixels(y) },
        size: Size { width: Pixels(width), height: Pixels(height) },
    }
}

#[test]
fn intersect_keeps_the_overlap() {
    let clipped = scaled_box(0, 0, 10, 10).intersect(&scaled_box(4, 6, 10, 10));
    assert_eq!(clipped, scaled_box(4, 6, 6, 4));
}

#[test]
fn intersect_is_the_same_either_way_round() {
    let a = scaled_box(-5, 2, 20, 7);
    let b = scaled_box(3, -4, 6, 30);
    assert_eq!(a.intersect(&b), b.intersect(&a));
    assert_eq!(a.intersect(&b), scaled_box(3, 2, 6, 7));
}

#[test]
fn intersect_of_boxes_apart_has_a_negative_extent() {
    let clipped = scaled_box(0, 0, 10, 10).intersect(&scaled_box(50, 60, 10, 10));
    assert_eq!(clipped, scaled_box(50, 60, -40, -50));
}

#[test]
fn intersect_of_touching_boxes_has_no_extent() {
    let clipped = scaled_box(0, 0, 10, 10).intersect(&scaled_box(10, 0, 10, 10));
    assert_eq!(clipped, scaled_box(10, 0, 0, 10));
}

#[test]
fn intersect_saturates() {
    let far_left = scaled_box(i32::MIN, 0, -5, 1);
    let far_right = scaled_box(i32::MAX, 0, 5, 1);
    let clipped = far_left.intersect(&far_right);
    assert_eq!(clipped.origin.x, ScaledPixels(i32::MAX));
    assert_eq!(clipped.size.width, ScaledPixels(i32::MIN));
    let wide = scaled_box(i32::MIN, 0, i32::MAX, 1);
    let wider = scaled_box(i32::MIN, 0, i32::MAX, 1);
    assert_eq!(wide.intersect(&wider), wide);
}

#[test]
fn union_is_the_box_around_both() {
    let joined = logical_box(0, 0, 4, 4).union(&logical_box(10, -2, 1, 3));
    assert_eq!(joined, logical_box(0, -2, 11, 6));
}

#[test]
fn union_with_a_point_inside_changes_nothing() {
    let around = logical_box(0, 0, 4, 4);
    assert_eq!(around.union(&logical_box(2, 3, 0, 0)), around);
}

#[test]
fn union_saturates() {
    let joined = logical_box(i32::MIN, 0, 0, 0).union(&logical_box(i32::MAX, 0, 0, 0));
    assert_eq!(joined, logical_box(i32::MIN, 0, i32::MAX, 0));
}

#[test]
fn scale_rounds_down() {
    assert_eq!(Pixels(3).scale(ScaleFactor(98304)), ScaledPixels(4));
    assert_eq!(Pixels(-3).scale(ScaleFactor(98304)), ScaledPixels(-5));
    assert_eq!(Pixels(7).scale(ScaleFactor(65536)), ScaledPixels(7));
    assert_eq!(Pixels(-7).scale(ScaleFactor(65536)), ScaledPixels(-7));
    assert_eq!(Pixels(7).scale(ScaleFactor(0)), ScaledPixels(0));
    assert_eq!(Pixels(-7).scale(ScaleFactor(1)), ScaledPixels(-1));
    assert_eq!(Pixels(1).scale(ScaleFactor(32768)), ScaledPixels(0));
    assert_eq!(Pixels(2).scale(ScaleFactor(32768)), ScaledPixels(1));
}

#[test]
fn scale_factor_applies_to_raw_coordinates() {
    assert_eq!(ScaleFactor(3 * 65536).apply(11), 33);
    assert_eq!(ScaleFactor(81920).apply(100), 125);
    assert_eq!(ScaleFactor(81920).apply(-100), -125);
    assert_eq!(ScaleFactor(81920).apply(-1), -2);
}

#[test]
fn scale_saturates() {
    assert_eq!(Pixels(i32::MAX).scale(ScaleFactor(2 * 65536)), ScaledPixels(i32::MAX));
    assert_eq!(Pixels(i32::MIN).scale(ScaleFactor(2 * 65536)), ScaledPixels(i32::MIN));
    assert_eq!(Pixels(i32::MIN).scale(ScaleFactor(u32::MAX)), ScaledPixels(i32::MIN));
    assert_eq!(Pixels(i32::MAX).scale(ScaleFactor(u32::MAX)), ScaledPixels(i32::MAX));
}

#[test]
fn boxes_and_masks_scale_corner_and_extent() {
    let logical = logical_box(1, -2, 3, 5);
    let scaled = logical.scale(ScaleFactor(98304));
    assert_eq!(scaled, scaled_box(1, -3, 4, 7));
    let mask = ContentMask { bounds: logical }.scale(ScaleFactor(98304));
    assert_eq!(mask, ContentMask { bounds: scaled });
    assert_eq!(logical.origin.scale(ScaleFactor(131072)), Point { x: ScaledPixels(2), y: ScaledPixels(-4) });
    assert_eq!(
        logical.size.scale(ScaleFactor(131072)),
        Size { width: ScaledPixels(6), height: ScaledPixels(10) }
    );
}
