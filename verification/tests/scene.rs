use scene::atlas::{AtlasTextureId, AtlasTextureKind, AtlasTile, TileId};
use scene::batch::{BatchIterator, PrimitiveBatch};
use scene::geometry::{
    Bounds, ContentMask, Corners, DevicePixels, Edges, Hsla, Pixels, Point, Scalar, ScaleFactor,
    ScaledPixels, Size,
};
use scene::order_index::OrderIndex;
use scene::path::{Path, PathId};
use scene::primitive::{
    MonochromeSprite, PolychromeSprite, Primitive, PrimitiveKind, Quad, Shadow, Surface, Underline,
};
use scene::primitive_batches::PrimitiveBatches;
use scene::scene::Scene;

fn rect(x: i32, y: i32, width: i32, height: i32) -> Bounds<ScaledPixels> {
    Bounds {
        origin: Point { x: ScaledPixels(x), y: ScaledPixels(y) },
        size: Size { width: ScaledPixels(width), height: ScaledPixels(height) },
    }
}

fn no_color() -> Hsla {
    Hsla { h: Scalar(0), s: Scalar(0), l: Scalar(0), a: Scalar(0) }
}

fn square_corners() -> Corners<ScaledPixels> {
    Corners {
        top_left: ScaledPixels(0),
        top_right: ScaledPixels(0),
        bottom_right: ScaledPixels(0),
        bottom_left: ScaledPixels(0),
    }
}

fn quad_in(bounds: Bounds<ScaledPixels>, mask: Bounds<ScaledPixels>) -> Quad {
    Quad {
        order: 0,
        bounds,
        content_mask: ContentMask { bounds: mask },
        background: no_color(),
        border_color: no_color(),
        corner_radii: square_corners(),
        border_widths: Edges {
            top: ScaledPixels(0),
            right: ScaledPixels(0),
            bottom: ScaledPixels(0),
            left: ScaledPixels(0),
        },
    }
}

fn quad() -> Quad {
    quad_in(rect(0, 0, 10, 10), rect(0, 0, 100, 100))
}

fn shadow() -> Shadow {
    Shadow {
        order: 0,
        bounds: rect(0, 0, 10, 10),
        corner_radii: square_corners(),
        content_mask: ContentMask { bounds: rect(0, 0, 100, 100) },
        color: no_color(),
        blur_radius: ScaledPixels(2),
        pad: 0,
    }
}

fn underline() -> Underline {
    Underline {
        order: 0,
        bounds: rect(0, 9, 10, 1),
        content_mask: ContentMask { bounds: rect(0, 0, 100, 100) },
        color: no_color(),
        thickness: ScaledPixels(1),
        wavy: false,
    }
}

fn surface() -> Surface {
    Surface {
        order: 0,
        bounds: rect(0, 0, 10, 10),
        content_mask: ContentMask { bounds: rect(0, 0, 100, 100) },
    }
}

fn texture(index: u32, kind: AtlasTextureKind) -> AtlasTextureId {
    AtlasTextureId { index, kind }
}

fn tile(texture_id: AtlasTextureId, tile_id: u32) -> AtlasTile {
    AtlasTile {
        texture_id,
        tile_id: TileId(tile_id),
        bounds: Bounds {
            origin: Point { x: DevicePixels(0), y: DevicePixels(0) },
            size: Size { width: DevicePixels(8), height: DevicePixels(8) },
        },
    }
}

fn glyph(texture_index: u32, tile_id: u32) -> MonochromeSprite {
    MonochromeSprite {
        order: 0,
        bounds: rect(0, 0, 8, 8),
        content_mask: ContentMask { bounds: rect(0, 0, 100, 100) },
        color: no_color(),
        tile: tile(texture(texture_index, AtlasTextureKind::Monochrome), tile_id),
    }
}

fn image(texture_index: u32, tile_id: u32) -> PolychromeSprite {
    PolychromeSprite {
        order: 0,
        bounds: rect(0, 0, 8, 8),
        content_mask: ContentMask { bounds: rect(0, 0, 100, 100) },
        corner_radii: square_corners(),
        tile: tile(texture(texture_index, AtlasTextureKind::Polychrome), tile_id),
        grayscale: false,
        pad: 0,
    }
}

fn scaled_path(x: i32) -> Path<ScaledPixels> {
    let mut path = Path::new(Point { x: Pixels(x), y: Pixels(0) });
    path.line_to(Point { x: Pixels(x + 10), y: Pixels(0) });
    path.line_to(Point { x: Pixels(x + 10), y: Pixels(10) });
    path.content_mask = ContentMask {
        bounds: Bounds {
            origin: Point { x: Pixels(0), y: Pixels(0) },
            size: Size { width: Pixels(1000), height: Pixels(1000) },
        },
    };
    path.scale(ScaleFactor(65536))
}

/// What a test reads of a batch: its kind, the texture of a sprite
/// batch, and the draw orders of its primitives.
#[derive(Debug, PartialEq, Eq)]
struct Seen {
    kind: PrimitiveKind,
    texture: Option<AtlasTextureId>,
    orders: Vec<u32>,
}

fn seen(batch: &PrimitiveBatch) -> Seen {
    match batch {
        PrimitiveBatch::Shadows(shadows) => Seen {
            kind: PrimitiveKind::Shadow,
            texture: None,
            orders: shadows.iter().map(|s| s.order).collect(),
        },
        PrimitiveBatch::Quads(quads) => Seen {
            kind: PrimitiveKind::Quad,
            texture: None,
            orders: quads.iter().map(|q| q.order).collect(),
        },
        PrimitiveBatch::Paths(paths) => Seen {
            kind: PrimitiveKind::Path,
            texture: None,
            orders: paths.iter().map(|p| p.order).collect(),
        },
        PrimitiveBatch::Underlines(underlines) => Seen {
            kind: PrimitiveKind::Underline,
            texture: None,
            orders: underlines.iter().map(|u| u.order).collect(),
        },
        PrimitiveBatch::MonochromeSprites { texture_id, sprites } => Seen {
            kind: PrimitiveKind::MonochromeSprite,
            texture: Some(*texture_id),
            orders: sprites.iter().map(|s| s.order).collect(),
        },
        PrimitiveBatch::PolychromeSprites { texture_id, sprites } => Seen {
            kind: PrimitiveKind::PolychromeSprite,
            texture: Some(*texture_id),
            orders: sprites.iter().map(|s| s.order).collect(),
        },
        PrimitiveBatch::Surfaces(surfaces) => Seen {
            kind: PrimitiveKind::Surface,
            texture: None,
            orders: surfaces.iter().map(|s| s.order).collect(),
        },
    }
}

fn drain(scene: &Scene) -> Vec<Seen> {
    let mut batches = scene.batches();
    let mut all = Vec::new();
    while let Some(batch) = batches.next() {
        all.push(seen(&batch));
    }
    all
}

fn plain(kind: PrimitiveKind, orders: &[u32]) -> Seen {
    Seen { kind, texture: None, orders: orders.to_vec() }
}

fn textured(kind: PrimitiveKind, texture: AtlasTextureId, orders: &[u32]) -> Seen {
    Seen { kind, texture: Some(texture), orders: orders.to_vec() }
}

#[test]
fn sprites_of_two_textures_around_a_quad_make_three_batches() {
    let a = texture(0, AtlasTextureKind::Monochrome);
    let b = texture(1, AtlasTextureKind::Monochrome);
    let mut scene = Scene::default();
    scene.push(glyph(0, 1));
    scene.push(glyph(0, 2));
    scene.push(quad());
    scene.push(glyph(1, 3));
    scene.finish();
    assert_eq!(
        drain(&scene),
        vec![
            textured(PrimitiveKind::MonochromeSprite, a, &[1, 2]),
            plain(PrimitiveKind::Quad, &[3]),
            textured(PrimitiveKind::MonochromeSprite, b, &[4]),
        ]
    );
}

#[test]
fn texture_change_splits_a_run_of_sprites() {
    let a = texture(0, AtlasTextureKind::Polychrome);
    let b = texture(7, AtlasTextureKind::Polychrome);
    let mut scene = Scene::default();
    scene.push(image(0, 1));
    scene.push(image(0, 2));
    scene.push(image(7, 3));
    scene.push(image(0, 4));
    scene.finish();
    assert_eq!(
        drain(&scene),
        vec![
            textured(PrimitiveKind::PolychromeSprite, a, &[1, 2]),
            textured(PrimitiveKind::PolychromeSprite, b, &[3]),
            textured(PrimitiveKind::PolychromeSprite, a, &[4]),
        ]
    );
}

#[test]
fn quad_outside_its_mask_is_dropped() {
    let mut scene = Scene::default();
    scene.push(quad());
    assert_eq!(scene.len(), 1);
    scene.push(quad_in(rect(0, 0, 10, 10), rect(50, 50, 10, 10)));
    assert_eq!(scene.len(), 1);
    scene.finish();
    assert_eq!(drain(&scene), vec![plain(PrimitiveKind::Quad, &[1])]);
}

#[test]
fn primitive_clipped_to_no_width_or_no_height_is_dropped() {
    let mut scene = Scene::default();
    scene.push(quad_in(rect(0, 0, 10, 10), rect(10, 0, 10, 10)));
    assert_eq!(scene.len(), 0);
    scene.push(quad_in(rect(0, 0, 10, 10), rect(0, 10, 10, 10)));
    assert_eq!(scene.len(), 0);
    scene.push(quad_in(rect(0, 0, 0, 10), rect(0, 0, 100, 100)));
    assert_eq!(scene.len(), 0);
    scene.push(quad_in(rect(0, 0, 10, -3), rect(0, 0, 100, 100)));
    assert_eq!(scene.len(), 0);
    scene.push(quad_in(rect(0, 0, 10, 10), rect(9, 9, 10, 10)));
    assert_eq!(scene.len(), 1);
    scene.finish();
    assert_eq!(drain(&scene), vec![plain(PrimitiveKind::Quad, &[1])]);
}

#[test]
fn dropped_primitive_takes_no_draw_order() {
    let mut scene = Scene::default();
    scene.push(quad());
    scene.push(quad_in(rect(0, 0, 10, 10), rect(50, 50, 10, 10)));
    scene.push(shadow());
    scene.finish();
    assert_eq!(
        drain(&scene),
        vec![plain(PrimitiveKind::Quad, &[1]), plain(PrimitiveKind::Shadow, &[2])]
    );
}

#[test]
fn draining_yields_every_visible_push() {
    let hidden = rect(500, 500, 1, 1);
    let mut scene = Scene::default();
    scene.push(shadow());
    scene.push(quad());
    scene.push(quad_in(rect(0, 0, 10, 10), hidden));
    scene.push(underline());
    scene.push(glyph(0, 1));
    scene.push(image(0, 1));
    scene.push(surface());
    scene.push(scaled_path(0));
    scene.push(quad_in(rect(0, 0, 10, 10), hidden));
    scene.push(quad());
    assert_eq!(scene.len(), 8);
    scene.finish();
    let yielded: usize = drain(&scene).iter().map(|batch| batch.orders.len()).sum();
    assert_eq!(yielded, 8);
}

#[test]
fn batches_of_a_kind_rebuild_its_list() {
    let mut scene = Scene::default();
    scene.push(quad());
    scene.push(quad());
    scene.push(shadow());
    scene.push(quad());
    scene.push(scaled_path(0));
    scene.push(scaled_path(5));
    scene.push(quad());
    scene.push(scaled_path(9));
    scene.finish();
    let batches = drain(&scene);
    let quads: Vec<u32> = batches
        .iter()
        .filter(|batch| batch.kind == PrimitiveKind::Quad)
        .flat_map(|batch| batch.orders.clone())
        .collect();
    assert_eq!(quads, vec![1, 2, 4, 7]);
    let paths: Vec<u32> = batches
        .iter()
        .filter(|batch| batch.kind == PrimitiveKind::Path)
        .flat_map(|batch| batch.orders.clone())
        .collect();
    assert_eq!(paths, vec![5, 6, 8]);
    let stored: Vec<u32> = scene.paths().iter().map(|path| path.order).collect();
    assert_eq!(paths, stored);
}

#[test]
fn neighbouring_batches_differ_in_kind_or_texture() {
    let mut scene = Scene::default();
    scene.push(glyph(0, 1));
    scene.push(glyph(0, 2));
    scene.push(glyph(1, 3));
    scene.push(quad());
    scene.push(quad());
    scene.push(glyph(1, 4));
    scene.push(shadow());
    scene.push(shadow());
    scene.push(image(1, 5));
    scene.finish();
    let batches = drain(&scene);
    assert_eq!(batches.len(), 6);
    for pair in batches.windows(2) {
        assert!(pair[0].kind != pair[1].kind || pair[0].texture != pair[1].texture);
    }
}

#[test]
fn batches_come_in_ascending_draw_order() {
    let mut scene = Scene::default();
    scene.push(surface());
    scene.push(quad());
    scene.push(underline());
    scene.push(quad());
    scene.push(shadow());
    scene.push(surface());
    scene.finish();
    assert_eq!(
        drain(&scene),
        vec![
            plain(PrimitiveKind::Surface, &[1]),
            plain(PrimitiveKind::Quad, &[2]),
            plain(PrimitiveKind::Underline, &[3]),
            plain(PrimitiveKind::Quad, &[4]),
            plain(PrimitiveKind::Shadow, &[5]),
            plain(PrimitiveKind::Surface, &[6]),
        ]
    );
}

#[test]
fn run_of_one_kind_is_one_batch() {
    let mut scene = Scene::default();
    for _ in 0..5 {
        scene.push(quad());
    }
    scene.finish();
    assert_eq!(drain(&scene), vec![plain(PrimitiveKind::Quad, &[1, 2, 3, 4, 5])]);
}

#[test]
fn empty_scene_has_no_batches() {
    let mut scene = Scene::default();
    scene.finish();
    assert_eq!(scene.len(), 0);
    assert!(scene.batches().next().is_none());
    assert!(scene.paths().is_empty());
}

#[test]
fn drained_iterator_stays_drained() {
    let mut scene = Scene::default();
    scene.push(quad());
    scene.finish();
    let mut batches = scene.batches();
    assert!(batches.next().is_some());
    assert!(batches.next().is_none());
    assert!(batches.next().is_none());
}

#[test]
fn clear_restores_a_fresh_scene() {
    let mut used = Scene::default();
    used.push(glyph(3, 1));
    used.push(scaled_path(4));
    used.push(quad());
    used.finish();
    assert_eq!(used.len(), 3);
    used.clear();
    assert_eq!(used.len(), 0);
    assert!(used.batches().next().is_none());
    assert!(used.paths().is_empty());

    let mut fresh = Scene::default();
    for scene in [&mut used, &mut fresh] {
        scene.push(scaled_path(1));
        scene.push(quad());
        scene.push(glyph(0, 1));
        scene.push(quad_in(rect(0, 0, 10, 10), rect(50, 50, 10, 10)));
        scene.push(glyph(1, 2));
        scene.finish();
    }
    assert_eq!(used.len(), fresh.len());
    assert_eq!(format!("{:?}", used.paths()), format!("{:?}", fresh.paths()));
    let mut of_used = used.batches();
    let mut of_fresh = fresh.batches();
    loop {
        let (a, b) = (of_used.next(), of_fresh.next());
        assert_eq!(format!("{:?}", a), format!("{:?}", b));
        if a.is_none() {
            break;
        }
    }
    assert_eq!(drain(&used).len(), 4);
}

#[test]
fn paths_are_numbered_in_the_sequence_of_pushes() {
    let mut scene = Scene::default();
    scene.push(scaled_path(0));
    scene.push(quad());
    scene.push(scaled_path(3));
    scene.push(scaled_path(6));
    scene.finish();
    let paths = scene.paths();
    assert_eq!(paths.len(), 3);
    assert_eq!(paths[0].id, PathId(0));
    assert_eq!(paths[1].id, PathId(1));
    assert_eq!(paths[2].id, PathId(2));
    assert_eq!(paths[0].order, 1);
    assert_eq!(paths[1].order, 3);
    assert_eq!(paths[2].order, 4);
    assert_eq!(paths[1].vertices.len(), 3);
}

#[test]
fn push_stamps_the_order_and_keeps_the_rest() {
    let mut scene = Scene::default();
    let mut submitted = glyph(2, 9);
    submitted.order = 77;
    scene.push(quad());
    scene.push(submitted);
    scene.finish();
    let mut batches = scene.batches();
    batches.next();
    match batches.next() {
        Some(PrimitiveBatch::MonochromeSprites { texture_id, sprites }) => {
            assert_eq!(texture_id, texture(2, AtlasTextureKind::Monochrome));
            assert_eq!(sprites.len(), 1);
            assert_eq!(sprites[0], MonochromeSprite { order: 2, ..submitted });
        }
        other => panic!("expected a batch of monochrome sprites, got {:?}", other),
    }
}

#[test]
fn push_takes_a_primitive_as_well_as_a_shape() {
    let mut scene = Scene::default();
    scene.push(Primitive::Quad(quad()));
    scene.push(Primitive::from(shadow()));
    scene.push(Primitive::Surface(surface()));
    assert_eq!(scene.len(), 3);
}

#[test]
fn primitive_reports_bounds_and_content_mask() {
    let quad = quad_in(rect(1, 2, 3, 4), rect(5, 6, 7, 8));
    let primitive = Primitive::from(quad);
    assert_eq!(*primitive.bounds(), rect(1, 2, 3, 4));
    assert_eq!(*primitive.content_mask(), ContentMask { bounds: rect(5, 6, 7, 8) });
    let path = Primitive::from(scaled_path(2));
    assert_eq!(*path.bounds(), rect(2, 0, 10, 10));
}

#[test]
fn equal_draw_orders_go_to_the_kind_of_lower_rank() {
    let shadows = [Shadow { order: 5, ..shadow() }];
    let quads = [Quad { order: 5, ..quad() }];
    let underlines = [Underline { order: 5, ..underline() }];
    let glyphs = [MonochromeSprite { order: 5, ..glyph(0, 1) }];
    let images = [PolychromeSprite { order: 5, ..image(0, 1) }];
    let surfaces = [Surface { order: 5, ..surface() }];
    let paths = [Path { order: 5, ..scaled_path(0) }];
    let mut batches =
        BatchIterator::new(&shadows, &quads, &paths, &underlines, &glyphs, &images, &surfaces);
    let mut kinds = Vec::new();
    while let Some(batch) = batches.next() {
        kinds.push(seen(&batch).kind);
    }
    assert_eq!(
        kinds,
        vec![
            PrimitiveKind::Shadow,
            PrimitiveKind::Quad,
            PrimitiveKind::Path,
            PrimitiveKind::Underline,
            PrimitiveKind::MonochromeSprite,
            PrimitiveKind::PolychromeSprite,
            PrimitiveKind::Surface,
        ]
    );
}

#[test]
fn run_stops_at_the_head_of_the_runner_up() {
    let quads = [
        Quad { order: 1, ..quad() },
        Quad { order: 2, ..quad() },
        Quad { order: 4, ..quad() },
        Quad { order: 6, ..quad() },
    ];
    let shadows = [Shadow { order: 4, ..shadow() }, Shadow { order: 5, ..shadow() }];
    let surfaces = [Surface { order: 3, ..surface() }];
    let mut batches = BatchIterator::new(&shadows, &quads, &[], &[], &[], &[], &surfaces);
    let mut all = Vec::new();
    while let Some(batch) = batches.next() {
        all.push(seen(&batch));
    }
    assert_eq!(
        all,
        vec![
            plain(PrimitiveKind::Quad, &[1, 2]),
            plain(PrimitiveKind::Surface, &[3]),
            plain(PrimitiveKind::Shadow, &[4]),
            plain(PrimitiveKind::Quad, &[4]),
            plain(PrimitiveKind::Shadow, &[5]),
            plain(PrimitiveKind::Quad, &[6]),
        ]
    );
}

#[test]
fn greatest_draw_order_is_not_mistaken_for_an_empty_list() {
    let quads = [Quad { order: u32::MAX, ..quad() }, Quad { order: u32::MAX, ..quad() }];
    let mut batches = BatchIterator::new(&[], &quads, &[], &[], &[], &[], &[]);
    match batches.next() {
        Some(PrimitiveBatch::Quads(run)) => assert_eq!(run.len(), 2),
        other => panic!("expected a batch of quads, got {:?}", other),
    }
    assert!(batches.next().is_none());
}

#[test]
fn kinds_win_ties_in_their_fixed_order() {
    let kinds = [
        PrimitiveKind::Shadow,
        PrimitiveKind::Quad,
        PrimitiveKind::Path,
        PrimitiveKind::Underline,
        PrimitiveKind::MonochromeSprite,
        PrimitiveKind::PolychromeSprite,
        PrimitiveKind::Surface,
    ];
    for (rank, kind) in kinds.iter().enumerate() {
        assert_eq!(kind.priority(), rank);
        assert_eq!(PrimitiveKind::from_priority(rank), *kind);
        for (other_rank, other) in kinds.iter().enumerate() {
            assert_eq!(kind.precedes(*other), rank < other_rank);
        }
    }
    assert_eq!(PrimitiveKind::default(), PrimitiveKind::Quad);
}

#[test]
fn order_index_counts_up_from_one() {
    let mut index = OrderIndex::new();
    assert_eq!(index.len(), 0);
    assert_eq!(index.insert(rect(0, 0, 1, 1)), 1);
    assert_eq!(index.insert(rect(50, 50, 1, 1)), 2);
    assert_eq!(index.insert(rect(0, 0, 1, 1)), 3);
    assert_eq!(index.len(), 3);
    index.clear();
    assert_eq!(index.len(), 0);
    assert_eq!(index.insert(rect(0, 0, 1, 1)), 1);
    assert_eq!(OrderIndex::default().len(), 0);
}

#[test]
fn order_index_keeps_the_box_of_every_draw_order() {
    let mut index = OrderIndex::new();
    assert_eq!(index.get(1), None);
    let first = index.insert(rect(0, 0, 1, 1));
    let second = index.insert(rect(50, 60, 7, 8));
    assert_eq!(index.get(first), Some(rect(0, 0, 1, 1)));
    assert_eq!(index.get(second), Some(rect(50, 60, 7, 8)));
    assert_eq!(index.get(0), None);
    assert_eq!(index.get(3), None);
    assert_eq!(index.get(u32::MAX), None);
    index.clear();
    assert_eq!(index.get(first), None);
}

#[test]
fn paths_compare_by_draw_order_alone() {
    let first = Path { order: 1, ..scaled_path(0) };
    let second = Path { order: 2, ..scaled_path(0) };
    let elsewhere = Path { order: 1, ..scaled_path(40) };
    assert!(first < second);
    assert!(first != second);
    assert!(first == elsewhere);
}

#[test]
fn neighbours_of_one_kind_and_texture_form_a_batch() {
    let primitives = vec![
        Primitive::from(quad()),
        Primitive::from(Quad { order: 8, ..quad() }),
        Primitive::from(glyph(0, 1)),
        Primitive::from(glyph(0, 2)),
        Primitive::from(glyph(1, 3)),
        Primitive::from(quad()),
        Primitive::from(scaled_path(0)),
        Primitive::from(Path { order: 3, ..scaled_path(5) }),
        Primitive::from(image(4, 1)),
        Primitive::from(shadow()),
        Primitive::from(shadow()),
        Primitive::from(underline()),
        Primitive::from(surface()),
        Primitive::from(surface()),
    ];
    let mut batches = PrimitiveBatches::new(&primitives);
    let mut all = Vec::new();
    while let Some(batch) = batches.next() {
        all.push(seen(&batch));
    }
    assert_eq!(
        all,
        vec![
            plain(PrimitiveKind::Quad, &[0, 8]),
            textured(
                PrimitiveKind::MonochromeSprite,
                texture(0, AtlasTextureKind::Monochrome),
                &[0, 0]
            ),
            textured(PrimitiveKind::MonochromeSprite, texture(1, AtlasTextureKind::Monochrome), &[0]),
            plain(PrimitiveKind::Quad, &[0]),
            plain(PrimitiveKind::Path, &[0, 3]),
            textured(PrimitiveKind::PolychromeSprite, texture(4, AtlasTextureKind::Polychrome), &[0]),
            plain(PrimitiveKind::Shadow, &[0, 0]),
            plain(PrimitiveKind::Underline, &[0]),
            plain(PrimitiveKind::Surface, &[0, 0]),
        ]
    );
    assert!(batches.next().is_none());
}

#[test]
fn batch_of_neighbours_holds_copies() {
    let primitives =
        vec![Primitive::from(scaled_path(3)), Primitive::from(glyph(2, 7)), Primitive::from(glyph(2, 8))];
    let mut batches = PrimitiveBatches::new(&primitives);
    match batches.next() {
        Some(PrimitiveBatch::Paths(paths)) => {
            assert_eq!(paths.len(), 1);
            assert_eq!(paths[0].vertices, scaled_path(3).vertices);
            assert_eq!(paths[0].bounds, scaled_path(3).bounds);
        }
        other => panic!("expected a batch of paths, got {:?}", other),
    }
    match batches.next() {
        Some(PrimitiveBatch::MonochromeSprites { texture_id, sprites }) => {
            assert_eq!(texture_id, texture(2, AtlasTextureKind::Monochrome));
            assert_eq!(sprites, &[glyph(2, 7), glyph(2, 8)][..]);
        }
        other => panic!("expected a batch of monochrome sprites, got {:?}", other),
    }
    assert!(batches.next().is_none());
}

#[test]
fn no_primitives_make_no_batch() {
    let mut batches = PrimitiveBatches::new(&[]);
    assert!(batches.next().is_none());
}
