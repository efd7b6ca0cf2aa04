//! What holds of a whole frame: the laws that tie pushing, finishing and
//! draining together.

use vstd::prelude::*;
use crate::batch::{at_start, Lists};
use crate::merge::{batches, covered, law_batches_ascend, law_batches_hold_what_is_left, law_batches_of_a_kind_rebuild_its_list, lemma_batches_do_not_overlap, lemma_batches_lie_ahead, lies_ahead, place, precedes, remaining, total, well_formed, Span};
use crate::primitive::{keys, DrawKey, Keyed, Primitive, PrimitiveKind, KINDS};
use crate::scene::{lemma_rearranged_scene, lemma_with_lanes, orders_held_once, SceneView};
use crate::sort::{in_order, lemma_rearranged_len, lemma_sorted_ascends, lemma_sorted_is_unique, orders_differ, sorted};

verus! {

impl SceneView {
    /// The scene after the primitives have been pushed one after the
    /// other, the first of the sequence first.
    pub open spec fn pushed_all(self, primitives: Seq<Primitive>) -> SceneView
        decreases primitives.len(),
    {
        if primitives.len() == 0 {
            self
        } else {
            self.pushed_all(primitives.drop_last()).pushed(primitives.last())
        }
    }
}

/// The number of primitives of the sequence of which some part lies inside
/// their clip region.
pub open spec fn visible_count(primitives: Seq<Primitive>) -> nat
    decreases primitives.len(),
{
    if primitives.len() == 0 {
        0
    } else if primitives.last().is_visible() {
        visible_count(primitives.drop_last()) + 1
    } else {
        visible_count(primitives.drop_last())
    }
}

/// Whether every primitive of batch `a` has a lower draw order than every
/// primitive of batch `b`.
pub open spec fn drawn_before(lanes: Seq<Seq<DrawKey>>, a: Span, b: Span) -> bool {
    forall|i: int, j: int|
        a.start <= i < a.end && b.start <= j < b.end ==> (#[trigger] place(lanes, a.kind, i)).order < (
        #[trigger] place(lanes, b.kind, j)).order
}

/// Whether the draw orders within a batch rise from each primitive to
/// the next.
pub open spec fn rises(lanes: Seq<Seq<DrawKey>>, span: Span) -> bool {
    forall|i: int, j: int|
        span.start <= i < j < span.end ==> (#[trigger] place(lanes, span.kind, i)).order < (
        #[trigger] place(lanes, span.kind, j)).order
}

/// With the cursors at the start, everything in the lists is left.
pub proof fn lemma_at_start(lists: Lists)
    ensures
        well_formed(lists.lanes(), at_start()),
        remaining(lists.lanes(), at_start()) == lists.len(),
{
}

/// Pushing stores one primitive if some part of it is visible, and none
/// otherwise.
pub proof fn lemma_pushed_len(scene: SceneView, primitive: Primitive)
    ensures
        scene.pushed(primitive).len() == scene.len() + if primitive.is_visible() {
            1nat
        } else {
            0nat
        },
{
    lemma_with_lanes(scene.lists, primitive, (scene.issued() + 1) as u32);
}

/// Pushing keeps a scene a scene, as long as the frame has a draw order
/// left for a primitive that needs one.
pub proof fn lemma_pushed_wf(scene: SceneView, primitive: Primitive)
    requires
        scene.wf(),
        primitive.is_visible() ==> scene.issued() < u32::MAX,
    ensures
        scene.pushed(primitive).wf(),
{
    lemma_with_lanes(scene.lists, primitive, (scene.issued() + 1) as u32);
}

/// A sequence of pushes stores as many primitives as are visible.
pub proof fn lemma_pushed_all_len(scene: SceneView, primitives: Seq<Primitive>)
    ensures
        scene.pushed_all(primitives).len() == scene.len() + visible_count(primitives),
    decreases primitives.len(),
{
    if primitives.len() > 0 {
        lemma_pushed_all_len(scene, primitives.drop_last());
        lemma_pushed_len(scene.pushed_all(primitives.drop_last()), primitives.last());
    }
}

/// As long as the draw orders of a frame last, a sequence of pushes into
/// an empty scene makes a scene that has handed out one draw order for
/// each visible primitive.
pub proof fn lemma_pushed_all_wf(primitives: Seq<Primitive>)
    requires
        visible_count(primitives) <= u32::MAX,
    ensures
        SceneView::empty().pushed_all(primitives).wf(),
        SceneView::empty().pushed_all(primitives).issued() == visible_count(primitives),
    decreases primitives.len(),
{
    if primitives.len() > 0 {
        lemma_pushed_all_wf(primitives.drop_last());
        lemma_pushed_wf(SceneView::empty().pushed_all(primitives.drop_last()), primitives.last());
    } else {
        assert(SceneView::empty().lists.lanes()[0].len() == 0);
    }
}

/// Draining the batches of a frame yields as many primitives as there were
/// pushes of a primitive whose clipped box has a positive width and a
/// positive height, whether the lists were sorted in between or not.
pub proof fn law_draining_yields_every_visible_push(primitives: Seq<Primitive>, drawn: Lists)
    requires
        drawn.rearranges(SceneView::empty().pushed_all(primitives).lists),
    ensures
        total(batches(drawn.lanes(), at_start())) == visible_count(primitives),
{
    let stored = SceneView::empty().pushed_all(primitives).lists;
    lemma_pushed_all_len(SceneView::empty(), primitives);
    lemma_rearranged_len(stored.shadows, drawn.shadows);
    lemma_rearranged_len(stored.quads, drawn.quads);
    lemma_rearranged_len(stored.paths, drawn.paths);
    lemma_rearranged_len(stored.underlines, drawn.underlines);
    lemma_rearranged_len(stored.monochrome_sprites, drawn.monochrome_sprites);
    lemma_rearranged_len(stored.polychrome_sprites, drawn.polychrome_sprites);
    lemma_rearranged_len(stored.surfaces, drawn.surfaces);
    lemma_at_start(drawn);
    law_batches_hold_what_is_left(drawn.lanes(), at_start());
}

/// The batches of each kind, put together in the order in which they come,
/// are that kind's list as it stands when the batches are drawn.
pub proof fn law_batches_rebuild_every_list(lists: Lists)
    ensures
        ({
            let spans = batches(lists.lanes(), at_start());
            &&& covered(lists.shadows, PrimitiveKind::Shadow, spans) == lists.shadows
            &&& covered(lists.quads, PrimitiveKind::Quad, spans) == lists.quads
            &&& covered(lists.paths, PrimitiveKind::Path, spans) == lists.paths
            &&& covered(lists.underlines, PrimitiveKind::Underline, spans) == lists.underlines
            &&& covered(lists.monochrome_sprites, PrimitiveKind::MonochromeSprite, spans)
                == lists.monochrome_sprites
            &&& covered(lists.polychrome_sprites, PrimitiveKind::PolychromeSprite, spans)
                == lists.polychrome_sprites
            &&& covered(lists.surfaces, PrimitiveKind::Surface, spans) == lists.surfaces
        }),
{
    let lanes = lists.lanes();
    lemma_at_start(lists);
    law_batches_of_a_kind_rebuild_its_list(lanes, at_start(), PrimitiveKind::Shadow, lists.shadows);
    law_batches_of_a_kind_rebuild_its_list(lanes, at_start(), PrimitiveKind::Quad, lists.quads);
    law_batches_of_a_kind_rebuild_its_list(lanes, at_start(), PrimitiveKind::Path, lists.paths);
    law_batches_of_a_kind_rebuild_its_list(
        lanes,
        at_start(),
        PrimitiveKind::Underline,
        lists.underlines,
    );
    law_batches_of_a_kind_rebuild_its_list(
        lanes,
        at_start(),
        PrimitiveKind::MonochromeSprite,
        lists.monochrome_sprites,
    );
    law_batches_of_a_kind_rebuild_its_list(
        lanes,
        at_start(),
        PrimitiveKind::PolychromeSprite,
        lists.polychrome_sprites,
    );
    law_batches_of_a_kind_rebuild_its_list(lanes, at_start(), PrimitiveKind::Surface, lists.surfaces);
    assert(lists.shadows.subrange(0, lists.shadows.len() as int) =~= lists.shadows);
    assert(lists.quads.subrange(0, lists.quads.len() as int) =~= lists.quads);
    assert(lists.paths.subrange(0, lists.paths.len() as int) =~= lists.paths);
    assert(lists.underlines.subrange(0, lists.underlines.len() as int) =~= lists.underlines);
    assert(lists.monochrome_sprites.subrange(0, lists.monochrome_sprites.len() as int)
        =~= lists.monochrome_sprites);
    assert(lists.polychrome_sprites.subrange(0, lists.polychrome_sprites.len() as int)
        =~= lists.polychrome_sprites);
    assert(lists.surfaces.subrange(0, lists.surfaces.len() as int) =~= lists.surfaces);
}

/// The batches of a finished frame come in paint order: every primitive
/// of an earlier batch has a lower draw order than every primitive of a
/// later batch, and within a batch the draw orders rise.
pub proof fn law_finished_frame_is_drawn_in_order(scene: SceneView)
    requires
        scene.wf(),
        scene.lists.sorted(),
    ensures
        forall|m: int, n: int|
            0 <= m < n < batches(scene.lists.lanes(), at_start()).len() ==> drawn_before(
                scene.lists.lanes(),
                #[trigger] batches(scene.lists.lanes(), at_start())[m],
                #[trigger] batches(scene.lists.lanes(), at_start())[n],
            ),
        forall|n: int|
            0 <= n < batches(scene.lists.lanes(), at_start()).len() ==> rises(
                scene.lists.lanes(),
                #[trigger] batches(scene.lists.lanes(), at_start())[n],
            ),
{
    let lanes = scene.lists.lanes();
    let spans = batches(lanes, at_start());
    lemma_at_start(scene.lists);
    assert forall|k: int| 0 <= k < KINDS implies crate::merge::ascending(#[trigger] lanes[k]) by {
        lemma_sorted_ascends(lanes[k]);
    }
    law_batches_ascend(lanes, at_start());
    lemma_batches_lie_ahead(lanes, at_start());
    lemma_batches_do_not_overlap(lanes, at_start());
    assert forall|m: int, n: int| 0 <= m < n < spans.len() implies drawn_before(
        lanes,
        #[trigger] spans[m],
        #[trigger] spans[n],
    ) by {
        let a = spans[m];
        let b = spans[n];
        assert(precedes(lanes, a, b));
        assert(lies_ahead(lanes, at_start(), a));
        assert(lies_ahead(lanes, at_start(), b));
        assert forall|i: int, j: int| a.start <= i < a.end && b.start <= j < b.end implies (
        #[trigger] place(lanes, a.kind, i)).order < (#[trigger] place(lanes, b.kind, j)).order by {
            assert(place(lanes, a.kind, i).not_after(place(lanes, b.kind, j)));
            assert(lanes[a.kind.rank()][i].order != lanes[b.kind.rank()][j].order);
        }
    }
    assert forall|n: int| 0 <= n < spans.len() implies rises(lanes, #[trigger] spans[n]) by {
        let a = spans[n];
        assert(lies_ahead(lanes, at_start(), a));
        assert(sorted(lanes[a.kind.rank()]));
        assert forall|i: int, j: int| a.start <= i < j < a.end implies (#[trigger] place(
            lanes,
            a.kind,
            i,
        )).order < (#[trigger] place(lanes, a.kind, j)).order by {
            assert(in_order(lanes[a.kind.rank()][i], lanes[a.kind.rank()][j]));
            assert(lanes[a.kind.rank()][i].order != lanes[a.kind.rank()][j].order);
        }
    }
}

/// A primitive whose clipped box has no width or no height leaves no
/// trace: the scene is what it was, with as many primitives and the same
/// batches.
pub proof fn law_invisible_push_leaves_no_trace(scene: SceneView, primitive: Primitive)
    requires
        primitive.clipped_bounds().size.width.0 <= 0 || primitive.clipped_bounds().size.height.0
            <= 0,
    ensures
        scene.pushed(primitive) == scene,
        scene.pushed(primitive).len() == scene.len(),
        batches(scene.pushed(primitive).lists.lanes(), at_start()) == batches(
            scene.lists.lanes(),
            at_start(),
        ),
{
}

/// Where no two primitives of a frame hold the same draw order, no two
/// primitives of one list do.
proof fn lemma_orders_differ_within<T: Keyed>(
    lanes: Seq<Seq<DrawKey>>,
    issued: nat,
    k: int,
    list: Seq<T>,
)
    requires
        orders_held_once(lanes, issued),
        0 <= k < KINDS,
        lanes[k] == keys(list),
    ensures
        orders_differ(list),
{
    assert forall|i: int, j: int| 0 <= i < list.len() && 0 <= j < list.len() && i != j implies (
    #[trigger] list[i]).key().order != (#[trigger] list[j]).key().order by {
        assert(lanes[k][i].order != lanes[k][j].order);
    }
}

/// A frame has one paint order: however the lists of a scene are sorted,
/// the sorted lists are the same, and so are the batches.
pub proof fn law_paint_order_is_unique(scene: SceneView, a: Lists, b: Lists)
    requires
        scene.wf(),
        a.rearranges(scene.lists),
        a.sorted(),
        b.rearranges(scene.lists),
        b.sorted(),
    ensures
        a == b,
{
    let first = SceneView { lists: a, index: scene.index };
    lemma_rearranged_scene(scene, first);
    let lanes = a.lanes();
    lemma_orders_differ_within(lanes, scene.issued(), 0, a.shadows);
    lemma_orders_differ_within(lanes, scene.issued(), 1, a.quads);
    lemma_orders_differ_within(lanes, scene.issued(), 2, a.paths);
    lemma_orders_differ_within(lanes, scene.issued(), 3, a.underlines);
    lemma_orders_differ_within(lanes, scene.issued(), 4, a.monochrome_sprites);
    lemma_orders_differ_within(lanes, scene.issued(), 5, a.polychrome_sprites);
    lemma_orders_differ_within(lanes, scene.issued(), 6, a.surfaces);
    lemma_sorted_is_unique(a.shadows, b.shadows);
    lemma_sorted_is_unique(a.quads, b.quads);
    lemma_sorted_is_unique(a.paths, b.paths);
    lemma_sorted_is_unique(a.underlines, b.underlines);
    lemma_sorted_is_unique(a.monochrome_sprites, b.monochrome_sprites);
    lemma_sorted_is_unique(a.polychrome_sprites, b.polychrome_sprites);
    lemma_sorted_is_unique(a.surfaces, b.surfaces);
}

/// No frame leaves a trace in the next: a scene that has been cleared and
/// a scene that is new hold, after the same pushes and once their lists
/// are sorted, the same lists, and yield the same batches.
pub proof fn law_cleared_scene_is_new(
    cleared: SceneView,
    fresh: SceneView,
    primitives: Seq<Primitive>,
    of_cleared: Lists,
    of_fresh: Lists,
)
    requires
        cleared == SceneView::empty(),
        fresh == SceneView::empty(),
        visible_count(primitives) <= u32::MAX,
        of_cleared.rearranges(cleared.pushed_all(primitives).lists),
        of_cleared.sorted(),
        of_fresh.rearranges(fresh.pushed_all(primitives).lists),
        of_fresh.sorted(),
    ensures
        cleared.pushed_all(primitives) == fresh.pushed_all(primitives),
        of_cleared == of_fresh,
        batches(of_cleared.lanes(), at_start()) == batches(of_fresh.lanes(), at_start()),
{
    lemma_pushed_all_wf(primitives);
    law_paint_order_is_unique(SceneView::empty().pushed_all(primitives), of_cleared, of_fresh);
}

} // verus!
