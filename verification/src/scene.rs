//! The primitive store of a frame.

use vstd::prelude::*;
use vstd::std_specs::convert::IntoSpec;
use crate::batch::{at_start, BatchIterator, Lists};
use crate::geometry::{Bounds, ScaledPixels};
use crate::order_index::{DrawOrder, OrderIndex};
use crate::path::{Path, PathId};
use crate::sort::{lemma_rearranged_distinct, lemma_rearranged_from, lemma_rearranged_keys, lemma_rearranged_len, sort, sorted};
use crate::primitive::{keys, DrawKey, Keyed, MonochromeSprite, PolychromeSprite, Primitive, Quad, Shadow, Surface, Underline, KINDS};

verus! {

impl Lists {
    /// The lists with one more primitive, which takes the given draw order
    /// and stands last in the list of its kind. A path also takes the
    /// next free identity of the scene's paths.
    pub open spec fn with(self, primitive: Primitive, order: DrawOrder) -> Lists {
        match primitive {
            Primitive::Shadow(shadow) => Lists {
                shadows: self.shadows.push(Shadow { order, ..shadow }),
                ..self
            },
            Primitive::Quad(quad) => Lists { quads: self.quads.push(Quad { order, ..quad }), ..self },
            Primitive::Path(path) => Lists {
                paths: self.paths.push(
                    Path { order, id: PathId(self.paths.len() as usize), ..path },
                ),
                ..self
            },
            Primitive::Underline(underline) => Lists {
                underlines: self.underlines.push(Underline { order, ..underline }),
                ..self
            },
            Primitive::MonochromeSprite(sprite) => Lists {
                monochrome_sprites: self.monochrome_sprites.push(MonochromeSprite { order, ..sprite }),
                ..self
            },
            Primitive::PolychromeSprite(sprite) => Lists {
                polychrome_sprites: self.polychrome_sprites.push(PolychromeSprite { order, ..sprite }),
                ..self
            },
            Primitive::Surface(surface) => Lists {
                surfaces: self.surfaces.push(Surface { order, ..surface }),
                ..self
            },
        }
    }
}

/// Whether a stored primitive is filed in the index: some part of it lies
/// inside its clip region, and the index holds that part as the box of the
/// primitive's draw order.
pub open spec fn filed(primitive: Primitive, index: Seq<Bounds<ScaledPixels>>) -> bool {
    &&& primitive.is_visible()
    &&& 1 <= primitive.order() <= index.len()
    &&& index[primitive.order() - 1] == primitive.clipped_bounds()
}

impl Lists {
    /// Whether every primitive is filed in the index, as `filed` says.
    pub open spec fn all_filed(self, index: Seq<Bounds<ScaledPixels>>) -> bool {
        &&& forall|i: int|
            0 <= i < self.shadows.len() ==> filed(Primitive::Shadow(#[trigger] self.shadows[i]), index)
        &&& forall|i: int|
            0 <= i < self.quads.len() ==> filed(Primitive::Quad(#[trigger] self.quads[i]), index)
        &&& forall|i: int|
            0 <= i < self.paths.len() ==> filed(Primitive::Path(#[trigger] self.paths[i]), index)
        &&& forall|i: int|
            0 <= i < self.underlines.len() ==> filed(
                Primitive::Underline(#[trigger] self.underlines[i]),
                index,
            )
        &&& forall|i: int|
            0 <= i < self.monochrome_sprites.len() ==> filed(
                Primitive::MonochromeSprite(#[trigger] self.monochrome_sprites[i]),
                index,
            )
        &&& forall|i: int|
            0 <= i < self.polychrome_sprites.len() ==> filed(
                Primitive::PolychromeSprite(#[trigger] self.polychrome_sprites[i]),
                index,
            )
        &&& forall|i: int|
            0 <= i < self.surfaces.len() ==> filed(
                Primitive::Surface(#[trigger] self.surfaces[i]),
                index,
            )
    }

    /// Whether every list is sorted by draw order, and by tile where draw
    /// orders agree.
    pub open spec fn sorted(self) -> bool {
        &&& sorted(keys(self.shadows))
        &&& sorted(keys(self.quads))
        &&& sorted(keys(self.paths))
        &&& sorted(keys(self.underlines))
        &&& sorted(keys(self.monochrome_sprites))
        &&& sorted(keys(self.polychrome_sprites))
        &&& sorted(keys(self.surfaces))
    }

    /// Whether every list holds what the same list of `other` holds, in
    /// whatever order.
    pub open spec fn rearranges(self, other: Lists) -> bool {
        &&& self.shadows.to_multiset() == other.shadows.to_multiset()
        &&& self.quads.to_multiset() == other.quads.to_multiset()
        &&& self.paths.to_multiset() == other.paths.to_multiset()
        &&& self.underlines.to_multiset() == other.underlines.to_multiset()
        &&& self.monochrome_sprites.to_multiset() == other.monochrome_sprites.to_multiset()
        &&& self.polychrome_sprites.to_multiset() == other.polychrome_sprites.to_multiset()
        &&& self.surfaces.to_multiset() == other.surfaces.to_multiset()
    }
}

/// Whether the draw orders in the lanes are among the first `issued` of a
/// frame, and no two primitives hold the same.
pub open spec fn orders_held_once(lanes: Seq<Seq<DrawKey>>, issued: nat) -> bool {
    &&& forall|k: int, i: int|
        0 <= k < KINDS && 0 <= i < lanes[k].len() ==> 1 <= (#[trigger] lanes[k][i]).order <= issued
    &&& forall|k: int, i: int, l: int, j: int|
        0 <= k < KINDS && 0 <= i < lanes[k].len() && 0 <= l < KINDS && 0 <= j < lanes[l].len()
            && (#[trigger] lanes[k][i]).order == (#[trigger] lanes[l][j]).order ==> k == l && i
            == j
}

/// Whether the identities of the paths are the numbers below their count,
/// each held by one path.
pub open spec fn paths_identified(paths: Seq<Path<ScaledPixels>>) -> bool {
    &&& forall|i: int| 0 <= i < paths.len() ==> (#[trigger] paths[i]).id.0 < paths.len()
    &&& forall|i: int, j: int|
        0 <= i < paths.len() && 0 <= j < paths.len() && (#[trigger] paths[i]).id == (
        #[trigger] paths[j]).id ==> i == j
}

/// A scene as a mathematical value.
pub struct SceneView {
    /// The stored primitives, kind by kind.
    pub lists: Lists,
    /// The boxes in the order index, the first inserted first: the box at
    /// place `i` went with the draw order `i + 1`.
    pub index: Seq<Bounds<ScaledPixels>>,
}

impl SceneView {
    /// The scene of a frame into which nothing has been pushed.
    pub open spec fn empty() -> SceneView {
        SceneView { lists: Lists::empty(), index: Seq::empty() }
    }

    /// The number of stored primitives.
    pub open spec fn len(self) -> nat {
        self.lists.len()
    }

    /// The number of draw orders handed out in this frame.
    pub open spec fn issued(self) -> nat {
        self.index.len()
    }

    /// What holds of every scene between two calls: each draw order
    /// handed out in this frame is held by exactly one stored primitive,
    /// some part of every stored primitive lies inside its clip region,
    /// the index holds that part under the primitive's draw order, and
    /// the paths are numbered without gaps.
    pub open spec fn wf(self) -> bool {
        &&& self.issued() == self.lists.len()
        &&& self.issued() <= u32::MAX
        &&& orders_held_once(self.lists.lanes(), self.issued())
        &&& self.lists.all_filed(self.index)
        &&& paths_identified(self.lists.paths)
    }

    /// The scene after `primitive` has been pushed. A primitive of which
    /// nothing lies inside its clip region leaves the scene as it is. Of
    /// any other, the part inside its clip region goes into the index, and
    /// the primitive is stored under the draw order that the index hands
    /// out.
    pub open spec fn pushed(self, primitive: Primitive) -> SceneView {
        if primitive.is_visible() {
            SceneView {
                lists: self.lists.with(primitive, (self.issued() + 1) as DrawOrder),
                index: self.index.push(primitive.clipped_bounds()),
            }
        } else {
            self
        }
    }
}

/// Collects the primitives of one frame, kind by kind, and hands them
/// back as batches in paint order.
///
/// A frame goes through `push` for every primitive, then `finish`, then
/// `batches`; `clear` makes the scene ready for the next frame.
#[derive(Debug)]
pub struct Scene {
    primitive_bounds: OrderIndex,
    shadows: Vec<Shadow>,
    quads: Vec<Quad>,
    paths: Vec<Path<ScaledPixels>>,
    underlines: Vec<Underline>,
    monochrome_sprites: Vec<MonochromeSprite>,
    polychrome_sprites: Vec<PolychromeSprite>,
    surfaces: Vec<Surface>,
}

impl View for Scene {
    type V = SceneView;

    closed spec fn view(&self) -> SceneView {
        SceneView {
            lists: Lists {
                shadows: self.shadows@,
                quads: self.quads@,
                paths: self.paths@,
                underlines: self.underlines@,
                monochrome_sprites: self.monochrome_sprites@,
                polychrome_sprites: self.polychrome_sprites@,
                surfaces: self.surfaces@,
            },
            index: self.primitive_bounds@,
        }
    }
}

impl Scene {
    /// The scene is a scene as `SceneView::wf` describes it.
    pub open spec fn wf(&self) -> bool {
        self@.wf()
    }

    /// A scene without primitives.
    pub fn new() -> (scene: Self)
        ensures
            scene@ == SceneView::empty(),
            scene.wf(),
    {
        Scene {
            primitive_bounds: OrderIndex::new(),
            shadows: Vec::new(),
            quads: Vec::new(),
            paths: Vec::new(),
            underlines: Vec::new(),
            monochrome_sprites: Vec::new(),
            polychrome_sprites: Vec::new(),
            surfaces: Vec::new(),
        }
    }

    /// Empties the scene for the next frame.
    pub fn clear(&mut self)
        ensures
            final(self)@ == SceneView::empty(),
            final(self).wf(),
    {
        self.primitive_bounds.clear();
        self.paths.clear();
        self.shadows.clear();
        self.quads.clear();
        self.underlines.clear();
        self.monochrome_sprites.clear();
        self.polychrome_sprites.clear();
        self.surfaces.clear();
    }

    /// The stored paths: in the sequence of their pushes until `finish`
    /// is called, in paint order from then on.
    pub fn paths(&self) -> (paths: &[Path<ScaledPixels>])
        ensures
            paths@ == self@.lists.paths,
    {
        self.paths.as_slice()
    }

    /// The number of stored primitives.
    pub fn len(&self) -> (n: usize)
        requires
            self.wf(),
        ensures
            n == self@.len(),
    {
        self.primitive_bounds.len()
    }

    /// Submits a primitive for this frame.
    ///
    /// The primitive is clipped against its content mask. If nothing of
    /// it is left, the call changes nothing. Otherwise the order index
    /// takes what is left and hands out the next draw order of the frame,
    /// and the primitive is stored under it, last in the list of its
    /// kind. A path is numbered as it is stored.
    ///
    /// A frame has room for `u32::MAX` primitives.
    pub fn push<P: Into<Primitive>>(&mut self, primitive: P)
        requires
            old(self).wf(),
            old(self)@.len() < u32::MAX,
        ensures
            final(self).wf(),
            P::obeys_into_spec() ==> final(self)@ == old(self)@.pushed(primitive.into_spec()),
            exists|converted: Primitive| final(self)@ == old(self)@.pushed(converted),
    {
        let converted: Primitive = primitive.into();
        self.store(converted);
    }

    /// Does what `push` promises, once the primitive is at hand.
    fn store(&mut self, primitive: Primitive)
        requires
            old(self).wf(),
            old(self)@.len() < u32::MAX,
        ensures
            final(self).wf(),
            final(self)@ == old(self)@.pushed(primitive),
    {
        let clipped_bounds = primitive.bounds().intersect(&primitive.content_mask().bounds);
        if clipped_bounds.size.width.0 <= 0 || clipped_bounds.size.height.0 <= 0 {
            return ;
        }
        let order = self.primitive_bounds.insert(clipped_bounds);
        proof {
            lemma_with_lanes(self@.lists, primitive, order);
        }
        match primitive {
            Primitive::Shadow(mut shadow) => {
                shadow.order = order;
                self.shadows.push(shadow);
            },
            Primitive::Quad(mut quad) => {
                quad.order = order;
                self.quads.push(quad);
            },
            Primitive::Path(mut path) => {
                path.order = order;
                path.id = PathId(self.paths.len());
                self.paths.push(path);
            },
            Primitive::Underline(mut underline) => {
                underline.order = order;
                self.underlines.push(underline);
            },
            Primitive::MonochromeSprite(mut sprite) => {
                sprite.order = order;
                self.monochrome_sprites.push(sprite);
            },
            Primitive::PolychromeSprite(mut sprite) => {
                sprite.order = order;
                self.polychrome_sprites.push(sprite);
            },
            Primitive::Surface(mut surface) => {
                surface.order = order;
                self.surfaces.push(surface);
            },
        }
    }

    /// Closes the frame: sorts every list into paint order.
    ///
    /// The lists keep their primitives. Each is put in the order of its
    /// draw orders; where two sprites have the same draw order, the one
    /// with the lower tile comes first.
    pub fn finish(&mut self)
        requires
            old(self).wf(),
        ensures
            final(self).wf(),
            final(self)@.index == old(self)@.index,
            final(self)@.len() == old(self)@.len(),
            final(self)@.lists.rearranges(old(self)@.lists),
            final(self)@.lists.sorted(),
    {
        sort(&mut self.shadows);
        sort(&mut self.quads);
        sort(&mut self.paths);
        sort(&mut self.underlines);
        sort(&mut self.monochrome_sprites);
        sort(&mut self.polychrome_sprites);
        sort(&mut self.surfaces);
        proof {
            lemma_rearranged_scene(old(self)@, self@);
        }
    }

    /// The batches of the frame, from the first to be drawn.
    ///
    /// The iterator merges the lists as they stand. They stand in paint
    /// order once `finish` has been called, and only then do the batches
    /// come in paint order.
    pub fn batches(&self) -> (iterator: BatchIterator<'_>)
        ensures
            iterator.lists() == self@.lists,
            iterator.cursors() == at_start(),
            iterator.wf(),
    {
        BatchIterator::new(
            self.shadows.as_slice(),
            self.quads.as_slice(),
            self.paths.as_slice(),
            self.underlines.as_slice(),
            self.monochrome_sprites.as_slice(),
            self.polychrome_sprites.as_slice(),
            self.surfaces.as_slice(),
        )
    }
}

impl Default for Scene {
    fn default() -> (scene: Self)
        ensures
            scene@ == SceneView::empty(),
            scene.wf(),
    {
        Scene::new()
    }
}

/// The key under which a primitive is stored when it takes `order`.
pub open spec fn stored_key(primitive: Primitive, order: DrawOrder) -> DrawKey {
    match primitive {
        Primitive::MonochromeSprite(sprite) => MonochromeSprite { order, ..sprite }.key(),
        Primitive::PolychromeSprite(sprite) => PolychromeSprite { order, ..sprite }.key(),
        _ => DrawKey { order, tile: 0, texture: None },
    }
}

/// Storing a primitive lengthens the lane of its kind by its key and
/// leaves the other lanes as they are.
pub proof fn lemma_with_lanes(lists: Lists, primitive: Primitive, order: DrawOrder)
    ensures
        lists.with(primitive, order).lanes() == lists.lanes().update(
            primitive.kind().rank(),
            lists.lanes()[primitive.kind().rank()].push(stored_key(primitive, order)),
        ),
        lists.with(primitive, order).len() == lists.len() + 1,
{
    let rank = primitive.kind().rank();
    let after = lists.with(primitive, order).lanes();
    let expected = lists.lanes().update(rank, lists.lanes()[rank].push(stored_key(primitive, order)));
    assert(after.len() == expected.len());
    assert forall|k: int| 0 <= k < after.len() implies after[k] =~= expected[k] by {}
    assert(after =~= expected);
}

/// Rearranging the lanes keeps every draw order with one primitive.
pub proof fn lemma_rearranged_orders(
    before: Seq<Seq<DrawKey>>,
    after: Seq<Seq<DrawKey>>,
    issued: nat,
)
    requires
        before.len() == KINDS,
        after.len() == KINDS,
        forall|k: int|
            0 <= k < KINDS ==> (#[trigger] after[k]).to_multiset() == before[k].to_multiset(),
        orders_held_once(before, issued),
    ensures
        orders_held_once(after, issued),
{
    assert forall|k: int, i: int| 0 <= k < KINDS && 0 <= i < after[k].len() implies 1 <= (
    #[trigger] after[k][i]).order <= issued by {
        let from = lemma_rearranged_from(before[k], after[k], i);
        assert(before[k][from].order >= 1);
    }
    assert forall|k: int, i: int, l: int, j: int|
        0 <= k < KINDS && 0 <= i < after[k].len() && 0 <= l < KINDS && 0 <= j < after[l].len() && (
        #[trigger] after[k][i]).order == (#[trigger] after[l][j]).order implies k == l && i == j by {
        let from_i = lemma_rearranged_from(before[k], after[k], i);
        let from_j = lemma_rearranged_from(before[l], after[l], j);
        assert(before[k][from_i].order == before[l][from_j].order);
        assert(k == l && from_i == from_j);
        assert(before[k].no_duplicates()) by {
            assert forall|a: int, b: int|
                0 <= a < before[k].len() && 0 <= b < before[k].len() && a != b implies before[k][a]
                != before[k][b] by {
                assert(before[k][a].order != before[k][b].order);
            }
        }
        lemma_rearranged_distinct(before[k], after[k]);
    }
}

/// Rearranging the paths keeps their identities in place.
pub proof fn lemma_rearranged_paths(before: Seq<Path<ScaledPixels>>, after: Seq<Path<ScaledPixels>>)
    requires
        after.to_multiset() == before.to_multiset(),
        paths_identified(before),
    ensures
        paths_identified(after),
{
    lemma_rearranged_len(before, after);
    assert forall|i: int| 0 <= i < after.len() implies (#[trigger] after[i]).id.0 < after.len() by {
        let from = lemma_rearranged_from(before, after, i);
        assert(before[from].id.0 < before.len());
    }
    assert forall|i: int, j: int|
        0 <= i < after.len() && 0 <= j < after.len() && (#[trigger] after[i]).id == (
        #[trigger] after[j]).id implies i == j by {
        let from_i = lemma_rearranged_from(before, after, i);
        let from_j = lemma_rearranged_from(before, after, j);
        assert(before[from_i].id == before[from_j].id);
        assert(before.no_duplicates()) by {
            assert forall|a: int, b: int|
                0 <= a < before.len() && 0 <= b < before.len() && a != b implies before[a]
                != before[b] by {
                assert(before[a].id != before[b].id);
            }
        }
        lemma_rearranged_distinct(before, after);
    }
}

/// A scene whose lists have been rearranged is still a scene, with as
/// many primitives.
pub proof fn lemma_rearranged_scene(before: SceneView, after: SceneView)
    requires
        before.wf(),
        after.index == before.index,
        after.lists.rearranges(before.lists),
    ensures
        after.wf(),
        after.len() == before.len(),
{
    let b = before.lists;
    let a = after.lists;
    lemma_rearranged_len(b.shadows, a.shadows);
    lemma_rearranged_len(b.quads, a.quads);
    lemma_rearranged_len(b.paths, a.paths);
    lemma_rearranged_len(b.underlines, a.underlines);
    lemma_rearranged_len(b.monochrome_sprites, a.monochrome_sprites);
    lemma_rearranged_len(b.polychrome_sprites, a.polychrome_sprites);
    lemma_rearranged_len(b.surfaces, a.surfaces);
    lemma_rearranged_keys(b.shadows, a.shadows);
    lemma_rearranged_keys(b.quads, a.quads);
    lemma_rearranged_keys(b.paths, a.paths);
    lemma_rearranged_keys(b.underlines, a.underlines);
    lemma_rearranged_keys(b.monochrome_sprites, a.monochrome_sprites);
    lemma_rearranged_keys(b.polychrome_sprites, a.polychrome_sprites);
    lemma_rearranged_keys(b.surfaces, a.surfaces);
    lemma_rearranged_orders(b.lanes(), a.lanes(), before.index.len());
    lemma_rearranged_paths(b.paths, a.paths);
    assert forall|i: int| 0 <= i < a.shadows.len() implies filed(
        Primitive::Shadow(#[trigger] a.shadows[i]),
        after.index,
    ) by {
        let from = lemma_rearranged_from(b.shadows, a.shadows, i);
        assert(filed(Primitive::Shadow(b.shadows[from]), before.index));
    }
    assert forall|i: int| 0 <= i < a.quads.len() implies filed(
        Primitive::Quad(#[trigger] a.quads[i]),
        after.index,
    ) by {
        let from = lemma_rearranged_from(b.quads, a.quads, i);
        assert(filed(Primitive::Quad(b.quads[from]), before.index));
    }
    assert forall|i: int| 0 <= i < a.paths.len() implies filed(
        Primitive::Path(#[trigger] a.paths[i]),
        after.index,
    ) by {
        let from = lemma_rearranged_from(b.paths, a.paths, i);
        assert(filed(Primitive::Path(b.paths[from]), before.index));
    }
    assert forall|i: int| 0 <= i < a.underlines.len() implies filed(
        Primitive::Underline(#[trigger] a.underlines[i]),
        after.index,
    ) by {
        let from = lemma_rearranged_from(b.underlines, a.underlines, i);
        assert(filed(Primitive::Underline(b.underlines[from]), before.index));
    }
    assert forall|i: int| 0 <= i < a.monochrome_sprites.len() implies filed(
        Primitive::MonochromeSprite(#[trigger] a.monochrome_sprites[i]),
        after.index,
    ) by {
        let from = lemma_rearranged_from(b.monochrome_sprites, a.monochrome_sprites, i);
        assert(filed(Primitive::MonochromeSprite(b.monochrome_sprites[from]), before.index));
    }
    assert forall|i: int| 0 <= i < a.polychrome_sprites.len() implies filed(
        Primitive::PolychromeSprite(#[trigger] a.polychrome_sprites[i]),
        after.index,
    ) by {
        let from = lemma_rearranged_from(b.polychrome_sprites, a.polychrome_sprites, i);
        assert(filed(Primitive::PolychromeSprite(b.polychrome_sprites[from]), before.index));
    }
    assert forall|i: int| 0 <= i < a.surfaces.len() implies filed(
        Primitive::Surface(#[trigger] a.surfaces[i]),
        after.index,
    ) by {
        let from = lemma_rearranged_from(b.surfaces, a.surfaces, i);
        assert(filed(Primitive::Surface(b.surfaces[from]), before.index));
    }
}

} // verus!
