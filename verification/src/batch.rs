//! Batches and the iterator that merges the lists of a frame into them.

use vstd::prelude::*;
use vstd::slice::slice_subrange;
use crate::atlas::{same_texture, AtlasTextureId};
use crate::geometry::ScaledPixels;
use crate::merge::{advance, batches, heads, joins, leader, lemma_leader, lemma_run_end, lemma_step, limit, next_span, run_end, well_formed, Place, Span};
use crate::order_index::DrawOrder;
use crate::path::Path;
use crate::primitive::{keys, DrawKey, Keyed, MonochromeSprite, PolychromeSprite, PrimitiveKind, Quad, Shadow, Surface, Underline, KINDS};

verus! {

/// The seven lists of a frame as mathematical sequences.
pub struct Lists {
    pub shadows: Seq<Shadow>,
    pub quads: Seq<Quad>,
    pub paths: Seq<Path<ScaledPixels>>,
    pub underlines: Seq<Underline>,
    pub monochrome_sprites: Seq<MonochromeSprite>,
    pub polychrome_sprites: Seq<PolychromeSprite>,
    pub surfaces: Seq<Surface>,
}

impl Lists {
    /// The lists without any primitive.
    pub open spec fn empty() -> Lists {
        Lists {
            shadows: Seq::empty(),
            quads: Seq::empty(),
            paths: Seq::empty(),
            underlines: Seq::empty(),
            monochrome_sprites: Seq::empty(),
            polychrome_sprites: Seq::empty(),
            surfaces: Seq::empty(),
        }
    }

    /// The number of primitives in all lists.
    pub open spec fn len(self) -> nat {
        self.shadows.len() + self.quads.len() + self.paths.len() + self.underlines.len()
            + self.monochrome_sprites.len() + self.polychrome_sprites.len() + self.surfaces.len()
    }

    /// The keys of the lists, in the order of the kinds.
    pub open spec fn lanes(self) -> Seq<Seq<DrawKey>> {
        seq![
            keys(self.shadows),
            keys(self.quads),
            keys(self.paths),
            keys(self.underlines),
            keys(self.monochrome_sprites),
            keys(self.polychrome_sprites),
            keys(self.surfaces),
        ]
    }
}

/// The cursors at the start of every list.
pub open spec fn at_start() -> Seq<int> {
    seq![0int, 0int, 0int, 0int, 0int, 0int, 0int]
}

/// A run of primitives of one kind that can be drawn in one submission.
/// The primitives stay where the scene keeps them.
#[derive(Debug)]
#[allow(inconsistent_fields)]
pub enum PrimitiveBatch<'a> {
    Shadows(&'a [Shadow]),
    Quads(&'a [Quad]),
    Paths(&'a [Path<ScaledPixels>]),
    Underlines(&'a [Underline]),
    MonochromeSprites { texture_id: AtlasTextureId, sprites: &'a [MonochromeSprite] },
    PolychromeSprites { texture_id: AtlasTextureId, sprites: &'a [PolychromeSprite] },
    Surfaces(&'a [Surface]),
}

impl<'a> PrimitiveBatch<'a> {
    /// Whether the batch is the range `span` of the lists: it has the
    /// span's kind, holds the primitives of that range in the order of the
    /// list and, if they are sprites, names their texture.
    pub open spec fn holds(self, lists: Lists, span: Span) -> bool {
        match self {
            PrimitiveBatch::Shadows(shadows) => {
                &&& span.kind == PrimitiveKind::Shadow
                &&& shadows@ == lists.shadows.subrange(span.start, span.end)
            },
            PrimitiveBatch::Quads(quads) => {
                &&& span.kind == PrimitiveKind::Quad
                &&& quads@ == lists.quads.subrange(span.start, span.end)
            },
            PrimitiveBatch::Paths(paths) => {
                &&& span.kind == PrimitiveKind::Path
                &&& paths@ == lists.paths.subrange(span.start, span.end)
            },
            PrimitiveBatch::Underlines(underlines) => {
                &&& span.kind == PrimitiveKind::Underline
                &&& underlines@ == lists.underlines.subrange(span.start, span.end)
            },
            PrimitiveBatch::MonochromeSprites { texture_id, sprites } => {
                &&& span.kind == PrimitiveKind::MonochromeSprite
                &&& span.texture == Some(texture_id)
                &&& sprites@ == lists.monochrome_sprites.subrange(span.start, span.end)
            },
            PrimitiveBatch::PolychromeSprites { texture_id, sprites } => {
                &&& span.kind == PrimitiveKind::PolychromeSprite
                &&& span.texture == Some(texture_id)
                &&& sprites@ == lists.polychrome_sprites.subrange(span.start, span.end)
            },
            PrimitiveBatch::Surfaces(surfaces) => {
                &&& span.kind == PrimitiveKind::Surface
                &&& surfaces@ == lists.surfaces.subrange(span.start, span.end)
            },
        }
    }
}

/// The limit of a run as the iterator holds it.
pub open spec fn limit_place(limit: Option<(usize, DrawOrder)>) -> Option<Place> {
    match limit {
        Some((rank, order)) => Some(Place { order: order as int, rank: rank as int }),
        None => None,
    }
}

/// The lane that is left out of a search, as the iterator holds it.
pub open spec fn lane_index(lane: Option<usize>) -> Option<int> {
    match lane {
        Some(k) => Some(k as int),
        None => None,
    }
}

/// The draw order of the primitive at the cursor, if there is one.
fn head<T: Keyed>(list: &[T], at: usize) -> (order: Option<DrawOrder>)
    ensures
        order == (if at < list@.len() {
            Some(keys(list@)[at as int].order)
        } else {
            None
        }),
{
    if at < list.len() {
        Some(list[at].order())
    } else {
        None
    }
}

/// Finds the lane whose head comes first, leaving out `skip`, and the draw
/// order of that head.
fn leading(heads: &[Option<DrawOrder>; 7], skip: Option<usize>) -> (first: Option<(usize, DrawOrder)>)
    ensures
        first is None <==> leader(heads@, KINDS as int, lane_index(skip)) is None,
        first matches Some((lane, order)) ==> {
            &&& leader(heads@, KINDS as int, lane_index(skip)) == Some(lane as int)
            &&& lane < KINDS
            &&& heads@[lane as int] == Some(order)
        },
{
    let mut first: Option<(usize, DrawOrder)> = None;
    let mut k: usize = 0;
    while k < KINDS
        invariant
            k <= KINDS,
            heads@.len() == KINDS,
            first is None <==> leader(heads@, k as int, lane_index(skip)) is None,
            first matches Some((lane, order)) ==> {
                &&& leader(heads@, k as int, lane_index(skip)) == Some(lane as int)
                &&& lane < k
                &&& heads@[lane as int] == Some(order)
            },
        decreases KINDS - k,
    {
        let skipped = match skip {
            Some(s) => s == k,
            None => false,
        };
        if !skipped {
            if let Some(order) = heads[k] {
                let better = match first {
                    Some((_, least)) => order < least,
                    None => true,
                };
                if better {
                    first = Some((k, order));
                }
            }
        }
        k += 1;
    }
    first
}

/// Finds the end of the run that begins at `start`.
fn run<T: Keyed>(list: &[T], rank: usize, start: usize, limit: Option<(usize, DrawOrder)>) -> (end:
    usize)
    requires
        start < list@.len(),
    ensures
        end == run_end(keys(list@), rank as int, start as int, limit_place(limit), start + 1),
        start < end <= list@.len(),
{
    let texture = list[start].texture_id();
    let mut end: usize = start + 1;
    proof {
        lemma_run_end(keys(list@), rank as int, start as int, limit_place(limit), start + 1);
    }
    while end < list.len()
        invariant
            start < end <= list@.len(),
            texture == keys(list@)[start as int].texture,
            run_end(keys(list@), rank as int, start as int, limit_place(limit), start + 1)
                == run_end(keys(list@), rank as int, start as int, limit_place(limit), end as int),
        ensures
            start < end <= list@.len(),
            end == run_end(keys(list@), rank as int, start as int, limit_place(limit), start + 1),
        decreases list@.len() - end,
    {
        let order = list[end].order();
        let below = match limit {
            Some((ceiling_rank, ceiling)) => order < ceiling || (order == ceiling && rank
                < ceiling_rank),
            None => true,
        };
        if !(below && same_texture(list[end].texture_id(), texture)) {
            assert(!joins(keys(list@), rank as int, start as int, limit_place(limit), end as int));
            break ;
        }
        assert(joins(keys(list@), rank as int, start as int, limit_place(limit), end as int));
        end += 1;
    }
    end
}

/// Merges the seven lists of a frame into batches.
///
/// Each call of `next` finds the list whose next primitive comes first in
/// the paint order and takes from it for as long as its primitives stay
/// before the next primitive of every other list and, for sprites, keep
/// the texture of the first.
pub struct BatchIterator<'a> {
    shadows: &'a [Shadow],
    shadows_start: usize,
    quads: &'a [Quad],
    quads_start: usize,
    paths: &'a [Path<ScaledPixels>],
    paths_start: usize,
    underlines: &'a [Underline],
    underlines_start: usize,
    monochrome_sprites: &'a [MonochromeSprite],
    monochrome_sprites_start: usize,
    polychrome_sprites: &'a [PolychromeSprite],
    polychrome_sprites_start: usize,
    surfaces: &'a [Surface],
    surfaces_start: usize,
}

impl<'a> BatchIterator<'a> {
    /// The lists that the iterator walks.
    pub closed spec fn lists(&self) -> Lists {
        Lists {
            shadows: self.shadows@,
            quads: self.quads@,
            paths: self.paths@,
            underlines: self.underlines@,
            monochrome_sprites: self.monochrome_sprites@,
            polychrome_sprites: self.polychrome_sprites@,
            surfaces: self.surfaces@,
        }
    }

    /// For each kind, in the order of the kinds, the place in its list of
    /// the first primitive that no batch has taken yet.
    pub closed spec fn cursors(&self) -> Seq<int> {
        seq![
            self.shadows_start as int,
            self.quads_start as int,
            self.paths_start as int,
            self.underlines_start as int,
            self.monochrome_sprites_start as int,
            self.polychrome_sprites_start as int,
            self.surfaces_start as int,
        ]
    }

    /// No cursor lies beyond its list.
    pub open spec fn wf(&self) -> bool {
        well_formed(self.lists().lanes(), self.cursors())
    }

    /// The batches that are still to come, in the order in which `next`
    /// will hand them out.
    pub open spec fn pending(&self) -> Seq<Span> {
        batches(self.lists().lanes(), self.cursors())
    }

    /// An iterator at the start of the given lists.
    pub fn new(
        shadows: &'a [Shadow],
        quads: &'a [Quad],
        paths: &'a [Path<ScaledPixels>],
        underlines: &'a [Underline],
        monochrome_sprites: &'a [MonochromeSprite],
        polychrome_sprites: &'a [PolychromeSprite],
        surfaces: &'a [Surface],
    ) -> (iterator: Self)
        ensures
            iterator.lists() == (Lists {
                shadows: shadows@,
                quads: quads@,
                paths: paths@,
                underlines: underlines@,
                monochrome_sprites: monochrome_sprites@,
                polychrome_sprites: polychrome_sprites@,
                surfaces: surfaces@,
            }),
            iterator.cursors() == at_start(),
            iterator.wf(),
    {
        let iterator = BatchIterator {
            shadows,
            shadows_start: 0,
            quads,
            quads_start: 0,
            paths,
            paths_start: 0,
            underlines,
            underlines_start: 0,
            monochrome_sprites,
            monochrome_sprites_start: 0,
            polychrome_sprites,
            polychrome_sprites_start: 0,
            surfaces,
            surfaces_start: 0,
        };
        assert(iterator.cursors() =~= at_start());
        iterator
    }

    /// Hands out the next batch, or `None` when every primitive has been
    /// handed out.
    pub fn next(&mut self) -> (batch: Option<PrimitiveBatch<'a>>)
        requires
            old(self).wf(),
        ensures
            final(self).wf(),
            final(self).lists() == old(self).lists(),
            next_span(old(self).lists().lanes(), old(self).cursors()) is None ==> {
                &&& batch is None
                &&& final(self).cursors() == old(self).cursors()
            },
            next_span(old(self).lists().lanes(), old(self).cursors()) matches Some(span) ==> {
                &&& batch matches Some(b)
                &&& b.holds(old(self).lists(), span)
                &&& final(self).cursors() == advance(old(self).cursors(), span)
                &&& old(self).pending() == seq![span] + final(self).pending()
            },
            batch is None ==> old(self).pending() == Seq::<Span>::empty(),
    {
        let ghost lanes = self.lists().lanes();
        let ghost cursors = self.cursors();
        let heads: [Option<DrawOrder>; 7] = [
            head(self.shadows, self.shadows_start),
            head(self.quads, self.quads_start),
            head(self.paths, self.paths_start),
            head(self.underlines, self.underlines_start),
            head(self.monochrome_sprites, self.monochrome_sprites_start),
            head(self.polychrome_sprites, self.polychrome_sprites_start),
            head(self.surfaces, self.surfaces_start),
        ];
        assert(heads@ =~= crate::merge::heads(lanes, cursors));
        proof {
            lemma_step(lanes, cursors);
            lemma_leader(heads@, KINDS as int, None);
        }
        let (winner, _) = match leading(&heads, None) {
            Some(first) => first,
            None => {
                return None;
            },
        };
        proof {
            lemma_leader(heads@, KINDS as int, Some(winner as int));
        }
        let limit = leading(&heads, Some(winner));
        let ghost span = next_span(lanes, cursors)->0;
        assert(limit_place(limit) == crate::merge::limit(
            heads@,
            leader(heads@, KINDS as int, Some(winner as int)),
        ));
        match PrimitiveKind::from_priority(winner) {
            PrimitiveKind::Shadow => {
                let start = self.shadows_start;
                let end = run(self.shadows, winner, start, limit);
                self.shadows_start = end;
                assert(self.cursors() =~= advance(cursors, span));
                Some(PrimitiveBatch::Shadows(slice_subrange(self.shadows, start, end)))
            },
            PrimitiveKind::Quad => {
                let start = self.quads_start;
                let end = run(self.quads, winner, start, limit);
                self.quads_start = end;
                assert(self.cursors() =~= advance(cursors, span));
                Some(PrimitiveBatch::Quads(slice_subrange(self.quads, start, end)))
            },
            PrimitiveKind::Path => {
                let start = self.paths_start;
                let end = run(self.paths, winner, start, limit);
                self.paths_start = end;
                assert(self.cursors() =~= advance(cursors, span));
                Some(PrimitiveBatch::Paths(slice_subrange(self.paths, start, end)))
            },
            PrimitiveKind::Underline => {
                let start = self.underlines_start;
                let end = run(self.underlines, winner, start, limit);
                self.underlines_start = end;
                assert(self.cursors() =~= advance(cursors, span));
                Some(PrimitiveBatch::Underlines(slice_subrange(self.underlines, start, end)))
            },
            PrimitiveKind::MonochromeSprite => {
                let start = self.monochrome_sprites_start;
                let texture_id = self.monochrome_sprites[start].tile.texture_id;
                let end = run(self.monochrome_sprites, winner, start, limit);
                self.monochrome_sprites_start = end;
                assert(self.cursors() =~= advance(cursors, span));
                Some(
                    PrimitiveBatch::MonochromeSprites {
                        texture_id,
                        sprites: slice_subrange(self.monochrome_sprites, start, end),
                    },
                )
            },
            PrimitiveKind::PolychromeSprite => {
                let start = self.polychrome_sprites_start;
                let texture_id = self.polychrome_sprites[start].tile.texture_id;
                let end = run(self.polychrome_sprites, winner, start, limit);
                self.polychrome_sprites_start = end;
                assert(self.cursors() =~= advance(cursors, span));
                Some(
                    PrimitiveBatch::PolychromeSprites {
                        texture_id,
                        sprites: slice_subrange(self.polychrome_sprites, start, end),
                    },
                )
            },
            PrimitiveKind::Surface => {
                let start = self.surfaces_start;
                let end = run(self.surfaces, winner, start, limit);
                self.surfaces_start = end;
                assert(self.cursors() =~= advance(cursors, span));
                Some(PrimitiveBatch::Surfaces(slice_subrange(self.surfaces, start, end)))
            },
        }
    }
}

} // verus!
