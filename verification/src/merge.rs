//! The merge of the seven sorted lists of a frame into batches, as
//! mathematics: which list leads, how far its run extends, and the whole
//! sequence of batches that draining an iterator yields.
//!
//! A list is seen here as the sequence of the keys of its primitives, a
//! "lane"; the lanes stand in the order of the kinds. One cursor per lane
//! marks the first primitive that no batch has taken yet.

use vstd::prelude::*;
use crate::atlas::AtlasTextureId;
use crate::order_index::DrawOrder;
use crate::primitive::{DrawKey, PrimitiveKind, KINDS};

verus! {

/// One batch: the primitives of one kind from `start` up to, not
/// including, `end` of that kind's list. `texture` is the texture that all
/// of them share if they are sprites, `None` otherwise.
pub struct Span {
    pub kind: PrimitiveKind,
    pub start: int,
    pub end: int,
    pub texture: Option<AtlasTextureId>,
}

/// A place in the merged order: a draw order and, to break ties, the rank
/// of a kind.
pub struct Place {
    pub order: int,
    pub rank: int,
}

impl Place {
    /// Whether this place comes strictly before `other`.
    pub open spec fn before(self, other: Place) -> bool {
        self.order < other.order || (self.order == other.order && self.rank < other.rank)
    }

    /// Whether this place comes before `other` or is the same place.
    pub open spec fn not_after(self, other: Place) -> bool {
        self.order < other.order || (self.order == other.order && self.rank <= other.rank)
    }
}

/// Seven lanes with a cursor into each.
pub open spec fn well_formed(lanes: Seq<Seq<DrawKey>>, cursors: Seq<int>) -> bool {
    &&& lanes.len() == KINDS
    &&& cursors.len() == KINDS
    &&& forall|k: int| 0 <= k < KINDS ==> 0 <= #[trigger] cursors[k] <= lanes[k].len()
}

/// The draw order at the cursor of each lane; `None` for a lane that is
/// used up.
pub open spec fn heads(lanes: Seq<Seq<DrawKey>>, cursors: Seq<int>) -> Seq<Option<DrawOrder>> {
    Seq::new(
        KINDS as nat,
        |k: int|
            if 0 <= cursors[k] < lanes[k].len() {
                Some(lanes[k][cursors[k]].order)
            } else {
                None
            },
    )
}

/// The lane whose head comes first among the first `n` lanes, leaving out
/// the lane `skip` if one is given: the one with the least draw order, and
/// of several with that order the one of least rank. `None` if all of them
/// are used up.
pub open spec fn leader(heads: Seq<Option<DrawOrder>>, n: int, skip: Option<int>) -> Option<int>
    decreases n,
{
    if n <= 0 {
        None
    } else {
        let k = n - 1;
        let rest = leader(heads, k, skip);
        if skip == Some(k) || heads[k] is None {
            rest
        } else if rest is Some && heads[rest->0]->0 <= heads[k]->0 {
            rest
        } else {
            Some(k)
        }
    }
}

/// The place of the head of lane `k`.
pub open spec fn head_place(heads: Seq<Option<DrawOrder>>, k: int) -> Place {
    Place { order: heads[k]->0 as int, rank: k }
}

/// The limit of a run: the place of the head of the runner-up, which the
/// run must stay before. `None` where no other lane has anything left.
pub open spec fn limit(heads: Seq<Option<DrawOrder>>, runner_up: Option<int>) -> Option<Place> {
    match runner_up {
        Some(k) => Some(head_place(heads, k)),
        None => None,
    }
}

/// Whether the primitive at `i` of a lane belongs to the run that began at
/// `start`: it lies before the limit and has the texture of the first.
pub open spec fn joins(lane: Seq<DrawKey>, rank: int, start: int, limit: Option<Place>, i: int) -> bool {
    &&& lane[i].texture == lane[start].texture
    &&& limit matches Some(place) ==> Place { order: lane[i].order as int, rank }.before(place)
}

/// Where the run that began at `start` ends, given that it reaches `from`:
/// the first place from there on that does not join, or the end of the lane.
pub open spec fn run_end(
    lane: Seq<DrawKey>,
    rank: int,
    start: int,
    limit: Option<Place>,
    from: int,
) -> int
    decreases lane.len() - from,
{
    if from < lane.len() && joins(lane, rank, start, limit, from) {
        run_end(lane, rank, start, limit, from + 1)
    } else {
        from
    }
}

/// The batch that comes next, or `None` when every lane is used up.
pub open spec fn next_span(lanes: Seq<Seq<DrawKey>>, cursors: Seq<int>) -> Option<Span> {
    let heads = heads(lanes, cursors);
    match leader(heads, KINDS as int, None) {
        None => None,
        Some(w) => {
            let runner_up = leader(heads, KINDS as int, Some(w));
            Some(
                Span {
                    kind: PrimitiveKind::at(w),
                    start: cursors[w],
                    end: run_end(lanes[w], w, cursors[w], limit(heads, runner_up), cursors[w] + 1),
                    texture: lanes[w][cursors[w]].texture,
                },
            )
        },
    }
}

/// The cursors after a batch has been taken.
pub open spec fn advance(cursors: Seq<int>, span: Span) -> Seq<int> {
    cursors.update(span.kind.rank(), span.end)
}

/// The number of primitives from the cursors on.
pub open spec fn remaining(lanes: Seq<Seq<DrawKey>>, cursors: Seq<int>) -> int {
    (lanes[0].len() - cursors[0]) + (lanes[1].len() - cursors[1]) + (lanes[2].len() - cursors[2])
        + (lanes[3].len() - cursors[3]) + (lanes[4].len() - cursors[4]) + (lanes[5].len()
        - cursors[5]) + (lanes[6].len() - cursors[6])
}

/// What `leader` finds is the first head in the merged order.
pub proof fn lemma_leader(heads: Seq<Option<DrawOrder>>, n: int, skip: Option<int>)
    requires
        0 <= n <= heads.len(),
    ensures
        leader(heads, n, skip) is None <==> forall|k: int|
            0 <= k < n && skip != Some(k) ==> #[trigger] heads[k] is None,
        leader(heads, n, skip) matches Some(j) ==> {
            &&& 0 <= j < n
            &&& skip != Some(j)
            &&& heads[j] is Some
            &&& forall|k: int|
                0 <= k < n && skip != Some(k) && k != j && #[trigger] heads[k] is Some ==> head_place(
                    heads,
                    j,
                ).before(head_place(heads, k))
        },
    decreases n,
{
    if n > 0 {
        lemma_leader(heads, n - 1, skip);
    }
}

/// A run ends after its first primitive and within its lane; all of it
/// joins, and what follows it does not.
pub proof fn lemma_run_end(lane: Seq<DrawKey>, rank: int, start: int, limit: Option<Place>, from: int)
    requires
        0 <= start < from <= lane.len(),
    ensures
        from <= run_end(lane, rank, start, limit, from) <= lane.len(),
        forall|i: int|
            from <= i < run_end(lane, rank, start, limit, from) ==> #[trigger] joins(
                lane,
                rank,
                start,
                limit,
                i,
            ),
        run_end(lane, rank, start, limit, from) < lane.len() ==> !joins(
            lane,
            rank,
            start,
            limit,
            run_end(lane, rank, start, limit, from),
        ),
    decreases lane.len() - from,
{
    if from < lane.len() && joins(lane, rank, start, limit, from) {
        lemma_run_end(lane, rank, start, limit, from + 1);
    }
}

/// Taking a batch moves one cursor forward by the length of the batch and
/// leaves the others where they were.
pub proof fn lemma_step(lanes: Seq<Seq<DrawKey>>, cursors: Seq<int>)
    requires
        well_formed(lanes, cursors),
    ensures
        next_span(lanes, cursors) is None <==> remaining(lanes, cursors) == 0,
        next_span(lanes, cursors) matches Some(span) ==> {
            &&& 0 <= span.kind.rank() < KINDS
            &&& span.start == cursors[span.kind.rank()]
            &&& span.start < span.end <= lanes[span.kind.rank()].len()
            &&& forall|i: int|
                span.start <= i < span.end ==> (#[trigger] lanes[span.kind.rank()][i]).texture
                    == span.texture
            &&& well_formed(lanes, advance(cursors, span))
            &&& remaining(lanes, advance(cursors, span)) == remaining(lanes, cursors) - (span.end
                - span.start)
        },
{
    let heads = heads(lanes, cursors);
    lemma_leader(heads, KINDS as int, None);
    assert(forall|k: int| 0 <= k < KINDS ==> (heads[k] is None <==> cursors[k] == lanes[k].len()));
    match leader(heads, KINDS as int, None) {
        None => {
            assert(heads[0] is None && heads[1] is None && heads[2] is None && heads[3] is None
                && heads[4] is None && heads[5] is None && heads[6] is None);
        },
        Some(w) => {
            let span = next_span(lanes, cursors)->0;
            let runner_up = leader(heads, KINDS as int, Some(w));
            lemma_run_end(lanes[w], w, cursors[w], limit(heads, runner_up), cursors[w] + 1);
            assert(span.kind.rank() == w);
            assert(heads[w] is Some);
            assert(cursors[w] < lanes[w].len());
            assert forall|i: int| span.start <= i < span.end implies (#[trigger] lanes[w][i]).texture
                == span.texture by {
                if i > span.start {
                    assert(joins(lanes[w], w, cursors[w], limit(heads, runner_up), i));
                }
            }
        },
    }
}

/// The batches that draining yields from the cursors on, in the order in
/// which they come.
pub open spec fn batches(lanes: Seq<Seq<DrawKey>>, cursors: Seq<int>) -> Seq<Span>
    decreases remaining(lanes, cursors),
    when well_formed(lanes, cursors)
    via batches_terminates
{
    match next_span(lanes, cursors) {
        None => Seq::empty(),
        Some(span) => seq![span] + batches(lanes, advance(cursors, span)),
    }
}

#[via_fn]
proof fn batches_terminates(lanes: Seq<Seq<DrawKey>>, cursors: Seq<int>) {
    lemma_step(lanes, cursors);
}

/// The number of primitives that a sequence of batches holds.
pub open spec fn total(spans: Seq<Span>) -> int
    decreases spans.len(),
{
    if spans.len() == 0 {
        0
    } else {
        (spans[0].end - spans[0].start) + total(spans.drop_first())
    }
}

/// The part of the list of one kind that a sequence of batches covers:
/// the ranges of the batches of that kind, one after the other.
pub open spec fn covered<A>(list: Seq<A>, kind: PrimitiveKind, spans: Seq<Span>) -> Seq<A>
    decreases spans.len(),
{
    if spans.len() == 0 {
        Seq::empty()
    } else if spans[0].kind == kind {
        list.subrange(spans[0].start, spans[0].end) + covered(list, kind, spans.drop_first())
    } else {
        covered(list, kind, spans.drop_first())
    }
}

/// Whether two batches could be one: they have the same kind and, if they
/// are sprites, the same texture.
pub open spec fn mergeable(a: Span, b: Span) -> bool {
    a.kind == b.kind && a.texture == b.texture
}

/// Whether the draw orders of a lane never fall.
pub open spec fn ascending(lane: Seq<DrawKey>) -> bool {
    forall|i: int, j: int|
        0 <= i <= j < lane.len() ==> (#[trigger] lane[i]).order <= (#[trigger] lane[j]).order
}

/// The place of the primitive at `i` of the lane of `kind`.
pub open spec fn place(lanes: Seq<Seq<DrawKey>>, kind: PrimitiveKind, i: int) -> Place {
    Place { order: lanes[kind.rank()][i].order as int, rank: kind.rank() }
}

/// Whether no primitive of batch `b` comes before one of batch `a`.
pub open spec fn precedes(lanes: Seq<Seq<DrawKey>>, a: Span, b: Span) -> bool {
    forall|i: int, j: int|
        a.start <= i < a.end && b.start <= j < b.end ==> (#[trigger] place(lanes, a.kind, i)).not_after(
            #[trigger] place(lanes, b.kind, j),
        )
}

/// Draining yields every primitive from the cursors on, and each once: the
/// batches together hold as many primitives as were left.
pub proof fn law_batches_hold_what_is_left(lanes: Seq<Seq<DrawKey>>, cursors: Seq<int>)
    requires
        well_formed(lanes, cursors),
    ensures
        total(batches(lanes, cursors)) == remaining(lanes, cursors),
    decreases remaining(lanes, cursors),
{
    lemma_step(lanes, cursors);
    if let Some(span) = next_span(lanes, cursors) {
        let rest = batches(lanes, advance(cursors, span));
        law_batches_hold_what_is_left(lanes, advance(cursors, span));
        assert((seq![span] + rest).drop_first() =~= rest);
    }
}

/// The batches of one kind, put together in the order in which they
/// come, are that kind's list from its cursor on, in the order of the list.
pub proof fn law_batches_of_a_kind_rebuild_its_list<A>(
    lanes: Seq<Seq<DrawKey>>,
    cursors: Seq<int>,
    kind: PrimitiveKind,
    list: Seq<A>,
)
    requires
        well_formed(lanes, cursors),
        list.len() == lanes[kind.rank()].len(),
    ensures
        covered(list, kind, batches(lanes, cursors)) == list.subrange(
            cursors[kind.rank()],
            list.len() as int,
        ),
    decreases remaining(lanes, cursors),
{
    let rank = kind.rank();
    lemma_step(lanes, cursors);
    match next_span(lanes, cursors) {
        None => {
            assert(cursors[rank] == list.len());
            assert(list.subrange(cursors[rank], list.len() as int) =~= Seq::<A>::empty());
        },
        Some(span) => {
            let next = advance(cursors, span);
            let rest = batches(lanes, next);
            law_batches_of_a_kind_rebuild_its_list(lanes, next, kind, list);
            assert((seq![span] + rest).drop_first() =~= rest);
            if span.kind == kind {
                assert(list.subrange(span.start, span.end) + list.subrange(
                    span.end,
                    list.len() as int,
                ) =~= list.subrange(span.start, list.len() as int));
            } else {
                assert(span.kind.rank() != rank);
            }
        },
    }
}

/// Whether a batch lies in what the cursors have left of its lane, holds
/// at least one primitive, and holds primitives of its texture only.
pub open spec fn lies_ahead(lanes: Seq<Seq<DrawKey>>, cursors: Seq<int>, span: Span) -> bool {
    &&& cursors[span.kind.rank()] <= span.start < span.end <= lanes[span.kind.rank()].len()
    &&& forall|i: int|
        span.start <= i < span.end ==> (#[trigger] lanes[span.kind.rank()][i]).texture == span.texture
}

/// Every batch is a non-empty range of its kind's list beyond the cursor,
/// and all primitives of a batch share its texture.
pub proof fn lemma_batches_lie_ahead(lanes: Seq<Seq<DrawKey>>, cursors: Seq<int>)
    requires
        well_formed(lanes, cursors),
    ensures
        forall|n: int|
            0 <= n < batches(lanes, cursors).len() ==> lies_ahead(
                lanes,
                cursors,
                #[trigger] batches(lanes, cursors)[n],
            ),
    decreases remaining(lanes, cursors),
{
    lemma_step(lanes, cursors);
    if let Some(span) = next_span(lanes, cursors) {
        let next = advance(cursors, span);
        let rest = batches(lanes, next);
        let all = batches(lanes, cursors);
        lemma_batches_lie_ahead(lanes, next);
        assert forall|n: int| 0 <= n < all.len() implies lies_ahead(lanes, cursors, #[trigger] all[n]) by {
            if n > 0 {
                assert(all[n] == rest[n - 1]);
                assert(lies_ahead(lanes, next, rest[n - 1]));
            }
        }
    }
}

/// The batch that follows a batch cannot be merged with it.
proof fn lemma_next_differs(lanes: Seq<Seq<DrawKey>>, cursors: Seq<int>)
    requires
        well_formed(lanes, cursors),
        next_span(lanes, cursors) is Some,
        next_span(lanes, advance(cursors, next_span(lanes, cursors)->0)) is Some,
    ensures
        !mergeable(
            next_span(lanes, cursors)->0,
            next_span(lanes, advance(cursors, next_span(lanes, cursors)->0))->0,
        ),
{
    let heads = heads(lanes, cursors);
    let span = next_span(lanes, cursors)->0;
    let w = leader(heads, KINDS as int, None)->0;
    let runner_up = leader(heads, KINDS as int, Some(w));
    let next = advance(cursors, span);
    let heads_after = self::heads(lanes, next);
    let follower = next_span(lanes, next)->0;
    let v = leader(heads_after, KINDS as int, None)->0;
    lemma_step(lanes, cursors);
    lemma_leader(heads, KINDS as int, None);
    lemma_leader(heads, KINDS as int, Some(w));
    lemma_leader(heads_after, KINDS as int, None);
    lemma_run_end(lanes[w], w, cursors[w], limit(heads, runner_up), cursors[w] + 1);
    assert(span.kind.rank() == w);
    assert(follower.kind.rank() == v);
    if v == w {
        assert(heads_after[w] is Some);
        assert(span.end < lanes[w].len());
        assert(!joins(lanes[w], w, cursors[w], limit(heads, runner_up), span.end));
        if lanes[w][span.end].texture == lanes[w][cursors[w]].texture {
            let c = runner_up->0;
            assert(heads_after[c] == heads[c]);
            assert(heads_after[c] is Some);
            assert(head_place(heads_after, w).before(head_place(heads_after, c)));
        }
    }
}

/// No two batches that follow one another have the same kind and the same
/// texture: the batches are as long as the merged order allows.
pub proof fn law_neighbours_cannot_merge(lanes: Seq<Seq<DrawKey>>, cursors: Seq<int>)
    requires
        well_formed(lanes, cursors),
    ensures
        forall|n: int|
            0 <= n && n + 1 < batches(lanes, cursors).len() ==> !mergeable(
                #[trigger] batches(lanes, cursors)[n],
                batches(lanes, cursors)[n + 1],
            ),
    decreases remaining(lanes, cursors),
{
    lemma_step(lanes, cursors);
    if let Some(span) = next_span(lanes, cursors) {
        let next = advance(cursors, span);
        let rest = batches(lanes, next);
        let all = batches(lanes, cursors);
        law_neighbours_cannot_merge(lanes, next);
        lemma_step(lanes, next);
        assert forall|n: int| 0 <= n && n + 1 < all.len() implies !mergeable(
            #[trigger] all[n],
            all[n + 1],
        ) by {
            if n == 0 {
                assert(all[1] == rest[0]);
                lemma_next_differs(lanes, cursors);
            } else {
                assert(all[n] == rest[n - 1]);
                assert(all[n + 1] == rest[n]);
            }
        }
    }
}

/// Where every list is sorted, the batch that comes next holds nothing
/// that should be drawn after a primitive that it leaves behind.
proof fn lemma_first_precedes(lanes: Seq<Seq<DrawKey>>, cursors: Seq<int>, other: Span)
    requires
        well_formed(lanes, cursors),
        forall|k: int| 0 <= k < KINDS ==> ascending(#[trigger] lanes[k]),
        next_span(lanes, cursors) is Some,
        lies_ahead(lanes, advance(cursors, next_span(lanes, cursors)->0), other),
    ensures
        precedes(lanes, next_span(lanes, cursors)->0, other),
{
    let heads = heads(lanes, cursors);
    let span = next_span(lanes, cursors)->0;
    let w = leader(heads, KINDS as int, None)->0;
    let runner_up = leader(heads, KINDS as int, Some(w));
    let k = other.kind.rank();
    lemma_step(lanes, cursors);
    lemma_leader(heads, KINDS as int, None);
    lemma_leader(heads, KINDS as int, Some(w));
    lemma_run_end(lanes[w], w, cursors[w], limit(heads, runner_up), cursors[w] + 1);
    assert(span.kind.rank() == w);
    assert(ascending(lanes[w]));
    assert(ascending(lanes[k]));
    assert forall|i: int, j: int|
        span.start <= i < span.end && other.start <= j < other.end implies (#[trigger] place(
        lanes,
        span.kind,
        i,
    )).not_after(#[trigger] place(lanes, other.kind, j)) by {
        if k != w {
            assert(heads[k] is Some);
            assert(lanes[k][cursors[k]].order <= lanes[k][j].order);
            if i == span.start {
                assert(head_place(heads, w).before(head_place(heads, k)));
            } else {
                assert(joins(lanes[w], w, cursors[w], limit(heads, runner_up), i));
                let c = runner_up->0;
                if c != k {
                    assert(head_place(heads, c).before(head_place(heads, k)));
                }
            }
        }
    }
}

/// Where every list is sorted by draw order, the batches come in the merged
/// order: no primitive of a later batch should be drawn before one of an
/// earlier batch, ties going to the kind of lower rank.
pub proof fn law_batches_ascend(lanes: Seq<Seq<DrawKey>>, cursors: Seq<int>)
    requires
        well_formed(lanes, cursors),
        forall|k: int| 0 <= k < KINDS ==> ascending(#[trigger] lanes[k]),
    ensures
        forall|m: int, n: int|
            0 <= m < n < batches(lanes, cursors).len() ==> precedes(
                lanes,
                #[trigger] batches(lanes, cursors)[m],
                #[trigger] batches(lanes, cursors)[n],
            ),
    decreases remaining(lanes, cursors),
{
    lemma_step(lanes, cursors);
    if let Some(span) = next_span(lanes, cursors) {
        let next = advance(cursors, span);
        let rest = batches(lanes, next);
        let all = batches(lanes, cursors);
        law_batches_ascend(lanes, next);
        lemma_batches_lie_ahead(lanes, next);
        assert forall|m: int, n: int| 0 <= m < n < all.len() implies precedes(
            lanes,
            #[trigger] all[m],
            #[trigger] all[n],
        ) by {
            assert(all[n] == rest[n - 1]);
            if m == 0 {
                lemma_first_precedes(lanes, cursors, rest[n - 1]);
            } else {
                assert(all[m] == rest[m - 1]);
            }
        }
    }
}

/// Two batches of one kind do not overlap: the later one begins where the
/// earlier one ends, or further on.
pub proof fn lemma_batches_do_not_overlap(lanes: Seq<Seq<DrawKey>>, cursors: Seq<int>)
    requires
        well_formed(lanes, cursors),
    ensures
        forall|m: int, n: int|
            0 <= m < n < batches(lanes, cursors).len() && (#[trigger] batches(lanes, cursors)[m]).kind
                == (#[trigger] batches(lanes, cursors)[n]).kind ==> batches(lanes, cursors)[m].end
                <= batches(lanes, cursors)[n].start,
    decreases remaining(lanes, cursors),
{
    lemma_step(lanes, cursors);
    if let Some(span) = next_span(lanes, cursors) {
        let next = advance(cursors, span);
        let rest = batches(lanes, next);
        let all = batches(lanes, cursors);
        lemma_batches_do_not_overlap(lanes, next);
        lemma_batches_lie_ahead(lanes, next);
        assert forall|m: int, n: int|
            0 <= m < n < all.len() && (#[trigger] all[m]).kind == (#[trigger] all[n]).kind implies all[m].end
            <= all[n].start by {
            assert(all[n] == rest[n - 1]);
            if m == 0 {
                assert(lies_ahead(lanes, next, rest[n - 1]));
            } else {
                assert(all[m] == rest[m - 1]);
            }
        }
    }
}

} // verus!
