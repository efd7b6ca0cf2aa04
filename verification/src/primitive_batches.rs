//! Batches of a list of primitives that already stands in paint order:
//! each batch is a run of neighbours of one kind and, for sprites, of one
//! texture. The batches are copies, kept in buffers that are used again
//! from batch to batch.

use vstd::prelude::*;
use crate::atlas::{same_texture, AtlasTextureId};
use crate::batch::PrimitiveBatch;
use crate::geometry::ScaledPixels;
use crate::path::Path;
use crate::primitive::{Keyed, MonochromeSprite, PolychromeSprite, Primitive, PrimitiveKind, Quad, Shadow, Surface, Underline};

verus! {

impl Primitive {
    /// The texture that a sprite samples; `None` for any other primitive.
    pub open spec fn texture(&self) -> Option<AtlasTextureId> {
        match self {
            Primitive::MonochromeSprite(sprite) => Some(sprite.tile.texture_id),
            Primitive::PolychromeSprite(sprite) => Some(sprite.tile.texture_id),
            _ => None,
        }
    }
}

/// Whether two primitives can share a batch: they are of one kind and, if
/// they are sprites, of one texture.
pub open spec fn same_group(first: Primitive, other: Primitive) -> bool {
    first.kind() == other.kind() && first.texture() == other.texture()
}

/// Where the run that began at `start` ends, given that it reaches `from`:
/// the first place from there on whose primitive cannot share a batch
/// with the first of the run, or the end of the list.
pub open spec fn group_end(primitives: Seq<Primitive>, start: int, from: int) -> int
    decreases primitives.len() - from,
{
    if from < primitives.len() && same_group(primitives[start], primitives[from]) {
        group_end(primitives, start, from + 1)
    } else {
        from
    }
}

/// A shape that a primitive can hold.
pub trait Shape: Keyed + Sized {
    /// The kind of the primitives that hold this shape.
    spec fn kind() -> PrimitiveKind;

    /// Whether the shape is a copy of what `primitive` holds.
    spec fn is_copy_of(&self, primitive: Primitive) -> bool;

    /// A copy of what `primitive` holds, if it holds a shape of this kind.
    fn pick(primitive: &Primitive) -> (shape: Option<Self>)
        ensures
            shape is Some <==> primitive.kind() == Self::kind(),
            shape matches Some(copy) ==> copy.is_copy_of(*primitive) && copy.key().texture
                == primitive.texture(),
    ;
}

impl Shape for Shadow {
    open spec fn kind() -> PrimitiveKind {
        PrimitiveKind::Shadow
    }

    open spec fn is_copy_of(&self, primitive: Primitive) -> bool {
        primitive == Primitive::Shadow(*self)
    }

    fn pick(primitive: &Primitive) -> (shape: Option<Self>) {
        match primitive {
            Primitive::Shadow(shadow) => Some(*shadow),
            _ => None,
        }
    }
}

impl Shape for Quad {
    open spec fn kind() -> PrimitiveKind {
        PrimitiveKind::Quad
    }

    open spec fn is_copy_of(&self, primitive: Primitive) -> bool {
        primitive == Primitive::Quad(*self)
    }

    fn pick(primitive: &Primitive) -> (shape: Option<Self>) {
        match primitive {
            Primitive::Quad(quad) => Some(*quad),
            _ => None,
        }
    }
}

impl Shape for Path<ScaledPixels> {
    open spec fn kind() -> PrimitiveKind {
        PrimitiveKind::Path
    }

    open spec fn is_copy_of(&self, primitive: Primitive) -> bool {
        primitive matches Primitive::Path(path) && self@ == path@
    }

    fn pick(primitive: &Primitive) -> (shape: Option<Self>) {
        match primitive {
            Primitive::Path(path) => Some(path.clone()),
            _ => None,
        }
    }
}

impl Shape for Underline {
    open spec fn kind() -> PrimitiveKind {
        PrimitiveKind::Underline
    }

    open spec fn is_copy_of(&self, primitive: Primitive) -> bool {
        primitive == Primitive::Underline(*self)
    }

    fn pick(primitive: &Primitive) -> (shape: Option<Self>) {
        match primitive {
            Primitive::Underline(underline) => Some(*underline),
            _ => None,
        }
    }
}

impl Shape for MonochromeSprite {
    open spec fn kind() -> PrimitiveKind {
        PrimitiveKind::MonochromeSprite
    }

    open spec fn is_copy_of(&self, primitive: Primitive) -> bool {
        primitive == Primitive::MonochromeSprite(*self)
    }

    fn pick(primitive: &Primitive) -> (shape: Option<Self>) {
        match primitive {
            Primitive::MonochromeSprite(sprite) => Some(*sprite),
            _ => None,
        }
    }
}

impl Shape for PolychromeSprite {
    open spec fn kind() -> PrimitiveKind {
        PrimitiveKind::PolychromeSprite
    }

    open spec fn is_copy_of(&self, primitive: Primitive) -> bool {
        primitive == Primitive::PolychromeSprite(*self)
    }

    fn pick(primitive: &Primitive) -> (shape: Option<Self>) {
        match primitive {
            Primitive::PolychromeSprite(sprite) => Some(*sprite),
            _ => None,
        }
    }
}

impl Shape for Surface {
    open spec fn kind() -> PrimitiveKind {
        PrimitiveKind::Surface
    }

    open spec fn is_copy_of(&self, primitive: Primitive) -> bool {
        primitive == Primitive::Surface(*self)
    }

    fn pick(primitive: &Primitive) -> (shape: Option<Self>) {
        match primitive {
            Primitive::Surface(surface) => Some(*surface),
            _ => None,
        }
    }
}

/// Whether the shapes are copies of what the primitives of a run hold,
/// one for one and in the order of the run.
pub open spec fn copies<T: Shape>(shapes: Seq<T>, run: Seq<Primitive>) -> bool {
    &&& shapes.len() == run.len()
    &&& forall|i: int| 0 <= i < shapes.len() ==> (#[trigger] shapes[i]).is_copy_of(run[i])
}

impl<'a> PrimitiveBatch<'a> {
    /// Whether the batch holds copies of the primitives of a run, one for
    /// one and in the order of the run, and names the texture of the
    /// first if they are sprites.
    pub open spec fn copies(self, run: Seq<Primitive>) -> bool {
        match self {
            PrimitiveBatch::Shadows(shadows) => copies(shadows@, run),
            PrimitiveBatch::Quads(quads) => copies(quads@, run),
            PrimitiveBatch::Paths(paths) => copies(paths@, run),
            PrimitiveBatch::Underlines(underlines) => copies(underlines@, run),
            PrimitiveBatch::MonochromeSprites { texture_id, sprites } => {
                &&& copies(sprites@, run)
                &&& run[0].texture() == Some(texture_id)
            },
            PrimitiveBatch::PolychromeSprites { texture_id, sprites } => {
                &&& copies(sprites@, run)
                &&& run[0].texture() == Some(texture_id)
            },
            PrimitiveBatch::Surfaces(surfaces) => copies(surfaces@, run),
        }
    }
}

/// Fills `buffer` with copies of the run that begins at `start` and finds
/// where the run ends.
fn gather<T: Shape>(buffer: &mut Vec<T>, primitives: &[Primitive], start: usize) -> (end: usize)
    requires
        start < primitives@.len(),
        primitives@[start as int].kind() == T::kind(),
    ensures
        start < end <= primitives@.len(),
        end == group_end(primitives@, start as int, start + 1),
        copies(final(buffer)@, primitives@.subrange(start as int, end as int)),
{
    buffer.clear();
    let texture = match T::pick(&primitives[start]) {
        Some(first) => {
            let texture = first.texture_id();
            buffer.push(first);
            texture
        },
        None => None,
    };
    let mut end: usize = start + 1;
    while end < primitives.len()
        invariant
            start < end <= primitives@.len(),
            primitives@[start as int].kind() == T::kind(),
            texture == primitives@[start as int].texture(),
            group_end(primitives@, start as int, start + 1) == group_end(
                primitives@,
                start as int,
                end as int,
            ),
            copies(buffer@, primitives@.subrange(start as int, end as int)),
        ensures
            start < end <= primitives@.len(),
            end == group_end(primitives@, start as int, start + 1),
            copies(buffer@, primitives@.subrange(start as int, end as int)),
        decreases primitives@.len() - end,
    {
        let next = match T::pick(&primitives[end]) {
            Some(next) => next,
            None => {
                break ;
            },
        };
        if !same_texture(next.texture_id(), texture) {
            break ;
        }
        let ghost so_far = buffer@;
        buffer.push(next);
        end += 1;
        assert forall|i: int| 0 <= i < buffer@.len() implies (#[trigger] buffer@[i]).is_copy_of(
            primitives@.subrange(start as int, end as int)[i],
        ) by {
            if i < so_far.len() {
                assert(buffer@[i] == so_far[i]);
                assert(so_far[i].is_copy_of(primitives@.subrange(start as int, end - 1)[i]));
            }
        }
    }
    end
}

/// Walks a list of primitives and hands it out batch by batch.
pub struct PrimitiveBatches<'a> {
    primitives: &'a [Primitive],
    position: usize,
    shadows: Vec<Shadow>,
    quads: Vec<Quad>,
    paths: Vec<Path<ScaledPixels>>,
    underlines: Vec<Underline>,
    monochrome_sprites: Vec<MonochromeSprite>,
    polychrome_sprites: Vec<PolychromeSprite>,
    surfaces: Vec<Surface>,
}

impl<'a> PrimitiveBatches<'a> {
    /// The list that is walked.
    pub closed spec fn primitives(&self) -> Seq<Primitive> {
        self.primitives@
    }

    /// The place of the first primitive that no batch has taken yet.
    pub closed spec fn position(&self) -> int {
        self.position as int
    }

    /// The position lies within the list or at its end.
    pub open spec fn wf(&self) -> bool {
        0 <= self.position() <= self.primitives().len()
    }

    /// Batches of `primitives`, from the first primitive on.
    pub fn new(primitives: &'a [Primitive]) -> (batches: Self)
        ensures
            batches.primitives() == primitives@,
            batches.position() == 0,
            batches.wf(),
    {
        PrimitiveBatches {
            primitives,
            position: 0,
            shadows: Vec::new(),
            quads: Vec::new(),
            paths: Vec::new(),
            underlines: Vec::new(),
            monochrome_sprites: Vec::new(),
            polychrome_sprites: Vec::new(),
            surfaces: Vec::new(),
        }
    }

    /// Hands out the next batch, or `None` at the end of the list.
    ///
    /// The batch takes the primitive at the position and its neighbours
    /// for as long as they are of the same kind and, for sprites, of the
    /// same texture. It is valid until the next call.
    pub fn next(&mut self) -> (batch: Option<PrimitiveBatch<'_>>)
        requires
            old(self).wf(),
        ensures
            final(self).wf(),
            final(self).primitives() == old(self).primitives(),
            old(self).position() == old(self).primitives().len() ==> {
                &&& batch is None
                &&& final(self).position() == old(self).position()
            },
            old(self).position() < old(self).primitives().len() ==> {
                &&& final(self).position() == group_end(
                    old(self).primitives(),
                    old(self).position(),
                    old(self).position() + 1,
                )
                &&& batch matches Some(b)
                &&& b.copies(
                    old(self).primitives().subrange(old(self).position(), final(self).position()),
                )
            },
    {
        let start = self.position;
        if start >= self.primitives.len() {
            return None;
        }
        match &self.primitives[start] {
            Primitive::Shadow(_) => {
                self.position = gather(&mut self.shadows, self.primitives, start);
                Some(PrimitiveBatch::Shadows(self.shadows.as_slice()))
            },
            Primitive::Quad(_) => {
                self.position = gather(&mut self.quads, self.primitives, start);
                Some(PrimitiveBatch::Quads(self.quads.as_slice()))
            },
            Primitive::Path(_) => {
                self.position = gather(&mut self.paths, self.primitives, start);
                Some(PrimitiveBatch::Paths(self.paths.as_slice()))
            },
            Primitive::Underline(_) => {
                self.position = gather(&mut self.underlines, self.primitives, start);
                Some(PrimitiveBatch::Underlines(self.underlines.as_slice()))
            },
            Primitive::MonochromeSprite(sprite) => {
                let texture_id = sprite.tile.texture_id;
                self.position = gather(&mut self.monochrome_sprites, self.primitives, start);
                Some(
                    PrimitiveBatch::MonochromeSprites {
                        texture_id,
                        sprites: self.monochrome_sprites.as_slice(),
                    },
                )
            },
            Primitive::PolychromeSprite(sprite) => {
                let texture_id = sprite.tile.texture_id;
                self.position = gather(&mut self.polychrome_sprites, self.primitives, start);
                Some(
                    PrimitiveBatch::PolychromeSprites {
                        texture_id,
                        sprites: self.polychrome_sprites.as_slice(),
                    },
                )
            },
            Primitive::Surface(_) => {
                self.position = gather(&mut self.surfaces, self.primitives, start);
                Some(PrimitiveBatch::Surfaces(self.surfaces.as_slice()))
            },
        }
    }
}

} // verus!
