//! The drawable shapes of a frame.

use vstd::prelude::*;
use vstd::std_specs::convert::FromSpecImpl;
use crate::atlas::{AtlasTextureId, AtlasTile};
use crate::geometry::{Bounds, ContentMask, Corners, Edges, Hsla, Point, Scalar, ScaledPixels, Size};
use crate::order_index::DrawOrder;
use crate::path::Path;

verus! {

/// The kinds of primitive, in the order in which they win a tie: of two
/// primitives with the same draw order, the one whose kind stands first
/// here is drawn first.
#[derive(Clone, Copy, Debug, PartialEq, Eq, PartialOrd, Ord, Hash, Structural)]
pub enum PrimitiveKind {
    Shadow,
    Quad,
    Path,
    Underline,
    MonochromeSprite,
    PolychromeSprite,
    Surface,
}

/// The number of kinds.
pub const KINDS: usize = 7;

impl PrimitiveKind {
    /// The place of the kind in the tie-breaking order, from 0.
    pub open spec fn rank(self) -> int {
        match self {
            PrimitiveKind::Shadow => 0,
            PrimitiveKind::Quad => 1,
            PrimitiveKind::Path => 2,
            PrimitiveKind::Underline => 3,
            PrimitiveKind::MonochromeSprite => 4,
            PrimitiveKind::PolychromeSprite => 5,
            PrimitiveKind::Surface => 6,
        }
    }

    /// The kind at a place of the tie-breaking order.
    pub open spec fn at(rank: int) -> PrimitiveKind {
        if rank <= 0 {
            PrimitiveKind::Shadow
        } else if rank == 1 {
            PrimitiveKind::Quad
        } else if rank == 2 {
            PrimitiveKind::Path
        } else if rank == 3 {
            PrimitiveKind::Underline
        } else if rank == 4 {
            PrimitiveKind::MonochromeSprite
        } else if rank == 5 {
            PrimitiveKind::PolychromeSprite
        } else {
            PrimitiveKind::Surface
        }
    }

    /// The place of the kind in the tie-breaking order, from 0.
    pub fn priority(self) -> (rank: usize)
        ensures
            rank == self.rank(),
            rank < KINDS,
    {
        match self {
            PrimitiveKind::Shadow => 0,
            PrimitiveKind::Quad => 1,
            PrimitiveKind::Path => 2,
            PrimitiveKind::Underline => 3,
            PrimitiveKind::MonochromeSprite => 4,
            PrimitiveKind::PolychromeSprite => 5,
            PrimitiveKind::Surface => 6,
        }
    }

    /// The kind at a place of the tie-breaking order.
    pub fn from_priority(rank: usize) -> (kind: PrimitiveKind)
        requires
            rank < KINDS,
        ensures
            kind == PrimitiveKind::at(rank as int),
            kind.rank() == rank,
    {
        if rank == 0 {
            PrimitiveKind::Shadow
        } else if rank == 1 {
            PrimitiveKind::Quad
        } else if rank == 2 {
            PrimitiveKind::Path
        } else if rank == 3 {
            PrimitiveKind::Underline
        } else if rank == 4 {
            PrimitiveKind::MonochromeSprite
        } else if rank == 5 {
            PrimitiveKind::PolychromeSprite
        } else {
            PrimitiveKind::Surface
        }
    }

    /// Whether this kind wins a tie against `other`.
    pub fn precedes(self, other: PrimitiveKind) -> (first: bool)
        ensures
            first == (self.rank() < other.rank()),
    {
        self.priority() < other.priority()
    }
}

impl Default for PrimitiveKind {
    fn default() -> (kind: Self)
        ensures
            kind == PrimitiveKind::Quad,
    {
        PrimitiveKind::Quad
    }
}

/// What the batching engine reads of a primitive.
pub struct DrawKey {
    /// The primitive's place in the paint order.
    pub order: DrawOrder,
    /// The number that breaks a tie between two primitives of one list
    /// when the list is sorted: the tile of a sprite, 0 for any other.
    pub tile: u32,
    /// The texture that a sprite samples; `None` for any other primitive.
    pub texture: Option<AtlasTextureId>,
}

/// A primitive that can be sorted and batched.
pub trait Keyed {
    /// What the batching engine reads of the primitive.
    spec fn key(&self) -> DrawKey;

    /// The primitive's place in the paint order.
    fn order(&self) -> (order: DrawOrder)
        ensures
            order == self.key().order,
    ;

    /// The tile of a sprite; 0 for any other primitive.
    fn tile_id(&self) -> (tile: u32)
        ensures
            tile == self.key().tile,
    ;

    /// The texture that a sprite samples; `None` for any other primitive.
    fn texture_id(&self) -> (texture: Option<AtlasTextureId>)
        ensures
            texture == self.key().texture,
    ;
}

/// The keys of a list of primitives, in the order of the list.
pub open spec fn keys<T: Keyed>(list: Seq<T>) -> Seq<DrawKey> {
    Seq::new(list.len(), |i: int| list[i].key())
}

/// A rectangle, filled and bordered, with rounded corners.
#[derive(Clone, Copy, Debug, PartialEq, Eq)]
pub struct Quad {
    pub order: DrawOrder,
    pub bounds: Bounds<ScaledPixels>,
    pub content_mask: ContentMask<ScaledPixels>,
    pub background: Hsla,
    pub border_color: Hsla,
    pub corner_radii: Corners<ScaledPixels>,
    pub border_widths: Edges<ScaledPixels>,
}

/// A line under a run of text, straight or wavy.
#[derive(Clone, Copy, Debug, PartialEq, Eq)]
pub struct Underline {
    pub order: DrawOrder,
    pub bounds: Bounds<ScaledPixels>,
    pub content_mask: ContentMask<ScaledPixels>,
    pub color: Hsla,
    pub thickness: ScaledPixels,
    pub wavy: bool,
}

/// The blurred shadow of a rounded rectangle.
#[derive(Clone, Copy, Debug, PartialEq, Eq)]
pub struct Shadow {
    pub order: DrawOrder,
    pub bounds: Bounds<ScaledPixels>,
    pub corner_radii: Corners<ScaledPixels>,
    pub content_mask: ContentMask<ScaledPixels>,
    pub color: Hsla,
    pub blur_radius: ScaledPixels,
    pub pad: u32,
}

/// A one-coloured image from the atlas, such as a glyph, tinted with a
/// colour.
#[derive(Clone, Copy, Debug, PartialEq, Eq)]
pub struct MonochromeSprite {
    pub order: DrawOrder,
    pub bounds: Bounds<ScaledPixels>,
    pub content_mask: ContentMask<ScaledPixels>,
    pub color: Hsla,
    pub tile: AtlasTile,
}

/// A full-colour image from the atlas, such as an emoji or a picture.
#[derive(Clone, Copy, Debug, PartialEq, Eq)]
pub struct PolychromeSprite {
    pub order: DrawOrder,
    pub bounds: Bounds<ScaledPixels>,
    pub content_mask: ContentMask<ScaledPixels>,
    pub corner_radii: Corners<ScaledPixels>,
    pub tile: AtlasTile,
    pub grayscale: bool,
    pub pad: u32,
}

/// A region that the host fills from a video frame.
#[derive(Clone, Copy, Debug, PartialEq, Eq)]
pub struct Surface {
    pub order: DrawOrder,
    pub bounds: Bounds<ScaledPixels>,
    pub content_mask: ContentMask<ScaledPixels>,
}

impl Quad {
    /// The quad without extent, colour or border.
    pub open spec fn blank() -> Quad {
        let zero = ScaledPixels(0);
        let none = Hsla { h: Scalar(0), s: Scalar(0), l: Scalar(0), a: Scalar(0) };
        let nowhere = Bounds {
            origin: Point { x: zero, y: zero },
            size: Size { width: zero, height: zero },
        };
        Quad {
            order: 0,
            bounds: nowhere,
            content_mask: ContentMask { bounds: nowhere },
            background: none,
            border_color: none,
            corner_radii: Corners {
                top_left: zero,
                top_right: zero,
                bottom_right: zero,
                bottom_left: zero,
            },
            border_widths: Edges { top: zero, right: zero, bottom: zero, left: zero },
        }
    }
}

impl Default for Quad {
    fn default() -> (quad: Self)
        ensures
            quad == Quad::blank(),
    {
        let zero = ScaledPixels(0);
        let none = Hsla { h: Scalar(0), s: Scalar(0), l: Scalar(0), a: Scalar(0) };
        let nowhere = Bounds {
            origin: Point { x: zero, y: zero },
            size: Size { width: zero, height: zero },
        };
        Quad {
            order: 0,
            bounds: nowhere,
            content_mask: ContentMask { bounds: nowhere },
            background: none,
            border_color: none,
            corner_radii: Corners {
                top_left: zero,
                top_right: zero,
                bottom_right: zero,
                bottom_left: zero,
            },
            border_widths: Edges { top: zero, right: zero, bottom: zero, left: zero },
        }
    }
}

impl Keyed for Shadow {
    open spec fn key(&self) -> DrawKey {
        DrawKey { order: self.order, tile: 0, texture: None }
    }

    fn order(&self) -> (order: DrawOrder) {
        self.order
    }

    fn tile_id(&self) -> (tile: u32) {
        0
    }

    fn texture_id(&self) -> (texture: Option<AtlasTextureId>) {
        None
    }
}

impl Keyed for Quad {
    open spec fn key(&self) -> DrawKey {
        DrawKey { order: self.order, tile: 0, texture: None }
    }

    fn order(&self) -> (order: DrawOrder) {
        self.order
    }

    fn tile_id(&self) -> (tile: u32) {
        0
    }

    fn texture_id(&self) -> (texture: Option<AtlasTextureId>) {
        None
    }
}

impl Keyed for Path<ScaledPixels> {
    open spec fn key(&self) -> DrawKey {
        DrawKey { order: self.order, tile: 0, texture: None }
    }

    fn order(&self) -> (order: DrawOrder) {
        self.order
    }

    fn tile_id(&self) -> (tile: u32) {
        0
    }

    fn texture_id(&self) -> (texture: Option<AtlasTextureId>) {
        None
    }
}

impl Keyed for Underline {
    open spec fn key(&self) -> DrawKey {
        DrawKey { order: self.order, tile: 0, texture: None }
    }

    fn order(&self) -> (order: DrawOrder) {
        self.order
    }

    fn tile_id(&self) -> (tile: u32) {
        0
    }

    fn texture_id(&self) -> (texture: Option<AtlasTextureId>) {
        None
    }
}

impl Keyed for MonochromeSprite {
    open spec fn key(&self) -> DrawKey {
        DrawKey {
            order: self.order,
            tile: self.tile.tile_id.0,
            texture: Some(self.tile.texture_id),
        }
    }

    fn order(&self) -> (order: DrawOrder) {
        self.order
    }

    fn tile_id(&self) -> (tile: u32) {
        self.tile.tile_id.0
    }

    fn texture_id(&self) -> (texture: Option<AtlasTextureId>) {
        Some(self.tile.texture_id)
    }
}

impl Keyed for PolychromeSprite {
    open spec fn key(&self) -> DrawKey {
        DrawKey {
            order: self.order,
            tile: self.tile.tile_id.0,
            texture: Some(self.tile.texture_id),
        }
    }

    fn order(&self) -> (order: DrawOrder) {
        self.order
    }

    fn tile_id(&self) -> (tile: u32) {
        self.tile.tile_id.0
    }

    fn texture_id(&self) -> (texture: Option<AtlasTextureId>) {
        Some(self.tile.texture_id)
    }
}

impl Keyed for Surface {
    open spec fn key(&self) -> DrawKey {
        DrawKey { order: self.order, tile: 0, texture: None }
    }

    fn order(&self) -> (order: DrawOrder) {
        self.order
    }

    fn tile_id(&self) -> (tile: u32) {
        0
    }

    fn texture_id(&self) -> (texture: Option<AtlasTextureId>) {
        None
    }
}

/// One drawable shape of any kind.
#[derive(Debug, PartialEq, Eq, PartialOrd)]
pub enum Primitive {
    Shadow(Shadow),
    Quad(Quad),
    Path(Path<ScaledPixels>),
    Underline(Underline),
    MonochromeSprite(MonochromeSprite),
    PolychromeSprite(PolychromeSprite),
    Surface(Surface),
}

impl Primitive {
    /// The kind of the primitive.
    pub open spec fn kind(&self) -> PrimitiveKind {
        match self {
            Primitive::Shadow(_) => PrimitiveKind::Shadow,
            Primitive::Quad(_) => PrimitiveKind::Quad,
            Primitive::Path(_) => PrimitiveKind::Path,
            Primitive::Underline(_) => PrimitiveKind::Underline,
            Primitive::MonochromeSprite(_) => PrimitiveKind::MonochromeSprite,
            Primitive::PolychromeSprite(_) => PrimitiveKind::PolychromeSprite,
            Primitive::Surface(_) => PrimitiveKind::Surface,
        }
    }

    /// The draw order that the primitive holds.
    pub open spec fn order(&self) -> DrawOrder {
        match self {
            Primitive::Shadow(shadow) => shadow.order,
            Primitive::Quad(quad) => quad.order,
            Primitive::Path(path) => path.order,
            Primitive::Underline(underline) => underline.order,
            Primitive::MonochromeSprite(sprite) => sprite.order,
            Primitive::PolychromeSprite(sprite) => sprite.order,
            Primitive::Surface(surface) => surface.order,
        }
    }

    /// The box of the primitive, as it was submitted.
    pub open spec fn spec_bounds(&self) -> Bounds<ScaledPixels> {
        match self {
            Primitive::Shadow(shadow) => shadow.bounds,
            Primitive::Quad(quad) => quad.bounds,
            Primitive::Path(path) => path.bounds,
            Primitive::Underline(underline) => underline.bounds,
            Primitive::MonochromeSprite(sprite) => sprite.bounds,
            Primitive::PolychromeSprite(sprite) => sprite.bounds,
            Primitive::Surface(surface) => surface.bounds,
        }
    }

    /// The clip region that was active when the primitive was submitted.
    pub open spec fn spec_content_mask(&self) -> ContentMask<ScaledPixels> {
        match self {
            Primitive::Shadow(shadow) => shadow.content_mask,
            Primitive::Quad(quad) => quad.content_mask,
            Primitive::Path(path) => path.content_mask,
            Primitive::Underline(underline) => underline.content_mask,
            Primitive::MonochromeSprite(sprite) => sprite.content_mask,
            Primitive::PolychromeSprite(sprite) => sprite.content_mask,
            Primitive::Surface(surface) => surface.content_mask,
        }
    }

    /// What is left of the primitive's box inside its clip region.
    pub open spec fn clipped_bounds(&self) -> Bounds<ScaledPixels> {
        self.spec_bounds().clipped(self.spec_content_mask().bounds)
    }

    /// Whether any part of the primitive lies inside its clip region.
    pub open spec fn is_visible(&self) -> bool {
        self.clipped_bounds().has_area()
    }

    /// The box of the primitive, as it was submitted.
    pub fn bounds(&self) -> (bounds: &Bounds<ScaledPixels>)
        ensures
            *bounds == self.spec_bounds(),
    {
        match self {
            Primitive::Shadow(shadow) => &shadow.bounds,
            Primitive::Quad(quad) => &quad.bounds,
            Primitive::Path(path) => &path.bounds,
            Primitive::Underline(underline) => &underline.bounds,
            Primitive::MonochromeSprite(sprite) => &sprite.bounds,
            Primitive::PolychromeSprite(sprite) => &sprite.bounds,
            Primitive::Surface(surface) => &surface.bounds,
        }
    }

    /// The clip region that was active when the primitive was submitted.
    pub fn content_mask(&self) -> (mask: &ContentMask<ScaledPixels>)
        ensures
            *mask == self.spec_content_mask(),
    {
        match self {
            Primitive::Shadow(shadow) => &shadow.content_mask,
            Primitive::Quad(quad) => &quad.content_mask,
            Primitive::Path(path) => &path.content_mask,
            Primitive::Underline(underline) => &underline.content_mask,
            Primitive::MonochromeSprite(sprite) => &sprite.content_mask,
            Primitive::PolychromeSprite(sprite) => &sprite.content_mask,
            Primitive::Surface(surface) => &surface.content_mask,
        }
    }
}

impl From<Quad> for Primitive {
    fn from(quad: Quad) -> (primitive: Primitive) {
        Primitive::Quad(quad)
    }
}

impl FromSpecImpl<Quad> for Primitive {
    open spec fn obeys_from_spec() -> bool {
        true
    }

    open spec fn from_spec(quad: Quad) -> Primitive {
        Primitive::Quad(quad)
    }
}

impl From<Underline> for Primitive {
    fn from(underline: Underline) -> (primitive: Primitive) {
        Primitive::Underline(underline)
    }
}

impl FromSpecImpl<Underline> for Primitive {
    open spec fn obeys_from_spec() -> bool {
        true
    }

    open spec fn from_spec(underline: Underline) -> Primitive {
        Primitive::Underline(underline)
    }
}

impl From<Shadow> for Primitive {
    fn from(shadow: Shadow) -> (primitive: Primitive) {
        Primitive::Shadow(shadow)
    }
}

impl FromSpecImpl<Shadow> for Primitive {
    open spec fn obeys_from_spec() -> bool {
        true
    }

    open spec fn from_spec(shadow: Shadow) -> Primitive {
        Primitive::Shadow(shadow)
    }
}

impl From<MonochromeSprite> for Primitive {
    fn from(sprite: MonochromeSprite) -> (primitive: Primitive) {
        Primitive::MonochromeSprite(sprite)
    }
}

impl FromSpecImpl<MonochromeSprite> for Primitive {
    open spec fn obeys_from_spec() -> bool {
        true
    }

    open spec fn from_spec(sprite: MonochromeSprite) -> Primitive {
        Primitive::MonochromeSprite(sprite)
    }
}

impl From<PolychromeSprite> for Primitive {
    fn from(sprite: PolychromeSprite) -> (primitive: Primitive) {
        Primitive::PolychromeSprite(sprite)
    }
}

impl FromSpecImpl<PolychromeSprite> for Primitive {
    open spec fn obeys_from_spec() -> bool {
        true
    }

    open spec fn from_spec(sprite: PolychromeSprite) -> Primitive {
        Primitive::PolychromeSprite(sprite)
    }
}

impl From<Surface> for Primitive {
    fn from(surface: Surface) -> (primitive: Primitive) {
        Primitive::Surface(surface)
    }
}

impl FromSpecImpl<Surface> for Primitive {
    open spec fn obeys_from_spec() -> bool {
        true
    }

    open spec fn from_spec(surface: Surface) -> Primitive {
        Primitive::Surface(surface)
    }
}

impl From<Path<ScaledPixels>> for Primitive {
    fn from(path: Path<ScaledPixels>) -> (primitive: Primitive) {
        Primitive::Path(path)
    }
}

impl FromSpecImpl<Path<ScaledPixels>> for Primitive {
    open spec fn obeys_from_spec() -> bool {
        true
    }

    open spec fn from_spec(path: Path<ScaledPixels>) -> Primitive {
        Primitive::Path(path)
    }
}

} // verus!
