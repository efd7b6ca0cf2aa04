//! Handles into the texture atlas. The scene never looks inside a tile:
//! it compares texture ids to split sprite batches, and tile ids to
//! break ties between sprites of equal draw order.

use vstd::prelude::*;
use crate::geometry::{Bounds, DevicePixels};

verus! {

/// Which of the atlas's texture families a texture belongs to.
#[derive(Clone, Copy, Debug, PartialEq, Eq, Hash, Structural)]
pub enum AtlasTextureKind {
    Monochrome,
    Polychrome,
    Path,
}

/// One texture of the atlas.
#[derive(Clone, Copy, Debug, PartialEq, Eq, Hash, Structural)]
pub struct AtlasTextureId {
    pub index: u32,
    pub kind: AtlasTextureKind,
}

/// One tile within the atlas.
#[derive(Clone, Copy, Debug, PartialEq, Eq, Hash, Structural)]
pub struct TileId(pub u32);

/// The region of a texture that holds one rasterized image.
#[derive(Clone, Copy, Debug, PartialEq, Eq, Hash)]
pub struct AtlasTile {
    pub texture_id: AtlasTextureId,
    pub tile_id: TileId,
    pub bounds: Bounds<DevicePixels>,
}

/// Whether two primitives sample the same texture, or neither samples any.
pub fn same_texture(a: Option<AtlasTextureId>, b: Option<AtlasTextureId>) -> (same: bool)
    ensures
        same == (a == b),
{
    match (a, b) {
        (Some(x), Some(y)) => x == y,
        (None, None) => true,
        _ => false,
    }
}

} // verus!
