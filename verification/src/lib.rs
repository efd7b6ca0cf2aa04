//! The primitive store of a retained-mode renderer.
//!
//! A user interface is painted once per frame. While the tree of widgets
//! is walked, every shape to be painted is pushed into a [`Scene`]: the
//! scene clips it, gives it a place in the paint order and files it by
//! kind. At the end of the frame the scene sorts its lists and hands the
//! shapes back as batches: runs of one kind, and of one texture for
//! sprites, as long as the paint order allows, each of which the graphics
//! backend can draw in one submission.
//!
//! The modules, from the leaves up:
//!
//! - [`geometry`], [`atlas`]: the values that primitives are made of;
//! - [`order_index`]: the source of draw orders;
//! - [`path`]: vector paths and their triangulation;
//! - [`primitive`]: the seven kinds of primitive;
//! - [`sort`], [`paint_order`]: the order of primitives within a list;
//! - [`merge`]: what the batches of a frame are, and the laws they obey;
//! - [`batch`]: the iterator that computes them;
//! - [`primitive_batches`]: batches of a single list of mixed kinds;
//! - [`scene`]: the store itself;
//! - [`frame`]: the laws of a whole frame.

pub mod atlas;
pub mod batch;
pub mod frame;
pub mod geometry;
pub mod merge;
pub mod order_index;
pub mod paint_order;
pub mod path;
pub mod primitive;
pub mod primitive_batches;
pub mod scene;
pub mod sort;

pub use crate::batch::{BatchIterator, PrimitiveBatch};
pub use crate::path::Path;
pub use crate::primitive::{Primitive, PrimitiveKind};
pub use crate::scene::Scene;
