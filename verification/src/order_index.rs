//! The source of draw orders.

use vstd::prelude::*;
use crate::geometry::{Bounds, ScaledPixels};

verus! {

/// A place in the paint order of one frame: what has the higher draw
/// order is drawn on top.
pub type DrawOrder = u32;

/// Hands out one draw order for every box that is inserted, and keeps the
/// box.
///
/// Draw orders count up from 1 in the sequence of insertions, so none is
/// handed out twice within a frame and a later insertion always lies above
/// an earlier one.
#[derive(Debug)]
pub struct OrderIndex {
    boxes: Vec<Bounds<ScaledPixels>>,
}

impl View for OrderIndex {
    type V = Seq<Bounds<ScaledPixels>>;

    /// The boxes inserted since the index was last empty, the first
    /// first: the box at place `i` went with the draw order `i + 1`.
    closed spec fn view(&self) -> Seq<Bounds<ScaledPixels>> {
        self.boxes@
    }
}

impl OrderIndex {
    /// An index without boxes.
    pub fn new() -> (index: Self)
        ensures
            index@ == Seq::<Bounds<ScaledPixels>>::empty(),
    {
        OrderIndex { boxes: Vec::new() }
    }

    /// The number of boxes in the index.
    pub fn len(&self) -> (n: usize)
        ensures
            n == self@.len(),
    {
        self.boxes.len()
    }

    /// Takes a box into the index and hands out its draw order.
    pub fn insert(&mut self, bounds: Bounds<ScaledPixels>) -> (order: DrawOrder)
        requires
            old(self)@.len() < u32::MAX,
        ensures
            final(self)@ == old(self)@.push(bounds),
            order == old(self)@.len() + 1,
    {
        self.boxes.push(bounds);
        self.boxes.len() as u32
    }

    /// The box that went with a draw order, if the order was handed out
    /// in this frame.
    pub fn get(&self, order: DrawOrder) -> (bounds: Option<Bounds<ScaledPixels>>)
        ensures
            bounds == (if 1 <= order <= self@.len() {
                Some(self@[order - 1])
            } else {
                None
            }),
    {
        if order == 0 {
            return None;
        }
        let place = (order - 1) as usize;
        if place < self.boxes.len() {
            Some(self.boxes[place])
        } else {
            None
        }
    }

    /// Empties the index: the next draw order is 1 again.
    pub fn clear(&mut self)
        ensures
            final(self)@ == Seq::<Bounds<ScaledPixels>>::empty(),
    {
        self.boxes.clear();
    }
}

impl Default for OrderIndex {
    fn default() -> (index: Self)
        ensures
            index@ == Seq::<Bounds<ScaledPixels>>::empty(),
    {
        OrderIndex::new()
    }
}

} // verus!
