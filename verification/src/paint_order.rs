//! The order of primitives within a list, as the standard comparison:
//! `a < b` holds where `a` is drawn before `b`.

use std::cmp::Ordering;
use vstd::prelude::*;
use vstd::std_specs::cmp::{PartialEqSpecImpl, PartialOrdSpecImpl};
use crate::geometry::ScaledPixels;
use crate::path::Path;
use crate::primitive::{DrawKey, Keyed, MonochromeSprite, PolychromeSprite, Quad, Shadow, Surface, Underline};
use crate::sort::in_order;

verus! {

/// How a primitive with key `a` compares with one with key `b`: by draw
/// order, and by tile where the draw orders agree.
pub open spec fn comparison(a: DrawKey, b: DrawKey) -> Ordering {
    if a.order < b.order {
        Ordering::Less
    } else if a.order > b.order {
        Ordering::Greater
    } else if a.tile < b.tile {
        Ordering::Less
    } else if a.tile > b.tile {
        Ordering::Greater
    } else {
        Ordering::Equal
    }
}

/// Sorting goes by this comparison: one primitive may stand before
/// another in a sorted list exactly where it is not greater.
pub proof fn law_sorting_goes_by_comparison(a: DrawKey, b: DrawKey)
    ensures
        in_order(a, b) <==> comparison(a, b) != Ordering::Greater,
{
}

/// Compares two primitives of one list.
pub fn compare<T: Keyed>(a: &T, b: &T) -> (r: Ordering)
    ensures
        r == comparison(a.key(), b.key()),
{
    let first = a.order();
    let second = b.order();
    if first < second {
        Ordering::Less
    } else if first > second {
        Ordering::Greater
    } else {
        let first_tile = a.tile_id();
        let second_tile = b.tile_id();
        if first_tile < second_tile {
            Ordering::Less
        } else if first_tile > second_tile {
            Ordering::Greater
        } else {
            Ordering::Equal
        }
    }
}

/// Two paths are equal where they have the same draw order.
impl PartialEq for Path<ScaledPixels> {
    fn eq(&self, other: &Self) -> (r: bool) {
        self.order == other.order
    }
}

impl PartialEqSpecImpl for Path<ScaledPixels> {
    open spec fn obeys_eq_spec() -> bool {
        true
    }

    open spec fn eq_spec(&self, other: &Self) -> bool {
        self.order == other.order
    }
}

impl Eq for Path<ScaledPixels> {

}

impl PartialOrd for Quad {
    fn partial_cmp(&self, other: &Self) -> (r: Option<Ordering>) {
        Some(compare(self, other))
    }
}

impl PartialOrdSpecImpl for Quad {
    open spec fn obeys_partial_cmp_spec() -> bool {
        true
    }

    open spec fn partial_cmp_spec(&self, other: &Self) -> Option<Ordering> {
        Some(comparison(self.key(), other.key()))
    }
}

impl PartialOrd for Underline {
    fn partial_cmp(&self, other: &Self) -> (r: Option<Ordering>) {
        Some(compare(self, other))
    }
}

impl PartialOrdSpecImpl for Underline {
    open spec fn obeys_partial_cmp_spec() -> bool {
        true
    }

    open spec fn partial_cmp_spec(&self, other: &Self) -> Option<Ordering> {
        Some(comparison(self.key(), other.key()))
    }
}

impl PartialOrd for Shadow {
    fn partial_cmp(&self, other: &Self) -> (r: Option<Ordering>) {
        Some(compare(self, other))
    }
}

impl PartialOrdSpecImpl for Shadow {
    open spec fn obeys_partial_cmp_spec() -> bool {
        true
    }

    open spec fn partial_cmp_spec(&self, other: &Self) -> Option<Ordering> {
        Some(comparison(self.key(), other.key()))
    }
}

impl PartialOrd for MonochromeSprite {
    fn partial_cmp(&self, other: &Self) -> (r: Option<Ordering>) {
        Some(compare(self, other))
    }
}

impl PartialOrdSpecImpl for MonochromeSprite {
    open spec fn obeys_partial_cmp_spec() -> bool {
        true
    }

    open spec fn partial_cmp_spec(&self, other: &Self) -> Option<Ordering> {
        Some(comparison(self.key(), other.key()))
    }
}

impl PartialOrd for PolychromeSprite {
    fn partial_cmp(&self, other: &Self) -> (r: Option<Ordering>) {
        Some(compare(self, other))
    }
}

impl PartialOrdSpecImpl for PolychromeSprite {
    open spec fn obeys_partial_cmp_spec() -> bool {
        true
    }

    open spec fn partial_cmp_spec(&self, other: &Self) -> Option<Ordering> {
        Some(comparison(self.key(), other.key()))
    }
}

impl PartialOrd for Surface {
    fn partial_cmp(&self, other: &Self) -> (r: Option<Ordering>) {
        Some(compare(self, other))
    }
}

impl PartialOrdSpecImpl for Surface {
    open spec fn obeys_partial_cmp_spec() -> bool {
        true
    }

    open spec fn partial_cmp_spec(&self, other: &Self) -> Option<Ordering> {
        Some(comparison(self.key(), other.key()))
    }
}

impl PartialOrd for Path<ScaledPixels> {
    fn partial_cmp(&self, other: &Self) -> (r: Option<Ordering>) {
        Some(compare(self, other))
    }
}

impl PartialOrdSpecImpl for Path<ScaledPixels> {
    open spec fn obeys_partial_cmp_spec() -> bool {
        true
    }

    open spec fn partial_cmp_spec(&self, other: &Self) -> Option<Ordering> {
        Some(comparison(self.key(), other.key()))
    }
}

} // verus!
