//! Integer geometry: lengths, points, sizes, boxes and clip masks.
//!
//! Every coordinate is a whole number of units, so that clipping and
//! growing a box are exact. Differences that leave the range of a
//! coordinate saturate at its ends; they never wrap.

use vstd::prelude::*;

verus! {

/// A length in logical pixels, before the display scale is applied.
#[derive(Clone, Copy, Debug, PartialEq, Eq, Hash)]
pub struct Pixels(pub i32);

/// A length in physical pixels, after the display scale is applied.
#[derive(Clone, Copy, Debug, PartialEq, Eq, Hash)]
pub struct ScaledPixels(pub i32);

/// A length in texels of an atlas texture.
#[derive(Clone, Copy, Debug, PartialEq, Eq, Hash)]
pub struct DevicePixels(pub i32);

/// A display scale in 16.16 fixed point: `ScaleFactor(65536)` is one to one.
#[derive(Clone, Copy, Debug, PartialEq, Eq, Hash)]
pub struct ScaleFactor(pub u32);

/// A number that the scene only carries: the bit pattern of a
/// single-precision value, handed through untouched.
#[derive(Clone, Copy, Debug, PartialEq, Eq, Hash)]
pub struct Scalar(pub u32);

/// A colour as hue, saturation, lightness and alpha.
#[derive(Clone, Copy, Debug, PartialEq, Eq, Hash)]
pub struct Hsla {
    pub h: Scalar,
    pub s: Scalar,
    pub l: Scalar,
    pub a: Scalar,
}

#[derive(Copy, Debug, PartialEq, Eq, Hash)]
pub struct Point<T> {
    pub x: T,
    pub y: T,
}

#[derive(Copy, Debug, PartialEq, Eq, Hash)]
pub struct Size<T> {
    pub width: T,
    pub height: T,
}

/// An axis-aligned box, given by its upper left corner and its extent.
/// The extent may be zero or negative: such a box covers nothing.
#[derive(Copy, Debug, PartialEq, Eq, Hash)]
pub struct Bounds<T> {
    pub origin: Point<T>,
    pub size: Size<T>,
}

/// One value for each corner of a box.
#[derive(Copy, Debug, PartialEq, Eq, Hash)]
pub struct Corners<T> {
    pub top_left: T,
    pub top_right: T,
    pub bottom_right: T,
    pub bottom_left: T,
}

/// One value for each edge of a box.
#[derive(Copy, Debug, PartialEq, Eq, Hash)]
pub struct Edges<T> {
    pub top: T,
    pub right: T,
    pub bottom: T,
    pub left: T,
}

/// The clip region that was active when a primitive was submitted.
#[derive(Copy, Debug, PartialEq, Eq, Hash)]
pub struct ContentMask<T> {
    pub bounds: Bounds<T>,
}

impl<T: Copy> Clone for Point<T> {
    fn clone(&self) -> (res: Self)
        ensures
            res == *self,
    {
        *self
    }
}

impl<T: Copy> Clone for Size<T> {
    fn clone(&self) -> (res: Self)
        ensures
            res == *self,
    {
        *self
    }
}

impl<T: Copy> Clone for Bounds<T> {
    fn clone(&self) -> (res: Self)
        ensures
            res == *self,
    {
        *self
    }
}

impl<T: Copy> Clone for Corners<T> {
    fn clone(&self) -> (res: Self)
        ensures
            res == *self,
    {
        *self
    }
}

impl<T: Copy> Clone for Edges<T> {
    fn clone(&self) -> (res: Self)
        ensures
            res == *self,
    {
        *self
    }
}

impl<T: Copy> Clone for ContentMask<T> {
    fn clone(&self) -> (res: Self)
        ensures
            res == *self,
    {
        *self
    }
}

/// The number nearest to `v` that a coordinate can hold.
pub open spec fn saturate(v: int) -> int {
    if v < i32::MIN {
        i32::MIN as int
    } else if v > i32::MAX {
        i32::MAX as int
    } else {
        v
    }
}

pub open spec fn least(a: int, b: int) -> int {
    if a <= b {
        a
    } else {
        b
    }
}

pub open spec fn greatest(a: int, b: int) -> int {
    if a >= b {
        a
    } else {
        b
    }
}

fn saturating(v: i64) -> (r: i32)
    ensures
        r == saturate(v as int),
{
    if v < i32::MIN as i64 {
        i32::MIN
    } else if v > i32::MAX as i64 {
        i32::MAX
    } else {
        v as i32
    }
}

fn nearest(a: i64, b: i64) -> (r: i64)
    ensures
        r == least(a as int, b as int),
{
    if a <= b {
        a
    } else {
        b
    }
}

fn farthest(a: i64, b: i64) -> (r: i64)
    ensures
        r == greatest(a as int, b as int),
{
    if a >= b {
        a
    } else {
        b
    }
}

impl ScaleFactor {
    /// `v` units scaled by this factor, rounded down, saturating.
    pub open spec fn scaled(self, v: int) -> int {
        saturate((v * self.0) / 65536)
    }

    /// Scales a raw coordinate.
    pub fn apply(&self, v: i32) -> (r: i32)
        ensures
            r == self.scaled(v as int),
    {
        assert(-0x7fff_ffff_8000_0000 <= v * self.0 <= 0x7fff_ffff_8000_0000) by (nonlinear_arith)
            requires
                -0x8000_0000 <= v < 0x8000_0000,
                0 <= self.0 < 0x1_0000_0000,
        ;
        let product: i64 = v as i64 * self.0 as i64;
        let quotient: i64 = if product >= 0 {
            product / 65536
        } else {
            -((65535 - product) / 65536)
        };
        saturating(quotient)
    }
}

impl Pixels {
    pub open spec fn scaled(self, factor: ScaleFactor) -> ScaledPixels {
        ScaledPixels(factor.scaled(self.0 as int) as i32)
    }

    /// Converts a logical length to physical pixels.
    pub fn scale(&self, factor: ScaleFactor) -> (r: ScaledPixels)
        ensures
            r == self.scaled(factor),
    {
        ScaledPixels(factor.apply(self.0))
    }
}

impl Point<Pixels> {
    pub open spec fn scaled(self, factor: ScaleFactor) -> Point<ScaledPixels> {
        Point { x: self.x.scaled(factor), y: self.y.scaled(factor) }
    }

    pub fn scale(&self, factor: ScaleFactor) -> (r: Point<ScaledPixels>)
        ensures
            r == self.scaled(factor),
    {
        Point { x: self.x.scale(factor), y: self.y.scale(factor) }
    }
}

impl Size<Pixels> {
    pub open spec fn scaled(self, factor: ScaleFactor) -> Size<ScaledPixels> {
        Size { width: self.width.scaled(factor), height: self.height.scaled(factor) }
    }

    pub fn scale(&self, factor: ScaleFactor) -> (r: Size<ScaledPixels>)
        ensures
            r == self.scaled(factor),
    {
        Size { width: self.width.scale(factor), height: self.height.scale(factor) }
    }
}

impl Bounds<Pixels> {
    pub open spec fn left(self) -> int {
        self.origin.x.0 as int
    }

    pub open spec fn top(self) -> int {
        self.origin.y.0 as int
    }

    pub open spec fn right(self) -> int {
        self.origin.x.0 + self.size.width.0
    }

    pub open spec fn bottom(self) -> int {
        self.origin.y.0 + self.size.height.0
    }

    /// The box that has nothing but `point` in it.
    pub open spec fn at(point: Point<Pixels>) -> Self {
        Bounds { origin: point, size: Size { width: Pixels(0), height: Pixels(0) } }
    }

    /// The smallest box around both boxes, its extent saturating.
    pub open spec fn joined(self, other: Self) -> Self {
        let left = least(self.left(), other.left());
        let top = least(self.top(), other.top());
        let right = greatest(self.right(), other.right());
        let bottom = greatest(self.bottom(), other.bottom());
        Bounds {
            origin: Point { x: Pixels(left as i32), y: Pixels(top as i32) },
            size: Size {
                width: Pixels(saturate(right - left) as i32),
                height: Pixels(saturate(bottom - top) as i32),
            },
        }
    }

    pub open spec fn scaled(self, factor: ScaleFactor) -> Bounds<ScaledPixels> {
        Bounds { origin: self.origin.scaled(factor), size: self.size.scaled(factor) }
    }

    /// Grows this box until it holds `other` too.
    pub fn union(&self, other: &Self) -> (r: Self)
        ensures
            r == self.joined(*other),
    {
        let left: i32 = if self.origin.x.0 <= other.origin.x.0 {
            self.origin.x.0
        } else {
            other.origin.x.0
        };
        let top: i32 = if self.origin.y.0 <= other.origin.y.0 {
            self.origin.y.0
        } else {
            other.origin.y.0
        };
        let right = farthest(
            self.origin.x.0 as i64 + self.size.width.0 as i64,
            other.origin.x.0 as i64 + other.size.width.0 as i64,
        );
        let bottom = farthest(
            self.origin.y.0 as i64 + self.size.height.0 as i64,
            other.origin.y.0 as i64 + other.size.height.0 as i64,
        );
        Bounds {
            origin: Point { x: Pixels(left), y: Pixels(top) },
            size: Size {
                width: Pixels(saturating(right - left as i64)),
                height: Pixels(saturating(bottom - top as i64)),
            },
        }
    }

    pub fn scale(&self, factor: ScaleFactor) -> (r: Bounds<ScaledPixels>)
        ensures
            r == self.scaled(factor),
    {
        Bounds { origin: self.origin.scale(factor), size: self.size.scale(factor) }
    }
}

impl ContentMask<Pixels> {
    pub open spec fn scaled(self, factor: ScaleFactor) -> ContentMask<ScaledPixels> {
        ContentMask { bounds: self.bounds.scaled(factor) }
    }

    pub fn scale(&self, factor: ScaleFactor) -> (r: ContentMask<ScaledPixels>)
        ensures
            r == self.scaled(factor),
    {
        ContentMask { bounds: self.bounds.scale(factor) }
    }
}

impl Bounds<ScaledPixels> {
    pub open spec fn left(self) -> int {
        self.origin.x.0 as int
    }

    pub open spec fn top(self) -> int {
        self.origin.y.0 as int
    }

    pub open spec fn right(self) -> int {
        self.origin.x.0 + self.size.width.0
    }

    pub open spec fn bottom(self) -> int {
        self.origin.y.0 + self.size.height.0
    }

    /// The part of this box that lies inside `other`, its extent saturating.
    /// Where the boxes do not meet, the extent is zero or negative.
    pub open spec fn clipped(self, other: Self) -> Self {
        let left = greatest(self.left(), other.left());
        let top = greatest(self.top(), other.top());
        let right = least(self.right(), other.right());
        let bottom = least(self.bottom(), other.bottom());
        Bounds {
            origin: Point { x: ScaledPixels(left as i32), y: ScaledPixels(top as i32) },
            size: Size {
                width: ScaledPixels(saturate(right - left) as i32),
                height: ScaledPixels(saturate(bottom - top) as i32),
            },
        }
    }

    /// Whether the box covers any area at all.
    pub open spec fn has_area(self) -> bool {
        self.size.width.0 > 0 && self.size.height.0 > 0
    }

    /// Clips this box to `other`.
    pub fn intersect(&self, other: &Self) -> (r: Self)
        ensures
            r == self.clipped(*other),
    {
        let left: i32 = if self.origin.x.0 >= other.origin.x.0 {
            self.origin.x.0
        } else {
            other.origin.x.0
        };
        let top: i32 = if self.origin.y.0 >= other.origin.y.0 {
            self.origin.y.0
        } else {
            other.origin.y.0
        };
        let right = nearest(
            self.origin.x.0 as i64 + self.size.width.0 as i64,
            other.origin.x.0 as i64 + other.size.width.0 as i64,
        );
        let bottom = nearest(
            self.origin.y.0 as i64 + self.size.height.0 as i64,
            other.origin.y.0 as i64 + other.size.height.0 as i64,
        );
        Bounds {
            origin: Point { x: ScaledPixels(left), y: ScaledPixels(top) },
            size: Size {
                width: ScaledPixels(saturating(right - left as i64)),
                height: ScaledPixels(saturating(bottom - top as i64)),
            },
        }
    }
}

/// The clipped extent is positive exactly where the two boxes overlap
/// in both directions: saturation never changes its sign.
pub proof fn law_clipped_box_has_area_where_boxes_overlap(a: Bounds<ScaledPixels>, b: Bounds<ScaledPixels>)
    ensures
        a.clipped(b).has_area() <==> greatest(a.left(), b.left()) < least(a.right(), b.right())
            && greatest(a.top(), b.top()) < least(a.bottom(), b.bottom()),
{
}

} // verus!
