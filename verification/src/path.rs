//! Vector paths: a curve is drawn segment by segment and triangulated as
//! it grows. Straight interior is covered by a fan of triangles around the
//! start point; each curved edge adds one triangle whose surface
//! coordinates let the rasterizer evaluate the quadratic edge per pixel.

use vstd::prelude::*;
use crate::geometry::{Bounds, ContentMask, Hsla, Pixels, Point, ScaleFactor, Scalar, ScaledPixels, Size};
use crate::order_index::DrawOrder;

verus! {

/// The bit pattern of zero.
pub const ST_ZERO: u32 = 0;

/// The bit pattern of one half.
pub const ST_HALF: u32 = 0x3f00_0000;

/// The bit pattern of one.
pub const ST_ONE: u32 = 0x3f80_0000;

/// The identity of a path within its scene. It does not change when the
/// scene reorders its paths.
#[derive(Clone, Copy, Debug, PartialEq, Eq, Hash)]
pub struct PathId(pub usize);

/// One corner of a triangle of a path.
#[derive(Copy, Debug, PartialEq, Eq)]
pub struct PathVertex<P> {
    pub xy_position: Point<P>,
    pub st_position: Point<Scalar>,
    pub content_mask: ContentMask<P>,
}

impl<P: Copy> Clone for PathVertex<P> {
    fn clone(&self) -> (res: Self)
        ensures
            res == *self,
    {
        *self
    }
}

/// A line made up of a series of vertices and control points.
#[derive(Debug)]
pub struct Path<P> {
    pub id: PathId,
    pub order: DrawOrder,
    pub bounds: Bounds<P>,
    pub content_mask: ContentMask<P>,
    pub vertices: Vec<PathVertex<P>>,
    pub color: Hsla,
    pub start: Point<P>,
    pub current: Point<P>,
    pub contour_count: usize,
}

impl<P: Copy> Clone for Path<P> {
    fn clone(&self) -> (res: Self)
        ensures
            res@ == self@,
    {
        let vertices = self.vertices.clone();
        assert(vertices@ =~= self.vertices@);
        Path {
            id: self.id,
            order: self.order,
            bounds: self.bounds,
            content_mask: self.content_mask,
            vertices,
            color: self.color,
            start: self.start,
            current: self.current,
            contour_count: self.contour_count,
        }
    }
}

/// A path as a mathematical value.
pub struct PathView<P> {
    pub id: PathId,
    pub order: DrawOrder,
    pub bounds: Bounds<P>,
    pub content_mask: ContentMask<P>,
    pub vertices: Seq<PathVertex<P>>,
    pub color: Hsla,
    pub start: Point<P>,
    pub current: Point<P>,
    pub contour_count: nat,
}

impl<P> View for Path<P> {
    type V = PathView<P>;

    open spec fn view(&self) -> PathView<P> {
        PathView {
            id: self.id,
            order: self.order,
            bounds: self.bounds,
            content_mask: self.content_mask,
            vertices: self.vertices@,
            color: self.color,
            start: self.start,
            current: self.current,
            contour_count: self.contour_count as nat,
        }
    }
}

/// The surface coordinates `(s, t)` from their bit patterns.
pub open spec fn st(s: u32, t: u32) -> Point<Scalar> {
    Point { x: Scalar(s), y: Scalar(t) }
}

/// The clip mask of a vertex that has not been clipped yet.
pub open spec fn no_mask() -> ContentMask<Pixels> {
    ContentMask {
        bounds: Bounds {
            origin: Point { x: Pixels(0), y: Pixels(0) },
            size: Size { width: Pixels(0), height: Pixels(0) },
        },
    }
}

/// The vertex at `xy` with surface coordinates `st`.
pub open spec fn vertex(xy: Point<Pixels>, st: Point<Scalar>) -> PathVertex<Pixels> {
    PathVertex { xy_position: xy, st_position: st, content_mask: no_mask() }
}

/// The triangle that fills the interior between the start point and one
/// segment: all three corners lie fully inside.
pub open spec fn fan_triangle(start: Point<Pixels>, from: Point<Pixels>, to: Point<Pixels>) -> Seq<
    PathVertex<Pixels>,
> {
    seq![
        vertex(start, st(ST_ZERO, ST_ONE)),
        vertex(from, st(ST_ZERO, ST_ONE)),
        vertex(to, st(ST_ZERO, ST_ONE)),
    ]
}

/// The triangle under a quadratic curve from `from` to `to` with control
/// point `ctrl`.
pub open spec fn curve_triangle(from: Point<Pixels>, ctrl: Point<Pixels>, to: Point<Pixels>) -> Seq<
    PathVertex<Pixels>,
> {
    seq![
        vertex(from, st(ST_ZERO, ST_ZERO)),
        vertex(ctrl, st(ST_HALF, ST_ZERO)),
        vertex(to, st(ST_ONE, ST_ONE)),
    ]
}

impl PathView<Pixels> {
    /// The path that starts at `start` and has no segment yet.
    pub open spec fn fresh(start: Point<Pixels>) -> Self {
        PathView {
            id: PathId(0),
            order: 0,
            bounds: Bounds::<Pixels>::at(start),
            content_mask: no_mask(),
            vertices: Seq::empty(),
            color: Hsla { h: Scalar(0), s: Scalar(0), l: Scalar(0), a: Scalar(0) },
            start,
            current: start,
            contour_count: 0,
        }
    }

    /// The path with one more triangle: its bounds grow to hold the three
    /// corners.
    pub open spec fn with_triangle(self, triangle: Seq<PathVertex<Pixels>>) -> Self {
        PathView {
            bounds: self.bounds.joined(Bounds::<Pixels>::at(triangle[0].xy_position)).joined(
                Bounds::<Pixels>::at(triangle[1].xy_position),
            ).joined(Bounds::<Pixels>::at(triangle[2].xy_position)),
            vertices: self.vertices + triangle,
            ..self
        }
    }

    /// The path with the interior of the segment to `to` filled in. The
    /// first segment of a path encloses nothing.
    pub open spec fn with_fan(self, to: Point<Pixels>) -> Self {
        if self.contour_count > 0 {
            self.with_triangle(fan_triangle(self.start, self.current, to))
        } else {
            self
        }
    }

    /// The path after a straight line to `to`.
    pub open spec fn with_line(self, to: Point<Pixels>) -> Self {
        PathView { current: to, contour_count: self.contour_count + 1, ..self.with_fan(to) }
    }

    /// The path after a curve to `to` with control point `ctrl`.
    pub open spec fn with_curve(self, to: Point<Pixels>, ctrl: Point<Pixels>) -> Self {
        PathView {
            current: to,
            contour_count: self.contour_count + 1,
            ..self.with_fan(to).with_triangle(curve_triangle(self.current, ctrl, to))
        }
    }

    /// The path in physical pixels.
    pub open spec fn scaled(self, factor: ScaleFactor) -> PathView<ScaledPixels> {
        PathView {
            id: self.id,
            order: self.order,
            bounds: self.bounds.scaled(factor),
            content_mask: self.content_mask.scaled(factor),
            vertices: self.vertices.map_values(|v: PathVertex<Pixels>| v.scaled(factor)),
            color: self.color,
            start: self.start.scaled(factor),
            current: self.current.scaled(factor),
            contour_count: self.contour_count,
        }
    }

    /// Every segment but the first has left at least one triangle. This
    /// holds of every path that `new`, `line_to` and `curve_to` build.
    pub open spec fn wf(self) -> bool {
        self.contour_count > 0 ==> 3 * (self.contour_count - 1) <= self.vertices.len()
    }
}

impl PathVertex<Pixels> {
    pub open spec fn scaled(self, factor: ScaleFactor) -> PathVertex<ScaledPixels> {
        PathVertex {
            xy_position: self.xy_position.scaled(factor),
            st_position: self.st_position,
            content_mask: self.content_mask.scaled(factor),
        }
    }

    /// Converts the vertex to physical pixels. Its surface coordinates do
    /// not depend on the scale.
    pub fn scale(&self, factor: ScaleFactor) -> (r: PathVertex<ScaledPixels>)
        ensures
            r == self.scaled(factor),
    {
        PathVertex {
            xy_position: self.xy_position.scale(factor),
            st_position: self.st_position,
            content_mask: self.content_mask.scale(factor),
        }
    }
}

impl Path<Pixels> {
    /// Create a new path with the given starting point.
    pub fn new(start: Point<Pixels>) -> (path: Self)
        ensures
            path@ == PathView::<Pixels>::fresh(start),
            path@.wf(),
    {
        let zero = Size { width: Pixels(0), height: Pixels(0) };
        Path {
            id: PathId(0),
            order: 0,
            vertices: Vec::new(),
            start,
            current: start,
            bounds: Bounds { origin: start, size: zero },
            content_mask: ContentMask {
                bounds: Bounds { origin: Point { x: Pixels(0), y: Pixels(0) }, size: zero },
            },
            color: Hsla { h: Scalar(0), s: Scalar(0), l: Scalar(0), a: Scalar(0) },
            contour_count: 0,
        }
    }

    /// Scale this path by the given factor.
    pub fn scale(&self, factor: ScaleFactor) -> (scaled: Path<ScaledPixels>)
        ensures
            scaled@ == self@.scaled(factor),
    {
        let mut vertices: Vec<PathVertex<ScaledPixels>> = Vec::new();
        let mut i: usize = 0;
        while i < self.vertices.len()
            invariant
                i <= self.vertices.len(),
                vertices@ == self.vertices@.subrange(0, i as int).map_values(
                    |v: PathVertex<Pixels>| v.scaled(factor),
                ),
            decreases self.vertices.len() - i,
        {
            vertices.push(self.vertices[i].scale(factor));
            i += 1;
        }
        assert(self.vertices@.subrange(0, i as int) == self.vertices@);
        Path {
            id: self.id,
            order: self.order,
            bounds: self.bounds.scale(factor),
            content_mask: self.content_mask.scale(factor),
            vertices,
            start: self.start.scale(factor),
            current: self.current.scale(factor),
            contour_count: self.contour_count,
            color: self.color,
        }
    }

    /// A path that is built by `new`, `line_to` and `curve_to` alone never
    /// runs out of room for a further segment.
    pub proof fn lemma_can_grow(&self)
        requires
            self@.wf(),
        ensures
            self.contour_count < usize::MAX,
    {
        assert(self.vertices.len() == self.vertices@.len());
    }

    /// Draw a straight line from the current point to the given point.
    pub fn line_to(&mut self, to: Point<Pixels>)
        requires
            old(self).contour_count < usize::MAX,
        ensures
            final(self)@ == old(self)@.with_line(to),
            old(self)@.wf() ==> final(self)@.wf(),
    {
        self.contour_count += 1;
        if self.contour_count > 1 {
            self.push_triangle(
                (self.start, self.current, to),
                (
                    Point { x: Scalar(ST_ZERO), y: Scalar(ST_ONE) },
                    Point { x: Scalar(ST_ZERO), y: Scalar(ST_ONE) },
                    Point { x: Scalar(ST_ZERO), y: Scalar(ST_ONE) },
                ),
            );
        }
        self.current = to;
    }

    /// Draw a curve from the current point to the given point, using the given control point.
    pub fn curve_to(&mut self, to: Point<Pixels>, ctrl: Point<Pixels>)
        requires
            old(self).contour_count < usize::MAX,
        ensures
            final(self)@ == old(self)@.with_curve(to, ctrl),
            old(self)@.wf() ==> final(self)@.wf(),
    {
        self.contour_count += 1;
        if self.contour_count > 1 {
            self.push_triangle(
                (self.start, self.current, to),
                (
                    Point { x: Scalar(ST_ZERO), y: Scalar(ST_ONE) },
                    Point { x: Scalar(ST_ZERO), y: Scalar(ST_ONE) },
                    Point { x: Scalar(ST_ZERO), y: Scalar(ST_ONE) },
                ),
            );
        }
        self.push_triangle(
            (self.current, ctrl, to),
            (
                Point { x: Scalar(ST_ZERO), y: Scalar(ST_ZERO) },
                Point { x: Scalar(ST_HALF), y: Scalar(ST_ZERO) },
                Point { x: Scalar(ST_ONE), y: Scalar(ST_ONE) },
            ),
        );
        self.current = to;
    }

    fn push_triangle(
        &mut self,
        xy: (Point<Pixels>, Point<Pixels>, Point<Pixels>),
        st: (Point<Scalar>, Point<Scalar>, Point<Scalar>),
    )
        ensures
            final(self)@ == old(self)@.with_triangle(
                seq![vertex(xy.0, st.0), vertex(xy.1, st.1), vertex(xy.2, st.2)],
            ),
    {
        let zero = Size { width: Pixels(0), height: Pixels(0) };
        let unmasked = ContentMask {
            bounds: Bounds { origin: Point { x: Pixels(0), y: Pixels(0) }, size: zero },
        };
        self.bounds = self.bounds.union(&Bounds { origin: xy.0, size: zero }).union(
            &Bounds { origin: xy.1, size: zero },
        ).union(&Bounds { origin: xy.2, size: zero });

        self.vertices.push(
            PathVertex { xy_position: xy.0, st_position: st.0, content_mask: unmasked },
        );
        self.vertices.push(
            PathVertex { xy_position: xy.1, st_position: st.1, content_mask: unmasked },
        );
        self.vertices.push(
            PathVertex { xy_position: xy.2, st_position: st.2, content_mask: unmasked },
        );
        assert(self.vertices@ =~= old(self).vertices@ + seq![
            vertex(xy.0, st.0),
            vertex(xy.1, st.1),
            vertex(xy.2, st.2),
        ]);
    }
}

/// The first segment of a path encloses nothing: a line that opens a path
/// leaves no triangle.
pub proof fn law_first_line_leaves_no_triangle(path: PathView<Pixels>, to: Point<Pixels>)
    requires
        path.contour_count == 0,
    ensures
        path.with_line(to).vertices == path.vertices,
        path.with_line(to).bounds == path.bounds,
{
}

/// Every line after the first leaves exactly one triangle, from the start
/// point over the previous point to the new one, and each of its corners
/// carries the surface coordinates (0, 1).
pub proof fn law_later_line_leaves_one_fan(path: PathView<Pixels>, to: Point<Pixels>)
    requires
        path.contour_count > 0,
    ensures
        path.with_line(to).vertices == path.vertices + fan_triangle(path.start, path.current, to),
        path.with_line(to).vertices.len() == path.vertices.len() + 3,
        forall|i: int|
            path.vertices.len() <= i < path.vertices.len() + 3 ==> (
            #[trigger] path.with_line(to).vertices[i]).st_position == st(ST_ZERO, ST_ONE),
{
}

/// A curve leaves what the line to the same point leaves and one triangle
/// more: the one under the curve, from the previous point over the control
/// point to the new one, with the surface coordinates (0, 0), (one half, 0)
/// and (1, 1).
pub proof fn law_curve_leaves_one_more_triangle(
    path: PathView<Pixels>,
    to: Point<Pixels>,
    ctrl: Point<Pixels>,
)
    ensures
        path.with_curve(to, ctrl).vertices == path.with_line(to).vertices + curve_triangle(
            path.current,
            ctrl,
            to,
        ),
        path.with_curve(to, ctrl).vertices.len() == path.with_line(to).vertices.len() + 3,
        curve_triangle(path.current, ctrl, to)[0] == vertex(path.current, st(ST_ZERO, ST_ZERO)),
        curve_triangle(path.current, ctrl, to)[1] == vertex(ctrl, st(ST_HALF, ST_ZERO)),
        curve_triangle(path.current, ctrl, to)[2] == vertex(to, st(ST_ONE, ST_ONE)),
        path.with_curve(to, ctrl).current == path.with_line(to).current,
        path.with_curve(to, ctrl).contour_count == path.with_line(to).contour_count,
{
}

/// Scaling keeps the shape of a path: the number of vertices, the number
/// of segments, the colour, the identity and the draw order, and the
/// surface coordinates of every vertex.
pub proof fn law_scale_keeps_shape(path: PathView<Pixels>, factor: ScaleFactor)
    ensures
        path.scaled(factor).vertices.len() == path.vertices.len(),
        path.scaled(factor).contour_count == path.contour_count,
        path.scaled(factor).color == path.color,
        path.scaled(factor).id == path.id,
        path.scaled(factor).order == path.order,
        forall|i: int|
            0 <= i < path.vertices.len() ==> (#[trigger] path.scaled(factor).vertices[i]).st_position
                == path.vertices[i].st_position,
{
}

} // verus!
