use vstd::prelude::*;
use crate::curve_math::{cubic_coord, cubic_curve, square_coord, square_curve};
use crate::point::Point;
use crate::tick_timer::{TickTimer, STEPS};

verus! {

/// How the pen behaves while moving to a point.
#[derive(Clone, Copy, Debug, PartialEq, Eq, Structural)]
pub enum MoveType {
    /// Pen up: relocate without drawing.
    Fly,
    /// Pen down: draw a segment to the point.
    Draw,
    /// Reserved; no command produces it.
    Erase,
}

/// The kind of a path command, without its parameters.
#[derive(Clone, Copy, Debug, PartialEq, Eq, Structural)]
pub enum PathCommand {
    MoveTo,
    LineTo,
    HorizontalLineTo,
    VerticalLineTo,
    CurveTo,
    SmoothCurveTo,
    Quadratic,
    SmoothQuadratic,
    EllipticalArc,
    ClosePath,
}

/// One path command with its parameters; `abs` tells whether the coordinates
/// are absolute or relative to the current position.
#[derive(Clone, Copy, Debug, PartialEq, Eq, Structural)]
pub enum PathSegment {
    MoveTo { abs: bool, x: i64, y: i64 },
    LineTo { abs: bool, x: i64, y: i64 },
    HorizontalLineTo { abs: bool, x: i64 },
    VerticalLineTo { abs: bool, y: i64 },
    CurveTo { abs: bool, x1: i64, y1: i64, x2: i64, y2: i64, x: i64, y: i64 },
    SmoothCurveTo { abs: bool, x2: i64, y2: i64, x: i64, y: i64 },
    Quadratic { abs: bool, x1: i64, y1: i64, x: i64, y: i64 },
    SmoothQuadratic { abs: bool, x: i64, y: i64 },
    EllipticalArc {
        abs: bool,
        rx: i64,
        ry: i64,
        x_axis_rotation: i64,
        large_arc: bool,
        sweep: bool,
        x: i64,
        y: i64,
    },
    ClosePath { abs: bool },
}

impl PathSegment {
    pub open spec fn command(self) -> PathCommand {
        match self {
            PathSegment::MoveTo { .. } => PathCommand::MoveTo,
            PathSegment::LineTo { .. } => PathCommand::LineTo,
            PathSegment::HorizontalLineTo { .. } => PathCommand::HorizontalLineTo,
            PathSegment::VerticalLineTo { .. } => PathCommand::VerticalLineTo,
            PathSegment::CurveTo { .. } => PathCommand::CurveTo,
            PathSegment::SmoothCurveTo { .. } => PathCommand::SmoothCurveTo,
            PathSegment::Quadratic { .. } => PathCommand::Quadratic,
            PathSegment::SmoothQuadratic { .. } => PathCommand::SmoothQuadratic,
            PathSegment::EllipticalArc { .. } => PathCommand::EllipticalArc,
            PathSegment::ClosePath { .. } => PathCommand::ClosePath,
        }
    }

    /// The kind of this command.
    pub fn cmd(&self) -> (r: PathCommand)
        ensures
            r == self.command(),
    {
        match self {
            PathSegment::MoveTo { .. } => PathCommand::MoveTo,
            PathSegment::LineTo { .. } => PathCommand::LineTo,
            PathSegment::HorizontalLineTo { .. } => PathCommand::HorizontalLineTo,
            PathSegment::VerticalLineTo { .. } => PathCommand::VerticalLineTo,
            PathSegment::CurveTo { .. } => PathCommand::CurveTo,
            PathSegment::SmoothCurveTo { .. } => PathCommand::SmoothCurveTo,
            PathSegment::Quadratic { .. } => PathCommand::Quadratic,
            PathSegment::SmoothQuadratic { .. } => PathCommand::SmoothQuadratic,
            PathSegment::EllipticalArc { .. } => PathCommand::EllipticalArc,
            PathSegment::ClosePath { .. } => PathCommand::ClosePath,
        }
    }
}

/// The last control point of a curve, in absolute coordinates, with the kind
/// of command that produced it; a following smooth command mirrors it.
#[derive(Clone, Copy, Debug, PartialEq, Eq, Structural)]
pub struct SupportPoint {
    pub path_command: PathCommand,
    pub point: Point,
}

pub open spec fn support_wf(s: Option<SupportPoint>) -> bool {
    s.is_some() ==> s.unwrap().point.wf()
}

/// A Bezier curve in absolute coordinates.
#[derive(Clone, Copy, Debug, PartialEq, Eq, Structural)]
pub enum CurveShape {
    Quadratic { start: Point, p1: Point, end: Point },
    Cubic { start: Point, p1: Point, p2: Point, end: Point },
}

impl CurveShape {
    pub open spec fn wf(self) -> bool {
        match self {
            CurveShape::Quadratic { start, p1, end } => start.wf() && p1.wf() && end.wf(),
            CurveShape::Cubic { start, p1, p2, end } => start.wf() && p1.wf() && p2.wf()
                && end.wf(),
        }
    }

    pub open spec fn end(self) -> Point {
        match self {
            CurveShape::Quadratic { end, .. } => end,
            CurveShape::Cubic { end, .. } => end,
        }
    }

    /// The curve's point at tick `k`.
    pub open spec fn at(self, k: int) -> Point {
        match self {
            CurveShape::Quadratic { start, p1, end } => Point {
                x: square_coord(start.x as int, p1.x as int, end.x as int, k) as i64,
                y: square_coord(start.y as int, p1.y as int, end.y as int, k) as i64,
            },
            CurveShape::Cubic { start, p1, p2, end } => Point {
                x: cubic_coord(start.x as int, p1.x as int, p2.x as int, end.x as int, k) as i64,
                y: cubic_coord(start.y as int, p1.y as int, p2.y as int, end.y as int, k) as i64,
            },
        }
    }

    /// The curve's point at tick `k`.
    pub fn point_at(&self, k: u32) -> (r: Point)
        requires
            self.wf(),
            k <= STEPS,
        ensures
            r == self.at(k as int),
            r.wf(),
    {
        match self {
            CurveShape::Quadratic { start, p1, end } => square_curve(*start, *p1, *end, k),
            CurveShape::Cubic { start, p1, p2, end } => cubic_curve(*start, *p1, *p2, *end, k),
        }
    }
}

/// An elliptical arc in endpoint form, with both endpoints resolved to
/// absolute coordinates. The radii and rotation are carried unchanged from the
/// command.
#[derive(Clone, Copy, Debug, PartialEq, Eq, Structural)]
pub struct ArcGeometry {
    pub start: Point,
    pub end: Point,
    pub rx: i64,
    pub ry: i64,
    pub x_axis_rotation: i64,
    pub large_arc: bool,
    pub sweep: bool,
}

/// The producer of a segment that draws nothing.
#[derive(Clone, Copy, Debug, PartialEq, Eq, Structural)]
pub struct EmptyPointIterator {
    pub end: Point,
}

/// The producer of a segment that is its end point alone.
#[derive(Clone, Copy, Debug, PartialEq, Eq, Structural)]
pub struct LinePointIterator {
    pub end: Point,
    pub move_type: MoveType,
    pub done: bool,
    pub support_point: Option<SupportPoint>,
}

/// The producer of a sampled Bezier curve: one point per tick.
#[derive(Clone, Copy, Debug, PartialEq, Eq, Structural)]
pub struct CurvePointIterator {
    pub time: TickTimer,
    pub shape: CurveShape,
    pub support_point: Option<SupportPoint>,
}

/// The producer of a sampled elliptical arc: one parameter tick per point. The
/// arc's points themselves are evaluated outside this library.
#[derive(Clone, Copy, Debug, PartialEq, Eq, Structural)]
pub struct EllipsePointIterator {
    pub time: TickTimer,
    pub arc: ArcGeometry,
}

/// The point producer of one segment.
#[derive(Clone, Copy, Debug, PartialEq, Eq, Structural)]
pub enum PointIterator {
    Empty(EmptyPointIterator),
    Line(LinePointIterator),
    Curve(CurvePointIterator),
    Ellipse(EllipsePointIterator),
}

impl PointIterator {
    /// Every point it holds lies in the coordinate range.
    pub open spec fn wf(self) -> bool {
        match self {
            PointIterator::Empty(it) => it.end.wf(),
            PointIterator::Line(it) => it.end.wf() && support_wf(it.support_point),
            PointIterator::Curve(it) => it.shape.wf() && support_wf(it.support_point),
            PointIterator::Ellipse(it) => it.arc.start.wf() && it.arc.end.wf(),
        }
    }

    /// Where the pen stands after the segment.
    pub open spec fn end_position(self) -> Point {
        match self {
            PointIterator::Empty(it) => it.end,
            PointIterator::Line(it) => it.end,
            PointIterator::Curve(it) => it.shape.end(),
            PointIterator::Ellipse(it) => it.arc.end,
        }
    }

    /// The control point a following smooth command may mirror.
    pub open spec fn support(self) -> Option<SupportPoint> {
        match self {
            PointIterator::Line(it) => it.support_point,
            PointIterator::Curve(it) => it.support_point,
            _ => None,
        }
    }

    /// How the pen moves to the segment's points.
    pub open spec fn kind(self) -> MoveType {
        match self {
            PointIterator::Empty(_) => MoveType::Fly,
            PointIterator::Line(it) => it.move_type,
            _ => MoveType::Draw,
        }
    }

    /// The points still to be produced (an arc's are evaluated elsewhere and
    /// are not listed here).
    pub open spec fn points(self) -> Seq<Point> {
        match self {
            PointIterator::Line(it) => if it.done { seq![] } else { seq![it.end] },
            PointIterator::Curve(it) => it.time.remaining().map_values(|k: u32| it.shape.at(k as int)),
            _ => seq![],
        }
    }

    pub open spec fn is_ellipse(self) -> bool {
        self is Ellipse
    }

    pub fn get_end_position(&self) -> (r: Point)
        requires
            self.wf(),
        ensures
            r == self.end_position(),
    {
        match self {
            PointIterator::Empty(it) => it.end,
            PointIterator::Line(it) => it.end,
            PointIterator::Curve(it) => it.get_end_position(),
            PointIterator::Ellipse(it) => it.arc.end,
        }
    }

    pub fn get_support_point(&self) -> (r: Option<SupportPoint>)
        ensures
            r == self.support(),
    {
        match self {
            PointIterator::Line(it) => it.support_point,
            PointIterator::Curve(it) => it.support_point,
            _ => None,
        }
    }

    pub fn move_type(&self) -> (r: MoveType)
        ensures
            r == self.kind(),
    {
        match self {
            PointIterator::Empty(_) => MoveType::Fly,
            PointIterator::Line(it) => it.move_type,
            _ => MoveType::Draw,
        }
    }
}

/// The curve passes through its end point at the last tick.
pub proof fn lemma_curve_ends_at_end(shape: CurveShape)
    requires
        shape.wf(),
    ensures
        shape.at(STEPS as int) == shape.end(),
{
    let n = STEPS as int;
    assert(n - n == 0);
    match shape {
        CurveShape::Quadratic { start, p1, end } => {
            assert forall|s: int, p: int, e: int| square_coord(s, p, e, n) == e by {
                assert(s * (0 * 0) + p * (2 * n * 0) + e * (n * n) == e * (n * n))
                    by (nonlinear_arith);
                assert(e * (n * n) / (n * n) == e) by (nonlinear_arith) requires n > 0;
            }
            assert(square_coord(start.x as int, p1.x as int, end.x as int, n) == end.x);
            assert(square_coord(start.y as int, p1.y as int, end.y as int, n) == end.y);
        },
        CurveShape::Cubic { start, p1, p2, end } => {
            assert forall|s: int, p: int, q: int, e: int| cubic_coord(s, p, q, e, n) == e by {
                assert(s * (0 * 0 * 0) + p * (3 * n * 0 * 0) + q * (3 * n * n * 0) + e * (n * n
                    * n) == e * (n * n * n)) by (nonlinear_arith);
                assert(e * (n * n * n) / (n * n * n) == e) by (nonlinear_arith) requires n > 0;
            }
            assert(cubic_coord(start.x as int, p1.x as int, p2.x as int, end.x as int, n)
                == end.x);
            assert(cubic_coord(start.y as int, p1.y as int, p2.y as int, end.y as int, n)
                == end.y);
        },
    }
}

impl CurvePointIterator {
    /// The curve's point at its last tick, which is its end point.
    pub fn get_end_position(&self) -> (r: Point)
        requires
            self.shape.wf(),
        ensures
            r == self.shape.end(),
    {
        proof {
            lemma_curve_ends_at_end(self.shape);
        }
        self.shape.point_at(STEPS)
    }
}

impl LinePointIterator {
    /// A producer of the single point `end`, with no support point.
    pub fn new(end: Point, move_type: MoveType) -> (r: LinePointIterator)
        ensures
            r == (LinePointIterator { end, move_type, done: false, support_point: None }),
    {
        LinePointIterator { end, move_type, done: false, support_point: None }
    }

    /// A producer of the single point `end` standing for a curve, keeping the
    /// curve's support point.
    pub fn as_fake_curve(end: Point, move_type: MoveType, support_point: Option<SupportPoint>) -> (r:
        LinePointIterator)
        ensures
            r == (LinePointIterator { end, move_type, done: false, support_point }),
    {
        LinePointIterator { end, move_type, done: false, support_point }
    }

    /// Yields the end point once.
    pub fn next(&mut self) -> (r: Option<Point>)
        ensures
            r == if old(self).done { None } else { Some(old(self).end) },
            *final(self) == (LinePointIterator { done: true, ..*old(self) }),
    {
        if self.done {
            None
        } else {
            self.done = true;
            Some(self.end)
        }
    }
}

impl CurvePointIterator {
    /// Yields the curve's point at the next tick.
    pub fn next(&mut self) -> (r: Option<Point>)
        requires
            old(self).shape.wf(),
        ensures
            r == if old(self).time.tick <= STEPS {
                Some(old(self).shape.at(old(self).time.tick as int))
            } else {
                None
            },
            final(self).shape == old(self).shape,
            final(self).support_point == old(self).support_point,
            final(self).time.remaining() =~= if old(self).time.tick <= STEPS {
                old(self).time.remaining().drop_first()
            } else {
                old(self).time.remaining()
            },
    {
        match self.time.next() {
            Some(k) => Some(self.shape.point_at(k)),
            None => None,
        }
    }
}

impl EllipsePointIterator {
    /// Yields the next parameter tick at which the arc is to be evaluated.
    pub fn next(&mut self) -> (r: Option<u32>)
        ensures
            r == if old(self).time.tick <= STEPS { Some(old(self).time.tick) } else { None },
            final(self).arc == old(self).arc,
            final(self).time.remaining() =~= if old(self).time.tick <= STEPS {
                old(self).time.remaining().drop_first()
            } else {
                old(self).time.remaining()
            },
    {
        self.time.next()
    }
}

impl PointIterator {
    /// Yields the next point of a line or curve producer; an empty producer
    /// yields none.
    pub fn next(&mut self) -> (r: Option<Point>)
        requires
            old(self).wf(),
            !old(self).is_ellipse(),
        ensures
            r == if old(self).points().len() > 0 { Some(old(self).points()[0]) } else { None },
            final(self).points() =~= if old(self).points().len() > 0 {
                old(self).points().drop_first()
            } else {
                old(self).points()
            },
            final(self).wf(),
            !final(self).is_ellipse(),
            final(self).kind() == old(self).kind(),
    {
        match self {
            PointIterator::Empty(_) => None,
            PointIterator::Line(it) => it.next(),
            PointIterator::Curve(it) => it.next(),
            PointIterator::Ellipse(_) => None,
        }
    }
}

} // verus!
