use vstd::prelude::*;
use crate::curve_math::{is_point_on_lane, on_lane};
use crate::point::{in_range, Point, MAX_COORD};
use crate::segment::{
    support_wf, ArcGeometry, CurvePointIterator, CurveShape, EllipsePointIterator,
    EmptyPointIterator, LinePointIterator, MoveType, PathCommand, PathSegment, PointIterator,
    SupportPoint,
};
use crate::tick_timer::TickTimer;

verus! {

/// Which curve family a smooth command continues.
#[derive(Clone, Copy, Debug, PartialEq, Eq, Structural)]
pub enum CurveType {
    Cubic,
    Quadratic,
}

/// Both coordinates of an exact point lie in the coordinate range.
pub open spec fn fits(v: (int, int)) -> bool {
    in_range(v.0) && in_range(v.1)
}

pub open spec fn as_point(v: (int, int)) -> Point {
    Point { x: v.0 as i64, y: v.1 as i64 }
}

/// The absolute point that `(x, y)` names from `current`.
pub open spec fn resolve(current: Point, abs: bool, x: int, y: int) -> (int, int) {
    if abs {
        (x, y)
    } else {
        (current.x + x, current.y + y)
    }
}

/// A command of kind `cmd` continues a curve of family `curve_type`.
pub open spec fn continues(cmd: PathCommand, curve_type: CurveType) -> bool {
    match curve_type {
        CurveType::Cubic => cmd == PathCommand::CurveTo || cmd == PathCommand::SmoothCurveTo,
        CurveType::Quadratic => cmd == PathCommand::Quadratic || cmd
            == PathCommand::SmoothQuadratic,
    }
}

/// The implicit first control point of a smooth command: the previous control
/// point reflected through `current` where the previous command was of the
/// same family, else `current` itself.
pub open spec fn mirror(current: Point, support: Option<SupportPoint>, curve_type: CurveType) -> (
    int,
    int,
) {
    if support.is_some() && continues(support.unwrap().path_command, curve_type) {
        (2 * current.x - support.unwrap().point.x, 2 * current.y - support.unwrap().point.y)
    } else {
        (current.x as int, current.y as int)
    }
}

pub open spec fn single(end: Point, move_type: MoveType) -> PointIterator {
    PointIterator::Line(LinePointIterator { end, move_type, done: false, support_point: None })
}

/// A cubic from `current`: drawn as its end point alone where both controls
/// lie on the chord, else sampled.
pub open spec fn cubic_iter(current: Point, p1: Point, p2: Point, end: Point, cmd: PathCommand)
    -> PointIterator {
    let support_point = Some(SupportPoint { path_command: cmd, point: p2 });
    if on_lane(current, end, p1) && on_lane(current, end, p2) {
        PointIterator::Line(
            LinePointIterator { end, move_type: MoveType::Draw, done: false, support_point },
        )
    } else {
        PointIterator::Curve(
            CurvePointIterator {
                time: TickTimer { tick: 0 },
                shape: CurveShape::Cubic { start: current, p1, p2, end },
                support_point,
            },
        )
    }
}

/// A quadratic from `current`: drawn as its end point alone where the control
/// lies on the chord, else sampled.
pub open spec fn quadratic_iter(current: Point, p1: Point, end: Point, cmd: PathCommand)
    -> PointIterator {
    let support_point = Some(SupportPoint { path_command: cmd, point: p1 });
    if on_lane(current, end, p1) {
        PointIterator::Line(
            LinePointIterator { end, move_type: MoveType::Draw, done: false, support_point },
        )
    } else {
        PointIterator::Curve(
            CurvePointIterator {
                time: TickTimer { tick: 0 },
                shape: CurveShape::Quadratic { start: current, p1, end },
                support_point,
            },
        )
    }
}

/// An arc from `current` to the absolute point `end`.
pub open spec fn arc_iter(
    current: Point,
    rx: i64,
    ry: i64,
    x_axis_rotation: i64,
    large_arc: bool,
    sweep: bool,
    end: Point,
) -> PointIterator {
    if end == current {
        PointIterator::Empty(EmptyPointIterator { end })
    } else if rx == 0 || ry == 0 {
        single(end, MoveType::Draw)
    } else {
        PointIterator::Ellipse(
            EllipsePointIterator {
                time: TickTimer { tick: 0 },
                arc: ArcGeometry {
                    start: current,
                    end,
                    rx,
                    ry,
                    x_axis_rotation,
                    large_arc,
                    sweep,
                },
            },
        )
    }
}

/// The producer of `segment` from `current`; `None` where a point it names
/// falls outside the coordinate range.
pub open spec fn segment_iter(
    current: Point,
    segment: PathSegment,
    support: Option<SupportPoint>,
    path_start: Point,
) -> Option<PointIterator> {
    match segment {
        PathSegment::MoveTo { abs, x, y } => {
            let e = resolve(current, abs, x as int, y as int);
            if fits(e) { Some(single(as_point(e), MoveType::Fly)) } else { None }
        },
        PathSegment::LineTo { abs, x, y } => {
            let e = resolve(current, abs, x as int, y as int);
            if fits(e) { Some(single(as_point(e), MoveType::Draw)) } else { None }
        },
        PathSegment::HorizontalLineTo { abs, x } => {
            let e = if abs { (x as int, current.y as int) } else { (current.x + x, current.y as int) };
            if fits(e) { Some(single(as_point(e), MoveType::Draw)) } else { None }
        },
        PathSegment::VerticalLineTo { abs, y } => {
            let e = if abs { (current.x as int, y as int) } else { (current.x as int, current.y + y) };
            if fits(e) { Some(single(as_point(e), MoveType::Draw)) } else { None }
        },
        PathSegment::CurveTo { abs, x1, y1, x2, y2, x, y } => {
            let a = resolve(current, abs, x1 as int, y1 as int);
            let b = resolve(current, abs, x2 as int, y2 as int);
            let e = resolve(current, abs, x as int, y as int);
            if fits(a) && fits(b) && fits(e) {
                Some(cubic_iter(current, as_point(a), as_point(b), as_point(e), PathCommand::CurveTo))
            } else {
                None
            }
        },
        PathSegment::SmoothCurveTo { abs, x2, y2, x, y } => {
            let a = mirror(current, support, CurveType::Cubic);
            let b = resolve(current, abs, x2 as int, y2 as int);
            let e = resolve(current, abs, x as int, y as int);
            if fits(a) && fits(b) && fits(e) {
                Some(
                    cubic_iter(
                        current,
                        as_point(a),
                        as_point(b),
                        as_point(e),
                        PathCommand::SmoothCurveTo,
                    ),
                )
            } else {
                None
            }
        },
        PathSegment::Quadratic { abs, x1, y1, x, y } => {
            let a = resolve(current, abs, x1 as int, y1 as int);
            let e = resolve(current, abs, x as int, y as int);
            if fits(a) && fits(e) {
                Some(quadratic_iter(current, as_point(a), as_point(e), PathCommand::Quadratic))
            } else {
                None
            }
        },
        PathSegment::SmoothQuadratic { abs, x, y } => {
            let a = mirror(current, support, CurveType::Quadratic);
            let e = resolve(current, abs, x as int, y as int);
            if fits(a) && fits(e) {
                Some(
                    quadratic_iter(current, as_point(a), as_point(e), PathCommand::SmoothQuadratic),
                )
            } else {
                None
            }
        },
        PathSegment::EllipticalArc { abs, rx, ry, x_axis_rotation, large_arc, sweep, x, y } => {
            let e = resolve(current, abs, x as int, y as int);
            if fits(e) {
                Some(arc_iter(current, rx, ry, x_axis_rotation, large_arc, sweep, as_point(e)))
            } else {
                None
            }
        },
        PathSegment::ClosePath { .. } => Some(single(path_start, MoveType::Draw)),
    }
}

fn checked_coord(v: i128) -> (r: Option<i64>)
    ensures
        r == if in_range(v as int) { Some(v as i64) } else { None },
{
    if -(MAX_COORD as i128) <= v && v <= MAX_COORD as i128 {
        Some(v as i64)
    } else {
        None
    }
}

fn checked_point(x: i128, y: i128) -> (r: Option<Point>)
    ensures
        r == if fits((x as int, y as int)) { Some(as_point((x as int, y as int))) } else { None },
{
    match (checked_coord(x), checked_coord(y)) {
        (Some(px), Some(py)) => Some(Point { x: px, y: py }),
        _ => None,
    }
}

/// The absolute point that `(x, y)` names from `start`, if it is in range.
pub fn absolute_point_coord(start: Point, abs: bool, x: i64, y: i64) -> (r: Option<Point>)
    requires
        start.wf(),
    ensures
        r == if fits(resolve(start, abs, x as int, y as int)) {
            Some(as_point(resolve(start, abs, x as int, y as int)))
        } else {
            None
        },
{
    if abs {
        checked_point(x as i128, y as i128)
    } else {
        checked_point(start.x as i128 + x as i128, start.y as i128 + y as i128)
    }
}

/// Whether the support point was left by a command of the given curve family.
pub fn path_command_condition(prev_support_point: &SupportPoint, curve_type: CurveType) -> (r:
    bool)
    ensures
        r == continues(prev_support_point.path_command, curve_type),
{
    match curve_type {
        CurveType::Cubic => {
            prev_support_point.path_command == PathCommand::SmoothCurveTo
                || prev_support_point.path_command == PathCommand::CurveTo
        },
        CurveType::Quadratic => {
            prev_support_point.path_command == PathCommand::SmoothQuadratic
                || prev_support_point.path_command == PathCommand::Quadratic
        },
    }
}

/// The implicit first control point of a smooth command, in absolute
/// coordinates, if it is in range.
pub fn mirrored_point(
    current: Point,
    prev_support_point_opt: Option<SupportPoint>,
    curve_type: CurveType,
) -> (r: Option<Point>)
    requires
        current.wf(),
        support_wf(prev_support_point_opt),
    ensures
        r == if fits(mirror(current, prev_support_point_opt, curve_type)) {
            Some(as_point(mirror(current, prev_support_point_opt, curve_type)))
        } else {
            None
        },
{
    match prev_support_point_opt {
        Some(prev) => {
            if path_command_condition(&prev, curve_type) {
                checked_point(
                    2 * (current.x as i128) - prev.point.x as i128,
                    2 * (current.y as i128) - prev.point.y as i128,
                )
            } else {
                Some(current)
            }
        },
        None => Some(current),
    }
}

fn cubic_curve_to(current: Point, p1: Point, p2: Point, end: Point, cmd: PathCommand) -> (r:
    PointIterator)
    requires
        current.wf(),
        p1.wf(),
        p2.wf(),
        end.wf(),
    ensures
        r == cubic_iter(current, p1, p2, end, cmd),
        r.wf(),
{
    let support_point = Some(SupportPoint { path_command: cmd, point: p2 });
    let p1_on_lane = is_point_on_lane(&current, &end, &p1);
    let p2_on_lane = is_point_on_lane(&current, &end, &p2);
    if p1_on_lane && p2_on_lane {
        PointIterator::Line(LinePointIterator::as_fake_curve(end, MoveType::Draw, support_point))
    } else {
        PointIterator::Curve(
            CurvePointIterator {
                time: TickTimer::new(),
                shape: CurveShape::Cubic { start: current, p1, p2, end },
                support_point,
            },
        )
    }
}

fn quadratic_curve_to(current: Point, p1: Point, end: Point, cmd: PathCommand) -> (r:
    PointIterator)
    requires
        current.wf(),
        p1.wf(),
        end.wf(),
    ensures
        r == quadratic_iter(current, p1, end, cmd),
        r.wf(),
{
    let support_point = Some(SupportPoint { path_command: cmd, point: p1 });
    if is_point_on_lane(&current, &end, &p1) {
        PointIterator::Line(LinePointIterator::as_fake_curve(end, MoveType::Draw, support_point))
    } else {
        PointIterator::Curve(
            CurvePointIterator {
                time: TickTimer::new(),
                shape: CurveShape::Quadratic { start: current, p1, end },
                support_point,
            },
        )
    }
}

fn ellipse_curve_to(
    current: Point,
    rx: i64,
    ry: i64,
    x_axis_rotation: i64,
    large_arc: bool,
    sweep: bool,
    end: Point,
) -> (r: PointIterator)
    requires
        current.wf(),
        end.wf(),
    ensures
        r == arc_iter(current, rx, ry, x_axis_rotation, large_arc, sweep, end),
        r.wf(),
{
    // Identical endpoints: the arc is omitted entirely.
    if current == end {
        return PointIterator::Empty(EmptyPointIterator { end });
    }
    // A zero radius: the arc is a straight line to its end point.
    if rx == 0 || ry == 0 {
        return PointIterator::Line(LinePointIterator::new(end, MoveType::Draw));
    }
    PointIterator::Ellipse(
        EllipsePointIterator {
            time: TickTimer::new(),
            arc: ArcGeometry { start: current, end, rx, ry, x_axis_rotation, large_arc, sweep },
        },
    )
}

fn single_to(end: Option<Point>, move_type: MoveType) -> (r: Option<PointIterator>)
    requires
        end.is_some() ==> end.unwrap().wf(),
    ensures
        r == match end {
            Some(e) => Some(single(e, move_type)),
            None => None,
        },
        r.is_some() ==> r.unwrap().wf(),
{
    match end {
        Some(e) => Some(PointIterator::Line(LinePointIterator::new(e, move_type))),
        None => None,
    }
}

/// The point producer of `next_segment` drawn from `current`, given the
/// previous support point and the start of the current subpath; `None` where a
/// point the command names falls outside the coordinate range.
pub fn calc_point_iterator(
    current: Point,
    next_segment: PathSegment,
    prev_support_point_opt: Option<SupportPoint>,
    path_start_point: Point,
) -> (r: Option<PointIterator>)
    requires
        current.wf(),
        path_start_point.wf(),
        support_wf(prev_support_point_opt),
    ensures
        r == segment_iter(current, next_segment, prev_support_point_opt, path_start_point),
        r.is_some() ==> r.unwrap().wf(),
{
    match next_segment {
        PathSegment::MoveTo { abs, x, y } => single_to(
            absolute_point_coord(current, abs, x, y),
            MoveType::Fly,
        ),
        PathSegment::LineTo { abs, x, y } => single_to(
            absolute_point_coord(current, abs, x, y),
            MoveType::Draw,
        ),
        PathSegment::HorizontalLineTo { abs, x } => {
            let end = if abs {
                checked_point(x as i128, current.y as i128)
            } else {
                checked_point(current.x as i128 + x as i128, current.y as i128)
            };
            single_to(end, MoveType::Draw)
        },
        PathSegment::VerticalLineTo { abs, y } => {
            let end = if abs {
                checked_point(current.x as i128, y as i128)
            } else {
                checked_point(current.x as i128, current.y as i128 + y as i128)
            };
            single_to(end, MoveType::Draw)
        },
        PathSegment::CurveTo { abs, x1, y1, x2, y2, x, y } => {
            match (
                absolute_point_coord(current, abs, x1, y1),
                absolute_point_coord(current, abs, x2, y2),
                absolute_point_coord(current, abs, x, y),
            ) {
                (Some(p1), Some(p2), Some(end)) => Some(
                    cubic_curve_to(current, p1, p2, end, PathCommand::CurveTo),
                ),
                _ => None,
            }
        },
        PathSegment::SmoothCurveTo { abs, x2, y2, x, y } => {
            match (
                mirrored_point(current, prev_support_point_opt, CurveType::Cubic),
                absolute_point_coord(current, abs, x2, y2),
                absolute_point_coord(current, abs, x, y),
            ) {
                (Some(p1), Some(p2), Some(end)) => Some(
                    cubic_curve_to(current, p1, p2, end, PathCommand::SmoothCurveTo),
                ),
                _ => None,
            }
        },
        PathSegment::Quadratic { abs, x1, y1, x, y } => {
            match (absolute_point_coord(current, abs, x1, y1), absolute_point_coord(current, abs, x, y)) {
                (Some(p1), Some(end)) => Some(
                    quadratic_curve_to(current, p1, end, PathCommand::Quadratic),
                ),
                _ => None,
            }
        },
        PathSegment::SmoothQuadratic { abs, x, y } => {
            match (
                mirrored_point(current, prev_support_point_opt, CurveType::Quadratic),
                absolute_point_coord(current, abs, x, y),
            ) {
                (Some(p1), Some(end)) => Some(
                    quadratic_curve_to(current, p1, end, PathCommand::SmoothQuadratic),
                ),
                _ => None,
            }
        },
        PathSegment::EllipticalArc { abs, rx, ry, x_axis_rotation, large_arc, sweep, x, y } => {
            match absolute_point_coord(current, abs, x, y) {
                Some(end) => Some(
                    ellipse_curve_to(current, rx, ry, x_axis_rotation, large_arc, sweep, end),
                ),
                None => None,
            }
        },
        PathSegment::ClosePath { .. } => Some(
            PointIterator::Line(LinePointIterator::new(path_start_point, MoveType::Draw)),
        ),
    }
}

} // verus!
