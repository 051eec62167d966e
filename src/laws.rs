use vstd::prelude::*;
use crate::curve_math::on_lane;
use crate::evaluator::{
    as_point, continues, cubic_iter, fits, mirror, quadratic_iter, resolve, segment_iter, CurveType,
};
use crate::path::run;
use crate::point::Point;
use crate::segment::{
    lemma_curve_ends_at_end, support_wf, MoveType, PathCommand, PathSegment, PointIterator,
    SupportPoint,
};
use crate::tick_timer::STEPS;

verus! {

proof fn lemma_as_point_wf(v: (int, int))
    requires
        fits(v),
    ensures
        as_point(v).wf(),
        as_point(v).x == v.0,
        as_point(v).y == v.1,
{
}

/// Every producer the evaluator returns holds points in range.
proof fn lemma_segment_wf(
    current: Point,
    segment: PathSegment,
    support: Option<SupportPoint>,
    path_start: Point,
)
    requires
        current.wf(),
        path_start.wf(),
        support_wf(support),
        segment_iter(current, segment, support, path_start) is Some,
    ensures
        segment_iter(current, segment, support, path_start).unwrap().wf(),
        segment_iter(current, segment, support, path_start).unwrap().end_position().wf(),
        support_wf(segment_iter(current, segment, support, path_start).unwrap().support()),
{
    match segment {
        PathSegment::MoveTo { abs, x, y } => lemma_as_point_wf(resolve(current, abs, x as int, y as int)),
        PathSegment::LineTo { abs, x, y } => lemma_as_point_wf(resolve(current, abs, x as int, y as int)),
        PathSegment::HorizontalLineTo { abs, x } => {
            let e = if abs { (x as int, current.y as int) } else { (current.x + x, current.y as int) };
            lemma_as_point_wf(e);
        },
        PathSegment::VerticalLineTo { abs, y } => {
            let e = if abs { (current.x as int, y as int) } else { (current.x as int, current.y + y) };
            lemma_as_point_wf(e);
        },
        PathSegment::CurveTo { abs, x1, y1, x2, y2, x, y } => {
            lemma_as_point_wf(resolve(current, abs, x1 as int, y1 as int));
            lemma_as_point_wf(resolve(current, abs, x2 as int, y2 as int));
            lemma_as_point_wf(resolve(current, abs, x as int, y as int));
        },
        PathSegment::SmoothCurveTo { abs, x2, y2, x, y } => {
            lemma_as_point_wf(mirror(current, support, CurveType::Cubic));
            lemma_as_point_wf(resolve(current, abs, x2 as int, y2 as int));
            lemma_as_point_wf(resolve(current, abs, x as int, y as int));
        },
        PathSegment::Quadratic { abs, x1, y1, x, y } => {
            lemma_as_point_wf(resolve(current, abs, x1 as int, y1 as int));
            lemma_as_point_wf(resolve(current, abs, x as int, y as int));
        },
        PathSegment::SmoothQuadratic { abs, x, y } => {
            lemma_as_point_wf(mirror(current, support, CurveType::Quadratic));
            lemma_as_point_wf(resolve(current, abs, x as int, y as int));
        },
        PathSegment::EllipticalArc { abs, x, y, .. } => {
            lemma_as_point_wf(resolve(current, abs, x as int, y as int));
        },
        PathSegment::ClosePath { .. } => {},
    }
}

/// A fresh producer that lists points ends on the segment's end position.
proof fn lemma_fresh_last_point(
    current: Point,
    segment: PathSegment,
    support: Option<SupportPoint>,
    path_start: Point,
)
    requires
        current.wf(),
        path_start.wf(),
        support_wf(support),
        segment_iter(current, segment, support, path_start) is Some,
    ensures
        ({
            let it = segment_iter(current, segment, support, path_start).unwrap();
            &&& it is Line ==> it.points() == seq![it.end_position()]
            &&& it is Curve ==> it.points().len() == STEPS + 1 && it.points().last()
                == it.end_position()
            &&& it is Empty || it is Ellipse ==> it.points().len() == 0
            &&& it.points().len() > 0 ==> it.points().last() == it.end_position()
        }),
{
    lemma_segment_wf(current, segment, support, path_start);
    let it = segment_iter(current, segment, support, path_start).unwrap();
    if let PointIterator::Curve(c) = it {
        assert(c.time.tick == 0) by {
            match segment {
                PathSegment::CurveTo { .. } => {},
                PathSegment::SmoothCurveTo { .. } => {},
                PathSegment::Quadratic { .. } => {},
                PathSegment::SmoothQuadratic { .. } => {},
                PathSegment::EllipticalArc { .. } => {},
                _ => {},
            }
        }
        lemma_curve_ends_at_end(c.shape);
        assert(it.points().last() == c.shape.at(STEPS as int));
    }
}

proof fn lemma_run_wf(segments: Seq<PathSegment>)
    requires
        run(segments) is Some,
    ensures
        run(segments).unwrap().0.wf(),
        run(segments).unwrap().1.len() == segments.len(),
    decreases segments.len(),
{
    if segments.len() > 0 {
        lemma_run_wf(segments.drop_last());
        let (s, its) = run(segments.drop_last()).unwrap();
        lemma_segment_wf(s.current, segments.last(), s.support, s.path_start);
    }
}

/// After any run of commands, the reported end position is the last point
/// that the last command's producer yields, for every producer that lists
/// points of its own (all but an omitted arc and a sampled arc, whose points
/// are evaluated elsewhere).
pub proof fn lemma_end_position_is_last_point(segments: Seq<PathSegment>)
    requires
        segments.len() > 0,
        run(segments) is Some,
        run(segments).unwrap().1.last().points().len() > 0,
    ensures
        run(segments).unwrap().0.current == run(segments).unwrap().1.last().points().last(),
{
    lemma_run_wf(segments.drop_last());
    let (s, its) = run(segments.drop_last()).unwrap();
    lemma_fresh_last_point(s.current, segments.last(), s.support, s.path_start);
}

/// A move yields exactly one point, tagged Fly, at its resolved end point.
pub proof fn lemma_move_to_flies(
    current: Point,
    abs: bool,
    x: i64,
    y: i64,
    support: Option<SupportPoint>,
    path_start: Point,
)
    requires
        fits(resolve(current, abs, x as int, y as int)),
    ensures
        segment_iter(current, PathSegment::MoveTo { abs, x, y }, support, path_start) matches Some(
            it,
        ) && it.points() == seq![as_point(resolve(current, abs, x as int, y as int))] && it.kind()
            == MoveType::Fly,
{
}

/// A line, horizontal line or vertical line yields exactly one point, tagged
/// Draw, at its resolved end point.
pub proof fn lemma_line_draws(
    current: Point,
    segment: PathSegment,
    support: Option<SupportPoint>,
    path_start: Point,
)
    requires
        segment is LineTo || segment is HorizontalLineTo || segment is VerticalLineTo,
        segment_iter(current, segment, support, path_start) is Some,
    ensures
        ({
            let it = segment_iter(current, segment, support, path_start).unwrap();
            &&& it.points() == seq![it.end_position()]
            &&& it.kind() == MoveType::Draw
            &&& segment matches PathSegment::LineTo { abs, x, y } ==> it.end_position()
                == as_point(resolve(current, abs, x as int, y as int))
            &&& segment matches PathSegment::HorizontalLineTo { abs, x } ==> it.end_position()
                == as_point(if abs { (x as int, current.y as int) } else { (current.x + x, current.y as int) })
            &&& segment matches PathSegment::VerticalLineTo { abs, y } ==> it.end_position()
                == as_point(if abs { (current.x as int, y as int) } else { (current.x as int, current.y + y) })
        }),
{
}

/// The last point of a cubic or quadratic segment (sampled or drawn as its
/// end point alone) is its resolved end point.
pub proof fn lemma_curve_reaches_end(
    current: Point,
    segment: PathSegment,
    support: Option<SupportPoint>,
    path_start: Point,
)
    requires
        current.wf(),
        path_start.wf(),
        support_wf(support),
        segment is CurveTo || segment is SmoothCurveTo || segment is Quadratic
            || segment is SmoothQuadratic,
        segment_iter(current, segment, support, path_start) is Some,
    ensures
        ({
            let it = segment_iter(current, segment, support, path_start).unwrap();
            &&& it.points().len() > 0
            &&& it.kind() == MoveType::Draw
            &&& segment matches PathSegment::CurveTo { abs, x, y, .. } ==> it.points().last()
                == as_point(resolve(current, abs, x as int, y as int))
            &&& segment matches PathSegment::SmoothCurveTo { abs, x, y, .. } ==> it.points().last()
                == as_point(resolve(current, abs, x as int, y as int))
            &&& segment matches PathSegment::Quadratic { abs, x, y, .. } ==> it.points().last()
                == as_point(resolve(current, abs, x as int, y as int))
            &&& segment matches PathSegment::SmoothQuadratic { abs, x, y } ==> it.points().last()
                == as_point(resolve(current, abs, x as int, y as int))
        }),
{
    lemma_fresh_last_point(current, segment, support, path_start);
}

/// A cubic whose two controls, or a quadratic whose control, lie on the chord
/// is drawn as its end point alone.
pub proof fn lemma_collinear_curve_is_one_point(
    current: Point,
    p1: Point,
    p2: Point,
    end: Point,
    cmd: PathCommand,
)
    ensures
        on_lane(current, end, p1) && on_lane(current, end, p2) ==> cubic_iter(
            current,
            p1,
            p2,
            end,
            cmd,
        ).points() == seq![end] && cubic_iter(current, p1, p2, end, cmd).kind() == MoveType::Draw,
        on_lane(current, end, p1) ==> quadratic_iter(current, p1, end, cmd).points() == seq![end]
            && quadratic_iter(current, p1, end, cmd).kind() == MoveType::Draw,
{
}

/// After a cubic curve, the implicit first control point of a smooth cubic is
/// the curve's second control point reflected through its end point.
pub proof fn lemma_smooth_cubic_mirrors(
    current: Point,
    first: PathSegment,
    support: Option<SupportPoint>,
    path_start: Point,
)
    requires
        first is CurveTo,
        segment_iter(current, first, support, path_start) is Some,
    ensures
        ({
            let it = segment_iter(current, first, support, path_start).unwrap();
            let e = it.end_position();
            first matches PathSegment::CurveTo { abs, x2, y2, .. } ==> mirror(
                e,
                it.support(),
                CurveType::Cubic,
            ) == (2 * e.x - as_point(resolve(current, abs, x2 as int, y2 as int)).x, 2 * e.y
                - as_point(resolve(current, abs, x2 as int, y2 as int)).y)
        }),
{
}

/// After a quadratic curve, the implicit control point of a smooth quadratic
/// is the curve's control point reflected through its end point.
pub proof fn lemma_smooth_quadratic_mirrors(
    current: Point,
    first: PathSegment,
    support: Option<SupportPoint>,
    path_start: Point,
)
    requires
        first is Quadratic,
        segment_iter(current, first, support, path_start) is Some,
    ensures
        ({
            let it = segment_iter(current, first, support, path_start).unwrap();
            let e = it.end_position();
            first matches PathSegment::Quadratic { abs, x1, y1, .. } ==> mirror(
                e,
                it.support(),
                CurveType::Quadratic,
            ) == (2 * e.x - as_point(resolve(current, abs, x1 as int, y1 as int)).x, 2 * e.y
                - as_point(resolve(current, abs, x1 as int, y1 as int)).y)
        }),
{
}

/// After a command outside a curve family, the implicit control point of a
/// smooth command of that family is the current position itself.
pub proof fn lemma_smooth_resets_after_other_command(
    current: Point,
    first: PathSegment,
    support: Option<SupportPoint>,
    path_start: Point,
)
    requires
        segment_iter(current, first, support, path_start) is Some,
    ensures
        ({
            let it = segment_iter(current, first, support, path_start).unwrap();
            let e = it.end_position();
            &&& !continues(first.command(), CurveType::Cubic) ==> mirror(
                e,
                it.support(),
                CurveType::Cubic,
            ) == (e.x as int, e.y as int)
            &&& !continues(first.command(), CurveType::Quadratic) ==> mirror(
                e,
                it.support(),
                CurveType::Quadratic,
            ) == (e.x as int, e.y as int)
        }),
{
}

/// An arc whose end point is its start yields no point and leaves the pen in
/// place; an arc with a zero radius yields one Draw point at its end point.
pub proof fn lemma_degenerate_arc(
    current: Point,
    abs: bool,
    rx: i64,
    ry: i64,
    x_axis_rotation: i64,
    large_arc: bool,
    sweep: bool,
    x: i64,
    y: i64,
    support: Option<SupportPoint>,
    path_start: Point,
)
    requires
        fits(resolve(current, abs, x as int, y as int)),
    ensures
        ({
            let e = as_point(resolve(current, abs, x as int, y as int));
            let r = segment_iter(
                current,
                PathSegment::EllipticalArc { abs, rx, ry, x_axis_rotation, large_arc, sweep, x, y },
                support,
                path_start,
            );
            &&& e == current ==> (r matches Some(it) && it is Empty && it.points().len() == 0
                && it.end_position() == current)
            &&& e != current && (rx == 0 || ry == 0) ==> (r matches Some(it) && it.points()
                == seq![e] && it.kind() == MoveType::Draw)
        }),
{
}

proof fn lemma_subpath_start_kept(segments: Seq<PathSegment>, k: int)
    requires
        1 <= k <= segments.len(),
        segments[0] is MoveTo,
        forall|i: int| 1 <= i < segments.len() ==> !(#[trigger] segments[i] is ClosePath),
        run(segments.take(k)) is Some,
    ensures
        ({
            let s = run(segments.take(k)).unwrap().0;
            &&& s.path_start_initialized
            &&& segments[0] matches PathSegment::MoveTo { abs, x, y } ==> s.path_start
                == as_point(resolve(Point { x: 0, y: 0 }, abs, x as int, y as int))
        }),
    decreases k,
{
    assert(segments.take(k).drop_last() =~= segments.take(k - 1));
    if k == 1 {
        assert(segments.take(0) =~= Seq::<PathSegment>::empty());
    } else {
        lemma_subpath_start_kept(segments, k - 1);
        assert(!(segments[k - 1] is ClosePath));
    }
}

/// A close-path after a subpath opened by a move, with no close-path between,
/// yields one Draw point at the point the move went to.
pub proof fn lemma_close_returns_to_subpath_start(segments: Seq<PathSegment>, abs: bool)
    requires
        segments.len() >= 1,
        segments[0] is MoveTo,
        forall|i: int| 1 <= i < segments.len() ==> !(#[trigger] segments[i] is ClosePath),
        run(segments) is Some,
    ensures
        ({
            let r = run(segments.push(PathSegment::ClosePath { abs }));
            &&& r is Some
            &&& r.unwrap().1.last().kind() == MoveType::Draw
            &&& segments[0] matches PathSegment::MoveTo { abs: a, x, y } ==> r.unwrap().1.last().points()
                == seq![as_point(resolve(Point { x: 0, y: 0 }, a, x as int, y as int))]
        }),
{
    assert(segments.take(segments.len() as int) =~= segments);
    lemma_subpath_start_kept(segments, segments.len() as int);
    assert(segments.push(PathSegment::ClosePath { abs }).drop_last() =~= segments);
}

} // verus!
