use drawing_robot::curve_math::{cubic_curve, is_point_on_lane, square_curve};
use drawing_robot::evaluator::{absolute_point_coord, calc_point_iterator, mirrored_point, CurveType};
use drawing_robot::path::{
    classified_points, flatten_points, points_from_path_segments, LineTo, PathState,
};
use drawing_robot::point::{Point, MAX_COORD};
use drawing_robot::segment::{
    CurveShape, MoveType, PathCommand, PathSegment, PointIterator, SupportPoint,
};
use drawing_robot::tick_timer::{TickTimer, STEPS};

fn p(x: i64, y: i64) -> Point {
    Point::new(x, y)
}

fn eval(current: Point, seg: PathSegment, support: Option<SupportPoint>) -> PointIterator {
    calc_point_iterator(current, seg, support, p(0, 0)).expect("in range")
}

#[test]
fn move_to_yields_one_fly_point() {
    let it = eval(p(10, 20), PathSegment::MoveTo { abs: true, x: 20, y: 30 }, None);
    assert_eq!(classified_points(it), vec![LineTo::Fly(p(20, 30))]);
    let it = eval(p(10, 20), PathSegment::MoveTo { abs: false, x: 5, y: -5 }, None);
    assert_eq!(it.move_type(), MoveType::Fly);
    assert_eq!(classified_points(it), vec![LineTo::Fly(p(15, 15))]);
}

#[test]
fn line_commands_yield_one_draw_point() {
    let cur = p(3, 4);
    let cases = [
        (PathSegment::LineTo { abs: true, x: 10, y: 0 }, p(10, 0)),
        (PathSegment::LineTo { abs: false, x: 10, y: 1 }, p(13, 5)),
        (PathSegment::HorizontalLineTo { abs: true, x: 7 }, p(7, 4)),
        (PathSegment::HorizontalLineTo { abs: false, x: 7 }, p(10, 4)),
        (PathSegment::VerticalLineTo { abs: true, y: -2 }, p(3, -2)),
        (PathSegment::VerticalLineTo { abs: false, y: -2 }, p(3, 2)),
    ];
    for (seg, end) in cases {
        let it = eval(cur, seg, None);
        assert_eq!(it.get_end_position(), end);
        assert_eq!(it.get_support_point(), None);
        assert_eq!(classified_points(it), vec![LineTo::Draw(end)]);
    }
}

#[test]
fn sampled_cubic_ends_at_end_point() {
    let seg = PathSegment::CurveTo { abs: true, x1: 0, y1: 80, x2: 80, y2: 80, x: 80, y: 0 };
    let it = eval(p(0, 0), seg, None);
    assert!(matches!(it, PointIterator::Curve(_)));
    let pts = classified_points(it);
    assert_eq!(pts.len(), (STEPS + 1) as usize);
    assert_eq!(pts[0], LineTo::Draw(p(0, 0)));
    assert_eq!(pts[500], LineTo::Draw(p(40, 60)));
    assert_eq!(*pts.last().unwrap(), LineTo::Draw(p(80, 0)));
    assert_eq!(it.get_end_position(), p(80, 0));
    assert_eq!(
        it.get_support_point(),
        Some(SupportPoint { path_command: PathCommand::CurveTo, point: p(80, 80) })
    );
}

#[test]
fn sampled_quadratic_ends_at_end_point() {
    let seg = PathSegment::Quadratic { abs: false, x1: 10, y1: 20, x: 20, y: 0 };
    let it = eval(p(100, 100), seg, None);
    let pts = classified_points(it);
    assert_eq!(pts.len(), 1001);
    assert_eq!(pts[500], LineTo::Draw(p(110, 110)));
    assert_eq!(*pts.last().unwrap(), LineTo::Draw(p(120, 100)));
    assert_eq!(
        it.get_support_point(),
        Some(SupportPoint { path_command: PathCommand::Quadratic, point: p(110, 120) })
    );
}

#[test]
fn collinear_cubic_is_single_point() {
    let seg = PathSegment::CurveTo { abs: true, x1: 5, y1: 5, x2: 10, y2: 10, x: 20, y: 20 };
    let it = eval(p(0, 0), seg, None);
    assert!(matches!(it, PointIterator::Line(_)));
    assert_eq!(classified_points(it), vec![LineTo::Draw(p(20, 20))]);
    // the support point is still recorded for a following smooth curve
    assert_eq!(
        it.get_support_point(),
        Some(SupportPoint { path_command: PathCommand::CurveTo, point: p(10, 10) })
    );
}

#[test]
fn collinear_smooth_cubic_is_single_point() {
    let segs = vec![
        PathSegment::MoveTo { abs: true, x: 0, y: 0 },
        PathSegment::CurveTo { abs: true, x1: 5, y1: 5, x2: 10, y2: 10, x: 20, y: 20 },
        PathSegment::SmoothCurveTo { abs: true, x2: 35, y2: 35, x: 40, y: 40 },
    ];
    let its = points_from_path_segments(&segs).unwrap();
    assert_eq!(classified_points(its[2]), vec![LineTo::Draw(p(40, 40))]);
}

#[test]
fn collinear_quadratic_is_single_point() {
    let seg = PathSegment::Quadratic { abs: true, x1: 10, y1: 10, x: 20, y: 20 };
    let it = eval(p(0, 0), seg, None);
    assert_eq!(classified_points(it), vec![LineTo::Draw(p(20, 20))]);
}

#[test]
fn smooth_cubic_mirrors_previous_control() {
    let segs = vec![
        PathSegment::MoveTo { abs: true, x: 10, y: 10 },
        PathSegment::CurveTo { abs: true, x1: 20, y1: 30, x2: 30, y2: 10, x: 40, y: 20 },
        PathSegment::SmoothCurveTo { abs: true, x2: 70, y2: 40, x: 80, y: 20 },
    ];
    let its = points_from_path_segments(&segs).unwrap();
    match its[2] {
        PointIterator::Curve(c) => match c.shape {
            CurveShape::Cubic { start, p1, p2, end } => {
                assert_eq!(start, p(40, 20));
                assert_eq!(p1, p(2 * 40 - 30, 2 * 20 - 10));
                assert_eq!(p2, p(70, 40));
                assert_eq!(end, p(80, 20));
            }
            _ => panic!("expected a cubic"),
        },
        _ => panic!("expected a sampled curve"),
    }
}

#[test]
fn smooth_cubic_relative_mirrors_previous_control() {
    let prev = Some(SupportPoint { path_command: PathCommand::SmoothCurveTo, point: p(30, 10) });
    assert_eq!(mirrored_point(p(40, 20), prev, CurveType::Cubic), Some(p(50, 30)));
    let it = eval(p(40, 20), PathSegment::SmoothCurveTo { abs: false, x2: 30, y2: 20, x: 40, y: 0 }, prev);
    match it {
        PointIterator::Curve(c) => {
            assert_eq!(c.shape, CurveShape::Cubic { start: p(40, 20), p1: p(50, 30), p2: p(70, 40), end: p(80, 20) });
        }
        _ => panic!("expected a sampled curve"),
    }
}

#[test]
fn smooth_cubic_after_line_uses_current_position() {
    let segs = vec![
        PathSegment::MoveTo { abs: true, x: 0, y: 0 },
        PathSegment::LineTo { abs: true, x: 10, y: 0 },
        PathSegment::SmoothCurveTo { abs: true, x2: 20, y2: 20, x: 30, y: 0 },
    ];
    let its = points_from_path_segments(&segs).unwrap();
    match its[2] {
        PointIterator::Curve(c) => {
            assert_eq!(c.shape, CurveShape::Cubic { start: p(10, 0), p1: p(10, 0), p2: p(20, 20), end: p(30, 0) });
        }
        _ => panic!("expected a sampled curve"),
    }
}

#[test]
fn smooth_quadratic_mirrors_only_quadratics() {
    let quad = Some(SupportPoint { path_command: PathCommand::Quadratic, point: p(5, 10) });
    let cubic = Some(SupportPoint { path_command: PathCommand::CurveTo, point: p(5, 10) });
    assert_eq!(mirrored_point(p(10, 0), quad, CurveType::Quadratic), Some(p(15, -10)));
    assert_eq!(mirrored_point(p(10, 0), cubic, CurveType::Quadratic), Some(p(10, 0)));
    assert_eq!(mirrored_point(p(10, 0), quad, CurveType::Cubic), Some(p(10, 0)));
    assert_eq!(mirrored_point(p(10, 0), None, CurveType::Cubic), Some(p(10, 0)));
    let it = eval(p(10, 0), PathSegment::SmoothQuadratic { abs: true, x: 20, y: 0 }, quad);
    assert_eq!(
        it.get_support_point(),
        Some(SupportPoint { path_command: PathCommand::SmoothQuadratic, point: p(15, -10) })
    );
}

#[test]
fn arc_with_identical_endpoints_yields_nothing() {
    let seg = PathSegment::EllipticalArc {
        abs: true, rx: 5, ry: 5, x_axis_rotation: 0, large_arc: false, sweep: true, x: 7, y: 8,
    };
    let it = eval(p(7, 8), seg, None);
    assert!(matches!(it, PointIterator::Empty(_)));
    assert_eq!(it.get_end_position(), p(7, 8));
    assert_eq!(classified_points(it), vec![]);
}

#[test]
fn arc_with_zero_radius_is_a_line() {
    let seg = PathSegment::EllipticalArc {
        abs: false, rx: 0, ry: 5, x_axis_rotation: 30, large_arc: true, sweep: false, x: 10, y: 5,
    };
    let it = eval(p(1, 1), seg, None);
    assert_eq!(classified_points(it), vec![LineTo::Draw(p(11, 6))]);
}

#[test]
fn arc_is_handed_out_with_resolved_endpoints() {
    let seg = PathSegment::EllipticalArc {
        abs: false, rx: 20, ry: 30, x_axis_rotation: 45, large_arc: true, sweep: false, x: 40, y: 0,
    };
    let mut it = eval(p(10, 10), seg, Some(SupportPoint { path_command: PathCommand::CurveTo, point: p(0, 0) }));
    assert_eq!(it.get_end_position(), p(50, 10));
    assert_eq!(it.move_type(), MoveType::Draw);
    assert_eq!(it.get_support_point(), None);
    match &mut it {
        PointIterator::Ellipse(e) => {
            assert_eq!(e.arc.start, p(10, 10));
            assert_eq!(e.arc.end, p(50, 10));
            assert_eq!((e.arc.rx, e.arc.ry, e.arc.x_axis_rotation), (20, 30, 45));
            assert!(e.arc.large_arc && !e.arc.sweep);
            let mut n = 0;
            while let Some(k) = e.next() {
                assert_eq!(k, n);
                n += 1;
            }
            assert_eq!(n, STEPS + 1);
        }
        _ => panic!("expected an arc"),
    }
}

#[test]
fn close_path_returns_to_subpath_start() {
    let segs = vec![
        PathSegment::MoveTo { abs: true, x: 0, y: 0 },
        PathSegment::LineTo { abs: true, x: 10, y: 0 },
        PathSegment::LineTo { abs: true, x: 10, y: 10 },
        PathSegment::ClosePath { abs: true },
    ];
    let its = points_from_path_segments(&segs).unwrap();
    assert_eq!(classified_points(its[3]), vec![LineTo::Draw(p(0, 0))]);
}

#[test]
fn close_path_reanchors_next_subpath() {
    let mut state = PathState::new();
    state.advance(PathSegment::MoveTo { abs: true, x: 5, y: 5 }).unwrap();
    state.advance(PathSegment::LineTo { abs: true, x: 9, y: 5 }).unwrap();
    let close = state.advance(PathSegment::ClosePath { abs: false }).unwrap();
    assert_eq!(classified_points(close), vec![LineTo::Draw(p(5, 5))]);
    assert!(!state.path_start_initialized);
    state.advance(PathSegment::MoveTo { abs: false, x: 1, y: 1 }).unwrap();
    assert_eq!(state.path_start, p(6, 6));
    state.advance(PathSegment::LineTo { abs: true, x: 0, y: 0 }).unwrap();
    let close = state.advance(PathSegment::ClosePath { abs: true }).unwrap();
    assert_eq!(classified_points(close), vec![LineTo::Draw(p(6, 6))]);
}

#[test]
fn end_to_end_sequence() {
    let segs = vec![
        PathSegment::MoveTo { abs: true, x: 0, y: 0 },
        PathSegment::LineTo { abs: true, x: 10, y: 0 },
        PathSegment::CurveTo { abs: true, x1: 10, y1: 0, x2: 20, y2: 10, x: 20, y: 20 },
        PathSegment::ClosePath { abs: true },
    ];
    let its = points_from_path_segments(&segs).unwrap();
    assert_eq!(its.len(), 4);
    assert_eq!(classified_points(its[0]), vec![LineTo::Fly(p(0, 0))]);
    assert_eq!(classified_points(its[1]), vec![LineTo::Draw(p(10, 0))]);
    let curve = classified_points(its[2]);
    assert!(curve.len() > 1);
    assert!(curve.iter().all(|q| matches!(q, LineTo::Draw(_))));
    assert_eq!(curve[0], LineTo::Draw(p(10, 0)));
    assert_eq!(*curve.last().unwrap(), LineTo::Draw(p(20, 20)));
    assert_eq!(classified_points(its[3]), vec![LineTo::Draw(p(0, 0))]);

    let all = flatten_points(&its);
    assert_eq!(all.len(), 1 + 1 + 1001 + 1);
    assert_eq!(all[0], LineTo::Fly(p(0, 0)));
    assert!(all[1..].iter().all(|q| matches!(q, LineTo::Draw(_))));
    assert_eq!(all[1], LineTo::Draw(p(10, 0)));
    assert_eq!(all[1002], LineTo::Draw(p(20, 20)));
    assert_eq!(all[1003], LineTo::Draw(p(0, 0)));
}

#[test]
fn end_position_matches_last_point() {
    let segs = vec![
        PathSegment::MoveTo { abs: false, x: 3, y: 3 },
        PathSegment::Quadratic { abs: false, x1: 7, y1: 9, x: 13, y: 1 },
        PathSegment::SmoothQuadratic { abs: false, x: 10, y: 10 },
        PathSegment::HorizontalLineTo { abs: false, x: -4 },
    ];
    let mut state = PathState::new();
    for seg in segs {
        let it = state.advance(seg).unwrap();
        let last = classified_points(it).last().copied().unwrap();
        let expected = match last {
            LineTo::Fly(q) | LineTo::Draw(q) | LineTo::Erase(q) => q,
        };
        assert_eq!(state.current, expected);
    }
}

#[test]
fn out_of_range_point_is_refused() {
    let big = MAX_COORD + 1;
    assert_eq!(absolute_point_coord(p(0, 0), true, big, 0), None);
    assert_eq!(absolute_point_coord(p(MAX_COORD, 0), false, 1, 0), None);
    assert_eq!(absolute_point_coord(p(MAX_COORD, 0), false, -1, 2), Some(p(MAX_COORD - 1, 2)));
    let segs = vec![
        PathSegment::MoveTo { abs: true, x: MAX_COORD, y: 0 },
        PathSegment::LineTo { abs: false, x: 1, y: 0 },
        PathSegment::LineTo { abs: true, x: 0, y: 0 },
    ];
    assert_eq!(points_from_path_segments(&segs), None);
    let mut state = PathState::new();
    state.advance(segs[0]).unwrap();
    let before = state;
    assert_eq!(state.advance(segs[1]), None);
    assert_eq!(state, before);
    let far = Some(SupportPoint { path_command: PathCommand::CurveTo, point: p(-MAX_COORD, 0) });
    assert_eq!(mirrored_point(p(MAX_COORD, 0), far, CurveType::Cubic), None);
}

#[test]
fn empty_path_yields_no_producers() {
    assert_eq!(points_from_path_segments(&vec![]), Some(vec![]));
}

#[test]
fn curve_formulas_exact_values() {
    assert_eq!(cubic_curve(p(0, 0), p(0, 80), p(80, 80), p(80, 0), 500), p(40, 60));
    assert_eq!(cubic_curve(p(0, 0), p(0, 80), p(80, 80), p(80, 0), 0), p(0, 0));
    assert_eq!(cubic_curve(p(0, 0), p(0, 80), p(80, 80), p(80, 0), STEPS), p(80, 0));
    // t = 0.25: (27*0 + 27*0 + 9*80 + 1*80) / 64 = 12.5 -> 12 ; y: (27*80 + 9*80) / 64 = 45
    assert_eq!(cubic_curve(p(0, 0), p(0, 80), p(80, 80), p(80, 0), 250), p(12, 45));
    assert_eq!(square_curve(p(0, 0), p(10, 20), p(20, 0), 500), p(10, 10));
    // values are rounded down, also below zero
    assert_eq!(square_curve(p(0, 0), p(0, 0), p(1, -1), 1), p(0, -1));
}

#[test]
fn chord_tolerance() {
    let a = p(0, 0);
    let b = p(100, 100);
    assert!(is_point_on_lane(&a, &b, &p(50, 50)));
    assert!(is_point_on_lane(&a, &b, &p(50, 54)));
    assert!(!is_point_on_lane(&a, &b, &p(50, 55)));
    assert!(is_point_on_lane(&a, &b, &p(200, 200)));
    // a vertical chord: the x ratio counts as 0
    assert!(is_point_on_lane(&p(0, 0), &p(0, 100), &p(0, 4)));
    assert!(!is_point_on_lane(&p(0, 0), &p(0, 100), &p(0, 5)));
    assert!(is_point_on_lane(&p(0, 0), &p(0, 100), &p(30, 4)));
    // on a horizontal chord only the x ratio counts, so its midpoint (0.5 against 0) is off it
    assert!(!is_point_on_lane(&p(0, 0), &p(20, 0), &p(10, 0)));
    assert!(is_point_on_lane(&p(0, 0), &p(20, 0), &p(0, 9)));
    // a zero-length chord accepts every point
    assert!(is_point_on_lane(&p(3, 3), &p(3, 3), &p(-50, 70)));
}

#[test]
fn tick_timer_counts_to_steps() {
    let mut t = TickTimer::new();
    let mut seen = Vec::new();
    while let Some(k) = t.next() {
        seen.push(k);
    }
    assert_eq!(seen.len(), 1001);
    assert_eq!(seen[0], 0);
    assert_eq!(seen[1000], STEPS);
    assert_eq!(t.next(), None);
}

#[test]
fn point_arithmetic() {
    let a = p(7, -3);
    let b = p(2, 5);
    assert_eq!(a.add(b), p(9, 2));
    assert_eq!(a.sub(b), p(5, -8));
    assert_eq!(a.mul(3), p(21, -9));
    assert_eq!(a.div(2), p(3, -2));
    assert_eq!(PathSegment::ClosePath { abs: true }.cmd(), PathCommand::ClosePath);
    assert_eq!(LineTo::new(a, MoveType::Erase), LineTo::Erase(a));
}

// Open question: a second close-path with no new subpath between is not
// defined by the path semantics; this library draws back to the last
// recorded subpath start again.
#[test]
fn second_close_path_reuses_last_subpath_start() {
    let segs = vec![
        PathSegment::MoveTo { abs: true, x: 4, y: 4 },
        PathSegment::LineTo { abs: true, x: 10, y: 0 },
        PathSegment::ClosePath { abs: true },
        PathSegment::ClosePath { abs: true },
    ];
    let its = points_from_path_segments(&segs).unwrap();
    assert_eq!(classified_points(its[2]), vec![LineTo::Draw(p(4, 4))]);
    assert_eq!(classified_points(its[3]), vec![LineTo::Draw(p(4, 4))]);
}

// Open question: a close-path before any subpath start was recorded closes to
// the origin, the documented default.
#[test]
fn close_path_first_goes_to_origin() {
    let segs = vec![PathSegment::ClosePath { abs: false }];
    let its = points_from_path_segments(&segs).unwrap();
    assert_eq!(classified_points(its[0]), vec![LineTo::Draw(p(0, 0))]);
}

#[test]
fn subpath_start_is_end_of_first_command() {
    let segs = vec![
        PathSegment::LineTo { abs: true, x: 3, y: 7 },
        PathSegment::LineTo { abs: true, x: 9, y: 9 },
        PathSegment::ClosePath { abs: true },
    ];
    let its = points_from_path_segments(&segs).unwrap();
    assert_eq!(classified_points(its[2]), vec![LineTo::Draw(p(3, 7))]);
}

#[test]
fn smooth_quadratic_chain_mirrors() {
    let segs = vec![
        PathSegment::MoveTo { abs: true, x: 10, y: 280 },
        PathSegment::Quadratic { abs: true, x1: 52, y1: 210, x: 95, y: 280 },
        PathSegment::SmoothQuadratic { abs: true, x: 180, y: 280 },
        PathSegment::SmoothQuadratic { abs: true, x: 250, y: 280 },
    ];
    let its = points_from_path_segments(&segs).unwrap();
    assert_eq!(
        its[2].get_support_point(),
        Some(SupportPoint { path_command: PathCommand::SmoothQuadratic, point: p(138, 350) })
    );
    match its[3] {
        PointIterator::Curve(c) => {
            assert_eq!(c.shape, CurveShape::Quadratic { start: p(180, 280), p1: p(222, 210), end: p(250, 280) });
        }
        _ => panic!("expected a sampled curve"),
    }
}
