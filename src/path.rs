use vstd::prelude::*;
use crate::evaluator::{calc_point_iterator, segment_iter};
use crate::point::Point;
use crate::segment::{support_wf, MoveType, PathCommand, PathSegment, PointIterator, SupportPoint};

verus! {

/// A point tagged with how the pen reaches it.
#[derive(Clone, Copy, Debug, PartialEq, Eq, Structural)]
pub enum LineTo {
    Fly(Point),
    Draw(Point),
    Erase(Point),
}

pub open spec fn tagged(point: Point, move_type: MoveType) -> LineTo {
    match move_type {
        MoveType::Fly => LineTo::Fly(point),
        MoveType::Draw => LineTo::Draw(point),
        MoveType::Erase => LineTo::Erase(point),
    }
}

impl LineTo {
    pub fn new(point: Point, move_type: MoveType) -> (r: LineTo)
        ensures
            r == tagged(point, move_type),
    {
        match move_type {
            MoveType::Fly => LineTo::Fly(point),
            MoveType::Draw => LineTo::Draw(point),
            MoveType::Erase => LineTo::Erase(point),
        }
    }
}

/// What the driver carries from one command to the next.
#[derive(Clone, Copy, Debug, PartialEq, Eq, Structural)]
pub struct PathState {
    /// End position of the last segment.
    pub current: Point,
    /// Control point left by the last segment, for smooth continuations.
    pub support: Option<SupportPoint>,
    /// Where the open subpath started; a close-path draws back to it.
    pub path_start: Point,
    /// Whether `path_start` was recorded for the open subpath.
    pub path_start_initialized: bool,
}

impl PathState {
    pub open spec fn wf(self) -> bool {
        self.current.wf() && self.path_start.wf() && support_wf(self.support)
    }

    /// The state before the first command: at the origin, nothing recorded.
    pub open spec fn initial() -> PathState {
        PathState {
            current: Point { x: 0, y: 0 },
            support: None,
            path_start: Point { x: 0, y: 0 },
            path_start_initialized: false,
        }
    }

    /// The state after `segment`, drawn by `it`: the pen stands at the
    /// segment's end; the first command of a subpath records where it
    /// starts, and a close-path opens a new one.
    pub open spec fn after(self, segment: PathSegment, it: PointIterator) -> PathState {
        let end = it.end_position();
        let closing = segment.command() == PathCommand::ClosePath;
        PathState {
            current: end,
            support: it.support(),
            path_start: if !self.path_start_initialized && !closing {
                end
            } else {
                self.path_start
            },
            path_start_initialized: !closing,
        }
    }

    pub fn new() -> (r: PathState)
        ensures
            r == PathState::initial(),
            r.wf(),
    {
        PathState {
            current: Point::new(0, 0),
            support: None,
            path_start: Point::new(0, 0),
            path_start_initialized: false,
        }
    }

    /// Evaluates one command and moves past it; on `None` (a point out of
    /// range) the state is left as it was.
    pub fn advance(&mut self, path_segment: PathSegment) -> (r: Option<PointIterator>)
        requires
            old(self).wf(),
        ensures
            r == segment_iter(
                old(self).current,
                path_segment,
                old(self).support,
                old(self).path_start,
            ),
            r matches Some(it) ==> *final(self) == old(self).after(path_segment, it) && it.wf(),
            r.is_none() ==> *final(self) == *old(self),
            final(self).wf(),
    {
        let res = calc_point_iterator(self.current, path_segment, self.support, self.path_start);
        match res {
            Some(it) => {
                let end = it.get_end_position();
                let closing = path_segment.cmd() == PathCommand::ClosePath;
                self.support = it.get_support_point();
                self.current = end;
                if !self.path_start_initialized && !closing {
                    self.path_start_initialized = true;
                    self.path_start = end;
                } else if closing {
                    self.path_start_initialized = false;
                }
                Some(it)
            },
            None => None,
        }
    }
}

/// The driver folded over `segments`: the final state and one producer per
/// command, or `None` where some command names a point out of range.
pub open spec fn run(segments: Seq<PathSegment>) -> Option<(PathState, Seq<PointIterator>)>
    decreases segments.len(),
{
    if segments.len() == 0 {
        Some((PathState::initial(), seq![]))
    } else {
        match run(segments.drop_last()) {
            Some((s, its)) => match segment_iter(
                s.current,
                segments.last(),
                s.support,
                s.path_start,
            ) {
                Some(it) => Some((s.after(segments.last(), it), its.push(it))),
                None => None,
            },
            None => None,
        }
    }
}

proof fn lemma_run_none_extends(segments: Seq<PathSegment>, i: int, j: int)
    requires
        0 <= i <= j <= segments.len(),
        run(segments.take(i)) is None,
    ensures
        run(segments.take(j)) is None,
    decreases j - i,
{
    if i < j {
        lemma_run_none_extends(segments, i, j - 1);
        assert(segments.take(j).drop_last() =~= segments.take(j - 1));
    }
}

/// One producer per command, threading position, support point and subpath
/// start from each command to the next; `None` where some command names a
/// point out of range.
pub fn points_from_path_segments(path_segments: &Vec<PathSegment>) -> (r: Option<
    Vec<PointIterator>,
>)
    ensures
        match run(path_segments@) {
            Some((_, its)) => r matches Some(v) && v@ == its,
            None => r is None,
        },
{
    let mut state = PathState::new();
    let mut out: Vec<PointIterator> = Vec::new();
    let n = path_segments.len();
    let mut i: usize = 0;
    while i < n
        invariant
            n == path_segments@.len(),
            0 <= i <= n,
            state.wf(),
            run(path_segments@.take(i as int)) == Some((state, out@)),
        decreases n - i,
    {
        let seg = path_segments[i];
        proof {
            assert(path_segments@.take(i + 1).drop_last() =~= path_segments@.take(i as int));
            assert(path_segments@.take(i + 1).last() == seg);
        }
        match state.advance(seg) {
            Some(it) => {
                out.push(it);
            },
            None => {
                proof {
                    lemma_run_none_extends(path_segments@, i + 1, n as int);
                    assert(path_segments@.take(n as int) =~= path_segments@);
                }
                return None;
            },
        }
        i = i + 1;
    }
    proof {
        assert(path_segments@.take(n as int) =~= path_segments@);
    }
    Some(out)
}

/// The points of a line or curve producer, each tagged with its move type.
pub fn classified_points(point_iterator: PointIterator) -> (r: Vec<LineTo>)
    requires
        point_iterator.wf(),
        !point_iterator.is_ellipse(),
    ensures
        r@ == point_iterator.points().map_values(|p: Point| tagged(p, point_iterator.kind())),
{
    let mut it = point_iterator;
    let move_type = it.move_type();
    let ghost all = point_iterator.points();
    let mut out: Vec<LineTo> = Vec::new();
    loop
        invariant
            it.wf(),
            !it.is_ellipse(),
            it.kind() == move_type,
            move_type == point_iterator.kind(),
            out@.len() + it.points().len() == all.len(),
            it.points() =~= all.skip(out@.len() as int),
            out@ =~= all.take(out@.len() as int).map_values(|p: Point| tagged(p, move_type)),
        ensures
            out@.len() == all.len(),
            out@ =~= all.take(out@.len() as int).map_values(|p: Point| tagged(p, move_type)),
        decreases it.points().len(),
    {
        match it.next() {
            Some(p) => {
                out.push(LineTo::new(p, move_type));
            },
            None => {
                break ;
            },
        }
    }
    proof {
        assert(all.take(all.len() as int) =~= all);
        assert(out@ =~= all.map_values(|p: Point| tagged(p, move_type)));
    }
    out
}

/// The tagged points of a run of producers, one producer after another.
pub open spec fn flat(its: Seq<PointIterator>) -> Seq<LineTo>
    decreases its.len(),
{
    if its.len() == 0 {
        seq![]
    } else {
        flat(its.drop_last()) + its.last().points().map_values(
            |p: Point| tagged(p, its.last().kind()),
        )
    }
}

/// The points of a run of line and curve producers as one sequence, each
/// tagged with its producer's move type.
pub fn flatten_points(point_iterators: &Vec<PointIterator>) -> (r: Vec<LineTo>)
    requires
        forall|i: int|
            0 <= i < point_iterators@.len() ==> #[trigger] point_iterators@[i].wf()
                && !point_iterators@[i].is_ellipse(),
    ensures
        r@ == flat(point_iterators@),
{
    let mut out: Vec<LineTo> = Vec::new();
    let n = point_iterators.len();
    let mut i: usize = 0;
    while i < n
        invariant
            n == point_iterators@.len(),
            0 <= i <= n,
            forall|j: int|
                0 <= j < point_iterators@.len() ==> #[trigger] point_iterators@[j].wf()
                    && !point_iterators@[j].is_ellipse(),
            out@ == flat(point_iterators@.take(i as int)),
        decreases n - i,
    {
        let it = point_iterators[i];
        let mut pts = classified_points(it);
        proof {
            assert(point_iterators@.take(i + 1).drop_last() =~= point_iterators@.take(i as int));
            assert(point_iterators@.take(i + 1).last() == it);
        }
        out.append(&mut pts);
        i = i + 1;
    }
    proof {
        assert(point_iterators@.take(n as int) =~= point_iterators@);
    }
    out
}

} // verus!
