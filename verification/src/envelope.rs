//! Amplitude envelopes: a gain that varies along the duration of a sound.
//!
//! An envelope is a list of control points in ascending order of time.
//! Between two neighbouring points the gain moves on a straight line; past
//! the last point the envelope has no value, which is how a voice learns that
//! its sound is over.

use crate::arith::lemma_part_of;
use crate::units::{Amp, Perc, SynthError, WHOLE};
use vstd::arithmetic::mul::lemma_mul_upper_bound;
use vstd::prelude::*;

verus! {

/// A control point of an envelope.
#[derive(Clone, Copy, Debug, PartialEq, Eq, Structural)]
pub struct Point {
    /// Where the point lies along the duration, from `0` to `WHOLE`.
    pub x: Perc,
    /// The gain at that position.
    pub y: Amp,
    /// The shape of the curve that leaves the point. Kept with the point for
    /// curved segments; every segment is drawn straight, whatever it holds.
    pub curve: Amp,
}

impl Point {
    /// A point at position `x` with gain `y`.
    pub fn new(x: Perc, y: Amp, curve: Amp) -> (p: Point)
        ensures
            p == (Point { x, y, curve }),
        no_unwind
    {
        Point { x, y, curve }
    }
}

/// Each point lies strictly later than every point before it.
pub open spec fn ascending(points: Seq<Point>) -> bool {
    forall|i: int, j: int| 0 <= i < j < points.len() ==> points[i].x < points[j].x
}

/// What makes a list of points an envelope: there is a point, the first one
/// lies at time zero, the times ascend strictly, and none lies past `WHOLE`.
pub open spec fn well_formed(points: Seq<Point>) -> bool {
    &&& points.len() >= 1
    &&& points[0].x == 0
    &&& ascending(points)
    &&& points.last().x <= WHOLE
}

/// The first reason, if any, for which a list of points is no envelope.
pub open spec fn fault(points: Seq<Point>) -> Option<SynthError> {
    if points.len() == 0 {
        Some(SynthError::EmptyEnvelope)
    } else if points[0].x != 0 {
        Some(SynthError::EnvelopeStart)
    } else if !ascending(points) {
        Some(SynthError::EnvelopeOrder)
    } else if points.last().x > WHOLE {
        Some(SynthError::EnvelopeRange)
    } else {
        None
    }
}

/// The gain at `x` on the straight line from `a` to `b`. The part of the
/// rise or fall that has been covered at `x` is rounded towards `a`'s gain.
pub open spec fn lerp(a: Point, b: Point, x: int) -> int {
    if b.y >= a.y {
        a.y + (b.y - a.y) * (x - a.x) / (b.x - a.x)
    } else {
        a.y - (a.y - b.y) * (x - a.x) / (b.x - a.x)
    }
}

/// The index of the last point that lies at or before `x`, or `-1` where
/// every point lies after `x`.
pub open spec fn bracket(points: Seq<Point>, x: int) -> int
    decreases points.len(),
{
    if points.len() == 0 {
        -1
    } else if points.last().x <= x {
        points.len() - 1
    } else {
        bracket(points.drop_last(), x)
    }
}

/// The gain of the envelope at `x`: none before the first point and none
/// after the last; the gain of a point at that point; between two points
/// the gain on the straight line that joins them.
pub open spec fn eval(points: Seq<Point>, x: int) -> Option<int> {
    let i = bracket(points, x);
    if i < 0 || x > points.last().x {
        None
    } else if i == points.len() - 1 {
        Some(points[i].y as int)
    } else {
        Some(lerp(points[i], points[i + 1], x))
    }
}

/// Among ascending points, the one at or before `x` whose successor lies
/// after `x` is the bracket of `x`.
pub proof fn lemma_bracket_is(points: Seq<Point>, x: int, i: int)
    requires
        ascending(points),
        0 <= i < points.len(),
        points[i].x <= x,
        i + 1 < points.len() ==> x < points[i + 1].x,
    ensures
        bracket(points, x) == i,
    decreases points.len(),
{
    if i + 1 < points.len() {
        let shorter = points.drop_last();
        assert(points.last().x > x) by {
            if i + 1 < points.len() - 1 {
                assert(points[i + 1].x < points[points.len() - 1].x);
            }
        }
        assert(ascending(shorter)) by {
            assert forall|a: int, b: int| 0 <= a < b < shorter.len() implies shorter[a].x
                < shorter[b].x by {
                assert(points[a].x < points[b].x);
            }
        }
        assert(shorter[i] == points[i]);
        if i + 1 < shorter.len() {
            assert(shorter[i + 1] == points[i + 1]);
        }
        lemma_bracket_is(shorter, x, i);
    }
}

/// Among points of which the first lies at zero, every position from zero
/// on has a bracket.
pub proof fn lemma_bracket_exists(points: Seq<Point>, x: int)
    requires
        points.len() >= 1,
        points[0].x == 0,
        0 <= x,
    ensures
        0 <= bracket(points, x) < points.len(),
    decreases points.len(),
{
    if points.last().x > x {
        assert(points.len() > 1);
        lemma_bracket_exists(points.drop_last(), x);
    }
}

/// An envelope has a gain exactly from its first point to its last.
pub proof fn lemma_eval_domain(points: Seq<Point>, x: int)
    requires
        well_formed(points),
    ensures
        eval(points, x) is Some <==> 0 <= x <= points.last().x,
{
    if 0 <= x {
        lemma_bracket_exists(points, x);
    } else {
        lemma_bracket_none(points, x);
    }
}

/// No point lies at or before a position below zero.
pub proof fn lemma_bracket_none(points: Seq<Point>, x: int)
    requires
        x < 0,
    ensures
        bracket(points, x) == -1,
    decreases points.len(),
{
    if points.len() > 0 {
        lemma_bracket_none(points.drop_last(), x);
    }
}

/// A straight segment never leaves the span between the gains at its ends.
pub proof fn lemma_lerp_between(a: Point, b: Point, x: int)
    requires
        a.x <= x <= b.x,
        a.x < b.x,
    ensures
        a.y <= b.y ==> a.y <= lerp(a, b, x) <= b.y,
        a.y >= b.y ==> b.y <= lerp(a, b, x) <= a.y,
        x == a.x ==> lerp(a, b, x) == a.y,
        x == b.x ==> lerp(a, b, x) == b.y,
{
    if b.y >= a.y {
        lemma_part_of(b.y - a.y, x - a.x, b.x - a.x);
    } else {
        lemma_part_of(a.y - b.y, x - a.x, b.x - a.x);
    }
}

/// An amplitude envelope.
#[derive(Debug)]
pub struct Envelope {
    points: Vec<Point>,
}

impl View for Envelope {
    type V = Seq<Point>;

    closed spec fn view(&self) -> Seq<Point> {
        self.points@
    }
}

impl Envelope {
    #[verifier::type_invariant]
    pub open spec fn inv(self) -> bool {
        well_formed(self@)
    }

    /// Makes an envelope of `points`, or says what is wrong with them.
    pub fn new(points: Vec<Point>) -> (r: Result<Envelope, SynthError>)
        ensures
            match r {
                Ok(env) => fault(points@) is None && env@ == points@ && well_formed(env@),
                Err(e) => fault(points@) == Some(e),
            },
        no_unwind
    {
        let n: usize = points.len();
        if n == 0 {
            return Err(SynthError::EmptyEnvelope);
        }
        if points[0].x != 0 {
            return Err(SynthError::EnvelopeStart);
        }
        let mut k: usize = 1;
        while k < n
            invariant
                1 <= k <= n,
                n == points.len(),
                points[0].x == 0,
                forall|i: int, j: int| 0 <= i < j < k ==> points[i].x < points[j].x,
            decreases n - k,
        {
            if points[k - 1].x >= points[k].x {
                assert(!ascending(points@)) by {
                    assert(!(points@[k - 1].x < points@[k as int].x));
                }
                return Err(SynthError::EnvelopeOrder);
            }
            assert forall|i: int, j: int| 0 <= i < j < k + 1 implies points[i].x < points[j].x by {
                if j == k && i < k - 1 {
                    assert(points[i].x < points[k - 1].x);
                }
            }
            k = k + 1;
        }
        assert(ascending(points@));
        if points[n - 1].x > WHOLE {
            return Err(SynthError::EnvelopeRange);
        }
        Ok(Envelope { points })
    }

    /// The number of control points.
    pub fn len(&self) -> (n: usize)
        ensures
            n == self@.len(),
            n >= 1,
        no_unwind
    {
        proof {
            use_type_invariant(self);
        }
        self.points.len()
    }

    /// The control point at index `i`, if there is one.
    pub fn point(&self, i: usize) -> (p: Option<Point>)
        ensures
            i < self@.len() ==> p == Some(self@[i as int]),
            i >= self@.len() ==> p is None,
        no_unwind
    {
        if i < self.points.len() {
            Some(self.points[i])
        } else {
            None
        }
    }

    /// The position of the last control point, past which the envelope has
    /// no value.
    pub fn end(&self) -> (x: Perc)
        ensures
            x == self@.last().x,
            x <= WHOLE,
        no_unwind
    {
        proof {
            use_type_invariant(self);
        }
        self.points[self.points.len() - 1].x
    }

    /// The gain at position `x`, or nothing where `x` lies past the last
    /// control point.
    pub fn y(&self, x: Perc) -> (r: Option<Amp>)
        ensures
            well_formed(self@),
            r is Some <==> x <= self@.last().x,
            match r {
                Some(v) => eval(self@, x as int) == Some(v as int),
                None => eval(self@, x as int) is None,
            },
        no_unwind
    {
        proof {
            use_type_invariant(self);
        }
        let n: usize = self.points.len();
        if x > self.points[n - 1].x {
            return None;
        }
        let mut i: usize = 0;
        while i + 1 < n && self.points[i + 1].x <= x
            invariant
                n == self.points.len(),
                i < n,
                self.points[i as int].x <= x,
                well_formed(self.points@),
            decreases n - i,
        {
            i = i + 1;
        }
        proof {
            lemma_bracket_is(self.points@, x as int, i as int);
        }
        if i + 1 == n {
            Some(self.points[i].y)
        } else {
            let a: Point = self.points[i];
            let b: Point = self.points[i + 1];
            Some(segment(a, b, x))
        }
    }
}

/// Computes `lerp` on a segment of an envelope.
fn segment(a: Point, b: Point, x: Perc) -> (r: Amp)
    requires
        a.x <= x < b.x,
    ensures
        r == lerp(a, b, x as int),
    no_unwind
{
    let w: u128 = (b.x - a.x) as u128;
    let dx: u128 = (x - a.x) as u128;
    proof {
        lemma_lerp_between(a, b, x as int);
    }
    if b.y >= a.y {
        let d: u128 = (b.y as i64 - a.y as i64) as u128;
        proof {
            lemma_mul_upper_bound(d as int, 0x1_0000_0000, dx as int, 0x1_0000_0000_0000_0000);
        }
        let part: u128 = d * dx / w;
        (a.y as i64 + part as i64) as i32
    } else {
        let d: u128 = (a.y as i64 - b.y as i64) as u128;
        proof {
            lemma_mul_upper_bound(d as int, 0x1_0000_0000, dx as int, 0x1_0000_0000_0000_0000);
        }
        let part: u128 = d * dx / w;
        (a.y as i64 - part as i64) as i32
    }
}

} // verus!
