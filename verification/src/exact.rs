//! Exact coordinates: numbers of the form `(a + b * sqrt(3)) / 2` with integer
//! `a` and `b`, and exact comparison of distances between points made of them.

use vstd::prelude::*;

verus! {

/// The number `(halves + root3_halves * sqrt(3)) / 2`.
pub struct Surd {
    pub halves: int,
    pub root3_halves: int,
}

impl Surd {
    /// The integer `n`.
    pub open spec fn whole(n: int) -> Surd {
        Surd { halves: 2 * n, root3_halves: 0 }
    }

    /// `n / 2`.
    pub open spec fn half(n: int) -> Surd {
        Surd { halves: n, root3_halves: 0 }
    }

    /// `-self`.
    pub open spec fn negated(self) -> Surd {
        Surd { halves: -self.halves, root3_halves: -self.root3_halves }
    }

    /// The mirror image of `self` about the integer `axis`: `2 * axis - self`.
    pub open spec fn mirrored(self, axis: int) -> Surd {
        Surd { halves: 4 * axis - self.halves, root3_halves: -self.root3_halves }
    }
}

/// A point of the plane with exact coordinates.
pub struct SurdPoint {
    pub x: Surd,
    pub y: Surd,
}

/// Whether `whole + root3 * sqrt(3)` is zero or positive.
///
/// The two terms are compared by their squares whenever their signs differ.
pub open spec fn root3_sum_is_nonnegative(whole: int, root3: int) -> bool {
    if root3 >= 0 {
        whole >= 0 || whole * whole <= 3 * root3 * root3
    } else {
        whole >= 0 && whole * whole >= 3 * root3 * root3
    }
}

/// The rational part of four times the squared distance between `p` and `q`.
pub open spec fn quadrance4_whole(p: SurdPoint, q: SurdPoint) -> int {
    let ax = p.x.halves - q.x.halves;
    let bx = p.x.root3_halves - q.x.root3_halves;
    let ay = p.y.halves - q.y.halves;
    let by = p.y.root3_halves - q.y.root3_halves;
    ax * ax + 3 * bx * bx + ay * ay + 3 * by * by
}

/// The coefficient of `sqrt(3)` in four times the squared distance between
/// `p` and `q`.
pub open spec fn quadrance4_root3(p: SurdPoint, q: SurdPoint) -> int {
    let ax = p.x.halves - q.x.halves;
    let bx = p.x.root3_halves - q.x.root3_halves;
    let ay = p.y.halves - q.y.halves;
    let by = p.y.root3_halves - q.y.root3_halves;
    2 * ax * bx + 2 * ay * by
}

/// The distance between `p` and `q` is at least `d`.
pub open spec fn at_least_apart(p: SurdPoint, q: SurdPoint, d: int) -> bool {
    d <= 0 || root3_sum_is_nonnegative(
        quadrance4_whole(p, q) - 4 * d * d,
        quadrance4_root3(p, q),
    )
}

/// The distance between `p` and `q` is exactly `d`.
pub open spec fn exactly_apart(p: SurdPoint, q: SurdPoint, d: int) -> bool {
    d >= 0 && quadrance4_whole(p, q) == 4 * d * d && quadrance4_root3(p, q) == 0
}

/// An exact coordinate held in machine integers.
#[derive(Clone, Copy, Debug, PartialEq, Eq)]
pub struct Coord {
    pub halves: i64,
    pub root3_halves: i64,
}

impl View for Coord {
    type V = Surd;

    open spec fn view(&self) -> Surd {
        Surd { halves: self.halves as int, root3_halves: self.root3_halves as int }
    }
}

impl Coord {
    /// The coordinate `n`.
    pub fn whole(n: i32) -> (c: Coord)
        ensures
            c@ == Surd::whole(n as int),
    {
        Coord { halves: 2 * (n as i64), root3_halves: 0 }
    }

    /// The coordinate `n / 2`.
    pub fn half(n: i64) -> (c: Coord)
        ensures
            c@ == Surd::half(n as int),
    {
        Coord { halves: n, root3_halves: 0 }
    }
}

/// A point held in machine integers.
#[derive(Clone, Copy, Debug, PartialEq, Eq)]
pub struct Point {
    pub x: Coord,
    pub y: Coord,
}

impl View for Point {
    type V = SurdPoint;

    open spec fn view(&self) -> SurdPoint {
        SurdPoint { x: self.x@, y: self.y@ }
    }
}

/// The views of a sequence of points, in the same order.
pub open spec fn views_of(points: Seq<Point>) -> Seq<SurdPoint> {
    Seq::new(points.len(), |i: int| points[i]@)
}

} // verus!
