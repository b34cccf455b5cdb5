//! The triangular rack of fifteen object balls.
//!
//! The rack has five rows. Row `r` holds `r + 1` balls, one ball diameter
//! apart, centred on the rack's axis; neighbouring rows are the height of an
//! equilateral triangle apart, so every ball touches its neighbours.

use crate::exact::{
    at_least_apart, exactly_apart, quadrance4_root3, quadrance4_whole, views_of, Coord, Point,
    Surd, SurdPoint,
};
use vstd::prelude::*;

verus! {

/// The number of rows of the rack.
pub const RACK_ROWS: u8 = 5;

/// The number of balls of the rack.
pub const RACK_BALLS: usize = 15;

/// Whether `placement` names a ball of row `row` of the rack.
pub open spec fn in_rack(row: int, placement: int) -> bool {
    0 <= placement <= row < RACK_ROWS
}

/// The number of balls in the rows before `row`, a triangular number; past
/// the last row, the number of balls of the rack.
pub open spec fn row_start(row: int) -> int {
    if row <= 0 {
        0
    } else if row == 1 {
        1
    } else if row == 2 {
        3
    } else if row == 3 {
        6
    } else if row == 4 {
        10
    } else {
        15
    }
}

/// The place in the layout of ball `placement` of row `row`: rows come one
/// after the other, the single ball of row 0 first.
pub open spec fn rack_index(row: int, placement: int) -> int {
    row_start(row) + placement
}

/// The row of the ball at place `index` of the layout.
pub open spec fn row_of(index: int) -> int {
    if index < 1 {
        0
    } else if index < 3 {
        1
    } else if index < 6 {
        2
    } else if index < 10 {
        3
    } else {
        4
    }
}

/// The placement within its row of the ball at place `index` of the layout.
pub open spec fn placement_of(index: int) -> int {
    index - row_start(row_of(index))
}

/// Where ball `placement` of row `row` lies, for balls of diameter `d`, a rack
/// whose middle row is `c` above the table's centre, and a tolerance `t` that
/// is added to both coordinates:
///
/// * `x = -row / 2 * d + placement * d + t`
/// * `y = c + (row - 2) * sin(60 degrees) * d + t`
///
/// The sine of sixty degrees is half the square root of three.
pub open spec fn rack_position(d: int, c: int, t: int, row: int, placement: int) -> SurdPoint {
    SurdPoint {
        x: Surd::half((2 * placement - row) * d + 2 * t),
        y: Surd { halves: 2 * (c + t), root3_halves: (row - 2) * d },
    }
}

/// The fifteen positions of the rack, row by row.
pub open spec fn rack_positions(d: int, c: int, t: int) -> Seq<SurdPoint> {
    Seq::new(
        RACK_BALLS as nat,
        |index: int| rack_position(d, c, t, row_of(index), placement_of(index)),
    )
}

/// Whether two balls of the rack are neighbours: next to each other in a row,
/// or in adjacent rows with the ball of the longer row on either side of the
/// other.
pub open spec fn touching(row_a: int, placement_a: int, row_b: int, placement_b: int) -> bool {
    ||| row_a == row_b && (placement_b == placement_a + 1 || placement_a == placement_b + 1)
    ||| row_b == row_a + 1 && (placement_b == placement_a || placement_b == placement_a + 1)
    ||| row_a == row_b + 1 && (placement_a == placement_b || placement_a == placement_b + 1)
}

/// No two points of `points` are closer to each other than `d`.
pub open spec fn well_spaced(points: Seq<SurdPoint>, d: int) -> bool {
    forall|i: int, j: int|
        0 <= i < points.len() && 0 <= j < points.len() && i != j ==> at_least_apart(
            #[trigger] points[i],
            #[trigger] points[j],
            d,
        )
}

/// No point occurs twice in `points`.
pub open spec fn all_distinct(points: Seq<SurdPoint>) -> bool {
    forall|i: int, j: int|
        0 <= i < points.len() && 0 <= j < points.len() && i != j ==> #[trigger] points[i]
            != #[trigger] points[j]
}

/// Every row of the layout `points` is its own mirror image about the line
/// `x = axis`: the ball `placement` places from one end of a row and the ball
/// `placement` places from the other end lie at the same height, as far from
/// the line on either side.
pub open spec fn rows_mirrored(points: Seq<SurdPoint>, axis: int) -> bool {
    forall|row: int, placement: int|
        in_rack(row, placement) ==> {
            let ball = points[#[trigger] rack_index(row, placement)];
            let twin = points[rack_index(row, row - placement)];
            twin.x == ball.x.mirrored(axis) && twin.y == ball.y
        }
}

/// Every row of the layout `points` is symmetric about the line `x = 0`: the
/// horizontal coordinates of a ball and of its twin from the other end of the
/// row are each other's negative.
pub open spec fn rows_symmetric(points: Seq<SurdPoint>) -> bool {
    forall|row: int, placement: int|
        in_rack(row, placement) ==> points[rack_index(row, row - placement)].x == points[
            #[trigger] rack_index(row, placement)
        ].x.negated()
}

/// The sizes for which the machine arithmetic of the layout cannot overflow.
pub open spec fn layout_fits(d: int, c: int, t: int) -> bool {
    &&& 0 <= d <= 0xffff_ffff
    &&& -0x2_0000_0000 <= c <= 0x2_0000_0000
    &&& -0x8000_0000 <= t <= 0x7fff_ffff
}

/// On the lattice of the rack, `dh` half diameters across and `dr` rows up,
/// the square of a distance is `dh * dh + 3 * dr * dr` quarter diameters
/// squared.
proof fn lemma_lattice_norm(dh: int, dr: int, d: int)
    by (nonlinear_arith)
    ensures
        (dh * d) * (dh * d) + 3 * (dr * d) * (dr * d) == (dh * dh + 3 * dr * dr) * (d * d),
{
}

/// Between two different balls `dh` and `dr` are both even or both odd, and
/// not both zero: so the balls are four quarter diameters squared apart or
/// more, and exactly four on the six shortest steps of the lattice.
proof fn lemma_lattice_steps(dh: int, dr: int)
    by (nonlinear_arith)
    requires
        -8 <= dh <= 8,
        -4 <= dr <= 4,
        (dh + dr) % 2 == 0,
        dh != 0 || dr != 0,
    ensures
        dh * dh + 3 * dr * dr >= 4,
        dh * dh + 3 * dr * dr == 4 <==> (dr == 0 && (dh == 2 || dh == -2)) || ((dr == 1 || dr
            == -1) && (dh == 1 || dh == -1)),
{
}

/// Four quarter diameters squared are one diameter squared.
proof fn lemma_scaled_square(k: int, d: int)
    by (nonlinear_arith)
    requires
        k >= 4,
    ensures
        k * (d * d) - 4 * d * d >= 0,
        d != 0 ==> (k * (d * d) == 4 * d * d <==> k == 4),
{
}

/// Two different balls of the rack are at least one diameter apart, and
/// exactly one diameter apart when they are neighbours, and only then. Four
/// times the square of their distance is a whole number, with no part in the
/// square root of three.
pub proof fn lemma_rack_spacing(
    d: int,
    c: int,
    t: int,
    row_a: int,
    placement_a: int,
    row_b: int,
    placement_b: int,
)
    requires
        in_rack(row_a, placement_a),
        in_rack(row_b, placement_b),
        row_a != row_b || placement_a != placement_b,
    ensures
        quadrance4_root3(
            rack_position(d, c, t, row_a, placement_a),
            rack_position(d, c, t, row_b, placement_b),
        ) == 0,
        quadrance4_whole(
            rack_position(d, c, t, row_a, placement_a),
            rack_position(d, c, t, row_b, placement_b),
        ) >= 4 * d * d,
        at_least_apart(
            rack_position(d, c, t, row_a, placement_a),
            rack_position(d, c, t, row_b, placement_b),
            d,
        ),
        d > 0 ==> (exactly_apart(
            rack_position(d, c, t, row_a, placement_a),
            rack_position(d, c, t, row_b, placement_b),
            d,
        ) <==> touching(row_a, placement_a, row_b, placement_b)),
{
    let a = rack_position(d, c, t, row_a, placement_a);
    let b = rack_position(d, c, t, row_b, placement_b);
    let dh = (2 * placement_a - row_a) - (2 * placement_b - row_b);
    let dr = row_a - row_b;
    let ax = a.x.halves - b.x.halves;
    let bx = a.x.root3_halves - b.x.root3_halves;
    let ay = a.y.halves - b.y.halves;
    let by = a.y.root3_halves - b.y.root3_halves;
    assert(ax == dh * d) by (nonlinear_arith)
        requires
            ax == ((2 * placement_a - row_a) * d + 2 * t) - ((2 * placement_b - row_b) * d + 2
                * t),
            dh == (2 * placement_a - row_a) - (2 * placement_b - row_b),
    ;
    assert(by == dr * d) by (nonlinear_arith)
        requires
            by == (row_a - 2) * d - (row_b - 2) * d,
            dr == row_a - row_b,
    ;
    assert(ax * ax + 3 * bx * bx + ay * ay + 3 * by * by == (dh * d) * (dh * d) + 3 * (dr * d) * (
    dr * d) && 2 * ax * bx + 2 * ay * by == 0) by (nonlinear_arith)
        requires
            ax == dh * d,
            by == dr * d,
            bx == 0,
            ay == 0,
    ;
    lemma_lattice_norm(dh, dr, d);
    lemma_lattice_steps(dh, dr);
    lemma_scaled_square(dh * dh + 3 * dr * dr, d);
}

/// The layout of a rack is well spaced by the balls' diameter.
pub proof fn lemma_rack_is_well_spaced(d: int, c: int, t: int)
    ensures
        well_spaced(rack_positions(d, c, t), d),
{
    let points = rack_positions(d, c, t);
    assert forall|i: int, j: int|
        0 <= i < points.len() && 0 <= j < points.len() && i != j implies at_least_apart(
        #[trigger] points[i],
        #[trigger] points[j],
        d,
    ) by {
        lemma_rack_spacing(d, c, t, row_of(i), placement_of(i), row_of(j), placement_of(j));
    }
}

/// The balls of a rack lie in fifteen different places, unless their diameter
/// is zero.
pub proof fn lemma_rack_is_distinct(d: int, c: int, t: int)
    requires
        d != 0,
    ensures
        all_distinct(rack_positions(d, c, t)),
{
    let points = rack_positions(d, c, t);
    assert forall|i: int, j: int|
        0 <= i < points.len() && 0 <= j < points.len() && i != j implies #[trigger] points[i]
        != #[trigger] points[j] by {
        let dh = (2 * placement_of(i) - row_of(i)) - (2 * placement_of(j) - row_of(j));
        let dr = row_of(i) - row_of(j);
        let ax = points[i].x.halves - points[j].x.halves;
        let by = points[i].y.root3_halves - points[j].y.root3_halves;
        assert(ax == dh * d) by (nonlinear_arith)
            requires
                ax == ((2 * placement_of(i) - row_of(i)) * d + 2 * t) - ((2 * placement_of(j)
                    - row_of(j)) * d + 2 * t),
                dh == (2 * placement_of(i) - row_of(i)) - (2 * placement_of(j) - row_of(j)),
        ;
        assert(by == dr * d) by (nonlinear_arith)
            requires
                by == (row_of(i) - 2) * d - (row_of(j) - 2) * d,
                dr == row_of(i) - row_of(j),
        ;
        assert(dh * d != 0 || dr * d != 0) by (nonlinear_arith)
            requires
                dh != 0 || dr != 0,
                d != 0,
        ;
    }
}

/// The ball `placement` places from one end of a row and the ball `placement`
/// places from the other end are mirror images about the line `x = t`.
pub proof fn lemma_rack_row_mirrored(d: int, c: int, t: int, row: int, placement: int)
    ensures
        rack_position(d, c, t, row, row - placement).x == rack_position(
            d,
            c,
            t,
            row,
            placement,
        ).x.mirrored(t),
        rack_position(d, c, t, row, row - placement).y == rack_position(d, c, t, row, placement).y,
{
    assert((2 * (row - placement) - row) * d == -((2 * placement - row) * d))
        by (nonlinear_arith);
}

/// Every row of the layout of a rack is its own mirror image about `x = t`.
pub proof fn lemma_rack_rows_mirrored(d: int, c: int, t: int)
    ensures
        rows_mirrored(rack_positions(d, c, t), t),
{
    let points = rack_positions(d, c, t);
    assert forall|row: int, placement: int| in_rack(row, placement) implies {
        let ball = points[#[trigger] rack_index(row, placement)];
        let twin = points[rack_index(row, row - placement)];
        twin.x == ball.x.mirrored(t) && twin.y == ball.y
    } by {
        lemma_rack_row_mirrored(d, c, t, row, placement);
        assert(row_of(rack_index(row, placement)) == row);
        assert(row_of(rack_index(row, row - placement)) == row);
    }
}

/// With no tolerance, every row of the layout of a rack is symmetric about
/// the line `x = 0`.
pub proof fn lemma_rack_rows_symmetric(d: int, c: int, t: int)
    requires
        t == 0,
    ensures
        rows_symmetric(rack_positions(d, c, t)),
{
    lemma_rack_rows_mirrored(d, c, t);
    let points = rack_positions(d, c, t);
    assert forall|row: int, placement: int| in_rack(row, placement) implies points[rack_index(
        row,
        row - placement,
    )].x == points[#[trigger] rack_index(row, placement)].x.negated() by {
        assert(points[rack_index(row, placement)].x.mirrored(0) == points[rack_index(
            row,
            placement,
        )].x.negated());
    }
}

/// The layout is a function of the diameter, the offset and the tolerance:
/// two sequences of points that both lay out the same rack are equal, point
/// for point and in the same order.
pub proof fn lemma_rack_layout_is_determined(
    first: Seq<Point>,
    second: Seq<Point>,
    d: int,
    c: int,
    t: int,
)
    requires
        views_of(first) == rack_positions(d, c, t),
        views_of(second) == rack_positions(d, c, t),
    ensures
        first == second,
{
    assert(first.len() == views_of(first).len());
    assert(second.len() == views_of(second).len());
    assert forall|i: int| 0 <= i < first.len() implies first[i] == second[i] by {
        assert(views_of(first)[i] == first[i]@);
        assert(views_of(second)[i] == second[i]@);
    }
    assert(first =~= second);
}

/// A few steps of a 32-bit diameter fit in 64 bits with room to spare.
proof fn lemma_step_product_bounds(steps: int, d: int)
    by (nonlinear_arith)
    requires
        -255 <= steps <= 510,
        0 <= d <= 0xffff_ffff,
    ensures
        -255 * 0xffff_ffff <= steps * d <= 510 * 0xffff_ffff,
{
}

/// [`ball_position`] for sizes of a wider range.
pub(crate) fn position_in(d: i64, c: i64, t: i64, row: u8, placement: u8) -> (p: Point)
    requires
        layout_fits(d as int, c as int, t as int),
    ensures
        p@ == rack_position(d as int, c as int, t as int, row as int, placement as int),
{
    let steps: i64 = 2 * (placement as i64) - (row as i64);
    let rows: i64 = (row as i64) - 2;
    proof {
        lemma_step_product_bounds(steps as int, d as int);
        lemma_step_product_bounds(rows as int, d as int);
    }
    Point {
        x: Coord { halves: steps * d + 2 * t, root3_halves: 0 },
        y: Coord { halves: 2 * (c + t), root3_halves: rows * d },
    }
}

/// [`rack_layout`] for sizes of a wider range.
pub(crate) fn layout_in(d: i64, c: i64, t: i64) -> (balls: Vec<Point>)
    requires
        layout_fits(d as int, c as int, t as int),
    ensures
        views_of(balls@) == rack_positions(d as int, c as int, t as int),
{
    let mut balls: Vec<Point> = Vec::new();
    let mut row: u8 = 0;
    while row < RACK_ROWS
        invariant
            row <= RACK_ROWS,
            layout_fits(d as int, c as int, t as int),
            balls@.len() == row_start(row as int),
            forall|i: int|
                0 <= i < balls@.len() ==> (#[trigger] balls@[i])@ == rack_position(
                    d as int,
                    c as int,
                    t as int,
                    row_of(i),
                    placement_of(i),
                ),
        decreases RACK_ROWS - row,
    {
        let mut placement: u8 = 0;
        while placement <= row
            invariant
                row < RACK_ROWS,
                placement <= row + 1,
                layout_fits(d as int, c as int, t as int),
                balls@.len() == row_start(row as int) + placement,
                forall|i: int|
                    0 <= i < balls@.len() ==> (#[trigger] balls@[i])@ == rack_position(
                        d as int,
                        c as int,
                        t as int,
                        row_of(i),
                        placement_of(i),
                    ),
            decreases row + 1 - placement,
        {
            balls.push(position_in(d, c, t, row, placement));
            placement += 1;
        }
        row += 1;
    }
    assert(views_of(balls@) =~= rack_positions(d as int, c as int, t as int));
    balls
}

/// The position of ball `placement` of row `row`. The formula is followed for
/// every `row` and `placement`, also beyond the five rows of the rack.
pub fn ball_position(d: u32, c: i32, t: i32, row: u8, placement: u8) -> (p: Point)
    ensures
        p@ == rack_position(d as int, c as int, t as int, row as int, placement as int),
{
    position_in(d as i64, c as i64, t as i64, row, placement)
}

/// Lays out the rack for balls of diameter `d`, a middle row `c` above the
/// table's centre and a tolerance `t`: the fifteen positions of
/// [`rack_positions`], whatever the three sizes are. No two balls overlap,
/// every row is its own mirror image about `x = t`, and no two balls lie in
/// one place unless their diameter is zero.
pub fn rack_layout(d: u32, c: i32, t: i32) -> (balls: Vec<Point>)
    ensures
        views_of(balls@) == rack_positions(d as int, c as int, t as int),
        balls@.len() == RACK_BALLS,
        well_spaced(views_of(balls@), d as int),
        rows_mirrored(views_of(balls@), t as int),
        t == 0 ==> rows_symmetric(views_of(balls@)),
        d != 0 ==> all_distinct(views_of(balls@)),
{
    proof {
        lemma_rack_is_well_spaced(d as int, c as int, t as int);
        lemma_rack_rows_mirrored(d as int, c as int, t as int);
        if t == 0 {
            lemma_rack_rows_symmetric(d as int, c as int, t as int);
        }
        if d != 0 {
            lemma_rack_is_distinct(d as int, c as int, t as int);
        }
    }
    let balls = layout_in(d as i64, c as i64, t as i64);
    assert(balls@.len() == views_of(balls@).len());
    balls
}

} // verus!
