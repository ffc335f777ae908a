//! The clock face: six columns of four circles inside the canvas bounds.
//!
//! Lengths come in as whole units of the canvas and go out in eighths of a
//! unit. The radius of a circle is an eighth of the height that the padding
//! leaves free, so in eighths the radius and every centre are whole numbers
//! and nothing is rounded.

use crate::digits::{bit_is_set, is_lit};
use crate::time::{SampledTime, TimeOfDay};
use vstd::prelude::*;

verus! {

/// The number of circles in a column, one for each binary place of a digit.
pub const ROWS: u8 = 4;

/// The number of columns, one for each digit of the time.
pub const COLUMNS: u8 = 6;

/// The height, in units of the canvas, that the clock face leaves free, half
/// of it above the top row.
pub const PADDING: u32 = 14;

/// The number of parts into which a unit of the canvas is divided for the
/// circles' coordinates: twice the number of rows.
pub const SUBUNITS: u32 = 8;

/// The size of the canvas, in whole units.
#[derive(Clone, Copy, Debug, PartialEq, Eq, Structural)]
pub struct Bounds {
    pub width: u32,
    pub height: u32,
}

/// A filled circle to draw, its centre and radius in eighths of a unit,
/// measured from the top left corner of the canvas.
#[derive(Clone, Copy, Debug, PartialEq, Eq, Structural)]
pub struct Circle {
    pub center_x: i64,
    pub center_y: i64,
    pub radius: i64,
    /// Whether the circle is lit.
    pub active: bool,
}

/// A circle as the layout's mathematics sees it.
pub struct CircleView {
    pub center_x: int,
    pub center_y: int,
    pub radius: int,
    pub active: bool,
}

impl View for Circle {
    type V = CircleView;

    open spec fn view(&self) -> CircleView {
        CircleView {
            center_x: self.center_x as int,
            center_y: self.center_y as int,
            radius: self.radius as int,
            active: self.active,
        }
    }
}

/// The circles of a list as the layout's mathematics sees them.
pub open spec fn views(circles: Seq<Circle>) -> Seq<CircleView> {
    circles.map_values(|circle: Circle| circle@)
}

/// The radius of every circle, in eighths of a unit: the height that the
/// padding leaves free, divided among the diameters of the rows.
pub open spec fn circle_radius(height: int, padding: int) -> int {
    SUBUNITS * (height - padding) / (2 * ROWS)
}

/// The horizontal centre of the circles of `column`, in eighths of a unit:
/// the columns touch, the first one touching the left edge.
pub open spec fn column_center_x(height: int, padding: int, column: int) -> int {
    circle_radius(height, padding) * (2 * column + 1)
}

/// The vertical centre of the circles of `row`, counted from the top, in
/// eighths of a unit: the rows touch, the first one lying half the padding
/// below the top edge.
pub open spec fn row_center_y(height: int, padding: int, row: int) -> int {
    SUBUNITS * padding / 2 + circle_radius(height, padding) * (2 * row + 1)
}

/// The binary place that the circle of `row` stands for: the top row stands
/// for the heaviest place.
pub open spec fn place_of_row(row: int) -> nat {
    (ROWS - 1 - row) as nat
}

/// The circle in `column` and `row` of a clock face of the given height, in a
/// column that shows `number`.
pub open spec fn circle_at(height: int, column: int, row: int, number: nat) -> CircleView {
    CircleView {
        center_x: column_center_x(height, PADDING as int, column),
        center_y: row_center_y(height, PADDING as int, row),
        radius: circle_radius(height, PADDING as int),
        active: bit_is_set(number, place_of_row(row)),
    }
}

/// The four circles of `column`, from top to bottom, when it shows `number`.
pub open spec fn column_circles(height: int, column: int, number: nat) -> Seq<CircleView> {
    Seq::new(ROWS as nat, |row: int| circle_at(height, column, row, number))
}

/// The 24 circles of the clock face at `time`, column after column from left
/// to right, each column from top to bottom.
pub open spec fn face_circles(time: TimeOfDay, height: int) -> Seq<CircleView> {
    Seq::new(
        (COLUMNS * ROWS) as nat,
        |k: int| circle_at(height, k / (ROWS as int), k % (ROWS as int), time.digits()[k / (ROWS as int)]),
    )
}

/// In eighths of a unit the radius is the height that the padding leaves
/// free: the eighths of a unit are as many as the radii that fill the height.
proof fn lemma_radius_is_whole(height: int, padding: int)
    ensures
        circle_radius(height, padding) == height - padding,
{
    let free: int = height - padding;
    assert(2 * ROWS == 8 && SUBUNITS == 8);
    assert(SUBUNITS * free / 8 == free);
}

/// The centre of the circle number `count` in a row of touching circles lies
/// `2 * count + 1` radii from the edge, one diameter beyond the centre before
/// it, and within reach of the machine's integers.
proof fn lemma_touching_circles(radius: int, count: int)
    requires
        -0x1_0000_0000 <= radius <= 0x1_0000_0000,
        0 <= count < 256,
    ensures
        (radius * 2) * count + radius == radius * (2 * count + 1),
        radius * (2 * (count + 1) + 1) == radius * (2 * count + 1) + radius * 2,
        -0x200_0000_0000 <= (radius * 2) * count <= 0x200_0000_0000,
        -0x200_0000_0000 <= radius * (2 * count + 1) <= 0x200_0000_0000,
{
    assert((radius * 2) * count + radius == radius * (2 * count + 1)) by (nonlinear_arith);
    assert(radius * (2 * (count + 1) + 1) == radius * (2 * count + 1) + radius * 2)
        by (nonlinear_arith);
    assert(-0x200_0000_0000 <= (radius * 2) * count <= 0x200_0000_0000) by (nonlinear_arith)
        requires
            -0x1_0000_0000 <= radius <= 0x1_0000_0000,
            0 <= count < 256,
    ;
    assert(-0x200_0000_0000 <= radius * (2 * count + 1) <= 0x200_0000_0000) by (nonlinear_arith)
        requires
            -0x1_0000_0000 <= radius <= 0x1_0000_0000,
            0 <= count < 256,
    ;
}

/// A list of circles that is a column holds four circles, each the circle of
/// its row.
proof fn lemma_column_has_its_circles(circles: Seq<Circle>, height: int, column: int, number: nat)
    requires
        views(circles) == column_circles(height, column, number),
    ensures
        circles.len() == ROWS,
        forall|row: int|
            0 <= row < ROWS ==> (#[trigger] circles[row])@ == circle_at(height, column, row, number),
{
    assert(views(circles).len() == circles.len());
    assert(column_circles(height, column, number).len() == ROWS);
    assert forall|row: int| 0 <= row < ROWS implies (#[trigger] circles[row])@ == circle_at(
        height,
        column,
        row,
        number,
    ) by {
        assert(views(circles)[row] == circles[row]@);
    }
}

/// What the canvas draws: the sampled time, shown as a binary clock.
#[derive(Clone, Copy, Debug, PartialEq, Eq, Structural)]
pub struct ClockWidget {
    pub current_time: SampledTime,
}

impl ClockWidget {
    /// The four circles of the column at `index`, from top to bottom, when the
    /// column shows `number`.
    pub fn column(&self, index: u8, number: u32, bounds: Bounds) -> (circles: Vec<Circle>)
        ensures
            views(circles@) == column_circles(bounds.height as int, index as int, number as nat),
            circles@.len() == ROWS,
            forall|row: int|
                0 <= row < ROWS ==> (#[trigger] circles@[row])@ == circle_at(
                    bounds.height as int,
                    index as int,
                    row,
                    number as nat,
                ),
    {
        // In eighths of a unit the radius is the free height itself.
        let radius: i64 = bounds.height as i64 - PADDING as i64;
        let half_padding: i64 = (SUBUNITS * PADDING / 2) as i64;
        proof {
            lemma_touching_circles(radius as int, index as int);
            lemma_touching_circles(radius as int, 0);
            lemma_radius_is_whole(bounds.height as int, PADDING as int);
        }
        let x: i64 = (radius * 2) * (index as i64) + radius;
        let mut y: i64 = half_padding + radius;
        let mut circles: Vec<Circle> = Vec::new();
        let mut row: u8 = 0;
        while row < ROWS
            invariant
                row <= ROWS,
                radius == circle_radius(bounds.height as int, PADDING as int),
                x == column_center_x(bounds.height as int, PADDING as int, index as int),
                y == row_center_y(bounds.height as int, PADDING as int, row as int),
                circles@.len() == row,
                forall|r: int|
                    0 <= r < row ==> (#[trigger] circles@[r])@ == circle_at(
                        bounds.height as int,
                        index as int,
                        r,
                        number as nat,
                    ),
            decreases ROWS - row,
        {
            proof {
                lemma_touching_circles(radius as int, row as int);
            }
            let place: u32 = (ROWS - 1 - row) as u32;
            circles.push(Circle { center_x: x, center_y: y, radius, active: is_lit(number, place) });
            y = y + radius * 2;
            row = row + 1;
        }
        assert(views(circles@) =~= column_circles(
            bounds.height as int,
            index as int,
            number as nat,
        ));
        circles
    }

    /// The 24 circles of the clock face for the widget's time, column after
    /// column from left to right, each column from top to bottom.
    pub fn draw(&self, bounds: Bounds) -> (face: Vec<Circle>)
        ensures
            views(face@) == face_circles(self.current_time@, bounds.height as int),
            face@.len() == COLUMNS * ROWS,
            forall|k: int|
                0 <= k < COLUMNS * ROWS ==> (#[trigger] face@[k])@ == circle_at(
                    bounds.height as int,
                    k / (ROWS as int),
                    k % (ROWS as int),
                    self.current_time@.digits()[k / (ROWS as int)],
                ),
    {
        let time = &self.current_time;
        let mut face = self.column(0, time.hour() / 10, bounds);
        let mut hours = self.column(1, time.hour() % 10, bounds);
        let mut ten_minutes = self.column(2, time.minute() / 10, bounds);
        let mut minutes = self.column(3, time.minute() % 10, bounds);
        let mut ten_seconds = self.column(4, time.second() / 10, bounds);
        let mut seconds = self.column(5, time.second() % 10, bounds);
        proof {
            lemma_column_has_its_circles(face@, bounds.height as int, 0, time@.digits()[0]);
            lemma_column_has_its_circles(hours@, bounds.height as int, 1, time@.digits()[1]);
            lemma_column_has_its_circles(ten_minutes@, bounds.height as int, 2, time@.digits()[2]);
            lemma_column_has_its_circles(minutes@, bounds.height as int, 3, time@.digits()[3]);
            lemma_column_has_its_circles(ten_seconds@, bounds.height as int, 4, time@.digits()[4]);
            lemma_column_has_its_circles(seconds@, bounds.height as int, 5, time@.digits()[5]);
        }
        face.append(&mut hours);
        face.append(&mut ten_minutes);
        face.append(&mut minutes);
        face.append(&mut ten_seconds);
        face.append(&mut seconds);
        assert(views(face@) =~= face_circles(self.current_time@, bounds.height as int));
        face
    }
}

/// The circle in `column` and `row` of a clock face: twice as many radii as
/// there are rows fill the height that the padding leaves free with nothing
/// left over, so the radius is `(height - PADDING) / 8` units exactly; the
/// centre lies `2 * column + 1` radii from the left edge and, below half the
/// padding, `2 * row + 1` radii from the top; and the circle is lit exactly
/// when the binary place of its row, the heaviest on top, is set in the digit
/// of its column.
pub proof fn lemma_face_layout(time: TimeOfDay, height: int, column: int, row: int)
    requires
        0 <= column < COLUMNS,
        0 <= row < ROWS,
    ensures
        face_circles(time, height).len() == COLUMNS * ROWS,
        ({
            let circle = face_circles(time, height)[column * ROWS + row];
            &&& circle.radius * (2 * ROWS) == SUBUNITS * (height - PADDING)
            &&& circle.center_x == circle.radius * (2 * column + 1)
            &&& circle.center_y == SUBUNITS * PADDING / 2 + circle.radius * (2 * row + 1)
            &&& circle.active == bit_is_set(time.digits()[column], (ROWS - 1 - row) as nat)
        }),
{
    let k: int = column * ROWS + row;
    lemma_radius_is_whole(height, PADDING as int);
    assert(k / (ROWS as int) == column && k % (ROWS as int) == row);
}

/// The layout for any padding: twice as many radii as there are rows fill
/// the height that the padding leaves free with nothing left over, so the
/// radius is `(height - padding) / 8` units exactly; and the centre of column
/// `column` lies `2 * column + 1` radii from the left edge.
pub proof fn lemma_radius_and_column_centre(height: int, padding: int, column: int)
    ensures
        circle_radius(height, padding) * (2 * ROWS) == SUBUNITS * (height - padding),
        column_center_x(height, padding, column) == circle_radius(height, padding) * (2 * column
            + 1),
{
    lemma_radius_is_whole(height, padding);
}

/// Drawing depends on the time and the height of the bounds alone: two lists
/// of circles drawn for the same time and the same height are the same list.
pub proof fn lemma_draw_is_a_function(
    time: TimeOfDay,
    height: int,
    first: Seq<Circle>,
    second: Seq<Circle>,
)
    requires
        views(first) == face_circles(time, height),
        views(second) == face_circles(time, height),
    ensures
        first == second,
{
    assert(views(first).len() == first.len());
    assert(views(second).len() == second.len());
    assert forall|k: int| 0 <= k < first.len() implies first[k] == second[k] by {
        assert(views(first)[k] == first[k]@);
        assert(views(second)[k] == second[k]@);
    }
    assert(first =~= second);
}

} // verus!
