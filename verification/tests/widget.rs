use binary_clock::time::SampledTime;
use binary_clock::widget::{Bounds, Circle, ClockWidget, COLUMNS, PADDING, ROWS, SUBUNITS};

fn face_at(hour: u32, minute: u32, second: u32, height: u32) -> Vec<Circle> {
    let widget = ClockWidget { current_time: SampledTime::new(hour, minute, second).unwrap() };
    widget.draw(Bounds { width: 200, height })
}

/// The lit flags of one column of a face, from the top row to the bottom row.
fn lit_rows(face: &[Circle], column: usize) -> [bool; 4] {
    [
        face[column * 4].active,
        face[column * 4 + 1].active,
        face[column * 4 + 2].active,
        face[column * 4 + 3].active,
    ]
}

const DARK: [bool; 4] = [false, false, false, false];
const ONE: [bool; 4] = [false, false, false, true];
const TWO: [bool; 4] = [false, false, true, false];
const THREE: [bool; 4] = [false, false, true, true];
const FIVE: [bool; 4] = [false, true, false, true];
const NINE: [bool; 4] = [true, false, false, true];

#[test]
fn five_past_one_lights_its_digits() {
    let face = face_at(13, 5, 9, 46);
    assert_eq!(lit_rows(&face, 0), ONE);
    assert_eq!(lit_rows(&face, 1), THREE);
    assert_eq!(lit_rows(&face, 2), DARK);
    assert_eq!(lit_rows(&face, 3), FIVE);
    assert_eq!(lit_rows(&face, 4), DARK);
    assert_eq!(lit_rows(&face, 5), NINE);
}

#[test]
fn midnight_lights_nothing() {
    let face = face_at(0, 0, 0, 46);
    assert_eq!(face.len(), 24);
    for circle in &face {
        assert!(!circle.active);
    }
}

#[test]
fn the_last_second_lights_its_digits() {
    let face = face_at(23, 59, 59, 46);
    assert_eq!(lit_rows(&face, 0), TWO);
    assert_eq!(lit_rows(&face, 1), THREE);
    assert_eq!(lit_rows(&face, 2), FIVE);
    assert_eq!(lit_rows(&face, 3), NINE);
    assert_eq!(lit_rows(&face, 4), FIVE);
    assert_eq!(lit_rows(&face, 5), NINE);
}

#[test]
fn a_face_has_six_columns_of_four_circles() {
    assert_eq!(ROWS, 4);
    assert_eq!(COLUMNS, 6);
    let face = face_at(12, 34, 56, 100);
    assert_eq!(face.len(), 24);
    for column in 0..6 {
        let x = face[column * 4].center_x;
        for row in 0..4 {
            assert_eq!(face[column * 4 + row].center_x, x);
            assert_eq!(face[column * 4 + row].center_y, face[row].center_y);
        }
    }
}

#[test]
fn eight_radii_fill_the_free_height() {
    assert_eq!(PADDING, 14);
    assert_eq!(SUBUNITS, 8);
    // 46 units less 14 of padding leave 32: a radius of 4 units, 32 eighths.
    for circle in face_at(13, 5, 9, 46) {
        assert_eq!(circle.radius, 32);
    }
    // 45 units leave 31: a radius of 3.875 units, 31 eighths.
    for circle in face_at(13, 5, 9, 45) {
        assert_eq!(circle.radius, 31);
    }
}

#[test]
fn columns_are_centred_an_odd_number_of_radii_from_the_left() {
    let face = face_at(13, 5, 9, 46);
    let centres: Vec<i64> = (0..6).map(|column| face[column * 4].center_x).collect();
    assert_eq!(centres, vec![32, 96, 160, 224, 288, 352]);
    let face = face_at(13, 5, 9, 45);
    for column in 0..6 {
        assert_eq!(face[column * 4].center_x, 31 * (2 * column as i64 + 1));
    }
}

#[test]
fn rows_are_centred_below_half_the_padding() {
    let face = face_at(13, 5, 9, 46);
    // Half the padding is 7 units, 56 eighths; the rows follow 64 eighths apart.
    let centres: Vec<i64> = (0..4).map(|row| face[row].center_y).collect();
    assert_eq!(centres, vec![88, 152, 216, 280]);
    let face = face_at(13, 5, 9, 45);
    let centres: Vec<i64> = (0..4).map(|row| face[row].center_y).collect();
    assert_eq!(centres, vec![87, 149, 211, 273]);
}

#[test]
fn the_top_row_stands_for_eight() {
    let widget = ClockWidget { current_time: SampledTime::midnight() };
    let bounds = Bounds { width: 200, height: 46 };
    let eight = widget.column(0, 8, bounds);
    assert!(eight[0].active && !eight[1].active && !eight[2].active && !eight[3].active);
    assert!(eight[0].center_y < eight[3].center_y);
    let one = widget.column(0, 1, bounds);
    assert!(!one[0].active && !one[1].active && !one[2].active && one[3].active);
}

#[test]
fn a_column_is_four_circles_of_the_face() {
    let time = SampledTime::new(23, 59, 59).unwrap();
    let widget = ClockWidget { current_time: time };
    let bounds = Bounds { width: 200, height: 77 };
    let face = widget.draw(bounds);
    let digits = time.digits();
    for column in 0..6usize {
        let circles = widget.column(column as u8, digits[column], bounds);
        assert_eq!(circles.len(), 4);
        assert_eq!(circles.as_slice(), &face[column * 4..column * 4 + 4]);
    }
}

#[test]
fn one_circle_of_a_column_in_full() {
    let widget = ClockWidget { current_time: SampledTime::midnight() };
    let circles = widget.column(3, 6, Bounds { width: 0, height: 30 });
    assert_eq!(
        circles,
        vec![
            Circle { center_x: 112, center_y: 72, radius: 16, active: false },
            Circle { center_x: 112, center_y: 104, radius: 16, active: true },
            Circle { center_x: 112, center_y: 136, radius: 16, active: true },
            Circle { center_x: 112, center_y: 168, radius: 16, active: false },
        ]
    );
}

#[test]
fn drawing_twice_gives_the_same_circles() {
    let widget = ClockWidget { current_time: SampledTime::new(7, 8, 9).unwrap() };
    let bounds = Bounds { width: 120, height: 64 };
    assert_eq!(widget.draw(bounds), widget.draw(bounds));
    let other = ClockWidget { current_time: SampledTime::new(7, 8, 9).unwrap() };
    assert_eq!(widget.draw(bounds), other.draw(bounds));
}

#[test]
fn the_width_does_not_move_the_circles() {
    let widget = ClockWidget { current_time: SampledTime::new(7, 8, 9).unwrap() };
    assert_eq!(
        widget.draw(Bounds { width: 0, height: 64 }),
        widget.draw(Bounds { width: u32::MAX, height: 64 })
    );
}

#[test]
fn a_height_that_is_all_padding_leaves_points() {
    for circle in face_at(13, 5, 9, 14) {
        assert_eq!(circle.radius, 0);
        assert_eq!(circle.center_x, 0);
        assert_eq!(circle.center_y, 56);
    }
}

#[test]
fn a_height_below_the_padding_gives_a_negative_radius() {
    let face = face_at(13, 5, 9, 6);
    assert_eq!(face[0].radius, -8);
    assert_eq!(face[0].center_x, -8);
    assert_eq!(face[0].center_y, 48);
    assert_eq!(face[23].center_x, -88);
    assert_eq!(face[23].center_y, 0);
    assert!(face[23].active);
    let empty = face_at(13, 5, 9, 0);
    assert_eq!(empty[0].radius, -14);
}

#[test]
fn the_tallest_canvas_is_laid_out() {
    let face = face_at(23, 59, 59, u32::MAX);
    let radius = u32::MAX as i64 - 14;
    assert_eq!(face[0].radius, radius);
    assert_eq!(face[23].center_x, radius * 11);
    assert_eq!(face[23].center_y, 56 + radius * 7);
}

#[test]
fn the_last_column_and_any_number_can_be_drawn() {
    let widget = ClockWidget { current_time: SampledTime::midnight() };
    let circles = widget.column(255, u32::MAX, Bounds { width: 0, height: u32::MAX });
    let radius = u32::MAX as i64 - 14;
    assert_eq!(circles.len(), 4);
    for circle in &circles {
        assert!(circle.active);
        assert_eq!(circle.center_x, radius * 511);
    }
    let even = widget.column(0, 0xffff_fff0, Bounds { width: 0, height: 46 });
    for circle in &even {
        assert!(!circle.active);
    }
}
