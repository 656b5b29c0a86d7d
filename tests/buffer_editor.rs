use myedit::text::{
    checked_char_range, checked_ropey_index, get_char_range_from_points,
    get_ropey_index_from_point,
};
use myedit::types::Point;
use ropey::Rope;

#[test]
fn test_first_line_get_ropey_index_from_point() {
    let rope = Rope::from_str(
        "test someting with \
            lots of test data",
    );
    let point = Point { x: 5, y: 0 };
    assert_eq!(get_ropey_index_from_point(&point, &rope), 4);
}

#[test]
fn test_second_line_get_ropey_index_from_point() {
    let rope = Rope::from_str("test someting with \nlots of test data");
    let point = Point { x: 5, y: 1 };
    assert_eq!(get_ropey_index_from_point(&point, &rope), 24);
}

#[test]
fn test_get_char_range_from_points() {
    let rope = Rope::from_str("test someting with \nlots of test data");
    let start_point = Point { x: 5, y: 0 };
    let end_point = Point { x: 5, y: 1 };
    assert_eq!(get_char_range_from_points(&start_point, &end_point, &rope), 4..=24);
}

#[test]
fn char_range_is_ordered_either_way() {
    let rope = Rope::from_str("test someting with \nlots of test data");
    let start_point = Point { x: 5, y: 1 };
    let end_point = Point { x: 5, y: 0 };
    assert_eq!(get_char_range_from_points(&start_point, &end_point, &rope), 4..=24);
}

#[test]
fn checked_index_refuses_column_zero_and_lines_past_the_end() {
    let rope = Rope::from_str("ab\ncd");
    assert_eq!(checked_ropey_index(&Point { x: 0, y: 0 }, &rope), None);
    assert_eq!(checked_ropey_index(&Point { x: 1, y: 3 }, &rope), None);
    assert_eq!(checked_ropey_index(&Point { x: 2, y: 1 }, &rope), Some(4));
    assert_eq!(checked_ropey_index(&Point { x: 1, y: 2 }, &rope), Some(5));
}

#[test]
fn checked_range_needs_both_points() {
    let rope = Rope::from_str("ab\ncd");
    assert_eq!(
        checked_char_range(&Point { x: 1, y: 0 }, &Point { x: 0, y: 1 }, &rope),
        None
    );
    assert_eq!(
        checked_char_range(&Point { x: 2, y: 1 }, &Point { x: 1, y: 0 }, &rope),
        Some(0..=4)
    );
}
