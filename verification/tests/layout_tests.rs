use split_pane::layout::{
    column_with_composer, column_without_composer, composer_right_reserve, divider_rows,
    header_rule_width, reserve_right, split_conversation_width, split_widths,
};
use split_pane::rect::{Rect, RowRange};

#[test]
fn split_widths_at_the_threshold() {
    assert_eq!(split_widths(120), Some((53, 66)));
    assert_eq!(split_widths(119), None);
    assert_eq!(split_widths(0), None);
    assert_eq!(split_widths(1), None);
    assert_eq!(split_widths(200), Some((89, 110)));
    assert_eq!(split_widths(u16::MAX), Some((29490, 36044)));
}

#[test]
fn conversation_width_falls_back_to_the_terminal() {
    assert_eq!(split_conversation_width(80), 80);
    assert_eq!(split_conversation_width(120), 53);
}

#[test]
fn composer_reserve_only_without_split() {
    assert_eq!(composer_right_reserve(120, 6), 0);
    assert_eq!(composer_right_reserve(100, 6), 6);
}

#[test]
fn rect_new_clamps_to_the_coordinate_space() {
    let r = Rect::new(u16::MAX - 5, u16::MAX - 2, 10, 10);
    assert_eq!(r.width, 5);
    assert_eq!(r.height, 2);
    assert_eq!(r.right(), u16::MAX);
    assert_eq!(Rect::new(1, 2, 3, 4).bottom(), 6);
    assert!(Rect::new(0, 0, 0, 4).is_empty());
    assert!(!Rect::new(0, 0, 1, 1).is_empty());
}

#[test]
fn column_with_composer_stacks_rows() {
    let (header, content, composer) = column_with_composer(Rect::new(2, 1, 40, 10), 3);
    assert_eq!(header, Rect::new(2, 1, 40, 1));
    assert_eq!(content, Rect::new(2, 2, 40, 6));
    assert_eq!(composer, Rect::new(2, 8, 40, 3));
}

#[test]
fn column_with_composer_keeps_a_content_row() {
    let (header, content, composer) = column_with_composer(Rect::new(0, 0, 10, 3), 9);
    assert_eq!(header.height, 1);
    assert_eq!(content, Rect::new(0, 1, 10, 1));
    assert_eq!(composer, Rect::new(0, 2, 10, 1));
    let (header, content, composer) = column_with_composer(Rect::new(0, 0, 10, 2), 9);
    assert_eq!(header.height, 1);
    assert_eq!(content.height, 1);
    assert_eq!(composer.height, 0);
    let (header, content, composer) = column_with_composer(Rect::new(0, 0, 10, 0), 9);
    assert_eq!(header.height + content.height + composer.height, 0);
}

#[test]
fn column_without_composer_stacks_rows() {
    let (header, content) = column_without_composer(Rect::new(54, 0, 66, 14));
    assert_eq!(header, Rect::new(54, 0, 66, 1));
    assert_eq!(content, Rect::new(54, 1, 66, 13));
}

#[test]
fn reserve_right_keeps_a_column() {
    assert_eq!(reserve_right(Rect::new(0, 0, 10, 5), 4).width, 6);
    assert_eq!(reserve_right(Rect::new(0, 0, 10, 5), 20).width, 1);
    assert_eq!(reserve_right(Rect::new(0, 0, 0, 5), 2).width, 0);
    assert_eq!(reserve_right(Rect::new(3, 4, 10, 5), 0), Rect::new(3, 4, 10, 5));
}

#[test]
fn header_rule_fills_the_rest_of_the_row() {
    assert_eq!(header_rule_width(Rect::new(0, 0, 53, 1), 6), Some(47));
    assert_eq!(header_rule_width(Rect::new(0, 0, 4, 1), 6), Some(0));
    assert_eq!(header_rule_width(Rect::new(0, 0, 53, 0), 6), None);
}

#[test]
fn divider_only_inside_the_area() {
    let area = Rect::new(0, 2, 120, 14);
    assert_eq!(divider_rows(53, area), Some(RowRange { start: 2, end: 16 }));
    assert_eq!(divider_rows(120, area), None);
}
