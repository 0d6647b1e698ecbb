use split_pane::rect::Rect;
use split_pane::viewport::{
    lines_overflow_scroll, lines_tail_scroll, overflow_scroll, tail_scroll, MAX_WRAP_WIDTH,
};

fn visible(lines: &[Vec<String>], scroll: u16, height: u16) -> String {
    lines
        .iter()
        .skip(usize::from(scroll))
        .take(usize::from(height))
        .map(|spans| spans.concat())
        .collect::<Vec<_>>()
        .join("\n")
}

fn plain(text: &str) -> Vec<String> {
    vec![String::from(text)]
}

#[test]
fn scroll_offset_moves_viewport_away_from_tail() {
    let area = Rect::new(0, 0, 12, 3);
    let lines = ["line 0", "line 1", "line 2", "line 3", "line 4", "line 5"]
        .into_iter()
        .map(plain)
        .collect::<Vec<_>>();
    let tail = lines_tail_scroll(&lines, area, 0).expect("area is not empty");
    let scrolled = lines_tail_scroll(&lines, area, 2).expect("area is not empty");

    assert_eq!(visible(&lines, tail, area.height), "line 3\nline 4\nline 5");
    assert_eq!(visible(&lines, scrolled, area.height), "line 1\nline 2\nline 3");
}

#[test]
fn empty_area_draws_nothing() {
    let lines = vec![plain("a")];
    assert_eq!(lines_tail_scroll(&lines, Rect::new(0, 0, 0, 3), 0), None);
    assert_eq!(lines_tail_scroll(&lines, Rect::new(0, 0, 5, 0), 0), None);
}

#[test]
fn tail_scroll_stops_at_the_first_row() {
    assert_eq!(tail_scroll(6, 3, 0), 3);
    assert_eq!(tail_scroll(6, 3, 2), 1);
    assert_eq!(tail_scroll(6, 3, 3), 0);
    assert_eq!(tail_scroll(6, 3, 100), 0);
    assert_eq!(tail_scroll(2, 3, 0), 0);
    assert_eq!(tail_scroll(usize::MAX, 0, 0), u16::MAX);
    assert_eq!(tail_scroll(70_000, 10, 0), u16::MAX);
    assert_eq!(tail_scroll(70_000, 10, 10_000), 59_990);
}

#[test]
fn wrapped_lines_count_rows_not_lines() {
    let lines = vec![plain("aaaa bbbb cccc")];
    assert_eq!(lines_tail_scroll(&lines, Rect::new(0, 0, 5, 1), 0), Some(2));
    assert_eq!(lines_tail_scroll(&lines, Rect::new(0, 0, 20, 1), 0), Some(0));
    assert_eq!(lines_overflow_scroll(&lines, Rect::new(0, 0, 5, 1)), 2);
    assert_eq!(lines_overflow_scroll(&lines, Rect::new(0, 0, 5, 0)), 0);
}

#[test]
fn overflow_scroll_pins_text_to_the_bottom() {
    assert_eq!(overflow_scroll(10, 0), 0);
    assert_eq!(overflow_scroll(10, 4), 6);
    assert_eq!(overflow_scroll(3, 4), 0);
}

#[test]
fn spans_wrap_like_their_joined_text() {
    let lines = vec![vec![String::from("aaaa "), String::from("bbbb cc"), String::from("cc")]];
    assert_eq!(lines_tail_scroll(&lines, Rect::new(0, 0, 5, 1), 0), Some(2));
    assert_eq!(lines_tail_scroll(&lines, Rect::new(0, 0, 5, 3), 1), Some(0));
}

#[test]
fn widest_wrap_width_is_accepted() {
    let lines = vec![plain("a b c")];
    assert_eq!(lines_tail_scroll(&lines, Rect::new(0, 0, MAX_WRAP_WIDTH, 1), 0), Some(0));
}
