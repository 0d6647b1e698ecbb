//! Which wrapped row of a pane's text sits at the top of the pane.
use vstd::prelude::*;
use crate::rect::Rect;
use ratatui::text::{Line, Span, Text};
use ratatui::widgets::{Paragraph, Wrap};

verus! {

/// The widest wrap width whose row count is taken: the word wrapper adds the `u16` widths of a
/// pending line, its pending whitespace and word and the next symbol (each symbol no wider than
/// the wrap width), which stays below `u16::MAX` up to a quarter of it.
pub const MAX_WRAP_WIDTH: u16 = 16383;

/// The number of rows that `lines` (each a sequence of spans' text) take when word-wrapped,
/// untrimmed, to `width` columns.
pub uninterp spec fn wrapped_line_count(lines: Seq<Seq<Seq<char>>>, width: u16) -> usize;

/// The character content of each span of each line.
pub open spec fn line_texts(lines: Seq<Vec<String>>) -> Seq<Seq<Seq<char>>> {
    lines.map_values(|line: Vec<String>| line@.map_values(|span: String| span@))
}

/// ratatui's `Paragraph::line_count`, for a paragraph of unstyled lines made of the given spans,
/// wrapped without trimming. Claimed: the count depends on the span texts and the width alone,
/// and is zero for a zero width. How words are broken across rows is not stated. The width is
/// kept to `MAX_WRAP_WIDTH`, where the word wrapper's `u16` sums cannot overflow.
#[verifier::external_body]
fn paragraph_line_count(lines: &Vec<Vec<String>>, width: u16) -> (r: usize)
    requires
        width <= MAX_WRAP_WIDTH,
    ensures
        r == wrapped_line_count(line_texts(lines@), width),
        width == 0 ==> r == 0,
{
    let text: Vec<Line> = lines
        .iter()
        .map(|spans| Line::from(spans.iter().map(|span| Span::raw(span.as_str())).collect::<Vec<_>>()))
        .collect();
    Paragraph::new(Text::from(text)).wrap(Wrap { trim: false }).line_count(width)
}

/// How many rows a text of `line_count` rows can scroll in a pane `height` rows tall.
pub open spec fn max_scroll_spec(line_count: usize, height: u16) -> int {
    if line_count > height {
        line_count - height
    } else {
        0
    }
}

/// The first text row shown in a pane `height` rows tall that is scrolled `from_bottom` rows up
/// from the end of a text of `line_count` rows (never above the first row), clamped to
/// `u16::MAX`.
pub open spec fn tail_scroll_spec(line_count: usize, height: u16, from_bottom: usize) -> u16 {
    let max_scroll = max_scroll_spec(line_count, height);
    let back = if from_bottom < max_scroll {
        from_bottom as int
    } else {
        max_scroll
    };
    let scroll = max_scroll - back;
    if scroll > u16::MAX {
        u16::MAX
    } else {
        scroll as u16
    }
}

/// The first row to show of a text of `line_count` wrapped rows in a pane `height` rows tall,
/// scrolled `from_bottom` rows away from its last row.
pub fn tail_scroll(line_count: usize, height: u16, from_bottom: usize) -> (r: u16)
    ensures
        r == tail_scroll_spec(line_count, height, from_bottom),
        line_count - height - from_bottom <= 0 ==> r == 0,
        0 < line_count - height - from_bottom <= u16::MAX ==> r == line_count - height
            - from_bottom,
        line_count - height - from_bottom > u16::MAX ==> r == u16::MAX,
{
    let max_scroll = line_count.saturating_sub(height as usize);
    let back = if from_bottom < max_scroll {
        from_bottom
    } else {
        max_scroll
    };
    let scroll = max_scroll - back;
    match u16::try_from(scroll) {
        Ok(scroll) => scroll,
        Err(_) => u16::MAX,
    }
}

/// The first wrapped row of `lines` (each given by its spans' text) to show in `area`, scrolled
/// `from_bottom` rows away from the last row; `None` for an empty area, where nothing is drawn.
/// The area is at most `MAX_WRAP_WIDTH` columns wide, as the toolkit's row count needs.
pub fn lines_tail_scroll(lines: &Vec<Vec<String>>, area: Rect, from_bottom: usize) -> (r: Option<
    u16,
>)
    requires
        area.width <= MAX_WRAP_WIDTH,
    ensures
        (area.width == 0 || area.height == 0) ==> r is None,
        !(area.width == 0 || area.height == 0) ==> r == Some(
            tail_scroll_spec(
                wrapped_line_count(line_texts(lines@), area.width),
                area.height,
                from_bottom,
            ),
        ),
{
    if area.is_empty() {
        return None;
    }
    let line_count = paragraph_line_count(lines, area.width);
    Some(tail_scroll(line_count, area.height, from_bottom))
}

/// The first row shown of a text of `line_count` wrapped rows that is pinned to the bottom of a
/// pane `height` rows tall: the rows that do not fit are scrolled off the top.
pub open spec fn overflow_scroll_spec(line_count: usize, height: u16) -> u16 {
    if height == 0 {
        0
    } else {
        tail_scroll_spec(line_count, height, 0)
    }
}

/// The rows of a text of `line_count` wrapped rows that do not fit a pane `height` rows tall,
/// clamped to `u16::MAX`; zero for a pane without rows.
pub fn overflow_scroll(line_count: usize, height: u16) -> (r: u16)
    ensures
        r == overflow_scroll_spec(line_count, height),
        height > 0 && line_count <= height ==> r == 0,
        height > 0 && line_count > height && line_count - height <= u16::MAX ==> r == line_count
            - height,
{
    if height == 0 {
        0
    } else {
        tail_scroll(line_count, height, 0)
    }
}

/// The first row of `lines` to show in `area` when the text is pinned to the bottom. The area
/// is at most `MAX_WRAP_WIDTH` columns wide, as the toolkit's row count needs.
pub fn lines_overflow_scroll(lines: &Vec<Vec<String>>, area: Rect) -> (r: u16)
    requires
        area.width <= MAX_WRAP_WIDTH,
    ensures
        r == overflow_scroll_spec(
            wrapped_line_count(line_texts(lines@), area.width),
            area.height,
        ),
{
    let line_count = paragraph_line_count(lines, area.width);
    overflow_scroll(line_count, area.height)
}

/// The first row shown is the text's row count less the pane's height and the rows scrolled up,
/// never less than zero and never more than `u16::MAX`; a pane pinned to the bottom shows from
/// the row count less its height, and a pane without rows from row zero.
pub proof fn lemma_scroll_values(line_count: usize, height: u16, from_bottom: usize)
    ensures
        tail_scroll_spec(line_count, height, from_bottom) == (if line_count - height - from_bottom
            <= 0 {
            0
        } else if line_count - height - from_bottom > u16::MAX {
            u16::MAX as int
        } else {
            line_count - height - from_bottom
        }),
        overflow_scroll_spec(line_count, height) == (if height == 0 || line_count <= height {
            0
        } else if line_count - height > u16::MAX {
            u16::MAX as int
        } else {
            line_count - height
        }),
{
}

/// Scrolling to the newest line shows the last rows of the text: the pane starts at the row
/// after which exactly `height` rows remain, or at the first row when the text fits.
pub proof fn lemma_tail_shows_newest_rows(line_count: usize, height: u16)
    requires
        max_scroll_spec(line_count, height) <= u16::MAX,
    ensures
        tail_scroll_spec(line_count, height, 0) == max_scroll_spec(line_count, height),
        line_count <= height ==> tail_scroll_spec(line_count, height, 0) == 0,
        line_count > height ==> tail_scroll_spec(line_count, height, 0) + height == line_count,
{
}

/// Scrolling `from_bottom` rows up moves the first shown row exactly that far from the tail
/// position, stopping at the first row of the text.
pub proof fn lemma_scroll_moves_away_from_tail(line_count: usize, height: u16, from_bottom: usize)
    requires
        max_scroll_spec(line_count, height) <= u16::MAX,
    ensures
        from_bottom <= max_scroll_spec(line_count, height) ==> tail_scroll_spec(
            line_count,
            height,
            from_bottom,
        ) + from_bottom == tail_scroll_spec(line_count, height, 0),
        from_bottom >= max_scroll_spec(line_count, height) ==> tail_scroll_spec(
            line_count,
            height,
            from_bottom,
        ) == 0,
{
}

/// Scrolling further up never shows a later row at the top of the pane.
pub proof fn lemma_tail_scroll_monotonic(
    line_count: usize,
    height: u16,
    nearer: usize,
    farther: usize,
)
    requires
        nearer <= farther,
    ensures
        tail_scroll_spec(line_count, height, farther) <= tail_scroll_spec(
            line_count,
            height,
            nearer,
        ),
{
}

} // verus!
