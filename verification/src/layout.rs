//! Pane widths and the vertical stacking of headers, content and composer inside a column.
use vstd::prelude::*;
use crate::rect::{
    Rect, RowRange, rect_at, sat_sub_u16, min_u16, max_u16,
};

verus! {

/// Narrowest terminal that is split into a conversation pane and an activity pane.
pub const MIN_SPLIT_WIDTH: u16 = 120;

/// Narrowest conversation pane the split layout accepts.
pub const MIN_CONVERSATION_WIDTH: u16 = 48;

/// Narrowest activity pane the split layout accepts.
pub const MIN_ACTIVITY_WIDTH: u16 = 56;

/// Share of the columns left of the divider that goes to the conversation pane, in percent.
pub const CONVERSATION_PERCENT: u32 = 45;

/// The pane widths of the split layout for a terminal `width` columns wide: the conversation
/// pane takes `CONVERSATION_PERCENT` percent (rounded down) of the columns that remain beside the
/// one-column divider, the activity pane the rest. `None` where the terminal is too narrow.
pub open spec fn split_widths_spec(width: u16) -> Option<(u16, u16)> {
    if width < MIN_SPLIT_WIDTH {
        None
    } else {
        let available = width - 1;
        let conversation = available * CONVERSATION_PERCENT / 100;
        Some((conversation as u16, (available - conversation) as u16))
    }
}

/// Splits a terminal `width` columns wide into a conversation width and an activity width, with
/// one column between them for the divider.
pub fn split_widths(width: u16) -> (r: Option<(u16, u16)>)
    ensures
        r == split_widths_spec(width),
        r is Some <==> width >= MIN_SPLIT_WIDTH,
        r matches Some((conversation, activity)) ==> {
            &&& conversation == (width - 1) * 45 / 100
            &&& conversation + activity + 1 == width
            &&& conversation >= MIN_CONVERSATION_WIDTH
            &&& activity >= MIN_ACTIVITY_WIDTH
        },
{
    let available = match width.checked_sub(1) {
        Some(available) => available,
        None => return None,
    };
    if width < MIN_SPLIT_WIDTH {
        return None;
    }
    let scaled: u32 = (available as u32) * CONVERSATION_PERCENT / 100;
    let conversation = match u16::try_from(scaled) {
        Ok(conversation) => conversation,
        Err(_) => available,
    };
    let activity = available.saturating_sub(conversation);
    if conversation >= MIN_CONVERSATION_WIDTH && activity >= MIN_ACTIVITY_WIDTH {
        Some((conversation, activity))
    } else {
        None
    }
}


/// The width of the column that holds the composer: the conversation pane when the terminal is
/// split, else the whole terminal.
pub open spec fn split_conversation_width_spec(terminal_width: u16) -> u16 {
    match split_widths_spec(terminal_width) {
        Some((conversation, _activity)) => conversation,
        None => terminal_width,
    }
}

/// A terminal of at least `MIN_SPLIT_WIDTH` columns is split; the conversation pane gets 45 % of
/// the columns beside the divider (rounded down), the activity pane the rest; narrower terminals
/// are not split.
pub proof fn lemma_split_widths_values(width: u16)
    ensures
        width < 120 ==> split_widths_spec(width) is None,
        width >= 120 ==> split_widths_spec(width) == Some(
            (((width - 1) * 45 / 100) as u16, (width - 1 - (width - 1) * 45 / 100) as u16),
        ),
        width >= 120 ==> split_conversation_width_spec(width) == (width - 1) * 45 / 100,
        width < 120 ==> split_conversation_width_spec(width) == width,
{
}

/// Width of the conversation column for a terminal `terminal_width` columns wide.
pub fn split_conversation_width(terminal_width: u16) -> (r: u16)
    ensures
        r == split_conversation_width_spec(terminal_width),
        terminal_width >= MIN_SPLIT_WIDTH ==> r == (terminal_width - 1) * 45 / 100,
        terminal_width >= MIN_SPLIT_WIDTH ==> r < terminal_width,
        terminal_width < MIN_SPLIT_WIDTH ==> r == terminal_width,
{
    match split_widths(terminal_width) {
        Some((conversation, _activity)) => conversation,
        None => terminal_width,
    }
}

/// Columns kept free on the right of the composer: none in the split layout, where the
/// reserve applies to the activity pane instead; `ambient_reserve` otherwise.
pub fn composer_right_reserve(terminal_width: u16, ambient_reserve: u16) -> (r: u16)
    ensures
        r == (if terminal_width >= MIN_SPLIT_WIDTH { 0 } else { ambient_reserve }),
{
    if split_widths(terminal_width).is_some() {
        0
    } else {
        ambient_reserve
    }
}

/// The header row, the content and the composer of a column, top to bottom, when the composer
/// would like `composer_desired_height` rows.
pub open spec fn column_with_composer_spec(area: Rect, composer_desired_height: u16) -> (
    Rect,
    Rect,
    Rect,
) {
    let header = rect_at(area.x, area.y, area.width, min_u16(area.height, 1));
    let remaining_height = sat_sub_u16(area.height, header.height);
    let composer_height = min_u16(composer_desired_height, sat_sub_u16(remaining_height, 1));
    let content_height = sat_sub_u16(remaining_height, composer_height);
    let content = rect_at(area.x, header.bottom_spec(), area.width, content_height);
    let composer = rect_at(area.x, content.bottom_spec(), area.width, composer_height);
    (header, content, composer)
}

/// Stacks a one-row header, the content and the composer in `area`. The composer gets the rows
/// it asks for, but never the last row that the header leaves to the content.
pub fn column_with_composer(area: Rect, composer_desired_height: u16) -> (r: (Rect, Rect, Rect))
    ensures
        r == column_with_composer_spec(area, composer_desired_height),
        area.fits() ==> {
            let (header, content, composer) = r;
            &&& header.x == area.x && content.x == area.x && composer.x == area.x
            &&& header.width == area.width && content.width == area.width
            &&& composer.width == area.width
            &&& header.y == area.y
            &&& header.height == min_u16(area.height, 1)
            &&& content.y == header.y + header.height
            &&& composer.y == content.y + content.height
            &&& header.height + content.height + composer.height == area.height
            &&& composer.height == min_u16(composer_desired_height, sat_sub_u16(area.height, 2))
            &&& area.height >= 2 ==> content.height >= 1
        },
{
    let header_height = if area.height < 1 {
        area.height
    } else {
        1
    };
    let header = Rect::new(area.x, area.y, area.width, header_height);
    let remaining_height = area.height.saturating_sub(header.height);
    let composer_limit = remaining_height.saturating_sub(1);
    let composer_height = if composer_desired_height < composer_limit {
        composer_desired_height
    } else {
        composer_limit
    };
    let content_height = remaining_height.saturating_sub(composer_height);
    let content = Rect::new(area.x, header.bottom(), area.width, content_height);
    let composer = Rect::new(area.x, content.bottom(), area.width, composer_height);
    (header, content, composer)
}

/// In a column that fits the coordinate space, the header, the content and the composer are
/// stacked top to bottom without gap or overlap, each as wide as the column, and the composer
/// leaves the content at least one row of a column two or more rows tall.
pub proof fn lemma_column_with_composer_stacks(area: Rect, composer_desired_height: u16)
    requires
        area.fits(),
    ensures
        ({
            let (header, content, composer) = column_with_composer_spec(
                area,
                composer_desired_height,
            );
            &&& header.x == area.x && content.x == area.x && composer.x == area.x
            &&& header.width == area.width && content.width == area.width
            &&& composer.width == area.width
            &&& header.y == area.y
            &&& header.height == (if area.height == 0 { 0int } else { 1 })
            &&& content.y == header.y + header.height
            &&& composer.y == content.y + content.height
            &&& header.height + content.height + composer.height == area.height
            &&& composer.height == (if area.height < 2 {
                0
            } else if composer_desired_height <= area.height - 2 {
                composer_desired_height as int
            } else {
                area.height - 2
            })
            &&& area.height >= 2 ==> content.height >= 1
        }),
{
}

/// In a column that fits the coordinate space, the header sits directly above the content and
/// together they fill the column.
pub proof fn lemma_column_without_composer_stacks(area: Rect)
    requires
        area.fits(),
    ensures
        ({
            let (header, content) = column_without_composer_spec(area);
            &&& header.x == area.x && content.x == area.x
            &&& header.width == area.width && content.width == area.width
            &&& header.y == area.y
            &&& header.height == (if area.height == 0 { 0int } else { 1 })
            &&& content.y == header.y + header.height
            &&& header.height + content.height == area.height
        }),
{
}

/// The header row and the content of a column without a composer.
pub open spec fn column_without_composer_spec(area: Rect) -> (Rect, Rect) {
    let header = rect_at(area.x, area.y, area.width, min_u16(area.height, 1));
    let content = rect_at(
        area.x,
        header.bottom_spec(),
        area.width,
        sat_sub_u16(area.height, header.height),
    );
    (header, content)
}

/// Stacks a one-row header above the content in `area`.
pub fn column_without_composer(area: Rect) -> (r: (Rect, Rect))
    ensures
        r == column_without_composer_spec(area),
        area.fits() ==> {
            let (header, content) = r;
            &&& header.x == area.x && content.x == area.x
            &&& header.width == area.width && content.width == area.width
            &&& header.y == area.y
            &&& header.height == min_u16(area.height, 1)
            &&& content.y == header.y + header.height
            &&& header.height + content.height == area.height
        },
{
    let header_height = if area.height < 1 {
        area.height
    } else {
        1
    };
    let header = Rect::new(area.x, area.y, area.width, header_height);
    let content = Rect::new(
        area.x,
        header.bottom(),
        area.width,
        area.height.saturating_sub(header.height),
    );
    (header, content)
}

/// `area` with `columns` fewer columns on the right, keeping at least one column of a
/// non-empty area and never growing it.
pub open spec fn reserve_right_spec(area: Rect, columns: u16) -> Rect {
    Rect {
        width: min_u16(max_u16(sat_sub_u16(area.width, columns), 1), area.width),
        ..area
    }
}

/// Reserving columns keeps the area's position and height and leaves it `columns` narrower,
/// but never narrower than one column unless it had none, and never wider than it was.
pub proof fn lemma_reserve_right_width(area: Rect, columns: u16)
    ensures
        reserve_right_spec(area, columns).x == area.x,
        reserve_right_spec(area, columns).y == area.y,
        reserve_right_spec(area, columns).height == area.height,
        area.width > columns ==> reserve_right_spec(area, columns).width == area.width - columns,
        area.width <= columns && area.width > 0 ==> reserve_right_spec(area, columns).width == 1,
        area.width == 0 ==> reserve_right_spec(area, columns).width == 0,
{
}

/// Gives up `columns` columns on the right of `area`.
pub fn reserve_right(area: Rect, columns: u16) -> (r: Rect)
    ensures
        r == reserve_right_spec(area, columns),
        r.x == area.x && r.y == area.y && r.height == area.height,
        r.width <= area.width,
        area.width > 0 ==> r.width >= 1,
        area.width >= columns + 1 ==> r.width == area.width - columns,
        area.width <= columns && area.width > 0 ==> r.width == 1,
        area.width == 0 ==> r.width == 0,
{
    let mut area = area;
    let shrunk = area.width.saturating_sub(columns);
    let kept = if shrunk > 1 {
        shrunk
    } else {
        1
    };
    area.width = if kept < area.width {
        kept
    } else {
        area.width
    };
    area
}

/// The columns of the rule that follows a header label: what the label (with its padding,
/// `padded_label_len` bytes) leaves of the header's width; `None` for an empty header, which is
/// not drawn.
pub fn header_rule_width(area: Rect, padded_label_len: usize) -> (r: Option<usize>)
    ensures
        (area.width == 0 || area.height == 0) ==> r is None,
        !(area.width == 0 || area.height == 0) ==> r == Some(
            (if area.width >= padded_label_len { area.width - padded_label_len } else { 0 }) as usize,
        ),
{
    if area.is_empty() {
        return None;
    }
    Some((area.width as usize).saturating_sub(padded_label_len))
}

/// The rows `start..end` of the divider drawn in column `x` beside `area`; `None` when the
/// column lies at or right of `area`'s right edge.
pub open spec fn divider_rows_spec(x: u16, area: Rect) -> Option<RowRange> {
    if x >= area.right_spec() {
        None
    } else {
        Some(RowRange { start: area.y, end: area.bottom_spec() })
    }
}

/// The rows of the divider in column `x` of `area`.
pub fn divider_rows(x: u16, area: Rect) -> (r: Option<RowRange>)
    ensures
        r == divider_rows_spec(x, area),
{
    if x >= area.right() {
        return None;
    }
    Some(RowRange { start: area.y, end: area.bottom() })
}

} // verus!
