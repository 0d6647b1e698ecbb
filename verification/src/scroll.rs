//! Per-pane scroll offsets and the routing of mouse-wheel input to the pane under the pointer.
use vstd::prelude::*;
use crate::layout::{split_widths, split_widths_spec};

verus! {

/// Rows scrolled by one wheel notch.
pub const SCROLL_ROWS_PER_EVENT: usize = 3;

/// The part of the screen a transcript is shown in.
#[derive(Clone, Copy, Debug, PartialEq, Eq, Structural)]
pub enum SplitPaneRegion {
    /// The left pane of the split layout.
    Conversation,
    /// The right pane of the split layout.
    Activity,
    /// The single column of the narrow layout.
    Combined,
}

/// How far each pane is scrolled up from the newest line, in rows.
#[derive(Clone, Copy, Debug, PartialEq, Eq, Structural)]
pub struct SplitPaneScrollState {
    conversation_from_bottom: usize,
    activity_from_bottom: usize,
    combined_from_bottom: usize,
}

/// What a mouse event is, as far as pane scrolling is concerned.
#[derive(Clone, Copy, Debug, PartialEq, Eq, Structural)]
pub enum MouseEventKind {
    /// The wheel moved away from the user.
    ScrollUp,
    /// The wheel moved towards the user.
    ScrollDown,
    /// Any other pointer event: a button, a drag, a move or a sideways scroll.
    Other,
}

/// A mouse event at a terminal cell.
#[derive(Clone, Copy, Debug, PartialEq, Eq, Structural)]
pub struct MouseEvent {
    pub kind: MouseEventKind,
    pub column: u16,
    pub row: u16,
}

/// The pane under column `column` of a terminal `width` columns wide.
pub open spec fn region_at_spec(width: u16, column: u16) -> SplitPaneRegion {
    match split_widths_spec(width) {
        Some((conversation_width, _activity_width)) => if column < conversation_width {
            SplitPaneRegion::Conversation
        } else {
            SplitPaneRegion::Activity
        },
        None => SplitPaneRegion::Combined,
    }
}

/// `a + b`, saturating at `usize::MAX`.
pub open spec fn sat_add_usize(a: usize, b: usize) -> usize {
    if a + b > usize::MAX {
        usize::MAX
    } else {
        (a + b) as usize
    }
}

/// `a - b`, saturating at zero.
pub open spec fn sat_sub_usize(a: usize, b: usize) -> usize {
    if a < b {
        0
    } else {
        (a - b) as usize
    }
}

impl SplitPaneScrollState {
    /// How far `region` is scrolled up from its newest line.
    pub closed spec fn from_bottom(self, region: SplitPaneRegion) -> usize {
        match region {
            SplitPaneRegion::Conversation => self.conversation_from_bottom,
            SplitPaneRegion::Activity => self.activity_from_bottom,
            SplitPaneRegion::Combined => self.combined_from_bottom,
        }
    }

    /// This state with the offset of `region` replaced by `value`.
    pub closed spec fn with_offset(self, region: SplitPaneRegion, value: usize) -> Self {
        match region {
            SplitPaneRegion::Conversation => SplitPaneScrollState {
                conversation_from_bottom: value,
                ..self
            },
            SplitPaneRegion::Activity => SplitPaneScrollState { activity_from_bottom: value, ..self },
            SplitPaneRegion::Combined => SplitPaneScrollState { combined_from_bottom: value, ..self },
        }
    }

    /// Replacing one offset sets that offset and keeps the others.
    pub proof fn lemma_with_offset(self, region: SplitPaneRegion, value: usize)
        ensures
            self.with_offset(region, value).from_bottom(region) == value,
            forall|other: SplitPaneRegion|
                other != region ==> #[trigger] self.with_offset(region, value).from_bottom(other)
                    == self.from_bottom(other),
    {
    }

    /// Two states with the same offset in every pane are the same state.
    pub proof fn lemma_eq_by_offsets(self, other: Self)
        requires
            forall|region: SplitPaneRegion| #[trigger] self.from_bottom(region) == other.from_bottom(
                region,
            ),
        ensures
            self == other,
    {
        assert(self.from_bottom(SplitPaneRegion::Conversation) == other.from_bottom(
            SplitPaneRegion::Conversation,
        ));
        assert(self.from_bottom(SplitPaneRegion::Activity) == other.from_bottom(
            SplitPaneRegion::Activity,
        ));
        assert(self.from_bottom(SplitPaneRegion::Combined) == other.from_bottom(
            SplitPaneRegion::Combined,
        ));
    }

    /// Every pane shows its newest lines.
    pub fn new() -> (r: SplitPaneScrollState)
        ensures
            forall|region: SplitPaneRegion| #[trigger] r.from_bottom(region) == 0,
    {
        SplitPaneScrollState {
            conversation_from_bottom: 0,
            activity_from_bottom: 0,
            combined_from_bottom: 0,
        }
    }

    /// The scroll offset of `region`.
    pub fn offset(self, region: SplitPaneRegion) -> (r: usize)
        ensures
            r == self.from_bottom(region),
    {
        match region {
            SplitPaneRegion::Conversation => self.conversation_from_bottom,
            SplitPaneRegion::Activity => self.activity_from_bottom,
            SplitPaneRegion::Combined => self.combined_from_bottom,
        }
    }

    /// A mutable borrow of the scroll offset of `region`; the other offsets stay as they were.
    pub fn offset_mut(&mut self, region: SplitPaneRegion) -> (r: &mut usize)
        ensures
            *r == old(self).from_bottom(region),
            final(self).from_bottom(region) == *final(r),
            forall|other: SplitPaneRegion|
                other != region ==> #[trigger] final(self).from_bottom(other) == old(self).from_bottom(
                    other,
                ),
    {
        match region {
            SplitPaneRegion::Conversation => &mut self.conversation_from_bottom,
            SplitPaneRegion::Activity => &mut self.activity_from_bottom,
            SplitPaneRegion::Combined => &mut self.combined_from_bottom,
        }
    }
}

impl Default for SplitPaneScrollState {
    fn default() -> (r: SplitPaneScrollState)
        ensures
            forall|region: SplitPaneRegion| #[trigger] r.from_bottom(region) == 0,
    {
        SplitPaneScrollState::new()
    }
}

/// The pane under `column` on a terminal `width` columns wide: left of the conversation width it
/// is the conversation pane, from there on (divider included) the activity pane, and on a
/// terminal too narrow to split, the combined column.
pub fn split_region_at(width: u16, column: u16) -> (r: SplitPaneRegion)
    ensures
        r == region_at_spec(width, column),
        width < 120 ==> r == SplitPaneRegion::Combined,
        width >= 120 && column < (width - 1) * 45 / 100 ==> r == SplitPaneRegion::Conversation,
        width >= 120 && column >= (width - 1) * 45 / 100 ==> r == SplitPaneRegion::Activity,
{
    match split_widths(width) {
        Some((conversation_width, _activity_width)) => {
            if column < conversation_width {
                SplitPaneRegion::Conversation
            } else {
                SplitPaneRegion::Activity
            }
        },
        None => SplitPaneRegion::Combined,
    }
}

/// The scroll state after `event` on a terminal `width` columns wide.
pub open spec fn mouse_scroll_spec(
    state: SplitPaneScrollState,
    width: u16,
    event: MouseEvent,
) -> SplitPaneScrollState {
    let region = region_at_spec(width, event.column);
    match event.kind {
        MouseEventKind::ScrollUp => state.with_offset(
            region,
            sat_add_usize(state.from_bottom(region), SCROLL_ROWS_PER_EVENT),
        ),
        MouseEventKind::ScrollDown => state.with_offset(
            region,
            sat_sub_usize(state.from_bottom(region), SCROLL_ROWS_PER_EVENT),
        ),
        MouseEventKind::Other => state,
    }
}

/// The pane under the pointer: on a terminal of at least 120 columns, the conversation pane left
/// of column `(width - 1) * 45 / 100` and the activity pane from there on; the combined column on
/// a narrower terminal.
pub proof fn lemma_region_at(width: u16, column: u16)
    ensures
        width < 120 ==> region_at_spec(width, column) == SplitPaneRegion::Combined,
        width >= 120 && column < (width - 1) * 45 / 100 ==> region_at_spec(width, column)
            == SplitPaneRegion::Conversation,
        width >= 120 && column >= (width - 1) * 45 / 100 ==> region_at_spec(width, column)
            == SplitPaneRegion::Activity,
{
}

/// A wheel notch changes only the offset of the pane under the pointer: up adds three rows
/// (stopping at `usize::MAX`), down takes three away (stopping at zero); any other event changes
/// nothing.
pub proof fn lemma_mouse_scroll_offsets(
    state: SplitPaneScrollState,
    width: u16,
    event: MouseEvent,
    region: SplitPaneRegion,
)
    ensures
        ({
            let before = state.from_bottom(region);
            let after = mouse_scroll_spec(state, width, event).from_bottom(region);
            if region != region_at_spec(width, event.column) || event.kind == MouseEventKind::Other {
                after == before
            } else if event.kind == MouseEventKind::ScrollUp {
                after == (if before + 3 > usize::MAX {
                    usize::MAX as int
                } else {
                    before + 3
                })
            } else {
                after == (if before < 3 {
                    0
                } else {
                    before - 3
                })
            }
        }),
{
    let target = region_at_spec(width, event.column);
    state.lemma_with_offset(target, sat_add_usize(state.from_bottom(target), SCROLL_ROWS_PER_EVENT));
    state.lemma_with_offset(target, sat_sub_usize(state.from_bottom(target), SCROLL_ROWS_PER_EVENT));
}

/// Scrolls the pane under the pointer by one wheel notch: up moves the view
/// `SCROLL_ROWS_PER_EVENT` rows away from the newest line, down moves it back (never past it).
/// Returns whether the event was a vertical wheel event; other events change nothing.
pub fn apply_mouse_scroll(
    state: &mut SplitPaneScrollState,
    terminal_width: u16,
    event: MouseEvent,
) -> (handled: bool)
    ensures
        handled == (event.kind is ScrollUp || event.kind is ScrollDown),
        *final(state) == mouse_scroll_spec(*old(state), terminal_width, event),
        !handled ==> *final(state) == *old(state),
        handled ==> {
            let region = region_at_spec(terminal_width, event.column);
            &&& event.kind is ScrollUp ==> final(state).from_bottom(region) == sat_add_usize(
                old(state).from_bottom(region),
                SCROLL_ROWS_PER_EVENT,
            )
            &&& event.kind is ScrollDown ==> final(state).from_bottom(region) == sat_sub_usize(
                old(state).from_bottom(region),
                SCROLL_ROWS_PER_EVENT,
            )
            &&& forall|other: SplitPaneRegion|
                other != region ==> #[trigger] final(state).from_bottom(other) == old(
                    state,
                ).from_bottom(other)
        },
{
    let scroll_up = match event.kind {
        MouseEventKind::ScrollUp => true,
        MouseEventKind::ScrollDown => false,
        MouseEventKind::Other => return false,
    };
    let ghost before = *state;
    let region = split_region_at(terminal_width, event.column);
    let offset = state.offset_mut(region);
    if scroll_up {
        *offset = offset.saturating_add(SCROLL_ROWS_PER_EVENT);
    } else {
        *offset = offset.saturating_sub(SCROLL_ROWS_PER_EVENT);
    }
    proof {
        let expected = mouse_scroll_spec(before, terminal_width, event);
        before.lemma_with_offset(region, expected.from_bottom(region));
        state.lemma_eq_by_offsets(expected);
    }
    true
}

/// One notch up and one notch down at the same column leave every pane where it was, unless
/// the first notch saturated.
pub proof fn lemma_scroll_up_then_down_restores(
    state: SplitPaneScrollState,
    width: u16,
    column: u16,
    row: u16,
)
    requires
        state.from_bottom(region_at_spec(width, column)) + SCROLL_ROWS_PER_EVENT <= usize::MAX,
    ensures
        mouse_scroll_spec(
            mouse_scroll_spec(
                state,
                width,
                (MouseEvent { kind: MouseEventKind::ScrollUp, column, row }),
            ),
            width,
            (MouseEvent { kind: MouseEventKind::ScrollDown, column, row }),
        ) == state,
{
    let region = region_at_spec(width, column);
    let up = state.with_offset(region, sat_add_usize(state.from_bottom(region), SCROLL_ROWS_PER_EVENT));
    state.lemma_with_offset(region, sat_add_usize(state.from_bottom(region), SCROLL_ROWS_PER_EVENT));
    let down = up.with_offset(region, sat_sub_usize(up.from_bottom(region), SCROLL_ROWS_PER_EVENT));
    up.lemma_with_offset(region, sat_sub_usize(up.from_bottom(region), SCROLL_ROWS_PER_EVENT));
    assert(down == state);
}

/// One notch down and one notch up at the same column leave every pane where it was, unless
/// the pane was closer than one notch to its newest line.
pub proof fn lemma_scroll_down_then_up_restores(
    state: SplitPaneScrollState,
    width: u16,
    column: u16,
    row: u16,
)
    requires
        state.from_bottom(region_at_spec(width, column)) >= SCROLL_ROWS_PER_EVENT,
    ensures
        mouse_scroll_spec(
            mouse_scroll_spec(
                state,
                width,
                (MouseEvent { kind: MouseEventKind::ScrollDown, column, row }),
            ),
            width,
            (MouseEvent { kind: MouseEventKind::ScrollUp, column, row }),
        ) == state,
{
    let region = region_at_spec(width, column);
    let down = state.with_offset(region, sat_sub_usize(state.from_bottom(region), SCROLL_ROWS_PER_EVENT));
    state.lemma_with_offset(region, sat_sub_usize(state.from_bottom(region), SCROLL_ROWS_PER_EVENT));
    let up = down.with_offset(region, sat_add_usize(down.from_bottom(region), SCROLL_ROWS_PER_EVENT));
    down.lemma_with_offset(region, sat_add_usize(down.from_bottom(region), SCROLL_ROWS_PER_EVENT));
    assert(up == state);
}

} // verus!
