//! The live part of the traditional transcript: which transient cells are shown, in which
//! order, and how each is inset in its area.
use vstd::prelude::*;
use crate::rect::{Rect, rect_at, sat_add_u16, sat_sub_u16, max_u16};

verus! {

/// An area that draws a history cell below `top` blank rows and left of `right` reserved
/// columns, with its text pinned to the bottom.
#[derive(Clone, Copy, Debug, PartialEq, Eq, Structural)]
pub struct TranscriptAreaRenderable {
    pub top: u16,
    pub right: u16,
}

impl TranscriptAreaRenderable {
    /// The width the cell is laid out at in an area `width` columns wide: the columns left of the
    /// reserve, but at least one.
    pub open spec fn child_width_spec(self, width: u16) -> u16 {
        max_u16(sat_sub_u16(width, self.right), 1)
    }

    /// The part of `area` the cell is drawn in.
    pub open spec fn child_area_spec(self, area: Rect) -> Rect {
        rect_at(
            area.x,
            sat_add_u16(area.y, self.top),
            self.child_width_spec(area.width),
            sat_sub_u16(area.height, self.top),
        )
    }

    /// The cell is laid out `right` columns narrower than its area, but at least one column
    /// wide; it is placed `top` rows down, at the area's left edge, with the rows that remain.
    pub proof fn lemma_child_geometry(self, area: Rect)
        ensures
            area.width > self.right ==> self.child_width_spec(area.width) == area.width - self.right,
            area.width <= self.right ==> self.child_width_spec(area.width) == 1,
            self.child_area_spec(area).x == area.x,
            area.x + (if area.width > self.right { area.width - self.right } else { 1 })
                <= u16::MAX ==> self.child_area_spec(area).width == (if area.width > self.right {
                area.width - self.right
            } else {
                1
            }),
            area.fits() && area.height >= self.top ==> self.child_area_spec(area).y == area.y
                + self.top && self.child_area_spec(area).height == area.height - self.top,
            area.height <= self.top ==> self.child_area_spec(area).height == 0,
    {
    }

    /// The width the cell is laid out at in an area `width` columns wide.
    pub fn child_width(&self, width: u16) -> (r: u16)
        ensures
            r == self.child_width_spec(width),
            width > self.right ==> r == width - self.right,
            width <= self.right ==> r == 1,
            r >= 1,
            r <= width || width == 0,
    {
        let shrunk = width.saturating_sub(self.right);
        if shrunk > 1 {
            shrunk
        } else {
            1
        }
    }

    /// The part of `area` below the top inset and left of the reserved columns.
    pub fn child_area(&self, area: Rect) -> (r: Rect)
        ensures
            r == self.child_area_spec(area),
            r.x == area.x,
            area.fits() && area.height >= self.top ==> r.y == area.y + self.top && r.y + r.height
                == area.y + area.height,
            area.height <= self.top ==> r.height == 0,
    {
        let y = area.y.saturating_add(self.top);
        let height = area.height.saturating_sub(self.top);
        Rect::new(area.x, y, self.child_width(area.width), height)
    }

    /// The rows the area asks for: the cell's own desired height (`child_height`, asked at
    /// [`TranscriptAreaRenderable::child_width`]) plus the top inset.
    pub fn desired_height(&self, child_height: u16) -> (r: u16)
        requires
            child_height + self.top <= u16::MAX,
        ensures
            r == child_height + self.top,
    {
        child_height + self.top
    }
}

/// The width at which the chat widget was last drawn.
#[derive(Clone, Copy, Debug, PartialEq, Eq, Structural)]
pub struct RenderedWidth {
    width: Option<usize>,
}

impl View for RenderedWidth {
    type V = Option<u16>;

    /// The last noted width, if one was noted.
    closed spec fn view(&self) -> Option<u16> {
        match self.width {
            Some(width) => if width <= u16::MAX {
                Some(width as u16)
            } else {
                None
            },
            None => None,
        }
    }
}

impl RenderedWidth {
    /// No width noted yet.
    pub fn new() -> (r: RenderedWidth)
        ensures
            r@ == None::<u16>,
    {
        RenderedWidth { width: None }
    }

    /// Notes that the widget was drawn `width` columns wide.
    pub fn note_rendered_width(&mut self, width: u16)
        ensures
            final(self)@ == Some(width),
    {
        self.width = Some(width as usize);
    }

    /// The width the widget was last drawn at, if it was drawn.
    pub fn last_rendered_width(&self) -> (r: Option<u16>)
        ensures
            r == self@,
    {
        match self.width {
            Some(width) => match u16::try_from(width) {
                Ok(width) => Some(width),
                Err(_) => None,
            },
            None => None,
        }
    }
}

/// A transient history cell that may be shown below the committed transcript.
#[derive(Clone, Copy, Debug, PartialEq, Eq, Structural)]
pub enum LiveCell {
    /// The cell that is still being streamed.
    Active,
    /// The cell of a running hook.
    Hook,
    /// Token activity that has not been committed yet.
    TokenActivity,
    /// The hint about when a rate limit resets.
    RateLimitHint,
}

/// `seq![cell]` when `present`, else nothing.
pub open spec fn optional_cell(present: bool, cell: LiveCell) -> Seq<LiveCell> {
    if present {
        seq![cell]
    } else {
        Seq::empty()
    }
}

/// Whether a hook cell exists and asks to be drawn (`hook` is `None` without a hook cell, else
/// whether it should render).
pub open spec fn hook_visible(hook: Option<bool>) -> bool {
    hook == Some(true)
}

/// The transient cells in the order the traditional viewport shows them.
pub open spec fn live_history_cells_spec(
    has_active: bool,
    hook: Option<bool>,
    has_token_activity: bool,
    has_rate_limit_hint: bool,
) -> Seq<LiveCell> {
    optional_cell(has_active, LiveCell::Active) + optional_cell(hook_visible(hook), LiveCell::Hook)
        + optional_cell(has_token_activity, LiveCell::TokenActivity) + optional_cell(
        has_rate_limit_hint,
        LiveCell::RateLimitHint,
    )
}

/// The place of a transient cell in the traditional viewport's order.
pub open spec fn viewport_rank(cell: LiveCell) -> int {
    match cell {
        LiveCell::Active => 0,
        LiveCell::Hook => 1,
        LiveCell::TokenActivity => 2,
        LiveCell::RateLimitHint => 3,
    }
}

/// The live cells are exactly those whose own flag holds: the active cell when there is one,
/// the hook cell when there is one that should render, the token activity and the rate-limit
/// hint when present. Each appears at most once, in the order active, hook, token activity,
/// rate-limit hint.
pub proof fn lemma_live_cells_follow_flags(
    has_active: bool,
    hook: Option<bool>,
    has_token_activity: bool,
    has_rate_limit_hint: bool,
)
    ensures
        ({
            let cells = live_history_cells_spec(
                has_active,
                hook,
                has_token_activity,
                has_rate_limit_hint,
            );
            &&& cells.contains(LiveCell::Active) == has_active
            &&& cells.contains(LiveCell::Hook) == (hook == Some(true))
            &&& cells.contains(LiveCell::TokenActivity) == has_token_activity
            &&& cells.contains(LiveCell::RateLimitHint) == has_rate_limit_hint
            &&& cells.len() == (if has_active { 1int } else { 0 }) + (if hook == Some(true) {
                1int
            } else {
                0
            }) + (if has_token_activity { 1int } else { 0 }) + (if has_rate_limit_hint {
                1int
            } else {
                0
            })
            &&& forall|i: int, j: int|
                0 <= i < j < cells.len() ==> viewport_rank(#[trigger] cells[i]) < viewport_rank(
                    #[trigger] cells[j],
                )
        }),
{
    let a = optional_cell(has_active, LiveCell::Active);
    let h = optional_cell(hook_visible(hook), LiveCell::Hook);
    let t = optional_cell(has_token_activity, LiveCell::TokenActivity);
    let r = optional_cell(has_rate_limit_hint, LiveCell::RateLimitHint);
    let cells = a + h + t + r;
    assert(cells == live_history_cells_spec(has_active, hook, has_token_activity, has_rate_limit_hint));
    assert forall|i: int| 0 <= i < cells.len() implies {
        &&& viewport_rank(#[trigger] cells[i]) >= (if i < a.len() { 0int } else if i < a.len() + h.len() {
            1
        } else if i < a.len() + h.len() + t.len() {
            2
        } else {
            3
        })
        &&& viewport_rank(cells[i]) <= (if i < a.len() { 0int } else if i < a.len() + h.len() {
            1
        } else if i < a.len() + h.len() + t.len() {
            2
        } else {
            3
        })
    } by {
        if i < a.len() {
            assert(cells[i] == a[i]);
        } else if i < a.len() + h.len() {
            assert(cells[i] == h[i - a.len()]);
        } else if i < a.len() + h.len() + t.len() {
            assert(cells[i] == t[i - a.len() - h.len()]);
        } else {
            assert(cells[i] == r[i - a.len() - h.len() - t.len()]);
        }
    }
    assert(has_active ==> cells[0] == LiveCell::Active);
    assert(hook == Some(true) ==> cells[a.len() as int] == LiveCell::Hook);
    assert(has_token_activity ==> cells[(a.len() + h.len()) as int] == LiveCell::TokenActivity);
    assert(has_rate_limit_hint ==> cells[(a.len() + h.len() + t.len()) as int] == LiveCell::RateLimitHint);
}

/// The transient history cells to show, in the order of the traditional shared viewport: the
/// active cell, a hook cell that should render, pending token activity, and the rate-limit hint.
pub fn live_history_cells(
    has_active: bool,
    hook: Option<bool>,
    has_token_activity: bool,
    has_rate_limit_hint: bool,
) -> (r: Vec<LiveCell>)
    ensures
        r@ == live_history_cells_spec(has_active, hook, has_token_activity, has_rate_limit_hint),
{
    let mut cells: Vec<LiveCell> = Vec::new();
    if has_active {
        cells.push(LiveCell::Active);
    }
    let hook_should_render = match hook {
        Some(should_render) => should_render,
        None => false,
    };
    if hook_should_render {
        cells.push(LiveCell::Hook);
    }
    if has_token_activity {
        cells.push(LiveCell::TokenActivity);
    }
    if has_rate_limit_hint {
        cells.push(LiveCell::RateLimitHint);
    }
    proof {
        assert(cells@ =~= live_history_cells_spec(
            has_active,
            hook,
            has_token_activity,
            has_rate_limit_hint,
        ));
    }
    cells
}

/// What one slot of the chat widget's vertical flex layout draws.
#[derive(Clone, Copy, Debug, PartialEq, Eq, Structural)]
pub enum FlexChild {
    /// A transient cell in a transcript area.
    Cell { cell: LiveCell, area: TranscriptAreaRenderable },
    /// Nothing; the slot keeps its place in the layout.
    Nothing,
    /// The bottom pane (composer and status), with columns kept free on the right of the
    /// composer and blank rows above.
    BottomPane { composer_right_reserve: u16, inset_top: u16 },
}

/// One slot of the flex layout: its share of the leftover rows (`0`: only its desired height)
/// and what it draws.
#[derive(Clone, Copy, Debug, PartialEq, Eq, Structural)]
pub struct FlexItem {
    pub flex: u16,
    pub child: FlexChild,
}

/// The transcript area every transient cell is drawn in.
pub open spec fn cell_area(right_reserve: u16) -> TranscriptAreaRenderable {
    TranscriptAreaRenderable { top: 1, right: right_reserve }
}

/// The slot of a cell that is shown when `present`, or an empty slot.
pub open spec fn cell_or_nothing(present: bool, cell: LiveCell, right_reserve: u16) -> FlexItem {
    FlexItem {
        flex: 0,
        child: if present {
            FlexChild::Cell { cell, area: cell_area(right_reserve) }
        } else {
            FlexChild::Nothing
        },
    }
}

/// The slot of a cell that is present only when `present`.
pub open spec fn optional_slot(present: bool, cell: LiveCell, right_reserve: u16) -> Seq<FlexItem> {
    if present {
        seq![FlexItem { flex: 1, child: FlexChild::Cell { cell, area: cell_area(right_reserve) } }]
    } else {
        Seq::empty()
    }
}

/// The flex layout of the chat widget: the active cell (or an empty stretching slot), the hook
/// cell (or an empty slot), pending token activity and the rate-limit hint when present, and the
/// bottom pane one row below the rest.
pub open spec fn chat_layout_spec(
    has_active: bool,
    hook: Option<bool>,
    has_token_activity: bool,
    has_rate_limit_hint: bool,
    right_reserve: u16,
) -> Seq<FlexItem> {
    seq![
        FlexItem { flex: 1, ..cell_or_nothing(has_active, LiveCell::Active, right_reserve) },
        cell_or_nothing(hook_visible(hook), LiveCell::Hook, right_reserve),
    ] + optional_slot(has_token_activity, LiveCell::TokenActivity, right_reserve) + optional_slot(
        has_rate_limit_hint,
        LiveCell::RateLimitHint,
        right_reserve,
    ) + seq![
        FlexItem {
            flex: 0,
            child: FlexChild::BottomPane { composer_right_reserve: right_reserve, inset_top: 1 },
        },
    ]
}

/// The chat widget's first slot stretches and draws the active cell when there is one; the
/// second takes only its height and draws the hook cell when there is one that should render;
/// token activity and the rate-limit hint get stretching slots of their own only when present;
/// the last slot is the bottom pane, one row down. Every cell keeps `right_reserve` columns
/// free below a blank row.
pub proof fn lemma_chat_layout_slots(
    has_active: bool,
    hook: Option<bool>,
    has_token_activity: bool,
    has_rate_limit_hint: bool,
    right_reserve: u16,
)
    ensures
        ({
            let slots = chat_layout_spec(
                has_active,
                hook,
                has_token_activity,
                has_rate_limit_hint,
                right_reserve,
            );
            let area = TranscriptAreaRenderable { top: 1, right: right_reserve };
            &&& slots.len() == 3 + (if has_token_activity { 1int } else { 0 }) + (
            if has_rate_limit_hint {
                1int
            } else {
                0
            })
            &&& slots[0] == (if has_active {
                FlexItem { flex: 1, child: FlexChild::Cell { cell: LiveCell::Active, area } }
            } else {
                FlexItem { flex: 1, child: FlexChild::Nothing }
            })
            &&& slots[1] == (if hook == Some(true) {
                FlexItem { flex: 0, child: FlexChild::Cell { cell: LiveCell::Hook, area } }
            } else {
                FlexItem { flex: 0, child: FlexChild::Nothing }
            })
            &&& has_token_activity ==> slots[2] == (FlexItem {
                flex: 1,
                child: FlexChild::Cell { cell: LiveCell::TokenActivity, area },
            })
            &&& has_rate_limit_hint ==> slots[slots.len() - 2] == (FlexItem {
                flex: 1,
                child: FlexChild::Cell { cell: LiveCell::RateLimitHint, area },
            })
            &&& slots[slots.len() - 1] == (FlexItem {
                flex: 0,
                child: FlexChild::BottomPane { composer_right_reserve: right_reserve, inset_top: 1 },
            })
        }),
{
}

/// Lays out the chat widget's slots, top to bottom, with transient cells keeping
/// `right_reserve` columns free.
pub fn chat_layout(
    has_active: bool,
    hook: Option<bool>,
    has_token_activity: bool,
    has_rate_limit_hint: bool,
    right_reserve: u16,
) -> (r: Vec<FlexItem>)
    ensures
        r@ == chat_layout_spec(
            has_active,
            hook,
            has_token_activity,
            has_rate_limit_hint,
            right_reserve,
        ),
{
    let area = TranscriptAreaRenderable { top: 1, right: right_reserve };
    let mut items: Vec<FlexItem> = Vec::new();
    let active = if has_active {
        FlexChild::Cell { cell: LiveCell::Active, area }
    } else {
        FlexChild::Nothing
    };
    items.push(FlexItem { flex: 1, child: active });
    let hook_should_render = match hook {
        Some(should_render) => should_render,
        None => false,
    };
    let hook_child = if hook_should_render {
        FlexChild::Cell { cell: LiveCell::Hook, area }
    } else {
        FlexChild::Nothing
    };
    items.push(FlexItem { flex: 0, child: hook_child });
    if has_token_activity {
        items.push(FlexItem { flex: 1, child: FlexChild::Cell { cell: LiveCell::TokenActivity, area } });
    }
    if has_rate_limit_hint {
        items.push(FlexItem { flex: 1, child: FlexChild::Cell { cell: LiveCell::RateLimitHint, area } });
    }
    items.push(
        FlexItem {
            flex: 0,
            child: FlexChild::BottomPane { composer_right_reserve: right_reserve, inset_top: 1 },
        },
    );
    proof {
        assert(items@ =~= chat_layout_spec(
            has_active,
            hook,
            has_token_activity,
            has_rate_limit_hint,
            right_reserve,
        ));
    }
    items
}

/// The transient cell a slot draws, if any.
pub open spec fn slot_cells(item: FlexItem) -> Seq<LiveCell> {
    match item.child {
        FlexChild::Cell { cell, .. } => seq![cell],
        _ => Seq::empty(),
    }
}

/// The transient cells the slots draw, top to bottom.
pub open spec fn flex_cells(items: Seq<FlexItem>) -> Seq<LiveCell>
    decreases items.len(),
{
    if items.len() == 0 {
        Seq::empty()
    } else {
        flex_cells(items.drop_last()) + slot_cells(items.last())
    }
}

/// The cells drawn by two runs of slots, one after the other, are those of the first run
/// followed by those of the second.
pub proof fn lemma_flex_cells_concat(first: Seq<FlexItem>, second: Seq<FlexItem>)
    ensures
        flex_cells(first + second) == flex_cells(first) + flex_cells(second),
    decreases second.len(),
{
    if second.len() == 0 {
        assert(first + second =~= first);
        assert(flex_cells(first) + flex_cells(second) =~= flex_cells(first));
    } else {
        lemma_flex_cells_concat(first, second.drop_last());
        assert((first + second).drop_last() =~= first + second.drop_last());
        assert((first + second).last() == second.last());
        assert(flex_cells(first) + flex_cells(second.drop_last()) + slot_cells(second.last())
            =~= flex_cells(first) + (flex_cells(second.drop_last()) + slot_cells(second.last())));
    }
}

/// The chat widget draws the same transient cells, in the same order, as the list of live
/// history cells that the split surface appends to the transcript.
pub proof fn lemma_chat_layout_matches_live_cells(
    has_active: bool,
    hook: Option<bool>,
    has_token_activity: bool,
    has_rate_limit_hint: bool,
    right_reserve: u16,
)
    ensures
        flex_cells(
            chat_layout_spec(
                has_active,
                hook,
                has_token_activity,
                has_rate_limit_hint,
                right_reserve,
            ),
        ) == live_history_cells_spec(has_active, hook, has_token_activity, has_rate_limit_hint),
{
    let head = seq![
        FlexItem { flex: 1, ..cell_or_nothing(has_active, LiveCell::Active, right_reserve) },
        cell_or_nothing(hook_visible(hook), LiveCell::Hook, right_reserve),
    ];
    let token = optional_slot(has_token_activity, LiveCell::TokenActivity, right_reserve);
    let hint = optional_slot(has_rate_limit_hint, LiveCell::RateLimitHint, right_reserve);
    let tail = seq![
        FlexItem {
            flex: 0,
            child: FlexChild::BottomPane { composer_right_reserve: right_reserve, inset_top: 1 },
        },
    ];
    lemma_flex_cells_concat(head, token);
    lemma_flex_cells_concat(head + token, hint);
    lemma_flex_cells_concat(head + token + hint, tail);
    assert(head.drop_last().drop_last() =~= Seq::<FlexItem>::empty());
    assert(flex_cells(head.drop_last()) =~= slot_cells(head[0])) by {
        assert(flex_cells(head.drop_last()) == flex_cells(head.drop_last().drop_last())
            + slot_cells(head.drop_last().last()));
    }
    assert(flex_cells(head) =~= optional_cell(has_active, LiveCell::Active) + optional_cell(
        hook_visible(hook),
        LiveCell::Hook,
    ));
    assert(flex_cells(token) =~= optional_cell(has_token_activity, LiveCell::TokenActivity)) by {
        if has_token_activity {
            assert(token.drop_last() =~= Seq::<FlexItem>::empty());
            assert(flex_cells(token) == flex_cells(token.drop_last()) + slot_cells(token.last()));
        } else {
            assert(token =~= Seq::<FlexItem>::empty());
        }
    }
    assert(flex_cells(hint) =~= optional_cell(has_rate_limit_hint, LiveCell::RateLimitHint)) by {
        if has_rate_limit_hint {
            assert(hint.drop_last() =~= Seq::<FlexItem>::empty());
            assert(flex_cells(hint) == flex_cells(hint.drop_last()) + slot_cells(hint.last()));
        } else {
            assert(hint =~= Seq::<FlexItem>::empty());
        }
    }
    assert(tail.drop_last() =~= Seq::<FlexItem>::empty());
    assert(flex_cells(tail) =~= Seq::<LiveCell>::empty());
    assert(flex_cells(head + token + hint + tail) =~= live_history_cells_spec(
        has_active,
        hook,
        has_token_activity,
        has_rate_limit_hint,
    ));
}

/// What the chat widget's layout reads of its state.
#[derive(Clone, Copy, Debug, PartialEq, Eq, Structural)]
pub struct ChatWidget {
    /// Whether a cell is still being streamed.
    pub has_active_cell: bool,
    /// `None` without a hook cell; else whether the hook cell should render.
    pub active_hook_cell: Option<bool>,
    /// Whether token activity waits to be committed.
    pub has_pending_token_activity: bool,
    /// Whether a rate-limit reset hint is shown.
    pub has_pending_rate_limit_hint: bool,
    /// Columns the ambient pet occupies on the right of wrapped transcript text.
    pub ambient_pet_reserved_cols: u16,
    /// The width the widget was last drawn at.
    pub rendered_width: RenderedWidth,
}

impl ChatWidget {
    /// The widget's slots, top to bottom: transient cells keep the ambient pet's columns free.
    pub fn as_renderable(&self) -> (r: Vec<FlexItem>)
        ensures
            r@ == chat_layout_spec(
                self.has_active_cell,
                self.active_hook_cell,
                self.has_pending_token_activity,
                self.has_pending_rate_limit_hint,
                self.ambient_pet_reserved_cols,
            ),
    {
        chat_layout(
            self.has_active_cell,
            self.active_hook_cell,
            self.has_pending_token_activity,
            self.has_pending_rate_limit_hint,
            self.ambient_pet_right_reserve(),
        )
    }

    /// Notes that the widget was drawn `width` columns wide.
    pub fn note_rendered_width(&mut self, width: u16)
        ensures
            final(self).rendered_width@ == Some(width),
            *final(self) == (ChatWidget { rendered_width: final(self).rendered_width, ..*old(self) }),
    {
        self.rendered_width.note_rendered_width(width);
    }

    /// The width the widget was last drawn at, if it was drawn.
    pub fn last_rendered_width(&self) -> (r: Option<u16>)
        ensures
            r == self.rendered_width@,
    {
        self.rendered_width.last_rendered_width()
    }

    /// The transient history cells, in the order of the traditional shared viewport.
    pub fn live_history_cells(&self) -> (r: Vec<LiveCell>)
        ensures
            r@ == live_history_cells_spec(
                self.has_active_cell,
                self.active_hook_cell,
                self.has_pending_token_activity,
                self.has_pending_rate_limit_hint,
            ),
    {
        live_history_cells(
            self.has_active_cell,
            self.active_hook_cell,
            self.has_pending_token_activity,
            self.has_pending_rate_limit_hint,
        )
    }

    /// The composer and status surface, without the transient cells, one row below what is
    /// above it and keeping `right_reserve` columns free on the right of the composer.
    pub fn composer_renderable(&self, right_reserve: u16) -> (r: FlexChild)
        ensures
            r == (FlexChild::BottomPane { composer_right_reserve: right_reserve, inset_top: 1 }),
    {
        FlexChild::BottomPane { composer_right_reserve: right_reserve, inset_top: 1 }
    }

    /// Columns the ambient pet keeps free on the right of wrapped text.
    pub fn ambient_pet_right_reserve(&self) -> (r: u16)
        ensures
            r == self.ambient_pet_reserved_cols,
    {
        self.ambient_pet_reserved_cols
    }
}

/// The chat widget draws its bottom pane as the composer surface that the split layout draws
/// on its own, with the same reserve.
pub proof fn lemma_chat_layout_ends_with_composer(
    has_active: bool,
    hook: Option<bool>,
    has_token_activity: bool,
    has_rate_limit_hint: bool,
    right_reserve: u16,
)
    ensures
        chat_layout_spec(
            has_active,
            hook,
            has_token_activity,
            has_rate_limit_hint,
            right_reserve,
        ).last() == (FlexItem {
            flex: 0,
            child: FlexChild::BottomPane { composer_right_reserve: right_reserve, inset_top: 1 },
        }),
{
}

} // verus!
