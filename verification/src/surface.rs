//! The placement of every part of the transcript surface: panes, headers, divider and composer.
use vstd::prelude::*;
use crate::rect::{Rect, RowRange, rect_at, sat_add_u16};
use crate::layout::{
    split_widths, split_widths_spec, column_with_composer, column_with_composer_spec,
    column_without_composer, column_without_composer_spec, reserve_right, reserve_right_spec,
    divider_rows, divider_rows_spec, MIN_SPLIT_WIDTH, split_conversation_width_spec, lemma_column_with_composer_stacks,
    lemma_column_without_composer_stacks,
};
use crate::scroll::{SplitPaneRegion, SplitPaneScrollState};
use crate::stream::{
    collect_stream_lines, lemma_stream_lines_sound, stream_lines_spec, CellLines,
    HistoryCellStream, StreamLine,
};

verus! {

/// A transcript pane: which pane it is, its header row, the area its lines are drawn in, and
/// how far it is scrolled up from its newest line.
#[derive(Clone, Copy, Debug, PartialEq, Eq, Structural)]
pub struct PaneLayout {
    pub region: SplitPaneRegion,
    pub header: Rect,
    pub content: Rect,
    pub from_bottom: usize,
}

/// Where each part of the transcript surface is drawn.
#[derive(Clone, Copy, Debug, PartialEq, Eq, Structural)]
pub enum SurfaceLayout {
    /// Conversation pane (with the composer below it), a divider column, and the activity pane.
    Split {
        conversation: PaneLayout,
        activity: PaneLayout,
        composer: Rect,
        divider_x: u16,
        divider_rows: Option<RowRange>,
        conversation_width: u16,
    },
    /// One column with every stream, and the composer below it.
    Combined { transcript: PaneLayout, composer: Rect },
}

/// The stream a pane shows: the conversation pane the conversation, the activity pane the
/// activity, the combined column every stream.
pub open spec fn pane_stream_spec(region: SplitPaneRegion) -> Option<HistoryCellStream> {
    match region {
        SplitPaneRegion::Conversation => Some(HistoryCellStream::Conversation),
        SplitPaneRegion::Activity => Some(HistoryCellStream::Activity),
        SplitPaneRegion::Combined => None,
    }
}

/// The stream shown in the pane `region`.
pub fn pane_stream(region: SplitPaneRegion) -> (r: Option<HistoryCellStream>)
    ensures
        r == pane_stream_spec(region),
{
    match region {
        SplitPaneRegion::Conversation => Some(HistoryCellStream::Conversation),
        SplitPaneRegion::Activity => Some(HistoryCellStream::Activity),
        SplitPaneRegion::Combined => None,
    }
}

/// The label in the header of the pane `region`.
pub fn pane_label(region: SplitPaneRegion) -> (r: &'static str)
    ensures
        region == SplitPaneRegion::Conversation ==> r@ == "CHAT"@,
        region == SplitPaneRegion::Activity ==> r@ == "ACTIVITY"@,
        region == SplitPaneRegion::Combined ==> r@ == "TRANSCRIPT"@,
{
    match region {
        SplitPaneRegion::Conversation => "CHAT",
        SplitPaneRegion::Activity => "ACTIVITY",
        SplitPaneRegion::Combined => "TRANSCRIPT",
    }
}

/// The lines of `pane`, from the committed and live `cells`: those of the pane's stream.
pub fn pane_lines(pane: &PaneLayout, cells: &Vec<CellLines>) -> (r: Vec<StreamLine>)
    ensures
        r@ == stream_lines_spec(cells@, pane_stream_spec(pane.region)),
{
    collect_stream_lines(cells, pane_stream(pane.region))
}

/// The column that holds the composer: the conversation pane's column on a split surface, else
/// the whole surface.
pub open spec fn composer_column_spec(area: Rect) -> Rect {
    match split_widths_spec(area.width) {
        Some((conversation_width, _activity_width)) => rect_at(
            area.x,
            area.y,
            conversation_width,
            area.height,
        ),
        None => area,
    }
}

/// The composer's column is the conversation pane's column (`(width - 1) * 45 / 100` columns
/// wide at the surface's left edge) on a surface of at least 120 columns, and the whole surface
/// otherwise.
pub proof fn lemma_composer_column(area: Rect)
    ensures
        area.width < 120 ==> composer_column_spec(area) == area,
        area.width >= 120 && area.fits() ==> composer_column_spec(area) == (Rect {
            x: area.x,
            y: area.y,
            width: ((area.width - 1) * 45 / 100) as u16,
            height: area.height,
        }),
{
}

/// The placement of the surface's parts in `area`, when the composer asks for
/// `composer_desired_height` rows, the activity (or the combined) pane keeps `ambient_reserve`
/// columns free on its right, and the panes are scrolled as `scroll` says.
pub open spec fn surface_layout_spec(
    area: Rect,
    composer_desired_height: u16,
    ambient_reserve: u16,
    scroll: SplitPaneScrollState,
) -> SurfaceLayout {
    match split_widths_spec(area.width) {
        Some((conversation_width, activity_width)) => {
            let conversation_area = rect_at(area.x, area.y, conversation_width, area.height);
            let divider_x = conversation_area.right_spec();
            let activity_area = rect_at(
                sat_add_u16(divider_x, 1),
                area.y,
                activity_width,
                area.height,
            );
            let (conversation_header, conversation_content, composer) = column_with_composer_spec(
                conversation_area,
                composer_desired_height,
            );
            let (activity_header, activity_content) = column_without_composer_spec(activity_area);
            SurfaceLayout::Split {
                conversation: PaneLayout {
                    region: SplitPaneRegion::Conversation,
                    header: conversation_header,
                    content: conversation_content,
                    from_bottom: scroll.from_bottom(SplitPaneRegion::Conversation),
                },
                activity: PaneLayout {
                    region: SplitPaneRegion::Activity,
                    header: activity_header,
                    content: reserve_right_spec(activity_content, ambient_reserve),
                    from_bottom: scroll.from_bottom(SplitPaneRegion::Activity),
                },
                composer,
                divider_x,
                divider_rows: divider_rows_spec(divider_x, area),
                conversation_width,
            }
        },
        None => {
            let (header, content, composer) = column_with_composer_spec(
                area,
                composer_desired_height,
            );
            SurfaceLayout::Combined {
                transcript: PaneLayout {
                    region: SplitPaneRegion::Combined,
                    header,
                    content: reserve_right_spec(content, ambient_reserve),
                    from_bottom: scroll.from_bottom(SplitPaneRegion::Combined),
                },
                composer,
            }
        },
    }
}

impl SurfaceLayout {
    /// The width the conversation is laid out for: the conversation pane's width on a split
    /// surface, the surface's width otherwise.
    pub open spec fn conversation_width_spec(self, area: Rect) -> u16 {
        match self {
            SurfaceLayout::Split { conversation_width, .. } => conversation_width,
            SurfaceLayout::Combined { .. } => area.width,
        }
    }

    /// The width the conversation is laid out for, on a surface that fills `area`.
    pub fn conversation_width(&self, area: Rect) -> (r: u16)
        ensures
            r == self.conversation_width_spec(area),
    {
        match self {
            SurfaceLayout::Split { conversation_width, .. } => *conversation_width,
            SurfaceLayout::Combined { .. } => area.width,
        }
    }
}

/// The column the composer is drawn in; its width is the one at which the composer's desired
/// height is asked before the surface is laid out.
pub fn composer_column(area: Rect) -> (r: Rect)
    ensures
        r == composer_column_spec(area),
{
    match split_widths(area.width) {
        Some((conversation_width, _activity_width)) => Rect::new(
            area.x,
            area.y,
            conversation_width,
            area.height,
        ),
        None => area,
    }
}

/// Lays out the transcript surface in `area`: split into a conversation pane, a divider and an
/// activity pane when `area` is at least `MIN_SPLIT_WIDTH` columns wide, one combined column
/// otherwise; the composer sits below the conversation (or the combined) content.
pub fn plan_stream_surface(
    area: Rect,
    composer_desired_height: u16,
    ambient_reserve: u16,
    scroll: &SplitPaneScrollState,
) -> (r: SurfaceLayout)
    ensures
        r == surface_layout_spec(area, composer_desired_height, ambient_reserve, *scroll),
        r is Split <==> area.width >= MIN_SPLIT_WIDTH,
{
    match split_widths(area.width) {
        Some((conversation_width, activity_width)) => {
            let conversation_area = Rect::new(area.x, area.y, conversation_width, area.height);
            let divider_x = conversation_area.right();
            let activity_area = Rect::new(
                divider_x.saturating_add(1),
                area.y,
                activity_width,
                area.height,
            );
            let (conversation_header, conversation_content, composer) = column_with_composer(
                conversation_area,
                composer_desired_height,
            );
            let (activity_header, activity_content) = column_without_composer(activity_area);
            let activity_content = reserve_right(activity_content, ambient_reserve);
            SurfaceLayout::Split {
                conversation: PaneLayout {
                    region: SplitPaneRegion::Conversation,
                    header: conversation_header,
                    content: conversation_content,
                    from_bottom: scroll.offset(SplitPaneRegion::Conversation),
                },
                activity: PaneLayout {
                    region: SplitPaneRegion::Activity,
                    header: activity_header,
                    content: activity_content,
                    from_bottom: scroll.offset(SplitPaneRegion::Activity),
                },
                composer,
                divider_x,
                divider_rows: divider_rows(divider_x, area),
                conversation_width,
            }
        },
        None => {
            let (header, content, composer) = column_with_composer(area, composer_desired_height);
            let content = reserve_right(content, ambient_reserve);
            SurfaceLayout::Combined {
                transcript: PaneLayout {
                    region: SplitPaneRegion::Combined,
                    header,
                    content,
                    from_bottom: scroll.offset(SplitPaneRegion::Combined),
                },
                composer,
            }
        },
    }
}

/// On a split surface that fits the coordinate space, the conversation column, the divider
/// column and the activity column lie side by side without gap or overlap and fill the surface:
/// the conversation pane and the composer share the left column, the divider runs the full
/// height, and each column's parts fill its height.
pub proof fn lemma_split_surface_tiles(
    area: Rect,
    composer_desired_height: u16,
    ambient_reserve: u16,
    scroll: SplitPaneScrollState,
)
    requires
        area.fits(),
        area.width >= MIN_SPLIT_WIDTH,
    ensures
        surface_layout_spec(area, composer_desired_height, ambient_reserve, scroll) matches
            SurfaceLayout::Split {
            conversation,
            activity,
            composer,
            divider_x,
            divider_rows,
            conversation_width,
        } && {
            &&& conversation.header.x == area.x && conversation.content.x == area.x
            &&& composer.x == area.x
            &&& conversation.header.width == conversation_width
            &&& conversation.content.width == conversation_width
            &&& composer.width == conversation_width
            &&& divider_x == area.x + conversation_width
            &&& activity.header.x == divider_x + 1 && activity.content.x == divider_x + 1
            &&& activity.header.x + activity.header.width == area.x + area.width
            &&& activity.content.width <= activity.header.width
            &&& conversation_width + 1 + activity.header.width == area.width
            &&& conversation.header.y == area.y && activity.header.y == area.y
            &&& conversation.header.height + conversation.content.height + composer.height
                == area.height
            &&& activity.header.height + activity.content.height == area.height
            &&& activity.content.y == activity.header.y + activity.header.height
            &&& composer.y == conversation.content.y + conversation.content.height
            &&& divider_rows == Some((RowRange { start: area.y, end: (area.y + area.height) as u16 }))
            &&& conversation.from_bottom == scroll.from_bottom(SplitPaneRegion::Conversation)
            &&& activity.from_bottom == scroll.from_bottom(SplitPaneRegion::Activity)
            &&& conversation.header.height == (if area.height == 0 { 0int } else { 1 })
            &&& activity.header.height == (if area.height == 0 { 0int } else { 1 })
            &&& conversation.content.y == conversation.header.y + conversation.header.height
            &&& conversation_width == (area.width - 1) * 45 / 100
            &&& activity.header.width == area.width - 1 - (area.width - 1) * 45 / 100
            &&& composer.height == (if area.height < 2 {
                0
            } else if composer_desired_height <= area.height - 2 {
                composer_desired_height as int
            } else {
                area.height - 2
            })
            &&& activity.content.width == (if activity.header.width > ambient_reserve {
                activity.header.width - ambient_reserve
            } else {
                1
            })
        },
{
    let (conversation_width, activity_width) = split_widths_spec(area.width)->0;
    let conversation_area = rect_at(area.x, area.y, conversation_width, area.height);
    let divider_x = conversation_area.right_spec();
    let activity_area = rect_at(sat_add_u16(divider_x, 1), area.y, activity_width, area.height);
    lemma_column_with_composer_stacks(conversation_area, composer_desired_height);
    lemma_column_without_composer_stacks(activity_area);
}

/// On a surface too narrow to split that fits the coordinate space, the header, the transcript
/// content and the composer are stacked in one column and fill it.
pub proof fn lemma_combined_surface_stacks(
    area: Rect,
    composer_desired_height: u16,
    ambient_reserve: u16,
    scroll: SplitPaneScrollState,
)
    requires
        area.fits(),
        area.width < MIN_SPLIT_WIDTH,
    ensures
        surface_layout_spec(area, composer_desired_height, ambient_reserve, scroll) matches
            SurfaceLayout::Combined { transcript, composer } && {
            &&& transcript.header.x == area.x && transcript.content.x == area.x
            &&& composer.x == area.x
            &&& transcript.header.width == area.width && composer.width == area.width
            &&& transcript.content.width <= area.width
            &&& transcript.header.y == area.y
            &&& transcript.header.height + transcript.content.height + composer.height
                == area.height
            &&& composer.y == transcript.content.y + transcript.content.height
            &&& transcript.from_bottom == scroll.from_bottom(SplitPaneRegion::Combined)
            &&& transcript.header.height == (if area.height == 0 { 0int } else { 1 })
            &&& transcript.content.y == transcript.header.y + transcript.header.height
            &&& composer.height == (if area.height < 2 {
                0
            } else if composer_desired_height <= area.height - 2 {
                composer_desired_height as int
            } else {
                area.height - 2
            })
            &&& transcript.content.width == (if area.width > ambient_reserve {
                area.width - ambient_reserve
            } else if area.width == 0 {
                0
            } else {
                1
            })
        },
{
    lemma_column_with_composer_stacks(area, composer_desired_height);
}

/// Whether every cell line that the pane `region` shows of `cells` comes from a cell of the
/// pane's stream.
pub open spec fn shows_only_own_stream(region: SplitPaneRegion, cells: Seq<CellLines>) -> bool {
    forall|k: int|
        0 <= k < stream_lines_spec(cells, pane_stream_spec(region)).len() ==> {
            let entry = #[trigger] stream_lines_spec(cells, pane_stream_spec(region))[k];
            entry matches StreamLine::CellLine { cell, .. } ==> {
                &&& cell < cells.len()
                &&& match region {
                    SplitPaneRegion::Conversation => cells[cell as int].stream
                        == HistoryCellStream::Conversation,
                    SplitPaneRegion::Activity => cells[cell as int].stream
                        == HistoryCellStream::Activity,
                    SplitPaneRegion::Combined => true,
                }
            }
        }
}

/// The conversation pane shows only conversation cells and the activity pane only activity
/// cells; each pane is scrolled by its own offset. The combined column shows every stream.
pub proof fn lemma_panes_show_own_streams(
    area: Rect,
    composer_desired_height: u16,
    ambient_reserve: u16,
    scroll: SplitPaneScrollState,
    cells: Seq<CellLines>,
)
    requires
        cells.len() <= usize::MAX,
    ensures
        match surface_layout_spec(area, composer_desired_height, ambient_reserve, scroll) {
            SurfaceLayout::Split { conversation, activity, .. } => {
                &&& conversation.region == SplitPaneRegion::Conversation
                &&& activity.region == SplitPaneRegion::Activity
                &&& shows_only_own_stream(conversation.region, cells)
                &&& shows_only_own_stream(activity.region, cells)
                &&& conversation.from_bottom == scroll.from_bottom(conversation.region)
                &&& activity.from_bottom == scroll.from_bottom(activity.region)
            },
            SurfaceLayout::Combined { transcript, .. } => {
                &&& transcript.region == SplitPaneRegion::Combined
                &&& pane_stream_spec(transcript.region) == None::<HistoryCellStream>
                &&& transcript.from_bottom == scroll.from_bottom(transcript.region)
            },
        },
{
    lemma_stream_lines_sound(cells, Some(HistoryCellStream::Conversation));
    lemma_stream_lines_sound(cells, Some(HistoryCellStream::Activity));
}

/// The width a frame reports as the conversation's is the width the application wraps the
/// conversation at, and on a surface that fits the coordinate space the composer is drawn
/// exactly as wide as the column its height was asked for.
pub proof fn lemma_surface_widths_agree(
    area: Rect,
    composer_desired_height: u16,
    ambient_reserve: u16,
    scroll: SplitPaneScrollState,
)
    ensures
        ({
            let layout = surface_layout_spec(area, composer_desired_height, ambient_reserve, scroll);
            &&& layout.conversation_width_spec(area) == split_conversation_width_spec(area.width)
            &&& area.fits() ==> match layout {
                SurfaceLayout::Split { composer, .. } => composer.width
                    == composer_column_spec(area).width,
                SurfaceLayout::Combined { composer, .. } => composer.width
                    == composer_column_spec(area).width,
            }
        }),
{
    if area.fits() {
        lemma_column_with_composer_stacks(composer_column_spec(area), composer_desired_height);
    }
}

} // verus!
