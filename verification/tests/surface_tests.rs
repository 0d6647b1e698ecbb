use split_pane::rect::{Rect, RowRange};
use split_pane::scroll::{SplitPaneRegion, SplitPaneScrollState};
use split_pane::stream::{CellLines, HistoryCellStream, StreamLine};
use split_pane::surface::{
    composer_column, pane_label, pane_lines, pane_stream, plan_stream_surface, PaneLayout,
    SurfaceLayout,
};

#[test]
fn wide_surface_splits_into_panes() {
    let area = Rect::new(0, 0, 120, 14);
    let mut scroll = SplitPaneScrollState::new();
    *scroll.offset_mut(SplitPaneRegion::Activity) = 4;
    assert_eq!(composer_column(area), Rect::new(0, 0, 53, 14));
    let layout = plan_stream_surface(area, 3, 0, &scroll);
    assert_eq!(
        layout,
        SurfaceLayout::Split {
            conversation: PaneLayout {
                region: SplitPaneRegion::Conversation,
                header: Rect::new(0, 0, 53, 1),
                content: Rect::new(0, 1, 53, 10),
                from_bottom: 0,
            },
            activity: PaneLayout {
                region: SplitPaneRegion::Activity,
                header: Rect::new(54, 0, 66, 1),
                content: Rect::new(54, 1, 66, 13),
                from_bottom: 4,
            },
            composer: Rect::new(0, 11, 53, 3),
            divider_x: 53,
            divider_rows: Some(RowRange { start: 0, end: 14 }),
            conversation_width: 53,
        }
    );
    assert_eq!(layout.conversation_width(area), 53);
}

#[test]
fn wide_surface_reserves_activity_columns() {
    let area = Rect::new(0, 0, 120, 14);
    let layout = plan_stream_surface(area, 3, 8, &SplitPaneScrollState::new());
    match layout {
        SurfaceLayout::Split { activity, conversation, .. } => {
            assert_eq!(activity.content, Rect::new(54, 1, 58, 13));
            assert_eq!(conversation.content.width, 53);
        }
        SurfaceLayout::Combined { .. } => panic!("expected a split surface"),
    }
}

#[test]
fn narrow_surface_combines_streams() {
    let area = Rect::new(0, 0, 80, 12);
    let mut scroll = SplitPaneScrollState::new();
    *scroll.offset_mut(SplitPaneRegion::Combined) = 6;
    assert_eq!(composer_column(area), area);
    let layout = plan_stream_surface(area, 3, 2, &scroll);
    assert_eq!(
        layout,
        SurfaceLayout::Combined {
            transcript: PaneLayout {
                region: SplitPaneRegion::Combined,
                header: Rect::new(0, 0, 80, 1),
                content: Rect::new(0, 1, 78, 8),
                from_bottom: 6,
            },
            composer: Rect::new(0, 9, 80, 3),
        }
    );
    assert_eq!(layout.conversation_width(area), 80);
}

#[test]
fn each_pane_shows_its_own_stream() {
    assert_eq!(pane_stream(SplitPaneRegion::Conversation), Some(HistoryCellStream::Conversation));
    assert_eq!(pane_stream(SplitPaneRegion::Activity), Some(HistoryCellStream::Activity));
    assert_eq!(pane_stream(SplitPaneRegion::Combined), None);
    assert_eq!(pane_label(SplitPaneRegion::Conversation), "CHAT");
    assert_eq!(pane_label(SplitPaneRegion::Activity), "ACTIVITY");
    assert_eq!(pane_label(SplitPaneRegion::Combined), "TRANSCRIPT");

    let cells = vec![
        CellLines { stream: HistoryCellStream::Conversation, line_count: 1, continuation: false },
        CellLines { stream: HistoryCellStream::Activity, line_count: 2, continuation: false },
    ];
    let layout = plan_stream_surface(Rect::new(0, 0, 120, 14), 3, 0, &SplitPaneScrollState::new());
    match layout {
        SurfaceLayout::Split { conversation, activity, .. } => {
            assert_eq!(
                pane_lines(&conversation, &cells),
                vec![StreamLine::CellLine { cell: 0, line: 0 }]
            );
            assert_eq!(
                pane_lines(&activity, &cells),
                vec![
                    StreamLine::CellLine { cell: 1, line: 0 },
                    StreamLine::CellLine { cell: 1, line: 1 },
                ]
            );
        }
        SurfaceLayout::Combined { .. } => panic!("expected a split surface"),
    }
}
