use split_pane::frame::{App, ComposerRequest, TuiLayout};
use split_pane::scroll::{MouseEvent, MouseEventKind, SplitPaneRegion, SplitPaneScrollState};
use split_pane::surface::SurfaceLayout;
use split_pane::rect::Rect;
use split_pane::transcript::{
    chat_layout, live_history_cells, ChatWidget, FlexChild, FlexItem, LiveCell, RenderedWidth, TranscriptAreaRenderable,
};

#[test]
fn child_area_insets_top_and_right() {
    let area = TranscriptAreaRenderable { top: 1, right: 4 };
    assert_eq!(area.child_area(Rect::new(2, 3, 20, 10)), Rect::new(2, 4, 16, 9));
    assert_eq!(area.child_area(Rect::new(0, 0, 3, 0)), Rect::new(0, 1, 1, 0));
    assert_eq!(area.child_width(20), 16);
    assert_eq!(area.child_width(2), 1);
    assert_eq!(area.desired_height(5), 6);
}

#[test]
fn live_cells_keep_viewport_order() {
    assert_eq!(
        live_history_cells(true, Some(true), true, true),
        vec![LiveCell::Active, LiveCell::Hook, LiveCell::TokenActivity, LiveCell::RateLimitHint]
    );
    assert_eq!(live_history_cells(false, Some(false), false, true), vec![LiveCell::RateLimitHint]);
    assert_eq!(live_history_cells(true, None, false, false), vec![LiveCell::Active]);
}

#[test]
fn chat_layout_slots() {
    let area = TranscriptAreaRenderable { top: 1, right: 3 };
    assert_eq!(
        chat_layout(false, Some(false), true, false, 3),
        vec![
            FlexItem { flex: 1, child: FlexChild::Nothing },
            FlexItem { flex: 0, child: FlexChild::Nothing },
            FlexItem { flex: 1, child: FlexChild::Cell { cell: LiveCell::TokenActivity, area } },
            FlexItem {
                flex: 0,
                child: FlexChild::BottomPane { composer_right_reserve: 3, inset_top: 1 },
            },
        ]
    );
    let layout = chat_layout(true, Some(true), false, true, 3);
    assert_eq!(layout.len(), 4);
    assert_eq!(layout[0], FlexItem { flex: 1, child: FlexChild::Cell { cell: LiveCell::Active, area } });
    assert_eq!(layout[1], FlexItem { flex: 0, child: FlexChild::Cell { cell: LiveCell::Hook, area } });
    assert_eq!(
        layout[2],
        FlexItem { flex: 1, child: FlexChild::Cell { cell: LiveCell::RateLimitHint, area } }
    );
}

#[test]
fn rendered_width_reads_back_what_was_noted() {
    let mut width = RenderedWidth::new();
    assert_eq!(width.last_rendered_width(), None);
    width.note_rendered_width(53);
    assert_eq!(width.last_rendered_width(), Some(53));
    width.note_rendered_width(u16::MAX);
    assert_eq!(width.last_rendered_width(), Some(u16::MAX));
}

fn app(tui_layout: TuiLayout) -> App {
    App { tui_layout, split_pane_scroll: SplitPaneScrollState::new(), chat_widget: widget() }
}

#[test]
fn split_surface_needs_alt_screen() {
    assert!(app(TuiLayout::Split).wants_split_pane_screen());
    assert!(!app(TuiLayout::Inline).wants_split_pane_screen());
    assert!(app(TuiLayout::Split).split_pane_active(true));
    assert!(!app(TuiLayout::Split).split_pane_active(false));
    assert!(!app(TuiLayout::Inline).split_pane_active(true));
}

#[test]
fn app_routes_wheel_events_and_lays_out_frames() {
    let mut app = app(TuiLayout::Split);
    assert_eq!(app.split_conversation_width(120), 53);
    assert_eq!(app.split_conversation_width(90), 90);
    assert_eq!(app.split_composer_right_reserve(120), 0);
    assert_eq!(app.split_composer_right_reserve(90), 7);
    assert_eq!(
        app.split_pane_composer_request(Rect::new(0, 0, 120, 14)),
        ComposerRequest { right_reserve: 0, column: Rect::new(0, 0, 53, 14) }
    );
    assert_eq!(
        app.split_pane_composer_request(Rect::new(0, 0, 90, 14)),
        ComposerRequest { right_reserve: 7, column: Rect::new(0, 0, 90, 14) }
    );
    let wheel = MouseEvent { kind: MouseEventKind::ScrollUp, column: 100, row: 2 };
    assert!(app.handle_split_pane_mouse(120, wheel));
    let click = MouseEvent { kind: MouseEventKind::Other, column: 100, row: 2 };
    assert!(!app.handle_split_pane_mouse(120, click));
    assert_eq!(app.split_pane_scroll.offset(SplitPaneRegion::Activity), 3);
    assert_eq!(app.chat_widget.last_rendered_width(), None);
    let frame = app.render_split_pane_frame(Rect::new(0, 0, 120, 14), 3);
    assert_eq!(frame.composer_right_reserve, 0);
    match frame.layout {
        SurfaceLayout::Split { activity, .. } => {
            assert_eq!(activity.from_bottom, 3);
            assert_eq!(activity.content.width, 59);
        }
        SurfaceLayout::Combined { .. } => panic!("expected a split surface"),
    }
    assert_eq!(app.chat_widget.last_rendered_width(), Some(53));
    let frame = app.render_split_pane_frame(Rect::new(0, 0, 90, 14), 3);
    assert_eq!(frame.composer_right_reserve, 7);
    assert_eq!(app.chat_widget.last_rendered_width(), Some(90));
}

fn widget() -> ChatWidget {
    ChatWidget {
        has_active_cell: true,
        active_hook_cell: Some(false),
        has_pending_token_activity: false,
        has_pending_rate_limit_hint: true,
        ambient_pet_reserved_cols: 7,
        rendered_width: RenderedWidth::new(),
    }
}

#[test]
fn chat_widget_lays_out_its_cells() {
    let mut widget = widget();
    assert_eq!(widget.ambient_pet_right_reserve(), 7);
    assert_eq!(widget.live_history_cells(), vec![LiveCell::Active, LiveCell::RateLimitHint]);
    let area = TranscriptAreaRenderable { top: 1, right: 7 };
    assert_eq!(
        widget.as_renderable(),
        vec![
            FlexItem { flex: 1, child: FlexChild::Cell { cell: LiveCell::Active, area } },
            FlexItem { flex: 0, child: FlexChild::Nothing },
            FlexItem { flex: 1, child: FlexChild::Cell { cell: LiveCell::RateLimitHint, area } },
            FlexItem { flex: 0, child: widget.composer_renderable(7) },
        ]
    );
    assert_eq!(
        widget.composer_renderable(0),
        FlexChild::BottomPane { composer_right_reserve: 0, inset_top: 1 }
    );
    assert_eq!(widget.last_rendered_width(), None);
    widget.note_rendered_width(80);
    assert_eq!(widget.last_rendered_width(), Some(80));
}
