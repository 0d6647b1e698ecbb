use split_pane::layout::split_widths;
use split_pane::scroll::{
    apply_mouse_scroll, split_region_at, MouseEvent, MouseEventKind, SplitPaneRegion,
    SplitPaneScrollState, SCROLL_ROWS_PER_EVENT,
};

fn event(kind: MouseEventKind, column: u16) -> MouseEvent {
    MouseEvent { kind, column, row: 4 }
}

#[test]
fn mouse_scroll_targets_each_wide_pane_independently() {
    let mut state = SplitPaneScrollState::default();
    let (conversation_width, _) = split_widths(120).expect("wide split");

    assert!(apply_mouse_scroll(
        &mut state,
        120,
        event(MouseEventKind::ScrollUp, conversation_width - 1),
    ));
    assert_eq!(state.offset(SplitPaneRegion::Conversation), SCROLL_ROWS_PER_EVENT);
    assert_eq!(state.offset(SplitPaneRegion::Activity), 0);

    assert!(apply_mouse_scroll(
        &mut state,
        120,
        event(MouseEventKind::ScrollUp, conversation_width + 1),
    ));
    assert_eq!(state.offset(SplitPaneRegion::Activity), SCROLL_ROWS_PER_EVENT);

    assert!(apply_mouse_scroll(
        &mut state,
        120,
        event(MouseEventKind::ScrollDown, conversation_width - 1),
    ));
    assert_eq!(state.offset(SplitPaneRegion::Conversation), 0);
}

#[test]
fn other_mouse_events_are_not_handled() {
    let mut state = SplitPaneScrollState::new();
    assert!(!apply_mouse_scroll(&mut state, 120, event(MouseEventKind::Other, 10)));
    assert_eq!(state, SplitPaneScrollState::new());
}

#[test]
fn narrow_terminal_scrolls_the_combined_transcript() {
    let mut state = SplitPaneScrollState::new();
    assert!(apply_mouse_scroll(&mut state, 80, event(MouseEventKind::ScrollUp, 10)));
    assert_eq!(state.offset(SplitPaneRegion::Combined), 3);
    assert_eq!(state.offset(SplitPaneRegion::Conversation), 0);
    assert_eq!(state.offset(SplitPaneRegion::Activity), 0);
}

#[test]
fn scrolling_down_at_the_tail_stays_at_the_tail() {
    let mut state = SplitPaneScrollState::new();
    assert!(apply_mouse_scroll(&mut state, 120, event(MouseEventKind::ScrollDown, 0)));
    assert_eq!(state.offset(SplitPaneRegion::Conversation), 0);
    *state.offset_mut(SplitPaneRegion::Conversation) = 2;
    assert!(apply_mouse_scroll(&mut state, 120, event(MouseEventKind::ScrollDown, 0)));
    assert_eq!(state.offset(SplitPaneRegion::Conversation), 0);
}

#[test]
fn scrolling_up_saturates() {
    let mut state = SplitPaneScrollState::new();
    *state.offset_mut(SplitPaneRegion::Activity) = usize::MAX - 1;
    assert!(apply_mouse_scroll(&mut state, 120, event(MouseEventKind::ScrollUp, 100)));
    assert_eq!(state.offset(SplitPaneRegion::Activity), usize::MAX);
}

#[test]
fn up_then_down_restores_the_state() {
    let mut state = SplitPaneScrollState::new();
    *state.offset_mut(SplitPaneRegion::Activity) = 7;
    *state.offset_mut(SplitPaneRegion::Conversation) = 11;
    let before = state;
    assert!(apply_mouse_scroll(&mut state, 130, event(MouseEventKind::ScrollUp, 60)));
    assert_ne!(state, before);
    assert!(apply_mouse_scroll(&mut state, 130, event(MouseEventKind::ScrollDown, 60)));
    assert_eq!(state, before);
}

#[test]
fn offset_mut_changes_only_its_region() {
    let mut state = SplitPaneScrollState::new();
    *state.offset_mut(SplitPaneRegion::Combined) = 9;
    assert_eq!(state.offset(SplitPaneRegion::Combined), 9);
    assert_eq!(state.offset(SplitPaneRegion::Conversation), 0);
    assert_eq!(state.offset(SplitPaneRegion::Activity), 0);
}

#[test]
fn region_follows_the_divider() {
    assert_eq!(split_region_at(120, 0), SplitPaneRegion::Conversation);
    assert_eq!(split_region_at(120, 52), SplitPaneRegion::Conversation);
    assert_eq!(split_region_at(120, 53), SplitPaneRegion::Activity);
    assert_eq!(split_region_at(120, 119), SplitPaneRegion::Activity);
    assert_eq!(split_region_at(119, 0), SplitPaneRegion::Combined);
    assert_eq!(split_region_at(0, 0), SplitPaneRegion::Combined);
}
