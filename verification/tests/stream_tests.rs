use split_pane::stream::{collect_stream_lines, CellLines, HistoryCellStream, StreamLine};
use split_pane::stream::HistoryCellStream::{Activity, Conversation};

fn cell(stream: HistoryCellStream, line_count: usize) -> CellLines {
    CellLines { stream, line_count, continuation: false }
}

fn line(cell: usize, line: usize) -> StreamLine {
    StreamLine::CellLine { cell, line }
}

fn fixture_cells() -> Vec<CellLines> {
    vec![
        cell(HistoryCellStream::Conversation, 1),
        cell(HistoryCellStream::Activity, 2),
        cell(HistoryCellStream::Conversation, 1),
        cell(HistoryCellStream::Activity, 2),
        cell(HistoryCellStream::Activity, 1),
    ]
}

#[test]
fn conversation_pane_shows_conversation_cells() {
    let lines = collect_stream_lines(&fixture_cells(), Some(HistoryCellStream::Conversation));
    assert_eq!(lines, vec![line(0, 0), StreamLine::Separator, line(2, 0)]);
}

#[test]
fn activity_pane_shows_activity_cells() {
    let lines = collect_stream_lines(&fixture_cells(), Some(HistoryCellStream::Activity));
    assert_eq!(
        lines,
        vec![
            line(1, 0),
            line(1, 1),
            StreamLine::Separator,
            line(3, 0),
            line(3, 1),
            StreamLine::Separator,
            line(4, 0),
        ]
    );
}

#[test]
fn combined_pane_shows_every_cell() {
    let lines = collect_stream_lines(&fixture_cells(), None);
    assert_eq!(
        lines,
        vec![
            line(0, 0),
            StreamLine::Separator,
            line(1, 0),
            line(1, 1),
            StreamLine::Separator,
            line(2, 0),
            StreamLine::Separator,
            line(3, 0),
            line(3, 1),
            StreamLine::Separator,
            line(4, 0),
        ]
    );
}

#[test]
fn continuations_and_empty_cells_add_no_separator() {
    let cells = vec![
        cell(HistoryCellStream::Activity, 0),
        cell(HistoryCellStream::Activity, 1),
        CellLines { stream: HistoryCellStream::Activity, line_count: 2, continuation: true },
        cell(HistoryCellStream::Activity, 0),
        cell(HistoryCellStream::Activity, 1),
    ];
    let lines = collect_stream_lines(&cells, None);
    assert_eq!(
        lines,
        vec![line(1, 0), line(2, 0), line(2, 1), StreamLine::Separator, line(4, 0)]
    );
}

#[test]
fn leading_continuation_gets_no_separator() {
    let cells = vec![CellLines {
        stream: HistoryCellStream::Conversation,
        line_count: 1,
        continuation: true,
    }];
    assert_eq!(collect_stream_lines(&cells, None), vec![line(0, 0)]);
    assert_eq!(collect_stream_lines(&cells, Some(HistoryCellStream::Activity)), vec![]);
    assert_eq!(collect_stream_lines(&vec![], None), vec![]);
}

fn contents(cells: &[(HistoryCellStream, Vec<&'static str>, bool)], stream: Option<HistoryCellStream>) -> Vec<&'static str> {
    let summaries: Vec<CellLines> = cells
        .iter()
        .map(|(stream, lines, continuation)| CellLines {
            stream: *stream,
            line_count: lines.len(),
            continuation: *continuation,
        })
        .collect();
    collect_stream_lines(&summaries, stream)
        .into_iter()
        .map(|entry| match entry {
            StreamLine::Separator => "",
            StreamLine::CellLine { cell, line } => cells[cell].1[line],
        })
        .collect()
}

#[test]
fn empty_cell_changes_no_text() {
    let with = vec![
        (Conversation, vec!["hi"], false),
        (Activity, vec![], false),
        (Activity, vec!["ran"], true),
        (Conversation, vec!["bye"], false),
    ];
    let without = vec![
        (Conversation, vec!["hi"], false),
        (Activity, vec!["ran"], true),
        (Conversation, vec!["bye"], false),
    ];
    for stream in [None, Some(Conversation), Some(Activity)] {
        assert_eq!(contents(&with, stream), contents(&without, stream));
    }
    assert_eq!(contents(&with, None), vec!["hi", "ran", "", "bye"]);
}

#[test]
fn stream_pane_equals_combined_view_of_its_cells() {
    let cells = vec![
        (Conversation, vec!["hi"], false),
        (Activity, vec!["ran", "ok"], false),
        (Conversation, vec!["bye"], true),
        (Activity, vec!["edit"], false),
    ];
    let activity_only = vec![(Activity, vec!["ran", "ok"], false), (Activity, vec!["edit"], false)];
    assert_eq!(contents(&cells, Some(Activity)), contents(&activity_only, None));
    assert_eq!(contents(&cells, Some(Activity)), vec!["ran", "ok", "", "edit"]);
    assert_eq!(contents(&cells, Some(Conversation)), vec!["hi", "bye"]);
}
