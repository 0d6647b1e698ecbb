//! The order in which history cells contribute lines to a transcript pane.
use vstd::prelude::*;

verus! {

/// Which pane of the split layout a history cell belongs to.
#[derive(Clone, Copy, Debug, PartialEq, Eq, Structural)]
pub enum HistoryCellStream {
    /// User and assistant messages.
    Conversation,
    /// Tool runs, edits and other work.
    Activity,
}

/// What the transcript needs to know of one history cell to place its lines.
#[derive(Clone, Copy, Debug, PartialEq, Eq, Structural)]
pub struct CellLines {
    /// The pane the cell belongs to.
    pub stream: HistoryCellStream,
    /// How many display lines the cell has at the pane's width.
    pub line_count: usize,
    /// Whether the cell continues the cell before it, with no blank line between them.
    pub continuation: bool,
}

/// One line of a transcript pane.
#[derive(Clone, Copy, Debug, PartialEq, Eq, Structural)]
pub enum StreamLine {
    /// The blank line that separates two cells.
    Separator,
    /// Line `line` of cell `cell`.
    CellLine { cell: usize, line: usize },
}

/// Whether a cell of `stream` is shown in a pane that shows `filter` (`None`: every stream).
pub open spec fn shows(filter: Option<HistoryCellStream>, stream: HistoryCellStream) -> bool {
    match filter {
        Some(wanted) => wanted == stream,
        None => true,
    }
}

/// The lines of cell `cell`, in order.
pub open spec fn cell_line_refs(cell: int, count: nat) -> Seq<StreamLine> {
    Seq::new(count, |line: int| StreamLine::CellLine { cell: cell as usize, line: line as usize })
}

/// The lines that cells `start..` contribute to a pane showing `filter`, where `seen` tells
/// whether an earlier cell already put lines in the pane: each shown cell with lines adds them,
/// preceded by a separator when an earlier cell has lines and this cell does not continue it.
/// Cells of other streams and cells without lines add nothing.
pub open spec fn stream_lines_from(
    cells: Seq<CellLines>,
    filter: Option<HistoryCellStream>,
    start: int,
    seen: bool,
) -> Seq<StreamLine>
    decreases cells.len() - start,
{
    if start < 0 || start >= cells.len() {
        Seq::empty()
    } else {
        let cell = cells[start];
        if !shows(filter, cell.stream) || cell.line_count == 0 {
            stream_lines_from(cells, filter, start + 1, seen)
        } else {
            let separator = if seen && !cell.continuation {
                seq![StreamLine::Separator]
            } else {
                Seq::empty()
            };
            separator + cell_line_refs(start, cell.line_count as nat) + stream_lines_from(
                cells,
                filter,
                start + 1,
                true,
            )
        }
    }
}

/// The lines of a pane showing `filter`, top to bottom.
pub open spec fn stream_lines_spec(
    cells: Seq<CellLines>,
    filter: Option<HistoryCellStream>,
) -> Seq<StreamLine> {
    stream_lines_from(cells, filter, 0, false)
}

/// Lays out the lines of a pane: the committed cells followed by the live ones, in `cells`, of
/// which the pane shows those of `stream` (`None`: all of them).
pub fn collect_stream_lines(cells: &Vec<CellLines>, stream: Option<HistoryCellStream>) -> (r: Vec<
    StreamLine,
>)
    ensures
        r@ == stream_lines_spec(cells@, stream),
{
    let mut lines: Vec<StreamLine> = Vec::new();
    let mut has_visible_cell = false;
    let mut i: usize = 0;
    while i < cells.len()
        invariant
            i <= cells.len(),
            lines@ + stream_lines_from(cells@, stream, i as int, has_visible_cell)
                == stream_lines_spec(cells@, stream),
        decreases cells.len() - i,
    {
        let cell = cells[i];
        let shown = match stream {
            Some(wanted) => wanted == cell.stream,
            None => true,
        };
        if !shown || cell.line_count == 0 {
            i = i + 1;
            continue;
        }
        let ghost before = lines@;
        let ghost rest = stream_lines_from(cells@, stream, i + 1, true);
        if has_visible_cell && !cell.continuation {
            lines.push(StreamLine::Separator);
        }
        let ghost with_separator = lines@;
        let mut j: usize = 0;
        while j < cell.line_count
            invariant
                j <= cell.line_count,
                lines@ == with_separator + cell_line_refs(i as int, j as nat),
            decreases cell.line_count - j,
        {
            lines.push(StreamLine::CellLine { cell: i, line: j });
            proof {
                assert(cell_line_refs(i as int, (j + 1) as nat) =~= cell_line_refs(
                    i as int,
                    j as nat,
                ).push(StreamLine::CellLine { cell: i, line: j }));
            }
            j = j + 1;
        }
        proof {
            let separator = if has_visible_cell && !cell.continuation {
                seq![StreamLine::Separator]
            } else {
                Seq::<StreamLine>::empty()
            };
            assert(with_separator == before + separator);
            assert(stream_lines_from(cells@, stream, i as int, has_visible_cell) == separator
                + cell_line_refs(i as int, cell.line_count as nat) + rest);
            assert(lines@ + rest =~= before + (separator + cell_line_refs(
                i as int,
                cell.line_count as nat,
            ) + rest));
        }
        has_visible_cell = true;
        i = i + 1;
    }
    lines
}

/// Every line of a pane is a separator or an existing line of a cell that the pane shows, from
/// cell `start` on.
pub proof fn lemma_stream_lines_from_cells(
    cells: Seq<CellLines>,
    filter: Option<HistoryCellStream>,
    start: int,
    seen: bool,
)
    requires
        0 <= start,
        cells.len() <= usize::MAX,
    ensures
        forall|k: int|
            0 <= k < stream_lines_from(cells, filter, start, seen).len() ==> {
                let entry = #[trigger] stream_lines_from(cells, filter, start, seen)[k];
                entry matches StreamLine::CellLine { cell, line } ==> {
                    &&& start <= cell < cells.len()
                    &&& shows(filter, cells[cell as int].stream)
                    &&& line < cells[cell as int].line_count
                }
            },
    decreases cells.len() - start,
{
    if start < cells.len() {
        lemma_stream_lines_from_cells(cells, filter, start + 1, seen);
        lemma_stream_lines_from_cells(cells, filter, start + 1, true);
        let cell = cells[start];
        if shows(filter, cell.stream) && cell.line_count != 0 {
            let separator = if seen && !cell.continuation {
                seq![StreamLine::Separator]
            } else {
                Seq::empty()
            };
            let refs = cell_line_refs(start, cell.line_count as nat);
            let rest = stream_lines_from(cells, filter, start + 1, true);
            let all = stream_lines_from(cells, filter, start, seen);
            assert(all == separator + refs + rest);
            assert forall|k: int| 0 <= k < all.len() implies {
                let entry = #[trigger] all[k];
                entry matches StreamLine::CellLine { cell, line } ==> {
                    &&& start <= cell < cells.len()
                    &&& shows(filter, cells[cell as int].stream)
                    &&& line < cells[cell as int].line_count
                }
            } by {
                if k < separator.len() {
                    assert(all[k] == separator[k]);
                } else if k < separator.len() + refs.len() {
                    assert(all[k] == refs[k - separator.len()]);
                } else {
                    assert(all[k] == rest[k - separator.len() - refs.len()]);
                }
            }
        }
    }
}

/// A pane shows its lines only from cells of its stream, and only lines those cells have.
pub proof fn lemma_stream_lines_sound(cells: Seq<CellLines>, filter: Option<HistoryCellStream>)
    requires
        cells.len() <= usize::MAX,
    ensures
        forall|k: int|
            0 <= k < stream_lines_spec(cells, filter).len() ==> {
                let entry = #[trigger] stream_lines_spec(cells, filter)[k];
                entry matches StreamLine::CellLine { cell, line } ==> {
                    &&& cell < cells.len()
                    &&& shows(filter, cells[cell as int].stream)
                    &&& line < cells[cell as int].line_count
                }
            },
{
    lemma_stream_lines_from_cells(cells, filter, 0, false);
}

/// Every line of every cell from `start` on that the pane shows is in the pane.
pub proof fn lemma_stream_lines_from_complete(
    cells: Seq<CellLines>,
    filter: Option<HistoryCellStream>,
    start: int,
    seen: bool,
    cell: int,
    line: int,
)
    requires
        0 <= start <= cell < cells.len(),
        cells.len() <= usize::MAX,
        shows(filter, cells[cell].stream),
        0 <= line < cells[cell].line_count,
    ensures
        stream_lines_from(cells, filter, start, seen).contains(
            (StreamLine::CellLine { cell: cell as usize, line: line as usize }),
        ),
    decreases cell - start,
{
    let current = cells[start];
    let wanted = StreamLine::CellLine { cell: cell as usize, line: line as usize };
    let all = stream_lines_from(cells, filter, start, seen);
    if start == cell {
        let separator = if seen && !current.continuation {
            seq![StreamLine::Separator]
        } else {
            Seq::empty()
        };
        let refs = cell_line_refs(start, current.line_count as nat);
        let rest = stream_lines_from(cells, filter, start + 1, true);
        assert(all == separator + refs + rest);
        assert(all[separator.len() + line] == refs[line]);
    } else if !shows(filter, current.stream) || current.line_count == 0 {
        lemma_stream_lines_from_complete(cells, filter, start + 1, seen, cell, line);
        assert(all == stream_lines_from(cells, filter, start + 1, seen));
    } else {
        lemma_stream_lines_from_complete(cells, filter, start + 1, true, cell, line);
        let separator = if seen && !current.continuation {
            seq![StreamLine::Separator]
        } else {
            Seq::empty()
        };
        let refs = cell_line_refs(start, current.line_count as nat);
        let rest = stream_lines_from(cells, filter, start + 1, true);
        assert(all == separator + refs + rest);
        let k = choose|k: int| 0 <= k < rest.len() && rest[k] == wanted;
        assert(all[separator.len() + refs.len() + k] == wanted);
    }
}

/// A pane holds every line of every cell of its stream.
pub proof fn lemma_stream_lines_complete(
    cells: Seq<CellLines>,
    filter: Option<HistoryCellStream>,
    cell: int,
    line: int,
)
    requires
        cells.len() <= usize::MAX,
        0 <= cell < cells.len(),
        shows(filter, cells[cell].stream),
        0 <= line < cells[cell].line_count,
    ensures
        stream_lines_spec(cells, filter).contains(
            (StreamLine::CellLine { cell: cell as usize, line: line as usize }),
        ),
{
    lemma_stream_lines_from_complete(cells, filter, 0, false, cell, line);
}

/// A separator only ever stands between two cells: before any cell has lines there is none, so
/// a pane never starts with a blank line.
pub proof fn lemma_stream_lines_from_unseen_start(
    cells: Seq<CellLines>,
    filter: Option<HistoryCellStream>,
    start: int,
)
    requires
        0 <= start,
    ensures
        stream_lines_from(cells, filter, start, false).len() > 0 ==> stream_lines_from(
            cells,
            filter,
            start,
            false,
        )[0] != StreamLine::Separator,
    decreases cells.len() - start,
{
    if start < cells.len() {
        lemma_stream_lines_from_unseen_start(cells, filter, start + 1);
        let cell = cells[start];
        if shows(filter, cell.stream) && cell.line_count != 0 {
            let refs = cell_line_refs(start, cell.line_count as nat);
            let rest = stream_lines_from(cells, filter, start + 1, true);
            assert(stream_lines_from(cells, filter, start, false) == Seq::<StreamLine>::empty()
                + refs + rest);
            assert(stream_lines_from(cells, filter, start, false)[0] == refs[0]);
        }
    }
}

/// A pane never starts with a blank separator line.
pub proof fn lemma_stream_lines_start_with_cell_line(
    cells: Seq<CellLines>,
    filter: Option<HistoryCellStream>,
)
    ensures
        stream_lines_spec(cells, filter).len() > 0 ==> stream_lines_spec(cells, filter)[0]
            != StreamLine::Separator,
{
    lemma_stream_lines_from_unseen_start(cells, filter, 0);
}

/// The cell summaries of cells given with their lines.
pub open spec fn cell_summaries<L>(cells: Seq<(CellLines, Seq<L>)>) -> Seq<CellLines> {
    cells.map_values(|cell: (CellLines, Seq<L>)| cell.0)
}

/// The lines of cells given with their summaries.
pub open spec fn cell_lines<L>(cells: Seq<(CellLines, Seq<L>)>) -> Seq<Seq<L>> {
    cells.map_values(|cell: (CellLines, Seq<L>)| cell.1)
}

/// Whether each summary counts its cell's lines.
pub open spec fn summaries_count_lines<L>(cells: Seq<(CellLines, Seq<L>)>) -> bool {
    forall|i: int| 0 <= i < cells.len() ==> (#[trigger] cells[i]).0.line_count == cells[i].1.len()
}

/// The text of a pane's lines: `blank` for a separator, the referenced line of a cell otherwise.
pub open spec fn line_contents<L>(plan: Seq<StreamLine>, lines: Seq<Seq<L>>, blank: L) -> Seq<L> {
    plan.map_values(
        |entry: StreamLine|
            match entry {
                StreamLine::Separator => blank,
                StreamLine::CellLine { cell, line } => lines[cell as int][line as int],
            },
    )
}

/// The text of a pane showing `filter`, for cells given with their lines.
pub open spec fn stream_contents<L>(
    cells: Seq<(CellLines, Seq<L>)>,
    filter: Option<HistoryCellStream>,
    blank: L,
) -> Seq<L> {
    line_contents(stream_lines_spec(cell_summaries(cells), filter), cell_lines(cells), blank)
}

/// The cells a pane showing `filter` draws: those of its stream that have lines, in order.
pub open spec fn visible_cells<L>(
    cells: Seq<(CellLines, Seq<L>)>,
    filter: Option<HistoryCellStream>,
) -> Seq<(CellLines, Seq<L>)>
    decreases cells.len(),
{
    if cells.len() == 0 {
        Seq::empty()
    } else {
        let rest = visible_cells(cells.drop_first(), filter);
        if shows(filter, cells[0].0.stream) && cells[0].1.len() > 0 {
            seq![cells[0]] + rest
        } else {
            rest
        }
    }
}

/// The lines of `cells` one after the other, with a `blank` line before each cell that is not a
/// continuation and follows a cell (`seen`: a cell came before the first of `cells`).
pub open spec fn joined_lines<L>(cells: Seq<(CellLines, Seq<L>)>, blank: L, seen: bool) -> Seq<L>
    decreases cells.len(),
{
    if cells.len() == 0 {
        Seq::empty()
    } else {
        let separator = if seen && !cells[0].0.continuation {
            seq![blank]
        } else {
            Seq::empty()
        };
        separator + cells[0].1 + joined_lines(cells.drop_first(), blank, true)
    }
}

/// The cells of `cells` that belong to `stream`, in order.
pub open spec fn cells_of_stream<L>(cells: Seq<(CellLines, Seq<L>)>, stream: HistoryCellStream) -> Seq<
    (CellLines, Seq<L>),
>
    decreases cells.len(),
{
    if cells.len() == 0 {
        Seq::empty()
    } else {
        let rest = cells_of_stream(cells.drop_first(), stream);
        if cells[0].0.stream == stream {
            seq![cells[0]] + rest
        } else {
            rest
        }
    }
}

proof fn lemma_line_contents_concat<L>(
    first: Seq<StreamLine>,
    second: Seq<StreamLine>,
    lines: Seq<Seq<L>>,
    blank: L,
)
    ensures
        line_contents(first + second, lines, blank) == line_contents(first, lines, blank)
            + line_contents(second, lines, blank),
{
    assert(line_contents(first + second, lines, blank) =~= line_contents(first, lines, blank)
        + line_contents(second, lines, blank));
}

proof fn lemma_stream_contents_from<L>(
    cells: Seq<(CellLines, Seq<L>)>,
    filter: Option<HistoryCellStream>,
    blank: L,
    start: int,
    seen: bool,
)
    requires
        0 <= start <= cells.len(),
        cells.len() <= usize::MAX,
        summaries_count_lines(cells),
    ensures
        line_contents(
            stream_lines_from(cell_summaries(cells), filter, start, seen),
            cell_lines(cells),
            blank,
        ) == joined_lines(visible_cells(cells.subrange(start, cells.len() as int), filter), blank, seen),
    decreases cells.len() - start,
{
    let summaries = cell_summaries(cells);
    let lines = cell_lines(cells);
    let tail = cells.subrange(start, cells.len() as int);
    if start == cells.len() {
        assert(tail =~= Seq::<(CellLines, Seq<L>)>::empty());
        assert(line_contents(stream_lines_from(summaries, filter, start, seen), lines, blank)
            =~= Seq::<L>::empty());
    } else {
        assert(tail.drop_first() =~= cells.subrange(start + 1, cells.len() as int));
        assert(tail[0] == cells[start]);
        assert(summaries[start] == cells[start].0);
        assert(cells[start].0.line_count == cells[start].1.len());
        let cell = summaries[start];
        if !shows(filter, cell.stream) || cell.line_count == 0 {
            lemma_stream_contents_from(cells, filter, blank, start + 1, seen);
        } else {
            lemma_stream_contents_from(cells, filter, blank, start + 1, true);
            let separator = if seen && !cell.continuation {
                seq![StreamLine::Separator]
            } else {
                Seq::<StreamLine>::empty()
            };
            let refs = cell_line_refs(start, cell.line_count as nat);
            let rest = stream_lines_from(summaries, filter, start + 1, true);
            lemma_line_contents_concat(separator + refs, rest, lines, blank);
            lemma_line_contents_concat(separator, refs, lines, blank);
            assert(line_contents(refs, lines, blank) =~= cells[start].1);
            let visible = visible_cells(tail, filter);
            let visible_rest = visible_cells(tail.drop_first(), filter);
            assert(visible == seq![tail[0]] + visible_rest);
            assert(visible.drop_first() =~= visible_rest);
            assert(visible[0] == cells[start]);
            if seen && !cell.continuation {
                assert(line_contents(separator, lines, blank) =~= seq![blank]);
            } else {
                assert(line_contents(separator, lines, blank) =~= Seq::<L>::empty());
            }
        }
    }
}

/// A pane's text is the lines of the cells it draws (those of its stream that have lines), one
/// after the other, with a blank line before every cell but the first that does not continue
/// the cell before it.
pub proof fn lemma_stream_contents_join_visible_cells<L>(
    cells: Seq<(CellLines, Seq<L>)>,
    filter: Option<HistoryCellStream>,
    blank: L,
)
    requires
        cells.len() <= usize::MAX,
        summaries_count_lines(cells),
    ensures
        stream_contents(cells, filter, blank) == joined_lines(visible_cells(cells, filter), blank, false),
{
    lemma_stream_contents_from(cells, filter, blank, 0, false);
    assert(cells.subrange(0, cells.len() as int) =~= cells);
}

proof fn lemma_visible_cells_skip_empty<L>(
    before: Seq<(CellLines, Seq<L>)>,
    empty: (CellLines, Seq<L>),
    after: Seq<(CellLines, Seq<L>)>,
    filter: Option<HistoryCellStream>,
)
    requires
        empty.1.len() == 0,
    ensures
        visible_cells(before + seq![empty] + after, filter) == visible_cells(before + after, filter),
    decreases before.len(),
{
    if before.len() == 0 {
        assert(before + seq![empty] + after =~= seq![empty] + after);
        assert((seq![empty] + after).drop_first() =~= after);
        assert(before + after =~= after);
    } else {
        lemma_visible_cells_skip_empty(before.drop_first(), empty, after, filter);
        assert((before + seq![empty] + after).drop_first() =~= before.drop_first() + seq![empty]
            + after);
        assert((before + after).drop_first() =~= before.drop_first() + after);
    }
}

/// A cell without lines changes nothing in any pane: removing it leaves the pane's text as it
/// was.
pub proof fn lemma_empty_cell_changes_nothing<L>(
    before: Seq<(CellLines, Seq<L>)>,
    empty: (CellLines, Seq<L>),
    after: Seq<(CellLines, Seq<L>)>,
    filter: Option<HistoryCellStream>,
    blank: L,
)
    requires
        before.len() + 1 + after.len() <= usize::MAX,
        summaries_count_lines(before + seq![empty] + after),
        empty.1.len() == 0,
    ensures
        stream_contents(before + seq![empty] + after, filter, blank) == stream_contents(
            before + after,
            filter,
            blank,
        ),
{
    let with = before + seq![empty] + after;
    let without = before + after;
    assert forall|i: int| 0 <= i < without.len() implies (#[trigger] without[i]).0.line_count
        == without[i].1.len() by {
        if i < before.len() {
            assert(without[i] == with[i]);
        } else {
            assert(without[i] == with[i + 1]);
        }
    }
    lemma_stream_contents_join_visible_cells(with, filter, blank);
    lemma_stream_contents_join_visible_cells(without, filter, blank);
    lemma_visible_cells_skip_empty(before, empty, after, filter);
}

proof fn lemma_visible_cells_of_stream<L>(cells: Seq<(CellLines, Seq<L>)>, stream: HistoryCellStream)
    ensures
        visible_cells(cells_of_stream(cells, stream), None) == visible_cells(cells, Some(stream)),
    decreases cells.len(),
{
    if cells.len() > 0 {
        lemma_visible_cells_of_stream(cells.drop_first(), stream);
        let rest = cells_of_stream(cells.drop_first(), stream);
        if cells[0].0.stream == stream {
            let kept = seq![cells[0]] + rest;
            assert(kept.drop_first() =~= rest);
            assert(kept[0] == cells[0]);
        }
    }
}

proof fn lemma_cells_of_stream_keep<L>(cells: Seq<(CellLines, Seq<L>)>, stream: HistoryCellStream)
    requires
        summaries_count_lines(cells),
    ensures
        summaries_count_lines(cells_of_stream(cells, stream)),
        cells_of_stream(cells, stream).len() <= cells.len(),
    decreases cells.len(),
{
    if cells.len() > 0 {
        assert(summaries_count_lines(cells.drop_first())) by {
            assert forall|i: int| 0 <= i < cells.drop_first().len() implies (
            #[trigger] cells.drop_first()[i]).0.line_count == cells.drop_first()[i].1.len() by {
                assert(cells.drop_first()[i] == cells[i + 1]);
            }
        }
        lemma_cells_of_stream_keep(cells.drop_first(), stream);
        let rest = cells_of_stream(cells.drop_first(), stream);
        if cells[0].0.stream == stream {
            let kept = seq![cells[0]] + rest;
            assert forall|i: int| 0 <= i < kept.len() implies (#[trigger] kept[i]).0.line_count
                == kept[i].1.len() by {
                if i > 0 {
                    assert(kept[i] == rest[i - 1]);
                }
            }
        }
    }
}

/// A pane that shows one stream holds the same text as the combined column would for only that
/// stream's cells.
pub proof fn lemma_stream_pane_is_filtered_combined<L>(
    cells: Seq<(CellLines, Seq<L>)>,
    stream: HistoryCellStream,
    blank: L,
)
    requires
        cells.len() <= usize::MAX,
        summaries_count_lines(cells),
    ensures
        stream_contents(cells, Some(stream), blank) == stream_contents(
            cells_of_stream(cells, stream),
            None,
            blank,
        ),
{
    lemma_cells_of_stream_keep(cells, stream);
    lemma_stream_contents_join_visible_cells(cells, Some(stream), blank);
    lemma_stream_contents_join_visible_cells(cells_of_stream(cells, stream), None, blank);
    lemma_visible_cells_of_stream(cells, stream);
}

/// Whether `next` may follow `entry` in a pane: a cell's lines come in order; a cell that
/// continues the one before follows its last line directly; a separator follows a cell's last
/// line and precedes the first line of a cell that does not continue the one before.
pub open spec fn may_follow(cells: Seq<CellLines>, entry: StreamLine, next: StreamLine) -> bool {
    match (entry, next) {
        (
            StreamLine::CellLine { cell: c1, line: l1 },
            StreamLine::CellLine { cell: c2, line: l2 },
        ) => (c1 == c2 && l2 == l1 + 1) || (c1 < c2 && l1 + 1 == cells[c1 as int].line_count
            && l2 == 0 && cells[c2 as int].continuation),
        (StreamLine::CellLine { cell: c1, line: l1 }, StreamLine::Separator) => l1 + 1
            == cells[c1 as int].line_count,
        (StreamLine::Separator, StreamLine::CellLine { cell: c2, line: l2 }) => l2 == 0
            && !cells[c2 as int].continuation,
        (StreamLine::Separator, StreamLine::Separator) => false,
    }
}

/// Whether the cell line `a` names an earlier line than the cell line `b`.
pub open spec fn line_before(a: StreamLine, b: StreamLine) -> bool {
    match (a, b) {
        (
            StreamLine::CellLine { cell: c1, line: l1 },
            StreamLine::CellLine { cell: c2, line: l2 },
        ) => c1 < c2 || (c1 == c2 && l1 < l2),
        _ => true,
    }
}

/// The shape of a pane's lines: neighbours may follow each other, cell lines come in the order
/// of the cells and of their lines, no separator ends the pane, and the last entry is the last
/// line of a cell.
pub open spec fn well_joined(cells: Seq<CellLines>, lines: Seq<StreamLine>) -> bool {
    &&& forall|k: int|
        0 <= k < lines.len() - 1 ==> may_follow(cells, #[trigger] lines[k], lines[k + 1])
    &&& forall|i: int, j: int|
        0 <= i < j < lines.len() ==> line_before(#[trigger] lines[i], #[trigger] lines[j])
    &&& lines.len() > 0 ==> (lines.last() matches StreamLine::CellLine { cell, line } && line + 1
        == cells[cell as int].line_count)
}

proof fn lemma_stream_lines_from_shape(
    cells: Seq<CellLines>,
    filter: Option<HistoryCellStream>,
    start: int,
    seen: bool,
)
    requires
        0 <= start,
        cells.len() <= usize::MAX,
    ensures
        well_joined(cells, stream_lines_from(cells, filter, start, seen)),
        ({
            let lines = stream_lines_from(cells, filter, start, seen);
            lines.len() > 0 ==> (if seen {
                lines[0] == StreamLine::Separator || (lines[0] matches StreamLine::CellLine {
                    cell,
                    line,
                } && line == 0 && cells[cell as int].continuation)
            } else {
                lines[0] matches StreamLine::CellLine { line, .. } && line == 0
            })
        }),
    decreases cells.len() - start,
{
    if start < cells.len() {
        lemma_stream_lines_from_shape(cells, filter, start + 1, seen);
        lemma_stream_lines_from_shape(cells, filter, start + 1, true);
        lemma_stream_lines_from_cells(cells, filter, start + 1, true);
        let cell = cells[start];
        if shows(filter, cell.stream) && cell.line_count != 0 {
            let sep = if seen && !cell.continuation {
                seq![StreamLine::Separator]
            } else {
                Seq::empty()
            };
            let refs = cell_line_refs(start, cell.line_count as nat);
            let rest = stream_lines_from(cells, filter, start + 1, true);
            let all = stream_lines_from(cells, filter, start, seen);
            assert(all == sep + refs + rest);
            let ns = sep.len() as int;
            let nr = refs.len() as int;
            assert forall|k: int| 0 <= k < ns + nr implies #[trigger] all[k] == (if k < ns {
                StreamLine::Separator
            } else {
                StreamLine::CellLine { cell: start as usize, line: (k - ns) as usize }
            }) by {
                if k < ns {
                    assert(all[k] == sep[k]);
                } else {
                    assert(all[k] == refs[k - ns]);
                }
            }
            assert forall|k: int| ns + nr <= k < all.len() implies #[trigger] all[k] == rest[k - ns
                - nr] by {}
            assert forall|k: int| 0 <= k < all.len() - 1 implies may_follow(
                cells,
                #[trigger] all[k],
                all[k + 1],
            ) by {
                if k >= ns + nr {
                    assert(all[k + 1] == rest[k + 1 - ns - nr]);
                } else if k == ns + nr - 1 {
                    assert(all[k + 1] == rest[0]);
                    assert(rest[0] is CellLine ==> rest[0]->cell > start);
                }
            }
            assert forall|i: int, j: int| 0 <= i < j < all.len() implies line_before(
                #[trigger] all[i],
                #[trigger] all[j],
            ) by {
                if i >= ns + nr {
                    assert(line_before(rest[i - ns - nr], rest[j - ns - nr]));
                } else if j >= ns + nr {
                    assert(rest[j - ns - nr] is CellLine ==> rest[j - ns - nr]->cell > start);
                }
            }
            if rest.len() == 0 {
                assert(all.last() == all[ns + nr - 1]);
            } else {
                assert(all.last() == rest.last());
            }
        }
    }
}

/// A pane's lines have the joined shape: each cell's lines in order and together, cells in
/// their order, a separator exactly between a cell and a following cell that does not continue
/// it, never at the start or the end.
pub proof fn lemma_stream_lines_shape(cells: Seq<CellLines>, filter: Option<HistoryCellStream>)
    requires
        cells.len() <= usize::MAX,
    ensures
        well_joined(cells, stream_lines_spec(cells, filter)),
        stream_lines_spec(cells, filter).len() > 0 ==> (stream_lines_spec(cells, filter)[0] matches
            StreamLine::CellLine { line, .. } && line == 0),
{
    lemma_stream_lines_from_shape(cells, filter, 0, false);
}

} // verus!
