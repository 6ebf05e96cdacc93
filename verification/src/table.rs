//! The process table: which rows are shown, how each is written and styled,
//! the header with its sort arrow, the column widths and the frame.

use crate::layout::{inset, inset_area};
use crate::plan::{
    row_models, string_views, BlockModel, BlockPlan, BorderKind, RowModel, StyleRole,
    StyledRow, TableModel, TablePlan,
};
use crate::scroll::{
    direction_agrees, in_window, lemma_top_row_idempotent, lemma_window_holds_position,
    next_top, top_row, ScrollDirection,
};
use crate::state::{Area, Focus, PanelState, ProcessRow, ScrollState, SearchState, SortKey};
use crate::text::{decimal, decimal_string, percent, percent_string, push_horizontals, run_of};
use crate::widths::{as_nats, column_widths, kept_widths, width_sum};
use vstd::prelude::*;

verus! {

/// The rows that fit below the header: the rectangle's height less two
/// border rows, the header and two rows of padding.
pub open spec fn row_count_visible(rect_h: int) -> int {
    if rect_h > 5 {
        rect_h - 5
    } else {
        0
    }
}

/// The selection as used for this frame: the host's, or the last row where
/// the host's lies behind it.
pub open spec fn local_selection(selection: int, row_count: int) -> int {
    if row_count <= 0 {
        0
    } else if selection > row_count - 1 {
        row_count - 1
    } else {
        selection
    }
}

/// The top row of the table window for this frame.
pub open spec fn table_top(state: PanelState, rect_h: int, row_count: int) -> int {
    top_row(
        row_count_visible(rect_h),
        state.scroll.direction,
        state.scroll.previous_top as int,
        local_selection(state.scroll.current_selection as int, row_count),
        state.is_resized,
        row_count,
    )
}

/// The cells of a row: identifier, name, CPU and memory usage.
pub open spec fn row_cells(row: ProcessRow) -> Seq<Seq<char>> {
    seq![
        decimal(row.identifier as nat),
        row.name@,
        percent(row.cpu_usage as nat),
        percent(row.mem_usage as nat),
    ]
}

/// The style of the row with the absolute index `index`: selected where it is
/// the selection and the table has the focus.
pub open spec fn row_style(focus: Focus, index: int, selection: int) -> StyleRole {
    if focus == Focus::Table && index == selection {
        StyleRole::Selected
    } else {
        StyleRole::Text
    }
}

/// The rows from `top` to the last, in the order given.
pub open spec fn table_rows(
    rows: Seq<ProcessRow>,
    top: int,
    selection: int,
    focus: Focus,
) -> Seq<RowModel> {
    Seq::new(
        (rows.len() - top) as nat,
        |j: int|
            RowModel {
                cells: row_cells(rows[top + j]),
                style: row_style(focus, top + j, selection),
            },
    )
}

/// The arrow behind the header of the sorted column.
pub open spec fn sort_arrow(reverse: bool) -> Seq<char> {
    if reverse {
        "▼"@
    } else {
        "▲"@
    }
}

/// A header label, with the arrow where its column is the sorted one.
pub open spec fn header_label(label: Seq<char>, sorted: bool, reverse: bool) -> Seq<char> {
    if sorted {
        label + sort_arrow(reverse)
    } else {
        label
    }
}

/// The four header labels. The label of the sorted column, if there is one,
/// carries the arrow.
pub open spec fn header_labels(
    grouped: bool,
    sort_key: Option<SortKey>,
    reverse: bool,
) -> Seq<Seq<char>> {
    seq![
        header_label(
            if grouped {
                "Count"@
            } else {
                "PID(p)"@
            },
            sort_key == Some(SortKey::Pid),
            reverse,
        ),
        header_label("Name(n)"@, sort_key == Some(SortKey::Name), reverse),
        header_label("CPU%(c)"@, sort_key == Some(SortKey::Cpu), reverse),
        header_label("Mem%(m)"@, sort_key == Some(SortKey::Mem), reverse),
    ]
}

/// The weights of the four columns: a fifth, two fifths, a fifth and a fifth
/// of the width.
pub open spec fn column_weights() -> Seq<u32> {
    seq![20u32, 40u32, 20u32, 20u32]
}

/// The least width of each column: the length of its header label.
pub open spec fn header_minima(labels: Seq<Seq<char>>) -> Seq<usize> {
    Seq::new(labels.len(), |i: int| labels[i].len() as usize)
}

/// The number of horizontals that fill the title of an expanded table.
pub open spec fn table_title_fill(rect_w: int) -> nat {
    if rect_w > 31 {
        (rect_w - 31) as nat
    } else {
        0
    }
}

/// The table's title.
pub open spec fn table_title(
    rect_w: int,
    expanded: bool,
    searching: bool,
    draw_border: bool,
) -> Seq<char> {
    if !draw_border {
        Seq::empty()
    } else if expanded && !searching {
        " Processes ─"@ + run_of('─', table_title_fill(rect_w)) + "─ Esc to go back "@
    } else {
        " Processes "@
    }
}

/// The table's frame.
pub open spec fn table_block(state: PanelState, rect_w: int, draw_border: bool) -> BlockModel {
    let focused = state.selection == Focus::Table;
    let border_style = if focused {
        StyleRole::HighlightedBorder
    } else {
        StyleRole::Border
    };
    if draw_border {
        BlockModel {
            title: table_title(rect_w, state.is_expanded, state.is_searching, draw_border),
            title_style: if state.is_expanded && focused {
                StyleRole::HighlightedBorder
            } else {
                StyleRole::WidgetTitle
            },
            borders: BorderKind::Full,
            border_style: border_style,
        }
    } else if focused {
        BlockModel {
            title: Seq::empty(),
            title_style: StyleRole::Plain,
            borders: BorderKind::Sides,
            border_style: border_style,
        }
    } else {
        BlockModel {
            title: Seq::empty(),
            title_style: StyleRole::Plain,
            borders: BorderKind::Hidden,
            border_style: StyleRole::Plain,
        }
    }
}

/// The cells left free at each side of the table: one where neither a border
/// nor the focus marks its edge.
pub open spec fn table_margin(focus: Focus, draw_border: bool) -> u16 {
    if focus != Focus::Table && !draw_border {
        1
    } else {
        0
    }
}

/// The table for a state, the frame's rows and a rectangle.
pub open spec fn table_model(
    state: PanelState,
    rows: Seq<ProcessRow>,
    area: Area,
    draw_border: bool,
) -> TableModel {
    let labels = header_labels(state.is_grouped, state.sort_key, state.sort_reverse);
    TableModel {
        area: inset(area, table_margin(state.selection, draw_border)),
        headers: labels,
        rows: table_rows(
            rows,
            table_top(state, area.height as int, rows.len() as int),
            local_selection(state.scroll.current_selection as int, rows.len() as int),
            state.selection,
        ),
        widths: kept_widths(area.width as int, column_weights(), header_minima(labels)),
        block: table_block(state, area.width as int, draw_border),
    }
}

/// The state after the table was drawn: the window's top row is written back.
pub open spec fn with_top(state: PanelState, top: u64) -> PanelState {
    PanelState { scroll: ScrollState { previous_top: top, ..state.scroll }, ..state }
}

fn write_top(state: &mut PanelState, top: u64)
    ensures
        *final(state) == with_top(*old(state), top),
{
    state.scroll.previous_top = top;
}

/// Writes the cells of one row.
pub fn row_cells_of(row: &ProcessRow) -> (cells: Vec<String>)
    ensures
        string_views(cells@) == row_cells(*row),
{
    let mut cells: Vec<String> = Vec::new();
    cells.push(decimal_string(row.identifier));
    cells.push(row.name.clone());
    cells.push(percent_string(row.cpu_usage));
    cells.push(percent_string(row.mem_usage));
    assert(string_views(cells@) =~= row_cells(*row));
    cells
}

/// Writes and styles the rows from `top` to the last.
pub fn table_rows_of(
    rows: &Vec<ProcessRow>,
    top: usize,
    selection: usize,
    focus: Focus,
) -> (out: Vec<StyledRow>)
    requires
        top <= rows.len(),
    ensures
        row_models(out@) == table_rows(rows@, top as int, selection as int, focus),
{
    let mut out: Vec<StyledRow> = Vec::new();
    let mut i: usize = top;
    while i < rows.len()
        invariant
            top <= i <= rows.len(),
            out.len() == i - top,
            forall|j: int|
                0 <= j < out.len() ==> (#[trigger] out[j])@ == (RowModel {
                    cells: row_cells(rows[top + j]),
                    style: row_style(focus, top + j, selection as int),
                }),
        decreases rows.len() - i,
    {
        let style = if focus == Focus::Table && i == selection {
            StyleRole::Selected
        } else {
            StyleRole::Text
        };
        out.push(StyledRow { cells: row_cells_of(&rows[i]), style });
        i = i + 1;
    }
    assert(row_models(out@) =~= table_rows(rows@, top as int, selection as int, focus));
    out
}

fn header_of(label: &'static str, sorted: bool, reverse: bool) -> (text: String)
    ensures
        text@ == header_label(label@, sorted, reverse),
{
    let mut text = String::from_str(label);
    if sorted {
        text.append(
            if reverse {
                "▼"
            } else {
                "▲"
            },
        );
    }
    text
}

fn sorted_by(sort_key: Option<SortKey>, key: SortKey) -> (sorted: bool)
    ensures
        sorted == (sort_key == Some(key)),
{
    match sort_key {
        Some(active) => active == key,
        None => false,
    }
}

/// Writes the four header labels.
pub fn header_labels_of(
    grouped: bool,
    sort_key: Option<SortKey>,
    reverse: bool,
) -> (labels: Vec<String>)
    ensures
        string_views(labels@) == header_labels(grouped, sort_key, reverse),
{
    let mut labels: Vec<String> = Vec::new();
    labels.push(
        header_of(
            if grouped {
                "Count"
            } else {
                "PID(p)"
            },
            sorted_by(sort_key, SortKey::Pid),
            reverse,
        ),
    );
    labels.push(header_of("Name(n)", sorted_by(sort_key, SortKey::Name), reverse));
    labels.push(header_of("CPU%(c)", sorted_by(sort_key, SortKey::Cpu), reverse));
    labels.push(header_of("Mem%(m)", sorted_by(sort_key, SortKey::Mem), reverse));
    assert(string_views(labels@) =~= header_labels(grouped, sort_key, reverse));
    labels
}

/// Measures the header labels: the least width of each column.
pub fn header_minima_of(labels: &Vec<String>) -> (mins: Vec<usize>)
    ensures
        mins@ == header_minima(string_views(labels@)),
{
    let mut mins: Vec<usize> = Vec::new();
    let mut i: usize = 0;
    while i < labels.len()
        invariant
            i <= labels.len(),
            mins.len() == i,
            forall|j: int| 0 <= j < i ==> mins[j] == labels[j]@.len() as usize,
        decreases labels.len() - i,
    {
        mins.push(labels[i].as_str().unicode_len());
        i = i + 1;
    }
    assert(mins@ =~= header_minima(string_views(labels@)));
    mins
}

/// Builds the table's frame.
pub fn table_block_of(state: &PanelState, rect_w: u16, draw_border: bool) -> (block: BlockPlan)
    ensures
        block@ == table_block(*state, rect_w as int, draw_border),
{
    let focused = state.selection == Focus::Table;
    let border_style = if focused {
        StyleRole::HighlightedBorder
    } else {
        StyleRole::Border
    };
    if draw_border {
        let title = if state.is_expanded && !state.is_searching {
            let fill: usize = if rect_w > 31 {
                (rect_w - 31) as usize
            } else {
                0
            };
            let mut title = String::from_str(" Processes ─");
            push_horizontals(&mut title, fill);
            title.append("─ Esc to go back ");
            title
        } else {
            String::from_str(" Processes ")
        };
        BlockPlan {
            title,
            title_style: if state.is_expanded && focused {
                StyleRole::HighlightedBorder
            } else {
                StyleRole::WidgetTitle
            },
            borders: BorderKind::Full,
            border_style,
        }
    } else if focused {
        BlockPlan {
            title: String::new(),
            title_style: StyleRole::Plain,
            borders: BorderKind::Sides,
            border_style,
        }
    } else {
        BlockPlan {
            title: String::new(),
            title_style: StyleRole::Plain,
            borders: BorderKind::Hidden,
            border_style: StyleRole::Plain,
        }
    }
}

/// Lays out the table for `area` and says where its window starts, without
/// touching the state.
///
/// The selection is held to the rows that exist; the window is moved by the
/// scroll policy; the rows from its top on are written and styled in the
/// order given; the columns share the rectangle's width, none narrower than
/// its header label. The table is drawn into the rectangle, inset by one
/// cell at each side where neither a border nor the focus marks its edge.
pub fn plan_table(
    state: &PanelState,
    rows: &Vec<ProcessRow>,
    area: Area,
    draw_border: bool,
) -> (planned: (TablePlan, u64))
    requires
        area.wf(),
    ensures
        planned.0@ == table_model(*state, rows@, area, draw_border),
        planned.1 == table_top(*state, area.height as int, rows.len() as int),
        width_sum(planned.0@.widths, planned.0@.widths.len() as int) <= area.width,
        forall|i: int| 0 <= i < planned.0@.widths.len() ==> planned.0@.widths[i] >= 1,
{
    let viewport_rows: u64 = if area.height > 5 {
        (area.height - 5) as u64
    } else {
        0
    };
    let row_count: u64 = rows.len() as u64;
    let selection: u64 = if row_count == 0 {
        0
    } else if state.scroll.current_selection > row_count - 1 {
        row_count - 1
    } else {
        state.scroll.current_selection
    };
    let mut top_bar = state.scroll.previous_top;
    let top = next_top(
        viewport_rows,
        state.scroll.direction,
        &mut top_bar,
        selection,
        state.is_resized,
        row_count,
    );
    let styled = table_rows_of(rows, top as usize, selection as usize, state.selection);

    let headers = header_labels_of(state.is_grouped, state.sort_key, state.sort_reverse);
    let mins = header_minima_of(&headers);
    let mut weights: Vec<u32> = Vec::new();
    weights.push(20);
    weights.push(40);
    weights.push(20);
    weights.push(20);
    assert(weights@ =~= column_weights());
    let widths = column_widths(area.width, &weights, &mins);

    let block = table_block_of(state, area.width, draw_border);
    let margin: u16 = if state.selection != Focus::Table && !draw_border {
        1
    } else {
        0
    };
    let plan = TablePlan {
        area: inset_area(area, margin),
        headers,
        rows: styled,
        widths,
        block,
    };
    assert(plan@.widths == as_nats(widths@));
    (plan, top)
}

/// The state after the table was drawn into a rectangle of height `rect_h`.
pub open spec fn after_table(state: PanelState, rect_h: int, row_count: int) -> PanelState {
    with_top(state, table_top(state, rect_h, row_count) as u64)
}

/// Lays out the table for `area` and writes the window's top row back to the
/// state. Nothing else in the state changes.
pub fn draw_table(
    state: &mut PanelState,
    rows: &Vec<ProcessRow>,
    area: Area,
    draw_border: bool,
) -> (plan: TablePlan)
    requires
        area.wf(),
    ensures
        plan@ == table_model(*old(state), rows@, area, draw_border),
        *final(state) == after_table(*old(state), area.height as int, rows.len() as int),
        width_sum(plan@.widths, plan@.widths.len() as int) <= area.width,
        forall|i: int| 0 <= i < plan@.widths.len() ==> plan@.widths[i] >= 1,
{
    let (plan, top) = plan_table(state, rows, area, draw_border);
    write_top(state, top);
    plan
}

/// The inputs on which a frame leaves the host's selection inside the window.
///
/// At least one row must fit. Where the window stays, the host's selection
/// must lie before its end. Where the frame's selection lies above the
/// window, the window follows it moving up; moving down it stays, and only
/// the clamp to the last row can bring it back. Where the frame's selection
/// lies below the window, the window follows it moving down, which shows a
/// selection that is a row; moving up it stays.
pub open spec fn shows_selection(state: PanelState, rect_h: int, row_count: int) -> bool {
    let viewport = row_count_visible(rect_h);
    let base = if state.is_resized {
        0
    } else {
        state.scroll.previous_top as int
    };
    let selection = state.scroll.current_selection as int;
    let local = local_selection(selection, row_count);
    let down = state.scroll.direction == ScrollDirection::Down;
    let last = row_count - 1;
    &&& viewport >= 1
    &&& if in_window(base, viewport, local) {
        selection < base + viewport
    } else if local < base {
        if down {
            base > last && last <= selection < last + viewport
        } else {
            selection < local + viewport
        }
    } else {
        down && selection < row_count
    }
}

/// Whether the state, as a frame leaves it, has the selection in the window.
pub open spec fn selection_in_window(after: PanelState, rect_h: int) -> bool {
    &&& after.scroll.previous_top <= after.scroll.current_selection
    &&& after.scroll.current_selection < after.scroll.previous_top + row_count_visible(rect_h)
}

/// With rows to show and a rectangle of five rows or more, the selection lies
/// in the window after a frame exactly on the inputs that `shows_selection`
/// describes.
pub proof fn lemma_selection_in_window_iff(state: PanelState, rect_h: int, row_count: int)
    requires
        row_count > 0,
        rect_h >= 5,
    ensures
        selection_in_window(with_top(state, table_top(state, rect_h, row_count) as u64), rect_h)
            <==> shows_selection(state, rect_h, row_count),
{
}

/// After a frame the selection lies in the table window, provided that there
/// are rows, that the selection is one of them, that at least one row fits
/// below the header and that the scroll direction agrees with where the
/// selection lies relative to the window.
pub proof fn lemma_selection_in_window(state: PanelState, rect_h: int, row_count: int)
    requires
        row_count > 0,
        rect_h >= 6,
        state.scroll.current_selection < row_count,
        direction_agrees(
            row_count_visible(rect_h),
            state.scroll.direction == ScrollDirection::Down,
            state.scroll.previous_top as int,
            state.scroll.current_selection as int,
            state.is_resized,
        ),
    ensures
        selection_in_window(with_top(state, table_top(state, rect_h, row_count) as u64), rect_h),
{
    lemma_window_holds_position(
        row_count_visible(rect_h),
        state.scroll.direction == ScrollDirection::Down,
        state.scroll.previous_top as int,
        state.scroll.current_selection as int,
        state.is_resized,
    );
}

/// Drawing the same frame again changes nothing: from the state that the
/// first frame left, the second computes the same top row, so the same
/// write-back, and the same table.
pub proof fn lemma_table_idempotent(
    state: PanelState,
    rows: Seq<ProcessRow>,
    area: Area,
    draw_border: bool,
)
    requires
        rows.len() <= u64::MAX,
    ensures
        ({
            let top = table_top(state, area.height as int, rows.len() as int);
            let after = with_top(state, top as u64);
            &&& table_top(after, area.height as int, rows.len() as int) == top
            &&& with_top(after, top as u64) == after
            &&& table_model(after, rows, area, draw_border) == table_model(
                state,
                rows,
                area,
                draw_border,
            )
        }),
{
    lemma_top_row_idempotent(
        row_count_visible(area.height as int),
        state.scroll.direction,
        state.scroll.previous_top as int,
        local_selection(state.scroll.current_selection as int, rows.len() as int),
        state.is_resized,
        rows.len() as int,
    );
}

/// On a resize the table and its new top row do not depend on the previous
/// top row: two states that differ in nothing else give the same frame.
pub proof fn lemma_resize_recentres(
    first: PanelState,
    second: PanelState,
    rows: Seq<ProcessRow>,
    area: Area,
    draw_border: bool,
)
    requires
        first.is_resized,
        second == with_top(first, second.scroll.previous_top),
    ensures
        table_top(first, area.height as int, rows.len() as int) == table_top(
            second,
            area.height as int,
            rows.len() as int,
        ),
        table_model(first, rows, area, draw_border) == table_model(
            second,
            rows,
            area,
            draw_border,
        ),
{
}

/// The table does not look at the query window: writing the left column
/// back changes neither the table nor its top row.
pub proof fn lemma_table_ignores_left_column(
    state: PanelState,
    left: usize,
    rows: Seq<ProcessRow>,
    area: Area,
    draw_border: bool,
)
    ensures
        ({
            let moved = PanelState {
                search: SearchState { previous_left_column: left, ..state.search },
                ..state
            };
            &&& table_top(moved, area.height as int, rows.len() as int) == table_top(
                state,
                area.height as int,
                rows.len() as int,
            )
            &&& table_model(moved, rows, area, draw_border) == table_model(
                state,
                rows,
                area,
                draw_border,
            )
        }),
{
}

} // verus!
