//! The search field: prompt, horizontally scrolled query with its caret, the
//! three toggles and the frame.

use crate::caret::{
    caret_column_of, columns_through, end_offset, is_segmentation, query_caret_column, segment,
};
use crate::layout::{inset, inset_area};
use crate::plan::{
    text_models, BlockModel, BlockPlan, BorderKind, SearchModel, SearchPlan, StyleRole,
    StyledText, TextModel,
};
use crate::scroll::{
    direction_agrees, in_window, left_column, lemma_left_column_idempotent, next_left,
    CursorDirection,
};
use crate::state::{Area, Focus, PanelState, ScrollState, SearchState};
use crate::text::{push_horizontals, run_of};
use crate::unicode::{
    as_columns, cluster_offset, cluster_texts, cluster_widths, grapheme_clusters, Grapheme,
};
use vstd::prelude::*;
use vstd::seq_lib::lemma_flatten_concat;

verus! {

/// The prompt for the search mode.
pub open spec fn prompt_text(grouped: bool, by_pid: bool) -> Seq<char> {
    if grouped {
        "Search by Name: "@
    } else if by_pid {
        "Search by PID (Tab for Name): "@
    } else {
        "Search by Name (Tab for PID): "@
    }
}

/// The prompt as shown: the short form where the prompt is longer than half
/// the rectangle's width.
pub open spec fn shown_prompt(grouped: bool, by_pid: bool, rect_w: int) -> Seq<char> {
    let prompt = prompt_text(grouped, by_pid);
    if prompt.len() > rect_w / 2 {
        "> "@
    } else {
        prompt
    }
}

/// The columns left for the query beside a prompt of `prompt_len` characters.
pub open spec fn query_viewport(rect_w: int, prompt_len: int) -> int {
    if rect_w - prompt_len - 5 > 0 {
        rect_w - prompt_len - 5
    } else {
        0
    }
}

/// Whether the caret stands in cluster `i`: at its first byte or past it, and
/// before the next cluster.
pub open spec fn holds_caret(clusters: Seq<Seq<char>>, caret: int, i: int) -> bool {
    cluster_offset(clusters, i) <= caret < cluster_offset(clusters, i + 1)
}

/// Whether cluster `i` is shown in a window that starts at column `left`: its
/// last column lies behind `left`.
pub open spec fn is_visible(widths: Seq<nat>, left: int, i: int) -> bool {
    columns_through(widths, i + 1) > left
}

/// The style of cluster `i`.
pub open spec fn grapheme_style(
    clusters: Seq<Seq<char>>,
    caret: int,
    focused: bool,
    i: int,
) -> StyleRole {
    if focused && holds_caret(clusters, caret, i) {
        StyleRole::Selected
    } else {
        StyleRole::Text
    }
}

/// The visible ones among the first `n` clusters, in order, each with its style.
pub open spec fn visible_graphemes(
    clusters: Seq<Seq<char>>,
    widths: Seq<nat>,
    caret: int,
    focused: bool,
    left: int,
    n: int,
) -> Seq<TextModel>
    decreases n,
{
    if n <= 0 {
        Seq::empty()
    } else {
        let before = visible_graphemes(clusters, widths, caret, focused, left, n - 1);
        if is_visible(widths, left, n - 1) {
            before.push(
                TextModel {
                    text: clusters[n - 1],
                    style: grapheme_style(clusters, caret, focused, n - 1),
                },
            )
        } else {
            before
        }
    }
}

/// The cell of a caret that stands behind the last cluster: one selected
/// space, shown while the field has the focus.
pub open spec fn caret_cell(
    clusters: Seq<Seq<char>>,
    caret: int,
    focused: bool,
) -> Seq<TextModel> {
    if focused && caret >= cluster_offset(clusters, clusters.len() as int) {
        seq![TextModel { text: " "@, style: StyleRole::Selected }]
    } else {
        Seq::empty()
    }
}

/// The query as shown: its visible clusters and the caret's cell.
pub open spec fn query_texts(
    clusters: Seq<Seq<char>>,
    widths: Seq<nat>,
    caret: int,
    focused: bool,
    left: int,
) -> Seq<TextModel> {
    visible_graphemes(clusters, widths, caret, focused, left, clusters.len() as int) + caret_cell(
        clusters,
        caret,
        focused,
    )
}

/// The mark in a toggle's brackets.
pub open spec fn toggle_mark(on: bool) -> Seq<char> {
    if on {
        "*"@
    } else {
        " "@
    }
}

/// The style of a toggle.
pub open spec fn toggle_style(on: bool) -> StyleRole {
    if on {
        StyleRole::Selected
    } else {
        StyleRole::Text
    }
}

/// The label of the case toggle.
pub open spec fn case_label(function_keys: bool, on: bool) -> Seq<char> {
    "Match Case ("@ + (if function_keys {
        "F1"@
    } else {
        "Alt+C"@
    }) + ")["@ + toggle_mark(on) + "]"@
}

/// The label of the whole-word toggle.
pub open spec fn whole_word_label(function_keys: bool, on: bool) -> Seq<char> {
    "Match Whole Word ("@ + (if function_keys {
        "F2"@
    } else {
        "Alt+W"@
    }) + ")["@ + toggle_mark(on) + "]"@
}

/// The label of the regex toggle.
pub open spec fn regex_label(function_keys: bool, on: bool) -> Seq<char> {
    "Use Regex ("@ + (if function_keys {
        "F3"@
    } else {
        "Alt+R"@
    }) + ")["@ + toggle_mark(on) + "]"@
}

/// What follows the query: a line break, then the three toggles, five
/// spaces apart. The case toggle is on while the search is case sensitive.
pub open spec fn option_texts(
    function_keys: bool,
    case_insensitive: bool,
    whole_word: bool,
    regex: bool,
) -> Seq<TextModel> {
    seq![
        TextModel { text: "\n"@, style: StyleRole::Plain },
        TextModel {
            text: case_label(function_keys, !case_insensitive),
            style: toggle_style(!case_insensitive),
        },
        TextModel { text: "     "@, style: StyleRole::Plain },
        TextModel {
            text: whole_word_label(function_keys, whole_word),
            style: toggle_style(whole_word),
        },
        TextModel { text: "     "@, style: StyleRole::Plain },
        TextModel { text: regex_label(function_keys, regex), style: toggle_style(regex) },
    ]
}

/// The style of the field's frame: an invalid query overrides the focus.
pub open spec fn search_border_style(invalid: bool, focus: Focus) -> StyleRole {
    if invalid {
        StyleRole::InvalidRegex
    } else if focus == Focus::SearchField {
        StyleRole::HighlightedBorder
    } else {
        StyleRole::Border
    }
}

/// The number of horizontals before the field's closing hint.
pub open spec fn search_title_fill(rect_w: int) -> nat {
    if rect_w > 16 {
        (rect_w - 16) as nat
    } else {
        0
    }
}

/// The field's title: the closing hint, flush right in a bordered field.
pub open spec fn search_title(rect_w: int, draw_border: bool) -> Seq<char> {
    if draw_border {
        run_of('─', search_title_fill(rect_w)) + " Esc to close "@
    } else {
        Seq::empty()
    }
}

/// The field's frame.
pub open spec fn search_block(
    invalid: bool,
    focus: Focus,
    rect_w: int,
    draw_border: bool,
) -> BlockModel {
    let style = search_border_style(invalid, focus);
    if draw_border {
        BlockModel {
            title: search_title(rect_w, draw_border),
            title_style: style,
            borders: BorderKind::Full,
            border_style: style,
        }
    } else if focus == Focus::SearchField {
        BlockModel {
            title: Seq::empty(),
            title_style: StyleRole::Plain,
            borders: BorderKind::Sides,
            border_style: style,
        }
    } else {
        BlockModel {
            title: Seq::empty(),
            title_style: StyleRole::Plain,
            borders: BorderKind::Hidden,
            border_style: StyleRole::Plain,
        }
    }
}

/// The cells left free at each side of the field: one where neither a border
/// nor the focus marks its edge.
pub open spec fn search_margin(focus: Focus, draw_border: bool) -> u16 {
    if focus != Focus::SearchField && !draw_border {
        1
    } else {
        0
    }
}

/// The first visible column of the query for this frame.
pub open spec fn search_left(state: PanelState, area: Area) -> int {
    let prompt = shown_prompt(state.is_grouped, state.search.by_pid, area.width as int);
    left_column(
        query_viewport(area.width as int, prompt.len() as int),
        state.search.cursor_direction,
        state.search.previous_left_column as int,
        query_caret_column(state.search.query@, state.search.byte_caret as int) as int,
        state.is_resized,
    )
}

/// The search field for a state and a rectangle.
pub open spec fn search_model(
    state: PanelState,
    function_keys: bool,
    area: Area,
    draw_border: bool,
) -> SearchModel {
    SearchModel {
        area: inset(area, search_margin(state.selection, draw_border)),
        prompt: TextModel {
            text: shown_prompt(state.is_grouped, state.search.by_pid, area.width as int),
            style: StyleRole::TableHeader,
        },
        query: query_texts(
            grapheme_clusters(state.search.query@),
            cluster_widths(grapheme_clusters(state.search.query@)),
            state.search.byte_caret as int,
            state.selection == Focus::SearchField,
            search_left(state, area),
        ),
        options: option_texts(
            function_keys,
            state.search.case_insensitive,
            state.search.whole_word,
            state.search.regex,
        ),
        block: search_block(state.search.invalid, state.selection, area.width as int, draw_border),
    }
}

/// The texts of a list of styled texts.
pub open spec fn model_texts(models: Seq<TextModel>) -> Seq<Seq<char>> {
    models.map_values(|m: TextModel| m.text)
}

/// The number of clusters among the first `n` that lie before the window and
/// are not shown.
pub open spec fn hidden_count(widths: Seq<nat>, left: int, n: int) -> int
    decreases n,
{
    if n <= 0 {
        0
    } else if is_visible(widths, left, n - 1) {
        hidden_count(widths, left, n - 1)
    } else {
        n
    }
}

/// Columns only grow along the clusters.
pub proof fn lemma_columns_grow(widths: Seq<nat>, i: int, j: int)
    requires
        i <= j,
    ensures
        columns_through(widths, i) <= columns_through(widths, j),
    decreases j - i,
{
    if i < j {
        lemma_columns_grow(widths, i, j - 1);
    }
}

proof fn lemma_none_visible(
    clusters: Seq<Seq<char>>,
    widths: Seq<nat>,
    caret: int,
    focused: bool,
    left: int,
    n: int,
)
    requires
        columns_through(widths, n) <= left,
    ensures
        visible_graphemes(clusters, widths, caret, focused, left, n) == Seq::<TextModel>::empty(),
    decreases n,
{
    if n > 0 {
        lemma_columns_grow(widths, n - 1, n);
        lemma_none_visible(clusters, widths, caret, focused, left, n - 1);
    }
}

/// The graphemes shown are a run of whole clusters in their order: those
/// from the first visible one to the last.
pub proof fn lemma_visible_run(
    clusters: Seq<Seq<char>>,
    widths: Seq<nat>,
    caret: int,
    focused: bool,
    left: int,
    n: int,
)
    requires
        0 <= n <= clusters.len(),
    ensures
        0 <= hidden_count(widths, left, n) <= n,
        model_texts(visible_graphemes(clusters, widths, caret, focused, left, n))
            == clusters.subrange(hidden_count(widths, left, n), n),
    decreases n,
{
    if n > 0 {
        if is_visible(widths, left, n - 1) {
            lemma_visible_run(clusters, widths, caret, focused, left, n - 1);
            let before = visible_graphemes(clusters, widths, caret, focused, left, n - 1);
            let k = hidden_count(widths, left, n - 1);
            assert(model_texts(visible_graphemes(clusters, widths, caret, focused, left, n))
                =~= model_texts(before).push(clusters[n - 1]));
            assert(clusters.subrange(k, n) =~= clusters.subrange(k, n - 1).push(clusters[n - 1]));
        } else {
            lemma_none_visible(clusters, widths, caret, focused, left, n);
            assert(model_texts(Seq::<TextModel>::empty()) =~= clusters.subrange(n, n));
        }
    } else {
        assert(model_texts(visible_graphemes(clusters, widths, caret, focused, left, n))
            =~= clusters.subrange(0, 0));
    }
}

/// Read from left to right, the graphemes shown are a contiguous part of the
/// query: what the hidden clusters hold, followed by what the shown ones
/// hold, is the whole text, and no cluster is split or moved.
pub proof fn lemma_shown_query_is_contiguous(
    clusters: Seq<Seq<char>>,
    widths: Seq<nat>,
    caret: int,
    focused: bool,
    left: int,
)
    ensures
        ({
            let n = clusters.len() as int;
            let k = hidden_count(widths, left, n);
            let shown = model_texts(visible_graphemes(clusters, widths, caret, focused, left, n));
            &&& 0 <= k <= n
            &&& shown == clusters.subrange(k, n)
            &&& clusters.flatten() == clusters.subrange(0, k).flatten() + shown.flatten()
        }),
{
    let n = clusters.len() as int;
    let k = hidden_count(widths, left, n);
    lemma_visible_run(clusters, widths, caret, focused, left, n);
    assert(clusters =~= clusters.subrange(0, k) + clusters.subrange(k, n));
    lemma_flatten_concat(clusters.subrange(0, k), clusters.subrange(k, n));
}

/// The graphemes of the query that a frame shows, in order.
pub open spec fn shown_graphemes(state: PanelState, area: Area) -> Seq<Seq<char>> {
    let clusters = grapheme_clusters(state.search.query@);
    model_texts(
        visible_graphemes(
            clusters,
            cluster_widths(clusters),
            state.search.byte_caret as int,
            state.selection == Focus::SearchField,
            search_left(state, area),
            clusters.len() as int,
        ),
    )
}

/// The graphemes of the query that lie before the window and are not shown.
pub open spec fn hidden_graphemes(state: PanelState, area: Area) -> Seq<Seq<char>> {
    let clusters = grapheme_clusters(state.search.query@);
    clusters.subrange(
        0,
        hidden_count(cluster_widths(clusters), search_left(state, area), clusters.len() as int),
    )
}

/// The state after the field was drawn: the window's left column is written back.
pub open spec fn with_left_column(state: PanelState, left: usize) -> PanelState {
    PanelState { search: SearchState { previous_left_column: left, ..state.search }, ..state }
}

fn write_left_column(state: &mut PanelState, left: usize)
    ensures
        *final(state) == with_left_column(*old(state), left),
{
    state.search.previous_left_column = left;
}

/// Chooses the prompt for the search mode and the rectangle's width.
pub fn prompt_for(grouped: bool, by_pid: bool, rect_w: u16) -> (prompt: &'static str)
    ensures
        prompt@ == shown_prompt(grouped, by_pid, rect_w as int),
{
    let chosen = if grouped {
        "Search by Name: "
    } else if by_pid {
        "Search by PID (Tab for Name): "
    } else {
        "Search by Name (Tab for PID): "
    };
    if chosen.unicode_len() > (rect_w / 2) as usize {
        "> "
    } else {
        chosen
    }
}

/// Styles the visible graphemes of a measured query and adds the caret's cell.
pub fn query_texts_of(
    graphemes: &Vec<Grapheme>,
    widths: &Vec<usize>,
    total: usize,
    byte_caret: usize,
    focused: bool,
    left: usize,
) -> (texts: Vec<StyledText>)
    requires
        is_segmentation(graphemes@, widths@, total),
    ensures
        text_models(texts@) == query_texts(
            cluster_texts(graphemes@),
            as_columns(widths@),
            byte_caret as int,
            focused,
            left as int,
        ),
{
    let ghost clusters = cluster_texts(graphemes@);
    let ghost columns = as_columns(widths@);
    let mut texts: Vec<StyledText> = Vec::new();
    let mut running: u128 = 0;
    let mut i: usize = 0;
    assert(text_models(texts@) =~= visible_graphemes(
        clusters,
        columns,
        byte_caret as int,
        focused,
        left as int,
        0,
    ));
    while i < graphemes.len()
        invariant
            i <= graphemes.len(),
            is_segmentation(graphemes@, widths@, total),
            clusters == cluster_texts(graphemes@),
            columns == as_columns(widths@),
            running == columns_through(columns, i as int),
            running <= i * 0xffff_ffff_ffff_ffff,
            text_models(texts@) == visible_graphemes(
                clusters,
                columns,
                byte_caret as int,
                focused,
                left as int,
                i as int,
            ),
        decreases graphemes.len() - i,
    {
        let end = end_offset(graphemes, total, i);
        assert(clusters[i as int] == graphemes[i as int].text@);
        running = running + widths[i] as u128;
        if running > left as u128 {
            let style = if focused && graphemes[i].offset <= byte_caret && byte_caret < end {
                StyleRole::Selected
            } else {
                StyleRole::Text
            };
            let ghost before = texts@;
            let text = StyledText { text: graphemes[i].text.clone(), style };
            texts.push(text);
            assert(text_models(texts@) =~= text_models(before).push(text@));
        }
        i = i + 1;
    }
    if focused && byte_caret >= total {
        let ghost before = texts@;
        proof {
            reveal_strlit(" ");
        }
        let cell = StyledText { text: String::from_str(" "), style: StyleRole::Selected };
        texts.push(cell);
        assert(text_models(texts@) =~= text_models(before) + seq![cell@]);
    } else {
        assert(text_models(texts@) =~= text_models(texts@) + Seq::<TextModel>::empty());
    }
    texts
}

fn toggle_text(on: bool) -> (mark: &'static str)
    ensures
        mark@ == toggle_mark(on),
{
    if on {
        "*"
    } else {
        " "
    }
}

fn toggle(name: &'static str, key: &'static str, on: bool) -> (text: StyledText)
    ensures
        text@.text == name@ + key@ + ")["@ + toggle_mark(on) + "]"@,
        text@.style == toggle_style(on),
{
    let mut label = String::from_str(name);
    label.append(key);
    label.append(")[");
    label.append(toggle_text(on));
    label.append("]");
    StyledText {
        text: label,
        style: if on {
            StyleRole::Selected
        } else {
            StyleRole::Text
        },
    }
}

fn plain_text(text: &'static str) -> (styled: StyledText)
    ensures
        styled@ == (TextModel { text: text@, style: StyleRole::Plain }),
{
    StyledText { text: String::from_str(text), style: StyleRole::Plain }
}

/// Builds the line of toggles below the query. With `function_keys` the
/// labels name the function keys, otherwise the Alt shortcuts.
pub fn option_texts_of(
    function_keys: bool,
    case_insensitive: bool,
    whole_word: bool,
    regex: bool,
) -> (texts: Vec<StyledText>)
    ensures
        text_models(texts@) == option_texts(function_keys, case_insensitive, whole_word, regex),
{
    let mut texts: Vec<StyledText> = Vec::new();
    texts.push(plain_text("\n"));
    texts.push(
        toggle(
            "Match Case (",
            if function_keys {
                "F1"
            } else {
                "Alt+C"
            },
            !case_insensitive,
        ),
    );
    texts.push(plain_text("     "));
    texts.push(
        toggle(
            "Match Whole Word (",
            if function_keys {
                "F2"
            } else {
                "Alt+W"
            },
            whole_word,
        ),
    );
    texts.push(plain_text("     "));
    texts.push(
        toggle(
            "Use Regex (",
            if function_keys {
                "F3"
            } else {
                "Alt+R"
            },
            regex,
        ),
    );
    assert(text_models(texts@) =~= option_texts(
        function_keys,
        case_insensitive,
        whole_word,
        regex,
    ));
    texts
}

/// Builds the field's frame.
pub fn search_block_of(
    invalid: bool,
    focus: Focus,
    rect_w: u16,
    draw_border: bool,
) -> (block: BlockPlan)
    ensures
        block@ == search_block(invalid, focus, rect_w as int, draw_border),
{
    let style = if invalid {
        StyleRole::InvalidRegex
    } else if focus == Focus::SearchField {
        StyleRole::HighlightedBorder
    } else {
        StyleRole::Border
    };
    if draw_border {
        let fill: usize = if rect_w > 16 {
            (rect_w - 16) as usize
        } else {
            0
        };
        let mut title = String::new();
        push_horizontals(&mut title, fill);
        title.append(" Esc to close ");
        assert(title@ =~= search_title(rect_w as int, draw_border));
        BlockPlan { title, title_style: style, borders: BorderKind::Full, border_style: style }
    } else if focus == Focus::SearchField {
        BlockPlan {
            title: String::new(),
            title_style: StyleRole::Plain,
            borders: BorderKind::Sides,
            border_style: style,
        }
    } else {
        BlockPlan {
            title: String::new(),
            title_style: StyleRole::Plain,
            borders: BorderKind::Hidden,
            border_style: StyleRole::Plain,
        }
    }
}

/// Lays out the search field for `area` and says where the query window
/// starts, without touching the state.
///
/// The query is split into grapheme clusters and each is measured; the window
/// is moved so that the caret's column is shown; the clusters whose last
/// column lies behind the window's left column are emitted whole and in
/// order, the one that holds the caret in the selected style. What is shown
/// is the end of the query: the hidden clusters and the shown ones, read one
/// after the other, are the query itself. The field is drawn into the
/// rectangle, inset by one cell at each side where neither a border nor the
/// focus marks its edge.
pub fn plan_search_field(
    function_keys: bool,
    state: &PanelState,
    area: Area,
    draw_border: bool,
) -> (planned: (SearchPlan, usize))
    requires
        area.wf(),
    ensures
        planned.0@ == search_model(*state, function_keys, area, draw_border),
        planned.1 == search_left(*state, area),
        state.search.query@ == hidden_graphemes(*state, area).flatten() + shown_graphemes(
            *state,
            area,
        ).flatten(),
{
    let focused = state.selection == Focus::SearchField;
    let prompt = prompt_for(state.is_grouped, state.search.by_pid, area.width);
    let prompt_len = prompt.unicode_len();
    let rect_w: usize = area.width as usize;
    let viewport: usize = if rect_w > prompt_len && rect_w - prompt_len > 5 {
        rect_w - prompt_len - 5
    } else {
        0
    };

    let parts = segment(state.search.query.as_str());
    let caret_col = caret_column_of(
        &parts.graphemes,
        &parts.widths,
        parts.total,
        state.search.byte_caret,
    );
    let mut left_bar = state.search.previous_left_column;
    let left = next_left(
        viewport,
        state.search.cursor_direction,
        &mut left_bar,
        caret_col,
        state.is_resized,
    );
    let query = query_texts_of(
        &parts.graphemes,
        &parts.widths,
        parts.total,
        state.search.byte_caret,
        focused,
        left,
    );
    let options = option_texts_of(
        function_keys,
        state.search.case_insensitive,
        state.search.whole_word,
        state.search.regex,
    );
    let block = search_block_of(state.search.invalid, state.selection, area.width, draw_border);
    let margin: u16 = if !focused && !draw_border {
        1
    } else {
        0
    };
    let plan = SearchPlan {
        area: inset_area(area, margin),
        prompt: StyledText { text: String::from_str(prompt), style: StyleRole::TableHeader },
        query,
        options,
        block,
    };
    proof {
        lemma_shown_query_is_contiguous(
            grapheme_clusters(state.search.query@),
            cluster_widths(grapheme_clusters(state.search.query@)),
            state.search.byte_caret as int,
            focused,
            left as int,
        );
    }
    (plan, left)
}

/// The state after the search field was drawn into `area`.
pub open spec fn after_search(state: PanelState, area: Area) -> PanelState {
    with_left_column(state, search_left(state, area) as usize)
}

/// Lays out the search field for `area` and writes the query window's left
/// column back to the state. Nothing else in the state changes.
pub fn draw_search(
    function_keys: bool,
    state: &mut PanelState,
    area: Area,
    draw_border: bool,
) -> (plan: SearchPlan)
    requires
        area.wf(),
    ensures
        plan@ == search_model(*old(state), function_keys, area, draw_border),
        *final(state) == after_search(*old(state), area),
        old(state).search.query@ == hidden_graphemes(*old(state), area).flatten()
            + shown_graphemes(*old(state), area).flatten(),
{
    let (plan, left) = plan_search_field(function_keys, state, area, draw_border);
    write_left_column(state, left);
    plan
}

/// The caret's column lies in the query window after a frame exactly where
/// the window has at least one column and the caret's direction agrees with
/// where the caret lies relative to the window.
pub proof fn lemma_caret_in_window_iff(state: PanelState, area: Area)
    ensures
        ({
            let prompt = shown_prompt(state.is_grouped, state.search.by_pid, area.width as int);
            let viewport = query_viewport(area.width as int, prompt.len() as int);
            let caret = query_caret_column(state.search.query@, state.search.byte_caret as int);
            in_window(search_left(state, area), viewport, caret as int) <==> viewport >= 1
                && direction_agrees(
                viewport,
                state.search.cursor_direction == CursorDirection::Right,
                state.search.previous_left_column as int,
                caret as int,
                state.is_resized,
            )
        }),
{
}

/// Drawing the same frame again changes nothing: from the state that the
/// first frame left, the second computes the same left column, so the same
/// write-back, and the same field.
pub proof fn lemma_search_idempotent(
    state: PanelState,
    function_keys: bool,
    area: Area,
    draw_border: bool,
)
    ensures
        ({
            let left = search_left(state, area);
            let after = with_left_column(state, left as usize);
            &&& search_left(after, area) == left
            &&& with_left_column(after, left as usize) == after
            &&& search_model(after, function_keys, area, draw_border) == search_model(
                state,
                function_keys,
                area,
                draw_border,
            )
        }),
{
    let prompt = shown_prompt(state.is_grouped, state.search.by_pid, area.width as int);
    lemma_left_column_idempotent(
        query_viewport(area.width as int, prompt.len() as int),
        state.search.cursor_direction,
        state.search.previous_left_column as int,
        query_caret_column(state.search.query@, state.search.byte_caret as int) as int,
        state.is_resized,
    );
}

/// On a resize the field and its new left column do not depend on the
/// previous left column: two states that differ in nothing else give the
/// same frame.
pub proof fn lemma_resize_recentres_query(
    first: PanelState,
    second: PanelState,
    function_keys: bool,
    area: Area,
    draw_border: bool,
)
    requires
        first.is_resized,
        second == with_left_column(first, second.search.previous_left_column),
    ensures
        search_left(first, area) == search_left(second, area),
        search_model(first, function_keys, area, draw_border) == search_model(
            second,
            function_keys,
            area,
            draw_border,
        ),
{
}

/// The search field does not look at the table window: writing the top row
/// back changes neither the field nor its left column.
pub proof fn lemma_search_ignores_top(
    state: PanelState,
    top: u64,
    function_keys: bool,
    area: Area,
    draw_border: bool,
)
    ensures
        ({
            let moved = PanelState {
                scroll: ScrollState { previous_top: top, ..state.scroll },
                ..state
            };
            &&& search_left(moved, area) == search_left(state, area)
            &&& search_model(moved, function_keys, area, draw_border) == search_model(
                state,
                function_keys,
                area,
                draw_border,
            )
        }),
{
}

} // verus!
