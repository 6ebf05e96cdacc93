//! The panel: the process table, and below it the search field while a
//! search is going on.

use crate::layout::{lower_region, split_rows, upper_region};
use crate::plan::{SearchModel, SearchPlan, TableModel, TablePlan};
use crate::search::{
    after_search, draw_search, hidden_graphemes, lemma_resize_recentres_query,
    lemma_search_idempotent, lemma_search_ignores_top, search_left, search_model,
    shown_graphemes, with_left_column,
};
use crate::state::{Area, PanelState, ProcessRow};
use crate::table::{
    after_table, draw_table, lemma_resize_recentres, lemma_selection_in_window_iff,
    lemma_table_idempotent, lemma_table_ignores_left_column, selection_in_window,
    shows_selection, table_model, table_top, with_top,
};
use crate::widths::width_sum;
use vstd::prelude::*;

verus! {

/// The panel, as a mathematical value.
pub struct PanelModel {
    pub table: TableModel,
    pub search: Option<SearchModel>,
}

/// The panel to draw: the table, and the search field where it is shown.
#[derive(Debug)]
pub struct PanelPlan {
    pub table: TablePlan,
    pub search: Option<SearchPlan>,
}

impl View for PanelPlan {
    type V = PanelModel;

    open spec fn view(&self) -> PanelModel {
        PanelModel {
            table: self.table@,
            search: match self.search {
                Some(plan) => Some(plan@),
                None => None,
            },
        }
    }
}

/// The rows that the search field asks for: five with a border, three without.
pub open spec fn search_rows(draw_border: bool) -> u16 {
    if draw_border {
        5
    } else {
        3
    }
}

/// The panel with both parts, each in its region.
pub open spec fn panel_model(
    state: PanelState,
    function_keys: bool,
    rows: Seq<ProcessRow>,
    table_area: Area,
    search_area: Area,
    draw_border: bool,
) -> PanelModel {
    PanelModel {
        table: table_model(state, rows, table_area, draw_border),
        search: Some(search_model(state, function_keys, search_area, draw_border)),
    }
}

/// The region of the table: while a search is going on the rows above the
/// search field, the whole rectangle otherwise.
pub open spec fn table_region(state: PanelState, draw_loc: Area, draw_border: bool) -> Area {
    if state.is_searching {
        upper_region(draw_loc, search_rows(draw_border))
    } else {
        draw_loc
    }
}

/// The region of the search field: the rows it asks for at the bottom of the
/// rectangle, or all rows where there are fewer.
pub open spec fn search_region(draw_loc: Area, draw_border: bool) -> Area {
    lower_region(draw_loc, search_rows(draw_border))
}

/// The panel for a state, the frame's rows and a rectangle.
pub open spec fn panel_frame(
    state: PanelState,
    function_keys: bool,
    rows: Seq<ProcessRow>,
    draw_loc: Area,
    draw_border: bool,
) -> PanelModel {
    if state.is_searching {
        panel_model(
            state,
            function_keys,
            rows,
            table_region(state, draw_loc, draw_border),
            search_region(draw_loc, draw_border),
            draw_border,
        )
    } else {
        PanelModel { table: table_model(state, rows, draw_loc, draw_border), search: None }
    }
}

/// The state after the panel was drawn: the table's top row is written back,
/// and the query's left column while a search is going on.
pub open spec fn after_panel(
    state: PanelState,
    row_count: int,
    draw_loc: Area,
    draw_border: bool,
) -> PanelState {
    let drawn = after_table(
        state,
        table_region(state, draw_loc, draw_border).height as int,
        row_count,
    );
    if state.is_searching {
        after_search(drawn, search_region(draw_loc, draw_border))
    } else {
        drawn
    }
}

/// What draws the panel. It knows the platform: on Apple terminals the
/// toggles of the search field are labelled with function keys.
#[derive(Clone, Copy, Debug, PartialEq, Eq, Structural)]
pub struct Painter {
    pub is_mac_os: bool,
}

/// The renderers of the process panel.
pub trait ProcessTableWidget {
    /// Whether the toggles are labelled with function keys.
    spec fn function_keys(&self) -> bool;

    /// Lays out the panel for `draw_loc` and writes the windows back to the
    /// state: the table alone, or, while a search is going on, the table
    /// above the search field. The search field gets
    /// `search_rows(draw_border)` rows at the bottom, or all rows where
    /// there are fewer; the table takes the rows above. Each part is laid
    /// out for its region. The rectangle's edges must be coordinates.
    fn draw_process_and_search(
        &self,
        state: &mut PanelState,
        rows: &Vec<ProcessRow>,
        draw_loc: Area,
        draw_border: bool,
    ) -> (plan: PanelPlan)
        requires
            draw_loc.wf(),
        ensures
            plan@ == panel_frame(
                *old(state),
                self.function_keys(),
                rows@,
                draw_loc,
                draw_border,
            ),
            *final(state) == after_panel(*old(state), rows.len() as int, draw_loc, draw_border),
            width_sum(plan@.table.widths, plan@.table.widths.len() as int) <= table_region(
                *old(state),
                draw_loc,
                draw_border,
            ).width,
            forall|i: int| 0 <= i < plan@.table.widths.len() ==> plan@.table.widths[i] >= 1,
    ;

    /// Lays out the table for `draw_loc` and writes the window's top row back
    /// to the state. Nothing else in the state changes.
    fn draw_processes_table(
        &self,
        state: &mut PanelState,
        rows: &Vec<ProcessRow>,
        draw_loc: Area,
        draw_border: bool,
    ) -> (plan: TablePlan)
        requires
            draw_loc.wf(),
        ensures
            plan@ == table_model(*old(state), rows@, draw_loc, draw_border),
            *final(state) == after_table(*old(state), draw_loc.height as int, rows.len() as int),
            width_sum(plan@.widths, plan@.widths.len() as int) <= draw_loc.width,
            forall|i: int| 0 <= i < plan@.widths.len() ==> plan@.widths[i] >= 1,
    ;

    /// Lays out the search field for `draw_loc` and writes the query window's
    /// left column back to the state. Nothing else in the state changes.
    fn draw_search_field(
        &self,
        state: &mut PanelState,
        draw_loc: Area,
        draw_border: bool,
    ) -> (plan: SearchPlan)
        requires
            draw_loc.wf(),
        ensures
            plan@ == search_model(*old(state), self.function_keys(), draw_loc, draw_border),
            *final(state) == after_search(*old(state), draw_loc),
            old(state).search.query@ == hidden_graphemes(*old(state), draw_loc).flatten()
                + shown_graphemes(*old(state), draw_loc).flatten(),
    ;
}

/// Lays out both parts of the panel, each for the region given, and writes
/// both windows back to the state.
pub fn draw_in_regions(
    function_keys: bool,
    state: &mut PanelState,
    rows: &Vec<ProcessRow>,
    table_area: Area,
    search_area: Area,
    draw_border: bool,
) -> (plan: PanelPlan)
    requires
        table_area.wf(),
        search_area.wf(),
    ensures
        plan@ == panel_model(
            *old(state),
            function_keys,
            rows@,
            table_area,
            search_area,
            draw_border,
        ),
        *final(state) == after_search(
            after_table(*old(state), table_area.height as int, rows.len() as int),
            search_area,
        ),
        width_sum(plan@.table.widths, plan@.table.widths.len() as int) <= table_area.width,
        forall|i: int| 0 <= i < plan@.table.widths.len() ==> plan@.table.widths[i] >= 1,
{
    let table = draw_table(state, rows, table_area, draw_border);
    proof {
        lemma_search_ignores_top(
            *old(state),
            state.scroll.previous_top,
            function_keys,
            search_area,
            draw_border,
        );
    }
    let search = draw_search(function_keys, state, search_area, draw_border);
    PanelPlan { table, search: Some(search) }
}

impl ProcessTableWidget for Painter {
    open spec fn function_keys(&self) -> bool {
        self.is_mac_os
    }

    fn draw_process_and_search(
        &self,
        state: &mut PanelState,
        rows: &Vec<ProcessRow>,
        draw_loc: Area,
        draw_border: bool,
    ) -> (plan: PanelPlan) {
        if state.is_searching {
            let search_height: u16 = if draw_border {
                5
            } else {
                3
            };
            let (upper, lower) = split_rows(draw_loc, search_height);
            draw_in_regions(self.is_mac_os, state, rows, upper, lower, draw_border)
        } else {
            let table = draw_table(state, rows, draw_loc, draw_border);
            PanelPlan { table, search: None }
        }
    }

    fn draw_processes_table(
        &self,
        state: &mut PanelState,
        rows: &Vec<ProcessRow>,
        draw_loc: Area,
        draw_border: bool,
    ) -> (plan: TablePlan) {
        draw_table(state, rows, draw_loc, draw_border)
    }

    fn draw_search_field(
        &self,
        state: &mut PanelState,
        draw_loc: Area,
        draw_border: bool,
    ) -> (plan: SearchPlan) {
        draw_search(self.is_mac_os, state, draw_loc, draw_border)
    }
}

/// With rows to show and a table region of five rows or more, the selection
/// lies in the table window after a frame exactly on the inputs that
/// `shows_selection` describes: a viewport of at least one row, and a window
/// that the scroll policy moves onto the selection.
pub proof fn lemma_panel_selection_in_window_iff(
    state: PanelState,
    row_count: int,
    draw_loc: Area,
    draw_border: bool,
)
    requires
        row_count > 0,
        table_region(state, draw_loc, draw_border).height >= 5,
    ensures
        ({
            let rect_h = table_region(state, draw_loc, draw_border).height as int;
            selection_in_window(after_panel(state, row_count, draw_loc, draw_border), rect_h)
                <==> shows_selection(state, rect_h, row_count)
        }),
{
    lemma_selection_in_window_iff(
        state,
        table_region(state, draw_loc, draw_border).height as int,
        row_count,
    );
}

/// Drawing the same frame again changes nothing: the second frame leaves the
/// state as the first left it and gives the same panel.
pub proof fn lemma_panel_idempotent(
    state: PanelState,
    function_keys: bool,
    rows: Seq<ProcessRow>,
    draw_loc: Area,
    draw_border: bool,
)
    requires
        rows.len() <= u64::MAX,
    ensures
        ({
            let after = after_panel(state, rows.len() as int, draw_loc, draw_border);
            &&& after_panel(after, rows.len() as int, draw_loc, draw_border) == after
            &&& panel_frame(after, function_keys, rows, draw_loc, draw_border) == panel_frame(
                state,
                function_keys,
                rows,
                draw_loc,
                draw_border,
            )
        }),
{
    let table_area = table_region(state, draw_loc, draw_border);
    let count = rows.len() as int;
    let drawn = after_table(state, table_area.height as int, count);
    lemma_table_idempotent(state, rows, table_area, draw_border);
    if state.is_searching {
        let search_area = search_region(draw_loc, draw_border);
        let top = table_top(state, table_area.height as int, count) as u64;
        let left = search_left(state, search_area) as usize;
        let after = after_search(drawn, search_area);
        lemma_search_ignores_top(state, top, function_keys, search_area, draw_border);
        lemma_search_idempotent(drawn, function_keys, search_area, draw_border);
        lemma_table_ignores_left_column(drawn, left, rows, table_area, draw_border);
        assert(after == with_left_column(drawn, left));
        assert(after_table(after, table_area.height as int, count) == after);
    }
}

/// On a resize neither the panel nor the state that a frame leaves depends on
/// the previous top row, nor, while a search is going on, on the previous
/// left column: two states that differ in nothing else give the same frame.
pub proof fn lemma_panel_resize_recentres(
    first: PanelState,
    second: PanelState,
    function_keys: bool,
    rows: Seq<ProcessRow>,
    draw_loc: Area,
    draw_border: bool,
)
    requires
        first.is_resized,
        second == with_left_column(
            with_top(first, second.scroll.previous_top),
            second.search.previous_left_column,
        ),
        first.is_searching || second.search.previous_left_column
            == first.search.previous_left_column,
    ensures
        after_panel(first, rows.len() as int, draw_loc, draw_border) == after_panel(
            second,
            rows.len() as int,
            draw_loc,
            draw_border,
        ),
        panel_frame(first, function_keys, rows, draw_loc, draw_border) == panel_frame(
            second,
            function_keys,
            rows,
            draw_loc,
            draw_border,
        ),
{
    let table_area = table_region(first, draw_loc, draw_border);
    let middle = with_top(first, second.scroll.previous_top);
    lemma_resize_recentres(first, middle, rows, table_area, draw_border);
    lemma_table_ignores_left_column(
        middle,
        second.search.previous_left_column,
        rows,
        table_area,
        draw_border,
    );
    if first.is_searching {
        let search_area = search_region(draw_loc, draw_border);
        lemma_search_ignores_top(
            first,
            second.scroll.previous_top,
            function_keys,
            search_area,
            draw_border,
        );
        lemma_resize_recentres_query(middle, second, function_keys, search_area, draw_border);
    }
}

} // verus!
