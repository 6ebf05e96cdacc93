use process_panel::panel::{draw_in_regions, Painter, ProcessTableWidget};
use process_panel::scroll::{CursorDirection, ScrollDirection};
use process_panel::state::{Area, Focus, PanelState, ProcessRow, ScrollState, SearchState, SortKey};

fn state(is_searching: bool) -> PanelState {
    PanelState {
        is_grouped: false,
        is_searching,
        is_expanded: false,
        selection: Focus::Table,
        sort_key: Some(SortKey::Cpu),
        sort_reverse: true,
        is_resized: false,
        scroll: ScrollState {
            previous_top: 0,
            current_selection: 12,
            direction: ScrollDirection::Down,
        },
        search: SearchState {
            query: "init".to_string(),
            byte_caret: 4,
            previous_left_column: 0,
            cursor_direction: CursorDirection::Right,
            by_pid: false,
            case_insensitive: true,
            whole_word: false,
            regex: false,
            invalid: false,
        },
    }
}

fn rows(count: u64) -> Vec<ProcessRow> {
    (0..count)
        .map(|i| ProcessRow { identifier: i, name: "p".to_string(), cpu_usage: 0, mem_usage: 0 })
        .collect()
}

#[test]
fn panel_without_search_is_the_table() {
    let painter = Painter { is_mac_os: false };
    let mut panel = state(false);
    let whole = Area { x: 2, y: 1, width: 60, height: 20 };
    let plan = painter.draw_process_and_search(&mut panel, &rows(40), whole, true);
    assert!(plan.search.is_none());
    assert_eq!(plan.table.area, whole);
    assert_eq!(panel.scroll.previous_top, 0);
    assert_eq!(plan.table.rows.len(), 40);
    assert_eq!(panel.search.previous_left_column, 0);
}

#[test]
fn panel_with_search_splits_the_rectangle() {
    let painter = Painter { is_mac_os: false };
    let mut panel = state(true);
    let whole = Area { x: 2, y: 1, width: 60, height: 20 };
    let plan = painter.draw_process_and_search(&mut panel, &rows(40), whole, true);
    let search = plan.search.expect("the search field is shown");
    assert_eq!(plan.table.area, Area { x: 2, y: 1, width: 60, height: 15 });
    assert_eq!(search.area, Area { x: 2, y: 16, width: 60, height: 5 });
    assert_eq!(panel.scroll.previous_top, 3);
    assert_eq!(plan.table.rows.len(), 37);
    assert_eq!(search.prompt.text, "Search by Name (Tab for PID): ");
}

#[test]
fn search_without_border_takes_three_rows() {
    let painter = Painter { is_mac_os: false };
    let mut panel = state(true);
    let whole = Area { x: 0, y: 0, width: 60, height: 20 };
    let plan = painter.draw_process_and_search(&mut panel, &rows(40), whole, false);
    let search = plan.search.expect("the search field is shown");
    assert_eq!(plan.table.area, Area { x: 0, y: 0, width: 60, height: 17 });
    assert_eq!(search.area, Area { x: 1, y: 17, width: 58, height: 3 });
    assert_eq!(panel.scroll.previous_top, 1);
}

#[test]
fn regions_are_laid_out_as_given() {
    let mut panel = state(true);
    panel.search.query = "abcdefghijklmnopqrstuvwxyz".to_string();
    panel.search.byte_caret = 26;
    let table_area = Area { x: 0, y: 0, width: 40, height: 9 };
    let search_area = Area { x: 0, y: 9, width: 12, height: 5 };
    let plan = draw_in_regions(true, &mut panel, &rows(40), table_area, search_area, true);
    let search = plan.search.expect("the search field is shown");
    assert_eq!(plan.table.area, table_area);
    assert_eq!(search.area, search_area);
    assert_eq!(plan.table.widths, vec![8, 16, 8, 8]);
    assert_eq!(panel.scroll.previous_top, 9);
    assert_eq!(panel.search.previous_left_column, 22);
    assert_eq!(search.prompt.text, "> ");
    assert_eq!(search.options[1].text, "Match Case (F1)[ ]");
}

#[test]
fn drawing_the_panel_twice_gives_the_same() {
    let painter = Painter { is_mac_os: false };
    let mut panel = state(true);
    let whole = Area { x: 0, y: 0, width: 60, height: 20 };
    let first = painter.draw_process_and_search(&mut panel, &rows(40), whole, true);
    let top = panel.scroll.previous_top;
    let left = panel.search.previous_left_column;
    let second = painter.draw_process_and_search(&mut panel, &rows(40), whole, true);
    assert_eq!(panel.scroll.previous_top, top);
    assert_eq!(panel.search.previous_left_column, left);
    assert_eq!(first.table.area, second.table.area);
    assert_eq!(first.table.rows.len(), second.table.rows.len());
    assert_eq!(first.table.widths, second.table.widths);
}

#[test]
fn short_rectangle_leaves_the_table_no_rows() {
    let painter = Painter { is_mac_os: false };
    let mut panel = state(true);
    let whole = Area { x: 3, y: 4, width: 60, height: 5 };
    let plan = painter.draw_process_and_search(&mut panel, &rows(40), whole, true);
    let search = plan.search.expect("the search field is shown");
    assert_eq!(plan.table.area, Area { x: 3, y: 4, width: 60, height: 0 });
    assert_eq!(search.area, Area { x: 3, y: 4, width: 60, height: 5 });
}

#[test]
fn search_field_gets_its_rows_or_all_there_are() {
    let painter = Painter { is_mac_os: false };
    let mut height = 0;
    while height < 12 {
        let mut panel = state(true);
        let whole = Area { x: 1, y: 2, width: 30, height };
        let plan = painter.draw_process_and_search(&mut panel, &rows(3), whole, true);
        let search = plan.search.expect("the search field is shown");
        let lower = if height < 5 { height } else { 5 };
        let upper = height - lower;
        assert_eq!(plan.table.area, Area { x: 1, y: 2, width: 30, height: upper });
        assert_eq!(search.area, Area { x: 1, y: 2 + upper, width: 30, height: lower });
        height += 1;
    }
}

#[test]
fn search_field_without_border_gets_three_rows_or_all_there_are() {
    let painter = Painter { is_mac_os: false };
    let mut height = 0;
    while height < 8 {
        let mut panel = state(true);
        panel.selection = Focus::SearchField;
        let whole = Area { x: 0, y: 65000, width: 9, height };
        let plan = painter.draw_process_and_search(&mut panel, &rows(3), whole, false);
        let search = plan.search.expect("the search field is shown");
        let lower = if height < 3 { height } else { 3 };
        let upper = height - lower;
        assert_eq!(plan.table.area, Area { x: 1, y: 65000, width: 7, height: upper });
        assert_eq!(search.area, Area { x: 0, y: 65000 + upper, width: 9, height: lower });
        height += 1;
    }
}

#[test]
fn rectangle_edges_are_tested() {
    assert!(Area { x: 0, y: 0, width: 80, height: 24 }.is_wf());
    assert!(Area { x: 65535, y: 65535, width: 0, height: 0 }.is_wf());
    assert!(Area { x: 65000, y: 0, width: 535, height: 24 }.is_wf());
    assert!(!Area { x: 65000, y: 0, width: 536, height: 24 }.is_wf());
    assert!(!Area { x: 0, y: 1, width: 80, height: 65535 }.is_wf());
}
