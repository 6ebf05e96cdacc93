use process_panel::panel::{Painter, ProcessTableWidget};
use process_panel::plan::{BorderKind, StyleRole, TablePlan};
use process_panel::scroll::{CursorDirection, ScrollDirection};
use process_panel::state::{Area, Focus, PanelState, ProcessRow, ScrollState, SearchState, SortKey};
use process_panel::table::{header_labels_of, header_minima_of, row_cells_of, table_block_of};

fn state(focus: Focus) -> PanelState {
    PanelState {
        is_grouped: false,
        is_searching: false,
        is_expanded: false,
        selection: focus,
        sort_key: None,
        sort_reverse: false,
        is_resized: false,
        scroll: ScrollState {
            previous_top: 0,
            current_selection: 0,
            direction: ScrollDirection::Down,
        },
        search: SearchState {
            query: String::new(),
            byte_caret: 0,
            previous_left_column: 0,
            cursor_direction: CursorDirection::Right,
            by_pid: false,
            case_insensitive: true,
            whole_word: false,
            regex: false,
            invalid: false,
        },
    }
}

fn row(identifier: u64, name: &str, cpu_usage: u32, mem_usage: u32) -> ProcessRow {
    ProcessRow { identifier, name: name.to_string(), cpu_usage, mem_usage }
}

fn many_rows(count: u64) -> Vec<ProcessRow> {
    (0..count).map(|i| row(i, "proc", 0, 0)).collect()
}

fn area(width: u16, height: u16) -> Area {
    Area { x: 0, y: 0, width, height }
}

fn line(cells: &[String], widths: &[usize]) -> String {
    let mut text = String::new();
    for (i, cell) in cells.iter().enumerate() {
        text.push_str(cell);
        if i + 1 < cells.len() {
            let mut used = cell.chars().count();
            while used < widths[i] + 1 {
                text.push(' ');
                used += 1;
            }
        }
    }
    text
}

fn identifiers(plan: &TablePlan) -> Vec<String> {
    plan.rows.iter().map(|r| r.cells[0].clone()).collect()
}

#[test]
fn basic_table() {
    let painter = Painter { is_mac_os: false };
    let mut panel = state(Focus::Other);
    let rows = vec![row(1, "init", 50, 125)];
    let plan = painter.draw_processes_table(&mut panel, &rows, area(40, 10), true);
    assert_eq!(plan.headers, vec!["PID(p)", "Name(n)", "CPU%(c)", "Mem%(m)"]);
    assert_eq!(plan.rows.len(), 1);
    assert_eq!(plan.rows[0].cells, vec!["1", "init", "0.5%", "1.3%"]);
    assert_eq!(plan.rows[0].style, StyleRole::Text);
    let minima = header_minima_of(&plan.headers);
    assert_eq!(minima, vec![6, 7, 7, 7]);
    assert_eq!(line(&plan.headers, &minima), "PID(p) Name(n) CPU%(c) Mem%(m)");
    assert_eq!(line(&plan.rows[0].cells, &minima), "1      init    0.5%    1.3%");
    assert_eq!(plan.widths, vec![8, 16, 8, 8]);
    assert_eq!(panel.scroll.previous_top, 0);
}

#[test]
fn sort_arrow() {
    let painter = Painter { is_mac_os: false };
    let mut panel = state(Focus::Other);
    panel.sort_key = Some(SortKey::Cpu);
    panel.sort_reverse = false;
    let rows = vec![row(1, "init", 50, 125)];
    let plan = painter.draw_processes_table(&mut panel, &rows, area(40, 10), true);
    assert_eq!(plan.headers, vec!["PID(p)", "Name(n)", "CPU%(c)▲", "Mem%(m)"]);
    assert_eq!(plan.widths, vec![8, 16, 8, 8]);
}

#[test]
fn sort_arrow_follows_key_and_order() {
    assert_eq!(
        header_labels_of(false, Some(SortKey::Pid), true),
        vec!["PID(p)▼", "Name(n)", "CPU%(c)", "Mem%(m)"]
    );
    assert_eq!(
        header_labels_of(true, Some(SortKey::Pid), false),
        vec!["Count▲", "Name(n)", "CPU%(c)", "Mem%(m)"]
    );
    assert_eq!(
        header_labels_of(true, Some(SortKey::Name), true),
        vec!["Count", "Name(n)▼", "CPU%(c)", "Mem%(m)"]
    );
    assert_eq!(
        header_labels_of(false, Some(SortKey::Mem), false),
        vec!["PID(p)", "Name(n)", "CPU%(c)", "Mem%(m)▲"]
    );
}

#[test]
fn header_minima_count_characters() {
    let labels = header_labels_of(true, Some(SortKey::Cpu), true);
    assert_eq!(header_minima_of(&labels), vec![5, 7, 8, 7]);
}

#[test]
fn sorted_header_needs_its_arrow_column() {
    let painter = Painter { is_mac_os: false };
    let mut panel = state(Focus::Other);
    panel.sort_key = Some(SortKey::Cpu);
    let plan = painter.draw_processes_table(&mut panel, &many_rows(1), area(36, 10), true);
    assert_eq!(plan.widths, vec![7, 14, 8, 7]);
}

#[test]
fn row_cells_are_written_in_order() {
    assert_eq!(row_cells_of(&row(4711, "kworker/0:1", 9999, 4)), vec![
        "4711",
        "kworker/0:1",
        "100.0%",
        "0.0%"
    ]);
    assert_eq!(row_cells_of(&row(0, "", 0, 0)), vec!["0", "", "0.0%", "0.0%"]);
}

#[test]
fn scroll_down_shows_rows_from_the_new_top() {
    let painter = Painter { is_mac_os: false };
    let mut panel = state(Focus::Table);
    panel.scroll.current_selection = 7;
    let rows = many_rows(100);
    let plan = painter.draw_processes_table(&mut panel, &rows, area(40, 10), true);
    assert_eq!(panel.scroll.previous_top, 3);
    assert_eq!(plan.rows.len(), 97);
    assert_eq!(plan.rows[0].cells[0], "3");
    assert_eq!(plan.rows[96].cells[0], "99");
    let selected: Vec<usize> =
        (0..plan.rows.len()).filter(|i| plan.rows[*i].style == StyleRole::Selected).collect();
    assert_eq!(selected, vec![4]);
}

#[test]
fn resize_recentres_the_table() {
    let painter = Painter { is_mac_os: false };
    let mut panel = state(Focus::Table);
    panel.scroll.previous_top = 50;
    panel.scroll.current_selection = 4;
    panel.is_resized = true;
    let plan = painter.draw_processes_table(&mut panel, &many_rows(100), area(40, 10), true);
    assert_eq!(panel.scroll.previous_top, 0);
    assert_eq!(plan.rows.len(), 100);
    assert_eq!(plan.rows[4].style, StyleRole::Selected);
}

#[test]
fn selection_is_styled_only_with_focus() {
    let painter = Painter { is_mac_os: false };
    let rows = many_rows(3);
    let mut panel = state(Focus::SearchField);
    panel.scroll.current_selection = 1;
    let plan = painter.draw_processes_table(&mut panel, &rows, area(40, 10), true);
    assert!(plan.rows.iter().all(|r| r.style == StyleRole::Text));
    let mut panel = state(Focus::Table);
    panel.scroll.current_selection = 1;
    let plan = painter.draw_processes_table(&mut panel, &rows, area(40, 10), true);
    let styles: Vec<StyleRole> = plan.rows.iter().map(|r| r.style).collect();
    assert_eq!(styles, vec![StyleRole::Text, StyleRole::Selected, StyleRole::Text]);
}

#[test]
fn selection_behind_the_rows_is_held_to_the_last_row() {
    let painter = Painter { is_mac_os: false };
    let mut panel = state(Focus::Table);
    panel.scroll.current_selection = 40;
    let plan = painter.draw_processes_table(&mut panel, &many_rows(10), area(40, 10), true);
    assert_eq!(panel.scroll.previous_top, 5);
    assert_eq!(panel.scroll.current_selection, 40);
    assert_eq!(identifiers(&plan), vec!["5", "6", "7", "8", "9"]);
    assert_eq!(plan.rows[4].style, StyleRole::Selected);
}

#[test]
fn no_rows_give_an_empty_table() {
    let painter = Painter { is_mac_os: false };
    let mut panel = state(Focus::Table);
    panel.scroll.previous_top = 12;
    panel.scroll.current_selection = 3;
    let plan = painter.draw_processes_table(&mut panel, &Vec::new(), area(40, 10), true);
    assert!(plan.rows.is_empty());
    assert_eq!(panel.scroll.previous_top, 0);
    assert_eq!(plan.headers.len(), 4);
}

#[test]
fn rows_keep_their_order() {
    let painter = Painter { is_mac_os: false };
    let mut panel = state(Focus::Other);
    let rows = vec![row(30, "c", 1, 1), row(10, "a", 2, 2), row(20, "b", 3, 3)];
    let plan = painter.draw_processes_table(&mut panel, &rows, area(40, 10), true);
    assert_eq!(identifiers(&plan), vec!["30", "10", "20"]);
}

#[test]
fn short_rectangle_has_no_viewport() {
    let painter = Painter { is_mac_os: false };
    let mut panel = state(Focus::Table);
    panel.scroll.current_selection = 2;
    let plan = painter.draw_processes_table(&mut panel, &many_rows(10), area(40, 5), true);
    assert_eq!(panel.scroll.previous_top, 3);
    assert_eq!(plan.rows.len(), 7);
    let mut panel = state(Focus::Table);
    let plan = painter.draw_processes_table(&mut panel, &many_rows(10), area(40, 0), true);
    assert_eq!(panel.scroll.previous_top, 1);
    assert_eq!(plan.rows.len(), 9);
}

#[test]
fn narrow_rectangle_drops_trailing_columns() {
    let painter = Painter { is_mac_os: false };
    let mut panel = state(Focus::Other);
    let plan = painter.draw_processes_table(&mut panel, &many_rows(1), area(20, 10), true);
    assert_eq!(plan.widths, vec![6, 7, 7]);
    assert_eq!(plan.headers.len(), 4);
    let plan = painter.draw_processes_table(&mut panel, &many_rows(1), area(0, 10), true);
    assert!(plan.widths.is_empty());
    let plan = painter.draw_processes_table(&mut panel, &many_rows(1), area(5, 10), true);
    assert!(plan.widths.is_empty());
}

#[test]
fn selection_stays_in_the_window_after_each_frame() {
    let painter = Painter { is_mac_os: false };
    let rows = many_rows(50);
    let mut panel = state(Focus::Table);
    let mut selection = 0;
    while selection < 50 {
        panel.scroll.current_selection = selection;
        panel.scroll.direction = ScrollDirection::Down;
        painter.draw_processes_table(&mut panel, &rows, area(40, 12), true);
        assert!(panel.scroll.previous_top <= selection);
        assert!(selection < panel.scroll.previous_top + 7);
        selection += 1;
    }
    while selection > 0 {
        selection -= 1;
        panel.scroll.current_selection = selection;
        panel.scroll.direction = ScrollDirection::Up;
        painter.draw_processes_table(&mut panel, &rows, area(40, 12), true);
        assert!(panel.scroll.previous_top <= selection);
        assert!(selection < panel.scroll.previous_top + 7);
    }
}

#[test]
fn drawing_the_table_twice_gives_the_same() {
    let painter = Painter { is_mac_os: false };
    let rows = many_rows(30);
    let mut panel = state(Focus::Table);
    panel.scroll.current_selection = 21;
    let first = painter.draw_processes_table(&mut panel, &rows, area(40, 10), true);
    let top = panel.scroll.previous_top;
    let second = painter.draw_processes_table(&mut panel, &rows, area(40, 10), true);
    assert_eq!(top, 17);
    assert_eq!(panel.scroll.previous_top, 17);
    assert_eq!(identifiers(&first), identifiers(&second));
    assert_eq!(first.widths, second.widths);
    assert_eq!(first.headers, second.headers);
}

#[test]
fn table_title_is_plain_unless_expanded() {
    let mut panel = state(Focus::Table);
    let block = table_block_of(&panel, 40, true);
    assert_eq!(block.title, " Processes ");
    assert_eq!(block.title_style, StyleRole::WidgetTitle);
    assert_eq!(block.borders, BorderKind::Full);
    assert_eq!(block.border_style, StyleRole::HighlightedBorder);
    panel.is_expanded = true;
    panel.is_searching = true;
    assert_eq!(table_block_of(&panel, 40, true).title, " Processes ");
}

#[test]
fn expanded_title_fills_the_bar() {
    let mut panel = state(Focus::Table);
    panel.is_expanded = true;
    let block = table_block_of(&panel, 40, true);
    assert_eq!(block.title, " Processes ─────────── Esc to go back ");
    assert_eq!(block.title.chars().count(), 38);
    assert_eq!(block.title_style, StyleRole::HighlightedBorder);
    let narrow = table_block_of(&panel, 20, true);
    assert_eq!(narrow.title, " Processes ── Esc to go back ");
    panel.selection = Focus::Other;
    let unfocused = table_block_of(&panel, 40, true);
    assert_eq!(unfocused.title_style, StyleRole::WidgetTitle);
    assert_eq!(unfocused.border_style, StyleRole::Border);
}

#[test]
fn table_without_border_marks_the_focus_with_side_borders() {
    let focused = table_block_of(&state(Focus::Table), 40, false);
    assert_eq!(focused.title, "");
    assert_eq!(focused.borders, BorderKind::Sides);
    assert_eq!(focused.border_style, StyleRole::HighlightedBorder);
    let unfocused = table_block_of(&state(Focus::SearchField), 40, false);
    assert_eq!(unfocused.title, "");
    assert_eq!(unfocused.borders, BorderKind::Hidden);
}

#[test]
fn inset_table_keeps_the_widths_of_the_whole_rectangle() {
    let painter = Painter { is_mac_os: false };
    let mut panel = state(Focus::Other);
    let plan = painter.draw_processes_table(&mut panel, &many_rows(1), area(40, 10), false);
    assert_eq!(plan.area, Area { x: 1, y: 0, width: 38, height: 10 });
    assert_eq!(plan.widths, vec![8, 16, 8, 8]);
}

#[test]
fn table_is_inset_without_border_and_focus() {
    let painter = Painter { is_mac_os: false };
    let rows = many_rows(1);
    let place = Area { x: 7, y: 2, width: 40, height: 10 };
    let inner = Area { x: 8, y: 2, width: 38, height: 10 };
    let mut panel = state(Focus::Other);
    assert_eq!(painter.draw_processes_table(&mut panel, &rows, place, false).area, inner);
    assert_eq!(painter.draw_processes_table(&mut panel, &rows, place, true).area, place);
    let mut panel = state(Focus::Table);
    assert_eq!(painter.draw_processes_table(&mut panel, &rows, place, false).area, place);
    assert_eq!(painter.draw_processes_table(&mut panel, &rows, place, true).area, place);
}
