use process_panel::scroll::{next_left, next_top, CursorDirection, ScrollDirection};

#[test]
fn scroll_down_past_the_window_follows_the_selection() {
    let mut previous_top = 0;
    let top = next_top(5, ScrollDirection::Down, &mut previous_top, 7, false, 100);
    assert_eq!(top, 3);
    assert_eq!(previous_top, 3);
}

#[test]
fn resize_recentres_the_window() {
    let mut previous_top = 50;
    let top = next_top(5, ScrollDirection::Down, &mut previous_top, 4, true, 100);
    assert_eq!(top, 0);
    assert_eq!(previous_top, 0);
}

#[test]
fn resize_forgets_any_previous_top() {
    let mut from_low = 2;
    let mut from_high = 90;
    let low = next_top(5, ScrollDirection::Down, &mut from_low, 40, true, 100);
    let high = next_top(5, ScrollDirection::Down, &mut from_high, 40, true, 100);
    assert_eq!(low, 36);
    assert_eq!(high, 36);
}

#[test]
fn visible_selection_keeps_the_window() {
    let mut previous_top = 3;
    assert_eq!(next_top(5, ScrollDirection::Down, &mut previous_top, 5, false, 100), 3);
    assert_eq!(next_top(5, ScrollDirection::Up, &mut previous_top, 7, false, 100), 3);
    assert_eq!(previous_top, 3);
}

#[test]
fn scroll_up_above_the_window_moves_to_the_selection() {
    let mut previous_top = 10;
    assert_eq!(next_top(5, ScrollDirection::Up, &mut previous_top, 7, false, 100), 7);
    assert_eq!(previous_top, 7);
}

#[test]
fn scroll_against_the_direction_leaves_the_window() {
    let mut previous_top = 10;
    assert_eq!(next_top(5, ScrollDirection::Down, &mut previous_top, 7, false, 100), 10);
    let mut previous_top = 10;
    assert_eq!(next_top(5, ScrollDirection::Up, &mut previous_top, 30, false, 100), 10);
}

#[test]
fn top_is_clamped_to_the_last_row() {
    let mut previous_top = 50;
    assert_eq!(next_top(5, ScrollDirection::Down, &mut previous_top, 1, false, 3), 2);
    assert_eq!(previous_top, 2);
}

#[test]
fn no_rows_give_top_zero() {
    let mut previous_top = 9;
    assert_eq!(next_top(5, ScrollDirection::Down, &mut previous_top, 0, false, 0), 0);
    assert_eq!(previous_top, 0);
}

#[test]
fn empty_viewport_steps_behind_the_selection() {
    let mut previous_top = 0;
    assert_eq!(next_top(0, ScrollDirection::Down, &mut previous_top, 4, false, 100), 5);
}

#[test]
fn second_step_changes_nothing() {
    let mut previous_top = 0;
    let first = next_top(5, ScrollDirection::Down, &mut previous_top, 42, false, 100);
    let second = next_top(5, ScrollDirection::Down, &mut previous_top, 42, false, 100);
    assert_eq!(first, 38);
    assert_eq!(second, 38);
    assert_eq!(previous_top, 38);
}

#[test]
fn extreme_selection_does_not_overflow() {
    let mut previous_top = 0;
    let top = next_top(0, ScrollDirection::Down, &mut previous_top, u64::MAX, false, u64::MAX);
    assert_eq!(top, u64::MAX - 1);
}

#[test]
fn caret_moving_right_pulls_the_window() {
    let mut previous_left = 0;
    let left = next_left(3, CursorDirection::Right, &mut previous_left, 4, false);
    assert_eq!(left, 2);
    assert_eq!(previous_left, 2);
}

#[test]
fn caret_moving_left_pulls_the_window_back() {
    let mut previous_left = 10;
    assert_eq!(next_left(5, CursorDirection::Left, &mut previous_left, 3, false), 3);
    assert_eq!(previous_left, 3);
}

#[test]
fn visible_caret_keeps_the_window() {
    let mut previous_left = 4;
    assert_eq!(next_left(5, CursorDirection::Right, &mut previous_left, 8, false), 4);
    assert_eq!(next_left(5, CursorDirection::Left, &mut previous_left, 4, false), 4);
}

#[test]
fn resize_resets_the_left_column() {
    let mut previous_left = 30;
    assert_eq!(next_left(10, CursorDirection::Right, &mut previous_left, 4, true), 0);
    assert_eq!(previous_left, 0);
    let mut previous_left = 30;
    assert_eq!(next_left(10, CursorDirection::Right, &mut previous_left, 25, true), 16);
}

#[test]
fn left_column_saturates() {
    let mut previous_left = 0;
    let left = next_left(0, CursorDirection::Right, &mut previous_left, usize::MAX, false);
    assert_eq!(left, usize::MAX);
}
