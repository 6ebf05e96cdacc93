use process_panel::widths::{allocate, column_widths};

#[test]
fn widths_follow_the_weights() {
    let out = allocate(40, &vec![20, 40, 20, 20], &vec![6, 7, 7, 7]);
    assert_eq!(out.widths, vec![8, 16, 8, 8]);
    assert_eq!(out.kept, 4);
}

#[test]
fn rounding_up_drops_the_last_column() {
    let out = allocate(43, &vec![20, 40, 20, 20], &vec![6, 7, 7, 7]);
    assert_eq!(out.widths, vec![9, 17, 9, 0]);
    assert_eq!(out.kept, 3);
}

#[test]
fn narrow_columns_are_pinned_at_their_minimum() {
    let out = allocate(30, &vec![20, 40, 20, 20], &vec![6, 7, 7, 7]);
    assert_eq!(out.widths, vec![6, 10, 7, 7]);
    assert_eq!(out.kept, 4);
}

#[test]
fn minima_that_do_not_fit_drop_trailing_columns() {
    let out = allocate(20, &vec![20, 40, 20, 20], &vec![6, 7, 7, 7]);
    assert_eq!(out.widths, vec![6, 7, 7, 0]);
    assert_eq!(out.kept, 3);
}

#[test]
fn zero_width_keeps_no_column() {
    let out = allocate(0, &vec![20, 40, 20, 20], &vec![6, 7, 7, 7]);
    assert_eq!(out.widths, vec![0, 0, 0, 0]);
    assert_eq!(out.kept, 0);
}

#[test]
fn no_columns_give_no_widths() {
    let out = allocate(40, &vec![], &vec![]);
    assert!(out.widths.is_empty());
    assert_eq!(out.kept, 0);
}

#[test]
fn empty_column_ends_the_run() {
    let out = allocate(10, &vec![0, 1], &vec![0, 0]);
    assert_eq!(out.widths, vec![0, 0]);
    assert_eq!(out.kept, 0);
}

#[test]
fn halves_round_up_and_the_earlier_column_wins() {
    let out = allocate(5, &vec![1, 1], &vec![0, 0]);
    assert_eq!(out.widths, vec![3, 0]);
    assert_eq!(out.kept, 1);
}

#[test]
fn sum_of_widths_stays_within_the_total() {
    let weights = vec![20, 40, 20, 20];
    let mins = vec![6, 7, 7, 7];
    let mut total: u16 = 0;
    while total < 200 {
        let out = allocate(total, &weights, &mins);
        let sum: u32 = out.widths.iter().map(|w| u32::from(*w)).sum();
        assert!(sum <= u32::from(total));
        assert!(out.kept <= 4);
        for i in 0..out.kept {
            assert!(out.widths[i] >= 1);
            assert!(usize::from(out.widths[i]) >= mins[i]);
        }
        for i in out.kept..4 {
            assert_eq!(out.widths[i], 0);
        }
        total += 1;
    }
}

#[test]
fn huge_minimum_is_dropped() {
    let out = allocate(100, &vec![1, 1], &vec![10, usize::MAX]);
    assert_eq!(out.widths, vec![10, 0]);
    assert_eq!(out.kept, 1);
}

#[test]
fn kept_widths_alone() {
    assert_eq!(column_widths(43, &vec![20, 40, 20, 20], &vec![6, 7, 7, 7]), vec![9, 17, 9]);
    assert_eq!(column_widths(40, &vec![20, 40, 20, 20], &vec![6, 7, 8, 7]), vec![8, 16, 8, 8]);
    assert!(column_widths(3, &vec![20, 40, 20, 20], &vec![6, 7, 7, 7]).is_empty());
}
