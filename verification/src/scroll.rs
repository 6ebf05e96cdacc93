//! Scroll windows: which row (or display column) comes first in a viewport so
//! that the selected position stays visible.

use vstd::prelude::*;

verus! {

/// Direction of the last vertical scroll step.
#[derive(Clone, Copy, Debug, PartialEq, Eq, Structural)]
pub enum ScrollDirection {
    Up,
    Down,
}

/// Direction of the last caret movement in the search field.
#[derive(Clone, Copy, Debug, PartialEq, Eq, Structural)]
pub enum CursorDirection {
    Left,
    Right,
}

/// Whether `position` lies in the window of `viewport` cells that starts at `start`.
pub open spec fn in_window(start: int, viewport: int, position: int) -> bool {
    start <= position < start + viewport
}

/// The start of the window after one step of the scroll policy.
///
/// A resize forgets the previous start. A position that is still visible keeps
/// the window where it is. Otherwise the window follows the movement: forward
/// (down, right) it moves just far enough to show the position in its last
/// cell and never backwards; backward (up, left) it moves to the position and
/// never forwards.
pub open spec fn window_start(
    viewport: int,
    forward: bool,
    previous: int,
    position: int,
    resized: bool,
) -> int {
    let base = if resized { 0 } else { previous };
    if in_window(base, viewport, position) {
        base
    } else if forward {
        if base >= position - viewport + 1 { base } else { position - viewport + 1 }
    } else {
        if base <= position { base } else { position }
    }
}

/// `start` clamped into `[0, max(0, count - 1)]`.
pub open spec fn clamp_start(start: int, count: int) -> int {
    if count <= 0 || start < 0 {
        0
    } else if start > count - 1 {
        count - 1
    } else {
        start
    }
}

/// The top row of the table window for the next frame.
pub open spec fn top_row(
    viewport_rows: int,
    direction: ScrollDirection,
    previous_top: int,
    selection: int,
    is_resized: bool,
    row_count: int,
) -> int {
    clamp_start(
        window_start(
            viewport_rows,
            direction == ScrollDirection::Down,
            previous_top,
            selection,
            is_resized,
        ),
        row_count,
    )
}

/// Computes the top row of the table window and writes it back to `previous_top`.
pub fn next_top(
    viewport_rows: u64,
    direction: ScrollDirection,
    previous_top: &mut u64,
    selection: u64,
    is_resized: bool,
    row_count: u64,
) -> (top: u64)
    ensures
        top == top_row(
            viewport_rows as int,
            direction,
            *old(previous_top) as int,
            selection as int,
            is_resized,
            row_count as int,
        ),
        *final(previous_top) == top,
{
    let base: u64 = if is_resized { 0 } else { *previous_top };
    let limit: u64 = if row_count == 0 { 0 } else { row_count - 1 };
    let start: u64 = if base <= selection && selection - base < viewport_rows {
        base
    } else {
        match direction {
            ScrollDirection::Down => {
                if selection < viewport_rows || base > selection - viewport_rows {
                    base
                } else if selection - viewport_rows >= limit {
                    // One row further lies behind the last row.
                    limit
                } else {
                    selection - viewport_rows + 1
                }
            },
            ScrollDirection::Up => if base <= selection { base } else { selection },
        }
    };
    let top: u64 = if start > limit { limit } else { start };
    *previous_top = top;
    top
}

/// The first visible display column of the search query for the next frame.
///
/// The policy is that of the table window, over display columns. No count of
/// columns bounds the result; it only saturates at the largest `usize`.
pub open spec fn left_column(
    viewport_cols: int,
    direction: CursorDirection,
    previous_left: int,
    caret_col: int,
    is_resized: bool,
) -> int {
    let start = window_start(
        viewport_cols,
        direction == CursorDirection::Right,
        previous_left,
        caret_col,
        is_resized,
    );
    if start > usize::MAX { usize::MAX as int } else { start }
}

/// Computes the first visible display column of the search query and writes
/// it back to `previous_left`.
pub fn next_left(
    viewport_cols: usize,
    direction: CursorDirection,
    previous_left: &mut usize,
    caret_col: usize,
    is_resized: bool,
) -> (left: usize)
    ensures
        left == left_column(
            viewport_cols as int,
            direction,
            *old(previous_left) as int,
            caret_col as int,
            is_resized,
        ),
        *final(previous_left) == left,
{
    let base: usize = if is_resized { 0 } else { *previous_left };
    let left: usize = if base <= caret_col && caret_col - base < viewport_cols {
        base
    } else {
        match direction {
            CursorDirection::Right => {
                if caret_col < viewport_cols || base > caret_col - viewport_cols {
                    base
                } else if caret_col - viewport_cols == usize::MAX {
                    usize::MAX
                } else {
                    caret_col - viewport_cols + 1
                }
            },
            CursorDirection::Left => if base <= caret_col { base } else { caret_col },
        }
    };
    *previous_left = left;
    left
}

/// Whether the scroll direction agrees with where the position lies relative
/// to the window that the policy starts from: a position above (left of) the
/// window is only reached moving backward, one below (right of) it only
/// moving forward.
pub open spec fn direction_agrees(
    viewport: int,
    forward: bool,
    previous: int,
    position: int,
    resized: bool,
) -> bool {
    let base = if resized { 0 } else { previous };
    &&& forward ==> base <= position
    &&& !forward ==> position < base + viewport
}

/// After one step the position lies inside the window, provided that the
/// viewport has at least one cell and the direction agrees with the movement.
pub proof fn lemma_window_holds_position(
    viewport: int,
    forward: bool,
    previous: int,
    position: int,
    resized: bool,
)
    requires
        viewport >= 1,
        0 <= previous,
        0 <= position,
        direction_agrees(viewport, forward, previous, position, resized),
    ensures
        in_window(window_start(viewport, forward, previous, position, resized), viewport, position),
{
}

/// With an empty viewport, or a direction that disagrees with the movement,
/// the step leaves the position outside the window: the conditions of
/// `lemma_window_holds_position` are exactly those under which it holds.
pub proof fn lemma_window_misses_position(
    viewport: int,
    forward: bool,
    previous: int,
    position: int,
    resized: bool,
)
    requires
        0 <= previous,
        0 <= position,
        viewport < 1 || !direction_agrees(viewport, forward, previous, position, resized),
    ensures
        !in_window(
            window_start(viewport, forward, previous, position, resized),
            viewport,
            position,
        ),
{
}

/// A second step from the written-back start changes nothing: the policy is
/// idempotent for unchanged inputs.
pub proof fn lemma_top_row_idempotent(
    viewport_rows: int,
    direction: ScrollDirection,
    previous_top: int,
    selection: int,
    is_resized: bool,
    row_count: int,
)
    requires
        0 <= viewport_rows,
        0 <= previous_top,
        0 <= selection,
        0 <= row_count,
    ensures
        top_row(
            viewport_rows,
            direction,
            top_row(viewport_rows, direction, previous_top, selection, is_resized, row_count),
            selection,
            is_resized,
            row_count,
        ) == top_row(viewport_rows, direction, previous_top, selection, is_resized, row_count),
{
}

/// The same for the column window of the search query.
pub proof fn lemma_left_column_idempotent(
    viewport_cols: int,
    direction: CursorDirection,
    previous_left: int,
    caret_col: int,
    is_resized: bool,
)
    requires
        0 <= viewport_cols,
        0 <= previous_left <= usize::MAX,
        0 <= caret_col <= usize::MAX,
    ensures
        left_column(
            viewport_cols,
            direction,
            left_column(viewport_cols, direction, previous_left, caret_col, is_resized),
            caret_col,
            is_resized,
        ) == left_column(viewport_cols, direction, previous_left, caret_col, is_resized),
{
}

/// On a resize the new top row does not depend on the previous one.
pub proof fn lemma_resize_forgets_top(
    viewport_rows: int,
    direction: ScrollDirection,
    first_top: int,
    second_top: int,
    selection: int,
    row_count: int,
)
    ensures
        top_row(viewport_rows, direction, first_top, selection, true, row_count)
            == top_row(viewport_rows, direction, second_top, selection, true, row_count),
{
}

/// On a resize the new top row is a function of the direction, the selection,
/// the viewport and the number of rows: moving down it is the least row that
/// shows the selection in the window's last cell, held to the rows that
/// exist; moving up it is the first row.
pub proof fn lemma_resize_top_value(
    viewport_rows: int,
    direction: ScrollDirection,
    previous_top: int,
    selection: int,
    row_count: int,
)
    requires
        0 <= viewport_rows,
        0 <= selection,
    ensures
        top_row(viewport_rows, direction, previous_top, selection, true, row_count) == if direction
            == ScrollDirection::Down && selection >= viewport_rows {
            clamp_start(selection - viewport_rows + 1, row_count)
        } else {
            0
        },
{
}

/// On a resize the new left column does not depend on the previous one.
pub proof fn lemma_resize_forgets_left(
    viewport_cols: int,
    direction: CursorDirection,
    first_left: int,
    second_left: int,
    caret_col: int,
)
    ensures
        left_column(viewport_cols, direction, first_left, caret_col, true)
            == left_column(viewport_cols, direction, second_left, caret_col, true),
{
}

} // verus!
