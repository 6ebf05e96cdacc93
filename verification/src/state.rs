//! What the host hands to the panel each frame: the rows, the panel's state
//! and the rectangle to draw into.

use crate::scroll::{CursorDirection, ScrollDirection};
use vstd::prelude::*;

verus! {

/// One process, or one group of processes, as measured for this frame.
#[derive(Debug)]
pub struct ProcessRow {
    /// The process id, or the number of members where rows are grouped.
    pub identifier: u64,
    /// The name to display.
    pub name: String,
    /// CPU usage in hundredths of a percent.
    pub cpu_usage: u32,
    /// Memory usage in hundredths of a percent.
    pub mem_usage: u32,
}

/// Which part of the panel holds the keyboard focus.
#[derive(Clone, Copy, Debug, PartialEq, Eq, Structural)]
pub enum Focus {
    Table,
    SearchField,
    Other,
}

/// The column by which the host has sorted the rows.
#[derive(Clone, Copy, Debug, PartialEq, Eq, Structural)]
pub enum SortKey {
    Pid,
    Name,
    Cpu,
    Mem,
}

/// The table's scroll state. The renderer writes `previous_top` back.
#[derive(Clone, Copy, Debug, PartialEq, Eq, Structural)]
pub struct ScrollState {
    pub previous_top: u64,
    pub current_selection: u64,
    pub direction: ScrollDirection,
}

/// The search field's state. The renderer writes `previous_left_column` back.
#[derive(Debug)]
pub struct SearchState {
    pub query: String,
    /// The caret's position in the query, in bytes.
    pub byte_caret: usize,
    pub previous_left_column: usize,
    pub cursor_direction: CursorDirection,
    /// Whether the search is by process id rather than by name.
    pub by_pid: bool,
    pub case_insensitive: bool,
    pub whole_word: bool,
    pub regex: bool,
    /// Set by the host when the query is no valid regular expression.
    pub invalid: bool,
}

/// The panel's state, owned by the host.
#[derive(Debug)]
pub struct PanelState {
    pub is_grouped: bool,
    pub is_searching: bool,
    pub is_expanded: bool,
    pub selection: Focus,
    /// The column that the rows are sorted by, if the host has sorted them.
    pub sort_key: Option<SortKey>,
    pub sort_reverse: bool,
    /// Set for the one frame after the rectangle has changed its size.
    pub is_resized: bool,
    pub scroll: ScrollState,
    pub search: SearchState,
}

/// A rectangle of terminal cells.
#[derive(Clone, Copy, Debug, PartialEq, Eq, Structural)]
pub struct Area {
    pub x: u16,
    pub y: u16,
    pub width: u16,
    pub height: u16,
}

impl Area {
    /// Whether the rectangle's right and bottom edges are coordinates too.
    pub open spec fn wf(self) -> bool {
        &&& self.x + self.width <= u16::MAX
        &&& self.y + self.height <= u16::MAX
    }

    /// Tests whether the rectangle's right and bottom edges are coordinates.
    pub fn is_wf(&self) -> (ok: bool)
        ensures
            ok == self.wf(),
    {
        self.width <= u16::MAX - self.x && self.height <= u16::MAX - self.y
    }
}

} // verus!
