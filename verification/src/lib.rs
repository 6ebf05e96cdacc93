//! Rendering core of a terminal process table with a search field.
//!
//! The crate turns a frame's process rows and the host's panel state into a
//! plain description of what to draw: column widths, visible rows, styled
//! query text and block decoration. Writing cells to a terminal is left to the
//! caller.

pub mod caret;
pub mod layout;
pub mod panel;
pub mod plan;
pub mod scroll;
pub mod search;
pub mod state;
pub mod table;
pub mod text;
pub mod unicode;
pub mod widths;
