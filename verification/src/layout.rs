//! Splitting a rectangle into regions with the terminal library's layout.

use crate::state::Area;
use tui::layout::{Constraint, Direction, Layout, Rect};
use vstd::prelude::*;

verus! {

/// The rectangle without `margin` cells at its left and at its right; the
/// empty rectangle at the origin where it is too narrow for them.
pub open spec fn inset(area: Area, margin: u16) -> Area {
    if area.width < 2 * margin {
        Area { x: 0, y: 0, width: 0, height: 0 }
    } else {
        Area {
            x: (area.x + margin) as u16,
            y: area.y,
            width: (area.width - 2 * margin) as u16,
            height: area.height,
        }
    }
}

/// The rows of a lower region that asks for `bottom_rows` of a rectangle
/// `height` rows high: as many as it asks for, or all there are.
pub open spec fn lower_rows(height: u16, bottom_rows: u16) -> u16 {
    if bottom_rows <= height {
        bottom_rows
    } else {
        height
    }
}

/// The upper one of two regions that share `area`: as wide as it, from its
/// top down to where the lower region starts.
pub open spec fn upper_region(area: Area, bottom_rows: u16) -> Area {
    Area {
        x: area.x,
        y: area.y,
        width: area.width,
        height: (area.height - lower_rows(area.height, bottom_rows)) as u16,
    }
}

/// The lower one of two regions that share `area`: as wide as it, with the
/// rows it asks for as far as there are so many, down to the bottom.
pub open spec fn lower_region(area: Area, bottom_rows: u16) -> Area {
    Area {
        x: area.x,
        y: (area.y + area.height - lower_rows(area.height, bottom_rows)) as u16,
        width: area.width,
        height: lower_rows(area.height, bottom_rows),
    }
}

/// The regions of `area`, inset by `margin`: the inset rectangle alone, or an
/// upper and a lower region where a lower one is asked for.
pub open spec fn regions(area: Area, margin: u16, bottom_rows: Option<u16>) -> Seq<Area> {
    let inner = inset(area, margin);
    match bottom_rows {
        Some(rows) => seq![upper_region(inner, rows), lower_region(inner, rows)],
        None => seq![inner],
    }
}

/// Splits `area`, inset by `margin` cells at its left and right, into rows
/// with `Layout::split`: one region with the constraint `Min(0)`, and below
/// it, where `bottom_rows` is given, one with the constraint `Length`.
///
/// Trusted: what the layout requires of its regions fixes a single region to
/// the inset rectangle. Of two it fixes the width, the top of the upper one,
/// the bottom of the lower one and that they adjoin; the one length it
/// prefers is met where the rectangle has so many rows, and missed by as
/// little as can be, with all rows in the lower region, where it has fewer.
/// The rectangle's edges must be coordinates and the margin small, since the
/// layout adds the width to `x`, the height to `y` and doubles the margin.
#[verifier::external_body]
pub(crate) fn split_area(area: Area, margin: u16, bottom_rows: Option<u16>) -> (chunks: Vec<Area>)
    requires
        area.wf(),
        margin < 0x8000,
    ensures
        chunks@ == regions(area, margin, bottom_rows),
{
    let rules: Vec<Constraint> = std::iter::once(Constraint::Min(0))
        .chain(bottom_rows.iter().map(|rows| Constraint::Length(*rows)))
        .collect();
    Layout::default()
        .direction(Direction::Vertical)
        .horizontal_margin(margin)
        .constraints(rules)
        .split(Rect { x: area.x, y: area.y, width: area.width, height: area.height })
        .into_iter()
        .map(|r| Area { x: r.x, y: r.y, width: r.width, height: r.height })
        .collect()
}

/// Insets `area` by `margin` cells at its left and at its right.
pub fn inset_area(area: Area, margin: u16) -> (inner: Area)
    requires
        area.wf(),
        margin < 0x8000,
    ensures
        inner == inset(area, margin),
        inner.wf(),
{
    let chunks = split_area(area, margin, None);
    chunks[0]
}

/// Splits `area` into an upper region and a lower one that asks for
/// `bottom_rows` rows.
pub fn split_rows(area: Area, bottom_rows: u16) -> (parts: (Area, Area))
    requires
        area.wf(),
    ensures
        parts.0 == upper_region(area, bottom_rows),
        parts.1 == lower_region(area, bottom_rows),
        parts.0.wf(),
        parts.1.wf(),
{
    let chunks = split_area(area, 0, Some(bottom_rows));
    (chunks[0], chunks[1])
}

} // verus!
