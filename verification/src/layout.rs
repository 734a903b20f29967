//! The layout engine: `ratatui` splits an area into bands, one below the
//! other, and shrinks an area by a margin. The calls into it are made here and
//! nowhere else.

use vstd::prelude::*;
use crate::geometry::Rect;

verus! {

/// How tall one band of a vertical split wants to be.
#[derive(Debug, Clone, Copy, PartialEq, Eq, Structural)]
pub enum Constraint {
    /// Exactly this many rows.
    Length(u16),
    /// At least this many rows.
    Min(u16),
    /// This share of the area's height, in percent.
    Percentage(u16),
}

/// What every vertical split of `area` into `count` bands has: one band for
/// each constraint, each spanning the area's columns and lying within its
/// rows. How the rows are shared out among the bands is not part of it.
pub open spec fn bands_within(bands: Seq<Rect>, count: nat, area: Rect) -> bool {
    &&& bands.len() == count
    &&& forall|i: int| 0 <= i < bands.len() ==> (#[trigger] bands[i]).band_of(area)
}

/// `ratatui::layout::Layout::vertical(constraints).split(area)`.
///
/// Trusted: the result has one rectangle for each constraint, in order; each
/// has the area's `x` and `width`, starts no higher than the area and ends no
/// lower. The engine hands these bounds to its solver as required
/// constraints. How the rows are shared out, and that one band ends before
/// the next starts, it asks for by weights only, and the solver walks hash
/// maps in an order that differs from run to run: of that nothing is stated.
#[verifier::external_body]
pub(crate) fn split_vertical(constraints: &Vec<Constraint>, area: Rect) -> (bands: Vec<Rect>)
    ensures
        bands_within(bands@, constraints@.len(), area),
{
    let wanted = constraints.iter().map(|c| match c {
        Constraint::Length(n) => ratatui::layout::Constraint::Length(*n),
        Constraint::Min(n) => ratatui::layout::Constraint::Min(*n),
        Constraint::Percentage(n) => ratatui::layout::Constraint::Percentage(*n),
    });
    let whole = ratatui::layout::Rect { x: area.x, y: area.y, width: area.width, height: area.height };
    let parts = ratatui::layout::Layout::vertical(wanted).split(whole);
    parts.iter().map(|r| Rect { x: r.x, y: r.y, width: r.width, height: r.height }).collect()
}

/// `ratatui::layout::Rect::inner` with the margin `(horizontal, vertical)`.
///
/// Trusted: the result is `area.shrunk(horizontal, vertical)`, which restates
/// the method's body: doubled margins and moved corners saturate, and an
/// area too small for the doubled margins gives the zero rectangle.
#[verifier::external_body]
pub(crate) fn inner(area: Rect, horizontal: u16, vertical: u16) -> (inside: Rect)
    ensures
        inside == area.shrunk(horizontal, vertical),
{
    let whole = ratatui::layout::Rect { x: area.x, y: area.y, width: area.width, height: area.height };
    let r = whole.inner(ratatui::layout::Margin { horizontal, vertical });
    Rect { x: r.x, y: r.y, width: r.width, height: r.height }
}

} // verus!
