use vstd::prelude::*;
use ratatui::layout::{Constraint, Direction, Layout, Rect};

verus! {

/// A rectangle of terminal cells.
#[derive(Clone, Copy, Debug, PartialEq, Eq, Structural)]
pub struct Area {
    pub x: u16,
    pub y: u16,
    pub width: u16,
    pub height: u16,
}

/// Share of the width, in percent, asked for the left pane.
pub const LEFT_PERCENT: u16 = 20;

/// Share of the width, in percent, asked for the right pane.
pub const RIGHT_PERCENT: u16 = 80;

/// The two areas that ratatui's layout solver gives for a horizontal split of
/// `area` into two percentage shares.
pub uninterp spec fn horizontal_split_of(area: Area, left_percent: u16, right_percent: u16) -> (
    Area,
    Area,
);

/// Relies on ratatui's `Layout::split` (horizontal, no margin, two
/// `Constraint::Percentage` constraints): it returns one rect per constraint,
/// and in a horizontal split each rect keeps the area's `y` and `height`;
/// the columns are the solver's.
#[verifier::external_body]
fn split_horizontal(area: Area, left_percent: u16, right_percent: u16) -> (r: (Area, Area))
    ensures
        r == horizontal_split_of(area, left_percent, right_percent),
        r.0.y == area.y && r.0.height == area.height,
        r.1.y == area.y && r.1.height == area.height,
{
    let rects = Layout::default().direction(Direction::Horizontal).constraints(
        [Constraint::Percentage(left_percent), Constraint::Percentage(right_percent)],
    ).split(Rect { x: area.x, y: area.y, width: area.width, height: area.height });
    let (a, b) = (rects[0], rects[1]);
    (
        Area { x: a.x, y: a.y, width: a.width, height: a.height },
        Area { x: b.x, y: b.y, width: b.width, height: b.height },
    )
}

/// The left and right pane areas of a frame that covers `area`.
pub fn pane_areas(area: Area) -> (r: (Area, Area))
    ensures
        r == horizontal_split_of(area, LEFT_PERCENT, RIGHT_PERCENT),
        r.0.y == area.y && r.0.height == area.height,
        r.1.y == area.y && r.1.height == area.height,
{
    split_horizontal(area, LEFT_PERCENT, RIGHT_PERCENT)
}

} // verus!
