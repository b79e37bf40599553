use vstd::prelude::*;
use crate::focus::Focus;
use crate::layout::{Area, LEFT_PERCENT, RIGHT_PERCENT, horizontal_split_of, pane_areas};

verus! {

/// Foreground colour of a pane's border and title.
#[derive(Clone, Copy, Debug, PartialEq, Eq, Structural)]
pub enum PaneColor {
    Blue,
    White,
}

/// What one pane shows: where, its title, its body text, and its colour.
#[derive(Clone, Copy, Debug)]
pub struct PaneView {
    pub area: Area,
    pub title: &'static str,
    pub body: &'static str,
    pub color: PaneColor,
}

/// One frame: the left pane and the right pane.
#[derive(Clone, Copy, Debug)]
pub struct FrameView {
    pub left: PaneView,
    pub right: PaneView,
}

/// A focused pane is blue, the other white.
pub open spec fn color_spec(focus: Focus, pane: Focus) -> PaneColor {
    if focus == pane {
        PaneColor::Blue
    } else {
        PaneColor::White
    }
}

/// The border colours of the left and right panes for a given focus.
pub fn pane_colors(focus: Focus) -> (r: (PaneColor, PaneColor))
    ensures
        r.0 == color_spec(focus, Focus::Left),
        r.1 == color_spec(focus, Focus::Right),
{
    match focus {
        Focus::Left => (PaneColor::Blue, PaneColor::White),
        Focus::Right => (PaneColor::White, PaneColor::Blue),
    }
}

/// The frame to draw on a terminal of size `area` with the given focus.
pub fn frame_view(focus: Focus, area: Area) -> (r: FrameView)
    ensures
        (r.left.area, r.right.area) == horizontal_split_of(area, LEFT_PERCENT, RIGHT_PERCENT),
        r.left.title@ == "Left Pane"@,
        r.right.title@ == "Right Pane"@,
        r.left.body@ == "Left Pane Content"@,
        r.right.body@ == "Right Pane Content"@,
        r.left.color == color_spec(focus, Focus::Left),
        r.right.color == color_spec(focus, Focus::Right),
{
    let (left_area, right_area) = pane_areas(area);
    let (left_color, right_color) = pane_colors(focus);
    FrameView {
        left: PaneView {
            area: left_area,
            title: "Left Pane",
            body: "Left Pane Content",
            color: left_color,
        },
        right: PaneView {
            area: right_area,
            title: "Right Pane",
            body: "Right Pane Content",
            color: right_color,
        },
    }
}

/// In every frame exactly one pane is blue and the other white, and the blue one
/// is the focused one.
pub proof fn lemma_one_blue_pane(focus: Focus)
    ensures
        (color_spec(focus, Focus::Left) == PaneColor::Blue) != (color_spec(focus, Focus::Right)
            == PaneColor::Blue),
        color_spec(focus, Focus::Left) == PaneColor::Blue || color_spec(focus, Focus::Left)
            == PaneColor::White,
        color_spec(focus, Focus::Right) == PaneColor::Blue || color_spec(focus, Focus::Right)
            == PaneColor::White,
        color_spec(focus, focus) == PaneColor::Blue,
{
}

} // verus!
