use vstd::prelude::*;

verus! {

/// The pane that holds the keyboard focus.
#[derive(Clone, Copy, Debug, PartialEq, Eq, Structural)]
pub enum Focus {
    Left,
    Right,
}

/// The pane that does not hold the focus.
pub open spec fn other(f: Focus) -> Focus {
    match f {
        Focus::Left => Focus::Right,
        Focus::Right => Focus::Left,
    }
}

/// The focus after `n` toggles, starting from `f`.
pub open spec fn toggled(f: Focus, n: nat) -> Focus
    decreases n,
{
    if n == 0 {
        f
    } else {
        other(toggled(f, (n - 1) as nat))
    }
}

/// The application state: which pane is focused.
pub struct App {
    pub focus: Focus,
}

impl App {
    /// A fresh state, with the left pane focused.
    pub fn new() -> (r: App)
        ensures
            r.focus == Focus::Left,
    {
        App { focus: Focus::Left }
    }

    /// Moves the focus to the other pane.
    pub fn toggle_focus(&mut self)
        ensures
            final(self).focus == other(old(self).focus),
    {
        self.focus = match self.focus {
            Focus::Left => Focus::Right,
            Focus::Right => Focus::Left,
        };
    }
}

/// The focus is always exactly one of the two panes.
pub proof fn lemma_focus_is_a_pane(app: App)
    ensures
        app.focus == Focus::Left || app.focus == Focus::Right,
        !(app.focus == Focus::Left && app.focus == Focus::Right),
{
}

/// Toggling twice gives back the focus one started from.
pub proof fn lemma_toggle_twice(f: Focus)
    ensures
        other(other(f)) == f,
        other(f) != f,
{
}

/// Any even number of toggles, from any focus, leaves the focus where it was.
pub proof fn lemma_even_toggles(f: Focus, n: nat)
    ensures
        toggled(f, 2 * n) == f,
    decreases n,
{
    if n > 0 {
        lemma_even_toggles(f, (n - 1) as nat);
        assert(toggled(f, (2 * n - 1) as nat) == other(toggled(f, (2 * n - 2) as nat)));
        assert(toggled(f, 2 * n) == other(toggled(f, (2 * n - 1) as nat)));
        assert(2 * (n - 1) == 2 * n - 2);
    }
}

} // verus!
