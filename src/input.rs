use vstd::prelude::*;
use crate::focus::{App, Focus, lemma_even_toggles, other, toggled};

verus! {

/// How the terminal classified a key event.
#[derive(Clone, Copy, Debug, PartialEq, Eq, Structural)]
pub enum KeyKind {
    Press,
    Repeat,
    Release,
}

/// The key of a key event.
#[derive(Clone, Copy, Debug, PartialEq, Eq, Structural)]
pub enum KeyCode {
    Char(char),
    Enter,
    Other,
}

/// A key event: its kind, its key, and whether Control was held.
#[derive(Clone, Copy, Debug, PartialEq, Eq, Structural)]
pub struct KeyEvent {
    pub kind: KeyKind,
    pub code: KeyCode,
    pub ctrl: bool,
}

/// An input event: a key, or anything else (mouse, paste, resize, focus).
#[derive(Clone, Copy, Debug, PartialEq, Eq, Structural)]
pub enum InputEvent {
    Key(KeyEvent),
    NonKey,
}

/// What a recognised key asks for.
#[derive(Clone, Copy, Debug, PartialEq, Eq, Structural)]
pub enum Command {
    Quit,
    ToggleFocus,
    Nothing,
}

/// What the main loop does after one poll.
#[derive(Clone, Copy, Debug, PartialEq, Eq, Structural)]
pub enum Step {
    Continue,
    Quit,
}

/// A press of `q`, whatever the modifiers.
pub open spec fn is_quit_key(e: InputEvent) -> bool {
    match e {
        InputEvent::Key(k) => k.kind == KeyKind::Press && k.code == KeyCode::Char('q'),
        InputEvent::NonKey => false,
    }
}

/// A press of `e` with Control held.
pub open spec fn is_toggle_key(e: InputEvent) -> bool {
    match e {
        InputEvent::Key(k) => k.kind == KeyKind::Press && k.code == KeyCode::Char('e') && k.ctrl,
        InputEvent::NonKey => false,
    }
}

/// The command an event stands for; a `q` press wins over everything else.
pub open spec fn command_spec(e: InputEvent) -> Command {
    if is_quit_key(e) {
        Command::Quit
    } else if is_toggle_key(e) {
        Command::ToggleFocus
    } else {
        Command::Nothing
    }
}

/// The focus after one poll (`None`: the poll timed out), and whether the loop ends.
pub open spec fn step_spec(f: Focus, polled: Option<InputEvent>) -> (Focus, bool) {
    match polled {
        None => (f, false),
        Some(e) => match command_spec(e) {
            Command::Quit => (f, true),
            Command::ToggleFocus => (other(f), false),
            Command::Nothing => (f, false),
        },
    }
}

/// The focus after a run of polls, and whether some poll ended the loop;
/// polls after the one that ends the loop are not looked at.
pub open spec fn run(f: Focus, polls: Seq<Option<InputEvent>>) -> (Focus, bool)
    decreases polls.len(),
{
    if polls.len() == 0 {
        (f, false)
    } else {
        let (g, quit) = step_spec(f, polls[0]);
        if quit {
            (g, true)
        } else {
            run(g, polls.drop_first())
        }
    }
}

/// A poll that neither ends the loop nor changes the state.
pub open spec fn is_inert(p: Option<InputEvent>) -> bool {
    match p {
        None => true,
        Some(e) => !is_quit_key(e) && !is_toggle_key(e),
    }
}

/// Translates an event into the command it stands for.
pub fn command_of(e: &InputEvent) -> (r: Command)
    ensures
        r == command_spec(*e),
{
    match e {
        InputEvent::Key(k) => {
            let is_press = match k.kind {
                KeyKind::Press => true,
                _ => false,
            };
            if !is_press {
                Command::Nothing
            } else {
                match k.code {
                    KeyCode::Char(c) => {
                        if c == 'q' {
                            Command::Quit
                        } else if c == 'e' && k.ctrl {
                            Command::ToggleFocus
                        } else {
                            Command::Nothing
                        }
                    },
                    _ => Command::Nothing,
                }
            }
        },
        InputEvent::NonKey => Command::Nothing,
    }
}

impl App {
    /// Handles the outcome of one poll: `None` when no event came in time.
    pub fn handle(&mut self, polled: Option<InputEvent>) -> (r: Step)
        ensures
            (final(self).focus, r == Step::Quit) == step_spec(old(self).focus, polled),
    {
        match polled {
            None => Step::Continue,
            Some(e) => match command_of(&e) {
                Command::Quit => Step::Quit,
                Command::ToggleFocus => {
                    self.toggle_focus();
                    Step::Continue
                },
                Command::Nothing => Step::Continue,
            },
        }
    }

    /// Handles polls in order until one ends the loop; returns whether one did.
    pub fn process(&mut self, polls: &Vec<Option<InputEvent>>) -> (quit: bool)
        ensures
            (final(self).focus, quit) == run(old(self).focus, polls@),
    {
        let n = polls.len();
        let mut i: usize = 0;
        assert(polls@.subrange(0, n as int) =~= polls@);
        while i < n
            invariant
                n == polls@.len(),
                i <= n,
                run(old(self).focus, polls@) == run(self.focus, polls@.subrange(i as int, n as int)),
            decreases n - i,
        {
            let ghost before = self.focus;
            let ghost rest = polls@.subrange(i as int, n as int);
            assert(rest[0] == polls@[i as int]);
            assert(rest.drop_first() =~= polls@.subrange(i + 1, n as int));
            let step = self.handle(polls[i]);
            if let Step::Quit = step {
                return true;
            }
            i = i + 1;
        }
        assert(polls@.subrange(n as int, n as int) =~= Seq::<Option<InputEvent>>::empty());
        false
    }
}

/// Polls that are neither a `q` press nor a Control-`e` press leave the focus as it
/// was and never end the loop.
pub proof fn lemma_inert_polls(f: Focus, polls: Seq<Option<InputEvent>>)
    requires
        forall|i: int| 0 <= i < polls.len() ==> is_inert(#[trigger] polls[i]),
    ensures
        run(f, polls) == (f, false),
    decreases polls.len(),
{
    if polls.len() > 0 {
        assert(is_inert(polls[0]));
        assert forall|i: int| 0 <= i < polls.drop_first().len() implies is_inert(
            #[trigger] polls.drop_first()[i],
        ) by {
            assert(polls.drop_first()[i] == polls[i + 1]);
        }
        lemma_inert_polls(f, polls.drop_first());
    }
}

/// Toggling first and then `m` more times is toggling `m + 1` times.
proof fn lemma_toggled_shift(f: Focus, m: nat)
    ensures
        toggled(other(f), m) == toggled(f, m + 1),
    decreases m,
{
    if m > 0 {
        lemma_toggled_shift(f, (m - 1) as nat);
        assert(toggled(other(f), m) == other(toggled(other(f), (m - 1) as nat)));
        assert(((m - 1) as nat) + 1 == m);
        assert(toggled(f, m + 1) == other(toggled(f, m)));
    } else {
        assert(toggled(f, 1) == other(toggled(f, 0)));
    }
}

/// A run of Control-`e` presses toggles the focus once per press and never ends
/// the loop; so an even number of them, from either pane, leaves the focus where it was.
pub proof fn lemma_toggle_presses(f: Focus, polls: Seq<Option<InputEvent>>)
    requires
        forall|i: int|
            0 <= i < polls.len() ==> (#[trigger] polls[i] matches Some(e) && is_toggle_key(e)),
    ensures
        run(f, polls) == (toggled(f, polls.len()), false),
        polls.len() % 2 == 0 ==> run(f, polls).0 == f,
    decreases polls.len(),
{
    if polls.len() > 0 {
        assert(polls[0] matches Some(e) && is_toggle_key(e));
        assert forall|i: int| 0 <= i < polls.drop_first().len() implies (
        #[trigger] polls.drop_first()[i] matches Some(e) && is_toggle_key(e)) by {
            assert(polls.drop_first()[i] == polls[i + 1]);
        }
        lemma_toggle_presses(other(f), polls.drop_first());
        lemma_toggled_shift(f, (polls.len() - 1) as nat);
    }
    if polls.len() % 2 == 0 {
        lemma_even_toggles(f, polls.len() / 2);
        assert(2 * (polls.len() / 2) == polls.len());
    }
}

} // verus!
