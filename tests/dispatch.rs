use split_focus::focus::{App, Focus};
use split_focus::input::{command_of, Command, InputEvent, KeyCode, KeyEvent, KeyKind, Step};

fn press(c: char, ctrl: bool) -> Option<InputEvent> {
    Some(InputEvent::Key(KeyEvent { kind: KeyKind::Press, code: KeyCode::Char(c), ctrl }))
}

fn key(kind: KeyKind, code: KeyCode, ctrl: bool) -> InputEvent {
    InputEvent::Key(KeyEvent { kind, code, ctrl })
}

#[test]
fn new_app_focuses_left() {
    assert_eq!(App::new().focus, Focus::Left);
}

#[test]
fn toggle_focus_flips_and_flips_back() {
    let mut app = App::new();
    app.toggle_focus();
    assert_eq!(app.focus, Focus::Right);
    app.toggle_focus();
    assert_eq!(app.focus, Focus::Left);
}

#[test]
fn even_toggles_from_right_return_to_right() {
    let mut app = App { focus: Focus::Right };
    for _ in 0..6 {
        app.toggle_focus();
    }
    assert_eq!(app.focus, Focus::Right);
    let polls: Vec<Option<InputEvent>> = (0..4).map(|_| press('e', true)).collect();
    let mut app = App { focus: Focus::Right };
    assert!(!app.process(&polls));
    assert_eq!(app.focus, Focus::Right);
}

#[test]
fn commands_of_keys() {
    assert_eq!(command_of(&key(KeyKind::Press, KeyCode::Char('q'), false)), Command::Quit);
    assert_eq!(command_of(&key(KeyKind::Press, KeyCode::Char('q'), true)), Command::Quit);
    assert_eq!(command_of(&key(KeyKind::Press, KeyCode::Char('e'), true)), Command::ToggleFocus);
    assert_eq!(command_of(&key(KeyKind::Press, KeyCode::Char('e'), false)), Command::Nothing);
    assert_eq!(command_of(&key(KeyKind::Press, KeyCode::Char('Q'), false)), Command::Nothing);
    assert_eq!(command_of(&key(KeyKind::Press, KeyCode::Enter, true)), Command::Nothing);
    assert_eq!(command_of(&key(KeyKind::Release, KeyCode::Char('q'), false)), Command::Nothing);
    assert_eq!(command_of(&key(KeyKind::Repeat, KeyCode::Char('e'), true)), Command::Nothing);
    assert_eq!(command_of(&InputEvent::NonKey), Command::Nothing);
}

#[test]
fn handle_one_poll() {
    let mut app = App::new();
    assert_eq!(app.handle(None), Step::Continue);
    assert_eq!(app.focus, Focus::Left);
    assert_eq!(app.handle(press('e', true)), Step::Continue);
    assert_eq!(app.focus, Focus::Right);
    assert_eq!(app.handle(press('q', false)), Step::Quit);
    assert_eq!(app.focus, Focus::Right);
}

#[test]
fn inert_keys_change_nothing() {
    let polls = vec![
        press('x', true),
        Some(key(KeyKind::Release, KeyCode::Char('e'), true)),
        Some(key(KeyKind::Release, KeyCode::Char('q'), false)),
        Some(InputEvent::NonKey),
        None,
        Some(key(KeyKind::Press, KeyCode::Other, false)),
    ];
    let mut app = App { focus: Focus::Right };
    assert!(!app.process(&polls));
    assert_eq!(app.focus, Focus::Right);
}

#[test]
fn quit_right_away() {
    let mut app = App::new();
    assert!(app.process(&vec![press('q', false)]));
    assert_eq!(app.focus, Focus::Left);
}

#[test]
fn one_toggle_then_quit() {
    let mut app = App::new();
    assert!(app.process(&vec![press('e', true), press('q', false)]));
    assert_eq!(app.focus, Focus::Right);
}

#[test]
fn three_toggles_then_quit() {
    let mut app = App::new();
    let polls = vec![press('e', true), press('e', true), press('e', true), press('q', false)];
    assert!(app.process(&polls));
    assert_eq!(app.focus, Focus::Right);
}

#[test]
fn plain_keys_then_quit() {
    let mut app = App::new();
    let polls = vec![
        press('e', false),
        press('x', false),
        Some(key(KeyKind::Press, KeyCode::Enter, false)),
        press('q', false),
    ];
    assert!(app.process(&polls));
    assert_eq!(app.focus, Focus::Left);
}

#[test]
fn idle_polls_then_quit() {
    let mut app = App::new();
    let mut polls: Vec<Option<InputEvent>> = vec![None; 60];
    polls.push(press('q', false));
    assert!(app.process(&polls));
    assert_eq!(app.focus, Focus::Left);
}

#[test]
fn ctrl_c_is_discarded() {
    let mut app = App::new();
    assert!(!app.process(&vec![press('e', true), press('c', true)]));
    assert_eq!(app.focus, Focus::Right);
}

#[test]
fn polls_after_quit_are_ignored() {
    let mut app = App::new();
    assert!(app.process(&vec![press('q', false), press('e', true)]));
    assert_eq!(app.focus, Focus::Left);
}
