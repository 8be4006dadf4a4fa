use prtui::app::{App, AppState, Stack};
use prtui::events::{Direction, Event};
use prtui::gh::{pulls_path, Client};
use prtui::models::{PullRequest, User};
use prtui::palette::Palette;
use prtui::views::{Component, Page};

fn user() -> User {
    User { id: 0, login: "octo".to_string(), url: "https://github.com/octo".to_string() }
}

fn two_items() -> Vec<PullRequest> {
    vec![
        PullRequest::new(0, 123, "Fix that stupid bug", "...", user()),
        PullRequest::new(1, 124, "Revert previous changes", "Many breaking changes.", user()),
    ]
}

fn new_app() -> App {
    App::new(Palette::default(), AppState::for_user(user()), two_items())
}

fn hovered(app: &App) -> Option<usize> {
    match app.current_view() {
        Page::List(l) => l.hovered_index(),
        Page::Detail(_) => panic!("expected the list on screen"),
    }
}

#[test]
fn stack_is_last_in_first_out() {
    let mut s: Stack<u32> = Stack::new();
    assert_eq!(s.pop(), None);
    s.push(1);
    s.push(2);
    assert_eq!(s.len(), 2);
    assert_eq!(s.pop(), Some(2));
    assert_eq!(s.pop(), Some(1));
    assert_eq!(s.pop(), None);
}

#[test]
fn state_toggles_dirty() {
    let mut state = AppState::for_user(user());
    assert!(state.dirty());
    assert!(!state.quitting());
    state.toggle_dirty();
    assert!(!state.dirty());
    state.toggle_dirty();
    assert!(state.dirty());
    assert_eq!(state.user.login, "octo");
}

#[test]
fn end_to_end_select_and_back() {
    let mut app = new_app();
    assert_eq!(hovered(&app), None);
    app.handle_event(Event::Move(Direction::Down));
    assert_eq!(hovered(&app), Some(0));
    app.handle_event(Event::Move(Direction::Down));
    assert_eq!(hovered(&app), Some(1));
    app.handle_event(Event::Select);
    assert_eq!(app.history_len(), 1);
    match app.current_view() {
        Page::Detail(d) => assert_eq!(d.item_ref().number, 124),
        Page::List(_) => panic!("expected the detail on screen"),
    }
    app.handle_event(Event::Back);
    assert_eq!(app.history_len(), 0);
    assert_eq!(hovered(&app), Some(1));
    match app.current_view() {
        Page::List(l) => {
            let numbers: Vec<usize> = l.items().iter().map(|p| p.number).collect();
            assert_eq!(numbers, vec![123, 124]);
        }
        Page::Detail(_) => panic!("expected the list on screen"),
    }
    assert!(!app.should_quit());
}

#[test]
fn select_without_hover_does_nothing() {
    let mut app = new_app();
    app.handle_event(Event::Select);
    assert_eq!(app.history_len(), 0);
    assert_eq!(hovered(&app), None);
}

#[test]
fn back_with_empty_history_does_not_quit() {
    let mut app = new_app();
    app.handle_event(Event::Back);
    assert!(!app.should_quit());
    assert_eq!(app.history_len(), 0);
    assert!(matches!(app.current_view(), Page::List(_)));
}

#[test]
fn quit_sets_flag() {
    let mut app = new_app();
    app.handle_event(Event::Quit);
    assert!(app.should_quit());
}

#[test]
fn every_event_flips_dirty_flag() {
    let mut app = new_app();
    assert!(app.state().dirty());
    app.handle_event(Event::Move(Direction::Left));
    assert!(!app.state().dirty());
    app.handle_event(Event::Quit);
    assert!(app.state().dirty());
}

#[test]
fn render_only_when_view_dirty() {
    let mut app = new_app();
    let frame = app.render().expect("a new list is dirty");
    let palette = Palette::default();
    assert!(frame.starts_with(&format!("{}\x1b[2J\x1b[1;1H", palette.dual_reset())));
    assert!(frame.ends_with("\x1b[?25l"));
    assert!(app.render().is_none());
    app.handle_event(Event::Move(Direction::Down));
    assert!(app.render().is_some());
}

#[test]
fn back_redraws_previous_view() {
    let mut app = new_app();
    app.handle_event(Event::Move(Direction::Down));
    app.render();
    app.handle_event(Event::Select);
    let detail = app.render().expect("a new detail is dirty");
    assert!(detail.contains("#123 "));
    app.handle_event(Event::Back);
    assert!(app.current_view().dirty());
    assert!(app.render().is_some());
}

#[test]
fn client_builds_requests() {
    let key = String::from("SECRET-REDACTED");
    let client = Client::new(&key);
    assert_eq!(client.url("user"), "https://api.github.com/user");
    assert_eq!(client.authorization(), "token SECRET-REDACTED");
    assert_eq!(pulls_path("backend"), "repos/bisondev/backend/pulls");
}
