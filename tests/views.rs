use prtui::events::{Command, Direction, Event};
use prtui::mock;
use prtui::models::{PullRequest, User};
use prtui::palette::Palette;
use prtui::views::{Component, FullPullRequest, PullRequestList};

fn owner(login: &str) -> User {
    User { id: 7, login: login.to_string(), url: format!("https://github.com/{}", login) }
}

fn three_items() -> Vec<PullRequest> {
    vec![
        PullRequest::new(1, 5, "abc", "b1", owner("ann")),
        PullRequest::new(2, 1234, "abcdefghij", "b2", owner("bo")),
        PullRequest::new(3, 77, "z", "b3", owner("carlos")),
    ]
}

#[test]
fn new_list_has_no_hover_and_is_dirty() {
    let list = PullRequestList::new(three_items());
    assert_eq!(list.hovered_index(), None);
    assert!(list.dirty());
    assert!(list.select().is_none());
}

#[test]
fn hover_down_wraps_to_first() {
    let mut list = PullRequestList::new(three_items());
    list.hover_down();
    assert_eq!(list.hovered_index(), Some(0));
    list.hover_down();
    list.hover_down();
    assert_eq!(list.hovered_index(), Some(2));
    list.hover_down();
    assert_eq!(list.hovered_index(), Some(0));
}

#[test]
fn hover_up_wraps_to_last() {
    let mut list = PullRequestList::new(three_items());
    list.hover_up();
    assert_eq!(list.hovered_index(), Some(2));
    list.hover_up();
    assert_eq!(list.hovered_index(), Some(1));
    list.hover_up();
    list.hover_up();
    assert_eq!(list.hovered_index(), Some(2));
}

#[test]
fn hover_on_empty_list_hovers_nothing() {
    let mut list = PullRequestList::new(vec![]);
    list.hover_up();
    assert_eq!(list.hovered_index(), None);
    list.hover_down();
    assert_eq!(list.hovered_index(), None);
    assert!(list.select().is_none());
}

#[test]
fn sideways_moves_are_ignored() {
    let mut list = PullRequestList::new(three_items());
    list.handle_event(Event::Move(Direction::Down));
    list.handle_event(Event::Move(Direction::Left));
    list.handle_event(Event::Move(Direction::Right));
    list.handle_event(Event::Select);
    assert_eq!(list.hovered_index(), Some(0));
}

#[test]
fn select_requests_hovered_detail() {
    let mut list = PullRequestList::new(three_items());
    list.handle_event(Event::Move(Direction::Up));
    match list.select() {
        Some(Command::ShowPull(pr)) => {
            assert_eq!(pr.number, 77);
            assert_eq!(pr.title, "z");
            assert_eq!(pr.owner.login, "carlos");
        }
        _ => panic!("expected the detail of the hovered item"),
    }
}

#[test]
fn column_widths_are_widest_cells() {
    let list = PullRequestList::new(three_items());
    assert_eq!(list.column_widths(), vec![4, 10, 6, 4]);
}

#[test]
fn title_cells_padded_to_widest_title() {
    let palette = Palette::default();
    let mut list = PullRequestList::new(three_items());
    let out = list.render(&palette);
    let f3 = "\x1b[38;5;5m";
    let f4 = "\x1b[38;2;255;20;147m";
    for title in ["abc", "abcdefghij", "z"] {
        let cell = format!("{}{:<10} {}", f3, title, f4);
        assert!(out.contains(&cell), "title {:?} not padded to 10", title);
    }
    assert!(!list.dirty());
}

#[test]
fn render_list_exactly() {
    let palette = Palette::default();
    let items = vec![PullRequest::new(1, 9, "ab", "", owner("x")), PullRequest::new(2, 10, "c", "", owner("yz"))];
    let mut list = PullRequestList::new(items);
    list.hover_down();
    let out = list.render(&palette);
    let reset = palette.dual_reset();
    let header = format!(
        "\x1b[1;1H\x1b[48;2;36;36;36mNum Title Owner State \x1b[K{}\n\r",
        reset
    );
    let line0 = format!(
        "\x1b[48;2;40;40;40m\x1b[38;2;140;130;255m#9  \x1b[38;5;5mab \x1b[38;2;255;20;147mx  \x1b[38;5;2mopen\x1b[K{}\n\r",
        reset
    );
    let line1 = format!(
        "\x1b[38;2;140;130;255m#10 \x1b[38;5;5mc  \x1b[38;2;255;20;147myz \x1b[38;5;2mopen\x1b[K{}\n\r",
        reset
    );
    assert_eq!(out, format!("{}{}{}", header, line0, line1));
}

#[test]
fn detail_renders_fields() {
    let palette = Palette::default();
    let pr = PullRequest::new(1, 124, "Revert", "Body text", owner("ann"));
    let mut detail = FullPullRequest::new(Box::new(pr));
    assert!(detail.dirty());
    let out = detail.render(&palette);
    assert_eq!(
        out,
        "\x1b[1;1H\x1b[38;5;2m#124 \x1b[38;5;5mRevert\n\r\x1b[38;2;30;30;240mann\n\r\x1b[38;2;250;250;250mBody text"
    );
    assert!(!detail.dirty());
    detail.handle_event(Event::Move(Direction::Down));
    assert!(!detail.dirty());
    assert!(detail.select().is_none());
}

#[test]
fn into_items_gives_items_back() {
    let list = PullRequestList::new(three_items());
    let items = list.into_items();
    let numbers: Vec<usize> = items.iter().map(|p| p.number).collect();
    assert_eq!(numbers, vec![5, 1234, 77]);
}

#[test]
fn mock_data() {
    let user = mock::user("octo").unwrap();
    assert_eq!(user.id, 0);
    assert_eq!(user.login, "octo");
    assert_eq!(user.url, "https://github.com/octo");
    let prs = mock::pull_requests(user).unwrap();
    let numbers: Vec<usize> = prs.iter().map(|p| p.number).collect();
    assert_eq!(numbers, vec![123, 124, 128, 109]);
    assert!(prs.iter().all(|p| p.state == "open" && p.owner.login == "octo"));
    assert_eq!(prs[2].title, "Quick fix: Don't panic on read Err.");
}
