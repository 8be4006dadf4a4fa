use prtui::console::{parse_line, parse_u16, Clear, Command, Listener, Prompt, RenderEvent, Renderer};
use prtui::events::RawKey;
use prtui::layout::Color;
use std::sync::mpsc;

fn chars(s: &str) -> Vec<char> {
    s.chars().collect()
}

fn warning_of(line: &str) -> String {
    match parse_line(&chars(line)) {
        Err(w) => w,
        Ok(e) => panic!("expected a warning, got {:?}", e),
    }
}

#[test]
fn parse_text_keeps_rest_of_line() {
    match parse_line(&chars("text hello  big world")) {
        Ok(RenderEvent::Draw(Command::Write(s))) => assert_eq!(s, "hello  big world"),
        other => panic!("unexpected {:?}", other),
    }
    match parse_line(&chars("text")) {
        Ok(RenderEvent::Draw(Command::Write(s))) => assert_eq!(s, ""),
        other => panic!("unexpected {:?}", other),
    }
}

#[test]
fn parse_goto() {
    assert!(matches!(parse_line(&chars("goto 5 3")), Ok(RenderEvent::Draw(Command::Goto(5, 3)))));
    assert!(matches!(parse_line(&chars("goto +7 65535")), Ok(RenderEvent::Draw(Command::Goto(7, 65535)))));
    assert_eq!(warning_of("goto 5"), "Not enough arguments");
    assert_eq!(warning_of("goto x 3"), "x is not a valid number.");
    assert_eq!(warning_of("goto 1 65536"), "65536 is not a valid number.");
}

#[test]
fn parse_clear_and_render() {
    assert!(matches!(parse_line(&chars("clear")), Ok(RenderEvent::Draw(Command::Clear(Clear::All)))));
    assert!(matches!(parse_line(&chars("render")), Ok(RenderEvent::Render)));
}

#[test]
fn parse_set_colours() {
    assert!(matches!(parse_line(&chars("set fg cyan")), Ok(RenderEvent::Draw(Command::SetFg(Color::Cyan)))));
    assert!(matches!(parse_line(&chars("set bg green")), Ok(RenderEvent::Draw(Command::SetBg(Color::Green)))));
    assert!(matches!(parse_line(&chars("set bg magenta")), Ok(RenderEvent::Draw(Command::SetBg(Color::White)))));
    assert_eq!(warning_of("set fg red"), "red is not a valid color.");
    assert_eq!(warning_of("set xy blue"), "xy is not a valid target.");
    assert_eq!(warning_of("set fg"), "Not enough arguments");
    assert_eq!(warning_of("set"), "Not enough arguments");
}

#[test]
fn parse_unknown_command() {
    assert_eq!(warning_of("jump 1"), "jump is not a valid command.");
    assert_eq!(warning_of(""), " is not a valid command.");
}

#[test]
fn parse_numbers() {
    assert_eq!(parse_u16(&chars("0")), Some(0));
    assert_eq!(parse_u16(&chars("00042")), Some(42));
    assert_eq!(parse_u16(&chars("+9")), Some(9));
    assert_eq!(parse_u16(&chars("")), None);
    assert_eq!(parse_u16(&chars("+")), None);
    assert_eq!(parse_u16(&chars("-1")), None);
    assert_eq!(parse_u16(&chars("1a")), None);
    assert_eq!(parse_u16(&chars("99999")), None);
}

#[test]
fn renderer_queues_until_render() {
    let mut r = Renderer::new();
    assert_eq!(r.receive_event(RenderEvent::Draw(Command::Goto(2, 4)), 24), None);
    assert_eq!(r.receive_event(RenderEvent::Draw(Command::Write("hi".to_string())), 24), None);
    assert_eq!(r.receive_event(RenderEvent::Draw(Command::SetBg(Color::Blue)), 24), None);
    assert_eq!(r.receive_event(RenderEvent::Draw(Command::Clear(Clear::Right)), 24), None);
    let out = r.receive_event(RenderEvent::Render, 24).unwrap();
    assert_eq!(out, "\x1b[4;2Hhi\x1b[48;5;4m\x1b[K");
    assert_eq!(r.receive_event(RenderEvent::Render, 24).unwrap(), "");
}

#[test]
fn renderer_status_line() {
    let mut r = Renderer::new();
    let out = r.receive_event(RenderEvent::Debug("go".to_string()), 30).unwrap();
    assert_eq!(out, "\x1b[30;1H\x1b[48;5;7m\x1b[38;5;0mgo\x1b[K");
}

#[test]
fn supported_commands() {
    assert!(Command::Clear(Clear::All).is_supported());
    assert!(!Command::Clear(Clear::Left).is_supported());
    assert!(!Command::SetFg(Color::Red).is_supported());
    assert!(!Command::SetContext(1, 1, 2, 2).is_supported());
    assert_eq!(Command::Clear(Clear::All).text(), "\x1b[2J");
}

#[test]
fn prompt_edits_and_submits() {
    let mut p = Prompt::new();
    for c in "goto 3 4".chars() {
        let r = p.key(RawKey::Char(c));
        assert!(!r.exit);
        assert_eq!(r.events.len(), 1);
    }
    let r = p.key(RawKey::Char('x'));
    match &r.events[0] {
        RenderEvent::Debug(s) => assert_eq!(s, "goto 3 4x"),
        other => panic!("unexpected {:?}", other),
    }
    let r = p.key(RawKey::Backspace);
    assert!(r.events.is_empty());
    let r = p.key(RawKey::Char('\n'));
    assert!(r.warning.is_none());
    assert_eq!(r.events.len(), 2);
    assert!(matches!(r.events[0], RenderEvent::Draw(Command::Goto(3, 4))));
    assert!(matches!(&r.events[1], RenderEvent::Debug(s) if s.is_empty()));
}

#[test]
fn prompt_warns_and_exits() {
    let mut p = Prompt::new();
    p.key(RawKey::Char('z'));
    let r = p.key(RawKey::Char('\n'));
    assert_eq!(r.warning.as_deref(), Some("z is not a valid command."));
    assert_eq!(r.events.len(), 1);
    assert!(p.key(RawKey::Esc).exit);
    assert!(!p.key(RawKey::Other).exit);
}

#[test]
fn listener_receives_in_order() {
    let (tx, rx) = mpsc::channel();
    let l = Listener::new(rx);
    tx.send(1u8).unwrap();
    tx.send(2u8).unwrap();
    drop(tx);
    assert_eq!(l.next(), Ok(1));
    assert_eq!(l.next(), Ok(2));
    assert!(l.next().is_err());
}
