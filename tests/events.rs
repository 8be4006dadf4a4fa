use prtui::events::{map_key, Direction, Event, EventPump, RawKey};
use std::sync::mpsc;

#[test]
fn listed_keys_make_their_event() {
    assert_eq!(map_key(RawKey::Esc), Some(Event::Quit));
    assert_eq!(map_key(RawKey::Backspace), Some(Event::Back));
    assert_eq!(map_key(RawKey::Char('q')), Some(Event::Quit));
    assert_eq!(map_key(RawKey::Char('\n')), Some(Event::Select));
    assert_eq!(map_key(RawKey::Char('j')), Some(Event::Move(Direction::Down)));
    assert_eq!(map_key(RawKey::Char('k')), Some(Event::Move(Direction::Up)));
    assert_eq!(map_key(RawKey::Char('h')), Some(Event::Move(Direction::Left)));
    assert_eq!(map_key(RawKey::Char('l')), Some(Event::Move(Direction::Right)));
}

#[test]
fn other_keys_make_no_event() {
    for c in ['a', 'Q', 'J', ' ', '\r', 'x', '1'] {
        assert_eq!(map_key(RawKey::Char(c)), None);
    }
    assert_eq!(map_key(RawKey::Other), None);
}

#[test]
fn pump_delivers_in_order_then_ends() {
    let (tx, rx) = mpsc::channel();
    let pump = EventPump::new(rx);
    tx.send(Event::Move(Direction::Down)).unwrap();
    tx.send(Event::Select).unwrap();
    tx.send(Event::Quit).unwrap();
    drop(tx);
    assert_eq!(pump.next(), Some(Event::Move(Direction::Down)));
    assert_eq!(pump.next(), Some(Event::Select));
    assert_eq!(pump.next(), Some(Event::Quit));
    assert_eq!(pump.next(), None);
}
