//! Application events, the table that makes them from raw keys, and the
//! receiving end of the queue they arrive through.

use vstd::prelude::*;
use std::sync::mpsc::{Receiver, RecvError};
use crate::models::PullRequest;

verus! {

/// Direction of a keyboard movement.
#[derive(Debug, Clone, Copy, PartialEq, Eq, Structural)]
pub enum Direction {
    Left,
    Right,
    Down,
    Up,
}

/// An event of the application.
#[derive(Debug, Clone, Copy, PartialEq, Eq, Structural)]
pub enum Event {
    Select,
    Quit,
    Move(Direction),
    Back,
}

/// A key as the terminal reports it, reduced to what the key table reads.
#[derive(Debug, Clone, Copy, PartialEq, Eq, Structural)]
pub enum RawKey {
    Esc,
    Backspace,
    Char(char),
    /// Any other key.
    Other,
}

/// A navigation request that a view makes when an item is selected.
#[derive(Debug)]
pub enum Command {
    /// Show the detail of this pull request.
    ShowPull(Box<PullRequest>),
    /// Return to the previous view.
    Back,
}

/// The key table: Escape and `q` quit, Backspace goes back, Enter selects,
/// `j`, `k`, `h` and `l` move down, up, left and right. Every other key makes
/// no event.
pub open spec fn key_event(k: RawKey) -> Option<Event> {
    match k {
        RawKey::Esc => Some(Event::Quit),
        RawKey::Backspace => Some(Event::Back),
        RawKey::Char(c) => if c == '\n' {
            Some(Event::Select)
        } else if c == 'q' {
            Some(Event::Quit)
        } else if c == 'j' {
            Some(Event::Move(Direction::Down))
        } else if c == 'k' {
            Some(Event::Move(Direction::Up))
        } else if c == 'h' {
            Some(Event::Move(Direction::Left))
        } else if c == 'l' {
            Some(Event::Move(Direction::Right))
        } else {
            None
        },
        RawKey::Other => None,
    }
}

/// The keys that the table lists.
pub open spec fn is_listed_key(k: RawKey) -> bool {
    ||| k == RawKey::Esc
    ||| k == RawKey::Backspace
    ||| k == RawKey::Char('\n')
    ||| k == RawKey::Char('q')
    ||| k == RawKey::Char('j')
    ||| k == RawKey::Char('k')
    ||| k == RawKey::Char('h')
    ||| k == RawKey::Char('l')
}

/// The event that key `k` makes, if any.
pub fn map_key(k: RawKey) -> (r: Option<Event>)
    ensures
        r == key_event(k),
{
    match k {
        RawKey::Esc => Some(Event::Quit),
        RawKey::Backspace => Some(Event::Back),
        RawKey::Char(ch) => {
            if ch == '\n' {
                Some(Event::Select)
            } else if ch == 'q' {
                Some(Event::Quit)
            } else if ch == 'j' {
                Some(Event::Move(Direction::Down))
            } else if ch == 'k' {
                Some(Event::Move(Direction::Up))
            } else if ch == 'h' {
                Some(Event::Move(Direction::Left))
            } else if ch == 'l' {
                Some(Event::Move(Direction::Right))
            } else {
                None
            }
        },
        RawKey::Other => None,
    }
}

/// The key table makes exactly one event of every key it lists, and none of
/// any other key; only Escape and `q` quit.
pub proof fn lemma_key_table(k: RawKey)
    ensures
        key_event(k) is Some <==> is_listed_key(k),
        key_event(k) == Some(Event::Quit) <==> (k == RawKey::Esc || k == RawKey::Char('q')),
        key_event(k) == Some(Event::Back) <==> k == RawKey::Backspace,
        key_event(k) == Some(Event::Select) <==> k == RawKey::Char('\n'),
{
}

#[verifier::external_type_specification]
#[verifier::external_body]
#[verifier::reject_recursive_types(T)]
pub struct ExReceiver<T>(Receiver<T>);

#[verifier::external_type_specification]
#[verifier::external_body]
pub struct ExRecvError(RecvError);

/// Relies on `std::sync::mpsc::Receiver::recv`: it blocks until a value
/// arrives or every sender is gone; nothing is known of which.
pub assume_specification<T>[ Receiver::<T>::recv ](r: &Receiver<T>) -> (res: Result<T, RecvError>);

/// Receives application events, in the order they were sent, from the
/// thread that reads the keyboard.
pub struct EventPump {
    rx: Receiver<Event>,
}

impl EventPump {
    /// An event pump over the receiving end of the event queue.
    pub fn new(rx: Receiver<Event>) -> EventPump {
        EventPump { rx }
    }

    /// The next event, waiting for one; `None` once the sending side is gone.
    pub fn next(&self) -> Option<Event> {
        match self.rx.recv() {
            Ok(event) => Some(event),
            Err(_) => None,
        }
    }
}

} // verus!
