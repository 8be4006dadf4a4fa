//! The application controller: the view on screen, the navigation history,
//! and the state that events and rendering change.

use vstd::prelude::*;
use std::collections::VecDeque;
use crate::events::{Command, Event};
use crate::models::{PullRequest, User};
use crate::palette::Palette;
use crate::term::{clear_all, clear_all_seq, cursor_hide, cursor_hide_seq};
use crate::views::{Component, FullPullRequest, Page, PullRequestList};

verus! {

/// A last-in, first-out stack.
pub struct Stack<T> {
    inner: VecDeque<T>,
}

impl<T> View for Stack<T> {
    type V = Seq<T>;

    /// The items, the top first.
    closed spec fn view(&self) -> Seq<T> {
        self.inner@
    }
}

impl<T> Stack<T> {
    /// Puts `item` on top.
    pub fn push(&mut self, item: T)
        ensures
            final(self)@ == seq![item] + old(self)@,
    {
        self.inner.push_front(item);
        proof {
            assert(self@ =~= seq![item] + old(self)@);
        }
    }

    pub fn new() -> (r: Stack<T>)
        ensures
            r@ == Seq::<T>::empty(),
    {
        Stack { inner: VecDeque::new() }
    }

    /// Takes the top item off, if there is one.
    pub fn pop(&mut self) -> (r: Option<T>)
        ensures
            old(self)@.len() == 0 ==> r is None && final(self)@ == old(self)@,
            old(self)@.len() > 0 ==> r == Some(old(self)@[0]) && final(self)@ == old(self)@.drop_first(),
    {
        self.inner.pop_front()
    }

    pub fn len(&self) -> (r: usize)
        ensures
            r == self@.len(),
    {
        self.inner.len()
    }
}

/// Stores relevant state for the application.
pub struct AppState {
    pub(crate) dirty: bool,
    pub(crate) quitting: bool,
    pub user: User,
}

impl AppState {
    pub open(crate) spec fn is_dirty(&self) -> bool {
        self.dirty
    }

    pub open(crate) spec fn is_quitting(&self) -> bool {
        self.quitting
    }

    pub open(crate) spec fn spec_user(&self) -> User {
        self.user
    }

    /// Flips the dirty flag.
    pub fn toggle_dirty(&mut self)
        ensures
            final(self).is_dirty() == !old(self).is_dirty(),
            final(self).is_quitting() == old(self).is_quitting(),
            final(self).spec_user() == old(self).spec_user(),
    {
        self.dirty = !self.dirty;
    }

    /// The state of a session of `user`: dirty, and not quitting.
    pub fn for_user(user: User) -> (r: AppState)
        ensures
            r.is_dirty(),
            !r.is_quitting(),
            r.spec_user() == user,
    {
        AppState { dirty: true, user, quitting: false }
    }

    pub fn dirty(&self) -> (r: bool)
        ensures
            r == self.is_dirty(),
    {
        self.dirty
    }

    pub fn quitting(&self) -> (r: bool)
        ensures
            r == self.is_quitting(),
    {
        self.quitting
    }
}

/// What the controller holds, as the events see it.
pub ghost struct AppModel {
    /// The view on screen.
    pub current: Page,
    /// The views navigated away from, the latest first.
    pub history: Seq<Page>,
    pub quitting: bool,
    pub dirty: bool,
    pub palette: Palette,
    pub user: User,
}

/// Back: the latest view of the history, to be drawn again, comes back on
/// screen; with an empty history nothing changes.
pub open spec fn go_back(m: AppModel) -> AppModel {
    if m.history.len() > 0 {
        AppModel { current: m.history[0].invalidated(), history: m.history.drop_first(), ..m }
    } else {
        m
    }
}

/// The controller after `event`: Quit sets the quit flag; Select follows the
/// navigation that the current view requests (the detail of an item is shown
/// and the current view kept in the history; going back is Back); Back
/// returns to the previous view; movements go to the current view. Every
/// event then flips the dirty flag.
pub open spec fn step(m: AppModel, event: Event) -> AppModel {
    let next = match event {
        Event::Quit => AppModel { quitting: true, ..m },
        Event::Select => match m.current.selection() {
            Some(Command::ShowPull(pr)) => AppModel {
                current: Page::Detail(FullPullRequest::showing(*pr)),
                history: seq![m.current] + m.history,
                ..m
            },
            Some(Command::Back) => go_back(m),
            None => m,
        },
        Event::Back => go_back(m),
        Event::Move(_) => AppModel { current: m.current.after(event), ..m },
    };
    AppModel { dirty: !next.dirty, ..next }
}

/// The frame that rendering writes: both colour resets, a cleared screen,
/// the view, and the cursor hidden.
pub open spec fn frame_text(m: AppModel) -> Seq<char> {
    m.palette.dual_reset_text() + clear_all_seq() + m.current.frame(m.palette) + cursor_hide_seq()
}

/// Selecting a hovered item of a list and then going back returns to a list
/// with the same items and the same hovered item, over the same history; in
/// between, the detail of that item is on screen and the list on top of the
/// history.
pub proof fn lemma_select_then_back(m: AppModel, l: PullRequestList, i: usize)
    requires
        m.current == Page::List(l),
        l.hovered() == Some(i),
        i < l.spec_items().len(),
    ensures
        step(m, Event::Select).current == Page::Detail(FullPullRequest::showing(l.spec_items()[i as int])),
        step(m, Event::Select).history == seq![m.current] + m.history,
        step(step(m, Event::Select), Event::Back).current matches Page::List(back)
            && back.spec_items() == l.spec_items() && back.hovered() == l.hovered(),
        step(step(m, Event::Select), Event::Back).history == m.history,
        step(step(m, Event::Select), Event::Back).quitting == m.quitting,
{
    let s = step(m, Event::Select);
    assert((seq![m.current] + m.history).drop_first() =~= m.history);
    assert(s.history[0] == m.current);
}

/// The application: the palette it draws with, its state, the view on
/// screen, and the views to go back to.
pub struct App {
    palette: Palette,
    state: AppState,
    current_view: Page,
    history: Stack<Page>,
}

impl View for App {
    type V = AppModel;

    closed spec fn view(&self) -> AppModel {
        AppModel {
            current: self.current_view,
            history: self.history@,
            quitting: self.state.quitting,
            dirty: self.state.dirty,
            palette: self.palette,
            user: self.state.user,
        }
    }
}

impl App {
    /// An application showing the list of `pull_requests`, with no history.
    pub fn new(palette: Palette, state: AppState, pull_requests: Vec<PullRequest>) -> (r: App)
        ensures
            r@.current matches Page::List(l) && l.spec_items() == pull_requests@ && l.hovered()
                is None && l.is_dirty(),
            r@.history.len() == 0,
            r@.quitting == state.is_quitting(),
            r@.dirty == state.is_dirty(),
            r@.palette == palette,
            r@.user == state.spec_user(),
    {
        App {
            palette,
            state,
            history: Stack::new(),
            current_view: Page::List(PullRequestList::new(pull_requests)),
        }
    }

    pub fn should_quit(&self) -> (r: bool)
        ensures
            r == self@.quitting,
    {
        self.state.quitting
    }

    fn dirty(&self) -> (r: bool)
        ensures
            r == self@.current.is_dirty(),
    {
        self.current_view.dirty()
    }

    /// The frame to write when the view on screen is dirty, which it then no
    /// longer is; `None`, and nothing changed, when it is not.
    pub fn render(&mut self) -> (r: Option<String>)
        ensures
            old(self)@.current.is_dirty() ==> (r matches Some(frame) && frame@ == frame_text(
                old(self)@,
            )),
            old(self)@.current.is_dirty() ==> final(self)@ == (AppModel {
                current: old(self)@.current.rendered(),
                dirty: !old(self)@.dirty,
                ..old(self)@
            }),
            !old(self)@.current.is_dirty() ==> r is None && final(self)@ == old(self)@,
    {
        if self.dirty() {
            let mut frame = self.palette.dual_reset();
            let clear = clear_all();
            frame.append(clear.as_str());
            let body = self.current_view.render(&self.palette);
            frame.append(body.as_str());
            let hide = cursor_hide();
            frame.append(hide.as_str());
            self.state.toggle_dirty();
            Some(frame)
        } else {
            None
        }
    }

    fn go_back(&mut self)
        ensures
            final(self)@ == go_back(old(self)@),
    {
        if let Some(view) = self.history.pop() {
            let mut view = view;
            view.invalidate();
            self.current_view = view;
        }
    }

    /// Handles one event; see `step`.
    pub fn handle_event(&mut self, event: Event)
        ensures
            final(self)@ == step(old(self)@, event),
    {
        match event {
            Event::Quit => self.state.quitting = true,
            Event::Select => {
                let command = self.current_view.select();
                match command {
                    Some(Command::ShowPull(pr)) => {
                        let mut shown = Page::Detail(FullPullRequest::new(pr));
                        std::mem::swap(&mut self.current_view, &mut shown);
                        self.history.push(shown);
                    },
                    Some(Command::Back) => self.go_back(),
                    None => {},
                }
            },
            Event::Back => self.go_back(),
            Event::Move(_) => self.current_view.handle_event(event),
        }
        self.state.toggle_dirty();
    }

    pub fn current_view(&self) -> (r: &Page)
        ensures
            *r == self@.current,
    {
        &self.current_view
    }

    pub fn history_len(&self) -> (r: usize)
        ensures
            r == self@.history.len(),
    {
        self.history.len()
    }

    pub fn state(&self) -> (r: &AppState)
        ensures
            r.spec_user() == self@.user,
            r.is_dirty() == self@.dirty,
            r.is_quitting() == self@.quitting,
    {
        &self.state
    }
}

} // verus!
