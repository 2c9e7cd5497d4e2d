//! The engine as a program drives it: a session, the random source that
//! its passwords are drawn from, and the wish to quit.
//!
//! The program hands over key presses or events and reads the session
//! back. Two events are left to the program itself: on
//! [`Event::CopyPassword`] it writes the current password to the
//! clipboard, and on [`Event::Quit`] it ends its loop, which
//! [`App::should_exit`] reports from then on.

use crate::event::{key_binding, spec_key_binding, Event, Key};
use crate::random::RandomSource;
use crate::session::{Session, SessionState};
use rand::rngs::StdRng;
use vstd::prelude::*;

verus! {

/// An [`App`] as a mathematical value.
pub struct AppState {
    /// The session.
    pub session: SessionState,
    /// The state of the random source.
    pub source: StdRng,
    /// Whether the program was asked to quit.
    pub exit: bool,
}

impl AppState {
    /// The state in which an engine starts when it is given a random
    /// source in state `source`: the session starts as
    /// [`SessionState::start`] says, with its first preview drawn from the
    /// source.
    pub open spec fn start(source: StdRng) -> AppState {
        let (session, after) = SessionState::start(source);
        AppState { session, source: after, exit: false }
    }

    /// The state that follows `self` on `event`: the session and the
    /// random source move on as [`SessionState::advance`] says, and a wish
    /// to quit is remembered.
    pub open spec fn step(self, event: Event) -> AppState {
        let (session, after) = self.session.advance(event, self.source);
        AppState { session, source: after, exit: self.exit || event == Event::Quit }
    }

    /// The state that follows `self` when `key` is pressed: that of the
    /// event bound to the key, or `self` for a key without a binding.
    pub open spec fn press(self, key: Key) -> AppState {
        match spec_key_binding(self.session.configuring, key) {
            Some(event) => self.step(event),
            None => self,
        }
    }
}

/// A session together with its random source.
#[derive(Debug)]
pub struct App {
    session: Session,
    rng: RandomSource,
    exit: bool,
}

impl View for App {
    type V = AppState;

    closed spec fn view(&self) -> AppState {
        AppState { session: self.session@, source: self.rng@, exit: self.exit }
    }
}

impl App {
    /// An engine in its initial state that draws its passwords from `rng`.
    pub fn new(rng: RandomSource) -> (app: App)
        ensures
            app@ == AppState::start(rng@),
            app@.session.valid(),
    {
        let mut rng = rng;
        let session = Session::new(&mut rng);
        App { session, rng, exit: false }
    }

    /// Applies `event`: the session and the random source move on as
    /// [`AppState::step`] says, and [`Event::Quit`] is remembered.
    pub fn handle_event(&mut self, event: Event)
        ensures
            final(self)@ == old(self)@.step(event),
            final(self)@.session.valid(),
    {
        self.session.handle_event(event, &mut self.rng);
        if event == Event::Quit {
            self.exit = true;
        }
    }

    /// Applies the event that `key` is bound to on the current screen and
    /// returns it, so that the program can act on the events that are left
    /// to it. A key without a binding changes nothing.
    pub fn handle_key_event(&mut self, key: Key) -> (event: Option<Event>)
        ensures
            event == spec_key_binding(old(self)@.session.configuring, key),
            final(self)@ == old(self)@.press(key),
            final(self)@.session.valid(),
    {
        let event = key_binding(self.session.is_configuring(), key);
        if let Some(bound) = event {
            self.handle_event(bound);
        }
        event
    }

    /// The session.
    pub fn session(&self) -> (session: &Session)
        ensures
            session@ == self@.session,
    {
        &self.session
    }

    /// Whether the program was asked to quit.
    pub fn should_exit(&self) -> (exit: bool)
        ensures
            exit == self@.exit,
    {
        self.exit
    }

    /// The current length of the password.
    pub fn length(&self) -> (length: usize)
        ensures
            length == self@.session.length,
            self@.session.valid(),
    {
        self.session.current_length()
    }

    /// The password last generated.
    pub fn password(&self) -> (password: &String)
        ensures
            password@ == self@.session.password,
            self@.session.valid(),
    {
        self.session.current_password()
    }
}

} // verus!
