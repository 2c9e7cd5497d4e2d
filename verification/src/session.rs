//! The session: which category is current, how long its password is, which
//! switches are on, and the password last generated for them.
//!
//! A session is either browsing the categories or configuring one of them.
//! While browsing, the password is a live preview: it is generated anew
//! whenever the cursor moves to another category. Every change of the
//! category, the length or a switch is followed by a fresh password before
//! the session can be read again.

use crate::event::Event;
use crate::list::{next_index, previous_index, Items};
use crate::options::{option_registry, Options};
use crate::password::{registry, PasswordType};
use crate::random::RandomSource;
use rand::rngs::StdRng;
use vstd::prelude::*;

verus! {

/// What the user is doing.
#[derive(Debug, Clone, Copy, PartialEq, Eq, Structural)]
pub enum Screens {
    /// Choosing a category.
    Browsing,
    /// Adjusting the length and the switches of a category.
    Configuring(PasswordType),
}

/// A session as a mathematical value.
pub struct SessionState {
    /// Whether a category is being configured; otherwise the categories
    /// are being browsed.
    pub configuring: bool,
    /// The current category, with its switches as they stand.
    pub category: PasswordType,
    /// The current length.
    pub length: int,
    /// The password last generated.
    pub password: Seq<char>,
    /// Position of the cursor in the list of categories.
    pub category_cursor: int,
    /// Position of the cursor in the list of switches.
    pub option_cursor: int,
}

/// `length + 1`, held at the maximum of `category`.
pub open spec fn increased(category: PasswordType, length: int) -> int {
    if length + 1 > category.spec_max_length() {
        category.spec_max_length() as int
    } else {
        length + 1
    }
}

/// `length - 1`, held at the minimum of `category`.
pub open spec fn decreased(category: PasswordType, length: int) -> int {
    if length - 1 < category.spec_min_length() {
        category.spec_min_length() as int
    } else {
        length - 1
    }
}

impl SessionState {
    /// The state in which a session starts: browsing, with the cursor on
    /// the first category, at that category's minimum length.
    pub open spec fn initial(password: Seq<char>) -> SessionState {
        SessionState {
            configuring: false,
            category: registry()[0],
            length: registry()[0].spec_min_length() as int,
            password,
            category_cursor: 0,
            option_cursor: 0,
        }
    }

    /// What holds of every session: the cursors point into their lists, the
    /// current category is of the kind under the category cursor, the
    /// length lies within the bounds of the category, and the password is
    /// one that the category admits at that length.
    pub open spec fn valid(self) -> bool {
        &&& 0 <= self.category_cursor < registry().len()
        &&& 0 <= self.option_cursor < option_registry().len()
        &&& self.category.defaults() == registry()[self.category_cursor]
        &&& self.category.spec_min_length() <= self.length <= self.category.spec_max_length()
        &&& self.category.admits(self.length, self.password)
    }

    /// The screen that the session shows.
    pub open spec fn screen(self) -> Screens {
        if self.configuring {
            Screens::Configuring(self.category)
        } else {
            Screens::Browsing
        }
    }

    /// The state after the category cursor has moved to `cursor` while
    /// browsing: the category there becomes current, the length is moved
    /// into its bounds, and `fresh` is the new preview.
    pub open spec fn browse_to(self, cursor: int, fresh: Seq<char>) -> SessionState {
        SessionState {
            category: registry()[cursor],
            length: registry()[cursor].spec_clamp(self.length),
            password: fresh,
            category_cursor: cursor,
            ..self
        }
    }

    /// The state after a category was confirmed: that category is being
    /// configured, at its minimum length, with its switches as the registry
    /// lists them and the option cursor on the first switch.
    pub open spec fn confirm(self, fresh: Seq<char>) -> SessionState {
        SessionState {
            configuring: true,
            category: registry()[self.category_cursor],
            length: registry()[self.category_cursor].spec_min_length() as int,
            password: fresh,
            option_cursor: 0,
            ..self
        }
    }

    /// The state that follows `self` on `event` while browsing, where
    /// `fresh` is the password generated for the new state. Moving the
    /// cursor and confirming ask for a password; every other event leaves
    /// the state as it is.
    pub open spec fn step_browsing(self, event: Event, fresh: Seq<char>) -> SessionState {
        match event {
            Event::NavigateNext => self.browse_to(
                next_index(self.category_cursor, registry().len() as int),
                fresh,
            ),
            Event::NavigatePrevious => self.browse_to(
                previous_index(self.category_cursor, registry().len() as int),
                fresh,
            ),
            Event::ConfirmSelection => self.confirm(fresh),
            _ => self,
        }
    }

    /// The state that follows `self` on `event` while configuring a
    /// category that offers switches, for the three events that concern
    /// the switches.
    pub open spec fn step_options(self, event: Event, fresh: Seq<char>) -> SessionState {
        match event {
            Event::NavigateOptionNext => SessionState {
                option_cursor: next_index(self.option_cursor, option_registry().len() as int),
                password: fresh,
                ..self
            },
            Event::NavigateOptionPrevious => SessionState {
                option_cursor: previous_index(self.option_cursor, option_registry().len() as int),
                password: fresh,
                ..self
            },
            Event::ToggleCurrentOption => SessionState {
                category: self.category.spec_toggled(option_registry()[self.option_cursor]),
                password: fresh,
                ..self
            },
            _ => self,
        }
    }

    /// The state that follows `self` on `event` while configuring, where
    /// `fresh` is the password generated for the new state. Going back
    /// changes the screen and nothing else. A change of the length asks for
    /// a password, and so does every event on the switches of a category
    /// that has some. Every other event leaves the state as it is.
    pub open spec fn step_configuring(self, event: Event, fresh: Seq<char>) -> SessionState {
        match event {
            Event::Back => SessionState { configuring: false, ..self },
            Event::IncreaseLength => SessionState {
                length: increased(self.category, self.length),
                password: fresh,
                ..self
            },
            Event::DecreaseLength => SessionState {
                length: decreased(self.category, self.length),
                password: fresh,
                ..self
            },
            _ => if self.category.spec_has_options() {
                self.step_options(event, fresh)
            } else {
                self
            },
        }
    }

    /// The state that follows `self` on `event`, where `fresh` is the
    /// password that was generated if the event asks for one.
    pub open spec fn step(self, event: Event, fresh: Seq<char>) -> SessionState {
        if self.configuring {
            self.step_configuring(event, fresh)
        } else {
            self.step_browsing(event, fresh)
        }
    }

    /// The state after `event` was applied once for each password of
    /// `fresh`, in order.
    pub open spec fn step_repeatedly(self, event: Event, fresh: Seq<Seq<char>>) -> SessionState
        decreases fresh.len(),
    {
        if fresh.len() == 0 {
            self
        } else {
            self.step_repeatedly(event, fresh.drop_last()).step(event, fresh.last())
        }
    }

    /// Whether `event` is followed by a fresh password.
    pub open spec fn regenerates(self, event: Event) -> bool {
        if self.configuring {
            match event {
                Event::IncreaseLength | Event::DecreaseLength => true,
                Event::NavigateOptionNext
                | Event::NavigateOptionPrevious
                | Event::ToggleCurrentOption => self.category.spec_has_options(),
                _ => false,
            }
        } else {
            match event {
                Event::NavigateNext | Event::NavigatePrevious | Event::ConfirmSelection => true,
                _ => false,
            }
        }
    }
    /// The category and the length for which `event` asks for a fresh
    /// password, or `None` where it asks for none.
    pub open spec fn due(self, event: Event) -> Option<(PasswordType, int)> {
        if self.regenerates(event) {
            let next = self.step(event, self.password);
            Some((next.category, next.length))
        } else {
            None
        }
    }

    /// The state that follows `self` on `event` when the passwords are
    /// drawn from a source in state `source`, and the state of the source
    /// afterwards. Where the event asks for a password, it is the one that
    /// the source draws for the category and the length that the event
    /// leads to; where it asks for none, nothing is drawn.
    pub open spec fn advance(self, event: Event, source: StdRng) -> (SessionState, StdRng) {
        match self.due(event) {
            Some((category, length)) => {
                let (fresh, after) = category.spec_generate(source, length as nat);
                (self.step(event, fresh), after)
            },
            None => (self.step(event, self.password), source),
        }
    }

    /// The state in which a session starts when its first preview is
    /// drawn from a source in state `source`, and the state of the source
    /// afterwards.
    pub open spec fn start(source: StdRng) -> (SessionState, StdRng) {
        let (password, after) = registry()[0].spec_generate(
            source,
            registry()[0].spec_min_length() as nat,
        );
        (SessionState::initial(password), after)
    }
}

/// Decreasing the length of a configured category never takes it below
/// the minimum: from a length within the bounds, after as many presses as
/// `fresh` holds passwords, the length is the old one less the number of
/// presses, or the minimum where that would be lower. The screen and the
/// category stay as they were.
pub proof fn lemma_decrease_stops_at_minimum(state: SessionState, fresh: Seq<Seq<char>>)
    requires
        state.configuring,
        state.category.spec_min_length() <= state.length <= state.category.spec_max_length(),
    ensures
        state.step_repeatedly(Event::DecreaseLength, fresh).length == if state.length - fresh.len()
            < state.category.spec_min_length() {
            state.category.spec_min_length() as int
        } else {
            state.length - fresh.len()
        },
        state.step_repeatedly(Event::DecreaseLength, fresh).configuring,
        state.step_repeatedly(Event::DecreaseLength, fresh).category == state.category,
    decreases fresh.len(),
{
    if fresh.len() > 0 {
        lemma_decrease_stops_at_minimum(state, fresh.drop_last());
    }
}

/// Increasing the length of a configured category never takes it above
/// the maximum: from a length within the bounds, after as many presses as
/// `fresh` holds passwords, the length is the old one plus the number of
/// presses, or the maximum where that would be higher. The screen and the
/// category stay as they were.
pub proof fn lemma_increase_stops_at_maximum(state: SessionState, fresh: Seq<Seq<char>>)
    requires
        state.configuring,
        state.category.spec_min_length() <= state.length <= state.category.spec_max_length(),
    ensures
        state.step_repeatedly(Event::IncreaseLength, fresh).length == if state.length + fresh.len()
            > state.category.spec_max_length() {
            state.category.spec_max_length() as int
        } else {
            state.length + fresh.len()
        },
        state.step_repeatedly(Event::IncreaseLength, fresh).configuring,
        state.step_repeatedly(Event::IncreaseLength, fresh).category == state.category,
    decreases fresh.len(),
{
    if fresh.len() > 0 {
        lemma_increase_stops_at_maximum(state, fresh.drop_last());
    }
}

/// Every step leads from a valid state to a valid state, provided that the
/// password generated for an event that asks for one is admitted by the
/// category and the length that the step arrives at.
pub proof fn lemma_step_keeps_valid(state: SessionState, event: Event, fresh: Seq<char>)
    requires
        state.valid(),
        state.regenerates(event) ==> state.step(event, fresh).category.admits(
            state.step(event, fresh).length,
            fresh,
        ),
    ensures
        state.step(event, fresh).valid(),
{
    let categories = registry().len() as int;
    let options = option_registry().len() as int;
    crate::list::lemma_step_stays_in_range(state.category_cursor, categories);
    crate::list::lemma_step_stays_in_range(state.option_cursor, options);
}

/// An event that asks for no password leaves the password as it was, and
/// the state that it leads to does not depend on the password offered.
pub proof fn lemma_password_kept(
    state: SessionState,
    event: Event,
    fresh: Seq<char>,
    other: Seq<char>,
)
    requires
        !state.regenerates(event),
    ensures
        state.step(event, fresh).password == state.password,
        state.step(event, fresh) == state.step(event, other),
{
}

/// An event that asks for a password puts the password offered in place.
pub proof fn lemma_password_replaced(state: SessionState, event: Event, fresh: Seq<char>)
    requires
        state.regenerates(event),
    ensures
        state.step(event, fresh).password == fresh,
{
}

/// Going back while browsing changes nothing, so that going back twice is
/// the same as going back once.
pub proof fn lemma_back_is_idempotent(state: SessionState, fresh: Seq<char>, other: Seq<char>)
    ensures
        !state.configuring ==> state.step(Event::Back, fresh) == state,
        !state.step(Event::Back, fresh).configuring,
        state.step(Event::Back, fresh).step(Event::Back, other) == state.step(Event::Back, fresh),
{
}

/// Confirming while a category is configured changes nothing, so that
/// confirming twice is the same as confirming once.
pub proof fn lemma_confirm_is_idempotent(
    state: SessionState,
    fresh: Seq<char>,
    other: Seq<char>,
)
    ensures
        state.configuring ==> state.step(Event::ConfirmSelection, fresh) == state,
        state.step(Event::ConfirmSelection, fresh).configuring,
        state.step(Event::ConfirmSelection, fresh).step(Event::ConfirmSelection, other)
            == state.step(Event::ConfirmSelection, fresh),
{
}

/// The live state of one run: the lists with their cursors, the current
/// category, length and switches, and the password generated for them.
#[derive(Debug)]
pub struct Session {
    configuring: bool,
    category: PasswordType,
    length: usize,
    password: String,
    list_state: Items<PasswordType>,
    option_state: Items<Options>,
}

impl View for Session {
    type V = SessionState;

    closed spec fn view(&self) -> SessionState {
        SessionState {
            configuring: self.configuring,
            category: self.category,
            length: self.length as int,
            password: self.password@,
            category_cursor: self.list_state.cursor().unwrap(),
            option_cursor: self.option_state.cursor().unwrap(),
        }
    }
}

impl Session {
    #[verifier::type_invariant]
    spec fn well_formed(self) -> bool {
        &&& self.list_state@ == registry()
        &&& self.list_state.cursor() is Some
        &&& self.option_state@ == option_registry()
        &&& self.option_state.cursor() is Some
        &&& self@.valid()
    }

    /// A session in its initial state, with a first preview drawn from
    /// `rng`.
    pub fn new(rng: &mut RandomSource) -> (session: Session)
        ensures
            (session@, final(rng)@) == SessionState::start(old(rng)@),
            session@ == SessionState::initial(session@.password),
            session@.valid(),
    {
        let list_state = Items::<PasswordType>::default();
        let option_state = Items::<Options>::default();
        let category = PasswordType::Pin;
        let length = category.min_length();
        let password = category.generate(length, rng);
        Session { configuring: false, category, length, password, list_state, option_state }
    }

    /// Whether `event` asks for a fresh password, and if so for which
    /// category and length: those that the event leads to.
    pub fn password_due(&self, event: Event) -> (due: Option<(PasswordType, usize)>)
        ensures
            due is Some <==> self@.regenerates(event),
            match due {
                Some((category, length)) => self@.due(event) == Some((category, length as int)),
                None => self@.due(event) is None,
            },
            self@.valid(),
    {
        proof {
            use_type_invariant(self);
        }
        let category = self.category;
        let length = self.length;
        if self.configuring {
            match event {
                Event::IncreaseLength => {
                    if length < category.max_length() {
                        Some((category, length + 1))
                    } else {
                        Some((category, category.max_length()))
                    }
                },
                Event::DecreaseLength => {
                    if length > category.min_length() {
                        Some((category, length - 1))
                    } else {
                        Some((category, category.min_length()))
                    }
                },
                Event::NavigateOptionNext | Event::NavigateOptionPrevious => {
                    if category.has_options() {
                        Some((category, length))
                    } else {
                        None
                    }
                },
                Event::ToggleCurrentOption => {
                    match (category.has_options(), self.option_state.get_selected()) {
                        (true, Some(option)) => Some((category.toggled(*option), length)),
                        _ => None,
                    }
                },
                _ => None,
            }
        } else {
            match event {
                Event::NavigateNext => {
                    let mut list_state = self.list_state.clone();
                    list_state.next();
                    assert(list_state@ == registry());
                    let target = *list_state.get_selected().unwrap();
                    Some((target, target.clamp(length)))
                },
                Event::NavigatePrevious => {
                    let mut list_state = self.list_state.clone();
                    list_state.previous();
                    assert(list_state@ == registry());
                    let target = *list_state.get_selected().unwrap();
                    Some((target, target.clamp(length)))
                },
                Event::ConfirmSelection => {
                    let target = *self.list_state.get_selected().unwrap();
                    Some((target, target.min_length()))
                },
                _ => None,
            }
        }
    }

    /// Applies `event` to the session, drawing a fresh password from `rng`
    /// where the event asks for one: the session and `rng` end as
    /// [`SessionState::advance`] says.
    pub fn handle_event(&mut self, event: Event, rng: &mut RandomSource)
        ensures
            (final(self)@, final(rng)@) == old(self)@.advance(event, old(rng)@),
            final(self)@ == old(self)@.step(event, final(self)@.password),
            !old(self)@.regenerates(event) ==> final(self)@.password == old(self)@.password,
            final(self)@.valid(),
    {
        proof {
            use_type_invariant(&*self);
        }
        match self.password_due(event) {
            None => {
                if self.configuring && event == Event::Back {
                    self.configuring = false;
                }
            },
            Some((category, length)) => {
                let mut list_state = self.list_state.clone();
                let mut option_state = self.option_state.clone();
                let mut configuring = self.configuring;
                match event {
                    Event::NavigateNext => {
                        list_state.next();
                    },
                    Event::NavigatePrevious => {
                        list_state.previous();
                    },
                    Event::ConfirmSelection => {
                        configuring = true;
                        option_state.select(0);
                    },
                    Event::NavigateOptionNext => {
                        option_state.next();
                    },
                    Event::NavigateOptionPrevious => {
                        option_state.previous();
                    },
                    _ => {},
                }
                let password = category.generate(length, rng);
                assert(list_state@ == registry());
                assert(option_state@ == option_registry());
                *self = Session {
                    configuring,
                    category,
                    length,
                    password,
                    list_state,
                    option_state,
                };
            },
        }
    }

    /// Whether a category is being configured.
    pub fn is_configuring(&self) -> (configuring: bool)
        ensures
            configuring == self@.configuring,
            self@.valid(),
    {
        proof {
            use_type_invariant(self);
        }
        self.configuring
    }

    /// The screen that the session shows.
    pub fn screen(&self) -> (screen: Screens)
        ensures
            screen == self@.screen(),
            self@.valid(),
    {
        proof {
            use_type_invariant(self);
        }
        if self.configuring {
            Screens::Configuring(self.category)
        } else {
            Screens::Browsing
        }
    }

    /// The current category, with its switches as they stand. It is always
    /// of the kind under the category cursor.
    pub fn current_category(&self) -> (category: PasswordType)
        ensures
            category == self@.category,
            self@.valid(),
    {
        proof {
            use_type_invariant(self);
        }
        self.category
    }

    /// The current length, which always lies within the bounds of the
    /// current category.
    pub fn current_length(&self) -> (length: usize)
        ensures
            length == self@.length,
            self@.valid(),
    {
        proof {
            use_type_invariant(self);
        }
        self.length
    }

    /// The password last generated, which the current category always
    /// admits at the current length.
    pub fn current_password(&self) -> (password: &String)
        ensures
            password@ == self@.password,
            self@.valid(),
    {
        proof {
            use_type_invariant(self);
        }
        &self.password
    }

    /// The values of the switches of the current category, in the order of
    /// the option list; empty when the category has none.
    pub fn current_options(&self) -> (values: Vec<bool>)
        ensures
            values@ == self@.category.spec_option_values(),
            self@.valid(),
    {
        proof {
            use_type_invariant(self);
        }
        self.category.option_values()
    }

    /// The list of categories with its cursor.
    pub fn category_list(&self) -> (list: &Items<PasswordType>)
        ensures
            list@ == registry(),
            list.cursor() == Some(self@.category_cursor),
            self@.valid(),
    {
        proof {
            use_type_invariant(self);
        }
        &self.list_state
    }

    /// The list of switches with its cursor, when the current category
    /// offers switches.
    pub fn option_list(&self) -> (list: Option<&Items<Options>>)
        ensures
            list is Some <==> self@.category.spec_has_options(),
            list matches Some(options) ==> options@ == option_registry() && options.cursor()
                == Some(self@.option_cursor),
            self@.valid(),
    {
        proof {
            use_type_invariant(self);
        }
        if self.category.has_options() {
            Some(&self.option_state)
        } else {
            None
        }
    }
}

} // verus!
