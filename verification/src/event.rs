//! Keys as the engine sees them, the events of a session, and the binding
//! of the one to the other.

use vstd::prelude::*;

verus! {

/// A key press, reduced to what the bindings tell apart.
#[derive(Debug, Clone, Copy, PartialEq, Eq, Structural)]
pub enum Key {
    /// A key that stands for a character.
    Char(char),
    Left,
    Right,
    Up,
    Down,
    Enter,
    /// Any key without a binding of its own.
    Other,
}

/// What a session can be asked to do.
#[derive(Debug, Clone, Copy, PartialEq, Eq, Structural)]
pub enum Event {
    /// Move the category cursor forward.
    NavigateNext,
    /// Move the category cursor backward.
    NavigatePrevious,
    /// Start configuring the category under the cursor.
    ConfirmSelection,
    /// Leave the configuration of a category.
    Back,
    /// Make the password one character longer.
    IncreaseLength,
    /// Make the password one character shorter.
    DecreaseLength,
    /// Move the option cursor forward.
    NavigateOptionNext,
    /// Move the option cursor backward.
    NavigateOptionPrevious,
    /// Flip the option under the option cursor.
    ToggleCurrentOption,
    /// Hand the current password to the clipboard.
    CopyPassword,
    /// End the program.
    Quit,
}

/// The event that `key` stands for while a category is being configured.
pub open spec fn configuring_binding(key: Key) -> Option<Event> {
    match key {
        Key::Char('q') => Some(Event::Back),
        Key::Left | Key::Char('h') => Some(Event::DecreaseLength),
        Key::Right | Key::Char('l') => Some(Event::IncreaseLength),
        Key::Down | Key::Char('j') => Some(Event::NavigateOptionNext),
        Key::Up | Key::Char('k') => Some(Event::NavigateOptionPrevious),
        Key::Enter | Key::Char(' ') => Some(Event::ToggleCurrentOption),
        Key::Char('y') | Key::Char('c') => Some(Event::CopyPassword),
        _ => None,
    }
}

/// The event that `key` stands for while the categories are being browsed.
pub open spec fn browsing_binding(key: Key) -> Option<Event> {
    match key {
        Key::Char('q') => Some(Event::Quit),
        Key::Enter | Key::Char(' ') => Some(Event::ConfirmSelection),
        Key::Down | Key::Char('j') => Some(Event::NavigateNext),
        Key::Up | Key::Char('k') => Some(Event::NavigatePrevious),
        _ => None,
    }
}

/// The event that `key` stands for, given whether a category is being
/// configured.
pub open spec fn spec_key_binding(configuring: bool, key: Key) -> Option<Event> {
    if configuring {
        configuring_binding(key)
    } else {
        browsing_binding(key)
    }
}

/// The event that `key` stands for, given whether a category is being
/// configured; `None` for a key without a binding.
#[verifier::when_used_as_spec(spec_key_binding)]
pub fn key_binding(configuring: bool, key: Key) -> (event: Option<Event>)
    ensures
        event == spec_key_binding(configuring, key),
{
    if configuring {
        match key {
            Key::Char('q') => Some(Event::Back),
            Key::Left | Key::Char('h') => Some(Event::DecreaseLength),
            Key::Right | Key::Char('l') => Some(Event::IncreaseLength),
            Key::Down | Key::Char('j') => Some(Event::NavigateOptionNext),
            Key::Up | Key::Char('k') => Some(Event::NavigateOptionPrevious),
            Key::Enter | Key::Char(' ') => Some(Event::ToggleCurrentOption),
            Key::Char('y') | Key::Char('c') => Some(Event::CopyPassword),
            _ => None,
        }
    } else {
        match key {
            Key::Char('q') => Some(Event::Quit),
            Key::Enter | Key::Char(' ') => Some(Event::ConfirmSelection),
            Key::Down | Key::Char('j') => Some(Event::NavigateNext),
            Key::Up | Key::Char('k') => Some(Event::NavigatePrevious),
            _ => None,
        }
    }
}

} // verus!
