//! The switches that a password category may offer.

use crate::list::Items;
use vstd::prelude::*;

verus! {

/// A switch of a category that decides on one character class.
#[derive(Debug, Clone, Copy, PartialEq, Eq, Structural)]
pub enum Options {
    /// Whether the password may hold digits.
    Numbers,
    /// Whether the password may hold symbols.
    Symbols,
}

/// The switches in the order in which they are shown.
pub open spec fn option_registry() -> Seq<Options> {
    seq![Options::Numbers, Options::Symbols]
}

impl Options {
    /// The name under which the switch is shown.
    pub fn name(&self) -> (text: String)
        ensures
            text@ == match *self {
                Options::Numbers => "Numbers"@,
                Options::Symbols => "Symbols"@,
            },
    {
        match self {
            Options::Numbers => "Numbers".to_string(),
            Options::Symbols => "Symbols".to_string(),
        }
    }
}

impl Default for Items<Options> {
    /// The list of all switches, with the cursor on the first.
    fn default() -> (list: Self)
        ensures
            list@ == option_registry(),
            list.cursor() == Some(0int),
    {
        let mut items: Vec<Options> = Vec::new();
        items.push(Options::Numbers);
        items.push(Options::Symbols);
        assert(items@ =~= option_registry());
        Items::new(items)
    }
}

} // verus!
