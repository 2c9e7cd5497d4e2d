//! Character classes: the sets of characters that a password is drawn from.

use crate::random::{char_draw, choice_draw, RandomSource};
use rand::rngs::StdRng;
use vstd::prelude::*;

verus! {

/// The characters from `first` to `last`, both included.
pub open spec fn char_range(first: char, last: char) -> Set<char> {
    Set::new(|c: char| first <= c <= last)
}

/// The digits that a password may hold: `'1'` to `'9'`.
pub open spec fn numbers() -> Set<char> {
    char_range('1', '9')
}

/// The lower-case letters `'a'` to `'z'`.
pub open spec fn lowercase_letters() -> Set<char> {
    char_range('a', 'z')
}

/// The upper-case letters `'A'` to `'Z'`.
pub open spec fn uppercase_letters() -> Set<char> {
    char_range('A', 'Z')
}

/// The symbols that a password may hold, in the order in which they are
/// listed. White space, the backtick, the comma, the period, the quotes and
/// the backslash are left out.
pub open spec fn symbol_list() -> Seq<char> {
    seq![
        '!', '#', '$', '%', '&', '(', ')', '*', '+', '-', '/', ':', ';', '<', '=', '>', '?', '@',
        '[', ']', '^', '_', '{', '|', '}',
    ]
}

/// The symbols of [`symbol_list`] as a set.
pub open spec fn symbols() -> Set<char> {
    symbol_list().to_set()
}

/// A character class as a mathematical value: how it is given decides
/// both which characters it holds and how one of them is drawn.
pub enum CharClass {
    /// The characters from `first` to `last`, both included.
    Range { first: char, last: char },
    /// The characters of a list, in the order of the list.
    Listed(Seq<char>),
}

impl CharClass {
    /// The characters of the class.
    pub open spec fn chars(self) -> Set<char> {
        match self {
            CharClass::Range { first, last } => char_range(first, last),
            CharClass::Listed(chars) => chars.to_set(),
        }
    }

    /// The character that a source in `state` draws from the class, and
    /// the state of the source after the draw.
    pub open spec fn draw(self, state: StdRng) -> (char, StdRng) {
        match self {
            CharClass::Range { first, last } => char_draw(state, first, last),
            CharClass::Listed(chars) => {
                let (picked, after) = choice_draw(state, chars);
                (picked.unwrap(), after)
            },
        }
    }
}

/// The class [`numbers`].
pub open spec fn numbers_class() -> CharClass {
    CharClass::Range { first: '1', last: '9' }
}

/// The class [`lowercase_letters`].
pub open spec fn lowercase_class() -> CharClass {
    CharClass::Range { first: 'a', last: 'z' }
}

/// The class [`uppercase_letters`].
pub open spec fn uppercase_class() -> CharClass {
    CharClass::Range { first: 'A', last: 'Z' }
}

/// The class [`symbols`], listed as [`symbol_list`] has it.
pub open spec fn symbols_class() -> CharClass {
    CharClass::Listed(symbol_list())
}

#[derive(Debug)]
enum Members {
    Range { first: char, last: char },
    Listed(Vec<char>),
}

/// A non-empty set of characters, given either as a contiguous range or as
/// an explicit list.
#[derive(Debug)]
pub struct ClassSpec {
    members: Members,
}

impl View for ClassSpec {
    type V = CharClass;

    /// The class as it was given.
    closed spec fn view(&self) -> CharClass {
        match self.members {
            Members::Range { first, last } => CharClass::Range { first, last },
            Members::Listed(chars) => CharClass::Listed(chars@),
        }
    }
}

impl Clone for ClassSpec {
    /// The same class.
    fn clone(&self) -> (copy: Self)
        ensures
            copy@ == self@,
    {
        proof {
            use_type_invariant(self);
        }
        match &self.members {
            Members::Range { first, last } => ClassSpec {
                members: Members::Range { first: *first, last: *last },
            },
            Members::Listed(chars) => ClassSpec { members: Members::Listed(chars.clone()) },
        }
    }
}

impl ClassSpec {
    #[verifier::type_invariant]
    spec fn well_formed(self) -> bool {
        match self.members {
            Members::Range { first, last } => first <= last,
            Members::Listed(chars) => chars@.len() > 0,
        }
    }

    /// The class of the characters from `first` to `last`, both included;
    /// `None` when `first` lies after `last`, since a class is never empty.
    pub fn range(first: char, last: char) -> (class: Option<ClassSpec>)
        ensures
            class is Some <==> first <= last,
            class matches Some(c) ==> c@ == (CharClass::Range { first, last }),
    {
        if first <= last {
            Some(ClassSpec { members: Members::Range { first, last } })
        } else {
            None
        }
    }

    /// The class of the characters listed in `chars`; `None` when the list
    /// is empty, since a class is never empty.
    pub fn listed(chars: Vec<char>) -> (class: Option<ClassSpec>)
        ensures
            class is Some <==> chars@.len() > 0,
            class matches Some(c) ==> c@ == CharClass::Listed(chars@),
    {
        if chars.len() > 0 {
            Some(ClassSpec { members: Members::Listed(chars) })
        } else {
            None
        }
    }

    /// The class [`numbers`].
    pub fn numbers() -> (class: ClassSpec)
        ensures
            class@ == numbers_class(),
    {
        ClassSpec { members: Members::Range { first: '1', last: '9' } }
    }

    /// The class [`lowercase_letters`].
    pub fn lowercase_letters() -> (class: ClassSpec)
        ensures
            class@ == lowercase_class(),
    {
        ClassSpec { members: Members::Range { first: 'a', last: 'z' } }
    }

    /// The class [`uppercase_letters`].
    pub fn uppercase_letters() -> (class: ClassSpec)
        ensures
            class@ == uppercase_class(),
    {
        ClassSpec { members: Members::Range { first: 'A', last: 'Z' } }
    }

    /// The class [`symbols`].
    pub fn symbols() -> (class: ClassSpec)
        ensures
            class@ == symbols_class(),
    {
        let chars: Vec<char> = vec![
            '!', '#', '$', '%', '&', '(', ')', '*', '+', '-', '/', ':', ';', '<', '=', '>', '?',
            '@', '[', ']', '^', '_', '{', '|', '}',
        ];
        assert(chars@ =~= symbol_list());
        ClassSpec { members: Members::Listed(chars) }
    }

    /// Whether `c` belongs to the class.
    pub fn contains(&self, c: char) -> (found: bool)
        ensures
            found == self@.chars().contains(c),
    {
        match &self.members {
            Members::Range { first, last } => *first <= c && c <= *last,
            Members::Listed(chars) => {
                let mut i: usize = 0;
                while i < chars.len()
                    invariant
                        i <= chars@.len(),
                        self@ == CharClass::Listed(chars@),
                        forall|j: int| 0 <= j < i ==> chars@[j] != c,
                    decreases chars@.len() - i,
                {
                    if chars[i] == c {
                        assert(chars@[i as int] == c);
                        return true;
                    }
                    i += 1;
                }
                false
            },
        }
    }

    /// Draws one character of the class from `rng`: the character that
    /// [`CharClass::draw`] gives for the state of `rng`, which moves on as
    /// it says there.
    pub fn sample(&self, rng: &mut RandomSource) -> (c: char)
        ensures
            (c, final(rng)@) == self@.draw(old(rng)@),
            self@.chars().contains(c),
    {
        proof {
            use_type_invariant(self);
        }
        match &self.members {
            Members::Range { first, last } => rng.char_between(*first, *last),
            Members::Listed(chars) => {
                let picked = rng.char_among(chars);
                picked.unwrap()
            },
        }
    }
}

} // verus!
