//! The password categories: what each may hold and how long it may be.

use crate::classes::{
    lowercase_class, numbers_class, symbols_class, uppercase_class, CharClass, ClassSpec,
};
use crate::generate::{
    char_sets, class_views, covers, drawn_from, generated, get_random_string, GenerateError,
};
use crate::list::Items;
use crate::options::Options;
use crate::random::{char_draw, RandomSource};
use core::ops::RangeInclusive;
use rand::rngs::StdRng;
use vstd::prelude::*;

verus! {

/// Shortest PIN.
pub const PIN_MIN_LENGTH: usize = 3;

/// Longest PIN.
pub const PIN_MAX_LENGTH: usize = 12;

/// Shortest random password.
pub const RANDOM_MIN_LENGTH: usize = 8;

/// Longest random password.
pub const RANDOM_MAX_LENGTH: usize = 100;

/// A kind of password, with the switches that it offers.
#[derive(Debug, Clone, Copy, PartialEq, Eq, Structural)]
pub enum PasswordType {
    /// Digits only.
    Pin,
    /// Letters of both cases, with digits and symbols on request.
    Random { numbers: bool, symbols: bool },
}

/// The categories in the order in which they are offered, each with its
/// switches as they stand before the user touches them.
pub open spec fn registry() -> Seq<PasswordType> {
    seq![PasswordType::Pin, PasswordType::Random { numbers: true, symbols: true }]
}

/// The classes that the three switches ask for: digits first, then the
/// letters of both cases, then symbols.
pub open spec fn flag_classes(numbers: bool, symbols: bool, letters: bool) -> Seq<CharClass> {
    let digits = if numbers {
        seq![numbers_class()]
    } else {
        Seq::<CharClass>::empty()
    };
    let alphabet = if letters {
        seq![lowercase_class(), uppercase_class()]
    } else {
        Seq::<CharClass>::empty()
    };
    let marks = if symbols {
        seq![symbols_class()]
    } else {
        Seq::<CharClass>::empty()
    };
    digits + alphabet + marks
}

/// The decimal digits `'0'` to `'9'`.
pub open spec fn decimal_digits() -> Set<char> {
    crate::classes::char_range('0', '9')
}

/// The PIN of `length` decimal digits that a source in `state` draws, and
/// the state of the source after the last draw.
pub open spec fn pin_digits(state: StdRng, length: nat) -> (Seq<char>, StdRng)
    decreases length,
{
    if length == 0 {
        (Seq::<char>::empty(), state)
    } else {
        let (digits, drawn) = pin_digits(state, (length - 1) as nat);
        let (digit, after) = char_draw(drawn, '0', '9');
        (digits.push(digit), after)
    }
}

/// Whatever its switches say, a category has at least one class to draw
/// from: a PIN has its digits, and a random password keeps the letters of
/// both cases.
pub proof fn lemma_classes_never_empty(category: PasswordType)
    ensures
        category.spec_classes().len() > 0,
        category is Pin ==> category.spec_classes() == seq![numbers_class()],
        category is Random ==> exists|i: int|
            0 <= i && i + 1 < category.spec_classes().len() && category.spec_classes()[i]
                == lowercase_class() && #[trigger] category.spec_classes()[i + 1]
                == uppercase_class(),
{
    match category {
        PasswordType::Pin => {
            assert(category.spec_classes() =~= seq![numbers_class()]);
        },
        PasswordType::Random { numbers, symbols } => {
            let i: int = if numbers { 1 } else { 0 };
            assert(category.spec_classes()[i] == lowercase_class());
            assert(category.spec_classes()[i + 1] == uppercase_class());
        },
    }
}

impl Default for PasswordType {
    /// The first category of the registry.
    fn default() -> (category: Self)
        ensures
            category == PasswordType::Pin,
    {
        PasswordType::Pin
    }
}

impl PasswordType {
    /// Shortest length that the category accepts.
    pub open spec fn spec_min_length(&self) -> usize {
        match *self {
            PasswordType::Pin => PIN_MIN_LENGTH,
            PasswordType::Random { .. } => RANDOM_MIN_LENGTH,
        }
    }

    /// Longest length that the category accepts.
    pub open spec fn spec_max_length(&self) -> usize {
        match *self {
            PasswordType::Pin => PIN_MAX_LENGTH,
            PasswordType::Random { .. } => RANDOM_MAX_LENGTH,
        }
    }

    /// `length` moved into the bounds of the category.
    pub open spec fn spec_clamp(&self, length: int) -> int {
        if length < self.spec_min_length() {
            self.spec_min_length() as int
        } else if length > self.spec_max_length() {
            self.spec_max_length() as int
        } else {
            length
        }
    }

    /// Whether the category offers switches.
    pub open spec fn spec_has_options(&self) -> bool {
        *self is Random
    }

    /// The category as the registry lists it, with every switch on.
    pub open spec fn defaults(&self) -> PasswordType {
        match *self {
            PasswordType::Pin => PasswordType::Pin,
            PasswordType::Random { .. } => PasswordType::Random { numbers: true, symbols: true },
        }
    }

    /// The category with `option` flipped; a category without switches
    /// stays as it is.
    pub open spec fn spec_toggled(&self, option: Options) -> PasswordType {
        match *self {
            PasswordType::Pin => PasswordType::Pin,
            PasswordType::Random { numbers, symbols } => match option {
                Options::Numbers => PasswordType::Random { numbers: !numbers, symbols },
                Options::Symbols => PasswordType::Random { numbers, symbols: !symbols },
            },
        }
    }

    /// The values of the switches, in the order in which the switches are
    /// listed; empty for a category without switches.
    pub open spec fn spec_option_values(&self) -> Seq<bool> {
        match *self {
            PasswordType::Pin => Seq::<bool>::empty(),
            PasswordType::Random { numbers, symbols } => seq![numbers, symbols],
        }
    }

    /// The classes that a password of the category is drawn from. A PIN
    /// takes digits. A random password always takes the letters of both
    /// cases, whatever its switches say, so that there is always something
    /// to draw from.
    pub open spec fn spec_classes(&self) -> Seq<CharClass> {
        match *self {
            PasswordType::Pin => flag_classes(true, false, false),
            PasswordType::Random { numbers, symbols } => flag_classes(numbers, symbols, true),
        }
    }

    /// Whether `text` is a possible password of the category at `length`.
    pub open spec fn admits(&self, length: int, text: Seq<char>) -> bool {
        text.len() == length && drawn_from(char_sets(self.spec_classes()), text)
    }

    /// The password of `length` characters that a source in `state` draws
    /// for the category, and the state of the source after the last draw.
    pub open spec fn spec_generate(&self, state: StdRng, length: nat) -> (Seq<char>, StdRng) {
        generated(state, self.spec_classes(), length)
    }

    /// The name under which the category is shown.
    pub fn name(&self) -> (text: String)
        ensures
            text@ == match *self {
                PasswordType::Pin => "Pin"@,
                PasswordType::Random { .. } => "Random"@,
            },
    {
        match self {
            PasswordType::Pin => "Pin".to_string(),
            PasswordType::Random { .. } => "Random".to_string(),
        }
    }

    /// Shortest length that the category accepts.
    #[verifier::when_used_as_spec(spec_min_length)]
    pub fn min_length(&self) -> (length: usize)
        ensures
            length == self.spec_min_length(),
            1 <= length <= self.spec_max_length(),
    {
        match self {
            PasswordType::Pin => PIN_MIN_LENGTH,
            PasswordType::Random { .. } => RANDOM_MIN_LENGTH,
        }
    }

    /// Longest length that the category accepts.
    #[verifier::when_used_as_spec(spec_max_length)]
    pub fn max_length(&self) -> (length: usize)
        ensures
            length == self.spec_max_length(),
            length >= self.spec_min_length(),
    {
        match self {
            PasswordType::Pin => PIN_MAX_LENGTH,
            PasswordType::Random { .. } => RANDOM_MAX_LENGTH,
        }
    }

    /// The lengths that the category accepts, both ends included.
    pub fn get_range(&self) -> (range: RangeInclusive<usize>)
        ensures
            range@.start == self.spec_min_length(),
            range@.end == self.spec_max_length(),
            !range@.exhausted,
    {
        RangeInclusive::new(self.min_length(), self.max_length())
    }

    /// `length` moved into the bounds of the category.
    pub fn clamp(&self, length: usize) -> (clamped: usize)
        ensures
            clamped == self.spec_clamp(length as int),
            self.spec_min_length() <= clamped <= self.spec_max_length(),
    {
        if length < self.min_length() {
            self.min_length()
        } else if length > self.max_length() {
            self.max_length()
        } else {
            length
        }
    }

    /// Whether the category offers switches.
    #[verifier::when_used_as_spec(spec_has_options)]
    pub fn has_options(&self) -> (offered: bool)
        ensures
            offered == self.spec_has_options(),
    {
        match self {
            PasswordType::Pin => false,
            PasswordType::Random { .. } => true,
        }
    }

    /// The values of the switches, in the order in which the switches are
    /// listed; empty for a category without switches.
    pub fn option_values(&self) -> (values: Vec<bool>)
        ensures
            values@ == self.spec_option_values(),
    {
        let mut values: Vec<bool> = Vec::new();
        match self {
            PasswordType::Pin => {},
            PasswordType::Random { numbers, symbols } => {
                values.push(*numbers);
                values.push(*symbols);
            },
        }
        assert(values@ =~= self.spec_option_values());
        values
    }

    /// The category with `option` flipped; a category without switches
    /// stays as it is.
    #[verifier::when_used_as_spec(spec_toggled)]
    pub fn toggled(&self, option: Options) -> (category: PasswordType)
        ensures
            category == self.spec_toggled(option),
    {
        match self {
            PasswordType::Pin => PasswordType::Pin,
            PasswordType::Random { numbers, symbols } => match option {
                Options::Numbers => PasswordType::Random { numbers: !*numbers, symbols: *symbols },
                Options::Symbols => PasswordType::Random { numbers: *numbers, symbols: !*symbols },
            },
        }
    }

    /// The classes that a password of the category is drawn from.
    pub fn classes(&self) -> (classes: Vec<ClassSpec>)
        ensures
            class_views(classes@) == self.spec_classes(),
            classes@.len() > 0,
    {
        let classes = match self {
            PasswordType::Pin => get_classes(true, false, false),
            PasswordType::Random { numbers, symbols } => get_classes(*numbers, *symbols, true),
        };
        assert(class_views(classes@).len() == classes@.len());
        classes
    }

    /// Generates a password of the category with `length` characters.
    ///
    /// The password is the one that [`PasswordType::spec_generate`] gives
    /// for the state of `rng`, and `rng` is left in the state that follows
    /// the last draw. Every character comes from a class of the category,
    /// and once the password is as long as the list of classes each class
    /// is represented.
    pub fn generate(&self, length: usize, rng: &mut RandomSource) -> (password: String)
        ensures
            (password@, final(rng)@) == self.spec_generate(old(rng)@, length as nat),
            self.admits(length as int, password@),
            length >= self.spec_classes().len() ==> covers(
                char_sets(self.spec_classes()),
                password@,
            ),
    {
        let classes = self.classes();
        let result = get_random_string(length, &classes, rng);
        result.unwrap()
    }
}

/// The categories of [`registry`], in order.
pub fn categories() -> (list: Vec<PasswordType>)
    ensures
        list@ == registry(),
{
    let mut list: Vec<PasswordType> = Vec::new();
    list.push(PasswordType::Pin);
    list.push(PasswordType::Random { numbers: true, symbols: true });
    assert(list@ =~= registry());
    list
}

impl Default for Items<PasswordType> {
    /// The registry as a list, with the cursor on the first category.
    fn default() -> (list: Self)
        ensures
            list@ == registry(),
            list.cursor() == Some(0int),
    {
        Items::new(categories())
    }
}

/// The classes that the three switches ask for, as [`flag_classes`] lists
/// them.
pub fn get_classes(numbers: bool, symbols: bool, letters: bool) -> (classes: Vec<ClassSpec>)
    ensures
        class_views(classes@) == flag_classes(numbers, symbols, letters),
{
    let mut classes: Vec<ClassSpec> = Vec::new();
    if numbers {
        classes.push(ClassSpec::numbers());
    }
    if letters {
        classes.push(ClassSpec::lowercase_letters());
        classes.push(ClassSpec::uppercase_letters());
    }
    if symbols {
        classes.push(ClassSpec::symbols());
    }
    assert(class_views(classes@) =~= flag_classes(numbers, symbols, letters));
    classes
}

/// Generates a string of `length` characters from the classes that the
/// three switches ask for: the string that [`generated`] gives for the
/// state of `rng` and those classes. With every switch off there is
/// nothing to draw from, and only the empty string can be had; on the
/// error `rng` is left as it was.
pub fn generate_random(
    length: usize,
    numbers: bool,
    symbols: bool,
    letters: bool,
    rng: &mut RandomSource,
) -> (result: Result<String, GenerateError>)
    ensures
        result is Err <==> length > 0 && !numbers && !symbols && !letters,
        result matches Err(e) ==> e == GenerateError::EmptyClassSet && final(rng)@ == old(rng)@,
        result matches Ok(text) ==> {
            &&& (text@, final(rng)@) == generated(
                old(rng)@,
                flag_classes(numbers, symbols, letters),
                length as nat,
            )
            &&& text@.len() == length
            &&& drawn_from(char_sets(flag_classes(numbers, symbols, letters)), text@)
            &&& length >= flag_classes(numbers, symbols, letters).len() ==> covers(
                char_sets(flag_classes(numbers, symbols, letters)),
                text@,
            )
        },
{
    let classes = get_classes(numbers, symbols, letters);
    assert(class_views(classes@).len() == classes@.len());
    get_random_string(length, &classes, rng)
}

/// Generates a PIN of `length` decimal digits: the digits that
/// [`pin_digits`] gives for the state of `rng`, which is left in the state
/// that follows the last draw.
pub fn pin(length: usize, rng: &mut RandomSource) -> (digits: String)
    ensures
        (digits@, final(rng)@) == pin_digits(old(rng)@, length as nat),
        digits@.len() == length,
        forall|i: int| 0 <= i < digits@.len() ==> decimal_digits().contains(#[trigger] digits@[i]),
{
    let ghost start = rng@;
    let mut digits = String::new();
    let mut position: usize = 0;
    while position < length
        invariant
            position <= length,
            digits@.len() == position,
            (digits@, rng@) == pin_digits(start, position as nat),
            forall|i: int|
                0 <= i < digits@.len() ==> decimal_digits().contains(#[trigger] digits@[i]),
        decreases length - position,
    {
        let digit: char = rng.char_between('0', '9');
        digits.push(digit);
        assert((digits@, rng@) == pin_digits(start, (position + 1) as nat));
        position += 1;
    }
    digits
}

} // verus!
