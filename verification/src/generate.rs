//! The random string generator.
//!
//! A string is drawn position by position. The first positions go through
//! the classes in the order in which they were given, one position per
//! class, so that every class is represented as soon as the string is long
//! enough. Each later position takes a class picked at random and then a
//! character picked at random from that class. When the string is shorter
//! than the list of classes, only the leading classes are used, one
//! position each.

use crate::classes::{CharClass, ClassSpec};
use crate::random::{index_draw, RandomSource};
use rand::rngs::StdRng;
use vstd::prelude::*;

verus! {

/// `String::push` appends one character at the end of the string.
pub assume_specification[ String::push ](text: &mut String, ch: char)
    ensures
        final(text)@ == old(text)@.push(ch),
;

/// Why a string could not be generated.
#[derive(Debug, Clone, Copy, PartialEq, Eq, Structural)]
pub enum GenerateError {
    /// No character class was given, so there is nothing to draw from.
    EmptyClassSet,
}

impl GenerateError {
    /// A sentence that describes the error.
    pub fn message(&self) -> (text: String)
        ensures
            text@ == "no character class to draw from"@,
    {
        "no character class to draw from".to_string()
    }
}

/// The classes of `classes` as mathematical values, in order.
pub open spec fn class_views(classes: Seq<ClassSpec>) -> Seq<CharClass> {
    Seq::new(classes.len(), |i: int| classes[i]@)
}

/// The sets of characters of `classes`, in order.
pub open spec fn char_sets(classes: Seq<CharClass>) -> Seq<Set<char>> {
    Seq::new(classes.len(), |i: int| classes[i].chars())
}

/// The class that the character at `position` is drawn from, out of
/// `class_count` classes, and the state of the source after the class was
/// settled. A leading position takes the class of its own index and draws
/// nothing; a later position draws the index of its class.
pub open spec fn class_pick(state: StdRng, class_count: nat, position: nat) -> (int, StdRng) {
    if position < class_count {
        (position as int, state)
    } else {
        let (index, after) = index_draw(state, class_count as u64);
        (index as int, after)
    }
}

/// The string of `length` characters that a source in `state` draws from
/// `classes`, and the state of the source after the last draw. The
/// characters are drawn from the first to the last: for each, the class is
/// settled as [`class_pick`] says, and then a character of that class is
/// drawn.
pub open spec fn generated(state: StdRng, classes: Seq<CharClass>, length: nat) -> (
    Seq<char>,
    StdRng,
)
    decreases length,
{
    if length == 0 {
        (Seq::<char>::empty(), state)
    } else {
        let (text, drawn) = generated(state, classes, (length - 1) as nat);
        let (index, settled) = class_pick(drawn, classes.len(), (length - 1) as nat);
        let (c, after) = classes[index].draw(settled);
        (text.push(c), after)
    }
}

/// Whether `c` belongs to at least one of `classes`.
pub open spec fn in_some_class(classes: Seq<Set<char>>, c: char) -> bool {
    exists|j: int| 0 <= j < classes.len() && (#[trigger] classes[j]).contains(c)
}

/// Whether `c` may stand at `position` of a string drawn from `classes`:
/// a leading position takes its character from the class of the same
/// index, a later one from any class.
pub open spec fn allowed_at(classes: Seq<Set<char>>, position: int, c: char) -> bool {
    if position < classes.len() {
        classes[position].contains(c)
    } else {
        in_some_class(classes, c)
    }
}

/// Whether `text` is a possible outcome of drawing from `classes`.
pub open spec fn drawn_from(classes: Seq<Set<char>>, text: Seq<char>) -> bool {
    forall|i: int| 0 <= i < text.len() ==> #[trigger] allowed_at(classes, i, text[i])
}

/// Whether some character of `text` belongs to `class`.
pub open spec fn occurs(class: Set<char>, text: Seq<char>) -> bool {
    exists|i: int| 0 <= i < text.len() && class.contains(#[trigger] text[i])
}

/// Whether every one of `classes` has a character in `text`.
pub open spec fn covers(classes: Seq<Set<char>>, text: Seq<char>) -> bool {
    forall|j: int| 0 <= j < classes.len() ==> occurs(#[trigger] classes[j], text)
}

/// Whether every character of `text` belongs to at least one of `classes`.
pub open spec fn within(classes: Seq<Set<char>>, text: Seq<char>) -> bool {
    forall|i: int| 0 <= i < text.len() ==> in_some_class(classes, #[trigger] text[i])
}

/// A string drawn from `classes` that is at least as long as the list of
/// classes holds a character of every class.
pub proof fn lemma_drawn_covers(classes: Seq<Set<char>>, text: Seq<char>)
    requires
        drawn_from(classes, text),
        text.len() >= classes.len(),
    ensures
        covers(classes, text),
{
    assert forall|j: int| 0 <= j < classes.len() implies occurs(#[trigger] classes[j], text) by {
        assert(allowed_at(classes, j, text[j]));
        assert(classes[j].contains(text[j]));
    }
}

/// A string drawn from `classes` holds no character from outside them.
pub proof fn lemma_drawn_within(classes: Seq<Set<char>>, text: Seq<char>)
    requires
        drawn_from(classes, text),
    ensures
        within(classes, text),
{
    assert forall|i: int| 0 <= i < text.len() implies in_some_class(
        classes,
        #[trigger] text[i],
    ) by {
        assert(allowed_at(classes, i, text[i]));
        if i < classes.len() {
            assert(classes[i].contains(text[i]));
        }
    }
}

/// Generates a string of `length` characters drawn from `classes`.
///
/// The string is the one that [`generated`] gives for the state of `rng`,
/// and `rng` is left in the state that follows the last draw. Position `i`
/// takes its character from class `i` as long as there is one, and from a
/// class picked at random after that. A string of length zero needs no
/// class and no draw and is always granted. A longer string cannot be
/// drawn from an empty list of classes, which is the one error; `rng` is
/// then left as it was.
pub fn get_random_string(
    length: usize,
    classes: &Vec<ClassSpec>,
    rng: &mut RandomSource,
) -> (result: Result<String, GenerateError>)
    ensures
        result is Err <==> length > 0 && classes@.len() == 0,
        result matches Err(e) ==> e == GenerateError::EmptyClassSet && final(rng)@ == old(rng)@,
        result matches Ok(text) ==> {
            &&& (text@, final(rng)@) == generated(
                old(rng)@,
                class_views(classes@),
                length as nat,
            )
            &&& text@.len() == length
            &&& drawn_from(char_sets(class_views(classes@)), text@)
            &&& length >= classes@.len() ==> covers(char_sets(class_views(classes@)), text@)
        },
{
    let mut text = String::new();
    if length == 0 {
        return Ok(text);
    }
    let class_count: usize = classes.len();
    if class_count == 0 {
        return Err(GenerateError::EmptyClassSet);
    }
    let ghost start = rng@;
    let ghost views = class_views(classes@);
    let mut position: usize = 0;
    while position < length
        invariant
            position <= length,
            class_count == classes@.len(),
            class_count > 0,
            views == class_views(classes@),
            text@.len() == position,
            (text@, rng@) == generated(start, views, position as nat),
            drawn_from(char_sets(views), text@),
        decreases length - position,
    {
        let ghost before = text@;
        let class_index: usize = if position < class_count {
            position
        } else {
            rng.index_below(class_count as u64) as usize
        };
        let c: char = classes[class_index].sample(rng);
        text.push(c);
        proof {
            let sets = char_sets(views);
            assert(views[class_index as int] == classes@[class_index as int]@);
            assert(sets[class_index as int].contains(c));
            assert forall|i: int| 0 <= i < position implies allowed_at(sets, i, text@[i]) by {
                assert(allowed_at(sets, i, before[i]));
            }
            assert((text@, rng@) == generated(start, views, (position + 1) as nat));
        }
        position += 1;
    }
    proof {
        if length >= class_count {
            lemma_drawn_covers(char_sets(views), text@);
        }
    }
    Ok(text)
}

} // verus!
