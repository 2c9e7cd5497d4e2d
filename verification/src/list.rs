//! A cyclic, single-cursor selection over an ordered, non-empty sequence.

use vstd::prelude::*;

verus! {

/// Index that follows `index` in a cycle of `len` positions.
pub open spec fn next_index(index: int, len: int) -> int {
    (index + 1) % len
}

/// Index that precedes `index` in a cycle of `len` positions.
pub open spec fn previous_index(index: int, len: int) -> int {
    (index + len - 1) % len
}

/// An ordered, non-empty sequence of items with at most one of them selected.
///
/// The cursor, when present, is always a valid index into the items.
#[derive(Debug, PartialEq, Eq)]
pub struct Items<T> {
    items: Vec<T>,
    selected: Option<usize>,
}

impl<T> View for Items<T> {
    type V = Seq<T>;

    /// The items, in order.
    closed spec fn view(&self) -> Seq<T> {
        self.items@
    }
}

impl<T: Clone> Clone for Items<T> {
    /// A list of as many items, cloned one by one, with the cursor at the
    /// same position.
    fn clone(&self) -> (copy: Self)
        ensures
            copy@.len() == self@.len(),
            forall|i: int| 0 <= i < self@.len() ==> cloned::<T>(#[trigger] self@[i], copy@[i]),
            copy.cursor() == self.cursor(),
    {
        proof {
            use_type_invariant(self);
        }
        Items { items: self.items.clone(), selected: self.selected }
    }
}

/// A step forward or backward from an index of a non-empty cycle lands on
/// an index of that cycle.
pub proof fn lemma_step_stays_in_range(index: int, len: int)
    requires
        len >= 1,
        0 <= index < len,
    ensures
        0 <= next_index(index, len) < len,
        0 <= previous_index(index, len) < len,
{
    lemma_next_index(index, len);
    lemma_previous_index(index, len);
}

/// A step forward followed by a step backward returns to the index that
/// it started from, and so does a step backward followed by a step
/// forward.
pub proof fn lemma_round_trip(index: int, len: int)
    requires
        len >= 1,
        0 <= index < len,
    ensures
        previous_index(next_index(index, len), len) == index,
        next_index(previous_index(index, len), len) == index,
{
    lemma_next_index(index, len);
    lemma_previous_index(index, len);
    lemma_previous_index(next_index(index, len), len);
    lemma_next_index(previous_index(index, len), len);
}

/// Stepping forward inside a cycle either moves one position up or, from
/// the last position, returns to the first.
proof fn lemma_next_index(index: int, len: int)
    requires
        0 <= index < len,
    ensures
        next_index(index, len) == if index + 1 == len { 0 } else { index + 1 },
{
    if index + 1 == len {
        vstd::arithmetic::div_mod::lemma_mod_self_0(len);
    } else {
        vstd::arithmetic::div_mod::lemma_small_mod((index + 1) as nat, len as nat);
    }
}

/// Stepping backward inside a cycle either moves one position down or, from
/// the first position, lands on the last.
proof fn lemma_previous_index(index: int, len: int)
    requires
        0 <= index < len,
    ensures
        previous_index(index, len) == if index == 0 { len - 1 } else { index - 1 },
{
    if index == 0 {
        vstd::arithmetic::div_mod::lemma_small_mod((len - 1) as nat, len as nat);
    } else {
        vstd::arithmetic::div_mod::lemma_mod_add_multiples_vanish(index - 1, len);
        vstd::arithmetic::div_mod::lemma_small_mod((index - 1) as nat, len as nat);
    }
}

impl<T> Items<T> {
    #[verifier::type_invariant]
    spec fn well_formed(self) -> bool {
        &&& self.items@.len() > 0
        &&& self.selected matches Some(i) ==> i < self.items@.len()
    }

    /// Position of the cursor, if one is set.
    pub closed spec fn cursor(&self) -> Option<int> {
        match self.selected {
            Some(i) => Some(i as int),
            None => None,
        }
    }

    /// A list over `items` with the cursor on the first of them.
    pub fn new(items: Vec<T>) -> (list: Self)
        requires
            items@.len() > 0,
        ensures
            list@ == items@,
            list.cursor() == Some(0int),
    {
        Items { items, selected: Some(0) }
    }

    /// Number of items; never zero.
    pub fn len(&self) -> (n: usize)
        ensures
            n == self@.len(),
            n > 0,
    {
        proof {
            use_type_invariant(self);
        }
        self.items.len()
    }

    /// The items, in order.
    pub fn items(&self) -> (items: &Vec<T>)
        ensures
            items@ == self@,
            items@.len() > 0,
    {
        proof {
            use_type_invariant(self);
        }
        &self.items
    }

    /// Position of the cursor, if one is set; it always lies inside the list.
    pub fn selected(&self) -> (index: Option<usize>)
        ensures
            index is Some <==> self.cursor() is Some,
            index matches Some(i) ==> self.cursor() == Some(i as int) && i < self@.len(),
    {
        proof {
            use_type_invariant(self);
        }
        self.selected
    }

    /// Moves the cursor to `index`. An index outside the list leaves the
    /// cursor where it was.
    pub fn select(&mut self, index: usize)
        ensures
            final(self)@ == old(self)@,
            final(self).cursor() == if index < old(self)@.len() {
                Some(index as int)
            } else {
                old(self).cursor()
            },
            final(self).cursor() matches Some(i) ==> 0 <= i < final(self)@.len(),
    {
        proof {
            use_type_invariant(&*self);
        }
        if index < self.items.len() {
            self.selected = Some(index);
        }
    }

    /// Removes the cursor, so that no item is selected.
    pub fn deselect(&mut self)
        ensures
            final(self)@ == old(self)@,
            final(self).cursor() is None,
    {
        proof {
            use_type_invariant(&*self);
        }
        self.selected = None;
    }

    /// The item under the cursor, or `None` when no cursor is set.
    pub fn get_selected(&self) -> (item: Option<&T>)
        ensures
            item is Some <==> self.cursor() is Some,
            self.cursor() matches Some(i) ==> 0 <= i < self@.len() && item == Some(&self@[i]),
    {
        proof {
            use_type_invariant(self);
        }
        match self.selected {
            Some(i) => Some(&self.items[i]),
            None => None,
        }
    }

    /// Advances the cursor by one item; from the last item it wraps to the
    /// first. Without a cursor nothing changes.
    pub fn next(&mut self)
        ensures
            final(self)@ == old(self)@,
            final(self).cursor() == match old(self).cursor() {
                Some(i) => Some(next_index(i, old(self)@.len() as int)),
                None => None,
            },
            final(self).cursor() matches Some(i) ==> 0 <= i < final(self)@.len(),
    {
        proof {
            use_type_invariant(&*self);
        }
        if let Some(i) = self.selected {
            let len: usize = self.items.len();
            proof {
                lemma_next_index(i as int, len as int);
            }
            self.selected = Some(if i + 1 == len { 0 } else { i + 1 });
        }
    }

    /// Moves the cursor back by one item; from the first item it wraps to
    /// the last. Without a cursor nothing changes.
    pub fn previous(&mut self)
        ensures
            final(self)@ == old(self)@,
            final(self).cursor() == match old(self).cursor() {
                Some(i) => Some(previous_index(i, old(self)@.len() as int)),
                None => None,
            },
            final(self).cursor() matches Some(i) ==> 0 <= i < final(self)@.len(),
    {
        proof {
            use_type_invariant(&*self);
        }
        if let Some(i) = self.selected {
            let len: usize = self.items.len();
            proof {
                lemma_previous_index(i as int, len as int);
            }
            self.selected = Some(if i == 0 { len - 1 } else { i - 1 });
        }
    }
}

} // verus!
