//! The random source that the generator draws from.
//!
//! The source is a pseudo-random generator of usability grade: good enough
//! for passwords that a person reads off a screen, not meant for key
//! material. It can be seeded with a number, which makes every draw
//! repeatable, or from the operating system.
//!
//! Nothing in this module is proved about the generator itself. A
//! generator in a given state always makes the same draw and moves to the
//! same next state, on every machine, so each kind of draw has a name that
//! stands for the value drawn and the state after it. The functions below
//! that carry `external_body` equate what the generator hands back with
//! those names and add what its documentation and source promise of every
//! draw. The rest of the crate is verified for every value that such a
//! draw may return.

use rand::distributions::{Distribution, Uniform};
use rand::rngs::{OsRng, StdRng};
use rand::seq::SliceRandom;
use rand::{Rng, SeedableRng};
use vstd::prelude::*;

verus! {

/// `rand::rngs::StdRng`, carried as an opaque value.
#[verifier::external_type_specification]
#[verifier::external_body]
pub struct ExStdRng(rand::rngs::StdRng);

/// The generator that `SeedableRng::seed_from_u64` makes of `seed`. The
/// state is expanded from the seed by arithmetic alone, so that one seed
/// always stands for one generator; what the state holds is not said.
pub uninterp spec fn seeded_state(seed: u64) -> StdRng;

/// What `Rng::gen_range` hands back for the range `0..bound` from a
/// generator in `state`: the number drawn, and the state after the draw.
pub uninterp spec fn index_draw(state: StdRng, bound: u64) -> (u64, StdRng);

/// What a `Uniform` distribution over `first..=last` samples from a
/// generator in `state`: the character drawn, and the state after the
/// draw.
pub uninterp spec fn char_draw(state: StdRng, first: char, last: char) -> (char, StdRng);

/// What `SliceRandom::choose` picks of `chars` with a generator in
/// `state`: the character picked, if there is any to pick, and the state
/// after the draw.
pub uninterp spec fn choice_draw(state: StdRng, chars: Seq<char>) -> (Option<char>, StdRng);

/// A handle on a pseudo-random generator.
#[derive(Debug, PartialEq, Eq)]
pub struct RandomSource {
    rng: StdRng,
}

impl View for RandomSource {
    type V = StdRng;

    /// The generator behind the handle, in the state that it is in.
    closed spec fn view(&self) -> StdRng {
        self.rng
    }
}

/// `SeedableRng::seed_from_u64` for `StdRng`: the generator that
/// [`seeded_state`] names for `seed`.
#[verifier::external_body]
fn seeded_generator(seed: u64) -> (rng: StdRng)
    ensures
        rng == seeded_state(seed),
{
    StdRng::seed_from_u64(seed)
}

/// `SeedableRng::from_rng` for `StdRng`, fed by `OsRng`: a generator
/// seeded by the operating system, or `None` where the operating system
/// reports that it has no entropy to give. Nothing is claimed of the
/// state.
#[verifier::external_body]
fn entropy_generator() -> Option<StdRng> {
    match StdRng::from_rng(OsRng) {
        Ok(rng) => Some(rng),
        Err(_) => None,
    }
}

impl RandomSource {
    /// A source whose draws are determined by `seed`: its generator starts
    /// in the state that the seed stands for, so that two sources made of
    /// one seed start out alike and draw alike.
    pub fn from_seed(seed: u64) -> (source: Self)
        ensures
            source@ == seeded_state(seed),
    {
        RandomSource { rng: seeded_generator(seed) }
    }

    /// A source seeded by the operating system, or `None` where the
    /// operating system has no entropy to give.
    pub fn from_entropy() -> Option<Self> {
        match entropy_generator() {
            Some(rng) => Some(RandomSource { rng }),
            None => None,
        }
    }

    /// `Rng::gen_range` on the half-open range `0..bound`: the number that
    /// [`index_draw`] names, which lies below `bound`. The range must not
    /// be empty, or the call panics.
    #[verifier::external_body]
    pub(crate) fn index_below(&mut self, bound: u64) -> (index: u64)
        requires
            bound > 0,
        ensures
            (index, final(self)@) == index_draw(old(self)@, bound),
            index < bound,
    {
        self.rng.gen_range(0..bound)
    }

    /// `Uniform::from` on the closed range `first..=last`, sampled once:
    /// the character that [`char_draw`] names, which lies between `first`
    /// and `last`, both included. The range must not be empty, or the call
    /// panics.
    #[verifier::external_body]
    pub(crate) fn char_between(&mut self, first: char, last: char) -> (c: char)
        requires
            first <= last,
        ensures
            (c, final(self)@) == char_draw(old(self)@, first, last),
            first <= c <= last,
    {
        Uniform::from(first..=last).sample(&mut self.rng)
    }

    /// `SliceRandom::choose` on `chars`: the pick that [`choice_draw`]
    /// names, which is one of the characters of `chars`, or `None` when
    /// there is none to pick.
    #[verifier::external_body]
    pub(crate) fn char_among(&mut self, chars: &Vec<char>) -> (picked: Option<char>)
        ensures
            (picked, final(self)@) == choice_draw(old(self)@, chars@),
            picked is Some <==> chars@.len() > 0,
            picked matches Some(c) ==> chars@.contains(c),
    {
        chars.choose(&mut self.rng).copied()
    }
}

} // verus!
