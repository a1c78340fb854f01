//! A guess in a guessing game: a number from 1 to 100.

use vstd::prelude::*;

verus! {

/// The smallest number that may be guessed.
pub const LOWEST: i32 = 1;

/// The greatest number that may be guessed.
pub const HIGHEST: i32 = 100;

/// A guess. It always holds a number from `LOWEST` to `HIGHEST`.
pub struct Guess {
    value: i32,
}

impl View for Guess {
    type V = int;

    /// The number that was guessed.
    closed spec fn view(&self) -> int {
        self.value as int
    }
}

impl Guess {
    /// The invariant of a guess.
    pub open spec fn in_range(val: int) -> bool {
        LOWEST <= val <= HIGHEST
    }

    #[verifier::type_invariant]
    spec fn wf(&self) -> bool {
        Self::in_range(self.value as int)
    }

    /// The guess of the number `val`, which has to be one that may be
    /// guessed.
    pub fn new(val: i32) -> (guess: Guess)
        requires
            Self::in_range(val as int),
        ensures
            guess@ == val,
    {
        Guess { value: val }
    }

    /// The number that was guessed: one from `LOWEST` to `HIGHEST`.
    pub fn value(&self) -> (val: i32)
        ensures
            val == self@,
            Self::in_range(val as int),
    {
        proof {
            use_type_invariant(self);
        }
        self.value
    }
}

} // verus!
