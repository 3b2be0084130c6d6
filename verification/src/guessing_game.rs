//! A validated guess value for a number-guessing round: the stored number is
//! always within the closed range 1 to 100, and a round compares a guess
//! against a randomly drawn secret from the same range.

use rand::Rng;
use vstd::prelude::*;

verus! {

/// Construction of a [`Guess`] was refused: the given number lies outside
/// the closed range 1 to 100.
#[derive(Clone, Copy, Debug, PartialEq, Eq, Structural)]
pub struct OutOfRangeError;

/// An integer that is guaranteed to lie within the closed range 1 to 100.
///
/// The field is private, so a value of this type can only come out of
/// [`Guess::new`], which rejects numbers outside the range.
#[derive(Debug, PartialEq, Eq, Structural)]
pub struct Guess {
    value: i32,
}

impl View for Guess {
    type V = int;

    closed spec fn view(&self) -> int {
        self.value as int
    }
}

impl Guess {
    #[verifier::type_invariant]
    spec fn in_range(self) -> bool {
        1 <= self.value <= 100
    }

    /// Checked constructor: succeeds exactly on inputs within the closed
    /// range 1 to 100, and fails with [`OutOfRangeError`] on all others.
    pub fn new(value: i32) -> (r: Result<Guess, OutOfRangeError>)
        ensures
            (1 <= value <= 100) <==> r is Ok,
            r is Ok ==> (r->Ok_0)@ == value as int,
    {
        if value < 1 || value > 100 {
            Err(OutOfRangeError)
        } else {
            Ok(Guess { value })
        }
    }

    /// Returns the stored number; total, and always within the range.
    pub fn value(&self) -> (v: i32)
        ensures
            v as int == self@,
            1 <= v <= 100,
    {
        proof {
            use_type_invariant(self);
        }
        self.value
    }
}

/// How a guess relates to the secret it is held against.
#[derive(Clone, Copy, Debug, PartialEq, Eq, Structural)]
pub enum GuessOutcome {
    TooSmall,
    TooBig,
    Correct,
}

/// The outcome owed for a guess against a secret.
pub open spec fn outcome_of(guess: int, secret: int) -> GuessOutcome {
    if guess < secret {
        GuessOutcome::TooSmall
    } else if guess > secret {
        GuessOutcome::TooBig
    } else {
        GuessOutcome::Correct
    }
}

/// Relies on rand::thread_rng and rand::Rng::gen_range: a sample drawn from
/// a non-empty inclusive integer range lies within that range.
#[verifier::external_body]
fn sample_secret() -> (s: i32)
    ensures
        1 <= s <= 100,
{
    rand::thread_rng().gen_range(1..=100)
}

/// Draws a fresh secret for a guessing round. The secret is itself a valid
/// [`Guess`], so it always lies within the closed range 1 to 100.
pub fn new_secret() -> (secret: Guess)
{
    let s = sample_secret();
    match Guess::new(s) {
        Ok(g) => g,
        Err(_) => unreached(),
    }
}

/// Decides one round of the game: says whether `guess` is too small, too
/// big, or equal to `secret`.
pub fn check_guess(guess: &Guess, secret: &Guess) -> (o: GuessOutcome)
    ensures
        o == outcome_of(guess@, secret@),
{
    let g = guess.value();
    let s = secret.value();
    if g < s {
        GuessOutcome::TooSmall
    } else if g > s {
        GuessOutcome::TooBig
    } else {
        GuessOutcome::Correct
    }
}

} // verus!
