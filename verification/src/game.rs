//! The choices of a round, its outcome, and the rule that decides it.

use rand::Rng;
use vstd::prelude::*;

verus! {

/// How a round ended, seen from the first party.
#[derive(PartialEq, Eq, Structural, Debug, Clone, Copy)]
pub enum Outcome {
    Win,
    Lose,
    Draw,
}

/// One of the three hands a party can show.
#[derive(PartialEq, Eq, Structural, Debug, Clone, Copy)]
pub enum Choice {
    Rock,
    Paper,
    Scissors,
}

/// The three choices in the order in which an index selects them.
pub open spec fn all_choices() -> Seq<Choice> {
    seq![Choice::Rock, Choice::Paper, Choice::Scissors]
}

/// The dominance relation: `a` defeats `b`.
///
/// Rock blunts scissors, paper wraps rock, scissors cut paper; no other
/// pair is in the relation.
pub open spec fn dominates(a: Choice, b: Choice) -> bool {
    ||| a == Choice::Rock && b == Choice::Scissors
    ||| a == Choice::Paper && b == Choice::Rock
    ||| a == Choice::Scissors && b == Choice::Paper
}

/// The outcome of `a` played against `b`, from the side of `a`.
pub open spec fn compare(a: Choice, b: Choice) -> Outcome {
    if a == b {
        Outcome::Draw
    } else if dominates(a, b) {
        Outcome::Win
    } else {
        Outcome::Lose
    }
}

impl Choice {
    /// Plays `self` against `other` and reports the outcome for `self`.
    pub fn beats(&self, other: &Choice) -> (outcome: Outcome)
        ensures
            outcome == compare(*self, *other),
    {
        if *self == *other {
            return Outcome::Draw;
        }
        match (self, other) {
            (Choice::Rock, Choice::Scissors) => Outcome::Win,
            (Choice::Paper, Choice::Rock) => Outcome::Win,
            (Choice::Scissors, Choice::Paper) => Outcome::Win,
            _ => Outcome::Lose,
        }
    }

    /// The choice that a drawn index selects.
    pub fn from_index(index: usize) -> (choice: Choice)
        requires
            index < 3,
        ensures
            choice == all_choices()[index as int],
    {
        let choices = [Choice::Rock, Choice::Paper, Choice::Scissors];
        choices[index]
    }
}

/// Draws one index from the half-open range `low..high`.
///
/// Trusted, not proved: the body calls `rand::thread_rng()` and, on the
/// generator it returns, `rand::Rng::gen_range` with the range `low..high`.
/// `gen_range` panics on an empty range, which `requires` rules out, and
/// returns a value inside the range it was given; that bound is all the
/// contract claims. Which value comes back is left open, so two calls with
/// the same bounds may differ.
///
/// Two things lie outside the contract. `thread_rng` panics when the
/// operating system cannot seed the generator, whatever the arguments. And
/// `gen_range` samples by rejection: it returns with probability one, not
/// after a bounded number of steps.
#[verifier::external_body]
fn random_in_range(low: usize, high: usize) -> (drawn: usize)
    requires
        low < high,
    ensures
        low <= drawn < high,
{
    rand::thread_rng().gen_range(low..high)
}

/// Draws the opponent's choice at random, each of the three with the same
/// chance.
///
/// The draw is an index below three, turned into a choice by
/// [`Choice::from_index`]; nothing is promised about which choice comes out.
pub fn get_random_choice() -> (choice: Choice)
    ensures
        exists|index: int| 0 <= index < 3 && choice == all_choices()[index],
{
    let index: usize = random_in_range(0, 3);
    Choice::from_index(index)
}

/// A choice played against itself is a draw.
pub proof fn law_same_choice_draws(a: Choice)
    ensures
        compare(a, a) == Outcome::Draw,
{
}

/// Swapping the two parties swaps winning and losing and keeps a draw: the
/// first wins exactly when the second loses, and the other way round.
pub proof fn law_sides_mirror(a: Choice, b: Choice)
    ensures
        compare(a, b) == Outcome::Win <==> compare(b, a) == Outcome::Lose,
        compare(a, b) == Outcome::Lose <==> compare(b, a) == Outcome::Win,
        compare(a, b) == Outcome::Draw <==> compare(b, a) == Outcome::Draw,
{
}

/// Two different choices never draw: the round is a win or a loss for the
/// first party, and exactly one of the two parties wins it.
pub proof fn law_distinct_choices_decide(a: Choice, b: Choice)
    requires
        a != b,
    ensures
        compare(a, b) == Outcome::Win || compare(a, b) == Outcome::Lose,
        (compare(a, b) == Outcome::Win) != (compare(b, a) == Outcome::Win),
{
}

/// The wins are the three pairs of the cycle and nothing else: rock over
/// scissors, scissors over paper, paper over rock.
pub proof fn law_dominance_cycle(a: Choice, b: Choice)
    ensures
        compare(a, b) == Outcome::Win <==> {
            ||| (a == Choice::Rock && b == Choice::Scissors)
            ||| (a == Choice::Scissors && b == Choice::Paper)
            ||| (a == Choice::Paper && b == Choice::Rock)
        },
        compare(a, b) == Outcome::Draw <==> a == b,
{
}

/// Every choice is selected by one index below three and by no second one.
pub proof fn law_each_choice_has_one_index(choice: Choice)
    ensures
        all_choices().len() == 3,
        exists|index: int| 0 <= index < 3 && all_choices()[index] == choice,
        forall|i: int, j: int|
            0 <= i < 3 && 0 <= j < 3 && all_choices()[i] == choice && all_choices()[j] == choice
                ==> i == j,
{
}

} // verus!
