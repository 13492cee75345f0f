use vstd::prelude::*;

verus! {

/// What the player can do to a round.
#[derive(Debug, Clone, PartialEq, Eq)]
pub enum GuessingGameMessage {
    /// The text in the input buffer was replaced.
    Input(String),
    /// The buffered text was submitted as a guess.
    Guess,
    /// A new round was asked for.
    NewParty,
}

} // verus!
