use vstd::prelude::*;

use crate::guessing_game::error::GuessingGameError;
use crate::guessing_game::game::Round;
use crate::guessing_game::number::{parsed_integer, trimmed};

verus! {

/// A verdict is a success exactly on the hidden number, and otherwise the
/// error that the bounds call for: too low from the lower bound up to the
/// hidden number, too high from the hidden number up to and including the
/// upper bound, and out of range everywhere else. A verdict is never a parse
/// error.
pub proof fn law_verdict_follows_the_bounds(round: Round, guess: int)
    requires
        round.well_formed(),
    ensures
        round.judged(guess) is Ok <==> guess == round.hidden_number,
        round.judged(guess) is Ok ==> round.judged(guess)->Ok_0 == round.attempt as u32,
        round.judged(guess) == Err::<u32, GuessingGameError>(GuessingGameError::IsLower)
            <==> round.low <= guess < round.hidden_number,
        round.judged(guess) == Err::<u32, GuessingGameError>(GuessingGameError::IsHigher)
            <==> round.hidden_number < guess <= round.high,
        round.judged(guess) == Err::<u32, GuessingGameError>(GuessingGameError::IsNotInRange)
            <==> guess < round.low || guess > round.high,
        !(round.judged(guess) is Err && round.judged(guess)->Err_0 is ParseError),
{
}

/// When the buffered text reads as the integer `guess`, submitting it
/// succeeds exactly if `guess` is the hidden number, then with the number of
/// guesses submitted so far, this one included; otherwise the error is the
/// one that the bounds call for.
pub proof fn law_submitted_number_is_judged(
    round: Round,
    guess: int,
    outcome: Result<u32, GuessingGameError>,
)
    requires
        round.well_formed(),
        round.attempt < u32::MAX,
        parsed_integer(trimmed(round.input)) == Some(guess),
        round.submission_yields(outcome),
    ensures
        outcome is Ok <==> guess == round.hidden_number,
        outcome is Ok ==> outcome->Ok_0 == round.attempt + 1,
        outcome == Err::<u32, GuessingGameError>(GuessingGameError::IsLower) <==> round.low
            <= guess < round.hidden_number,
        outcome == Err::<u32, GuessingGameError>(GuessingGameError::IsHigher)
            <==> round.hidden_number < guess <= round.high,
        outcome == Err::<u32, GuessingGameError>(GuessingGameError::IsNotInRange) <==> guess
            < round.low || guess > round.high,
{
    law_verdict_follows_the_bounds(round.counted(), guess);
}

/// When the buffered text reads as no integer, submitting it is a parse
/// error; the guess still counts and the round stays open.
pub proof fn law_submitted_text_is_refused(round: Round, outcome: Result<u32, GuessingGameError>)
    requires
        parsed_integer(trimmed(round.input)) is None,
        round.submission_yields(outcome),
    ensures
        outcome is Err,
        outcome->Err_0 is ParseError,
        round.settled(outcome).attempt == round.attempt + 1,
        !round.settled(outcome).finished,
{
}

/// An integer that is negative, or larger than any bound can be, is out of
/// range in every round.
pub proof fn law_far_integers_are_out_of_range(round: Round, guess: int)
    requires
        round.well_formed(),
        guess < 0 || guess > u32::MAX,
    ensures
        round.judged(guess) == Err::<u32, GuessingGameError>(GuessingGameError::IsNotInRange),
{
}

/// Every submitted guess counts once, whatever its outcome, and leaves the
/// bounds, the hidden number and the buffered text as they were.
pub proof fn law_every_guess_counts(round: Round, outcome: Result<u32, GuessingGameError>)
    ensures
        round.settled(outcome).attempt == round.attempt + 1,
        round.settled(outcome).hidden_number == round.hidden_number,
        round.settled(outcome).low == round.low,
        round.settled(outcome).high == round.high,
        round.settled(outcome).input == round.input,
        round.counted().attempt == round.attempt + 1,
{
}

/// A submitted guess finishes the round exactly if the buffered text reads
/// as the hidden number.
pub proof fn law_round_finishes_on_a_hit(round: Round, outcome: Result<u32, GuessingGameError>)
    requires
        round.well_formed(),
        round.submission_yields(outcome),
    ensures
        round.settled(outcome).finished <==> (parsed_integer(trimmed(round.input)) matches Some(
            guess,
        )
            && guess == round.hidden_number),
{
}

/// A round that begins anew is cleared: no guess is counted, both texts are
/// empty, it is not finished, and the bounds are kept.
pub proof fn law_restart_clears(round: Round, hidden_number: nat)
    ensures
        round.restarted(hidden_number).attempt == 0,
        round.restarted(hidden_number).input == Seq::<char>::empty(),
        round.restarted(hidden_number).output == Seq::<char>::empty(),
        !round.restarted(hidden_number).finished,
        round.restarted(hidden_number).low == round.low,
        round.restarted(hidden_number).high == round.high,
        round.restarted(hidden_number).hidden_number == hidden_number,
{
}

/// Beginning anew twice in a row is the same as beginning anew once: the
/// second hidden number is the one that stays, and in everything else the
/// result is that of any single restart.
pub proof fn law_restart_is_idempotent(round: Round, first: nat, second: nat, single: nat)
    ensures
        round.restarted(first).restarted(second) == round.restarted(second),
        round.restarted(first).restarted(second) == (Round {
            hidden_number: second,
            ..round.restarted(single)
        }),
{
}

} // verus!
