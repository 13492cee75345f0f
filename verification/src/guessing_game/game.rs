use vstd::prelude::*;

use crate::guessing_game::chance::{hidden_for, pick, random_u32};
use crate::guessing_game::error::GuessingGameError;
use crate::guessing_game::message::GuessingGameMessage;
use crate::guessing_game::number::{
    decimal_digits, decimal_text, diagnostic_text, integer_sign, parse_u32, parsed_integer,
    trim_text, trimmed, Sign,
};

verus! {

/// A round as plain values: what a `GuessingGame` stands for in contracts.
pub struct Round {
    /// The text buffered as the next guess.
    pub input: Seq<char>,
    /// The message left by the last submitted guess.
    pub output: Seq<char>,
    /// How many guesses were submitted in this round.
    pub attempt: nat,
    /// The number to find.
    pub hidden_number: nat,
    /// The lowest number that can be hidden.
    pub low: nat,
    /// The bound that the hidden number stays below.
    pub high: nat,
    /// Whether the hidden number was found.
    pub finished: bool,
}

impl Round {
    /// A round that has just begun between `low` and `high`.
    pub open spec fn opened(low: nat, high: nat, hidden_number: nat) -> Round {
        Round {
            input: Seq::empty(),
            output: Seq::empty(),
            attempt: 0,
            hidden_number,
            low,
            high,
            finished: false,
        }
    }

    /// The same bounds with everything else as in a round that has just
    /// begun.
    pub open spec fn restarted(self, hidden_number: nat) -> Round {
        Round::opened(self.low, self.high, hidden_number)
    }

    /// Whether the hidden number lies within the bounds, and the bounds and
    /// the count within what the round can hold.
    pub open spec fn well_formed(self) -> bool {
        &&& self.low <= self.hidden_number < self.high
        &&& self.high <= u32::MAX
        &&& self.attempt <= u32::MAX
    }

    /// The verdict on the integer `guess`, whatever its size. The upper bound
    /// itself still counts as too high, although it is never hidden.
    pub open spec fn judged(self, guess: int) -> Result<u32, GuessingGameError> {
        if guess == self.hidden_number {
            Ok(self.attempt as u32)
        } else if guess < self.hidden_number && guess >= self.low {
            Err(GuessingGameError::IsLower)
        } else if guess > self.hidden_number && guess <= self.high {
            Err(GuessingGameError::IsHigher)
        } else {
            Err(GuessingGameError::IsNotInRange)
        }
    }

    /// The round with one more guess counted.
    pub open spec fn counted(self) -> Round {
        Round { attempt: self.attempt + 1, ..self }
    }

    /// Whether `verdict` can be the verdict on `text`: that on the integer
    /// which `text` denotes, or a parse error where it denotes none. The
    /// diagnostic that a parse error carries is left open.
    pub open spec fn reading_yields(
        self,
        text: Seq<char>,
        verdict: Result<u32, GuessingGameError>,
    ) -> bool {
        match parsed_integer(text) {
            Some(guess) => verdict == self.judged(guess),
            None => verdict is Err && verdict->Err_0 is ParseError,
        }
    }

    /// Whether `outcome` can be what submitting the buffered text yields: the
    /// guess is counted first, then the text is trimmed and read.
    pub open spec fn submission_yields(self, outcome: Result<u32, GuessingGameError>) -> bool {
        self.counted().reading_yields(trimmed(self.input), outcome)
    }

    /// The round after a submitted guess with the given outcome: the guess is
    /// counted, the outcome is reported, and a success finishes the round.
    pub open spec fn settled(self, outcome: Result<u32, GuessingGameError>) -> Round {
        Round {
            output: outcome_text(outcome),
            finished: outcome is Ok,
            ..self.counted()
        }
    }
}

/// The message that reports the outcome of a submitted guess.
pub open spec fn outcome_text(outcome: Result<u32, GuessingGameError>) -> Seq<char> {
    match outcome {
        Ok(attempts) => "It took "@ + decimal_digits(attempts as nat) + " attempts"@,
        Err(error) => error.text(),
    }
}

/// The window title for a round whose last message is `output`.
pub open spec fn title_text(output: Seq<char>) -> Seq<char> {
    if output.len() == 0 {
        "Guessing Game "@ + " "@
    } else {
        "Guessing Game "@ + "-"@ + " "@ + output
    }
}

/// A round of the game.
pub struct GuessingGame {
    guessing_input: String,
    guessing_output: String,
    attempt: u32,
    hidden_number: u32,
    low: u32,
    high: u32,
    party_finished: bool,
}

impl View for GuessingGame {
    type V = Round;

    closed spec fn view(&self) -> Round {
        Round {
            input: self.guessing_input@,
            output: self.guessing_output@,
            attempt: self.attempt as nat,
            hidden_number: self.hidden_number as nat,
            low: self.low as nat,
            high: self.high as nat,
            finished: self.party_finished,
        }
    }
}

impl GuessingGame {
    #[verifier::type_invariant]
    spec fn hidden_within_bounds(&self) -> bool {
        self.low <= self.hidden_number < self.high
    }

    /// Begins a round between `low` and `high` whose hidden number is the one
    /// that `draw` selects.
    pub fn init_with_draw(low: u32, high: u32, draw: u32) -> (game: GuessingGame)
        requires
            low < high,
        ensures
            game@ == Round::opened(
                low as nat,
                high as nat,
                hidden_for(low as nat, high as nat, draw as nat),
            ),
            game@.well_formed(),
    {
        GuessingGame {
            guessing_input: String::new(),
            guessing_output: String::new(),
            attempt: 0,
            hidden_number: pick(low, high, draw),
            low,
            high,
            party_finished: false,
        }
    }

    /// Begins a round between `low` and `high` with a hidden number drawn at
    /// random.
    pub fn init(low: u32, high: u32) -> (game: GuessingGame)
        requires
            low < high,
        ensures
            game@ == Round::opened(low as nat, high as nat, game@.hidden_number),
            low <= game@.hidden_number < high,
    {
        GuessingGame::init_with_draw(low, high, random_u32())
    }

    /// Judges the number `guess` against the hidden number.
    pub fn verify(&self, guess: u32) -> (verdict: Result<u32, GuessingGameError>)
        ensures
            verdict == self@.judged(guess as int),
    {
        if guess == self.hidden_number {
            Ok(self.attempt)
        } else if guess < self.hidden_number && guess >= self.low {
            Err(GuessingGameError::IsLower)
        } else if guess > self.hidden_number && guess <= self.high {
            Err(GuessingGameError::IsHigher)
        } else {
            Err(GuessingGameError::IsNotInRange)
        }
    }

    /// Begins the round anew within the same bounds, with the hidden number
    /// that `draw` selects.
    pub fn reset_with_draw(&mut self, draw: u32)
        ensures
            final(self)@ == old(self)@.restarted(
                hidden_for(old(self)@.low, old(self)@.high, draw as nat),
            ),
            final(self)@.well_formed(),
    {
        proof {
            use_type_invariant(&*self);
        }
        self.hidden_number = pick(self.low, self.high, draw);
        self.guessing_input = String::new();
        self.guessing_output = String::new();
        self.party_finished = false;
        self.attempt = 0;
    }

    /// Begins the round anew within the same bounds, with a hidden number
    /// drawn at random.
    pub fn reset(&mut self)
        ensures
            final(self)@ == old(self)@.restarted(final(self)@.hidden_number),
            final(self)@.well_formed(),
    {
        self.reset_with_draw(random_u32());
    }

    /// Reads `text` as an integer and judges it against the hidden number.
    /// An integer that the round cannot hold, a negative one or one beyond
    /// every bound, is out of range. Surrounding white space is not skipped
    /// here.
    pub fn verify_text(&self, text: &str) -> (verdict: Result<u32, GuessingGameError>)
        ensures
            self@.reading_yields(text@, verdict),
    {
        proof {
            use_type_invariant(self);
        }
        match parse_u32(text) {
            Ok(guess) => self.verify(guess),
            Err(error) => match integer_sign(text) {
                None => Err(GuessingGameError::ParseError(diagnostic_text(&error))),
                Some(Sign::Zero) => self.verify(0),
                Some(_) => Err(GuessingGameError::IsNotInRange),
            },
        }
    }

    /// Counts a guess, then trims the buffered text, reads it as an integer
    /// and judges it. The guess counts whatever the outcome. The round is not
    /// finished here: that is for the caller to record.
    pub fn guess(&mut self) -> (outcome: Result<u32, GuessingGameError>)
        requires
            old(self)@.attempt < u32::MAX,
        ensures
            final(self)@ == old(self)@.counted(),
            final(self)@.attempt == old(self)@.attempt + 1,
            old(self)@.submission_yields(outcome),
    {
        proof {
            use_type_invariant(&*self);
        }
        self.attempt += 1;
        self.verify_text(trim_text(self.guessing_input.as_str()))
    }

    /// The window title: the name of the game, followed by the last message
    /// where there is one.
    pub fn title(&self) -> (title: String)
        ensures
            title@ == title_text(self@.output),
    {
        let mut title = "Guessing Game ".to_owned();
        if !self.guessing_output.as_str().is_empty() {
            title.append("-");
        }
        title.append(" ");
        title.append(self.guessing_output.as_str());
        assert(title@ =~= title_text(self@.output));
        title
    }

    /// Replaces the buffered text. Nothing is checked at this point.
    pub fn set_input(&mut self, text: String)
        ensures
            final(self)@ == (Round { input: text@, ..old(self)@ }),
    {
        proof {
            use_type_invariant(&*self);
        }
        self.guessing_input = text;
    }

    /// Applies one action of the player to the round: the buffered text is
    /// replaced, or it is submitted as a guess and the outcome reported, or
    /// the round begins anew. A guess cannot be submitted to a finished round.
    pub fn update(&mut self, message: GuessingGameMessage)
        requires
            message is Guess ==> !old(self)@.finished && old(self)@.attempt < u32::MAX,
        ensures
            match message {
                GuessingGameMessage::Input(text) => final(self)@ == (Round {
                    input: text@,
                    ..old(self)@
                }),
                GuessingGameMessage::Guess => exists|outcome: Result<u32, GuessingGameError>|
                    #[trigger] old(self)@.submission_yields(outcome) && final(self)@ == old(
                        self,
                    )@.settled(outcome),
                GuessingGameMessage::NewParty => final(self)@ == old(self)@.restarted(
                    final(self)@.hidden_number,
                ),
            },
            final(self)@.well_formed(),
            message is Guess ==> final(self)@.attempt == old(self)@.attempt + 1,
            old(self)@.finished && !(message is NewParty) ==> final(self)@.finished,
    {
        proof {
            use_type_invariant(&*self);
        }
        match message {
            GuessingGameMessage::Input(input) => {
                self.set_input(input);
            },
            GuessingGameMessage::Guess => {
                let party_result = self.guess();
                self.party_finished = party_result.is_ok();
                self.guessing_output = match &party_result {
                    Ok(attempts) => {
                        let mut report = "It took ".to_owned();
                        report.append(decimal_text(*attempts).as_str());
                        report.append(" attempts");
                        report
                    },
                    Err(error) => error.message(),
                };
                assert(self.guessing_output@ =~= outcome_text(party_result));
                assert(old(self)@.submission_yields(party_result));
                assert(self@ == old(self)@.settled(party_result));
            },
            GuessingGameMessage::NewParty => {
                self.reset();
            },
        }
    }

    /// What submitting the input field sends: a guess while the round is
    /// open, nothing once it is finished.
    pub fn submit_message(&self) -> (message: Option<GuessingGameMessage>)
        ensures
            message == if self@.finished {
                None
            } else {
                Some(GuessingGameMessage::Guess)
            },
    {
        if self.party_finished {
            None
        } else {
            Some(GuessingGameMessage::Guess)
        }
    }

    /// What the button for a new round sends: it is offered once the round is
    /// finished, and not before.
    pub fn new_party_message(&self) -> (message: Option<GuessingGameMessage>)
        ensures
            message == if self@.finished {
                Some(GuessingGameMessage::NewParty)
            } else {
                None
            },
    {
        if self.party_finished {
            Some(GuessingGameMessage::NewParty)
        } else {
            None
        }
    }

    /// The text buffered as the next guess.
    pub fn guessing_input(&self) -> (text: &str)
        ensures
            text@ == self@.input,
    {
        self.guessing_input.as_str()
    }

    /// The message left by the last submitted guess.
    pub fn guessing_output(&self) -> (text: &str)
        ensures
            text@ == self@.output,
    {
        self.guessing_output.as_str()
    }

    /// How many guesses were submitted in this round.
    pub fn attempt(&self) -> (attempt: u32)
        ensures
            attempt == self@.attempt,
    {
        self.attempt
    }

    /// The number to find, which lies within the bounds.
    pub fn hidden_number(&self) -> (hidden_number: u32)
        ensures
            hidden_number == self@.hidden_number,
            self@.well_formed(),
    {
        proof {
            use_type_invariant(self);
        }
        self.hidden_number
    }

    /// The lowest number that can be hidden.
    pub fn low(&self) -> (low: u32)
        ensures
            low == self@.low,
    {
        self.low
    }

    /// The bound that the hidden number stays below.
    pub fn high(&self) -> (high: u32)
        ensures
            high == self@.high,
    {
        self.high
    }

    /// Whether the hidden number was found.
    pub fn party_finished(&self) -> (finished: bool)
        ensures
            finished == self@.finished,
    {
        self.party_finished
    }
}

} // verus!
