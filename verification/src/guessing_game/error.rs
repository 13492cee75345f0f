use vstd::prelude::*;

verus! {

/// Why a submitted guess did not end the round.
#[derive(Debug, Clone, PartialEq, Eq)]
pub enum GuessingGameError {
    /// The input is not a number; the payload is the parser's diagnostic.
    ParseError(String),
    /// The guess lies outside the bounds of the round.
    IsNotInRange,
    /// The guess lies within the bounds, below the hidden number.
    IsLower,
    /// The guess lies within the bounds, above the hidden number.
    IsHigher,
}

impl GuessingGameError {
    /// The text shown to the player for this error.
    pub open spec fn text(self) -> Seq<char> {
        match self {
            GuessingGameError::ParseError(diagnostic) => "Parsing Error: "@ + diagnostic@,
            GuessingGameError::IsNotInRange => "Guess not in range"@,
            GuessingGameError::IsLower => "Guess is lower than the hidden value"@,
            GuessingGameError::IsHigher => "Guess is higher than the hidden value"@,
        }
    }

    /// Renders the error as the text shown to the player.
    pub fn message(&self) -> (rendered: String)
        ensures
            rendered@ == self.text(),
    {
        match self {
            GuessingGameError::ParseError(diagnostic) => {
                let mut rendered = "Parsing Error: ".to_owned();
                rendered.append(diagnostic.as_str());
                rendered
            },
            GuessingGameError::IsNotInRange => "Guess not in range".to_owned(),
            GuessingGameError::IsLower => "Guess is lower than the hidden value".to_owned(),
            GuessingGameError::IsHigher => "Guess is higher than the hidden value".to_owned(),
        }
    }
}

} // verus!
