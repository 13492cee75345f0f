//! A number-guessing round: a hidden number is drawn between two bounds, the
//! player submits guesses as text, and each guess is judged as too low, too
//! high, out of range or correct.

pub mod guessing_game;
