//! A word-guessing game: a secret word, a bounded number of guesses, and a
//! verdict on every letter of every guess.
//!
//! - `word`: what a word is, and how a raw string becomes one.
//! - `evaluate`: the verdicts on the letters of a guess.
//! - `game`: a game on an answer, and when a guess is turned down.
//! - `session`: the attempts of one game, line by line.
//! - `date` and `daily`: the puzzle of the day.
//! - `present`: the colours of the verdicts.
//!
//! Reading lines, fetching the puzzle and printing are left to the caller.

pub mod daily;
pub mod date;
pub mod evaluate;
pub mod game;
pub mod present;
pub mod session;
pub mod word;

pub use daily::{NytWordle, PuzzleRequest};
pub use date::PuzzleDate;
pub use evaluate::{evaluate, LetterKind, WordleResult};
pub use game::{TWordle, Wordle};
pub use present::{Palette, Tint};
pub use session::{Session, Turn, MAX_TRIES_NUM};
pub use word::{validate, WordleError};
