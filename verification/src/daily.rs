//! The daily puzzle: what to ask for, and the game that the response makes.

use vstd::prelude::*;
use crate::date::{local_today, puzzle_url, PuzzleDate};
use crate::game::{listed, TWordle, Wordle};
use crate::word::WordleError;

verus! {

/// `serde_json::Value`: a JSON document in memory.
#[verifier::external_type_specification]
#[verifier::external_body]
pub struct ExValue(serde_json::Value);

/// `serde_json::Error`: why a text is no JSON document.
#[verifier::external_type_specification]
#[verifier::external_body]
pub struct ExError(serde_json::Error);

/// The members of a JSON object that are strings, by key. A document that
/// is no object has none.
pub uninterp spec fn text_members(document: serde_json::Value) -> Map<Seq<char>, Seq<char>>;

/// The string members of the document that `serde_json::from_slice` reads
/// from `body`; `None` where it reads none.
pub uninterp spec fn json_text_members(body: Seq<u8>) -> Option<Map<Seq<char>, Seq<char>>>;

/// `serde_json::from_slice`, reading a `serde_json::Value`: parses `body` as
/// one JSON document. The contract says that whether a document comes back,
/// and which string members it has, depends on the bytes alone.
#[verifier::external_body]
fn parse_json(body: &[u8]) -> (r: Result<serde_json::Value, serde_json::Error>)
    ensures
        match r {
            Ok(document) => json_text_members(body@) == Some(text_members(document)),
            Err(_) => json_text_members(body@) is None,
        },
{
    serde_json::from_slice::<serde_json::Value>(body)
}

/// `serde_json::Value::get` with a string key, narrowed to strings: the
/// member `key` of a JSON object where there is one and it is a string.
#[verifier::external_body]
fn text_member(document: &serde_json::Value, key: &str) -> (text: Option<String>)
    ensures
        match text {
            Some(s) => text_members(*document).contains_key(key@) && text_members(*document)[key@]
                == s@,
            None => !text_members(*document).contains_key(key@),
        },
{
    match document.get(key) {
        Some(serde_json::Value::String(s)) => Some(s.clone()),
        _ => None,
    }
}

/// The key under which the answer stands in a puzzle's response.
pub const SOLUTION_KEY: &'static str = "solution";

/// What to ask for to get a day's puzzle.
pub struct PuzzleRequest {
    /// The day.
    pub date: PuzzleDate,
    /// The address that answers with the day's puzzle.
    pub url: String,
}

/// The game of a day's puzzle.
pub struct NytWordle {
    wordle: Wordle,
    date: PuzzleDate,
}

/// Who gets what from `NytWordle::from_solution`: a response without a
/// solution is malformed; a solution makes a game on it as it stands.
pub open spec fn is_daily_game(
    solution: Option<Seq<char>>,
    date: PuzzleDate,
    words: Option<Seq<Seq<char>>>,
    r: Result<NytWordle, WordleError>,
) -> bool {
    match solution {
        None => r matches Err(e) && e == WordleError::MalformedResponse,
        Some(answer) => r matches Ok(game) && game.answer_view() == answer && game.words_view()
            == words && game.date_view() == date,
    }
}

/// The solution in a puzzle's response: the string member `SOLUTION_KEY` of
/// the JSON object that `body` holds; `None` where `body` holds no JSON or no
/// such member.
pub open spec fn solution_in(body: Seq<u8>) -> Option<Seq<char>> {
    match json_text_members(body) {
        Some(members) => if members.contains_key(SOLUTION_KEY@) {
            Some(members[SOLUTION_KEY@])
        } else {
            None
        },
        None => None,
    }
}

impl NytWordle {
    /// The day of this puzzle.
    pub closed spec fn date_view(&self) -> PuzzleDate {
        self.date
    }

    /// What to ask for to get today's puzzle, by the system clock.
    pub fn request_today() -> (request: PuzzleRequest)
        ensures
            request.url@ == puzzle_url(request.date),
            1 <= request.date.month <= 12,
    {
        let date = local_today();
        PuzzleRequest { date, url: date.url() }
    }

    /// The game of the puzzle of `date` whose response is `body`, with the
    /// list of accepted words, if any. The solution is taken as it stands:
    /// it is not tested for being a word.
    pub fn from_response(body: &[u8], date: PuzzleDate, words: Option<Vec<String>>) -> (r: Result<
        NytWordle,
        WordleError,
    >)
        ensures
            is_daily_game(solution_in(body@), date, listed(words), r),
    {
        let solution = match parse_json(body) {
            Ok(document) => text_member(&document, SOLUTION_KEY),
            Err(_) => None,
        };
        NytWordle::from_solution(solution, date, words)
    }

    /// The game of the puzzle of `date` with this solution, if the response
    /// held one.
    pub fn from_solution(solution: Option<String>, date: PuzzleDate, words: Option<Vec<String>>) -> (r:
        Result<NytWordle, WordleError>)
        ensures
            is_daily_game(
                match solution {
                    Some(answer) => Some(answer@),
                    None => None,
                },
                date,
                listed(words),
                r,
            ),
    {
        match solution {
            None => Err(WordleError::MalformedResponse),
            Some(answer) => Ok(NytWordle { wordle: Wordle::unchecked(answer, words), date }),
        }
    }

    /// The day of this puzzle.
    pub fn date(&self) -> (date: PuzzleDate)
        ensures
            date == self.date_view(),
    {
        self.date
    }
}

impl TWordle for NytWordle {
    closed spec fn answer_view(&self) -> Seq<char> {
        self.wordle.answer_view()
    }

    closed spec fn words_view(&self) -> Option<Seq<Seq<char>>> {
        self.wordle.words_view()
    }

    fn answer(&self) -> (answer: &str) {
        self.wordle.answer()
    }

    fn len(&self) -> (len: usize) {
        self.wordle.len()
    }

    fn words(&self) -> (words: Option<&Vec<String>>) {
        self.wordle.words()
    }
}

} // verus!
