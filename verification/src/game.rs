//! A game: an answer, an optional list of accepted words, and the rule by
//! which a guess is turned down or judged.

use vstd::prelude::*;
use vstd::utf8::{encode_utf8, is_ascii_chars_encode_utf8};
use crate::evaluate::{all_exact, evaluate, law_answer_is_all_exact, verdicts, WordleResult};
use crate::word::{
    is_letters, is_lower_word, is_word, law_lower_word_stays, law_lowercase_is_lower, lowercase,
    validate, WordleError,
};

verus! {

/// The length, in bytes, at which the list of accepted words is consulted.
pub const LISTED_LEN: usize = 5;

/// What a list of accepted words holds, word by word.
pub open spec fn word_list(words: Seq<String>) -> Seq<Seq<char>> {
    Seq::new(words.len(), |i: int| words[i]@)
}

/// What a list of accepted words, if a game has one, holds.
pub open spec fn listed(words: Option<Vec<String>>) -> Option<Seq<Seq<char>>> {
    match words {
        Some(list) => Some(word_list(list@)),
        None => None,
    }
}

/// What a borrowed list of accepted words, if a game has one, holds.
pub open spec fn listed_words(words: Option<&Vec<String>>) -> Option<Seq<Seq<char>>> {
    match words {
        Some(list) => Some(word_list(list@)),
        None => None,
    }
}

/// Why `guess` is turned down in a game with this `answer` and this list of
/// accepted words, or `None` where it is judged. The tests come in this
/// order: the length in bytes; then, for an answer of `LISTED_LEN` bytes in
/// a game that has a list, whether the guess as typed is in the list or is
/// the answer; then the characters.
pub open spec fn rejection(
    answer: Seq<char>,
    words: Option<Seq<Seq<char>>>,
    guess: Seq<char>,
) -> Option<WordleError> {
    if encode_utf8(guess).len() != encode_utf8(answer).len() {
        Some(WordleError::LengthMismatch)
    } else if encode_utf8(answer).len() == LISTED_LEN && words is Some && !words->0.contains(guess)
        && guess != answer {
        Some(WordleError::UnknownWord)
    } else if !is_letters(guess) {
        Some(WordleError::InvalidCharacters)
    } else {
        None
    }
}

/// `r` is what a game with this `answer` and this list answers to `guess`:
/// the error of `rejection`, or else the guess in lower case with the
/// verdicts on its letters.
pub open spec fn is_reply(
    answer: Seq<char>,
    words: Option<Seq<Seq<char>>>,
    guess: Seq<char>,
    r: Result<WordleResult, WordleError>,
) -> bool {
    match rejection(answer, words, guess) {
        Some(e) => r matches Err(err) && err == e,
        None => r matches Ok(res) && res.guess@ == lowercase(guess) && res.res@ == verdicts(
            encode_utf8(answer),
            encode_utf8(lowercase(guess)),
        ),
    }
}

/// Whether `guess` is one of `words`.
fn is_listed(words: &Vec<String>, guess: &str) -> (found: bool)
    ensures
        found == word_list(words@).contains(guess@),
{
    let typed = guess.to_owned();
    let mut i: usize = 0;
    while i < words.len()
        invariant
            i <= words.len(),
            typed@ == guess@,
            forall|k: int| 0 <= k < i ==> word_list(words@)[k] != guess@,
        decreases words.len() - i,
    {
        if words[i] == typed {
            assert(word_list(words@)[i as int] == guess@);
            return true;
        }
        i += 1;
    }
    false
}

/// Answers `guess` in a game with this `answer` and, if any, this list of
/// accepted words.
pub fn reply(answer: &str, words: Option<&Vec<String>>, guess: &str) -> (r: Result<
    WordleResult,
    WordleError,
>)
    ensures
        is_reply(answer@, listed_words(words), guess@, r),
{
    let answer_len = answer.as_bytes().len();
    if guess.as_bytes().len() != answer_len {
        return Err(WordleError::LengthMismatch);
    }
    if answer_len == LISTED_LEN {
        if let Some(list) = words {
            if !is_listed(list, guess) && !same(guess, answer) {
                return Err(WordleError::UnknownWord);
            }
        }
    }
    match validate(guess) {
        Err(e) => Err(e),
        Ok(word) => {
            let res = evaluate(answer, word.as_str());
            Ok(WordleResult { guess: word, res })
        },
    }
}

/// Whether two strings hold the same characters.
fn same(a: &str, b: &str) -> (same: bool)
    ensures
        same == (a@ == b@),
{
    let x = a.to_owned();
    let y = b.to_owned();
    x == y
}

/// A game that can be played: it has an answer, it may have a list of
/// accepted words, and it answers guesses.
pub trait TWordle {
    /// The answer's characters.
    spec fn answer_view(&self) -> Seq<char>;

    /// The accepted words, where the game has a list of them.
    spec fn words_view(&self) -> Option<Seq<Seq<char>>>;

    /// The answer.
    fn answer(&self) -> (answer: &str)
        ensures
            answer@ == self.answer_view(),
    ;

    /// The answer's length in bytes.
    fn len(&self) -> (len: usize)
        ensures
            len == encode_utf8(self.answer_view()).len(),
    ;

    /// The list of accepted words, if the game has one.
    fn words(&self) -> (words: Option<&Vec<String>>)
        ensures
            listed_words(words) == self.words_view(),
    ;

    /// Answers a guess: turns it down, or judges its letters.
    fn guess(&self, guess: &str) -> (r: Result<WordleResult, WordleError>)
        ensures
            is_reply(self.answer_view(), self.words_view(), guess@, r),
    {
        reply(self.answer(), self.words(), guess)
    }
}

/// A game on an answer that the caller names.
pub struct Wordle {
    answer: String,
    words: Option<Vec<String>>,
}

/// Who gets what from `Wordle::new` and `Wordle::with_words`: the empty
/// answer is refused first, then one that is not made of letters; any other
/// gives a game on the answer in lower case, with the given list.
pub open spec fn is_new_game(
    answer: Seq<char>,
    words: Option<Seq<Seq<char>>>,
    r: Result<Wordle, WordleError>,
) -> bool {
    if answer.len() == 0 {
        r matches Err(e) && e == WordleError::EmptyAnswer
    } else if !is_letters(answer) {
        r matches Err(e) && e == WordleError::InvalidCharacters
    } else {
        r matches Ok(game) && game.answer_view() == lowercase(answer) && game.words_view() == words
    }
}

impl Wordle {
    /// A game on `answer` as it stands, word or not.
    pub(crate) fn unchecked(answer: String, words: Option<Vec<String>>) -> (game: Wordle)
        ensures
            game.answer_view() == answer@,
            game.words_view() == listed(words),
    {
        Wordle { answer, words }
    }

    /// A game on `answer`, in which every guess of the right length that is
    /// made of letters is judged.
    pub fn new(answer: &str) -> (r: Result<Wordle, WordleError>)
        ensures
            is_new_game(answer@, None, r),
    {
        Wordle::checked(answer, None)
    }

    /// A game on `answer` with a list of accepted words. Where the answer is
    /// `LISTED_LEN` bytes long, a guess must be in `words`, or be the answer,
    /// to be judged.
    pub fn with_words(answer: &str, words: Vec<String>) -> (r: Result<Wordle, WordleError>)
        ensures
            is_new_game(answer@, listed(Some(words)), r),
    {
        Wordle::checked(answer, Some(words))
    }

    /// A game on `answer`, once it is found to be a word.
    fn checked(answer: &str, words: Option<Vec<String>>) -> (r: Result<Wordle, WordleError>)
        ensures
            is_new_game(answer@, listed(words), r),
    {
        if answer.is_empty() {
            return Err(WordleError::EmptyAnswer);
        }
        match validate(answer) {
            Err(e) => Err(e),
            Ok(word) => Ok(Wordle { answer: word, words }),
        }
    }
}

impl TWordle for Wordle {
    closed spec fn answer_view(&self) -> Seq<char> {
        self.answer@
    }

    closed spec fn words_view(&self) -> Option<Seq<Seq<char>>> {
        listed(self.words)
    }

    fn answer(&self) -> (answer: &str) {
        self.answer.as_str()
    }

    fn len(&self) -> (len: usize) {
        self.answer.as_str().as_bytes().len()
    }

    fn words(&self) -> (words: Option<&Vec<String>>) {
        match &self.words {
            Some(list) => Some(list),
            None => None,
        }
    }
}

/// The answer of a game that `Wordle::new` or `Wordle::with_words` made is a
/// word: not empty, and made of `a` to `z`.
pub proof fn law_new_game_has_word(
    answer: Seq<char>,
    words: Option<Seq<Seq<char>>>,
    r: Result<Wordle, WordleError>,
)
    requires
        is_new_game(answer, words, r),
        r is Ok,
    ensures
        is_word(r->Ok_0.answer_view()),
{
    law_lowercase_is_lower(answer);
}

/// In a game on a word, the answer itself is never turned down, with or
/// without a list, and every one of its letters is `Exact`.
pub proof fn law_answer_is_correct(
    answer: Seq<char>,
    words: Option<Seq<Seq<char>>>,
    r: Result<WordleResult, WordleError>,
)
    requires
        is_word(answer),
        is_reply(answer, words, answer, r),
    ensures
        rejection(answer, words, answer) is None,
        r matches Ok(res) && res.guess@ == answer && all_exact(res.res@),
{
    law_lower_word_stays(answer);
    law_answer_is_all_exact(encode_utf8(answer));
}

/// A guess that is judged comes back as a word of `a` to `z`, with one
/// verdict for each of its letters, and is as long as the answer.
pub proof fn law_judged_guess_is_word(
    answer: Seq<char>,
    words: Option<Seq<Seq<char>>>,
    guess: Seq<char>,
    r: Result<WordleResult, WordleError>,
)
    requires
        is_reply(answer, words, guess, r),
        r is Ok,
    ensures
        is_lower_word(r->Ok_0.guess@),
        r->Ok_0.res@.len() == r->Ok_0.guess@.len(),
        r->Ok_0.guess@.len() == encode_utf8(answer).len(),
{
    law_lowercase_is_lower(guess);
    is_ascii_chars_encode_utf8(guess);
    is_ascii_chars_encode_utf8(lowercase(guess));
}

/// A game answers the same guess the same way every time: with the same
/// error, or with the same word and the same verdicts.
pub proof fn law_reply_repeats(
    answer: Seq<char>,
    words: Option<Seq<Seq<char>>>,
    guess: Seq<char>,
    first: Result<WordleResult, WordleError>,
    second: Result<WordleResult, WordleError>,
)
    requires
        is_reply(answer, words, guess, first),
        is_reply(answer, words, guess, second),
    ensures
        first is Ok <==> second is Ok,
        first matches Err(e) ==> second == Err::<WordleResult, WordleError>(e),
        first matches Ok(a) ==> (second matches Ok(b) && a.guess@ == b.guess@ && a.res@ == b.res@),
{
}

} // verus!
