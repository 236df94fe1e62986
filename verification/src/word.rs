//! Words: what counts as one, and how a raw string becomes one.

use vstd::prelude::*;
use vstd::string::is_ascii_spec_bytes;
use vstd::utf8::is_ascii_chars;

verus! {

/// Why a word, a guess or a daily puzzle was turned down.
#[derive(Clone, Copy, Debug, PartialEq, Eq, Structural)]
pub enum WordleError {
    /// The word holds something other than the letters `a` to `z` and `A` to `Z`.
    InvalidCharacters,
    /// The guess is not as long as the answer.
    LengthMismatch,
    /// The guess is not in the list of accepted words.
    UnknownWord,
    /// The answer is the empty string.
    EmptyAnswer,
    /// The daily puzzle's response holds no solution.
    MalformedResponse,
}

/// What the player is told of each error.
pub open spec fn message_of(e: WordleError) -> Seq<char> {
    match e {
        WordleError::InvalidCharacters => "Invalid characters."@,
        WordleError::LengthMismatch => "The length is not right."@,
        WordleError::UnknownWord => "No such word."@,
        WordleError::EmptyAnswer => "Wordle must not be empty."@,
        WordleError::MalformedResponse => "Failed to get solution from NYT. Please report."@,
    }
}

impl WordleError {
    /// What the player is told of this error.
    pub fn message(&self) -> (text: &'static str)
        ensures
            text@ == message_of(*self),
    {
        match self {
            WordleError::InvalidCharacters => "Invalid characters.",
            WordleError::LengthMismatch => "The length is not right.",
            WordleError::UnknownWord => "No such word.",
            WordleError::EmptyAnswer => "Wordle must not be empty.",
            WordleError::MalformedResponse => "Failed to get solution from NYT. Please report.",
        }
    }
}

/// The byte of the letter `a`.
const LOWER_A: u8 = 97;

/// The byte of the letter `z`.
const LOWER_Z: u8 = 122;

/// `c` is one of `A` to `Z`.
pub open spec fn is_upper(c: char) -> bool {
    'A' <= c <= 'Z'
}

/// `c` is one of `a` to `z`.
pub open spec fn is_lower(c: char) -> bool {
    'a' <= c <= 'z'
}

/// The lower-case form of `c`: `A` to `Z` become `a` to `z`, every other
/// character stays.
pub open spec fn lower(c: char) -> char {
    if is_upper(c) {
        ((c as u32) + 32) as char
    } else {
        c
    }
}

/// `s` with every character in lower case.
pub open spec fn lowercase(s: Seq<char>) -> Seq<char> {
    Seq::new(s.len(), |i: int| lower(s[i]))
}

/// Every character of `s` is an ASCII letter, of either case.
pub open spec fn is_letters(s: Seq<char>) -> bool {
    forall|i: int| 0 <= i < s.len() ==> is_upper(#[trigger] s[i]) || is_lower(s[i])
}

/// Every character of `s` is one of `a` to `z`.
pub open spec fn is_lower_word(s: Seq<char>) -> bool {
    forall|i: int| 0 <= i < s.len() ==> is_lower(#[trigger] s[i])
}

/// `s` can be an answer: it is not empty and made of `a` to `z`.
pub open spec fn is_word(s: Seq<char>) -> bool {
    s.len() > 0 && is_lower_word(s)
}

/// `str::to_ascii_lowercase` of std. As its documentation says, the result is
/// a copy of `word` in which `A` to `Z` are replaced by `a` to `z` and every
/// other character, ASCII or not, is kept.
#[verifier::external_body]
fn ascii_lowercase(word: &str) -> (lowered: String)
    ensures
        lowered@ == lowercase(word@),
{
    word.to_ascii_lowercase()
}

/// Turns a raw string into a word: checks that it is made of ASCII letters
/// and puts it in lower case. Accepts the empty string.
pub fn validate(word: &str) -> (r: Result<String, WordleError>)
    ensures
        is_letters(word@) ==> (r matches Ok(w) && w@ == lowercase(word@)),
        !is_letters(word@) ==> r == Err::<String, WordleError>(WordleError::InvalidCharacters),
        !is_ascii_chars(word@) ==> r == Err::<String, WordleError>(WordleError::InvalidCharacters),
{
    if !word.is_ascii() {
        return Err(WordleError::InvalidCharacters);
    }
    let lowered = ascii_lowercase(word);
    let letters = lowered.as_str();
    let bytes = letters.as_bytes();
    proof {
        is_ascii_spec_bytes(letters);
    }
    let mut i: usize = 0;
    while i < bytes.len()
        invariant
            i <= bytes.len(),
            bytes@.len() == word@.len(),
            lowered@ == lowercase(word@),
            is_ascii_chars(word@),
            forall|k: int| 0 <= k < bytes@.len() ==> bytes@[k] == lowered@[k] as u8,
            forall|k: int| 0 <= k < i ==> is_upper(#[trigger] word@[k]) || is_lower(word@[k]),
        decreases bytes.len() - i,
    {
        let b = bytes[i];
        if b < LOWER_A || b > LOWER_Z {
            return Err(WordleError::InvalidCharacters);
        }
        i += 1;
    }
    Ok(lowered)
}

/// Lower case is made of letters and says the same in lower case.
pub proof fn law_lower_word_stays(s: Seq<char>)
    requires
        is_lower_word(s),
    ensures
        is_letters(s),
        lowercase(s) == s,
{
}

/// What is made of letters is, in lower case, made of `a` to `z`, and as
/// long as it was.
pub proof fn law_lowercase_is_lower(s: Seq<char>)
    requires
        is_letters(s),
    ensures
        is_lower_word(lowercase(s)),
        lowercase(s).len() == s.len(),
{
}

/// Only ASCII is made of letters.
pub proof fn law_letters_are_ascii(s: Seq<char>)
    requires
        is_letters(s),
    ensures
        is_ascii_chars(s),
{
}

} // verus!
