//! Letter verdicts and the comparison of a guess with the answer.

use vstd::prelude::*;
use vstd::utf8::{encode_utf8, is_ascii_chars, is_ascii_chars_encode_utf8};

verus! {

/// The verdict on one letter of a guess.
#[derive(Clone, Copy, Debug, PartialEq, Eq, Structural)]
pub enum LetterKind {
    /// The answer holds this letter at this position.
    Exact,
    /// The answer holds this letter, but not at this position.
    WrongPos,
    /// The answer does not hold this letter.
    Absent,
}

/// A guess that was accepted, with the verdict on each of its letters.
pub struct WordleResult {
    /// The guess in lower case.
    pub guess: String,
    /// One verdict per letter of the guess, in order.
    pub res: Vec<LetterKind>,
}

/// Every verdict of `kinds` is `Exact`.
pub open spec fn all_exact(kinds: Seq<LetterKind>) -> bool {
    forall|i: int| 0 <= i < kinds.len() ==> kinds[i] == LetterKind::Exact
}

/// The verdict on letter `i` of `guess`: `Exact` where `answer` has the same
/// letter at `i`; otherwise `WrongPos` where `answer` has that letter at all;
/// otherwise `Absent`. Every letter is judged against the whole answer, so a
/// letter that the answer holds once is `WrongPos` wherever the guess
/// misplaces it, however often.
pub open spec fn verdict<T>(answer: Seq<T>, guess: Seq<T>, i: int) -> LetterKind {
    if 0 <= i < answer.len() && answer[i] == guess[i] {
        LetterKind::Exact
    } else if answer.contains(guess[i]) {
        LetterKind::WrongPos
    } else {
        LetterKind::Absent
    }
}

/// The verdicts on all letters of `guess`, in order.
pub open spec fn verdicts<T>(answer: Seq<T>, guess: Seq<T>) -> Seq<LetterKind> {
    Seq::new(guess.len(), |i: int| verdict(answer, guess, i))
}

/// Judges the letter at `i` of `guess` by scanning `answer` from its start;
/// the scan ends early at an exact match.
fn judge_letter(answer: &[u8], guess: &[u8], i: usize) -> (kind: LetterKind)
    requires
        i < guess@.len(),
    ensures
        kind == verdict(answer@, guess@, i as int),
{
    let letter = guess[i];
    let mut kind = LetterKind::Absent;
    let mut j: usize = 0;
    while j < answer.len()
        invariant_except_break
            j <= answer.len(),
            forall|k: int| 0 <= k < j && k == i ==> answer@[k] != letter,
            kind == if exists|k: int| 0 <= k < j && answer@[k] == letter {
                LetterKind::WrongPos
            } else {
                LetterKind::Absent
            },
        invariant
            i < guess@.len(),
            letter == guess@[i as int],
        ensures
            kind == verdict(answer@, guess@, i as int),
        decreases answer.len() - j,
    {
        if answer[j] == letter {
            if i == j {
                kind = LetterKind::Exact;
                break;
            } else {
                kind = LetterKind::WrongPos;
            }
        }
        j += 1;
    }
    kind
}

/// Judges every letter of `guess` against `answer`.
fn judge(answer: &[u8], guess: &[u8]) -> (kinds: Vec<LetterKind>)
    ensures
        kinds@ == verdicts(answer@, guess@),
{
    let mut kinds: Vec<LetterKind> = Vec::new();
    let mut i: usize = 0;
    while i < guess.len()
        invariant
            i <= guess.len(),
            kinds@.len() == i,
            forall|k: int| 0 <= k < i ==> kinds@[k] == verdict(answer@, guess@, k),
        decreases guess.len() - i,
    {
        let kind = judge_letter(answer, guess, i);
        kinds.push(kind);
        i += 1;
    }
    kinds
}

/// Compares `guess` with `answer`, letter by letter. The two are read as
/// bytes: for the ASCII words of this game a byte is a letter. Neither is
/// checked to be a word, and they need not be equally long: a letter of the
/// guess beyond the answer's end is never `Exact`.
pub fn evaluate(answer: &str, guess: &str) -> (kinds: Vec<LetterKind>)
    ensures
        kinds@ == verdicts(encode_utf8(answer@), encode_utf8(guess@)),
{
    judge(answer.as_bytes(), guess.as_bytes())
}

impl WordleResult {
    /// Whether the guess was the answer: every letter is `Exact`.
    pub fn is_correct(&self) -> (correct: bool)
        ensures
            correct == all_exact(self.res@),
    {
        let mut i: usize = 0;
        while i < self.res.len()
            invariant
                i <= self.res.len(),
                forall|k: int| 0 <= k < i ==> self.res@[k] == LetterKind::Exact,
            decreases self.res.len() - i,
        {
            if self.res[i] != LetterKind::Exact {
                return false;
            }
            i += 1;
        }
        true
    }
}

/// A word guessed against itself is `Exact` in every letter.
pub proof fn law_answer_is_all_exact<T>(word: Seq<T>)
    ensures
        all_exact(verdicts(word, word)),
        verdicts(word, word).len() == word.len(),
{
}

/// The verdicts depend on the answer and the guess alone: whatever two
/// evaluations of the same guess against the same answer return is the same.
pub proof fn law_evaluation_repeats<T>(
    answer: Seq<T>,
    guess: Seq<T>,
    first: Seq<LetterKind>,
    second: Seq<LetterKind>,
)
    requires
        first == verdicts(answer, guess),
        second == verdicts(answer, guess),
    ensures
        first == second,
{
}

/// There is one verdict for each letter of the guess, and a guess is all
/// `Exact` only where it is the answer's beginning, letter for letter.
pub proof fn law_all_exact_is_prefix<T>(answer: Seq<T>, guess: Seq<T>)
    ensures
        verdicts(answer, guess).len() == guess.len(),
        all_exact(verdicts(answer, guess)) <==> guess.len() <= answer.len() && guess
            == answer.subrange(0, guess.len() as int),
{
    let kinds = verdicts(answer, guess);
    if all_exact(kinds) {
        if guess.len() > answer.len() {
            assert(kinds[answer.len() as int] == LetterKind::Exact);
        }
        assert forall|i: int| 0 <= i < guess.len() implies guess[i] == answer[i] by {
            assert(kinds[i] == LetterKind::Exact);
        }
        assert(guess =~= answer.subrange(0, guess.len() as int));
    }
}

/// For ASCII, to compare bytes is to compare characters: the verdicts on the
/// encoded words are the verdicts on the words.
pub proof fn law_ascii_verdicts(answer: Seq<char>, guess: Seq<char>)
    requires
        is_ascii_chars(answer),
        is_ascii_chars(guess),
    ensures
        verdicts(encode_utf8(answer), encode_utf8(guess)) == verdicts(answer, guess),
{
    is_ascii_chars_encode_utf8(answer);
    is_ascii_chars_encode_utf8(guess);
    let a = encode_utf8(answer);
    let g = encode_utf8(guess);
    assert forall|i: int| 0 <= i < guess.len() implies verdict(a, g, i) == verdict(
        answer,
        guess,
        i,
    ) by {
        // A byte found in the encoded answer is a character found in the
        // answer, and the other way round.
        if a.contains(g[i]) {
            let k = choose|k: int| 0 <= k < a.len() && a[k] == g[i];
            assert(answer[k] == guess[i]);
        }
        if answer.contains(guess[i]) {
            let k = choose|k: int| 0 <= k < answer.len() && answer[k] == guess[i];
            assert(a[k] == g[i]);
        }
    }
}

} // verus!
