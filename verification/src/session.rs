//! A session: the count of attempts in one game, and what each line that the
//! player types does to it.

use vstd::prelude::*;
use vstd::utf8::encode_utf8;
use crate::evaluate::{all_exact, law_answer_is_all_exact, verdicts, WordleResult};
use crate::game::{rejection, TWordle};
use crate::word::{is_word, law_lower_word_stays, lowercase, WordleError};

verus! {

/// The number of attempts in a session that does not say otherwise.
pub const MAX_TRIES_NUM: u8 = 6;

/// Where a session stands.
pub struct Progress {
    /// The guesses judged so far.
    pub tries: nat,
    /// The guesses that may be judged in all.
    pub max_tries: nat,
    /// Whether the last guess judged was the answer.
    pub solved: bool,
}

/// What a line typed by the player came to.
pub enum Turn {
    /// The session was over before the line came.
    Finished,
    /// The line was empty: the player is asked again.
    Blank,
    /// The guess was turned down: the player is asked again, and no attempt
    /// is used up.
    Refused(WordleError),
    /// The guess was judged, and an attempt is used up.
    Judged(WordleResult),
}

/// The session before the first guess.
pub open spec fn start(max_tries: nat) -> Progress {
    Progress { tries: 0, max_tries, solved: false }
}

/// The session takes no further guess: the answer was found, or the attempts
/// are used up.
pub open spec fn is_over(p: Progress) -> bool {
    p.solved || p.tries >= p.max_tries
}

/// How a session that is over ended: the attempts used and the attempts
/// allowed. `None` while it goes on.
pub open spec fn outcome(p: Progress) -> Option<(nat, nat)> {
    if is_over(p) {
        Some((p.tries, p.max_tries))
    } else {
        None
    }
}

/// `input` is judged in a game with this answer and this list: it is not
/// empty and is not turned down.
pub open spec fn is_judged(answer: Seq<char>, words: Option<Seq<Seq<char>>>, input: Seq<char>) -> bool {
    input.len() > 0 && rejection(answer, words, input) is None
}

/// `input`, in lower case, is letter for letter the answer.
pub open spec fn is_correct_guess(answer: Seq<char>, input: Seq<char>) -> bool {
    all_exact(verdicts(encode_utf8(answer), encode_utf8(lowercase(input))))
}

/// The session after the player has typed `input`. Only a guess that is
/// judged moves it: an empty line, a guess that is turned down, and anything
/// typed after the end leave it as it was.
pub open spec fn next(
    p: Progress,
    answer: Seq<char>,
    words: Option<Seq<Seq<char>>>,
    input: Seq<char>,
) -> Progress {
    if is_over(p) || !is_judged(answer, words, input) {
        p
    } else {
        Progress { tries: p.tries + 1, max_tries: p.max_tries, solved: is_correct_guess(answer, input) }
    }
}

/// `turn` is what a session at `p` answers to `input`.
pub open spec fn is_turn(
    p: Progress,
    answer: Seq<char>,
    words: Option<Seq<Seq<char>>>,
    input: Seq<char>,
    turn: Turn,
) -> bool {
    if is_over(p) {
        turn is Finished
    } else if input.len() == 0 {
        turn is Blank
    } else {
        match rejection(answer, words, input) {
            Some(e) => turn matches Turn::Refused(err) && err == e,
            None => turn matches Turn::Judged(res) && res.guess@ == lowercase(input) && res.res@
                == verdicts(encode_utf8(answer), encode_utf8(lowercase(input))),
        }
    }
}

/// No more guesses were judged than are allowed, and the answer is found
/// only by a guess.
pub open spec fn is_sound(p: Progress) -> bool {
    p.tries <= p.max_tries && (p.solved ==> p.tries >= 1)
}

/// The session after the player has typed each of `inputs` in turn.
pub open spec fn run(
    p: Progress,
    answer: Seq<char>,
    words: Option<Seq<Seq<char>>>,
    inputs: Seq<Seq<char>>,
) -> Progress
    decreases inputs.len(),
{
    if inputs.len() == 0 {
        p
    } else {
        next(run(p, answer, words, inputs.drop_last()), answer, words, inputs.last())
    }
}

/// How many of `inputs` are guesses that the game judges.
pub open spec fn judged_count(
    answer: Seq<char>,
    words: Option<Seq<Seq<char>>>,
    inputs: Seq<Seq<char>>,
) -> nat
    decreases inputs.len(),
{
    if inputs.len() == 0 {
        0
    } else {
        judged_count(answer, words, inputs.drop_last()) + if is_judged(answer, words, inputs.last()) {
            1nat
        } else {
            0nat
        }
    }
}

/// `line` without the whitespace at its end, as `str::trim_end` of std gives
/// it.
pub uninterp spec fn trimmed_end(line: Seq<char>) -> Seq<char>;

/// `str::trim_end` of std: the part of `line` before its trailing
/// whitespace. The contract only gives the result its name.
#[verifier::external_body]
fn trim_end(line: &str) -> (trimmed: &str)
    ensures
        trimmed@ == trimmed_end(line@),
{
    line.trim_end()
}

/// The attempts of one game.
pub struct Session {
    tries: u8,
    max_tries: u8,
    solved: bool,
}

impl View for Session {
    type V = Progress;

    closed spec fn view(&self) -> Progress {
        Progress { tries: self.tries as nat, max_tries: self.max_tries as nat, solved: self.solved }
    }
}

impl Session {
    /// No more guesses were judged than are allowed, and the answer is found
    /// only by a guess.
    #[verifier::type_invariant]
    pub closed spec fn inv(&self) -> bool {
        is_sound(self@)
    }

    /// A session of `MAX_TRIES_NUM` attempts.
    pub fn new() -> (s: Session)
        ensures
            s@ == start(MAX_TRIES_NUM as nat),
    {
        Session { tries: 0, max_tries: MAX_TRIES_NUM, solved: false }
    }

    /// A session of `max_tries` attempts. One of no attempts is over as it
    /// starts.
    pub fn with_max_tries(max_tries: u8) -> (s: Session)
        ensures
            s@ == start(max_tries as nat),
    {
        Session { tries: 0, max_tries, solved: false }
    }

    /// The guesses judged so far.
    pub fn tries(&self) -> (tries: u8)
        ensures
            tries == self@.tries,
    {
        self.tries
    }

    /// The guesses that may be judged in all.
    pub fn max_tries(&self) -> (max_tries: u8)
        ensures
            max_tries == self@.max_tries,
    {
        self.max_tries
    }

    /// Whether the session takes no further guess.
    pub fn is_over(&self) -> (over: bool)
        ensures
            over == is_over(self@),
    {
        self.solved || self.tries >= self.max_tries
    }

    /// The attempts used and the attempts allowed, once the session is over.
    pub fn outcome(&self) -> (end: Option<(u8, u8)>)
        ensures
            is_sound(self@),
            match end {
                Some((tries, max_tries)) => outcome(self@) == Some((tries as nat, max_tries as nat)),
                None => outcome(self@) is None,
            },
    {
        proof {
            use_type_invariant(self);
        }
        if self.is_over() {
            Some((self.tries, self.max_tries))
        } else {
            None
        }
    }

    /// Takes a line as the player typed it: cuts the whitespace at its end
    /// and hands the rest to `submit`.
    pub fn submit_line<W: TWordle>(&mut self, wordle: &W, line: &str) -> (turn: Turn)
        ensures
            is_turn(old(self)@, wordle.answer_view(), wordle.words_view(), trimmed_end(line@), turn),
            final(self)@ == next(
                old(self)@,
                wordle.answer_view(),
                wordle.words_view(),
                trimmed_end(line@),
            ),
            is_sound(final(self)@),
    {
        let input = trim_end(line);
        self.submit(wordle, input)
    }

    /// Takes what the player typed, without the whitespace at its end.
    pub fn submit<W: TWordle>(&mut self, wordle: &W, input: &str) -> (turn: Turn)
        ensures
            is_turn(old(self)@, wordle.answer_view(), wordle.words_view(), input@, turn),
            final(self)@ == next(old(self)@, wordle.answer_view(), wordle.words_view(), input@),
            is_sound(final(self)@),
    {
        proof {
            use_type_invariant(&*self);
        }
        if self.solved || self.tries >= self.max_tries {
            return Turn::Finished;
        }
        if input.is_empty() {
            return Turn::Blank;
        }
        match wordle.guess(input) {
            Err(e) => Turn::Refused(e),
            Ok(res) => {
                self.tries = self.tries + 1;
                self.solved = res.is_correct();
                Turn::Judged(res)
            },
        }
    }
}

/// A guess that is not as long as the answer is turned down for its length,
/// whatever else is wrong with it, and the session stays as it was: no
/// attempt is used up.
pub proof fn law_wrong_length_keeps_attempt(
    p: Progress,
    answer: Seq<char>,
    words: Option<Seq<Seq<char>>>,
    guess: Seq<char>,
)
    requires
        encode_utf8(guess).len() != encode_utf8(answer).len(),
    ensures
        rejection(answer, words, guess) == Some(WordleError::LengthMismatch),
        next(p, answer, words, guess) == p,
{
}

/// No guess that is turned down, for whatever reason, uses up an attempt.
pub proof fn law_refusal_keeps_attempt(
    p: Progress,
    answer: Seq<char>,
    words: Option<Seq<Seq<char>>>,
    guess: Seq<char>,
)
    requires
        rejection(answer, words, guess) is Some,
    ensures
        next(p, answer, words, guess) == p,
{
}

/// Whatever the player types, a session stays sound, keeps its number of
/// allowed attempts, and never loses a judged guess.
pub proof fn law_next_is_sound(
    p: Progress,
    answer: Seq<char>,
    words: Option<Seq<Seq<char>>>,
    input: Seq<char>,
)
    requires
        is_sound(p),
    ensures
        is_sound(next(p, answer, words, input)),
        next(p, answer, words, input).max_tries == p.max_tries,
        p.tries <= next(p, answer, words, input).tries <= p.tries + 1,
{
}

/// The answer itself, typed as the first guess of a game on a word, ends the
/// session at once: one attempt used, of as many as were allowed.
pub proof fn law_first_try(answer: Seq<char>, words: Option<Seq<Seq<char>>>, max_tries: nat)
    requires
        is_word(answer),
        max_tries >= 1,
    ensures
        is_judged(answer, words, answer),
        is_correct_guess(answer, answer),
        outcome(next(start(max_tries), answer, words, answer)) == Some((1nat, max_tries)),
{
    law_lower_word_stays(answer);
    law_answer_is_all_exact(encode_utf8(answer));
}

/// Where none of the guesses typed is the answer, the session is not
/// solved, it has used one attempt for each guess that was judged until the
/// attempts ran out, and it is over exactly when they have: with all of them
/// used.
pub proof fn law_never_matched(
    answer: Seq<char>,
    words: Option<Seq<Seq<char>>>,
    max_tries: nat,
    inputs: Seq<Seq<char>>,
)
    requires
        forall|k: int|
            0 <= k < inputs.len() && is_judged(answer, words, #[trigger] inputs[k])
                ==> !is_correct_guess(answer, inputs[k]),
    ensures
        !run(start(max_tries), answer, words, inputs).solved,
        run(start(max_tries), answer, words, inputs).max_tries == max_tries,
        run(start(max_tries), answer, words, inputs).tries == if judged_count(answer, words, inputs)
            <= max_tries {
            judged_count(answer, words, inputs)
        } else {
            max_tries
        },
        outcome(run(start(max_tries), answer, words, inputs)) == if judged_count(answer, words, inputs)
            >= max_tries {
            Some((max_tries, max_tries))
        } else {
            None
        },
    decreases inputs.len(),
{
    if inputs.len() > 0 {
        law_never_matched(answer, words, max_tries, inputs.drop_last());
    }
}

} // verus!
