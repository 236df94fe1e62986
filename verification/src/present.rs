//! How a verdict is shown: the colour of its letter.

use vstd::prelude::*;
use vstd::string::StringExecFns;
use crate::evaluate::{LetterKind, WordleResult};

verus! {

/// The colours that verdicts are shown in.
#[derive(Clone, Copy, Debug, PartialEq, Eq, Structural)]
pub enum Tint {
    /// For a letter in its place.
    BrightGreen,
    /// For a letter out of place.
    BrightYellow,
    /// For a letter that the answer lacks.
    White,
}

/// `anstyle::Style`: colours and effects of a stretch of text.
#[verifier::external_type_specification]
#[verifier::external_body]
pub struct ExStyle(anstyle::Style);

/// The style that `anstyle::AnsiColor::on_default` makes of the colour that
/// `tint` stands for.
pub uninterp spec fn style_on_default(tint: Tint) -> anstyle::Style;

/// `anstyle::AnsiColor::on_default`, on the colour of the same name as
/// `tint`: the style with that colour as foreground and nothing else set.
/// The contract only gives the result its name.
#[verifier::external_body]
fn on_default(tint: Tint) -> (style: anstyle::Style)
    ensures
        style == style_on_default(tint),
{
    let color = match tint {
        Tint::BrightGreen => anstyle::AnsiColor::BrightGreen,
        Tint::BrightYellow => anstyle::AnsiColor::BrightYellow,
        Tint::White => anstyle::AnsiColor::White,
    };
    color.on_default()
}

/// The colour of each verdict.
pub open spec fn tint_of(kind: LetterKind) -> Tint {
    match kind {
        LetterKind::Exact => Tint::BrightGreen,
        LetterKind::WrongPos => Tint::BrightYellow,
        LetterKind::Absent => Tint::White,
    }
}

impl LetterKind {
    /// The colour that this verdict is shown in.
    pub fn tint(&self) -> (tint: Tint)
        ensures
            tint == tint_of(*self),
    {
        match self {
            LetterKind::Exact => Tint::BrightGreen,
            LetterKind::WrongPos => Tint::BrightYellow,
            LetterKind::Absent => Tint::White,
        }
    }

    /// The style that a letter with this verdict is printed in: its colour
    /// on the terminal's own background.
    pub fn style(&self) -> (style: anstyle::Style)
        ensures
            style == style_on_default(tint_of(*self)),
    {
        on_default(self.tint())
    }
}

/// `String::push` of std: appends one character.
#[verifier::external_body]
fn push_char(text: &mut String, c: char)
    ensures
        final(text)@ == old(text)@.push(c),
{
    text.push(c)
}

/// What is written in front of a letter, for each verdict.
pub struct Palette {
    /// In front of a letter in its place.
    pub exact: String,
    /// In front of a letter out of place.
    pub wrong_pos: String,
    /// In front of a letter that the answer lacks.
    pub absent: String,
}

/// What `palette` writes in front of a letter with the verdict `kind`.
pub open spec fn code_of(palette: Palette, kind: LetterKind) -> Seq<char> {
    match kind {
        LetterKind::Exact => palette.exact@,
        LetterKind::WrongPos => palette.wrong_pos@,
        LetterKind::Absent => palette.absent@,
    }
}

/// The first `n` letters of `guess`, each with the code of its verdict in
/// front of it.
pub open spec fn painted(guess: Seq<char>, kinds: Seq<LetterKind>, palette: Palette, n: nat) -> Seq<
    char,
>
    decreases n,
{
    if n == 0 {
        Seq::empty()
    } else {
        painted(guess, kinds, palette, (n - 1) as nat) + code_of(palette, kinds[n - 1]).push(
            guess[n - 1],
        )
    }
}

/// The smaller of two lengths.
pub open spec fn shorter(a: nat, b: nat) -> nat {
    if a <= b {
        a
    } else {
        b
    }
}

impl Palette {
    /// What this palette writes in front of a letter with the verdict `kind`.
    pub fn code(&self, kind: LetterKind) -> (code: &str)
        ensures
            code@ == code_of(*self, kind),
    {
        match kind {
            LetterKind::Exact => self.exact.as_str(),
            LetterKind::WrongPos => self.wrong_pos.as_str(),
            LetterKind::Absent => self.absent.as_str(),
        }
    }
}

impl WordleResult {
    /// The guess with the code of each letter's verdict in front of the
    /// letter: as many letters as have a verdict.
    pub fn paint(&self, palette: &Palette) -> (text: String)
        ensures
            text@ == painted(
                self.guess@,
                self.res@,
                *palette,
                shorter(self.guess@.len(), self.res@.len()),
            ),
    {
        let mut text = String::new();
        let mut i: usize = 0;
        for letter in letters: self.guess.as_str().chars()
            invariant
                letters.seq() == self.guess@,
                i == shorter(letters.index() as nat, self.res@.len()),
                text@ == painted(self.guess@, self.res@, *palette, i as nat),
        {
            if i < self.res.len() {
                text.append(palette.code(self.res[i]));
                push_char(&mut text, letter);
                i += 1;
            }
        }
        text
    }
}

} // verus!
