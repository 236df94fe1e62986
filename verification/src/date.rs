//! The date of a puzzle, the key it is filed under and the address it is
//! fetched from.

use vstd::prelude::*;
use vstd::string::StringExecFns;

verus! {

/// A calendar date, as far as the daily puzzle needs it.
#[derive(Clone, Copy, Debug, PartialEq, Eq, Structural)]
pub struct PuzzleDate {
    /// The year, in full.
    pub year: i64,
    /// The month, January being 1.
    pub month: u8,
    /// The day of the month.
    pub day: i8,
}

/// The character of the digit `d`.
pub open spec fn digit(d: nat) -> char
    recommends
        d < 10,
{
    ('0' as u32 + d) as char
}

/// `n` in decimal digits, without leading zeros.
pub open spec fn digits(n: nat) -> Seq<char>
    decreases n,
{
    if n < 10 {
        seq![digit(n)]
    } else {
        digits(n / 10).push(digit(n % 10))
    }
}

/// `n` in decimal, with a minus sign where it is negative.
pub open spec fn decimal(n: int) -> Seq<char> {
    if n < 0 {
        seq!['-'] + digits((-n) as nat)
    } else {
        digits(n as nat)
    }
}

/// `n` in decimal, at least two characters wide: one digit gets a zero in
/// front of it.
pub open spec fn two_wide(n: int) -> Seq<char> {
    if 0 <= n < 10 {
        seq!['0'] + digits(n as nat)
    } else {
        decimal(n)
    }
}

/// The text of one digit.
fn digit_text(d: u8) -> (text: &'static str)
    requires
        d < 10,
    ensures
        text@ == seq![digit(d as nat)],
{
    proof {
        reveal_strlit("0");
        reveal_strlit("1");
        reveal_strlit("2");
        reveal_strlit("3");
        reveal_strlit("4");
        reveal_strlit("5");
        reveal_strlit("6");
        reveal_strlit("7");
        reveal_strlit("8");
        reveal_strlit("9");
    }
    match d {
        0 => "0",
        1 => "1",
        2 => "2",
        3 => "3",
        4 => "4",
        5 => "5",
        6 => "6",
        7 => "7",
        8 => "8",
        _ => "9",
    }
}

/// Appends `n` in decimal digits to `out`.
fn push_digits(out: &mut String, n: u64)
    ensures
        final(out)@ == old(out)@ + digits(n as nat),
    decreases n,
{
    if n >= 10 {
        push_digits(out, n / 10);
    }
    out.append(digit_text((n % 10) as u8));
}

/// Appends `n` in decimal to `out`, with its sign where it is negative.
fn push_decimal(out: &mut String, n: i64)
    ensures
        final(out)@ == old(out)@ + decimal(n as int),
{
    if n < 0 {
        proof {
            reveal_strlit("-");
        }
        out.append("-");
        // The magnitude of the least `i64` does not fit in an `i64`.
        let size: u64 = (-(n + 1)) as u64 + 1;
        push_digits(out, size);
    } else {
        push_digits(out, n as u64);
    }
}

/// Appends `n` in decimal to `out`, at least two characters wide.
fn push_two_wide(out: &mut String, n: i64)
    ensures
        final(out)@ == old(out)@ + two_wide(n as int),
{
    if 0 <= n && n < 10 {
        proof {
            reveal_strlit("0");
        }
        out.append("0");
        push_digits(out, n as u64);
    } else {
        push_decimal(out, n);
    }
}

/// Where the daily puzzles are filed.
pub const NYT_URL: &'static str = "https://www.nytimes.com/svc/wordle/v2";

/// The key that the puzzle of `date` is filed under: year, month and day
/// with hyphens between them, month and day two digits wide.
pub open spec fn date_key(date: PuzzleDate) -> Seq<char> {
    decimal(date.year as int) + seq!['-'] + two_wide(date.month as int) + seq!['-'] + two_wide(
        date.day as int,
    )
}

/// The address of the puzzle of `date`.
pub open spec fn puzzle_url(date: PuzzleDate) -> Seq<char> {
    NYT_URL@ + seq!['/'] + date_key(date) + ".json"@
}

impl PuzzleDate {
    /// The key that this date's puzzle is filed under.
    pub fn key(&self) -> (key: String)
        ensures
            key@ == date_key(*self),
    {
        let mut key = String::new();
        self.push_key(&mut key);
        key
    }

    /// The address of this date's puzzle.
    pub fn url(&self) -> (url: String)
        ensures
            url@ == puzzle_url(*self),
    {
        proof {
            reveal_strlit("/");
        }
        let mut url = NYT_URL.to_owned();
        url.append("/");
        self.push_key(&mut url);
        url.append(".json");
        url
    }

    /// Appends this date's key to `out`.
    fn push_key(&self, out: &mut String)
        ensures
            final(out)@ == old(out)@ + date_key(*self),
    {
        proof {
            reveal_strlit("-");
        }
        push_decimal(out, self.year);
        out.append("-");
        push_two_wide(out, self.month as i64);
        out.append("-");
        push_two_wide(out, self.day as i64);
    }
}

/// `datetime::LocalDate::today`, read through `year`, `month` and `day` of
/// `datetime::DatePiece`: the date of the day on the system clock. The
/// month is one of the twelve of `datetime::Month`, numbered from 1.
#[verifier::external_body]
pub(crate) fn local_today() -> (date: PuzzleDate)
    ensures
        1 <= date.month <= 12,
{
    let today = <datetime::LocalDate as datetime::convenience::Today>::today();
    PuzzleDate {
        year: datetime::DatePiece::year(&today),
        month: datetime::DatePiece::month(&today) as u8,
        day: datetime::DatePiece::day(&today),
    }
}

/// Ten to the power `k`; 1 where `k` is not positive.
pub open spec fn pow10(k: int) -> nat
    decreases k,
{
    if k <= 0 {
        1
    } else {
        10 * pow10(k - 1)
    }
}

/// Decimal digits are the characters `0` to `9`, at least one of them, and
/// a number below ten is one digit.
pub proof fn law_digits_are_digits(n: nat)
    ensures
        digits(n).len() >= 1,
        n < 10 ==> digits(n).len() == 1,
        forall|i: int| 0 <= i < digits(n).len() ==> '0' <= #[trigger] digits(n)[i] <= '9',
    decreases n,
{
    if n >= 10 {
        law_digits_are_digits(n / 10);
    }
}

/// A number of `width` digits, none of them a leading zero, is written in
/// `width` characters.
pub proof fn law_digits_width(n: nat, width: nat)
    requires
        width >= 1,
        pow10(width - 1) <= n < pow10(width as int),
    ensures
        digits(n).len() == width,
    decreases width,
{
    if width > 1 {
        law_digits_width(n / 10, (width - 1) as nat);
    }
}

/// The key of a date with a year of four digits, a month of the twelve and
/// a day of up to thirty-one is ten characters long: four for the year, two
/// each for month and day, and a hyphen after the year and after the month.
pub proof fn law_key_of_a_common_date(date: PuzzleDate)
    requires
        1000 <= date.year <= 9999,
        1 <= date.month <= 12,
        1 <= date.day <= 31,
    ensures
        date_key(date).len() == 10,
        date_key(date)[4] == '-',
        date_key(date)[7] == '-',
        forall|i: int|
            0 <= i < 10 && i != 4 && i != 7 ==> '0' <= #[trigger] date_key(date)[i] <= '9',
{
    assert(pow10(4) == 10000 && pow10(3) == 1000 && pow10(2) == 100 && pow10(1) == 10) by {
        reveal_with_fuel(pow10, 5);
    }
    law_digits_width(date.year as nat, 4);
    law_digits_are_digits(date.year as nat);
    law_digits_are_digits(date.month as nat);
    law_digits_are_digits(date.day as nat);
    if date.month >= 10 {
        law_digits_width(date.month as nat, 2);
    }
    if date.day >= 10 {
        law_digits_width(date.day as nat, 2);
    }
}

} // verus!
