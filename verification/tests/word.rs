use wordterm::{evaluate, validate, LetterKind, WordleError, WordleResult};

#[test]
fn validate_lowers_letters() {
    assert_eq!(validate("hello"), Ok(String::from("hello")));
    assert_eq!(validate("HELLO"), Ok(String::from("hello")));
    assert_eq!(validate("AzByZa"), Ok(String::from("azbyza")));
    assert_eq!(validate("q"), Ok(String::from("q")));
}

#[test]
fn validate_accepts_the_empty_string() {
    assert_eq!(validate(""), Ok(String::new()));
}

#[test]
fn validate_refuses_what_is_not_ascii() {
    assert_eq!(validate("å¹¹"), Err(WordleError::InvalidCharacters));
    assert_eq!(validate("caf\u{e9}"), Err(WordleError::InvalidCharacters));
    assert_eq!(validate("\u{5e79}"), Err(WordleError::InvalidCharacters));
    assert_eq!(validate("hello\u{1f600}"), Err(WordleError::InvalidCharacters));
}

#[test]
fn validate_refuses_ascii_that_is_no_letter() {
    assert_eq!(validate("hell0"), Err(WordleError::InvalidCharacters));
    assert_eq!(validate("he llo"), Err(WordleError::InvalidCharacters));
    assert_eq!(validate("hello\n"), Err(WordleError::InvalidCharacters));
    assert_eq!(validate("@"), Err(WordleError::InvalidCharacters));
    assert_eq!(validate("["), Err(WordleError::InvalidCharacters));
    assert_eq!(validate("`"), Err(WordleError::InvalidCharacters));
    assert_eq!(validate("{"), Err(WordleError::InvalidCharacters));
}

#[test]
fn evaluate_gives_one_verdict_per_letter() {
    assert_eq!(
        evaluate("fancy", "fryer"),
        vec![
            LetterKind::Exact,
            LetterKind::Absent,
            LetterKind::WrongPos,
            LetterKind::Absent,
            LetterKind::Absent,
        ]
    );
    assert_eq!(
        evaluate("hello", "local"),
        vec![
            LetterKind::WrongPos,
            LetterKind::WrongPos,
            LetterKind::Absent,
            LetterKind::Absent,
            LetterKind::WrongPos,
        ]
    );
    assert_eq!(evaluate("hello", ""), Vec::new());
    assert_eq!(evaluate("", "ab"), vec![LetterKind::Absent, LetterKind::Absent]);
}

#[test]
fn evaluate_of_a_word_against_itself_is_all_exact() {
    for word in ["a", "hello", "fancy", "banana", "zzzzz"] {
        let verdicts = evaluate(word, word);
        assert_eq!(verdicts.len(), word.len());
        assert!(verdicts.iter().all(|kind| *kind == LetterKind::Exact));
    }
}

#[test]
fn evaluate_twice_gives_the_same() {
    for (answer, guess) in [("hello", "local"), ("fancy", "fryer"), ("abc", "cab")] {
        assert_eq!(evaluate(answer, guess), evaluate(answer, guess));
    }
}

#[test]
fn evaluate_past_the_answers_end_is_never_exact() {
    assert_eq!(
        evaluate("ab", "abab"),
        vec![
            LetterKind::Exact,
            LetterKind::Exact,
            LetterKind::WrongPos,
            LetterKind::WrongPos,
        ]
    );
}

#[test]
fn is_correct_asks_for_exact_everywhere() {
    let result = WordleResult {
        guess: String::from("abc"),
        res: vec![LetterKind::Exact, LetterKind::Exact, LetterKind::Exact],
    };
    assert!(result.is_correct());
    let result = WordleResult {
        guess: String::from("abc"),
        res: vec![LetterKind::Exact, LetterKind::WrongPos, LetterKind::Exact],
    };
    assert!(!result.is_correct());
    let result = WordleResult {
        guess: String::from("abc"),
        res: vec![LetterKind::Exact, LetterKind::Exact, LetterKind::Absent],
    };
    assert!(!result.is_correct());
    let result = WordleResult { guess: String::new(), res: Vec::new() };
    assert!(result.is_correct());
}
