use wordterm::{LetterKind, Session, Turn, Wordle, WordleError, MAX_TRIES_NUM};

fn judged(turn: Turn) -> Vec<LetterKind> {
    match turn {
        Turn::Judged(result) => result.res,
        _ => panic!("the guess was not judged"),
    }
}

fn refused(turn: Turn) -> WordleError {
    match turn {
        Turn::Refused(error) => error,
        _ => panic!("the guess was not refused"),
    }
}

#[test]
fn a_session_starts_with_six_attempts() {
    assert_eq!(MAX_TRIES_NUM, 6);
    let session = Session::new();
    assert_eq!(session.tries(), 0);
    assert_eq!(session.max_tries(), 6);
    assert!(!session.is_over());
    assert_eq!(session.outcome(), None);
}

#[test]
fn the_answer_at_the_first_attempt_ends_at_one_of_six() {
    let wordle = Wordle::new("hello").unwrap();
    let mut session = Session::new();
    let verdicts = judged(session.submit(&wordle, "hello"));
    assert_eq!(verdicts, vec![LetterKind::Exact; 5]);
    assert!(session.is_over());
    assert_eq!(session.outcome(), Some((1, 6)));
    assert_eq!(session.tries(), 1);
}

#[test]
fn six_wrong_guesses_end_at_six_of_six() {
    let wordle = Wordle::new("hello").unwrap();
    let mut session = Session::new();
    for attempt in 1..=6u8 {
        assert_eq!(session.outcome(), None);
        let verdicts = judged(session.submit(&wordle, "local"));
        assert_eq!(verdicts.len(), 5);
        assert_eq!(session.tries(), attempt);
    }
    assert!(session.is_over());
    assert_eq!(session.outcome(), Some((6, 6)));
    assert!(matches!(session.submit(&wordle, "hello"), Turn::Finished));
    assert_eq!(session.outcome(), Some((6, 6)));
}

#[test]
fn the_answer_at_the_third_attempt_ends_at_three_of_six() {
    let wordle = Wordle::new("fancy").unwrap();
    let mut session = Session::new();
    judged(session.submit(&wordle, "fryer"));
    judged(session.submit(&wordle, "nancy"));
    assert_eq!(session.outcome(), None);
    judged(session.submit(&wordle, "FANCY"));
    assert_eq!(session.outcome(), Some((3, 6)));
    assert!(matches!(session.submit(&wordle, "fryer"), Turn::Finished));
    assert_eq!(session.tries(), 3);
}

#[test]
fn the_answer_at_the_last_attempt_ends_at_six_of_six() {
    let wordle = Wordle::new("hello").unwrap();
    let mut session = Session::new();
    for _ in 0..5 {
        judged(session.submit(&wordle, "local"));
    }
    assert_eq!(session.outcome(), None);
    judged(session.submit(&wordle, "hello"));
    assert_eq!(session.outcome(), Some((6, 6)));
}

#[test]
fn a_guess_of_the_wrong_length_uses_no_attempt() {
    let wordle = Wordle::new("hello").unwrap();
    let mut session = Session::new();
    assert_eq!(refused(session.submit(&wordle, "hell")), WordleError::LengthMismatch);
    assert_eq!(session.tries(), 0);
    judged(session.submit(&wordle, "local"));
    assert_eq!(session.tries(), 1);
    assert_eq!(refused(session.submit(&wordle, "helloo")), WordleError::LengthMismatch);
    assert_eq!(session.tries(), 1);
    assert_eq!(session.outcome(), None);
}

#[test]
fn a_guess_that_is_turned_down_uses_no_attempt() {
    let wordle = Wordle::with_words("hello", vec![String::from("local")]).unwrap();
    let mut session = Session::new();
    for _ in 0..10 {
        assert_eq!(refused(session.submit(&wordle, "fancy")), WordleError::UnknownWord);
        assert_eq!(refused(session.submit(&wordle, "hell")), WordleError::LengthMismatch);
    }
    let plain = Wordle::new("hello").unwrap();
    for _ in 0..10 {
        assert_eq!(refused(session.submit(&plain, "hell0")), WordleError::InvalidCharacters);
    }
    assert_eq!(session.tries(), 0);
    assert_eq!(session.outcome(), None);
}

#[test]
fn an_empty_line_asks_again() {
    let wordle = Wordle::new("hello").unwrap();
    let mut session = Session::new();
    assert!(matches!(session.submit(&wordle, ""), Turn::Blank));
    assert!(matches!(session.submit_line(&wordle, "\n"), Turn::Blank));
    assert!(matches!(session.submit_line(&wordle, "  \t \r\n"), Turn::Blank));
    assert_eq!(session.tries(), 0);
}

#[test]
fn a_line_loses_the_whitespace_at_its_end_only() {
    let wordle = Wordle::new("hello").unwrap();
    let mut session = Session::new();
    let verdicts = judged(session.submit_line(&wordle, "local \r\n"));
    assert_eq!(verdicts.len(), 5);
    assert_eq!(session.tries(), 1);
    // Without the cut the line would be too long.
    assert_eq!(refused(session.submit(&wordle, "hello\n")), WordleError::LengthMismatch);
    // Whitespace in front stays, and makes the guess too long.
    assert_eq!(refused(session.submit_line(&wordle, " hello\n")), WordleError::LengthMismatch);
    assert_eq!(session.tries(), 1);
    judged(session.submit_line(&wordle, "hello\n"));
    assert_eq!(session.outcome(), Some((2, 6)));
}

#[test]
fn a_session_of_other_lengths() {
    let wordle = Wordle::new("hello").unwrap();
    let mut session = Session::with_max_tries(2);
    judged(session.submit(&wordle, "local"));
    assert_eq!(session.outcome(), None);
    judged(session.submit(&wordle, "local"));
    assert_eq!(session.outcome(), Some((2, 2)));

    let mut session = Session::with_max_tries(0);
    assert_eq!(session.outcome(), Some((0, 0)));
    assert!(matches!(session.submit(&wordle, "hello"), Turn::Finished));
    assert_eq!(session.outcome(), Some((0, 0)));

    let mut session = Session::with_max_tries(255);
    for _ in 0..255 {
        judged(session.submit(&wordle, "local"));
    }
    assert_eq!(session.outcome(), Some((255, 255)));
    assert!(matches!(session.submit(&wordle, "local"), Turn::Finished));
}
