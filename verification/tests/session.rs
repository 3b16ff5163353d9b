use capitals_quiz::directory::CapitalEntry;
use capitals_quiz::session::QuizSession;

fn single_entry() -> Vec<CapitalEntry> {
    vec![CapitalEntry::new("California", "Sacramento")]
}

fn two_entries() -> Vec<CapitalEntry> {
    vec![
        CapitalEntry::new("California", "Sacramento"),
        CapitalEntry::new("Colorado", "Denver"),
    ]
}

#[test]
fn initialize_opens_every_index() {
    let s = QuizSession::initialize(two_entries());
    assert_eq!(s.directory_len(), 2);
    assert_eq!(s.remaining_count(), 2);
    assert!(s.remaining_contains(0));
    assert!(s.remaining_contains(1));
    assert_eq!(s.score(), 0);
    assert_eq!(s.total(), 0);
    assert!(s.feedback().is_none());
    let i = s.current_index().expect("a question is pending after initialize");
    assert!(s.remaining_contains(i));
    assert!(!s.is_finished());
}

#[test]
fn correct_answer_single_entry() {
    let mut s = QuizSession::initialize(single_entry());
    s.submit_answer("Sacramento");
    assert_eq!(s.score(), 1);
    assert_eq!(s.total(), 1);
    assert_eq!(s.remaining_count(), 0);
    assert!(s.current_index().is_none());
    assert!(s.is_finished());
    assert!(s.is_perfect());
    let fb = s.feedback().as_ref().expect("feedback after a submission");
    assert!(fb.correct);
    assert_eq!(
        fb.message.as_str(),
        "Correct! The capital of California is Sacramento."
    );
}

#[test]
fn incorrect_answer_single_entry() {
    let mut s = QuizSession::initialize(single_entry());
    s.submit_answer("Lost Angeles");
    assert_eq!(s.score(), 0);
    assert_eq!(s.total(), 1);
    assert_eq!(s.remaining_count(), 1);
    assert!(s.remaining_contains(0));
    assert_eq!(s.current_index(), Some(0));
    assert!(!s.is_finished());
    assert!(!s.is_perfect());
    let fb = s.feedback().as_ref().expect("feedback after a submission");
    assert!(!fb.correct);
    assert_eq!(
        fb.message.as_str(),
        "Not quite. The capital of California is Sacramento."
    );
}

#[test]
fn lowercase_guess_counts_as_correct() {
    let mut s = QuizSession::initialize(single_entry());
    s.submit_answer("sacramento");
    assert_eq!(s.score(), 1);
    assert!(s.is_finished());
}

#[test]
fn exact_guess_counts_as_correct() {
    let mut s = QuizSession::initialize(single_entry());
    s.submit_answer("Sacramento");
    assert_eq!(s.score(), 1);
    assert!(s.is_finished());
}

#[test]
fn shouted_padded_guess_counts_as_correct() {
    let mut s = QuizSession::initialize(single_entry());
    s.submit_answer("  SACRAMENTO  ");
    assert_eq!(s.score(), 1);
    assert!(s.is_finished());
}

#[test]
fn whitespace_only_guess_is_incorrect() {
    let mut s = QuizSession::initialize(single_entry());
    s.submit_answer("   ");
    assert_eq!(s.score(), 0);
    assert_eq!(s.total(), 1);
    assert_eq!(s.remaining_count(), 1);
}

#[test]
fn empty_guess_is_incorrect() {
    let mut s = QuizSession::initialize(single_entry());
    s.submit_answer("");
    assert_eq!(s.score(), 0);
    assert_eq!(s.total(), 1);
}

#[test]
fn wrong_answer_changes_no_remaining_index() {
    let mut s = QuizSession::initialize(two_entries());
    s.submit_answer("not a capital");
    assert_eq!(s.score(), 0);
    assert_eq!(s.total(), 1);
    assert_eq!(s.remaining_count(), 2);
    assert!(s.remaining_contains(0));
    assert!(s.remaining_contains(1));
    assert!(s.current_index().is_some());
}

#[test]
fn correct_answer_retires_index_for_good() {
    let mut s = QuizSession::initialize(two_entries());
    let first = s.current_index().expect("a question is pending");
    let capital = s.entry(first).capital.clone();
    s.submit_answer(&capital);
    assert_eq!(s.score(), 1);
    assert_eq!(s.remaining_count(), 1);
    assert!(!s.remaining_contains(first));
    let other = 1 - first;
    assert_eq!(s.current_index(), Some(other));
    // A wrong answer keeps the survivor eligible and never revives `first`.
    s.submit_answer("not a capital");
    assert!(!s.remaining_contains(first));
    assert!(s.remaining_contains(other));
    assert_eq!(s.current_index(), Some(other));
}

#[test]
fn one_wrong_then_correct_per_entry() {
    let mut s = QuizSession::initialize(two_entries());
    for _ in 0..2 {
        s.submit_answer("not a capital");
        let i = s.current_index().expect("a question is pending");
        let capital = s.entry(i).capital.clone();
        s.submit_answer(&capital);
    }
    assert_eq!(s.total(), 4);
    assert_eq!(s.score(), 2);
    assert!(s.is_finished());
    assert!(!s.is_perfect());
}

#[test]
fn reset_restores_the_starting_point() {
    let mut s = QuizSession::initialize(two_entries());
    s.submit_answer("not a capital");
    let i = s.current_index().expect("a question is pending");
    let capital = s.entry(i).capital.clone();
    s.submit_answer(&capital);
    assert!(s.feedback().is_some());
    s.reset();
    assert_eq!(s.remaining_count(), 2);
    assert!(s.remaining_contains(0));
    assert!(s.remaining_contains(1));
    assert_eq!(s.score(), 0);
    assert_eq!(s.total(), 0);
    assert!(s.feedback().is_none());
    assert!(s.current_index().is_some());
    assert!(!s.is_finished());
}

#[test]
fn empty_directory_is_immediately_finished() {
    let mut s = QuizSession::initialize(Vec::new());
    assert!(s.is_finished());
    assert!(s.current_index().is_none());
    assert_eq!(s.remaining_count(), 0);
    s.submit_answer("anything");
    assert_eq!(s.score(), 0);
    assert_eq!(s.total(), 0);
    assert!(s.feedback().is_none());
}

#[test]
fn score_never_exceeds_total() {
    let mut s = QuizSession::initialize(two_entries());
    assert!(s.score() <= s.total());
    for round in 0..6 {
        if s.is_finished() {
            break;
        }
        let i = s.current_index().expect("a question is pending");
        if round % 3 == 0 {
            s.submit_answer("not a capital");
        } else {
            let capital = s.entry(i).capital.clone();
            s.submit_answer(&capital);
        }
        assert!(s.score() <= s.total());
    }
}
