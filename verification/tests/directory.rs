use capitals_quiz::directory::us_state_capitals;
use capitals_quiz::session::QuizSession;

#[test]
fn table_holds_fifty_entries() {
    let dir = us_state_capitals();
    assert_eq!(dir.len(), 50);
}

#[test]
fn table_spot_checks() {
    let dir = us_state_capitals();
    assert_eq!(dir[0].state.as_str(), "Alabama");
    assert_eq!(dir[0].capital.as_str(), "Montgomery");
    assert_eq!(dir[4].state.as_str(), "California");
    assert_eq!(dir[4].capital.as_str(), "Sacramento");
    assert_eq!(dir[24].state.as_str(), "Missouri");
    assert_eq!(dir[24].capital.as_str(), "Jefferson City");
    assert_eq!(dir[49].state.as_str(), "Wyoming");
    assert_eq!(dir[49].capital.as_str(), "Cheyenne");
}

#[test]
fn every_capital_answered_correctly_finishes_the_session() {
    let mut s = QuizSession::initialize(us_state_capitals());
    let mut submissions: usize = 0;
    while !s.is_finished() {
        assert!(submissions < 50, "each correct answer must retire an entry");
        let i = s.current_index().expect("a question is pending");
        assert!(s.remaining_contains(i));
        let capital = s.entry(i).capital.clone();
        s.submit_answer(&capital);
        assert!(!s.remaining_contains(i));
        submissions += 1;
    }
    assert_eq!(submissions, 50);
    assert_eq!(s.score(), 50);
    assert_eq!(s.total(), 50);
    assert!(s.current_index().is_none());
    assert_eq!(s.remaining_count(), 0);
    assert!(s.is_perfect());
}
