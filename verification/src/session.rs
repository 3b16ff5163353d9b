//! The quiz session controller: which entries are still open, which one is
//! being asked, the running score, and the feedback for the latest guess.
//!
//! The controller owns all mutable session state. A correct guess retires the
//! asked index for the rest of the session; a wrong guess keeps it eligible,
//! so the same entry may be drawn again, even immediately. The next question
//! is drawn at random from whatever is still open.

use vstd::prelude::*;
use vstd::string::StringExecFns;
use rand::Rng;
use crate::directory::CapitalEntry;
use crate::text::answer_matches;
use crate::text::matches_capital;

verus! {

/// The outcome shown for the most recent guess.
pub struct Feedback {
    pub correct: bool,
    pub message: String,
}

/// The mathematical content of a session: the directory it was started with,
/// the indices not yet answered correctly (in stored order), the index being
/// asked, the two counters, and the latest feedback.
pub ghost struct SessionModel {
    pub directory: Seq<CapitalEntry>,
    pub remaining: Seq<usize>,
    pub current: Option<usize>,
    pub score: int,
    pub total: int,
    pub feedback: Option<Feedback>,
}

/// The message shown for a correct guess of `capital` for `state`.
pub open spec fn correct_message(state: Seq<char>, capital: Seq<char>) -> Seq<char> {
    "Correct! The capital of "@ + state + " is "@ + capital + "."@
}

/// The message shown after a wrong guess, naming the expected `capital`.
pub open spec fn incorrect_message(state: Seq<char>, capital: Seq<char>) -> Seq<char> {
    "Not quite. The capital of "@ + state + " is "@ + capital + "."@
}

/// The quiz session controller.
pub struct QuizSession {
    directory: Vec<CapitalEntry>,
    remaining: Vec<usize>,
    current: Option<usize>,
    score: usize,
    total: usize,
    feedback: Option<Feedback>,
}

impl View for QuizSession {
    type V = SessionModel;

    closed spec fn view(&self) -> SessionModel {
        SessionModel {
            directory: self.directory@,
            remaining: self.remaining@,
            current: self.current,
            score: self.score as int,
            total: self.total as int,
            feedback: self.feedback,
        }
    }
}

impl QuizSession {
    /// Well-formedness: every open index points into the directory and occurs
    /// once; a question is pending exactly while something is open, and the
    /// pending index is itself open; the score counts the retired indices and
    /// never exceeds the number of answers given.
    pub open spec fn wf(self) -> bool {
        &&& forall|k: int|
            0 <= k < self@.remaining.len() ==> (#[trigger] self@.remaining[k]) < self@.directory.len()
        &&& forall|k1: int, k2: int|
            0 <= k1 < k2 < self@.remaining.len() ==> self@.remaining[k1] != self@.remaining[k2]
        &&& (match self@.current {
            Some(i) => self@.remaining.contains(i),
            None => self@.remaining.len() == 0,
        })
        &&& 0 <= self@.score <= self@.total
        &&& self@.score + self@.remaining.len() == self@.directory.len()
    }

    /// Starts a session over the given directory: every index is open, the
    /// counters are zero, there is no feedback yet, and a first question is
    /// drawn whenever the directory is non-empty.
    pub fn initialize(directory: Vec<CapitalEntry>) -> (s: QuizSession)
        ensures
            s.wf(),
            s@.directory == directory@,
            s@.remaining.len() == directory@.len(),
            forall|k: int| 0 <= k < s@.remaining.len() ==> (#[trigger] s@.remaining[k]) == k,
            forall|i: usize| i < directory@.len() ==> s@.remaining.contains(i),
            s@.score == 0,
            s@.total == 0,
            s@.feedback is None,
            directory@.len() > 0 ==> s@.current is Some,
    {
        let mut s = QuizSession {
            directory,
            remaining: Vec::new(),
            current: None,
            score: 0,
            total: 0,
            feedback: None,
        };
        s.reset();
        s
    }

    /// Returns the session to its starting point: the full directory is open
    /// again, the counters are zero, the feedback is cleared, and a fresh
    /// question is drawn whenever the directory is non-empty.
    pub fn reset(&mut self)
        ensures
            final(self).wf(),
            final(self)@.directory == old(self)@.directory,
            final(self)@.remaining.len() == old(self)@.directory.len(),
            forall|k: int|
                0 <= k < final(self)@.remaining.len() ==> (#[trigger] final(self)@.remaining[k]) == k,
            forall|i: usize| i < old(self)@.directory.len() ==> final(self)@.remaining.contains(i),
            final(self)@.score == 0,
            final(self)@.total == 0,
            final(self)@.feedback is None,
            old(self)@.directory.len() > 0 ==> final(self)@.current is Some,
    {
        let n = self.directory.len();
        let mut remaining: Vec<usize> = Vec::new();
        let mut i: usize = 0;
        while i < n
            invariant
                i <= n,
                remaining@.len() == i as int,
                forall|k: int| 0 <= k < i as int ==> (#[trigger] remaining@[k]) == k,
            decreases n - i,
        {
            remaining.push(i);
            i += 1;
        }
        self.remaining = remaining;
        self.score = 0;
        self.total = 0;
        self.feedback = None;
        if n == 0 {
            self.current = None;
        } else {
            let pos = random_below(n);
            let idx = self.remaining[pos];
            self.current = Some(idx);
            proof {
                assert(self@.remaining[pos as int] == idx);
                assert(self@.remaining.contains(idx));
            }
        }
        proof {
            assert forall|i2: usize| i2 < old(self)@.directory.len() implies self@.remaining.contains(
                i2,
            ) by {
                assert(self@.remaining[i2 as int] == i2);
            }
        }
    }

    /// Scores one guess for the pending question, as a single step: both
    /// counters move on a match, only the attempt counter on a mismatch; a
    /// matched index leaves the open set for good while a mismatch changes it
    /// not at all; the feedback describes the outcome; and the next question
    /// is drawn from what is still open. With no pending question the call is
    /// a no-op.
    pub fn submit_answer(&mut self, raw: &str)
        requires
            old(self).wf(),
            old(self)@.total < usize::MAX,
        ensures
            final(self).wf(),
            final(self)@.directory == old(self)@.directory,
            old(self)@.current is None ==> *final(self) == *old(self),
            forall|j: usize|
                !old(self)@.remaining.contains(j) ==> !final(self)@.remaining.contains(j),
            (match old(self)@.current {
                Some(i) => {
                    let entry = old(self)@.directory[i as int];
                    let matched = answer_matches(raw@, entry.capital@);
                    &&& final(self)@.total == old(self)@.total + 1
                    &&& (matched ==> final(self)@.score == old(self)@.score + 1)
                    &&& (!matched ==> final(self)@.score == old(self)@.score)
                    &&& (matched ==> {
                        &&& !final(self)@.remaining.contains(i)
                        &&& final(self)@.remaining.len() == old(self)@.remaining.len() - 1
                        &&& forall|j: usize|
                            #[trigger] final(self)@.remaining.contains(j) <==> (old(
                                self,
                            )@.remaining.contains(j) && j != i)
                    })
                    &&& (!matched ==> final(self)@.remaining == old(self)@.remaining)
                    &&& (final(self)@.feedback matches Some(fb) && fb.correct == matched
                        && fb.message@ == (if matched {
                        correct_message(entry.state@, entry.capital@)
                    } else {
                        incorrect_message(entry.state@, entry.capital@)
                    }))
                },
                None => true,
            }),
    {
        let idx = match self.current {
            Some(i) => i,
            None => {
                return;
            },
        };
        proof {
            assert(self@.remaining.contains(idx));
            let k = choose|k: int|
                0 <= k < self@.remaining.len() && self@.remaining[k] == idx;
            assert(self@.remaining[k] < self@.directory.len());
        }
        let state = self.directory[idx].state.clone();
        let capital = self.directory[idx].capital.clone();
        let matched = matches_capital(raw, capital.as_str());
        self.total = self.total + 1;
        if matched {
            self.score = self.score + 1;
            let message = build_message("Correct! The capital of ", state.as_str(), capital.as_str());
            self.feedback = Some(Feedback { correct: true, message });
            let ghost before = self.remaining@;
            let pos = position_of(&self.remaining, idx);
            self.remaining.remove(pos);
            proof {
                lemma_remove_once(before, pos as int, idx);
            }
        } else {
            let message = build_message("Not quite. The capital of ", state.as_str(), capital.as_str());
            self.feedback = Some(Feedback { correct: false, message });
        }
        if self.remaining.len() == 0 {
            self.current = None;
        } else {
            let pos = random_below(self.remaining.len());
            let next = self.remaining[pos];
            self.current = Some(next);
            proof {
                assert(self@.remaining[pos as int] == next);
                assert(self@.remaining.contains(next));
            }
        }
    }

    /// Whether the session is over: no question is pending, equivalently
    /// nothing is left to ask.
    pub fn is_finished(&self) -> (r: bool)
        requires
            self.wf(),
        ensures
            r == (self@.current is None),
            r == (self@.remaining.len() == 0),
    {
        proof {
            if self@.remaining.len() > 0 && self@.current is None {
                assert(false);
            }
            if self@.remaining.len() == 0 {
                match self@.current {
                    Some(i) => {
                        assert(self@.remaining.contains(i));
                        assert(false);
                    },
                    None => {},
                }
            }
        }
        self.current.is_none()
    }

    /// Whether the session ended without a single wrong answer: it is
    /// finished, every entry was answered correctly, and no attempt was
    /// wasted.
    pub fn is_perfect(&self) -> (r: bool)
        requires
            self.wf(),
        ensures
            r == (self@.current is None && self@.score == self@.directory.len() && self@.total
                == self@.directory.len()),
    {
        let n = self.directory.len();
        self.current.is_none() && self.score == n && self.total == n
    }

    /// The index being asked, if any.
    pub fn current_index(&self) -> (r: Option<usize>)
        ensures
            r == self@.current,
    {
        self.current
    }

    /// The directory entry at a given index.
    pub fn entry(&self, i: usize) -> (r: &CapitalEntry)
        requires
            i < self@.directory.len(),
        ensures
            *r == self@.directory[i as int],
    {
        &self.directory[i]
    }

    /// How many entries the directory holds.
    pub fn directory_len(&self) -> (n: usize)
        ensures
            n as int == self@.directory.len(),
    {
        self.directory.len()
    }

    /// How many indices are still open.
    pub fn remaining_count(&self) -> (n: usize)
        ensures
            n as int == self@.remaining.len(),
    {
        self.remaining.len()
    }

    /// Whether the given index is still open.
    pub fn remaining_contains(&self, i: usize) -> (r: bool)
        ensures
            r == self@.remaining.contains(i),
    {
        let mut k: usize = 0;
        while k < self.remaining.len()
            invariant
                k <= self@.remaining.len(),
                forall|m: int| 0 <= m < k as int ==> self@.remaining[m] != i,
            decreases self@.remaining.len() - k,
        {
            if self.remaining[k] == i {
                proof {
                    assert(self@.remaining[k as int] == i);
                }
                return true;
            }
            k += 1;
        }
        proof {
            if self@.remaining.contains(i) {
                let m = choose|m: int|
                    0 <= m < self@.remaining.len() && self@.remaining[m] == i;
                assert(false);
            }
        }
        false
    }

    /// The number of correct answers so far.
    pub fn score(&self) -> (r: usize)
        ensures
            r as int == self@.score,
    {
        self.score
    }

    /// The number of answers submitted so far.
    pub fn total(&self) -> (r: usize)
        ensures
            r as int == self@.total,
    {
        self.total
    }

    /// The feedback for the most recent guess, if any guess was scored since
    /// the session (re)started.
    pub fn feedback(&self) -> (r: &Option<Feedback>)
        ensures
            *r == self@.feedback,
    {
        &self.feedback
    }
}

/// In a well-formed session the score never exceeds the number of answers
/// given.
pub proof fn lemma_score_le_total(s: QuizSession)
    requires
        s.wf(),
    ensures
        s@.score <= s@.total,
{
}

/// Once every directory index has been retired by a correct answer, nothing
/// remains, no question is pending, and the score equals the directory size:
/// answering each entry correctly once finishes the session, in any order.
pub proof fn lemma_all_retired_is_finished(s: QuizSession)
    requires
        s.wf(),
        forall|i: usize| i < s@.directory.len() ==> !s@.remaining.contains(i),
    ensures
        s@.remaining.len() == 0,
        s@.current is None,
        s@.score == s@.directory.len(),
{
    if s@.remaining.len() > 0 {
        let x = s@.remaining[0];
        assert(s@.remaining.contains(x));
        assert(x < s@.directory.len());
        assert(false);
    }
    match s@.current {
        Some(i) => {
            assert(s@.remaining.contains(i));
            assert(false);
        },
        None => {},
    }
}

/// Conversely, a finished well-formed session has retired every index: its
/// score equals the directory size.
pub proof fn lemma_finished_score(s: QuizSession)
    requires
        s.wf(),
        s@.current is None,
    ensures
        s@.remaining.len() == 0,
        s@.score == s@.directory.len(),
{
}

/// A retired index is never the pending question: whatever is asked is still
/// open.
pub proof fn lemma_retired_never_offered(s: QuizSession, i: usize)
    requires
        s.wf(),
        !s@.remaining.contains(i),
    ensures
        s@.current != Some(i),
{
    match s@.current {
        Some(c) => {
            assert(s@.remaining.contains(c));
        },
        None => {},
    }
}

/// Removing the one position holding `idx` from a duplicate-free sequence
/// keeps it duplicate-free, keeps every other element, and drops `idx`.
proof fn lemma_remove_once(r0: Seq<usize>, pos: int, idx: usize)
    requires
        0 <= pos < r0.len(),
        r0[pos] == idx,
        forall|k1: int, k2: int| 0 <= k1 < k2 < r0.len() ==> r0[k1] != r0[k2],
    ensures
        forall|j: usize| #[trigger] r0.remove(pos).contains(j) <==> (r0.contains(j) && j != idx),
        forall|k1: int, k2: int|
            0 <= k1 < k2 < r0.remove(pos).len() ==> r0.remove(pos)[k1] != r0.remove(pos)[k2],
        forall|k: int| 0 <= k < r0.remove(pos).len() ==> r0.contains(#[trigger] r0.remove(pos)[k]),
{
    let r1 = r0.remove(pos);
    assert(forall|k: int| 0 <= k < pos ==> r1[k] == r0[k]);
    assert(forall|k: int| pos <= k < r1.len() ==> r1[k] == r0[k + 1]);
    assert forall|k: int| 0 <= k < r1.len() implies r0.contains(#[trigger] r1[k]) by {
        if k < pos {
            assert(r1[k] == r0[k]);
        } else {
            assert(r1[k] == r0[k + 1]);
        }
    }
    assert forall|j: usize| #[trigger] r1.contains(j) implies (r0.contains(j) && j != idx) by {
        let m = choose|m: int| 0 <= m < r1.len() && r1[m] == j;
        if m < pos {
            assert(r0[m] == j);
            if j == idx {
                assert(r0[m] != r0[pos]);
            }
        } else {
            assert(r0[m + 1] == j);
            if j == idx {
                assert(r0[pos] != r0[m + 1]);
            }
        }
    }
    assert forall|j: usize| r0.contains(j) && j != idx implies #[trigger] r1.contains(j) by {
        let m = choose|m: int| 0 <= m < r0.len() && r0[m] == j;
        if m < pos {
            assert(r1[m] == j);
        } else {
            assert(m != pos);
            assert(r1[m - 1] == r0[m]);
        }
    }
    assert forall|k1: int, k2: int| 0 <= k1 < k2 < r1.len() implies r1[k1] != r1[k2] by {
        if k2 < pos {
            assert(r1[k1] == r0[k1] && r1[k2] == r0[k2]);
        } else if k1 < pos {
            assert(r1[k1] == r0[k1] && r1[k2] == r0[k2 + 1]);
        } else {
            assert(r1[k1] == r0[k1 + 1] && r1[k2] == r0[k2 + 1]);
        }
    }
}

/// The position at which a sequence known to hold `idx` holds it.
fn position_of(r: &Vec<usize>, idx: usize) -> (pos: usize)
    requires
        r@.contains(idx),
    ensures
        pos < r@.len(),
        r@[pos as int] == idx,
{
    let mut pos: usize = 0;
    while pos < r.len()
        invariant
            pos <= r@.len(),
            forall|k: int| 0 <= k < pos as int ==> r@[k] != idx,
            r@.contains(idx),
        decreases r@.len() - pos,
    {
        if r[pos] == idx {
            return pos;
        }
        pos += 1;
    }
    proof {
        let m = choose|m: int| 0 <= m < r@.len() && r@[m] == idx;
        assert(false);
    }
    0
}

/// Joins a fixed prefix with the state and capital names into one feedback
/// line.
fn build_message(prefix: &str, state: &str, capital: &str) -> (r: String)
    ensures
        r@ == prefix@ + state@ + " is "@ + capital@ + "."@,
{
    let mut m = prefix.to_owned();
    m.append(state);
    m.append(" is ");
    m.append(capital);
    m.append(".");
    m
}

/// Relies on rand::Rng::gen_range: a draw from a non-empty range lies within
/// it.
#[verifier::external_body]
fn random_below(n: usize) -> (r: usize)
    requires
        n > 0,
    ensures
        r < n,
{
    rand::thread_rng().gen_range(0..n)
}

} // verus!
