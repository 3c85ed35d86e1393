//! The session as a mathematical state machine: what is loaded, which
//! question is shown, what has been selected, and the score once submitted.
//!
//! The executable application state refines this model: each of its
//! operations is specified as one of the transitions below.

use vstd::prelude::*;
use crate::choice::Choice;
use crate::exam::{
    correct_count, is_correct_at, lemma_all_correct, lemma_correct_among_bounded,
    lemma_none_correct, ExamView,
};

verus! {

/// Where a session stands.
#[derive(Clone, Copy, Debug, PartialEq, Eq, Structural)]
pub enum Phase {
    /// No exam is loaded.
    Empty,
    /// An exam is loaded and not yet submitted.
    InProgress,
    /// The loaded exam has been submitted and scored.
    Submitted,
}

/// The state of a session.
#[verifier::ext_equal]
pub struct Session {
    /// The loaded exam, if any.
    pub exam: Option<ExamView>,
    /// The position of the question that is shown.
    pub current: nat,
    /// The selected label of each question, by position.
    pub selections: Seq<Choice>,
    /// The number of correct answers, once submitted.
    pub score: Option<nat>,
}

/// The selections that a freshly loaded exam of `count` questions starts
/// with: the first label for every question.
pub open spec fn initial_selections(count: nat) -> Seq<Choice> {
    Seq::new(count, |i: int| Choice::A)
}

impl Session {
    /// The session before anything is loaded.
    pub open spec fn empty() -> Session {
        Session { exam: None, current: 0, selections: Seq::empty(), score: None }
    }

    /// The number of questions of the loaded exam; 0 where none is loaded.
    pub open spec fn question_count(self) -> nat {
        match self.exam {
            Some(exam) => exam.questions.len(),
            None => 0,
        }
    }

    /// The invariant of every reachable session: without an exam there is
    /// no position, selection or score; with one, it has a question, the
    /// position is one of its questions, every question has a selection,
    /// and a score is the score of these selections.
    pub open spec fn wf(self) -> bool {
        match self.exam {
            None => self.current == 0 && self.selections.len() == 0 && self.score is None,
            Some(exam) => {
                &&& exam.questions.len() >= 1
                &&& self.current < exam.questions.len()
                &&& self.selections.len() == exam.questions.len()
                &&& (self.score matches Some(score) ==> score == correct_count(
                    exam.questions,
                    self.selections,
                ))
            },
        }
    }

    /// Where the session stands.
    pub open spec fn phase(self) -> Phase {
        if self.exam is None {
            Phase::Empty
        } else if self.score is None {
            Phase::InProgress
        } else {
            Phase::Submitted
        }
    }

    /// Whether `exam` can be loaded: it has at least one question.
    pub open spec fn accepts(exam: ExamView) -> bool {
        exam.questions.len() >= 1
    }

    /// Loading `exam`: it replaces what was loaded, the first question is
    /// shown, every question starts with the first label, and no score is
    /// left. An exam without questions is not loaded and changes nothing.
    pub open spec fn load(self, exam: ExamView) -> Session {
        if Session::accepts(exam) {
            Session {
                exam: Some(exam),
                current: 0,
                selections: initial_selections(exam.questions.len()),
                score: None,
            }
        } else {
            self
        }
    }

    /// Whether a selection for `question` can be recorded: the exam is in
    /// progress and has such a question.
    pub open spec fn can_select(self, question: nat) -> bool {
        self.phase() == Phase::InProgress && question < self.question_count()
    }

    /// Recording `choice` for `question`; nothing changes where that cannot
    /// be done.
    pub open spec fn select(self, question: nat, choice: Choice) -> Session {
        if self.can_select(question) {
            Session { selections: self.selections.update(question as int, choice), ..self }
        } else {
            self
        }
    }

    /// Whether a question follows the one shown.
    pub open spec fn can_advance(self) -> bool {
        self.exam is Some && self.current + 1 < self.question_count()
    }

    /// Whether a question precedes the one shown.
    pub open spec fn can_retreat(self) -> bool {
        self.exam is Some && self.current > 0
    }

    /// Moving to the next question; nothing changes at the last one.
    pub open spec fn advance(self) -> Session {
        if self.can_advance() {
            Session { current: self.current + 1, ..self }
        } else {
            self
        }
    }

    /// Moving to the previous question; nothing changes at the first one.
    pub open spec fn retreat(self) -> Session {
        if self.can_retreat() {
            Session { current: (self.current - 1) as nat, ..self }
        } else {
            self
        }
    }

    /// Advancing `times` times in a row.
    pub open spec fn advance_times(self, times: nat) -> Session
        decreases times,
    {
        if times == 0 {
            self
        } else {
            self.advance_times((times - 1) as nat).advance()
        }
    }

    /// Submitting: the score of the selections is stored. Nothing changes
    /// where no exam is loaded.
    pub open spec fn submit(self) -> Session {
        match self.exam {
            Some(exam) => Session {
                score: Some(correct_count(exam.questions, self.selections)),
                ..self
            },
            None => self,
        }
    }
}

/// The empty session is well formed, and every transition keeps a session
/// well formed.
pub proof fn lemma_wf_is_invariant(s: Session, exam: ExamView, question: nat, choice: Choice)
    requires
        s.wf(),
    ensures
        Session::empty().wf(),
        s.load(exam).wf(),
        s.select(question, choice).wf(),
        s.advance().wf(),
        s.retreat().wf(),
        s.submit().wf(),
{
}

/// The phases follow each other as the operations allow: loading an exam
/// with a question puts the session in progress from any phase; submitting
/// an exam in progress makes it submitted; selecting and moving never change
/// the phase; and a submitted session stays as it is under everything but a
/// load, except for the position shown.
pub proof fn lemma_phase_transitions(s: Session, exam: ExamView, question: nat, choice: Choice)
    requires
        s.wf(),
    ensures
        Session::empty().phase() == Phase::Empty,
        Session::accepts(exam) ==> s.load(exam).phase() == Phase::InProgress,
        s.phase() == Phase::InProgress ==> s.submit().phase() == Phase::Submitted,
        s.phase() == Phase::Empty ==> s.submit() == s,
        s.select(question, choice).phase() == s.phase(),
        s.advance().phase() == s.phase(),
        s.retreat().phase() == s.phase(),
        s.phase() == Phase::Submitted ==> s.select(question, choice) == s && s.submit() == s,
{
}

/// Loading an exam of at least one question, from any session, shows its
/// first question, gives each of its questions exactly one selection, the
/// first label, and leaves no score.
pub proof fn lemma_load_starts_afresh(s: Session, exam: ExamView)
    requires
        Session::accepts(exam),
    ensures
        s.load(exam).exam == Some(exam),
        s.load(exam).current == 0,
        s.load(exam).selections.len() == exam.questions.len(),
        forall|i: int| 0 <= i < exam.questions.len() ==> s.load(exam).selections[i] == Choice::A,
        s.load(exam).score is None,
{
}

/// A load forgets what came before it. From any session, and so also after
/// a first exam was loaded, answered and submitted, loading a second exam
/// gives the session that loading it into the empty session gives: the
/// selections are those of a fresh start on the second exam, and no score is
/// left.
pub proof fn lemma_second_load_replaces_first(
    s: Session,
    first: ExamView,
    second: ExamView,
    question: nat,
    choice: Choice,
)
    requires
        Session::accepts(second),
    ensures
        s.load(second) == Session::empty().load(second),
        s.load(first).select(question, choice).submit().load(second) == Session::empty().load(
            second,
        ),
        s.load(second).selections == initial_selections(second.questions.len()),
        s.load(second).score is None,
        s.load(second).phase() == Phase::InProgress,
{
}

/// Advancing at the last question changes nothing, and neither does
/// retreating at the first.
pub proof fn lemma_moves_stop_at_the_ends(s: Session)
    requires
        s.wf(),
    ensures
        s.current + 1 == s.question_count() ==> s.advance() == s,
        s.current == 0 ==> s.retreat() == s,
{
}

/// Advancing `times` times moves the position forward by `times`, but never
/// past the last question, and changes nothing else.
pub proof fn lemma_advance_times(s: Session, times: nat)
    requires
        s.wf(),
        s.exam is Some,
    ensures
        s.advance_times(times) == (Session {
            current: if s.current + times < s.question_count() {
                s.current + times
            } else {
                (s.question_count() - 1) as nat
            },
            ..s
        }),
    decreases times,
{
    if times > 0 {
        lemma_advance_times(s, (times - 1) as nat);
    }
}

/// From the first question of an exam of `n` questions, `n - 1` advances
/// reach the last question, and no number of further advances leaves it.
pub proof fn lemma_advance_reaches_last(s: Session, more: nat)
    requires
        s.wf(),
        s.exam is Some,
        s.current == 0,
    ensures
        s.advance_times((s.question_count() - 1) as nat).current == s.question_count() - 1,
        s.advance_times((s.question_count() - 1) as nat + more).current == s.question_count() - 1,
{
    lemma_advance_times(s, (s.question_count() - 1) as nat);
    lemma_advance_times(s, (s.question_count() - 1) as nat + more);
}

/// A submitted score is at most the number of questions; it is that number
/// where every selection is correct, and 0 where none is.
pub proof fn lemma_submit_scores(s: Session)
    requires
        s.wf(),
        s.exam is Some,
    ensures
        s.submit().score is Some,
        s.submit().score->0 <= s.question_count(),
        (forall|i: int|
            0 <= i < s.question_count() ==> (#[trigger] s.exam->0.questions[i]).is_answered_by(
                s.selections[i],
            )) ==> s.submit().score == Some(s.question_count()),
        (forall|i: int|
            0 <= i < s.question_count() ==> !(#[trigger] s.exam->0.questions[i]).is_answered_by(
                s.selections[i],
            )) ==> s.submit().score == Some(0nat),
{
    let questions = s.exam->0.questions;
    lemma_correct_among_bounded(questions, s.selections, questions.len());
    if forall|i: int|
        0 <= i < questions.len() ==> (#[trigger] questions[i]).is_answered_by(s.selections[i]) {
        assert forall|i: int| 0 <= i < questions.len() implies is_correct_at(
            questions,
            s.selections,
            i,
        ) by {
            assert(questions[i].is_answered_by(s.selections[i]));
        }
        lemma_all_correct(questions, s.selections, questions.len());
    }
    if forall|i: int|
        0 <= i < questions.len() ==> !(#[trigger] questions[i]).is_answered_by(s.selections[i]) {
        assert forall|i: int| 0 <= i < questions.len() implies !is_correct_at(
            questions,
            s.selections,
            i,
        ) by {
            assert(!questions[i].is_answered_by(s.selections[i]));
        }
        lemma_none_correct(questions, s.selections, questions.len());
    }
}

} // verus!
