//! The application state that a user interface drives: a session, the error
//! to show, what to draw, and what each user intent does.

use vstd::prelude::*;
use crate::choice::Choice;
use crate::error::LoadError;
use crate::exam::{Exam, ExamView, Question};
use crate::loader::exam_of_text;
use crate::session::{initial_selections, Phase, Session};

verus! {

/// What the user interface reports.
#[derive(Debug)]
pub enum Event {
    /// The user asks to load an exam file.
    LoadRequested,
    /// The user closed the file picker without choosing a file.
    PickCancelled,
    /// The chosen file could not be read.
    FileUnreadable,
    /// The chosen file was read; this is its text.
    FileRead(String),
    /// The user selects a label for the question shown.
    Select(Choice),
    /// The user asks for the previous question.
    Previous,
    /// The user asks for the next question.
    Next,
    /// The user submits the exam.
    Submit,
}

/// What the user interface has to do after an event.
#[derive(Clone, Copy, Debug, PartialEq, Eq, Structural)]
pub enum Action {
    /// Draw the screen again.
    Redraw,
    /// Let the user pick a file, and report what came of it.
    PickFile,
}

/// What the user interface has to draw, besides the error if there is one.
#[derive(Clone, Copy, Debug, PartialEq, Eq, Structural)]
pub enum Screen {
    /// Nothing is loaded.
    Welcome,
    /// One question of the exam in progress.
    Question {
        /// The number of the question, counted from 1.
        number: usize,
        /// The number of questions.
        total: usize,
        /// The label selected for the question.
        selected: Choice,
        /// Whether a previous question can be gone to.
        can_go_back: bool,
        /// Whether a next question can be gone to.
        can_go_forward: bool,
        /// Whether the exam can be submitted here: at the last question.
        can_submit: bool,
    },
    /// The result of the submitted exam.
    Results {
        /// The number of correct answers.
        correct: usize,
        /// The number of questions.
        total: usize,
    },
}

/// What loading the exam document `text` comes to: the exam is loaded, or
/// the text holds none, or the exam has no question.
pub open spec fn load_outcome(text: Seq<char>) -> Result<(), LoadError> {
    match exam_of_text(text) {
        Ok(exam) => if Session::accepts(exam) {
            Ok(())
        } else {
            Err(LoadError::NoQuestions)
        },
        Err(error) => Err(LoadError::Parse(error)),
    }
}

/// The error to show after an attempt to load.
pub open spec fn error_of(outcome: Result<(), LoadError>) -> Option<LoadError> {
    match outcome {
        Ok(_) => None,
        Err(error) => Some(error),
    }
}

impl Session {
    /// Loading the exam document `text`: the exam that it holds is loaded;
    /// a text that holds none changes nothing.
    pub open spec fn load_text(self, text: Seq<char>) -> Session {
        match exam_of_text(text) {
            Ok(exam) => self.load(exam),
            Err(_) => self,
        }
    }

    /// The session after `event`.
    pub open spec fn step(self, event: Event) -> Session {
        match event {
            Event::LoadRequested | Event::PickCancelled | Event::FileUnreadable => self,
            Event::FileRead(text) => self.load_text(text@),
            Event::Select(choice) => self.select(self.current, choice),
            Event::Previous => self.retreat(),
            Event::Next => self.advance(),
            Event::Submit => self.submit(),
        }
    }

    /// The session after each of `events` in turn.
    pub open spec fn run(self, events: Seq<Event>) -> Session
        decreases events.len(),
    {
        if events.len() == 0 {
            self
        } else {
            self.run(events.drop_last()).step(events.last())
        }
    }

    /// Whether `screen` is what is drawn for this session: the kind of
    /// screen goes by the phase, and each of its parts by the session. Of any
    /// session at most one screen is drawn.
    pub open spec fn shows(self, screen: Screen) -> bool {
        match screen {
            Screen::Welcome => self.phase() == Phase::Empty,
            Screen::Question {
                number,
                total,
                selected,
                can_go_back,
                can_go_forward,
                can_submit,
            } => {
                &&& self.phase() == Phase::InProgress
                &&& number == self.current + 1
                &&& total == self.question_count()
                &&& selected == self.selections[self.current as int]
                &&& can_go_back == self.can_retreat()
                &&& can_go_forward == self.can_advance()
                &&& can_submit == (self.current + 1 == self.question_count())
            },
            Screen::Results { correct, total } => {
                &&& self.phase() == Phase::Submitted
                &&& self.score == Some(correct as nat)
                &&& total == self.question_count()
            },
        }
    }
}

/// Of any session at most one screen is drawn.
pub proof fn lemma_screen_is_unique(s: Session, first: Screen, second: Screen)
    requires
        s.shows(first),
        s.shows(second),
    ensures
        first == second,
{
}

/// The error shown after `event`, where `shown` was shown before it: a
/// failed attempt to load shows its error, a successful one shows none, and
/// nothing else changes what is shown.
pub open spec fn error_after(shown: Option<LoadError>, event: Event) -> Option<LoadError> {
    match event {
        Event::PickCancelled | Event::FileUnreadable => Some(LoadError::FileRead),
        Event::FileRead(text) => error_of(load_outcome(text@)),
        _ => shown,
    }
}

/// What the user interface has to do after `event`.
pub open spec fn action_after(event: Event) -> Action {
    match event {
        Event::LoadRequested => Action::PickFile,
        _ => Action::Redraw,
    }
}

/// Every event keeps a session well formed.
pub proof fn lemma_step_keeps_wf(s: Session, event: Event)
    requires
        s.wf(),
    ensures
        s.step(event).wf(),
{
}

/// Whatever the user does, the session is well formed: there is a score only
/// for a loaded exam, and a loaded exam has a question to show and a
/// selection for each of its questions.
pub proof fn lemma_every_reachable_session_is_wf(events: Seq<Event>)
    ensures
        Session::empty().run(events).wf(),
        Session::empty().run(events).score is Some ==> Session::empty().run(events).exam is Some,
        Session::empty().run(events).exam is Some ==> Session::empty().run(events).current
            < Session::empty().run(events).question_count(),
        Session::empty().run(events).selections.len() == Session::empty().run(
            events,
        ).question_count(),
    decreases events.len(),
{
    if events.len() > 0 {
        lemma_every_reachable_session_is_wf(events.drop_last());
        lemma_step_keeps_wf(Session::empty().run(events.drop_last()), events.last());
    }
}

/// Loading a document that holds an exam of at least one question, from any
/// session, succeeds: the exam is loaded, its first question is shown, each
/// of its questions has exactly one selection, the first label, and neither
/// a score nor an error is left.
pub proof fn lemma_valid_document_starts_afresh(s: Session, text: Seq<char>)
    requires
        exam_of_text(text) is Ok,
        exam_of_text(text)->Ok_0.questions.len() >= 1,
    ensures
        load_outcome(text) is Ok,
        error_of(load_outcome(text)) is None,
        s.load_text(text).exam == Some(exam_of_text(text)->Ok_0),
        s.load_text(text).current == 0,
        s.load_text(text).selections.len() == exam_of_text(text)->Ok_0.questions.len(),
        forall|i: int|
            0 <= i < s.load_text(text).selections.len() ==> s.load_text(text).selections[i]
                == Choice::A,
        s.load_text(text).score is None,
{
}

/// A document that holds no exam changes nothing in the session: the load
/// fails with the parse error, which is the error shown.
pub proof fn lemma_malformed_document_changes_nothing(s: Session, text: Seq<char>)
    requires
        exam_of_text(text) is Err,
    ensures
        s.load_text(text) == s,
        load_outcome(text) == Err::<(), LoadError>(LoadError::Parse(exam_of_text(text)->Err_0)),
        error_of(load_outcome(text)) == Some(LoadError::Parse(exam_of_text(text)->Err_0)),
{
}

/// An exam without questions is refused and changes nothing in the session.
pub proof fn lemma_empty_exam_changes_nothing(s: Session, text: Seq<char>)
    requires
        exam_of_text(text) is Ok,
        exam_of_text(text)->Ok_0.questions.len() == 0,
    ensures
        s.load_text(text) == s,
        load_outcome(text) == Err::<(), LoadError>(LoadError::NoQuestions),
{
}

/// The state of the application: a session and the error to show, if any.
pub struct ExamApp {
    current_exam: Option<Exam>,
    current_question: usize,
    choice_selections: Vec<Choice>,
    error_message: Option<LoadError>,
    correct_answers: Option<usize>,
}

impl View for ExamApp {
    type V = Session;

    closed spec fn view(&self) -> Session {
        Session {
            exam: match self.current_exam {
                Some(exam) => Some(exam@),
                None => None,
            },
            current: self.current_question as nat,
            selections: self.choice_selections@,
            score: match self.correct_answers {
                Some(score) => Some(score as nat),
                None => None,
            },
        }
    }
}

impl ExamApp {
    /// What holds of every application state: its session is well formed.
    #[verifier::type_invariant]
    pub open spec fn valid(self) -> bool {
        self@.wf()
    }

    /// The error that is shown, if any.
    pub closed spec fn shown_error(&self) -> Option<LoadError> {
        self.error_message
    }

    /// An application with nothing loaded and nothing to report.
    pub fn new() -> (app: ExamApp)
        ensures
            app@ == Session::empty(),
            app.shown_error() is None,
    {
        ExamApp {
            current_exam: None,
            current_question: 0,
            choice_selections: Vec::new(),
            error_message: None,
            correct_answers: None,
        }
    }

    /// Loads `exam` in place of what was loaded: its first question is
    /// shown, every question starts with the first label, and no score or
    /// error is left. An exam without questions is refused: the session
    /// stays as it is, and the refusal is the error shown.
    pub fn load(&mut self, exam: Exam) -> (loaded: Result<(), LoadError>)
        ensures
            loaded == if Session::accepts(exam@) {
                Ok::<(), LoadError>(())
            } else {
                Err::<(), LoadError>(LoadError::NoQuestions)
            },
            final(self)@ == old(self)@.load(exam@),
            final(self)@.wf(),
            final(self).shown_error() == error_of(loaded),
    {
        proof {
            use_type_invariant(&*self);
        }
        let count = exam.question_count();
        if count == 0 {
            self.error_message = Some(LoadError::NoQuestions);
            return Err(LoadError::NoQuestions);
        }
        let mut selections: Vec<Choice> = Vec::new();
        let mut i: usize = 0;
        while i < count
            invariant
                i <= count,
                selections@ == initial_selections(i as nat),
            decreases count - i,
        {
            selections.push(Choice::A);
            i = i + 1;
        }
        *self = ExamApp {
            current_exam: Some(exam),
            current_question: 0,
            choice_selections: selections,
            error_message: None,
            correct_answers: None,
        };
        Ok(())
    }

    /// Loads the exam that the document `text` holds. Where the text holds
    /// none, or an exam without questions, the session stays as it is and
    /// the error is returned and shown.
    pub fn load_exam(&mut self, text: &str) -> (loaded: Result<(), LoadError>)
        ensures
            loaded == load_outcome(text@),
            final(self)@ == old(self)@.load_text(text@),
            final(self)@.wf(),
            final(self).shown_error() == error_of(loaded),
    {
        proof {
            use_type_invariant(&*self);
        }
        match Exam::parse(text) {
            Ok(exam) => self.load(exam),
            Err(error) => {
                self.error_message = Some(LoadError::Parse(error));
                Err(LoadError::Parse(error))
            },
        }
    }

    /// Records `choice` for the question at position `question`, and says
    /// whether it did: only while the exam is in progress, and only for a
    /// question that it has.
    pub fn select(&mut self, question: usize, choice: Choice) -> (recorded: bool)
        ensures
            recorded == old(self)@.can_select(question as nat),
            final(self)@ == old(self)@.select(question as nat, choice),
            final(self)@.wf(),
            final(self).shown_error() == old(self).shown_error(),
    {
        proof {
            use_type_invariant(&*self);
        }
        let in_progress = self.current_exam.is_some() && self.correct_answers.is_none();
        if in_progress && question < self.choice_selections.len() {
            self.choice_selections[question] = choice;
            true
        } else {
            false
        }
    }

    /// Moves to the next question, and says whether there was one.
    pub fn advance(&mut self) -> (moved: bool)
        ensures
            moved == old(self)@.can_advance(),
            final(self)@ == old(self)@.advance(),
            final(self)@.wf(),
            final(self).shown_error() == old(self).shown_error(),
    {
        proof {
            use_type_invariant(&*self);
        }
        let count = self.choice_selections.len();
        if self.current_exam.is_some() && self.current_question + 1 < count {
            self.current_question = self.current_question + 1;
            true
        } else {
            false
        }
    }

    /// Moves to the previous question, and says whether there was one.
    pub fn retreat(&mut self) -> (moved: bool)
        ensures
            moved == old(self)@.can_retreat(),
            final(self)@ == old(self)@.retreat(),
            final(self)@.wf(),
            final(self).shown_error() == old(self).shown_error(),
    {
        proof {
            use_type_invariant(&*self);
        }
        if self.current_exam.is_some() && self.current_question > 0 {
            self.current_question = self.current_question - 1;
            true
        } else {
            false
        }
    }

    /// Scores the selections against the answer keys and stores the score.
    /// Nothing happens where no exam is loaded.
    pub fn submit_exam(&mut self)
        ensures
            final(self)@ == old(self)@.submit(),
            final(self)@.wf(),
            final(self).shown_error() == old(self).shown_error(),
    {
        proof {
            use_type_invariant(&*self);
        }
        let score = match &self.current_exam {
            Some(exam) => Some(exam.score(&self.choice_selections)),
            None => None,
        };
        self.correct_answers = score;
    }

    /// Does what `event` asks for, and says what the user interface has to
    /// do next.
    pub fn handle(&mut self, event: Event) -> (action: Action)
        ensures
            final(self)@ == old(self)@.step(event),
            final(self)@.wf(),
            final(self).shown_error() == error_after(old(self).shown_error(), event),
            action == action_after(event),
    {
        proof {
            use_type_invariant(&*self);
        }
        match event {
            Event::LoadRequested => Action::PickFile,
            Event::PickCancelled => {
                self.error_message = Some(LoadError::FileRead);
                Action::Redraw
            },
            Event::FileUnreadable => {
                self.error_message = Some(LoadError::FileRead);
                Action::Redraw
            },
            Event::FileRead(text) => {
                let _loaded = self.load_exam(text.as_str());
                Action::Redraw
            },
            Event::Select(choice) => {
                let _recorded = self.select(self.current_question, choice);
                Action::Redraw
            },
            Event::Previous => {
                let _moved = self.retreat();
                Action::Redraw
            },
            Event::Next => {
                let _moved = self.advance();
                Action::Redraw
            },
            Event::Submit => {
                self.submit_exam();
                Action::Redraw
            },
        }
    }

    /// What the user interface has to draw.
    pub fn screen(&self) -> (screen: Screen)
        ensures
            self@.shows(screen),
    {
        proof {
            use_type_invariant(self);
        }
        let total = self.choice_selections.len();
        match (&self.current_exam, self.correct_answers) {
            (None, _) => Screen::Welcome,
            (Some(_), None) => Screen::Question {
                number: self.current_question + 1,
                total,
                selected: self.choice_selections[self.current_question],
                can_go_back: self.current_question > 0,
                can_go_forward: self.current_question + 1 < total,
                can_submit: self.current_question + 1 == total,
            },
            (Some(_), Some(correct)) => Screen::Results { correct, total },
        }
    }

    /// Where the session stands.
    pub fn phase(&self) -> (phase: Phase)
        ensures
            phase == self@.phase(),
    {
        if self.current_exam.is_none() {
            Phase::Empty
        } else if self.correct_answers.is_none() {
            Phase::InProgress
        } else {
            Phase::Submitted
        }
    }

    /// The loaded exam, if any.
    pub fn current_exam(&self) -> (exam: Option<&Exam>)
        ensures
            match exam {
                Some(exam) => self@.exam == Some(exam@),
                None => self@.exam is None,
            },
    {
        self.current_exam.as_ref()
    }

    /// The position of the question that is shown.
    pub fn current_question(&self) -> (position: usize)
        ensures
            position == self@.current,
    {
        self.current_question
    }

    /// The question that is shown, if an exam is loaded.
    pub fn question(&self) -> (question: Option<&Question>)
        ensures
            match question {
                Some(question) => {
                    &&& self@.exam is Some
                    &&& self@.exam->0.questions[self@.current as int] == question@
                },
                None => self@.exam is None,
            },
    {
        proof {
            use_type_invariant(self);
        }
        match &self.current_exam {
            Some(exam) => Some(&exam.questions[self.current_question]),
            None => None,
        }
    }

    /// The label selected for the question at position `question`, if the
    /// loaded exam has such a question.
    pub fn selection(&self, question: usize) -> (selected: Option<Choice>)
        ensures
            selected == if question < self@.selections.len() {
                Some(self@.selections[question as int])
            } else {
                None
            },
    {
        if question < self.choice_selections.len() {
            Some(self.choice_selections[question])
        } else {
            None
        }
    }

    /// The number of correct answers, once the exam is submitted.
    pub fn correct_answers(&self) -> (score: Option<usize>)
        ensures
            match score {
                Some(score) => self@.score == Some(score as nat),
                None => self@.score is None,
            },
    {
        self.correct_answers
    }

    /// The error to show, if any.
    pub fn error(&self) -> (error: Option<LoadError>)
        ensures
            error == self.shown_error(),
    {
        self.error_message
    }
}

impl Default for ExamApp {
    /// An application with nothing loaded and nothing to report.
    fn default() -> (app: ExamApp)
        ensures
            app@ == Session::empty(),
            app.shown_error() is None,
    {
        ExamApp::new()
    }
}

} // verus!
