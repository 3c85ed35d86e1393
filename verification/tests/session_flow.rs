use exam_blaze::app::{Action, Event, ExamApp, Screen};
use exam_blaze::choice::Choice;
use exam_blaze::error::{LoadError, ParseError};
use exam_blaze::exam::{Exam, Question};
use exam_blaze::session::Phase;

const ONE_QUESTION: &str =
    r#"{"name":"T","questions":[{"prompt":"Q1","choices":["X","Y"],"answer":"B"}]}"#;

const THREE_QUESTIONS: &str = r#"{"name": "Three", "questions": [
    {"prompt": "first", "choices": ["a", "b"], "answer": "B"},
    {"prompt": "second", "choices": ["a", "b", "c"], "answer": "C"},
    {"prompt": "third", "choices": ["a"], "answer": "A"}
]}"#;

fn exam_of(count: usize) -> Exam {
    Exam {
        name: format!("{} questions", count),
        questions: (0..count)
            .map(|i| Question {
                prompt: format!("Q{}", i + 1),
                choices: vec!["yes".to_string(), "no".to_string()],
                answer: Some("B".to_string()),
            })
            .collect(),
    }
}

fn loaded(text: &str) -> ExamApp {
    let mut app = ExamApp::new();
    assert_eq!(app.load_exam(text), Ok(()));
    app
}

fn selections(app: &ExamApp) -> Vec<Choice> {
    let count = app.current_exam().map_or(0, |exam| exam.question_count());
    (0..count).map(|i| app.selection(i).unwrap()).collect()
}

#[test]
fn new_application_is_empty() {
    for app in [ExamApp::new(), ExamApp::default()] {
        assert_eq!(app.phase(), Phase::Empty);
        assert!(app.current_exam().is_none());
        assert!(app.question().is_none());
        assert_eq!(app.current_question(), 0);
        assert_eq!(app.selection(0), None);
        assert_eq!(app.correct_answers(), None);
        assert_eq!(app.error(), None);
        assert_eq!(app.screen(), Screen::Welcome);
    }
}

#[test]
fn loading_starts_at_the_first_question_with_label_a() {
    for count in [1usize, 2, 5, 9] {
        let mut app = ExamApp::new();
        assert_eq!(app.load(exam_of(count)), Ok(()));
        assert_eq!(app.phase(), Phase::InProgress);
        assert_eq!(app.current_question(), 0);
        assert_eq!(selections(&app), vec![Choice::A; count]);
        assert_eq!(app.selection(count), None);
        assert_eq!(app.correct_answers(), None);
        assert_eq!(app.error(), None);
        assert_eq!(app.current_exam().unwrap().question_count(), count);
    }
}

#[test]
fn loading_a_document_starts_afresh() {
    let app = loaded(THREE_QUESTIONS);
    assert_eq!(app.current_exam().unwrap().name, "Three");
    assert_eq!(app.current_question(), 0);
    assert_eq!(selections(&app), vec![Choice::A, Choice::A, Choice::A]);
    assert_eq!(app.correct_answers(), None);
    assert_eq!(app.question().unwrap().prompt, "first");
}

#[test]
fn advance_stops_at_the_last_question() {
    for count in [1usize, 2, 4] {
        let mut app = ExamApp::new();
        app.load(exam_of(count)).unwrap();
        for step in 1..count {
            assert!(app.advance());
            assert_eq!(app.current_question(), step);
        }
        assert_eq!(app.current_question(), count - 1);
        assert!(!app.advance());
        assert!(!app.advance());
        assert_eq!(app.current_question(), count - 1);
    }
}

#[test]
fn retreat_stops_at_the_first_question() {
    let mut app = loaded(THREE_QUESTIONS);
    assert!(!app.retreat());
    assert_eq!(app.current_question(), 0);
    assert!(app.advance());
    assert!(app.advance());
    assert!(app.retreat());
    assert_eq!(app.current_question(), 1);
    assert_eq!(app.question().unwrap().prompt, "second");
    assert!(app.retreat());
    assert!(!app.retreat());
    assert_eq!(app.current_question(), 0);
}

#[test]
fn moving_without_an_exam_does_nothing() {
    let mut app = ExamApp::new();
    assert!(!app.advance());
    assert!(!app.retreat());
    assert!(!app.select(0, Choice::B));
    app.submit_exam();
    assert_eq!(app.phase(), Phase::Empty);
    assert_eq!(app.current_question(), 0);
    assert_eq!(app.correct_answers(), None);
}

#[test]
fn selecting_b_scores_one_of_one() {
    let mut app = loaded(ONE_QUESTION);
    assert!(app.select(0, Choice::B));
    app.submit_exam();
    assert_eq!(app.correct_answers(), Some(1));
    assert_eq!(app.current_exam().unwrap().question_count(), 1);
    assert_eq!(app.screen(), Screen::Results { correct: 1, total: 1 });
}

#[test]
fn selecting_a_scores_zero_of_one() {
    let mut app = loaded(ONE_QUESTION);
    assert!(app.select(0, Choice::A));
    app.submit_exam();
    assert_eq!(app.correct_answers(), Some(0));
    assert_eq!(app.screen(), Screen::Results { correct: 0, total: 1 });
}

#[test]
fn submitting_untouched_selections_scores_the_default() {
    let mut app = loaded(THREE_QUESTIONS);
    app.submit_exam();
    assert_eq!(app.correct_answers(), Some(1));
}

#[test]
fn all_matching_selections_score_the_number_of_questions() {
    let mut app = loaded(THREE_QUESTIONS);
    assert!(app.select(0, Choice::B));
    assert!(app.select(1, Choice::C));
    assert!(app.select(2, Choice::A));
    app.submit_exam();
    assert_eq!(app.correct_answers(), Some(3));
    assert_eq!(app.phase(), Phase::Submitted);
}

#[test]
fn no_matching_selection_scores_zero() {
    let mut app = loaded(THREE_QUESTIONS);
    assert!(app.select(0, Choice::A));
    assert!(app.select(1, Choice::A));
    assert!(app.select(2, Choice::H));
    app.submit_exam();
    assert_eq!(app.correct_answers(), Some(0));
}

#[test]
fn select_records_only_what_it_can() {
    let mut app = loaded(THREE_QUESTIONS);
    assert!(app.select(1, Choice::H));
    assert_eq!(selections(&app), vec![Choice::A, Choice::H, Choice::A]);
    assert!(!app.select(3, Choice::B));
    assert!(!app.select(usize::MAX, Choice::B));
    assert_eq!(selections(&app), vec![Choice::A, Choice::H, Choice::A]);
    assert!(app.select(1, Choice::C));
    assert_eq!(app.selection(1), Some(Choice::C));
}

#[test]
fn submitted_exam_takes_no_more_answers() {
    let mut app = loaded(ONE_QUESTION);
    app.submit_exam();
    assert_eq!(app.correct_answers(), Some(0));
    assert!(!app.select(0, Choice::B));
    assert_eq!(app.selection(0), Some(Choice::A));
    app.submit_exam();
    assert_eq!(app.correct_answers(), Some(0));
    assert_eq!(app.phase(), Phase::Submitted);
}

#[test]
fn second_load_resets_selections_and_score() {
    let mut app = loaded(THREE_QUESTIONS);
    assert!(app.advance());
    assert!(app.select(0, Choice::B));
    assert!(app.select(1, Choice::C));
    app.submit_exam();
    assert_eq!(app.correct_answers(), Some(3));
    assert_eq!(app.load_exam(ONE_QUESTION), Ok(()));
    assert_eq!(app.phase(), Phase::InProgress);
    assert_eq!(app.current_exam().unwrap().name, "T");
    assert_eq!(app.current_question(), 0);
    assert_eq!(selections(&app), vec![Choice::A]);
    assert_eq!(app.correct_answers(), None);
}

#[test]
fn malformed_document_leaves_the_session_unchanged() {
    let mut app = loaded(THREE_QUESTIONS);
    assert!(app.advance());
    assert!(app.select(1, Choice::C));
    let missing_questions = r#"{"name": "Broken"}"#;
    assert_eq!(
        app.load_exam(missing_questions),
        Err(LoadError::Parse(ParseError::MissingField))
    );
    assert_eq!(app.error(), Some(LoadError::Parse(ParseError::MissingField)));
    assert_eq!(app.phase(), Phase::InProgress);
    assert_eq!(app.current_exam().unwrap().name, "Three");
    assert_eq!(app.current_question(), 1);
    assert_eq!(selections(&app), vec![Choice::A, Choice::C, Choice::A]);
    assert_eq!(app.correct_answers(), None);
}

#[test]
fn malformed_document_leaves_a_submitted_session_unchanged() {
    let mut app = loaded(ONE_QUESTION);
    assert!(app.select(0, Choice::B));
    app.submit_exam();
    assert_eq!(
        app.load_exam(r#"{"name": "T", "questions": [{}]}"#),
        Err(LoadError::Parse(ParseError::MissingField))
    );
    assert_eq!(app.load_exam("oops"), Err(LoadError::Parse(ParseError::Syntax)));
    assert_eq!(app.load_exam("[]"), Err(LoadError::Parse(ParseError::WrongType)));
    assert_eq!(app.error(), Some(LoadError::Parse(ParseError::WrongType)));
    assert_eq!(app.phase(), Phase::Submitted);
    assert_eq!(app.correct_answers(), Some(1));
    assert_eq!(app.selection(0), Some(Choice::B));
}

#[test]
fn malformed_document_leaves_an_empty_session_empty() {
    let mut app = ExamApp::new();
    assert_eq!(app.load_exam(""), Err(LoadError::Parse(ParseError::Syntax)));
    assert_eq!(app.phase(), Phase::Empty);
    assert!(app.current_exam().is_none());
    assert_eq!(app.error(), Some(LoadError::Parse(ParseError::Syntax)));
}

#[test]
fn exam_without_questions_is_refused() {
    let mut app = loaded(ONE_QUESTION);
    assert_eq!(app.load_exam(r#"{"name": "Empty", "questions": []}"#), Err(LoadError::NoQuestions));
    assert_eq!(app.error(), Some(LoadError::NoQuestions));
    assert_eq!(app.current_exam().unwrap().name, "T");
    assert_eq!(app.load(exam_of(0)), Err(LoadError::NoQuestions));
    assert_eq!(app.current_exam().unwrap().name, "T");
    let mut empty = ExamApp::new();
    assert_eq!(empty.load(exam_of(0)), Err(LoadError::NoQuestions));
    assert_eq!(empty.phase(), Phase::Empty);
    assert_eq!(empty.screen(), Screen::Welcome);
}

#[test]
fn successful_load_clears_the_error() {
    let mut app = ExamApp::new();
    assert!(app.load_exam("?").is_err());
    assert!(app.error().is_some());
    assert_eq!(app.load_exam(ONE_QUESTION), Ok(()));
    assert_eq!(app.error(), None);
}

#[test]
fn screen_follows_the_session() {
    let mut app = loaded(THREE_QUESTIONS);
    assert_eq!(
        app.screen(),
        Screen::Question {
            number: 1,
            total: 3,
            selected: Choice::A,
            can_go_back: false,
            can_go_forward: true,
            can_submit: false,
        }
    );
    app.advance();
    app.select(1, Choice::C);
    assert_eq!(
        app.screen(),
        Screen::Question {
            number: 2,
            total: 3,
            selected: Choice::C,
            can_go_back: true,
            can_go_forward: true,
            can_submit: false,
        }
    );
    app.advance();
    assert_eq!(
        app.screen(),
        Screen::Question {
            number: 3,
            total: 3,
            selected: Choice::A,
            can_go_back: true,
            can_go_forward: false,
            can_submit: true,
        }
    );
    app.submit_exam();
    assert_eq!(app.screen(), Screen::Results { correct: 2, total: 3 });
}

#[test]
fn screen_of_a_single_question_offers_only_submit() {
    let app = loaded(ONE_QUESTION);
    assert_eq!(
        app.screen(),
        Screen::Question {
            number: 1,
            total: 1,
            selected: Choice::A,
            can_go_back: false,
            can_go_forward: false,
            can_submit: true,
        }
    );
}

#[test]
fn events_drive_the_session() {
    let mut app = ExamApp::new();
    assert_eq!(app.handle(Event::LoadRequested), Action::PickFile);
    assert_eq!(app.phase(), Phase::Empty);
    assert_eq!(app.error(), None);
    assert_eq!(app.handle(Event::FileRead(THREE_QUESTIONS.to_string())), Action::Redraw);
    assert_eq!(app.phase(), Phase::InProgress);
    assert_eq!(app.handle(Event::Select(Choice::B)), Action::Redraw);
    assert_eq!(app.handle(Event::Next), Action::Redraw);
    assert_eq!(app.handle(Event::Select(Choice::C)), Action::Redraw);
    assert_eq!(app.handle(Event::Next), Action::Redraw);
    assert_eq!(app.handle(Event::Next), Action::Redraw);
    assert_eq!(app.current_question(), 2);
    assert_eq!(app.handle(Event::Previous), Action::Redraw);
    assert_eq!(app.current_question(), 1);
    assert_eq!(selections(&app), vec![Choice::B, Choice::C, Choice::A]);
    assert_eq!(app.handle(Event::Submit), Action::Redraw);
    assert_eq!(app.correct_answers(), Some(3));
    assert_eq!(app.handle(Event::Select(Choice::D)), Action::Redraw);
    assert_eq!(selections(&app), vec![Choice::B, Choice::C, Choice::A]);
    assert_eq!(app.handle(Event::LoadRequested), Action::PickFile);
    assert_eq!(app.handle(Event::FileRead(ONE_QUESTION.to_string())), Action::Redraw);
    assert_eq!(app.phase(), Phase::InProgress);
    assert_eq!(app.correct_answers(), None);
}

#[test]
fn failed_picks_and_reads_show_an_error() {
    let mut app = loaded(ONE_QUESTION);
    assert_eq!(app.handle(Event::PickCancelled), Action::Redraw);
    assert_eq!(app.error(), Some(LoadError::FileRead));
    assert_eq!(app.phase(), Phase::InProgress);
    assert_eq!(app.handle(Event::Next), Action::Redraw);
    assert_eq!(app.error(), Some(LoadError::FileRead));
    assert_eq!(app.handle(Event::FileRead(ONE_QUESTION.to_string())), Action::Redraw);
    assert_eq!(app.error(), None);
    assert_eq!(app.handle(Event::FileUnreadable), Action::Redraw);
    assert_eq!(app.error(), Some(LoadError::FileRead));
    assert_eq!(app.handle(Event::FileRead("{".to_string())), Action::Redraw);
    assert_eq!(app.error(), Some(LoadError::Parse(ParseError::Syntax)));
    assert_eq!(app.current_exam().unwrap().name, "T");
}

#[test]
fn errors_have_messages() {
    assert_eq!(LoadError::FileRead.message(), "Error opening exam file!");
    assert_eq!(ParseError::Syntax.message(), "The exam file is not a JSON document.");
    assert_eq!(ParseError::MissingField.message(), "The exam file lacks a required field.");
    assert_eq!(
        ParseError::WrongType.message(),
        "The exam file holds a value of the wrong type."
    );
    for error in [ParseError::Syntax, ParseError::MissingField, ParseError::WrongType] {
        assert_eq!(LoadError::Parse(error).message(), error.message());
    }
    assert_eq!(LoadError::NoQuestions.message(), "The exam has no questions.");
}
