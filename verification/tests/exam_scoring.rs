use exam_blaze::choice::Choice;
use exam_blaze::exam::{Exam, Question};

fn question(prompt: &str, choices: &[&str], answer: Option<&str>) -> Question {
    Question {
        prompt: prompt.to_string(),
        choices: choices.iter().map(|choice| choice.to_string()).collect(),
        answer: answer.map(|answer| answer.to_string()),
    }
}

fn three_questions() -> Exam {
    Exam {
        name: "Three".to_string(),
        questions: vec![
            question("first", &["a", "b"], Some("B")),
            question("second", &["a", "b", "c"], Some("C")),
            question("third", &["a"], Some("A")),
        ],
    }
}

#[test]
fn question_count_is_the_number_of_questions() {
    assert_eq!(three_questions().question_count(), 3);
    let none = Exam { name: "None".to_string(), questions: Vec::new() };
    assert_eq!(none.question_count(), 0);
}

#[test]
fn key_is_the_label_that_the_answer_names() {
    assert_eq!(question("q", &[], Some("B")).key(), Some(Choice::B));
    assert_eq!(question("q", &[], Some("H")).key(), Some(Choice::H));
}

#[test]
fn unrecognised_key_stands_for_a() {
    assert_eq!(question("q", &[], Some("Z")).key(), Some(Choice::A));
    assert_eq!(question("q", &[], Some("")).key(), Some(Choice::A));
    assert_eq!(question("q", &[], Some("b")).key(), Some(Choice::A));
    assert!(question("q", &[], Some("nonsense")).is_answered_by(Choice::A));
    assert!(!question("q", &[], Some("nonsense")).is_answered_by(Choice::B));
}

#[test]
fn question_without_key_is_never_answered() {
    let unkeyed = question("q", &["a", "b"], None);
    assert_eq!(unkeyed.key(), None);
    assert!(!unkeyed.is_answered_by(Choice::A));
    assert!(!unkeyed.is_answered_by(Choice::B));
}

#[test]
fn is_answered_by_compares_labels() {
    let keyed = question("q", &["a", "b"], Some("B"));
    assert!(keyed.is_answered_by(Choice::B));
    assert!(!keyed.is_answered_by(Choice::A));
    assert!(!keyed.is_answered_by(Choice::C));
}

#[test]
fn score_counts_matching_positions() {
    let exam = three_questions();
    assert_eq!(exam.score(&vec![Choice::B, Choice::C, Choice::A]), 3);
    assert_eq!(exam.score(&vec![Choice::B, Choice::A, Choice::A]), 2);
    assert_eq!(exam.score(&vec![Choice::A, Choice::C, Choice::B]), 1);
    assert_eq!(exam.score(&vec![Choice::A, Choice::A, Choice::B]), 0);
}

#[test]
fn score_ignores_what_has_no_counterpart() {
    let exam = three_questions();
    assert_eq!(exam.score(&Vec::new()), 0);
    assert_eq!(exam.score(&vec![Choice::B]), 1);
    assert_eq!(exam.score(&vec![Choice::B, Choice::C, Choice::A, Choice::A, Choice::A]), 3);
    let none = Exam { name: "None".to_string(), questions: Vec::new() };
    assert_eq!(none.score(&vec![Choice::A]), 0);
}

#[test]
fn score_skips_questions_without_key() {
    let exam = Exam {
        name: "Mixed".to_string(),
        questions: vec![question("keyed", &["a"], Some("A")), question("open", &["a"], None)],
    };
    assert_eq!(exam.score(&vec![Choice::A, Choice::A]), 1);
}
