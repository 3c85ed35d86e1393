//! The exam model: a named, ordered list of questions, and how a list of
//! selections scores against the questions' answer keys.

use vstd::prelude::*;
use crate::choice::{label_of_text, label_or_default, Choice};

verus! {

/// One exam item: a prompt, the texts of its answer options in order, and
/// the answer key where the exam is scored.
#[derive(Clone, Debug)]
pub struct Question {
    /// What is asked.
    pub prompt: String,
    /// The text of each answer option; the option at position 0 has label
    /// `A`.
    pub choices: Vec<String>,
    /// The answer key: the text that names the correct label.
    pub answer: Option<String>,
}

/// A loaded quiz document.
#[derive(Clone, Debug)]
pub struct Exam {
    /// The title of the exam.
    pub name: String,
    /// The questions, in the order in which they are shown.
    pub questions: Vec<Question>,
}

/// The mathematical content of a [`Question`].
#[verifier::ext_equal]
pub struct QuestionView {
    pub prompt: Seq<char>,
    pub choices: Seq<Seq<char>>,
    pub answer: Option<Seq<char>>,
}

/// The mathematical content of an [`Exam`].
#[verifier::ext_equal]
pub struct ExamView {
    pub name: Seq<char>,
    pub questions: Seq<QuestionView>,
}

/// The contents of a list of texts.
pub open spec fn text_views(texts: Seq<String>) -> Seq<Seq<char>> {
    texts.map_values(|text: String| text@)
}

/// The contents of a text that may be missing.
pub open spec fn optional_text_view(text: Option<String>) -> Option<Seq<char>> {
    match text {
        Some(text) => Some(text@),
        None => None,
    }
}

/// The contents of a list of questions.
pub open spec fn question_views(questions: Seq<Question>) -> Seq<QuestionView> {
    questions.map_values(|question: Question| question@)
}

impl View for Question {
    type V = QuestionView;

    open spec fn view(&self) -> QuestionView {
        QuestionView {
            prompt: self.prompt@,
            choices: text_views(self.choices@),
            answer: optional_text_view(self.answer),
        }
    }
}

impl View for Exam {
    type V = ExamView;

    open spec fn view(&self) -> ExamView {
        ExamView { name: self.name@, questions: question_views(self.questions@) }
    }
}

impl QuestionView {
    /// The label that counts as correct: none where the question has no
    /// answer key; otherwise the label that the key names, and `A` where the
    /// key names none.
    pub open spec fn key(self) -> Option<Choice> {
        match self.answer {
            Some(answer) => Some(label_or_default(label_of_text(answer))),
            None => None,
        }
    }

    /// Whether `selection` is the correct label for this question.
    pub open spec fn is_answered_by(self, selection: Choice) -> bool {
        self.key() == Some(selection)
    }
}

/// Whether the question at `position` is answered correctly by the
/// selection at the same position.
pub open spec fn is_correct_at(
    questions: Seq<QuestionView>,
    selections: Seq<Choice>,
    position: int,
) -> bool {
    &&& 0 <= position < questions.len()
    &&& position < selections.len()
    &&& questions[position].is_answered_by(selections[position])
}

/// How many of the first `upto` questions are answered correctly.
pub open spec fn correct_among(
    questions: Seq<QuestionView>,
    selections: Seq<Choice>,
    upto: nat,
) -> nat
    decreases upto,
{
    if upto == 0 {
        0
    } else if is_correct_at(questions, selections, upto - 1) {
        correct_among(questions, selections, (upto - 1) as nat) + 1
    } else {
        correct_among(questions, selections, (upto - 1) as nat)
    }
}

/// The score: how many questions are answered correctly by the selection
/// at the same position.
pub open spec fn correct_count(questions: Seq<QuestionView>, selections: Seq<Choice>) -> nat {
    correct_among(questions, selections, questions.len())
}

/// The positions among the first `upto` that are answered correctly.
pub open spec fn correct_positions(
    questions: Seq<QuestionView>,
    selections: Seq<Choice>,
    upto: nat,
) -> Set<int> {
    Set::new(|i: int| 0 <= i < upto && is_correct_at(questions, selections, i))
}

/// What `correct_among` counts, said without recursion: the positions that
/// are answered correctly.
pub proof fn lemma_correct_among_counts_positions(
    questions: Seq<QuestionView>,
    selections: Seq<Choice>,
    upto: nat,
)
    ensures
        correct_positions(questions, selections, upto).finite(),
        correct_among(questions, selections, upto) == correct_positions(
            questions,
            selections,
            upto,
        ).len(),
    decreases upto,
{
    let positions = correct_positions(questions, selections, upto);
    if upto == 0 {
        assert(positions =~= Set::empty());
    } else {
        let before = correct_positions(questions, selections, (upto - 1) as nat);
        lemma_correct_among_counts_positions(questions, selections, (upto - 1) as nat);
        if is_correct_at(questions, selections, upto - 1) {
            assert(positions =~= before.insert(upto - 1));
        } else {
            assert(positions =~= before);
        }
    }
}

/// A score never exceeds the number of questions counted.
pub proof fn lemma_correct_among_bounded(
    questions: Seq<QuestionView>,
    selections: Seq<Choice>,
    upto: nat,
)
    ensures
        correct_among(questions, selections, upto) <= upto,
    decreases upto,
{
    if upto > 0 {
        lemma_correct_among_bounded(questions, selections, (upto - 1) as nat);
    }
}

/// Where every one of the first `upto` questions is answered correctly, all
/// `upto` are counted.
pub proof fn lemma_all_correct(questions: Seq<QuestionView>, selections: Seq<Choice>, upto: nat)
    requires
        forall|i: int| 0 <= i < upto ==> is_correct_at(questions, selections, i),
    ensures
        correct_among(questions, selections, upto) == upto,
    decreases upto,
{
    if upto > 0 {
        lemma_all_correct(questions, selections, (upto - 1) as nat);
    }
}

/// Where none of the first `upto` questions is answered correctly, nothing
/// is counted.
pub proof fn lemma_none_correct(questions: Seq<QuestionView>, selections: Seq<Choice>, upto: nat)
    requires
        forall|i: int| 0 <= i < upto ==> !is_correct_at(questions, selections, i),
    ensures
        correct_among(questions, selections, upto) == 0,
    decreases upto,
{
    if upto > 0 {
        lemma_none_correct(questions, selections, (upto - 1) as nat);
    }
}

impl Question {
    /// The label that counts as correct for this question, if it has an
    /// answer key.
    pub fn key(&self) -> (key: Option<Choice>)
        ensures
            key == self@.key(),
    {
        match &self.answer {
            Some(answer) => Some(Choice::from(answer.as_str())),
            None => None,
        }
    }

    /// Whether `selection` is the correct label for this question.
    pub fn is_answered_by(&self, selection: Choice) -> (correct: bool)
        ensures
            correct == self@.is_answered_by(selection),
    {
        match self.key() {
            Some(key) => key == selection,
            None => false,
        }
    }
}

impl Exam {
    /// The number of questions.
    pub fn question_count(&self) -> (count: usize)
        ensures
            count == self@.questions.len(),
    {
        self.questions.len()
    }

    /// The score of `selections`: how many questions are answered correctly
    /// by the selection at the same position.
    pub fn score(&self, selections: &Vec<Choice>) -> (score: usize)
        ensures
            score == correct_count(self@.questions, selections@),
            score <= self@.questions.len(),
    {
        let mut score: usize = 0;
        let mut i: usize = 0;
        while i < self.questions.len()
            invariant
                i <= self.questions.len(),
                score == correct_among(self@.questions, selections@, i as nat),
                score <= i,
            decreases self.questions.len() - i,
        {
            if i < selections.len() && self.questions[i].is_answered_by(selections[i]) {
                score = score + 1;
            }
            i = i + 1;
        }
        score
    }
}

} // verus!
