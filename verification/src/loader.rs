//! The exam document format: which JSON documents are exams, and which exam
//! each of them holds.
//!
//! An exam is a record with a text `name` and a list `questions`. A question
//! is a record with a text `prompt`, a list `choices` of texts, and, where the
//! exam is scored, a text `answer`. Other entries are ignored. Of several
//! faults in one document, the first in this order is reported: the fields
//! of a record in the order just given, the items of a list in their own.

use vstd::prelude::*;
use crate::error::ParseError;
use crate::exam::{
    optional_text_view, question_views, text_views, Exam, ExamView, Question, QuestionView,
};
use crate::json::{json_document, lemma_view_of_list, Json, JsonView};

verus! {

/// The results of a list, item by item: all the values where every item has
/// one, and otherwise the error of the first item that has none.
pub open spec fn collect<T>(results: Seq<Result<T, ParseError>>) -> Result<Seq<T>, ParseError>
    decreases results.len(),
{
    if results.len() == 0 {
        Ok(Seq::empty())
    } else {
        match collect(results.drop_last()) {
            Err(error) => Err(error),
            Ok(values) => match results.last() {
                Err(error) => Err(error),
                Ok(value) => Ok(values.push(value)),
            },
        }
    }
}

/// What `collect` comes to, said without recursion. It succeeds exactly
/// where every item does, and then holds the value of each item at the
/// item's position; where it fails, its error is that of an item before
/// which every item succeeds.
pub proof fn lemma_collect_is_all_or_first_error<T>(results: Seq<Result<T, ParseError>>)
    ensures
        collect(results) is Ok <==> forall|i: int|
            0 <= i < results.len() ==> (#[trigger] results[i]) is Ok,
        collect(results) matches Ok(values) ==> values.len() == results.len() && forall|i: int|
            0 <= i < results.len() ==> #[trigger] results[i] == Ok::<T, ParseError>(values[i]),
        collect(results) matches Err(error) ==> exists|i: int|
            0 <= i < results.len() && #[trigger] results[i] == Err::<T, ParseError>(error)
                && forall|j: int| 0 <= j < i ==> (#[trigger] results[j]) is Ok,
    decreases results.len(),
{
    if results.len() > 0 {
        let before = results.drop_last();
        lemma_collect_is_all_or_first_error(before);
        assert(forall|i: int| 0 <= i < before.len() ==> before[i] == results[i]);
        match collect(before) {
            Ok(values) => {
                match results.last() {
                    Ok(value) => {
                        assert forall|i: int| 0 <= i < results.len() implies (
                        #[trigger] results[i]) is Ok by {
                            if i < before.len() {
                                assert(before[i] is Ok);
                            }
                        }
                        assert forall|i: int| 0 <= i < results.len() implies #[trigger] results[i]
                            == Ok::<T, ParseError>(values.push(value)[i]) by {
                            if i < before.len() {
                                assert(before[i] == Ok::<T, ParseError>(values[i]));
                            }
                        }
                    },
                    Err(error) => {
                        let last = results.len() - 1;
                        assert(results[last] == Err::<T, ParseError>(error));
                        assert forall|j: int| 0 <= j < last implies (
                        #[trigger] results[j]) is Ok by {
                            assert(before[j] is Ok);
                        }
                    },
                }
            },
            Err(error) => {
                let i = choose|i: int|
                    0 <= i < before.len() && #[trigger] before[i] == Err::<T, ParseError>(error)
                        && forall|j: int| 0 <= j < i ==> (#[trigger] before[j]) is Ok;
                assert(results[i] == Err::<T, ParseError>(error));
                assert forall|j: int| 0 <= j < i implies (#[trigger] results[j]) is Ok by {
                    assert(before[j] is Ok);
                }
            },
        }
    }
}

/// An error among the first `n` results is the error of the whole list.
pub proof fn lemma_collect_keeps_first_error<T>(results: Seq<Result<T, ParseError>>, n: int)
    requires
        0 <= n <= results.len(),
        collect(results.take(n)) is Err,
    ensures
        collect(results) == collect(results.take(n)),
    decreases results.len() - n,
{
    if n == results.len() {
        assert(results.take(n) =~= results);
    } else {
        assert(results.take(n + 1).drop_last() =~= results.take(n));
        lemma_collect_keeps_first_error(results, n + 1);
    }
}

/// The text of a JSON string.
pub open spec fn text_of(value: JsonView) -> Result<Seq<char>, ParseError> {
    match value {
        JsonView::Text(text) => Ok(text),
        _ => Err(ParseError::WrongType),
    }
}

/// The results of reading each of `items` as a text.
pub open spec fn text_results(items: Seq<JsonView>) -> Seq<Result<Seq<char>, ParseError>> {
    items.map_values(|item: JsonView| text_of(item))
}

/// The texts of a JSON list of strings.
pub open spec fn texts_of(value: JsonView) -> Result<Seq<Seq<char>>, ParseError> {
    match value {
        JsonView::List(items) => collect(text_results(items)),
        _ => Err(ParseError::WrongType),
    }
}

/// The text under `key`, which has to be there.
pub open spec fn text_field(record: JsonView, key: Seq<char>) -> Result<Seq<char>, ParseError> {
    match record.member(key) {
        Some(value) => text_of(value),
        None => Err(ParseError::MissingField),
    }
}

/// The text under `key`, if there is one: a missing entry and `null` both
/// stand for none.
pub open spec fn optional_text_field(record: JsonView, key: Seq<char>) -> Result<
    Option<Seq<char>>,
    ParseError,
> {
    match record.member(key) {
        None | Some(JsonView::Null) => Ok(None),
        Some(JsonView::Text(text)) => Ok(Some(text)),
        Some(_) => Err(ParseError::WrongType),
    }
}

/// The texts of the list under `key`, which has to be there.
pub open spec fn texts_field(record: JsonView, key: Seq<char>) -> Result<
    Seq<Seq<char>>,
    ParseError,
> {
    match record.member(key) {
        Some(value) => texts_of(value),
        None => Err(ParseError::MissingField),
    }
}

/// The question that a JSON value holds.
pub open spec fn question_of(value: JsonView) -> Result<QuestionView, ParseError> {
    let prompt = text_field(value, "prompt"@);
    let choices = texts_field(value, "choices"@);
    let answer = optional_text_field(value, "answer"@);
    if !(value is Record) {
        Err(ParseError::WrongType)
    } else if prompt is Err {
        Err(prompt->Err_0)
    } else if choices is Err {
        Err(choices->Err_0)
    } else if answer is Err {
        Err(answer->Err_0)
    } else {
        Ok(QuestionView { prompt: prompt->Ok_0, choices: choices->Ok_0, answer: answer->Ok_0 })
    }
}

/// The results of reading each of `items` as a question.
pub open spec fn question_results(items: Seq<JsonView>) -> Seq<Result<QuestionView, ParseError>> {
    items.map_values(|item: JsonView| question_of(item))
}

/// The questions of a JSON list of questions.
pub open spec fn questions_of(value: JsonView) -> Result<Seq<QuestionView>, ParseError> {
    match value {
        JsonView::List(items) => collect(question_results(items)),
        _ => Err(ParseError::WrongType),
    }
}

/// The questions of the list under `key`, which has to be there.
pub open spec fn questions_field(record: JsonView, key: Seq<char>) -> Result<
    Seq<QuestionView>,
    ParseError,
> {
    match record.member(key) {
        Some(value) => questions_of(value),
        None => Err(ParseError::MissingField),
    }
}

/// The exam that a JSON document holds.
pub open spec fn exam_of(document: JsonView) -> Result<ExamView, ParseError> {
    let name = text_field(document, "name"@);
    let questions = questions_field(document, "questions"@);
    if !(document is Record) {
        Err(ParseError::WrongType)
    } else if name is Err {
        Err(name->Err_0)
    } else if questions is Err {
        Err(questions->Err_0)
    } else {
        Ok(ExamView { name: name->Ok_0, questions: questions->Ok_0 })
    }
}

/// The exam that a text holds: the exam of the JSON document that the text
/// is read as.
pub open spec fn exam_of_text(text: Seq<char>) -> Result<ExamView, ParseError> {
    match json_document(text) {
        Some(document) => exam_of(document),
        None => Err(ParseError::Syntax),
    }
}

/// A document without a `questions` entry holds no exam; where nothing else
/// is wrong with it, a field is reported missing.
pub proof fn lemma_questions_are_required(document: JsonView)
    requires
        document.member("questions"@) is None,
    ensures
        exam_of(document) is Err,
        document is Record && text_field(document, "name"@) is Ok ==> exam_of(document) == Err::<
            ExamView,
            ParseError,
        >(ParseError::MissingField),
{
}

/// A text that is not JSON holds no exam: it is a syntax error.
pub proof fn lemma_syntax_is_required(text: Seq<char>)
    requires
        json_document(text) is None,
    ensures
        exam_of_text(text) == Err::<ExamView, ParseError>(ParseError::Syntax),
{
}

fn read_text(value: &Json) -> (read: Result<String, ParseError>)
    ensures
        match read {
            Ok(text) => text_of(value@) == Ok::<Seq<char>, ParseError>(text@),
            Err(error) => text_of(value@) == Err::<Seq<char>, ParseError>(error),
        },
{
    match value {
        Json::Text(text) => Ok(text.clone()),
        _ => Err(ParseError::WrongType),
    }
}

fn read_texts(value: &Json) -> (read: Result<Vec<String>, ParseError>)
    ensures
        match read {
            Ok(texts) => texts_of(value@) == Ok::<Seq<Seq<char>>, ParseError>(text_views(texts@)),
            Err(error) => texts_of(value@) == Err::<Seq<Seq<char>>, ParseError>(error),
        },
{
    match value {
        Json::List(items) => {
            proof {
                lemma_view_of_list(*value);
            }
            let ghost results = text_results(value@->List_0);
            let mut texts: Vec<String> = Vec::new();
            let mut i: usize = 0;
            proof {
                assert(results.take(0) =~= Seq::empty());
                assert(text_views(texts@) =~= Seq::empty());
            }
            while i < items.len()
                invariant
                    i <= items.len(),
                    texts_of(value@) == collect(results),
                    results.len() == items@.len(),
                    forall|j: int| 0 <= j < results.len() ==> results[j] == text_of(items@[j]@),
                    collect(results.take(i as int)) == Ok::<Seq<Seq<char>>, ParseError>(
                        text_views(texts@),
                    ),
                decreases items.len() - i,
            {
                proof {
                    assert(results.take(i as int + 1).drop_last() =~= results.take(i as int));
                    assert(results.take(i as int + 1).last() == results[i as int]);
                }
                let ghost before = texts@;
                match read_text(&items[i]) {
                    Ok(text) => {
                        texts.push(text);
                        proof {
                            assert(text_views(texts@) =~= text_views(before).push(text@));
                        }
                    },
                    Err(error) => {
                        proof {
                            lemma_collect_keeps_first_error(results, i as int + 1);
                        }
                        return Err(error);
                    },
                }
                i = i + 1;
            }
            proof {
                assert(results.take(i as int) =~= results);
            }
            Ok(texts)
        },
        _ => Err(ParseError::WrongType),
    }
}

fn read_text_field(record: &Json, key: &str) -> (read: Result<String, ParseError>)
    ensures
        match read {
            Ok(text) => text_field(record@, key@) == Ok::<Seq<char>, ParseError>(text@),
            Err(error) => text_field(record@, key@) == Err::<Seq<char>, ParseError>(error),
        },
{
    match record.member(key) {
        Some(value) => read_text(value),
        None => Err(ParseError::MissingField),
    }
}

fn read_optional_text_field(record: &Json, key: &str) -> (read: Result<
    Option<String>,
    ParseError,
>)
    ensures
        match read {
            Ok(text) => optional_text_field(record@, key@) == Ok::<Option<Seq<char>>, ParseError>(
                optional_text_view(text),
            ),
            Err(error) => optional_text_field(record@, key@) == Err::<
                Option<Seq<char>>,
                ParseError,
            >(error),
        },
{
    match record.member(key) {
        None => Ok(None),
        Some(Json::Null) => Ok(None),
        Some(Json::Text(text)) => Ok(Some(text.clone())),
        Some(_) => Err(ParseError::WrongType),
    }
}

fn read_texts_field(record: &Json, key: &str) -> (read: Result<Vec<String>, ParseError>)
    ensures
        match read {
            Ok(texts) => texts_field(record@, key@) == Ok::<Seq<Seq<char>>, ParseError>(
                text_views(texts@),
            ),
            Err(error) => texts_field(record@, key@) == Err::<Seq<Seq<char>>, ParseError>(error),
        },
{
    match record.member(key) {
        Some(value) => read_texts(value),
        None => Err(ParseError::MissingField),
    }
}

impl Question {
    /// Reads a question out of a JSON value: the question that the value
    /// holds, or what is wrong with it.
    pub fn from_json(value: &Json) -> (read: Result<Question, ParseError>)
        ensures
            match read {
                Ok(question) => question_of(value@) == Ok::<QuestionView, ParseError>(question@),
                Err(error) => question_of(value@) == Err::<QuestionView, ParseError>(error),
            },
    {
        match value {
            Json::Record(_) => {
                let prompt = read_text_field(value, "prompt")?;
                let choices = read_texts_field(value, "choices")?;
                let answer = read_optional_text_field(value, "answer")?;
                Ok(Question { prompt, choices, answer })
            },
            _ => Err(ParseError::WrongType),
        }
    }
}

fn read_questions(value: &Json) -> (read: Result<Vec<Question>, ParseError>)
    ensures
        match read {
            Ok(questions) => questions_of(value@) == Ok::<Seq<QuestionView>, ParseError>(
                question_views(questions@),
            ),
            Err(error) => questions_of(value@) == Err::<Seq<QuestionView>, ParseError>(error),
        },
{
    match value {
        Json::List(items) => {
            proof {
                lemma_view_of_list(*value);
            }
            let ghost results = question_results(value@->List_0);
            let mut questions: Vec<Question> = Vec::new();
            let mut i: usize = 0;
            proof {
                assert(results.take(0) =~= Seq::empty());
                assert(question_views(questions@) =~= Seq::empty());
            }
            while i < items.len()
                invariant
                    i <= items.len(),
                    questions_of(value@) == collect(results),
                    results.len() == items@.len(),
                    forall|j: int| 0 <= j < results.len() ==> results[j] == question_of(items@[j]@),
                    collect(results.take(i as int)) == Ok::<Seq<QuestionView>, ParseError>(
                        question_views(questions@),
                    ),
                decreases items.len() - i,
            {
                proof {
                    assert(results.take(i as int + 1).drop_last() =~= results.take(i as int));
                    assert(results.take(i as int + 1).last() == results[i as int]);
                }
                let ghost before = questions@;
                match Question::from_json(&items[i]) {
                    Ok(question) => {
                        questions.push(question);
                        proof {
                            assert(question_views(questions@) =~= question_views(before).push(
                                question@,
                            ));
                        }
                    },
                    Err(error) => {
                        proof {
                            lemma_collect_keeps_first_error(results, i as int + 1);
                        }
                        return Err(error);
                    },
                }
                i = i + 1;
            }
            proof {
                assert(results.take(i as int) =~= results);
            }
            Ok(questions)
        },
        _ => Err(ParseError::WrongType),
    }
}

fn read_questions_field(record: &Json, key: &str) -> (read: Result<Vec<Question>, ParseError>)
    ensures
        match read {
            Ok(questions) => questions_field(record@, key@) == Ok::<Seq<QuestionView>, ParseError>(
                question_views(questions@),
            ),
            Err(error) => questions_field(record@, key@) == Err::<Seq<QuestionView>, ParseError>(
                error,
            ),
        },
{
    match record.member(key) {
        Some(value) => read_questions(value),
        None => Err(ParseError::MissingField),
    }
}

impl Exam {
    /// Reads an exam out of a JSON document: the exam that the document
    /// holds, or what is wrong with it.
    pub fn from_json(document: &Json) -> (read: Result<Exam, ParseError>)
        ensures
            match read {
                Ok(exam) => exam_of(document@) == Ok::<ExamView, ParseError>(exam@),
                Err(error) => exam_of(document@) == Err::<ExamView, ParseError>(error),
            },
    {
        match document {
            Json::Record(_) => {
                let name = read_text_field(document, "name")?;
                let questions = read_questions_field(document, "questions")?;
                Ok(Exam { name, questions })
            },
            _ => Err(ParseError::WrongType),
        }
    }

    /// Reads an exam out of the text of a JSON document: the exam that the
    /// text holds, or what is wrong with it.
    pub fn parse(text: &str) -> (read: Result<Exam, ParseError>)
        ensures
            match read {
                Ok(exam) => exam_of_text(text@) == Ok::<ExamView, ParseError>(exam@),
                Err(error) => exam_of_text(text@) == Err::<ExamView, ParseError>(error),
            },
    {
        let document = Json::parse(text)?;
        Exam::from_json(&document)
    }
}

} // verus!
