//! What can go wrong while an exam is loaded.

use vstd::prelude::*;

verus! {

/// Why a document is not an exam.
#[derive(Clone, Copy, Debug, PartialEq, Eq, Structural)]
pub enum ParseError {
    /// The text is not a JSON document.
    Syntax,
    /// A required field is missing.
    MissingField,
    /// A value is not of the type that its place requires.
    WrongType,
}

/// Why an exam was not loaded.
#[derive(Clone, Copy, Debug, PartialEq, Eq, Structural)]
pub enum LoadError {
    /// The file could not be opened or read.
    FileRead,
    /// The file does not hold an exam document.
    Parse(ParseError),
    /// The exam has no question to show.
    NoQuestions,
}

impl ParseError {
    /// The message that tells the user of this error.
    pub open spec fn message_text(self) -> Seq<char> {
        match self {
            ParseError::Syntax => "The exam file is not a JSON document."@,
            ParseError::MissingField => "The exam file lacks a required field."@,
            ParseError::WrongType => "The exam file holds a value of the wrong type."@,
        }
    }

    /// The message that tells the user of this error.
    pub fn message(&self) -> (message: String)
        ensures
            message@ == self.message_text(),
    {
        match self {
            ParseError::Syntax => "The exam file is not a JSON document.".to_owned(),
            ParseError::MissingField => "The exam file lacks a required field.".to_owned(),
            ParseError::WrongType => "The exam file holds a value of the wrong type.".to_owned(),
        }
    }
}

impl LoadError {
    /// The message that tells the user of this error.
    pub open spec fn message_text(self) -> Seq<char> {
        match self {
            LoadError::FileRead => "Error opening exam file!"@,
            LoadError::Parse(error) => error.message_text(),
            LoadError::NoQuestions => "The exam has no questions."@,
        }
    }

    /// The message that tells the user of this error.
    pub fn message(&self) -> (message: String)
        ensures
            message@ == self.message_text(),
    {
        match self {
            LoadError::FileRead => "Error opening exam file!".to_owned(),
            LoadError::Parse(error) => error.message(),
            LoadError::NoQuestions => "The exam has no questions.".to_owned(),
        }
    }
}

} // verus!
