//! Choice labels: the fixed alphabet `A`..`H` that identifies an answer
//! option by its position.

use vstd::prelude::*;
use vstd::std_specs::convert::FromSpecImpl;
use vstd::string::StrSliceExecFns;

verus! {

/// The number of labels in the alphabet.
pub const LABEL_COUNT: usize = 8;

/// One of the eight labels that name an answer option.
#[derive(Clone, Copy, Debug, PartialEq, Eq, Structural)]
pub enum Choice {
    A,
    B,
    C,
    D,
    E,
    F,
    G,
    H,
}

/// The label at a position, if the position is one of `0..8`.
pub open spec fn label_at(position: int) -> Option<Choice> {
    if position == 0 {
        Some(Choice::A)
    } else if position == 1 {
        Some(Choice::B)
    } else if position == 2 {
        Some(Choice::C)
    } else if position == 3 {
        Some(Choice::D)
    } else if position == 4 {
        Some(Choice::E)
    } else if position == 5 {
        Some(Choice::F)
    } else if position == 6 {
        Some(Choice::G)
    } else if position == 7 {
        Some(Choice::H)
    } else {
        None
    }
}

/// The label that a letter names: the letter at position `p` of `A`..`H`
/// names the label at position `p`, and no other character names one.
pub open spec fn label_of_letter(letter: char) -> Option<Choice> {
    label_at(letter as int - 'A' as int)
}

/// The label that a text names: a text of exactly one letter out of
/// `A`..`H`.
pub open spec fn label_of_text(text: Seq<char>) -> Option<Choice> {
    if text.len() == 1 {
        label_of_letter(text[0])
    } else {
        None
    }
}

/// What a missing or unrecognised label stands for.
pub open spec fn label_or_default(label: Option<Choice>) -> Choice {
    match label {
        Some(choice) => choice,
        None => Choice::A,
    }
}

impl Choice {
    /// The position of this label in the alphabet.
    pub open spec fn position(self) -> nat {
        match self {
            Choice::A => 0,
            Choice::B => 1,
            Choice::C => 2,
            Choice::D => 3,
            Choice::E => 4,
            Choice::F => 5,
            Choice::G => 6,
            Choice::H => 7,
        }
    }

    /// The position of this label in the alphabet, from 0 for `A` to 7 for
    /// `H`.
    pub fn index(self) -> (position: usize)
        ensures
            position == self.position(),
            position < LABEL_COUNT,
    {
        match self {
            Choice::A => 0,
            Choice::B => 1,
            Choice::C => 2,
            Choice::D => 3,
            Choice::E => 4,
            Choice::F => 5,
            Choice::G => 6,
            Choice::H => 7,
        }
    }

    /// The letter that names this label.
    pub fn letter(self) -> (letter: char)
        ensures
            label_of_letter(letter) == Some(self),
    {
        match self {
            Choice::A => 'A',
            Choice::B => 'B',
            Choice::C => 'C',
            Choice::D => 'D',
            Choice::E => 'E',
            Choice::F => 'F',
            Choice::G => 'G',
            Choice::H => 'H',
        }
    }

    /// The label at `position`, or `None` beyond the eighth.
    pub fn from_index(position: usize) -> (label: Option<Choice>)
        ensures
            label == label_at(position as int),
            label is Some <==> position < LABEL_COUNT,
    {
        match position {
            0 => Some(Choice::A),
            1 => Some(Choice::B),
            2 => Some(Choice::C),
            3 => Some(Choice::D),
            4 => Some(Choice::E),
            5 => Some(Choice::F),
            6 => Some(Choice::G),
            7 => Some(Choice::H),
            _ => None,
        }
    }

    /// The label that `letter` names, or `None` for any other character.
    pub fn from_letter(letter: char) -> (label: Option<Choice>)
        ensures
            label == label_of_letter(letter),
    {
        match letter {
            'A' => Some(Choice::A),
            'B' => Some(Choice::B),
            'C' => Some(Choice::C),
            'D' => Some(Choice::D),
            'E' => Some(Choice::E),
            'F' => Some(Choice::F),
            'G' => Some(Choice::G),
            'H' => Some(Choice::H),
            _ => None,
        }
    }

    /// The label that `text` names, or `None` when `text` is not one of the
    /// one-letter texts `A`..`H`.
    pub fn from_label(text: &str) -> (label: Option<Choice>)
        ensures
            label == label_of_text(text@),
    {
        if text.unicode_len() == 1 {
            Choice::from_letter(text.get_char(0))
        } else {
            None
        }
    }
}

impl Default for Choice {
    /// The first label, which every question starts out with.
    fn default() -> (choice: Choice)
        ensures
            choice == Choice::A,
    {
        Choice::A
    }
}

impl<'a> From<&'a str> for Choice {
    /// The label that `value` names; a text that names none stands for `A`.
    fn from(value: &'a str) -> (choice: Choice) {
        match Choice::from_label(value) {
            Some(choice) => choice,
            None => Choice::A,
        }
    }
}

impl<'a> FromSpecImpl<&'a str> for Choice {
    open spec fn obeys_from_spec() -> bool {
        true
    }

    open spec fn from_spec(value: &'a str) -> Choice {
        label_or_default(label_of_text(value@))
    }
}

impl From<usize> for Choice {
    /// The label at position `value`; a position beyond the eighth stands
    /// for `A`.
    fn from(value: usize) -> (choice: Choice) {
        match Choice::from_index(value) {
            Some(choice) => choice,
            None => Choice::A,
        }
    }
}

impl FromSpecImpl<usize> for Choice {
    open spec fn obeys_from_spec() -> bool {
        true
    }

    open spec fn from_spec(value: usize) -> Choice {
        label_or_default(label_at(value as int))
    }
}

/// Position and label determine each other: the label at the position of a
/// label is that label, and a position that has a label is that label's
/// position.
pub proof fn lemma_position_round_trip(choice: Choice, position: int)
    ensures
        label_at(choice.position() as int) == Some(choice),
        label_at(position) == Some(choice) ==> position == choice.position(),
{
}

} // verus!
