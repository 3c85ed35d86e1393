use exam_blaze::choice::{Choice, LABEL_COUNT};

const ALL: [Choice; 8] = [
    Choice::A,
    Choice::B,
    Choice::C,
    Choice::D,
    Choice::E,
    Choice::F,
    Choice::G,
    Choice::H,
];

#[test]
fn alphabet_has_eight_labels() {
    assert_eq!(LABEL_COUNT, 8);
    assert_eq!(ALL.len(), LABEL_COUNT);
}

#[test]
fn default_label_is_a() {
    assert_eq!(Choice::default(), Choice::A);
}

#[test]
fn label_from_text_names_each_label() {
    assert_eq!(Choice::from("A"), Choice::A);
    assert_eq!(Choice::from("B"), Choice::B);
    assert_eq!(Choice::from("C"), Choice::C);
    assert_eq!(Choice::from("D"), Choice::D);
    assert_eq!(Choice::from("E"), Choice::E);
    assert_eq!(Choice::from("F"), Choice::F);
    assert_eq!(Choice::from("G"), Choice::G);
    assert_eq!(Choice::from("H"), Choice::H);
}

#[test]
fn label_from_text_defaults_to_a() {
    assert_eq!(Choice::from("Z"), Choice::A);
    assert_eq!(Choice::from("I"), Choice::A);
    assert_eq!(Choice::from(""), Choice::A);
    assert_eq!(Choice::from("AB"), Choice::A);
    assert_eq!(Choice::from("b"), Choice::A);
    assert_eq!(Choice::from(" B"), Choice::A);
    assert_eq!(Choice::from("\u{c9}"), Choice::A);
}

#[test]
fn label_from_position_names_each_label() {
    for (position, label) in ALL.iter().enumerate() {
        assert_eq!(Choice::from(position), *label);
    }
}

#[test]
fn label_from_position_defaults_to_a() {
    assert_eq!(Choice::from(8usize), Choice::A);
    assert_eq!(Choice::from(100usize), Choice::A);
    assert_eq!(Choice::from(usize::MAX), Choice::A);
}

#[test]
fn from_index_is_fallible() {
    assert_eq!(Choice::from_index(0), Some(Choice::A));
    assert_eq!(Choice::from_index(3), Some(Choice::D));
    assert_eq!(Choice::from_index(7), Some(Choice::H));
    assert_eq!(Choice::from_index(8), None);
    assert_eq!(Choice::from_index(usize::MAX), None);
}

#[test]
fn from_letter_is_fallible() {
    assert_eq!(Choice::from_letter('A'), Some(Choice::A));
    assert_eq!(Choice::from_letter('H'), Some(Choice::H));
    assert_eq!(Choice::from_letter('I'), None);
    assert_eq!(Choice::from_letter('@'), None);
    assert_eq!(Choice::from_letter('a'), None);
}

#[test]
fn from_label_is_fallible() {
    assert_eq!(Choice::from_label("C"), Some(Choice::C));
    assert_eq!(Choice::from_label("H"), Some(Choice::H));
    assert_eq!(Choice::from_label(""), None);
    assert_eq!(Choice::from_label("CC"), None);
    assert_eq!(Choice::from_label("c"), None);
    assert_eq!(Choice::from_label("9"), None);
}

#[test]
fn position_and_letter_round_trip() {
    for (position, label) in ALL.iter().enumerate() {
        assert_eq!(label.index(), position);
        assert_eq!(Choice::from_index(label.index()), Some(*label));
        assert_eq!(Choice::from_letter(label.letter()), Some(*label));
        assert_eq!(Choice::from_label(&label.letter().to_string()), Some(*label));
    }
    assert_eq!(Choice::A.letter(), 'A');
    assert_eq!(Choice::E.letter(), 'E');
    assert_eq!(Choice::H.letter(), 'H');
}
