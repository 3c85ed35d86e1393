//! JSON documents as trees of plain values, and the reading of a text into
//! such a tree.

use vstd::prelude::*;
use crate::error::ParseError;

verus! {

/// A JSON document. A number keeps no more than that it is one.
#[derive(Debug)]
pub enum Json {
    Null,
    Bool(bool),
    Number,
    Text(String),
    List(Vec<Json>),
    Record(Vec<(String, Json)>),
}

/// The mathematical content of a [`Json`] document.
#[verifier::ext_equal]
pub enum JsonView {
    Null,
    Bool(bool),
    Number,
    Text(Seq<char>),
    List(Seq<JsonView>),
    Record(Seq<(Seq<char>, JsonView)>),
}

impl View for Json {
    type V = JsonView;

    open spec fn view(&self) -> JsonView
        decreases self,
    {
        match self {
            Json::Null => JsonView::Null,
            Json::Bool(value) => JsonView::Bool(*value),
            Json::Number => JsonView::Number,
            Json::Text(text) => JsonView::Text(text@),
            Json::List(items) => JsonView::List(
                Seq::new(
                    items@.len(),
                    |i: int|
                        if 0 <= i < items@.len() {
                            items@[i]@
                        } else {
                            JsonView::Null
                        },
                ),
            ),
            Json::Record(entries) => JsonView::Record(
                Seq::new(
                    entries@.len(),
                    |i: int|
                        if 0 <= i < entries@.len() {
                            (entries@[i].0@, entries@[i].1@)
                        } else {
                            (Seq::empty(), JsonView::Null)
                        },
                ),
            ),
        }
    }
}

/// The view of a list holds the views of its items, in order.
pub proof fn lemma_view_of_list(document: Json)
    requires
        document is List,
    ensures
        document@ is List,
        document@->List_0.len() == document->List_0@.len(),
        forall|i: int|
            0 <= i < document->List_0@.len() ==> #[trigger] document@->List_0[i]
                == document->List_0@[i]@,
{
    reveal_with_fuel(<Json as View>::view, 2);
}

/// The view of a record holds the views of its entries, in order.
pub proof fn lemma_view_of_record(document: Json)
    requires
        document is Record,
    ensures
        document@ is Record,
        document@->Record_0.len() == document->Record_0@.len(),
        forall|i: int|
            0 <= i < document->Record_0@.len() ==> #[trigger] document@->Record_0[i] == (
                document->Record_0@[i].0@,
                document->Record_0@[i].1@,
            ),
{
    reveal_with_fuel(<Json as View>::view, 2);
}

/// The value of the first entry of `entries` whose key is `key`.
pub open spec fn member(entries: Seq<(Seq<char>, JsonView)>, key: Seq<char>) -> Option<JsonView>
    decreases entries.len(),
{
    if entries.len() == 0 {
        None
    } else if entries[0].0 == key {
        Some(entries[0].1)
    } else {
        member(entries.skip(1), key)
    }
}

/// What `member` finds, said without recursion: the value of an entry with
/// the key before which no entry has the key, and nothing exactly where no
/// entry has the key.
pub proof fn lemma_member_is_first_entry(entries: Seq<(Seq<char>, JsonView)>, key: Seq<char>)
    ensures
        member(entries, key) is None <==> forall|i: int|
            0 <= i < entries.len() ==> (#[trigger] entries[i]).0 != key,
        member(entries, key) matches Some(value) ==> exists|i: int|
            0 <= i < entries.len() && #[trigger] entries[i] == (key, value) && forall|j: int|
                0 <= j < i ==> (#[trigger] entries[j]).0 != key,
    decreases entries.len(),
{
    if entries.len() > 0 {
        let rest = entries.skip(1);
        lemma_member_is_first_entry(rest, key);
        assert(forall|i: int| 0 <= i < rest.len() ==> rest[i] == entries[i + 1]);
        if entries[0].0 == key {
            assert(entries[0] == (key, entries[0].1));
        } else {
            match member(rest, key) {
                Some(value) => {
                    let i = choose|i: int|
                        0 <= i < rest.len() && #[trigger] rest[i] == (key, value) && forall|j: int|
                            0 <= j < i ==> (#[trigger] rest[j]).0 != key;
                    assert(entries[i + 1] == (key, value));
                    assert forall|j: int| 0 <= j < i + 1 implies (#[trigger] entries[j]).0
                        != key by {
                        if j > 0 {
                            assert(rest[j - 1].0 != key);
                        }
                    }
                },
                None => {
                    assert forall|i: int| 0 <= i < entries.len() implies (#[trigger] entries[i]).0
                        != key by {
                        if i > 0 {
                            assert(rest[i - 1].0 != key);
                        }
                    }
                },
            }
        }
    }
}

impl JsonView {
    /// The value under `key`, where this document is a record that has such
    /// an entry.
    pub open spec fn member(self, key: Seq<char>) -> Option<JsonView> {
        match self {
            JsonView::Record(entries) => member(entries, key),
            _ => None,
        }
    }
}

/// What `serde_json::from_str` reads from a text, as a tree: the document,
/// or nothing where the text is not JSON.
pub uninterp spec fn json_document(text: Seq<char>) -> Option<JsonView>;

/// `serde_json::Value`, of which the verifier sees nothing.
#[verifier::external_type_specification]
#[verifier::external_body]
pub struct ExValue(serde_json::Value);

/// `serde_json::Error`, of which the verifier sees nothing.
#[verifier::external_type_specification]
#[verifier::external_body]
pub struct ExError(serde_json::Error);

/// Turns a `serde_json::Value` into a [`Json`] tree, variant by variant:
/// strings, list items and record entries are moved over as they are, in the
/// order in which the value holds them. Nothing is claimed of the result.
#[verifier::external_body]
fn json_of_value(value: serde_json::Value) -> Json {
    match value {
        serde_json::Value::Null => Json::Null,
        serde_json::Value::Bool(value) => Json::Bool(value),
        serde_json::Value::Number(_) => Json::Number,
        serde_json::Value::String(text) => Json::Text(text),
        serde_json::Value::Array(items) => Json::List(
            items.into_iter().map(json_of_value).collect(),
        ),
        serde_json::Value::Object(entries) => Json::Record(
            entries.into_iter().map(|(key, value)| (key, json_of_value(value))).collect(),
        ),
    }
}

/// Calls `serde_json::from_str` for a `serde_json::Value`. The contract
/// claims that the outcome depends on the text alone: a text is either
/// refused every time, or read as the same document every time.
#[verifier::external_body]
fn read_json(text: &str) -> (read: Result<Json, serde_json::Error>)
    ensures
        match read {
            Ok(document) => json_document(text@) == Some(document@),
            Err(_) => json_document(text@) is None,
        },
{
    match serde_json::from_str::<serde_json::Value>(text) {
        Ok(value) => Ok(json_of_value(value)),
        Err(error) => Err(error),
    }
}

impl Json {
    /// Reads `text` as a JSON document; a text that is not JSON is a syntax
    /// error.
    pub fn parse(text: &str) -> (parsed: Result<Json, ParseError>)
        ensures
            match parsed {
                Ok(document) => json_document(text@) == Some(document@),
                Err(error) => error == ParseError::Syntax && json_document(text@) is None,
            },
    {
        match read_json(text) {
            Ok(document) => Ok(document),
            Err(_) => Err(ParseError::Syntax),
        }
    }

    /// The value under `key`, where this document is a record that has such
    /// an entry.
    pub fn member(&self, key: &str) -> (found: Option<&Json>)
        ensures
            match found {
                Some(value) => self@.member(key@) == Some(value@),
                None => self@.member(key@) is None,
            },
    {
        match self {
            Json::Record(entries) => {
                let wanted = key.to_owned();
                let ghost all = self@->Record_0;
                proof {
                    lemma_view_of_record(*self);
                    assert(all.skip(0) =~= all);
                }
                let mut i: usize = 0;
                while i < entries.len()
                    invariant
                        i <= entries.len(),
                        wanted@ == key@,
                        self@ == JsonView::Record(all),
                        all.len() == entries@.len(),
                        forall|j: int|
                            0 <= j < all.len() ==> all[j] == (entries@[j].0@, entries@[j].1@),
                        member(all, key@) == member(all.skip(i as int), key@),
                    decreases entries.len() - i,
                {
                    proof {
                        assert(all.skip(i as int).skip(1) =~= all.skip(i as int + 1));
                        assert(all.skip(i as int)[0] == all[i as int]);
                    }
                    if entries[i].0 == wanted {
                        return Some(&entries[i].1);
                    }
                    i = i + 1;
                }
                None
            },
            _ => None,
        }
    }
}

} // verus!
