//! Parsed manifest and response documents.
//!
//! JSON and TOML text is parsed by `serde_json` and `toml`. What they hand
//! back is mirrored into [`Node`], a plain tree that the schema functions of
//! this crate read. The parsers themselves are not verified: this module
//! names what they return and says no more about it.

use vstd::prelude::*;

verus! {

/// A document as this crate reads it: the common shape of a JSON value and a
/// TOML value.
#[derive(Debug, PartialEq, Eq)]
pub enum Node {
    /// JSON `null`.
    Null,
    /// A boolean.
    Bool(bool),
    /// A number. The payload is the number itself where it is whole and fits
    /// an `i64`, and `None` for every other number.
    Number(Option<i64>),
    /// A string.
    Text(String),
    /// A TOML date or time, in its written form.
    Datetime(String),
    /// A JSON array or a TOML array.
    List(Vec<Node>),
    /// A JSON object or a TOML table: its keys with their values.
    Record(Vec<(String, Node)>),
}

/// `serde_json::Value`, which this crate only carries from the parser to
/// [`json_node`].
#[verifier::external_type_specification]
#[verifier::external_body]
pub struct ExJsonValue(serde_json::Value);

/// `toml::Value`, which this crate only carries from the parser to
/// [`toml_node`].
#[verifier::external_type_specification]
#[verifier::external_body]
pub struct ExTomlValue(toml::Value);

/// The document that `serde_json` reads out of `text`, or `None` where it
/// rejects the text.
pub uninterp spec fn json_document(text: Seq<char>) -> Option<Node>;

/// The tree that a `serde_json::Value` holds.
pub uninterp spec fn json_tree(value: serde_json::Value) -> Node;

/// The document that `toml` reads out of `text`, or `None` where it rejects
/// the text.
pub uninterp spec fn toml_document(text: Seq<char>) -> Option<Node>;

/// The tree that a `toml::Value` holds.
pub uninterp spec fn toml_tree(value: toml::Value) -> Node;

/// Calls `serde_json::from_str` at the type `serde_json::Value`.
///
/// Trusted: the parser is deterministic, so its verdict on a text and the
/// value it builds are named by [`json_document`]. Nothing is claimed about
/// which texts are accepted.
#[verifier::external_body]
fn json_value(text: &str) -> (value: Option<serde_json::Value>)
    ensures
        value is Some <==> json_document(text@) is Some,
        value matches Some(v) ==> json_document(text@) == Some(json_tree(v)),
{
    serde_json::from_str::<serde_json::Value>(text).ok()
}

/// Mirrors a `serde_json::Value` into a [`Node`], variant by variant.
///
/// Trusted: null, booleans, strings, arrays and objects are moved over as
/// they are. A number becomes what `serde_json::Number::as_i64` gives for it.
#[verifier::external_body]
fn json_node(value: serde_json::Value) -> (node: Node)
    ensures
        node == json_tree(value),
{
    match value {
        serde_json::Value::Null => Node::Null,
        serde_json::Value::Bool(flag) => Node::Bool(flag),
        serde_json::Value::Number(number) => Node::Number(number.as_i64()),
        serde_json::Value::String(text) => Node::Text(text),
        serde_json::Value::Array(items) => Node::List(items.into_iter().map(json_node).collect()),
        serde_json::Value::Object(fields) => {
            Node::Record(fields.into_iter().map(|(key, item)| (key, json_node(item))).collect())
        },
    }
}

/// Calls `toml::from_str` at the type `toml::Value`.
///
/// Trusted: the parser is deterministic, so its verdict on a text and the
/// value it builds are named by [`toml_document`]. Nothing is claimed about
/// which texts are accepted.
#[verifier::external_body]
fn toml_value(text: &str) -> (value: Option<toml::Value>)
    ensures
        value is Some <==> toml_document(text@) is Some,
        value matches Some(v) ==> toml_document(text@) == Some(toml_tree(v)),
{
    toml::from_str::<toml::Value>(text).ok()
}

/// Mirrors a `toml::Value` into a [`Node`], variant by variant.
///
/// Trusted: strings, booleans, arrays and tables are moved over as they are.
/// An integer is a whole number, a float is a number that is not, and a
/// datetime is kept in the form `toml` prints it in.
#[verifier::external_body]
fn toml_node(value: toml::Value) -> (node: Node)
    ensures
        node == toml_tree(value),
{
    match value {
        toml::Value::String(text) => Node::Text(text),
        toml::Value::Integer(whole) => Node::Number(Some(whole)),
        toml::Value::Float(_) => Node::Number(None),
        toml::Value::Boolean(flag) => Node::Bool(flag),
        toml::Value::Datetime(moment) => Node::Datetime(moment.to_string()),
        toml::Value::Array(items) => Node::List(items.into_iter().map(toml_node).collect()),
        toml::Value::Table(fields) => {
            Node::Record(fields.into_iter().map(|(key, item)| (key, toml_node(item))).collect())
        },
    }
}

/// Parses JSON text into a document.
pub fn parse_json(text: &str) -> (document: Option<Node>)
    ensures
        document == json_document(text@),
{
    match json_value(text) {
        Some(value) => Some(json_node(value)),
        None => None,
    }
}

/// Parses TOML text into a document.
pub fn parse_toml(text: &str) -> (document: Option<Node>)
    ensures
        document == toml_document(text@),
{
    match toml_value(text) {
        Some(value) => Some(toml_node(value)),
        None => None,
    }
}

/// The value filed under `key` in the entries of a record: that of the first
/// entry with this key, if there is one.
pub open spec fn lookup(fields: Seq<(String, Node)>, key: Seq<char>) -> Option<Node>
    decreases fields.len(),
{
    if fields.len() == 0 {
        None
    } else if fields[0].0@ == key {
        Some(fields[0].1)
    } else {
        lookup(fields.drop_first(), key)
    }
}

/// A field that must hold a string.
pub open spec fn text_of(field: Option<Node>) -> Option<Seq<char>> {
    match field {
        Some(Node::Text(text)) => Some(text@),
        _ => None,
    }
}

/// A field that may be missing or null, and otherwise must hold a string.
/// The outer `None` is a field of another kind.
pub open spec fn optional_text_of(field: Option<Node>) -> Option<Option<Seq<char>>> {
    match field {
        None => Some(None),
        Some(Node::Null) => Some(None),
        Some(Node::Text(text)) => Some(Some(text@)),
        _ => None,
    }
}

/// A field that must hold a whole number.
pub open spec fn whole_of(field: Option<Node>) -> Option<i64> {
    match field {
        Some(Node::Number(Some(whole))) => Some(whole),
        _ => None,
    }
}

/// A field that may be missing or null, and otherwise must hold a whole
/// number. The outer `None` is a field of another kind.
pub open spec fn optional_whole_of(field: Option<Node>) -> Option<Option<i64>> {
    match field {
        None => Some(None),
        Some(Node::Null) => Some(None),
        Some(Node::Number(Some(whole))) => Some(Some(whole)),
        _ => None,
    }
}

/// A field that must hold a boolean.
pub open spec fn flag_of(field: Option<Node>) -> Option<bool> {
    match field {
        Some(Node::Bool(flag)) => Some(flag),
        _ => None,
    }
}

/// Whether every item is a string.
pub open spec fn all_text(items: Seq<Node>) -> bool {
    forall|i: int| 0 <= i < items.len() ==> (#[trigger] items[i]) is Text
}

/// The strings that the items hold, in order.
pub open spec fn texts(items: Seq<Node>) -> Seq<Seq<char>>
    recommends
        all_text(items),
{
    Seq::new(items.len(), |i: int| items[i]->Text_0@)
}

/// A field that must hold a list of strings.
pub open spec fn texts_of(field: Option<Node>) -> Option<Seq<Seq<char>>> {
    match field {
        Some(Node::List(items)) => if all_text(items@) {
            Some(texts(items@))
        } else {
            None
        },
        _ => None,
    }
}

/// The field behind a borrowed lookup result.
pub open spec fn deref_field(field: Option<&Node>) -> Option<Node> {
    match field {
        Some(node) => Some(*node),
        None => None,
    }
}

/// Looks `key` up among the entries of a record.
pub fn find<'a>(fields: &'a Vec<(String, Node)>, key: &str) -> (found: Option<&'a Node>)
    ensures
        deref_field(found) == lookup(fields@, key@),
{
    let wanted = key.to_owned();
    let mut i: usize = 0;
    proof {
        assert(fields@.skip(0) =~= fields@);
    }
    while i < fields.len()
        invariant
            i <= fields.len(),
            wanted@ == key@,
            lookup(fields@, key@) == lookup(fields@.skip(i as int), key@),
        decreases fields.len() - i,
    {
        if fields[i].0 == wanted {
            return Some(&fields[i].1);
        }
        proof {
            assert(fields@.skip(i as int).drop_first() =~= fields@.skip(i + 1));
        }
        i += 1;
    }
    None
}

/// Reads a field that must hold a string.
pub fn read_text(field: Option<&Node>) -> (text: Option<String>)
    ensures
        text.deep_view() == text_of(deref_field(field)),
{
    match field {
        Some(Node::Text(text)) => Some(text.clone()),
        _ => None,
    }
}

/// Reads a field that may be missing or null, and otherwise must hold a
/// string.
pub fn read_optional_text(field: Option<&Node>) -> (text: Option<Option<String>>)
    ensures
        text.deep_view() == optional_text_of(deref_field(field)),
{
    match field {
        None => Some(None),
        Some(Node::Null) => Some(None),
        Some(Node::Text(text)) => Some(Some(text.clone())),
        _ => None,
    }
}

/// Reads a field that must hold a whole number.
pub fn read_whole(field: Option<&Node>) -> (whole: Option<i64>)
    ensures
        whole == whole_of(deref_field(field)),
{
    match field {
        Some(Node::Number(Some(whole))) => Some(*whole),
        _ => None,
    }
}

/// Reads a field that may be missing or null, and otherwise must hold a
/// whole number.
pub fn read_optional_whole(field: Option<&Node>) -> (whole: Option<Option<i64>>)
    ensures
        whole == optional_whole_of(deref_field(field)),
{
    match field {
        None => Some(None),
        Some(Node::Null) => Some(None),
        Some(Node::Number(Some(whole))) => Some(Some(*whole)),
        _ => None,
    }
}

/// Reads a field that must hold a boolean.
pub fn read_flag(field: Option<&Node>) -> (flag: Option<bool>)
    ensures
        flag == flag_of(deref_field(field)),
{
    match field {
        Some(Node::Bool(flag)) => Some(*flag),
        _ => None,
    }
}

/// Reads a field that must hold a list of strings.
#[verifier::loop_isolation(false)]
pub fn read_texts(field: Option<&Node>) -> (list: Option<Vec<String>>)
    ensures
        list.deep_view() == texts_of(deref_field(field)),
{
    match field {
        Some(Node::List(items)) => {
            let mut list: Vec<String> = Vec::new();
            let mut i: usize = 0;
            while i < items.len()
                invariant
                    i <= items.len(),
                    list.len() == i,
                    all_text(items@.take(i as int)),
                    forall|j: int| 0 <= j < i ==> (#[trigger] list[j])@ == items[j]->Text_0@,
                decreases items.len() - i,
            {
                match &items[i] {
                    Node::Text(text) => {
                        list.push(text.clone());
                    },
                    _ => {
                        proof {
                            assert(!(items@[i as int] is Text));
                        }
                        return None;
                    },
                }
                i += 1;
            }
            proof {
                assert(items@.take(i as int) =~= items@);
                assert(list.deep_view() =~= texts(items@));
            }
            Some(list)
        },
        _ => None,
    }
}

} // verus!
