//! JSON documents as the library reads and writes them.
//!
//! Reading and escaping are left to `serde_json`; what the library does with
//! a document once it is read, and how it frames the text it writes, is
//! decided here.

use crate::error::{viewed, Error, ErrorView};
use crate::text::{join_separated, same_text, separated, texts};
use vstd::prelude::*;

verus! {

/// A JSON document in plain values. A number is kept as the text that
/// renders it. An object that was read from text has each key once, and its
/// members in the order of their keys.
#[derive(Debug, PartialEq, Eq)]
pub enum JsonValue {
    Null,
    Bool(bool),
    Number(String),
    Text(String),
    List(Vec<JsonValue>),
    Object(Vec<(String, JsonValue)>),
}

/// What a [`JsonValue`] holds, as sequences.
pub enum JsonTree {
    Null,
    Bool(bool),
    Number(Seq<char>),
    Text(Seq<char>),
    List(Seq<JsonTree>),
    Object(Seq<(Seq<char>, JsonTree)>),
}

/// The views of a run of documents, in their order.
pub open spec fn forest(items: Seq<JsonValue>) -> Seq<JsonTree>
    decreases items,
{
    if items.len() == 0 {
        Seq::empty()
    } else {
        forest(items.drop_last()).push(tree(items.last()))
    }
}

/// The views of the members of an object, in their order.
pub open spec fn member_trees(members: Seq<(String, JsonValue)>) -> Seq<(Seq<char>, JsonTree)>
    decreases members,
{
    if members.len() == 0 {
        Seq::empty()
    } else {
        member_trees(members.drop_last()).push((members.last().0@, tree(members.last().1)))
    }
}

/// The view of a document.
pub open spec fn tree(value: JsonValue) -> JsonTree
    decreases value,
{
    match value {
        JsonValue::Null => JsonTree::Null,
        JsonValue::Bool(b) => JsonTree::Bool(b),
        JsonValue::Number(n) => JsonTree::Number(n@),
        JsonValue::Text(t) => JsonTree::Text(t@),
        JsonValue::List(items) => JsonTree::List(forest(items@)),
        JsonValue::Object(members) => JsonTree::Object(member_trees(members@)),
    }
}

impl View for JsonValue {
    type V = JsonTree;

    open spec fn view(&self) -> JsonTree {
        tree(*self)
    }
}

/// The view of an object holds the views of its members, one for one.
pub proof fn lemma_member_trees(members: Seq<(String, JsonValue)>)
    ensures
        member_trees(members).len() == members.len(),
        forall|i: int|
            0 <= i < members.len() ==> member_trees(members)[i] == (members[i].0@, members[i].1@),
    decreases members.len(),
{
    if members.len() > 0 {
        lemma_member_trees(members.drop_last());
    }
}

/// The value of the first member with the given key, from `from` on.
pub open spec fn member_from(members: Seq<(Seq<char>, JsonTree)>, key: Seq<char>, from: int) -> Option<
    JsonTree,
>
    decreases members.len() - from,
{
    if from < 0 || from >= members.len() {
        None
    } else if members[from].0 == key {
        Some(members[from].1)
    } else {
        member_from(members, key, from + 1)
    }
}

impl JsonTree {
    /// The value under `key`, where the document is an object that has one.
    pub open spec fn member(self, key: Seq<char>) -> Option<JsonTree> {
        match self {
            JsonTree::Object(members) => member_from(members, key, 0),
            _ => None,
        }
    }

    /// The text, where the document is a string.
    pub open spec fn text(self) -> Option<Seq<char>> {
        match self {
            JsonTree::Text(t) => Some(t),
            _ => None,
        }
    }
}

impl JsonValue {
    /// The value under `key`, where the document is an object that has one.
    pub fn member(&self, key: &str) -> (found: Option<&JsonValue>)
        ensures
            match found {
                Some(value) => self@.member(key@) == Some(value@),
                None => self@.member(key@) is None,
            },
    {
        match self {
            JsonValue::Object(members) => {
                let ghost all = member_trees(members@);
                proof {
                    lemma_member_trees(members@);
                }
                let mut at: usize = 0;
                while at < members.len()
                    invariant
                        at <= members.len(),
                        self@ == JsonTree::Object(all),
                        all.len() == members@.len(),
                        member_from(all, key@, 0) == member_from(all, key@, at as int),
                        forall|i: int|
                            0 <= i < all.len() ==> all[i] == (members@[i].0@, members@[i].1@),
                    decreases members.len() - at,
                {
                    if same_text(members[at].0.as_str(), key) {
                        return Some(&members[at].1);
                    }
                    at += 1;
                }
                None
            },
            _ => None,
        }
    }

    /// The text, where the document is a string.
    pub fn as_text(&self) -> (text: Option<&str>)
        ensures
            match text {
                Some(t) => self@.text() == Some(t@),
                None => self@.text() is None,
            },
    {
        match self {
            JsonValue::Text(t) => Some(t.as_str()),
            _ => None,
        }
    }
}

/// `serde_json::Value`, which the parser hands out. The library sees nothing
/// inside it: a value goes straight into a [`JsonValue`].
#[verifier::external_type_specification]
#[verifier::external_body]
pub struct ExSerdeJsonValue(serde_json::Value);

/// What `serde_json::from_str` makes of a text: the document, or the message
/// of the error that it reports.
pub uninterp spec fn json_document(text: Seq<char>) -> Result<JsonTree, Seq<char>>;

/// A number below sixteen as a hexadecimal digit, in lower case.
pub open spec fn hex_digit(value: nat) -> char {
    if value == 0 {
        '0'
    } else if value == 1 {
        '1'
    } else if value == 2 {
        '2'
    } else if value == 3 {
        '3'
    } else if value == 4 {
        '4'
    } else if value == 5 {
        '5'
    } else if value == 6 {
        '6'
    } else if value == 7 {
        '7'
    } else if value == 8 {
        '8'
    } else if value == 9 {
        '9'
    } else if value == 10 {
        'a'
    } else if value == 11 {
        'b'
    } else if value == 12 {
        'c'
    } else if value == 13 {
        'd'
    } else if value == 14 {
        'e'
    } else {
        'f'
    }
}

/// A character as it stands inside a JSON string literal. The double quote
/// and the backslash get a backslash in front; the characters below U+0020
/// are written `\b`, `\t`, `\n`, `\f` and `\r` where JSON has such a
/// short form and `\u00` with two hexadecimal digits where it has none;
/// every other character stands for itself.
pub open spec fn json_escaped(c: char) -> Seq<char> {
    let code = c as u32;
    if code == 0x22 {
        seq!['\\', '"']
    } else if code == 0x5C {
        seq!['\\', '\\']
    } else if code == 0x08 {
        seq!['\\', 'b']
    } else if code == 0x09 {
        seq!['\\', 't']
    } else if code == 0x0A {
        seq!['\\', 'n']
    } else if code == 0x0C {
        seq!['\\', 'f']
    } else if code == 0x0D {
        seq!['\\', 'r']
    } else if code < 0x20 {
        seq!['\\', 'u', '0', '0', hex_digit((code / 16) as nat), hex_digit((code % 16) as nat)]
    } else {
        seq![c]
    }
}

/// The characters of a text, each as it stands inside a JSON string
/// literal.
pub open spec fn json_escaped_text(text: Seq<char>) -> Seq<char>
    decreases text.len(),
{
    if text.len() == 0 {
        Seq::empty()
    } else {
        json_escaped_text(text.drop_last()) + json_escaped(text.last())
    }
}

/// The JSON string literal of a text: the text between double quotes,
/// escaped. This is what `serde_json::to_string` writes for a text.
pub open spec fn json_quoted(text: Seq<char>) -> Seq<char> {
    seq!['"'] + json_escaped_text(text) + seq!['"']
}

/// Moves a `serde_json::Value` into a [`JsonValue`], variant by variant and
/// member by member, in the order in which `serde_json` hands the members
/// out; a number becomes the text that `serde_json::Number` displays for it.
/// This changes the type of the value and decides nothing. Nothing is claimed
/// of the result here: [`parse_json`] names it.
#[verifier::external_body]
fn tree_of(value: serde_json::Value) -> JsonValue {
    match value {
        serde_json::Value::Null => JsonValue::Null,
        serde_json::Value::Bool(b) => JsonValue::Bool(b),
        serde_json::Value::Number(n) => JsonValue::Number(n.to_string()),
        serde_json::Value::String(s) => JsonValue::Text(s),
        serde_json::Value::Array(items) => JsonValue::List(items.into_iter().map(tree_of).collect()),
        serde_json::Value::Object(members) => JsonValue::Object(
            members.into_iter().map(|(k, v)| (k, tree_of(v))).collect(),
        ),
    }
}

/// Calls `serde_json::from_str` for a `serde_json::Value`. The contract
/// claims only that the outcome is a function of the text: the document that
/// comes back, or the message of the error, is the one that
/// [`json_document`] names for it.
#[verifier::external_body]
pub(crate) fn parse_json(text: &str) -> (parsed: Result<JsonValue, String>)
    ensures
        match parsed {
            Ok(document) => json_document(text@) == Ok::<JsonTree, Seq<char>>(document@),
            Err(message) => json_document(text@) == Err::<JsonTree, Seq<char>>(message@),
        },
{
    match serde_json::from_str::<serde_json::Value>(text) {
        Ok(value) => Ok(tree_of(value)),
        Err(error) => Err(error.to_string()),
    }
}

/// The document that a text writes, or a `JsonParsingError` with the
/// parser's message.
pub open spec fn document_of(text: Seq<char>) -> Result<JsonTree, ErrorView> {
    match json_document(text) {
        Ok(document) => Ok(document),
        Err(message) => Err(ErrorView::JsonParsingError(message)),
    }
}

impl JsonValue {
    /// Reads a JSON text.
    pub fn parse(text: &str) -> (result: Result<JsonValue, Error>)
        ensures
            viewed(result) == document_of(text@),
    {
        match parse_json(text) {
            Ok(document) => Ok(document),
            Err(message) => Err(Error::JsonParsingError(message)),
        }
    }
}

/// Calls `serde_json::to_string` on a text. The contract claims that a
/// literal comes back and that it is the literal that [`json_quoted`]
/// states: `serde_json` writes a double quote, then the text byte by byte
/// with the escapes of its table for the double quote, the backslash and the
/// bytes below 0x20, then a double quote. It documents two ways for
/// serialization to fail, a `Serialize` impl that fails and a map whose keys
/// are no strings, and a text is neither; it writes into a vector in memory,
/// which takes every write. An error, should one come all the same, is
/// handed on as its message.
#[verifier::external_body]
pub(crate) fn quote_json(text: &str) -> (quoted: Result<String, String>)
    ensures
        quoted is Ok,
        quoted matches Ok(literal) ==> literal@ == json_quoted(text@),
{
    match serde_json::to_string(text) {
        Ok(literal) => Ok(literal),
        Err(error) => Err(error.to_string()),
    }
}

/// A JSON array of the given items, each already rendered.
pub open spec fn json_array(items: Seq<Seq<char>>) -> Seq<char> {
    "["@ + separated(items, ","@) + "]"@
}

/// A member of a JSON object: the key between double quotes, as it is, a
/// colon, the rendered value.
pub open spec fn json_member(key: Seq<char>, value: Seq<char>) -> Seq<char> {
    "\""@ + key + "\":"@ + value
}

/// The members of an object, each rendered.
pub open spec fn rendered_members(members: Seq<(Seq<char>, Seq<char>)>) -> Seq<Seq<char>> {
    members.map_values(|member: (Seq<char>, Seq<char>)| json_member(member.0, member.1))
}

/// A JSON object of the given members, in their order.
pub open spec fn json_object(members: Seq<(Seq<char>, Seq<char>)>) -> Seq<char> {
    "{"@ + separated(rendered_members(members), ","@) + "}"@
}

/// A flag as JSON.
pub open spec fn json_bool(flag: bool) -> Seq<char> {
    if flag {
        "true"@
    } else {
        "false"@
    }
}

/// Renders a JSON array of items that are already rendered.
pub fn render_array(items: &Vec<String>) -> (array: String)
    ensures
        array@ == json_array(texts(items@)),
{
    let mut array = "[".to_owned();
    let inner = join_separated(items, ",");
    array.append(inner.as_str());
    array.append("]");
    array
}

/// Renders a member of a JSON object from its key and its rendered value.
pub fn render_member(key: &str, value: &str) -> (member: String)
    ensures
        member@ == json_member(key@, value@),
{
    let mut member = "\"".to_owned();
    member.append(key);
    member.append("\":");
    member.append(value);
    member
}

/// Renders a flag.
pub fn render_bool(flag: bool) -> (text: &'static str)
    ensures
        text@ == json_bool(flag),
{
    if flag {
        "true"
    } else {
        "false"
    }
}

} // verus!
