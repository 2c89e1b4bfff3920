//! JSON documents as this library reads them.
//!
//! Parsing and printing are done by `serde_json`. A parsed document is handed
//! on as a [`JsonDoc`]: its compact text and its top level, where the children
//! of an array or an object are again compact JSON texts that can be opened in
//! turn with [`read_json`]. Numbers are kept as the text `serde_json` prints.

use vstd::prelude::*;
use serde_json::Value;
use crate::text::{chars_eq, str_chars, strings_view};

verus! {

/// The top level of a JSON document.
#[derive(Debug, Clone, PartialEq, Eq)]
pub enum JsonNode {
    Null,
    Bool(bool),
    /// A number, as its printed text.
    Number(String),
    Text(String),
    /// The elements, each as compact JSON text.
    Array(Vec<String>),
    /// The members in iteration order: key and value, the value as compact JSON text.
    Object(Vec<(String, String)>),
}

/// A parsed JSON document: its compact text and its top level.
#[derive(Debug, Clone, PartialEq, Eq)]
pub struct JsonDoc {
    pub compact: String,
    pub node: JsonNode,
}

/// The top level of a document as the contracts see it.
pub enum JsonNodeView {
    Null,
    Bool(bool),
    Number(Seq<char>),
    Text(Seq<char>),
    Array(Seq<Seq<char>>),
    Object(Seq<(Seq<char>, Seq<char>)>),
}

/// A document as the contracts see it.
pub struct JsonDocView {
    pub compact: Seq<char>,
    pub node: JsonNodeView,
}

impl View for JsonNode {
    type V = JsonNodeView;

    open spec fn view(&self) -> JsonNodeView {
        match self {
            JsonNode::Null => JsonNodeView::Null,
            JsonNode::Bool(b) => JsonNodeView::Bool(*b),
            JsonNode::Number(n) => JsonNodeView::Number(n@),
            JsonNode::Text(s) => JsonNodeView::Text(s@),
            JsonNode::Array(items) => JsonNodeView::Array(
                Seq::new(items@.len(), |i: int| items@[i]@),
            ),
            JsonNode::Object(members) => JsonNodeView::Object(
                Seq::new(members@.len(), |i: int| (members@[i].0@, members@[i].1@)),
            ),
        }
    }
}

impl View for JsonDoc {
    type V = JsonDocView;

    open spec fn view(&self) -> JsonDocView {
        JsonDocView { compact: self.compact@, node: self.node@ }
    }
}

/// What `serde_json` makes of `text`: the document when it parses as one JSON
/// value, else the text of the parse error.
pub uninterp spec fn json_document(text: Seq<char>) -> Result<JsonDocView, Seq<char>>;

/// What `serde_json` makes of `bytes`: `None` when they parse as one JSON value,
/// else the text of the parse error.
pub uninterp spec fn json_bytes_error(bytes: Seq<u8>) -> Option<Seq<char>>;

/// The JSON array text that `serde_json` prints for a list of strings.
pub uninterp spec fn json_text_of_strings(items: Seq<Seq<char>>) -> Option<Seq<char>>;

/// Whether the result `r` of reading `text` is what `serde_json` makes of `text`.
pub open spec fn is_reading_of(r: Result<JsonDoc, String>, text: Seq<char>) -> bool {
    match r {
        Ok(doc) => json_document(text) == Ok::<JsonDocView, Seq<char>>(doc@),
        Err(e) => json_document(text) == Err::<JsonDocView, Seq<char>>(e@),
    }
}

/// Calls `serde_json::from_str` for a `serde_json::Value`. On success the result
/// holds the value's compact text (its `Display` form) and its top level, the
/// children printed the same way; on failure it holds the error's `Display` text.
/// The contract only names that outcome: it is a function of `text` alone.
#[verifier::external_body]
pub(crate) fn parse_value(text: &str) -> (r: Result<JsonDoc, String>)
    ensures
        match r {
            Ok(doc) => json_document(text@) == Ok::<JsonDocView, Seq<char>>(doc@),
            Err(e) => json_document(text@) == Err::<JsonDocView, Seq<char>>(e@),
        },
{
    let value: Value = serde_json::from_str(text).map_err(|e| e.to_string())?;
    let compact = value.to_string();
    let node = match value {
        Value::Null => JsonNode::Null,
        Value::Bool(b) => JsonNode::Bool(b),
        Value::Number(n) => JsonNode::Number(n.to_string()),
        Value::String(s) => JsonNode::Text(s),
        Value::Array(a) => JsonNode::Array(a.iter().map(|v| v.to_string()).collect()),
        Value::Object(m) => JsonNode::Object(
            m.iter().map(|(k, v)| (k.clone(), v.to_string())).collect(),
        ),
    };
    Ok(JsonDoc { compact, node })
}

/// Calls `serde_json::from_slice` for a `serde_json::Value` and keeps only
/// whether it failed, with the error's `Display` text.
#[verifier::external_body]
pub(crate) fn parse_bytes_error(bytes: &[u8]) -> (r: Option<String>)
    ensures
        match r {
            Some(e) => json_bytes_error(bytes@) == Some(e@),
            None => json_bytes_error(bytes@) is None,
        },
{
    serde_json::from_slice::<Value>(bytes).err().map(|e| e.to_string())
}

/// Calls `serde_json::to_string` on a list of strings.
#[verifier::external_body]
pub(crate) fn print_strings(items: &Vec<String>) -> (r: Option<String>)
    ensures
        match r {
            Some(t) => json_text_of_strings(strings_view(items@)) == Some(t@),
            None => json_text_of_strings(strings_view(items@)) is None,
        },
{
    serde_json::to_string(items).ok()
}

/// Reads `text` as one JSON document.
pub fn read_json(text: &str) -> (r: Result<JsonDoc, String>)
    ensures
        is_reading_of(r, text@),
{
    parse_value(text)
}

/// The value text of the first member of `members` whose key is `key`.
pub open spec fn member_text(members: Seq<(Seq<char>, Seq<char>)>, key: Seq<char>) -> Option<
    Seq<char>,
>
    decreases members.len(),
{
    if members.len() == 0 {
        None
    } else if members[0].0 == key {
        Some(members[0].1)
    } else {
        member_text(members.drop_first(), key)
    }
}

/// The value text of the member `key` of an object; `None` for anything that is
/// not an object or has no such member.
pub open spec fn node_member(node: JsonNodeView, key: Seq<char>) -> Option<Seq<char>> {
    match node {
        JsonNodeView::Object(members) => member_text(members, key),
        _ => None,
    }
}

/// The string that a JSON text stands for, when it is a JSON string.
pub open spec fn text_value(text: Seq<char>) -> Option<Seq<char>> {
    match json_document(text) {
        Ok(doc) => match doc.node {
            JsonNodeView::Text(s) => Some(s),
            _ => None,
        },
        Err(_) => None,
    }
}

/// The string value of the member `key`, when the node is an object whose
/// member `key` is a JSON string.
pub open spec fn string_member(node: JsonNodeView, key: Seq<char>) -> Option<Seq<char>> {
    match node_member(node, key) {
        Some(t) => text_value(t),
        None => None,
    }
}

impl JsonNode {
    /// Whether this is JSON `null`.
    pub fn is_null(&self) -> (r: bool)
        ensures
            r == (self@ is Null),
    {
        match self {
            JsonNode::Null => true,
            _ => false,
        }
    }

    /// The value text of the member `key`, for an object that has it.
    pub fn member(&self, key: &str) -> (r: Option<&String>)
        ensures
            match r {
                Some(t) => node_member(self@, key@) == Some(t@),
                None => node_member(self@, key@) is None,
            },
    {
        match self {
            JsonNode::Object(members) => {
                let wanted = str_chars(key);
                let mut i: usize = 0;
                assert(self@->Object_0.subrange(0, members@.len() as int) == self@->Object_0);
                while i < members.len()
                    invariant
                        i <= members.len(),
                        wanted@ == key@,
                        self@ == JsonNodeView::Object(
                            Seq::new(members@.len(), |k: int| (members@[k].0@, members@[k].1@)),
                        ),
                        node_member(self@, key@) == member_text(
                            self@->Object_0.subrange(i as int, members@.len() as int),
                            key@,
                        ),
                    decreases members.len() - i,
                {
                    let ghost rest = self@->Object_0.subrange(i as int, members@.len() as int);
                    let name = str_chars(members[i].0.as_str());
                    if chars_eq(&name, &wanted) {
                        return Some(&members[i].1);
                    }
                    assert(rest.drop_first() == self@->Object_0.subrange(
                        i + 1,
                        members@.len() as int,
                    ));
                    i += 1;
                }
                None
            },
            _ => None,
        }
    }
}

/// The string that the JSON text `text` stands for, when it is a JSON string.
pub fn read_text_value(text: &str) -> (r: Option<String>)
    ensures
        match r {
            Some(s) => text_value(text@) == Some(s@),
            None => text_value(text@) is None,
        },
{
    match parse_value(text) {
        Ok(doc) => match doc.node {
            JsonNode::Text(s) => Some(s),
            _ => None,
        },
        Err(_) => None,
    }
}

/// The string value of the member `key` of `node`.
pub fn read_string_member(node: &JsonNode, key: &str) -> (r: Option<String>)
    ensures
        match r {
            Some(s) => string_member(node@, key@) == Some(s@),
            None => string_member(node@, key@) is None,
        },
{
    match node.member(key) {
        Some(t) => read_text_value(t.as_str()),
        None => None,
    }
}

/// A copy of a list of strings.
pub fn copy_strings(items: &Vec<String>) -> (r: Vec<String>)
    ensures
        strings_view(r@) == strings_view(items@),
{
    let mut r: Vec<String> = Vec::new();
    let mut i: usize = 0;
    while i < items.len()
        invariant
            i <= items.len(),
            strings_view(r@) == strings_view(items@.subrange(0, i as int)),
        decreases items.len() - i,
    {
        let ghost before = strings_view(r@);
        let item = items[i].clone();
        r.push(item);
        assert(strings_view(r@) == before.push(items@[i as int]@));
        i += 1;
    }
    r
}

impl JsonNode {
    /// A copy of this node.
    pub fn duplicate(&self) -> (r: JsonNode)
        ensures
            r@ == self@,
    {
        match self {
            JsonNode::Null => JsonNode::Null,
            JsonNode::Bool(b) => JsonNode::Bool(*b),
            JsonNode::Number(n) => JsonNode::Number(n.clone()),
            JsonNode::Text(s) => JsonNode::Text(s.clone()),
            JsonNode::Array(items) => {
                let copy = copy_strings(items);
                JsonNode::Array(copy)
            },
            JsonNode::Object(members) => {
                let mut copy: Vec<(String, String)> = Vec::new();
                let mut i: usize = 0;
                while i < members.len()
                    invariant
                        i <= members.len(),
                        copy@.len() == i,
                        forall|k: int|
                            0 <= k < i ==> (#[trigger] copy@[k]).0@ == members@[k].0@ && copy@[k].1@
                                == members@[k].1@,
                    decreases members.len() - i,
                {
                    copy.push((members[i].0.clone(), members[i].1.clone()));
                    i += 1;
                }
                assert(Seq::new(copy@.len(), |i: int| (copy@[i].0@, copy@[i].1@)) == Seq::new(
                    members@.len(),
                    |i: int| (members@[i].0@, members@[i].1@),
                ));
                JsonNode::Object(copy)
            },
        }
    }
}

impl JsonDoc {
    /// A copy of this document.
    pub fn duplicate(&self) -> (r: JsonDoc)
        ensures
            r@ == self@,
    {
        JsonDoc { compact: self.compact.clone(), node: self.node.duplicate() }
    }
}

/// Whether every text in `items` is a JSON string.
pub open spec fn all_texts(items: Seq<Seq<char>>) -> bool {
    forall|i: int| 0 <= i < items.len() ==> text_value(#[trigger] items[i]) is Some
}

/// The strings of a JSON text that is an array of strings.
pub open spec fn string_list(text: Seq<char>) -> Option<Seq<Seq<char>>> {
    match json_document(text) {
        Ok(doc) => match doc.node {
            JsonNodeView::Array(items) => if all_texts(items) {
                Some(Seq::new(items.len(), |i: int| text_value(items[i])->0))
            } else {
                None
            },
            _ => None,
        },
        Err(_) => None,
    }
}

/// The strings of an array node whose elements are all JSON strings.
pub fn read_strings(items: &Vec<String>) -> (r: Option<Vec<String>>)
    ensures
        match r {
            Some(list) => all_texts(strings_view(items@)) && strings_view(list@) == Seq::new(
                items@.len(),
                |i: int| text_value(strings_view(items@)[i])->0,
            ),
            None => !all_texts(strings_view(items@)),
        },
{
    let ghost texts = strings_view(items@);
    let mut list: Vec<String> = Vec::new();
    let mut i: usize = 0;
    while i < items.len()
        invariant
            i <= items.len(),
            texts == strings_view(items@),
            list@.len() == i,
            forall|k: int| 0 <= k < i ==> text_value(#[trigger] texts[k]) == Some(list@[k]@),
        decreases items.len() - i,
    {
        assert(texts[i as int] == items@[i as int]@);
        match read_text_value(items[i].as_str()) {
            Some(s) => {
                list.push(s);
            },
            None => {
                return None;
            },
        }
        i += 1;
    }
    Some(list)
}

/// The strings of the JSON text `text`, when it is an array of strings.
pub fn read_string_list(text: &str) -> (r: Option<Vec<String>>)
    ensures
        match r {
            Some(list) => string_list(text@) == Some(strings_view(list@)),
            None => string_list(text@) is None,
        },
{
    match parse_value(text) {
        Ok(doc) => match &doc.node {
            JsonNode::Array(items) => {
                read_strings(items)
            },
            _ => None,
        },
        Err(_) => None,
    }
}

} // verus!
