//! Structured documents, as far as this crate reads them.
//!
//! Manifests are JSON or TOML. Reading them is left to the crates that
//! implement those formats; this module gives their document values a
//! mathematical model and states, for each accessor the crate calls, what it
//! returns in terms of that model.

use crate::text::texts;
use vstd::prelude::*;

verus! {

/// What a document value holds, as far as this crate looks: a text, a
/// whole number from zero up that fits into 64 bits, a list of values, a
/// table from keys to values, or anything else.
pub enum Node {
    Text(Seq<char>),
    Count(u64),
    List(Seq<Node>),
    Table(Map<Seq<char>, Node>),
    Other,
}

/// The member `key` of a table; `None` for a missing key and for a value
/// that is no table.
pub open spec fn node_member(n: Node, key: Seq<char>) -> Option<Node> {
    match n {
        Node::Table(m) => if m.contains_key(key) {
            Some(m[key])
        } else {
            None
        },
        _ => None,
    }
}

/// The text of a value that is a text.
pub open spec fn node_text(n: Node) -> Option<Seq<char>> {
    match n {
        Node::Text(t) => Some(t),
        _ => None,
    }
}

/// The items of a value that is a list.
pub open spec fn node_items(n: Node) -> Option<Seq<Node>> {
    match n {
        Node::List(l) => Some(l),
        _ => None,
    }
}

/// The texts among `items` from position `from` on, in their order; items
/// that are no texts are passed over.
pub open spec fn text_items_from(items: Seq<Node>, from: int) -> Seq<Seq<char>>
    decreases items.len() - from,
{
    if from < 0 || from >= items.len() {
        Seq::empty()
    } else {
        match items[from] {
            Node::Text(t) => seq![t] + text_items_from(items, from + 1),
            _ => text_items_from(items, from + 1),
        }
    }
}

/// The texts in a value that is a list; nothing for a missing value and for
/// a value that is no list.
pub open spec fn text_list(n: Option<Node>) -> Seq<Seq<char>> {
    match n {
        Some(Node::List(items)) => text_items_from(items, 0),
        _ => Seq::empty(),
    }
}

/// The member of `n` under `key`, where `n` is there at all.
pub open spec fn member_of(n: Option<Node>, key: Seq<char>) -> Option<Node> {
    match n {
        Some(n) => node_member(n, key),
        None => None,
    }
}

/// The text of `n`, where `n` is there and is a text.
pub open spec fn text_of(n: Option<Node>) -> Option<Seq<char>> {
    match n {
        Some(n) => node_text(n),
        None => None,
    }
}

/// `serde_json::Value`, a JSON value. Nothing is known of one but what the
/// accessors below tell.
#[verifier::external_type_specification]
#[verifier::external_body]
pub struct ExJsonValue(serde_json::Value);

/// `toml::Value`, a TOML value. Nothing is known of one but what the
/// accessors below tell.
#[verifier::external_type_specification]
#[verifier::external_body]
pub struct ExTomlValue(toml::Value);

/// What a JSON value holds.
pub uninterp spec fn json_node(v: serde_json::Value) -> Node;

/// What the JSON parser makes of a text: the document, or `None` where the
/// text is not valid JSON.
pub uninterp spec fn json_parsed(text: Seq<char>) -> Option<Node>;

/// What a TOML value holds.
pub uninterp spec fn toml_node(v: toml::Value) -> Node;

/// What the TOML parser makes of a text: the document, or `None` where the
/// text is not valid TOML.
pub uninterp spec fn toml_parsed(text: Seq<char>) -> Option<Node>;

/// `serde_json::from_str`, reading a whole document into a
/// `serde_json::Value`. The outcome depends on the text alone; an error of
/// the parser is reported as `None`.
#[verifier::external_body]
pub(crate) fn json_parse(text: &str) -> (r: Option<serde_json::Value>)
    ensures
        match r {
            Some(v) => json_parsed(text@) == Some(json_node(v)),
            None => json_parsed(text@) is None,
        },
{
    serde_json::from_str(text).ok()
}

/// `serde_json::Value::get` with a string key: the member of an object under
/// that key. It is `None` for a missing key and for a value that is no
/// object.
#[verifier::external_body]
pub(crate) fn json_get<'a>(v: &'a serde_json::Value, key: &str) -> (r: Option<&'a serde_json::Value>)
    ensures
        match r {
            Some(m) => node_member(json_node(*v), key@) == Some(json_node(*m)),
            None => node_member(json_node(*v), key@) is None,
        },
{
    v.get(key)
}

/// `serde_json::Value::as_str`: the text of a string value, `None` for any
/// other value.
#[verifier::external_body]
pub(crate) fn json_str<'a>(v: &'a serde_json::Value) -> (r: Option<&'a str>)
    ensures
        match r {
            Some(s) => node_text(json_node(*v)) == Some(s@),
            None => node_text(json_node(*v)) is None,
        },
{
    v.as_str()
}

/// `serde_json::Value::as_array`: the items of an array value in their
/// order, `None` for any other value.
#[verifier::external_body]
pub(crate) fn json_array<'a>(v: &'a serde_json::Value) -> (r: Option<&'a Vec<serde_json::Value>>)
    ensures
        match r {
            Some(items) => node_items(json_node(*v)) == Some(
                Seq::new(items@.len(), |i: int| json_node(items@[i])),
            ),
            None => node_items(json_node(*v)) is None,
        },
{
    v.as_array()
}

/// `serde_json::Value::as_u64`: the number of a value that is a whole
/// number from zero up that fits into 64 bits, `None` for any other value.
#[verifier::external_body]
pub(crate) fn json_u64(v: &serde_json::Value) -> (r: Option<u64>)
    ensures
        match r {
            Some(n) => json_node(*v) == Node::Count(n),
            None => !(json_node(*v) is Count),
        },
{
    v.as_u64()
}

/// `str::parse::<toml::Value>`, reading a whole document into a
/// `toml::Value`. The outcome depends on the text alone; an error of the
/// parser is reported as `None`.
#[verifier::external_body]
pub(crate) fn toml_parse(text: &str) -> (r: Option<toml::Value>)
    ensures
        match r {
            Some(v) => toml_parsed(text@) == Some(toml_node(v)),
            None => toml_parsed(text@) is None,
        },
{
    text.parse::<toml::Value>().ok()
}

/// `toml::Value::get` with a string key: the member of a table under that
/// key. It is `None` for a missing key and for a value that is no table.
#[verifier::external_body]
pub(crate) fn toml_get<'a>(v: &'a toml::Value, key: &str) -> (r: Option<&'a toml::Value>)
    ensures
        match r {
            Some(m) => node_member(toml_node(*v), key@) == Some(toml_node(*m)),
            None => node_member(toml_node(*v), key@) is None,
        },
{
    v.get(key)
}

/// `toml::Value::as_str`: the text of a string value, `None` for any other
/// value.
#[verifier::external_body]
pub(crate) fn toml_str<'a>(v: &'a toml::Value) -> (r: Option<&'a str>)
    ensures
        match r {
            Some(s) => node_text(toml_node(*v)) == Some(s@),
            None => node_text(toml_node(*v)) is None,
        },
{
    v.as_str()
}

/// `toml::Value::as_array`: the items of an array value in their order,
/// `None` for any other value.
#[verifier::external_body]
pub(crate) fn toml_array<'a>(v: &'a toml::Value) -> (r: Option<&'a Vec<toml::Value>>)
    ensures
        match r {
            Some(items) => node_items(toml_node(*v)) == Some(
                Seq::new(items@.len(), |i: int| toml_node(items@[i])),
            ),
            None => node_items(toml_node(*v)) is None,
        },
{
    v.as_array()
}

/// `toml::Value::as_table` and the `keys` of the table: each key of the
/// table once, in the order in which the table hands them out, of which
/// nothing is said here; `None` for a value that is no table.
#[verifier::external_body]
pub(crate) fn toml_keys(v: &toml::Value) -> (r: Option<Vec<String>>)
    ensures
        match r {
            Some(keys) => {
                &&& toml_node(*v) is Table
                &&& texts(keys@).no_duplicates()
                &&& texts(keys@).to_set() == toml_node(*v)->Table_0.dom()
            },
            None => !(toml_node(*v) is Table),
        },
{
    v.as_table().map(|t| t.keys().cloned().collect())
}

/// What a borrowed JSON value holds, where there is one.
pub open spec fn json_opt(v: Option<&serde_json::Value>) -> Option<Node> {
    match v {
        Some(v) => Some(json_node(*v)),
        None => None,
    }
}

/// What a borrowed TOML value holds, where there is one.
pub open spec fn toml_opt(v: Option<&toml::Value>) -> Option<Node> {
    match v {
        Some(v) => Some(toml_node(*v)),
        None => None,
    }
}

/// The member under `key` of a JSON value that may be missing.
pub fn json_member<'a>(v: Option<&'a serde_json::Value>, key: &str) -> (r: Option<
    &'a serde_json::Value,
>)
    ensures
        json_opt(r) == member_of(json_opt(v), key@),
{
    match v {
        Some(v) => json_get(v, key),
        None => None,
    }
}

/// The text of a JSON value that may be missing.
pub fn json_text(v: Option<&serde_json::Value>) -> (r: Option<String>)
    ensures
        crate::text::opt_text(r) == text_of(json_opt(v)),
{
    match v {
        Some(v) => match json_str(v) {
            Some(s) => Some(s.to_owned()),
            None => None,
        },
        None => None,
    }
}

/// The texts in a JSON value that may be missing: the string items of an
/// array, in their order.
pub fn json_texts(v: Option<&serde_json::Value>) -> (r: Vec<String>)
    ensures
        texts(r@) == text_list(json_opt(v)),
{
    let mut out: Vec<String> = Vec::new();
    let found = match v {
        Some(v) => json_array(v),
        None => None,
    };
    match found {
        None => {
            assert(texts(out@) =~= text_list(json_opt(v)));
        },
        Some(items) => {
            let ghost nodes = Seq::new(items@.len(), |i: int| json_node(items@[i]));
            let mut i: usize = 0;
            while i < items.len()
                invariant
                    i <= items@.len(),
                    nodes == Seq::new(items@.len(), |k: int| json_node(items@[k])),
                    text_items_from(nodes, 0) == texts(out@) + text_items_from(nodes, i as int),
                decreases items@.len() - i,
            {
                let ghost before = texts(out@);
                assert(nodes[i as int] == json_node(items@[i as int]));
                match json_str(&items[i]) {
                    Some(s) => {
                        out.push(s.to_owned());
                        assert(texts(out@) =~= before + seq![s@]);
                        assert(text_items_from(nodes, 0) =~= texts(out@) + text_items_from(
                            nodes,
                            i + 1,
                        ));
                    },
                    None => {},
                }
                i += 1;
            }
            assert(texts(out@) =~= text_items_from(nodes, 0));
        },
    }
    out
}

/// The member under `key` of a TOML value that may be missing.
pub fn toml_member<'a>(v: Option<&'a toml::Value>, key: &str) -> (r: Option<&'a toml::Value>)
    ensures
        toml_opt(r) == member_of(toml_opt(v), key@),
{
    match v {
        Some(v) => toml_get(v, key),
        None => None,
    }
}

/// The text of a TOML value that may be missing.
pub fn toml_text(v: Option<&toml::Value>) -> (r: Option<String>)
    ensures
        crate::text::opt_text(r) == text_of(toml_opt(v)),
{
    match v {
        Some(v) => match toml_str(v) {
            Some(s) => Some(s.to_owned()),
            None => None,
        },
        None => None,
    }
}

/// The texts in a TOML value that may be missing: the string items of an
/// array, in their order.
pub fn toml_texts(v: Option<&toml::Value>) -> (r: Vec<String>)
    ensures
        texts(r@) == text_list(toml_opt(v)),
{
    let mut out: Vec<String> = Vec::new();
    let found = match v {
        Some(v) => toml_array(v),
        None => None,
    };
    match found {
        None => {
            assert(texts(out@) =~= text_list(toml_opt(v)));
        },
        Some(items) => {
            let ghost nodes = Seq::new(items@.len(), |i: int| toml_node(items@[i]));
            let mut i: usize = 0;
            while i < items.len()
                invariant
                    i <= items@.len(),
                    nodes == Seq::new(items@.len(), |k: int| toml_node(items@[k])),
                    text_items_from(nodes, 0) == texts(out@) + text_items_from(nodes, i as int),
                decreases items@.len() - i,
            {
                let ghost before = texts(out@);
                assert(nodes[i as int] == toml_node(items@[i as int]));
                match toml_str(&items[i]) {
                    Some(s) => {
                        out.push(s.to_owned());
                        assert(texts(out@) =~= before + seq![s@]);
                        assert(text_items_from(nodes, 0) =~= texts(out@) + text_items_from(
                            nodes,
                            i + 1,
                        ));
                    },
                    None => {},
                }
                i += 1;
            }
            assert(texts(out@) =~= text_items_from(nodes, 0));
        },
    }
    out
}

} // verus!
