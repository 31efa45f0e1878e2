//! JSON, read and written by `serde_json`.
use vstd::prelude::*;
use vstd::string::*;

use crate::text::same_text;
use crate::data::{Data, DataView, Node, Parsed, Source};

verus! {

/// `serde_json::Value`: a JSON value in the form that `serde_json` parses into.
#[verifier::external_type_specification]
#[verifier::external_body]
pub struct ExJsonValue(serde_json::Value);

/// `serde_json::Error`: why a text is not JSON.
#[verifier::external_type_specification]
#[verifier::external_body]
pub struct ExJsonError(serde_json::Error);

/// What a `serde_json::Value` holds: null, a truth value, a number by its
/// printed form and its value as `u64`, a string, the items of an array, or
/// the members of an object.
pub uninterp spec fn json_content(v: serde_json::Value) -> DataView;

/// What `serde_json::from_slice` reads from bytes or, where it fails, how its
/// error is displayed.
pub uninterp spec fn json_parse(bytes: Seq<u8>) -> Parsed;

/// What `serde_json::to_vec` writes for a value.
pub uninterp spec fn json_print(v: DataView) -> Seq<u8>;

/// How a `serde_json::Value` is displayed.
pub uninterp spec fn json_text(v: DataView) -> Seq<char>;

/// `serde_json::from_slice` into a `serde_json::Value`, an error by its
/// `to_string`: whether it succeeds, what the value holds and how the error is
/// displayed depends on the bytes alone.
#[verifier::external_body]
fn from_slice(bytes: &[u8]) -> (r: Result<serde_json::Value, String>)
    ensures
        match r {
            Ok(v) => json_parse(bytes@) == Parsed::Document(json_content(v)),
            Err(text) => json_parse(bytes@) == Parsed::Failed(text@),
        },
{
    serde_json::from_slice(bytes).map_err(|e| e.to_string())
}

/// The variant of a `serde_json::Value` with its fields: `Number` by its
/// `to_string` and `as_u64`, `Object` by the entries of its map, in which
/// every name occurs once.
#[verifier::external_body]
fn open_json<'a>(v: &'a serde_json::Value) -> (n: Node<'a, serde_json::Value>)
    ensures
        json_content(*v) == crate::data::node_content(n, |x: serde_json::Value| json_content(x)),
        crate::data::node_names_differ(n),
{
    match v {
        serde_json::Value::Null => Node::Null,
        serde_json::Value::Bool(b) => Node::Bool(*b),
        serde_json::Value::Number(n) => Node::Scalar(n.to_string(), n.as_u64()),
        serde_json::Value::String(s) => Node::Text(s),
        serde_json::Value::Array(items) => Node::List(items.iter().collect()),
        serde_json::Value::Object(members) => {
            Node::Record(members.iter().map(|(k, v)| (k.as_str(), v)).collect())
        },
    }
}

/// One level of a document that is put together in the form that
/// `serde_json` writes from.
enum Parts {
    Bool(bool),
    Text(String),
    List(Vec<serde_json::Value>),
    Record(Vec<(String, serde_json::Value)>),
}

/// What a level means.
spec fn parts_content(p: Parts) -> DataView {
    match p {
        Parts::Bool(b) => DataView::Bool(b),
        Parts::Text(text) => DataView::Text(text@),
        Parts::List(items) => DataView::List(
            items@.map_values(|v: serde_json::Value| json_content(v)),
        ),
        Parts::Record(members) => DataView::Record(
            crate::data::record_of(
                members@.map_values(|m: (String, serde_json::Value)| (m.0@, json_content(m.1))),
            ),
        ),
    }
}

/// In a record no name occurs twice.
spec fn parts_names_differ(p: Parts) -> bool {
    p matches Parts::Record(members) ==> forall|i: int, j: int|
        0 <= i < j < members@.len() ==> (#[trigger] members@[i]).0@ != (#[trigger] members@[j]).0@
}

/// The variants `Bool`, `String`, `Array` and `Object` of `serde_json::Value`
/// with the fields given; an object is collected from its members, whose names
/// all differ.
#[verifier::external_body]
fn close_json(p: Parts) -> (v: serde_json::Value)
    requires
        parts_names_differ(p),
    ensures
        json_content(v) == parts_content(p),
{
    match p {
        Parts::Bool(b) => serde_json::Value::Bool(b),
        Parts::Text(s) => serde_json::Value::String(s),
        Parts::List(items) => serde_json::Value::Array(items),
        Parts::Record(members) => serde_json::Value::Object(members.into_iter().collect()),
    }
}

/// `serde_json::to_vec` of a `serde_json::Value`: it succeeds, since every
/// name in a `Value` is a string and memory takes whatever is written; what it
/// writes depends on what the value holds alone; and `from_slice` reads the
/// same value back, up to the depth of nesting at which it stops reading and
/// but for numbers, of which nothing is said here.
#[verifier::external_body]
fn to_vec(v: &serde_json::Value) -> (r: Result<Vec<u8>, serde_json::Error>)
    ensures
        r is Ok,
        r->Ok_0@ == json_print(json_content(*v)),
        crate::data::plain(json_content(*v), 127) ==> json_parse(r->Ok_0@) == Parsed::Document(
            json_content(*v),
        ),
{
    serde_json::to_vec(v)
}

/// `to_string` of a `serde_json::Value`, which displays what the value holds.
#[verifier::external_body]
fn display(v: &serde_json::Value) -> (r: String)
    ensures
        r@ == json_text(json_content(*v)),
{
    v.to_string()
}

impl Source for serde_json::Value {
    open spec fn content(&self) -> DataView {
        json_content(*self)
    }

    fn open(&self) -> (n: Node<'_, Self>) {
        proof {
            assert((|x: serde_json::Value| json_content(x)) =~= (|v: serde_json::Value|
                v.content()));
        }
        open_json(self)
    }
}

/// The text is not JSON, for the reason given.
#[derive(Debug, PartialEq, Eq)]
pub struct NotJson(pub String);

/// Reads a JSON document.
pub fn parse(bytes: &[u8]) -> (r: Result<Data, NotJson>)
    ensures
        match r {
            Ok(v) => json_parse(bytes@) == Parsed::Document(v@),
            Err(e) => json_parse(bytes@) == Parsed::Failed(e.0@),
        },
{
    match from_slice(bytes) {
        Ok(v) => Ok(crate::data::read(&v)),
        Err(text) => Err(NotJson(text)),
    }
}

/// How the member of a JSON object with that name is displayed.
pub fn display_member(bytes: &[u8], name: &str) -> (r: Option<String>)
    ensures
        match json_parse(bytes@) {
            Parsed::Document(v) => match v.member(name@) {
                Some(part) => r matches Some(text) && text@ == json_text(part),
                None => r is None,
            },
            Parsed::Failed(_) => r is None,
        },
{
    let v = match from_slice(bytes) {
        Ok(v) => v,
        Err(_) => {
            return None;
        },
    };
    let node = open_json(&v);
    match node {
        Node::Record(members) => {
            let ghost parts = members@.map_values(
                |m: (&str, &serde_json::Value)| (m.0@, json_content(*m.1)),
            );
            proof {
                assert(members@.map_values(
                    |m: (&str, &serde_json::Value)|
                        (m.0@, (|x: serde_json::Value| json_content(x))(*m.1)),
                ) =~= parts);
            }
            let mut i: usize = members.len();
            while i > 0
                invariant
                    i <= members@.len(),
                    parts == members@.map_values(
                        |m: (&str, &serde_json::Value)| (m.0@, json_content(*m.1)),
                    ),
                    json_parse(bytes@) == Parsed::Document(
                        DataView::Record(crate::data::record_of(parts)),
                    ),
                    forall|j: int| i <= j < parts.len() ==> (#[trigger] parts[j]).0 != name@,
                decreases i,
            {
                i = i - 1;
                let (key, part) = members[i];
                assert(parts[i as int] == (key@, json_content(*part)));
                if same_text(key, name) {
                    proof {
                        crate::data::record_holds(parts, i as int);
                    }
                    return Some(display(part));
                }
            }
            proof {
                crate::data::record_lacks(parts, name@);
            }
            None
        },
        _ => None,
    }
}

/// Copies a document into the form that `serde_json` writes from.
fn to_value(v: &Data) -> (r: serde_json::Value)
    requires
        crate::data::writable(*v),
    ensures
        json_content(r) == v@,
    decreases v,
{
    match v {
        Data::Bool(b) => close_json(Parts::Bool(*b)),
        Data::Text(text) => close_json(Parts::Text(text.clone())),
        Data::List(items) => {
            let mut out: Vec<serde_json::Value> = Vec::new();
            let mut i: usize = 0;
            while i < items.len()
                invariant
                    i <= items@.len(),
                    *v == Data::List(*items),
                    forall|j: int|
                        0 <= j < items@.len() ==> crate::data::writable(#[trigger] items@[j]),
                    out@.len() == i,
                    forall|j: int| 0 <= j < i ==> json_content(#[trigger] out@[j]) == items@[j]@,
                decreases items@.len() - i,
            {
                assert(crate::data::writable(items@[i as int]));
                assert(decreases_to!(*v => v->List_0));
                assert(decreases_to!(items => items@));
                assert(decreases_to!(items@ => items@[i as int]));
                let item = to_value(&items[i]);
                out.push(item);
                i = i + 1;
            }
            assert(out@.map_values(|v: serde_json::Value| json_content(v))
                =~= crate::data::item_contents(items@));
            close_json(Parts::List(out))
        },
        Data::Record(members) => {
            let mut out: Vec<(String, serde_json::Value)> = Vec::new();
            let mut i: usize = 0;
            while i < members.len()
                invariant
                    i <= members@.len(),
                    *v == Data::Record(*members),
                    forall|j: int|
                        0 <= j < members@.len() ==> crate::data::writable((#[trigger] members@[j]).1),
                    forall|j: int, k: int|
                        0 <= j < k < members@.len() ==> (#[trigger] members@[j]).0@
                            != (#[trigger] members@[k]).0@,
                    out@.len() == i,
                    forall|j: int|
                        0 <= j < i ==> ((#[trigger] out@[j]).0@, json_content(out@[j].1)) == (
                            members@[j].0@,
                            members@[j].1@,
                        ),
                decreases members@.len() - i,
            {
                assert(crate::data::writable(members@[i as int].1));
                assert(decreases_to!(*v => v->Record_0));
                assert(decreases_to!(members => members@));
                assert(decreases_to!(members@ => members@[i as int]));
                assert(decreases_to!(members@[i as int] => members@[i as int].1));
                let part = to_value(&members[i].1);
                out.push((members[i].0.clone(), part));
                i = i + 1;
            }
            assert(out@.map_values(|m: (String, serde_json::Value)| (m.0@, json_content(m.1)))
                =~= crate::data::member_contents(members@));
            close_json(Parts::Record(out))
        },
        // Never taken: neither is writable.
        Data::Null | Data::Scalar(_, _) => close_json(Parts::Bool(false)),
    }
}

/// Writes a JSON document.
pub(crate) fn print(v: &Data) -> (r: Vec<u8>)
    requires
        crate::data::writable(*v),
    ensures
        r@ == json_print(v@),
        crate::data::plain(v@, 127) ==> json_parse(r@) == Parsed::Document(v@),
{
    let outside = to_value(v);
    match to_vec(&outside) {
        Ok(bytes) => bytes,
        // Never taken: writing a value to memory does not fail.
        Err(_) => Vec::new(),
    }
}

}
