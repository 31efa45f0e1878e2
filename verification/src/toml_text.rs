//! TOML, read and written by `toml`.
use vstd::prelude::*;
use vstd::string::*;

use toml::de::DeValue;

use crate::data::{Data, DataView, Node, Parsed, Source};

verus! {

/// `toml::de::DeValue`: a TOML value in the form that `toml` parses into.
#[verifier::external_type_specification]
#[verifier::external_body]
pub struct ExDeValue<'i>(toml::de::DeValue<'i>);

/// `toml::ser::Error`: why a value cannot be written as TOML.
#[verifier::external_type_specification]
#[verifier::external_body]
pub struct ExTomlSerError(toml::ser::Error);

/// What a `toml::de::DeValue` holds: a string, a truth value, a number or a
/// date by its printed form, the items of an array, or the entries of a table.
pub uninterp spec fn toml_content(v: toml::de::DeValue<'_>) -> DataView;

/// What `toml::de::DeTable::parse` reads from a text or, where it fails, how
/// its error is displayed.
pub uninterp spec fn toml_parse(text: Seq<char>) -> Parsed;

/// What `toml::to_string` writes for a table with these entries, in this
/// order.
pub uninterp spec fn toml_print(entries: Seq<(Seq<char>, EntryView)>) -> Seq<char>;

/// What a table holds under a key.
#[derive(Debug, PartialEq, Eq)]
pub enum Entry {
    /// A string.
    Text(String),
    /// An array of strings.
    Texts(Vec<String>),
    /// A table of truth values.
    Toggles(Vec<(String, bool)>),
}

/// An [`Entry`] by the characters of its strings.
pub enum EntryView {
    Text(Seq<char>),
    Texts(Seq<Seq<char>>),
    Toggles(Seq<(Seq<char>, bool)>),
}

impl View for Entry {
    type V = EntryView;

    open spec fn view(&self) -> EntryView {
        match self {
            Entry::Text(text) => EntryView::Text(text@),
            Entry::Texts(texts) => EntryView::Texts(texts@.map_values(|s: String| s@)),
            Entry::Toggles(toggles) => EntryView::Toggles(
                toggles@.map_values(|t: (String, bool)| (t.0@, t.1)),
            ),
        }
    }
}

impl EntryView {
    /// What an entry means.
    pub open spec fn content(self) -> DataView {
        match self {
            EntryView::Text(text) => DataView::Text(text),
            EntryView::Texts(texts) => DataView::List(
                texts.map_values(|text: Seq<char>| DataView::Text(text)),
            ),
            EntryView::Toggles(toggles) => DataView::Record(
                crate::data::record_of(
                    toggles.map_values(|t: (Seq<char>, bool)| (t.0, DataView::Bool(t.1))),
                ),
            ),
        }
    }
}

/// The entries of a table by their views, in order.
pub open spec fn entry_views(entries: Seq<(String, Entry)>) -> Seq<(Seq<char>, EntryView)> {
    entries.map_values(|e: (String, Entry)| (e.0@, e.1@))
}

/// What a table with these entries means: of two with one key the later
/// counts, and the order does not.
pub open spec fn table_content(entries: Seq<(Seq<char>, EntryView)>) -> DataView {
    DataView::Record(
        crate::data::record_of(
            entries.map_values(|e: (Seq<char>, EntryView)| (e.0, e.1.content())),
        ),
    )
}

/// `toml::de::DeTable::parse`, the parser below `toml::from_str`, an error by
/// its `to_string`: whether it succeeds, what the table holds and how the error
/// is displayed depends on the text alone.
#[verifier::external_body]
fn parse_table(text: &str) -> (r: Result<DeValue<'_>, String>)
    ensures
        match r {
            Ok(v) => toml_parse(text@) == Parsed::Document(toml_content(v)),
            Err(e) => toml_parse(text@) == Parsed::Failed(e@),
        },
{
    match toml::de::DeTable::parse(text) {
        Ok(table) => Ok(DeValue::Table(table.into_inner())),
        Err(e) => Err(e.to_string()),
    }
}

/// The variant of a `toml::de::DeValue` with its fields: numbers and dates by
/// their `to_string`, `Table` by the entries of its map, in which every key
/// occurs once.
#[verifier::external_body]
fn open_toml<'a, 'i>(v: &'a DeValue<'i>) -> (n: Node<'a, DeValue<'i>>)
    ensures
        toml_content(*v) == crate::data::node_content(
            n,
            |x: DeValue<'i>| toml_content(x),
        ),
        crate::data::node_names_differ(n),
{
    match v {
        DeValue::String(s) => Node::Text(s),
        DeValue::Integer(n) => Node::Scalar(n.to_string(), None),
        DeValue::Float(n) => Node::Scalar(n.to_string(), None),
        DeValue::Boolean(b) => Node::Bool(*b),
        DeValue::Datetime(d) => Node::Scalar(d.to_string(), None),
        DeValue::Array(items) => Node::List(items.iter().map(|i| i.get_ref()).collect()),
        DeValue::Table(entries) => {
            Node::Record(entries.iter().map(|(k, v)| (k.get_ref().as_ref(), v.get_ref())).collect())
        },
    }
}

/// `toml::to_string` of a `toml::Table` that is collected from the entries
/// given, each as the variant `String`, `Array` or `Table` of `toml::Value`. It
/// succeeds, since such a table holds nothing that TOML has no notation for;
/// what it writes depends on the entries and their order alone; and
/// `toml::de::DeTable::parse` reads the same table back.
#[verifier::external_body]
fn to_string(entries: Vec<(String, Entry)>) -> (r: Result<String, toml::ser::Error>)
    ensures
        r is Ok,
        r->Ok_0@ == toml_print(entry_views(entries@)),
        toml_parse(r->Ok_0@) == Parsed::Document(table_content(entry_views(entries@))),
{
    let value = |e| match e {
        Entry::Text(s) => toml::Value::String(s),
        Entry::Texts(a) => toml::Value::Array(a.into_iter().map(toml::Value::String).collect()),
        Entry::Toggles(t) => toml::Value::Table(t.into_iter().map(|(k, b)| (k, b.into())).collect()),
    };
    toml::to_string(&entries.into_iter().map(|(k, e)| (k, value(e))).collect::<toml::Table>())
}

impl<'i> Source for DeValue<'i> {
    open spec fn content(&self) -> DataView {
        toml_content(*self)
    }

    fn open(&self) -> (n: Node<'_, Self>) {
        proof {
            assert((|x: DeValue<'i>| toml_content(x)) =~= (|v: DeValue<'i>| v.content()));
        }
        open_toml(self)
    }
}

/// The text is not TOML, for the reason given.
#[derive(Debug, PartialEq, Eq)]
pub struct NotToml(pub String);

/// Reads a TOML document.
pub fn parse(text: &str) -> (r: Result<Data, NotToml>)
    ensures
        match r {
            Ok(v) => toml_parse(text@) == Parsed::Document(v@),
            Err(e) => toml_parse(text@) == Parsed::Failed(e.0@),
        },
{
    match parse_table(text) {
        Ok(v) => Ok(crate::data::read(&v)),
        Err(e) => Err(NotToml(e)),
    }
}

/// Writes a table as a TOML document, its entries in the order given.
pub(crate) fn print(entries: Vec<(String, Entry)>) -> (r: String)
    ensures
        r@ == toml_print(entry_views(entries@)),
        toml_parse(r@) == Parsed::Document(table_content(entry_views(entries@))),
{
    match to_string(entries) {
        Ok(text) => text,
        // Never taken: such a table can always be written.
        Err(_) => String::new(),
    }
}

/// Entries are shown one by one and in order, and mean what they hold: a
/// string, the strings of an array one by one, and under each name of a table
/// the last truth value of that name.
pub proof fn entries_mean_what_they_hold(
    entries: Seq<(String, Entry)>,
    text: Seq<char>,
    texts: Seq<Seq<char>>,
    toggles: Seq<(Seq<char>, bool)>,
    at: int,
)
    ensures
        entry_views(entries).len() == entries.len(),
        forall|i: int|
            0 <= i < entries.len() ==> #[trigger] entry_views(entries)[i] == (
                entries[i].0@,
                entries[i].1@,
            ),
        EntryView::Text(text).content() == DataView::Text(text),
        EntryView::Texts(texts).content() matches DataView::List(items) && items.len()
            == texts.len() && forall|i: int|
            0 <= i < items.len() ==> #[trigger] items[i] == DataView::Text(texts[i]),
        EntryView::Toggles(toggles).content() is Record,
        0 <= at < toggles.len() && (forall|j: int|
            at < j < toggles.len() ==> (#[trigger] toggles[j]).0 != toggles[at].0)
            ==> EntryView::Toggles(toggles).content().member(toggles[at].0) == Some(
            DataView::Bool(toggles[at].1),
        ),
{
    let parts = toggles.map_values(|t: (Seq<char>, bool)| (t.0, DataView::Bool(t.1)));
    if 0 <= at < toggles.len() && (forall|j: int|
        at < j < toggles.len() ==> (#[trigger] toggles[j]).0 != toggles[at].0) {
        assert forall|j: int| at < j < parts.len() implies (#[trigger] parts[j]).0 != parts[at].0 by {
            assert(toggles[j].0 != toggles[at].0);
        }
        crate::data::record_holds(parts, at);
    }
}

/// The view shows every entry as it is.
pub proof fn entry_view_shows_everything(e: Entry)
    ensures
        match e {
            Entry::Text(text) => e@ == EntryView::Text(text@),
            Entry::Texts(texts) => e@ matches EntryView::Texts(shown) && shown.len() == texts@.len()
                && forall|i: int| 0 <= i < shown.len() ==> #[trigger] shown[i] == texts@[i]@,
            Entry::Toggles(toggles) => e@ matches EntryView::Toggles(shown) && shown.len()
                == toggles@.len() && forall|i: int|
                0 <= i < shown.len() ==> #[trigger] shown[i] == (toggles@[i].0@, toggles@[i].1),
        },
{
}

}
