//! Structured data: what a JSON reply and a TOML file have in common.
use vstd::prelude::*;
use vstd::string::*;

use crate::text::same_text;

verus! {

/// A parsed document, or a part of one.
#[derive(Debug)]
pub enum Data {
    /// Nothing (`null`).
    Null,
    /// A truth value.
    Bool(bool),
    /// A number or a date: how it is printed and, of a JSON number that is an
    /// unsigned integer, its value.
    Scalar(String, Option<u64>),
    /// A string.
    Text(String),
    /// An array.
    List(Vec<Data>),
    /// An object or a table: its members with their names.
    Record(Vec<(String, Data)>),
}

/// What a [`Data`] means.
pub enum DataView {
    Null,
    Bool(bool),
    Scalar(Seq<char>, Option<u64>),
    Text(Seq<char>),
    List(Seq<DataView>),
    Record(Map<Seq<char>, DataView>),
}

/// What parsing a text comes to: the document that it is, or how the error is
/// displayed.
pub enum Parsed {
    Document(DataView),
    Failed(Seq<char>),
}

/// The members of a record by name; of two with one name the later counts.
pub open spec fn record_of(members: Seq<(Seq<char>, DataView)>) -> Map<Seq<char>, DataView>
    decreases members.len(),
{
    if members.len() == 0 {
        Map::empty()
    } else {
        record_of(members.drop_last()).insert(members.last().0, members.last().1)
    }
}

/// What a value means.
pub open spec fn data_content(v: Data) -> DataView
    decreases v,
{
    match v {
        Data::Null => DataView::Null,
        Data::Bool(b) => DataView::Bool(b),
        Data::Scalar(text, unsigned) => DataView::Scalar(text@, unsigned),
        Data::Text(text) => DataView::Text(text@),
        Data::List(items) => DataView::List(item_contents(items@)),
        Data::Record(members) => DataView::Record(record_of(member_contents(members@))),
    }
}

/// What the items of a list mean.
pub open spec fn item_contents(items: Seq<Data>) -> Seq<DataView>
    decreases items,
{
    Seq::new(
        items.len(),
        |i: int|
            if 0 <= i < items.len() {
                data_content(items[i])
            } else {
                DataView::Null
            },
    )
}

/// What the members of a record mean.
pub open spec fn member_contents(members: Seq<(String, Data)>) -> Seq<(Seq<char>, DataView)>
    decreases members,
{
    Seq::new(
        members.len(),
        |i: int|
            if 0 <= i < members.len() {
                (members[i].0@, data_content(members[i].1))
            } else {
                (Seq::empty(), DataView::Null)
            },
    )
}

impl View for Data {
    type V = DataView;

    open spec fn view(&self) -> DataView {
        data_content(*self)
    }
}

impl DataView {
    /// The member of a record with that name.
    pub open spec fn member(self, name: Seq<char>) -> Option<DataView> {
        match self {
            DataView::Record(members) => if members.contains_key(name) {
                Some(members[name])
            } else {
                None
            },
            _ => None,
        }
    }

    /// The string that a value is.
    pub open spec fn text(self) -> Option<Seq<char>> {
        match self {
            DataView::Text(text) => Some(text),
            _ => None,
        }
    }

    /// The truth value that a value is.
    pub open spec fn truth(self) -> Option<bool> {
        match self {
            DataView::Bool(b) => Some(b),
            _ => None,
        }
    }

    /// The unsigned integer that a value is.
    pub open spec fn unsigned(self) -> Option<u64> {
        match self {
            DataView::Scalar(_, unsigned) => unsigned,
            _ => None,
        }
    }

    /// The items of a list.
    pub open spec fn items(self) -> Option<Seq<DataView>> {
        match self {
            DataView::List(items) => Some(items),
            _ => None,
        }
    }

    /// The string member of a record with that name.
    pub open spec fn member_text(self, name: Seq<char>) -> Option<Seq<char>> {
        match self.member(name) {
            Some(v) => v.text(),
            None => None,
        }
    }

    /// The list member of a record with that name.
    pub open spec fn member_items(self, name: Seq<char>) -> Option<Seq<DataView>> {
        match self.member(name) {
            Some(v) => v.items(),
            None => None,
        }
    }
}

/// The views of what an `Option` refers to.
pub open spec fn seen(v: Option<&Data>) -> Option<DataView> {
    match v {
        Some(v) => Some(v@),
        None => None,
    }
}

/// The characters of a string that may be missing.
pub open spec fn seen_text(s: Option<&str>) -> Option<Seq<char>> {
    match s {
        Some(s) => Some(s@),
        None => None,
    }
}

impl Data {
    /// The member of a record with that name.
    pub fn get(&self, name: &str) -> (r: Option<&Data>)
        ensures
            seen(r) == self@.member(name@),
    {
        match self {
            Data::Record(members) => {
                let ghost parts = member_contents(members@);
                let mut i: usize = members.len();
                while i > 0
                    invariant
                        i <= members@.len(),
                        parts == member_contents(members@),
                        self@ == DataView::Record(record_of(parts)),
                        forall|j: int| i <= j < parts.len() ==> (#[trigger] parts[j]).0 != name@,
                    decreases i,
                {
                    i = i - 1;
                    assert(parts[i as int] == (members@[i as int].0@, members@[i as int].1@));
                    if same_text(members[i].0.as_str(), name) {
                        proof {
                            record_holds(parts, i as int);
                        }
                        return Some(&members[i].1);
                    }
                }
                proof {
                    record_lacks(parts, name@);
                }
                None
            },
            _ => None,
        }
    }

    /// The string that the value is.
    pub fn as_str(&self) -> (r: Option<&str>)
        ensures
            seen_text(r) == self@.text(),
    {
        match self {
            Data::Text(text) => Some(text.as_str()),
            _ => None,
        }
    }

    /// The truth value that the value is.
    pub fn as_bool(&self) -> (r: Option<bool>)
        ensures
            r == self@.truth(),
    {
        match self {
            Data::Bool(b) => Some(*b),
            _ => None,
        }
    }

    /// The unsigned integer that the value is.
    pub fn as_u64(&self) -> (r: Option<u64>)
        ensures
            r == self@.unsigned(),
    {
        match self {
            Data::Scalar(_, unsigned) => *unsigned,
            _ => None,
        }
    }

    /// The items of the list that the value is.
    pub fn as_list(&self) -> (r: Option<&Vec<Data>>)
        ensures
            match r {
                Some(items) => self@.items() == Some(item_contents(items@)),
                None => self@.items() is None,
            },
    {
        match self {
            Data::List(items) => Some(items),
            _ => None,
        }
    }

    /// The string member of a record with that name.
    pub fn get_str(&self, name: &str) -> (r: Option<&str>)
        ensures
            seen_text(r) == self@.member_text(name@),
    {
        match self.get(name) {
            Some(v) => v.as_str(),
            None => None,
        }
    }

    /// The list member of a record with that name.
    pub fn get_list(&self, name: &str) -> (r: Option<&Vec<Data>>)
        ensures
            match r {
                Some(items) => self@.member_items(name@) == Some(item_contents(items@)),
                None => self@.member_items(name@) is None,
            },
    {
        match self.get(name) {
            Some(v) => v.as_list(),
            None => None,
        }
    }
}

/// One level of a document that another library parsed; what lies deeper
/// is still in that library's form.
pub enum Node<'a, V> {
    Null,
    Bool(bool),
    Scalar(String, Option<u64>),
    Text(&'a str),
    List(Vec<&'a V>),
    Record(Vec<(&'a str, &'a V)>),
}

/// What a node means, given what the parts below it mean.
pub open spec fn node_content<V>(n: Node<'_, V>, content: spec_fn(V) -> DataView) -> DataView {
    match n {
        Node::Null => DataView::Null,
        Node::Bool(b) => DataView::Bool(b),
        Node::Scalar(text, unsigned) => DataView::Scalar(text@, unsigned),
        Node::Text(text) => DataView::Text(text@),
        Node::List(items) => DataView::List(items@.map_values(|v: &V| content(*v))),
        Node::Record(members) => DataView::Record(
            record_of(members@.map_values(|m: (&str, &V)| (m.0@, content(*m.1)))),
        ),
    }
}

/// In a record no name occurs twice.
pub open spec fn node_names_differ<V>(n: Node<'_, V>) -> bool {
    n matches Node::Record(members) ==> forall|i: int, j: int|
        0 <= i < j < members@.len() ==> (#[trigger] members@[i]).0@ != (#[trigger] members@[j]).0@
}

/// Holds of a value that has no number or date in it and nests lists and
/// records at most `levels` deep.
pub open spec fn plain(v: DataView, levels: nat) -> bool
    decreases levels,
{
    match v {
        DataView::Null => true,
        DataView::Bool(_) => true,
        DataView::Text(_) => true,
        DataView::Scalar(_, _) => false,
        DataView::List(items) => levels > 0 && forall|i: int|
            0 <= i < items.len() ==> plain(#[trigger] items[i], (levels - 1) as nat),
        DataView::Record(members) => levels > 0 && forall|name: Seq<char>|
            members.contains_key(name) ==> plain(#[trigger] members[name], (levels - 1) as nat),
    }
}

/// A document in the form that another library parsed it into.
pub trait Source: Sized {
    /// What the document means.
    spec fn content(&self) -> DataView;

    /// The document's outermost level.
    fn open(&self) -> (n: Node<'_, Self>)
        ensures
            self.content() == node_content(n, |v: Self| v.content()),
            node_names_differ(n),
    ;
}

/// Holds of a value that is made of truth values, strings, lists and records,
/// and in whose records no name occurs twice.
pub open spec fn writable(v: Data) -> bool
    decreases v,
{
    match v {
        Data::Null => false,
        Data::Bool(_) => true,
        Data::Scalar(_, _) => false,
        Data::Text(_) => true,
        Data::List(items) => forall|i: int|
            0 <= i < items@.len() ==> writable(#[trigger] items@[i]),
        Data::Record(members) => {
            &&& forall|i: int| 0 <= i < members@.len() ==> writable((#[trigger] members@[i]).1)
            &&& forall|i: int, j: int|
                0 <= i < j < members@.len() ==> (#[trigger] members@[i]).0@
                    != (#[trigger] members@[j]).0@
        },
    }
}

proof fn record_is_finite(members: Seq<(Seq<char>, DataView)>)
    ensures
        record_of(members).dom().finite(),
    decreases members.len(),
{
    if members.len() > 0 {
        record_is_finite(members.drop_last());
    }
}

/// A name that no member has is not in the record.
pub proof fn record_lacks(members: Seq<(Seq<char>, DataView)>, name: Seq<char>)
    requires
        forall|i: int| 0 <= i < members.len() ==> (#[trigger] members[i]).0 != name,
    ensures
        !record_of(members).contains_key(name),
    decreases members.len(),
{
    if members.len() > 0 {
        let front = members.drop_last();
        assert forall|i: int| 0 <= i < front.len() implies (#[trigger] front[i]).0 != name by {
            assert(front[i] == members[i]);
        }
        record_lacks(front, name);
        assert(members[members.len() - 1].0 != name);
    }
}

/// The name of every member is in the record.
pub proof fn record_names(members: Seq<(Seq<char>, DataView)>, at: int)
    requires
        0 <= at < members.len(),
    ensures
        record_of(members).contains_key(members[at].0),
    decreases members.len(),
{
    if at < members.len() - 1 {
        record_names(members.drop_last(), at);
    }
}

/// The last member with a name is the one that the record holds under it.
pub proof fn record_holds(members: Seq<(Seq<char>, DataView)>, at: int)
    requires
        0 <= at < members.len(),
        forall|i: int| at < i < members.len() ==> (#[trigger] members[i]).0 != members[at].0,
    ensures
        record_of(members).contains_key(members[at].0),
        record_of(members)[members[at].0] == members[at].1,
    decreases members.len(),
{
    if at < members.len() - 1 {
        let front = members.drop_last();
        assert forall|i: int| at < i < front.len() implies (#[trigger] front[i]).0
            != front[at].0 by {
            assert(front[i] == members[i]);
        }
        record_holds(front, at);
        assert(members[members.len() - 1].0 != members[at].0);
    }
}

/// Copies a document out of the form that another library parsed it into.
pub fn read<S: Source>(source: &S) -> (r: Data)
    ensures
        r@ == source.content(),
    decreases source.content(),
{
    let node = source.open();
    match node {
        Node::Null => Data::Null,
        Node::Bool(b) => Data::Bool(b),
        Node::Scalar(text, unsigned) => Data::Scalar(text, unsigned),
        Node::Text(text) => Data::Text(text.to_owned()),
        Node::List(items) => {
            let ghost parts = items@.map_values(|v: &S| v.content());
            assert(source.content()->List_0 =~= parts);
            let mut out: Vec<Data> = Vec::new();
            let mut i: usize = 0;
            while i < items.len()
                invariant
                    i <= items@.len(),
                    parts == items@.map_values(|v: &S| v.content()),
                    source.content() == DataView::List(parts),
                    out@.len() == i,
                    forall|j: int| 0 <= j < i ==> (#[trigger] out@[j])@ == parts[j],
                decreases items@.len() - i,
            {
                assert(parts[i as int] == items@[i as int].content());
                assert(decreases_to!(source.content() => source.content()->List_0));
                assert(decreases_to!(parts => parts[i as int]));
                let item = read(items[i]);
                out.push(item);
                i = i + 1;
            }
            let r = Data::List(out);
            assert(item_contents(out@) =~= parts);
            r
        },
        Node::Record(members) => {
            let ghost parts = members@.map_values(|m: (&str, &S)| (m.0@, m.1.content()));
            assert(members@.map_values(
                |m: (&str, &S)| (m.0@, (|v: S| v.content())(*m.1)),
            ) =~= parts);
            let mut out: Vec<(String, Data)> = Vec::new();
            let mut i: usize = 0;
            while i < members.len()
                invariant
                    i <= members@.len(),
                    parts == members@.map_values(|m: (&str, &S)| (m.0@, m.1.content())),
                    source.content() == DataView::Record(record_of(parts)),
                    forall|i: int, j: int|
                        0 <= i < j < members@.len() ==> (#[trigger] members@[i]).0@
                            != (#[trigger] members@[j]).0@,
                    out@.len() == i,
                    forall|j: int|
                        0 <= j < i ==> ((#[trigger] out@[j]).0@, out@[j].1@) == parts[j],
                decreases members@.len() - i,
            {
                proof {
                    let at: int = i as int;
                    assert forall|j: int| at < j < parts.len() implies (#[trigger] parts[j]).0
                        != parts[at].0 by {
                        assert(members@[at].0@ != members@[j].0@);
                    }
                    record_holds(parts, at);
                    record_is_finite(parts);
                    assert(decreases_to!(source.content() => source.content()->Record_0));
                    assert(decreases_to!(record_of(parts) => record_of(parts)[parts[at].0]));
                }
                let (name, part) = members[i];
                let member = read(part);
                out.push((name.to_owned(), member));
                i = i + 1;
            }
            let r = Data::Record(out);
            assert(member_contents(out@) =~= parts);
            r
        },
    }
}

/// A member is found exactly when the document is a record that holds it under
/// that name; no other kind of document has members.
pub proof fn members_are_looked_up(v: DataView, name: Seq<char>, part: DataView)
    ensures
        v.member(name) == Some(part) <==> (v matches DataView::Record(members)
            && members.contains_key(name) && members[name] == part),
        v.member(name) is None <==> (v matches DataView::Record(members)
            ==> !members.contains_key(name)),
{
}

/// What kind a value is, is never guessed at: a string is read from strings
/// only, and so on, and always as it stands.
pub proof fn kinds_are_told_apart(
    v: DataView,
    text: Seq<char>,
    truth: bool,
    unsigned: u64,
    items: Seq<DataView>,
)
    ensures
        v.text() == Some(text) <==> v == DataView::Text(text),
        v.text() is None <==> !(v is Text),
        v.truth() == Some(truth) <==> v == DataView::Bool(truth),
        v.truth() is None <==> !(v is Bool),
        v.unsigned() == Some(unsigned) <==> (v matches DataView::Scalar(_, n) && n == Some(
            unsigned,
        )),
        v.unsigned() is None <==> (v matches DataView::Scalar(_, n) ==> n is None),
        v.items() == Some(items) <==> v == DataView::List(items),
        v.items() is None <==> !(v is List),
{
}

/// A member of a kind is found exactly when there is a member of that name and
/// it is of that kind.
pub proof fn members_of_a_kind_are_looked_up(
    v: DataView,
    name: Seq<char>,
    text: Seq<char>,
    items: Seq<DataView>,
)
    ensures
        v.member_text(name) == Some(text) <==> v.member(name) == Some(DataView::Text(text)),
        v.member_text(name) is None <==> (v.member(name) matches Some(part) ==> !(part is Text)),
        v.member_items(name) == Some(items) <==> v.member(name) == Some(DataView::List(items)),
        v.member_items(name) is None <==> (v.member(name) matches Some(part) ==> !(part is List)),
{
}

/// A value means what it holds: a scalar itself, a list its items one by one,
/// and a record under each name the last member of that name.
pub proof fn values_mean_what_they_hold(v: Data)
    ensures
        match v {
            Data::Null => v@ == DataView::Null,
            Data::Bool(b) => v@ == DataView::Bool(b),
            Data::Scalar(text, unsigned) => v@ == DataView::Scalar(text@, unsigned),
            Data::Text(text) => v@ == DataView::Text(text@),
            Data::List(items) => v@ matches DataView::List(parts) && parts.len() == items@.len()
                && forall|i: int| 0 <= i < parts.len() ==> #[trigger] parts[i] == items@[i]@,
            Data::Record(members) => {
                &&& v@ is Record
                &&& forall|name: Seq<char>|
                    (forall|i: int| 0 <= i < members@.len() ==> (#[trigger] members@[i]).0@ != name)
                        ==> #[trigger] v@.member(name) is None
                &&& forall|i: int|
                    0 <= i < members@.len() && (forall|j: int|
                        i < j < members@.len() ==> (#[trigger] members@[j]).0@ != members@[i].0@)
                        ==> v@.member((#[trigger] members@[i]).0@) == Some(members@[i].1@)
            },
        },
{
    if let Data::Record(members) = v {
        let parts = member_contents(members@);
        assert(forall|i: int| 0 <= i < parts.len() ==> (#[trigger] parts[i]).0 == members@[i].0@);
        assert forall|name: Seq<char>|
            (forall|i: int| 0 <= i < members@.len() ==> (#[trigger] members@[i]).0@ != name)
            implies #[trigger] v@.member(name) is None by {
            record_lacks(parts, name);
        }
        assert forall|i: int|
            0 <= i < members@.len() && (forall|j: int|
                i < j < members@.len() ==> (#[trigger] members@[j]).0@ != members@[i].0@)
            implies v@.member((#[trigger] members@[i]).0@) == Some(members@[i].1@) by {
            assert(parts[i] == (members@[i].0@, members@[i].1@));
            record_holds(parts, i);
        }
    }
}

/// What may be missing is shown as missing exactly when it is, and else as it
/// is.
pub proof fn what_may_be_missing_is_shown(v: &Data, s: &str)
    ensures
        seen(Some(v)) == Some(v@),
        seen(None) is None,
        seen_text(Some(s)) == Some(s@),
        seen_text(None) is None,
{
}

}
