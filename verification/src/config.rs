//! Strongly-typed configuration loaded from `./prodder.toml`.
//!
//! All fields are optional in the file: missing fields fall back to the
//! defaults defined by [`Default`]. When [`Users`] is explicitly empty,
//! [`Users::resolve`] takes the login from the reply to `GET /user`, so that
//! PRodder targets the token's own user.
//!
//! Field names in [`Behaviors`] mirror the GitHub API nomenclature.
use vstd::prelude::*;
use vstd::string::*;

use crate::data::{Data, DataView, Parsed};
use crate::text::{chars_of, is_blank, same_text};
use crate::toml_text::{Entry, EntryView};

verus! {

/// Path of the config file, relative to the current working directory.
pub const CONFIG_PATH: &'static str = "prodder.toml";

/// Login of the dependabot GitHub App as it appears on PR author fields.
/// GitHub brackets bot logins with `[bot]`.
pub const DEPENDABOT_LOGIN: &'static str = "dependabot[bot]";

/// Top-level configuration.
#[derive(Debug, Clone, PartialEq, Eq)]
pub struct Config {
    pub users: Users,
    pub filter: Filter,
    pub behaviors: Behaviors,
}

/// Who to target.
///
/// * `Users(vec![])` means "derive from the PAT": the PAT owner's login is
///   resolved via `GET /user` at runtime.
/// * `Users(vec!["*".into()])` means "all users visible to the token".
/// * Any other list is an explicit allow-list.
///
/// The [`Default`] for this type is `["dependabot[bot]"]` so that out of the
/// box PRodder watches dependabot's automated PRs. Operators who want the PAT
/// owner only set `users = []` explicitly.
#[derive(Debug, Clone, PartialEq, Eq)]
pub struct Users(pub Vec<String>);

/// Filter expression passed to the GitHub issue search API.
///
/// Accepts the same syntax as the search bar at <https://github.com/pulls>. A
/// blank string means "use the default filter derived from the resolved
/// users".
#[derive(Debug, Clone, PartialEq, Eq)]
pub struct Filter(pub String);

/// Toggleable drafter behaviors.
///
/// Each field is named after the corresponding GitHub API concept and defaults
/// to `true`.
#[derive(Debug, Clone, PartialEq, Eq)]
pub struct Behaviors {
    /// Demote non-draft PRs whose `check_runs` or combined
    /// `required_status_checks` report failure.
    pub required_status_checks: bool,
    /// Demote PRs whose `mergeable_state` reports a conflict
    /// (`mergeable == false`).
    pub mergeable_state: bool,
    /// When a PR is `behind` base and otherwise clean, call
    /// `PUT /repos/{o}/{r}/pulls/{n}/update-branch` so CI re-runs.
    pub update_branch: bool,
}

/// A [`Config`] by the characters of its strings.
pub struct ConfigView {
    pub users: Seq<Seq<char>>,
    pub filter: Seq<char>,
    pub behaviors: Behaviors,
}

/// The characters of each string in a row.
pub open spec fn texts(strings: Seq<String>) -> Seq<Seq<char>> {
    strings.map_values(|s: String| s@)
}

impl View for Users {
    type V = Seq<Seq<char>>;

    open spec fn view(&self) -> Seq<Seq<char>> {
        texts(self.0@)
    }
}

impl View for Filter {
    type V = Seq<char>;

    open spec fn view(&self) -> Seq<char> {
        self.0@
    }
}

impl View for Config {
    type V = ConfigView;

    open spec fn view(&self) -> ConfigView {
        ConfigView { users: self.users@, filter: self.filter@, behaviors: self.behaviors }
    }
}

/// Every behavior is on unless it is switched off.
pub open spec fn default_behaviors() -> Behaviors {
    Behaviors { required_status_checks: true, mergeable_state: true, update_branch: true }
}

/// Dependabot is watched out of the box.
pub open spec fn default_users() -> Seq<Seq<char>> {
    seq![DEPENDABOT_LOGIN@]
}

/// The configuration of an operator who configures nothing.
pub open spec fn default_config() -> ConfigView {
    ConfigView {
        users: default_users(),
        filter: Seq::empty(),
        behaviors: default_behaviors(),
    }
}

impl Default for Users {
    fn default() -> (r: Self)
        ensures
            r@ == default_users(),
    {
        let mut names: Vec<String> = Vec::new();
        names.push(DEPENDABOT_LOGIN.to_owned());
        assert(texts(names@) =~= default_users());
        Users(names)
    }
}

impl Default for Filter {
    fn default() -> (r: Self)
        ensures
            r@ == Seq::<char>::empty(),
    {
        Filter(String::new())
    }
}

impl Default for Behaviors {
    fn default() -> (r: Self)
        ensures
            r == default_behaviors(),
    {
        Behaviors { required_status_checks: true, mergeable_state: true, update_branch: true }
    }
}

impl Default for Config {
    fn default() -> (r: Self)
        ensures
            r@ == default_config(),
    {
        Config {
            users: Users::default(),
            filter: Filter::default(),
            behaviors: Behaviors::default(),
        }
    }
}

/// A copy of a row of strings.
fn copy_strings(strings: &Vec<String>) -> (r: Vec<String>)
    ensures
        texts(r@) == texts(strings@),
{
    let mut out: Vec<String> = Vec::new();
    let mut i: usize = 0;
    while i < strings.len()
        invariant
            i <= strings@.len(),
            out@.len() == i,
            forall|j: int| 0 <= j < i ==> (#[trigger] out@[j])@ == strings@[j]@,
        decreases strings@.len() - i,
    {
        out.push(strings[i].clone());
        i = i + 1;
    }
    assert(texts(out@) =~= texts(strings@));
    out
}

/// Why no list of users could be resolved.
#[derive(Debug, PartialEq, Eq)]
pub enum ResolveError {
    /// `GET /user` failed, for the reason given.
    Request(String),
    /// The reply to `GET /user` is not JSON, for the reason given.
    Parse(String),
    /// The reply to `GET /user` has no `login`.
    MissingLogin,
}

/// A [`ResolveError`] by the characters of its reason.
pub enum ResolveErrorView {
    Request(Seq<char>),
    Parse(Seq<char>),
    MissingLogin,
}

impl View for ResolveError {
    type V = ResolveErrorView;

    open spec fn view(&self) -> ResolveErrorView {
        match self {
            ResolveError::Request(cause) => ResolveErrorView::Request(cause@),
            ResolveError::Parse(cause) => ResolveErrorView::Parse(cause@),
            ResolveError::MissingLogin => ResolveErrorView::MissingLogin,
        }
    }
}

impl ResolveErrorView {
    /// The error with everything that led to it.
    pub open spec fn chain(self) -> Seq<char> {
        match self {
            ResolveErrorView::Request(cause) => "resolving users from PAT via GET /user"@
                + ": GET /user: "@ + cause,
            ResolveErrorView::Parse(cause) => "resolving users from PAT via GET /user"@
                + ": parse /user: "@ + cause,
            ResolveErrorView::MissingLogin => "resolving users from PAT via GET /user"@
                + ": /user response missing `login`"@,
        }
    }
}

impl ResolveError {
    /// The error in words.
    pub fn message(&self) -> (r: String)
        ensures
            r@ == "resolving users from PAT via GET /user"@,
    {
        "resolving users from PAT via GET /user".to_owned()
    }

    /// The error with everything that led to it.
    pub fn chain(&self) -> (r: String)
        ensures
            r@ == self@.chain(),
    {
        let mut out = self.message();
        match self {
            ResolveError::Request(cause) => {
                out.append(": GET /user: ");
                out.append(cause.as_str());
            },
            ResolveError::Parse(cause) => {
                out.append(": parse /user: ");
                out.append(cause.as_str());
            },
            ResolveError::MissingLogin => {
                out.append(": /user response missing `login`");
            },
        }
        out
    }
}

/// The users that a list stands for, given the user whom the token belongs
/// to: the list itself, and that user's login where it is empty.
pub open spec fn resolved(users: Seq<Seq<char>>, user: DataView) -> Result<
    Seq<Seq<char>>,
    ResolveErrorView,
> {
    if users.len() > 0 {
        Ok(users)
    } else {
        match user.member_text("login"@) {
            Some(login) => Ok(seq![login]),
            None => Err(ResolveErrorView::MissingLogin),
        }
    }
}

/// The names or the error that a resolution comes to.
pub open spec fn resolution(r: Result<Vec<String>, ResolveError>) -> Result<
    Seq<Seq<char>>,
    ResolveErrorView,
> {
    match r {
        Ok(names) => Ok(texts(names@)),
        Err(e) => Err(e@),
    }
}

impl Users {
    /// Return true when the list is empty, i.e. the caller wants the PAT owner
    /// resolved from `GET /user`. This is **not** the same as
    /// [`Users::default`]: the default is `["dependabot[bot]"]`, an explicit
    /// non-empty list.
    pub fn is_empty(&self) -> (r: bool)
        ensures
            r == (self@.len() == 0),
    {
        self.0.len() == 0
    }

    /// Return true when the wildcard `"*"` is present.
    pub fn is_wildcard(&self) -> (r: bool)
        ensures
            r == self@.contains("*"@),
    {
        let mut i: usize = 0;
        while i < self.0.len()
            invariant
                i <= self.0@.len(),
                forall|j: int| 0 <= j < i ==> #[trigger] self@[j] != "*"@,
            decreases self.0@.len() - i,
        {
            assert(self@[i as int] == self.0@[i as int]@);
            if same_text(self.0[i].as_str(), "*") {
                return true;
            }
            i = i + 1;
        }
        false
    }

    /// Resolve the concrete list of usernames, given what GitHub says about
    /// the user whom the token belongs to.
    pub fn resolve_for(&self, user: &Data) -> (r: Result<Vec<String>, ResolveError>)
        ensures
            resolution(r) == resolved(self@, user@),
    {
        if !self.is_empty() {
            return Ok(copy_strings(&self.0));
        }
        match user.get_str("login") {
            Some(login) => {
                let mut names: Vec<String> = Vec::new();
                names.push(login.to_owned());
                assert(texts(names@) =~= seq![login@]);
                Ok(names)
            },
            None => Err(ResolveError::MissingLogin),
        }
    }

    /// Resolve the concrete list of usernames.
    ///
    /// When the list is empty, `reply` is the body of the reply to GitHub's
    /// `GET /user`, or why that request failed; the result is a single-element
    /// vector with the login in it.
    ///
    /// Any other list is returned unchanged, whatever `reply` is. The caller
    /// is expected to translate a wildcard into a GitHub-search query (e.g. by
    /// omitting the `author:` clause).
    pub fn resolve(&self, reply: &Result<Vec<u8>, String>) -> (r: Result<Vec<String>, ResolveError>)
        ensures
            self@.len() > 0 ==> resolution(r) == Ok::<Seq<Seq<char>>, ResolveErrorView>(self@),
            self@.len() == 0 ==> resolution(r) == (match reply {
                Err(cause) => Err(ResolveErrorView::Request(cause@)),
                Ok(body) => match crate::json::json_parse(body@) {
                    Parsed::Failed(cause) => Err(ResolveErrorView::Parse(cause)),
                    Parsed::Document(user) => resolved(self@, user),
                },
            }),
    {
        if !self.is_empty() {
            return Ok(copy_strings(&self.0));
        }
        match reply {
            Err(cause) => Err(ResolveError::Request(cause.clone())),
            Ok(body) => match crate::json::parse(body.as_slice()) {
                Err(e) => Err(ResolveError::Parse(e.0)),
                Ok(user) => self.resolve_for(&user),
            },
        }
    }
}

/// An `author:` clause for each user, in order; the wildcard has none.
pub open spec fn author_clauses(users: Seq<Seq<char>>) -> Seq<char>
    decreases users.len(),
{
    if users.len() == 0 {
        Seq::empty()
    } else if users.last() == "*"@ {
        author_clauses(users.drop_last())
    } else {
        author_clauses(users.drop_last()) + " author:"@ + users.last()
    }
}

/// The search query that a filter stands for.
pub open spec fn rendered(filter: Seq<char>, users: Seq<Seq<char>>) -> Seq<char> {
    if crate::text::blank(filter) {
        "is:pr is:open"@ + author_clauses(users)
    } else {
        filter
    }
}

impl Filter {
    /// Render the filter used for the `/search/issues` call. When unset,
    /// produce `is:pr is:open author:<u1> author:<u2> ...`.
    pub fn render(&self, users: &[String]) -> (r: String)
        ensures
            r@ == rendered(self@, texts(users@)),
    {
        if !is_blank(self.0.as_str()) {
            return self.0.clone();
        }
        let ghost names = texts(users@);
        let mut out = "is:pr is:open".to_owned();
        let mut i: usize = 0;
        assert(out@ =~= "is:pr is:open"@ + author_clauses(names.take(0)));
        while i < users.len()
            invariant
                i <= users@.len(),
                names == texts(users@),
                out@ == "is:pr is:open"@ + author_clauses(names.take(i as int)),
            decreases users@.len() - i,
        {
            proof {
                let next = names.take(i + 1);
                assert(next.drop_last() =~= names.take(i as int));
                assert(next.last() == users@[i as int]@);
            }
            if !same_text(users[i].as_str(), "*") {
                out.append(" author:");
                out.append(users[i].as_str());
                assert(out@ =~= "is:pr is:open"@ + (author_clauses(names.take(i as int))
                    + " author:"@ + users@[i as int]@));
            }
            i = i + 1;
        }
        assert(names.take(i as int) =~= names);
        out
    }
}

/// What a toggle is set to: on where the file does not say, and nothing where
/// what it says is no truth value.
pub open spec fn toggle(v: Option<DataView>) -> Option<bool> {
    match v {
        Some(v) => v.truth(),
        None => Some(true),
    }
}

/// Are the members of a record named by these three names only?
pub open spec fn only_named(
    v: DataView,
    a: Seq<char>,
    b: Seq<char>,
    c: Seq<char>,
) -> bool {
    v matches DataView::Record(members) && forall|name: Seq<char>| #[trigger]
        members.contains_key(name) ==> name == a || name == b || name == c
}

/// The item of a list at a position, if there is one.
pub open spec fn item_at(items: Seq<DataView>, i: int) -> Option<DataView> {
    if 0 <= i < items.len() {
        Some(items[i])
    } else {
        None
    }
}

/// The behaviors that three toggles make.
pub open spec fn behaviors_from(
    required_status_checks: Option<DataView>,
    mergeable_state: Option<DataView>,
    update_branch: Option<DataView>,
) -> Option<Behaviors> {
    match (toggle(required_status_checks), toggle(mergeable_state), toggle(update_branch)) {
        (Some(a), Some(b), Some(c)) => Some(
            Behaviors { required_status_checks: a, mergeable_state: b, update_branch: c },
        ),
        _ => None,
    }
}

/// What the file says of `behaviors`: a table in which nothing but the three
/// toggles occurs, or an array that gives them in order.
pub open spec fn behaviors_of(v: Option<DataView>) -> Option<Behaviors> {
    match v {
        None => Some(default_behaviors()),
        Some(DataView::List(items)) => behaviors_from(
            item_at(items, 0),
            item_at(items, 1),
            item_at(items, 2),
        ),
        Some(table) => if only_named(
            table,
            "required_status_checks"@,
            "mergeable_state"@,
            "update_branch"@,
        ) {
            behaviors_from(
                table.member("required_status_checks"@),
                table.member("mergeable_state"@),
                table.member("update_branch"@),
            )
        } else {
            None
        },
    }
}

/// What the file says of `users`: an array of strings.
pub open spec fn users_of(v: Option<DataView>) -> Option<Seq<Seq<char>>> {
    match v {
        None => Some(default_users()),
        Some(DataView::List(items)) => if forall|i: int|
            0 <= i < items.len() ==> (#[trigger] items[i]).text() is Some {
            Some(items.map_values(|item: DataView| item.text()->0))
        } else {
            None
        },
        Some(_) => None,
    }
}

/// What the file says of `filter`: a string.
pub open spec fn filter_of(v: Option<DataView>) -> Option<Seq<char>> {
    match v {
        None => Some(Seq::empty()),
        Some(v) => v.text(),
    }
}

/// The configuration that a file's content is; nothing where it is none.
/// Missing fields take their defaults, and unknown ones are not accepted.
pub open spec fn config_of(v: DataView) -> Option<ConfigView> {
    if !only_named(v, "users"@, "filter"@, "behaviors"@) {
        None
    } else {
        match (
            users_of(v.member("users"@)),
            filter_of(v.member("filter"@)),
            behaviors_of(v.member("behaviors"@)),
        ) {
            (Some(users), Some(filter), Some(behaviors)) => Some(
                ConfigView { users, filter, behaviors },
            ),
            _ => None,
        }
    }
}

/// Why a text is no configuration.
#[derive(Debug, PartialEq, Eq)]
pub enum NotConfig {
    /// It is not TOML, for the reason given.
    Syntax(String),
    /// It is TOML, but holds what a configuration does not have.
    Shape,
}

/// A [`NotConfig`] by the characters of its reason.
pub enum NotConfigView {
    Syntax(Seq<char>),
    Shape,
}

impl View for NotConfig {
    type V = NotConfigView;

    open spec fn view(&self) -> NotConfigView {
        match self {
            NotConfig::Syntax(cause) => NotConfigView::Syntax(cause@),
            NotConfig::Shape => NotConfigView::Shape,
        }
    }
}

/// Reads a toggle.
fn read_toggle(v: Option<&Data>) -> (r: Option<bool>)
    ensures
        r == toggle(crate::data::seen(v)),
{
    match v {
        Some(v) => v.as_bool(),
        None => Some(true),
    }
}

/// Are the members of a record named by these three names only?
fn is_only_named(v: &Data, a: &str, b: &str, c: &str) -> (r: bool)
    ensures
        r == only_named(v@, a@, b@, c@),
{
    match v {
        Data::Record(members) => {
            let ghost parts = crate::data::member_contents(members@);
            let mut i: usize = 0;
            while i < members.len()
                invariant
                    i <= members@.len(),
                    parts == crate::data::member_contents(members@),
                    v@ == DataView::Record(crate::data::record_of(parts)),
                    forall|j: int|
                        0 <= j < i ==> (#[trigger] parts[j]).0 == a@ || parts[j].0 == b@
                            || parts[j].0 == c@,
                decreases members@.len() - i,
            {
                let name = members[i].0.as_str();
                assert(parts[i as int].0 == name@);
                if !same_text(name, a) && !same_text(name, b) && !same_text(name, c) {
                    proof {
                        crate::data::record_names(parts, i as int);
                        assert(v@->Record_0.contains_key(name@));
                    }
                    return false;
                }
                i = i + 1;
            }
            proof {
                let all = crate::data::record_of(parts);
                assert forall|name: Seq<char>| #[trigger] all.contains_key(name) implies name == a@
                    || name == b@ || name == c@ by {
                    if name != a@ && name != b@ && name != c@ {
                        crate::data::record_lacks(parts, name);
                    }
                }
            }
            true
        },
        _ => false,
    }
}

impl Behaviors {
    /// Puts three toggles together.
    fn from_toggles(
        required_status_checks: Option<&Data>,
        mergeable_state: Option<&Data>,
        update_branch: Option<&Data>,
    ) -> (r: Option<Self>)
        ensures
            r == behaviors_from(
                crate::data::seen(required_status_checks),
                crate::data::seen(mergeable_state),
                crate::data::seen(update_branch),
            ),
    {
        match (
            read_toggle(required_status_checks),
            read_toggle(mergeable_state),
            read_toggle(update_branch),
        ) {
            (Some(a), Some(b), Some(c)) => Some(
                Behaviors { required_status_checks: a, mergeable_state: b, update_branch: c },
            ),
            _ => None,
        }
    }

    /// Reads what the file says of `behaviors`.
    fn from_data(v: Option<&Data>) -> (r: Option<Self>)
        ensures
            r == behaviors_of(crate::data::seen(v)),
    {
        match v {
            None => Some(Behaviors::default()),
            Some(Data::List(items)) => {
                assert(v->0@ == DataView::List(crate::data::item_contents(items@)));
                Behaviors::from_toggles(
                    if 0 < items.len() {
                        Some(&items[0])
                    } else {
                        None
                    },
                    if 1 < items.len() {
                        Some(&items[1])
                    } else {
                        None
                    },
                    if 2 < items.len() {
                        Some(&items[2])
                    } else {
                        None
                    },
                )
            },
            Some(table) => {
                if is_only_named(
                    table,
                    "required_status_checks",
                    "mergeable_state",
                    "update_branch",
                ) {
                    Behaviors::from_toggles(
                        table.get("required_status_checks"),
                        table.get("mergeable_state"),
                        table.get("update_branch"),
                    )
                } else {
                    None
                }
            },
        }
    }
}

impl Users {
    /// Reads what the file says of `users`.
    fn from_data(v: Option<&Data>) -> (r: Option<Self>)
        ensures
            match r {
                Some(users) => users_of(crate::data::seen(v)) == Some(users@),
                None => users_of(crate::data::seen(v)) is None,
            },
    {
        let items = match v {
            None => {
                return Some(Users::default());
            },
            Some(Data::List(items)) => items,
            Some(_) => {
                return None;
            },
        };
        let ghost parts = crate::data::item_contents(items@);
        let mut names: Vec<String> = Vec::new();
        let mut i: usize = 0;
        while i < items.len()
            invariant
                i <= items@.len(),
                parts == crate::data::item_contents(items@),
                crate::data::seen(v) == Some(DataView::List(parts)),
                names@.len() == i,
                forall|j: int|
                    0 <= j < i ==> (#[trigger] parts[j]).text() == Some((names@[j])@),
            decreases items@.len() - i,
        {
            assert(parts[i as int] == items@[i as int]@);
            match items[i].as_str() {
                Some(name) => {
                    names.push(name.to_owned());
                },
                None => {
                    return None;
                },
            }
            i = i + 1;
        }
        assert(texts(names@) =~= parts.map_values(
            |item: DataView| item.text()->0,
        ));
        Some(Users(names))
    }
}

impl Filter {
    /// Reads what the file says of `filter`.
    fn from_data(v: Option<&Data>) -> (r: Option<Self>)
        ensures
            match r {
                Some(filter) => filter_of(crate::data::seen(v)) == Some(filter@),
                None => filter_of(crate::data::seen(v)) is None,
            },
    {
        match v {
            None => Some(Filter::default()),
            Some(v) => match v.as_str() {
                Some(text) => Some(Filter(text.to_owned())),
                None => None,
            },
        }
    }
}

impl Config {
    /// The configuration that a file's content is.
    pub fn from_data(v: &Data) -> (r: Result<Self, NotConfig>)
        ensures
            match r {
                Ok(config) => config_of(v@) == Some(config@),
                Err(e) => config_of(v@) is None && e@ is Shape,
            },
    {
        if !is_only_named(v, "users", "filter", "behaviors") {
            return Err(NotConfig::Shape);
        }
        match (
            Users::from_data(v.get("users")),
            Filter::from_data(v.get("filter")),
            Behaviors::from_data(v.get("behaviors")),
        ) {
            (Some(users), Some(filter), Some(behaviors)) => Ok(
                Config { users, filter, behaviors },
            ),
            _ => Err(NotConfig::Shape),
        }
    }

    /// Reads a configuration from TOML.
    pub fn from_toml(text: &str) -> (r: Result<Self, NotConfig>)
        ensures
            match r {
                Ok(config) => config_in(text@) == Ok::<ConfigView, NotConfigView>(config@),
                Err(e) => config_in(text@) == Err::<ConfigView, NotConfigView>(e@),
            },
    {
        match crate::toml_text::parse(text) {
            Ok(v) => Config::from_data(&v),
            Err(e) => Err(NotConfig::Syntax(e.0)),
        }
    }
}

/// A configuration as the entries of a file, every field given, in the order
/// in which the fields are declared.
pub open spec fn config_table(c: ConfigView) -> Seq<(Seq<char>, EntryView)> {
    seq![
        ("users"@, EntryView::Texts(c.users)),
        ("filter"@, EntryView::Text(c.filter)),
        (
            "behaviors"@,
            EntryView::Toggles(
                seq![
                    ("required_status_checks"@, c.behaviors.required_status_checks),
                    ("mergeable_state"@, c.behaviors.mergeable_state),
                    ("update_branch"@, c.behaviors.update_branch),
                ],
            ),
        ),
    ]
}

/// The names of the fields all differ.
proof fn names_differ()
    ensures
        "users"@ != "filter"@,
        "users"@ != "behaviors"@,
        "filter"@ != "behaviors"@,
        "required_status_checks"@ != "mergeable_state"@,
        "required_status_checks"@ != "update_branch"@,
        "mergeable_state"@ != "update_branch"@,
{
    reveal_strlit("users");
    reveal_strlit("filter");
    reveal_strlit("behaviors");
    reveal_strlit("required_status_checks");
    reveal_strlit("mergeable_state");
    reveal_strlit("update_branch");
    assert("users"@.len() == 5 && "filter"@.len() == 6 && "behaviors"@.len() == 9);
    assert("required_status_checks"@.len() == 22);
    assert("mergeable_state"@.len() == 15 && "update_branch"@.len() == 13);
}

/// A configuration that is written down with every field given reads back as
/// itself.
pub proof fn config_reads_back(c: ConfigView)
    ensures
        config_of(crate::toml_text::table_content(config_table(c))) == Some(c),
{
    names_differ();
    reveal_with_fuel(crate::data::record_of, 4);
    let entries = config_table(c);
    let toggles = entries[2].1->Toggles_0;
    let v = crate::toml_text::table_content(entries);
    let users = entries[0].1.content();
    let table = entries[2].1.content();
    let inner = toggles.map_values(|t: (Seq<char>, bool)| (t.0, DataView::Bool(t.1)));
    assert(crate::data::record_of(inner) =~= map![
        "required_status_checks"@ => DataView::Bool(c.behaviors.required_status_checks),
        "mergeable_state"@ => DataView::Bool(c.behaviors.mergeable_state),
        "update_branch"@ => DataView::Bool(c.behaviors.update_branch),
    ]);
    let outer = entries.map_values(|e: (Seq<char>, EntryView)| (e.0, e.1.content()));
    assert(crate::data::record_of(outer) =~= map![
        "users"@ => users,
        "filter"@ => DataView::Text(c.filter),
        "behaviors"@ => table,
    ]);
    assert(v.member("users"@) == Some(users));
    assert(v.member("filter"@) == Some(DataView::Text(c.filter)));
    assert(v.member("behaviors"@) == Some(table));
    assert(users->List_0.map_values(|item: DataView| item.text()->0) =~= c.users);
    assert(table.member("required_status_checks"@) == Some(
        DataView::Bool(c.behaviors.required_status_checks),
    ));
    assert(table.member("mergeable_state"@) == Some(DataView::Bool(c.behaviors.mergeable_state)));
    assert(table.member("update_branch"@) == Some(DataView::Bool(c.behaviors.update_branch)));
}

impl Config {
    /// Writes the configuration as TOML, from which [`Config::from_toml`]
    /// reads it back, its fields in the order in which they are declared.
    pub fn to_toml(&self) -> (r: String)
        ensures
            r@ == crate::toml_text::toml_print(config_table(self@)),
            config_in(r@) == Ok::<ConfigView, NotConfigView>(self@),
    {
        let mut toggles: Vec<(String, bool)> = Vec::new();
        toggles.push(
            ("required_status_checks".to_owned(), self.behaviors.required_status_checks),
        );
        toggles.push(("mergeable_state".to_owned(), self.behaviors.mergeable_state));
        toggles.push(("update_branch".to_owned(), self.behaviors.update_branch));
        let mut entries: Vec<(String, Entry)> = Vec::new();
        entries.push(("users".to_owned(), Entry::Texts(copy_strings(&self.users.0))));
        entries.push(("filter".to_owned(), Entry::Text(self.filter.0.clone())));
        entries.push(("behaviors".to_owned(), Entry::Toggles(toggles)));
        proof {
            let want = config_table(self@);
            let got = crate::toml_text::entry_views(entries@);
            assert(got[0].1->Texts_0 =~= self@.users);
            assert(got[2].1->Toggles_0 =~= want[2].1->Toggles_0);
            assert(got =~= want);
            config_reads_back(self@);
        }
        crate::toml_text::print(entries)
    }
}

/// How reading the config file went.
#[derive(Debug, Clone, PartialEq, Eq)]
pub enum FileRead {
    /// The file holds this text. `complaint` is what the deserializer of
    /// whoever read it says where the text is TOML but no configuration; it is
    /// not looked at otherwise.
    Contents { text: String, complaint: String },
    /// There is no such file.
    NotFound,
    /// There is such a file, but it could not be read as text, for the reason
    /// given.
    Failed(String),
}

/// Why no configuration could be loaded: the path of the file, and the reason.
#[derive(Debug, PartialEq, Eq)]
pub enum ConfigError {
    /// The file could not be read.
    Reading(String, String),
    /// The file holds no configuration.
    Parsing(String, String),
}

/// A [`ConfigError`] by the characters of its texts.
pub enum ConfigErrorView {
    Reading(Seq<char>, Seq<char>),
    Parsing(Seq<char>, Seq<char>),
}

impl View for ConfigError {
    type V = ConfigErrorView;

    open spec fn view(&self) -> ConfigErrorView {
        match self {
            ConfigError::Reading(path, cause) => ConfigErrorView::Reading(path@, cause@),
            ConfigError::Parsing(path, cause) => ConfigErrorView::Parsing(path@, cause@),
        }
    }
}

impl ConfigErrorView {
    /// The error in words.
    pub open spec fn words(self) -> Seq<char> {
        match self {
            ConfigErrorView::Reading(path, _) => "reading "@ + path,
            ConfigErrorView::Parsing(path, _) => "parsing "@ + path,
        }
    }

    /// The error with everything that led to it.
    pub open spec fn chain(self) -> Seq<char> {
        match self {
            ConfigErrorView::Reading(_, cause) => self.words() + ": "@ + cause,
            ConfigErrorView::Parsing(_, cause) => self.words() + ": "@ + cause,
        }
    }
}

impl ConfigError {
    /// The error in words.
    pub fn message(&self) -> (r: String)
        ensures
            r@ == self@.words(),
    {
        match self {
            ConfigError::Reading(path, _) => {
                let mut out = "reading ".to_owned();
                out.append(path.as_str());
                out
            },
            ConfigError::Parsing(path, _) => {
                let mut out = "parsing ".to_owned();
                out.append(path.as_str());
                out
            },
        }
    }

    /// The error with everything that led to it.
    pub fn chain(&self) -> (r: String)
        ensures
            r@ == self@.chain(),
    {
        let mut out = self.message();
        match self {
            ConfigError::Reading(_, cause) | ConfigError::Parsing(_, cause) => {
                out.append(": ");
                out.append(cause.as_str());
            },
        }
        out
    }
}

/// The configuration that a text holds, or why it holds none.
pub open spec fn config_in(text: Seq<char>) -> Result<ConfigView, NotConfigView> {
    match crate::toml_text::toml_parse(text) {
        Parsed::Document(v) => match config_of(v) {
            Some(config) => Ok(config),
            None => Err(NotConfigView::Shape),
        },
        Parsed::Failed(cause) => Err(NotConfigView::Syntax(cause)),
    }
}

/// What loading comes to: the defaults where there is no file, and the words
/// of the parser or of the deserializer where the file holds no configuration.
pub open spec fn loaded(path: Seq<char>, read: FileRead) -> Result<ConfigView, ConfigErrorView> {
    match read {
        FileRead::NotFound => Ok(default_config()),
        FileRead::Failed(cause) => Err(ConfigErrorView::Reading(path, cause@)),
        FileRead::Contents { text, complaint } => match config_in(text@) {
            Ok(config) => Ok(config),
            Err(NotConfigView::Syntax(cause)) => Err(ConfigErrorView::Parsing(path, cause)),
            Err(NotConfigView::Shape) => Err(ConfigErrorView::Parsing(path, complaint@)),
        },
    }
}

/// The configuration or the error that loading came to.
pub open spec fn load_outcome(r: Result<Config, ConfigError>) -> Result<
    ConfigView,
    ConfigErrorView,
> {
    match r {
        Ok(config) => Ok(config@),
        Err(e) => Err(e@),
    }
}

/// The path of the config file below a directory.
pub open spec fn config_path_in(directory: Seq<char>) -> Seq<char> {
    if directory.len() == 0 || directory.last() == '/' {
        directory + CONFIG_PATH@
    } else {
        directory + "/"@ + CONFIG_PATH@
    }
}

impl Config {
    /// Load the config from [`CONFIG_PATH`] in the current working directory,
    /// given how reading that file went. When the file does not exist, return
    /// [`Default`].
    pub fn load(read: FileRead) -> (r: Result<Self, ConfigError>)
        ensures
            load_outcome(r) == loaded(CONFIG_PATH@, read),
    {
        Config::load_from(CONFIG_PATH, read)
    }

    /// Load from an explicit path, given how reading that file went. Missing
    /// file: defaults.
    pub fn load_from(path: &str, read: FileRead) -> (r: Result<Self, ConfigError>)
        ensures
            load_outcome(r) == loaded(path@, read),
    {
        match read {
            FileRead::NotFound => Ok(Config::default()),
            FileRead::Failed(cause) => Err(ConfigError::Reading(path.to_owned(), cause)),
            FileRead::Contents { text, complaint } => match Config::from_toml(text.as_str()) {
                Ok(config) => Ok(config),
                Err(NotConfig::Syntax(cause)) => Err(ConfigError::Parsing(path.to_owned(), cause)),
                Err(NotConfig::Shape) => Err(ConfigError::Parsing(path.to_owned(), complaint)),
            },
        }
    }

    /// Absolute path where [`Self::load`] would look when the current working
    /// directory is `current_dir`.
    pub fn default_path(current_dir: &str) -> (r: String)
        ensures
            r@ == config_path_in(current_dir@),
    {
        let mut out = current_dir.to_owned();
        let chars = chars_of(current_dir);
        if chars.len() > 0 && chars[chars.len() - 1] != '/' {
            out.append("/");
        }
        out.append(CONFIG_PATH);
        out
    }
}

/// An empty file is as good as none: every field has its default.
pub proof fn empty_config_is_default(v: DataView)
    requires
        v == DataView::Record(Map::empty()),
    ensures
        config_of(v) == Some(default_config()),
{
}

/// A field that no configuration has makes the whole file unacceptable,
/// whatever else it holds.
pub proof fn unknown_field_is_rejected(
    members: Map<Seq<char>, DataView>,
    name: Seq<char>,
)
    requires
        members.contains_key(name),
        name != "users"@,
        name != "filter"@,
        name != "behaviors"@,
    ensures
        config_of(DataView::Record(members)) is None,
{
}

/// A field that is left out takes its default and leaves the other fields as
/// they are.
pub proof fn missing_field_takes_its_default(
    members: Map<Seq<char>, DataView>,
    name: Seq<char>,
)
    requires
        config_of(DataView::Record(members)) is Some,
    ensures
        ({
            let full = config_of(DataView::Record(members))->0;
            let cut = config_of(DataView::Record(members.remove(name)));
            cut == Some(
                ConfigView {
                    users: if name == "users"@ {
                        default_users()
                    } else {
                        full.users
                    },
                    filter: if name == "filter"@ {
                        Seq::empty()
                    } else {
                        full.filter
                    },
                    behaviors: if name == "behaviors"@ {
                        default_behaviors()
                    } else {
                        full.behaviors
                    },
                },
            )
        }),
{
    names_differ();
    let all = DataView::Record(members);
    let cut = DataView::Record(members.remove(name));
    assert forall|key: Seq<char>| #[trigger] members.remove(name).contains_key(key) implies key
        == "users"@ || key == "filter"@ || key == "behaviors"@ by {
        assert(members.contains_key(key));
    }
    assert(forall|key: Seq<char>| key != name ==> #[trigger] cut.member(key) == all.member(key));
    assert(cut.member(name) is None);
    assert(cut.member("users"@) == if name == "users"@ { None } else { all.member("users"@) });
    assert(cut.member("filter"@) == if name == "filter"@ { None } else { all.member("filter"@) });
    assert(cut.member("behaviors"@) == if name == "behaviors"@ { None } else {
        all.member("behaviors"@)
    });
}

/// A filter that is set is passed through as it is: whom it is rendered for
/// makes no difference.
pub proof fn set_filter_is_passed_through(filter: Seq<char>, users: Seq<Seq<char>>)
    requires
        !crate::text::blank(filter),
    ensures
        rendered(filter, users) == filter,
{
}

/// Author clauses come user by user, in order.
proof fn author_clauses_add(a: Seq<Seq<char>>, b: Seq<Seq<char>>)
    ensures
        author_clauses(a + b) == author_clauses(a) + author_clauses(b),
    decreases b.len(),
{
    if b.len() == 0 {
        assert(a + b =~= a);
        assert(author_clauses(a) + author_clauses(b) =~= author_clauses(a));
    } else {
        author_clauses_add(a, b.drop_last());
        assert((a + b).drop_last() =~= a + b.drop_last());
        assert(author_clauses(a + b) =~= author_clauses(a) + author_clauses(b));
    }
}

/// The wildcard never becomes an `author:` clause: with it and without it the
/// same query comes out.
pub proof fn wildcard_adds_no_author(
    filter: Seq<char>,
    before: Seq<Seq<char>>,
    after: Seq<Seq<char>>,
)
    ensures
        rendered(filter, before + seq!["*"@] + after) == rendered(filter, before + after),
{
    author_clauses_add(before + seq!["*"@], after);
    author_clauses_add(before, seq!["*"@]);
    author_clauses_add(before, after);
    reveal_with_fuel(author_clauses, 2);
    assert(seq!["*"@].drop_last() =~= Seq::<Seq<char>>::empty());
    assert(author_clauses(seq!["*"@]) =~= Seq::<char>::empty());
    assert(author_clauses(before) + author_clauses(seq!["*"@]) =~= author_clauses(before));
}

/// Where the filter is not set, every user but the wildcard becomes an
/// `author:` clause, in the place that the user has in the list.
pub proof fn every_user_is_an_author(
    filter: Seq<char>,
    before: Seq<Seq<char>>,
    user: Seq<char>,
    after: Seq<Seq<char>>,
)
    requires
        crate::text::blank(filter),
        user != "*"@,
    ensures
        rendered(filter, before + seq![user] + after) == "is:pr is:open"@ + author_clauses(before)
            + " author:"@ + user + author_clauses(after),
{
    author_clauses_add(before + seq![user], after);
    author_clauses_add(before, seq![user]);
    reveal_with_fuel(author_clauses, 2);
    assert(seq![user].drop_last() =~= Seq::<Seq<char>>::empty());
    assert(author_clauses(seq![user]) =~= " author:"@ + user);
    assert(rendered(filter, before + seq![user] + after) =~= "is:pr is:open"@ + author_clauses(
        before,
    ) + " author:"@ + user + author_clauses(after));
}

/// A list that names someone is resolved without asking GitHub: it stays as
/// it is, wildcard or not, whoever owns the token. The default is such a list.
pub proof fn named_users_stay(users: Seq<Seq<char>>, user: DataView)
    ensures
        users.len() > 0 ==> resolved(users, user) == Ok::<Seq<Seq<char>>, ResolveErrorView>(users),
        default_users().len() > 0 && default_users().contains(DEPENDABOT_LOGIN@),
{
    assert(default_users()[0] == DEPENDABOT_LOGIN@);
}

/// Toggle by toggle: a table that holds truth values under the names of the
/// three toggles and nothing else is accepted; each toggle that it gives has
/// the value given and each that it leaves out is on, whatever the other two
/// are. Every other table is refused.
pub proof fn toggles_are_independent(members: Map<Seq<char>, DataView>)
    ensures
        ({
            let accepted = forall|name: Seq<char>| #[trigger]
                members.contains_key(name) ==> (name == "required_status_checks"@ || name
                    == "mergeable_state"@ || name == "update_branch"@) && members[name] is Bool;
            &&& behaviors_of(Some(DataView::Record(members))) is Some <==> accepted
            &&& behaviors_of(Some(DataView::Record(members))) matches Some(b) ==> {
                &&& b.required_status_checks <==> (members.contains_key("required_status_checks"@)
                    ==> members["required_status_checks"@] == DataView::Bool(true))
                &&& b.mergeable_state <==> (members.contains_key("mergeable_state"@)
                    ==> members["mergeable_state"@] == DataView::Bool(true))
                &&& b.update_branch <==> (members.contains_key("update_branch"@)
                    ==> members["update_branch"@] == DataView::Bool(true))
            }
        }),
{
    let v = DataView::Record(members);
    let accepted = forall|name: Seq<char>| #[trigger]
        members.contains_key(name) ==> (name == "required_status_checks"@ || name
            == "mergeable_state"@ || name == "update_branch"@) && members[name] is Bool;
    assert(v.member("required_status_checks"@) is Some <==> members.contains_key(
        "required_status_checks"@,
    ));
    assert(v.member("mergeable_state"@) is Some <==> members.contains_key("mergeable_state"@));
    assert(v.member("update_branch"@) is Some <==> members.contains_key("update_branch"@));
    if behaviors_of(Some(v)) is Some {
        assert forall|name: Seq<char>| #[trigger] members.contains_key(name) implies (name
            == "required_status_checks"@ || name == "mergeable_state"@ || name == "update_branch"@)
            && members[name] is Bool by {}
    }
}

/// Toggles may be given in order: the first items of an array, which are truth
/// values, are the three toggles, those that are missing are on, and items
/// after the third are not looked at. Nothing but a table or an array is
/// accepted, and where nothing is given every toggle is on.
pub proof fn toggles_may_come_in_order(items: Seq<DataView>, other: DataView)
    ensures
        ({
            let accepted = forall|i: int|
                0 <= i < items.len() && i < 3 ==> (#[trigger] items[i]) is Bool;
            &&& behaviors_of(Some(DataView::List(items))) is Some <==> accepted
            &&& behaviors_of(Some(DataView::List(items))) matches Some(b)
                ==> b.required_status_checks == (items.len() > 0 ==> items[0] == DataView::Bool(
                true,
            )) && b.mergeable_state == (items.len() > 1 ==> items[1] == DataView::Bool(true))
                && b.update_branch == (items.len() > 2 ==> items[2] == DataView::Bool(true))
        }),
        !(other is Record) && !(other is List) ==> behaviors_of(Some(other)) is None,
        behaviors_of(None) == Some(
            Behaviors { required_status_checks: true, mergeable_state: true, update_branch: true },
        ),
{
    if behaviors_of(Some(DataView::List(items))) is Some {
        assert forall|i: int| 0 <= i < items.len() && i < 3 implies (#[trigger] items[i])
            is Bool by {
            assert(item_at(items, i) == Some(items[i]));
            assert(i == 0 || i == 1 || i == 2);
        }
    }
}

/// A file is a configuration exactly when it holds nothing but the three
/// fields, its users are strings, its filter is a string and its behaviors are
/// toggles; and field by field the configuration is what the file gives, or the
/// default where it gives nothing.
pub proof fn config_is_read_field_by_field(members: Map<Seq<char>, DataView>, c: ConfigView)
    ensures
        config_of(DataView::Record(members)) == Some(c) <==> {
            &&& forall|name: Seq<char>| #[trigger]
                members.contains_key(name) ==> name == "users"@ || name == "filter"@ || name
                    == "behaviors"@
            &&& if members.contains_key("users"@) {
                members["users"@] == DataView::List(
                    c.users.map_values(|name: Seq<char>| DataView::Text(name)),
                )
            } else {
                c.users == seq!["dependabot[bot]"@]
            }
            &&& if members.contains_key("filter"@) {
                members["filter"@] == DataView::Text(c.filter)
            } else {
                c.filter == Seq::<char>::empty()
            }
            &&& if members.contains_key("behaviors"@) {
                behaviors_of(Some(members["behaviors"@])) == Some(c.behaviors)
            } else {
                c.behaviors.required_status_checks && c.behaviors.mergeable_state
                    && c.behaviors.update_branch
            }
        },
{
    let v = DataView::Record(members);
    if members.contains_key("users"@) {
        let given = members["users"@];
        if let DataView::List(items) = given {
            let texts = c.users.map_values(|name: Seq<char>| DataView::Text(name));
            let names = items.map_values(|item: DataView| item.text()->0);
            if items == texts {
                assert forall|i: int| 0 <= i < items.len() implies (#[trigger] items[i]).text()
                    is Some by {
                    assert(items[i] == texts[i]);
                }
                assert(names =~= c.users);
            }
            if (forall|i: int| 0 <= i < items.len() ==> (#[trigger] items[i]).text() is Some)
                && names == c.users {
                assert forall|i: int| 0 <= i < items.len() implies items[i]
                    == #[trigger] texts[i] by {
                    assert(items[i].text() is Some);
                    assert(names[i] == items[i].text()->0);
                }
                assert(items =~= texts);
            }
        }
    }
    assert(default_users() =~= seq!["dependabot[bot]"@]);
}

/// Only a table is a configuration.
pub proof fn only_a_table_is_a_config(v: DataView)
    requires
        !(v is Record),
    ensures
        config_of(v) is None,
{
}

/// What an operator gets who configures nothing: dependabot, no filter, and
/// everything on.
pub proof fn defaults_are_spelled_out()
    ensures
        default_config().users == seq!["dependabot[bot]"@],
        default_config().filter == Seq::<char>::empty(),
        default_config().behaviors == (Behaviors {
            required_status_checks: true,
            mergeable_state: true,
            update_branch: true,
        }),
{
}

/// The search of a filter that is not set, user by user: it starts as
/// `is:pr is:open`, each user adds an author clause at the end, and the
/// wildcard adds nothing.
pub proof fn search_grows_by_a_user(filter: Seq<char>, users: Seq<Seq<char>>, user: Seq<char>)
    ensures
        ({
            let unset = forall|i: int|
                0 <= i < filter.len() ==> crate::text::white_space(#[trigger] filter[i]);
            &&& unset ==> rendered(filter, Seq::empty()) == "is:pr is:open"@
            &&& unset && user != "*"@ ==> rendered(filter, users.push(user)) == rendered(
                filter,
                users,
            ) + " author:"@ + user
            &&& unset && user == "*"@ ==> rendered(filter, users.push(user)) == rendered(
                filter,
                users,
            )
            &&& !unset ==> rendered(filter, users) == filter
        }),
{
    assert(users.push(user).drop_last() =~= users);
    assert("is:pr is:open"@ + author_clauses(Seq::empty()) =~= "is:pr is:open"@);
    assert("is:pr is:open"@ + (author_clauses(users) + " author:"@ + user) =~= "is:pr is:open"@
        + author_clauses(users) + " author:"@ + user);
}

/// The users of an empty list are the token's owner alone, by the string that
/// GitHub gives as `login`; where it gives none, that is the error. A list that
/// is not empty stays as it is.
pub proof fn empty_list_is_the_owner(
    users: Seq<Seq<char>>,
    user: DataView,
    login: Seq<char>,
)
    ensures
        users.len() > 0 ==> resolved(users, user) == Ok::<Seq<Seq<char>>, ResolveErrorView>(users),
        users.len() == 0 && user.member("login"@) == Some(DataView::Text(login)) ==> resolved(
            users,
            user,
        ) == Ok::<Seq<Seq<char>>, ResolveErrorView>(seq![login]),
        users.len() == 0 && !(user.member("login"@) matches Some(v) && v is Text) ==> resolved(
            users,
            user,
        ) == Err::<Seq<Seq<char>>, ResolveErrorView>(ResolveErrorView::MissingLogin),
{
}

/// Loading, by how reading the file went: no file gives the defaults, a file
/// that holds a configuration gives it, and everything else is an error that
/// names the path and keeps the reason.
pub proof fn loading_by_the_file(path: Seq<char>, text: String, complaint: String, cause: String)
    ensures
        loaded(path, FileRead::NotFound) == Ok::<ConfigView, ConfigErrorView>(default_config()),
        loaded(path, FileRead::Failed(cause)) == Err::<ConfigView, ConfigErrorView>(
            ConfigErrorView::Reading(path, cause@),
        ),
        match crate::toml_text::toml_parse(text@) {
            Parsed::Failed(words) => loaded(path, FileRead::Contents { text, complaint }) == Err::<
                ConfigView,
                ConfigErrorView,
            >(ConfigErrorView::Parsing(path, words)),
            Parsed::Document(v) => match config_of(v) {
                Some(c) => loaded(path, FileRead::Contents { text, complaint }) == Ok::<
                    ConfigView,
                    ConfigErrorView,
                >(c),
                None => loaded(path, FileRead::Contents { text, complaint }) == Err::<
                    ConfigView,
                    ConfigErrorView,
                >(ConfigErrorView::Parsing(path, complaint@)),
            },
        },
{
}

/// What a text holds is what its document holds: reading it goes by the parser
/// and by the fields alone.
pub proof fn text_holds_what_its_document_holds(text: Seq<char>)
    ensures
        match crate::toml_text::toml_parse(text) {
            Parsed::Failed(words) => config_in(text) == Err::<ConfigView, NotConfigView>(
                NotConfigView::Syntax(words),
            ),
            Parsed::Document(v) => match config_of(v) {
                Some(c) => config_in(text) == Ok::<ConfigView, NotConfigView>(c),
                None => config_in(text) == Err::<ConfigView, NotConfigView>(NotConfigView::Shape),
            },
        },
{
}

/// The config file's path is the directory, one slash, and `prodder.toml`; a
/// directory that ends with a slash already, or is not given, gets no other.
pub proof fn config_path_is_below(directory: Seq<char>)
    ensures
        directory.len() > 0 && directory.last() != '/' ==> config_path_in(directory) == directory
            + "/prodder.toml"@,
        directory.len() > 0 && directory.last() == '/' ==> config_path_in(directory) == directory
            + "prodder.toml"@,
        directory.len() == 0 ==> config_path_in(directory) == "prodder.toml"@,
{
    reveal_strlit("/");
    reveal_strlit("/prodder.toml");
    reveal_strlit("prodder.toml");
    assert("/"@ + "prodder.toml"@ =~= "/prodder.toml"@);
    assert(directory + "/"@ + "prodder.toml"@ =~= directory + "/prodder.toml"@);
    if directory.len() == 0 {
        assert(directory + "prodder.toml"@ =~= "prodder.toml"@);
    }
}

/// The fields are written in the order in which they are declared, each with
/// its own value.
pub proof fn fields_keep_their_order(c: ConfigView)
    ensures
        ({
            let table = config_table(c);
            &&& table.len() == 3
            &&& table[0] == ("users"@, EntryView::Texts(c.users))
            &&& table[1] == ("filter"@, EntryView::Text(c.filter))
            &&& table[2].0 == "behaviors"@
            &&& table[2].1 matches EntryView::Toggles(toggles) && toggles.len() == 3 && toggles[0]
                == ("required_status_checks"@, c.behaviors.required_status_checks) && toggles[1]
                == ("mergeable_state"@, c.behaviors.mergeable_state) && toggles[2] == (
                "update_branch"@,
                c.behaviors.update_branch,
            )
        }),
{
}

/// Every error in words, and with everything that led to it.
pub proof fn config_errors_are_spelled_out(path: Seq<char>, cause: Seq<char>)
    ensures
        ConfigErrorView::Reading(path, cause).words() == "reading "@ + path,
        ConfigErrorView::Reading(path, cause).chain() == "reading "@ + path + ": "@ + cause,
        ConfigErrorView::Parsing(path, cause).words() == "parsing "@ + path,
        ConfigErrorView::Parsing(path, cause).chain() == "parsing "@ + path + ": "@ + cause,
        ResolveErrorView::Request(cause).chain() == "resolving users from PAT via GET /user"@
            + ": GET /user: "@ + cause,
        ResolveErrorView::Parse(cause).chain() == "resolving users from PAT via GET /user"@
            + ": parse /user: "@ + cause,
        ResolveErrorView::MissingLogin.chain() == "resolving users from PAT via GET /user"@
            + ": /user response missing `login`"@,
{
}

/// The views show every field as it is.
pub proof fn config_views_show_everything(c: Config, e: ConfigError, r: ResolveError, n: NotConfig)
    ensures
        c@.users.len() == c.users.0@.len(),
        forall|i: int|
            0 <= i < c.users.0@.len() ==> (#[trigger] c@.users[i]) == c.users.0@[i]@,
        c@.users == c.users@,
        c@.filter == c.filter.0@,
        c.filter@ == c.filter.0@,
        c@.behaviors == c.behaviors,
        match e {
            ConfigError::Reading(path, cause) => e@ == ConfigErrorView::Reading(path@, cause@),
            ConfigError::Parsing(path, cause) => e@ == ConfigErrorView::Parsing(path@, cause@),
        },
        match r {
            ResolveError::Request(cause) => r@ == ResolveErrorView::Request(cause@),
            ResolveError::Parse(cause) => r@ == ResolveErrorView::Parse(cause@),
            ResolveError::MissingLogin => r@ is MissingLogin,
        },
        match n {
            NotConfig::Syntax(cause) => n@ == NotConfigView::Syntax(cause@),
            NotConfig::Shape => n@ is Shape,
        },
{
}

/// Results are shown as they are: success as success with what it holds, and an
/// error as that error, and rows item by item.
pub proof fn config_results_are_shown(
    names: Vec<String>,
    r: ResolveError,
    c: Config,
    e: ConfigError,
    strings: Seq<String>,
)
    ensures
        resolution(Ok(names)) == Ok::<Seq<Seq<char>>, ResolveErrorView>(texts(names@)),
        resolution(Err(r)) == Err::<Seq<Seq<char>>, ResolveErrorView>(r@),
        load_outcome(Ok(c)) == Ok::<ConfigView, ConfigErrorView>(c@),
        load_outcome(Err(e)) == Err::<ConfigView, ConfigErrorView>(e@),
        texts(strings).len() == strings.len(),
        forall|i: int| 0 <= i < strings.len() ==> #[trigger] texts(strings)[i] == strings[i]@,
{
}

}
