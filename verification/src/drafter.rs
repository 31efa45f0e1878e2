//! Finds all open PRs (including drafts) authored by `DominicBurkart` in
//! `DominicBurkart/*` repos, checks non-review merge requirements (merge
//! conflicts, combined status, check-runs), and either:
//!   * converts any non-draft PR with a blocking non-review requirement back
//!     to draft state (whether a PR is a draft already is not looked at: a
//!     blocked draft gets the same request, which leaves it a draft), or
//!   * for PRs whose branch is behind the base
//!     (`mergeable_state == "behind"`), asks GitHub to update the branch so it
//!     stays current.
//!
//! Whoever runs this makes the requests; here stands what to ask for next,
//! given what came back.
use vstd::prelude::*;
use vstd::string::*;

use crate::api::{HttpRequest, HttpRequestView};
use crate::data::{Data, DataView, Parsed};
use crate::rules::{decide, Action, ActionView, CheckRun, CheckRunView};
use crate::text::starts_with;
use crate::url::repo_from_url;

verus! {

/// How the full name of a repository begins that is looked at.
pub const OWNER_PREFIX: &'static str = "DominicBurkart/";

/// Cap on simultaneous in-flight per-PR pipelines. Each PR pipeline itself
/// fires three GETs in parallel, so the upper bound on concurrent HTTP
/// requests is roughly `PR_CONCURRENCY * 3`. Sized to stay polite to GitHub's
/// secondary rate limits while still finishing the workload (~60 PRs) inside
/// Scaleway's 3-minute job timeout.
pub const PR_CONCURRENCY: usize = 8;

/// A pull request that the search found.
#[derive(Debug, PartialEq, Eq)]
pub struct PullRef {
    pub owner: String,
    pub repo: String,
    pub number: u64,
}

/// A [`PullRef`] by the characters of its names.
pub struct PullRefView {
    pub owner: Seq<char>,
    pub repo: Seq<char>,
    pub number: u64,
}

impl View for PullRef {
    type V = PullRefView;

    open spec fn view(&self) -> PullRefView {
        PullRefView { owner: self.owner@, repo: self.repo@, number: self.number }
    }
}

/// A pull request with what it takes to act on it.
#[derive(Debug, PartialEq, Eq)]
pub struct CandidatePr {
    pub owner: String,
    pub repo: String,
    pub number: u64,
    pub node_id: String,
    pub head_sha: String,
}

/// A [`CandidatePr`] by the characters of its strings.
pub struct CandidateView {
    pub owner: Seq<char>,
    pub repo: Seq<char>,
    pub number: u64,
    pub node_id: Seq<char>,
    pub head_sha: Seq<char>,
}

impl View for CandidatePr {
    type V = CandidateView;

    open spec fn view(&self) -> CandidateView {
        CandidateView {
            owner: self.owner@,
            repo: self.repo@,
            number: self.number,
            node_id: self.node_id@,
            head_sha: self.head_sha@,
        }
    }
}

/// What was under way when something went wrong.
#[derive(Debug, Clone, Copy, PartialEq, Eq)]
pub enum Stage {
    /// The search.
    Search,
    /// Reading the search's reply as JSON.
    ParseSearch,
    /// Reading the pull request.
    GetPull,
    /// Reading the combined status.
    GetStatus,
    /// Reading the check runs.
    GetChecks,
    /// Reading the reply about the pull request as JSON.
    ParsePull,
    /// Reading the reply about the combined status as JSON.
    ParseStatus,
    /// Reading the reply about the check runs as JSON.
    ParseChecks,
    /// Asking for the conversion to a draft.
    Graphql,
    /// Reading the reply to the conversion as JSON.
    ParseGraphql,
    /// Asking for the update of the branch.
    UpdateBranch,
}

impl Stage {
    /// The stage in words.
    pub open spec fn words(self) -> Seq<char> {
        match self {
            Stage::Search => "search issues"@,
            Stage::ParseSearch => "parse search response"@,
            Stage::GetPull => "pulls.get"@,
            Stage::GetStatus => "combined status"@,
            Stage::GetChecks => "check-runs"@,
            Stage::ParsePull => "parse pr"@,
            Stage::ParseStatus => "parse status"@,
            Stage::ParseChecks => "parse check-runs"@,
            Stage::Graphql => "graphql convertPullRequestToDraft"@,
            Stage::ParseGraphql => "parse graphql response"@,
            Stage::UpdateBranch => "pulls.update-branch"@,
        }
    }

    /// The stage in words.
    pub fn message(&self) -> (r: String)
        ensures
            r@ == self.words(),
    {
        match self {
            Stage::Search => "search issues".to_owned(),
            Stage::ParseSearch => "parse search response".to_owned(),
            Stage::GetPull => "pulls.get".to_owned(),
            Stage::GetStatus => "combined status".to_owned(),
            Stage::GetChecks => "check-runs".to_owned(),
            Stage::ParsePull => "parse pr".to_owned(),
            Stage::ParseStatus => "parse status".to_owned(),
            Stage::ParseChecks => "parse check-runs".to_owned(),
            Stage::Graphql => "graphql convertPullRequestToDraft".to_owned(),
            Stage::ParseGraphql => "parse graphql response".to_owned(),
            Stage::UpdateBranch => "pulls.update-branch".to_owned(),
        }
    }
}

/// What went wrong.
#[derive(Debug, PartialEq, Eq)]
pub enum DrafterError {
    /// This failed, for the reason given.
    Failed(Stage, String),
    /// The conversion to a draft came back with these errors.
    GraphqlErrors(String),
}

/// A [`DrafterError`] by the characters of its text.
pub enum DrafterErrorView {
    Failed(Stage, Seq<char>),
    GraphqlErrors(Seq<char>),
}

impl View for DrafterError {
    type V = DrafterErrorView;

    open spec fn view(&self) -> DrafterErrorView {
        match self {
            DrafterError::Failed(stage, cause) => DrafterErrorView::Failed(*stage, cause@),
            DrafterError::GraphqlErrors(errors) => DrafterErrorView::GraphqlErrors(errors@),
        }
    }
}

impl DrafterErrorView {
    /// The error in words.
    pub open spec fn words(self) -> Seq<char> {
        match self {
            DrafterErrorView::Failed(stage, _) => stage.words(),
            DrafterErrorView::GraphqlErrors(errors) => "graphql errors: "@ + errors,
        }
    }

    /// The error with everything that led to it.
    pub open spec fn chain(self) -> Seq<char> {
        match self {
            DrafterErrorView::Failed(stage, cause) => stage.words() + ": "@ + cause,
            DrafterErrorView::GraphqlErrors(_) => self.words(),
        }
    }
}

impl DrafterError {
    /// The error in words.
    pub fn message(&self) -> (r: String)
        ensures
            r@ == self@.words(),
    {
        match self {
            DrafterError::Failed(stage, _) => stage.message(),
            DrafterError::GraphqlErrors(errors) => {
                let mut out = "graphql errors: ".to_owned();
                out.append(errors.as_str());
                out
            },
        }
    }

    /// The error with everything that led to it.
    pub fn chain(&self) -> (r: String)
        ensures
            r@ == self@.chain(),
    {
        let mut out = self.message();
        if let DrafterError::Failed(_, cause) = self {
            out.append(": ");
            out.append(cause.as_str());
        }
        out
    }
}

/// A text that may be missing, or what stands in for it.
pub open spec fn text_or(text: Option<Seq<char>>, fallback: Seq<char>) -> Seq<char> {
    match text {
        Some(text) => text,
        None => fallback,
    }
}

/// The string member of a record with that name, or what stands in for it.
fn get_str_or<'a>(v: &'a Data, name: &str, fallback: &'a str) -> (r: &'a str)
    ensures
        r@ == text_or(v@.member_text(name@), fallback@),
{
    match v.get_str(name) {
        Some(text) => text,
        None => fallback,
    }
}

/// The pull request that an item of the search's reply is about: nothing
/// where its repository is not given or another owner's, or its number is not
/// given.
pub open spec fn pull_of(issue: DataView) -> Option<PullRefView> {
    match crate::url::repo_of(text_or(issue.member_text("repository_url"@), ""@)) {
        None => None,
        Some((owner, repo)) => if !crate::text::begins_with(
            owner + "/"@ + repo,
            OWNER_PREFIX@,
        ) {
            None
        } else {
            match issue.member("number"@) {
                None => None,
                Some(v) => match v.unsigned() {
                    None => None,
                    Some(number) => Some(PullRefView { owner, repo, number }),
                },
            }
        },
    }
}

/// The pull requests that the items of the search's reply are about.
pub open spec fn pulls_of(items: Seq<DataView>) -> Seq<PullRefView>
    decreases items.len(),
{
    if items.len() == 0 {
        Seq::empty()
    } else {
        match pull_of(items.last()) {
            Some(pull) => pulls_of(items.drop_last()).push(pull),
            None => pulls_of(items.drop_last()),
        }
    }
}

/// The pull requests that the search's reply lists; none where it has no
/// `items`.
pub open spec fn pulls_listed(reply: DataView) -> Seq<PullRefView> {
    match reply.member_items("items"@) {
        Some(items) => pulls_of(items),
        None => Seq::empty(),
    }
}

/// The views of a row of pull requests.
pub open spec fn pull_views(pulls: Seq<PullRef>) -> Seq<PullRefView> {
    pulls.map_values(|pull: PullRef| pull@)
}

/// The pull request that an item of the search's reply is about.
pub fn pull_from_issue(issue: &Data) -> (r: Option<PullRef>)
    ensures
        match r {
            Some(pull) => pull_of(issue@) == Some(pull@),
            None => pull_of(issue@) is None,
        },
{
    let repo_url = get_str_or(issue, "repository_url", "");
    let (owner, repo) = match repo_from_url(repo_url) {
        Some(pair) => pair,
        None => {
            return None;
        },
    };
    let mut full_name = owner.clone();
    full_name.append("/");
    full_name.append(repo.as_str());
    if !starts_with(full_name.as_str(), OWNER_PREFIX) {
        return None;
    }
    let number = match issue.get("number") {
        Some(v) => v.as_u64(),
        None => None,
    };
    match number {
        Some(number) => Some(PullRef { owner, repo, number }),
        None => None,
    }
}

/// The pull requests that the search's reply lists.
pub fn list_pulls(reply: &Data) -> (r: Vec<PullRef>)
    ensures
        pull_views(r@) == pulls_listed(reply@),
{
    let mut out: Vec<PullRef> = Vec::new();
    let items = match reply.get_list("items") {
        Some(items) => items,
        None => {
            assert(pull_views(out@) =~= Seq::empty());
            return out;
        },
    };
    let ghost parts = crate::data::item_contents(items@);
    let mut i: usize = 0;
    assert(pull_views(out@) =~= pulls_of(parts.take(0)));
    while i < items.len()
        invariant
            i <= items@.len(),
            parts == crate::data::item_contents(items@),
            pull_views(out@) == pulls_of(parts.take(i as int)),
        decreases items@.len() - i,
    {
        proof {
            let next = parts.take(i + 1);
            assert(next.drop_last() =~= parts.take(i as int));
            assert(next.last() == items@[i as int]@);
        }
        let ghost before = out@;
        if let Some(pull) = pull_from_issue(&items[i]) {
            out.push(pull);
            assert(pull_views(out@) =~= pull_views(before).push(pull@));
        }
        i = i + 1;
    }
    assert(parts.take(i as int) =~= parts);
    out
}

/// The pull requests to look at, given the body of the reply to the search,
/// or why the search failed.
pub fn list_candidate_prs(reply: &Result<Vec<u8>, String>) -> (r: Result<
    Vec<PullRef>,
    DrafterError,
>)
    ensures
        match reply {
            Err(cause) => r matches Err(e) && e@ == DrafterErrorView::Failed(Stage::Search, cause@),
            Ok(body) => match crate::json::json_parse(body@) {
                Parsed::Failed(cause) => r matches Err(e) && e@ == DrafterErrorView::Failed(
                    Stage::ParseSearch,
                    cause,
                ),
                Parsed::Document(v) => r matches Ok(pulls) && pull_views(pulls@) == pulls_listed(v),
            },
        },
{
    match reply {
        Err(cause) => Err(DrafterError::Failed(Stage::Search, cause.clone())),
        Ok(body) => match crate::json::parse(body.as_slice()) {
            Err(e) => Err(DrafterError::Failed(Stage::ParseSearch, e.0)),
            Ok(v) => Ok(list_pulls(&v)),
        },
    }
}

/// Why a pull request that the search found is passed over.
#[derive(Debug, PartialEq, Eq)]
pub enum Skip {
    /// Reading it failed, for the reason given.
    Request(String),
    /// The reply is not JSON, for the reason given.
    Parse(String),
    /// It has no `node_id`.
    MissingNodeId,
    /// It has no `head.sha`.
    MissingHeadSha,
}

/// A [`Skip`] by the characters of its reason.
pub enum SkipView {
    Request(Seq<char>),
    Parse(Seq<char>),
    MissingNodeId,
    MissingHeadSha,
}

impl View for Skip {
    type V = SkipView;

    open spec fn view(&self) -> SkipView {
        match self {
            Skip::Request(cause) => SkipView::Request(cause@),
            Skip::Parse(cause) => SkipView::Parse(cause@),
            Skip::MissingNodeId => SkipView::MissingNodeId,
            Skip::MissingHeadSha => SkipView::MissingHeadSha,
        }
    }
}

impl SkipView {
    /// The reason in words, with everything that led to it.
    pub open spec fn chain(self) -> Seq<char> {
        match self {
            SkipView::Request(cause) => "pulls.get failed: "@ + cause,
            SkipView::Parse(cause) => "pr json parse failed: "@ + cause,
            SkipView::MissingNodeId => "PR missing node_id; skipping"@,
            SkipView::MissingHeadSha => "PR missing head.sha; skipping"@,
        }
    }
}

impl Skip {
    /// The reason in words, with everything that led to it.
    pub fn chain(&self) -> (r: String)
        ensures
            r@ == self@.chain(),
    {
        match self {
            Skip::Request(cause) => {
                let mut out = "pulls.get failed: ".to_owned();
                out.append(cause.as_str());
                out
            },
            Skip::Parse(cause) => {
                let mut out = "pr json parse failed: ".to_owned();
                out.append(cause.as_str());
                out
            },
            Skip::MissingNodeId => "PR missing node_id; skipping".to_owned(),
            Skip::MissingHeadSha => "PR missing head.sha; skipping".to_owned(),
        }
    }
}

/// The SHA of a pull request's head.
pub open spec fn head_sha_of(pr: DataView) -> Option<Seq<char>> {
    match pr.member("head"@) {
        Some(head) => head.member_text("sha"@),
        None => None,
    }
}

/// The candidate that a pull request is, given what GitHub says about it.
pub open spec fn candidate_of(pull: PullRefView, pr: DataView) -> Result<
    CandidateView,
    SkipView,
> {
    match pr.member_text("node_id"@) {
        None => Err(SkipView::MissingNodeId),
        Some(node_id) => match head_sha_of(pr) {
            None => Err(SkipView::MissingHeadSha),
            Some(head_sha) => Ok(
                CandidateView {
                    owner: pull.owner,
                    repo: pull.repo,
                    number: pull.number,
                    node_id,
                    head_sha,
                },
            ),
        },
    }
}

/// The candidate, or why there is none.
pub open spec fn fetched(r: Result<CandidatePr, Skip>) -> Result<CandidateView, SkipView> {
    match r {
        Ok(c) => Ok(c@),
        Err(skip) => Err(skip@),
    }
}

/// The candidate that a pull request is, given what GitHub says about it.
pub fn candidate_from(pull: PullRef, pr: &Data) -> (r: Result<CandidatePr, Skip>)
    ensures
        fetched(r) == candidate_of(pull@, pr@),
{
    let node_id = match pr.get_str("node_id") {
        Some(text) => text.to_owned(),
        None => {
            return Err(Skip::MissingNodeId);
        },
    };
    let head_sha = match pr.get("head") {
        Some(head) => head.get_str("sha"),
        None => None,
    };
    match head_sha {
        Some(text) => Ok(
            CandidatePr {
                owner: pull.owner,
                repo: pull.repo,
                number: pull.number,
                node_id,
                head_sha: text.to_owned(),
            },
        ),
        None => Err(Skip::MissingHeadSha),
    }
}

/// The candidate that a pull request is, given the body of the reply about
/// it, or why reading it failed.
pub fn fetch_candidate(pull: PullRef, reply: &Result<Vec<u8>, String>) -> (r: Result<
    CandidatePr,
    Skip,
>)
    ensures
        fetched(r) == (match reply {
            Err(cause) => Err(SkipView::Request(cause@)),
            Ok(body) => match crate::json::json_parse(body@) {
                Parsed::Failed(cause) => Err(SkipView::Parse(cause)),
                Parsed::Document(pr) => candidate_of(pull@, pr),
            },
        }),
{
    match reply {
        Err(cause) => Err(Skip::Request(cause.clone())),
        Ok(body) => match crate::json::parse(body.as_slice()) {
            Err(e) => Err(Skip::Parse(e.0)),
            Ok(pr) => candidate_from(pull, &pr),
        },
    }
}

/// The three requests that read what a decision about a candidate rests on:
/// the pull request, the combined status and the check runs.
pub open spec fn evaluate_calls(api: Seq<char>, c: CandidateView) -> (
    HttpRequestView,
    HttpRequestView,
    HttpRequestView,
) {
    (
        crate::api::get(crate::api::pull_url(api, c.owner, c.repo, c.number)),
        crate::api::get(crate::api::status_url(api, c.owner, c.repo, c.head_sha)),
        crate::api::get(crate::api::checks_url(api, c.owner, c.repo, c.head_sha)),
    )
}

/// The three requests that read what a decision about a candidate rests on:
/// the pull request, the combined status and the check runs.
pub fn evaluate_requests(api: &str, c: &CandidatePr) -> (r: (HttpRequest, HttpRequest, HttpRequest))
    ensures
        (r.0@, r.1@, r.2@) == evaluate_calls(api@, c@),
{
    (
        crate::api::pull_request(api, c.owner.as_str(), c.repo.as_str(), c.number),
        crate::api::status_request(api, c.owner.as_str(), c.repo.as_str(), c.head_sha.as_str()),
        crate::api::checks_request(api, c.owner.as_str(), c.repo.as_str(), c.head_sha.as_str()),
    )
}

/// A check run as GitHub reports it; a name that is missing is shown as `?`.
pub open spec fn check_of(run: DataView) -> CheckRunView {
    CheckRunView {
        name: text_or(run.member_text("name"@), "?"@),
        status: text_or(run.member_text("status"@), ""@),
        conclusion: run.member_text("conclusion"@),
    }
}

/// The check runs that GitHub reports; none where there is no `check_runs`.
pub open spec fn checks_of(reply: DataView) -> Seq<CheckRunView> {
    match reply.member_items("check_runs"@) {
        Some(items) => items.map_values(|run: DataView| check_of(run)),
        None => Seq::empty(),
    }
}

/// Whether GitHub reports that the pull request can be merged.
pub open spec fn mergeable_of(pr: DataView) -> Option<bool> {
    match pr.member("mergeable"@) {
        Some(v) => v.truth(),
        None => None,
    }
}

/// What to do about a pull request, given the three replies about it.
pub open spec fn evaluated(
    pr: DataView,
    status: DataView,
    checks: DataView,
) -> ActionView {
    crate::rules::decided(
        mergeable_of(pr),
        text_or(pr.member_text("mergeable_state"@), ""@),
        text_or(status.member_text("state"@), ""@),
        checks_of(checks),
    )
}

/// Reads a check run.
fn check_from(run: &Data) -> (r: CheckRun)
    ensures
        r@ == check_of(run@),
{
    CheckRun {
        name: get_str_or(run, "name", "?").to_owned(),
        status: get_str_or(run, "status", "").to_owned(),
        conclusion: match run.get_str("conclusion") {
            Some(text) => Some(text.to_owned()),
            None => None,
        },
    }
}

/// Reads the check runs.
fn checks_from(reply: &Data) -> (r: Vec<CheckRun>)
    ensures
        crate::rules::check_views(r@) == checks_of(reply@),
{
    let mut out: Vec<CheckRun> = Vec::new();
    let items = match reply.get_list("check_runs") {
        Some(items) => items,
        None => {
            assert(crate::rules::check_views(out@) =~= Seq::empty());
            return out;
        },
    };
    let ghost parts = crate::data::item_contents(items@);
    let mut i: usize = 0;
    while i < items.len()
        invariant
            i <= items@.len(),
            parts == crate::data::item_contents(items@),
            out@.len() == i,
            forall|j: int| 0 <= j < i ==> (#[trigger] out@[j])@ == check_of(parts[j]),
        decreases items@.len() - i,
    {
        assert(parts[i as int] == items@[i as int]@);
        out.push(check_from(&items[i]));
        i = i + 1;
    }
    assert(crate::rules::check_views(out@) =~= parts.map_values(
        |run: DataView| check_of(run),
    ));
    out
}

/// What to do about a pull request, given the three replies about it.
pub fn evaluate_replies(pr: &Data, status: &Data, checks: &Data) -> (r: Action)
    ensures
        r@ == evaluated(pr@, status@, checks@),
{
    let mergeable = match pr.get("mergeable") {
        Some(v) => v.as_bool(),
        None => None,
    };
    let runs = checks_from(checks);
    decide(
        mergeable,
        get_str_or(pr, "mergeable_state", ""),
        get_str_or(status, "state", ""),
        runs.as_slice(),
    )
}

/// One of the three reads.
#[derive(Debug, Clone, Copy, PartialEq, Eq)]
pub enum Read {
    Pull,
    Status,
    Checks,
}

impl Read {
    /// The stage that a read is.
    pub open spec fn stage(self) -> Stage {
        match self {
            Read::Pull => Stage::GetPull,
            Read::Status => Stage::GetStatus,
            Read::Checks => Stage::GetChecks,
        }
    }

    /// The stage that a read is.
    fn to_stage(self) -> (r: Stage)
        ensures
            r == self.stage(),
    {
        match self {
            Read::Pull => Stage::GetPull,
            Read::Status => Stage::GetStatus,
            Read::Checks => Stage::GetChecks,
        }
    }
}

/// How the three reads went.
#[derive(Debug, PartialEq, Eq)]
pub enum Reads {
    /// All three were answered, with these bodies.
    Answered { pr: Vec<u8>, status: Vec<u8>, checks: Vec<u8> },
    /// One of them failed, for the reason given, and the others were given up.
    Failed(Read, String),
}

/// What to do about a candidate, or what went wrong: a read that failed, or
/// the first reply, in the order of the reads, that is not JSON.
pub open spec fn evaluation(reads: Reads) -> Result<ActionView, DrafterErrorView> {
    match reads {
        Reads::Failed(read, cause) => Err(DrafterErrorView::Failed(read.stage(), cause@)),
        Reads::Answered { pr, status, checks } => match crate::json::json_parse(pr@) {
            Parsed::Failed(cause) => Err(DrafterErrorView::Failed(Stage::ParsePull, cause)),
            Parsed::Document(pr) => match crate::json::json_parse(status@) {
                Parsed::Failed(cause) => Err(DrafterErrorView::Failed(Stage::ParseStatus, cause)),
                Parsed::Document(status) => match crate::json::json_parse(checks@) {
                    Parsed::Failed(cause) => Err(
                        DrafterErrorView::Failed(Stage::ParseChecks, cause),
                    ),
                    Parsed::Document(checks) => Ok(evaluated(pr, status, checks)),
                },
            },
        },
    }
}

/// The action or the error that an evaluation came to.
pub open spec fn evaluation_outcome(r: Result<Action, DrafterError>) -> Result<
    ActionView,
    DrafterErrorView,
> {
    match r {
        Ok(action) => Ok(action@),
        Err(e) => Err(e@),
    }
}

/// What to do about a candidate, given how the three reads went.
pub fn evaluate(reads: &Reads) -> (r: Result<Action, DrafterError>)
    ensures
        evaluation_outcome(r) == evaluation(*reads),
{
    match reads {
        Reads::Failed(read, cause) => Err(DrafterError::Failed(read.to_stage(), cause.clone())),
        Reads::Answered { pr, status, checks } => {
            let pr = match crate::json::parse(pr.as_slice()) {
                Ok(v) => v,
                Err(e) => {
                    return Err(DrafterError::Failed(Stage::ParsePull, e.0));
                },
            };
            let status = match crate::json::parse(status.as_slice()) {
                Ok(v) => v,
                Err(e) => {
                    return Err(DrafterError::Failed(Stage::ParseStatus, e.0));
                },
            };
            let checks = match crate::json::parse(checks.as_slice()) {
                Ok(v) => v,
                Err(e) => {
                    return Err(DrafterError::Failed(Stage::ParseChecks, e.0));
                },
            };
            Ok(evaluate_replies(&pr, &status, &checks))
        },
    }
}

/// The errors that the reply to a conversion reports: an `errors` member that
/// is anything but an empty list.
pub open spec fn errors_in(reply: DataView) -> Option<DataView> {
    match reply.member("errors"@) {
        Some(DataView::List(items)) => if items.len() == 0 {
            None
        } else {
            Some(DataView::List(items))
        },
        errors => errors,
    }
}

/// Does the reply to a conversion report errors?
pub fn reports_errors(reply: &Data) -> (r: bool)
    ensures
        r == errors_in(reply@) is Some,
{
    match reply.get("errors") {
        Some(errors) => match errors.as_list() {
            Some(items) => items.len() > 0,
            None => true,
        },
        None => false,
    }
}

/// The bytes of a reply, or the characters of why there is none.
pub open spec fn reply_view(reply: Result<Vec<u8>, String>) -> Result<Seq<u8>, Seq<char>> {
    match reply {
        Ok(body) => Ok(body@),
        Err(cause) => Err(cause@),
    }
}

/// What the reply to a conversion comes to.
pub open spec fn conversion(reply: Result<Seq<u8>, Seq<char>>) -> Result<(), DrafterErrorView> {
    match reply {
        Err(cause) => Err(DrafterErrorView::Failed(Stage::Graphql, cause)),
        Ok(body) => match crate::json::json_parse(body) {
            Parsed::Failed(cause) => Err(DrafterErrorView::Failed(Stage::ParseGraphql, cause)),
            Parsed::Document(v) => match errors_in(v) {
                None => Ok(()),
                Some(errors) => Err(DrafterErrorView::GraphqlErrors(crate::json::json_text(errors))),
            },
        },
    }
}

/// What the reply to an update comes to: what it says is not looked at.
pub open spec fn update(reply: Result<Seq<u8>, Seq<char>>) -> Result<(), DrafterErrorView> {
    match reply {
        Err(cause) => Err(DrafterErrorView::Failed(Stage::UpdateBranch, cause)),
        Ok(_) => Ok(()),
    }
}

/// Success, or the error, by its view.
pub open spec fn write_outcome(r: Result<(), DrafterError>) -> Result<(), DrafterErrorView> {
    match r {
        Ok(_) => Ok(()),
        Err(e) => Err(e@),
    }
}

/// Whether a pull request was converted to a draft, given the body of the
/// reply, or why the request failed.
pub fn convert_to_draft(reply: &Result<Vec<u8>, String>) -> (r: Result<(), DrafterError>)
    ensures
        write_outcome(r) == conversion(reply_view(*reply)),
{
    let body = match reply {
        Ok(body) => body.as_slice(),
        Err(cause) => {
            return Err(DrafterError::Failed(Stage::Graphql, cause.clone()));
        },
    };
    let v = match crate::json::parse(body) {
        Ok(v) => v,
        Err(e) => {
            return Err(DrafterError::Failed(Stage::ParseGraphql, e.0));
        },
    };
    if !reports_errors(&v) {
        return Ok(());
    }
    match crate::json::display_member(body, "errors") {
        Some(errors) => Err(DrafterError::GraphqlErrors(errors)),
        None => Ok(()),
    }
}

/// Whether an update of a branch was asked for, given the body of the reply,
/// or why the request failed.
pub fn update_branch(reply: &Result<Vec<u8>, String>) -> (r: Result<(), DrafterError>)
    ensures
        write_outcome(r) == update(reply_view(*reply)),
{
    match reply {
        Ok(_) => Ok(()),
        Err(cause) => Err(DrafterError::Failed(Stage::UpdateBranch, cause.clone())),
    }
}

/// How far a candidate has been processed.
#[derive(Debug, PartialEq, Eq)]
pub enum Progress {
    /// The three reads are under way.
    Evaluating,
    /// The conversion to a draft is under way, for the reason given.
    Drafting(String),
    /// The update of the branch is under way.
    Updating,
    /// Nothing is left to do.
    Done(Outcome),
}

/// What processing a candidate came to.
#[derive(Debug, PartialEq, Eq)]
pub enum Outcome {
    /// It has no blocking non-review requirements.
    Nothing,
    /// Mergeability is unknown; the next cycle will tell.
    Retry,
    /// It was converted to a draft, for the reason given.
    Drafted(String),
    /// The update of its branch was asked for.
    Updated,
    /// It could not be evaluated.
    EvaluateFailed(DrafterError),
    /// It could not be converted to a draft.
    DraftFailed(DrafterError),
    /// The update of its branch could not be asked for.
    UpdateFailed(DrafterError),
}

/// What happens while a candidate is processed.
#[derive(Debug, PartialEq, Eq)]
pub enum Event {
    /// The three reads came to this.
    Evaluated(Reads),
    /// The write was answered, with this body, or failed, for the reason
    /// given.
    Written(Result<Vec<u8>, String>),
}

/// An [`Outcome`] by the characters of its texts.
pub enum OutcomeView {
    Nothing,
    Retry,
    Drafted(Seq<char>),
    Updated,
    EvaluateFailed(DrafterErrorView),
    DraftFailed(DrafterErrorView),
    UpdateFailed(DrafterErrorView),
}

/// A [`Progress`] by the characters of its texts.
pub enum ProgressView {
    Evaluating,
    Drafting(Seq<char>),
    Updating,
    Done(OutcomeView),
}

impl View for Outcome {
    type V = OutcomeView;

    open spec fn view(&self) -> OutcomeView {
        match self {
            Outcome::Nothing => OutcomeView::Nothing,
            Outcome::Retry => OutcomeView::Retry,
            Outcome::Drafted(reason) => OutcomeView::Drafted(reason@),
            Outcome::Updated => OutcomeView::Updated,
            Outcome::EvaluateFailed(e) => OutcomeView::EvaluateFailed(e@),
            Outcome::DraftFailed(e) => OutcomeView::DraftFailed(e@),
            Outcome::UpdateFailed(e) => OutcomeView::UpdateFailed(e@),
        }
    }
}

impl View for Progress {
    type V = ProgressView;

    open spec fn view(&self) -> ProgressView {
        match self {
            Progress::Evaluating => ProgressView::Evaluating,
            Progress::Drafting(reason) => ProgressView::Drafting(reason@),
            Progress::Updating => ProgressView::Updating,
            Progress::Done(outcome) => ProgressView::Done(outcome@),
        }
    }
}

/// The request that turns a candidate into a draft.
pub open spec fn draft_of(api: Seq<char>, c: CandidateView) -> HttpRequestView {
    crate::api::draft_call(api, c.node_id)
}

/// The request that updates a candidate's branch, as long as its head is the
/// one that was evaluated.
pub open spec fn update_of(api: Seq<char>, c: CandidateView) -> HttpRequestView {
    crate::api::update_call(api, c.owner, c.repo, c.number, c.head_sha)
}

/// What becomes of a candidate that was evaluated, and what is written.
pub open spec fn acted(
    api: Seq<char>,
    c: CandidateView,
    evaluation: Result<ActionView, DrafterErrorView>,
) -> (ProgressView, Option<HttpRequestView>) {
    match evaluation {
        Err(e) => (ProgressView::Done(OutcomeView::EvaluateFailed(e)), None),
        Ok(ActionView::Draft(reason)) => (
            ProgressView::Drafting(reason),
            Some(draft_of(api, c)),
        ),
        Ok(ActionView::UpdateBranch) => (
            ProgressView::Updating,
            Some(update_of(api, c)),
        ),
        Ok(ActionView::Retry) => (ProgressView::Done(OutcomeView::Retry), None),
        Ok(ActionView::Nothing) => (ProgressView::Done(OutcomeView::Nothing), None),
    }
}

/// What a conversion that was answered or failed comes to.
pub open spec fn drafted(reason: Seq<char>, reply: Result<Seq<u8>, Seq<char>>) -> OutcomeView {
    match conversion(reply) {
        Ok(_) => OutcomeView::Drafted(reason),
        Err(e) => OutcomeView::DraftFailed(e),
    }
}

/// What an update that was answered or failed comes to.
pub open spec fn updated(reply: Result<Seq<u8>, Seq<char>>) -> OutcomeView {
    match update(reply) {
        Ok(_) => OutcomeView::Updated,
        Err(e) => OutcomeView::UpdateFailed(e),
    }
}

/// One step: how far the candidate has been processed after an event, and the
/// request to make. An event that nobody waits for changes nothing.
pub open spec fn stepped(
    api: Seq<char>,
    c: CandidateView,
    progress: ProgressView,
    event: Event,
) -> (ProgressView, Option<HttpRequestView>) {
    match (progress, event) {
        (ProgressView::Evaluating, Event::Evaluated(reads)) => acted(api, c, evaluation(reads)),
        (ProgressView::Drafting(reason), Event::Written(reply)) => (
            ProgressView::Done(drafted(reason, reply_view(reply))),
            None,
        ),
        (ProgressView::Updating, Event::Written(reply)) => (
            ProgressView::Done(updated(reply_view(reply))),
            None,
        ),
        _ => (progress, None),
    }
}

/// What the body of a write reads back as: the conversion of the candidate
/// while it is drafted, the update for its head while it is updated.
pub open spec fn write_reads_back(
    c: CandidateView,
    progress: ProgressView,
    request: HttpRequestView,
) -> bool {
    request.body matches Some(body) && crate::json::json_parse(body) == Parsed::Document(
        if progress is Drafting {
            crate::api::draft_body(c.node_id)
        } else {
            crate::api::update_body(c.head_sha)
        },
    )
}

/// The view of a request that may be missing.
pub open spec fn request_view(r: Option<HttpRequest>) -> Option<HttpRequestView> {
    match r {
        Some(request) => Some(request@),
        None => None,
    }
}

/// What becomes of a candidate that was evaluated, and what to write.
fn act(api: &str, c: &CandidatePr, evaluation: Result<Action, DrafterError>) -> (r: (
    Progress,
    Option<HttpRequest>,
))
    ensures
        (r.0@, request_view(r.1)) == acted(api@, c@, evaluation_outcome(evaluation)),
        r.1 matches Some(request) ==> write_reads_back(c@, r.0@, request@),
{
    match evaluation {
        Err(e) => (Progress::Done(Outcome::EvaluateFailed(e)), None),
        Ok(Action::Draft(reason)) => (
            Progress::Drafting(reason),
            Some(crate::api::draft_request(api, c.node_id.as_str())),
        ),
        Ok(Action::UpdateBranch) => (
            Progress::Updating,
            Some(
                crate::api::update_request(
                    api,
                    c.owner.as_str(),
                    c.repo.as_str(),
                    c.number,
                    c.head_sha.as_str(),
                ),
            ),
        ),
        Ok(Action::Retry) => (Progress::Done(Outcome::Retry), None),
        Ok(Action::Nothing) => (Progress::Done(Outcome::Nothing), None),
    }
}

/// One step of processing a candidate: how far it has been processed after an
/// event, and the request to make. It starts with [`Progress::Evaluating`]
/// and the requests of [`evaluate_requests`].
pub fn process_candidate(api: &str, c: &CandidatePr, progress: Progress, event: &Event) -> (r: (
    Progress,
    Option<HttpRequest>,
))
    ensures
        (r.0@, request_view(r.1)) == stepped(api@, c@, progress@, *event),
        r.1 matches Some(request) ==> write_reads_back(c@, r.0@, request@),
{
    match (progress, event) {
        (Progress::Evaluating, Event::Evaluated(reads)) => act(api, c, evaluate(reads)),
        (Progress::Drafting(reason), Event::Written(reply)) => {
            match convert_to_draft(reply) {
                Ok(_) => (Progress::Done(Outcome::Drafted(reason)), None),
                Err(e) => (Progress::Done(Outcome::DraftFailed(e)), None),
            }
        },
        (Progress::Updating, Event::Written(reply)) => {
            match update_branch(reply) {
                Ok(_) => (Progress::Done(Outcome::Updated), None),
                Err(e) => (Progress::Done(Outcome::UpdateFailed(e)), None),
            }
        },
        (progress, _) => (progress, None),
    }
}

/// How far a candidate has been processed after a course of events, and what
/// was written on the way.
pub open spec fn processed(api: Seq<char>, c: CandidateView, events: Seq<Event>) -> (
    ProgressView,
    Seq<HttpRequestView>,
)
    decreases events.len(),
{
    if events.len() == 0 {
        (ProgressView::Evaluating, Seq::empty())
    } else {
        let (progress, written) = processed(api, c, events.drop_last());
        let (next, request) = stepped(api, c, progress, events.last());
        (
            next,
            match request {
                Some(request) => written.push(request),
                None => written,
            },
        )
    }
}

/// The first reads in a course of events.
pub open spec fn first_reads(events: Seq<Event>) -> Option<Reads>
    decreases events.len(),
{
    if events.len() == 0 {
        None
    } else {
        match first_reads(events.drop_last()) {
            Some(reads) => Some(reads),
            None => match events.last() {
                Event::Evaluated(reads) => Some(reads),
                _ => None,
            },
        }
    }
}

/// What is written for a candidate: the conversion of one that is blocked, the
/// update of one that is behind, and nothing in all other cases.
pub open spec fn writes_for(
    api: Seq<char>,
    c: CandidateView,
    evaluation: Result<ActionView, DrafterErrorView>,
) -> Seq<HttpRequestView> {
    match evaluation {
        Ok(ActionView::Draft(_)) => seq![draft_of(api, c)],
        Ok(ActionView::UpdateBranch) => seq![update_of(api, c)],
        _ => Seq::empty(),
    }
}

/// Whatever happens, and in whatever order: what is written for a candidate is
/// settled by the first evaluation alone. There is at most one write; a
/// candidate that is blocked gets the conversion, one that is behind the
/// update for the head that was evaluated, and one that is fine, that has to
/// wait or that could not be evaluated gets none.
pub proof fn writes_follow_the_evaluation(api: Seq<char>, c: CandidateView, events: Seq<Event>)
    ensures
        processed(api, c, events).1 == (match first_reads(events) {
            Some(reads) => writes_for(api, c, evaluation(reads)),
            None => Seq::empty(),
        }),
        processed(api, c, events).1.len() <= 1,
        processed(api, c, events).0 is Evaluating <==> first_reads(events) is None,
    decreases events.len(),
{
    if events.len() > 0 {
        writes_follow_the_evaluation(api, c, events.drop_last());
        let written = processed(api, c, events.drop_last()).1;
        if first_reads(events.drop_last()) is None {
            assert(written =~= Seq::empty());
            assert(written.push(draft_of(api, c)) =~= seq![draft_of(api, c)]);
            assert(written.push(update_of(api, c)) =~= seq![update_of(api, c)]);
        }
    }
}

/// A candidate that is done stays done, with the same outcome, whatever
/// happens after that, and nothing more is written.
pub proof fn done_stays_done(
    api: Seq<char>,
    c: CandidateView,
    events: Seq<Event>,
    later: Seq<Event>,
)
    requires
        processed(api, c, events).0 is Done,
    ensures
        processed(api, c, events + later) == processed(api, c, events),
    decreases later.len(),
{
    if later.len() == 0 {
        assert(events + later =~= events);
    } else {
        done_stays_done(api, c, events, later.drop_last());
        assert((events + later).drop_last() =~= events + later.drop_last());
    }
}

/// Two events finish every candidate: how the reads went, and how the write
/// went where there is one.
pub proof fn two_events_finish(api: Seq<char>, c: CandidateView, reads: Reads, write: Event)
    requires
        !(write is Evaluated),
    ensures
        processed(api, c, seq![Event::Evaluated(reads), write]).0 is Done,
{
    let events = seq![Event::Evaluated(reads), write];
    let first = seq![Event::Evaluated(reads)];
    assert(events.drop_last() =~= first);
    assert(first.drop_last() =~= Seq::<Event>::empty());
    reveal_with_fuel(processed, 3);
}

/// Everything that is read for a candidate is read with `GET`, without a body.
pub proof fn evaluation_only_reads(api: Seq<char>, c: CandidateView)
    ensures
        ({
            let (pull, status, checks) = evaluate_calls(api, c);
            &&& pull.method == "GET"@ && pull.body is None
            &&& status.method == "GET"@ && status.body is None
            &&& checks.method == "GET"@ && checks.body is None
        }),
{
}

/// No request about a candidate is turned down for its method: whatever the
/// candidate, what is read and what is written uses HTTP methods.
pub proof fn requests_use_http_methods(api: Seq<char>, c: CandidateView)
    ensures
        crate::http::is_method(evaluate_calls(api, c).0.method),
        crate::http::is_method(evaluate_calls(api, c).1.method),
        crate::http::is_method(evaluate_calls(api, c).2.method),
        crate::http::is_method(draft_of(api, c).method),
        crate::http::is_method(update_of(api, c).method),
{
    reveal_strlit("GET");
    reveal_strlit("POST");
    reveal_strlit("PUT");
    assert("GET"@ =~= seq!['G', 'E', 'T']);
    assert("POST"@ =~= seq!['P', 'O', 'S', 'T']);
    assert("PUT"@ =~= seq!['P', 'U', 'T']);
}

/// Only the owner's own pull requests are looked at.
pub proof fn only_own_pulls(issue: DataView)
    ensures
        pull_of(issue) matches Some(pull) ==> pull.owner == "DominicBurkart"@ && pull.repo.len()
            > 0,
{
    if let Some(pull) = pull_of(issue) {
        let url = text_or(issue.member_text("repository_url"@), ""@);
        crate::url::repo_parts_are_sound(url);
        reveal_strlit("DominicBurkart/");
        reveal_strlit("DominicBurkart");
        reveal_strlit("/");
        let full = pull.owner + "/"@ + pull.repo;
        let prefix = OWNER_PREFIX@;
        assert(prefix.len() == 15);
        assert(full.take(15) == prefix);
        assert(full.take(15)[14] == '/');
        if pull.owner.len() > 14 {
            assert(pull.owner[14] == full[14]);
        } else if pull.owner.len() < 14 {
            let k: int = pull.owner.len() as int;
            assert(full[k] == '/');
            assert(full.take(15)[k] == prefix[k]);
        } else {
            assert forall|i: int| 0 <= i < 14 implies pull.owner[i] == "DominicBurkart"@[i] by {
                assert(full.take(15)[i] == prefix[i]);
            }
            assert(pull.owner =~= "DominicBurkart"@);
        }
    }
}

/// Every pull request that the search's reply lists is the owner's own, and
/// there are no more of them than items in the reply.
pub proof fn listed_pulls_are_own(items: Seq<DataView>)
    ensures
        pulls_of(items).len() <= items.len(),
        forall|i: int|
            0 <= i < pulls_of(items).len() ==> (#[trigger] pulls_of(items)[i]).owner
                == "DominicBurkart"@,
    decreases items.len(),
{
    if items.len() > 0 {
        listed_pulls_are_own(items.drop_last());
        only_own_pulls(items.last());
    }
}

/// The items of the search's reply are taken one by one: what is made of some
/// does not depend on the others, so that one that is passed over costs no
/// other its place.
pub proof fn items_are_taken_one_by_one(
    one: Seq<DataView>,
    other: Seq<DataView>,
)
    ensures
        pulls_of(one + other) == pulls_of(one) + pulls_of(other),
    decreases other.len(),
{
    if other.len() == 0 {
        assert(one + other =~= one);
        assert(pulls_of(one) + pulls_of(other) =~= pulls_of(one));
    } else {
        items_are_taken_one_by_one(one, other.drop_last());
        assert((one + other).drop_last() =~= one + other.drop_last());
        assert(pulls_of(one + other) =~= pulls_of(one) + pulls_of(other));
    }
}

/// A candidate is the pull request that was asked about: owner, repository and
/// number are taken over as they are, so that it is the owner's own too.
pub proof fn candidate_keeps_its_pull(
    issue: DataView,
    pull: PullRefView,
    pr: DataView,
)
    requires
        pull_of(issue) == Some(pull),
    ensures
        candidate_of(pull, pr) matches Ok(c) ==> c.owner == pull.owner && c.repo == pull.repo
            && c.number == pull.number && c.owner == "DominicBurkart"@,
{
    only_own_pulls(issue);
}

/// A candidate is demoted to a draft exactly when a non-review requirement
/// blocks it, and its branch is updated exactly when none does, it can be
/// merged and it is behind its base, whatever happens besides.
pub proof fn blocked_candidates_are_drafted(
    api: Seq<char>,
    c: CandidateView,
    events: Seq<Event>,
    pr: Vec<u8>,
    status: Vec<u8>,
    checks: Vec<u8>,
)
    requires
        first_reads(events) == Some(Reads::Answered { pr, status, checks }),
        crate::json::json_parse(pr@) is Document,
        crate::json::json_parse(status@) is Document,
        crate::json::json_parse(checks@) is Document,
    ensures
        ({
            let pull = crate::json::json_parse(pr@)->Document_0;
            let state = text_or(crate::json::json_parse(status@)->Document_0.member_text("state"@), ""@);
            let runs = checks_of(crate::json::json_parse(checks@)->Document_0);
            let blocked = crate::rules::blocked(mergeable_of(pull), state, runs);
            let behind = pull.member_text("mergeable_state"@) == Some("behind"@);
            let written = processed(api, c, events).1;
            &&& written == seq![draft_of(api, c)] <==> blocked
            &&& written == seq![update_of(api, c)] <==> !blocked && mergeable_of(pull) is Some
                && behind
            &&& written.len() == 0 <==> !blocked && (mergeable_of(pull) is None || !behind)
        }),
{
    let pull = crate::json::json_parse(pr@)->Document_0;
    let state = text_or(crate::json::json_parse(status@)->Document_0.member_text("state"@), ""@);
    let runs = checks_of(crate::json::json_parse(checks@)->Document_0);
    writes_follow_the_evaluation(api, c, events);
    crate::rules::decided_exactly_when(
        mergeable_of(pull),
        text_or(pull.member_text("mergeable_state"@), ""@),
        state,
        runs,
    );
    reveal_strlit("POST");
    reveal_strlit("PUT");
    reveal_strlit("behind");
    reveal_strlit("");
    assert("POST"@.len() == 4 && "PUT"@.len() == 3);
    assert("behind"@.len() == 6 && ""@.len() == 0);
    assert(draft_of(api, c).method != update_of(api, c).method);
    assert(seq![draft_of(api, c)][0] != seq![update_of(api, c)][0]);
}

/// The three replies in the terms of the rules.
proof fn replies_in_terms_of_the_rules(pr: DataView, status: DataView, checks: DataView)
    ensures
        mergeable_of(pr) == Some(true) <==> pr.member("mergeable"@) == Some(DataView::Bool(true)),
        mergeable_of(pr) == Some(false) <==> pr.member("mergeable"@) == Some(DataView::Bool(false)),
        text_or(pr.member_text("mergeable_state"@), ""@) == "behind"@ <==> pr.member(
            "mergeable_state"@,
        ) == Some(DataView::Text("behind"@)),
        text_or(status.member_text("state"@), ""@) == "failure"@ <==> status.member("state"@)
            == Some(DataView::Text("failure"@)),
        text_or(status.member_text("state"@), ""@) == "error"@ <==> status.member("state"@)
            == Some(DataView::Text("error"@)),
        match checks.member("check_runs"@) {
            Some(DataView::List(runs)) => checks_of(checks).len() == runs.len() && forall|i: int|
                0 <= i < runs.len() ==> #[trigger] checks_of(checks)[i] == check_of(runs[i]),
            _ => checks_of(checks).len() == 0,
        },
{
    reveal_strlit("behind");
    reveal_strlit("failure");
    reveal_strlit("error");
    reveal_strlit("");
    assert("behind"@.len() == 6 && "failure"@.len() == 7 && "error"@.len() == 5 && ""@.len() == 0);
}

/// A check run counts as completed, and as concluded, by what GitHub says.
proof fn run_in_terms_of_the_rules(run: DataView, conclusion: Seq<char>)
    ensures
        check_of(run).status == "completed"@ <==> run.member("status"@) == Some(
            DataView::Text("completed"@),
        ),
        check_of(run).conclusion == Some(conclusion) <==> run.member("conclusion"@) == Some(
            DataView::Text(conclusion),
        ),
        (check_of(run).conclusion == Some("failure"@)
            || check_of(run).conclusion == Some("timed_out"@)
            || check_of(run).conclusion == Some("cancelled"@)
            || check_of(run).conclusion == Some("action_required"@)
            || check_of(run).conclusion == Some("stale"@))
            <==> (run.member("conclusion"@) == Some(DataView::Text("failure"@))
            || run.member("conclusion"@) == Some(DataView::Text("timed_out"@))
            || run.member("conclusion"@) == Some(DataView::Text("cancelled"@))
            || run.member("conclusion"@) == Some(DataView::Text("action_required"@))
            || run.member("conclusion"@) == Some(DataView::Text("stale"@))),
{
    reveal_strlit("completed");
    reveal_strlit("");
    assert("completed"@.len() == 9 && ""@.len() == 0);
}

/// What to do about a pull request, by what stands in GitHub's three replies.
/// It is drafted exactly when `mergeable` is false, when `state` is `failure` or
/// `error`, or when one of the `check_runs` is `completed` with a conclusion
/// that blocks. Where none of these holds, it waits unless `mergeable` is true,
/// its branch is updated when `mergeable_state` is `behind`, and it is left
/// alone in all other cases. No other member of any reply makes a difference.
pub proof fn evaluation_by_the_replies(pr: DataView, status: DataView, checks: DataView)
    ensures
        ({
            let action = evaluated(pr, status, checks);
            let conflict = pr.member("mergeable"@) == Some(DataView::Bool(false));
            let mergeable = pr.member("mergeable"@) == Some(DataView::Bool(true));
            let behind = pr.member("mergeable_state"@) == Some(DataView::Text("behind"@));
            let failing = status.member("state"@) == Some(DataView::Text("failure"@))
                || status.member("state"@) == Some(DataView::Text("error"@));
            let failed_run = (checks.member("check_runs"@) matches Some(DataView::List(runs))
                && exists|i: int|
                0 <= i < runs.len() && (#[trigger] runs[i]).member("status"@) == Some(
                    DataView::Text("completed"@),
                ) && (runs[i].member("conclusion"@) == Some(DataView::Text("failure"@))
                    || runs[i].member("conclusion"@) == Some(DataView::Text("timed_out"@))
                    || runs[i].member("conclusion"@) == Some(DataView::Text("cancelled"@))
                    || runs[i].member("conclusion"@) == Some(DataView::Text("action_required"@))
                    || runs[i].member("conclusion"@) == Some(DataView::Text("stale"@))));
            let blocked = conflict || failing || failed_run;
            &&& action is Draft <==> blocked
            &&& action == ActionView::Retry <==> !blocked && !mergeable
            &&& action == ActionView::UpdateBranch <==> !blocked && mergeable && behind
            &&& action == ActionView::Nothing <==> !blocked && mergeable && !behind
        }),
{
    replies_in_terms_of_the_rules(pr, status, checks);
    let views = checks_of(checks);
    crate::rules::decision_by_the_report(
        mergeable_of(pr),
        text_or(pr.member_text("mergeable_state"@), ""@),
        text_or(status.member_text("state"@), ""@),
        views,
    );
    let failed_run = (checks.member("check_runs"@) matches Some(DataView::List(runs))
                && exists|i: int|
                0 <= i < runs.len() && (#[trigger] runs[i]).member("status"@) == Some(
                    DataView::Text("completed"@),
                ) && (runs[i].member("conclusion"@) == Some(DataView::Text("failure"@))
                    || runs[i].member("conclusion"@) == Some(DataView::Text("timed_out"@))
                    || runs[i].member("conclusion"@) == Some(DataView::Text("cancelled"@))
                    || runs[i].member("conclusion"@) == Some(DataView::Text("action_required"@))
                    || runs[i].member("conclusion"@) == Some(DataView::Text("stale"@))));
    let failed_view = exists|i: int|
        0 <= i < views.len() && (#[trigger] views[i]).status == "completed"@ && (views[i].conclusion
            == Some("failure"@) || views[i].conclusion == Some("timed_out"@) || views[i].conclusion
            == Some("cancelled"@) || views[i].conclusion == Some("action_required"@)
            || views[i].conclusion == Some("stale"@));
    if let Some(DataView::List(runs)) = checks.member("check_runs"@) {
        assert forall|i: int| 0 <= i < runs.len() implies ((#[trigger] views[i]).status
            == "completed"@ && (views[i].conclusion == Some("failure"@)
                || views[i].conclusion == Some("timed_out"@)
                || views[i].conclusion == Some("cancelled"@)
                || views[i].conclusion == Some("action_required"@)
                || views[i].conclusion == Some("stale"@))) <==> (runs[i].member("status"@) == Some(
            DataView::Text("completed"@),
        ) && (runs[i].member("conclusion"@) == Some(DataView::Text("failure"@))
            || runs[i].member("conclusion"@) == Some(DataView::Text("timed_out"@))
            || runs[i].member("conclusion"@) == Some(DataView::Text("cancelled"@))
            || runs[i].member("conclusion"@) == Some(DataView::Text("action_required"@))
            || runs[i].member("conclusion"@) == Some(DataView::Text("stale"@)))) by {
            assert(views[i] == check_of(runs[i]));
            run_in_terms_of_the_rules(runs[i], ""@);
        }
        if failed_run {
            let k = choose|i: int|
                0 <= i < runs.len() && (#[trigger] runs[i]).member("status"@) == Some(
                    DataView::Text("completed"@),
                ) && (runs[i].member("conclusion"@) == Some(DataView::Text("failure"@))
                    || runs[i].member("conclusion"@) == Some(DataView::Text("timed_out"@))
                    || runs[i].member("conclusion"@) == Some(DataView::Text("cancelled"@))
                    || runs[i].member("conclusion"@) == Some(DataView::Text("action_required"@))
                    || runs[i].member("conclusion"@) == Some(DataView::Text("stale"@)));
            assert(views[k].status == "completed"@);
            assert(failed_view);
        }
        if failed_view {
            let k = choose|i: int|
                0 <= i < views.len() && (#[trigger] views[i]).status == "completed"@
                    && (views[i].conclusion == Some("failure"@)
                    || views[i].conclusion == Some("timed_out"@)
                    || views[i].conclusion == Some("cancelled"@)
                    || views[i].conclusion == Some("action_required"@)
                    || views[i].conclusion == Some("stale"@));
            assert(runs[k].member("status"@) == Some(DataView::Text("completed"@)));
            assert(failed_run);
        }
    }
    assert(failed_run <==> failed_view);
}

/// A draft says why, by what stands in the replies: merge conflicts before
/// everything else, then the combined status, then the first check run that is
/// completed with a conclusion that blocks, by its name and its conclusion.
pub proof fn reason_by_the_replies(
    pr: DataView,
    status: DataView,
    checks: DataView,
    state: Seq<char>,
    runs: Seq<DataView>,
    at: int,
    name: Seq<char>,
    conclusion: Seq<char>,
)
    ensures
        ({
            let action = evaluated(pr, status, checks);
            let conflict = pr.member("mergeable"@) == Some(DataView::Bool(false));
            let failing = status.member("state"@) == Some(DataView::Text("failure"@))
                || status.member("state"@) == Some(DataView::Text("error"@));
            let first = {
                &&& checks.member("check_runs"@) == Some(DataView::List(runs))
                &&& 0 <= at < runs.len()
                &&& runs[at].member("status"@) == Some(DataView::Text("completed"@))
                &&& runs[at].member("conclusion"@) == Some(DataView::Text(conclusion))
                &&& (conclusion == "failure"@ || conclusion == "timed_out"@
                    || conclusion == "cancelled"@ || conclusion == "action_required"@
                    || conclusion == "stale"@)
                &&& forall|i: int|
                    0 <= i < at ==> (#[trigger] runs[i]).member("status"@) != Some(
                        DataView::Text("completed"@),
                    ) || !(runs[i].member("conclusion"@) == Some(DataView::Text("failure"@))
                        || runs[i].member("conclusion"@) == Some(DataView::Text("timed_out"@))
                        || runs[i].member("conclusion"@) == Some(DataView::Text("cancelled"@))
                        || runs[i].member("conclusion"@) == Some(DataView::Text("action_required"@))
                        || runs[i].member("conclusion"@) == Some(DataView::Text("stale"@)))
            };
            &&& conflict ==> action == ActionView::Draft("merge conflicts"@)
            &&& !conflict && failing && status.member("state"@) == Some(DataView::Text(state))
                ==> action == ActionView::Draft("combined status "@ + state)
            &&& !conflict && !failing && first && runs[at].member("name"@) == Some(
                DataView::Text(name),
            ) ==> action == ActionView::Draft("check '"@ + name + "' "@ + conclusion)
            &&& !conflict && !failing && first && !(runs[at].member("name"@) matches Some(v)
                && v is Text) ==> action == ActionView::Draft(
                "check '"@ + "?"@ + "' "@ + conclusion,
            )
        }),
{
    replies_in_terms_of_the_rules(pr, status, checks);
    let views = checks_of(checks);
    crate::rules::reason_by_the_report(
        mergeable_of(pr),
        text_or(pr.member_text("mergeable_state"@), ""@),
        text_or(status.member_text("state"@), ""@),
        views,
        at,
        conclusion,
    );
    if checks.member("check_runs"@) == Some(DataView::List(runs)) && 0 <= at < runs.len() {
        assert(views[at] == check_of(runs[at]));
        run_in_terms_of_the_rules(runs[at], conclusion);
        assert forall|i: int| 0 <= i < at implies ((#[trigger] views[i]).status == "completed"@
            && (views[i].conclusion == Some("failure"@)
                || views[i].conclusion == Some("timed_out"@)
                || views[i].conclusion == Some("cancelled"@)
                || views[i].conclusion == Some("action_required"@)
                || views[i].conclusion == Some("stale"@))) <==> (runs[i].member("status"@) == Some(
            DataView::Text("completed"@),
        ) && (runs[i].member("conclusion"@) == Some(DataView::Text("failure"@))
            || runs[i].member("conclusion"@) == Some(DataView::Text("timed_out"@))
            || runs[i].member("conclusion"@) == Some(DataView::Text("cancelled"@))
            || runs[i].member("conclusion"@) == Some(DataView::Text("action_required"@))
            || runs[i].member("conclusion"@) == Some(DataView::Text("stale"@)))) by {
            assert(views[i] == check_of(runs[i]));
            run_in_terms_of_the_rules(runs[i], conclusion);
        }
    }
}

/// Replies that agree on `mergeable`, `mergeable_state`, `state` and
/// `check_runs` lead to the same action, whatever else they hold.
pub proof fn only_four_members_matter(
    pr: DataView,
    status: DataView,
    checks: DataView,
    other_pr: DataView,
    other_status: DataView,
    other_checks: DataView,
)
    requires
        pr.member("mergeable"@) == other_pr.member("mergeable"@),
        pr.member("mergeable_state"@) == other_pr.member("mergeable_state"@),
        status.member("state"@) == other_status.member("state"@),
        checks.member("check_runs"@) == other_checks.member("check_runs"@),
    ensures
        evaluated(pr, status, checks) == evaluated(other_pr, other_status, other_checks),
{
}

/// An evaluation comes to an action exactly when all three reads were answered
/// with JSON, and then to the action of the three documents. A read that failed
/// is the error, with its reason; else the first reply that is not JSON is, in
/// the order of the reads, with the parser's words.
pub proof fn evaluation_by_the_reads(
    pr: Vec<u8>,
    status: Vec<u8>,
    checks: Vec<u8>,
    read: Read,
    cause: String,
)
    ensures
        ({
            let outcome = evaluation(Reads::Answered { pr, status, checks });
            match (
                crate::json::json_parse(pr@),
                crate::json::json_parse(status@),
                crate::json::json_parse(checks@),
            ) {
                (Parsed::Document(a), Parsed::Document(b), Parsed::Document(c)) => outcome == Ok::<
                    ActionView,
                    DrafterErrorView,
                >(evaluated(a, b, c)),
                (Parsed::Failed(words), _, _) => outcome == Err::<ActionView, DrafterErrorView>(
                    DrafterErrorView::Failed(Stage::ParsePull, words),
                ),
                (_, Parsed::Failed(words), _) => outcome == Err::<ActionView, DrafterErrorView>(
                    DrafterErrorView::Failed(Stage::ParseStatus, words),
                ),
                (_, _, Parsed::Failed(words)) => outcome == Err::<ActionView, DrafterErrorView>(
                    DrafterErrorView::Failed(Stage::ParseChecks, words),
                ),
            }
        }),
        evaluation(Reads::Failed(read, cause)) == Err::<ActionView, DrafterErrorView>(
            DrafterErrorView::Failed(
                match read {
                    Read::Pull => Stage::GetPull,
                    Read::Status => Stage::GetStatus,
                    Read::Checks => Stage::GetChecks,
                },
                cause@,
            ),
        ),
{
}

/// Every item that is the owner's own is listed: where `repository_url` reads as
/// a repository of `DominicBurkart` and `number` is an unsigned integer, the
/// item is that pull request, draft or not and whatever else it holds.
pub proof fn every_own_item_is_listed(
    issue: DataView,
    url: Seq<char>,
    repo: Seq<char>,
    shown: Seq<char>,
    number: u64,
)
    requires
        issue.member("repository_url"@) == Some(DataView::Text(url)),
        crate::url::repo_of(url) == Some(("DominicBurkart"@, repo)),
        issue.member("number"@) == Some(DataView::Scalar(shown, Some(number))),
    ensures
        pull_of(issue) == Some(PullRefView { owner: "DominicBurkart"@, repo, number }),
{
    reveal_strlit("DominicBurkart/");
    reveal_strlit("DominicBurkart");
    reveal_strlit("/");
    assert("DominicBurkart"@ + "/"@ =~= "DominicBurkart/"@);
    assert("DominicBurkart"@ + "/"@ + repo =~= "DominicBurkart/"@ + repo);
    crate::text::begins_with_means_prefix(
        "DominicBurkart/"@ + repo,
        "DominicBurkart/"@,
        repo,
    );
}

/// No item is listed but those: what is listed is read out of the item's own
/// `repository_url` and `number`, and its owner is `DominicBurkart`.
pub proof fn nothing_else_is_listed(issue: DataView, pull: PullRefView)
    requires
        pull_of(issue) == Some(pull),
    ensures
        pull.owner == "DominicBurkart"@,
        issue.member("repository_url"@) matches Some(DataView::Text(url)) && crate::url::repo_of(
            url,
        ) == Some((pull.owner, pull.repo)),
        issue.member("number"@) matches Some(DataView::Scalar(_, n)) && n == Some(pull.number),
{
    only_own_pulls(issue);
    reveal_strlit("");
    assert(""@.len() == 0);
    if issue.member_text("repository_url"@) is None {
        let url = ""@;
        if let Some((owner, repo)) = crate::url::repo_of(url) {
            crate::url::what_is_read_stands_in_the_url(url, owner, repo);
            let (p, z) = choose|p: Seq<char>, z: Seq<char>|
                url == #[trigger] (p + owner + "/"@ + repo + z);
            assert((p + owner + "/"@ + repo + z).len() >= owner.len());
        }
    }
}

/// The search's reply lists the pull requests of its items, in order: those of
/// one item are the pull request that it is, if it is one, and items are taken
/// one after the other. A reply without a list of `items` lists nothing.
pub proof fn listing_by_the_items(
    reply: DataView,
    items: Seq<DataView>,
    item: DataView,
    at: int,
)
    ensures
        reply.member("items"@) == Some(DataView::List(items)) ==> pulls_listed(reply) == pulls_of(
            items,
        ),
        !(reply.member("items"@) matches Some(v) && v is List) ==> pulls_listed(reply).len() == 0,
        pulls_of(Seq::<DataView>::empty()).len() == 0,
        pulls_of(items.push(item)) == pulls_of(items) + (match pull_of(item) {
            Some(pull) => seq![pull],
            None => Seq::empty(),
        }),
        0 <= at < items.len() && pull_of(items[at]) is Some ==> pulls_of(items).contains(
            pull_of(items[at])->0,
        ),
    decreases items.len(),
{
    assert(items.push(item).drop_last() =~= items);
    assert(pulls_of(items.push(item)) =~= pulls_of(items) + (match pull_of(item) {
        Some(pull) => seq![pull],
        None => Seq::empty(),
    }));
    if 0 <= at < items.len() && pull_of(items[at]) is Some {
        let pull = pull_of(items[at])->0;
        let front = items.drop_last();
        if at == items.len() - 1 {
            assert(pulls_of(items)[pulls_of(items).len() - 1] == pull);
        } else {
            assert(front[at] == items[at]);
            listing_by_the_items(reply, front, item, at);
            let k = choose|k: int| 0 <= k < pulls_of(front).len() && pulls_of(front)[k] == pull;
            assert(pulls_of(items)[k] == pull);
        }
    }
}

/// A pull request is a candidate exactly when GitHub gives its `node_id` and the
/// `sha` of its `head` as strings, and then with these and as the pull request
/// that was asked about. A missing `node_id` is reported before a missing `sha`.
pub proof fn candidate_by_the_reply(pull: PullRefView, pr: DataView, c: CandidateView)
    ensures
        candidate_of(pull, pr) == Ok::<CandidateView, SkipView>(c) <==> {
            &&& pr.member("node_id"@) == Some(DataView::Text(c.node_id))
            &&& pr.member("head"@) matches Some(head) && head.member("sha"@) == Some(
                DataView::Text(c.head_sha),
            )
            &&& c.owner == pull.owner
            &&& c.repo == pull.repo
            &&& c.number == pull.number
        },
        !(pr.member("node_id"@) matches Some(v) && v is Text) ==> candidate_of(pull, pr) == Err::<
            CandidateView,
            SkipView,
        >(SkipView::MissingNodeId),
        (pr.member("node_id"@) matches Some(v) && v is Text) && !(pr.member("head"@) matches Some(
            head,
        ) && (head.member("sha"@) matches Some(v) && v is Text)) ==> candidate_of(pull, pr) == Err::<
            CandidateView,
            SkipView,
        >(SkipView::MissingHeadSha),
{
}

/// A conversion has succeeded exactly when the request was answered with JSON
/// that has no `errors` or an empty list of them, whatever else the reply holds.
/// Any other `errors` is the error, and is displayed; so is a reply that is not
/// JSON, and a request that failed, each with its reason.
pub proof fn conversion_by_the_reply(body: Seq<u8>, cause: Seq<char>)
    ensures
        match crate::json::json_parse(body) {
            Parsed::Failed(words) => conversion(Ok(body)) == Err::<(), DrafterErrorView>(
                DrafterErrorView::Failed(Stage::ParseGraphql, words),
            ),
            Parsed::Document(reply) => {
                &&& conversion(Ok(body)) is Ok <==> reply.member("errors"@) is None
                    || reply.member("errors"@) == Some(DataView::List(Seq::empty()))
                &&& reply.member("errors"@) is Some && reply.member("errors"@) != Some(
                    DataView::List(Seq::empty()),
                ) ==> conversion(Ok(body)) == Err::<(), DrafterErrorView>(
                    DrafterErrorView::GraphqlErrors(
                        crate::json::json_text(reply.member("errors"@)->0),
                    ),
                )
            },
        },
        conversion(Err(cause)) == Err::<(), DrafterErrorView>(
            DrafterErrorView::Failed(Stage::Graphql, cause),
        ),
{
    if let Parsed::Document(reply) = crate::json::json_parse(body) {
        if let Some(DataView::List(items)) = reply.member("errors"@) {
            if items.len() == 0 {
                assert(items =~= Seq::empty());
            }
        }
    }
}

/// Errors are found in the reply to a conversion exactly when it has `errors`
/// that are not an empty list, and they are what is found.
pub proof fn errors_are_what_the_reply_says(reply: DataView, errors: DataView)
    ensures
        errors_in(reply) == Some(errors) <==> reply.member("errors"@) == Some(errors) && errors
            != DataView::List(Seq::empty()),
        errors_in(reply) is None <==> reply.member("errors"@) is None || reply.member("errors"@)
            == Some(DataView::List(Seq::empty())),
{
    if let Some(DataView::List(items)) = reply.member("errors"@) {
        if items.len() == 0 {
            assert(items =~= Seq::empty());
        }
    }
}

/// An update has succeeded exactly when the request was answered, whatever the
/// answer; a request that failed is the error, with its reason.
pub proof fn update_by_the_reply(body: Seq<u8>, cause: Seq<char>)
    ensures
        update(Ok(body)) is Ok,
        update(Err(cause)) == Err::<(), DrafterErrorView>(
            DrafterErrorView::Failed(Stage::UpdateBranch, cause),
        ),
{
}

/// The three reads about a candidate, spelled out: its pull request, and the
/// combined status and the check runs of its own head, all with `GET`.
pub proof fn reads_are_spelled_out(api: Seq<char>, c: CandidateView)
    ensures
        ({
            let (pull, status, checks) = evaluate_calls(api, c);
            let repo = api + "/repos/"@ + c.owner + "/"@ + c.repo;
            &&& pull.url == repo + "/pulls/"@ + crate::text::decimal(c.number as nat)
            &&& status.url == repo + "/commits/"@ + c.head_sha + "/status"@
            &&& checks.url == repo + "/commits/"@ + c.head_sha + "/check-runs"@
            &&& pull.method == "GET"@ && status.method == "GET"@ && checks.method == "GET"@
            &&& pull.body is None && status.body is None && checks.body is None
        }),
{
}

/// The step after the reads: what is drafted is converted by its id, what is
/// behind is updated for its own head, and everything else is done at once, with
/// nothing written.
pub proof fn step_after_the_reads(api: Seq<char>, c: CandidateView, reads: Reads)
    ensures
        ({
            let (next, request) = stepped(
                api,
                c,
                ProgressView::Evaluating,
                Event::Evaluated(reads),
            );
            match evaluation(reads) {
                Ok(ActionView::Draft(reason)) => {
                    &&& next == ProgressView::Drafting(reason)
                    &&& request == Some(
                        HttpRequestView {
                            method: "POST"@,
                            url: api + "/graphql"@,
                            body: Some(
                                crate::json::json_print(crate::api::draft_body(c.node_id)),
                            ),
                        },
                    )
                },
                Ok(ActionView::UpdateBranch) => {
                    &&& next == ProgressView::Updating
                    &&& request == Some(
                        HttpRequestView {
                            method: "PUT"@,
                            url: api + "/repos/"@ + c.owner + "/"@ + c.repo + "/pulls/"@
                                + crate::text::decimal(c.number as nat) + "/update-branch"@,
                            body: Some(
                                crate::json::json_print(crate::api::update_body(c.head_sha)),
                            ),
                        },
                    )
                },
                Ok(ActionView::Retry) => next == ProgressView::Done(OutcomeView::Retry) && request
                    is None,
                Ok(ActionView::Nothing) => next == ProgressView::Done(OutcomeView::Nothing)
                    && request is None,
                Err(e) => next == ProgressView::Done(OutcomeView::EvaluateFailed(e)) && request
                    is None,
            }
        }),
{
}

/// The step after the write: the candidate is done, with what the reply comes
/// to, and nothing more is written.
pub proof fn step_after_the_write(
    api: Seq<char>,
    c: CandidateView,
    reason: Seq<char>,
    reply: Result<Vec<u8>, String>,
)
    ensures
        ({
            let sent = match reply {
                Ok(body) => Ok::<Seq<u8>, Seq<char>>(body@),
                Err(cause) => Err::<Seq<u8>, Seq<char>>(cause@),
            };
            let drafting = stepped(api, c, ProgressView::Drafting(reason), Event::Written(reply));
            let updating = stepped(api, c, ProgressView::Updating, Event::Written(reply));
            &&& drafting.1 is None && updating.1 is None
            &&& match conversion(sent) {
                Ok(_) => drafting.0 == ProgressView::Done(OutcomeView::Drafted(reason)),
                Err(e) => drafting.0 == ProgressView::Done(OutcomeView::DraftFailed(e)),
            }
            &&& match reply {
                Ok(_) => updating.0 == ProgressView::Done(OutcomeView::Updated),
                Err(cause) => updating.0 == ProgressView::Done(
                    OutcomeView::UpdateFailed(
                        DrafterErrorView::Failed(Stage::UpdateBranch, cause@),
                    ),
                ),
            }
        }),
{
}

/// An event that nobody waits for changes nothing and writes nothing: one after
/// the end, a reply before the write, and reads after the first.
pub proof fn stray_events_change_nothing(
    api: Seq<char>,
    c: CandidateView,
    progress: ProgressView,
    event: Event,
)
    requires
        progress is Done || (progress is Evaluating && event is Written) || (!(progress
            is Evaluating) && event is Evaluated),
    ensures
        stepped(api, c, progress, event).0 == progress,
        stepped(api, c, progress, event).1 is None,
{
}

/// From the replies to the write, over every course of events: a candidate is
/// converted to a draft, by its own id, exactly when the replies say that it is
/// blocked; its branch is updated, for its own head, exactly when they say that
/// nothing blocks, that it can be merged and that it is behind; and nothing is
/// written in all other cases.
pub proof fn writes_by_the_replies(
    api: Seq<char>,
    c: CandidateView,
    events: Seq<Event>,
    pr_body: Vec<u8>,
    status_body: Vec<u8>,
    checks_body: Vec<u8>,
    pr: DataView,
    status: DataView,
    checks: DataView,
)
    requires
        first_reads(events) == Some(
            Reads::Answered { pr: pr_body, status: status_body, checks: checks_body },
        ),
        crate::json::json_parse(pr_body@) == Parsed::Document(pr),
        crate::json::json_parse(status_body@) == Parsed::Document(status),
        crate::json::json_parse(checks_body@) == Parsed::Document(checks),
    ensures
        ({
            let written = processed(api, c, events).1;
            let conflict = pr.member("mergeable"@) == Some(DataView::Bool(false));
            let mergeable = pr.member("mergeable"@) == Some(DataView::Bool(true));
            let behind = pr.member("mergeable_state"@) == Some(DataView::Text("behind"@));
            let failing = status.member("state"@) == Some(DataView::Text("failure"@))
                || status.member("state"@) == Some(DataView::Text("error"@));
            let failed_run = (checks.member("check_runs"@) matches Some(DataView::List(runs))
                && exists|i: int|
                0 <= i < runs.len() && (#[trigger] runs[i]).member("status"@) == Some(
                    DataView::Text("completed"@),
                ) && (runs[i].member("conclusion"@) == Some(DataView::Text("failure"@))
                    || runs[i].member("conclusion"@) == Some(DataView::Text("timed_out"@))
                    || runs[i].member("conclusion"@) == Some(DataView::Text("cancelled"@))
                    || runs[i].member("conclusion"@) == Some(DataView::Text("action_required"@))
                    || runs[i].member("conclusion"@) == Some(DataView::Text("stale"@))));
            let blocked = conflict || failing || failed_run;
            &&& blocked ==> written == seq![
                HttpRequestView {
                    method: "POST"@,
                    url: api + "/graphql"@,
                    body: Some(crate::json::json_print(crate::api::draft_body(c.node_id))),
                },
            ]
            &&& !blocked && mergeable && behind ==> written == seq![
                HttpRequestView {
                    method: "PUT"@,
                    url: api + "/repos/"@ + c.owner + "/"@ + c.repo + "/pulls/"@
                        + crate::text::decimal(c.number as nat) + "/update-branch"@,
                    body: Some(crate::json::json_print(crate::api::update_body(c.head_sha))),
                },
            ]
            &&& !blocked && !(mergeable && behind) ==> written.len() == 0
        }),
{
    writes_follow_the_evaluation(api, c, events);
    evaluation_by_the_replies(pr, status, checks);
}

/// The first reads in a course of events are those of the first event that is
/// one of reads; there are none where no event is.
pub proof fn first_reads_are_first(events: Seq<Event>, at: int)
    requires
        0 <= at < events.len(),
        events[at] is Evaluated,
        forall|i: int| 0 <= i < at ==> !((#[trigger] events[i]) is Evaluated),
    ensures
        first_reads(events) == Some(events[at]->Evaluated_0),
    decreases events.len(),
{
    if at == events.len() - 1 {
        no_reads_without_an_event(events.drop_last());
    } else {
        first_reads_are_first(events.drop_last(), at);
    }
}

proof fn no_reads_without_an_event(events: Seq<Event>)
    requires
        forall|i: int| 0 <= i < events.len() ==> !((#[trigger] events[i]) is Evaluated),
    ensures
        first_reads(events) is None,
    decreases events.len(),
{
    if events.len() > 0 {
        assert(!(events[events.len() - 1] is Evaluated));
        no_reads_without_an_event(events.drop_last());
    }
}

/// Every error in words, and with everything that led to it.
pub proof fn drafter_errors_are_spelled_out(stage: Stage, cause: Seq<char>)
    ensures
        DrafterErrorView::Failed(stage, cause).words() == stage.words(),
        DrafterErrorView::Failed(stage, cause).chain() == stage.words() + ": "@ + cause,
        DrafterErrorView::GraphqlErrors(cause).words() == "graphql errors: "@ + cause,
        DrafterErrorView::GraphqlErrors(cause).chain() == "graphql errors: "@ + cause,
        SkipView::Request(cause).chain() == "pulls.get failed: "@ + cause,
        SkipView::Parse(cause).chain() == "pr json parse failed: "@ + cause,
        SkipView::MissingNodeId.chain() == "PR missing node_id; skipping"@,
        SkipView::MissingHeadSha.chain() == "PR missing head.sha; skipping"@,
{
}

/// The views show every field as it is.
pub proof fn drafter_views_show_everything(
    pull: PullRef,
    c: CandidatePr,
    e: DrafterError,
    skip: Skip,
    progress: Progress,
    outcome: Outcome,
)
    ensures
        pull@ == (PullRefView { owner: pull.owner@, repo: pull.repo@, number: pull.number }),
        c@ == (CandidateView {
            owner: c.owner@,
            repo: c.repo@,
            number: c.number,
            node_id: c.node_id@,
            head_sha: c.head_sha@,
        }),
        match e {
            DrafterError::Failed(stage, cause) => e@ == DrafterErrorView::Failed(stage, cause@),
            DrafterError::GraphqlErrors(errors) => e@ == DrafterErrorView::GraphqlErrors(errors@),
        },
        match skip {
            Skip::Request(cause) => skip@ == SkipView::Request(cause@),
            Skip::Parse(cause) => skip@ == SkipView::Parse(cause@),
            Skip::MissingNodeId => skip@ is MissingNodeId,
            Skip::MissingHeadSha => skip@ is MissingHeadSha,
        },
        match progress {
            Progress::Evaluating => progress@ is Evaluating,
            Progress::Drafting(reason) => progress@ == ProgressView::Drafting(reason@),
            Progress::Updating => progress@ is Updating,
            Progress::Done(done) => progress@ == ProgressView::Done(done@),
        },
        match outcome {
            Outcome::Nothing => outcome@ is Nothing,
            Outcome::Retry => outcome@ is Retry,
            Outcome::Drafted(reason) => outcome@ == OutcomeView::Drafted(reason@),
            Outcome::Updated => outcome@ is Updated,
            Outcome::EvaluateFailed(e) => outcome@ == OutcomeView::EvaluateFailed(e@),
            Outcome::DraftFailed(e) => outcome@ == OutcomeView::DraftFailed(e@),
            Outcome::UpdateFailed(e) => outcome@ == OutcomeView::UpdateFailed(e@),
        },
{
}

/// Results are shown as they are: success as success with what it holds, and an
/// error as that error, and rows item by item.
pub proof fn drafter_results_are_shown(
    c: CandidatePr,
    skip: Skip,
    action: Action,
    e: DrafterError,
    body: Vec<u8>,
    cause: String,
    request: HttpRequest,
    pulls: Seq<PullRef>,
)
    ensures
        fetched(Ok(c)) == Ok::<CandidateView, SkipView>(c@),
        fetched(Err(skip)) == Err::<CandidateView, SkipView>(skip@),
        evaluation_outcome(Ok(action)) == Ok::<ActionView, DrafterErrorView>(action@),
        evaluation_outcome(Err(e)) == Err::<ActionView, DrafterErrorView>(e@),
        write_outcome(Ok(())) is Ok,
        write_outcome(Err(e)) == Err::<(), DrafterErrorView>(e@),
        reply_view(Ok(body)) == Ok::<Seq<u8>, Seq<char>>(body@),
        reply_view(Err(cause)) == Err::<Seq<u8>, Seq<char>>(cause@),
        request_view(Some(request)) == Some(request@),
        request_view(None) is None,
        pull_views(pulls).len() == pulls.len(),
        forall|i: int| 0 <= i < pulls.len() ==> #[trigger] pull_views(pulls)[i] == pulls[i]@,
{
}

}
