//! The requests that PRodder makes of the GitHub REST and GraphQL APIs.
use vstd::prelude::*;
use vstd::string::*;
use vstd::utf8::*;

use crate::data::{Data, DataView, Parsed};
use crate::text::push_decimal;
use crate::url::percent_encode;

verus! {

/// The open pull requests to look at, as GitHub's search spells them.
pub const SEARCH_QUERY: &'static str = "is:open is:pr author:DominicBurkart archived:false";

/// Where the GitHub REST API is.
pub const DEFAULT_API: &'static str = "https://api.github.com";

/// The GraphQL mutation that turns a pull request into a draft.
pub const CONVERT_TO_DRAFT_MUTATION: &'static str =
    "mutation ConvertToDraft($id: ID!) { convertPullRequestToDraft(input: { pullRequestId: $id }) { pullRequest { id isDraft } } }";

/// An HTTP request to the API.
#[derive(Debug, PartialEq, Eq)]
pub struct HttpRequest {
    pub method: String,
    pub url: String,
    pub body: Option<Vec<u8>>,
}

/// An [`HttpRequest`] by its characters and bytes.
pub struct HttpRequestView {
    pub method: Seq<char>,
    pub url: Seq<char>,
    pub body: Option<Seq<u8>>,
}

impl View for HttpRequest {
    type V = HttpRequestView;

    open spec fn view(&self) -> HttpRequestView {
        HttpRequestView {
            method: self.method@,
            url: self.url@,
            body: match self.body {
                Some(body) => Some(body@),
                None => None,
            },
        }
    }
}

/// Resolve the GitHub API base URL: the one that the environment names, else
/// GitHub's own.
pub fn api_base(from_environment: Option<String>) -> (r: String)
    ensures
        r@ == (match from_environment {
            Some(base) => base@,
            None => DEFAULT_API@,
        }),
{
    match from_environment {
        Some(base) => base,
        None => DEFAULT_API.to_owned(),
    }
}

/// A request that only reads.
pub open spec fn get(url: Seq<char>) -> HttpRequestView {
    HttpRequestView { method: "GET"@, url, body: None }
}

/// The URL of a repository.
pub open spec fn repo_url(api: Seq<char>, owner: Seq<char>, repo: Seq<char>) -> Seq<char> {
    api + "/repos/"@ + owner + "/"@ + repo
}

/// The URL of a pull request.
pub open spec fn pull_url(api: Seq<char>, owner: Seq<char>, repo: Seq<char>, number: u64) -> Seq<
    char,
> {
    repo_url(api, owner, repo) + "/pulls/"@ + crate::text::decimal(number as nat)
}

/// The URL of a commit's combined status.
pub open spec fn status_url(
    api: Seq<char>,
    owner: Seq<char>,
    repo: Seq<char>,
    sha: Seq<char>,
) -> Seq<char> {
    repo_url(api, owner, repo) + "/commits/"@ + sha + "/status"@
}

/// The URL of a commit's check runs.
pub open spec fn checks_url(
    api: Seq<char>,
    owner: Seq<char>,
    repo: Seq<char>,
    sha: Seq<char>,
) -> Seq<char> {
    repo_url(api, owner, repo) + "/commits/"@ + sha + "/check-runs"@
}

/// The URL that asks for a pull request's branch to be updated.
pub open spec fn update_url(
    api: Seq<char>,
    owner: Seq<char>,
    repo: Seq<char>,
    number: u64,
) -> Seq<char> {
    pull_url(api, owner, repo, number) + "/update-branch"@
}

/// The URL of the search for the pull requests to look at.
pub open spec fn search_url(api: Seq<char>) -> Seq<char> {
    api + "/search/issues?q="@ + crate::url::encoded(encode_utf8(SEARCH_QUERY@)) + "&per_page=100"@
}

fn get_request(url: String) -> (r: HttpRequest)
    ensures
        r@ == get(url@),
{
    HttpRequest { method: "GET".to_owned(), url, body: None }
}

fn build_repo_url(api: &str, owner: &str, repo: &str) -> (r: String)
    ensures
        r@ == repo_url(api@, owner@, repo@),
{
    let mut url = api.to_owned();
    url.append("/repos/");
    url.append(owner);
    url.append("/");
    url.append(repo);
    url
}

/// The request that searches for the pull requests to look at.
pub fn search_request(api: &str) -> (r: HttpRequest)
    ensures
        r@ == get(search_url(api@)),
{
    let mut url = api.to_owned();
    url.append("/search/issues?q=");
    url.append(percent_encode(SEARCH_QUERY).as_str());
    url.append("&per_page=100");
    get_request(url)
}

/// The request that reads a pull request.
pub fn pull_request(api: &str, owner: &str, repo: &str, number: u64) -> (r: HttpRequest)
    ensures
        r@ == get(pull_url(api@, owner@, repo@, number)),
{
    let mut url = build_repo_url(api, owner, repo);
    url.append("/pulls/");
    push_decimal(&mut url, number);
    get_request(url)
}

/// The request that reads a commit's combined status.
pub fn status_request(api: &str, owner: &str, repo: &str, sha: &str) -> (r: HttpRequest)
    ensures
        r@ == get(status_url(api@, owner@, repo@, sha@)),
{
    let mut url = build_repo_url(api, owner, repo);
    url.append("/commits/");
    url.append(sha);
    url.append("/status");
    get_request(url)
}

/// The request that reads a commit's check runs.
pub fn checks_request(api: &str, owner: &str, repo: &str, sha: &str) -> (r: HttpRequest)
    ensures
        r@ == get(checks_url(api@, owner@, repo@, sha@)),
{
    let mut url = build_repo_url(api, owner, repo);
    url.append("/commits/");
    url.append(sha);
    url.append("/check-runs");
    get_request(url)
}

/// The request that reads the user whom the token belongs to.
pub fn user_request(api: &str) -> (r: HttpRequest)
    ensures
        r@ == get(api@ + "/user"@),
{
    let mut url = api.to_owned();
    url.append("/user");
    get_request(url)
}

/// What asks for a pull request to be turned into a draft.
pub open spec fn draft_body(node_id: Seq<char>) -> DataView {
    DataView::Record(
        map![
            "query"@ => DataView::Text(CONVERT_TO_DRAFT_MUTATION@),
            "variables"@ => DataView::Record(map!["id"@ => DataView::Text(node_id)]),
        ],
    )
}

/// What asks for a branch to be updated, as long as its head has not moved.
pub open spec fn update_body(expected_head_sha: Seq<char>) -> DataView {
    DataView::Record(map!["expected_head_sha"@ => DataView::Text(expected_head_sha)])
}

/// The request that asks for a pull request to be turned into a draft.
pub open spec fn draft_call(api: Seq<char>, node_id: Seq<char>) -> HttpRequestView {
    HttpRequestView {
        method: "POST"@,
        url: api + "/graphql"@,
        body: Some(crate::json::json_print(draft_body(node_id))),
    }
}

/// The request that asks for a branch to be updated.
pub open spec fn update_call(
    api: Seq<char>,
    owner: Seq<char>,
    repo: Seq<char>,
    number: u64,
    expected_head_sha: Seq<char>,
) -> HttpRequestView {
    HttpRequestView {
        method: "PUT"@,
        url: update_url(api, owner, repo, number),
        body: Some(crate::json::json_print(update_body(expected_head_sha))),
    }
}

/// A record with one string in it.
fn text_record(name: &str, text: &str) -> (r: Data)
    ensures
        r@ == DataView::Record(map![name@ => DataView::Text(text@)]),
        crate::data::writable(r),
{
    let mut members: Vec<(String, Data)> = Vec::new();
    members.push((name.to_owned(), Data::Text(text.to_owned())));
    let ghost parts = crate::data::member_contents(members@);
    proof {
        reveal_with_fuel(crate::data::record_of, 2);
        reveal_with_fuel(crate::data::writable, 2);
        assert(crate::data::record_of(parts) =~= map![name@ => DataView::Text(text@)]);
    }
    Data::Record(members)
}

/// The request that asks for a pull request to be turned into a draft. Its
/// body reads back as the mutation with the pull request's id.
pub fn draft_request(api: &str, node_id: &str) -> (r: HttpRequest)
    ensures
        r@ == draft_call(api@, node_id@),
        crate::json::json_parse(r@.body->0) == Parsed::Document(draft_body(node_id@)),
{
    let variables = text_record("id", node_id);
    let mut members: Vec<(String, Data)> = Vec::new();
    members.push(("query".to_owned(), Data::Text(CONVERT_TO_DRAFT_MUTATION.to_owned())));
    members.push(("variables".to_owned(), variables));
    let ghost parts = crate::data::member_contents(members@);
    proof {
        reveal_with_fuel(crate::data::record_of, 3);
        assert(parts[0] == ("query"@, DataView::Text(CONVERT_TO_DRAFT_MUTATION@)));
        assert(parts[1] == ("variables"@, variables@));
        assert(crate::data::record_of(parts) =~= draft_body(node_id@)->Record_0);
        reveal_strlit("query");
        reveal_strlit("variables");
        assert("query"@.len() == 5 && "variables"@.len() == 9);
        assert forall|i: int| 0 <= i < members@.len() implies crate::data::writable(
            (#[trigger] members@[i]).1,
        ) by {
            assert(members@[i].1 is Text || members@[i].1 == variables);
        }
    }
    let body = Data::Record(members);
    assert(crate::data::plain(body@, 127)) by {
        reveal_with_fuel(crate::data::plain, 3);
    }
    let mut url = api.to_owned();
    url.append("/graphql");
    HttpRequest { method: "POST".to_owned(), url, body: Some(crate::json::print(&body)) }
}

/// The request that asks GitHub to merge the base branch into the PR's head
/// branch.
///
/// `expected_head_sha` is passed so the request is rejected (422) if the head
/// moved between our evaluation and this call, preventing a race with a
/// concurrent push. The body reads back with it.
pub fn update_request(
    api: &str,
    owner: &str,
    repo: &str,
    number: u64,
    expected_head_sha: &str,
) -> (r: HttpRequest)
    ensures
        r@ == update_call(api@, owner@, repo@, number, expected_head_sha@),
        crate::json::json_parse(r@.body->0) == Parsed::Document(update_body(expected_head_sha@)),
{
    let body = text_record("expected_head_sha", expected_head_sha);
    assert(crate::data::plain(body@, 127)) by {
        reveal_with_fuel(crate::data::plain, 2);
    }
    let mut url = build_repo_url(api, owner, repo);
    url.append("/pulls/");
    push_decimal(&mut url, number);
    url.append("/update-branch");
    HttpRequest { method: "PUT".to_owned(), url, body: Some(crate::json::print(&body)) }
}

/// The URL of a repository that a request asks about names that repository:
/// read like a `repository_url` of a search result, it gives back the owner
/// and the name.
pub proof fn repo_url_names_the_repository(api: Seq<char>, owner: Seq<char>, repo: Seq<char>)
    requires
        owner.len() > 0,
        !owner.contains('/'),
        owner != "repos"@,
        repo.len() > 0,
        !repo.contains('/'),
    ensures
        crate::url::repo_of(repo_url(api, owner, repo)) == Some((owner, repo)),
{
    reveal_strlit("/repos/");
    reveal_strlit("/");
    reveal_strlit("repos");
    assert("/repos/"@ =~= crate::url::repos_mark());
    assert("/"@ =~= seq!['/']);
    assert("repos"@ =~= seq!['r', 'e', 'p', 'o', 's']);
    crate::url::repo_url_reads_back(api, owner, repo, Seq::empty());
    assert(repo_url(api, owner, repo) =~= repo_url(api, owner, repo) + Seq::empty());
}

/// Every URL, piece by piece, as the GitHub REST API spells it.
pub proof fn urls_are_spelled_out(
    api: Seq<char>,
    owner: Seq<char>,
    repo: Seq<char>,
    number: u64,
    sha: Seq<char>,
)
    ensures
        repo_url(api, owner, repo) == api + "/repos/"@ + owner + "/"@ + repo,
        pull_url(api, owner, repo, number) == api + "/repos/"@ + owner + "/"@ + repo + "/pulls/"@
            + crate::text::decimal(number as nat),
        status_url(api, owner, repo, sha) == api + "/repos/"@ + owner + "/"@ + repo + "/commits/"@
            + sha + "/status"@,
        checks_url(api, owner, repo, sha) == api + "/repos/"@ + owner + "/"@ + repo + "/commits/"@
            + sha + "/check-runs"@,
        update_url(api, owner, repo, number) == api + "/repos/"@ + owner + "/"@ + repo + "/pulls/"@
            + crate::text::decimal(number as nat) + "/update-branch"@,
        search_url(api) == api + "/search/issues?q="@ + crate::url::encoded(
            encode_utf8("is:open is:pr author:DominicBurkart archived:false"@),
        ) + "&per_page=100"@,
{
}

/// A read is a `GET` of its URL without a body.
pub proof fn reads_are_bare(url: Seq<char>)
    ensures
        get(url).method == "GET"@,
        get(url).url == url,
        get(url).body == None::<Seq<u8>>,
{
}

/// The update of a branch goes to the pull request that was read: its URL is
/// the one that the pull request was read from, followed by `/update-branch`;
/// and what stands before `/pulls/` in it reads back as the repository.
pub proof fn update_goes_to_the_pull(
    api: Seq<char>,
    owner: Seq<char>,
    repo: Seq<char>,
    number: u64,
    sha: Seq<char>,
)
    requires
        owner.len() > 0,
        !owner.contains('/'),
        owner != "repos"@,
        repo.len() > 0,
        !repo.contains('/'),
    ensures
        update_call(api, owner, repo, number, sha).url == get(
            pull_url(api, owner, repo, number),
        ).url + "/update-branch"@,
        exists|prefix: Seq<char>|
            {
                &&& update_call(api, owner, repo, number, sha).url == #[trigger] (prefix
                    + "/pulls/"@ + crate::text::decimal(number as nat) + "/update-branch"@)
                &&& crate::url::repo_of(prefix) == Some((owner, repo))
            },
{
    repo_url_names_the_repository(api, owner, repo);
    let prefix = api + "/repos/"@ + owner + "/"@ + repo;
    assert(update_call(api, owner, repo, number, sha).url == prefix + "/pulls/"@
        + crate::text::decimal(number as nat) + "/update-branch"@);
}

/// The update of a branch, field by field: a `PUT` that carries the expected
/// head and nothing else.
pub proof fn update_is_spelled_out(
    api: Seq<char>,
    owner: Seq<char>,
    repo: Seq<char>,
    number: u64,
    sha: Seq<char>,
    name: Seq<char>,
)
    ensures
        ({
            let call = update_call(api, owner, repo, number, sha);
            &&& call.method == "PUT"@
            &&& call.url == api + "/repos/"@ + owner + "/"@ + repo + "/pulls/"@
                + crate::text::decimal(number as nat) + "/update-branch"@
            &&& call.body == Some(
                crate::json::json_print(
                    DataView::Record(map!["expected_head_sha"@ => DataView::Text(sha)]),
                ),
            )
            &&& update_body(sha).member("expected_head_sha"@) == Some(DataView::Text(sha))
            &&& update_body(sha).member(name) is Some ==> name == "expected_head_sha"@
        }),
{
}

/// The conversion to a draft, field by field: a `POST` to `/graphql` that
/// carries the mutation and the pull request's id and nothing else.
pub proof fn draft_is_spelled_out(api: Seq<char>, node_id: Seq<char>, name: Seq<char>)
    ensures
        ({
            let call = draft_call(api, node_id);
            let body = draft_body(node_id);
            let variables = DataView::Record(map!["id"@ => DataView::Text(node_id)]);
            &&& call.method == "POST"@
            &&& call.url == api + "/graphql"@
            &&& call.body == Some(crate::json::json_print(body))
            &&& body.member("query"@) == Some(
                DataView::Text(
                    "mutation ConvertToDraft($id: ID!) { convertPullRequestToDraft(input: { pullRequestId: $id }) { pullRequest { id isDraft } } }"@,
                ),
            )
            &&& body.member("variables"@) == Some(variables)
            &&& body.member(name) is Some ==> name == "query"@ || name == "variables"@
        }),
{
    reveal_strlit("query");
    reveal_strlit("variables");
    assert("query"@.len() == 5 && "variables"@.len() == 9);
}

/// The view shows every field as it is.
pub proof fn request_view_shows_everything(request: HttpRequest)
    ensures
        request@.method == request.method@,
        request@.url == request.url@,
        match request.body {
            Some(body) => request@.body == Some(body@),
            None => request@.body is None,
        },
{
}

}
