use std::collections::VecDeque;

use prodder::api::{api_base, search_request, HttpRequest, DEFAULT_API};
use prodder::data::Data;
use prodder::drafter::{
    candidate_from, convert_to_draft, evaluate, evaluate_replies, evaluate_requests,
    fetch_candidate, list_candidate_prs, list_pulls, process_candidate, pull_from_issue,
    reports_errors, update_branch, CandidatePr, DrafterError, Event, Outcome, Progress, PullRef,
    Read, Reads, Skip, Stage, PR_CONCURRENCY,
};
use prodder::json::parse;
use prodder::rules::Action;

/// Answers requests with queued replies, in order, and records the requests.
struct Mock {
    replies: VecDeque<Result<Vec<u8>, String>>,
    calls: Vec<HttpRequest>,
}

impl Mock {
    fn new() -> Self {
        Mock { replies: VecDeque::new(), calls: Vec::new() }
    }

    fn queue_ok(mut self, body: &[u8]) -> Self {
        self.replies.push_back(Ok(body.to_vec()));
        self
    }

    fn queue_err(mut self, why: &str) -> Self {
        self.replies.push_back(Err(why.to_string()));
        self
    }

    fn request(&mut self, request: HttpRequest) -> Result<Vec<u8>, String> {
        self.calls.push(request);
        self.replies.pop_front().expect("a queued reply for this call")
    }

    fn candidates(&mut self) -> Result<Vec<CandidatePr>, DrafterError> {
        let reply = self.request(search_request(DEFAULT_API));
        let mut out = Vec::new();
        for pull in list_candidate_prs(&reply)? {
            let ask =
                prodder::api::pull_request(DEFAULT_API, &pull.owner, &pull.repo, pull.number);
            let reply = self.request(ask);
            if let Ok(c) = fetch_candidate(pull, &reply) {
                out.push(c);
            }
        }
        Ok(out)
    }

    fn reads(&mut self, c: &CandidatePr) -> Reads {
        let (pull, status, checks) = evaluate_requests(DEFAULT_API, c);
        let replies = (self.request(pull), self.request(status), self.request(checks));
        match replies {
            (Ok(pr), Ok(status), Ok(checks)) => Reads::Answered { pr, status, checks },
            (Err(e), _, _) => Reads::Failed(Read::Pull, e),
            (_, Err(e), _) => Reads::Failed(Read::Status, e),
            (_, _, Err(e)) => Reads::Failed(Read::Checks, e),
        }
    }

    fn evaluate(mut self, c: &CandidatePr) -> Result<Action, DrafterError> {
        evaluate(&self.reads(c))
    }

    fn process(&mut self, c: &CandidatePr) -> Outcome {
        let mut progress = Progress::Evaluating;
        let mut event = Event::Evaluated(self.reads(c));
        loop {
            let (next, request) = process_candidate(DEFAULT_API, c, progress, &event);
            match (next, request) {
                (Progress::Done(outcome), None) => return outcome,
                (next, Some(request)) => {
                    progress = next;
                    event = Event::Written(self.request(request));
                }
                (next, None) => panic!("stuck at {next:?}"),
            }
        }
    }

    fn run(&mut self) -> Option<Vec<Outcome>> {
        let candidates = self.candidates().ok()?;
        Some(candidates.iter().map(|c| self.process(c)).collect())
    }
}

fn answered(body: &[u8]) -> Result<Vec<u8>, String> {
    Ok(body.to_vec())
}

fn failed(stage: Stage, cause: &str) -> DrafterError {
    DrafterError::Failed(stage, cause.to_string())
}

/// What the parser says of `{not json`.
const NOT_JSON: &str = "key must be a string at line 1 column 2";

fn candidate() -> CandidatePr {
    CandidatePr {
        owner: "DominicBurkart".into(),
        repo: "committer".into(),
        number: 7,
        node_id: "PR_1".into(),
        head_sha: "deadbeef".into(),
    }
}

fn search_one_item() -> Vec<u8> {
    br#"{"items":[{
            "repository_url": "https://api.github.com/repos/DominicBurkart/committer",
            "number": 7
        }]}"#
        .to_vec()
}

fn pr_ok() -> Vec<u8> {
    br#"{"node_id":"PR_1","head":{"sha":"deadbeef"},"mergeable":true,"mergeable_state":"clean"}"#
        .to_vec()
}

const FAILING_CHECKS: &[u8] =
    br#"{"check_runs":[{"name":"ci","status":"completed","conclusion":"failure"}]}"#;

// ----- list_candidate_prs -----

#[test]
fn list_candidate_prs_returns_matching() {
    let mut t = Mock::new().queue_ok(&search_one_item()).queue_ok(&pr_ok());
    let out = t.candidates().unwrap();
    assert_eq!(out.len(), 1);
    assert_eq!(out[0].owner, "DominicBurkart");
    assert_eq!(out[0].repo, "committer");
    assert_eq!(out[0].number, 7);
    assert_eq!(out[0].node_id, "PR_1");
    assert_eq!(out[0].head_sha, "deadbeef");
    assert_eq!(t.calls.len(), 2);
    assert!(t.calls[0].url.contains("/search/issues"));
    assert!(t.calls[1].url.contains("/repos/DominicBurkart/committer/pulls/7"));
}

#[test]
fn list_candidate_prs_skips_missing_repo_url() {
    let mut t = Mock::new().queue_ok(br#"{"items":[{"number":1}]}"#);
    assert!(t.candidates().unwrap().is_empty());
}

#[test]
fn list_candidate_prs_skips_foreign_owner() {
    let body = br#"{"items":[{
            "repository_url": "https://api.github.com/repos/OtherUser/repo",
            "number": 1
        }]}"#;
    let mut t = Mock::new().queue_ok(body);
    assert!(t.candidates().unwrap().is_empty());
}

#[test]
fn list_candidate_prs_skips_missing_number() {
    let body = br#"{"items":[{
            "repository_url": "https://api.github.com/repos/DominicBurkart/committer"
        }]}"#;
    let mut t = Mock::new().queue_ok(body);
    assert!(t.candidates().unwrap().is_empty());
}

#[test]
fn list_candidate_prs_skips_when_pulls_get_fails() {
    let mut t = Mock::new().queue_ok(&search_one_item()).queue_err("network down");
    assert!(t.candidates().unwrap().is_empty());
}

#[test]
fn list_candidate_prs_skips_invalid_pr_json() {
    let mut t = Mock::new().queue_ok(&search_one_item()).queue_ok(b"{not valid json");
    assert!(t.candidates().unwrap().is_empty());
}

#[test]
fn list_candidate_prs_skips_missing_node_id() {
    let mut t =
        Mock::new().queue_ok(&search_one_item()).queue_ok(br#"{"head":{"sha":"deadbeef"}}"#);
    assert!(t.candidates().unwrap().is_empty());
}

#[test]
fn list_candidate_prs_skips_missing_head_sha() {
    let mut t = Mock::new().queue_ok(&search_one_item()).queue_ok(br#"{"node_id":"PR_1"}"#);
    assert!(t.candidates().unwrap().is_empty());
}

#[test]
fn list_candidate_prs_ignores_non_array_items() {
    // `items` is absent entirely; search returned an error payload.
    let mut t = Mock::new().queue_ok(br#"{"message":"rate limit"}"#);
    assert!(t.candidates().unwrap().is_empty());
}

#[test]
fn list_candidate_prs_propagates_search_error() {
    let mut t = Mock::new().queue_err("search boom");
    assert!(t.candidates().is_err());
}

#[test]
fn listing_reports_what_went_wrong() {
    let search = list_candidate_prs(&Err("down".to_string())).unwrap_err();
    assert_eq!(search, failed(Stage::Search, "down"));
    assert_eq!(search.message(), "search issues");
    assert_eq!(search.chain(), "search issues: down");
    let parse = list_candidate_prs(&answered(b"{not json")).unwrap_err();
    assert_eq!(parse, failed(Stage::ParseSearch, NOT_JSON));
    assert_eq!(parse.message(), "parse search response");
    assert_eq!(parse.chain(), format!("parse search response: {NOT_JSON}"));
}

#[test]
fn listing_keeps_the_order_and_passes_over_the_rest() {
    let reply = parse(
        br#"{"items":[
            {"repository_url":"https://api.github.com/repos/DominicBurkart/b","number":2},
            {"repository_url":"https://api.github.com/repos/DominicBurkarts/b","number":3},
            {"repository_url":"https://api.github.com/repos/Dominic/Burkart","number":4},
            {"repository_url":"https://api.github.com/repos/DominicBurkart/a","number":-1},
            {"repository_url":"https://api.github.com/repos/DominicBurkart/a","number":1.5},
            {"repository_url":7,"number":5},
            "junk",
            {"repository_url":"https://api.github.com/repos/DominicBurkart/a",
             "number":18446744073709551615}
        ]}"#,
    )
    .unwrap();
    let pull = |repo: &str, number: u64| PullRef {
        owner: "DominicBurkart".to_string(),
        repo: repo.to_string(),
        number,
    };
    assert_eq!(list_pulls(&reply), vec![pull("b", 2), pull("a", u64::MAX)]);
    assert_eq!(list_pulls(&Data::Null), vec![]);
    assert_eq!(pull_from_issue(&Data::Null), None);
}

#[test]
fn passing_over_a_pull_has_a_reason() {
    let pull = || PullRef { owner: "o".to_string(), repo: "r".to_string(), number: 1 };
    assert_eq!(fetch_candidate(pull(), &Err("down".to_string())), Err(Skip::Request("down".to_string())));
    assert_eq!(
        fetch_candidate(pull(), &answered(b"{not json")),
        Err(Skip::Parse(NOT_JSON.to_string()))
    );
    assert_eq!(fetch_candidate(pull(), &answered(b"{}")), Err(Skip::MissingNodeId));
    assert_eq!(
        fetch_candidate(pull(), &answered(br#"{"node_id":"x","head":["sha"]}"#)),
        Err(Skip::MissingHeadSha)
    );
    let pr = parse(br#"{"head":{"sha":"s"},"node_id":"n"}"#).unwrap();
    let c = candidate_from(pull(), &pr).unwrap();
    assert_eq!(
        c,
        CandidatePr {
            owner: "o".to_string(),
            repo: "r".to_string(),
            number: 1,
            node_id: "n".to_string(),
            head_sha: "s".to_string(),
        }
    );
    assert_eq!(Skip::Request("x".to_string()).chain(), "pulls.get failed: x");
    assert_eq!(Skip::Parse("y".to_string()).chain(), "pr json parse failed: y");
    assert_eq!(Skip::MissingNodeId.chain(), "PR missing node_id; skipping");
    assert_eq!(Skip::MissingHeadSha.chain(), "PR missing head.sha; skipping");
}

// ----- evaluate -----

#[test]
fn evaluate_returns_nothing_on_clean() {
    let t = Mock::new()
        .queue_ok(&pr_ok())
        .queue_ok(br#"{"state":"success"}"#)
        .queue_ok(br#"{"check_runs":[]}"#);
    assert_eq!(t.evaluate(&candidate()).unwrap(), Action::Nothing);
}

#[test]
fn evaluate_returns_update_branch_when_behind() {
    let t = Mock::new()
        .queue_ok(br#"{"mergeable":true,"mergeable_state":"behind"}"#)
        .queue_ok(br#"{"state":"success"}"#)
        .queue_ok(br#"{"check_runs":[{"name":"ci","status":"completed","conclusion":"success"}]}"#);
    assert_eq!(t.evaluate(&candidate()).unwrap(), Action::UpdateBranch);
}

#[test]
fn evaluate_returns_draft_on_failing_check() {
    let t = Mock::new()
        .queue_ok(&pr_ok())
        .queue_ok(br#"{"state":"success"}"#)
        .queue_ok(FAILING_CHECKS);
    let got = t.evaluate(&candidate()).unwrap();
    assert!(matches!(got, Action::Draft(_)));
    assert_eq!(got, Action::Draft("check 'ci' failure".to_string()));
}

#[test]
fn evaluate_handles_missing_check_runs_key() {
    let t = Mock::new()
        .queue_ok(&pr_ok())
        .queue_ok(br#"{"state":"success"}"#)
        .queue_ok(b"{}");
    assert_eq!(t.evaluate(&candidate()).unwrap(), Action::Nothing);
}

#[test]
fn evaluate_returns_retry_when_mergeable_unknown() {
    let t = Mock::new()
        .queue_ok(br#"{"mergeable":null,"mergeable_state":"unknown"}"#)
        .queue_ok(br#"{"state":"pending"}"#)
        .queue_ok(br#"{"check_runs":[]}"#);
    assert_eq!(t.evaluate(&candidate()).unwrap(), Action::Retry);
}

#[test]
fn evaluate_bubbles_pr_fetch_error() {
    let t = Mock::new()
        .queue_err("pr boom")
        .queue_ok(br#"{"state":"success"}"#)
        .queue_ok(br#"{"check_runs":[]}"#);
    assert_eq!(t.evaluate(&candidate()), Err(failed(Stage::GetPull, "pr boom")));
}

#[test]
fn evaluate_bubbles_status_fetch_error() {
    let t = Mock::new()
        .queue_ok(&pr_ok())
        .queue_err("status boom")
        .queue_ok(br#"{"check_runs":[]}"#);
    assert_eq!(t.evaluate(&candidate()), Err(failed(Stage::GetStatus, "status boom")));
}

#[test]
fn evaluate_bubbles_checks_fetch_error() {
    let t = Mock::new()
        .queue_ok(&pr_ok())
        .queue_ok(br#"{"state":"success"}"#)
        .queue_err("checks boom");
    assert_eq!(t.evaluate(&candidate()), Err(failed(Stage::GetChecks, "checks boom")));
}

#[test]
fn evaluate_bubbles_pr_parse_error() {
    let t = Mock::new()
        .queue_ok(b"{not json")
        .queue_ok(br#"{"state":"success"}"#)
        .queue_ok(br#"{"check_runs":[]}"#);
    assert_eq!(t.evaluate(&candidate()), Err(failed(Stage::ParsePull, NOT_JSON)));
}

#[test]
fn evaluate_bubbles_status_parse_error() {
    let t = Mock::new()
        .queue_ok(&pr_ok())
        .queue_ok(b"{not json")
        .queue_ok(br#"{"check_runs":[]}"#);
    assert_eq!(t.evaluate(&candidate()), Err(failed(Stage::ParseStatus, NOT_JSON)));
}

#[test]
fn evaluate_bubbles_checks_parse_error() {
    let t = Mock::new()
        .queue_ok(&pr_ok())
        .queue_ok(br#"{"state":"success"}"#)
        .queue_ok(b"{not json");
    assert_eq!(t.evaluate(&candidate()), Err(failed(Stage::ParseChecks, NOT_JSON)));
}

#[test]
fn evaluation_errors_have_words() {
    assert_eq!(failed(Stage::GetPull, "x").message(), "pulls.get");
    assert_eq!(failed(Stage::GetStatus, "x").message(), "combined status");
    assert_eq!(failed(Stage::GetChecks, "x").message(), "check-runs");
    assert_eq!(failed(Stage::ParsePull, "x").message(), "parse pr");
    assert_eq!(failed(Stage::ParseStatus, "x").message(), "parse status");
    assert_eq!(failed(Stage::ParseChecks, "x").message(), "parse check-runs");
    assert_eq!(failed(Stage::ParseChecks, "x").chain(), "parse check-runs: x");
}

#[test]
fn evaluation_reads_the_three_urls() {
    let (pull, status, checks) = evaluate_requests("http://h", &candidate());
    assert_eq!(pull.url, "http://h/repos/DominicBurkart/committer/pulls/7");
    assert_eq!(status.url, "http://h/repos/DominicBurkart/committer/commits/deadbeef/status");
    assert_eq!(checks.url, "http://h/repos/DominicBurkart/committer/commits/deadbeef/check-runs");
    for request in [pull, status, checks] {
        assert_eq!(request.method, "GET");
        assert_eq!(request.body, None);
    }
}

#[test]
fn evaluation_fills_in_what_is_missing() {
    let pr = parse(br#"{"mergeable":true}"#).unwrap();
    let empty = parse(b"{}").unwrap();
    let nameless =
        parse(br#"{"check_runs":[7,{"status":"completed","conclusion":"stale"}]}"#).unwrap();
    assert_eq!(evaluate_replies(&pr, &empty, &empty), Action::Nothing);
    assert_eq!(evaluate_replies(&empty, &empty, &empty), Action::Retry);
    assert_eq!(
        evaluate_replies(&pr, &empty, &nameless),
        Action::Draft("check '?' stale".to_string())
    );
    let failing = parse(br#"{"state":"failure"}"#).unwrap();
    assert_eq!(
        evaluate_replies(&pr, &failing, &nameless),
        Action::Draft("combined status failure".to_string())
    );
    let conflict = parse(br#"{"mergeable":false,"mergeable_state":"dirty"}"#).unwrap();
    assert_eq!(
        evaluate_replies(&conflict, &failing, &nameless),
        Action::Draft("merge conflicts".to_string())
    );
    let odd = parse(br#"{"mergeable":"true","mergeable_state":"behind"}"#).unwrap();
    assert_eq!(evaluate_replies(&odd, &empty, &empty), Action::Retry);
}

// ----- convert_to_draft -----

/// Processes a blocked candidate and answers the conversion.
fn convert(reply: Option<&[u8]>) -> (Outcome, HttpRequest) {
    let mut t = Mock::new()
        .queue_ok(&pr_ok())
        .queue_ok(br#"{"state":"success"}"#)
        .queue_ok(FAILING_CHECKS);
    t.replies.push_back(reply.map(<[u8]>::to_vec).ok_or("boom".to_string()));
    let outcome = t.process(&candidate());
    (outcome, t.calls.pop().unwrap())
}

#[test]
fn convert_to_draft_succeeds_on_empty_errors() {
    assert_eq!(convert_to_draft(&answered(br#"{"errors":[]}"#)), Ok(()));
    let (outcome, call) = convert(Some(br#"{"errors":[]}"#));
    assert_eq!(outcome, Outcome::Drafted("check 'ci' failure".to_string()));
    assert_eq!(call.method, "POST");
    assert!(call.url.ends_with("/graphql"));
    assert!(call.body.is_some());
}

#[test]
fn convert_to_draft_succeeds_without_errors_key() {
    let body = br#"{"data":{"convertPullRequestToDraft":{}}}"#;
    assert_eq!(convert_to_draft(&answered(body)), Ok(()));
}

#[test]
fn convert_to_draft_bails_on_errors() {
    let err = convert_to_draft(&answered(br#"{"errors":[{"message":"nope"}]}"#)).unwrap_err();
    assert!(err.message().contains("graphql errors"));
    assert_eq!(err.message(), r#"graphql errors: [{"message":"nope"}]"#);
    assert_eq!(err.chain(), err.message());
}

#[test]
fn convert_to_draft_bubbles_transport_error() {
    let err = convert_to_draft(&Err("transport boom".to_string())).unwrap_err();
    assert_eq!(err, failed(Stage::Graphql, "transport boom"));
    assert_eq!(err.message(), "graphql convertPullRequestToDraft");
    assert_eq!(err.chain(), "graphql convertPullRequestToDraft: transport boom");
}

#[test]
fn convert_to_draft_bubbles_parse_error() {
    assert_eq!(convert_to_draft(&answered(b"{not json")), Err(failed(Stage::ParseGraphql, NOT_JSON)));
    assert_eq!(Stage::ParseGraphql.message(), "parse graphql response");
}

#[test]
fn convert_to_draft_takes_every_other_errors_member_for_an_error() {
    for (reply, shown) in [
        (&br#"{"errors":null}"#[..], "null"),
        (br#"{"errors":false}"#, "false"),
        (br#"{"errors": { "b" : 1, "a" : [2.5, "x\n"] } }"#, r#"{"a":[2.5,"x\n"],"b":1}"#),
        (br#"{"errors":[[]]}"#, "[[]]"),
    ] {
        assert_eq!(
            convert_to_draft(&answered(reply)),
            Err(DrafterError::GraphqlErrors(shown.to_string()))
        );
        assert!(reports_errors(&parse(reply).unwrap()));
    }
    assert_eq!(convert_to_draft(&answered(b"[]")), Ok(()));
    assert!(!reports_errors(&Data::Null));
}

#[test]
fn draft_body_carries_the_mutation_and_the_id() {
    let (_, call) = convert(Some(b"{}"));
    let parsed: serde_json::Value = serde_json::from_slice(&call.body.unwrap()).unwrap();
    assert_eq!(
        parsed["query"],
        "mutation ConvertToDraft($id: ID!) { convertPullRequestToDraft(input: { pullRequestId: $id }) { pullRequest { id isDraft } } }"
    );
    assert_eq!(parsed["variables"]["id"], "PR_1");
    assert_eq!(parsed.as_object().unwrap().len(), 2);
    assert_eq!(parsed["variables"].as_object().unwrap().len(), 1);
}

// ----- update_branch -----

/// Processes a candidate that is behind and answers the update.
fn update(reply: Option<&[u8]>) -> (Outcome, HttpRequest) {
    let mut t = Mock::new()
        .queue_ok(br#"{"mergeable":true,"mergeable_state":"behind"}"#)
        .queue_ok(br#"{"state":"success"}"#)
        .queue_ok(br#"{"check_runs":[]}"#);
    t.replies.push_back(reply.map(<[u8]>::to_vec).ok_or("boom".to_string()));
    let outcome = t.process(&candidate());
    (outcome, t.calls.pop().unwrap())
}

#[test]
fn update_branch_sends_put_with_expected_head() {
    let (outcome, call) = update(Some(b"{}"));
    assert_eq!(outcome, Outcome::Updated);
    assert_eq!(call.method, "PUT");
    assert!(call.url.contains("/pulls/7/update-branch"));
    let parsed: serde_json::Value = serde_json::from_slice(&call.body.unwrap()).unwrap();
    assert_eq!(parsed["expected_head_sha"], "deadbeef");
    assert_eq!(parsed.as_object().unwrap().len(), 1);
}

#[test]
fn update_branch_bubbles_transport_error() {
    let err = update_branch(&Err("boom".to_string())).unwrap_err();
    assert_eq!(err, failed(Stage::UpdateBranch, "boom"));
    assert_eq!(err.chain(), "pulls.update-branch: boom");
    assert_eq!(update_branch(&answered(b"anything")), Ok(()));
    let (outcome, _) = update(None);
    assert_eq!(outcome, Outcome::UpdateFailed(err));
}

// ----- run_with -----

#[test]
fn run_with_swallows_list_error() {
    let mut t = Mock::new().queue_err("list boom");
    assert_eq!(t.run(), None);
    assert_eq!(t.calls.len(), 1);
}

#[test]
fn run_with_no_candidates_is_ok() {
    let mut t = Mock::new().queue_ok(br#"{"items":[]}"#);
    assert_eq!(t.run(), Some(vec![]));
    assert_eq!(t.calls.len(), 1);
}

#[test]
fn run_with_handles_nothing_action() {
    let mut t = Mock::new()
        .queue_ok(&search_one_item())
        .queue_ok(&pr_ok())
        .queue_ok(&pr_ok())
        .queue_ok(br#"{"state":"success"}"#)
        .queue_ok(br#"{"check_runs":[]}"#);
    assert_eq!(t.run(), Some(vec![Outcome::Nothing]));
    assert_eq!(t.calls.len(), 5);
}

#[test]
fn run_with_handles_retry_action() {
    let mut t = Mock::new()
        .queue_ok(&search_one_item())
        .queue_ok(&pr_ok())
        .queue_ok(br#"{"mergeable":null,"mergeable_state":"unknown"}"#)
        .queue_ok(br#"{"state":"pending"}"#)
        .queue_ok(br#"{"check_runs":[]}"#);
    assert_eq!(t.run(), Some(vec![Outcome::Retry]));
    assert_eq!(t.calls.len(), 5);
}

#[test]
fn run_with_skips_on_evaluate_error() {
    // search returns an item; the evaluate fan-out's pr fetch fails.
    let mut t = Mock::new()
        .queue_ok(&search_one_item())
        .queue_ok(&pr_ok())
        .queue_err("pr boom")
        .queue_ok(br#"{"state":"success"}"#)
        .queue_ok(br#"{"check_runs":[]}"#);
    assert_eq!(t.run(), Some(vec![Outcome::EvaluateFailed(failed(Stage::GetPull, "pr boom"))]));
    assert_eq!(t.calls.len(), 5);
}

#[test]
fn run_with_drafts_then_converts() {
    let mut t = Mock::new()
        .queue_ok(&search_one_item())
        .queue_ok(&pr_ok())
        .queue_ok(&pr_ok())
        .queue_ok(br#"{"state":"success"}"#)
        .queue_ok(FAILING_CHECKS)
        .queue_ok(br#"{"errors":[]}"#);
    assert_eq!(t.run(), Some(vec![Outcome::Drafted("check 'ci' failure".to_string())]));
    assert_eq!(t.calls.len(), 6);
}

#[test]
fn run_with_logs_when_convert_to_draft_fails() {
    let mut t = Mock::new()
        .queue_ok(&search_one_item())
        .queue_ok(&pr_ok())
        .queue_ok(&pr_ok())
        .queue_ok(br#"{"state":"success"}"#)
        .queue_ok(FAILING_CHECKS)
        .queue_err("graphql boom");
    assert_eq!(t.run(), Some(vec![Outcome::DraftFailed(failed(Stage::Graphql, "graphql boom"))]));
}

#[test]
fn run_with_updates_branch_when_behind() {
    let mut t = Mock::new()
        .queue_ok(&search_one_item())
        .queue_ok(&pr_ok())
        .queue_ok(br#"{"mergeable":true,"mergeable_state":"behind"}"#)
        .queue_ok(br#"{"state":"success"}"#)
        .queue_ok(br#"{"check_runs":[]}"#)
        .queue_ok(b"{}");
    assert_eq!(t.run(), Some(vec![Outcome::Updated]));
    assert_eq!(t.calls[5].method, "PUT");
}

#[test]
fn run_with_logs_when_update_branch_fails() {
    let mut t = Mock::new()
        .queue_ok(&search_one_item())
        .queue_ok(&pr_ok())
        .queue_ok(br#"{"mergeable":true,"mergeable_state":"behind"}"#)
        .queue_ok(br#"{"state":"success"}"#)
        .queue_ok(br#"{"check_runs":[]}"#)
        .queue_err("update-branch boom");
    assert_eq!(t.run(), Some(vec![Outcome::UpdateFailed(failed(Stage::UpdateBranch, "update-branch boom"))]));
}

#[test]
fn run_with_processes_multiple_candidates_concurrently() {
    let two_items = br#"{"items":[
            {"repository_url":"https://api.github.com/repos/DominicBurkart/committer","number":7},
            {"repository_url":"https://api.github.com/repos/DominicBurkart/committer","number":8}
        ]}"#;
    // search + 2x pr-for-list + 2x (pr-for-eval + status + checks).
    let mut t = Mock::new()
        .queue_ok(two_items)
        .queue_ok(&pr_ok())
        .queue_ok(&pr_ok())
        .queue_ok(&pr_ok())
        .queue_ok(br#"{"state":"success"}"#)
        .queue_ok(br#"{"check_runs":[]}"#)
        .queue_ok(&pr_ok())
        .queue_ok(br#"{"state":"success"}"#)
        .queue_ok(br#"{"check_runs":[]}"#);
    assert_eq!(t.run(), Some(vec![Outcome::Nothing, Outcome::Nothing]));
    assert_eq!(t.calls.len(), 9);
    assert_eq!(PR_CONCURRENCY, 8);
}

// ----- one step at a time -----

fn clean_reads() -> Reads {
    Reads::Answered {
        pr: pr_ok(),
        status: br#"{"state":"success"}"#.to_vec(),
        checks: br#"{"check_runs":[]}"#.to_vec(),
    }
}

#[test]
fn events_that_nobody_waits_for_change_nothing() {
    let c = candidate();
    let step = |p: Progress, e: Event| process_candidate("http://h", &c, p, &e);
    let unsent = || Event::Written(Err("x".to_string()));
    assert_eq!(step(Progress::Evaluating, unsent()), (Progress::Evaluating, None));
    assert_eq!(
        step(Progress::Evaluating, Event::Written(answered(b"{}"))),
        (Progress::Evaluating, None)
    );
    let drafting = || Progress::Drafting("why".to_string());
    assert_eq!(step(drafting(), Event::Evaluated(clean_reads())), (drafting(), None));
    assert_eq!(
        step(Progress::Updating, Event::Evaluated(Reads::Failed(Read::Checks, "x".to_string()))),
        (Progress::Updating, None)
    );
    let done = || Progress::Done(Outcome::Retry);
    assert_eq!(step(done(), Event::Evaluated(clean_reads())), (done(), None));
    assert_eq!(step(done(), Event::Written(Ok(vec![]))), (done(), None));
    assert_eq!(step(done(), unsent()), (done(), None));
}

#[test]
fn a_conversion_that_reports_errors_fails() {
    let (outcome, _) = convert(Some(br#"{"errors":["no"]}"#));
    assert_eq!(
        outcome,
        Outcome::DraftFailed(DrafterError::GraphqlErrors(r#"["no"]"#.to_string()))
    );
    let (outcome, _) = convert(Some(b"{not json"));
    assert_eq!(outcome, Outcome::DraftFailed(failed(Stage::ParseGraphql, NOT_JSON)));
    // What the reply to an update says is not looked at.
    let (outcome, _) = update(Some(b"garbage"));
    assert_eq!(outcome, Outcome::Updated);
}

// ----- where the API is -----

#[test]
fn api_base_defaults_to_github() {
    assert_eq!(api_base(None), DEFAULT_API);
    assert_eq!(DEFAULT_API, "https://api.github.com");
}

#[test]
fn api_base_honors_env_override() {
    assert_eq!(api_base(Some("http://localhost:1234".to_string())), "http://localhost:1234");
}

#[test]
fn the_search_is_spelled_out() {
    let request = search_request("http://h");
    assert_eq!(request.method, "GET");
    assert_eq!(
        request.url,
        "http://h/search/issues?q=is%3Aopen%20is%3Apr%20author%3ADominicBurkart%20archived%3Afalse&per_page=100"
    );
    assert_eq!(request.body, None);
    assert_eq!(prodder::api::user_request("http://h").url, "http://h/user");
}
