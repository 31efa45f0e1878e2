use prodder::rules::{classify, decide, Action, BlockDecision, CheckRun};

fn check(name: &str, status: &str, conclusion: Option<&str>) -> CheckRun {
    CheckRun {
        name: name.into(),
        status: status.into(),
        conclusion: conclusion.map(std::convert::Into::into),
    }
}

#[test]
fn conflict_blocks() {
    assert!(matches!(classify(Some(false), "success", &[]), BlockDecision::Block(_)));
}

#[test]
fn failing_check_blocks() {
    let checks = vec![check("ci", "completed", Some("failure"))];
    assert!(matches!(classify(Some(true), "success", &checks), BlockDecision::Block(_)));
}

#[test]
fn failing_combined_status_blocks() {
    assert!(matches!(classify(Some(true), "failure", &[]), BlockDecision::Block(_)));
}

#[test]
fn all_green_is_ok() {
    let checks = vec![
        check("ci", "completed", Some("success")),
        check("lint", "completed", Some("neutral")),
    ];
    assert_eq!(classify(Some(true), "success", &checks), BlockDecision::Clear);
}

#[test]
fn in_progress_check_is_not_blocking() {
    let checks = vec![check("ci", "in_progress", None)];
    assert_eq!(classify(Some(true), "pending", &checks), BlockDecision::Clear);
}

#[test]
fn unknown_mergeable_is_unknown() {
    assert_eq!(classify(None, "success", &[]), BlockDecision::Unknown);
}

#[test]
fn decide_behind_updates_branch() {
    let checks = vec![check("ci", "completed", Some("success"))];
    assert_eq!(decide(Some(true), "behind", "success", &checks), Action::UpdateBranch);
}

#[test]
fn decide_behind_on_draft_updates_branch() {
    assert_eq!(decide(Some(true), "behind", "success", &[]), Action::UpdateBranch);
}

#[test]
fn decide_clean_does_nothing() {
    assert_eq!(decide(Some(true), "clean", "success", &[]), Action::Nothing);
}

#[test]
fn decide_failing_check_drafts_even_if_behind() {
    let checks = vec![check("ci", "completed", Some("failure"))];
    assert!(matches!(decide(Some(true), "behind", "success", &checks), Action::Draft(_)));
}

#[test]
fn decide_unknown_mergeable_retries() {
    assert_eq!(decide(None, "unknown", "success", &[]), Action::Retry);
}

#[test]
fn decide_blocked_state_does_nothing() {
    assert_eq!(decide(Some(true), "blocked", "success", &[]), Action::Nothing);
}

#[test]
fn timed_out_check_blocks() {
    let checks = vec![check("ci", "completed", Some("timed_out"))];
    assert!(matches!(classify(Some(true), "success", &checks), BlockDecision::Block(_)));
}

#[test]
fn reasons_are_spelled_out() {
    assert_eq!(
        classify(Some(false), "failure", &[]),
        BlockDecision::Block("merge conflicts".to_string())
    );
    assert_eq!(
        classify(None, "error", &[]),
        BlockDecision::Block("combined status error".to_string())
    );
    let checks = vec![
        check("lint", "completed", Some("success")),
        check("ci / build", "completed", Some("action_required")),
        check("late", "completed", Some("failure")),
    ];
    assert_eq!(
        classify(None, "pending", &checks),
        BlockDecision::Block("check 'ci / build' action_required".to_string())
    );
}

#[test]
fn every_failing_conclusion_blocks_only_when_completed() {
    for conclusion in ["failure", "timed_out", "cancelled", "action_required", "stale"] {
        let done = vec![check("ci", "completed", Some(conclusion))];
        assert_eq!(
            decide(Some(true), "clean", "success", &done),
            Action::Draft(format!("check 'ci' {conclusion}"))
        );
        let running = vec![check("ci", "queued", Some(conclusion))];
        assert_eq!(decide(Some(true), "clean", "success", &running), Action::Nothing);
    }
    for conclusion in ["success", "neutral", "skipped", "Failure", "failure "] {
        let done = vec![check("ci", "completed", Some(conclusion))];
        assert_eq!(decide(Some(true), "clean", "success", &done), Action::Nothing);
    }
    let open = vec![check("ci", "completed", None)];
    assert_eq!(decide(Some(true), "clean", "success", &open), Action::Nothing);
}

#[test]
fn a_harmless_check_changes_nothing() {
    let bad = || check("ci", "completed", Some("failure"));
    let harmless = || check("lint", "in_progress", Some("failure"));
    assert_eq!(
        decide(Some(true), "behind", "success", &[harmless(), bad()]),
        decide(Some(true), "behind", "success", &[bad()])
    );
    assert_eq!(
        decide(Some(true), "behind", "success", &[harmless()]),
        decide(Some(true), "behind", "success", &[])
    );
}

#[test]
fn only_the_state_behind_matters() {
    for state in ["", "blocked", "clean", "dirty", "unstable", "has_hooks", "Behind"] {
        assert_eq!(decide(Some(true), state, "success", &[]), Action::Nothing);
        assert_eq!(decide(None, state, "pending", &[]), Action::Retry);
    }
    assert_eq!(decide(None, "behind", "success", &[]), Action::Retry);
}
