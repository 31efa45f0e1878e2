//! The rules: what keeps a pull request from being merged, and what PRodder
//! does about it. Review-related gating is deliberately ignored: humans
//! handle reviews.
use vstd::prelude::*;
use vstd::string::*;

use crate::text::same_text;

verus! {

/// One check run on a commit.
#[derive(Debug, Clone)]
pub struct CheckRun {
    pub name: String,
    pub status: String,
    pub conclusion: Option<String>,
}

/// A check run by the characters of its fields.
pub struct CheckRunView {
    pub name: Seq<char>,
    pub status: Seq<char>,
    pub conclusion: Option<Seq<char>>,
}

/// The characters of a string that may be missing.
pub open spec fn owned_text(s: Option<String>) -> Option<Seq<char>> {
    match s {
        Some(s) => Some(s@),
        None => None,
    }
}

impl View for CheckRun {
    type V = CheckRunView;

    open spec fn view(&self) -> CheckRunView {
        CheckRunView {
            name: self.name@,
            status: self.status@,
            conclusion: owned_text(self.conclusion),
        }
    }
}

/// The views of a row of check runs.
pub open spec fn check_views(checks: Seq<CheckRun>) -> Seq<CheckRunView> {
    checks.map_values(|run: CheckRun| run@)
}

/// Whether a non-review requirement blocks a pull request.
#[derive(Debug, PartialEq, Eq, Clone)]
pub enum BlockDecision {
    /// It is blocked, for the reason given.
    Block(String),
    /// Nothing blocks it.
    Clear,
    /// Nothing blocks it so far, but whether it can be merged is not known yet.
    Unknown,
}

/// A [`BlockDecision`] by the characters of its reason.
pub enum BlockDecisionView {
    Block(Seq<char>),
    Clear,
    Unknown,
}

impl View for BlockDecision {
    type V = BlockDecisionView;

    open spec fn view(&self) -> BlockDecisionView {
        match self {
            BlockDecision::Block(reason) => BlockDecisionView::Block(reason@),
            BlockDecision::Clear => BlockDecisionView::Clear,
            BlockDecision::Unknown => BlockDecisionView::Unknown,
        }
    }
}

/// What to do about a pull request.
#[derive(Debug, PartialEq, Eq, Clone)]
pub enum Action {
    /// No action: PR is either not mergeable-ready or already mergeable.
    Nothing,
    /// Mergeability is not yet known; try again on the next drafter cycle.
    Retry,
    /// PR has a blocking non-review requirement; convert back to draft.
    Draft(String),
    /// PR branch is behind base: ask GitHub to update it.
    UpdateBranch,
}

/// An [`Action`] by the characters of its reason.
pub enum ActionView {
    Nothing,
    Retry,
    Draft(Seq<char>),
    UpdateBranch,
}

impl View for Action {
    type V = ActionView;

    open spec fn view(&self) -> ActionView {
        match self {
            Action::Nothing => ActionView::Nothing,
            Action::Retry => ActionView::Retry,
            Action::Draft(reason) => ActionView::Draft(reason@),
            Action::UpdateBranch => ActionView::UpdateBranch,
        }
    }
}

/// The combined states of a commit that block.
pub open spec fn failing_state(state: Seq<char>) -> bool {
    state == "failure"@ || state == "error"@
}

/// The conclusions of a completed check run that block.
pub open spec fn failing_conclusion(conclusion: Seq<char>) -> bool {
    ||| conclusion == "failure"@
    ||| conclusion == "timed_out"@
    ||| conclusion == "cancelled"@
    ||| conclusion == "action_required"@
    ||| conclusion == "stale"@
}

/// Does a check run block? Only a completed one can.
pub open spec fn blocks(run: CheckRunView) -> bool {
    run.status == "completed"@ && (run.conclusion matches Some(c) && failing_conclusion(c))
}

/// The first check run that blocks.
pub open spec fn first_blocking(checks: Seq<CheckRunView>) -> Option<CheckRunView>
    decreases checks.len(),
{
    if checks.len() == 0 {
        None
    } else if blocks(checks[0]) {
        Some(checks[0])
    } else {
        first_blocking(checks.skip(1))
    }
}

/// The reason that a blocking check run gives.
pub open spec fn check_reason(run: CheckRunView) -> Seq<char> {
    "check '"@ + run.name + "' "@ + run.conclusion->0
}

/// What blocks: merge conflicts before the combined status, that before the
/// check runs, and of these the first. Where nothing does, it is open as long
/// as mergeability is not known.
pub open spec fn classified(
    mergeable: Option<bool>,
    combined_state: Seq<char>,
    checks: Seq<CheckRunView>,
) -> BlockDecisionView {
    if mergeable == Some(false) {
        BlockDecisionView::Block("merge conflicts"@)
    } else if failing_state(combined_state) {
        BlockDecisionView::Block("combined status "@ + combined_state)
    } else {
        match first_blocking(checks) {
            Some(run) => BlockDecisionView::Block(check_reason(run)),
            None => if mergeable is None {
                BlockDecisionView::Unknown
            } else {
                BlockDecisionView::Clear
            },
        }
    }
}

/// What to do: draft what is blocked, wait where it is open, and update a
/// branch that is behind its base and otherwise fine.
pub open spec fn decided(
    mergeable: Option<bool>,
    mergeable_state: Seq<char>,
    combined_state: Seq<char>,
    checks: Seq<CheckRunView>,
) -> ActionView {
    match classified(mergeable, combined_state, checks) {
        BlockDecisionView::Block(reason) => ActionView::Draft(reason),
        BlockDecisionView::Unknown => ActionView::Retry,
        BlockDecisionView::Clear => if mergeable_state == "behind"@ {
            ActionView::UpdateBranch
        } else {
            ActionView::Nothing
        },
    }
}

/// Is this conclusion one that blocks?
fn is_failing_conclusion(conclusion: &str) -> (r: bool)
    ensures
        r == failing_conclusion(conclusion@),
{
    same_text(conclusion, "failure") || same_text(conclusion, "timed_out") || same_text(
        conclusion,
        "cancelled",
    ) || same_text(conclusion, "action_required") || same_text(conclusion, "stale")
}

/// Pure classifier: looks at merge conflicts, the combined status and the
/// check runs, in this order.
pub fn classify(mergeable: Option<bool>, combined_state: &str, checks: &[CheckRun]) -> (r:
    BlockDecision)
    ensures
        r@ == classified(mergeable, combined_state@, check_views(checks@)),
{
    if let Some(false) = mergeable {
        return BlockDecision::Block("merge conflicts".to_owned());
    }
    if same_text(combined_state, "failure") || same_text(combined_state, "error") {
        let mut reason = "combined status ".to_owned();
        reason.append(combined_state);
        return BlockDecision::Block(reason);
    }
    let ghost views = check_views(checks@);
    assert(views.skip(0) =~= views);
    let mut i: usize = 0;
    while i < checks.len()
        invariant
            i <= checks@.len(),
            views == check_views(checks@),
            mergeable != Some(false),
            !failing_state(combined_state@),
            first_blocking(views) == first_blocking(views.skip(i as int)),
        decreases checks@.len() - i,
    {
        let run = &checks[i];
        proof {
            assert(views.skip(i as int)[0] == run@);
            assert(views.skip(i as int).skip(1) =~= views.skip(i + 1));
        }
        if same_text(run.status.as_str(), "completed") {
            if let Some(conclusion) = &run.conclusion {
                if is_failing_conclusion(conclusion.as_str()) {
                    let mut reason = "check '".to_owned();
                    reason.append(run.name.as_str());
                    reason.append("' ");
                    reason.append(conclusion.as_str());
                    return BlockDecision::Block(reason);
                }
            }
        }
        i = i + 1;
    }
    if mergeable.is_none() {
        return BlockDecision::Unknown;
    }
    BlockDecision::Clear
}

/// Pure action selector: combines [`classify`] with the out-of-date signal.
pub fn decide(
    mergeable: Option<bool>,
    mergeable_state: &str,
    combined_state: &str,
    checks: &[CheckRun],
) -> (r: Action)
    ensures
        r@ == decided(mergeable, mergeable_state@, combined_state@, check_views(checks@)),
{
    match classify(mergeable, combined_state, checks) {
        BlockDecision::Block(reason) => Action::Draft(reason),
        BlockDecision::Unknown => Action::Retry,
        BlockDecision::Clear => {
            if same_text(mergeable_state, "behind") {
                Action::UpdateBranch
            } else {
                Action::Nothing
            }
        },
    }
}

/// Is there a check run that blocks?
pub open spec fn some_check_blocks(checks: Seq<CheckRunView>) -> bool {
    exists|i: int| 0 <= i < checks.len() && blocks(#[trigger] checks[i])
}

/// Does any of the non-review requirements block?
pub open spec fn blocked(
    mergeable: Option<bool>,
    combined_state: Seq<char>,
    checks: Seq<CheckRunView>,
) -> bool {
    mergeable == Some(false) || failing_state(combined_state) || some_check_blocks(checks)
}

proof fn first_blocking_is_first(checks: Seq<CheckRunView>)
    ensures
        first_blocking(checks) is Some <==> some_check_blocks(checks),
        first_blocking(checks) matches Some(run) ==> exists|i: int|
            {
                &&& 0 <= i < checks.len()
                &&& #[trigger] checks[i] == run
                &&& blocks(run)
                &&& forall|j: int| 0 <= j < i ==> !blocks(#[trigger] checks[j])
            },
    decreases checks.len(),
{
    if checks.len() > 0 && !blocks(checks[0]) {
        let rest = checks.skip(1);
        first_blocking_is_first(rest);
        assert forall|i: int| 0 <= i < rest.len() implies rest[i] == #[trigger] checks[i + 1] by {}
        if first_blocking(checks) is Some {
            let run = first_blocking(checks)->0;
            let k = choose|i: int|
                {
                    &&& 0 <= i < rest.len()
                    &&& #[trigger] rest[i] == run
                    &&& blocks(run)
                    &&& forall|j: int| 0 <= j < i ==> !blocks(#[trigger] rest[j])
                };
            assert(checks[k + 1] == run);
            assert forall|j: int| 0 <= j < k + 1 implies !blocks(#[trigger] checks[j]) by {
                if j > 0 {
                    assert(rest[j - 1] == checks[j]);
                }
            }
        }
        if some_check_blocks(checks) {
            let k = choose|i: int| 0 <= i < checks.len() && blocks(#[trigger] checks[i]);
            assert(rest[k - 1] == checks[k]);
        }
    } else if checks.len() > 0 {
        assert(blocks(checks[0]));
    }
}

/// A pull request is drafted exactly when a non-review requirement blocks it,
/// whatever else holds. Where none does, it waits exactly as long as
/// mergeability is not known; its branch is updated exactly when it can be
/// merged and is behind its base.
pub proof fn decided_exactly_when(
    mergeable: Option<bool>,
    mergeable_state: Seq<char>,
    combined_state: Seq<char>,
    checks: Seq<CheckRunView>,
)
    ensures
        ({
            let action = decided(mergeable, mergeable_state, combined_state, checks);
            let blocked = blocked(mergeable, combined_state, checks);
            &&& action is Draft <==> blocked
            &&& action is Retry <==> !blocked && mergeable is None
            &&& action is UpdateBranch <==> !blocked && mergeable is Some && mergeable_state
                == "behind"@
            &&& action is Nothing <==> !blocked && mergeable is Some && mergeable_state
                != "behind"@
        }),
{
    first_blocking_is_first(checks);
}

/// Review-related gating is ignored: of the state that GitHub reports only
/// `behind` makes a difference, so that `blocked`, `clean`, `unstable` and all
/// the others lead to the same action.
pub proof fn only_behind_matters(
    mergeable: Option<bool>,
    one_state: Seq<char>,
    other_state: Seq<char>,
    combined_state: Seq<char>,
    checks: Seq<CheckRunView>,
)
    requires
        one_state == "behind"@ <==> other_state == "behind"@,
    ensures
        decided(mergeable, one_state, combined_state, checks) == decided(
            mergeable,
            other_state,
            combined_state,
            checks,
        ),
{
}

proof fn first_blocking_skips(before: Seq<CheckRunView>, run: CheckRunView, after: Seq<CheckRunView>)
    requires
        !blocks(run),
    ensures
        first_blocking(before + seq![run] + after) == first_blocking(before + after),
    decreases before.len(),
{
    let with = before + seq![run] + after;
    let without = before + after;
    if before.len() == 0 {
        assert(with.skip(1) =~= without);
        assert(with[0] == run);
    } else {
        assert(with[0] == before[0]);
        assert(without[0] == before[0]);
        assert(with.skip(1) =~= before.skip(1) + seq![run] + after);
        assert(without.skip(1) =~= before.skip(1) + after);
        first_blocking_skips(before.skip(1), run, after);
    }
}

/// A check run that has not completed never changes the decision, nor does
/// one whose conclusion does not block: with it and without it the same is
/// done, and for the same reason.
pub proof fn harmless_check_changes_nothing(
    mergeable: Option<bool>,
    mergeable_state: Seq<char>,
    combined_state: Seq<char>,
    before: Seq<CheckRunView>,
    run: CheckRunView,
    after: Seq<CheckRunView>,
)
    requires
        run.status != "completed"@ || run.conclusion is None || !failing_conclusion(
            run.conclusion->0,
        ),
    ensures
        classified(mergeable, combined_state, before + seq![run] + after) == classified(
            mergeable,
            combined_state,
            before + after,
        ),
        decided(mergeable, mergeable_state, combined_state, before + seq![run] + after) == decided(
            mergeable,
            mergeable_state,
            combined_state,
            before + after,
        ),
{
    first_blocking_skips(before, run, after);
}

/// The reason for a draft names what comes first: conflicts before the
/// combined status before the check runs, and of these the first that blocks.
pub proof fn reason_names_the_first_blocker(
    mergeable: Option<bool>,
    combined_state: Seq<char>,
    checks: Seq<CheckRunView>,
)
    ensures
        classified(mergeable, combined_state, checks) matches BlockDecisionView::Block(reason) ==> {
            ||| mergeable == Some(false) && reason == "merge conflicts"@
            ||| mergeable != Some(false) && failing_state(combined_state) && reason
                == "combined status "@ + combined_state
            ||| mergeable != Some(false) && !failing_state(combined_state) && exists|i: int|
                {
                    &&& 0 <= i < checks.len()
                    &&& blocks(#[trigger] checks[i])
                    &&& forall|j: int| 0 <= j < i ==> !blocks(#[trigger] checks[j])
                    &&& reason == check_reason(checks[i])
                }
        },
{
    first_blocking_is_first(checks);
}

/// The decision by what GitHub reports, and by nothing else. A pull request is
/// drafted exactly when it has merge conflicts, when the combined status is
/// `failure` or `error`, or when a check run has completed as `failure`,
/// `timed_out`, `cancelled`, `action_required` or `stale`. Where none of these
/// holds it waits as long as mergeability is not known, its branch is updated
/// when the merge state is `behind`, and it is left alone in all other cases.
pub proof fn decision_by_the_report(
    mergeable: Option<bool>,
    mergeable_state: Seq<char>,
    combined_state: Seq<char>,
    checks: Seq<CheckRunView>,
)
    ensures
        ({
            let action = decided(mergeable, mergeable_state, combined_state, checks);
            let drafted = mergeable == Some(false) || combined_state == "failure"@ || combined_state
                == "error"@ || exists|i: int|
                0 <= i < checks.len() && (#[trigger] checks[i]).status == "completed"@
                && (checks[i].conclusion == Some("failure"@)
                    || checks[i].conclusion == Some("timed_out"@)
                    || checks[i].conclusion == Some("cancelled"@) || checks[i].conclusion == Some(
                    "action_required"@,
                ) || checks[i].conclusion == Some("stale"@));
            &&& action is Draft <==> drafted
            &&& action == ActionView::Retry <==> !drafted && mergeable == None::<bool>
            &&& action == ActionView::UpdateBranch <==> !drafted && mergeable == Some(true)
                && mergeable_state == "behind"@
            &&& action == ActionView::Nothing <==> !drafted && mergeable == Some(true)
                && mergeable_state != "behind"@
        }),
{
    first_blocking_is_first(checks);
    let bad = exists|i: int|
        0 <= i < checks.len() && (#[trigger] checks[i]).status == "completed"@
                && (checks[i].conclusion == Some("failure"@)
            || checks[i].conclusion == Some("timed_out"@)
                    || checks[i].conclusion == Some("cancelled"@) || checks[i].conclusion == Some(
                    "action_required"@,
                ) || checks[i].conclusion == Some("stale"@));
    if some_check_blocks(checks) {
        let k = choose|i: int| 0 <= i < checks.len() && blocks(#[trigger] checks[i]);
        assert(checks[k].conclusion == Some(checks[k].conclusion->0));
        assert(bad);
    }
    if bad {
        let k = choose|i: int|
            0 <= i < checks.len() && (#[trigger] checks[i]).status == "completed"@
                && (checks[i].conclusion == Some("failure"@)
                || checks[i].conclusion == Some("timed_out"@)
                    || checks[i].conclusion == Some("cancelled"@) || checks[i].conclusion == Some(
                    "action_required"@,
                ) || checks[i].conclusion == Some("stale"@));
        assert(blocks(checks[k]));
        assert(some_check_blocks(checks));
    }
    decided_exactly_when(mergeable, mergeable_state, combined_state, checks);
    assert(mergeable is None || mergeable == Some(true) || mergeable == Some(false));
}

/// A draft says why: merge conflicts before everything else, then the combined
/// status, then the first check run that has completed as one of the
/// conclusions that block, by its name and its conclusion.
pub proof fn reason_by_the_report(
    mergeable: Option<bool>,
    mergeable_state: Seq<char>,
    combined_state: Seq<char>,
    checks: Seq<CheckRunView>,
    at: int,
    conclusion: Seq<char>,
)
    ensures
        ({
            let action = decided(mergeable, mergeable_state, combined_state, checks);
            let failing = combined_state == "failure"@ || combined_state == "error"@;
            &&& mergeable == Some(false) ==> action == ActionView::Draft("merge conflicts"@)
            &&& mergeable != Some(false) && failing ==> action == ActionView::Draft(
                "combined status "@ + combined_state,
            )
            &&& mergeable != Some(false) && !failing && 0 <= at < checks.len()
                && checks[at].status == "completed"@ && checks[at].conclusion == Some(conclusion)
                && (conclusion == "failure"@ || conclusion == "timed_out"@ || conclusion
                == "cancelled"@ || conclusion == "action_required"@ || conclusion == "stale"@) && (
            forall|i: int|
                0 <= i < at ==> (#[trigger] checks[i]).status != "completed"@
                    || !(checks[i].conclusion == Some("failure"@)
                    || checks[i].conclusion == Some("timed_out"@)
                    || checks[i].conclusion == Some("cancelled"@) || checks[i].conclusion == Some(
                    "action_required"@,
                ) || checks[i].conclusion == Some("stale"@))) ==> action
                == ActionView::Draft("check '"@ + checks[at].name + "' "@ + conclusion)
        }),
{
    first_blocking_is_first(checks);
    if let Some(run) = first_blocking(checks) {
        let k = choose|i: int|
            {
                &&& 0 <= i < checks.len()
                &&& #[trigger] checks[i] == run
                &&& blocks(run)
                &&& forall|j: int| 0 <= j < i ==> !blocks(#[trigger] checks[j])
            };
        if k < at {
            assert(checks[k].conclusion == Some(checks[k].conclusion->0));
        }
        if at < k && 0 <= at {
            assert(!blocks(checks[at]));
        }
    } else if 0 <= at < checks.len() {
        assert(!blocks(checks[at]));
    }
}

/// The classification and the decision are one: what is blocked is drafted, for
/// the same reason; what is unknown waits; and what is clear is updated or left
/// alone.
pub proof fn classification_leads_the_decision(
    mergeable: Option<bool>,
    mergeable_state: Seq<char>,
    combined_state: Seq<char>,
    checks: Seq<CheckRunView>,
    reason: Seq<char>,
)
    ensures
        ({
            let class = classified(mergeable, combined_state, checks);
            let action = decided(mergeable, mergeable_state, combined_state, checks);
            &&& class == BlockDecisionView::Block(reason) <==> action == ActionView::Draft(reason)
            &&& class is Block <==> action is Draft
            &&& class is Unknown <==> action is Retry
            &&& class is Clear <==> action is UpdateBranch || action is Nothing
        }),
{
}

/// The views show every field as it is.
pub proof fn rule_views_show_everything(run: CheckRun, class: BlockDecision, action: Action)
    ensures
        run@.name == run.name@,
        run@.status == run.status@,
        match run.conclusion {
            Some(conclusion) => run@.conclusion == Some(conclusion@),
            None => run@.conclusion is None,
        },
        match class {
            BlockDecision::Block(reason) => class@ == BlockDecisionView::Block(reason@),
            BlockDecision::Clear => class@ is Clear,
            BlockDecision::Unknown => class@ is Unknown,
        },
        match action {
            Action::Nothing => action@ is Nothing,
            Action::Retry => action@ is Retry,
            Action::Draft(reason) => action@ == ActionView::Draft(reason@),
            Action::UpdateBranch => action@ is UpdateBranch,
        },
{
}

/// A row of check runs is shown run by run.
pub proof fn check_rows_are_shown(checks: Seq<CheckRun>)
    ensures
        check_views(checks).len() == checks.len(),
        forall|i: int| 0 <= i < checks.len() ==> #[trigger] check_views(checks)[i] == checks[i]@,
{
}

}
