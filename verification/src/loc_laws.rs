//! What holds of every line-count request, whatever events arrive and in whatever
//! order.

use crate::gate::{outcome_of, MetadataReply, Outcome};
use crate::loc::{
    loc_start, loc_step, LocActionView, LocEventView, LocFlowView, LocReplyView,
    LocResponseView, LocStageView,
};
use crate::repository::RepositoryIdentityView;
use crate::stats::LanguageStatView;
use vstd::prelude::*;

verus! {

/// The actions that a flow asks for, in order, while `events` arrive one by one.
pub open spec fn loc_run(flow: LocFlowView, events: Seq<LocEventView>) -> Seq<LocActionView>
    decreases events.len(),
{
    if events.len() == 0 {
        Seq::empty()
    } else {
        let (next, action) = loc_step(flow, events[0]);
        let rest = loc_run(next, events.drop_first());
        match action {
            Some(a) => seq![a] + rest,
            None => rest,
        }
    }
}

/// The first answer to the metadata query among `events`.
pub open spec fn first_metadata(events: Seq<LocEventView>) -> Option<MetadataReply>
    decreases events.len(),
{
    if events.len() == 0 {
        None
    } else {
        match events[0] {
            LocEventView::Metadata(reply) => Some(reply),
            _ => first_metadata(events.drop_first()),
        }
    }
}

/// The reply to a request that is turned away.
pub open spec fn denial(outcome: Outcome) -> LocReplyView {
    match outcome {
        Outcome::NotFound => LocReplyView::NotFound,
        Outcome::Unauthenticated => LocReplyView::Unauthorized,
        _ => LocReplyView::Forbidden,
    }
}

/// From `at` on there is nothing, or the response and nothing after it.
pub open spec fn closes(run: Seq<LocActionView>, at: int) -> bool {
    run.len() == at || (run.len() == at + 1 && run[at] is Respond)
}

/// From `at` on: the release, then the response.
pub open spec fn releases(run: Seq<LocActionView>, at: int) -> bool {
    run.len() == at || (run.len() > at && run[at] is Release && closes(run, at + 1))
}

/// From `at` on: the scan and then the release, or the release at once.
pub open spec fn scans(run: Seq<LocActionView>, at: int) -> bool {
    ||| run.len() == at
    ||| (run.len() > at && run[at] is Scan && releases(run, at + 1))
    ||| (run.len() > at && run[at] is Release && closes(run, at + 1))
}

/// From `at` on: the fetch and what follows it, or the response alone.
pub open spec fn fetches(run: Seq<LocActionView>, at: int) -> bool {
    ||| run.len() == at
    ||| (run.len() > at && run[at] is Fetch && scans(run, at + 1))
    ||| (run.len() == at + 1 && run[at] is Respond)
}

/// From `at` on: the acquisition and what follows it, or the response alone.
pub open spec fn acquires(run: Seq<LocActionView>, at: int) -> bool {
    ||| run.len() == at
    ||| (run.len() > at && run[at] is Acquire && fetches(run, at + 1))
    ||| (run.len() == at + 1 && run[at] is Respond)
}

/// The order in which a flow at `stage` can still ask for actions.
pub open spec fn well_ordered(stage: LocStageView, run: Seq<LocActionView>) -> bool {
    match stage {
        LocStageView::Authorizing => acquires(run, 0),
        LocStageView::Acquiring { .. } => fetches(run, 0),
        LocStageView::Fetching => scans(run, 0),
        LocStageView::Scanning => releases(run, 0),
        LocStageView::Releasing { .. } => closes(run, 0),
        LocStageView::Finished => run.len() == 0,
    }
}

/// Whatever events arrive, a flow asks for its actions in the order that its stage
/// leaves open.
pub proof fn lemma_run_is_well_ordered(flow: LocFlowView, events: Seq<LocEventView>)
    ensures
        well_ordered(flow.stage, loc_run(flow, events)),
    decreases events.len(),
{
    if events.len() > 0 {
        lemma_run_is_well_ordered(loc_step(flow, events[0]).0, events.drop_first());
    }
}

/// A request that is turned away as not found, unauthenticated or forbidden is
/// answered at once with that outcome: no workspace is set up, nothing is fetched,
/// scanned or released, and no later event brings another action.
pub proof fn law_denied_request_touches_no_workspace(
    identity: RepositoryIdentityView,
    authorization: Option<Seq<u8>>,
    events: Seq<LocEventView>,
)
    requires
        first_metadata(events) matches Some(reply) && (outcome_of(reply) == Outcome::NotFound
            || outcome_of(reply) == Outcome::Unauthenticated || outcome_of(reply)
            == Outcome::Forbidden),
    ensures
        loc_run(loc_start(identity, authorization), events) == seq![
            LocActionView::Respond(
                LocResponseView {
                    reply: denial(outcome_of(first_metadata(events)->0)),
                    cleanup_failed: false,
                },
            ),
        ],
        forall|i: int|
            0 <= i < loc_run(loc_start(identity, authorization), events).len() ==> {
                let action = #[trigger] loc_run(loc_start(identity, authorization), events)[i];
                !(action is Acquire) && !(action is Fetch) && !(action is Scan) && !(action
                    is Release)
            },
    decreases events.len(),
{
    let flow = loc_start(identity, authorization);
    match events[0] {
        LocEventView::Metadata(_) => {
            lemma_run_is_well_ordered(loc_step(flow, events[0]).0, events.drop_first());
        },
        _ => {
            law_denied_request_touches_no_workspace(identity, authorization, events.drop_first());
        },
    }
}

/// A workspace is released exactly once. Of the actions of any request: a fetch
/// happens at most once, and only after the workspace was acquired; a release
/// happens at most once, and only after the fetch; the response is the last action;
/// and between a fetch and the response there is a release. So a request that was
/// answered has left no workspace behind, whether the fetch failed, the scan failed
/// or the scan succeeded.
pub proof fn law_workspace_released_exactly_once(
    identity: RepositoryIdentityView,
    authorization: Option<Seq<u8>>,
    events: Seq<LocEventView>,
)
    ensures
        ({
            let run = loc_run(loc_start(identity, authorization), events);
            &&& forall|i: int, j: int|
                0 <= i < run.len() && 0 <= j < run.len() && #[trigger] run[i] is Release
                    && #[trigger] run[j] is Release ==> i == j
            &&& forall|i: int, j: int|
                0 <= i < run.len() && 0 <= j < run.len() && #[trigger] run[i] is Fetch
                    && #[trigger] run[j] is Fetch ==> i == j
            &&& forall|j: int|
                0 <= j < run.len() && #[trigger] run[j] is Release ==> exists|i: int|
                    0 <= i < j && #[trigger] run[i] is Fetch
            &&& forall|j: int|
                0 <= j < run.len() && #[trigger] run[j] is Fetch ==> exists|i: int|
                    0 <= i < j && #[trigger] run[i] is Acquire
            &&& forall|k: int|
                0 <= k < run.len() && #[trigger] run[k] is Respond ==> k == run.len() - 1
            &&& forall|i: int, k: int|
                0 <= i < run.len() && 0 <= k < run.len() && #[trigger] run[i] is Fetch
                    && #[trigger] run[k] is Respond ==> exists|j: int|
                    i < j < k && #[trigger] run[j] is Release
        }),
{
    lemma_run_is_well_ordered(loc_start(identity, authorization), events);
}

/// The reply held back at `stage` is the line counts `stats`.
pub open spec fn holds_stats(stage: LocStageView, stats: Seq<LanguageStatView>) -> bool {
    stage matches LocStageView::Releasing { reply } && reply == LocReplyView::Stats(stats)
}

proof fn lemma_answered_stats_were_scanned(
    flow: LocFlowView,
    events: Seq<LocEventView>,
    k: int,
    stats: Seq<LanguageStatView>,
)
    requires
        0 <= k < loc_run(flow, events).len(),
        loc_run(flow, events)[k] matches LocActionView::Respond(response) && response.reply
            == LocReplyView::Stats(stats),
    ensures
        holds_stats(flow.stage, stats) || exists|e: int|
            0 <= e < events.len() && #[trigger] events[e] == LocEventView::ScanSucceeded(stats),
    decreases events.len(),
{
    let (next, action) = loc_step(flow, events[0]);
    let tail = events.drop_first();
    let shifted = if action is Some {
        k - 1
    } else {
        k
    };
    if shifted >= 0 {
        lemma_answered_stats_were_scanned(next, tail, shifted, stats);
        if !holds_stats(next.stage, stats) {
            let e = choose|e: int|
                0 <= e < tail.len() && #[trigger] tail[e] == LocEventView::ScanSucceeded(stats);
            assert(events[e + 1] == tail[e]);
        }
    }
}

/// The line counts that `action` answers with, where it is such a response.
pub open spec fn answered_stats(action: LocActionView) -> Option<Seq<LanguageStatView>> {
    match action {
        LocActionView::Respond(response) => match response.reply {
            LocReplyView::Stats(stats) => Some(stats),
            _ => None,
        },
        _ => None,
    }
}

/// Line counts pass through unchanged. Every response that carries line counts
/// carries those of a successful scan, the same entries in the same order; and once
/// a scan has succeeded, the response after the release carries its line counts
/// whether the release succeeded or not.
pub proof fn law_scan_result_is_answered_unchanged(
    identity: RepositoryIdentityView,
    authorization: Option<Seq<u8>>,
    events: Seq<LocEventView>,
    scanning: LocFlowView,
    stats: Seq<LanguageStatView>,
)
    requires
        scanning.stage == LocStageView::Scanning,
    ensures
        forall|k: int|
            0 <= k < loc_run(loc_start(identity, authorization), events).len() && answered_stats(
                #[trigger] loc_run(loc_start(identity, authorization), events)[k],
            ) is Some ==> exists|e: int|
                0 <= e < events.len() && #[trigger] events[e] == LocEventView::ScanSucceeded(
                    answered_stats(loc_run(loc_start(identity, authorization), events)[k])->0,
                ),
        loc_step(
            loc_step(scanning, LocEventView::ScanSucceeded(stats)).0,
            LocEventView::ReleaseSucceeded,
        ).1 == Some(
            LocActionView::Respond(
                LocResponseView { reply: LocReplyView::Stats(stats), cleanup_failed: false },
            ),
        ),
        loc_step(
            loc_step(scanning, LocEventView::ScanSucceeded(stats)).0,
            LocEventView::ReleaseFailed,
        ).1 == Some(
            LocActionView::Respond(
                LocResponseView { reply: LocReplyView::Stats(stats), cleanup_failed: true },
            ),
        ),
{
    let run = loc_run(loc_start(identity, authorization), events);
    assert forall|k: int| 0 <= k < run.len() && answered_stats(#[trigger] run[k]) is Some implies exists|
        e: int,
    |
        0 <= e < events.len() && #[trigger] events[e] == LocEventView::ScanSucceeded(
            answered_stats(run[k])->0,
        ) by {
        lemma_answered_stats_were_scanned(
            loc_start(identity, authorization),
            events,
            k,
            answered_stats(run[k])->0,
        );
    }
}

} // verus!
