//! What a decision, a payment and a reading do to a post and its money.
use crate::composio;
use crate::composio::{MetricErrorView, MetricOutcomeView, MetricSample};
use crate::engine;
use crate::engine::{
    EngineView, HookEventView, RefreshErrorView, RefreshOutcomeView, RefreshStatus, ReportView,
    ReviewOutcomeView,
};
use crate::inputs::MetricsBody;
use crate::json::JsonView;
use crate::laws;
use crate::records::{
    MetricSource, PayoutStatus, PayoutView, SnapshotView, SubmissionStatus, SubmissionView,
};
use crate::render;
use crate::rows;
use crate::store;
use crate::store::{PayoutRowView, StoreView, SubmissionRowView, UgcEventView};
use crate::submission_api;
use crate::text;
use crate::weburl;
use crate::weburl::UrlView;
use crate::wire_laws;
use vstd::prelude::*;

verus! {

/// The engine once the post at `i` stands as `record`, its stored state as the record says.
pub open spec fn with_post(e: EngineView, i: int, record: SubmissionView) -> EngineView {
    EngineView {
        store: StoreView {
            submissions: e.store.submissions.update(
                i,
                SubmissionRowView {
                    record,
                    status_text: match record.status {
                        SubmissionStatus::Pending => "pending"@,
                        SubmissionStatus::Approved => "approved"@,
                        SubmissionStatus::Rejected => "rejected"@,
                        SubmissionStatus::Paid => "paid"@,
                    },
                },
            ),
            feed: e.store.feed.push(UgcEventView::SubmissionChanged { submission: record }),
            ..e.store
        },
        ..e
    }
}

proof fn lemma_moved(
    e: EngineView,
    i: int,
    status: SubmissionStatus,
    reviewed_at: Option<Seq<char>>,
    why: Option<Seq<char>>,
    now: Seq<char>,
)
    requires
        e.store.wf(),
        0 <= i < e.store.submissions.len(),
    ensures
        ({
            let was = e.store.submissions[i].record;
            let record = SubmissionView {
                status,
                reviewed_at,
                rejection_reason: why,
                updated_at: now,
                ..was
            };
            let moved = e.store.set_submission_status(was.id, status, reviewed_at, why, now);
            &&& moved == with_post(e, i, record).store
            &&& moved.submission(was.id) == Some(record)
            &&& e.store.submission(was.id) == Some(was)
        }),
{
    let was = e.store.submissions[i].record;
    rows::lemma_only(
        e.store.submissions,
        store::submission_key(),
        store::submission_is(was.id),
        was.id,
        i,
    );
    laws::lemma_status_is_set(e.store, was.id, status, reviewed_at, why, now);
}

// ---- decisions -------------------------------------------------------------------------------

/// An approval of a post that is pending or was rejected stamps the review, clears the reason and
/// runs the accrual; where that succeeds, the approval is reported with the payout, and the answer
/// is the post with the payout.
pub proof fn law_an_approval(
    e: EngineView,
    i: int,
    reason: Option<Seq<char>>,
    now: Seq<char>,
    accrued_at: Seq<char>,
    fresh_id: Seq<char>,
)
    requires
        e.store.wf(),
        0 <= i < e.store.submissions.len(),
        e.store.submissions[i].record.status == SubmissionStatus::Pending
            || e.store.submissions[i].record.status == SubmissionStatus::Rejected,
    ensures
        ({
            let was = e.store.submissions[i].record;
            let record = SubmissionView {
                status: SubmissionStatus::Approved,
                reviewed_at: Some(now),
                rejection_reason: None,
                updated_at: now,
                ..was
            };
            let (accrued, a) = with_post(e, i, record).accrue(was.id, accrued_at, fresh_id);
            let (after, answer) = e.review(was.id, true, reason, now, accrued_at, fresh_id);
            let payout = match a {
                Ok(Some(o)) => o.payout,
                _ => None,
            };
            &&& a is Ok ==> {
                &&& after.store == accrued.store
                &&& after.outbox == accrued.outbox.push(
                    HookEventView::SubmissionApproved {
                        submission: record,
                        payout,
                        reviewed_at: now,
                    },
                )
                &&& answer == Ok::<_, Seq<char>>(
                    Some(ReviewOutcomeView { submission: record, payout, changed: true }),
                )
            }
            &&& a matches Err(m) ==> after == accrued && answer == Err::<
                Option<ReviewOutcomeView>,
                _,
            >(m)
        }),
{
    lemma_moved(e, i, SubmissionStatus::Approved, Some(now), None, now);
}

/// A rejection of a post that is pending or was approved stamps the review with the trimmed reason,
/// where there is one, takes every payout of the post that is not paid, and is reported; counters
/// and the money of other posts stay.
pub proof fn law_a_rejection(
    e: EngineView,
    i: int,
    reason: Option<Seq<char>>,
    now: Seq<char>,
    accrued_at: Seq<char>,
    fresh_id: Seq<char>,
)
    requires
        e.store.wf(),
        0 <= i < e.store.submissions.len(),
        e.store.submissions[i].record.status == SubmissionStatus::Pending
            || e.store.submissions[i].record.status == SubmissionStatus::Approved,
    ensures
        ({
            let was = e.store.submissions[i].record;
            let why = match reason {
                Some(r) => if text::trimmed(r).len() > 0 {
                    Some(text::trimmed(r))
                } else {
                    None
                },
                None => None,
            };
            let record = SubmissionView {
                status: SubmissionStatus::Rejected,
                reviewed_at: Some(now),
                rejection_reason: why,
                updated_at: now,
                ..was
            };
            let (after, answer) = e.review(was.id, false, reason, now, accrued_at, fresh_id);
            &&& after.store.submissions == with_post(e, i, record).store.submissions
            &&& after.store.payouts == e.store.payouts.filter(
                |p: PayoutRowView|
                    p.record.submission_id != Some(was.id) || p.record.status
                        == PayoutStatus::Paid,
            )
            &&& after.store.snapshots == e.store.snapshots
            &&& after.store.campaigns == e.store.campaigns
            &&& after.store.creators == e.store.creators
            &&& after.outbox == e.outbox.push(
                HookEventView::SubmissionRejected {
                    submission: record,
                    reason: why,
                    reviewed_at: now,
                },
            )
            &&& answer == Ok::<_, Seq<char>>(
                Some(ReviewOutcomeView { submission: record, payout: None, changed: true }),
            )
        }),
{
    let was = e.store.submissions[i].record;
    lemma_moved(
        e,
        i,
        SubmissionStatus::Rejected,
        Some(now),
        engine::kept_reason(reason),
        now,
    );
    rows::lemma_kept_is_filter(
        e.store.payouts,
        store::not(store::unpaid_on(was.id)),
        |p: PayoutRowView|
            p.record.submission_id != Some(was.id) || p.record.status == PayoutStatus::Paid,
    );
}

/// A decision that changes nothing: on a post that is not there; an approval of one that is
/// approved or paid; a rejection of one that is rejected; and a rejection of one that is paid,
/// which is refused.
pub proof fn law_a_decision_without_effect(
    e: EngineView,
    i: int,
    reason: Option<Seq<char>>,
    now: Seq<char>,
    accrued_at: Seq<char>,
    fresh_id: Seq<char>,
    other: Seq<char>,
)
    requires
        e.store.wf(),
        0 <= i < e.store.submissions.len(),
    ensures
        ({
            let was = e.store.submissions[i].record;
            let approve = e.review(was.id, true, reason, now, accrued_at, fresh_id);
            let reject = e.review(was.id, false, reason, now, accrued_at, fresh_id);
            let same = Ok::<_, Seq<char>>(
                Some(
                    ReviewOutcomeView {
                        submission: was,
                        payout: e.store.payout_of(was.id),
                        changed: false,
                    },
                ),
            );
            &&& was.status == SubmissionStatus::Approved || was.status == SubmissionStatus::Paid
                ==> approve == (e, same)
            &&& was.status == SubmissionStatus::Rejected ==> reject == (e, same)
            &&& was.status == SubmissionStatus::Paid ==> reject == (
                e,
                Err::<Option<ReviewOutcomeView>, _>(
                    "this submission has already been paid and cannot be rejected"@,
                ),
            )
        }),
        (forall|k: int|
            0 <= k < e.store.submissions.len() ==> (#[trigger] e.store.submissions[k]).record.id
                != other) ==> forall|approve: bool| #[trigger]
            e.review(other, approve, reason, now, accrued_at, fresh_id) == (
                e,
                Ok::<Option<ReviewOutcomeView>, Seq<char>>(None),
            ),
{
    let was = e.store.submissions[i].record;
    rows::lemma_only(
        e.store.submissions,
        store::submission_key(),
        store::submission_is(was.id),
        was.id,
        i,
    );
    rows::lemma_position(e.store.submissions, store::submission_is(other));
}

/// A decision is read from its word, in whatever case and with whatever white space around it:
/// `approve` and `approved` approve, `reject` and `rejected` reject, and any other word is answered
/// 400 and decides nothing.
pub proof fn law_the_words_of_a_decision(
    e: EngineView,
    id: Seq<char>,
    word: Seq<char>,
    reason: Option<Seq<char>>,
    now: Seq<char>,
    accrued_at: Seq<char>,
    fresh_id: Seq<char>,
)
    ensures
        ({
            let name = text::lower(text::trimmed(word));
            let yes = name == "approve"@ || name == "approved"@;
            let no = name == "reject"@ || name == "rejected"@;
            let (after, reply) = e.decided_submission(
                id,
                word,
                reason,
                now,
                accrued_at,
                fresh_id,
            );
            &&& yes || no ==> {
                let (next, outcome) = e.review(id, yes, reason, now, accrued_at, fresh_id);
                &&& after == next
                &&& reply.status == match outcome {
                    Ok(Some(_)) => 200u16,
                    Ok(None) => 404u16,
                    Err(_) => 409u16,
                }
            }
            &&& !yes && !no ==> after == e && reply.status == 400
        }),
{
    reveal_strlit("approve");
    reveal_strlit("approved");
    reveal_strlit("reject");
    reveal_strlit("rejected");
    assert("approve"@[0] == 'a' && "approved"@[0] == 'a' && "reject"@[0] == 'r' && "rejected"@[0]
        == 'r');
}

// ---- payments --------------------------------------------------------------------------------

/// Another payout than the one at `k` stays as it is.
pub open spec fn other_money_stays(s: StoreView, t: StoreView, k: int) -> bool {
    &&& t.payouts.len() == s.payouts.len()
    &&& forall|i: int| 0 <= i < s.payouts.len() && i != k ==> #[trigger] t.payouts[i] == s.payouts[i]
}

/// To approve a payout moves an accrued one to approved and stamps it, with its amount and
/// everything else as it was, and is answered with a success; an approved one is left as it is,
/// with a success; a paid one is refused with 409, and an unknown one with 404.
pub proof fn law_a_payout_is_approved(e: EngineView, k: int, now: Seq<char>, other: Seq<char>)
    requires
        e.store.wf(),
        0 <= k < e.store.payouts.len(),
    ensures
        ({
            let was = e.store.payouts[k].record;
            let (after, reply) = e.approved_payout(was.id, now);
            &&& was.status == PayoutStatus::Accrued ==> {
                &&& reply.status == 200
                &&& after.store.payouts[k].record == (PayoutView {
                    status: PayoutStatus::Approved,
                    approved_at: Some(now),
                    updated_at: now,
                    ..was
                })
                &&& after.store.payouts[k].status_text == "approved"@
                &&& other_money_stays(e.store, after.store, k)
                &&& after.store.submissions == e.store.submissions
                &&& after.store.snapshots == e.store.snapshots
                &&& after.outbox == e.outbox
            }
            &&& was.status == PayoutStatus::Approved ==> after == e && reply.status == 200
            &&& was.status == PayoutStatus::Paid ==> after == e && reply.status == 409
        }),
        (forall|i: int|
            0 <= i < e.store.payouts.len() ==> (#[trigger] e.store.payouts[i]).record.id != other)
            ==> e.approved_payout(other, now).0 == e && e.approved_payout(other, now).1.status
            == 404,
{
    let was = e.store.payouts[k].record;
    rows::lemma_only(
        e.store.payouts,
        store::payout_key(),
        store::payout_is(was.id),
        was.id,
        k,
    );
    rows::lemma_position(e.store.payouts, store::payout_is(other));
}

/// To mark a payout paid moves an approved one to paid and stamps it, with its amount and
/// everything else as it was, and moves its post to paid, with its review stamp as it was; a paid
/// one is left as it is, with a success; an accrued one, which nobody signed off, is refused with
/// 409, and an unknown one with 404.
pub proof fn law_a_payout_is_paid(e: EngineView, k: int, now: Seq<char>, other: Seq<char>, i: int)
    requires
        e.store.wf(),
        0 <= k < e.store.payouts.len(),
        0 <= i < e.store.submissions.len(),
    ensures
        ({
            let was = e.store.payouts[k].record;
            let post = e.store.submissions[i].record;
            let (after, reply) = e.paid_payout(was.id, now);
            &&& was.status == PayoutStatus::Approved ==> {
                &&& reply.status == 200
                &&& after.store.payouts[k].record == (PayoutView {
                    status: PayoutStatus::Paid,
                    paid_at: Some(now),
                    updated_at: now,
                    ..was
                })
                &&& after.store.payouts[k].status_text == "paid"@
                &&& other_money_stays(e.store, after.store, k)
                &&& after.store.submissions.len() == e.store.submissions.len()
                &&& was.submission_id == Some(post.id) ==> after.store.submissions[i] == (
                SubmissionRowView {
                    record: SubmissionView {
                        status: SubmissionStatus::Paid,
                        rejection_reason: None,
                        updated_at: now,
                        ..post
                    },
                    status_text: "paid"@,
                })
                &&& was.submission_id != Some(post.id) ==> after.store.submissions[i]
                    == e.store.submissions[i]
                &&& after.store.snapshots == e.store.snapshots
                &&& after.outbox == e.outbox
            }
            &&& was.status == PayoutStatus::Paid ==> after == e && reply.status == 200
            &&& was.status == PayoutStatus::Accrued ==> after == e && reply.status == 409
        }),
        (forall|j: int|
            0 <= j < e.store.payouts.len() ==> (#[trigger] e.store.payouts[j]).record.id != other)
            ==> e.paid_payout(other, now).0 == e && e.paid_payout(other, now).1.status == 404,
{
    let was = e.store.payouts[k].record;
    let post = e.store.submissions[i].record;
    rows::lemma_only(
        e.store.payouts,
        store::payout_key(),
        store::payout_is(was.id),
        was.id,
        k,
    );
    rows::lemma_position(e.store.payouts, store::payout_is(other));
    let moved = e.store.set_payout_status(was.id, PayoutStatus::Paid, now);
    laws::lemma_payout_is_moved(e.store, was.id, PayoutStatus::Paid, now);
    match was.submission_id {
        Some(sid) => {
            rows::lemma_position(moved.submissions, store::submission_is(sid));
            if sid == post.id {
                rows::lemma_only(
                    moved.submissions,
                    store::submission_key(),
                    store::submission_is(sid),
                    sid,
                    i,
                );
            }
        },
        None => {},
    }
}

// ---- readings --------------------------------------------------------------------------------

/// The snapshots with one more behind them: this reading of the post, under the next id.
pub open spec fn with_reading(
    e: EngineView,
    id: Seq<char>,
    sample: MetricSample,
    source: MetricSource,
    at: Seq<char>,
) -> EngineView {
    EngineView {
        store: StoreView {
            snapshots: e.store.snapshots.push(reading(e, id, sample, source, at)),
            last_snapshot_id: (e.store.last_snapshot_id + 1) as i64,
            ..e.store
        },
        ..e
    }
}

/// A reading of the post as a snapshot: each counter under its own name, and the next id.
pub open spec fn reading(
    e: EngineView,
    id: Seq<char>,
    sample: MetricSample,
    source: MetricSource,
    at: Seq<char>,
) -> SnapshotView {
    SnapshotView {
        id: (e.store.last_snapshot_id + 1) as i64,
        submission_id: id,
        captured_at: at,
        views: sample.views,
        likes: sample.likes,
        comments: sample.comments,
        shares: sample.shares,
        saves: sample.saves,
        source,
    }
}

/// What a fetch read of a post is written as a snapshot with every counter under its own name, is
/// reported with the snapshot that it follows, and is then priced.
pub proof fn law_a_reading_is_written_and_priced(
    e: EngineView,
    post: SubmissionView,
    previous: Option<SnapshotView>,
    sample: MetricSample,
    at: Seq<char>,
    accrued_at: Seq<char>,
    fresh_id: Seq<char>,
)
    requires
        e.store.last_snapshot_id < i64::MAX,
    ensures
        ({
            let fetched = Ok::<_, MetricErrorView>(MetricOutcomeView::Sample(sample));
            let (after, answer) = e.finish_refresh(
                post,
                previous,
                fetched,
                at,
                accrued_at,
                fresh_id,
            );
            let snapshot = reading(e, post.id, sample, MetricSource::Composio, at);
            let written = with_reading(e, post.id, sample, MetricSource::Composio, at);
            let told = EngineView {
                outbox: e.outbox.push(
                    HookEventView::MetricsRefreshed { submission: post, snapshot, previous },
                ),
                ..written
            };
            let (priced, a) = told.accrue(post.id, accrued_at, fresh_id);
            &&& after == priced
            &&& a is Ok ==> answer == Ok::<_, RefreshErrorView>(
                RefreshOutcomeView::Refreshed {
                    snapshot,
                    previous,
                    payout: match a {
                        Ok(Some(o)) => o.payout,
                        _ => None,
                    },
                },
            )
            &&& a matches Err(m) ==> answer == Err::<RefreshOutcomeView, _>(
                RefreshErrorView::Internal(m),
            )
        }),
{
}

/// A fetch that produced no reading writes nothing: a wish for a connected account is handed on
/// with its link, and a failure as what it is.
pub proof fn law_without_a_reading_nothing_is_written(
    e: EngineView,
    post: SubmissionView,
    previous: Option<SnapshotView>,
    message: Seq<char>,
    link: Option<Seq<char>>,
    at: Seq<char>,
    accrued_at: Seq<char>,
    fresh_id: Seq<char>,
)
    ensures
        e.finish_refresh(
            post,
            previous,
            Ok::<_, MetricErrorView>(
                MetricOutcomeView::NeedsConnection { message, connect_url: link },
            ),
            at,
            accrued_at,
            fresh_id,
        ) == (
            e,
            Ok::<_, RefreshErrorView>(
                RefreshOutcomeView::NeedsConnection { message, connect_url: link },
            ),
        ),
        e.finish_refresh(
            post,
            previous,
            Err::<MetricOutcomeView, _>(MetricErrorView::Unsupported(message)),
            at,
            accrued_at,
            fresh_id,
        ) == (e, Err::<RefreshOutcomeView, _>(RefreshErrorView::Unsupported(message))),
        e.finish_refresh(
            post,
            previous,
            Err::<MetricOutcomeView, _>(MetricErrorView::Upstream(message)),
            at,
            accrued_at,
            fresh_id,
        ) == (e, Err::<RefreshOutcomeView, _>(RefreshErrorView::Upstream(message))),
{
}

/// A post is refreshed where its platform has a curated source and it has a post id; the plan is
/// the post with its newest snapshot. Any other post is refused, and says why.
pub proof fn law_which_posts_are_refreshed(e: EngineView, i: int, other: Seq<char>)
    requires
        e.store.wf(),
        0 <= i < e.store.submissions.len(),
    ensures
        ({
            let post = e.store.submissions[i].record;
            let plan = e.refresh_plan(post.id);
            let sourced = composio::source_of(post.platform) is Some;
            let located = text::trimmed(post.external_post_id).len() > 0;
            &&& sourced && located ==> plan == Ok::<_, RefreshErrorView>(
                (post, e.store.latest(post.id)),
            )
            &&& !sourced || !located ==> plan matches Err(RefreshErrorView::Unsupported(_))
        }),
        (forall|k: int|
            0 <= k < e.store.submissions.len() ==> (#[trigger] e.store.submissions[k]).record.id
                != other) ==> e.refresh_plan(other) == Err::<
            (SubmissionView, Option<SnapshotView>),
            _,
        >(RefreshErrorView::NotFound),
{
    let post = e.store.submissions[i].record;
    rows::lemma_only(
        e.store.submissions,
        store::submission_key(),
        store::submission_is(post.id),
        post.id,
        i,
    );
    rows::lemma_position(e.store.submissions, store::submission_is(other));
}

/// Counters that are entered by hand are written as a snapshot with every counter under its own
/// name and then priced, and raise no refresh event; counters below 0 are answered 400, an unknown
/// post 404, and both change nothing.
pub proof fn law_counters_are_entered_by_hand(
    e: EngineView,
    i: int,
    body: MetricsBody,
    at: Seq<char>,
    accrued_at: Seq<char>,
    fresh_id: Seq<char>,
    other: Seq<char>,
)
    requires
        e.store.wf(),
        0 <= i < e.store.submissions.len(),
        e.store.last_snapshot_id < i64::MAX,
    ensures
        ({
            let post = e.store.submissions[i].record;
            let sound = 0 <= body.views && 0 <= body.likes && 0 <= body.comments && 0
                <= body.shares && 0 <= body.saves;
            let sample = MetricSample {
                views: body.views,
                likes: body.likes,
                comments: body.comments,
                shares: body.shares,
                saves: body.saves,
            };
            let (after, reply) = e.recorded_metrics(post.id, body, at, accrued_at, fresh_id);
            let written = with_reading(e, post.id, sample, MetricSource::Manual, at);
            let (priced, a) = written.accrue(post.id, accrued_at, fresh_id);
            let payout = match a {
                Ok(Some(o)) => o.payout,
                _ => None,
            };
            &&& sound ==> after == priced && reply.status == if a is Ok {
                200u16
            } else {
                500u16
            }
            &&& sound && a is Ok ==> wire_laws::holds(
                reply.body,
                "snapshot"@,
                render::snapshot_json()(reading(e, post.id, sample, MetricSource::Manual, at)),
            )
            &&& sound && a is Ok ==> wire_laws::holds(
                reply.body,
                "payout"@,
                match payout {
                    Some(p) => render::payout_json()(p),
                    None => JsonView::Null,
                },
            )
            &&& !sound ==> after == e && reply.status == 400
            &&& sound && (forall|k: int|
                0 <= k < e.store.submissions.len() ==> (
                #[trigger] e.store.submissions[k]).record.id != other) ==> e.recorded_metrics(
                other,
                body,
                at,
                accrued_at,
                fresh_id,
            ).0 == e && e.recorded_metrics(other, body, at, accrued_at, fresh_id).1.status == 404
        }),
{
    let post = e.store.submissions[i].record;
    rows::lemma_only(
        e.store.submissions,
        store::submission_key(),
        store::submission_is(post.id),
        post.id,
        i,
    );
    rows::lemma_position(e.store.submissions, store::submission_is(other));
    let sample = MetricSample {
        views: body.views,
        likes: body.likes,
        comments: body.comments,
        shares: body.shares,
        saves: body.saves,
    };
    let written = with_reading(e, post.id, sample, MetricSource::Manual, at);
    let a = written.accrue(post.id, accrued_at, fresh_id).1;
    if 0 <= body.views && 0 <= body.likes && 0 <= body.comments && 0 <= body.shares && 0
        <= body.saves && a is Ok {
        let m = e.recorded_metrics(post.id, body, at, accrued_at, fresh_id).1.body->Object_0;
        let payout = match a {
            Ok(Some(o)) => o.payout,
            _ => None,
        };
        assert(m[0] == (
            "snapshot"@,
            render::snapshot_json()(reading(e, post.id, sample, MetricSource::Manual, at)),
        ));
        assert(m[1] == ("payout"@, render::or_null(payout, render::payout_json())));
    }
}

/// A line of a refresh says what became of it: a reading with its snapshot, a wish for a connected
/// account with its link, or a failure with its message. The answer to a single refresh is a
/// success for the first two, and 404, 400, 502 or 500 for the failures.
pub proof fn law_a_refresh_line_says_what_became_of_it(
    id: Seq<char>,
    snapshot: SnapshotView,
    previous: Option<SnapshotView>,
    payout: Option<PayoutView>,
    message: Seq<char>,
    link: Option<Seq<char>>,
)
    ensures
        ({
            let read = engine::report_of(
                id,
                Ok(RefreshOutcomeView::Refreshed { snapshot, previous, payout }),
            );
            &&& read.submission_id == id && read.status == RefreshStatus::Success && read.snapshot
                == Some(snapshot)
            &&& read.message is None && read.connect_url is None
        }),
        ({
            let asked = engine::report_of(
                id,
                Ok(RefreshOutcomeView::NeedsConnection { message, connect_url: link }),
            );
            &&& asked.submission_id == id && asked.status == RefreshStatus::NeedsConnection
            &&& asked.message == Some(message) && asked.connect_url == link && asked.snapshot is None
        }),
        ({
            let failed = engine::report_of(id, Err(RefreshErrorView::Upstream(message)));
            &&& failed.submission_id == id && failed.status == RefreshStatus::Error
            &&& failed.message == Some(message) && failed.snapshot is None
        }),
        ({
            let failed = engine::report_of(id, Err(RefreshErrorView::Unsupported(message)));
            &&& failed.submission_id == id && failed.status == RefreshStatus::Error
            &&& failed.message == Some(message) && failed.snapshot is None
        }),
        submission_api::refresh_status(RefreshErrorView::NotFound) == 404,
        submission_api::refresh_status(RefreshErrorView::Unsupported(message)) == 400,
        submission_api::refresh_status(RefreshErrorView::Upstream(message)) == 502,
        submission_api::refresh_status(RefreshErrorView::Internal(message)) == 500,
{
}

/// Where no snapshot id is left, a reading is refused and nothing is written.
pub proof fn law_when_the_snapshot_ids_run_out(
    e: EngineView,
    i: int,
    previous: Option<SnapshotView>,
    body: MetricsBody,
    sample: MetricSample,
    at: Seq<char>,
    accrued_at: Seq<char>,
    fresh_id: Seq<char>,
)
    requires
        e.store.wf(),
        0 <= i < e.store.submissions.len(),
        e.store.last_snapshot_id == i64::MAX,
    ensures
        ({
            let post = e.store.submissions[i].record;
            let (after, answer) = e.finish_refresh(
                post,
                previous,
                Ok(MetricOutcomeView::Sample(sample)),
                at,
                accrued_at,
                fresh_id,
            );
            let (same, reply) = e.recorded_metrics(post.id, body, at, accrued_at, fresh_id);
            &&& after == e && answer is Err && answer->Err_0 is Internal
            &&& same == e && (reply.status == 500 || reply.status == 400)
        }),
{
    let post = e.store.submissions[i].record;
    rows::lemma_position(e.store.submissions, store::submission_is(post.id));
}

proof fn lemma_tally_is_filter<T>(s: Seq<T>, p: spec_fn(T) -> bool, q: spec_fn(T) -> bool)
    requires
        forall|t: T| #[trigger] p(t) == q(t),
    ensures
        rows::tally(s, p) == s.filter(q).len(),
    decreases s.len(),
{
    reveal(Seq::filter);
    if s.len() > 0 {
        lemma_tally_is_filter(s.drop_last(), p, q);
    } else {
        assert(s.filter(q).len() == 0);
    }
}

/// The split of a refresh counts its lines by what became of them, and every line is counted once.
pub proof fn law_the_split_of_a_refresh(lines: Seq<ReportView>)
    ensures
        ({
            let ok = rows::tally(lines, engine::reports(RefreshStatus::Success));
            let asked = rows::tally(lines, engine::reports(RefreshStatus::NeedsConnection));
            let failed = rows::tally(lines, engine::reports(RefreshStatus::Error));
            &&& ok == lines.filter(|l: ReportView| l.status == RefreshStatus::Success).len()
            &&& asked == lines.filter(
                |l: ReportView| l.status == RefreshStatus::NeedsConnection,
            ).len()
            &&& failed == lines.filter(|l: ReportView| l.status == RefreshStatus::Error).len()
            &&& ok + asked + failed == lines.len()
        }),
    decreases lines.len(),
{
    lemma_tally_is_filter(
        lines,
        engine::reports(RefreshStatus::Success),
        |l: ReportView| l.status == RefreshStatus::Success,
    );
    lemma_tally_is_filter(
        lines,
        engine::reports(RefreshStatus::NeedsConnection),
        |l: ReportView| l.status == RefreshStatus::NeedsConnection,
    );
    lemma_tally_is_filter(
        lines,
        engine::reports(RefreshStatus::Error),
        |l: ReportView| l.status == RefreshStatus::Error,
    );
    if lines.len() > 0 {
        law_the_split_of_a_refresh(lines.drop_last());
    }
}

// ---- corrections -----------------------------------------------------------------------------

/// A correction that is accepted rewrites the post's platform, URL and post id together: a new URL
/// gives the URL and its post id on the platform, and a new platform alone reads the present URL
/// again. A blank platform and a URL that is not let in are answered 400 and change nothing.
pub proof fn law_a_correction_reads_the_url_again(
    s: SubmissionView,
    platform: Option<Seq<char>>,
    url: UrlView,
    stored: Option<UrlView>,
    why: Seq<char>,
    now: Seq<char>,
)
    ensures
        ({
            let key = match platform {
                Some(p) => text::lower(text::trimmed(p)),
                None => s.platform,
            };
            let blank = platform is Some && text::trimmed(platform->0).len() == 0;
            let moved = submission_api::edited(s, platform, Some(Ok(url)), stored, now);
            let kept = submission_api::edited(s, platform, None, stored, now);
            &&& blank ==> moved is Err && kept is Err
            &&& !blank ==> {
                &&& moved == Ok::<_, Seq<char>>(
                    SubmissionView {
                        platform: key,
                        post_url: url.href,
                        external_post_id: match weburl::post_id(key, url) {
                            Some(code) => code,
                            None => Seq::empty(),
                        },
                        updated_at: now,
                        ..s
                    },
                )
                &&& platform is None ==> kept == Ok::<_, Seq<char>>(
                    SubmissionView { updated_at: now, ..s },
                )
                &&& platform is Some ==> kept == Ok::<_, Seq<char>>(
                    SubmissionView {
                        platform: key,
                        external_post_id: match stored {
                            Some(u) => match weburl::post_id(key, u) {
                                Some(code) => code,
                                None => Seq::empty(),
                            },
                            None => Seq::empty(),
                        },
                        updated_at: now,
                        ..s
                    },
                )
                &&& submission_api::edited(s, platform, Some(Err(why)), stored, now) == Err::<
                    SubmissionView,
                    _,
                >(why)
            }
        }),
{
}

/// A correction screens the new URL where one is sent, and else reads the stored one again.
pub proof fn law_which_url_a_correction_reads(s: StoreView, i: int, raw: Seq<char>)
    requires
        s.wf(),
        0 <= i < s.submissions.len(),
    ensures
        submission_api::screened_edit(None) is None,
        submission_api::screened_edit(Some(raw)) == Some(weburl::screened_text(raw)),
        ({
            let post = s.submissions[i].record;
            let stored = submission_api::stored_url(s, post.id);
            let parsed = weburl::parsed_url(post.post_url);
            &&& parsed is Ok ==> stored == Some(parsed->Ok_0)
            &&& parsed is Err ==> stored is None
        }),
{
    rows::lemma_position(s.submissions, store::submission_is(s.submissions[i].record.id));
}

/// A correction of a post that is not there is answered 404, and one that cannot be made 400; both
/// change nothing.
pub proof fn law_a_correction_is_refused(
    e: EngineView,
    i: int,
    platform: Option<Seq<char>>,
    screened: Option<Result<UrlView, Seq<char>>>,
    stored: Option<UrlView>,
    now: Seq<char>,
    other: Seq<char>,
)
    requires
        e.store.wf(),
        0 <= i < e.store.submissions.len(),
    ensures
        ({
            let post = e.store.submissions[i].record;
            let (after, reply) = e.corrected_submission(post.id, platform, screened, stored, now);
            let blank = platform is Some && text::trimmed(platform->0).len() == 0;
            blank || (screened is Some && screened->0 is Err) ==> after == e && reply.status == 400
        }),
        (forall|k: int|
            0 <= k < e.store.submissions.len() ==> (#[trigger] e.store.submissions[k]).record.id
                != other) ==> {
            let (after, reply) = e.corrected_submission(other, platform, screened, stored, now);
            after == e && reply.status == 404
        },
{
    rows::lemma_position(
        e.store.submissions,
        store::submission_is(e.store.submissions[i].record.id),
    );
    rows::lemma_position(e.store.submissions, store::submission_is(other));
}

/// A correction is stored where no other post of the campaign stands under the same platform and
/// post id, and is answered with a success; otherwise it is answered 409 and changes nothing.
pub proof fn law_a_correction_is_stored(
    e: EngineView,
    i: int,
    platform: Option<Seq<char>>,
    screened: Option<Result<UrlView, Seq<char>>>,
    stored: Option<UrlView>,
    now: Seq<char>,
    next: SubmissionView,
)
    requires
        e.store.wf(),
        0 <= i < e.store.submissions.len(),
        submission_api::edited(
            e.store.submissions[i].record,
            platform,
            screened,
            stored,
            now,
        ) == Ok::<_, Seq<char>>(next),
    ensures
        ({
            let was = e.store.submissions[i].record;
            let (after, reply) = e.corrected_submission(was.id, platform, screened, stored, now);
            let clash = exists|k: int|
                0 <= k < e.store.submissions.len() && k != i && (
                #[trigger] e.store.submissions[k]).record.campaign_id == was.campaign_id
                    && e.store.submissions[k].record.platform == next.platform
                    && e.store.submissions[k].record.external_post_id == next.external_post_id
                    && next.external_post_id.len() > 0;
            &&& !clash ==> {
                &&& reply.status == 200
                &&& after.store.submissions.len() == e.store.submissions.len()
                &&& after.store.submissions[i].record == next
                &&& after.store.submissions[i].status_text == e.store.submissions[i].status_text
                &&& forall|k: int|
                    0 <= k < e.store.submissions.len() && k != i
                        ==> #[trigger] after.store.submissions[k] == e.store.submissions[k]
                &&& after.store.payouts == e.store.payouts
                &&& after.outbox == e.outbox
            }
            &&& clash ==> after == e && reply.status == 409
        }),
{
    let was = e.store.submissions[i].record;
    rows::lemma_only(
        e.store.submissions,
        store::submission_key(),
        store::submission_is(was.id),
        was.id,
        i,
    );
    let s = e.store.submissions;
    if store::post_clash(s, i, next.platform, next.external_post_id) {
        let k = choose|k: int|
            0 <= k < s.len() && k != i && store::post_is(
                s[i].record.campaign_id,
                next.platform,
                next.external_post_id,
            )(#[trigger] s[k]);
        assert(s[k].record.campaign_id == was.campaign_id);
    } else {
        assert forall|k: int|
            0 <= k < s.len() && k != i implies !((#[trigger] s[k]).record.campaign_id
            == was.campaign_id && s[k].record.platform == next.platform
            && s[k].record.external_post_id == next.external_post_id && next.external_post_id.len()
            > 0) by {
            assert(!store::post_is(
                s[i].record.campaign_id,
                next.platform,
                next.external_post_id,
            )(s[k]));
        }
    }
}

} // verus!
