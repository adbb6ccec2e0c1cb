//! What every request is answered.
use crate::api;
use crate::engine::{EngineView, ReviewOutcomeView};
use crate::inputs;
use crate::inputs::{CampaignBodyView, CreatorBodyView};
use crate::json::JsonView;
use crate::payout_api;
use crate::post_laws;
use crate::price_laws;
use crate::records::{PayoutStatus, PayoutView, SnapshotView, SubmissionView};
use crate::render;
use crate::replies;
use crate::rows;
use crate::store;
use crate::store::{StoreView, WriteOutcome};
use crate::store_laws;
use crate::submission_api;
use crate::text;
use crate::wire_laws;
use vstd::prelude::*;

verus! {

/// A failure is answered with its status and its message, what is missing with 404 and its name,
/// and a success with what it holds.
pub proof fn law_the_shapes_of_answers(
    status: u16,
    message: Seq<char>,
    key: Seq<char>,
    value: JsonView,
    other_key: Seq<char>,
    other: JsonView,
)
    ensures
        replies::failed(status, message).status == status,
        replies::failed(status, message).body == JsonView::Object(
            seq![("error"@, JsonView::Text(message))],
        ),
        replies::missing(message).status == 404,
        wire_laws::says(replies::missing(message).body, "error"@, message + " not found"@),
        replies::taken().status == 409,
        replies::done(value).status == 200,
        replies::done(value).body == value,
        api::holding(key, value).status == 200,
        api::holding(key, value).body == JsonView::Object(seq![(key, value)]),
        api::holding_both(key, value, other_key, other).status == 200,
        api::holding_both(key, value, other_key, other).body == JsonView::Object(
            seq![(key, value), (other_key, other)],
        ),
{
    let m = replies::missing(message).body->Object_0;
    assert(m[0].0 == "error"@);
}

/// The probe tells that the store is readable, and how many campaigns there are.
pub proof fn law_the_probe(s: StoreView)
    ensures
        ({
            let n = s.campaigns.len() + s.unread_campaigns.len();
            let reply = api::health_reply(s);
            &&& n <= i64::MAX ==> reply.status == 200 && wire_laws::holds(
                reply.body,
                "ok"@,
                JsonView::Bool(true),
            ) && wire_laws::counts(reply.body, "campaignCount"@, n as i64)
            &&& n > i64::MAX ==> reply.status == 503 && wire_laws::holds(
                reply.body,
                "ok"@,
                JsonView::Bool(false),
            )
        }),
{
    let m = api::health_reply(s).body->Object_0;
    assert(m[0].0 == "ok"@);
    assert(m.len() == 2);
    assert(m[1].0 == "campaignCount"@ || m[1].0 == "error"@);
}

/// A summary, a creator and the overview are answered with what the reports hold of them; what is
/// not there with 404.
pub proof fn law_what_the_reports_are_answered(s: StoreView, id: Seq<char>)
    ensures
        s.summary(id) matches Ok(Some(t)) ==> api::summary_reply(s, id).status == 200
            && api::summary_reply(s, id).body == render::summary_json(t),
        s.summary(id) matches Ok(None) ==> api::summary_reply(s, id).status == 404,
        s.summary(id) is Err ==> api::summary_reply(s, id).status == 500,
        s.overview() matches Ok(o) ==> api::overview_reply(s).status == 200
            && api::overview_reply(s).body == render::overview_json(o),
        s.overview() is Err ==> api::overview_reply(s).status == 500,
        s.read_creator(id) matches Ok(None) ==> api::creator_reply(s, id).status == 404,
        s.read_creator(id) is Err ==> api::creator_reply(s, id).status == 500,
        s.read_creator(id) matches Ok(Some(c)) ==> (s.creator_totals(id) is Ok ==> {
            &&& api::creator_reply(s, id).status == 200
            &&& wire_laws::holds(
                api::creator_reply(s, id).body,
                "creator"@,
                render::creator_json()(c),
            )
            &&& wire_laws::holds(
                api::creator_reply(s, id).body,
                "totals"@,
                render::totals_json(s.creator_totals(id)->Ok_0),
            )
        }) && (s.creator_totals(id) is Err ==> api::creator_reply(s, id).status == 500),
{
    let m = api::creator_reply(s, id).body->Object_0;
    if s.read_creator(id) is Ok && s.read_creator(id)->Ok_0 is Some && s.creator_totals(id) is Ok {
        assert(m[0].0 == "creator"@ && m[1].0 == "totals"@);
    }
}

/// What was written is answered as it stands afterwards: a campaign that was created or updated,
/// the latter with what the update re-prices, and a creator who was added or updated.
pub proof fn law_what_a_record_is_answered(
    e: EngineView,
    campaign: CampaignBodyView,
    creator: CreatorBodyView,
    id: Seq<char>,
    created_at: Seq<char>,
    now: Seq<char>,
    i: int,
)
    requires
        e.store.wf(),
    ensures
        ({
            let (after, reply) = e.created_campaign(campaign, id, created_at, now);
            reply.status == 200 && !e.store.has_campaign(id) ==> reply.body == JsonView::Object(
                seq![("campaign"@, render::campaign_json()(after.store.campaigns.last()))],
            )
        }),
        0 <= i < e.store.campaigns.len() ==> {
            let (after, reply) = e.updated_campaign(e.store.campaigns[i].id, campaign, now);
            reply.status == 200 ==> reply.body == JsonView::Object(
                seq![
                    ("campaign"@, render::campaign_json()(after.store.campaigns[i])),
                    (
                        "repricing"@,
                        api::repricing_json(after.store, e.store.campaigns[i].id),
                    ),
                ],
            )
        },
        ({
            let (after, reply) = e.created_creator(creator, id, created_at, now);
            reply.status == 200 && !e.store.has_creator(id) ==> reply.body == JsonView::Object(
                seq![("creator"@, render::creator_json()(after.store.creators.last()))],
            )
        }),
        0 <= i < e.store.creators.len() ==> {
            let (after, reply) = e.updated_creator(e.store.creators[i].id, creator, now);
            reply.status == 200 ==> reply.body == JsonView::Object(
                seq![("creator"@, render::creator_json()(after.store.creators[i]))],
            )
        },
{
    rows::lemma_position(e.store.campaigns, store::campaign_is(id));
    rows::lemma_position(e.store.creators, store::creator_is(id));
    if 0 <= i < e.store.campaigns.len() {
        price_laws::lemma_a_readable_campaign(e.store, i);
        rows::lemma_position(e.store.campaigns, store::campaign_is(e.store.campaigns[i].id));
    }
    if 0 <= i < e.store.creators.len() {
        post_laws::lemma_a_readable_creator(e.store, i);
        rows::lemma_position(e.store.creators, store::creator_is(e.store.creators[i].id));
    }
}

/// A request on a campaign or a creator whose record cannot be read is answered 500, and changes
/// nothing.
pub proof fn law_what_cannot_be_read_is_answered(
    e: EngineView,
    i: int,
    campaign: CampaignBodyView,
    creator: CreatorBodyView,
    now: Seq<char>,
)
    requires
        e.store.wf(),
    ensures
        0 <= i < e.store.unread_campaigns.len() && inputs::campaign_fault(campaign) is None ==> {
            let id = e.store.unread_campaigns[i];
            let (after, reply) = e.updated_campaign(id, campaign, now);
            after == e && reply.status == 500 && api::summary_reply(e.store, id).status == 500
        },
        0 <= i < e.store.unread_creators.len() && text::trimmed(creator.display_name).len() > 0
            ==> {
            let id = e.store.unread_creators[i].id;
            let (after, reply) = e.updated_creator(id, creator, now);
            after == e && reply.status == 500 && api::creator_reply(e.store, id).status == 500
        },
{
    store_laws::law_rows_are_read_by_their_id(e.store, i, Seq::empty());
}

/// A submission is answered with its record, its newest counters and the payout beside it.
pub proof fn law_what_a_submission_is_answered(s: StoreView, i: int, k: int, id: Seq<char>)
    requires
        s.wf(),
        0 <= i < s.submissions.len(),
    ensures
        ({
            let post = s.submissions[i].record;
            let reply = submission_api::submission_reply(s, post.id);
            let line = submission_api::with_metrics_of(s, post);
            let owed = 0 <= k < s.payouts.len() && s.payouts[k].record.submission_id == Some(
                post.id,
            );
            let unpriced = forall|j: int|
                0 <= j < s.payouts.len() ==> (#[trigger] s.payouts[j]).record.submission_id != Some(
                    post.id,
                );
            &&& reply.status == 200
            &&& wire_laws::holds(reply.body, "submission"@, render::with_metrics_json()(line))
            &&& line.submission == post
            &&& line.latest is None <==> forall|j: int|
                0 <= j < s.snapshots.len() ==> (#[trigger] s.snapshots[j]).submission_id != post.id
            &&& line.latest is Some ==> s.snapshots.contains(line.latest->0)
                && line.latest->0.submission_id == post.id && (0 <= k < s.snapshots.len()
                && s.snapshots[k].submission_id == post.id ==> s.snapshots[k].id
                <= line.latest->0.id)
            &&& owed ==> line.accrued_cents == Some(s.payouts[k].record.amount_cents)
            &&& owed ==> line.payout_status == Some(
                match s.payouts[k].record.status {
                    PayoutStatus::Accrued => "accrued"@,
                    PayoutStatus::Approved => "approved"@,
                    PayoutStatus::Paid => "paid"@,
                },
            )
            &&& owed ==> wire_laws::holds(
                reply.body,
                "payout"@,
                render::payout_json()(s.payouts[k].record),
            )
            &&& unpriced ==> line.accrued_cents is None && line.payout_status is None
                && wire_laws::holds(reply.body, "payout"@, JsonView::Null)
        }),
        (forall|j: int|
            0 <= j < s.submissions.len() ==> (#[trigger] s.submissions[j]).record.id != id)
            ==> submission_api::submission_reply(s, id).status == 404,
{
    let post = s.submissions[i].record;
    rows::lemma_position(s.submissions, store::submission_is(post.id));
    rows::lemma_position(s.submissions, store::submission_is(id));
    rows::lemma_position(s.payouts, store::payout_on(post.id));
    price_laws::lemma_the_latest(s, post.id);
    let m = submission_api::submission_reply(s, post.id).body->Object_0;
    assert(m[0].0 == "submission"@ && m[1].0 == "payout"@);
}

/// A payout is answered with its record and with the campaign, the creator and the submission that
/// it belongs to.
pub proof fn law_what_a_payout_is_answered(
    s: StoreView,
    k: int,
    c: int,
    r: int,
    i: int,
    id: Seq<char>,
)
    requires
        s.wf(),
        0 <= k < s.payouts.len(),
    ensures
        ({
            let p = s.payouts[k].record;
            let reply = payout_api::payout_reply(s, p.id);
            &&& reply.status == 200
            &&& wire_laws::holds(reply.body, "payout"@, render::payout_json()(p))
            &&& 0 <= c < s.campaigns.len() && s.campaigns[c].id == p.campaign_id
                ==> wire_laws::holds(
                reply.body,
                "campaign"@,
                render::campaign_json()(s.campaigns[c]),
            )
            &&& 0 <= r < s.creators.len() && s.creators[r].id == p.creator_id ==> wire_laws::holds(
                reply.body,
                "creator"@,
                render::creator_json()(s.creators[r]),
            )
            &&& 0 <= i < s.submissions.len() && p.submission_id == Some(s.submissions[i].record.id)
                ==> wire_laws::holds(
                reply.body,
                "submission"@,
                render::submission_json(s.submissions[i].record),
            )
            &&& p.submission_id is None ==> wire_laws::holds(
                reply.body,
                "submission"@,
                JsonView::Null,
            )
        }),
        (forall|j: int| 0 <= j < s.payouts.len() ==> (#[trigger] s.payouts[j]).record.id != id)
            ==> payout_api::payout_reply(s, id).status == 404,
{
    let p = s.payouts[k].record;
    rows::lemma_position(s.payouts, store::payout_is(p.id));
    rows::lemma_position(s.payouts, store::payout_is(id));
    let m = payout_api::payout_reply(s, p.id).body->Object_0;
    assert(m[0].0 == "payout"@ && m[1].0 == "campaign"@ && m[2].0 == "creator"@ && m[3].0
        == "submission"@);
    if 0 <= c < s.campaigns.len() && s.campaigns[c].id == p.campaign_id {
        price_laws::lemma_a_readable_campaign(s, c);
    }
    if 0 <= r < s.creators.len() && s.creators[r].id == p.creator_id {
        post_laws::lemma_a_readable_creator(s, r);
    }
    if 0 <= i < s.submissions.len() && p.submission_id == Some(s.submissions[i].record.id) {
        rows::lemma_position(s.submissions, store::submission_is(s.submissions[i].record.id));
    }
}

/// A decision is answered with the post, its payout, and whether anything changed.
pub proof fn law_what_a_decision_is_answered(o: ReviewOutcomeView, e: Seq<char>)
    ensures
        ({
            let reply = submission_api::review_reply(Ok(Some(o)));
            &&& reply.status == 200
            &&& wire_laws::holds(reply.body, "submission"@, render::submission_json(o.submission))
            &&& wire_laws::holds(
                reply.body,
                "payout"@,
                match o.payout {
                    Some(p) => render::payout_json()(p),
                    None => JsonView::Null,
                },
            )
            &&& wire_laws::holds(reply.body, "changed"@, JsonView::Bool(o.changed))
        }),
        submission_api::review_reply(Ok(None)).status == 404,
        submission_api::review_reply(Err(e)).status == 409,
        wire_laws::says(submission_api::review_reply(Err(e)).body, "error"@, e),
{
    let m = submission_api::review_reply(Ok(Some(o))).body->Object_0;
    assert(m[0].0 == "submission"@ && m[1].0 == "payout"@ && m[2].0 == "changed"@);
    let n = submission_api::review_reply(Err(e)).body->Object_0;
    assert(n[0].0 == "error"@);
}

/// A move of a payout is answered with the row as it stands afterwards, and whether it moved.
pub proof fn law_what_a_move_is_answered(e: EngineView, k: int, now: Seq<char>)
    requires
        e.store.wf(),
        0 <= k < e.store.payouts.len(),
    ensures
        ({
            let was = e.store.payouts[k].record;
            let (a, approved) = e.approved_payout(was.id, now);
            let (b, paid) = e.paid_payout(was.id, now);
            &&& was.status != PayoutStatus::Paid ==> wire_laws::holds(
                approved.body,
                "payout"@,
                render::payout_json()(a.store.payouts[k].record),
            ) && wire_laws::holds(
                approved.body,
                "changed"@,
                JsonView::Bool(was.status == PayoutStatus::Accrued),
            )
            &&& was.status != PayoutStatus::Accrued ==> wire_laws::holds(
                paid.body,
                "payout"@,
                render::payout_json()(b.store.payouts[k].record),
            ) && wire_laws::holds(
                paid.body,
                "changed"@,
                JsonView::Bool(was.status == PayoutStatus::Approved),
            )
        }),
{
    let was = e.store.payouts[k].record;
    rows::lemma_position(e.store.payouts, store::payout_is(was.id));
    crate::laws::lemma_payout_is_moved(e.store, was.id, PayoutStatus::Approved, now);
    crate::laws::lemma_payout_is_moved(e.store, was.id, PayoutStatus::Paid, now);
    let m = e.approved_payout(was.id, now).1.body->Object_0;
    if was.status != PayoutStatus::Paid {
        assert(m[0].0 == "payout"@ && m[1].0 == "changed"@);
    }
    let n = e.paid_payout(was.id, now).1.body->Object_0;
    if was.status != PayoutStatus::Accrued {
        assert(n[0].0 == "payout"@ && n[1].0 == "changed"@);
    }
}

/// Counters that were recorded are answered with the snapshot and the payout, and a write of a post
/// with the post as it was sent.
pub proof fn law_what_a_write_is_answered(
    snapshot: SnapshotView,
    payout: Option<PayoutView>,
    post: SubmissionView,
    e: Seq<char>,
)
    ensures
        ({
            let reply = submission_api::recorded_reply(Ok(Some((snapshot, payout))));
            &&& reply.status == 200
            &&& wire_laws::holds(reply.body, "snapshot"@, render::snapshot_json()(snapshot))
            &&& wire_laws::holds(
                reply.body,
                "payout"@,
                match payout {
                    Some(p) => render::payout_json()(p),
                    None => JsonView::Null,
                },
            )
        }),
        submission_api::recorded_reply(Ok(None)).status == 404,
        submission_api::recorded_reply(Err(e)).status == 500,
        submission_api::written_reply(WriteOutcome::Written, post).status == 200,
        wire_laws::holds(
            submission_api::written_reply(WriteOutcome::Written, post).body,
            "submission"@,
            render::submission_json(post),
        ),
        submission_api::written_reply(WriteOutcome::DuplicatePost, post).status == 409,
        submission_api::written_reply(WriteOutcome::NotFound, post).status == 404,
{
    let m = submission_api::recorded_reply(Ok(Some((snapshot, payout)))).body->Object_0;
    assert(m[0].0 == "snapshot"@ && m[1].0 == "payout"@);
    let n = submission_api::written_reply(WriteOutcome::Written, post).body->Object_0;
    assert(n[0].0 == "submission"@);
}

/// A deletion is answered with a success where something was deleted, and with 404 where there was
/// nothing; one that is refused says what stands in its way.
pub proof fn law_what_a_deletion_is_answered(what: Seq<char>, n: i64, payout: Seq<char>)
    ensures
        api::deleted_reply(true, what).status == 200,
        wire_laws::holds(api::deleted_reply(true, what).body, "ok"@, JsonView::Bool(true)),
        api::deleted_reply(false, what).status == 404,
        wire_laws::says(api::deleted_reply(false, what).body, "error"@, what + " not found"@),
        api::still_has_reply(n).status == 409,
        wire_laws::counts(api::still_has_reply(n).body, "submissions"@, n),
        submission_api::already_paid_reply(payout).status == 409,
        wire_laws::says(submission_api::already_paid_reply(payout).body, "payout_id"@, payout),
{
    let a = api::deleted_reply(true, what).body->Object_0;
    assert(a[0].0 == "ok"@);
    let b = api::deleted_reply(false, what).body->Object_0;
    assert(b[0].0 == "error"@);
    let c = api::still_has_reply(n).body->Object_0;
    assert(c[1].0 == "submissions"@);
    let d = submission_api::already_paid_reply(payout).body->Object_0;
    assert(d[1].0 == "payout_id"@);
}

} // verus!
