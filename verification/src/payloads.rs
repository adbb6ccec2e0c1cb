//! The payloads of the events that the app raises.
use crate::engine::{HookEvent, HookEventView};
use crate::json;
use crate::json::{object, opt_text, put, put_text, Json, JsonView};
use crate::records::{clone_opt, MetricSnapshot, MetricSource, SnapshotView};
use vstd::prelude::*;

verus! {

/// The counters of a snapshot.
pub open spec fn counters(m: SnapshotView) -> JsonView {
    JsonView::Object(
        seq![
            ("views"@, JsonView::Int(m.views)),
            ("likes"@, JsonView::Int(m.likes)),
            ("comments"@, JsonView::Int(m.comments)),
            ("shares"@, JsonView::Int(m.shares)),
            ("saves"@, JsonView::Int(m.saves)),
        ],
    )
}

/// How far the counters moved since the previous snapshot; all the way where there was none.
pub open spec fn moved(m: SnapshotView, previous: Option<SnapshotView>) -> JsonView {
    let (v, l, c) = match previous {
        Some(p) => (p.views, p.likes, p.comments),
        None => (0i64, 0i64, 0i64),
    };
    JsonView::Object(
        seq![
            ("views"@, json::integer(m.views - v)),
            ("likes"@, json::integer(m.likes - l)),
            ("comments"@, json::integer(m.comments - c)),
        ],
    )
}

impl HookEventView {
    /// What the event carries.
    pub open spec fn payload(self) -> Seq<(Seq<char>, JsonView)> {
        match self {
            HookEventView::SubmissionReceived { submission: s } => seq![
                ("submission_id"@, JsonView::Text(s.id)),
                ("campaign_id"@, JsonView::Text(s.campaign_id)),
                ("creator_id"@, JsonView::Text(s.creator_id)),
                ("platform"@, JsonView::Text(s.platform)),
                ("post_url"@, JsonView::Text(s.post_url)),
                ("external_post_id"@, JsonView::Text(s.external_post_id)),
                ("status"@, JsonView::Text(s.status.text())),
                ("submitted_at"@, JsonView::Text(s.submitted_at)),
            ],
            HookEventView::SubmissionApproved { submission: s, payout, reviewed_at } => seq![
                ("submission_id"@, JsonView::Text(s.id)),
                ("campaign_id"@, JsonView::Text(s.campaign_id)),
                ("creator_id"@, JsonView::Text(s.creator_id)),
                ("platform"@, JsonView::Text(s.platform)),
                ("post_url"@, JsonView::Text(s.post_url)),
                (
                    "payout_id"@,
                    match payout {
                        Some(p) => JsonView::Text(p.id),
                        None => JsonView::Null,
                    },
                ),
                (
                    "amount_cents"@,
                    JsonView::Int(
                        match payout {
                            Some(p) => p.amount_cents,
                            None => 0,
                        },
                    ),
                ),
                ("reviewed_at"@, JsonView::Text(reviewed_at)),
            ],
            HookEventView::SubmissionRejected { submission: s, reason, reviewed_at } => seq![
                ("submission_id"@, JsonView::Text(s.id)),
                ("campaign_id"@, JsonView::Text(s.campaign_id)),
                ("creator_id"@, JsonView::Text(s.creator_id)),
                ("platform"@, JsonView::Text(s.platform)),
                ("reason"@, json::text_or_null(reason)),
                ("reviewed_at"@, JsonView::Text(reviewed_at)),
            ],
            HookEventView::MetricsRefreshed { submission: s, snapshot, previous } => seq![
                ("submission_id"@, JsonView::Text(s.id)),
                ("campaign_id"@, JsonView::Text(s.campaign_id)),
                ("platform"@, JsonView::Text(s.platform)),
                ("source"@, JsonView::Text(MetricSource::Composio.text())),
                ("captured_at"@, JsonView::Text(snapshot.captured_at)),
                ("metrics"@, counters(snapshot)),
                ("delta"@, moved(snapshot, previous)),
            ],
            HookEventView::PayoutAccrued { accrued: p, previous_cents } => seq![
                ("payout_id"@, JsonView::Text(p.id)),
                ("campaign_id"@, JsonView::Text(p.campaign_id)),
                ("creator_id"@, JsonView::Text(p.creator_id)),
                ("submission_id"@, json::text_or_null(p.submission_id)),
                ("amount_cents"@, JsonView::Int(p.amount_cents)),
                ("previous_cents"@, JsonView::Int(previous_cents)),
                ("status"@, JsonView::Text(p.status.text())),
                ("reason"@, JsonView::Text(p.reason)),
            ],
            HookEventView::BudgetReached {
                campaign_id,
                brand,
                budget_cents,
                accrued_cents,
                reached_at,
            } => seq![
                ("campaign_id"@, JsonView::Text(campaign_id)),
                ("brand"@, JsonView::Text(brand)),
                ("budget_cents"@, JsonView::Int(budget_cents)),
                ("accrued_cents"@, JsonView::Int(accrued_cents)),
                ("reached_at"@, JsonView::Text(reached_at)),
            ],
        }
    }
}

fn counters_json(s: &MetricSnapshot) -> (r: Json)
    ensures
        r.deep_view() == counters(s.deep_view()),
{
    let mut m: Vec<(String, Json)> = Vec::new();
    put(&mut m, "views", Json::Int(s.views));
    put(&mut m, "likes", Json::Int(s.likes));
    put(&mut m, "comments", Json::Int(s.comments));
    put(&mut m, "shares", Json::Int(s.shares));
    put(&mut m, "saves", Json::Int(s.saves));
    assert(json::members(m@) =~= counters(s.deep_view())->Object_0);
    object(m)
}

fn moved_json(s: &MetricSnapshot, previous: &Option<MetricSnapshot>) -> (r: Json)
    ensures
        r.deep_view() == moved(s.deep_view(), previous.deep_view()),
{
    let (v, l, c): (i64, i64, i64) = match previous {
        Some(p) => (p.views, p.likes, p.comments),
        None => (0, 0, 0),
    };
    let mut m: Vec<(String, Json)> = Vec::new();
    put(&mut m, "views", Json::number(s.views as i128 - v as i128));
    put(&mut m, "likes", Json::number(s.likes as i128 - l as i128));
    put(&mut m, "comments", Json::number(s.comments as i128 - c as i128));
    assert(json::members(m@) =~= moved(s.deep_view(), previous.deep_view())->Object_0);
    object(m)
}

impl HookEvent {
    /// What the event carries, as it is sent.
    pub fn payload(&self) -> (r: Json)
        ensures
            r.deep_view() == JsonView::Object(self.deep_view().payload()),
    {
        let mut m: Vec<(String, Json)> = Vec::new();
        match self {
            HookEvent::SubmissionReceived { submission: s } => {
                put_text(&mut m, "submission_id", s.id.as_str());
                put_text(&mut m, "campaign_id", s.campaign_id.as_str());
                put_text(&mut m, "creator_id", s.creator_id.as_str());
                put_text(&mut m, "platform", s.platform.as_str());
                put_text(&mut m, "post_url", s.post_url.as_str());
                put_text(&mut m, "external_post_id", s.external_post_id.as_str());
                put_text(&mut m, "status", s.status.as_str());
                put_text(&mut m, "submitted_at", s.submitted_at.as_str());
            },
            HookEvent::SubmissionApproved { submission: s, payout, reviewed_at } => {
                put_text(&mut m, "submission_id", s.id.as_str());
                put_text(&mut m, "campaign_id", s.campaign_id.as_str());
                put_text(&mut m, "creator_id", s.creator_id.as_str());
                put_text(&mut m, "platform", s.platform.as_str());
                put_text(&mut m, "post_url", s.post_url.as_str());
                match payout {
                    Some(p) => {
                        put_text(&mut m, "payout_id", p.id.as_str());
                        put(&mut m, "amount_cents", Json::Int(p.amount_cents));
                    },
                    None => {
                        put(&mut m, "payout_id", Json::Null);
                        put(&mut m, "amount_cents", Json::Int(0));
                    },
                }
                put_text(&mut m, "reviewed_at", reviewed_at.as_str());
            },
            HookEvent::SubmissionRejected { submission: s, reason, reviewed_at } => {
                put_text(&mut m, "submission_id", s.id.as_str());
                put_text(&mut m, "campaign_id", s.campaign_id.as_str());
                put_text(&mut m, "creator_id", s.creator_id.as_str());
                put_text(&mut m, "platform", s.platform.as_str());
                put(&mut m, "reason", opt_text(clone_opt(reason)));
                put_text(&mut m, "reviewed_at", reviewed_at.as_str());
            },
            HookEvent::MetricsRefreshed { submission: s, snapshot, previous } => {
                put_text(&mut m, "submission_id", s.id.as_str());
                put_text(&mut m, "campaign_id", s.campaign_id.as_str());
                put_text(&mut m, "platform", s.platform.as_str());
                put_text(&mut m, "source", MetricSource::Composio.as_str());
                put_text(&mut m, "captured_at", snapshot.captured_at.as_str());
                put(&mut m, "metrics", counters_json(snapshot));
                put(&mut m, "delta", moved_json(snapshot, previous));
            },
            HookEvent::PayoutAccrued { accrued: p, previous_cents } => {
                put_text(&mut m, "payout_id", p.id.as_str());
                put_text(&mut m, "campaign_id", p.campaign_id.as_str());
                put_text(&mut m, "creator_id", p.creator_id.as_str());
                put(&mut m, "submission_id", opt_text(clone_opt(&p.submission_id)));
                put(&mut m, "amount_cents", Json::Int(p.amount_cents));
                put(&mut m, "previous_cents", Json::Int(*previous_cents));
                put_text(&mut m, "status", p.status.as_str());
                put_text(&mut m, "reason", p.reason.as_str());
            },
            HookEvent::BudgetReached {
                campaign_id,
                brand,
                budget_cents,
                accrued_cents,
                reached_at,
            } => {
                put_text(&mut m, "campaign_id", campaign_id.as_str());
                put_text(&mut m, "brand", brand.as_str());
                put(&mut m, "budget_cents", Json::Int(*budget_cents));
                put(&mut m, "accrued_cents", Json::Int(*accrued_cents));
                put_text(&mut m, "reached_at", reached_at.as_str());
            },
        }
        assert(json::members(m@) =~= self.deep_view().payload());
        object(m)
    }
}

} // verus!
