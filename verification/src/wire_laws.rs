//! What is sent of the records, the reports and the events: every value under its own name.
use crate::composio::SourceView;
use crate::engine;
use crate::engine::{HookEventView, RefreshErrorView, RefreshOutcomeView, RefreshStatus, ReportView};
use crate::json;
use crate::json::JsonView;
use crate::lists::WithMetricsView;
use crate::payloads;
use crate::records::{
    BonusTier, CampaignStatus, CampaignView, CreatorView, MetricSource, PayoutRule, PayoutStatus,
    PayoutView, SnapshotView, SubmissionStatus, SubmissionView,
};
use crate::render;
use crate::reports::{BoardView, CampaignSummary, CreatorTotals, SubmissionCounts, UgcOverview};
use crate::submission_api;
use crate::text;
use vstd::prelude::*;

verus! {

/// The object holds the member.
pub open spec fn holds(v: JsonView, key: Seq<char>, value: JsonView) -> bool {
    v is Object && v->Object_0.contains((key, value))
}

/// The object holds the text under the name.
pub open spec fn says(v: JsonView, key: Seq<char>, value: Seq<char>) -> bool {
    holds(v, key, JsonView::Text(value))
}

/// The object holds the number under the name.
pub open spec fn counts(v: JsonView, key: Seq<char>, value: i64) -> bool {
    holds(v, key, JsonView::Int(value))
}

/// The object holds the text under the name, where there is one.
pub open spec fn may_say(v: JsonView, key: Seq<char>, value: Option<Seq<char>>) -> bool {
    value is Some ==> says(v, key, value->0)
}

/// The object holds the text under the name, or null where there is none.
pub open spec fn says_or_null(v: JsonView, key: Seq<char>, value: Option<Seq<char>>) -> bool {
    holds(
        v,
        key,
        match value {
            Some(t) => JsonView::Text(t),
            None => JsonView::Null,
        },
    )
}

/// The object holds the number under the name, or null where there is none.
pub open spec fn counts_or_null(v: JsonView, key: Seq<char>, value: Option<i64>) -> bool {
    holds(
        v,
        key,
        match value {
            Some(n) => JsonView::Int(n),
            None => JsonView::Null,
        },
    )
}

/// How many members stand for an optional one.
pub open spec fn one_of<T>(v: Option<T>) -> int {
    if v is Some {
        1
    } else {
        0
    }
}

/// A member of an object is the first one under its name; there is none where no member has the
/// name, and none of what is no object.
pub proof fn law_a_member_is_found(
    m: Seq<(Seq<char>, JsonView)>,
    v: JsonView,
    key: Seq<char>,
    i: int,
)
    ensures
        0 <= i < m.len() && m[i].0 == key && (forall|k: int|
            0 <= k < i ==> (#[trigger] m[k]).0 != key) ==> JsonView::Object(m).get(key) == Some(
            m[i].1,
        ),
        (forall|k: int| 0 <= k < m.len() ==> (#[trigger] m[k]).0 != key) ==> JsonView::Object(
            m,
        ).get(key) is None,
        !(v is Object) ==> v.get(key) is None,
{
    if 0 <= i < m.len() && m[i].0 == key && forall|k: int|
        0 <= k < i ==> (#[trigger] m[k]).0 != key {
        json::lemma_member(m, key, i);
    }
}

/// To set a member puts the value where the name stands, or behind the others.
pub proof fn law_a_member_is_set(
    m: Seq<(Seq<char>, JsonView)>,
    key: Seq<char>,
    value: JsonView,
    i: int,
)
    ensures
        0 <= i < m.len() && m[i].0 == key && (forall|k: int|
            0 <= k < i ==> (#[trigger] m[k]).0 != key) ==> json::with_member(m, key, value)
            == m.update(i, (key, value)),
        (forall|k: int| 0 <= k < m.len() ==> (#[trigger] m[k]).0 != key) ==> json::with_member(
            m,
            key,
            value,
        ) == m.push((key, value)),
{
    if 0 <= i < m.len() && m[i].0 == key && forall|k: int|
        0 <= k < i ==> (#[trigger] m[k]).0 != key {
        assert(json::member_at(m, key, i));
    }
}

/// A number is sent as it is.
pub proof fn law_numbers_are_sent_as_they_are(n: int)
    ensures
        i64::MIN <= n <= i64::MAX ==> json::integer(n) == JsonView::Int(n as i64),
        i64::MAX < n <= i128::MAX ==> json::integer(n) == JsonView::Big(n as i128),
        i128::MIN <= n < i64::MIN ==> json::integer(n) == JsonView::Big(n as i128),
{
}

// ---- records ---------------------------------------------------------------------------------

/// A campaign is sent with every value under its own name; an open start or end is left out.
pub proof fn law_what_is_sent_of_a_campaign(c: CampaignView)
    ensures
        ({
            let sent = render::campaign_json()(c);
            &&& sent is Object
            &&& sent->Object_0.len() == 13 + one_of(c.starts_at) + one_of(c.ends_at)
            &&& says(sent, "id"@, c.id)
            &&& says(sent, "brand"@, c.brand)
            &&& says(sent, "brief"@, c.brief)
            &&& holds(sent, "status"@, JsonView::Text(
                match c.status {
                    CampaignStatus::Draft => "draft"@,
                    CampaignStatus::Active => "active"@,
                    CampaignStatus::Paused => "paused"@,
                    CampaignStatus::Ended => "ended"@,
                },
            ))
            &&& holds(
                sent,
                "platforms"@,
                JsonView::Array(c.platforms.map_values(|p: Seq<char>| JsonView::Text(p))),
            )
            &&& holds(sent, "required_hashtags"@, JsonView::Array(
                c.required_hashtags.map_values(|p: Seq<char>| JsonView::Text(p)),
            ))
            &&& holds(sent, "required_mentions"@, JsonView::Array(
                c.required_mentions.map_values(|p: Seq<char>| JsonView::Text(p)),
            ))
            &&& may_say(sent, "starts_at"@, c.starts_at)
            &&& may_say(sent, "ends_at"@, c.ends_at)
            &&& counts(sent, "budget_cents"@, c.budget_cents)
            &&& holds(sent, "payout"@, render::rule_json(c.payout))
            &&& holds(
                sent,
                "bonus_tiers"@,
                JsonView::Array(c.bonus_tiers.map_values(render::tier_json())),
            )
            &&& counts(sent, "max_payout_per_creator_cents"@, c.max_payout_per_creator_cents)
            &&& says(sent, "created_at"@, c.created_at)
            &&& says(sent, "updated_at"@, c.updated_at)
        }),
{
    let f = |p: Seq<char>| JsonView::Text(p);
    assert(json::texts(c.platforms)->Array_0 =~= c.platforms.map_values(f));
    assert(json::texts(c.required_hashtags)->Array_0 =~= c.required_hashtags.map_values(f));
    assert(json::texts(c.required_mentions)->Array_0 =~= c.required_mentions.map_values(f));
    let m = render::campaign_json()(c)->Object_0;
    assert(m[0].0 == "id"@);
    assert(m[1].0 == "brand"@);
    assert(m[2].0 == "brief"@);
    assert(m[3].0 == "status"@);
    assert(m[4].0 == "platforms"@);
    assert(m[5].0 == "required_hashtags"@);
    assert(m[6].0 == "required_mentions"@);
    if c.starts_at is Some {
        assert(m[7].0 == "starts_at"@);
    }
    if c.ends_at is Some {
        assert(m[7 + one_of(c.starts_at)].0 == "ends_at"@);
    }
    assert(m[7 + one_of(c.starts_at) + one_of(c.ends_at)].0 == "budget_cents"@);
    assert(m[8 + one_of(c.starts_at) + one_of(c.ends_at)].0 == "payout"@);
    assert(m[9 + one_of(c.starts_at) + one_of(c.ends_at)].0 == "bonus_tiers"@);
    assert(m[10 + one_of(c.starts_at) + one_of(c.ends_at)].0 == "max_payout_per_creator_cents"@);
    assert(m[11 + one_of(c.starts_at) + one_of(c.ends_at)].0 == "created_at"@);
    assert(m[12 + one_of(c.starts_at) + one_of(c.ends_at)].0 == "updated_at"@);
}

/// A payout rule is sent with its kind and its price, and a bonus tier with its threshold and its
/// bonus.
pub proof fn law_what_is_sent_of_a_price(n: i64, t: BonusTier)
    ensures
        says(render::rule_json(PayoutRule::Cpm { cpm_cents: n }), "type"@, "cpm"@),
        counts(render::rule_json(PayoutRule::Cpm { cpm_cents: n }), "cpm_cents"@, n),
        says(render::rule_json(PayoutRule::Flat { flat_cents: n }), "type"@, "flat"@),
        counts(render::rule_json(PayoutRule::Flat { flat_cents: n }), "flat_cents"@, n),
        counts(render::tier_json()(t), "views"@, t.views),
        counts(render::tier_json()(t), "bonus_cents"@, t.bonus_cents),
{
    let a = render::rule_json(PayoutRule::Cpm { cpm_cents: n })->Object_0;
    assert(a[0].0 == "type"@ && a[1].0 == "cpm_cents"@);
    let b = render::rule_json(PayoutRule::Flat { flat_cents: n })->Object_0;
    assert(b[0].0 == "type"@ && b[1].0 == "flat_cents"@);
    let m = render::tier_json()(t)->Object_0;
    assert(m[0].0 == "views"@ && m[1].0 == "bonus_cents"@);
}

/// A creator is sent with every value under its own name; what is not known is left out.
pub proof fn law_what_is_sent_of_a_creator(c: CreatorView)
    ensures
        ({
            let sent = render::creator_json()(c);
            &&& sent is Object
            &&& sent->Object_0.len() == 5 + one_of(c.contact_email) + one_of(c.payout_handle)
                + one_of(c.notes)
            &&& says(sent, "id"@, c.id)
            &&& says(sent, "display_name"@, c.display_name)
            &&& holds(sent, "handles"@, JsonView::Object(
                c.handles.map_values(|p: (Seq<char>, Seq<char>)| (p.0, JsonView::Text(p.1))),
            ))
            &&& may_say(sent, "contact_email"@, c.contact_email)
            &&& may_say(sent, "payout_handle"@, c.payout_handle)
            &&& may_say(sent, "notes"@, c.notes)
            &&& says(sent, "created_at"@, c.created_at)
            &&& says(sent, "updated_at"@, c.updated_at)
        }),
{
    let f = |p: (Seq<char>, Seq<char>)| (p.0, JsonView::Text(p.1));
    assert(render::handles_json(c.handles)->Object_0 =~= c.handles.map_values(f));
    let m = render::creator_json()(c)->Object_0;
    assert(m[0].0 == "id"@);
    assert(m[1].0 == "display_name"@);
    assert(m[2].0 == "handles"@);
    if c.contact_email is Some {
        assert(m[3].0 == "contact_email"@);
    }
    if c.payout_handle is Some {
        assert(m[3 + one_of(c.contact_email)].0 == "payout_handle"@);
    }
    if c.notes is Some {
        assert(m[3 + one_of(c.contact_email) + one_of(c.payout_handle)].0 == "notes"@);
    }
    let at: int = 3 + one_of(c.contact_email) + one_of(c.payout_handle) + one_of(c.notes);
    assert(m[at].0 == "created_at"@);
    let at: int = 4 + one_of(c.contact_email) + one_of(c.payout_handle) + one_of(c.notes);
    assert(m[at].0 == "updated_at"@);
}

/// A submission is sent with every value under its own name; a stamp or reason it does not have is
/// left out.
pub proof fn law_what_is_sent_of_a_submission(s: SubmissionView)
    ensures
        ({
            let sent = render::submission_json(s);
            &&& sent is Object
            &&& sent->Object_0.len() == 10 + one_of(s.reviewed_at) + one_of(s.rejection_reason)
            &&& says(sent, "id"@, s.id)
            &&& says(sent, "campaign_id"@, s.campaign_id)
            &&& says(sent, "creator_id"@, s.creator_id)
            &&& says(sent, "platform"@, s.platform)
            &&& says(sent, "post_url"@, s.post_url)
            &&& says(sent, "external_post_id"@, s.external_post_id)
            &&& holds(sent, "status"@, JsonView::Text(
                match s.status {
                    SubmissionStatus::Pending => "pending"@,
                    SubmissionStatus::Approved => "approved"@,
                    SubmissionStatus::Rejected => "rejected"@,
                    SubmissionStatus::Paid => "paid"@,
                },
            ))
            &&& says(sent, "submitted_at"@, s.submitted_at)
            &&& may_say(sent, "reviewed_at"@, s.reviewed_at)
            &&& may_say(sent, "rejection_reason"@, s.rejection_reason)
            &&& says(sent, "created_at"@, s.created_at)
            &&& says(sent, "updated_at"@, s.updated_at)
        }),
{
    let m = render::submission_json(s)->Object_0;
    assert(m[0].0 == "id"@);
    assert(m[1].0 == "campaign_id"@);
    assert(m[2].0 == "creator_id"@);
    assert(m[3].0 == "platform"@);
    assert(m[4].0 == "post_url"@);
    assert(m[5].0 == "external_post_id"@);
    assert(m[6].0 == "status"@);
    assert(m[7].0 == "submitted_at"@);
    if s.reviewed_at is Some {
        assert(m[8].0 == "reviewed_at"@);
    }
    if s.rejection_reason is Some {
        assert(m[8 + one_of(s.reviewed_at)].0 == "rejection_reason"@);
    }
    assert(m[8 + one_of(s.reviewed_at) + one_of(s.rejection_reason)].0 == "created_at"@);
    assert(m[9 + one_of(s.reviewed_at) + one_of(s.rejection_reason)].0 == "updated_at"@);
}

/// A submission in a list is sent with its own values, its newest counters where they were read,
/// and its money, which is null where nothing accrued.
pub proof fn law_what_is_sent_of_a_line(l: WithMetricsView)
    ensures
        ({
            let sent = render::with_metrics_json()(l);
            &&& sent is Object
            &&& sent->Object_0.len() == 12 + one_of(l.submission.reviewed_at)
                + one_of(l.submission.rejection_reason) + one_of(l.latest)
            &&& says(sent, "id"@, l.submission.id)
            &&& says(sent, "campaign_id"@, l.submission.campaign_id)
            &&& says(sent, "creator_id"@, l.submission.creator_id)
            &&& says(sent, "platform"@, l.submission.platform)
            &&& says(sent, "post_url"@, l.submission.post_url)
            &&& says(sent, "external_post_id"@, l.submission.external_post_id)
            &&& holds(sent, "status"@, JsonView::Text(
                match l.submission.status {
                    SubmissionStatus::Pending => "pending"@,
                    SubmissionStatus::Approved => "approved"@,
                    SubmissionStatus::Rejected => "rejected"@,
                    SubmissionStatus::Paid => "paid"@,
                },
            ))
            &&& says(sent, "submitted_at"@, l.submission.submitted_at)
            &&& may_say(sent, "reviewed_at"@, l.submission.reviewed_at)
            &&& may_say(sent, "rejection_reason"@, l.submission.rejection_reason)
            &&& says(sent, "created_at"@, l.submission.created_at)
            &&& says(sent, "updated_at"@, l.submission.updated_at)
            &&& l.latest matches Some(m) ==> holds(sent, "latest"@, render::snapshot_json()(m))
            &&& counts_or_null(sent, "accrued_cents"@, l.accrued_cents)
            &&& says_or_null(sent, "payout_status"@, l.payout_status)
        }),
{
    let m = render::with_metrics_json()(l)->Object_0;
    assert(m[0].0 == "id"@);
    assert(m[1].0 == "campaign_id"@);
    assert(m[2].0 == "creator_id"@);
    assert(m[3].0 == "platform"@);
    assert(m[4].0 == "post_url"@);
    assert(m[5].0 == "external_post_id"@);
    assert(m[6].0 == "status"@);
    assert(m[7].0 == "submitted_at"@);
    if l.submission.reviewed_at is Some {
        assert(m[8].0 == "reviewed_at"@);
    }
    if l.submission.rejection_reason is Some {
        assert(m[8 + one_of(l.submission.reviewed_at)].0 == "rejection_reason"@);
    }
    let at: int = 8 + one_of(l.submission.reviewed_at) + one_of(l.submission.rejection_reason);
    assert(m[at].0 == "created_at"@);
    let at: int = 9 + one_of(l.submission.reviewed_at) + one_of(l.submission.rejection_reason);
    assert(m[at].0 == "updated_at"@);
    if l.latest is Some {
        let at: int = 10 + one_of(l.submission.reviewed_at) + one_of(l.submission.rejection_reason);
        assert(m[at].0 == "latest"@);
    }
    let at: int = 10 + one_of(l.submission.reviewed_at) + one_of(l.submission.rejection_reason)
        + one_of(l.latest);
    assert(m[at].0 == "accrued_cents"@);
    let at: int = 11 + one_of(l.submission.reviewed_at) + one_of(l.submission.rejection_reason)
        + one_of(l.latest);
    assert(m[at].0 == "payout_status"@);
}

/// A snapshot is sent with every counter under its own name.
pub proof fn law_what_is_sent_of_a_snapshot(s: SnapshotView)
    ensures
        ({
            let sent = render::snapshot_json()(s);
            &&& sent is Object && sent->Object_0.len() == 9
            &&& counts(sent, "id"@, s.id)
            &&& says(sent, "submission_id"@, s.submission_id)
            &&& says(sent, "captured_at"@, s.captured_at)
            &&& counts(sent, "views"@, s.views)
            &&& counts(sent, "likes"@, s.likes)
            &&& counts(sent, "comments"@, s.comments)
            &&& counts(sent, "shares"@, s.shares)
            &&& counts(sent, "saves"@, s.saves)
            &&& holds(sent, "source"@, JsonView::Text(
                match s.source {
                    MetricSource::Manual => "manual"@,
                    MetricSource::Composio => "composio"@,
                },
            ))
        }),
{
    let m = render::snapshot_json()(s)->Object_0;
    assert(m[0].0 == "id"@);
    assert(m[1].0 == "submission_id"@);
    assert(m[2].0 == "captured_at"@);
    assert(m[3].0 == "views"@);
    assert(m[4].0 == "likes"@);
    assert(m[5].0 == "comments"@);
    assert(m[6].0 == "shares"@);
    assert(m[7].0 == "saves"@);
    assert(m[8].0 == "source"@);
}

/// A payout is sent with every value under its own name; a submission or stamp it does not have is
/// left out.
pub proof fn law_what_is_sent_of_a_payout(p: PayoutView)
    ensures
        ({
            let sent = render::payout_json()(p);
            &&& sent is Object
            &&& sent->Object_0.len() == 9 + one_of(p.submission_id) + one_of(p.approved_at)
                + one_of(p.paid_at)
            &&& says(sent, "id"@, p.id)
            &&& says(sent, "campaign_id"@, p.campaign_id)
            &&& says(sent, "creator_id"@, p.creator_id)
            &&& may_say(sent, "submission_id"@, p.submission_id)
            &&& counts(sent, "amount_cents"@, p.amount_cents)
            &&& holds(sent, "status"@, JsonView::Text(
                match p.status {
                    PayoutStatus::Accrued => "accrued"@,
                    PayoutStatus::Approved => "approved"@,
                    PayoutStatus::Paid => "paid"@,
                },
            ))
            &&& says(sent, "reason"@, p.reason)
            &&& says(sent, "accrued_at"@, p.accrued_at)
            &&& may_say(sent, "approved_at"@, p.approved_at)
            &&& may_say(sent, "paid_at"@, p.paid_at)
            &&& says(sent, "created_at"@, p.created_at)
            &&& says(sent, "updated_at"@, p.updated_at)
        }),
{
    let m = render::payout_json()(p)->Object_0;
    assert(m[0].0 == "id"@);
    assert(m[1].0 == "campaign_id"@);
    assert(m[2].0 == "creator_id"@);
    if p.submission_id is Some {
        assert(m[3].0 == "submission_id"@);
    }
    assert(m[3 + one_of(p.submission_id)].0 == "amount_cents"@);
    assert(m[4 + one_of(p.submission_id)].0 == "status"@);
    assert(m[5 + one_of(p.submission_id)].0 == "reason"@);
    assert(m[6 + one_of(p.submission_id)].0 == "accrued_at"@);
    if p.approved_at is Some {
        assert(m[7 + one_of(p.submission_id)].0 == "approved_at"@);
    }
    if p.paid_at is Some {
        assert(m[7 + one_of(p.submission_id) + one_of(p.approved_at)].0 == "paid_at"@);
    }
    let at: int = 7 + one_of(p.submission_id) + one_of(p.approved_at) + one_of(p.paid_at);
    assert(m[at].0 == "created_at"@);
    let at: int = 8 + one_of(p.submission_id) + one_of(p.approved_at) + one_of(p.paid_at);
    assert(m[at].0 == "updated_at"@);
}

// ---- reports ---------------------------------------------------------------------------------

/// The counts by state are sent under the names of the states.
pub proof fn law_what_is_sent_of_the_counts(n: SubmissionCounts)
    ensures
        ({
            let sent = render::counts_json(n);
            &&& sent is Object && sent->Object_0.len() == 4
            &&& counts(sent, "pending"@, n.pending)
            &&& counts(sent, "approved"@, n.approved)
            &&& counts(sent, "rejected"@, n.rejected)
            &&& counts(sent, "paid"@, n.paid)
        }),
{
    let m = render::counts_json(n)->Object_0;
    assert(m[0].0 == "pending"@);
    assert(m[1].0 == "approved"@);
    assert(m[2].0 == "rejected"@);
    assert(m[3].0 == "paid"@);
}

/// A summary is sent with every number under its own name, and null where no budget is set.
pub proof fn law_what_is_sent_of_a_summary(s: CampaignSummary)
    ensures
        ({
            let sent = render::summary_json(s);
            &&& sent is Object && sent->Object_0.len() == 11
            &&& counts(sent, "budget_cents"@, s.budget_cents)
            &&& counts(sent, "accrued_cents"@, s.accrued_cents)
            &&& counts(sent, "approved_cents"@, s.approved_cents)
            &&& counts(sent, "paid_cents"@, s.paid_cents)
            &&& counts(sent, "committed_cents"@, s.committed_cents)
            &&& counts_or_null(sent, "remaining_cents"@, s.remaining_cents)
            &&& counts(sent, "total_views"@, s.total_views)
            &&& counts(sent, "total_likes"@, s.total_likes)
            &&& counts(sent, "total_comments"@, s.total_comments)
            &&& holds(sent, "submissions"@, render::counts_json(s.submissions))
            &&& counts(sent, "creators"@, s.creators)
        }),
{
    let m = render::summary_json(s)->Object_0;
    assert(m[0].0 == "budget_cents"@);
    assert(m[1].0 == "accrued_cents"@);
    assert(m[2].0 == "approved_cents"@);
    assert(m[3].0 == "paid_cents"@);
    assert(m[4].0 == "committed_cents"@);
    assert(m[5].0 == "remaining_cents"@);
    assert(m[6].0 == "total_views"@);
    assert(m[7].0 == "total_likes"@);
    assert(m[8].0 == "total_comments"@);
    assert(m[9].0 == "submissions"@);
    assert(m[10].0 == "creators"@);
}

/// A line of the leaderboard is sent with every number under its own name.
pub proof fn law_what_is_sent_of_the_board(b: BoardView)
    ensures
        ({
            let sent = render::board_json()(b);
            &&& sent is Object && sent->Object_0.len() == 6
            &&& says(sent, "creator_id"@, b.creator_id)
            &&& says(sent, "display_name"@, b.display_name)
            &&& counts(sent, "views"@, b.views as i64)
            &&& counts(sent, "approved_submissions"@, b.approved_submissions as i64)
            &&& counts(sent, "accrued_cents"@, b.accrued_cents as i64)
            &&& counts(sent, "paid_cents"@, b.paid_cents as i64)
        }),
{
    let m = render::board_json()(b)->Object_0;
    assert(m[0].0 == "creator_id"@);
    assert(m[1].0 == "display_name"@);
    assert(m[2].0 == "views"@);
    assert(m[3].0 == "approved_submissions"@);
    assert(m[4].0 == "accrued_cents"@);
    assert(m[5].0 == "paid_cents"@);
}

/// A creator's totals are sent with every number under its own name.
pub proof fn law_what_is_sent_of_the_totals(n: CreatorTotals)
    ensures
        ({
            let sent = render::totals_json(n);
            &&& sent is Object && sent->Object_0.len() == 3
            &&& holds(sent, "submissions"@, render::counts_json(n.submissions))
            &&& counts(sent, "accrued_cents"@, n.accrued_cents)
            &&& counts(sent, "paid_cents"@, n.paid_cents)
        }),
{
    let m = render::totals_json(n)->Object_0;
    assert(m[0].0 == "submissions"@);
    assert(m[1].0 == "accrued_cents"@);
    assert(m[2].0 == "paid_cents"@);
}

/// The overview is sent with every number under its own name.
pub proof fn law_what_is_sent_of_the_overview(n: UgcOverview)
    ensures
        ({
            let sent = render::overview_json(n);
            &&& sent is Object && sent->Object_0.len() == 5
            &&& counts(sent, "campaigns"@, n.campaigns)
            &&& counts(sent, "creators"@, n.creators)
            &&& holds(sent, "submissions"@, render::counts_json(n.submissions))
            &&& counts(sent, "accrued_cents"@, n.accrued_cents)
            &&& counts(sent, "paid_cents"@, n.paid_cents)
        }),
{
    let m = render::overview_json(n)->Object_0;
    assert(m[0].0 == "campaigns"@);
    assert(m[1].0 == "creators"@);
    assert(m[2].0 == "submissions"@);
    assert(m[3].0 == "accrued_cents"@);
    assert(m[4].0 == "paid_cents"@);
}

/// A curated source is sent with every value under its own name, and null for a counter that the
/// platform does not report.
pub proof fn law_what_is_sent_of_a_source(s: SourceView)
    ensures
        ({
            let sent = render::source_json()(s);
            &&& sent is Object && sent->Object_0.len() == 10
            &&& says(sent, "platform"@, s.platform)
            &&& says(sent, "label"@, s.label)
            &&& says(sent, "action"@, s.action)
            &&& says(sent, "id_arg"@, s.id_arg)
            &&& holds(sent, "extra_args"@, JsonView::Array(
                s.extra_args.map_values(
                    |p: (Seq<char>, Seq<char>)|
                        JsonView::Array(seq![JsonView::Text(p.0), JsonView::Text(p.1)]),
                ),
            ))
            &&& says(sent, "views"@, s.views)
            &&& says(sent, "likes"@, s.likes)
            &&& says(sent, "comments"@, s.comments)
            &&& says_or_null(sent, "shares"@, s.shares)
            &&& says_or_null(sent, "saves"@, s.saves)
        }),
{
    let f = |p: (Seq<char>, Seq<char>)|
        JsonView::Array(seq![JsonView::Text(p.0), JsonView::Text(p.1)]);
    assert(s.extra_args.map_values(render::pair_json()) =~= s.extra_args.map_values(f));
    let m = render::source_json()(s)->Object_0;
    assert(m[0].0 == "platform"@);
    assert(m[1].0 == "label"@);
    assert(m[2].0 == "action"@);
    assert(m[3].0 == "id_arg"@);
    assert(m[4].0 == "extra_args"@);
    assert(m[5].0 == "views"@);
    assert(m[6].0 == "likes"@);
    assert(m[7].0 == "comments"@);
    assert(m[8].0 == "shares"@);
    assert(m[9].0 == "saves"@);
}

/// A line of a refresh is sent with what became of it, and null for what it does not have.
pub proof fn law_what_is_sent_of_a_refresh(r: ReportView)
    ensures
        ({
            let sent = render::report_json()(r);
            &&& sent is Object && sent->Object_0.len() == 5
            &&& says(sent, "submission_id"@, r.submission_id)
            &&& holds(sent, "status"@, JsonView::Text(
                match r.status {
                    RefreshStatus::Success => "ok"@,
                    RefreshStatus::NeedsConnection => "needs_connection"@,
                    RefreshStatus::Error => "error"@,
                },
            ))
            &&& says_or_null(sent, "message"@, r.message)
            &&& says_or_null(sent, "connect_url"@, r.connect_url)
            &&& holds(sent, "snapshot"@, match r.snapshot {
                Some(m) => render::snapshot_json()(m),
                None => JsonView::Null,
            })
        }),
{
    let m = render::report_json()(r)->Object_0;
    assert(m[0].0 == "submission_id"@);
    assert(m[1].0 == "status"@);
    assert(m[2].0 == "message"@);
    assert(m[3].0 == "connect_url"@);
    assert(m[4].0 == "snapshot"@);
}

/// A single refresh is answered with its line, the snapshot before it and the payout after it; one
/// that failed is answered with its line and its message.
pub proof fn law_what_a_refresh_is_answered(
    id: Seq<char>,
    snapshot: SnapshotView,
    previous: Option<SnapshotView>,
    payout: Option<PayoutView>,
    e: RefreshErrorView,
)
    ensures
        ({
            let outcome = RefreshOutcomeView::Refreshed { snapshot, previous, payout };
            let sent = submission_api::outcome_json(id, outcome);
            &&& sent->Object_0.take(5) == render::report_json()(
                engine::report_of(id, Ok(outcome)),
            )->Object_0
            &&& holds(
                sent,
                "previous"@,
                match previous {
                    Some(m) => render::snapshot_json()(m),
                    None => JsonView::Null,
                },
            )
            &&& holds(
                sent,
                "payout"@,
                match payout {
                    Some(p) => render::payout_json()(p),
                    None => JsonView::Null,
                },
            )
        }),
        ({
            let sent = submission_api::refresh_error_json(id, e);
            &&& sent->Object_0.take(5) == render::report_json()(
                engine::report_of(id, Err(e)),
            )->Object_0
            &&& says(sent, "error"@, e.text())
        }),
{
    let outcome = RefreshOutcomeView::Refreshed { snapshot, previous, payout };
    let m = submission_api::outcome_json(id, outcome)->Object_0;
    assert(m[5].0 == "previous"@ && m[6].0 == "payout"@);
    assert(m.take(5) =~= render::report_members(engine::report_of(id, Ok(outcome))));
    let f = submission_api::refresh_error_json(id, e)->Object_0;
    assert(f[5].0 == "error"@);
    assert(f.take(5) =~= render::report_members(engine::report_of(id, Err(e))));
}

// ---- events ----------------------------------------------------------------------------------

/// The event of a new post names the post, whose it is and where it stands.
pub proof fn law_the_event_of_a_new_post(s: SubmissionView)
    ensures
        ({
            let event = HookEventView::SubmissionReceived { submission: s };
            let sent = JsonView::Object(event.payload());
            &&& sent is Object && sent->Object_0.len() == 8
            &&& says(sent, "submission_id"@, s.id)
            &&& says(sent, "campaign_id"@, s.campaign_id)
            &&& says(sent, "creator_id"@, s.creator_id)
            &&& says(sent, "platform"@, s.platform)
            &&& says(sent, "post_url"@, s.post_url)
            &&& says(sent, "external_post_id"@, s.external_post_id)
            &&& holds(sent, "status"@, JsonView::Text(
                match s.status {
                    SubmissionStatus::Pending => "pending"@,
                    SubmissionStatus::Approved => "approved"@,
                    SubmissionStatus::Rejected => "rejected"@,
                    SubmissionStatus::Paid => "paid"@,
                },
            ))
            &&& says(sent, "submitted_at"@, s.submitted_at)
            &&& event.name() == "@ryu/ugc#submission.received"@
        }),
{
    let event = HookEventView::SubmissionReceived { submission: s };
    let m = event.payload();
    assert(m[0].0 == "submission_id"@);
    assert(m[1].0 == "campaign_id"@);
    assert(m[2].0 == "creator_id"@);
    assert(m[3].0 == "platform"@);
    assert(m[4].0 == "post_url"@);
    assert(m[5].0 == "external_post_id"@);
    assert(m[6].0 == "status"@);
    assert(m[7].0 == "submitted_at"@);
}

/// The event of an approval names the post and the payout with its amount, which is 0 without a
/// payout.
pub proof fn law_the_event_of_an_approval(
    s: SubmissionView,
    payout: Option<PayoutView>,
    at: Seq<char>,
)
    ensures
        ({
            let event = HookEventView::SubmissionApproved { submission: s, payout, reviewed_at: at };
            let sent = JsonView::Object(event.payload());
            &&& sent is Object && sent->Object_0.len() == 8
            &&& says(sent, "submission_id"@, s.id)
            &&& says(sent, "campaign_id"@, s.campaign_id)
            &&& says(sent, "creator_id"@, s.creator_id)
            &&& says(sent, "platform"@, s.platform)
            &&& says(sent, "post_url"@, s.post_url)
            &&& holds(sent, "payout_id"@, match payout {
                Some(p) => JsonView::Text(p.id),
                None => JsonView::Null,
            })
            &&& holds(sent, "amount_cents"@, JsonView::Int(
                match payout {
                    Some(p) => p.amount_cents,
                    None => 0,
                },
            ))
            &&& says(sent, "reviewed_at"@, at)
            &&& event.name() == "@ryu/ugc#submission.approved"@
        }),
{
    let event = HookEventView::SubmissionApproved { submission: s, payout, reviewed_at: at };
    let m = event.payload();
    assert(m[0].0 == "submission_id"@);
    assert(m[1].0 == "campaign_id"@);
    assert(m[2].0 == "creator_id"@);
    assert(m[3].0 == "platform"@);
    assert(m[4].0 == "post_url"@);
    assert(m[5].0 == "payout_id"@);
    assert(m[6].0 == "amount_cents"@);
    assert(m[7].0 == "reviewed_at"@);
}

/// The event of a rejection names the post and the reason, which is null where none was given.
pub proof fn law_the_event_of_a_rejection(s: SubmissionView, why: Option<Seq<char>>, at: Seq<char>)
    ensures
        ({
            let event = HookEventView::SubmissionRejected { submission: s, reason: why, reviewed_at: at };
            let sent = JsonView::Object(event.payload());
            &&& sent is Object && sent->Object_0.len() == 6
            &&& says(sent, "submission_id"@, s.id)
            &&& says(sent, "campaign_id"@, s.campaign_id)
            &&& says(sent, "creator_id"@, s.creator_id)
            &&& says(sent, "platform"@, s.platform)
            &&& says_or_null(sent, "reason"@, why)
            &&& says(sent, "reviewed_at"@, at)
            &&& event.name() == "@ryu/ugc#submission.rejected"@
        }),
{
    let event = HookEventView::SubmissionRejected { submission: s, reason: why, reviewed_at: at };
    let m = event.payload();
    assert(m[0].0 == "submission_id"@);
    assert(m[1].0 == "campaign_id"@);
    assert(m[2].0 == "creator_id"@);
    assert(m[3].0 == "platform"@);
    assert(m[4].0 == "reason"@);
    assert(m[5].0 == "reviewed_at"@);
}

/// The event of a refresh names the post and carries the new counters, and how far they moved.
pub proof fn law_the_event_of_a_refresh(
    s: SubmissionView,
    n: SnapshotView,
    previous: Option<SnapshotView>,
)
    ensures
        ({
            let event = HookEventView::MetricsRefreshed { submission: s, snapshot: n, previous };
            let sent = JsonView::Object(event.payload());
            &&& sent is Object && sent->Object_0.len() == 7
            &&& says(sent, "submission_id"@, s.id)
            &&& says(sent, "campaign_id"@, s.campaign_id)
            &&& says(sent, "platform"@, s.platform)
            &&& says(sent, "source"@, "composio"@)
            &&& says(sent, "captured_at"@, n.captured_at)
            &&& holds(sent, "metrics"@, payloads::counters(n))
            &&& holds(sent, "delta"@, payloads::moved(n, previous))
            &&& event.name() == "@ryu/ugc#metrics.refreshed"@
        }),
{
    let event = HookEventView::MetricsRefreshed { submission: s, snapshot: n, previous };
    let m = event.payload();
    assert(m[0].0 == "submission_id"@);
    assert(m[1].0 == "campaign_id"@);
    assert(m[2].0 == "platform"@);
    assert(m[3].0 == "source"@);
    assert(m[4].0 == "captured_at"@);
    assert(m[5].0 == "metrics"@);
    assert(m[6].0 == "delta"@);
}

/// The new counters are sent each under its own name.
pub proof fn law_the_counters_of_a_refresh(n: SnapshotView)
    ensures
        ({
            let sent = payloads::counters(n);
            &&& sent is Object && sent->Object_0.len() == 5
            &&& counts(sent, "views"@, n.views)
            &&& counts(sent, "likes"@, n.likes)
            &&& counts(sent, "comments"@, n.comments)
            &&& counts(sent, "shares"@, n.shares)
            &&& counts(sent, "saves"@, n.saves)
        }),
{
    let m = payloads::counters(n)->Object_0;
    assert(m[0].0 == "views"@);
    assert(m[1].0 == "likes"@);
    assert(m[2].0 == "comments"@);
    assert(m[3].0 == "shares"@);
    assert(m[4].0 == "saves"@);
}

/// A counter moved by what it is now less what it was before, and by all of it where there was
/// nothing before.
pub proof fn law_how_far_the_counters_moved(n: SnapshotView, p: SnapshotView)
    ensures
        ({
            let first = payloads::moved(n, None);
            let next = payloads::moved(n, Some(p));
            &&& counts(first, "views"@, n.views)
            &&& counts(first, "likes"@, n.likes)
            &&& counts(first, "comments"@, n.comments)
            &&& i64::MIN <= n.views - p.views <= i64::MAX ==> counts(
                next,
                "views"@,
                (n.views - p.views) as i64,
            )
            &&& i64::MIN <= n.likes - p.likes <= i64::MAX ==> counts(
                next,
                "likes"@,
                (n.likes - p.likes) as i64,
            )
            &&& i64::MIN <= n.comments - p.comments <= i64::MAX ==> counts(
                next,
                "comments"@,
                (n.comments - p.comments) as i64,
            )
        }),
{
    let first = payloads::moved(n, None)->Object_0;
    let next = payloads::moved(n, Some(p))->Object_0;
    assert(first[0].0 == "views"@ && first[1].0 == "likes"@ && first[2].0 == "comments"@);
    assert(next[0].0 == "views"@ && next[1].0 == "likes"@ && next[2].0 == "comments"@);
}

/// The event of an accrual names the payout, its amount and the amount before.
pub proof fn law_the_event_of_an_accrual(p: PayoutView, before: i64)
    ensures
        ({
            let event = HookEventView::PayoutAccrued { accrued: p, previous_cents: before };
            let sent = JsonView::Object(event.payload());
            &&& sent is Object && sent->Object_0.len() == 8
            &&& says(sent, "payout_id"@, p.id)
            &&& says(sent, "campaign_id"@, p.campaign_id)
            &&& says(sent, "creator_id"@, p.creator_id)
            &&& says_or_null(sent, "submission_id"@, p.submission_id)
            &&& counts(sent, "amount_cents"@, p.amount_cents)
            &&& counts(sent, "previous_cents"@, before)
            &&& holds(sent, "status"@, JsonView::Text(
                match p.status {
                    PayoutStatus::Accrued => "accrued"@,
                    PayoutStatus::Approved => "approved"@,
                    PayoutStatus::Paid => "paid"@,
                },
            ))
            &&& says(sent, "reason"@, p.reason)
            &&& event.name() == "@ryu/ugc#payout.accrued"@
        }),
{
    let event = HookEventView::PayoutAccrued { accrued: p, previous_cents: before };
    let m = event.payload();
    assert(m[0].0 == "payout_id"@);
    assert(m[1].0 == "campaign_id"@);
    assert(m[2].0 == "creator_id"@);
    assert(m[3].0 == "submission_id"@);
    assert(m[4].0 == "amount_cents"@);
    assert(m[5].0 == "previous_cents"@);
    assert(m[6].0 == "status"@);
    assert(m[7].0 == "reason"@);
}

/// The event of a spent budget names the campaign, its budget and what is committed.
pub proof fn law_the_event_of_a_spent_budget(
    id: Seq<char>,
    brand: Seq<char>,
    budget: i64,
    committed: i64,
    at: Seq<char>,
)
    ensures
        ({
            let event = HookEventView::BudgetReached {
                campaign_id: id,
                brand,
                budget_cents: budget,
                accrued_cents: committed,
                reached_at: at,
            };
            let sent = JsonView::Object(event.payload());
            &&& sent is Object && sent->Object_0.len() == 5
            &&& says(sent, "campaign_id"@, id)
            &&& says(sent, "brand"@, brand)
            &&& counts(sent, "budget_cents"@, budget)
            &&& counts(sent, "accrued_cents"@, committed)
            &&& says(sent, "reached_at"@, at)
            &&& event.name() == "@ryu/ugc#campaign.budget.reached"@
        }),
{
    let event = HookEventView::BudgetReached {
        campaign_id: id,
        brand,
        budget_cents: budget,
        accrued_cents: committed,
        reached_at: at,
    };
    let m = event.payload();
    assert(m[0].0 == "campaign_id"@);
    assert(m[1].0 == "brand"@);
    assert(m[2].0 == "budget_cents"@);
    assert(m[3].0 == "accrued_cents"@);
    assert(m[4].0 == "reached_at"@);
}

// ---- states ----------------------------------------------------------------------------------

/// Every state reads back from its own word, and no two states share a word; a stored word that is
/// unknown reads as the first state. Work has cleared review where it is approved or paid.
pub proof fn law_states_read_back(t: Seq<char>)
    ensures
        forall|s: CampaignStatus| #[trigger] CampaignStatus::named(s.text()) == Some(s),
        forall|s: SubmissionStatus| #[trigger] SubmissionStatus::named(s.text()) == Some(s),
        forall|s: PayoutStatus| #[trigger] PayoutStatus::named(s.text()) == Some(s),
        forall|a: CampaignStatus, b: CampaignStatus| #[trigger]
            a.text() == #[trigger] b.text() ==> a == b,
        forall|a: SubmissionStatus, b: SubmissionStatus| #[trigger]
            a.text() == #[trigger] b.text() ==> a == b,
        forall|a: PayoutStatus, b: PayoutStatus| #[trigger]
            a.text() == #[trigger] b.text() ==> a == b,
        text::lower(text::trimmed(t)) == "approved"@ ==> SubmissionStatus::stored(t)
            == SubmissionStatus::Approved && PayoutStatus::stored(t) == PayoutStatus::Approved,
        text::lower(text::trimmed(t)) == "paid"@ ==> SubmissionStatus::stored(t)
            == SubmissionStatus::Paid && PayoutStatus::stored(t) == PayoutStatus::Paid,
        text::lower(text::trimmed(t)) == "rejected"@ ==> SubmissionStatus::stored(t)
            == SubmissionStatus::Rejected,
        text::lower(text::trimmed(t)) != "approved"@ && text::lower(text::trimmed(t)) != "paid"@
            && text::lower(text::trimmed(t)) != "rejected"@ ==> SubmissionStatus::stored(t)
            == SubmissionStatus::Pending,
        text::lower(text::trimmed(t)) != "approved"@ && text::lower(text::trimmed(t)) != "paid"@
            ==> PayoutStatus::stored(t) == PayoutStatus::Accrued,
        MetricSource::stored(t) == if text::lower(text::trimmed(t)) == "composio"@ {
            MetricSource::Composio
        } else {
            MetricSource::Manual
        },
        SubmissionStatus::Approved.cleared() && SubmissionStatus::Paid.cleared(),
        !SubmissionStatus::Pending.cleared() && !SubmissionStatus::Rejected.cleared(),
{
    reveal_strlit("draft");
    reveal_strlit("active");
    reveal_strlit("paused");
    reveal_strlit("ended");
    reveal_strlit("pending");
    reveal_strlit("approved");
    reveal_strlit("rejected");
    reveal_strlit("paid");
    reveal_strlit("accrued");
    assert("draft"@[0] == 'd' && "active"@[0] == 'a' && "paused"@[0] == 'p' && "ended"@[0] == 'e');
    assert("pending"@[1] == 'e' && "approved"@[1] == 'p' && "rejected"@[0] == 'r' && "paid"@[1]
        == 'a' && "accrued"@[1] == 'c');
    assert("pending"@[0] == 'p' && "approved"@[0] == 'a' && "paid"@[0] == 'p');
}

} // verus!
