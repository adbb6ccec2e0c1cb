//! The records as they are sent.
use crate::composio::{PlatformMetricSource, SourceView};
use crate::engine::{ReportView, SubmissionRefreshReport};
use crate::json;
use crate::json::{
    array, object, opt_int, opt_text, put, put_int, put_some, put_text, text_array, Json, JsonView,
};
use crate::lists::{SubmissionWithMetrics, WithMetricsView};
use crate::records::{
    clone_opt, BonusTier, Campaign, CampaignView, Creator, CreatorView, MetricSnapshot, Payout,
    PayoutRule, PayoutView, SnapshotView, Submission, SubmissionView,
};
use crate::reports::{
    BoardView, CampaignSummary, CreatorTotals, LeaderboardRow, SubmissionCounts, UgcOverview,
};
use vstd::prelude::*;

verus! {

// ---- what is sent of each record -------------------------------------------------------------

/// A payout rule as it is sent.
pub open spec fn rule_json(rule: PayoutRule) -> JsonView {
    match rule {
        PayoutRule::Cpm { cpm_cents } => JsonView::Object(
            seq![("type"@, JsonView::Text("cpm"@)), ("cpm_cents"@, JsonView::Int(cpm_cents))],
        ),
        PayoutRule::Flat { flat_cents } => JsonView::Object(
            seq![("type"@, JsonView::Text("flat"@)), ("flat_cents"@, JsonView::Int(flat_cents))],
        ),
    }
}

/// A bonus tier as it is sent.
pub open spec fn tier_json() -> spec_fn(BonusTier) -> JsonView {
    |t: BonusTier|
        JsonView::Object(
            seq![("views"@, JsonView::Int(t.views)), ("bonus_cents"@, JsonView::Int(t.bonus_cents))],
        )
}

/// A campaign as it is sent: an open start or end is left out.
pub open spec fn campaign_json() -> spec_fn(CampaignView) -> JsonView {
    |c: CampaignView|
        {
            let head = seq![
                ("id"@, JsonView::Text(c.id)),
                ("brand"@, JsonView::Text(c.brand)),
                ("brief"@, JsonView::Text(c.brief)),
                ("status"@, JsonView::Text(c.status.text())),
                ("platforms"@, json::texts(c.platforms)),
                ("required_hashtags"@, json::texts(c.required_hashtags)),
                ("required_mentions"@, json::texts(c.required_mentions)),
            ];
            let dated = json::with_some(
                json::with_some(head, "starts_at"@, c.starts_at),
                "ends_at"@,
                c.ends_at,
            );
            JsonView::Object(
                dated + seq![
                    ("budget_cents"@, JsonView::Int(c.budget_cents)),
                    ("payout"@, rule_json(c.payout)),
                    ("bonus_tiers"@, JsonView::Array(c.bonus_tiers.map_values(tier_json()))),
                    (
                        "max_payout_per_creator_cents"@,
                        JsonView::Int(c.max_payout_per_creator_cents),
                    ),
                    ("created_at"@, JsonView::Text(c.created_at)),
                    ("updated_at"@, JsonView::Text(c.updated_at)),
                ],
            )
        }
}

/// The handles of a creator as they are sent.
pub open spec fn handles_json(pairs: Seq<(Seq<char>, Seq<char>)>) -> JsonView {
    JsonView::Object(Seq::new(pairs.len(), |i: int| (pairs[i].0, JsonView::Text(pairs[i].1))))
}

/// A creator as they are sent: what is not known is left out.
pub open spec fn creator_json() -> spec_fn(CreatorView) -> JsonView {
    |c: CreatorView|
        {
            let head = seq![
                ("id"@, JsonView::Text(c.id)),
                ("display_name"@, JsonView::Text(c.display_name)),
                ("handles"@, handles_json(c.handles)),
            ];
            let known = json::with_some(
                json::with_some(
                    json::with_some(head, "contact_email"@, c.contact_email),
                    "payout_handle"@,
                    c.payout_handle,
                ),
                "notes"@,
                c.notes,
            );
            JsonView::Object(
                known + seq![
                    ("created_at"@, JsonView::Text(c.created_at)),
                    ("updated_at"@, JsonView::Text(c.updated_at)),
                ],
            )
        }
}

/// The members of a submission as it is sent: a stamp or reason it does not have is left out.
pub open spec fn submission_members(s: SubmissionView) -> Seq<(Seq<char>, JsonView)> {
    let head = seq![
        ("id"@, JsonView::Text(s.id)),
        ("campaign_id"@, JsonView::Text(s.campaign_id)),
        ("creator_id"@, JsonView::Text(s.creator_id)),
        ("platform"@, JsonView::Text(s.platform)),
        ("post_url"@, JsonView::Text(s.post_url)),
        ("external_post_id"@, JsonView::Text(s.external_post_id)),
        ("status"@, JsonView::Text(s.status.text())),
        ("submitted_at"@, JsonView::Text(s.submitted_at)),
    ];
    json::with_some(
        json::with_some(head, "reviewed_at"@, s.reviewed_at),
        "rejection_reason"@,
        s.rejection_reason,
    ) + seq![
        ("created_at"@, JsonView::Text(s.created_at)),
        ("updated_at"@, JsonView::Text(s.updated_at)),
    ]
}

/// A submission as it is sent.
pub open spec fn submission_json(s: SubmissionView) -> JsonView {
    JsonView::Object(submission_members(s))
}

/// A snapshot as it is sent.
pub open spec fn snapshot_json() -> spec_fn(SnapshotView) -> JsonView {
    |m: SnapshotView|
        JsonView::Object(
            seq![
                ("id"@, JsonView::Int(m.id)),
                ("submission_id"@, JsonView::Text(m.submission_id)),
                ("captured_at"@, JsonView::Text(m.captured_at)),
                ("views"@, JsonView::Int(m.views)),
                ("likes"@, JsonView::Int(m.likes)),
                ("comments"@, JsonView::Int(m.comments)),
                ("shares"@, JsonView::Int(m.shares)),
                ("saves"@, JsonView::Int(m.saves)),
                ("source"@, JsonView::Text(m.source.text())),
            ],
        )
}

/// A payout as it is sent: a submission or stamp it does not have is left out.
pub open spec fn payout_json() -> spec_fn(PayoutView) -> JsonView {
    |p: PayoutView|
        {
            let head = json::with_some(
                seq![
                    ("id"@, JsonView::Text(p.id)),
                    ("campaign_id"@, JsonView::Text(p.campaign_id)),
                    ("creator_id"@, JsonView::Text(p.creator_id)),
                ],
                "submission_id"@,
                p.submission_id,
            );
            let priced = head + seq![
                ("amount_cents"@, JsonView::Int(p.amount_cents)),
                ("status"@, JsonView::Text(p.status.text())),
                ("reason"@, JsonView::Text(p.reason)),
                ("accrued_at"@, JsonView::Text(p.accrued_at)),
            ];
            JsonView::Object(
                json::with_some(
                    json::with_some(priced, "approved_at"@, p.approved_at),
                    "paid_at"@,
                    p.paid_at,
                ) + seq![
                    ("created_at"@, JsonView::Text(p.created_at)),
                    ("updated_at"@, JsonView::Text(p.updated_at)),
                ],
            )
        }
}

/// What `of` makes of the value, or null.
pub open spec fn or_null<T>(v: Option<T>, of: spec_fn(T) -> JsonView) -> JsonView {
    match v {
        Some(t) => of(t),
        None => JsonView::Null,
    }
}

/// A submission with its newest counters and its money, as it is sent: counters that were never
/// read are left out, money that never accrued is null.
pub open spec fn with_metrics_json() -> spec_fn(WithMetricsView) -> JsonView {
    |w: WithMetricsView|
        {
            let head = submission_members(w.submission);
            let counted = match w.latest {
                Some(m) => head.push(("latest"@, snapshot_json()(m))),
                None => head,
            };
            JsonView::Object(
                counted.push(("accrued_cents"@, json::int_or_null(w.accrued_cents))).push(
                    ("payout_status"@, json::text_or_null(w.payout_status)),
                ),
            )
        }
}

/// The counts by state as they are sent.
pub open spec fn counts_json(c: SubmissionCounts) -> JsonView {
    JsonView::Object(
        seq![
            ("pending"@, JsonView::Int(c.pending)),
            ("approved"@, JsonView::Int(c.approved)),
            ("rejected"@, JsonView::Int(c.rejected)),
            ("paid"@, JsonView::Int(c.paid)),
        ],
    )
}

/// A campaign's summary as it is sent.
pub open spec fn summary_json(s: CampaignSummary) -> JsonView {
    JsonView::Object(
        seq![
            ("budget_cents"@, JsonView::Int(s.budget_cents)),
            ("accrued_cents"@, JsonView::Int(s.accrued_cents)),
            ("approved_cents"@, JsonView::Int(s.approved_cents)),
            ("paid_cents"@, JsonView::Int(s.paid_cents)),
            ("committed_cents"@, JsonView::Int(s.committed_cents)),
            ("remaining_cents"@, json::int_or_null(s.remaining_cents)),
            ("total_views"@, JsonView::Int(s.total_views)),
            ("total_likes"@, JsonView::Int(s.total_likes)),
            ("total_comments"@, JsonView::Int(s.total_comments)),
            ("submissions"@, counts_json(s.submissions)),
            ("creators"@, JsonView::Int(s.creators)),
        ],
    )
}

/// A line of the leaderboard as it is sent.
pub open spec fn board_json() -> spec_fn(BoardView) -> JsonView {
    |r: BoardView|
        JsonView::Object(
            seq![
                ("creator_id"@, JsonView::Text(r.creator_id)),
                ("display_name"@, JsonView::Text(r.display_name)),
                ("views"@, JsonView::Int(r.views as i64)),
                ("approved_submissions"@, JsonView::Int(r.approved_submissions as i64)),
                ("accrued_cents"@, JsonView::Int(r.accrued_cents as i64)),
                ("paid_cents"@, JsonView::Int(r.paid_cents as i64)),
            ],
        )
}

/// A creator's totals as they are sent.
pub open spec fn totals_json(t: CreatorTotals) -> JsonView {
    JsonView::Object(
        seq![
            ("submissions"@, counts_json(t.submissions)),
            ("accrued_cents"@, JsonView::Int(t.accrued_cents)),
            ("paid_cents"@, JsonView::Int(t.paid_cents)),
        ],
    )
}

/// The overview as it is sent.
pub open spec fn overview_json(o: UgcOverview) -> JsonView {
    JsonView::Object(
        seq![
            ("campaigns"@, JsonView::Int(o.campaigns)),
            ("creators"@, JsonView::Int(o.creators)),
            ("submissions"@, counts_json(o.submissions)),
            ("accrued_cents"@, JsonView::Int(o.accrued_cents)),
            ("paid_cents"@, JsonView::Int(o.paid_cents)),
        ],
    )
}

/// A pair of strings as it is sent.
pub open spec fn pair_json() -> spec_fn((Seq<char>, Seq<char>)) -> JsonView {
    |p: (Seq<char>, Seq<char>)|
        JsonView::Array(seq![JsonView::Text(p.0), JsonView::Text(p.1)])
}

/// A curated metric source as it is sent.
pub open spec fn source_json() -> spec_fn(SourceView) -> JsonView {
    |s: SourceView|
        JsonView::Object(
            seq![
                ("platform"@, JsonView::Text(s.platform)),
                ("label"@, JsonView::Text(s.label)),
                ("action"@, JsonView::Text(s.action)),
                ("id_arg"@, JsonView::Text(s.id_arg)),
                ("extra_args"@, JsonView::Array(s.extra_args.map_values(pair_json()))),
                ("views"@, JsonView::Text(s.views)),
                ("likes"@, JsonView::Text(s.likes)),
                ("comments"@, JsonView::Text(s.comments)),
                ("shares"@, json::text_or_null(s.shares)),
                ("saves"@, json::text_or_null(s.saves)),
            ],
        )
}

/// The members of a refresh report as it is sent.
pub open spec fn report_members(r: ReportView) -> Seq<(Seq<char>, JsonView)> {
    seq![
        ("submission_id"@, JsonView::Text(r.submission_id)),
        ("status"@, JsonView::Text(r.status.text())),
        ("message"@, json::text_or_null(r.message)),
        ("connect_url"@, json::text_or_null(r.connect_url)),
        ("snapshot"@, or_null(r.snapshot, snapshot_json())),
    ]
}

/// A refresh report as it is sent.
pub open spec fn report_json() -> spec_fn(ReportView) -> JsonView {
    |r: ReportView| JsonView::Object(report_members(r))
}

// ---- sending them ----------------------------------------------------------------------------

/// An array of what `f` makes of the records.
pub fn render_all<T: DeepView, F: Fn(&T) -> Json>(
    v: &Vec<T>,
    f: F,
    Ghost(of): Ghost<spec_fn(T::V) -> JsonView>,
) -> (r: Json)
    requires
        forall|t: &T| call_requires(f, (t,)),
        forall|t: &T, j: Json| #[trigger]
            call_ensures(f, (t,), j) ==> j.deep_view() == of(t.deep_view()),
    ensures
        r.deep_view() == JsonView::Array(v.deep_view().map_values(of)),
{
    let mut out: Vec<Json> = Vec::new();
    let mut i: usize = 0;
    while i < v.len()
        invariant
            forall|t: &T| call_requires(f, (t,)),
            forall|t: &T, j: Json| #[trigger]
                call_ensures(f, (t,), j) ==> j.deep_view() == of(t.deep_view()),
            i <= v.len(),
            out.len() == i,
            forall|k: int| 0 <= k < i ==> (#[trigger] out@[k]).deep_view() == of(v@[k].deep_view()),
        decreases v.len() - i,
    {
        let j = f(&v[i]);
        out.push(j);
        i += 1;
    }
    assert(out.deep_view() =~= v.deep_view().map_values(of));
    array(out)
}

/// What `f` makes of the record, or null.
pub fn render_some<T: DeepView, F: Fn(&T) -> Json>(
    v: &Option<T>,
    f: F,
    Ghost(of): Ghost<spec_fn(T::V) -> JsonView>,
) -> (r: Json)
    requires
        forall|t: &T| call_requires(f, (t,)),
        forall|t: &T, j: Json| #[trigger]
            call_ensures(f, (t,), j) ==> j.deep_view() == of(t.deep_view()),
    ensures
        r.deep_view() == or_null(v.deep_view(), of),
{
    match v {
        Some(t) => f(t),
        None => Json::Null,
    }
}

/// The payout rule, as it is sent.
pub fn render_rule(rule: &PayoutRule) -> (r: Json)
    ensures
        r.deep_view() == rule_json(*rule),
{
    let mut m: Vec<(String, Json)> = Vec::new();
    match rule {
        PayoutRule::Cpm { cpm_cents } => {
            put_text(&mut m, "type", "cpm");
            put_int(&mut m, "cpm_cents", *cpm_cents);
        },
        PayoutRule::Flat { flat_cents } => {
            put_text(&mut m, "type", "flat");
            put_int(&mut m, "flat_cents", *flat_cents);
        },
    }
    assert(json::members(m@) =~= rule_json(*rule)->Object_0);
    object(m)
}

/// The bonus tier, as it is sent.
pub fn render_tier(t: &BonusTier) -> (r: Json)
    ensures
        r.deep_view() == tier_json()(t.deep_view()),
{
    let mut m: Vec<(String, Json)> = Vec::new();
    put_int(&mut m, "views", t.views);
    put_int(&mut m, "bonus_cents", t.bonus_cents);
    assert(json::members(m@) =~= tier_json()(*t)->Object_0);
    object(m)
}

/// The campaign, as it is sent.
pub fn render_campaign(c: &Campaign) -> (r: Json)
    ensures
        r.deep_view() == campaign_json()(c.deep_view()),
{
    let mut m: Vec<(String, Json)> = Vec::new();
    put_text(&mut m, "id", c.id.as_str());
    put_text(&mut m, "brand", c.brand.as_str());
    put_text(&mut m, "brief", c.brief.as_str());
    put_text(&mut m, "status", c.status.as_str());
    put(&mut m, "platforms", text_array(&c.platforms));
    put(&mut m, "required_hashtags", text_array(&c.required_hashtags));
    put(&mut m, "required_mentions", text_array(&c.required_mentions));
    put_some(&mut m, "starts_at", &c.starts_at);
    put_some(&mut m, "ends_at", &c.ends_at);
    put_int(&mut m, "budget_cents", c.budget_cents);
    put(&mut m, "payout", render_rule(&c.payout));
    put(&mut m, "bonus_tiers", render_all(&c.bonus_tiers, render_tier, Ghost(tier_json())));
    put_int(&mut m, "max_payout_per_creator_cents", c.max_payout_per_creator_cents);
    put_text(&mut m, "created_at", c.created_at.as_str());
    put_text(&mut m, "updated_at", c.updated_at.as_str());
    assert(c.bonus_tiers.deep_view() =~= c.deep_view().bonus_tiers);
    assert(json::members(m@) =~= campaign_json()(c.deep_view())->Object_0);
    object(m)
}

/// The handles, as they are sent.
pub fn render_handles(v: &Vec<(String, String)>) -> (r: Json)
    ensures
        r.deep_view() == handles_json(v.deep_view()),
{
    let mut m: Vec<(String, Json)> = Vec::new();
    let mut i: usize = 0;
    while i < v.len()
        invariant
            i <= v.len(),
            json::members(m@) =~= (handles_json(v.deep_view())->Object_0).take(i as int),
        decreases v.len() - i,
    {
        put_text(&mut m, v[i].0.as_str(), v[i].1.as_str());
        i += 1;
    }
    assert(json::members(m@) =~= handles_json(v.deep_view())->Object_0);
    object(m)
}

/// The creator, as they are sent.
pub fn render_creator(c: &Creator) -> (r: Json)
    ensures
        r.deep_view() == creator_json()(c.deep_view()),
{
    let mut m: Vec<(String, Json)> = Vec::new();
    put_text(&mut m, "id", c.id.as_str());
    put_text(&mut m, "display_name", c.display_name.as_str());
    put(&mut m, "handles", render_handles(&c.handles));
    put_some(&mut m, "contact_email", &c.contact_email);
    put_some(&mut m, "payout_handle", &c.payout_handle);
    put_some(&mut m, "notes", &c.notes);
    put_text(&mut m, "created_at", c.created_at.as_str());
    put_text(&mut m, "updated_at", c.updated_at.as_str());
    assert(json::members(m@) =~= creator_json()(c.deep_view())->Object_0);
    object(m)
}

fn put_submission(s: &Submission) -> (m: Vec<(String, Json)>)
    ensures
        json::members(m@) == submission_members(s.deep_view()),
{
    let mut m: Vec<(String, Json)> = Vec::new();
    put_text(&mut m, "id", s.id.as_str());
    put_text(&mut m, "campaign_id", s.campaign_id.as_str());
    put_text(&mut m, "creator_id", s.creator_id.as_str());
    put_text(&mut m, "platform", s.platform.as_str());
    put_text(&mut m, "post_url", s.post_url.as_str());
    put_text(&mut m, "external_post_id", s.external_post_id.as_str());
    put_text(&mut m, "status", s.status.as_str());
    put_text(&mut m, "submitted_at", s.submitted_at.as_str());
    put_some(&mut m, "reviewed_at", &s.reviewed_at);
    put_some(&mut m, "rejection_reason", &s.rejection_reason);
    put_text(&mut m, "created_at", s.created_at.as_str());
    put_text(&mut m, "updated_at", s.updated_at.as_str());
    m
}

/// The submission, as it is sent.
pub fn render_submission(s: &Submission) -> (r: Json)
    ensures
        r.deep_view() == submission_json(s.deep_view()),
{
    object(put_submission(s))
}

/// The snapshot, as it is sent.
pub fn render_snapshot(s: &MetricSnapshot) -> (r: Json)
    ensures
        r.deep_view() == snapshot_json()(s.deep_view()),
{
    let mut m: Vec<(String, Json)> = Vec::new();
    put_int(&mut m, "id", s.id);
    put_text(&mut m, "submission_id", s.submission_id.as_str());
    put_text(&mut m, "captured_at", s.captured_at.as_str());
    put_int(&mut m, "views", s.views);
    put_int(&mut m, "likes", s.likes);
    put_int(&mut m, "comments", s.comments);
    put_int(&mut m, "shares", s.shares);
    put_int(&mut m, "saves", s.saves);
    put_text(&mut m, "source", s.source.as_str());
    assert(json::members(m@) =~= snapshot_json()(s.deep_view())->Object_0);
    object(m)
}

/// The payout, as it is sent.
pub fn render_payout(p: &Payout) -> (r: Json)
    ensures
        r.deep_view() == payout_json()(p.deep_view()),
{
    let mut m: Vec<(String, Json)> = Vec::new();
    put_text(&mut m, "id", p.id.as_str());
    put_text(&mut m, "campaign_id", p.campaign_id.as_str());
    put_text(&mut m, "creator_id", p.creator_id.as_str());
    put_some(&mut m, "submission_id", &p.submission_id);
    put_int(&mut m, "amount_cents", p.amount_cents);
    put_text(&mut m, "status", p.status.as_str());
    put_text(&mut m, "reason", p.reason.as_str());
    put_text(&mut m, "accrued_at", p.accrued_at.as_str());
    put_some(&mut m, "approved_at", &p.approved_at);
    put_some(&mut m, "paid_at", &p.paid_at);
    put_text(&mut m, "created_at", p.created_at.as_str());
    put_text(&mut m, "updated_at", p.updated_at.as_str());
    assert(json::members(m@) =~= payout_json()(p.deep_view())->Object_0);
    object(m)
}

/// The submission with its counters and its money, as it is sent.
pub fn render_with_metrics(w: &SubmissionWithMetrics) -> (r: Json)
    ensures
        r.deep_view() == with_metrics_json()(w.deep_view()),
{
    let mut m = put_submission(&w.submission);
    match &w.latest {
        Some(s) => put(&mut m, "latest", render_snapshot(s)),
        None => {},
    }
    put(&mut m, "accrued_cents", opt_int(w.accrued_cents));
    put(&mut m, "payout_status", opt_text(clone_opt(&w.payout_status)));
    object(m)
}

/// The counts by state, as they are sent.
pub fn render_counts(c: &SubmissionCounts) -> (r: Json)
    ensures
        r.deep_view() == counts_json(*c),
{
    let mut m: Vec<(String, Json)> = Vec::new();
    put_int(&mut m, "pending", c.pending);
    put_int(&mut m, "approved", c.approved);
    put_int(&mut m, "rejected", c.rejected);
    put_int(&mut m, "paid", c.paid);
    assert(json::members(m@) =~= counts_json(*c)->Object_0);
    object(m)
}

/// The summary, as it is sent.
pub fn render_summary(s: &CampaignSummary) -> (r: Json)
    ensures
        r.deep_view() == summary_json(*s),
{
    let mut m: Vec<(String, Json)> = Vec::new();
    put_int(&mut m, "budget_cents", s.budget_cents);
    put_int(&mut m, "accrued_cents", s.accrued_cents);
    put_int(&mut m, "approved_cents", s.approved_cents);
    put_int(&mut m, "paid_cents", s.paid_cents);
    put_int(&mut m, "committed_cents", s.committed_cents);
    put(&mut m, "remaining_cents", opt_int(s.remaining_cents));
    put_int(&mut m, "total_views", s.total_views);
    put_int(&mut m, "total_likes", s.total_likes);
    put_int(&mut m, "total_comments", s.total_comments);
    put(&mut m, "submissions", render_counts(&s.submissions));
    put_int(&mut m, "creators", s.creators);
    assert(json::members(m@) =~= summary_json(*s)->Object_0);
    object(m)
}

/// The line of the leaderboard, as it is sent.
pub fn render_board_row(b: &LeaderboardRow) -> (r: Json)
    ensures
        r.deep_view() == board_json()(b.deep_view()),
{
    let mut m: Vec<(String, Json)> = Vec::new();
    put_text(&mut m, "creator_id", b.creator_id.as_str());
    put_text(&mut m, "display_name", b.display_name.as_str());
    put_int(&mut m, "views", b.views);
    put_int(&mut m, "approved_submissions", b.approved_submissions);
    put_int(&mut m, "accrued_cents", b.accrued_cents);
    put_int(&mut m, "paid_cents", b.paid_cents);
    assert(json::members(m@) =~= board_json()(b.deep_view())->Object_0);
    object(m)
}

/// The totals, as they are sent.
pub fn render_totals(t: &CreatorTotals) -> (r: Json)
    ensures
        r.deep_view() == totals_json(*t),
{
    let mut m: Vec<(String, Json)> = Vec::new();
    put(&mut m, "submissions", render_counts(&t.submissions));
    put_int(&mut m, "accrued_cents", t.accrued_cents);
    put_int(&mut m, "paid_cents", t.paid_cents);
    assert(json::members(m@) =~= totals_json(*t)->Object_0);
    object(m)
}

/// The overview, as it is sent.
pub fn render_overview(o: &UgcOverview) -> (r: Json)
    ensures
        r.deep_view() == overview_json(*o),
{
    let mut m: Vec<(String, Json)> = Vec::new();
    put_int(&mut m, "campaigns", o.campaigns);
    put_int(&mut m, "creators", o.creators);
    put(&mut m, "submissions", render_counts(&o.submissions));
    put_int(&mut m, "accrued_cents", o.accrued_cents);
    put_int(&mut m, "paid_cents", o.paid_cents);
    assert(json::members(m@) =~= overview_json(*o)->Object_0);
    object(m)
}

fn render_pair(p: &(&'static str, &'static str)) -> (r: Json)
    ensures
        r.deep_view() == pair_json()(p.deep_view()),
{
    let mut v: Vec<Json> = Vec::new();
    v.push(Json::text(p.0));
    v.push(Json::text(p.1));
    assert(v.deep_view() =~= pair_json()(p.deep_view())->Array_0);
    array(v)
}

fn opt_str(s: Option<&'static str>) -> (r: Json)
    ensures
        r.deep_view() == json::text_or_null(s.deep_view()),
{
    match s {
        Some(t) => Json::text(t),
        None => Json::Null,
    }
}

/// The curated source, as it is sent.
pub fn render_source(s: &PlatformMetricSource) -> (r: Json)
    ensures
        r.deep_view() == source_json()(s.deep_view()),
{
    let mut m: Vec<(String, Json)> = Vec::new();
    put_text(&mut m, "platform", s.platform);
    put_text(&mut m, "label", s.label);
    put_text(&mut m, "action", s.action);
    put_text(&mut m, "id_arg", s.id_arg);
    put(&mut m, "extra_args", render_all(&s.extra_args, render_pair, Ghost(pair_json())));
    put_text(&mut m, "views", s.views);
    put_text(&mut m, "likes", s.likes);
    put_text(&mut m, "comments", s.comments);
    put(&mut m, "shares", opt_str(s.shares));
    put(&mut m, "saves", opt_str(s.saves));
    assert(json::members(m@) =~= source_json()(s.deep_view())->Object_0);
    object(m)
}

/// The members of the refresh report, as it is sent.
pub fn put_report(r: &SubmissionRefreshReport) -> (m: Vec<(String, Json)>)
    ensures
        json::members(m@) == report_members(r.deep_view()),
{
    let mut m: Vec<(String, Json)> = Vec::new();
    put_text(&mut m, "submission_id", r.submission_id.as_str());
    put_text(&mut m, "status", r.status.as_str());
    put(&mut m, "message", opt_text(clone_opt(&r.message)));
    put(&mut m, "connect_url", opt_text(clone_opt(&r.connect_url)));
    put(&mut m, "snapshot", render_some(&r.snapshot, render_snapshot, Ghost(snapshot_json())));
    m
}

/// The refresh report, as it is sent.
pub fn render_report(r: &SubmissionRefreshReport) -> (j: Json)
    ensures
        j.deep_view() == report_json()(r.deep_view()),
{
    object(put_report(r))
}

} // verus!
