//! The requests about campaigns and creators, each answered with a status and a body; and what
//! the app as a whole is asked.
use crate::clock;
use crate::clock::{new_id, now_iso};
use crate::composio;
use crate::composio::platform_metric_sources;
use crate::engine;
use crate::engine::{CampaignRefreshReport, EngineView, UgcEngine};
use crate::inputs;
use crate::inputs::{
    apply_campaign_at, apply_creator_at, new_campaign, new_creator, validate_campaign,
    CampaignBody, CampaignBodyView, CampaignQuery, CreatorBody, CreatorBodyView, CreatorQuery,
    ForceQuery, LimitQuery, SubmissionQuery,
};
use crate::json;
use crate::json::{object, put, put_int, put_text, Json, JsonView};
use crate::lists;
use crate::lists::WithMetricsView;
use crate::pricing;
use crate::records::{CampaignView, CreatorView, Submission};
use crate::render;
use crate::render::{
    render_all, render_board_row, render_campaign, render_creator, render_overview, render_report,
    render_source, render_summary, render_totals, render_with_metrics,
};
use crate::replies;
use crate::replies::{bad_request, internal, not_found, success, Reply, ReplyView};
use crate::reports;
use crate::reports::BoardView;
use crate::rows;
use crate::store::{StoreError, StoreView, UgcStore};
use crate::text;
use crate::text::{is_blank, push_i64};
use vstd::prelude::*;

verus! {

// ---- shapes of answers -------------------------------------------------------------------------

/// A success that holds one thing.
pub open spec fn holding(key: Seq<char>, value: JsonView) -> ReplyView {
    replies::done(JsonView::Object(seq![(key, value)]))
}

/// A success that holds two things.
pub open spec fn holding_both(
    key: Seq<char>,
    value: JsonView,
    other_key: Seq<char>,
    other: JsonView,
) -> ReplyView {
    replies::done(JsonView::Object(seq![(key, value), (other_key, other)]))
}

pub(crate) fn hold(key: &str, value: Json) -> (r: Reply)
    ensures
        r.deep_view() == holding(key@, value.deep_view()),
{
    let mut m: Vec<(String, Json)> = Vec::new();
    put(&mut m, key, value);
    assert(json::members(m@) =~= seq![(key@, value.deep_view())]);
    success(object(m))
}

pub(crate) fn hold_both(key: &str, value: Json, other_key: &str, other: Json) -> (r: Reply)
    ensures
        r.deep_view() == holding_both(key@, value.deep_view(), other_key@, other.deep_view()),
{
    let mut m: Vec<(String, Json)> = Vec::new();
    put(&mut m, key, value);
    put(&mut m, other_key, other);
    assert(json::members(m@) =~= seq![
        (key@, value.deep_view()),
        (other_key@, other.deep_view()),
    ]);
    success(object(m))
}

/// What a caller is told of a deletion.
pub open spec fn deleted_reply(gone: bool, what: Seq<char>) -> ReplyView {
    if gone {
        holding("ok"@, JsonView::Bool(true))
    } else {
        replies::missing(what)
    }
}

pub(crate) fn deleted(gone: bool, what: &str) -> (r: Reply)
    ensures
        r.deep_view() == deleted_reply(gone, what@),
{
    if gone {
        hold("ok", Json::Bool(true))
    } else {
        not_found(what)
    }
}

// ---- health, overview, platforms ------------------------------------------------------------

/// What the readiness probe is answered.
pub open spec fn health_reply(s: StoreView) -> ReplyView {
    if reports::count_fits(s.campaign_count()) {
        holding_both(
            "ok"@,
            JsonView::Bool(true),
            "campaignCount"@,
            JsonView::Int(s.campaign_count() as i64),
        )
    } else {
        ReplyView {
            status: 503,
            body: JsonView::Object(
                seq![
                    ("ok"@, JsonView::Bool(false)),
                    ("error"@, JsonView::Text(StoreError::IntegerOverflow.text())),
                ],
            ),
        }
    }
}

/// `GET /health`: the store is readable. It tells no campaign data.
pub fn health(store: &UgcStore) -> (r: Reply)
    ensures
        r.deep_view() == health_reply(store.deep_view()),
{
    match store.count_campaigns() {
        Ok(n) => hold_both("ok", Json::Bool(true), "campaignCount", Json::Int(n)),
        Err(e) => {
            let mut m: Vec<(String, Json)> = Vec::new();
            put(&mut m, "ok", Json::Bool(false));
            put_text(&mut m, "error", e.message().as_str());
            assert(json::members(m@) =~= health_reply(store.deep_view()).body->Object_0);
            Reply { status: 503, body: object(m) }
        },
    }
}

/// What the first paint is answered.
pub open spec fn overview_reply(s: StoreView) -> ReplyView {
    match s.overview() {
        Ok(o) => replies::done(render::overview_json(o)),
        Err(e) => replies::failed(500, e.text()),
    }
}

/// `GET /`: counts and money across every campaign.
pub fn overview(store: &UgcStore) -> (r: Reply)
    ensures
        r.deep_view() == overview_reply(store.deep_view()),
{
    match store.overview() {
        Ok(o) => success(render_overview(&o)),
        Err(e) => internal(e.message().as_str()),
    }
}

/// `GET /platforms`: the curated sources, and whether a Composio key resolves at all.
pub fn list_platforms(configured: bool) -> (r: Reply)
    ensures
        r.deep_view() == holding_both(
            "platforms"@,
            JsonView::Array(composio::curated().map_values(render::source_json())),
            "composio_configured"@,
            JsonView::Bool(configured),
        ),
{
    let sources = platform_metric_sources();
    hold_both(
        "platforms",
        render_all(&sources, render_source, Ghost(render::source_json())),
        "composio_configured",
        Json::Bool(configured),
    )
}

// ---- campaigns -----------------------------------------------------------------------------------

/// `GET /campaigns`: the campaigns, newest update first, optionally of one status.
pub fn list_campaigns(store: &UgcStore, q: &CampaignQuery) -> (r: Reply)
    ensures
        exists|out: Seq<CampaignView>|
            rows::ranking(
                rows::picked(
                    store.deep_view().campaigns,
                    lists::campaign_listed(inputs::campaign_status_asked(q.status.deep_view())),
                ),
                out,
                lists::campaign_order(),
            ) && r.deep_view() == holding(
                "campaigns"@,
                JsonView::Array(#[trigger] out.map_values(render::campaign_json())),
            ),
{
    let out = store.list_campaigns(q.status_filter());
    hold("campaigns", render_all(&out, render_campaign, Ghost(render::campaign_json())))
}

impl EngineView {
    /// Creating a campaign.
    pub open spec fn created_campaign(
        self,
        body: CampaignBodyView,
        id: Seq<char>,
        created_at: Seq<char>,
        updated_at: Seq<char>,
    ) -> (EngineView, ReplyView) {
        match inputs::campaign_fault(body) {
            Some(e) => (self, replies::failed(400, e)),
            None => {
                let c = inputs::campaign_from(
                    body,
                    inputs::blank_campaign(id, created_at),
                    updated_at,
                );
                (
                    EngineView { store: self.store.upsert_campaign(c), ..self },
                    holding("campaign"@, render::campaign_json()(c)),
                )
            },
        }
    }

    /// Updating a campaign.
    pub open spec fn updated_campaign(
        self,
        id: Seq<char>,
        body: CampaignBodyView,
        now: Seq<char>,
    ) -> (EngineView, ReplyView) {
        match inputs::campaign_fault(body) {
            Some(e) => (self, replies::failed(400, e)),
            None => match self.store.read_campaign(id) {
                Err(e) => (self, replies::failed(500, e.text())),
                Ok(None) => (self, replies::missing("campaign"@)),
                Ok(Some(c)) => {
                    let campaign = inputs::campaign_from(body, c, now);
                    let next = EngineView { store: self.store.upsert_campaign(campaign), ..self };
                    (
                        next,
                        holding_both(
                            "campaign"@,
                            render::campaign_json()(campaign),
                            "repricing"@,
                            repricing_json(next.store, id),
                        ),
                    )
                },
            },
        }
    }
}

/// Which money the next accrual pass re-prices and which is signed off, in cents.
pub open spec fn repricing_json(s: StoreView, id: Seq<char>) -> JsonView {
    let (accrued, frozen) = match s.summary(id) {
        Ok(Some(t)) => (t.accrued_cents as int, t.approved_cents + t.paid_cents),
        _ => (0, 0),
    };
    JsonView::Object(
        seq![
            ("accrued_cents"@, json::integer(accrued)),
            ("frozen_cents"@, json::integer(frozen)),
            ("note"@, JsonView::Text(repricing_note())),
        ],
    )
}

/// What an edit of a campaign's rule does to its payouts.
pub open spec fn repricing_note() -> Seq<char> {
    "accrued payouts are re-priced on the next accrual pass; approved and paid payouts keep the amount that was signed off"@
}

fn repricing(store: &UgcStore, id: &str) -> (r: Json)
    requires
        store.deep_view().wf(),
    ensures
        r.deep_view() == repricing_json(store.deep_view(), id@),
{
    let (accrued, frozen): (i128, i128) = match store.campaign_summary(id) {
        Ok(Some(t)) => (t.accrued_cents as i128, t.approved_cents as i128 + t.paid_cents as i128),
        _ => (0, 0),
    };
    let mut m: Vec<(String, Json)> = Vec::new();
    put(&mut m, "accrued_cents", Json::number(accrued));
    put(&mut m, "frozen_cents", Json::number(frozen));
    put_text(
        &mut m,
        "note",
        "accrued payouts are re-priced on the next accrual pass; approved and paid payouts keep the amount that was signed off",
    );
    assert(json::members(m@) =~= repricing_json(store.deep_view(), id@)->Object_0);
    object(m)
}

/// Creates a campaign under the given id and stamps.
pub fn create_campaign_at(
    engine: &mut UgcEngine,
    body: CampaignBody,
    id: &str,
    created_at: &str,
    updated_at: &str,
) -> (r: Reply)
    requires
        old(engine).deep_view().store.wf(),
    ensures
        (final(engine).deep_view(), r.deep_view()) == old(engine).deep_view().created_campaign(
            body.deep_view(),
            id@,
            created_at@,
            updated_at@,
        ),
        final(engine).deep_view().store.wf(),
{
    match validate_campaign(&body) {
        Err(e) => {
            return bad_request(e.as_str());
        },
        Ok(_) => {},
    }
    let campaign = apply_campaign_at(body, new_campaign(id, created_at), updated_at);
    engine.store.upsert_campaign(&campaign);
    hold("campaign", render_campaign(&campaign))
}

/// `POST /campaigns`: creates a campaign.
pub fn create_campaign(engine: &mut UgcEngine, body: CampaignBody) -> (r: Reply)
    requires
        old(engine).deep_view().store.wf(),
    ensures
        exists|id: Seq<char>, created_at: Seq<char>, updated_at: Seq<char>|
            clock::is_fresh("cmp"@, id) && clock::is_stamp(created_at)
                && clock::is_stamp(updated_at)
                && (final(engine).deep_view(), r.deep_view()) == #[trigger] old(
                engine,
            ).deep_view().created_campaign(body.deep_view(), id, created_at, updated_at),
        final(engine).deep_view().store.wf(),
{
    let created_at = now_iso();
    let id = new_id("cmp");
    let updated_at = now_iso();
    create_campaign_at(engine, body, id.as_str(), created_at.as_str(), updated_at.as_str())
}

/// `GET /campaigns/{id}`: one campaign's full record.
pub fn get_campaign(store: &UgcStore, id: &str) -> (r: Reply)
    ensures
        r.deep_view() == match store.deep_view().read_campaign(id@) {
            Ok(Some(c)) => holding("campaign"@, render::campaign_json()(c)),
            Ok(None) => replies::missing("campaign"@),
            Err(e) => replies::failed(500, e.text()),
        },
{
    match store.get_campaign(id) {
        Ok(Some(c)) => hold("campaign", render_campaign(&c)),
        Ok(None) => not_found("campaign"),
        Err(e) => internal(e.message().as_str()),
    }
}

/// Updates a campaign at the given time.
pub fn update_campaign_at(
    engine: &mut UgcEngine,
    id: &str,
    body: CampaignBody,
    now: &str,
) -> (r: Reply)
    requires
        old(engine).deep_view().store.wf(),
    ensures
        (final(engine).deep_view(), r.deep_view()) == old(engine).deep_view().updated_campaign(
            id@,
            body.deep_view(),
            now@,
        ),
        final(engine).deep_view().store.wf(),
{
    match validate_campaign(&body) {
        Err(e) => {
            return bad_request(e.as_str());
        },
        Ok(_) => {},
    }
    let existing = match engine.store.get_campaign(id) {
        Ok(Some(c)) => c,
        Ok(None) => {
            return not_found("campaign");
        },
        Err(e) => {
            return internal(e.message().as_str());
        },
    };
    let campaign = apply_campaign_at(body, existing, now);
    engine.store.upsert_campaign(&campaign);
    hold_both(
        "campaign",
        render_campaign(&campaign),
        "repricing",
        repricing(&engine.store, id),
    )
}

/// `PUT /campaigns/{id}`: updates a campaign, and says which money the new rule can re-price.
pub fn update_campaign(engine: &mut UgcEngine, id: &str, body: CampaignBody) -> (r: Reply)
    requires
        old(engine).deep_view().store.wf(),
    ensures
        exists|now: Seq<char>|
            clock::is_stamp(now) && (final(engine).deep_view(), r.deep_view()) == #[trigger] old(
                engine,
            ).deep_view().updated_campaign(id@, body.deep_view(), now),
        final(engine).deep_view().store.wf(),
{
    let now = now_iso();
    update_campaign_at(engine, id, body, now.as_str())
}

/// `DELETE /campaigns/{id}`: removes a campaign and everything under it.
pub fn delete_campaign(engine: &mut UgcEngine, id: &str) -> (r: Reply)
    requires
        old(engine).deep_view().store.wf(),
    ensures
        final(engine).deep_view() == (EngineView {
            store: old(engine).deep_view().store.delete_campaign(id@),
            ..old(engine).deep_view()
        }),
        r.deep_view() == deleted_reply(
            old(engine).deep_view().store.has_campaign(id@),
            "campaign"@,
        ),
        final(engine).deep_view().store.wf(),
{
    deleted(engine.store.delete_campaign(id), "campaign")
}

/// What a summary is answered.
pub open spec fn summary_reply(s: StoreView, id: Seq<char>) -> ReplyView {
    match s.summary(id) {
        Ok(Some(t)) => replies::done(render::summary_json(t)),
        Ok(None) => replies::missing("campaign"@),
        Err(e) => replies::failed(500, e.text()),
    }
}

/// `GET /campaigns/{id}/summary`: spend against budget.
pub fn campaign_summary(store: &UgcStore, id: &str) -> (r: Reply)
    requires
        store.deep_view().wf(),
    ensures
        r.deep_view() == summary_reply(store.deep_view(), id@),
{
    match store.campaign_summary(id) {
        Ok(Some(t)) => success(render_summary(&t)),
        Ok(None) => not_found("campaign"),
        Err(e) => internal(e.message().as_str()),
    }
}

/// `GET /campaigns/{id}/leaderboard`: its creators ranked by their newest counters.
pub fn campaign_leaderboard(store: &UgcStore, id: &str, q: &LimitQuery) -> (r: Reply)
    requires
        store.deep_view().wf(),
    ensures
        rows::every(store.deep_view().board(id@), reports::board_fits()) ==> exists|
            out: Seq<BoardView>,
        |
            rows::first_page(
                store.deep_view().board(id@),
                out,
                reports::board_order(),
                pricing::page_size(inputs::limit_asked(q.limit.deep_view())),
            ) && r.deep_view() == holding(
                "leaderboard"@,
                JsonView::Array(#[trigger] out.map_values(render::board_json())),
            ),
        !rows::every(store.deep_view().board(id@), reports::board_fits()) ==> r.deep_view()
            == replies::failed(500, StoreError::IntegerOverflow.text()),
{
    match store.campaign_leaderboard(id, q.asked()) {
        Ok(out) => hold(
            "leaderboard",
            render_all(&out, render_board_row, Ghost(render::board_json())),
        ),
        Err(e) => internal(e.message().as_str()),
    }
}

/// A page of submissions with their counters and money.
pub open spec fn is_submission_page(
    s: StoreView,
    filter: lists::SubmissionFilterView,
    out: Seq<WithMetricsView>,
) -> bool {
    rows::first_page(
        rows::picked(s.submissions, lists::metrics_listed(s, filter)),
        out,
        lists::metrics_order(),
        pricing::page_size(filter.limit),
    )
}

/// `GET /campaigns/{id}/submissions`: this campaign's submissions, whatever campaign the query
/// names.
pub fn campaign_submissions(store: &UgcStore, id: &str, q: SubmissionQuery) -> (r: Reply)
    requires
        store.deep_view().wf(),
    ensures
        exists|out: Seq<WithMetricsView>|
            is_submission_page(
                store.deep_view(),
                (lists::SubmissionFilterView {
                    campaign_id: Some(id@),
                    ..q.deep_view().filter()
                }),
                out,
            ) && r.deep_view() == holding(
                "submissions"@,
                JsonView::Array(#[trigger] out.map_values(render::with_metrics_json())),
            ),
{
    let mut filter = q.into_filter();
    filter.campaign_id = Some(id.to_string());
    let out = store.list_submissions_with_metrics(&filter);
    hold("submissions", render_all(&out, render_with_metrics, Ghost(render::with_metrics_json())))
}

/// `POST /campaigns/{id}/refresh`, before any counter is fetched: every approved submission, in
/// the order in which they are visited.
pub fn plan_campaign_refresh(engine: &UgcEngine, id: &str) -> (r: Result<Vec<Submission>, Reply>)
    ensures
        match engine.deep_view().store.read_campaign(id@) {
            Err(e) => r is Err && r->Err_0.deep_view() == replies::failed(500, e.text()),
            Ok(None) => r is Err && r->Err_0.deep_view() == replies::missing("campaign"@),
            Ok(Some(_)) => r is Ok && rows::ranking(
                rows::picked(
                    engine.deep_view().store.submissions,
                    lists::submission_listed(engine::approved_in(id@)),
                ),
                r->Ok_0.deep_view(),
                lists::submission_order(),
            ),
        },
{
    match engine.store.get_campaign(id) {
        Ok(Some(_)) => Ok(engine.refresh_campaign(id)),
        Ok(None) => Err(not_found("campaign")),
        Err(e) => Err(internal(e.message().as_str())),
    }
}

/// `POST /campaigns/{id}/refresh`, once every submission was visited: one line per submission,
/// and the counts. One platform being down never fails the batch.
pub fn campaign_refresh_reply(report: &CampaignRefreshReport) -> (r: Reply)
    ensures
        r.deep_view() == holding_both(
            "results"@,
            JsonView::Array(report.results.deep_view().map_values(render::report_json())),
            "counts"@,
            JsonView::Object(
                seq![
                    ("ok"@, json::integer(report.counts.ok as int)),
                    ("needs_connection"@, json::integer(report.counts.needs_connection as int)),
                    ("error"@, json::integer(report.counts.error as int)),
                ],
            ),
        ),
{
    let mut m: Vec<(String, Json)> = Vec::new();
    put(&mut m, "ok", Json::number(report.counts.ok as i128));
    put(&mut m, "needs_connection", Json::number(report.counts.needs_connection as i128));
    put(&mut m, "error", Json::number(report.counts.error as i128));
    assert(json::members(m@) =~= seq![
        ("ok"@, json::integer(report.counts.ok as int)),
        ("needs_connection"@, json::integer(report.counts.needs_connection as int)),
        ("error"@, json::integer(report.counts.error as int)),
    ]);
    hold_both(
        "results",
        render_all(&report.results, render_report, Ghost(render::report_json())),
        "counts",
        object(m),
    )
}

// ---- creators ------------------------------------------------------------------------------------

/// `GET /creators`: the roster, optionally matched by name or contact email.
pub fn list_creators(store: &UgcStore, q: &CreatorQuery) -> (r: Reply)
    ensures
        lists::search_refused(store.deep_view(), q.q.deep_view()) ==> r.deep_view()
            == replies::failed(500, StoreError::PatternTooComplex.text()),
        !lists::search_refused(store.deep_view(), q.q.deep_view()) ==> exists|
            out: Seq<CreatorView>,
        |
            rows::ranking(
                rows::picked(
                    store.deep_view().creators,
                    lists::creator_listed(q.q.deep_view()),
                ),
                out,
                lists::creator_order(),
            ) && r.deep_view() == holding(
                "creators"@,
                JsonView::Array(#[trigger] out.map_values(render::creator_json())),
            ),
{
    let asked: Option<&str> = match &q.q {
        Some(s) => Some(s.as_str()),
        None => None,
    };
    match store.list_creators(asked) {
        Ok(out) => hold(
            "creators",
            render_all(&out, render_creator, Ghost(render::creator_json())),
        ),
        Err(e) => internal(e.message().as_str()),
    }
}

impl EngineView {
    /// Adding a creator.
    pub open spec fn created_creator(
        self,
        body: CreatorBodyView,
        id: Seq<char>,
        created_at: Seq<char>,
        updated_at: Seq<char>,
    ) -> (EngineView, ReplyView) {
        if text::blank(body.display_name) {
            (self, replies::failed(400, "display_name is required"@))
        } else {
            let c = inputs::creator_from(body, inputs::blank_creator(id, created_at), updated_at);
            (
                EngineView { store: self.store.upsert_creator(c), ..self },
                holding("creator"@, render::creator_json()(c)),
            )
        }
    }

    /// Updating a creator.
    pub open spec fn updated_creator(
        self,
        id: Seq<char>,
        body: CreatorBodyView,
        now: Seq<char>,
    ) -> (EngineView, ReplyView) {
        if text::blank(body.display_name) {
            (self, replies::failed(400, "display_name is required"@))
        } else {
            match self.store.read_creator(id) {
                Err(e) => (self, replies::failed(500, e.text())),
                Ok(None) => (self, replies::missing("creator"@)),
                Ok(Some(existing)) => {
                    let c = inputs::creator_from(body, existing, now);
                    (
                        EngineView { store: self.store.upsert_creator(c), ..self },
                        holding("creator"@, render::creator_json()(c)),
                    )
                },
            }
        }
    }

    /// Removing a creator: refused while they have submissions, unless forced.
    pub open spec fn deleted_creator(self, id: Seq<char>, force: bool) -> (EngineView, ReplyView) {
        let n = rows::total(self.store.submissions, reports::theirs(id));
        if !force && !rows::fits(n) {
            (self, replies::failed(500, StoreError::IntegerOverflow.text()))
        } else if !force && n > 0 {
            (self, still_has_reply(n as i64))
        } else {
            (
                EngineView { store: self.store.delete_creator(id, force), ..self },
                deleted_reply(self.store.has_creator(id), "creator"@),
            )
        }
    }
}

/// What a caller is told who deletes a creator that still has submissions.
pub open spec fn still_has_reply(n: i64) -> ReplyView {
    ReplyView {
        status: 409,
        body: JsonView::Object(
            seq![
                (
                    "error"@,
                    JsonView::Text(
                        "creator still has "@ + text::int_text(n as int)
                            + " submission(s); pass ?force=true to delete them and their payouts too"@,
                    ),
                ),
                ("submissions"@, JsonView::Int(n)),
            ],
        ),
    }
}

fn still_has(n: i64) -> (r: Reply)
    ensures
        r.deep_view() == still_has_reply(n),
{
    let mut e = "creator still has ".to_string();
    push_i64(&mut e, n);
    e.append(" submission(s); pass ?force=true to delete them and their payouts too");
    let mut m: Vec<(String, Json)> = Vec::new();
    put_text(&mut m, "error", e.as_str());
    put_int(&mut m, "submissions", n);
    assert(json::members(m@) =~= still_has_reply(n).body->Object_0);
    Reply { status: 409, body: object(m) }
}

/// Adds a creator under the given id and stamps.
pub fn create_creator_at(
    engine: &mut UgcEngine,
    body: CreatorBody,
    id: &str,
    created_at: &str,
    updated_at: &str,
) -> (r: Reply)
    requires
        old(engine).deep_view().store.wf(),
    ensures
        (final(engine).deep_view(), r.deep_view()) == old(engine).deep_view().created_creator(
            body.deep_view(),
            id@,
            created_at@,
            updated_at@,
        ),
        final(engine).deep_view().store.wf(),
{
    if is_blank(body.display_name.as_str()) {
        return bad_request("display_name is required");
    }
    let creator = apply_creator_at(body, new_creator(id, created_at), updated_at);
    engine.store.upsert_creator(&creator);
    hold("creator", render_creator(&creator))
}

/// `POST /creators`: adds a creator.
pub fn create_creator(engine: &mut UgcEngine, body: CreatorBody) -> (r: Reply)
    requires
        old(engine).deep_view().store.wf(),
    ensures
        exists|id: Seq<char>, created_at: Seq<char>, updated_at: Seq<char>|
            clock::is_fresh("crt"@, id) && clock::is_stamp(created_at)
                && clock::is_stamp(updated_at)
                && (final(engine).deep_view(), r.deep_view()) == #[trigger] old(
                engine,
            ).deep_view().created_creator(body.deep_view(), id, created_at, updated_at),
        final(engine).deep_view().store.wf(),
{
    let created_at = now_iso();
    let id = new_id("crt");
    let updated_at = now_iso();
    create_creator_at(engine, body, id.as_str(), created_at.as_str(), updated_at.as_str())
}

/// What a creator's record is answered.
pub open spec fn creator_reply(s: StoreView, id: Seq<char>) -> ReplyView {
    match s.read_creator(id) {
        Err(e) => replies::failed(500, e.text()),
        Ok(None) => replies::missing("creator"@),
        Ok(Some(c)) => match s.creator_totals(id) {
            Ok(t) => holding_both(
                "creator"@,
                render::creator_json()(c),
                "totals"@,
                render::totals_json(t),
            ),
            Err(e) => replies::failed(500, e.text()),
        },
    }
}

/// `GET /creators/{id}`: one creator with their totals across campaigns.
pub fn get_creator(store: &UgcStore, id: &str) -> (r: Reply)
    ensures
        r.deep_view() == creator_reply(store.deep_view(), id@),
{
    let creator = match store.get_creator(id) {
        Ok(Some(c)) => c,
        Ok(None) => {
            return not_found("creator");
        },
        Err(e) => {
            return internal(e.message().as_str());
        },
    };
    match store.creator_totals(id) {
        Ok(t) => hold_both("creator", render_creator(&creator), "totals", render_totals(&t)),
        Err(e) => internal(e.message().as_str()),
    }
}

/// Updates a creator at the given time.
pub fn update_creator_at(engine: &mut UgcEngine, id: &str, body: CreatorBody, now: &str) -> (r:
    Reply)
    requires
        old(engine).deep_view().store.wf(),
    ensures
        (final(engine).deep_view(), r.deep_view()) == old(engine).deep_view().updated_creator(
            id@,
            body.deep_view(),
            now@,
        ),
        final(engine).deep_view().store.wf(),
{
    if is_blank(body.display_name.as_str()) {
        return bad_request("display_name is required");
    }
    let existing = match engine.store.get_creator(id) {
        Ok(Some(c)) => c,
        Ok(None) => {
            return not_found("creator");
        },
        Err(e) => {
            return internal(e.message().as_str());
        },
    };
    let creator = apply_creator_at(body, existing, now);
    engine.store.upsert_creator(&creator);
    hold("creator", render_creator(&creator))
}

/// `PUT /creators/{id}`: updates a creator.
pub fn update_creator(engine: &mut UgcEngine, id: &str, body: CreatorBody) -> (r: Reply)
    requires
        old(engine).deep_view().store.wf(),
    ensures
        exists|now: Seq<char>|
            clock::is_stamp(now) && (final(engine).deep_view(), r.deep_view()) == #[trigger] old(
                engine,
            ).deep_view().updated_creator(id@, body.deep_view(), now),
        final(engine).deep_view().store.wf(),
{
    let now = now_iso();
    update_creator_at(engine, id, body, now.as_str())
}

/// `DELETE /creators/{id}`: removes a creator. Refusing by default is the point: a cascade would
/// delete paid payout rows and corrupt every campaign they belong to.
pub fn delete_creator(engine: &mut UgcEngine, id: &str, q: &ForceQuery) -> (r: Reply)
    requires
        old(engine).deep_view().store.wf(),
    ensures
        (final(engine).deep_view(), r.deep_view()) == old(engine).deep_view().deleted_creator(
            id@,
            inputs::forced(q.force.deep_view()),
        ),
        final(engine).deep_view().store.wf(),
{
    let force = q.is_forced();
    if !force {
        match engine.store.count_submissions_for_creator(id) {
            Ok(n) => {
                if n > 0 {
                    return still_has(n);
                }
            },
            Err(e) => {
                return internal(e.message().as_str());
            },
        }
    }
    deleted(engine.store.delete_creator(id, force), "creator")
}

} // verus!
