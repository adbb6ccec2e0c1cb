//! The requests about submissions, each answered with a status and a body.
use crate::api;
use crate::api::{deleted, hold, hold_both};
use crate::clock;
use crate::clock::{new_id, now_iso};
use crate::composio::MetricSample;
use crate::engine;
use crate::engine::{
    EngineView, RefreshError, RefreshErrorView, RefreshOutcome, RefreshOutcomeView,
    SubmissionRefreshReport, UgcEngine,
};
use crate::inputs;
use crate::inputs::{
    normalize_platform, read_decision, LimitQuery, MetricsBody, ReviewBody, SubmissionBody,
    SubmissionBodyView, SubmissionEditBody, SubmissionQuery,
};
use crate::json;
use crate::json::{object, put, put_text, Json, JsonView};
use crate::lists;
use crate::lists::{SubmissionWithMetrics, WithMetricsView};
use crate::pricing;
use crate::records::{PayoutStatus, PayoutView, SnapshotView, Submission, SubmissionStatus, SubmissionView};
use crate::render;
use crate::render::{
    put_report, render_all, render_payout, render_snapshot, render_some, render_submission,
    render_with_metrics,
};
use crate::replies;
use crate::replies::{
    bad_request, duplicate_post, failure, internal, not_found, success, Reply, ReplyView,
};
use crate::rows;
use crate::store::{StoreView, UgcStore, WriteOutcome};
use crate::text;
use crate::text::{fold, is_blank};
use crate::weburl;
use crate::weburl::{parse_post_id, reparse_url, screen_post_url, UrlView, WebUrl};
use vstd::prelude::*;

verus! {

/// `GET /submissions`: submissions across campaigns, newest first, with counters and money.
pub fn list_submissions(store: &UgcStore, q: SubmissionQuery) -> (r: Reply)
    requires
        store.deep_view().wf(),
    ensures
        exists|out: Seq<WithMetricsView>|
            api::is_submission_page(store.deep_view(), q.deep_view().filter(), out)
                && r.deep_view() == api::holding(
                "submissions"@,
                JsonView::Array(#[trigger] out.map_values(render::with_metrics_json())),
            ),
{
    let filter = q.into_filter();
    let out = store.list_submissions_with_metrics(&filter);
    hold("submissions", render_all(&out, render_with_metrics, Ghost(render::with_metrics_json())))
}

// ---- recording ---------------------------------------------------------------------------------

/// The post id that a URL yields on a platform, or nothing.
pub open spec fn post_id_or_none(platform: Seq<char>, url: UrlView) -> Seq<char> {
    match weburl::post_id(platform, url) {
        Some(id) => id,
        None => Seq::empty(),
    }
}

fn post_id_or_empty(platform: &str, url: &WebUrl) -> (r: String)
    ensures
        r@ == post_id_or_none(platform@, url.deep_view()),
{
    match parse_post_id(platform, url) {
        Some(id) => id,
        None => String::new(),
    }
}

/// The submission that a body records for a screened URL.
pub open spec fn recorded(
    body: SubmissionBodyView,
    url: UrlView,
    id: Seq<char>,
    now: Seq<char>,
) -> SubmissionView {
    let platform = text::folded(body.platform);
    SubmissionView {
        id,
        campaign_id: body.campaign_id,
        creator_id: body.creator_id,
        platform,
        post_url: url.href,
        external_post_id: post_id_or_none(platform, url),
        status: SubmissionStatus::Pending,
        submitted_at: now,
        reviewed_at: None,
        rejection_reason: None,
        created_at: now,
        updated_at: now,
    }
}

/// What a new submission is refused with, if it is: its platform, its URL, its campaign or its
/// creator is wrong, or one of the last two cannot be read.
pub open spec fn submission_fault(
    s: StoreView,
    body: SubmissionBodyView,
    screened: Result<UrlView, Seq<char>>,
) -> Option<ReplyView> {
    if text::blank(body.platform) {
        Some(replies::failed(400, "platform is required"@))
    } else if screened is Err {
        Some(replies::failed(400, screened->Err_0))
    } else {
        match (s.read_campaign(body.campaign_id), s.read_creator(body.creator_id)) {
            (Err(e), _) => Some(replies::failed(500, e.text())),
            (Ok(None), _) => Some(replies::failed(400, "no campaign with that campaign_id"@)),
            (Ok(Some(_)), Err(e)) => Some(replies::failed(500, e.text())),
            (Ok(Some(_)), Ok(None)) => Some(
                replies::failed(400, "no creator with that creator_id"@),
            ),
            (Ok(Some(_)), Ok(Some(_))) => None,
        }
    }
}

/// What a write of a submission is answered.
pub open spec fn written_reply(outcome: WriteOutcome, s: SubmissionView) -> ReplyView {
    match outcome {
        WriteOutcome::Written => api::holding("submission"@, render::submission_json(s)),
        WriteOutcome::DuplicatePost => replies::taken(),
        WriteOutcome::NotFound => replies::missing("submission"@),
    }
}

fn written(outcome: WriteOutcome, s: &Submission) -> (r: Reply)
    ensures
        r.deep_view() == written_reply(outcome, s.deep_view()),
{
    match outcome {
        WriteOutcome::Written => hold("submission", render_submission(s)),
        WriteOutcome::DuplicatePost => duplicate_post(),
        WriteOutcome::NotFound => not_found("submission"),
    }
}

impl EngineView {
    /// Recording a submission whose URL was screened.
    pub open spec fn recorded_submission(
        self,
        body: SubmissionBodyView,
        screened: Result<UrlView, Seq<char>>,
        id: Seq<char>,
        now: Seq<char>,
    ) -> (EngineView, ReplyView) {
        match submission_fault(self.store, body, screened) {
            Some(refusal) => (self, refusal),
            None => {
                let s = recorded(body, screened->Ok_0, id, now);
                (
                    self.create_submission(s),
                    written_reply(self.store.insert_outcome(s), s),
                )
            },
        }
    }
}

/// Records a submission whose URL was screened, under the given id and stamp.
pub fn record_screened_submission(
    engine: &mut UgcEngine,
    body: SubmissionBody,
    screened: Result<WebUrl, String>,
    id: &str,
    now: &str,
) -> (r: Reply)
    requires
        old(engine).deep_view().store.wf(),
    ensures
        (final(engine).deep_view(), r.deep_view()) == old(engine).deep_view().recorded_submission(
            body.deep_view(),
            weburl::url_result(screened),
            id@,
            now@,
        ),
        final(engine).deep_view().store.wf(),
{
    if is_blank(body.platform.as_str()) {
        return bad_request("platform is required");
    }
    let platform = normalize_platform(body.platform.as_str());
    let url = match screened {
        Ok(u) => u,
        Err(e) => {
            return bad_request(e.as_str());
        },
    };
    match engine.store.get_campaign(body.campaign_id.as_str()) {
        Ok(Some(_)) => {},
        Ok(None) => {
            return bad_request("no campaign with that campaign_id");
        },
        Err(e) => {
            return internal(e.message().as_str());
        },
    }
    match engine.store.get_creator(body.creator_id.as_str()) {
        Ok(Some(_)) => {},
        Ok(None) => {
            return bad_request("no creator with that creator_id");
        },
        Err(e) => {
            return internal(e.message().as_str());
        },
    }
    let submission = Submission {
        id: id.to_string(),
        campaign_id: body.campaign_id,
        creator_id: body.creator_id,
        external_post_id: post_id_or_empty(platform.as_str(), &url),
        platform,
        post_url: url.href,
        status: SubmissionStatus::Pending,
        submitted_at: now.to_string(),
        reviewed_at: None,
        rejection_reason: None,
        created_at: now.to_string(),
        updated_at: now.to_string(),
    };
    let outcome = engine.create_submission(&submission);
    written(outcome, &submission)
}

/// `POST /submissions`: records a submission; a duplicate post is refused.
pub fn create_submission(engine: &mut UgcEngine, body: SubmissionBody) -> (r: Reply)
    requires
        old(engine).deep_view().store.wf(),
    ensures
        exists|id: Seq<char>, now: Seq<char>|
            clock::is_fresh("sub"@, id) && clock::is_stamp(now)
                && (final(engine).deep_view(), r.deep_view()) == #[trigger] old(
                engine,
            ).deep_view().recorded_submission(
                body.deep_view(),
                weburl::screened_text(body.post_url@),
                id,
                now,
            ),
        final(engine).deep_view().store.wf(),
{
    let screened = screen_post_url(body.post_url.as_str());
    let now = now_iso();
    let id = new_id("sub");
    record_screened_submission(engine, body, screened, id.as_str(), now.as_str())
}

// ---- reading -----------------------------------------------------------------------------------

/// One submission with its newest counters and its money, as the lists show it.
pub open spec fn with_metrics_of(s: StoreView, submission: SubmissionView) -> WithMetricsView {
    WithMetricsView {
        submission,
        latest: s.latest(submission.id),
        accrued_cents: match s.payout_of(submission.id) {
            Some(p) => Some(p.amount_cents),
            None => None,
        },
        payout_status: match s.payout_of(submission.id) {
            Some(p) => Some(p.status.text()),
            None => None,
        },
    }
}

/// What one submission is answered: the row, and its payout beside it.
pub open spec fn submission_reply(s: StoreView, id: Seq<char>) -> ReplyView {
    match s.submission(id) {
        None => replies::missing("submission"@),
        Some(submission) => api::holding_both(
            "submission"@,
            render::with_metrics_json()(with_metrics_of(s, submission)),
            "payout"@,
            render::or_null(s.payout_of(id), render::payout_json()),
        ),
    }
}

/// `GET /submissions/{id}`: one submission with its newest snapshot and its payout row.
pub fn get_submission(store: &UgcStore, id: &str) -> (r: Reply)
    requires
        store.deep_view().wf(),
    ensures
        r.deep_view() == submission_reply(store.deep_view(), id@),
{
    let submission = match store.get_submission(id) {
        Some(s) => s,
        None => {
            return not_found("submission");
        },
    };
    let latest = store.latest_snapshot(id);
    let payout = store.payout_for_submission(id);
    let (accrued_cents, payout_status): (Option<i64>, Option<String>) = match &payout {
        Some(p) => (Some(p.amount_cents), Some(p.status.as_str().to_string())),
        None => (None, None),
    };
    let row = SubmissionWithMetrics { submission, latest, accrued_cents, payout_status };
    hold_both(
        "submission",
        render_with_metrics(&row),
        "payout",
        render_some(&payout, render_payout, Ghost(render::payout_json())),
    )
}

// ---- correcting --------------------------------------------------------------------------------

/// The submission that an edit makes of `s`, or what is wrong with the edit. `screened` is the
/// new URL, where one is given, and `stored` the present one read again.
pub open spec fn edited(
    s: SubmissionView,
    platform: Option<Seq<char>>,
    screened: Option<Result<UrlView, Seq<char>>>,
    stored: Option<UrlView>,
    now: Seq<char>,
) -> Result<SubmissionView, Seq<char>> {
    let key = match platform {
        Some(p) => text::folded(p),
        None => s.platform,
    };
    if platform is Some && text::blank(platform->0) {
        Err("platform cannot be blank"@)
    } else {
        match screened {
            Some(Err(e)) => Err(e),
            Some(Ok(url)) => Ok(
                SubmissionView {
                    platform: key,
                    post_url: url.href,
                    external_post_id: post_id_or_none(key, url),
                    updated_at: now,
                    ..s
                },
            ),
            None => Ok(
                SubmissionView {
                    platform: key,
                    external_post_id: if platform is Some {
                        match stored {
                            Some(url) => post_id_or_none(key, url),
                            None => Seq::empty(),
                        }
                    } else {
                        s.external_post_id
                    },
                    updated_at: now,
                    ..s
                },
            ),
        }
    }
}

/// The view of a screened URL, where one is given.
pub open spec fn screened_view(r: Option<Result<WebUrl, String>>) -> Option<
    Result<UrlView, Seq<char>>,
> {
    match r {
        Some(x) => Some(weburl::url_result(x)),
        None => None,
    }
}

/// Corrects a submission's platform or URL. A platform change reads the present URL again, since
/// the same link yields another id, or none, under another platform's rules.
pub fn edit_submission(
    submission: Submission,
    platform: Option<&str>,
    screened: Option<Result<WebUrl, String>>,
    stored: Option<WebUrl>,
    now: &str,
) -> (r: Result<Submission, String>)
    ensures
        match edited(
            submission.deep_view(),
            platform.deep_view(),
            screened_view(screened),
            stored.deep_view(),
            now@,
        ) {
            Ok(s) => r is Ok && r->Ok_0.deep_view() == s,
            Err(e) => r is Err && r->Err_0@ == e,
        },
{
    let mut next = submission;
    match platform {
        Some(p) => {
            if is_blank(p) {
                return Err("platform cannot be blank".to_string());
            }
            next.platform = normalize_platform(p);
        },
        None => {},
    }
    match screened {
        Some(Ok(url)) => {
            next.external_post_id = post_id_or_empty(next.platform.as_str(), &url);
            next.post_url = url.href;
        },
        Some(Err(e)) => {
            return Err(e);
        },
        None => {
            if platform.is_some() {
                next.external_post_id =
                match &stored {
                    Some(url) => post_id_or_empty(next.platform.as_str(), url),
                    None => String::new(),
                };
            }
        },
    }
    next.updated_at = now.to_string();
    Ok(next)
}

impl EngineView {
    /// Correcting a submission.
    pub open spec fn corrected_submission(
        self,
        id: Seq<char>,
        platform: Option<Seq<char>>,
        screened: Option<Result<UrlView, Seq<char>>>,
        stored: Option<UrlView>,
        now: Seq<char>,
    ) -> (EngineView, ReplyView) {
        match self.store.submission(id) {
            None => (self, replies::missing("submission"@)),
            Some(s) => match edited(s, platform, screened, stored, now) {
                Err(e) => (self, replies::failed(400, e)),
                Ok(next) => (
                    EngineView { store: self.store.update_submission(next), ..self },
                    written_reply(self.store.update_outcome(next), next),
                ),
            },
        }
    }
}

/// Corrects a submission, with its new URL screened and its present one read again.
pub fn correct_screened_submission(
    engine: &mut UgcEngine,
    id: &str,
    platform: Option<&str>,
    screened: Option<Result<WebUrl, String>>,
    stored: Option<WebUrl>,
    now: &str,
) -> (r: Reply)
    requires
        old(engine).deep_view().store.wf(),
    ensures
        (final(engine).deep_view(), r.deep_view()) == old(engine).deep_view().corrected_submission(
            id@,
            platform.deep_view(),
            screened_view(screened),
            stored.deep_view(),
            now@,
        ),
        final(engine).deep_view().store.wf(),
{
    let submission = match engine.store.get_submission(id) {
        Some(s) => s,
        None => {
            return not_found("submission");
        },
    };
    match edit_submission(submission, platform, screened, stored, now) {
        Ok(next) => {
            let outcome = engine.store.update_submission(&next);
            written(outcome, &next)
        },
        Err(e) => bad_request(e.as_str()),
    }
}

/// The URL of the submission read again, as far as there is one.
pub open spec fn stored_url(s: StoreView, id: Seq<char>) -> Option<UrlView> {
    match s.submission(id) {
        Some(x) => match weburl::parsed_url(x.post_url) {
            Ok(u) => Some(u),
            Err(_) => None,
        },
        None => None,
    }
}

/// The new URL screened, where one is given.
pub open spec fn screened_edit(raw: Option<Seq<char>>) -> Option<Result<UrlView, Seq<char>>> {
    match raw {
        Some(s) => Some(weburl::screened_text(s)),
        None => None,
    }
}

/// `PUT /submissions/{id}`: corrects a submission's platform or URL. Its review state stays.
pub fn update_submission(engine: &mut UgcEngine, id: &str, body: &SubmissionEditBody) -> (r: Reply)
    requires
        old(engine).deep_view().store.wf(),
    ensures
        exists|now: Seq<char>|
            clock::is_stamp(now) && (final(engine).deep_view(), r.deep_view()) == #[trigger] old(
                engine,
            ).deep_view().corrected_submission(
                id@,
                body.platform.deep_view(),
                screened_edit(body.post_url.deep_view()),
                stored_url(old(engine).deep_view().store, id@),
                now,
            ),
        final(engine).deep_view().store.wf(),
{
    let screened: Option<Result<WebUrl, String>> = match &body.post_url {
        Some(raw) => Some(screen_post_url(raw.as_str())),
        None => None,
    };
    let stored: Option<WebUrl> = match engine.store.get_submission(id) {
        Some(s) => reparse_url(s.post_url.as_str()),
        None => None,
    };
    let platform: Option<&str> = match &body.platform {
        Some(p) => Some(p.as_str()),
        None => None,
    };
    let now = now_iso();
    assert(platform.deep_view() == body.platform.deep_view());
    correct_screened_submission(engine, id, platform, screened, stored, now.as_str())
}

// ---- deleting ----------------------------------------------------------------------------------

impl EngineView {
    /// Removing a submission: refused once its payout is paid.
    pub open spec fn deleted_submission(self, id: Seq<char>) -> (EngineView, ReplyView) {
        match self.store.payout_of(id) {
            Some(p) => if p.status == PayoutStatus::Paid {
                (self, already_paid_reply(p.id))
            } else {
                self.dropped_submission(id)
            },
            None => self.dropped_submission(id),
        }
    }

    /// Removing a submission that nothing protects.
    pub open spec fn dropped_submission(self, id: Seq<char>) -> (EngineView, ReplyView) {
        (
            EngineView { store: self.store.delete_submission(id), ..self },
            api::deleted_reply(self.store.submission(id) is Some, "submission"@),
        )
    }
}

/// What a caller is told who deletes a submission whose payout is paid.
pub open spec fn already_paid_reply(payout_id: Seq<char>) -> ReplyView {
    ReplyView {
        status: 409,
        body: JsonView::Object(
            seq![
                (
                    "error"@,
                    JsonView::Text(
                        "this submission's payout is already paid; deleting it would corrupt the campaign's spend"@,
                    ),
                ),
                ("payout_id"@, JsonView::Text(payout_id)),
            ],
        ),
    }
}

fn already_paid(payout_id: &str) -> (r: Reply)
    ensures
        r.deep_view() == already_paid_reply(payout_id@),
{
    let mut m: Vec<(String, Json)> = Vec::new();
    put_text(
        &mut m,
        "error",
        "this submission's payout is already paid; deleting it would corrupt the campaign's spend",
    );
    put_text(&mut m, "payout_id", payout_id);
    assert(json::members(m@) =~= already_paid_reply(payout_id@).body->Object_0);
    Reply { status: 409, body: object(m) }
}

/// `DELETE /submissions/{id}`: removes a submission with its snapshots and its payout, unless the
/// payout is paid.
pub fn delete_submission(engine: &mut UgcEngine, id: &str) -> (r: Reply)
    requires
        old(engine).deep_view().store.wf(),
    ensures
        (final(engine).deep_view(), r.deep_view()) == old(engine).deep_view().deleted_submission(
            id@,
        ),
        final(engine).deep_view().store.wf(),
{
    match engine.store.payout_for_submission(id) {
        Some(p) => {
            if p.status == PayoutStatus::Paid {
                return already_paid(p.id.as_str());
            }
        },
        None => {},
    }
    deleted(engine.store.delete_submission(id), "submission")
}

// ---- review ------------------------------------------------------------------------------------

/// What a review is answered.
pub open spec fn review_reply(
    r: Result<Option<engine::ReviewOutcomeView>, Seq<char>>,
) -> ReplyView {
    match r {
        Ok(Some(o)) => replies::done(
            JsonView::Object(
                seq![
                    ("submission"@, render::submission_json(o.submission)),
                    ("payout"@, render::or_null(o.payout, render::payout_json())),
                    ("changed"@, JsonView::Bool(o.changed)),
                ],
            ),
        ),
        Ok(None) => replies::missing("submission"@),
        Err(e) => replies::failed(409, e),
    }
}

/// What a caller is told whose decision is neither.
pub open spec fn undecided_text(decision: Seq<char>) -> Seq<char> {
    "decision must be 'approve' or 'reject', got '"@ + text::folded(decision) + "'"@
}

impl EngineView {
    /// Deciding on a submission.
    pub open spec fn decided_submission(
        self,
        id: Seq<char>,
        decision: Seq<char>,
        reason: Option<Seq<char>>,
        now: Seq<char>,
        accrued_at: Seq<char>,
        fresh_id: Seq<char>,
    ) -> (EngineView, ReplyView) {
        match inputs::decided(decision) {
            None => (self, replies::failed(400, undecided_text(decision))),
            Some(approve) => {
                let (next, outcome) = self.review(
                    id,
                    approve,
                    reason,
                    now,
                    accrued_at,
                    fresh_id,
                );
                (next, review_reply(outcome))
            },
        }
    }
}

fn review_answer(r: Result<Option<engine::ReviewOutcome>, String>) -> (out: Reply)
    ensures
        out.deep_view() == review_reply(engine::outcome_result(r)),
{
    match r {
        Ok(Some(o)) => {
            let mut m: Vec<(String, Json)> = Vec::new();
            put(&mut m, "submission", render_submission(&o.submission));
            put(
                &mut m,
                "payout",
                render_some(&o.payout, render_payout, Ghost(render::payout_json())),
            );
            put(&mut m, "changed", Json::Bool(o.changed));
            assert(json::members(m@) =~= review_reply(engine::outcome_result(r)).body->Object_0);
            success(object(m))
        },
        Ok(None) => not_found("submission"),
        Err(e) => failure(409, e.as_str()),
    }
}

fn undecided(decision: &str) -> (r: Reply)
    ensures
        r.deep_view() == replies::failed(400, undecided_text(decision@)),
{
    let mut e = "decision must be 'approve' or 'reject', got '".to_string();
    e.append(fold(decision).as_str());
    e.append("'");
    bad_request(e.as_str())
}

/// Decides on a submission at the given times.
pub fn decide_submission_at(
    engine: &mut UgcEngine,
    id: &str,
    body: &ReviewBody,
    now: &str,
    accrued_at: &str,
    fresh_id: &str,
) -> (r: Reply)
    requires
        old(engine).deep_view().store.wf(),
    ensures
        (final(engine).deep_view(), r.deep_view()) == old(engine).deep_view().decided_submission(
            id@,
            body.decision@,
            body.reason.deep_view(),
            now@,
            accrued_at@,
            fresh_id@,
        ),
        final(engine).deep_view().store.wf(),
{
    let approve = match read_decision(body.decision.as_str()) {
        Some(b) => b,
        None => {
            return undecided(body.decision.as_str());
        },
    };
    let reason: Option<&str> = match &body.reason {
        Some(s) => Some(s.as_str()),
        None => None,
    };
    review_answer(engine.review_submission_at(id, approve, reason, now, accrued_at, fresh_id))
}

/// `POST /submissions/{id}/review`: approves or rejects. A repeated decision changes nothing.
pub fn review_submission(engine: &mut UgcEngine, id: &str, body: &ReviewBody) -> (r: Reply)
    requires
        old(engine).deep_view().store.wf(),
    ensures
        exists|now: Seq<char>, accrued_at: Seq<char>, fresh_id: Seq<char>|
            clock::is_stamp(now) && clock::is_stamp(accrued_at) && clock::is_fresh("pay"@, fresh_id)
                && (final(engine).deep_view(), r.deep_view()) == #[trigger] old(
                engine,
            ).deep_view().decided_submission(
                id@,
                body.decision@,
                body.reason.deep_view(),
                now,
                accrued_at,
                fresh_id,
            ),
        final(engine).deep_view().store.wf(),
{
    let now = now_iso();
    let accrued_at = now_iso();
    let fresh_id = new_id("pay");
    decide_submission_at(
        engine,
        id,
        body,
        now.as_str(),
        accrued_at.as_str(),
        fresh_id.as_str(),
    )
}

// ---- counters ----------------------------------------------------------------------------------

/// `GET /submissions/{id}/metrics`: the snapshot history, newest first.
pub fn list_metrics(store: &UgcStore, id: &str, q: &LimitQuery) -> (r: Reply)
    ensures
        exists|out: Seq<SnapshotView>|
            rows::first_page(
                rows::picked(store.deep_view().snapshots, lists::snapshot_listed(id@)),
                out,
                lists::snapshot_order(),
                pricing::page_size(inputs::limit_asked(q.limit.deep_view())),
            ) && r.deep_view() == api::holding(
                "snapshots"@,
                JsonView::Array(#[trigger] out.map_values(render::snapshot_json())),
            ),
{
    let out = store.list_snapshots(id, q.asked());
    hold("snapshots", render_all(&out, render_snapshot, Ghost(render::snapshot_json())))
}

/// The reading that a body holds.
pub open spec fn sample_in(body: MetricsBody) -> MetricSample {
    MetricSample {
        views: body.views,
        likes: body.likes,
        comments: body.comments,
        shares: body.shares,
        saves: body.saves,
    }
}

/// What recording counters is answered.
pub open spec fn recorded_reply(
    r: Result<Option<(SnapshotView, Option<PayoutView>)>, Seq<char>>,
) -> ReplyView {
    match r {
        Ok(Some((snapshot, payout))) => api::holding_both(
            "snapshot"@,
            render::snapshot_json()(snapshot),
            "payout"@,
            render::or_null(payout, render::payout_json()),
        ),
        Ok(None) => replies::missing("submission"@),
        Err(e) => replies::failed(500, e),
    }
}

impl EngineView {
    /// Recording counters by hand.
    pub open spec fn recorded_metrics(
        self,
        id: Seq<char>,
        body: MetricsBody,
        captured_at: Seq<char>,
        accrued_at: Seq<char>,
        fresh_id: Seq<char>,
    ) -> (EngineView, ReplyView) {
        if body.views < 0 || body.likes < 0 || body.comments < 0 || body.shares < 0 || body.saves
            < 0 {
            (self, replies::failed(400, "metric counters cannot be negative"@))
        } else {
            let (next, outcome) = self.append_manual(
                id,
                sample_in(body),
                captured_at,
                accrued_at,
                fresh_id,
            );
            (next, recorded_reply(outcome))
        }
    }
}

/// Records counters by hand at the given times.
pub fn record_metrics_at(
    engine: &mut UgcEngine,
    id: &str,
    body: &MetricsBody,
    captured_at: &str,
    accrued_at: &str,
    fresh_id: &str,
) -> (r: Reply)
    requires
        old(engine).deep_view().store.wf(),
    ensures
        (final(engine).deep_view(), r.deep_view()) == old(engine).deep_view().recorded_metrics(
            id@,
            *body,
            captured_at@,
            accrued_at@,
            fresh_id@,
        ),
        final(engine).deep_view().store.wf(),
{
    if body.views < 0 || body.likes < 0 || body.comments < 0 || body.shares < 0 || body.saves < 0 {
        return bad_request("metric counters cannot be negative");
    }
    let sample = MetricSample {
        views: body.views,
        likes: body.likes,
        comments: body.comments,
        shares: body.shares,
        saves: body.saves,
    };
    match engine.append_manual_snapshot_at(id, sample, captured_at, accrued_at, fresh_id) {
        Ok(Some((snapshot, payout))) => hold_both(
            "snapshot",
            render_snapshot(&snapshot),
            "payout",
            render_some(&payout, render_payout, Ghost(render::payout_json())),
        ),
        Ok(None) => not_found("submission"),
        Err(e) => internal(e.as_str()),
    }
}

/// `POST /submissions/{id}/metrics`: records counters by hand, and re-prices the submission.
pub fn record_metrics(engine: &mut UgcEngine, id: &str, body: &MetricsBody) -> (r: Reply)
    requires
        old(engine).deep_view().store.wf(),
    ensures
        exists|captured_at: Seq<char>, accrued_at: Seq<char>, fresh_id: Seq<char>|
            clock::is_stamp(captured_at) && clock::is_stamp(accrued_at)
                && clock::is_fresh("pay"@, fresh_id)
                && (final(engine).deep_view(), r.deep_view()) == #[trigger] old(
                engine,
            ).deep_view().recorded_metrics(id@, *body, captured_at, accrued_at, fresh_id),
        final(engine).deep_view().store.wf(),
{
    let captured_at = now_iso();
    let accrued_at = now_iso();
    let fresh_id = new_id("pay");
    record_metrics_at(
        engine,
        id,
        body,
        captured_at.as_str(),
        accrued_at.as_str(),
        fresh_id.as_str(),
    )
}

/// The body that a refresh with an outcome is answered: the report line, with the snapshot it
/// replaces and the payout beside it.
pub open spec fn outcome_json(id: Seq<char>, outcome: RefreshOutcomeView) -> JsonView {
    let (previous, payout) = match outcome {
        RefreshOutcomeView::Refreshed { previous, payout, .. } => (previous, payout),
        RefreshOutcomeView::NeedsConnection { .. } => (None, None),
    };
    JsonView::Object(
        render::report_members(engine::report_of(id, Ok(outcome))).push(
            ("previous"@, render::or_null(previous, render::snapshot_json())),
        ).push(("payout"@, render::or_null(payout, render::payout_json()))),
    )
}

/// The body that a refresh with an outcome is answered.
pub fn refresh_outcome_body(submission_id: &str, outcome: RefreshOutcome) -> (r: Json)
    ensures
        r.deep_view() == outcome_json(submission_id@, outcome.deep_view()),
{
    let (previous, payout): (Json, Json) = match &outcome {
        RefreshOutcome::Refreshed { snapshot: _, previous, payout } => (
            render_some(previous, render_snapshot, Ghost(render::snapshot_json())),
            render_some(payout, render_payout, Ghost(render::payout_json())),
        ),
        RefreshOutcome::NeedsConnection { message: _, connect_url: _ } => (Json::Null, Json::Null),
    };
    let report = SubmissionRefreshReport::from_outcome(submission_id, outcome);
    let mut m = put_report(&report);
    put(&mut m, "previous", previous);
    put(&mut m, "payout", payout);
    object(m)
}

/// The body that a failed refresh is answered: the report line, and its message as an error.
pub open spec fn refresh_error_json(id: Seq<char>, error: RefreshErrorView) -> JsonView {
    JsonView::Object(
        render::report_members(engine::report_of(id, Err(error))).push(
            ("error"@, JsonView::Text(error.text())),
        ),
    )
}

/// The body that a failed refresh is answered.
pub fn refresh_error_body(submission_id: &str, error: &RefreshError) -> (r: Json)
    ensures
        r.deep_view() == refresh_error_json(submission_id@, error.deep_view()),
{
    let report = SubmissionRefreshReport::from_error(submission_id, error);
    let mut m = put_report(&report);
    put_text(&mut m, "error", error.message().as_str());
    object(m)
}

/// The status of a failed refresh: a fact about the row is the caller's to fix, an upstream
/// failure is not.
pub open spec fn refresh_status(error: RefreshErrorView) -> u16 {
    match error {
        RefreshErrorView::NotFound => 404,
        RefreshErrorView::Unsupported(_) => 400,
        RefreshErrorView::Upstream(_) => 502,
        RefreshErrorView::Internal(_) => 500,
    }
}

/// `POST /submissions/{id}/refresh`, once the counters were fetched or could not be. An account
/// that is not linked yet is a success without a reading.
pub fn refresh_reply(id: &str, r: Result<RefreshOutcome, RefreshError>) -> (out: Reply)
    ensures
        out.deep_view() == match engine::refresh_result(r) {
            Ok(outcome) => replies::done(outcome_json(id@, outcome)),
            Err(e) => (ReplyView { status: refresh_status(e), body: refresh_error_json(id@, e) }),
        },
{
    match r {
        Ok(outcome) => success(refresh_outcome_body(id, outcome)),
        Err(e) => {
            let status: u16 = match &e {
                RefreshError::NotFound => 404,
                RefreshError::Unsupported(_) => 400,
                RefreshError::Upstream(_) => 502,
                RefreshError::Internal(_) => 500,
            };
            Reply { status, body: refresh_error_body(id, &e) }
        },
    }
}

/// The names of a refresh line's fields.
pub open spec fn line_fields() -> Seq<Seq<char>> {
    seq!["submission_id"@, "status"@, "message"@, "connect_url"@, "snapshot"@]
}

/// Every submission that was refreshed is answered with the same line, alone or in a campaign's
/// report, and the line has every field whatever became of the refresh.
pub proof fn law_a_refresh_line_has_every_field(
    id: Seq<char>,
    r: Result<RefreshOutcomeView, RefreshErrorView>,
    k: int,
)
    requires
        0 <= k < line_fields().len(),
    ensures
        ({
            let field = line_fields()[k];
            let line = render::report_json()(engine::report_of(id, r));
            let alone = match r {
                Ok(outcome) => outcome_json(id, outcome),
                Err(e) => refresh_error_json(id, e),
            };
            line.get(field) is Some && alone.get(field) == line.get(field)
        }),
{
    let field = line_fields()[k];
    let line = render::report_members(engine::report_of(id, r));
    let alone = match r {
        Ok(outcome) => outcome_json(id, outcome)->Object_0,
        Err(e) => refresh_error_json(id, e)->Object_0,
    };
    let at: int = if field == line[0].0 {
        0
    } else if field == line[1].0 {
        1
    } else if field == line[2].0 {
        2
    } else if field == line[3].0 {
        3
    } else {
        4
    };
    json::lemma_member(line, field, at);
    json::lemma_member(alone, field, at);
}

} // verus!
