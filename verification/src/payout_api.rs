//! The requests about payouts, each answered with a status and a body. Money only moves forward:
//! accrued, approved, paid.
use crate::api;
use crate::api::{hold, hold_both};
use crate::clock;
use crate::clock::now_iso;
use crate::engine::{EngineView, UgcEngine};
use crate::inputs::PayoutQuery;
use crate::json;
use crate::json::{object, put, Json, JsonView};
use crate::lists;
use crate::pricing;
use crate::records::{clone_opt, PayoutStatus, PayoutView, SubmissionStatus, SubmissionView};
use crate::render;
use crate::render::{
    render_all, render_campaign, render_creator, render_payout, render_some, render_submission,
};
use crate::replies;
use crate::replies::{failure, not_found, success, Reply, ReplyView};
use crate::rows;
use crate::store::{StoreError, StoreView, UgcStore};
use vstd::prelude::*;

verus! {

/// `GET /payouts`: the payouts, filtered by campaign, creator or status.
pub fn list_payouts(store: &UgcStore, q: PayoutQuery) -> (r: Reply)
    ensures
        exists|out: Seq<PayoutView>|
            rows::first_page(
                rows::picked(
                    store.deep_view().payouts,
                    lists::payout_listed(q.deep_view().filter()),
                ),
                out,
                lists::payout_order(),
                pricing::page_size(q.deep_view().filter().limit),
            ) && r.deep_view() == api::holding(
                "payouts"@,
                JsonView::Array(#[trigger] out.map_values(render::payout_json())),
            ),
{
    let filter = q.into_filter();
    let out = store.list_payouts(&filter);
    hold("payouts", render_all(&out, render_payout, Ghost(render::payout_json())))
}

/// A submission as it is sent.
pub open spec fn submission_render() -> spec_fn(SubmissionView) -> JsonView {
    |s: SubmissionView| render::submission_json(s)
}

/// The submission that a payout belongs to.
pub open spec fn submission_behind(s: StoreView, p: PayoutView) -> Option<SubmissionView> {
    match p.submission_id {
        Some(id) => s.submission(id),
        None => None,
    }
}

/// What was read, where a record was; one that cannot be read is shown like none.
pub open spec fn shown<T>(r: Result<Option<T>, StoreError>) -> Option<T> {
    match r {
        Ok(t) => t,
        Err(_) => None,
    }
}

/// What one payout is answered: the row with its context.
pub open spec fn payout_reply(s: StoreView, id: Seq<char>) -> ReplyView {
    match s.payout(id) {
        None => replies::missing("payout"@),
        Some(p) => replies::done(
            JsonView::Object(
                seq![
                    ("payout"@, render::payout_json()(p)),
                    (
                        "campaign"@,
                        render::or_null(
                            shown(s.read_campaign(p.campaign_id)),
                            render::campaign_json(),
                        ),
                    ),
                    (
                        "creator"@,
                        render::or_null(
                            shown(s.read_creator(p.creator_id)),
                            render::creator_json(),
                        ),
                    ),
                    ("submission"@, render::or_null(submission_behind(s, p), submission_render())),
                ],
            ),
        ),
    }
}

/// `GET /payouts/{id}`: one payout with its campaign, creator and submission.
pub fn get_payout(store: &UgcStore, id: &str) -> (r: Reply)
    ensures
        r.deep_view() == payout_reply(store.deep_view(), id@),
{
    let payout = match store.get_payout(id) {
        Some(p) => p,
        None => {
            return not_found("payout");
        },
    };
    let campaign = match store.get_campaign(payout.campaign_id.as_str()) {
        Ok(c) => c,
        Err(_) => None,
    };
    let creator = match store.get_creator(payout.creator_id.as_str()) {
        Ok(c) => c,
        Err(_) => None,
    };
    let submission = match &payout.submission_id {
        Some(sid) => store.get_submission(sid.as_str()),
        None => None,
    };
    let mut m: Vec<(String, Json)> = Vec::new();
    put(&mut m, "payout", render_payout(&payout));
    put(&mut m, "campaign", render_some(&campaign, render_campaign, Ghost(render::campaign_json())));
    put(&mut m, "creator", render_some(&creator, render_creator, Ghost(render::creator_json())));
    put(&mut m, "submission", render_some(&submission, render_submission, Ghost(submission_render())));
    assert(json::members(m@) =~= payout_reply(store.deep_view(), id@).body->Object_0);
    success(object(m))
}

/// What a move of a payout is answered.
pub open spec fn moved_reply(p: PayoutView, changed: bool) -> ReplyView {
    api::holding_both("payout"@, render::payout_json()(p), "changed"@, JsonView::Bool(changed))
}

impl EngineView {
    /// Approving a payout.
    pub open spec fn approved_payout(self, id: Seq<char>, now: Seq<char>) -> (
        EngineView,
        ReplyView,
    ) {
        match self.store.payout(id) {
            None => (self, replies::missing("payout"@)),
            Some(p) => match p.status {
                PayoutStatus::Approved => (self, moved_reply(p, false)),
                PayoutStatus::Paid => (
                    self,
                    replies::failed(409, "this payout has already been paid"@),
                ),
                PayoutStatus::Accrued => {
                    let next = self.store.set_payout_status(id, PayoutStatus::Approved, now);
                    (EngineView { store: next, ..self }, moved_reply(next.payout(id)->0, true))
                },
            },
        }
    }

    /// Marking a payout paid; its submission follows the money.
    pub open spec fn paid_payout(self, id: Seq<char>, now: Seq<char>) -> (EngineView, ReplyView) {
        match self.store.payout(id) {
            None => (self, replies::missing("payout"@)),
            Some(p) => match p.status {
                PayoutStatus::Paid => (self, moved_reply(p, false)),
                PayoutStatus::Accrued => (
                    self,
                    replies::failed(409, "approve this payout before marking it paid"@),
                ),
                PayoutStatus::Approved => {
                    let moved = self.store.set_payout_status(id, PayoutStatus::Paid, now);
                    let updated = moved.payout(id)->0;
                    (
                        EngineView { store: settled(moved, updated, now), ..self },
                        moved_reply(updated, true),
                    )
                },
            },
        }
    }
}

/// The store once the submission behind a paid payout is marked paid. Its review stamp stays.
pub open spec fn settled(s: StoreView, p: PayoutView, now: Seq<char>) -> StoreView {
    match p.submission_id {
        Some(sid) => s.set_submission_status(
            sid,
            SubmissionStatus::Paid,
            match s.submission(sid) {
                Some(x) => x.reviewed_at,
                None => None,
            },
            None,
            now,
        ),
        None => s,
    }
}

/// Approves a payout at the given time.
pub fn approve_payout_at(engine: &mut UgcEngine, id: &str, now: &str) -> (r: Reply)
    requires
        old(engine).deep_view().store.wf(),
    ensures
        (final(engine).deep_view(), r.deep_view()) == old(engine).deep_view().approved_payout(
            id@,
            now@,
        ),
        final(engine).deep_view().store.wf(),
{
    let payout = match engine.store.get_payout(id) {
        Some(p) => p,
        None => {
            return not_found("payout");
        },
    };
    match payout.status {
        PayoutStatus::Approved => {
            return hold_both("payout", render_payout(&payout), "changed", Json::Bool(false));
        },
        PayoutStatus::Paid => {
            return failure(409, "this payout has already been paid");
        },
        PayoutStatus::Accrued => {},
    }
    match engine.store.set_payout_status(id, PayoutStatus::Approved, now) {
        Some(p) => hold_both("payout", render_payout(&p), "changed", Json::Bool(true)),
        None => not_found("payout"),
    }
}

/// `POST /payouts/{id}/approve`: accrued to approved. A repeat changes nothing, and a paid row is
/// refused.
pub fn approve_payout(engine: &mut UgcEngine, id: &str) -> (r: Reply)
    requires
        old(engine).deep_view().store.wf(),
    ensures
        exists|now: Seq<char>|
            clock::is_stamp(now) && (final(engine).deep_view(), r.deep_view()) == #[trigger] old(
                engine,
            ).deep_view().approved_payout(id@, now),
        final(engine).deep_view().store.wf(),
{
    let now = now_iso();
    approve_payout_at(engine, id, now.as_str())
}

/// Marks a payout paid at the given time.
pub fn mark_payout_paid_at(engine: &mut UgcEngine, id: &str, now: &str) -> (r: Reply)
    requires
        old(engine).deep_view().store.wf(),
    ensures
        (final(engine).deep_view(), r.deep_view()) == old(engine).deep_view().paid_payout(
            id@,
            now@,
        ),
        final(engine).deep_view().store.wf(),
{
    let payout = match engine.store.get_payout(id) {
        Some(p) => p,
        None => {
            return not_found("payout");
        },
    };
    match payout.status {
        PayoutStatus::Paid => {
            return hold_both("payout", render_payout(&payout), "changed", Json::Bool(false));
        },
        PayoutStatus::Accrued => {
            return failure(409, "approve this payout before marking it paid");
        },
        PayoutStatus::Approved => {},
    }
    let updated = match engine.store.set_payout_status(id, PayoutStatus::Paid, now) {
        Some(p) => p,
        None => {
            return not_found("payout");
        },
    };
    match &updated.submission_id {
        Some(sid) => {
            let reviewed_at: Option<String> = match engine.store.get_submission(sid.as_str()) {
                Some(s) => clone_opt(&s.reviewed_at),
                None => None,
            };
            let stamp: Option<&str> = match &reviewed_at {
                Some(t) => Some(t.as_str()),
                None => None,
            };
            let _ = engine.store.set_submission_status(
                sid.as_str(),
                SubmissionStatus::Paid,
                stamp,
                None,
                now,
            );
        },
        None => {},
    }
    hold_both("payout", render_payout(&updated), "changed", Json::Bool(true))
}

/// `POST /payouts/{id}/paid`: approved to paid, and its submission with it. An accrued row is
/// refused: its amount still moves, and nobody signed it off.
pub fn mark_payout_paid(engine: &mut UgcEngine, id: &str) -> (r: Reply)
    requires
        old(engine).deep_view().store.wf(),
    ensures
        exists|now: Seq<char>|
            clock::is_stamp(now) && (final(engine).deep_view(), r.deep_view()) == #[trigger] old(
                engine,
            ).deep_view().paid_payout(id@, now),
        final(engine).deep_view().store.wf(),
{
    let now = now_iso();
    mark_payout_paid_at(engine, id, now.as_str())
}

} // verus!
