//! The runtime of the app: recording submissions, reviewing them, refreshing their counters and
//! re-pricing their payouts, with the events that each step raises.
use crate::clock;
use crate::clock::{new_id, now_iso};
use crate::composio;
use crate::composio::{
    source_for, MetricError, MetricErrorView, MetricOutcome, MetricOutcomeView, MetricSample,
};
use crate::execute;
use crate::lists;
use crate::lists::{SubmissionFilter, SubmissionFilterView};
use crate::pricing;
use crate::pricing::{accrual_reason, AccrualView};
use crate::records::{
    MetricSnapshot, MetricSource, Payout, PayoutStatus, PayoutView, SnapshotView, Submission,
    SubmissionStatus, SubmissionView,
};
use crate::rows;
use crate::store;
use crate::store::{StoreError, StoreView, UgcStore, WriteOutcome};
use crate::text;
use crate::text::is_blank;
use vstd::prelude::*;

verus! {

/// This app's plugin id.
pub const UGC_PLUGIN_ID: &'static str = "@ryu/ugc";

/// A creator's post was recorded: once per submission actually created.
pub const EVENT_SUBMISSION_RECEIVED: &'static str = "@ryu/ugc#submission.received";

/// Once per move into `approved`.
pub const EVENT_SUBMISSION_APPROVED: &'static str = "@ryu/ugc#submission.approved";

/// Once per move into `rejected`.
pub const EVENT_SUBMISSION_REJECTED: &'static str = "@ryu/ugc#submission.rejected";

/// Every successful Composio refresh, even one where the counters did not move.
pub const EVENT_METRICS_REFRESHED: &'static str = "@ryu/ugc#metrics.refreshed";

/// A payout row's amount changed.
pub const EVENT_PAYOUT_ACCRUED: &'static str = "@ryu/ugc#payout.accrued";

/// Committed money first reached the budget.
pub const EVENT_CAMPAIGN_BUDGET_REACHED: &'static str = "@ryu/ugc#campaign.budget.reached";

// ---- events ----------------------------------------------------------------------------------

/// An event that the app raises.
#[derive(Debug)]
pub enum HookEvent {
    SubmissionReceived { submission: Submission },
    SubmissionApproved { submission: Submission, payout: Option<Payout>, reviewed_at: String },
    SubmissionRejected { submission: Submission, reason: Option<String>, reviewed_at: String },
    MetricsRefreshed {
        submission: Submission,
        snapshot: MetricSnapshot,
        previous: Option<MetricSnapshot>,
    },
    PayoutAccrued { accrued: Payout, previous_cents: i64 },
    BudgetReached {
        campaign_id: String,
        brand: String,
        budget_cents: i64,
        accrued_cents: i64,
        reached_at: String,
    },
}

/// The view of a [`HookEvent`].
pub enum HookEventView {
    SubmissionReceived { submission: SubmissionView },
    SubmissionApproved {
        submission: SubmissionView,
        payout: Option<PayoutView>,
        reviewed_at: Seq<char>,
    },
    SubmissionRejected {
        submission: SubmissionView,
        reason: Option<Seq<char>>,
        reviewed_at: Seq<char>,
    },
    MetricsRefreshed {
        submission: SubmissionView,
        snapshot: SnapshotView,
        previous: Option<SnapshotView>,
    },
    PayoutAccrued { accrued: PayoutView, previous_cents: i64 },
    BudgetReached {
        campaign_id: Seq<char>,
        brand: Seq<char>,
        budget_cents: i64,
        accrued_cents: i64,
        reached_at: Seq<char>,
    },
}

impl DeepView for HookEvent {
    type V = HookEventView;

    open spec fn deep_view(&self) -> HookEventView {
        match self {
            HookEvent::SubmissionReceived { submission } => HookEventView::SubmissionReceived {
                submission: submission.deep_view(),
            },
            HookEvent::SubmissionApproved { submission, payout, reviewed_at } =>
                HookEventView::SubmissionApproved {
                submission: submission.deep_view(),
                payout: payout.deep_view(),
                reviewed_at: reviewed_at@,
            },
            HookEvent::SubmissionRejected { submission, reason, reviewed_at } =>
                HookEventView::SubmissionRejected {
                submission: submission.deep_view(),
                reason: reason.deep_view(),
                reviewed_at: reviewed_at@,
            },
            HookEvent::MetricsRefreshed { submission, snapshot, previous } =>
                HookEventView::MetricsRefreshed {
                submission: submission.deep_view(),
                snapshot: snapshot.deep_view(),
                previous: previous.deep_view(),
            },
            HookEvent::PayoutAccrued { accrued, previous_cents } => HookEventView::PayoutAccrued {
                accrued: accrued.deep_view(),
                previous_cents: *previous_cents,
            },
            HookEvent::BudgetReached {
                campaign_id,
                brand,
                budget_cents,
                accrued_cents,
                reached_at,
            } => HookEventView::BudgetReached {
                campaign_id: campaign_id@,
                brand: brand@,
                budget_cents: *budget_cents,
                accrued_cents: *accrued_cents,
                reached_at: reached_at@,
            },
        }
    }
}

impl HookEventView {
    /// The name that the event is raised under.
    pub open spec fn name(self) -> Seq<char> {
        match self {
            HookEventView::SubmissionReceived { .. } => EVENT_SUBMISSION_RECEIVED@,
            HookEventView::SubmissionApproved { .. } => EVENT_SUBMISSION_APPROVED@,
            HookEventView::SubmissionRejected { .. } => EVENT_SUBMISSION_REJECTED@,
            HookEventView::MetricsRefreshed { .. } => EVENT_METRICS_REFRESHED@,
            HookEventView::PayoutAccrued { .. } => EVENT_PAYOUT_ACCRUED@,
            HookEventView::BudgetReached { .. } => EVENT_CAMPAIGN_BUDGET_REACHED@,
        }
    }
}

impl HookEvent {
    /// The name that the event is raised under.
    pub fn name(&self) -> (r: &'static str)
        ensures
            r@ == self.deep_view().name(),
    {
        match self {
            HookEvent::SubmissionReceived { .. } => EVENT_SUBMISSION_RECEIVED,
            HookEvent::SubmissionApproved { .. } => EVENT_SUBMISSION_APPROVED,
            HookEvent::SubmissionRejected { .. } => EVENT_SUBMISSION_REJECTED,
            HookEvent::MetricsRefreshed { .. } => EVENT_METRICS_REFRESHED,
            HookEvent::PayoutAccrued { .. } => EVENT_PAYOUT_ACCRUED,
            HookEvent::BudgetReached { .. } => EVENT_CAMPAIGN_BUDGET_REACHED,
        }
    }
}

// ---- outcomes ----------------------------------------------------------------------------------

/// What one accrual pass did to a submission's payout row.
#[derive(Debug)]
pub struct AccrualOutcome {
    /// The row after the pass; `None` when the submission has not cleared review and never had
    /// one.
    pub payout: Option<Payout>,
    /// What the row was worth before the pass; 0 when it did not exist.
    pub previous_cents: i64,
    /// Whether the amount actually moved.
    pub changed: bool,
}

/// The view of an [`AccrualOutcome`].
#[verifier::ext_equal]
pub struct AccrualOutcomeView {
    pub payout: Option<PayoutView>,
    pub previous_cents: i64,
    pub changed: bool,
}

impl DeepView for AccrualOutcome {
    type V = AccrualOutcomeView;

    open spec fn deep_view(&self) -> AccrualOutcomeView {
        AccrualOutcomeView {
            payout: self.payout.deep_view(),
            previous_cents: self.previous_cents,
            changed: self.changed,
        }
    }
}

/// What a review decision did.
#[derive(Debug)]
pub struct ReviewOutcome {
    pub submission: Submission,
    /// The accrued row that an approval created or re-priced.
    pub payout: Option<Payout>,
    /// `false` when the submission was already in the requested state.
    pub changed: bool,
}

/// The view of a [`ReviewOutcome`].
#[verifier::ext_equal]
pub struct ReviewOutcomeView {
    pub submission: SubmissionView,
    pub payout: Option<PayoutView>,
    pub changed: bool,
}

impl DeepView for ReviewOutcome {
    type V = ReviewOutcomeView;

    open spec fn deep_view(&self) -> ReviewOutcomeView {
        ReviewOutcomeView {
            submission: self.submission.deep_view(),
            payout: self.payout.deep_view(),
            changed: self.changed,
        }
    }
}

/// What a metrics refresh produced. Both variants are successes, and only the first carries a
/// reading.
#[derive(Debug)]
pub enum RefreshOutcome {
    /// Counters were read and written.
    Refreshed {
        snapshot: MetricSnapshot,
        /// The snapshot this one replaces.
        previous: Option<MetricSnapshot>,
        payout: Option<Payout>,
    },
    /// Composio needs the account connected first. Nothing was written.
    NeedsConnection {
        message: String,
        connect_url: Option<String>,
    },
}

/// The view of a [`RefreshOutcome`].
pub enum RefreshOutcomeView {
    Refreshed {
        snapshot: SnapshotView,
        previous: Option<SnapshotView>,
        payout: Option<PayoutView>,
    },
    NeedsConnection { message: Seq<char>, connect_url: Option<Seq<char>> },
}

impl DeepView for RefreshOutcome {
    type V = RefreshOutcomeView;

    open spec fn deep_view(&self) -> RefreshOutcomeView {
        match self {
            RefreshOutcome::Refreshed { snapshot, previous, payout } =>
                RefreshOutcomeView::Refreshed {
                snapshot: snapshot.deep_view(),
                previous: previous.deep_view(),
                payout: payout.deep_view(),
            },
            RefreshOutcome::NeedsConnection { message, connect_url } =>
                RefreshOutcomeView::NeedsConnection {
                message: message@,
                connect_url: connect_url.deep_view(),
            },
        }
    }
}

/// Why a refresh could not happen.
#[derive(Debug)]
pub enum RefreshError {
    /// No such submission.
    NotFound,
    /// A precondition the operator fixes before this can refresh.
    Unsupported(String),
    /// The Composio call failed, or answered a shape the curated row does not describe.
    Upstream(String),
    /// The store failed.
    Internal(String),
}

/// The view of a [`RefreshError`].
pub enum RefreshErrorView {
    NotFound,
    Unsupported(Seq<char>),
    Upstream(Seq<char>),
    Internal(Seq<char>),
}

impl DeepView for RefreshError {
    type V = RefreshErrorView;

    open spec fn deep_view(&self) -> RefreshErrorView {
        match self {
            RefreshError::NotFound => RefreshErrorView::NotFound,
            RefreshError::Unsupported(m) => RefreshErrorView::Unsupported(m@),
            RefreshError::Upstream(m) => RefreshErrorView::Upstream(m@),
            RefreshError::Internal(m) => RefreshErrorView::Internal(m@),
        }
    }
}

impl RefreshErrorView {
    /// The message of the error.
    pub open spec fn text(self) -> Seq<char> {
        match self {
            RefreshErrorView::NotFound => "submission not found"@,
            RefreshErrorView::Unsupported(m) => m,
            RefreshErrorView::Upstream(m) => m,
            RefreshErrorView::Internal(m) => m,
        }
    }
}

impl RefreshError {
    /// The message of the error.
    pub fn message(&self) -> (r: String)
        ensures
            r@ == self.deep_view().text(),
    {
        match self {
            RefreshError::NotFound => "submission not found".to_string(),
            RefreshError::Unsupported(m) => m.clone(),
            RefreshError::Upstream(m) => m.clone(),
            RefreshError::Internal(m) => m.clone(),
        }
    }
}

/// The view of what a refresh came to.
pub open spec fn refresh_result(r: Result<RefreshOutcome, RefreshError>) -> Result<
    RefreshOutcomeView,
    RefreshErrorView,
> {
    match r {
        Ok(o) => Ok(o.deep_view()),
        Err(e) => Err(e.deep_view()),
    }
}

/// The view of an optional value or an error message.
pub open spec fn outcome_result<T: DeepView>(r: Result<Option<T>, String>) -> Result<
    Option<T::V>,
    Seq<char>,
> {
    match r {
        Ok(o) => Ok(o.deep_view()),
        Err(e) => Err(e@),
    }
}

// ---- the engine ---------------------------------------------------------------------------------

/// The UGC runtime: the store, and the events that have not been raised yet.
#[derive(Debug)]
pub struct UgcEngine {
    pub store: UgcStore,
    pub outbox: Vec<HookEvent>,
}

/// The view of a [`UgcEngine`].
#[verifier::ext_equal]
pub struct EngineView {
    pub store: StoreView,
    pub outbox: Seq<HookEventView>,
}

impl DeepView for UgcEngine {
    type V = EngineView;

    open spec fn deep_view(&self) -> EngineView {
        EngineView { store: self.store.deep_view(), outbox: self.outbox.deep_view() }
    }
}

/// What the row was worth before the pass.
pub open spec fn previous_cents(inputs: AccrualView) -> i64 {
    match inputs.existing_payout {
        Some(p) => p.amount_cents,
        None => 0,
    }
}

/// The pass leaves the row alone: a human signed the amount off, the money has left, or the
/// submission has not cleared review.
pub open spec fn untouched(inputs: AccrualView) -> bool {
    ||| !inputs.submission.status.cleared()
    ||| (inputs.existing_payout is Some && inputs.existing_payout->0.status
        != PayoutStatus::Accrued)
}

/// The row that the pass writes: the existing row's identity, the amount the inputs price.
pub open spec fn priced(inputs: AccrualView, now: Seq<char>, fresh_id: Seq<char>) -> PayoutView {
    PayoutView {
        id: match inputs.existing_payout {
            Some(p) => p.id,
            None => fresh_id,
        },
        campaign_id: inputs.submission.campaign_id,
        creator_id: inputs.submission.creator_id,
        submission_id: Some(inputs.submission.id),
        amount_cents: inputs.amount() as i64,
        status: PayoutStatus::Accrued,
        reason: pricing::reason_text(inputs.views() as int, inputs.campaign, inputs.amount()),
        accrued_at: match inputs.existing_payout {
            Some(p) => p.accrued_at,
            None => now,
        },
        approved_at: None,
        paid_at: None,
        created_at: match inputs.existing_payout {
            Some(p) => p.created_at,
            None => now,
        },
        updated_at: now,
    }
}

/// The pass takes the campaign's committed money from below the budget to it or past it.
pub open spec fn reaches_budget(inputs: AccrualView) -> bool {
    let budget = inputs.campaign.budget_cents;
    let base = inputs.campaign_committed_excluding_this;
    budget > 0 && base + previous_cents(inputs) < budget && base + inputs.amount() >= budget
}

/// The reason of a rejection: trimmed, where anything is left of it.
pub open spec fn kept_reason(reason: Option<Seq<char>>) -> Option<Seq<char>> {
    crate::auth::nonblank(reason)
}

/// A snapshot of a reading, before it has an id.
pub open spec fn snapshot_of(
    submission_id: Seq<char>,
    sample: MetricSample,
    source: MetricSource,
    captured_at: Seq<char>,
) -> SnapshotView {
    SnapshotView {
        id: 0,
        submission_id,
        captured_at,
        views: sample.views,
        likes: sample.likes,
        comments: sample.comments,
        shares: sample.shares,
        saves: sample.saves,
        source,
    }
}

/// The payout of an accrual, if there was one.
pub open spec fn payout_after(a: Option<AccrualOutcomeView>) -> Option<PayoutView> {
    match a {
        Some(o) => o.payout,
        None => None,
    }
}

impl EngineView {
    /// The engine with one more event to raise.
    pub open spec fn raising(self, event: HookEventView) -> EngineView {
        EngineView { outbox: self.outbox.push(event), ..self }
    }

    /// Recording a submission: a recorded one raises `submission.received`.
    pub open spec fn create_submission(self, s: SubmissionView) -> EngineView {
        let next = EngineView { store: self.store.insert_submission(s), ..self };
        if self.store.insert_outcome(s) == WriteOutcome::Written {
            next.raising(HookEventView::SubmissionReceived { submission: s })
        } else {
            next
        }
    }

    /// One accrual pass over a submission.
    pub open spec fn accrue(self, id: Seq<char>, now: Seq<char>, fresh_id: Seq<char>) -> (
        EngineView,
        Result<Option<AccrualOutcomeView>, Seq<char>>,
    ) {
        match self.store.accrual_inputs(id) {
            Err(e) => (self, Err(e.text())),
            Ok(None) => (self, Ok(None)),
            Ok(Some(inputs)) => if untouched(inputs) {
                (
                    self,
                    Ok(
                        Some(
                            AccrualOutcomeView {
                                payout: inputs.existing_payout,
                                previous_cents: previous_cents(inputs),
                                changed: false,
                            },
                        ),
                    ),
                )
            } else {
                let payout = priced(inputs, now, fresh_id);
                let changed = inputs.amount() != previous_cents(inputs);
                let written = EngineView { store: self.store.upsert_payout(payout), ..self };
                let told = if changed {
                    written.raising(
                        HookEventView::PayoutAccrued {
                            accrued: payout,
                            previous_cents: previous_cents(inputs),
                        },
                    )
                } else {
                    written
                };
                let done = if reaches_budget(inputs) {
                    told.raising(
                        HookEventView::BudgetReached {
                            campaign_id: inputs.campaign.id,
                            brand: inputs.campaign.brand,
                            budget_cents: inputs.campaign.budget_cents,
                            accrued_cents: (inputs.campaign_committed_excluding_this
                                + inputs.amount()) as i64,
                            reached_at: now,
                        },
                    )
                } else {
                    told
                };
                (
                    done,
                    Ok(
                        Some(
                            AccrualOutcomeView {
                                payout: Some(payout),
                                previous_cents: previous_cents(inputs),
                                changed,
                            },
                        ),
                    ),
                )
            },
        }
    }

    /// A review decision. `now` stamps the review, `accrued_at` and `fresh_id` the accrual
    /// pass of an approval.
    pub open spec fn review(
        self,
        id: Seq<char>,
        approve: bool,
        reason: Option<Seq<char>>,
        now: Seq<char>,
        accrued_at: Seq<char>,
        fresh_id: Seq<char>,
    ) -> (EngineView, Result<Option<ReviewOutcomeView>, Seq<char>>) {
        match self.store.submission(id) {
            None => (self, Ok(None)),
            Some(current) => {
                let already = if approve {
                    current.status.cleared()
                } else {
                    current.status == SubmissionStatus::Rejected
                };
                if already {
                    (
                        self,
                        Ok(
                            Some(
                                ReviewOutcomeView {
                                    submission: current,
                                    payout: self.store.payout_of(id),
                                    changed: false,
                                },
                            ),
                        ),
                    )
                } else if !approve && current.status == SubmissionStatus::Paid {
                    (self, Err("this submission has already been paid and cannot be rejected"@))
                } else if approve {
                    let moved = EngineView {
                        store: self.store.set_submission_status(
                            id,
                            SubmissionStatus::Approved,
                            Some(now),
                            None,
                            now,
                        ),
                        ..self
                    };
                    let updated = moved.store.submission(id)->0;
                    let (accrued, outcome) = moved.accrue(id, accrued_at, fresh_id);
                    match outcome {
                        Err(e) => (accrued, Err(e)),
                        Ok(a) => (
                            accrued.raising(
                                HookEventView::SubmissionApproved {
                                    submission: updated,
                                    payout: payout_after(a),
                                    reviewed_at: now,
                                },
                            ),
                            Ok(
                                Some(
                                    ReviewOutcomeView {
                                        submission: updated,
                                        payout: payout_after(a),
                                        changed: true,
                                    },
                                ),
                            ),
                        ),
                    }
                } else {
                    let moved = EngineView {
                        store: self.store.set_submission_status(
                            id,
                            SubmissionStatus::Rejected,
                            Some(now),
                            kept_reason(reason),
                            now,
                        ),
                        ..self
                    };
                    let updated = moved.store.submission(id)->0;
                    let dropped = EngineView {
                        store: moved.store.delete_unpaid_payout(id),
                        ..moved
                    };
                    (
                        dropped.raising(
                            HookEventView::SubmissionRejected {
                                submission: updated,
                                reason: kept_reason(reason),
                                reviewed_at: now,
                            },
                        ),
                        Ok(
                            Some(
                                ReviewOutcomeView {
                                    submission: updated,
                                    payout: None,
                                    changed: true,
                                },
                            ),
                        ),
                    )
                }
            },
        }
    }

    /// Whether a submission can be refreshed at all: its record and its newest snapshot, or
    /// the precondition that fails.
    pub open spec fn refresh_plan(self, id: Seq<char>) -> Result<
        (SubmissionView, Option<SnapshotView>),
        RefreshErrorView,
    > {
        match self.store.submission(id) {
            None => Err(RefreshErrorView::NotFound),
            Some(s) => if composio::source_of(s.platform) is None {
                Err(RefreshErrorView::Unsupported(no_source_text(s.platform)))
            } else if text::blank(s.external_post_id) {
                Err(
                    RefreshErrorView::Unsupported(
                        "this submission's post url could not be parsed into a post id — record metrics manually"@,
                    ),
                )
            } else {
                Ok((s, self.store.latest(id)))
            },
        }
    }

    /// What a refresh comes to once its fetch has ended: a fetch that failed writes nothing.
    pub open spec fn finish_refresh(
        self,
        submission: SubmissionView,
        previous: Option<SnapshotView>,
        fetched: Result<MetricOutcomeView, MetricErrorView>,
        captured_at: Seq<char>,
        accrued_at: Seq<char>,
        fresh_id: Seq<char>,
    ) -> (EngineView, Result<RefreshOutcomeView, RefreshErrorView>) {
        match fetched {
            Ok(outcome) => self.apply_outcome(
                submission,
                previous,
                outcome,
                captured_at,
                accrued_at,
                fresh_id,
            ),
            Err(MetricErrorView::Unsupported(m)) => (self, Err(RefreshErrorView::Unsupported(m))),
            Err(MetricErrorView::Upstream(m)) => (self, Err(RefreshErrorView::Upstream(m))),
        }
    }

    /// Writing what a fetch produced. A wish for a connected account writes nothing.
    pub open spec fn apply_outcome(
        self,
        submission: SubmissionView,
        previous: Option<SnapshotView>,
        outcome: MetricOutcomeView,
        captured_at: Seq<char>,
        accrued_at: Seq<char>,
        fresh_id: Seq<char>,
    ) -> (EngineView, Result<RefreshOutcomeView, RefreshErrorView>) {
        match outcome {
            MetricOutcomeView::NeedsConnection { message, connect_url } => (
                self,
                Ok(RefreshOutcomeView::NeedsConnection { message, connect_url }),
            ),
            MetricOutcomeView::Sample(sample) => {
                let reading = snapshot_of(
                    submission.id,
                    sample,
                    MetricSource::Composio,
                    captured_at,
                );
                if self.store.last_snapshot_id == i64::MAX {
                    (
                        self,
                        Err(RefreshErrorView::Internal(StoreError::InsertingSnapshot.text())),
                    )
                } else {
                    let written = EngineView {
                        store: self.store.insert_snapshot(reading),
                        ..self
                    };
                    let snapshot = SnapshotView { id: written.store.last_snapshot_id, ..reading };
                    let told = written.raising(
                        HookEventView::MetricsRefreshed { submission, snapshot, previous },
                    );
                    let (done, accrual) = told.accrue(submission.id, accrued_at, fresh_id);
                    match accrual {
                        Err(e) => (done, Err(RefreshErrorView::Internal(e))),
                        Ok(a) => (
                            done,
                            Ok(
                                RefreshOutcomeView::Refreshed {
                                    snapshot,
                                    previous,
                                    payout: payout_after(a),
                                },
                            ),
                        ),
                    }
                }
            },
        }
    }

    /// Appending a hand-entered reading. It raises no refresh event of its own.
    pub open spec fn append_manual(
        self,
        id: Seq<char>,
        sample: MetricSample,
        captured_at: Seq<char>,
        accrued_at: Seq<char>,
        fresh_id: Seq<char>,
    ) -> (EngineView, Result<Option<(SnapshotView, Option<PayoutView>)>, Seq<char>>) {
        match self.store.submission(id) {
            None => (self, Ok(None)),
            Some(s) => if self.store.last_snapshot_id == i64::MAX {
                (self, Err(StoreError::InsertingSnapshot.text()))
            } else {
                let reading = snapshot_of(s.id, sample, MetricSource::Manual, captured_at);
                let written = EngineView { store: self.store.insert_snapshot(reading), ..self };
                let snapshot = SnapshotView { id: written.store.last_snapshot_id, ..reading };
                let (done, accrual) = written.accrue(id, accrued_at, fresh_id);
                match accrual {
                    Err(e) => (done, Err(e)),
                    Ok(a) => (done, Ok(Some((snapshot, payout_after(a))))),
                }
            },
        }
    }
}

/// What a refresh of a platform without a curated source is answered.
pub open spec fn no_source_text(platform: Seq<char>) -> Seq<char> {
    "no Composio metric source is curated for platform '"@ + platform
        + "' — record metrics manually"@
}

/// The accrual pass writes a row that the tables admit.
pub proof fn lemma_accrual_never_clashes(
    s: StoreView,
    id: Seq<char>,
    now: Seq<char>,
    fresh_id: Seq<char>,
)
    requires
        s.accrual_inputs(id) matches Ok(Some(_)),
    ensures
        !s.payout_clash(priced(s.accrual_inputs(id)->Ok_0->0, now, fresh_id)),
{
    let inputs = s.accrual_inputs(id)->Ok_0->0;
    let p = priced(inputs, now, fresh_id);
    rows::lemma_position(s.payouts, store::payout_on(id));
    match rows::position(s.payouts, store::payout_on(id)) {
        Some(i) => {
            rows::lemma_position(s.payouts, store::payout_is(p.id));
        },
        None => {},
    }
}

fn push_hook(outbox: &mut Vec<HookEvent>, event: HookEvent)
    ensures
        final(outbox).deep_view() == old(outbox).deep_view().push(event.deep_view()),
{
    outbox.push(event);
}

fn copy_payout(p: &Option<Payout>) -> (r: Option<Payout>)
    ensures
        r.deep_view() == p.deep_view(),
{
    match p {
        Some(x) => Some(x.clone()),
        None => None,
    }
}

fn copy_snapshot(p: &Option<MetricSnapshot>) -> (r: Option<MetricSnapshot>)
    ensures
        r.deep_view() == p.deep_view(),
{
    match p {
        Some(x) => Some(x.clone()),
        None => None,
    }
}

impl UgcEngine {
    /// An engine over a store, with nothing to raise.
    pub fn new(store: UgcStore) -> (r: Self)
        ensures
            r.deep_view() == (EngineView { store: store.deep_view(), outbox: Seq::empty() }),
    {
        let outbox: Vec<HookEvent> = Vec::new();
        UgcEngine { store, outbox }
    }

    /// Takes the events that have not been raised yet.
    pub fn take_outbox(&mut self) -> (out: Vec<HookEvent>)
        ensures
            out.deep_view() == old(self).deep_view().outbox,
            final(self).deep_view() == (EngineView {
                outbox: Seq::empty(),
                ..old(self).deep_view()
            }),
    {
        let mut out: Vec<HookEvent> = Vec::new();
        std::mem::swap(&mut out, &mut self.outbox);
        out
    }

    /// Records a submission. A post that already stands in the campaign comes back as
    /// [`WriteOutcome::DuplicatePost`] and raises nothing.
    pub fn create_submission(&mut self, s: &Submission) -> (outcome: WriteOutcome)
        requires
            old(self).deep_view().store.wf(),
        ensures
            outcome == old(self).deep_view().store.insert_outcome(s.deep_view()),
            final(self).deep_view() == old(self).deep_view().create_submission(s.deep_view()),
            final(self).deep_view().store.wf(),
    {
        let outcome = self.store.insert_submission(s);
        if outcome == WriteOutcome::Written {
            push_hook(
                &mut self.outbox,
                HookEvent::SubmissionReceived { submission: s.clone() },
            );
        }
        outcome
    }

    /// Re-prices one submission's payout row from its newest snapshot, at the given time and
    /// under the given id where the row is new.
    pub fn accrue_submission_at(&mut self, id: &str, now: &str, fresh_id: &str) -> (r: Result<
        Option<AccrualOutcome>,
        String,
    >)
        requires
            old(self).deep_view().store.wf(),
        ensures
            (final(self).deep_view(), outcome_result(r)) == old(self).deep_view().accrue(
                id@,
                now@,
                fresh_id@,
            ),
            final(self).deep_view().store.wf(),
    {
        let ghost before = self.deep_view();
        let inputs = match self.store.accrual_inputs(id) {
            Ok(Some(i)) => i,
            Ok(None) => {
                return Ok(None);
            },
            Err(e) => {
                return Err(e.message());
            },
        };
        let previous: i64 = match &inputs.existing_payout {
            Some(p) => p.amount_cents,
            None => 0,
        };
        let frozen: bool = match &inputs.existing_payout {
            Some(p) => p.status != PayoutStatus::Accrued,
            None => false,
        };
        let cleared: bool = inputs.submission.status == SubmissionStatus::Approved
            || inputs.submission.status == SubmissionStatus::Paid;
        if frozen || !cleared {
            return Ok(
                Some(
                    AccrualOutcome {
                        payout: inputs.existing_payout,
                        previous_cents: previous,
                        changed: false,
                    },
                ),
            );
        }
        proof {
            lemma_accrual_never_clashes(before.store, id@, now@, fresh_id@);
        }
        let views: i64 = inputs.views();
        let amount: i64 = inputs.amount_cents();
        let (row_id, accrued_at, created_at): (String, String, String) =
            match &inputs.existing_payout {
            Some(p) => (p.id.clone(), p.accrued_at.clone(), p.created_at.clone()),
            None => (fresh_id.to_string(), now.to_string(), now.to_string()),
        };
        let payout = Payout {
            id: row_id,
            campaign_id: inputs.submission.campaign_id.clone(),
            creator_id: inputs.submission.creator_id.clone(),
            submission_id: Some(inputs.submission.id.clone()),
            amount_cents: amount,
            status: PayoutStatus::Accrued,
            reason: accrual_reason(views, &inputs.campaign, amount),
            accrued_at,
            approved_at: None,
            paid_at: None,
            created_at,
            updated_at: now.to_string(),
        };
        match self.store.upsert_payout(&payout) {
            Ok(_) => {},
            Err(e) => {
                return Err(e.message());
            },
        }
        let changed: bool = amount != previous;
        if changed {
            push_hook(
                &mut self.outbox,
                HookEvent::PayoutAccrued { accrued: payout.clone(), previous_cents: previous },
            );
        }
        let budget: i64 = inputs.campaign.budget_cents;
        if budget > 0 {
            let base: i128 = inputs.campaign_committed_excluding_this as i128;
            let was: i128 = base + previous as i128;
            let is: i128 = base + amount as i128;
            if was < budget as i128 && is >= budget as i128 {
                push_hook(
                    &mut self.outbox,
                    HookEvent::BudgetReached {
                        campaign_id: inputs.campaign.id.clone(),
                        brand: inputs.campaign.brand.clone(),
                        budget_cents: budget,
                        accrued_cents: is as i64,
                        reached_at: now.to_string(),
                    },
                );
            }
        }
        Ok(Some(AccrualOutcome { payout: Some(payout), previous_cents: previous, changed }))
    }

    /// Re-prices one submission's payout row from its newest snapshot.
    ///
    /// In place: the row's id is reused, so a second refresh rewrites the amount instead of
    /// adding a second row. Rows at `approved` or `paid` are frozen. `None` when the
    /// submission or its campaign is gone.
    pub fn accrue_submission(&mut self, id: &str) -> (r: Result<Option<AccrualOutcome>, String>)
        requires
            old(self).deep_view().store.wf(),
        ensures
            exists|now: Seq<char>, fresh_id: Seq<char>|
                clock::is_stamp(now) && clock::is_fresh("pay"@, fresh_id)
                    && (final(self).deep_view(), outcome_result(r)) == #[trigger] old(
                    self,
                ).deep_view().accrue(id@, now, fresh_id),
            final(self).deep_view().store.wf(),
    {
        let now = now_iso();
        let fresh_id = new_id("pay");
        self.accrue_submission_at(id, now.as_str(), fresh_id.as_str())
    }

    /// Approves or rejects a submission at the given times.
    pub fn review_submission_at(
        &mut self,
        id: &str,
        approve: bool,
        reason: Option<&str>,
        now: &str,
        accrued_at: &str,
        fresh_id: &str,
    ) -> (r: Result<Option<ReviewOutcome>, String>)
        requires
            old(self).deep_view().store.wf(),
        ensures
            (final(self).deep_view(), outcome_result(r)) == old(self).deep_view().review(
                id@,
                approve,
                reason.deep_view(),
                now@,
                accrued_at@,
                fresh_id@,
            ),
            final(self).deep_view().store.wf(),
    {
        let current = match self.store.get_submission(id) {
            Some(s) => s,
            None => {
                return Ok(None);
            },
        };
        let already: bool = if approve {
            current.status == SubmissionStatus::Approved || current.status
                == SubmissionStatus::Paid
        } else {
            current.status == SubmissionStatus::Rejected
        };
        if already {
            let payout = self.store.payout_for_submission(id);
            return Ok(Some(ReviewOutcome { submission: current, payout, changed: false }));
        }
        if !approve && current.status == SubmissionStatus::Paid {
            return Err("this submission has already been paid and cannot be rejected".to_string());
        }
        if approve {
            let updated = match self.store.set_submission_status(
                id,
                SubmissionStatus::Approved,
                Some(now),
                None,
                now,
            ) {
                Some(s) => s,
                None => {
                    return Ok(None);
                },
            };
            let payout = match self.accrue_submission_at(id, accrued_at, fresh_id) {
                Ok(Some(a)) => a.payout,
                Ok(None) => None,
                Err(e) => {
                    return Err(e);
                },
            };
            push_hook(
                &mut self.outbox,
                HookEvent::SubmissionApproved {
                    submission: updated.clone(),
                    payout: copy_payout(&payout),
                    reviewed_at: now.to_string(),
                },
            );
            return Ok(Some(ReviewOutcome { submission: updated, payout, changed: true }));
        }
        let reason = crate::auth::filled(reason);
        let kept: Option<&str> = match &reason {
            Some(s) => Some(s.as_str()),
            None => None,
        };
        let updated = match self.store.set_submission_status(
            id,
            SubmissionStatus::Rejected,
            Some(now),
            kept,
            now,
        ) {
            Some(s) => s,
            None => {
                return Ok(None);
            },
        };
        let _gone: bool = self.store.delete_unpaid_payout_for_submission(id);
        push_hook(
            &mut self.outbox,
            HookEvent::SubmissionRejected {
                submission: updated.clone(),
                reason,
                reviewed_at: now.to_string(),
            },
        );
        Ok(Some(ReviewOutcome { submission: updated, payout: None, changed: true }))
    }

    /// Approves or rejects a submission.
    ///
    /// Deciding a submission that is already in the requested state changes nothing and raises
    /// nothing. Approving stamps the review and runs the accrual pass; rejecting stamps the
    /// reason and removes an unpaid payout. `None` when there is no such submission; an error
    /// when the transition is refused.
    pub fn review_submission(&mut self, id: &str, approve: bool, reason: Option<String>) -> (r:
        Result<Option<ReviewOutcome>, String>)
        requires
            old(self).deep_view().store.wf(),
        ensures
            exists|now: Seq<char>, accrued_at: Seq<char>, fresh_id: Seq<char>|
                clock::is_stamp(now) && clock::is_stamp(accrued_at)
                    && clock::is_fresh("pay"@, fresh_id)
                    && (final(self).deep_view(), outcome_result(r)) == #[trigger] old(
                    self,
                ).deep_view().review(id@, approve, reason.deep_view(), now, accrued_at, fresh_id),
            final(self).deep_view().store.wf(),
    {
        let now = now_iso();
        let accrued_at = now_iso();
        let fresh_id = new_id("pay");
        let why: Option<&str> = match &reason {
            Some(s) => Some(s.as_str()),
            None => None,
        };
        assert(why.deep_view() == reason.deep_view());
        self.review_submission_at(
            id,
            approve,
            why,
            now.as_str(),
            accrued_at.as_str(),
            fresh_id.as_str(),
        )
    }

    // ---- metrics ------------------------------------------------------------------------------

    /// The first half of refreshing one submission: its record and the snapshot that a reading
    /// would replace, or the precondition that fails.
    pub fn refresh_submission(&self, id: &str) -> (r: Result<
        (Submission, Option<MetricSnapshot>),
        RefreshError,
    >)
        requires
            self.deep_view().store.wf(),
        ensures
            match self.deep_view().refresh_plan(id@) {
                Ok(plan) => r is Ok && r->Ok_0.deep_view() == plan,
                Err(e) => r is Err && r->Err_0.deep_view() == e,
            },
    {
        let submission = match self.store.get_submission(id) {
            Some(s) => s,
            None => {
                return Err(RefreshError::NotFound);
            },
        };
        if source_for(submission.platform.as_str()).is_none() {
            let mut m = "no Composio metric source is curated for platform '".to_string();
            m.append(submission.platform.as_str());
            m.append("' — record metrics manually");
            return Err(RefreshError::Unsupported(m));
        }
        if is_blank(submission.external_post_id.as_str()) {
            return Err(
                RefreshError::Unsupported(
                    "this submission's post url could not be parsed into a post id — record metrics manually".to_string(),
                ),
            );
        }
        let previous = self.store.latest_snapshot(id);
        Ok((submission, previous))
    }

    /// Writes what a fetch produced, at the given times. The store is touched in exactly one
    /// branch: an account that is not connected can neither append a snapshot nor re-price a
    /// payout.
    pub fn apply_metric_outcome_at(
        &mut self,
        submission: &Submission,
        previous: Option<MetricSnapshot>,
        outcome: MetricOutcome,
        captured_at: &str,
        accrued_at: &str,
        fresh_id: &str,
    ) -> (r: Result<RefreshOutcome, RefreshError>)
        requires
            old(self).deep_view().store.wf(),
        ensures
            (final(self).deep_view(), refresh_result(r)) == old(self).deep_view().apply_outcome(
                submission.deep_view(),
                previous.deep_view(),
                outcome.deep_view(),
                captured_at@,
                accrued_at@,
                fresh_id@,
            ),
            final(self).deep_view().store.wf(),
    {
        let sample = match outcome {
            MetricOutcome::NeedsConnection { message, connect_url } => {
                return Ok(RefreshOutcome::NeedsConnection { message, connect_url });
            },
            MetricOutcome::Sample(s) => s,
        };
        let mut snapshot = MetricSnapshot {
            id: 0,
            submission_id: submission.id.clone(),
            captured_at: captured_at.to_string(),
            views: sample.views,
            likes: sample.likes,
            comments: sample.comments,
            shares: sample.shares,
            saves: sample.saves,
            source: MetricSource::Composio,
        };
        match self.store.insert_snapshot(&snapshot) {
            Ok(id) => {
                snapshot.id = id;
            },
            Err(e) => {
                return Err(RefreshError::Internal(e.message()));
            },
        }
        push_hook(
            &mut self.outbox,
            HookEvent::MetricsRefreshed {
                submission: submission.clone(),
                snapshot: snapshot.clone(),
                previous: copy_snapshot(&previous),
            },
        );
        match self.accrue_submission_at(submission.id.as_str(), accrued_at, fresh_id) {
            Ok(Some(a)) => Ok(RefreshOutcome::Refreshed { snapshot, previous, payout: a.payout }),
            Ok(None) => Ok(RefreshOutcome::Refreshed { snapshot, previous, payout: None }),
            Err(e) => Err(RefreshError::Internal(e)),
        }
    }

    /// Writes what a fetch produced: a reading appends a snapshot, raises `metrics.refreshed`
    /// and re-runs the accrual; a wish for a connected account writes nothing.
    pub fn apply_metric_outcome(
        &mut self,
        submission: &Submission,
        previous: Option<MetricSnapshot>,
        outcome: MetricOutcome,
    ) -> (r: Result<RefreshOutcome, RefreshError>)
        requires
            old(self).deep_view().store.wf(),
        ensures
            exists|captured_at: Seq<char>, accrued_at: Seq<char>, fresh_id: Seq<char>|
                clock::is_stamp(captured_at) && clock::is_stamp(accrued_at)
                    && clock::is_fresh("pay"@, fresh_id)
                    && (final(self).deep_view(), refresh_result(r)) == #[trigger] old(
                    self,
                ).deep_view().apply_outcome(
                    submission.deep_view(),
                    previous.deep_view(),
                    outcome.deep_view(),
                    captured_at,
                    accrued_at,
                    fresh_id,
                ),
            final(self).deep_view().store.wf(),
    {
        let captured_at = now_iso();
        let accrued_at = now_iso();
        let fresh_id = new_id("pay");
        self.apply_metric_outcome_at(
            submission,
            previous,
            outcome,
            captured_at.as_str(),
            accrued_at.as_str(),
            fresh_id.as_str(),
        )
    }

    /// The second half of refreshing one submission: a failed fetch is reported as what it is, and
    /// what a fetch produced is written.
    pub fn finish_refresh(
        &mut self,
        submission: &Submission,
        previous: Option<MetricSnapshot>,
        fetched: Result<MetricOutcome, MetricError>,
    ) -> (r: Result<RefreshOutcome, RefreshError>)
        requires
            old(self).deep_view().store.wf(),
        ensures
            exists|captured_at: Seq<char>, accrued_at: Seq<char>, fresh_id: Seq<char>|
                clock::is_stamp(captured_at) && clock::is_stamp(accrued_at)
                    && clock::is_fresh("pay"@, fresh_id)
                    && (final(self).deep_view(), refresh_result(r)) == #[trigger] old(
                    self,
                ).deep_view().finish_refresh(
                    submission.deep_view(),
                    previous.deep_view(),
                    execute::metric_result(fetched),
                    captured_at,
                    accrued_at,
                    fresh_id,
                ),
            final(self).deep_view().store.wf(),
    {
        let captured_at = now_iso();
        let accrued_at = now_iso();
        let fresh_id = new_id("pay");
        let ghost ended = self.deep_view().finish_refresh(
            submission.deep_view(),
            previous.deep_view(),
            execute::metric_result(fetched),
            captured_at@,
            accrued_at@,
            fresh_id@,
        );
        let r = match fetched {
            Ok(outcome) => self.apply_metric_outcome_at(
                submission,
                previous,
                outcome,
                captured_at.as_str(),
                accrued_at.as_str(),
                fresh_id.as_str(),
            ),
            Err(MetricError::Unsupported(m)) => Err(RefreshError::Unsupported(m)),
            Err(MetricError::Upstream(m)) => Err(RefreshError::Upstream(m)),
        };
        assert((self.deep_view(), refresh_result(r)) == ended);
        r
    }

    /// Appends a hand-entered snapshot and re-runs the submission's accrual, at the given
    /// times.
    pub fn append_manual_snapshot_at(
        &mut self,
        id: &str,
        sample: MetricSample,
        captured_at: &str,
        accrued_at: &str,
        fresh_id: &str,
    ) -> (r: Result<Option<(MetricSnapshot, Option<Payout>)>, String>)
        requires
            old(self).deep_view().store.wf(),
        ensures
            (final(self).deep_view(), outcome_result(r)) == old(self).deep_view().append_manual(
                id@,
                sample,
                captured_at@,
                accrued_at@,
                fresh_id@,
            ),
            final(self).deep_view().store.wf(),
    {
        let submission = match self.store.get_submission(id) {
            Some(s) => s,
            None => {
                return Ok(None);
            },
        };
        let mut snapshot = MetricSnapshot {
            id: 0,
            submission_id: submission.id,
            captured_at: captured_at.to_string(),
            views: sample.views,
            likes: sample.likes,
            comments: sample.comments,
            shares: sample.shares,
            saves: sample.saves,
            source: MetricSource::Manual,
        };
        match self.store.insert_snapshot(&snapshot) {
            Ok(new) => {
                snapshot.id = new;
            },
            Err(e) => {
                return Err(e.message());
            },
        }
        match self.accrue_submission_at(id, accrued_at, fresh_id) {
            Ok(Some(a)) => Ok(Some((snapshot, a.payout))),
            Ok(None) => Ok(Some((snapshot, None))),
            Err(e) => Err(e),
        }
    }

    /// Appends a hand-entered snapshot and re-runs the submission's accrual. It raises no
    /// `metrics.refreshed`, which means that the curated action answered. `None` when there is
    /// no such submission.
    pub fn append_manual_snapshot(&mut self, id: &str, sample: MetricSample) -> (r: Result<
        Option<(MetricSnapshot, Option<Payout>)>,
        String,
    >)
        requires
            old(self).deep_view().store.wf(),
        ensures
            exists|captured_at: Seq<char>, accrued_at: Seq<char>, fresh_id: Seq<char>|
                clock::is_stamp(captured_at) && clock::is_stamp(accrued_at)
                    && clock::is_fresh("pay"@, fresh_id)
                    && (final(self).deep_view(), outcome_result(r)) == #[trigger] old(
                    self,
                ).deep_view().append_manual(id@, sample, captured_at, accrued_at, fresh_id),
            final(self).deep_view().store.wf(),
    {
        let captured_at = now_iso();
        let accrued_at = now_iso();
        let fresh_id = new_id("pay");
        self.append_manual_snapshot_at(
            id,
            sample,
            captured_at.as_str(),
            accrued_at.as_str(),
            fresh_id.as_str(),
        )
    }

    /// The submissions that refreshing a campaign visits, one after the other: every approved
    /// one, newest first.
    pub fn refresh_campaign(&self, campaign_id: &str) -> (out: Vec<Submission>)
        ensures
            rows::ranking(
                rows::picked(
                    self.deep_view().store.submissions,
                    lists::submission_listed(approved_in(campaign_id@)),
                ),
                out.deep_view(),
                lists::submission_order(),
            ),
    {
        let filter = SubmissionFilter {
            campaign_id: Some(campaign_id.to_string()),
            creator_id: None,
            status: Some(SubmissionStatus::Approved),
            platform: None,
            limit: None,
        };
        self.store.rank_submissions(&filter)
    }
}

/// The approved submissions of a campaign.
pub open spec fn approved_in(campaign_id: Seq<char>) -> SubmissionFilterView {
    SubmissionFilterView {
        campaign_id: Some(campaign_id),
        creator_id: None,
        status: Some(SubmissionStatus::Approved),
        platform: None,
        limit: None,
    }
}

// ---- refresh reports ------------------------------------------------------------------------------

/// The three answers a refresh can give about one submission.
#[derive(Debug, Clone, Copy, PartialEq, Eq, Structural)]
pub enum RefreshStatus {
    /// Counters were read and a snapshot written.
    Success,
    /// The account behind this platform is not linked yet.
    NeedsConnection,
    /// Anything else.
    Error,
}

impl RefreshStatus {
    /// The wire value.
    pub open spec fn text(self) -> Seq<char> {
        match self {
            RefreshStatus::Success => "ok"@,
            RefreshStatus::NeedsConnection => "needs_connection"@,
            RefreshStatus::Error => "error"@,
        }
    }

    /// The wire value.
    pub fn as_str(self) -> (r: &'static str)
        ensures
            r@ == self.text(),
    {
        match self {
            RefreshStatus::Success => "ok",
            RefreshStatus::NeedsConnection => "needs_connection",
            RefreshStatus::Error => "error",
        }
    }
}

/// One submission's line in a refresh response.
#[derive(Debug)]
pub struct SubmissionRefreshReport {
    pub submission_id: String,
    pub status: RefreshStatus,
    pub message: Option<String>,
    pub connect_url: Option<String>,
    pub snapshot: Option<MetricSnapshot>,
}

/// The view of a [`SubmissionRefreshReport`].
#[verifier::ext_equal]
pub struct ReportView {
    pub submission_id: Seq<char>,
    pub status: RefreshStatus,
    pub message: Option<Seq<char>>,
    pub connect_url: Option<Seq<char>>,
    pub snapshot: Option<SnapshotView>,
}

impl DeepView for SubmissionRefreshReport {
    type V = ReportView;

    open spec fn deep_view(&self) -> ReportView {
        ReportView {
            submission_id: self.submission_id@,
            status: self.status,
            message: self.message.deep_view(),
            connect_url: self.connect_url.deep_view(),
            snapshot: self.snapshot.deep_view(),
        }
    }
}

/// The report of what a refresh came to.
pub open spec fn report_of(
    id: Seq<char>,
    r: Result<RefreshOutcomeView, RefreshErrorView>,
) -> ReportView {
    match r {
        Ok(RefreshOutcomeView::Refreshed { snapshot, .. }) => ReportView {
            submission_id: id,
            status: RefreshStatus::Success,
            message: None,
            connect_url: None,
            snapshot: Some(snapshot),
        },
        Ok(RefreshOutcomeView::NeedsConnection { message, connect_url }) => ReportView {
            submission_id: id,
            status: RefreshStatus::NeedsConnection,
            message: Some(message),
            connect_url,
            snapshot: None,
        },
        Err(e) => ReportView {
            submission_id: id,
            status: RefreshStatus::Error,
            message: Some(e.text()),
            connect_url: None,
            snapshot: None,
        },
    }
}

impl SubmissionRefreshReport {
    /// The report for a refresh that produced an outcome.
    pub fn from_outcome(submission_id: &str, outcome: RefreshOutcome) -> (r: Self)
        ensures
            r.deep_view() == report_of(submission_id@, Ok(outcome.deep_view())),
    {
        match outcome {
            RefreshOutcome::Refreshed { snapshot, previous: _, payout: _ } =>
                SubmissionRefreshReport {
                submission_id: submission_id.to_string(),
                status: RefreshStatus::Success,
                message: None,
                connect_url: None,
                snapshot: Some(snapshot),
            },
            RefreshOutcome::NeedsConnection { message, connect_url } => SubmissionRefreshReport {
                submission_id: submission_id.to_string(),
                status: RefreshStatus::NeedsConnection,
                message: Some(message),
                connect_url,
                snapshot: None,
            },
        }
    }

    /// The report for a refresh that failed.
    pub fn from_error(submission_id: &str, error: &RefreshError) -> (r: Self)
        ensures
            r.deep_view() == report_of(submission_id@, Err(error.deep_view())),
    {
        SubmissionRefreshReport {
            submission_id: submission_id.to_string(),
            status: RefreshStatus::Error,
            message: Some(error.message()),
            connect_url: None,
            snapshot: None,
        }
    }
}

/// The campaign-level split of refresh reports.
#[derive(Debug, Clone, Copy, PartialEq, Eq, Structural)]
pub struct RefreshCounts {
    pub ok: usize,
    pub needs_connection: usize,
    pub error: usize,
}

impl Default for RefreshCounts {
    fn default() -> (r: Self)
        ensures
            r == (RefreshCounts { ok: 0, needs_connection: 0, error: 0 }),
    {
        RefreshCounts { ok: 0, needs_connection: 0, error: 0 }
    }
}

/// The report has the given status.
pub open spec fn reports(status: RefreshStatus) -> spec_fn(ReportView) -> bool {
    |r: ReportView| r.status == status
}

impl RefreshCounts {
    /// Tallies a batch of reports.
    pub fn of(reports_list: &Vec<SubmissionRefreshReport>) -> (r: Self)
        ensures
            r.ok == rows::tally(reports_list.deep_view(), reports(RefreshStatus::Success)),
            r.needs_connection == rows::tally(
                reports_list.deep_view(),
                reports(RefreshStatus::NeedsConnection),
            ),
            r.error == rows::tally(reports_list.deep_view(), reports(RefreshStatus::Error)),
            r.ok + r.needs_connection + r.error == reports_list.len(),
    {
        let mut counts = RefreshCounts { ok: 0, needs_connection: 0, error: 0 };
        let ghost s = reports_list.deep_view();
        let mut i: usize = 0;
        while i < reports_list.len()
            invariant
                s == reports_list.deep_view(),
                i <= reports_list.len(),
                counts.ok == rows::tally(s.take(i as int), reports(RefreshStatus::Success)),
                counts.needs_connection == rows::tally(
                    s.take(i as int),
                    reports(RefreshStatus::NeedsConnection),
                ),
                counts.error == rows::tally(s.take(i as int), reports(RefreshStatus::Error)),
                counts.ok + counts.needs_connection + counts.error == i,
            decreases reports_list.len() - i,
        {
            let ghost next = s.take(i + 1);
            assert(next.drop_last() =~= s.take(i as int));
            match reports_list[i].status {
                RefreshStatus::Success => {
                    counts.ok = counts.ok + 1;
                },
                RefreshStatus::NeedsConnection => {
                    counts.needs_connection = counts.needs_connection + 1;
                },
                RefreshStatus::Error => {
                    counts.error = counts.error + 1;
                },
            }
            i += 1;
        }
        assert(s.take(s.len() as int) =~= s);
        counts
    }
}

/// What refreshing a whole campaign did: one line per approved submission, plus the split.
#[derive(Debug)]
pub struct CampaignRefreshReport {
    pub results: Vec<SubmissionRefreshReport>,
    pub counts: RefreshCounts,
}

/// Collects the reports of a campaign's refresh.
pub fn campaign_report(results: Vec<SubmissionRefreshReport>) -> (r: CampaignRefreshReport)
    ensures
        r.results == results,
        r.counts.ok == rows::tally(results.deep_view(), reports(RefreshStatus::Success)),
        r.counts.needs_connection == rows::tally(
            results.deep_view(),
            reports(RefreshStatus::NeedsConnection),
        ),
        r.counts.error == rows::tally(results.deep_view(), reports(RefreshStatus::Error)),
        r.counts.ok + r.counts.needs_connection + r.counts.error == results.len(),
{
    let counts = RefreshCounts::of(&results);
    CampaignRefreshReport { results, counts }
}

// ---- refreshing a campaign, one submission after the other -----------------------------------

/// A campaign's refresh under way: the submissions to visit, and a line for each one visited.
#[derive(Debug)]
pub struct CampaignRefresh {
    pub plan: Vec<Submission>,
    pub results: Vec<SubmissionRefreshReport>,
}

/// The view of a [`CampaignRefresh`].
#[verifier::ext_equal]
pub struct CampaignRefreshView {
    pub plan: Seq<SubmissionView>,
    pub results: Seq<ReportView>,
}

impl DeepView for CampaignRefresh {
    type V = CampaignRefreshView;

    open spec fn deep_view(&self) -> CampaignRefreshView {
        CampaignRefreshView { plan: self.plan.deep_view(), results: self.results.deep_view() }
    }
}

impl CampaignRefreshView {
    /// The lines are those of the first submissions of the plan, one each, in its order.
    pub open spec fn wf(self) -> bool {
        &&& self.results.len() <= self.plan.len()
        &&& forall|i: int|
            0 <= i < self.results.len() ==> (#[trigger] self.results[i]).submission_id
                == self.plan[i].id
    }

    /// Every submission of the plan was visited.
    pub open spec fn is_over(self) -> bool {
        self.results.len() == self.plan.len()
    }
}

impl CampaignRefresh {
    /// The start of a campaign's refresh: nothing was visited yet.
    pub fn start(plan: Vec<Submission>) -> (r: Self)
        ensures
            r.deep_view() == (CampaignRefreshView {
                plan: plan.deep_view(),
                results: Seq::empty(),
            }),
            r.deep_view().wf(),
    {
        let r = CampaignRefresh { plan, results: Vec::new() };
        r
    }

    /// The submission to visit next, or nothing when all of them were.
    pub fn next_visit(&self) -> (r: Option<&str>)
        requires
            self.deep_view().wf(),
        ensures
            r.deep_view() == if self.deep_view().is_over() {
                None
            } else {
                Some(self.deep_view().plan[self.deep_view().results.len() as int].id)
            },
    {
        if self.results.len() < self.plan.len() {
            Some(self.plan[self.results.len()].id.as_str())
        } else {
            None
        }
    }

    /// Takes down what the visit came to. A failure is a line like any other.
    pub fn record(&mut self, outcome: Result<RefreshOutcome, RefreshError>)
        requires
            old(self).deep_view().wf(),
            !old(self).deep_view().is_over(),
        ensures
            final(self).deep_view() == (CampaignRefreshView {
                plan: old(self).deep_view().plan,
                results: old(self).deep_view().results.push(
                    report_of(
                        old(self).deep_view().plan[old(self).deep_view().results.len() as int].id,
                        refresh_result(outcome),
                    ),
                ),
            }),
            final(self).deep_view().wf(),
    {
        let ghost before = self.deep_view();
        let id = self.plan[self.results.len()].id.clone();
        let line = match outcome {
            Ok(o) => SubmissionRefreshReport::from_outcome(id.as_str(), o),
            Err(e) => SubmissionRefreshReport::from_error(id.as_str(), &e),
        };
        let ghost told = line.deep_view();
        self.results.push(line);
        assert(self.results.deep_view() =~= before.results.push(told));
    }

    /// The report of a refresh that is over: one line per submission of the plan, in its order,
    /// and the split.
    pub fn finish(self) -> (r: CampaignRefreshReport)
        requires
            self.deep_view().wf(),
            self.deep_view().is_over(),
        ensures
            r.results == self.results,
            r.results.len() == self.plan.len(),
            forall|i: int|
                0 <= i < r.results.len() ==> (#[trigger] r.results@[i]).submission_id@
                    == self.plan@[i].id@,
            r.counts.ok == rows::tally(self.deep_view().results, reports(RefreshStatus::Success)),
            r.counts.needs_connection == rows::tally(
                self.deep_view().results,
                reports(RefreshStatus::NeedsConnection),
            ),
            r.counts.error == rows::tally(self.deep_view().results, reports(RefreshStatus::Error)),
            r.counts.ok + r.counts.needs_connection + r.counts.error == self.plan.len(),
    {
        proof {
            let (p, l) = (self.plan.deep_view(), self.results.deep_view());
            assert forall|i: int| 0 <= i < l.len() implies (#[trigger] self.results@[i]).submission_id@
                == self.plan@[i].id@ by {
                assert(l[i].submission_id == p[i].id);
            }
        }
        campaign_report(self.results)
    }
}

} // verus!
