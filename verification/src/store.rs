//! The five tables of the app and every read and write on them.
//!
//! A store value holds the rows; whoever keeps them on disk reads them in with
//! [`UgcStore::load`] and writes back the rows that an operation changed.
//!
//! Two rules hold of the tables at all times: a post stands in a campaign at most once, so
//! the same video can never be paid twice, and a submission has at most one payout row, so
//! the accrual pass re-prices in place instead of doubling the campaign's spend.
use crate::pricing::AccrualView;
use crate::records::{
    Campaign, CampaignView, Creator, CreatorView, MetricSnapshot, Payout, PayoutStatus, PayoutView,
    SnapshotView, Submission, SubmissionStatus, SubmissionView,
};
use crate::rows;
use crate::text;
use vstd::prelude::*;

verus! {

/// The database file name, joined onto the host's data directory.
pub const DB_FILE_NAME: &'static str = "ugc.db";

// ---- rows ---------------------------------------------------------------------------------

/// A `submissions` row: the record, and the state column as it is stored.
#[derive(Debug)]
pub struct SubmissionRow {
    pub record: Submission,
    pub status_text: String,
}

/// The view of a [`SubmissionRow`].
#[verifier::ext_equal]
pub struct SubmissionRowView {
    pub record: SubmissionView,
    pub status_text: Seq<char>,
}

impl DeepView for SubmissionRow {
    type V = SubmissionRowView;

    open spec fn deep_view(&self) -> SubmissionRowView {
        SubmissionRowView { record: self.record.deep_view(), status_text: self.status_text@ }
    }
}

/// A `payouts` row: the record, and the state column as it is stored.
#[derive(Debug)]
pub struct PayoutRow {
    pub record: Payout,
    pub status_text: String,
}

/// The view of a [`PayoutRow`].
#[verifier::ext_equal]
pub struct PayoutRowView {
    pub record: PayoutView,
    pub status_text: Seq<char>,
}

impl DeepView for PayoutRow {
    type V = PayoutRowView;

    open spec fn deep_view(&self) -> PayoutRowView {
        PayoutRowView { record: self.record.deep_view(), status_text: self.status_text@ }
    }
}

/// A `creators` row whose record cannot be read: its id, and the name column as it is stored.
#[derive(Debug)]
pub struct UnreadCreator {
    pub id: String,
    pub display_name: String,
}

/// The view of an [`UnreadCreator`].
#[verifier::ext_equal]
pub struct UnreadCreatorView {
    pub id: Seq<char>,
    pub display_name: Seq<char>,
}

impl DeepView for UnreadCreator {
    type V = UnreadCreatorView;

    open spec fn deep_view(&self) -> UnreadCreatorView {
        UnreadCreatorView { id: self.id@, display_name: self.display_name@ }
    }
}

/// The row that is written for a submission.
pub open spec fn submission_row(s: SubmissionView) -> SubmissionRowView {
    SubmissionRowView { record: s, status_text: s.status.text() }
}

/// The row that is written for a payout.
pub open spec fn payout_row(p: PayoutView) -> PayoutRowView {
    PayoutRowView { record: p, status_text: p.status.text() }
}

/// Builds a `submissions` row from its columns: the state is read leniently from `status`.
pub fn map_submission(mut record: Submission, status: String) -> (r: SubmissionRow)
    ensures
        r.deep_view() == (SubmissionRowView {
            record: SubmissionView {
                status: SubmissionStatus::stored(status@),
                ..record.deep_view()
            },
            status_text: status@,
        }),
{
    record.status = SubmissionStatus::from_db(status.as_str());
    SubmissionRow { record, status_text: status }
}

/// Builds a `payouts` row from its columns: the state is read leniently from `status`.
pub fn map_payout(mut record: Payout, status: String) -> (r: PayoutRow)
    ensures
        r.deep_view() == (PayoutRowView {
            record: PayoutView { status: PayoutStatus::stored(status@), ..record.deep_view() },
            status_text: status@,
        }),
{
    record.status = PayoutStatus::from_db(status.as_str());
    PayoutRow { record, status_text: status }
}

pub(crate) fn row_of_submission(s: &Submission) -> (r: SubmissionRow)
    ensures
        r.deep_view() == submission_row(s.deep_view()),
{
    SubmissionRow { record: s.clone(), status_text: s.status.as_str().to_string() }
}

pub(crate) fn row_of_payout(p: &Payout) -> (r: PayoutRow)
    ensures
        r.deep_view() == payout_row(p.deep_view()),
{
    PayoutRow { record: p.clone(), status_text: p.status.as_str().to_string() }
}

// ---- changes worth pushing to a live viewer ------------------------------------------------

/// A change worth pushing to a live viewer.
#[derive(Debug)]
pub enum UgcEvent {
    CampaignChanged { campaign: Box<Campaign> },
    SubmissionChanged { submission: Box<Submission> },
    PayoutChanged { payout: Box<Payout> },
    /// `entity` is `campaign`, `creator` or `submission`.
    Deleted { entity: String, id: String },
}

/// The view of a [`UgcEvent`].
pub enum UgcEventView {
    CampaignChanged { campaign: CampaignView },
    SubmissionChanged { submission: SubmissionView },
    PayoutChanged { payout: PayoutView },
    Deleted { entity: Seq<char>, id: Seq<char> },
}

impl DeepView for UgcEvent {
    type V = UgcEventView;

    open spec fn deep_view(&self) -> UgcEventView {
        match self {
            UgcEvent::CampaignChanged { campaign } => UgcEventView::CampaignChanged {
                campaign: campaign.deep_view(),
            },
            UgcEvent::SubmissionChanged { submission } => UgcEventView::SubmissionChanged {
                submission: submission.deep_view(),
            },
            UgcEvent::PayoutChanged { payout } => UgcEventView::PayoutChanged {
                payout: payout.deep_view(),
            },
            UgcEvent::Deleted { entity, id } => UgcEventView::Deleted { entity: entity@, id: id@ },
        }
    }
}

// ---- outcomes -------------------------------------------------------------------------------

/// What a submission write did.
#[derive(Debug, Clone, Copy, PartialEq, Eq, Structural)]
pub enum WriteOutcome {
    Written,
    /// This exact post is already in this campaign, or the id is taken.
    DuplicatePost,
    /// No row with that id (update only).
    NotFound,
}

/// Why a store operation failed.
#[derive(Debug, Clone, Copy, PartialEq, Eq, Structural)]
pub enum StoreError {
    /// The rows break a rule of the tables.
    CorruptRows,
    /// The submission already has a payout row under another id.
    UpsertingPayout,
    /// No snapshot id is left.
    InsertingSnapshot,
    /// The money of a campaign does not fit in 64 bits.
    SummingCampaignPayouts,
    /// The money of a creator does not fit in 64 bits.
    SummingCreatorPayouts,
    /// The counters of a campaign do not fit in 64 bits.
    SummingCampaignMetrics,
    /// Another sum does not fit in 64 bits.
    IntegerOverflow,
    /// A search pattern is too long.
    PatternTooComplex,
    /// There is such a campaign, and its record cannot be read.
    DeserializingCampaign,
    /// There is such a creator, and their record cannot be read.
    DeserializingCreator,
}

impl StoreError {
    /// The message that a failed operation reports.
    pub open spec fn text(self) -> Seq<char> {
        match self {
            StoreError::CorruptRows => "the stored rows break a uniqueness rule"@,
            StoreError::UpsertingPayout => "upserting payout"@,
            StoreError::InsertingSnapshot => "inserting metric snapshot"@,
            StoreError::SummingCampaignPayouts => "summing campaign payouts"@,
            StoreError::SummingCreatorPayouts => "summing creator payouts"@,
            StoreError::SummingCampaignMetrics => "summing campaign metrics"@,
            StoreError::IntegerOverflow => "integer overflow"@,
            StoreError::PatternTooComplex => "LIKE or GLOB pattern too complex"@,
            StoreError::DeserializingCampaign => "deserializing campaign"@,
            StoreError::DeserializingCreator => "deserializing creator"@,
        }
    }

    /// The message that a failed operation reports.
    pub fn message(self) -> (r: String)
        ensures
            r@ == self.text(),
    {
        let m: &'static str = match self {
            StoreError::CorruptRows => "the stored rows break a uniqueness rule",
            StoreError::UpsertingPayout => "upserting payout",
            StoreError::InsertingSnapshot => "inserting metric snapshot",
            StoreError::SummingCampaignPayouts => "summing campaign payouts",
            StoreError::SummingCreatorPayouts => "summing creator payouts",
            StoreError::SummingCampaignMetrics => "summing campaign metrics",
            StoreError::IntegerOverflow => "integer overflow",
            StoreError::PatternTooComplex => "LIKE or GLOB pattern too complex",
            StoreError::DeserializingCampaign => "deserializing campaign",
            StoreError::DeserializingCreator => "deserializing creator",
        };
        m.to_string()
    }
}

// ---- the tables --------------------------------------------------------------------------------

/// The rows of the five tables, the last snapshot id that was handed out, and the changes
/// that have not been pushed to live viewers yet. A campaign or creator whose record cannot be
/// read stands apart: lists leave it out, counts do not, and to read it is an error.
#[derive(Debug)]
pub struct UgcStore {
    pub campaigns: Vec<Campaign>,
    pub unread_campaigns: Vec<String>,
    pub creators: Vec<Creator>,
    pub unread_creators: Vec<UnreadCreator>,
    pub submissions: Vec<SubmissionRow>,
    pub snapshots: Vec<MetricSnapshot>,
    pub payouts: Vec<PayoutRow>,
    pub last_snapshot_id: i64,
    pub feed: Vec<UgcEvent>,
}

/// The view of a [`UgcStore`].
#[verifier::ext_equal]
pub struct StoreView {
    pub campaigns: Seq<CampaignView>,
    pub unread_campaigns: Seq<Seq<char>>,
    pub creators: Seq<CreatorView>,
    pub unread_creators: Seq<UnreadCreatorView>,
    pub submissions: Seq<SubmissionRowView>,
    pub snapshots: Seq<SnapshotView>,
    pub payouts: Seq<PayoutRowView>,
    pub last_snapshot_id: i64,
    pub feed: Seq<UgcEventView>,
}

impl DeepView for UgcStore {
    type V = StoreView;

    open spec fn deep_view(&self) -> StoreView {
        StoreView {
            campaigns: self.campaigns.deep_view(),
            unread_campaigns: self.unread_campaigns.deep_view(),
            creators: self.creators.deep_view(),
            unread_creators: self.unread_creators.deep_view(),
            submissions: self.submissions.deep_view(),
            snapshots: self.snapshots.deep_view(),
            payouts: self.payouts.deep_view(),
            last_snapshot_id: self.last_snapshot_id,
            feed: self.feed.deep_view(),
        }
    }
}

/// The primary key of `campaigns`.
pub open spec fn campaign_key() -> spec_fn(CampaignView) -> Seq<char> {
    |c: CampaignView| c.id
}

/// The primary key of `creators`.
pub open spec fn creator_key() -> spec_fn(CreatorView) -> Seq<char> {
    |c: CreatorView| c.id
}

/// The primary key of `submissions`.
pub open spec fn submission_key() -> spec_fn(SubmissionRowView) -> Seq<char> {
    |r: SubmissionRowView| r.record.id
}

/// The primary key of `metric_snapshots`.
pub open spec fn snapshot_key() -> spec_fn(SnapshotView) -> i64 {
    |m: SnapshotView| m.id
}

/// The primary key of `payouts`.
pub open spec fn payout_key() -> spec_fn(PayoutRowView) -> Seq<char> {
    |p: PayoutRowView| p.record.id
}

/// The campaign is `id`.
pub open spec fn campaign_is(id: Seq<char>) -> spec_fn(CampaignView) -> bool {
    |c: CampaignView| c.id == id
}

/// The creator is `id`.
pub open spec fn creator_is(id: Seq<char>) -> spec_fn(CreatorView) -> bool {
    |c: CreatorView| c.id == id
}

/// The text is `id`.
pub open spec fn id_is(id: Seq<char>) -> spec_fn(Seq<char>) -> bool {
    |t: Seq<char>| t == id
}

/// The creator whose record cannot be read is `id`.
pub open spec fn unread_creator_is(id: Seq<char>) -> spec_fn(UnreadCreatorView) -> bool {
    |c: UnreadCreatorView| c.id == id
}

/// No campaign has this id.
pub open spec fn no_campaign(s: Seq<CampaignView>) -> spec_fn(Seq<char>) -> bool {
    |id: Seq<char>| !rows::any(s, campaign_is(id))
}

/// No creator has this row's id.
pub open spec fn no_creator(s: Seq<CreatorView>) -> spec_fn(UnreadCreatorView) -> bool {
    |c: UnreadCreatorView| !rows::any(s, creator_is(c.id))
}

/// The primary key of a campaign whose record cannot be read.
pub open spec fn unread_campaign_key() -> spec_fn(Seq<char>) -> Seq<char> {
    |id: Seq<char>| id
}

/// The primary key of a creator whose record cannot be read.
pub open spec fn unread_creator_key() -> spec_fn(UnreadCreatorView) -> Seq<char> {
    |c: UnreadCreatorView| c.id
}

/// The submission is `id`.
pub open spec fn submission_is(id: Seq<char>) -> spec_fn(SubmissionRowView) -> bool {
    |r: SubmissionRowView| r.record.id == id
}

/// The payout is `id`.
pub open spec fn payout_is(id: Seq<char>) -> spec_fn(PayoutRowView) -> bool {
    |p: PayoutRowView| p.record.id == id
}

/// The payout belongs to the submission `id`.
pub open spec fn payout_on(id: Seq<char>) -> spec_fn(PayoutRowView) -> bool {
    |p: PayoutRowView| p.record.submission_id == Some(id)
}

/// The submission points at this post; an empty post id identifies no post.
pub open spec fn post_is(
    campaign_id: Seq<char>,
    platform: Seq<char>,
    post_id: Seq<char>,
) -> spec_fn(SubmissionRowView) -> bool {
    |r: SubmissionRowView|
        post_id.len() > 0 && r.record.campaign_id == campaign_id && r.record.platform == platform
            && r.record.external_post_id == post_id
}

/// Two submissions point at the same post of the same campaign.
pub open spec fn same_post(a: SubmissionRowView, b: SubmissionRowView) -> bool {
    post_is(a.record.campaign_id, a.record.platform, a.record.external_post_id)(b)
}

/// No post stands twice in a campaign.
pub open spec fn posts_distinct(s: Seq<SubmissionRowView>) -> bool {
    forall|i: int, j: int| 0 <= i < j < s.len() ==> !same_post(#[trigger] s[i], #[trigger] s[j])
}

/// No submission has two payout rows.
pub open spec fn payouts_distinct(s: Seq<PayoutRowView>) -> bool {
    forall|i: int, j: int|
        0 <= i < j < s.len() && (#[trigger] s[i]).record.submission_id is Some
            ==> s[i].record.submission_id != (#[trigger] s[j]).record.submission_id
}

/// The state of the record is what the state column reads as.
pub open spec fn submission_reads() -> spec_fn(SubmissionRowView) -> bool {
    |r: SubmissionRowView| r.record.status == SubmissionStatus::stored(r.status_text)
}

/// The state of the record is what the state column reads as.
pub open spec fn payout_reads() -> spec_fn(PayoutRowView) -> bool {
    |p: PayoutRowView| p.record.status == PayoutStatus::stored(p.status_text)
}

/// The id was handed out.
pub open spec fn snapshot_numbered(last: i64) -> spec_fn(SnapshotView) -> bool {
    |m: SnapshotView| 1 <= m.id <= last
}

/// The snapshot at `i` is the newest one of the submission.
pub open spec fn newest_at(s: Seq<SnapshotView>, submission_id: Seq<char>, i: int) -> bool {
    &&& 0 <= i < s.len()
    &&& s[i].submission_id == submission_id
    &&& forall|j: int|
        0 <= j < s.len() && (#[trigger] s[j]).submission_id == submission_id ==> s[j].id <= s[i].id
}

/// The newest snapshot of a submission.
pub open spec fn newest(s: Seq<SnapshotView>, submission_id: Seq<char>) -> Option<SnapshotView> {
    if exists|i: int| newest_at(s, submission_id, i) {
        Some(s[choose|i: int| newest_at(s, submission_id, i)])
    } else {
        None
    }
}

/// The rows with `row` in place of the one at `at`, or after the others.
pub open spec fn with_row<T>(s: Seq<T>, at: Option<int>, row: T) -> Seq<T> {
    match at {
        Some(i) => s.update(i, row),
        None => s.push(row),
    }
}

/// What one payout row counts toward the money committed to a campaign.
pub open spec fn campaign_money(
    campaign_id: Seq<char>,
    except: Option<Seq<char>>,
) -> spec_fn(PayoutRowView) -> int {
    |p: PayoutRowView|
        if p.record.campaign_id == campaign_id && !(except is Some && p.record.submission_id
            == except) {
            p.record.amount_cents as int
        } else {
            0
        }
}

/// What one payout row counts toward the money committed to a creator on a campaign.
pub open spec fn creator_money(
    campaign_id: Seq<char>,
    creator_id: Seq<char>,
    except: Option<Seq<char>>,
) -> spec_fn(PayoutRowView) -> int {
    |p: PayoutRowView|
        if p.record.campaign_id == campaign_id && p.record.creator_id == creator_id && !(except
            is Some && p.record.submission_id == except) {
            p.record.amount_cents as int
        } else {
            0
        }
}

impl StoreView {
    /// The rules that the tables keep.
    pub open spec fn wf(self) -> bool {
        &&& rows::distinct(self.campaigns, campaign_key())
        &&& rows::distinct(self.creators, creator_key())
        &&& rows::distinct(self.submissions, submission_key())
        &&& rows::distinct(self.snapshots, snapshot_key())
        &&& rows::distinct(self.payouts, payout_key())
        &&& rows::distinct(self.unread_campaigns, unread_campaign_key())
        &&& rows::distinct(self.unread_creators, unread_creator_key())
        &&& rows::every(self.unread_campaigns, no_campaign(self.campaigns))
        &&& rows::every(self.unread_creators, no_creator(self.creators))
        &&& posts_distinct(self.submissions)
        &&& payouts_distinct(self.payouts)
        &&& rows::every(self.submissions, submission_reads())
        &&& rows::every(self.payouts, payout_reads())
        &&& rows::every(self.snapshots, snapshot_numbered(self.last_snapshot_id))
        &&& 0 <= self.last_snapshot_id
    }

    /// The campaign `id`.
    pub open spec fn campaign(self, id: Seq<char>) -> Option<CampaignView> {
        rows::found(self.campaigns, campaign_is(id))
    }

    /// The creator `id`.
    pub open spec fn creator(self, id: Seq<char>) -> Option<CreatorView> {
        rows::found(self.creators, creator_is(id))
    }

    /// There is a campaign `id` whose record cannot be read.
    pub open spec fn campaign_unread(self, id: Seq<char>) -> bool {
        rows::any(self.unread_campaigns, id_is(id))
    }

    /// There is a creator `id` whose record cannot be read.
    pub open spec fn creator_unread(self, id: Seq<char>) -> bool {
        rows::any(self.unread_creators, unread_creator_is(id))
    }

    /// There is a campaign `id`, readable or not.
    pub open spec fn has_campaign(self, id: Seq<char>) -> bool {
        self.campaign(id) is Some || self.campaign_unread(id)
    }

    /// There is a creator `id`, readable or not.
    pub open spec fn has_creator(self, id: Seq<char>) -> bool {
        self.creator(id) is Some || self.creator_unread(id)
    }

    /// What reading the campaign `id` gives.
    pub open spec fn read_campaign(self, id: Seq<char>) -> Result<
        Option<CampaignView>,
        StoreError,
    > {
        if self.campaign_unread(id) {
            Err(StoreError::DeserializingCampaign)
        } else {
            Ok(self.campaign(id))
        }
    }

    /// What reading the creator `id` gives.
    pub open spec fn read_creator(self, id: Seq<char>) -> Result<Option<CreatorView>, StoreError> {
        if self.creator_unread(id) {
            Err(StoreError::DeserializingCreator)
        } else {
            Ok(self.creator(id))
        }
    }

    /// The stored name of the creator `id`, which needs no readable record; empty where there is
    /// no such creator.
    pub open spec fn creator_name(self, id: Seq<char>) -> Seq<char> {
        match self.creator(id) {
            Some(c) => c.display_name,
            None => match rows::found(self.unread_creators, unread_creator_is(id)) {
                Some(c) => c.display_name,
                None => Seq::empty(),
            },
        }
    }

    /// How many campaigns there are, readable or not.
    pub open spec fn campaign_count(self) -> nat {
        self.campaigns.len() + self.unread_campaigns.len()
    }

    /// How many creators there are, readable or not.
    pub open spec fn creator_count(self) -> nat {
        self.creators.len() + self.unread_creators.len()
    }

    /// The submission `id`.
    pub open spec fn submission(self, id: Seq<char>) -> Option<SubmissionView> {
        match rows::found(self.submissions, submission_is(id)) {
            Some(r) => Some(r.record),
            None => None,
        }
    }

    /// The payout `id`.
    pub open spec fn payout(self, id: Seq<char>) -> Option<PayoutView> {
        match rows::found(self.payouts, payout_is(id)) {
            Some(p) => Some(p.record),
            None => None,
        }
    }

    /// The payout of the submission `id`.
    pub open spec fn payout_of(self, id: Seq<char>) -> Option<PayoutView> {
        match rows::found(self.payouts, payout_on(id)) {
            Some(p) => Some(p.record),
            None => None,
        }
    }

    /// The newest snapshot of the submission `id`.
    pub open spec fn latest(self, id: Seq<char>) -> Option<SnapshotView> {
        newest(self.snapshots, id)
    }

    /// The money committed to a campaign, without the row of the submission `except`.
    pub open spec fn campaign_committed(
        self,
        campaign_id: Seq<char>,
        except: Option<Seq<char>>,
    ) -> int {
        rows::total(self.payouts, campaign_money(campaign_id, except))
    }

    /// The money committed to a creator on a campaign, without the row of the submission
    /// `except`.
    pub open spec fn creator_committed(
        self,
        campaign_id: Seq<char>,
        creator_id: Seq<char>,
        except: Option<Seq<char>>,
    ) -> int {
        rows::total(self.payouts, creator_money(campaign_id, creator_id, except))
    }

    /// What the accrual pass reads about one submission: nothing where the submission or its
    /// campaign is gone, and an error where the campaign cannot be read or the committed money
    /// does not fit in 64 bits.
    pub open spec fn accrual_inputs(self, id: Seq<char>) -> Result<
        Option<AccrualView>,
        StoreError,
    > {
        match self.submission(id) {
            None => Ok(None),
            Some(submission) => match self.read_campaign(submission.campaign_id) {
                Err(e) => Err(e),
                Ok(None) => Ok(None),
                Ok(Some(campaign)) => {
                    let to_creator = self.creator_committed(
                        submission.campaign_id,
                        submission.creator_id,
                        Some(id),
                    );
                    let to_campaign = self.campaign_committed(submission.campaign_id, Some(id));
                    if !rows::fits(to_creator) {
                        Err(StoreError::SummingCreatorPayouts)
                    } else if !rows::fits(to_campaign) {
                        Err(StoreError::SummingCampaignPayouts)
                    } else {
                        Ok(
                            Some(
                                AccrualView {
                                    submission,
                                    campaign,
                                    latest: self.latest(id),
                                    existing_payout: self.payout_of(id),
                                    creator_committed_excluding_this: to_creator as i64,
                                    campaign_committed_excluding_this: to_campaign as i64,
                                },
                            ),
                        )
                    }
                },
            },
        }
    }

    /// The store with one more change to push.
    pub open spec fn announcing(self, event: UgcEventView) -> StoreView {
        StoreView { feed: self.feed.push(event), ..self }
    }
}

/// There is one newest snapshot per submission.
pub proof fn lemma_newest(s: StoreView, submission_id: Seq<char>, i: int)
    requires
        s.wf(),
        newest_at(s.snapshots, submission_id, i),
    ensures
        newest(s.snapshots, submission_id) == Some(s.snapshots[i]),
{
}

// ---- what each write does to the tables ------------------------------------------------------

/// The snapshot belongs to none of the submissions that `gone` picks.
pub open spec fn snapshot_outside(
    submissions: Seq<SubmissionRowView>,
    gone: spec_fn(SubmissionRowView) -> bool,
) -> spec_fn(SnapshotView) -> bool {
    |m: SnapshotView| !rows::any(submissions, snapshot_owner(m.submission_id, gone))
}

/// The submission is `id` and one of those that `gone` picks.
pub open spec fn snapshot_owner(
    id: Seq<char>,
    gone: spec_fn(SubmissionRowView) -> bool,
) -> spec_fn(SubmissionRowView) -> bool {
    |r: SubmissionRowView| gone(r) && r.record.id == id
}

/// The submission belongs to the campaign.
pub open spec fn in_campaign(campaign_id: Seq<char>) -> spec_fn(SubmissionRowView) -> bool {
    |r: SubmissionRowView| r.record.campaign_id == campaign_id
}

/// The submission belongs to the creator.
pub open spec fn by_creator(creator_id: Seq<char>) -> spec_fn(SubmissionRowView) -> bool {
    |r: SubmissionRowView| r.record.creator_id == creator_id
}

/// The row is none of those that `p` picks.
pub open spec fn not<T>(p: spec_fn(T) -> bool) -> spec_fn(T) -> bool {
    |t: T| !p(t)
}

/// The payout belongs to the campaign.
pub open spec fn payout_in(campaign_id: Seq<char>) -> spec_fn(PayoutRowView) -> bool {
    |p: PayoutRowView| p.record.campaign_id == campaign_id
}

/// The payout belongs to the creator.
pub open spec fn payout_to(creator_id: Seq<char>) -> spec_fn(PayoutRowView) -> bool {
    |p: PayoutRowView| p.record.creator_id == creator_id
}

/// The payout belongs to the submission and is not paid.
pub open spec fn unpaid_on(id: Seq<char>) -> spec_fn(PayoutRowView) -> bool {
    |p: PayoutRowView|
        p.record.submission_id == Some(id) && p.record.status != PayoutStatus::Paid
}

/// The snapshot belongs to the submission.
pub open spec fn snapshot_of(id: Seq<char>) -> spec_fn(SnapshotView) -> bool {
    |m: SnapshotView| m.submission_id == id
}

/// Another row than the one at `at` already points at this post.
pub open spec fn post_clash(
    s: Seq<SubmissionRowView>,
    at: int,
    platform: Seq<char>,
    post_id: Seq<char>,
) -> bool {
    exists|j: int|
        0 <= j < s.len() && j != at && post_is(s[at].record.campaign_id, platform, post_id)(
            #[trigger] s[j],
        )
}

impl StoreView {
    /// Inserts or replaces a campaign.
    pub open spec fn upsert_campaign(self, c: CampaignView) -> StoreView {
        StoreView {
            campaigns: with_row(
                self.campaigns,
                rows::position(self.campaigns, campaign_is(c.id)),
                c,
            ),
            unread_campaigns: rows::kept(self.unread_campaigns, not(id_is(c.id))),
            ..self
        }.announcing(UgcEventView::CampaignChanged { campaign: c })
    }

    /// Inserts or replaces a creator.
    pub open spec fn upsert_creator(self, c: CreatorView) -> StoreView {
        StoreView {
            creators: with_row(self.creators, rows::position(self.creators, creator_is(c.id)), c),
            unread_creators: rows::kept(self.unread_creators, not(unread_creator_is(c.id))),
            ..self
        }
    }

    /// Removes a campaign and everything under it.
    pub open spec fn delete_campaign(self, id: Seq<char>) -> StoreView {
        let left = StoreView {
            campaigns: rows::kept(self.campaigns, not(campaign_is(id))),
            unread_campaigns: rows::kept(self.unread_campaigns, not(id_is(id))),
            snapshots: rows::kept(
                self.snapshots,
                snapshot_outside(self.submissions, in_campaign(id)),
            ),
            submissions: rows::kept(self.submissions, not(in_campaign(id))),
            payouts: rows::kept(self.payouts, not(payout_in(id))),
            ..self
        };
        if self.has_campaign(id) {
            left.announcing(UgcEventView::Deleted { entity: "campaign"@, id })
        } else {
            left
        }
    }

    /// Removes a creator and, on `cascade`, everything they submitted and earned.
    pub open spec fn delete_creator(self, id: Seq<char>, cascade: bool) -> StoreView {
        let alone = StoreView {
            creators: rows::kept(self.creators, not(creator_is(id))),
            unread_creators: rows::kept(self.unread_creators, not(unread_creator_is(id))),
            ..self
        };
        let left = if cascade {
            StoreView {
                snapshots: rows::kept(
                    self.snapshots,
                    snapshot_outside(self.submissions, by_creator(id)),
                ),
                submissions: rows::kept(self.submissions, not(by_creator(id))),
                payouts: rows::kept(self.payouts, not(payout_to(id))),
                ..alone
            }
        } else {
            alone
        };
        if self.has_creator(id) {
            left.announcing(UgcEventView::Deleted { entity: "creator"@, id })
        } else {
            left
        }
    }

    /// What recording a new submission comes to.
    pub open spec fn insert_outcome(self, s: SubmissionView) -> WriteOutcome {
        if rows::any(self.submissions, submission_is(s.id)) || rows::any(
            self.submissions,
            post_is(s.campaign_id, s.platform, s.external_post_id),
        ) {
            WriteOutcome::DuplicatePost
        } else {
            WriteOutcome::Written
        }
    }

    /// Records a new submission, unless its post or its id is taken.
    pub open spec fn insert_submission(self, s: SubmissionView) -> StoreView {
        if self.insert_outcome(s) == WriteOutcome::Written {
            StoreView {
                submissions: self.submissions.push(submission_row(s)),
                ..self
            }.announcing(UgcEventView::SubmissionChanged { submission: s })
        } else {
            self
        }
    }

    /// What correcting a submission comes to.
    pub open spec fn update_outcome(self, s: SubmissionView) -> WriteOutcome {
        match rows::position(self.submissions, submission_is(s.id)) {
            None => WriteOutcome::NotFound,
            Some(i) => if post_clash(self.submissions, i, s.platform, s.external_post_id) {
                WriteOutcome::DuplicatePost
            } else {
                WriteOutcome::Written
            },
        }
    }

    /// Rewrites a submission's correctable fields: platform, post url and post id.
    pub open spec fn update_submission(self, s: SubmissionView) -> StoreView {
        if self.update_outcome(s) == WriteOutcome::Written {
            let i = rows::position(self.submissions, submission_is(s.id))->0;
            let row = self.submissions[i];
            StoreView {
                submissions: self.submissions.update(
                    i,
                    SubmissionRowView {
                        record: SubmissionView {
                            platform: s.platform,
                            post_url: s.post_url,
                            external_post_id: s.external_post_id,
                            updated_at: s.updated_at,
                            ..row.record
                        },
                        ..row
                    },
                ),
                ..self
            }.announcing(UgcEventView::SubmissionChanged { submission: s })
        } else {
            self
        }
    }

    /// Moves a submission to a new review state.
    pub open spec fn set_submission_status(
        self,
        id: Seq<char>,
        status: SubmissionStatus,
        reviewed_at: Option<Seq<char>>,
        rejection_reason: Option<Seq<char>>,
        updated_at: Seq<char>,
    ) -> StoreView {
        match rows::position(self.submissions, submission_is(id)) {
            Some(i) => {
                let record = SubmissionView {
                    status,
                    reviewed_at,
                    rejection_reason,
                    updated_at,
                    ..self.submissions[i].record
                };
                StoreView {
                    submissions: self.submissions.update(i, submission_row(record)),
                    ..self
                }.announcing(UgcEventView::SubmissionChanged { submission: record })
            },
            None => self,
        }
    }

    /// Removes a submission with its snapshots and its payout row.
    pub open spec fn delete_submission(self, id: Seq<char>) -> StoreView {
        let left = StoreView {
            snapshots: rows::kept(self.snapshots, not(snapshot_of(id))),
            payouts: rows::kept(self.payouts, not(payout_on(id))),
            submissions: rows::kept(self.submissions, not(submission_is(id))),
            ..self
        };
        if self.submission(id) is Some {
            left.announcing(UgcEventView::Deleted { entity: "submission"@, id })
        } else {
            left
        }
    }

    /// Appends a snapshot under the next id.
    pub open spec fn insert_snapshot(self, m: SnapshotView) -> StoreView {
        let id = (self.last_snapshot_id + 1) as i64;
        StoreView {
            snapshots: self.snapshots.push(SnapshotView { id, ..m }),
            last_snapshot_id: id,
            ..self
        }
    }

    /// The submission has a payout row under another id than that of `p`.
    pub open spec fn payout_clash(self, p: PayoutView) -> bool {
        &&& rows::position(self.payouts, payout_is(p.id)) is None
        &&& p.submission_id is Some
        &&& rows::any(self.payouts, payout_on(p.submission_id->0))
    }

    /// Inserts a payout row, or re-prices the one with its id.
    pub open spec fn upsert_payout(self, p: PayoutView) -> StoreView {
        let at = rows::position(self.payouts, payout_is(p.id));
        let record = match at {
            Some(i) => PayoutView {
                amount_cents: p.amount_cents,
                status: p.status,
                reason: p.reason,
                approved_at: p.approved_at,
                paid_at: p.paid_at,
                updated_at: p.updated_at,
                ..self.payouts[i].record
            },
            None => p,
        };
        StoreView {
            payouts: with_row(self.payouts, at, payout_row(record)),
            ..self
        }.announcing(UgcEventView::PayoutChanged { payout: p })
    }

    /// Moves a payout to a new state, stamping the matching column only.
    pub open spec fn set_payout_status(
        self,
        id: Seq<char>,
        status: PayoutStatus,
        stamp: Seq<char>,
    ) -> StoreView {
        match rows::position(self.payouts, payout_is(id)) {
            Some(i) => {
                let record = stamped(self.payouts[i].record, status, stamp);
                StoreView {
                    payouts: self.payouts.update(i, payout_row(record)),
                    ..self
                }.announcing(UgcEventView::PayoutChanged { payout: record })
            },
            None => self,
        }
    }

    /// Drops a submission's payout row unless it is paid.
    pub open spec fn delete_unpaid_payout(self, id: Seq<char>) -> StoreView {
        StoreView { payouts: rows::kept(self.payouts, not(unpaid_on(id))), ..self }
    }
}

/// The payout in its new state: an approval stamps `approved_at`, a payment `paid_at`, and
/// neither clears the other.
pub open spec fn stamped(p: PayoutView, status: PayoutStatus, stamp: Seq<char>) -> PayoutView {
    match status {
        PayoutStatus::Accrued => PayoutView { status, updated_at: stamp, ..p },
        PayoutStatus::Approved => PayoutView {
            status,
            approved_at: Some(stamp),
            updated_at: stamp,
            ..p
        },
        PayoutStatus::Paid => PayoutView { status, paid_at: Some(stamp), updated_at: stamp, ..p },
    }
}

// ---- every write keeps the rules of the tables -------------------------------------------------

/// The two submissions point at different posts.
pub open spec fn posts_apart() -> spec_fn(SubmissionRowView, SubmissionRowView) -> bool {
    |a: SubmissionRowView, b: SubmissionRowView| !same_post(a, b)
}

/// The two payouts belong to different submissions.
pub open spec fn payouts_apart() -> spec_fn(PayoutRowView, PayoutRowView) -> bool {
    |a: PayoutRowView, b: PayoutRowView|
        a.record.submission_id is Some ==> a.record.submission_id != b.record.submission_id
}

proof fn lemma_kept_tables(
    s: StoreView,
    submissions: spec_fn(SubmissionRowView) -> bool,
    snapshots: spec_fn(SnapshotView) -> bool,
    payouts: spec_fn(PayoutRowView) -> bool,
)
    requires
        s.wf(),
    ensures
        (StoreView {
            submissions: rows::kept(s.submissions, submissions),
            snapshots: rows::kept(s.snapshots, snapshots),
            payouts: rows::kept(s.payouts, payouts),
            ..s
        }).wf(),
{
    rows::lemma_kept_distinct(s.submissions, submissions, submission_key());
    rows::lemma_kept_distinct(s.snapshots, snapshots, snapshot_key());
    rows::lemma_kept_distinct(s.payouts, payouts, payout_key());
    rows::lemma_kept_every(s.submissions, submissions, submission_reads());
    rows::lemma_kept_every(s.payouts, payouts, payout_reads());
    rows::lemma_kept_every(s.snapshots, snapshots, snapshot_numbered(s.last_snapshot_id));
    rows::lemma_kept_ordered(s.submissions, submissions, posts_apart());
    rows::lemma_kept_ordered(s.payouts, payouts, payouts_apart());
}

/// Writing a campaign keeps the rules of the tables.
pub proof fn law_upsert_campaign_keeps_rules(s: StoreView, c: CampaignView)
    requires
        s.wf(),
    ensures
        s.upsert_campaign(c).wf(),
{
    let t = s.upsert_campaign(c);
    rows::lemma_position(s.campaigns, campaign_is(c.id));
    rows::lemma_kept_distinct(s.unread_campaigns, not(id_is(c.id)), unread_campaign_key());
    rows::lemma_kept_every(s.unread_campaigns, not(id_is(c.id)), no_campaign(s.campaigns));
    rows::lemma_kept(s.unread_campaigns, not(id_is(c.id)));
    assert forall|i: int| 0 <= i < t.unread_campaigns.len() implies no_campaign(t.campaigns)(
        #[trigger] t.unread_campaigns[i],
    ) by {
        let id = t.unread_campaigns[i];
        assert(no_campaign(s.campaigns)(id));
        assert(not(id_is(c.id))(id));
        if rows::any(t.campaigns, campaign_is(id)) {
            let k = choose|k: int|
                0 <= k < t.campaigns.len() && campaign_is(id)(#[trigger] t.campaigns[k]);
            assert(s.campaigns[k] == t.campaigns[k]);
        }
    }
}

/// Writing a creator keeps the rules of the tables.
pub proof fn law_upsert_creator_keeps_rules(s: StoreView, c: CreatorView)
    requires
        s.wf(),
    ensures
        s.upsert_creator(c).wf(),
{
    let t = s.upsert_creator(c);
    let other = not(unread_creator_is(c.id));
    rows::lemma_position(s.creators, creator_is(c.id));
    rows::lemma_kept_distinct(s.unread_creators, other, unread_creator_key());
    rows::lemma_kept_every(s.unread_creators, other, no_creator(s.creators));
    rows::lemma_kept(s.unread_creators, other);
    assert forall|i: int| 0 <= i < t.unread_creators.len() implies no_creator(t.creators)(
        #[trigger] t.unread_creators[i],
    ) by {
        let u = t.unread_creators[i];
        assert(no_creator(s.creators)(u));
        assert(other(u));
        if rows::any(t.creators, creator_is(u.id)) {
            let k = choose|k: int|
                0 <= k < t.creators.len() && creator_is(u.id)(#[trigger] t.creators[k]);
            assert(s.creators[k] == t.creators[k]);
        }
    }
}

/// Removing a campaign keeps the rules of the tables.
pub proof fn law_delete_campaign_keeps_rules(s: StoreView, id: Seq<char>)
    requires
        s.wf(),
    ensures
        s.delete_campaign(id).wf(),
{
    let t = s.delete_campaign(id);
    rows::lemma_kept_distinct(s.campaigns, not(campaign_is(id)), campaign_key());
    rows::lemma_kept_distinct(s.unread_campaigns, not(id_is(id)), unread_campaign_key());
    rows::lemma_kept_every(s.unread_campaigns, not(id_is(id)), no_campaign(s.campaigns));
    rows::lemma_kept(s.campaigns, not(campaign_is(id)));
    assert forall|i: int| 0 <= i < t.unread_campaigns.len() implies no_campaign(t.campaigns)(
        #[trigger] t.unread_campaigns[i],
    ) by {
        let u = t.unread_campaigns[i];
        assert(no_campaign(s.campaigns)(u));
        if rows::any(t.campaigns, campaign_is(u)) {
            let k = choose|k: int|
                0 <= k < t.campaigns.len() && campaign_is(u)(#[trigger] t.campaigns[k]);
            assert(s.campaigns.contains(t.campaigns[k]));
        }
    }
    lemma_kept_tables(
        s,
        not(in_campaign(id)),
        snapshot_outside(s.submissions, in_campaign(id)),
        not(payout_in(id)),
    );
}

/// Removing a creator keeps the rules of the tables.
pub proof fn law_delete_creator_keeps_rules(s: StoreView, id: Seq<char>, cascade: bool)
    requires
        s.wf(),
    ensures
        s.delete_creator(id, cascade).wf(),
{
    let t = s.delete_creator(id, cascade);
    let other = not(unread_creator_is(id));
    rows::lemma_kept_distinct(s.creators, not(creator_is(id)), creator_key());
    rows::lemma_kept_distinct(s.unread_creators, other, unread_creator_key());
    rows::lemma_kept_every(s.unread_creators, other, no_creator(s.creators));
    rows::lemma_kept(s.creators, not(creator_is(id)));
    assert forall|i: int| 0 <= i < t.unread_creators.len() implies no_creator(t.creators)(
        #[trigger] t.unread_creators[i],
    ) by {
        let u = t.unread_creators[i];
        assert(no_creator(s.creators)(u));
        if rows::any(t.creators, creator_is(u.id)) {
            let k = choose|k: int|
                0 <= k < t.creators.len() && creator_is(u.id)(#[trigger] t.creators[k]);
            assert(s.creators.contains(t.creators[k]));
        }
    }
    lemma_kept_tables(
        s,
        not(by_creator(id)),
        snapshot_outside(s.submissions, by_creator(id)),
        not(payout_to(id)),
    );
}

/// Recording a submission keeps the rules of the tables: no post stands twice.
pub proof fn law_insert_submission_keeps_rules(s: StoreView, new: SubmissionView)
    requires
        s.wf(),
    ensures
        s.insert_submission(new).wf(),
{
    if s.insert_outcome(new) == WriteOutcome::Written {
        crate::records::law_submission_status_round_trip(new.status);
    }
}

/// Correcting a submission keeps the rules of the tables: no post stands twice.
pub proof fn law_update_submission_keeps_rules(s: StoreView, new: SubmissionView)
    requires
        s.wf(),
    ensures
        s.update_submission(new).wf(),
{
}

/// Reviewing a submission keeps the rules of the tables.
pub proof fn law_set_submission_status_keeps_rules(
    s: StoreView,
    id: Seq<char>,
    status: SubmissionStatus,
    reviewed_at: Option<Seq<char>>,
    rejection_reason: Option<Seq<char>>,
    updated_at: Seq<char>,
)
    requires
        s.wf(),
    ensures
        s.set_submission_status(id, status, reviewed_at, rejection_reason, updated_at).wf(),
{
    crate::records::law_submission_status_round_trip(status);
}

/// Removing a submission keeps the rules of the tables.
pub proof fn law_delete_submission_keeps_rules(s: StoreView, id: Seq<char>)
    requires
        s.wf(),
    ensures
        s.delete_submission(id).wf(),
{
    lemma_kept_tables(s, not(submission_is(id)), not(snapshot_of(id)), not(payout_on(id)));
}

/// Appending a snapshot keeps the rules of the tables.
pub proof fn law_insert_snapshot_keeps_rules(s: StoreView, m: SnapshotView)
    requires
        s.wf(),
        s.last_snapshot_id < i64::MAX,
    ensures
        s.insert_snapshot(m).wf(),
{
}

/// Writing a payout keeps the rules of the tables: no submission gets a second row.
pub proof fn law_upsert_payout_keeps_rules(s: StoreView, p: PayoutView)
    requires
        s.wf(),
        !s.payout_clash(p),
    ensures
        s.upsert_payout(p).wf(),
{
    rows::lemma_position(s.payouts, payout_is(p.id));
    crate::records::law_payout_status_round_trip(p.status);
}

/// Moving a payout to a new state keeps the rules of the tables.
pub proof fn law_set_payout_status_keeps_rules(
    s: StoreView,
    id: Seq<char>,
    status: PayoutStatus,
    stamp: Seq<char>,
)
    requires
        s.wf(),
    ensures
        s.set_payout_status(id, status, stamp).wf(),
{
    crate::records::law_payout_status_round_trip(status);
}

/// Dropping an unpaid payout keeps the rules of the tables.
pub proof fn law_delete_unpaid_payout_keeps_rules(s: StoreView, id: Seq<char>)
    requires
        s.wf(),
    ensures
        s.delete_unpaid_payout(id).wf(),
{
    let all_submissions = |r: SubmissionRowView| true;
    let all_snapshots = |m: SnapshotView| true;
    lemma_kept_tables(s, all_submissions, all_snapshots, not(unpaid_on(id)));
}

} // verus!
