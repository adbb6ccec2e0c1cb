//! The derived reads: spend against budget, the leaderboard, a creator's totals and the
//! overview. Counter totals come from each submission's newest snapshot, never from the sum
//! of all snapshots.
use crate::pricing;
use crate::pricing::clamp_limit;
use crate::records::{PayoutStatus, SubmissionStatus};
use crate::rows;
use crate::rows::{fit_i64, sort_rows, str_le, sum_rows};
use crate::store::{
    PayoutRow, PayoutRowView, StoreError, StoreView, SubmissionRow, SubmissionRowView, UgcStore,
};
use crate::text;
use crate::text::{str_eq, to_lower};
use vstd::prelude::*;

verus! {

/// Submission counts by review state.
#[derive(Debug, Clone, Copy, PartialEq, Eq, Structural)]
pub struct SubmissionCounts {
    pub pending: i64,
    pub approved: i64,
    pub rejected: i64,
    pub paid: i64,
}

impl Default for SubmissionCounts {
    fn default() -> (r: Self)
        ensures
            r == (SubmissionCounts { pending: 0, approved: 0, rejected: 0, paid: 0 }),
    {
        SubmissionCounts { pending: 0, approved: 0, rejected: 0, paid: 0 }
    }
}

impl SubmissionCounts {
    /// The count of one state.
    pub open spec fn of(self, status: SubmissionStatus) -> i64 {
        match status {
            SubmissionStatus::Pending => self.pending,
            SubmissionStatus::Approved => self.approved,
            SubmissionStatus::Rejected => self.rejected,
            SubmissionStatus::Paid => self.paid,
        }
    }

    /// The count over every state.
    pub open spec fn sum(self) -> int {
        self.pending + self.approved + self.rejected + self.paid
    }

    /// Folds one state's count in.
    pub fn add(&mut self, status: SubmissionStatus, count: i64)
        requires
            rows::fits(old(self).of(status) + count),
        ensures
            final(self).of(status) == old(self).of(status) + count,
            forall|other: SubmissionStatus|
                other != status ==> #[trigger] final(self).of(other) == old(self).of(other),
    {
        match status {
            SubmissionStatus::Pending => {
                self.pending = self.pending + count;
            },
            SubmissionStatus::Approved => {
                self.approved = self.approved + count;
            },
            SubmissionStatus::Rejected => {
                self.rejected = self.rejected + count;
            },
            SubmissionStatus::Paid => {
                self.paid = self.paid + count;
            },
        }
    }

    /// Total submissions across every state.
    pub fn total(&self) -> (n: i64)
        requires
            rows::fits(self.pending + self.approved),
            rows::fits(self.pending + self.approved + self.rejected),
            rows::fits(self.sum()),
        ensures
            n == self.sum(),
    {
        self.pending + self.approved + self.rejected + self.paid
    }
}

/// Spend against budget for one campaign.
#[derive(Debug, Clone, Copy, PartialEq, Eq)]
pub struct CampaignSummary {
    /// 0 = uncapped.
    pub budget_cents: i64,
    pub accrued_cents: i64,
    pub approved_cents: i64,
    pub paid_cents: i64,
    /// Every payout row regardless of state: accrued money is already committed.
    pub committed_cents: i64,
    /// What is left of the budget, at least 0; `None` when the campaign is uncapped.
    pub remaining_cents: Option<i64>,
    pub total_views: i64,
    pub total_likes: i64,
    pub total_comments: i64,
    pub submissions: SubmissionCounts,
    /// Distinct creators who submitted to this campaign.
    pub creators: i64,
}

/// One row of a campaign's creator leaderboard.
#[derive(Debug)]
pub struct LeaderboardRow {
    pub creator_id: String,
    /// Empty when there is no such creator on the roster.
    pub display_name: String,
    /// Sum of the newest snapshot's views across this creator's submissions.
    pub views: i64,
    /// Submissions that cleared review.
    pub approved_submissions: i64,
    pub accrued_cents: i64,
    pub paid_cents: i64,
}

/// The view of a [`LeaderboardRow`]: its figures before they are held to 64 bits.
#[verifier::ext_equal]
pub struct BoardView {
    pub creator_id: Seq<char>,
    pub display_name: Seq<char>,
    pub views: int,
    pub approved_submissions: int,
    pub accrued_cents: int,
    pub paid_cents: int,
}

impl DeepView for LeaderboardRow {
    type V = BoardView;

    open spec fn deep_view(&self) -> BoardView {
        BoardView {
            creator_id: self.creator_id@,
            display_name: self.display_name@,
            views: self.views as int,
            approved_submissions: self.approved_submissions as int,
            accrued_cents: self.accrued_cents as int,
            paid_cents: self.paid_cents as int,
        }
    }
}

/// A creator's totals across every campaign.
#[derive(Debug, Clone, Copy, PartialEq, Eq)]
pub struct CreatorTotals {
    pub submissions: SubmissionCounts,
    pub accrued_cents: i64,
    pub paid_cents: i64,
}

/// The first paint: counts and money across everything.
#[derive(Debug, Clone, Copy, PartialEq, Eq)]
pub struct UgcOverview {
    pub campaigns: i64,
    pub creators: i64,
    pub submissions: SubmissionCounts,
    pub accrued_cents: i64,
    pub paid_cents: i64,
}

// ---- scopes -----------------------------------------------------------------------------

/// A counter of a snapshot.
#[derive(Debug, Clone, Copy, PartialEq, Eq, Structural)]
pub enum Counter {
    Views,
    Likes,
    Comments,
}

/// The submission belongs to the campaign and to the creator, as far as they are given.
pub open spec fn in_scope(
    campaign: Option<Seq<char>>,
    creator: Option<Seq<char>>,
) -> spec_fn(SubmissionRowView) -> bool {
    |r: SubmissionRowView|
        (campaign is Some ==> r.record.campaign_id == campaign->0) && (creator is Some
            ==> r.record.creator_id == creator->0)
}

/// The payout belongs to the campaign and to the creator, as far as they are given.
pub open spec fn payout_in_scope(
    campaign: Option<Seq<char>>,
    creator: Option<Seq<char>>,
) -> spec_fn(PayoutRowView) -> bool {
    |p: PayoutRowView|
        (campaign is Some ==> p.record.campaign_id == campaign->0) && (creator is Some
            ==> p.record.creator_id == creator->0)
}

/// A submission of the scope in the given state.
pub open spec fn in_state(
    campaign: Option<Seq<char>>,
    creator: Option<Seq<char>>,
    status: SubmissionStatus,
) -> spec_fn(SubmissionRowView) -> bool {
    |r: SubmissionRowView| in_scope(campaign, creator)(r) && r.record.status == status
}

/// A submission of the scope whose stored state is `approved` or `paid`.
pub open spec fn cleared_in(
    campaign: Option<Seq<char>>,
    creator: Option<Seq<char>>,
) -> spec_fn(SubmissionRowView) -> bool {
    |r: SubmissionRowView|
        in_scope(campaign, creator)(r) && (r.status_text == "approved"@ || r.status_text
            == "paid"@)
}

/// One counter of the newest snapshot of a submission of the scope.
pub open spec fn counter_of(
    s: StoreView,
    campaign: Option<Seq<char>>,
    creator: Option<Seq<char>>,
    which: Counter,
) -> spec_fn(SubmissionRowView) -> int {
    |r: SubmissionRowView|
        if in_scope(campaign, creator)(r) {
            match s.latest(r.record.id) {
                Some(m) => match which {
                    Counter::Views => m.views as int,
                    Counter::Likes => m.likes as int,
                    Counter::Comments => m.comments as int,
                },
                None => 0,
            }
        } else {
            0
        }
}

/// The money of a payout of the scope in the given state.
pub open spec fn money_of(
    campaign: Option<Seq<char>>,
    creator: Option<Seq<char>>,
    status: PayoutStatus,
) -> spec_fn(PayoutRowView) -> int {
    |p: PayoutRowView|
        if payout_in_scope(campaign, creator)(p) && p.record.status == status {
            p.record.amount_cents as int
        } else {
            0
        }
}

impl StoreView {
    /// How many submissions of the scope are in the given state.
    pub open spec fn count(
        self,
        campaign: Option<Seq<char>>,
        creator: Option<Seq<char>>,
        status: SubmissionStatus,
    ) -> int {
        rows::tally(self.submissions, in_state(campaign, creator, status))
    }

    /// The sum of one counter over the scope, each submission by its newest snapshot.
    pub open spec fn counter(
        self,
        campaign: Option<Seq<char>>,
        creator: Option<Seq<char>>,
        which: Counter,
    ) -> int {
        rows::total(self.submissions, counter_of(self, campaign, creator, which))
    }

    /// The money of the scope in the given state.
    pub open spec fn money(
        self,
        campaign: Option<Seq<char>>,
        creator: Option<Seq<char>>,
        status: PayoutStatus,
    ) -> int {
        rows::total(self.payouts, money_of(campaign, creator, status))
    }

    /// The counts of the scope by state.
    pub open spec fn counts(
        self,
        campaign: Option<Seq<char>>,
        creator: Option<Seq<char>>,
    ) -> SubmissionCounts {
        SubmissionCounts {
            pending: self.count(campaign, creator, SubmissionStatus::Pending) as i64,
            approved: self.count(campaign, creator, SubmissionStatus::Approved) as i64,
            rejected: self.count(campaign, creator, SubmissionStatus::Rejected) as i64,
            paid: self.count(campaign, creator, SubmissionStatus::Paid) as i64,
        }
    }

    /// The creators who submitted to the campaign, each once, in order of appearance.
    pub open spec fn creators_in(self, campaign: Seq<char>) -> Seq<Seq<char>> {
        names_in(self.submissions, campaign)
    }

    /// What the leaderboard says of one creator.
    pub open spec fn board_row(self, campaign: Seq<char>, creator: Seq<char>) -> BoardView {
        BoardView {
            creator_id: creator,
            display_name: self.creator_name(creator),
            views: self.counter(Some(campaign), Some(creator), Counter::Views),
            approved_submissions: rows::tally(
                self.submissions,
                cleared_in(Some(campaign), Some(creator)),
            ),
            accrued_cents: self.money(Some(campaign), Some(creator), PayoutStatus::Accrued),
            paid_cents: self.money(Some(campaign), Some(creator), PayoutStatus::Paid),
        }
    }

    /// The leaderboard before it is ranked.
    pub open spec fn board(self, campaign: Seq<char>) -> Seq<BoardView> {
        let names = self.creators_in(campaign);
        Seq::new(names.len(), |i: int| self.board_row(campaign, names[i]))
    }
}

/// The figures of the row fit in 64 bits.
pub open spec fn board_fits() -> spec_fn(BoardView) -> bool {
    |b: BoardView|
        rows::fits(b.views) && rows::fits(b.approved_submissions) && rows::fits(b.accrued_cents)
            && rows::fits(b.paid_cents)
}

/// The ids of the creators who submitted to the campaign, each once.
pub open spec fn names_in(s: Seq<SubmissionRowView>, campaign: Seq<char>) -> Seq<Seq<char>>
    decreases s.len(),
{
    if s.len() == 0 {
        Seq::empty()
    } else {
        let before = names_in(s.drop_last(), campaign);
        let name = s.last().record.creator_id;
        if s.last().record.campaign_id == campaign && !before.contains(name) {
            before.push(name)
        } else {
            before
        }
    }
}

/// Every creator of the campaign is named once, and nobody else is.
pub proof fn lemma_names_in(s: Seq<SubmissionRowView>, campaign: Seq<char>)
    ensures
        names_in(s, campaign).no_duplicates(),
        names_in(s, campaign).len() <= s.len(),
        forall|name: Seq<char>| #[trigger]
            names_in(s, campaign).contains(name) <==> (exists|i: int|
                0 <= i < s.len() && (#[trigger] s[i]).record.campaign_id == campaign
                    && s[i].record.creator_id == name),
    decreases s.len(),
{
    if s.len() > 0 {
        let init = s.drop_last();
        lemma_names_in(init, campaign);
        let before = names_in(init, campaign);
        let all = names_in(s, campaign);
        let last = s.last();
        let fresh = last.record.campaign_id == campaign && !before.contains(last.record.creator_id);
        assert forall|name: Seq<char>| #[trigger] all.contains(name) <==> (exists|i: int|
            0 <= i < s.len() && (#[trigger] s[i]).record.campaign_id == campaign
                && s[i].record.creator_id == name) by {
            if all.contains(name) {
                let k = choose|k: int| 0 <= k < all.len() && all[k] == name;
                if !fresh || k < all.len() - 1 {
                    assert(before.contains(name));
                }
            }
            if exists|i: int|
                0 <= i < s.len() && (#[trigger] s[i]).record.campaign_id == campaign
                    && s[i].record.creator_id == name {
                let i = choose|i: int|
                    0 <= i < s.len() && (#[trigger] s[i]).record.campaign_id == campaign
                        && s[i].record.creator_id == name;
                if i < init.len() {
                    assert(init[i] == s[i]);
                    assert(before.contains(name));
                    let k = choose|k: int| 0 <= k < before.len() && before[k] == name;
                    assert(all[k] == name);
                } else if fresh {
                    assert(all[all.len() - 1] == name);
                }
            }
        }
    }
}

proof fn lemma_tally_bound<T>(s: Seq<T>, p: spec_fn(T) -> bool)
    ensures
        0 <= rows::tally(s, p) <= s.len(),
    decreases s.len(),
{
    if s.len() > 0 {
        lemma_tally_bound(s.drop_last(), p);
    }
}

/// The leaderboard's order: views from the most, then the name without regard to ASCII case,
/// then the id.
pub open spec fn board_order() -> spec_fn(BoardView, BoardView) -> bool {
    |a: BoardView, b: BoardView|
        if a.views != b.views {
            a.views > b.views
        } else if text::lower(a.display_name) != text::lower(b.display_name) {
            rows::text_le(text::lower(a.display_name), text::lower(b.display_name))
        } else {
            rows::text_le(a.creator_id, b.creator_id)
        }
}

/// Any two leaderboard rows can be compared.
pub proof fn lemma_board_order()
    ensures
        rows::comparable(board_order()),
{
    let le = board_order();
    assert forall|a: BoardView, b: BoardView| #[trigger] le(a, b) || le(b, a) by {
        rows::lemma_text_le_total(text::lower(a.display_name), text::lower(b.display_name));
        rows::lemma_text_le_total(a.creator_id, b.creator_id);
    }
    assert forall|a: BoardView, b: BoardView, c: BoardView| #[trigger]
        le(a, b) && #[trigger] le(b, c) implies le(a, c) by {
        let (x, y, z) = (
            text::lower(a.display_name),
            text::lower(b.display_name),
            text::lower(c.display_name),
        );
        if a.views == b.views && b.views == c.views {
            if x == y && y == z {
                rows::lemma_text_le_transitive(a.creator_id, b.creator_id, c.creator_id);
            } else if rows::text_le(x, y) && rows::text_le(y, z) {
                rows::lemma_text_le_transitive(x, y, z);
                if x == z {
                    rows::lemma_text_le_antisymmetric(x, y);
                }
            }
        }
    }
}

// ---- the reports ----------------------------------------------------------------------------

/// The number fits in 64 bits.
pub open spec fn count_fits(n: nat) -> bool {
    n <= i64::MAX
}

/// The number of rows fits in 64 bits.
pub open spec fn countable<T>(s: Seq<T>) -> bool {
    s.len() <= i64::MAX
}

impl StoreView {
    /// Spend against budget: nothing where there is no such campaign, an error where it cannot be
    /// read or a figure does not fit in 64 bits.
    pub open spec fn summary(self, id: Seq<char>) -> Result<Option<CampaignSummary>, StoreError> {
        match self.read_campaign(id) {
            Err(e) => Err(e),
            Ok(None) => Ok(None),
            Ok(Some(campaign)) => {
                let views = self.counter(Some(id), None, Counter::Views);
                let likes = self.counter(Some(id), None, Counter::Likes);
                let comments = self.counter(Some(id), None, Counter::Comments);
                let accrued = self.money(Some(id), None, PayoutStatus::Accrued);
                let approved = self.money(Some(id), None, PayoutStatus::Approved);
                let paid = self.money(Some(id), None, PayoutStatus::Paid);
                let committed = accrued + approved + paid;
                let left = campaign.budget_cents - committed;
                if !countable(self.submissions) {
                    Err(StoreError::IntegerOverflow)
                } else if !rows::fits(views) || !rows::fits(likes) || !rows::fits(comments) {
                    Err(StoreError::SummingCampaignMetrics)
                } else if !rows::fits(accrued) || !rows::fits(approved) || !rows::fits(paid)
                    || !rows::fits(committed) || (campaign.budget_cents > 0 && !rows::fits(left)) {
                    Err(StoreError::IntegerOverflow)
                } else {
                    Ok(
                        Some(
                            CampaignSummary {
                                budget_cents: campaign.budget_cents,
                                accrued_cents: accrued as i64,
                                approved_cents: approved as i64,
                                paid_cents: paid as i64,
                                committed_cents: committed as i64,
                                remaining_cents: if campaign.budget_cents > 0 {
                                    Some(pricing::floor0(left) as i64)
                                } else {
                                    None
                                },
                                total_views: views as i64,
                                total_likes: likes as i64,
                                total_comments: comments as i64,
                                submissions: self.counts(Some(id), None),
                                creators: self.creators_in(id).len() as i64,
                            },
                        ),
                    )
                }
            },
        }
    }

    /// A creator's totals across every campaign.
    pub open spec fn creator_totals(self, id: Seq<char>) -> Result<CreatorTotals, StoreError> {
        let accrued = self.money(None, Some(id), PayoutStatus::Accrued);
        let paid = self.money(None, Some(id), PayoutStatus::Paid);
        if !countable(self.submissions) || !rows::fits(accrued) || !rows::fits(paid) {
            Err(StoreError::IntegerOverflow)
        } else {
            Ok(
                CreatorTotals {
                    submissions: self.counts(None, Some(id)),
                    accrued_cents: accrued as i64,
                    paid_cents: paid as i64,
                },
            )
        }
    }

    /// Counts and money across everything.
    pub open spec fn overview(self) -> Result<UgcOverview, StoreError> {
        let accrued = self.money(None, None, PayoutStatus::Accrued);
        let paid = self.money(None, None, PayoutStatus::Paid);
        if !count_fits(self.campaign_count()) || !count_fits(self.creator_count()) || !countable(
            self.submissions,
        ) || !rows::fits(accrued) || !rows::fits(paid) {
            Err(StoreError::IntegerOverflow)
        } else {
            Ok(
                UgcOverview {
                    campaigns: self.campaign_count() as i64,
                    creators: self.creator_count() as i64,
                    submissions: self.counts(None, None),
                    accrued_cents: accrued as i64,
                    paid_cents: paid as i64,
                },
            )
        }
    }
}

fn scope_holds(scope: Option<&str>, id: &str) -> (b: bool)
    ensures
        b == (scope is Some ==> id@ == scope.deep_view()->0),
{
    match scope {
        Some(want) => str_eq(id, want),
        None => true,
    }
}

impl UgcStore {
    fn counter_total(&self, campaign: Option<&str>, creator: Option<&str>, which: Counter) -> (r:
        i128)
        requires
            self.deep_view().wf(),
        ensures
            r == self.deep_view().counter(campaign.deep_view(), creator.deep_view(), which),
    {
        let ghost s = self.deep_view();
        let weigh = |r: &SubmissionRow| -> (n: i64)
            ensures
                n == counter_of(
                    self.deep_view(),
                    campaign.deep_view(),
                    creator.deep_view(),
                    which,
                )(r.deep_view()),
            {
                if scope_holds(campaign, r.record.campaign_id.as_str()) && scope_holds(
                    creator,
                    r.record.creator_id.as_str(),
                ) {
                    match self.latest_snapshot(r.record.id.as_str()) {
                        Some(m) => match which {
                            Counter::Views => m.views,
                            Counter::Likes => m.likes,
                            Counter::Comments => m.comments,
                        },
                        None => 0,
                    }
                } else {
                    0
                }
            };
        sum_rows(
            &self.submissions,
            weigh,
            Ghost(counter_of(s, campaign.deep_view(), creator.deep_view(), which)),
        )
    }

    fn count_total(
        &self,
        campaign: Option<&str>,
        creator: Option<&str>,
        status: SubmissionStatus,
    ) -> (n: i64)
        requires
            countable(self.deep_view().submissions),
        ensures
            n == self.deep_view().count(campaign.deep_view(), creator.deep_view(), status),
    {
        let ghost pick = in_state(campaign.deep_view(), creator.deep_view(), status);
        let weigh = |r: &SubmissionRow| -> (n: i64)
            ensures
                n == if in_state(campaign.deep_view(), creator.deep_view(), status)(
                    r.deep_view(),
                ) {
                    1int
                } else {
                    0int
                },
            {
                if scope_holds(campaign, r.record.campaign_id.as_str()) && scope_holds(
                    creator,
                    r.record.creator_id.as_str(),
                ) && r.record.status == status {
                    1
                } else {
                    0
                }
            };
        let sum: i128 = sum_rows(
            &self.submissions,
            weigh,
            Ghost(
                |r: SubmissionRowView|
                    if pick(r) {
                        1
                    } else {
                        0
                    },
            ),
        );
        proof {
            lemma_tally_bound(self.deep_view().submissions, pick);
        }
        sum as i64
    }

    fn money_total(
        &self,
        campaign: Option<&str>,
        creator: Option<&str>,
        status: PayoutStatus,
    ) -> (r: i128)
        ensures
            r == self.deep_view().money(campaign.deep_view(), creator.deep_view(), status),
    {
        let weigh = |p: &PayoutRow| -> (n: i64)
            ensures
                n == money_of(campaign.deep_view(), creator.deep_view(), status)(p.deep_view()),
            {
                if scope_holds(campaign, p.record.campaign_id.as_str()) && scope_holds(
                    creator,
                    p.record.creator_id.as_str(),
                ) && p.record.status == status {
                    p.record.amount_cents
                } else {
                    0
                }
            };
        sum_rows(
            &self.payouts,
            weigh,
            Ghost(money_of(campaign.deep_view(), creator.deep_view(), status)),
        )
    }

    fn counts_total(&self, campaign: Option<&str>, creator: Option<&str>) -> (r: SubmissionCounts)
        requires
            countable(self.deep_view().submissions),
        ensures
            r == self.deep_view().counts(campaign.deep_view(), creator.deep_view()),
    {
        SubmissionCounts {
            pending: self.count_total(campaign, creator, SubmissionStatus::Pending),
            approved: self.count_total(campaign, creator, SubmissionStatus::Approved),
            rejected: self.count_total(campaign, creator, SubmissionStatus::Rejected),
            paid: self.count_total(campaign, creator, SubmissionStatus::Paid),
        }
    }

    fn creator_names(&self, campaign: &str) -> (out: Vec<String>)
        ensures
            out.deep_view() == self.deep_view().creators_in(campaign@),
    {
        let ghost s = self.deep_view().submissions;
        let mut out: Vec<String> = Vec::new();
        let mut i: usize = 0;
        while i < self.submissions.len()
            invariant
                s == self.deep_view().submissions,
                i <= self.submissions.len(),
                out.deep_view() == names_in(s.take(i as int), campaign@),
            decreases self.submissions.len() - i,
        {
            let ghost next = s.take(i + 1);
            let ghost before = out.deep_view();
            assert(next.drop_last() =~= s.take(i as int));
            let r = &self.submissions[i].record;
            if str_eq(r.campaign_id.as_str(), campaign) {
                let mut known: bool = false;
                let mut k: usize = 0;
                while k < out.len()
                    invariant
                        before == out.deep_view(),
                        k <= out.len(),
                        known <==> exists|m: int| 0 <= m < k && before[m] == r.creator_id@,
                    decreases out.len() - k,
                {
                    assert(before[k as int] == out@[k as int]@);
                    if str_eq(out[k].as_str(), r.creator_id.as_str()) {
                        known = true;
                    }
                    k += 1;
                }
                if !known {
                    out.push(r.creator_id.clone());
                }
            }
            i += 1;
        }
        assert(s.take(s.len() as int) =~= s);
        out
    }

    /// How many campaigns exist, readable or not.
    pub fn count_campaigns(&self) -> (r: Result<i64, StoreError>)
        ensures
            if count_fits(self.deep_view().campaign_count()) {
                r is Ok && r->Ok_0 == self.deep_view().campaign_count()
            } else {
                r == Err::<i64, _>(StoreError::IntegerOverflow)
            },
    {
        match fit_i64(self.campaigns.len() as i128 + self.unread_campaigns.len() as i128) {
            Some(n) => Ok(n),
            None => Err(StoreError::IntegerOverflow),
        }
    }

    /// How many creators exist, readable or not.
    pub fn count_creators(&self) -> (r: Result<i64, StoreError>)
        ensures
            if count_fits(self.deep_view().creator_count()) {
                r is Ok && r->Ok_0 == self.deep_view().creator_count()
            } else {
                r == Err::<i64, _>(StoreError::IntegerOverflow)
            },
    {
        match fit_i64(self.creators.len() as i128 + self.unread_creators.len() as i128) {
            Some(n) => Ok(n),
            None => Err(StoreError::IntegerOverflow),
        }
    }

    /// How many submissions a creator has, across all campaigns.
    pub fn count_submissions_for_creator(&self, creator_id: &str) -> (r: Result<i64, StoreError>)
        ensures
            ({
                let n = rows::total(
                    self.deep_view().submissions,
                    theirs(creator_id@),
                );
                if rows::fits(n) {
                    r is Ok && r->Ok_0 == n
                } else {
                    r == Err::<i64, _>(StoreError::IntegerOverflow)
                }
            }),
    {
        let weigh = |r: &SubmissionRow| -> (n: i64)
            ensures
                n == theirs(creator_id@)(r.deep_view()),
            {
                if str_eq(r.record.creator_id.as_str(), creator_id) {
                    1
                } else {
                    0
                }
            };
        let sum: i128 = sum_rows(&self.submissions, weigh, Ghost(theirs(creator_id@)));
        match fit_i64(sum) {
            Some(n) => Ok(n),
            None => Err(StoreError::IntegerOverflow),
        }
    }

    /// Spend against budget for one campaign.
    pub fn campaign_summary(&self, campaign_id: &str) -> (r: Result<
        Option<CampaignSummary>,
        StoreError,
    >)
        requires
            self.deep_view().wf(),
        ensures
            r == self.deep_view().summary(campaign_id@),
    {
        let campaign = match self.get_campaign(campaign_id) {
            Ok(Some(c)) => c,
            Ok(None) => {
                return Ok(None);
            },
            Err(e) => {
                return Err(e);
            },
        };
        if (self.submissions.len() as u128) > (i64::MAX as u128) {
            return Err(StoreError::IntegerOverflow);
        }
        let submissions = self.counts_total(Some(campaign_id), None);
        let views: i128 = self.counter_total(Some(campaign_id), None, Counter::Views);
        let likes: i128 = self.counter_total(Some(campaign_id), None, Counter::Likes);
        let comments: i128 = self.counter_total(Some(campaign_id), None, Counter::Comments);
        let (total_views, total_likes, total_comments): (i64, i64, i64) = match (
            fit_i64(views),
            fit_i64(likes),
            fit_i64(comments),
        ) {
            (Some(v), Some(l), Some(c)) => (v, l, c),
            _ => {
                return Err(StoreError::SummingCampaignMetrics);
            },
        };
        let accrued: i128 = self.money_total(Some(campaign_id), None, PayoutStatus::Accrued);
        let approved: i128 = self.money_total(Some(campaign_id), None, PayoutStatus::Approved);
        let paid: i128 = self.money_total(Some(campaign_id), None, PayoutStatus::Paid);
        let (accrued_cents, approved_cents, paid_cents): (i64, i64, i64) = match (
            fit_i64(accrued),
            fit_i64(approved),
            fit_i64(paid),
        ) {
            (Some(a), Some(b), Some(c)) => (a, b, c),
            _ => {
                return Err(StoreError::IntegerOverflow);
            },
        };
        let committed: i128 = accrued + approved + paid;
        let committed_cents: i64 = match fit_i64(committed) {
            Some(n) => n,
            None => {
                return Err(StoreError::IntegerOverflow);
            },
        };
        let remaining_cents: Option<i64> = if campaign.budget_cents > 0 {
            match fit_i64(campaign.budget_cents as i128 - committed) {
                Some(n) => if n < 0 {
                    Some(0)
                } else {
                    Some(n)
                },
                None => {
                    return Err(StoreError::IntegerOverflow);
                },
            }
        } else {
            None
        };
        let names = self.creator_names(campaign_id);
        Ok(
            Some(
                CampaignSummary {
                    budget_cents: campaign.budget_cents,
                    accrued_cents,
                    approved_cents,
                    paid_cents,
                    committed_cents,
                    remaining_cents,
                    total_views,
                    total_likes,
                    total_comments,
                    submissions,
                    creators: names.len() as i64,
                },
            ),
        )
    }

    /// A creator's cross-campaign totals: submissions by state plus accrued and paid money.
    pub fn creator_totals(&self, creator_id: &str) -> (r: Result<CreatorTotals, StoreError>)
        ensures
            r == self.deep_view().creator_totals(creator_id@),
    {
        if (self.submissions.len() as u128) > (i64::MAX as u128) {
            return Err(StoreError::IntegerOverflow);
        }
        let submissions = self.counts_total(None, Some(creator_id));
        let accrued: i128 = self.money_total(None, Some(creator_id), PayoutStatus::Accrued);
        let paid: i128 = self.money_total(None, Some(creator_id), PayoutStatus::Paid);
        match (fit_i64(accrued), fit_i64(paid)) {
            (Some(accrued_cents), Some(paid_cents)) => Ok(
                CreatorTotals { submissions, accrued_cents, paid_cents },
            ),
            _ => Err(StoreError::IntegerOverflow),
        }
    }

    /// Counts plus money, across everything.
    pub fn overview(&self) -> (r: Result<UgcOverview, StoreError>)
        ensures
            r == self.deep_view().overview(),
    {
        let campaigns: i64 = match self.count_campaigns() {
            Ok(n) => n,
            Err(e) => {
                return Err(e);
            },
        };
        let creators: i64 = match self.count_creators() {
            Ok(n) => n,
            Err(e) => {
                return Err(e);
            },
        };
        if (self.submissions.len() as u128) > (i64::MAX as u128) {
            return Err(StoreError::IntegerOverflow);
        }
        let submissions = self.counts_total(None, None);
        let accrued: i128 = self.money_total(None, None, PayoutStatus::Accrued);
        let paid: i128 = self.money_total(None, None, PayoutStatus::Paid);
        match (fit_i64(accrued), fit_i64(paid)) {
            (Some(accrued_cents), Some(paid_cents)) => Ok(
                UgcOverview { campaigns, creators, submissions, accrued_cents, paid_cents },
            ),
            _ => Err(StoreError::IntegerOverflow),
        }
    }

    /// The leaderboard row of one creator, where its figures fit in 64 bits.
    fn leaderboard_row(&self, campaign_id: &str, creator_id: &str) -> (r: Option<LeaderboardRow>)
        requires
            self.deep_view().wf(),
        ensures
            ({
                let row = self.deep_view().board_row(campaign_id@, creator_id@);
                if board_fits()(row) {
                    r.deep_view() == Some(row)
                } else {
                    r is None
                }
            }),
    {
        let views: i128 = self.counter_total(Some(campaign_id), Some(creator_id), Counter::Views);
        let weigh = |r: &SubmissionRow| -> (n: i64)
            ensures
                n == if cleared_in(Some(campaign_id@), Some(creator_id@))(r.deep_view()) {
                    1int
                } else {
                    0int
                },
            {
                if str_eq(r.record.campaign_id.as_str(), campaign_id) && str_eq(
                    r.record.creator_id.as_str(),
                    creator_id,
                ) && (str_eq(r.status_text.as_str(), "approved") || str_eq(
                    r.status_text.as_str(),
                    "paid",
                )) {
                    1
                } else {
                    0
                }
            };
        let ghost pick = cleared_in(Some(campaign_id@), Some(creator_id@));
        let approved: i128 = sum_rows(
            &self.submissions,
            weigh,
            Ghost(
                |r: SubmissionRowView|
                    if pick(r) {
                        1
                    } else {
                        0
                    },
            ),
        );
        let accrued: i128 = self.money_total(
            Some(campaign_id),
            Some(creator_id),
            PayoutStatus::Accrued,
        );
        let paid: i128 = self.money_total(Some(campaign_id), Some(creator_id), PayoutStatus::Paid);
        let display_name = self.creator_name(creator_id);
        match (fit_i64(views), fit_i64(approved), fit_i64(accrued), fit_i64(paid)) {
            (Some(v), Some(n), Some(a), Some(p)) => Some(
                LeaderboardRow {
                    creator_id: creator_id.to_string(),
                    display_name,
                    views: v,
                    approved_submissions: n,
                    accrued_cents: a,
                    paid_cents: p,
                },
            ),
            _ => None,
        }
    }

    /// Creators on one campaign, ranked by newest-snapshot views.
    pub fn campaign_leaderboard(&self, campaign_id: &str, limit: Option<i64>) -> (r: Result<
        Vec<LeaderboardRow>,
        StoreError,
    >)
        requires
            self.deep_view().wf(),
        ensures
            ({
                let board = self.deep_view().board(campaign_id@);
                if rows::every(board, board_fits()) {
                    r is Ok && rows::first_page(
                        board,
                        r->Ok_0.deep_view(),
                        board_order(),
                        pricing::page_size(limit),
                    )
                } else {
                    r is Err && r->Err_0 == StoreError::IntegerOverflow
                }
            }),
    {
        let ghost s = self.deep_view();
        let ghost board = s.board(campaign_id@);
        let names = self.creator_names(campaign_id);
        let mut out: Vec<LeaderboardRow> = Vec::new();
        let mut i: usize = 0;
        while i < names.len()
            invariant
                s == self.deep_view(),
                s.wf(),
                board == s.board(campaign_id@),
                names.deep_view() == s.creators_in(campaign_id@),
                i <= names.len(),
                out.deep_view() == board.take(i as int),
                forall|k: int| 0 <= k < i ==> board_fits()(#[trigger] board[k]),
            decreases names.len() - i,
        {
            match self.leaderboard_row(campaign_id, names[i].as_str()) {
                Some(row) => {
                    let ghost before = out.deep_view();
                    out.push(row);
                    assert(out.deep_view() =~= before.push(row.deep_view()));
                },
                None => {
                    assert(!board_fits()(board[i as int]));
                    return Err(StoreError::IntegerOverflow);
                },
            }
            i += 1;
        }
        assert(board.take(board.len() as int) =~= board);
        proof {
            lemma_board_order();
        }
        let before = |a: &LeaderboardRow, b: &LeaderboardRow| -> (r: bool)
            ensures
                r == board_order()(a.deep_view(), b.deep_view()),
            {
                if a.views != b.views {
                    a.views > b.views
                } else {
                    let x = to_lower(a.display_name.as_str());
                    let y = to_lower(b.display_name.as_str());
                    if !str_eq(x.as_str(), y.as_str()) {
                        str_le(x.as_str(), y.as_str())
                    } else {
                        str_le(a.creator_id.as_str(), b.creator_id.as_str())
                    }
                }
            };
        sort_rows(&mut out, before, Ghost(board_order()));
        truncate_page(&mut out, clamp_limit(limit));
        Ok(out)
    }
}

/// One for a submission of the creator, nothing for any other.
pub open spec fn theirs(creator: Seq<char>) -> spec_fn(SubmissionRowView) -> int {
    |r: SubmissionRowView|
        if r.record.creator_id == creator {
            1
        } else {
            0
        }
}

/// Cuts a list to its first page.
pub(crate) fn truncate_page<T: DeepView>(v: &mut Vec<T>, limit: i64)
    requires
        1 <= limit <= 500,
    ensures
        final(v).deep_view() == old(v).deep_view().take(
            if old(v).deep_view().len() <= limit {
                old(v).deep_view().len() as int
            } else {
                limit as int
            },
        ),
{
    let n: usize = limit as usize;
    if v.len() > n {
        v.truncate(n);
    }
}

} // verus!
