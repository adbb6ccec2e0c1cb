//! What a submission is worth: the payout rule, the bonus ladder, the two ceilings, and
//! the sentence that explains the number. Money is integer cents throughout.
use crate::records::{
    BonusTier, Campaign, CampaignView, MetricSnapshot, Payout, PayoutRule, PayoutView,
    SnapshotView, Submission, SubmissionStatus, SubmissionView,
};
use crate::text;
use crate::text::push_i64;
use vstd::prelude::*;

verus! {

/// Page size of a list that was asked for without a limit.
pub const DEFAULT_LIMIT: i64 = 100;

/// Largest page size that the store serves.
pub const MAX_LIMIT: i64 = 500;

/// The page size that a `?limit=` amounts to.
pub open spec fn page_size(limit: Option<i64>) -> int {
    let asked = match limit {
        Some(n) => n as int,
        None => DEFAULT_LIMIT as int,
    };
    if asked < 1 {
        1
    } else if asked > MAX_LIMIT {
        MAX_LIMIT as int
    } else {
        asked
    }
}

/// A page holds at least one row and at most [`MAX_LIMIT`], and what is within those bounds is
/// taken as it is asked.
pub proof fn law_page_sizes_are_bounded(limit: Option<i64>)
    ensures
        1 <= page_size(limit) <= MAX_LIMIT,
        limit is None ==> page_size(limit) == DEFAULT_LIMIT,
        limit is Some && 1 <= limit->0 <= MAX_LIMIT ==> page_size(limit) == limit->0,
{
}

/// Clamps a caller-supplied `?limit=` into the server's own bounds.
pub fn clamp_limit(limit: Option<i64>) -> (n: i64)
    ensures
        n == page_size(limit),
        1 <= n <= MAX_LIMIT,
{
    let asked: i64 = match limit {
        Some(n) => n,
        None => DEFAULT_LIMIT,
    };
    if asked < 1 {
        1
    } else if asked > MAX_LIMIT {
        MAX_LIMIT
    } else {
        asked
    }
}

// ---- the price ---------------------------------------------------------------------

/// `n`, or 0 where it is negative.
pub open spec fn floor0(n: int) -> int {
    if n < 0 {
        0
    } else {
        n
    }
}

/// `n`, or the largest 64-bit value where it is larger.
pub open spec fn capped(n: int) -> int {
    if n > i64::MAX {
        i64::MAX as int
    } else {
        n
    }
}

/// The smaller of the two.
pub open spec fn least(a: int, b: int) -> int {
    if a <= b {
        a
    } else {
        b
    }
}

/// What the campaign's rule alone pays for `views`.
pub open spec fn base_cents(views: int, rule: PayoutRule) -> int {
    match rule {
        PayoutRule::Cpm { cpm_cents } => capped(floor0(views) * floor0(cpm_cents as int)) / 1000,
        PayoutRule::Flat { flat_cents } => floor0(flat_cents as int),
    }
}

/// The tier at `i` is met and has the highest met threshold; of equal thresholds the last
/// one counts.
pub open spec fn tier_wins(views: int, tiers: Seq<BonusTier>, i: int) -> bool {
    &&& 0 <= i < tiers.len()
    &&& views >= tiers[i].views
    &&& forall|j: int|
        #![trigger tiers[j]]
        0 <= j < tiers.len() && views >= tiers[j].views ==> tiers[j].views <= tiers[i].views && (j
            > i ==> tiers[j].views < tiers[i].views)
}

/// The one tier that pays, if any is met.
pub open spec fn winning_tier(views: int, tiers: Seq<BonusTier>) -> Option<BonusTier> {
    if exists|i: int| tier_wins(views, tiers, i) {
        Some(tiers[choose|i: int| tier_wins(views, tiers, i)])
    } else {
        None
    }
}

/// The one bonus on top of the base.
pub open spec fn bonus_cents(views: int, tiers: Seq<BonusTier>) -> int {
    match winning_tier(views, tiers) {
        Some(t) => floor0(t.bonus_cents as int),
        None => 0,
    }
}

/// The price of one approved submission before any ceiling.
pub open spec fn price(views: int, rule: PayoutRule, tiers: Seq<BonusTier>) -> int {
    capped(base_cents(views, rule) + bonus_cents(floor0(views), tiers))
}

/// There is at most one winning tier, and there is one as soon as any tier is met.
pub proof fn lemma_winning_tier(views: int, tiers: Seq<BonusTier>)
    ensures
        forall|i: int|
            #[trigger] tier_wins(views, tiers, i) ==> winning_tier(views, tiers) == Some(tiers[i]),
        winning_tier(views, tiers) is None <==> (forall|j: int|
            0 <= j < tiers.len() ==> views < (#[trigger] tiers[j]).views),
    decreases tiers.len(),
{
    if exists|j: int| 0 <= j < tiers.len() && views >= (#[trigger] tiers[j]).views {
        lemma_some_tier_wins(views, tiers);
    }
}

proof fn lemma_some_tier_wins(views: int, tiers: Seq<BonusTier>)
    requires
        exists|j: int| 0 <= j < tiers.len() && views >= (#[trigger] tiers[j]).views,
    ensures
        exists|i: int| tier_wins(views, tiers, i),
    decreases tiers.len(),
{
    let rest = tiers.drop_last();
    let n = tiers.len() - 1;
    if exists|j: int| 0 <= j < rest.len() && views >= (#[trigger] rest[j]).views {
        lemma_some_tier_wins(views, rest);
        let b = choose|i: int| tier_wins(views, rest, i);
        if views >= tiers[n].views && tiers[n].views >= tiers[b].views {
            assert(tier_wins(views, tiers, n)) by {
                assert forall|j: int| 0 <= j < tiers.len() && views >= tiers[j].views implies (
                #[trigger] tiers[j]).views <= tiers[n].views && (j > n ==> tiers[j].views
                    < tiers[n].views) by {
                    if j < n {
                        assert(rest[j] == tiers[j]);
                    }
                }
            }
        } else {
            assert(tier_wins(views, tiers, b)) by {
                assert forall|j: int| 0 <= j < tiers.len() && views >= tiers[j].views implies (
                #[trigger] tiers[j]).views <= tiers[b].views && (j > b ==> tiers[j].views
                    < tiers[b].views) by {
                    if j < n {
                        assert(rest[j] == tiers[j]);
                    }
                }
            }
        }
    } else {
        let j = choose|j: int| 0 <= j < tiers.len() && views >= (#[trigger] tiers[j]).views;
        if j < n {
            assert(views >= rest[j].views);
        }
        assert(tier_wins(views, tiers, n)) by {
            assert forall|k: int| 0 <= k < tiers.len() && views >= tiers[k].views implies (
            #[trigger] tiers[k]).views <= tiers[n].views && (k > n ==> tiers[k].views
                < tiers[n].views) by {
                if k < n {
                    assert(rest[k] == tiers[k]);
                }
            }
        }
    }
}

/// The tier that pays at `views`.
pub fn find_tier(views: i64, tiers: &[BonusTier]) -> (r: Option<BonusTier>)
    ensures
        r == winning_tier(views as int, tiers@),
{
    let mut best: Option<usize> = None;
    let mut i: usize = 0;
    while i < tiers.len()
        invariant
            i <= tiers@.len(),
            best is None ==> forall|j: int| 0 <= j < i ==> views < (#[trigger] tiers@[j]).views,
            best is Some ==> tier_wins(views as int, tiers@.take(i as int), best->0 as int),
        decreases tiers.len() - i,
    {
        if views >= tiers[i].views {
            let take: bool = match best {
                Some(b) => tiers[i].views >= tiers[b].views,
                None => true,
            };
            if take {
                best = Some(i);
            } else {
                let ghost b = best->0 as int;
            }
        }
        i += 1;
    }
    proof {
        assert(tiers@.take(i as int) =~= tiers@);
    }
    match best {
        Some(b) => Some(tiers[b]),
        None => None,
    }
}

fn max0(n: i64) -> (r: i64)
    ensures
        r == floor0(n as int),
{
    if n < 0 {
        0
    } else {
        n
    }
}

fn cap_i64(n: i128) -> (r: i64)
    requires
        0 <= n,
    ensures
        r == capped(n as int),
{
    if n > i64::MAX as i128 {
        i64::MAX
    } else {
        n as i64
    }
}

/// Prices one approved submission from its latest view count.
///
/// The base is the campaign's rule; on top of it sits one bonus, that of the tier with the
/// highest met threshold. The CPM division floors, and an absurd view count saturates
/// instead of wrapping.
pub fn payout_for(views: i64, rule: &PayoutRule, tiers: &[BonusTier]) -> (cents: i64)
    ensures
        cents == price(views as int, *rule, tiers@),
        cents >= 0,
{
    let seen: i64 = max0(views);
    let base: i64 = match rule {
        PayoutRule::Cpm { cpm_cents } => {
            let rate: i64 = max0(*cpm_cents);
            let product: i128 = mul_wide(seen, rate);
            cap_i64(product) / 1000
        },
        PayoutRule::Flat { flat_cents } => max0(*flat_cents),
    };
    let bonus: i64 = match find_tier(seen, tiers) {
        Some(t) => max0(t.bonus_cents),
        None => 0,
    };
    cap_i64(base as i128 + bonus as i128)
}

fn mul_wide(a: i64, b: i64) -> (r: i128)
    requires
        0 <= a,
        0 <= b,
    ensures
        r == a * b,
        r >= 0,
{
    assert(0 <= a * b <= 0x7fff_ffff_ffff_ffff * 0x7fff_ffff_ffff_ffff) by (nonlinear_arith)
        requires
            0 <= a <= 0x7fff_ffff_ffff_ffff,
            0 <= b <= 0x7fff_ffff_ffff_ffff,
    ;
    (a as i128) * (b as i128)
}

// ---- the ceilings ---------------------------------------------------------------------

/// What is left under `ceiling` once `committed` is spent.
pub open spec fn headroom(ceiling: int, committed: int) -> int {
    floor0(ceiling - floor0(committed))
}

/// `amount` held to what is left under `ceiling`; a ceiling of 0 is no ceiling.
pub open spec fn held_to(amount: int, ceiling: int, committed: int) -> int {
    if ceiling > 0 {
        least(amount, headroom(ceiling, committed))
    } else {
        amount
    }
}

/// A price with both ceilings applied.
pub open spec fn clamped(
    raw: int,
    creator_committed: int,
    creator_cap: int,
    campaign_committed: int,
    budget: int,
) -> int {
    held_to(held_to(floor0(raw), creator_cap, creator_committed), budget, campaign_committed)
}

fn hold_to(amount: i64, ceiling: i64, committed: i64) -> (r: i64)
    requires
        0 <= amount,
    ensures
        r == held_to(amount as int, ceiling as int, committed as int),
        0 <= r <= amount,
{
    if ceiling > 0 {
        let room: i64 = max0(ceiling - max0(committed));
        if amount <= room {
            amount
        } else {
            room
        }
    } else {
        amount
    }
}

/// Clamps a freshly priced payout against the two ceilings, given the money already
/// committed elsewhere. `0` means uncapped for both.
pub fn clamp_payout(
    raw_cents: i64,
    creator_committed_excluding_this: i64,
    max_payout_per_creator_cents: i64,
    campaign_committed_excluding_this: i64,
    budget_cents: i64,
) -> (cents: i64)
    ensures
        cents == clamped(
            raw_cents as int,
            creator_committed_excluding_this as int,
            max_payout_per_creator_cents as int,
            campaign_committed_excluding_this as int,
            budget_cents as int,
        ),
        cents >= 0,
{
    let amount: i64 = max0(raw_cents);
    let amount: i64 = hold_to(
        amount,
        max_payout_per_creator_cents,
        creator_committed_excluding_this,
    );
    hold_to(amount, budget_cents, campaign_committed_excluding_this)
}

/// Everything the accrual pass needs about one submission.
#[derive(Debug)]
pub struct AccrualInputs {
    pub submission: Submission,
    pub campaign: Campaign,
    /// The submission's most recent counters; `None` before the first refresh.
    pub latest: Option<MetricSnapshot>,
    /// The payout row already on this submission, if any.
    pub existing_payout: Option<Payout>,
    /// Money committed to this creator on this campaign, without this submission's row.
    pub creator_committed_excluding_this: i64,
    /// Money committed across the whole campaign, without this submission's row.
    pub campaign_committed_excluding_this: i64,
}

/// The view of [`AccrualInputs`].
#[verifier::ext_equal]
pub struct AccrualView {
    pub submission: SubmissionView,
    pub campaign: CampaignView,
    pub latest: Option<SnapshotView>,
    pub existing_payout: Option<PayoutView>,
    pub creator_committed_excluding_this: i64,
    pub campaign_committed_excluding_this: i64,
}

impl AccrualView {
    /// The latest view count, or 0 before the first snapshot.
    pub open spec fn views(self) -> i64 {
        match self.latest {
            Some(m) => m.views,
            None => 0,
        }
    }

    /// What the submission is worth, both ceilings applied; work that has not cleared
    /// review is worth nothing.
    pub open spec fn amount(self) -> int {
        if self.submission.status.cleared() {
            clamped(
                price(self.views() as int, self.campaign.payout, self.campaign.bonus_tiers),
                self.creator_committed_excluding_this as int,
                self.campaign.max_payout_per_creator_cents as int,
                self.campaign_committed_excluding_this as int,
                self.campaign.budget_cents as int,
            )
        } else {
            0
        }
    }
}

impl DeepView for AccrualInputs {
    type V = AccrualView;

    open spec fn deep_view(&self) -> AccrualView {
        AccrualView {
            submission: self.submission.deep_view(),
            campaign: self.campaign.deep_view(),
            latest: self.latest.deep_view(),
            existing_payout: self.existing_payout.deep_view(),
            creator_committed_excluding_this: self.creator_committed_excluding_this,
            campaign_committed_excluding_this: self.campaign_committed_excluding_this,
        }
    }
}

impl AccrualInputs {
    /// The latest view count, or 0 before the first snapshot.
    pub fn views(&self) -> (n: i64)
        ensures
            n == self.deep_view().views(),
    {
        match &self.latest {
            Some(m) => m.views,
            None => 0,
        }
    }

    /// What this submission is worth right now, both ceilings applied.
    ///
    /// A submission that has not cleared review is worth nothing: pricing a pending post
    /// would let unreviewed work eat the campaign budget.
    pub fn amount_cents(&self) -> (cents: i64)
        ensures
            cents == self.deep_view().amount(),
            cents >= 0,
    {
        if self.submission.status != SubmissionStatus::Approved && self.submission.status
            != SubmissionStatus::Paid {
            return 0;
        }
        let raw: i64 = payout_for(
            self.views(),
            &self.campaign.payout,
            self.campaign.bonus_tiers.as_slice(),
        );
        clamp_payout(
            raw,
            self.creator_committed_excluding_this,
            self.campaign.max_payout_per_creator_cents,
            self.campaign_committed_excluding_this,
            self.campaign.budget_cents,
        )
    }
}

// ---- the explanation --------------------------------------------------------------------

/// The part of the sentence that names the rule.
pub open spec fn rule_text(views: int, rule: PayoutRule) -> Seq<char> {
    match rule {
        PayoutRule::Cpm { cpm_cents } => "cpm "@ + text::int_text(cpm_cents as int) + "c x "@
            + text::int_text(views) + " views"@,
        PayoutRule::Flat { flat_cents } => "flat "@ + text::int_text(flat_cents as int)
            + "c per approved post"@,
    }
}

/// The part of the sentence that names the bonus.
pub open spec fn bonus_text(views: int, tiers: Seq<BonusTier>) -> Seq<char> {
    match winning_tier(views, tiers) {
        Some(t) => " + bonus "@ + text::int_text(t.bonus_cents as int) + "c @"@ + text::int_text(
            t.views as int,
        ) + " views"@,
        None => Seq::empty(),
    }
}

/// The part of the sentence that says a ceiling applied.
pub open spec fn clamp_text(amount: int, raw: int) -> Seq<char> {
    if amount < raw {
        " (clamped by the per-creator cap or the campaign budget)"@
    } else {
        Seq::empty()
    }
}

/// The human sentence stored on a payout row.
pub open spec fn reason_text(views: int, campaign: CampaignView, amount: int) -> Seq<char> {
    rule_text(views, campaign.payout) + bonus_text(views, campaign.bonus_tiers) + clamp_text(
        amount,
        price(views, campaign.payout, campaign.bonus_tiers),
    )
}

/// The human sentence stored on a payout row, so an operator can see why a number is what
/// it is without re-deriving it.
pub fn accrual_reason(views: i64, campaign: &Campaign, amount_cents: i64) -> (out: String)
    ensures
        out@ == reason_text(views as int, campaign.deep_view(), amount_cents as int),
{
    let mut reason = String::new();
    match campaign.payout {
        PayoutRule::Cpm { cpm_cents } => {
            reason.append("cpm ");
            push_i64(&mut reason, cpm_cents);
            reason.append("c x ");
            push_i64(&mut reason, views);
            reason.append(" views");
        },
        PayoutRule::Flat { flat_cents } => {
            reason.append("flat ");
            push_i64(&mut reason, flat_cents);
            reason.append("c per approved post");
        },
    }
    match find_tier(views, campaign.bonus_tiers.as_slice()) {
        Some(tier) => {
            reason.append(" + bonus ");
            push_i64(&mut reason, tier.bonus_cents);
            reason.append("c @");
            push_i64(&mut reason, tier.views);
            reason.append(" views");
        },
        None => {},
    }
    let raw: i64 = payout_for(views, &campaign.payout, campaign.bonus_tiers.as_slice());
    if amount_cents < raw {
        reason.append(" (clamped by the per-creator cap or the campaign budget)");
    }
    reason
}

// ---- what holds of every price ---------------------------------------------------------------

/// A payout is never negative and never exceeds the 64-bit range.
pub proof fn law_price_in_range(views: int, rule: PayoutRule, tiers: Seq<BonusTier>)
    ensures
        0 <= price(views, rule, tiers) <= i64::MAX,
{
    match rule {
        PayoutRule::Cpm { cpm_cents } => {
        },
        PayoutRule::Flat { flat_cents } => {},
    }
}

/// More views never earn a smaller base.
pub proof fn law_base_is_monotone(fewer: int, more: int, rule: PayoutRule)
    requires
        fewer <= more,
    ensures
        base_cents(fewer, rule) <= base_cents(more, rule),
{
    match rule {
        PayoutRule::Cpm { cpm_cents } => {
            let rate = floor0(cpm_cents as int);
            let a = floor0(fewer);
            let b = floor0(more);
            assert(a * rate <= b * rate) by (nonlinear_arith)
                requires
                    a <= b,
                    0 <= rate,
            ;
        },
        PayoutRule::Flat { flat_cents } => {},
    }
}

/// With no bonus tiers, more views never earn a smaller payout.
pub proof fn law_price_is_monotone_without_tiers(fewer: int, more: int, rule: PayoutRule)
    requires
        fewer <= more,
    ensures
        price(fewer, rule, Seq::empty()) <= price(more, rule, Seq::empty()),
{
    law_base_is_monotone(fewer, more, rule);
}

/// A flat fee does not depend on the view count.
pub proof fn law_flat_ignores_views(views: int, other: int, flat_cents: i64)
    ensures
        price(views, PayoutRule::Flat { flat_cents }, Seq::empty()) == price(
            other,
            PayoutRule::Flat { flat_cents },
            Seq::empty(),
        ),
{
}

/// CPM money floors: the base is the largest whole number of cents that `views` thousandths
/// of the rate cover, wherever the product fits in 64 bits.
pub proof fn law_cpm_floors(views: int, cpm_cents: i64)
    requires
        0 <= views,
        0 <= cpm_cents,
        views * cpm_cents <= i64::MAX,
    ensures
        ({
            let base = base_cents(views, PayoutRule::Cpm { cpm_cents });
            base * 1000 <= views * cpm_cents < (base + 1) * 1000
        }),
{
}

/// The bonus is that of one met tier and no other: its threshold is met, and no tier that is
/// met has a higher one.
pub proof fn law_one_tier_pays(views: int, tiers: Seq<BonusTier>)
    requires
        exists|j: int| 0 <= j < tiers.len() && views >= (#[trigger] tiers[j]).views,
    ensures
        exists|i: int|
            #![trigger tiers[i]]
            0 <= i < tiers.len() && views >= tiers[i].views && bonus_cents(views, tiers) == floor0(
                tiers[i].bonus_cents as int,
            ) && (forall|j: int|
                0 <= j < tiers.len() && views >= (#[trigger] tiers[j]).views ==> tiers[j].views
                    <= tiers[i].views),
{
    lemma_winning_tier(views, tiers);
}

/// Below every threshold there is no bonus.
pub proof fn law_unmet_tiers_pay_nothing(views: int, tiers: Seq<BonusTier>)
    requires
        forall|j: int| 0 <= j < tiers.len() ==> views < (#[trigger] tiers[j]).views,
    ensures
        bonus_cents(views, tiers) == 0,
{
}

/// The order of the tiers does not matter where their thresholds are distinct: two ladders
/// that hold the same tiers pay the same bonus.
pub proof fn law_tier_order_is_irrelevant(views: int, a: Seq<BonusTier>, b: Seq<BonusTier>)
    requires
        forall|t: BonusTier| #[trigger] a.contains(t) == b.contains(t),
        forall|i: int, j: int|
            0 <= i < a.len() && 0 <= j < a.len() && i != j ==> (#[trigger] a[i]).views != (
            #[trigger] a[j]).views,
    ensures
        bonus_cents(views, a) == bonus_cents(views, b),
{
    lemma_winning_tier(views, a);
    if exists|i: int| tier_wins(views, a, i) {
        let i = choose|i: int| tier_wins(views, a, i);
        assert(a.contains(a[i]));
        lemma_some_tier_wins(views, b);
        let w = choose|w: int| tier_wins(views, b, w);
        assert(a.contains(b[w]));
    } else {
        assert forall|j: int| 0 <= j < b.len() implies views < (#[trigger] b[j]).views by {
            assert(a.contains(b[j]));
        }
    }
}

/// A clamped payout is never negative, never above the price, and never above what is left
/// under a ceiling that is set.
pub proof fn law_clamp_respects_ceilings(
    raw: int,
    creator_committed: int,
    creator_cap: int,
    campaign_committed: int,
    budget: int,
)
    ensures
        ({
            let amount = clamped(raw, creator_committed, creator_cap, campaign_committed, budget);
            &&& 0 <= amount <= floor0(raw)
            &&& creator_cap > 0 ==> amount <= headroom(creator_cap, creator_committed)
            &&& budget > 0 ==> amount <= headroom(budget, campaign_committed)
        }),
{
}

/// With both ceilings at 0 the price stands as it is.
pub proof fn law_zero_means_uncapped(raw: int, creator_committed: int, campaign_committed: int)
    ensures
        clamped(raw, creator_committed, 0, campaign_committed, 0) == floor0(raw),
{
}

} // verus!
