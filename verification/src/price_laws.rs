//! What a price is: the rule's base, the one bonus on top of it, and the two ceilings over both.
use crate::engine::{EngineView, HookEventView};
use crate::laws;
use crate::pricing;
use crate::pricing::AccrualView;
use crate::records::{
    BonusTier, CampaignView, PayoutRule, PayoutStatus, SnapshotView, SubmissionStatus,
};
use crate::rows;
use crate::store;
use crate::store::{PayoutRowView, StoreError, StoreView};
use crate::text;
use vstd::prelude::*;

verus! {

// ---- the base --------------------------------------------------------------------------------

/// Without a ladder, a CPM campaign pays the rate once per thousand views: the largest whole number
/// of cents that the views cover. A count or a rate below 0 earns nothing, and a product past 64
/// bits is held to what fits.
pub proof fn law_cpm_pays_by_the_thousand(views: int, cpm_cents: i64)
    ensures
        ({
            let paid = pricing::price(views, PayoutRule::Cpm { cpm_cents }, Seq::empty());
            &&& views <= 0 || cpm_cents <= 0 ==> paid == 0
            &&& views > 0 && cpm_cents > 0 && views * cpm_cents <= i64::MAX ==> paid * 1000 <= views
                * cpm_cents && views * cpm_cents < paid * 1000 + 1000
            &&& views > 0 && cpm_cents > 0 && views * cpm_cents > i64::MAX ==> paid * 1000
                <= i64::MAX && i64::MAX < paid * 1000 + 1000
        }),
{
    assert(views <= 0 || cpm_cents <= 0 ==> pricing::floor0(views) * pricing::floor0(
        cpm_cents as int,
    ) == 0) by (nonlinear_arith);
}

/// Without a ladder, a flat campaign pays its fee whatever the views are, and a fee below 0 pays
/// nothing.
pub proof fn law_flat_pays_the_fee(views: int, flat_cents: i64)
    ensures
        flat_cents >= 0 ==> pricing::price(views, PayoutRule::Flat { flat_cents }, Seq::empty())
            == flat_cents,
        flat_cents < 0 ==> pricing::price(views, PayoutRule::Flat { flat_cents }, Seq::empty())
            == 0,
{
}

// ---- the bonus -------------------------------------------------------------------------------

/// Under every rule the met tier with the highest threshold adds its bonus to what the rule pays
/// without a ladder: exactly its bonus wherever the sum fits in 64 bits. Of equal thresholds the
/// last counts, and a bonus below 0 takes nothing off.
pub proof fn law_the_bonus_sits_on_the_base(
    views: int,
    rule: PayoutRule,
    tiers: Seq<BonusTier>,
    i: int,
)
    requires
        0 <= i < tiers.len(),
        tiers[i].views <= views || tiers[i].views <= 0,
        forall|j: int|
            0 <= j < tiers.len() && ((#[trigger] tiers[j]).views <= views || tiers[j].views <= 0)
                ==> tiers[j].views < tiers[i].views || (tiers[j].views == tiers[i].views && j
                <= i),
    ensures
        ({
            let bare = pricing::price(views, rule, Seq::empty());
            let paid = pricing::price(views, rule, tiers);
            &&& tiers[i].bonus_cents <= 0 ==> paid == bare
            &&& tiers[i].bonus_cents > 0 && bare + tiers[i].bonus_cents <= i64::MAX ==> paid == bare
                + tiers[i].bonus_cents
            &&& tiers[i].bonus_cents > 0 && bare + tiers[i].bonus_cents > i64::MAX ==> paid
                == i64::MAX
        }),
{
    let seen = pricing::floor0(views);
    pricing::lemma_winning_tier(seen, tiers);
    pricing::lemma_winning_tier(seen, Seq::empty());
    assert(pricing::tier_wins(seen, tiers, i));
    pricing::law_price_in_range(views, rule, Seq::empty());
}

/// Below every threshold the ladder pays nothing: the price is what the rule pays without one.
pub proof fn law_an_unmet_ladder_adds_nothing(views: int, rule: PayoutRule, tiers: Seq<BonusTier>)
    requires
        forall|j: int|
            0 <= j < tiers.len() ==> (#[trigger] tiers[j]).views > views && tiers[j].views > 0,
    ensures
        pricing::price(views, rule, tiers) == pricing::price(views, rule, Seq::empty()),
{
    let seen = pricing::floor0(views);
    pricing::lemma_winning_tier(seen, tiers);
    pricing::lemma_winning_tier(seen, Seq::empty());
}

/// The tier that a post has reached: one that is met, whose threshold no other met tier is above;
/// and there is none exactly where no tier is met.
pub proof fn law_the_reached_tier(views: int, tiers: Seq<BonusTier>)
    ensures
        pricing::winning_tier(views, tiers) is None <==> forall|j: int|
            0 <= j < tiers.len() ==> (#[trigger] tiers[j]).views > views,
        pricing::winning_tier(views, tiers) matches Some(t) ==> {
            &&& tiers.contains(t)
            &&& t.views <= views
            &&& forall|j: int|
                0 <= j < tiers.len() && (#[trigger] tiers[j]).views <= views ==> tiers[j].views
                    <= t.views
        },
{
    pricing::lemma_winning_tier(views, tiers);
    if pricing::winning_tier(views, tiers) is Some {
        let i = choose|i: int| pricing::tier_wins(views, tiers, i);
        assert(tiers.contains(tiers[i]));
    }
}

// ---- the ceilings ----------------------------------------------------------------------------

/// A clamped payout is the largest amount that is not above the price and takes neither the creator
/// past a cap that is set nor the campaign past a budget that is set; where there is no such amount
/// it is 0. A ceiling of 0 or below is none, and money committed below 0 counts as none.
pub proof fn law_a_clamped_payout_is_the_largest_allowed(
    raw: int,
    creator_committed: int,
    creator_cap: int,
    campaign_committed: int,
    budget: int,
    other: int,
)
    ensures
        ({
            let paid = pricing::clamped(
                raw,
                creator_committed,
                creator_cap,
                campaign_committed,
                budget,
            );
            &&& 0 <= paid
            &&& paid > 0 ==> paid <= raw
            &&& paid > 0 && creator_cap > 0 ==> paid + creator_committed <= creator_cap && paid
                <= creator_cap
            &&& paid > 0 && budget > 0 ==> paid + campaign_committed <= budget && paid <= budget
            &&& 0 <= other <= raw && (creator_cap > 0 ==> other + creator_committed <= creator_cap
                && other <= creator_cap) && (budget > 0 ==> other + campaign_committed <= budget
                && other <= budget) ==> other <= paid
        }),
{
}

/// What a submission is worth follows from its state, its newest views, the campaign's rule, ladder
/// and ceilings, and the money committed elsewhere: nothing before it cleared review; afterwards
/// the price, held to the cap and to the budget.
pub proof fn law_the_worth_of_a_submission(a: AccrualView, other: int)
    ensures
        ({
            let views = match a.latest {
                Some(m) => m.views as int,
                None => 0,
            };
            let price = pricing::price(views, a.campaign.payout, a.campaign.bonus_tiers);
            let cap = a.campaign.max_payout_per_creator_cents;
            let budget = a.campaign.budget_cents;
            let to_creator = a.creator_committed_excluding_this;
            let to_campaign = a.campaign_committed_excluding_this;
            let paid = a.amount();
            &&& a.submission.status == SubmissionStatus::Pending || a.submission.status
                == SubmissionStatus::Rejected ==> paid == 0
            &&& a.submission.status == SubmissionStatus::Approved || a.submission.status
                == SubmissionStatus::Paid ==> {
                &&& 0 <= paid <= price
                &&& cap <= 0 && budget <= 0 ==> paid == price
                &&& paid > 0 && cap > 0 ==> paid + to_creator <= cap && paid <= cap
                &&& paid > 0 && budget > 0 ==> paid + to_campaign <= budget && paid <= budget
                &&& 0 <= other <= price && (cap > 0 ==> other + to_creator <= cap && other <= cap)
                    && (budget > 0 ==> other + to_campaign <= budget && other <= budget) ==> other
                    <= paid
            }
            &&& paid <= i64::MAX
        }),
{
    let views = match a.latest {
        Some(m) => m.views as int,
        None => 0,
    };
    pricing::law_price_in_range(views, a.campaign.payout, a.campaign.bonus_tiers);
}

/// The sentence on a payout names the rule with its rate and the views, then the reached tier with
/// its bonus and threshold, and last whether a ceiling took anything off the price.
pub proof fn law_the_reason_says_how_it_was_priced(views: int, c: CampaignView, amount: int)
    ensures
        ({
            let rule = match c.payout {
                PayoutRule::Cpm { cpm_cents } => "cpm "@ + text::int_text(cpm_cents as int)
                    + "c x "@ + text::int_text(views) + " views"@,
                PayoutRule::Flat { flat_cents } => "flat "@ + text::int_text(flat_cents as int)
                    + "c per approved post"@,
            };
            let bonus = match pricing::winning_tier(views, c.bonus_tiers) {
                Some(t) => " + bonus "@ + text::int_text(t.bonus_cents as int) + "c @"@
                    + text::int_text(t.views as int) + " views"@,
                None => Seq::empty(),
            };
            let price = pricing::price(views, c.payout, c.bonus_tiers);
            let clamp = " (clamped by the per-creator cap or the campaign budget)"@;
            &&& amount >= price ==> pricing::reason_text(views, c, amount) =~= rule + bonus
            &&& amount < price ==> pricing::reason_text(views, c, amount) =~= rule + bonus + clamp
        }),
{
}

// ---- what the pass reads ---------------------------------------------------------------------

/// The pass reads the submission, its campaign, its newest snapshot and its own payout row, and the
/// money of every other payout row: that of the campaign, and that of the creator on it.
pub proof fn law_accrual_reads_its_rows(s: StoreView, i: int, c: int)
    requires
        s.wf(),
        0 <= i < s.submissions.len(),
        0 <= c < s.campaigns.len(),
        s.campaigns[c].id == s.submissions[i].record.campaign_id,
    ensures
        ({
            let row = s.submissions[i].record;
            let to_campaign = rows::total(
                s.payouts,
                |p: PayoutRowView|
                    if p.record.campaign_id == row.campaign_id && p.record.submission_id != Some(
                        row.id,
                    ) {
                        p.record.amount_cents as int
                    } else {
                        0
                    },
            );
            let to_creator = rows::total(
                s.payouts,
                |p: PayoutRowView|
                    if p.record.campaign_id == row.campaign_id && p.record.creator_id
                        == row.creator_id && p.record.submission_id != Some(row.id) {
                        p.record.amount_cents as int
                    } else {
                        0
                    },
            );
            let read = s.accrual_inputs(row.id);
            &&& read is Ok <==> i64::MIN <= to_campaign <= i64::MAX && i64::MIN <= to_creator
                <= i64::MAX
            &&& read matches Ok(found) ==> found matches Some(a) && {
                &&& a.submission == row
                &&& a.campaign == s.campaigns[c]
                &&& a.campaign_committed_excluding_this == to_campaign
                &&& a.creator_committed_excluding_this == to_creator
                &&& a.latest is None <==> forall|k: int|
                    0 <= k < s.snapshots.len() ==> (#[trigger] s.snapshots[k]).submission_id
                        != row.id
                &&& a.latest matches Some(m) ==> s.snapshots.contains(m) && m.submission_id
                    == row.id && forall|k: int|
                    0 <= k < s.snapshots.len() && (#[trigger] s.snapshots[k]).submission_id
                        == row.id ==> s.snapshots[k].id <= m.id
                &&& a.existing_payout is None <==> forall|k: int|
                    0 <= k < s.payouts.len() ==> (#[trigger] s.payouts[k]).record.submission_id
                        != Some(row.id)
                &&& a.existing_payout matches Some(p) ==> p.submission_id == Some(row.id) && exists|
                    k: int,
                |
                    0 <= k < s.payouts.len() && (#[trigger] s.payouts[k]).record == p
            }
        }),
{
    let row = s.submissions[i].record;
    let id = row.id;
    rows::lemma_only(s.submissions, store::submission_key(), store::submission_is(id), id, i);
    lemma_a_readable_campaign(s, c);
    let to_campaign = |p: PayoutRowView|
        if p.record.campaign_id == row.campaign_id && p.record.submission_id != Some(row.id) {
            p.record.amount_cents as int
        } else {
            0
        };
    let to_creator = |p: PayoutRowView|
        if p.record.campaign_id == row.campaign_id && p.record.creator_id == row.creator_id
            && p.record.submission_id != Some(row.id) {
            p.record.amount_cents as int
        } else {
            0
        };
    rows::lemma_total_same(
        s.payouts,
        to_campaign,
        store::campaign_money(row.campaign_id, Some(id)),
    );
    rows::lemma_total_same(
        s.payouts,
        to_creator,
        store::creator_money(row.campaign_id, row.creator_id, Some(id)),
    );
    lemma_the_latest(s, id);
    rows::lemma_position(s.payouts, store::payout_on(id));
}

/// A campaign that stands in the table is read as it stands there.
pub proof fn lemma_a_readable_campaign(s: StoreView, c: int)
    requires
        s.wf(),
        0 <= c < s.campaigns.len(),
    ensures
        s.read_campaign(s.campaigns[c].id) == Ok::<_, StoreError>(Some(s.campaigns[c])),
        s.campaign(s.campaigns[c].id) == Some(s.campaigns[c]),
{
    let id = s.campaigns[c].id;
    rows::lemma_only(s.campaigns, store::campaign_key(), store::campaign_is(id), id, c);
    if s.campaign_unread(id) {
        let k = choose|k: int|
            0 <= k < s.unread_campaigns.len() && store::id_is(id)(#[trigger] s.unread_campaigns[k]);
        assert(store::no_campaign(s.campaigns)(s.unread_campaigns[k]));
        assert(store::campaign_is(id)(s.campaigns[c]));
    }
}

/// The newest snapshot of a submission is one of its own, and no other of its own has a higher id.
pub proof fn lemma_the_latest(s: StoreView, id: Seq<char>)
    requires
        s.wf(),
    ensures
        s.latest(id) is None <==> forall|k: int|
            0 <= k < s.snapshots.len() ==> (#[trigger] s.snapshots[k]).submission_id != id,
        s.latest(id) matches Some(m) ==> s.snapshots.contains(m) && m.submission_id == id
            && forall|k: int|
            0 <= k < s.snapshots.len() && (#[trigger] s.snapshots[k]).submission_id == id
                ==> s.snapshots[k].id <= m.id,
{
    if exists|k: int| 0 <= k < s.snapshots.len() && (#[trigger] s.snapshots[k]).submission_id == id {
        let k = choose|k: int|
            0 <= k < s.snapshots.len() && (#[trigger] s.snapshots[k]).submission_id == id;
        lemma_some_is_newest(s.snapshots, id, k);
        let i = choose|i: int| store::newest_at(s.snapshots, id, i);
        assert(s.snapshots.contains(s.snapshots[i]));
    }
}

proof fn lemma_some_is_newest(s: Seq<SnapshotView>, id: Seq<char>, k: int)
    requires
        0 <= k < s.len(),
        s[k].submission_id == id,
    ensures
        exists|i: int| store::newest_at(s, id, i),
    decreases s.len(),
{
    let init = s.drop_last();
    let n = s.len() - 1;
    if exists|j: int| 0 <= j < init.len() && (#[trigger] init[j]).submission_id == id {
        let j = choose|j: int| 0 <= j < init.len() && (#[trigger] init[j]).submission_id == id;
        lemma_some_is_newest(init, id, j);
        let b = choose|b: int| store::newest_at(init, id, b);
        let w = if s[n].submission_id == id && s[n].id >= s[b].id {
            n
        } else {
            b
        };
        assert(store::newest_at(s, id, w)) by {
            assert forall|m: int|
                0 <= m < s.len() && (#[trigger] s[m]).submission_id == id implies s[m].id
                <= s[w].id by {
                if m < n {
                    assert(init[m] == s[m]);
                }
            }
        }
    } else {
        assert(store::newest_at(s, id, n)) by {
            assert forall|m: int|
                0 <= m < s.len() && (#[trigger] s[m]).submission_id == id implies s[m].id
                <= s[n].id by {
                if m < n {
                    assert(init[m] == s[m]);
                }
            }
            if k < n {
                assert(init[k] == s[k]);
            }
        }
    }
}

// ---- what the pass writes --------------------------------------------------------------------

/// A pass over a submission that cleared review, and whose row nobody signed off, leaves one row on
/// it: worth what the submission is worth, accrued, for the submission's creator and campaign where
/// the row is new, and explained. The answer is that row, and says whether the amount moved.
pub proof fn law_the_pass_writes_the_worth(
    e: EngineView,
    id: Seq<char>,
    now: Seq<char>,
    fresh_id: Seq<char>,
    a: AccrualView,
)
    requires
        e.store.wf(),
        e.store.accrual_inputs(id) == Ok::<_, StoreError>(Some(a)),
        a.submission.status == SubmissionStatus::Approved || a.submission.status
            == SubmissionStatus::Paid,
        a.existing_payout is Some ==> a.existing_payout->0.status == PayoutStatus::Accrued,
        a.existing_payout is None ==> e.store.payout(fresh_id) is None,
    ensures
        ({
            let (after, answer) = e.accrue(id, now, fresh_id);
            let was = match a.existing_payout {
                Some(p) => p.amount_cents as int,
                None => 0,
            };
            let row = after.store.payout_of(id)->0;
            &&& after.store.payout_of(id) is Some
            &&& row.amount_cents == a.amount()
            &&& row.status == PayoutStatus::Accrued
            &&& row.submission_id == Some(id)
            &&& row.reason == pricing::reason_text(
                match a.latest {
                    Some(m) => m.views as int,
                    None => 0,
                },
                a.campaign,
                a.amount(),
            )
            &&& row.approved_at is None && row.paid_at is None && row.updated_at == now
            &&& a.existing_payout matches Some(p) ==> row.id == p.id && row.campaign_id
                == p.campaign_id && row.creator_id == p.creator_id && row.accrued_at
                == p.accrued_at && row.created_at == p.created_at
            &&& a.existing_payout is None ==> row.id == fresh_id && row.campaign_id
                == a.submission.campaign_id && row.creator_id == a.submission.creator_id
                && row.accrued_at == now && row.created_at == now
            &&& answer matches Ok(Some(told)) && told.payout matches Some(p) && {
                &&& p.id == row.id
                &&& p.amount_cents == row.amount_cents
                &&& p.reason == row.reason
                &&& told.previous_cents == was
                &&& told.changed == (a.amount() != was)
            }
        }),
{
    assert(laws::reprices(e.store, id, fresh_id));
    laws::law_accrual_reprices_in_place(e, id, now, fresh_id);
    law_the_worth_of_a_submission(a, 0);
    lemma_inputs_are_of_the_submission(e.store, id);
}

proof fn lemma_inputs_are_of_the_submission(s: StoreView, id: Seq<char>)
    requires
        s.accrual_inputs(id) matches Ok(Some(_)),
    ensures
        (s.accrual_inputs(id)->Ok_0->0).submission.id == id,
        (s.accrual_inputs(id)->Ok_0->0).existing_payout == s.payout_of(id),
{
    rows::lemma_position(s.submissions, store::submission_is(id));
}

/// The events of a pass, one by one: the accrual where the amount moved, and then the budget where
/// the committed money came from below it to it or past it; no other event, and none where nothing
/// was written.
pub proof fn law_the_pass_reports_what_it_did(
    e: EngineView,
    id: Seq<char>,
    now: Seq<char>,
    fresh_id: Seq<char>,
    a: AccrualView,
)
    requires
        e.store.accrual_inputs(id) == Ok::<_, StoreError>(Some(a)),
    ensures
        ({
            let (after, answer) = e.accrue(id, now, fresh_id);
            let was = match a.existing_payout {
                Some(p) => p.amount_cents as int,
                None => 0,
            };
            let open = (a.submission.status == SubmissionStatus::Approved || a.submission.status
                == SubmissionStatus::Paid) && (a.existing_payout is Some
                ==> a.existing_payout->0.status == PayoutStatus::Accrued);
            let moved = open && a.amount() != was;
            let to_campaign = a.campaign_committed_excluding_this;
            let crossed = open && a.campaign.budget_cents > 0 && to_campaign + was
                < a.campaign.budget_cents && to_campaign + a.amount() >= a.campaign.budget_cents;
            let n = e.outbox.len() as int;
            &&& after.outbox.take(n) =~= e.outbox
            &&& after.outbox.len() == n + (if moved {
                1int
            } else {
                0
            }) + (if crossed {
                1int
            } else {
                0
            })
            &&& moved ==> {
                let told = answer->Ok_0->0;
                after.outbox[n] == (HookEventView::PayoutAccrued {
                    accrued: told.payout->0,
                    previous_cents: was as i64,
                }) && told.payout->0.amount_cents == a.amount()
            }
            &&& crossed ==> {
                let last = after.outbox.last();
                &&& last is BudgetReached
                &&& last->campaign_id == a.campaign.id
                &&& last->brand == a.campaign.brand
                &&& last->budget_cents == a.campaign.budget_cents
                &&& to_campaign + a.amount() <= i64::MAX ==> last->accrued_cents == to_campaign
                    + a.amount()
                &&& last->reached_at == now
            }
            &&& !open ==> after == e
        }),
{
    law_the_worth_of_a_submission(a, 0);
    let n = e.outbox.len() as int;
    assert(e.accrue(id, now, fresh_id).0.outbox.take(n) =~= e.outbox);
}

/// A pass touches no row but the payout of its submission: the campaigns, the roster, the
/// submissions, the snapshots and every other payout stay as they were.
pub proof fn law_the_pass_touches_one_row(
    e: EngineView,
    id: Seq<char>,
    now: Seq<char>,
    fresh_id: Seq<char>,
    k: int,
)
    requires
        e.store.wf(),
        e.store.payout_of(id) is None ==> e.store.payout(fresh_id) is None,
    ensures
        ({
            let after = e.accrue(id, now, fresh_id).0.store;
            &&& after.campaigns == e.store.campaigns
            &&& after.creators == e.store.creators
            &&& after.submissions == e.store.submissions
            &&& after.snapshots == e.store.snapshots
            &&& after.unread_campaigns == e.store.unread_campaigns
            &&& after.unread_creators == e.store.unread_creators
            &&& 0 <= k < e.store.payouts.len() && e.store.payouts[k].record.submission_id != Some(id)
                ==> after.payouts[k] == e.store.payouts[k]
            &&& e.store.payouts.len() <= after.payouts.len() <= e.store.payouts.len() + 1
        }),
{
    if e.store.accrual_inputs(id) matches Ok(Some(_)) {
        lemma_inputs_are_of_the_submission(e.store, id);
        rows::lemma_position(e.store.payouts, store::payout_on(id));
        match e.store.payout_of(id) {
            Some(p) => {
                let i = rows::position(e.store.payouts, store::payout_on(id))->0;
                rows::lemma_only(
                    e.store.payouts,
                    store::payout_key(),
                    store::payout_is(p.id),
                    p.id,
                    i,
                );
            },
            None => {},
        }
    }
}

} // verus!
