//! What holds of the app as a whole: what a read gives back of a write, what a deletion leaves,
//! that accrual never spends past a ceiling and never pays twice, and that money only moves
//! forward.
use crate::composio::{MetricErrorView, MetricOutcomeView, MetricSample};
use crate::engine;
use crate::engine::{
    CampaignRefreshView, EngineView, HookEventView, RefreshErrorView, RefreshOutcomeView,
};
use crate::lists;
use crate::records::{
    CampaignView, CreatorView, MetricSource, PayoutStatus, PayoutView, SnapshotView,
    SubmissionStatus, SubmissionView,
};
use crate::reports;
use crate::rows;
use crate::store;
use crate::store::{PayoutRowView, StoreError, StoreView, SubmissionRowView, WriteOutcome};
use crate::submission_api;
use crate::weburl::UrlView;
use vstd::prelude::*;

verus! {

// ---- what a read gives back of a write -------------------------------------------------------

/// A campaign that was written is read back as it was written, and every other is as it was.
pub proof fn law_a_written_campaign_reads_back(s: StoreView, c: CampaignView, other: Seq<char>)
    requires
        s.wf(),
        other != c.id,
    ensures
        s.upsert_campaign(c).read_campaign(c.id) == Ok::<_, StoreError>(Some(c)),
        s.upsert_campaign(c).read_campaign(other) == s.read_campaign(other),
{
    let t = s.upsert_campaign(c);
    rows::lemma_position(s.campaigns, store::campaign_is(c.id));
    let i = match rows::position(s.campaigns, store::campaign_is(c.id)) {
        Some(k) => k,
        None => s.campaigns.len() as int,
    };
    rows::lemma_only(
        t.campaigns,
        store::campaign_key(),
        store::campaign_is(c.id),
        c.id,
        i,
    );
    lemma_other_stays(s.campaigns, t.campaigns, store::campaign_is(other), i);
    lemma_none_left(s.unread_campaigns, store::id_is(c.id));
    lemma_some_left(s.unread_campaigns, store::not(store::id_is(c.id)), store::id_is(other));
}

/// A creator that was written is read back as they were written, and every other is as they were.
pub proof fn law_a_written_creator_reads_back(s: StoreView, c: CreatorView, other: Seq<char>)
    requires
        s.wf(),
        other != c.id,
    ensures
        s.upsert_creator(c).read_creator(c.id) == Ok::<_, StoreError>(Some(c)),
        s.upsert_creator(c).read_creator(other) == s.read_creator(other),
{
    let t = s.upsert_creator(c);
    rows::lemma_position(s.creators, store::creator_is(c.id));
    let i = match rows::position(s.creators, store::creator_is(c.id)) {
        Some(k) => k,
        None => s.creators.len() as int,
    };
    rows::lemma_only(t.creators, store::creator_key(), store::creator_is(c.id), c.id, i);
    lemma_other_stays(s.creators, t.creators, store::creator_is(other), i);
    lemma_none_left(s.unread_creators, store::unread_creator_is(c.id));
    lemma_some_left(
        s.unread_creators,
        store::not(store::unread_creator_is(c.id)),
        store::unread_creator_is(other),
    );
}

/// A submission that was recorded is read back as it was recorded, and every other is as it was.
pub proof fn law_a_recorded_submission_reads_back(
    s: StoreView,
    new: SubmissionView,
    other: Seq<char>,
)
    requires
        s.wf(),
        s.insert_outcome(new) == WriteOutcome::Written,
        other != new.id,
    ensures
        s.insert_submission(new).submission(new.id) == Some(new),
        s.insert_submission(new).submission(other) == s.submission(other),
{
    let t = s.insert_submission(new);
    let n = s.submissions.len() as int;
    rows::lemma_only(
        t.submissions,
        store::submission_key(),
        store::submission_is(new.id),
        new.id,
        n,
    );
    lemma_other_stays(s.submissions, t.submissions, store::submission_is(other), n);
}

/// A snapshot that was appended is the newest one of its submission, under an id that no snapshot
/// had before.
pub proof fn law_an_appended_snapshot_is_the_newest(s: StoreView, m: SnapshotView)
    requires
        s.wf(),
        s.last_snapshot_id < i64::MAX,
    ensures
        s.insert_snapshot(m).latest(m.submission_id) == Some(
            SnapshotView { id: (s.last_snapshot_id + 1) as i64, ..m },
        ),
        forall|i: int|
            0 <= i < s.snapshots.len() ==> (#[trigger] s.snapshots[i]).id < s.last_snapshot_id + 1,
{
    let t = s.insert_snapshot(m);
    let n = s.snapshots.len() as int;
    store::lemma_newest(t, m.submission_id, n);
}

/// Rows that differ in one place find the same row by a predicate that neither row there meets.
proof fn lemma_other_stays<T>(a: Seq<T>, b: Seq<T>, p: spec_fn(T) -> bool, i: int)
    requires
        0 <= i < b.len(),
        i <= a.len() <= b.len() <= a.len() + 1,
        b.len() == a.len() + 1 ==> i == a.len(),
        i < a.len() ==> !p(a[i]),
        !p(b[i]),
        forall|k: int| 0 <= k < a.len() && k != i ==> #[trigger] a[k] == b[k],
    ensures
        rows::found(b, p) == rows::found(a, p),
{
    rows::lemma_position(a, p);
    if rows::any(a, p) {
        let k = rows::position(a, p)->0;
        assert(rows::first_at(b, p, k)) by {
            assert forall|j: int| 0 <= j < k implies !p(#[trigger] b[j]) by {
                if j != i {
                    assert(a[j] == b[j]);
                }
            }
        }
    } else if rows::any(b, p) {
        let k = choose|k: int| 0 <= k < b.len() && p(#[trigger] b[k]);
        assert(a[k] == b[k]);
    }
}

// ---- what a deletion leaves ------------------------------------------------------------------

/// The deletion of a campaign leaves nothing of it: not the campaign, no submission in it, no
/// payout in it, and no snapshot of a submission in it.
pub proof fn law_a_deleted_campaign_leaves_nothing(s: StoreView, id: Seq<char>)
    requires
        s.wf(),
    ensures
        !s.delete_campaign(id).has_campaign(id),
        !rows::any(s.delete_campaign(id).submissions, store::in_campaign(id)),
        !rows::any(s.delete_campaign(id).payouts, store::payout_in(id)),
        forall|i: int, j: int|
            0 <= i < s.submissions.len() && 0 <= j < s.delete_campaign(id).snapshots.len()
                && (#[trigger] s.submissions[i]).record.campaign_id == id ==> (
            #[trigger] s.delete_campaign(id).snapshots[j]).submission_id
                != s.submissions[i].record.id,
{
    lemma_none_left(s.campaigns, store::campaign_is(id));
    lemma_none_left(s.unread_campaigns, store::id_is(id));
    lemma_none_left(s.submissions, store::in_campaign(id));
    lemma_none_left(s.payouts, store::payout_in(id));
    lemma_no_orphans(s, store::in_campaign(id));
}

/// The forced deletion of a creator leaves nothing of them: not the creator, no submission by
/// them, no payout to them, and no snapshot of a submission by them.
pub proof fn law_a_deleted_creator_leaves_nothing(s: StoreView, id: Seq<char>)
    requires
        s.wf(),
    ensures
        !s.delete_creator(id, true).has_creator(id),
        !rows::any(s.delete_creator(id, true).submissions, store::by_creator(id)),
        !rows::any(s.delete_creator(id, true).payouts, store::payout_to(id)),
        forall|i: int, j: int|
            0 <= i < s.submissions.len() && 0 <= j < s.delete_creator(id, true).snapshots.len()
                && (#[trigger] s.submissions[i]).record.creator_id == id ==> (
            #[trigger] s.delete_creator(id, true).snapshots[j]).submission_id
                != s.submissions[i].record.id,
{
    lemma_none_left(s.creators, store::creator_is(id));
    lemma_none_left(s.unread_creators, store::unread_creator_is(id));
    lemma_none_left(s.submissions, store::by_creator(id));
    lemma_none_left(s.payouts, store::payout_to(id));
    lemma_no_orphans(s, store::by_creator(id));
}

/// The deletion of a creator that is not forced takes the creator alone.
pub proof fn law_an_unforced_deletion_keeps_the_work(s: StoreView, id: Seq<char>)
    ensures
        !s.delete_creator(id, false).has_creator(id),
        s.delete_creator(id, false).submissions == s.submissions,
        s.delete_creator(id, false).payouts == s.payouts,
        s.delete_creator(id, false).snapshots == s.snapshots,
{
    lemma_none_left(s.creators, store::creator_is(id));
    lemma_none_left(s.unread_creators, store::unread_creator_is(id));
}

/// The deletion of a submission leaves nothing of it: not the submission, no snapshot, no payout.
pub proof fn law_a_deleted_submission_leaves_nothing(s: StoreView, id: Seq<char>)
    ensures
        s.delete_submission(id).submission(id) is None,
        s.delete_submission(id).payout_of(id) is None,
        s.delete_submission(id).latest(id) is None,
{
    lemma_none_left(s.submissions, store::submission_is(id));
    lemma_none_left(s.payouts, store::payout_on(id));
    lemma_none_left(s.snapshots, store::snapshot_of(id));
}

/// Of the rows that are kept none meets what the others were dropped for.
proof fn lemma_none_left<T>(s: Seq<T>, p: spec_fn(T) -> bool)
    ensures
        !rows::any(rows::kept(s, store::not(p)), p),
{
    rows::lemma_kept(s, store::not(p));
}

proof fn lemma_some_left<T>(s: Seq<T>, keep: spec_fn(T) -> bool, p: spec_fn(T) -> bool)
    requires
        forall|t: T| #[trigger] p(t) ==> keep(t),
    ensures
        rows::any(rows::kept(s, keep), p) == rows::any(s, p),
{
    let k = rows::kept(s, keep);
    rows::lemma_kept(s, keep);
    if rows::any(s, p) {
        let i = choose|i: int| 0 <= i < s.len() && p(#[trigger] s[i]);
        assert(k.contains(s[i]));
    }
    if rows::any(k, p) {
        let j = choose|j: int| 0 <= j < k.len() && p(#[trigger] k[j]);
        assert(s.contains(k[j]));
    }
}

proof fn lemma_no_orphans(s: StoreView, gone: spec_fn(SubmissionRowView) -> bool)
    ensures
        forall|i: int, j: int|
            0 <= i < s.submissions.len() && 0 <= j < rows::kept(
                s.snapshots,
                store::snapshot_outside(s.submissions, gone),
            ).len() && gone(#[trigger] s.submissions[i]) ==> (#[trigger] rows::kept(
                s.snapshots,
                store::snapshot_outside(s.submissions, gone),
            )[j]).submission_id != s.submissions[i].record.id,
{
    let outside = store::snapshot_outside(s.submissions, gone);
    rows::lemma_kept(s.snapshots, outside);
}

// ---- one post is paid once -------------------------------------------------------------------

/// A post that already stands in the campaign is never recorded a second time, and the refusal
/// changes nothing and raises nothing.
pub proof fn law_a_post_is_recorded_once(e: EngineView, i: int, new: SubmissionView)
    requires
        0 <= i < e.store.submissions.len(),
        e.store.submissions[i].record.campaign_id == new.campaign_id,
        e.store.submissions[i].record.platform == new.platform,
        e.store.submissions[i].record.external_post_id == new.external_post_id,
        new.external_post_id.len() > 0,
    ensures
        e.store.insert_outcome(new) == WriteOutcome::DuplicatePost,
        e.create_submission(new) == e,
{
}

/// Two submissions without a parseable post id never clash over it.
pub proof fn law_blank_post_ids_never_clash(s: StoreView, new: SubmissionView)
    requires
        new.external_post_id.len() == 0,
        s.submission(new.id) is None,
    ensures
        s.insert_outcome(new) == WriteOutcome::Written,
{
    rows::lemma_position(s.submissions, store::submission_is(new.id));
}

// ---- accrual ---------------------------------------------------------------------------------

/// The payout of the submission, where it has one, is counted to the submission's own campaign
/// and creator.
pub open spec fn follows(s: StoreView, id: Seq<char>) -> bool {
    s.submission(id) is Some && s.payout_of(id) is Some ==> {
        &&& s.payout_of(id)->0.campaign_id == s.submission(id)->0.campaign_id
        &&& s.payout_of(id)->0.creator_id == s.submission(id)->0.creator_id
    }
}

/// An accrual pass that writes: the submission cleared review, its amount is not signed off, and
/// a new row gets an id of its own.
pub open spec fn reprices(s: StoreView, id: Seq<char>, fresh_id: Seq<char>) -> bool {
    &&& s.wf()
    &&& s.payout_of(id) is None ==> s.payout(fresh_id) is None
    &&& s.accrual_inputs(id) matches Ok(Some(inputs)) && !engine::untouched(inputs)
}

/// The row without its money.
pub open spec fn worthless(p: PayoutRowView) -> PayoutRowView {
    PayoutRowView { record: PayoutView { amount_cents: 0, ..p.record }, ..p }
}

/// A sum over all payouts is the sum without those of the submission `id`, and its own row.
proof fn lemma_sum_parts(
    s: StoreView,
    id: Seq<char>,
    all: spec_fn(PayoutRowView) -> int,
    rest: spec_fn(PayoutRowView) -> int,
)
    requires
        s.wf(),
        forall|p: PayoutRowView|
            p.record.submission_id != Some(id) ==> #[trigger] all(p) == rest(p),
        forall|p: PayoutRowView| p.record.submission_id == Some(id) ==> #[trigger] rest(p) == 0,
        forall|p: PayoutRowView| all(#[trigger] worthless(p)) == 0,
    ensures
        rows::total(s.payouts, all) == rows::total(s.payouts, rest) + match rows::found(
            s.payouts,
            store::payout_on(id),
        ) {
            Some(p) => all(p),
            None => 0,
        },
{
    let v = s.payouts;
    rows::lemma_position(v, store::payout_on(id));
    match rows::position(v, store::payout_on(id)) {
        Some(i) => {
            let z = worthless(v[i]);
            let w = v.update(i, z);
            rows::lemma_total_update(v, all, i, z);
            rows::lemma_total_update(v, rest, i, z);
            rows::lemma_total_same(w, all, rest);
        },
        None => {
            rows::lemma_total_same(v, all, rest);
        },
    }
}

/// The money committed to a campaign is that of the other submissions and that of this one.
proof fn lemma_campaign_parts(s: StoreView, campaign_id: Seq<char>, id: Seq<char>)
    requires
        s.wf(),
    ensures
        s.campaign_committed(campaign_id, None) == s.campaign_committed(campaign_id, Some(id))
            + match s.payout_of(id) {
            Some(p) => if p.campaign_id == campaign_id {
                p.amount_cents as int
            } else {
                0
            },
            None => 0,
        },
{
    lemma_sum_parts(
        s,
        id,
        store::campaign_money(campaign_id, None),
        store::campaign_money(campaign_id, Some(id)),
    );
}

/// The money committed to a creator is that of the other submissions and that of this one.
proof fn lemma_creator_parts(
    s: StoreView,
    campaign_id: Seq<char>,
    creator_id: Seq<char>,
    id: Seq<char>,
)
    requires
        s.wf(),
    ensures
        s.creator_committed(campaign_id, creator_id, None) == s.creator_committed(
            campaign_id,
            creator_id,
            Some(id),
        ) + match s.payout_of(id) {
            Some(p) => if p.campaign_id == campaign_id && p.creator_id == creator_id {
                p.amount_cents as int
            } else {
                0
            },
            None => 0,
        },
{
    lemma_sum_parts(
        s,
        id,
        store::creator_money(campaign_id, creator_id, None),
        store::creator_money(campaign_id, creator_id, Some(id)),
    );
}

/// What the accrual pass leaves: one row for the submission, priced as the inputs say, and the
/// other rows as they were.
proof fn lemma_repriced(s: StoreView, id: Seq<char>, now: Seq<char>, fresh_id: Seq<char>)
    requires
        reprices(s, id, fresh_id),
    ensures
        ({
            let inputs = s.accrual_inputs(id)->Ok_0->0;
            let p = engine::priced(inputs, now, fresh_id);
            let t = s.upsert_payout(p);
            &&& t.wf()
            &&& t.payout_of(id) == Some(
                match s.payout_of(id) {
                    Some(old_row) => PayoutView {
                        campaign_id: old_row.campaign_id,
                        creator_id: old_row.creator_id,
                        ..p
                    },
                    None => p,
                },
            )
            &&& rows::tally(t.payouts, store::payout_on(id)) == 1
            &&& inputs.submission.id == id
            &&& t.campaign_committed(inputs.submission.campaign_id, Some(id))
                == s.campaign_committed(inputs.submission.campaign_id, Some(id))
            &&& t.creator_committed(
                inputs.submission.campaign_id,
                inputs.submission.creator_id,
                Some(id),
            ) == s.creator_committed(
                inputs.submission.campaign_id,
                inputs.submission.creator_id,
                Some(id),
            )
            &&& s.payout_of(id) is Some ==> t.payouts.len() == s.payouts.len()
            &&& s.payout_of(id) is None ==> t.payouts.len() == s.payouts.len() + 1
        }),
{
    let inputs = s.accrual_inputs(id)->Ok_0->0;
    let p = engine::priced(inputs, now, fresh_id);
    let t = s.upsert_payout(p);
    engine::lemma_accrual_never_clashes(s, id, now, fresh_id);
    store::law_upsert_payout_keeps_rules(s, p);
    let c = inputs.submission.campaign_id;
    let k = inputs.submission.creator_id;
    let to_campaign = store::campaign_money(c, Some(id));
    let to_creator = store::creator_money(c, k, Some(id));
    let i = match rows::position(s.payouts, store::payout_on(id)) {
        Some(i) => {
            rows::lemma_total_update(s.payouts, to_campaign, i, t.payouts[i]);
            rows::lemma_total_update(s.payouts, to_creator, i, t.payouts[i]);
            i
        },
        None => {
            let row = store::payout_row(p);
            rows::lemma_total_push(s.payouts, to_campaign, row);
            rows::lemma_total_push(s.payouts, to_creator, row);
            s.payouts.len() as int
        },
    };
    lemma_only_payout(t, id, i);
    lemma_one_is_counted(t.payouts, store::payout_on(id), i);
}

/// Where one row alone satisfies the predicate, one is counted.
proof fn lemma_one_is_counted<T>(s: Seq<T>, p: spec_fn(T) -> bool, i: int)
    requires
        0 <= i <= s.len(),
        forall|k: int| 0 <= k < s.len() ==> (p(#[trigger] s[k]) <==> k == i),
    ensures
        rows::tally(s, p) == if i < s.len() {
            1int
        } else {
            0int
        },
    decreases s.len(),
{
    if s.len() > 0 {
        let init = s.drop_last();
        if i < init.len() {
            lemma_one_is_counted(init, p, i);
        } else {
            lemma_one_is_counted(init, p, init.len() as int);
        }
    }
}

/// The payout row of a submission is the one that is found.
proof fn lemma_only_payout(s: StoreView, id: Seq<char>, i: int)
    requires
        s.wf(),
        0 <= i < s.payouts.len(),
        s.payouts[i].record.submission_id == Some(id),
    ensures
        s.payout_of(id) == Some(s.payouts[i].record),
{
    rows::lemma_position(s.payouts, store::payout_on(id));
}

/// An accrual pass never takes the money committed to a campaign past its budget: what was within
/// the budget without this submission is within it afterwards, this submission counted.
pub proof fn law_accrual_stays_in_budget(
    e: EngineView,
    id: Seq<char>,
    now: Seq<char>,
    fresh_id: Seq<char>,
)
    requires
        reprices(e.store, id, fresh_id),
    ensures
        ({
            let campaign = (e.store.accrual_inputs(id)->Ok_0->0).campaign;
            let campaign_id = e.store.submission(id)->0.campaign_id;
            let after = e.accrue(id, now, fresh_id).0.store;
            campaign.budget_cents > 0 && e.store.campaign_committed(campaign_id, Some(id))
                <= campaign.budget_cents ==> after.campaign_committed(campaign_id, None)
                <= campaign.budget_cents
        }),
{
    let inputs = e.store.accrual_inputs(id)->Ok_0->0;
    let p = engine::priced(inputs, now, fresh_id);
    lemma_repriced(e.store, id, now, fresh_id);
    lemma_campaign_parts(e.store.upsert_payout(p), inputs.submission.campaign_id, id);
}

/// An accrual pass never takes a creator past the campaign's ceiling per creator.
pub proof fn law_accrual_stays_under_the_creator_cap(
    e: EngineView,
    id: Seq<char>,
    now: Seq<char>,
    fresh_id: Seq<char>,
)
    requires
        reprices(e.store, id, fresh_id),
    ensures
        ({
            let cap = (e.store.accrual_inputs(id)->Ok_0->0).campaign.max_payout_per_creator_cents;
            let s = e.store.submission(id)->0;
            let after = e.accrue(id, now, fresh_id).0.store;
            cap > 0 && e.store.creator_committed(s.campaign_id, s.creator_id, Some(id)) <= cap
                ==> after.creator_committed(s.campaign_id, s.creator_id, None) <= cap
        }),
{
    let inputs = e.store.accrual_inputs(id)->Ok_0->0;
    let p = engine::priced(inputs, now, fresh_id);
    lemma_repriced(e.store, id, now, fresh_id);
    lemma_creator_parts(
        e.store.upsert_payout(p),
        inputs.submission.campaign_id,
        inputs.submission.creator_id,
        id,
    );
}

/// An accrual pass prices in place: a submission has one payout row afterwards, under the id and
/// with the stamps that it had before, and no pass adds a second one.
pub proof fn law_accrual_reprices_in_place(
    e: EngineView,
    id: Seq<char>,
    now: Seq<char>,
    fresh_id: Seq<char>,
)
    requires
        reprices(e.store, id, fresh_id),
    ensures
        ({
            let inputs = e.store.accrual_inputs(id)->Ok_0->0;
            let priced = engine::priced(inputs, now, fresh_id);
            let after = e.accrue(id, now, fresh_id).0.store;
            &&& rows::tally(after.payouts, store::payout_on(id)) == 1
            &&& e.store.payout_of(id) matches Some(before) ==> {
                &&& after.payout_of(id) == Some(
                    PayoutView {
                        amount_cents: priced.amount_cents,
                        status: PayoutStatus::Accrued,
                        reason: priced.reason,
                        approved_at: None,
                        paid_at: None,
                        updated_at: now,
                        ..before
                    },
                )
                &&& after.payouts.len() == e.store.payouts.len()
            }
            &&& e.store.payout_of(id) is None ==> {
                &&& after.payout_of(id) == Some(priced)
                &&& after.payouts.len() == e.store.payouts.len() + 1
            }
        }),
{
    lemma_repriced(e.store, id, now, fresh_id);
}

/// A second accrual pass over the same counters changes nothing of the payout but when it was last
/// looked at: the row keeps its id, amount and stamps, stays the only one of its submission, and no
/// event is raised.
pub proof fn law_accrual_is_idempotent(
    e: EngineView,
    id: Seq<char>,
    now: Seq<char>,
    fresh_id: Seq<char>,
    later: Seq<char>,
    other_id: Seq<char>,
)
    requires
        reprices(e.store, id, fresh_id),
    ensures
        ({
            let (once, first) = e.accrue(id, now, fresh_id);
            let (twice, second) = once.accrue(id, later, other_id);
            &&& twice.outbox == once.outbox
            &&& first matches Ok(Some(a))
            &&& second matches Ok(Some(b))
            &&& !b.changed
            &&& a.payout matches Some(p)
            &&& b.payout == Some(PayoutView { updated_at: later, ..p })
            &&& b.previous_cents == p.amount_cents
            &&& rows::tally(once.store.payouts, store::payout_on(id)) == 1
            &&& rows::tally(twice.store.payouts, store::payout_on(id)) == 1
            &&& twice.store.payout_of(id) == Some(
                PayoutView { updated_at: later, ..once.store.payout_of(id)->0 },
            )
        }),
{
    lemma_repriced(e.store, id, now, fresh_id);
    let (once, _) = e.accrue(id, now, fresh_id);
    lemma_repriced(once.store, id, later, other_id);
}

/// A payout that a human signed off, or that was paid, is never re-priced: the pass changes
/// nothing at all.
pub proof fn law_signed_off_money_is_never_repriced(
    e: EngineView,
    id: Seq<char>,
    now: Seq<char>,
    fresh_id: Seq<char>,
)
    requires
        e.store.payout_of(id) is Some,
        e.store.payout_of(id)->0.status != PayoutStatus::Accrued,
    ensures
        e.accrue(id, now, fresh_id).0 == e,
{
}

/// Work that has not cleared review accrues nothing: the pass changes nothing at all.
pub proof fn law_unreviewed_work_accrues_nothing(
    e: EngineView,
    id: Seq<char>,
    now: Seq<char>,
    fresh_id: Seq<char>,
)
    requires
        e.store.submission(id) is Some,
        !e.store.submission(id)->0.status.cleared(),
    ensures
        e.accrue(id, now, fresh_id).0 == e,
{
}

/// The budget is reported once: while the committed money stands at the budget or past it, no
/// accrual pass reports it again.
pub proof fn law_the_budget_is_reported_once(
    e: EngineView,
    id: Seq<char>,
    now: Seq<char>,
    fresh_id: Seq<char>,
)
    requires
        e.store.wf(),
        follows(e.store, id) || e.store.payout_of(id)->0.amount_cents >= 0,
        e.store.accrual_inputs(id) matches Ok(Some(inputs)) && e.store.campaign_committed(
            inputs.submission.campaign_id,
            None,
        ) >= inputs.campaign.budget_cents,
    ensures
        ({
            let after = e.accrue(id, now, fresh_id).0;
            &&& e.outbox.len() <= after.outbox.len() <= e.outbox.len() + 1
            &&& forall|i: int|
                e.outbox.len() <= i < after.outbox.len() ==> (#[trigger] after.outbox[i])
                    is PayoutAccrued
        }),
{
    let inputs = e.store.accrual_inputs(id)->Ok_0->0;
    lemma_campaign_parts(e.store, inputs.submission.campaign_id, id);
}

/// The budget is reported on the crossing: where the pass takes the committed money from below the
/// budget to it or past it, the last event it raises says so, with the money then committed.
pub proof fn law_the_crossing_is_reported(
    e: EngineView,
    id: Seq<char>,
    now: Seq<char>,
    fresh_id: Seq<char>,
)
    requires
        e.store.accrual_inputs(id) matches Ok(Some(inputs)) && !engine::untouched(inputs)
            && engine::reaches_budget(inputs),
    ensures
        ({
            let after = e.accrue(id, now, fresh_id).0;
            &&& after.outbox.len() > e.outbox.len()
            &&& after.outbox.last() matches HookEventView::BudgetReached {
                budget_cents,
                accrued_cents,
                ..
            }
            &&& accrued_cents >= budget_cents
        }),
{
}

/// An accrual is reported only where the amount moved.
pub proof fn law_an_accrual_event_means_a_change(
    e: EngineView,
    id: Seq<char>,
    now: Seq<char>,
    fresh_id: Seq<char>,
    i: int,
)
    requires
        e.outbox.len() <= i < e.accrue(id, now, fresh_id).0.outbox.len(),
        e.accrue(id, now, fresh_id).0.outbox[i] is PayoutAccrued,
    ensures
        e.accrue(id, now, fresh_id).0.outbox[i] matches HookEventView::PayoutAccrued {
            accrued,
            previous_cents,
        } && accrued.amount_cents != previous_cents,
{
}

// ---- refreshes and reviews -------------------------------------------------------------------

/// An account that is not linked yet is no reading: nothing is written and nothing is raised.
pub proof fn law_a_missing_connection_writes_nothing(
    e: EngineView,
    submission: SubmissionView,
    previous: Option<SnapshotView>,
    message: Seq<char>,
    connect_url: Option<Seq<char>>,
    captured_at: Seq<char>,
    accrued_at: Seq<char>,
    fresh_id: Seq<char>,
)
    ensures
        e.apply_outcome(
            submission,
            previous,
            MetricOutcomeView::NeedsConnection { message, connect_url },
            captured_at,
            accrued_at,
            fresh_id,
        ) == (
            e,
            Ok::<RefreshOutcomeView, RefreshErrorView>(
                RefreshOutcomeView::NeedsConnection { message, connect_url },
            ),
        ),
{
}

/// A fetch that failed changes nothing and raises nothing, so it never re-prices a payout.
pub proof fn law_a_failed_fetch_writes_nothing(
    e: EngineView,
    submission: SubmissionView,
    previous: Option<SnapshotView>,
    error: MetricErrorView,
    captured_at: Seq<char>,
    accrued_at: Seq<char>,
    fresh_id: Seq<char>,
)
    ensures
        ({
            let (next, r) = e.finish_refresh(
                submission,
                previous,
                Err(error),
                captured_at,
                accrued_at,
                fresh_id,
            );
            next == e && r is Err
        }),
{
}

/// Every reading is written and reported, also one where no counter moved.
pub proof fn law_every_reading_is_reported(
    e: EngineView,
    submission: SubmissionView,
    previous: Option<SnapshotView>,
    sample: MetricSample,
    captured_at: Seq<char>,
    accrued_at: Seq<char>,
    fresh_id: Seq<char>,
)
    requires
        e.store.last_snapshot_id < i64::MAX,
    ensures
        ({
            let after = e.apply_outcome(
                submission,
                previous,
                MetricOutcomeView::Sample(sample),
                captured_at,
                accrued_at,
                fresh_id,
            ).0;
            let reading = engine::snapshot_of(
                submission.id,
                sample,
                MetricSource::Composio,
                captured_at,
            );
            let snapshot = SnapshotView { id: (e.store.last_snapshot_id + 1) as i64, ..reading };
            &&& after.store.snapshots == e.store.snapshots.push(snapshot)
            &&& after.outbox.len() > e.outbox.len()
            &&& after.outbox[e.outbox.len() as int] == (HookEventView::MetricsRefreshed {
                submission,
                snapshot,
                previous,
            })
        }),
{
}

/// What a pick takes comes from a row that it takes, every such row is taken, and as many are taken
/// as there are.
proof fn lemma_picked<T, U>(s: Seq<T>, g: spec_fn(T) -> Option<U>)
    ensures
        rows::picked(s, g).len() == rows::tally(s, |t: T| g(t) is Some),
        forall|k: int|
            0 <= k < rows::picked(s, g).len() ==> exists|i: int|
                0 <= i < s.len() && g(#[trigger] s[i]) == Some(#[trigger] rows::picked(s, g)[k]),
        forall|i: int|
            0 <= i < s.len() && g(#[trigger] s[i]) is Some ==> rows::picked(s, g).contains(
                g(s[i])->0,
            ),
    decreases s.len(),
{
    if s.len() > 0 {
        let init = s.drop_last();
        lemma_picked(init, g);
        let (rest, all) = (rows::picked(init, g), rows::picked(s, g));
        assert forall|i: int| 0 <= i < s.len() && g(#[trigger] s[i]) is Some implies all.contains(
            g(s[i])->0,
        ) by {
            if i < init.len() {
                assert(g(init[i]) is Some);
                let k = choose|k: int| 0 <= k < rest.len() && rest[k] == g(s[i])->0;
                assert(all[k] == g(s[i])->0);
            } else {
                assert(all[all.len() - 1] == g(s[i])->0);
            }
        }
    }
}

/// What is picked from rows with distinct keys, and keeps its key, is picked once.
proof fn lemma_picked_once<T, U, K>(
    s: Seq<T>,
    g: spec_fn(T) -> Option<U>,
    key: spec_fn(T) -> K,
    of: spec_fn(U) -> K,
)
    requires
        rows::distinct(s, key),
        forall|t: T| #[trigger] g(t) is Some ==> of(g(t)->0) == key(t),
    ensures
        rows::distinct(rows::picked(s, g), of),
    decreases s.len(),
{
    if s.len() > 0 {
        let init = s.drop_last();
        lemma_picked_once(init, g, key, of);
        lemma_picked(init, g);
    }
}

/// An approved submission of the campaign.
pub open spec fn approved_row(campaign_id: Seq<char>) -> spec_fn(SubmissionRowView) -> bool {
    |r: SubmissionRowView| engine::approved_in(campaign_id).admits(r)
}

/// The refresh of a campaign answers every approved submission with one line, whatever became of
/// each: there are as many lines as approved submissions, every one of them has a line, and no two
/// lines are of the same submission.
pub proof fn law_every_approved_submission_has_its_line(
    s: StoreView,
    campaign_id: Seq<char>,
    run: CampaignRefreshView,
)
    requires
        s.wf(),
        rows::ranking(
            rows::picked(
                s.submissions,
                lists::submission_listed(engine::approved_in(campaign_id)),
            ),
            run.plan,
            lists::submission_order(),
        ),
        run.wf(),
        run.is_over(),
    ensures
        run.results.len() == rows::tally(s.submissions, approved_row(campaign_id)),
        forall|i: int|
            0 <= i < s.submissions.len() && approved_row(campaign_id)(#[trigger] s.submissions[i])
                ==> exists|k: int|
                0 <= k < run.results.len() && (#[trigger] run.results[k]).submission_id
                    == s.submissions[i].record.id,
        forall|j: int, k: int|
            0 <= j < k < run.results.len() ==> (#[trigger] run.results[j]).submission_id != (
            #[trigger] run.results[k]).submission_id,
{
    let g = lists::submission_listed(engine::approved_in(campaign_id));
    let all = rows::picked(s.submissions, g);
    let of = |x: SubmissionView| x.id;
    lemma_picked(s.submissions, g);
    lemma_picked_once(s.submissions, g, store::submission_key(), of);
    let taken = |t: SubmissionRowView| g(t) is Some;
    assert(taken =~= approved_row(campaign_id));
    vstd::seq_lib::to_multiset_len(all);
    vstd::seq_lib::to_multiset_len(run.plan);
    all.lemma_multiset_has_no_duplicates();
    run.plan.lemma_multiset_has_no_duplicates_conv();
    assert forall|i: int|
        0 <= i < s.submissions.len() && approved_row(campaign_id)(
            #[trigger] s.submissions[i],
        ) implies exists|k: int|
        0 <= k < run.results.len() && (#[trigger] run.results[k]).submission_id
            == s.submissions[i].record.id by {
        let x = s.submissions[i].record;
        vstd::seq_lib::to_multiset_contains(all, x);
        vstd::seq_lib::to_multiset_contains(run.plan, x);
        let k = choose|k: int| 0 <= k < run.plan.len() && run.plan[k] == x;
        assert(run.results[k].submission_id == x.id);
    }
    assert forall|j: int, k: int| 0 <= j < k < run.results.len() implies (
    #[trigger] run.results[j]).submission_id != (#[trigger] run.results[k]).submission_id by {
        let (x, y) = (run.plan[j], run.plan[k]);
        vstd::seq_lib::to_multiset_contains(all, x);
        vstd::seq_lib::to_multiset_contains(all, y);
        vstd::seq_lib::to_multiset_contains(run.plan, x);
        vstd::seq_lib::to_multiset_contains(run.plan, y);
    }
}

/// A decision that was taken is taken once: the same decision again changes nothing and raises
/// nothing.
pub proof fn law_a_review_is_taken_once(
    e: EngineView,
    id: Seq<char>,
    approve: bool,
    reason: Option<Seq<char>>,
    now: Seq<char>,
    accrued_at: Seq<char>,
    fresh_id: Seq<char>,
    again_reason: Option<Seq<char>>,
    again: Seq<char>,
    again_at: Seq<char>,
    other_id: Seq<char>,
)
    requires
        e.store.wf(),
        e.review(id, approve, reason, now, accrued_at, fresh_id).1 matches Ok(Some(_)),
    ensures
        ({
            let once = e.review(id, approve, reason, now, accrued_at, fresh_id).0;
            let (twice, second) = once.review(
                id,
                approve,
                again_reason,
                again,
                again_at,
                other_id,
            );
            &&& twice == once
            &&& second matches Ok(Some(o))
            &&& !o.changed
        }),
{
    let current = e.store.submission(id)->0;
    let already = if approve {
        current.status.cleared()
    } else {
        current.status == SubmissionStatus::Rejected
    };
    if !already {
        let status = if approve {
            SubmissionStatus::Approved
        } else {
            SubmissionStatus::Rejected
        };
        let kept = if approve {
            None
        } else {
            engine::kept_reason(reason)
        };
        lemma_status_is_set(e.store, id, status, Some(now), kept, now);
    }
}

/// A submission that was moved to a state is read back in that state.
pub proof fn lemma_status_is_set(
    s: StoreView,
    id: Seq<char>,
    status: SubmissionStatus,
    reviewed_at: Option<Seq<char>>,
    rejection_reason: Option<Seq<char>>,
    updated_at: Seq<char>,
)
    requires
        s.wf(),
        s.submission(id) is Some,
    ensures
        s.set_submission_status(id, status, reviewed_at, rejection_reason, updated_at).submission(
            id,
        ) == Some(
            SubmissionView {
                status,
                reviewed_at,
                rejection_reason,
                updated_at,
                ..s.submission(id)->0
            },
        ),
{
    let t = s.set_submission_status(id, status, reviewed_at, rejection_reason, updated_at);
    let i = rows::position(s.submissions, store::submission_is(id))->0;
    rows::lemma_only(t.submissions, store::submission_key(), store::submission_is(id), id, i);
}

/// A rejection leaves no payout on the submission but one that is already paid, and that one stays
/// as it is, however its state is written in the row.
pub proof fn law_a_rejection_drops_the_accrual(
    e: EngineView,
    id: Seq<char>,
    reason: Option<Seq<char>>,
    now: Seq<char>,
    accrued_at: Seq<char>,
    fresh_id: Seq<char>,
)
    requires
        e.store.wf(),
        e.review(id, false, reason, now, accrued_at, fresh_id).1 matches Ok(Some(o)) && o.changed,
    ensures
        ({
            let after = e.review(id, false, reason, now, accrued_at, fresh_id).0.store;
            &&& after.payout_of(id) is Some ==> after.payout_of(id)->0.status == PayoutStatus::Paid
            &&& e.store.payout_of(id) is Some && e.store.payout_of(id)->0.status
                == PayoutStatus::Paid ==> after.payout_of(id) == e.store.payout_of(id)
        }),
{
    let before = e.store.payouts;
    let after = e.review(id, false, reason, now, accrued_at, fresh_id).0.store;
    let stays = store::not(store::unpaid_on(id));
    rows::lemma_kept(before, stays);
    if e.store.payout_of(id) is Some && e.store.payout_of(id)->0.status == PayoutStatus::Paid {
        let i = rows::position(before, store::payout_on(id))->0;
        assert(after.payouts.contains(before[i]));
        let j = choose|j: int| 0 <= j < after.payouts.len() && after.payouts[j] == before[i];
        let (status, why) = (SubmissionStatus::Rejected, engine::kept_reason(reason));
        store::law_set_submission_status_keeps_rules(e.store, id, status, Some(now), why, now);
        let moved = e.store.set_submission_status(id, status, Some(now), why, now);
        store::law_delete_unpaid_payout_keeps_rules(moved, id);
        lemma_only_payout(after, id, j);
    }
}

// ---- money only moves forward ----------------------------------------------------------------

/// How far a payout has come: accrued, approved, paid.
pub open spec fn stage(status: PayoutStatus) -> int {
    match status {
        PayoutStatus::Accrued => 0,
        PayoutStatus::Approved => 1,
        PayoutStatus::Paid => 2,
    }
}

/// A request to approve a payout or to mark it paid never takes it back, never skips a stage and
/// never changes its amount.
pub proof fn law_money_moves_forward(e: EngineView, id: Seq<char>, now: Seq<char>)
    requires
        e.store.wf(),
        e.store.payout(id) is Some,
    ensures
        ({
            let before = e.store.payout(id)->0;
            let approved = e.approved_payout(id, now).0.store.payout(id);
            let paid = e.paid_payout(id, now).0.store.payout(id);
            &&& approved is Some && paid is Some
            &&& stage(before.status) <= stage((approved->0).status) <= stage(before.status) + 1
            &&& stage(before.status) <= stage((paid->0).status) <= stage(before.status) + 1
            &&& (approved->0).amount_cents == before.amount_cents
            &&& (paid->0).amount_cents == before.amount_cents
            &&& before.status == PayoutStatus::Accrued ==> (paid->0).status
                == PayoutStatus::Accrued
        }),
{
    lemma_payout_is_moved(e.store, id, PayoutStatus::Approved, now);
    lemma_payout_is_moved(e.store, id, PayoutStatus::Paid, now);
}

/// A payout that was moved to a state is read back in that state, with its stamp.
pub proof fn lemma_payout_is_moved(
    s: StoreView,
    id: Seq<char>,
    status: PayoutStatus,
    now: Seq<char>,
)
    requires
        s.wf(),
        s.payout(id) is Some,
    ensures
        s.set_payout_status(id, status, now).payout(id) == Some(
            store::stamped(s.payout(id)->0, status, now),
        ),
{
    let t = s.set_payout_status(id, status, now);
    let i = rows::position(s.payouts, store::payout_is(id))->0;
    rows::lemma_only(t.payouts, store::payout_key(), store::payout_is(id), id, i);
}

/// Marking a payout paid keeps the review stamp of its submission, marks the submission paid and
/// clears no other stamp of the payout.
pub proof fn law_settling_keeps_the_review(e: EngineView, id: Seq<char>, now: Seq<char>)
    requires
        e.store.wf(),
        e.store.payout(id) is Some,
        e.store.payout(id)->0.status == PayoutStatus::Approved,
        e.store.payout(id)->0.submission_id is Some,
        e.store.submission(e.store.payout(id)->0.submission_id->0) is Some,
    ensures
        ({
            let p = e.store.payout(id)->0;
            let before = e.store.submission(p.submission_id->0)->0;
            let after = e.paid_payout(id, now).0.store;
            &&& after.submission(p.submission_id->0) == Some(
                SubmissionView {
                    status: SubmissionStatus::Paid,
                    rejection_reason: None,
                    updated_at: now,
                    ..before
                },
            )
            &&& after.payout(id) == Some(
                PayoutView {
                    status: PayoutStatus::Paid,
                    paid_at: Some(now),
                    updated_at: now,
                    ..p
                },
            )
        }),
{
    let p = e.store.payout(id)->0;
    let sid = p.submission_id->0;
    lemma_payout_is_moved(e.store, id, PayoutStatus::Paid, now);
    store::law_set_payout_status_keeps_rules(e.store, id, PayoutStatus::Paid, now);
    let moved = e.store.set_payout_status(id, PayoutStatus::Paid, now);
    lemma_status_is_set(
        moved,
        sid,
        SubmissionStatus::Paid,
        e.store.submission(sid)->0.reviewed_at,
        None,
        now,
    );
}

// ---- the reports agree with the rows ---------------------------------------------------------

/// The money that a summary calls committed is the money that accrual counts against the budget.
pub proof fn law_the_summary_counts_what_accrual_counts(s: StoreView, id: Seq<char>)
    requires
        s.summary(id) matches Ok(Some(_)),
    ensures
        (s.summary(id)->Ok_0->0).committed_cents == s.campaign_committed(id, None),
{
    let all = store::campaign_money(id, None);
    let accrued = reports::money_of(Some(id), None, PayoutStatus::Accrued);
    let approved = reports::money_of(Some(id), None, PayoutStatus::Approved);
    let paid = reports::money_of(Some(id), None, PayoutStatus::Paid);
    let signed_off = |p: PayoutRowView| approved(p) + paid(p);
    rows::lemma_total_split(s.payouts, all, accrued, signed_off);
    rows::lemma_total_split(s.payouts, signed_off, approved, paid);
}

/// Every creator who submitted to a campaign has one line on its leaderboard, and nobody else has
/// one.
pub proof fn law_the_leaderboard_names_each_creator_once(s: StoreView, campaign: Seq<char>)
    ensures
        forall|i: int, j: int|
            0 <= i < j < s.board(campaign).len() ==> (#[trigger] s.board(campaign)[i]).creator_id
                != (#[trigger] s.board(campaign)[j]).creator_id,
        forall|i: int|
            0 <= i < s.submissions.len() && (#[trigger] s.submissions[i]).record.campaign_id
                == campaign ==> exists|k: int|
                0 <= k < s.board(campaign).len() && (#[trigger] s.board(campaign)[k]).creator_id
                    == s.submissions[i].record.creator_id,
{
    let names = s.creators_in(campaign);
    reports::lemma_names_in(s.submissions, campaign);
    assert forall|i: int|
        0 <= i < s.submissions.len() && (#[trigger] s.submissions[i]).record.campaign_id
            == campaign implies exists|k: int|
        0 <= k < s.board(campaign).len() && (#[trigger] s.board(campaign)[k]).creator_id
            == s.submissions[i].record.creator_id by {
        let name = s.submissions[i].record.creator_id;
        assert(names.contains(name));
        let k = choose|k: int| 0 <= k < names.len() && names[k] == name;
        assert(s.board(campaign)[k].creator_id == name);
    }
}

// ---- what a request cannot do -----------------------------------------------------------------

/// A correction changes where the post is and nothing else: the review, the owner and the money
/// stay, and a correction that is refused changes nothing at all.
pub proof fn law_a_correction_keeps_the_review(
    e: EngineView,
    id: Seq<char>,
    platform: Option<Seq<char>>,
    screened: Option<Result<UrlView, Seq<char>>>,
    stored: Option<UrlView>,
    now: Seq<char>,
)
    requires
        e.store.wf(),
        e.store.submission(id) is Some,
    ensures
        ({
            let before = e.store.submission(id)->0;
            let (next, reply) = e.corrected_submission(id, platform, screened, stored, now);
            let after = next.store.submission(id);
            &&& after is Some
            &&& after->0 == (SubmissionView {
                platform: (after->0).platform,
                post_url: (after->0).post_url,
                external_post_id: (after->0).external_post_id,
                updated_at: (after->0).updated_at,
                ..before
            })
            &&& next.store.payouts == e.store.payouts
            &&& next.store.snapshots == e.store.snapshots
            &&& next.outbox == e.outbox
            &&& reply.status != 200 ==> next == e
        }),
{
    let before = e.store.submission(id)->0;
    let i = rows::position(e.store.submissions, store::submission_is(id))->0;
    match submission_api::edited(before, platform, screened, stored, now) {
        Ok(edit) => {
            let t = e.store.update_submission(edit);
            rows::lemma_only(
                t.submissions,
                store::submission_key(),
                store::submission_is(id),
                id,
                i,
            );
        },
        Err(_) => {},
    }
}

/// A submission whose payout is paid is not deleted: the request is answered 409 and changes
/// nothing.
pub proof fn law_paid_work_is_not_deleted(e: EngineView, id: Seq<char>)
    requires
        e.store.payout_of(id) is Some,
        e.store.payout_of(id)->0.status == PayoutStatus::Paid,
    ensures
        e.deleted_submission(id).0 == e,
        e.deleted_submission(id).1.status == 409,
{
}

proof fn lemma_theirs_are_counted(s: Seq<SubmissionRowView>, creator: Seq<char>, i: int)
    requires
        0 <= i <= s.len(),
        i < s.len() ==> s[i].record.creator_id == creator,
    ensures
        rows::total(s, reports::theirs(creator)) >= if i < s.len() {
            1int
        } else {
            0int
        },
    decreases s.len(),
{
    if s.len() > 0 {
        let init = s.drop_last();
        if i < init.len() {
            lemma_theirs_are_counted(init, creator, i);
        } else {
            lemma_theirs_are_counted(init, creator, init.len() as int);
        }
    }
}

/// A creator with a submission is deleted by force only: any other request is refused and
/// changes nothing.
pub proof fn law_a_creator_with_work_needs_force(e: EngineView, id: Seq<char>, i: int)
    requires
        0 <= i < e.store.submissions.len(),
        e.store.submissions[i].record.creator_id == id,
    ensures
        e.deleted_creator(id, false).0 == e,
        e.deleted_creator(id, false).1.status != 200,
        rows::fits(rows::total(e.store.submissions, reports::theirs(id))) ==> e.deleted_creator(
            id,
            false,
        ).1.status == 409,
{
    lemma_theirs_are_counted(e.store.submissions, id, i);
}

} // verus!
