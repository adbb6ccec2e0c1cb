//! What the reports say of the rows: each figure is the sum or the count of the rows that it is
//! about, and of no others.
use crate::price_laws;
use crate::records::{PayoutStatus, SnapshotView, SubmissionStatus, SubmissionView};
use crate::reports;
use crate::reports::{BoardView, CampaignSummary, Counter};
use crate::rows;
use crate::store;
use crate::store::{PayoutRowView, StoreError, StoreView, SubmissionRowView};
use crate::text;
use vstd::prelude::*;

verus! {

// ---- figures ---------------------------------------------------------------------------------

/// The money of the payout rows that satisfy `of`.
pub open spec fn money_where(s: StoreView, of: spec_fn(PayoutRowView) -> bool) -> int {
    rows::total(
        s.payouts,
        |p: PayoutRowView|
            if of(p) {
                p.record.amount_cents as int
            } else {
                0
            },
    )
}

/// How many submissions satisfy `of`.
pub open spec fn count_where(s: StoreView, of: spec_fn(SubmissionRowView) -> bool) -> int {
    rows::total(
        s.submissions,
        |r: SubmissionRowView|
            if of(r) {
                1
            } else {
                0
            },
    )
}

/// The views, likes or comments that the newest snapshots of the submissions that satisfy `of` sum
/// to.
pub open spec fn seen_where(
    s: StoreView,
    of: spec_fn(SubmissionRowView) -> bool,
    which: Counter,
) -> int {
    rows::total(s.submissions, |r: SubmissionRowView| if of(r) { newest_count(s, r, which) } else { 0 })
}

/// One counter of a submission's newest snapshot; 0 before the first.
pub open spec fn newest_count(s: StoreView, r: SubmissionRowView, which: Counter) -> int {
    match s.latest(r.record.id) {
        None => 0,
        Some(m) => match which {
            Counter::Views => m.views as int,
            Counter::Likes => m.likes as int,
            Counter::Comments => m.comments as int,
        },
    }
}

/// The newest snapshot of a submission is its own, and no other of its own has a higher id; there
/// is none exactly where it has no snapshot.
pub proof fn law_the_newest_snapshot(s: StoreView, id: Seq<char>)
    requires
        s.wf(),
    ensures
        s.latest(id) is None <==> forall|k: int|
            0 <= k < s.snapshots.len() ==> (#[trigger] s.snapshots[k]).submission_id != id,
        s.latest(id) matches Some(m) ==> s.snapshots.contains(m) && m.submission_id == id
            && forall|k: int|
            0 <= k < s.snapshots.len() && (#[trigger] s.snapshots[k]).submission_id == id
                ==> s.snapshots[k].id <= m.id,
{
    price_laws::lemma_the_latest(s, id);
}

/// A sum over rows adds up row by row.
pub proof fn law_sums_add_up<T>(s: Seq<T>, w: spec_fn(T) -> int, t: T)
    ensures
        rows::total(Seq::<T>::empty(), w) == 0,
        rows::total(s.push(t), w) == rows::total(s, w) + w(t),
{
    rows::lemma_total_push(s, w, t);
}

proof fn lemma_money(
    s: StoreView,
    campaign: Option<Seq<char>>,
    creator: Option<Seq<char>>,
    status: PayoutStatus,
    of: spec_fn(PayoutRowView) -> bool,
)
    requires
        forall|p: PayoutRowView| #[trigger]
            of(p) <==> (campaign is Some ==> p.record.campaign_id == campaign->0) && (creator
                is Some ==> p.record.creator_id == creator->0) && p.record.status == status,
    ensures
        s.money(campaign, creator, status) == money_where(s, of),
{
    let w = |p: PayoutRowView|
        if of(p) {
            p.record.amount_cents as int
        } else {
            0
        };
    rows::lemma_total_same(s.payouts, reports::money_of(campaign, creator, status), w);
}

proof fn lemma_count(
    s: StoreView,
    campaign: Option<Seq<char>>,
    creator: Option<Seq<char>>,
    status: SubmissionStatus,
    of: spec_fn(SubmissionRowView) -> bool,
)
    requires
        forall|r: SubmissionRowView| #[trigger]
            of(r) <==> (campaign is Some ==> r.record.campaign_id == campaign->0) && (creator
                is Some ==> r.record.creator_id == creator->0) && r.record.status == status,
    ensures
        s.count(campaign, creator, status) == count_where(s, of),
        0 <= count_where(s, of) <= s.submissions.len(),
{
    let pick = reports::in_state(campaign, creator, status);
    let v = |r: SubmissionRowView|
        if pick(r) {
            1
        } else {
            0
        };
    let w = |r: SubmissionRowView|
        if of(r) {
            1
        } else {
            0
        };
    rows::lemma_total_same(s.submissions, v, w);
    lemma_ones(s.submissions, w);
}

proof fn lemma_ones<T>(s: Seq<T>, w: spec_fn(T) -> int)
    requires
        forall|t: T| 0 <= #[trigger] w(t) <= 1,
    ensures
        0 <= rows::total(s, w) <= s.len(),
    decreases s.len(),
{
    if s.len() > 0 {
        lemma_ones(s.drop_last(), w);
    }
}

proof fn lemma_counter(
    s: StoreView,
    campaign: Option<Seq<char>>,
    creator: Option<Seq<char>>,
    which: Counter,
    of: spec_fn(SubmissionRowView) -> bool,
)
    requires
        forall|r: SubmissionRowView| #[trigger]
            of(r) <==> (campaign is Some ==> r.record.campaign_id == campaign->0) && (creator
                is Some ==> r.record.creator_id == creator->0),
    ensures
        s.counter(campaign, creator, which) == seen_where(s, of, which),
{
    let w = |r: SubmissionRowView| if of(r) { newest_count(s, r, which) } else { 0 };
    rows::lemma_total_same(s.submissions, reports::counter_of(s, campaign, creator, which), w);
}

// ---- the summary -----------------------------------------------------------------------------

/// The payout row is the campaign's and in the given state.
pub open spec fn campaign_payout(
    id: Seq<char>,
    status: PayoutStatus,
) -> spec_fn(PayoutRowView) -> bool {
    |p: PayoutRowView| p.record.campaign_id == id && p.record.status == status
}

/// The submission is the campaign's and in the given state.
pub open spec fn campaign_post(
    id: Seq<char>,
    status: SubmissionStatus,
) -> spec_fn(SubmissionRowView) -> bool {
    |r: SubmissionRowView| r.record.campaign_id == id && r.record.status == status
}

/// The submission is the campaign's.
pub open spec fn any_post(id: Seq<char>) -> spec_fn(SubmissionRowView) -> bool {
    |r: SubmissionRowView| r.record.campaign_id == id
}

/// What is left of a budget: the budget without what is committed, or 0 where more is committed
/// than it holds; a campaign without a budget has no such figure. So what is left and what is
/// committed make up the budget while the committed money lies within it.
pub proof fn law_what_is_left_of_the_budget(s: StoreView, id: Seq<char>, t: CampaignSummary)
    requires
        s.summary(id) == Ok::<_, StoreError>(Some(t)),
    ensures
        t.budget_cents <= 0 ==> t.remaining_cents is None,
        t.budget_cents > 0 ==> t.remaining_cents is Some,
        t.budget_cents > 0 && t.committed_cents <= t.budget_cents ==> t.remaining_cents->0
            + t.committed_cents == t.budget_cents,
        t.budget_cents > 0 && t.committed_cents > t.budget_cents ==> t.remaining_cents->0 == 0,
        t.committed_cents == t.accrued_cents + t.approved_cents + t.paid_cents,
{
}

/// Every figure of a summary is the sum or the count of the campaign's own rows.
pub proof fn law_the_summary_adds_up(s: StoreView, c: int, t: CampaignSummary)
    requires
        s.wf(),
        0 <= c < s.campaigns.len(),
        s.summary(s.campaigns[c].id) == Ok::<_, StoreError>(Some(t)),
    ensures
        ({
            let id = s.campaigns[c].id;
            &&& t.budget_cents == s.campaigns[c].budget_cents
            &&& t.accrued_cents == money_where(s, campaign_payout(id, PayoutStatus::Accrued))
            &&& t.approved_cents == money_where(s, campaign_payout(id, PayoutStatus::Approved))
            &&& t.paid_cents == money_where(s, campaign_payout(id, PayoutStatus::Paid))
            &&& t.total_views == seen_where(s, any_post(id), Counter::Views)
            &&& t.total_likes == seen_where(s, any_post(id), Counter::Likes)
            &&& t.total_comments == seen_where(s, any_post(id), Counter::Comments)
            &&& t.submissions.pending == count_where(
                s,
                campaign_post(id, SubmissionStatus::Pending),
            )
            &&& t.submissions.approved == count_where(
                s,
                campaign_post(id, SubmissionStatus::Approved),
            )
            &&& t.submissions.rejected == count_where(
                s,
                campaign_post(id, SubmissionStatus::Rejected),
            )
            &&& t.submissions.paid == count_where(s, campaign_post(id, SubmissionStatus::Paid))
            &&& exists|names: Seq<Seq<char>>|
                #![trigger names.no_duplicates()]
                names.no_duplicates() && t.creators == names.len() && forall|name: Seq<char>|
                    #[trigger]
                    names.contains(name) <==> exists|i: int|
                        0 <= i < s.submissions.len() && (
                        #[trigger] s.submissions[i]).record.campaign_id == id
                            && s.submissions[i].record.creator_id == name
        }),
{
    let id = s.campaigns[c].id;
    price_laws::lemma_a_readable_campaign(s, c);
    lemma_summary_figures(s, id);
    reports::lemma_names_in(s.submissions, id);
    assert(s.creators_in(id).no_duplicates());
}

proof fn lemma_summary_figures(s: StoreView, id: Seq<char>)
    ensures
        forall|st: PayoutStatus| #[trigger]
            s.money(Some(id), None, st) == money_where(s, campaign_payout(id, st)),
        forall|st: SubmissionStatus| #[trigger]
            s.count(Some(id), None, st) == count_where(s, campaign_post(id, st)) && 0 <= s.count(
                Some(id),
                None,
                st,
            ) <= s.submissions.len(),
        forall|w: Counter| #[trigger]
            s.counter(Some(id), None, w) == seen_where(s, any_post(id), w),
{
    assert forall|st: PayoutStatus| #[trigger]
        s.money(Some(id), None, st) == money_where(s, campaign_payout(id, st)) by {
        lemma_money(s, Some(id), None, st, campaign_payout(id, st));
    }
    assert forall|st: SubmissionStatus| #[trigger]
        s.count(Some(id), None, st) == count_where(s, campaign_post(id, st)) && 0 <= s.count(
            Some(id),
            None,
            st,
        ) <= s.submissions.len() by {
        lemma_count(s, Some(id), None, st, campaign_post(id, st));
    }
    assert forall|w: Counter| #[trigger]
        s.counter(Some(id), None, w) == seen_where(s, any_post(id), w) by {
        lemma_counter(s, Some(id), None, w, any_post(id));
    }
}

/// A campaign that can be read has a summary wherever its figures fit in 64 bits, and a campaign
/// that is not there has none.
pub proof fn law_a_campaign_has_a_summary(s: StoreView, c: int, other: Seq<char>)
    requires
        s.wf(),
        0 <= c < s.campaigns.len(),
    ensures
        ({
            let id = s.campaigns[c].id;
            let accrued = money_where(s, campaign_payout(id, PayoutStatus::Accrued));
            let approved = money_where(s, campaign_payout(id, PayoutStatus::Approved));
            let paid = money_where(s, campaign_payout(id, PayoutStatus::Paid));
            let committed = accrued + approved + paid;
            s.submissions.len() <= i64::MAX && rows::fits(accrued) && rows::fits(approved)
                && rows::fits(paid) && rows::fits(committed) && rows::fits(
                s.campaigns[c].budget_cents - committed,
            ) && (forall|w: Counter| rows::fits(#[trigger] seen_where(s, any_post(id), w)))
                ==> s.summary(id) matches Ok(Some(_))
        }),
        !s.has_campaign(other) ==> s.summary(other) == Ok::<Option<CampaignSummary>, StoreError>(
            None,
        ),
{
    let id = s.campaigns[c].id;
    price_laws::lemma_a_readable_campaign(s, c);
    lemma_summary_figures(s, id);
}

// ---- the leaderboard -------------------------------------------------------------------------

/// The submission is the creator's in the campaign.
pub open spec fn posted(
    campaign: Seq<char>,
    creator: Seq<char>,
) -> spec_fn(SubmissionRowView) -> bool {
    |r: SubmissionRowView| r.record.campaign_id == campaign && r.record.creator_id == creator
}

/// The submission is the creator's in the campaign and its stored state is `approved` or `paid`.
pub open spec fn cleared_post(
    campaign: Seq<char>,
    creator: Seq<char>,
) -> spec_fn(SubmissionRowView) -> bool {
    |r: SubmissionRowView|
        r.record.campaign_id == campaign && r.record.creator_id == creator && (r.status_text
            == "approved"@ || r.status_text == "paid"@)
}

/// The payout row is the creator's in the campaign and in the given state.
pub open spec fn earned(
    campaign: Seq<char>,
    creator: Seq<char>,
    status: PayoutStatus,
) -> spec_fn(PayoutRowView) -> bool {
    |p: PayoutRowView|
        p.record.campaign_id == campaign && p.record.creator_id == creator && p.record.status
            == status
}

/// A line of the leaderboard holds the figures of one creator's rows in that campaign: the views of
/// their posts by the newest snapshots, how many cleared review, and the accrued and the paid
/// money.
pub proof fn law_a_line_counts_the_creators_own_rows(s: StoreView, campaign: Seq<char>, k: int)
    requires
        0 <= k < s.board(campaign).len(),
    ensures
        ({
            let line = s.board(campaign)[k];
            &&& line.views == seen_where(s, posted(campaign, line.creator_id), Counter::Views)
            &&& line.approved_submissions == count_where(
                s,
                cleared_post(campaign, line.creator_id),
            )
            &&& line.accrued_cents == money_where(
                s,
                earned(campaign, line.creator_id, PayoutStatus::Accrued),
            )
            &&& line.paid_cents == money_where(
                s,
                earned(campaign, line.creator_id, PayoutStatus::Paid),
            )
            &&& line.display_name == s.creator_name(line.creator_id)
        }),
{
    let who = s.board(campaign)[k].creator_id;
    lemma_board_figures(s, campaign, who);
}

proof fn lemma_board_figures(s: StoreView, campaign: Seq<char>, who: Seq<char>)
    ensures
        ({
            let line = s.board_row(campaign, who);
            &&& line.creator_id == who
            &&& line.views == seen_where(s, posted(campaign, who), Counter::Views)
            &&& line.approved_submissions == count_where(s, cleared_post(campaign, who))
            &&& line.accrued_cents == money_where(s, earned(campaign, who, PayoutStatus::Accrued))
            &&& line.paid_cents == money_where(s, earned(campaign, who, PayoutStatus::Paid))
            &&& line.display_name == s.creator_name(who)
        }),
{
    lemma_counter(s, Some(campaign), Some(who), Counter::Views, posted(campaign, who));
    lemma_money(
        s,
        Some(campaign),
        Some(who),
        PayoutStatus::Accrued,
        earned(campaign, who, PayoutStatus::Accrued),
    );
    lemma_money(
        s,
        Some(campaign),
        Some(who),
        PayoutStatus::Paid,
        earned(campaign, who, PayoutStatus::Paid),
    );
    let pick = reports::cleared_in(Some(campaign), Some(who));
    let of = cleared_post(campaign, who);
    let v = |r: SubmissionRowView|
        if pick(r) {
            1
        } else {
            0
        };
    let w = |r: SubmissionRowView|
        if of(r) {
            1
        } else {
            0
        };
    rows::lemma_total_same(s.submissions, v, w);
}

/// The name on a line is the one on the roster, also of a creator whose record cannot be read, and
/// empty for a creator who is not on it.
pub proof fn law_a_line_shows_the_roster_name(s: StoreView, k: int, other: Seq<char>)
    requires
        s.wf(),
    ensures
        0 <= k < s.creators.len() ==> s.creator_name(s.creators[k].id)
            == s.creators[k].display_name,
        0 <= k < s.unread_creators.len() ==> s.creator_name(s.unread_creators[k].id)
            == s.unread_creators[k].display_name,
        !s.has_creator(other) ==> s.creator_name(other).len() == 0,
{
    if 0 <= k < s.creators.len() {
        let id = s.creators[k].id;
        rows::lemma_only(s.creators, store::creator_key(), store::creator_is(id), id, k);
    }
    if 0 <= k < s.unread_creators.len() {
        let id = s.unread_creators[k].id;
        rows::lemma_only(
            s.unread_creators,
            store::unread_creator_key(),
            store::unread_creator_is(id),
            id,
            k,
        );
        rows::lemma_position(s.creators, store::creator_is(id));
        assert(store::no_creator(s.creators)(s.unread_creators[k]));
    }
    rows::lemma_position(s.unread_creators, store::unread_creator_is(other));
}

/// A line can be shown where each of its figures fits in 64 bits.
pub proof fn law_which_lines_can_be_shown(b: BoardView)
    ensures
        reports::board_fits()(b) <==> i64::MIN <= b.views <= i64::MAX && i64::MIN
            <= b.approved_submissions <= i64::MAX && i64::MIN <= b.accrued_cents <= i64::MAX
            && i64::MIN <= b.paid_cents <= i64::MAX,
{
}

/// The views of all lines sum to the views of the campaign's summary: every post is counted for one
/// creator, and no post of another campaign is.
pub proof fn law_the_board_adds_up_to_the_summary(s: StoreView, id: Seq<char>, t: CampaignSummary)
    requires
        s.summary(id) == Ok::<_, StoreError>(Some(t)),
    ensures
        rows::total(s.board(id), |line: BoardView| line.views) == t.total_views,
{
    let names = s.creators_in(id);
    reports::lemma_names_in(s.submissions, id);
    lemma_summary_figures(s, id);
    let of_names = |name: Seq<char>| seen_where(s, posted(id, name), Counter::Views);
    let views = |line: BoardView| line.views;
    lemma_board_views(s, id, names, views, of_names);
    assert(s.board(id) =~= Seq::new(names.len(), |i: int| s.board_row(id, names[i])));
    lemma_by_name(s, id, names);
    let shared = |r: SubmissionRowView|
        if r.record.campaign_id == id && names.contains(r.record.creator_id) {
            newest_count(s, r, Counter::Views)
        } else {
            0
        };
    let of = any_post(id);
    let all = |r: SubmissionRowView| if of(r) { newest_count(s, r, Counter::Views) } else { 0 };
    assert forall|i: int| 0 <= i < s.submissions.len() implies shared(#[trigger] s.submissions[i])
        == all(s.submissions[i]) by {
        let r = s.submissions[i];
        if r.record.campaign_id == id {
            assert(names.contains(r.record.creator_id));
        }
    }
    rows::lemma_total_same(s.submissions, shared, all);
}

proof fn lemma_board_views(
    s: StoreView,
    id: Seq<char>,
    names: Seq<Seq<char>>,
    views: spec_fn(BoardView) -> int,
    of_names: spec_fn(Seq<char>) -> int,
)
    requires
        forall|line: BoardView| #[trigger] views(line) == line.views,
        forall|name: Seq<char>| #[trigger]
            of_names(name) == seen_where(s, posted(id, name), Counter::Views),
    ensures
        rows::total(Seq::new(names.len(), |i: int| s.board_row(id, names[i])), views)
            == rows::total(names, of_names),
    decreases names.len(),
{
    let board = Seq::new(names.len(), |i: int| s.board_row(id, names[i]));
    if names.len() > 0 {
        let init = names.drop_last();
        lemma_board_views(s, id, init, views, of_names);
        assert(board.drop_last() =~= Seq::new(init.len(), |i: int| s.board_row(id, init[i])));
        lemma_board_figures(s, id, names.last());
    }
}

proof fn lemma_by_name(s: StoreView, id: Seq<char>, names: Seq<Seq<char>>)
    requires
        names.no_duplicates(),
    ensures
        rows::total(names, |name: Seq<char>| seen_where(s, posted(id, name), Counter::Views))
            == rows::total(
            s.submissions,
            |r: SubmissionRowView|
                if r.record.campaign_id == id && names.contains(r.record.creator_id) {
                    newest_count(s, r, Counter::Views)
                } else {
                    0
                },
        ),
    decreases names.len(),
{
    let each = |name: Seq<char>| seen_where(s, posted(id, name), Counter::Views);
    let shared = |r: SubmissionRowView|
        if r.record.campaign_id == id && names.contains(r.record.creator_id) {
            newest_count(s, r, Counter::Views)
        } else {
            0
        };
    if names.len() == 0 {
        let zero = |r: SubmissionRowView| 0int;
        rows::lemma_total_same(s.submissions, shared, zero);
        lemma_zero(s.submissions, zero);
    } else {
        let init = names.drop_last();
        let last = names.last();
        assert(init.no_duplicates());
        lemma_by_name(s, id, init);
        let before = |r: SubmissionRowView|
            if r.record.campaign_id == id && init.contains(r.record.creator_id) {
                newest_count(s, r, Counter::Views)
            } else {
                0
            };
        let of = posted(id, last);
        let theirs = |r: SubmissionRowView| if of(r) { newest_count(s, r, Counter::Views) } else { 0 };
        assert forall|i: int| 0 <= i < s.submissions.len() implies shared(
            #[trigger] s.submissions[i],
        ) == before(s.submissions[i]) + theirs(s.submissions[i]) by {
            let who = s.submissions[i].record.creator_id;
            if init.contains(who) {
                let k = choose|k: int| 0 <= k < init.len() && init[k] == who;
                assert(names[k] == who);
                assert(who != last) by {
                    assert(names[names.len() - 1] == last);
                }
            }
            if who == last {
                assert(names[names.len() - 1] == who);
            }
            if names.contains(who) && who != last {
                let k = choose|k: int| 0 <= k < names.len() && names[k] == who;
                assert(init[k] == who);
            }
        }
        rows::lemma_total_split(s.submissions, shared, before, theirs);
    }
}

proof fn lemma_zero<T>(s: Seq<T>, w: spec_fn(T) -> int)
    requires
        forall|t: T| #[trigger] w(t) == 0,
    ensures
        rows::total(s, w) == 0,
    decreases s.len(),
{
    if s.len() > 0 {
        lemma_zero(s.drop_last(), w);
    }
}

proof fn lemma_total_of_filter<T>(s: Seq<T>, p: spec_fn(T) -> bool, w: spec_fn(T) -> int)
    requires
        forall|t: T| !p(t) ==> #[trigger] w(t) == 0,
    ensures
        rows::total(s.filter(p), w) == rows::total(s, w),
    decreases s.len(),
{
    reveal(Seq::filter);
    if s.len() > 0 {
        let init = s.drop_last();
        lemma_total_of_filter(init, p, w);
        if p(s.last()) {
            rows::lemma_total_push(init.filter(p), w, s.last());
        }
    }
}

proof fn lemma_names_of_filter(s: Seq<SubmissionRowView>, campaign: Seq<char>)
    ensures
        reports::names_in(
            s.filter(|r: SubmissionRowView| r.record.campaign_id == campaign),
            campaign,
        ) == reports::names_in(s, campaign),
    decreases s.len(),
{
    reveal(Seq::filter);
    let p = |r: SubmissionRowView| r.record.campaign_id == campaign;
    if s.len() > 0 {
        let init = s.drop_last();
        lemma_names_of_filter(init, campaign);
        if p(s.last()) {
            assert(init.filter(p).push(s.last()).drop_last() =~= init.filter(p));
        }
    }
}

/// Nothing in another campaign bears on a leaderboard: two stores with the same posts, newest
/// counters and payouts in the campaign, and the same names, have the same one.
pub proof fn law_other_campaigns_do_not_bear_on_a_board(
    s: StoreView,
    t: StoreView,
    campaign: Seq<char>,
)
    requires
        s.submissions.filter(|r: SubmissionRowView| r.record.campaign_id == campaign)
            == t.submissions.filter(|r: SubmissionRowView| r.record.campaign_id == campaign),
        s.payouts.filter(|p: PayoutRowView| p.record.campaign_id == campaign) == t.payouts.filter(
            |p: PayoutRowView| p.record.campaign_id == campaign,
        ),
        forall|i: int|
            0 <= i < s.submissions.len() && (#[trigger] s.submissions[i]).record.campaign_id
                == campaign ==> s.latest(s.submissions[i].record.id) == t.latest(
                s.submissions[i].record.id,
            ),
        forall|id: Seq<char>| #[trigger] s.creator_name(id) == t.creator_name(id),
    ensures
        s.board(campaign) == t.board(campaign),
{
    let here = |r: SubmissionRowView| r.record.campaign_id == campaign;
    let mine = |p: PayoutRowView| p.record.campaign_id == campaign;
    lemma_names_of_filter(s.submissions, campaign);
    lemma_names_of_filter(t.submissions, campaign);
    let names = s.creators_in(campaign);
    assert(names == t.creators_in(campaign));
    assert forall|i: int| 0 <= i < names.len() implies s.board_row(campaign, #[trigger] names[i])
        == t.board_row(campaign, names[i]) by {
        let who = names[i];
        lemma_board_figures(s, campaign, who);
        lemma_board_figures(t, campaign, who);
        let of = posted(campaign, who);
        let a = |r: SubmissionRowView| if of(r) { newest_count(s, r, Counter::Views) } else { 0 };
        let b = |r: SubmissionRowView| if of(r) { newest_count(t, r, Counter::Views) } else { 0 };
        lemma_total_of_filter(s.submissions, here, a);
        lemma_total_of_filter(t.submissions, here, b);
        let f = s.submissions.filter(here);
        assert forall|k: int| 0 <= k < f.len() implies a(#[trigger] f[k]) == b(f[k]) by {
            let r = f[k];
            s.submissions.lemma_filter_pred(here, k);
            assert(f.contains(r));
            s.submissions.lemma_filter_contains_rev(here, r);
            let j = choose|j: int| 0 <= j < s.submissions.len() && s.submissions[j] == r;
            assert(s.submissions[j].record.campaign_id == campaign);
        }
        rows::lemma_total_same(f, a, b);
        let cleared = cleared_post(campaign, who);
        let c = |r: SubmissionRowView|
            if cleared(r) {
                1
            } else {
                0
            };
        lemma_total_of_filter(s.submissions, here, c);
        lemma_total_of_filter(t.submissions, here, c);
        lemma_same_money(s, t, mine, earned(campaign, who, PayoutStatus::Accrued));
        lemma_same_money(s, t, mine, earned(campaign, who, PayoutStatus::Paid));
    }
    assert(s.board(campaign) =~= t.board(campaign)) by {
        assert forall|i: int| 0 <= i < names.len() implies s.board(campaign)[i] == t.board(
            campaign,
        )[i] by {
            assert(s.board_row(campaign, names[i]) == t.board_row(campaign, names[i]));
        }
    }
}

proof fn lemma_same_money(
    s: StoreView,
    t: StoreView,
    mine: spec_fn(PayoutRowView) -> bool,
    of: spec_fn(PayoutRowView) -> bool,
)
    requires
        s.payouts.filter(mine) == t.payouts.filter(mine),
        forall|p: PayoutRowView| #[trigger] of(p) ==> mine(p),
    ensures
        money_where(s, of) == money_where(t, of),
{
    let w = |p: PayoutRowView|
        if of(p) {
            p.record.amount_cents as int
        } else {
            0
        };
    lemma_total_of_filter(s.payouts, mine, w);
    lemma_total_of_filter(t.payouts, mine, w);
}

/// A post recorded in another campaign, a post of another campaign deleted, and a reading of a post
/// that is not in the campaign leave its leaderboard as it is.
pub proof fn law_work_elsewhere_leaves_a_board(
    s: StoreView,
    campaign: Seq<char>,
    post: SubmissionView,
    reading: SnapshotView,
    gone: Seq<char>,
)
    requires
        s.wf(),
        post.campaign_id != campaign,
        s.last_snapshot_id < i64::MAX,
        forall|i: int|
            0 <= i < s.submissions.len() && (#[trigger] s.submissions[i]).record.campaign_id
                == campaign ==> s.submissions[i].record.id != reading.submission_id
                && s.submissions[i].record.id != gone,
        forall|k: int|
            0 <= k < s.payouts.len() && (#[trigger] s.payouts[k]).record.submission_id == Some(gone)
                ==> s.payouts[k].record.campaign_id != campaign,
    ensures
        s.insert_submission(post).board(campaign) == s.board(campaign),
        s.insert_snapshot(reading).board(campaign) == s.board(campaign),
        s.delete_submission(gone).board(campaign) == s.board(campaign),
{
    reveal(Seq::filter);
    let here = |r: SubmissionRowView| r.record.campaign_id == campaign;
    let mine = |p: PayoutRowView| p.record.campaign_id == campaign;
    let row = store::submission_row(post);
    assert(s.submissions.push(row).drop_last() =~= s.submissions);
    law_other_campaigns_do_not_bear_on_a_board(s, s.insert_submission(post), campaign);
    store::law_insert_snapshot_keeps_rules(s, reading);
    let t = s.insert_snapshot(reading);
    assert(t.snapshots.drop_last() =~= s.snapshots);
    assert forall|i: int|
        0 <= i < s.submissions.len() && (#[trigger] s.submissions[i]).record.campaign_id
            == campaign implies s.latest(s.submissions[i].record.id) == t.latest(
        s.submissions[i].record.id,
    ) by {
        lemma_latest_stays_on_push(s, t, s.submissions[i].record.id);
    }
    law_other_campaigns_do_not_bear_on_a_board(s, t, campaign);
    store::law_delete_submission_keeps_rules(s, gone);
    let d = s.delete_submission(gone);
    lemma_filter_of_kept(s.submissions, store::not(store::submission_is(gone)), here);
    lemma_filter_of_kept(s.payouts, store::not(store::payout_on(gone)), mine);
    assert forall|i: int|
        0 <= i < s.submissions.len() && (#[trigger] s.submissions[i]).record.campaign_id
            == campaign implies s.latest(s.submissions[i].record.id) == d.latest(
        s.submissions[i].record.id,
    ) by {
        lemma_latest_stays_on_kept(s, d, store::not(store::snapshot_of(gone)), s.submissions[i].record.id);
    }
    law_other_campaigns_do_not_bear_on_a_board(s, d, campaign);
}

proof fn lemma_filter_of_kept<T>(s: Seq<T>, keep: spec_fn(T) -> bool, p: spec_fn(T) -> bool)
    requires
        forall|i: int| 0 <= i < s.len() && p(#[trigger] s[i]) ==> keep(s[i]),
    ensures
        rows::kept(s, keep).filter(p) == s.filter(p),
    decreases s.len(),
{
    reveal(Seq::filter);
    if s.len() > 0 {
        let init = s.drop_last();
        assert forall|i: int| 0 <= i < init.len() && p(#[trigger] init[i]) implies keep(init[i]) by {
            assert(init[i] == s[i]);
        }
        lemma_filter_of_kept(init, keep, p);
        let rest = rows::kept(init, keep);
        assert(s.last() == s[s.len() - 1]);
        if keep(s.last()) {
            assert(rest.push(s.last()).drop_last() =~= rest);
        }
    }
}

proof fn lemma_latest_stays_on_push(s: StoreView, t: StoreView, id: Seq<char>)
    requires
        s.wf(),
        t.wf(),
        t.snapshots.len() == s.snapshots.len() + 1,
        t.snapshots.drop_last() == s.snapshots,
        t.snapshots.last().submission_id != id,
    ensures
        s.latest(id) == t.latest(id),
{
    price_laws::lemma_the_latest(s, id);
    price_laws::lemma_the_latest(t, id);
    assert forall|k: int| 0 <= k < s.snapshots.len() implies t.snapshots[k]
        == #[trigger] s.snapshots[k] by {
        assert(t.snapshots.drop_last()[k] == t.snapshots[k]);
    }
    if s.latest(id) is Some {
        let k = choose|k: int| 0 <= k < s.snapshots.len() && s.snapshots[k] == s.latest(id)->0;
        assert(t.snapshots[k].submission_id == id);
        let j = choose|j: int| 0 <= j < t.snapshots.len() && t.snapshots[j] == t.latest(id)->0;
        assert(j < s.snapshots.len());
        assert(s.snapshots[j].submission_id == id);
    } else if t.latest(id) is Some {
        let j = choose|j: int| 0 <= j < t.snapshots.len() && t.snapshots[j] == t.latest(id)->0;
        assert(s.snapshots[j].submission_id == id);
    }
}

proof fn lemma_latest_stays_on_kept(
    s: StoreView,
    t: StoreView,
    keep: spec_fn(SnapshotView) -> bool,
    id: Seq<char>,
)
    requires
        s.wf(),
        t.wf(),
        t.snapshots == rows::kept(s.snapshots, keep),
        forall|m: SnapshotView| m.submission_id == id ==> #[trigger] keep(m),
    ensures
        s.latest(id) == t.latest(id),
{
    price_laws::lemma_the_latest(s, id);
    price_laws::lemma_the_latest(t, id);
    rows::lemma_kept(s.snapshots, keep);
    if s.latest(id) is Some {
        let m = s.latest(id)->0;
        assert(t.snapshots.contains(m));
        let k = choose|k: int| 0 <= k < t.snapshots.len() && t.snapshots[k] == m;
        assert(t.snapshots[k].submission_id == id);
        let n = t.latest(id)->0;
        let j = choose|j: int| 0 <= j < t.snapshots.len() && t.snapshots[j] == n;
        assert(s.snapshots.contains(t.snapshots[j]));
        let i = choose|i: int| 0 <= i < s.snapshots.len() && s.snapshots[i] == n;
        let h = choose|h: int| 0 <= h < s.snapshots.len() && s.snapshots[h] == m;
        assert(s.snapshots[i].submission_id == id);
    } else if t.latest(id) is Some {
        let n = t.latest(id)->0;
        let j = choose|j: int| 0 <= j < t.snapshots.len() && t.snapshots[j] == n;
        assert(s.snapshots.contains(t.snapshots[j]));
        let i = choose|i: int| 0 <= i < s.snapshots.len() && s.snapshots[i] == n;
        assert(s.snapshots[i].submission_id == id);
    }
}

/// The order of the lines: the more views first; of equal views the name first that comes first
/// without regard to ASCII case; of equal names the id that comes first.
pub proof fn law_the_order_of_the_lines(a: BoardView, b: BoardView)
    ensures
        a.views > b.views ==> reports::board_order()(a, b) && !reports::board_order()(b, a),
        a.views == b.views && text::lower(a.display_name) != text::lower(b.display_name) ==> (
        reports::board_order()(a, b) <==> rows::text_le(
            text::lower(a.display_name),
            text::lower(b.display_name),
        )),
        a.views == b.views && text::lower(a.display_name) == text::lower(b.display_name) ==> (
        reports::board_order()(a, b) <==> rows::text_le(a.creator_id, b.creator_id)),
{
}

// ---- a creator's totals and the overview -----------------------------------------------------

/// A creator's totals are the counts and the money of their own rows, in every campaign.
pub proof fn law_a_creators_totals(s: StoreView, id: Seq<char>)
    ensures
        ({
            let accrued = money_where(
                s,
                |p: PayoutRowView|
                    p.record.creator_id == id && p.record.status == PayoutStatus::Accrued,
            );
            let paid = money_where(
                s,
                |p: PayoutRowView|
                    p.record.creator_id == id && p.record.status == PayoutStatus::Paid,
            );
            let read = s.creator_totals(id);
            &&& read is Ok <==> s.submissions.len() <= i64::MAX && rows::fits(accrued)
                && rows::fits(paid)
            &&& read matches Ok(t) ==> {
                &&& t.accrued_cents == accrued
                &&& t.paid_cents == paid
                &&& t.submissions.pending == count_where(
                    s,
                    |r: SubmissionRowView|
                        r.record.creator_id == id && r.record.status == SubmissionStatus::Pending,
                )
                &&& t.submissions.approved == count_where(
                    s,
                    |r: SubmissionRowView|
                        r.record.creator_id == id && r.record.status == SubmissionStatus::Approved,
                )
                &&& t.submissions.rejected == count_where(
                    s,
                    |r: SubmissionRowView|
                        r.record.creator_id == id && r.record.status == SubmissionStatus::Rejected,
                )
                &&& t.submissions.paid == count_where(
                    s,
                    |r: SubmissionRowView|
                        r.record.creator_id == id && r.record.status == SubmissionStatus::Paid,
                )
            }
        }),
{
    lemma_money(
        s,
        None,
        Some(id),
        PayoutStatus::Accrued,
        |p: PayoutRowView| p.record.creator_id == id && p.record.status == PayoutStatus::Accrued,
    );
    lemma_money(
        s,
        None,
        Some(id),
        PayoutStatus::Paid,
        |p: PayoutRowView| p.record.creator_id == id && p.record.status == PayoutStatus::Paid,
    );
    lemma_count(
        s,
        None,
        Some(id),
        SubmissionStatus::Pending,
        |r: SubmissionRowView|
            r.record.creator_id == id && r.record.status == SubmissionStatus::Pending,
    );
    lemma_count(
        s,
        None,
        Some(id),
        SubmissionStatus::Approved,
        |r: SubmissionRowView|
            r.record.creator_id == id && r.record.status == SubmissionStatus::Approved,
    );
    lemma_count(
        s,
        None,
        Some(id),
        SubmissionStatus::Rejected,
        |r: SubmissionRowView|
            r.record.creator_id == id && r.record.status == SubmissionStatus::Rejected,
    );
    lemma_count(
        s,
        None,
        Some(id),
        SubmissionStatus::Paid,
        |r: SubmissionRowView|
            r.record.creator_id == id && r.record.status == SubmissionStatus::Paid,
    );
}

/// The overview counts every campaign and every creator, readable or not, every submission by its
/// state, and all accrued and all paid money.
pub proof fn law_the_overview_counts_everything(s: StoreView)
    ensures
        ({
            let accrued = money_where(
                s,
                |p: PayoutRowView| p.record.status == PayoutStatus::Accrued,
            );
            let paid = money_where(s, |p: PayoutRowView| p.record.status == PayoutStatus::Paid);
            let campaigns = s.campaigns.len() + s.unread_campaigns.len();
            let creators = s.creators.len() + s.unread_creators.len();
            let read = s.overview();
            &&& read is Ok <==> s.submissions.len() <= i64::MAX && campaigns <= i64::MAX && creators
                <= i64::MAX && rows::fits(accrued) && rows::fits(paid)
            &&& read matches Ok(o) ==> {
                &&& o.campaigns == campaigns
                &&& o.creators == creators
                &&& o.accrued_cents == accrued
                &&& o.paid_cents == paid
                &&& o.submissions.pending == count_where(
                    s,
                    |r: SubmissionRowView| r.record.status == SubmissionStatus::Pending,
                )
                &&& o.submissions.approved == count_where(
                    s,
                    |r: SubmissionRowView| r.record.status == SubmissionStatus::Approved,
                )
                &&& o.submissions.rejected == count_where(
                    s,
                    |r: SubmissionRowView| r.record.status == SubmissionStatus::Rejected,
                )
                &&& o.submissions.paid == count_where(
                    s,
                    |r: SubmissionRowView| r.record.status == SubmissionStatus::Paid,
                )
            }
        }),
{
    lemma_money(
        s,
        None,
        None,
        PayoutStatus::Accrued,
        |p: PayoutRowView| p.record.status == PayoutStatus::Accrued,
    );
    lemma_money(
        s,
        None,
        None,
        PayoutStatus::Paid,
        |p: PayoutRowView| p.record.status == PayoutStatus::Paid,
    );
    lemma_count(
        s,
        None,
        None,
        SubmissionStatus::Pending,
        |r: SubmissionRowView| r.record.status == SubmissionStatus::Pending,
    );
    lemma_count(
        s,
        None,
        None,
        SubmissionStatus::Approved,
        |r: SubmissionRowView| r.record.status == SubmissionStatus::Approved,
    );
    lemma_count(
        s,
        None,
        None,
        SubmissionStatus::Rejected,
        |r: SubmissionRowView| r.record.status == SubmissionStatus::Rejected,
    );
    lemma_count(
        s,
        None,
        None,
        SubmissionStatus::Paid,
        |r: SubmissionRowView| r.record.status == SubmissionStatus::Paid,
    );
}

} // verus!
