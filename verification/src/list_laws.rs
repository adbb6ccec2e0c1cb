//! What the lists show: which rows, in which order, and how many of them.
use crate::engine;
use crate::inputs;
use crate::inputs::{PayoutQueryView, SubmissionQueryView};
use crate::lists;
use crate::lists::{PayoutFilterView, SubmissionFilterView, WithMetricsView};
use crate::price_laws;
use crate::pricing;
use crate::records::{
    CampaignStatus, CampaignView, CreatorView, PayoutStatus, PayoutView, SnapshotView,
    SubmissionStatus, SubmissionView,
};
use crate::rows;
use crate::store;
use crate::store::{PayoutRowView, StoreView, SubmissionRowView};
use crate::text;
use vstd::prelude::*;

verus! {

// ---- pages in general --------------------------------------------------------------------------

/// What is picked from rows is what the pick makes of those that it takes, in their order: the last
/// row is taken last or not at all, and nothing is picked from no rows.
pub proof fn law_what_is_picked<T, U>(s: Seq<T>, t: T, g: spec_fn(T) -> Option<U>)
    ensures
        rows::picked(Seq::<T>::empty(), g) == Seq::<U>::empty(),
        g(t) is None ==> rows::picked(s.push(t), g) == rows::picked(s, g),
        g(t) matches Some(u) ==> rows::picked(s.push(t), g) == rows::picked(s, g).push(u),
        forall|u: U| #[trigger]
            rows::picked(s, g).contains(u) <==> exists|i: int|
                0 <= i < s.len() && g(#[trigger] s[i]) == Some(u),
    decreases s.len(),
{
    assert(s.push(t).drop_last() =~= s);
    if s.len() > 0 {
        let (init, last) = (s.drop_last(), s.last());
        law_what_is_picked(init, last, g);
        assert(init.push(last) =~= s);
        let (rest, all) = (rows::picked(init, g), rows::picked(s, g));
        assert forall|u: U| #[trigger] all.contains(u) <==> exists|i: int|
            0 <= i < s.len() && g(#[trigger] s[i]) == Some(u) by {
            if all.contains(u) {
                let k = choose|k: int| 0 <= k < all.len() && all[k] == u;
                if k < rest.len() {
                    assert(rest[k] == u);
                    assert(rest.contains(u));
                    let i = choose|i: int| 0 <= i < init.len() && g(#[trigger] init[i]) == Some(u);
                    assert(g(s[i]) == Some(u));
                } else {
                    assert(g(s[s.len() - 1]) == Some(u));
                }
            }
            if exists|i: int| 0 <= i < s.len() && g(#[trigger] s[i]) == Some(u) {
                let i = choose|i: int| 0 <= i < s.len() && g(#[trigger] s[i]) == Some(u);
                if i < init.len() {
                    assert(g(init[i]) == Some(u));
                    assert(rest.contains(u));
                    let k = choose|k: int| 0 <= k < rest.len() && rest[k] == u;
                    assert(all[k] == u);
                } else {
                    assert(all[all.len() - 1] == u);
                }
            }
        }
    } else {
        assert(s =~= Seq::<T>::empty());
    }
}

/// A list without a limit holds every row, each as often as there is one, and none stands behind
/// one that it goes before.
pub proof fn law_a_list_holds_every_row<T>(
    all: Seq<T>,
    out: Seq<T>,
    le: spec_fn(T, T) -> bool,
    x: T,
)
    requires
        rows::ranking(all, out, le),
    ensures
        out.len() == all.len(),
        out.contains(x) <==> all.contains(x),
        all.to_multiset().count(x) == out.to_multiset().count(x),
        forall|i: int, j: int| 0 <= i < j < out.len() ==> le(#[trigger] out[i], #[trigger] out[j]),
{
    lemma_same_rows(all, out, x);
}

proof fn lemma_same_rows<T>(all: Seq<T>, out: Seq<T>, x: T)
    requires
        out.to_multiset() == all.to_multiset(),
    ensures
        out.len() == all.len(),
        out.contains(x) <==> all.contains(x),
{
    vstd::seq_lib::to_multiset_len(all);
    vstd::seq_lib::to_multiset_len(out);
    vstd::seq_lib::to_multiset_contains(all, x);
    vstd::seq_lib::to_multiset_contains(out, x);
}

/// A page holds the rows that come first: as many as the limit allows and there are, in order, all
/// of them rows of the list, and a row that is left out comes behind every row on the page.
pub proof fn law_a_page_holds_the_first_rows<T>(
    all: Seq<T>,
    out: Seq<T>,
    le: spec_fn(T, T) -> bool,
    limit: int,
    x: T,
)
    requires
        rows::first_page(all, out, le, limit),
        0 <= limit,
    ensures
        out.len() == if all.len() <= limit {
            all.len() as int
        } else {
            limit
        },
        forall|i: int, j: int| 0 <= i < j < out.len() ==> le(#[trigger] out[i], #[trigger] out[j]),
        out.contains(x) ==> all.contains(x),
        all.contains(x) && !out.contains(x) ==> forall|j: int|
            0 <= j < out.len() ==> le(#[trigger] out[j], x),
{
    let n = if all.len() <= limit {
        all.len() as int
    } else {
        limit
    };
    let full = choose|full: Seq<T>| #[trigger]
        rows::ranking(all, full, le) && out == full.take(
            if full.len() <= limit {
                full.len() as int
            } else {
                limit
            },
        );
    lemma_same_rows(all, full, x);
    if out.contains(x) {
        let j = choose|j: int| 0 <= j < out.len() && out[j] == x;
        assert(full[j] == x);
        assert(full.contains(x));
    }
    if all.contains(x) && !out.contains(x) {
        assert(full.contains(x));
        let k = choose|k: int| 0 <= k < full.len() && full[k] == x;
        if k < n {
            assert(out[k] == x);
        }
        assert forall|j: int| 0 <= j < out.len() implies le(#[trigger] out[j], x) by {
            assert(le(full[j], full[k]));
        }
    }
}

/// A page has 100 rows where no limit is asked for, and else as many as are asked for, but at least
/// 1 and at most 500.
pub proof fn law_how_long_a_page_is(n: i64)
    ensures
        pricing::page_size(None) == 100,
        n < 1 ==> pricing::page_size(Some(n)) == 1,
        1 <= n <= 500 ==> pricing::page_size(Some(n)) == n,
        500 < n ==> pricing::page_size(Some(n)) == 500,
{
}

// ---- which rows and in which order -----------------------------------------------------------------

/// The campaign list holds the campaigns of the status that is asked for, or all of them,
/// unchanged; the one that was updated last stands first.
pub proof fn law_the_campaign_list(status: Option<CampaignStatus>, c: CampaignView, d: CampaignView)
    ensures
        lists::campaign_listed(status)(c) is Some <==> status is None || status == Some(c.status),
        lists::campaign_listed(status)(c) is Some ==> lists::campaign_listed(status)(c) == Some(c),
        lists::campaign_order()(c, d) <==> rows::text_le(d.updated_at, c.updated_at),
{
}

/// A status filter is read in whatever case and with whatever white space around it; an unknown one
/// is no filter.
pub proof fn law_the_status_asked_for(t: Seq<char>)
    ensures
        ({
            let name = text::lower(text::trimmed(t));
            let campaign = inputs::campaign_status_asked(Some(t));
            &&& name == "draft"@ ==> campaign == Some(CampaignStatus::Draft)
            &&& name == "active"@ ==> campaign == Some(CampaignStatus::Active)
            &&& name == "paused"@ ==> campaign == Some(CampaignStatus::Paused)
            &&& name == "ended"@ ==> campaign == Some(CampaignStatus::Ended)
            &&& name != "draft"@ && name != "active"@ && name != "paused"@ && name != "ended"@
                ==> campaign is None
        }),
        inputs::campaign_status_asked(None) is None,
{
    reveal_strlit("draft");
    reveal_strlit("active");
    reveal_strlit("paused");
    reveal_strlit("ended");
    assert("draft"@[0] == 'd' && "active"@[0] == 'a' && "paused"@[0] == 'p' && "ended"@[0] == 'e');
}

/// The submission query becomes the filter that it spells: campaign and creator as they are given,
/// the status by its word and the platform by its key; an unknown status and a blank platform
/// filter nothing.
pub proof fn law_the_submission_query(q: SubmissionQueryView, t: Seq<char>, p: Seq<char>)
    ensures
        q.filter().campaign_id == q.campaign_id,
        q.filter().creator_id == q.creator_id,
        q.filter().limit == inputs::limit_asked(q.limit),
        q.status is None ==> q.filter().status is None,
        q.status == Some(t) ==> ({
            let name = text::lower(text::trimmed(t));
            let status = q.filter().status;
            &&& name == "pending"@ ==> status == Some(SubmissionStatus::Pending)
            &&& name == "approved"@ ==> status == Some(SubmissionStatus::Approved)
            &&& name == "rejected"@ ==> status == Some(SubmissionStatus::Rejected)
            &&& name == "paid"@ ==> status == Some(SubmissionStatus::Paid)
            &&& name != "pending"@ && name != "approved"@ && name != "rejected"@ && name != "paid"@
                ==> status is None
        }),
        q.platform is None ==> q.filter().platform is None,
        q.platform == Some(p) && text::trimmed(p).len() == 0 ==> q.filter().platform is None,
        q.platform == Some(p) && text::trimmed(p).len() > 0 ==> q.filter().platform == Some(
            text::lower(text::trimmed(p)),
        ),
{
    lemma_post_words();
}

proof fn lemma_post_words()
    ensures
        "pending"@ != "approved"@,
        "pending"@ != "rejected"@,
        "pending"@ != "paid"@,
        "approved"@ != "rejected"@,
        "approved"@ != "paid"@,
        "rejected"@ != "paid"@,
        "accrued"@ != "approved"@,
        "accrued"@ != "paid"@,
{
    reveal_strlit("pending");
    reveal_strlit("approved");
    reveal_strlit("rejected");
    reveal_strlit("paid");
    reveal_strlit("accrued");
    assert("pending"@[1] == 'e' && "approved"@[1] == 'p' && "rejected"@[2] == 'j' && "paid"@[1]
        == 'a' && "accrued"@[1] == 'c');
    assert("pending"@[0] == 'p' && "rejected"@[0] == 'r' && "approved"@[0] == 'a' && "paid"@[0]
        == 'p');
}

/// The payout query becomes the filter that it spells: campaign and creator as they are given, and
/// the status by its word; an unknown status filters nothing.
pub proof fn law_the_payout_query(q: PayoutQueryView, t: Seq<char>)
    ensures
        q.filter().campaign_id == q.campaign_id,
        q.filter().creator_id == q.creator_id,
        q.filter().limit == inputs::limit_asked(q.limit),
        q.status is None ==> q.filter().status is None,
        q.status == Some(t) ==> ({
            let name = text::lower(text::trimmed(t));
            let status = q.filter().status;
            &&& name == "accrued"@ ==> status == Some(PayoutStatus::Accrued)
            &&& name == "approved"@ ==> status == Some(PayoutStatus::Approved)
            &&& name == "paid"@ ==> status == Some(PayoutStatus::Paid)
            &&& name != "accrued"@ && name != "approved"@ && name != "paid"@ ==> status is None
        }),
{
    lemma_post_words();
}

/// The submission lists hold the rows that every given part of the filter admits, unchanged: of the
/// campaign, of the creator, in the state, on the platform; the newest stands first, and of two
/// with one stamp the one with the later id.
pub proof fn law_the_submission_list(
    f: SubmissionFilterView,
    r: SubmissionRowView,
    a: SubmissionView,
    b: SubmissionView,
)
    ensures
        lists::submission_listed(f)(r) is Some <==> {
            &&& f.campaign_id is None || f.campaign_id == Some(r.record.campaign_id)
            &&& f.creator_id is None || f.creator_id == Some(r.record.creator_id)
            &&& f.status == Some(SubmissionStatus::Pending) ==> r.status_text == "pending"@
            &&& f.status == Some(SubmissionStatus::Approved) ==> r.status_text == "approved"@
            &&& f.status == Some(SubmissionStatus::Rejected) ==> r.status_text == "rejected"@
            &&& f.status == Some(SubmissionStatus::Paid) ==> r.status_text == "paid"@
            &&& f.platform is None || r.record.platform == text::lower(text::trimmed(f.platform->0))
        },
        lists::submission_listed(f)(r) is Some ==> lists::submission_listed(f)(r) == Some(r.record),
        lists::submission_order()(a, b) <==> {
            ||| a.submitted_at != b.submitted_at && rows::text_le(b.submitted_at, a.submitted_at)
            ||| a.submitted_at == b.submitted_at && rows::text_le(b.id, a.id)
        },
{
}

/// A list with counters and money holds the same rows in the same order; each carries the newest
/// counters of its post, and the amount and the state of its payout where there is one.
pub proof fn law_the_submission_list_with_counters(
    s: StoreView,
    f: SubmissionFilterView,
    r: SubmissionRowView,
    a: WithMetricsView,
    b: WithMetricsView,
    k: int,
    i: int,
)
    requires
        s.wf(),
    ensures
        lists::metrics_listed(s, f)(r) is Some <==> lists::submission_listed(f)(r) is Some,
        lists::metrics_listed(s, f)(r) matches Some(line) ==> {
            &&& line.submission == r.record
            &&& line.latest is None <==> forall|j: int|
                0 <= j < s.snapshots.len() ==> (#[trigger] s.snapshots[j]).submission_id
                    != r.record.id
            &&& line.latest is Some ==> s.snapshots.contains(line.latest->0)
                && line.latest->0.submission_id == r.record.id
            &&& line.latest is Some && 0 <= i < s.snapshots.len() && s.snapshots[i].submission_id
                == r.record.id ==> s.snapshots[i].id <= line.latest->0.id
            &&& 0 <= k < s.payouts.len() && s.payouts[k].record.submission_id == Some(r.record.id)
                ==> line.accrued_cents == Some(s.payouts[k].record.amount_cents)
                && line.payout_status == Some(s.payouts[k].status_text)
            &&& (forall|j: int|
                0 <= j < s.payouts.len() ==> (#[trigger] s.payouts[j]).record.submission_id != Some(
                    r.record.id,
                )) ==> line.accrued_cents is None && line.payout_status is None
        },
        lists::metrics_order()(a, b) <==> lists::submission_order()(a.submission, b.submission),
{
    price_laws::lemma_the_latest(s, r.record.id);
    rows::lemma_position(s.payouts, store::payout_on(r.record.id));
}

/// The history of a post holds its snapshots, unchanged, the newest first.
pub proof fn law_the_snapshot_list(id: Seq<char>, m: SnapshotView, n: SnapshotView)
    ensures
        lists::snapshot_listed(id)(m) is Some <==> m.submission_id == id,
        lists::snapshot_listed(id)(m) is Some ==> lists::snapshot_listed(id)(m) == Some(m),
        lists::snapshot_order()(m, n) <==> n.id <= m.id,
{
}

/// The payout list holds the rows that every given part of the filter admits, unchanged; the one
/// that accrued last stands first, and of two with one stamp the one with the later id.
pub proof fn law_the_payout_list(
    f: PayoutFilterView,
    r: PayoutRowView,
    a: PayoutView,
    b: PayoutView,
)
    ensures
        lists::payout_listed(f)(r) is Some <==> {
            &&& f.campaign_id is None || f.campaign_id == Some(r.record.campaign_id)
            &&& f.creator_id is None || f.creator_id == Some(r.record.creator_id)
            &&& f.status == Some(PayoutStatus::Accrued) ==> r.status_text == "accrued"@
            &&& f.status == Some(PayoutStatus::Approved) ==> r.status_text == "approved"@
            &&& f.status == Some(PayoutStatus::Paid) ==> r.status_text == "paid"@
        },
        lists::payout_listed(f)(r) is Some ==> lists::payout_listed(f)(r) == Some(r.record),
        lists::payout_order()(a, b) <==> {
            ||| a.accrued_at != b.accrued_at && rows::text_le(b.accrued_at, a.accrued_at)
            ||| a.accrued_at == b.accrued_at && rows::text_le(b.id, a.id)
        },
{
}

/// The refresh of a campaign visits the approved posts of that campaign and no others.
pub proof fn law_the_posts_that_are_refreshed(campaign_id: Seq<char>, r: SubmissionRowView)
    ensures
        lists::submission_listed(engine::approved_in(campaign_id))(r) is Some
            <==> r.record.campaign_id == campaign_id && r.status_text == "approved"@,
{
}

// ---- the roster search ----------------------------------------------------------------------------

/// `q` stands in `s` at `at`, without regard to ASCII case.
pub open spec fn found_at(s: Seq<char>, q: Seq<char>, at: int) -> bool {
    &&& 0 <= at
    &&& at + q.len() <= s.len()
    &&& forall|j: int|
        0 <= j < q.len() ==> text::lower_char(#[trigger] q[j]) == text::lower_char(s[at + j])
}

/// Nothing in the text stands for other text.
pub open spec fn literal(q: Seq<char>) -> bool {
    forall|j: int| 0 <= j < q.len() ==> #[trigger] q[j] != '%' && q[j] != '_'
}

proof fn lemma_anything(s: Seq<char>)
    ensures
        lists::like(seq!['%'], s),
    decreases s.len(),
{
    if s.len() > 0 {
        lemma_anything(s.skip(1));
    } else {
        assert(seq!['%'].skip(1) =~= Seq::<char>::empty());
        assert(lists::like(seq!['%'].skip(1), s));
    }
}

proof fn lemma_begins_alike(q: Seq<char>, s: Seq<char>)
    requires
        literal(q),
    ensures
        lists::like(q + seq!['%'], s) <==> found_at(s, q, 0),
    decreases q.len(),
{
    let p = q + seq!['%'];
    if q.len() == 0 {
        assert(p =~= seq!['%']);
        lemma_anything(s);
    } else {
        assert(p[0] == q[0]);
        if s.len() > 0 {
            let (q1, s1) = (q.skip(1), s.skip(1));
            assert(p.skip(1) =~= q1 + seq!['%']);
            assert forall|j: int| 0 <= j < q1.len() implies #[trigger] q1[j] != '%' && q1[j]
                != '_' by {
                assert(q[j + 1] != '%');
            }
            lemma_begins_alike(q1, s1);
            if found_at(s, q, 0) {
                assert forall|j: int| 0 <= j < q1.len() implies text::lower_char(#[trigger] q1[j])
                    == text::lower_char(s1[0 + j]) by {
                    assert(text::lower_char(q[j + 1]) == text::lower_char(s[0 + (j + 1)]));
                }
                assert(text::lower_char(q[0]) == text::lower_char(s[0]));
            }
            if text::lower_char(q[0]) == text::lower_char(s[0]) && found_at(s1, q1, 0) {
                assert forall|j: int| 0 <= j < q.len() implies text::lower_char(#[trigger] q[j])
                    == text::lower_char(s[0 + j]) by {
                    if j > 0 {
                        assert(text::lower_char(q1[j - 1]) == text::lower_char(s1[0 + (j - 1)]));
                    }
                }
            }
        }
    }
}

proof fn lemma_found_alike(q: Seq<char>, s: Seq<char>)
    requires
        literal(q),
    ensures
        lists::like(seq!['%'] + q + seq!['%'], s) <==> exists|at: int| found_at(s, q, at),
    decreases s.len(),
{
    let p = seq!['%'] + q + seq!['%'];
    assert(p[0] == '%');
    assert(p.skip(1) =~= q + seq!['%']);
    lemma_begins_alike(q, s);
    if s.len() > 0 {
        let s1 = s.skip(1);
        lemma_found_alike(q, s1);
        if exists|at: int| found_at(s1, q, at) {
            let at = choose|at: int| found_at(s1, q, at);
            assert forall|j: int| 0 <= j < q.len() implies text::lower_char(#[trigger] q[j])
                == text::lower_char(s[at + 1 + j]) by {
                assert(s1[at + j] == s[at + 1 + j]);
            }
            assert(found_at(s, q, at + 1));
        }
        if exists|at: int| found_at(s, q, at) {
            let at = choose|at: int| found_at(s, q, at);
            if at > 0 {
                assert forall|j: int| 0 <= j < q.len() implies text::lower_char(#[trigger] q[j])
                    == text::lower_char(s1[at - 1 + j]) by {
                    assert(s1[at - 1 + j] == s[at + j]);
                }
                assert(found_at(s1, q, at - 1));
            } else {
                assert(found_at(s, q, 0));
            }
        }
    } else if exists|at: int| found_at(s, q, at) {
        let at = choose|at: int| found_at(s, q, at);
        assert(at == 0);
    }
}

/// A search finds the creators whose name or contact address holds the trimmed text somewhere,
/// without regard to ASCII case; without a text, or with a blank one, it finds all. They come
/// unchanged.
pub proof fn law_the_roster_search(q: Option<Seq<char>>, c: CreatorView)
    requires
        q is Some ==> literal(text::trimmed(q->0)),
    ensures
        q is None || text::trimmed(q->0).len() == 0 ==> lists::creator_listed(q)(c) == Some(c),
        q is Some && text::trimmed(q->0).len() > 0 ==> (lists::creator_listed(q)(c) is Some <==> {
            ||| exists|at: int| found_at(c.display_name, text::trimmed(q->0), at)
            ||| c.contact_email is Some && exists|at: int|
                found_at(c.contact_email->0, text::trimmed(q->0), at)
        }),
        lists::creator_listed(q)(c) is Some ==> lists::creator_listed(q)(c) == Some(c),
{
    if q is Some {
        let t = text::trimmed(q->0);
        lemma_found_alike(t, c.display_name);
        if c.contact_email is Some {
            lemma_found_alike(t, c.contact_email->0);
        }
    }
}

/// A search is refused where its pattern takes more than 50000 bytes; a blank one has none, and an
/// empty roster is compared with none.
pub proof fn law_which_searches_are_refused(s: StoreView, q: Seq<char>)
    ensures
        !lists::search_refused(s, None),
        lists::search_refused(s, Some(q)) <==> s.creators.len() + s.unread_creators.len() > 0
            && text::trimmed(q).len() > 0 && vstd::utf8::encode_utf8(
            seq!['%'] + text::trimmed(q) + seq!['%'],
        ).len() > 50000,
{
}

/// In a search `%` stands for any text and `_` for one character, whatever it is.
pub proof fn law_the_wildcards(a: Seq<char>, x: Seq<char>, p: Seq<char>, c: char)
    ensures
        lists::like(p, x) ==> lists::like(seq!['%'] + p, a + x),
        lists::like(p, x) ==> lists::like(seq!['_'] + p, seq![c] + x),
        lists::like(Seq::empty(), x) <==> x.len() == 0,
        !lists::like(seq!['_'] + p, Seq::empty()),
    decreases a.len(),
{
    let w = seq!['%'] + p;
    assert(w.skip(1) =~= p);
    let o = seq!['_'] + p;
    assert(o.skip(1) =~= p);
    assert((seq![c] + x).skip(1) =~= x);
    if a.len() > 0 {
        law_the_wildcards(a.skip(1), x, p, c);
        assert((a + x).skip(1) =~= a.skip(1) + x);
    } else {
        assert(a + x =~= x);
    }
}

/// The roster stands in the order of the names, without regard to ASCII case.
pub proof fn law_the_order_of_the_roster(a: CreatorView, b: CreatorView)
    ensures
        lists::creator_order()(a, b) <==> rows::text_le(
            text::lower(a.display_name),
            text::lower(b.display_name),
        ),
{
}

} // verus!
