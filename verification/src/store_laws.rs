//! What the tables hold, what each write does to them, and what is announced of it.
use crate::price_laws;
use crate::post_laws;
use crate::records::{
    CampaignView, CreatorView, PayoutStatus, PayoutView, SnapshotView, SubmissionStatus,
    SubmissionView,
};
use crate::rows;
use crate::store;
use crate::store::{
    PayoutRowView, StoreError, StoreView, SubmissionRowView, UgcEventView, UnreadCreatorView,
    WriteOutcome,
};
use vstd::prelude::*;

verus! {

// ---- the rules --------------------------------------------------------------------------------

/// The rules of the tables: no two rows share an id, a record that can be read does not stand among
/// those that cannot, no post stands twice in a campaign, no submission has two payouts, every
/// state is the one that its column reads as, and every snapshot id was handed out.
pub proof fn law_the_rules_of_the_tables(s: StoreView)
    requires
        s.wf(),
    ensures
        forall|i: int, j: int|
            0 <= i < j < s.campaigns.len() ==> (#[trigger] s.campaigns[i]).id != (
            #[trigger] s.campaigns[j]).id,
        forall|i: int, j: int|
            0 <= i < j < s.creators.len() ==> (#[trigger] s.creators[i]).id != (
            #[trigger] s.creators[j]).id,
        forall|i: int, j: int|
            0 <= i < j < s.submissions.len() ==> (#[trigger] s.submissions[i]).record.id != (
            #[trigger] s.submissions[j]).record.id,
        forall|i: int, j: int|
            0 <= i < j < s.snapshots.len() ==> (#[trigger] s.snapshots[i]).id != (
            #[trigger] s.snapshots[j]).id,
        forall|i: int, j: int|
            0 <= i < j < s.payouts.len() ==> (#[trigger] s.payouts[i]).record.id != (
            #[trigger] s.payouts[j]).record.id,
        forall|i: int, j: int|
            0 <= i < s.unread_campaigns.len() && 0 <= j < s.campaigns.len()
                ==> #[trigger] s.unread_campaigns[i] != (#[trigger] s.campaigns[j]).id,
        forall|i: int, j: int|
            0 <= i < s.unread_creators.len() && 0 <= j < s.creators.len() ==> (
            #[trigger] s.unread_creators[i]).id != (#[trigger] s.creators[j]).id,
        forall|i: int, j: int|
            0 <= i < j < s.submissions.len() ==> {
                let (a, b) = (
                    (#[trigger] s.submissions[i]).record,
                    (#[trigger] s.submissions[j]).record,
                );
                ||| a.external_post_id.len() == 0
                ||| a.campaign_id != b.campaign_id
                ||| a.platform != b.platform
                ||| a.external_post_id != b.external_post_id
            },
        forall|i: int, j: int|
            0 <= i < j < s.payouts.len() && (#[trigger] s.payouts[i]).record.submission_id is Some
                ==> s.payouts[i].record.submission_id != (
            #[trigger] s.payouts[j]).record.submission_id,
        forall|i: int|
            0 <= i < s.submissions.len() ==> (#[trigger] s.submissions[i]).record.status
                == SubmissionStatus::stored(s.submissions[i].status_text),
        forall|i: int|
            0 <= i < s.payouts.len() ==> (#[trigger] s.payouts[i]).record.status
                == PayoutStatus::stored(s.payouts[i].status_text),
        forall|i: int|
            0 <= i < s.snapshots.len() ==> 1 <= (#[trigger] s.snapshots[i]).id
                <= s.last_snapshot_id,
{
    assert forall|i: int, j: int|
        0 <= i < s.unread_campaigns.len() && 0 <= j < s.campaigns.len()
            implies #[trigger] s.unread_campaigns[i] != (#[trigger] s.campaigns[j]).id by {
        assert(store::no_campaign(s.campaigns)(s.unread_campaigns[i]));
        assert(store::campaign_is(s.campaigns[j].id)(s.campaigns[j]));
    }
    assert forall|i: int, j: int|
        0 <= i < s.unread_creators.len() && 0 <= j < s.creators.len() implies (
    #[trigger] s.unread_creators[i]).id != (#[trigger] s.creators[j]).id by {
        assert(store::no_creator(s.creators)(s.unread_creators[i]));
        assert(store::creator_is(s.creators[j].id)(s.creators[j]));
    }
    assert forall|i: int, j: int| 0 <= i < j < s.submissions.len() implies {
        let (a, b) = ((#[trigger] s.submissions[i]).record, (#[trigger] s.submissions[j]).record);
        ||| a.external_post_id.len() == 0
        ||| a.campaign_id != b.campaign_id
        ||| a.platform != b.platform
        ||| a.external_post_id != b.external_post_id
    } by {
        assert(!store::same_post(s.submissions[i], s.submissions[j]));
    }
    assert(rows::every(s.submissions, store::submission_reads()));
    assert(rows::every(s.payouts, store::payout_reads()));
    assert forall|i: int| 0 <= i < s.submissions.len() implies (
    #[trigger] s.submissions[i]).record.status == SubmissionStatus::stored(
        s.submissions[i].status_text,
    ) by {
        assert(store::submission_reads()(s.submissions[i]));
    }
    assert forall|i: int| 0 <= i < s.payouts.len() implies (#[trigger] s.payouts[i]).record.status
        == PayoutStatus::stored(s.payouts[i].status_text) by {
        assert(store::payout_reads()(s.payouts[i]));
    }
    assert forall|i: int| 0 <= i < s.snapshots.len() implies 1 <= (#[trigger] s.snapshots[i]).id
        <= s.last_snapshot_id by {
        assert(store::snapshot_numbered(s.last_snapshot_id)(s.snapshots[i]));
    }
}

/// Empty tables keep the rules.
pub proof fn law_empty_tables_keep_the_rules(feed: Seq<UgcEventView>)
    ensures
        (StoreView {
            campaigns: Seq::empty(),
            unread_campaigns: Seq::empty(),
            creators: Seq::empty(),
            unread_creators: Seq::empty(),
            submissions: Seq::empty(),
            snapshots: Seq::empty(),
            payouts: Seq::empty(),
            last_snapshot_id: 0,
            feed,
        }).wf(),
{
}

// ---- reads ------------------------------------------------------------------------------------

/// A row is read by its id, a payout also by its submission, and what no row has is not found.
pub proof fn law_rows_are_read_by_their_id(s: StoreView, i: int, id: Seq<char>)
    requires
        s.wf(),
    ensures
        0 <= i < s.campaigns.len() ==> s.read_campaign(s.campaigns[i].id) == Ok::<_, StoreError>(
            Some(s.campaigns[i]),
        ),
        0 <= i < s.creators.len() ==> s.read_creator(s.creators[i].id) == Ok::<_, StoreError>(
            Some(s.creators[i]),
        ),
        0 <= i < s.submissions.len() ==> s.submission(s.submissions[i].record.id) == Some(
            s.submissions[i].record,
        ),
        0 <= i < s.payouts.len() ==> s.payout(s.payouts[i].record.id) == Some(s.payouts[i].record),
        0 <= i < s.payouts.len() && s.payouts[i].record.submission_id is Some ==> s.payout_of(
            s.payouts[i].record.submission_id->0,
        ) == Some(s.payouts[i].record),
        0 <= i < s.unread_campaigns.len() ==> s.read_campaign(s.unread_campaigns[i]) == Err::<
            Option<CampaignView>,
            _,
        >(StoreError::DeserializingCampaign),
        0 <= i < s.unread_creators.len() ==> s.read_creator(s.unread_creators[i].id) == Err::<
            Option<CreatorView>,
            _,
        >(StoreError::DeserializingCreator),
        s.submission(id) matches Some(r) ==> r.id == id,
        s.payout(id) matches Some(p) ==> p.id == id,
        s.payout_of(id) matches Some(p) ==> p.submission_id == Some(id),
        s.campaign(id) matches Some(c) ==> c.id == id,
        s.creator(id) matches Some(c) ==> c.id == id,
        s.campaign_count() == s.campaigns.len() + s.unread_campaigns.len(),
        s.creator_count() == s.creators.len() + s.unread_creators.len(),
{
    if 0 <= i < s.campaigns.len() {
        price_laws::lemma_a_readable_campaign(s, i);
    }
    if 0 <= i < s.creators.len() {
        post_laws::lemma_a_readable_creator(s, i);
    }
    if 0 <= i < s.submissions.len() {
        rows::lemma_position(s.submissions, store::submission_is(s.submissions[i].record.id));
    }
    if 0 <= i < s.payouts.len() {
        rows::lemma_position(s.payouts, store::payout_is(s.payouts[i].record.id));
        if s.payouts[i].record.submission_id is Some {
            rows::lemma_position(
                s.payouts,
                store::payout_on(s.payouts[i].record.submission_id->0),
            );
        }
    }
    if 0 <= i < s.unread_campaigns.len() {
        assert(store::id_is(s.unread_campaigns[i])(s.unread_campaigns[i]));
    }
    if 0 <= i < s.unread_creators.len() {
        assert(store::unread_creator_is(s.unread_creators[i].id)(s.unread_creators[i]));
    }
    rows::lemma_position(s.submissions, store::submission_is(id));
    rows::lemma_position(s.payouts, store::payout_is(id));
    rows::lemma_position(s.payouts, store::payout_on(id));
    rows::lemma_position(s.campaigns, store::campaign_is(id));
    rows::lemma_position(s.creators, store::creator_is(id));
}

/// An id that no row has is not there.
pub proof fn law_what_is_not_there(s: StoreView, id: Seq<char>)
    ensures
        (forall|i: int| 0 <= i < s.submissions.len() ==> (#[trigger] s.submissions[i]).record.id != id)
            ==> s.submission(id) is None,
        (forall|i: int| 0 <= i < s.payouts.len() ==> (#[trigger] s.payouts[i]).record.id != id)
            ==> s.payout(id) is None,
        (forall|i: int|
            0 <= i < s.payouts.len() ==> (#[trigger] s.payouts[i]).record.submission_id != Some(id))
            ==> s.payout_of(id) is None,
        (forall|i: int| 0 <= i < s.campaigns.len() ==> (#[trigger] s.campaigns[i]).id != id) && (
        forall|i: int| 0 <= i < s.unread_campaigns.len() ==> #[trigger] s.unread_campaigns[i] != id)
            ==> s.read_campaign(id) == Ok::<Option<CampaignView>, StoreError>(None)
            && !s.has_campaign(id),
        (forall|i: int| 0 <= i < s.creators.len() ==> (#[trigger] s.creators[i]).id != id) && (
        forall|i: int|
            0 <= i < s.unread_creators.len() ==> (#[trigger] s.unread_creators[i]).id != id)
            ==> s.read_creator(id) == Ok::<Option<CreatorView>, StoreError>(None)
            && !s.has_creator(id),
{
    rows::lemma_position(s.submissions, store::submission_is(id));
    rows::lemma_position(s.payouts, store::payout_is(id));
    rows::lemma_position(s.payouts, store::payout_on(id));
    rows::lemma_position(s.campaigns, store::campaign_is(id));
    rows::lemma_position(s.creators, store::creator_is(id));
}

/// The money committed to a campaign is the sum of its payouts, whatever their state, without those
/// of the submission that is left out; of a creator on a campaign, the sum of theirs.
pub proof fn law_the_committed_money(
    s: StoreView,
    campaign: Seq<char>,
    creator: Seq<char>,
    id: Seq<char>,
)
    ensures
        s.campaign_committed(campaign, None) == rows::total(
            s.payouts,
            |p: PayoutRowView|
                if p.record.campaign_id == campaign {
                    p.record.amount_cents as int
                } else {
                    0
                },
        ),
        s.campaign_committed(campaign, Some(id)) == rows::total(
            s.payouts,
            |p: PayoutRowView|
                if p.record.campaign_id == campaign && p.record.submission_id != Some(id) {
                    p.record.amount_cents as int
                } else {
                    0
                },
        ),
        s.creator_committed(campaign, creator, None) == rows::total(
            s.payouts,
            |p: PayoutRowView|
                if p.record.campaign_id == campaign && p.record.creator_id == creator {
                    p.record.amount_cents as int
                } else {
                    0
                },
        ),
        s.creator_committed(campaign, creator, Some(id)) == rows::total(
            s.payouts,
            |p: PayoutRowView|
                if p.record.campaign_id == campaign && p.record.creator_id == creator
                    && p.record.submission_id != Some(id) {
                    p.record.amount_cents as int
                } else {
                    0
                },
        ),
{
    rows::lemma_total_same(
        s.payouts,
        store::campaign_money(campaign, None),
        |p: PayoutRowView|
            if p.record.campaign_id == campaign {
                p.record.amount_cents as int
            } else {
                0
            },
    );
    rows::lemma_total_same(
        s.payouts,
        store::campaign_money(campaign, Some(id)),
        |p: PayoutRowView|
            if p.record.campaign_id == campaign && p.record.submission_id != Some(id) {
                p.record.amount_cents as int
            } else {
                0
            },
    );
    rows::lemma_total_same(
        s.payouts,
        store::creator_money(campaign, creator, None),
        |p: PayoutRowView|
            if p.record.campaign_id == campaign && p.record.creator_id == creator {
                p.record.amount_cents as int
            } else {
                0
            },
    );
    rows::lemma_total_same(
        s.payouts,
        store::creator_money(campaign, creator, Some(id)),
        |p: PayoutRowView|
            if p.record.campaign_id == campaign && p.record.creator_id == creator
                && p.record.submission_id != Some(id) {
                p.record.amount_cents as int
            } else {
                0
            },
    );
}

// ---- writes -----------------------------------------------------------------------------------

/// A campaign that is written takes the place of the one with its id, or stands behind the others;
/// a record of its id that could not be read is gone, nothing else changes, and the change is
/// announced.
pub proof fn law_a_campaign_is_written(s: StoreView, c: CampaignView, i: int)
    requires
        s.wf(),
    ensures
        ({
            let t = s.upsert_campaign(c);
            let fresh = forall|k: int|
                0 <= k < s.campaigns.len() ==> (#[trigger] s.campaigns[k]).id != c.id;
            &&& 0 <= i < s.campaigns.len() && s.campaigns[i].id == c.id ==> t.campaigns
                == s.campaigns.update(i, c)
            &&& fresh ==> t.campaigns == s.campaigns.push(c)
            &&& t == (StoreView {
                campaigns: t.campaigns,
                unread_campaigns: s.unread_campaigns.filter(|id: Seq<char>| id != c.id),
                feed: s.feed.push(UgcEventView::CampaignChanged { campaign: c }),
                ..s
            })
        }),
{
    rows::lemma_position(s.campaigns, store::campaign_is(c.id));
    rows::lemma_kept_is_filter(
        s.unread_campaigns,
        store::not(store::id_is(c.id)),
        |id: Seq<char>| id != c.id,
    );
}

/// A creator who is written takes the place of the one with their id, or stands behind the others;
/// a record of their id that could not be read is gone, and nothing else changes.
pub proof fn law_a_creator_is_written(s: StoreView, c: CreatorView, i: int)
    requires
        s.wf(),
    ensures
        ({
            let t = s.upsert_creator(c);
            let fresh = forall|k: int|
                0 <= k < s.creators.len() ==> (#[trigger] s.creators[k]).id != c.id;
            &&& 0 <= i < s.creators.len() && s.creators[i].id == c.id ==> t.creators
                == s.creators.update(i, c)
            &&& fresh ==> t.creators == s.creators.push(c)
            &&& t == (StoreView {
                creators: t.creators,
                unread_creators: s.unread_creators.filter(|u: UnreadCreatorView| u.id != c.id),
                ..s
            })
        }),
{
    rows::lemma_position(s.creators, store::creator_is(c.id));
    rows::lemma_kept_is_filter(
        s.unread_creators,
        store::not(store::unread_creator_is(c.id)),
        |u: UnreadCreatorView| u.id != c.id,
    );
}

/// A deletion takes the row with the id, readable or not, and is announced where there was one.
pub proof fn law_a_deletion_is_announced(s: StoreView, id: Seq<char>, cascade: bool)
    ensures
        s.delete_campaign(id).unread_campaigns == s.unread_campaigns.filter(
            |t: Seq<char>| t != id,
        ),
        s.delete_campaign(id).feed == if s.has_campaign(id) {
            s.feed.push(UgcEventView::Deleted { entity: "campaign"@, id })
        } else {
            s.feed
        },
        s.delete_creator(id, cascade).creators == s.creators.filter(|c: CreatorView| c.id != id),
        s.delete_creator(id, cascade).unread_creators == s.unread_creators.filter(
            |u: UnreadCreatorView| u.id != id,
        ),
        s.delete_creator(id, cascade).feed == if s.has_creator(id) {
            s.feed.push(UgcEventView::Deleted { entity: "creator"@, id })
        } else {
            s.feed
        },
        s.delete_submission(id).feed == if s.submission(id) is Some {
            s.feed.push(UgcEventView::Deleted { entity: "submission"@, id })
        } else {
            s.feed
        },
        s.has_campaign(id) <==> (exists|i: int|
            0 <= i < s.campaigns.len() && (#[trigger] s.campaigns[i]).id == id) || (exists|i: int|
            0 <= i < s.unread_campaigns.len() && #[trigger] s.unread_campaigns[i] == id),
        s.has_creator(id) <==> (exists|i: int|
            0 <= i < s.creators.len() && (#[trigger] s.creators[i]).id == id) || (exists|i: int|
            0 <= i < s.unread_creators.len() && (#[trigger] s.unread_creators[i]).id == id),
{
    rows::lemma_kept_is_filter(
        s.unread_campaigns,
        store::not(store::id_is(id)),
        |t: Seq<char>| t != id,
    );
    rows::lemma_kept_is_filter(
        s.creators,
        store::not(store::creator_is(id)),
        |c: CreatorView| c.id != id,
    );
    rows::lemma_kept_is_filter(
        s.unread_creators,
        store::not(store::unread_creator_is(id)),
        |u: UnreadCreatorView| u.id != id,
    );
    rows::lemma_position(s.campaigns, store::campaign_is(id));
    rows::lemma_position(s.creators, store::creator_is(id));
    let (p, q) = (store::campaign_is(id), store::creator_is(id));
    if exists|i: int| 0 <= i < s.campaigns.len() && (#[trigger] s.campaigns[i]).id == id {
        let i = choose|i: int| 0 <= i < s.campaigns.len() && (#[trigger] s.campaigns[i]).id == id;
        assert(p(s.campaigns[i]));
    }
    if exists|i: int| 0 <= i < s.creators.len() && (#[trigger] s.creators[i]).id == id {
        let i = choose|i: int| 0 <= i < s.creators.len() && (#[trigger] s.creators[i]).id == id;
        assert(q(s.creators[i]));
    }
    let (u, w) = (store::id_is(id), store::unread_creator_is(id));
    if exists|i: int| 0 <= i < s.unread_campaigns.len() && #[trigger] s.unread_campaigns[i] == id {
        let i = choose|i: int|
            0 <= i < s.unread_campaigns.len() && #[trigger] s.unread_campaigns[i] == id;
        assert(u(s.unread_campaigns[i]));
    }
    if exists|i: int| 0 <= i < s.unread_creators.len() && (#[trigger] s.unread_creators[i]).id == id {
        let i = choose|i: int|
            0 <= i < s.unread_creators.len() && (#[trigger] s.unread_creators[i]).id == id;
        assert(w(s.unread_creators[i]));
    }
    if s.campaign_unread(id) {
        let i = choose|i: int|
            0 <= i < s.unread_campaigns.len() && u(#[trigger] s.unread_campaigns[i]);
        assert(s.unread_campaigns[i] == id);
    }
    if s.creator_unread(id) {
        let i = choose|i: int|
            0 <= i < s.unread_creators.len() && w(#[trigger] s.unread_creators[i]);
        assert(s.unread_creators[i].id == id);
    }
}

/// A submission is written where neither its id nor its post stands already, behind the others and
/// as it is, and is announced; otherwise nothing changes.
pub proof fn law_a_submission_is_written(s: StoreView, new: SubmissionView)
    ensures
        ({
            let t = s.insert_submission(new);
            let taken = exists|i: int|
                0 <= i < s.submissions.len() && {
                    let r = (#[trigger] s.submissions[i]).record;
                    r.id == new.id || (new.external_post_id.len() > 0 && r.campaign_id
                        == new.campaign_id && r.platform == new.platform && r.external_post_id
                        == new.external_post_id)
                };
            &&& taken ==> t == s && s.insert_outcome(new) == WriteOutcome::DuplicatePost
            &&& !taken ==> s.insert_outcome(new) == WriteOutcome::Written && t == (StoreView {
                submissions: s.submissions.push(
                    SubmissionRowView {
                        record: new,
                        status_text: match new.status {
                            SubmissionStatus::Pending => "pending"@,
                            SubmissionStatus::Approved => "approved"@,
                            SubmissionStatus::Rejected => "rejected"@,
                            SubmissionStatus::Paid => "paid"@,
                        },
                    },
                ),
                feed: s.feed.push(UgcEventView::SubmissionChanged { submission: new }),
                ..s
            })
        }),
{
    let p = store::submission_is(new.id);
    let q = store::post_is(new.campaign_id, new.platform, new.external_post_id);
    assert forall|i: int| 0 <= i < s.submissions.len() implies {
        let r = (#[trigger] s.submissions[i]).record;
        p(s.submissions[i]) == (r.id == new.id)
    } by {}
    if rows::any(s.submissions, p) {
        let i = choose|i: int| 0 <= i < s.submissions.len() && p(#[trigger] s.submissions[i]);
        assert(s.submissions[i].record.id == new.id);
    }
    if rows::any(s.submissions, q) {
        let i = choose|i: int| 0 <= i < s.submissions.len() && q(#[trigger] s.submissions[i]);
        assert(s.submissions[i].record.external_post_id == new.external_post_id);
    }
    if exists|i: int|
        0 <= i < s.submissions.len() && {
            let r = (#[trigger] s.submissions[i]).record;
            r.id == new.id || (new.external_post_id.len() > 0 && r.campaign_id == new.campaign_id
                && r.platform == new.platform && r.external_post_id == new.external_post_id)
        } {
        let i = choose|i: int|
            0 <= i < s.submissions.len() && {
                let r = (#[trigger] s.submissions[i]).record;
                r.id == new.id || (new.external_post_id.len() > 0 && r.campaign_id
                    == new.campaign_id && r.platform == new.platform && r.external_post_id
                    == new.external_post_id)
            };
        assert(p(s.submissions[i]) || q(s.submissions[i]));
    }
}

/// A correction rewrites the platform, the URL, the post id and the stamp of the row with the id,
/// and nothing else of it; without such a row, nothing changes.
pub proof fn law_a_submission_is_corrected(s: StoreView, new: SubmissionView, i: int)
    requires
        s.wf(),
        0 <= i < s.submissions.len(),
        s.submissions[i].record.id == new.id,
        s.update_outcome(new) == WriteOutcome::Written,
    ensures
        s.update_submission(new) == (StoreView {
            submissions: s.submissions.update(
                i,
                SubmissionRowView {
                    record: SubmissionView {
                        platform: new.platform,
                        post_url: new.post_url,
                        external_post_id: new.external_post_id,
                        updated_at: new.updated_at,
                        ..s.submissions[i].record
                    },
                    ..s.submissions[i]
                },
            ),
            feed: s.feed.push(UgcEventView::SubmissionChanged { submission: new }),
            ..s
        }),
{
    rows::lemma_position(s.submissions, store::submission_is(new.id));
}

/// A correction of a post that is not there is told so, and one that was refused changes nothing.
pub proof fn law_a_correction_that_is_not_written(s: StoreView, new: SubmissionView)
    ensures
        s.update_outcome(new) != WriteOutcome::Written ==> s.update_submission(new) == s,
        (forall|i: int|
            0 <= i < s.submissions.len() ==> (#[trigger] s.submissions[i]).record.id != new.id)
            ==> s.update_outcome(new) == WriteOutcome::NotFound,
{
    rows::lemma_position(s.submissions, store::submission_is(new.id));
}

/// A snapshot is written behind the others under the next id, as it is, and nothing else changes.
pub proof fn law_a_snapshot_is_written(s: StoreView, m: SnapshotView)
    requires
        s.last_snapshot_id < i64::MAX,
    ensures
        s.insert_snapshot(m) == (StoreView {
            snapshots: s.snapshots.push(
                SnapshotView {
                    id: (s.last_snapshot_id + 1) as i64,
                    submission_id: m.submission_id,
                    captured_at: m.captured_at,
                    views: m.views,
                    likes: m.likes,
                    comments: m.comments,
                    shares: m.shares,
                    saves: m.saves,
                    source: m.source,
                },
            ),
            last_snapshot_id: (s.last_snapshot_id + 1) as i64,
            ..s
        }),
{
}

/// A payout is written as it is where its id is new; where a row has its id, its amount, state,
/// reason and stamps are rewritten, and whose it is and when it accrued stay. The change is
/// announced.
pub proof fn law_a_payout_is_written(s: StoreView, p: PayoutView, i: int)
    requires
        s.wf(),
    ensures
        ({
            let t = s.upsert_payout(p);
            let word = match p.status {
                PayoutStatus::Accrued => "accrued"@,
                PayoutStatus::Approved => "approved"@,
                PayoutStatus::Paid => "paid"@,
            };
            let fresh = forall|k: int|
                0 <= k < s.payouts.len() ==> (#[trigger] s.payouts[k]).record.id != p.id;
            &&& 0 <= i < s.payouts.len() && s.payouts[i].record.id == p.id ==> t.payouts
                == s.payouts.update(
                i,
                PayoutRowView {
                    record: PayoutView {
                        id: p.id,
                        campaign_id: s.payouts[i].record.campaign_id,
                        creator_id: s.payouts[i].record.creator_id,
                        submission_id: s.payouts[i].record.submission_id,
                        accrued_at: s.payouts[i].record.accrued_at,
                        created_at: s.payouts[i].record.created_at,
                        ..p
                    },
                    status_text: word,
                },
            )
            &&& fresh ==> t.payouts == s.payouts.push(
                PayoutRowView { record: p, status_text: word },
            )
            &&& t == (StoreView {
                payouts: t.payouts,
                feed: s.feed.push(UgcEventView::PayoutChanged { payout: p }),
                ..s
            })
        }),
        s.payout_clash(p) <==> p.submission_id is Some && (forall|k: int|
            0 <= k < s.payouts.len() ==> (#[trigger] s.payouts[k]).record.id != p.id) && (exists|
            k: int,
        |
            0 <= k < s.payouts.len() && (#[trigger] s.payouts[k]).record.submission_id
                == p.submission_id),
{
    let (a, b) = (store::payout_is(p.id), store::payout_on(p.submission_id->0));
    rows::lemma_position(s.payouts, a);
    if p.submission_id is Some {
        if exists|k: int|
            0 <= k < s.payouts.len() && (#[trigger] s.payouts[k]).record.submission_id
                == p.submission_id {
            let k = choose|k: int|
                0 <= k < s.payouts.len() && (#[trigger] s.payouts[k]).record.submission_id
                    == p.submission_id;
            assert(b(s.payouts[k]));
        }
        if rows::any(s.payouts, b) {
            let k = choose|k: int| 0 <= k < s.payouts.len() && b(#[trigger] s.payouts[k]);
            assert(s.payouts[k].record.submission_id == p.submission_id);
        }
    }
    assert forall|k: int| 0 <= k < s.payouts.len() implies a(#[trigger] s.payouts[k]) == (
    s.payouts[k].record.id == p.id) by {}
}

/// A payout that moves is stamped for the state that it moves to, and the change is announced;
/// without such a payout nothing changes.
pub proof fn law_a_payout_is_moved(s: StoreView, i: int, now: Seq<char>, other: Seq<char>)
    requires
        s.wf(),
        0 <= i < s.payouts.len(),
    ensures
        ({
            let was = s.payouts[i].record;
            let approved = PayoutView {
                status: PayoutStatus::Approved,
                approved_at: Some(now),
                updated_at: now,
                ..was
            };
            let paid = PayoutView {
                status: PayoutStatus::Paid,
                paid_at: Some(now),
                updated_at: now,
                ..was
            };
            &&& s.set_payout_status(was.id, PayoutStatus::Approved, now) == (StoreView {
                payouts: s.payouts.update(
                    i,
                    PayoutRowView { record: approved, status_text: "approved"@ },
                ),
                feed: s.feed.push(UgcEventView::PayoutChanged { payout: approved }),
                ..s
            })
            &&& s.set_payout_status(was.id, PayoutStatus::Paid, now) == (StoreView {
                payouts: s.payouts.update(i, PayoutRowView { record: paid, status_text: "paid"@ }),
                feed: s.feed.push(UgcEventView::PayoutChanged { payout: paid }),
                ..s
            })
        }),
        (forall|k: int| 0 <= k < s.payouts.len() ==> (#[trigger] s.payouts[k]).record.id != other)
            ==> s.set_payout_status(other, PayoutStatus::Paid, now) == s,
{
    rows::lemma_position(s.payouts, store::payout_is(s.payouts[i].record.id));
    rows::lemma_position(s.payouts, store::payout_is(other));
}

/// To drop the money of a post takes its payouts that are not paid, and nothing else.
pub proof fn law_unpaid_money_is_dropped(s: StoreView, id: Seq<char>)
    ensures
        s.delete_unpaid_payout(id) == (StoreView {
            payouts: s.payouts.filter(
                |p: PayoutRowView|
                    p.record.submission_id != Some(id) || p.record.status == PayoutStatus::Paid,
            ),
            ..s
        }),
{
    rows::lemma_kept_is_filter(
        s.payouts,
        store::not(store::unpaid_on(id)),
        |p: PayoutRowView|
            p.record.submission_id != Some(id) || p.record.status == PayoutStatus::Paid,
    );
}

} // verus!
