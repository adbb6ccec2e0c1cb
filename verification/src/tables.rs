//! The reads and writes of [`UgcStore`], row by row.
use crate::pricing::AccrualInputs;
use crate::records::{
    clone_opt, Campaign, CampaignView, Creator, CreatorView, MetricSnapshot, Payout, PayoutStatus,
    SnapshotView, Submission, SubmissionStatus,
};
use crate::rows;
use crate::rows::{all_pairs, all_rows, find_row, fit_i64, retain_rows, sum_rows};
use crate::store;
use crate::store::{
    PayoutRow, PayoutRowView, StoreError, StoreView, SubmissionRow, SubmissionRowView, UgcEvent,
    UgcStore, UnreadCreator, UnreadCreatorView, WriteOutcome,
};
use crate::text;
use crate::text::{is_blank, str_eq};
use vstd::prelude::*;

verus! {

/// Whether two optional strings are the same.
fn opt_eq(a: &Option<String>, b: &str) -> (r: bool)
    ensures
        r == (a.deep_view() == Some(b@)),
{
    match a {
        Some(s) => str_eq(s.as_str(), b),
        None => false,
    }
}

fn push_event(feed: &mut Vec<UgcEvent>, event: UgcEvent)
    ensures
        final(feed).deep_view() == old(feed).deep_view().push(event.deep_view()),
{
    feed.push(event);
}

/// Puts `row` where `at` says, or after the others.
fn put_row<T: DeepView>(v: &mut Vec<T>, at: Option<usize>, row: T)
    requires
        at is Some ==> at->0 < old(v).len(),
    ensures
        final(v).deep_view() == store::with_row(
            old(v).deep_view(),
            match at {
                Some(i) => Some(i as int),
                None => None,
            },
            row.deep_view(),
        ),
{
    match at {
        Some(i) => {
            v[i] = row;
        },
        None => {
            v.push(row);
        },
    }
}

fn some_text(s: &str) -> (r: Option<String>)
    ensures
        r.deep_view() == Some(s@),
{
    Some(s.to_string())
}

fn text_opt(o: Option<&str>) -> (r: Option<String>)
    ensures
        r.deep_view() == o.deep_view(),
{
    match o {
        Some(s) => Some(s.to_string()),
        None => None,
    }
}

/// Drops the snapshots of every submission that `gone` picks.
fn drop_snapshots<F: Fn(&SubmissionRow) -> bool>(
    snapshots: &mut Vec<MetricSnapshot>,
    submissions: &Vec<SubmissionRow>,
    gone: F,
    g: Ghost<spec_fn(SubmissionRowView) -> bool>,
)
    requires
        forall|r: &SubmissionRow| #[trigger] gone.requires((r,)),
        forall|r: &SubmissionRow, b: bool| #[trigger]
            gone.ensures((r,), b) ==> b == (g@)(r.deep_view()),
    ensures
        final(snapshots).deep_view() == rows::kept(
            old(snapshots).deep_view(),
            store::snapshot_outside(submissions.deep_view(), g@),
        ),
{
    let outside = |m: &MetricSnapshot| -> (b: bool)
        ensures
            b == store::snapshot_outside(submissions.deep_view(), g@)(m.deep_view()),
        {
            let owner = m.submission_id.as_str();
            let owns = |r: &SubmissionRow| -> (b: bool)
                ensures
                    b == store::snapshot_owner(owner@, g@)(r.deep_view()),
                { gone(r) && str_eq(r.record.id.as_str(), owner) };
            find_row(submissions, owns, Ghost(store::snapshot_owner(owner@, g@))).is_none()
        };
    retain_rows(snapshots, outside, Ghost(store::snapshot_outside(submissions.deep_view(), g@)));
}

impl UgcStore {
    /// A store without rows.
    pub fn new() -> (r: Self)
        ensures
            r.deep_view() == (StoreView {
                campaigns: Seq::empty(),
                unread_campaigns: Seq::empty(),
                creators: Seq::empty(),
                unread_creators: Seq::empty(),
                submissions: Seq::empty(),
                snapshots: Seq::empty(),
                payouts: Seq::empty(),
                last_snapshot_id: 0,
                feed: Seq::empty(),
            }),
            r.deep_view().wf(),
    {
        let r = UgcStore {
            campaigns: Vec::new(),
            unread_campaigns: Vec::new(),
            creators: Vec::new(),
            unread_creators: Vec::new(),
            submissions: Vec::new(),
            snapshots: Vec::new(),
            payouts: Vec::new(),
            last_snapshot_id: 0,
            feed: Vec::new(),
        };
        r
    }

    /// Takes in the rows of the five tables. Rows that break a rule of the tables are
    /// refused.
    pub fn load(
        campaigns: Vec<Campaign>,
        unread_campaigns: Vec<String>,
        creators: Vec<Creator>,
        unread_creators: Vec<UnreadCreator>,
        submissions: Vec<SubmissionRow>,
        snapshots: Vec<MetricSnapshot>,
        payouts: Vec<PayoutRow>,
        last_snapshot_id: i64,
    ) -> (r: Result<UgcStore, StoreError>)
        ensures
            ({
                let rows = StoreView {
                    campaigns: campaigns.deep_view(),
                    unread_campaigns: unread_campaigns.deep_view(),
                    creators: creators.deep_view(),
                    unread_creators: unread_creators.deep_view(),
                    submissions: submissions.deep_view(),
                    snapshots: snapshots.deep_view(),
                    payouts: payouts.deep_view(),
                    last_snapshot_id,
                    feed: Seq::empty(),
                };
                if rows.wf() {
                    r is Ok && r->Ok_0.deep_view() == rows
                } else {
                    r == Err::<UgcStore, _>(StoreError::CorruptRows)
                }
            }),
    {
        let feed: Vec<UgcEvent> = Vec::new();
        let s = UgcStore {
            campaigns,
            unread_campaigns,
            creators,
            unread_creators,
            submissions,
            snapshots,
            payouts,
            last_snapshot_id,
            feed,
        };
        if s.keys_hold() && s.unread_hold() && s.posts_hold() && s.reads_hold() {
            Ok(s)
        } else {
            Err(StoreError::CorruptRows)
        }
    }

    fn keys_hold(&self) -> (b: bool)
        ensures
            b == ({
                let s = self.deep_view();
                &&& rows::distinct(s.campaigns, store::campaign_key())
                &&& rows::distinct(s.creators, store::creator_key())
                &&& rows::distinct(s.submissions, store::submission_key())
                &&& rows::distinct(s.snapshots, store::snapshot_key())
                &&& rows::distinct(s.payouts, store::payout_key())
            }),
    {
        let campaigns = all_pairs(
            &self.campaigns,
            (|a: &Campaign, b: &Campaign| -> (r: bool)
                ensures
                    r == (a.deep_view().id != b.deep_view().id),
                { !str_eq(a.id.as_str(), b.id.as_str()) }),
            Ghost(|a: CampaignView, b: CampaignView| a.id != b.id),
        );
        let creators = all_pairs(
            &self.creators,
            (|a: &Creator, b: &Creator| -> (r: bool)
                ensures
                    r == (a.deep_view().id != b.deep_view().id),
                { !str_eq(a.id.as_str(), b.id.as_str()) }),
            Ghost(|a: CreatorView, b: CreatorView| a.id != b.id),
        );
        let submissions = all_pairs(
            &self.submissions,
            (|a: &SubmissionRow, b: &SubmissionRow| -> (r: bool)
                ensures
                    r == (a.deep_view().record.id != b.deep_view().record.id),
                { !str_eq(a.record.id.as_str(), b.record.id.as_str()) }),
            Ghost(|a: SubmissionRowView, b: SubmissionRowView| a.record.id != b.record.id),
        );
        let snapshots = all_pairs(
            &self.snapshots,
            (|a: &MetricSnapshot, b: &MetricSnapshot| -> (r: bool)
                ensures
                    r == (a.deep_view().id != b.deep_view().id),
                { a.id != b.id }),
            Ghost(|a: SnapshotView, b: SnapshotView| a.id != b.id),
        );
        let payouts = all_pairs(
            &self.payouts,
            (|a: &PayoutRow, b: &PayoutRow| -> (r: bool)
                ensures
                    r == (a.deep_view().record.id != b.deep_view().record.id),
                { !str_eq(a.record.id.as_str(), b.record.id.as_str()) }),
            Ghost(|a: PayoutRowView, b: PayoutRowView| a.record.id != b.record.id),
        );
        campaigns && creators && submissions && snapshots && payouts
    }

    fn unread_hold(&self) -> (b: bool)
        ensures
            b == ({
                let s = self.deep_view();
                &&& rows::distinct(s.unread_campaigns, store::unread_campaign_key())
                &&& rows::distinct(s.unread_creators, store::unread_creator_key())
                &&& rows::every(s.unread_campaigns, store::no_campaign(s.campaigns))
                &&& rows::every(s.unread_creators, store::no_creator(s.creators))
            }),
    {
        let campaigns = all_pairs(
            &self.unread_campaigns,
            (|a: &String, b: &String| -> (r: bool)
                ensures
                    r == (a.deep_view() != b.deep_view()),
                { !str_eq(a.as_str(), b.as_str()) }),
            Ghost(|a: Seq<char>, b: Seq<char>| a != b),
        );
        let creators = all_pairs(
            &self.unread_creators,
            (|a: &UnreadCreator, b: &UnreadCreator| -> (r: bool)
                ensures
                    r == (a.deep_view().id != b.deep_view().id),
                { !str_eq(a.id.as_str(), b.id.as_str()) }),
            Ghost(|a: UnreadCreatorView, b: UnreadCreatorView| a.id != b.id),
        );
        let apart_campaigns = all_rows(
            &self.unread_campaigns,
            (|id: &String| -> (b: bool)
                ensures
                    b == store::no_campaign(self.deep_view().campaigns)(id.deep_view()),
                { self.campaign_at(id.as_str()).is_none() }),
            Ghost(store::no_campaign(self.deep_view().campaigns)),
        );
        let apart_creators = all_rows(
            &self.unread_creators,
            (|c: &UnreadCreator| -> (b: bool)
                ensures
                    b == store::no_creator(self.deep_view().creators)(c.deep_view()),
                { self.creator_at(c.id.as_str()).is_none() }),
            Ghost(store::no_creator(self.deep_view().creators)),
        );
        campaigns && creators && apart_campaigns && apart_creators
    }

    fn posts_hold(&self) -> (b: bool)
        ensures
            b == (store::posts_distinct(self.deep_view().submissions) && store::payouts_distinct(
                self.deep_view().payouts,
            )),
    {
        let posts = all_pairs(
            &self.submissions,
            (|a: &SubmissionRow, b: &SubmissionRow| -> (r: bool)
                ensures
                    r == store::posts_apart()(a.deep_view(), b.deep_view()),
                {
                    a.record.external_post_id.as_str().is_empty() || !str_eq(
                        a.record.campaign_id.as_str(),
                        b.record.campaign_id.as_str(),
                    ) || !str_eq(a.record.platform.as_str(), b.record.platform.as_str()) || !str_eq(
                        a.record.external_post_id.as_str(),
                        b.record.external_post_id.as_str(),
                    )
                }),
            Ghost(store::posts_apart()),
        );
        let payouts = all_pairs(
            &self.payouts,
            (|a: &PayoutRow, b: &PayoutRow| -> (r: bool)
                ensures
                    r == store::payouts_apart()(a.deep_view(), b.deep_view()),
                {
                    match &a.record.submission_id {
                        Some(sid) => !opt_eq(&b.record.submission_id, sid.as_str()),
                        None => true,
                    }
                }),
            Ghost(store::payouts_apart()),
        );
        posts && payouts
    }

    fn reads_hold(&self) -> (b: bool)
        ensures
            b == ({
                let s = self.deep_view();
                &&& rows::every(s.submissions, store::submission_reads())
                &&& rows::every(s.payouts, store::payout_reads())
                &&& rows::every(s.snapshots, store::snapshot_numbered(s.last_snapshot_id))
                &&& 0 <= s.last_snapshot_id
            }),
    {
        let last: i64 = self.last_snapshot_id;
        let submissions = all_rows(
            &self.submissions,
            (|r: &SubmissionRow| -> (b: bool)
                ensures
                    b == store::submission_reads()(r.deep_view()),
                { r.record.status == SubmissionStatus::from_db(r.status_text.as_str()) }),
            Ghost(store::submission_reads()),
        );
        let payouts = all_rows(
            &self.payouts,
            (|p: &PayoutRow| -> (b: bool)
                ensures
                    b == store::payout_reads()(p.deep_view()),
                { p.record.status == PayoutStatus::from_db(p.status_text.as_str()) }),
            Ghost(store::payout_reads()),
        );
        let snapshots = all_rows(
            &self.snapshots,
            (|m: &MetricSnapshot| -> (b: bool)
                ensures
                    b == store::snapshot_numbered(last)(m.deep_view()),
                { 1 <= m.id && m.id <= last }),
            Ghost(store::snapshot_numbered(last)),
        );
        submissions && payouts && snapshots && 0 <= last
    }

    /// Takes the changes that have not been pushed to live viewers yet.
    pub fn take_feed(&mut self) -> (out: Vec<UgcEvent>)
        ensures
            out.deep_view() == old(self).deep_view().feed,
            final(self).deep_view() == (StoreView {
                feed: Seq::empty(),
                ..old(self).deep_view()
            }),
    {
        let mut out: Vec<UgcEvent> = Vec::new();
        std::mem::swap(&mut out, &mut self.feed);
        out
    }

    // ---- where a row stands ---------------------------------------------------------------

    pub(crate) fn campaign_at(&self, id: &str) -> (r: Option<usize>)
        ensures
            match r {
                Some(i) => i < self.campaigns.len() && rows::position(
                    self.deep_view().campaigns,
                    store::campaign_is(id@),
                ) == Some(i as int),
                None => rows::position(self.deep_view().campaigns, store::campaign_is(id@)) is None,
            },
            r is Some <==> rows::any(self.deep_view().campaigns, store::campaign_is(id@)),
    {
        find_row(
            &self.campaigns,
            |c: &Campaign| -> (b: bool)
                ensures
                    b == (c.deep_view().id == id@)
                { str_eq(c.id.as_str(), id) },
            Ghost(store::campaign_is(id@)),
        )
    }

    pub(crate) fn creator_at(&self, id: &str) -> (r: Option<usize>)
        ensures
            match r {
                Some(i) => i < self.creators.len() && rows::position(
                    self.deep_view().creators,
                    store::creator_is(id@),
                ) == Some(i as int),
                None => rows::position(self.deep_view().creators, store::creator_is(id@)) is None,
            },
            r is Some <==> rows::any(self.deep_view().creators, store::creator_is(id@)),
    {
        find_row(
            &self.creators,
            |c: &Creator| -> (b: bool)
                ensures
                    b == (c.deep_view().id == id@)
                { str_eq(c.id.as_str(), id) },
            Ghost(store::creator_is(id@)),
        )
    }

    fn campaign_unread(&self, id: &str) -> (b: bool)
        ensures
            b == self.deep_view().campaign_unread(id@),
    {
        find_row(
            &self.unread_campaigns,
            |t: &String| -> (b: bool)
                ensures
                    b == (t.deep_view() == id@)
                { str_eq(t.as_str(), id) },
            Ghost(store::id_is(id@)),
        ).is_some()
    }

    fn unread_creator_at(&self, id: &str) -> (r: Option<usize>)
        ensures
            match r {
                Some(i) => i < self.unread_creators.len() && rows::position(
                    self.deep_view().unread_creators,
                    store::unread_creator_is(id@),
                ) == Some(i as int),
                None => rows::position(
                    self.deep_view().unread_creators,
                    store::unread_creator_is(id@),
                ) is None,
            },
            r is Some <==> self.deep_view().creator_unread(id@),
    {
        find_row(
            &self.unread_creators,
            |c: &UnreadCreator| -> (b: bool)
                ensures
                    b == (c.deep_view().id == id@)
                { str_eq(c.id.as_str(), id) },
            Ghost(store::unread_creator_is(id@)),
        )
    }

    /// The stored name of a creator, which needs no readable record.
    pub(crate) fn creator_name(&self, id: &str) -> (r: String)
        ensures
            r@ == self.deep_view().creator_name(id@),
    {
        match self.creator_at(id) {
            Some(i) => self.creators[i].display_name.clone(),
            None => match self.unread_creator_at(id) {
                Some(i) => self.unread_creators[i].display_name.clone(),
                None => String::new(),
            },
        }
    }

    pub(crate) fn submission_at(&self, id: &str) -> (r: Option<usize>)
        ensures
            match r {
                Some(i) => i < self.submissions.len() && rows::position(
                    self.deep_view().submissions,
                    store::submission_is(id@),
                ) == Some(i as int),
                None => rows::position(self.deep_view().submissions, store::submission_is(id@))
                    is None && !rows::any(
                    self.deep_view().submissions,
                    store::submission_is(id@),
                ),
            },
    {
        find_row(
            &self.submissions,
            |r: &SubmissionRow| -> (b: bool)
                ensures
                    b == (r.deep_view().record.id == id@)
                { str_eq(r.record.id.as_str(), id) },
            Ghost(store::submission_is(id@)),
        )
    }

    pub(crate) fn payout_at(&self, id: &str) -> (r: Option<usize>)
        ensures
            match r {
                Some(i) => i < self.payouts.len() && rows::position(
                    self.deep_view().payouts,
                    store::payout_is(id@),
                ) == Some(i as int),
                None => rows::position(self.deep_view().payouts, store::payout_is(id@)) is None,
            },
    {
        find_row(
            &self.payouts,
            |p: &PayoutRow| -> (b: bool)
                ensures
                    b == (p.deep_view().record.id == id@)
                { str_eq(p.record.id.as_str(), id) },
            Ghost(store::payout_is(id@)),
        )
    }

    pub(crate) fn payout_on_at(&self, id: &str) -> (r: Option<usize>)
        ensures
            match r {
                Some(i) => i < self.payouts.len() && rows::position(
                    self.deep_view().payouts,
                    store::payout_on(id@),
                ) == Some(i as int),
                None => rows::position(self.deep_view().payouts, store::payout_on(id@)) is None
                    && !rows::any(self.deep_view().payouts, store::payout_on(id@)),
            },
    {
        find_row(
            &self.payouts,
            |p: &PayoutRow| -> (b: bool)
                ensures
                    b == (p.deep_view().record.submission_id == Some(id@))
                { opt_eq(&p.record.submission_id, id) },
            Ghost(store::payout_on(id@)),
        )
    }

    // ---- campaigns ---------------------------------------------------------------------------

    /// Inserts or replaces a campaign, and announces it.
    pub fn upsert_campaign(&mut self, campaign: &Campaign)
        requires
            old(self).deep_view().wf(),
        ensures
            final(self).deep_view() == old(self).deep_view().upsert_campaign(campaign.deep_view()),
            final(self).deep_view().wf(),
    {
        proof {
            store::law_upsert_campaign_keeps_rules(self.deep_view(), campaign.deep_view());
        }
        let at = self.campaign_at(campaign.id.as_str());
        put_row(&mut self.campaigns, at, campaign.clone());
        retain_rows(
            &mut self.unread_campaigns,
            |t: &String| -> (b: bool)
                ensures
                    b == (t.deep_view() != campaign.id@)
                { !str_eq(t.as_str(), campaign.id.as_str()) },
            Ghost(store::not(store::id_is(campaign.id@))),
        );
        push_event(
            &mut self.feed,
            UgcEvent::CampaignChanged { campaign: Box::new(campaign.clone()) },
        );
    }

    /// Fetches a campaign by id.
    pub fn get_campaign(&self, id: &str) -> (r: Result<Option<Campaign>, StoreError>)
        ensures
            match self.deep_view().read_campaign(id@) {
                Ok(c) => r is Ok && r->Ok_0.deep_view() == c,
                Err(e) => r is Err && r->Err_0 == e,
            },
    {
        if self.campaign_unread(id) {
            return Err(StoreError::DeserializingCampaign);
        }
        match self.campaign_at(id) {
            Some(i) => Ok(Some(self.campaigns[i].clone())),
            None => Ok(None),
        }
    }

    /// Deletes a campaign and everything hanging off it: its submissions, their snapshots
    /// and its payouts. Tells whether there was such a campaign.
    pub fn delete_campaign(&mut self, id: &str) -> (removed: bool)
        requires
            old(self).deep_view().wf(),
        ensures
            removed == old(self).deep_view().has_campaign(id@),
            final(self).deep_view() == old(self).deep_view().delete_campaign(id@),
            final(self).deep_view().wf(),
    {
        proof {
            store::law_delete_campaign_keeps_rules(self.deep_view(), id@);
        }
        let removed = self.campaign_at(id).is_some() || self.campaign_unread(id);
        retain_rows(
            &mut self.unread_campaigns,
            |t: &String| -> (b: bool)
                ensures
                    b == (t.deep_view() != id@)
                { !str_eq(t.as_str(), id) },
            Ghost(store::not(store::id_is(id@))),
        );
        retain_rows(
            &mut self.campaigns,
            |c: &Campaign| -> (b: bool)
                ensures
                    b == (c.deep_view().id != id@)
                { !str_eq(c.id.as_str(), id) },
            Ghost(store::not(store::campaign_is(id@))),
        );
        drop_snapshots(
            &mut self.snapshots,
            &self.submissions,
            |r: &SubmissionRow| -> (b: bool)
                ensures
                    b == (r.deep_view().record.campaign_id == id@)
                { str_eq(r.record.campaign_id.as_str(), id) },
            Ghost(store::in_campaign(id@)),
        );
        retain_rows(
            &mut self.submissions,
            |r: &SubmissionRow| -> (b: bool)
                ensures
                    b == (r.deep_view().record.campaign_id != id@)
                { !str_eq(r.record.campaign_id.as_str(), id) },
            Ghost(store::not(store::in_campaign(id@))),
        );
        retain_rows(
            &mut self.payouts,
            |p: &PayoutRow| -> (b: bool)
                ensures
                    b == (p.deep_view().record.campaign_id != id@)
                { !str_eq(p.record.campaign_id.as_str(), id) },
            Ghost(store::not(store::payout_in(id@))),
        );
        if removed {
            push_event(
                &mut self.feed,
                UgcEvent::Deleted { entity: "campaign".to_string(), id: id.to_string() },
            );
        }
        removed
    }

    // ---- creators ----------------------------------------------------------------------------

    /// Inserts or replaces a creator.
    pub fn upsert_creator(&mut self, creator: &Creator)
        requires
            old(self).deep_view().wf(),
        ensures
            final(self).deep_view() == old(self).deep_view().upsert_creator(creator.deep_view()),
            final(self).deep_view().wf(),
    {
        proof {
            store::law_upsert_creator_keeps_rules(self.deep_view(), creator.deep_view());
        }
        let at = self.creator_at(creator.id.as_str());
        put_row(&mut self.creators, at, creator.clone());
        retain_rows(
            &mut self.unread_creators,
            |c: &UnreadCreator| -> (b: bool)
                ensures
                    b == (c.deep_view().id != creator.id@)
                { !str_eq(c.id.as_str(), creator.id.as_str()) },
            Ghost(store::not(store::unread_creator_is(creator.id@))),
        );
    }

    /// Fetches a creator by id.
    pub fn get_creator(&self, id: &str) -> (r: Result<Option<Creator>, StoreError>)
        ensures
            match self.deep_view().read_creator(id@) {
                Ok(c) => r is Ok && r->Ok_0.deep_view() == c,
                Err(e) => r is Err && r->Err_0 == e,
            },
    {
        if self.unread_creator_at(id).is_some() {
            return Err(StoreError::DeserializingCreator);
        }
        match self.creator_at(id) {
            Some(i) => Ok(Some(self.creators[i].clone())),
            None => Ok(None),
        }
    }

    /// Deletes a creator. Without `cascade` only the roster row goes; with it, their
    /// submissions, those submissions' snapshots and their payouts go too. Tells whether
    /// there was such a creator.
    pub fn delete_creator(&mut self, id: &str, cascade: bool) -> (removed: bool)
        requires
            old(self).deep_view().wf(),
        ensures
            removed == old(self).deep_view().has_creator(id@),
            final(self).deep_view() == old(self).deep_view().delete_creator(id@, cascade),
            final(self).deep_view().wf(),
    {
        proof {
            store::law_delete_creator_keeps_rules(self.deep_view(), id@, cascade);
        }
        let removed = self.creator_at(id).is_some() || self.unread_creator_at(id).is_some();
        let others = |c: &Creator| -> (b: bool)
            ensures
                b == (c.deep_view().id != id@),
            { !str_eq(c.id.as_str(), id) };
        retain_rows(&mut self.creators, others, Ghost(store::not(store::creator_is(id@))));
        retain_rows(
            &mut self.unread_creators,
            |c: &UnreadCreator| -> (b: bool)
                ensures
                    b == (c.deep_view().id != id@)
                { !str_eq(c.id.as_str(), id) },
            Ghost(store::not(store::unread_creator_is(id@))),
        );
        if cascade {
            let theirs = |r: &SubmissionRow| -> (b: bool)
                ensures
                    b == (r.deep_view().record.creator_id == id@),
                { str_eq(r.record.creator_id.as_str(), id) };
            drop_snapshots(
                &mut self.snapshots,
                &self.submissions,
                theirs,
                Ghost(store::by_creator(id@)),
            );
            let not_theirs = |r: &SubmissionRow| -> (b: bool)
                ensures
                    b == (r.deep_view().record.creator_id != id@),
                { !str_eq(r.record.creator_id.as_str(), id) };
            retain_rows(
                &mut self.submissions,
                not_theirs,
                Ghost(store::not(store::by_creator(id@))),
            );
            let elsewhere = |p: &PayoutRow| -> (b: bool)
                ensures
                    b == (p.deep_view().record.creator_id != id@),
                { !str_eq(p.record.creator_id.as_str(), id) };
            retain_rows(&mut self.payouts, elsewhere, Ghost(store::not(store::payout_to(id@))));
        }
        if removed {
            push_event(
                &mut self.feed,
                UgcEvent::Deleted { entity: "creator".to_string(), id: id.to_string() },
            );
        }
        removed
    }

    // ---- submissions -------------------------------------------------------------------------

    fn post_taken(&self, campaign_id: &str, platform: &str, post_id: &str) -> (r: Option<usize>)
        ensures
            match r {
                Some(i) => i < self.submissions.len() && rows::position(
                    self.deep_view().submissions,
                    store::post_is(campaign_id@, platform@, post_id@),
                ) == Some(i as int) && rows::any(
                    self.deep_view().submissions,
                    store::post_is(campaign_id@, platform@, post_id@),
                ),
                None => rows::position(
                    self.deep_view().submissions,
                    store::post_is(campaign_id@, platform@, post_id@),
                ) is None && !rows::any(
                    self.deep_view().submissions,
                    store::post_is(campaign_id@, platform@, post_id@),
                ),
            },
    {
        let points_there = |r: &SubmissionRow| -> (b: bool)
            ensures
                b == store::post_is(campaign_id@, platform@, post_id@)(r.deep_view()),
            {
                !post_id.is_empty() && str_eq(r.record.campaign_id.as_str(), campaign_id)
                    && str_eq(r.record.platform.as_str(), platform) && str_eq(
                    r.record.external_post_id.as_str(),
                    post_id,
                )
            };
        let at = find_row(
            &self.submissions,
            points_there,
            Ghost(store::post_is(campaign_id@, platform@, post_id@)),
        );
        at
    }

    /// Records a new submission, and announces it.
    ///
    /// [`WriteOutcome::DuplicatePost`] means that the post already stands in the campaign, or
    /// that the id is taken; nothing is written then.
    pub fn insert_submission(&mut self, s: &Submission) -> (outcome: WriteOutcome)
        requires
            old(self).deep_view().wf(),
        ensures
            outcome == old(self).deep_view().insert_outcome(s.deep_view()),
            final(self).deep_view() == old(self).deep_view().insert_submission(s.deep_view()),
            final(self).deep_view().wf(),
    {
        proof {
            store::law_insert_submission_keeps_rules(self.deep_view(), s.deep_view());
        }
        if self.submission_at(s.id.as_str()).is_some() {
            return WriteOutcome::DuplicatePost;
        }
        if self.post_taken(
            s.campaign_id.as_str(),
            s.platform.as_str(),
            s.external_post_id.as_str(),
        ).is_some() {
            return WriteOutcome::DuplicatePost;
        }
        put_row(&mut self.submissions, None, store::row_of_submission(s));
        push_event(
            &mut self.feed,
            UgcEvent::SubmissionChanged { submission: Box::new(s.clone()) },
        );
        WriteOutcome::Written
    }

    /// Rewrites a submission's correctable fields: platform, post url and parsed post id.
    /// The review state is not touched, so an edit can never silently approve a post.
    pub fn update_submission(&mut self, s: &Submission) -> (outcome: WriteOutcome)
        requires
            old(self).deep_view().wf(),
        ensures
            outcome == old(self).deep_view().update_outcome(s.deep_view()),
            final(self).deep_view() == old(self).deep_view().update_submission(s.deep_view()),
            final(self).deep_view().wf(),
    {
        let ghost before = self.deep_view();
        let at: usize = match self.submission_at(s.id.as_str()) {
            Some(i) => i,
            None => {
                return WriteOutcome::NotFound;
            },
        };
        let ghost post = store::post_is(
            before.submissions[at as int].record.campaign_id,
            s.platform@,
            s.external_post_id@,
        );
        let mut j: usize = 0;
        while j < self.submissions.len()
            invariant
                before == self.deep_view(),
                before == old(self).deep_view(),
                before.wf(),
                rows::position(before.submissions, store::submission_is(s.id@)) == Some(at as int),
                at < self.submissions.len(),
                j <= self.submissions.len(),
                post == store::post_is(
                    before.submissions[at as int].record.campaign_id,
                    s.platform@,
                    s.external_post_id@,
                ),
                forall|k: int| 0 <= k < j && k != at ==> !post(#[trigger] before.submissions[k]),
            decreases self.submissions.len() - j,
        {
            let there = &self.submissions[j].record;
            if j != at && !s.external_post_id.as_str().is_empty() && str_eq(
                there.campaign_id.as_str(),
                self.submissions[at].record.campaign_id.as_str(),
            ) && str_eq(there.platform.as_str(), s.platform.as_str()) && str_eq(
                there.external_post_id.as_str(),
                s.external_post_id.as_str(),
            ) {
                assert(post(before.submissions[j as int]));
                return WriteOutcome::DuplicatePost;
            }
            j += 1;
        }
        let mut record = self.submissions[at].record.clone();
        record.platform = s.platform.clone();
        record.post_url = s.post_url.clone();
        record.external_post_id = s.external_post_id.clone();
        record.updated_at = s.updated_at.clone();
        let status_text = self.submissions[at].status_text.clone();
        put_row(&mut self.submissions, Some(at), SubmissionRow { record, status_text });
        push_event(
            &mut self.feed,
            UgcEvent::SubmissionChanged { submission: Box::new(s.clone()) },
        );
        WriteOutcome::Written
    }

    /// Moves a submission to a new review state, stamping `reviewed_at` and
    /// `rejection_reason` as given. Returns the stored row, or `None` where there is none.
    pub fn set_submission_status(
        &mut self,
        id: &str,
        status: SubmissionStatus,
        reviewed_at: Option<&str>,
        rejection_reason: Option<&str>,
        updated_at: &str,
    ) -> (r: Option<Submission>)
        requires
            old(self).deep_view().wf(),
        ensures
            final(self).deep_view() == old(self).deep_view().set_submission_status(
                id@,
                status,
                reviewed_at.deep_view(),
                rejection_reason.deep_view(),
                updated_at@,
            ),
            r.deep_view() == final(self).deep_view().submission(id@),
            r is Some <==> old(self).deep_view().submission(id@) is Some,
            final(self).deep_view().wf(),
    {
        proof {
            store::law_set_submission_status_keeps_rules(
                self.deep_view(),
                id@,
                status,
                reviewed_at.deep_view(),
                rejection_reason.deep_view(),
                updated_at@,
            );
        }
        let at: usize = match self.submission_at(id) {
            Some(i) => i,
            None => {
                return None;
            },
        };
        let mut record = self.submissions[at].record.clone();
        record.status = status;
        record.reviewed_at = text_opt(reviewed_at);
        record.rejection_reason = text_opt(rejection_reason);
        record.updated_at = updated_at.to_string();
        put_row(&mut self.submissions, Some(at), store::row_of_submission(&record));
        push_event(
            &mut self.feed,
            UgcEvent::SubmissionChanged { submission: Box::new(record.clone()) },
        );
        proof {
            let after = self.deep_view();
            rows::lemma_only(
                after.submissions,
                store::submission_key(),
                store::submission_is(id@),
                id@,
                at as int,
            );
        }
        Some(record)
    }

    /// Fetches a submission by id.
    pub fn get_submission(&self, id: &str) -> (r: Option<Submission>)
        ensures
            r.deep_view() == self.deep_view().submission(id@),
    {
        match self.submission_at(id) {
            Some(i) => {
                Some(self.submissions[i].record.clone())
            },
            None => None,
        }
    }

    /// Finds a submission by the post it points at. A blank post id identifies no post.
    pub fn find_submission_by_post(
        &self,
        campaign_id: &str,
        platform: &str,
        external_post_id: &str,
    ) -> (r: Option<Submission>)
        ensures
            r.deep_view() == (if text::blank(external_post_id@) {
                None
            } else {
                match rows::found(
                    self.deep_view().submissions,
                    store::post_is(campaign_id@, platform@, external_post_id@),
                ) {
                    Some(row) => Some(row.record),
                    None => None,
                }
            }),
    {
        if is_blank(external_post_id) {
            return None;
        }
        match self.post_taken(campaign_id, platform, external_post_id) {
            Some(i) => {
                Some(self.submissions[i].record.clone())
            },
            None => None,
        }
    }

    /// Deletes a submission plus its snapshots and its payout row. Tells whether there was
    /// such a submission.
    pub fn delete_submission(&mut self, id: &str) -> (removed: bool)
        requires
            old(self).deep_view().wf(),
        ensures
            removed == (old(self).deep_view().submission(id@) is Some),
            final(self).deep_view() == old(self).deep_view().delete_submission(id@),
            final(self).deep_view().wf(),
    {
        proof {
            store::law_delete_submission_keeps_rules(self.deep_view(), id@);
        }
        let removed = self.submission_at(id).is_some();
        let other_snapshot = |m: &MetricSnapshot| -> (b: bool)
            ensures
                b == (m.deep_view().submission_id != id@),
            { !str_eq(m.submission_id.as_str(), id) };
        retain_rows(&mut self.snapshots, other_snapshot, Ghost(store::not(store::snapshot_of(id@))));
        let other_payout = |p: &PayoutRow| -> (b: bool)
            ensures
                b == (p.deep_view().record.submission_id != Some(id@)),
            { !opt_eq(&p.record.submission_id, id) };
        retain_rows(&mut self.payouts, other_payout, Ghost(store::not(store::payout_on(id@))));
        let others = |r: &SubmissionRow| -> (b: bool)
            ensures
                b == (r.deep_view().record.id != id@),
            { !str_eq(r.record.id.as_str(), id) };
        retain_rows(&mut self.submissions, others, Ghost(store::not(store::submission_is(id@))));
        if removed {
            push_event(
                &mut self.feed,
                UgcEvent::Deleted { entity: "submission".to_string(), id: id.to_string() },
            );
        }
        removed
    }

    // ---- metric snapshots --------------------------------------------------------------------

    /// Appends a snapshot, returning its generated id.
    pub fn insert_snapshot(&mut self, m: &MetricSnapshot) -> (r: Result<i64, StoreError>)
        requires
            old(self).deep_view().wf(),
        ensures
            old(self).deep_view().last_snapshot_id < i64::MAX ==> r is Ok && r->Ok_0
                == final(self).deep_view().last_snapshot_id && final(self).deep_view() == old(
                self,
            ).deep_view().insert_snapshot(m.deep_view()),
            old(self).deep_view().last_snapshot_id == i64::MAX ==> r == Err::<i64, _>(
                StoreError::InsertingSnapshot,
            ) && final(self).deep_view() == old(self).deep_view(),
            final(self).deep_view().wf(),
    {
        if self.last_snapshot_id == i64::MAX {
            return Err(StoreError::InsertingSnapshot);
        }
        let id: i64 = self.last_snapshot_id + 1;
        let mut row = m.clone();
        row.id = id;
        put_row(&mut self.snapshots, None, row);
        self.last_snapshot_id = id;
        Ok(id)
    }

    /// The submission's most recent counters, the figure every payout is priced against.
    pub fn latest_snapshot(&self, submission_id: &str) -> (r: Option<MetricSnapshot>)
        requires
            self.deep_view().wf(),
        ensures
            r.deep_view() == self.deep_view().latest(submission_id@),
    {
        let ghost s = self.deep_view().snapshots;
        let mut best: Option<usize> = None;
        let mut i: usize = 0;
        while i < self.snapshots.len()
            invariant
                s == self.deep_view().snapshots,
                i <= self.snapshots.len(),
                best is Some ==> best->0 < i && s[best->0 as int].submission_id == submission_id@,
                best is Some ==> forall|k: int|
                    0 <= k < i && (#[trigger] s[k]).submission_id == submission_id@ ==> s[k].id
                        <= s[best->0 as int].id,
                best is None ==> forall|k: int|
                    0 <= k < i ==> (#[trigger] s[k]).submission_id != submission_id@,
            decreases self.snapshots.len() - i,
        {
            if str_eq(self.snapshots[i].submission_id.as_str(), submission_id) {
                let newer: bool = match best {
                    Some(b) => {
                        self.snapshots[b].id <= self.snapshots[i].id
                    },
                    None => true,
                };
                if newer {
                    best = Some(i);
                }
            }
            i += 1;
        }
        match best {
            Some(b) => {
                proof {
                    store::lemma_newest(self.deep_view(), submission_id@, b as int);
                }
                Some(self.snapshots[b].clone())
            },
            None => {
                None
            },
        }
    }

    // ---- payouts ------------------------------------------------------------------------------

    /// Inserts a payout row, or re-prices the one that has its id, and announces it. A second
    /// row for the same submission is refused.
    pub fn upsert_payout(&mut self, p: &Payout) -> (r: Result<(), StoreError>)
        requires
            old(self).deep_view().wf(),
        ensures
            old(self).deep_view().payout_clash(p.deep_view()) ==> r == Err::<(), _>(
                StoreError::UpsertingPayout,
            ) && final(self).deep_view() == old(self).deep_view(),
            !old(self).deep_view().payout_clash(p.deep_view()) ==> r is Ok
                && final(self).deep_view() == old(self).deep_view().upsert_payout(p.deep_view()),
            final(self).deep_view().wf(),
    {
        let ghost before = self.deep_view();
        let at = self.payout_at(p.id.as_str());
        let record: Payout = match at {
            Some(i) => {
                let mut record = self.payouts[i].record.clone();
                record.amount_cents = p.amount_cents;
                record.status = p.status;
                record.reason = p.reason.clone();
                record.approved_at = clone_opt(&p.approved_at);
                record.paid_at = clone_opt(&p.paid_at);
                record.updated_at = p.updated_at.clone();
                record
            },
            None => {
                match &p.submission_id {
                    Some(sid) => {
                        if self.payout_on_at(sid.as_str()).is_some() {
                            return Err(StoreError::UpsertingPayout);
                        }
                    },
                    None => {},
                }
                p.clone()
            },
        };
        proof {
            store::law_upsert_payout_keeps_rules(before, p.deep_view());
        }
        put_row(&mut self.payouts, at, store::row_of_payout(&record));
        push_event(&mut self.feed, UgcEvent::PayoutChanged { payout: Box::new(p.clone()) });
        Ok(())
    }

    /// Fetches a payout by id.
    pub fn get_payout(&self, id: &str) -> (r: Option<Payout>)
        ensures
            r.deep_view() == self.deep_view().payout(id@),
    {
        match self.payout_at(id) {
            Some(i) => {
                Some(self.payouts[i].record.clone())
            },
            None => None,
        }
    }

    /// The payout row attached to a submission, if the accrual pass made one.
    pub fn payout_for_submission(&self, submission_id: &str) -> (r: Option<Payout>)
        ensures
            r.deep_view() == self.deep_view().payout_of(submission_id@),
    {
        match self.payout_on_at(submission_id) {
            Some(i) => {
                Some(self.payouts[i].record.clone())
            },
            None => None,
        }
    }

    /// Moves a payout to a new state, stamping the matching timestamp. Returns the stored row,
    /// or `None` where there is none.
    ///
    /// The order `accrued -> approved -> paid` is the caller's to keep.
    pub fn set_payout_status(&mut self, id: &str, status: PayoutStatus, stamp: &str) -> (r: Option<
        Payout,
    >)
        requires
            old(self).deep_view().wf(),
        ensures
            final(self).deep_view() == old(self).deep_view().set_payout_status(id@, status, stamp@),
            r.deep_view() == final(self).deep_view().payout(id@),
            r is Some <==> old(self).deep_view().payout(id@) is Some,
            final(self).deep_view().wf(),
    {
        proof {
            store::law_set_payout_status_keeps_rules(self.deep_view(), id@, status, stamp@);
        }
        let at: usize = match self.payout_at(id) {
            Some(i) => i,
            None => {
                return None;
            },
        };
        let mut record = self.payouts[at].record.clone();
        record.status = status;
        match status {
            PayoutStatus::Accrued => {},
            PayoutStatus::Approved => {
                record.approved_at = some_text(stamp);
            },
            PayoutStatus::Paid => {
                record.paid_at = some_text(stamp);
            },
        }
        record.updated_at = stamp.to_string();
        put_row(&mut self.payouts, Some(at), store::row_of_payout(&record));
        push_event(&mut self.feed, UgcEvent::PayoutChanged { payout: Box::new(record.clone()) });
        proof {
            let after = self.deep_view();
            rows::lemma_only(
                after.payouts,
                store::payout_key(),
                store::payout_is(id@),
                id@,
                at as int,
            );
        }
        Some(record)
    }

    /// Drops a submission's payout row unless it has already been paid. Tells whether a row
    /// went.
    pub fn delete_unpaid_payout_for_submission(&mut self, submission_id: &str) -> (gone: bool)
        requires
            old(self).deep_view().wf(),
        ensures
            gone == rows::any(old(self).deep_view().payouts, store::unpaid_on(submission_id@)),
            final(self).deep_view() == old(self).deep_view().delete_unpaid_payout(submission_id@),
            final(self).deep_view().wf(),
    {
        proof {
            store::law_delete_unpaid_payout_keeps_rules(self.deep_view(), submission_id@);
        }
        let unpaid = |p: &PayoutRow| -> (b: bool)
            ensures
                b == store::unpaid_on(submission_id@)(p.deep_view()),
            {
                opt_eq(&p.record.submission_id, submission_id) && p.record.status
                    != PayoutStatus::Paid
            };
        let gone = find_row(&self.payouts, unpaid, Ghost(store::unpaid_on(submission_id@))).is_some();
        let stays = |p: &PayoutRow| -> (b: bool)
            ensures
                b == store::not(store::unpaid_on(submission_id@))(p.deep_view()),
            {
                !opt_eq(&p.record.submission_id, submission_id) || p.record.status
                    == PayoutStatus::Paid
            };
        retain_rows(
            &mut self.payouts,
            stays,
            Ghost(store::not(store::unpaid_on(submission_id@))),
        );
        gone
    }

    /// Money committed to a campaign: every payout row, whatever its state.
    /// `exclude_submission_id` skips the row that is being re-priced.
    pub fn campaign_committed_cents(
        &self,
        campaign_id: &str,
        exclude_submission_id: Option<&str>,
    ) -> (r: Result<i64, StoreError>)
        ensures
            ({
                let sum = self.deep_view().campaign_committed(
                    campaign_id@,
                    exclude_submission_id.deep_view(),
                );
                if rows::fits(sum) {
                    r is Ok && r->Ok_0 == sum
                } else {
                    r == Err::<i64, _>(StoreError::SummingCampaignPayouts)
                }
            }),
    {
        let cents = |p: &PayoutRow| -> (n: i64)
            ensures
                n == store::campaign_money(campaign_id@, exclude_submission_id.deep_view())(
                    p.deep_view(),
                ),
            {
                let skipped: bool = match exclude_submission_id {
                    Some(sid) => opt_eq(&p.record.submission_id, sid),
                    None => false,
                };
                if !skipped && str_eq(p.record.campaign_id.as_str(), campaign_id) {
                    p.record.amount_cents
                } else {
                    0
                }
            };
        let sum: i128 = sum_rows(
            &self.payouts,
            cents,
            Ghost(store::campaign_money(campaign_id@, exclude_submission_id.deep_view())),
        );
        match fit_i64(sum) {
            Some(n) => Ok(n),
            None => Err(StoreError::SummingCampaignPayouts),
        }
    }

    /// The same sum scoped to one creator on one campaign, the input of the per-creator cap.
    pub fn creator_committed_cents(
        &self,
        campaign_id: &str,
        creator_id: &str,
        exclude_submission_id: Option<&str>,
    ) -> (r: Result<i64, StoreError>)
        ensures
            ({
                let sum = self.deep_view().creator_committed(
                    campaign_id@,
                    creator_id@,
                    exclude_submission_id.deep_view(),
                );
                if rows::fits(sum) {
                    r is Ok && r->Ok_0 == sum
                } else {
                    r == Err::<i64, _>(StoreError::SummingCreatorPayouts)
                }
            }),
    {
        let cents = |p: &PayoutRow| -> (n: i64)
            ensures
                n == store::creator_money(
                    campaign_id@,
                    creator_id@,
                    exclude_submission_id.deep_view(),
                )(p.deep_view()),
            {
                let skipped: bool = match exclude_submission_id {
                    Some(sid) => opt_eq(&p.record.submission_id, sid),
                    None => false,
                };
                if !skipped && str_eq(p.record.campaign_id.as_str(), campaign_id) && str_eq(
                    p.record.creator_id.as_str(),
                    creator_id,
                ) {
                    p.record.amount_cents
                } else {
                    0
                }
            };
        let sum: i128 = sum_rows(
            &self.payouts,
            cents,
            Ghost(
                store::creator_money(campaign_id@, creator_id@, exclude_submission_id.deep_view()),
            ),
        );
        match fit_i64(sum) {
            Some(n) => Ok(n),
            None => Err(StoreError::SummingCreatorPayouts),
        }
    }

    /// Everything the accrual pass needs for one submission. `None` when the submission or
    /// its campaign is gone; a campaign that cannot be read is an error.
    pub fn accrual_inputs(&self, submission_id: &str) -> (r: Result<
        Option<AccrualInputs>,
        StoreError,
    >)
        requires
            self.deep_view().wf(),
        ensures
            match self.deep_view().accrual_inputs(submission_id@) {
                Ok(inputs) => r is Ok && r->Ok_0.deep_view() == inputs,
                Err(e) => r == Err::<Option<AccrualInputs>, _>(e),
            },
    {
        let submission = match self.get_submission(submission_id) {
            Some(s) => s,
            None => {
                return Ok(None);
            },
        };
        let campaign = match self.get_campaign(submission.campaign_id.as_str()) {
            Ok(Some(c)) => c,
            Ok(None) => {
                return Ok(None);
            },
            Err(e) => {
                return Err(e);
            },
        };
        let latest = self.latest_snapshot(submission_id);
        let existing_payout = self.payout_for_submission(submission_id);
        let creator_committed_excluding_this: i64 = match self.creator_committed_cents(
            submission.campaign_id.as_str(),
            submission.creator_id.as_str(),
            Some(submission_id),
        ) {
            Ok(n) => n,
            Err(e) => {
                return Err(e);
            },
        };
        let campaign_committed_excluding_this: i64 = match self.campaign_committed_cents(
            submission.campaign_id.as_str(),
            Some(submission_id),
        ) {
            Ok(n) => n,
            Err(e) => {
                return Err(e);
            },
        };
        Ok(
            Some(
                AccrualInputs {
                    submission,
                    campaign,
                    latest,
                    existing_payout,
                    creator_committed_excluding_this,
                    campaign_committed_excluding_this,
                },
            ),
        )
    }
}

} // verus!
