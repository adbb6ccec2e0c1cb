//! The list reads: filtered, ranked and cut to a page.
use crate::pricing;
use crate::pricing::clamp_limit;
use crate::records::{
    Campaign, CampaignStatus, CampaignView, Creator, CreatorView, MetricSnapshot, Payout,
    PayoutStatus, PayoutView, SnapshotView, Submission, SubmissionStatus, SubmissionView,
};
use crate::reports::truncate_page;
use crate::rows;
use crate::rows::{is_later, pick_rows, sort_rows, str_le};
use crate::store;
use crate::store::{
    PayoutRow, PayoutRowView, StoreError, StoreView, SubmissionRow, SubmissionRowView, UgcStore,
};
use crate::text;
use crate::text::{chars_of, fold, str_eq, to_lower, trim};
use vstd::prelude::*;

verus! {

/// Filter for the submission lists. Every field is optional and all of them must hold.
#[derive(Debug)]
pub struct SubmissionFilter {
    pub campaign_id: Option<String>,
    pub creator_id: Option<String>,
    pub status: Option<SubmissionStatus>,
    pub platform: Option<String>,
    pub limit: Option<i64>,
}

/// The view of a [`SubmissionFilter`].
#[verifier::ext_equal]
pub struct SubmissionFilterView {
    pub campaign_id: Option<Seq<char>>,
    pub creator_id: Option<Seq<char>>,
    pub status: Option<SubmissionStatus>,
    pub platform: Option<Seq<char>>,
    pub limit: Option<i64>,
}

impl DeepView for SubmissionFilter {
    type V = SubmissionFilterView;

    open spec fn deep_view(&self) -> SubmissionFilterView {
        SubmissionFilterView {
            campaign_id: self.campaign_id.deep_view(),
            creator_id: self.creator_id.deep_view(),
            status: self.status,
            platform: self.platform.deep_view(),
            limit: self.limit,
        }
    }
}

impl Default for SubmissionFilter {
    fn default() -> (r: Self)
        ensures
            r.deep_view() == (SubmissionFilterView {
                campaign_id: None,
                creator_id: None,
                status: None,
                platform: None,
                limit: None,
            }),
    {
        SubmissionFilter {
            campaign_id: None,
            creator_id: None,
            status: None,
            platform: None,
            limit: None,
        }
    }
}

/// Filter for the payout list.
#[derive(Debug)]
pub struct PayoutFilter {
    pub campaign_id: Option<String>,
    pub creator_id: Option<String>,
    pub status: Option<PayoutStatus>,
    pub limit: Option<i64>,
}

/// The view of a [`PayoutFilter`].
#[verifier::ext_equal]
pub struct PayoutFilterView {
    pub campaign_id: Option<Seq<char>>,
    pub creator_id: Option<Seq<char>>,
    pub status: Option<PayoutStatus>,
    pub limit: Option<i64>,
}

impl DeepView for PayoutFilter {
    type V = PayoutFilterView;

    open spec fn deep_view(&self) -> PayoutFilterView {
        PayoutFilterView {
            campaign_id: self.campaign_id.deep_view(),
            creator_id: self.creator_id.deep_view(),
            status: self.status,
            limit: self.limit,
        }
    }
}

impl Default for PayoutFilter {
    fn default() -> (r: Self)
        ensures
            r.deep_view() == (PayoutFilterView {
                campaign_id: None,
                creator_id: None,
                status: None,
                limit: None,
            }),
    {
        PayoutFilter { campaign_id: None, creator_id: None, status: None, limit: None }
    }
}

/// A submission with its newest counters and its payout row's money attached.
#[derive(Debug)]
pub struct SubmissionWithMetrics {
    pub submission: Submission,
    /// `None` until the first snapshot lands.
    pub latest: Option<MetricSnapshot>,
    /// The payout row's amount, or `None` when this submission has no payout row at all:
    /// "nothing has accrued yet" is not "worth nothing".
    pub accrued_cents: Option<i64>,
    /// The payout row's state as it is stored; `None` exactly when `accrued_cents` is.
    pub payout_status: Option<String>,
}

/// The view of a [`SubmissionWithMetrics`].
#[verifier::ext_equal]
pub struct WithMetricsView {
    pub submission: SubmissionView,
    pub latest: Option<SnapshotView>,
    pub accrued_cents: Option<i64>,
    pub payout_status: Option<Seq<char>>,
}

impl DeepView for SubmissionWithMetrics {
    type V = WithMetricsView;

    open spec fn deep_view(&self) -> WithMetricsView {
        WithMetricsView {
            submission: self.submission.deep_view(),
            latest: self.latest.deep_view(),
            accrued_cents: self.accrued_cents,
            payout_status: self.payout_status.deep_view(),
        }
    }
}

// ---- what a list holds -------------------------------------------------------------------

/// The campaign of the row if the status filter admits it; no filter admits all.
pub open spec fn campaign_listed(status: Option<CampaignStatus>) -> spec_fn(CampaignView) -> Option<
    CampaignView,
> {
    |c: CampaignView|
        if status is None || c.status == status->0 {
            Some(c)
        } else {
            None
        }
}

/// Newest update first.
pub open spec fn campaign_order() -> spec_fn(CampaignView, CampaignView) -> bool {
    |a: CampaignView, b: CampaignView| rows::text_le(b.updated_at, a.updated_at)
}

/// `LIKE`: `%` stands for any text, `_` for one character, and ASCII case does not matter.
pub open spec fn like(p: Seq<char>, s: Seq<char>) -> bool
    decreases p.len() + s.len(),
{
    if p.len() == 0 {
        s.len() == 0
    } else if p[0] == '%' {
        like(p.skip(1), s) || (s.len() > 0 && like(p, s.skip(1)))
    } else if s.len() == 0 {
        false
    } else {
        (p[0] == '_' || text::lower_char(p[0]) == text::lower_char(s[0])) && like(
            p.skip(1),
            s.skip(1),
        )
    }
}

/// How many bytes a search pattern may take.
pub const MAX_PATTERN_BYTES: usize = 50000;

/// The pattern that a search amounts to: the trimmed text between two wildcards.
pub open spec fn search_pattern(q: Seq<char>) -> Seq<char> {
    seq!['%'] + text::trimmed(q) + seq!['%']
}

/// The search is refused: its pattern is longer than a row is ever compared with.
pub open spec fn search_refused(s: StoreView, q: Option<Seq<char>>) -> bool {
    &&& s.creator_count() > 0
    &&& q is Some && !text::blank(q->0)
    &&& vstd::utf8::encode_utf8(search_pattern(q->0)).len() > MAX_PATTERN_BYTES
}

/// The roster search: the trimmed text anywhere in the name or the contact address.
pub open spec fn creator_listed(q: Option<Seq<char>>) -> spec_fn(CreatorView) -> Option<
    CreatorView,
> {
    |c: CreatorView|
        if q is None || text::blank(q->0) || {
            let pattern = search_pattern(q->0);
            like(pattern, c.display_name) || (c.contact_email is Some && like(
                pattern,
                c.contact_email->0,
            ))
        } {
            Some(c)
        } else {
            None
        }
}

/// By display name, without regard to ASCII case.
pub open spec fn creator_order() -> spec_fn(CreatorView, CreatorView) -> bool {
    |a: CreatorView, b: CreatorView|
        rows::text_le(text::lower(a.display_name), text::lower(b.display_name))
}

impl SubmissionFilterView {
    /// The filter admits the row.
    pub open spec fn admits(self, r: SubmissionRowView) -> bool {
        &&& self.campaign_id is Some ==> r.record.campaign_id == self.campaign_id->0
        &&& self.creator_id is Some ==> r.record.creator_id == self.creator_id->0
        &&& self.status is Some ==> r.status_text == self.status->0.text()
        &&& self.platform is Some ==> r.record.platform == text::folded(self.platform->0)
    }
}

impl PayoutFilterView {
    /// The filter admits the row.
    pub open spec fn admits(self, p: PayoutRowView) -> bool {
        &&& self.campaign_id is Some ==> p.record.campaign_id == self.campaign_id->0
        &&& self.creator_id is Some ==> p.record.creator_id == self.creator_id->0
        &&& self.status is Some ==> p.status_text == self.status->0.text()
    }
}

/// The submission of the row if the filter admits it.
pub open spec fn submission_listed(
    f: SubmissionFilterView,
) -> spec_fn(SubmissionRowView) -> Option<SubmissionView> {
    |r: SubmissionRowView|
        if f.admits(r) {
            Some(r.record)
        } else {
            None
        }
}

/// Newest submission first.
pub open spec fn submission_order() -> spec_fn(SubmissionView, SubmissionView) -> bool {
    |a: SubmissionView, b: SubmissionView| rows::later(a.submitted_at, a.id, b.submitted_at, b.id)
}

/// The row with its newest counters and its money.
pub open spec fn with_metrics(s: StoreView, r: SubmissionRowView) -> WithMetricsView {
    let p = rows::found(s.payouts, store::payout_on(r.record.id));
    WithMetricsView {
        submission: r.record,
        latest: s.latest(r.record.id),
        accrued_cents: match p {
            Some(row) => Some(row.record.amount_cents),
            None => None,
        },
        payout_status: match p {
            Some(row) => Some(row.status_text),
            None => None,
        },
    }
}

/// The row with its counters and money if the filter admits it.
pub open spec fn metrics_listed(
    s: StoreView,
    f: SubmissionFilterView,
) -> spec_fn(SubmissionRowView) -> Option<WithMetricsView> {
    |r: SubmissionRowView|
        if f.admits(r) {
            Some(with_metrics(s, r))
        } else {
            None
        }
}

/// Newest submission first.
pub open spec fn metrics_order() -> spec_fn(WithMetricsView, WithMetricsView) -> bool {
    |a: WithMetricsView, b: WithMetricsView|
        rows::later(
            a.submission.submitted_at,
            a.submission.id,
            b.submission.submitted_at,
            b.submission.id,
        )
}

/// The snapshot if it belongs to the submission.
pub open spec fn snapshot_listed(id: Seq<char>) -> spec_fn(SnapshotView) -> Option<SnapshotView> {
    |m: SnapshotView|
        if m.submission_id == id {
            Some(m)
        } else {
            None
        }
}

/// Newest snapshot first.
pub open spec fn snapshot_order() -> spec_fn(SnapshotView, SnapshotView) -> bool {
    |a: SnapshotView, b: SnapshotView| a.id >= b.id
}

/// The payout of the row if the filter admits it.
pub open spec fn payout_listed(f: PayoutFilterView) -> spec_fn(PayoutRowView) -> Option<
    PayoutView,
> {
    |p: PayoutRowView|
        if f.admits(p) {
            Some(p.record)
        } else {
            None
        }
}

/// Newest payout first.
pub open spec fn payout_order() -> spec_fn(PayoutView, PayoutView) -> bool {
    |a: PayoutView, b: PayoutView| rows::later(a.accrued_at, a.id, b.accrued_at, b.id)
}

/// Every list order can compare any two rows.
pub proof fn lemma_list_orders()
    ensures
        rows::comparable(campaign_order()),
        rows::comparable(creator_order()),
        rows::comparable(submission_order()),
        rows::comparable(metrics_order()),
        rows::comparable(snapshot_order()),
        rows::comparable(payout_order()),
{
    let le = campaign_order();
    assert forall|a: CampaignView, b: CampaignView| #[trigger] le(a, b) || le(b, a) by {
        rows::lemma_text_le_total(a.updated_at, b.updated_at);
    }
    assert forall|a: CampaignView, b: CampaignView, c: CampaignView| #[trigger]
        le(a, b) && #[trigger] le(b, c) implies le(a, c) by {
        rows::lemma_text_le_transitive(c.updated_at, b.updated_at, a.updated_at);
    }
    let le = creator_order();
    assert forall|a: CreatorView, b: CreatorView| #[trigger] le(a, b) || le(b, a) by {
        rows::lemma_text_le_total(text::lower(a.display_name), text::lower(b.display_name));
    }
    assert forall|a: CreatorView, b: CreatorView, c: CreatorView| #[trigger]
        le(a, b) && #[trigger] le(b, c) implies le(a, c) by {
        rows::lemma_text_le_transitive(
            text::lower(a.display_name),
            text::lower(b.display_name),
            text::lower(c.display_name),
        );
    }
    let le = submission_order();
    assert forall|a: SubmissionView, b: SubmissionView| #[trigger] le(a, b) || le(b, a) by {
        rows::lemma_later_total(a.submitted_at, a.id, b.submitted_at, b.id);
    }
    assert forall|a: SubmissionView, b: SubmissionView, c: SubmissionView| #[trigger]
        le(a, b) && #[trigger] le(b, c) implies le(a, c) by {
        rows::lemma_later_transitive(
            a.submitted_at,
            a.id,
            b.submitted_at,
            b.id,
            c.submitted_at,
            c.id,
        );
    }
    let le = metrics_order();
    assert forall|a: WithMetricsView, b: WithMetricsView| #[trigger] le(a, b) || le(b, a) by {
        rows::lemma_later_total(
            a.submission.submitted_at,
            a.submission.id,
            b.submission.submitted_at,
            b.submission.id,
        );
    }
    assert forall|a: WithMetricsView, b: WithMetricsView, c: WithMetricsView| #[trigger]
        le(a, b) && #[trigger] le(b, c) implies le(a, c) by {
        rows::lemma_later_transitive(
            a.submission.submitted_at,
            a.submission.id,
            b.submission.submitted_at,
            b.submission.id,
            c.submission.submitted_at,
            c.submission.id,
        );
    }
    let le = payout_order();
    assert forall|a: PayoutView, b: PayoutView| #[trigger] le(a, b) || le(b, a) by {
        rows::lemma_later_total(a.accrued_at, a.id, b.accrued_at, b.id);
    }
    assert forall|a: PayoutView, b: PayoutView, c: PayoutView| #[trigger]
        le(a, b) && #[trigger] le(b, c) implies le(a, c) by {
        rows::lemma_later_transitive(a.accrued_at, a.id, b.accrued_at, b.id, c.accrued_at, c.id);
    }
}

/// Whether `s` matches the pattern. Works from the end of the pattern: `row[j]` tells whether what
/// was read of the pattern matches the text from `j` on.
pub fn is_like(pattern: &str, s: &str) -> (b: bool)
    ensures
        b == like(pattern@, s@),
{
    let p = chars_of(pattern);
    let t = chars_of(s);
    let n: usize = t.len();
    let mut row: Vec<bool> = Vec::new();
    let mut j: usize = 0;
    while j < n
        invariant
            n == t.len(),
            j <= n,
            row.len() == j,
            forall|k: int| 0 <= k < j ==> row[k] == like(Seq::empty(), #[trigger] t@.skip(k)),
        decreases n - j,
    {
        row.push(false);
        j += 1;
    }
    row.push(true);
    let mut i: usize = p.len();
    while i > 0
        invariant
            n == t.len(),
            i <= p.len(),
            row.len() == n + 1,
            forall|k: int|
                0 <= k <= n ==> row[k] == like(p@.skip(i as int), #[trigger] t@.skip(k)),
        decreases i,
    {
        let ghost read = p@.skip(i as int);
        i -= 1;
        let ghost now = p@.skip(i as int);
        assert(now.skip(1) =~= read);
        let c: char = p[i];
        let anywhere: bool = c == '%';
        let mut next: bool = row[n];
        if !anywhere {
            row.set(n, false);
        }
        let mut j: usize = n;
        while j > 0
            invariant
                n == t.len(),
                i < p.len(),
                c == p[i as int],
                anywhere == (c == '%'),
                read == now.skip(1),
                now == p@.skip(i as int),
                j <= n,
                row.len() == n + 1,
                next == like(read, t@.skip(j as int)),
                forall|k: int| 0 <= k < j ==> row[k] == like(read, #[trigger] t@.skip(k)),
                forall|k: int| j <= k <= n ==> row[k] == like(now, #[trigger] t@.skip(k)),
            decreases j,
        {
            j -= 1;
            let ghost rest = t@.skip(j as int);
            assert(rest.skip(1) =~= t@.skip(j + 1));
            let here: bool = row[j];
            let matched: bool = if anywhere {
                here || row[j + 1]
            } else {
                (c == '_' || text::char_lower(c) == text::char_lower(t[j])) && next
            };
            next = here;
            row.set(j, matched);
        }
    }
    assert(p@.skip(0) =~= pattern@);
    assert(t@.skip(0) =~= s@);
    row[0]
}

fn opt_admits(want: &Option<String>, have: &str) -> (b: bool)
    ensures
        b == (want is Some ==> have@ == want.deep_view()->0),
{
    match want {
        Some(w) => str_eq(have, w.as_str()),
        None => true,
    }
}

impl SubmissionFilter {
    /// Whether the filter admits the row.
    pub fn admits(&self, r: &SubmissionRow) -> (b: bool)
        ensures
            b == self.deep_view().admits(r.deep_view()),
    {
        let status: bool = match self.status {
            Some(s) => str_eq(r.status_text.as_str(), s.as_str()),
            None => true,
        };
        let platform: bool = match &self.platform {
            Some(p) => str_eq(r.record.platform.as_str(), fold(p.as_str()).as_str()),
            None => true,
        };
        opt_admits(&self.campaign_id, r.record.campaign_id.as_str()) && opt_admits(
            &self.creator_id,
            r.record.creator_id.as_str(),
        ) && status && platform
    }
}

impl PayoutFilter {
    /// Whether the filter admits the row.
    pub fn admits(&self, p: &PayoutRow) -> (b: bool)
        ensures
            b == self.deep_view().admits(p.deep_view()),
    {
        let status: bool = match self.status {
            Some(s) => str_eq(p.status_text.as_str(), s.as_str()),
            None => true,
        };
        opt_admits(&self.campaign_id, p.record.campaign_id.as_str()) && opt_admits(
            &self.creator_id,
            p.record.creator_id.as_str(),
        ) && status
    }
}

impl UgcStore {
    /// Lists campaigns, newest-updated first. `None` lists all.
    pub fn list_campaigns(&self, status: Option<CampaignStatus>) -> (out: Vec<Campaign>)
        ensures
            rows::ranking(
                rows::picked(self.deep_view().campaigns, campaign_listed(status)),
                out.deep_view(),
                campaign_order(),
            ),
    {
        proof {
            lemma_list_orders();
        }
        let pick = |c: &Campaign| -> (r: Option<Campaign>)
            ensures
                r.deep_view() == campaign_listed(status)(c.deep_view()),
            {
                let listed: bool = match status {
                    Some(s) => c.status == s,
                    None => true,
                };
                if listed {
                    Some(c.clone())
                } else {
                    None
                }
            };
        let mut out = pick_rows(&self.campaigns, pick, Ghost(campaign_listed(status)));
        let order = |a: &Campaign, b: &Campaign| -> (r: bool)
            ensures
                r == campaign_order()(a.deep_view(), b.deep_view()),
            { str_le(b.updated_at.as_str(), a.updated_at.as_str()) };
        sort_rows(&mut out, order, Ghost(campaign_order()));
        out
    }

    /// Lists the roster by display name. `q` matches the display name or the contact email,
    /// without regard to ASCII case; a blank `q` lists all. A pattern past
    /// [`MAX_PATTERN_BYTES`] is refused as soon as there is a row to compare it with.
    pub fn list_creators(&self, q: Option<&str>) -> (r: Result<Vec<Creator>, StoreError>)
        ensures
            search_refused(self.deep_view(), q.deep_view()) ==> r is Err && r->Err_0
                == StoreError::PatternTooComplex,
            !search_refused(self.deep_view(), q.deep_view()) ==> r is Ok && rows::ranking(
                rows::picked(self.deep_view().creators, creator_listed(q.deep_view())),
                r->Ok_0.deep_view(),
                creator_order(),
            ),
    {
        proof {
            lemma_list_orders();
        }
        let pattern: Option<String> = match q {
            Some(raw) => {
                let needle = trim(raw);
                if needle.is_empty() {
                    None
                } else {
                    let mut p = String::new();
                    p.push('%');
                    p.append(needle);
                    p.push('%');
                    assert(p@ =~= search_pattern(raw@));
                    if (self.creators.len() > 0 || self.unread_creators.len() > 0)
                        && p.as_str().as_bytes().len() > MAX_PATTERN_BYTES {
                        return Err(StoreError::PatternTooComplex);
                    }
                    Some(p)
                }
            },
            None => None,
        };
        let pick = |c: &Creator| -> (r: Option<Creator>)
            ensures
                r.deep_view() == creator_listed(q.deep_view())(c.deep_view()),
            {
                let listed: bool = match &pattern {
                    Some(p) => is_like(p.as_str(), c.display_name.as_str()) || match &c.contact_email {
                        Some(e) => is_like(p.as_str(), e.as_str()),
                        None => false,
                    },
                    None => true,
                };
                if listed {
                    Some(c.clone())
                } else {
                    None
                }
            };
        let mut out = pick_rows(&self.creators, pick, Ghost(creator_listed(q.deep_view())));
        let order = |a: &Creator, b: &Creator| -> (r: bool)
            ensures
                r == creator_order()(a.deep_view(), b.deep_view()),
            {
                str_le(
                    to_lower(a.display_name.as_str()).as_str(),
                    to_lower(b.display_name.as_str()).as_str(),
                )
            };
        sort_rows(&mut out, order, Ghost(creator_order()));
        Ok(out)
    }

    /// Every submission that the filter admits, newest first, however many there are.
    pub(crate) fn rank_submissions(&self, filter: &SubmissionFilter) -> (out: Vec<Submission>)
        ensures
            rows::ranking(
                rows::picked(self.deep_view().submissions, submission_listed(filter.deep_view())),
                out.deep_view(),
                submission_order(),
            ),
    {
        proof {
            lemma_list_orders();
        }
        let pick = |r: &SubmissionRow| -> (o: Option<Submission>)
            ensures
                o.deep_view() == submission_listed(filter.deep_view())(r.deep_view()),
            {
                if filter.admits(r) {
                    Some(r.record.clone())
                } else {
                    None
                }
            };
        let mut out = pick_rows(
            &self.submissions,
            pick,
            Ghost(submission_listed(filter.deep_view())),
        );
        let order = |a: &Submission, b: &Submission| -> (r: bool)
            ensures
                r == submission_order()(a.deep_view(), b.deep_view()),
            {
                is_later(
                    a.submitted_at.as_str(),
                    a.id.as_str(),
                    b.submitted_at.as_str(),
                    b.id.as_str(),
                )
            };
        sort_rows(&mut out, order, Ghost(submission_order()));
        out
    }

    /// Lists submissions newest first.
    pub fn list_submissions(&self, filter: &SubmissionFilter) -> (out: Vec<Submission>)
        ensures
            rows::first_page(
                rows::picked(self.deep_view().submissions, submission_listed(filter.deep_view())),
                out.deep_view(),
                submission_order(),
                pricing::page_size(filter.limit),
            ),
    {
        let mut out = self.rank_submissions(filter);
        truncate_page(&mut out, clamp_limit(filter.limit));
        out
    }

    /// The same list with each row's newest snapshot and its payout money joined on.
    pub fn list_submissions_with_metrics(&self, filter: &SubmissionFilter) -> (out: Vec<
        SubmissionWithMetrics,
    >)
        requires
            self.deep_view().wf(),
        ensures
            rows::first_page(
                rows::picked(
                    self.deep_view().submissions,
                    metrics_listed(self.deep_view(), filter.deep_view()),
                ),
                out.deep_view(),
                metrics_order(),
                pricing::page_size(filter.limit),
            ),
    {
        proof {
            lemma_list_orders();
        }
        let pick = |r: &SubmissionRow| -> (o: Option<SubmissionWithMetrics>)
            ensures
                o.deep_view() == metrics_listed(self.deep_view(), filter.deep_view())(
                    r.deep_view(),
                ),
            {
                if filter.admits(r) {
                    let (accrued_cents, payout_status): (Option<i64>, Option<String>) =
                        match self.payout_on_at(r.record.id.as_str()) {
                        Some(i) => {
                            (
                                Some(self.payouts[i].record.amount_cents),
                                Some(self.payouts[i].status_text.clone()),
                            )
                        },
                        None => (None, None),
                    };
                    Some(
                        SubmissionWithMetrics {
                            submission: r.record.clone(),
                            latest: self.latest_snapshot(r.record.id.as_str()),
                            accrued_cents,
                            payout_status,
                        },
                    )
                } else {
                    None
                }
            };
        let mut out = pick_rows(
            &self.submissions,
            pick,
            Ghost(metrics_listed(self.deep_view(), filter.deep_view())),
        );
        let order = |a: &SubmissionWithMetrics, b: &SubmissionWithMetrics| -> (r: bool)
            ensures
                r == metrics_order()(a.deep_view(), b.deep_view()),
            {
                is_later(
                    a.submission.submitted_at.as_str(),
                    a.submission.id.as_str(),
                    b.submission.submitted_at.as_str(),
                    b.submission.id.as_str(),
                )
            };
        sort_rows(&mut out, order, Ghost(metrics_order()));
        truncate_page(&mut out, clamp_limit(filter.limit));
        out
    }

    /// A submission's metric history, newest first.
    pub fn list_snapshots(&self, submission_id: &str, limit: Option<i64>) -> (out: Vec<
        MetricSnapshot,
    >)
        ensures
            rows::first_page(
                rows::picked(self.deep_view().snapshots, snapshot_listed(submission_id@)),
                out.deep_view(),
                snapshot_order(),
                pricing::page_size(limit),
            ),
    {
        let pick = |m: &MetricSnapshot| -> (o: Option<MetricSnapshot>)
            ensures
                o.deep_view() == snapshot_listed(submission_id@)(m.deep_view()),
            {
                if str_eq(m.submission_id.as_str(), submission_id) {
                    Some(m.clone())
                } else {
                    None
                }
            };
        let mut out = pick_rows(&self.snapshots, pick, Ghost(snapshot_listed(submission_id@)));
        let order = |a: &MetricSnapshot, b: &MetricSnapshot| -> (r: bool)
            ensures
                r == snapshot_order()(a.deep_view(), b.deep_view()),
            { a.id >= b.id };
        sort_rows(&mut out, order, Ghost(snapshot_order()));
        truncate_page(&mut out, clamp_limit(limit));
        out
    }

    /// Lists payouts newest first.
    pub fn list_payouts(&self, filter: &PayoutFilter) -> (out: Vec<Payout>)
        ensures
            rows::first_page(
                rows::picked(self.deep_view().payouts, payout_listed(filter.deep_view())),
                out.deep_view(),
                payout_order(),
                pricing::page_size(filter.limit),
            ),
    {
        proof {
            lemma_list_orders();
        }
        let pick = |p: &PayoutRow| -> (o: Option<Payout>)
            ensures
                o.deep_view() == payout_listed(filter.deep_view())(p.deep_view()),
            {
                if filter.admits(p) {
                    Some(p.record.clone())
                } else {
                    None
                }
            };
        let mut out = pick_rows(&self.payouts, pick, Ghost(payout_listed(filter.deep_view())));
        let order = |a: &Payout, b: &Payout| -> (r: bool)
            ensures
                r == payout_order()(a.deep_view(), b.deep_view()),
            {
                is_later(
                    a.accrued_at.as_str(),
                    a.id.as_str(),
                    b.accrued_at.as_str(),
                    b.id.as_str(),
                )
            };
        sort_rows(&mut out, order, Ghost(payout_order()));
        truncate_page(&mut out, clamp_limit(filter.limit));
        out
    }
}

} // verus!
