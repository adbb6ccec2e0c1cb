//! The records of the app: campaigns, creators, submissions, metric snapshots and
//! payouts, each with its mathematical view.
use crate::text;
use crate::text::{fold, str_eq};
use vstd::prelude::*;

verus! {

// ---- states ----------------------------------------------------------------------

/// Lifecycle of a campaign.
#[derive(Debug, Clone, Copy, PartialEq, Eq, Structural)]
pub enum CampaignStatus {
    Draft,
    Active,
    Paused,
    Ended,
}

/// Review state of one submitted post.
#[derive(Debug, Clone, Copy, PartialEq, Eq, Structural)]
pub enum SubmissionStatus {
    Pending,
    Approved,
    Rejected,
    Paid,
}

/// Money state of one payout row. Money only ever moves forward:
/// `accrued -> approved -> paid`.
#[derive(Debug, Clone, Copy, PartialEq, Eq, Structural)]
pub enum PayoutStatus {
    Accrued,
    Approved,
    Paid,
}

/// Where a metric snapshot came from.
#[derive(Debug, Clone, Copy, PartialEq, Eq, Structural)]
pub enum MetricSource {
    /// Entered by hand.
    Manual,
    /// Read through the curated platform -> Composio action map.
    Composio,
}

impl DeepView for CampaignStatus {
    type V = CampaignStatus;

    open spec fn deep_view(&self) -> CampaignStatus {
        *self
    }
}

impl DeepView for SubmissionStatus {
    type V = SubmissionStatus;

    open spec fn deep_view(&self) -> SubmissionStatus {
        *self
    }
}

impl DeepView for PayoutStatus {
    type V = PayoutStatus;

    open spec fn deep_view(&self) -> PayoutStatus {
        *self
    }
}

impl DeepView for MetricSource {
    type V = MetricSource;

    open spec fn deep_view(&self) -> MetricSource {
        *self
    }
}

impl Default for CampaignStatus {
    fn default() -> (r: Self)
        ensures
            r == CampaignStatus::Draft,
    {
        CampaignStatus::Draft
    }
}

impl Default for SubmissionStatus {
    fn default() -> (r: Self)
        ensures
            r == SubmissionStatus::Pending,
    {
        SubmissionStatus::Pending
    }
}

impl Default for PayoutStatus {
    fn default() -> (r: Self)
        ensures
            r == PayoutStatus::Accrued,
    {
        PayoutStatus::Accrued
    }
}

impl Default for MetricSource {
    fn default() -> (r: Self)
        ensures
            r == MetricSource::Manual,
    {
        MetricSource::Manual
    }
}

impl CampaignStatus {
    /// The stored form.
    pub open spec fn text(self) -> Seq<char> {
        match self {
            CampaignStatus::Draft => "draft"@,
            CampaignStatus::Active => "active"@,
            CampaignStatus::Paused => "paused"@,
            CampaignStatus::Ended => "ended"@,
        }
    }

    /// The state whose stored form is `text`.
    pub open spec fn named(text: Seq<char>) -> Option<CampaignStatus> {
        if text == "draft"@ {
            Some(CampaignStatus::Draft)
        } else if text == "active"@ {
            Some(CampaignStatus::Active)
        } else if text == "paused"@ {
            Some(CampaignStatus::Paused)
        } else if text == "ended"@ {
            Some(CampaignStatus::Ended)
        } else {
            None
        }
    }

    /// The stored form.
    pub fn as_str(self) -> (r: &'static str)
        ensures
            r@ == self.text(),
    {
        match self {
            CampaignStatus::Draft => "draft",
            CampaignStatus::Active => "active",
            CampaignStatus::Paused => "paused",
            CampaignStatus::Ended => "ended",
        }
    }

    /// Strict reading of a caller-supplied filter value: white space around it and ASCII
    /// case do not matter, and anything unrecognised is `None`.
    pub fn parse(s: &str) -> (r: Option<Self>)
        ensures
            r == CampaignStatus::named(text::folded(s@)),
    {
        let key = fold(s);
        if str_eq(key.as_str(), "draft") {
            Some(CampaignStatus::Draft)
        } else if str_eq(key.as_str(), "active") {
            Some(CampaignStatus::Active)
        } else if str_eq(key.as_str(), "paused") {
            Some(CampaignStatus::Paused)
        } else if str_eq(key.as_str(), "ended") {
            Some(CampaignStatus::Ended)
        } else {
            None
        }
    }
}

impl SubmissionStatus {
    /// The stored form.
    pub open spec fn text(self) -> Seq<char> {
        match self {
            SubmissionStatus::Pending => "pending"@,
            SubmissionStatus::Approved => "approved"@,
            SubmissionStatus::Rejected => "rejected"@,
            SubmissionStatus::Paid => "paid"@,
        }
    }

    /// The state whose stored form is `text`.
    pub open spec fn named(text: Seq<char>) -> Option<SubmissionStatus> {
        if text == "pending"@ {
            Some(SubmissionStatus::Pending)
        } else if text == "approved"@ {
            Some(SubmissionStatus::Approved)
        } else if text == "rejected"@ {
            Some(SubmissionStatus::Rejected)
        } else if text == "paid"@ {
            Some(SubmissionStatus::Paid)
        } else {
            None
        }
    }

    /// The state that a stored value reads as: an unknown one degrades to `Pending`.
    pub open spec fn stored(text: Seq<char>) -> SubmissionStatus {
        match SubmissionStatus::named(text::folded(text)) {
            Some(s) => s,
            None => SubmissionStatus::Pending,
        }
    }

    /// Whether the submission has cleared review.
    pub open spec fn cleared(self) -> bool {
        self == SubmissionStatus::Approved || self == SubmissionStatus::Paid
    }

    /// The stored form.
    pub fn as_str(self) -> (r: &'static str)
        ensures
            r@ == self.text(),
    {
        match self {
            SubmissionStatus::Pending => "pending",
            SubmissionStatus::Approved => "approved",
            SubmissionStatus::Rejected => "rejected",
            SubmissionStatus::Paid => "paid",
        }
    }

    /// Strict reading of a caller-supplied `?status=` filter.
    pub fn parse(s: &str) -> (r: Option<Self>)
        ensures
            r == SubmissionStatus::named(text::folded(s@)),
    {
        let key = fold(s);
        if str_eq(key.as_str(), "pending") {
            Some(SubmissionStatus::Pending)
        } else if str_eq(key.as_str(), "approved") {
            Some(SubmissionStatus::Approved)
        } else if str_eq(key.as_str(), "rejected") {
            Some(SubmissionStatus::Rejected)
        } else if str_eq(key.as_str(), "paid") {
            Some(SubmissionStatus::Paid)
        } else {
            None
        }
    }

    /// Lenient reading of a stored value; an unknown string degrades to `Pending`, an
    /// unreviewed row, rather than dropping the submission from the list.
    pub fn from_db(s: &str) -> (r: Self)
        ensures
            r == SubmissionStatus::stored(s@),
    {
        match SubmissionStatus::parse(s) {
            Some(v) => v,
            None => SubmissionStatus::Pending,
        }
    }
}

impl PayoutStatus {
    /// The stored form.
    pub open spec fn text(self) -> Seq<char> {
        match self {
            PayoutStatus::Accrued => "accrued"@,
            PayoutStatus::Approved => "approved"@,
            PayoutStatus::Paid => "paid"@,
        }
    }

    /// The state whose stored form is `text`.
    pub open spec fn named(text: Seq<char>) -> Option<PayoutStatus> {
        if text == "accrued"@ {
            Some(PayoutStatus::Accrued)
        } else if text == "approved"@ {
            Some(PayoutStatus::Approved)
        } else if text == "paid"@ {
            Some(PayoutStatus::Paid)
        } else {
            None
        }
    }

    /// The state that a stored value reads as: an unknown one degrades to `Accrued`.
    pub open spec fn stored(text: Seq<char>) -> PayoutStatus {
        match PayoutStatus::named(text::folded(text)) {
            Some(s) => s,
            None => PayoutStatus::Accrued,
        }
    }

    /// The stored form.
    pub fn as_str(self) -> (r: &'static str)
        ensures
            r@ == self.text(),
    {
        match self {
            PayoutStatus::Accrued => "accrued",
            PayoutStatus::Approved => "approved",
            PayoutStatus::Paid => "paid",
        }
    }

    /// Strict reading of a caller-supplied `?status=` filter.
    pub fn parse(s: &str) -> (r: Option<Self>)
        ensures
            r == PayoutStatus::named(text::folded(s@)),
    {
        let key = fold(s);
        if str_eq(key.as_str(), "accrued") {
            Some(PayoutStatus::Accrued)
        } else if str_eq(key.as_str(), "approved") {
            Some(PayoutStatus::Approved)
        } else if str_eq(key.as_str(), "paid") {
            Some(PayoutStatus::Paid)
        } else {
            None
        }
    }

    /// Lenient reading of a stored value; unknown degrades to `Accrued`, the state that
    /// has not yet released any money.
    pub fn from_db(s: &str) -> (r: Self)
        ensures
            r == PayoutStatus::stored(s@),
    {
        match PayoutStatus::parse(s) {
            Some(v) => v,
            None => PayoutStatus::Accrued,
        }
    }
}

impl MetricSource {
    /// The stored form.
    pub open spec fn text(self) -> Seq<char> {
        match self {
            MetricSource::Manual => "manual"@,
            MetricSource::Composio => "composio"@,
        }
    }

    /// The source that a stored value reads as: an unknown one degrades to `Manual`.
    pub open spec fn stored(text: Seq<char>) -> MetricSource {
        if text::folded(text) == "composio"@ {
            MetricSource::Composio
        } else {
            MetricSource::Manual
        }
    }

    /// The stored form.
    pub fn as_str(self) -> (r: &'static str)
        ensures
            r@ == self.text(),
    {
        match self {
            MetricSource::Manual => "manual",
            MetricSource::Composio => "composio",
        }
    }

    /// Lenient reading of a stored value; unknown degrades to `Manual`, which never claims
    /// that an automated read happened.
    pub fn from_db(s: &str) -> (r: Self)
        ensures
            r == MetricSource::stored(s@),
    {
        if str_eq(fold(s).as_str(), "composio") {
            MetricSource::Composio
        } else {
            MetricSource::Manual
        }
    }
}

/// Lower-case text without white space at its ends is its own folded form.
proof fn lemma_folded_is_self(s: Seq<char>)
    requires
        s.len() > 0,
        forall|i: int| 0 <= i < s.len() ==> 'a' <= #[trigger] s[i] && s[i] <= 'z',
    ensures
        text::folded(s) == s,
{
}

/// Every campaign state is read back from its stored form.
pub proof fn law_campaign_status_round_trip(st: CampaignStatus)
    ensures
        CampaignStatus::named(text::folded(st.text())) == Some(st),
{
    reveal_strlit("draft");
    reveal_strlit("active");
    reveal_strlit("paused");
    reveal_strlit("ended");
    lemma_folded_is_self(st.text());
}

/// Every submission state is read back from its stored form, strictly and leniently.
pub proof fn law_submission_status_round_trip(st: SubmissionStatus)
    ensures
        SubmissionStatus::named(text::folded(st.text())) == Some(st),
        SubmissionStatus::stored(st.text()) == st,
{
    reveal_strlit("pending");
    reveal_strlit("approved");
    reveal_strlit("rejected");
    reveal_strlit("paid");
    lemma_folded_is_self(st.text());
}

/// Every payout state is read back from its stored form, strictly and leniently.
pub proof fn law_payout_status_round_trip(st: PayoutStatus)
    ensures
        PayoutStatus::named(text::folded(st.text())) == Some(st),
        PayoutStatus::stored(st.text()) == st,
{
    reveal_strlit("accrued");
    reveal_strlit("approved");
    reveal_strlit("paid");
    lemma_folded_is_self(st.text());
}

/// Both metric sources are read back from their stored form.
pub proof fn law_metric_source_round_trip(source: MetricSource)
    ensures
        MetricSource::stored(source.text()) == source,
{
    reveal_strlit("manual");
    reveal_strlit("composio");
    lemma_folded_is_self(source.text());
}

// ---- views ------------------------------------------------------------------------

/// A list of pairs as a map; a later pair wins over an earlier one.
pub open spec fn pairs_map(s: Seq<(Seq<char>, Seq<char>)>) -> Map<Seq<char>, Seq<char>>
    decreases s.len(),
{
    if s.len() == 0 {
        Map::empty()
    } else {
        pairs_map(s.drop_last()).insert(s.last().0, s.last().1)
    }
}

/// The pairs with `key` set to `value`: in place where it stands, or after the others.
pub open spec fn with_pair(
    s: Seq<(Seq<char>, Seq<char>)>,
    key: Seq<char>,
    value: Seq<char>,
) -> Seq<(Seq<char>, Seq<char>)>
    decreases s.len(),
{
    if s.len() == 0 {
        seq![(key, value)]
    } else if s[0].0 == key {
        s.update(0, (key, value))
    } else {
        seq![s[0]] + with_pair(s.skip(1), key, value)
    }
}

/// No key stands twice.
pub open spec fn keys_distinct(s: Seq<(Seq<char>, Seq<char>)>) -> bool {
    forall|i: int, j: int| 0 <= i < j < s.len() ==> (#[trigger] s[i]).0 != (#[trigger] s[j]).0
}

/// Where the key stands, `with_pair` keeps the others and their order.
proof fn lemma_with_pair(
    s: Seq<(Seq<char>, Seq<char>)>,
    key: Seq<char>,
    value: Seq<char>,
    i: int,
)
    requires
        0 <= i <= s.len(),
        forall|k: int| 0 <= k < i ==> (#[trigger] s[k]).0 != key,
        i < s.len() ==> s[i].0 == key,
    ensures
        with_pair(s, key, value) == if i < s.len() {
            s.update(i, (key, value))
        } else {
            s.push((key, value))
        },
    decreases s.len(),
{
    if i > 0 {
        lemma_with_pair(s.skip(1), key, value, i - 1);
    }
}

/// Sets the pair of `key`.
pub fn set_pair(v: &mut Vec<(String, String)>, key: String, value: String)
    ensures
        final(v).deep_view() == with_pair(old(v).deep_view(), key@, value@),
{
    let ghost before = v.deep_view();
    let ghost (kv, vv) = (key@, value@);
    let mut i: usize = 0;
    while i < v.len()
        invariant
            before == v.deep_view(),
            before == old(v).deep_view(),
            kv == key@,
            vv == value@,
            i <= v.len(),
            forall|k: int| 0 <= k < i ==> (#[trigger] before[k]).0 != key@,
        decreases v.len() - i,
    {
        if str_eq(v[i].0.as_str(), key.as_str()) {
            proof {
                lemma_with_pair(before, kv, vv, i as int);
            }
            v[i] = (key, value);
            return ;
        }
        i += 1;
    }
    proof {
        lemma_with_pair(before, kv, vv, i as int);
    }
    v.push((key, value));
}

/// Setting a pair keeps the keys distinct, and in the map that the pairs stand for it puts the
/// value under the key and changes nothing else.
pub proof fn law_with_pair_is_insert(
    s: Seq<(Seq<char>, Seq<char>)>,
    key: Seq<char>,
    value: Seq<char>,
)
    requires
        keys_distinct(s),
    ensures
        keys_distinct(with_pair(s, key, value)),
        pairs_map(with_pair(s, key, value)) =~= pairs_map(s).insert(key, value),
{
    let t = with_pair(s, key, value);
    if exists|i: int| 0 <= i < s.len() && (#[trigger] s[i]).0 == key {
        let i = choose|i: int| 0 <= i < s.len() && (#[trigger] s[i]).0 == key;
        lemma_with_pair(s, key, value, i);
        lemma_pairs_map_update(s, i, value);
    } else {
        lemma_with_pair(s, key, value, s.len() as int);
        assert(t.drop_last() =~= s);
    }
}

proof fn lemma_pairs_map_update(s: Seq<(Seq<char>, Seq<char>)>, i: int, value: Seq<char>)
    requires
        keys_distinct(s),
        0 <= i < s.len(),
    ensures
        pairs_map(s.update(i, (s[i].0, value))) =~= pairs_map(s).insert(s[i].0, value),
    decreases s.len(),
{
    let t = s.update(i, (s[i].0, value));
    if i == s.len() - 1 {
        assert(t.drop_last() =~= s.drop_last());
    } else {
        assert(t.drop_last() =~= s.drop_last().update(i, (s[i].0, value)));
        lemma_pairs_map_update(s.drop_last(), i, value);
    }
}

/// A copy of `v` with the same strings.
pub fn clone_strings(v: &Vec<String>) -> (out: Vec<String>)
    ensures
        out.deep_view() == v.deep_view(),
{
    let mut out: Vec<String> = Vec::new();
    let mut i: usize = 0;
    while i < v.len()
        invariant
            i <= v.len(),
            out.len() == i,
            forall|k: int| 0 <= k < i ==> out@[k] == v@[k],
        decreases v.len() - i,
    {
        out.push(v[i].clone());
        i += 1;
    }
    out
}

/// A copy of `v` with the same pairs.
pub fn clone_pairs(v: &Vec<(String, String)>) -> (out: Vec<(String, String)>)
    ensures
        out.deep_view() == v.deep_view(),
{
    let mut out: Vec<(String, String)> = Vec::new();
    let mut i: usize = 0;
    while i < v.len()
        invariant
            i <= v.len(),
            out.len() == i,
            forall|k: int| 0 <= k < i ==> out@[k] == v@[k],
        decreases v.len() - i,
    {
        out.push((v[i].0.clone(), v[i].1.clone()));
        i += 1;
    }
    out
}

/// A copy of `o`.
pub fn clone_opt(o: &Option<String>) -> (r: Option<String>)
    ensures
        r == *o,
{
    match o {
        Some(s) => Some(s.clone()),
        None => None,
    }
}

// ---- definition records ----------------------------------------------------------------

/// How a campaign prices an approved post.
#[derive(Debug, Clone, Copy, PartialEq, Eq, Structural)]
pub enum PayoutRule {
    /// Cents per 1 000 views, priced off the submission's latest snapshot.
    Cpm { cpm_cents: i64 },
    /// A flat fee per approved post, regardless of views.
    Flat { flat_cents: i64 },
}

impl DeepView for PayoutRule {
    type V = PayoutRule;

    open spec fn deep_view(&self) -> PayoutRule {
        *self
    }
}

impl Default for PayoutRule {
    fn default() -> (r: Self)
        ensures
            r == (PayoutRule::Flat { flat_cents: 0 }),
    {
        PayoutRule::Flat { flat_cents: 0 }
    }
}

/// A bonus unlocked at a view threshold. Tiers are not summed: the tier with the highest
/// met threshold wins.
#[derive(Debug, Clone, Copy, PartialEq, Eq, Structural)]
pub struct BonusTier {
    /// The view count at which this tier unlocks.
    pub views: i64,
    pub bonus_cents: i64,
}

impl DeepView for BonusTier {
    type V = BonusTier;

    open spec fn deep_view(&self) -> BonusTier {
        *self
    }
}

impl Default for BonusTier {
    fn default() -> (r: Self)
        ensures
            r == (BonusTier { views: 0, bonus_cents: 0 }),
    {
        BonusTier { views: 0, bonus_cents: 0 }
    }
}

/// A copy of `v` with the same tiers.
pub fn clone_tiers(v: &Vec<BonusTier>) -> (out: Vec<BonusTier>)
    ensures
        out@ == v@,
{
    let mut out: Vec<BonusTier> = Vec::new();
    let mut i: usize = 0;
    while i < v.len()
        invariant
            i <= v.len(),
            out.len() == i,
            forall|k: int| 0 <= k < i ==> out@[k] == v@[k],
        decreases v.len() - i,
    {
        out.push(v[i]);
        i += 1;
    }
    out
}

/// A brand campaign that creators post against.
#[derive(Debug)]
pub struct Campaign {
    pub id: String,
    pub brand: String,
    pub brief: String,
    pub status: CampaignStatus,
    /// Platform keys this campaign accepts, in lower case.
    pub platforms: Vec<String>,
    /// Hashtags a post must carry to qualify, without the `#`.
    pub required_hashtags: Vec<String>,
    /// Accounts a post must mention, without the `@`.
    pub required_mentions: Vec<String>,
    pub starts_at: Option<String>,
    pub ends_at: Option<String>,
    /// Campaign ceiling in cents; 0 means uncapped.
    pub budget_cents: i64,
    pub payout: PayoutRule,
    pub bonus_tiers: Vec<BonusTier>,
    /// Per-creator ceiling in cents; 0 means uncapped.
    pub max_payout_per_creator_cents: i64,
    pub created_at: String,
    pub updated_at: String,
}

/// The view of a [`Campaign`].
#[verifier::ext_equal]
pub struct CampaignView {
    pub id: Seq<char>,
    pub brand: Seq<char>,
    pub brief: Seq<char>,
    pub status: CampaignStatus,
    pub platforms: Seq<Seq<char>>,
    pub required_hashtags: Seq<Seq<char>>,
    pub required_mentions: Seq<Seq<char>>,
    pub starts_at: Option<Seq<char>>,
    pub ends_at: Option<Seq<char>>,
    pub budget_cents: i64,
    pub payout: PayoutRule,
    pub bonus_tiers: Seq<BonusTier>,
    pub max_payout_per_creator_cents: i64,
    pub created_at: Seq<char>,
    pub updated_at: Seq<char>,
}

impl DeepView for Campaign {
    type V = CampaignView;

    open spec fn deep_view(&self) -> CampaignView {
        CampaignView {
            id: self.id@,
            brand: self.brand@,
            brief: self.brief@,
            status: self.status,
            platforms: self.platforms.deep_view(),
            required_hashtags: self.required_hashtags.deep_view(),
            required_mentions: self.required_mentions.deep_view(),
            starts_at: self.starts_at.deep_view(),
            ends_at: self.ends_at.deep_view(),
            budget_cents: self.budget_cents,
            payout: self.payout,
            bonus_tiers: self.bonus_tiers@,
            max_payout_per_creator_cents: self.max_payout_per_creator_cents,
            created_at: self.created_at@,
            updated_at: self.updated_at@,
        }
    }
}

impl Clone for Campaign {
    fn clone(&self) -> (r: Self)
        ensures
            r.deep_view() == self.deep_view(),
    {
        Campaign {
            id: self.id.clone(),
            brand: self.brand.clone(),
            brief: self.brief.clone(),
            status: self.status,
            platforms: clone_strings(&self.platforms),
            required_hashtags: clone_strings(&self.required_hashtags),
            required_mentions: clone_strings(&self.required_mentions),
            starts_at: clone_opt(&self.starts_at),
            ends_at: clone_opt(&self.ends_at),
            budget_cents: self.budget_cents,
            payout: self.payout,
            bonus_tiers: clone_tiers(&self.bonus_tiers),
            max_payout_per_creator_cents: self.max_payout_per_creator_cents,
            created_at: self.created_at.clone(),
            updated_at: self.updated_at.clone(),
        }
    }
}

/// A creator on the roster.
#[derive(Debug)]
pub struct Creator {
    pub id: String,
    pub display_name: String,
    /// Per-platform handles, keyed by the same lower-case platform key that a submission
    /// uses.
    pub handles: Vec<(String, String)>,
    pub contact_email: Option<String>,
    /// Where money actually goes; free text.
    pub payout_handle: Option<String>,
    pub notes: Option<String>,
    pub created_at: String,
    pub updated_at: String,
}

/// The view of a [`Creator`].
#[verifier::ext_equal]
pub struct CreatorView {
    pub id: Seq<char>,
    pub display_name: Seq<char>,
    pub handles: Seq<(Seq<char>, Seq<char>)>,
    pub contact_email: Option<Seq<char>>,
    pub payout_handle: Option<Seq<char>>,
    pub notes: Option<Seq<char>>,
    pub created_at: Seq<char>,
    pub updated_at: Seq<char>,
}

impl DeepView for Creator {
    type V = CreatorView;

    open spec fn deep_view(&self) -> CreatorView {
        CreatorView {
            id: self.id@,
            display_name: self.display_name@,
            handles: self.handles.deep_view(),
            contact_email: self.contact_email.deep_view(),
            payout_handle: self.payout_handle.deep_view(),
            notes: self.notes.deep_view(),
            created_at: self.created_at@,
            updated_at: self.updated_at@,
        }
    }
}

impl Clone for Creator {
    fn clone(&self) -> (r: Self)
        ensures
            r.deep_view() == self.deep_view(),
    {
        Creator {
            id: self.id.clone(),
            display_name: self.display_name.clone(),
            handles: clone_pairs(&self.handles),
            contact_email: clone_opt(&self.contact_email),
            payout_handle: clone_opt(&self.payout_handle),
            notes: clone_opt(&self.notes),
            created_at: self.created_at.clone(),
            updated_at: self.updated_at.clone(),
        }
    }
}

// ---- append-only and aggregated records ---------------------------------------------------

/// One post submitted to a campaign.
#[derive(Debug)]
pub struct Submission {
    pub id: String,
    pub campaign_id: String,
    pub creator_id: String,
    /// Lower-case platform key.
    pub platform: String,
    pub post_url: String,
    /// The platform-native post id parsed out of `post_url`, or empty when the URL could
    /// not be parsed.
    pub external_post_id: String,
    pub status: SubmissionStatus,
    pub submitted_at: String,
    pub reviewed_at: Option<String>,
    pub rejection_reason: Option<String>,
    pub created_at: String,
    pub updated_at: String,
}

/// The view of a [`Submission`].
#[verifier::ext_equal]
pub struct SubmissionView {
    pub id: Seq<char>,
    pub campaign_id: Seq<char>,
    pub creator_id: Seq<char>,
    pub platform: Seq<char>,
    pub post_url: Seq<char>,
    pub external_post_id: Seq<char>,
    pub status: SubmissionStatus,
    pub submitted_at: Seq<char>,
    pub reviewed_at: Option<Seq<char>>,
    pub rejection_reason: Option<Seq<char>>,
    pub created_at: Seq<char>,
    pub updated_at: Seq<char>,
}

impl DeepView for Submission {
    type V = SubmissionView;

    open spec fn deep_view(&self) -> SubmissionView {
        SubmissionView {
            id: self.id@,
            campaign_id: self.campaign_id@,
            creator_id: self.creator_id@,
            platform: self.platform@,
            post_url: self.post_url@,
            external_post_id: self.external_post_id@,
            status: self.status,
            submitted_at: self.submitted_at@,
            reviewed_at: self.reviewed_at.deep_view(),
            rejection_reason: self.rejection_reason.deep_view(),
            created_at: self.created_at@,
            updated_at: self.updated_at@,
        }
    }
}

impl Clone for Submission {
    fn clone(&self) -> (r: Self)
        ensures
            r.deep_view() == self.deep_view(),
    {
        Submission {
            id: self.id.clone(),
            campaign_id: self.campaign_id.clone(),
            creator_id: self.creator_id.clone(),
            platform: self.platform.clone(),
            post_url: self.post_url.clone(),
            external_post_id: self.external_post_id.clone(),
            status: self.status,
            submitted_at: self.submitted_at.clone(),
            reviewed_at: clone_opt(&self.reviewed_at),
            rejection_reason: clone_opt(&self.rejection_reason),
            created_at: self.created_at.clone(),
            updated_at: self.updated_at.clone(),
        }
    }
}

/// One reading of a post's counters.
#[derive(Debug)]
pub struct MetricSnapshot {
    /// Assigned by the store; `0` on a row that has not been inserted yet.
    pub id: i64,
    pub submission_id: String,
    pub captured_at: String,
    pub views: i64,
    pub likes: i64,
    pub comments: i64,
    pub shares: i64,
    pub saves: i64,
    pub source: MetricSource,
}

/// The view of a [`MetricSnapshot`].
#[verifier::ext_equal]
pub struct SnapshotView {
    pub id: i64,
    pub submission_id: Seq<char>,
    pub captured_at: Seq<char>,
    pub views: i64,
    pub likes: i64,
    pub comments: i64,
    pub shares: i64,
    pub saves: i64,
    pub source: MetricSource,
}

impl DeepView for MetricSnapshot {
    type V = SnapshotView;

    open spec fn deep_view(&self) -> SnapshotView {
        SnapshotView {
            id: self.id,
            submission_id: self.submission_id@,
            captured_at: self.captured_at@,
            views: self.views,
            likes: self.likes,
            comments: self.comments,
            shares: self.shares,
            saves: self.saves,
            source: self.source,
        }
    }
}

impl Clone for MetricSnapshot {
    fn clone(&self) -> (r: Self)
        ensures
            r.deep_view() == self.deep_view(),
    {
        MetricSnapshot {
            id: self.id,
            submission_id: self.submission_id.clone(),
            captured_at: self.captured_at.clone(),
            views: self.views,
            likes: self.likes,
            comments: self.comments,
            shares: self.shares,
            saves: self.saves,
            source: self.source,
        }
    }
}

/// Money owed to a creator for a campaign. At most one row per submission.
#[derive(Debug)]
pub struct Payout {
    pub id: String,
    pub campaign_id: String,
    pub creator_id: String,
    /// `None` for a campaign-level bonus or manual adjustment that belongs to a creator but
    /// not to one post.
    pub submission_id: Option<String>,
    pub amount_cents: i64,
    pub status: PayoutStatus,
    /// What the accrual pass computed, in words.
    pub reason: String,
    pub accrued_at: String,
    pub approved_at: Option<String>,
    pub paid_at: Option<String>,
    pub created_at: String,
    pub updated_at: String,
}

/// The view of a [`Payout`].
#[verifier::ext_equal]
pub struct PayoutView {
    pub id: Seq<char>,
    pub campaign_id: Seq<char>,
    pub creator_id: Seq<char>,
    pub submission_id: Option<Seq<char>>,
    pub amount_cents: i64,
    pub status: PayoutStatus,
    pub reason: Seq<char>,
    pub accrued_at: Seq<char>,
    pub approved_at: Option<Seq<char>>,
    pub paid_at: Option<Seq<char>>,
    pub created_at: Seq<char>,
    pub updated_at: Seq<char>,
}

impl DeepView for Payout {
    type V = PayoutView;

    open spec fn deep_view(&self) -> PayoutView {
        PayoutView {
            id: self.id@,
            campaign_id: self.campaign_id@,
            creator_id: self.creator_id@,
            submission_id: self.submission_id.deep_view(),
            amount_cents: self.amount_cents,
            status: self.status,
            reason: self.reason@,
            accrued_at: self.accrued_at@,
            approved_at: self.approved_at.deep_view(),
            paid_at: self.paid_at.deep_view(),
            created_at: self.created_at@,
            updated_at: self.updated_at@,
        }
    }
}

impl Clone for Payout {
    fn clone(&self) -> (r: Self)
        ensures
            r.deep_view() == self.deep_view(),
    {
        Payout {
            id: self.id.clone(),
            campaign_id: self.campaign_id.clone(),
            creator_id: self.creator_id.clone(),
            submission_id: clone_opt(&self.submission_id),
            amount_cents: self.amount_cents,
            status: self.status,
            reason: self.reason.clone(),
            accrued_at: self.accrued_at.clone(),
            approved_at: clone_opt(&self.approved_at),
            paid_at: clone_opt(&self.paid_at),
            created_at: self.created_at.clone(),
            updated_at: self.updated_at.clone(),
        }
    }
}

} // verus!
