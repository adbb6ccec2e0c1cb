//! What callers send: the bodies and the queries of the API, the rules they are held to, and how
//! they change a record.
use crate::auth;
use crate::auth::filled;
use crate::clock;
use crate::clock::now_iso;
use crate::lists::{
    PayoutFilter, PayoutFilterView, SubmissionFilter, SubmissionFilterView,
};
use crate::records;
use crate::records::{
    set_pair, BonusTier, Campaign, CampaignStatus, CampaignView, Creator, CreatorView, PayoutRule,
    PayoutStatus, SubmissionStatus,
};
use crate::text;
use crate::text::{fold, is_blank, parse_i64, push_i64, str_eq, trim};
use vstd::prelude::*;

verus! {

// ---- single values ---------------------------------------------------------------------------

/// The platform key that a name stands for: lower-case and without white space at its ends.
pub fn normalize_platform(raw: &str) -> (r: String)
    ensures
        r@ == text::folded(raw@),
{
    fold(raw)
}

/// The page size that a query asks for; anything that is no 64-bit integer asks for none.
pub open spec fn limit_asked(raw: Option<Seq<char>>) -> Option<i64> {
    match raw {
        Some(s) => match text::in_range(
            text::read_signed(text::trimmed(s)),
            i64::MIN as int,
            i64::MAX as int,
        ) {
            Some(n) => Some(n as i64),
            None => None,
        },
        None => None,
    }
}

/// Parses `?limit=` leniently: garbage means no opinion.
pub fn parse_limit(raw: Option<&str>) -> (r: Option<i64>)
    ensures
        r == limit_asked(raw.deep_view()),
{
    match raw {
        Some(s) => parse_i64(trim(s)),
        None => None,
    }
}

/// The value of a flag says yes.
pub open spec fn truthy(raw: Seq<char>) -> bool {
    let s = text::folded(raw);
    s == "1"@ || s == "true"@ || s == "yes"@ || s == "on"@
}

/// Whether `?force=` says yes.
pub fn is_truthy(raw: &str) -> (b: bool)
    ensures
        b == truthy(raw@),
{
    let s = fold(raw);
    str_eq(s.as_str(), "1") || str_eq(s.as_str(), "true") || str_eq(s.as_str(), "yes") || str_eq(
        s.as_str(),
        "on",
    )
}

// ---- campaigns -------------------------------------------------------------------------------

/// The body that creates or updates a campaign.
#[derive(Debug)]
pub struct CampaignBody {
    pub brand: String,
    pub brief: String,
    /// Absent or unknown keeps the current status.
    pub status: Option<String>,
    pub platforms: Vec<String>,
    pub required_hashtags: Vec<String>,
    pub required_mentions: Vec<String>,
    pub starts_at: Option<String>,
    pub ends_at: Option<String>,
    /// 0 = uncapped.
    pub budget_cents: i64,
    /// How an approved post is priced.
    pub payout: PayoutRule,
    /// Bonuses unlocked at view thresholds. Not summed: the highest met tier wins.
    pub bonus_tiers: Vec<BonusTier>,
    /// 0 = uncapped.
    pub max_payout_per_creator_cents: i64,
}

/// The view of a [`CampaignBody`].
#[verifier::ext_equal]
pub struct CampaignBodyView {
    pub brand: Seq<char>,
    pub brief: Seq<char>,
    pub status: Option<Seq<char>>,
    pub platforms: Seq<Seq<char>>,
    pub required_hashtags: Seq<Seq<char>>,
    pub required_mentions: Seq<Seq<char>>,
    pub starts_at: Option<Seq<char>>,
    pub ends_at: Option<Seq<char>>,
    pub budget_cents: i64,
    pub payout: PayoutRule,
    pub bonus_tiers: Seq<BonusTier>,
    pub max_payout_per_creator_cents: i64,
}

impl DeepView for CampaignBody {
    type V = CampaignBodyView;

    open spec fn deep_view(&self) -> CampaignBodyView {
        CampaignBodyView {
            brand: self.brand@,
            brief: self.brief@,
            status: self.status.deep_view(),
            platforms: self.platforms.deep_view(),
            required_hashtags: self.required_hashtags.deep_view(),
            required_mentions: self.required_mentions.deep_view(),
            starts_at: self.starts_at.deep_view(),
            ends_at: self.ends_at.deep_view(),
            budget_cents: self.budget_cents,
            payout: self.payout,
            bonus_tiers: self.bonus_tiers@,
            max_payout_per_creator_cents: self.max_payout_per_creator_cents,
        }
    }
}

impl Default for CampaignBody {
    fn default() -> (r: Self)
        ensures
            r.deep_view() == (CampaignBodyView {
                brand: Seq::empty(),
                brief: Seq::empty(),
                status: None,
                platforms: Seq::empty(),
                required_hashtags: Seq::empty(),
                required_mentions: Seq::empty(),
                starts_at: None,
                ends_at: None,
                budget_cents: 0,
                payout: PayoutRule::Flat { flat_cents: 0 },
                bonus_tiers: Seq::empty(),
                max_payout_per_creator_cents: 0,
            }),
    {
        CampaignBody {
            brand: String::new(),
            brief: String::new(),
            status: None,
            platforms: Vec::new(),
            required_hashtags: Vec::new(),
            required_mentions: Vec::new(),
            starts_at: None,
            ends_at: None,
            budget_cents: 0,
            payout: PayoutRule::default(),
            bonus_tiers: Vec::new(),
            max_payout_per_creator_cents: 0,
        }
    }
}

/// What is wrong with the tier at `i`, seen after those before it.
pub open spec fn tier_fault(tiers: Seq<BonusTier>, i: int) -> Option<Seq<char>> {
    if tiers[i].views < 0 || tiers[i].bonus_cents < 0 {
        Some("bonus tier views and bonus_cents cannot be negative"@)
    } else if i > 0 && tiers[i].views <= tiers[i - 1].views {
        Some(
            "bonus tiers must increase strictly by view threshold ("@ + text::int_text(
                tiers[i].views as int,
            ) + " follows "@ + text::int_text(tiers[i - 1].views as int) + ")"@,
        )
    } else {
        None
    }
}

/// What is wrong with the first of the first `n` tiers that has a fault.
pub open spec fn ladder_fault(tiers: Seq<BonusTier>, n: nat) -> Option<Seq<char>>
    decreases n,
{
    if n == 0 {
        None
    } else {
        match ladder_fault(tiers, (n - 1) as nat) {
            Some(e) => Some(e),
            None => tier_fault(tiers, n - 1),
        }
    }
}

/// What is wrong with the amount of a payout rule.
pub open spec fn rule_fault(rule: PayoutRule) -> Option<Seq<char>> {
    match rule {
        PayoutRule::Cpm { cpm_cents } => if cpm_cents < 0 {
            Some("cpm_cents cannot be negative"@)
        } else {
            None
        },
        PayoutRule::Flat { flat_cents } => if flat_cents < 0 {
            Some("flat_cents cannot be negative"@)
        } else {
            None
        },
    }
}

/// What is wrong with a campaign's body, if anything is.
pub open spec fn campaign_fault(body: CampaignBodyView) -> Option<Seq<char>> {
    if text::blank(body.brand) {
        Some("brand is required"@)
    } else if rule_fault(body.payout) is Some {
        rule_fault(body.payout)
    } else if body.budget_cents < 0 {
        Some("budget_cents cannot be negative (use 0 for uncapped)"@)
    } else if body.max_payout_per_creator_cents < 0 {
        Some("max_payout_per_creator_cents cannot be negative (use 0 for uncapped)"@)
    } else {
        ladder_fault(body.bonus_tiers, body.bonus_tiers.len())
    }
}

/// Checks a campaign body: every rule here is one that money depends on.
pub fn validate_campaign(body: &CampaignBody) -> (r: Result<(), String>)
    ensures
        match campaign_fault(body.deep_view()) {
            Some(e) => r is Err && r->Err_0@ == e,
            None => r is Ok,
        },
{
    if is_blank(body.brand.as_str()) {
        return Err("brand is required".to_string());
    }
    match body.payout {
        PayoutRule::Cpm { cpm_cents } => {
            if cpm_cents < 0 {
                return Err("cpm_cents cannot be negative".to_string());
            }
        },
        PayoutRule::Flat { flat_cents } => {
            if flat_cents < 0 {
                return Err("flat_cents cannot be negative".to_string());
            }
        },
    }
    if body.budget_cents < 0 {
        return Err("budget_cents cannot be negative (use 0 for uncapped)".to_string());
    }
    if body.max_payout_per_creator_cents < 0 {
        return Err(
            "max_payout_per_creator_cents cannot be negative (use 0 for uncapped)".to_string(),
        );
    }
    check_ladder(&body.bonus_tiers)
}

/// Checks that no figure of the tiers is negative and that their thresholds strictly increase.
fn check_ladder(tiers: &Vec<BonusTier>) -> (r: Result<(), String>)
    ensures
        match ladder_fault(tiers@, tiers@.len()) {
            Some(e) => r is Err && r->Err_0@ == e,
            None => r is Ok,
        },
{
    let mut i: usize = 0;
    while i < tiers.len()
        invariant
            i <= tiers.len(),
            ladder_fault(tiers@, i as nat) is None,
        decreases tiers.len() - i,
    {
        let fault: Option<String> = if tiers[i].views < 0 || tiers[i].bonus_cents < 0 {
            Some("bonus tier views and bonus_cents cannot be negative".to_string())
        } else if i > 0 && tiers[i].views <= tiers[i - 1].views {
            let mut e = "bonus tiers must increase strictly by view threshold (".to_string();
            push_i64(&mut e, tiers[i].views);
            e.append(" follows ");
            push_i64(&mut e, tiers[i - 1].views);
            e.append(")");
            Some(e)
        } else {
            None
        };
        match fault {
            Some(e) => {
                proof {
                    lemma_ladder_keeps_first(tiers@, (i + 1) as nat, tiers@.len());
                }
                return Err(e);
            },
            None => {},
        }
        i += 1;
    }
    Ok(())
}

proof fn lemma_ladder_keeps_first(tiers: Seq<BonusTier>, k: nat, n: nat)
    requires
        k <= n,
        ladder_fault(tiers, k) is Some,
    ensures
        ladder_fault(tiers, n) == ladder_fault(tiers, k),
    decreases n,
{
    if k < n {
        lemma_ladder_keeps_first(tiers, k, (n - 1) as nat);
    }
}

/// A campaign that is accepted has a brand, no negative amount, and bonus thresholds that
/// strictly increase.
pub proof fn law_accepted_campaigns_are_sound(body: CampaignBodyView)
    requires
        campaign_fault(body) is None,
    ensures
        !text::blank(body.brand),
        match body.payout {
            PayoutRule::Cpm { cpm_cents } => cpm_cents >= 0,
            PayoutRule::Flat { flat_cents } => flat_cents >= 0,
        },
        body.budget_cents >= 0,
        body.max_payout_per_creator_cents >= 0,
        forall|i: int|
            0 <= i < body.bonus_tiers.len() ==> (#[trigger] body.bonus_tiers[i]).views >= 0
                && body.bonus_tiers[i].bonus_cents >= 0,
        forall|i: int, j: int|
            0 <= i < j < body.bonus_tiers.len() ==> (#[trigger] body.bonus_tiers[i]).views < (
            #[trigger] body.bonus_tiers[j]).views,
{
    lemma_ladder_is_sound(body.bonus_tiers, body.bonus_tiers.len());
}

proof fn lemma_ladder_is_sound(tiers: Seq<BonusTier>, n: nat)
    requires
        n <= tiers.len(),
        ladder_fault(tiers, n) is None,
    ensures
        forall|i: int| 0 <= i < n ==> (#[trigger] tiers[i]).views >= 0 && tiers[i].bonus_cents >= 0,
        forall|i: int, j: int|
            0 <= i < j < n ==> (#[trigger] tiers[i]).views < (#[trigger] tiers[j]).views,
    decreases n,
{
    if n > 0 {
        lemma_ladder_is_sound(tiers, (n - 1) as nat);
    }
}

/// The platforms of a body as they are stored.
pub open spec fn platform_keys(v: Seq<Seq<char>>) -> Seq<Seq<char>> {
    Seq::new(v.len(), |i: int| text::folded(v[i]))
}

/// The status that a body asks for, else the present one.
pub open spec fn status_asked(s: Option<Seq<char>>, now: CampaignStatus) -> CampaignStatus {
    match s {
        Some(t) => match CampaignStatus::named(text::folded(t)) {
            Some(status) => status,
            None => now,
        },
        None => now,
    }
}

/// The campaign that a body makes of `c`: its identity and its creation stamp stay.
pub open spec fn campaign_from(
    body: CampaignBodyView,
    c: CampaignView,
    now: Seq<char>,
) -> CampaignView {
    CampaignView {
        id: c.id,
        brand: text::trimmed(body.brand),
        brief: body.brief,
        status: status_asked(body.status, c.status),
        platforms: platform_keys(body.platforms),
        required_hashtags: body.required_hashtags,
        required_mentions: body.required_mentions,
        starts_at: body.starts_at,
        ends_at: body.ends_at,
        budget_cents: body.budget_cents,
        payout: body.payout,
        bonus_tiers: body.bonus_tiers,
        max_payout_per_creator_cents: body.max_payout_per_creator_cents,
        created_at: c.created_at,
        updated_at: now,
    }
}

fn normalize_all(v: &Vec<String>) -> (out: Vec<String>)
    ensures
        out.deep_view() == platform_keys(v.deep_view()),
{
    let mut out: Vec<String> = Vec::new();
    let mut i: usize = 0;
    while i < v.len()
        invariant
            i <= v.len(),
            out.len() == i,
            forall|k: int| 0 <= k < i ==> (#[trigger] out@[k])@ == text::folded(v@[k]@),
        decreases v.len() - i,
    {
        out.push(normalize_platform(v[i].as_str()));
        i += 1;
    }
    out
}

/// Folds a body onto a campaign at the given time.
pub fn apply_campaign_at(body: CampaignBody, campaign: Campaign, now: &str) -> (r: Campaign)
    ensures
        r.deep_view() == campaign_from(body.deep_view(), campaign.deep_view(), now@),
{
    let status: CampaignStatus = match &body.status {
        Some(s) => match CampaignStatus::parse(s.as_str()) {
            Some(status) => status,
            None => campaign.status,
        },
        None => campaign.status,
    };
    Campaign {
        id: campaign.id,
        brand: trim(body.brand.as_str()).to_string(),
        brief: body.brief,
        status,
        platforms: normalize_all(&body.platforms),
        required_hashtags: body.required_hashtags,
        required_mentions: body.required_mentions,
        starts_at: body.starts_at,
        ends_at: body.ends_at,
        budget_cents: body.budget_cents,
        payout: body.payout,
        bonus_tiers: body.bonus_tiers,
        max_payout_per_creator_cents: body.max_payout_per_creator_cents,
        created_at: campaign.created_at,
        updated_at: now.to_string(),
    }
}

/// Folds a body onto a campaign.
pub fn apply_campaign(body: CampaignBody, campaign: Campaign) -> (r: Campaign)
    ensures
        exists|now: Seq<char>|
            clock::is_stamp(now)
                && r.deep_view() == #[trigger] campaign_from(body.deep_view(), campaign.deep_view(), now),
{
    let now = now_iso();
    apply_campaign_at(body, campaign, now.as_str())
}

/// A campaign before a body is folded onto it.
pub open spec fn blank_campaign(id: Seq<char>, now: Seq<char>) -> CampaignView {
    CampaignView {
        id,
        brand: Seq::empty(),
        brief: Seq::empty(),
        status: CampaignStatus::Draft,
        platforms: Seq::empty(),
        required_hashtags: Seq::empty(),
        required_mentions: Seq::empty(),
        starts_at: None,
        ends_at: None,
        budget_cents: 0,
        payout: PayoutRule::Flat { flat_cents: 0 },
        bonus_tiers: Seq::empty(),
        max_payout_per_creator_cents: 0,
        created_at: now,
        updated_at: now,
    }
}

/// A campaign before a body is folded onto it.
pub fn new_campaign(id: &str, now: &str) -> (r: Campaign)
    ensures
        r.deep_view() == blank_campaign(id@, now@),
{
    let r = Campaign {
        id: id.to_string(),
        brand: String::new(),
        brief: String::new(),
        status: CampaignStatus::Draft,
        platforms: Vec::new(),
        required_hashtags: Vec::new(),
        required_mentions: Vec::new(),
        starts_at: None,
        ends_at: None,
        budget_cents: 0,
        payout: PayoutRule::default(),
        bonus_tiers: Vec::new(),
        max_payout_per_creator_cents: 0,
        created_at: now.to_string(),
        updated_at: now.to_string(),
    };
    r
}

/// The query of the campaign list.
#[derive(Debug)]
pub struct CampaignQuery {
    pub status: Option<String>,
}

/// The status that a query names; an unknown one is no filter.
pub open spec fn campaign_status_asked(s: Option<Seq<char>>) -> Option<CampaignStatus> {
    match s {
        Some(t) => CampaignStatus::named(text::folded(t)),
        None => None,
    }
}

impl CampaignQuery {
    /// The status filter of the query.
    pub fn status_filter(&self) -> (r: Option<CampaignStatus>)
        ensures
            r == campaign_status_asked(self.status.deep_view()),
    {
        match &self.status {
            Some(s) => CampaignStatus::parse(s.as_str()),
            None => None,
        }
    }
}

// ---- creators --------------------------------------------------------------------------------

/// The body that creates or updates a creator.
#[derive(Debug)]
pub struct CreatorBody {
    pub display_name: String,
    /// Platform key and handle.
    pub handles: Vec<(String, String)>,
    pub contact_email: Option<String>,
    pub payout_handle: Option<String>,
    pub notes: Option<String>,
}

/// The view of a [`CreatorBody`].
#[verifier::ext_equal]
pub struct CreatorBodyView {
    pub display_name: Seq<char>,
    pub handles: Seq<(Seq<char>, Seq<char>)>,
    pub contact_email: Option<Seq<char>>,
    pub payout_handle: Option<Seq<char>>,
    pub notes: Option<Seq<char>>,
}

impl DeepView for CreatorBody {
    type V = CreatorBodyView;

    open spec fn deep_view(&self) -> CreatorBodyView {
        CreatorBodyView {
            display_name: self.display_name@,
            handles: self.handles.deep_view(),
            contact_email: self.contact_email.deep_view(),
            payout_handle: self.payout_handle.deep_view(),
            notes: self.notes.deep_view(),
        }
    }
}

impl Default for CreatorBody {
    fn default() -> (r: Self)
        ensures
            r.deep_view() == (CreatorBodyView {
                display_name: Seq::empty(),
                handles: Seq::empty(),
                contact_email: None,
                payout_handle: None,
                notes: None,
            }),
    {
        CreatorBody {
            display_name: String::new(),
            handles: Vec::new(),
            contact_email: None,
            payout_handle: None,
            notes: None,
        }
    }
}

/// The first `n` handles under their platform keys; of two under one key the later counts.
pub open spec fn keyed_handles(s: Seq<(Seq<char>, Seq<char>)>, n: nat) -> Seq<
    (Seq<char>, Seq<char>),
>
    decreases n,
{
    if n == 0 {
        Seq::empty()
    } else {
        records::with_pair(
            keyed_handles(s, (n - 1) as nat),
            text::folded(s[n - 1].0),
            s[n - 1].1,
        )
    }
}

/// The creator that a body makes of `c`: their identity and their creation stamp stay.
pub open spec fn creator_from(body: CreatorBodyView, c: CreatorView, now: Seq<char>) -> CreatorView {
    CreatorView {
        id: c.id,
        display_name: text::trimmed(body.display_name),
        handles: keyed_handles(body.handles, body.handles.len()),
        contact_email: auth::nonblank(body.contact_email),
        payout_handle: body.payout_handle,
        notes: body.notes,
        created_at: c.created_at,
        updated_at: now,
    }
}

/// No key stands twice among a creator's handles.
pub proof fn law_handle_keys_are_distinct(s: Seq<(Seq<char>, Seq<char>)>, n: nat)
    requires
        n <= s.len(),
    ensures
        records::keys_distinct(keyed_handles(s, n)),
    decreases n,
{
    if n > 0 {
        law_handle_keys_are_distinct(s, (n - 1) as nat);
        records::law_with_pair_is_insert(
            keyed_handles(s, (n - 1) as nat),
            text::folded(s[n - 1].0),
            s[n - 1].1,
        );
    }
}

fn key_handles(v: &Vec<(String, String)>) -> (out: Vec<(String, String)>)
    ensures
        out.deep_view() == keyed_handles(v.deep_view(), v.deep_view().len()),
{
    let mut out: Vec<(String, String)> = Vec::new();
    let mut i: usize = 0;
    while i < v.len()
        invariant
            i <= v.len(),
            out.deep_view() == keyed_handles(v.deep_view(), i as nat),
        decreases v.len() - i,
    {
        set_pair(&mut out, normalize_platform(v[i].0.as_str()), v[i].1.clone());
        i += 1;
    }
    out
}

/// Folds a body onto a creator at the given time.
pub fn apply_creator_at(body: CreatorBody, creator: Creator, now: &str) -> (r: Creator)
    ensures
        r.deep_view() == creator_from(body.deep_view(), creator.deep_view(), now@),
{
    let contact_email: Option<String> = match &body.contact_email {
        Some(e) => filled(Some(e.as_str())),
        None => None,
    };
    Creator {
        id: creator.id,
        display_name: trim(body.display_name.as_str()).to_string(),
        handles: key_handles(&body.handles),
        contact_email,
        payout_handle: body.payout_handle,
        notes: body.notes,
        created_at: creator.created_at,
        updated_at: now.to_string(),
    }
}

/// Folds a body onto a creator.
pub fn apply_creator(body: CreatorBody, creator: Creator) -> (r: Creator)
    ensures
        exists|now: Seq<char>|
            clock::is_stamp(now)
                && r.deep_view() == #[trigger] creator_from(body.deep_view(), creator.deep_view(), now),
{
    let now = now_iso();
    apply_creator_at(body, creator, now.as_str())
}

/// A creator before a body is folded onto them.
pub open spec fn blank_creator(id: Seq<char>, now: Seq<char>) -> CreatorView {
    CreatorView {
        id,
        display_name: Seq::empty(),
        handles: Seq::empty(),
        contact_email: None,
        payout_handle: None,
        notes: None,
        created_at: now,
        updated_at: now,
    }
}

/// A creator before a body is folded onto them.
pub fn new_creator(id: &str, now: &str) -> (r: Creator)
    ensures
        r.deep_view() == blank_creator(id@, now@),
{
    let r = Creator {
        id: id.to_string(),
        display_name: String::new(),
        handles: Vec::new(),
        contact_email: None,
        payout_handle: None,
        notes: None,
        created_at: now.to_string(),
        updated_at: now.to_string(),
    };
    r
}

/// The query of the roster.
#[derive(Debug)]
pub struct CreatorQuery {
    pub q: Option<String>,
}

/// The query of a creator's deletion.
#[derive(Debug)]
pub struct ForceQuery {
    pub force: Option<String>,
}

/// The query asks for the deletion of everything under the creator too.
pub open spec fn forced(raw: Option<Seq<char>>) -> bool {
    raw is Some && truthy(raw->0)
}

impl ForceQuery {
    /// Whether the query asks for the deletion of everything under the creator too.
    pub fn is_forced(&self) -> (b: bool)
        ensures
            b == forced(self.force.deep_view()),
    {
        match &self.force {
            Some(s) => is_truthy(s.as_str()),
            None => false,
        }
    }
}

// ---- submissions -----------------------------------------------------------------------------

/// The body that records a submission.
#[derive(Debug)]
pub struct SubmissionBody {
    pub campaign_id: String,
    pub creator_id: String,
    pub platform: String,
    pub post_url: String,
}

/// The view of a [`SubmissionBody`].
#[verifier::ext_equal]
pub struct SubmissionBodyView {
    pub campaign_id: Seq<char>,
    pub creator_id: Seq<char>,
    pub platform: Seq<char>,
    pub post_url: Seq<char>,
}

impl DeepView for SubmissionBody {
    type V = SubmissionBodyView;

    open spec fn deep_view(&self) -> SubmissionBodyView {
        SubmissionBodyView {
            campaign_id: self.campaign_id@,
            creator_id: self.creator_id@,
            platform: self.platform@,
            post_url: self.post_url@,
        }
    }
}

/// The body that corrects a submission.
#[derive(Debug)]
pub struct SubmissionEditBody {
    pub platform: Option<String>,
    pub post_url: Option<String>,
}

/// The body of a review decision.
#[derive(Debug)]
pub struct ReviewBody {
    /// `approve` or `reject`.
    pub decision: String,
    pub reason: Option<String>,
}

/// What a decision says: approve, reject, or neither.
pub open spec fn decided(decision: Seq<char>) -> Option<bool> {
    let s = text::folded(decision);
    if s == "approve"@ || s == "approved"@ {
        Some(true)
    } else if s == "reject"@ || s == "rejected"@ {
        Some(false)
    } else {
        None
    }
}

/// Reads a review decision: `Some(true)` approves, `Some(false)` rejects.
pub fn read_decision(decision: &str) -> (r: Option<bool>)
    ensures
        r == decided(decision@),
{
    let s = fold(decision);
    if str_eq(s.as_str(), "approve") || str_eq(s.as_str(), "approved") {
        Some(true)
    } else if str_eq(s.as_str(), "reject") || str_eq(s.as_str(), "rejected") {
        Some(false)
    } else {
        None
    }
}

/// The body of a hand-entered snapshot.
#[derive(Debug, Clone, Copy)]
pub struct MetricsBody {
    pub views: i64,
    pub likes: i64,
    pub comments: i64,
    pub shares: i64,
    pub saves: i64,
}

impl Default for MetricsBody {
    fn default() -> (r: Self)
        ensures
            r == (MetricsBody { views: 0, likes: 0, comments: 0, shares: 0, saves: 0 }),
    {
        MetricsBody { views: 0, likes: 0, comments: 0, shares: 0, saves: 0 }
    }
}

/// The query of a read that pages.
#[derive(Debug)]
pub struct LimitQuery {
    pub limit: Option<String>,
}

impl LimitQuery {
    /// The page size that the query asks for.
    pub fn asked(&self) -> (r: Option<i64>)
        ensures
            r == limit_asked(self.limit.deep_view()),
    {
        match &self.limit {
            Some(s) => parse_limit(Some(s.as_str())),
            None => None,
        }
    }
}

/// The query of the submission lists.
#[derive(Debug)]
pub struct SubmissionQuery {
    pub campaign_id: Option<String>,
    pub creator_id: Option<String>,
    pub status: Option<String>,
    pub platform: Option<String>,
    pub limit: Option<String>,
}

/// The view of a [`SubmissionQuery`].
#[verifier::ext_equal]
pub struct SubmissionQueryView {
    pub campaign_id: Option<Seq<char>>,
    pub creator_id: Option<Seq<char>>,
    pub status: Option<Seq<char>>,
    pub platform: Option<Seq<char>>,
    pub limit: Option<Seq<char>>,
}

impl DeepView for SubmissionQuery {
    type V = SubmissionQueryView;

    open spec fn deep_view(&self) -> SubmissionQueryView {
        SubmissionQueryView {
            campaign_id: self.campaign_id.deep_view(),
            creator_id: self.creator_id.deep_view(),
            status: self.status.deep_view(),
            platform: self.platform.deep_view(),
            limit: self.limit.deep_view(),
        }
    }
}

impl Default for SubmissionQuery {
    fn default() -> (r: Self)
        ensures
            r.deep_view() == (SubmissionQueryView {
                campaign_id: None,
                creator_id: None,
                status: None,
                platform: None,
                limit: None,
            }),
    {
        SubmissionQuery {
            campaign_id: None,
            creator_id: None,
            status: None,
            platform: None,
            limit: None,
        }
    }
}

impl SubmissionQueryView {
    /// The filter that the query stands for: an unknown status and a blank platform are none.
    pub open spec fn filter(self) -> SubmissionFilterView {
        SubmissionFilterView {
            campaign_id: self.campaign_id,
            creator_id: self.creator_id,
            status: match self.status {
                Some(t) => SubmissionStatus::named(text::folded(t)),
                None => None,
            },
            platform: match self.platform {
                Some(p) => if text::blank(p) {
                    None
                } else {
                    Some(text::folded(p))
                },
                None => None,
            },
            limit: limit_asked(self.limit),
        }
    }
}

impl SubmissionQuery {
    /// The filter that the query stands for.
    pub fn into_filter(self) -> (r: SubmissionFilter)
        ensures
            r.deep_view() == self.deep_view().filter(),
    {
        let status: Option<SubmissionStatus> = match &self.status {
            Some(s) => SubmissionStatus::parse(s.as_str()),
            None => None,
        };
        let platform: Option<String> = match &self.platform {
            Some(p) => {
                if is_blank(p.as_str()) {
                    None
                } else {
                    Some(normalize_platform(p.as_str()))
                }
            },
            None => None,
        };
        let limit: Option<i64> = match &self.limit {
            Some(s) => parse_limit(Some(s.as_str())),
            None => None,
        };
        SubmissionFilter {
            campaign_id: self.campaign_id,
            creator_id: self.creator_id,
            status,
            platform,
            limit,
        }
    }
}

// ---- payouts ---------------------------------------------------------------------------------

/// The query of the payout list.
#[derive(Debug)]
pub struct PayoutQuery {
    pub campaign_id: Option<String>,
    pub creator_id: Option<String>,
    pub status: Option<String>,
    pub limit: Option<String>,
}

/// The view of a [`PayoutQuery`].
#[verifier::ext_equal]
pub struct PayoutQueryView {
    pub campaign_id: Option<Seq<char>>,
    pub creator_id: Option<Seq<char>>,
    pub status: Option<Seq<char>>,
    pub limit: Option<Seq<char>>,
}

impl DeepView for PayoutQuery {
    type V = PayoutQueryView;

    open spec fn deep_view(&self) -> PayoutQueryView {
        PayoutQueryView {
            campaign_id: self.campaign_id.deep_view(),
            creator_id: self.creator_id.deep_view(),
            status: self.status.deep_view(),
            limit: self.limit.deep_view(),
        }
    }
}

impl PayoutQueryView {
    /// The filter that the query stands for: an unknown status is none.
    pub open spec fn filter(self) -> PayoutFilterView {
        PayoutFilterView {
            campaign_id: self.campaign_id,
            creator_id: self.creator_id,
            status: match self.status {
                Some(t) => PayoutStatus::named(text::folded(t)),
                None => None,
            },
            limit: limit_asked(self.limit),
        }
    }
}

impl PayoutQuery {
    /// The filter that the query stands for.
    pub fn into_filter(self) -> (r: PayoutFilter)
        ensures
            r.deep_view() == self.deep_view().filter(),
    {
        let status: Option<PayoutStatus> = match &self.status {
            Some(s) => PayoutStatus::parse(s.as_str()),
            None => None,
        };
        let limit: Option<i64> = match &self.limit {
            Some(s) => parse_limit(Some(s.as_str())),
            None => None,
        };
        PayoutFilter { campaign_id: self.campaign_id, creator_id: self.creator_id, status, limit }
    }
}

} // verus!
