//! What a request does: which bodies are accepted, what is stored of them, and what everything else
//! keeps.
use crate::api;
use crate::engine::EngineView;
use crate::inputs;
use crate::inputs::{CampaignBodyView, CreatorBodyView};
use crate::post_laws;
use crate::price_laws;
use crate::records;
use crate::records::{
    BonusTier, CampaignStatus, CampaignView, CreatorView, PayoutRule, PayoutStatus, SnapshotView,
};
use crate::replies;
use crate::rows;
use crate::store;
use crate::store::{PayoutRowView, StoreError, StoreView, SubmissionRowView};
use crate::text;
use crate::wire_laws;
use vstd::prelude::*;

verus! {

// ---- campaigns -------------------------------------------------------------------------------

/// A body that a campaign can be made of: a brand, no amount below 0, and tier thresholds that
/// strictly increase.
pub open spec fn is_sound(body: CampaignBodyView) -> bool {
    &&& text::trimmed(body.brand).len() > 0
    &&& match body.payout {
        PayoutRule::Cpm { cpm_cents } => 0 <= cpm_cents,
        PayoutRule::Flat { flat_cents } => 0 <= flat_cents,
    }
    &&& 0 <= body.budget_cents
    &&& 0 <= body.max_payout_per_creator_cents
    &&& forall|i: int|
        0 <= i < body.bonus_tiers.len() ==> 0 <= (#[trigger] body.bonus_tiers[i]).views && 0
            <= body.bonus_tiers[i].bonus_cents
    &&& forall|i: int, j: int|
        0 <= i < j < body.bonus_tiers.len() ==> (#[trigger] body.bonus_tiers[i]).views < (
        #[trigger] body.bonus_tiers[j]).views
}

/// Exactly the sound bodies have no fault: whatever budget, cap, rate or ladder a body sends, it is
/// accepted as long as no amount is negative and the thresholds strictly increase.
pub proof fn law_sound_campaigns_are_accepted(body: CampaignBodyView)
    ensures
        inputs::campaign_fault(body) is None <==> is_sound(body),
{
    if is_sound(body) {
        lemma_sound_ladder(body.bonus_tiers, body.bonus_tiers.len());
    }
    if inputs::campaign_fault(body) is None {
        inputs::law_accepted_campaigns_are_sound(body);
    }
}

proof fn lemma_sound_ladder(tiers: Seq<BonusTier>, n: nat)
    requires
        n <= tiers.len(),
        forall|i: int|
            0 <= i < tiers.len() ==> 0 <= (#[trigger] tiers[i]).views && 0 <= tiers[i].bonus_cents,
        forall|i: int, j: int|
            0 <= i < j < tiers.len() ==> (#[trigger] tiers[i]).views < (#[trigger] tiers[j]).views,
    ensures
        inputs::ladder_fault(tiers, n) is None,
    decreases n,
{
    if n > 0 {
        lemma_sound_ladder(tiers, (n - 1) as nat);
        if n > 1 {
            assert(tiers[n - 2].views < tiers[n - 1].views);
        }
    }
}

/// The message of a refusal names the first thing that is wrong: the brand, the rate, the budget,
/// the cap, and then the first tier that is.
pub proof fn law_a_refused_campaign_says_why(body: CampaignBodyView, k: int)
    ensures
        ({
            let fault = inputs::campaign_fault(body);
            let branded = text::trimmed(body.brand).len() > 0;
            let rated = match body.payout {
                PayoutRule::Cpm { cpm_cents } => 0 <= cpm_cents,
                PayoutRule::Flat { flat_cents } => 0 <= flat_cents,
            };
            let tiers = body.bonus_tiers;
            let fine = branded && rated && 0 <= body.budget_cents && 0
                <= body.max_payout_per_creator_cents;
            let sound_before = forall|i: int|
                0 <= i < k ==> 0 <= (#[trigger] tiers[i]).views && 0 <= tiers[i].bonus_cents && (0
                    < i ==> tiers[i - 1].views < tiers[i].views);
            &&& !branded ==> fault == Some("brand is required"@)
            &&& branded && !rated && body.payout is Cpm ==> fault == Some(
                "cpm_cents cannot be negative"@,
            )
            &&& branded && !rated && body.payout is Flat ==> fault == Some(
                "flat_cents cannot be negative"@,
            )
            &&& branded && rated && body.budget_cents < 0 ==> fault == Some(
                "budget_cents cannot be negative (use 0 for uncapped)"@,
            )
            &&& branded && rated && 0 <= body.budget_cents && body.max_payout_per_creator_cents < 0
                ==> fault == Some(
                "max_payout_per_creator_cents cannot be negative (use 0 for uncapped)"@,
            )
            &&& fine && 0 <= k < tiers.len() && sound_before && (tiers[k].views < 0
                || tiers[k].bonus_cents < 0) ==> fault == Some(
                "bonus tier views and bonus_cents cannot be negative"@,
            )
            &&& fine && 0 < k < tiers.len() && sound_before && 0 <= tiers[k].views && 0
                <= tiers[k].bonus_cents && tiers[k].views <= tiers[k - 1].views ==> fault == Some(
                "bonus tiers must increase strictly by view threshold ("@ + text::int_text(
                    tiers[k].views as int,
                ) + " follows "@ + text::int_text(tiers[k - 1].views as int) + ")"@,
            )
        }),
{
    let tiers = body.bonus_tiers;
    if 0 <= k < tiers.len() && (forall|i: int|
        0 <= i < k ==> 0 <= (#[trigger] tiers[i]).views && 0 <= tiers[i].bonus_cents && (0 < i
            ==> tiers[i - 1].views < tiers[i].views)) {
        lemma_ladder_before(tiers, k as nat);
        lemma_first_fault(tiers, (k + 1) as nat, tiers.len());
    }
}

proof fn lemma_ladder_before(tiers: Seq<BonusTier>, k: nat)
    requires
        k <= tiers.len(),
        forall|i: int|
            0 <= i < k ==> 0 <= (#[trigger] tiers[i]).views && 0 <= tiers[i].bonus_cents && (0 < i
                ==> tiers[i - 1].views < tiers[i].views),
    ensures
        inputs::ladder_fault(tiers, k) is None,
    decreases k,
{
    if k > 0 {
        lemma_ladder_before(tiers, (k - 1) as nat);
        assert(0 <= tiers[k - 1].views);
    }
}

proof fn lemma_first_fault(tiers: Seq<BonusTier>, k: nat, n: nat)
    requires
        k <= n,
    ensures
        inputs::ladder_fault(tiers, k) is Some ==> inputs::ladder_fault(tiers, n)
            == inputs::ladder_fault(tiers, k),
    decreases n,
{
    if k < n {
        lemma_first_fault(tiers, k, (n - 1) as nat);
    }
}

/// The state that a body asks for by name, in whatever case and with whatever white space around
/// it; a body that names none, or an unknown one, keeps the present state.
pub proof fn law_a_campaign_takes_the_state_it_is_given(
    raw: Option<Seq<char>>,
    now: CampaignStatus,
)
    ensures
        ({
            let asked = inputs::status_asked(raw, now);
            let name = text::lower(text::trimmed(raw->0));
            &&& raw is None ==> asked == now
            &&& raw is Some && name == "draft"@ ==> asked == CampaignStatus::Draft
            &&& raw is Some && name == "active"@ ==> asked == CampaignStatus::Active
            &&& raw is Some && name == "paused"@ ==> asked == CampaignStatus::Paused
            &&& raw is Some && name == "ended"@ ==> asked == CampaignStatus::Ended
            &&& raw is Some && name != "draft"@ && name != "active"@ && name != "paused"@ && name
                != "ended"@ ==> asked == now
        }),
{
    lemma_campaign_names();
}

proof fn lemma_campaign_names()
    ensures
        "draft"@ != "active"@,
        "draft"@ != "paused"@,
        "draft"@ != "ended"@,
        "active"@ != "paused"@,
        "active"@ != "ended"@,
        "paused"@ != "ended"@,
{
    reveal_strlit("draft");
    reveal_strlit("active");
    reveal_strlit("paused");
    reveal_strlit("ended");
    assert("draft"@[0] == 'd' && "active"@[0] == 'a' && "paused"@[0] == 'p' && "ended"@[0] == 'e');
}

/// The campaign holds what the body sent, under its own id and with its own creation stamp.
pub open spec fn made_of(
    c: CampaignView,
    body: CampaignBodyView,
    id: Seq<char>,
    status: CampaignStatus,
    created_at: Seq<char>,
    updated_at: Seq<char>,
) -> bool {
    &&& c.id == id
    &&& c.brand == text::trimmed(body.brand)
    &&& c.brief == body.brief
    &&& c.status == status
    &&& c.platforms.len() == body.platforms.len()
    &&& forall|i: int|
        0 <= i < c.platforms.len() ==> #[trigger] c.platforms[i] == text::lower(
            text::trimmed(body.platforms[i]),
        )
    &&& c.required_hashtags == body.required_hashtags
    &&& c.required_mentions == body.required_mentions
    &&& c.starts_at == body.starts_at
    &&& c.ends_at == body.ends_at
    &&& c.budget_cents == body.budget_cents
    &&& c.payout == body.payout
    &&& c.bonus_tiers == body.bonus_tiers
    &&& c.max_payout_per_creator_cents == body.max_payout_per_creator_cents
    &&& c.created_at == created_at
    &&& c.updated_at == updated_at
}

/// A sound body creates a campaign that holds exactly what was sent: it is added behind the others,
/// read back under its id, and answered with a success. It starts as a draft unless the body names
/// another state. An unsound one is answered 400 and changes nothing.
pub proof fn law_a_campaign_is_created(
    e: EngineView,
    body: CampaignBodyView,
    id: Seq<char>,
    created_at: Seq<char>,
    updated_at: Seq<char>,
)
    requires
        e.store.wf(),
        !e.store.has_campaign(id),
    ensures
        ({
            let (after, reply) = e.created_campaign(body, id, created_at, updated_at);
            let status = inputs::status_asked(body.status, CampaignStatus::Draft);
            &&& is_sound(body) ==> {
                &&& reply.status == 200
                &&& after.store.campaigns.len() == e.store.campaigns.len() + 1
                &&& after.store.campaigns.drop_last() =~= e.store.campaigns
                &&& made_of(
                    after.store.campaigns.last(),
                    body,
                    id,
                    status,
                    created_at,
                    updated_at,
                )
                &&& after.store.read_campaign(id) == Ok::<_, StoreError>(
                    Some(after.store.campaigns.last()),
                )
                &&& keeps_the_rest(e, after)
            }
            &&& !is_sound(body) ==> after == e && reply.status == 400
        }),
{
    law_sound_campaigns_are_accepted(body);
    if is_sound(body) {
        let after = e.created_campaign(body, id, created_at, updated_at).0;
        rows::lemma_position(e.store.campaigns, store::campaign_is(id));
        let c = inputs::campaign_from(
            body,
            inputs::blank_campaign(id, created_at),
            updated_at,
        );
        assert(after.store.campaigns == e.store.campaigns.push(c));
        assert(e.store.campaigns.push(c).drop_last() =~= e.store.campaigns);
        store::law_upsert_campaign_keeps_rules(e.store, c);
        price_laws::lemma_a_readable_campaign(after.store, e.store.campaigns.len() as int);
    }
}

/// Nothing but the campaigns differs: not the roster, the posts, the counters or the money.
pub open spec fn keeps_the_rest(before: EngineView, after: EngineView) -> bool {
    &&& after.store.creators == before.store.creators
    &&& after.store.unread_creators == before.store.unread_creators
    &&& after.store.submissions == before.store.submissions
    &&& after.store.snapshots == before.store.snapshots
    &&& after.store.payouts == before.store.payouts
    &&& after.outbox == before.outbox
}

/// A sound body updates a campaign in place: it holds exactly what was sent, keeps its id and its
/// creation stamp, and keeps its state unless the body names another. Every other campaign stays as
/// it is. An unsound body is answered 400, and an unknown campaign 404; both change nothing.
pub proof fn law_a_campaign_is_updated(
    e: EngineView,
    c: int,
    body: CampaignBodyView,
    now: Seq<char>,
    other: Seq<char>,
)
    requires
        e.store.wf(),
        0 <= c < e.store.campaigns.len(),
    ensures
        ({
            let was = e.store.campaigns[c];
            let (after, reply) = e.updated_campaign(was.id, body, now);
            let status = inputs::status_asked(body.status, was.status);
            &&& is_sound(body) ==> {
                &&& reply.status == 200
                &&& after.store.campaigns.len() == e.store.campaigns.len()
                &&& made_of(after.store.campaigns[c], body, was.id, status, was.created_at, now)
                &&& forall|i: int|
                    0 <= i < e.store.campaigns.len() && i != c
                        ==> #[trigger] after.store.campaigns[i] == e.store.campaigns[i]
                &&& keeps_the_rest(e, after)
            }
            &&& !is_sound(body) ==> after == e && reply.status == 400
            &&& is_sound(body) && !e.store.has_campaign(other) ==> e.updated_campaign(
                other,
                body,
                now,
            ).0 == e && e.updated_campaign(other, body, now).1.status == 404
        }),
{
    law_sound_campaigns_are_accepted(body);
    let was = e.store.campaigns[c];
    price_laws::lemma_a_readable_campaign(e.store, c);
    rows::lemma_only(
        e.store.campaigns,
        store::campaign_key(),
        store::campaign_is(was.id),
        was.id,
        c,
    );
}

/// An update tells which money the next pass re-prices and which a person signed off: the accrued
/// money of the summary, and its approved and paid money together.
pub proof fn law_an_update_tells_what_it_reprices(s: StoreView, id: Seq<char>)
    ensures
        s.summary(id) matches Ok(Some(t)) ==> {
            let told = api::repricing_json(s, id);
            &&& told.get("accrued_cents"@) == Some(crate::json::integer(t.accrued_cents as int))
            &&& told.get("frozen_cents"@) == Some(
                crate::json::integer(t.approved_cents + t.paid_cents),
            )
        },
{
    reveal_strlit("accrued_cents");
    reveal_strlit("frozen_cents");
    assert("accrued_cents"@[0] == 'a' && "frozen_cents"@[0] == 'f');
    let m = api::repricing_json(s, id)->Object_0;
    crate::json::lemma_member(m, "accrued_cents"@, 0);
    crate::json::lemma_member(m, "frozen_cents"@, 1);
}

// ---- creators --------------------------------------------------------------------------------

/// The creator holds what the body sent, under their own id and with their own creation stamp: the
/// name trimmed, the handles by platform key, and the address trimmed, where anything is left of
/// it.
pub open spec fn signed_up_as(
    c: CreatorView,
    body: CreatorBodyView,
    id: Seq<char>,
    created_at: Seq<char>,
    updated_at: Seq<char>,
) -> bool {
    &&& c.id == id
    &&& c.display_name == text::trimmed(body.display_name)
    &&& body.contact_email is None ==> c.contact_email is None
    &&& body.contact_email matches Some(a) ==> {
        &&& text::trimmed(a).len() > 0 ==> c.contact_email == Some(text::trimmed(a))
        &&& text::trimmed(a).len() == 0 ==> c.contact_email is None
    }
    &&& c.payout_handle == body.payout_handle
    &&& c.notes == body.notes
    &&& c.created_at == created_at
    &&& c.updated_at == updated_at
    &&& holds_handles(c.handles, body.handles)
}

/// The stored handles are the sent ones by platform key, in lower case and without white space
/// around it: each key once, with the handle that was sent last under it.
pub open spec fn holds_handles(
    stored: Seq<(Seq<char>, Seq<char>)>,
    sent: Seq<(Seq<char>, Seq<char>)>,
) -> bool {
    &&& forall|i: int, j: int|
        0 <= i < j < stored.len() ==> (#[trigger] stored[i]).0 != (#[trigger] stored[j]).0
    &&& forall|j: int|
        0 <= j < sent.len() && (forall|k: int|
            j < k < sent.len() ==> text::lower(text::trimmed((#[trigger] sent[k]).0))
                != text::lower(text::trimmed(sent[j].0))) ==> stored.contains(
            (text::lower(text::trimmed((#[trigger] sent[j]).0)), sent[j].1),
        )
    &&& forall|i: int|
        0 <= i < stored.len() ==> exists|j: int|
            0 <= j < sent.len() && #[trigger] stored[i] == (
                text::lower(text::trimmed((#[trigger] sent[j]).0)),
                sent[j].1,
            )
}

proof fn lemma_set_pair(s: Seq<(Seq<char>, Seq<char>)>, key: Seq<char>, value: Seq<char>)
    requires
        records::keys_distinct(s),
    ensures
        ({
            let t = records::with_pair(s, key, value);
            &&& t.contains((key, value))
            &&& forall|i: int|
                0 <= i < s.len() && (#[trigger] s[i]).0 != key ==> t.contains(s[i])
            &&& forall|i: int|
                0 <= i < t.len() ==> #[trigger] t[i] == (key, value) || (s.contains(t[i]) && t[i].0
                    != key)
        }),
    decreases s.len(),
{
    let t = records::with_pair(s, key, value);
    if s.len() == 0 {
        assert(t[0] == (key, value));
    } else if s[0].0 == key {
        assert(t[0] == (key, value));
        assert forall|i: int| 0 <= i < s.len() && (#[trigger] s[i]).0 != key implies t.contains(
            s[i],
        ) by {
            assert(t[i] == s[i]);
        }
        assert forall|i: int| 0 <= i < t.len() implies #[trigger] t[i] == (key, value) || (
        s.contains(t[i]) && t[i].0 != key) by {
            if i > 0 {
                assert(t[i] == s[i]);
            }
        }
    } else {
        let rest = s.skip(1);
        let u = records::with_pair(rest, key, value);
        assert forall|i: int, j: int| 0 <= i < j < rest.len() implies (#[trigger] rest[i]).0 != (
        #[trigger] rest[j]).0 by {
            assert(rest[i] == s[i + 1] && rest[j] == s[j + 1]);
        }
        lemma_set_pair(rest, key, value);
        assert(t =~= seq![s[0]] + u);
        let w = choose|w: int| 0 <= w < u.len() && u[w] == (key, value);
        assert(t[w + 1] == (key, value));
        assert forall|i: int| 0 <= i < s.len() && (#[trigger] s[i]).0 != key implies t.contains(
            s[i],
        ) by {
            if i == 0 {
                assert(t[0] == s[0]);
            } else {
                assert(rest[i - 1] == s[i]);
                let k = choose|k: int| 0 <= k < u.len() && u[k] == rest[i - 1];
                assert(t[k + 1] == s[i]);
            }
        }
        assert forall|i: int| 0 <= i < t.len() implies #[trigger] t[i] == (key, value) || (
        s.contains(t[i]) && t[i].0 != key) by {
            if i == 0 {
                assert(t[0] == s[0]);
            } else {
                assert(t[i] == u[i - 1]);
                if u[i - 1] != (key, value) {
                    let k = choose|k: int| 0 <= k < rest.len() && rest[k] == u[i - 1];
                    assert(s[k + 1] == t[i]);
                }
            }
        }
    }
}

proof fn lemma_handles(sent: Seq<(Seq<char>, Seq<char>)>, n: nat)
    requires
        n <= sent.len(),
    ensures
        holds_handles(inputs::keyed_handles(sent, n), sent.take(n as int)),
    decreases n,
{
    let stored = inputs::keyed_handles(sent, n);
    let seen = sent.take(n as int);
    inputs::law_handle_keys_are_distinct(sent, n);
    if n > 0 {
        let m = (n - 1) as nat;
        lemma_handles(sent, m);
        let before = inputs::keyed_handles(sent, m);
        let past = sent.take(m as int);
        let key = text::folded(sent[m as int].0);
        let value = sent[m as int].1;
        inputs::law_handle_keys_are_distinct(sent, m);
        lemma_set_pair(before, key, value);
        assert(seen[m as int] == sent[m as int]);
        assert forall|j: int|
            0 <= j < seen.len() && (forall|k: int|
                j < k < seen.len() ==> text::lower(text::trimmed((#[trigger] seen[k]).0))
                    != text::lower(text::trimmed(seen[j].0))) implies stored.contains(
            (text::lower(text::trimmed((#[trigger] seen[j]).0)), seen[j].1),
        ) by {
            if j < m {
                assert(past[j] == seen[j]);
                assert(text::lower(text::trimmed(seen[m as int].0)) != text::lower(
                    text::trimmed(seen[j].0),
                ));
                assert forall|k: int| j < k < past.len() implies text::lower(
                    text::trimmed((#[trigger] past[k]).0),
                ) != text::lower(text::trimmed(past[j].0)) by {
                    assert(past[k] == seen[k]);
                }
                let pair = (text::lower(text::trimmed(past[j].0)), past[j].1);
                assert(before.contains(pair));
                let i = choose|i: int| 0 <= i < before.len() && before[i] == pair;
                assert(stored.contains(before[i]));
            }
        }
        assert forall|i: int| 0 <= i < stored.len() implies exists|j: int|
            0 <= j < seen.len() && #[trigger] stored[i] == (
                text::lower(text::trimmed((#[trigger] seen[j]).0)),
                seen[j].1,
            ) by {
            if stored[i] == (key, value) {
                assert(stored[i] == (
                    text::lower(text::trimmed(seen[m as int].0)),
                    seen[m as int].1,
                ));
            } else {
                let h = choose|h: int| 0 <= h < before.len() && before[h] == stored[i];
                let j = choose|j: int|
                    0 <= j < past.len() && #[trigger] before[h] == (
                        text::lower(text::trimmed((#[trigger] past[j]).0)),
                        past[j].1,
                    );
                assert(past[j] == seen[j]);
            }
        }
    }
}

/// A body with a name adds a creator who holds what was sent, behind the others, and is answered
/// with a success; one without a name is answered 400 and changes nothing.
pub proof fn law_a_creator_is_added(
    e: EngineView,
    body: CreatorBodyView,
    id: Seq<char>,
    created_at: Seq<char>,
    updated_at: Seq<char>,
)
    requires
        e.store.wf(),
        !e.store.has_creator(id),
    ensures
        ({
            let (after, reply) = e.created_creator(body, id, created_at, updated_at);
            &&& text::trimmed(body.display_name).len() > 0 ==> {
                &&& reply.status == 200
                &&& after.store.creators.len() == e.store.creators.len() + 1
                &&& after.store.creators.drop_last() =~= e.store.creators
                &&& signed_up_as(after.store.creators.last(), body, id, created_at, updated_at)
                &&& after.store.read_creator(id) == Ok::<_, StoreError>(
                    Some(after.store.creators.last()),
                )
                &&& keeps_all_but_the_roster(e, after)
            }
            &&& text::trimmed(body.display_name).len() == 0 ==> after == e && reply
                == replies::failed(400, "display_name is required"@)
        }),
{
    if text::trimmed(body.display_name).len() > 0 {
        let after = e.created_creator(body, id, created_at, updated_at).0;
        rows::lemma_position(e.store.creators, store::creator_is(id));
        let c = inputs::creator_from(body, inputs::blank_creator(id, created_at), updated_at);
        assert(after.store.creators == e.store.creators.push(c));
        assert(e.store.creators.push(c).drop_last() =~= e.store.creators);
        lemma_handles(body.handles, body.handles.len());
        assert(body.handles.take(body.handles.len() as int) =~= body.handles);
        store::law_upsert_creator_keeps_rules(e.store, c);
        post_laws::lemma_a_readable_creator(after.store, e.store.creators.len() as int);
    }
}

/// Nothing but the roster differs.
pub open spec fn keeps_all_but_the_roster(before: EngineView, after: EngineView) -> bool {
    &&& after.store.campaigns == before.store.campaigns
    &&& after.store.unread_campaigns == before.store.unread_campaigns
    &&& after.store.submissions == before.store.submissions
    &&& after.store.snapshots == before.store.snapshots
    &&& after.store.payouts == before.store.payouts
    &&& after.outbox == before.outbox
}

/// A body with a name updates a creator in place: they hold what was sent and keep their id and
/// their creation stamp, and every other creator stays as they are. A body without a name is
/// answered 400, and an unknown creator 404; both change nothing.
pub proof fn law_a_creator_is_updated(
    e: EngineView,
    k: int,
    body: CreatorBodyView,
    now: Seq<char>,
    other: Seq<char>,
)
    requires
        e.store.wf(),
        0 <= k < e.store.creators.len(),
    ensures
        ({
            let was = e.store.creators[k];
            let (after, reply) = e.updated_creator(was.id, body, now);
            let named = text::trimmed(body.display_name).len() > 0;
            &&& named ==> {
                &&& reply.status == 200
                &&& after.store.creators.len() == e.store.creators.len()
                &&& signed_up_as(after.store.creators[k], body, was.id, was.created_at, now)
                &&& forall|i: int|
                    0 <= i < e.store.creators.len() && i != k
                        ==> #[trigger] after.store.creators[i] == e.store.creators[i]
                &&& keeps_all_but_the_roster(e, after)
            }
            &&& !named ==> after == e && reply.status == 400
            &&& named && !e.store.has_creator(other) ==> e.updated_creator(other, body, now).0 == e
                && e.updated_creator(other, body, now).1.status == 404
        }),
{
    let was = e.store.creators[k];
    post_laws::lemma_a_readable_creator(e.store, k);
    rows::lemma_only(
        e.store.creators,
        store::creator_key(),
        store::creator_is(was.id),
        was.id,
        k,
    );
    lemma_handles(body.handles, body.handles.len());
    assert(body.handles.take(body.handles.len() as int) =~= body.handles);
}

// ---- deletions -------------------------------------------------------------------------------

/// The deletion of a campaign takes the campaign, its posts, their counters and its payouts, and
/// nothing else: every row of another campaign stays, in its order, and so does the whole roster.
/// It is answered with a success where there was such a campaign, and 404 where there was none.
pub proof fn law_a_deletion_takes_one_campaign(s: StoreView, id: Seq<char>)
    ensures
        ({
            let t = s.delete_campaign(id);
            &&& t.campaigns == s.campaigns.filter(|c: CampaignView| c.id != id)
            &&& t.submissions == s.submissions.filter(
                |r: SubmissionRowView| r.record.campaign_id != id,
            )
            &&& t.payouts == s.payouts.filter(|p: PayoutRowView| p.record.campaign_id != id)
            &&& t.snapshots == s.snapshots.filter(
                |m: SnapshotView|
                    forall|i: int|
                        0 <= i < s.submissions.len() && (
                        #[trigger] s.submissions[i]).record.campaign_id == id
                            ==> s.submissions[i].record.id != m.submission_id,
            )
            &&& t.creators == s.creators && t.unread_creators == s.unread_creators
            &&& t.last_snapshot_id == s.last_snapshot_id
        }),
{
    rows::lemma_kept_is_filter(
        s.campaigns,
        store::not(store::campaign_is(id)),
        |c: CampaignView| c.id != id,
    );
    rows::lemma_kept_is_filter(
        s.submissions,
        store::not(store::in_campaign(id)),
        |r: SubmissionRowView| r.record.campaign_id != id,
    );
    rows::lemma_kept_is_filter(
        s.payouts,
        store::not(store::payout_in(id)),
        |p: PayoutRowView| p.record.campaign_id != id,
    );
    let outside = store::snapshot_outside(s.submissions, store::in_campaign(id));
    let left = |m: SnapshotView|
        forall|i: int|
            0 <= i < s.submissions.len() && (#[trigger] s.submissions[i]).record.campaign_id == id
                ==> s.submissions[i].record.id != m.submission_id;
    assert forall|k: int| 0 <= k < s.snapshots.len() implies outside(#[trigger] s.snapshots[k])
        == left(s.snapshots[k]) by {
        let m = s.snapshots[k];
        let owner = store::snapshot_owner(m.submission_id, store::in_campaign(id));
        if !left(m) {
            let i = choose|i: int|
                0 <= i < s.submissions.len() && (#[trigger] s.submissions[i]).record.campaign_id
                    == id && s.submissions[i].record.id == m.submission_id;
            assert(owner(s.submissions[i]));
        }
    }
    rows::lemma_kept_is_filter(s.snapshots, outside, left);
}

/// The deletion of a creator takes the roster row; by force it also takes their posts, the counters
/// of those and their payouts. Every row of another creator stays, in its order.
pub proof fn law_a_deletion_takes_one_creator(s: StoreView, id: Seq<char>)
    ensures
        ({
            let t = s.delete_creator(id, true);
            let u = s.delete_creator(id, false);
            &&& t.creators == s.creators.filter(|c: CreatorView| c.id != id)
            &&& u.creators == t.creators
            &&& t.submissions == s.submissions.filter(
                |r: SubmissionRowView| r.record.creator_id != id,
            )
            &&& t.payouts == s.payouts.filter(|p: PayoutRowView| p.record.creator_id != id)
            &&& t.snapshots == s.snapshots.filter(
                |m: SnapshotView|
                    forall|i: int|
                        0 <= i < s.submissions.len() && (
                        #[trigger] s.submissions[i]).record.creator_id == id
                            ==> s.submissions[i].record.id != m.submission_id,
            )
            &&& u.submissions == s.submissions && u.payouts == s.payouts && u.snapshots
                == s.snapshots
            &&& t.campaigns == s.campaigns && u.campaigns == s.campaigns
            &&& t.unread_campaigns == s.unread_campaigns && u.unread_campaigns
                == s.unread_campaigns
        }),
{
    rows::lemma_kept_is_filter(
        s.creators,
        store::not(store::creator_is(id)),
        |c: CreatorView| c.id != id,
    );
    rows::lemma_kept_is_filter(
        s.submissions,
        store::not(store::by_creator(id)),
        |r: SubmissionRowView| r.record.creator_id != id,
    );
    rows::lemma_kept_is_filter(
        s.payouts,
        store::not(store::payout_to(id)),
        |p: PayoutRowView| p.record.creator_id != id,
    );
    let outside = store::snapshot_outside(s.submissions, store::by_creator(id));
    let left = |m: SnapshotView|
        forall|i: int|
            0 <= i < s.submissions.len() && (#[trigger] s.submissions[i]).record.creator_id == id
                ==> s.submissions[i].record.id != m.submission_id;
    assert forall|k: int| 0 <= k < s.snapshots.len() implies outside(#[trigger] s.snapshots[k])
        == left(s.snapshots[k]) by {
        let m = s.snapshots[k];
        let owner = store::snapshot_owner(m.submission_id, store::by_creator(id));
        if !left(m) {
            let i = choose|i: int|
                0 <= i < s.submissions.len() && (#[trigger] s.submissions[i]).record.creator_id
                    == id && s.submissions[i].record.id == m.submission_id;
            assert(owner(s.submissions[i]));
        }
    }
    rows::lemma_kept_is_filter(s.snapshots, outside, left);
}

/// A creator without posts is deleted on request, and one with posts by force; the answer is a
/// success where there was such a creator, and 404 where there was none.
pub proof fn law_a_creator_is_deleted(e: EngineView, id: Seq<char>, force: bool)
    requires
        force || forall|i: int|
            0 <= i < e.store.submissions.len() ==> (
            #[trigger] e.store.submissions[i]).record.creator_id != id,
    ensures
        e.deleted_creator(id, force).0.store == e.store.delete_creator(id, force),
        e.deleted_creator(id, force).0.outbox == e.outbox,
        e.deleted_creator(id, force).1.status == if e.store.has_creator(id) {
            200u16
        } else {
            404u16
        },
{
    if !force {
        lemma_nothing_of_theirs(e.store.submissions, id);
    }
}

proof fn lemma_nothing_of_theirs(s: Seq<SubmissionRowView>, id: Seq<char>)
    requires
        forall|i: int| 0 <= i < s.len() ==> (#[trigger] s[i]).record.creator_id != id,
    ensures
        rows::total(s, crate::reports::theirs(id)) == 0,
    decreases s.len(),
{
    if s.len() > 0 {
        let init = s.drop_last();
        assert forall|i: int| 0 <= i < init.len() implies (#[trigger] init[i]).record.creator_id
            != id by {
            assert(init[i] == s[i]);
        }
        lemma_nothing_of_theirs(init, id);
        assert(s.last() == s[s.len() - 1]);
    }
}

proof fn lemma_how_many_of_theirs(s: Seq<SubmissionRowView>, id: Seq<char>)
    ensures
        rows::total(s, crate::reports::theirs(id)) == s.filter(
            |r: SubmissionRowView| r.record.creator_id == id,
        ).len(),
    decreases s.len(),
{
    reveal(Seq::filter);
    if s.len() > 0 {
        lemma_how_many_of_theirs(s.drop_last(), id);
    } else {
        assert(s.filter(|r: SubmissionRowView| r.record.creator_id == id).len() == 0);
    }
}

/// A creator with posts, in whatever state those are, is not deleted without force: nothing changes,
/// and the answer is 409 with the number of the posts.
pub proof fn law_a_creator_with_posts_is_kept(e: EngineView, id: Seq<char>)
    ensures
        ({
            let posts = e.store.submissions.filter(
                |r: SubmissionRowView| r.record.creator_id == id,
            );
            let (after, reply) = e.deleted_creator(id, false);
            0 < posts.len() <= i64::MAX ==> {
                &&& after == e
                &&& reply.status == 409
                &&& wire_laws::counts(reply.body, "submissions"@, posts.len() as i64)
            }
        }),
{
    lemma_how_many_of_theirs(e.store.submissions, id);
    let n = rows::total(e.store.submissions, crate::reports::theirs(id));
    if 0 < n <= i64::MAX {
        let m = e.deleted_creator(id, false).1.body->Object_0;
        assert(m[1].0 == "submissions"@);
    }
}

/// The deletion of a post takes the post, its counters and its payout, and nothing else, unless the
/// payout is paid; it is answered with a success where there was such a post, and 404 where there
/// was none.
pub proof fn law_a_deletion_takes_one_post(e: EngineView, id: Seq<char>)
    requires
        e.store.payout_of(id) is Some ==> e.store.payout_of(id)->0.status != PayoutStatus::Paid,
    ensures
        ({
            let s = e.store;
            let (after, reply) = e.deleted_submission(id);
            let t = after.store;
            &&& t.submissions == s.submissions.filter(|r: SubmissionRowView| r.record.id != id)
            &&& t.snapshots == s.snapshots.filter(|m: SnapshotView| m.submission_id != id)
            &&& t.payouts == s.payouts.filter(
                |p: PayoutRowView| p.record.submission_id != Some(id),
            )
            &&& t.campaigns == s.campaigns && t.creators == s.creators
            &&& after.outbox == e.outbox
            &&& reply.status == if s.submission(id) is Some {
                200u16
            } else {
                404u16
            }
        }),
{
    let s = e.store;
    rows::lemma_kept_is_filter(
        s.submissions,
        store::not(store::submission_is(id)),
        |r: SubmissionRowView| r.record.id != id,
    );
    rows::lemma_kept_is_filter(
        s.snapshots,
        store::not(store::snapshot_of(id)),
        |m: SnapshotView| m.submission_id != id,
    );
    rows::lemma_kept_is_filter(
        s.payouts,
        store::not(store::payout_on(id)),
        |p: PayoutRowView| p.record.submission_id != Some(id),
    );
}

} // verus!
