//! The schedule of the background refresh: how often it runs, and which campaigns one pass walks.
use crate::lists;
use crate::records::{CampaignStatus, CampaignView};
use crate::rows;
use crate::store::UgcStore;
use crate::text;
use crate::text::{is_blank, parse_unsigned, str_eq, trim};
use vstd::prelude::*;

verus! {

/// Cadence in seconds when nothing says otherwise: six hours.
pub const DEFAULT_INTERVAL_SECS: u64 = 21600;

/// Floor on the cadence in seconds.
pub const MIN_INTERVAL_SECS: u64 = 300;

/// The environment variable that sets the cadence in seconds. `0` switches the refresh off.
pub const INTERVAL_ENV: &'static str = "RYU_UGC_REFRESH_SECS";

/// The preference that sets the cadence. The environment wins when both are present.
pub const INTERVAL_PREF: &'static str = "auto-refresh-interval-secs";

/// The schedule of the refresh.
#[derive(Debug, Clone, Copy, PartialEq, Eq, Structural)]
pub struct RefreshPolicy {
    /// Seconds between two passes; `None` when the refresh is off.
    pub interval: Option<u64>,
}

/// The cadence that a text stands for: 0 is off, a number is held to the floor, and anything else
/// is no opinion.
pub open spec fn cadence(raw: Option<Seq<char>>) -> Option<u64> {
    let secs = match raw {
        Some(s) => match text::in_range(
            text::read_unsigned(text::trimmed(s)),
            0,
            u64::MAX as int,
        ) {
            Some(n) => n,
            None => DEFAULT_INTERVAL_SECS as int,
        },
        None => DEFAULT_INTERVAL_SECS as int,
    };
    if secs == 0 {
        None
    } else if secs < MIN_INTERVAL_SECS {
        Some(MIN_INTERVAL_SECS)
    } else {
        Some(secs as u64)
    }
}

/// Parses a cadence in seconds. A typo must not switch the refresh off, since stale counters look
/// like a broken integration rather than like a typo.
pub fn interval_from(raw: Option<&str>) -> (r: Option<u64>)
    ensures
        r == cadence(raw.deep_view()),
{
    let secs: u64 = match raw {
        Some(s) => match parse_unsigned(trim(s), u64::MAX) {
            Some(n) => n,
            None => DEFAULT_INTERVAL_SECS,
        },
        None => DEFAULT_INTERVAL_SECS,
    };
    if secs == 0 {
        None
    } else if secs < MIN_INTERVAL_SECS {
        Some(MIN_INTERVAL_SECS)
    } else {
        Some(secs)
    }
}

/// The refresh is off, or it leaves at least the floor between two passes.
pub proof fn law_the_cadence_keeps_its_floor(raw: Option<Seq<char>>)
    ensures
        cadence(raw) is Some ==> cadence(raw)->0 >= MIN_INTERVAL_SECS,
{
}

/// A cadence that cannot be read never switches the refresh off.
pub proof fn law_a_typo_keeps_the_default(raw: Seq<char>)
    requires
        text::read_unsigned(text::trimmed(raw)) is None,
    ensures
        cadence(Some(raw)) == Some(DEFAULT_INTERVAL_SECS),
{
}

/// The preference is `key`.
pub open spec fn pref_is(key: Seq<char>) -> spec_fn((Seq<char>, Seq<char>)) -> bool {
    |p: (Seq<char>, Seq<char>)| p.0 == key
}

/// The value of a preference.
pub open spec fn pref_of(prefs: Seq<(Seq<char>, Seq<char>)>, key: Seq<char>) -> Option<Seq<char>> {
    match rows::found(prefs, pref_is(key)) {
        Some(p) => Some(p.1),
        None => None,
    }
}

/// The value of a preference.
pub fn get_pref(prefs: &Vec<(String, String)>, key: &str) -> (r: Option<String>)
    ensures
        r.deep_view() == pref_of(prefs.deep_view(), key@),
{
    let pick = |p: &(String, String)| -> (b: bool)
        ensures
            b == pref_is(key@)(p.deep_view()),
        { str_eq(p.0.as_str(), key) };
    match rows::find_row(prefs, pick, Ghost(pref_is(key@))) {
        Some(i) => Some(prefs[i].1.clone()),
        None => None,
    }
}

// ---- the preference file ---------------------------------------------------------------------

/// The key of a preference.
pub open spec fn pref_key() -> spec_fn((Seq<char>, Seq<char>)) -> Seq<char> {
    |p: (Seq<char>, Seq<char>)| p.0
}

/// What `serde_json::from_slice` makes of bytes as an ordered map from text to text: the map's
/// pairs in its order, or nothing where it reports an error.
pub uninterp spec fn parsed_prefs(bytes: Seq<u8>) -> Option<Seq<(Seq<char>, Seq<char>)>>;

/// Reads a map from text to text with `serde_json::from_slice`. The result depends on the bytes
/// alone, and the map holds a key once.
#[verifier::external_body]
fn parse_prefs(bytes: &[u8]) -> (r: Option<Vec<(String, String)>>)
    ensures
        r.deep_view() == parsed_prefs(bytes@),
        r is Some ==> rows::distinct(r.deep_view()->0, pref_key()),
{
    match serde_json::from_slice::<std::collections::BTreeMap<String, String>>(bytes) {
        Ok(map) => Some(map.into_iter().collect()),
        Err(_) => None,
    }
}

/// The preferences that a file holds: none where there is no file, or where it is no map from
/// text to text.
pub open spec fn prefs_of(bytes: Option<Seq<u8>>) -> Seq<(Seq<char>, Seq<char>)> {
    match bytes {
        Some(b) => match parsed_prefs(b) {
            Some(prefs) => prefs,
            None => Seq::empty(),
        },
        None => Seq::empty(),
    }
}

/// Reads the preferences from the bytes of their file, where there is one. A corrupt file reads
/// as an empty one: a fresh install falls back to the defaults.
pub fn read_prefs(bytes: Option<&[u8]>) -> (r: Vec<(String, String)>)
    ensures
        r.deep_view() == prefs_of(
            match bytes {
                Some(b) => Some(b@),
                None => None,
            },
        ),
        rows::distinct(r.deep_view(), pref_key()),
{
    let parsed: Option<Vec<(String, String)>> = match bytes {
        Some(b) => parse_prefs(b),
        None => None,
    };
    match parsed {
        Some(prefs) => prefs,
        None => {
            let none: Vec<(String, String)> = Vec::new();
            assert(none.deep_view() =~= Seq::empty());
            none
        },
    }
}

/// What `serde_json::to_vec_pretty` writes for the ordered map that holds these pairs.
pub uninterp spec fn written_prefs(prefs: Seq<(Seq<char>, Seq<char>)>) -> Seq<u8>;

/// Two lists hold the same preferences.
pub open spec fn same_prefs(
    a: Seq<(Seq<char>, Seq<char>)>,
    b: Seq<(Seq<char>, Seq<char>)>,
) -> bool {
    forall|p: (Seq<char>, Seq<char>)| #[trigger] a.contains(p) <==> b.contains(p)
}

/// Writes an ordered map from text to text with `serde_json::to_vec_pretty`. The bytes depend on
/// the map's pairs alone. Such a map is always written, and `serde_json::from_slice` reads the
/// same pairs from the bytes.
#[verifier::external_body]
fn encode_prefs(prefs: &Vec<(String, String)>) -> (r: Result<Vec<u8>, String>)
    requires
        rows::distinct(prefs.deep_view(), pref_key()),
    ensures
        r is Ok,
        r->Ok_0@ == written_prefs(prefs.deep_view()),
        match parsed_prefs(r->Ok_0@) {
            Some(read) => rows::distinct(read, pref_key()) && same_prefs(
                prefs.deep_view(),
                read,
            ),
            None => false,
        },
{
    let map: std::collections::BTreeMap<String, String> = prefs.iter().cloned().collect();
    serde_json::to_vec_pretty(&map).map_err(|e| e.to_string())
}

proof fn lemma_same_answers(
    a: Seq<(Seq<char>, Seq<char>)>,
    b: Seq<(Seq<char>, Seq<char>)>,
    key: Seq<char>,
)
    requires
        rows::distinct(a, pref_key()),
        rows::distinct(b, pref_key()),
        same_prefs(a, b),
    ensures
        pref_of(a, key) == pref_of(b, key),
{
    rows::lemma_position(a, pref_is(key));
    rows::lemma_position(b, pref_is(key));
    match rows::position(a, pref_is(key)) {
        Some(i) => {
            assert(a.contains(a[i]));
            let j = choose|j: int| 0 <= j < b.len() && b[j] == a[i];
            rows::lemma_only(b, pref_key(), pref_is(key), key, j);
        },
        None => {
            match rows::position(b, pref_is(key)) {
                Some(j) => {
                    assert(b.contains(b[j]));
                    assert(a.contains(b[j]));
                },
                None => {},
            }
        },
    }
}

/// Writes the preferences, each key once, as the bytes of their file. Every preference reads from
/// those bytes as it was written, and no other does.
pub fn write_prefs(prefs: &Vec<(String, String)>) -> (r: Vec<u8>)
    requires
        rows::distinct(prefs.deep_view(), pref_key()),
    ensures
        r@ == written_prefs(prefs.deep_view()),
        same_prefs(prefs.deep_view(), prefs_of(Some(r@))),
        forall|key: Seq<char>| #[trigger]
            pref_of(prefs_of(Some(r@)), key) == pref_of(prefs.deep_view(), key),
{
    let bytes = encode_prefs(prefs).unwrap();
    assert forall|key: Seq<char>| #[trigger]
        pref_of(prefs_of(Some(bytes@)), key) == pref_of(prefs.deep_view(), key) by {
        lemma_same_answers(prefs.deep_view(), prefs_of(Some(bytes@)), key);
    }
    bytes
}

/// What says how often to refresh: the environment where it is not blank, else the preference.
pub open spec fn cadence_asked(
    env_secs: Option<Seq<char>>,
    prefs: Seq<(Seq<char>, Seq<char>)>,
) -> Option<Seq<char>> {
    if env_secs is Some && !text::blank(env_secs->0) {
        env_secs
    } else {
        pref_of(prefs, INTERVAL_PREF@)
    }
}

impl RefreshPolicy {
    /// Resolves the cadence: the environment wins, then the preferences, then the default.
    pub fn resolve(env_secs: Option<&str>, prefs: &Vec<(String, String)>) -> (r: Self)
        ensures
            r.interval == cadence(cadence_asked(env_secs.deep_view(), prefs.deep_view())),
    {
        match env_secs {
            Some(s) => {
                if !is_blank(s) {
                    return RefreshPolicy { interval: interval_from(Some(s)) };
                }
            },
            None => {},
        }
        match get_pref(prefs, INTERVAL_PREF) {
            Some(s) => RefreshPolicy { interval: interval_from(Some(s.as_str())) },
            None => RefreshPolicy { interval: interval_from(None) },
        }
    }
}

/// Without a preference file, or with a corrupt one, the cadence is that of the environment, or
/// the default one.
pub proof fn law_a_corrupt_file_keeps_the_default(
    env_secs: Option<Seq<char>>,
    bytes: Option<Seq<u8>>,
)
    ensures
        bytes is None || parsed_prefs(bytes->0) is None ==> cadence(
            cadence_asked(env_secs, prefs_of(bytes)),
        ) == if env_secs is Some && !text::blank(env_secs->0) {
            cadence(env_secs)
        } else {
            Some(DEFAULT_INTERVAL_SECS)
        },
{
    rows::lemma_position(prefs_of(bytes), pref_is(INTERVAL_PREF@));
}

/// The campaigns that one pass walks, in order: the active ones. A draft has nothing to price, and
/// pausing or ending a campaign is how an operator stops its spend.
pub fn campaigns_to_walk(store: &UgcStore) -> (ids: Vec<String>)
    ensures
        exists|out: Seq<CampaignView>|
            #![trigger out.len()]
            rows::ranking(
                rows::picked(
                    store.deep_view().campaigns,
                    lists::campaign_listed(Some(CampaignStatus::Active)),
                ),
                out,
                lists::campaign_order(),
            ) && ids.deep_view() == out.map_values(|c: CampaignView| c.id),
{
    let campaigns = store.list_campaigns(Some(CampaignStatus::Active));
    let mut ids: Vec<String> = Vec::new();
    let mut i: usize = 0;
    while i < campaigns.len()
        invariant
            i <= campaigns.len(),
            ids.len() == i,
            forall|k: int| 0 <= k < i ==> (#[trigger] ids@[k])@ == campaigns@[k].id@,
        decreases campaigns.len() - i,
    {
        ids.push(campaigns[i].id.clone());
        i += 1;
    }
    let ghost out = campaigns.deep_view();
    assert(out.len() == campaigns.len());
    ids
}

} // verus!
