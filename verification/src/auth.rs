//! Composio API key resolution: the key that was set in this process first, then the
//! environment.
use crate::text;
use crate::text::trim;
use vstd::prelude::*;

verus! {

/// Preferences key the desktop writes.
pub const COMPOSIO_API_KEY_PREF_KEY: &'static str = "composio-api-key";

/// The in-process key; `None` falls back to the environment.
#[derive(Debug)]
pub struct KeyCache {
    pub held: Option<String>,
}

/// Trimmed text, where anything is left of it.
pub open spec fn nonblank(s: Option<Seq<char>>) -> Option<Seq<char>> {
    match s {
        Some(t) => if text::blank(t) {
            None
        } else {
            Some(text::trimmed(t))
        },
        None => None,
    }
}

/// Trimmed text, where anything is left of it.
pub fn filled(s: Option<&str>) -> (r: Option<String>)
    ensures
        r.deep_view() == nonblank(s.deep_view()),
{
    match s {
        Some(t) => {
            let u = trim(t);
            if u.is_empty() {
                None
            } else {
                Some(u.to_string())
            }
        },
        None => None,
    }
}

/// The key that resolves: the held one, else `RYU_COMPOSIO_API_KEY` where it is set at all,
/// else `COMPOSIO_API_KEY`.
pub open spec fn resolved_key(
    held: Option<Seq<char>>,
    ryu_env: Option<Seq<char>>,
    plain_env: Option<Seq<char>>,
) -> Option<Seq<char>> {
    if held is Some {
        held
    } else if ryu_env is Some {
        nonblank(ryu_env)
    } else {
        nonblank(plain_env)
    }
}

/// An empty cache.
pub fn empty_cache() -> (r: KeyCache)
    ensures
        r.held is None,
{
    KeyCache { held: None }
}

/// Sets the in-process key, or clears it when the text is blank.
pub fn set_key(cache: &mut KeyCache, key: &str)
    ensures
        final(cache).held.deep_view() == nonblank(Some(key@)),
{
    cache.held = filled(Some(key));
}

/// Resolves the active key: the in-process one first, then the two environment values, of
/// which the first wins wherever it is set.
pub fn key(cache: &KeyCache, ryu_env: Option<&str>, plain_env: Option<&str>) -> (r: Option<String>)
    ensures
        r.deep_view() == resolved_key(
            cache.held.deep_view(),
            ryu_env.deep_view(),
            plain_env.deep_view(),
        ),
{
    match &cache.held {
        Some(k) => Some(k.clone()),
        None => match ryu_env {
            Some(v) => filled(Some(v)),
            None => filled(plain_env),
        },
    }
}

/// Whether a Composio key resolves at all.
pub fn is_configured(cache: &KeyCache, ryu_env: Option<&str>, plain_env: Option<&str>) -> (b: bool)
    ensures
        b == (resolved_key(
            cache.held.deep_view(),
            ryu_env.deep_view(),
            plain_env.deep_view(),
        ) is Some),
{
    key(cache, ryu_env, plain_env).is_some()
}

/// A key that was set is the one that resolves, whatever the environment holds.
pub proof fn law_set_key_wins(
    key: Seq<char>,
    ryu_env: Option<Seq<char>>,
    plain_env: Option<Seq<char>>,
)
    requires
        !text::blank(key),
    ensures
        resolved_key(nonblank(Some(key)), ryu_env, plain_env) == Some(text::trimmed(key)),
{
}

/// Setting a blank key clears the held one, so the environment decides again.
pub proof fn law_blank_key_clears(
    key: Seq<char>,
    ryu_env: Option<Seq<char>>,
    plain_env: Option<Seq<char>>,
)
    requires
        text::blank(key),
    ensures
        resolved_key(nonblank(Some(key)), ryu_env, plain_env) == resolved_key(
            None,
            ryu_env,
            plain_env,
        ),
{
}

} // verus!
