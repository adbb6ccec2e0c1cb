//! What the process around the app answers: who is let in, where it listens and keeps its data, how
//! often it refreshes, and what it says of the key.
use crate::auth;
use crate::clock;
use crate::json::JsonView;
use crate::refresh;
use crate::runtime;
use crate::settings;
use crate::settings::ComposioKeySource;
use crate::text;
use crate::text_laws;
use vstd::prelude::*;

verus! {

/// A request is let in exactly where its header is the word `Bearer`, a blank and the secret, and
/// there is a secret.
pub proof fn law_who_is_let_in(header: Option<Seq<char>>, secret: Option<Seq<char>>)
    ensures
        runtime::admitted(runtime::bearer_in(header), secret) <==> secret is Some && secret->0.len()
            > 0 && header == Some("Bearer "@ + secret->0),
{
    if secret is Some {
        let (w, t) = ("Bearer "@, secret->0);
        text_laws::law_parts_of_a_text(w, Seq::empty(), t, header->0);
        assert((w + t).skip(w.len() as int) =~= t);
    }
}

/// Text from outside counts without the white space round it, and blank text does not count at all.
pub proof fn law_blank_text_does_not_count(s: Seq<char>)
    ensures
        auth::nonblank(None) is None,
        text::trimmed(s).len() == 0 ==> auth::nonblank(Some(s)) is None,
        text::trimmed(s).len() > 0 ==> auth::nonblank(Some(s)) == Some(text::trimmed(s)),
{
}

/// A key that was set in the process wins; without one the app's own variable decides where it is
/// set at all, and only without it the plain one.
pub proof fn law_which_key_resolves(
    held: Seq<char>,
    ryu: Option<Seq<char>>,
    plain: Option<Seq<char>>,
    t: Seq<char>,
)
    ensures
        auth::resolved_key(Some(held), ryu, plain) == Some(held),
        text::trimmed(t).len() > 0 ==> auth::resolved_key(None, Some(t), plain) == Some(
            text::trimmed(t),
        ),
        text::trimmed(t).len() == 0 ==> auth::resolved_key(None, Some(t), plain) is None,
        text::trimmed(t).len() > 0 ==> auth::resolved_key(None, None, Some(t)) == Some(
            text::trimmed(t),
        ),
        text::trimmed(t).len() == 0 ==> auth::resolved_key(None, None, Some(t)) is None,
        auth::resolved_key(None, None, None) is None,
{
}

/// The port is the number that the environment spells, where that is a port.
pub proof fn law_the_port_that_is_named(n: int, raw: Seq<char>)
    ensures
        0 <= n <= 65535 ==> runtime::port_named(Some(text::int_text(n))) == n,
        n > 65535 || n < 0 ==> runtime::port_named(Some(text::int_text(n)))
            == runtime::port_named(None),
        text::read_unsigned(text::trimmed(raw)) is None ==> runtime::port_named(Some(raw))
            == runtime::port_named(None),
{
    text_laws::law_numerals_read_back(n);
    if n < 0 {
        assert(text::int_text(n)[0] == '-');
        assert(!text::is_digit(text::int_text(n)[0]));
    }
}

/// Each profile keeps its data in a directory of its own; the name is read in whatever case, a
/// blank one is the release, and any other name is refused.
pub proof fn law_profiles_have_directories_of_their_own(raw: Seq<char>)
    ensures
        ({
            let name = text::lower(text::trimmed(raw));
            let suffix = runtime::suffix_of(runtime::profile_named(Some(raw)));
            &&& text::trimmed(raw).len() == 0 || name == "release"@ ==> suffix == Some(""@)
            &&& name == "dev"@ ==> suffix == Some("-dev"@)
            &&& name == "canary"@ ==> suffix == Some("-canary"@)
            &&& name == "nightly"@ ==> suffix == Some("-nightly"@)
            &&& name == "beta"@ ==> suffix == Some("-beta"@)
            &&& text::trimmed(raw).len() > 0 && name != "release"@ && name != "dev"@ && name
                != "canary"@ && name != "nightly"@ && name != "beta"@ ==> suffix is None
        }),
        runtime::suffix_of(runtime::profile_named(None)) == Some(""@),
{
    reveal_strlit("release");
    reveal_strlit("dev");
    reveal_strlit("canary");
    reveal_strlit("nightly");
    reveal_strlit("beta");
    assert(text::lower(text::trimmed(raw)).len() == text::trimmed(raw).len());
    assert("release"@[0] == 'r' && "dev"@[0] == 'd' && "canary"@[0] == 'c' && "nightly"@[0] == 'n'
        && "beta"@[0] == 'b');
}

/// The data directory is the one that the environment gives, else the one that the pointer file
/// names, else `.ryu` with the profile's suffix under the home directory; the pointer file lies in
/// the configuration directory, or under the default data directory where there is none.
pub proof fn law_where_the_data_lies(
    env_dir: Option<Seq<char>>,
    pointed: Option<Seq<char>>,
    home: Seq<char>,
    config: Seq<char>,
    suffix: Seq<char>,
)
    ensures
        ({
            let dir = runtime::data_parts(env_dir, pointed, Some(home), suffix);
            let set = env_dir is Some && env_dir->0.len() > 0;
            let moved = pointed is Some && pointed->0.len() > 0;
            &&& set ==> dir == seq![env_dir->0]
            &&& !set && moved ==> dir == seq![pointed->0]
            &&& !set && !moved ==> dir == seq![home, ".ryu"@ + suffix]
            &&& !set && !moved ==> runtime::data_parts(env_dir, pointed, None, suffix) == seq![
                "."@,
                ".ryu"@ + suffix,
            ]
        }),
        runtime::pointer_parts(Some(config), Some(home), suffix) == seq![
            config,
            "ryu"@ + suffix,
            "data-path.json"@,
        ],
        runtime::pointer_parts(None, Some(home), suffix) == seq![
            home,
            ".ryu"@ + suffix,
            "ryu"@ + suffix,
            "data-path.json"@,
        ],
{
}

/// The refresh runs as often as it is asked to, in seconds: never where that is 0, never more often
/// than the floor allows, and the environment's word goes before the preference's.
pub proof fn law_how_often_it_refreshes(
    n: int,
    t: Seq<char>,
    prefs: Seq<(Seq<char>, Seq<char>)>,
    i: int,
)
    requires
        0 <= n <= u64::MAX,
    ensures
        n == 0 ==> refresh::cadence(Some(text::int_text(n))) is None,
        0 < n < refresh::MIN_INTERVAL_SECS ==> refresh::cadence(Some(text::int_text(n))) == Some(
            refresh::MIN_INTERVAL_SECS,
        ),
        n >= refresh::MIN_INTERVAL_SECS && n > 0 ==> refresh::cadence(Some(text::int_text(n)))
            == Some(n as u64),
        refresh::cadence(None) == Some(refresh::DEFAULT_INTERVAL_SECS),
        refresh::MIN_INTERVAL_SECS == 300,
        refresh::DEFAULT_INTERVAL_SECS == 21600,
        text::trimmed(t).len() > 0 ==> refresh::cadence_asked(Some(t), prefs) == Some(t),
        0 <= i < prefs.len() && prefs[i].0 == "auto-refresh-interval-secs"@ && (forall|k: int|
            0 <= k < i ==> (#[trigger] prefs[k]).0 != prefs[i].0) ==> refresh::cadence_asked(
            None,
            prefs,
        ) == Some(prefs[i].1) && (text::trimmed(t).len() == 0 ==> refresh::cadence_asked(
            Some(t),
            prefs,
        ) == Some(prefs[i].1)),
{
    text_laws::law_numerals_read_back(n);
    let p = refresh::pref_is("auto-refresh-interval-secs"@);
    crate::rows::lemma_position(prefs, p);
}

/// A preference has the value that stands first under its key, and none where the key does not
/// stand.
pub proof fn law_a_preference_is_found(
    prefs: Seq<(Seq<char>, Seq<char>)>,
    key: Seq<char>,
    i: int,
    bytes: Seq<u8>,
)
    ensures
        0 <= i < prefs.len() && prefs[i].0 == key && (forall|k: int|
            0 <= k < i ==> (#[trigger] prefs[k]).0 != key) ==> refresh::pref_of(prefs, key) == Some(
            prefs[i].1,
        ),
        (forall|k: int| 0 <= k < prefs.len() ==> (#[trigger] prefs[k]).0 != key)
            ==> refresh::pref_of(prefs, key) is None,
        refresh::prefs_of(None).len() == 0,
        refresh::parsed_prefs(bytes) is None ==> refresh::prefs_of(Some(bytes)).len() == 0,
        refresh::parsed_prefs(bytes) is Some ==> refresh::prefs_of(Some(bytes))
            == refresh::parsed_prefs(bytes)->0,
{
    let p = refresh::pref_is(key);
    crate::rows::lemma_position(prefs, p);
    if 0 <= i < prefs.len() && prefs[i].0 == key && forall|k: int|
        0 <= k < i ==> (#[trigger] prefs[k]).0 != key {
        assert(crate::rows::first_at(prefs, p, i));
    }
}

/// A fresh id begins with its prefix and an underscore, and 32 hexadecimal digits follow; a timestamp
/// ends in the offset of UTC and holds the `T` between its date and its time. So an id is never empty,
/// and neither is a stamp.
pub proof fn law_ids_and_stamps_have_their_shape(prefix: Seq<char>, id: Seq<char>, t: Seq<char>)
    ensures
        clock::is_fresh(prefix, id) ==> {
            &&& id.len() == prefix.len() + 33
            &&& text::begins_with(id, prefix)
            &&& id[prefix.len() as int] == '_'
            &&& forall|i: int|
                prefix.len() < i < id.len() ==> {
                    let c = #[trigger] id[i];
                    ('0' <= c && c <= '9') || ('a' <= c && c <= 'f')
                }
        },
        clock::is_stamp(t) ==> {
            &&& t.len() >= 25
            &&& text::finishes_with(t, "+00:00"@)
            &&& t.contains('T')
        },
{
    if clock::is_fresh(prefix, id) {
        let u = choose|u: Seq<char>| #[trigger]
            clock::is_uuid_text(u) && id == prefix + seq!['_'] + u;
        assert(id =~= prefix + (seq!['_'] + u));
        text_laws::law_parts_of_a_text(prefix, Seq::empty(), seq!['_'] + u, id);
        assert forall|i: int| prefix.len() < i < id.len() implies {
            let c = #[trigger] id[i];
            ('0' <= c && c <= '9') || ('a' <= c && c <= 'f')
        } by {
            assert(clock::is_hex(u[i - prefix.len() - 1]));
        }
    }
    if clock::is_stamp(t) {
        reveal_strlit("+00:00");
        let (y, c, f) = choose|y: Seq<char>, c: Seq<char>, f: Seq<char>| #[trigger]
            clock::are_stamp_parts(y, c, f) && t == y + c + f + "+00:00"@;
        text_laws::law_parts_of_a_text(y + c + f, Seq::empty(), "+00:00"@, t);
        assert(t[y.len() as int + 6] == 'T');
    }
}

/// The settings name what backs the key: the app's own key where there is one, else the
/// environment's, else none, and only then is nothing configured.
pub proof fn law_the_settings_name_the_source(own: bool, any: bool)
    ensures
        ({
            let reply = settings::settings_reply(settings::key_source(own, any));
            &&& reply.status == 200
            &&& reply.body == JsonView::Object(
                seq![
                    ("composio_configured"@, JsonView::Bool(own || any)),
                    (
                        "composio_key_source"@,
                        JsonView::Text(
                            if own {
                                "app"@
                            } else if any {
                                "env"@
                            } else {
                                "none"@
                            },
                        ),
                    ),
                ],
            )
        }),
{
}

/// What the host says of storing or forgetting a key is handed on: its source with a success, its
/// failure with 500, and of a failure that quotes the key not a word.
pub proof fn law_the_host_is_reported(
    source: ComposioKeySource,
    message: Seq<char>,
    key: Seq<char>,
)
    ensures
        settings::stored_reply(Ok(source), key) == settings::settings_reply(source),
        settings::cleared_reply(Ok(source)) == settings::settings_reply(source),
        settings::stored_reply(Err(message), key).status == 500,
        settings::cleared_reply(Err(message)).status == 500,
        text::trimmed(key).len() > 0 && text::holds_text(message, text::trimmed(key))
            ==> settings::unquoted(message, key) == "could not store the Composio API key"@,
        !text::holds_text(message, text::trimmed(key)) ==> settings::unquoted(message, key)
            == message,
{
}

} // verus!
