//! The boundary of the process: its bearer token, its port and where it keeps its data.
use crate::auth;
use crate::auth::filled;
use crate::text;
use crate::text::{fold, is_blank, parse_unsigned, str_eq, strip_prefix_str, trim};
use vstd::prelude::*;

verus! {

/// The port that the process listens on unless it is told another.
pub const DEFAULT_PORT: u16 = 8004;

// ---- the bearer ------------------------------------------------------------------------------

/// Equality of shared secrets: every byte is looked at, whatever the first ones hold.
pub fn constant_time_eq(left: &[u8], right: &[u8]) -> (r: bool)
    ensures
        r == (left@ == right@),
{
    if left.len() != right.len() {
        return false;
    }
    let mut difference: u8 = 0;
    let mut i: usize = 0;
    while i < left.len()
        invariant
            left@.len() == right@.len(),
            i <= left@.len(),
            difference == 0 <==> (forall|k: int| 0 <= k < i ==> left@[k] == right@[k]),
        decreases left.len() - i,
    {
        let a: u8 = left[i];
        let b: u8 = right[i];
        let before: u8 = difference;
        difference = before | (a ^ b);
        assert((before | (a ^ b)) == 0u8 <==> (before == 0u8 && a == b)) by (bit_vector);
        i += 1;
    }
    assert(difference == 0 ==> left@ =~= right@);
    difference == 0
}

/// A presented token is the expected one; where none is expected, no token is right.
pub open spec fn admitted(provided: Option<Seq<char>>, expected: Option<Seq<char>>) -> bool {
    &&& expected is Some
    &&& expected->0.len() > 0
    &&& provided == expected
}

/// Checks a bearer value against the expected token. A missing or empty expected token fails
/// closed.
pub fn token_ok(provided: Option<&str>, expected: Option<&str>) -> (b: bool)
    ensures
        b == admitted(provided.deep_view(), expected.deep_view()),
{
    let want = match expected {
        Some(e) => e,
        None => {
            return false;
        },
    };
    if want.is_empty() {
        return false;
    }
    let got = match provided {
        Some(p) => p,
        None => "",
    };
    let b = constant_time_eq(got.as_bytes(), want.as_bytes());
    proof {
        reveal_strlit("");
        if b {
            vstd::utf8::encode_utf8_decode_utf8(got@);
            vstd::utf8::encode_utf8_decode_utf8(want@);
        }
    }
    b
}

/// The token that a complete `Authorization` header presents.
pub open spec fn bearer_in(header: Option<Seq<char>>) -> Option<Seq<char>> {
    match header {
        Some(h) => if text::begins_with(h, "Bearer "@) {
            Some(h.skip("Bearer "@.len() as int))
        } else {
            None
        },
        None => None,
    }
}

/// Checks a complete `Authorization` header against the expected token. The scheme is required.
pub fn bearer_ok(auth_header: Option<&str>, expected: Option<&str>) -> (b: bool)
    ensures
        b == admitted(bearer_in(auth_header.deep_view()), expected.deep_view()),
{
    let provided: Option<&str> = match auth_header {
        Some(h) => strip_prefix_str(h, "Bearer "),
        None => None,
    };
    token_ok(provided, expected)
}

/// Without an expected token nobody is let in.
pub proof fn law_no_token_admits_nobody(provided: Option<Seq<char>>)
    ensures
        !admitted(provided, None),
        !admitted(provided, Some(Seq::empty())),
{
}

/// The shared secret that the environment holds: trimmed, where anything is left of it.
pub fn ext_token(raw: Option<&str>) -> (r: Option<String>)
    ensures
        r.deep_view() == auth::nonblank(raw.deep_view()),
{
    filled(raw)
}

/// The port that a text names, else the default one.
pub open spec fn port_named(raw: Option<Seq<char>>) -> int {
    match raw {
        Some(s) => match text::in_range(
            text::read_unsigned(text::trimmed(s)),
            0,
            u16::MAX as int,
        ) {
            Some(n) => n,
            None => DEFAULT_PORT as int,
        },
        None => DEFAULT_PORT as int,
    }
}

/// The port that the process listens on.
pub fn listen_port(raw: Option<&str>) -> (n: u16)
    ensures
        n == port_named(raw.deep_view()),
{
    match raw {
        Some(s) => match parse_unsigned(trim(s), 65535) {
            Some(n) => n as u16,
            None => DEFAULT_PORT,
        },
        None => DEFAULT_PORT,
    }
}

// ---- the data directory ----------------------------------------------------------------------

/// What is added to a directory's name for a profile.
pub open spec fn suffix_of(profile: Seq<char>) -> Option<Seq<char>> {
    if profile == "release"@ {
        Some(""@)
    } else if profile == "dev"@ {
        Some("-dev"@)
    } else if profile == "canary"@ {
        Some("-canary"@)
    } else if profile == "nightly"@ {
        Some("-nightly"@)
    } else if profile == "beta"@ {
        Some("-beta"@)
    } else {
        None
    }
}

/// The profile that the environment names; a blank one is the release profile.
pub open spec fn profile_named(raw: Option<Seq<char>>) -> Seq<char> {
    match raw {
        Some(s) => if text::blank(s) {
            "release"@
        } else {
            text::folded(s)
        },
        None => "release"@,
    }
}

/// Why a profile is refused.
pub open spec fn unsupported_profile(profile: Seq<char>) -> Seq<char> {
    "unsupported RYU_PROFILE '"@ + profile
        + "'; expected release, dev, canary, nightly, or beta"@
}

/// What is added to a directory's name for the profile that the environment names, or why there is
/// no such profile.
pub fn profile_suffix(raw: Option<&str>) -> (r: Result<&'static str, String>)
    ensures
        match suffix_of(profile_named(raw.deep_view())) {
            Some(s) => r is Ok && r->Ok_0@ == s,
            None => r is Err && r->Err_0@ == unsupported_profile(profile_named(raw.deep_view())),
        },
{
    let profile: String = match raw {
        Some(s) => {
            if is_blank(s) {
                "release".to_string()
            } else {
                fold(s)
            }
        },
        None => "release".to_string(),
    };
    if str_eq(profile.as_str(), "release") {
        Ok("")
    } else if str_eq(profile.as_str(), "dev") {
        Ok("-dev")
    } else if str_eq(profile.as_str(), "canary") {
        Ok("-canary")
    } else if str_eq(profile.as_str(), "nightly") {
        Ok("-nightly")
    } else if str_eq(profile.as_str(), "beta") {
        Ok("-beta")
    } else {
        let mut e = "unsupported RYU_PROFILE '".to_string();
        e.append(profile.as_str());
        e.append("'; expected release, dev, canary, nightly, or beta");
        Err(e)
    }
}

/// A path as the parts that it is joined from.
#[derive(Debug)]
pub struct DirPath {
    pub parts: Vec<String>,
}

impl DirPath {
    /// Nothing to join.
    pub fn is_empty(&self) -> (b: bool)
        ensures
            b == (forall|i: int| 0 <= i < self.parts@.len() ==> (#[trigger] self.parts@[i])@.len() == 0),
    {
        let mut i: usize = 0;
        while i < self.parts.len()
            invariant
                i <= self.parts@.len(),
                forall|k: int| 0 <= k < i ==> (#[trigger] self.parts@[k])@.len() == 0,
            decreases self.parts.len() - i,
        {
            if !self.parts[i].as_str().is_empty() {
                return false;
            }
            i += 1;
        }
        true
    }
}

/// The directory under the user's home, or under the working directory where there is no home.
pub open spec fn home_parts(home: Option<Seq<char>>, suffix: Seq<char>) -> Seq<Seq<char>> {
    seq![
        match home {
            Some(h) => h,
            None => "."@,
        },
        ".ryu"@ + suffix,
    ]
}

/// The data directory where nothing else is said.
pub fn default_data_dir(home: Option<&str>, suffix: &str) -> (r: DirPath)
    ensures
        r.parts.deep_view() == home_parts(home.deep_view(), suffix@),
{
    let base = match home {
        Some(h) => h.to_string(),
        None => ".".to_string(),
    };
    let mut name = ".ryu".to_string();
    name.append(suffix);
    let mut parts: Vec<String> = Vec::new();
    parts.push(base);
    parts.push(name);
    DirPath { parts }
}

/// The file that may point at another data directory.
pub open spec fn pointer_parts(
    config: Option<Seq<char>>,
    home: Option<Seq<char>>,
    suffix: Seq<char>,
) -> Seq<Seq<char>> {
    let base = match config {
        Some(c) => seq![c],
        None => home_parts(home, suffix),
    };
    base.push("ryu"@ + suffix).push("data-path.json"@)
}

/// The file that may point at another data directory.
pub fn pointer_path(config: Option<&str>, home: Option<&str>, suffix: &str) -> (r: DirPath)
    ensures
        r.parts.deep_view() == pointer_parts(config.deep_view(), home.deep_view(), suffix@),
{
    let mut parts: Vec<String> = match config {
        Some(c) => {
            let mut v: Vec<String> = Vec::new();
            v.push(c.to_string());
            v
        },
        None => default_data_dir(home, suffix).parts,
    };
    let mut name = "ryu".to_string();
    name.append(suffix);
    parts.push(name);
    parts.push("data-path.json".to_string());
    DirPath { parts }
}

/// Text that holds something.
pub open spec fn given(s: Option<Seq<char>>) -> bool {
    s is Some && s->0.len() > 0
}

/// The data directory: the environment's, else the one that the pointer file names, else the
/// default one.
pub open spec fn data_parts(
    env_dir: Option<Seq<char>>,
    pointed: Option<Seq<char>>,
    home: Option<Seq<char>>,
    suffix: Seq<char>,
) -> Seq<Seq<char>> {
    if given(env_dir) {
        seq![env_dir->0]
    } else if given(pointed) {
        seq![pointed->0]
    } else {
        home_parts(home, suffix)
    }
}

/// Resolves the data directory from what the environment and the pointer file say.
pub fn ryu_dir(
    env_dir: Option<&str>,
    pointed: Option<&str>,
    home: Option<&str>,
    suffix: &str,
) -> (r: DirPath)
    ensures
        r.parts.deep_view() == data_parts(
            env_dir.deep_view(),
            pointed.deep_view(),
            home.deep_view(),
            suffix@,
        ),
{
    match env_dir {
        Some(d) => {
            if !d.is_empty() {
                return single(d);
            }
        },
        None => {},
    }
    match pointed {
        Some(d) => {
            if !d.is_empty() {
                return single(d);
            }
        },
        None => {},
    }
    default_data_dir(home, suffix)
}

fn single(d: &str) -> (r: DirPath)
    ensures
        r.parts.deep_view() == seq![d@],
{
    let mut parts: Vec<String> = Vec::new();
    parts.push(d.to_string());
    DirPath { parts }
}

/// The data directory is never the empty path.
pub proof fn law_the_data_directory_is_not_empty(
    env_dir: Option<Seq<char>>,
    pointed: Option<Seq<char>>,
    home: Option<Seq<char>>,
    suffix: Seq<char>,
)
    ensures
        exists|i: int|
            0 <= i < data_parts(env_dir, pointed, home, suffix).len() && (#[trigger] data_parts(
                env_dir,
                pointed,
                home,
                suffix,
            )[i]).len() > 0,
{
    let v = data_parts(env_dir, pointed, home, suffix);
    reveal_strlit(".ryu");
    assert(v[v.len() - 1].len() > 0);
}

} // verus!
