//! A parsed URL as plain data, and the screening of a submitted post URL.
use crate::composio;
use crate::composio::id_segment_is_safe;
use crate::rows;
use crate::text;
use crate::text::{
    char_is_control, char_is_white, chars_of, contains_str, ends_with_str, eq_ignore_case,
    split_on, str_eq, to_lower, trim,
};
use vstd::prelude::*;

verus! {

/// An IP address as its parts.
#[derive(Debug, Clone, Copy)]
pub enum IpLiteral {
    /// The four octets.
    V4([u8; 4]),
    /// The eight 16-bit groups.
    V6([u16; 8]),
}

/// A parsed URL: what the rules read of it.
#[derive(Debug)]
pub struct WebUrl {
    /// The whole URL in its normal form.
    pub href: String,
    pub scheme: String,
    pub host: Option<String>,
    /// The address, where the host is one.
    pub ip: Option<IpLiteral>,
    /// The path between slashes; `None` where the URL has no such path.
    pub segments: Option<Vec<String>>,
    /// The decoded query pairs in order.
    pub query: Vec<(String, String)>,
}

/// The view of a [`WebUrl`].
#[verifier::ext_equal]
pub struct UrlView {
    pub href: Seq<char>,
    pub scheme: Seq<char>,
    pub host: Option<Seq<char>>,
    pub ip: Option<IpLiteral>,
    pub segments: Option<Seq<Seq<char>>>,
    pub query: Seq<(Seq<char>, Seq<char>)>,
}

impl DeepView for WebUrl {
    type V = UrlView;

    open spec fn deep_view(&self) -> UrlView {
        UrlView {
            href: self.href@,
            scheme: self.scheme@,
            host: self.host.deep_view(),
            ip: self.ip,
            segments: self.segments.deep_view(),
            query: self.query.deep_view(),
        }
    }
}

/// What `url::Url::parse` makes of a text: the URL's parts, or the error's message.
pub uninterp spec fn parsed_url(input: Seq<char>) -> Result<UrlView, Seq<char>>;

/// The view of what [`parse_url`] returns.
pub open spec fn url_result(r: Result<WebUrl, String>) -> Result<UrlView, Seq<char>> {
    match r {
        Ok(u) => Ok(u.deep_view()),
        Err(e) => Err(e@),
    }
}

/// Parses a URL with `url::Url::parse` and takes it apart with `Url`'s own readers: its
/// normal form, scheme, host, the address where the host is one, path segments and decoded
/// query pairs. The result depends on the text alone.
#[verifier::external_body]
pub(crate) fn parse_url(input: &str) -> (r: Result<WebUrl, String>)
    ensures
        url_result(r) == parsed_url(input@),
{
    let u = url::Url::parse(input).map_err(|e| e.to_string())?;
    let ip = match u.host() {
        Some(url::Host::Ipv4(a)) => Some(IpLiteral::V4(a.octets())),
        Some(url::Host::Ipv6(a)) => Some(IpLiteral::V6(a.segments())),
        _ => None,
    };
    Ok(WebUrl {
        href: u.to_string(),
        scheme: u.scheme().to_string(),
        host: u.host_str().map(str::to_string),
        ip,
        segments: u.path_segments().map(|s| s.map(str::to_string).collect()),
        query: u.query_pairs().into_owned().collect(),
    })
}

/// What `url::Host::parse` makes of a host: its normal form, or the error's message.
pub uninterp spec fn parsed_host(host: Seq<char>) -> Result<Seq<char>, Seq<char>>;

/// The view of what [`parse_host`] returns.
pub open spec fn host_result(r: Result<String, String>) -> Result<Seq<char>, Seq<char>> {
    match r {
        Ok(h) => Ok(h@),
        Err(e) => Err(e@),
    }
}

/// Parses a host with `url::Host::parse` and writes it back out. The result depends on the
/// text alone.
#[verifier::external_body]
fn parse_host(host: &str) -> (r: Result<String, String>)
    ensures
        host_result(r) == parsed_host(host@),
{
    match url::Host::parse(host) {
        Ok(h) => Ok(h.to_string()),
        Err(e) => Err(e.to_string()),
    }
}

// ---- addresses -------------------------------------------------------------------------------

/// An IPv4 address that no post lives at: loopback, private, link-local, `0.0.0.0/8`,
/// broadcast, or shared address space (`100.64.0.0/10`).
pub open spec fn blocked_v4(a: u8, b: u8, c: u8, d: u8) -> bool {
    ||| a == 127
    ||| a == 10
    ||| (a == 172 && 16 <= b <= 31)
    ||| (a == 192 && b == 168)
    ||| (a == 169 && b == 254)
    ||| a == 0
    ||| (a == 255 && b == 255 && c == 255 && d == 255)
    ||| (a == 100 && 64 <= b <= 127)
}

/// An address that no post lives at. An IPv4-mapped IPv6 address counts as the IPv4 address;
/// of the others loopback, unspecified, unique-local (`fc00::/7`) and link-local
/// (`fe80::/10`) are blocked.
pub open spec fn blocked(ip: IpLiteral) -> bool {
    match ip {
        IpLiteral::V4(o) => blocked_v4(o@[0], o@[1], o@[2], o@[3]),
        IpLiteral::V6(g) => {
            let (s0, s1, s2, s3) = (g@[0], g@[1], g@[2], g@[3]);
            let (s4, s5, s6, s7) = (g@[4], g@[5], g@[6], g@[7]);
            if s0 == 0 && s1 == 0 && s2 == 0 && s3 == 0 && s4 == 0 && s5 == 0 && s6 == 0 && s7
                <= 1 {
                true
            } else if s0 == 0 && s1 == 0 && s2 == 0 && s3 == 0 && s4 == 0 && s5 == 0xffff {
                blocked_v4(
                    (s6 / 256) as u8,
                    (s6 % 256) as u8,
                    (s7 / 256) as u8,
                    (s7 % 256) as u8,
                )
            } else {
                0xfc00 <= s0 <= 0xfdff || 0xfe80 <= s0 <= 0xfebf
            }
        },
    }
}

/// Whether an IPv4 address is one that no post lives at.
pub fn is_blocked_ipv4(a: u8, b: u8, c: u8, d: u8) -> (r: bool)
    ensures
        r == blocked_v4(a, b, c, d),
{
    assert((b & 0xc0) == 0x40 <==> 64 <= b <= 127) by (bit_vector);
    assert((b & 0xf0) == 16 <==> 16 <= b <= 31) by (bit_vector);
    a == 127 || a == 10 || (a == 172 && (b & 0xf0) == 16) || (a == 192 && b == 168) || (a == 169
        && b == 254) || (a == 255 && b == 255 && c == 255 && d == 255) || a == 0 || (a == 100 && (b
        & 0xc0) == 0x40)
}

/// Whether an address is one that no post lives at.
pub fn is_blocked_ip(ip: IpLiteral) -> (r: bool)
    ensures
        r == blocked(ip),
{
    match ip {
        IpLiteral::V4(o) => is_blocked_ipv4(o[0], o[1], o[2], o[3]),
        IpLiteral::V6(g) => {
            let (s0, s1, s2, s3): (u16, u16, u16, u16) = (g[0], g[1], g[2], g[3]);
            let (s4, s5, s6, s7): (u16, u16, u16, u16) = (g[4], g[5], g[6], g[7]);
            let low: bool = s0 == 0 && s1 == 0 && s2 == 0 && s3 == 0 && s4 == 0;
            if low && s5 == 0 && s6 == 0 && s7 <= 1 {
                return true;
            }
            if low && s5 == 0xffff {
                return is_blocked_ipv4(
                    (s6 / 256) as u8,
                    (s6 % 256) as u8,
                    (s7 / 256) as u8,
                    (s7 % 256) as u8,
                );
            }
            assert((s0 & 0xfe00) == 0xfc00 <==> 0xfc00 <= s0 <= 0xfdff) by (bit_vector);
            assert((s0 & 0xffc0) == 0xfe80 <==> 0xfe80 <= s0 <= 0xfebf) by (bit_vector);
            (s0 & 0xfe00) == 0xfc00 || (s0 & 0xffc0) == 0xfe80
        },
    }
}

// ---- hosts -----------------------------------------------------------------------------------

/// Hosts that are never accepted.
pub open spec fn denied_hosts() -> Seq<Seq<char>> {
    seq!["metadata.google.internal"@, "metadata.goog"@, "metadata"@, "localhost"@]
}

/// Private DNS suffixes; a real post never lives under one.
pub open spec fn denied_suffixes() -> Seq<Seq<char>> {
    seq![".internal"@, ".local"@, ".localdomain"@, ".localhost"@]
}

/// The host is denied, lies under a denied host, or ends in a denied suffix.
pub open spec fn denied(host: Seq<char>) -> bool {
    ||| exists|i: int|
        0 <= i < denied_hosts().len() && (host == #[trigger] denied_hosts()[i]
            || text::finishes_with(host, seq!['.'] + denied_hosts()[i]))
    ||| exists|i: int|
        0 <= i < denied_suffixes().len() && text::finishes_with(
            host,
            #[trigger] denied_suffixes()[i],
        )
}

fn under(host: &str, name: &str) -> (b: bool)
    ensures
        b == (host@ == name@ || text::finishes_with(host@, seq!['.'] + name@)),
{
    let mut dotted = String::new();
    dotted.push('.');
    dotted.append(name);
    str_eq(host, name) || ends_with_str(host, dotted.as_str())
}

/// Whether the host is an internal one.
pub fn is_denied_host(host: &str) -> (b: bool)
    ensures
        b == denied(host@),
{
    let d0 = under(host, "metadata.google.internal");
    let d1 = under(host, "metadata.goog");
    let d2 = under(host, "metadata");
    let d3 = under(host, "localhost");
    let s0 = ends_with_str(host, ".internal");
    let s1 = ends_with_str(host, ".local");
    let s2 = ends_with_str(host, ".localdomain");
    let s3 = ends_with_str(host, ".localhost");
    d0 || d1 || d2 || d3 || s0 || s1 || s2 || s3
}

/// The host without one trailing dot.
pub open spec fn bare_host(host: Seq<char>) -> Seq<char> {
    if host.len() > 0 && host.last() == '.' {
        host.drop_last()
    } else {
        host
    }
}

fn strip_dot(host: &str) -> (r: &str)
    ensures
        r@ == bare_host(host@),
{
    let n: usize = host.unicode_len();
    if n > 0 && host.get_char(n - 1) == '.' {
        host.substring_char(0, n - 1)
    } else {
        host
    }
}

/// The host holds a control or white-space character.
pub open spec fn has_odd_char(host: Seq<char>) -> bool {
    exists|i: int|
        0 <= i < host.len() && (text::is_control_char(#[trigger] host[i]) || text::is_white(
            host[i],
        ))
}

fn odd_char(host: &str) -> (b: bool)
    ensures
        b == has_odd_char(host@),
{
    let cs = chars_of(host);
    let mut i: usize = 0;
    while i < cs.len()
        invariant
            cs@ == host@,
            i <= cs.len(),
            forall|k: int|
                0 <= k < i ==> !(text::is_control_char(#[trigger] host@[k]) || text::is_white(
                    host@[k],
                )),
        decreases cs.len() - i,
    {
        if char_is_control(cs[i]) || char_is_white(cs[i]) {
            return true;
        }
        i += 1;
    }
    false
}

// ---- the screen ---------------------------------------------------------------------------------

/// What screening decides of a parsed URL, given what parsing its bare host again gives.
pub open spec fn screened(url: UrlView, reparsed: Result<Seq<char>, Seq<char>>) -> Result<
    UrlView,
    Seq<char>,
> {
    if url.scheme != "https"@ {
        Err("post url must be https"@)
    } else if url.host is None {
        Err("post url has no host"@)
    } else {
        let host = url.host->0;
        let bare = bare_host(host);
        if has_odd_char(host) {
            Err("post url host contains control or whitespace characters"@)
        } else if !vstd::utf8::is_ascii_chars(host) {
            Err("non-ASCII post url host is not allowed"@)
        } else if url.ip is Some {
            if blocked(url.ip->0) {
                Err("post url points at a private or loopback address"@)
            } else {
                Ok(url)
            }
        } else if denied(text::lower(bare)) {
            Err("post url points at an internal host"@)
        } else {
            match reparsed {
                Ok(again) => if text::eq_nocase(again, bare) {
                    Ok(url)
                } else {
                    Err("post url host failed its IDNA round-trip"@)
                },
                Err(e) => Err("invalid post url host: "@ + e),
            }
        }
    }
}

/// The host that screening parses again.
pub open spec fn host_to_reparse(url: UrlView) -> Seq<char> {
    match url.host {
        Some(h) => bare_host(h),
        None => Seq::empty(),
    }
}

/// Screens a parsed URL, given what parsing its bare host again gave.
pub fn screen_parsed_url(url: WebUrl, reparsed: Result<String, String>) -> (r: Result<
    WebUrl,
    String,
>)
    ensures
        url_result(r) == screened(url.deep_view(), host_result(reparsed)),
{
    if !str_eq(url.scheme.as_str(), "https") {
        return Err("post url must be https".to_string());
    }
    let (denied_host, same): (bool, bool) = match &url.host {
        None => {
            return Err("post url has no host".to_string());
        },
        Some(host) => {
            if odd_char(host.as_str()) {
                return Err(
                    "post url host contains control or whitespace characters".to_string(),
                );
            }
            if !host.as_str().is_ascii() {
                return Err("non-ASCII post url host is not allowed".to_string());
            }
            let bare = strip_dot(host.as_str());
            let lower = to_lower(bare);
            let same: bool = match &reparsed {
                Ok(again) => eq_ignore_case(again.as_str(), bare),
                Err(_) => false,
            };
            (is_denied_host(lower.as_str()), same)
        },
    };
    match url.ip {
        Some(ip) => {
            if is_blocked_ip(ip) {
                return Err("post url points at a private or loopback address".to_string());
            }
            return Ok(url);
        },
        None => {},
    }
    if denied_host {
        return Err("post url points at an internal host".to_string());
    }
    match reparsed {
        Ok(_) => {
            if same {
                Ok(url)
            } else {
                Err("post url host failed its IDNA round-trip".to_string())
            }
        },
        Err(e) => {
            let mut m = "invalid post url host: ".to_string();
            m.append(e.as_str());
            Err(m)
        },
    }
}

/// What screening decides of the text of a post URL.
pub open spec fn screened_text(raw: Seq<char>) -> Result<UrlView, Seq<char>> {
    if text::blank(raw) {
        Err("post_url is required"@)
    } else {
        match parsed_url(text::trimmed(raw)) {
            Ok(url) => screened(url, parsed_host(host_to_reparse(url))),
            Err(e) => Err("invalid post url: "@ + e),
        }
    }
}

/// Screens and normalises a submitted post URL: https only, and never a private address or an
/// internal host. The message of a refusal is written for the person pasting the link.
pub fn screen_post_url(raw: &str) -> (r: Result<WebUrl, String>)
    ensures
        url_result(r) == screened_text(raw@),
{
    let trimmed = trim(raw);
    if trimmed.is_empty() {
        return Err("post_url is required".to_string());
    }
    match parse_url(trimmed) {
        Ok(url) => {
            let reparsed = match &url.host {
                Some(h) => parse_host(strip_dot(h.as_str())),
                None => parse_host(""),
            };
            screen_parsed_url(url, reparsed)
        },
        Err(e) => {
            let mut m = "invalid post url: ".to_string();
            m.append(e.as_str());
            Err(m)
        },
    }
}

/// Parses a stored URL again, without screening it; `None` where it is no URL.
pub fn reparse_url(stored: &str) -> (r: Option<WebUrl>)
    ensures
        match parsed_url(stored@) {
            Ok(u) => r.deep_view() == Some(u),
            Err(_) => r is None,
        },
{
    match parse_url(stored) {
        Ok(u) => Some(u),
        Err(_) => None,
    }
}

/// Every accepted post URL is https, has an ASCII host without odd characters, and is neither
/// a blocked address nor an internal host.
pub proof fn law_screened_urls_are_public(url: UrlView, reparsed: Result<Seq<char>, Seq<char>>)
    ensures
        screened(url, reparsed) matches Ok(kept) ==> {
            &&& kept == url
            &&& url.scheme == "https"@
            &&& url.host is Some
            &&& !has_odd_char(url.host->0)
            &&& vstd::utf8::is_ascii_chars(url.host->0)
            &&& url.ip is Some ==> !blocked(url.ip->0)
            &&& url.ip is None ==> !denied(text::lower(bare_host(url.host->0)))
        },
{
}

// ---- post ids ------------------------------------------------------------------------------------

/// The segment is one of the markers, without regard to ASCII case.
pub open spec fn is_marker(markers: Seq<Seq<char>>) -> spec_fn(Seq<char>) -> bool {
    |s: Seq<char>| exists|i: int| 0 <= i < markers.len() && text::eq_nocase(s, #[trigger] markers[i])
}

/// The segment that follows the first marker.
pub open spec fn after_first_marker(
    segments: Seq<Seq<char>>,
    markers: Seq<Seq<char>>,
) -> Option<Seq<char>> {
    match rows::position(segments, is_marker(markers)) {
        Some(i) => if i + 1 < segments.len() {
            Some(segments[i + 1])
        } else {
            None
        },
        None => None,
    }
}

/// The segment that follows the first occurrence of any marker.
pub fn after_marker(segments: &Vec<String>, markers: &Vec<&'static str>) -> (r: Option<String>)
    ensures
        r.deep_view() == after_first_marker(segments.deep_view(), markers.deep_view()),
{
    let marks = |s: &String| -> (b: bool)
        ensures
            b == is_marker(markers.deep_view())(s.deep_view()),
        {
            let mut i: usize = 0;
            while i < markers.len()
                invariant
                    i <= markers.len(),
                    forall|k: int|
                        0 <= k < i ==> !text::eq_nocase(s@, #[trigger] markers.deep_view()[k]),
                decreases markers.len() - i,
            {
                assert(markers.deep_view()[i as int] == markers@[i as int]@);
                if eq_ignore_case(s.as_str(), markers[i]) {
                    return true;
                }
                i += 1;
            }
            false
        };
    match rows::find_row(segments, marks, Ghost(is_marker(markers.deep_view()))) {
        Some(i) => {
            if i + 1 < segments.len() {
                Some(segments[i + 1].clone())
            } else {
                None
            }
        },
        None => None,
    }
}

/// The query parameter is `v`.
pub open spec fn is_v() -> spec_fn((Seq<char>, Seq<char>)) -> bool {
    |p: (Seq<char>, Seq<char>)| p.0 == "v"@
}

/// The text holds something.
pub open spec fn filled() -> spec_fn(Seq<char>) -> bool {
    |s: Seq<char>| s.len() > 0
}

/// The path segments that hold something.
pub open spec fn path_of(url: UrlView) -> Seq<Seq<char>> {
    match url.segments {
        Some(s) => rows::kept(s, filled()),
        None => Seq::empty(),
    }
}

/// The id that a post URL of the platform carries, before it is checked.
pub open spec fn post_id_candidate(platform: Seq<char>, url: UrlView) -> Option<Seq<char>> {
    let path = path_of(url);
    let host = match url.host {
        Some(h) => text::lower(h),
        None => Seq::empty(),
    };
    if platform == "youtube"@ {
        if text::holds_text(host, "youtu.be"@) {
            if path.len() > 0 {
                Some(path[0])
            } else {
                None
            }
        } else {
            match rows::found(url.query, is_v()) {
                Some(p) => Some(p.1),
                None => after_first_marker(path, seq!["shorts"@, "live"@, "embed"@]),
            }
        }
    } else if platform == "tiktok"@ {
        match after_first_marker(path, seq!["video"@, "photo"@]) {
            Some(id) => Some(id),
            None => if path.len() == 1 {
                Some(path[0])
            } else {
                None
            },
        }
    } else if platform == "instagram"@ {
        after_first_marker(path, seq!["p"@, "reel"@, "reels"@, "tv"@])
    } else if platform == "x"@ {
        after_first_marker(path, seq!["status"@, "statuses"@])
    } else if platform == "linkedin"@ {
        match after_first_marker(path, seq!["posts"@, "update"@, "activity"@]) {
            Some(s) => Some(text::pieces(s, ':').last()),
            None => None,
        }
    } else {
        None
    }
}

/// The platform-native post id of a URL: `None` when the URL does not look like a post of
/// that platform, or when the id is not a plain path segment.
pub open spec fn post_id(platform: Seq<char>, url: UrlView) -> Option<Seq<char>> {
    match post_id_candidate(platform, url) {
        Some(c) => if composio::safe_segment(text::trimmed(c)) {
            Some(text::trimmed(c))
        } else {
            None
        },
        None => None,
    }
}

fn marker_list(a: &'static str, b: &'static str) -> (r: Vec<&'static str>)
    ensures
        r.deep_view() == seq![a@, b@],
{
    let mut r: Vec<&'static str> = Vec::new();
    r.push(a);
    r.push(b);
    r
}

fn marker_list3(a: &'static str, b: &'static str, c: &'static str) -> (r: Vec<&'static str>)
    ensures
        r.deep_view() == seq![a@, b@, c@],
{
    let mut r = marker_list(a, b);
    let ghost before = r.deep_view();
    r.push(c);
    assert(r.deep_view() =~= before.push(c@));
    r
}

fn path_segments(url: &WebUrl) -> (out: Vec<String>)
    ensures
        out.deep_view() == path_of(url.deep_view()),
{
    match &url.segments {
        Some(s) => {
            let mut out = crate::records::clone_strings(s);
            let holds = |t: &String| -> (b: bool)
                ensures
                    b == filled()(t.deep_view()),
                { !t.as_str().is_empty() };
            rows::retain_rows(&mut out, holds, Ghost(filled()));
            out
        },
        None => {
            let out: Vec<String> = Vec::new();
            out
        },
    }
}

/// Extracts the platform-native post id from a screened post URL. That id is the one dynamic
/// value this app ever hands to a Composio action, so it is always a safe segment.
pub fn parse_post_id(platform: &str, url: &WebUrl) -> (r: Option<String>)
    ensures
        r.deep_view() == post_id(platform@, url.deep_view()),
        r is Some ==> composio::safe_segment(r->0@),
{
    let segments = path_segments(url);
    let host: String = match &url.host {
        Some(h) => to_lower(h.as_str()),
        None => String::new(),
    };
    let candidate: Option<String> = if str_eq(platform, "youtube") {
        if contains_str(host.as_str(), "youtu.be") {
            first_segment(&segments)
        } else {
            let wanted = |p: &(String, String)| -> (b: bool)
                ensures
                    b == is_v()(p.deep_view()),
                { str_eq(p.0.as_str(), "v") };
            match rows::find_row(&url.query, wanted, Ghost(is_v())) {
                Some(i) => {
                    Some(url.query[i].1.clone())
                },
                None => after_marker(&segments, &marker_list3("shorts", "live", "embed")),
            }
        }
    } else if str_eq(platform, "tiktok") {
        match after_marker(&segments, &marker_list("video", "photo")) {
            Some(id) => Some(id),
            None => {
                if segments.len() == 1 {
                    first_segment(&segments)
                } else {
                    None
                }
            },
        }
    } else if str_eq(platform, "instagram") {
        let mut markers = marker_list3("p", "reel", "reels");
        let ghost before = markers.deep_view();
        markers.push("tv");
        assert(markers.deep_view() =~= before.push("tv"@));
        assert(markers.deep_view() =~= seq!["p"@, "reel"@, "reels"@, "tv"@]);
        after_marker(&segments, &markers)
    } else if str_eq(platform, "x") {
        after_marker(&segments, &marker_list("status", "statuses"))
    } else if str_eq(platform, "linkedin") {
        match after_marker(&segments, &marker_list3("posts", "update", "activity")) {
            Some(s) => {
                let parts = split_on(s.as_str(), ':');
                Some(parts[parts.len() - 1].clone())
            },
            None => None,
        }
    } else {
        None
    };
    match candidate {
        Some(c) => {
            let id = trim(c.as_str());
            if id_segment_is_safe(id) {
                Some(id.to_string())
            } else {
                None
            }
        },
        None => None,
    }
}

fn first_segment(segments: &Vec<String>) -> (r: Option<String>)
    ensures
        r.deep_view() == if segments.deep_view().len() > 0 {
            Some(segments.deep_view()[0])
        } else {
            None
        },
{
    if segments.len() > 0 {
        Some(segments[0].clone())
    } else {
        None
    }
}

/// A post id that is stored is always a safe segment.
pub proof fn law_post_ids_are_safe(platform: Seq<char>, url: UrlView)
    ensures
        post_id(platform, url) matches Some(id) ==> composio::safe_segment(id),
{
}

} // verus!
