//! What becomes of a post URL: which ones are let in, which post id each documented shape carries,
//! and what is recorded of it.
use crate::composio;
use crate::engine::{EngineView, HookEventView};
use crate::inputs::SubmissionBodyView;
use crate::price_laws;
use crate::records::{SubmissionStatus, SubmissionView};
use crate::replies;
use crate::rows;
use crate::store;
use crate::store::{StoreError, StoreView};
use crate::submission_api;
use crate::text;
use crate::weburl;
use crate::weburl::{IpLiteral, UrlView};
use vstd::prelude::*;

verus! {

// ---- codes and shapes ------------------------------------------------------------------------

/// A post code: letters, digits, `_`, `-` and `.`, at least one of them, and no two dots in a row.
pub open spec fn is_code(s: Seq<char>) -> bool {
    &&& s.len() > 0
    &&& forall|i: int|
        0 <= i < s.len() ==> {
            let c = #[trigger] s[i];
            ('a' <= c && c <= 'z') || ('A' <= c && c <= 'Z') || ('0' <= c && c <= '9') || c == '_'
                || c == '-' || c == '.'
        }
    &&& forall|i: int| 0 < i < s.len() && #[trigger] s[i] == '.' ==> s[i - 1] != '.'
}

/// The path comes to a marker at `k`, the first one in it, and the code stands behind it. ASCII
/// case does not matter, and what follows the code does not either.
pub open spec fn leads_to(
    path: Seq<Seq<char>>,
    markers: Seq<Seq<char>>,
    k: int,
    code: Seq<char>,
) -> bool {
    &&& 0 <= k
    &&& k + 1 < path.len()
    &&& forall|j: int|
        0 <= j < k ==> (#[trigger] path[j]).len() > 0 && !markers.contains(text::lower(path[j]))
    &&& markers.contains(text::lower(path[k]))
    &&& path[k + 1] == code
}

/// No part of the path is a marker.
pub open spec fn leads_nowhere(path: Seq<Seq<char>>, markers: Seq<Seq<char>>) -> bool {
    forall|j: int| 0 <= j < path.len() ==> !markers.contains(text::lower(#[trigger] path[j]))
}

proof fn lemma_codes(s: Seq<char>)
    ensures
        is_code(s) <==> composio::safe_segment(s),
        is_code(s) ==> text::trimmed(s) == s,
{
    reveal_strlit("..");
    if is_code(s) && text::holds_text(s, ".."@) {
        let at = choose|at: int| text::stands_at(s, ".."@, at);
        let part = s.subrange(at, at + 2);
        assert(part[0] == s[at] && part[1] == s[at + 1]);
    }
    if composio::safe_segment(s) {
        assert forall|i: int| 0 < i < s.len() && #[trigger] s[i] == '.' implies s[i - 1] != '.' by {
            if s[i - 1] == '.' {
                assert(s.subrange(i - 1, i + 1) =~= ".."@);
                assert(text::stands_at(s, ".."@, i - 1));
            }
        }
        assert forall|i: int| 0 <= i < s.len() implies {
            let c = #[trigger] s[i];
            ('a' <= c && c <= 'z') || ('A' <= c && c <= 'Z') || ('0' <= c && c <= '9') || c == '_'
                || c == '-' || c == '.'
        } by {
            assert(composio::is_segment_char(s[i]));
        }
    }
    if is_code(s) {
        assert(!text::is_white(s[0]) && !text::is_white(s.last()));
    }
}

/// Exactly the codes are handed on as post ids.
pub proof fn law_safe_segments_are_codes(s: Seq<char>)
    ensures
        composio::safe_segment(s) <==> is_code(s),
{
    lemma_codes(s);
}

/// Whatever the URL, a post id is a code.
pub proof fn law_every_post_id_is_a_code(platform: Seq<char>, url: UrlView)
    ensures
        weburl::post_id(platform, url) matches Some(id) ==> is_code(id),
{
    if weburl::post_id(platform, url) is Some {
        lemma_codes(weburl::post_id(platform, url)->0);
    }
}

proof fn lemma_lower_is_self(s: Seq<char>)
    requires
        forall|i: int| 0 <= i < s.len() ==> 'a' <= #[trigger] s[i] && s[i] <= 'z',
    ensures
        text::lower(s) == s,
{
    assert(text::lower(s) =~= s);
}

proof fn lemma_kept_prefix<T>(s: Seq<T>, p: spec_fn(T) -> bool, n: int)
    requires
        0 <= n <= s.len(),
        forall|i: int| 0 <= i < n ==> p(#[trigger] s[i]),
    ensures
        rows::kept(s, p).len() >= n,
        forall|i: int| 0 <= i < n ==> #[trigger] rows::kept(s, p)[i] == s[i],
    decreases s.len(),
{
    if s.len() > 0 {
        let init = s.drop_last();
        let m = if n <= init.len() {
            n
        } else {
            init.len() as int
        };
        assert forall|i: int| 0 <= i < m implies p(#[trigger] init[i]) by {
            assert(init[i] == s[i]);
        }
        lemma_kept_prefix(init, p, m);
        rows::lemma_kept(init, p);
        if n == s.len() {
            assert(p(s[n - 1]));
        }
    }
}

proof fn lemma_marked(markers: Seq<Seq<char>>, s: Seq<char>)
    requires
        forall|i: int| 0 <= i < markers.len() ==> text::lower(#[trigger] markers[i]) == markers[i],
    ensures
        weburl::is_marker(markers)(s) <==> markers.contains(text::lower(s)),
{
    if markers.contains(text::lower(s)) {
        let i = choose|i: int| 0 <= i < markers.len() && markers[i] == text::lower(s);
        assert(text::eq_nocase(s, markers[i]));
    }
}

proof fn lemma_behind_the_marker(
    path: Seq<Seq<char>>,
    markers: Seq<Seq<char>>,
    k: int,
    code: Seq<char>,
)
    requires
        leads_to(path, markers, k, code),
        code.len() > 0,
        forall|i: int|
            0 <= i < markers.len() ==> text::lower(#[trigger] markers[i]) == markers[i]
                && markers[i].len() > 0,
    ensures
        weburl::after_first_marker(rows::kept(path, weburl::filled()), markers) == Some(code),
{
    let kept = rows::kept(path, weburl::filled());
    let mark = weburl::is_marker(markers);
    assert(path[k].len() > 0) by {
        assert(text::lower(path[k]).len() == path[k].len());
    }
    assert forall|i: int| 0 <= i < k + 2 implies weburl::filled()(#[trigger] path[i]) by {}
    lemma_kept_prefix(path, weburl::filled(), k + 2);
    rows::lemma_position(kept, mark);
    assert(kept[k] == path[k]);
    assert(kept[k + 1] == path[k + 1]);
    lemma_marked(markers, path[k]);
    assert forall|j: int| 0 <= j < k implies !mark(#[trigger] kept[j]) by {
        assert(kept[j] == path[j]);
        lemma_marked(markers, path[j]);
    }
    assert(rows::first_at(kept, mark, k));
}

proof fn lemma_no_marker(path: Seq<Seq<char>>, markers: Seq<Seq<char>>)
    requires
        leads_nowhere(path, markers),
        forall|i: int| 0 <= i < markers.len() ==> text::lower(#[trigger] markers[i]) == markers[i],
    ensures
        weburl::after_first_marker(rows::kept(path, weburl::filled()), markers) is None,
{
    let kept = rows::kept(path, weburl::filled());
    let mark = weburl::is_marker(markers);
    rows::lemma_kept(path, weburl::filled());
    rows::lemma_position(kept, mark);
    assert forall|j: int| 0 <= j < kept.len() implies !mark(#[trigger] kept[j]) by {
        let i = choose|i: int| 0 <= i < path.len() && path[i] == kept[j];
        assert(!markers.contains(text::lower(path[i])));
        lemma_marked(markers, kept[j]);
    }
}

proof fn lemma_platforms_differ()
    ensures
        "youtube"@ != "tiktok"@,
        "youtube"@ != "instagram"@,
        "youtube"@ != "x"@,
        "youtube"@ != "linkedin"@,
        "tiktok"@ != "instagram"@,
        "tiktok"@ != "x"@,
        "tiktok"@ != "linkedin"@,
        "instagram"@ != "x"@,
        "instagram"@ != "linkedin"@,
        "x"@ != "linkedin"@,
{
    reveal_strlit("youtube");
    reveal_strlit("tiktok");
    reveal_strlit("instagram");
    reveal_strlit("x");
    reveal_strlit("linkedin");
    assert("youtube"@[0] == 'y' && "tiktok"@[0] == 't' && "instagram"@[0] == 'i' && "x"@[0] == 'x'
        && "linkedin"@[0] == 'l');
}

// ---- post ids --------------------------------------------------------------------------------

/// The code of an Instagram post stands behind `/p/`, `/reel/`, `/reels/` or `/tv/`.
pub proof fn law_instagram_posts_have_ids(
    url: UrlView,
    path: Seq<Seq<char>>,
    k: int,
    code: Seq<char>,
)
    requires
        url.segments == Some(path),
        leads_to(path, seq!["p"@, "reel"@, "reels"@, "tv"@], k, code),
        is_code(code),
    ensures
        weburl::post_id("instagram"@, url) == Some(code),
{
    let markers = seq!["p"@, "reel"@, "reels"@, "tv"@];
    lemma_platforms_differ();
    lemma_codes(code);
    reveal_strlit("p");
    reveal_strlit("reel");
    reveal_strlit("reels");
    reveal_strlit("tv");
    lemma_lower_is_self("p"@);
    lemma_lower_is_self("reel"@);
    lemma_lower_is_self("reels"@);
    lemma_lower_is_self("tv"@);
    lemma_behind_the_marker(path, markers, k, code);
}

/// The id of a post on X stands behind `/status/` or `/statuses/`.
pub proof fn law_x_posts_have_ids(url: UrlView, path: Seq<Seq<char>>, k: int, code: Seq<char>)
    requires
        url.segments == Some(path),
        leads_to(path, seq!["status"@, "statuses"@], k, code),
        is_code(code),
    ensures
        weburl::post_id("x"@, url) == Some(code),
{
    let markers = seq!["status"@, "statuses"@];
    lemma_platforms_differ();
    lemma_codes(code);
    reveal_strlit("status");
    reveal_strlit("statuses");
    lemma_lower_is_self("status"@);
    lemma_lower_is_self("statuses"@);
    lemma_behind_the_marker(path, markers, k, code);
}

/// The id of a TikTok post stands behind `/video/` or `/photo/`; a short link is its only part.
pub proof fn law_tiktok_posts_have_ids(url: UrlView, path: Seq<Seq<char>>, k: int, code: Seq<char>)
    requires
        url.segments == Some(path),
        is_code(code),
        leads_to(path, seq!["video"@, "photo"@], k, code) || path == seq![code],
    ensures
        weburl::post_id("tiktok"@, url) == Some(code),
{
    let markers = seq!["video"@, "photo"@];
    lemma_platforms_differ();
    lemma_codes(code);
    reveal_strlit("video");
    reveal_strlit("photo");
    lemma_lower_is_self("video"@);
    lemma_lower_is_self("photo"@);
    if leads_to(path, markers, k, code) {
        lemma_behind_the_marker(path, markers, k, code);
    } else {
        lemma_kept_prefix(path, weburl::filled(), 1);
        rows::lemma_kept(path, weburl::filled());
        rows::lemma_position(
            rows::kept(path, weburl::filled()),
            weburl::is_marker(markers),
        );
    }
}

/// The id of a YouTube video is the first part of a `youtu.be` link; elsewhere it is the first `v`
/// of the query, and without one it stands behind `/shorts/`, `/live/` or `/embed/`.
pub proof fn law_youtube_videos_have_ids(
    url: UrlView,
    host: Seq<char>,
    path: Seq<Seq<char>>,
    k: int,
    code: Seq<char>,
)
    requires
        url.host == Some(host),
        is_code(code),
        if text::holds_text(text::lower(host), "youtu.be"@) {
            url.segments == Some(path) && path.len() > 0 && path[0] == code
        } else {
            ||| {
                &&& 0 <= k < url.query.len()
                &&& url.query[k] == ("v"@, code)
                &&& forall|j: int| 0 <= j < k ==> (#[trigger] url.query[j]).0 != "v"@
            }
            ||| {
                &&& forall|j: int| 0 <= j < url.query.len() ==> (#[trigger] url.query[j]).0 != "v"@
                &&& url.segments == Some(path)
                &&& leads_to(path, seq!["shorts"@, "live"@, "embed"@], k, code)
            }
        },
    ensures
        weburl::post_id("youtube"@, url) == Some(code),
{
    let markers = seq!["shorts"@, "live"@, "embed"@];
    lemma_codes(code);
    reveal_strlit("shorts");
    reveal_strlit("live");
    reveal_strlit("embed");
    lemma_lower_is_self("shorts"@);
    lemma_lower_is_self("live"@);
    lemma_lower_is_self("embed"@);
    rows::lemma_position(url.query, weburl::is_v());
    if text::holds_text(text::lower(host), "youtu.be"@) {
        lemma_kept_prefix(path, weburl::filled(), 1);
    } else if 0 <= k < url.query.len() && url.query[k] == ("v"@, code) && forall|j: int|
        0 <= j < k ==> (#[trigger] url.query[j]).0 != "v"@ {
        assert(rows::first_at(url.query, weburl::is_v(), k));
    } else {
        lemma_behind_the_marker(path, markers, k, code);
    }
}

proof fn lemma_last_piece(before: Seq<char>, code: Seq<char>, sep: char)
    requires
        forall|i: int| 0 <= i < code.len() ==> #[trigger] code[i] != sep,
    ensures
        text::pieces(before.push(sep) + code, sep).len() > 0,
        text::pieces(before.push(sep) + code, sep).last() == code,
        text::pieces(code, sep) == seq![code],
    decreases code.len(),
{
    let all = before.push(sep) + code;
    if code.len() == 0 {
        assert(all =~= before.push(sep));
        assert(text::pieces(all, sep).last() =~= code);
        assert(code =~= Seq::empty());
    } else {
        let init = code.drop_last();
        lemma_last_piece(before, init, sep);
        assert(all.drop_last() =~= before.push(sep) + init);
        assert(init.push(code.last()) =~= code);
        assert(code.last() != sep);
    }
}

/// The id of a LinkedIn post stands behind `/posts/`, `/update/` or `/activity/`; of a part that
/// holds colons, such as a URN, it is what follows the last one.
pub proof fn law_linkedin_posts_have_ids(
    url: UrlView,
    path: Seq<Seq<char>>,
    k: int,
    part: Seq<char>,
    before: Seq<char>,
    code: Seq<char>,
)
    requires
        url.segments == Some(path),
        leads_to(path, seq!["posts"@, "update"@, "activity"@], k, part),
        part == code || part == before + seq![':'] + code,
        is_code(code),
    ensures
        weburl::post_id("linkedin"@, url) == Some(code),
{
    let markers = seq!["posts"@, "update"@, "activity"@];
    lemma_platforms_differ();
    lemma_codes(code);
    reveal_strlit("posts");
    reveal_strlit("update");
    reveal_strlit("activity");
    lemma_lower_is_self("posts"@);
    lemma_lower_is_self("update"@);
    lemma_lower_is_self("activity"@);
    lemma_behind_the_marker(path, markers, k, part);
    assert(before.push(':') + code =~= before + seq![':'] + code);
    lemma_last_piece(before, code, ':');
}

/// A link that holds no marker of its platform is no post, and neither is any link on a platform
/// without documented shapes.
pub proof fn law_other_links_have_no_ids(platform: Seq<char>, url: UrlView, path: Seq<Seq<char>>)
    requires
        url.segments == Some(path),
    ensures
        leads_nowhere(path, seq!["p"@, "reel"@, "reels"@, "tv"@]) ==> weburl::post_id(
            "instagram"@,
            url,
        ) is None,
        leads_nowhere(path, seq!["status"@, "statuses"@]) ==> weburl::post_id("x"@, url) is None,
        leads_nowhere(path, seq!["posts"@, "update"@, "activity"@]) ==> weburl::post_id(
            "linkedin"@,
            url,
        ) is None,
        platform != "youtube"@ && platform != "tiktok"@ && platform != "instagram"@ && platform
            != "x"@ && platform != "linkedin"@ ==> weburl::post_id(platform, url) is None,
{
    lemma_platforms_differ();
    reveal_strlit("p");
    reveal_strlit("reel");
    reveal_strlit("reels");
    reveal_strlit("tv");
    reveal_strlit("status");
    reveal_strlit("statuses");
    reveal_strlit("posts");
    reveal_strlit("update");
    reveal_strlit("activity");
    lemma_lower_is_self("p"@);
    lemma_lower_is_self("reel"@);
    lemma_lower_is_self("reels"@);
    lemma_lower_is_self("tv"@);
    lemma_lower_is_self("status"@);
    lemma_lower_is_self("statuses"@);
    lemma_lower_is_self("posts"@);
    lemma_lower_is_self("update"@);
    lemma_lower_is_self("activity"@);
    if leads_nowhere(path, seq!["p"@, "reel"@, "reels"@, "tv"@]) {
        lemma_no_marker(path, seq!["p"@, "reel"@, "reels"@, "tv"@]);
    }
    if leads_nowhere(path, seq!["status"@, "statuses"@]) {
        lemma_no_marker(path, seq!["status"@, "statuses"@]);
    }
    if leads_nowhere(path, seq!["posts"@, "update"@, "activity"@]) {
        lemma_no_marker(path, seq!["posts"@, "update"@, "activity"@]);
    }
}

proof fn lemma_marker_words()
    ensures
        text::lower("p"@) == "p"@ && text::lower("reel"@) == "reel"@ && text::lower("reels"@)
            == "reels"@ && text::lower("tv"@) == "tv"@,
        text::lower("status"@) == "status"@ && text::lower("statuses"@) == "statuses"@,
        text::lower("video"@) == "video"@ && text::lower("photo"@) == "photo"@,
        text::lower("shorts"@) == "shorts"@ && text::lower("live"@) == "live"@ && text::lower(
            "embed"@,
        ) == "embed"@,
        text::lower("posts"@) == "posts"@ && text::lower("update"@) == "update"@ && text::lower(
            "activity"@,
        ) == "activity"@,
        "p"@.len() > 0 && "reel"@.len() > 0 && "reels"@.len() > 0 && "tv"@.len() > 0,
        "status"@.len() > 0 && "statuses"@.len() > 0 && "video"@.len() > 0 && "photo"@.len() > 0,
        "shorts"@.len() > 0 && "live"@.len() > 0 && "embed"@.len() > 0,
        "posts"@.len() > 0 && "update"@.len() > 0 && "activity"@.len() > 0,
{
    reveal_strlit("p");
    reveal_strlit("reel");
    reveal_strlit("reels");
    reveal_strlit("tv");
    reveal_strlit("status");
    reveal_strlit("statuses");
    reveal_strlit("video");
    reveal_strlit("photo");
    reveal_strlit("shorts");
    reveal_strlit("live");
    reveal_strlit("embed");
    reveal_strlit("posts");
    reveal_strlit("update");
    reveal_strlit("activity");
    lemma_lower_is_self("p"@);
    lemma_lower_is_self("reel"@);
    lemma_lower_is_self("reels"@);
    lemma_lower_is_self("tv"@);
    lemma_lower_is_self("status"@);
    lemma_lower_is_self("statuses"@);
    lemma_lower_is_self("video"@);
    lemma_lower_is_self("photo"@);
    lemma_lower_is_self("shorts"@);
    lemma_lower_is_self("live"@);
    lemma_lower_is_self("embed"@);
    lemma_lower_is_self("posts"@);
    lemma_lower_is_self("update"@);
    lemma_lower_is_self("activity"@);
}

/// The path ends in a marker, the first one in it.
pub open spec fn ends_in(path: Seq<Seq<char>>, markers: Seq<Seq<char>>) -> bool {
    &&& path.len() > 0
    &&& markers.contains(text::lower(path.last()))
    &&& forall|j: int|
        0 <= j < path.len() - 1 ==> !markers.contains(text::lower(#[trigger] path[j]))
}

proof fn lemma_nothing_behind(path: Seq<Seq<char>>, markers: Seq<Seq<char>>)
    requires
        ends_in(path, markers) || leads_nowhere(path, markers),
        forall|i: int| 0 <= i < path.len() ==> (#[trigger] path[i]).len() > 0,
        forall|i: int| 0 <= i < markers.len() ==> text::lower(#[trigger] markers[i]) == markers[i],
    ensures
        rows::kept(path, weburl::filled()) == path,
        weburl::after_first_marker(path, markers) is None,
{
    let kept = rows::kept(path, weburl::filled());
    lemma_kept_prefix(path, weburl::filled(), path.len() as int);
    rows::lemma_kept(path, weburl::filled());
    assert(kept =~= path);
    let mark = weburl::is_marker(markers);
    rows::lemma_position(path, mark);
    assert forall|j: int| 0 <= j < path.len() implies mark(#[trigger] path[j]) == markers.contains(
        text::lower(path[j]),
    ) by {
        lemma_marked(markers, path[j]);
    }
}

/// A path in which nothing stands behind a marker leads to no post: one without a marker, and one
/// that ends in its first. A TikTok link of one part and a `youtu.be` link need no marker; the
/// first needs to be of one part, the second of at least one.
pub proof fn law_a_post_needs_a_code_behind_its_marker(
    url: UrlView,
    host: Seq<char>,
    path: Seq<Seq<char>>,
)
    requires
        url.host == Some(host),
        url.segments == Some(path),
        forall|i: int| 0 <= i < path.len() ==> (#[trigger] path[i]).len() > 0,
    ensures
        ({
            let m = seq!["p"@, "reel"@, "reels"@, "tv"@];
            ends_in(path, m) || leads_nowhere(path, m) ==> weburl::post_id("instagram"@, url)
                is None
        }),
        ({
            let m = seq!["status"@, "statuses"@];
            ends_in(path, m) || leads_nowhere(path, m) ==> weburl::post_id("x"@, url) is None
        }),
        ({
            let m = seq!["posts"@, "update"@, "activity"@];
            ends_in(path, m) || leads_nowhere(path, m) ==> weburl::post_id("linkedin"@, url)
                is None
        }),
        ({
            let m = seq!["video"@, "photo"@];
            path.len() != 1 && (ends_in(path, m) || leads_nowhere(path, m)) ==> weburl::post_id(
                "tiktok"@,
                url,
            ) is None
        }),
        ({
            let m = seq!["shorts"@, "live"@, "embed"@];
            let short = text::holds_text(text::lower(host), "youtu.be"@);
            let unnamed = forall|j: int|
                0 <= j < url.query.len() ==> (#[trigger] url.query[j]).0 != "v"@;
            &&& short && path.len() == 0 ==> weburl::post_id("youtube"@, url) is None
            &&& !short && unnamed && (ends_in(path, m) || leads_nowhere(path, m))
                ==> weburl::post_id("youtube"@, url) is None
        }),
{
    lemma_platforms_differ();
    lemma_marker_words();
    rows::lemma_kept(path, weburl::filled());
    rows::lemma_position(url.query, weburl::is_v());
    let a = seq!["p"@, "reel"@, "reels"@, "tv"@];
    if ends_in(path, a) || leads_nowhere(path, a) {
        lemma_nothing_behind(path, a);
    }
    let b = seq!["status"@, "statuses"@];
    if ends_in(path, b) || leads_nowhere(path, b) {
        lemma_nothing_behind(path, b);
    }
    let c = seq!["posts"@, "update"@, "activity"@];
    if ends_in(path, c) || leads_nowhere(path, c) {
        lemma_nothing_behind(path, c);
    }
    let d = seq!["video"@, "photo"@];
    if ends_in(path, d) || leads_nowhere(path, d) {
        lemma_nothing_behind(path, d);
    }
    let f = seq!["shorts"@, "live"@, "embed"@];
    if ends_in(path, f) || leads_nowhere(path, f) {
        lemma_nothing_behind(path, f);
    }
}

/// What stands behind a marker is a post id only where it is a code, without the white space round
/// it; nothing else in the link is tried in its place.
pub proof fn law_what_is_no_code_is_no_id(
    url: UrlView,
    host: Seq<char>,
    path: Seq<Seq<char>>,
    k: int,
    part: Seq<char>,
)
    requires
        url.host == Some(host),
        url.segments == Some(path),
        part.len() > 0,
    ensures
        ({
            let id = if is_code(text::trimmed(part)) {
                Some(text::trimmed(part))
            } else {
                None
            };
            let short = text::holds_text(text::lower(host), "youtu.be"@);
            &&& leads_to(path, seq!["p"@, "reel"@, "reels"@, "tv"@], k, part) ==> weburl::post_id(
                "instagram"@,
                url,
            ) == id
            &&& leads_to(path, seq!["status"@, "statuses"@], k, part) ==> weburl::post_id(
                "x"@,
                url,
            ) == id
            &&& leads_to(path, seq!["video"@, "photo"@], k, part) ==> weburl::post_id(
                "tiktok"@,
                url,
            ) == id
            &&& leads_to(path, seq!["posts"@, "update"@, "activity"@], k, part) && !part.contains(
                ':',
            ) ==> weburl::post_id("linkedin"@, url) == id
            &&& !short && 0 <= k < url.query.len() && url.query[k] == ("v"@, part) && (forall|
                j: int,
            |
                0 <= j < k ==> (#[trigger] url.query[j]).0 != "v"@) ==> weburl::post_id(
                "youtube"@,
                url,
            ) == id
            &&& short && path.len() > 0 && path[0] == part ==> weburl::post_id("youtube"@, url)
                == id
        }),
{
    lemma_platforms_differ();
    lemma_marker_words();
    lemma_codes(text::trimmed(part));
    let a = seq!["p"@, "reel"@, "reels"@, "tv"@];
    if leads_to(path, a, k, part) {
        lemma_behind_the_marker(path, a, k, part);
    }
    let b = seq!["status"@, "statuses"@];
    if leads_to(path, b, k, part) {
        lemma_behind_the_marker(path, b, k, part);
    }
    let c = seq!["video"@, "photo"@];
    if leads_to(path, c, k, part) {
        lemma_behind_the_marker(path, c, k, part);
    }
    let d = seq!["posts"@, "update"@, "activity"@];
    if leads_to(path, d, k, part) && !part.contains(':') {
        lemma_behind_the_marker(path, d, k, part);
        assert forall|i: int| 0 <= i < part.len() implies #[trigger] part[i] != ':' by {}
        lemma_last_piece(Seq::empty(), part, ':');
    }
    rows::lemma_position(url.query, weburl::is_v());
    if 0 <= k < url.query.len() && url.query[k] == ("v"@, part) && forall|j: int|
        0 <= j < k ==> (#[trigger] url.query[j]).0 != "v"@ {
        assert(rows::first_at(url.query, weburl::is_v(), k));
    }
    if path.len() > 0 && path[0] == part {
        lemma_kept_prefix(path, weburl::filled(), 1);
    }
}

proof fn lemma_kept_again<T>(s: Seq<T>, p: spec_fn(T) -> bool, q: spec_fn(T) -> bool)
    requires
        forall|t: T| #[trigger] p(t) == q(t),
    ensures
        rows::kept(s, p) == s.filter(q),
        rows::kept(s.filter(q), p) == s.filter(q),
    decreases s.len(),
{
    reveal(Seq::filter);
    if s.len() > 0 {
        let init = s.drop_last();
        lemma_kept_again(init, p, q);
        if p(s.last()) {
            assert(s.filter(q) == init.filter(q).push(s.last()));
            assert(s.filter(q).drop_last() =~= init.filter(q));
        } else {
            assert(s.filter(q) == init.filter(q));
        }
    } else {
        assert(rows::kept(s, p) =~= s.filter(q));
        assert(s.filter(q).len() == 0);
    }
}

/// Empty parts of the path, as slashes in a row leave them, do not count.
pub proof fn law_empty_parts_do_not_count(platform: Seq<char>, url: UrlView, path: Seq<Seq<char>>)
    requires
        url.segments == Some(path),
    ensures
        weburl::post_id(platform, url) == weburl::post_id(
            platform,
            UrlView { segments: Some(path.filter(|s: Seq<char>| s.len() > 0)), ..url },
        ),
{
    lemma_kept_again(path, weburl::filled(), |s: Seq<char>| s.len() > 0);
}

// ---- which URLs are let in -------------------------------------------------------------------

/// The addresses that are refused, range by range; every other IPv4 address is let in.
pub proof fn law_private_ipv4_is_refused(o: [u8; 4])
    ensures
        weburl::blocked(IpLiteral::V4(o)) <==> {
            ||| o@[0] == 0
            ||| o@[0] == 10
            ||| o@[0] == 127
            ||| o@[0] == 169 && o@[1] == 254
            ||| o@[0] == 172 && 16 <= o@[1] && o@[1] < 32
            ||| o@[0] == 192 && o@[1] == 168
            ||| o@[0] == 100 && 64 <= o@[1] && o@[1] < 128
            ||| o@[0] == 255 && o@[1] == 255 && o@[2] == 255 && o@[3] == 255
        },
{
}

/// Of the IPv6 addresses `::`, `::1`, `fc00::/7` and `fe80::/10` are refused, and an IPv4-mapped
/// one is as the address it stands for; every other is let in.
pub proof fn law_private_ipv6_is_refused(g: [u16; 8], o: [u8; 4])
    ensures
        ({
            let zeros = g@[0] == 0 && g@[1] == 0 && g@[2] == 0 && g@[3] == 0 && g@[4] == 0;
            let mapped = zeros && g@[5] == 0xffff;
            &&& zeros && g@[5] == 0 && g@[6] == 0 && g@[7] <= 1 ==> weburl::blocked(
                IpLiteral::V6(g),
            )
            &&& mapped && g@[6] == o@[0] * 256 + o@[1] && g@[7] == o@[2] * 256 + o@[3]
                ==> weburl::blocked(IpLiteral::V6(g)) == weburl::blocked(IpLiteral::V4(o))
            &&& !mapped && !(zeros && g@[5] == 0 && g@[6] == 0 && g@[7] <= 1) ==> (weburl::blocked(
                IpLiteral::V6(g),
            ) <==> 0xfc00 <= g@[0] && g@[0] < 0xfe00 || 0xfe80 <= g@[0] && g@[0] < 0xfec0)
        }),
{
    assert(g@.len() == 8 && o@.len() == 4);
}

/// The names that are refused: the cloud metadata hosts, `localhost`, and every name under one of
/// them or under a private suffix; every other name is let in.
pub proof fn law_internal_names_are_refused(name: Seq<char>)
    ensures
        weburl::denied(name) <==> {
            ||| name == "metadata.google.internal"@
            ||| name == "metadata.goog"@
            ||| name == "metadata"@
            ||| name == "localhost"@
            ||| text::finishes_with(name, seq!['.'] + "metadata.google.internal"@)
            ||| text::finishes_with(name, seq!['.'] + "metadata.goog"@)
            ||| text::finishes_with(name, seq!['.'] + "metadata"@)
            ||| text::finishes_with(name, seq!['.'] + "localhost"@)
            ||| text::finishes_with(name, ".internal"@)
            ||| text::finishes_with(name, ".local"@)
            ||| text::finishes_with(name, ".localdomain"@)
            ||| text::finishes_with(name, ".localhost"@)
        },
{
    let hosts = weburl::denied_hosts();
    let suffixes = weburl::denied_suffixes();
    assert(hosts[0] == "metadata.google.internal"@ && hosts[1] == "metadata.goog"@ && hosts[2]
        == "metadata"@ && hosts[3] == "localhost"@);
    assert(suffixes[0] == ".internal"@ && suffixes[1] == ".local"@ && suffixes[2]
        == ".localdomain"@ && suffixes[3] == ".localhost"@);
}

/// A host of visible ASCII characters.
pub open spec fn is_plain_host(host: Seq<char>) -> bool {
    forall|i: int| 0 <= i < host.len() ==> 0x21 <= #[trigger] host[i] as int && host[i] as int <= 0x7e
}

/// The host without the dot that may end it.
pub open spec fn without_dot(host: Seq<char>, bare: Seq<char>) -> bool {
    host == bare.push('.') || (host == bare && (bare.len() == 0 || bare.last() != '.'))
}

/// A public https URL is let in as it is: one at a public address, or one whose name is not
/// internal and reads the same when it is parsed again.
pub proof fn law_public_urls_are_let_in(
    url: UrlView,
    host: Seq<char>,
    bare: Seq<char>,
    again: Seq<char>,
    reparsed: Result<Seq<char>, Seq<char>>,
)
    requires
        url.scheme == "https"@,
        url.host == Some(host),
        is_plain_host(host),
        without_dot(host, bare),
        url.ip is Some ==> !weburl::blocked(url.ip->0),
        url.ip is None ==> !weburl::denied(text::lower(bare)) && reparsed == Ok::<
            _,
            Seq<char>,
        >(again) && text::lower(again) == text::lower(bare),
    ensures
        weburl::screened(url, reparsed) == Ok::<_, Seq<char>>(url),
{
    lemma_plain_host(host);
    lemma_bare(host, bare);
}

/// Every refusal has its cause, and says which: the scheme, no host, an odd or a non-ASCII
/// character, a private address, an internal name, or a name that does not read the same again.
pub proof fn law_refused_urls_have_a_cause(
    url: UrlView,
    reparsed: Result<Seq<char>, Seq<char>>,
    bare: Seq<char>,
)
    ensures
        url.scheme != "https"@ ==> weburl::screened(url, reparsed) == Err::<UrlView, _>(
            "post url must be https"@,
        ),
        url.scheme == "https"@ && url.host is None ==> weburl::screened(url, reparsed) == Err::<
            UrlView,
            _,
        >("post url has no host"@),
        url.scheme == "https"@ && url.host is Some && is_plain_host(url.host->0) && url.ip is Some
            && weburl::blocked(url.ip->0) ==> weburl::screened(url, reparsed) == Err::<UrlView, _>(
            "post url points at a private or loopback address"@,
        ),
        url.scheme == "https"@ && url.host is Some && is_plain_host(url.host->0) && url.ip is None
            && without_dot(url.host->0, bare) && weburl::denied(text::lower(bare))
            ==> weburl::screened(url, reparsed) == Err::<UrlView, _>(
            "post url points at an internal host"@,
        ),
        url.host is Some && url.ip is None && without_dot(url.host->0, bare) && (reparsed is Err
            || text::lower(reparsed->Ok_0) != text::lower(bare)) ==> weburl::screened(url, reparsed)
            is Err,
        url.host is Some && !is_plain_host(url.host->0) ==> weburl::screened(url, reparsed) is Err,
        url.scheme == "https"@ && url.host is Some && (exists|i: int|
            0 <= i < url.host->0.len() && (#[trigger] (url.host->0)[i] as int <= 0x20 || (
            url.host->0)[i] as int == 0x7f)) ==> weburl::screened(url, reparsed) == Err::<
            UrlView,
            _,
        >("post url host contains control or whitespace characters"@),
{
    let host = url.host->0;
    if exists|i: int|
        0 <= i < host.len() && (#[trigger] host[i] as int <= 0x20 || host[i] as int == 0x7f) {
        let i = choose|i: int|
            0 <= i < host.len() && (#[trigger] host[i] as int <= 0x20 || host[i] as int == 0x7f);
        assert(text::is_control_char(host[i]) || text::is_white(host[i]));
    }
    if is_plain_host(host) {
        lemma_plain_host(host);
    }
    if without_dot(host, bare) {
        lemma_bare(host, bare);
    }
    if vstd::utf8::is_ascii_chars(host) && !weburl::has_odd_char(host) {
        assert forall|i: int| 0 <= i < host.len() implies 0x21 <= #[trigger] host[i] as int
            && host[i] as int <= 0x7e by {
            assert(!text::is_control_char(host[i]) && !text::is_white(host[i]));
        }
    }
}

proof fn lemma_plain_host(host: Seq<char>)
    requires
        is_plain_host(host),
    ensures
        !weburl::has_odd_char(host),
        vstd::utf8::is_ascii_chars(host),
{
}

proof fn lemma_bare(host: Seq<char>, bare: Seq<char>)
    requires
        without_dot(host, bare),
    ensures
        weburl::bare_host(host) == bare,
{
    if host == bare.push('.') {
        assert(host.last() == '.');
        assert(host.drop_last() =~= bare);
    }
}

/// The text of a post URL is trimmed, and then parsed and screened; blank text is no URL.
pub proof fn law_the_text_of_a_url_is_trimmed(raw: Seq<char>, url: UrlView, host: Seq<char>)
    ensures
        text::trimmed(raw).len() == 0 ==> weburl::screened_text(raw) == Err::<UrlView, _>(
            "post_url is required"@,
        ),
        text::trimmed(raw).len() > 0 && weburl::parsed_url(text::trimmed(raw)) is Err
            ==> weburl::screened_text(raw) is Err,
        text::trimmed(raw).len() > 0 && weburl::parsed_url(text::trimmed(raw)) == Ok::<
            _,
            Seq<char>,
        >(url) && url.host == Some(host.push('.')) ==> weburl::screened_text(raw)
            == weburl::screened(url, weburl::parsed_host(host)),
        text::trimmed(raw).len() > 0 && weburl::parsed_url(text::trimmed(raw)) == Ok::<
            _,
            Seq<char>,
        >(url) && url.host == Some(host) && (host.len() == 0 || host.last() != '.')
            ==> weburl::screened_text(raw) == weburl::screened(url, weburl::parsed_host(host)),
{
    assert(host.push('.').drop_last() =~= host);
}

// ---- what is recorded ------------------------------------------------------------------------

/// A creator that stands on the roster is read as they stand there.
pub proof fn lemma_a_readable_creator(s: StoreView, k: int)
    requires
        s.wf(),
        0 <= k < s.creators.len(),
    ensures
        s.read_creator(s.creators[k].id) == Ok::<_, StoreError>(Some(s.creators[k])),
        s.creator(s.creators[k].id) == Some(s.creators[k]),
{
    let id = s.creators[k].id;
    rows::lemma_only(s.creators, store::creator_key(), store::creator_is(id), id, k);
    if s.creator_unread(id) {
        let j = choose|j: int|
            0 <= j < s.unread_creators.len() && store::unread_creator_is(id)(
                #[trigger] s.unread_creators[j],
            );
        assert(store::no_creator(s.creators)(s.unread_creators[j]));
        assert(store::creator_is(id)(s.creators[k]));
    }
}

/// A post that is let in, for a campaign and a creator that exist, and that does not stand in the
/// campaign yet is recorded: a pending submission of exactly what was sent, with the post id of its
/// URL, is added behind the others, its arrival is reported, and the answer is a success.
pub proof fn law_a_new_post_is_recorded(
    e: EngineView,
    body: SubmissionBodyView,
    url: UrlView,
    id: Seq<char>,
    now: Seq<char>,
    c: int,
    k: int,
)
    requires
        e.store.wf(),
        text::trimmed(body.platform).len() > 0,
        0 <= c < e.store.campaigns.len() && e.store.campaigns[c].id == body.campaign_id,
        0 <= k < e.store.creators.len() && e.store.creators[k].id == body.creator_id,
        forall|i: int|
            0 <= i < e.store.submissions.len() ==> (#[trigger] e.store.submissions[i]).record.id
                != id && !(e.store.submissions[i].record.campaign_id == body.campaign_id
                && e.store.submissions[i].record.platform == text::lower(
                text::trimmed(body.platform),
            ) && weburl::post_id(text::lower(text::trimmed(body.platform)), url) == Some(
                e.store.submissions[i].record.external_post_id,
            )),
    ensures
        ({
            let platform = text::lower(text::trimmed(body.platform));
            let (after, reply) = e.recorded_submission(
                body,
                Ok::<_, Seq<char>>(url),
                id,
                now,
            );
            let row = after.store.submissions.last();
            &&& reply.status == 200
            &&& after.store.submissions.len() == e.store.submissions.len() + 1
            &&& after.store.submissions.drop_last() =~= e.store.submissions
            &&& row.status_text == "pending"@
            &&& row.record == (SubmissionView {
                id,
                campaign_id: body.campaign_id,
                creator_id: body.creator_id,
                platform,
                post_url: url.href,
                external_post_id: match weburl::post_id(platform, url) {
                    Some(code) => code,
                    None => Seq::empty(),
                },
                status: SubmissionStatus::Pending,
                submitted_at: now,
                reviewed_at: None,
                rejection_reason: None,
                created_at: now,
                updated_at: now,
            })
            &&& after.outbox == e.outbox.push(
                HookEventView::SubmissionReceived { submission: row.record },
            )
            &&& after.store.payouts == e.store.payouts && after.store.snapshots
                == e.store.snapshots && after.store.campaigns == e.store.campaigns
                && after.store.creators == e.store.creators
        }),
{
    price_laws::lemma_a_readable_campaign(e.store, c);
    lemma_a_readable_creator(e.store, k);
    let s = submission_api::recorded(body, url, id, now);
    let post = store::post_is(s.campaign_id, s.platform, s.external_post_id);
    assert(!rows::any(e.store.submissions, post)) by {
        if rows::any(e.store.submissions, post) {
            let i = choose|i: int|
                0 <= i < e.store.submissions.len() && post(#[trigger] e.store.submissions[i]);
            assert(e.store.submissions[i].record.external_post_id.len() > 0);
        }
    }
    assert(!rows::any(e.store.submissions, store::submission_is(id))) by {
        if rows::any(e.store.submissions, store::submission_is(id)) {
            let i = choose|i: int|
                0 <= i < e.store.submissions.len() && store::submission_is(id)(
                    #[trigger] e.store.submissions[i],
                );
            assert(e.store.submissions[i].record.id == id);
        }
    }
    let row = store::submission_row(s);
    assert(e.store.submissions.push(row).drop_last() =~= e.store.submissions);
}

/// The same post again, for the same campaign, is answered 409 and changes nothing.
pub proof fn law_a_duplicate_post_is_refused(
    e: EngineView,
    body: SubmissionBodyView,
    url: UrlView,
    id: Seq<char>,
    now: Seq<char>,
    c: int,
    k: int,
    i: int,
    code: Seq<char>,
)
    requires
        e.store.wf(),
        text::trimmed(body.platform).len() > 0,
        0 <= c < e.store.campaigns.len() && e.store.campaigns[c].id == body.campaign_id,
        0 <= k < e.store.creators.len() && e.store.creators[k].id == body.creator_id,
        weburl::post_id(text::lower(text::trimmed(body.platform)), url) == Some(code),
        0 <= i < e.store.submissions.len(),
        e.store.submissions[i].record.campaign_id == body.campaign_id,
        e.store.submissions[i].record.platform == text::lower(text::trimmed(body.platform)),
        e.store.submissions[i].record.external_post_id == code,
    ensures
        e.recorded_submission(body, Ok::<_, Seq<char>>(url), id, now).0 == e,
        e.recorded_submission(body, Ok::<_, Seq<char>>(url), id, now).1.status == 409,
{
    price_laws::lemma_a_readable_campaign(e.store, c);
    lemma_a_readable_creator(e.store, k);
    law_every_post_id_is_a_code(text::lower(text::trimmed(body.platform)), url);
    let s = submission_api::recorded(body, url, id, now);
    assert(store::post_is(s.campaign_id, s.platform, s.external_post_id)(e.store.submissions[i]));
}

/// A body that cannot be recorded is answered 400, with the cause, and changes nothing: no
/// platform, a URL that is not let in, no such campaign, or no such creator.
pub proof fn law_a_faulty_post_is_refused(
    e: EngineView,
    body: SubmissionBodyView,
    screened: Result<UrlView, Seq<char>>,
    id: Seq<char>,
    now: Seq<char>,
)
    requires
        text::trimmed(body.platform).len() == 0 || screened is Err || (!e.store.has_campaign(
            body.campaign_id,
        )) || (e.store.read_campaign(body.campaign_id) is Ok && !e.store.has_creator(
            body.creator_id,
        )),
    ensures
        ({
            let (after, reply) = e.recorded_submission(body, screened, id, now);
            &&& after == e
            &&& reply.status == 400
            &&& text::trimmed(body.platform).len() > 0 ==> (screened matches Err(why) ==> reply
                == replies::failed(400, why))
        }),
{
    rows::lemma_position(e.store.unread_campaigns, store::id_is(body.campaign_id));
}

/// A post for a campaign or a creator whose record cannot be read is answered 500, and changes
/// nothing.
pub proof fn law_a_post_for_what_cannot_be_read(
    e: EngineView,
    body: SubmissionBodyView,
    url: UrlView,
    i: int,
    c: int,
    id: Seq<char>,
    now: Seq<char>,
)
    requires
        e.store.wf(),
        text::trimmed(body.platform).len() > 0,
        ({
            ||| 0 <= i < e.store.unread_campaigns.len() && e.store.unread_campaigns[i]
                == body.campaign_id
            ||| 0 <= c < e.store.campaigns.len() && e.store.campaigns[c].id == body.campaign_id && 0
                <= i < e.store.unread_creators.len() && e.store.unread_creators[i].id
                == body.creator_id
        }),
    ensures
        ({
            let (after, reply) = e.recorded_submission(body, Ok(url), id, now);
            after == e && reply.status == 500
        }),
{
    if 0 <= i < e.store.unread_campaigns.len() && e.store.unread_campaigns[i] == body.campaign_id {
        assert(store::id_is(body.campaign_id)(e.store.unread_campaigns[i]));
    } else {
        price_laws::lemma_a_readable_campaign(e.store, c);
        assert(store::unread_creator_is(body.creator_id)(e.store.unread_creators[i]));
    }
}

} // verus!
