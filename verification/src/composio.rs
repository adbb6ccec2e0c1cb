//! The curated platform -> Composio action map: which action reads a post's counters, how the
//! post id is passed, and where each counter lives in the response.
use crate::json;
use crate::json::{object, set_member, Json, JsonView};
use crate::rows;
use crate::text;
use crate::text::{
    chars_of, contains_str, eq_ignore_case, parse_i64, parse_unsigned, split_on, trim,
};
use vstd::prelude::*;

verus! {

/// One platform's metric source.
#[derive(Debug)]
pub struct PlatformMetricSource {
    /// The lower-case platform key stored on a submission.
    pub platform: &'static str,
    /// Human label for the platform picker.
    pub label: &'static str,
    /// The bare Composio action slug.
    pub action: &'static str,
    /// The argument name that carries the post id, the only dynamic value that ever reaches
    /// Composio from this app.
    pub id_arg: &'static str,
    /// Constant arguments the action needs beyond the post id.
    pub extra_args: Vec<(&'static str, &'static str)>,
    /// Dotted selector for the view count in the response.
    pub views: &'static str,
    /// Dotted selector for the like count.
    pub likes: &'static str,
    /// Dotted selector for the comment count.
    pub comments: &'static str,
    /// Dotted selector for shares, or `None` when the platform reports none.
    pub shares: Option<&'static str>,
    /// Dotted selector for saves, or `None` when the platform reports none.
    pub saves: Option<&'static str>,
}

/// The view of a [`PlatformMetricSource`].
#[verifier::ext_equal]
pub struct SourceView {
    pub platform: Seq<char>,
    pub label: Seq<char>,
    pub action: Seq<char>,
    pub id_arg: Seq<char>,
    pub extra_args: Seq<(Seq<char>, Seq<char>)>,
    pub views: Seq<char>,
    pub likes: Seq<char>,
    pub comments: Seq<char>,
    pub shares: Option<Seq<char>>,
    pub saves: Option<Seq<char>>,
}

impl DeepView for PlatformMetricSource {
    type V = SourceView;

    open spec fn deep_view(&self) -> SourceView {
        SourceView {
            platform: self.platform@,
            label: self.label@,
            action: self.action@,
            id_arg: self.id_arg@,
            extra_args: self.extra_args.deep_view(),
            views: self.views@,
            likes: self.likes@,
            comments: self.comments@,
            shares: self.shares.deep_view(),
            saves: self.saves.deep_view(),
        }
    }
}

/// The five platforms a campaign targets, in picker order.
pub open spec fn curated() -> Seq<SourceView> {
    seq![
        SourceView {
            platform: "youtube"@,
            label: "YouTube"@,
            action: "YOUTUBE_VIDEOS_LIST"@,
            id_arg: "id"@,
            extra_args: seq![("part"@, "statistics"@)],
            views: "items.0.statistics.viewCount"@,
            likes: "items.0.statistics.likeCount"@,
            comments: "items.0.statistics.commentCount"@,
            shares: None,
            saves: None,
        },
        SourceView {
            platform: "tiktok"@,
            label: "TikTok"@,
            action: "TIKTOK_GET_VIDEO_DETAILS"@,
            id_arg: "video_id"@,
            extra_args: seq![],
            views: "data.videos.0.view_count"@,
            likes: "data.videos.0.like_count"@,
            comments: "data.videos.0.comment_count"@,
            shares: Some("data.videos.0.share_count"@),
            saves: Some("data.videos.0.favourites_count"@),
        },
        SourceView {
            platform: "instagram"@,
            label: "Instagram"@,
            action: "INSTAGRAM_GET_MEDIA_BY_ID"@,
            id_arg: "media_id"@,
            extra_args: seq![
                ("fields"@, "id,media_type,play_count,like_count,comments_count"@),
            ],
            views: "play_count"@,
            likes: "like_count"@,
            comments: "comments_count"@,
            shares: None,
            saves: None,
        },
        SourceView {
            platform: "x"@,
            label: "X (Twitter)"@,
            action: "TWITTER_POST_LOOKUP_BY_POST_ID"@,
            id_arg: "id"@,
            extra_args: seq![("tweet__fields"@, "public_metrics"@)],
            views: "data.public_metrics.impression_count"@,
            likes: "data.public_metrics.like_count"@,
            comments: "data.public_metrics.reply_count"@,
            shares: Some("data.public_metrics.retweet_count"@),
            saves: Some("data.public_metrics.bookmark_count"@),
        },
        SourceView {
            platform: "linkedin"@,
            label: "LinkedIn"@,
            action: "LINKEDIN_GET_POST_ANALYTICS"@,
            id_arg: "post_urn"@,
            extra_args: seq![],
            views: "elements.0.totalShareStatistics.impressionCount"@,
            likes: "elements.0.totalShareStatistics.likeCount"@,
            comments: "elements.0.totalShareStatistics.commentCount"@,
            shares: Some("elements.0.totalShareStatistics.shareCount"@),
            saves: None,
        },
    ]
}

/// The curated table.
pub fn platform_metric_sources() -> (out: Vec<PlatformMetricSource>)
    ensures
        out.deep_view() == curated(),
{
    let mut out: Vec<PlatformMetricSource> = Vec::new();
    let mut part: Vec<(&'static str, &'static str)> = Vec::new();
    part.push(("part", "statistics"));
    let mut fields: Vec<(&'static str, &'static str)> = Vec::new();
    fields.push(("fields", "id,media_type,play_count,like_count,comments_count"));
    let mut tweet: Vec<(&'static str, &'static str)> = Vec::new();
    tweet.push(("tweet__fields", "public_metrics"));
    let none_a: Vec<(&'static str, &'static str)> = Vec::new();
    let none_b: Vec<(&'static str, &'static str)> = Vec::new();
    assert(part.deep_view() =~= seq![("part"@, "statistics"@)]);
    assert(fields.deep_view() =~= seq![
        ("fields"@, "id,media_type,play_count,like_count,comments_count"@),
    ]);
    assert(tweet.deep_view() =~= seq![("tweet__fields"@, "public_metrics"@)]);
    assert(none_b.deep_view() =~= seq![]);
    out.push(
        PlatformMetricSource {
            platform: "youtube",
            label: "YouTube",
            action: "YOUTUBE_VIDEOS_LIST",
            id_arg: "id",
            extra_args: part,
            views: "items.0.statistics.viewCount",
            likes: "items.0.statistics.likeCount",
            comments: "items.0.statistics.commentCount",
            shares: None,
            saves: None,
        },
    );
    out.push(
        PlatformMetricSource {
            platform: "tiktok",
            label: "TikTok",
            action: "TIKTOK_GET_VIDEO_DETAILS",
            id_arg: "video_id",
            extra_args: none_a,
            views: "data.videos.0.view_count",
            likes: "data.videos.0.like_count",
            comments: "data.videos.0.comment_count",
            shares: Some("data.videos.0.share_count"),
            saves: Some("data.videos.0.favourites_count"),
        },
    );
    out.push(
        PlatformMetricSource {
            platform: "instagram",
            label: "Instagram",
            action: "INSTAGRAM_GET_MEDIA_BY_ID",
            id_arg: "media_id",
            extra_args: fields,
            views: "play_count",
            likes: "like_count",
            comments: "comments_count",
            shares: None,
            saves: None,
        },
    );
    out.push(
        PlatformMetricSource {
            platform: "x",
            label: "X (Twitter)",
            action: "TWITTER_POST_LOOKUP_BY_POST_ID",
            id_arg: "id",
            extra_args: tweet,
            views: "data.public_metrics.impression_count",
            likes: "data.public_metrics.like_count",
            comments: "data.public_metrics.reply_count",
            shares: Some("data.public_metrics.retweet_count"),
            saves: Some("data.public_metrics.bookmark_count"),
        },
    );
    out.push(
        PlatformMetricSource {
            platform: "linkedin",
            label: "LinkedIn",
            action: "LINKEDIN_GET_POST_ANALYTICS",
            id_arg: "post_urn",
            extra_args: none_b,
            views: "elements.0.totalShareStatistics.impressionCount",
            likes: "elements.0.totalShareStatistics.likeCount",
            comments: "elements.0.totalShareStatistics.commentCount",
            shares: Some("elements.0.totalShareStatistics.shareCount"),
            saves: None,
        },
    );
    out
}

/// One reading of a post's counters.
#[derive(Debug, Clone, Copy, PartialEq, Eq, Structural)]
pub struct MetricSample {
    pub views: i64,
    pub likes: i64,
    pub comments: i64,
    pub shares: i64,
    pub saves: i64,
}

impl Default for MetricSample {
    fn default() -> (r: Self)
        ensures
            r == (MetricSample { views: 0, likes: 0, comments: 0, shares: 0, saves: 0 }),
    {
        MetricSample { views: 0, likes: 0, comments: 0, shares: 0, saves: 0 }
    }
}

impl DeepView for MetricSample {
    type V = MetricSample;

    open spec fn deep_view(&self) -> MetricSample {
        *self
    }
}

/// What one curated fetch produced. Both outcomes are successes, and only the first carries a
/// reading.
#[derive(Debug, PartialEq, Eq)]
pub enum MetricOutcome {
    /// The counters this platform's row selected out of the action's response.
    Sample(MetricSample),
    /// The account behind this action is not connected. `connect_url` is the link that
    /// Composio offered, when it offered one.
    NeedsConnection { message: String, connect_url: Option<String> },
}

/// The view of a [`MetricOutcome`].
pub enum MetricOutcomeView {
    Sample(MetricSample),
    NeedsConnection { message: Seq<char>, connect_url: Option<Seq<char>> },
}

impl DeepView for MetricOutcome {
    type V = MetricOutcomeView;

    open spec fn deep_view(&self) -> MetricOutcomeView {
        match self {
            MetricOutcome::Sample(s) => MetricOutcomeView::Sample(*s),
            MetricOutcome::NeedsConnection { message, connect_url } =>
                MetricOutcomeView::NeedsConnection {
                message: message@,
                connect_url: connect_url.deep_view(),
            },
        }
    }
}

/// Why a curated fetch could not produce an outcome at all.
#[derive(Debug, PartialEq, Eq)]
pub enum MetricError {
    /// A precondition the operator fixes.
    Unsupported(String),
    /// The Composio call failed, or answered a shape the row does not describe.
    Upstream(String),
}

/// The view of a [`MetricError`].
pub enum MetricErrorView {
    Unsupported(Seq<char>),
    Upstream(Seq<char>),
}

impl DeepView for MetricError {
    type V = MetricErrorView;

    open spec fn deep_view(&self) -> MetricErrorView {
        match self {
            MetricError::Unsupported(m) => MetricErrorView::Unsupported(m@),
            MetricError::Upstream(m) => MetricErrorView::Upstream(m@),
        }
    }
}

impl MetricErrorView {
    /// The message of the error.
    pub open spec fn text(self) -> Seq<char> {
        match self {
            MetricErrorView::Unsupported(m) => m,
            MetricErrorView::Upstream(m) => m,
        }
    }
}

impl MetricError {
    /// The message of the error.
    pub fn message(&self) -> (r: String)
        ensures
            r@ == self.deep_view().text(),
    {
        match self {
            MetricError::Unsupported(m) => m.clone(),
            MetricError::Upstream(m) => m.clone(),
        }
    }
}

// ---- looking a row up -----------------------------------------------------------------------

/// The row is the platform's, without regard to ASCII case or white space around the key.
pub open spec fn platform_is(platform: Seq<char>) -> spec_fn(SourceView) -> bool {
    |s: SourceView| text::eq_nocase(s.platform, text::trimmed(platform))
}

/// The curated source for `platform`.
pub open spec fn source_of(platform: Seq<char>) -> Option<SourceView> {
    rows::found(curated(), platform_is(platform))
}

/// The curated source for `platform`, or `None` when the platform has none.
pub fn source_for(platform: &str) -> (r: Option<PlatformMetricSource>)
    ensures
        r.deep_view() == source_of(platform@),
{
    let mut sources = platform_metric_sources();
    let key = trim(platform);
    let same = |s: &PlatformMetricSource| -> (b: bool)
        ensures
            b == platform_is(platform@)(s.deep_view()),
        { eq_ignore_case(s.platform, key) };
    match rows::find_row(&sources, same, Ghost(platform_is(platform@))) {
        Some(i) => {
            Some(sources.swap_remove(i))
        },
        None => None,
    }
}

/// One of `[A-Za-z0-9_.-]`.
pub open spec fn is_segment_char(c: char) -> bool {
    ('a' <= c && c <= 'z') || ('A' <= c && c <= 'Z') || ('0' <= c && c <= '9') || c == '_' || c
        == '-' || c == '.'
}

/// A single opaque identifier: no separators and no dot segments.
pub open spec fn safe_segment(s: Seq<char>) -> bool {
    &&& s.len() > 0
    &&& !text::holds_text(s, ".."@)
    &&& forall|i: int| 0 <= i < s.len() ==> is_segment_char(#[trigger] s[i])
}

/// The first `n` characters are letters, digits or underscores.
spec fn plain(s: Seq<char>, n: nat) -> bool
    decreases n,
{
    n == 0 || (plain(s, (n - 1) as nat) && is_segment_char(s[n - 1]) && s[n - 1] != '.')
}

proof fn lemma_plain(s: Seq<char>, n: nat)
    requires
        n <= s.len(),
        plain(s, n),
    ensures
        forall|i: int| 0 <= i < n ==> is_segment_char(#[trigger] s[i]) && s[i] != '.',
    decreases n,
{
    if n > 0 {
        lemma_plain(s, (n - 1) as nat);
    }
}

proof fn lemma_plain_is_safe(s: Seq<char>)
    requires
        s.len() > 0,
        plain(s, s.len()),
    ensures
        safe_segment(s),
        !s.contains('.'),
{
    lemma_plain(s, s.len());
    reveal_strlit("..");
    assert forall|at: int| !text::stands_at(s, ".."@, at) by {
        if text::stands_at(s, ".."@, at) {
            assert(s.subrange(at, at + 2)[0] == '.');
        }
    }
}

/// Every curated action is a safe path segment and a bare slug, without a namespace in front.
pub proof fn law_curated_actions_are_safe_and_bare(i: int)
    requires
        0 <= i < curated().len(),
    ensures
        safe_segment(curated()[i].action),
        !curated()[i].action.contains('.'),
{
    reveal_with_fuel(plain, 31);
    reveal_strlit("YOUTUBE_VIDEOS_LIST");
    reveal_strlit("TIKTOK_GET_VIDEO_DETAILS");
    reveal_strlit("INSTAGRAM_GET_MEDIA_BY_ID");
    reveal_strlit("TWITTER_POST_LOOKUP_BY_POST_ID");
    reveal_strlit("LINKEDIN_GET_POST_ANALYTICS");
    lemma_plain_is_safe("YOUTUBE_VIDEOS_LIST"@);
    lemma_plain_is_safe("TIKTOK_GET_VIDEO_DETAILS"@);
    lemma_plain_is_safe("INSTAGRAM_GET_MEDIA_BY_ID"@);
    lemma_plain_is_safe("TWITTER_POST_LOOKUP_BY_POST_ID"@);
    lemma_plain_is_safe("LINKEDIN_GET_POST_ANALYTICS"@);
}

/// Whether `id` is a single opaque identifier, and therefore safe to embed somewhere its
/// shape would otherwise be load-bearing.
pub fn id_segment_is_safe(id: &str) -> (b: bool)
    ensures
        b == safe_segment(id@),
{
    if id.is_empty() || contains_str(id, "..") {
        return false;
    }
    let cs = chars_of(id);
    let mut i: usize = 0;
    while i < cs.len()
        invariant
            cs@ == id@,
            i <= cs.len(),
            forall|k: int| 0 <= k < i ==> is_segment_char(#[trigger] id@[k]),
        decreases cs.len() - i,
    {
        let c = cs[i];
        if !(('a' <= c && c <= 'z') || ('A' <= c && c <= 'Z') || ('0' <= c && c <= '9') || c == '_'
            || c == '-' || c == '.') {
            return false;
        }
        i += 1;
    }
    true
}

/// What a refused slug is answered.
pub open spec fn unsafe_slug_text(slug: Seq<char>) -> Seq<char> {
    "curated action '"@ + slug + "' is not a safe action slug"@
}

/// Returns `slug` unchanged if it is safe to interpolate into the execute URL, and refuses it
/// otherwise.
pub fn checked_action(slug: &str) -> (r: Result<&str, MetricError>)
    ensures
        safe_segment(slug@) ==> r is Ok && r->Ok_0@ == slug@,
        !safe_segment(slug@) ==> r is Err && r->Err_0.deep_view() == MetricErrorView::Unsupported(
            unsafe_slug_text(slug@),
        ),
{
    if id_segment_is_safe(slug) {
        Ok(slug)
    } else {
        let mut m = String::new();
        m.append("curated action '");
        m.append(slug);
        m.append("' is not a safe action slug");
        Err(MetricError::Unsupported(m))
    }
}

/// What a refresh without a key is answered.
pub open spec fn no_key_text() -> Seq<char> {
    "no Composio API key is configured for this app — add one in the UGC panel's settings (PUT /api/ugc/settings/composio-key) or set RYU_COMPOSIO_API_KEY for this node, and record metrics manually meanwhile. Core's own Settings → Integrations key does not reach this sidecar."@
}

/// Refuses a refresh when no Composio API key resolves, naming the place that fixes it.
pub fn key_precondition(configured: bool) -> (r: Result<(), MetricError>)
    ensures
        configured ==> r is Ok,
        !configured ==> r is Err && r->Err_0.deep_view() == MetricErrorView::Unsupported(
            no_key_text(),
        ),
{
    if configured {
        Ok(())
    } else {
        Err(
            MetricError::Unsupported(
                "no Composio API key is configured for this app — add one in the UGC panel's settings (PUT /api/ugc/settings/composio-key) or set RYU_COMPOSIO_API_KEY for this node, and record metrics manually meanwhile. Core's own Settings → Integrations key does not reach this sidecar.".to_string(),
            ),
        )
    }
}

// ---- reading a response ------------------------------------------------------------------------

/// One step of a dotted path: an object member, or an array item by its number.
pub open spec fn step(v: JsonView, segment: Seq<char>) -> Option<JsonView> {
    match v {
        JsonView::Object(_) => v.get(segment),
        JsonView::Array(items) => match text::read_unsigned(segment) {
            Some(n) => if n < items.len() {
                Some(items[n])
            } else {
                None
            },
            None => None,
        },
        _ => None,
    }
}

/// Where the path leads, or null where it misses.
pub open spec fn walk(v: JsonView, path: Seq<Seq<char>>) -> JsonView
    decreases path.len(),
{
    if path.len() == 0 {
        v
    } else {
        match step(v, path[0]) {
            Some(next) => walk(next, path.skip(1)),
            None => JsonView::Null,
        }
    }
}

/// The value that a dotted selector picks; a blank selector picks the whole value.
pub open spec fn selected(v: JsonView, selector: Seq<char>) -> JsonView {
    if text::blank(selector) {
        v
    } else {
        walk(v, text::pieces(text::trimmed(selector), '.'))
    }
}

/// A selected value as a counter: a number, a number written as text, or 0.
pub open spec fn count_of(v: JsonView) -> int {
    match v {
        JsonView::Int(n) => n as int,
        JsonView::Big(n) => if n < 0 {
            i64::MIN as int
        } else {
            i64::MAX as int
        },
        JsonView::Fraction { whole, .. } => whole as int,
        JsonView::Text(s) => match text::in_range(
            text::read_signed(text::trimmed(s)),
            i64::MIN as int,
            i64::MAX as int,
        ) {
            Some(n) => n,
            None => 0,
        },
        _ => 0,
    }
}

/// Walks a dotted path into a JSON value. Returns null when the path misses, so a platform
/// that stopped reporting a counter yields 0 and does not block the others.
pub fn select(value: &Json, selector: &str) -> (r: Json)
    ensures
        r.deep_view() == selected(value.deep_view(), selector@),
{
    let path = trim(selector);
    if path.is_empty() {
        return value.clone();
    }
    let segments = split_on(path, '.');
    let ghost all = segments.deep_view();
    let mut cur: &Json = value;
    let mut i: usize = 0;
    assert(all.skip(0) =~= all);
    while i < segments.len()
        invariant
            all == segments.deep_view(),
            i <= segments.len(),
            selected(value.deep_view(), selector@) == walk(value.deep_view(), all),
            walk(value.deep_view(), all) == walk(cur.deep_view(), all.skip(i as int)),
        decreases segments.len() - i,
    {
        let ghost rest = all.skip(i as int);
        assert(rest.skip(1) =~= all.skip(i + 1));
        match cur {
            Json::Object(_) => {
                match cur.get(segments[i].as_str()) {
                    Some(v) => {
                        cur = v;
                    },
                    None => {
                        return Json::Null;
                    },
                }
            },
            Json::Array(items) => {
                let len: usize = items.len();
                match parse_unsigned(segments[i].as_str(), u64::MAX) {
                    Some(n) => {
                        if n < len as u64 {
                            cur = &items[n as usize];
                        } else {
                            return Json::Null;
                        }
                    },
                    None => {
                        assert(step(cur.deep_view(), rest[0]) is None) by {
                            lemma_no_such_item(rest[0], cur.deep_view()->Array_0);
                        }
                        return Json::Null;
                    },
                }
            },
            _ => {
                return Json::Null;
            },
        }
        i += 1;
    }
    cur.clone()
}

proof fn lemma_no_such_item(segment: Seq<char>, items: Seq<JsonView>)
    requires
        text::in_range(text::read_unsigned(segment), 0, u64::MAX as int) is None,
        items.len() <= usize::MAX,
    ensures
        step(JsonView::Array(items), segment) is None,
{
    text::lemma_read_unsigned_nonneg(segment);
}

/// Coerces a selected JSON value into a counter: a number, a number written as text, a
/// fraction cut to its whole part; anything else is 0.
pub fn as_count(v: &Json) -> (n: i64)
    ensures
        n == count_of(v.deep_view()),
{
    match v {
        Json::Int(n) => *n,
        Json::Big(n) => if *n < 0 {
            i64::MIN
        } else {
            i64::MAX
        },
        Json::Fraction { written: _, whole } => *whole,
        Json::Text(s) => match parse_i64(trim(s.as_str())) {
            Some(n) => n,
            None => 0,
        },
        _ => 0,
    }
}

/// The arguments one curated row sends: its constant ones set over the post id.
pub open spec fn arguments(src: SourceView, post_id: Seq<char>, upto: int) -> Seq<
    (Seq<char>, JsonView),
>
    decreases upto,
{
    if upto <= 0 {
        seq![(src.id_arg, JsonView::Text(post_id))]
    } else {
        json::with_member(
            arguments(src, post_id, upto - 1),
            src.extra_args[upto - 1].0,
            JsonView::Text(src.extra_args[upto - 1].1),
        )
    }
}

/// The arguments one curated row sends: the post id under the row's own argument name, plus
/// the row's constant projection arguments.
pub fn build_args(src: &PlatformMetricSource, post_id: &str) -> (r: Json)
    ensures
        r.deep_view() == JsonView::Object(
            arguments(src.deep_view(), post_id@, src.extra_args.len() as int),
        ),
{
    let mut args: Vec<(String, Json)> = Vec::new();
    args.push((src.id_arg.to_string(), Json::text(post_id)));
    let mut i: usize = 0;
    while i < src.extra_args.len()
        invariant
            i <= src.extra_args.len(),
            json::members(args@) == arguments(src.deep_view(), post_id@, i as int),
        decreases src.extra_args.len() - i,
    {
        set_member(&mut args, src.extra_args[i].0, Json::text(src.extra_args[i].1));
        i += 1;
    }
    object(args)
}

/// No selector of the row finds anything.
pub open spec fn finds_nothing(src: SourceView, body: JsonView) -> bool {
    &&& selected(body, src.views) is Null
    &&& selected(body, src.likes) is Null
    &&& selected(body, src.comments) is Null
    &&& src.shares is Some ==> selected(body, src.shares->0) is Null
    &&& src.saves is Some ==> selected(body, src.saves->0) is Null
}

/// What a response without a counter is answered.
pub open spec fn no_counters_text(src: SourceView) -> Seq<char> {
    "the '"@ + src.action
        + "' action answered without any of the counters this platform's row selects (e.g. '"@
        + src.views
        + "') — the curated action or its selectors need correcting; record metrics manually meanwhile"@
}

/// The reading that a row takes out of a response.
pub open spec fn sample_of(src: SourceView, body: JsonView) -> MetricSample {
    MetricSample {
        views: count_of(selected(body, src.views)) as i64,
        likes: count_of(selected(body, src.likes)) as i64,
        comments: count_of(selected(body, src.comments)) as i64,
        shares: match src.shares {
            Some(s) => count_of(selected(body, s)) as i64,
            None => 0,
        },
        saves: match src.saves {
            Some(s) => count_of(selected(body, s)) as i64,
            None => 0,
        },
    }
}

fn is_null(v: &Json) -> (b: bool)
    ensures
        b == (v.deep_view() is Null),
{
    match v {
        Json::Null => true,
        _ => false,
    }
}

/// Reads a row's counters out of an action's response, refusing a response that carries none
/// of them: coercing that to zeroes would re-price a live payout down to nothing. A counter
/// that is really zero is a reading.
pub fn sample_from(src: &PlatformMetricSource, body: &Json) -> (r: Result<
    MetricSample,
    MetricError,
>)
    ensures
        finds_nothing(src.deep_view(), body.deep_view()) ==> r is Err && r->Err_0.deep_view()
            == MetricErrorView::Upstream(no_counters_text(src.deep_view())),
        !finds_nothing(src.deep_view(), body.deep_view()) ==> r is Ok && r->Ok_0 == sample_of(
            src.deep_view(),
            body.deep_view(),
        ),
{
    let views = select(body, src.views);
    let likes = select(body, src.likes);
    let comments = select(body, src.comments);
    let shares: Json = match src.shares {
        Some(s) => select(body, s),
        None => Json::Null,
    };
    let saves: Json = match src.saves {
        Some(s) => select(body, s),
        None => Json::Null,
    };
    if is_null(&views) && is_null(&likes) && is_null(&comments) && is_null(&shares) && is_null(
        &saves,
    ) {
        let mut m = String::new();
        m.append("the '");
        m.append(src.action);
        m.append(
            "' action answered without any of the counters this platform's row selects (e.g. '",
        );
        m.append(src.views);
        m.append(
            "') — the curated action or its selectors need correcting; record metrics manually meanwhile",
        );
        return Err(MetricError::Upstream(m));
    }
    Ok(
        MetricSample {
            views: as_count(&views),
            likes: as_count(&likes),
            comments: as_count(&comments),
            shares: as_count(&shares),
            saves: as_count(&saves),
        },
    )
}

} // verus!
