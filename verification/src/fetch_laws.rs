//! What a fetch of counters sends, and what it reads in the answer.
use crate::composio;
use crate::composio::{MetricErrorView, MetricOutcomeView, SourceView};
use crate::execute;
use crate::execute::ExecOutcomeView;
use crate::json;
use crate::json::JsonView;
use crate::rows;
use crate::text;
use crate::text_laws;
use vstd::prelude::*;

verus! {

// ---- selectors --------------------------------------------------------------------------------

/// A name that can stand in a dotted path: something, without dots, and without white space at its
/// ends.
pub open spec fn is_name(s: Seq<char>) -> bool {
    s.len() > 0 && !s.contains('.') && text_laws::tight(s)
}

proof fn lemma_one_piece(s: Seq<char>, sep: char)
    requires
        !s.contains(sep),
    ensures
        text::pieces(s, sep) == seq![s],
    decreases s.len(),
{
    if s.len() > 0 {
        let init = s.drop_last();
        assert(!init.contains(sep)) by {
            if init.contains(sep) {
                let i = choose|i: int| 0 <= i < init.len() && init[i] == sep;
                assert(s[i] == sep);
            }
        }
        lemma_one_piece(init, sep);
        assert(s[s.len() - 1] != sep);
        assert(init.push(s.last()) =~= s);
        assert(text::pieces(s, sep) =~= seq![s]);
    } else {
        assert(s =~= Seq::<char>::empty());
    }
}

proof fn lemma_first_piece(name: Seq<char>, rest: Seq<char>, sep: char)
    requires
        !name.contains(sep),
    ensures
        text::pieces(name + seq![sep] + rest, sep) == seq![name] + text::pieces(rest, sep),
    decreases rest.len(),
{
    let all = name + seq![sep] + rest;
    if rest.len() == 0 {
        assert(all =~= name.push(sep));
        assert(all.drop_last() =~= name);
        lemma_one_piece(name, sep);
        assert(text::pieces(rest, sep) =~= seq![Seq::<char>::empty()]);
        assert(text::pieces(all, sep) =~= seq![name] + text::pieces(rest, sep));
    } else {
        let init = rest.drop_last();
        lemma_first_piece(name, init, sep);
        text_laws::law_pieces_join_to_the_text(init, sep);
        assert(all.drop_last() =~= name + seq![sep] + init);
        assert(all.last() == rest.last());
        let (before, inner) = (text::pieces(all.drop_last(), sep), text::pieces(init, sep));
        assert(before == seq![name] + inner);
        assert(before.last() == inner.last());
        assert(before.drop_last() =~= seq![name] + inner.drop_last());
        assert(text::pieces(all, sep) =~= seq![name] + text::pieces(rest, sep));
    }
}

/// A selector leads from name to name: a name leads to the member of an object, a number to the
/// item of an array, and what follows the dot leads on from there. Where there is no such member or
/// item it leads nowhere, and a blank selector stays where it is.
pub proof fn law_a_selector_leads_on(
    v: JsonView,
    w: JsonView,
    name: Seq<char>,
    rest: Seq<char>,
    items: Seq<JsonView>,
    n: int,
)
    requires
        is_name(name),
        rest.len() > 0,
        text_laws::tight(rest),
    ensures
        v is Object && v.get(name) == Some(w) ==> composio::selected(v, name) == w,
        v is Object && v.get(name) == Some(w) ==> composio::selected(v, name + seq!['.'] + rest)
            == composio::selected(w, rest),
        v is Object && v.get(name) is None ==> composio::selected(v, name) is Null
            && composio::selected(v, name + seq!['.'] + rest) is Null,
        0 <= n < items.len() ==> composio::selected(JsonView::Array(items), text::int_text(n))
            == items[n] && composio::selected(
            JsonView::Array(items),
            text::int_text(n) + seq!['.'] + rest,
        ) == composio::selected(items[n], rest),
        items.len() <= n ==> composio::selected(JsonView::Array(items), text::int_text(n)) is Null
            && composio::selected(
            JsonView::Array(items),
            text::int_text(n) + seq!['.'] + rest,
        ) is Null,
        !(v is Object) && !(v is Array) ==> composio::selected(v, name) is Null,
        forall|s: Seq<char>|
            #![trigger composio::selected(v, s)]
            text::trimmed(s).len() == 0 ==> composio::selected(v, s) == v,
        forall|s: Seq<char>|
            #![trigger composio::selected(v, s)]
            text::trimmed(s) == name ==> composio::selected(v, s) == composio::selected(v, name),
{
    lemma_leads_on(v, name, rest);
    text_laws::law_trimming_takes_the_white_ends(name);
    if 0 <= n {
        let t = text::int_text(n);
        text_laws::law_numerals_read_back(n);
        text_laws::law_trimming_takes_the_white_ends(t);
        assert(t.len() > 0);
        assert(!t.contains('.')) by {
            if t.contains('.') {
                let i = choose|i: int| 0 <= i < t.len() && t[i] == '.';
                assert(text::is_digit(t[i]));
            }
        }
        lemma_leads_on(JsonView::Array(items), t, rest);
    }
}

proof fn lemma_leads_on(v: JsonView, name: Seq<char>, rest: Seq<char>)
    requires
        is_name(name),
        rest.len() > 0,
        text_laws::tight(rest),
    ensures
        composio::selected(v, name) == match composio::step(v, name) {
            Some(w) => w,
            None => JsonView::Null,
        },
        composio::selected(v, name + seq!['.'] + rest) == match composio::step(v, name) {
            Some(w) => composio::selected(w, rest),
            None => JsonView::Null,
        },
{
    let whole = name + seq!['.'] + rest;
    text_laws::law_trimming_takes_the_white_ends(name);
    text_laws::law_trimming_takes_the_white_ends(rest);
    text_laws::law_trimming_takes_the_white_ends(whole);
    assert(whole[0] == name[0] && whole.last() == rest.last());
    lemma_one_piece(name, '.');
    lemma_first_piece(name, rest, '.');
    let path = text::pieces(whole, '.');
    assert(path.skip(1) =~= text::pieces(rest, '.'));
    assert(seq![name].skip(1) =~= Seq::<Seq<char>>::empty());
    if let Some(w) = composio::step(v, name) {
        assert(composio::walk(w, Seq::empty()) == w);
        assert(composio::walk(v, seq![name]) == composio::walk(w, seq![name].skip(1)));
    }
}

/// A counter is the number that is found, whether as a number or as text; one that is too large is
/// the largest, and anything that is no number counts 0.
pub proof fn law_what_counts(n: i64, big: i128, t: Seq<char>, b: bool)
    ensures
        composio::count_of(JsonView::Int(n)) == n,
        composio::count_of(JsonView::Text(text::int_text(n as int))) == n,
        text::trimmed(t) == text::int_text(n as int) ==> composio::count_of(JsonView::Text(t)) == n,
        big > 0 ==> composio::count_of(JsonView::Big(big)) == i64::MAX,
        big < 0 ==> composio::count_of(JsonView::Big(big)) == i64::MIN,
        composio::count_of(JsonView::Fraction { written: t, whole: n }) == n,
        text::read_signed(text::trimmed(t)) is None ==> composio::count_of(JsonView::Text(t)) == 0,
        composio::count_of(JsonView::Null) == 0,
        composio::count_of(JsonView::Bool(b)) == 0,
{
    text_laws::law_numerals_read_back(n as int);
}

/// A reading takes every counter from where its own selector leads; a counter that the platform
/// does not report, or that the answer lacks, is 0. One that is found is enough for a reading.
pub proof fn law_a_reading_takes_its_counters(src: SourceView, body: JsonView, n: i64)
    ensures
        ({
            let read = execute::fetched(src, Ok(ExecOutcomeView::Done(body)));
            let views = composio::selected(body, src.views);
            let likes = composio::selected(body, src.likes);
            let comments = composio::selected(body, src.comments);
            let shares = match src.shares {
                Some(s) => composio::selected(body, s),
                None => JsonView::Null,
            };
            let saves = match src.saves {
                Some(s) => composio::selected(body, s),
                None => JsonView::Null,
            };
            let found = !(views is Null) || !(likes is Null) || !(comments is Null) || !(
            shares is Null) || !(saves is Null);
            &&& found <==> read is Ok
            &&& found ==> read is Ok && read->Ok_0 is Sample
            &&& read matches Ok(MetricOutcomeView::Sample(s)) ==> {
                &&& views == JsonView::Int(n) ==> s.views == n
                &&& likes == JsonView::Int(n) ==> s.likes == n
                &&& comments == JsonView::Int(n) ==> s.comments == n
                &&& shares == JsonView::Int(n) ==> s.shares == n
                &&& saves == JsonView::Int(n) ==> s.saves == n
                &&& views == JsonView::Text(text::int_text(n as int)) ==> s.views == n
                &&& likes == JsonView::Text(text::int_text(n as int)) ==> s.likes == n
                &&& comments == JsonView::Text(text::int_text(n as int)) ==> s.comments == n
                &&& views is Null ==> s.views == 0
                &&& likes is Null ==> s.likes == 0
                &&& comments is Null ==> s.comments == 0
                &&& shares is Null ==> s.shares == 0
                &&& saves is Null ==> s.saves == 0
            }
            &&& !found ==> read is Err && read->Err_0 is Upstream
        }),
{
    law_what_counts(n, 0, Seq::empty(), false);
}

// ---- the curated sources --------------------------------------------------------------------

proof fn lemma_lower_words()
    ensures
        text::lower("youtube"@) == "youtube"@,
        text::lower("tiktok"@) == "tiktok"@,
        text::lower("instagram"@) == "instagram"@,
        text::lower("x"@) == "x"@,
        text::lower("linkedin"@) == "linkedin"@,
        "youtube"@[0] == 'y' && "tiktok"@[0] == 't' && "instagram"@[0] == 'i' && "x"@[0] == 'x'
            && "linkedin"@[0] == 'l',
{
    reveal_strlit("youtube");
    reveal_strlit("tiktok");
    reveal_strlit("instagram");
    reveal_strlit("x");
    reveal_strlit("linkedin");
    assert(text::lower("youtube"@) =~= "youtube"@);
    assert(text::lower("tiktok"@) =~= "tiktok"@);
    assert(text::lower("instagram"@) =~= "instagram"@);
    assert(text::lower("x"@) =~= "x"@);
    assert(text::lower("linkedin"@) =~= "linkedin"@);
}

/// Five platforms have a source, whatever the case of their name and the white space around it;
/// each source runs an action of its own platform and hands the post id over under the action's own
/// argument.
pub proof fn law_which_platforms_have_a_source(p: Seq<char>)
    ensures
        ({
            let name = text::lower(text::trimmed(p));
            let src = composio::source_of(p);
            &&& name == "youtube"@ ==> src is Some && src->0.action == "YOUTUBE_VIDEOS_LIST"@
                && src->0.id_arg == "id"@ && src->0.extra_args == seq![("part"@, "statistics"@)]
            &&& name == "tiktok"@ ==> src is Some && src->0.action == "TIKTOK_GET_VIDEO_DETAILS"@
                && src->0.id_arg == "video_id"@ && src->0.extra_args.len() == 0
            &&& name == "instagram"@ ==> src is Some && src->0.action
                == "INSTAGRAM_GET_MEDIA_BY_ID"@ && src->0.id_arg == "media_id"@
                && src->0.extra_args == seq![
                ("fields"@, "id,media_type,play_count,like_count,comments_count"@),
            ]
            &&& name == "x"@ ==> src is Some && src->0.action == "TWITTER_POST_LOOKUP_BY_POST_ID"@
                && src->0.id_arg == "id"@ && src->0.extra_args == seq![
                ("tweet__fields"@, "public_metrics"@),
            ]
            &&& name == "linkedin"@ ==> src is Some && src->0.action
                == "LINKEDIN_GET_POST_ANALYTICS"@ && src->0.id_arg == "post_urn"@
                && src->0.extra_args.len() == 0
            &&& src is Some <==> name == "youtube"@ || name == "tiktok"@ || name == "instagram"@
                || name == "x"@ || name == "linkedin"@
            &&& src is Some ==> src->0.platform == name
        }),
{
    lemma_lower_words();
    let q = composio::platform_is(p);
    let all = composio::curated();
    rows::lemma_position(all, q);
    let name = text::lower(text::trimmed(p));
    assert(q(all[0]) <==> name == "youtube"@);
    assert(q(all[1]) <==> name == "tiktok"@);
    assert(q(all[2]) <==> name == "instagram"@);
    assert(q(all[3]) <==> name == "x"@);
    assert(q(all[4]) <==> name == "linkedin"@);
}

/// Each counter of a source is looked for where its platform reports it, and a counter that the
/// platform does not report is looked for nowhere.
pub proof fn law_where_the_counters_stand(p: Seq<char>)
    ensures
        ({
            let name = text::lower(text::trimmed(p));
            let src = composio::source_of(p)->0;
            &&& name == "youtube"@ ==> src.views == "items.0.statistics.viewCount"@ && src.likes
                == "items.0.statistics.likeCount"@ && src.comments
                == "items.0.statistics.commentCount"@ && src.shares is None && src.saves is None
            &&& name == "tiktok"@ ==> src.views == "data.videos.0.view_count"@ && src.likes
                == "data.videos.0.like_count"@ && src.comments == "data.videos.0.comment_count"@
                && src.shares == Some("data.videos.0.share_count"@) && src.saves == Some(
                "data.videos.0.favourites_count"@,
            )
            &&& name == "instagram"@ ==> src.views == "play_count"@ && src.likes == "like_count"@
                && src.comments == "comments_count"@ && src.shares is None && src.saves is None
            &&& name == "x"@ ==> src.views == "data.public_metrics.impression_count"@ && src.likes
                == "data.public_metrics.like_count"@ && src.comments
                == "data.public_metrics.reply_count"@ && src.shares == Some(
                "data.public_metrics.retweet_count"@,
            ) && src.saves == Some("data.public_metrics.bookmark_count"@)
            &&& name == "linkedin"@ ==> src.views
                == "elements.0.totalShareStatistics.impressionCount"@ && src.likes
                == "elements.0.totalShareStatistics.likeCount"@ && src.comments
                == "elements.0.totalShareStatistics.commentCount"@ && src.shares == Some(
                "elements.0.totalShareStatistics.shareCount"@,
            ) && src.saves is None
        }),
{
    lemma_lower_words();
    let q = composio::platform_is(p);
    let all = composio::curated();
    rows::lemma_position(all, q);
    let name = text::lower(text::trimmed(p));
    assert(q(all[0]) <==> name == "youtube"@);
    assert(q(all[1]) <==> name == "tiktok"@);
    assert(q(all[2]) <==> name == "instagram"@);
    assert(q(all[3]) <==> name == "x"@);
    assert(q(all[4]) <==> name == "linkedin"@);
}

/// A fetch sends the post id under the row's argument, then the row's constant arguments as they
/// are, and nothing else.
pub proof fn law_what_a_fetch_sends(src: SourceView, post_id: Seq<char>, n: int)
    requires
        0 <= n <= src.extra_args.len(),
        forall|i: int|
            0 <= i < src.extra_args.len() ==> (#[trigger] src.extra_args[i]).0 != src.id_arg,
        forall|i: int, j: int|
            0 <= i < j < src.extra_args.len() ==> (#[trigger] src.extra_args[i]).0 != (
            #[trigger] src.extra_args[j]).0,
    ensures
        composio::arguments(src, post_id, n).len() == n + 1,
        composio::arguments(src, post_id, n)[0] == (src.id_arg, JsonView::Text(post_id)),
        forall|i: int|
            0 <= i < n ==> #[trigger] composio::arguments(src, post_id, n)[i + 1] == (
                src.extra_args[i].0,
                JsonView::Text(src.extra_args[i].1),
            ),
    decreases n,
{
    if n > 0 {
        law_what_a_fetch_sends(src, post_id, n - 1);
        let before = composio::arguments(src, post_id, n - 1);
        let key = src.extra_args[n - 1].0;
        assert forall|i: int| 0 <= i < before.len() implies (#[trigger] before[i]).0 != key by {
            if i > 0 {
                assert(before[(i - 1) + 1].0 == src.extra_args[i - 1].0);
            }
        }
        assert(!exists|i: int| json::member_at(before, key, i));
        let all = composio::arguments(src, post_id, n);
        assert forall|i: int| 0 <= i < n implies #[trigger] all[i + 1] == (
            src.extra_args[i].0,
            JsonView::Text(src.extra_args[i].1),
        ) by {
            if i < n - 1 {
                assert(before[i + 1] == all[i + 1]);
            }
        }
    }
}

/// A fetch is sent for a post id with a key and a safe action, and only then.
pub proof fn law_when_a_fetch_is_sent(src: SourceView, post_id: Seq<char>, configured: bool)
    ensures
        execute::row_refusal(src, post_id, configured) is None <==> composio::safe_segment(
            src.action,
        ) && text::trimmed(post_id).len() > 0 && configured,
        execute::row_refusal(src, post_id, configured) matches Some(e) ==> e is Unsupported,
{
}

/// The request runs the action under the base URL with the key, for one account, with the arguments
/// as they are.
pub proof fn law_the_request_of_an_action(
    base: Seq<char>,
    key: Seq<char>,
    tool: Seq<char>,
    arguments: JsonView,
    entity: Seq<char>,
)
    ensures
        ({
            let r = execute::request_of(base, key, tool, arguments, entity);
            &&& r.url == base + "/tools/execute/"@ + tool
            &&& r.key == key
            &&& r.body == JsonView::Object(
                seq![
                    ("arguments"@, arguments),
                    ("user_id"@, JsonView::Text(entity)),
                    ("entity_id"@, JsonView::Text(entity)),
                ],
            )
        }),
{
}

/// An action runs for the user who is named, else for the configured account, else for `default`;
/// blank names name nobody.
pub proof fn law_whom_an_action_runs_for(user: Option<Seq<char>>, configured: Option<Seq<char>>)
    ensures
        ({
            let named = user is Some && text::trimmed(user->0).len() > 0;
            let set = configured is Some && text::trimmed(configured->0).len() > 0;
            &&& named ==> execute::entity_of(user, configured) == text::trimmed(user->0)
            &&& !named && set ==> execute::entity_of(user, configured) == text::trimmed(
                configured->0,
            )
            &&& !named && !set ==> execute::entity_of(user, configured) == "default"@
        }),
{
}

// ---- answers ---------------------------------------------------------------------------------

/// The first link of a scope: of the members that may hold one, in their order, the first that is
/// text and begins with `http`.
pub open spec fn link_in(scope: Option<JsonView>) -> Option<Seq<char>> {
    if scope is None {
        None
    } else if is_link(scope->0.get("redirect_url"@)) {
        scope->0.get("redirect_url"@)->0.as_text()
    } else if is_link(scope->0.get("redirectUrl"@)) {
        scope->0.get("redirectUrl"@)->0.as_text()
    } else if is_link(scope->0.get("auth_url"@)) {
        scope->0.get("auth_url"@)->0.as_text()
    } else if is_link(scope->0.get("authUrl"@)) {
        scope->0.get("authUrl"@)->0.as_text()
    } else if is_link(scope->0.get("connect_url"@)) {
        scope->0.get("connect_url"@)->0.as_text()
    } else {
        None
    }
}

/// Text that begins with `http`.
pub open spec fn is_link(v: Option<JsonView>) -> bool {
    &&& v is Some
    &&& v->0 is Text
    &&& "http"@.is_prefix_of(v->0->Text_0)
}

proof fn lemma_is_link(s: Seq<char>)
    ensures
        text::begins_with(s, "http"@) <==> "http"@.is_prefix_of(s),
{
    let h = "http"@;
    if text::begins_with(s, h) {
        assert(s.subrange(0, h.len() as int) =~= h);
    }
    if h.is_prefix_of(s) {
        assert(s.subrange(0, h.len() as int) =~= h);
    }
}

proof fn lemma_first_url(v: JsonView)
    ensures
        execute::first_url(v, execute::url_keys()) == link_in(Some(v)),
{
    reveal_with_fuel(execute::first_url, 6);
    let k = execute::url_keys();
    assert forall|s: Seq<char>| #[trigger] text::begins_with(s, "http"@)
        <==> "http"@.is_prefix_of(s) by {
        lemma_is_link(s);
    }
    assert(k.skip(1)[0] == k[1]);
    assert(k.skip(1).skip(1)[0] == k[2]);
    assert(k.skip(1).skip(1).skip(1)[0] == k[3]);
    assert(k.skip(1).skip(1).skip(1).skip(1)[0] == k[4]);
    assert(k.skip(1).skip(1).skip(1).skip(1).skip(1).len() == 0);
}

/// The link to connect an account is the first one at the top of the answer, else under `data`,
/// else under `connection`, else under the connection in `data`.
pub proof fn law_where_the_link_stands(body: JsonView)
    ensures
        ({
            let data = body.get("data"@);
            let inner = match data {
                Some(d) => d.get("connection"@),
                None => None,
            };
            let top = link_in(Some(body));
            let under_data = link_in(data);
            let under_connection = link_in(body.get("connection"@));
            &&& top is Some ==> execute::connect_url(body) == top
            &&& top is None && under_data is Some ==> execute::connect_url(body) == under_data
            &&& top is None && under_data is None && under_connection is Some
                ==> execute::connect_url(body) == under_connection
            &&& top is None && under_data is None && under_connection is None
                ==> execute::connect_url(body) == link_in(inner)
        }),
{
    assert forall|v: JsonView| #[trigger]
        execute::first_url(v, execute::url_keys()) == link_in(Some(v)) by {
        lemma_first_url(v);
    }
}

/// Text that is not empty.
pub open spec fn some_text(v: Option<JsonView>) -> bool {
    v is Some && v->0 is Text && v->0->Text_0.len() > 0
}

/// The words of an answer are its first member of `error`, `message`, `detail` and `errorMessage`
/// that is text and not empty.
pub proof fn law_the_words_of_an_answer(body: JsonView)
    ensures
        ({
            let words = execute::first_text(body, execute::error_keys());
            let a = body.get("error"@);
            let b = body.get("message"@);
            let c = body.get("detail"@);
            let d = body.get("errorMessage"@);
            &&& some_text(a) ==> words == Some(a->0->Text_0)
            &&& !some_text(a) && some_text(b) ==> words == Some(b->0->Text_0)
            &&& !some_text(a) && !some_text(b) && some_text(c) ==> words == Some(c->0->Text_0)
            &&& !some_text(a) && !some_text(b) && !some_text(c) && some_text(d) ==> words == Some(
                d->0->Text_0,
            )
            &&& !some_text(a) && !some_text(b) && !some_text(c) && !some_text(d) ==> words is None
        }),
{
    reveal_with_fuel(execute::first_text, 5);
    let k = execute::error_keys();
    assert(k.skip(1)[0] == k[1]);
    assert(k.skip(1).skip(1)[0] == k[2]);
    assert(k.skip(1).skip(1).skip(1)[0] == k[3]);
    assert(k.skip(1).skip(1).skip(1).skip(1).len() == 0);
}

/// Words that speak of a missing connection.
pub proof fn law_words_of_a_missing_connection(t: Seq<char>)
    ensures
        execute::mentions_connection(t) <==> {
            ||| text::holds_text(t, "no connected account"@)
            ||| text::holds_text(t, "not connected"@)
            ||| text::holds_text(t, "no connection"@)
            ||| text::holds_text(t, "connection not found"@)
            ||| text::holds_text(t, "connected account"@)
            ||| text::holds_text(t, "needs to be connected"@)
            ||| text::holds_text(t, "please connect"@)
            ||| text::holds_text(t, "active connection"@)
            ||| text::holds_text(t, "no active connection"@)
            ||| text::holds_text(t, "auth config"@)
            ||| text::holds_text(t, "requires authentication"@)
        },
{
    let k = execute::connection_phrases();
    assert(k.len() == 11);
    assert(k[0] == "no connected account"@ && k[1] == "not connected"@ && k[2] == "no connection"@
        && k[3] == "connection not found"@ && k[4] == "connected account"@ && k[5]
        == "needs to be connected"@ && k[6] == "please connect"@ && k[7] == "active connection"@
        && k[8] == "no active connection"@ && k[9] == "auth config"@ && k[10]
        == "requires authentication"@);
    if execute::mentions_connection(t) {
        let i = choose|i: int|
            0 <= i < k.len() && text::holds_text(t, #[trigger] execute::connection_phrases()[i]);
        assert(i == 0 || i == 1 || i == 2 || i == 3 || i == 4 || i == 5 || i == 6 || i == 7 || i
            == 8 || i == 9 || i == 10);
    }
}

/// An answer asks for a connected account where it carries a link, or where it failed and speaks of
/// a missing connection; it does so in its own words where it has some, and with its link. Any
/// other answer is a success where its status is one, with its `data` where it has some, and else a
/// failure.
pub proof fn law_what_an_answer_comes_to(
    src: SourceView,
    tool: Seq<char>,
    status: u16,
    line: Seq<char>,
    body: JsonView,
    written: Seq<char>,
    lowered: Option<Seq<char>>,
)
    ensures
        ({
            let asked = execute::elicitation(status, body, lowered);
            let answer = execute::answer(tool, status, line, body, written, asked);
            let link = execute::connect_url(body);
            let failed = status >= 400 || body.get("successful"@) == Some(JsonView::Bool(false))
                || body.get("error"@) is Some;
            let asks = link is Some || (failed && lowered is Some && execute::mentions_connection(
                lowered->0,
            ));
            let words = execute::first_text(body, execute::error_keys());
            &&& asks ==> answer == Ok::<_, Seq<char>>(
                ExecOutcomeView::NeedsConnection {
                    message: if words is Some {
                        words->0
                    } else {
                        "This action requires connecting your account. Open the link to connect, then retry."@
                    },
                    url: link,
                },
            )
            &&& !asks && (status < 200 || status > 299) ==> answer is Err
            &&& !asks && 200 <= status <= 299 && body.get("data"@) is Some ==> answer == Ok::<
                _,
                Seq<char>,
            >(ExecOutcomeView::Done(body.get("data"@)->0))
            &&& !asks && 200 <= status <= 299 && body.get("data"@) is None ==> answer == Ok::<
                _,
                Seq<char>,
            >(ExecOutcomeView::Done(body))
            &&& asks ==> execute::fetched(src, answer) == Ok::<_, MetricErrorView>(
                MetricOutcomeView::NeedsConnection {
                    message: if words is Some {
                        words->0
                    } else {
                        "This action requires connecting your account. Open the link to connect, then retry."@
                    },
                    connect_url: link,
                },
            )
            &&& !asks && (status < 200 || status > 299) ==> execute::fetched(src, answer) == Err::<
                MetricOutcomeView,
                _,
            >(MetricErrorView::Upstream(answer->Err_0))
        }),
{
}

/// A failure is told in the answer's `error`, else in its `message`, else by the answer as it
/// stands.
pub proof fn law_how_a_failure_is_told(
    tool: Seq<char>,
    status: u16,
    line: Seq<char>,
    body: JsonView,
    written: Seq<char>,
    e: Seq<char>,
)
    requires
        status < 200 || status > 299,
    ensures
        ({
            let told = execute::answer(tool, status, line, body, written, None);
            let head = "Composio action "@ + tool + " failed: "@ + line + ": "@;
            let (error, message) = (body.get("error"@), body.get("message"@));
            let is_text = error is Some && error->0 is Text;
            &&& error == Some(JsonView::Text(e)) ==> told == Err::<ExecOutcomeView, _>(head + e)
            &&& !is_text && message == Some(JsonView::Text(e)) ==> told == Err::<
                ExecOutcomeView,
                _,
            >(head + e)
            &&& !is_text && !(message is Some && message->0 is Text) ==> told == Err::<
                ExecOutcomeView,
                _,
            >(head + written)
        }),
{
}

} // verus!
