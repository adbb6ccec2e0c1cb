//! Browsing Composio's toolkits, actions and trigger types: where the requests go, and how the
//! answers are read.
use crate::json;
use crate::json::{array, items_under, object, opt_text, put, str_field, Json, JsonView};
use crate::rows;
use crate::rows::pick_rows;
use crate::text;
use crate::text::{eq_ignore_case, push_u64, str_eq};
use crate::weburl;
use crate::weburl::{parse_url, UrlView, WebUrl};
use vstd::prelude::*;

verus! {

/// Default Composio REST base.
pub const DEFAULT_BASE_URL: &'static str = "https://backend.composio.dev/api/v3.1";

/// Query parameter that filters actions and triggers by toolkit.
pub const TOOLKIT_FILTER_PARAM: &'static str = "toolkit_slug";

/// `s` without the slashes at its end.
pub open spec fn without_slashes(s: Seq<char>) -> Seq<char>
    decreases s.len(),
{
    if s.len() > 0 && s.last() == '/' {
        without_slashes(s.drop_last())
    } else {
        s
    }
}

/// The base URL that an override amounts to.
pub open spec fn base_of(configured: Option<Seq<char>>) -> Seq<char> {
    match configured {
        Some(s) => if s.len() > 0 {
            without_slashes(s)
        } else {
            DEFAULT_BASE_URL@
        },
        None => DEFAULT_BASE_URL@,
    }
}

/// The active Composio REST base URL, without a trailing slash: the `COMPOSIO_BASE_URL`
/// override where it holds anything, else the default.
pub fn base_url(configured: Option<&str>) -> (r: String)
    ensures
        r@ == base_of(configured.deep_view()),
{
    match configured {
        Some(s) => {
            if s.is_empty() {
                return DEFAULT_BASE_URL.to_string();
            }
            let mut n: usize = s.unicode_len();
            assert(s@.subrange(0, n as int) =~= s@);
            while n > 0 && s.get_char(n - 1) == '/'
                invariant
                    n <= s@.len(),
                    without_slashes(s@) == without_slashes(s@.subrange(0, n as int)),
                decreases n,
            {
                assert(s@.subrange(0, n as int).drop_last() =~= s@.subrange(0, n - 1));
                n -= 1;
            }
            s.substring_char(0, n).to_string()
        },
        None => DEFAULT_BASE_URL.to_string(),
    }
}

/// One of the two hosts that may receive the key, without regard to ASCII case.
pub open spec fn allowed_host(host: Seq<char>) -> bool {
    text::eq_nocase(host, "backend.composio.dev"@) || text::eq_nocase(host, "api.composio.dev"@)
}

/// Whether the host may receive the key.
pub fn is_allowed_host(host: &str) -> (b: bool)
    ensures
        b == allowed_host(host@),
{
    eq_ignore_case(host, "backend.composio.dev") || eq_ignore_case(host, "api.composio.dev")
}

/// What the policy says of a parsed base URL: its host, or why it is refused.
pub open spec fn base_verdict(parsed: Result<UrlView, Seq<char>>) -> Result<
    Seq<char>,
    Seq<char>,
> {
    match parsed {
        Err(e) => Err("invalid COMPOSIO_BASE_URL: "@ + e),
        Ok(u) => if u.scheme != "https"@ {
            Err("COMPOSIO_BASE_URL must be https"@)
        } else {
            match u.host {
                None => Err("COMPOSIO_BASE_URL has no host"@),
                Some(h) => if allowed_host(h) {
                    Ok(h)
                } else {
                    Err("COMPOSIO_BASE_URL host '"@ + h + "' is not allowlisted"@)
                },
            }
        },
    }
}

/// Judges a parsed base URL.
pub fn check_parsed_base(parsed: Result<WebUrl, String>) -> (r: Result<(), String>)
    ensures
        match base_verdict(weburl::url_result(parsed)) {
            Ok(_) => r is Ok,
            Err(m) => r is Err && r->Err_0@ == m,
        },
{
    match parsed {
        Err(e) => {
            let mut m = "invalid COMPOSIO_BASE_URL: ".to_string();
            m.append(e.as_str());
            Err(m)
        },
        Ok(u) => {
            if !str_eq(u.scheme.as_str(), "https") {
                return Err("COMPOSIO_BASE_URL must be https".to_string());
            }
            match &u.host {
                None => Err("COMPOSIO_BASE_URL has no host".to_string()),
                Some(h) => {
                    if is_allowed_host(h.as_str()) {
                        Ok(())
                    } else {
                        let mut m = "COMPOSIO_BASE_URL host '".to_string();
                        m.append(h.as_str());
                        m.append("' is not allowlisted");
                        Err(m)
                    }
                },
            }
        },
    }
}

/// Requires https and a pinned Composio host for a base URL before the key is sent.
pub fn validate_base_url(base: &str) -> (r: Result<(), String>)
    ensures
        match base_verdict(weburl::parsed_url(base@)) {
            Ok(_) => r is Ok,
            Err(m) => r is Err && r->Err_0@ == m,
        },
{
    check_parsed_base(parse_url(base))
}

/// A base URL that passes is https and on the allowlist: the key goes nowhere else.
pub proof fn law_valid_base_is_pinned(parsed: Result<UrlView, Seq<char>>)
    ensures
        base_verdict(parsed) is Ok ==> parsed is Ok && parsed->Ok_0.scheme == "https"@
            && parsed->Ok_0.host is Some && allowed_host(parsed->Ok_0.host->0),
{
}

/// The query pairs that hold a value.
pub open spec fn sent_pair() -> spec_fn((Seq<char>, Seq<char>)) -> bool {
    |p: (Seq<char>, Seq<char>)| p.1.len() > 0
}

/// Drops the query pairs without a value.
pub fn sent_pairs(query: Vec<(String, String)>) -> (out: Vec<(String, String)>)
    ensures
        out.deep_view() == rows::kept(query.deep_view(), sent_pair()),
{
    let mut out = query;
    let sent = |p: &(String, String)| -> (b: bool)
        ensures
            b == sent_pair()(p.deep_view()),
        { !p.1.as_str().is_empty() };
    rows::retain_rows(&mut out, sent, Ghost(sent_pair()));
    out
}

// ---- requests ---------------------------------------------------------------------------------

/// A read that carries the key.
pub struct GetRequest {
    pub url: String,
    pub key: String,
    /// The query, without the pairs that hold no value.
    pub pairs: Vec<(String, String)>,
}

/// The mathematical view of a [`GetRequest`].
pub struct GetRequestView {
    pub url: Seq<char>,
    pub key: Seq<char>,
    pub pairs: Seq<(Seq<char>, Seq<char>)>,
}

impl DeepView for GetRequest {
    type V = GetRequestView;

    open spec fn deep_view(&self) -> GetRequestView {
        GetRequestView { url: self.url@, key: self.key@, pairs: self.pairs.deep_view() }
    }
}

/// The view of a request, or of the refusal to make one.
pub open spec fn get_result(r: Result<GetRequest, String>) -> Result<GetRequestView, Seq<char>> {
    match r {
        Ok(q) => Ok(q.deep_view()),
        Err(m) => Err(m@),
    }
}

/// The read of `path` below `base`.
pub open spec fn get_of(
    base: Seq<char>,
    key: Seq<char>,
    path: Seq<char>,
    query: Seq<(Seq<char>, Seq<char>)>,
) -> GetRequestView {
    GetRequestView { url: base + path, key, pairs: rows::kept(query, sent_pair()) }
}

/// The read of `path` in the catalog: it needs a key, and a base that may receive it.
pub open spec fn asked(
    key: Option<Seq<char>>,
    configured: Option<Seq<char>>,
    path: Seq<char>,
    query: Seq<(Seq<char>, Seq<char>)>,
) -> Result<GetRequestView, Seq<char>> {
    match key {
        None => Err("Composio API key not set (Settings → Integrations)"@),
        Some(k) => match base_verdict(weburl::parsed_url(base_of(configured))) {
            Ok(_) => Ok(get_of(base_of(configured), k, path, query)),
            Err(m) => Err(m),
        },
    }
}

/// Builds the read of `path` below `base`.
pub fn build_get(base: String, key: String, path: &str, query: Vec<(String, String)>) -> (r:
    GetRequest)
    ensures
        r.deep_view() == get_of(base@, key@, path@, query.deep_view()),
{
    let mut url = base;
    url.append(path);
    GetRequest { url, key, pairs: sent_pairs(query) }
}

/// Which read of the catalog is sent, or why none is. The base is judged before the key is
/// attached.
pub fn get_request(
    key: Option<String>,
    configured: Option<&str>,
    path: &str,
    query: Vec<(String, String)>,
) -> (r: Result<GetRequest, String>)
    ensures
        get_result(r) == asked(
            key.deep_view(),
            configured.deep_view(),
            path@,
            query.deep_view(),
        ),
{
    let key = match key {
        Some(k) => k,
        None => {
            return Err("Composio API key not set (Settings → Integrations)".to_string());
        },
    };
    let base = base_url(configured);
    match validate_base_url(base.as_str()) {
        Ok(_) => Ok(build_get(base, key, path, query)),
        Err(m) => Err(m),
    }
}

/// The request for the user's toolkits.
pub fn toolkits_request(key: Option<String>, configured: Option<&str>) -> (r: Result<
    GetRequest,
    String,
>)
    ensures
        get_result(r) == asked(
            key.deep_view(),
            configured.deep_view(),
            "/toolkits"@,
            Seq::empty(),
        ),
{
    let query: Vec<(String, String)> = Vec::new();
    assert(query.deep_view() =~= Seq::empty());
    get_request(key, configured, "/toolkits", query)
}

/// The request for the actions of a toolkit, optionally searched.
pub fn actions_request(
    key: Option<String>,
    configured: Option<&str>,
    toolkit: &str,
    search: &str,
    limit: usize,
) -> (r: Result<GetRequest, String>)
    ensures
        get_result(r) == asked(
            key.deep_view(),
            configured.deep_view(),
            "/tools"@,
            seq![
                (TOOLKIT_FILTER_PARAM@, toolkit@),
                ("search"@, search@),
                ("limit"@, text::nat_text(limit as nat)),
            ],
        ),
{
    let mut count = String::new();
    push_u64(&mut count, limit as u64);
    let mut query: Vec<(String, String)> = Vec::new();
    query.push((TOOLKIT_FILTER_PARAM.to_string(), toolkit.to_string()));
    query.push(("search".to_string(), search.to_string()));
    query.push(("limit".to_string(), count));
    assert(query.deep_view() =~= seq![
        (TOOLKIT_FILTER_PARAM@, toolkit@),
        ("search"@, search@),
        ("limit"@, text::nat_text(limit as nat)),
    ]);
    get_request(key, configured, "/tools", query)
}

/// The request for the trigger types of a toolkit.
pub fn triggers_request(key: Option<String>, configured: Option<&str>, toolkit: &str) -> (r: Result<
    GetRequest,
    String,
>)
    ensures
        get_result(r) == asked(
            key.deep_view(),
            configured.deep_view(),
            "/triggers_types"@,
            seq![(TOOLKIT_FILTER_PARAM@, toolkit@)],
        ),
{
    let mut query: Vec<(String, String)> = Vec::new();
    query.push((TOOLKIT_FILTER_PARAM.to_string(), toolkit.to_string()));
    assert(query.deep_view() =~= seq![(TOOLKIT_FILTER_PARAM@, toolkit@)]);
    get_request(key, configured, "/triggers_types", query)
}

/// Reads the answer of a read: a refusal quotes the body as it came.
pub fn get_answer(
    status: u16,
    status_line: &str,
    body_text: &str,
    parsed: Result<Json, String>,
) -> (r: Result<Json, String>)
    ensures
        !(200 <= status < 300) ==> r is Err && r->Err_0@ == "Composio API "@ + status_line@ + ": "@
            + body_text@,
        200 <= status < 300 ==> match parsed {
            Ok(v) => r == Ok::<Json, String>(v),
            Err(e) => r is Err && r->Err_0@ == "Composio response parse error: "@ + e@,
        },
{
    if status < 200 || status >= 300 {
        let mut m = "Composio API ".to_string();
        m.append(status_line);
        m.append(": ");
        m.append(body_text);
        return Err(m);
    }
    match parsed {
        Ok(v) => Ok(v),
        Err(e) => {
            let mut m = "Composio response parse error: ".to_string();
            m.append(e.as_str());
            Err(m)
        },
    }
}

/// A read that is sent carries the key to an https host of the allowlist only, and no query pair
/// without a value.
pub proof fn law_the_key_stays_on_the_allowlist(
    key: Option<Seq<char>>,
    configured: Option<Seq<char>>,
    path: Seq<char>,
    query: Seq<(Seq<char>, Seq<char>)>,
    i: int,
)
    requires
        asked(key, configured, path, query) is Ok,
    ensures
        ({
            let sent = asked(key, configured, path, query)->Ok_0;
            let parsed = weburl::parsed_url(base_of(configured));
            &&& key == Some(sent.key)
            &&& sent.url == base_of(configured) + path
            &&& parsed is Ok && parsed->Ok_0.scheme == "https"@
            &&& parsed->Ok_0.host is Some && allowed_host(parsed->Ok_0.host->0)
            &&& 0 <= i < sent.pairs.len() ==> sent.pairs[i].1.len() > 0
        }),
{
    rows::lemma_kept(query, sent_pair());
}

// ---- list answers -----------------------------------------------------------------------------

/// The members that may hold the items of a list answer.
pub open spec fn list_keys() -> Seq<Seq<char>> {
    seq!["items"@, "data"@]
}

/// Pulls the result array out of a list answer, tolerant of shape: `items`, `data`, or a bare
/// array.
pub fn items_of(v: &Json) -> (out: Vec<Json>)
    ensures
        out.deep_view() == json::list_items(v.deep_view(), list_keys()),
{
    let keys: [&'static str; 2] = ["items", "data"];
    assert(json::names(keys@) =~= list_keys());
    items_under(v, &keys)
}

/// Text, or nothing.
pub open spec fn or_empty(s: Option<Seq<char>>) -> Seq<char> {
    match s {
        Some(t) => t,
        None => Seq::empty(),
    }
}

/// A member, or null.
pub open spec fn member_or_null(v: JsonView, key: Seq<char>) -> JsonView {
    match v.get(key) {
        Some(m) => m,
        None => JsonView::Null,
    }
}

/// A toolkit as the catalog lists it; one without a slug is not listed.
pub open spec fn toolkit_entry() -> spec_fn(JsonView) -> Option<JsonView> {
    |t: JsonView|
        {
            let slug = or_empty(json::first_field(t, seq!["slug"@, "key"@, "name"@]));
            if slug.len() == 0 {
                None
            } else {
                Some(
                    JsonView::Object(
                        seq![
                            ("slug"@, JsonView::Text(slug)),
                            (
                                "name"@,
                                JsonView::Text(
                                    or_empty(
                                        json::first_field(
                                            t,
                                            seq!["name"@, "display_name"@, "slug"@],
                                        ),
                                    ),
                                ),
                            ),
                            (
                                "description"@,
                                json::text_or_null(
                                    json::first_field(t, seq!["description"@, "desc"@]),
                                ),
                            ),
                            (
                                "logo"@,
                                json::text_or_null(
                                    json::first_field(t, seq!["logo"@, "logo_url"@, "icon"@]),
                                ),
                            ),
                            ("categories"@, member_or_null(t, "categories"@)),
                        ],
                    ),
                )
            }
        }
}

/// The head that actions and trigger types share: name, display name, description and
/// toolkit.
pub open spec fn entry_head(a: JsonView, toolkit: Seq<char>) -> Seq<(Seq<char>, JsonView)> {
    seq![
        (
            "name"@,
            JsonView::Text(or_empty(json::first_field(a, seq!["slug"@, "name"@, "enum"@]))),
        ),
        (
            "display_name"@,
            JsonView::Text(
                or_empty(json::first_field(a, seq!["display_name"@, "name"@, "slug"@])),
            ),
        ),
        (
            "description"@,
            json::text_or_null(json::first_field(a, seq!["description"@, "desc"@])),
        ),
        (
            "toolkit"@,
            JsonView::Text(
                match json::first_field(a, seq!["toolkit_slug"@, "toolkit"@, "app_name"@]) {
                    Some(t) => t,
                    None => toolkit,
                },
            ),
        ),
    ]
}

/// The entry has a name.
pub open spec fn is_named(a: JsonView) -> bool {
    json::first_field(a, seq!["slug"@, "name"@, "enum"@]) is Some
}

/// An action as the catalog lists it; one without a name is not listed.
pub open spec fn action_entry(toolkit: Seq<char>) -> spec_fn(JsonView) -> Option<JsonView> {
    |a: JsonView|
        if is_named(a) {
            Some(
                JsonView::Object(
                    entry_head(a, toolkit).push(
                        (
                            "no_auth"@,
                            JsonView::Bool(
                                match a.get("no_auth"@) {
                                    Some(JsonView::Bool(b)) => b,
                                    _ => false,
                                },
                            ),
                        ),
                    ),
                ),
            )
        } else {
            None
        }
}

/// A trigger type as the catalog lists it; one without a name is not listed.
pub open spec fn trigger_entry(toolkit: Seq<char>) -> spec_fn(JsonView) -> Option<JsonView> {
    |a: JsonView|
        if is_named(a) {
            Some(
                JsonView::Object(
                    entry_head(a, toolkit).push(("config"@, member_or_null(a, "config"@))),
                ),
            )
        } else {
            None
        }
}

pub(crate) fn unwrap_text(s: Option<String>) -> (r: String)
    ensures
        r@ == or_empty(s.deep_view()),
{
    match s {
        Some(t) => t,
        None => String::new(),
    }
}

fn copy_member(v: &Json, key: &str) -> (r: Json)
    ensures
        r.deep_view() == member_or_null(v.deep_view(), key@),
{
    match v.get(key) {
        Some(m) => m.clone(),
        None => Json::Null,
    }
}

pub(crate) fn field2(item: &Json, a: &'static str, b: &'static str) -> (r: Option<String>)
    ensures
        r.deep_view() == json::first_field(item.deep_view(), seq![a@, b@]),
{
    let keys: [&'static str; 2] = [a, b];
    assert(json::names(keys@) =~= seq![a@, b@]);
    str_field(item, &keys)
}

pub(crate) fn field3(item: &Json, a: &'static str, b: &'static str, c: &'static str) -> (r: Option<String>)
    ensures
        r.deep_view() == json::first_field(item.deep_view(), seq![a@, b@, c@]),
{
    let keys: [&'static str; 3] = [a, b, c];
    assert(json::names(keys@) =~= seq![a@, b@, c@]);
    str_field(item, &keys)
}

fn entry_members(a: &Json, toolkit: &str) -> (m: Vec<(String, Json)>)
    ensures
        json::members(m@) == entry_head(a.deep_view(), toolkit@),
{
    let mut m: Vec<(String, Json)> = Vec::new();
    put(&mut m, "name", Json::Text(unwrap_text(field3(a, "slug", "name", "enum"))));
    put(
        &mut m,
        "display_name",
        Json::Text(unwrap_text(field3(a, "display_name", "name", "slug"))),
    );
    put(&mut m, "description", opt_text(field2(a, "description", "desc")));
    let kit = match field3(a, "toolkit_slug", "toolkit", "app_name") {
        Some(t) => t,
        None => toolkit.to_string(),
    };
    put(&mut m, "toolkit", Json::Text(kit));
    m
}

/// `{ "object": "list", "data": [...] }`.
pub open spec fn plain_list(data: Seq<JsonView>) -> JsonView {
    JsonView::Object(
        seq![("object"@, JsonView::Text("list"@)), ("data"@, JsonView::Array(data))],
    )
}

/// `{ "object": "list", "toolkit": ..., "data": [...] }`.
pub open spec fn toolkit_list(toolkit: Seq<char>, data: Seq<JsonView>) -> JsonView {
    JsonView::Object(
        seq![
            ("object"@, JsonView::Text("list"@)),
            ("toolkit"@, JsonView::Text(toolkit)),
            ("data"@, JsonView::Array(data)),
        ],
    )
}

/// A list answer around the entries.
pub fn list_answer(data: Vec<Json>) -> (r: Json)
    ensures
        r.deep_view() == plain_list(data.deep_view()),
{
    let mut m: Vec<(String, Json)> = Vec::new();
    put(&mut m, "object", Json::text("list"));
    put(&mut m, "data", array(data));
    let r = object(m);
    assert(r.deep_view()->Object_0 =~= plain_list(data.deep_view())->Object_0);
    r
}

fn toolkit_answer(toolkit: &str, data: Vec<Json>) -> (r: Json)
    ensures
        r.deep_view() == toolkit_list(toolkit@, data.deep_view()),
{
    let mut m: Vec<(String, Json)> = Vec::new();
    put(&mut m, "object", Json::text("list"));
    put(&mut m, "toolkit", Json::text(toolkit));
    put(&mut m, "data", array(data));
    let r = object(m);
    assert(r.deep_view()->Object_0 =~= toolkit_list(toolkit@, data.deep_view())->Object_0);
    r
}

/// Reads the answer of the toolkit list.
pub fn list_toolkits(raw: &Json) -> (r: Json)
    ensures
        r.deep_view() == plain_list(
            rows::picked(json::list_items(raw.deep_view(), list_keys()), toolkit_entry()),
        ),
{
    let items = items_of(raw);
    let entry = |t: &Json| -> (o: Option<Json>)
        ensures
            o.deep_view() == toolkit_entry()(t.deep_view()),
        {
            let slug = unwrap_text(field3(t, "slug", "key", "name"));
            if slug.as_str().is_empty() {
                None
            } else {
                let mut m: Vec<(String, Json)> = Vec::new();
                put(&mut m, "slug", Json::Text(slug));
                put(
                    &mut m,
                    "name",
                    Json::Text(unwrap_text(field3(t, "name", "display_name", "slug"))),
                );
                put(&mut m, "description", opt_text(field2(t, "description", "desc")));
                put(&mut m, "logo", opt_text(field3(t, "logo", "logo_url", "icon")));
                put(&mut m, "categories", copy_member(t, "categories"));
                let o = object(m);
                assert(o.deep_view()->Object_0 =~= toolkit_entry()(
                    t.deep_view(),
                )->0->Object_0);
                Some(o)
            }
        };
    list_answer(pick_rows(&items, entry, Ghost(toolkit_entry())))
}

/// Reads the answer of the action list of a toolkit.
pub fn list_actions(raw: &Json, toolkit: &str) -> (r: Json)
    ensures
        r.deep_view() == toolkit_list(
            toolkit@,
            rows::picked(json::list_items(raw.deep_view(), list_keys()), action_entry(toolkit@)),
        ),
{
    let items = items_of(raw);
    let entry = |a: &Json| -> (o: Option<Json>)
        ensures
            o.deep_view() == action_entry(toolkit@)(a.deep_view()),
        {
            if field3(a, "slug", "name", "enum").is_none() {
                None
            } else {
                let mut m = entry_members(a, toolkit);
                let no_auth: bool = match a.get("no_auth") {
                    Some(v) => match v.as_bool() {
                        Some(b) => b,
                        None => false,
                    },
                    None => false,
                };
                put(&mut m, "no_auth", Json::Bool(no_auth));
                Some(object(m))
            }
        };
    toolkit_answer(toolkit, pick_rows(&items, entry, Ghost(action_entry(toolkit@))))
}

/// Reads the answer of the trigger-type list of a toolkit.
pub fn list_triggers(raw: &Json, toolkit: &str) -> (r: Json)
    ensures
        r.deep_view() == toolkit_list(
            toolkit@,
            rows::picked(json::list_items(raw.deep_view(), list_keys()), trigger_entry(toolkit@)),
        ),
{
    let items = items_of(raw);
    let entry = |a: &Json| -> (o: Option<Json>)
        ensures
            o.deep_view() == trigger_entry(toolkit@)(a.deep_view()),
        {
            if field3(a, "slug", "name", "enum").is_none() {
                None
            } else {
                let mut m = entry_members(a, toolkit);
                put(&mut m, "config", copy_member(a, "config"));
                Some(object(m))
            }
        };
    toolkit_answer(toolkit, pick_rows(&items, entry, Ghost(trigger_entry(toolkit@))))
}

} // verus!
