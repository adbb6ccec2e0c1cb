//! Connecting a user's account to a toolkit ahead of any run: where the requests go, what they
//! carry, and how the answers are read.
use crate::auth;
use crate::auth::filled;
use crate::catalog;
use crate::catalog::{
    build_get, field2, field3, is_allowed_host, list_answer, unwrap_text, GetRequest, GetRequestView,
};
use crate::execute;
use crate::execute::{failure_text, ExecRequest, ExecRequestView};
use crate::json;
use crate::json::{items_under, object, put, str_field, Json, JsonView};
use crate::rows;
use crate::rows::pick_rows;
use crate::text;
use crate::text::{eq_ignore_case, is_blank, starts_with_str, str_eq};
use crate::weburl;
use crate::weburl::{parse_url, UrlView, WebUrl};
use vstd::prelude::*;

verus! {

/// The Composio entity for connecting and listing: the `COMPOSIO_ENTITY_ID` value, or
/// `"default"`.
pub fn entity(configured: Option<&str>) -> (r: String)
    ensures
        r@ == execute::entity_of(None, configured.deep_view()),
{
    match filled(configured) {
        Some(e) => e,
        None => "default".to_string(),
    }
}

/// The base of the connect endpoints for a parsed catalog base, or why it is refused.
pub open spec fn connect_base(parsed: Result<UrlView, Seq<char>>) -> Result<Seq<char>, Seq<char>> {
    match parsed {
        Err(e) => Err("invalid Composio base URL: "@ + e),
        Ok(u) => if u.scheme != "https"@ {
            Err("Composio base URL must be https"@)
        } else {
            match u.host {
                None => Err("Composio base URL has no host"@),
                Some(h) => if catalog::allowed_host(h) {
                    Ok("https://"@ + h + "/api/v3"@)
                } else {
                    Err("Composio host '"@ + h + "' is not allowlisted"@)
                },
            }
        },
    }
}

/// The view of a text or an error message.
pub open spec fn text_result(r: Result<String, String>) -> Result<Seq<char>, Seq<char>> {
    match r {
        Ok(s) => Ok(s@),
        Err(e) => Err(e@),
    }
}

/// The base of the connect endpoints for a parsed catalog base.
pub fn connect_base_of(parsed: Result<WebUrl, String>) -> (r: Result<String, String>)
    ensures
        text_result(r) == connect_base(weburl::url_result(parsed)),
{
    match parsed {
        Err(e) => {
            let mut m = "invalid Composio base URL: ".to_string();
            m.append(e.as_str());
            Err(m)
        },
        Ok(u) => {
            if !str_eq(u.scheme.as_str(), "https") {
                return Err("Composio base URL must be https".to_string());
            }
            match &u.host {
                None => Err("Composio base URL has no host".to_string()),
                Some(h) => {
                    if is_allowed_host(h.as_str()) {
                        let mut base = "https://".to_string();
                        base.append(h.as_str());
                        base.append("/api/v3");
                        Ok(base)
                    } else {
                        let mut m = "Composio host '".to_string();
                        m.append(h.as_str());
                        m.append("' is not allowlisted");
                        Err(m)
                    }
                },
            }
        },
    }
}

/// The base of the connect endpoints, rebuilt from the host of the catalog base.
pub fn connect_base_url(configured: Option<&str>) -> (r: Result<String, String>)
    ensures
        text_result(r) == connect_base(
            weburl::parsed_url(catalog::base_of(configured.deep_view())),
        ),
{
    let base = catalog::base_url(configured);
    connect_base_of(parse_url(base.as_str()))
}

/// What a failed request is reported as.
pub fn api_error(status_line: &str, body: &Json, body_text: &str) -> (r: String)
    ensures
        r@ == "Composio API "@ + status_line@ + ": "@ + execute::failure_message(
            body.deep_view(),
            body_text@,
        ),
{
    let mut m = "Composio API ".to_string();
    m.append(status_line);
    m.append(": ");
    m.append(failure_text(body, body_text).as_str());
    m
}

/// What a connect request without a key is answered.
pub open spec fn no_key_text() -> Seq<char> {
    "Composio API key not set (Gateway → Keys)"@
}

/// The read of `path` in the connect API: it needs a key, and a host that may receive it.
pub open spec fn asked(
    key: Option<Seq<char>>,
    configured: Option<Seq<char>>,
    path: Seq<char>,
    query: Seq<(Seq<char>, Seq<char>)>,
) -> Result<GetRequestView, Seq<char>> {
    match key {
        None => Err(no_key_text()),
        Some(k) => match connect_base(weburl::parsed_url(catalog::base_of(configured))) {
            Ok(base) => Ok(catalog::get_of(base, k, path, query)),
            Err(m) => Err(m),
        },
    }
}

/// Which read of the connect API is sent, or why none is.
pub fn get_request(
    key: Option<String>,
    configured: Option<&str>,
    path: &str,
    query: Vec<(String, String)>,
) -> (r: Result<GetRequest, String>)
    ensures
        catalog::get_result(r) == asked(
            key.deep_view(),
            configured.deep_view(),
            path@,
            query.deep_view(),
        ),
{
    let key = match key {
        Some(k) => k,
        None => {
            return Err("Composio API key not set (Gateway → Keys)".to_string());
        },
    };
    match connect_base_url(configured) {
        Ok(base) => Ok(build_get(base, key, path, query)),
        Err(m) => Err(m),
    }
}

/// The request for an entity's connected accounts; an empty toolkit asks for all of them.
pub fn connections_request(
    key: Option<String>,
    configured: Option<&str>,
    entity: &str,
    toolkit: &str,
) -> (r: Result<GetRequest, String>)
    ensures
        catalog::get_result(r) == asked(
            key.deep_view(),
            configured.deep_view(),
            "/connected_accounts"@,
            seq![("user_ids"@, entity@), ("toolkit_slugs"@, toolkit@)],
        ),
{
    let mut query: Vec<(String, String)> = Vec::new();
    query.push(("user_ids".to_string(), entity.to_string()));
    query.push(("toolkit_slugs".to_string(), toolkit.to_string()));
    assert(query.deep_view() =~= seq![("user_ids"@, entity@), ("toolkit_slugs"@, toolkit@)]);
    get_request(key, configured, "/connected_accounts", query)
}

/// The request for the auth configs of a toolkit.
pub fn auth_configs_request(key: Option<String>, configured: Option<&str>, toolkit: &str) -> (r:
    Result<GetRequest, String>)
    ensures
        catalog::get_result(r) == asked(
            key.deep_view(),
            configured.deep_view(),
            "/auth_configs"@,
            seq![("toolkit_slug"@, toolkit@)],
        ),
{
    let mut query: Vec<(String, String)> = Vec::new();
    query.push(("toolkit_slug".to_string(), toolkit.to_string()));
    assert(query.deep_view() =~= seq![("toolkit_slug"@, toolkit@)]);
    get_request(key, configured, "/auth_configs", query)
}

/// The request for one connection; it needs an id.
pub fn status_request(key: Option<String>, configured: Option<&str>, id: &str) -> (r: Result<
    GetRequest,
    String,
>)
    ensures
        text::blank(id@) ==> r is Err && r->Err_0@ == "connection id is required"@,
        !text::blank(id@) ==> catalog::get_result(r) == asked(
            key.deep_view(),
            configured.deep_view(),
            "/connected_accounts/"@ + id@,
            Seq::empty(),
        ),
{
    match check_connection_id(id) {
        Ok(_) => {},
        Err(m) => {
            return Err(m);
        },
    }
    let mut path = "/connected_accounts/".to_string();
    path.append(id);
    let query: Vec<(String, String)> = Vec::new();
    assert(query.deep_view() =~= Seq::empty());
    get_request(key, configured, path.as_str(), query)
}

/// The view of a write, or of the refusal to make one.
pub open spec fn post_result(r: Result<ExecRequest, String>) -> Result<ExecRequestView, Seq<char>> {
    match r {
        Ok(q) => Ok(q.deep_view()),
        Err(m) => Err(m@),
    }
}

/// The write of `body` to `path` in the connect API.
pub open spec fn posted(
    key: Option<Seq<char>>,
    configured: Option<Seq<char>>,
    path: Seq<char>,
    body: JsonView,
) -> Result<ExecRequestView, Seq<char>> {
    match key {
        None => Err(no_key_text()),
        Some(k) => match connect_base(weburl::parsed_url(catalog::base_of(configured))) {
            Ok(base) => Ok(ExecRequestView { url: base + path, key: k, body }),
            Err(m) => Err(m),
        },
    }
}

/// Which write to the connect API is sent, or why none is.
pub fn post_request(key: Option<String>, configured: Option<&str>, path: &str, body: Json) -> (r:
    Result<ExecRequest, String>)
    ensures
        post_result(r) == posted(
            key.deep_view(),
            configured.deep_view(),
            path@,
            body.deep_view(),
        ),
{
    let key = match key {
        Some(k) => k,
        None => {
            return Err("Composio API key not set (Gateway → Keys)".to_string());
        },
    };
    match connect_base_url(configured) {
        Ok(base) => {
            let mut url = base;
            url.append(path);
            Ok(ExecRequest { url, key, body })
        },
        Err(m) => Err(m),
    }
}

/// Reads the answer of a write.
pub fn post_answer(status: u16, status_line: &str, body: Json, body_text: &str) -> (r: Result<
    Json,
    String,
>)
    ensures
        200 <= status < 300 ==> r == Ok::<Json, String>(body),
        !(200 <= status < 300) ==> r is Err && r->Err_0@ == "Composio API "@ + status_line@ + ": "@
            + execute::failure_message(body.deep_view(), body_text@),
{
    if status >= 200 && status < 300 {
        Ok(body)
    } else {
        Err(api_error(status_line, &body, body_text))
    }
}

/// The write that creates a managed auth config for a toolkit.
pub fn create_config_request(key: Option<String>, configured: Option<&str>, toolkit: &str) -> (r:
    Result<ExecRequest, String>)
    ensures
        post_result(r) == posted(
            key.deep_view(),
            configured.deep_view(),
            "/auth_configs"@,
            managed_config(toolkit@),
        ),
{
    post_request(key, configured, "/auth_configs", auth_config_body(toolkit))
}

/// The write that links an account of an entity.
pub fn link_request(
    key: Option<String>,
    configured: Option<&str>,
    auth_config: &str,
    entity: &str,
) -> (r: Result<ExecRequest, String>)
    ensures
        post_result(r) == posted(
            key.deep_view(),
            configured.deep_view(),
            "/connected_accounts/link"@,
            account_link(auth_config@, entity@),
        ),
{
    post_request(key, configured, "/connected_accounts/link", link_body(auth_config, entity))
}

/// A connect request that is sent carries the key to an https host of the allowlist only.
pub proof fn law_connect_requests_stay_on_the_allowlist(
    key: Option<Seq<char>>,
    configured: Option<Seq<char>>,
    path: Seq<char>,
    query: Seq<(Seq<char>, Seq<char>)>,
    body: JsonView,
)
    ensures
        asked(key, configured, path, query) is Ok <==> posted(key, configured, path, body) is Ok,
        asked(key, configured, path, query) is Ok ==> exists|host: Seq<char>|
            #[trigger] catalog::allowed_host(host) && asked(
                key,
                configured,
                path,
                query,
            )->Ok_0.url == "https://"@ + host + "/api/v3"@ + path && posted(
                key,
                configured,
                path,
                body,
            )->Ok_0.url == "https://"@ + host + "/api/v3"@ + path,
{
}

/// The members that may hold the items of a connection list.
pub open spec fn connection_keys() -> Seq<Seq<char>> {
    seq!["items"@, "data"@, "connected_accounts"@, "accounts"@]
}

/// Pulls the result array out of a list answer: `items`, `data`, `connected_accounts`,
/// `accounts`, or a bare array.
pub fn items_of(v: &Json) -> (out: Vec<Json>)
    ensures
        out.deep_view() == json::list_items(v.deep_view(), connection_keys()),
{
    let keys: [&'static str; 4] = ["items", "data", "connected_accounts", "accounts"];
    assert(json::names(keys@) =~= connection_keys());
    items_under(v, &keys)
}

/// Whether a connection status means "ready to use".
pub fn is_active_status(status: &str) -> (b: bool)
    ensures
        b == text::eq_nocase(status@, "ACTIVE"@),
{
    eq_ignore_case(status, "ACTIVE")
}

/// The toolkit of a connection record.
pub open spec fn connection_toolkit(item: JsonView) -> Seq<char> {
    match json::first_field(
        item,
        seq!["toolkit_slug"@, "toolkit"@, "app_name"@, "appName"@, "appUniqueId"@],
    ) {
        Some(t) => t,
        None => match item.get("toolkit"@) {
            Some(t) => match t.get("slug"@) {
                Some(JsonView::Text(s)) => s,
                _ => Seq::empty(),
            },
            None => Seq::empty(),
        },
    }
}

/// The id of a connection record.
pub open spec fn connection_id(item: JsonView) -> Seq<char> {
    catalog::or_empty(
        json::first_field(item, seq!["id"@, "connected_account_id"@, "nanoid"@]),
    )
}

/// `{ id, toolkit, status, active }` of a connection record under the given id.
pub open spec fn connection_entry(item: JsonView, id: Seq<char>) -> JsonView {
    let status = catalog::or_empty(
        json::first_field(item, seq!["status"@, "state"@, "connectionStatus"@]),
    );
    JsonView::Object(
        seq![
            ("id"@, JsonView::Text(id)),
            ("toolkit"@, JsonView::Text(connection_toolkit(item))),
            ("status"@, JsonView::Text(status)),
            ("active"@, JsonView::Bool(text::eq_nocase(status, "ACTIVE"@))),
        ],
    )
}

fn read_connection(item: &Json, id: String) -> (r: Json)
    ensures
        r.deep_view() == connection_entry(item.deep_view(), id@),
{
    let status = unwrap_text(field3(item, "status", "state", "connectionStatus"));
    let keys: [&'static str; 5] = ["toolkit_slug", "toolkit", "app_name", "appName", "appUniqueId"];
    assert(json::names(keys@) =~= seq![
        "toolkit_slug"@,
        "toolkit"@,
        "app_name"@,
        "appName"@,
        "appUniqueId"@,
    ]);
    let toolkit: String = match str_field(item, &keys) {
        Some(t) => t,
        None => match item.get("toolkit") {
            Some(t) => match t.get("slug") {
                Some(v) => match v.as_str() {
                    Some(s) => s.to_string(),
                    None => String::new(),
                },
                None => String::new(),
            },
            None => String::new(),
        },
    };
    let active = is_active_status(status.as_str());
    let mut m: Vec<(String, Json)> = Vec::new();
    put(&mut m, "id", Json::Text(id));
    put(&mut m, "toolkit", Json::Text(toolkit));
    put(&mut m, "status", Json::Text(status));
    put(&mut m, "active", Json::Bool(active));
    let r = object(m);
    assert(r.deep_view()->Object_0 =~= connection_entry(item.deep_view(), id@)->Object_0);
    r
}

/// Normalizes one connected-account record to `{ id, toolkit, status, active }`.
pub fn normalize_connection(item: &Json) -> (r: Json)
    ensures
        r.deep_view() == connection_entry(item.deep_view(), connection_id(item.deep_view())),
{
    let id = unwrap_text(field3(item, "id", "connected_account_id", "nanoid"));
    read_connection(item, id)
}

/// A connection as the list shows it; one without an id is not listed.
pub open spec fn listed_connection() -> spec_fn(JsonView) -> Option<JsonView> {
    |item: JsonView|
        if connection_id(item).len() == 0 {
            None
        } else {
            Some(connection_entry(item, connection_id(item)))
        }
}

/// Reads the answer of the connection list.
pub fn list_connections(raw: &Json) -> (r: Json)
    ensures
        r.deep_view() == catalog::plain_list(
            rows::picked(
                json::list_items(raw.deep_view(), connection_keys()),
                listed_connection(),
            ),
        ),
{
    let items = items_of(raw);
    let entry = |item: &Json| -> (o: Option<Json>)
        ensures
            o.deep_view() == listed_connection()(item.deep_view()),
        {
            let id = unwrap_text(field3(item, "id", "connected_account_id", "nanoid"));
            if id.as_str().is_empty() {
                None
            } else {
                Some(read_connection(item, id))
            }
        };
    list_answer(pick_rows(&items, entry, Ghost(listed_connection())))
}

/// The id of an auth config record.
pub open spec fn auth_config_id(v: JsonView) -> Option<Seq<char>> {
    json::first_field(v, seq!["id"@, "nanoid"@, "auth_config_id"@])
}

/// The id of the first record that has one.
pub open spec fn first_id(items: Seq<JsonView>) -> Option<Seq<char>>
    decreases items.len(),
{
    if items.len() == 0 {
        None
    } else {
        match auth_config_id(items[0]) {
            Some(id) => Some(id),
            None => first_id(items.skip(1)),
        }
    }
}

/// The auth config that already exists for a toolkit, if the list answer names one.
pub fn existing_auth_config(raw: &Json) -> (r: Option<String>)
    ensures
        r.deep_view() == first_id(json::list_items(raw.deep_view(), connection_keys())),
{
    let items = items_of(raw);
    let ghost all = items.deep_view();
    let mut i: usize = 0;
    assert(all.skip(0) =~= all);
    while i < items.len()
        invariant
            all == items.deep_view(),
            all == json::list_items(raw.deep_view(), connection_keys()),
            i <= items.len(),
            first_id(all) == first_id(all.skip(i as int)),
        decreases items.len() - i,
    {
        let ghost rest = all.skip(i as int);
        assert(rest.skip(1) =~= all.skip(i + 1));
        match field3(&items[i], "id", "nanoid", "auth_config_id") {
            Some(id) => {
                return Some(id);
            },
            None => {},
        }
        i += 1;
    }
    None
}

/// The body that asks for a managed auth config of a toolkit.
pub open spec fn managed_config(toolkit: Seq<char>) -> JsonView {
    JsonView::Object(
        seq![
            ("toolkit"@, JsonView::Object(seq![("slug"@, JsonView::Text(toolkit))])),
            (
                "auth_config"@,
                JsonView::Object(seq![("type"@, JsonView::Text("use_composio_managed_auth"@))]),
            ),
        ],
    )
}

/// The request that creates a managed auth config for a toolkit.
pub fn auth_config_body(toolkit: &str) -> (r: Json)
    ensures
        r.deep_view() == managed_config(toolkit@),
{
    let mut slug: Vec<(String, Json)> = Vec::new();
    put(&mut slug, "slug", Json::text(toolkit));
    assert(json::members(slug@) =~= seq![("slug"@, JsonView::Text(toolkit@))]);
    let mut kind: Vec<(String, Json)> = Vec::new();
    put(&mut kind, "type", Json::text("use_composio_managed_auth"));
    assert(json::members(kind@) =~= seq![("type"@, JsonView::Text("use_composio_managed_auth"@))]);
    let mut m: Vec<(String, Json)> = Vec::new();
    put(&mut m, "toolkit", object(slug));
    put(&mut m, "auth_config", object(kind));
    assert(json::members(m@) =~= seq![
        ("toolkit"@, JsonView::Object(seq![("slug"@, JsonView::Text(toolkit@))])),
        (
            "auth_config"@,
            JsonView::Object(seq![("type"@, JsonView::Text("use_composio_managed_auth"@))]),
        ),
    ]);
    object(m)
}

/// The id in an optional scope.
pub open spec fn scope_id(v: Option<JsonView>) -> Option<Seq<char>> {
    match v {
        Some(s) => auth_config_id(s),
        None => None,
    }
}

/// The id of a config that was just created: at the top level, under `auth_config`, or under
/// `data`.
pub open spec fn created_id(created: JsonView) -> Option<Seq<char>> {
    execute::first_of(
        auth_config_id(created),
        execute::first_of(scope_id(created.get("auth_config"@)), scope_id(created.get("data"@))),
    )
}

/// The id of a config that was just created.
pub fn created_auth_config(created: &Json) -> (r: Result<String, String>)
    ensures
        match created_id(created.deep_view()) {
            Some(id) => r is Ok && r->Ok_0@ == id,
            None => r is Err && r->Err_0@
                == "Composio auth config created but no id was returned"@,
        },
{
    match field3(created, "id", "nanoid", "auth_config_id") {
        Some(id) => {
            return Ok(id);
        },
        None => {},
    }
    match created.get("auth_config") {
        Some(s) => match field3(s, "id", "nanoid", "auth_config_id") {
            Some(id) => {
                return Ok(id);
            },
            None => {},
        },
        None => {},
    }
    match created.get("data") {
        Some(s) => match field3(s, "id", "nanoid", "auth_config_id") {
            Some(id) => {
                return Ok(id);
            },
            None => {},
        },
        None => {},
    }
    Err("Composio auth config created but no id was returned".to_string())
}

/// Refuses to connect a toolkit without a name.
pub fn check_toolkit(toolkit: &str) -> (r: Result<(), String>)
    ensures
        text::blank(toolkit@) ==> r is Err && r->Err_0@ == "toolkit is required to connect"@,
        !text::blank(toolkit@) ==> r is Ok,
{
    if is_blank(toolkit) {
        Err("toolkit is required to connect".to_string())
    } else {
        Ok(())
    }
}

/// The body that links an account of an entity.
pub open spec fn account_link(auth_config: Seq<char>, entity: Seq<char>) -> JsonView {
    JsonView::Object(
        seq![
            ("auth_config_id"@, JsonView::Text(auth_config)),
            ("user_id"@, JsonView::Text(entity)),
        ],
    )
}

/// The request that links an account.
pub fn link_body(auth_config: &str, entity: &str) -> (r: Json)
    ensures
        r.deep_view() == account_link(auth_config@, entity@),
{
    let mut m: Vec<(String, Json)> = Vec::new();
    put(&mut m, "auth_config_id", Json::text(auth_config));
    put(&mut m, "user_id", Json::text(entity));
    assert(json::members(m@) =~= seq![
        ("auth_config_id"@, JsonView::Text(auth_config@)),
        ("user_id"@, JsonView::Text(entity@)),
    ]);
    object(m)
}

/// A redirect URL among the fields of a scope: the first field that holds something, where it
/// begins with `http`.
pub open spec fn redirect_in(v: Option<JsonView>) -> Option<Seq<char>> {
    match v {
        Some(s) => match json::first_field(
            s,
            seq!["redirect_url"@, "redirectUrl"@, "auth_url"@, "authUrl"@],
        ) {
            Some(u) => if text::begins_with(u, "http"@) {
                Some(u)
            } else {
                None
            },
            None => None,
        },
        None => None,
    }
}

/// A connection id among the fields of a scope.
pub open spec fn account_in(v: Option<JsonView>) -> Option<Seq<char>> {
    match v {
        Some(s) => json::first_field(
            s,
            seq!["id"@, "connected_account_id"@, "connectedAccountId"@, "nanoid"@],
        ),
        None => None,
    }
}

/// What a link answer comes to: the connection to open, or the message where it carries no
/// redirect URL. Both fields are looked up at the top level, then under `connection_data`,
/// `connectionData` and `data`.
pub open spec fn linked(resp: JsonView, toolkit: Seq<char>) -> Result<JsonView, Seq<char>> {
    let (a, b, c, d) = (
        Some(resp),
        resp.get("connection_data"@),
        resp.get("connectionData"@),
        resp.get("data"@),
    );
    let redirect = execute::first_of(
        redirect_in(a),
        execute::first_of(
            redirect_in(b),
            execute::first_of(redirect_in(c), redirect_in(d)),
        ),
    );
    let account = execute::first_of(
        account_in(a),
        execute::first_of(account_in(b), execute::first_of(account_in(c), account_in(d))),
    );
    match redirect {
        None => Err(
            "Composio did not return a redirect URL for the connection (toolkit '"@ + toolkit
                + "')"@,
        ),
        Some(url) => Ok(
            JsonView::Object(
                seq![
                    ("connection_id"@, JsonView::Text(catalog::or_empty(account))),
                    ("redirect_url"@, JsonView::Text(url)),
                    (
                        "status"@,
                        JsonView::Text(
                            match json::first_field(resp, seq!["status"@, "state"@]) {
                                Some(s) => s,
                                None => "INITIATED"@,
                            },
                        ),
                    ),
                ],
            ),
        ),
    }
}

fn redirect_of(v: Option<&Json>) -> (r: Option<String>)
    ensures
        r.deep_view() == redirect_in(v.deep_view()),
{
    match v {
        Some(s) => {
            let keys: [&'static str; 4] = ["redirect_url", "redirectUrl", "auth_url", "authUrl"];
            assert(json::names(keys@) =~= seq![
                "redirect_url"@,
                "redirectUrl"@,
                "auth_url"@,
                "authUrl"@,
            ]);
            match str_field(s, &keys) {
                Some(u) => {
                    if starts_with_str(u.as_str(), "http") {
                        Some(u)
                    } else {
                        None
                    }
                },
                None => None,
            }
        },
        None => None,
    }
}

fn account_of(v: Option<&Json>) -> (r: Option<String>)
    ensures
        r.deep_view() == account_in(v.deep_view()),
{
    match v {
        Some(s) => {
            let keys: [&'static str; 4] = [
                "id",
                "connected_account_id",
                "connectedAccountId",
                "nanoid",
            ];
            assert(json::names(keys@) =~= seq![
                "id"@,
                "connected_account_id"@,
                "connectedAccountId"@,
                "nanoid"@,
            ]);
            str_field(s, &keys)
        },
        None => None,
    }
}

fn or_else(a: Option<String>, b: Option<String>) -> (r: Option<String>)
    ensures
        r.deep_view() == execute::first_of(a.deep_view(), b.deep_view()),
{
    match a {
        Some(s) => Some(s),
        None => b,
    }
}

/// The view of a link answer.
pub open spec fn json_result(r: Result<Json, String>) -> Result<JsonView, Seq<char>> {
    match r {
        Ok(v) => Ok(v.deep_view()),
        Err(e) => Err(e@),
    }
}

/// Reads the answer of the link endpoint: `{ connection_id, redirect_url, status }`.
pub fn read_link(resp: &Json, toolkit: &str) -> (r: Result<Json, String>)
    ensures
        json_result(r) == linked(resp.deep_view(), toolkit@),
{
    let b = resp.get("connection_data");
    let c = resp.get("connectionData");
    let d = resp.get("data");
    let redirect = or_else(
        redirect_of(Some(resp)),
        or_else(redirect_of(b), or_else(redirect_of(c), redirect_of(d))),
    );
    let account = or_else(
        account_of(Some(resp)),
        or_else(account_of(b), or_else(account_of(c), account_of(d))),
    );
    match redirect {
        None => {
            let mut m =
                "Composio did not return a redirect URL for the connection (toolkit '".to_string();
            m.append(toolkit);
            m.append("')");
            Err(m)
        },
        Some(url) => {
            let mut m: Vec<(String, Json)> = Vec::new();
            put(&mut m, "connection_id", Json::Text(unwrap_text(account)));
            put(&mut m, "redirect_url", Json::Text(url));
            let status = match field2(resp, "status", "state") {
                Some(s) => s,
                None => "INITIATED".to_string(),
            };
            put(&mut m, "status", Json::Text(status));
            let r = object(m);
            assert(r.deep_view()->Object_0 =~= linked(resp.deep_view(), toolkit@)->Ok_0->Object_0);
            Ok(r)
        },
    }
}

/// Refuses to poll a connection without an id.
pub fn check_connection_id(id: &str) -> (r: Result<(), String>)
    ensures
        text::blank(id@) ==> r is Err && r->Err_0@ == "connection id is required"@,
        !text::blank(id@) ==> r is Ok,
{
    if is_blank(id) {
        Err("connection id is required".to_string())
    } else {
        Ok(())
    }
}

/// The record inside a status answer: under `account_details`, under `data`, or the answer
/// itself.
pub open spec fn status_record(raw: JsonView) -> JsonView {
    match raw.get("account_details"@) {
        Some(r) => r,
        None => match raw.get("data"@) {
            Some(r) => r,
            None => raw,
        },
    }
}

/// Reads the answer of the status endpoint; the queried id stands in where the answer omits
/// it.
pub fn connection_status(raw: &Json, id: &str) -> (r: Json)
    ensures
        ({
            let record = status_record(raw.deep_view());
            r.deep_view() == connection_entry(
                record,
                if connection_id(record).len() == 0 {
                    id@
                } else {
                    connection_id(record)
                },
            )
        }),
{
    let record = match raw.get("account_details") {
        Some(r) => r,
        None => match raw.get("data") {
            Some(r) => r,
            None => raw,
        },
    };
    let own = unwrap_text(field3(record, "id", "connected_account_id", "nanoid"));
    if own.as_str().is_empty() {
        read_connection(record, id.to_string())
    } else {
        read_connection(record, own)
    }
}

// ---- connecting a toolkit, step by step -------------------------------------------------------

/// What connecting a toolkit does next.
pub enum ConnectStep {
    /// Ask which auth configs the toolkit has.
    List,
    /// Create a managed auth config.
    Create,
    /// Link an account through this auth config.
    Link(String),
    /// The redirect to open, with the connection's id and status.
    Finished(Json),
    Failed(String),
}

/// The mathematical view of a [`ConnectStep`].
pub enum ConnectStepView {
    List,
    Create,
    Link(Seq<char>),
    Finished(JsonView),
    Failed(Seq<char>),
}

impl DeepView for ConnectStep {
    type V = ConnectStepView;

    open spec fn deep_view(&self) -> ConnectStepView {
        match self {
            ConnectStep::List => ConnectStepView::List,
            ConnectStep::Create => ConnectStepView::Create,
            ConnectStep::Link(id) => ConnectStepView::Link(id@),
            ConnectStep::Finished(v) => ConnectStepView::Finished(v.deep_view()),
            ConnectStep::Failed(m) => ConnectStepView::Failed(m@),
        }
    }
}

/// The first step of connecting a toolkit: a toolkit without a name is refused before anything
/// is sent.
pub fn initiate(toolkit: &str) -> (r: ConnectStep)
    ensures
        r.deep_view() == if text::blank(toolkit@) {
            ConnectStepView::Failed("toolkit is required to connect"@)
        } else {
            ConnectStepView::List
        },
{
    match check_toolkit(toolkit) {
        Ok(_) => ConnectStep::List,
        Err(m) => ConnectStep::Failed(m),
    }
}

/// The step after the auth configs were asked for. A config that exists is used again; a list
/// that could not be had counts as an empty one.
pub open spec fn listed_step(answer: Result<JsonView, Seq<char>>) -> ConnectStepView {
    match answer {
        Ok(raw) => match first_id(json::list_items(raw, connection_keys())) {
            Some(id) => ConnectStepView::Link(id),
            None => ConnectStepView::Create,
        },
        Err(_) => ConnectStepView::Create,
    }
}

/// The step after the auth configs were asked for.
pub fn ensure_auth_config(answer: Result<Json, String>) -> (r: ConnectStep)
    ensures
        r.deep_view() == listed_step(json_result(answer)),
{
    match answer {
        Ok(raw) => match existing_auth_config(&raw) {
            Some(id) => ConnectStep::Link(id),
            None => ConnectStep::Create,
        },
        Err(_) => ConnectStep::Create,
    }
}

/// The step after an auth config was created.
pub open spec fn created_step(answer: Result<JsonView, Seq<char>>) -> ConnectStepView {
    match answer {
        Ok(created) => match created_id(created) {
            Some(id) => ConnectStepView::Link(id),
            None => ConnectStepView::Failed("Composio auth config created but no id was returned"@),
        },
        Err(m) => ConnectStepView::Failed(m),
    }
}

/// The step after an auth config was created.
pub fn after_create(answer: Result<Json, String>) -> (r: ConnectStep)
    ensures
        r.deep_view() == created_step(json_result(answer)),
{
    match answer {
        Ok(created) => match created_auth_config(&created) {
            Ok(id) => ConnectStep::Link(id),
            Err(m) => ConnectStep::Failed(m),
        },
        Err(m) => ConnectStep::Failed(m),
    }
}

/// The step after an account was linked.
pub open spec fn linked_step(answer: Result<JsonView, Seq<char>>, toolkit: Seq<char>) ->
    ConnectStepView {
    match answer {
        Ok(resp) => match linked(resp, toolkit) {
            Ok(v) => ConnectStepView::Finished(v),
            Err(m) => ConnectStepView::Failed(m),
        },
        Err(m) => ConnectStepView::Failed(m),
    }
}

/// The step after an account was linked.
pub fn after_link(answer: Result<Json, String>, toolkit: &str) -> (r: ConnectStep)
    ensures
        r.deep_view() == linked_step(json_result(answer), toolkit@),
{
    match answer {
        Ok(resp) => match read_link(&resp, toolkit) {
            Ok(v) => ConnectStep::Finished(v),
            Err(m) => ConnectStep::Failed(m),
        },
        Err(m) => ConnectStep::Failed(m),
    }
}

/// Connecting ends: at most one config is created, and after a link was answered nothing more
/// is sent.
pub proof fn law_connecting_ends(
    answer: Result<JsonView, Seq<char>>,
    toolkit: Seq<char>,
)
    ensures
        listed_step(answer) is Create || listed_step(answer) is Link,
        created_step(answer) is Link || created_step(answer) is Failed,
        linked_step(answer, toolkit) is Finished || linked_step(answer, toolkit) is Failed,
{
}

} // verus!
