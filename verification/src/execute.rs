//! Running a Composio action: the request that is sent, and how the answer is read. An answer
//! that asks for a connected account is told apart from a result and from a failure.
use crate::auth;
use crate::auth::filled;
use crate::catalog;
use crate::catalog::{base_url, validate_base_url};
use crate::composio;
use crate::composio::{
    build_args, checked_action, key_precondition, sample_from, source_for, MetricError,
    MetricErrorView, MetricOutcome, MetricOutcomeView, PlatformMetricSource, SourceView,
};
use crate::json;
use crate::json::{object, put, Json, JsonView};
use crate::text;
use crate::text::{contains_str, starts_with_str, trim};
use crate::weburl;
use vstd::prelude::*;

verus! {

/// Server name of the Composio tools.
pub const SERVER_NAME: &'static str = "composio";

/// The outcome of a Composio action execution.
#[derive(Debug)]
pub enum ExecOutcome {
    /// A normal result payload, Composio's `data` unwrapped.
    Done(Json),
    /// The user has not connected the account yet: the message and, when present, the connect
    /// URL.
    NeedsConnection { message: String, url: Option<String> },
}

/// The view of an [`ExecOutcome`].
pub enum ExecOutcomeView {
    Done(JsonView),
    NeedsConnection { message: Seq<char>, url: Option<Seq<char>> },
}

impl DeepView for ExecOutcome {
    type V = ExecOutcomeView;

    open spec fn deep_view(&self) -> ExecOutcomeView {
        match self {
            ExecOutcome::Done(v) => ExecOutcomeView::Done(v.deep_view()),
            ExecOutcome::NeedsConnection { message, url } => ExecOutcomeView::NeedsConnection {
                message: message@,
                url: url.deep_view(),
            },
        }
    }
}

// ---- the request ---------------------------------------------------------------------------

/// The Composio entity for a call.
pub open spec fn entity_of(user_id: Option<Seq<char>>, configured: Option<Seq<char>>) -> Seq<
    char,
> {
    match auth::nonblank(user_id) {
        Some(u) => u,
        None => match auth::nonblank(configured) {
            Some(e) => e,
            None => "default"@,
        },
    }
}

/// Resolves the Composio entity for a call. A non-blank `user_id` always wins; the
/// `COMPOSIO_ENTITY_ID` value and then `"default"` are the fallback only.
pub fn resolve_entity(user_id: Option<&str>, configured: Option<&str>) -> (r: String)
    ensures
        r@ == entity_of(user_id.deep_view(), configured.deep_view()),
{
    match filled(user_id) {
        Some(u) => u,
        None => match filled(configured) {
            Some(e) => e,
            None => "default".to_string(),
        },
    }
}

/// The Composio execute base URL, refused where it is off policy, so that the key is never
/// sent to an unexpected host.
pub fn execute_base_url(configured: Option<&str>) -> (r: Result<String, String>)
    ensures
        ({
            let base = catalog::base_of(configured.deep_view());
            match catalog::base_verdict(weburl::parsed_url(base)) {
                Ok(_) => r is Ok && r->Ok_0@ == base,
                Err(m) => r is Err && r->Err_0@ == m,
            }
        }),
{
    let base = base_url(configured);
    match validate_base_url(base.as_str()) {
        Ok(_) => Ok(base),
        Err(m) => Err(m),
    }
}

/// What is sent to run an action.
#[derive(Debug)]
pub struct ExecRequest {
    pub url: String,
    /// The `x-api-key` header.
    pub key: String,
    pub body: Json,
}

/// The view of an [`ExecRequest`].
pub struct ExecRequestView {
    pub url: Seq<char>,
    pub key: Seq<char>,
    pub body: JsonView,
}

impl DeepView for ExecRequest {
    type V = ExecRequestView;

    open spec fn deep_view(&self) -> ExecRequestView {
        ExecRequestView { url: self.url@, key: self.key@, body: self.body.deep_view() }
    }
}

/// The request that runs `tool` on a base URL that passed.
pub open spec fn request_of(
    base: Seq<char>,
    key: Seq<char>,
    tool: Seq<char>,
    arguments: JsonView,
    entity: Seq<char>,
) -> ExecRequestView {
    ExecRequestView {
        url: base + "/tools/execute/"@ + tool,
        key,
        body: JsonView::Object(
            seq![
                ("arguments"@, arguments),
                ("user_id"@, JsonView::Text(entity)),
                ("entity_id"@, JsonView::Text(entity)),
            ],
        ),
    }
}

/// Builds the request on a base URL that passed.
pub fn build_request(base: &str, key: String, tool: &str, arguments: Json, entity: &str) -> (r:
    ExecRequest)
    ensures
        r.deep_view() == request_of(base@, key@, tool@, arguments.deep_view(), entity@),
{
    let mut url = base.to_string();
    url.append("/tools/execute/");
    url.append(tool);
    let mut m: Vec<(String, Json)> = Vec::new();
    put(&mut m, "arguments", arguments);
    put(&mut m, "user_id", Json::text(entity));
    put(&mut m, "entity_id", Json::text(entity));
    let body = object(m);
    assert(body.deep_view()->Object_0 =~= request_of(
        base@,
        key@,
        tool@,
        arguments.deep_view(),
        entity@,
    ).body->Object_0);
    ExecRequest { url, key, body }
}

/// The first half of running an action: which request is sent, or why none is.
pub fn dispatch_request(
    key: Option<String>,
    tool: &str,
    arguments: Json,
    user_id: Option<&str>,
    entity_env: Option<&str>,
    base_env: Option<&str>,
) -> (r: Result<ExecRequest, String>)
    ensures
        ({
            let base = catalog::base_of(base_env.deep_view());
            match key.deep_view() {
                None => r is Err && r->Err_0@
                    == "Composio API key not set (Settings → Integrations)"@,
                Some(k) => match catalog::base_verdict(weburl::parsed_url(base)) {
                    Ok(_) => r is Ok && r->Ok_0.deep_view() == request_of(
                        base,
                        k,
                        tool@,
                        arguments.deep_view(),
                        entity_of(user_id.deep_view(), entity_env.deep_view()),
                    ),
                    Err(m) => r is Err && r->Err_0@ == m,
                },
            }
        }),
{
    let key = match key {
        Some(k) => k,
        None => {
            return Err("Composio API key not set (Settings → Integrations)".to_string());
        },
    };
    let entity = resolve_entity(user_id, entity_env);
    match execute_base_url(base_env) {
        Ok(base) => Ok(build_request(base.as_str(), key, tool, arguments, entity.as_str())),
        Err(m) => Err(m),
    }
}

// ---- the answer ------------------------------------------------------------------------------

/// Phrases that say the user has not connected the account yet.
pub open spec fn connection_phrases() -> Seq<Seq<char>> {
    seq![
        "no connected account"@,
        "not connected"@,
        "no connection"@,
        "connection not found"@,
        "connected account"@,
        "needs to be connected"@,
        "please connect"@,
        "active connection"@,
        "no active connection"@,
        "auth config"@,
        "requires authentication"@,
    ]
}

/// The text holds one of the phrases.
pub open spec fn mentions_connection(t: Seq<char>) -> bool {
    exists|i: int|
        0 <= i < connection_phrases().len() && text::holds_text(
            t,
            #[trigger] connection_phrases()[i],
        )
}

/// Whether lower-case text mentions a missing connection.
pub fn is_connection_text(t: &str) -> (b: bool)
    ensures
        b == mentions_connection(t@),
{
    let a0 = contains_str(t, "no connected account");
    let a1 = contains_str(t, "not connected");
    let a2 = contains_str(t, "no connection");
    let a3 = contains_str(t, "connection not found");
    let a4 = contains_str(t, "connected account");
    let a5 = contains_str(t, "needs to be connected");
    let a6 = contains_str(t, "please connect");
    let a7 = contains_str(t, "active connection");
    let a8 = contains_str(t, "no active connection");
    let a9 = contains_str(t, "auth config");
    let a10 = contains_str(t, "requires authentication");
    a0 || a1 || a2 || a3 || a4 || a5 || a6 || a7 || a8 || a9 || a10
}

/// The members that may hold the error text.
pub open spec fn error_keys() -> Seq<Seq<char>> {
    seq!["error"@, "message"@, "detail"@, "errorMessage"@]
}

/// The first of the members that is a non-empty string.
pub open spec fn first_text(v: JsonView, keys: Seq<Seq<char>>) -> Option<Seq<char>>
    decreases keys.len(),
{
    if keys.len() == 0 {
        None
    } else {
        match json::filled_text(v.get(keys[0])) {
            Some(s) => Some(s),
            None => first_text(v, keys.skip(1)),
        }
    }
}

fn member_text(v: &Json, key: &str) -> (r: Option<String>)
    ensures
        r.deep_view() == json::filled_text(v.deep_view().get(key@)),
{
    match v.get(key) {
        Some(m) => match m.as_str() {
            Some(s) => {
                if s.is_empty() {
                    None
                } else {
                    Some(s.to_string())
                }
            },
            None => None,
        },
        None => None,
    }
}

/// Best-effort human-readable error text from a Composio answer.
pub fn error_text(body: &Json) -> (r: Option<String>)
    ensures
        r.deep_view() == first_text(body.deep_view(), error_keys()),
{
    proof {
        reveal_with_fuel(first_text, 5);
    }
    match member_text(body, "error") {
        Some(s) => Some(s),
        None => match member_text(body, "message") {
            Some(s) => Some(s),
            None => match member_text(body, "detail") {
                Some(s) => Some(s),
                None => member_text(body, "errorMessage"),
            },
        },
    }
}

/// The members that may hold a connect URL.
pub open spec fn url_keys() -> Seq<Seq<char>> {
    seq!["redirect_url"@, "redirectUrl"@, "auth_url"@, "authUrl"@, "connect_url"@]
}

/// The first of the members that is a string beginning with `http`.
pub open spec fn first_url(v: JsonView, keys: Seq<Seq<char>>) -> Option<Seq<char>>
    decreases keys.len(),
{
    if keys.len() == 0 {
        None
    } else {
        match v.get(keys[0]) {
            Some(JsonView::Text(s)) => if text::begins_with(s, "http"@) {
                Some(s)
            } else {
                first_url(v, keys.skip(1))
            },
            _ => first_url(v, keys.skip(1)),
        }
    }
}

/// The first connect URL of an optional scope.
pub open spec fn scope_url(v: Option<JsonView>) -> Option<Seq<char>> {
    match v {
        Some(s) => first_url(s, url_keys()),
        None => None,
    }
}

/// The first of two.
pub open spec fn first_of(a: Option<Seq<char>>, b: Option<Seq<char>>) -> Option<Seq<char>> {
    if a is Some {
        a
    } else {
        b
    }
}

/// A connect URL at the top level, under `data`, under `connection`, or under
/// `data.connection`, looked up in that order.
pub open spec fn connect_url(body: JsonView) -> Option<Seq<char>> {
    first_of(
        first_url(body, url_keys()),
        first_of(
            scope_url(body.get("data"@)),
            first_of(
                scope_url(body.get("connection"@)),
                scope_url(
                    match body.get("data"@) {
                        Some(d) => d.get("connection"@),
                        None => None,
                    },
                ),
            ),
        ),
    )
}

fn url_in(v: &Json) -> (r: Option<String>)
    ensures
        r.deep_view() == first_url(v.deep_view(), url_keys()),
{
    let keys: [&'static str; 5] = [
        "redirect_url",
        "redirectUrl",
        "auth_url",
        "authUrl",
        "connect_url",
    ];
    let ghost all = url_keys();
    let mut i: usize = 0;
    assert(all.skip(0) =~= all);
    while i < 5
        invariant
            all == url_keys(),
            keys@.len() == 5,
            forall|k: int| 0 <= k < 5 ==> (#[trigger] keys@[k])@ == all[k],
            i <= 5,
            first_url(v.deep_view(), all) == first_url(v.deep_view(), all.skip(i as int)),
        decreases 5 - i,
    {
        let ghost rest = all.skip(i as int);
        assert(rest.skip(1) =~= all.skip(i + 1));
        match v.get(keys[i]) {
            Some(m) => match m.as_str() {
                Some(s) => {
                    if starts_with_str(s, "http") {
                        return Some(s.to_string());
                    }
                },
                None => {},
            },
            None => {},
        }
        i += 1;
    }
    None
}

fn url_in_scope(v: Option<&Json>) -> (r: Option<String>)
    ensures
        r.deep_view() == scope_url(v.deep_view()),
{
    match v {
        Some(s) => url_in(s),
        None => None,
    }
}

/// Pulls a connect URL out of a Composio answer across known shapes.
pub fn find_connect_url(body: &Json) -> (r: Option<String>)
    ensures
        r.deep_view() == connect_url(body.deep_view()),
{
    match url_in(body) {
        Some(u) => {
            return Some(u);
        },
        None => {},
    }
    let data = body.get("data");
    match url_in_scope(data) {
        Some(u) => {
            return Some(u);
        },
        None => {},
    }
    match url_in_scope(body.get("connection")) {
        Some(u) => {
            return Some(u);
        },
        None => {},
    }
    match data {
        Some(d) => url_in_scope(d.get("connection")),
        None => None,
    }
}

/// The lower-case form of a text, by Unicode's rules.
pub uninterp spec fn unicode_lower(s: Seq<char>) -> Seq<char>;

/// `str::to_lowercase`, whose result depends on the text alone. Of text that is all ASCII it
/// says that only the letters `A` to `Z` change.
#[verifier::external_body]
fn to_lowercase(s: &str) -> (r: String)
    ensures
        r@ == unicode_lower(s@),
        vstd::utf8::is_ascii_chars(s@) ==> r@ == text::lower(s@),
{
    s.to_lowercase()
}

/// The answer is a failure: an error status, `successful: false`, or an `error` member.
pub open spec fn is_failure(status: u16, body: JsonView) -> bool {
    ||| status >= 400
    ||| body.get("successful"@) == Some(JsonView::Bool(false))
    ||| body.get("error"@) is Some
}

/// What is said where the answer itself says nothing.
pub open spec fn connect_prompt() -> Seq<char> {
    "This action requires connecting your account. Open the link to connect, then retry."@
}

/// Whether the answer asks for a connected account, given the lower-case error text.
pub open spec fn elicitation(status: u16, body: JsonView, lowered: Option<Seq<char>>) -> Option<
    ExecOutcomeView,
> {
    let url = connect_url(body);
    if url is Some || (is_failure(status, body) && lowered is Some && mentions_connection(
        lowered->0,
    )) {
        Some(
            ExecOutcomeView::NeedsConnection {
                message: match first_text(body, error_keys()) {
                    Some(m) => m,
                    None => connect_prompt(),
                },
                url,
            },
        )
    } else {
        None
    }
}

/// The lower-case error text of an answer.
pub open spec fn lowered_error(body: JsonView) -> Option<Seq<char>> {
    match first_text(body, error_keys()) {
        Some(t) => Some(unicode_lower(t)),
        None => None,
    }
}

/// Detects an answer that asks for a connected account, given the error text in lower case.
pub fn detect_with_text(status: u16, body: &Json, lowered: Option<&str>) -> (r: Option<ExecOutcome>)
    ensures
        r.deep_view() == elicitation(status, body.deep_view(), lowered.deep_view()),
{
    let url = find_connect_url(body);
    let mentions: bool = match lowered {
        Some(t) => is_connection_text(t),
        None => false,
    };
    let unsuccessful: bool = match body.get("successful") {
        Some(v) => match v.as_bool() {
            Some(ok) => !ok,
            None => false,
        },
        None => false,
    };
    let failure: bool = status >= 400 || unsuccessful || body.get("error").is_some();
    if url.is_some() || (failure && mentions) {
        let message = match error_text(body) {
            Some(m) => m,
            None =>
                "This action requires connecting your account. Open the link to connect, then retry.".to_string(),
        };
        Some(ExecOutcome::NeedsConnection { message, url })
    } else {
        None
    }
}

/// Detects an answer that asks for a connected account: one that carries a connect URL, or a
/// failure whose text mentions a missing connection.
pub fn detect_elicitation(status: u16, body: &Json) -> (r: Option<ExecOutcome>)
    ensures
        r.deep_view() == elicitation(status, body.deep_view(), lowered_error(body.deep_view())),
{
    match error_text(body) {
        Some(t) => {
            let lowered = to_lowercase(t.as_str());
            detect_with_text(status, body, Some(lowered.as_str()))
        },
        None => detect_with_text(status, body, None),
    }
}

/// The message of a failed answer: its `error`, else its `message`, else the answer itself.
pub open spec fn failure_message(body: JsonView, body_text: Seq<char>) -> Seq<char> {
    match body.get("error"@) {
        Some(JsonView::Text(e)) => e,
        _ => match body.get("message"@) {
            Some(JsonView::Text(m)) => m,
            _ => body_text,
        },
    }
}

/// The message of a failed answer. `body_text` is the answer written out as JSON.
pub fn failure_text(body: &Json, body_text: &str) -> (r: String)
    ensures
        r@ == failure_message(body.deep_view(), body_text@),
{
    match body.get("error") {
        Some(v) => match v.as_str() {
            Some(e) => {
                return e.to_string();
            },
            None => {},
        },
        None => {},
    }
    match body.get("message") {
        Some(v) => match v.as_str() {
            Some(m) => {
                return m.to_string();
            },
            None => {},
        },
        None => {},
    }
    body_text.to_string()
}

/// What an answer comes to, given whether it asks for a connected account.
pub open spec fn answer(
    tool: Seq<char>,
    status: u16,
    status_line: Seq<char>,
    body: JsonView,
    body_text: Seq<char>,
    asked: Option<ExecOutcomeView>,
) -> Result<ExecOutcomeView, Seq<char>> {
    if asked is Some {
        Ok(asked->0)
    } else if !(200 <= status <= 299) {
        Err(
            "Composio action "@ + tool + " failed: "@ + status_line + ": "@ + failure_message(
                body,
                body_text,
            ),
        )
    } else {
        Ok(
            ExecOutcomeView::Done(
                match body.get("data"@) {
                    Some(d) => d,
                    None => body,
                },
            ),
        )
    }
}

/// The view of what an execution came to.
pub open spec fn exec_result(r: Result<ExecOutcome, String>) -> Result<
    ExecOutcomeView,
    Seq<char>,
> {
    match r {
        Ok(o) => Ok(o.deep_view()),
        Err(e) => Err(e@),
    }
}

/// Reads an answer, given whether it asks for a connected account.
pub fn read_answer(
    tool: &str,
    status: u16,
    status_line: &str,
    body: &Json,
    body_text: &str,
    asked: Option<ExecOutcome>,
) -> (r: Result<ExecOutcome, String>)
    ensures
        exec_result(r) == answer(
            tool@,
            status,
            status_line@,
            body.deep_view(),
            body_text@,
            asked.deep_view(),
        ),
{
    match asked {
        Some(outcome) => {
            return Ok(outcome);
        },
        None => {},
    }
    if status < 200 || status > 299 {
        let mut m = "Composio action ".to_string();
        m.append(tool);
        m.append(" failed: ");
        m.append(status_line);
        m.append(": ");
        m.append(failure_text(body, body_text).as_str());
        return Err(m);
    }
    match body.get("data") {
        Some(d) => Ok(ExecOutcome::Done(d.clone())),
        None => Ok(ExecOutcome::Done(body.clone())),
    }
}

/// The second half of running an action: what the answer comes to. `status_line` is the
/// status as it is shown, `body_text` the answer written out as JSON.
pub fn dispatch_answer(
    tool: &str,
    status: u16,
    status_line: &str,
    body: &Json,
    body_text: &str,
) -> (r: Result<ExecOutcome, String>)
    ensures
        exec_result(r) == answer(
            tool@,
            status,
            status_line@,
            body.deep_view(),
            body_text@,
            elicitation(status, body.deep_view(), lowered_error(body.deep_view())),
        ),
{
    let asked = detect_elicitation(status, body);
    read_answer(tool, status, status_line, body, body_text, asked)
}

// ---- curated fetches -----------------------------------------------------------------------------

/// A curated fetch that may be sent: the row, the action and its arguments.
#[derive(Debug)]
pub struct MetricRequest {
    pub source: PlatformMetricSource,
    pub arguments: Json,
}

/// What a curated fetch for a row comes to before anything is sent.
pub open spec fn row_refusal(src: SourceView, post_id: Seq<char>, configured: bool) -> Option<
    MetricErrorView,
> {
    if !composio::safe_segment(src.action) {
        Some(MetricErrorView::Unsupported(composio::unsafe_slug_text(src.action)))
    } else if text::blank(post_id) {
        Some(
            MetricErrorView::Unsupported("this submission has no external post id to look up"@),
        )
    } else if !configured {
        Some(MetricErrorView::Unsupported(composio::no_key_text()))
    } else {
        None
    }
}

/// What a curated fetch for a platform without a row is answered.
pub open spec fn no_source_text(platform: Seq<char>) -> Seq<char> {
    "no Composio metric source is curated for platform '"@ + platform
        + "' — add a row to PLATFORM_METRIC_SOURCES or record metrics manually"@
}

/// The preconditions that must hold before anything leaves the process: a safe slug, a post id
/// and a configured key, in that order. Returns the arguments to send.
pub fn fetch_with_source(src: &PlatformMetricSource, external_post_id: &str, configured: bool) -> (r:
    Result<Json, MetricError>)
    ensures
        match row_refusal(src.deep_view(), external_post_id@, configured) {
            Some(e) => r is Err && r->Err_0.deep_view() == e,
            None => r is Ok && r->Ok_0.deep_view() == JsonView::Object(
                composio::arguments(
                    src.deep_view(),
                    text::trimmed(external_post_id@),
                    src.extra_args.len() as int,
                ),
            ),
        },
{
    match checked_action(src.action) {
        Ok(_) => {},
        Err(e) => {
            return Err(e);
        },
    }
    let post_id = trim(external_post_id);
    if post_id.is_empty() {
        return Err(
            MetricError::Unsupported(
                "this submission has no external post id to look up".to_string(),
            ),
        );
    }
    match key_precondition(configured) {
        Ok(_) => {},
        Err(e) => {
            return Err(e);
        },
    }
    Ok(build_args(src, post_id))
}

/// The first half of a curated fetch: pick the row and build its arguments, or say why nothing
/// is sent.
pub fn fetch_metrics(platform: &str, external_post_id: &str, configured: bool) -> (r: Result<
    MetricRequest,
    MetricError,
>)
    ensures
        match composio::source_of(platform@) {
            None => r is Err && r->Err_0.deep_view() == MetricErrorView::Unsupported(
                no_source_text(platform@),
            ),
            Some(src) => match row_refusal(src, external_post_id@, configured) {
                Some(e) => r is Err && r->Err_0.deep_view() == e,
                None => r is Ok && r->Ok_0.source.deep_view() == src
                    && r->Ok_0.arguments.deep_view() == JsonView::Object(
                    composio::arguments(
                        src,
                        text::trimmed(external_post_id@),
                        src.extra_args.len() as int,
                    ),
                ),
            },
        },
{
    let source = match source_for(platform) {
        Some(s) => s,
        None => {
            let mut m = "no Composio metric source is curated for platform '".to_string();
            m.append(platform);
            m.append("' — add a row to PLATFORM_METRIC_SOURCES or record metrics manually");
            return Err(MetricError::Unsupported(m));
        },
    };
    match fetch_with_source(&source, external_post_id, configured) {
        Ok(arguments) => Ok(MetricRequest { source, arguments }),
        Err(e) => Err(e),
    }
}

/// What a curated fetch comes to once the action has answered.
pub open spec fn fetched(src: SourceView, outcome: Result<ExecOutcomeView, Seq<char>>) -> Result<
    MetricOutcomeView,
    MetricErrorView,
> {
    match outcome {
        Err(e) => Err(MetricErrorView::Upstream(e)),
        Ok(ExecOutcomeView::NeedsConnection { message, url }) => Ok(
            MetricOutcomeView::NeedsConnection { message, connect_url: url },
        ),
        Ok(ExecOutcomeView::Done(body)) => if composio::finds_nothing(src, body) {
            Err(MetricErrorView::Upstream(composio::no_counters_text(src)))
        } else {
            Ok(MetricOutcomeView::Sample(composio::sample_of(src, body)))
        },
    }
}

/// The view of what a curated fetch came to.
pub open spec fn metric_result(r: Result<MetricOutcome, MetricError>) -> Result<
    MetricOutcomeView,
    MetricErrorView,
> {
    match r {
        Ok(o) => Ok(o.deep_view()),
        Err(e) => Err(e.deep_view()),
    }
}

/// The second half of a curated fetch: the counters, the wish for a connected account, or the
/// failure.
pub fn read_metrics(src: &PlatformMetricSource, outcome: Result<ExecOutcome, String>) -> (r: Result<
    MetricOutcome,
    MetricError,
>)
    ensures
        metric_result(r) == fetched(src.deep_view(), exec_result(outcome)),
{
    match outcome {
        Err(e) => Err(MetricError::Upstream(e)),
        Ok(ExecOutcome::NeedsConnection { message, url }) => Ok(
            MetricOutcome::NeedsConnection { message, connect_url: url },
        ),
        Ok(ExecOutcome::Done(body)) => match sample_from(src, &body) {
            Ok(s) => Ok(MetricOutcome::Sample(s)),
            Err(e) => Err(e),
        },
    }
}

/// An answer that asks for a connected account never becomes a reading.
pub proof fn law_needs_connection_is_no_reading(
    src: SourceView,
    tool: Seq<char>,
    status: u16,
    status_line: Seq<char>,
    body: JsonView,
    body_text: Seq<char>,
    lowered: Option<Seq<char>>,
)
    requires
        elicitation(status, body, lowered) is Some,
    ensures
        fetched(
            src,
            answer(
                tool,
                status,
                status_line,
                body,
                body_text,
                elicitation(status, body, lowered),
            ),
        ) matches Ok(MetricOutcomeView::NeedsConnection { .. }),
{
}

/// An answer without any of the row's counters never becomes a reading, so no counter that is
/// merely missing is taken for a zero.
pub proof fn law_an_answer_without_counters_is_no_reading(src: SourceView, body: JsonView)
    ensures
        composio::finds_nothing(src, body) <==> fetched(src, Ok(ExecOutcomeView::Done(body))) is Err,
        composio::finds_nothing(src, body) ==> fetched(src, Ok(ExecOutcomeView::Done(body)))
            == Err::<MetricOutcomeView, MetricErrorView>(
            MetricErrorView::Upstream(composio::no_counters_text(src)),
        ),
{
}

} // verus!
