//! Calls from the app to the process that hosts it: raising events, reporting charges and calling
//! managed providers. What is sent, where to, and what an answer means.
use crate::json;
use crate::json::{array, object, opt_text, put, put_some, put_text, Json, JsonView};
use crate::records::clone_opt;
use crate::text;
use crate::text::{is_blank, parse_unsigned, push_u64, split_on, trim};
use vstd::prelude::*;

verus! {

/// The capability that raises an event.
pub const CAP_EVENTS_EMIT: &'static str = "events.emit";

/// The capability that records a charge for an outside tool.
pub const CAP_TOOL_USAGE_RECORD: &'static str = "billing.recordToolCharge";

/// The capability that calls a managed provider.
pub const CAP_PROVIDERS_CALL: &'static str = "providers.call";

/// The capability that tells whether a managed provider is configured.
pub const CAP_PROVIDERS_STATUS: &'static str = "providers.status";

// ---- where the host listens ------------------------------------------------------------------

/// The port that a text spells.
pub open spec fn port_in(s: Seq<char>) -> Option<int> {
    text::in_range(text::read_unsigned(text::trimmed(s)), 0, u16::MAX as int)
}

/// The port half of a bind address: what follows the last colon.
pub open spec fn bound_port(bind: Seq<char>) -> Option<int> {
    let parts = text::pieces(bind, ':');
    if parts.len() > 1 {
        port_in(parts.last())
    } else {
        None
    }
}

/// The host's port: the one that was injected, else the port half of its bind address.
pub open spec fn host_port(core_port: Option<Seq<char>>, bind: Option<Seq<char>>) -> Option<int> {
    let injected = match core_port {
        Some(p) => port_in(p),
        None => None,
    };
    match injected {
        Some(n) => Some(n),
        None => match bind {
            Some(b) => bound_port(b),
            None => None,
        },
    }
}

/// The URL of a capability on the loopback address.
pub open spec fn endpoint_at(port: int, capability: Seq<char>) -> Seq<char> {
    "http://127.0.0.1:"@ + text::int_text(port) + "/api/host/capability/"@ + capability
}

/// The URL of a capability, where the host can be reached.
pub open spec fn endpoint(
    capability: Seq<char>,
    core_port: Option<Seq<char>>,
    bind: Option<Seq<char>>,
) -> Option<Seq<char>> {
    match host_port(core_port, bind) {
        Some(n) => Some(endpoint_at(n, capability)),
        None => None,
    }
}

fn read_port(s: &str) -> (r: Option<u64>)
    ensures
        r is Some <==> port_in(s@) is Some,
        r is Some ==> port_in(s@) == Some(r->0 as int),
{
    parse_unsigned(trim(s), 65535)
}

fn read_bound_port(bind: &str) -> (r: Option<u64>)
    ensures
        r is Some <==> bound_port(bind@) is Some,
        r is Some ==> bound_port(bind@) == Some(r->0 as int),
{
    let parts = split_on(bind, ':');
    if parts.len() > 1 {
        read_port(parts[parts.len() - 1].as_str())
    } else {
        None
    }
}

/// The URL of a capability: the injected port comes first, and a bind address gives its port only,
/// since its host half is often one that nobody can dial.
pub fn core_endpoint_for(capability: &str, core_port: Option<&str>, bind: Option<&str>) -> (r:
    Option<String>)
    ensures
        r.deep_view() == endpoint(capability@, core_port.deep_view(), bind.deep_view()),
{
    let injected: Option<u64> = match core_port {
        Some(p) => read_port(p),
        None => None,
    };
    let port: u64 = match injected {
        Some(n) => n,
        None => match bind {
            Some(b) => match read_bound_port(b) {
                Some(n) => n,
                None => {
                    return None;
                },
            },
            None => {
                return None;
            },
        },
    };
    let mut url = "http://127.0.0.1:".to_string();
    push_u64(&mut url, port);
    url.append("/api/host/capability/");
    url.append(capability);
    Some(url)
}

/// The URL that events are raised at.
pub fn core_endpoint(core_port: Option<&str>, bind: Option<&str>) -> (r: Option<String>)
    ensures
        r.deep_view() == endpoint(CAP_EVENTS_EMIT@, core_port.deep_view(), bind.deep_view()),
{
    core_endpoint_for(CAP_EVENTS_EMIT, core_port, bind)
}

/// Whatever the environment says, a call goes to the loopback address.
pub proof fn law_calls_stay_on_loopback(
    capability: Seq<char>,
    core_port: Option<Seq<char>>,
    bind: Option<Seq<char>>,
)
    ensures
        endpoint(capability, core_port, bind) is Some ==> text::begins_with(
            endpoint(capability, core_port, bind)->0,
            "http://127.0.0.1:"@,
        ),
{
    if let Some(n) = host_port(core_port, bind) {
        let url = endpoint_at(n, capability);
        let p = "http://127.0.0.1:"@;
        assert(url.subrange(0, p.len() as int) =~= p);
    }
}

/// The token as it is held: as it was given, unless it is blank.
pub open spec fn token_held(raw: Option<Seq<char>>) -> Option<Seq<char>> {
    match raw {
        Some(t) => if text::blank(t) {
            None
        } else {
            Some(t)
        },
        None => None,
    }
}

fn hold_token(raw: Option<&str>) -> (r: Option<String>)
    ensures
        r.deep_view() == token_held(raw.deep_view()),
{
    match raw {
        Some(t) => {
            if is_blank(t) {
                None
            } else {
                Some(t.to_string())
            }
        },
        None => None,
    }
}

/// One call to the host, ready to be sent.
#[derive(Debug)]
pub struct HostRequest {
    pub url: String,
    pub plugin_id: String,
    pub token: String,
    pub body: Json,
}

/// The view of a [`HostRequest`].
#[verifier::ext_equal]
pub struct HostRequestView {
    pub url: Seq<char>,
    pub plugin_id: Seq<char>,
    pub token: Seq<char>,
    pub body: JsonView,
}

impl DeepView for HostRequest {
    type V = HostRequestView;

    open spec fn deep_view(&self) -> HostRequestView {
        HostRequestView {
            url: self.url@,
            plugin_id: self.plugin_id@,
            token: self.token@,
            body: self.body.deep_view(),
        }
    }
}

/// The call to a host that may not be there.
pub open spec fn addressed(
    plugin_id: Seq<char>,
    url: Option<Seq<char>>,
    token: Option<Seq<char>>,
    body: JsonView,
) -> Option<HostRequestView> {
    if url is Some && token is Some {
        Some(HostRequestView { url: url->0, plugin_id, token: token->0, body })
    } else {
        None
    }
}

fn address(plugin_id: &String, url: &Option<String>, token: &Option<String>, body: Json) -> (r:
    Option<HostRequest>)
    ensures
        r.deep_view() == addressed(
            plugin_id@,
            url.deep_view(),
            token.deep_view(),
            body.deep_view(),
        ),
{
    match (url, token) {
        (Some(u), Some(t)) => Some(
            HostRequest { url: u.clone(), plugin_id: plugin_id.clone(), token: t.clone(), body },
        ),
        _ => None,
    }
}

/// The status of an answer that was accepted.
pub open spec fn is_success(status: u16) -> bool {
    200 <= status < 300
}

/// A rejection as a message.
pub open spec fn rejected_text(head: Seq<char>, status: u16, body: Seq<char>) -> Seq<char> {
    head + " ("@ + text::int_text(status as int) + "): "@ + body
}

fn rejected_message(head: &str, status: u16, body: &str) -> (r: String)
    ensures
        r@ == rejected_text(head@, status, body@),
{
    let mut e = head.to_string();
    e.append(" (");
    push_u64(&mut e, status as u64);
    e.append("): ");
    e.append(body);
    e
}

fn prefixed_message(head: &str, tail: &str) -> (r: String)
    ensures
        r@ == head@ + tail@,
{
    let mut e = head.to_string();
    e.append(tail);
    e
}

// ---- raising events --------------------------------------------------------------------------

/// How many subscribers an event reached.
#[derive(Debug, Clone, Copy, PartialEq, Eq, Structural)]
pub struct EmitOutcome {
    /// Plugin hooks that ran for this event.
    pub hooks: usize,
    /// Workflow runs started for this event.
    pub workflows: usize,
}

impl Default for EmitOutcome {
    fn default() -> (r: Self)
        ensures
            r == (EmitOutcome { hooks: 0, workflows: 0 }),
    {
        EmitOutcome { hooks: 0, workflows: 0 }
    }
}

/// A notification to raise beside an event.
#[derive(Debug)]
pub struct NotifyHint {
    /// The row's headline.
    pub title: String,
    pub body: Option<String>,
    /// One of `info`, `success`, `warning` and `error`.
    pub level: Option<String>,
    /// The member to deliver to.
    pub target_user_id: Option<String>,
}

/// The view of a [`NotifyHint`].
#[verifier::ext_equal]
pub struct NotifyView {
    pub title: Seq<char>,
    pub body: Option<Seq<char>>,
    pub level: Option<Seq<char>>,
    pub target_user_id: Option<Seq<char>>,
}

impl DeepView for NotifyHint {
    type V = NotifyView;

    open spec fn deep_view(&self) -> NotifyView {
        NotifyView {
            title: self.title@,
            body: self.body.deep_view(),
            level: self.level.deep_view(),
            target_user_id: self.target_user_id.deep_view(),
        }
    }
}

impl NotifyView {
    /// The hint as it is sent: what it does not say is left out.
    pub open spec fn wire(self) -> JsonView {
        JsonView::Object(
            json::with_some(
                json::with_some(
                    json::with_some(
                        seq![("title"@, JsonView::Text(self.title))],
                        "body"@,
                        self.body,
                    ),
                    "level"@,
                    self.level,
                ),
                "target_user_id"@,
                self.target_user_id,
            ),
        )
    }
}

impl NotifyHint {
    /// A plain hint with a title and an optional body.
    pub fn info(title: &str, body: Option<String>) -> (r: Self)
        ensures
            r.deep_view() == (NotifyView {
                title: title@,
                body: body.deep_view(),
                level: None,
                target_user_id: None,
            }),
    {
        NotifyHint { title: title.to_string(), body, level: None, target_user_id: None }
    }

    /// The hint at another level.
    pub fn with_level(self, level: &str) -> (r: Self)
        ensures
            r.deep_view() == (NotifyView { level: Some(level@), ..self.deep_view() }),
    {
        NotifyHint {
            title: self.title,
            body: self.body,
            level: Some(level.to_string()),
            target_user_id: self.target_user_id,
        }
    }

    /// The hint as it is sent.
    pub fn wire(&self) -> (r: Json)
        ensures
            r.deep_view() == self.deep_view().wire(),
    {
        let mut m: Vec<(String, Json)> = Vec::new();
        put_text(&mut m, "title", self.title.as_str());
        assert(json::members(m@) =~= seq![("title"@, JsonView::Text(self.title@))]);
        put_some(&mut m, "body", &self.body);
        put_some(&mut m, "level", &self.level);
        put_some(&mut m, "target_user_id", &self.target_user_id);
        object(m)
    }
}

/// Why an event did not reach the host.
#[derive(Debug)]
pub enum EmitError {
    /// There is no host: the normal state of a process that runs on its own.
    NotHosted,
    /// The call itself failed.
    Transport(String),
    /// The host rejected the event.
    Rejected { status: u16, body: String },
}

impl EmitError {
    /// The message of the error.
    pub open spec fn text(self) -> Seq<char> {
        match self {
            EmitError::NotHosted => "not running as a Core-spawned sidecar"@,
            EmitError::Transport(e) => "emit transport failed: "@ + e@,
            EmitError::Rejected { status, body } => rejected_text(
                "Core rejected emit"@,
                status,
                body@,
            ),
        }
    }

    /// The message of the error.
    pub fn message(&self) -> (r: String)
        ensures
            r@ == self.text(),
    {
        match self {
            EmitError::NotHosted => "not running as a Core-spawned sidecar".to_string(),
            EmitError::Transport(e) => prefixed_message("emit transport failed: ", e.as_str()),
            EmitError::Rejected { status, body } => rejected_message(
                "Core rejected emit",
                *status,
                body.as_str(),
            ),
        }
    }
}

/// Raises events on behalf of one plugin.
#[derive(Debug)]
pub struct EventEmitter {
    pub plugin_id: String,
    /// `None` when there is no host.
    pub endpoint: Option<String>,
    pub token: Option<String>,
}

/// The body of an event.
pub open spec fn emit_body(
    event: Seq<char>,
    payload: JsonView,
    conversation_id: Option<Seq<char>>,
    notify: Option<NotifyView>,
) -> JsonView {
    let m = json::with_some(
        seq![("event"@, JsonView::Text(event)), ("payload"@, payload)],
        "conversation_id"@,
        conversation_id,
    );
    JsonView::Object(
        match notify {
            Some(n) => m.push(("notify"@, n.wire())),
            None => m,
        },
    )
}

/// The view of an emitter's request.
pub open spec fn emit_result(r: Result<HostRequest, EmitError>) -> Option<HostRequestView> {
    match r {
        Ok(q) => Some(q.deep_view()),
        Err(_) => None,
    }
}

impl EventEmitter {
    /// An emitter for a plugin, from what the environment says of the host. Without a host every
    /// emit comes to nothing.
    pub fn from_parts(
        plugin_id: &str,
        core_port: Option<&str>,
        bind: Option<&str>,
        token: Option<&str>,
    ) -> (r: Self)
        ensures
            r.plugin_id@ == plugin_id@,
            r.endpoint.deep_view() == endpoint(
                CAP_EVENTS_EMIT@,
                core_port.deep_view(),
                bind.deep_view(),
            ),
            r.token.deep_view() == token_held(token.deep_view()),
    {
        EventEmitter {
            plugin_id: plugin_id.to_string(),
            endpoint: core_endpoint(core_port, bind),
            token: hold_token(token),
        }
    }

    /// Whether this emitter can reach a host.
    pub fn is_hosted(&self) -> (b: bool)
        ensures
            b == (self.endpoint is Some && self.token is Some),
    {
        self.endpoint.is_some() && self.token.is_some()
    }

    /// The call that raises an event, where there is a host.
    pub fn emit_request(
        &self,
        event: &str,
        payload: Json,
        conversation_id: Option<&str>,
        notify: Option<NotifyHint>,
    ) -> (r: Result<HostRequest, EmitError>)
        ensures
            emit_result(r) == addressed(
                self.plugin_id@,
                self.endpoint.deep_view(),
                self.token.deep_view(),
                emit_body(
                    event@,
                    payload.deep_view(),
                    conversation_id.deep_view(),
                    notify.deep_view(),
                ),
            ),
            r is Err ==> r->Err_0 is NotHosted,
    {
        let mut m: Vec<(String, Json)> = Vec::new();
        put_text(&mut m, "event", event);
        put(&mut m, "payload", payload);
        assert(json::members(m@) =~= seq![
            ("event"@, JsonView::Text(event@)),
            ("payload"@, payload.deep_view()),
        ]);
        match conversation_id {
            Some(c) => put_text(&mut m, "conversation_id", c),
            None => {},
        }
        match &notify {
            Some(n) => put(&mut m, "notify", n.wire()),
            None => {},
        }
        match address(&self.plugin_id, &self.endpoint, &self.token, object(m)) {
            Some(q) => Ok(q),
            None => Err(EmitError::NotHosted),
        }
    }
}

/// What the host's answer to an event means: any status but a success is a rejection.
pub fn emit_answer(status: u16, body: String) -> (r: Result<(), EmitError>)
    ensures
        is_success(status) ==> r is Ok,
        !is_success(status) ==> r is Err && r->Err_0 == (EmitError::Rejected { status, body }),
{
    if 200 <= status && status < 300 {
        Ok(())
    } else {
        Err(EmitError::Rejected { status, body })
    }
}

// ---- reporting charges -----------------------------------------------------------------------

/// One provider call that may need to be charged.
#[derive(Debug)]
pub struct ToolUsageReport {
    pub provider: String,
    pub tool_id: String,
    pub cost_micro_usd: Option<u64>,
    pub estimated: bool,
    pub transaction_id: Option<String>,
    pub request_id: String,
    pub tool_calls: u64,
    pub task_label: Option<String>,
}

/// How many bytes a text takes.
pub open spec fn bytes(s: Seq<char>) -> nat {
    vstd::utf8::encode_utf8(s).len()
}

fn byte_len(s: &str) -> (n: usize)
    ensures
        n == bytes(s@),
{
    s.as_bytes().len()
}

/// A name that is there and not too long.
pub open spec fn bounded(s: Seq<char>, most: nat) -> bool {
    !text::blank(s) && bytes(s) <= most
}

/// An optional text that is not too long.
pub open spec fn opt_bounded(s: Option<Seq<char>>, most: nat) -> bool {
    s is Some ==> bytes(s->0) <= most
}

fn is_bounded(s: &str, most: usize) -> (b: bool)
    ensures
        b == bounded(s@, most as nat),
{
    !is_blank(s) && byte_len(s) <= most
}

fn is_opt_bounded(s: &Option<String>, most: usize) -> (b: bool)
    ensures
        b == opt_bounded(s.deep_view(), most as nat),
{
    match s {
        Some(t) => byte_len(t.as_str()) <= most,
        None => true,
    }
}

impl ToolUsageReport {
    /// What is wrong with the report, if anything is.
    pub open spec fn fault(self) -> Option<Seq<char>> {
        if !bounded(self.provider@, 64) {
            Some("provider is empty or too long"@)
        } else if !bounded(self.tool_id@, 256) {
            Some("tool_id is empty or too long"@)
        } else if !bounded(self.request_id@, 256) {
            Some("request_id is empty or too long"@)
        } else if !opt_bounded(self.transaction_id.deep_view(), 256) {
            Some("transaction_id is too long"@)
        } else if !opt_bounded(self.task_label.deep_view(), 256) {
            Some("task_label is too long"@)
        } else if self.tool_calls == 0 {
            Some("tool_calls must be positive"@)
        } else {
            None
        }
    }

    /// Checks the fields that describe the charge, before they reach a log or a statement.
    pub fn validate(&self) -> (r: Result<(), UsageReportError>)
        ensures
            match self.fault() {
                Some(e) => r matches Err(UsageReportError::Invalid(m)) && m@ == e,
                None => r is Ok,
            },
    {
        if !is_bounded(self.provider.as_str(), 64) {
            return Err(UsageReportError::Invalid("provider is empty or too long".to_string()));
        }
        if !is_bounded(self.tool_id.as_str(), 256) {
            return Err(UsageReportError::Invalid("tool_id is empty or too long".to_string()));
        }
        if !is_bounded(self.request_id.as_str(), 256) {
            return Err(UsageReportError::Invalid("request_id is empty or too long".to_string()));
        }
        if !is_opt_bounded(&self.transaction_id, 256) {
            return Err(UsageReportError::Invalid("transaction_id is too long".to_string()));
        }
        if !is_opt_bounded(&self.task_label, 256) {
            return Err(UsageReportError::Invalid("task_label is too long".to_string()));
        }
        if self.tool_calls == 0 {
            return Err(UsageReportError::Invalid("tool_calls must be positive".to_string()));
        }
        Ok(())
    }

    /// The report as it is sent: what it does not say is left out.
    pub open spec fn wire_view(self) -> JsonView {
        let head = seq![
            ("provider"@, JsonView::Text(self.provider@)),
            ("toolId"@, JsonView::Text(self.tool_id@)),
        ];
        let priced = match self.cost_micro_usd {
            Some(n) => head.push(("costMicroUsd"@, json::integer(n as int))),
            None => head,
        };
        let traced = json::with_some(
            priced.push(("estimated"@, JsonView::Bool(self.estimated))),
            "transactionId"@,
            self.transaction_id.deep_view(),
        );
        JsonView::Object(
            json::with_some(
                traced.push(("requestId"@, JsonView::Text(self.request_id@))).push(
                    ("toolCalls"@, json::integer(self.tool_calls as int)),
                ),
                "taskLabel"@,
                self.task_label.deep_view(),
            ),
        )
    }

    /// The report as it is sent.
    pub fn wire(&self) -> (r: Json)
        ensures
            r.deep_view() == self.wire_view(),
    {
        let mut m: Vec<(String, Json)> = Vec::new();
        put_text(&mut m, "provider", self.provider.as_str());
        put_text(&mut m, "toolId", self.tool_id.as_str());
        assert(json::members(m@) =~= seq![
            ("provider"@, JsonView::Text(self.provider@)),
            ("toolId"@, JsonView::Text(self.tool_id@)),
        ]);
        match self.cost_micro_usd {
            Some(n) => put(&mut m, "costMicroUsd", Json::number(n as i128)),
            None => {},
        }
        put(&mut m, "estimated", Json::Bool(self.estimated));
        put_some(&mut m, "transactionId", &self.transaction_id);
        put_text(&mut m, "requestId", self.request_id.as_str());
        put(&mut m, "toolCalls", Json::number(self.tool_calls as i128));
        put_some(&mut m, "taskLabel", &self.task_label);
        object(m)
    }
}

/// What the host accepted.
#[derive(Debug)]
pub struct ToolUsageAccepted {
    pub accepted: bool,
    pub billed: bool,
    pub org_id: Option<String>,
}

impl Default for ToolUsageAccepted {
    fn default() -> (r: Self)
        ensures
            !r.accepted && !r.billed && r.org_id is None,
    {
        ToolUsageAccepted { accepted: false, billed: false, org_id: None }
    }
}

/// Why a charge did not reach the host.
#[derive(Debug)]
pub enum UsageReportError {
    NotHosted,
    Invalid(String),
    Transport(String),
    Rejected { status: u16, body: String },
}

impl UsageReportError {
    /// The message of the error.
    pub open spec fn text(self) -> Seq<char> {
        match self {
            UsageReportError::NotHosted => "not running as a Core-spawned sidecar"@,
            UsageReportError::Invalid(m) => "invalid tool usage report: "@ + m@,
            UsageReportError::Transport(e) => "usage report transport failed: "@ + e@,
            UsageReportError::Rejected { status, body } => rejected_text(
                "Core rejected usage report"@,
                status,
                body@,
            ),
        }
    }

    /// The message of the error.
    pub fn message(&self) -> (r: String)
        ensures
            r@ == self.text(),
    {
        match self {
            UsageReportError::NotHosted => "not running as a Core-spawned sidecar".to_string(),
            UsageReportError::Invalid(m) => prefixed_message(
                "invalid tool usage report: ",
                m.as_str(),
            ),
            UsageReportError::Transport(e) => prefixed_message(
                "usage report transport failed: ",
                e.as_str(),
            ),
            UsageReportError::Rejected { status, body } => rejected_message(
                "Core rejected usage report",
                *status,
                body.as_str(),
            ),
        }
    }
}

/// Reports charges on behalf of one plugin.
#[derive(Debug)]
pub struct UsageReporter {
    pub plugin_id: String,
    pub endpoint: Option<String>,
    pub token: Option<String>,
}

impl UsageReporter {
    /// A reporter for a plugin, from what the environment says of the host.
    pub fn from_parts(
        plugin_id: &str,
        core_port: Option<&str>,
        bind: Option<&str>,
        token: Option<&str>,
    ) -> (r: Self)
        ensures
            r.plugin_id@ == plugin_id@,
            r.endpoint.deep_view() == endpoint(
                CAP_TOOL_USAGE_RECORD@,
                core_port.deep_view(),
                bind.deep_view(),
            ),
            r.token.deep_view() == token_held(token.deep_view()),
    {
        UsageReporter {
            plugin_id: plugin_id.to_string(),
            endpoint: core_endpoint_for(CAP_TOOL_USAGE_RECORD, core_port, bind),
            token: hold_token(token),
        }
    }

    /// Whether this reporter can reach a host.
    pub fn is_hosted(&self) -> (b: bool)
        ensures
            b == (self.endpoint is Some && self.token is Some),
    {
        self.endpoint.is_some() && self.token.is_some()
    }

    /// The call that reports a charge. A report with a fault is refused, hosted or not.
    pub fn report_request(&self, report: &ToolUsageReport) -> (r: Result<
        HostRequest,
        UsageReportError,
    >)
        ensures
            match report.fault() {
                Some(e) => r matches Err(UsageReportError::Invalid(m)) && m@ == e,
                None => match addressed(
                    self.plugin_id@,
                    self.endpoint.deep_view(),
                    self.token.deep_view(),
                    report.wire_view(),
                ) {
                    Some(q) => r is Ok && r->Ok_0.deep_view() == q,
                    None => r is Err && r->Err_0 is NotHosted,
                },
            },
    {
        match report.validate() {
            Err(e) => {
                return Err(e);
            },
            Ok(_) => {},
        }
        match address(&self.plugin_id, &self.endpoint, &self.token, report.wire()) {
            Some(q) => Ok(q),
            None => Err(UsageReportError::NotHosted),
        }
    }
}

/// What the host's answer to a report means: any status but a success is a rejection.
pub fn report_answer(status: u16, body: String) -> (r: Result<(), UsageReportError>)
    ensures
        is_success(status) ==> r is Ok,
        !is_success(status) ==> r is Err && r->Err_0 == (UsageReportError::Rejected {
            status,
            body,
        }),
{
    if 200 <= status && status < 300 {
        Ok(())
    } else {
        Err(UsageReportError::Rejected { status, body })
    }
}

// ---- calling managed providers ---------------------------------------------------------------

/// A provider call that the host is asked to make. No provider key crosses it.
#[derive(Debug)]
pub struct ManagedProviderCall {
    pub provider: String,
    pub tool_id: String,
    pub operation: Option<String>,
    pub account_id: Option<String>,
    pub method: String,
    pub query: Vec<(String, String)>,
    pub body: Option<Json>,
    pub idempotency_key: Option<String>,
    pub request_id: String,
    pub fallback_cost_micro_usd: Option<u64>,
    pub task_label: Option<String>,
}

/// A pair of the query as it is sent.
pub open spec fn query_json(q: Seq<(Seq<char>, Seq<char>)>) -> JsonView {
    JsonView::Array(
        Seq::new(
            q.len(),
            |i: int| JsonView::Array(seq![JsonView::Text(q[i].0), JsonView::Text(q[i].1)]),
        ),
    )
}

fn render_query(q: &Vec<(String, String)>) -> (r: Json)
    ensures
        r.deep_view() == query_json(q.deep_view()),
{
    let mut out: Vec<Json> = Vec::new();
    let mut i: usize = 0;
    while i < q.len()
        invariant
            i <= q.len(),
            out.len() == i,
            forall|k: int|
                0 <= k < i ==> (#[trigger] out@[k]).deep_view() == JsonView::Array(
                    seq![JsonView::Text(q@[k].0@), JsonView::Text(q@[k].1@)],
                ),
        decreases q.len() - i,
    {
        let mut pair: Vec<Json> = Vec::new();
        pair.push(Json::text(q[i].0.as_str()));
        pair.push(Json::text(q[i].1.as_str()));
        assert(pair.deep_view() =~= seq![
            JsonView::Text(q@[i as int].0@),
            JsonView::Text(q@[i as int].1@),
        ]);
        out.push(array(pair));
        i += 1;
    }
    assert(out.deep_view() =~= query_json(q.deep_view())->Array_0);
    array(out)
}

/// A JSON value, or null.
pub open spec fn json_or_null(v: Option<JsonView>) -> JsonView {
    match v {
        Some(j) => j,
        None => JsonView::Null,
    }
}

impl ManagedProviderCall {
    /// What is wrong with the call, if anything is.
    pub open spec fn fault(self) -> Option<Seq<char>> {
        if !bounded(self.provider@, 64) {
            Some("provider is empty or too long"@)
        } else if !bounded(self.tool_id@, 256) {
            Some("tool_id is empty or too long"@)
        } else if !bounded(self.method@, 16) {
            Some("method is empty or too long"@)
        } else if !bounded(self.request_id@, 256) {
            Some("request_id is empty or too long"@)
        } else if !opt_bounded(self.idempotency_key.deep_view(), 256) {
            Some("idempotency_key is too long"@)
        } else if !opt_bounded(self.task_label.deep_view(), 256) {
            Some("task_label is too long"@)
        } else {
            None
        }
    }

    /// Checks the fields that name the call.
    pub fn validate(&self) -> (r: Result<(), ProviderRouterError>)
        ensures
            match self.fault() {
                Some(e) => r matches Err(ProviderRouterError::Invalid(m)) && m@ == e,
                None => r is Ok,
            },
    {
        if !is_bounded(self.provider.as_str(), 64) {
            return Err(ProviderRouterError::Invalid("provider is empty or too long".to_string()));
        }
        if !is_bounded(self.tool_id.as_str(), 256) {
            return Err(ProviderRouterError::Invalid("tool_id is empty or too long".to_string()));
        }
        if !is_bounded(self.method.as_str(), 16) {
            return Err(ProviderRouterError::Invalid("method is empty or too long".to_string()));
        }
        if !is_bounded(self.request_id.as_str(), 256) {
            return Err(
                ProviderRouterError::Invalid("request_id is empty or too long".to_string()),
            );
        }
        if !is_opt_bounded(&self.idempotency_key, 256) {
            return Err(ProviderRouterError::Invalid("idempotency_key is too long".to_string()));
        }
        if !is_opt_bounded(&self.task_label, 256) {
            return Err(ProviderRouterError::Invalid("task_label is too long".to_string()));
        }
        Ok(())
    }

    /// The call as it is sent.
    pub open spec fn wire_view(self) -> JsonView {
        JsonView::Object(
            seq![
                ("provider"@, JsonView::Text(self.provider@)),
                ("toolId"@, JsonView::Text(self.tool_id@)),
                ("operation"@, json::text_or_null(self.operation.deep_view())),
                ("accountId"@, json::text_or_null(self.account_id.deep_view())),
                ("method"@, JsonView::Text(self.method@)),
                ("query"@, query_json(self.query.deep_view())),
                ("body"@, json_or_null(self.body.deep_view())),
                ("idempotencyKey"@, json::text_or_null(self.idempotency_key.deep_view())),
                ("requestId"@, JsonView::Text(self.request_id@)),
                (
                    "fallbackCostMicroUsd"@,
                    match self.fallback_cost_micro_usd {
                        Some(n) => json::integer(n as int),
                        None => JsonView::Null,
                    },
                ),
                ("taskLabel"@, json::text_or_null(self.task_label.deep_view())),
            ],
        )
    }

    /// The call as it is sent.
    pub fn wire(&self) -> (r: Json)
        ensures
            r.deep_view() == self.wire_view(),
    {
        let mut m: Vec<(String, Json)> = Vec::new();
        put_text(&mut m, "provider", self.provider.as_str());
        put_text(&mut m, "toolId", self.tool_id.as_str());
        put(&mut m, "operation", opt_text(clone_opt(&self.operation)));
        put(&mut m, "accountId", opt_text(clone_opt(&self.account_id)));
        put_text(&mut m, "method", self.method.as_str());
        put(&mut m, "query", render_query(&self.query));
        let body: Json = match &self.body {
            Some(j) => j.clone(),
            None => Json::Null,
        };
        put(&mut m, "body", body);
        put(&mut m, "idempotencyKey", opt_text(clone_opt(&self.idempotency_key)));
        put_text(&mut m, "requestId", self.request_id.as_str());
        let cost: Json = match self.fallback_cost_micro_usd {
            Some(n) => Json::number(n as i128),
            None => Json::Null,
        };
        put(&mut m, "fallbackCostMicroUsd", cost);
        put(&mut m, "taskLabel", opt_text(clone_opt(&self.task_label)));
        assert(json::members(m@) =~= self.wire_view()->Object_0);
        object(m)
    }
}

/// What a managed provider answered.
#[derive(Debug)]
pub struct ManagedProviderResponse {
    pub ok: bool,
    pub status: u16,
    pub body: Json,
    pub cost_micro_usd: Option<u64>,
    pub call_id: Option<String>,
}

/// Whether a managed provider is configured.
#[derive(Debug, Clone, Copy)]
pub struct ManagedProviderStatus {
    pub configured: bool,
}

/// Why a provider call did not come about.
#[derive(Debug)]
pub enum ProviderRouterError {
    NotHosted,
    Invalid(String),
    Transport(String),
    Rejected { status: u16, body: String },
}

impl ProviderRouterError {
    /// The message of the error.
    pub open spec fn text(self) -> Seq<char> {
        match self {
            ProviderRouterError::NotHosted => "not running as a Core-hosted sidecar"@,
            ProviderRouterError::Invalid(m) => "invalid managed provider call: "@ + m@,
            ProviderRouterError::Transport(e) => "managed provider transport failed: "@ + e@,
            ProviderRouterError::Rejected { status, body } => rejected_text(
                "managed provider rejected the call"@,
                status,
                body@,
            ),
        }
    }

    /// The message of the error.
    pub fn message(&self) -> (r: String)
        ensures
            r@ == self.text(),
    {
        match self {
            ProviderRouterError::NotHosted => "not running as a Core-hosted sidecar".to_string(),
            ProviderRouterError::Invalid(m) => prefixed_message(
                "invalid managed provider call: ",
                m.as_str(),
            ),
            ProviderRouterError::Transport(e) => prefixed_message(
                "managed provider transport failed: ",
                e.as_str(),
            ),
            ProviderRouterError::Rejected { status, body } => rejected_message(
                "managed provider rejected the call",
                *status,
                body.as_str(),
            ),
        }
    }
}

/// Routes provider calls through the host on behalf of one plugin.
#[derive(Debug)]
pub struct ProviderRouter {
    pub plugin_id: String,
    pub call_endpoint: Option<String>,
    pub status_endpoint: Option<String>,
    pub token: Option<String>,
}

/// What a router asks of a call or of a status.
pub open spec fn routed(
    r: Result<HostRequest, ProviderRouterError>,
    wanted: Option<HostRequestView>,
) -> bool {
    match wanted {
        Some(q) => r is Ok && r->Ok_0.deep_view() == q,
        None => r is Err && r->Err_0 is NotHosted,
    }
}

impl ProviderRouter {
    /// A router for a plugin, from what the environment says of the host.
    pub fn from_parts(
        plugin_id: &str,
        core_port: Option<&str>,
        bind: Option<&str>,
        token: Option<&str>,
    ) -> (r: Self)
        ensures
            r.plugin_id@ == plugin_id@,
            r.call_endpoint.deep_view() == endpoint(
                CAP_PROVIDERS_CALL@,
                core_port.deep_view(),
                bind.deep_view(),
            ),
            r.status_endpoint.deep_view() == endpoint(
                CAP_PROVIDERS_STATUS@,
                core_port.deep_view(),
                bind.deep_view(),
            ),
            r.token.deep_view() == token_held(token.deep_view()),
    {
        ProviderRouter {
            plugin_id: plugin_id.to_string(),
            call_endpoint: core_endpoint_for(CAP_PROVIDERS_CALL, core_port, bind),
            status_endpoint: core_endpoint_for(CAP_PROVIDERS_STATUS, core_port, bind),
            token: hold_token(token),
        }
    }

    /// A router against a test server: provider adapters can be tried without touching the
    /// environment of the process.
    pub fn for_test(plugin_id: &str, call_endpoint: &str, status_endpoint: &str) -> (r: Self)
        ensures
            r.plugin_id@ == plugin_id@,
            r.call_endpoint.deep_view() == Some(call_endpoint@),
            r.status_endpoint.deep_view() == Some(status_endpoint@),
            r.token.deep_view() == Some("test-provider-router"@),
    {
        ProviderRouter {
            plugin_id: plugin_id.to_string(),
            call_endpoint: Some(call_endpoint.to_string()),
            status_endpoint: Some(status_endpoint.to_string()),
            token: Some("test-provider-router".to_string()),
        }
    }

    /// Whether this router can reach a host.
    pub fn is_hosted(&self) -> (b: bool)
        ensures
            b == (self.call_endpoint is Some && self.status_endpoint is Some && self.token is Some),
    {
        self.call_endpoint.is_some() && self.status_endpoint.is_some() && self.token.is_some()
    }

    /// The call that asks whether a provider is configured.
    pub fn status_request(&self, provider: &str) -> (r: Result<HostRequest, ProviderRouterError>)
        ensures
            routed(
                r,
                addressed(
                    self.plugin_id@,
                    self.status_endpoint.deep_view(),
                    self.token.deep_view(),
                    JsonView::Object(seq![("provider"@, JsonView::Text(provider@))]),
                ),
            ),
    {
        let mut m: Vec<(String, Json)> = Vec::new();
        put_text(&mut m, "provider", provider);
        assert(json::members(m@) =~= seq![("provider"@, JsonView::Text(provider@))]);
        match address(&self.plugin_id, &self.status_endpoint, &self.token, object(m)) {
            Some(q) => Ok(q),
            None => Err(ProviderRouterError::NotHosted),
        }
    }

    /// The call that hands a provider call to the host. A call with a fault is refused, hosted or
    /// not.
    pub fn call_request(&self, request: &ManagedProviderCall) -> (r: Result<
        HostRequest,
        ProviderRouterError,
    >)
        ensures
            match request.fault() {
                Some(e) => r matches Err(ProviderRouterError::Invalid(m)) && m@ == e,
                None => routed(
                    r,
                    addressed(
                        self.plugin_id@,
                        self.call_endpoint.deep_view(),
                        self.token.deep_view(),
                        request.wire_view(),
                    ),
                ),
            },
    {
        match request.validate() {
            Err(e) => {
                return Err(e);
            },
            Ok(_) => {},
        }
        match address(&self.plugin_id, &self.call_endpoint, &self.token, request.wire()) {
            Some(q) => Ok(q),
            None => Err(ProviderRouterError::NotHosted),
        }
    }
}

/// What the host's answer to a provider call means: any status but a success is a rejection.
pub fn router_answer(status: u16, body: String) -> (r: Result<(), ProviderRouterError>)
    ensures
        is_success(status) ==> r is Ok,
        !is_success(status) ==> r is Err && r->Err_0 == (ProviderRouterError::Rejected {
            status,
            body,
        }),
{
    if 200 <= status && status < 300 {
        Ok(())
    } else {
        Err(ProviderRouterError::Rejected { status, body })
    }
}

} // verus!
