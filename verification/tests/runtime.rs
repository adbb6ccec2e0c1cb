use std::time::Duration;

use ryu_ugc::app_events::{
    core_endpoint, core_endpoint_for, emit_answer, report_answer, router_answer, EmitError,
    EmitOutcome, EventEmitter, ManagedProviderCall, NotifyHint, ProviderRouter,
    ProviderRouterError, ToolUsageAccepted, ToolUsageReport, UsageReportError, UsageReporter,
};
use ryu_ugc::clock::now_iso;
use ryu_ugc::engine::{campaign_report, SubmissionRefreshReport, UgcEngine};
use ryu_ugc::json::Json;
use ryu_ugc::records::{Campaign, CampaignStatus, PayoutRule, Submission, SubmissionStatus};
use ryu_ugc::refresh::{
    campaigns_to_walk, get_pref, interval_from, read_prefs, write_prefs, RefreshPolicy,
    DEFAULT_INTERVAL_SECS, INTERVAL_PREF, MIN_INTERVAL_SECS,
};
use ryu_ugc::runtime::{
    bearer_ok as header_ok, constant_time_eq, default_data_dir, ext_token, listen_port,
    pointer_path, profile_suffix, ryu_dir, token_ok, DEFAULT_PORT,
};
use ryu_ugc::store::UgcStore;

// ---- the bearer ---------------------------------------------------------------

/// What is compared is the value behind the scheme.
fn bearer_ok(provided: Option<&str>, expected: Option<&str>) -> bool {
    token_ok(provided, expected)
}

#[test]
fn bearer_ok_matches_only_exact_nonempty_token() {
    assert!(bearer_ok(Some("secret"), Some("secret")));
    assert!(!bearer_ok(Some("secret"), Some("other")));
    assert!(!bearer_ok(Some("secre"), Some("secret")));
    assert!(!bearer_ok(None, Some("secret")));
}

#[test]
fn bearer_ok_is_fail_closed_without_expected() {
    // No/empty configured token → reject everything, even a matching-looking
    // header.
    assert!(!bearer_ok(Some("secret"), None));
    assert!(!bearer_ok(Some(""), Some("")));
    assert!(!bearer_ok(None, None));
}

#[test]
fn ct_eq_compares_content_not_prefix() {
    assert!(constant_time_eq(b"abc", b"abc"));
    assert!(!constant_time_eq(b"abc", b"abd"));
    // A shared prefix must not pass — length is checked, and the loop never
    // returns early on the first mismatched byte.
    assert!(!constant_time_eq(b"abc", b"ab"));
    assert!(constant_time_eq(b"", b""));
}

#[test]
fn bearer_checks_fail_closed_and_require_the_scheme() {
    assert!(header_ok(Some("Bearer secret"), Some("secret")));
    assert!(!header_ok(Some("secret"), Some("secret")));
    assert!(!header_ok(Some("Bearer wrong"), Some("secret")));
    assert!(!header_ok(None, None));
    assert!(!token_ok(Some("secret"), Some("")));
}

#[test]
fn constant_time_equality_matches_value_and_length() {
    assert!(constant_time_eq(b"abc", b"abc"));
    assert!(!constant_time_eq(b"abc", b"abd"));
    assert!(!constant_time_eq(b"abc", b"ab"));
}

#[test]
fn the_token_and_the_port_are_read_leniently() {
    assert_eq!(ext_token(Some("  secret ")).as_deref(), Some("secret"));
    assert_eq!(ext_token(Some("   ")), None);
    assert_eq!(ext_token(None), None);
    assert_eq!(listen_port(Some(" 9001 ")), 9001);
    assert_eq!(listen_port(Some("70000")), DEFAULT_PORT);
    assert_eq!(listen_port(Some("port")), DEFAULT_PORT);
    assert_eq!(listen_port(None), 8004);
}

// ---- the data directory ---------------------------------------------------------

#[test]
fn data_directory_is_non_empty() {
    assert!(!ryu_dir(None, None, None, "").is_empty());
    assert!(!ryu_dir(Some(""), Some(""), Some("/home/ada"), "-dev").is_empty());
}

#[test]
fn the_environment_beats_the_pointer_which_beats_the_home() {
    let dir = ryu_dir(Some("/data"), Some("/pointed"), Some("/home/ada"), "");
    assert_eq!(dir.parts, vec!["/data"]);
    let dir = ryu_dir(None, Some("/pointed"), Some("/home/ada"), "");
    assert_eq!(dir.parts, vec!["/pointed"]);
    let dir = ryu_dir(Some(""), Some(""), Some("/home/ada"), "-dev");
    assert_eq!(dir.parts, vec!["/home/ada", ".ryu-dev"]);
    assert_eq!(default_data_dir(None, "").parts, vec![".", ".ryu"]);
    assert_eq!(
        pointer_path(Some("/config"), None, "-beta").parts,
        vec!["/config", "ryu-beta", "data-path.json"]
    );
    assert_eq!(
        pointer_path(None, Some("/home/ada"), "").parts,
        vec!["/home/ada", ".ryu", "ryu", "data-path.json"]
    );
}

#[test]
fn a_profile_names_a_suffix_or_is_refused() {
    assert_eq!(profile_suffix(None), Ok(""));
    assert_eq!(profile_suffix(Some("  ")), Ok(""));
    assert_eq!(profile_suffix(Some(" DEV ")), Ok("-dev"));
    assert_eq!(profile_suffix(Some("canary")), Ok("-canary"));
    assert_eq!(profile_suffix(Some("nightly")), Ok("-nightly"));
    assert_eq!(profile_suffix(Some("beta")), Ok("-beta"));
    assert_eq!(
        profile_suffix(Some("Alpha")),
        Err(
            "unsupported RYU_PROFILE 'alpha'; expected release, dev, canary, nightly, or beta"
                .to_string()
        )
    );
}

// ---- the schedule ----------------------------------------------------------------

#[test]
fn interval_defaults_clamps_and_can_be_switched_off() {
    let interval = |raw: Option<&str>| interval_from(raw).map(Duration::from_secs);
    assert_eq!(
        interval(None),
        Some(Duration::from_secs(DEFAULT_INTERVAL_SECS))
    );
    // A mistyped `5` must not become a busy hammer against Composio.
    assert_eq!(
        interval(Some("5")),
        Some(Duration::from_secs(MIN_INTERVAL_SECS))
    );
    assert_eq!(interval(Some("900")), Some(Duration::from_secs(900)));
    // `0` is the documented off switch.
    assert_eq!(interval(Some("0")), None);
    // Garbage reads as "no opinion", NOT as off — silently disabling would
    // look like a broken Composio integration, not a config typo.
    assert_eq!(
        interval(Some("soon")),
        Some(Duration::from_secs(DEFAULT_INTERVAL_SECS))
    );
    assert_eq!(DEFAULT_INTERVAL_SECS, 6 * 60 * 60);
}

#[test]
fn env_beats_prefs_which_beats_the_default() {
    let prefs = vec![(INTERVAL_PREF.to_string(), "900".to_string())];
    assert_eq!(RefreshPolicy::resolve(None, &prefs).interval, Some(900));
    assert_eq!(
        RefreshPolicy::resolve(Some("1800"), &prefs).interval,
        Some(1800)
    );
    // An empty env var is "unset", not "0".
    assert_eq!(
        RefreshPolicy::resolve(Some("  "), &prefs).interval,
        Some(900)
    );
    assert_eq!(
        RefreshPolicy::resolve(None, &Vec::new()).interval,
        Some(DEFAULT_INTERVAL_SECS)
    );
}

fn pair(key: &str, value: &str) -> (String, String) {
    (key.to_string(), value.to_string())
}

#[test]
fn prefs_read_back_from_their_bytes() {
    // No file: a fresh install falls back to the defaults.
    assert!(read_prefs(None).is_empty());

    let bytes = write_prefs(&vec![pair("auto-refresh-interval-secs", "900")]);
    assert_eq!(bytes, b"{\n  \"auto-refresh-interval-secs\": \"900\"\n}");
    let prefs = read_prefs(Some(&bytes));
    assert_eq!(
        get_pref(&prefs, "auto-refresh-interval-secs").as_deref(),
        Some("900")
    );
    assert_eq!(RefreshPolicy::resolve(None, &prefs).interval, Some(900));

    // A corrupt file degrades to the defaults.
    assert!(read_prefs(Some(b"{ this is not json")).is_empty());
}

#[test]
fn a_preference_file_is_a_map_from_text_to_text() {
    assert_eq!(
        read_prefs(Some(br#" {"b": "2", "a": "1", "b": "3"} "#)),
        vec![pair("a", "1"), pair("b", "3")]
    );
    for corrupt in [
        &b""[..],
        b"[]",
        b"null",
        b"{\"a\": 1}",
        b"{\"a\": \"1\"} x",
        b"{\"a\": \"\xff\"}",
    ] {
        assert!(read_prefs(Some(corrupt)).is_empty());
        assert_eq!(
            RefreshPolicy::resolve(None, &read_prefs(Some(corrupt))).interval,
            Some(DEFAULT_INTERVAL_SECS)
        );
    }
    assert_eq!(write_prefs(&Vec::new()), b"{}");
}

#[test]
fn every_text_survives_the_preference_file() {
    let prefs = vec![
        pair("z", "last"),
        pair("", "\u{0}\u{1f}\u{7f}\"\\/\n\t"),
        pair("\u{10ffff}\u{e9}", ""),
    ];
    let read = read_prefs(Some(&write_prefs(&prefs)));
    assert_eq!(read.len(), 3);
    for (key, value) in &prefs {
        assert_eq!(get_pref(&read, key).as_ref(), Some(value));
    }
    assert_eq!(get_pref(&read, "other"), None);
}

fn campaign(id: &str, status: CampaignStatus, updated_at: &str) -> Campaign {
    Campaign {
        id: id.into(),
        brand: "Acme".into(),
        brief: "post a clip".into(),
        status,
        platforms: vec!["youtube".into()],
        required_hashtags: vec![],
        required_mentions: vec![],
        starts_at: None,
        ends_at: None,
        budget_cents: 0,
        payout: PayoutRule::Cpm { cpm_cents: 250 },
        bonus_tiers: vec![],
        max_payout_per_creator_cents: 0,
        created_at: updated_at.into(),
        updated_at: updated_at.into(),
    }
}

/// A submission that can never be fetched: its platform has no curated row.
fn unrefreshable(id: &str, campaign_id: &str, post_id: &str) -> Submission {
    let now = now_iso();
    Submission {
        id: id.into(),
        campaign_id: campaign_id.into(),
        creator_id: "crt1".into(),
        platform: "myspace".into(),
        post_url: format!("https://youtu.be/{post_id}"),
        external_post_id: post_id.into(),
        status: SubmissionStatus::Pending,
        submitted_at: now.clone(),
        reviewed_at: None,
        rejection_reason: None,
        created_at: now.clone(),
        updated_at: now,
    }
}

/// One pass over the active campaigns; every submission here is refused before a fetch.
fn run_once(engine: &UgcEngine) -> Vec<String> {
    let walked = campaigns_to_walk(&engine.store);
    for id in &walked {
        let lines: Vec<SubmissionRefreshReport> = engine
            .refresh_campaign(id)
            .iter()
            .map(|s| {
                let refusal = engine.refresh_submission(&s.id).unwrap_err();
                SubmissionRefreshReport::from_error(&s.id, &refusal)
            })
            .collect();
        let planned = lines.len() as u64;
        assert_eq!(campaign_report(lines).counts.error as u64, planned);
    }
    walked
}

#[test]
fn a_tick_walks_active_campaigns_only() {
    let mut engine = UgcEngine::new(UgcStore::new());
    for (id, status) in [
        ("c-active", CampaignStatus::Active),
        ("c-paused", CampaignStatus::Paused),
    ] {
        engine
            .store
            .upsert_campaign(&campaign(id, status, "2026-01-01T00:00:00+00:00"));
    }
    for (sub, camp) in [("s1", "c-active"), ("s2", "c-paused")] {
        engine.create_submission(&unrefreshable(sub, camp, sub));
        engine.review_submission(sub, true, None).unwrap();
    }
    // `pause` has to stop the spend moving, or it means nothing.
    assert_eq!(run_once(&engine), vec!["c-active".to_string()]);
    // A refusal writes nothing, for either campaign.
    for sub in ["s1", "s2"] {
        assert!(engine.store.latest_snapshot(sub).is_none());
    }
}

#[test]
fn a_tick_passes_over_every_state_but_active() {
    let mut store = UgcStore::new();
    for (id, status) in [
        ("c-active", CampaignStatus::Active),
        ("c-draft", CampaignStatus::Draft),
        ("c-paused", CampaignStatus::Paused),
        ("c-ended", CampaignStatus::Ended),
    ] {
        store.upsert_campaign(&campaign(id, status, "2026-01-01T00:00:00+00:00"));
    }
    assert_eq!(campaigns_to_walk(&store), vec!["c-active"]);
}

#[test]
fn a_tick_survives_a_batch_where_every_submission_fails() {
    let mut engine = UgcEngine::new(UgcStore::new());
    engine
        .store
        .upsert_campaign(&campaign("c1", CampaignStatus::Active, "2026-01-01T00:00:00+00:00"));
    for sub in ["s1", "s2"] {
        engine.create_submission(&unrefreshable(sub, "c1", sub));
        engine.review_submission(sub, true, None).unwrap();
    }
    // Every submission failing is a completed tick, not an aborted one.
    assert_eq!(run_once(&engine), vec!["c1".to_string()]);
    // A failed refresh never re-prices anything: approval priced 0 views at 0c.
    for sub in ["s1", "s2"] {
        assert_eq!(engine.store.payout_for_submission(sub).unwrap().amount_cents, 0);
    }
}

#[test]
fn a_tick_over_an_empty_store_is_a_silent_no_op() {
    let mut engine = UgcEngine::new(UgcStore::new());
    assert!(run_once(&engine).is_empty());
    // A campaign with no approved submissions is still a walk with nothing in it.
    engine
        .store
        .upsert_campaign(&campaign("c1", CampaignStatus::Active, "2026-01-01T00:00:00+00:00"));
    assert_eq!(run_once(&engine), vec!["c1".to_string()]);
}

// ---- calls to the host -------------------------------------------------------------

/// A backend running outside Core must not blow up on emit.
#[test]
fn unhosted_emitter_no_ops_instead_of_failing() {
    let emitter = EventEmitter {
        plugin_id: "com.acme.app".to_owned(),
        endpoint: None,
        token: None,
    };
    assert!(!emitter.is_hosted());
    assert!(matches!(
        emitter.emit_request("com.acme.app/thing.done", Json::Object(vec![]), None, None),
        Err(EmitError::NotHosted)
    ));
}

#[test]
fn endpoint_prefers_core_port_and_never_dials_a_bind_host() {
    let endpoint_from = |port: &str| core_endpoint(Some(port), None);
    let endpoint_from_bind = |bind: &str| core_endpoint(None, Some(bind));
    // The shape `RYU_CORE_PORT` arrives in: a bare port.
    assert_eq!(
        endpoint_from("7980"),
        Some("http://127.0.0.1:7980/api/host/capability/events.emit".to_owned())
    );
    // A wildcard bind must contribute its port ONLY — never `http://0.0.0.0/…`.
    let from_bind = endpoint_from_bind("0.0.0.0:7980");
    assert_eq!(
        from_bind,
        Some("http://127.0.0.1:7980/api/host/capability/events.emit".to_owned())
    );
    assert!(!from_bind.expect("some").contains("0.0.0.0"));
    // Nothing usable → not hosted, rather than a doomed request.
    assert_eq!(endpoint_from(""), None);
    assert_eq!(endpoint_from_bind("not-a-bind"), None);
}

#[test]
fn the_injected_port_beats_the_bind_address() {
    assert_eq!(
        core_endpoint_for("providers.call", Some(" 81 "), Some("0.0.0.0:82")),
        Some("http://127.0.0.1:81/api/host/capability/providers.call".to_owned())
    );
    assert_eq!(
        core_endpoint_for("providers.call", Some("garbage"), Some("[::]:82")),
        Some("http://127.0.0.1:82/api/host/capability/providers.call".to_owned())
    );
    assert_eq!(core_endpoint_for("x", Some("65536"), None), None);
    assert_eq!(core_endpoint_for("x", None, None), None);
}

fn usage_report() -> ToolUsageReport {
    ToolUsageReport {
        provider: "treg".to_owned(),
        tool_id: "x.x.post.create".to_owned(),
        cost_micro_usd: Some(15_000),
        estimated: false,
        transaction_id: Some("call-1".to_owned()),
        request_id: "social:call-1".to_owned(),
        tool_calls: 1,
        task_label: Some("Outpost X post".to_owned()),
    }
}

#[test]
fn usage_report_requires_bounded_charge_identity() {
    let report = usage_report();
    assert!(report.validate().is_ok());
    let wire = report.wire();
    assert_eq!(wire.get("provider").and_then(Json::as_str), Some("treg"));
    assert_eq!(
        wire.get("toolId").and_then(Json::as_str),
        Some("x.x.post.create")
    );
    assert!(matches!(wire.get("costMicroUsd"), Some(Json::Int(15_000))));
    assert!(wire.get("secret").is_none());
}

#[test]
fn usage_report_rejects_empty_or_zero_identity() {
    let report = ToolUsageReport {
        provider: "".to_owned(),
        tool_id: "x".to_owned(),
        cost_micro_usd: None,
        estimated: true,
        transaction_id: None,
        request_id: "request".to_owned(),
        tool_calls: 1,
        task_label: None,
    };
    assert!(matches!(
        report.validate(),
        Err(UsageReportError::Invalid(message)) if message.contains("provider")
    ));
}

#[test]
fn every_bound_of_a_usage_report_is_held() {
    let fault = |report: ToolUsageReport| match report.validate() {
        Err(UsageReportError::Invalid(message)) => message,
        _ => String::new(),
    };
    let mut r = usage_report();
    // 64 bytes are accepted and 65 are not; the bound counts bytes, not characters.
    r.provider = "a".repeat(64);
    assert_eq!(fault(r), "");
    let mut r = usage_report();
    r.provider = "é".repeat(33);
    assert_eq!(fault(r), "provider is empty or too long");
    let mut r = usage_report();
    r.tool_id = "a".repeat(257);
    assert_eq!(fault(r), "tool_id is empty or too long");
    let mut r = usage_report();
    r.request_id = " ".to_owned();
    assert_eq!(fault(r), "request_id is empty or too long");
    let mut r = usage_report();
    r.transaction_id = Some("a".repeat(257));
    assert_eq!(fault(r), "transaction_id is too long");
    let mut r = usage_report();
    r.task_label = Some("a".repeat(257));
    assert_eq!(fault(r), "task_label is too long");
    let mut r = usage_report();
    r.tool_calls = 0;
    assert_eq!(fault(r), "tool_calls must be positive");
}

fn provider_call() -> ManagedProviderCall {
    ManagedProviderCall {
        provider: "treg".to_owned(),
        tool_id: "x.x.post.create".to_owned(),
        operation: Some("execute".to_owned()),
        account_id: None,
        method: "POST".to_owned(),
        query: vec![("a".to_owned(), "1".to_owned())],
        body: Some(Json::Object(vec![(
            "text".to_owned(),
            Json::Text("hello".to_owned()),
        )])),
        idempotency_key: Some("post-segment".to_owned()),
        request_id: "social:post-segment".to_owned(),
        fallback_cost_micro_usd: Some(15_000),
        task_label: Some("Outpost social publish".to_owned()),
    }
}

#[test]
fn managed_provider_call_has_no_credential_field_and_bounds_identity() {
    let call = provider_call();
    assert!(call.validate().is_ok());
    let wire = call.wire();
    assert_eq!(wire.get("provider").and_then(Json::as_str), Some("treg"));
    assert_eq!(
        wire.get("toolId").and_then(Json::as_str),
        Some("x.x.post.create")
    );
    assert!(wire.get("token").is_none());

    let mut invalid = call;
    invalid.request_id.clear();
    assert!(matches!(
        invalid.validate(),
        Err(ProviderRouterError::Invalid(message)) if message.contains("request_id")
    ));
}

#[test]
fn every_bound_of_a_provider_call_is_held() {
    let fault = |call: ManagedProviderCall| match call.validate() {
        Err(ProviderRouterError::Invalid(message)) => message,
        _ => String::new(),
    };
    let mut c = provider_call();
    c.provider = "a".repeat(65);
    assert_eq!(fault(c), "provider is empty or too long");
    let mut c = provider_call();
    c.tool_id = String::new();
    assert_eq!(fault(c), "tool_id is empty or too long");
    let mut c = provider_call();
    c.method = "a".repeat(17);
    assert_eq!(fault(c), "method is empty or too long");
    let mut c = provider_call();
    c.idempotency_key = Some("a".repeat(257));
    assert_eq!(fault(c), "idempotency_key is too long");
    let mut c = provider_call();
    c.task_label = Some("a".repeat(257));
    assert_eq!(fault(c), "task_label is too long");
}

#[test]
fn an_outcome_starts_with_no_subscribers() {
    assert_eq!(
        EmitOutcome::default(),
        EmitOutcome {
            hooks: 0,
            workflows: 0
        }
    );
    let accepted = ToolUsageAccepted::default();
    assert!(!accepted.accepted && !accepted.billed && accepted.org_id.is_none());
}

#[test]
fn a_hosted_emitter_addresses_the_host() {
    let emitter = EventEmitter::from_parts("@ryu/ugc", Some("7980"), None, Some("tok"));
    assert!(emitter.is_hosted());
    let hint = NotifyHint::info("Paid", Some("10 300c".to_owned())).with_level("success");
    let request = emitter
        .emit_request(
            "@ryu/ugc#payout.accrued",
            Json::Int(1),
            Some("conv-1"),
            Some(hint),
        )
        .unwrap();
    assert_eq!(
        request.url,
        "http://127.0.0.1:7980/api/host/capability/events.emit"
    );
    assert_eq!(request.plugin_id, "@ryu/ugc");
    assert_eq!(request.token, "tok");
    let body = &request.body;
    assert_eq!(
        body.get("event").and_then(Json::as_str),
        Some("@ryu/ugc#payout.accrued")
    );
    assert_eq!(
        body.get("conversation_id").and_then(Json::as_str),
        Some("conv-1")
    );
    let notify = body.get("notify").unwrap();
    assert_eq!(notify.get("title").and_then(Json::as_str), Some("Paid"));
    assert_eq!(notify.get("level").and_then(Json::as_str), Some("success"));
    assert!(notify.get("target_user_id").is_none());
    assert!(!EventEmitter::from_parts("p", Some("7980"), None, Some("  ")).is_hosted());
}

#[test]
fn a_fault_comes_before_a_missing_host() {
    let reporter = UsageReporter::from_parts("p", None, None, None);
    assert!(!reporter.is_hosted());
    let mut bad = usage_report();
    bad.tool_calls = 0;
    assert!(matches!(
        reporter.report_request(&bad),
        Err(UsageReportError::Invalid(_))
    ));
    assert!(matches!(
        reporter.report_request(&usage_report()),
        Err(UsageReportError::NotHosted)
    ));
    let hosted = UsageReporter::from_parts("p", Some("7"), None, Some("t"));
    assert_eq!(
        hosted.report_request(&usage_report()).unwrap().url,
        "http://127.0.0.1:7/api/host/capability/billing.recordToolCharge"
    );

    let router = ProviderRouter::from_parts("p", None, Some("0.0.0.0:9"), Some("t"));
    assert!(router.is_hosted());
    assert_eq!(
        router.status_request("composio").unwrap().url,
        "http://127.0.0.1:9/api/host/capability/providers.status"
    );
    let call = router.call_request(&provider_call()).unwrap();
    assert!(call.url.ends_with("/providers.call"));
    let alone = ProviderRouter::from_parts("p", None, None, Some("t"));
    assert!(matches!(
        alone.call_request(&provider_call()),
        Err(ProviderRouterError::NotHosted)
    ));
    assert!(matches!(
        alone.status_request("composio"),
        Err(ProviderRouterError::NotHosted)
    ));
}

#[test]
fn a_router_for_tests_is_hosted() {
    let router = ProviderRouter::for_test("p", "http://t/call", "http://t/status");
    assert!(router.is_hosted());
    let status = router.status_request("composio").unwrap();
    assert_eq!(status.url, "http://t/status");
    assert_eq!(status.plugin_id, "p");
    assert_eq!(status.token, "test-provider-router");
    assert_eq!(
        router.call_request(&provider_call()).unwrap().url,
        "http://t/call"
    );
}

#[test]
fn an_answer_is_a_success_or_a_rejection() {
    assert!(emit_answer(200, String::new()).is_ok());
    assert!(emit_answer(299, String::new()).is_ok());
    let err = emit_answer(403, "no".to_owned()).unwrap_err();
    assert_eq!(err.message(), "Core rejected emit (403): no");
    assert_eq!(
        EmitError::NotHosted.message(),
        "not running as a Core-spawned sidecar"
    );
    assert_eq!(
        EmitError::Transport("down".to_owned()).message(),
        "emit transport failed: down"
    );
    let err = report_answer(500, "oops".to_owned()).unwrap_err();
    assert_eq!(err.message(), "Core rejected usage report (500): oops");
    assert_eq!(
        UsageReportError::Invalid("x".to_owned()).message(),
        "invalid tool usage report: x"
    );
    let err = router_answer(300, "moved".to_owned()).unwrap_err();
    assert_eq!(
        err.message(),
        "managed provider rejected the call (300): moved"
    );
    assert_eq!(
        ProviderRouterError::NotHosted.message(),
        "not running as a Core-hosted sidecar"
    );
    assert!(router_answer(204, String::new()).is_ok());
}
