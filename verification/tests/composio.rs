use ryu_ugc::auth::{empty_cache, is_configured, key, set_key};
use ryu_ugc::catalog;
use ryu_ugc::catalog::{base_url, validate_base_url, DEFAULT_BASE_URL};
use ryu_ugc::composio::{
    as_count, build_args, checked_action, id_segment_is_safe, key_precondition,
    platform_metric_sources, sample_from, select, source_for, MetricError, MetricOutcome,
    PlatformMetricSource,
};
use ryu_ugc::connect;
use ryu_ugc::connect::{
    auth_config_body, check_connection_id, check_toolkit, connect_base_url, connection_status,
    created_auth_config, entity, existing_auth_config, is_active_status, link_body,
    list_connections, normalize_connection, read_link, ConnectStep,
};
use ryu_ugc::execute::{
    detect_elicitation, dispatch_answer, dispatch_request, error_text, execute_base_url,
    fetch_metrics, fetch_with_source, find_connect_url, read_metrics, resolve_entity, ExecOutcome,
};
use ryu_ugc::json::{str_field, Json};
use serde_json::Value;

fn plain(v: &Value) -> Json {
    match v {
        Value::Null => Json::Null,
        Value::Bool(b) => Json::Bool(*b),
        Value::Number(n) => match (n.as_i64(), n.as_u64()) {
            (Some(i), _) => Json::Int(i),
            (None, Some(u)) => Json::Big(u as i128),
            _ => Json::Fraction {
                written: n.to_string(),
                whole: n.as_f64().unwrap_or(0.0) as i64,
            },
        },
        Value::String(s) => Json::Text(s.clone()),
        Value::Array(a) => Json::Array(a.iter().map(plain).collect()),
        Value::Object(m) => Json::Object(m.iter().map(|(k, v)| (k.clone(), plain(v))).collect()),
    }
}

fn json(text: &str) -> Json {
    plain(&serde_json::from_str(text).expect("valid JSON"))
}

fn text_at<'a>(v: &'a Json, key: &str) -> Option<&'a str> {
    v.get(key).and_then(Json::as_str)
}

fn youtube() -> PlatformMetricSource {
    source_for("youtube").expect("youtube is curated")
}

// ---- the curated table ----------------------------------------------------------

#[test]
fn every_curated_action_is_a_safe_tool_id_segment() {
    for src in platform_metric_sources() {
        assert!(
            id_segment_is_safe(src.action),
            "'{}' ({}) is not a safe action slug",
            src.action,
            src.platform
        );
        assert!(!src.id_arg.is_empty(), "{} has no id_arg", src.platform);
        assert!(
            !src.views.is_empty(),
            "{} has no views selector",
            src.platform
        );
        assert_eq!(
            src.platform,
            src.platform.to_ascii_lowercase(),
            "platform keys are stored lowercased on submissions.platform"
        );
    }
}

#[test]
fn id_segment_is_safe_rejects_traversal_and_separators() {
    assert!(id_segment_is_safe("YOUTUBE_VIDEOS_LIST"));
    assert!(!id_segment_is_safe(""));
    assert!(!id_segment_is_safe(".."));
    assert!(!id_segment_is_safe("../../api/agents/foo?"));
    assert!(!id_segment_is_safe("a/b"));
    assert!(!id_segment_is_safe("a b"));
}

#[test]
fn curated_actions_are_bare_slugs_with_no_mcp_prefix() {
    for src in platform_metric_sources() {
        let action = checked_action(src.action).expect("curated slug passes the guard");
        assert_eq!(action, src.action);
        assert!(
            !action.contains('.'),
            "'{action}' is not a bare Composio action slug"
        );
    }
}

#[test]
fn key_precondition_names_this_apps_own_settings_not_cores() {
    assert!(key_precondition(true).is_ok());
    let err = key_precondition(false).unwrap_err();
    assert!(
        matches!(err, MetricError::Unsupported(_)),
        "an unset key is a precondition the operator fixes, not upstream trouble"
    );
    assert!(
        err.message().contains("/api/ugc/settings/composio-key"),
        "{}",
        err.message()
    );
    assert!(err.message().contains("RYU_COMPOSIO_API_KEY"));
    assert!(err.message().contains("does not reach this sidecar"));
}

#[test]
fn checked_action_refuses_an_unsafe_slug() {
    for bad in ["", "..", "../../api/agents/foo?", "a/b", "a b"] {
        let err = checked_action(bad).unwrap_err();
        assert!(matches!(err, MetricError::Unsupported(_)));
        assert!(err.message().contains("not a safe action slug"));
    }
}

#[test]
fn source_lookup_is_case_insensitive_and_total() {
    assert_eq!(source_for("YouTube").unwrap().platform, "youtube");
    assert_eq!(source_for("  x  ").unwrap().platform, "x");
    assert!(source_for("myspace").is_none());
}

// ---- reading a response ------------------------------------------------------------

#[test]
fn as_count_reads_numbers_strings_and_degrades_to_zero() {
    assert_eq!(as_count(&json("41200")), 41_200);
    // YouTube returns its statistics as STRINGS — the case that would silently
    // report every video as 0 views if this branch were dropped.
    assert_eq!(as_count(&json("\"41200\"")), 41_200);
    assert_eq!(as_count(&json("12.9")), 12);
    assert_eq!(as_count(&Json::Null), 0);
    assert_eq!(as_count(&json("{}")), 0);
    assert_eq!(as_count(&json("18446744073709551615")), i64::MAX);
}

#[test]
fn select_walks_objects_and_array_indices_and_misses_to_null() {
    let body = json(r#"{ "items": [{ "statistics": { "viewCount": "7" } }] }"#);
    assert_eq!(
        select(&body, "items.0.statistics.viewCount").as_str(),
        Some("7")
    );
    // A platform that stopped reporting a counter must yield null (→ 0), not
    // block the four counters that did come back in the same response.
    assert!(matches!(
        select(&body, "items.0.statistics.likeCount"),
        Json::Null
    ));
    assert!(matches!(select(&body, "items.9"), Json::Null));
    assert_eq!(format!("{:?}", select(&body, "")), format!("{body:?}"));
}

#[test]
fn build_args_carries_the_post_id_under_the_rows_arg_name() {
    let args = build_args(&youtube(), "dQw4w9WgXcQ");
    assert_eq!(text_at(&args, "id"), Some("dQw4w9WgXcQ"));
    // …plus the row's constant projection, which is what makes the API return
    // the statistics block at all.
    assert_eq!(text_at(&args, "part"), Some("statistics"));
    let Json::Object(members) = args else {
        panic!("an object");
    };
    assert_eq!(members.len(), 2);
}

#[test]
fn sample_from_applies_the_rows_selectors() {
    let body = json(
        r#"{ "items": [{ "statistics": {
            "viewCount": "41200", "likeCount": "812", "commentCount": "45"
        }}] }"#,
    );
    let sample = sample_from(&youtube(), &body).unwrap();
    assert_eq!(sample.views, 41_200);
    assert_eq!(sample.likes, 812);
    assert_eq!(sample.comments, 45);
    // No shares/saves selector for YouTube ⇒ 0, not an error.
    assert_eq!(sample.shares, 0);
    assert_eq!(sample.saves, 0);
}

#[test]
fn sample_from_refuses_a_response_that_carries_none_of_its_counters() {
    for body in [
        json("{}"),
        json(r#"{ "successful": false, "error": "rate limited" }"#),
    ] {
        let err = sample_from(&youtube(), &body).unwrap_err();
        assert!(
            matches!(err, MetricError::Upstream(_)),
            "a shapeless response is upstream trouble, not an unsupported row"
        );
        assert!(err.message().contains("without any of the counters"));
    }
}

#[test]
fn sample_from_accepts_a_genuinely_zero_counter() {
    let body = json(r#"{ "items": [{ "statistics": { "viewCount": "0" } }] }"#);
    assert_eq!(sample_from(&youtube(), &body).unwrap().views, 0);
}

/// Both preconditions must be refused BEFORE anything leaves the process.
#[test]
fn fetch_refuses_an_unsafe_slug_and_an_empty_post_id_without_dispatching() {
    let bad = PlatformMetricSource {
        action: "../../api/agents/foo?",
        ..youtube()
    };
    let Err(err) = fetch_with_source(&bad, "dQw4w9WgXcQ", true) else {
        panic!("an unsafe slug must be refused");
    };
    assert!(matches!(err, MetricError::Unsupported(_)));
    assert!(err.message().contains("not a safe action slug"));

    let Err(err) = fetch_metrics("youtube", "   ", true) else {
        panic!("a blank post id must be refused");
    };
    assert!(err.message().contains("no external post id"));
}

#[test]
fn fetch_metrics_refuses_a_platform_with_no_curated_source() {
    let Err(err) = fetch_metrics("myspace", "1", true) else {
        panic!("an uncurated platform must be refused");
    };
    assert!(matches!(err, MetricError::Unsupported(_)));
    assert!(err.message().contains("no Composio metric source"));
}

#[test]
fn a_fetch_asks_for_the_post_or_for_a_key() {
    let request = fetch_metrics("YouTube", "dQw4w9WgXcQ", true)
        .ok()
        .expect("everything is there");
    assert_eq!(request.source.action, "YOUTUBE_VIDEOS_LIST");
    assert_eq!(text_at(&request.arguments, "id"), Some("dQw4w9WgXcQ"));
    let Err(err) = fetch_metrics("youtube", "dQw4w9WgXcQ", false) else {
        panic!("no key, no fetch");
    };
    assert!(err.message().contains("RYU_COMPOSIO_API_KEY"));
}

#[test]
fn needs_connection_carries_no_sample() {
    let outcome = MetricOutcome::NeedsConnection {
        message: "No active connection for TikTok".to_string(),
        connect_url: Some("https://composio.dev/connect/abc".to_string()),
    };
    assert!(!matches!(outcome, MetricOutcome::Sample(_)));
    let read = read_metrics(
        &youtube(),
        Ok(ExecOutcome::NeedsConnection {
            message: "link it".to_string(),
            url: None,
        }),
    );
    assert!(matches!(
        read,
        Ok(MetricOutcome::NeedsConnection {
            connect_url: None,
            ..
        })
    ));
    assert!(matches!(
        read_metrics(&youtube(), Err("down".to_string())),
        Err(MetricError::Upstream(_))
    ));
}

// ---- the key ---------------------------------------------------------------------

#[test]
fn set_then_clear_key() {
    let mut cache = empty_cache();
    set_key(&mut cache, "  comp_abc123  ");
    assert_eq!(key(&cache, None, None).as_deref(), Some("comp_abc123"));
    set_key(&mut cache, "   ");
    // Falls back to the environment, which holds none.
    assert_eq!(key(&cache, None, None), None);
    assert!(!is_configured(&cache, None, None));
}

#[test]
fn env_fallback_prefers_ryu_prefixed_and_trims() {
    let cache = empty_cache();
    // RYU_-prefixed wins over the plain env, and surrounding space is trimmed.
    assert_eq!(
        key(&cache, Some("  ryu_key  "), Some("plain_key")).as_deref(),
        Some("ryu_key")
    );
    assert!(is_configured(&cache, Some("  ryu_key  "), Some("plain_key")));

    // With only the plain env set, it resolves.
    assert_eq!(
        key(&cache, None, Some("plain_key")).as_deref(),
        Some("plain_key")
    );

    // An all-whitespace env value is filtered back to None (not configured).
    assert_eq!(key(&cache, None, Some("   ")), None);
    assert!(!is_configured(&cache, None, Some("   ")));
}

#[test]
fn preferences_cache_beats_env() {
    let mut cache = empty_cache();
    set_key(&mut cache, "pref_key");
    // The in-process (preferences) cache is consulted first.
    assert_eq!(
        key(&cache, None, Some("env_key")).as_deref(),
        Some("pref_key")
    );
    // Clearing it falls through to env.
    set_key(&mut cache, "");
    assert_eq!(
        key(&cache, None, Some("env_key")).as_deref(),
        Some("env_key")
    );
}

#[test]
fn is_configured_false_without_key() {
    assert!(!is_configured(&empty_cache(), None, None));
}

// ---- the catalog -------------------------------------------------------------------

#[test]
fn base_url_defaults_and_trims_override() {
    assert_eq!(base_url(None), DEFAULT_BASE_URL);
    // An override wins and has any trailing slashes stripped.
    assert_eq!(
        base_url(Some("https://api.composio.dev/api/v3//")),
        "https://api.composio.dev/api/v3"
    );
    // An empty override is ignored (falls back to the default).
    assert_eq!(base_url(Some("")), DEFAULT_BASE_URL);
}

#[test]
fn validate_base_url_accepts_both_allowlisted_hosts() {
    assert!(validate_base_url("https://backend.composio.dev/api/v3.1").is_ok());
    assert!(validate_base_url("https://api.composio.dev").is_ok());
    // Case-insensitive host match.
    assert!(validate_base_url("https://BACKEND.Composio.Dev/api").is_ok());
}

#[test]
fn validate_base_url_rejects_off_policy() {
    // Plain http is rejected before the key is ever attached.
    assert!(validate_base_url("http://backend.composio.dev").is_err());
    // A non-allowlisted host is rejected even over https.
    assert!(validate_base_url("https://evil.example.com/api").is_err());
    // A look-alike subdomain is not on the allowlist.
    assert!(validate_base_url("https://backend.composio.dev.evil.com").is_err());
    // Unparseable / schemeless input is an error, not a panic.
    assert!(validate_base_url("not a url").is_err());
}

#[test]
fn items_of_reads_every_shape() {
    // `items` wins first.
    let v = json(r#"{ "items": [{"a":1}], "data": [{"b":2}] }"#);
    assert_eq!(catalog::items_of(&v).len(), 1);
    assert!(matches!(catalog::items_of(&v)[0].get("a"), Some(Json::Int(1))));
    // `data` when no `items`.
    let v = json(r#"{ "data": [{"b":2},{"b":3}] }"#);
    assert_eq!(catalog::items_of(&v).len(), 2);
    // A bare top-level array.
    let v = json(r#"[{"c":1}]"#);
    assert_eq!(catalog::items_of(&v).len(), 1);
    // Anything else → empty.
    assert!(catalog::items_of(&json(r#"{ "nope": true }"#)).is_empty());
    assert!(catalog::items_of(&json("42")).is_empty());
}

#[test]
fn str_field_first_nonempty_and_meta_fallback() {
    let item = json(r#"{ "slug": "", "name": "GitHub", "meta": { "logo": "x.png" } }"#);
    // Empty candidate is skipped in favour of the next key.
    assert_eq!(
        str_field(&item, &["slug", "name"]).as_deref(),
        Some("GitHub")
    );
    // A field only present under `meta` is found.
    assert_eq!(str_field(&item, &["logo"]).as_deref(), Some("x.png"));
    // No match anywhere → None.
    assert!(str_field(&item, &["absent"]).is_none());
    // A non-string value is not treated as a match.
    let item = json(r#"{ "count": 3 }"#);
    assert!(str_field(&item, &["count"]).is_none());
}

#[test]
fn the_lists_keep_what_has_a_name() {
    let raw = json(r#"{ "items": [{ "slug": "gmail", "name": "Gmail" }, { "logo": "x" }] }"#);
    let toolkits = catalog::list_toolkits(&raw);
    let Some(Json::Array(data)) = toolkits.get("data") else {
        panic!("a list");
    };
    assert_eq!(data.len(), 1);
    assert_eq!(text_at(&toolkits, "object"), Some("list"));
    let actions = catalog::list_actions(&json(r#"{ "items": [{ "slug": "A_B" }, {}] }"#), "gmail");
    let Some(Json::Array(data)) = actions.get("data") else {
        panic!("a list");
    };
    assert_eq!(data.len(), 1);
    let triggers = catalog::list_triggers(&json(r#"[{ "name": "on_mail" }]"#), "gmail");
    let Some(Json::Array(data)) = triggers.get("data") else {
        panic!("a list");
    };
    assert_eq!(text_at(&data[0], "name"), Some("on_mail"));
    assert_eq!(text_at(&data[0], "toolkit"), Some("gmail"));
}

// ---- connections --------------------------------------------------------------------

#[test]
fn entity_defaults_to_default() {
    assert_eq!(entity(None), "default");
}

#[test]
fn entity_reads_env_override() {
    assert_eq!(entity(Some("  member-9  ")), "member-9");
    // A whitespace-only override falls back to the default.
    assert_eq!(entity(Some("   ")), "default");
}

#[test]
fn connect_base_is_v3_on_allowlisted_host() {
    // Default catalog base is …/api/v3.1 → connect base is …/api/v3.
    assert_eq!(
        connect_base_url(None).unwrap(),
        "https://backend.composio.dev/api/v3"
    );
}

#[test]
fn connect_base_url_rejects_off_policy_override() {
    // Non-https catalog base → connect base build fails.
    assert!(connect_base_url(Some("http://backend.composio.dev/api/v3.1")).is_err());
    // Off-allowlist host over https → fails (key must never leave for it).
    assert!(connect_base_url(Some("https://evil.example.com/api/v3.1")).is_err());
}

#[test]
fn is_active_status_only_for_active() {
    assert!(is_active_status("ACTIVE"));
    assert!(is_active_status("active"));
    assert!(!is_active_status("INITIATED"));
    assert!(!is_active_status("FAILED"));
}

#[test]
fn normalize_connection_reads_nested_toolkit() {
    let item = json(
        r#"{ "id": "ca_123", "status": "ACTIVE", "toolkit": { "slug": "github" } }"#,
    );
    let n = normalize_connection(&item);
    assert_eq!(text_at(&n, "id"), Some("ca_123"));
    assert_eq!(text_at(&n, "toolkit"), Some("github"));
    assert_eq!(n.get("active").and_then(Json::as_bool), Some(true));
}

#[test]
fn normalize_connection_reads_flat_toolkit_slug() {
    let item = json(r#"{ "id": "ca_456", "status": "INITIATED", "toolkit_slug": "slack" }"#);
    let n = normalize_connection(&item);
    assert_eq!(text_at(&n, "toolkit"), Some("slack"));
    assert_eq!(n.get("active").and_then(Json::as_bool), Some(false));
}

#[test]
fn normalize_connection_reads_camel_appname_and_alt_status_and_id_keys() {
    let item = json(
        r#"{ "connected_account_id": "ca_789", "connectionStatus": "active", "appName": "notion" }"#,
    );
    let n = normalize_connection(&item);
    assert_eq!(text_at(&n, "id"), Some("ca_789"));
    assert_eq!(text_at(&n, "toolkit"), Some("notion"));
    assert_eq!(text_at(&n, "status"), Some("active"));
    assert_eq!(n.get("active").and_then(Json::as_bool), Some(true));
}

#[test]
fn normalize_connection_missing_fields_default_empty_and_inactive() {
    let n = normalize_connection(&json("{}"));
    assert_eq!(text_at(&n, "id"), Some(""));
    assert_eq!(text_at(&n, "toolkit"), Some(""));
    assert_eq!(text_at(&n, "status"), Some(""));
    assert_eq!(n.get("active").and_then(Json::as_bool), Some(false));
}

#[test]
fn items_of_reads_connection_specific_keys() {
    // The connect module additionally recognises connected_accounts / accounts.
    let count = |text: &str| connect::items_of(&json(text)).len();
    assert_eq!(count(r#"{ "connected_accounts": [{"id":"a"}] }"#), 1);
    assert_eq!(count(r#"{ "accounts": [{"id":"b"},{"id":"c"}] }"#), 2);
    // Falls through to items/data and bare arrays too.
    assert_eq!(count(r#"{ "items": [{"id":"d"}] }"#), 1);
    assert_eq!(count(r#"[{"id":"e"}]"#), 1);
    assert_eq!(count(r#"{ "nope": 1 }"#), 0);
}

#[test]
fn str_field_meta_fallback() {
    let item = json(r#"{ "id": "", "meta": { "id": "from-meta" } }"#);
    assert_eq!(str_field(&item, &["id"]).as_deref(), Some("from-meta"));
    assert!(str_field(&item, &["missing"]).is_none());
}

#[test]
fn initiate_rejects_empty_toolkit() {
    let err = check_toolkit("   ").expect_err("empty toolkit must error before any HTTP");
    assert!(err.contains("toolkit is required"));
    assert!(check_toolkit("gmail").is_ok());
}

#[test]
fn connection_status_rejects_empty_id() {
    let err = check_connection_id("  ").expect_err("empty id must error before any HTTP");
    assert!(err.contains("connection id is required"));
    assert!(check_connection_id("ca_1").is_ok());
}

#[test]
fn a_connection_keeps_the_id_it_was_asked_for() {
    let n = connection_status(&json(r#"{ "data": { "status": "ACTIVE" } }"#), "ca_1");
    assert_eq!(text_at(&n, "id"), Some("ca_1"));
    assert_eq!(n.get("active").and_then(Json::as_bool), Some(true));
    let listed = list_connections(&json(r#"[{ "id": "a" }, { "id": "b" }]"#));
    let Some(Json::Array(data)) = listed.get("data") else {
        panic!("a list");
    };
    assert_eq!(data.len(), 2);
}

#[test]
fn a_link_is_asked_for_and_read() {
    assert_eq!(
        existing_auth_config(&json(r#"{ "items": [{ "id": "ac_1" }] }"#)).as_deref(),
        Some("ac_1")
    );
    assert_eq!(existing_auth_config(&json(r#"{ "items": [] }"#)), None);
    assert!(created_auth_config(&json(r#"{ "auth_config": { "id": "ac_2" } }"#))
        .unwrap()
        .contains("ac_2"));
    assert!(created_auth_config(&json("{}")).is_err());
    let body = auth_config_body("gmail");
    assert_eq!(
        body.get("toolkit").and_then(|t| text_at(t, "slug")),
        Some("gmail")
    );
    let body = link_body("ac_1", "member-9");
    assert_eq!(text_at(&body, "auth_config_id"), Some("ac_1"));
    let link = read_link(
        &json(r#"{ "redirect_url": "https://c/1", "connected_account_id": "ca_1" }"#),
        "gmail",
    )
    .unwrap();
    assert_eq!(text_at(&link, "redirect_url"), Some("https://c/1"));
    assert!(read_link(&json("{}"), "gmail").is_err());
}

fn pairs(v: &[(&str, &str)]) -> Vec<(String, String)> {
    v.iter().map(|(k, v)| (k.to_string(), v.to_string())).collect()
}

#[test]
fn a_read_of_the_catalog_needs_a_key_and_a_pinned_base() {
    let sent = catalog::actions_request(
        Some("k-1".to_string()),
        Some("https://api.composio.dev/api/v3//"),
        "gmail",
        "",
        20,
    )
    .unwrap();
    assert_eq!(sent.url, "https://api.composio.dev/api/v3/tools");
    assert_eq!(sent.key, "k-1");
    // The empty search is not sent.
    assert_eq!(sent.pairs, pairs(&[("toolkit_slug", "gmail"), ("limit", "20")]));
    let sent = catalog::toolkits_request(Some("k-1".to_string()), None).unwrap();
    assert_eq!(sent.url, "https://backend.composio.dev/api/v3.1/toolkits");
    assert!(sent.pairs.is_empty());
    let sent = catalog::triggers_request(Some("k-1".to_string()), None, "github").unwrap();
    assert_eq!(sent.url, "https://backend.composio.dev/api/v3.1/triggers_types");
    assert_eq!(sent.pairs, pairs(&[("toolkit_slug", "github")]));

    let refusal = catalog::toolkits_request(None, Some("http://nowhere")).map(|q| q.url);
    assert_eq!(
        refusal.unwrap_err(),
        "Composio API key not set (Settings → Integrations)"
    );
    let refusal = catalog::toolkits_request(Some("k-1".to_string()), Some("https://evil.example"));
    assert_eq!(
        refusal.map(|q| q.url).unwrap_err(),
        "COMPOSIO_BASE_URL host 'evil.example' is not allowlisted"
    );
}

#[test]
fn a_read_is_answered_refused_or_unreadable() {
    assert!(matches!(
        catalog::get_answer(200, "200 OK", "", Ok(Json::Int(1))),
        Ok(Json::Int(1))
    ));
    assert_eq!(
        catalog::get_answer(404, "404 Not Found", "gone", Ok(Json::Null)).unwrap_err(),
        "Composio API 404 Not Found: gone"
    );
    assert_eq!(
        catalog::get_answer(200, "200 OK", "", Err("EOF".to_string())).unwrap_err(),
        "Composio response parse error: EOF"
    );
}

#[test]
fn connect_requests_go_to_v3_on_the_pinned_host() {
    let key = || Some("k-1".to_string());
    let sent = connect::connections_request(key(), None, "default", "").unwrap();
    assert_eq!(sent.url, "https://backend.composio.dev/api/v3/connected_accounts");
    assert_eq!(sent.pairs, pairs(&[("user_ids", "default")]));
    let sent = connect::auth_configs_request(key(), None, "gmail").unwrap();
    assert_eq!(sent.url, "https://backend.composio.dev/api/v3/auth_configs");
    assert_eq!(sent.pairs, pairs(&[("toolkit_slug", "gmail")]));
    let sent = connect::status_request(key(), None, "ca_1").unwrap();
    assert_eq!(sent.url, "https://backend.composio.dev/api/v3/connected_accounts/ca_1");
    assert_eq!(
        connect::status_request(None, None, "  ").map(|q| q.url).unwrap_err(),
        "connection id is required"
    );
    assert_eq!(
        connect::connections_request(None, None, "default", "").map(|q| q.url).unwrap_err(),
        "Composio API key not set (Gateway → Keys)"
    );
    assert!(connect::auth_configs_request(key(), Some("https://evil.example"), "gmail").is_err());

    let sent = connect::create_config_request(key(), None, "gmail").unwrap();
    assert_eq!(sent.url, "https://backend.composio.dev/api/v3/auth_configs");
    assert_eq!(sent.key, "k-1");
    let sent = connect::link_request(key(), None, "ac_1", "member-9").unwrap();
    assert_eq!(sent.url, "https://backend.composio.dev/api/v3/connected_accounts/link");
    assert_eq!(text_at(&sent.body, "user_id"), Some("member-9"));
    assert!(connect::link_request(None, None, "ac_1", "member-9").is_err());

    assert!(matches!(
        connect::post_answer(201, "201 Created", Json::Bool(true), ""),
        Ok(Json::Bool(true))
    ));
    assert_eq!(
        connect::post_answer(400, "400 Bad Request", json(r#"{ "message": "no" }"#), "")
            .unwrap_err(),
        "Composio API 400 Bad Request: no"
    );
}

#[test]
fn connecting_uses_a_config_or_creates_one_and_then_links() {
    assert!(matches!(connect::initiate("gmail"), ConnectStep::List));
    assert!(matches!(
        connect::initiate("  "),
        ConnectStep::Failed(m) if m == "toolkit is required to connect"
    ));
    let list = json(r#"{ "items": [{ "id": "ac_1" }] }"#);
    assert!(matches!(
        connect::ensure_auth_config(Ok(list)),
        ConnectStep::Link(id) if id == "ac_1"
    ));
    assert!(matches!(connect::ensure_auth_config(Ok(json("[]"))), ConnectStep::Create));
    // A list that could not be had is no reason to give up.
    assert!(matches!(
        connect::ensure_auth_config(Err("down".to_string())),
        ConnectStep::Create
    ));
    assert!(matches!(
        connect::after_create(Ok(json(r#"{ "data": { "nanoid": "ac_3" } }"#))),
        ConnectStep::Link(id) if id == "ac_3"
    ));
    assert!(matches!(
        connect::after_create(Ok(json("{}"))),
        ConnectStep::Failed(m) if m == "Composio auth config created but no id was returned"
    ));
    assert!(matches!(
        connect::after_create(Err("down".to_string())),
        ConnectStep::Failed(m) if m == "down"
    ));
    let linked = json(r#"{ "redirect_url": "https://c/1", "id": "ca_1" }"#);
    assert!(matches!(
        connect::after_link(Ok(linked), "gmail"),
        ConnectStep::Finished(v) if text_at(&v, "connection_id") == Some("ca_1")
    ));
    assert!(matches!(
        connect::after_link(Err("down".to_string()), "gmail"),
        ConnectStep::Failed(m) if m == "down"
    ));
}

// ---- executing an action ---------------------------------------------------------------

#[test]
fn resolve_entity_prefers_user_id() {
    assert_eq!(resolve_entity(Some("user-42"), None), "user-42");
    assert_eq!(resolve_entity(Some("  user-42  "), None), "user-42");
}

#[test]
fn resolve_entity_falls_back_to_default_when_no_user() {
    assert_eq!(resolve_entity(None, None), "default");
    assert_eq!(resolve_entity(Some("   "), None), "default");
}

#[test]
fn resolve_entity_reads_env_fallback() {
    // No user id → the (trimmed) env entity is used.
    assert_eq!(resolve_entity(None, Some("  ent-77  ")), "ent-77");
    // A present user id still wins over the env.
    assert_eq!(resolve_entity(Some("u-1"), Some("  ent-77  ")), "u-1");
    // A blank env value is filtered → "default".
    assert_eq!(resolve_entity(None, Some("   ")), "default");
}

#[test]
fn validate_base_url_pins_https_and_host() {
    assert!(validate_base_url("https://backend.composio.dev/api/v3.1").is_ok());
    assert!(validate_base_url("http://backend.composio.dev").is_err());
    assert!(validate_base_url("https://evil.example.com").is_err());
}

#[test]
fn execute_base_url_validates_override() {
    assert_eq!(
        execute_base_url(None).unwrap(),
        "https://backend.composio.dev/api/v3.1"
    );
    // An off-policy override is rejected before the key is sent.
    assert!(execute_base_url(Some("https://evil.example.com")).is_err());
    assert!(execute_base_url(Some("http://backend.composio.dev")).is_err());
}

#[test]
fn detect_elicitation_on_redirect_url() {
    let body = json(
        r#"{ "successful": false, "redirect_url": "https://composio.dev/connect/abc",
             "error": "no connected account for github" }"#,
    );
    match detect_elicitation(400, &body).expect("elicitation") {
        ExecOutcome::NeedsConnection { message, url } => {
            assert_eq!(url.as_deref(), Some("https://composio.dev/connect/abc"));
            assert!(message.contains("connected account"));
        }
        other => panic!("expected NeedsConnection, got {other:?}"),
    }
}

#[test]
fn detect_elicitation_on_connection_phrase_without_url() {
    let body = json(r#"{ "error": "User needs to be connected to Slack first" }"#);
    match detect_elicitation(403, &body).expect("elicitation") {
        ExecOutcome::NeedsConnection { url, .. } => {
            // No URL present → None.
            assert!(url.is_none());
        }
        other => panic!("expected NeedsConnection, got {other:?}"),
    }
}

#[test]
fn detect_elicitation_none_on_normal_success() {
    let body = json(r#"{ "successful": true, "data": { "issue": 1 } }"#);
    assert!(detect_elicitation(200, &body).is_none());
}

#[test]
fn detect_elicitation_none_on_unrelated_error() {
    let body = json(r#"{ "error": "invalid argument: title is required" }"#);
    assert!(detect_elicitation(422, &body).is_none());
}

#[test]
fn find_connect_url_scans_nested_scopes_and_requires_http() {
    // Top-level camelCase key.
    assert_eq!(
        find_connect_url(&json(r#"{ "redirectUrl": "https://c/1" }"#)).as_deref(),
        Some("https://c/1")
    );
    // Nested under data.connection.
    assert_eq!(
        find_connect_url(&json(
            r#"{ "data": { "connection": { "auth_url": "https://c/2" } } }"#
        ))
        .as_deref(),
        Some("https://c/2")
    );
    // A non-http value is ignored (must start with "http").
    assert!(find_connect_url(&json(r#"{ "connect_url": "ftp://x" }"#)).is_none());
    // Nothing anywhere → None.
    assert!(find_connect_url(&json(r#"{ "unrelated": true }"#)).is_none());
}

#[test]
fn error_text_first_nonempty_key() {
    assert_eq!(
        error_text(&json(r#"{ "error": "boom" }"#)).as_deref(),
        Some("boom")
    );
    // Empty `error` is skipped in favour of `message`.
    assert_eq!(
        error_text(&json(r#"{ "error": "", "message": "second" }"#)).as_deref(),
        Some("second")
    );
    assert_eq!(
        error_text(&json(r#"{ "detail": "d" }"#)).as_deref(),
        Some("d")
    );
    assert!(error_text(&json(r#"{ "nope": 1 }"#)).is_none());
}

#[test]
fn detect_elicitation_url_alone_triggers_on_success_status() {
    // A URL present is sufficient even on a 2xx with no error text.
    let body = json(r#"{ "connection": { "redirect_url": "https://connect/x" } }"#);
    match detect_elicitation(200, &body).expect("elicitation") {
        ExecOutcome::NeedsConnection { message, url } => {
            assert_eq!(url.as_deref(), Some("https://connect/x"));
            // No message in the body → the default guidance is used.
            assert!(message.contains("requires connecting"));
        }
        other => panic!("expected NeedsConnection, got {other:?}"),
    }
}

#[test]
fn detect_elicitation_failure_flag_with_phrase() {
    // successful:false + a connection phrase, no explicit URL.
    let body = json(r#"{ "successful": false, "message": "No active connection for Gmail" }"#);
    match detect_elicitation(200, &body).expect("elicitation") {
        ExecOutcome::NeedsConnection { message, url } => {
            assert!(url.is_none());
            // Original casing is preserved in the surfaced message.
            assert!(message.contains("No active connection"));
        }
        other => panic!("expected NeedsConnection, got {other:?}"),
    }
}

#[test]
fn detect_elicitation_none_when_failure_but_unrelated() {
    // 4xx / error present but the phrase does not match and no URL → None.
    assert!(detect_elicitation(500, &json(r#"{ "error": "internal" }"#)).is_none());
    // successful:true with no url and no phrase → None.
    assert!(detect_elicitation(200, &json(r#"{ "successful": true }"#)).is_none());
}

#[test]
fn dispatch_errors_without_key() {
    let err = dispatch_request(
        None,
        "GITHUB_CREATE_ISSUE",
        Json::Object(vec![]),
        None,
        None,
        None,
    )
    .err()
    .expect("must error without a key");
    assert!(err.contains("Composio API key not set"));
}

#[test]
fn a_dispatch_is_addressed_and_its_answer_read() {
    let request = dispatch_request(
        Some("k".to_string()),
        "GITHUB_CREATE_ISSUE",
        Json::Object(vec![]),
        Some("member-9"),
        None,
        None,
    )
    .ok()
    .expect("a key and a base");
    assert_eq!(
        request.url,
        "https://backend.composio.dev/api/v3.1/tools/execute/GITHUB_CREATE_ISSUE"
    );
    assert_eq!(request.key, "k");
    let done = dispatch_answer(
        "T",
        200,
        "200 OK",
        &json(r#"{ "successful": true, "data": { "issue": 1 } }"#),
        "",
    );
    let Ok(ExecOutcome::Done(data)) = done else {
        panic!("a result");
    };
    assert!(matches!(data.get("issue"), Some(Json::Int(1))));
    // The phrase is found whatever its case, through the lower-case form of the message.
    let asked = dispatch_answer(
        "T",
        400,
        "400 Bad Request",
        &json(r#"{ "error": "NO CONNECTED ACCOUNT FOR THIS USER" }"#),
        "",
    );
    assert!(matches!(asked, Ok(ExecOutcome::NeedsConnection { .. })));
    let failed = dispatch_answer("T", 500, "500 Internal Server Error", &Json::Null, "oops");
    assert!(failed.unwrap_err().contains("500"));
}
