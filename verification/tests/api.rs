use std::sync::Mutex;

use ryu_ugc::api::{
    campaign_leaderboard, campaign_refresh_reply, campaign_submissions, campaign_summary,
    create_campaign, create_creator, delete_campaign, delete_creator, get_campaign, get_creator,
    health, list_campaigns, list_creators, list_platforms, overview, plan_campaign_refresh,
    update_campaign, update_creator,
};
use ryu_ugc::composio::{platform_metric_sources, MetricOutcome, MetricSample};
use ryu_ugc::engine::{campaign_report, RefreshError, SubmissionRefreshReport, UgcEngine};
use ryu_ugc::inputs::{
    is_truthy, normalize_platform, parse_limit, validate_campaign, CampaignBody, CampaignQuery,
    CreatorBody, CreatorQuery, ForceQuery, LimitQuery, MetricsBody, PayoutQuery, ReviewBody,
    SubmissionBody, SubmissionEditBody, SubmissionQuery,
};
use ryu_ugc::json::Json;
use ryu_ugc::payout_api::{approve_payout, get_payout, list_payouts, mark_payout_paid};
use ryu_ugc::records::{BonusTier, MetricSource, PayoutRule, PayoutStatus};
use ryu_ugc::replies::Reply;
use ryu_ugc::settings::{
    delete_composio_key, get_settings, put_composio_key, resolve_key_source, without_key,
    ComposioKeyBody, ComposioKeySource, UgcHost,
};
use ryu_ugc::store::{UgcStore, UnreadCreator};
use ryu_ugc::submission_api::{
    create_submission, delete_submission, get_submission, list_metrics, list_submissions,
    record_metrics, refresh_outcome_body, refresh_reply, review_submission, update_submission,
};
use ryu_ugc::weburl::{is_denied_host, parse_post_id, reparse_url, screen_post_url, WebUrl};

/// A key that must never appear in a response body or a refusal.
const SECRET: &str = "comp_live_do_not_leak_me";

fn ctx() -> UgcEngine {
    UgcEngine::new(UgcStore::new())
}

/// The value under a path of member names and indices.
fn at<'a>(v: &'a Json, path: &[&str]) -> &'a Json {
    let mut here = v;
    for step in path {
        here = match here {
            Json::Array(items) => &items[step.parse::<usize>().expect("an index")],
            _ => here.get(step).expect(step),
        };
    }
    here
}

fn text<'a>(v: &'a Json, path: &[&str]) -> &'a str {
    at(v, path).as_str().expect("a string")
}

fn num(v: &Json, path: &[&str]) -> i64 {
    match at(v, path) {
        Json::Int(n) => *n,
        other => panic!("an integer, got {other:?}"),
    }
}

fn flag(v: &Json, path: &[&str]) -> bool {
    at(v, path).as_bool().expect("a boolean")
}

fn is_null(v: &Json, path: &[&str]) -> bool {
    matches!(at(v, path), Json::Null)
}

fn len(v: &Json, path: &[&str]) -> usize {
    match at(v, path) {
        Json::Array(items) => items.len(),
        other => panic!("an array, got {other:?}"),
    }
}

fn campaign_body(brand: &str, payout: PayoutRule) -> CampaignBody {
    CampaignBody {
        brand: brand.to_string(),
        brief: "post a clip".to_string(),
        platforms: vec!["YouTube".to_string()],
        payout,
        ..CampaignBody::default()
    }
}

fn creator_body(name: &str) -> CreatorBody {
    CreatorBody {
        display_name: name.to_string(),
        ..CreatorBody::default()
    }
}

/// Create a campaign + creator and return their ids.
fn seed(ctx: &mut UgcEngine) -> (String, String) {
    let c = create_campaign(
        ctx,
        campaign_body("Acme", PayoutRule::Cpm { cpm_cents: 250 }),
    );
    let k = create_creator(ctx, creator_body("Ada"));
    (
        text(&c.body, &["campaign", "id"]).to_string(),
        text(&k.body, &["creator", "id"]).to_string(),
    )
}

fn submit(ctx: &mut UgcEngine, campaign: &str, creator: &str, url: &str) -> Reply {
    create_submission(
        ctx,
        SubmissionBody {
            campaign_id: campaign.to_string(),
            creator_id: creator.to_string(),
            platform: "youtube".to_string(),
            post_url: url.to_string(),
        },
    )
}

fn review(ctx: &mut UgcEngine, id: &str, decision: &str, reason: Option<&str>) -> Reply {
    review_submission(
        ctx,
        id,
        &ReviewBody {
            decision: decision.to_string(),
            reason: reason.map(str::to_string),
        },
    )
}

fn read_views(ctx: &mut UgcEngine, id: &str, views: i64) -> Reply {
    record_metrics(
        ctx,
        id,
        &MetricsBody {
            views,
            ..MetricsBody::default()
        },
    )
}

// ---- the happy path, resource by resource ------------------------------

#[test]
fn campaign_creator_submission_review_payout_roundtrip() {
    let mut ctx = ctx();
    let (campaign_id, creator_id) = seed(&mut ctx);

    // The campaign is listed, and an unknown ?status= lists everything
    // rather than answering "you have none".
    let listed = list_campaigns(
        &ctx.store,
        &CampaignQuery {
            status: Some("nonsense".into()),
        },
    );
    assert_eq!(len(&listed.body, &["campaigns"]), 1);

    let reply = submit(
        &mut ctx,
        &campaign_id,
        &creator_id,
        "https://youtu.be/dQw4w9WgXcQ",
    );
    assert_eq!(reply.status, 200);
    let submission_id = text(&reply.body, &["submission", "id"]).to_string();
    assert_eq!(
        text(&reply.body, &["submission", "external_post_id"]),
        "dQw4w9WgXcQ"
    );

    // Hand-entered metrics, then approval, then the accrued payout.
    assert_eq!(read_views(&mut ctx, &submission_id, 41_200).status, 200);

    let reviewed = review(&mut ctx, &submission_id, "approve", None);
    assert_eq!(reviewed.status, 200);
    assert!(flag(&reviewed.body, &["changed"]));
    // 41 200 views at 250c/1k floors to 10 300c.
    assert_eq!(num(&reviewed.body, &["payout", "amount_cents"]), 10_300);
    let payout_id = text(&reviewed.body, &["payout", "id"]).to_string();

    // Re-approving is a 200 no-op, not a second payout.
    let again = review(&mut ctx, &submission_id, "approve", None);
    assert_eq!(again.status, 200);
    assert!(!flag(&again.body, &["changed"]));

    // Money never skips approval.
    assert_eq!(mark_payout_paid(&mut ctx, &payout_id).status, 409);
    assert_eq!(approve_payout(&mut ctx, &payout_id).status, 200);
    let paid = mark_payout_paid(&mut ctx, &payout_id);
    assert_eq!(paid.status, 200);
    assert_eq!(text(&paid.body, &["payout", "status"]), "paid");

    // Paying flips the submission, and a paid payout locks the delete path.
    let one = get_submission(&ctx.store, &submission_id);
    assert_eq!(text(&one.body, &["submission", "status"]), "paid");
    // Settling money must not erase the review stamp.
    assert!(at(&one.body, &["submission", "reviewed_at"]).as_str().is_some());
    // The flattened shape: the submission's own fields sit at the top level.
    assert_eq!(num(&one.body, &["submission", "latest", "views"]), 41_200);
    assert_eq!(
        text(&one.body, &["submission", "latest", "source"]),
        "manual"
    );
    assert_eq!(num(&one.body, &["submission", "accrued_cents"]), 10_300);
    assert_eq!(text(&one.body, &["submission", "payout_status"]), "paid");
    let listed = campaign_submissions(&ctx.store, &campaign_id, SubmissionQuery::default());
    assert_eq!(
        num(&listed.body, &["submissions", "0", "accrued_cents"]),
        10_300
    );
    assert_eq!(
        text(&listed.body, &["submissions", "0", "payout_status"]),
        "paid"
    );

    assert_eq!(delete_submission(&mut ctx, &submission_id).status, 409);

    // And the campaign summary reports the spend.
    let summary = campaign_summary(&ctx.store, &campaign_id);
    assert_eq!(num(&summary.body, &["paid_cents"]), 10_300);
    assert!(is_null(&summary.body, &["remaining_cents"]), "0 budget = uncapped");
}

#[test]
fn a_duplicate_post_is_a_409_not_a_second_row() {
    let mut ctx = ctx();
    let (campaign_id, creator_id) = seed(&mut ctx);
    let url = "https://www.youtube.com/watch?v=dQw4w9WgXcQ";
    assert_eq!(submit(&mut ctx, &campaign_id, &creator_id, url).status, 200);
    // Same post, a different URL spelling — the parsed id is what collides.
    let reply = submit(
        &mut ctx,
        &campaign_id,
        &creator_id,
        "https://youtu.be/dQw4w9WgXcQ",
    );
    assert_eq!(reply.status, 409);
    assert_eq!(
        text(&reply.body, &["error"]),
        "this post has already been submitted to this campaign"
    );
    assert_eq!(ctx.store.submissions.len(), 1);
}

#[test]
fn a_creator_with_submissions_needs_force_to_delete() {
    let mut ctx = ctx();
    let (campaign_id, creator_id) = seed(&mut ctx);
    submit(
        &mut ctx,
        &campaign_id,
        &creator_id,
        "https://youtu.be/abc123",
    );

    let refused = delete_creator(&mut ctx, &creator_id, &ForceQuery { force: None });
    assert_eq!(refused.status, 409);
    assert_eq!(num(&refused.body, &["submissions"]), 1);
    assert_eq!(
        text(&refused.body, &["error"]),
        "creator still has 1 submission(s); pass ?force=true to delete them and their payouts too"
    );

    let reply = delete_creator(
        &mut ctx,
        &creator_id,
        &ForceQuery {
            force: Some("true".into()),
        },
    );
    assert_eq!(reply.status, 200);
    assert!(ctx.store.submissions.is_empty());
}

#[test]
fn missing_ids_are_404s() {
    let mut ctx = ctx();
    for reply in [
        get_campaign(&ctx.store, "nope"),
        get_creator(&ctx.store, "nope"),
        get_submission(&ctx.store, "nope"),
        get_payout(&ctx.store, "nope"),
        campaign_summary(&ctx.store, "nope"),
        plan_campaign_refresh(&ctx, "nope").err().expect("no campaign"),
    ] {
        assert_eq!(reply.status, 404);
    }
    assert_eq!(delete_campaign(&mut ctx, "nope").status, 404);
    assert_eq!(delete_submission(&mut ctx, "nope").status, 404);
    assert_eq!(approve_payout(&mut ctx, "nope").status, 404);
    assert_eq!(mark_payout_paid(&mut ctx, "nope").status, 404);
    assert_eq!(review(&mut ctx, "nope", "approve", None).status, 404);
    assert_eq!(read_views(&mut ctx, "nope", 1).status, 404);
    let body = campaign_body("Acme", PayoutRule::Flat { flat_cents: 1 });
    assert_eq!(update_campaign(&mut ctx, "nope", body).status, 404);
    assert_eq!(
        update_creator(&mut ctx, "nope", creator_body("Ada")).status,
        404
    );
    let missing = get_campaign(&ctx.store, "nope");
    assert_eq!(text(&missing.body, &["error"]), "campaign not found");
}

#[test]
fn records_that_cannot_be_read_are_500s() {
    let mut ctx = ctx();
    let (campaign_id, creator_id) = seed(&mut ctx);
    ctx.store.unread_campaigns.push("c2".into());
    ctx.store.unread_creators.push(UnreadCreator {
        id: "u2".into(),
        display_name: "bea".into(),
    });
    let body = campaign_body("Acme", PayoutRule::Flat { flat_cents: 1 });
    let update = update_campaign(&mut ctx, "c2", body);
    for reply in [
        get_campaign(&ctx.store, "c2"),
        campaign_summary(&ctx.store, "c2"),
        plan_campaign_refresh(&ctx, "c2").err().expect("no record"),
        update,
        submit(&mut ctx, "c2", &creator_id, "https://youtu.be/abc"),
    ] {
        assert_eq!(reply.status, 500);
        assert_eq!(text(&reply.body, &["error"]), "deserializing campaign");
    }
    let update = update_creator(&mut ctx, "u2", creator_body("Ada"));
    for reply in [
        get_creator(&ctx.store, "u2"),
        update,
        submit(&mut ctx, &campaign_id, "u2", "https://youtu.be/abc"),
    ] {
        assert_eq!(reply.status, 500);
        assert_eq!(text(&reply.body, &["error"]), "deserializing creator");
    }
    assert!(ctx.store.submissions.is_empty());
    assert_eq!(num(&health(&ctx.store).body, &["campaignCount"]), 2);
    assert_eq!(num(&overview(&ctx.store).body, &["creators"]), 2);
    assert_eq!(delete_campaign(&mut ctx, "c2").status, 200);
    assert_eq!(delete_campaign(&mut ctx, "c2").status, 404);
}

#[test]
fn a_submission_naming_an_unknown_campaign_is_a_400() {
    let mut ctx = ctx();
    let (campaign_id, creator_id) = seed(&mut ctx);
    let reply = submit(&mut ctx, "cmp_nope", &creator_id, "https://youtu.be/abc");
    assert_eq!(reply.status, 400);
    assert!(text(&reply.body, &["error"]).contains("campaign_id"));
    let reply = submit(&mut ctx, &campaign_id, "crt_nope", "https://youtu.be/abc");
    assert_eq!(reply.status, 400);
    assert!(text(&reply.body, &["error"]).contains("creator_id"));
    let blank = create_submission(
        &mut ctx,
        SubmissionBody {
            campaign_id,
            creator_id,
            platform: "  ".to_string(),
            post_url: "https://youtu.be/abc".to_string(),
        },
    );
    assert_eq!(text(&blank.body, &["error"]), "platform is required");
}

#[test]
fn refreshing_a_platform_with_no_curated_source_is_a_400() {
    let mut ctx = ctx();
    let (campaign_id, creator_id) = seed(&mut ctx);
    let reply = submit(
        &mut ctx,
        &campaign_id,
        &creator_id,
        "https://youtu.be/dQw4w9WgXcQ",
    );
    let id = text(&reply.body, &["submission", "id"]).to_string();
    // Retarget it at a platform the curated map does not cover.
    let reply = update_submission(
        &mut ctx,
        &id,
        &SubmissionEditBody {
            platform: Some("myspace".into()),
            post_url: None,
        },
    );
    assert_eq!(reply.status, 200);
    let error = ctx.refresh_submission(&id).unwrap_err();
    let reply = refresh_reply(&id, Err(error));
    assert_eq!(reply.status, 400);
    let body = &reply.body;
    assert!(text(body, &["error"]).contains("Composio"));
    // The failure ALSO carries the report line the campaign route serves.
    assert_eq!(text(body, &["status"]), "error");
    assert_eq!(text(body, &["submission_id"]), id);
    assert_eq!(text(body, &["message"]), text(body, &["error"]));
    assert!(is_null(body, &["snapshot"]));
}

#[test]
fn a_failed_refresh_has_a_status_of_its_own() {
    let status = |e: RefreshError| refresh_reply("s1", Err(e)).status;
    assert_eq!(status(RefreshError::NotFound), 404);
    assert_eq!(status(RefreshError::Unsupported("x".into())), 400);
    assert_eq!(status(RefreshError::Upstream("x".into())), 502);
    assert_eq!(status(RefreshError::Internal("x".into())), 500);
    let reply = refresh_reply("s1", Err(RefreshError::NotFound));
    assert_eq!(text(&reply.body, &["error"]), "submission not found");
}

#[test]
fn a_bad_payout_rule_or_bonus_ladder_is_a_400() {
    let mut ctx = ctx();
    let body = campaign_body("Acme", PayoutRule::Cpm { cpm_cents: -1 });
    assert_eq!(create_campaign(&mut ctx, body).status, 400);

    let mut body = campaign_body("Acme", PayoutRule::Flat { flat_cents: 100 });
    body.bonus_tiers = vec![
        BonusTier {
            views: 25_000,
            bonus_cents: 2_000,
        },
        BonusTier {
            views: 10_000,
            bonus_cents: 500,
        },
    ];
    let out = create_campaign(&mut ctx, body);
    assert_eq!(out.status, 400);
    assert!(text(&out.body, &["error"]).contains("increase strictly"));
    assert!(ctx.store.campaigns.is_empty());
}

#[test]
fn every_rule_of_a_campaign_has_its_message() {
    let fault = |body: CampaignBody| validate_campaign(&body).unwrap_err();
    let flat = PayoutRule::Flat { flat_cents: 1 };
    assert_eq!(fault(campaign_body("  ", flat)), "brand is required");
    assert_eq!(
        fault(campaign_body("A", PayoutRule::Cpm { cpm_cents: -1 })),
        "cpm_cents cannot be negative"
    );
    assert_eq!(
        fault(campaign_body("A", PayoutRule::Flat { flat_cents: -1 })),
        "flat_cents cannot be negative"
    );
    let mut body = campaign_body("A", flat);
    body.budget_cents = -1;
    assert_eq!(
        fault(body),
        "budget_cents cannot be negative (use 0 for uncapped)"
    );
    let mut body = campaign_body("A", flat);
    body.max_payout_per_creator_cents = -1;
    assert_eq!(
        fault(body),
        "max_payout_per_creator_cents cannot be negative (use 0 for uncapped)"
    );
    let tier = |views, bonus_cents| BonusTier { views, bonus_cents };
    let mut body = campaign_body("A", flat);
    body.bonus_tiers = vec![tier(10, -1)];
    assert_eq!(
        fault(body),
        "bonus tier views and bonus_cents cannot be negative"
    );
    let mut body = campaign_body("A", flat);
    body.bonus_tiers = vec![tier(10, 1), tier(10, 2)];
    assert_eq!(
        fault(body),
        "bonus tiers must increase strictly by view threshold (10 follows 10)"
    );
    let mut body = campaign_body("A", flat);
    body.bonus_tiers = vec![tier(10, 1), tier(20, 2)];
    assert!(validate_campaign(&body).is_ok());
}

#[test]
fn an_edit_keeps_the_identity_and_says_what_reprices() {
    let mut ctx = ctx();
    let (campaign_id, creator_id) = seed(&mut ctx);
    let reply = submit(&mut ctx, &campaign_id, &creator_id, "https://youtu.be/abc");
    let id = text(&reply.body, &["submission", "id"]).to_string();
    review(&mut ctx, &id, "approved", None);
    read_views(&mut ctx, &id, 41_200);
    let created = ctx.store.get_campaign(&campaign_id).unwrap().unwrap();

    let mut body = campaign_body(" Acme Two ", PayoutRule::Flat { flat_cents: 100 });
    body.status = Some(" ACTIVE ".into());
    let reply = update_campaign(&mut ctx, &campaign_id, body);
    assert_eq!(reply.status, 200);
    assert_eq!(text(&reply.body, &["campaign", "id"]), campaign_id);
    assert_eq!(text(&reply.body, &["campaign", "brand"]), "Acme Two");
    assert_eq!(text(&reply.body, &["campaign", "status"]), "active");
    assert_eq!(text(&reply.body, &["campaign", "platforms", "0"]), "youtube");
    assert_eq!(
        text(&reply.body, &["campaign", "created_at"]),
        created.created_at
    );
    assert_eq!(text(&reply.body, &["campaign", "payout", "type"]), "flat");
    assert_eq!(num(&reply.body, &["repricing", "accrued_cents"]), 10_300);
    assert_eq!(num(&reply.body, &["repricing", "frozen_cents"]), 0);
    // An open start is left out of what is sent.
    assert!(at(&reply.body, &["campaign"]).get("starts_at").is_none());

    // An unknown status keeps the present one.
    let mut body = campaign_body("Acme", PayoutRule::Flat { flat_cents: 100 });
    body.status = Some("mystery".into());
    let reply = update_campaign(&mut ctx, &campaign_id, body);
    assert_eq!(text(&reply.body, &["campaign", "status"]), "active");
}

#[test]
fn a_creators_handles_are_keyed_by_platform() {
    let mut ctx = ctx();
    let blank = create_creator(&mut ctx, creator_body("   "));
    assert_eq!(blank.status, 400);
    assert_eq!(text(&blank.body, &["error"]), "display_name is required");
    let mut body = creator_body("  Ada ");
    body.handles = vec![
        ("TikTok".into(), "@a".into()),
        ("x".into(), "@x".into()),
        (" tiktok ".into(), "@b".into()),
    ];
    body.contact_email = Some("  ".into());
    let reply = create_creator(&mut ctx, body);
    assert_eq!(text(&reply.body, &["creator", "display_name"]), "Ada");
    // Of two handles under one key the later counts.
    assert_eq!(text(&reply.body, &["creator", "handles", "tiktok"]), "@b");
    assert_eq!(text(&reply.body, &["creator", "handles", "x"]), "@x");
    let creator = at(&reply.body, &["creator"]);
    assert!(creator.get("contact_email").is_none());
    let id = text(&reply.body, &["creator", "id"]).to_string();
    assert!(id.starts_with("crt_") && id.len() == 4 + 32);

    let mut body = creator_body("Ada L");
    body.contact_email = Some(" ada@example.test ".into());
    let reply = update_creator(&mut ctx, &id, body);
    assert_eq!(
        text(&reply.body, &["creator", "contact_email"]),
        "ada@example.test"
    );
    let reply = get_creator(&ctx.store, &id);
    assert_eq!(num(&reply.body, &["totals", "submissions", "pending"]), 0);
    let listed = list_creators(
        &ctx.store,
        &CreatorQuery {
            q: Some("example".into()),
        },
    );
    assert_eq!(len(&listed.body, &["creators"]), 1);
}

// ---- the screen for a submitted post url -----------------------------------

#[test]
fn post_url_screen_rejects_internal_and_non_https_targets() {
    for bad in [
        "http://www.youtube.com/watch?v=abc", // https only
        "ftp://example.com/x",
        "https://169.254.169.254/latest/meta-data/", // cloud metadata
        "https://127.0.0.1:7981/api/agents",
        "https://localhost/x",
        "https://10.0.0.5/x",
        "https://192.168.1.9/x",
        "https://[::1]/x",
        "https://[fd00::1]/x",
        "https://metadata.google.internal/x",
        "https://build-box.internal/x",
        "https://printer.local/x",
        "not a url",
        "   ",
    ] {
        assert!(
            screen_post_url(bad).is_err(),
            "'{bad}' must be rejected by the post-url screen"
        );
    }
}

#[test]
fn post_url_screen_accepts_a_real_post() {
    for good in [
        "https://youtu.be/dQw4w9WgXcQ",
        "https://www.tiktok.com/@creator/video/7301234567890123456",
        "https://www.instagram.com/reel/CxYz-1AbCdE/",
        "https://x.com/creator/status/1750000000000000000",
    ] {
        assert!(screen_post_url(good).is_ok(), "'{good}' must be accepted");
    }
}

#[test]
fn every_refusal_of_a_post_url_has_its_message() {
    let refusal = |raw: &str| screen_post_url(raw).err().expect(raw);
    assert_eq!(refusal("  "), "post_url is required");
    assert!(refusal("not a url").starts_with("invalid post url: "));
    assert_eq!(refusal("http://a.test/x"), "post url must be https");
    assert_eq!(
        refusal("https://[::ffff:10.0.0.1]/x"),
        "post url points at a private or loopback address"
    );
    assert_eq!(
        refusal("https://100.64.0.1/x"),
        "post url points at a private or loopback address"
    );
    assert_eq!(
        refusal("https://a.localhost/x"),
        "post url points at an internal host"
    );
    // The normal form is what is stored.
    let url = screen_post_url("  HTTPS://YouTu.be/AbC ").unwrap();
    assert_eq!(url.href, "https://youtu.be/AbC");
    assert!(screen_post_url("https://8.8.8.8/x").is_ok());
    assert!(screen_post_url("https://youtu.be./x").is_ok());
    assert!(is_denied_host("metadata"));
    assert!(!is_denied_host("youtu.be"));
}

#[test]
fn a_submission_with_an_internal_post_url_is_refused() {
    let mut ctx = ctx();
    let (campaign_id, creator_id) = seed(&mut ctx);
    let reply = submit(
        &mut ctx,
        &campaign_id,
        &creator_id,
        "https://169.254.169.254/latest/meta-data/",
    );
    assert_eq!(reply.status, 400);
    assert!(text(&reply.body, &["error"]).contains("private or loopback"));
}

// ---- post-id parsing + the id guard ------------------------------------

fn parsed(url: &str) -> WebUrl {
    reparse_url(url).expect("a URL")
}

#[test]
fn post_ids_are_parsed_per_platform() {
    let cases = [
        ("youtube", "https://youtu.be/dQw4w9WgXcQ", "dQw4w9WgXcQ"),
        (
            "youtube",
            "https://www.youtube.com/watch?v=dQw4w9WgXcQ&t=30",
            "dQw4w9WgXcQ",
        ),
        (
            "youtube",
            "https://www.youtube.com/shorts/AbC-123_x",
            "AbC-123_x",
        ),
        (
            "tiktok",
            "https://www.tiktok.com/@creator/video/7301234567890123456",
            "7301234567890123456",
        ),
        (
            "instagram",
            "https://www.instagram.com/reel/CxYz-1AbCdE/",
            "CxYz-1AbCdE",
        ),
        (
            "x",
            "https://x.com/creator/status/1750000000000000000",
            "1750000000000000000",
        ),
        (
            "linkedin",
            "https://www.linkedin.com/feed/update/urn:li:activity:7301234567890123456/",
            "7301234567890123456",
        ),
    ];
    for (platform, url, expected) in cases {
        let id = parse_post_id(platform, &parsed(url));
        assert_eq!(id.as_deref(), Some(expected), "{platform} {url}");
    }
}

#[test]
fn an_unparseable_url_yields_no_post_id_rather_than_a_rejection() {
    // A real post URL whose shape this app does not know: the submission is
    // still recordable, it just cannot auto-refresh.
    let url = parsed("https://www.youtube.com/feed/subscriptions");
    assert!(parse_post_id("youtube", &url).is_none());
    // And an unknown platform never invents one.
    assert!(parse_post_id("myspace", &parsed("https://a.test/b")).is_none());
}

#[test]
fn an_extracted_id_that_is_not_a_safe_segment_is_discarded() {
    // `id_segment_is_safe` is the last guard before the id can reach a
    // Composio action's arguments. A percent-decoded traversal in the id
    // position must not survive it.
    let url = parsed("https://x.com/c/status/..%2F..%2Fapi%2Fagents");
    assert!(
        parse_post_id("x", &url).is_none(),
        "a traversal-shaped id must be discarded, not stored"
    );
}

// ---- small helpers -----------------------------------------------------

#[test]
fn limit_is_lenient_and_platforms_are_lowercased() {
    assert_eq!(parse_limit(Some("25")), Some(25));
    assert_eq!(parse_limit(Some("abc")), None);
    assert_eq!(parse_limit(Some("")), None);
    assert_eq!(parse_limit(None), None);
    assert_eq!(normalize_platform("  TikTok "), "tiktok");
    assert!(is_truthy("TRUE") && is_truthy("1") && !is_truthy("0"));
}

#[test]
fn platforms_serves_the_curated_map_verbatim() {
    let reply = list_platforms(true);
    assert_eq!(reply.status, 200);
    assert_eq!(
        len(&reply.body, &["platforms"]),
        platform_metric_sources().len()
    );
    assert_eq!(
        text(&reply.body, &["platforms", "0", "platform"]),
        "youtube"
    );
    // The action id and its selectors are visible, which is what makes an
    // unverified row correctable instead of mysterious.
    assert!(text(&reply.body, &["platforms", "0", "action"]).starts_with("YOUTUBE_"));
    assert!(!text(&reply.body, &["platforms", "0", "views"]).is_empty());
    assert_eq!(
        text(&reply.body, &["platforms", "0", "extra_args", "0", "1"]),
        "statistics"
    );
    assert!(is_null(&reply.body, &["platforms", "0", "shares"]));
    assert!(flag(&reply.body, &["composio_configured"]));
    assert!(!flag(&list_platforms(false).body, &["composio_configured"]));
}

// ---- settings: the write-only credential --------------------------------

/// A fully in-memory host: the app key lives in a field instead of a file.
#[derive(Default)]
struct FakeHost {
    app_key_set: Mutex<bool>,
    /// What the host reports when no app key is set.
    env_key: bool,
    /// A host that fails with this message.
    broken: Option<String>,
}

impl UgcHost for FakeHost {
    fn set_composio_key(&self, key: &str) -> Result<ComposioKeySource, String> {
        if let Some(message) = &self.broken {
            return Err(message.clone());
        }
        if key.trim().is_empty() {
            return Err("the Composio API key must not be empty".to_string());
        }
        *self.app_key_set.lock().unwrap() = true;
        Ok(ComposioKeySource::App)
    }
    fn clear_composio_key(&self) -> Result<ComposioKeySource, String> {
        if let Some(message) = &self.broken {
            return Err(message.clone());
        }
        *self.app_key_set.lock().unwrap() = false;
        Ok(resolve_key_source(false, self.env_key))
    }
    fn composio_key_source(&self) -> ComposioKeySource {
        resolve_key_source(*self.app_key_set.lock().unwrap(), self.env_key)
    }
}

fn host_with_env_key(env_key: bool) -> FakeHost {
    FakeHost {
        env_key,
        ..FakeHost::default()
    }
}

fn key_body(api_key: &str) -> ComposioKeyBody {
    ComposioKeyBody {
        api_key: api_key.to_string(),
    }
}

fn shown(reply: &Reply) -> String {
    format!("{:?}", reply.body)
}

/// The whole settings surface, in the order an operator drives it — and the
/// one property that spans all three routes: **the key never comes back**.
#[test]
fn settings_report_the_source_and_never_return_the_key() {
    // An env key is present, so the delete at the end must fall back to it
    // honestly rather than claiming the app is now unconfigured.
    let host = host_with_env_key(true);

    let reply = get_settings(&host);
    assert_eq!(reply.status, 200);
    assert_eq!(text(&reply.body, &["composio_key_source"]), "env");
    assert!(flag(&reply.body, &["composio_configured"]));

    let reply = put_composio_key(&host, &key_body(&format!("  {SECRET}  ")));
    assert_eq!(reply.status, 200);
    assert_eq!(text(&reply.body, &["composio_key_source"]), "app");
    assert!(flag(&reply.body, &["composio_configured"]));
    assert!(!shown(&reply).contains(SECRET), "the key came back");

    // A read reports the app key without revealing it.
    let reply = get_settings(&host);
    assert_eq!(text(&reply.body, &["composio_key_source"]), "app");
    assert!(!shown(&reply).contains(SECRET));

    let reply = delete_composio_key(&host);
    assert_eq!(reply.status, 200);
    assert_eq!(
        text(&reply.body, &["composio_key_source"]),
        "env",
        "an env key still present must be reported, not hidden"
    );
    assert!(flag(&reply.body, &["composio_configured"]));
    assert!(!shown(&reply).contains(SECRET));
}

/// With no env key behind it, a delete leaves the app genuinely unconfigured.
#[test]
fn deleting_the_only_key_reports_none() {
    let host = host_with_env_key(false);
    let reply = get_settings(&host);
    assert_eq!(text(&reply.body, &["composio_key_source"]), "none");
    assert!(!flag(&reply.body, &["composio_configured"]));

    let reply = put_composio_key(&host, &key_body(SECRET));
    assert_eq!(text(&reply.body, &["composio_key_source"]), "app");

    let reply = delete_composio_key(&host);
    assert_eq!(text(&reply.body, &["composio_key_source"]), "none");
    assert!(!flag(&reply.body, &["composio_configured"]));
}

/// A blank key is a 400 that never reaches the host.
#[test]
fn a_blank_or_missing_api_key_is_a_400_that_applies_nothing() {
    let host = FakeHost::default();
    for raw in ["", "   ", "\n\t"] {
        let reply = put_composio_key(&host, &key_body(raw));
        assert_eq!(reply.status, 400);
        assert!(text(&reply.body, &["error"]).contains("api_key"));
    }
    assert!(
        !*host.app_key_set.lock().unwrap(),
        "a refused key must not reach the host"
    );
}

#[test]
fn a_refusal_never_quotes_the_key() {
    let leaked = format!("could not write /tmp/ugc-composio-key: rejected {SECRET}");
    let scrubbed = without_key(leaked, SECRET);
    // Replaced whole: a redaction that kept a prefix, a suffix or the length
    // would be an oracle for the value it hides.
    assert_eq!(scrubbed, "could not store the Composio API key");
    // A message that does not carry the key survives verbatim, so a real
    // filesystem failure stays readable.
    assert_eq!(
        without_key("permission denied".to_string(), SECRET),
        "permission denied"
    );
    // …and a blank key must not turn every message into a match.
    assert_eq!(
        without_key("permission denied".to_string(), "   "),
        "permission denied"
    );
}

#[test]
fn a_broken_host_is_a_500_without_the_key() {
    let host = FakeHost {
        broken: Some(format!("disk full while writing {SECRET}")),
        ..FakeHost::default()
    };
    let reply = put_composio_key(&host, &key_body(SECRET));
    assert_eq!(reply.status, 500);
    assert_eq!(
        text(&reply.body, &["error"]),
        "could not store the Composio API key"
    );
    let host = FakeHost {
        broken: Some("disk full".to_string()),
        ..FakeHost::default()
    };
    assert_eq!(text(&delete_composio_key(&host).body, &["error"]), "disk full");
}

#[test]
fn key_source_prefers_the_app_key_then_the_env_then_none() {
    assert_eq!(resolve_key_source(true, true), ComposioKeySource::App);
    assert_eq!(resolve_key_source(true, false), ComposioKeySource::App);
    assert_eq!(resolve_key_source(false, true), ComposioKeySource::Env);
    assert_eq!(resolve_key_source(false, false), ComposioKeySource::Missing);
    assert!(ComposioKeySource::Env.is_configured());
    assert!(!ComposioKeySource::Missing.is_configured());
    assert_eq!(ComposioKeySource::App.as_str(), "app");
    assert_eq!(ComposioKeySource::Missing.as_str(), "none");
}

#[test]
fn host_key_lifecycle_reports_the_source_without_returning_the_key() {
    let host = host_with_env_key(true);
    assert_eq!(
        host.composio_key_source(),
        ComposioKeySource::Env,
        "no app key yet, but the environment has one"
    );
    assert_eq!(
        host.set_composio_key("comp_live_secret").unwrap(),
        ComposioKeySource::App
    );
    assert_eq!(host.composio_key_source(), ComposioKeySource::App);
    // Clearing falls back to the env key that is still there.
    assert_eq!(
        host.clear_composio_key().unwrap(),
        ComposioKeySource::Env,
        "an env key still present must be reported, not hidden"
    );
    // An empty key is refused, and no refusal ever quotes a key.
    let err = host.set_composio_key("   ").unwrap_err();
    assert!(!err.contains("comp_live"), "{err}");
}

// ---- refresh: the three-way per-submission outcome ----------------------

/// Seed an approved submission carrying one hand-entered reading, and return
/// its id with what its payout is currently worth.
fn approved_with_metrics(ctx: &mut UgcEngine) -> (String, i64) {
    let (campaign_id, creator_id) = seed(ctx);
    let reply = submit(
        ctx,
        &campaign_id,
        &creator_id,
        "https://youtu.be/dQw4w9WgXcQ",
    );
    let id = text(&reply.body, &["submission", "id"]).to_string();
    review(ctx, &id, "approve", None);
    read_views(ctx, &id, 41_200);
    // 41 200 views at 250c/1k floors to 10 300c.
    let accrued = ctx.store.payout_for_submission(&id).unwrap().amount_cents;
    (id, accrued)
}

#[test]
fn a_needs_connection_refresh_writes_nothing_and_offers_the_connect_link() {
    let mut ctx = ctx();
    let (id, before) = approved_with_metrics(&mut ctx);
    let submission = ctx.store.get_submission(&id).unwrap();

    let outcome = ctx
        .apply_metric_outcome(
            &submission,
            None,
            MetricOutcome::NeedsConnection {
                message: "No active connection for YouTube".to_string(),
                connect_url: Some("https://composio.dev/connect/abc".to_string()),
            },
        )
        .expect("not connected is an outcome, never an error");

    // Five zeroes here would drop a live payout to nothing on the next accrual
    // pass, with the panel reporting a successful refresh.
    let history = list_metrics(&ctx.store, &id, &LimitQuery { limit: None });
    assert_eq!(
        len(&history.body, &["snapshots"]),
        1,
        "only the hand-entered reading survives"
    );
    let one = get_submission(&ctx.store, &id);
    assert_eq!(num(&one.body, &["payout", "amount_cents"]), before);

    let wire = refresh_outcome_body(&id, outcome);
    assert_eq!(text(&wire, &["submission_id"]), id);
    assert_eq!(text(&wire, &["status"]), "needs_connection");
    assert_eq!(
        text(&wire, &["connect_url"]),
        "https://composio.dev/connect/abc"
    );
    assert!(text(&wire, &["message"]).contains("No active connection"));
    // Present-and-null rather than absent, so the panel switches on `status`
    // without probing for keys.
    for key in ["snapshot", "previous", "payout"] {
        assert!(is_null(&wire, &[key]), "'{key}' must be present and null");
    }
}

#[test]
fn a_sample_refresh_body_carries_the_snapshot_previous_and_payout() {
    let mut ctx = ctx();
    let (id, _) = approved_with_metrics(&mut ctx);
    let submission = ctx.store.get_submission(&id).unwrap();
    let previous = ctx.store.latest_snapshot(&id);

    let outcome = ctx
        .apply_metric_outcome(
            &submission,
            previous,
            MetricOutcome::Sample(MetricSample {
                views: 82_400,
                ..MetricSample::default()
            }),
        )
        .unwrap();

    let reply = refresh_reply(&id, Ok(outcome));
    assert_eq!(reply.status, 200);
    let wire = &reply.body;
    assert_eq!(text(wire, &["status"]), "ok");
    assert_eq!(num(wire, &["snapshot", "views"]), 82_400);
    assert_eq!(
        text(wire, &["snapshot", "source"]),
        MetricSource::Composio.as_str()
    );
    // `previous` is what the panel diffs the new reading against.
    assert_eq!(num(wire, &["previous", "views"]), 41_200);
    // 82 400 views at 250c/1k = 20 600c, re-priced in place.
    assert_eq!(num(wire, &["payout", "amount_cents"]), 20_600);
    assert!(is_null(wire, &["message"]) && is_null(wire, &["connect_url"]));
}

/// The campaign route answers 200 with one line per approved submission even
/// when every one of them failed.
#[test]
fn a_campaign_refresh_answers_a_line_per_submission_and_the_counts() {
    let mut ctx = ctx();
    let (campaign_id, creator_id) = seed(&mut ctx);

    let reply = submit(
        &mut ctx,
        &campaign_id,
        &creator_id,
        "https://youtu.be/dQw4w9WgXcQ",
    );
    let uncurated = text(&reply.body, &["submission", "id"]).to_string();
    let edit = SubmissionEditBody {
        platform: Some("myspace".into()),
        post_url: None,
    };
    assert_eq!(update_submission(&mut ctx, &uncurated, &edit).status, 200);

    // A real YouTube URL whose shape is not a post: recordable, reviewable, but
    // with no post id to look up.
    let reply = submit(
        &mut ctx,
        &campaign_id,
        &creator_id,
        "https://www.youtube.com/feed/subscriptions",
    );
    let unparsed = text(&reply.body, &["submission", "id"]).to_string();
    assert_eq!(text(&reply.body, &["submission", "external_post_id"]), "");

    for id in [&uncurated, &unparsed] {
        review(&mut ctx, id, "approve", None);
    }

    let visits = plan_campaign_refresh(&ctx, &campaign_id).unwrap();
    let lines: Vec<SubmissionRefreshReport> = visits
        .iter()
        .map(|s| {
            SubmissionRefreshReport::from_error(&s.id, &ctx.refresh_submission(&s.id).unwrap_err())
        })
        .collect();
    let out = campaign_refresh_reply(&campaign_report(lines));
    assert_eq!(out.status, 200);
    assert_eq!(num(&out.body, &["counts", "ok"]), 0);
    assert_eq!(num(&out.body, &["counts", "needs_connection"]), 0);
    assert_eq!(num(&out.body, &["counts", "error"]), 2);
    assert_eq!(len(&out.body, &["results"]), 2);
    let mut reported = Vec::new();
    for i in ["0", "1"] {
        assert_eq!(text(&out.body, &["results", i, "status"]), "error");
        assert!(is_null(&out.body, &["results", i, "snapshot"]));
        assert!(!text(&out.body, &["results", i, "message"]).is_empty());
        // Each line names its submission, so the panel can attach it to the row.
        reported.push(text(&out.body, &["results", i, "submission_id"]).to_string());
    }
    assert!(reported.contains(&uncurated) && reported.contains(&unparsed));
}

/// A genuinely mixed batch — one real reading, one real not-connected outcome,
/// one failure — split three ways on the wire.
#[test]
fn a_mixed_batch_splits_ok_needs_connection_and_error() {
    let mut ctx = ctx();
    let (id, _) = approved_with_metrics(&mut ctx);
    let submission = ctx.store.get_submission(&id).unwrap();

    let refreshed = ctx
        .apply_metric_outcome(
            &submission,
            None,
            MetricOutcome::Sample(MetricSample {
                views: 82_400,
                ..MetricSample::default()
            }),
        )
        .unwrap();
    let unlinked = ctx
        .apply_metric_outcome(
            &submission,
            None,
            MetricOutcome::NeedsConnection {
                message: "No active connection for TikTok".to_string(),
                connect_url: None,
            },
        )
        .unwrap();

    // The ids are labels here; the outcomes are the real thing.
    let results = vec![
        SubmissionRefreshReport::from_outcome("sub_read", refreshed),
        SubmissionRefreshReport::from_outcome("sub_unlinked", unlinked),
        SubmissionRefreshReport::from_error(
            "sub_down",
            &RefreshError::Upstream("tiktok answered 503".to_string()),
        ),
    ];
    let wire = campaign_refresh_reply(&campaign_report(results)).body;

    assert_eq!(num(&wire, &["counts", "ok"]), 1);
    assert_eq!(num(&wire, &["counts", "needs_connection"]), 1);
    assert_eq!(num(&wire, &["counts", "error"]), 1);
    assert_eq!(text(&wire, &["results", "0", "status"]), "ok");
    assert_eq!(num(&wire, &["results", "0", "snapshot", "views"]), 82_400);
    assert_eq!(text(&wire, &["results", "1", "status"]), "needs_connection");
    assert!(
        is_null(&wire, &["results", "1", "snapshot"]),
        "an unlinked account must not leave a reading behind"
    );
    assert_eq!(text(&wire, &["results", "2", "status"]), "error");
    assert_eq!(
        text(&wire, &["results", "2", "message"]),
        "tiktok answered 503"
    );
}

#[test]
fn manual_metrics_are_recorded_as_manual_and_reprice_in_place() {
    let mut ctx = ctx();
    let (campaign_id, creator_id) = seed(&mut ctx);
    let reply = submit(
        &mut ctx,
        &campaign_id,
        &creator_id,
        "https://youtu.be/abc123",
    );
    let id = text(&reply.body, &["submission", "id"]).to_string();
    review(&mut ctx, &id, "approve", None);

    for views in [10_000i64, 41_200] {
        read_views(&mut ctx, &id, views);
    }
    let history = list_metrics(&ctx.store, &id, &LimitQuery { limit: None });
    assert_eq!(
        len(&history.body, &["snapshots"]),
        2,
        "history is append-only"
    );
    assert_eq!(
        text(&history.body, &["snapshots", "0", "source"]),
        MetricSource::Manual.as_str()
    );

    let listed = list_payouts(
        &ctx.store,
        PayoutQuery {
            campaign_id: None,
            creator_id: None,
            status: None,
            limit: None,
        },
    );
    assert_eq!(
        len(&listed.body, &["payouts"]),
        1,
        "one row per submission, re-priced in place"
    );
    assert_eq!(num(&listed.body, &["payouts", "0", "amount_cents"]), 10_300);
    assert_eq!(
        text(&listed.body, &["payouts", "0", "status"]),
        PayoutStatus::Accrued.as_str()
    );

    let refused = read_views(&mut ctx, &id, -1);
    assert_eq!(refused.status, 400);
    assert_eq!(
        text(&refused.body, &["error"]),
        "metric counters cannot be negative"
    );
}

#[test]
fn rejecting_records_the_reason_and_drops_the_accrual() {
    let mut ctx = ctx();
    let (campaign_id, creator_id) = seed(&mut ctx);
    let reply = submit(
        &mut ctx,
        &campaign_id,
        &creator_id,
        "https://youtu.be/abc123",
    );
    let id = text(&reply.body, &["submission", "id"]).to_string();
    review(&mut ctx, &id, "approve", None);
    let out = review(
        &mut ctx,
        &id,
        "reject",
        Some("missing the required hashtag"),
    );
    assert_eq!(out.status, 200);
    assert_eq!(
        text(&out.body, &["submission", "rejection_reason"]),
        "missing the required hashtag"
    );
    assert!(is_null(&out.body, &["payout"]));

    let reply = review(&mut ctx, &id, "nonsense", None);
    assert_eq!(reply.status, 400);
    assert_eq!(
        text(&reply.body, &["error"]),
        "decision must be 'approve' or 'reject', got 'nonsense'"
    );
}

// ---- edits, deletions and payouts ---------------------------------------

#[test]
fn an_edit_is_screened_like_a_new_post() {
    let mut ctx = ctx();
    let (campaign_id, creator_id) = seed(&mut ctx);
    let first = submit(&mut ctx, &campaign_id, &creator_id, "https://youtu.be/aaa");
    let second = submit(&mut ctx, &campaign_id, &creator_id, "https://youtu.be/bbb");
    let first_id = text(&first.body, &["submission", "id"]).to_string();
    let id = text(&second.body, &["submission", "id"]).to_string();
    let edit = |platform: Option<&str>, post_url: Option<&str>| SubmissionEditBody {
        platform: platform.map(str::to_string),
        post_url: post_url.map(str::to_string),
    };
    let reply = update_submission(&mut ctx, &id, &edit(Some("  "), None));
    assert_eq!(text(&reply.body, &["error"]), "platform cannot be blank");
    let reply = update_submission(&mut ctx, &id, &edit(None, Some("https://localhost/x")));
    assert_eq!(reply.status, 400);
    let reply = update_submission(&mut ctx, &id, &edit(None, Some("https://youtu.be/aaa")));
    assert_eq!(reply.status, 409);
    let reply = update_submission(&mut ctx, "nope", &edit(None, None));
    assert_eq!(reply.status, 404);
    let reply = update_submission(&mut ctx, &id, &edit(None, Some("https://youtu.be/ccc")));
    assert_eq!(reply.status, 200);
    assert_eq!(
        text(&reply.body, &["submission", "external_post_id"]),
        "ccc"
    );
    assert_eq!(text(&reply.body, &["submission", "status"]), "pending");
    // Another platform reads another id, or none, out of the same URL.
    let reply = update_submission(&mut ctx, &id, &edit(Some("X"), None));
    assert_eq!(text(&reply.body, &["submission", "platform"]), "x");
    assert_eq!(text(&reply.body, &["submission", "external_post_id"]), "");
    assert_eq!(delete_submission(&mut ctx, &first_id).status, 200);
    assert!(ctx.store.get_submission(&first_id).is_none());
}

#[test]
fn a_correction_keeps_the_review_and_the_money() {
    let mut ctx = ctx();
    let (id, amount) = approved_with_metrics(&mut ctx);
    let before = ctx.store.get_submission(&id).unwrap();
    let edit = SubmissionEditBody {
        platform: None,
        post_url: Some("https://youtu.be/moved".to_string()),
    };
    assert_eq!(update_submission(&mut ctx, &id, &edit).status, 200);
    let after = ctx.store.get_submission(&id).unwrap();
    assert_eq!(after.external_post_id, "moved");
    assert_eq!(after.status, before.status);
    assert_eq!(after.reviewed_at, before.reviewed_at);
    assert_eq!(after.creator_id, before.creator_id);
    assert_eq!(after.submitted_at, before.submitted_at);
    assert_eq!(ctx.store.payout_for_submission(&id).unwrap().amount_cents, amount);
}

#[test]
fn paid_work_is_not_deleted() {
    let mut ctx = ctx();
    let (id, _) = approved_with_metrics(&mut ctx);
    let payout_id = ctx.store.payout_for_submission(&id).unwrap().id;
    approve_payout(&mut ctx, &payout_id);
    mark_payout_paid(&mut ctx, &payout_id);
    let reply = delete_submission(&mut ctx, &id);
    assert_eq!(reply.status, 409);
    assert_eq!(
        text(&reply.body, &["error"]),
        "this submission's payout is already paid; deleting it would corrupt the campaign's spend"
    );
    assert_eq!(text(&reply.body, &["payout_id"]), payout_id);
    assert!(ctx.store.get_submission(&id).is_some());
}

#[test]
fn money_moves_forward_one_stage_at_a_time() {
    let mut ctx = ctx();
    let (id, amount) = approved_with_metrics(&mut ctx);
    let payout_id = ctx.store.payout_for_submission(&id).unwrap().id;
    let early = mark_payout_paid(&mut ctx, &payout_id);
    assert_eq!(early.status, 409);
    assert_eq!(
        text(&early.body, &["error"]),
        "approve this payout before marking it paid"
    );
    assert!(flag(&approve_payout(&mut ctx, &payout_id).body, &["changed"]));
    assert!(!flag(&approve_payout(&mut ctx, &payout_id).body, &["changed"]));
    assert!(flag(&mark_payout_paid(&mut ctx, &payout_id).body, &["changed"]));
    assert!(!flag(&mark_payout_paid(&mut ctx, &payout_id).body, &["changed"]));
    let late = approve_payout(&mut ctx, &payout_id);
    assert_eq!(late.status, 409);
    assert_eq!(
        text(&late.body, &["error"]),
        "this payout has already been paid"
    );
    let kept = delete_submission(&mut ctx, &id);
    assert_eq!(kept.status, 409);
    assert_eq!(text(&kept.body, &["payout_id"]), payout_id);

    let one = get_payout(&ctx.store, &payout_id);
    assert_eq!(num(&one.body, &["payout", "amount_cents"]), amount);
    assert_eq!(text(&one.body, &["campaign", "brand"]), "Acme");
    assert_eq!(text(&one.body, &["creator", "display_name"]), "Ada");
    assert_eq!(text(&one.body, &["submission", "status"]), "paid");
    assert!(!text(&one.body, &["payout", "approved_at"]).is_empty());
    assert!(!text(&one.body, &["payout", "paid_at"]).is_empty());
}

#[test]
fn the_reads_of_a_whole_app_agree() {
    let mut ctx = ctx();
    let (id, amount) = approved_with_metrics(&mut ctx);
    let campaign_id = ctx.store.get_submission(&id).unwrap().campaign_id;
    let probe = health(&ctx.store);
    assert_eq!(probe.status, 200);
    assert_eq!(num(&probe.body, &["campaignCount"]), 1);
    let all = overview(&ctx.store);
    assert_eq!(num(&all.body, &["accrued_cents"]), amount);
    assert_eq!(num(&all.body, &["submissions", "approved"]), 1);
    let board = campaign_leaderboard(&ctx.store, &campaign_id, &LimitQuery { limit: None });
    assert_eq!(num(&board.body, &["leaderboard", "0", "views"]), 41_200);
    let listed = list_submissions(
        &ctx.store,
        SubmissionQuery {
            status: Some("approved".into()),
            platform: Some(" YouTube ".into()),
            ..SubmissionQuery::default()
        },
    );
    assert_eq!(len(&listed.body, &["submissions"]), 1);
    // The path names the campaign, whatever the query says.
    let scoped = campaign_submissions(
        &ctx.store,
        &campaign_id,
        SubmissionQuery {
            campaign_id: Some("other".into()),
            ..SubmissionQuery::default()
        },
    );
    assert_eq!(len(&scoped.body, &["submissions"]), 1);
    assert_eq!(delete_campaign(&mut ctx, &campaign_id).status, 200);
    assert!(ctx.store.submissions.is_empty() && ctx.store.payouts.is_empty());
    assert!(ctx.store.snapshots.is_empty());
    assert_eq!(ctx.store.creators.len(), 1);
}
