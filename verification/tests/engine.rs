use ryu_ugc::api::plan_campaign_refresh;
use ryu_ugc::clock::now_iso;
use ryu_ugc::composio::{MetricError, MetricOutcome, MetricSample};
use ryu_ugc::engine::{
    campaign_report, CampaignRefresh, HookEvent, RefreshCounts, RefreshError, RefreshOutcome,
    RefreshStatus, SubmissionRefreshReport, UgcEngine,
};
use ryu_ugc::json::Json;
use ryu_ugc::lists::PayoutFilter;
use ryu_ugc::pricing::accrual_reason;
use ryu_ugc::records::{
    BonusTier, Campaign, CampaignStatus, PayoutRule, PayoutStatus, Submission, SubmissionStatus,
};
use ryu_ugc::render::render_report;
use ryu_ugc::store::{UgcStore, WriteOutcome};

fn campaign(id: &str, payout: PayoutRule, budget_cents: i64) -> Campaign {
    Campaign {
        id: id.into(),
        brand: "Acme".into(),
        brief: "post a clip".into(),
        status: CampaignStatus::Active,
        platforms: vec!["youtube".into()],
        required_hashtags: vec![],
        required_mentions: vec![],
        starts_at: None,
        ends_at: None,
        budget_cents,
        payout,
        bonus_tiers: vec![],
        max_payout_per_creator_cents: 0,
        created_at: now_iso(),
        updated_at: now_iso(),
    }
}

fn submission(id: &str, campaign_id: &str, post_id: &str) -> Submission {
    Submission {
        id: id.into(),
        campaign_id: campaign_id.into(),
        creator_id: "crt1".into(),
        platform: "youtube".into(),
        post_url: format!("https://youtu.be/{post_id}"),
        external_post_id: post_id.into(),
        status: SubmissionStatus::Pending,
        submitted_at: now_iso(),
        reviewed_at: None,
        rejection_reason: None,
        created_at: now_iso(),
        updated_at: now_iso(),
    }
}

fn sample(views: i64) -> MetricSample {
    MetricSample {
        views,
        likes: 0,
        comments: 0,
        shares: 0,
        saves: 0,
    }
}

fn test_engine() -> UgcEngine {
    UgcEngine::new(UgcStore::new())
}

#[test]
fn approving_twice_is_a_no_op_the_second_time() {
    let mut engine = test_engine();
    engine
        .store
        .upsert_campaign(&campaign("c1", PayoutRule::Flat { flat_cents: 5000 }, 0));
    engine.create_submission(&submission("s1", "c1", "abc"));

    let first = engine
        .review_submission("s1", true, None)
        .unwrap()
        .expect("submission exists");
    assert!(first.changed, "the first approval is a real transition");
    assert_eq!(first.payout.as_ref().unwrap().amount_cents, 5000);
    let raised = engine.take_outbox().len();
    assert_eq!(raised, 3, "received, accrued, approved");

    let second = engine
        .review_submission("s1", true, None)
        .unwrap()
        .unwrap();
    assert!(
        !second.changed,
        "re-approving must be a no-op that emits nothing"
    );
    assert!(engine.take_outbox().is_empty());
    // And it did not add a second payout row.
    assert_eq!(
        second.payout.as_ref().unwrap().id,
        first.payout.as_ref().unwrap().id
    );
}

#[test]
fn accrual_reprices_in_place_and_never_doubles_spend() {
    let mut engine = test_engine();
    engine
        .store
        .upsert_campaign(&campaign("c1", PayoutRule::Cpm { cpm_cents: 250 }, 0));
    engine.create_submission(&submission("s1", "c1", "abc"));
    engine.review_submission("s1", true, None).unwrap();

    for views in [10_000i64, 41_200] {
        engine.append_manual_snapshot("s1", sample(views)).unwrap();
    }

    let payouts = engine.store.list_payouts(&PayoutFilter::default());
    assert_eq!(payouts.len(), 1, "one row per submission, re-priced in place");
    // 41 200 views at 250c/1k floors to 10 300c — integer cents, never a float.
    assert_eq!(payouts[0].amount_cents, 10_300);
}

#[test]
fn rejecting_removes_the_accrued_payout() {
    let mut engine = test_engine();
    engine
        .store
        .upsert_campaign(&campaign("c1", PayoutRule::Flat { flat_cents: 5000 }, 0));
    engine.create_submission(&submission("s1", "c1", "abc"));
    engine.review_submission("s1", true, None).unwrap();
    assert!(engine.store.payout_for_submission("s1").is_some());

    let out = engine
        .review_submission("s1", false, Some("missing the hashtag".into()))
        .unwrap()
        .unwrap();
    assert!(out.changed);
    assert_eq!(
        out.submission.rejection_reason.as_deref(),
        Some("missing the hashtag")
    );
    assert!(
        engine.store.payout_for_submission("s1").is_none(),
        "un-accruing money is fine; the row must go"
    );
}

#[test]
fn accrual_clamps_to_the_campaign_budget() {
    let mut engine = test_engine();
    // Budget 7 500c against two 5 000c flat posts: the second is clamped to
    // the 2 500c of headroom left, not paid in full.
    engine
        .store
        .upsert_campaign(&campaign("c1", PayoutRule::Flat { flat_cents: 5000 }, 7500));
    for (id, post) in [("s1", "aaa"), ("s2", "bbb")] {
        engine.create_submission(&submission(id, "c1", post));
        engine.review_submission(id, true, None).unwrap();
    }
    let summary = engine.store.campaign_summary("c1").unwrap().unwrap();
    assert_eq!(summary.committed_cents, 7500);
    assert_eq!(summary.remaining_cents, Some(0));
}

#[test]
fn refresh_refuses_a_platform_with_no_curated_source() {
    let mut engine = test_engine();
    engine
        .store
        .upsert_campaign(&campaign("c1", PayoutRule::Flat { flat_cents: 1 }, 0));
    let mut s = submission("s1", "c1", "abc");
    s.platform = "myspace".into();
    engine.create_submission(&s);

    let err = engine.refresh_submission("s1").unwrap_err();
    assert!(
        matches!(err, RefreshError::Unsupported(ref m) if m.contains("no Composio metric source")),
        "got {}",
        err.message()
    );
}

/// A refreshable submission for the two `apply_metric_outcome` tests: approved
/// (so accrual can price it) and on a curated platform.
fn approved_submission(engine: &mut UgcEngine) -> Submission {
    engine
        .store
        .upsert_campaign(&campaign("c1", PayoutRule::Cpm { cpm_cents: 250 }, 0));
    engine.create_submission(&submission("s1", "c1", "aaa"));
    engine.review_submission("s1", true, None).unwrap();
    engine.store.get_submission("s1").unwrap()
}

/// A not-connected account writes NO snapshot and re-prices NO payout. Five
/// zeroes here would drop a live payout to nothing on the next accrual pass.
#[test]
fn a_needs_connection_outcome_writes_no_snapshot_and_reprices_nothing() {
    let mut engine = test_engine();
    let sub = approved_submission(&mut engine);
    let before = engine
        .store
        .payout_for_submission("s1")
        .map_or(0, |p| p.amount_cents);
    engine.take_outbox();

    let outcome = engine
        .apply_metric_outcome(
            &sub,
            None,
            MetricOutcome::NeedsConnection {
                message: "No active connection for YouTube".to_string(),
                connect_url: Some("https://composio.dev/connect/abc".to_string()),
            },
        )
        .expect("not connected is an outcome, never an error");

    assert!(
        matches!(outcome, RefreshOutcome::NeedsConnection { ref message, .. }
        if message.contains("No active connection"))
    );
    assert!(
        engine.store.latest_snapshot("s1").is_none(),
        "an unlinked account must not leave a reading behind"
    );
    assert_eq!(
        engine
            .store
            .payout_for_submission("s1")
            .map_or(0, |p| p.amount_cents),
        before,
        "and must not re-price the payout"
    );
    assert!(engine.take_outbox().is_empty());

    // The report the API serves carries the connect link and no snapshot.
    let report = SubmissionRefreshReport::from_outcome("s1", outcome);
    assert_eq!(report.status, RefreshStatus::NeedsConnection);
    assert!(report.snapshot.is_none());
    assert_eq!(
        report.connect_url.as_deref(),
        Some("https://composio.dev/connect/abc")
    );
}

/// …and the same seam DOES write on a real sample, so the guard above is a
/// branch, not a broken path.
#[test]
fn a_sample_outcome_writes_the_snapshot_and_reprices() {
    let mut engine = test_engine();
    let sub = approved_submission(&mut engine);

    let outcome = engine
        .apply_metric_outcome(&sub, None, MetricOutcome::Sample(sample(41_200)))
        .unwrap();

    let RefreshOutcome::Refreshed { snapshot, .. } = outcome else {
        panic!("a sample must refresh");
    };
    assert_eq!(snapshot.views, 41_200);
    // cpm 250c x 41 200 views / 1000 = 10 300c.
    assert_eq!(
        engine
            .store
            .payout_for_submission("s1")
            .unwrap()
            .amount_cents,
        10_300
    );
    assert_eq!(
        SubmissionRefreshReport::from_outcome(
            "s1",
            RefreshOutcome::Refreshed {
                snapshot,
                previous: None,
                payout: None,
            }
        )
        .status,
        RefreshStatus::Success
    );
}

/// One bad submission never fails the batch, and each gets its own line.
#[test]
fn campaign_refresh_reports_per_submission_and_never_fails_the_batch() {
    let mut engine = test_engine();
    engine
        .store
        .upsert_campaign(&campaign("c1", PayoutRule::Cpm { cpm_cents: 250 }, 0));
    let mut uncurated = submission("s1", "c1", "aaa");
    uncurated.platform = "myspace".into();
    engine.create_submission(&uncurated);
    let mut unparsed = submission("s2", "c1", "");
    unparsed.external_post_id = String::new();
    engine.create_submission(&unparsed);
    for id in ["s1", "s2"] {
        engine.review_submission(id, true, None).unwrap();
    }

    let visits = plan_campaign_refresh(&engine, "c1").unwrap();
    let results: Vec<SubmissionRefreshReport> = visits
        .iter()
        .map(|s| {
            let error = engine.refresh_submission(&s.id).unwrap_err();
            SubmissionRefreshReport::from_error(&s.id, &error)
        })
        .collect();
    let report = campaign_report(results);
    assert_eq!(report.results.len(), 2);
    assert_eq!(
        report.counts,
        RefreshCounts {
            ok: 0,
            needs_connection: 0,
            error: 2
        }
    );
    assert!(report
        .results
        .iter()
        .all(|r| r.status == RefreshStatus::Error && r.snapshot.is_none() && r.message.is_some()));
    // Nothing was written for either.
    assert!(engine.store.latest_snapshot("s1").is_none());
}

/// The three statuses are counted apart — "link this account" must never be
/// reported to the panel as a failure.
#[test]
fn counts_split_ok_needs_connection_and_error() {
    let reports = vec![
        SubmissionRefreshReport::from_outcome(
            "s1",
            RefreshOutcome::NeedsConnection {
                message: "connect it".to_string(),
                connect_url: None,
            },
        ),
        SubmissionRefreshReport::from_error("s2", &RefreshError::Upstream("502".to_string())),
        SubmissionRefreshReport::from_error("s3", &RefreshError::NotFound),
    ];
    assert_eq!(
        RefreshCounts::of(&reports),
        RefreshCounts {
            ok: 0,
            needs_connection: 1,
            error: 2
        }
    );
    // Every field is present on the wire, `null` where it does not apply, so a
    // consumer can switch on `status` without probing for keys.
    let wire = render_report(&reports[0]);
    assert_eq!(
        wire.get("status").and_then(Json::as_str),
        Some("needs_connection")
    );
    assert!(matches!(wire.get("connect_url"), Some(Json::Null)));
    assert!(matches!(wire.get("snapshot"), Some(Json::Null)));
}

#[test]
fn accrual_reason_names_the_rule_the_bonus_and_the_clamp() {
    let mut c = campaign("c1", PayoutRule::Cpm { cpm_cents: 250 }, 0);
    c.bonus_tiers = vec![
        BonusTier {
            views: 10_000,
            bonus_cents: 500,
        },
        BonusTier {
            views: 25_000,
            bonus_cents: 2_000,
        },
    ];
    // 41 200 views: 10 300c base + the 25k tier only (tiers are never summed).
    let reason = accrual_reason(41_200, &c, 12_300);
    assert!(reason.contains("cpm 250c x 41200 views"), "{reason}");
    assert!(reason.contains("bonus 2000c @25000 views"), "{reason}");
    assert!(!reason.contains("clamped"), "{reason}");
    assert!(accrual_reason(41_200, &c, 100).contains("clamped"));
}

// ---- events -----------------------------------------------------------------

fn names(events: &[HookEvent]) -> Vec<&'static str> {
    events.iter().map(|e| e.name()).collect()
}

#[test]
fn a_duplicate_post_raises_nothing() {
    let mut engine = test_engine();
    assert_eq!(
        engine.create_submission(&submission("s1", "c1", "abc")),
        WriteOutcome::Written
    );
    assert_eq!(
        names(&engine.take_outbox()),
        vec!["@ryu/ugc#submission.received"]
    );
    assert_eq!(
        engine.create_submission(&submission("s2", "c1", "abc")),
        WriteOutcome::DuplicatePost
    );
    assert!(engine.take_outbox().is_empty());
    assert_eq!(engine.store.submissions.len(), 1);
}

#[test]
fn the_budget_event_fires_once_on_the_crossing() {
    let mut engine = test_engine();
    engine
        .store
        .upsert_campaign(&campaign("c1", PayoutRule::Flat { flat_cents: 5000 }, 7500));
    for (id, post) in [("s1", "aaa"), ("s2", "bbb"), ("s3", "ccc")] {
        engine.create_submission(&submission(id, "c1", post));
    }
    engine.take_outbox();
    engine.review_submission("s1", true, None).unwrap();
    assert_eq!(
        names(&engine.take_outbox()),
        vec!["@ryu/ugc#payout.accrued", "@ryu/ugc#submission.approved"]
    );
    engine.review_submission("s2", true, None).unwrap();
    let crossing = engine.take_outbox();
    assert_eq!(
        names(&crossing),
        vec![
            "@ryu/ugc#payout.accrued",
            "@ryu/ugc#campaign.budget.reached",
            "@ryu/ugc#submission.approved"
        ]
    );
    assert!(matches!(
        crossing[1],
        HookEvent::BudgetReached {
            budget_cents: 7500,
            accrued_cents: 7500,
            ..
        }
    ));
    // The third post is worth nothing any more, so nothing accrues and nothing crosses.
    engine.review_submission("s3", true, None).unwrap();
    assert_eq!(
        names(&engine.take_outbox()),
        vec!["@ryu/ugc#submission.approved"]
    );
    assert_eq!(engine.store.campaign_committed_cents("c1", None).unwrap(), 7500);
}

#[test]
fn a_second_accrual_pass_changes_and_raises_nothing() {
    let mut engine = test_engine();
    approved_submission(&mut engine);
    engine.append_manual_snapshot("s1", sample(41_200)).unwrap();
    engine.take_outbox();
    let again = engine.accrue_submission("s1").unwrap().unwrap();
    assert!(!again.changed);
    assert_eq!(again.previous_cents, 10_300);
    assert_eq!(again.payout.unwrap().amount_cents, 10_300);
    assert!(engine.take_outbox().is_empty());
    assert_eq!(engine.store.payouts.len(), 1);
}

#[test]
fn signed_off_money_is_never_repriced() {
    let mut engine = test_engine();
    approved_submission(&mut engine);
    engine.append_manual_snapshot("s1", sample(41_200)).unwrap();
    let payout = engine.store.payout_for_submission("s1").unwrap();
    engine
        .store
        .set_payout_status(&payout.id, PayoutStatus::Approved, "2026-01-01T00:00:00Z");
    engine.take_outbox();
    engine.append_manual_snapshot("s1", sample(90_000)).unwrap();
    let kept = engine.store.payout_for_submission("s1").unwrap();
    assert_eq!(kept.amount_cents, 10_300);
    assert_eq!(kept.status, PayoutStatus::Approved);
    assert!(engine.take_outbox().is_empty());
}

#[test]
fn unreviewed_work_accrues_nothing() {
    let mut engine = test_engine();
    engine
        .store
        .upsert_campaign(&campaign("c1", PayoutRule::Flat { flat_cents: 5000 }, 0));
    engine.create_submission(&submission("s1", "c1", "abc"));
    let out = engine.accrue_submission("s1").unwrap().unwrap();
    assert!(out.payout.is_none() && !out.changed);
    assert!(engine.store.payouts.is_empty());
    assert!(engine.accrue_submission("absent").unwrap().is_none());
}

#[test]
fn a_paid_submission_cannot_be_rejected() {
    let mut engine = test_engine();
    approved_submission(&mut engine);
    engine
        .store
        .set_submission_status("s1", SubmissionStatus::Paid, None, None, "t");
    let err = engine.review_submission("s1", false, None).unwrap_err();
    assert_eq!(
        err,
        "this submission has already been paid and cannot be rejected"
    );
    assert!(engine.review_submission("absent", true, None).unwrap().is_none());
}

#[test]
fn a_refresh_event_carries_the_counters_and_how_far_they_moved() {
    let mut engine = test_engine();
    let sub = approved_submission(&mut engine);
    engine.append_manual_snapshot("s1", sample(10_000)).unwrap();
    let previous = engine.store.latest_snapshot("s1");
    engine.take_outbox();
    engine
        .apply_metric_outcome(&sub, previous, MetricOutcome::Sample(sample(41_200)))
        .unwrap();
    let events = engine.take_outbox();
    assert_eq!(
        names(&events),
        vec!["@ryu/ugc#metrics.refreshed", "@ryu/ugc#payout.accrued"]
    );
    let payload = events[0].payload();
    let delta = payload.get("delta").unwrap();
    assert!(matches!(delta.get("views"), Some(Json::Int(31_200))));
    assert!(matches!(delta.get("likes"), Some(Json::Int(0))));
    let metrics = payload.get("metrics").unwrap();
    assert!(matches!(metrics.get("views"), Some(Json::Int(41_200))));
    assert_eq!(
        payload.get("source").and_then(Json::as_str),
        Some("composio")
    );
    let accrued = events[1].payload();
    assert!(matches!(accrued.get("amount_cents"), Some(Json::Int(10_300))));
    assert!(matches!(accrued.get("previous_cents"), Some(Json::Int(2_500))));
}

#[test]
fn a_counter_that_moved_past_64_bits_is_told_exactly() {
    let mut engine = test_engine();
    let sub = approved_submission(&mut engine);
    engine.append_manual_snapshot("s1", sample(i64::MIN)).unwrap();
    let previous = engine.store.latest_snapshot("s1");
    engine.take_outbox();
    engine
        .apply_metric_outcome(&sub, previous, MetricOutcome::Sample(sample(i64::MAX)))
        .unwrap();
    let payload = engine.take_outbox()[0].payload();
    let delta = payload.get("delta").unwrap();
    assert!(matches!(
        delta.get("views"),
        Some(Json::Big(18_446_744_073_709_551_615))
    ));
}

#[test]
fn a_refresh_names_what_stands_in_its_way() {
    let mut engine = test_engine();
    assert!(matches!(
        engine.refresh_submission("absent"),
        Err(RefreshError::NotFound)
    ));
    engine.create_submission(&submission("s1", "c1", ""));
    let err = engine.refresh_submission("s1").unwrap_err();
    assert!(err.message().contains("could not be parsed into a post id"));
    engine.create_submission(&submission("s2", "c1", "abc"));
    let (found, newest) = engine.refresh_submission("s2").unwrap();
    assert_eq!(found.id, "s2");
    assert!(newest.is_none());
}

#[test]
fn a_full_snapshot_table_is_an_internal_error() {
    let mut engine = test_engine();
    let sub = approved_submission(&mut engine);
    engine.store.last_snapshot_id = i64::MAX;
    let out = engine.apply_metric_outcome(&sub, None, MetricOutcome::Sample(sample(1)));
    assert!(matches!(out, Err(RefreshError::Internal(_))));
    assert!(engine.append_manual_snapshot("s1", sample(1)).is_err());
}

#[test]
fn a_failed_fetch_writes_and_raises_nothing() {
    let mut engine = test_engine();
    engine
        .store
        .upsert_campaign(&campaign("c1", PayoutRule::Cpm { cpm_cents: 250 }, 0));
    let s = submission("s1", "c1", "aaa");
    engine.create_submission(&s);
    engine.review_submission("s1", true, None).unwrap();
    engine.take_outbox();
    let amount = engine.store.payout_for_submission("s1").unwrap().amount_cents;
    let down = engine.finish_refresh(&s, None, Err(MetricError::Upstream("down".to_string())));
    assert!(matches!(down, Err(RefreshError::Upstream(m)) if m == "down"));
    let no = engine.finish_refresh(&s, None, Err(MetricError::Unsupported("no".to_string())));
    assert!(matches!(no, Err(RefreshError::Unsupported(m)) if m == "no"));
    assert!(engine.store.latest_snapshot("s1").is_none());
    assert_eq!(engine.store.payout_for_submission("s1").unwrap().amount_cents, amount);
    assert!(engine.take_outbox().is_empty());
    // A fetch that produced a reading is written.
    let sample = MetricSample { views: 4_000, likes: 0, comments: 0, shares: 0, saves: 0 };
    let done = engine.finish_refresh(&s, None, Ok(MetricOutcome::Sample(sample)));
    assert!(matches!(done, Ok(RefreshOutcome::Refreshed { .. })));
    assert_eq!(engine.store.payout_for_submission("s1").unwrap().amount_cents, 1_000);
}

#[test]
fn a_campaign_refresh_visits_every_approved_submission() {
    let mut engine = test_engine();
    engine
        .store
        .upsert_campaign(&campaign("c1", PayoutRule::Cpm { cpm_cents: 250 }, 0));
    for i in 0..130 {
        let mut s = submission(&format!("s{i}"), "c1", &format!("post{i}"));
        s.platform = "myspace".into();
        engine.create_submission(&s);
        if i != 7 {
            engine.review_submission(&s.id, true, None).unwrap();
        }
    }
    assert_eq!(engine.refresh_campaign("c1").len(), 129);
    let plan = plan_campaign_refresh(&engine, "c1").unwrap();
    let planned: Vec<String> = plan.iter().map(|s| s.id.clone()).collect();
    let mut run = CampaignRefresh::start(plan);
    while let Some(id) = run.next_visit().map(str::to_string) {
        let refusal = engine.refresh_submission(&id).unwrap_err();
        run.record(Err(refusal));
    }
    let report = run.finish();
    let told: Vec<String> = report.results.iter().map(|r| r.submission_id.clone()).collect();
    assert_eq!(told, planned);
    assert_eq!(
        report.counts,
        RefreshCounts { ok: 0, needs_connection: 0, error: 129 }
    );
    assert!(!told.contains(&"s7".to_string()));
}

#[test]
fn an_empty_campaign_refresh_is_over_at_once() {
    let run = CampaignRefresh::start(vec![]);
    assert!(run.next_visit().is_none());
    assert!(run.finish().results.is_empty());
}

#[test]
fn a_second_accrual_pass_keeps_the_row_and_its_stamps() {
    let mut engine = test_engine();
    engine
        .store
        .upsert_campaign(&campaign("c1", PayoutRule::Flat { flat_cents: 5000 }, 0));
    engine.create_submission(&submission("s1", "c1", "abc"));
    engine.review_submission("s1", true, None).unwrap();
    let first = engine.accrue_submission("s1").unwrap().unwrap().payout.unwrap();
    engine.take_outbox();
    let second = engine.accrue_submission("s1").unwrap().unwrap();
    assert!(!second.changed);
    assert_eq!(second.previous_cents, first.amount_cents);
    let row = second.payout.unwrap();
    assert_eq!(row.id, first.id);
    assert_eq!(row.amount_cents, first.amount_cents);
    assert_eq!(row.accrued_at, first.accrued_at);
    assert_eq!(row.created_at, first.created_at);
    assert_eq!(engine.store.list_payouts(&PayoutFilter::default()).len(), 1);
    assert!(engine.take_outbox().is_empty());
}

#[test]
fn a_stamp_has_the_form_of_rfc_3339() {
    let stamp = now_iso();
    let shape: String = stamp
        .chars()
        .map(|c| if c.is_ascii_digit() { '0' } else { c })
        .collect();
    assert!(
        [
            "0000-00-00T00:00:00+00:00",
            "0000-00-00T00:00:00.000+00:00",
            "0000-00-00T00:00:00.000000+00:00",
            "0000-00-00T00:00:00.000000000+00:00",
        ]
        .contains(&shape.as_str()),
        "{stamp}"
    );
    assert!(stamp.ends_with("+00:00"));
}
