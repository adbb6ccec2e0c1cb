use ryu_ugc::clock::now_iso;
use ryu_ugc::lists::{is_like, PayoutFilter, SubmissionFilter};
use ryu_ugc::pricing::{clamp_limit, clamp_payout, payout_for, DEFAULT_LIMIT, MAX_LIMIT};
use ryu_ugc::records::{
    BonusTier, Campaign, CampaignStatus, Creator, MetricSnapshot, MetricSource, Payout, PayoutRule,
    PayoutStatus, Submission, SubmissionStatus,
};
use ryu_ugc::store::{
    map_payout, StoreError, UgcEvent, UgcStore, UnreadCreator, WriteOutcome,
};

fn campaign(id: &str, payout: PayoutRule) -> Campaign {
    Campaign {
        id: id.into(),
        brand: "Acme".into(),
        brief: "post a clip".into(),
        status: CampaignStatus::Active,
        platforms: vec!["youtube".into()],
        required_hashtags: vec!["acme".into()],
        required_mentions: vec![],
        starts_at: None,
        ends_at: None,
        budget_cents: 0,
        payout,
        bonus_tiers: vec![],
        max_payout_per_creator_cents: 0,
        created_at: now_iso(),
        updated_at: now_iso(),
    }
}

fn creator(id: &str, name: &str) -> Creator {
    let handles = vec![("youtube".to_string(), format!("@{name}"))];
    Creator {
        id: id.into(),
        display_name: name.into(),
        handles,
        contact_email: Some(format!("{name}@example.test")),
        payout_handle: None,
        notes: None,
        created_at: now_iso(),
        updated_at: now_iso(),
    }
}

fn submission(id: &str, campaign_id: &str, creator_id: &str, post_id: &str) -> Submission {
    Submission {
        id: id.into(),
        campaign_id: campaign_id.into(),
        creator_id: creator_id.into(),
        platform: "youtube".into(),
        post_url: format!("https://youtu.be/{post_id}"),
        external_post_id: post_id.into(),
        status: SubmissionStatus::Pending,
        submitted_at: now_iso(),
        reviewed_at: None,
        rejection_reason: None,
        created_at: now_iso(),
        updated_at: now_iso(),
    }
}

fn snapshot(submission_id: &str, views: i64) -> MetricSnapshot {
    MetricSnapshot {
        id: 0,
        submission_id: submission_id.into(),
        captured_at: now_iso(),
        views,
        likes: 10,
        comments: 2,
        shares: 1,
        saves: 0,
        source: MetricSource::Composio,
    }
}

fn payout(
    id: &str,
    campaign_id: &str,
    creator_id: &str,
    sub: Option<&str>,
    cents: i64,
) -> Payout {
    Payout {
        id: id.into(),
        campaign_id: campaign_id.into(),
        creator_id: creator_id.into(),
        submission_id: sub.map(str::to_string),
        amount_cents: cents,
        status: PayoutStatus::Accrued,
        reason: "test".into(),
        accrued_at: now_iso(),
        approved_at: None,
        paid_at: None,
        created_at: now_iso(),
        updated_at: now_iso(),
    }
}


#[test]
fn schema_is_idempotent_across_reopens() {
    let mut first = UgcStore::new();
    first.upsert_campaign(&campaign("c1", PayoutRule::Flat { flat_cents: 100 }));
    // Loading the rows again must neither fail nor lose one.
    let second = UgcStore::load(
        first.campaigns,
        first.unread_campaigns,
        first.creators,
        first.unread_creators,
        first.submissions,
        first.snapshots,
        first.payouts,
        first.last_snapshot_id,
    )
    .expect("second open");
    assert_eq!(second.count_campaigns().unwrap(), 1);
}

// ---- CRUD -------------------------------------------------------------

#[test]
fn campaign_roundtrips_filters_and_cascades() {
    let mut store = UgcStore::new();
    let mut c = campaign("c1", PayoutRule::Cpm { cpm_cents: 250 });
    store.upsert_campaign(&c);

    let read = store.get_campaign("c1").unwrap().unwrap();
    assert_eq!(read.brand, "Acme");
    assert_eq!(read.payout, PayoutRule::Cpm { cpm_cents: 250 });

    // The denormalised status column is rewritten from the blob every write.
    c.status = CampaignStatus::Paused;
    c.updated_at = now_iso();
    store.upsert_campaign(&c);
    assert_eq!(store.list_campaigns(None).len(), 1);
    assert!(store.list_campaigns(Some(CampaignStatus::Active))
        .is_empty());
    assert_eq!(
        store.list_campaigns(Some(CampaignStatus::Paused))
            .len(),
        1
    );

    store.upsert_creator(&creator("u1", "ada"));
    store.insert_submission(&submission("s1", "c1", "u1", "vid1"));
    store.insert_snapshot(&snapshot("s1", 1000)).unwrap();
    store.upsert_payout(&payout("p1", "c1", "u1", Some("s1"), 250)).unwrap();

    assert!(store.delete_campaign("c1"));
    assert!(store.get_campaign("c1").unwrap().is_none());
    assert!(store.get_submission("s1").is_none());
    assert!(store.latest_snapshot("s1").is_none());
    assert!(store.list_payouts(&PayoutFilter::default())
        .is_empty());
    // The creator survives — deleting a campaign does not delete the roster.
    assert!(store.get_creator("u1").unwrap().is_some());
    assert!(!store.delete_campaign("c1"));
}

#[test]
fn creator_search_matches_name_or_email() {
    let mut store = UgcStore::new();
    store.upsert_creator(&creator("u1", "ada"));
    store.upsert_creator(&creator("u2", "grace"));

    assert_eq!(store.list_creators(None).unwrap().len(), 2);
    // Sorted by display name.
    assert_eq!(store.list_creators(None).unwrap()[0].id, "u1");
    assert_eq!(store.list_creators(Some("GRA")).unwrap().len(), 1);
    assert_eq!(
        store.list_creators(Some("grace@example")).unwrap()[0].id,
        "u2"
    );
    assert!(store.list_creators(Some("nobody")).unwrap().is_empty());
    // An all-whitespace query is "no filter", not "match nothing".
    assert_eq!(store.list_creators(Some("   ")).unwrap().len(), 2);
}

#[test]
fn creator_delete_cascades_only_when_asked() {
    let mut store = UgcStore::new();
    store.upsert_campaign(&campaign("c1", PayoutRule::Flat { flat_cents: 100 }));
    store.upsert_creator(&creator("u1", "ada"));
    store.insert_submission(&submission("s1", "c1", "u1", "vid1"));
    store.insert_snapshot(&snapshot("s1", 500)).unwrap();

    assert_eq!(store.count_submissions_for_creator("u1").unwrap(), 1);
    // Non-cascading delete leaves the submissions behind (the API 409s first).
    assert!(store.delete_creator("u1", false));
    assert!(store.get_submission("s1").is_some());

    store.upsert_creator(&creator("u1", "ada"));
    assert!(store.delete_creator("u1", true));
    assert!(store.get_submission("s1").is_none());
    assert!(store.latest_snapshot("s1").is_none());
}

#[test]
fn duplicate_post_is_rejected_but_blank_post_ids_are_not() {
    let mut store = UgcStore::new();
    store.upsert_campaign(&campaign("c1", PayoutRule::Flat { flat_cents: 100 }));
    assert_eq!(
        store.insert_submission(&submission("s1", "c1", "u1", "vid1")),
        WriteOutcome::Written
    );
    // Same post, same campaign, different row id => the unique index bites.
    assert_eq!(
        store.insert_submission(&submission("s2", "c1", "u2", "vid1")),
        WriteOutcome::DuplicatePost
    );
    // The same post in a DIFFERENT campaign is a legitimate second submission.
    store.upsert_campaign(&campaign("c2", PayoutRule::Flat { flat_cents: 100 }));
    assert_eq!(
        store.insert_submission(&submission("s3", "c2", "u1", "vid1")),
        WriteOutcome::Written
    );
    // Unparseable URLs (empty id) are excluded from the index, so two of them
    // coexist and stay reviewable by hand.
    let mut blank_a = submission("s4", "c1", "u1", "");
    blank_a.post_url = "not a url".into();
    let mut blank_b = submission("s5", "c1", "u1", "");
    blank_b.post_url = "also not a url".into();
    assert_eq!(
        store.insert_submission(&blank_a),
        WriteOutcome::Written
    );
    assert_eq!(
        store.insert_submission(&blank_b),
        WriteOutcome::Written
    );
    // ...and "" never resolves to one post.
    assert!(store.find_submission_by_post("c1", "youtube", "")
        .is_none());
    assert_eq!(
        store.find_submission_by_post("c1", "youtube", "vid1").unwrap()
            .id,
        "s1"
    );
}

#[test]
fn submission_update_reports_missing_rows_and_collisions() {
    let mut store = UgcStore::new();
    store.insert_submission(&submission("s1", "c1", "u1", "vid1"));
    store.insert_submission(&submission("s2", "c1", "u1", "vid2"));

    let mut edit = submission("s2", "c1", "u1", "vid3");
    assert_eq!(
        store.update_submission(&edit),
        WriteOutcome::Written
    );
    // Editing s2 onto s1's post is the same double-pay hazard as inserting it.
    edit.external_post_id = "vid1".into();
    assert_eq!(
        store.update_submission(&edit),
        WriteOutcome::DuplicatePost
    );
    assert_eq!(
        store.update_submission(&submission("absent", "c1", "u1", "vid9")),
        WriteOutcome::NotFound
    );
    // The edit never touches review state.
    assert_eq!(
        store.get_submission("s2").unwrap().status,
        SubmissionStatus::Pending
    );
}

#[test]
fn submission_filters_and_latest_metrics_join() {
    let mut store = UgcStore::new();
    store.insert_submission(&submission("s1", "c1", "u1", "vid1"));
    let mut other = submission("s2", "c1", "u2", "vid2");
    other.platform = "tiktok".into();
    store.insert_submission(&other);
    store.insert_submission(&submission("s3", "c2", "u1", "vid3"));

    store.set_submission_status("s1", SubmissionStatus::Approved, Some(&now_iso()), None, &now_iso());

    let by_campaign = SubmissionFilter {
        campaign_id: Some("c1".into()),
        ..Default::default()
    };
    assert_eq!(store.list_submissions(&by_campaign).len(), 2);

    let by_platform = SubmissionFilter {
        campaign_id: Some("c1".into()),
        platform: Some("TikTok".into()),
        ..Default::default()
    };
    assert_eq!(
        store.list_submissions(&by_platform)[0].id,
        "s2"
    );

    let by_status = SubmissionFilter {
        status: Some(SubmissionStatus::Approved),
        ..Default::default()
    };
    assert_eq!(store.list_submissions(&by_status).len(), 1);

    let by_creator = SubmissionFilter {
        creator_id: Some("u1".into()),
        ..Default::default()
    };
    assert_eq!(store.list_submissions(&by_creator).len(), 2);

    // Two snapshots: only the newest one is joined on.
    store.insert_snapshot(&snapshot("s1", 100)).unwrap();
    store.insert_snapshot(&snapshot("s1", 4200)).unwrap();
    let joined = store.list_submissions_with_metrics(&by_campaign);
    assert_eq!(joined.len(), 2);
    let s1 = joined.iter().find(|r| r.submission.id == "s1").unwrap();
    assert_eq!(s1.latest.as_ref().unwrap().views, 4200);
    // A submission with no snapshot yet joins to nothing, it does not vanish.
    let s2 = joined.iter().find(|r| r.submission.id == "s2").unwrap();
    assert!(s2.latest.is_none());

    // History is newest-first and honours the limit.
    let history = store.list_snapshots("s1", Some(1));
    assert_eq!(history.len(), 1);
    assert_eq!(history[0].views, 4200);
    assert_eq!(history[0].source, MetricSource::Composio);
    assert_eq!(store.list_snapshots("s1", None).len(), 2);
}

#[test]
fn list_joins_payout_money_and_never_fakes_a_zero() {
    let mut store = UgcStore::new();
    // s1 accrues, s2 is paid, s3 has no payout row at all.
    for (sid, post) in [("s1", "vid1"), ("s2", "vid2"), ("s3", "vid3")] {
        store.insert_submission(&submission(sid, "c1", "u1", post));
    }
    store.upsert_payout(&payout("p1", "c1", "u1", Some("s1"), 10_300)).unwrap();
    let mut paid = payout("p2", "c1", "u1", Some("s2"), 200);
    paid.status = PayoutStatus::Paid;
    store.upsert_payout(&paid).unwrap();
    // A campaign-level row belongs to no post and must not attach to one.
    store.upsert_payout(&payout("p3", "c1", "u1", None, 999)).unwrap();

    let by_campaign = SubmissionFilter {
        campaign_id: Some("c1".into()),
        ..Default::default()
    };
    let rows = store.list_submissions_with_metrics(&by_campaign);
    assert_eq!(rows.len(), 3, "the payouts join must not fan rows out");

    let s1 = rows.iter().find(|r| r.submission.id == "s1").unwrap();
    assert_eq!(s1.accrued_cents, Some(10_300));
    assert_eq!(s1.payout_status.as_deref(), Some("accrued"));

    // Paid money reports its own state, so the panel can tell it from money
    // that is merely committed.
    let s2 = rows.iter().find(|r| r.submission.id == "s2").unwrap();
    assert_eq!(s2.accrued_cents, Some(200));
    assert_eq!(s2.payout_status.as_deref(), Some("paid"));

    // No payout row => None, NOT Some(0). A zero would read as "this post is
    // worth nothing" instead of "nothing has accrued yet".
    let s3 = rows.iter().find(|r| r.submission.id == "s3").unwrap();
    assert_eq!(s3.accrued_cents, None);
    assert_eq!(s3.payout_status, None);

    // A payout genuinely priced at zero is the other fact, and stays distinct.
    store.upsert_payout(&payout("p4", "c1", "u1", Some("s3"), 0)).unwrap();
    let rows = store.list_submissions_with_metrics(&by_campaign);
    let s3 = rows.iter().find(|r| r.submission.id == "s3").unwrap();
    assert_eq!(s3.accrued_cents, Some(0));
    assert_eq!(s3.payout_status.as_deref(), Some("accrued"));
}

#[test]
fn joined_list_filters_are_unambiguous_against_payouts() {
    // `payouts` carries campaign_id, creator_id and status too: an unqualified
    // WHERE would make SQLite refuse the statement outright, so every filter
    // has to be exercised through the joined read, not just the plain one.
    let mut store = UgcStore::new();
    store.insert_submission(&submission("s1", "c1", "u1", "vid1"));
    let mut other = submission("s2", "c1", "u2", "vid2");
    other.platform = "tiktok".into();
    store.insert_submission(&other);
    store.set_submission_status("s1", SubmissionStatus::Approved, Some(&now_iso()), None, &now_iso());
    let mut paid = payout("p1", "c1", "u1", Some("s1"), 500);
    paid.status = PayoutStatus::Paid;
    store.upsert_payout(&paid).unwrap();

    // The submission is `approved` while its payout is `paid` — filtering on
    // the wrong table's status column would silently return the wrong row.
    let every_filter = SubmissionFilter {
        campaign_id: Some("c1".into()),
        creator_id: Some("u1".into()),
        status: Some(SubmissionStatus::Approved),
        platform: Some("youtube".into()),
        limit: None,
    };
    let rows = store.list_submissions_with_metrics(&every_filter);
    assert_eq!(rows.len(), 1);
    assert_eq!(rows[0].submission.id, "s1");
    assert_eq!(rows[0].payout_status.as_deref(), Some("paid"));

    let paid_submissions = SubmissionFilter {
        status: Some(SubmissionStatus::Paid),
        ..Default::default()
    };
    assert!(store.list_submissions_with_metrics(&paid_submissions)
        .is_empty());
}

#[test]
fn submission_delete_cascades_snapshots_and_payout() {
    let mut store = UgcStore::new();
    store.insert_submission(&submission("s1", "c1", "u1", "vid1"));
    store.insert_snapshot(&snapshot("s1", 100)).unwrap();
    store.upsert_payout(&payout("p1", "c1", "u1", Some("s1"), 500)).unwrap();

    assert!(store.delete_submission("s1"));
    assert!(store.latest_snapshot("s1").is_none());
    assert!(store.payout_for_submission("s1").is_none());
    assert!(!store.delete_submission("s1"));
}

#[test]
fn payout_status_stamps_only_its_own_column() {
    let mut store = UgcStore::new();
    store.upsert_payout(&payout("p1", "c1", "u1", Some("s1"), 500)).unwrap();

    let approved = store.set_payout_status("p1", PayoutStatus::Approved, "2026-01-01T00:00:00Z").unwrap();
    assert_eq!(approved.status, PayoutStatus::Approved);
    assert_eq!(
        approved.approved_at.as_deref(),
        Some("2026-01-01T00:00:00Z")
    );
    assert!(approved.paid_at.is_none());

    let paid = store.set_payout_status("p1", PayoutStatus::Paid, "2026-01-02T00:00:00Z").unwrap();
    assert_eq!(paid.status, PayoutStatus::Paid);
    // The approval stamp survives being paid.
    assert_eq!(paid.approved_at.as_deref(), Some("2026-01-01T00:00:00Z"));
    assert_eq!(paid.paid_at.as_deref(), Some("2026-01-02T00:00:00Z"));

    assert!(store.set_payout_status("absent", PayoutStatus::Paid, "x")
        .is_none());

    // Paid money cannot be un-accrued by a reject.
    assert!(!store.delete_unpaid_payout_for_submission("s1"));
}

#[test]
fn re_pricing_a_payout_updates_in_place() {
    let mut store = UgcStore::new();
    let mut p = payout("p1", "c1", "u1", Some("s1"), 500);
    store.upsert_payout(&p).unwrap();
    p.amount_cents = 900;
    p.updated_at = now_iso();
    store.upsert_payout(&p).unwrap();

    let all = store.list_payouts(&PayoutFilter::default());
    assert_eq!(all.len(), 1, "re-pricing must not append a second row");
    assert_eq!(all[0].amount_cents, 900);
    // ...and the sums the caps read stay single-counted.
    assert_eq!(
        store.campaign_committed_cents("c1", None).unwrap(),
        900
    );
    assert_eq!(
        store.campaign_committed_cents("c1", Some("s1")).unwrap(),
        0,
        "the row being re-priced is excluded from its own cap headroom"
    );
}

#[test]
fn payout_filters_narrow_in_sql() {
    let mut store = UgcStore::new();
    store.upsert_payout(&payout("p1", "c1", "u1", Some("s1"), 100)).unwrap();
    store.upsert_payout(&payout("p2", "c1", "u2", Some("s2"), 200)).unwrap();
    let mut paid = payout("p3", "c2", "u1", Some("s3"), 300);
    paid.status = PayoutStatus::Paid;
    store.upsert_payout(&paid).unwrap();

    let by_campaign = PayoutFilter {
        campaign_id: Some("c1".into()),
        ..Default::default()
    };
    assert_eq!(store.list_payouts(&by_campaign).len(), 2);

    let by_creator = PayoutFilter {
        creator_id: Some("u1".into()),
        ..Default::default()
    };
    assert_eq!(store.list_payouts(&by_creator).len(), 2);

    let by_status = PayoutFilter {
        status: Some(PayoutStatus::Paid),
        ..Default::default()
    };
    assert_eq!(store.list_payouts(&by_status)[0].id, "p3");

    // A campaign-level row (no submission) is unconstrained by the per-post
    // unique index and still counts toward the campaign total.
    store.upsert_payout(&payout("p4", "c1", "u1", None, 50)).unwrap();
    store.upsert_payout(&payout("p5", "c1", "u1", None, 25)).unwrap();
    assert_eq!(
        store.campaign_committed_cents("c1", None).unwrap(),
        375
    );
    assert_eq!(
        store.creator_committed_cents("c1", "u1", None).unwrap(),
        175
    );
}

// ---- derived reads ----------------------------------------------------

#[test]
fn campaign_summary_prices_off_the_latest_snapshot_only() {
    let mut store = UgcStore::new();
    let mut c = campaign("c1", PayoutRule::Cpm { cpm_cents: 250 });
    c.budget_cents = 100_000;
    store.upsert_campaign(&c);
    store.upsert_creator(&creator("u1", "ada"));
    store.upsert_creator(&creator("u2", "grace"));

    store.insert_submission(&submission("s1", "c1", "u1", "vid1"));
    store.insert_submission(&submission("s2", "c1", "u2", "vid2"));
    store.set_submission_status("s1", SubmissionStatus::Approved, Some(&now_iso()), None, &now_iso());

    // Three readings of the same post; only the last one counts.
    store.insert_snapshot(&snapshot("s1", 1_000)).unwrap();
    store.insert_snapshot(&snapshot("s1", 5_000)).unwrap();
    store.insert_snapshot(&snapshot("s1", 41_200)).unwrap();
    store.insert_snapshot(&snapshot("s2", 800)).unwrap();

    store.upsert_payout(&payout("p1", "c1", "u1", Some("s1"), 10_300)).unwrap();
    let mut paid = payout("p2", "c1", "u2", Some("s2"), 200);
    paid.status = PayoutStatus::Paid;
    store.upsert_payout(&paid).unwrap();

    let sum = store.campaign_summary("c1").unwrap().unwrap();
    assert_eq!(
        sum.total_views, 42_000,
        "latest per submission, not the sum"
    );
    assert_eq!(sum.total_likes, 20);
    assert_eq!(sum.total_comments, 4);
    assert_eq!(sum.accrued_cents, 10_300);
    assert_eq!(sum.paid_cents, 200);
    assert_eq!(sum.committed_cents, 10_500);
    assert_eq!(sum.remaining_cents, Some(89_500));
    assert_eq!(sum.submissions.approved, 1);
    assert_eq!(sum.submissions.pending, 1);
    assert_eq!(sum.submissions.total(), 2);
    assert_eq!(sum.creators, 2);

    assert!(store.campaign_summary("absent").unwrap().is_none());
}

#[test]
fn uncapped_campaign_reports_no_remaining_rather_than_zero() {
    let mut store = UgcStore::new();
    // budget_cents = 0 is "uncapped", so "remaining" is not a number at all.
    store.upsert_campaign(&campaign("c1", PayoutRule::Flat { flat_cents: 100 }));
    store.upsert_payout(&payout("p1", "c1", "u1", Some("s1"), 9_999)).unwrap();
    let sum = store.campaign_summary("c1").unwrap().unwrap();
    assert_eq!(sum.budget_cents, 0);
    assert_eq!(sum.committed_cents, 9_999);
    assert_eq!(sum.remaining_cents, None);
}

#[test]
fn leaderboard_ranks_by_latest_views_and_breaks_ties_stably() {
    let mut store = UgcStore::new();
    store.upsert_campaign(&campaign("c1", PayoutRule::Cpm { cpm_cents: 100 }));
    store.upsert_creator(&creator("u1", "zoe"));
    store.upsert_creator(&creator("u2", "ada"));
    store.upsert_creator(&creator("u3", "bob"));

    for (sid, uid, post) in [("s1", "u1", "v1"), ("s2", "u2", "v2"), ("s3", "u3", "v3")] {
        store.insert_submission(&submission(sid, "c1", uid, post));
        store.set_submission_status(sid, SubmissionStatus::Approved, Some(&now_iso()), None, &now_iso());
    }
    // u3 leads; u1 and u2 tie on views, so the tie-break must decide.
    store.insert_snapshot(&snapshot("s1", 5_000)).unwrap();
    store.insert_snapshot(&snapshot("s2", 5_000)).unwrap();
    store.insert_snapshot(&snapshot("s3", 9_000)).unwrap();

    store.upsert_payout(&payout("p1", "c1", "u1", Some("s1"), 500)).unwrap();
    let mut paid = payout("p3", "c1", "u3", Some("s3"), 900);
    paid.status = PayoutStatus::Paid;
    store.upsert_payout(&paid).unwrap();

    let board = store.campaign_leaderboard("c1", None).unwrap();
    assert_eq!(board.len(), 3);
    assert_eq!(board[0].creator_id, "u3");
    assert_eq!(board[0].views, 9_000);
    assert_eq!(board[0].paid_cents, 900);
    assert_eq!(board[0].accrued_cents, 0);
    // Tied on views => ordered by display name ("ada" before "zoe"), which is
    // deterministic where a bare `ORDER BY views DESC` would not be.
    assert_eq!(board[1].creator_id, "u2");
    assert_eq!(board[2].creator_id, "u1");
    assert_eq!(board[2].accrued_cents, 500);
    assert_eq!(board[1].approved_submissions, 1);

    // Running it again gives the identical order.
    let again = store.campaign_leaderboard("c1", None).unwrap();
    let ids: Vec<_> = again.iter().map(|r| r.creator_id.clone()).collect();
    assert_eq!(ids, vec!["u3", "u2", "u1"]);

    assert_eq!(
        store.campaign_leaderboard("c1", Some(1)).unwrap()
            .len(),
        1
    );
}

#[test]
fn overview_and_creator_totals_count_across_campaigns() {
    let mut store = UgcStore::new();
    store.upsert_campaign(&campaign("c1", PayoutRule::Flat { flat_cents: 100 }));
    store.upsert_campaign(&campaign("c2", PayoutRule::Flat { flat_cents: 100 }));
    store.upsert_creator(&creator("u1", "ada"));

    store.insert_submission(&submission("s1", "c1", "u1", "v1"));
    store.insert_submission(&submission("s2", "c2", "u1", "v2"));
    store.set_submission_status("s2", SubmissionStatus::Approved, Some(&now_iso()), None, &now_iso());
    store.upsert_payout(&payout("p1", "c2", "u1", Some("s2"), 100)).unwrap();

    let overview = store.overview().unwrap();
    assert_eq!(overview.campaigns, 2);
    assert_eq!(overview.creators, 1);
    assert_eq!(overview.submissions.pending, 1);
    assert_eq!(overview.submissions.approved, 1);
    assert_eq!(overview.accrued_cents, 100);
    assert_eq!(overview.paid_cents, 0);

    let totals = store.creator_totals("u1").unwrap();
    assert_eq!(totals.submissions.total(), 2);
    assert_eq!(totals.accrued_cents, 100);
}

#[test]
fn accrual_inputs_gather_everything_and_price_the_submission() {
    let mut store = UgcStore::new();
    let mut c = campaign("c1", PayoutRule::Cpm { cpm_cents: 250 });
    c.budget_cents = 20_000;
    c.max_payout_per_creator_cents = 12_000;
    store.upsert_campaign(&c);
    store.insert_submission(&submission("s1", "c1", "u1", "v1"));

    // Pending work is worth nothing — unreviewed posts must not eat budget.
    store.insert_snapshot(&snapshot("s1", 41_200)).unwrap();
    let pending = store.accrual_inputs("s1").unwrap().unwrap();
    assert_eq!(pending.views(), 41_200);
    assert_eq!(pending.amount_cents(), 0);

    store.set_submission_status("s1", SubmissionStatus::Approved, Some(&now_iso()), None, &now_iso());
    let approved = store.accrual_inputs("s1").unwrap().unwrap();
    assert_eq!(approved.amount_cents(), 10_300);
    assert!(approved.existing_payout.is_none());

    // A second post from the same creator runs into the per-creator ceiling.
    store.upsert_payout(&payout("p1", "c1", "u1", Some("s1"), 10_300)).unwrap();
    store.insert_submission(&submission("s2", "c1", "u1", "v2"));
    store.set_submission_status("s2", SubmissionStatus::Approved, Some(&now_iso()), None, &now_iso());
    store.insert_snapshot(&snapshot("s2", 41_200)).unwrap();
    let second = store.accrual_inputs("s2").unwrap().unwrap();
    assert_eq!(second.creator_committed_excluding_this, 10_300);
    assert_eq!(
        second.amount_cents(),
        1_700,
        "12 000c cap minus 10 300c already committed"
    );

    assert!(store.accrual_inputs("absent").unwrap().is_none());
}

// ---- pure payout math -------------------------------------------------

#[test]
fn cpm_pricing_is_integer_cents_and_floors() {
    let cpm = PayoutRule::Cpm { cpm_cents: 250 };
    assert_eq!(payout_for(0, &cpm, &[]), 0);
    // 999 views at 250c/1k is 249.75c — it floors to 249c, it does not become
    // a float and it does not round up.
    assert_eq!(payout_for(999, &cpm, &[]), 249);
    assert_eq!(payout_for(1_000, &cpm, &[]), 250);
    assert_eq!(payout_for(41_200, &cpm, &[]), 10_300);
    // Nonsense inputs degrade to 0 rather than producing negative money.
    assert_eq!(payout_for(-5, &cpm, &[]), 0);
    assert_eq!(
        payout_for(1_000, &PayoutRule::Cpm { cpm_cents: -250 }, &[]),
        0
    );
    // An absurd view count saturates instead of wrapping negative.
    assert!(payout_for(i64::MAX, &cpm, &[]) > 0);
}

#[test]
fn flat_pricing_ignores_views() {
    let flat = PayoutRule::Flat { flat_cents: 5_000 };
    assert_eq!(payout_for(0, &flat, &[]), 5_000);
    assert_eq!(payout_for(9_000_000, &flat, &[]), 5_000);
    assert_eq!(payout_for(10, &PayoutRule::Flat { flat_cents: -1 }, &[]), 0);
}

#[test]
fn one_bonus_tier_applies_at_exactly_its_threshold() {
    let tiers = [
        BonusTier {
            views: 10_000,
            bonus_cents: 1_000,
        },
        BonusTier {
            views: 50_000,
            bonus_cents: 5_000,
        },
    ];
    let flat = PayoutRule::Flat { flat_cents: 100 };
    assert_eq!(
        payout_for(9_999, &flat, &tiers),
        100,
        "below the first tier"
    );
    assert_eq!(
        payout_for(10_000, &flat, &tiers),
        1_100,
        "a threshold is met at exactly its view count"
    );
    assert_eq!(payout_for(10_001, &flat, &tiers), 1_100);
    assert_eq!(payout_for(49_999, &flat, &tiers), 1_100);
    // The highest MET tier wins outright: 5 000c, not 1 000 + 5 000.
    assert_eq!(payout_for(50_000, &flat, &tiers), 5_100);
    assert_eq!(payout_for(120_000, &flat, &tiers), 5_100);
}

#[test]
fn tiers_out_of_order_still_pick_the_highest_met_threshold() {
    // The API validates that tiers increase, but the math must not depend on
    // it — a hand-edited campaign blob can arrive in any order.
    let tiers = [
        BonusTier {
            views: 50_000,
            bonus_cents: 5_000,
        },
        BonusTier {
            views: 10_000,
            bonus_cents: 1_000,
        },
    ];
    let flat = PayoutRule::Flat { flat_cents: 0 };
    assert_eq!(payout_for(10_000, &flat, &tiers), 1_000);
    assert_eq!(payout_for(50_000, &flat, &tiers), 5_000);
}

#[test]
fn caps_clamp_and_zero_means_uncapped() {
    // No ceilings at all: 0 / 0 must not clamp to zero.
    assert_eq!(clamp_payout(10_300, 0, 0, 0, 0), 10_300);
    assert_eq!(clamp_payout(10_300, 99_999, 0, 99_999, 0), 10_300);

    // Per-creator ceiling: 12 000c cap, 10 300c already committed elsewhere.
    assert_eq!(clamp_payout(10_300, 10_300, 12_000, 0, 0), 1_700);
    // Exactly at the ceiling => nothing more.
    assert_eq!(clamp_payout(10_300, 12_000, 12_000, 0, 0), 0);
    // Over the ceiling (a lowered cap) never produces negative money.
    assert_eq!(clamp_payout(10_300, 20_000, 12_000, 0, 0), 0);

    // Campaign budget: the tighter of the two ceilings wins.
    assert_eq!(clamp_payout(10_300, 0, 12_000, 9_000, 10_000), 1_000);
    assert_eq!(clamp_payout(10_300, 0, 0, 10_000, 10_000), 0);
    // A negative raw amount is floored, not propagated.
    assert_eq!(clamp_payout(-1, 0, 0, 0, 0), 0);
}

#[test]
fn status_strings_roundtrip_and_unknown_degrades() {
    for s in [
        CampaignStatus::Draft,
        CampaignStatus::Active,
        CampaignStatus::Paused,
        CampaignStatus::Ended,
    ] {
        assert_eq!(CampaignStatus::parse(s.as_str()), Some(s));
    }
    assert_eq!(
        CampaignStatus::parse("  ACTIVE "),
        Some(CampaignStatus::Active)
    );
    // An unknown filter value is "no filter", which the list endpoint turns
    // into "all" rather than an empty list.
    assert!(CampaignStatus::parse("mystery").is_none());

    for s in [
        SubmissionStatus::Pending,
        SubmissionStatus::Approved,
        SubmissionStatus::Rejected,
        SubmissionStatus::Paid,
    ] {
        assert_eq!(SubmissionStatus::from_db(s.as_str()), s);
    }
    assert_eq!(
        SubmissionStatus::from_db("mystery"),
        SubmissionStatus::Pending
    );

    for s in [
        PayoutStatus::Accrued,
        PayoutStatus::Approved,
        PayoutStatus::Paid,
    ] {
        assert_eq!(PayoutStatus::from_db(s.as_str()), s);
    }
    assert_eq!(PayoutStatus::from_db("mystery"), PayoutStatus::Accrued);

    for s in [MetricSource::Manual, MetricSource::Composio] {
        assert_eq!(MetricSource::from_db(s.as_str()), s);
    }
    // Unknown never claims an automated read happened.
    assert_eq!(MetricSource::from_db("mystery"), MetricSource::Manual);
}

#[test]
fn limits_are_clamped_server_side() {
    assert_eq!(clamp_limit(None), DEFAULT_LIMIT);
    assert_eq!(clamp_limit(Some(0)), 1);
    assert_eq!(clamp_limit(Some(-9)), 1);
    assert_eq!(clamp_limit(Some(10)), 10);
    assert_eq!(clamp_limit(Some(9_000)), MAX_LIMIT);
}

#[test]
fn writes_broadcast_to_live_subscribers() {
    let mut store = UgcStore::new();
    store.upsert_campaign(&campaign("c1", PayoutRule::Flat { flat_cents: 1 }));
    let feed = store.take_feed();
    assert!(matches!(
        feed.first().expect("campaign event"),
        UgcEvent::CampaignChanged { .. }
    ));
    assert!(store.take_feed().is_empty());
}

#[test]
fn the_search_pattern_has_its_wildcards() {
    assert!(is_like("", ""));
    assert!(!is_like("", "a"));
    assert!(is_like("%", ""));
    assert!(is_like("%%", "ada"));
    assert!(is_like("a_a", "ADA"));
    assert!(!is_like("a_a", "adda"));
    assert!(is_like("%b%b%", "abcb"));
    assert!(!is_like("%b%b%", "abc"));
    assert!(is_like("%lovelace%", "Ada Lovelace, London"));
    // Case is folded for ASCII letters only.
    assert!(!is_like("%\u{c9}%", "\u{e9}"));
    // A long text is no deeper a search than a short one.
    let long = "x".repeat(200_000);
    assert!(is_like("%x%", &long));
    assert!(!is_like("%y%", &long));
}

#[test]
fn a_search_pattern_that_is_too_long_is_refused() {
    let longest = "x".repeat(49_998);
    let too_long = "x".repeat(49_999);
    let mut store = UgcStore::new();
    // Without a row nothing is compared.
    assert!(store.list_creators(Some(&too_long)).unwrap().is_empty());
    store.upsert_creator(&creator("u1", "ada"));
    assert!(store.list_creators(Some(&longest)).unwrap().is_empty());
    let refused = store.list_creators(Some(&too_long)).unwrap_err();
    assert_eq!(refused, StoreError::PatternTooComplex);
    assert_eq!(refused.message(), "LIKE or GLOB pattern too complex");
    // The limit counts bytes, not characters.
    assert!(store.list_creators(Some(&"\u{e9}".repeat(25_000))).is_err());
}

#[test]
fn a_paid_payout_is_kept_however_its_state_is_written() {
    let row = |text: &str| {
        map_payout(payout("p1", "c1", "u1", Some("s1"), 500), text.to_string())
    };
    for (written, goes) in [("paid", false), ("PAID", false), ("accrued", true), ("odd", true)] {
        let mut store = UgcStore::load(
            vec![],
            vec![],
            vec![],
            vec![],
            vec![],
            vec![],
            vec![row(written)],
            0,
        )
        .unwrap();
        assert_eq!(store.delete_unpaid_payout_for_submission("s1"), goes, "{written}");
        assert_eq!(store.get_payout("p1").is_none(), goes, "{written}");
    }
}

/// A store with the campaign `c1` and the creator `u1`, and with `c2` and `u2` whose records
/// cannot be read.
fn with_unread_rows() -> UgcStore {
    UgcStore::load(
        vec![campaign("c1", PayoutRule::Flat { flat_cents: 100 })],
        vec!["c2".into()],
        vec![creator("u1", "ada")],
        vec![UnreadCreator { id: "u2".into(), display_name: "bea".into() }],
        vec![],
        vec![],
        vec![],
        0,
    )
    .unwrap()
}

#[test]
fn a_record_that_cannot_be_read_is_an_error_and_no_missing_row() {
    let mut store = with_unread_rows();
    assert_eq!(
        store.get_campaign("c2").unwrap_err(),
        StoreError::DeserializingCampaign
    );
    assert_eq!(
        store.get_creator("u2").unwrap_err(),
        StoreError::DeserializingCreator
    );
    assert_eq!(
        store.get_creator("u2").unwrap_err().message(),
        "deserializing creator"
    );
    assert_eq!(
        store.campaign_summary("c2").unwrap_err(),
        StoreError::DeserializingCampaign
    );
    assert!(store.get_campaign("c1").unwrap().is_some());
    assert!(store.get_campaign("c3").unwrap().is_none());

    // Lists leave it out, counts do not.
    assert_eq!(store.list_campaigns(None).len(), 1);
    assert_eq!(store.list_creators(None).unwrap().len(), 1);
    assert_eq!(store.count_campaigns().unwrap(), 2);
    assert_eq!(store.count_creators().unwrap(), 2);
    assert_eq!(store.overview().unwrap().campaigns, 2);

    // Pricing needs the campaign's rule; the leaderboard needs the stored name alone.
    store.insert_submission(&submission("s1", "c2", "u2", "vid1"));
    assert_eq!(
        store.accrual_inputs("s1").unwrap_err(),
        StoreError::DeserializingCampaign
    );
    let board = store.campaign_leaderboard("c2", None).unwrap();
    assert_eq!(board.len(), 1);
    assert_eq!(board[0].display_name, "bea");
}

#[test]
fn a_record_that_cannot_be_read_can_be_replaced_and_deleted() {
    let mut store = with_unread_rows();
    store.upsert_campaign(&campaign("c2", PayoutRule::Flat { flat_cents: 7 }));
    assert_eq!(
        store.get_campaign("c2").unwrap().unwrap().payout,
        PayoutRule::Flat { flat_cents: 7 }
    );
    assert_eq!(store.count_campaigns().unwrap(), 2);
    store.upsert_creator(&creator("u2", "bea"));
    assert!(store.get_creator("u2").unwrap().is_some());
    assert_eq!(store.count_creators().unwrap(), 2);

    let mut store = with_unread_rows();
    assert!(store.delete_campaign("c2"));
    assert!(!store.delete_campaign("c2"));
    assert!(store.get_campaign("c2").unwrap().is_none());
    assert!(store.delete_creator("u2", false));
    assert!(store.get_creator("u2").unwrap().is_none());
    assert_eq!(store.take_feed().len(), 2);
}

#[test]
fn an_id_stands_once_whether_its_record_can_be_read_or_not() {
    let load = |unread_campaigns: Vec<String>, unread_creators: Vec<UnreadCreator>| {
        UgcStore::load(
            vec![campaign("c1", PayoutRule::Flat { flat_cents: 100 })],
            unread_campaigns,
            vec![creator("u1", "ada")],
            unread_creators,
            vec![],
            vec![],
            vec![],
            0,
        )
        .err()
    };
    let unread = |id: &str| UnreadCreator { id: id.into(), display_name: "bea".into() };
    assert_eq!(load(vec!["c2".into()], vec![unread("u2")]), None);
    assert_eq!(load(vec!["c1".into()], vec![]), Some(StoreError::CorruptRows));
    assert_eq!(load(vec![], vec![unread("u1")]), Some(StoreError::CorruptRows));
    assert_eq!(
        load(vec!["c2".into(), "c2".into()], vec![]),
        Some(StoreError::CorruptRows)
    );
    assert_eq!(
        load(vec![], vec![unread("u2"), unread("u2")]),
        Some(StoreError::CorruptRows)
    );
}
