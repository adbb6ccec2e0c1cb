//! What the messages say: each names what it speaks of, and hands on the words that it was given.
use crate::app_events;
use crate::app_events::{EmitError, ProviderRouterError, UsageReportError};
use crate::composio;
use crate::composio::{MetricErrorView, SourceView};
use crate::engine;
use crate::engine::RefreshErrorView;
use crate::execute;
use crate::runtime;
use crate::store::StoreError;
use crate::submission_api;
use crate::text;
use crate::text_laws;
use vstd::prelude::*;

verus! {

/// The message of a refused or failed lookup names the platform, the action or the word that it is
/// about.
pub proof fn law_refusals_name_their_subject(name: Seq<char>, src: SourceView)
    ensures
        text::holds_text(engine::no_source_text(name), name),
        text::holds_text(execute::no_source_text(name), name),
        text::holds_text(composio::unsafe_slug_text(name), name),
        text::holds_text(composio::no_counters_text(src), src.action),
        text::holds_text(composio::no_counters_text(src), src.views),
        text::holds_text(runtime::unsupported_profile(name), name),
        text::holds_text(
            submission_api::undecided_text(name),
            text::lower(text::trimmed(name)),
        ),
{
    let none = Seq::<char>::empty();
    text_laws::law_parts_of_a_text(
        "no Composio metric source is curated for platform '"@,
        name,
        "' — record metrics manually"@,
        none,
    );
    text_laws::law_parts_of_a_text(
        "no Composio metric source is curated for platform '"@,
        name,
        "' — add a row to PLATFORM_METRIC_SOURCES or record metrics manually"@,
        none,
    );
    text_laws::law_parts_of_a_text("curated action '"@, name, "' is not a safe action slug"@, none);
    text_laws::law_parts_of_a_text(
        "unsupported RYU_PROFILE '"@,
        name,
        "'; expected release, dev, canary, nightly, or beta"@,
        none,
    );
    text_laws::law_parts_of_a_text(
        "decision must be 'approve' or 'reject', got '"@,
        text::lower(text::trimmed(name)),
        "'"@,
        none,
    );
    let middle =
        "' action answered without any of the counters this platform's row selects (e.g. '"@;
    let end =
        "') — the curated action or its selectors need correcting; record metrics manually meanwhile"@;
    text_laws::law_parts_of_a_text("the '"@, src.action, middle + src.views + end, none);
    text_laws::law_parts_of_a_text("the '"@ + src.action + middle, src.views, end, none);
    assert(composio::no_counters_text(src) =~= "the '"@ + src.action + (middle + src.views + end));
}

/// A failed fetch or refresh is told in the words that it was given, and one of a post that is not
/// there says so.
pub proof fn law_failures_keep_their_words(m: Seq<char>)
    ensures
        MetricErrorView::Unsupported(m).text() == m,
        MetricErrorView::Upstream(m).text() == m,
        RefreshErrorView::Unsupported(m).text() == m,
        RefreshErrorView::Upstream(m).text() == m,
        RefreshErrorView::Internal(m).text() == m,
        RefreshErrorView::NotFound.text() == "submission not found"@,
{
}

/// A call to the host that failed says how: a broken transport with its words, and a rejection with
/// its status and its answer.
pub proof fn law_failed_calls_say_how(e: String, status: u16, body: String)
    ensures
        text::finishes_with(EmitError::Transport(e).text(), e@),
        text::finishes_with(UsageReportError::Transport(e).text(), e@),
        text::finishes_with(UsageReportError::Invalid(e).text(), e@),
        text::finishes_with(ProviderRouterError::Transport(e).text(), e@),
        text::finishes_with(ProviderRouterError::Invalid(e).text(), e@),
        ({
            let tail = " ("@ + text::int_text(status as int) + "): "@ + body@;
            &&& EmitError::Rejected { status, body }.text() == "Core rejected emit"@ + tail
            &&& UsageReportError::Rejected { status, body }.text() == "Core rejected usage report"@
                + tail
            &&& ProviderRouterError::Rejected { status, body }.text()
                == "managed provider rejected the call"@ + tail
        }),
{
    let none = Seq::<char>::empty();
    text_laws::law_parts_of_a_text("emit transport failed: "@, none, e@, none);
    text_laws::law_parts_of_a_text("usage report transport failed: "@, none, e@, none);
    text_laws::law_parts_of_a_text("invalid tool usage report: "@, none, e@, none);
    text_laws::law_parts_of_a_text("managed provider transport failed: "@, none, e@, none);
    text_laws::law_parts_of_a_text("invalid managed provider call: "@, none, e@, none);
    let tail = " ("@ + text::int_text(status as int) + "): "@ + body@;
    assert(app_events::rejected_text("Core rejected emit"@, status, body@) =~= "Core rejected emit"@
        + tail);
    assert(app_events::rejected_text("Core rejected usage report"@, status, body@)
        =~= "Core rejected usage report"@ + tail);
    assert(app_events::rejected_text("managed provider rejected the call"@, status, body@)
        =~= "managed provider rejected the call"@ + tail);
}

/// A failed operation of the store says which one failed.
pub proof fn law_store_failures_say_which()
    ensures
        StoreError::UpsertingPayout.text() == "upserting payout"@,
        StoreError::InsertingSnapshot.text() == "inserting metric snapshot"@,
        StoreError::SummingCampaignPayouts.text() == "summing campaign payouts"@,
        StoreError::SummingCreatorPayouts.text() == "summing creator payouts"@,
        StoreError::SummingCampaignMetrics.text() == "summing campaign metrics"@,
        StoreError::IntegerOverflow.text() == "integer overflow"@,
        StoreError::PatternTooComplex.text() == "LIKE or GLOB pattern too complex"@,
        StoreError::DeserializingCampaign.text() == "deserializing campaign"@,
        StoreError::DeserializingCreator.text() == "deserializing creator"@,
{
}

} // verus!
