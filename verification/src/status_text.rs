//! The counters in words.

use vstd::prelude::*;
use vstd::string::StringExecFns;

use crate::config::quoted_text;
use crate::metrics::MetricsSnapshot;
use crate::str_map::StrMap;
use crate::text::{push_i64, push_u64};

verus! {

/// The written form of a list of numbers.
pub open spec fn list_text(v: Seq<u64>) -> Seq<char> {
    "["@ + joined_numbers(v) + "]"@
}

/// Numbers with commas between them.
pub open spec fn joined_numbers(v: Seq<u64>) -> Seq<char>
    decreases v.len(),
{
    if v.len() == 0 {
        Seq::empty()
    } else if v.len() == 1 {
        crate::text::decimal(v[0] as nat)
    } else {
        joined_numbers(v.drop_last()) + ", "@ + crate::text::decimal(v.last() as nat)
    }
}

fn push_list(out: &mut String, v: &[u64; 6])
    ensures
        final(out)@ == old(out)@ + list_text(v@),
{
    out.append("[");
    let ghost head = out@;
    let mut i: usize = 0;
    assert(head + joined_numbers(v@.take(0)) =~= out@);
    while i < 6
        invariant
            i <= 6,
            v@.len() == 6,
            out@ == head + joined_numbers(v@.take(i as int)),
        decreases 6 - i,
    {
        assert(v@.take(i + 1).drop_last() =~= v@.take(i as int));
        if i > 0 {
            out.append(", ");
        }
        push_u64(out, v[i]);
        i += 1;
        assert(out@ =~= head + joined_numbers(v@.take(i as int)));
    }
    assert(v@.take(6) =~= v@);
    out.append("]");
    assert(out@ =~= old(out)@ + list_text(v@));
}

/// Names with their counts, with commas between them.
pub open spec fn joined_counts(names: Seq<Seq<char>>, counts: Seq<u64>) -> Seq<char>
    decreases names.len(),
{
    if names.len() == 0 {
        Seq::empty()
    } else {
        let last = crate::config::quoted(names.last()) + ": "@ + crate::text::decimal(
            counts.last() as nat,
        );
        if names.len() == 1 {
            last
        } else {
            joined_counts(names.drop_last(), counts.drop_last()) + ", "@ + last
        }
    }
}

/// The written form of counts by name, in the order in which the names came in.
pub open spec fn counts_text(m: StrMap<u64>) -> Seq<char> {
    "{"@ + joined_counts(m.key_seq(), m.val_seq()) + "}"@
}

fn push_counts(out: &mut String, m: &StrMap<u64>)
    requires
        m.wf(),
    ensures
        final(out)@ == old(out)@ + counts_text(*m),
{
    out.append("{");
    let ghost head = out@;
    let ghost names = m.key_seq();
    let ghost counts = m.val_seq();
    proof {
        m.lemma_entries();
    }
    let n: usize = m.len();
    let mut i: usize = 0;
    assert(head + joined_counts(names.take(0), counts.take(0)) =~= out@);
    while i < n
        invariant
            i <= n,
            m.wf(),
            n == names.len(),
            n == counts.len(),
            names == m.key_seq(),
            counts == m.val_seq(),
            out@ == head + joined_counts(names.take(i as int), counts.take(i as int)),
        decreases n - i,
    {
        assert(names.take(i + 1).drop_last() =~= names.take(i as int));
        assert(counts.take(i + 1).drop_last() =~= counts.take(i as int));
        if i > 0 {
            out.append(", ");
        }
        out.append(quoted_text(m.key_at(i).as_str()).as_str());
        out.append(": ");
        push_u64(out, *m.val_at(i));
        i += 1;
        assert(out@ =~= head + joined_counts(names.take(i as int), counts.take(i as int)));
    }
    assert(names.take(n as int) =~= names);
    assert(counts.take(n as int) =~= counts);
    out.append("}");
    assert(out@ =~= old(out)@ + counts_text(*m));
}

/// The given text with a group of counters.
pub open spec fn first_counts(head: Seq<char>, s: MetricsSnapshot) -> Seq<char> {
    head
        + "ticks_processed: "@ + crate::text::decimal(s.ticks_processed as nat)
        + ", features_computed: "@ + crate::text::decimal(s.features_computed as nat)
        + ", inferences_run: "@ + crate::text::decimal(s.inferences_run as nat)
        + ", intents_generated: "@ + crate::text::decimal(s.intents_generated as nat)
        + ", intents_approved: "@ + crate::text::decimal(s.intents_approved as nat)
        + ", intents_rejected: "@ + crate::text::decimal(s.intents_rejected as nat)
}

fn push_first_counts(out: &mut String, s: &MetricsSnapshot)
    requires
        s.wf(),
    ensures
        final(out)@ == first_counts(old(out)@, *s),
{
    out.append("ticks_processed: ");
    push_u64(out, s.ticks_processed);
    out.append(", features_computed: ");
    push_u64(out, s.features_computed);
    out.append(", inferences_run: ");
    push_u64(out, s.inferences_run);
    out.append(", intents_generated: ");
    push_u64(out, s.intents_generated);
    out.append(", intents_approved: ");
    push_u64(out, s.intents_approved);
    out.append(", intents_rejected: ");
    push_u64(out, s.intents_rejected);
}

/// The given text with a group of counters.
pub open spec fn second_counts(head: Seq<char>, s: MetricsSnapshot) -> Seq<char> {
    head
        + ", dropped_intents: "@ + crate::text::decimal(s.dropped_intents as nat)
        + ", stale_predictions: "@ + crate::text::decimal(s.stale_predictions as nat)
        + ", model_fallback_activations: "@ + crate::text::decimal(s.model_fallback_activations as nat)
        + ", ticks_skipped: "@ + crate::text::decimal(s.ticks_skipped as nat)
        + ", orders_submitted: "@ + crate::text::decimal(s.orders_submitted as nat)
        + ", orders_filled: "@ + crate::text::decimal(s.orders_filled as nat)
}

fn push_second_counts(out: &mut String, s: &MetricsSnapshot)
    requires
        s.wf(),
    ensures
        final(out)@ == second_counts(old(out)@, *s),
{
    out.append(", dropped_intents: ");
    push_u64(out, s.dropped_intents);
    out.append(", stale_predictions: ");
    push_u64(out, s.stale_predictions);
    out.append(", model_fallback_activations: ");
    push_u64(out, s.model_fallback_activations);
    out.append(", ticks_skipped: ");
    push_u64(out, s.ticks_skipped);
    out.append(", orders_submitted: ");
    push_u64(out, s.orders_submitted);
    out.append(", orders_filled: ");
    push_u64(out, s.orders_filled);
}

/// The given text with a group of counters.
pub open spec fn third_counts(head: Seq<char>, s: MetricsSnapshot) -> Seq<char> {
    head
        + ", orders_cancelled: "@ + crate::text::decimal(s.orders_cancelled as nat)
        + ", orders_rejected: "@ + crate::text::decimal(s.orders_rejected as nat)
        + ", orders_lifecycle_events: "@ + crate::text::decimal(s.orders_lifecycle_events as nat)
        + ", circuit_breaker_trips: "@ + crate::text::decimal(s.circuit_breaker_trips as nat)
        + ", kill_switch_activations: "@ + crate::text::decimal(s.kill_switch_activations as nat)
        + ", config_reloads: "@ + crate::text::decimal(s.config_reloads as nat)
}

fn push_third_counts(out: &mut String, s: &MetricsSnapshot)
    requires
        s.wf(),
    ensures
        final(out)@ == third_counts(old(out)@, *s),
{
    out.append(", orders_cancelled: ");
    push_u64(out, s.orders_cancelled);
    out.append(", orders_rejected: ");
    push_u64(out, s.orders_rejected);
    out.append(", orders_lifecycle_events: ");
    push_u64(out, s.orders_lifecycle_events);
    out.append(", circuit_breaker_trips: ");
    push_u64(out, s.circuit_breaker_trips);
    out.append(", kill_switch_activations: ");
    push_u64(out, s.kill_switch_activations);
    out.append(", config_reloads: ");
    push_u64(out, s.config_reloads);
}

/// The given text with a group of counters.
pub open spec fn fourth_counts(head: Seq<char>, s: MetricsSnapshot) -> Seq<char> {
    head
        + ", journal_writes: "@ + crate::text::decimal(s.journal_writes as nat)
        + ", heartbeat_misses: "@ + crate::text::decimal(s.heartbeat_misses as nat)
        + ", errors: "@ + crate::text::decimal(s.errors as nat)
        + ", feed_gaps: "@ + crate::text::decimal(s.feed_gaps as nat)
}

fn push_fourth_counts(out: &mut String, s: &MetricsSnapshot)
    requires
        s.wf(),
    ensures
        final(out)@ == fourth_counts(old(out)@, *s),
{
    out.append(", journal_writes: ");
    push_u64(out, s.journal_writes);
    out.append(", heartbeat_misses: ");
    push_u64(out, s.heartbeat_misses);
    out.append(", errors: ");
    push_u64(out, s.errors);
    out.append(", feed_gaps: ");
    push_u64(out, s.feed_gaps);
}

/// The given text with a group of counters.
pub open spec fn first_histograms(head: Seq<char>, s: MetricsSnapshot) -> Seq<char> {
    head
        + ", tick_to_intent_latency: "@ + list_text(s.tick_to_intent_latency@)
        + ", risk_check_latency: "@ + list_text(s.risk_check_latency@)
        + ", journal_flush_latency: "@ + list_text(s.journal_flush_latency@)
        + ", broker_send_latency: "@ + list_text(s.broker_send_latency@)
}

fn push_first_histograms(out: &mut String, s: &MetricsSnapshot)
    requires
        s.wf(),
    ensures
        final(out)@ == first_histograms(old(out)@, *s),
{
    out.append(", tick_to_intent_latency: ");
    push_list(out, &s.tick_to_intent_latency);
    out.append(", risk_check_latency: ");
    push_list(out, &s.risk_check_latency);
    out.append(", journal_flush_latency: ");
    push_list(out, &s.journal_flush_latency);
    out.append(", broker_send_latency: ");
    push_list(out, &s.broker_send_latency);
}

/// The given text with a group of counters.
pub open spec fn second_histograms(head: Seq<char>, s: MetricsSnapshot) -> Seq<char> {
    head
        + ", feed_latency: "@ + list_text(s.feed_latency@)
        + ", broker_round_trip_latency: "@ + list_text(s.broker_round_trip_latency@)
        + ", decision_latency: "@ + list_text(s.decision_latency@)
        + ", model_divergence: "@ + list_text(s.model_divergence@)
}

fn push_second_histograms(out: &mut String, s: &MetricsSnapshot)
    requires
        s.wf(),
    ensures
        final(out)@ == second_histograms(old(out)@, *s),
{
    out.append(", feed_latency: ");
    push_list(out, &s.feed_latency);
    out.append(", broker_round_trip_latency: ");
    push_list(out, &s.broker_round_trip_latency);
    out.append(", decision_latency: ");
    push_list(out, &s.decision_latency);
    out.append(", model_divergence: ");
    push_list(out, &s.model_divergence);
}

/// The given text with a group of counters.
pub open spec fn depths(head: Seq<char>, s: MetricsSnapshot) -> Seq<char> {
    head
        + ", feature_channel_depth: "@ + crate::text::signed_decimal(s.feature_channel_depth as int)
        + ", risk_channel_depth: "@ + crate::text::signed_decimal(s.risk_channel_depth as int)
        + ", decision_channel_depth: "@ + crate::text::signed_decimal(s.decision_channel_depth as int)
        + ", lifecycle_channel_depth: "@ + crate::text::signed_decimal(s.lifecycle_channel_depth as int)
        + ", command_channel_depth: "@ + crate::text::signed_decimal(s.command_channel_depth as int)
        + ", journal_channel_depth: "@ + crate::text::signed_decimal(s.journal_channel_depth as int)
}

fn push_depths(out: &mut String, s: &MetricsSnapshot)
    requires
        s.wf(),
    ensures
        final(out)@ == depths(old(out)@, *s),
{
    out.append(", feature_channel_depth: ");
    push_i64(out, s.feature_channel_depth);
    out.append(", risk_channel_depth: ");
    push_i64(out, s.risk_channel_depth);
    out.append(", decision_channel_depth: ");
    push_i64(out, s.decision_channel_depth);
    out.append(", lifecycle_channel_depth: ");
    push_i64(out, s.lifecycle_channel_depth);
    out.append(", command_channel_depth: ");
    push_i64(out, s.command_channel_depth);
    out.append(", journal_channel_depth: ");
    push_i64(out, s.journal_channel_depth);
}

/// The given text with a group of counters.
pub open spec fn per_symbol(head: Seq<char>, s: MetricsSnapshot) -> Seq<char> {
    head
        + ", per_symbol_ticks: "@ + counts_text(s.per_symbol_ticks)
        + ", per_symbol_features: "@ + counts_text(s.per_symbol_features)
        + ", per_symbol_intents_approved: "@ + counts_text(s.per_symbol_intents_approved)
        + ", per_symbol_intents_rejected: "@ + counts_text(s.per_symbol_intents_rejected)
        + ", per_symbol_ticks_skipped: "@ + counts_text(s.per_symbol_ticks_skipped)
}

fn push_per_symbol(out: &mut String, s: &MetricsSnapshot)
    requires
        s.wf(),
    ensures
        final(out)@ == per_symbol(old(out)@, *s),
{
    out.append(", per_symbol_ticks: ");
    push_counts(out, &s.per_symbol_ticks);
    out.append(", per_symbol_features: ");
    push_counts(out, &s.per_symbol_features);
    out.append(", per_symbol_intents_approved: ");
    push_counts(out, &s.per_symbol_intents_approved);
    out.append(", per_symbol_intents_rejected: ");
    push_counts(out, &s.per_symbol_intents_rejected);
    out.append(", per_symbol_ticks_skipped: ");
    push_counts(out, &s.per_symbol_ticks_skipped);
}

/// The written form of all counters.
pub open spec fn snapshot_text(s: MetricsSnapshot) -> Seq<char> {
    let a = first_counts("MetricsSnapshot { "@, s);
    let b = second_counts(a, s);
    let c = third_counts(b, s);
    let d = fourth_counts(c, s);
    let e = first_histograms(d, s);
    let f = second_histograms(e, s);
    let g = depths(f, s);
    let h = per_symbol(g, s);
    h + " }"@
}

/// The written form of all counters.
pub fn snapshot_debug_text(s: &MetricsSnapshot) -> (t: String)
    requires
        s.wf(),
    ensures
        t@ == snapshot_text(*s),
{
    let mut t = "MetricsSnapshot { ".to_owned();
    push_first_counts(&mut t, s);
    push_second_counts(&mut t, s);
    push_third_counts(&mut t, s);
    push_fourth_counts(&mut t, s);
    push_first_histograms(&mut t, s);
    push_second_histograms(&mut t, s);
    push_depths(&mut t, s);
    push_per_symbol(&mut t, s);
    t.append(" }");
    t
}

proof fn lemma_regrouped(a: Seq<char>, b: Seq<char>, c: Seq<char>)
    ensures
        a + b + c == a + (b + c),
{
    assert(a + b + c =~= a + (b + c));
}

/// Two pieces that follow one another in a text are shown by it together.
pub broadcast proof fn lemma_pair_shows(a: Seq<char>, b: Seq<char>, c: Seq<char>)
    ensures
        #[trigger] crate::text::shows(a + b + c, b + c),
{
    lemma_regrouped(a, b, c);
    crate::text::lemma_shows_itself(b + c);
    crate::text::lemma_end_shows(a, b + c, b + c);
}

/// The counts of ticks and intents are shown, each behind its name, after what came before.
pub proof fn law_first_counts_are_shown(head: Seq<char>, s: MetricsSnapshot, part: Seq<char>)
    ensures
        crate::text::shows(first_counts(head, s), "ticks_processed: "@ + crate::text::decimal(s.ticks_processed as nat)),
        crate::text::shows(first_counts(head, s), ", features_computed: "@ + crate::text::decimal(s.features_computed as nat)),
        crate::text::shows(first_counts(head, s), ", inferences_run: "@ + crate::text::decimal(s.inferences_run as nat)),
        crate::text::shows(first_counts(head, s), ", intents_generated: "@ + crate::text::decimal(s.intents_generated as nat)),
        crate::text::shows(first_counts(head, s), ", intents_approved: "@ + crate::text::decimal(s.intents_approved as nat)),
        crate::text::shows(first_counts(head, s), ", intents_rejected: "@ + crate::text::decimal(s.intents_rejected as nat)),
        crate::text::shows(head, part) ==> crate::text::shows(first_counts(head, s), part),
{
    broadcast use crate::text::lemma_front_shows, lemma_pair_shows;

}

/// The counts of what was lost, and of orders are shown, each behind its name, after what came before.
pub proof fn law_second_counts_are_shown(head: Seq<char>, s: MetricsSnapshot, part: Seq<char>)
    ensures
        crate::text::shows(second_counts(head, s), ", dropped_intents: "@ + crate::text::decimal(s.dropped_intents as nat)),
        crate::text::shows(second_counts(head, s), ", stale_predictions: "@ + crate::text::decimal(s.stale_predictions as nat)),
        crate::text::shows(second_counts(head, s), ", model_fallback_activations: "@ + crate::text::decimal(s.model_fallback_activations as nat)),
        crate::text::shows(second_counts(head, s), ", ticks_skipped: "@ + crate::text::decimal(s.ticks_skipped as nat)),
        crate::text::shows(second_counts(head, s), ", orders_submitted: "@ + crate::text::decimal(s.orders_submitted as nat)),
        crate::text::shows(second_counts(head, s), ", orders_filled: "@ + crate::text::decimal(s.orders_filled as nat)),
        crate::text::shows(head, part) ==> crate::text::shows(second_counts(head, s), part),
{
    broadcast use crate::text::lemma_front_shows, lemma_pair_shows;

}

/// The counts of orders and of interventions are shown, each behind its name, after what came before.
pub proof fn law_third_counts_are_shown(head: Seq<char>, s: MetricsSnapshot, part: Seq<char>)
    ensures
        crate::text::shows(third_counts(head, s), ", orders_cancelled: "@ + crate::text::decimal(s.orders_cancelled as nat)),
        crate::text::shows(third_counts(head, s), ", orders_rejected: "@ + crate::text::decimal(s.orders_rejected as nat)),
        crate::text::shows(third_counts(head, s), ", orders_lifecycle_events: "@ + crate::text::decimal(s.orders_lifecycle_events as nat)),
        crate::text::shows(third_counts(head, s), ", circuit_breaker_trips: "@ + crate::text::decimal(s.circuit_breaker_trips as nat)),
        crate::text::shows(third_counts(head, s), ", kill_switch_activations: "@ + crate::text::decimal(s.kill_switch_activations as nat)),
        crate::text::shows(third_counts(head, s), ", config_reloads: "@ + crate::text::decimal(s.config_reloads as nat)),
        crate::text::shows(head, part) ==> crate::text::shows(third_counts(head, s), part),
{
    broadcast use crate::text::lemma_front_shows, lemma_pair_shows;

}

/// The counts of the journal and of faults are shown, each behind its name, after what came before.
pub proof fn law_fourth_counts_are_shown(head: Seq<char>, s: MetricsSnapshot, part: Seq<char>)
    ensures
        crate::text::shows(fourth_counts(head, s), ", journal_writes: "@ + crate::text::decimal(s.journal_writes as nat)),
        crate::text::shows(fourth_counts(head, s), ", heartbeat_misses: "@ + crate::text::decimal(s.heartbeat_misses as nat)),
        crate::text::shows(fourth_counts(head, s), ", errors: "@ + crate::text::decimal(s.errors as nat)),
        crate::text::shows(fourth_counts(head, s), ", feed_gaps: "@ + crate::text::decimal(s.feed_gaps as nat)),
        crate::text::shows(head, part) ==> crate::text::shows(fourth_counts(head, s), part),
{
    broadcast use crate::text::lemma_front_shows, lemma_pair_shows;

}

/// The latencies of the decision are shown, each behind its name, after what came before.
pub proof fn law_first_histograms_are_shown(head: Seq<char>, s: MetricsSnapshot, part: Seq<char>)
    ensures
        crate::text::shows(first_histograms(head, s), ", tick_to_intent_latency: "@ + list_text(s.tick_to_intent_latency@)),
        crate::text::shows(first_histograms(head, s), ", risk_check_latency: "@ + list_text(s.risk_check_latency@)),
        crate::text::shows(first_histograms(head, s), ", journal_flush_latency: "@ + list_text(s.journal_flush_latency@)),
        crate::text::shows(first_histograms(head, s), ", broker_send_latency: "@ + list_text(s.broker_send_latency@)),
        crate::text::shows(head, part) ==> crate::text::shows(first_histograms(head, s), part),
{
    broadcast use crate::text::lemma_front_shows, lemma_pair_shows;

}

/// The latencies of feed and broker are shown, each behind its name, after what came before.
pub proof fn law_second_histograms_are_shown(head: Seq<char>, s: MetricsSnapshot, part: Seq<char>)
    ensures
        crate::text::shows(second_histograms(head, s), ", feed_latency: "@ + list_text(s.feed_latency@)),
        crate::text::shows(second_histograms(head, s), ", broker_round_trip_latency: "@ + list_text(s.broker_round_trip_latency@)),
        crate::text::shows(second_histograms(head, s), ", decision_latency: "@ + list_text(s.decision_latency@)),
        crate::text::shows(second_histograms(head, s), ", model_divergence: "@ + list_text(s.model_divergence@)),
        crate::text::shows(head, part) ==> crate::text::shows(second_histograms(head, s), part),
{
    broadcast use crate::text::lemma_front_shows, lemma_pair_shows;

}

/// How full the channels are are shown, each behind its name, after what came before.
pub proof fn law_depths_are_shown(head: Seq<char>, s: MetricsSnapshot, part: Seq<char>)
    ensures
        crate::text::shows(depths(head, s), ", feature_channel_depth: "@ + crate::text::signed_decimal(s.feature_channel_depth as int)),
        crate::text::shows(depths(head, s), ", risk_channel_depth: "@ + crate::text::signed_decimal(s.risk_channel_depth as int)),
        crate::text::shows(depths(head, s), ", decision_channel_depth: "@ + crate::text::signed_decimal(s.decision_channel_depth as int)),
        crate::text::shows(depths(head, s), ", lifecycle_channel_depth: "@ + crate::text::signed_decimal(s.lifecycle_channel_depth as int)),
        crate::text::shows(depths(head, s), ", command_channel_depth: "@ + crate::text::signed_decimal(s.command_channel_depth as int)),
        crate::text::shows(depths(head, s), ", journal_channel_depth: "@ + crate::text::signed_decimal(s.journal_channel_depth as int)),
        crate::text::shows(head, part) ==> crate::text::shows(depths(head, s), part),
{
    broadcast use crate::text::lemma_front_shows, lemma_pair_shows;

}

/// The counts by symbol are shown, each behind its name, after what came before.
pub proof fn law_per_symbol_are_shown(head: Seq<char>, s: MetricsSnapshot, part: Seq<char>)
    ensures
        crate::text::shows(per_symbol(head, s), ", per_symbol_ticks: "@ + counts_text(s.per_symbol_ticks)),
        crate::text::shows(per_symbol(head, s), ", per_symbol_features: "@ + counts_text(s.per_symbol_features)),
        crate::text::shows(per_symbol(head, s), ", per_symbol_intents_approved: "@ + counts_text(s.per_symbol_intents_approved)),
        crate::text::shows(per_symbol(head, s), ", per_symbol_intents_rejected: "@ + counts_text(s.per_symbol_intents_rejected)),
        crate::text::shows(per_symbol(head, s), ", per_symbol_ticks_skipped: "@ + counts_text(s.per_symbol_ticks_skipped)),
        crate::text::shows(head, part) ==> crate::text::shows(per_symbol(head, s), part),
{
    broadcast use crate::text::lemma_front_shows, lemma_pair_shows;

}

/// The text of the counters shows each of them behind its own name.
pub proof fn law_status_shows_every_counter(s: MetricsSnapshot)
    ensures
        crate::text::shows(snapshot_text(s), "ticks_processed: "@ + crate::text::decimal(s.ticks_processed as nat)),
        crate::text::shows(snapshot_text(s), ", features_computed: "@ + crate::text::decimal(s.features_computed as nat)),
        crate::text::shows(snapshot_text(s), ", inferences_run: "@ + crate::text::decimal(s.inferences_run as nat)),
        crate::text::shows(snapshot_text(s), ", intents_generated: "@ + crate::text::decimal(s.intents_generated as nat)),
        crate::text::shows(snapshot_text(s), ", intents_approved: "@ + crate::text::decimal(s.intents_approved as nat)),
        crate::text::shows(snapshot_text(s), ", intents_rejected: "@ + crate::text::decimal(s.intents_rejected as nat)),
        crate::text::shows(snapshot_text(s), ", dropped_intents: "@ + crate::text::decimal(s.dropped_intents as nat)),
        crate::text::shows(snapshot_text(s), ", stale_predictions: "@ + crate::text::decimal(s.stale_predictions as nat)),
        crate::text::shows(snapshot_text(s), ", model_fallback_activations: "@ + crate::text::decimal(s.model_fallback_activations as nat)),
        crate::text::shows(snapshot_text(s), ", ticks_skipped: "@ + crate::text::decimal(s.ticks_skipped as nat)),
        crate::text::shows(snapshot_text(s), ", orders_submitted: "@ + crate::text::decimal(s.orders_submitted as nat)),
        crate::text::shows(snapshot_text(s), ", orders_filled: "@ + crate::text::decimal(s.orders_filled as nat)),
        crate::text::shows(snapshot_text(s), ", orders_cancelled: "@ + crate::text::decimal(s.orders_cancelled as nat)),
        crate::text::shows(snapshot_text(s), ", orders_rejected: "@ + crate::text::decimal(s.orders_rejected as nat)),
        crate::text::shows(snapshot_text(s), ", orders_lifecycle_events: "@ + crate::text::decimal(s.orders_lifecycle_events as nat)),
        crate::text::shows(snapshot_text(s), ", circuit_breaker_trips: "@ + crate::text::decimal(s.circuit_breaker_trips as nat)),
        crate::text::shows(snapshot_text(s), ", kill_switch_activations: "@ + crate::text::decimal(s.kill_switch_activations as nat)),
        crate::text::shows(snapshot_text(s), ", config_reloads: "@ + crate::text::decimal(s.config_reloads as nat)),
        crate::text::shows(snapshot_text(s), ", journal_writes: "@ + crate::text::decimal(s.journal_writes as nat)),
        crate::text::shows(snapshot_text(s), ", heartbeat_misses: "@ + crate::text::decimal(s.heartbeat_misses as nat)),
        crate::text::shows(snapshot_text(s), ", errors: "@ + crate::text::decimal(s.errors as nat)),
        crate::text::shows(snapshot_text(s), ", feed_gaps: "@ + crate::text::decimal(s.feed_gaps as nat)),
        crate::text::shows(snapshot_text(s), ", tick_to_intent_latency: "@ + list_text(s.tick_to_intent_latency@)),
        crate::text::shows(snapshot_text(s), ", risk_check_latency: "@ + list_text(s.risk_check_latency@)),
        crate::text::shows(snapshot_text(s), ", journal_flush_latency: "@ + list_text(s.journal_flush_latency@)),
        crate::text::shows(snapshot_text(s), ", broker_send_latency: "@ + list_text(s.broker_send_latency@)),
        crate::text::shows(snapshot_text(s), ", feed_latency: "@ + list_text(s.feed_latency@)),
        crate::text::shows(snapshot_text(s), ", broker_round_trip_latency: "@ + list_text(s.broker_round_trip_latency@)),
        crate::text::shows(snapshot_text(s), ", decision_latency: "@ + list_text(s.decision_latency@)),
        crate::text::shows(snapshot_text(s), ", model_divergence: "@ + list_text(s.model_divergence@)),
        crate::text::shows(snapshot_text(s), ", feature_channel_depth: "@ + crate::text::signed_decimal(s.feature_channel_depth as int)),
        crate::text::shows(snapshot_text(s), ", risk_channel_depth: "@ + crate::text::signed_decimal(s.risk_channel_depth as int)),
        crate::text::shows(snapshot_text(s), ", decision_channel_depth: "@ + crate::text::signed_decimal(s.decision_channel_depth as int)),
        crate::text::shows(snapshot_text(s), ", lifecycle_channel_depth: "@ + crate::text::signed_decimal(s.lifecycle_channel_depth as int)),
        crate::text::shows(snapshot_text(s), ", command_channel_depth: "@ + crate::text::signed_decimal(s.command_channel_depth as int)),
        crate::text::shows(snapshot_text(s), ", journal_channel_depth: "@ + crate::text::signed_decimal(s.journal_channel_depth as int)),
        crate::text::shows(snapshot_text(s), ", per_symbol_ticks: "@ + counts_text(s.per_symbol_ticks)),
        crate::text::shows(snapshot_text(s), ", per_symbol_features: "@ + counts_text(s.per_symbol_features)),
        crate::text::shows(snapshot_text(s), ", per_symbol_intents_approved: "@ + counts_text(s.per_symbol_intents_approved)),
        crate::text::shows(snapshot_text(s), ", per_symbol_intents_rejected: "@ + counts_text(s.per_symbol_intents_rejected)),
        crate::text::shows(snapshot_text(s), ", per_symbol_ticks_skipped: "@ + counts_text(s.per_symbol_ticks_skipped)),
{
    let a = first_counts("MetricsSnapshot { "@, s);
    let b = second_counts(a, s);
    let c = third_counts(b, s);
    let d = fourth_counts(c, s);
    let e = first_histograms(d, s);
    let f = second_histograms(e, s);
    let g = depths(f, s);
    let h = per_symbol(g, s);
    let all = snapshot_text(s);
    let none = Seq::<char>::empty();
    law_first_counts_are_shown("MetricsSnapshot { "@, s, none);
    law_second_counts_are_shown(a, s, none);
    law_third_counts_are_shown(b, s, none);
    law_fourth_counts_are_shown(c, s, none);
    law_first_histograms_are_shown(d, s, none);
    law_second_histograms_are_shown(e, s, none);
    law_depths_are_shown(f, s, none);
    law_per_symbol_are_shown(g, s, none);
    assert forall|part: Seq<char>| #[trigger] crate::text::shows(h, part) implies crate::text::shows(
        all,
        part,
    ) by {
        crate::text::lemma_front_shows(h, " }"@, part);
    }
    assert forall|part: Seq<char>| #[trigger] crate::text::shows(g, part) implies crate::text::shows(
        all,
        part,
    ) by {
        law_per_symbol_are_shown(g, s, part);
        assert(crate::text::shows(h, part));
    }
    assert forall|part: Seq<char>| #[trigger] crate::text::shows(f, part) implies crate::text::shows(
        all,
        part,
    ) by {
        law_depths_are_shown(f, s, part);
        assert(crate::text::shows(g, part));
    }
    assert forall|part: Seq<char>| #[trigger] crate::text::shows(e, part) implies crate::text::shows(
        all,
        part,
    ) by {
        law_second_histograms_are_shown(e, s, part);
        assert(crate::text::shows(f, part));
    }
    assert forall|part: Seq<char>| #[trigger] crate::text::shows(d, part) implies crate::text::shows(
        all,
        part,
    ) by {
        law_first_histograms_are_shown(d, s, part);
        assert(crate::text::shows(e, part));
    }
    assert forall|part: Seq<char>| #[trigger] crate::text::shows(c, part) implies crate::text::shows(
        all,
        part,
    ) by {
        law_fourth_counts_are_shown(c, s, part);
        assert(crate::text::shows(d, part));
    }
    assert forall|part: Seq<char>| #[trigger] crate::text::shows(b, part) implies crate::text::shows(
        all,
        part,
    ) by {
        law_third_counts_are_shown(b, s, part);
        assert(crate::text::shows(c, part));
    }
    assert forall|part: Seq<char>| #[trigger] crate::text::shows(a, part) implies crate::text::shows(
        all,
        part,
    ) by {
        law_second_counts_are_shown(a, s, part);
        assert(crate::text::shows(b, part));
    }
}

/// A list of numbers is written with a comma and a space between them, and counts by name with a
/// colon behind each name.
pub proof fn law_lists_are_written_in_turn(
    v: Seq<u64>,
    n: u64,
    names: Seq<Seq<char>>,
    counts: Seq<u64>,
    name: Seq<char>,
)
    requires
        names.len() == counts.len(),
    ensures
        list_text(v) == "["@ + joined_numbers(v) + "]"@,
        joined_numbers(Seq::empty()) == Seq::<char>::empty(),
        joined_numbers(seq![n]) == crate::text::decimal(n as nat),
        v.len() > 0 ==> joined_numbers(v.push(n)) == joined_numbers(v) + ", "@
            + crate::text::decimal(n as nat),
        joined_counts(Seq::empty(), Seq::empty()) == Seq::<char>::empty(),
        names.len() > 0 ==> joined_counts(names.push(name), counts.push(n)) == joined_counts(
            names,
            counts,
        ) + ", "@ + (crate::config::quoted(name) + ": "@ + crate::text::decimal(n as nat)),
{
    assert(v.push(n).drop_last() =~= v);
    assert(names.push(name).drop_last() =~= names);
    assert(counts.push(n).drop_last() =~= counts);
}

} // verus!
