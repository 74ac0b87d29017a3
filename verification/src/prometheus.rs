//! The counters in the text format of Prometheus.

use vstd::prelude::*;
use vstd::string::StringExecFns;

use crate::metrics::MetricsSnapshot;
use crate::str_map::StrMap;
use crate::text::{push_i64, push_u64};

verus! {

/// The two lines that describe a metric.
pub open spec fn described(name: Seq<char>, help: Seq<char>, kind: Seq<char>) -> Seq<char> {
    "# HELP "@ + name + " "@ + help + "\n# TYPE "@ + name + " "@ + kind + "\n"@
}

fn push_described(out: &mut String, name: &str, help: &str, kind: &str)
    ensures
        final(out)@ == old(out)@ + described(name@, help@, kind@),
{
    out.append("# HELP ");
    out.append(name);
    out.append(" ");
    out.append(help);
    out.append("\n# TYPE ");
    out.append(name);
    out.append(" ");
    out.append(kind);
    out.append("\n");
    assert(out@ =~= old(out)@ + described(name@, help@, kind@));
}

/// A counter with its description.
pub open spec fn counter_text(name: Seq<char>, help: Seq<char>, v: u64) -> Seq<char> {
    described(name, help, "counter"@) + name + " "@ + crate::text::decimal(v as nat) + "\n"@
}

fn push_counter(out: &mut String, name: &str, help: &str, v: u64)
    ensures
        final(out)@ == old(out)@ + counter_text(name@, help@, v),
{
    push_described(out, name, help, "counter");
    out.append(name);
    out.append(" ");
    push_u64(out, v);
    out.append("\n");
    assert(out@ =~= old(out)@ + counter_text(name@, help@, v));
}

/// A gauge with its description.
pub open spec fn gauge_text(name: Seq<char>, help: Seq<char>, v: i64) -> Seq<char> {
    described(name, help, "gauge"@) + name + " "@ + crate::text::signed_decimal(v as int) + "\n"@
}

fn push_gauge(out: &mut String, name: &str, help: &str, v: i64)
    ensures
        final(out)@ == old(out)@ + gauge_text(name@, help@, v),
{
    push_described(out, name, help, "gauge");
    out.append(name);
    out.append(" ");
    push_i64(out, v);
    out.append("\n");
    assert(out@ =~= old(out)@ + gauge_text(name@, help@, v));
}

/// The lines of the buckets of a histogram.
pub open spec fn bucket_lines(name: Seq<char>, v: Seq<u64>) -> Seq<char>
    decreases v.len(),
{
    if v.len() == 0 {
        Seq::empty()
    } else {
        bucket_lines(name, v.drop_last()) + name + "_bucket{le=\""@ + crate::text::decimal(
            (v.len() - 1) as nat,
        ) + "\"} "@ + crate::text::decimal(v.last() as nat) + "\n"@
    }
}

/// A histogram with its description.
pub open spec fn histogram_text(name: Seq<char>, help: Seq<char>, v: Seq<u64>) -> Seq<char> {
    described(name, help, "counter"@) + bucket_lines(name, v)
}

fn push_histogram(out: &mut String, name: &str, help: &str, v: &[u64; 6])
    ensures
        final(out)@ == old(out)@ + histogram_text(name@, help@, v@),
{
    push_described(out, name, help, "counter");
    let ghost head = out@;
    let mut i: usize = 0;
    assert(head + bucket_lines(name@, v@.take(0)) =~= out@);
    while i < 6
        invariant
            i <= 6,
            v@.len() == 6,
            out@ == head + bucket_lines(name@, v@.take(i as int)),
        decreases 6 - i,
    {
        assert(v@.take(i + 1).drop_last() =~= v@.take(i as int));
        out.append(name);
        out.append("_bucket{le=\"");
        push_u64(out, i as u64);
        out.append("\"} ");
        push_u64(out, v[i]);
        out.append("\n");
        i += 1;
        assert(out@ =~= head + bucket_lines(name@, v@.take(i as int)));
    }
    assert(v@.take(6) =~= v@);
    assert(out@ =~= old(out)@ + histogram_text(name@, help@, v@));
}

/// A value of one symbol.
pub open spec fn symbol_line(name: Seq<char>, symbol: Seq<char>, v: u64) -> Seq<char> {
    name + "{symbol=\""@ + symbol + "\"} "@ + crate::text::decimal(v as nat) + "\n"@
}

fn push_symbol_line(out: &mut String, name: &str, symbol: &str, v: u64)
    ensures
        final(out)@ == old(out)@ + symbol_line(name@, symbol@, v),
{
    out.append(name);
    out.append("{symbol=\"");
    out.append(symbol);
    out.append("\"} ");
    push_u64(out, v);
    out.append("\n");
    assert(out@ =~= old(out)@ + symbol_line(name@, symbol@, v));
}

/// A counter for each symbol, each with the description.
pub open spec fn symbol_counters(
    name: Seq<char>,
    help: Seq<char>,
    symbols: Seq<Seq<char>>,
    counts: Seq<u64>,
) -> Seq<char>
    decreases symbols.len(),
{
    if symbols.len() == 0 {
        Seq::empty()
    } else {
        symbol_counters(name, help, symbols.drop_last(), counts.drop_last()) + described(
            name,
            help,
            "counter"@,
        ) + symbol_line(name, symbols.last(), counts.last())
    }
}

fn push_symbol_counters(out: &mut String, name: &str, help: &str, m: &StrMap<u64>)
    requires
        m.wf(),
    ensures
        final(out)@ == old(out)@ + symbol_counters(name@, help@, m.key_seq(), m.val_seq()),
{
    let ghost head = out@;
    let ghost symbols = m.key_seq();
    let ghost counts = m.val_seq();
    proof {
        m.lemma_entries();
    }
    let n: usize = m.len();
    let mut i: usize = 0;
    assert(head + symbol_counters(name@, help@, symbols.take(0), counts.take(0)) =~= out@);
    while i < n
        invariant
            i <= n,
            m.wf(),
            n == symbols.len(),
            n == counts.len(),
            symbols == m.key_seq(),
            counts == m.val_seq(),
            out@ == head + symbol_counters(
                name@,
                help@,
                symbols.take(i as int),
                counts.take(i as int),
            ),
        decreases n - i,
    {
        assert(symbols.take(i + 1).drop_last() =~= symbols.take(i as int));
        assert(counts.take(i + 1).drop_last() =~= counts.take(i as int));
        push_described(out, name, help, "counter");
        push_symbol_line(out, name, m.key_at(i).as_str(), *m.val_at(i));
        i += 1;
        assert(out@ =~= head + symbol_counters(
            name@,
            help@,
            symbols.take(i as int),
            counts.take(i as int),
        ));
    }
    assert(symbols.take(n as int) =~= symbols);
    assert(counts.take(n as int) =~= counts);
}

/// One for what holds, zero for what does not.
pub open spec fn flag(b: bool) -> u64 {
    if b {
        1
    } else {
        0
    }
}

fn flag_of(b: bool) -> (v: u64)
    ensures
        v == flag(b),
{
    if b {
        1
    } else {
        0
    }
}

/// Whether each circuit breaker is open.
pub open spec fn breaker_lines(symbols: Seq<Seq<char>>, open: Seq<bool>) -> Seq<char>
    decreases symbols.len(),
{
    if symbols.len() == 0 {
        Seq::empty()
    } else {
        breaker_lines(symbols.drop_last(), open.drop_last()) + symbol_line(
            "circuit_breaker_state"@,
            symbols.last(),
            flag(open.last()),
        )
    }
}

fn push_breakers(out: &mut String, m: &StrMap<bool>)
    requires
        m.wf(),
    ensures
        final(out)@ == old(out)@ + breaker_lines(m.key_seq(), m.val_seq()),
{
    let ghost head = out@;
    let ghost symbols = m.key_seq();
    let ghost open = m.val_seq();
    proof {
        m.lemma_entries();
    }
    let n: usize = m.len();
    let mut i: usize = 0;
    assert(head + breaker_lines(symbols.take(0), open.take(0)) =~= out@);
    while i < n
        invariant
            i <= n,
            m.wf(),
            n == symbols.len(),
            n == open.len(),
            symbols == m.key_seq(),
            open == m.val_seq(),
            out@ == head + breaker_lines(symbols.take(i as int), open.take(i as int)),
        decreases n - i,
    {
        assert(symbols.take(i + 1).drop_last() =~= symbols.take(i as int));
        assert(open.take(i + 1).drop_last() =~= open.take(i as int));
        push_symbol_line(
            out,
            "circuit_breaker_state",
            m.key_at(i).as_str(),
            flag_of(*m.val_at(i)),
        );
        i += 1;
        assert(out@ =~= head + breaker_lines(symbols.take(i as int), open.take(i as int)));
    }
    assert(symbols.take(n as int) =~= symbols);
    assert(open.take(n as int) =~= open);
}

/// The given text with the counters of ticks and intents.
pub open spec fn tick_counters(head: Seq<char>, s: MetricsSnapshot) -> Seq<char> {
    head
        + counter_text("ticks_processed"@, "Total number of ticks processed"@, s.ticks_processed)
        + counter_text(
            "features_computed"@,
            "Total number of feature vectors computed"@,
            s.features_computed,
        )
        + counter_text("inferences_run"@, "Total number of model inferences"@, s.inferences_run)
        + counter_text("intents_generated"@, "Total trade intents generated"@, s.intents_generated)
        + counter_text("intents_approved"@, "Total trade intents approved by risk"@, s.intents_approved)
        + counter_text("intents_rejected"@, "Total trade intents rejected by risk"@, s.intents_rejected)
        + counter_text(
            "dropped_intents"@,
            "Total intents dropped due to full channel"@,
            s.dropped_intents,
        )
        + counter_text(
            "stale_predictions"@,
            "Total predictions rejected due to staleness"@,
            s.stale_predictions,
        )
}

fn push_tick_counters(out: &mut String, s: &MetricsSnapshot)
    ensures
        final(out)@ == tick_counters(old(out)@, *s),
{
    push_counter(out, "ticks_processed", "Total number of ticks processed", s.ticks_processed);
    push_counter(
        out,
        "features_computed",
        "Total number of feature vectors computed",
        s.features_computed,
    );
    push_counter(out, "inferences_run", "Total number of model inferences", s.inferences_run);
    push_counter(out, "intents_generated", "Total trade intents generated", s.intents_generated);
    push_counter(out, "intents_approved", "Total trade intents approved by risk", s.intents_approved);
    push_counter(out, "intents_rejected", "Total trade intents rejected by risk", s.intents_rejected);
    push_counter(
        out,
        "dropped_intents",
        "Total intents dropped due to full channel",
        s.dropped_intents,
    );
    push_counter(
        out,
        "stale_predictions",
        "Total predictions rejected due to staleness",
        s.stale_predictions,
    );
}

/// The given text with the counters of orders and incidents.
pub open spec fn order_counters(head: Seq<char>, s: MetricsSnapshot) -> Seq<char> {
    head
        + counter_text("orders_submitted"@, "Total orders submitted to broker"@, s.orders_submitted)
        + counter_text("orders_filled"@, "Total orders filled"@, s.orders_filled)
        + counter_text("orders_cancelled"@, "Total orders cancelled"@, s.orders_cancelled)
        + counter_text(
            "orders_rejected"@,
            "Total orders rejected by broker or rate limiter"@,
            s.orders_rejected,
        )
        + counter_text(
            "circuit_breaker_trips"@,
            "Total circuit breaker activations"@,
            s.circuit_breaker_trips,
        )
        + counter_text(
            "kill_switch_activations"@,
            "Total kill switch activations"@,
            s.kill_switch_activations,
        )
        + counter_text("config_reloads"@, "Total config hot-reloads"@, s.config_reloads)
        + counter_text("journal_writes"@, "Total journal writes"@, s.journal_writes)
        + counter_text("heartbeat_misses"@, "Total thread heartbeat misses"@, s.heartbeat_misses)
        + counter_text("errors"@, "Total errors encountered"@, s.errors)
}

fn push_order_counters(out: &mut String, s: &MetricsSnapshot)
    ensures
        final(out)@ == order_counters(old(out)@, *s),
{
    push_counter(out, "orders_submitted", "Total orders submitted to broker", s.orders_submitted);
    push_counter(out, "orders_filled", "Total orders filled", s.orders_filled);
    push_counter(out, "orders_cancelled", "Total orders cancelled", s.orders_cancelled);
    push_counter(
        out,
        "orders_rejected",
        "Total orders rejected by broker or rate limiter",
        s.orders_rejected,
    );
    push_counter(
        out,
        "circuit_breaker_trips",
        "Total circuit breaker activations",
        s.circuit_breaker_trips,
    );
    push_counter(
        out,
        "kill_switch_activations",
        "Total kill switch activations",
        s.kill_switch_activations,
    );
    push_counter(out, "config_reloads", "Total config hot-reloads", s.config_reloads);
    push_counter(out, "journal_writes", "Total journal writes", s.journal_writes);
    push_counter(out, "heartbeat_misses", "Total thread heartbeat misses", s.heartbeat_misses);
    push_counter(out, "errors", "Total errors encountered", s.errors);
}

/// The given text with the latencies.
pub open spec fn latencies(head: Seq<char>, s: MetricsSnapshot) -> Seq<char> {
    head
        + histogram_text(
            "tick_to_intent_latency"@,
            "Tick to intent latency histogram"@,
            s.tick_to_intent_latency@,
        )
        + histogram_text("risk_check_latency"@, "Risk check latency histogram"@, s.risk_check_latency@)
        + histogram_text(
            "journal_flush_latency"@,
            "Journal flush latency histogram"@,
            s.journal_flush_latency@,
        )
        + histogram_text(
            "broker_send_latency"@,
            "Broker send latency histogram"@,
            s.broker_send_latency@,
        )
        + histogram_text("feed_latency"@, "Feed latency histogram"@, s.feed_latency@)
        + histogram_text(
            "broker_round_trip_latency"@,
            "Broker round-trip latency histogram"@,
            s.broker_round_trip_latency@,
        )
}

fn push_latencies(out: &mut String, s: &MetricsSnapshot)
    ensures
        final(out)@ == latencies(old(out)@, *s),
{
    push_histogram(
        out,
        "tick_to_intent_latency",
        "Tick to intent latency histogram",
        &s.tick_to_intent_latency,
    );
    push_histogram(out, "risk_check_latency", "Risk check latency histogram", &s.risk_check_latency);
    push_histogram(
        out,
        "journal_flush_latency",
        "Journal flush latency histogram",
        &s.journal_flush_latency,
    );
    push_histogram(out, "broker_send_latency", "Broker send latency histogram", &s.broker_send_latency);
    push_histogram(out, "feed_latency", "Feed latency histogram", &s.feed_latency);
    push_histogram(
        out,
        "broker_round_trip_latency",
        "Broker round-trip latency histogram",
        &s.broker_round_trip_latency,
    );
}

/// The given text with the depths of the channels.
pub open spec fn depths(head: Seq<char>, s: MetricsSnapshot) -> Seq<char> {
    head
        + gauge_text("feature_channel_depth"@, "Feature channel depth gauge"@, s.feature_channel_depth)
        + gauge_text("risk_channel_depth"@, "Risk channel depth gauge"@, s.risk_channel_depth)
        + gauge_text(
            "decision_channel_depth"@,
            "Decision channel depth gauge"@,
            s.decision_channel_depth,
        )
        + gauge_text(
            "lifecycle_channel_depth"@,
            "Lifecycle channel depth gauge"@,
            s.lifecycle_channel_depth,
        )
        + gauge_text("command_channel_depth"@, "Command channel depth gauge"@, s.command_channel_depth)
        + gauge_text("journal_channel_depth"@, "Journal channel depth gauge"@, s.journal_channel_depth)
}

fn push_depths(out: &mut String, s: &MetricsSnapshot)
    ensures
        final(out)@ == depths(old(out)@, *s),
{
    push_gauge(out, "feature_channel_depth", "Feature channel depth gauge", s.feature_channel_depth);
    push_gauge(out, "risk_channel_depth", "Risk channel depth gauge", s.risk_channel_depth);
    push_gauge(out, "decision_channel_depth", "Decision channel depth gauge", s.decision_channel_depth);
    push_gauge(
        out,
        "lifecycle_channel_depth",
        "Lifecycle channel depth gauge",
        s.lifecycle_channel_depth,
    );
    push_gauge(out, "command_channel_depth", "Command channel depth gauge", s.command_channel_depth);
    push_gauge(out, "journal_channel_depth", "Journal channel depth gauge", s.journal_channel_depth);
}

/// The given text with the counters of each symbol.
pub open spec fn by_symbol(head: Seq<char>, s: MetricsSnapshot) -> Seq<char> {
    head
        + symbol_counters(
            "per_symbol_ticks"@,
            "Ticks processed per symbol"@,
            s.per_symbol_ticks.key_seq(),
            s.per_symbol_ticks.val_seq(),
        )
        + symbol_counters(
            "per_symbol_features"@,
            "Features computed per symbol"@,
            s.per_symbol_features.key_seq(),
            s.per_symbol_features.val_seq(),
        )
        + symbol_counters(
            "per_symbol_intents_approved"@,
            "Intents approved per symbol"@,
            s.per_symbol_intents_approved.key_seq(),
            s.per_symbol_intents_approved.val_seq(),
        )
        + symbol_counters(
            "per_symbol_intents_rejected"@,
            "Intents rejected per symbol"@,
            s.per_symbol_intents_rejected.key_seq(),
            s.per_symbol_intents_rejected.val_seq(),
        )
}

fn push_by_symbol(out: &mut String, s: &MetricsSnapshot)
    requires
        s.wf(),
    ensures
        final(out)@ == by_symbol(old(out)@, *s),
{
    push_symbol_counters(out, "per_symbol_ticks", "Ticks processed per symbol", &s.per_symbol_ticks);
    push_symbol_counters(
        out,
        "per_symbol_features",
        "Features computed per symbol",
        &s.per_symbol_features,
    );
    push_symbol_counters(
        out,
        "per_symbol_intents_approved",
        "Intents approved per symbol",
        &s.per_symbol_intents_approved,
    );
    push_symbol_counters(
        out,
        "per_symbol_intents_rejected",
        "Intents rejected per symbol",
        &s.per_symbol_intents_rejected,
    );
}

/// The last line: whether the kill switch is active.
pub open spec fn kill_switch_line(active: bool) -> Seq<char> {
    "kill_switch_active "@ + crate::text::decimal(flag(active) as nat) + "\n"@
}

fn push_kill_switch(out: &mut String, active: bool)
    ensures
        final(out)@ == old(out)@ + kill_switch_line(active),
{
    out.append("kill_switch_active ");
    push_u64(out, flag_of(active));
    out.append("\n");
    assert(out@ =~= old(out)@ + kill_switch_line(active));
}

/// The text of the counters alone.
pub open spec fn basic_text(s: MetricsSnapshot, active: bool) -> Seq<char> {
    order_counters(tick_counters(Seq::empty(), s), s) + kill_switch_line(active)
}

/// The text of the counters alone.
pub fn basic_prometheus_text(s: &MetricsSnapshot, active: bool) -> (out: String)
    ensures
        out@ == basic_text(*s, active),
{
    let mut out = String::new();
    assert(out@ =~= Seq::<char>::empty());
    push_tick_counters(&mut out, s);
    push_order_counters(&mut out, s);
    push_kill_switch(&mut out, active);
    out
}

/// The text of all metrics, with the circuit breakers and the kill switch.
pub open spec fn full_text(s: MetricsSnapshot, breakers: StrMap<bool>, active: bool) -> Seq<char> {
    let counters = order_counters(tick_counters(Seq::empty(), s), s) + counter_text(
        "orders_lifecycle_events"@,
        "Total order lifecycle events"@,
        s.orders_lifecycle_events,
    );
    let measures = depths(latencies(counters, s), s) + counter_text(
        "feed_gaps"@,
        "Total feed gaps detected (>1s between ticks)"@,
        s.feed_gaps,
    ) + histogram_text(
        "decision_latency"@,
        "Decision latency histogram (tick timestamp → decision send)"@,
        s.decision_latency@,
    );
    let states = measures + described(
        "circuit_breaker_state"@,
        "Circuit breaker state per symbol (1=open, 0=closed)"@,
        "gauge"@,
    ) + breaker_lines(breakers.key_seq(), breakers.val_seq());
    by_symbol(states, s) + kill_switch_line(active)
}

/// The text of all metrics. `breakers` tells of each symbol whether its circuit breaker is open.
pub fn prometheus_text(s: &MetricsSnapshot, breakers: &StrMap<bool>, active: bool) -> (out: String)
    requires
        s.wf(),
        breakers.wf(),
    ensures
        out@ == full_text(*s, *breakers, active),
{
    let mut out = String::new();
    assert(out@ =~= Seq::<char>::empty());
    push_tick_counters(&mut out, s);
    push_order_counters(&mut out, s);
    push_counter(
        &mut out,
        "orders_lifecycle_events",
        "Total order lifecycle events",
        s.orders_lifecycle_events,
    );
    push_latencies(&mut out, s);
    push_depths(&mut out, s);
    push_counter(&mut out, "feed_gaps", "Total feed gaps detected (>1s between ticks)", s.feed_gaps);
    push_histogram(
        &mut out,
        "decision_latency",
        "Decision latency histogram (tick timestamp → decision send)",
        &s.decision_latency,
    );
    push_described(
        &mut out,
        "circuit_breaker_state",
        "Circuit breaker state per symbol (1=open, 0=closed)",
        "gauge",
    );
    push_breakers(&mut out, breakers);
    push_by_symbol(&mut out, s);
    push_kill_switch(&mut out, active);
    out
}

/// The line of a counter: its name, a space and its value.
pub open spec fn counter_line(name: Seq<char>, v: u64) -> Seq<char> {
    name + " "@ + crate::text::decimal(v as nat) + "\n"@
}

/// The line of a gauge: its name, a space and its value.
pub open spec fn gauge_line(name: Seq<char>, v: i64) -> Seq<char> {
    name + " "@ + crate::text::signed_decimal(v as int) + "\n"@
}

/// The text of a counter shows what it is for, that it is a counter, and its line.
pub broadcast proof fn lemma_counter_shows(name: Seq<char>, help: Seq<char>, v: u64)
    ensures
        #![trigger counter_text(name, help, v)]
        crate::text::shows(counter_text(name, help, v), counter_line(name, v)),
        crate::text::shows(counter_text(name, help, v), "# HELP "@ + name + " "@ + help),
        crate::text::shows(
            counter_text(name, help, v),
            "\n# TYPE "@ + name + " "@ + "counter"@ + "\n"@,
        ),
{
    let d = described(name, help, "counter"@);
    let t = counter_text(name, help, v);
    assert(t =~= d + counter_line(name, v));
    crate::text::lemma_shows_itself(counter_line(name, v));
    crate::text::lemma_end_shows(d, counter_line(name, v), counter_line(name, v));
    let h = "# HELP "@ + name + " "@ + help;
    let k = "\n# TYPE "@ + name + " "@ + "counter"@ + "\n"@;
    assert(d =~= h + k);
    crate::text::lemma_shows_itself(h);
    crate::text::lemma_shows_itself(k);
    crate::text::lemma_front_shows(h, k, h);
    crate::text::lemma_end_shows(h, k, k);
    crate::text::lemma_front_shows(d, counter_line(name, v), h);
    crate::text::lemma_front_shows(d, counter_line(name, v), k);
}

/// The text of a gauge shows that it is a gauge, and its line.
pub broadcast proof fn lemma_gauge_shows(name: Seq<char>, help: Seq<char>, v: i64)
    ensures
        #![trigger gauge_text(name, help, v)]
        crate::text::shows(gauge_text(name, help, v), gauge_line(name, v)),
        crate::text::shows(
            gauge_text(name, help, v),
            "\n# TYPE "@ + name + " "@ + "gauge"@ + "\n"@,
        ),
{
    let d = described(name, help, "gauge"@);
    let t = gauge_text(name, help, v);
    assert(t =~= d + gauge_line(name, v));
    crate::text::lemma_shows_itself(gauge_line(name, v));
    crate::text::lemma_end_shows(d, gauge_line(name, v), gauge_line(name, v));
    let h = "# HELP "@ + name + " "@ + help;
    let k = "\n# TYPE "@ + name + " "@ + "gauge"@ + "\n"@;
    assert(d =~= h + k);
    crate::text::lemma_shows_itself(k);
    crate::text::lemma_end_shows(h, k, k);
    crate::text::lemma_front_shows(d, gauge_line(name, v), k);
}

/// The text of a histogram shows its buckets.
pub broadcast proof fn lemma_histogram_shows(name: Seq<char>, help: Seq<char>, v: Seq<u64>)
    ensures
        crate::text::shows(#[trigger] histogram_text(name, help, v), bucket_lines(name, v)),
{
    crate::text::lemma_shows_itself(bucket_lines(name, v));
    crate::text::lemma_end_shows(
        described(name, help, "counter"@),
        bucket_lines(name, v),
        bucket_lines(name, v),
    );
}

/// The buckets of a histogram stand on a line each, by their number from zero on.
pub proof fn law_buckets_are_numbered(name: Seq<char>, v: Seq<u64>, n: u64)
    ensures
        bucket_lines(name, Seq::empty()) == Seq::<char>::empty(),
        bucket_lines(name, v.push(n)) == bucket_lines(name, v) + name + "_bucket{le=\""@
            + crate::text::decimal(v.len()) + "\"} "@ + crate::text::decimal(n as nat) + "\n"@,
{
    assert(v.push(n).drop_last() =~= v);
}

/// The counts of ticks and intents are exported on a line each, under their names, behind what was
/// exported before.
pub proof fn law_tick_counters_are_exported(head: Seq<char>, s: MetricsSnapshot, part: Seq<char>)
    ensures
        crate::text::shows(tick_counters(head, s), counter_line("ticks_processed"@, s.ticks_processed)),
        crate::text::shows(tick_counters(head, s), counter_line("features_computed"@, s.features_computed)),
        crate::text::shows(tick_counters(head, s), counter_line("inferences_run"@, s.inferences_run)),
        crate::text::shows(tick_counters(head, s), counter_line("intents_generated"@, s.intents_generated)),
        crate::text::shows(tick_counters(head, s), counter_line("intents_approved"@, s.intents_approved)),
        crate::text::shows(tick_counters(head, s), counter_line("intents_rejected"@, s.intents_rejected)),
        crate::text::shows(tick_counters(head, s), counter_line("dropped_intents"@, s.dropped_intents)),
        crate::text::shows(tick_counters(head, s), counter_line("stale_predictions"@, s.stale_predictions)),
        crate::text::shows(head, part) ==> crate::text::shows(tick_counters(head, s), part),
{
    broadcast use
        crate::text::lemma_front_shows,
        crate::text::lemma_end_shows,
        lemma_counter_shows;

}

/// The counts of orders and of what went wrong are exported on a line each, under their names, behind
/// what was exported before.
pub proof fn law_order_counters_are_exported(head: Seq<char>, s: MetricsSnapshot, part: Seq<char>)
    ensures
        crate::text::shows(order_counters(head, s), counter_line("orders_submitted"@, s.orders_submitted)),
        crate::text::shows(order_counters(head, s), counter_line("orders_filled"@, s.orders_filled)),
        crate::text::shows(order_counters(head, s), counter_line("orders_cancelled"@, s.orders_cancelled)),
        crate::text::shows(order_counters(head, s), counter_line("orders_rejected"@, s.orders_rejected)),
        crate::text::shows(order_counters(head, s), counter_line("circuit_breaker_trips"@, s.circuit_breaker_trips)),
        crate::text::shows(order_counters(head, s), counter_line("kill_switch_activations"@, s.kill_switch_activations)),
        crate::text::shows(order_counters(head, s), counter_line("config_reloads"@, s.config_reloads)),
        crate::text::shows(order_counters(head, s), counter_line("journal_writes"@, s.journal_writes)),
        crate::text::shows(order_counters(head, s), counter_line("heartbeat_misses"@, s.heartbeat_misses)),
        crate::text::shows(order_counters(head, s), counter_line("errors"@, s.errors)),
        crate::text::shows(head, part) ==> crate::text::shows(order_counters(head, s), part),
{
    broadcast use
        crate::text::lemma_front_shows,
        crate::text::lemma_end_shows,
        lemma_counter_shows;

}

/// How full the channels are is exported on a line each, under their names, behind what was exported
/// before.
pub proof fn law_depths_are_exported(head: Seq<char>, s: MetricsSnapshot, part: Seq<char>)
    ensures
        crate::text::shows(depths(head, s), gauge_line("feature_channel_depth"@, s.feature_channel_depth)),
        crate::text::shows(depths(head, s), gauge_line("risk_channel_depth"@, s.risk_channel_depth)),
        crate::text::shows(depths(head, s), gauge_line("decision_channel_depth"@, s.decision_channel_depth)),
        crate::text::shows(depths(head, s), gauge_line("lifecycle_channel_depth"@, s.lifecycle_channel_depth)),
        crate::text::shows(depths(head, s), gauge_line("command_channel_depth"@, s.command_channel_depth)),
        crate::text::shows(depths(head, s), gauge_line("journal_channel_depth"@, s.journal_channel_depth)),
        crate::text::shows(head, part) ==> crate::text::shows(depths(head, s), part),
{
    broadcast use
        crate::text::lemma_front_shows,
        crate::text::lemma_end_shows,
        lemma_gauge_shows;

}

/// The latencies are exported by their buckets, under their names, behind what was exported before.
pub proof fn law_latencies_are_exported(head: Seq<char>, s: MetricsSnapshot, part: Seq<char>)
    ensures
        crate::text::shows(latencies(head, s), bucket_lines("tick_to_intent_latency"@, s.tick_to_intent_latency@)),
        crate::text::shows(latencies(head, s), bucket_lines("risk_check_latency"@, s.risk_check_latency@)),
        crate::text::shows(latencies(head, s), bucket_lines("journal_flush_latency"@, s.journal_flush_latency@)),
        crate::text::shows(latencies(head, s), bucket_lines("broker_send_latency"@, s.broker_send_latency@)),
        crate::text::shows(latencies(head, s), bucket_lines("feed_latency"@, s.feed_latency@)),
        crate::text::shows(latencies(head, s), bucket_lines("broker_round_trip_latency"@, s.broker_round_trip_latency@)),
        crate::text::shows(head, part) ==> crate::text::shows(latencies(head, s), part),
{
    broadcast use
        crate::text::lemma_front_shows,
        crate::text::lemma_end_shows,
        lemma_histogram_shows;

}

/// The counts by symbol stand on a line each, under the name of the count, with the symbol.
pub proof fn law_symbols_are_exported_one_by_one(
    name: Seq<char>,
    help: Seq<char>,
    symbols: Seq<Seq<char>>,
    counts: Seq<u64>,
    i: int,
)
    requires
        symbols.len() == counts.len(),
        0 <= i < symbols.len(),
    ensures
        crate::text::shows(
            symbol_counters(name, help, symbols, counts),
            name + "{symbol=\""@ + symbols[i] + "\"} "@ + crate::text::decimal(counts[i] as nat)
                + "\n"@,
        ),
    decreases symbols.len(),
{
    broadcast use crate::text::lemma_front_shows, crate::text::lemma_end_shows;

    let line = name + "{symbol=\""@ + symbols[i] + "\"} "@ + crate::text::decimal(
        counts[i] as nat,
    ) + "\n"@;
    if i < symbols.len() - 1 {
        law_symbols_are_exported_one_by_one(
            name,
            help,
            symbols.drop_last(),
            counts.drop_last(),
            i,
        );
        assert(symbols.drop_last()[i] == symbols[i] && counts.drop_last()[i] == counts[i]);
    } else {
        crate::text::lemma_shows_itself(line);
        assert(symbol_line(name, symbols.last(), counts.last()) == line);
    }
}

/// A breaker is shown as one where it is open and as zero where it is closed, with its symbol.
pub proof fn law_breakers_are_exported_one_by_one(
    symbols: Seq<Seq<char>>,
    open: Seq<bool>,
    i: int,
)
    requires
        symbols.len() == open.len(),
        0 <= i < symbols.len(),
    ensures
        crate::text::shows(
            breaker_lines(symbols, open),
            "circuit_breaker_state"@ + "{symbol=\""@ + symbols[i] + "\"} "@ + crate::text::decimal(
                if open[i] {
                    1
                } else {
                    0
                },
            ) + "\n"@,
        ),
    decreases symbols.len(),
{
    broadcast use crate::text::lemma_front_shows, crate::text::lemma_end_shows;

    let line = "circuit_breaker_state"@ + "{symbol=\""@ + symbols[i] + "\"} "@
        + crate::text::decimal(
        if open[i] {
            1
        } else {
            0
        },
    ) + "\n"@;
    if i < symbols.len() - 1 {
        law_breakers_are_exported_one_by_one(symbols.drop_last(), open.drop_last(), i);
        assert(symbols.drop_last()[i] == symbols[i] && open.drop_last()[i] == open[i]);
    } else {
        crate::text::lemma_shows_itself(line);
        assert(symbol_line("circuit_breaker_state"@, symbols.last(), flag(open.last())) == line);
    }
}

/// The counts by symbol are exported, each under its name, behind what was exported before.
pub proof fn law_counts_by_symbol_are_exported(
    head: Seq<char>,
    s: MetricsSnapshot,
    part: Seq<char>,
    i: int,
)
    requires
        s.wf(),
    ensures
        0 <= i < s.per_symbol_ticks.key_seq().len() ==> crate::text::shows(
            by_symbol(head, s),
            "per_symbol_ticks"@ + "{symbol=\""@ + s.per_symbol_ticks.key_seq()[i] + "\"} "@ + crate::text::decimal(
                s.per_symbol_ticks.val_seq()[i] as nat,
            ) + "\n"@,
        ),
        0 <= i < s.per_symbol_features.key_seq().len() ==> crate::text::shows(
            by_symbol(head, s),
            "per_symbol_features"@ + "{symbol=\""@ + s.per_symbol_features.key_seq()[i] + "\"} "@ + crate::text::decimal(
                s.per_symbol_features.val_seq()[i] as nat,
            ) + "\n"@,
        ),
        0 <= i < s.per_symbol_intents_approved.key_seq().len() ==> crate::text::shows(
            by_symbol(head, s),
            "per_symbol_intents_approved"@ + "{symbol=\""@ + s.per_symbol_intents_approved.key_seq()[i] + "\"} "@ + crate::text::decimal(
                s.per_symbol_intents_approved.val_seq()[i] as nat,
            ) + "\n"@,
        ),
        0 <= i < s.per_symbol_intents_rejected.key_seq().len() ==> crate::text::shows(
            by_symbol(head, s),
            "per_symbol_intents_rejected"@ + "{symbol=\""@ + s.per_symbol_intents_rejected.key_seq()[i] + "\"} "@ + crate::text::decimal(
                s.per_symbol_intents_rejected.val_seq()[i] as nat,
            ) + "\n"@,
        ),
        crate::text::shows(head, part) ==> crate::text::shows(by_symbol(head, s), part),
{
    broadcast use crate::text::lemma_front_shows, crate::text::lemma_end_shows;

    s.per_symbol_ticks.lemma_entries();
    if 0 <= i < s.per_symbol_ticks.key_seq().len() {
        law_symbols_are_exported_one_by_one(
            "per_symbol_ticks"@,
            "Ticks processed per symbol"@,
            s.per_symbol_ticks.key_seq(),
            s.per_symbol_ticks.val_seq(),
            i,
        );
    }
    s.per_symbol_features.lemma_entries();
    if 0 <= i < s.per_symbol_features.key_seq().len() {
        law_symbols_are_exported_one_by_one(
            "per_symbol_features"@,
            "Features computed per symbol"@,
            s.per_symbol_features.key_seq(),
            s.per_symbol_features.val_seq(),
            i,
        );
    }
    s.per_symbol_intents_approved.lemma_entries();
    if 0 <= i < s.per_symbol_intents_approved.key_seq().len() {
        law_symbols_are_exported_one_by_one(
            "per_symbol_intents_approved"@,
            "Intents approved per symbol"@,
            s.per_symbol_intents_approved.key_seq(),
            s.per_symbol_intents_approved.val_seq(),
            i,
        );
    }
    s.per_symbol_intents_rejected.lemma_entries();
    if 0 <= i < s.per_symbol_intents_rejected.key_seq().len() {
        law_symbols_are_exported_one_by_one(
            "per_symbol_intents_rejected"@,
            "Intents rejected per symbol"@,
            s.per_symbol_intents_rejected.key_seq(),
            s.per_symbol_intents_rejected.val_seq(),
            i,
        );
    }
}

/// The full export shows each counter and each gauge on a line of its own, under its name, the
/// buckets of each latency, the breakers, and whether trading is stopped.
pub proof fn law_full_export_shows_its_values(
    s: MetricsSnapshot,
    breakers: StrMap<bool>,
    active: bool,
)
    ensures
        crate::text::shows(full_text(s, breakers, active), counter_line("ticks_processed"@, s.ticks_processed)),
        crate::text::shows(full_text(s, breakers, active), counter_line("features_computed"@, s.features_computed)),
        crate::text::shows(full_text(s, breakers, active), counter_line("inferences_run"@, s.inferences_run)),
        crate::text::shows(full_text(s, breakers, active), counter_line("intents_generated"@, s.intents_generated)),
        crate::text::shows(full_text(s, breakers, active), counter_line("intents_approved"@, s.intents_approved)),
        crate::text::shows(full_text(s, breakers, active), counter_line("intents_rejected"@, s.intents_rejected)),
        crate::text::shows(full_text(s, breakers, active), counter_line("dropped_intents"@, s.dropped_intents)),
        crate::text::shows(full_text(s, breakers, active), counter_line("stale_predictions"@, s.stale_predictions)),
        crate::text::shows(full_text(s, breakers, active), counter_line("orders_submitted"@, s.orders_submitted)),
        crate::text::shows(full_text(s, breakers, active), counter_line("orders_filled"@, s.orders_filled)),
        crate::text::shows(full_text(s, breakers, active), counter_line("orders_cancelled"@, s.orders_cancelled)),
        crate::text::shows(full_text(s, breakers, active), counter_line("orders_rejected"@, s.orders_rejected)),
        crate::text::shows(full_text(s, breakers, active), counter_line("circuit_breaker_trips"@, s.circuit_breaker_trips)),
        crate::text::shows(full_text(s, breakers, active), counter_line("kill_switch_activations"@, s.kill_switch_activations)),
        crate::text::shows(full_text(s, breakers, active), counter_line("config_reloads"@, s.config_reloads)),
        crate::text::shows(full_text(s, breakers, active), counter_line("journal_writes"@, s.journal_writes)),
        crate::text::shows(full_text(s, breakers, active), counter_line("heartbeat_misses"@, s.heartbeat_misses)),
        crate::text::shows(full_text(s, breakers, active), counter_line("errors"@, s.errors)),
        crate::text::shows(full_text(s, breakers, active), counter_line("orders_lifecycle_events"@, s.orders_lifecycle_events)),
        crate::text::shows(full_text(s, breakers, active), counter_line("feed_gaps"@, s.feed_gaps)),
        crate::text::shows(full_text(s, breakers, active), gauge_line("feature_channel_depth"@, s.feature_channel_depth)),
        crate::text::shows(full_text(s, breakers, active), gauge_line("risk_channel_depth"@, s.risk_channel_depth)),
        crate::text::shows(full_text(s, breakers, active), gauge_line("decision_channel_depth"@, s.decision_channel_depth)),
        crate::text::shows(full_text(s, breakers, active), gauge_line("lifecycle_channel_depth"@, s.lifecycle_channel_depth)),
        crate::text::shows(full_text(s, breakers, active), gauge_line("command_channel_depth"@, s.command_channel_depth)),
        crate::text::shows(full_text(s, breakers, active), gauge_line("journal_channel_depth"@, s.journal_channel_depth)),
        crate::text::shows(full_text(s, breakers, active), bucket_lines("tick_to_intent_latency"@, s.tick_to_intent_latency@)),
        crate::text::shows(full_text(s, breakers, active), bucket_lines("risk_check_latency"@, s.risk_check_latency@)),
        crate::text::shows(full_text(s, breakers, active), bucket_lines("journal_flush_latency"@, s.journal_flush_latency@)),
        crate::text::shows(full_text(s, breakers, active), bucket_lines("broker_send_latency"@, s.broker_send_latency@)),
        crate::text::shows(full_text(s, breakers, active), bucket_lines("feed_latency"@, s.feed_latency@)),
        crate::text::shows(full_text(s, breakers, active), bucket_lines("broker_round_trip_latency"@, s.broker_round_trip_latency@)),
        crate::text::shows(full_text(s, breakers, active), bucket_lines("decision_latency"@, s.decision_latency@)),
        crate::text::shows(
            full_text(s, breakers, active),
            breaker_lines(breakers.key_seq(), breakers.val_seq()),
        ),
        crate::text::shows(
            full_text(s, breakers, active),
            "kill_switch_active "@ + crate::text::decimal(
                if active {
                    1
                } else {
                    0
                },
            ) + "\n"@,
        ),
{
    let e = Seq::<char>::empty();
    let t = tick_counters(e, s);
    let u = order_counters(t, s);
    let v = u + counter_text(
        "orders_lifecycle_events"@,
        "Total order lifecycle events"@,
        s.orders_lifecycle_events,
    );
    let l = latencies(v, s);
    let d = depths(l, s);
    law_tick_counters_are_exported(e, s, e);
    law_order_counters_are_exported(t, s, e);
    law_latencies_are_exported(v, s, e);
    law_depths_are_exported(l, s, e);
    let stop = kill_switch_line(active);
    let b = breaker_lines(breakers.key_seq(), breakers.val_seq());
    crate::text::lemma_shows_itself(stop);
    crate::text::lemma_shows_itself(b);
    let all = full_text(s, breakers, active);
    assert forall|part: Seq<char>| #[trigger] crate::text::shows(t, part) implies crate::text::shows(
        all,
        part,
    ) by {
        law_order_counters_are_exported(t, s, part);
        lemma_carried_on(s, breakers, active, part);
    }
    assert forall|part: Seq<char>| #[trigger] crate::text::shows(u, part) implies crate::text::shows(
        all,
        part,
    ) by {
        lemma_carried_on(s, breakers, active, part);
    }
    assert forall|part: Seq<char>| #[trigger] crate::text::shows(l, part) implies crate::text::shows(
        all,
        part,
    ) by {
        lemma_carried_on(s, breakers, active, part);
    }
    assert forall|part: Seq<char>| #[trigger] crate::text::shows(d, part) implies crate::text::shows(
        all,
        part,
    ) by {
        lemma_carried_on(s, breakers, active, part);
    }
    lemma_carried_on(
        s,
        breakers,
        active,
        counter_line("orders_lifecycle_events"@, s.orders_lifecycle_events),
    );
    lemma_carried_on(s, breakers, active, counter_line("feed_gaps"@, s.feed_gaps));
    lemma_carried_on(
        s,
        breakers,
        active,
        bucket_lines("decision_latency"@, s.decision_latency@),
    );
    lemma_carried_on(s, breakers, active, stop);
    lemma_carried_on(s, breakers, active, b);
}

/// What a part of the full export shows, the whole shows.
proof fn lemma_carried_on(
    s: MetricsSnapshot,
    breakers: StrMap<bool>,
    active: bool,
    part: Seq<char>,
)
    ensures
        ({
            let u = order_counters(tick_counters(Seq::empty(), s), s);
            let v = u + counter_text(
                "orders_lifecycle_events"@,
                "Total order lifecycle events"@,
                s.orders_lifecycle_events,
            );
            let l = latencies(v, s);
            let d = depths(l, s);
            let shown = crate::text::shows(full_text(s, breakers, active), part);
            &&& crate::text::shows(u, part) ==> shown
            &&& crate::text::shows(l, part) ==> shown
            &&& crate::text::shows(d, part) ==> shown
            &&& part == counter_line("orders_lifecycle_events"@, s.orders_lifecycle_events) ==> shown
            &&& part == counter_line("feed_gaps"@, s.feed_gaps) ==> shown
            &&& part == bucket_lines("decision_latency"@, s.decision_latency@) ==> shown
            &&& crate::text::shows(
                breaker_lines(breakers.key_seq(), breakers.val_seq()),
                part,
            ) ==> shown
            &&& crate::text::shows(kill_switch_line(active), part) ==> shown
        }),
{
    let events = counter_text(
        "orders_lifecycle_events"@,
        "Total order lifecycle events"@,
        s.orders_lifecycle_events,
    );
    let gaps = counter_text(
        "feed_gaps"@,
        "Total feed gaps detected (>1s between ticks)"@,
        s.feed_gaps,
    );
    let decisions = histogram_text(
        "decision_latency"@,
        "Decision latency histogram (tick timestamp → decision send)"@,
        s.decision_latency@,
    );
    let about = described(
        "circuit_breaker_state"@,
        "Circuit breaker state per symbol (1=open, 0=closed)"@,
        "gauge"@,
    );
    let open = breaker_lines(breakers.key_seq(), breakers.val_seq());
    let stop = kill_switch_line(active);
    let u = order_counters(tick_counters(Seq::empty(), s), s);
    let v = u + events;
    let l = latencies(v, s);
    let d = depths(l, s);
    let m = d + gaps;
    let n = m + decisions;
    let p = n + about;
    let q = p + open;
    let y = by_symbol(q, s);
    assert(full_text(s, breakers, active) == y + stop);
    lemma_counter_shows(
        "orders_lifecycle_events"@,
        "Total order lifecycle events"@,
        s.orders_lifecycle_events,
    );
    lemma_counter_shows(
        "feed_gaps"@,
        "Total feed gaps detected (>1s between ticks)"@,
        s.feed_gaps,
    );
    lemma_histogram_shows(
        "decision_latency"@,
        "Decision latency histogram (tick timestamp → decision send)"@,
        s.decision_latency@,
    );
    if crate::text::shows(u, part) {
        crate::text::lemma_front_shows(u, events, part);
    }
    if crate::text::shows(events, part) {
        crate::text::lemma_end_shows(u, events, part);
    }
    law_latencies_are_exported(v, s, part);
    law_depths_are_exported(l, s, part);
    if crate::text::shows(d, part) {
        crate::text::lemma_front_shows(d, gaps, part);
    }
    if crate::text::shows(gaps, part) {
        crate::text::lemma_end_shows(d, gaps, part);
    }
    if crate::text::shows(m, part) {
        crate::text::lemma_front_shows(m, decisions, part);
    }
    if crate::text::shows(decisions, part) {
        crate::text::lemma_end_shows(m, decisions, part);
    }
    if crate::text::shows(n, part) {
        crate::text::lemma_front_shows(n, about, part);
    }
    if crate::text::shows(p, part) {
        crate::text::lemma_front_shows(p, open, part);
    }
    if crate::text::shows(open, part) {
        crate::text::lemma_end_shows(p, open, part);
    }
    lemma_by_symbol_keeps(q, s, part);
    if crate::text::shows(y, part) {
        crate::text::lemma_front_shows(y, stop, part);
    }
    if crate::text::shows(stop, part) {
        crate::text::lemma_end_shows(y, stop, part);
    }
}

proof fn lemma_by_symbol_keeps(head: Seq<char>, s: MetricsSnapshot, part: Seq<char>)
    ensures
        crate::text::shows(head, part) ==> crate::text::shows(by_symbol(head, s), part),
{
    broadcast use crate::text::lemma_front_shows;

}

/// The short export shows each counter on a line of its own, under its name, and whether trading is
/// stopped.
pub proof fn law_basic_export_shows_its_counters(s: MetricsSnapshot, active: bool)
    ensures
        crate::text::shows(basic_text(s, active), counter_line("ticks_processed"@, s.ticks_processed)),
        crate::text::shows(basic_text(s, active), counter_line("features_computed"@, s.features_computed)),
        crate::text::shows(basic_text(s, active), counter_line("inferences_run"@, s.inferences_run)),
        crate::text::shows(basic_text(s, active), counter_line("intents_generated"@, s.intents_generated)),
        crate::text::shows(basic_text(s, active), counter_line("intents_approved"@, s.intents_approved)),
        crate::text::shows(basic_text(s, active), counter_line("intents_rejected"@, s.intents_rejected)),
        crate::text::shows(basic_text(s, active), counter_line("dropped_intents"@, s.dropped_intents)),
        crate::text::shows(basic_text(s, active), counter_line("stale_predictions"@, s.stale_predictions)),
        crate::text::shows(basic_text(s, active), counter_line("orders_submitted"@, s.orders_submitted)),
        crate::text::shows(basic_text(s, active), counter_line("orders_filled"@, s.orders_filled)),
        crate::text::shows(basic_text(s, active), counter_line("orders_cancelled"@, s.orders_cancelled)),
        crate::text::shows(basic_text(s, active), counter_line("orders_rejected"@, s.orders_rejected)),
        crate::text::shows(basic_text(s, active), counter_line("circuit_breaker_trips"@, s.circuit_breaker_trips)),
        crate::text::shows(basic_text(s, active), counter_line("kill_switch_activations"@, s.kill_switch_activations)),
        crate::text::shows(basic_text(s, active), counter_line("config_reloads"@, s.config_reloads)),
        crate::text::shows(basic_text(s, active), counter_line("journal_writes"@, s.journal_writes)),
        crate::text::shows(basic_text(s, active), counter_line("heartbeat_misses"@, s.heartbeat_misses)),
        crate::text::shows(basic_text(s, active), counter_line("errors"@, s.errors)),
        crate::text::shows(
            basic_text(s, active),
            "kill_switch_active "@ + crate::text::decimal(
                if active {
                    1
                } else {
                    0
                },
            ) + "\n"@,
        ),
{
    let e = Seq::<char>::empty();
    let t = tick_counters(e, s);
    let u = order_counters(t, s);
    law_tick_counters_are_exported(e, s, e);
    law_order_counters_are_exported(t, s, e);
    let stop = kill_switch_line(active);
    crate::text::lemma_shows_itself(stop);
    crate::text::lemma_end_shows(u, stop, stop);
    assert forall|part: Seq<char>| #[trigger] crate::text::shows(t, part) implies crate::text::shows(
        basic_text(s, active),
        part,
    ) by {
        law_order_counters_are_exported(t, s, part);
        crate::text::lemma_front_shows(u, stop, part);
    }
    assert forall|part: Seq<char>| #[trigger] crate::text::shows(u, part) implies crate::text::shows(
        basic_text(s, active),
        part,
    ) by {
        crate::text::lemma_front_shows(u, stop, part);
    }
}

} // verus!
