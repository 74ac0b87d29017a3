//! The stream of telemetry events that a client listens to.

use vstd::prelude::*;

verus! {

/// What follows an attempt to send the counters to a client.
#[derive(Debug, Clone, Copy, PartialEq, Eq, Structural)]
pub enum TelemetryStep {
    /// The client is gone.
    Stop,
    /// The kill switch is active: tell the client when it was activated, then stop.
    Farewell { activated_at_ns: u64 },
    /// Wait for the next turn.
    Wait,
}

/// The kind of the events with the counters.
pub fn metrics_event() -> (s: &'static str)
    ensures
        s@ == "metrics"@,
{
    "metrics"
}

/// The kind of the event of an active kill switch.
pub fn kill_switch_event() -> (s: &'static str)
    ensures
        s@ == "kill_switch"@,
{
    "kill_switch"
}

/// What follows an attempt to send the counters.
pub fn after_metrics(sent: bool, active: bool, activated_at_ns: u64) -> (s: TelemetryStep)
    ensures
        s == (if !sent {
            TelemetryStep::Stop
        } else if active {
            TelemetryStep::Farewell { activated_at_ns }
        } else {
            TelemetryStep::Wait
        }),
{
    if !sent {
        TelemetryStep::Stop
    } else if active {
        TelemetryStep::Farewell { activated_at_ns }
    } else {
        TelemetryStep::Wait
    }
}

/// A client that is gone is told nothing more. One that is there is told of an active kill switch
/// and when it was thrown, and hears on just where trading goes on.
pub proof fn law_client_hears_until_the_end(sent: bool, active: bool, at: u64, s: TelemetryStep)
    requires
        call_ensures(after_metrics, (sent, active, at), s),
    ensures
        s is Stop <==> !sent,
        s is Wait <==> sent && !active,
        s is Farewell ==> s == (TelemetryStep::Farewell { activated_at_ns: at }),
{
}

} // verus!
