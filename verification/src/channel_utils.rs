//! Sending on bounded channels under a policy for full channels.

use crossbeam_channel::{Receiver, SendTimeoutError, Sender, TrySendError};
use std::time::Duration;
use vstd::prelude::*;

use crate::config::BackpressurePolicy;
use crate::metrics::GlobalMetrics;

verus! {

/// `crossbeam_channel::Sender`, carried through as it is.
#[verifier::external_type_specification]
#[verifier::external_body]
#[verifier::reject_recursive_types(T)]
pub struct ExSender<T>(Sender<T>);

/// `crossbeam_channel::Receiver`, carried through as it is.
#[verifier::external_type_specification]
#[verifier::external_body]
#[verifier::reject_recursive_types(T)]
pub struct ExReceiver<T>(Receiver<T>);

/// How an attempt to send went. A message that was not sent comes back.
#[derive(Debug)]
pub enum SendOutcome<T> {
    Sent,
    /// The channel has no room.
    Full(T),
    /// All receivers are gone.
    Disconnected(T),
}

/// How an attempt to send within a limited time went. A message that was not sent comes back.
#[derive(Debug)]
pub enum TimedOutcome<T> {
    Sent,
    Timeout(T),
    Disconnected(T),
}

/// `Sender::try_send`: sends without waiting. A message that was not sent comes back unchanged.
/// Which of the three happens depends on the other ends of the channel and is not stated.
#[verifier::external_body]
pub(crate) fn try_send<T>(tx: &Sender<T>, msg: T) -> (r: SendOutcome<T>)
    ensures
        match r {
            SendOutcome::Sent => true,
            SendOutcome::Full(m) => m == msg,
            SendOutcome::Disconnected(m) => m == msg,
        },
{
    match tx.try_send(msg) {
        Ok(()) => SendOutcome::Sent,
        Err(TrySendError::Full(m)) => SendOutcome::Full(m),
        Err(TrySendError::Disconnected(m)) => SendOutcome::Disconnected(m),
    }
}

/// `Sender::send_timeout`: sends, waiting for room for at most `timeout_ms` milliseconds. A
/// message that was not sent comes back unchanged. Which of the three happens depends on the
/// other ends of the channel and on time, and is not stated.
#[verifier::external_body]
fn send_timeout<T>(tx: &Sender<T>, msg: T, timeout_ms: u64) -> (r: TimedOutcome<T>)
    ensures
        match r {
            TimedOutcome::Sent => true,
            TimedOutcome::Timeout(m) => m == msg,
            TimedOutcome::Disconnected(m) => m == msg,
        },
{
    match tx.send_timeout(msg, Duration::from_millis(timeout_ms)) {
        Ok(()) => TimedOutcome::Sent,
        Err(SendTimeoutError::Timeout(m)) => TimedOutcome::Timeout(m),
        Err(SendTimeoutError::Disconnected(m)) => TimedOutcome::Disconnected(m),
    }
}

/// `Sender::send`: sends, waiting for room as long as a receiver is left. The message comes back
/// unchanged where none is.
#[verifier::external_body]
pub(crate) fn send<T>(tx: &Sender<T>, msg: T) -> (r: Result<(), T>)
    ensures
        r matches Err(m) ==> m == msg,
{
    tx.send(msg).map_err(|e| e.0)
}

/// `Receiver::try_recv`: takes the oldest message of the channel, where there is one. Nothing is
/// claimed of it: what the channel holds depends on its other ends.
#[verifier::external_body]
pub(crate) fn try_recv<T>(rx: &Receiver<T>) -> Option<T> {
    rx.try_recv().ok()
}

/// `Receiver::recv_timeout`: waits for a message for at most `timeout_us` microseconds. Nothing is
/// claimed of it: what comes, and whether, depends on the other ends of the channel and on time.
#[verifier::external_body]
pub(crate) fn recv_within<T>(rx: &Receiver<T>, timeout_us: u64) -> Option<T> {
    rx.recv_timeout(Duration::from_micros(timeout_us)).ok()
}

/// `crossbeam_channel::bounded`: a new channel with room for `cap` messages. Nothing is claimed of
/// the two ends, which are opaque. The room is allocated by the call, which panics where its size
/// does not fit in an address, so large numbers are left out.
#[verifier::external_body]
pub(crate) fn bounded_channel<T>(cap: usize) -> (Sender<T>, Receiver<T>)
    requires
        cap <= 0x100_0000,
{
    crossbeam_channel::bounded(cap)
}

/// `Sender::clone`: another end of the same channel. Nothing is claimed of it, as an end is opaque.
pub assume_specification<T>[ <Sender<T> as Clone>::clone ](tx: &Sender<T>) -> Sender<T>;

/// Whether `outcome` is what an attempt to send `msg` on `tx` without waiting can come to. Only
/// such an attempt shows it.
pub closed spec fn tried<T>(tx: &Sender<T>, msg: T, outcome: SendOutcome<T>) -> bool {
    call_ensures(try_send::<T>, (tx, msg), outcome)
}

/// Whether `outcome` is what an attempt to send `msg` on `tx` within `timeout_ms` milliseconds can
/// come to. Only such an attempt shows it.
pub closed spec fn tried_within<T>(
    tx: &Sender<T>,
    msg: T,
    timeout_ms: u64,
    outcome: TimedOutcome<T>,
) -> bool {
    call_ensures(send_timeout::<T>, (tx, msg, timeout_ms), outcome)
}

/// Whether `r` is what it can come to that `msg` is sent on `tx`, waiting for room. Only such a
/// send shows it.
pub closed spec fn handed<T>(tx: &Sender<T>, msg: T, r: Result<(), T>) -> bool {
    call_ensures(send::<T>, (tx, msg), r)
}

/// Whether `taken` is what can come out of the channel of `rx` without waiting. Only an attempt to
/// take a message shows it.
pub closed spec fn took<T>(rx: &Receiver<T>, taken: Option<T>) -> bool {
    call_ensures(try_recv::<T>, (rx,), taken)
}

/// Whether `taken` is what can come out of the channel of `rx` within `timeout_us` microseconds.
/// Only such a wait shows it.
pub closed spec fn waited<T>(rx: &Receiver<T>, timeout_us: u64, taken: Option<T>) -> bool {
    call_ensures(recv_within::<T>, (rx, timeout_us), taken)
}

/// Whether `tx` and `rx` can be the two ends of a channel with room for `cap` messages. Only opening
/// one shows it.
pub closed spec fn opened<T>(cap: usize, tx: Sender<T>, rx: Receiver<T>) -> bool {
    call_ensures(bounded_channel::<T>, (cap,), (tx, rx))
}

/// The two ends of a channel that was opened.
pub(crate) proof fn lemma_opened<T>(cap: usize, tx: Sender<T>, rx: Receiver<T>)
    requires
        call_ensures(bounded_channel::<T>, (cap,), (tx, rx)),
    ensures
        opened(cap, tx, rx),
{
}

/// An attempt to send is one that was tried.
pub(crate) proof fn lemma_tried<T>(tx: &Sender<T>, msg: T, outcome: SendOutcome<T>)
    requires
        call_ensures(try_send::<T>, (tx, msg), outcome),
    ensures
        tried(tx, msg, outcome),
{
}

/// A message that was sent, waiting for room, was handed on.
pub(crate) proof fn lemma_handed<T>(tx: &Sender<T>, msg: T, r: Result<(), T>)
    requires
        call_ensures(send::<T>, (tx, msg), r),
    ensures
        handed(tx, msg, r),
{
}

/// What came out of a channel without waiting was taken.
pub(crate) proof fn lemma_took<T>(rx: &Receiver<T>, taken: Option<T>)
    requires
        call_ensures(try_recv::<T>, (rx,), taken),
    ensures
        took(rx, taken),
{
}

/// What came out of a channel within a limited time was waited for.
pub(crate) proof fn lemma_waited<T>(rx: &Receiver<T>, timeout_us: u64, taken: Option<T>)
    requires
        call_ensures(recv_within::<T>, (rx, timeout_us), taken),
    ensures
        waited(rx, timeout_us, taken),
{
}

/// Puts a message that came out of a channel behind those that came out before it. The result tells
/// whether there was one.
pub fn take_in<T>(buf: &mut Vec<T>, got: Option<T>) -> (more: bool)
    ensures
        match got {
            Some(v) => more && final(buf)@ == old(buf)@.push(v),
            None => !more && final(buf)@ == old(buf)@,
        },
{
    match got {
        Some(v) => {
            buf.push(v);
            true
        },
        None => false,
    }
}

/// Why a message was not sent under a policy, with the message.
#[derive(Debug)]
pub enum PolicySendError<T> {
    Dropped(T),
    Timeout(T),
    Disconnected(T),
}

impl<T> PolicySendError<T> {
    /// The message that was not sent.
    pub open spec fn message(self) -> T {
        match self {
            PolicySendError::Dropped(m) => m,
            PolicySendError::Timeout(m) => m,
            PolicySendError::Disconnected(m) => m,
        }
    }
}

/// Whether `after` is `before` with `n` more dropped messages and no other change.
pub open spec fn drops_counted(before: GlobalMetrics, after: GlobalMetrics, n: u64) -> bool {
    &&& after.dropped_intents@ == crate::metrics::wrap_u64(before.dropped_intents@, n)
    &&& after == (GlobalMetrics { dropped_intents: after.dropped_intents, ..before })
}

/// Counts a dropped message.
fn count_drop(metrics: &mut GlobalMetrics)
    ensures
        drops_counted(*old(metrics), *final(metrics), 1),
{
    metrics.dropped_intents.fetch_add(1);
}

/// Whether an attempt to send comes to `r` where a full channel drops the message: a drop is
/// counted, and a message that was not sent comes back.
pub open spec fn settled_or_drop<T>(
    outcome: SendOutcome<T>,
    before: GlobalMetrics,
    after: GlobalMetrics,
    r: Result<(), T>,
) -> bool {
    match outcome {
        SendOutcome::Sent => r == Ok::<(), T>(()) && after == before,
        SendOutcome::Full(m) => r == Err::<(), T>(m) && drops_counted(before, after, 1),
        SendOutcome::Disconnected(m) => r == Err::<(), T>(m) && after == before,
    }
}

/// Settles an attempt to send where a full channel drops the message: a drop is counted, and a
/// message that was not sent comes back.
pub fn settle_or_drop<T>(outcome: SendOutcome<T>, metrics: &mut GlobalMetrics) -> (r: Result<(), T>)
    ensures
        settled_or_drop(outcome, *old(metrics), *final(metrics), r),
{
    match outcome {
        SendOutcome::Sent => Ok(()),
        SendOutcome::Full(m) => {
            count_drop(metrics);
            Err(m)
        },
        SendOutcome::Disconnected(m) => Err(m),
    }
}

/// Sends without waiting. Where the channel is full a drop is counted; a message that was not
/// sent comes back.
pub fn try_send_or_drop<T>(tx: &Sender<T>, msg: T, metrics: &mut GlobalMetrics) -> (r: Result<(), T>)
    ensures
        r matches Err(m) ==> m == msg && (*final(metrics) == *old(metrics) || drops_counted(
            *old(metrics),
            *final(metrics),
            1,
        )),
        r is Ok ==> *final(metrics) == *old(metrics),
        exists|outcome: SendOutcome<T>| #[trigger]
            tried(tx, msg, outcome) && settled_or_drop(
                outcome,
                *old(metrics),
                *final(metrics),
                r,
            ),
{
    let outcome = try_send(tx, msg);
    assert(tried(tx, msg, outcome));
    settle_or_drop(outcome, metrics)
}

/// What comes after the first attempt to send where a full channel drops its oldest message.
#[derive(Debug)]
pub enum OldestStep<T> {
    /// Nothing: the message is sent, or the channel is gone.
    Done(Result<(), PolicySendError<T>>),
    /// Take the oldest message out of the channel.
    MakeRoom(T),
    /// Send once more.
    Retry(T),
}

/// Settles the first attempt: a full channel is to give up its oldest message.
pub fn settle_first<T>(outcome: SendOutcome<T>) -> (r: OldestStep<T>)
    ensures
        match outcome {
            SendOutcome::Sent => r == OldestStep::Done(Ok::<(), PolicySendError<T>>(())),
            SendOutcome::Full(m) => r == OldestStep::MakeRoom(m),
            SendOutcome::Disconnected(m) => r == OldestStep::Done(
                Err::<(), PolicySendError<T>>(PolicySendError::Disconnected(m)),
            ),
        },
{
    match outcome {
        SendOutcome::Sent => OldestStep::Done(Ok(())),
        SendOutcome::Full(m) => OldestStep::MakeRoom(m),
        SendOutcome::Disconnected(m) => OldestStep::Done(Err(PolicySendError::Disconnected(m))),
    }
}

/// Settles the attempt to take the oldest message: where one was taken a drop is counted and the
/// message is sent once more, else it is dropped itself, uncounted.
pub fn settle_room<T>(taken: bool, msg: T, metrics: &mut GlobalMetrics) -> (r: OldestStep<T>)
    ensures
        taken ==> r == OldestStep::Retry(msg) && drops_counted(*old(metrics), *final(metrics), 1),
        !taken ==> r == OldestStep::Done(
            Err::<(), PolicySendError<T>>(PolicySendError::Dropped(msg)),
        ) && *final(metrics) == *old(metrics),
{
    if taken {
        count_drop(metrics);
        OldestStep::Retry(msg)
    } else {
        OldestStep::Done(Err(PolicySendError::Dropped(msg)))
    }
}

/// What an attempt to send comes to that is not followed by another.
pub open spec fn last_result<T>(outcome: SendOutcome<T>) -> Result<(), PolicySendError<T>> {
    match outcome {
        SendOutcome::Sent => Ok(()),
        SendOutcome::Full(m) => Err(PolicySendError::Dropped(m)),
        SendOutcome::Disconnected(m) => Err(PolicySendError::Disconnected(m)),
    }
}

/// Settles the second attempt: it is the last.
pub fn settle_second<T>(outcome: SendOutcome<T>) -> (r: Result<(), PolicySendError<T>>)
    ensures
        r == last_result(outcome),
{
    match outcome {
        SendOutcome::Sent => Ok(()),
        SendOutcome::Full(m) => Err(PolicySendError::Dropped(m)),
        SendOutcome::Disconnected(m) => Err(PolicySendError::Disconnected(m)),
    }
}

/// Whether a drop is counted just where an attempt to send found the channel full.
pub open spec fn newest_counted<T>(
    outcome: SendOutcome<T>,
    before: GlobalMetrics,
    after: GlobalMetrics,
) -> bool {
    if outcome is Full {
        drops_counted(before, after, 1)
    } else {
        after == before
    }
}

/// Settles an attempt to send where a full channel drops the new message, which is counted.
pub fn settle_newest<T>(outcome: SendOutcome<T>, metrics: &mut GlobalMetrics) -> (r: Result<
    (),
    PolicySendError<T>,
>)
    ensures
        r == last_result(outcome),
        newest_counted(outcome, *old(metrics), *final(metrics)),
{
    match outcome {
        SendOutcome::Sent => Ok(()),
        SendOutcome::Full(m) => {
            count_drop(metrics);
            Err(PolicySendError::Dropped(m))
        },
        SendOutcome::Disconnected(m) => Err(PolicySendError::Disconnected(m)),
    }
}

/// What an attempt to send within a limited time comes to.
pub open spec fn timed_result<T>(outcome: TimedOutcome<T>) -> Result<(), PolicySendError<T>> {
    match outcome {
        TimedOutcome::Sent => Ok(()),
        TimedOutcome::Timeout(m) => Err(PolicySendError::Timeout(m)),
        TimedOutcome::Disconnected(m) => Err(PolicySendError::Disconnected(m)),
    }
}

/// Settles an attempt to send within a limited time.
pub fn settle_timed<T>(outcome: TimedOutcome<T>) -> (r: Result<(), PolicySendError<T>>)
    ensures
        r == timed_result(outcome),
{
    match outcome {
        TimedOutcome::Sent => Ok(()),
        TimedOutcome::Timeout(m) => Err(PolicySendError::Timeout(m)),
        TimedOutcome::Disconnected(m) => Err(PolicySendError::Disconnected(m)),
    }
}

/// Whether `msg` was tried once on `tx`, and where the channel was full it was dropped and counted.
pub open spec fn sent_or_dropped<T>(
    tx: &Sender<T>,
    msg: T,
    before: GlobalMetrics,
    after: GlobalMetrics,
    r: Result<(), PolicySendError<T>>,
) -> bool {
    exists|outcome: SendOutcome<T>| #[trigger]
        tried(tx, msg, outcome) && r == last_result(outcome) && newest_counted(
            outcome,
            before,
            after,
        )
}

/// Whether a channel that was full of messages gave up its oldest one for `msg`: where one came out
/// of `rx` it is counted as dropped and `msg` was tried once more, else `msg` was dropped.
pub open spec fn room_made<T>(
    tx: &Sender<T>,
    rx: &Receiver<T>,
    msg: T,
    before: GlobalMetrics,
    after: GlobalMetrics,
    r: Result<(), PolicySendError<T>>,
) -> bool {
    exists|taken: Option<T>| #[trigger]
        took(rx, taken) && if taken is Some {
            drops_counted(before, after, 1) && exists|second: SendOutcome<T>| #[trigger]
                tried(tx, msg, second) && r == last_result(second)
        } else {
            after == before && r == Err::<(), PolicySendError<T>>(PolicySendError::Dropped(msg))
        }
}

/// Whether `msg` was tried on `tx`, and where the channel was full the oldest message of `rx` made
/// room for it.
pub open spec fn sent_over_oldest<T>(
    tx: &Sender<T>,
    rx: &Receiver<T>,
    msg: T,
    before: GlobalMetrics,
    after: GlobalMetrics,
    r: Result<(), PolicySendError<T>>,
) -> bool {
    exists|first: SendOutcome<T>| #[trigger]
        tried(tx, msg, first) && if first is Full {
            room_made(tx, rx, msg, before, after, r)
        } else {
            after == before && r == last_result(first)
        }
}

/// Sends, dropping the oldest message where the channel is full.
fn send_drop_oldest<T>(tx: &Sender<T>, rx: &Receiver<T>, msg: T, metrics: &mut GlobalMetrics) -> (r:
    Result<(), PolicySendError<T>>)
    ensures
        sent_under(true, msg, *old(metrics), *final(metrics), r),
        sent_over_oldest(tx, rx, msg, *old(metrics), *final(metrics), r),
{
    let outcome = try_send(tx, msg);
    assert(tried(tx, msg, outcome));
    match settle_first(outcome) {
        OldestStep::Done(r) => r,
        OldestStep::MakeRoom(m) => {
            let oldest = try_recv(rx);
            assert(took(rx, oldest));
            let taken = oldest.is_some();
            match settle_room(taken, m, metrics) {
                OldestStep::Retry(m2) => {
                    let second = try_send(tx, m2);
                    assert(tried(tx, msg, second));
                    settle_second(second)
                },
                OldestStep::Done(r) => r,
                OldestStep::MakeRoom(m2) => Err(PolicySendError::Dropped(m2)),
            }
        },
        OldestStep::Retry(m) => Err(PolicySendError::Dropped(m)),
    }
}

/// Sends, dropping the oldest message where the channel is full. A message that was not sent
/// comes back; a drop is counted where the oldest message was taken out.
pub fn try_send_drop_oldest<T>(
    tx: &Sender<T>,
    rx: &Receiver<T>,
    msg: T,
    metrics: &mut GlobalMetrics,
) -> (r: Result<(), T>)
    ensures
        r matches Err(m) ==> m == msg,
        *final(metrics) == *old(metrics) || drops_counted(*old(metrics), *final(metrics), 1),
        exists|q: Result<(), PolicySendError<T>>|
            {
                &&& #[trigger] sent_over_oldest(tx, rx, msg, *old(metrics), *final(metrics), q)
                &&& r == (match q {
                    Ok(()) => Ok::<(), T>(()),
                    Err(e) => Err(e.message()),
                })
            },
{
    match send_drop_oldest(tx, rx, msg, metrics) {
        Ok(()) => Ok(()),
        Err(PolicySendError::Dropped(m)) => Err(m),
        Err(PolicySendError::Timeout(m)) => Err(m),
        Err(PolicySendError::Disconnected(m)) => Err(m),
    }
}

/// What holds of a send that does not wait, whatever the channel did: a message that was not
/// sent comes back, a sent one is not counted as dropped unless an old one made room for it
/// (`oldest`), and a gone channel counts nothing unless it went after an old one was taken.
pub open spec fn sent_under<T>(
    oldest: bool,
    msg: T,
    before: GlobalMetrics,
    after: GlobalMetrics,
    r: Result<(), PolicySendError<T>>,
) -> bool {
    &&& r matches Err(e) ==> e.message() == msg && e !is Timeout
    &&& oldest ==> after == before || drops_counted(before, after, 1)
    &&& !oldest ==> (if r matches Err(PolicySendError::Dropped(_)) {
        drops_counted(before, after, 1)
    } else {
        after == before
    })
}

/// What holds of a send under `policy`, whatever the channel did.
pub open spec fn policy_kept<T>(
    policy: BackpressurePolicy,
    with_receiver: bool,
    msg: T,
    before: GlobalMetrics,
    after: GlobalMetrics,
    r: Result<(), PolicySendError<T>>,
) -> bool {
    match policy {
        BackpressurePolicy::BlockWithTimeoutMs(_) => {
            &&& after == before
            &&& r matches Err(e) ==> e.message() == msg && e !is Dropped
        },
        BackpressurePolicy::DropOldest => sent_under(with_receiver, msg, before, after, r),
        BackpressurePolicy::DropNewest => sent_under(false, msg, before, after, r),
        BackpressurePolicy::PrioritizeCritical => sent_under(false, msg, before, after, r),
    }
}

/// Whether `msg` was sent on `tx` as `policy` has it, and this came to `r`.
pub open spec fn policy_followed<T>(
    policy: BackpressurePolicy,
    tx: &Sender<T>,
    rx: Option<&Receiver<T>>,
    msg: T,
    before: GlobalMetrics,
    after: GlobalMetrics,
    r: Result<(), PolicySendError<T>>,
) -> bool {
    match policy {
        BackpressurePolicy::BlockWithTimeoutMs(timeout_ms) => {
            &&& after == before
            &&& exists|outcome: TimedOutcome<T>| #[trigger]
                tried_within(tx, msg, timeout_ms, outcome) && r == timed_result(outcome)
        },
        BackpressurePolicy::DropOldest => match rx {
            Some(rx) => sent_over_oldest(tx, rx, msg, before, after, r),
            None => sent_or_dropped(tx, msg, before, after, r),
        },
        BackpressurePolicy::DropNewest => sent_or_dropped(tx, msg, before, after, r),
        BackpressurePolicy::PrioritizeCritical => sent_or_dropped(tx, msg, before, after, r),
    }
}

/// Sends under a policy. `DropOldest` needs the receiving end, and drops the new message
/// without it. `PrioritizeCritical` drops the new message too: see `send_with_policy_critical`.
pub fn send_with_policy<T>(
    tx: &Sender<T>,
    rx_for_drop_oldest: Option<&Receiver<T>>,
    msg: T,
    policy: &BackpressurePolicy,
    metrics: &mut GlobalMetrics,
) -> (r: Result<(), PolicySendError<T>>)
    ensures
        policy_kept(
            *policy,
            rx_for_drop_oldest is Some,
            msg,
            *old(metrics),
            *final(metrics),
            r,
        ),
        policy_followed(
            *policy,
            tx,
            rx_for_drop_oldest,
            msg,
            *old(metrics),
            *final(metrics),
            r,
        ),
{
    match policy {
        BackpressurePolicy::DropNewest => {
            let outcome = try_send(tx, msg);
            assert(tried(tx, msg, outcome));
            settle_newest(outcome, metrics)
        },
        BackpressurePolicy::DropOldest => match rx_for_drop_oldest {
            Some(rx) => send_drop_oldest(tx, rx, msg, metrics),
            None => {
                let outcome = try_send(tx, msg);
                assert(tried(tx, msg, outcome));
                settle_newest(outcome, metrics)
            },
        },
        BackpressurePolicy::BlockWithTimeoutMs(timeout_ms) => {
            let outcome = send_timeout(tx, msg, *timeout_ms);
            assert(tried_within(tx, msg, *timeout_ms, outcome));
            settle_timed(outcome)
        },
        BackpressurePolicy::PrioritizeCritical => {
            let outcome = try_send(tx, msg);
            assert(tried(tx, msg, outcome));
            settle_newest(outcome, metrics)
        },
    }
}

/// The policy that a critical message is sent under.
pub open spec fn critical_policy(policy: BackpressurePolicy) -> BackpressurePolicy {
    if policy is PrioritizeCritical {
        BackpressurePolicy::DropOldest
    } else {
        policy
    }
}

/// Sends a critical message: under `PrioritizeCritical` the oldest message makes room for it.
pub fn send_with_policy_critical<T>(
    tx: &Sender<T>,
    rx_for_drop_oldest: Option<&Receiver<T>>,
    msg: T,
    policy: &BackpressurePolicy,
    metrics: &mut GlobalMetrics,
) -> (r: Result<(), PolicySendError<T>>)
    ensures
        policy_kept(
            critical_policy(*policy),
            rx_for_drop_oldest is Some,
            msg,
            *old(metrics),
            *final(metrics),
            r,
        ),
        policy_followed(
            critical_policy(*policy),
            tx,
            rx_for_drop_oldest,
            msg,
            *old(metrics),
            *final(metrics),
            r,
        ),
{
    match policy {
        BackpressurePolicy::PrioritizeCritical => send_with_policy(
            tx,
            rx_for_drop_oldest,
            msg,
            &BackpressurePolicy::DropOldest,
            metrics,
        ),
        _ => send_with_policy(tx, rx_for_drop_oldest, msg, policy, metrics),
    }
}

/// What a channel comes to is shown by its use alone: a message counts as tried, handed on or waited
/// for only through the call that tries it, hands it on or waits for it.
pub(crate) proof fn law_only_use_shows_the_outcome<T>(
    tx: &Sender<T>,
    rx: &Receiver<T>,
    msg: T,
    time: u64,
    outcome: SendOutcome<T>,
    handed_on: Result<(), T>,
    taken: Option<T>,
)
    ensures
        tried(tx, msg, outcome) <==> call_ensures(try_send::<T>, (tx, msg), outcome),
        handed(tx, msg, handed_on) <==> call_ensures(send::<T>, (tx, msg), handed_on),
        took(rx, taken) <==> call_ensures(try_recv::<T>, (rx,), taken),
        waited(rx, time, taken) <==> call_ensures(recv_within::<T>, (rx, time), taken),
{
}

/// So is what an attempt within a limited time comes to.
proof fn law_only_use_shows_the_timed_outcome<T>(
    tx: &Sender<T>,
    msg: T,
    time: u64,
    timed: TimedOutcome<T>,
)
    ensures
        tried_within(tx, msg, time, timed) <==> call_ensures(
            send_timeout::<T>,
            (tx, msg, time),
            timed,
        ),
{
}

/// A message that is not sent comes back, and is counted as dropped just where there was no room.
pub proof fn law_unsent_message_comes_back<T>(
    outcome: SendOutcome<T>,
    before: GlobalMetrics,
    after: GlobalMetrics,
    r: Result<(), T>,
    msg: T,
)
    requires
        settled_or_drop(outcome, before, after, r),
    ensures
        r is Ok <==> outcome is Sent,
        outcome == SendOutcome::Full(msg) ==> r == Err::<(), T>(msg) && (before.dropped_intents@
            < u64::MAX ==> after.dropped_intents@ == before.dropped_intents@ + 1),
        outcome == SendOutcome::Disconnected(msg) ==> r == Err::<(), T>(msg),
        !(outcome is Full) ==> after == before,
        after.errors@ == before.errors@,
{
}

/// What each outcome is called: no room is a drop, no time left a timeout, and nobody there a
/// disconnection; the message itself goes with it.
pub proof fn law_outcomes_have_their_names<T>(msg: T)
    ensures
        last_result(SendOutcome::<T>::Sent) is Ok,
        last_result(SendOutcome::Full(msg)) == Err::<(), _>(PolicySendError::Dropped(msg)),
        last_result(SendOutcome::Disconnected(msg)) == Err::<(), _>(
            PolicySendError::Disconnected(msg),
        ),
        timed_result(TimedOutcome::<T>::Sent) is Ok,
        timed_result(TimedOutcome::Timeout(msg)) == Err::<(), _>(PolicySendError::Timeout(msg)),
        timed_result(TimedOutcome::Disconnected(msg)) == Err::<(), _>(
            PolicySendError::Disconnected(msg),
        ),
{
}

/// How a message is sent under each policy. Where the newest gives way, and where there is nothing to
/// take out, it is tried once and dropped where there is no room. Where the oldest gives way, one is
/// taken out where there is no room, counted as dropped, and the message tried again. Where sending
/// may block, it is tried for the given time, and nothing is dropped.
pub proof fn law_policy_decides_what_gives_way<T>(
    tx: &Sender<T>,
    rx: &Receiver<T>,
    msg: T,
    timeout_ms: u64,
    before: GlobalMetrics,
    after: GlobalMetrics,
    r: Result<(), PolicySendError<T>>,
)
    ensures
        policy_followed(BackpressurePolicy::DropNewest, tx, Some(rx), msg, before, after, r)
            ==> exists|o: SendOutcome<T>| #[trigger]
            tried(tx, msg, o) && (r is Ok <==> o is Sent) && (o is Full ==> r->Err_0 is Dropped
                && (before.dropped_intents@ < u64::MAX ==> after.dropped_intents@
                == before.dropped_intents@ + 1)) && (o is Disconnected ==> r->Err_0
                is Disconnected) && (!(o is Full) ==> after == before),
        policy_followed(BackpressurePolicy::PrioritizeCritical, tx, Some(rx), msg, before, after, r)
            ==> policy_followed(BackpressurePolicy::DropNewest, tx, Some(rx), msg, before, after, r),
        policy_followed(
            BackpressurePolicy::BlockWithTimeoutMs(timeout_ms),
            tx,
            Some(rx),
            msg,
            before,
            after,
            r,
        ) ==> after == before && exists|o: TimedOutcome<T>| #[trigger]
            tried_within(tx, msg, timeout_ms, o) && (r is Ok <==> o is Sent) && (o is Timeout
                ==> r->Err_0 is Timeout) && (o is Disconnected ==> r->Err_0 is Disconnected),
        policy_followed(BackpressurePolicy::DropOldest, tx, Some(rx), msg, before, after, r)
            ==> exists|o: SendOutcome<T>| #[trigger]
            tried(tx, msg, o) && (o is Sent ==> r is Ok && after == before) && (o is Disconnected
                ==> r is Err && r->Err_0 is Disconnected && after == before) && (o is Full
                ==> exists|taken: Option<T>| #[trigger]
                took(rx, taken) && (taken is None ==> r == Err::<(), _>(
                    PolicySendError::Dropped(msg),
                ) && after == before) && (taken is Some ==> (before.dropped_intents@ < u64::MAX
                    ==> after.dropped_intents@ == before.dropped_intents@ + 1) && exists|
                    p: SendOutcome<T>,
                | #[trigger] tried(tx, msg, p) && (r is Ok <==> p is Sent) && (p is Full
                    ==> r->Err_0 is Dropped) && (p is Disconnected ==> r->Err_0 is Disconnected))),
        policy_followed(BackpressurePolicy::DropOldest, tx, None, msg, before, after, r)
            ==> policy_followed(BackpressurePolicy::DropNewest, tx, None, msg, before, after, r),
        critical_policy(BackpressurePolicy::PrioritizeCritical) is DropOldest,
        critical_policy(BackpressurePolicy::DropNewest) is DropNewest,
        critical_policy(BackpressurePolicy::DropOldest) is DropOldest,
        critical_policy(BackpressurePolicy::BlockWithTimeoutMs(timeout_ms))
            == BackpressurePolicy::BlockWithTimeoutMs(timeout_ms),
{
}

} // verus!
