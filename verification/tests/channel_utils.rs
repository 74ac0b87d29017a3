use crossbeam_channel::bounded;

use unified_trading::channel_utils::{
    send_with_policy, send_with_policy_critical, settle_or_drop, take_in,
    try_send_drop_oldest, try_send_or_drop, PolicySendError, SendOutcome,
};
use unified_trading::config::BackpressurePolicy;
use unified_trading::metrics::GlobalMetrics;

#[test]
fn test_try_send_or_drop_success() {
    let (tx, rx) = bounded::<i32>(10);
    let mut metrics = GlobalMetrics::new();
    let result = try_send_or_drop(&tx, 42, &mut metrics);
    assert!(result.is_ok());
    assert_eq!(rx.try_recv().unwrap(), 42);
}

#[test]
fn test_try_send_or_drop_full() {
    let (tx, _rx) = bounded::<i32>(1);
    let mut metrics = GlobalMetrics::new();
    tx.try_send(1).unwrap();

    let result = try_send_or_drop(&tx, 2, &mut metrics);
    assert!(result.is_err());
}

#[test]
fn test_try_send_drop_oldest() {
    let (tx, rx) = bounded::<i32>(2);
    let mut metrics = GlobalMetrics::new();
    tx.try_send(1).unwrap();
    tx.try_send(2).unwrap();

    let result = try_send_drop_oldest(&tx, &rx, 3, &mut metrics);
    assert!(result.is_ok());

    assert_eq!(rx.try_recv().unwrap(), 2);
    assert_eq!(rx.try_recv().unwrap(), 3);
}

#[test]
fn test_drop_oldest_retains_newest_100_after_200_sends() {
    let (tx, rx) = bounded::<u64>(100);
    let mut metrics = GlobalMetrics::new();
    for i in 0..200u64 {
        let res =
            send_with_policy(&tx, Some(&rx), i, &BackpressurePolicy::DropOldest, &mut metrics);
        assert!(res.is_ok());
    }

    let mut out = Vec::new();
    while let Ok(v) = rx.try_recv() {
        out.push(v);
    }

    assert_eq!(out.len(), 100);
    assert_eq!(out[0], 100);
    assert_eq!(out[99], 199);
}

#[test]
fn test_block_with_timeout_times_out_when_full() {
    let (tx, _rx) = bounded::<u64>(1);
    let mut metrics = GlobalMetrics::new();
    tx.send(1).unwrap();

    let res = send_with_policy(
        &tx,
        None,
        2,
        &BackpressurePolicy::BlockWithTimeoutMs(5),
        &mut metrics,
    );

    match res {
        Err(PolicySendError::Timeout(v)) => assert_eq!(v, 2),
        other => panic!("expected timeout, got {:?}", other),
    }
}

#[test]
fn a_message_without_receivers_comes_back() {
    let (tx, rx) = bounded::<u64>(1);
    drop(rx);
    let mut metrics = GlobalMetrics::new();
    for policy in [
        BackpressurePolicy::DropNewest,
        BackpressurePolicy::DropOldest,
        BackpressurePolicy::BlockWithTimeoutMs(1),
    ] {
        match send_with_policy(&tx, None, 7, &policy, &mut metrics) {
            Err(PolicySendError::Disconnected(v)) => assert_eq!(v, 7),
            other => panic!("expected disconnected, got {:?}", other),
        }
    }
    assert_eq!(metrics.dropped_intents.load(), 0);
}

#[test]
fn a_dropped_message_is_counted() {
    let (tx, _rx) = bounded::<u64>(1);
    let mut metrics = GlobalMetrics::new();
    tx.send(1).unwrap();
    match send_with_policy(&tx, None, 2, &BackpressurePolicy::DropNewest, &mut metrics) {
        Err(PolicySendError::Dropped(v)) => assert_eq!(v, 2),
        other => panic!("expected dropped, got {:?}", other),
    }
    assert_eq!(metrics.dropped_intents.load(), 1);
    assert_eq!(settle_or_drop(SendOutcome::Full(9), &mut metrics), Err(9));
    assert_eq!(metrics.dropped_intents.load(), 2);
}

#[test]
fn critical_messages_are_sent_or_come_back() {
    let (tx, rx) = bounded::<u64>(1);
    let mut metrics = GlobalMetrics::new();
    assert!(send_with_policy_critical(
        &tx,
        Some(&rx),
        1,
        &BackpressurePolicy::BlockWithTimeoutMs(5),
        &mut metrics
    )
    .is_ok());
    assert_eq!(rx.try_recv().unwrap(), 1);
}

#[test]
fn messages_stay_in_the_order_in_which_they_came() {
    let mut buf = vec![1];
    assert!(take_in(&mut buf, Some(2)));
    assert!(take_in(&mut buf, Some(3)));
    assert!(!take_in(&mut buf, None));
    assert_eq!(buf, vec![1, 2, 3]);
}
