use std::time::{Duration, Instant};

use futures::channel::oneshot;
use futures::executor::{block_on, LocalPool};
use futures::task::LocalSpawnExt;
use futures::future::{AbortHandle, Abortable, Aborted};

use wasm_tasks::task::{
    blocking_join_outcome, blocking_work, cancellable_work, deliver, deliver_value, join_outcome,
    record_poll, settle_promise_join, Delivery, JoinError,
};
use wasm_bindgen::JsValue;

#[test]
fn join_error_messages() {
    assert_eq!(JoinError::Aborted.message(), "thread was aborted");
    assert_eq!(JoinError::Panic.message(), "thread panicked");
}

#[test]
fn join_error_into_io_error() {
    let err: std::io::Error = JoinError::Aborted.into();
    assert_eq!(err.kind(), std::io::ErrorKind::Other);
    assert_eq!(err.to_string(), "thread was aborted");
    let err: std::io::Error = JoinError::Panic.into();
    assert_eq!(err.to_string(), "thread panicked");
}

#[test]
fn join_outcome_classifies_each_case() {
    assert_eq!(join_outcome::<u32>(None, Ok(5), false), Ok(5));
    assert_eq!(join_outcome::<u32>(None, Ok(5), true), Ok(5));
    assert_eq!(join_outcome::<u32>(None, Err(oneshot::Canceled), true), Err(JoinError::Aborted));
    assert_eq!(join_outcome::<u32>(None, Err(oneshot::Canceled), false), Err(JoinError::Panic));
    assert_eq!(join_outcome::<u32>(Some(3), Err(oneshot::Canceled), true), Ok(3));
    assert_eq!(join_outcome::<u32>(Some(3), Err(oneshot::Canceled), false), Ok(3));
    assert_eq!(blocking_join_outcome::<u32>(None, Ok(7)), Ok(7));
    assert_eq!(blocking_join_outcome::<u32>(None, Err(oneshot::Canceled)), Err(JoinError::Panic));
    assert_eq!(blocking_join_outcome::<u32>(Some(2), Err(oneshot::Canceled)), Ok(2));
}

#[test]
fn deliver_value_sends_to_open_channel() {
    let (tx, mut rx) = oneshot::channel::<u32>();
    assert_eq!(deliver_value(tx, 9), Delivery::Sent);
    assert_eq!(rx.try_recv(), Ok(Some(9)));
}

#[test]
fn deliver_value_refused_by_closed_channel() {
    let (tx, mut rx) = oneshot::channel::<u32>();
    rx.close();
    assert_eq!(deliver_value(tx, 9), Delivery::Refused);
    assert_eq!(rx.try_recv(), Err(oneshot::Canceled));
}

#[test]
fn deliver_drops_producer_on_abort() {
    let (tx, mut rx) = oneshot::channel::<u32>();
    assert_eq!(deliver(tx, Err(Aborted)), Delivery::Cancelled);
    assert_eq!(rx.try_recv(), Err(oneshot::Canceled));
    let (tx, mut rx) = oneshot::channel::<u32>();
    assert_eq!(deliver(tx, Ok(3)), Delivery::Sent);
    assert_eq!(rx.try_recv(), Ok(Some(3)));
}

#[test]
fn cancellable_work_joins_to_value() {
    let (work, handle) = cancellable_work(async { 1 });
    assert!(!handle.aborted());
    block_on(work);
    assert_eq!(block_on(handle.join()), Ok(1));
}

#[test]
fn blocking_work_joins_to_value() {
    let (work, handle) = blocking_work(|| 1);
    work();
    assert_eq!(block_on(handle.join()), Ok(1));
}

#[test]
fn blocking_work_waits_for_slow_computation() {
    let start = Instant::now();
    let (work, handle) = blocking_work(|| {
        while start.elapsed() < Duration::from_millis(100) {}
        1
    });
    work();
    assert_eq!(block_on(handle.join()), Ok(1));
    assert!(start.elapsed() >= Duration::from_millis(100));
}

#[test]
fn abort_before_start_joins_as_aborted() {
    let start = Instant::now();
    let (work, mut handle) = cancellable_work(async {
        futures::future::pending::<()>().await;
        1
    });
    assert!(!handle.is_finished());
    handle.abort();
    assert!(handle.is_finished());
    assert!(handle.aborted());
    block_on(work);
    assert!(handle.is_finished());
    assert_eq!(block_on(handle.join()), Err(JoinError::Aborted));
    assert!(start.elapsed() < Duration::from_millis(1000));
}

#[test]
fn abort_twice_is_harmless() {
    let (work, mut handle) = cancellable_work(async { 2 });
    handle.abort();
    handle.abort();
    assert!(handle.aborted());
    assert!(handle.is_finished());
    block_on(work);
    assert_eq!(block_on(handle.join()), Err(JoinError::Aborted));
}

#[test]
fn abort_after_completion_keeps_value() {
    let (work, mut handle) = cancellable_work(async { 4 });
    block_on(work);
    handle.abort();
    assert!(handle.aborted());
    assert!(handle.is_finished());
    assert_eq!(block_on(handle.join()), Ok(4));
}

#[test]
fn dropped_work_joins_as_panic() {
    let (work, mut handle) = cancellable_work(async { 5 });
    drop(work);
    assert!(handle.is_finished());
    assert_eq!(block_on(handle.join()), Err(JoinError::Panic));
}

#[test]
fn dropped_blocking_work_joins_as_panic() {
    let (work, mut handle) = blocking_work(|| 6);
    assert!(!handle.is_finished());
    drop(work);
    assert!(handle.is_finished());
    assert_eq!(block_on(handle.join()), Err(JoinError::Panic));
}

#[test]
fn is_finished_stays_true_once_producer_gone() {
    let (work, mut handle) = cancellable_work(async { 7 });
    assert!(!handle.is_finished());
    drop(work);
    assert!(handle.is_finished());
    assert!(handle.is_finished());
}

#[test]
fn nested_task_survives_outer_abort() {
    let mut pool = LocalPool::new();
    let spawner = pool.spawner();
    let inner_spawner = spawner.clone();
    let (handle_tx, handle_rx) = oneshot::channel();
    let (outer_work, mut outer_handle) = cancellable_work(async move {
        let (inner_work, inner_handle) = cancellable_work(async { 8 });
        inner_spawner.spawn_local(inner_work).unwrap();
        let _ = handle_tx.send(inner_handle);
        futures::future::pending::<()>().await;
        0
    });
    spawner.spawn_local(outer_work).unwrap();
    pool.run_until_stalled();
    outer_handle.abort();
    pool.run_until_stalled();
    let inner_handle = block_on(handle_rx).unwrap();
    assert!(!inner_handle.aborted());
    assert_eq!(block_on(inner_handle.join()), Ok(8));
    assert_eq!(block_on(outer_handle.join()), Err(JoinError::Aborted));
}

#[test]
fn nested_task_joins_inside_outer() {
    let (outer_work, outer_handle) = cancellable_work(async move {
        let (inner_work, inner_handle) = cancellable_work(async { 1 });
        inner_work.await;
        inner_handle.join().await.unwrap()
    });
    block_on(outer_work);
    assert_eq!(block_on(outer_handle.join()), Ok(1));
}

#[test]
fn nested_blocking_task_joins_inside_outer() {
    let (outer_work, outer_handle) = cancellable_work(async move {
        let (inner_work, inner_handle) = blocking_work(|| 1);
        inner_work();
        inner_handle.join().await
    });
    block_on(outer_work);
    assert_eq!(block_on(outer_handle.join()), Ok(Ok(1)));
}

#[test]
fn abortable_from_futures_matches_delivery() {
    let (abort_handle, registration) = AbortHandle::new_pair();
    abort_handle.abort();
    let outcome = block_on(Abortable::new(async { 1 }, registration));
    let (tx, mut rx) = oneshot::channel::<u32>();
    assert_eq!(deliver(tx, outcome), Delivery::Cancelled);
    assert_eq!(rx.try_recv(), Err(oneshot::Canceled));
}


#[test]
fn settle_promise_join_passes_value_and_rejection_through() {
    assert!(settle_promise_join(Ok(Ok(JsValue::NULL))).is_ok());
    assert!(settle_promise_join(Ok(Err(JsValue::UNDEFINED))).is_err());
}

#[test]
fn record_poll_keeps_what_it_finds() {
    assert_eq!(record_poll::<u32>(None, false, Ok(Some(4))), (Some(4), false));
    assert_eq!(record_poll::<u32>(None, false, Ok(None)), (None, false));
    assert_eq!(record_poll::<u32>(None, false, Err(oneshot::Canceled)), (None, true));
    assert_eq!(record_poll::<u32>(Some(1), false, Err(oneshot::Canceled)), (Some(1), true));
    assert_eq!(record_poll::<u32>(Some(1), false, Ok(None)), (Some(1), false));
}

#[test]
fn waiting_value_counts_as_finished() {
    let (work, mut handle) = cancellable_work(async { 10 });
    assert!(!handle.is_finished());
    block_on(work);
    assert!(handle.is_finished());
    assert!(handle.is_finished());
    assert_eq!(block_on(handle.join()), Ok(10));
}

#[test]
fn waiting_value_survives_later_abort() {
    let (work, mut handle) = cancellable_work(async { 11 });
    block_on(work);
    assert!(handle.is_finished());
    handle.abort();
    assert!(handle.is_finished());
    assert_eq!(block_on(handle.join()), Ok(11));
}

#[test]
fn blocking_waiting_value_counts_as_finished() {
    let (work, mut handle) = blocking_work(|| 12);
    assert!(!handle.is_finished());
    work();
    assert!(handle.is_finished());
    assert!(handle.is_finished());
    assert_eq!(block_on(handle.join()), Ok(12));
}
