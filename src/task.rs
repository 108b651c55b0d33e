//! Spawning work, and the rules that decide what a join yields.

use vstd::prelude::*;

pub mod blocking;
pub mod cancellable;

pub use crate::task::cancellable::JoinHandle;

verus! {

use crate::deps::{io_error_other, js_string, schedule_local, then_apply};

/// Why a join produced no value.
#[derive(PartialEq, Eq, Structural, Debug, Clone, Copy)]
pub enum JoinError {
    /// The handle's own `abort` was called and no value arrived.
    Aborted,
    /// The work ended without sending a value, and no abort was asked for.
    Panic,
}

impl JoinError {
    /// The text that stands for this error where a host wants a message.
    pub open spec fn message_spec(self) -> Seq<char> {
        match self {
            JoinError::Aborted => "thread was aborted"@,
            JoinError::Panic => "thread panicked"@,
        }
    }

    pub fn message(&self) -> (r: &'static str)
        ensures
            r@ == self.message_spec(),
    {
        match self {
            JoinError::Aborted => {
                proof {
                    reveal_strlit("thread was aborted");
                }
                "thread was aborted"
            },
            JoinError::Panic => {
                proof {
                    reveal_strlit("thread panicked");
                }
                "thread panicked"
            },
        }
    }
}

impl From<JoinError> for std::io::Error {
    fn from(err: JoinError) -> Self {
        io_error_other(err.message())
    }
}

impl vstd::std_specs::convert::FromSpecImpl<JoinError> for std::io::Error {
    open spec fn obeys_from_spec() -> bool {
        false
    }

    open spec fn from_spec(v: JoinError) -> Self {
        arbitrary()
    }
}

impl From<JoinError> for wasm_bindgen::JsValue {
    fn from(err: JoinError) -> Self {
        js_string(err.message())
    }
}

impl vstd::std_specs::convert::FromSpecImpl<JoinError> for wasm_bindgen::JsValue {
    open spec fn obeys_from_spec() -> bool {
        false
    }

    open spec fn from_spec(v: JoinError) -> Self {
        arbitrary()
    }
}

/// Settles the join of a promise-backed task as the promise itself would:
/// its value or its rejection as they are, a join error as a rejection that
/// carries the error's message.
pub fn settle_promise_join(
    joined: Result<Result<wasm_bindgen::JsValue, wasm_bindgen::JsValue>, JoinError>,
) -> (r: Result<wasm_bindgen::JsValue, wasm_bindgen::JsValue>)
    ensures
        match joined {
            Ok(Ok(v)) => r == Ok::<wasm_bindgen::JsValue, wasm_bindgen::JsValue>(v),
            Ok(Err(e)) => r == Err::<wasm_bindgen::JsValue, wasm_bindgen::JsValue>(e),
            Err(_) => r is Err,
        },
{
    match joined {
        Ok(Ok(value)) => Ok(value),
        Ok(Err(rejection)) => Err(rejection),
        Err(err) => Err(wasm_bindgen::JsValue::from(err)),
    }
}

/// What the result channel handed over: the value, or `None` when the
/// producer went away without sending.
pub open spec fn delivered_value<T>(delivered: Result<T, futures::channel::oneshot::Canceled>) -> Option<T> {
    match delivered {
        Ok(v) => Some(v),
        Err(_) => None,
    }
}

/// The value a join hands back: one the handle already took out of the
/// channel comes first, then whatever the channel delivers.
pub open spec fn first_value<T>(kept: Option<T>, delivered: Option<T>) -> Option<T> {
    match kept {
        Some(v) => Some(v),
        None => delivered,
    }
}

/// What joining a handle yields: a value always wins; without one, the
/// handle's own abort request makes it `Aborted`, and anything else is a
/// `Panic`.
pub open spec fn join_result<T>(aborted: bool, value: Option<T>) -> Result<T, JoinError> {
    match value {
        Some(v) => Ok(v),
        None => Err(if aborted { JoinError::Aborted } else { JoinError::Panic }),
    }
}

/// What a handle knows of its channel after one more look at it: a value
/// already kept stays; otherwise a value taken out is kept. A channel found
/// complete and empty is remembered as gone.
pub open spec fn after_poll<T>(
    kept: Option<T>,
    gone: bool,
    polled: Result<Option<T>, futures::channel::oneshot::Canceled>,
) -> (Option<T>, bool) {
    match polled {
        Ok(Some(v)) => (first_value(kept, Some(v)), gone),
        Ok(None) => (kept, gone),
        Err(_) => (kept, true),
    }
}

/// Records what one look at the channel (`try_recv`) found.
pub fn record_poll<T>(
    kept: Option<T>,
    gone: bool,
    polled: Result<Option<T>, futures::channel::oneshot::Canceled>,
) -> (r: (Option<T>, bool))
    ensures
        r == after_poll(kept, gone, polled),
{
    match polled {
        Ok(Some(v)) => match kept {
            Some(k) => (Some(k), gone),
            None => (Some(v), gone),
        },
        Ok(None) => (kept, gone),
        Err(_) => (kept, true),
    }
}

/// Classifies the end of a cancellable handle's join, given the value the
/// handle may already hold and what its channel yielded.
pub fn join_outcome<T>(
    kept: Option<T>,
    delivered: Result<T, futures::channel::oneshot::Canceled>,
    aborted: bool,
) -> (r: Result<T, JoinError>)
    ensures
        r == join_result(aborted, first_value(kept, delivered_value(delivered))),
{
    match kept {
        Some(v) => Ok(v),
        None => match delivered {
            Ok(v) => Ok(v),
            Err(_) => {
                if aborted {
                    Err(JoinError::Aborted)
                } else {
                    Err(JoinError::Panic)
                }
            },
        },
    }
}

/// Classifies the end of a blocking handle's join: it cannot be aborted, so
/// a missing value is always a `Panic`.
pub fn blocking_join_outcome<T>(
    kept: Option<T>,
    delivered: Result<T, futures::channel::oneshot::Canceled>,
) -> (r: Result<T, JoinError>)
    ensures
        r == join_result(false, first_value(kept, delivered_value(delivered))),
{
    join_outcome(kept, delivered, false)
}

/// What became of a finished piece of work's result.
#[derive(PartialEq, Eq, Structural, Debug, Clone, Copy)]
pub enum Delivery {
    /// The value was enqueued for the handle.
    Sent,
    /// The handle had already closed the channel; the value was dropped.
    Refused,
    /// The work was aborted; the producer was dropped without sending.
    Cancelled,
}

/// Hands a finished value to the result channel. Sending twice cannot happen:
/// the producer is consumed.
pub fn deliver_value<T>(producer: futures::channel::oneshot::Sender<T>, value: T) -> (r: Delivery)
    ensures
        r != Delivery::Cancelled,
{
    match producer.send(value) {
        Ok(()) => Delivery::Sent,
        Err(_) => Delivery::Refused,
    }
}

/// Feeds the outcome of abortable work to its result channel: a value is
/// sent, an abort drops the producer unsent.
pub fn deliver<T>(
    producer: futures::channel::oneshot::Sender<T>,
    outcome: Result<T, futures::future::Aborted>,
) -> (r: Delivery)
    ensures
        (r == Delivery::Cancelled) <==> outcome is Err,
{
    match outcome {
        Ok(value) => deliver_value(producer, value),
        Err(_) => Delivery::Cancelled,
    }
}

/// Wires `future` to a fresh result channel and abort control. Returns the
/// work to dispatch, which feeds the channel through `deliver` when it ends,
/// and the handle that owns the other ends.
pub fn cancellable_work<F>(future: F) -> (r: (impl std::future::Future<Output = ()>, JoinHandle<F::Output>))
    where
        F: std::future::Future,
    ensures
        !r.1.abort_requested(),
        r.1.kept_value() is None,
        !r.1.gone_seen(),
        !r.1.finished(),
{
    let (producer, rx) = futures::channel::oneshot::channel();
    let (abort_handle, registration) = futures::future::AbortHandle::new_pair();
    let work = futures::future::Abortable::new(future, registration);
    let fed = then_apply(work, move |outcome| { deliver(producer, outcome); });
    (fed, JoinHandle::new(abort_handle, rx))
}

/// Wires the blocking computation `f` to a fresh result channel. Returns the
/// work to dispatch, which hands the value to the channel through
/// `deliver_value`, and the handle that owns the receiving end.
pub fn blocking_work<T, W>(f: W) -> (r: (impl FnOnce(), blocking::JoinHandle<T>))
    where
        W: FnOnce() -> T,
    ensures
        r.1.kept_value() is None,
        !r.1.gone_seen(),
        !r.1.finished(),
        f.requires(()) ==> r.0.requires(()),
{
    let (producer, rx) = futures::channel::oneshot::channel();
    let work = move ||
        requires
            f.requires(()),
        {
            deliver_value(producer, f());
        };
    (work, blocking::JoinHandle::new(rx))
}

/// Runs `future` on the current thread's scheduler and returns a handle that
/// can be joined or aborted.
pub fn spawn_local<F>(future: F) -> (r: JoinHandle<F::Output>)
    where
        F: std::future::Future + 'static,
        F::Output: 'static,
    ensures
        !r.abort_requested(),
        r.kept_value() is None,
        !r.gone_seen(),
        !r.finished(),
{
    let (work, handle) = cancellable_work(future);
    schedule_local(work);
    handle
}

/// Work that completed with `v` is joined as `Ok(v)` by either kind of
/// handle: from the channel when the handle holds nothing yet, and whatever
/// the channel then yields when the handle already took `v` out.
pub proof fn lemma_completed_work_joins_to_its_value<T>(
    handle: JoinHandle<T>,
    blocking_handle: blocking::JoinHandle<T>,
    v: T,
)
    ensures
        handle.kept_value() is None ==> handle.outcome(Some(v)) == Ok::<T, JoinError>(v),
        handle.kept_value() == Some(v) ==> forall|d: Option<T>|
            handle.outcome(d) == Ok::<T, JoinError>(v),
        blocking_handle.kept_value() is None ==> blocking_handle.outcome(Some(v)) == Ok::<
            T,
            JoinError,
        >(v),
        blocking_handle.kept_value() == Some(v) ==> forall|d: Option<T>|
            blocking_handle.outcome(d) == Ok::<T, JoinError>(v),
{
}

/// A handle that was aborted before any value reached it is finished, and
/// joins as `Aborted` when the channel delivers nothing: never as `Panic`.
pub proof fn lemma_abort_before_delivery_joins_as_aborted<T>(handle: JoinHandle<T>)
    requires
        handle.abort_requested(),
        handle.kept_value() is None,
    ensures
        handle.finished(),
        handle.outcome(None) == Err::<T, JoinError>(JoinError::Aborted),
{
}

/// Aborting a handle whose work already delivered `v` does not change what
/// the join yields. `after` is any later state of `before` with an abort
/// requested: whether `before` already took `v` out of the channel, or `v`
/// still waits there and neither state has taken it.
pub proof fn lemma_abort_after_completion_keeps_value<T>(
    before: JoinHandle<T>,
    after: JoinHandle<T>,
    v: T,
)
    requires
        after.progressed_from(&before),
        after.abort_requested(),
    ensures
        before.kept_value() == Some(v) ==> forall|d: Option<T>|
            after.outcome(d) == before.outcome(d) && after.outcome(d) == Ok::<T, JoinError>(v),
        before.kept_value() is None && after.kept_value() is None ==> after.outcome(Some(v))
            == before.outcome(Some(v)),
{
}

/// Once a handle is finished, every later state of it is finished too.
pub proof fn lemma_finished_stays_finished<T>(
    before: JoinHandle<T>,
    after: JoinHandle<T>,
    blocking_before: blocking::JoinHandle<T>,
    blocking_after: blocking::JoinHandle<T>,
)
    requires
        after.progressed_from(&before),
        blocking_after.progressed_from(&blocking_before),
    ensures
        before.finished() ==> after.finished(),
        blocking_before.finished() ==> blocking_after.finished(),
{
}

/// What a handle yields depends on its own state alone: a handle with no
/// abort request of its own, such as one spawned inside work whose handle
/// was aborted, joins to its value, or to `Panic` when none comes.
pub proof fn lemma_unaborted_handle_joins_to_value_or_panic<T>(handle: JoinHandle<T>, v: T)
    requires
        !handle.abort_requested(),
        handle.kept_value() is None,
    ensures
        handle.outcome(Some(v)) == Ok::<T, JoinError>(v),
        handle.outcome(None) == Err::<T, JoinError>(JoinError::Panic),
{
}

/// One look at the channel by `is_finished` leaves what `join` yields
/// unchanged, whatever the channel answered. `after` is `before` once the
/// channel answered `polled`: a value taken out is the one the channel would
/// have delivered, and a channel found complete and empty would have
/// delivered nothing.
pub proof fn lemma_poll_keeps_join_result<T>(
    before: JoinHandle<T>,
    after: JoinHandle<T>,
    polled: Result<Option<T>, futures::channel::oneshot::Canceled>,
)
    requires
        after.abort_requested() == before.abort_requested(),
        (after.kept_value(), after.gone_seen()) == after_poll(
            before.kept_value(),
            before.gone_seen(),
            polled,
        ),
    ensures
        match polled {
            Ok(Some(v)) => forall|d: Option<T>| after.outcome(d) == before.outcome(Some(v)),
            Ok(None) => forall|d: Option<T>| after.outcome(d) == before.outcome(d),
            Err(_) => after.outcome(None) == before.outcome(None),
        },
{
}

/// The same for a blocking handle: one look at the channel leaves what
/// `join` yields unchanged, whatever the channel answered.
pub proof fn lemma_blocking_poll_keeps_join_result<T>(
    before: blocking::JoinHandle<T>,
    after: blocking::JoinHandle<T>,
    polled: Result<Option<T>, futures::channel::oneshot::Canceled>,
)
    requires
        (after.kept_value(), after.gone_seen()) == after_poll(
            before.kept_value(),
            before.gone_seen(),
            polled,
        ),
    ensures
        match polled {
            Ok(Some(v)) => forall|d: Option<T>| after.outcome(d) == before.outcome(Some(v)),
            Ok(None) => forall|d: Option<T>| after.outcome(d) == before.outcome(d),
            Err(_) => after.outcome(None) == before.outcome(None),
        },
{
}

} // verus!
