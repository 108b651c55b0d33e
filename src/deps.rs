//! The outside items that the task logic calls, with what this library
//! relies on about each.

use vstd::future::FutureAdditionalSpecFns;
use vstd::prelude::*;

verus! {

#[verifier::external_type_specification]
#[verifier::external_body]
#[verifier::reject_recursive_types(T)]
pub struct ExReceiver<T>(futures::channel::oneshot::Receiver<T>);

#[verifier::external_type_specification]
#[verifier::external_body]
#[verifier::reject_recursive_types(T)]
pub struct ExSender<T>(futures::channel::oneshot::Sender<T>);

#[verifier::external_type_specification]
#[verifier::external_body]
pub struct ExCanceled(futures::channel::oneshot::Canceled);

#[verifier::external_type_specification]
#[verifier::external_body]
pub struct ExAbortHandle(futures::future::AbortHandle);

#[verifier::external_type_specification]
#[verifier::external_body]
pub struct ExAbortRegistration(futures::future::AbortRegistration);

#[verifier::external_type_specification]
#[verifier::external_body]
#[verifier::reject_recursive_types(T)]
pub struct ExAbortable<T>(futures::future::Abortable<T>);

#[verifier::external_type_specification]
#[verifier::external_body]
pub struct ExAborted(futures::future::Aborted);

/// Relies on `futures::channel::oneshot::channel`: creates the two linked
/// ends of a fresh one-shot channel.
pub assume_specification<T>[ futures::channel::oneshot::channel::<T> ]() -> (
    futures::channel::oneshot::Sender<T>,
    futures::channel::oneshot::Receiver<T>,
);

/// Relies on `oneshot::Sender::send`: either the value is enqueued for the
/// receiver (`Ok`), or the receiver is gone and the same value comes back.
pub assume_specification<T>[ futures::channel::oneshot::Sender::<T>::send ](
    tx: futures::channel::oneshot::Sender<T>,
    t: T,
) -> (r: Result<(), T>)
    ensures
        match r {
            Ok(_) => true,
            Err(back) => back == t,
        },
;

/// Relies on `oneshot::Receiver::close`: every later send on the channel fails.
pub assume_specification<T>[ futures::channel::oneshot::Receiver::<T>::close ](
    rx: &mut futures::channel::oneshot::Receiver<T>,
);

/// Relies on `AbortHandle::new_pair`: a fresh, linked abort signaler and
/// registration.
pub assume_specification[ futures::future::AbortHandle::new_pair ]() -> (
    futures::future::AbortHandle,
    futures::future::AbortRegistration,
);

/// Relies on `AbortHandle::abort`: raises the shared abort flag and wakes the
/// wrapped work.
pub assume_specification[ futures::future::AbortHandle::abort ](h: &futures::future::AbortHandle);

/// Relies on `Abortable::new`: wraps `task` so that it checks the
/// registration's abort flag each time it is polled.
pub assume_specification<T>[ futures::future::Abortable::<T>::new ](
    task: T,
    reg: futures::future::AbortRegistration,
) -> futures::future::Abortable<T>;

/// Relies on `wasm_bindgen_futures::spawn_local`: queues `work` on the
/// current thread's scheduler.
#[verifier::external_body]
pub(crate) fn schedule_local<W>(work: W)
    where
        W: std::future::Future<Output = ()> + 'static,
{
    wasm_bindgen_futures::spawn_local(work)
}

/// Relies on `FutureExt::map`: the returned future awaits `fut` and yields
/// `f` applied to its output.
#[verifier::external_body]
pub(crate) fn then_apply<Fut, G, U>(fut: Fut, f: G) -> (r: impl std::future::Future<Output = U>)
    where
        Fut: std::future::Future,
        G: FnOnce(Fut::Output) -> U,
    requires
        forall|o: Fut::Output| f.requires((o,)),
    ensures
        f.ensures((fut@,), r@),
{
    futures::FutureExt::map(fut, f)
}

/// Relies on `oneshot::Receiver::try_recv`: takes a waiting value out
/// (`Ok(Some)`), reports that nothing has come yet (`Ok(None)`), or that the
/// channel is complete with nothing in it (`Err`). The other end may change
/// the answer at any moment, so nothing is stated of it.
pub assume_specification<T>[ futures::channel::oneshot::Receiver::<T>::try_recv ](
    rx: &mut futures::channel::oneshot::Receiver<T>,
) -> Result<Option<T>, futures::channel::oneshot::Canceled>;

#[verifier::external_type_specification]
#[verifier::external_body]
pub struct ExIoError(std::io::Error);

#[verifier::external_type_specification]
#[verifier::external_body]
pub struct ExJsValue(wasm_bindgen::JsValue);

/// Relies on `std::io::Error::other`: an error of kind `Other` carrying `msg`.
#[verifier::external_body]
pub(crate) fn io_error_other(msg: &'static str) -> std::io::Error {
    std::io::Error::other(msg)
}

/// Relies on `JsValue::from_str`: a JavaScript string holding `s`.
#[verifier::external_body]
pub(crate) fn js_string(s: &str) -> wasm_bindgen::JsValue {
    wasm_bindgen::JsValue::from_str(s)
}

} // verus!
