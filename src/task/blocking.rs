//! The join handle of blocking work, which cannot be aborted.

use vstd::prelude::*;

verus! {

use vstd::future::FutureAdditionalSpecFns;

use crate::deps::then_apply;
use crate::task::{
    after_poll, blocking_join_outcome, delivered_value, first_value, join_result, record_poll, JoinError,
};

/// Owns the receiving end of a blocking task's result channel, with what the
/// handle has already seen of it.
#[verifier::reject_recursive_types(T)]
pub struct JoinHandle<T> {
    rx: futures::channel::oneshot::Receiver<T>,
    kept: Option<T>,
    gone: bool,
}

impl<T> JoinHandle<T> {
    /// The delivered value that the handle has already taken out of the
    /// channel, if any.
    pub closed spec fn kept_value(&self) -> Option<T> {
        self.kept
    }

    /// Whether the handle has found the channel complete with nothing in it.
    pub closed spec fn gone_seen(&self) -> bool {
        self.gone
    }

    /// Whether the handle is done: holding a delivered value, or with a
    /// channel that can deliver nothing more.
    pub open spec fn finished(&self) -> bool {
        self.kept_value() is Some || self.gone_seen()
    }

    /// `self` is `earlier` after one look at the channel that answered some
    /// `try_recv` result.
    pub open spec fn polled_from(&self, earlier: &Self) -> bool {
        &&& exists|p: Result<Option<T>, futures::channel::oneshot::Canceled>|
            (self.kept_value(), self.gone_seen()) == #[trigger] after_poll(
                earlier.kept_value(),
                earlier.gone_seen(),
                p,
            )
    }

    /// `self` is a later state of `earlier`: nothing the handle knew is lost.
    pub open spec fn progressed_from(&self, earlier: &Self) -> bool {
        &&& earlier.kept_value() is Some ==> self.kept_value() == earlier.kept_value()
        &&& earlier.gone_seen() ==> self.gone_seen()
    }

    /// What `join` yields when the channel delivers `delivered`: without an
    /// abort control, a missing value is always a `Panic`.
    pub open spec fn outcome(&self, delivered: Option<T>) -> Result<T, JoinError> {
        join_result(false, first_value(self.kept_value(), delivered))
    }

    pub(crate) fn new(rx: futures::channel::oneshot::Receiver<T>) -> (r: Self)
        ensures
            r.kept_value() is None,
            !r.gone_seen(),
    {
        JoinHandle { rx, kept: None, gone: false }
    }

    /// Waits for the work to end. A value the handle already holds is
    /// returned; otherwise the channel's value, or `Panic` when none comes.
    pub fn join(self) -> (r: impl std::future::Future<Output = Result<T, JoinError>>)
        ensures
            match self.kept_value() {
                Some(k) => r@ == Ok::<T, JoinError>(k),
                None => r@ is Ok || r@ == Err::<T, JoinError>(JoinError::Panic),
            },
    {
        let kept = self.kept;
        let classify = move |delivered: Result<T, futures::channel::oneshot::Canceled>| -> (o: Result<
            T,
            JoinError,
        >)
            ensures
                o == join_result(false, first_value(kept, delivered_value(delivered))),
            { blocking_join_outcome(kept, delivered) };
        then_apply(self.rx, classify)
    }

    /// Whether the handle is done. Looks at the channel once: a delivered
    /// value is taken out and kept for `join`, and an empty completed channel
    /// is remembered. Once true, it stays true. Whatever the channel answers,
    /// what `join` later yields is unchanged (`lemma_blocking_poll_keeps_join_result`).
    pub fn is_finished(&mut self) -> (r: bool)
        ensures
            r == final(self).finished(),
            final(self).progressed_from(old(self)),
            final(self).polled_from(old(self)),
            old(self).finished() ==> r,
    {
        let polled = self.rx.try_recv();
        let ghost p = polled;
        let kept = self.kept.take();
        let (kept, gone) = record_poll(kept, self.gone, polled);
        assert((kept, gone) == after_poll(old(self).kept, old(self).gone, p));
        self.kept = kept;
        self.gone = gone;
        self.kept.is_some() || self.gone
    }
}

} // verus!
