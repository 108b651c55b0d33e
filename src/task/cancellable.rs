//! The join handle of work that can be aborted.

use vstd::prelude::*;

verus! {

use vstd::future::FutureAdditionalSpecFns;

use crate::deps::then_apply;
use crate::task::{
    delivered_value, first_value, join_outcome, join_result, after_poll, record_poll, JoinError,
};

/// Owns the receiving end of a task's result channel and the signaler of its
/// abort control, with what the handle has already seen of the channel.
#[verifier::reject_recursive_types(T)]
pub struct JoinHandle<T> {
    abort_handle: futures::future::AbortHandle,
    aborted: bool,
    rx: futures::channel::oneshot::Receiver<T>,
    kept: Option<T>,
    gone: bool,
}

impl<T> JoinHandle<T> {
    /// Whether `abort` has been called on this handle.
    pub closed spec fn abort_requested(&self) -> bool {
        self.aborted
    }

    /// The delivered value that the handle has already taken out of the
    /// channel, if any.
    pub closed spec fn kept_value(&self) -> Option<T> {
        self.kept
    }

    /// Whether the handle has found the channel complete with nothing in it:
    /// the producer went away unsent, or the handle closed it.
    pub closed spec fn gone_seen(&self) -> bool {
        self.gone
    }

    /// Whether the handle is done: aborted, holding a delivered value, or
    /// with a channel that can deliver nothing more.
    pub open spec fn finished(&self) -> bool {
        self.abort_requested() || self.kept_value() is Some || self.gone_seen()
    }

    /// `self` is `earlier` after one look at the channel that answered some
    /// `try_recv` result.
    pub open spec fn polled_from(&self, earlier: &Self) -> bool {
        &&& self.abort_requested() == earlier.abort_requested()
        &&& exists|p: Result<Option<T>, futures::channel::oneshot::Canceled>|
            (self.kept_value(), self.gone_seen()) == #[trigger] after_poll(
                earlier.kept_value(),
                earlier.gone_seen(),
                p,
            )
    }

    /// `self` is a later state of `earlier`: nothing the handle knew is lost.
    pub open spec fn progressed_from(&self, earlier: &Self) -> bool {
        &&& earlier.abort_requested() ==> self.abort_requested()
        &&& earlier.kept_value() is Some ==> self.kept_value() == earlier.kept_value()
        &&& earlier.gone_seen() ==> self.gone_seen()
    }

    /// What `join` yields when the channel delivers `delivered` (`None`: the
    /// producer went away unsent).
    pub open spec fn outcome(&self, delivered: Option<T>) -> Result<T, JoinError> {
        join_result(self.abort_requested(), first_value(self.kept_value(), delivered))
    }

    /// A handle on which nothing has happened yet.
    pub(crate) fn new(
        abort_handle: futures::future::AbortHandle,
        rx: futures::channel::oneshot::Receiver<T>,
    ) -> (r: Self)
        ensures
            !r.abort_requested(),
            r.kept_value() is None,
            !r.gone_seen(),
    {
        JoinHandle { abort_handle, aborted: false, rx, kept: None, gone: false }
    }

    /// Whether `abort` has been called on this handle.
    pub fn aborted(&self) -> (r: bool)
        ensures
            r == self.abort_requested(),
    {
        self.aborted
    }

    /// Waits for the work to end. A value the handle already holds is
    /// returned; otherwise the channel's value, or, when none comes,
    /// `Aborted` after an abort and `Panic` without one.
    pub fn join(self) -> (r: impl std::future::Future<Output = Result<T, JoinError>>)
        ensures
            match self.kept_value() {
                Some(k) => r@ == Ok::<T, JoinError>(k),
                None => match r@ {
                    Ok(_) => true,
                    Err(e) => e == (if self.abort_requested() {
                        JoinError::Aborted
                    } else {
                        JoinError::Panic
                    }),
                },
            },
    {
        let aborted = self.aborted;
        let kept = self.kept;
        let classify = move |delivered: Result<T, futures::channel::oneshot::Canceled>| -> (o: Result<
            T,
            JoinError,
        >)
            ensures
                o == join_result(aborted, first_value(kept, delivered_value(delivered))),
            { join_outcome(kept, delivered, aborted) };
        then_apply(self.rx, classify)
    }

    /// Asks the work to stop at its next suspension point and closes the
    /// channel, so that no later send can succeed. Calling it again changes
    /// nothing.
    pub fn abort(&mut self)
        ensures
            final(self).abort_requested(),
            final(self).kept_value() == old(self).kept_value(),
            final(self).gone_seen() == old(self).gone_seen(),
            final(self).progressed_from(old(self)),
            final(self).finished(),
    {
        self.abort_handle.abort();
        self.aborted = true;
        self.rx.close();
    }

    /// Whether the handle is done. Looks at the channel once: a delivered
    /// value is taken out and kept for `join`, and an empty completed channel
    /// is remembered. Once true, it stays true. Whatever the channel answers,
    /// what `join` later yields is unchanged (`lemma_poll_keeps_join_result`).
    pub fn is_finished(&mut self) -> (r: bool)
        ensures
            r == final(self).finished(),
            final(self).progressed_from(old(self)),
            final(self).polled_from(old(self)),
            final(self).abort_requested() == old(self).abort_requested(),
            old(self).finished() ==> r,
    {
        let polled = self.rx.try_recv();
        let ghost p = polled;
        let kept = self.kept.take();
        let (kept, gone) = record_poll(kept, self.gone, polled);
        assert((kept, gone) == after_poll(old(self).kept, old(self).gone, p));
        self.kept = kept;
        self.gone = gone;
        assert((self.kept_value(), self.gone_seen()) == after_poll(
            old(self).kept_value(),
            old(self).gone_seen(),
            p,
        ));
        self.aborted || self.kept.is_some() || self.gone
    }
}

} // verus!
