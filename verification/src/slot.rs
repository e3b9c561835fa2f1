//! A slot that bridges a redraw loop to work done off its thread: it holds
//! at most one unit of work in flight and hands each result out once.

use poll_promise::Promise;
use vstd::prelude::*;

verus! {

/// `poll_promise::Promise`: the handle of one background computation. Verus
/// sees nothing of its inside; a slot only carries it.
#[verifier::external_type_specification]
#[verifier::external_body]
#[verifier::reject_recursive_types(T)]
pub struct ExPromise<T: Send + 'static>(Promise<T>);

/// What one poll of a slot reports.
#[derive(Debug)]
pub enum PollState<T> {
    /// Nothing is in flight: nothing was spawned, or the last result has
    /// been handed out.
    Idle,
    /// Work is in flight and has not finished.
    Pending,
    /// The work has finished; this is its result.
    Ready(T),
}

/// Holds the handle of the one unit of work that is in flight, if any.
#[verifier::reject_recursive_types(T)]
pub struct PromiseSlot<T: Send + 'static> {
    inflight: Option<Promise<T>>,
}

/// Whether a thread can bear the name: it holds no NUL character.
pub open spec fn thread_name(name: Seq<char>) -> bool {
    forall|i: int| 0 <= i < name.len() ==> name[i] != '\0'
}

/// `Promise::spawn_thread`: starts a thread of the given name that runs
/// `work` and sends what it returns to the promise handed back. Nothing is
/// claimed of that promise. The outside function panics on a name that
/// holds a NUL character, and where the system grants no thread. A `work`
/// that may be called returns or runs on, so the thread never drops its
/// sender before it has sent.
#[verifier::external_body]
fn start_thread<T, F>(name: &str, work: F) -> (promise: Promise<T>) where
    T: Send + 'static,
    F: FnOnce() -> T + Send + 'static,

    requires
        thread_name(name@),
        work.requires(()),
{
    Promise::spawn_thread(name, work)
}

/// `Promise::try_take`: a check that does not block. It gives the value if
/// the work has sent one, and the promise back, as it was, if not. Which of
/// the two depends on how far the work has come, so nothing more is claimed.
/// The outside function panics on a promise whose sender was dropped unsent;
/// `start_thread` makes none such.
#[verifier::external_body]
fn try_take<T: Send + 'static>(promise: Promise<T>) -> (taken: Result<T, Promise<T>>)
    ensures
        taken matches Err(back) ==> back == promise,
{
    promise.try_take()
}

impl<T: Send + 'static> PromiseSlot<T> {
    /// Whether work is in flight.
    pub closed spec fn is_pending(&self) -> bool {
        self.inflight is Some
    }

    /// An empty slot.
    pub fn new() -> (slot: Self)
        ensures
            !slot.is_pending(),
    {
        PromiseSlot { inflight: None }
    }

    /// Whether work is in flight. Does not look at how far the work is.
    pub fn pending(&self) -> (pending: bool)
        ensures
            pending == self.is_pending(),
    {
        self.inflight.is_some()
    }

    /// Starts `work` off the calling thread, on a thread of the given name,
    /// unless work is in flight already: then the attempt is rejected,
    /// `work` is never run and the slot stays as it is.
    ///
    /// `work` must return or run on. No contract can say that a closure
    /// does not unwind: a `work` that panics on its thread leaves the slot
    /// with a promise that nothing will fulfil, and the next `poll` of the
    /// slot panics. A caller whose work may panic catches that inside
    /// `work`. The call itself panics where the system grants no thread.
    pub fn spawn<F>(&mut self, name: &str, work: F) -> (accepted: bool) where
        F: FnOnce() -> T + Send + 'static,

        requires
            thread_name(name@),
            work.requires(()),
        ensures
            accepted == !old(self).is_pending(),
            final(self).is_pending(),
            !accepted ==> *final(self) == *old(self),
    {
        if self.inflight.is_some() {
            false
        } else {
            self.inflight = Some(start_thread(name, work));
            true
        }
    }

    /// Takes in what a check of the promise in flight gave: a value empties
    /// the slot and is handed out, a promise handed back stays in flight.
    fn settle(&mut self, taken: Result<T, Promise<T>>) -> (state: PollState<T>)
        requires
            !old(self).is_pending(),
        ensures
            match taken {
                Ok(value) => state == PollState::Ready(value) && *final(self) == *old(self),
                Err(back) => state is Pending && final(self).inflight == Some(back),
            },
    {
        match taken {
            Ok(value) => PollState::Ready(value),
            Err(back) => {
                self.inflight = Some(back);
                PollState::Pending
            },
        }
    }

    /// Checks on the work in flight without blocking. An empty slot is
    /// `Idle` and stays so. A slot with work in flight either hands out the
    /// result and becomes empty, or reports `Pending` and stays as it is.
    ///
    /// Panics if the work in flight panicked on its thread instead of
    /// returning: see `spawn`.
    pub fn poll(&mut self) -> (state: PollState<T>)
        ensures
            !old(self).is_pending() ==> state is Idle && *final(self) == *old(self),
            old(self).is_pending() ==> (state is Ready && !final(self).is_pending()) || (state
                is Pending && *final(self) == *old(self)),
    {
        match self.inflight.take() {
            None => PollState::Idle,
            Some(promise) => {
                let taken = try_take(promise);
                self.settle(taken)
            },
        }
    }
}

} // verus!
