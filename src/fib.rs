//! The poll interface that interrupt-driven futures share.

use vstd::prelude::*;

verus! {

/// Outcome of one poll of an interrupt-driven future.
#[derive(Clone, Copy, Debug, PartialEq, Eq)]
pub enum Poll<T> {
    Ready(T),
    Pending,
}

/// A future that an interrupt dispatcher polls once per interrupt occurrence.
///
/// `E` is the hardware state that the future reads and clears: the status
/// flags it was built to watch.
pub trait Pollable<E>: Sized {
    type Output;

    /// The future has not produced its value yet and may be polled.
    spec fn live(&self) -> bool;

    /// One poll on `env`: the future afterwards, the hardware state afterwards,
    /// and what the poll returns.
    spec fn poll_spec(self, env: E) -> (Self, E, Poll<Self::Output>);

    /// A live future resolves at most once: a poll returns a value exactly
    /// when it leaves the future spent, so no later poll can resolve it again.
    proof fn lemma_resolves_once(self, env: E)
        requires
            self.live(),
        ensures
            (self.poll_spec(env).2 is Ready) <==> !self.poll_spec(env).0.live(),
    ;

    /// Runs one poll. Spent futures are not polled again.
    fn poll(&mut self, env: &mut E) -> (r: Poll<Self::Output>)
        requires
            old(self).live(),
        ensures
            (*final(self), *final(env), r) == old(self).poll_spec(*old(env)),
    ;
}

/// Single-use future that resolves once its status flag is set, clearing the
/// flag (a timer's update event, an ADC's ready flag).
#[derive(Debug)]
pub struct FlagFuture {
    pub done: bool,
}

impl FlagFuture {
    /// A fresh future.
    pub fn new() -> (r: FlagFuture)
        ensures
            !r.done,
    {
        FlagFuture { done: false }
    }
}

impl Pollable<bool> for FlagFuture {
    type Output = ();

    open spec fn live(&self) -> bool {
        !self.done
    }

    /// A set flag is cleared and the future resolves; a clear flag leaves
    /// everything as it was.
    open spec fn poll_spec(self, env: bool) -> (Self, bool, Poll<()>) {
        if env {
            (FlagFuture { done: true }, false, Poll::Ready(()))
        } else {
            (self, env, Poll::Pending)
        }
    }

    proof fn lemma_resolves_once(self, env: bool) {
    }

    fn poll(&mut self, env: &mut bool) -> (r: Poll<()>) {
        if *env {
            *env = false;
            self.done = true;
            Poll::Ready(())
        } else {
            Poll::Pending
        }
    }
}

/// An interrupt line, as far as the drivers use it: `trigger` makes the line
/// pending, which forces one more dispatch pass of its fibers.
#[derive(Clone, Copy, Debug, PartialEq, Eq)]
pub struct IntLine {
    pub pending: bool,
}

impl IntLine {
    /// A line with no dispatch pass pending.
    pub fn new() -> (r: IntLine)
        ensures
            !r.pending,
    {
        IntLine { pending: false }
    }

    /// Forces one more dispatch pass without a hardware event.
    pub fn trigger(&mut self)
        ensures
            final(self).pending,
    {
        self.pending = true;
    }
}

} // verus!
