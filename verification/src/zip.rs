//! Combination of two signals into one that produces a tuple of their
//! values, with last-known-value tracking for notifications.

use vstd::prelude::*;

use crate::signal::Signal;
use crate::watcher::Context;

verus! {

/// Combines two signals into a tuple signal: reading produces the pair of
/// both current values.
#[derive(Debug, Clone)]
pub struct Zip<A, B> {
    a: A,
    b: B,
}

impl<A, B> Zip<A, B> {
    /// The first combined signal.
    pub closed spec fn first(&self) -> A {
        self.a
    }

    /// The second combined signal.
    pub closed spec fn second(&self) -> B {
        self.b
    }

    /// Creates a new combination of `a` and `b`.
    pub fn new(a: A, b: B) -> (r: Self)
        ensures
            r.first() == a,
            r.second() == b,
    {
        Zip { a, b }
    }
}

/// Creates a new combination of `a` and `b`; reading it produces the pair of
/// their current values.
pub fn zip<A: Signal, B: Signal>(a: A, b: B) -> (r: Zip<A, B>)
    ensures
        r.first() == a,
        r.second() == b,
{
    Zip::new(a, b)
}

impl<A: Signal, B: Signal> Signal for Zip<A, B> {
    type Output = (A::Output, B::Output);

    open spec fn obs(&self, value: (A::Output, B::Output)) -> bool {
        self.first().obs(value.0) && self.second().obs(value.1)
    }

    fn get(&self) -> (r: (A::Output, B::Output)) {
        (self.a.get(), self.b.get())
    }
}

impl<A: Signal, B: Signal> Zip<A, B> where A::Output: Clone, B::Output: Clone {
    /// Seeds the notification state for this combination: each side's
    /// last-known value starts at its current value.
    pub fn watch_state(&self) -> (st: ZipState<A::Output, B::Output>)
        ensures
            self.first().obs(st.latest_first()),
            self.second().obs(st.latest_second()),
    {
        ZipState { latest_first: self.a.get(), latest_second: self.b.get() }
    }
}

/// The per-subscription state of a zipped signal: the last value each side
/// is known to have produced. When one side fires, the delivered tuple pairs
/// the firing side's new value with the other side's last-known value.
#[derive(Debug, Clone)]
pub struct ZipState<TA, TB> {
    latest_first: TA,
    latest_second: TB,
}

impl<TA: Clone, TB: Clone> ZipState<TA, TB> {
    /// The last value the first side is known to have produced.
    pub closed spec fn latest_first(&self) -> TA {
        self.latest_first
    }

    /// The last value the second side is known to have produced.
    pub closed spec fn latest_second(&self) -> TB {
        self.latest_second
    }

    /// Creates state seeded at the given last-known values.
    pub fn new(latest_first: TA, latest_second: TB) -> (st: Self)
        ensures
            st.latest_first() == latest_first,
            st.latest_second() == latest_second,
    {
        ZipState { latest_first, latest_second }
    }

    /// Handles a notification from the first side: the forwarded tuple pairs
    /// the new value with the second side's last-known value, the metadata
    /// survives, and the first side's record is updated.
    pub fn on_first(&mut self, ctx: Context<TA>) -> (r: Context<(TA, TB)>)
        ensures
            r.value.0 == ctx.value,
            cloned::<TB>(old(self).latest_second(), r.value.1),
            r.metadata == ctx.metadata,
            cloned::<TA>(ctx.value, final(self).latest_first()),
            final(self).latest_second() == old(self).latest_second(),
    {
        let Context { value, metadata } = ctx;
        self.latest_first = value.clone();
        let other = self.latest_second.clone();
        Context { value: (value, other), metadata }
    }

    /// Handles a notification from the second side, symmetrically.
    pub fn on_second(&mut self, ctx: Context<TB>) -> (r: Context<(TA, TB)>)
        ensures
            r.value.1 == ctx.value,
            cloned::<TA>(old(self).latest_first(), r.value.0),
            r.metadata == ctx.metadata,
            cloned::<TB>(ctx.value, final(self).latest_second()),
            final(self).latest_first() == old(self).latest_first(),
    {
        let Context { value, metadata } = ctx;
        self.latest_second = value.clone();
        let other = self.latest_first.clone();
        Context { value: (other, value), metadata }
    }
}

} // verus!
