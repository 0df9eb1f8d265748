//! A caching layer over a signal: the latest value is remembered, so reads
//! between source changes consult the source at most once.

use vstd::prelude::*;

use crate::signal::Signal;
use crate::watcher::Context;

verus! {

/// Wraps a signal and remembers its latest value.
///
/// The cache fills lazily on the first read, or eagerly whenever the source
/// notifies (the host routes each source notification through
/// [`Cached::on_source_notification`]). Once filled it always agrees with
/// the latest value the source produced, and reads stop consulting the
/// source. `source_gets` counts how often the source was actually read:
/// between two consecutive source notifications it grows by at most one, no
/// matter how many reads happen.
#[derive(Debug, Clone)]
pub struct Cached<C: Signal> {
    source: C,
    cache: Option<C::Output>,
    source_gets: u64,
}

impl<C: Signal> Cached<C> where C::Output: Clone {
    /// The wrapped source signal.
    pub closed spec fn source(&self) -> C {
        self.source
    }

    /// The cached value, if one is held.
    pub closed spec fn cache(&self) -> Option<C::Output> {
        self.cache
    }

    /// How many times the source has been read through this wrapper.
    pub closed spec fn source_gets(&self) -> u64 {
        self.source_gets
    }

    /// Creates a cache around `source`; the cache starts empty.
    pub fn new(source: C) -> (r: Self)
        ensures
            r.source() == source,
            r.cache() is None,
            r.source_gets() == 0,
    {
        Cached { source, cache: None, source_gets: 0 }
    }

    /// Produces the current value: the cached one when present, otherwise
    /// the value is read from the source once and stored.
    pub fn get(&mut self) -> (r: C::Output)
        requires
            old(self).source_gets() < u64::MAX,
        ensures
            final(self).source() == old(self).source(),
            old(self).cache() is Some ==> {
                &&& *final(self) == *old(self)
                &&& cloned::<C::Output>(old(self).cache()->0, r)
            },
            old(self).cache() is None ==> {
                &&& old(self).source().obs(final(self).cache()->0)
                &&& final(self).cache() is Some
                &&& cloned::<C::Output>(final(self).cache()->0, r)
                &&& final(self).source_gets() == old(self).source_gets() + 1
            },
    {
        match &self.cache {
            Some(v) => v.clone(),
            None => {
                let value = self.source.get();
                self.source_gets = self.source_gets + 1;
                let r = value.clone();
                self.cache = Some(value);
                r
            },
        }
    }

    /// How many times the source has been read through this wrapper: the
    /// executable face of the read counter.
    pub fn source_reads(&self) -> (r: u64)
        ensures
            r == self.source_gets(),
    {
        self.source_gets
    }

    /// Accepts one source notification: the cache is overwritten with the
    /// delivered value, and the context passes through unchanged for the
    /// downstream watchers (watching a cache observes exactly the source's
    /// notifications).
    pub fn on_source_notification(&mut self, ctx: Context<C::Output>) -> (r: Context<C::Output>)
        ensures
            final(self).source() == old(self).source(),
            final(self).source_gets() == old(self).source_gets(),
            final(self).cache() is Some,
            cloned::<C::Output>(ctx.value, final(self).cache()->0),
            r.value == ctx.value,
            r.metadata == ctx.metadata,
    {
        let Context { value, metadata } = ctx;
        self.cache = Some(value.clone());
        Context { value, metadata }
    }
}

/// Creates a cache around `source`.
pub fn cached<C: Signal>(source: C) -> (r: Cached<C>)
    where
        C::Output: Clone,
    ensures
        r.source() == source,
        r.cache() is None,
        r.source_gets() == 0,
{
    Cached::new(source)
}

/// The read-only face of a cache: a shared read returns the cached value
/// when one is held and otherwise consults the source, but cannot fill the
/// cache — only [`Cached::get`], which takes the cache mutably, memoizes.
impl<C: Signal> Signal for Cached<C> where C::Output: Clone {
    type Output = C::Output;

    open spec fn obs(&self, value: C::Output) -> bool {
        if self.cache() is Some {
            cloned::<C::Output>(self.cache()->0, value)
        } else {
            self.source().obs(value)
        }
    }

    fn get(&self) -> (r: C::Output) {
        match &self.cache {
            Some(v) => v.clone(),
            None => self.source.get(),
        }
    }
}

} // verus!
