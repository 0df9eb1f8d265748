//! The core capability contracts: producing a current value, and mutating it.

use vstd::prelude::*;

verus! {

/// The core trait of the reactive system: a computation that can produce a
/// current value.
///
/// `obs` is the observation relation: it holds of every value `get` may
/// return. For a leaf node it pins the stored value down (up to what `Clone`
/// guarantees for the value type); for a composed node it threads the
/// relation through the composition.
pub trait Signal: Sized {
    /// The type of value this computation produces.
    type Output;

    /// The relation between this signal and the values its `get` can return.
    spec fn obs(&self, value: Self::Output) -> bool;

    /// Execute the computation and return the current value.
    fn get(&self) -> (r: Self::Output)
        ensures
            self.obs(r),
    ;
}

/// A computable value that can also be set.
///
/// Setting typically triggers a notification round; `Event` is the record of
/// that round (for a leaf, a `Notification`; for a derived binding, whatever
/// its source produced, or nothing when the write was filtered out).
pub trait CustomBinding: Signal {
    /// The record of what one `set` call did to watchers.
    type Event;

    /// The relation between the state before `set`, the value written, the
    /// state after, and the produced event.
    spec fn set_spec(&self, value: Self::Output, after: &Self, event: &Self::Event) -> bool;

    /// Sets a new value for this binding.
    fn set(&mut self, value: Self::Output) -> (event: Self::Event)
        ensures
            old(self).set_spec(value, final(self), &event),
    ;
}

/// A signal that enriches every forwarded notification with one fixed
/// metadata annotation; reads delegate to the wrapped signal.
#[derive(Debug, Clone)]
pub struct WithMetadata<C> {
    key: u64,
    value: u64,
    signal: C,
}

impl<C: Signal> WithMetadata<C> {
    /// The wrapped signal.
    pub closed spec fn signal(&self) -> C {
        self.signal
    }

    /// The key of the attached annotation.
    pub closed spec fn key(&self) -> u64 {
        self.key
    }

    /// The value of the attached annotation.
    pub closed spec fn value(&self) -> u64 {
        self.value
    }

    /// Creates a signal that attaches the annotation `key = value` to every
    /// notification it forwards.
    pub fn new(key: u64, value: u64, signal: C) -> (r: Self)
        ensures
            r.signal() == signal,
            r.key() == key,
            r.value() == value,
    {
        WithMetadata { key, value, signal }
    }

    /// Enriches one forwarded notification: the value is untouched, and the
    /// annotation is added to the metadata chain, surviving every later
    /// transformation that preserves metadata.
    pub fn enrich(&self, ctx: crate::watcher::Context<C::Output>) -> (r: crate::watcher::Context<
        C::Output,
    >)
        requires
            ctx.metadata.wf(),
        ensures
            r.value == ctx.value,
            r.metadata.wf(),
            r.metadata.lookup(self.key()) == Some(self.value()),
            forall|k: u64|
                k != self.key() ==> #[trigger] r.metadata.lookup(k) == ctx.metadata.lookup(k),
    {
        ctx.with(self.key, self.value)
    }
}

impl<C: Signal> Signal for WithMetadata<C> {
    type Output = C::Output;

    open spec fn obs(&self, value: C::Output) -> bool {
        self.signal().obs(value)
    }

    fn get(&self) -> (r: C::Output) {
        self.signal.get()
    }
}

} // verus!
