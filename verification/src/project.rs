//! Projection of composite bindings into per-component bindings: each
//! projection reads one component and writes it back into the whole, leaving
//! the other components untouched.

use vstd::prelude::*;

use crate::binding::Binding;
use crate::watcher::Notification;

verus! {

/// The capability of being decomposed into per-component bindings.
pub trait Project: Sized {
    /// The bundle of projections produced.
    type Projected;

    /// Decomposes a binding over `Self` into one derived binding per
    /// component.
    fn project(source: &Binding<Self>) -> Self::Projected;
}

impl<A: Clone, B: Clone> Project for (A, B) {
    type Projected = (PairFirst<A, B>, PairSecond<A, B>);

    fn project(source: &Binding<(A, B)>) -> (PairFirst<A, B>, PairSecond<A, B>) {
        (
            PairFirst { source: source.duplicate() },
            PairSecond { source: source.duplicate() },
        )
    }
}

impl<T: Project + Clone> Binding<T> {
    /// Decomposes this binding into one derived binding per component.
    pub fn project(&self) -> T::Projected {
        T::project(self)
    }
}

/// The projection of a pair binding onto its first component.
pub struct PairFirst<A, B> {
    source: Binding<(A, B)>,
}

impl<A: Clone, B: Clone> PairFirst<A, B> {
    /// The pair binding projected from.
    pub closed spec fn source(&self) -> Binding<(A, B)> {
        self.source
    }

    /// Creates the projection.
    pub fn new(source: Binding<(A, B)>) -> (r: Self)
        ensures
            r.source() == source,
    {
        PairFirst { source }
    }

    /// Reads the first component of the pair.
    pub fn get(&self) -> (r: A)
        ensures
            cloned::<A>(self.source().val().0, r),
    {
        self.source.peek().0.clone()
    }

    /// Writes the first component, keeping the second, and notifies the
    /// pair binding's watchers once.
    pub fn set(&mut self, value: A) -> (event: Notification<(A, B)>)
        ensures
            final(self).source().val().0 == value,
            cloned::<B>(old(self).source().val().1, final(self).source().val().1),
            final(self).source().watcher_ids() == old(self).source().watcher_ids(),
            event.recipients@ == old(self).source().watcher_ids(),
            cloned::<(A, B)>(final(self).source().val(), event.context.value),
            event.context.metadata.is_empty_spec(),
            final(self).source().wf() == old(self).source().wf(),
    {
        let second = self.source.peek().1.clone();
        self.source.set((value, second))
    }
}

/// The projection of a pair binding onto its second component.
pub struct PairSecond<A, B> {
    source: Binding<(A, B)>,
}

impl<A: Clone, B: Clone> PairSecond<A, B> {
    /// The pair binding projected from.
    pub closed spec fn source(&self) -> Binding<(A, B)> {
        self.source
    }

    /// Creates the projection.
    pub fn new(source: Binding<(A, B)>) -> (r: Self)
        ensures
            r.source() == source,
    {
        PairSecond { source }
    }

    /// Reads the second component of the pair.
    pub fn get(&self) -> (r: B)
        ensures
            cloned::<B>(self.source().val().1, r),
    {
        self.source.peek().1.clone()
    }

    /// Writes the second component, keeping the first, and notifies the
    /// pair binding's watchers once.
    pub fn set(&mut self, value: B) -> (event: Notification<(A, B)>)
        ensures
            final(self).source().val().1 == value,
            cloned::<A>(old(self).source().val().0, final(self).source().val().0),
            final(self).source().watcher_ids() == old(self).source().watcher_ids(),
            event.recipients@ == old(self).source().watcher_ids(),
            cloned::<(A, B)>(final(self).source().val(), event.context.value),
            event.context.metadata.is_empty_spec(),
            final(self).source().wf() == old(self).source().wf(),
    {
        let first = self.source.peek().0.clone();
        self.source.set((first, value))
    }
}

} // verus!
