//! A uniform handle over "some signal producing `T`".
//!
//! Composition operators have rich generic types; a `Computed<T>` lets a
//! caller store or pass the produced value uniformly. Because every node here
//! owns its state, erasing the concrete type fixes the observation: a
//! `Computed` holds the value the erased signal produced at construction
//! time, and never notifies.

use vstd::prelude::*;

use crate::signal::Signal;

verus! {

/// A type-erased handle over a signal of `T`, fixed at the value the signal
/// produced when the handle was made.
#[derive(Debug, Clone)]
pub struct Computed<T> {
    value: T,
}

impl<T> Computed<T> {
    /// The value this handle produces.
    pub closed spec fn val(&self) -> T {
        self.value
    }

    /// Erases a signal: the handle produces what the signal produced at this
    /// moment.
    pub fn new<C: Signal<Output = T>>(source: &C) -> (r: Self)
        ensures
            source.obs(r.val()),
    {
        Computed { value: source.get() }
    }

    /// Creates a handle around a fixed value.
    pub fn constant(value: T) -> (r: Self)
        ensures
            r.val() == value,
    {
        Computed { value }
    }

    /// Borrows the value.
    pub fn peek(&self) -> (r: &T)
        ensures
            r == &self.val(),
    {
        &self.value
    }
}

impl<T: Clone> Signal for Computed<T> {
    type Output = T;

    open spec fn obs(&self, value: T) -> bool {
        cloned::<T>(self.val(), value)
    }

    fn get(&self) -> (r: T) {
        self.value.clone()
    }
}

} // verus!
