//! Constant and lazily computed values: ways to introduce fixed values into
//! a reactive computation graph.

use vstd::prelude::*;

use crate::signal::Signal;

verus! {

/// A reactive constant: always produces the same value and never notifies.
#[derive(Debug, Clone)]
pub struct Constant<T> {
    value: T,
}

impl<T> Constant<T> {
    /// The constant value.
    pub closed spec fn val(&self) -> T {
        self.value
    }

    /// Creates a constant from a value.
    pub fn new(value: T) -> (r: Self)
        ensures
            r.val() == value,
    {
        Constant { value }
    }

    /// Borrows the constant value.
    pub fn peek(&self) -> (r: &T)
        ensures
            r == &self.val(),
    {
        &self.value
    }

    /// Watching a constant registers nothing: the value never changes, so
    /// the watcher would never be notified.
    pub fn watch(&self) {
    }
}

impl<T: Clone> Signal for Constant<T> {
    type Output = T;

    open spec fn obs(&self, value: T) -> bool {
        cloned::<T>(self.val(), value)
    }

    fn get(&self) -> (r: T) {
        self.value.clone()
    }
}

/// Creates a new constant reactive value.
pub fn constant<T>(value: T) -> (r: Constant<T>)
    ensures
        r.val() == value,
{
    Constant::new(value)
}

/// A lazily evaluated constant: the value is computed by a closure on first
/// access and remembered; later accesses reuse the stored value without
/// calling the closure again.
#[verifier::reject_recursive_types(T)]
pub struct Lazy<F: Fn() -> T, T> {
    f: F,
    value: Option<T>,
}

impl<F: Fn() -> T, T> Lazy<F, T> {
    /// The memoized value, if the closure has run.
    pub closed spec fn stored(&self) -> Option<T> {
        self.value
    }

    /// The closure that computes the value.
    pub closed spec fn func(&self) -> F {
        self.f
    }

    #[verifier::type_invariant]
    spec fn inv(self) -> bool {
        call_requires(self.f, ())
    }
}

impl<F: Fn() -> T, T: Clone> Lazy<F, T> {
    /// Creates a lazy constant around the computation `f`.
    pub fn new(f: F) -> (r: Self)
        requires
            call_requires(f, ()),
        ensures
            r.stored() is None,
            r.func() == f,
    {
        Lazy { f, value: None }
    }

    /// Produces the value, computing it on the first call only.
    pub fn get(&mut self) -> (r: T)
        ensures
            old(self).stored() is Some ==> {
                &&& *final(self) == *old(self)
                &&& cloned::<T>(old(self).stored()->0, r)
            },
            old(self).stored() is None ==> {
                &&& call_ensures(old(self).func(), (), final(self).stored()->0)
                &&& final(self).stored() is Some
                &&& cloned::<T>(final(self).stored()->0, r)
                &&& final(self).func() == old(self).func()
            },
    {
        proof {
            use_type_invariant(&*self);
        }
        match &self.value {
            Some(v) => v.clone(),
            None => {
                let computed = (self.f)();
                let r = computed.clone();
                self.value = Some(computed);
                r
            },
        }
    }

    /// Watching a lazy constant registers nothing: it never notifies.
    pub fn watch(&self) {
    }
}

} // verus!
