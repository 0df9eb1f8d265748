//! Transformation of a signal's values by a pure function, both for reads
//! and for forwarded notifications.

use vstd::prelude::*;

use crate::signal::Signal;
use crate::watcher::Context;

verus! {

/// Applies a pure transformation to every value a source signal produces:
/// reads call through to the source and re-apply the function, and every
/// forwarded notification is mapped through it as well, with its metadata
/// preserved.
#[verifier::reject_recursive_types(Output)]
pub struct Mapped<C: Signal, F: Fn(C::Output) -> Output, Output> {
    source: C,
    f: F,
}

impl<C: Signal, F: Fn(C::Output) -> Output, Output> Mapped<C, F, Output> {
    /// The source signal.
    pub closed spec fn source(&self) -> C {
        self.source
    }

    /// The transformation function.
    pub closed spec fn func(&self) -> F {
        self.f
    }

    #[verifier::type_invariant]
    spec fn inv(self) -> bool {
        forall|s: C::Output| self.source.obs(s) ==> #[trigger] call_requires(self.f, (s,))
    }

    /// Creates a transformed signal over `source`; `f` must accept every
    /// value the source can produce.
    pub fn new(source: C, f: F) -> (r: Self)
        requires
            forall|s: C::Output| source.obs(s) ==> #[trigger] call_requires(f, (s,)),
        ensures
            r.source() == source,
            r.func() == f,
    {
        Mapped { source, f }
    }

    /// Forwards one upstream notification: the delivered value is mapped
    /// through the function, the metadata survives unchanged.
    pub fn forward(&self, ctx: Context<C::Output>) -> (r: Context<Output>)
        requires
            self.source().obs(ctx.value),
        ensures
            call_ensures(self.func(), (ctx.value,), r.value),
            r.metadata == ctx.metadata,
    {
        proof {
            use_type_invariant(self);
        }
        let Context { value, metadata } = ctx;
        let ghost gv = value;
        let mapped = (self.f)(value);
        proof {
            assert(call_ensures(self.func(), (gv,), mapped));
        }
        Context { value: mapped, metadata }
    }
}

impl<C: Signal, F: Fn(C::Output) -> Output, Output> Signal for Mapped<C, F, Output> {
    type Output = Output;

    open spec fn obs(&self, value: Output) -> bool {
        exists|s: C::Output|
            self.source().obs(s) && #[trigger] call_ensures(self.func(), (s,), value)
    }

    fn get(&self) -> (r: Output) {
        proof {
            use_type_invariant(self);
        }
        let s = self.source.get();
        let ghost gs = s;
        let r = (self.f)(s);
        proof {
            assert(self.source().obs(gs));
            assert(call_ensures(self.func(), (gs,), r));
        }
        r
    }
}

/// Creates a transformed signal over `source` using function `f`.
pub fn map<C, F, Output>(source: C, f: F) -> (r: Mapped<C, F, Output>)
    where
        C: Signal,
        F: Fn(C::Output) -> Output,
    requires
        forall|s: C::Output| source.obs(s) ==> #[trigger] call_requires(f, (s,)),
    ensures
        r.source() == source,
        r.func() == f,
{
    Mapped::new(source, f)
}

} // verus!
