//! A filter over a signal's notifications that swallows consecutive
//! duplicates: a value is forwarded only when it differs from the last value
//! forwarded.

use vstd::prelude::*;
use vstd::std_specs::cmp::PartialEqSpec;

use crate::signal::Signal;
use crate::watcher::Context;

verus! {

/// Wraps a signal whose output is equality-comparable; only notifications
/// whose value differs from the last forwarded one are passed on. One
/// last-forwarded record is shared by all watchers of this instance.
#[derive(Debug, Clone)]
pub struct Distinct<S: Signal> where S::Output: PartialEq {
    signal: S,
    last_value: Option<S::Output>,
}

impl<S: Signal> Distinct<S> where S::Output: PartialEq + Clone {
    /// The wrapped signal.
    pub closed spec fn signal(&self) -> S {
        self.signal
    }

    /// The last value forwarded to watchers, if any was.
    pub closed spec fn last_value(&self) -> Option<S::Output> {
        self.last_value
    }

    /// Creates a distinct filter over `signal`; nothing has been forwarded
    /// yet.
    pub fn new(signal: S) -> (r: Self)
        ensures
            r.signal() == signal,
            r.last_value() is None,
    {
        Distinct { signal, last_value: None }
    }

    /// Handles one upstream notification. The first value ever observed is
    /// always forwarded; a later value is forwarded exactly when it differs
    /// from the last forwarded one. The record updates together with the
    /// forwarding decision; a swallowed notification changes nothing.
    pub fn on_upstream(&mut self, ctx: Context<S::Output>) -> (r: Option<Context<S::Output>>)
        ensures
            final(self).signal() == old(self).signal(),
            S::Output::obeys_eq_spec() ==> ((r is Some) <==> (old(self).last_value() is None
                || !old(self).last_value()->0.eq_spec(&ctx.value))),
            r is Some ==> {
                &&& cloned::<S::Output>(ctx.value, r->0.value)
                &&& r->0.metadata == ctx.metadata
                &&& final(self).last_value() == Some(ctx.value)
            },
            r is None ==> *final(self) == *old(self),
    {
        let forward = match &self.last_value {
            Some(last) => *last != ctx.value,
            None => true,
        };
        if forward {
            let Context { value, metadata } = ctx;
            let out = value.clone();
            self.last_value = Some(value);
            Some(Context { value: out, metadata })
        } else {
            None
        }
    }

    /// Reads pass straight through to the wrapped signal.
    pub fn get(&self) -> (r: S::Output)
        ensures
            self.signal().obs(r),
    {
        self.signal.get()
    }
}

impl<S: Signal> Signal for Distinct<S> where S::Output: PartialEq + Clone {
    type Output = S::Output;

    open spec fn obs(&self, value: S::Output) -> bool {
        self.signal().obs(value)
    }

    fn get(&self) -> (r: S::Output) {
        self.signal.get()
    }
}

/// The subsequence of `s` a distinct filter forwards: each element enters
/// exactly when it differs from its predecessor in the forwarded
/// subsequence.
pub open spec fn distinct_forwarded<T: PartialEq>(s: Seq<T>) -> Seq<T>
    decreases s.len(),
{
    if s.len() == 0 {
        Seq::empty()
    } else {
        let prev = distinct_forwarded(s.drop_last());
        if prev.len() == 0 || !prev.last().eq_spec(&s.last()) {
            prev.push(s.last())
        } else {
            prev
        }
    }
}

/// In the forwarded subsequence, every element differs from its immediate
/// predecessor: the filter never lets two equal values through in a row.
pub proof fn lemma_distinct_forwarded_adjacent<T: PartialEq>(s: Seq<T>)
    ensures
        forall|i: int|
            0 < i < distinct_forwarded(s).len() ==> !(#[trigger] distinct_forwarded(s)[i - 1]).eq_spec(
                &distinct_forwarded(s)[i],
            ),
    decreases s.len(),
{
    if s.len() > 0 {
        lemma_distinct_forwarded_adjacent(s.drop_last());
        let prev = distinct_forwarded(s.drop_last());
        if prev.len() == 0 || !prev.last().eq_spec(&s.last()) {
            assert(distinct_forwarded(s) == prev.push(s.last()));
            assert forall|i: int|
                0 < i < distinct_forwarded(s).len() implies !(
            #[trigger] distinct_forwarded(s)[i - 1]).eq_spec(&distinct_forwarded(s)[i]) by {
                if i < distinct_forwarded(s).len() - 1 {
                    assert(distinct_forwarded(s)[i - 1] == prev[i - 1]);
                    assert(distinct_forwarded(s)[i] == prev[i]);
                } else {
                    assert(distinct_forwarded(s)[i] == s.last());
                    assert(distinct_forwarded(s)[i - 1] == prev.last());
                }
            }
        }
    }
}

impl<S: Signal> Distinct<S> where S::Output: PartialEq + Clone {
    /// Handles a whole sequence of upstream notifications in order and
    /// collects the forwarded values: starting from a fresh filter, exactly
    /// the subsequence in which each value differs from its forwarded
    /// predecessor comes out.
    pub fn process_all(&mut self, values: Vec<S::Output>) -> (out: Vec<S::Output>)
        requires
            old(self).last_value() is None,
        ensures
            final(self).signal() == old(self).signal(),
            <S::Output as PartialEqSpec>::obeys_eq_spec() ==> {
                &&& out@.len() == distinct_forwarded(values@).len()
                &&& forall|i: int|
                    0 <= i < out@.len() ==> cloned::<S::Output>(
                        distinct_forwarded(values@)[i],
                        #[trigger] out@[i],
                    )
            },
    {
        let ghost orig = values@;
        let mut remaining = values;
        let mut out: Vec<S::Output> = Vec::new();
        let ghost total = orig.len();
        while remaining.len() > 0
            invariant
                remaining@ == orig.skip(orig.len() - remaining@.len()),
                remaining@.len() <= orig.len(),
                self.signal() == old(self).signal(),
                <S::Output as PartialEqSpec>::obeys_eq_spec() ==> ({
                    let k = orig.len() - remaining@.len();
                    &&& out@.len() == distinct_forwarded(orig.take(k as int)).len()
                    &&& forall|i: int|
                        0 <= i < out@.len() ==> cloned::<S::Output>(
                            distinct_forwarded(orig.take(k as int))[i],
                            #[trigger] out@[i],
                        )
                    &&& self.last_value() == (if distinct_forwarded(orig.take(k as int)).len()
                        == 0 {
                        None::<S::Output>
                    } else {
                        Some(distinct_forwarded(orig.take(k as int)).last())
                    })
                }),
            decreases remaining@.len(),
        {
            let ghost k = orig.len() - remaining@.len();
            proof {
                assert(remaining@[0] == orig[k as int]);
                assert(orig.take(k + 1).drop_last() == orig.take(k as int));
                assert(orig.take(k + 1).last() == orig[k as int]);
            }
            let value = remaining.remove(0);
            let forwarded = self.on_upstream(crate::watcher::Context::of(value));
            match forwarded {
                Some(ctx) => {
                    out.push(ctx.into_value());
                },
                None => {},
            }
            proof {
                assert(remaining@ =~= orig.skip(orig.len() - remaining@.len()));
            }
        }
        proof {
            assert(orig.take(total as int) == orig);
            assert(orig.len() - remaining@.len() == total);
        }
        out
    }
}

} // verus!
