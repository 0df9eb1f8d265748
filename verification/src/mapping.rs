//! Derived two-way bindings: a getter/setter pair over a source binding, and
//! the typed conveniences expressed as particular getter/setter pairs.
//!
//! Reads through a derived binding are always recomputed from the source —
//! never cached. Writes run the setter against the source binding; the
//! source's own notification round is the event the write produces. A setter
//! may decline (a filtered write): then nothing changes and no notification
//! fires.

use vstd::prelude::*;
use vstd::std_specs::cmp::PartialEqSpec;

use crate::binding::Binding;
use crate::watcher::Notification;

verus! {

impl<T: Clone> Binding<T> {
    /// An independent handle with the same value and watcher snapshot.
    pub fn duplicate(&self) -> (r: Self)
        ensures
            cloned::<T>(self.val(), r.val()),
            r.watcher_ids() == self.watcher_ids(),
            r.next_id() == self.next_id(),
            r.wf() == self.wf(),
    {
        Binding::custom(self.peek_container().duplicate())
    }

    /// Creates a bidirectional mapping over this binding: `getter` derives
    /// the output value from the source value, and `setter` computes the
    /// source value a write stands for — or declines the write with `None`.
    pub fn mapping<Output, Getter, Setter>(source: &Self, getter: Getter, setter: Setter) -> (r:
        Mapping<T, Output, Getter, Setter>)
        where
            Getter: Fn(T) -> Output,
            Setter: Fn(T, Output) -> Option<T>,
        requires
            forall|v: T| #[trigger] call_requires(getter, (v,)),
            forall|v: T, out: Output| #[trigger] call_requires(setter, (v, out)),
        ensures
            cloned::<T>(source.val(), r.source().val()),
            r.source().watcher_ids() == source.watcher_ids(),
            r.getter() == getter,
            r.setter() == setter,
            r.source().wf() == source.wf(),
            r.callable(),
    {
        Mapping { source: source.duplicate(), getter, setter }
    }

    /// A read-only derived binding reporting whether a predicate holds of
    /// the current value.
    pub fn condition<F: Fn(T) -> bool>(&self, condition: F) -> (r: Condition<T, F>)
        requires
            forall|v: T| #[trigger] call_requires(condition, (v,)),
        ensures
            cloned::<T>(self.val(), r.source().val()),
            r.pred() == condition,
    {
        Condition { source: self.duplicate(), pred: condition }
    }

    /// A derived binding that only accepts values passing `filter`; a write
    /// failing the predicate is silently dropped and notifies nobody.
    pub fn filter<F: Fn(T) -> bool>(&self, filter: F) -> (r: Filtered<T, F>)
        requires
            forall|v: T| #[trigger] call_requires(filter, (v,)),
        ensures
            cloned::<T>(self.val(), r.source().val()),
            r.source().watcher_ids() == self.watcher_ids(),
            r.pred() == filter,
            r.source().wf() == self.wf(),
            r.callable(),
    {
        Filtered { source: self.duplicate(), pred: filter }
    }
}

impl<T: Clone + PartialEq> Binding<T> {
    /// A read-only derived binding tracking whether the value equals
    /// `other`.
    pub fn equal_to(&self, other: T) -> (r: EqualTo<T>)
        ensures
            cloned::<T>(self.val(), r.source().val()),
            r.other() == other,
    {
        EqualTo { source: self.duplicate(), other }
    }
}

impl Binding<i32> {
    /// A derived binding that only accepts values within `lo..=hi`.
    pub fn range(&self, lo: i32, hi: i32) -> (r: InRange)
        ensures
            r.source().val() == self.val(),
            r.source().watcher_ids() == self.watcher_ids(),
            r.lo() == lo,
            r.hi() == hi,
            r.source().wf() == self.wf(),
    {
        InRange { source: self.duplicate(), lo, hi }
    }
}

/// A derived two-way binding defined by a getter/setter pair over a source
/// binding.
#[verifier::reject_recursive_types(In)]
#[verifier::reject_recursive_types(Output)]
pub struct Mapping<In: Clone, Output, Getter, Setter> where
    Getter: Fn(In) -> Output,
    Setter: Fn(In, Output) -> Option<In>,
 {
    source: Binding<In>,
    getter: Getter,
    setter: Setter,
}

impl<In: Clone, Output, Getter, Setter> Mapping<In, Output, Getter, Setter> where
    Getter: Fn(In) -> Output,
    Setter: Fn(In, Output) -> Option<In>,
 {
    /// The source binding.
    pub closed spec fn source(&self) -> Binding<In> {
        self.source
    }

    /// The derivation function for reads.
    pub closed spec fn getter(&self) -> Getter {
        self.getter
    }

    /// The function deciding what a write stores in the source.
    pub closed spec fn setter(&self) -> Setter {
        self.setter
    }

    /// The getter and setter accept every value: [`Binding::mapping`]
    /// demands it, and no operation changes the two functions.
    pub open spec fn callable(&self) -> bool {
        &&& forall|v: In| #[trigger] call_requires(self.getter(), (v,))
        &&& forall|v: In, out: Output| #[trigger] call_requires(self.setter(), (v, out))
    }
}

impl<In: Clone, Output, Getter, Setter> Mapping<In, Output, Getter, Setter> where
    Getter: Fn(In) -> Output,
    Setter: Fn(In, Output) -> Option<In>,
 {
    /// Reads the derived value: the getter applied to the source's current
    /// value, recomputed on every call.
    pub fn get(&self) -> (r: Output)
        requires
            self.callable(),
        ensures
            exists|v: In|
                {
                    &&& #[trigger] cloned::<In>(self.source().val(), v)
                    &&& call_ensures(self.getter(), (v,), r)
                },
    {
        let v = self.source.get();
        let ghost gv = v;
        proof {
            assert(call_requires(self.getter(), (gv,)));
        }
        let r = (self.getter)(v);
        proof {
            assert(cloned::<In>(self.source().val(), gv) && call_ensures(
                self.getter(),
                (gv,),
                r,
            ));
        }
        r
    }

    /// Writes through the setter: when it produces a source value, the
    /// source is set and its notification round is returned; when it
    /// declines, nothing changes and nobody is notified.
    pub fn set(&mut self, value: Output) -> (event: Option<Notification<In>>)
        requires
            old(self).callable(),
        ensures
            final(self).getter() == old(self).getter(),
            final(self).setter() == old(self).setter(),
            exists|v: In, decision: Option<In>|
                {
                    &&& cloned::<In>(old(self).source().val(), v)
                    &&& #[trigger] call_ensures(old(self).setter(), (v, value), decision)
                    &&& match decision {
                        Some(nv) => {
                            &&& event is Some
                            &&& final(self).source().val() == nv
                            &&& event->0.recipients@ == old(self).source().watcher_ids()
                            &&& cloned::<In>(nv, event->0.context.value)
                            &&& event->0.context.metadata.is_empty_spec()
                        },
                        None => {
                            &&& event is None
                            &&& final(self).source().val() == old(self).source().val()
                        },
                    }
                },
            final(self).source().watcher_ids() == old(self).source().watcher_ids(),
            final(self).source().wf() == old(self).source().wf(),
            final(self).callable() == old(self).callable(),
    {
        let v = self.source.get();
        let ghost gv = v;
        proof {
            assert(call_requires(self.setter(), (gv, value)));
        }
        let decision = (self.setter)(v, value);
        let ghost gd = decision;
        let event = match decision {
            Some(nv) => Some(self.source.set(nv)),
            None => None,
        };
        proof {
            assert(cloned::<In>(old(self).source().val(), gv) && call_ensures(
                old(self).setter(),
                (gv, value),
                gd,
            ));
            assert(self.getter() == old(self).getter());
            assert(self.setter() == old(self).setter());
            if old(self).callable() {
                assert forall|v: In| #[trigger] call_requires(self.getter(), (v,)) by {
                    assert(call_requires(old(self).getter(), (v,)));
                }
                assert forall|v: In, out: Output| #[trigger] call_requires(
                    self.setter(),
                    (v, out),
                ) by {
                    assert(call_requires(old(self).setter(), (v, out)));
                }
            }
            if self.callable() {
                assert forall|v: In| #[trigger] call_requires(old(self).getter(), (v,)) by {
                    assert(call_requires(self.getter(), (v,)));
                }
                assert forall|v: In, out: Output| #[trigger] call_requires(
                    old(self).setter(),
                    (v, out),
                ) by {
                    assert(call_requires(self.setter(), (v, out)));
                }
            }
        }
        event
    }
}

/// A read-only derived binding reporting whether a predicate holds of the
/// source's current value.
pub struct Condition<T, F: Fn(T) -> bool> {
    source: Binding<T>,
    pred: F,
}

impl<T, F: Fn(T) -> bool> Condition<T, F> {
    /// The source binding.
    pub closed spec fn source(&self) -> Binding<T> {
        self.source
    }

    /// The predicate.
    pub closed spec fn pred(&self) -> F {
        self.pred
    }

    #[verifier::type_invariant]
    spec fn inv(self) -> bool {
        forall|v: T| #[trigger] call_requires(self.pred, (v,))
    }
}

impl<T: Clone, F: Fn(T) -> bool> Condition<T, F> {
    /// Whether the predicate holds of the source's current value.
    pub fn get(&self) -> (r: bool)
        ensures
            exists|v: T|
                {
                    &&& #[trigger] cloned::<T>(self.source().val(), v)
                    &&& call_ensures(self.pred(), (v,), r)
                },
    {
        proof {
            use_type_invariant(self);
        }
        let v = self.source.get();
        let ghost gv = v;
        let r = (self.pred)(v);
        proof {
            assert(cloned::<T>(self.source().val(), gv) && call_ensures(self.pred(), (gv,), r));
        }
        r
    }
}

/// A derived binding that accepts only values passing a predicate.
pub struct Filtered<T, F: Fn(T) -> bool> {
    source: Binding<T>,
    pred: F,
}

impl<T, F: Fn(T) -> bool> Filtered<T, F> {
    /// The source binding.
    pub closed spec fn source(&self) -> Binding<T> {
        self.source
    }

    /// The predicate a written value must pass.
    pub closed spec fn pred(&self) -> F {
        self.pred
    }

    /// The predicate accepts every value: [`Binding::filter`] demands it,
    /// and no operation changes the predicate.
    pub open spec fn callable(&self) -> bool {
        forall|v: T| #[trigger] call_requires(self.pred(), (v,))
    }
}

impl<T: Clone, F: Fn(T) -> bool> Filtered<T, F> {
    /// Reads pass straight through to the source.
    pub fn get(&self) -> (r: T)
        ensures
            cloned::<T>(self.source().val(), r),
    {
        self.source.get()
    }

    /// Writes a value when it passes the predicate, notifying the source's
    /// watchers once; a failing value is dropped silently: nothing changes
    /// and no notification fires.
    pub fn set(&mut self, value: T) -> (event: Option<Notification<T>>)
        requires
            old(self).callable(),
        ensures
            final(self).callable(),
            final(self).pred() == old(self).pred(),
            final(self).source().watcher_ids() == old(self).source().watcher_ids(),
            final(self).source().wf() == old(self).source().wf(),
            exists|c: T, accepted: bool|
                {
                    &&& cloned::<T>(value, c)
                    &&& #[trigger] call_ensures(old(self).pred(), (c,), accepted)
                    &&& if accepted {
                        &&& event is Some
                        &&& final(self).source().val() == value
                        &&& event->0.recipients@ == old(self).source().watcher_ids()
                        &&& cloned::<T>(value, event->0.context.value)
                        &&& event->0.context.metadata.is_empty_spec()
                    } else {
                        &&& event is None
                        &&& final(self).source().val() == old(self).source().val()
                    }
                },
    {
        let probe = value.clone();
        let ghost gc = probe;
        let accepted = (self.pred)(probe);
        let ghost ga = accepted;
        if accepted {
            let n = self.source.set(value);
            proof {
                assert(cloned::<T>(value, gc) && call_ensures(old(self).pred(), (gc,), ga));
            }
            Some(n)
        } else {
            proof {
                assert(cloned::<T>(value, gc) && call_ensures(old(self).pred(), (gc,), ga));
            }
            None
        }
    }
}

/// A read-only derived binding tracking whether the source's value equals a
/// fixed one.
pub struct EqualTo<T> {
    source: Binding<T>,
    other: T,
}

impl<T: Clone + PartialEq> EqualTo<T> {
    /// The source binding.
    pub closed spec fn source(&self) -> Binding<T> {
        self.source
    }

    /// The value compared against.
    pub closed spec fn other(&self) -> T {
        self.other
    }

    /// Whether the source's current value equals the tracked one.
    pub fn get(&self) -> (r: bool)
        ensures
            T::obeys_eq_spec() ==> r == self.source().val().eq_spec(&self.other()),
    {
        *self.source.peek() == self.other
    }
}

/// A derived binding over an integer that accepts only values inside an
/// inclusive range.
pub struct InRange {
    source: Binding<i32>,
    lo: i32,
    hi: i32,
}

impl InRange {
    /// The source binding.
    pub closed spec fn source(&self) -> Binding<i32> {
        self.source
    }

    /// The lower bound, inclusive.
    pub closed spec fn lo(&self) -> i32 {
        self.lo
    }

    /// The upper bound, inclusive.
    pub closed spec fn hi(&self) -> i32 {
        self.hi
    }

    /// Reads pass straight through to the source.
    pub fn get(&self) -> (r: i32)
        ensures
            r == self.source().val(),
    {
        *self.source.peek()
    }

    /// Writes a value inside the range, notifying the source's watchers
    /// once; a value outside it is dropped silently.
    pub fn set(&mut self, value: i32) -> (event: Option<Notification<i32>>)
        ensures
            final(self).lo() == old(self).lo(),
            final(self).hi() == old(self).hi(),
            final(self).source().watcher_ids() == old(self).source().watcher_ids(),
            final(self).source().wf() == old(self).source().wf(),
            old(self).lo() <= value <= old(self).hi() ==> {
                &&& event is Some
                &&& final(self).source().val() == value
                &&& event->0.recipients@ == old(self).source().watcher_ids()
                &&& event->0.context.value == value
                &&& event->0.context.metadata.is_empty_spec()
            },
            !(old(self).lo() <= value <= old(self).hi()) ==> {
                &&& event is None
                &&& final(self).source().val() == old(self).source().val()
            },
    {
        if self.lo <= value && value <= self.hi {
            Some(self.source.set(value))
        } else {
            None
        }
    }
}

impl Binding<bool> {
    /// A derived binding producing `Some(if_true)` while this boolean is
    /// true and `None` while it is false. Writing `Some(..)` sets the
    /// boolean to true, writing `None` sets it to false.
    pub fn then_some<T: Clone>(&self, if_true: T) -> (r: ThenSome<T>)
        ensures
            r.source().val() == self.val(),
            r.source().watcher_ids() == self.watcher_ids(),
            r.if_true() == if_true,
            r.source().wf() == self.wf(),
    {
        ThenSome { source: self.duplicate(), if_true }
    }

    /// A derived binding selecting between two values: `if_true` while this
    /// boolean is true, `if_false` while it is false. Writing the `if_true`
    /// value sets the boolean to true; writing anything else sets it to
    /// false.
    pub fn select<T: Clone + PartialEq>(&self, if_true: T, if_false: T) -> (r: Select<T>)
        ensures
            r.source().val() == self.val(),
            r.source().watcher_ids() == self.watcher_ids(),
            r.if_true() == if_true,
            r.if_false() == if_false,
            r.source().wf() == self.wf(),
    {
        Select { source: self.duplicate(), if_true, if_false }
    }
}

impl<T: Clone> Binding<Option<T>> {
    /// A derived binding that unwraps the option, falling back to `default`
    /// when the option is empty. Writing wraps the value in `Some`.
    pub fn unwrap_or(&self, default: T) -> (r: UnwrapOr<T>)
        ensures
            cloned::<Option<T>>(self.val(), r.source().val()),
            r.source().watcher_ids() == self.watcher_ids(),
            r.default() == default,
            r.source().wf() == self.wf(),
    {
        UnwrapOr { source: self.duplicate(), default }
    }

    /// Like [`Binding::unwrap_or`], with the fallback computed by a closure
    /// at construction time.
    pub fn unwrap_or_else<F: Fn() -> T>(&self, default: F) -> (r: UnwrapOr<T>)
        requires
            call_requires(default, ()),
        ensures
            cloned::<Option<T>>(self.val(), r.source().val()),
            r.source().watcher_ids() == self.watcher_ids(),
            call_ensures(default, (), r.default()),
            r.source().wf() == self.wf(),
    {
        let d = default();
        UnwrapOr { source: self.duplicate(), default: d }
    }

    /// Like [`Binding::unwrap_or`], with the type's default value as the
    /// fallback.
    pub fn unwrap_or_default(&self) -> (r: UnwrapOr<T>)
        where
            T: Default,
        ensures
            cloned::<Option<T>>(self.val(), r.source().val()),
            r.source().watcher_ids() == self.watcher_ids(),
            call_ensures(T::default, (), r.default()),
            r.source().wf() == self.wf(),
    {
        let d = T::default();
        UnwrapOr { source: self.duplicate(), default: d }
    }

    /// A derived boolean binding tracking whether this option holds exactly
    /// `equal`. Writing `true` stores `Some(equal)`; writing `false` is a
    /// silent no-op.
    pub fn some_equal_to(&self, equal: T) -> (r: SomeEqualTo<T>)
        where
            T: PartialEq,
        ensures
            cloned::<Option<T>>(self.val(), r.source().val()),
            r.source().watcher_ids() == self.watcher_ids(),
            r.equal() == equal,
            r.source().wf() == self.wf(),
    {
        SomeEqualTo { source: self.duplicate(), equal }
    }
}

/// A derived binding producing `Some(value)` or `None` from a boolean
/// source.
pub struct ThenSome<T> {
    source: Binding<bool>,
    if_true: T,
}

impl<T: Clone> ThenSome<T> {
    /// The boolean source binding.
    pub closed spec fn source(&self) -> Binding<bool> {
        self.source
    }

    /// The value produced while the source is true.
    pub closed spec fn if_true(&self) -> T {
        self.if_true
    }

    /// `Some(if_true)` while the source is true, `None` while it is false.
    pub fn get(&self) -> (r: Option<T>)
        ensures
            self.source().val() ==> r is Some && cloned::<T>(self.if_true(), r->0),
            !self.source().val() ==> r is None,
    {
        if *self.source.peek() {
            Some(self.if_true.clone())
        } else {
            None
        }
    }

    /// Writes the presence of the option back into the boolean source and
    /// notifies its watchers once.
    pub fn set(&mut self, value: Option<T>) -> (event: Notification<bool>)
        ensures
            final(self).source().val() == (value is Some),
            final(self).if_true() == old(self).if_true(),
            final(self).source().watcher_ids() == old(self).source().watcher_ids(),
            event.recipients@ == old(self).source().watcher_ids(),
            event.context.value == (value is Some),
            event.context.metadata.is_empty_spec(),
            final(self).source().wf() == old(self).source().wf(),
    {
        self.source.set(value.is_some())
    }
}

/// A derived binding selecting one of two values from a boolean source.
pub struct Select<T> {
    source: Binding<bool>,
    if_true: T,
    if_false: T,
}

impl<T: Clone + PartialEq> Select<T> {
    /// The boolean source binding.
    pub closed spec fn source(&self) -> Binding<bool> {
        self.source
    }

    /// The value produced while the source is true.
    pub closed spec fn if_true(&self) -> T {
        self.if_true
    }

    /// The value produced while the source is false.
    pub closed spec fn if_false(&self) -> T {
        self.if_false
    }

    /// The selected value: `if_true` while the source is true, `if_false`
    /// while it is false.
    pub fn get(&self) -> (r: T)
        ensures
            self.source().val() ==> cloned::<T>(self.if_true(), r),
            !self.source().val() ==> cloned::<T>(self.if_false(), r),
    {
        if *self.source.peek() {
            self.if_true.clone()
        } else {
            self.if_false.clone()
        }
    }

    /// Stores into the boolean source whether the written value equals the
    /// `if_true` value, and notifies the source's watchers once.
    pub fn set(&mut self, value: T) -> (event: Notification<bool>)
        ensures
            final(self).if_true() == old(self).if_true(),
            final(self).if_false() == old(self).if_false(),
            final(self).source().watcher_ids() == old(self).source().watcher_ids(),
            T::obeys_eq_spec() ==> final(self).source().val() == value.eq_spec(
                &old(self).if_true(),
            ),
            event.recipients@ == old(self).source().watcher_ids(),
            event.context.value == final(self).source().val(),
            event.context.metadata.is_empty_spec(),
            final(self).source().wf() == old(self).source().wf(),
    {
        let chosen = value == self.if_true;
        self.source.set(chosen)
    }
}

/// A derived binding unwrapping an optional source with a fixed fallback.
pub struct UnwrapOr<T> {
    source: Binding<Option<T>>,
    default: T,
}

impl<T: Clone> UnwrapOr<T> {
    /// The optional source binding.
    pub closed spec fn source(&self) -> Binding<Option<T>> {
        self.source
    }

    /// The fallback value produced while the source is empty.
    pub closed spec fn default(&self) -> T {
        self.default
    }

    /// The source's value when present, the fallback otherwise.
    pub fn get(&self) -> (r: T)
        ensures
            self.source().val() is Some ==> cloned::<T>(self.source().val()->0, r),
            self.source().val() is None ==> cloned::<T>(self.default(), r),
    {
        match self.source.peek() {
            Some(v) => v.clone(),
            None => self.default.clone(),
        }
    }

    /// Wraps the value in `Some`, stores it in the source, and notifies the
    /// source's watchers once.
    pub fn set(&mut self, value: T) -> (event: Notification<Option<T>>)
        ensures
            final(self).source().val() == Some(value),
            final(self).default() == old(self).default(),
            final(self).source().watcher_ids() == old(self).source().watcher_ids(),
            event.recipients@ == old(self).source().watcher_ids(),
            cloned::<Option<T>>(Some(value), event.context.value),
            event.context.metadata.is_empty_spec(),
            final(self).source().wf() == old(self).source().wf(),
    {
        self.source.set(Some(value))
    }
}

/// A derived boolean binding tracking whether an optional source holds one
/// particular value.
pub struct SomeEqualTo<T> {
    source: Binding<Option<T>>,
    equal: T,
}

impl<T: Clone + PartialEq> SomeEqualTo<T> {
    /// The optional source binding.
    pub closed spec fn source(&self) -> Binding<Option<T>> {
        self.source
    }

    /// The value whose presence is tracked.
    pub closed spec fn equal(&self) -> T {
        self.equal
    }

    /// Whether the source holds exactly the tracked value.
    pub fn get(&self) -> (r: bool)
        ensures
            T::obeys_eq_spec() ==> r == (self.source().val() is Some
                && self.source().val()->0.eq_spec(&self.equal())),
    {
        match self.source.peek() {
            Some(v) => *v == self.equal,
            None => false,
        }
    }

    /// Writing `true` stores `Some` of the tracked value in the source and
    /// notifies its watchers once; writing `false` changes nothing and
    /// notifies nobody.
    pub fn set(&mut self, value: bool) -> (event: Option<Notification<Option<T>>>)
        ensures
            final(self).equal() == old(self).equal(),
            final(self).source().watcher_ids() == old(self).source().watcher_ids(),
            value ==> {
                &&& final(self).source().val() is Some
                &&& cloned::<T>(old(self).equal(), final(self).source().val()->0)
                &&& event is Some
                &&& event->0.recipients@ == old(self).source().watcher_ids()
                &&& event->0.context.metadata.is_empty_spec()
            },
            !value ==> {
                &&& *final(self) == *old(self)
                &&& event is None
            },
            final(self).source().wf() == old(self).source().wf(),
    {
        if value {
            Some(self.source.set(Some(self.equal.clone())))
        } else {
            None
        }
    }
}

/// The round-trip law of a selecting binding: writing one of the two
/// selectable values through [`Select::set`] drives the boolean source to
/// the state whose [`Select::get`] reproduces exactly that value, provided
/// the two selectable values differ.
///
/// `source_after` is what the source holds after the write, as
/// [`Select::set`] ensures; the selected value it implies is the written
/// one.
pub proof fn lemma_select_roundtrip<T: PartialEq>(if_true: T, if_false: T, v: T)
    requires
        T::obeys_eq_spec(),
        v == if_true || v == if_false,
        !if_false.eq_spec(&if_true),
        if_true.eq_spec(&if_true),
    ensures
        ({
            let source_after = v.eq_spec(&if_true);
            (if source_after {
                if_true
            } else {
                if_false
            }) == v
        }),
{
}

} // verus!

