//! Two-way reactive bindings: the mutable leaf node of the computation graph
//! and the registry-backed notification discipline around it.
//!
//! A [`Container`] owns a value and a watcher registry. Setting the value
//! replaces it and produces exactly one [`Notification`] carrying the new
//! value, an empty metadata chain, and the snapshot of watchers registered at
//! that moment. A [`Binding`] is the handle the rest of the crate works with;
//! it is backed by a container and adds typed convenience operations.

use vstd::multiset::Multiset;
use vstd::prelude::*;

use crate::signal::{CustomBinding, Signal};
use crate::watcher::{Metadata, Notification, WatcherManager, WatcherManagerGuard};

verus! {

/// Pointwise `Clone` relation between two sequences.
pub open spec fn seq_cloned<T: Clone>(a: Seq<T>, b: Seq<T>) -> bool {
    b.len() == a.len() && forall|i: int| 0 <= i < a.len() ==> cloned::<T>(a[i], #[trigger] b[i])
}

/// The terminal mutable value node: a value plus the registry of watchers
/// interested in its changes.
#[derive(Debug, Clone)]
pub struct Container<T> {
    value: T,
    watchers: WatcherManager,
}

impl<T> Container<T> {
    /// The current value.
    pub closed spec fn val(&self) -> T {
        self.value
    }

    /// The registered watcher identifiers, in registration order.
    pub closed spec fn watcher_ids(&self) -> Seq<u64> {
        self.watchers.watchers()
    }

    /// The identifier the next watcher registration will receive.
    pub closed spec fn next_id(&self) -> u64 {
        self.watchers.next_id()
    }

    /// The registry invariant: identifiers unique, increasing, and below the
    /// next one to hand out. Constructors establish it and every operation
    /// preserves it.
    pub closed spec fn wf(&self) -> bool {
        self.watchers.wf()
    }

    /// Creates a container holding `value`, with no watcher registered.
    pub fn new(value: T) -> (r: Self)
        ensures
            r.val() == value,
            r.watcher_ids() == Seq::<u64>::empty(),
            r.next_id() == 1,
            r.wf(),
    {
        Container { value, watchers: WatcherManager::new() }
    }

    /// Borrows the current value without side effects.
    pub fn peek(&self) -> (r: &T)
        ensures
            r == &self.val(),
    {
        &self.value
    }

    /// Registers a watcher; the returned guard cancels it when handed to
    /// [`Container::unwatch`].
    pub fn watch(&mut self) -> (guard: WatcherManagerGuard)
        requires
            old(self).wf(),
            old(self).next_id() < u64::MAX,
        ensures
            final(self).wf(),
            final(self).val() == old(self).val(),
            guard.id == old(self).next_id(),
            final(self).next_id() == old(self).next_id() + 1,
            final(self).watcher_ids() == old(self).watcher_ids().push(guard.id),
    {
        self.watchers.register_as_guard()
    }

    /// Cancels the watcher a guard stands for; releasing a guard twice is a
    /// no-op the second time.
    pub fn unwatch(&mut self, guard: WatcherManagerGuard)
        requires
            old(self).wf(),
        ensures
            final(self).wf(),
            final(self).val() == old(self).val(),
            final(self).next_id() == old(self).next_id(),
            final(self).watcher_ids() == old(self).watcher_ids().filter(
                |w: u64| w != guard.id,
            ),
    {
        self.watchers.cancel(guard.id);
    }

    /// Replaces the value and returns the notification round for the change:
    /// every watcher registered at this moment receives the new value exactly
    /// once, in registration order, with an empty metadata chain.
    pub fn set(&mut self, value: T) -> (n: Notification<T>)
        where
            T: Clone,
        ensures
            final(self).val() == value,
            final(self).watcher_ids() == old(self).watcher_ids(),
            final(self).next_id() == old(self).next_id(),
            n.recipients@ == old(self).watcher_ids(),
            cloned::<T>(value, n.context.value),
            n.context.metadata.is_empty_spec(),
            n.context.metadata.wf(),
            final(self).wf() == old(self).wf(),
    {
        let n = self.watchers.notify(value.clone(), Metadata::new());
        self.value = value;
        n
    }

    /// Replaces the value like [`Container::set`], attaching the given
    /// metadata chain to the notification instead of an empty one.
    pub fn set_with_metadata(&mut self, value: T, metadata: Metadata) -> (n: Notification<T>)
        where
            T: Clone,
        ensures
            final(self).val() == value,
            final(self).watcher_ids() == old(self).watcher_ids(),
            final(self).next_id() == old(self).next_id(),
            n.recipients@ == old(self).watcher_ids(),
            cloned::<T>(value, n.context.value),
            n.context.metadata == metadata,
            final(self).wf() == old(self).wf(),
    {
        let n = self.watchers.notify(value.clone(), metadata);
        self.value = value;
        n
    }
}

impl<T: Clone> Container<T> {
    /// An independent container with the same value and watcher snapshot.
    pub fn duplicate(&self) -> (r: Self)
        ensures
            cloned::<T>(self.val(), r.val()),
            r.watcher_ids() == self.watcher_ids(),
            r.next_id() == self.next_id(),
            r.wf() == self.wf(),
    {
        Container { value: self.value.clone(), watchers: self.watchers.duplicate() }
    }
}

impl<T: Clone> Signal for Container<T> {
    type Output = T;

    open spec fn obs(&self, value: T) -> bool {
        cloned::<T>(self.val(), value)
    }

    fn get(&self) -> (r: T) {
        self.value.clone()
    }
}

impl<T: Clone> CustomBinding for Container<T> {
    type Event = Notification<T>;

    open spec fn set_spec(&self, value: T, after: &Self, event: &Notification<T>) -> bool {
        &&& after.val() == value
        &&& after.watcher_ids() == self.watcher_ids()
        &&& event.recipients@ == self.watcher_ids()
        &&& cloned::<T>(value, event.context.value)
        &&& event.context.metadata.is_empty_spec()
    }

    fn set(&mut self, value: T) -> (event: Notification<T>) {
        Container::set(self, value)
    }
}

/// A mutable, observable value: the handle the rest of the crate and its
/// callers work with. It is backed by a [`Container`].
#[derive(Debug, Clone)]
pub struct Binding<T> {
    container: Container<T>,
}

/// Creates a new binding holding `value`.
pub fn binding<T>(value: T) -> (r: Binding<T>)
    ensures
        r.val() == value,
        r.watcher_ids() == Seq::<u64>::empty(),
        r.wf(),
{
    Binding::container(value)
}

impl<T> Binding<T> {
    /// The current value.
    pub closed spec fn val(&self) -> T {
        self.container.val()
    }

    /// The registered watcher identifiers, in registration order.
    pub closed spec fn watcher_ids(&self) -> Seq<u64> {
        self.container.watcher_ids()
    }

    /// The identifier the next watcher registration will receive.
    pub closed spec fn next_id(&self) -> u64 {
        self.container.next_id()
    }

    /// The backing registry's invariant; constructors establish it and every
    /// operation preserves it.
    pub closed spec fn wf(&self) -> bool {
        self.container.wf()
    }

    /// Creates a binding from a value by wrapping it in a container.
    pub fn container(value: T) -> (r: Self)
        ensures
            r.val() == value,
            r.watcher_ids() == Seq::<u64>::empty(),
            r.next_id() == 1,
            r.wf(),
    {
        Binding { container: Container::new(value) }
    }

    /// Creates a binding around an existing container.
    pub fn custom(container: Container<T>) -> (r: Self)
        ensures
            r.val() == container.val(),
            r.watcher_ids() == container.watcher_ids(),
            r.next_id() == container.next_id(),
            r.wf() == container.wf(),
    {
        Binding { container }
    }

    /// Borrows the current value without side effects.
    pub fn peek(&self) -> (r: &T)
        ensures
            r == &self.val(),
    {
        self.container.peek()
    }

    /// Borrows the backing container.
    pub fn peek_container(&self) -> (r: &Container<T>)
        ensures
            r.val() == self.val(),
            r.watcher_ids() == self.watcher_ids(),
            r.next_id() == self.next_id(),
            r.wf() == self.wf(),
    {
        &self.container
    }

    /// Registers a watcher on the backing container.
    pub fn watch(&mut self) -> (guard: WatcherManagerGuard)
        requires
            old(self).wf(),
            old(self).next_id() < u64::MAX,
        ensures
            final(self).wf(),
            final(self).val() == old(self).val(),
            guard.id == old(self).next_id(),
            final(self).next_id() == old(self).next_id() + 1,
            final(self).watcher_ids() == old(self).watcher_ids().push(guard.id),
    {
        self.container.watch()
    }

    /// Cancels the watcher a guard stands for.
    pub fn unwatch(&mut self, guard: WatcherManagerGuard)
        requires
            old(self).wf(),
        ensures
            final(self).wf(),
            final(self).val() == old(self).val(),
            final(self).next_id() == old(self).next_id(),
            final(self).watcher_ids() == old(self).watcher_ids().filter(
                |w: u64| w != guard.id,
            ),
    {
        self.container.unwatch(guard)
    }
}

impl<T: Clone> Binding<T> {
    /// Gets a clone of the current value, with no side effects.
    pub fn get(&self) -> (r: T)
        ensures
            cloned::<T>(self.val(), r),
    {
        self.container.get()
    }

    /// Sets the binding to a new value; every watcher registered before the
    /// call receives the new value exactly once.
    pub fn set(&mut self, value: T) -> (n: Notification<T>)
        ensures
            final(self).val() == value,
            final(self).watcher_ids() == old(self).watcher_ids(),
            final(self).next_id() == old(self).next_id(),
            n.recipients@ == old(self).watcher_ids(),
            cloned::<T>(value, n.context.value),
            n.context.metadata.is_empty_spec(),
            n.context.metadata.wf(),
            final(self).wf() == old(self).wf(),
    {
        self.container.set(value)
    }

    /// Applies a function to the current value and stores the result,
    /// notifying once in total: the idiom for composite in-place edits that
    /// must appear as a single observable change.
    pub fn handle<F: FnOnce(T) -> T>(&mut self, handler: F) -> (n: Notification<T>)
        requires
            forall|v: T| cloned::<T>(old(self).val(), v) ==> #[trigger] call_requires(handler, (v,)),
        ensures
            exists|v: T, nv: T|
                {
                    &&& cloned::<T>(old(self).val(), v)
                    &&& #[trigger] call_ensures(handler, (v,), nv)
                    &&& final(self).val() == nv
                },
            final(self).watcher_ids() == old(self).watcher_ids(),
            n.recipients@ == old(self).watcher_ids(),
            cloned::<T>(final(self).val(), n.context.value),
            n.context.metadata.is_empty_spec(),
            final(self).wf() == old(self).wf(),
    {
        let cur = self.container.get();
        let ghost gv = cur;
        let next = handler(cur);
        let ghost gnv = next;
        let n = self.container.set(next);
        proof {
            assert(cloned::<T>(old(self).val(), gv) && call_ensures(handler, (gv,), gnv));
        }
        n
    }
}

impl<T: Clone> Signal for Binding<T> {
    type Output = T;

    open spec fn obs(&self, value: T) -> bool {
        cloned::<T>(self.val(), value)
    }

    fn get(&self) -> (r: T) {
        Binding::get(self)
    }
}

impl<T: Clone> CustomBinding for Binding<T> {
    type Event = Notification<T>;

    open spec fn set_spec(&self, value: T, after: &Self, event: &Notification<T>) -> bool {
        &&& after.val() == value
        &&& after.watcher_ids() == self.watcher_ids()
        &&& event.recipients@ == self.watcher_ids()
        &&& cloned::<T>(value, event.context.value)
        &&& event.context.metadata.is_empty_spec()
    }

    fn set(&mut self, value: T) -> (event: Notification<T>) {
        Binding::set(self, value)
    }
}

impl Binding<i32> {
    /// Creates a new integer binding with the given value.
    pub fn integer(i: i32) -> (r: Self)
        ensures
            r.val() == i,
            r.watcher_ids() == Seq::<u64>::empty(),
            r.wf(),
    {
        Self::container(i)
    }

    /// Increments the value by `n` and notifies watchers once.
    pub fn increment(&mut self, n: i32) -> (event: Notification<i32>)
        requires
            i32::MIN <= old(self).val() + n <= i32::MAX,
        ensures
            final(self).val() == old(self).val() + n,
            final(self).watcher_ids() == old(self).watcher_ids(),
            event.recipients@ == old(self).watcher_ids(),
            event.context.value == final(self).val(),
            event.context.metadata.is_empty_spec(),
    {
        let cur = *self.container.peek();
        self.container.set(cur + n)
    }

    /// Decrements the value by `n` and notifies watchers once.
    pub fn decrement(&mut self, n: i32) -> (event: Notification<i32>)
        requires
            i32::MIN <= old(self).val() - n <= i32::MAX,
        ensures
            final(self).val() == old(self).val() - n,
            final(self).watcher_ids() == old(self).watcher_ids(),
            event.recipients@ == old(self).watcher_ids(),
            event.context.value == final(self).val(),
            event.context.metadata.is_empty_spec(),
    {
        let cur = *self.container.peek();
        self.container.set(cur - n)
    }
}

impl Binding<bool> {
    /// Creates a new boolean binding with the given value.
    pub fn bool(value: bool) -> (r: Self)
        ensures
            r.val() == value,
            r.watcher_ids() == Seq::<u64>::empty(),
            r.wf(),
    {
        Self::container(value)
    }

    /// Flips the boolean value and notifies watchers once.
    pub fn toggle(&mut self) -> (event: Notification<bool>)
        ensures
            final(self).val() == !old(self).val(),
            final(self).watcher_ids() == old(self).watcher_ids(),
            event.recipients@ == old(self).watcher_ids(),
            event.context.value == final(self).val(),
            event.context.metadata.is_empty_spec(),
    {
        let cur = *self.container.peek();
        self.container.set(!cur)
    }
}

impl<T: Clone> Binding<Vec<T>> {
    /// Appends `value` to the vector and notifies watchers once with the new
    /// full contents.
    pub fn push(&mut self, value: T) -> (event: Notification<Vec<T>>)
        ensures
            exists|c: Seq<T>|
                {
                    &&& #[trigger] seq_cloned(old(self).val()@, c)
                    &&& final(self).val()@ == c.push(value)
                },
            final(self).val()@.len() == old(self).val()@.len() + 1,
            final(self).val()@.last() == value,
            final(self).watcher_ids() == old(self).watcher_ids(),
            event.recipients@ == old(self).watcher_ids(),
            seq_cloned(final(self).val()@, event.context.value@),
            event.context.metadata.is_empty_spec(),
    {
        let mut items = self.container.get();
        let ghost c = items@;
        items.push(value);
        let event = self.store_items(items);
        proof {
            assert(seq_cloned(old(self).val()@, c));
        }
        event
    }

    /// Inserts `element` at `index` and notifies watchers once.
    pub fn insert(&mut self, index: usize, element: T) -> (event: Notification<Vec<T>>)
        requires
            index <= old(self).val()@.len(),
        ensures
            exists|c: Seq<T>|
                {
                    &&& #[trigger] seq_cloned(old(self).val()@, c)
                    &&& final(self).val()@ == c.insert(index as int, element)
                },
            final(self).val()@.len() == old(self).val()@.len() + 1,
            final(self).val()@[index as int] == element,
            final(self).watcher_ids() == old(self).watcher_ids(),
            event.recipients@ == old(self).watcher_ids(),
            seq_cloned(final(self).val()@, event.context.value@),
            event.context.metadata.is_empty_spec(),
    {
        let mut items = self.container.get();
        let ghost c = items@;
        items.insert(index, element);
        let event = self.store_items(items);
        proof {
            assert(seq_cloned(old(self).val()@, c));
        }
        event
    }

    /// Removes and returns the last element, or `None` when the vector is
    /// empty. Notifies watchers once either way, matching the one
    /// notification every `set`-backed edit produces.
    pub fn pop(&mut self) -> (r: (Option<T>, Notification<Vec<T>>))
        ensures
            old(self).val()@.len() == 0 ==> {
                &&& r.0 is None
                &&& final(self).val()@.len() == 0
            },
            old(self).val()@.len() > 0 ==> {
                &&& r.0 is Some && cloned::<T>(old(self).val()@.last(), r.0->0)
                &&& final(self).val()@.len() == old(self).val()@.len() - 1
                &&& seq_cloned(old(self).val()@.drop_last(), final(self).val()@)
            },
            final(self).watcher_ids() == old(self).watcher_ids(),
            r.1.recipients@ == old(self).watcher_ids(),
            seq_cloned(final(self).val()@, r.1.context.value@),
            r.1.context.metadata.is_empty_spec(),
    {
        let mut items = self.container.get();
        let ghost c = items@;
        let popped = items.pop();
        let event = self.store_items(items);
        proof {
            if old(self).val()@.len() > 0 {
                assert(cloned::<T>(old(self).val()@.last(), c.last()));
                assert forall|i: int|
                    0 <= i < old(self).val()@.drop_last().len() implies cloned::<T>(
                    old(self).val()@.drop_last()[i],
                    #[trigger] c.drop_last()[i],
                ) by {
                    assert(cloned::<T>(old(self).val()@[i], c[i]));
                }
            }
        }
        (popped, event)
    }

    /// Removes all elements and notifies watchers once.
    pub fn clear(&mut self) -> (event: Notification<Vec<T>>)
        ensures
            final(self).val()@.len() == 0,
            final(self).watcher_ids() == old(self).watcher_ids(),
            event.recipients@ == old(self).watcher_ids(),
            event.context.value@.len() == 0,
            event.context.metadata.is_empty_spec(),
    {
        let mut items = self.container.get();
        items.clear();
        self.store_items(items)
    }

    /// Stores a vector back, notifying watchers once.
    fn store_items(&mut self, items: Vec<T>) -> (event: Notification<Vec<T>>)
        ensures
            final(self).val()@ == items@,
            final(self).watcher_ids() == old(self).watcher_ids(),
            final(self).next_id() == old(self).next_id(),
            event.recipients@ == old(self).watcher_ids(),
            seq_cloned(items@, event.context.value@),
            event.context.metadata.is_empty_spec(),
            final(self).wf() == old(self).wf(),
    {
        let event = self.container.set(items);
        proof {
            assert(seq_cloned(final(self).val()@, event.context.value@));
        }
        event
    }
}

/// Whether a sequence of integers is in nondecreasing order.
pub open spec fn sorted(s: Seq<i64>) -> bool {
    forall|p: int, q: int| 0 <= p < q < s.len() ==> s[p] <= s[q]
}

impl Binding<Vec<i64>> {
    /// Sorts the vector in nondecreasing order and notifies watchers once.
    pub fn sort(&mut self) -> (event: Notification<Vec<i64>>)
        ensures
            sorted(final(self).val()@),
            final(self).val()@.to_multiset() == old(self).val()@.to_multiset(),
            final(self).watcher_ids() == old(self).watcher_ids(),
            event.recipients@ == old(self).watcher_ids(),
            seq_cloned(final(self).val()@, event.context.value@),
            event.context.metadata.is_empty_spec(),
            final(self).wf() == old(self).wf(),
    {
        let mut work = self.container.get();
        proof {
            assert(work@ =~= self.val()@);
        }
        let ghost orig = work@;
        let mut out: Vec<i64> = Vec::new();
        proof {
            broadcast use vstd::seq_lib::group_to_multiset_ensures;

            assert(out@.to_multiset().add(work@.to_multiset()) =~= orig.to_multiset());
        }
        while work.len() > 0
            invariant
                sorted(out@),
                forall|p: int, q: int|
                    0 <= p < out@.len() && 0 <= q < work@.len() ==> out@[p] <= work@[q],
                out@.to_multiset().add(work@.to_multiset()) == orig.to_multiset(),
            decreases work@.len(),
        {
            let mut m: usize = 0;
            let mut k: usize = 1;
            while k < work.len()
                invariant
                    1 <= k <= work@.len(),
                    m < k,
                    work@.len() > 0,
                    forall|q: int| 0 <= q < k ==> work@[m as int] <= work@[q],
                decreases work@.len() - k,
            {
                if work[k] < work[m] {
                    m = k;
                }
                k = k + 1;
            }
            let ghost w0 = work@;
            let ghost o0 = out@;
            let ghost gm = m as int;
            let x = work.remove(m);
            out.push(x);
            proof {
                broadcast use vstd::seq_lib::group_to_multiset_ensures;

                assert(work@ == w0.remove(gm));
                assert(out@ == o0.push(x));
                assert(work@.to_multiset() =~= w0.to_multiset().remove(x));
                assert(out@.to_multiset() =~= o0.to_multiset().insert(x));
                assert(w0.to_multiset().count(x) > 0) by {
                    assert(w0.contains(x)) by {
                        assert(w0[gm] == x);
                    }
                }
                assert(out@.to_multiset().add(work@.to_multiset()) =~= orig.to_multiset());
            }
        }
        proof {
            broadcast use vstd::seq_lib::group_to_multiset_ensures;

            assert(work@.to_multiset() =~= Multiset::<i64>::empty());
            assert(out@.to_multiset() =~= orig.to_multiset());
            assert(out@.to_multiset() == orig.to_multiset());
        }
        self.store_i64_items(out)
    }

    /// Stores a vector of integers back, notifying watchers once.
    fn store_i64_items(&mut self, items: Vec<i64>) -> (event: Notification<Vec<i64>>)
        ensures
            final(self).val()@ == items@,
            final(self).watcher_ids() == old(self).watcher_ids(),
            event.recipients@ == old(self).watcher_ids(),
            seq_cloned(items@, event.context.value@),
            event.context.metadata.is_empty_spec(),
            final(self).wf() == old(self).wf(),
    {
        self.container.set(items)
    }
}

impl Binding<String> {
    /// Appends a suffix to the string and notifies watchers once.
    pub fn append(&mut self, suffix: &str) -> (event: Notification<String>)
        ensures
            final(self).val()@ == old(self).val()@ + suffix@,
            final(self).watcher_ids() == old(self).watcher_ids(),
            event.recipients@ == old(self).watcher_ids(),
            event.context.value@ == final(self).val()@,
            event.context.metadata.is_empty_spec(),
            final(self).wf() == old(self).wf(),
    {
        let mut value = self.container.get();
        proof {
            assert(value@ == self.val()@);
        }
        value.append(suffix);
        self.container.set(value)
    }
}

/// A staged edit of a binding's value: the caller mutates the copy held
/// here, then commits it back in one step, which notifies once.
#[derive(Debug, Clone)]
pub struct BindingMutGuard<T> {
    /// The staged value; committing stores it in the binding.
    pub value: T,
}

impl<T: Clone> Binding<T> {
    /// Stages an edit of this binding's value; committing the guard stores
    /// the edited value back and notifies once.
    pub fn get_mut(&self) -> (r: BindingMutGuard<T>)
        ensures
            cloned::<T>(self.val(), r.value),
    {
        BindingMutGuard::new(self)
    }
}

impl<T: Clone> BindingMutGuard<T> {
    /// Stages an edit starting from the binding's current value.
    pub fn new(binding: &Binding<T>) -> (r: Self)
        ensures
            cloned::<T>(binding.val(), r.value),
    {
        BindingMutGuard { value: binding.get() }
    }

    /// Commits the staged value into the binding, notifying its watchers
    /// once.
    pub fn commit(self, binding: &mut Binding<T>) -> (n: Notification<T>)
        ensures
            final(binding).val() == self.value,
            final(binding).watcher_ids() == old(binding).watcher_ids(),
            n.recipients@ == old(binding).watcher_ids(),
            cloned::<T>(self.value, n.context.value),
            n.context.metadata.is_empty_spec(),
            final(binding).wf() == old(binding).wf(),
    {
        binding.set(self.value)
    }
}

} // verus!
