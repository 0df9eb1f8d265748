//! Watcher management: metadata side-channels, notification contexts, and the
//! registry of watcher identifiers that every mutable signal node owns.
//!
//! Watchers are identified by numbers handed out by a [`WatcherManager`].
//! Notifying watchers is an explicit step: a mutation returns a
//! [`Notification`], which records the exact snapshot of watcher identifiers
//! taken at notification time together with the delivered context. The caller
//! that owns the actual callbacks dispatches the context to each recipient in
//! the order recorded.

use vstd::prelude::*;

verus! {

/// A side-channel of typed annotations attached to a notification.
///
/// Each annotation type is represented by a numeric key; at most one value is
/// held per key. Adding a value for a key that is already present replaces
/// that entry and no other.
#[derive(Debug, Clone)]
pub struct Metadata {
    entries: Vec<MetaEntry>,
}

/// One keyed annotation inside a [`Metadata`] chain.
#[derive(Debug, Clone, Copy, PartialEq, Eq, Structural)]
pub struct MetaEntry {
    /// The identity of the annotation type.
    pub key: u64,
    /// The annotation payload.
    pub value: u64,
}

impl Metadata {
    /// The sequence of entries held, in insertion order.
    pub closed spec fn entries(&self) -> Seq<MetaEntry> {
        self.entries@
    }

    /// Whether every key occurs at most once.
    pub open spec fn wf(&self) -> bool {
        forall|i: int, j: int|
            0 <= i < j < self.entries().len() ==> self.entries()[i].key != self.entries()[j].key
    }

    /// The value recorded for `key`, if any.
    pub open spec fn lookup(&self, key: u64) -> Option<u64> {
        if exists|i: int| 0 <= i < self.entries().len() && self.entries()[i].key == key {
            let i = choose|i: int| 0 <= i < self.entries().len() && self.entries()[i].key == key;
            Some(self.entries()[i].value)
        } else {
            None
        }
    }

    /// Creates an empty metadata chain.
    pub fn new() -> (r: Self)
        ensures
            r.entries() == Seq::<MetaEntry>::empty(),
            r.wf(),
            r.is_empty_spec(),
    {
        Metadata { entries: Vec::new() }
    }

    /// Looks `key` up, returning `None` when no value of that key is present.
    pub fn try_get(&self, key: u64) -> (r: Option<u64>)
        requires
            self.wf(),
        ensures
            r == self.lookup(key),
    {
        let n = self.entries.len();
        for i in 0..n
            invariant
                n == self.entries().len(),
                self.wf(),
                forall|j: int| 0 <= j < i ==> self.entries()[j].key != key,
        {
            if self.entries[i].key == key {
                return Some(self.entries[i].value);
            }
        }
        proof {
            assert(forall|i: int|
                0 <= i < self.entries().len() ==> self.entries()[i].key != key);
        }
        None
    }

    /// Looks `key` up; the key must be present.
    ///
    /// A caller that cannot guarantee presence uses [`Metadata::try_get`]
    /// instead.
    pub fn get(&self, key: u64) -> (r: u64)
        requires
            self.wf(),
            self.lookup(key) is Some,
        ensures
            Some(r) == self.lookup(key),
    {
        let got = self.try_get(key);
        got.unwrap()
    }

    /// When some entry carries `key`, `lookup` returns exactly its value.
    proof fn lemma_lookup_at(self, i: int)
        requires
            self.wf(),
            0 <= i < self.entries().len(),
        ensures
            self.lookup(self.entries()[i].key) == Some(self.entries()[i].value),
    {
        let key = self.entries()[i].key;
        let j = choose|j: int| 0 <= j < self.entries().len() && self.entries()[j].key == key;
        assert(j == i);
    }

    /// When no entry carries `key`, `lookup` returns nothing.
    proof fn lemma_lookup_absent(self, key: u64)
        requires
            forall|i: int| 0 <= i < self.entries().len() ==> self.entries()[i].key != key,
        ensures
            self.lookup(key) == None::<u64>,
    {
    }

    /// Returns this chain extended with `value` under `key`.
    ///
    /// An existing entry for the same key is replaced; entries under every
    /// other key are untouched.
    pub fn with(&self, key: u64, value: u64) -> (r: Self)
        requires
            self.wf(),
        ensures
            r.wf(),
            r.lookup(key) == Some(value),
            forall|k: u64| k != key ==> #[trigger] r.lookup(k) == self.lookup(k),
            !r.is_empty_spec(),
    {
        let mut entries = self.entries.clone();
        proof {
            assert(entries@ =~= self.entries());
        }
        let n = entries.len();
        for i in 0..n
            invariant
                n == entries@.len(),
                entries@ == self.entries(),
                self.wf(),
                forall|j: int| 0 <= j < i ==> entries@[j].key != key,
        {
            if entries[i].key == key {
                let ghost gi = i as int;
                entries.set(i, MetaEntry { key, value });
                let r = Metadata { entries };
                proof {
                    Self::lemma_same_positions(*self, r, key, value, gi);
                }
                return r;
            }
        }
        proof {
            self.lemma_lookup_absent(key);
        }
        entries.push(MetaEntry { key, value });
        let r = Metadata { entries };
        proof {
            let ghost last = r.entries().len() - 1;
            assert(forall|j: int| 0 <= j < last ==> r.entries()[j] == self.entries()[j]);
            r.lemma_lookup_at(last);
            assert forall|k: u64| k != key implies #[trigger] r.lookup(k) == self.lookup(k) by {
                Self::lemma_other_keys(*self, r, key, k, last);
            }
        }
        r
    }

    /// After replacing the entry at position `i` (which carried `key`), every
    /// other key still looks up to what it did before.
    proof fn lemma_same_positions(pre: Self, post: Self, key: u64, value: u64, i: int)
        requires
            pre.wf(),
            0 <= i < pre.entries().len(),
            pre.entries()[i].key == key,
            post.entries() == pre.entries().update(i, MetaEntry { key, value }),
        ensures
            post.wf(),
            post.lookup(key) == Some(value),
            forall|k: u64| k != key ==> #[trigger] post.lookup(k) == pre.lookup(k),
            !post.is_empty_spec(),
    {
        assert(post.wf());
        post.lemma_lookup_at(i);
        assert forall|k: u64| k != key implies post.lookup(k) == pre.lookup(k) by {
            if exists|j: int| 0 <= j < pre.entries().len() && pre.entries()[j].key == k {
                let j = choose|j: int| 0 <= j < pre.entries().len() && pre.entries()[j].key == k;
                assert(j != i);
                assert(post.entries()[j] == pre.entries()[j]);
                pre.lemma_lookup_at(j);
                post.lemma_lookup_at(j);
            } else {
                pre.lemma_lookup_absent(k);
                assert(forall|j: int|
                    0 <= j < post.entries().len() ==> post.entries()[j].key != k);
                post.lemma_lookup_absent(k);
            }
        }
    }

    /// After appending an entry for `key` at position `last`, every other key
    /// still looks up to what it did before.
    proof fn lemma_other_keys(pre: Self, post: Self, key: u64, k: u64, last: int)
        requires
            pre.wf(),
            post.wf(),
            k != key,
            last == post.entries().len() - 1,
            post.entries().len() == pre.entries().len() + 1,
            post.entries()[last].key == key,
            forall|j: int| 0 <= j < last ==> post.entries()[j] == pre.entries()[j],
        ensures
            post.lookup(k) == pre.lookup(k),
    {
        if exists|j: int| 0 <= j < pre.entries().len() && pre.entries()[j].key == k {
            let j = choose|j: int| 0 <= j < pre.entries().len() && pre.entries()[j].key == k;
            pre.lemma_lookup_at(j);
            assert(post.entries()[j] == pre.entries()[j]);
            post.lemma_lookup_at(j);
        } else {
            pre.lemma_lookup_absent(k);
            assert forall|j: int|
                0 <= j < post.entries().len() implies post.entries()[j].key != k by {
                if j < last {
                    assert(pre.entries()[j].key != k);
                }
            }
            post.lemma_lookup_absent(k);
        }
    }

    /// An independent chain with the same entries.
    pub fn duplicate(&self) -> (r: Self)
        ensures
            r.entries() == self.entries(),
    {
        let entries = self.entries.clone();
        proof {
            assert(entries@ =~= self.entries());
        }
        Metadata { entries }
    }

    /// Whether the chain holds no annotation at all.
    pub open spec fn is_empty_spec(&self) -> bool {
        self.entries().len() == 0
    }

    /// Checks whether the chain holds no annotation.
    pub fn is_empty(&self) -> (r: bool)
        ensures
            r == self.is_empty_spec(),
    {
        self.entries.len() == 0
    }
}

/// The envelope delivered to a watcher: the new value together with the
/// metadata chain attached upstream.
#[derive(Debug, Clone)]
pub struct Context<T> {
    /// The value being delivered.
    pub value: T,
    /// The annotations attached to this delivery.
    pub metadata: Metadata,
}

impl<T> Context<T> {
    /// Creates a context carrying `value` and `metadata`.
    pub fn new(value: T, metadata: Metadata) -> (r: Self)
        ensures
            r.value == value,
            r.metadata == metadata,
    {
        Context { value, metadata }
    }

    /// Creates a context carrying `value` and no metadata.
    pub fn of(value: T) -> (r: Self)
        ensures
            r.value == value,
            r.metadata.entries() == Seq::<MetaEntry>::empty(),
            r.metadata.wf(),
    {
        Context { value, metadata: Metadata::new() }
    }

    /// Returns this context with one more annotation attached.
    pub fn with(self, key: u64, value: u64) -> (r: Self)
        requires
            self.metadata.wf(),
        ensures
            r.value == self.value,
            r.metadata.wf(),
            r.metadata.lookup(key) == Some(value),
            forall|k: u64| k != key ==> #[trigger] r.metadata.lookup(k) == self.metadata.lookup(k),
    {
        Context { value: self.value, metadata: self.metadata.with(key, value) }
    }

    /// Consumes the context and returns the delivered value.
    pub fn into_value(self) -> (r: T)
        ensures
            r == self.value,
    {
        self.value
    }

    /// Borrows the delivered value.
    pub fn value(&self) -> (r: &T)
        ensures
            r == &self.value,
    {
        &self.value
    }

    /// Borrows the metadata chain.
    pub fn metadata(&self) -> (r: &Metadata)
        ensures
            r == &self.metadata,
    {
        &self.metadata
    }

    /// A context borrowing the delivered value, with the same metadata.
    pub fn as_ref(&self) -> (r: Context<&T>)
        ensures
            r.value == &self.value,
            r.metadata.entries() == self.metadata.entries(),
    {
        Context { value: &self.value, metadata: self.metadata.duplicate() }
    }

    /// Applies `f` to the delivered value, keeping the metadata.
    pub fn map<U, F: FnOnce(T) -> U>(self, f: F) -> (r: Context<U>)
        requires
            call_requires(f, (self.value,)),
        ensures
            call_ensures(f, (self.value,), r.value),
            r.metadata == self.metadata,
    {
        let Context { value, metadata } = self;
        Context { value: f(value), metadata }
    }
}

/// A handle standing for a registered watcher; releasing it through
/// [`WatcherManager::cancel`] stops future notifications to that watcher.
#[derive(Debug, Clone, Copy, PartialEq, Eq, Structural)]
pub struct WatcherManagerGuard {
    /// The identifier this guard cancels.
    pub id: u64,
}

/// The capability of cancelling a watcher registration.
///
/// It is a marker: every guard value identifies one registration, and handing
/// the guard back to the registry that issued it is the only cancellation
/// mechanism.
pub trait WatcherGuard {
}

impl WatcherGuard for WatcherManagerGuard {
}

impl WatcherGuard for () {
}

impl<T1: WatcherGuard, T2: WatcherGuard> WatcherGuard for (T1, T2) {
}

/// The record of one notification round: the snapshot of watcher identifiers
/// taken before any callback runs, and the context every one of them receives.
///
/// Watchers are notified in the order they appear in `recipients`, which is
/// their registration order.
#[derive(Debug, Clone)]
pub struct Notification<T> {
    /// The watcher identifiers captured by the snapshot, in registration
    /// order. Each receives the context exactly once.
    pub recipients: Vec<u64>,
    /// The context delivered to every recipient.
    pub context: Context<T>,
}

/// The registry of watcher identifiers owned by a mutable signal node.
///
/// Identifiers increase monotonically from 1; cancelling one watcher never
/// perturbs the identifiers of the others.
#[derive(Debug, Clone)]
pub struct WatcherManager {
    next_id: u64,
    watchers: Vec<u64>,
}

impl WatcherManager {
    /// The registered watcher identifiers, in registration order.
    pub closed spec fn watchers(&self) -> Seq<u64> {
        self.watchers@
    }

    /// The identifier the next registration will receive.
    pub closed spec fn next_id(&self) -> u64 {
        self.next_id
    }

    /// Every registered identifier is nonzero, below `next_id`, and the
    /// sequence is strictly increasing (registration order).
    pub open spec fn wf(&self) -> bool {
        &&& forall|i: int|
            0 <= i < self.watchers().len() ==> 0 < #[trigger] self.watchers()[i]
                < self.next_id()
        &&& forall|i: int, j: int|
            0 <= i < j < self.watchers().len() ==> self.watchers()[i] < self.watchers()[j]
        &&& self.next_id() >= 1
    }

    /// Creates an empty registry.
    pub fn new() -> (r: Self)
        ensures
            r.wf(),
            r.watchers() == Seq::<u64>::empty(),
            r.next_id() == 1,
    {
        WatcherManager { next_id: 1, watchers: Vec::new() }
    }

    /// Checks whether no watcher is registered.
    pub fn is_empty(&self) -> (r: bool)
        ensures
            r == (self.watchers().len() == 0),
    {
        self.watchers.len() == 0
    }

    /// Registers a new watcher and returns its identifier.
    ///
    /// The identifier space is effectively unbounded; a caller that could
    /// exhaust it has already misused the registry, so exhaustion is ruled
    /// out here rather than handled.
    pub fn register(&mut self) -> (id: u64)
        requires
            old(self).wf(),
            old(self).next_id() < u64::MAX,
        ensures
            final(self).wf(),
            id == old(self).next_id(),
            final(self).next_id() == old(self).next_id() + 1,
            final(self).watchers() == old(self).watchers().push(id),
    {
        let id = self.next_id;
        self.next_id = self.next_id + 1;
        self.watchers.push(id);
        proof {
            assert forall|i: int|
                0 <= i < self.watchers().len() implies 0 < #[trigger] self.watchers()[i]
                < self.next_id() by {
                if i < self.watchers().len() - 1 {
                    assert(self.watchers()[i] == old(self).watchers()[i]);
                }
            }
            assert forall|i: int, j: int|
                0 <= i < j < self.watchers().len() implies self.watchers()[i]
                < self.watchers()[j] by {
                assert(self.watchers()[i] == old(self).watchers()[i]);
                if j < self.watchers().len() - 1 {
                    assert(self.watchers()[j] == old(self).watchers()[j]);
                }
            }
        }
        id
    }

    /// Registers a new watcher and returns a guard holding its identifier.
    pub fn register_as_guard(&mut self) -> (guard: WatcherManagerGuard)
        requires
            old(self).wf(),
            old(self).next_id() < u64::MAX,
        ensures
            final(self).wf(),
            guard.id == old(self).next_id(),
            final(self).next_id() == old(self).next_id() + 1,
            final(self).watchers() == old(self).watchers().push(guard.id),
    {
        let id = self.register();
        WatcherManagerGuard { id }
    }

    /// Takes a snapshot of the registered watchers and pairs it with the
    /// context to deliver: one notification round.
    ///
    /// Every watcher registered at this moment receives the context exactly
    /// once, in registration order; watchers registered or cancelled later
    /// are unaffected.
    pub fn notify<T>(&self, value: T, metadata: Metadata) -> (n: Notification<T>)
        ensures
            n.recipients@ == self.watchers(),
            n.context.value == value,
            n.context.metadata == metadata,
    {
        let recipients = self.watchers.clone();
        proof {
            assert(recipients@ =~= self.watchers());
        }
        Notification { recipients, context: Context { value, metadata } }
    }

    /// An independent registry with the same registrations and next
    /// identifier.
    pub fn duplicate(&self) -> (r: Self)
        ensures
            r.watchers() == self.watchers(),
            r.next_id() == self.next_id(),
            r.wf() == self.wf(),
    {
        let watchers = self.watchers.clone();
        proof {
            assert(watchers@ =~= self.watchers());
        }
        let r = WatcherManager { next_id: self.next_id, watchers };
        proof {
            assert(r.watchers() == self.watchers());
            if self.wf() {
                assert(r.wf());
            }
            if r.wf() {
                assert(self.wf());
            }
        }
        r
    }

    /// Cancels the watcher registered under `id`.
    ///
    /// Cancelling an identifier that is not registered (for example one that
    /// was already cancelled) is a no-op.
    pub fn cancel(&mut self, id: u64)
        requires
            old(self).wf(),
        ensures
            final(self).wf(),
            final(self).next_id() == old(self).next_id(),
            final(self).watchers() == old(self).watchers().filter(|w: u64| w != id),
    {
        let ghost pre = *self;
        let mut kept: Vec<u64> = Vec::new();
        let n = self.watchers.len();
        for i in 0..n
            invariant
                n == pre.watchers().len(),
                self.watchers@ == pre.watchers(),
                self.next_id == pre.next_id(),
                pre.wf(),
                kept@ == pre.watchers().take(i as int).filter(|w: u64| w != id),
        {
            proof {
                let taken = pre.watchers().take(i + 1);
                assert(taken.drop_last() == pre.watchers().take(i as int));
                assert(taken.last() == pre.watchers()[i as int]);
                reveal_with_fuel(Seq::filter, 2);
            }
            if self.watchers[i] != id {
                kept.push(self.watchers[i]);
            }
        }
        proof {
            assert(pre.watchers().take(n as int) == pre.watchers());
        }
        self.watchers = kept;
        proof {
            lemma_filter_keeps_order(pre.watchers(), |w: u64| w != id, pre.next_id());
        }
    }
}

/// A notification round delivers to each watcher exactly once: the
/// snapshot a well-formed registry records never names the same watcher
/// twice, so iterating it in order calls every registered callback once and
/// no callback twice.
pub proof fn lemma_snapshot_delivers_exactly_once(m: WatcherManager)
    requires
        m.wf(),
    ensures
        forall|i: int, j: int|
            0 <= i < j < m.watchers().len() ==> m.watchers()[i] != m.watchers()[j],
{
}

/// A strictly increasing sequence of identifiers below `bound` stays strictly
/// increasing and below `bound` after filtering.
proof fn lemma_filter_keeps_order(s: Seq<u64>, pred: spec_fn(u64) -> bool, bound: u64)
    requires
        forall|i: int| 0 <= i < s.len() ==> 0 < #[trigger] s[i] < bound,
        forall|i: int, j: int| 0 <= i < j < s.len() ==> s[i] < s[j],
    ensures
        forall|i: int| 0 <= i < s.filter(pred).len() ==> 0 < #[trigger] s.filter(pred)[i] < bound,
        forall|i: int, j: int|
            0 <= i < j < s.filter(pred).len() ==> s.filter(pred)[i] < s.filter(pred)[j],
        forall|i: int| 0 <= i < s.filter(pred).len() ==> s.contains(#[trigger] s.filter(pred)[i]),
    decreases s.len(),
{
    reveal_with_fuel(Seq::filter, 2);
    if s.len() > 0 {
        let head = s.drop_last();
        lemma_filter_keeps_order(head, pred, bound);
        assert forall|i: int|
            0 <= i < head.filter(pred).len() implies s.contains(
            #[trigger] head.filter(pred)[i],
        ) by {
            let j = choose|j: int| 0 <= j < head.len() && head[j] == head.filter(pred)[i];
            assert(s[j] == head.filter(pred)[i]);
        }
        if pred(s.last()) {
            assert(s.filter(pred) == head.filter(pred).push(s.last()));
            assert forall|i: int|
                0 <= i < head.filter(pred).len() implies head.filter(pred)[i] < s.last() by {
                let x = head.filter(pred)[i];
                let j = choose|j: int| 0 <= j < head.len() && head[j] == x;
                assert(s[j] < s[s.len() - 1]);
            }
            assert(s.contains(s.last())) by {
                assert(s[s.len() - 1] == s.last());
            }
        } else {
            assert(s.filter(pred) == head.filter(pred));
        }
    }
}

} // verus!
