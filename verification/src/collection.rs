//! Observable collections: a growable list whose mutations notify
//! range-scoped watchers, and a uniform snapshot wrapper over anything
//! collection-shaped.
//!
//! Every watcher of a [`List`] names a half-open index range. On each
//! mutation the range is clamped against the *current* length; the watcher
//! receives the elements inside the clamped range, and receives nothing at
//! all when the clamp comes out empty — an out-of-range watch is silent, not
//! an error.

use vstd::prelude::*;

use crate::binding::seq_cloned;
use crate::watcher::WatcherManagerGuard;

verus! {

/// One registered range watcher of a [`List`].
#[derive(Debug, Clone, Copy, PartialEq, Eq, Structural)]
pub struct ListWatcher {
    /// The watcher's identifier.
    pub id: u64,
    /// The start of the watched range, inclusive.
    pub start: usize,
    /// The end of the watched range, exclusive; `None` watches to the end
    /// of the list, whatever its length.
    pub end: Option<usize>,
}

/// What one range watcher receives from one list mutation.
#[derive(Debug, Clone)]
pub struct ListDelivery<T> {
    /// The recipient watcher's identifier.
    pub watcher: u64,
    /// The elements inside the watcher's clamped range, after the mutation.
    pub items: Vec<T>,
}

/// The end of `w`'s range against a list of length `len`.
pub open spec fn clamped_end(w: ListWatcher, len: nat) -> nat {
    match w.end {
        Some(e) => if e <= len {
            e as nat
        } else {
            len
        },
        None => len,
    }
}

/// Whether `w` receives anything from a list of length `len`: only when its
/// clamped range is non-empty.
pub open spec fn fires(w: ListWatcher, len: nat) -> bool {
    w.start < len && (w.start as nat) < clamped_end(w, len)
}

/// The slice `w` receives from `items` when it fires.
pub open spec fn watched_slice<T>(w: ListWatcher, items: Seq<T>) -> Seq<T> {
    items.subrange(w.start as int, clamped_end(w, items.len()) as int)
}

/// A shared, growable, observable sequence. Each mutating operation
/// performs the mutation and then issues exactly one notification round; a
/// mutation that changes nothing (popping or clearing an empty list)
/// notifies nobody.
#[derive(Debug, Clone)]
pub struct List<T> {
    items: Vec<T>,
    watchers: Vec<ListWatcher>,
    next_id: u64,
}

impl<T: Clone> List<T> {
    /// The current contents.
    pub closed spec fn items(&self) -> Seq<T> {
        self.items@
    }

    /// The registered range watchers, in registration order.
    pub closed spec fn watchers(&self) -> Seq<ListWatcher> {
        self.watchers@
    }

    /// The identifier the next registration will receive.
    pub closed spec fn next_id(&self) -> u64 {
        self.next_id
    }

    /// Identifiers are nonzero, strictly increasing, and below the next one
    /// to hand out.
    pub open spec fn wf(&self) -> bool {
        &&& forall|i: int|
            0 <= i < self.watchers().len() ==> 0 < #[trigger] self.watchers()[i].id
                < self.next_id()
        &&& forall|i: int, j: int|
            0 <= i < j < self.watchers().len() ==> self.watchers()[i].id
                < self.watchers()[j].id
        &&& self.next_id() >= 1
    }

    /// Creates a new empty list.
    pub fn new() -> (r: Self)
        ensures
            r.items() == Seq::<T>::empty(),
            r.watchers() == Seq::<ListWatcher>::empty(),
            r.wf(),
    {
        List { items: Vec::new(), watchers: Vec::new(), next_id: 1 }
    }

    /// Creates a list from an existing vector.
    pub fn from(items: Vec<T>) -> (r: Self)
        ensures
            r.items() == items@,
            r.watchers() == Seq::<ListWatcher>::empty(),
            r.wf(),
    {
        List { items, watchers: Vec::new(), next_id: 1 }
    }

    /// The number of elements held.
    pub fn len(&self) -> (r: usize)
        ensures
            r == self.items().len(),
    {
        self.items.len()
    }

    /// Whether the list holds no element.
    pub fn is_empty(&self) -> (r: bool)
        ensures
            r == (self.items().len() == 0),
    {
        self.items.len() == 0
    }

    /// The element at `index`, if the index is in bounds.
    pub fn get(&self, index: usize) -> (r: Option<T>)
        ensures
            index < self.items().len() ==> r is Some && cloned::<T>(
                self.items()[index as int],
                r->0,
            ),
            index >= self.items().len() ==> r is None,
    {
        if index < self.items.len() {
            Some(self.items[index].clone())
        } else {
            None
        }
    }

    /// The deliveries one notification round produces right now: each
    /// registered watcher whose clamped range is non-empty receives the
    /// elements of that range, in registration order; the others receive
    /// nothing.
    fn deliveries(&self) -> (r: Vec<ListDelivery<T>>)
        requires
            self.wf(),
        ensures
            deliveries_match(self.watchers(), self.items(), r@),
    {
        let mut out: Vec<ListDelivery<T>> = Vec::new();
        let n = self.watchers.len();
        let item_count = self.items.len();
        for i in 0..n
            invariant
                n == self.watchers().len(),
                item_count == self.items().len(),
                deliveries_match(self.watchers().take(i as int), self.items(), out@),
        {
            let w = self.watchers[i];
            let fire = match w.end {
                Some(e) => w.start < item_count && w.start < e,
                None => w.start < item_count,
            };
            let ghost pre = out@;
            if fire {
                let end = match w.end {
                    Some(e) => if e <= item_count {
                        e
                    } else {
                        item_count
                    },
                    None => item_count,
                };
                let mut slice: Vec<T> = Vec::new();
                let mut j = w.start;
                while j < end
                    invariant
                        w.start <= j <= end,
                        end == clamped_end(w, self.items().len()),
                        end <= self.items().len(),
                        slice@.len() == j - w.start,
                        forall|k: int|
                            0 <= k < slice@.len() ==> cloned::<T>(
                                self.items()[w.start + k],
                                #[trigger] slice@[k],
                            ),
                    decreases end - j,
                {
                    slice.push(self.items[j].clone());
                    j = j + 1;
                }
                out.push(ListDelivery { watcher: w.id, items: slice });
                proof {
                    assert(fires(w, self.items().len()));
                    assert(out@.drop_last() == pre);
                    assert(out@.last().watcher == w.id);
                    assert(seq_cloned(watched_slice(w, self.items()), out@.last().items@)) by {
                        let sl = watched_slice(w, self.items());
                        assert(sl.len() == out@.last().items@.len());
                        assert forall|k: int|
                            0 <= k < sl.len() implies cloned::<T>(
                            sl[k],
                            #[trigger] out@.last().items@[k],
                        ) by {
                            assert(sl[k] == self.items()[w.start + k]);
                        }
                    }
                }
            } else {
                proof {
                    assert(!fires(w, self.items().len()));
                }
            }
            proof {
                lemma_deliveries_step(self.watchers(), self.items(), pre, out@, i as int);
            }
        }
        proof {
            assert(self.watchers().take(n as int) == self.watchers());
        }
        out
    }

    /// Appends an element; one notification round follows, carrying the new
    /// full contents to each watcher whose range now fires.
    pub fn push(&mut self, value: T) -> (d: Vec<ListDelivery<T>>)
        requires
            old(self).wf(),
        ensures
            final(self).wf(),
            final(self).items() == old(self).items().push(value),
            final(self).watchers() == old(self).watchers(),
            final(self).next_id() == old(self).next_id(),
            deliveries_match(final(self).watchers(), final(self).items(), d@),
    {
        self.items.push(value);
        self.deliveries()
    }

    /// Removes and returns the last element; `None`, and no notification,
    /// when the list is empty.
    pub fn pop(&mut self) -> (r: (Option<T>, Option<Vec<ListDelivery<T>>>))
        requires
            old(self).wf(),
        ensures
            final(self).wf(),
            final(self).watchers() == old(self).watchers(),
            final(self).next_id() == old(self).next_id(),
            old(self).items().len() == 0 ==> {
                &&& r.0 is None
                &&& r.1 is None
                &&& final(self).items() == old(self).items()
            },
            old(self).items().len() > 0 ==> {
                &&& r.0 == Some(old(self).items().last())
                &&& final(self).items() == old(self).items().drop_last()
                &&& r.1 is Some
                &&& deliveries_match(final(self).watchers(), final(self).items(), r.1->0@)
            },
    {
        let popped = self.items.pop();
        match popped {
            Some(v) => {
                let d = self.deliveries();
                (Some(v), Some(d))
            },
            None => (None, None),
        }
    }

    /// Inserts an element at `index`; one notification round follows.
    pub fn insert(&mut self, index: usize, value: T) -> (d: Vec<ListDelivery<T>>)
        requires
            old(self).wf(),
            index <= old(self).items().len(),
        ensures
            final(self).wf(),
            final(self).items() == old(self).items().insert(index as int, value),
            final(self).watchers() == old(self).watchers(),
            final(self).next_id() == old(self).next_id(),
            deliveries_match(final(self).watchers(), final(self).items(), d@),
    {
        self.items.insert(index, value);
        self.deliveries()
    }

    /// Removes and returns the element at `index`; one notification round
    /// follows.
    pub fn remove(&mut self, index: usize) -> (r: (T, Vec<ListDelivery<T>>))
        requires
            old(self).wf(),
            index < old(self).items().len(),
        ensures
            final(self).wf(),
            r.0 == old(self).items()[index as int],
            final(self).items() == old(self).items().remove(index as int),
            final(self).watchers() == old(self).watchers(),
            final(self).next_id() == old(self).next_id(),
            deliveries_match(final(self).watchers(), final(self).items(), r.1@),
    {
        let v = self.items.remove(index);
        let d = self.deliveries();
        (v, d)
    }

    /// Removes all elements; one notification round follows, unless the
    /// list was already empty, in which case nobody is notified.
    pub fn clear(&mut self) -> (d: Option<Vec<ListDelivery<T>>>)
        requires
            old(self).wf(),
        ensures
            final(self).wf(),
            final(self).items().len() == 0,
            final(self).watchers() == old(self).watchers(),
            final(self).next_id() == old(self).next_id(),
            old(self).items().len() == 0 ==> d is None,
            old(self).items().len() > 0 ==> {
                &&& d is Some
                &&& deliveries_match(final(self).watchers(), final(self).items(), d->0@)
            },
    {
        let was_empty = self.items.len() == 0;
        self.items.clear();
        if was_empty {
            None
        } else {
            Some(self.deliveries())
        }
    }

    /// Registers a range watcher over `[start, end)` (`end` of `None`
    /// watches to the current end, whatever the length becomes). The second
    /// component is the immediate delivery: the elements of the clamped
    /// range right now, or `None` when that range is empty.
    pub fn watch(&mut self, start: usize, end: Option<usize>) -> (r: (
        WatcherManagerGuard,
        Option<Vec<T>>,
    ))
        requires
            old(self).wf(),
            old(self).next_id() < u64::MAX,
        ensures
            final(self).wf(),
            final(self).items() == old(self).items(),
            r.0.id == old(self).next_id(),
            final(self).watchers() == old(self).watchers().push(
                ListWatcher { id: r.0.id, start, end },
            ),
            fires(ListWatcher { id: r.0.id, start, end }, old(self).items().len()) ==> {
                &&& r.1 is Some
                &&& seq_cloned(
                    watched_slice(
                        ListWatcher { id: r.0.id, start, end },
                        old(self).items(),
                    ),
                    r.1->0@,
                )
            },
            !fires(ListWatcher { id: r.0.id, start, end }, old(self).items().len()) ==> r.1
                is None,
    {
        let id = self.next_id;
        self.next_id = self.next_id + 1;
        let w = ListWatcher { id, start, end };
        let item_count = self.items.len();
        let fire = match w.end {
            Some(e) => w.start < item_count && w.start < e,
            None => w.start < item_count,
        };
        let immediate = if fire {
            let e = match w.end {
                Some(e) => if e <= item_count {
                    e
                } else {
                    item_count
                },
                None => item_count,
            };
            let mut slice: Vec<T> = Vec::new();
            let mut j = w.start;
            while j < e
                invariant
                    w.start <= j <= e,
                    e == clamped_end(w, self.items().len()),
                    e <= self.items().len(),
                    slice@.len() == j - w.start,
                    forall|k: int|
                        0 <= k < slice@.len() ==> cloned::<T>(
                            self.items()[w.start + k],
                            #[trigger] slice@[k],
                        ),
                decreases e - j,
            {
                slice.push(self.items[j].clone());
                j = j + 1;
            }
            Some(slice)
        } else {
            None
        };
        self.watchers.push(w);
        proof {
            assert forall|i: int|
                0 <= i < self.watchers().len() implies 0 < #[trigger] self.watchers()[i].id
                < self.next_id() by {
                if i < self.watchers().len() - 1 {
                    assert(self.watchers()[i] == old(self).watchers()[i]);
                }
            }
            assert forall|i: int, j: int|
                0 <= i < j < self.watchers().len() implies self.watchers()[i].id
                < self.watchers()[j].id by {
                assert(self.watchers()[i] == old(self).watchers()[i]);
                if j < self.watchers().len() - 1 {
                    assert(self.watchers()[j] == old(self).watchers()[j]);
                }
            }
        }
        (WatcherManagerGuard { id }, immediate)
    }

    /// Cancels the range watcher a guard stands for; cancelling twice is a
    /// no-op the second time.
    pub fn unwatch(&mut self, guard: WatcherManagerGuard)
        requires
            old(self).wf(),
        ensures
            final(self).wf(),
            final(self).items() == old(self).items(),
            final(self).next_id() == old(self).next_id(),
            final(self).watchers() == old(self).watchers().filter(
                |w: ListWatcher| w.id != guard.id,
            ),
    {
        let ghost pre = *self;
        let mut kept: Vec<ListWatcher> = Vec::new();
        let n = self.watchers.len();
        for i in 0..n
            invariant
                n == pre.watchers().len(),
                self.watchers@ == pre.watchers(),
                self.items@ == pre.items(),
                self.next_id == pre.next_id(),
                pre.wf(),
                pre == *old(self),
                kept@ == pre.watchers().take(i as int).filter(
                    |w: ListWatcher| w.id != guard.id,
                ),
        {
            proof {
                let taken = pre.watchers().take(i + 1);
                assert(taken.drop_last() == pre.watchers().take(i as int));
                assert(taken.last() == pre.watchers()[i as int]);
                reveal_with_fuel(Seq::filter, 2);
            }
            if self.watchers[i].id != guard.id {
                kept.push(self.watchers[i]);
            }
        }
        proof {
            assert(pre.watchers().take(n as int) == pre.watchers());
        }
        self.watchers = kept;
        proof {
            lemma_list_filter_keeps_order(
                pre.watchers(),
                |w: ListWatcher| w.id != guard.id,
                pre.next_id(),
            );
        }
    }
}

impl<T: Clone> Default for List<T> {
    /// An empty list, as [`List::new`] builds.
    fn default() -> (r: Self)
        ensures
            r.items() == Seq::<T>::empty(),
            r.watchers() == Seq::<ListWatcher>::empty(),
            r.wf(),
    {
        List::new()
    }
}

/// Whether `ds` is exactly the delivery sequence that the watchers in `ws`
/// produce over contents `items`: one delivery per firing watcher, in
/// order, holding the watcher's clamped slice.
pub open spec fn deliveries_match<T: Clone>(
    ws: Seq<ListWatcher>,
    items: Seq<T>,
    ds: Seq<ListDelivery<T>>,
) -> bool {
    let active = ws.filter(|w: ListWatcher| fires(w, items.len()));
    &&& ds.len() == active.len()
    &&& forall|i: int|
        0 <= i < ds.len() ==> (#[trigger] ds[i]).watcher == active[i].id && seq_cloned(
            watched_slice(active[i], items),
            ds[i].items@,
        )
}

/// Extending the processed prefix by one watcher extends the matching
/// deliveries by one entry exactly when that watcher fires.
proof fn lemma_deliveries_step<T: Clone>(
    ws: Seq<ListWatcher>,
    items: Seq<T>,
    pre: Seq<ListDelivery<T>>,
    post: Seq<ListDelivery<T>>,
    i: int,
)
    requires
        0 <= i < ws.len(),
        deliveries_match(ws.take(i), items, pre),
        fires(ws[i], items.len()) ==> post.len() == pre.len() + 1 && post.drop_last() == pre
            && post.last().watcher == ws[i].id && seq_cloned(
            watched_slice(ws[i], items),
            post.last().items@,
        ),
        !fires(ws[i], items.len()) ==> post == pre,
    ensures
        deliveries_match(ws.take(i + 1), items, post),
{
    let pred = |w: ListWatcher| fires(w, items.len());
    let taken = ws.take(i + 1);
    assert(taken.drop_last() == ws.take(i));
    assert(taken.last() == ws[i]);
    reveal_with_fuel(Seq::filter, 2);
    if pred(ws[i]) {
        assert(taken.filter(pred) == ws.take(i).filter(pred).push(ws[i]));
        assert forall|k: int| 0 <= k < post.len() implies (#[trigger] post[k]).watcher
            == taken.filter(pred)[k].id && seq_cloned(
            watched_slice(taken.filter(pred)[k], items),
            post[k].items@,
        ) by {
            if k < post.len() - 1 {
                assert(post[k] == pre[k]);
                assert(taken.filter(pred)[k] == ws.take(i).filter(pred)[k]);
            } else {
                assert(post[k] == post.last());
                assert(taken.filter(pred)[k] == ws[i]);
            }
        }
    } else {
        assert(taken.filter(pred) == ws.take(i).filter(pred));
    }
}

/// A strictly increasing sequence of watcher identifiers below `bound`
/// stays strictly increasing and below `bound` after filtering.
proof fn lemma_list_filter_keeps_order(
    s: Seq<ListWatcher>,
    pred: spec_fn(ListWatcher) -> bool,
    bound: u64,
)
    requires
        forall|i: int| 0 <= i < s.len() ==> 0 < #[trigger] s[i].id < bound,
        forall|i: int, j: int| 0 <= i < j < s.len() ==> s[i].id < s[j].id,
    ensures
        forall|i: int|
            0 <= i < s.filter(pred).len() ==> 0 < #[trigger] s.filter(pred)[i].id < bound,
        forall|i: int, j: int|
            0 <= i < j < s.filter(pred).len() ==> s.filter(pred)[i].id < s.filter(pred)[j].id,
        forall|i: int|
            0 <= i < s.filter(pred).len() ==> s.contains(#[trigger] s.filter(pred)[i]),
    decreases s.len(),
{
    reveal_with_fuel(Seq::filter, 2);
    if s.len() > 0 {
        let head = s.drop_last();
        lemma_list_filter_keeps_order(head, pred, bound);
        assert forall|i: int|
            0 <= i < head.filter(pred).len() implies s.contains(
            #[trigger] head.filter(pred)[i],
        ) by {
            let j = choose|j: int| 0 <= j < head.len() && head[j] == head.filter(pred)[i];
            assert(s[j] == head.filter(pred)[i]);
        }
        if pred(s.last()) {
            assert(s.filter(pred) == head.filter(pred).push(s.last()));
            assert forall|i: int|
                0 <= i < head.filter(pred).len() implies head.filter(pred)[i].id
                < s.last().id by {
                let x = head.filter(pred)[i];
                let j = choose|j: int| 0 <= j < head.len() && head[j] == x;
                assert(s[j].id < s[s.len() - 1].id);
            }
            assert(s.contains(s.last())) by {
                assert(s[s.len() - 1] == s.last());
            }
        } else {
            assert(s.filter(pred) == head.filter(pred));
        }
    }
}

/// The capability of being read as an indexed collection: a current length
/// and per-index access, with a snapshot of the whole contents.
pub trait Collection: Sized {
    /// The element type.
    type Item: Clone;

    /// The current contents.
    spec fn view_items(&self) -> Seq<Self::Item>;

    /// Whether this collection notifies watchers of changes; a static
    /// collection never does.
    spec fn reactive_spec(&self) -> bool;

    /// The element at `index`, if in bounds.
    fn get(&self, index: usize) -> (r: Option<Self::Item>)
        ensures
            index < self.view_items().len() ==> r is Some && cloned::<Self::Item>(
                self.view_items()[index as int],
                r->0,
            ),
            index >= self.view_items().len() ==> r is None,
    ;

    /// The number of elements.
    fn len(&self) -> (r: usize)
        ensures
            r == self.view_items().len(),
    ;

    /// Whether the collection holds no element.
    fn is_empty(&self) -> (r: bool)
        ensures
            r == (self.view_items().len() == 0),
    {
        self.len() == 0
    }

    /// A copy of the whole contents.
    fn snapshot(&self) -> (r: Vec<Self::Item>)
        ensures
            seq_cloned(self.view_items(), r@),
    ;

    /// Whether this collection notifies watchers of changes.
    fn reactive(&self) -> (r: bool)
        ensures
            r == self.reactive_spec(),
    ;
}

impl<T: Clone> Collection for List<T> {
    type Item = T;

    open spec fn view_items(&self) -> Seq<T> {
        self.items()
    }

    open spec fn reactive_spec(&self) -> bool {
        true
    }

    fn get(&self, index: usize) -> (r: Option<T>) {
        List::get(self, index)
    }

    fn len(&self) -> (r: usize) {
        List::len(self)
    }

    fn snapshot(&self) -> (r: Vec<T>) {
        let n = self.len();
        let mut out: Vec<T> = Vec::new();
        for i in 0..n
            invariant
                n == self.items().len(),
                out@.len() == i,
                forall|k: int|
                    0 <= k < i ==> cloned::<T>(self.items()[k], #[trigger] out@[k]),
        {
            match List::get(self, i) {
                Some(v) => out.push(v),
                None => {
                    proof {
                        assert(false);
                    }
                },
            }
        }
        out
    }

    fn reactive(&self) -> (r: bool) {
        true
    }
}

impl<T: Clone> Collection for Vec<T> {
    type Item = T;

    open spec fn view_items(&self) -> Seq<T> {
        self@
    }

    open spec fn reactive_spec(&self) -> bool {
        false
    }

    fn get(&self, index: usize) -> (r: Option<T>) {
        if index < Vec::len(self) {
            Some(self[index].clone())
        } else {
            None
        }
    }

    fn len(&self) -> (r: usize) {
        Vec::len(self)
    }

    fn snapshot(&self) -> (r: Vec<T>) {
        let n = Vec::len(self);
        let mut out: Vec<T> = Vec::new();
        for i in 0..n
            invariant
                n == self@.len(),
                out@.len() == i,
                forall|k: int| 0 <= k < i ==> cloned::<T>(self@[k], #[trigger] out@[k]),
        {
            out.push(self[i].clone());
        }
        out
    }

    fn reactive(&self) -> (r: bool) {
        false
    }
}

/// A uniform wrapper over any collection: it snapshots the contents at
/// construction and remembers whether the source was reactive, so that
/// range-watch requests behave as the source's would — a watcher of a
/// static source is never called.
#[derive(Debug, Clone)]
pub struct AnyCollection<T> {
    items: Vec<T>,
    reactive: bool,
}

impl<T: Clone> AnyCollection<T> {
    /// The wrapped contents.
    pub closed spec fn items(&self) -> Seq<T> {
        self.items@
    }

    /// Whether the wrapped collection was reactive.
    pub closed spec fn reactive_spec(&self) -> bool {
        self.reactive
    }

    /// Wraps any collection, capturing its contents and reactivity.
    pub fn new<C: Collection<Item = T>>(collection: &C) -> (r: Self)
        ensures
            seq_cloned(collection.view_items(), r.items()),
            r.reactive_spec() == collection.reactive_spec(),
    {
        AnyCollection { items: collection.snapshot(), reactive: collection.reactive() }
    }

    /// The element at `index`, if in bounds.
    pub fn get(&self, index: usize) -> (r: Option<T>)
        ensures
            index < self.items().len() ==> r is Some && cloned::<T>(
                self.items()[index as int],
                r->0,
            ),
            index >= self.items().len() ==> r is None,
    {
        if index < self.items.len() {
            Some(self.items[index].clone())
        } else {
            None
        }
    }

    /// The number of elements.
    pub fn len(&self) -> (r: usize)
        ensures
            r == self.items().len(),
    {
        self.items.len()
    }

    /// Whether the wrapper holds no element.
    pub fn is_empty(&self) -> (r: bool)
        ensures
            r == (self.items().len() == 0),
    {
        self.items.len() == 0
    }

    /// A range-watch request over `[start, end)`: against a reactive source
    /// the watcher is called immediately with the clamped slice, exactly as
    /// the source would have; against a static source, or when the clamp
    /// comes out empty, it is never called.
    pub fn watch(&self, start: usize, end: Option<usize>) -> (r: Option<Vec<T>>)
        ensures
            ({
                let w = ListWatcher { id: 0, start, end };
                &&& (self.reactive_spec() && fires(w, self.items().len())) ==> {
                    &&& r is Some
                    &&& seq_cloned(watched_slice(w, self.items()), r->0@)
                }
                &&& !(self.reactive_spec() && fires(w, self.items().len())) ==> r is None
            }),
    {
        let ghost w = ListWatcher { id: 0, start, end };
        if !self.reactive {
            return None;
        }
        let item_count = self.items.len();
        let fire = match end {
            Some(e) => start < item_count && start < e,
            None => start < item_count,
        };
        if !fire {
            proof {
                assert(!fires(w, self.items().len()));
            }
            return None;
        }
        let e = match end {
            Some(e) => if e <= item_count {
                e
            } else {
                item_count
            },
            None => item_count,
        };
        let mut slice: Vec<T> = Vec::new();
        let mut j = start;
        while j < e
            invariant
                start <= j <= e,
                e == clamped_end(w, self.items().len()),
                e <= self.items().len(),
                slice@.len() == j - start,
                forall|k: int|
                    0 <= k < slice@.len() ==> cloned::<T>(
                        self.items()[start + k],
                        #[trigger] slice@[k],
                    ),
            decreases e - j,
        {
            slice.push(self.items[j].clone());
            j = j + 1;
        }
        proof {
            assert(fires(w, self.items().len()));
            let sl = watched_slice(w, self.items());
            assert(sl.len() == slice@.len());
            assert forall|k: int| 0 <= k < sl.len() implies cloned::<T>(
                sl[k],
                #[trigger] slice@[k],
            ) by {
                assert(sl[k] == self.items()[start + k]);
            }
        }
        Some(slice)
    }
}

} // verus!
