//! Trailing-edge rate limiting: a debounced signal forwards a value only
//! after a quiet period of a fixed duration has passed without newer
//! upstream notifications.
//!
//! The operator is a state machine over an external clock. The host feeds
//! upstream notifications in through [`Debounce::on_upstream`] together with
//! the current time; each such call supersedes any pending timer with a new
//! one expiring one duration later. When a timer actually expires — nothing
//! newer having superseded it — the host calls [`Debounce::on_timer`], which
//! emits the remembered value and metadata to the downstream watchers.

use vstd::prelude::*;

use crate::signal::Signal;
use crate::watcher::{Context, Metadata, Notification, WatcherManager, WatcherManagerGuard};

verus! {

/// The scheduling state of a debounced signal.
#[derive(Debug, Clone)]
pub enum DebounceState<T> {
    /// No timer is pending.
    Idle,
    /// A timer is scheduled; when it fires, `value` and `metadata` are
    /// forwarded downstream.
    Pending { value: T, metadata: Metadata, deadline: u64 },
}

/// Wraps a signal and delays its notifications: only after `duration` ticks
/// without a newer upstream notification is the latest value forwarded.
#[derive(Debug, Clone)]
pub struct Debounce<S: Signal> {
    signal: S,
    duration: u64,
    watchers: WatcherManager,
    state: DebounceState<S::Output>,
    subscribed: bool,
}

impl<S: Signal> Debounce<S> where S::Output: Clone {
    /// The wrapped signal.
    pub closed spec fn signal(&self) -> S {
        self.signal
    }

    /// The quiet period required before a value is forwarded.
    pub closed spec fn duration(&self) -> u64 {
        self.duration
    }

    /// The scheduling state.
    pub closed spec fn state(&self) -> DebounceState<S::Output> {
        self.state
    }

    /// The downstream watcher identifiers.
    pub closed spec fn watcher_ids(&self) -> Seq<u64> {
        self.watchers.watchers()
    }

    /// Whether the single upstream subscription has been created.
    pub closed spec fn subscribed(&self) -> bool {
        self.subscribed
    }

    /// The downstream registry's invariant.
    pub closed spec fn wf(&self) -> bool {
        self.watchers.wf()
    }

    /// The identifier the next downstream registration will receive.
    pub closed spec fn next_id(&self) -> u64 {
        self.watchers.next_id()
    }

    /// Creates a debounced wrapper around `signal`, idle and with no
    /// upstream subscription yet.
    pub fn new(signal: S, duration: u64) -> (r: Self)
        ensures
            r.signal() == signal,
            r.duration() == duration,
            r.state() is Idle,
            r.watcher_ids() == Seq::<u64>::empty(),
            !r.subscribed(),
            r.wf(),
    {
        Debounce {
            signal,
            duration,
            watchers: WatcherManager::new(),
            state: DebounceState::Idle,
            subscribed: false,
        }
    }

    /// Registers a downstream watcher. The second component reports whether
    /// the caller must now create the one upstream subscription: it is true
    /// exactly on the first call, however many watchers attach afterwards.
    pub fn watch(&mut self) -> (r: (WatcherManagerGuard, bool))
        requires
            old(self).wf(),
            old(self).next_id() < u64::MAX,
        ensures
            final(self).wf(),
            final(self).signal() == old(self).signal(),
            final(self).duration() == old(self).duration(),
            final(self).state() == old(self).state(),
            r.0.id == old(self).next_id(),
            final(self).watcher_ids() == old(self).watcher_ids().push(r.0.id),
            r.1 == !old(self).subscribed(),
            final(self).subscribed(),
    {
        let guard = self.watchers.register_as_guard();
        let needs_upstream = !self.subscribed;
        self.subscribed = true;
        (guard, needs_upstream)
    }

    /// Cancels a downstream watcher.
    pub fn unwatch(&mut self, guard: WatcherManagerGuard)
        requires
            old(self).wf(),
        ensures
            final(self).wf(),
            final(self).signal() == old(self).signal(),
            final(self).duration() == old(self).duration(),
            final(self).state() == old(self).state(),
            final(self).subscribed() == old(self).subscribed(),
            final(self).watcher_ids() == old(self).watcher_ids().filter(
                |w: u64| w != guard.id,
            ),
    {
        self.watchers.cancel(guard.id);
    }

    /// Accepts one upstream notification at time `now`: any pending timer is
    /// superseded — its callback will never run — and a new timer is
    /// scheduled one duration from now, remembering the delivered value and
    /// metadata. Nothing is forwarded downstream yet.
    pub fn on_upstream(&mut self, ctx: Context<S::Output>, now: u64)
        requires
            now + old(self).duration() <= u64::MAX,
        ensures
            final(self).signal() == old(self).signal(),
            final(self).duration() == old(self).duration(),
            final(self).watcher_ids() == old(self).watcher_ids(),
            final(self).subscribed() == old(self).subscribed(),
            final(self).wf() == old(self).wf(),
            final(self).state() == (DebounceState::Pending {
                value: ctx.value,
                metadata: ctx.metadata,
                deadline: (now + old(self).duration()) as u64,
            }),
    {
        let Context { value, metadata } = ctx;
        self.state = DebounceState::Pending { value, metadata, deadline: now + self.duration };
    }

    /// Handles the expiry of the pending timer: the remembered value and
    /// metadata are forwarded to every downstream watcher, and the operator
    /// returns to idle.
    pub fn on_timer(&mut self) -> (n: Notification<S::Output>)
        requires
            old(self).state() is Pending,
        ensures
            final(self).signal() == old(self).signal(),
            final(self).duration() == old(self).duration(),
            final(self).watcher_ids() == old(self).watcher_ids(),
            final(self).subscribed() == old(self).subscribed(),
            final(self).wf() == old(self).wf(),
            final(self).state() is Idle,
            n.recipients@ == old(self).watcher_ids(),
            n.context.value == old(self).state()->Pending_value,
            n.context.metadata == old(self).state()->Pending_metadata,
    {
        let mut state = DebounceState::Idle;
        core::mem::swap(&mut state, &mut self.state);
        match state {
            DebounceState::Pending { value, metadata, deadline: _ } => {
                self.watchers.notify(value, metadata)
            },
            DebounceState::Idle => unreached(),
        }
    }

    /// Reads pass straight through to the wrapped signal: only
    /// notifications are debounced.
    pub fn get(&self) -> (r: S::Output)
        ensures
            self.signal().obs(r),
    {
        self.signal.get()
    }
}

impl<S: Signal> Signal for Debounce<S> where S::Output: Clone {
    type Output = S::Output;

    open spec fn obs(&self, value: S::Output) -> bool {
        self.signal().obs(value)
    }

    fn get(&self) -> (r: S::Output) {
        self.signal.get()
    }
}

impl<S: Signal> Debounce<S> where S::Output: Clone {
    /// Feeds a whole burst of upstream notifications in, each at its own
    /// time. Each event supersedes the previous pending timer, so as long
    /// as every gap stays below the duration no timer expires during the
    /// burst and nothing at all is forwarded; afterwards exactly one timer
    /// is pending, at the last event's time plus the duration, remembering
    /// the last event's value and metadata — which is exactly what
    /// [`Debounce::on_timer`] then emits.
    pub fn on_upstream_burst(&mut self, events: Vec<(u64, Context<S::Output>)>)
        requires
            forall|i: int|
                0 <= i < events@.len() ==> (#[trigger] events@[i]).0 + old(self).duration()
                    <= u64::MAX,
        ensures
            final(self).signal() == old(self).signal(),
            final(self).duration() == old(self).duration(),
            final(self).watcher_ids() == old(self).watcher_ids(),
            final(self).subscribed() == old(self).subscribed(),
            final(self).wf() == old(self).wf(),
            events@.len() == 0 ==> final(self).state() == old(self).state(),
            events@.len() > 0 ==> final(self).state() == (DebounceState::Pending {
                value: events@.last().1.value,
                metadata: events@.last().1.metadata,
                deadline: (events@.last().0 + old(self).duration()) as u64,
            }),
    {
        let ghost orig = events@;
        let mut remaining = events;
        while remaining.len() > 0
            invariant
                remaining@ == orig.skip(orig.len() - remaining@.len()),
                remaining@.len() <= orig.len(),
                self.signal() == old(self).signal(),
                self.duration() == old(self).duration(),
                self.watcher_ids() == old(self).watcher_ids(),
                self.subscribed() == old(self).subscribed(),
                self.wf() == old(self).wf(),
                forall|i: int|
                    0 <= i < orig.len() ==> (#[trigger] orig[i]).0 + old(self).duration()
                        <= u64::MAX,
                remaining@.len() == orig.len() ==> self.state() == old(self).state(),
                remaining@.len() < orig.len() ==> self.state() == (DebounceState::Pending {
                    value: orig[orig.len() - remaining@.len() - 1].1.value,
                    metadata: orig[orig.len() - remaining@.len() - 1].1.metadata,
                    deadline: (orig[orig.len() - remaining@.len() - 1].0 + old(
                        self,
                    ).duration()) as u64,
                }),
            decreases remaining@.len(),
        {
            proof {
                assert(remaining@[0] == orig[orig.len() - remaining@.len()]);
            }
            let (now, ctx) = remaining.remove(0);
            self.on_upstream(ctx, now);
            proof {
                assert(remaining@ =~= orig.skip(orig.len() - remaining@.len()));
            }
        }
    }
}

} // verus!
