//! Leading-edge rate limiting: a throttled signal forwards the first value
//! of a burst immediately, then suppresses everything until a fixed duration
//! has elapsed.
//!
//! Like the debounce operator this is a state machine over an external
//! clock: the host feeds upstream notifications in through
//! [`Throttle::on_upstream`], and reports timer expiry through
//! [`Throttle::on_timer`]. A notification arriving while suppressed is
//! dropped entirely — not queued, not remembered.

use vstd::prelude::*;

use crate::signal::Signal;
use crate::watcher::{Context, Notification, WatcherManager, WatcherManagerGuard};

verus! {

/// Wraps a signal and limits the rate of its notifications: one forwarded
/// immediately, then none until the suppression window expires.
#[derive(Debug, Clone)]
pub struct Throttle<S: Signal> {
    signal: S,
    duration: u64,
    watchers: WatcherManager,
    throttled: bool,
    subscribed: bool,
}

impl<S: Signal> Throttle<S> where S::Output: Clone {
    /// The wrapped signal.
    pub closed spec fn signal(&self) -> S {
        self.signal
    }

    /// The length of the suppression window.
    pub closed spec fn duration(&self) -> u64 {
        self.duration
    }

    /// Whether notifications are currently suppressed.
    pub closed spec fn throttled(&self) -> bool {
        self.throttled
    }

    /// The downstream watcher identifiers.
    pub closed spec fn watcher_ids(&self) -> Seq<u64> {
        self.watchers.watchers()
    }

    /// Whether the single upstream subscription has been created.
    pub closed spec fn subscribed(&self) -> bool {
        self.subscribed
    }

    /// The downstream registry's invariant.
    pub closed spec fn wf(&self) -> bool {
        self.watchers.wf()
    }

    /// The identifier the next downstream registration will receive.
    pub closed spec fn next_id(&self) -> u64 {
        self.watchers.next_id()
    }

    /// Creates a throttled wrapper around `signal`, open and with no
    /// upstream subscription yet.
    pub fn new(signal: S, duration: u64) -> (r: Self)
        ensures
            r.signal() == signal,
            r.duration() == duration,
            !r.throttled(),
            r.watcher_ids() == Seq::<u64>::empty(),
            !r.subscribed(),
            r.wf(),
    {
        Throttle {
            signal,
            duration,
            watchers: WatcherManager::new(),
            throttled: false,
            subscribed: false,
        }
    }

    /// Registers a downstream watcher. The second component reports whether
    /// the caller must now create the one upstream subscription: it is true
    /// exactly on the first call, however many watchers attach afterwards.
    pub fn watch(&mut self) -> (r: (WatcherManagerGuard, bool))
        requires
            old(self).wf(),
            old(self).next_id() < u64::MAX,
        ensures
            final(self).wf(),
            final(self).signal() == old(self).signal(),
            final(self).duration() == old(self).duration(),
            final(self).throttled() == old(self).throttled(),
            r.0.id == old(self).next_id(),
            final(self).watcher_ids() == old(self).watcher_ids().push(r.0.id),
            r.1 == !old(self).subscribed(),
            final(self).subscribed(),
    {
        let guard = self.watchers.register_as_guard();
        let needs_upstream = !self.subscribed;
        self.subscribed = true;
        (guard, needs_upstream)
    }

    /// Cancels a downstream watcher.
    pub fn unwatch(&mut self, guard: WatcherManagerGuard)
        requires
            old(self).wf(),
        ensures
            final(self).wf(),
            final(self).signal() == old(self).signal(),
            final(self).duration() == old(self).duration(),
            final(self).throttled() == old(self).throttled(),
            final(self).subscribed() == old(self).subscribed(),
            final(self).watcher_ids() == old(self).watcher_ids().filter(
                |w: u64| w != guard.id,
            ),
    {
        self.watchers.cancel(guard.id);
    }

    /// Accepts one upstream notification. While open, the value is
    /// forwarded immediately to every downstream watcher and suppression
    /// begins: the caller starts a timer for one duration. While suppressed,
    /// the notification is dropped entirely: nothing is forwarded, nothing
    /// is remembered.
    pub fn on_upstream(&mut self, ctx: Context<S::Output>) -> (r: Option<
        Notification<S::Output>,
    >)
        ensures
            final(self).signal() == old(self).signal(),
            final(self).duration() == old(self).duration(),
            final(self).watcher_ids() == old(self).watcher_ids(),
            final(self).subscribed() == old(self).subscribed(),
            final(self).wf() == old(self).wf(),
            !old(self).throttled() ==> {
                &&& r is Some
                &&& r->0.recipients@ == old(self).watcher_ids()
                &&& r->0.context.value == ctx.value
                &&& r->0.context.metadata == ctx.metadata
                &&& final(self).throttled()
            },
            old(self).throttled() ==> {
                &&& r is None
                &&& *final(self) == *old(self)
            },
    {
        if self.throttled {
            None
        } else {
            let Context { value, metadata } = ctx;
            let n = self.watchers.notify(value, metadata);
            self.throttled = true;
            Some(n)
        }
    }

    /// Handles the expiry of the suppression window: the operator reopens,
    /// so the next upstream notification forwards immediately again.
    pub fn on_timer(&mut self)
        ensures
            final(self).signal() == old(self).signal(),
            final(self).duration() == old(self).duration(),
            final(self).watcher_ids() == old(self).watcher_ids(),
            final(self).subscribed() == old(self).subscribed(),
            final(self).wf() == old(self).wf(),
            !final(self).throttled(),
    {
        self.throttled = false;
    }

    /// Reads pass straight through to the wrapped signal: only
    /// notifications are throttled.
    pub fn get(&self) -> (r: S::Output)
        ensures
            self.signal().obs(r),
    {
        self.signal.get()
    }
}

impl<S: Signal> Signal for Throttle<S> where S::Output: Clone {
    type Output = S::Output;

    open spec fn obs(&self, value: S::Output) -> bool {
        self.signal().obs(value)
    }

    fn get(&self) -> (r: S::Output) {
        self.signal.get()
    }
}

impl<S: Signal> Throttle<S> where S::Output: Clone {
    /// Feeds a whole burst of upstream notifications in while the window is
    /// open: the first forwards immediately to every downstream watcher,
    /// and each later one arrives suppressed and is dropped — not queued,
    /// not remembered. After the burst the window is still suppressed until
    /// [`Throttle::on_timer`] reopens it.
    pub fn on_upstream_burst(&mut self, events: Vec<Context<S::Output>>) -> (r: Option<
        Notification<S::Output>,
    >)
        requires
            !old(self).throttled(),
        ensures
            final(self).signal() == old(self).signal(),
            final(self).duration() == old(self).duration(),
            final(self).watcher_ids() == old(self).watcher_ids(),
            final(self).subscribed() == old(self).subscribed(),
            final(self).wf() == old(self).wf(),
            events@.len() == 0 ==> r is None && !final(self).throttled(),
            events@.len() > 0 ==> {
                &&& r is Some
                &&& r->0.recipients@ == old(self).watcher_ids()
                &&& r->0.context.value == events@[0].value
                &&& r->0.context.metadata == events@[0].metadata
                &&& final(self).throttled()
            },
    {
        let ghost orig = events@;
        let mut remaining = events;
        let mut first: Option<Notification<S::Output>> = None;
        while remaining.len() > 0
            invariant
                remaining@ == orig.skip(orig.len() - remaining@.len()),
                remaining@.len() <= orig.len(),
                self.signal() == old(self).signal(),
                self.duration() == old(self).duration(),
                self.watcher_ids() == old(self).watcher_ids(),
                self.subscribed() == old(self).subscribed(),
                self.wf() == old(self).wf(),
                remaining@.len() == orig.len() ==> first is None && !self.throttled()
                    && self.throttled() == old(self).throttled(),
                remaining@.len() < orig.len() ==> {
                    &&& first is Some
                    &&& first->0.recipients@ == old(self).watcher_ids()
                    &&& first->0.context.value == orig[0].value
                    &&& first->0.context.metadata == orig[0].metadata
                    &&& self.throttled()
                },
            decreases remaining@.len(),
        {
            proof {
                assert(remaining@[0] == orig[orig.len() - remaining@.len()]);
            }
            let ctx = remaining.remove(0);
            let emitted = self.on_upstream(ctx);
            if first.is_none() {
                first = emitted;
            }
            proof {
                assert(remaining@ =~= orig.skip(orig.len() - remaining@.len()));
            }
        }
        first
    }
}

} // verus!
