//! Tracing configuration for signals: a wrapper that carries a bitmask
//! deciding which events around a signal a host should record.
//!
//! The wrapper itself changes nothing about the signal's behaviour: reads
//! pass straight through, and the configuration tells the surrounding code
//! which events (computations, value changes, watcher lifecycle) it should
//! log.

use vstd::prelude::*;

use crate::signal::Signal;

verus! {

/// The flag marking computation events.
pub const COMPUTE_FLAG: u32 = 1;

/// The flag marking watcher-registration events.
pub const WATCH_FLAG: u32 = 2;

/// The flag marking watcher-removal events.
pub const REMOVE_WATCHER_FLAG: u32 = 4;

/// The flag marking value-change events.
pub const CHANGE_FLAG: u32 = 8;

/// A bitmask of the event kinds to record.
#[derive(Debug, Clone, Copy, PartialEq, Eq, Structural)]
pub struct Config {
    bits: u32,
}

impl Config {
    /// The raw bitmask.
    pub closed spec fn bits(&self) -> u32 {
        self.bits
    }

    /// A configuration recording value changes only.
    pub fn changes() -> (r: Self)
        ensures
            r.bits() == CHANGE_FLAG,
    {
        Config { bits: CHANGE_FLAG }
    }

    /// A configuration recording every event kind.
    pub fn verbose() -> (r: Self)
        ensures
            r.bits() == COMPUTE_FLAG | WATCH_FLAG | REMOVE_WATCHER_FLAG | CHANGE_FLAG,
    {
        Config { bits: COMPUTE_FLAG | WATCH_FLAG | REMOVE_WATCHER_FLAG | CHANGE_FLAG }
    }

    /// A configuration recording computations only.
    pub fn compute_only() -> (r: Self)
        ensures
            r.bits() == COMPUTE_FLAG,
    {
        Config { bits: COMPUTE_FLAG }
    }

    /// A configuration recording watcher lifecycle events.
    pub fn watchers() -> (r: Self)
        ensures
            r.bits() == WATCH_FLAG | REMOVE_WATCHER_FLAG,
    {
        Config { bits: WATCH_FLAG | REMOVE_WATCHER_FLAG }
    }

    /// A configuration recording computations and value changes.
    pub fn compute_and_changes() -> (r: Self)
        ensures
            r.bits() == COMPUTE_FLAG | CHANGE_FLAG,
    {
        Config { bits: COMPUTE_FLAG | CHANGE_FLAG }
    }

    /// Whether all bits of `flag` are set.
    pub fn contains_flag(&self, flag: u32) -> (r: bool)
        ensures
            r == (self.bits() & flag == flag),
    {
        self.bits & flag == flag
    }

    /// Whether value changes should be recorded.
    pub fn should_log_changes(&self) -> (r: bool)
        ensures
            r == (self.bits() & CHANGE_FLAG == CHANGE_FLAG),
    {
        self.contains_flag(CHANGE_FLAG)
    }

    /// Whether computations should be recorded.
    pub fn should_log_compute(&self) -> (r: bool)
        ensures
            r == (self.bits() & COMPUTE_FLAG == COMPUTE_FLAG),
    {
        self.contains_flag(COMPUTE_FLAG)
    }

    /// Whether watcher registrations should be recorded.
    pub fn should_log_watch(&self) -> (r: bool)
        ensures
            r == (self.bits() & WATCH_FLAG == WATCH_FLAG),
    {
        self.contains_flag(WATCH_FLAG)
    }

    /// Whether watcher removals should be recorded.
    pub fn should_log_remove_watcher(&self) -> (r: bool)
        ensures
            r == (self.bits() & REMOVE_WATCHER_FLAG == REMOVE_WATCHER_FLAG),
    {
        self.contains_flag(REMOVE_WATCHER_FLAG)
    }
}

impl Default for Config {
    /// The default configuration records value changes only.
    fn default() -> (r: Self)
        ensures
            r.bits() == CHANGE_FLAG,
    {
        Config::changes()
    }
}

/// A signal together with the tracing configuration its host should apply.
#[derive(Debug, Clone)]
pub struct Debug<C> {
    source: C,
    config: Config,
}

impl<C: Signal> Debug<C> {
    /// The traced signal.
    pub closed spec fn source(&self) -> C {
        self.source
    }

    /// The tracing configuration.
    pub closed spec fn config(&self) -> Config {
        self.config
    }

    /// Wraps `source` with the given configuration.
    pub fn with_config(source: C, config: Config) -> (r: Self)
        ensures
            r.source() == source,
            r.config() == config,
    {
        Debug { source, config }
    }

    /// Wraps `source`, recording value changes only.
    pub fn changes(source: C) -> (r: Self)
        ensures
            r.source() == source,
            r.config().bits() == CHANGE_FLAG,
    {
        Self::with_config(source, Config::changes())
    }

    /// Wraps `source`, recording every event kind.
    pub fn verbose(source: C) -> (r: Self)
        ensures
            r.source() == source,
            r.config().bits() == COMPUTE_FLAG | WATCH_FLAG | REMOVE_WATCHER_FLAG | CHANGE_FLAG,
    {
        Self::with_config(source, Config::verbose())
    }

    /// Wraps `source`, recording computations only.
    pub fn compute_only(source: C) -> (r: Self)
        ensures
            r.source() == source,
            r.config().bits() == COMPUTE_FLAG,
    {
        Self::with_config(source, Config::compute_only())
    }

    /// Wraps `source`, recording watcher lifecycle events.
    pub fn watchers(source: C) -> (r: Self)
        ensures
            r.source() == source,
            r.config().bits() == WATCH_FLAG | REMOVE_WATCHER_FLAG,
    {
        Self::with_config(source, Config::watchers())
    }

    /// Wraps `source`, recording computations and value changes.
    pub fn compute_and_changes(source: C) -> (r: Self)
        ensures
            r.source() == source,
            r.config().bits() == COMPUTE_FLAG | CHANGE_FLAG,
    {
        Self::with_config(source, Config::compute_and_changes())
    }

    /// Borrows the tracing configuration.
    pub fn peek_config(&self) -> (r: &Config)
        ensures
            r == &self.config(),
    {
        &self.config
    }
}

impl<C: Signal> Signal for Debug<C> {
    type Output = C::Output;

    open spec fn obs(&self, value: C::Output) -> bool {
        self.source().obs(value)
    }

    fn get(&self) -> (r: C::Output) {
        self.source.get()
    }
}

} // verus!
