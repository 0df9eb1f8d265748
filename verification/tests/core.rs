use nami::binding;
use nami::watcher::Context;
use nami::watcher::Metadata;
use nami::watcher::WatcherManager;
use nami::Binding;
use nami::Computed;
use nami::Container;
use nami::Debounce;
use nami::Distinct;
use nami::Signal;
use nami::Throttle;

#[test]
fn container_set_notifies_every_watcher_exactly_once() {
    // After set(v), get() == v, and every watcher registered before the
    // set receives exactly one notification carrying v.
    let mut c = Container::new(1);
    let g1 = c.watch();
    let g2 = c.watch();

    let n = c.set(42);
    assert_eq!(c.get(), 42);
    assert_eq!(n.recipients, vec![g1.id, g2.id]);
    assert_eq!(n.context.value, 42);
    assert!(n.context.metadata.is_empty());

    // A watcher registered after the snapshot is not notified by it, and a
    // cancelled watcher receives nothing afterwards.
    c.unwatch(g1);
    let n = c.set(7);
    assert_eq!(n.recipients, vec![g2.id]);
}

#[test]
fn watcher_manager_snapshot_order_and_cancel() {
    let mut m = WatcherManager::new();
    assert!(m.is_empty());
    let a = m.register();
    let b = m.register();
    let c = m.register();
    assert!(a < b && b < c);

    let n = m.notify(5u8, Metadata::new());
    assert_eq!(n.recipients, vec![a, b, c]);

    m.cancel(b);
    m.cancel(b); // a second cancel of the same identifier is a no-op
    let n = m.notify(6u8, Metadata::new());
    assert_eq!(n.recipients, vec![a, c]);
}

#[test]
fn metadata_is_typed_and_append_only() {
    let animation_key = 11u64;
    let origin_key = 12u64;

    let m = Metadata::new();
    assert!(m.is_empty());
    assert_eq!(m.try_get(animation_key), None);

    let m = m.with(animation_key, 3);
    let m = m.with(origin_key, 9);
    assert_eq!(m.try_get(animation_key), Some(3));
    assert_eq!(m.get(origin_key), 9);

    // Replacing one key never perturbs an unrelated key's entry.
    let m = m.with(animation_key, 4);
    assert_eq!(m.try_get(animation_key), Some(4));
    assert_eq!(m.try_get(origin_key), Some(9));
}

#[test]
fn context_metadata_survives_transformations() {
    let key = 3u64;
    let ctx = Context::of(10).with(key, 77);

    // A mapping transformation preserves the metadata chain.
    let mapped = ctx.map(|v: i32| v * 2);
    assert_eq!(*mapped.value(), 20);
    assert_eq!(mapped.metadata().try_get(key), Some(77));
}

#[test]
fn distinct_forwards_changes_only() {
    // Source sequence 5,5,7,7,7,5 forwards 5,7,5.
    let mut d = Distinct::new(Container::new(0));
    let out = d.process_all(vec![5, 5, 7, 7, 7, 5]);
    assert_eq!(out, vec![5, 7, 5]);
}

#[test]
fn distinct_metadata_and_passthrough_reads() {
    let mut d = Distinct::new(Container::new(3));
    assert_eq!(d.get(), 3);

    let key = 8u64;
    let forwarded = d.on_upstream(Context::of(4).with(key, 1)).unwrap();
    assert_eq!(forwarded.metadata().try_get(key), Some(1));
    assert!(d.on_upstream(Context::of(4)).is_none());
}

#[test]
fn debounce_burst_forwards_once_with_last_value() {
    // Notifications at 0, 3, 6 with duration 5: every gap is below the
    // duration, so each supersedes the pending timer; the one timer left
    // expires at 6 + 5 = 11 and carries the last value.
    let mut db = Debounce::new(Container::new(0), 5);
    let (guard, needs_upstream) = db.watch();
    assert!(needs_upstream);
    let (_g2, needs_again) = db.watch();
    assert!(!needs_again, "the upstream subscription is created only once");

    db.on_upstream_burst(vec![
        (0, Context::of(1)),
        (3, Context::of(2)),
        (6, Context::of(3)),
    ]);
    let fired = db.on_timer();
    assert_eq!(fired.context.value, 3);
    assert!(fired.recipients.contains(&guard.id));
}

#[test]
fn debounce_spaced_notifications_each_forward() {
    // With gaps at or above the duration the host fires each timer before
    // the next notification arrives, so every value forwards.
    let mut db = Debounce::new(Container::new(0), 5);
    let _ = db.watch();

    db.on_upstream(Context::of(1), 0);
    assert_eq!(db.on_timer().context.value, 1);
    db.on_upstream(Context::of(2), 10);
    assert_eq!(db.on_timer().context.value, 2);
}

#[test]
fn throttle_forwards_leading_edge_and_drops_the_rest() {
    let mut th = Throttle::new(Container::new(0), 5);
    let (guard, needs_upstream) = th.watch();
    assert!(needs_upstream);

    // The first of a burst forwards immediately; the rest are dropped.
    let first = th.on_upstream_burst(vec![Context::of(1), Context::of(2), Context::of(3)]);
    let first = first.unwrap();
    assert_eq!(first.context.value, 1);
    assert!(first.recipients.contains(&guard.id));

    // Still suppressed: dropped, not queued.
    assert!(th.on_upstream(Context::of(4)).is_none());

    // After the window expires the next notification forwards again.
    th.on_timer();
    let next = th.on_upstream(Context::of(5)).unwrap();
    assert_eq!(next.context.value, 5);
}

#[test]
fn zip_pairs_new_value_with_last_known_other_side() {
    // Zip of two containers seeded at (1, "a"): setting the first to 2
    // fires (2, "a"); subsequently setting the second to "b" fires (2, "b").
    let z = nami::zip::zip(binding(1i32), binding("a".to_string()));
    assert_eq!(z.get(), (1, "a".to_string()));

    let mut st = z.watch_state();
    let fired = st.on_first(Context::of(2));
    assert_eq!(fired.value(), &(2, "a".to_string()));

    let fired = st.on_second(Context::of("b".to_string()));
    assert_eq!(fired.value(), &(2, "b".to_string()));
}

#[test]
fn select_round_trip_reproduces_source_state() {
    // select("dark", "light"): setting "dark" drives the boolean source to
    // true, and reading the selection back yields "dark" again.
    let dark_mode = binding(false);
    let mut theme = dark_mode.select("dark".to_string(), "light".to_string());
    assert_eq!(theme.get(), "light");

    let n = theme.set("dark".to_string());
    assert_eq!(n.context.value, true);
    assert_eq!(theme.get(), "dark");

    let n = theme.set("light".to_string());
    assert_eq!(n.context.value, false);
    assert_eq!(theme.get(), "light");
}

#[test]
fn equal_to_tracks_equality() {
    let text = binding("hello".to_string());
    let is_hello = text.equal_to("hello".to_string());
    assert_eq!(is_hello.get(), true);

    let other = binding("bye".to_string());
    let is_hello = other.equal_to("hello".to_string());
    assert_eq!(is_hello.get(), false);
}

#[test]
fn then_some_round_trip() {
    let is_logged_in = binding(true);
    let mut username = is_logged_in.then_some("alice".to_string());
    assert_eq!(username.get(), Some("alice".to_string()));

    let n = username.set(None);
    assert_eq!(n.context.value, false);
    assert_eq!(username.get(), None);

    let n = username.set(Some("anything".to_string()));
    assert_eq!(n.context.value, true);
    assert_eq!(username.get(), Some("alice".to_string()));
}

#[test]
fn some_equal_to_set_false_is_silent() {
    let maybe_text = binding(Some("hello".to_string()));
    let mut is_hello = maybe_text.some_equal_to("hello".to_string());
    assert_eq!(is_hello.get(), true);

    // Writing false is a documented no-op: no notification fires.
    assert!(is_hello.set(false).is_none());
    assert_eq!(is_hello.get(), true);

    let maybe_text = binding(None::<String>);
    let mut is_hello = maybe_text.some_equal_to("hello".to_string());
    assert_eq!(is_hello.get(), false);
    assert!(is_hello.set(true).is_some());
    assert_eq!(is_hello.get(), true);
}

#[test]
fn unwrap_or_wraps_writes_in_some() {
    let maybe_number = binding(None::<i32>);
    let mut number = maybe_number.unwrap_or(42);
    assert_eq!(number.get(), 42);

    let _ = number.set(7);
    assert_eq!(number.get(), 7);

    let maybe_vec = binding(None::<Vec<i32>>);
    let vec_view = maybe_vec.unwrap_or_default();
    assert!(vec_view.get().is_empty());

    let maybe_text = binding(None::<String>);
    let text = maybe_text.unwrap_or_else(|| "default".to_string());
    assert_eq!(text.get(), "default");
}

#[test]
fn filter_drops_failing_writes_silently() {
    let number = binding(5i32);
    let mut positive = number.filter(|v: i32| v > 0);

    // A passing write notifies once.
    assert!(positive.set(9).is_some());
    assert_eq!(positive.get(), 9);

    // A failing write is a documented no-op: no notification fires.
    assert!(positive.set(-3).is_none());
    assert_eq!(positive.get(), 9);
}

#[test]
fn range_accepts_only_values_inside_bounds() {
    let number = binding(5i32);
    let mut clamped = number.range(0, 10);

    assert!(clamped.set(10).is_some());
    assert_eq!(clamped.get(), 10);
    assert!(clamped.set(11).is_none());
    assert_eq!(clamped.get(), 10);
}

#[test]
fn condition_reports_predicate() {
    let number = binding(5i32);
    let is_positive = number.condition(|n: i32| n > 0);
    assert_eq!(is_positive.get(), true);
}

#[test]
fn mapping_reads_fresh_and_writes_through_setter() {
    let source = binding(10i32);
    let mut doubled = Binding::mapping(
        &source,
        |v: i32| v.wrapping_mul(2),
        |_cur: i32, out: i32| Some(out / 2),
    );
    assert_eq!(doubled.get(), 20);

    let event = doubled.set(8);
    assert!(event.is_some());
    assert_eq!(doubled.get(), 8);
}

#[test]
fn binding_conveniences() {
    let mut counter = Binding::integer(10);
    let _ = counter.increment(5);
    assert_eq!(counter.get(), 15);
    let _ = counter.decrement(3);
    assert_eq!(counter.get(), 12);

    let mut flag = Binding::bool(false);
    let _ = flag.toggle();
    assert_eq!(flag.get(), true);

    let mut text = binding(String::from("Hello"));
    let _ = text.append(" World");
    assert_eq!(text.get(), "Hello World");

    let mut list = binding(vec![1i64, 2, 3]);
    let n = list.push(4);
    assert_eq!(list.get(), vec![1, 2, 3, 4]);
    assert_eq!(n.context.value, vec![1, 2, 3, 4]);

    let (popped, _) = list.pop();
    assert_eq!(popped, Some(4));

    let _ = list.insert(1, 9);
    assert_eq!(list.get(), vec![1, 9, 2, 3]);

    let mut unsorted = binding(vec![3i64, 1, 4, 1, 5]);
    let _ = unsorted.sort();
    assert_eq!(unsorted.get(), vec![1, 1, 3, 4, 5]);

    let _ = list.clear();
    assert!(list.get().is_empty());
}

#[test]
fn binding_handle_notifies_once_total() {
    let mut list = binding(vec![1i32, 2, 3]);
    let g = list.watch();
    let n = list.handle(|mut v: Vec<i32>| {
        v.push(4);
        v
    });
    assert_eq!(list.get(), vec![1, 2, 3, 4]);
    assert_eq!(n.recipients, vec![g.id]);
    assert_eq!(n.context.value, vec![1, 2, 3, 4]);
}

#[test]
fn project_pair_components() {
    let tuple_binding = binding((42i32, "hello".to_string()));
    let (mut num, mut text) = tuple_binding.project();

    assert_eq!(num.get(), 42);
    assert_eq!(text.get(), "hello".to_string());

    let n = num.set(100);
    assert_eq!(n.context.value, (100, "hello".to_string()));

    let n = text.set("bye".to_string());
    assert_eq!(n.context.value.1, "bye".to_string());
}

#[test]
fn computed_erases_and_constant_reads() {
    let c = nami::constant(7i32);
    assert_eq!(c.get(), 7);
    c.watch();

    let erased = Computed::new(&c);
    assert_eq!(erased.get(), 7);
    assert_eq!(Computed::constant("x").get(), "x");

    let mut lazy = nami::constant::Lazy::new(|| 21i32 * 2);
    assert_eq!(lazy.get(), 42);
    assert_eq!(lazy.get(), 42);
    lazy.watch();
}

#[test]
fn debug_configuration_flags() {
    let traced = nami::debug::Debug::changes(nami::constant(3i32));
    assert_eq!(traced.get(), 3);
    assert!(traced.peek_config().should_log_changes());
    assert!(!traced.peek_config().should_log_compute());

    let verbose = nami::debug::Config::verbose();
    assert!(verbose.should_log_changes());
    assert!(verbose.should_log_compute());
    assert!(verbose.should_log_watch());
    assert!(verbose.should_log_remove_watcher());

    let both = nami::debug::Config::compute_and_changes();
    assert!(both.contains_flag(nami::debug::COMPUTE_FLAG));
    assert!(both.contains_flag(nami::debug::CHANGE_FLAG));
    assert!(!nami::debug::Config::compute_only().should_log_changes());
    assert!(nami::debug::Config::watchers().should_log_watch());
    assert_eq!(nami::debug::Config::default().should_log_changes(), true);
}

#[test]
fn with_metadata_enriches_notifications() {
    let key = 5u64;
    let tagged = nami::WithMetadata::new(key, 99, nami::constant(1i32));
    assert_eq!(tagged.get(), 1);

    let enriched = tagged.enrich(Context::of(1));
    assert_eq!(enriched.metadata().try_get(key), Some(99));
}

#[test]
fn binding_mut_guard_commits_once() {
    let mut list = binding(vec![1i32, 2]);
    let mut guard = nami::binding::BindingMutGuard::new(&list);
    guard.value.push(3);
    let n = guard.commit(&mut list);
    assert_eq!(list.get(), vec![1, 2, 3]);
    assert_eq!(n.context.value, vec![1, 2, 3]);
}
