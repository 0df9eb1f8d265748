use nami::watcher::Context;
use nami::Cached;
use nami::Container;

#[test]
fn cached_signal_avoids_recomputing_when_value_is_unchanged() {
    let signal = Container::new(5);
    let mut cached = Cached::new(signal);

    assert_eq!(cached.get(), 5);
    assert_eq!(
        cached.source_reads(),
        1,
        "first access should compute the value"
    );

    assert_eq!(cached.get(), 5);
    assert_eq!(
        cached.source_reads(),
        1,
        "cached access should reuse the stored value without recomputing",
    );
}

#[test]
fn cached_signal_updates_when_source_changes() {
    let signal = Container::new(1);
    let mut cached = Cached::new(signal);

    assert_eq!(cached.get(), 1);
    assert_eq!(cached.source_reads(), 1);

    let _forwarded = cached.on_source_notification(Context::of(42));

    assert_eq!(cached.get(), 42);
    assert_eq!(
        cached.source_reads(),
        1,
        "up-to-date cache should provide the new value without triggering recomputation",
    );
}

#[test]
fn cached_signal_forwards_watch_notifications() {
    let signal = Container::new(0);
    let mut cached = Cached::new(signal);

    let mut received: Vec<i32> = Vec::new();

    let forwarded = cached.on_source_notification(Context::of(3));
    assert!(
        forwarded.metadata().is_empty(),
        "cached signal should not alter metadata"
    );
    received.push(forwarded.into_value());

    let forwarded = cached.on_source_notification(Context::of(7));
    assert!(
        forwarded.metadata().is_empty(),
        "cached signal should not alter metadata"
    );
    received.push(forwarded.into_value());

    assert_eq!(&received, &[3, 7]);
}

#[test]
fn cached_read_count_grows_at_most_once_between_notifications() {
    let signal = Container::new(9);
    let mut cached = Cached::new(signal);
    assert_eq!(cached.source_reads(), 0);

    for _ in 0..5 {
        assert_eq!(cached.get(), 9);
    }
    assert_eq!(cached.source_reads(), 1);

    let _ = cached.on_source_notification(Context::of(10));
    for _ in 0..5 {
        assert_eq!(cached.get(), 10);
    }
    assert_eq!(cached.source_reads(), 1);
}
