use nami::AnyCollection;
use nami::Collection;
use nami::List;

#[test]
fn test_collection_trait_basic_operations() {
    let list = List::from(vec![1, 2, 3]);

    assert_eq!(Collection::len(&list), 3);
    assert!(!Collection::is_empty(&list));
    assert_eq!(Collection::get(&list, 0), Some(1));
    assert_eq!(Collection::get(&list, 1), Some(2));
    assert_eq!(Collection::get(&list, 2), Some(3));
    assert_eq!(Collection::get(&list, 3), None);
}

#[test]
fn test_list_new_and_default() {
    let list1: List<i32> = List::new();
    let list2: List<i32> = List::default();

    assert_eq!(Collection::len(&list1), 0);
    assert!(Collection::is_empty(&list1));
    assert_eq!(Collection::len(&list2), 0);
    assert!(Collection::is_empty(&list2));
}

#[test]
fn test_list_from_vec() {
    let vec = vec![1, 2, 3, 4, 5];
    let list = List::from(vec);

    assert_eq!(Collection::len(&list), 5);
    for i in 0..5 {
        assert_eq!(Collection::get(&list, i), Some(i as i32 + 1));
    }
}

#[test]
fn test_list_push_and_pop() {
    let mut list = List::new();

    let _ = list.push(1);
    let _ = list.push(2);
    let _ = list.push(3);

    assert_eq!(Collection::len(&list), 3);
    assert_eq!(Collection::get(&list, 0), Some(1));
    assert_eq!(Collection::get(&list, 1), Some(2));
    assert_eq!(Collection::get(&list, 2), Some(3));

    assert_eq!(list.pop().0, Some(3));
    assert_eq!(Collection::len(&list), 2);
    assert_eq!(list.pop().0, Some(2));
    assert_eq!(list.pop().0, Some(1));
    assert_eq!(list.pop().0, None);
    assert!(Collection::is_empty(&list));
}

#[test]
fn test_list_insert_and_remove() {
    let mut list = List::from(vec![1, 3, 5]);

    let _ = list.insert(1, 2);
    let _ = list.insert(3, 4);

    assert_eq!(Collection::len(&list), 5);
    assert_eq!(Collection::get(&list, 0), Some(1));
    assert_eq!(Collection::get(&list, 1), Some(2));
    assert_eq!(Collection::get(&list, 2), Some(3));
    assert_eq!(Collection::get(&list, 3), Some(4));
    assert_eq!(Collection::get(&list, 4), Some(5));

    assert_eq!(list.remove(1).0, 2);
    assert_eq!(list.remove(2).0, 4);
    assert_eq!(Collection::len(&list), 3);
    assert_eq!(Collection::get(&list, 0), Some(1));
    assert_eq!(Collection::get(&list, 1), Some(3));
    assert_eq!(Collection::get(&list, 2), Some(5));
}

#[test]
fn test_list_clear() {
    let mut list = List::from(vec![1, 2, 3, 4, 5]);
    assert_eq!(Collection::len(&list), 5);

    let _ = list.clear();
    assert_eq!(Collection::len(&list), 0);
    assert!(Collection::is_empty(&list));

    // Clearing an empty list is a silent no-op.
    let second = list.clear();
    assert!(Collection::is_empty(&list));
    assert!(second.is_none());
}

#[test]
fn test_list_watcher_notifications() {
    let mut list = List::new();
    let mut notification_count = 0;

    let (guard, immediate) = list.watch(0, None);
    assert!(immediate.is_none());

    // Each mutation notifies the full-range watcher once.
    let deliveries = list.push(1);
    notification_count += deliveries.iter().filter(|d| d.watcher == guard.id).count();
    assert_eq!(notification_count, 1);

    let deliveries = list.push(2);
    notification_count += deliveries.iter().filter(|d| d.watcher == guard.id).count();
    assert_eq!(notification_count, 2);

    let (_, deliveries) = list.pop();
    notification_count += deliveries
        .unwrap()
        .iter()
        .filter(|d| d.watcher == guard.id)
        .count();
    assert_eq!(notification_count, 3);
}

#[test]
fn test_list_watcher_range() {
    let mut list = List::from(vec![1, 2, 3, 4, 5]);
    let mut notification_count = 0;

    let (guard, immediate) = list.watch(1, Some(4));
    let immediate = immediate.unwrap();
    notification_count += 1;
    assert_eq!(immediate, vec![2, 3, 4]);

    let deliveries = list.push(6);
    for d in deliveries.iter().filter(|d| d.watcher == guard.id) {
        notification_count += 1;
        assert_eq!(d.items, vec![2, 3, 4]);
    }
    assert_eq!(notification_count, 2);
}

#[test]
fn test_vec_collection_implementation() {
    let vec = vec![1, 2, 3, 4, 5];

    assert_eq!(Collection::len(&vec), 5);
    assert!(!Collection::is_empty(&vec));
    assert_eq!(Collection::get(&vec, 2), Some(3));
    assert_eq!(Collection::get(&vec, 10), None);

    // A plain vector is static: a range-watch request never calls the
    // watcher.
    let wrapped = AnyCollection::new(&vec);
    assert!(wrapped.watch(1, Some(3)).is_none());
}

#[test]
fn test_any_collection_basic_operations() {
    let list = List::from(vec![1, 2, 3]);
    let any_collection = AnyCollection::new(&list);

    assert_eq!(any_collection.len(), 3);
    assert!(!any_collection.is_empty());
    assert_eq!(any_collection.get(0), Some(1));
    assert_eq!(any_collection.get(1), Some(2));
    assert_eq!(any_collection.get(2), Some(3));
    assert_eq!(any_collection.get(3), None);
}

#[test]
fn test_any_collection_from_vec() {
    let vec = vec![10, 20, 30];
    let any_collection = AnyCollection::new(&vec);

    assert_eq!(any_collection.len(), 3);
    assert_eq!(any_collection.get(0), Some(10));
    assert_eq!(any_collection.get(1), Some(20));
    assert_eq!(any_collection.get(2), Some(30));
}

#[test]
fn test_any_collection_clone() {
    let list = List::from(vec![1, 2, 3]);
    let any_collection1 = AnyCollection::new(&list);
    let any_collection2 = any_collection1.clone();

    assert_eq!(any_collection1.len(), any_collection2.len());
    for i in 0..3 {
        assert_eq!(any_collection1.get(i), any_collection2.get(i));
    }
}

#[test]
fn test_any_collection_watcher() {
    let list = List::from(vec![1, 2, 3, 4, 5]);
    let any_collection = AnyCollection::new(&list);

    let immediate = any_collection.watch(1, Some(3));
    assert_eq!(immediate, Some(vec![2, 3]));
}

#[test]
fn test_range_bounds_inclusive() {
    let mut list = List::from(vec![0, 1, 2, 3, 4]);

    // The inclusive range covering indices 1 through 3.
    let (_guard, immediate) = list.watch(1, Some(4));
    assert_eq!(immediate, Some(vec![1, 2, 3]));
}

#[test]
fn test_range_bounds_from() {
    let mut list = List::from(vec![0, 1, 2, 3, 4]);

    let (_guard, immediate) = list.watch(2, None);
    assert_eq!(immediate, Some(vec![2, 3, 4]));
}

#[test]
fn test_range_bounds_to() {
    let mut list = List::from(vec![0, 1, 2, 3, 4]);

    let (_guard, immediate) = list.watch(0, Some(3));
    assert_eq!(immediate, Some(vec![0, 1, 2]));
}

#[test]
fn test_range_bounds_full() {
    let mut list = List::from(vec![0, 1, 2, 3, 4]);

    let (_guard, immediate) = list.watch(0, None);
    assert_eq!(immediate, Some(vec![0, 1, 2, 3, 4]));
}

#[test]
fn test_out_of_bounds_range() {
    let mut list = List::from(vec![1, 2, 3]);

    // A watch whose range clamps to nothing never fires.
    let (guard, immediate) = list.watch(10, Some(20));
    assert!(immediate.is_none());

    let deliveries = list.push(4);
    assert!(deliveries.iter().all(|d| d.watcher != guard.id));
}

#[test]
fn test_empty_range() {
    let mut list = List::from(vec![1, 2, 3]);

    let (guard, immediate) = list.watch(2, Some(2));
    assert!(immediate.is_none());

    let deliveries = list.push(4);
    assert!(deliveries.iter().all(|d| d.watcher != guard.id));
}

#[test]
fn test_watcher_guard_cleanup() {
    let mut list = List::new();
    let mut notification_count = 0;

    let (guard, _) = list.watch(0, None);

    let deliveries = list.push(1);
    notification_count += deliveries.iter().filter(|d| d.watcher == guard.id).count();
    assert_eq!(notification_count, 1);

    // After the guard is released, no more notifications reach it.
    list.unwatch(guard);
    let deliveries = list.push(2);
    notification_count += deliveries.iter().filter(|d| d.watcher == guard.id).count();
    assert_eq!(notification_count, 1);
}

#[test]
fn test_list_single_notification_per_mutation() {
    // One logical mutation produces one delivery per firing watcher, and a
    // no-op mutation produces none.
    let mut list = List::from(vec![1, 2, 3]);
    let (guard, _) = list.watch(0, None);

    let deliveries = list.push(9);
    assert_eq!(
        deliveries.iter().filter(|d| d.watcher == guard.id).count(),
        1
    );
    assert_eq!(deliveries.last().unwrap().items, vec![1, 2, 3, 9]);

    let mut empty: List<i32> = List::new();
    let (_, _) = empty.watch(0, None);
    assert!(empty.pop().1.is_none());
    assert!(empty.clear().is_none());
}
