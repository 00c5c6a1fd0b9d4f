use std::cell::Cell;

use openstack::{
    deletion_status, exactly_one, Error, JsonValue, Page, PageCursor, PollStatus, PollingWaiter,
    ResourceIterator, ValueCache,
};

#[test]
fn cache_computes_once_and_retries_after_failures() {
    let calls = Cell::new(0u32);
    let mut cache: ValueCache<u32> = ValueCache::new();
    assert!(cache.get().is_none());

    // The first two computations fail; the cache must stay empty.
    for expected_calls in 1..=2u32 {
        let r = cache.ensure_value(|| {
            calls.set(calls.get() + 1);
            Err(Error::Transport("discovery failed".to_string()))
        });
        assert!(matches!(r, Err(Error::Transport(_))));
        assert!(cache.get().is_none());
        assert_eq!(calls.get(), expected_calls);
    }

    // The third call succeeds and is the one and only stored computation.
    let r = cache.ensure_value(|| {
        calls.set(calls.get() + 1);
        Ok(7)
    });
    assert!(r.is_ok());
    assert_eq!(cache.get(), Some(&7));
    assert_eq!(calls.get(), 3);

    // Later calls serve the cache and never run the computation again.
    for _ in 0..3 {
        let r = cache.ensure_value(|| {
            calls.set(calls.get() + 1);
            Ok(99)
        });
        assert!(r.is_ok());
        assert_eq!(cache.get(), Some(&7));
        assert_eq!(calls.get(), 3);
    }
}

#[test]
fn exactly_one_rejects_none_and_many() {
    let none: Vec<u32> = vec![];
    match exactly_one(none, "nothing here", "too many") {
        Err(Error::NotFound(m)) => assert_eq!(m, "nothing here"),
        other => panic!("expected NotFound, got {:?}", other),
    }

    assert_eq!(exactly_one(vec![5u32], "nothing here", "too many").unwrap(), 5);

    match exactly_one(vec![5u32, 6u32], "nothing here", "too many") {
        Err(Error::AmbiguousResult(m)) => assert_eq!(m, "too many"),
        other => panic!("expected AmbiguousResult, got {:?}", other),
    }
}

#[test]
fn iterator_yields_pages_in_order_then_stops_fetching() {
    let fetches = Cell::new(0u32);
    let fetch = |cursor: Option<PageCursor>| -> Result<Page<char>, Error> {
        fetches.set(fetches.get() + 1);
        match cursor {
            None => Ok(Page { items: vec!['a', 'b'], next: Some(PageCursor { marker: "b".to_string(), limit: Some(2) }) }),
            Some(c) if c.marker == "b" => {
                Ok(Page { items: vec!['c'], next: Some(PageCursor { marker: "c".to_string(), limit: Some(2) }) })
            },
            Some(_) => Ok(Page { items: vec![], next: None }),
        }
    };

    let mut it: ResourceIterator<char> = ResourceIterator::new();
    assert_eq!(fetches.get(), 0, "construction must be lazy");

    assert!(matches!(it.next(&fetch), Some(Ok('a'))));
    assert_eq!(fetches.get(), 1);
    assert!(matches!(it.next(&fetch), Some(Ok('b'))));
    assert_eq!(fetches.get(), 1, "buffered items must not refetch");
    assert!(matches!(it.next(&fetch), Some(Ok('c'))));
    assert_eq!(fetches.get(), 2);
    assert!(it.next(&fetch).is_none());
    assert_eq!(fetches.get(), 3, "the empty page ends the sequence");
    assert!(it.next(&fetch).is_none());
    assert!(it.next(&fetch).is_none());
    assert_eq!(fetches.get(), 3, "no fetch may happen after the terminal absence");
}

#[test]
fn iterator_page_without_next_cursor_ends_after_its_items() {
    let fetches = Cell::new(0u32);
    let fetch = |_cursor: Option<PageCursor>| -> Result<Page<u32>, Error> {
        fetches.set(fetches.get() + 1);
        Ok(Page { items: vec![10, 20], next: None })
    };
    let mut it: ResourceIterator<u32> = ResourceIterator::new();
    assert!(matches!(it.next(&fetch), Some(Ok(10))));
    assert!(matches!(it.next(&fetch), Some(Ok(20))));
    assert!(it.next(&fetch).is_none());
    assert_eq!(fetches.get(), 1);
}

#[test]
fn iterator_surfaces_fetch_failure_and_retries_same_page() {
    let fetches = Cell::new(0u32);
    let fetch = |cursor: Option<PageCursor>| -> Result<Page<u32>, Error> {
        fetches.set(fetches.get() + 1);
        assert!(cursor.is_none(), "a failed fetch must not advance the cursor");
        if fetches.get() == 1 {
            Err(Error::Transport("flaky".to_string()))
        } else {
            Ok(Page { items: vec![1], next: None })
        }
    };
    let mut it: ResourceIterator<u32> = ResourceIterator::new();
    assert!(matches!(it.next(&fetch), Some(Err(Error::Transport(_)))));
    assert!(matches!(it.next(&fetch), Some(Ok(1))));
    assert!(it.next(&fetch).is_none());
}

#[test]
fn waiter_succeeds_on_the_third_check() {
    let checks = Cell::new(0u32);
    let pauses = Cell::new(0u32);
    let check = || {
        checks.set(checks.get() + 1);
        if checks.get() == 3 {
            PollStatus::Ready
        } else {
            PollStatus::Pending
        }
    };
    let pause = |ms: u64| {
        assert_eq!(ms, 1);
        pauses.set(pauses.get() + 1);
    };
    let waiter = PollingWaiter { poll_interval_ms: 1, deadline_ms: 1000 };
    assert!(waiter.wait(&check, &pause).is_ok());
    assert_eq!(checks.get(), 3, "success must come after exactly three checks");
    assert_eq!(pauses.get(), 2);
}

#[test]
fn waiter_times_out_after_a_predictable_number_of_checks() {
    let checks = Cell::new(0u32);
    let check = || {
        checks.set(checks.get() + 1);
        PollStatus::Pending
    };
    let pause = |_ms: u64| {};
    let waiter = PollingWaiter { poll_interval_ms: 1, deadline_ms: 10 };
    match waiter.wait(&check, &pause) {
        Err(Error::Timeout) => {},
        other => panic!("expected Timeout, got {:?}", other),
    }
    // One check per elapsed millisecond, plus the final one at the deadline.
    assert_eq!(checks.get(), 11);
}

#[test]
fn waiter_surfaces_an_unexpected_failure_without_retrying() {
    let checks = Cell::new(0u32);
    let check = || {
        checks.set(checks.get() + 1);
        PollStatus::Failed(Error::Transport("boom".to_string()))
    };
    let pause = |_ms: u64| {};
    let waiter = PollingWaiter { poll_interval_ms: 1, deadline_ms: 1000 };
    assert!(matches!(waiter.wait(&check, &pause), Err(Error::Transport(_))));
    assert_eq!(checks.get(), 1);
}

#[test]
fn deletion_status_maps_not_found_to_success() {
    assert!(matches!(deletion_status::<u32>(Ok(1)), PollStatus::Pending));
    assert!(matches!(
        deletion_status::<u32>(Err(Error::NotFound("gone".to_string()))),
        PollStatus::Ready
    ));
    assert!(matches!(
        deletion_status::<u32>(Err(Error::Transport("boom".to_string()))),
        PollStatus::Failed(Error::Transport(_))
    ));
}

#[test]
fn object_lookup_takes_the_first_of_duplicate_fields() {
    let v = JsonValue::Obj(vec![
        ("a".to_string(), JsonValue::Int(1)),
        ("a".to_string(), JsonValue::Int(2)),
        ("b".to_string(), JsonValue::Int(3)),
    ]);
    assert!(matches!(v.get("a"), Some(JsonValue::Int(1))));
    assert!(matches!(v.get("b"), Some(JsonValue::Int(3))));
    assert!(v.get("c").is_none());
    assert!(JsonValue::Int(4).get("a").is_none());
}
