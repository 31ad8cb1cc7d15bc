use xivc::runtime::eventqueue::EventQueue;
use xivc::world::queue::radix::RadixEventQueue;

#[test]
fn radix_new_is_empty() {
    let mut queue = RadixEventQueue::<u32>::new();
    assert!(queue.is_empty());
    assert_eq!(queue.pop(), None);
    assert_eq!(queue.time(), 0);
}

#[test]
fn radix_push_pops_latest_first_at_equal_times() {
    let mut queue = RadixEventQueue::new();
    queue.push(0, "first");
    queue.push(1, "second");
    queue.push(5, "fourth");
    queue.push(5, "third");
    assert_eq!(queue.pop(), Some((0, "first")));
    assert_eq!(queue.pop(), Some((1, "second")));
    assert_eq!(queue.pop(), Some((5, "third")));
    assert_eq!(queue.pop(), Some((5, "fourth")));
    assert_eq!(queue.pop(), None);
}

#[test]
fn radix_push_ordered_keeps_order() {
    let mut queue = RadixEventQueue::<u8>::new();
    queue.push_ordered(10, vec![0, 1, 2, 3]);
    assert_eq!(queue.pop(), Some((10, 0)));
    assert_eq!(queue.pop(), Some((10, 1)));
    assert_eq!(queue.pop(), Some((10, 2)));
    assert_eq!(queue.pop(), Some((10, 3)));
    assert_eq!(queue.pop(), None);
}

#[test]
fn radix_push_ordered_goes_before_pending_events_at_its_time() {
    let mut queue = RadixEventQueue::<u8>::new();
    queue.push(10, 9);
    queue.push_ordered(10, vec![1, 2]);
    assert_eq!(queue.pop(), Some((10, 1)));
    assert_eq!(queue.pop(), Some((10, 2)));
    assert_eq!(queue.pop(), Some((10, 9)));
}

#[test]
fn radix_time_follows_pops() {
    let mut queue = RadixEventQueue::new();
    queue.push(10, ());
    queue.push(5, ());
    assert_eq!(queue.time(), 0);
    queue.pop();
    assert_eq!(queue.time(), 5);
    queue.pop();
    assert_eq!(queue.time(), 10);
}

#[test]
fn radix_is_empty_after_pop() {
    let mut queue = RadixEventQueue::new();
    assert!(queue.is_empty());
    queue.push(3, "A");
    assert!(!queue.is_empty());
    queue.pop();
    assert!(queue.is_empty());
}

#[test]
fn radix_far_apart_times_come_out_sorted() {
    let mut queue = RadixEventQueue::new();
    let times = [4_000_000_000u32, 7, 70000, 1 << 20, 3, 3, 2_147_483_648];
    for (i, t) in times.iter().enumerate() {
        queue.push(*t, i);
    }
    let mut last = 0;
    let mut n = 0;
    while let Some((t, _)) = queue.pop() {
        assert!(t >= last);
        last = t;
        n += 1;
    }
    assert_eq!(n, times.len());
    assert_eq!(last, 4_000_000_000);
}

#[test]
fn radix_drain_top_takes_all_at_the_earliest_time() {
    let mut queue = RadixEventQueue::new();
    queue.push(7, 'a');
    queue.push(7, 'b');
    queue.push(9, 'c');
    let (t, mut drain) = queue.drain_top();
    assert_eq!(t, 7);
    assert_eq!(drain.size_hint(), (2, Some(2)));
    assert_eq!(drain.next(), Some('b'));
    assert_eq!(drain.next(), Some('a'));
    assert_eq!(drain.next(), None);
    assert_eq!(queue.time(), 7);
    assert_eq!(queue.pop(), Some((9, 'c')));
}

#[test]
fn radix_drain_top_of_empty_queue_is_empty() {
    let mut queue = RadixEventQueue::<u8>::new();
    let (t, mut drain) = queue.drain_top();
    assert_eq!(t, 0);
    assert_eq!(drain.next(), None);
}

#[test]
fn event_queue_orders_like_the_radix_queue() {
    let mut queue = EventQueue::new();
    queue.push(0, "first");
    queue.push(1, "second");
    queue.push(5, "fourth");
    queue.push(5, "third");
    assert_eq!(queue.pop(), Some((0, "first")));
    assert_eq!(queue.pop(), Some((1, "second")));
    assert_eq!(queue.pop(), Some((5, "third")));
    assert_eq!(queue.pop(), Some((5, "fourth")));
    assert_eq!(queue.pop(), None);
}
