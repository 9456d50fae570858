use file_system::epoch::{
    charge, epoch_budget, fits_in_epoch, queue_wait, residual_budget, toggles,
    PriorityBasedIORateLimiterProtected, DEFAULT_REFILL_PERIOD_MILLIS,
    UPDATE_BUDGETS_EVERY_N_EPOCHS,
};
use file_system::{IOBytes, IOPriority, IOType};

#[test]
fn test_defaults() {
    assert_eq!(DEFAULT_REFILL_PERIOD_MILLIS, 50);
    assert_eq!(UPDATE_BUDGETS_EVERY_N_EPOCHS, 5);
    assert_eq!(IOType::COUNT, 9);
    assert_eq!(IOPriority::COUNT, 4);
}

#[test]
fn test_ordinals() {
    let types = [
        IOType::Other,
        IOType::ForegroundRead,
        IOType::ForegroundWrite,
        IOType::Flush,
        IOType::Compaction,
        IOType::Replication,
        IOType::LoadBalance,
        IOType::Import,
        IOType::Export,
    ];
    for (i, io_type) in types.iter().enumerate() {
        assert_eq!(io_type.index(), i);
    }
    assert_eq!(IOPriority::Stop.index(), 0);
    assert_eq!(IOPriority::Low.index(), 1);
    assert_eq!(IOPriority::Medium.index(), 2);
    assert_eq!(IOPriority::High.index(), 3);
    assert_eq!(IOPriority::Medium.index(), IOPriority::High.index() - 1);
    assert_eq!(IOPriority::Low.index(), IOPriority::Medium.index() - 1);
}

#[test]
fn test_priority_below_and_label() {
    assert_eq!(IOPriority::High.lower(), IOPriority::Medium);
    assert_eq!(IOPriority::Medium.lower(), IOPriority::Low);
    assert_eq!(IOPriority::Low.lower(), IOPriority::Stop);
    assert_eq!(IOPriority::Stop.lower(), IOPriority::Stop);
    assert_eq!(IOPriority::High.as_str(), "high");
    assert_eq!(IOPriority::Medium.as_str(), "medium");
    assert_eq!(IOPriority::Low.as_str(), "low");
    assert_eq!(IOPriority::Stop.as_str(), "stop");
}

#[test]
fn test_epoch_budget_of_rate() {
    assert_eq!(epoch_budget(0), 0);
    assert_eq!(epoch_budget(1), 1);
    assert_eq!(epoch_budget(19), 1);
    assert_eq!(epoch_budget(20), 1);
    assert_eq!(epoch_budget(39), 1);
    assert_eq!(epoch_budget(40), 2);
    assert_eq!(epoch_budget(1024), 51);
    assert_eq!(epoch_budget(2000), 100);
    assert_eq!(epoch_budget(3000), 150);
    assert_eq!(epoch_budget(10000), 500);
    assert_eq!(epoch_budget(100000), 5000);
    assert_eq!(epoch_budget(usize::MAX), usize::MAX / 20);
}

#[test]
fn test_toggles_on_and_off_only() {
    assert!(toggles(0, 100));
    assert!(toggles(100, 0));
    assert!(toggles(0, 0));
    assert!(!toggles(100, 500));
    assert!(!toggles(100, 100));
}

#[test]
fn test_charge_is_held_to_one_budget() {
    assert_eq!(charge(10, 0), 10);
    assert_eq!(charge(usize::MAX, 0), usize::MAX);
    assert_eq!(charge(10, 100), 10);
    assert_eq!(charge(100, 100), 100);
    assert_eq!(charge(101, 100), 100);
    assert_eq!(charge(1000, 1), 1);
    assert_eq!(charge(0, 100), 0);
}

#[test]
fn test_fits_in_epoch() {
    assert!(fits_in_epoch(0, 10, 100));
    assert!(fits_in_epoch(90, 10, 100));
    assert!(!fits_in_epoch(91, 10, 100));
    assert!(!fits_in_epoch(100, 1, 100));
    assert!(fits_in_epoch(100, 0, 100));
    assert!(!fits_in_epoch(101, 0, 100));
    assert!(!fits_in_epoch(usize::MAX, 10, 100));
    assert!(!fits_in_epoch(usize::MAX, usize::MAX, usize::MAX));
    assert!(fits_in_epoch(0, usize::MAX, usize::MAX));
}

#[test]
fn test_residual_budget_has_a_floor() {
    assert_eq!(residual_budget(100, 0), 100);
    assert_eq!(residual_budget(100, 30), 70);
    assert_eq!(residual_budget(100, 99), 1);
    assert_eq!(residual_budget(100, 100), 1);
    assert_eq!(residual_budget(100, 150), 1);
    assert_eq!(residual_budget(1, 0), 1);
    assert_eq!(residual_budget(5000, 2500), 2500);
}

#[test]
fn test_queue_wait() {
    assert_eq!(queue_wait(50, 10, 100), 50);
    assert_eq!(queue_wait(50, 99, 100), 50);
    assert_eq!(queue_wait(50, 100, 100), 100);
    assert_eq!(queue_wait(50, 199, 100), 100);
    assert_eq!(queue_wait(50, 200, 100), 150);
    assert_eq!(queue_wait(0, 250, 100), 100);
    assert_eq!(queue_wait(0, 0, 100), 0);
    assert_eq!(queue_wait(7, 3, 1), 157);
    assert_eq!(queue_wait(u64::MAX - 10, 100, 100), u64::MAX);
    assert_eq!(queue_wait(u64::MAX - 50, 100, 100), u64::MAX);
    assert_eq!(queue_wait(u64::MAX - 51, 100, 100), u64::MAX - 1);
    assert_eq!(queue_wait(u64::MAX, 0, 100), u64::MAX);
}

#[test]
fn test_later_ticket_waits_longer() {
    let budget = 100;
    let mut last = 0;
    let mut pending = 0;
    while pending < 1000 {
        let wait = queue_wait(20, pending, budget);
        assert!(wait >= last);
        if pending >= budget {
            assert!(wait >= queue_wait(20, pending - budget, budget) + 50);
        }
        last = wait;
        pending += 7;
    }
}

#[test]
fn test_new_books() {
    let books = PriorityBasedIORateLimiterProtected::new(0);
    assert_eq!(books.next_refill_time(), 50);
    assert_eq!(books.history_epoch_count(), 0);
    for priority in [IOPriority::Stop, IOPriority::Low, IOPriority::Medium, IOPriority::High] {
        assert_eq!(books.pending_bytes(priority), 0);
        assert_eq!(books.history_bytes(priority), 0);
    }
    assert_eq!(PriorityBasedIORateLimiterProtected::new(1234).next_refill_time(), 1284);
    assert_eq!(PriorityBasedIORateLimiterProtected::new(u64::MAX - 3).next_refill_time(), u64::MAX);
}

#[test]
fn test_schedule_and_refill_due() {
    let mut books = PriorityBasedIORateLimiterProtected::new(0);
    assert!(!books.refill_due(0));
    assert!(!books.refill_due(49));
    assert!(books.refill_due(50));
    assert!(books.refill_due(51));
    assert_eq!(books.time_to_refill(0), 50);
    assert_eq!(books.time_to_refill(49), 1);
    assert_eq!(books.time_to_refill(50), 0);
    assert_eq!(books.time_to_refill(1000), 0);
    books.schedule(130);
    assert_eq!(books.next_refill_time(), 180);
    assert!(!books.refill_due(130));
    assert_eq!(books.time_to_refill(130), 50);
    books.schedule(u64::MAX);
    assert_eq!(books.next_refill_time(), u64::MAX);
}

#[test]
fn test_window_closes_on_every_fifth_epoch() {
    let mut books = PriorityBasedIORateLimiterProtected::new(0);
    for round in 0..3 {
        for epoch in 0..5 {
            assert_eq!(books.history_epoch_count(), epoch);
            let update = books.advance_window();
            assert_eq!(update, epoch == 4, "round {} epoch {}", round, epoch);
        }
        assert_eq!(books.history_epoch_count(), 0);
    }
}

#[test]
fn test_enqueue_and_settle() {
    let mut books = PriorityBasedIORateLimiterProtected::new(0);
    assert_eq!(books.enqueue(IOPriority::High, 100), 100);
    assert_eq!(books.enqueue(IOPriority::High, 150), 250);
    assert_eq!(books.enqueue(IOPriority::Low, 7), 7);
    assert_eq!(books.pending_bytes(IOPriority::High), 250);
    assert_eq!(books.pending_bytes(IOPriority::Medium), 0);
    assert_eq!(books.pending_bytes(IOPriority::Low), 7);

    assert_eq!(books.settle(IOPriority::High, 100), 100);
    assert_eq!(books.pending_bytes(IOPriority::High), 150);
    assert_eq!(books.settle(IOPriority::High, 100), 100);
    assert_eq!(books.pending_bytes(IOPriority::High), 50);
    assert_eq!(books.settle(IOPriority::High, 100), 50);
    assert_eq!(books.pending_bytes(IOPriority::High), 0);
    assert_eq!(books.settle(IOPriority::High, 100), 0);
    assert_eq!(books.pending_bytes(IOPriority::Low), 7);
    assert_eq!(books.settle(IOPriority::Low, 7), 7);
    assert_eq!(books.pending_bytes(IOPriority::Low), 0);
    assert_eq!(books.settle(IOPriority::Medium, 0), 0);
}

#[test]
fn test_enqueue_holds_at_the_largest_count() {
    let mut books = PriorityBasedIORateLimiterProtected::new(0);
    assert_eq!(books.enqueue(IOPriority::Medium, usize::MAX - 1), usize::MAX - 1);
    assert_eq!(books.enqueue(IOPriority::Medium, 5), usize::MAX);
    assert_eq!(books.pending_bytes(IOPriority::Medium), usize::MAX);
}

#[test]
fn test_account_averages_the_window() {
    let mut books = PriorityBasedIORateLimiterProtected::new(0);
    // four epochs of 60 bytes each under a budget of 100
    for epoch in 1..=4 {
        assert_eq!(books.account(IOPriority::High, 60, 100, false), None);
        assert_eq!(books.history_bytes(IOPriority::High), 60 * epoch);
    }
    // the fifth closes the window: 300 bytes in five epochs leave 40 of 100
    assert_eq!(books.account(IOPriority::High, 60, 100, true), Some(40));
    assert_eq!(books.history_bytes(IOPriority::High), 0);
    assert_eq!(books.history_bytes(IOPriority::Medium), 0);
}

#[test]
fn test_account_counts_no_more_than_the_budget() {
    let mut books = PriorityBasedIORateLimiterProtected::new(0);
    assert_eq!(books.account(IOPriority::Medium, 1000, 100, false), None);
    assert_eq!(books.history_bytes(IOPriority::Medium), 100);
    assert_eq!(books.account(IOPriority::Medium, 100, 100, false), None);
    assert_eq!(books.history_bytes(IOPriority::Medium), 200);
    assert_eq!(books.account(IOPriority::Medium, 99, 100, false), None);
    assert_eq!(books.history_bytes(IOPriority::Medium), 299);
    // 299 + 100 = 399 bytes over the window, 79 on average: 21 are left
    assert_eq!(books.account(IOPriority::Medium, 500, 100, true), Some(21));
    // a window that used all of the budget leaves the floor of one byte
    for _ in 0..4 {
        books.account(IOPriority::Medium, 100, 100, false);
    }
    assert_eq!(books.account(IOPriority::Medium, 100, 100, true), Some(1));
    // an idle window leaves the whole budget
    assert_eq!(books.account(IOPriority::Medium, 0, 100, true), Some(100));
}

#[test]
fn test_account_holds_at_the_largest_count() {
    let mut books = PriorityBasedIORateLimiterProtected::new(0);
    books.account(IOPriority::High, usize::MAX, usize::MAX, false);
    books.account(IOPriority::High, usize::MAX, usize::MAX, false);
    assert_eq!(books.history_bytes(IOPriority::High), usize::MAX);
    assert_eq!(
        books.account(IOPriority::High, 1, usize::MAX, true),
        Some(usize::MAX - usize::MAX / 5)
    );
}

#[test]
fn test_io_bytes_since() {
    let now = IOBytes { read: 100, write: 250 };
    let earlier = IOBytes { read: 40, write: 250 };
    assert_eq!(now.since(earlier), IOBytes { read: 60, write: 0 });
    assert_eq!(earlier.since(now), IOBytes { read: -60, write: 0 });
    assert_eq!(IOBytes::default(), IOBytes { read: 0, write: 0 });
    let low = IOBytes { read: i64::MIN, write: -2 };
    let high = IOBytes { read: 1, write: i64::MAX };
    assert_eq!(high.since(low), IOBytes { read: i64::MAX, write: i64::MAX });
    assert_eq!(low.since(high), IOBytes { read: i64::MIN, write: i64::MIN });
    assert_eq!(
        IOBytes { read: -1, write: 0 }.since(IOBytes { read: i64::MAX, write: i64::MIN }),
        IOBytes { read: i64::MIN, write: i64::MAX }
    );
}
