use sinan_backend::compute_pool::{thread_name, ComputePoolConfig, PoolLedger, WORKER_STACK_SIZE};

#[test]
fn default_pool_size_is_clamped_to_two_to_eight() {
    assert_eq!(ComputePoolConfig::for_parallelism(None).num_threads, 4);
    assert_eq!(ComputePoolConfig::for_parallelism(Some(1)).num_threads, 2);
    assert_eq!(ComputePoolConfig::for_parallelism(Some(2)).num_threads, 2);
    assert_eq!(ComputePoolConfig::for_parallelism(Some(6)).num_threads, 6);
    assert_eq!(ComputePoolConfig::for_parallelism(Some(64)).num_threads, 8);
    let c = ComputePoolConfig::for_parallelism(Some(3));
    assert_eq!(c.thread_name_prefix, "sinan-micro-mag");
    assert_eq!(c.stack_size, Some(4 * 1024 * 1024));
    assert_eq!(WORKER_STACK_SIZE, 4 * 1024 * 1024);
}

#[test]
fn worker_threads_are_numbered() {
    assert_eq!(thread_name("test-pool", 0), "test-pool-0");
    assert_eq!(thread_name("sinan-micro-mag", 12), "sinan-micro-mag-12");
}

#[test]
fn fresh_ledger_reports_nothing_submitted() {
    let ledger = PoolLedger::new();
    let stats = ledger.stats(2);
    assert_eq!(stats.num_threads, 2);
    assert_eq!(stats.submitted, 0);
    assert_eq!(stats.completed, 0);
    assert_eq!(stats.in_flight_count, 0);
}

#[test]
fn finished_tasks_leave_the_in_flight_list() {
    let mut ledger = PoolLedger::new();
    ledger.record_submitted("add");
    ledger.record_submitted("device_compare");
    ledger.record_submitted("add");
    assert_eq!(ledger.stats(2).in_flight_count, 3);
    ledger.record_completed("add");
    let stats = ledger.stats(2);
    assert_eq!((stats.submitted, stats.completed, stats.in_flight_count), (3, 1, 2));
    ledger.record_completed("add");
    let stats = ledger.stats(2);
    assert_eq!((stats.submitted, stats.completed, stats.in_flight_count), (3, 2, 1));
    ledger.record_completed("device_compare");
    let stats = ledger.stats(4);
    assert_eq!((stats.submitted, stats.completed, stats.in_flight_count, stats.num_threads), (3, 3, 0, 4));
}

#[test]
fn a_finished_task_leaves_in_flight_as_before() {
    let mut ledger = PoolLedger::new();
    ledger.record_submitted("x");
    ledger.record_submitted("y");
    let before = ledger.stats(2);
    ledger.record_submitted("x");
    ledger.record_completed("x");
    let after = ledger.stats(2);
    assert_eq!(after.in_flight_count, before.in_flight_count);
    assert_eq!(after.submitted, before.submitted + 1);
    assert_eq!(after.completed, before.completed + 1);
}

#[test]
fn in_flight_count_is_submitted_less_completed() {
    let mut ledger = PoolLedger::new();
    for name in ["a", "b", "a", "c", "b"] {
        ledger.record_submitted(name);
        let s = ledger.stats(2);
        assert_eq!(s.in_flight_count, s.submitted - s.completed);
    }
    for name in ["b", "a", "c"] {
        ledger.record_completed(name);
        let s = ledger.stats(2);
        assert_eq!(s.in_flight_count, s.submitted - s.completed);
    }
}

#[test]
fn in_flight_lookup_follows_submit_and_finish() {
    let mut ledger = PoolLedger::new();
    assert!(!ledger.is_in_flight("a"));
    ledger.record_submitted("a");
    ledger.record_submitted("b");
    assert!(ledger.is_in_flight("a"));
    assert!(ledger.is_in_flight("b"));
    assert!(!ledger.is_in_flight("c"));
    ledger.record_completed("a");
    assert!(!ledger.is_in_flight("a"));
    assert!(ledger.is_in_flight("b"));
}
