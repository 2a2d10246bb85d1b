use quic_client::pool::ConnectionPool;
use quic_client::pool::HostKey;

fn key(host: &str, port: u16) -> HostKey {
    HostKey { host: host.to_string(), port }
}

fn count_for(pool: &ConnectionPool, host: &str, port: u16) -> Option<usize> {
    pool.stats()
        .into_iter()
        .find(|(k, _)| k.host == host && k.port == port)
        .map(|(_, n)| n)
}

#[test]
fn acquire_on_empty_pool_returns_none() {
    let mut pool = ConnectionPool::new();
    let r = pool.acquire_reusable(&key("example.com", 443), 1_000, 60_000);
    assert_eq!(r, None);
    assert!(pool.stats().is_empty());
}

#[test]
fn acquire_reuses_inserted_connection() {
    let mut pool = ConnectionPool::new();
    let k = key("example.com", 443);
    pool.insert_connection(&k, 7, 1_000, 10);
    let r = pool.acquire_reusable(&k, 1_500, 60_000);
    assert_eq!(r, Some(7));
    assert_eq!(count_for(&pool, "example.com", 443), Some(1));
}

#[test]
fn capacity_never_exceeded_after_acquire_and_insert() {
    // After any sequence of inserts, each host holds at most
    // `max_per_host` entries, and an acquire never grows a bucket.
    let mut pool = ConnectionPool::new();
    let k = key("h", 1);
    for id in 0..10u64 {
        pool.insert_connection(&k, id, 1_000 + id, 3);
        assert!(count_for(&pool, "h", 1).unwrap() <= 3);
    }
    pool.acquire_reusable(&k, 2_000, 60_000);
    assert!(count_for(&pool, "h", 1).unwrap() <= 3);
}

#[test]
fn insert_at_capacity_evicts_oldest() {
    let mut pool = ConnectionPool::new();
    let k = key("h", 1);
    pool.insert_connection(&k, 1, 100, 2);
    pool.insert_connection(&k, 2, 200, 2);
    pool.insert_connection(&k, 3, 300, 2);
    assert_eq!(count_for(&pool, "h", 1), Some(2));
    // Reuse is most-recently-used first: id 3, then (after another
    // prune-free acquire) still the refreshed tail.
    assert_eq!(pool.acquire_reusable(&k, 400, 60_000), Some(3));
}

#[test]
fn expired_entry_is_not_returned() {
    let mut pool = ConnectionPool::new();
    let k = key("h", 1);
    pool.insert_connection(&k, 9, 1_000, 10);
    // Age equal to the keep-alive timeout is already stale.
    let r = pool.acquire_reusable(&k, 1_000 + 60_000, 60_000);
    assert_eq!(r, None);
    assert_eq!(count_for(&pool, "h", 1), Some(0));
}

#[test]
fn entry_just_inside_keep_alive_is_returned() {
    let mut pool = ConnectionPool::new();
    let k = key("h", 1);
    pool.insert_connection(&k, 9, 1_000, 10);
    let r = pool.acquire_reusable(&k, 1_000 + 59_999, 60_000);
    assert_eq!(r, Some(9));
}

#[test]
fn reuse_refreshes_last_used() {
    let mut pool = ConnectionPool::new();
    let k = key("h", 1);
    pool.insert_connection(&k, 9, 0, 10);
    // Reused at 50_000: the timestamp is refreshed, so the entry is
    // still live at 100_000 under a 60_000 keep-alive.
    assert_eq!(pool.acquire_reusable(&k, 50_000, 60_000), Some(9));
    assert_eq!(pool.acquire_reusable(&k, 100_000, 60_000), Some(9));
}

#[test]
fn acquire_prunes_only_expired_entries() {
    let mut pool = ConnectionPool::new();
    let k = key("h", 1);
    pool.insert_connection(&k, 1, 0, 10);
    pool.insert_connection(&k, 2, 40_000, 10);
    // At 70_000 with keep-alive 60_000, entry 1 (age 70_000) is stale
    // and entry 2 (age 30_000) is live.
    assert_eq!(pool.acquire_reusable(&k, 70_000, 60_000), Some(2));
    assert_eq!(count_for(&pool, "h", 1), Some(1));
}

#[test]
fn hosts_are_kept_apart() {
    let mut pool = ConnectionPool::new();
    let a = key("a", 1);
    let b = key("a", 2);
    pool.insert_connection(&a, 1, 0, 10);
    pool.insert_connection(&b, 2, 0, 10);
    assert_eq!(pool.acquire_reusable(&a, 100, 60_000), Some(1));
    assert_eq!(pool.acquire_reusable(&b, 100, 60_000), Some(2));
    assert_eq!(count_for(&pool, "a", 1), Some(1));
    assert_eq!(count_for(&pool, "a", 2), Some(1));
}

#[test]
fn clear_then_stats_is_empty() {
    let mut pool = ConnectionPool::new();
    pool.insert_connection(&key("a", 1), 1, 0, 10);
    pool.insert_connection(&key("b", 2), 2, 0, 10);
    assert_eq!(pool.stats().len(), 2);
    pool.clear();
    assert!(pool.stats().is_empty());
}

#[test]
fn connection_ids_follow_eviction_and_pruning() {
    let mut pool = ConnectionPool::new();
    let k = key("h", 1);
    pool.insert_connection(&k, 1, 100, 2);
    pool.insert_connection(&k, 2, 200, 2);
    assert_eq!(pool.connection_ids(), vec![1, 2]);
    // A third insert at capacity evicts the oldest id.
    pool.insert_connection(&k, 3, 300, 2);
    assert_eq!(pool.connection_ids(), vec![2, 3]);
    // An acquire past the keep-alive timeout prunes the rest.
    assert_eq!(pool.acquire_reusable(&k, 70_000, 60_000), None);
    assert!(pool.connection_ids().is_empty());
}

#[test]
fn pool_reuse_makes_one_connect_for_two_sends() {
    // Two sequential sends to the same host within the keep-alive
    // window: the second reuses the pooled entry, so the counting
    // transport mock sees exactly one connect.
    let mut pool = ConnectionPool::new();
    let k = key("example.com", 443);
    let mut connects: u32 = 0;
    let mut next_id: u64 = 0;
    for now in [1_000u64, 2_000] {
        let got = pool.acquire_reusable(&k, now, 60_000);
        if got.is_none() {
            connects += 1;
            next_id += 1;
            pool.insert_connection(&k, next_id, now, 10);
        }
    }
    assert_eq!(connects, 1);
    assert_eq!(count_for(&pool, "example.com", 443), Some(1));
}
