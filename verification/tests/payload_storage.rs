use rbuilder::payload_storage::{is_payload_fresh, PayloadStorage, PAYLOAD_TTL_MS};

#[test]
fn stored_payload_is_returned() {
    let mut storage = PayloadStorage::new();
    assert_eq!(storage.get_payload(&[1; 32]), None);
    storage.store_payload([1; 32], vec![10, 11], 1_000);
    assert_eq!(storage.get_payload(&[1; 32]), Some(vec![10, 11]));
    assert_eq!(storage.get_payload(&[2; 32]), None);
}

#[test]
fn storing_again_replaces_payload() {
    let mut storage = PayloadStorage::new();
    storage.store_payload([1; 32], vec![10], 1_000);
    storage.store_payload([1; 32], vec![20], 2_000);
    assert_eq!(storage.get_payload_count(), 1);
    assert_eq!(storage.get_payload(&[1; 32]), Some(vec![20]));
}

#[test]
fn count_grows_with_new_hashes() {
    let mut storage = PayloadStorage::new();
    assert_eq!(storage.get_payload_count(), 0);
    for i in 0..5u8 {
        storage.store_payload([i; 32], vec![i], 0);
        assert_eq!(storage.get_payload_count(), i as usize + 1);
    }
}

#[test]
fn all_payloads_lists_each_once() {
    let mut storage = PayloadStorage::new();
    for i in 0..4u8 {
        storage.store_payload([i; 32], vec![i, i], 0);
    }
    let mut all = storage.get_all_payloads();
    all.sort();
    assert_eq!(all, (0..4u8).map(|i| ([i; 32], vec![i, i])).collect::<Vec<_>>());
}

#[test]
fn cleanup_removes_payloads_older_than_two_minutes() {
    let mut storage = PayloadStorage::new();
    storage.store_payload([1; 32], vec![1], 100_000);
    storage.store_payload([2; 32], vec![2], 150_000);
    storage.store_payload([3; 32], vec![3], 220_001);
    storage.cleanup_expired_payloads(220_000 + 100_000);
    // cutoff is 200_000: only the payload stored after it stays
    assert_eq!(storage.get_payload_count(), 1);
    assert_eq!(storage.get_payload(&[3; 32]), Some(vec![3]));
    assert_eq!(storage.get_payload(&[1; 32]), None);
}

#[test]
fn cleanup_keeps_payload_exactly_two_minutes_old() {
    let mut storage = PayloadStorage::new();
    storage.store_payload([1; 32], vec![1], 10_000);
    storage.cleanup_expired_payloads(10_000 + PAYLOAD_TTL_MS);
    assert_eq!(storage.get_payload_count(), 1);
    storage.cleanup_expired_payloads(10_000 + PAYLOAD_TTL_MS + 1);
    assert_eq!(storage.get_payload_count(), 0);
}

#[test]
fn cleanup_early_in_clock_keeps_everything() {
    let mut storage = PayloadStorage::new();
    storage.store_payload([1; 32], vec![1], 0);
    storage.cleanup_expired_payloads(PAYLOAD_TTL_MS - 1);
    assert_eq!(storage.get_payload_count(), 1);
    assert!(is_payload_fresh(0, 0));
    assert!(is_payload_fresh(0, PAYLOAD_TTL_MS));
    assert!(!is_payload_fresh(0, PAYLOAD_TTL_MS + 1));
    assert!(is_payload_fresh(1, PAYLOAD_TTL_MS + 1));
}

#[test]
fn cleanup_twice_removes_nothing_more() {
    let mut storage = PayloadStorage::new();
    for i in 0..6u64 {
        storage.store_payload([i as u8; 32], vec![], i * 50_000);
    }
    storage.cleanup_expired_payloads(300_000);
    let after_first = storage.get_payload_count();
    storage.cleanup_expired_payloads(300_000);
    assert_eq!(storage.get_payload_count(), after_first);
    assert_eq!(after_first, 2);
}

#[test]
fn earlier_cleanup_then_later_cleanup_is_later_cleanup() {
    let mut a = PayloadStorage::new();
    let mut b = PayloadStorage::new();
    for i in 0..8u64 {
        a.store_payload([i as u8; 32], vec![i as u8], i * 40_000);
        b.store_payload([i as u8; 32], vec![i as u8], i * 40_000);
    }
    a.cleanup_expired_payloads(200_000);
    a.cleanup_expired_payloads(330_000);
    b.cleanup_expired_payloads(330_000);
    let mut left_a = a.get_all_payloads();
    let mut left_b = b.get_all_payloads();
    left_a.sort();
    left_b.sort();
    assert_eq!(left_a, left_b);
    assert_eq!(left_b.len(), 2);
}
