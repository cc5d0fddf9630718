use l7flow::rrt_cache::L7RrtCache;

#[test]
fn lookup_removes_the_entry() {
    let mut cache = L7RrtCache::new(4);
    cache.add_req_time(1, None, 100);
    assert_eq!(cache.get_and_remove_l7_req_time(1, None), Some(100));
    assert_eq!(cache.get_and_remove_l7_req_time(1, None), None);
}

#[test]
fn keys_pair_flow_and_sub_stream() {
    let mut cache = L7RrtCache::new(4);
    cache.add_req_time(1, Some(1), 100);
    cache.add_req_time(1, Some(3), 200);
    cache.add_req_time(2, Some(1), 300);
    assert_eq!(cache.get_and_remove_l7_req_time(1, Some(3)), Some(200));
    assert_eq!(cache.get_and_remove_l7_req_time(1, None), None);
    assert_eq!(cache.get_and_remove_l7_req_time(1, Some(1)), Some(100));
    assert_eq!(cache.get_and_remove_l7_req_time(2, Some(1)), Some(300));
}

#[test]
fn same_key_overwrites_in_place() {
    let mut cache = L7RrtCache::new(4);
    cache.add_req_time(1, None, 100);
    cache.add_req_time(1, None, 150);
    assert_eq!(cache.get_and_remove_l7_req_time(1, None), Some(150));
    assert_eq!(cache.get_and_remove_l7_req_time(1, None), None);
}

#[test]
fn a_full_cache_evicts_its_oldest_entry() {
    let mut cache = L7RrtCache::new(2);
    cache.add_req_time(1, None, 100);
    cache.add_req_time(2, None, 200);
    // A third key arrives at capacity: the oldest entry leaves.
    cache.add_req_time(3, None, 300);
    assert_eq!(cache.get_and_remove_l7_req_time(1, None), None);
    assert_eq!(cache.get_and_remove_l7_req_time(2, None), Some(200));
    assert_eq!(cache.get_and_remove_l7_req_time(3, None), Some(300));
}
