use sinan_backend::device_cache::DeviceCache;

#[test]
fn latest_reading_per_device() {
    let mut cache: DeviceCache<u32> = DeviceCache::new();
    assert_eq!(cache.len(), 0);
    assert_eq!(cache.get("A"), None);
    cache.insert("A".to_string(), 1);
    cache.insert("B".to_string(), 2);
    cache.insert("A".to_string(), 3);
    assert_eq!(cache.get("A"), Some(&3));
    assert_eq!(cache.get("B"), Some(&2));
    assert_eq!(cache.get("C"), None);
    assert_eq!(cache.len(), 2);
    let mut values: Vec<u32> = cache.values().into_iter().copied().collect();
    values.sort();
    assert_eq!(values, vec![2, 3]);
}

#[test]
fn equal_readings_of_two_devices_are_both_listed() {
    let mut cache: DeviceCache<u32> = DeviceCache::new();
    cache.insert("A".to_string(), 7);
    cache.insert("B".to_string(), 7);
    cache.insert("C".to_string(), 1);
    cache.insert("C".to_string(), 7);
    let values: Vec<u32> = cache.values().into_iter().copied().collect();
    assert_eq!(values, vec![7, 7, 7]);
}
