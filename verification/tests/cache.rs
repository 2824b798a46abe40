use modeling::cache::ResourceCache;
use std::cell::Cell;

#[test]
fn new_cache_is_empty() {
    let cache: ResourceCache<u32> = ResourceCache::new();
    assert_eq!(cache.len(), 0);
    assert_eq!(cache.find("anything"), None);
    assert_eq!(cache.get(0), None);
    assert_eq!(cache.key(0), None);
}

#[test]
fn first_request_builds_and_registers() {
    let mut cache: ResourceCache<String> = ResourceCache::new();
    let r: Result<usize, ()> = cache.get_or_create("brick-0", || Ok("brick".to_string()));
    assert_eq!(r, Ok(0));
    assert_eq!(cache.len(), 1);
    assert_eq!(cache.find("brick-0"), Some(0));
    assert_eq!(cache.get(0), Some(&"brick".to_string()));
    assert_eq!(cache.key(0), Some("brick-0"));
}

#[test]
fn same_key_gives_same_handle_and_builds_once() {
    let built = Cell::new(0u32);
    let mut cache: ResourceCache<u32> = ResourceCache::new();
    let first: Result<usize, ()> = cache.get_or_create("k", || {
        built.set(built.get() + 1);
        Ok(10)
    });
    let second: Result<usize, ()> = cache.get_or_create("k", || {
        built.set(built.get() + 1);
        Ok(20)
    });
    assert_eq!(first, Ok(0));
    assert_eq!(second, first);
    assert_eq!(built.get(), 1);
    assert_eq!(cache.len(), 1);
    assert_eq!(cache.get(0), Some(&10));
}

#[test]
fn same_resource_is_reached_through_both_handles() {
    let mut cache: ResourceCache<Vec<u8>> = ResourceCache::new();
    let a: Result<usize, ()> = cache.get_or_create("k", || Ok(vec![1, 2, 3]));
    let b: Result<usize, ()> = cache.get_or_create("k", || Ok(vec![9]));
    let first: &Vec<u8> = cache.get(a.unwrap()).unwrap();
    let second: &Vec<u8> = cache.get(b.unwrap()).unwrap();
    assert!(std::ptr::eq(first, second));
    assert_eq!(first, &vec![1, 2, 3]);
}

#[test]
fn handles_are_given_out_in_order() {
    let mut cache: ResourceCache<u32> = ResourceCache::new();
    for (i, key) in ["a", "b", "c"].iter().enumerate() {
        let r: Result<usize, ()> = cache.get_or_create(key, || Ok(i as u32 * 100));
        assert_eq!(r, Ok(i));
    }
    let again: Result<usize, ()> = cache.get_or_create("b", || Ok(7));
    assert_eq!(again, Ok(1));
    assert_eq!(cache.len(), 3);
    assert_eq!(cache.get(0), Some(&0));
    assert_eq!(cache.get(1), Some(&100));
    assert_eq!(cache.get(2), Some(&200));
    assert_eq!(cache.key(2), Some("c"));
    assert_eq!(cache.get(3), None);
}

#[test]
fn failed_builder_leaves_the_cache_unchanged() {
    let mut cache: ResourceCache<u32> = ResourceCache::new();
    let ok: Result<usize, String> = cache.get_or_create("a", || Ok(1));
    assert_eq!(ok, Ok(0));
    let failed: Result<usize, String> = cache.get_or_create("b", || Err("no device".to_string()));
    assert_eq!(failed, Err("no device".to_string()));
    assert_eq!(cache.len(), 1);
    assert_eq!(cache.find("b"), None);
    assert_eq!(cache.find("a"), Some(0));
    let retried: Result<usize, String> = cache.get_or_create("b", || Ok(2));
    assert_eq!(retried, Ok(1));
    assert_eq!(cache.get(1), Some(&2));
}

#[test]
fn failing_builder_is_not_run_for_a_known_key() {
    let mut cache: ResourceCache<u32> = ResourceCache::new();
    let _: Result<usize, String> = cache.get_or_create("a", || Ok(1));
    let again: Result<usize, String> = cache.get_or_create("a", || Err("never".to_string()));
    assert_eq!(again, Ok(0));
}

#[test]
fn keys_differ_by_every_character() {
    let mut cache: ResourceCache<u32> = ResourceCache::new();
    let a: Result<usize, ()> = cache.get_or_create("wall-1", || Ok(1));
    let b: Result<usize, ()> = cache.get_or_create("wall-10", || Ok(2));
    let c: Result<usize, ()> = cache.get_or_create("", || Ok(3));
    assert_eq!((a, b, c), (Ok(0), Ok(1), Ok(2)));
    assert_eq!(cache.find("wall-1"), Some(0));
    assert_eq!(cache.find("wall-10"), Some(1));
    assert_eq!(cache.find(""), Some(2));
    assert_eq!(cache.find("wall-"), None);
}
