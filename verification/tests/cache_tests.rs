use index_cache::{IndexCache, IndexDescriptor, ScalarIndexHandle, VectorIndexHandle};

fn rate_f32(c: &IndexCache) -> f32 {
    let (num, den) = c.hit_rate();
    num as f32 / den as f32
}

fn descriptor(name: &str, fields: Vec<u32>, dataset_version: u64) -> IndexDescriptor {
    IndexDescriptor {
        name: name.to_string(),
        fields,
        dataset_version,
    }
}

#[test]
fn miss_on_never_inserted_key_counts_one_miss() {
    let mut c = IndexCache::new(100);
    assert!(c.get_scalar("absent").is_none());
    assert_eq!(c.hit_rate(), (0, 1));
    assert!(c.get_vector("absent").is_none());
    assert_eq!(c.hit_rate(), (0, 2));
    assert!(c.get_metadata("ds", 1).is_none());
    assert_eq!(c.hit_rate(), (0, 3));
}

#[test]
fn insert_then_get_scalar_returns_value_and_counts_hit() {
    let mut c = IndexCache::new(100);
    let h = ScalarIndexHandle { id: 7 };
    c.insert_scalar("idx1", h);
    assert_eq!(c.get_scalar("idx1"), Some(h));
    assert_eq!(c.hit_rate(), (1, 1));
}

#[test]
fn insert_then_get_vector_returns_value_and_counts_hit() {
    let mut c = IndexCache::new(100);
    let h = VectorIndexHandle { id: 9 };
    c.insert_vector("ann", h);
    assert_eq!(c.get_vector("ann"), Some(h));
    assert_eq!(c.hit_rate(), (1, 1));
}

#[test]
fn insert_then_get_metadata_returns_value_and_counts_hit() {
    let mut c = IndexCache::new(100);
    let ds = vec![descriptor("btree", vec![0], 5)];
    c.insert_metadata("dataset", 5, ds.clone());
    assert_eq!(c.get_metadata("dataset", 5), Some(ds));
    assert_eq!(c.hit_rate(), (1, 1));
}

#[test]
fn insert_replaces_value_under_same_key() {
    let mut c = IndexCache::new(100);
    c.insert_scalar("idx1", ScalarIndexHandle { id: 1 });
    c.insert_scalar("idx1", ScalarIndexHandle { id: 2 });
    assert_eq!(c.get_scalar("idx1"), Some(ScalarIndexHandle { id: 2 }));

    c.insert_vector("ann", VectorIndexHandle { id: 3 });
    c.insert_vector("ann", VectorIndexHandle { id: 4 });
    assert_eq!(c.get_vector("ann"), Some(VectorIndexHandle { id: 4 }));

    let first = vec![descriptor("old", vec![0], 1)];
    let second = vec![descriptor("new", vec![1, 2], 1)];
    c.insert_metadata("ds", 1, first);
    c.insert_metadata("ds", 1, second.clone());
    assert_eq!(c.get_metadata("ds", 1), Some(second));
}

#[test]
fn metadata_keys_are_namespaced_by_dataset_and_version() {
    let mut c = IndexCache::new(100);
    let listing_a2 = vec![descriptor("a2", vec![0], 2)];
    let listing_b1 = vec![descriptor("b1", vec![1], 1)];
    c.insert_metadata("A", 2, listing_a2.clone());
    c.insert_metadata("B", 1, listing_b1.clone());
    assert!(c.get_metadata("A", 1).is_none());
    assert_eq!(c.get_metadata("A", 2), Some(listing_a2));
    assert_eq!(c.get_metadata("B", 1), Some(listing_b1));
}

#[test]
fn metadata_keys_do_not_collide_on_tricky_identifiers() {
    // "a:1" at version 1 formats to "a:1:1"; "a" at version 11 to "a:11".
    let mut c = IndexCache::new(100);
    let listing = vec![descriptor("colon", vec![0], 1)];
    c.insert_metadata("a:1", 1, listing.clone());
    assert!(c.get_metadata("a", 11).is_none());
    assert!(c.get_metadata("a:1:1", 0).is_none());
    assert_eq!(c.get_metadata("a:1", 1), Some(listing));
}

#[test]
fn metadata_version_extremes_round_trip() {
    let mut c = IndexCache::new(100);
    let at_zero = vec![descriptor("zero", vec![0], 0)];
    let at_max = vec![descriptor("max", vec![1], u64::MAX)];
    c.insert_metadata("ds", 0, at_zero.clone());
    c.insert_metadata("ds", u64::MAX, at_max.clone());
    assert_eq!(c.get_metadata("ds", 0), Some(at_zero));
    assert_eq!(c.get_metadata("ds", u64::MAX), Some(at_max));
    assert!(c.get_metadata("ds", 1).is_none());
}

#[test]
fn fresh_cache_hit_rate_is_exactly_one() {
    let c = IndexCache::new(10);
    assert_eq!(c.hit_rate(), (1, 1));
    assert_eq!(rate_f32(&c), 1.0);
}

#[test]
fn hit_rate_is_hits_over_lookups() {
    let mut c = IndexCache::new(100);
    c.insert_scalar("s", ScalarIndexHandle { id: 1 });
    c.insert_vector("v", VectorIndexHandle { id: 2 });
    // Three hits and two misses, mixed over the namespaces.
    assert!(c.get_scalar("s").is_some());
    assert!(c.get_metadata("ds", 1).is_none());
    assert!(c.get_vector("v").is_some());
    assert!(c.get_vector("w").is_none());
    assert!(c.get_scalar("s").is_some());
    assert_eq!(c.hit_rate(), (3, 5));
    assert!((rate_f32(&c) - 0.6).abs() < 1e-6);
}

#[test]
fn get_size_counts_entries_across_all_namespaces() {
    let mut c = IndexCache::new(100);
    c.insert_scalar("s1", ScalarIndexHandle { id: 1 });
    c.insert_scalar("s2", ScalarIndexHandle { id: 2 });
    c.insert_vector("v1", VectorIndexHandle { id: 3 });
    c.insert_vector("v2", VectorIndexHandle { id: 4 });
    c.insert_metadata("ds", 7, vec![descriptor("m", vec![0], 7)]);
    assert_eq!(c.get_size(), 5);
}

#[test]
fn get_size_of_fresh_cache_is_zero() {
    let mut c = IndexCache::new(100);
    assert_eq!(c.get_size(), 0);
}

#[test]
fn len_vector_counts_only_the_vector_namespace() {
    let mut c = IndexCache::new(100);
    c.insert_scalar("s1", ScalarIndexHandle { id: 1 });
    c.insert_vector("v1", VectorIndexHandle { id: 2 });
    c.insert_vector("v2", VectorIndexHandle { id: 3 });
    c.insert_vector("v3", VectorIndexHandle { id: 4 });
    assert_eq!(c.len_vector(), 3);
}

#[test]
fn scenario_hits_misses_and_metadata_walkthrough() {
    let mut c = IndexCache::new(1000);
    let v1 = ScalarIndexHandle { id: 41 };
    c.insert_scalar("idx1", v1);
    assert_eq!(c.get_scalar("idx1"), Some(v1));
    assert_eq!(rate_f32(&c), 1.0);
    assert!(c.get_scalar("idx2").is_none());
    assert_eq!(rate_f32(&c), 0.5);
    let d1 = descriptor("d1", vec![0], 3);
    let d2 = descriptor("d2", vec![1, 2], 3);
    c.insert_metadata("ds", 3, vec![d1.clone(), d2.clone()]);
    assert_eq!(c.get_metadata("ds", 3), Some(vec![d1, d2]));
    assert!(c.get_metadata("ds", 4).is_none());
}

#[test]
fn values_in_different_namespaces_do_not_shadow_each_other() {
    let mut c = IndexCache::new(100);
    c.insert_scalar("same-key", ScalarIndexHandle { id: 1 });
    assert!(c.get_vector("same-key").is_none());
    c.insert_vector("same-key", VectorIndexHandle { id: 2 });
    assert_eq!(c.get_scalar("same-key"), Some(ScalarIndexHandle { id: 1 }));
    assert_eq!(c.get_vector("same-key"), Some(VectorIndexHandle { id: 2 }));
}
