use s3_export::common_error::CommonError;
use s3_export::listing::{filter_key_list, list_keys};
use s3_export::model::{ListedKey, RetrievalPolicy};

fn entry(key: &str, size_bytes: i64) -> ListedKey {
    ListedKey { key: String::from(key), size_bytes }
}

fn policy(max_key_count: usize, max_object_size_bytes: i64) -> RetrievalPolicy {
    RetrievalPolicy { max_key_count, max_object_size_bytes }
}

#[test]
fn keeps_direct_children_and_strips_the_prefix() {
    let entries = vec![entry("docs/file.txt", 10), entry("docs/other.txt", 20)];
    let keys = filter_key_list(&entries, &String::from("docs"), &policy(10, 1000)).unwrap();
    assert_eq!(keys, vec![String::from("file.txt"), String::from("other.txt")]);
}

#[test]
fn excludes_nested_paths_and_oversized_objects() {
    let entries = vec![
        entry("docs/file.txt", 10),
        entry("docs/sub/file.txt", 10),
        entry("docs/huge.bin", 1000),
        entry("docs/exact.bin", 999),
    ];
    let keys = filter_key_list(&entries, &String::from("docs"), &policy(10, 1000)).unwrap();
    // The nested key is excluded; a size equal to the bound is excluded only
    // when it reaches the bound, and 999 < 1000 stays.
    assert_eq!(keys, vec![String::from("file.txt"), String::from("exact.bin")]);
}

#[test]
fn excludes_a_size_exactly_at_the_bound() {
    let entries = vec![entry("docs/at-bound.bin", 1000)];
    let keys = filter_key_list(&entries, &String::from("docs"), &policy(10, 1000)).unwrap();
    assert!(keys.is_empty());
}

#[test]
fn three_qualifying_keys_against_a_quota_of_two_fail() {
    let entries = vec![
        entry("docs/a.txt", 1),
        entry("docs/b.txt", 1),
        entry("docs/c.txt", 1),
    ];
    let r = filter_key_list(&entries, &String::from("docs"), &policy(2, 1000));
    assert_eq!(r, Err(CommonError::QuotaExceeded));
}

#[test]
fn a_quota_met_exactly_passes() {
    let entries = vec![entry("docs/a.txt", 1), entry("docs/b.txt", 1)];
    let keys = filter_key_list(&entries, &String::from("docs"), &policy(2, 1000)).unwrap();
    assert_eq!(keys.len(), 2);
}

#[test]
fn an_empty_result_is_not_an_error() {
    let entries: Vec<ListedKey> = Vec::new();
    let keys = filter_key_list(&entries, &String::from("docs"), &policy(2, 1000)).unwrap();
    assert!(keys.is_empty());
}

#[test]
fn normalizes_the_path_before_matching() {
    let entries = vec![entry("reports/r1.csv", 100)];
    let keys = list_keys(Some(entries), &String::from("/reports/"), &policy(10, 1000)).unwrap();
    assert_eq!(keys, vec![String::from("r1.csv")]);
}

#[test]
fn a_failed_store_listing_is_a_store_access_error() {
    let r = list_keys(None, &String::from("docs"), &policy(2, 1000));
    assert_eq!(r, Err(CommonError::StoreAccessError));
}

#[test]
fn default_policy_carries_the_fixed_limits() {
    let p = RetrievalPolicy::default();
    assert_eq!(p.max_key_count, 100);
    assert_eq!(p.max_object_size_bytes, 2_097_152);
}
