use s3_export::model::FetchReport;
use s3_export::retrieval::{absorb_fetch_reports, collect_retrieval_outcome, partition_requested};

fn keys(names: &[&str]) -> Vec<String> {
    names.iter().map(|n| String::from(*n)).collect()
}

#[test]
fn a_failed_fetch_becomes_an_empty_entry() {
    let reports = vec![
        FetchReport { key: String::from("a.txt"), content: Some(vec![1, 2, 3]) },
        FetchReport { key: String::from("b.txt"), content: None },
    ];
    let objs = absorb_fetch_reports(reports);
    assert_eq!(objs.len(), 2);
    assert_eq!(objs[0].key, "a.txt");
    assert_eq!(objs[0].content, vec![1, 2, 3]);
    assert_eq!(objs[1].key, "b.txt");
    assert!(objs[1].content.is_empty());
}

#[test]
fn absorbing_keeps_arrival_order() {
    let reports = vec![
        FetchReport { key: String::from("late"), content: Some(vec![9]) },
        FetchReport { key: String::from("early"), content: Some(vec![7]) },
    ];
    let objs = absorb_fetch_reports(reports);
    assert_eq!(objs[0].key, "late");
    assert_eq!(objs[1].key, "early");
}

#[test]
fn partition_reports_only_requested_keys_as_missing() {
    let candidates = keys(&["a", "b"]);
    let requested = keys(&["a", "c"]);
    let (to_fetch, not_found) = partition_requested(&candidates, &requested);
    // "b" was never requested, so it is neither fetched nor missing; "c" was
    // requested but never listed, so it alone is missing.
    assert_eq!(to_fetch, keys(&["a"]));
    assert_eq!(not_found, keys(&["c"]));
}

#[test]
fn partition_with_everything_requested_misses_nothing() {
    let candidates = keys(&["a", "b"]);
    let requested = keys(&["b", "a"]);
    let (to_fetch, not_found) = partition_requested(&candidates, &requested);
    assert_eq!(to_fetch, keys(&["a", "b"]));
    assert!(not_found.is_empty());
}

#[test]
fn outcome_carries_found_and_missing_sides() {
    let reports = vec![FetchReport { key: String::from("a"), content: Some(vec![5]) }];
    let outcome = collect_retrieval_outcome(reports, keys(&["c"]));
    assert_eq!(outcome.found.len(), 1);
    assert_eq!(outcome.found[0].key, "a");
    assert_eq!(outcome.found[0].content, vec![5]);
    assert_eq!(outcome.not_found, keys(&["c"]));
}
