use scb_backup::provider::{
    aggregate_outcomes, MemoryProvider, MultiProvider, Provider, ProviderError,
};
use scb_backup::s3::S3;

#[test]
fn memory_provider_records_writes() {
    let mut p = MemoryProvider::new("mem", false);
    p.put("a/b", &[1, 2, 3]).unwrap();
    p.put("c", &[4]).unwrap();
    assert_eq!(p.records.len(), 2);
    assert_eq!(p.records[0].0, "a/b");
    assert_eq!(p.records[0].1, vec![1, 2, 3]);
    assert_eq!(p.records[1].0, "c");
    assert_eq!(p.records[1].1, vec![4]);
}

#[test]
fn memory_provider_failure_names_itself() {
    let mut p = MemoryProvider::new("mem", true);
    let err = p.put("a", &[1]).unwrap_err();
    assert_eq!(err.destination, "mem");
    assert!(!err.cause.is_empty());
    assert_eq!(p.records.len(), 0);
}

#[test]
fn fanout_all_succeed() {
    let mut m = MultiProvider::new();
    m.add(MemoryProvider::new("one", false));
    m.add(MemoryProvider::new("two", false));
    m.add(MemoryProvider::new("three", false));

    assert!(m.put("scb-x.json", &[9, 9]).is_ok());

    // Every member received the identical path and data.
    for p in &m.providers {
        assert_eq!(p.records.len(), 1);
        assert_eq!(p.records[0].0, "scb-x.json");
        assert_eq!(p.records[0].1, vec![9, 9]);
    }
}

#[test]
fn fanout_partial_failure() {
    let mut m = MultiProvider::new();
    m.add(MemoryProvider::new("one", false));
    m.add(MemoryProvider::new("two", true));
    m.add(MemoryProvider::new("three", false));
    m.add(MemoryProvider::new("four", true));

    let err = m.put("p", &[7]).unwrap_err();

    // Exactly the failing destinations are named, in member order.
    let named: Vec<&str> = err.failures.iter().map(|f| f.destination.as_str()).collect();
    assert_eq!(named, vec!["two", "four"]);

    // The members that succeeded durably hold the artifact: the failure of
    // the whole call does not mean nothing was written.
    assert_eq!(m.providers[0].records.len(), 1);
    assert_eq!(m.providers[0].records[0], ("p".to_string(), vec![7]));
    assert_eq!(m.providers[2].records.len(), 1);
    assert_eq!(m.providers[2].records[0], ("p".to_string(), vec![7]));
    assert_eq!(m.providers[1].records.len(), 0);
    assert_eq!(m.providers[3].records.len(), 0);
}

#[test]
fn fanout_is_empty_reflects_members() {
    let mut m: MultiProvider<MemoryProvider> = MultiProvider::new();
    assert!(m.is_empty());
    assert_eq!(m.len(), 0);
    m.add(MemoryProvider::new("one", false));
    assert!(!m.is_empty());
    assert_eq!(m.len(), 1);
}

#[test]
fn aggregate_outcomes_all_ok() {
    let outcomes: Vec<Result<(), ProviderError>> = vec![Ok(()), Ok(()), Ok(())];
    assert!(aggregate_outcomes(outcomes).is_ok());
    let none: Vec<Result<(), ProviderError>> = Vec::new();
    assert!(aggregate_outcomes(none).is_ok());
}

#[test]
fn aggregate_outcomes_keeps_every_failure() {
    let outcomes: Vec<Result<(), ProviderError>> = vec![
        Ok(()),
        Err(ProviderError { destination: "a".to_string(), cause: "x".to_string() }),
        Err(ProviderError { destination: "b".to_string(), cause: "y".to_string() }),
        Ok(()),
    ];
    let err = aggregate_outcomes(outcomes).unwrap_err();
    assert_eq!(err.failures.len(), 2);
    assert_eq!(err.failures[0].destination, "a");
    assert_eq!(err.failures[0].cause, "x");
    assert_eq!(err.failures[1].destination, "b");
    assert_eq!(err.failures[1].cause, "y");
}

#[test]
fn test_join_path() {
    let mut s3 = S3 {
        path: "".to_string(),
        bucket: "".to_string(),
        endpoint: "".to_string(),
        access_key: "".to_string(),
        secret_key: "".to_string(),
    };

    assert_eq!(s3.join_path("f1"), "f1".to_string());

    s3.path = "f2".to_string();
    assert_eq!(s3.join_path("f1"), "f2/f1".to_string());
}

#[test]
fn s3_root_path_normalized_at_construction() {
    let s3 = S3::new("ep", "bucket", "f2/", "ak", "sk");
    assert_eq!(s3.path, "f2");
    assert_eq!(s3.join_path("f1"), "f2/f1");

    let deep = S3::new("ep", "bucket", "a/b///", "ak", "sk");
    assert_eq!(deep.path, "a/b");

    let empty = S3::new("ep", "bucket", "", "ak", "sk");
    assert_eq!(empty.path, "");
    assert_eq!(empty.join_path("f1"), "f1");
}
