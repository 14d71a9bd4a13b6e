use hive_router::snapshot::{PersistedDocumentEntry, RegistrySnapshot, SnapshotError};

fn entry(id: &str, doc: &str) -> PersistedDocumentEntry {
    PersistedDocumentEntry { id: id.to_string(), document: doc.to_string(), operation_name: Some("Op".to_string()) }
}

#[test]
fn snapshot_keeps_what_it_was_given() {
    let s = RegistrySnapshot::new(vec![1, 2, 3], vec![entry("x", "{ x }"), entry("y", "{ y }")], 42, "etag-7".to_string())
        .unwrap();
    assert_eq!(s.schema, vec![1, 2, 3]);
    assert_eq!(s.fetched_at, 42);
    assert_eq!(s.version_token(), "etag-7");
    assert_eq!(s.document_count(), 2);
    let found = s.find(&"y".to_string()).unwrap();
    assert_eq!(found.document, "{ y }");
    assert!(s.find(&"z".to_string()).is_none());
}

#[test]
fn duplicate_identifiers_are_refused() {
    let r = RegistrySnapshot::new(
        Vec::new(),
        vec![entry("x", "{ x }"), entry("y", "{ y }"), entry("x", "{ other }")],
        1,
        "v".to_string(),
    );
    match r {
        Err(SnapshotError::DuplicateId(id)) => assert_eq!(id, "x"),
        Ok(_) => panic!("duplicate identifiers were accepted"),
    }
}

#[test]
fn empty_table_is_a_valid_snapshot() {
    let s = RegistrySnapshot::new(Vec::new(), Vec::new(), 0, String::new()).unwrap();
    assert_eq!(s.document_count(), 0);
    assert!(s.find(&String::new()).is_none());
}
