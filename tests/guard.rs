use hive_router::cache::{FetchOutcome, RegistryCache};
use hive_router::guard::{
    resolve_in, Admission, EnforcementMode, GuardConfig, PersistedDocumentGuard, RejectReason, UnavailablePolicy,
};
use hive_router::snapshot::{PersistedDocumentEntry, RegistrySnapshot};

fn entry(id: &str, doc: &str) -> PersistedDocumentEntry {
    PersistedDocumentEntry { id: id.to_string(), document: doc.to_string(), operation_name: None }
}

fn snapshot_of(entries: Vec<PersistedDocumentEntry>) -> RegistrySnapshot {
    RegistrySnapshot::new(Vec::new(), entries, 10, "v1".to_string()).unwrap()
}

fn ready_cache(entries: Vec<PersistedDocumentEntry>) -> RegistryCache {
    let mut cache = RegistryCache::new(3);
    assert!(cache.begin_refresh());
    cache.complete_refresh(FetchOutcome::Fresh(snapshot_of(entries)), 10);
    cache
}

fn persisted_only() -> GuardConfig {
    GuardConfig { mode: EnforcementMode::PersistedOnly, on_unavailable: UnavailablePolicy::FailClosed }
}

#[test]
fn persisted_only_scenario() {
    let cache = ready_cache(vec![entry("abc123", "query { hero }")]);
    let guard = PersistedDocumentGuard::new(persisted_only());
    match guard.resolve(&cache, false, &"abc123".to_string()) {
        Admission::Admit(text) => assert_eq!(text, "query { hero }"),
        other => panic!("expected admit, got {:?}", other),
    }
    assert!(matches!(
        guard.resolve(&cache, false, &"zzz".to_string()),
        Admission::Reject(RejectReason::UnknownOperation)
    ));
    assert!(matches!(
        guard.resolve(&cache, true, &"abc123".to_string()),
        Admission::Reject(RejectReason::InlineNotAllowed)
    ));
    assert!(matches!(
        guard.resolve(&cache, true, &"zzz".to_string()),
        Admission::Reject(RejectReason::InlineNotAllowed)
    ));
}

#[test]
fn every_stored_identifier_resolves_to_its_text() {
    let entries = vec![entry("a", "query A { a }"), entry("b", "query B { b }"), entry("c", "{ c }")];
    let snapshot = snapshot_of(entries);
    for (id, text) in [("a", "query A { a }"), ("b", "query B { b }"), ("c", "{ c }")] {
        match resolve_in(&snapshot, &id.to_string()) {
            Admission::Admit(t) => assert_eq!(t, text),
            other => panic!("expected admit, got {:?}", other),
        }
    }
    for id in ["", "d", "ab", "A"] {
        assert!(matches!(
            resolve_in(&snapshot, &id.to_string()),
            Admission::Reject(RejectReason::UnknownOperation)
        ));
    }
}

#[test]
fn empty_table_rejects_every_identifier() {
    let cache = ready_cache(Vec::new());
    let guard = PersistedDocumentGuard::new(persisted_only());
    assert!(matches!(
        guard.resolve(&cache, false, &"abc123".to_string()),
        Admission::Reject(RejectReason::UnknownOperation)
    ));
}

#[test]
fn never_warmed_fails_closed_by_default() {
    let cache = RegistryCache::new(3);
    let guard = PersistedDocumentGuard::new(GuardConfig::default());
    assert!(matches!(
        guard.resolve(&cache, false, &"abc123".to_string()),
        Admission::Reject(RejectReason::RegistryUnavailable)
    ));
}

#[test]
fn never_warmed_fails_open_when_configured() {
    let cache = RegistryCache::new(3);
    let guard = PersistedDocumentGuard::new(GuardConfig {
        mode: EnforcementMode::PersistedOnly,
        on_unavailable: UnavailablePolicy::FailOpen,
    });
    assert!(matches!(guard.resolve(&cache, false, &"abc123".to_string()), Admission::Passthrough));
}

#[test]
fn inline_documents_pass_when_allowed() {
    let cache = ready_cache(vec![entry("abc123", "query { hero }")]);
    let guard = PersistedDocumentGuard::new(GuardConfig {
        mode: EnforcementMode::AllowInline,
        on_unavailable: UnavailablePolicy::FailClosed,
    });
    assert!(matches!(guard.resolve(&cache, true, &"zzz".to_string()), Admission::Passthrough));
    assert!(matches!(guard.resolve(&cache, false, &"abc123".to_string()), Admission::Admit(_)));
}

#[test]
fn decisions_are_counted_by_kind() {
    let cache = ready_cache(vec![entry("abc123", "query { hero }")]);
    let mut guard = PersistedDocumentGuard::new(persisted_only());
    let a = guard.resolve(&cache, false, &"abc123".to_string());
    guard.count(&a);
    let b = guard.resolve(&cache, false, &"nope".to_string());
    guard.count(&b);
    let c = guard.resolve(&cache, true, &"abc123".to_string());
    guard.count(&c);
    let d = guard.resolve(&cache, false, &"nope".to_string());
    guard.count(&d);
    assert_eq!(guard.counts.admitted, 1);
    assert_eq!(guard.counts.rejected_unknown, 2);
    assert_eq!(guard.counts.rejected_inline, 1);
    assert_eq!(guard.counts.rejected_unavailable, 0);
    assert_eq!(guard.counts.passed_through, 0);
}
