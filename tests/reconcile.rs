use opnsense_unbound_external_dns_webhook::cache::{DefaultRecordCache, RecordCache};
use opnsense_unbound_external_dns_webhook::classify::{classify_changes, refresh_records, Plan};
use opnsense_unbound_external_dns_webhook::endpoint::{Changes, Endpoint, Endpoints, Targets};
use opnsense_unbound_external_dns_webhook::record::{HostOverrideRecord, RecordError};
use opnsense_unbound_external_dns_webhook::sync::{Operation, Output, Reconciler, Step, SyncError};

fn desired(name: &str, record_type: &str, target: &str) -> Endpoint {
    Endpoint {
        dns_name: name.to_string(),
        targets: Targets(vec![target.to_string()]),
        record_type: record_type.to_string(),
        set_identifier: None,
        record_ttl: None,
        provider_specific: vec![],
    }
}

fn cached_row(hostname: &str, domain: &str, rr: &str, enabled: &str, uuid: &str) -> HostOverrideRecord {
    HostOverrideRecord {
        uuid: uuid.to_string(),
        enabled: enabled.to_string(),
        domain: domain.to_string(),
        rr: rr.to_string(),
        server: "10.0.0.1".to_string(),
        hostname: hostname.to_string(),
        mx: String::new(),
        mxprio: String::new(),
        description: String::new(),
    }
}

fn change_set(create: Vec<Endpoint>, update_new: Vec<Endpoint>, delete: Vec<Endpoint>) -> Changes {
    Changes {
        create: Endpoints(create),
        update_old: Endpoints(vec![]),
        update_new: Endpoints(update_new),
        delete: Endpoints(delete),
    }
}

fn in_scope() -> Vec<String> {
    vec!["example.com".to_string()]
}

/// The calls a run made to a resolver that accepts everything.
#[derive(Default)]
struct Calls {
    created: Vec<HostOverrideRecord>,
    updated: Vec<(String, HostOverrideRecord)>,
    deleted: Vec<String>,
    restarts: usize,
}

fn run(plan: Plan, cache: &mut DefaultRecordCache) -> (Result<(), SyncError>, Calls, Vec<Output>) {
    let mut calls = Calls::default();
    let mut reconciler = Reconciler::new(plan);
    loop {
        match reconciler.next(&*cache) {
            Err(e) => return (Err(e), calls, reconciler.outputs()),
            Ok(Step::Create(row)) => {
                calls.created.push(row);
                let uuid = format!("new-{}", calls.created.len());
                if let Err(e) = reconciler.created(cache, uuid) {
                    return (Err(e), calls, reconciler.outputs());
                }
            }
            Ok(Step::Update(uuid, row)) => {
                calls.updated.push((uuid, row));
                reconciler.updated();
            }
            Ok(Step::Delete(uuid, _)) => {
                calls.deleted.push(uuid);
                if let Err(e) = reconciler.deleted(cache) {
                    return (Err(e), calls, reconciler.outputs());
                }
            }
            Ok(Step::Restart) => {
                calls.restarts += 1;
            }
            Ok(Step::Finish) => return (Ok(()), calls, reconciler.outputs()),
        }
    }
}

#[test]
fn create_enabled_in_cache_is_dropped() {
    let mut cache = DefaultRecordCache::new();
    cache.try_insert_record(&cached_row("host", "example.com", "A", "1", "u1")).unwrap();
    let changes = change_set(vec![desired("host.example.com", "A", "10.0.0.1")], vec![], vec![]);
    let plan = classify_changes(&cache, &changes, &in_scope()).unwrap();
    assert!(plan.creates.is_empty());
    assert!(plan.updates.is_empty());
    assert!(plan.deletes.is_empty());
}

#[test]
fn create_disabled_in_cache_becomes_update() {
    let mut cache = DefaultRecordCache::new();
    cache.try_insert_record(&cached_row("host", "example.com", "A", "0", "u1")).unwrap();
    let changes = change_set(vec![desired("host.example.com", "A", "10.0.0.1")], vec![], vec![]);
    let plan = classify_changes(&cache, &changes, &in_scope()).unwrap();
    assert!(plan.creates.is_empty());
    assert_eq!(plan.updates.len(), 1);
    assert_eq!(plan.updates[0].hostname, "host");
}

#[test]
fn create_unknown_to_cache_is_created() {
    let cache = DefaultRecordCache::new();
    let changes = change_set(vec![desired("host.example.com", "A", "10.0.0.1")], vec![], vec![]);
    let plan = classify_changes(&cache, &changes, &in_scope()).unwrap();
    assert_eq!(plan.creates.len(), 1);
    assert!(plan.updates.is_empty());
}

#[test]
fn entries_outside_the_zones_are_dropped() {
    let cache = DefaultRecordCache::new();
    let changes = change_set(
        vec![desired("host.example.org", "A", "10.0.0.1")],
        vec![desired("other.example.org", "A", "10.0.0.2")],
        vec![desired("gone.example.com", "AAAA", "::1"), desired("far.example.net", "A", "10.0.0.3")],
    );
    let plan = classify_changes(&cache, &changes, &in_scope()).unwrap();
    assert!(plan.creates.is_empty());
    assert!(plan.updates.is_empty());
    assert_eq!(plan.deletes.len(), 1);
    assert_eq!(plan.deletes[0].hostname, "gone");
}

#[test]
fn updates_asked_for_come_before_reenabled_creates() {
    let mut cache = DefaultRecordCache::new();
    cache.try_insert_record(&cached_row("old", "example.com", "A", "0", "u1")).unwrap();
    let changes = change_set(
        vec![desired("old.example.com", "A", "10.0.0.1"), desired("new.example.com", "A", "10.0.0.2")],
        vec![desired("kept.example.com", "A", "10.0.0.3")],
        vec![],
    );
    let plan = classify_changes(&cache, &changes, &in_scope()).unwrap();
    assert_eq!(plan.creates.len(), 1);
    assert_eq!(plan.creates[0].hostname, "new");
    assert_eq!(plan.updates.len(), 2);
    assert_eq!(plan.updates[0].hostname, "kept");
    assert_eq!(plan.updates[1].hostname, "old");
}

#[test]
fn create_of_unknown_type_fails_classification() {
    let cache = DefaultRecordCache::new();
    let changes = change_set(vec![desired("host.example.com", "CNAME", "target.example.com")], vec![], vec![]);
    assert_eq!(classify_changes(&cache, &changes, &in_scope()).unwrap_err(), RecordError::UnknownRecordType);
}

#[test]
fn scenario_create_on_empty_cache() {
    let mut cache = DefaultRecordCache::new();
    let changes = change_set(vec![desired("host.example.com", "A", "10.0.0.1")], vec![], vec![]);
    let plan = classify_changes(&cache, &changes, &in_scope()).unwrap();
    let (result, calls, outputs) = run(plan, &mut cache);
    assert_eq!(result, Ok(()));
    assert_eq!(calls.created.len(), 1);
    assert_eq!(calls.created[0].hostname, "host");
    assert_eq!(calls.created[0].domain, "example.com");
    assert_eq!(calls.created[0].server, "10.0.0.1");
    assert!(calls.updated.is_empty());
    assert_eq!(calls.restarts, 1);
    assert_eq!(cache.len(), 1);
    let entry = cache.try_get_record(&cached_row("host", "example.com", "A", "1", "")).unwrap().unwrap();
    assert_eq!(entry.uuid, "new-1");
    assert!(entry.enabled);
    assert_eq!(outputs[0], Output { operation: Operation::Create, records_requested: 1, records_processed: 1 });
}

#[test]
fn scenario_disabled_record_is_updated() {
    let mut cache = DefaultRecordCache::new();
    cache.try_insert_record(&cached_row("host", "example.com", "A", "0", "old-uuid")).unwrap();
    let changes = change_set(vec![desired("host.example.com", "A", "10.0.0.1")], vec![], vec![]);
    let plan = classify_changes(&cache, &changes, &in_scope()).unwrap();
    let (result, calls, outputs) = run(plan, &mut cache);
    assert_eq!(result, Ok(()));
    assert!(calls.created.is_empty());
    assert_eq!(calls.updated.len(), 1);
    assert_eq!(calls.updated[0].0, "old-uuid");
    assert_eq!(calls.updated[0].1.server, "10.0.0.1");
    assert_eq!(calls.restarts, 1);
    assert_eq!(outputs[1], Output { operation: Operation::Update, records_requested: 1, records_processed: 1 });
}

#[test]
fn scenario_delete_of_unknown_key_fails() {
    let mut cache = DefaultRecordCache::new();
    let changes = change_set(vec![], vec![], vec![desired("host.example.com", "A", "10.0.0.1")]);
    let plan = classify_changes(&cache, &changes, &in_scope()).unwrap();
    let (result, calls, _) = run(plan, &mut cache);
    assert_eq!(result, Err(SyncError::MissingCacheEntry));
    assert!(calls.deleted.is_empty());
    assert_eq!(calls.restarts, 0);
}

#[test]
fn update_of_unknown_key_fails() {
    let mut cache = DefaultRecordCache::new();
    let changes = change_set(vec![], vec![desired("host.example.com", "A", "10.0.0.1")], vec![]);
    let plan = classify_changes(&cache, &changes, &in_scope()).unwrap();
    let (result, calls, _) = run(plan, &mut cache);
    assert_eq!(result, Err(SyncError::MissingCacheEntry));
    assert!(calls.updated.is_empty());
}

#[test]
fn delete_of_cached_key_removes_it() {
    let mut cache = DefaultRecordCache::new();
    cache.try_insert_record(&cached_row("host", "example.com", "AAAA", "1", "u9")).unwrap();
    let changes = change_set(vec![], vec![], vec![desired("host.example.com", "AAAA", "::1")]);
    let plan = classify_changes(&cache, &changes, &in_scope()).unwrap();
    let (result, calls, outputs) = run(plan, &mut cache);
    assert_eq!(result, Ok(()));
    assert_eq!(calls.deleted, vec!["u9".to_string()]);
    assert_eq!(cache.len(), 0);
    assert_eq!(calls.restarts, 1);
    assert!(outputs[2].requires_restart());
}

#[test]
fn empty_plan_needs_no_restart() {
    let mut cache = DefaultRecordCache::new();
    let plan = Plan { creates: vec![], updates: vec![], deletes: vec![] };
    let (result, calls, outputs) = run(plan, &mut cache);
    assert_eq!(result, Ok(()));
    assert_eq!(calls.restarts, 0);
    assert!(outputs.iter().all(|o| !o.requires_restart()));
}

#[test]
fn finished_run_answers_finish() {
    let cache = DefaultRecordCache::new();
    let mut reconciler = Reconciler::new(Plan { creates: vec![], updates: vec![], deletes: vec![] });
    assert!(matches!(reconciler.next(&cache), Ok(Step::Finish)));
    assert!(reconciler.is_finished());
    assert!(matches!(reconciler.next(&cache), Ok(Step::Finish)));
}

#[test]
fn output_reports() {
    let o = Output::new(Operation::Delete);
    assert_eq!(o.records_requested, 0);
    assert!(!o.requires_restart());
    let p = Output { records_processed: 2, ..o };
    assert!(p.requires_restart());
    assert_eq!(Operation::Create.name(), "create");
    assert_eq!(Operation::Update.name(), "update");
    assert_eq!(Operation::Delete.name(), "delete");
}

#[test]
fn listing_rebuilds_cache_from_rows_in_scope() {
    let mut cache = DefaultRecordCache::new();
    cache.try_insert_record(&cached_row("stale", "example.com", "A", "1", "u0")).unwrap();
    let rows = vec![
        cached_row("a", "example.com", "A", "1", "u1"),
        cached_row("b", "example.com", "AAAA (IPv6)", "0", "u2"),
        cached_row("c", "example.org", "A", "1", "u3"),
    ];
    let listed = refresh_records(&mut cache, &rows, &in_scope()).unwrap();
    assert_eq!(listed.0.len(), 1);
    assert_eq!(listed.0[0].dns_name, "a.example.com");
    assert_eq!(cache.len(), 2);
    assert!(cache.try_get_record(&cached_row("stale", "example.com", "A", "1", "")).unwrap().is_none());
    assert!(cache.try_get_record(&cached_row("c", "example.org", "A", "1", "")).unwrap().is_none());
    assert!(!cache.try_get_record(&cached_row("b", "example.com", "AAAA", "1", "")).unwrap().unwrap().enabled);
}

#[test]
fn listing_with_unreadable_row_fails() {
    let mut cache = DefaultRecordCache::new();
    let rows = vec![cached_row("a", "example.com", "A", "1", "u1"), cached_row("t", "example.com", "TXT", "1", "u2")];
    assert_eq!(refresh_records(&mut cache, &rows, &in_scope()).unwrap_err(), RecordError::UnknownRecordType);
    let rows = vec![cached_row("a", "example.com", "A", "maybe", "u1")];
    assert_eq!(refresh_records(&mut cache, &rows, &in_scope()).unwrap_err(), RecordError::UnknownEnabledState);
}
