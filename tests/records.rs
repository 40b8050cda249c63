use opnsense_unbound_external_dns_webhook::cache::{DefaultRecordCache, RecordCache};
use opnsense_unbound_external_dns_webhook::record::{
    parse_enabled, HostOverrideRecord, RecordEntry, RecordError, RecordType, Recordkey,
};

fn row(hostname: &str, domain: &str, rr: &str, enabled: &str, uuid: &str) -> HostOverrideRecord {
    HostOverrideRecord {
        uuid: uuid.to_string(),
        enabled: enabled.to_string(),
        domain: domain.to_string(),
        rr: rr.to_string(),
        server: "10.0.0.1".to_string(),
        hostname: hostname.to_string(),
        mx: String::new(),
        mxprio: String::new(),
        description: String::new(),
    }
}

#[test]
fn record_type_parses_known_words() {
    assert_eq!(RecordType::parse("A"), Ok(RecordType::A));
    assert_eq!(RecordType::parse("AAAA"), Ok(RecordType::AAAA));
}

#[test]
fn record_type_ignores_case_and_description() {
    assert_eq!(RecordType::parse("a"), Ok(RecordType::A));
    assert_eq!(RecordType::parse("  aaaa (IPv6 address) "), Ok(RecordType::AAAA));
    assert_eq!(RecordType::parse("A (IPv4 address)"), Ok(RecordType::A));
}

#[test]
fn record_type_rejects_other_types() {
    assert_eq!(RecordType::parse("TXT"), Err(RecordError::UnknownRecordType));
    assert_eq!(RecordType::parse("MX (Mail)"), Err(RecordError::UnknownRecordType));
    assert_eq!(RecordType::parse(""), Err(RecordError::UnknownRecordType));
}

#[test]
fn record_type_from_upper_is_exact() {
    assert_eq!(RecordType::from_upper("A"), Ok(RecordType::A));
    assert_eq!(RecordType::from_upper("a"), Err(RecordError::UnknownRecordType));
}

#[test]
fn enabled_flag_parses() {
    assert_eq!(parse_enabled("1"), Ok(true));
    assert_eq!(parse_enabled("0"), Ok(false));
    assert_eq!(parse_enabled(" 1 "), Ok(true));
    assert_eq!(parse_enabled("yes"), Err(RecordError::UnknownEnabledState));
}

#[test]
fn key_joins_host_and_domain() {
    let key = Recordkey::from_record(&row("host", "example.com", "A", "1", "u1")).unwrap();
    assert_eq!(key.fqdn, "host.example.com");
    assert_eq!(key.record_type, RecordType::A);
}

#[test]
fn entry_takes_uuid_and_flag() {
    let entry = RecordEntry::from_record(&row("host", "example.com", "A", "0", "u1")).unwrap();
    assert_eq!(entry.uuid, "u1");
    assert!(!entry.enabled);
    let bad = RecordEntry::from_record(&row("host", "example.com", "A", "2", "u1"));
    assert_eq!(bad.unwrap_err(), RecordError::UnknownEnabledState);
}

#[test]
fn insert_then_get_returns_entry() {
    let mut cache = DefaultRecordCache::new();
    let other = row("other", "example.com", "A", "1", "u0");
    let r = row("host", "example.com", "AAAA", "0", "u1");
    assert!(cache.try_insert_record(&other).unwrap().is_none());
    assert!(cache.try_insert_record(&r).unwrap().is_none());
    let got = cache.try_get_record(&r).unwrap().unwrap();
    assert_eq!(got.uuid, "u1");
    assert!(!got.enabled);
    let got_other = cache.try_get_record(&other).unwrap().unwrap();
    assert_eq!(got_other.uuid, "u0");
    assert!(got_other.enabled);
    assert_eq!(cache.len(), 2);
}

#[test]
fn insert_replaces_and_returns_previous() {
    let mut cache = DefaultRecordCache::new();
    cache.try_insert_record(&row("host", "example.com", "A", "0", "u1")).unwrap();
    let previous = cache.try_insert_record(&row("host", "example.com", "A", "1", "u2")).unwrap().unwrap();
    assert_eq!(previous.uuid, "u1");
    assert!(!previous.enabled);
    let now = cache.try_get_record(&row("host", "example.com", "A", "1", "")).unwrap().unwrap();
    assert_eq!(now.uuid, "u2");
    assert!(now.enabled);
    assert_eq!(cache.len(), 1);
}

#[test]
fn same_name_other_type_is_another_key() {
    let mut cache = DefaultRecordCache::new();
    cache.try_insert_record(&row("host", "example.com", "A", "1", "u1")).unwrap();
    assert!(cache.try_get_record(&row("host", "example.com", "AAAA", "1", "")).unwrap().is_none());
}

#[test]
fn clear_forgets_every_key() {
    let mut cache = DefaultRecordCache::new();
    let a = row("a", "example.com", "A", "1", "u1");
    let b = row("b", "example.com", "AAAA", "0", "u2");
    cache.try_insert_record(&a).unwrap();
    cache.try_insert_record(&b).unwrap();
    cache.clear();
    assert!(cache.try_get_record(&a).unwrap().is_none());
    assert!(cache.try_get_record(&b).unwrap().is_none());
    assert_eq!(cache.len(), 0);
}

#[test]
fn remove_drops_only_that_key() {
    let mut cache = DefaultRecordCache::new();
    let a = row("a", "example.com", "A", "1", "u1");
    let b = row("b", "example.com", "A", "1", "u2");
    cache.try_insert_record(&a).unwrap();
    cache.try_insert_record(&b).unwrap();
    cache.try_remove_record(&a).unwrap();
    assert!(cache.try_get_record(&a).unwrap().is_none());
    assert_eq!(cache.try_get_record(&b).unwrap().unwrap().uuid, "u2");
    cache.try_remove_record(&a).unwrap();
    assert_eq!(cache.len(), 1);
}

#[test]
fn cache_rejects_unreadable_rows() {
    let mut cache = DefaultRecordCache::new();
    let txt = row("host", "example.com", "TXT", "1", "u1");
    assert_eq!(cache.try_insert_record(&txt).unwrap_err(), RecordError::UnknownRecordType);
    assert_eq!(cache.try_get_record(&txt).unwrap_err(), RecordError::UnknownRecordType);
    assert_eq!(cache.try_remove_record(&txt).unwrap_err(), RecordError::UnknownRecordType);
    let flag = row("host", "example.com", "A", "on", "u1");
    assert_eq!(cache.try_insert_record(&flag).unwrap_err(), RecordError::UnknownEnabledState);
    assert_eq!(cache.len(), 0);
}
