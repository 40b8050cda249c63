use opnsense_unbound_external_dns_webhook::zone::{
    cached_zones, filter_zones, matches_filters, resolve_listed_zones, DefaultZoneCache, ListLocalZonesResponse,
    Zone, ZoneCache,
};

fn zone(name: &str, zone_type: &str) -> Zone {
    Zone { zone: name.to_string(), zone_type: zone_type.to_string() }
}

fn names(v: &[&str]) -> Vec<String> {
    v.iter().map(|n| n.to_string()).collect()
}

#[test]
fn allowed_type_is_transparent_in_any_case() {
    assert!(zone("example.com.", "transparent").is_allowed_type());
    assert!(zone("example.com.", " Transparent ").is_allowed_type());
    assert!(zone("example.com.", "TRANSPARENT").is_allowed_type());
    assert!(!zone("example.com.", "static").is_allowed_type());
}

#[test]
fn filters_match_by_suffix() {
    let name = "sub.example.com".to_string();
    assert!(matches_filters(&name, &names(&[])));
    assert!(matches_filters(&name, &names(&["example.com"])));
    assert!(matches_filters(&name, &names(&[".example.com"])));
    assert!(matches_filters(&name, &names(&["other.org", "com"])));
    assert!(!matches_filters(&name, &names(&["other.org"])));
    let apex = "example.com".to_string();
    assert!(matches_filters(&apex, &names(&[".example.com"])));
    assert!(!matches_filters(&apex, &names(&["..example.com"])));
}

#[test]
fn only_the_root_zone_survives_the_last_stage() {
    let listing = ListLocalZonesResponse {
        data: vec![
            zone("example.com.", "transparent"),
            zone(".", "transparent"),
            zone("static.org.", "static"),
            zone("nodot", "transparent"),
        ],
    };
    assert_eq!(filter_zones(&listing, &names(&[])), names(&[""]));
    assert_eq!(filter_zones(&listing, &names(&["example.com"])), Vec::<String>::new());
    assert_eq!(filter_zones(&listing, &names(&["."])), names(&[""]));
}

#[test]
fn zone_cache_keeps_each_name_once() {
    let mut cache = DefaultZoneCache::new();
    cache.extend(names(&["a", "b", "a"]));
    cache.extend(names(&["b", "c"]));
    assert_eq!(cache.values(), names(&["a", "b", "c"]));
}

#[test]
fn second_resolution_comes_from_the_cache() {
    let mut cache = DefaultZoneCache::new();
    assert!(cached_zones(&cache).is_none());
    let listing = ListLocalZonesResponse { data: vec![zone(".", "transparent"), zone("example.com.", "transparent")] };
    let first = resolve_listed_zones(&mut cache, &listing, &names(&[]));
    assert_eq!(first, names(&[""]));
    let second = cached_zones(&cache).unwrap();
    assert_eq!(second, first);
}

#[test]
fn empty_resolution_leaves_cache_empty() {
    let mut cache = DefaultZoneCache::new();
    let listing = ListLocalZonesResponse { data: vec![zone("example.com.", "transparent")] };
    let first = resolve_listed_zones(&mut cache, &listing, &names(&[]));
    assert!(first.is_empty());
    assert!(cached_zones(&cache).is_none());
}
