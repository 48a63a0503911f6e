use ddns::reconcile::{
    confirmation_line, create_payload, prune_ids, resolve_zone, target_hostname,
};
use ddns::types::{DnsRecord, DnsZone};
use ddns::AppError;

fn zone(id: &str, name: &str) -> DnsZone {
    DnsZone { id: id.to_string(), name: name.to_string() }
}

fn record(id: &str, hostname: &str, rtype: &str) -> DnsRecord {
    DnsRecord { id: id.to_string(), hostname: hostname.to_string(), rtype: rtype.to_string() }
}

#[test]
fn resolve_returns_first_matching_zone() {
    let zones = vec![zone("z1", "example.com"), zone("z2", "example.org")];
    let r = resolve_zone(&zones, &"example.com".to_string());
    assert_eq!(r.ok(), Some("z1".to_string()));
}

#[test]
fn resolve_is_case_sensitive_and_exact() {
    let zones = vec![zone("z1", "example.com"), zone("z2", "Example.com")];
    let r = resolve_zone(&zones, &"Example.com".to_string());
    assert_eq!(r.ok(), Some("z2".to_string()));
}

#[test]
fn resolve_unknown_domain_reports_zone_not_found() {
    let zones = vec![zone("z1", "example.com"), zone("z2", "example.org")];
    let r = resolve_zone(&zones, &"example.net".to_string());
    match r {
        Err(AppError::ZoneNotFound(d)) => assert_eq!(d, "example.net"),
        _ => panic!("expected ZoneNotFound"),
    }
}

#[test]
fn resolve_empty_listing_reports_zone_not_found() {
    let zones: Vec<DnsZone> = Vec::new();
    let r = resolve_zone(&zones, &"example.com".to_string());
    assert!(matches!(r, Err(AppError::ZoneNotFound(_))));
}

#[test]
fn target_hostname_joins_name_and_domain() {
    let t = target_hostname(&"home".to_string(), &"example.com".to_string());
    assert_eq!(t, "home.example.com");
}

#[test]
fn payload_carries_short_name_not_fqdn() {
    let p = create_payload(&"home".to_string(), &"1.2.3.4".to_string());
    assert_eq!(p.rtype, "A");
    assert_eq!(p.hostname, "home");
    assert_eq!(p.value, "1.2.3.4");
}

#[test]
fn prune_selects_only_matching_address_records() {
    let records = vec![
        record("r1", "home.example.com", "A"),
        record("r2", "home.example.com", "CNAME"),
        record("r3", "other.example.com", "A"),
        record("r4", "home.example.com", "A"),
    ];
    let ids = prune_ids(&records, &"home.example.com".to_string());
    assert_eq!(ids, vec!["r1".to_string(), "r4".to_string()]);
}

#[test]
fn prune_of_clean_zone_selects_nothing() {
    let records = vec![
        record("r2", "home.example.com", "CNAME"),
        record("r3", "other.example.com", "A"),
    ];
    let ids = prune_ids(&records, &"home.example.com".to_string());
    assert!(ids.is_empty());
}

#[test]
fn confirmation_line_is_fqdn_arrow_ip() {
    let line = confirmation_line(
        &"home".to_string(),
        &"example.com".to_string(),
        &"1.2.3.4".to_string(),
    );
    assert_eq!(line, "home.example.com -> 1.2.3.4");
}

#[test]
fn error_messages_name_the_failure() {
    assert_eq!(
        AppError::ZoneNotFound("example.net".to_string()).message(),
        "couldn't find dns zone: example.net"
    );
    assert_eq!(AppError::RequestFailure.message(), "request failed");
    assert_eq!(AppError::DecodeFailure.message(), "couldn't decode response");
}
