use ddns::reconcile::create_payload;
use ddns::request::{
    create_record_request, delete_record_request, list_records_request, list_zones_request,
    public_ip_request, Method,
};

#[test]
fn list_zones_call_shape() {
    let r = list_zones_request(&"T".to_string());
    assert!(matches!(r.method, Method::Get));
    assert_eq!(r.url, "https://api.netlify.com/api/v1/dns_zones");
    assert_eq!(r.bearer, Some("T".to_string()));
    assert!(r.body.is_none());
}

#[test]
fn list_records_call_shape() {
    let r = list_records_request(&"T".to_string(), &"z1".to_string());
    assert!(matches!(r.method, Method::Get));
    assert_eq!(r.url, "https://api.netlify.com/api/v1/dns_zones/z1/dns_records");
    assert_eq!(r.bearer, Some("T".to_string()));
    assert!(r.body.is_none());
}

#[test]
fn delete_record_call_shape() {
    let r = delete_record_request(&"T".to_string(), &"z1".to_string(), &"r1".to_string());
    assert!(matches!(r.method, Method::Delete));
    assert_eq!(r.url, "https://api.netlify.com/api/v1/dns_zones/z1/dns_records/r1");
    assert_eq!(r.bearer, Some("T".to_string()));
    assert!(r.body.is_none());
}

#[test]
fn create_record_call_shape() {
    let p = create_payload(&"home".to_string(), &"1.2.3.4".to_string());
    let r = create_record_request(&"T".to_string(), &"z1".to_string(), p);
    assert!(matches!(r.method, Method::Post));
    assert_eq!(r.url, "https://api.netlify.com/api/v1/dns_zones/z1/dns_records");
    assert_eq!(r.bearer, Some("T".to_string()));
    let body = r.body.expect("creation carries a body");
    assert_eq!(body.rtype, "A");
    assert_eq!(body.hostname, "home");
    assert_eq!(body.value, "1.2.3.4");
}

#[test]
fn public_ip_call_shape() {
    let r = public_ip_request();
    assert!(matches!(r.method, Method::Get));
    assert_eq!(r.url, "https://httpbin.org/ip");
    assert!(r.bearer.is_none());
    assert!(r.body.is_none());
}
