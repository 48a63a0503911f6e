//! Plain descriptions of the five HTTP calls the procedure issues. The
//! library only decides what to send — method, URL, bearer credential and
//! optional JSON body; an unverified shell performs the requests.

use vstd::prelude::*;
use crate::reconcile::{is_create_payload, CreatePayload};

verus! {

/// The request methods the procedure uses.
pub enum Method {
    Get,
    Post,
    Delete,
}

/// One HTTP request to perform: method, URL, optional bearer credential
/// (sent as `Authorization: Bearer <token>`), and optional JSON body.
pub struct Request {
    pub method: Method,
    pub url: String,
    pub bearer: Option<String>,
    pub body: Option<CreatePayload>,
}

/// The provider's zone collection endpoint.
pub open spec fn zones_url_spec() -> Seq<char> {
    "https://api.netlify.com/api/v1/dns_zones"@
}

/// The record collection endpoint of one zone.
pub open spec fn records_url_spec(zone_id: Seq<char>) -> Seq<char> {
    zones_url_spec() + "/"@ + zone_id + "/dns_records"@
}

/// The endpoint of one record within one zone.
pub open spec fn record_url_spec(zone_id: Seq<char>, record_id: Seq<char>) -> Seq<char> {
    records_url_spec(zone_id) + "/"@ + record_id
}

/// The address-echo endpoint that reports the caller's public IP.
pub open spec fn ip_url_spec() -> Seq<char> {
    "https://httpbin.org/ip"@
}

/// The zone listing call: an authenticated GET of the zone collection.
pub open spec fn is_list_zones_request(r: Request, token: Seq<char>) -> bool {
    &&& r.method is Get
    &&& r.url@ == zones_url_spec()
    &&& r.bearer matches Some(t) && t@ == token
    &&& r.body is None
}

/// The record listing call: an authenticated GET of a zone's records.
pub open spec fn is_list_records_request(r: Request, token: Seq<char>, zone_id: Seq<char>) -> bool {
    &&& r.method is Get
    &&& r.url@ == records_url_spec(zone_id)
    &&& r.bearer matches Some(t) && t@ == token
    &&& r.body is None
}

/// The deletion call for one record.
pub open spec fn is_delete_record_request(
    r: Request,
    token: Seq<char>,
    zone_id: Seq<char>,
    record_id: Seq<char>,
) -> bool {
    &&& r.method is Delete
    &&& r.url@ == record_url_spec(zone_id, record_id)
    &&& r.bearer matches Some(t) && t@ == token
    &&& r.body is None
}

/// The creation call: an authenticated POST with the record payload.
pub open spec fn is_create_record_request(
    r: Request,
    token: Seq<char>,
    zone_id: Seq<char>,
    name: Seq<char>,
    origin: Seq<char>,
) -> bool {
    &&& r.method is Post
    &&& r.url@ == records_url_spec(zone_id)
    &&& r.bearer matches Some(t) && t@ == token
    &&& r.body matches Some(p) && is_create_payload(p, name, origin)
}

/// The unauthenticated GET that discovers the caller's public address.
pub open spec fn is_public_ip_request(r: Request) -> bool {
    &&& r.method is Get
    &&& r.url@ == ip_url_spec()
    &&& r.bearer is None
    &&& r.body is None
}

/// Builds the URL of a zone's record collection.
pub fn records_url(zone_id: &String) -> (r: String)
    ensures
        r@ == records_url_spec(zone_id@),
{
    let mut s = String::from_str("https://api.netlify.com/api/v1/dns_zones");
    s.append("/");
    s.append(zone_id.as_str());
    s.append("/dns_records");
    s
}

/// Builds the zone listing request.
pub fn list_zones_request(token: &String) -> (r: Request)
    ensures
        is_list_zones_request(r, token@),
{
    Request {
        method: Method::Get,
        url: String::from_str("https://api.netlify.com/api/v1/dns_zones"),
        bearer: Some(token.clone()),
        body: None,
    }
}

/// Builds the record listing request for one zone.
pub fn list_records_request(token: &String, zone_id: &String) -> (r: Request)
    ensures
        is_list_records_request(r, token@, zone_id@),
{
    Request { method: Method::Get, url: records_url(zone_id), bearer: Some(token.clone()), body: None }
}

/// Builds the deletion request for one record.
pub fn delete_record_request(token: &String, zone_id: &String, record_id: &String) -> (r: Request)
    ensures
        is_delete_record_request(r, token@, zone_id@, record_id@),
{
    let mut url = records_url(zone_id);
    url.append("/");
    url.append(record_id.as_str());
    Request { method: Method::Delete, url, bearer: Some(token.clone()), body: None }
}

/// Builds the creation request for the new address record.
pub fn create_record_request(token: &String, zone_id: &String, payload: CreatePayload) -> (r: Request)
    ensures
        r.method is Post,
        r.url@ == records_url_spec(zone_id@),
        r.bearer matches Some(t) && t@ == token@,
        r.body matches Some(p) && p == payload,
{
    Request {
        method: Method::Post,
        url: records_url(zone_id),
        bearer: Some(token.clone()),
        body: Some(payload),
    }
}

/// Builds the public-address discovery request.
pub fn public_ip_request() -> (r: Request)
    ensures
        is_public_ip_request(r),
{
    Request { method: Method::Get, url: String::from_str("https://httpbin.org/ip"), bearer: None, body: None }
}

} // verus!
