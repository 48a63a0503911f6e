use vstd::prelude::*;

verus! {

/// The invocation's configuration: which record name is being reconciled,
/// under which domain, with which credential. Read-only for a whole run.
pub struct Config {
    pub token: String,
    pub domain: String,
    pub name: String,
}

/// A DNS zone owned by the account, as listed by the provider.
pub struct DnsZone {
    pub id: String,
    pub name: String,
}

/// One DNS resource record within a zone, as listed by the provider.
/// `rtype` carries the record type field of the wire format (`"A"`,
/// `"CNAME"`, ...).
pub struct DnsRecord {
    pub id: String,
    pub hostname: String,
    pub rtype: String,
}

/// The caller's externally observed IPv4 address, as the echo service
/// wraps it.
pub struct PublicIp {
    pub origin: String,
}

} // verus!
