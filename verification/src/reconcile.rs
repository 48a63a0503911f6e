//! The pure decisions of the reconciliation procedure: resolving a zone id
//! from a zone listing, selecting which records to prune, shaping the
//! creation payload, and the confirmation line.

use vstd::prelude::*;
use crate::types::{DnsRecord, DnsZone};
use crate::AppError;

verus! {

/// The fully-qualified hostname used when matching records for pruning:
/// `name`, a dot, `domain`.
pub open spec fn fqdn(name: Seq<char>, domain: Seq<char>) -> Seq<char> {
    name + "."@ + domain
}

/// Builds the pruning match key `name + "." + domain`.
pub fn target_hostname(name: &String, domain: &String) -> (r: String)
    ensures
        r@ == fqdn(name@, domain@),
{
    let mut s = name.clone();
    s.append(".");
    s.append(domain.as_str());
    s
}

/// `i` indexes the first zone of `zones` whose name equals `domain`.
pub open spec fn first_zone_match(zones: Seq<DnsZone>, domain: Seq<char>, i: int) -> bool {
    &&& 0 <= i < zones.len()
    &&& zones[i].name@ == domain
    &&& forall|j: int| 0 <= j < i ==> zones[j].name@ != domain
}

/// Linear scan for the first zone whose name equals `domain` exactly;
/// returns its id, or `ZoneNotFound` naming the domain when no zone matches.
pub fn resolve_zone(zones: &Vec<DnsZone>, domain: &String) -> (r: Result<String, AppError>)
    ensures
        match r {
            Ok(id) => exists|i: int|
                #[trigger] first_zone_match(zones@, domain@, i) && id@ == zones@[i].id@,
            Err(e) => {
                &&& forall|i: int| 0 <= i < zones@.len() ==> zones@[i].name@ != domain@
                &&& e matches AppError::ZoneNotFound(d) && d@ == domain@
            },
        },
{
    let n = zones.len();
    let mut i: usize = 0;
    while i < n
        invariant
            n == zones@.len(),
            i <= n,
            forall|j: int| 0 <= j < i ==> zones@[j].name@ != domain@,
        decreases n - i,
    {
        if zones[i].name == *domain {
            let id = zones[i].id.clone();
            proof {
                assert(first_zone_match(zones@, domain@, i as int));
            }
            return Ok(id);
        }
        i += 1;
    }
    Err(AppError::ZoneNotFound(domain.clone()))
}

/// Whether a listed record is an address record for the target hostname:
/// its type is exactly `"A"` and its hostname equals the target exactly.
pub open spec fn record_matches(hostname: Seq<char>, rtype: Seq<char>, target: Seq<char>) -> bool {
    rtype == "A"@ && hostname == target
}

/// Whether one listed record is to be pruned.
pub open spec fn is_stale(r: DnsRecord, target: Seq<char>) -> bool {
    record_matches(r.hostname@, r.rtype@, target)
}

/// The ids of every address record for `target` in `records`, in listing
/// order: exactly the records the pruning step deletes.
pub open spec fn stale_ids(records: Seq<DnsRecord>, target: Seq<char>) -> Seq<Seq<char>>
    decreases records.len(),
{
    if records.len() == 0 {
        Seq::empty()
    } else {
        let rest = stale_ids(records.drop_last(), target);
        if is_stale(records.last(), target) {
            rest.push(records.last().id@)
        } else {
            rest
        }
    }
}

/// Selects the ids of the records to delete: every record whose type is
/// `"A"` and whose hostname equals `target`, in listing order. Records of
/// another type, or for another hostname, are never selected.
pub fn prune_ids(records: &Vec<DnsRecord>, target: &String) -> (r: Vec<String>)
    ensures
        r.deep_view() == stale_ids(records@, target@),
{
    let a_record: String = String::from_str("A");
    let mut r: Vec<String> = Vec::new();
    let n = records.len();
    let mut i: usize = 0;
    while i < n
        invariant
            n == records@.len(),
            i <= n,
            a_record@ == "A"@,
            r.deep_view() == stale_ids(records@.take(i as int), target@),
        decreases n - i,
    {
        let ghost prefix = records@.take(i as int);
        let ghost old_r = r;
        if records[i].rtype == a_record && records[i].hostname == *target {
            r.push(records[i].id.clone());
            proof {
                assert(r.deep_view() =~= old_r.deep_view().push(records@[i as int].id@));
            }
        }
        proof {
            assert(records@.take(i + 1).drop_last() =~= prefix);
            assert(records@.take(i + 1).last() == records@[i as int]);
        }
        i += 1;
    }
    proof {
        assert(records@.take(n as int) =~= records@);
    }
    r
}

/// The field values of the creation request body: type `"A"`, the short
/// record `name` (not the fully-qualified hostname — the provider
/// qualifies it against the zone), and the observed address as value.
pub struct CreatePayload {
    pub rtype: String,
    pub hostname: String,
    pub value: String,
}

/// The creation payload is exact in every field.
pub open spec fn is_create_payload(p: CreatePayload, name: Seq<char>, origin: Seq<char>) -> bool {
    &&& p.rtype@ == "A"@
    &&& p.hostname@ == name
    &&& p.value@ == origin
}

/// Shapes the creation request body for the new address record.
pub fn create_payload(name: &String, origin: &String) -> (r: CreatePayload)
    ensures
        is_create_payload(r, name@, origin@),
{
    CreatePayload { rtype: String::from_str("A"), hostname: name.clone(), value: origin.clone() }
}

/// The one confirmation line printed on success:
/// `<name>.<domain> -> <ip>`.
pub open spec fn confirmation(name: Seq<char>, domain: Seq<char>, origin: Seq<char>) -> Seq<char> {
    fqdn(name, domain) + " -> "@ + origin
}

/// Builds the confirmation line `<name>.<domain> -> <ip>`.
pub fn confirmation_line(name: &String, domain: &String, origin: &String) -> (r: String)
    ensures
        r@ == confirmation(name@, domain@, origin@),
{
    let mut s = target_hostname(name, domain);
    s.append(" -> ");
    s.append(origin.as_str());
    s
}

} // verus!
