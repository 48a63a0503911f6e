//! A ghost model of a zone's record set and of one reconciliation run over
//! it, with the laws of the procedure: one run leaves exactly one address
//! record for the target hostname (valued at the observed address),
//! touches no other record, and a second run with an unchanged address
//! reaches the same end state.
//!
//! A zone is modelled as the sequence of its records; a run first drops
//! every address record for the target (the pruning step selects exactly
//! these ids: see `stale_ids`), then appends the created record. The
//! provider qualifies the short created name against the zone, so the
//! created record is listed under the fully-qualified target hostname.

use vstd::prelude::*;
use crate::reconcile::{is_stale, record_matches, stale_ids};
use crate::types::DnsRecord;

verus! {

/// One zone record as the model sees it: the listed fields plus the
/// record's value.
pub struct RecordModel {
    pub id: Seq<char>,
    pub hostname: Seq<char>,
    pub rtype: Seq<char>,
    pub value: Seq<char>,
}

/// Whether a model record is an address record for the target hostname —
/// the same match the pruning step applies to a listed record.
pub open spec fn is_match(r: RecordModel, target: Seq<char>) -> bool {
    record_matches(r.hostname, r.rtype, target)
}

/// The matching predicate as a value, so every statement filters with one
/// and the same function.
pub open spec fn match_pred(target: Seq<char>) -> spec_fn(RecordModel) -> bool {
    |r: RecordModel| is_match(r, target)
}

/// The complement of `match_pred`.
pub open spec fn unmatch_pred(target: Seq<char>) -> spec_fn(RecordModel) -> bool {
    |r: RecordModel| !is_match(r, target)
}

/// The address records for the target hostname, in listing order.
pub open spec fn matching(zone: Seq<RecordModel>, target: Seq<char>) -> Seq<RecordModel> {
    zone.filter(match_pred(target))
}

/// Every other record, in listing order.
pub open spec fn others(zone: Seq<RecordModel>, target: Seq<char>) -> Seq<RecordModel> {
    zone.filter(unmatch_pred(target))
}

/// The pruning step: every address record for the target is removed,
/// nothing else is.
pub open spec fn prune_model(zone: Seq<RecordModel>, target: Seq<char>) -> Seq<RecordModel> {
    others(zone, target)
}

/// The record the publishing step creates, as the zone lists it
/// afterwards: an address record for the target, valued at the observed
/// address, under the id the provider assigned.
pub open spec fn published_record(target: Seq<char>, id: Seq<char>, ip: Seq<char>) -> RecordModel {
    RecordModel { id: id, hostname: target, rtype: "A"@, value: ip }
}

/// One full reconciliation run over the zone: prune, then publish.
pub open spec fn reconcile_model(
    zone: Seq<RecordModel>,
    target: Seq<char>,
    id: Seq<char>,
    ip: Seq<char>,
) -> Seq<RecordModel> {
    prune_model(zone, target).push(published_record(target, id, ip))
}

/// A filter keeps a sequence whole when every element passes it.
proof fn lemma_filter_all_pos(s: Seq<RecordModel>, pred: spec_fn(RecordModel) -> bool)
    requires
        forall|i: int| 0 <= i < s.len() ==> pred(#[trigger] s[i]),
    ensures
        s.filter(pred) =~= s,
    decreases s.len(),
{
    reveal(Seq::filter);
    if s.len() != 0 {
        lemma_filter_all_pos(s.drop_last(), pred);
        assert(s.drop_last().push(s.last()) =~= s);
    }
}

/// After pruning, no address record for the target remains.
proof fn lemma_prune_clears(zone: Seq<RecordModel>, target: Seq<char>)
    ensures
        matching(prune_model(zone, target), target) =~= Seq::<RecordModel>::empty(),
{
    let p = match_pred(target);
    let np = unmatch_pred(target);
    let pruned = zone.filter(np);
    assert forall|i: int| 0 <= i < pruned.len() implies !p(pruned[i]) by {
        zone.lemma_filter_pred(np, i);
    }
    pruned.lemma_all_neg_filter_empty(p);
    pruned.lemma_filter_len(p);
    assert(pruned.filter(p).len() == 0);
}

/// Pruning touches none of the other records.
proof fn lemma_prune_keeps_others(zone: Seq<RecordModel>, target: Seq<char>)
    ensures
        others(prune_model(zone, target), target) =~= others(zone, target),
{
    let np = unmatch_pred(target);
    let pruned = zone.filter(np);
    assert forall|i: int| 0 <= i < pruned.len() implies np(pruned[i]) by {
        zone.lemma_filter_pred(np, i);
    }
    lemma_filter_all_pos(pruned, np);
}

/// Filtering distributes over appending one record.
proof fn lemma_filter_push(s: Seq<RecordModel>, pred: spec_fn(RecordModel) -> bool, x: RecordModel)
    ensures
        s.push(x).filter(pred) =~= if pred(x) {
            s.filter(pred).push(x)
        } else {
            s.filter(pred)
        },
{
    reveal(Seq::filter);
    assert(s.push(x).drop_last() =~= s);
    assert(s.push(x).last() == x);
}

/// Convergence: whatever the zone held before — zero, one, or many stale
/// address records for the target — one run leaves exactly one, valued at
/// the observed address.
pub proof fn lemma_reconcile_converges(
    zone: Seq<RecordModel>,
    target: Seq<char>,
    id: Seq<char>,
    ip: Seq<char>,
)
    ensures
        matching(reconcile_model(zone, target, id, ip), target) =~= seq![
            published_record(target, id, ip),
        ],
{
    let p = match_pred(target);
    let rec = published_record(target, id, ip);
    let pruned = prune_model(zone, target);
    lemma_filter_push(pruned, p, rec);
    lemma_prune_clears(zone, target);
    assert(pruned.filter(p).push(rec) =~= seq![rec]);
}

/// A run never touches a record of another type or for another hostname:
/// the other records are the same, in the same order, after the run.
pub proof fn lemma_reconcile_preserves_others(
    zone: Seq<RecordModel>,
    target: Seq<char>,
    id: Seq<char>,
    ip: Seq<char>,
)
    ensures
        others(reconcile_model(zone, target, id, ip), target) =~= others(zone, target),
{
    let np = unmatch_pred(target);
    let rec = published_record(target, id, ip);
    let pruned = prune_model(zone, target);
    lemma_filter_push(pruned, np, rec);
    lemma_prune_keeps_others(zone, target);
}

/// Idempotence: a second run with an unchanged address reaches the very
/// end state one run reaches — and after each of the two runs the zone
/// holds exactly one address record for the target, valued at the address.
pub proof fn lemma_reconcile_idempotent(
    zone: Seq<RecordModel>,
    target: Seq<char>,
    id1: Seq<char>,
    id2: Seq<char>,
    ip: Seq<char>,
)
    ensures
        reconcile_model(reconcile_model(zone, target, id1, ip), target, id2, ip)
            =~= reconcile_model(zone, target, id2, ip),
        matching(reconcile_model(zone, target, id1, ip), target) =~= seq![
            published_record(target, id1, ip),
        ],
        matching(reconcile_model(reconcile_model(zone, target, id1, ip), target, id2, ip), target)
            =~= seq![published_record(target, id2, ip)],
{
    let np = unmatch_pred(target);
    let rec1 = published_record(target, id1, ip);
    let pruned = prune_model(zone, target);
    let once = reconcile_model(zone, target, id1, ip);
    lemma_filter_push(pruned, np, rec1);
    lemma_prune_keeps_others(zone, target);
    assert(prune_model(once, target) =~= pruned);
    lemma_reconcile_converges(zone, target, id1, ip);
    lemma_reconcile_converges(once, target, id2, ip);
}

/// `records` is the provider's listing of `zone`: same length, same
/// order, each listed record carrying the zone record's id, hostname and
/// type.
pub open spec fn lists(zone: Seq<RecordModel>, records: Seq<DnsRecord>) -> bool {
    &&& records.len() == zone.len()
    &&& forall|i: int|
        0 <= i < zone.len() ==> {
            &&& (#[trigger] records[i]).id@ == zone[i].id
            &&& records[i].hostname@ == zone[i].hostname
            &&& records[i].rtype@ == zone[i].rtype
        }
}

/// No two records of the zone share an id.
pub open spec fn unique_ids(zone: Seq<RecordModel>) -> bool {
    forall|i: int, j: int|
        #![trigger zone[i], zone[j]]
        0 <= i < j < zone.len() ==> zone[i].id != zone[j].id
}

/// The survivor predicate of one deletion as a value.
pub open spec fn keep_pred(id: Seq<char>) -> spec_fn(RecordModel) -> bool {
    |r: RecordModel| r.id != id
}

/// The provider's deletion of one record id.
pub open spec fn delete_by_id(zone: Seq<RecordModel>, id: Seq<char>) -> Seq<RecordModel> {
    zone.filter(keep_pred(id))
}

/// The provider serving one deletion after the other, front id first —
/// the order the pruning step issues them.
pub open spec fn delete_all(zone: Seq<RecordModel>, ids: Seq<Seq<char>>) -> Seq<RecordModel>
    decreases ids.len(),
{
    if ids.len() == 0 {
        zone
    } else {
        delete_all(delete_by_id(zone, ids[0]), ids.drop_first())
    }
}

/// Deletions can be performed one id later without changing the outcome.
proof fn lemma_delete_all_push(zone: Seq<RecordModel>, ids: Seq<Seq<char>>, id: Seq<char>)
    ensures
        delete_all(zone, ids.push(id)) =~= delete_by_id(delete_all(zone, ids), id),
    decreases ids.len(),
{
    reveal_with_fuel(delete_all, 3);
    if ids.len() == 0 {
        assert(ids.push(id)[0] == id);
        assert(ids.push(id).drop_first() =~= Seq::<Seq<char>>::empty());
    } else {
        assert(ids.push(id)[0] == ids[0]);
        assert(ids.push(id).drop_first() =~= ids.drop_first().push(id));
        lemma_delete_all_push(delete_by_id(zone, ids[0]), ids.drop_first(), id);
    }
}

/// A record whose id none of the deletions names survives them all.
proof fn lemma_delete_all_skips(zone: Seq<RecordModel>, m: RecordModel, ids: Seq<Seq<char>>)
    requires
        forall|k: int| 0 <= k < ids.len() ==> #[trigger] ids[k] != m.id,
    ensures
        delete_all(zone.push(m), ids) =~= delete_all(zone, ids).push(m),
    decreases ids.len(),
{
    if ids.len() != 0 {
        lemma_filter_push(zone, keep_pred(ids[0]), m);
        assert(keep_pred(ids[0])(m));
        assert(delete_by_id(zone.push(m), ids[0]) =~= delete_by_id(zone, ids[0]).push(m));
        assert forall|k: int| 0 <= k < ids.drop_first().len() implies #[trigger] ids.drop_first()[k]
            != m.id by {
            assert(ids.drop_first()[k] == ids[k + 1]);
        }
        lemma_delete_all_skips(delete_by_id(zone, ids[0]), m, ids.drop_first());
    }
}

/// Every id the pruning step selects is the id of some listed record.
proof fn lemma_stale_ids_from_listing(records: Seq<DnsRecord>, target: Seq<char>, k: int)
    requires
        0 <= k < stale_ids(records, target).len(),
    ensures
        exists|j: int|
            0 <= j < records.len() && stale_ids(records, target)[k] == (#[trigger] records[j]).id@,
    decreases records.len(),
{
    let rest = stale_ids(records.drop_last(), target);
    if is_stale(records.last(), target) && k == rest.len() {
        assert(stale_ids(records, target)[k] == records[records.len() - 1].id@);
    } else {
        lemma_stale_ids_from_listing(records.drop_last(), target, k);
        let j = choose|j: int|
            0 <= j < records.drop_last().len() && rest[k] == (#[trigger] records.drop_last()[j]).id@;
        assert(records.drop_last()[j] == records[j]);
        assert(stale_ids(records, target)[k] == records[j].id@);
    }
}

/// The pruning step simulates the model's prune: serving each selected
/// deletion in turn leaves exactly the records `prune_model` keeps —
/// provided the listing is faithful and no id is shared.
pub proof fn lemma_prune_simulation(
    zone: Seq<RecordModel>,
    records: Seq<DnsRecord>,
    target: Seq<char>,
)
    requires
        lists(zone, records),
        unique_ids(zone),
    ensures
        delete_all(zone, stale_ids(records, target)) =~= prune_model(zone, target),
    decreases zone.len(),
{
    reveal(Seq::filter);
    if zone.len() == 0 {
        assert(stale_ids(records, target) =~= Seq::<Seq<char>>::empty());
    } else {
        let z1 = zone.drop_last();
        let r1 = records.drop_last();
        let m = zone.last();
        let rec = records.last();
        let ids1 = stale_ids(r1, target);
        assert(lists(z1, r1)) by {
            assert forall|i: int| 0 <= i < z1.len() implies {
                &&& (#[trigger] r1[i]).id@ == z1[i].id
                &&& r1[i].hostname@ == z1[i].hostname
                &&& r1[i].rtype@ == z1[i].rtype
            } by {
                assert(r1[i] == records[i]);
                assert(z1[i] == zone[i]);
            }
        }
        lemma_prune_simulation(z1, r1, target);
        assert forall|k: int| 0 <= k < ids1.len() implies #[trigger] ids1[k] != m.id by {
            lemma_stale_ids_from_listing(r1, target, k);
            let j = choose|j: int| 0 <= j < r1.len() && ids1[k] == (#[trigger] r1[j]).id@;
            assert(r1[j] == records[j]);
            assert(records[j].id@ == zone[j].id);
            assert(zone[j].id != zone[zone.len() - 1].id);
        }
        assert(z1.push(m) =~= zone);
        lemma_delete_all_skips(z1, m, ids1);
        lemma_filter_push(z1, unmatch_pred(target), m);
        assert(rec.id@ == m.id && rec.hostname@ == m.hostname && rec.rtype@ == m.rtype);
        if is_stale(rec, target) {
            assert(stale_ids(records, target) == ids1.push(rec.id@));
            lemma_delete_all_push(zone, ids1, rec.id@);
            let pruned = prune_model(z1, target);
            lemma_filter_push(pruned, keep_pred(m.id), m);
            assert(!keep_pred(m.id)(m));
            assert forall|i: int| 0 <= i < pruned.len() implies keep_pred(m.id)(
                #[trigger] pruned[i],
            ) by {
                let e = pruned[i];
                assert(pruned.contains(e));
                z1.lemma_filter_contains_rev(unmatch_pred(target), e);
                let j = choose|j: int| 0 <= j < z1.len() && z1[j] == e;
                assert(zone[j].id != zone[zone.len() - 1].id);
            }
            lemma_filter_all_pos(pruned, keep_pred(m.id));
            assert(!unmatch_pred(target)(m));
        } else {
            assert(stale_ids(records, target) == ids1);
            assert(unmatch_pred(target)(m));
        }
    }
}

/// One full run over a faithfully listed zone: the provider serving the
/// selected deletions and then the creation leaves exactly the zone one
/// run of the model leaves — whose convergence and idempotence are the
/// laws above.
pub proof fn lemma_run_simulation(
    zone: Seq<RecordModel>,
    records: Seq<DnsRecord>,
    target: Seq<char>,
    id: Seq<char>,
    ip: Seq<char>,
)
    requires
        lists(zone, records),
        unique_ids(zone),
    ensures
        delete_all(zone, stale_ids(records, target)).push(published_record(target, id, ip))
            =~= reconcile_model(zone, target, id, ip),
{
    lemma_prune_simulation(zone, records, target);
}

/// The predicate of `is_stale` as a value, filtering listed records.
pub open spec fn stale_pred(target: Seq<char>) -> spec_fn(DnsRecord) -> bool {
    |r: DnsRecord| is_stale(r, target)
}

/// The pruning plan is exactly the filtered listing: the id of every
/// address record for the target, in listing order, and no other id — a
/// record of another type, or for another hostname, is never selected.
pub proof fn lemma_stale_ids_are_filter(records: Seq<DnsRecord>, target: Seq<char>)
    ensures
        stale_ids(records, target) =~= records.filter(stale_pred(target)).map_values(
            |r: DnsRecord| r.id@,
        ),
    decreases records.len(),
{
    reveal(Seq::filter);
    if records.len() != 0 {
        lemma_stale_ids_are_filter(records.drop_last(), target);
    }
}

} // verus!
