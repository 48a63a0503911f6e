//! The reconciliation procedure as a strictly linear state machine:
//! `Start -> ZoneResolved -> Pruned -> Publishing -> Done`, with every
//! failure moving to `Failed` and halting. Each step consumes the outcome
//! of the previous call and decides the next request to perform; an
//! unverified shell performs the requests and feeds the outcomes back.

use vstd::prelude::*;
use crate::reconcile::{
    confirmation, confirmation_line, create_payload, first_zone_match, fqdn, prune_ids,
    resolve_zone, stale_ids, target_hostname,
};
use crate::request::{
    create_record_request, delete_record_request, is_create_record_request,
    is_delete_record_request, is_list_records_request, is_list_zones_request,
    is_public_ip_request, list_records_request, list_zones_request, public_ip_request, Request,
};
use crate::types::{Config, DnsRecord, DnsZone, PublicIp};
use crate::AppError;

verus! {

/// How far the procedure has come. `Pruning` holds the ids still to be
/// deleted, front first.
pub enum State {
    Start,
    ZoneResolved { zone_id: String },
    Pruning { zone_id: String, pending: Vec<String> },
    Pruned { zone_id: String },
    Publishing { zone_id: String, origin: String },
    Done { origin: String },
    Failed { error: AppError },
}

/// The outcome of the last performed action, fed back by the shell.
pub enum Event {
    /// Nothing performed yet: the run is starting.
    Begin,
    /// The zone listing arrived and decoded.
    Zones { zones: Vec<DnsZone> },
    /// The record listing arrived and decoded.
    Records { records: Vec<DnsRecord> },
    /// One deletion succeeded.
    Deleted,
    /// The public address arrived and decoded.
    Ip { ip: PublicIp },
    /// The creation call succeeded.
    Created,
    /// The last call failed; the whole run halts with this error.
    CallFailed { error: AppError },
}

/// What the shell must do next.
pub enum Action {
    /// Perform this request and feed back its outcome.
    Send { request: Request },
    /// Print this confirmation line; the run is complete.
    Print { line: String },
    /// Halt; the state says whether the run finished or failed.
    Stop,
}

/// The step taken while deletions are pending: delete the front id, or,
/// with none left, move on to address discovery.
pub open spec fn prune_step_ok(
    cfg: &Config,
    zone_id: Seq<char>,
    ids: Seq<Seq<char>>,
    s2: State,
    a: Action,
) -> bool {
    if ids.len() == 0 {
        &&& s2 matches State::Pruned { zone_id: z } && z@ == zone_id
        &&& a matches Action::Send { request } && is_public_ip_request(request)
    } else {
        &&& (s2 matches State::Pruning { zone_id: z, pending } && z@ == zone_id
            && pending.deep_view() == ids.drop_first())
        &&& (a matches Action::Send { request } && is_delete_record_request(
            request,
            cfg.token@,
            zone_id,
            ids[0],
        ))
    }
}

/// The whole transition relation: for each state and event, exactly which
/// state is entered and which action is requested. Unexpected pairings
/// (a protocol violation by the shell) keep the state and halt.
pub open spec fn step_ok(cfg: &Config, s: State, e: Event, s2: State, a: Action) -> bool {
    match e {
        Event::CallFailed { error } => {
            &&& s2 matches State::Failed { error: e2 } && e2 == error
            &&& a is Stop
        },
        _ => match (s, e) {
            (State::Start, Event::Begin) => {
                &&& s2 is Start
                &&& a matches Action::Send { request } && is_list_zones_request(request, cfg.token@)
            },
            (State::Start, Event::Zones { zones }) => {
                if exists|i: int| first_zone_match(zones@, cfg.domain@, i) {
                    let i = choose|i: int| first_zone_match(zones@, cfg.domain@, i);
                    &&& (s2 matches State::ZoneResolved { zone_id } && zone_id@ == zones@[i].id@)
                    &&& (a matches Action::Send { request } && is_list_records_request(
                        request,
                        cfg.token@,
                        zones@[i].id@,
                    ))
                } else {
                    &&& (s2 matches State::Failed { error } && error matches AppError::ZoneNotFound(
                        d,
                    ) && d@ == cfg.domain@)
                    &&& a is Stop
                }
            },
            (State::ZoneResolved { zone_id }, Event::Records { records }) => prune_step_ok(
                cfg,
                zone_id@,
                stale_ids(records@, fqdn(cfg.name@, cfg.domain@)),
                s2,
                a,
            ),
            (State::Pruning { zone_id, pending }, Event::Deleted) => prune_step_ok(
                cfg,
                zone_id@,
                pending.deep_view(),
                s2,
                a,
            ),
            (State::Pruned { zone_id }, Event::Ip { ip }) => {
                &&& (s2 matches State::Publishing { zone_id: z, origin } && z@ == zone_id@
                    && origin@ == ip.origin@)
                &&& (a matches Action::Send { request } && is_create_record_request(
                    request,
                    cfg.token@,
                    zone_id@,
                    cfg.name@,
                    ip.origin@,
                ))
            },
            (State::Publishing { zone_id: _, origin }, Event::Created) => {
                &&& (s2 matches State::Done { origin: o } && o@ == origin@)
                &&& (a matches Action::Print { line } && line@ == confirmation(
                    cfg.name@,
                    cfg.domain@,
                    origin@,
                ))
            },
            (s1, _) => {
                &&& s2 == s1
                &&& a is Stop
            },
        },
    }
}

/// A zone listing has at most one first match.
proof fn lemma_first_zone_match_unique(zones: Seq<DnsZone>, domain: Seq<char>, i: int, j: int)
    requires
        first_zone_match(zones, domain, i),
        first_zone_match(zones, domain, j),
    ensures
        i == j,
{
}

/// Advances past one deletion: issues the next pending deletion, or the
/// address discovery call when none is left.
fn prune_step(cfg: &Config, zone_id: String, pending: Vec<String>) -> (r: (State, Action))
    ensures
        prune_step_ok(cfg, zone_id@, pending.deep_view(), r.0, r.1),
{
    let ghost ids = pending.deep_view();
    let mut pending = pending;
    if pending.len() == 0 {
        (State::Pruned { zone_id }, Action::Send { request: public_ip_request() })
    } else {
        let first = pending.remove(0);
        proof {
            assert(pending.deep_view() =~= ids.drop_first());
        }
        let request = delete_record_request(&cfg.token, &zone_id, &first);
        (State::Pruning { zone_id, pending }, Action::Send { request })
    }
}

/// One transition of the reconciliation machine: consumes the outcome of
/// the previous action and returns the next state with the next action.
pub fn step(cfg: &Config, state: State, event: Event) -> (r: (State, Action))
    ensures
        step_ok(cfg, state, event, r.0, r.1),
{
    match (state, event) {
        (_, Event::CallFailed { error }) => (State::Failed { error }, Action::Stop),
        (State::Start, Event::Begin) => {
            let request = list_zones_request(&cfg.token);
            (State::Start, Action::Send { request })
        },
        (State::Start, Event::Zones { zones }) => {
            match resolve_zone(&zones, &cfg.domain) {
                Ok(id) => {
                    proof {
                        let w = choose|w: int|
                            #[trigger] first_zone_match(zones@, cfg.domain@, w) && id@
                                == zones@[w].id@;
                        let c = choose|c: int| first_zone_match(zones@, cfg.domain@, c);
                        lemma_first_zone_match_unique(zones@, cfg.domain@, w, c);
                    }
                    let request = list_records_request(&cfg.token, &id);
                    (State::ZoneResolved { zone_id: id }, Action::Send { request })
                },
                Err(error) => (State::Failed { error }, Action::Stop),
            }
        },
        (State::ZoneResolved { zone_id }, Event::Records { records }) => {
            let target = target_hostname(&cfg.name, &cfg.domain);
            let pending = prune_ids(&records, &target);
            prune_step(cfg, zone_id, pending)
        },
        (State::Pruning { zone_id, pending }, Event::Deleted) => prune_step(cfg, zone_id, pending),
        (State::Pruned { zone_id }, Event::Ip { ip }) => {
            let payload = create_payload(&cfg.name, &ip.origin);
            let request = create_record_request(&cfg.token, &zone_id, payload);
            (State::Publishing { zone_id, origin: ip.origin }, Action::Send { request })
        },
        (State::Publishing { zone_id, origin }, Event::Created) => {
            let line = confirmation_line(&cfg.name, &cfg.domain, &origin);
            (State::Done { origin }, Action::Print { line })
        },
        (s1, _) => (s1, Action::Stop),
    }
}

} // verus!
