//! The reconciliation engine: for every authorization-relevant event it
//! computes the minimal firewall action and the endpoint record to
//! persist, diffing the fresh authorization against the last pushed state
//! rather than re-deriving full state.
//!
//! The engine itself performs no call and no write: each event becomes a
//! plan of actions and persistence operations, the surrounding service
//! performs the Control Protocol call, and the matching commit function
//! says what may be persisted given the call's outcome. A failed call
//! therefore never advances the stored pushed state (fail closed).

use vstd::prelude::*;

use crate::device::{Device, NewDevice};
use crate::errors::Error;
use crate::protocol::{trace_router_response, Action, ActionKind, AgentResponse};
use crate::user::User;

verus! {

/// The decision table of edge-triggered reconciliation: an action fires
/// exactly when the fresh authorization differs from the last pushed
/// state, and then restores agreement.
pub open spec fn spec_decision(authorized: bool, pushed: bool) -> Option<ActionKind> {
    if authorized == pushed {
        None
    } else if authorized {
        Some(ActionKind::Admit)
    } else {
        Some(ActionKind::Revoke)
    }
}

/// Computes the decision table.
pub fn reconcile_action(authorized: bool, pushed: bool) -> (r: Option<ActionKind>)
    ensures
        r == spec_decision(authorized, pushed),
{
    if authorized == pushed {
        None
    } else if authorized {
        Some(ActionKind::Admit)
    } else {
        Some(ActionKind::Revoke)
    }
}

/// Idempotence of the decision: when the fresh authorization already
/// equals the pushed state, re-running the reconciliation issues no
/// Control Protocol call and changes nothing.
pub proof fn lemma_decision_idempotent(authorized: bool)
    ensures
        spec_decision(authorized, authorized) is None,
{
}

/// Diff-minimality: for any (authorized, pushed) pair the engine issues
/// at most one action — Admit exactly on (true, false), Revoke exactly on
/// (false, true), and never both.
pub proof fn lemma_decision_minimal(authorized: bool, pushed: bool)
    ensures
        spec_decision(authorized, pushed) is Some <==> authorized != pushed,
        spec_decision(authorized, pushed) == Some(ActionKind::Admit) <==> (authorized && !pushed),
        spec_decision(authorized, pushed) == Some(ActionKind::Revoke) <==> (!authorized && pushed),
{
}

/// A pending write of one endpoint record.
#[derive(Clone, Debug)]
pub enum PersistOp {
    /// Store a newly seen endpoint.
    Insert(NewDevice),
    /// Overwrite an existing endpoint record.
    Update(Device),
}

/// What one endpoint-seen event asks of the surrounding service: at most
/// one Control Protocol action, and the record to persist if that action
/// (when there is one) succeeds.
#[derive(Clone, Debug)]
pub struct DeviceSeenPlan {
    pub action: Option<Action>,
    pub persist: Option<PersistOp>,
}

/// The endpoint-seen event: an endpoint reported itself, `existing` is
/// the stored record under its hardware address (if any), `authorized` is
/// the owning identity's freshly read flag.
///
/// A first-seen endpoint is admitted unconditionally while the persisted
/// state records the true authorization. For a blocked identity the two
/// disagree: the next re-seen event finds (authorized=false,
/// pushed=false) and issues no corrective call, so the admission granted
/// on first contact stands until a bulk toggle or a full resync corrects
/// it. Callers that must not grant that window should refuse the event
/// before planning it.
pub fn device_seen(
    existing: &Option<Device>,
    user_id: u128,
    authorized: bool,
    mac: &String,
    now: i64,
) -> (r: Result<DeviceSeenPlan, Error>)
    ensures
        (r matches Err(e)) <==> (existing matches Some(d) && d.user_id != user_id),
        r matches Err(e) ==> e is OwnershipConflict,
        existing is None ==> (r matches Ok(p) && {
            &&& p.action matches Some(a) && a.kind == ActionKind::Admit && a.target == *mac
            &&& p.persist matches Some(PersistOp::Insert(nd)) && nd.mac == *mac && nd.user_id
                == user_id && nd.internet == authorized && nd.date_time == now
        }),
        existing matches Some(d) ==> (d.user_id == user_id ==> (r matches Ok(p) && {
            &&& spec_decision(authorized, d.internet) is None ==> p.action is None && p.persist
                is None
            &&& spec_decision(authorized, d.internet) matches Some(k) ==> {
                &&& p.action matches Some(a) && a.kind == k && a.target == *mac
                &&& p.persist matches Some(PersistOp::Update(u)) && u.id == d.id && u.mac
                    == *mac && u.user_id == d.user_id && u.internet == authorized
                    && u.date_time == now
            }
        })),
{
    match existing {
        Some(old) => {
            if old.user_id != user_id {
                // An endpoint belongs to exactly one identity: a second
                // identity presenting the same hardware address is refused
                // before any state is touched.
                return Err(Error::OwnershipConflict);
            }
            match reconcile_action(authorized, old.internet) {
                None => Ok(DeviceSeenPlan { action: None, persist: None }),
                Some(kind) => Ok(
                    DeviceSeenPlan {
                        action: Some(Action { kind, target: mac.clone() }),
                        persist: Some(
                            PersistOp::Update(
                                Device {
                                    id: old.id,
                                    mac: mac.clone(),
                                    user_id: old.user_id,
                                    internet: authorized,
                                    date_time: now,
                                },
                            ),
                        ),
                    },
                ),
            }
        },
        None => Ok(
            DeviceSeenPlan {
                action: Some(Action { kind: ActionKind::Admit, target: mac.clone() }),
                persist: Some(
                    PersistOp::Insert(
                        NewDevice { mac: mac.clone(), user_id, internet: authorized, date_time: now },
                    ),
                ),
            },
        ),
    }
}

/// What may be persisted after the plan's call was attempted: nothing
/// when an action was issued and the call failed — the stored pushed
/// state then stays stale on purpose, to be corrected by a later event or
/// a full resync — and the planned write otherwise.
pub fn device_seen_commit(plan: DeviceSeenPlan, push_ok: bool) -> (r: Option<PersistOp>)
    ensures
        plan.action is Some && !push_ok ==> r is None,
        (plan.action is None || push_ok) ==> r == plan.persist,
{
    if plan.action.is_some() && !push_ok {
        None
    } else {
        plan.persist
    }
}

/// One step of a bulk toggle: the action to push and the record to
/// persist if the push succeeds.
#[derive(Clone, Debug)]
pub struct DeviceStep {
    pub action: Action,
    pub updated: Device,
}

/// The steps a bulk authorization toggle takes: one per endpoint whose
/// pushed state disagrees with the new flag, in storage order, each
/// carrying the decision-table action and the persisted flip.
pub open spec fn spec_toggle_steps(devices: Seq<Device>, authorized: bool, now: i64) -> Seq<
    DeviceStep,
>
    decreases devices.len(),
{
    if devices.len() == 0 {
        Seq::empty()
    } else {
        let init = spec_toggle_steps(devices.drop_last(), authorized, now);
        let d = devices.last();
        if d.internet != authorized {
            init + seq![
                DeviceStep {
                    action: Action {
                        kind: if authorized {
                            ActionKind::Admit
                        } else {
                            ActionKind::Revoke
                        },
                        target: d.mac,
                    },
                    updated: Device {
                        id: d.id,
                        mac: d.mac,
                        user_id: d.user_id,
                        internet: authorized,
                        date_time: now,
                    },
                },
            ]
        } else {
            init
        }
    }
}

/// The identity-toggled event: applies the two-cell decision to every
/// owned endpoint, one endpoint at a time, touching exactly those whose
/// pushed state disagrees with the new flag.
pub fn authorization_toggle_plan(devices: &Vec<Device>, authorized: bool, now: i64) -> (r: Vec<
    DeviceStep,
>)
    ensures
        r@ == spec_toggle_steps(devices@, authorized, now),
{
    let mut r: Vec<DeviceStep> = Vec::new();
    let mut i: usize = 0;
    while i < devices.len()
        invariant
            i <= devices@.len(),
            r@ == spec_toggle_steps(devices@.take(i as int), authorized, now),
        decreases devices@.len() - i,
    {
        let d = &devices[i];
        if d.internet != authorized {
            let kind = if authorized {
                ActionKind::Admit
            } else {
                ActionKind::Revoke
            };
            r.push(
                DeviceStep {
                    action: Action { kind, target: d.mac.clone() },
                    updated: Device {
                        id: d.id,
                        mac: d.mac.clone(),
                        user_id: d.user_id,
                        internet: authorized,
                        date_time: now,
                    },
                },
            );
        }
        proof {
            assert(devices@.take(i as int + 1).drop_last() =~= devices@.take(i as int));
            assert(devices@.take(i as int + 1).last() == devices@[i as int]);
        }
        i += 1;
    }
    proof {
        assert(devices@.take(devices@.len() as int) =~= devices@);
    }
    r
}

/// The administrator-patch side of the toggled event: the toggle fires
/// only when the patch actually carries the authorization flag. A patch
/// that leaves the flag absent plans no Control Protocol call and no
/// endpoint write, whatever the stored states are.
pub fn patch_toggle_plan(patched_allowed: Option<bool>, devices: &Vec<Device>, now: i64) -> (r:
    Vec<DeviceStep>)
    ensures
        patched_allowed is None ==> r@.len() == 0,
        patched_allowed matches Some(authorized) ==> r@ == spec_toggle_steps(
            devices@,
            authorized,
            now,
        ),
{
    match patched_allowed {
        Some(authorized) => authorization_toggle_plan(devices, authorized, now),
        None => Vec::new(),
    }
}

/// What may be persisted after one toggle step's call: the flipped record
/// exactly when the push succeeded, nothing otherwise.
pub fn step_commit(step: DeviceStep, push_ok: bool) -> (r: Option<Device>)
    ensures
        push_ok ==> r == Some(step.updated),
        !push_ok ==> r is None,
{
    if push_ok {
        Some(step.updated)
    } else {
        None
    }
}

/// One step of an identity deletion: revoke the endpoint's admission if
/// it was pushed, then delete its record.
#[derive(Clone, Debug)]
pub struct DeleteStep {
    pub revoke: Option<Action>,
    pub device_id: u128,
}

/// The per-endpoint steps of an identity deletion: every owned endpoint's
/// record is deleted, and the ones whose admission was pushed are revoked
/// first.
pub open spec fn spec_delete_steps(devices: Seq<Device>) -> Seq<DeleteStep>
    decreases devices.len(),
{
    if devices.len() == 0 {
        Seq::empty()
    } else {
        let d = devices.last();
        spec_delete_steps(devices.drop_last()) + seq![
            DeleteStep {
                revoke: if d.internet {
                    Some(Action { kind: ActionKind::Revoke, target: d.mac })
                } else {
                    None
                },
                device_id: d.id,
            },
        ]
    }
}

/// The identity-deleted event. Endpoint records are swept only while the
/// identity's flag is still on; when it is off this plan deliberately
/// leaves the owned records behind, counting on the storage layer (or a
/// later sweep) to collect rows that reference a deleted identity. The
/// identity record itself is deleted unconditionally afterwards, outside
/// this plan.
pub fn delete_user_plan(user_allowed: bool, devices: &Vec<Device>) -> (r: Vec<DeleteStep>)
    ensures
        user_allowed ==> r@ == spec_delete_steps(devices@),
        !user_allowed ==> r@.len() == 0,
{
    let mut r: Vec<DeleteStep> = Vec::new();
    if !user_allowed {
        return r;
    }
    let mut i: usize = 0;
    while i < devices.len()
        invariant
            i <= devices@.len(),
            r@ == spec_delete_steps(devices@.take(i as int)),
        decreases devices@.len() - i,
    {
        let d = &devices[i];
        let revoke = if d.internet {
            Some(Action { kind: ActionKind::Revoke, target: d.mac.clone() })
        } else {
            None
        };
        r.push(DeleteStep { revoke, device_id: d.id });
        proof {
            assert(devices@.take(i as int + 1).drop_last() =~= devices@.take(i as int));
            assert(devices@.take(i as int + 1).last() == devices@[i as int]);
        }
        i += 1;
    }
    proof {
        assert(devices@.take(devices@.len() as int) =~= devices@);
    }
    r
}

/// What one deletion step allows after its revoke was attempted: the
/// record may be deleted exactly when the revoke — if the step carries
/// one — succeeded. A failed revoke blocks this record's deletion and
/// surfaces to the caller, who stops there; records of earlier steps
/// stay deleted, an accepted partial progress resolved by a later full
/// resync.
pub fn delete_step_commit(step: &DeleteStep, revoke_ok: bool) -> (r: Option<u128>)
    ensures
        step.revoke is Some && !revoke_ok ==> r is None,
        (step.revoke is None || revoke_ok) ==> r == Some(step.device_id),
{
    if step.revoke.is_some() && !revoke_ok {
        None
    } else {
        Some(step.device_id)
    }
}

/// The hardware addresses a full resync re-admits: those of the endpoints
/// whose stored pushed state is on, in storage order.
pub open spec fn spec_resync_targets(devices: Seq<Device>) -> Seq<Seq<char>>
    decreases devices.len(),
{
    if devices.len() == 0 {
        Seq::empty()
    } else {
        let init = spec_resync_targets(devices.drop_last());
        if devices.last().internet {
            init + seq![devices.last().mac@]
        } else {
            init
        }
    }
}

/// The full resync ("save me") plan: level-triggered recovery that treats
/// the stored state as ground truth — one Flush, then one Admit for every
/// endpoint whose stored pushed state is on, in storage order. Endpoints
/// whose pushed state is off are never touched.
pub fn resync_plan(devices: &Vec<Device>) -> (r: Vec<Action>)
    ensures
        r@.len() == 1 + spec_resync_targets(devices@).len(),
        r@[0].kind == ActionKind::Flush,
        r@[0].target@ == Seq::<char>::empty(),
        forall|i: int|
            1 <= i < r@.len() ==> (#[trigger] r@[i]).kind == ActionKind::Admit && r@[i].target@
                == spec_resync_targets(devices@)[i - 1],
{
    let mut r: Vec<Action> = Vec::new();
    r.push(Action { kind: ActionKind::Flush, target: String::new() });
    let mut i: usize = 0;
    while i < devices.len()
        invariant
            i <= devices@.len(),
            r@.len() == 1 + spec_resync_targets(devices@.take(i as int)).len(),
            r@[0].kind == ActionKind::Flush,
            r@[0].target@ == Seq::<char>::empty(),
            forall|j: int|
                1 <= j < r@.len() ==> (#[trigger] r@[j]).kind == ActionKind::Admit && r@[j].target@
                    == spec_resync_targets(devices@.take(i as int))[j - 1],
        decreases devices@.len() - i,
    {
        let d = &devices[i];
        if d.internet {
            r.push(Action { kind: ActionKind::Admit, target: d.mac.clone() });
        }
        proof {
            assert(devices@.take(i as int + 1).drop_last() =~= devices@.take(i as int));
            assert(devices@.take(i as int + 1).last() == devices@[i as int]);
        }
        i += 1;
    }
    proof {
        assert(devices@.take(devices@.len() as int) =~= devices@);
    }
    r
}

/// The resync run policy, applied to the response of the plan's step at
/// `index` as the caller walks the plan in order: the result of the
/// leading Flush (the step at index zero) is discarded, while a failed
/// Admit surfaces as the transport failure carrying the agent's
/// diagnostic and aborts the remaining steps — the caller stops at the
/// first error.
pub fn resync_step_outcome(index: usize, response: AgentResponse) -> (r: Result<(), Error>)
    ensures
        index == 0 ==> r is Ok,
        index > 0 ==> (r is Ok <==> response.success),
        index > 0 && !response.success ==> (r matches Err(e) && e matches Error::TransportFailure(
            detail,
        ) && detail@ == response.body@),
{
    if index == 0 {
        Ok(())
    } else {
        trace_router_response(response)
    }
}

/// The fresh authorization read that precedes every decision: the owning
/// identity's current flag, or the typed failure when no identity exists
/// under the requested id.
pub fn fresh_authorization(identity: &Option<User>) -> (r: Result<bool, Error>)
    ensures
        r is Ok <==> identity is Some,
        identity matches Some(u) ==> (r matches Ok(authorized) && authorized == u.is_allowed),
        identity is None ==> (r matches Err(e) && e is UserDoesNotExist),
{
    match identity {
        Some(u) => Ok(u.is_allowed),
        None => Err(Error::UserDoesNotExist),
    }
}

} // verus!
