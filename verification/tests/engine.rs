use lpmng::device::Device;
use lpmng::engine::{
    authorization_toggle_plan, delete_step_commit, delete_user_plan, device_seen,
    device_seen_commit, fresh_authorization, patch_toggle_plan, reconcile_action,
    resync_plan, resync_step_outcome, step_commit, PersistOp,
};
use lpmng::errors::Error;
use lpmng::protocol::{ActionKind, AgentResponse};
use lpmng::user::User;

fn dev(id: u128, mac: &str, user_id: u128, internet: bool) -> Device {
    Device { id, mac: mac.to_string(), user_id, internet, date_time: 0 }
}

#[test]
fn decision_table_is_the_diff() {
    assert_eq!(reconcile_action(false, true), Some(ActionKind::Revoke));
    assert_eq!(reconcile_action(true, false), Some(ActionKind::Admit));
    assert_eq!(reconcile_action(true, true), None);
    assert_eq!(reconcile_action(false, false), None);
}

#[test]
fn reseen_in_agreement_is_idempotent() {
    // authorized == pushed_state: no call is issued, nothing is persisted.
    for authorized in [false, true] {
        let existing = Some(dev(1, "aa:bb:cc:dd:ee:ff", 7, authorized));
        let plan = device_seen(&existing, 7, authorized, &"aa:bb:cc:dd:ee:ff".to_string(), 99)
            .unwrap();
        assert!(plan.action.is_none());
        assert!(plan.persist.is_none());
        // Re-running the same event decides the same nothing.
        let again = device_seen(&existing, 7, authorized, &"aa:bb:cc:dd:ee:ff".to_string(), 100)
            .unwrap();
        assert!(again.action.is_none());
        assert!(again.persist.is_none());
    }
}

#[test]
fn reseen_out_of_agreement_issues_one_action() {
    let existing = Some(dev(4, "aa:bb:cc:dd:ee:ff", 7, false));
    let plan = device_seen(&existing, 7, true, &"aa:bb:cc:dd:ee:ff".to_string(), 99).unwrap();
    let action = plan.action.expect("one action");
    assert_eq!(action.kind, ActionKind::Admit);
    assert_eq!(action.target, "aa:bb:cc:dd:ee:ff");
    match plan.persist.expect("one write") {
        PersistOp::Update(u) => {
            assert_eq!(u.id, 4);
            assert!(u.internet);
            assert_eq!(u.date_time, 99);
        }
        PersistOp::Insert(_) => panic!("re-seen endpoint must be updated, not inserted"),
    }

    let existing = Some(dev(4, "aa:bb:cc:dd:ee:ff", 7, true));
    let plan = device_seen(&existing, 7, false, &"aa:bb:cc:dd:ee:ff".to_string(), 99).unwrap();
    assert_eq!(plan.action.expect("one action").kind, ActionKind::Revoke);
}

#[test]
fn first_contact_admits_unconditionally_but_persists_truth() {
    let plan = device_seen(&None, 7, false, &"aa:bb:cc:dd:ee:ff".to_string(), 42).unwrap();
    let action = plan.action.expect("first contact always pushes an admit");
    assert_eq!(action.kind, ActionKind::Admit);
    assert_eq!(action.target, "aa:bb:cc:dd:ee:ff");
    match plan.persist.expect("a new record") {
        PersistOp::Insert(nd) => {
            assert_eq!(nd.mac, "aa:bb:cc:dd:ee:ff");
            assert_eq!(nd.user_id, 7);
            // The persisted flag reflects the true authorization, not the
            // unconditional admit that was just issued.
            assert!(!nd.internet);
            assert_eq!(nd.date_time, 42);
        }
        PersistOp::Update(_) => panic!("first contact must insert"),
    }
}

#[test]
fn ownership_conflict_mutates_nothing() {
    // AA:BB:CC:DD:EE:FF is recorded under identity 1; identity 2 presents it.
    let existing = Some(dev(9, "AA:BB:CC:DD:EE:FF", 1, true));
    let r = device_seen(&existing, 2, true, &"AA:BB:CC:DD:EE:FF".to_string(), 5);
    assert!(matches!(r, Err(Error::OwnershipConflict)));
}

#[test]
fn transport_failure_leaves_state_stale() {
    // A re-seen event that would admit: the call fails, so nothing may be
    // persisted and pushed_state stays as it was.
    let existing = Some(dev(4, "aa:bb:cc:dd:ee:ff", 7, false));
    let plan = device_seen(&existing, 7, true, &"aa:bb:cc:dd:ee:ff".to_string(), 99).unwrap();
    assert!(plan.action.is_some());
    let persisted = device_seen_commit(plan, false);
    assert!(persisted.is_none());

    // The same plan with a successful call persists the planned write.
    let plan = device_seen(&existing, 7, true, &"aa:bb:cc:dd:ee:ff".to_string(), 99).unwrap();
    assert!(device_seen_commit(plan, true).is_some());
}

#[test]
fn bulk_toggle_touches_only_disagreeing_endpoints() {
    // X pushed, Y not pushed; the identity is toggled to admitted=false.
    let x = dev(1, "aa:aa:aa:aa:aa:aa", 7, true);
    let y = dev(2, "bb:bb:bb:bb:bb:bb", 7, false);
    let steps = authorization_toggle_plan(&vec![x, y], false, 77);
    assert_eq!(steps.len(), 1);
    assert_eq!(steps[0].action.kind, ActionKind::Revoke);
    assert_eq!(steps[0].action.target, "aa:aa:aa:aa:aa:aa");
    assert!(!steps[0].updated.internet);
    assert_eq!(steps[0].updated.id, 1);
    assert_eq!(steps[0].updated.date_time, 77);

    // X's flip is persisted only after its push succeeded.
    let step = steps.into_iter().next().unwrap();
    let persisted = step_commit(step, true).expect("persist after success");
    assert!(!persisted.internet);
}

#[test]
fn bulk_toggle_step_not_persisted_on_failure() {
    let x = dev(1, "aa:aa:aa:aa:aa:aa", 7, true);
    let steps = authorization_toggle_plan(&vec![x], false, 77);
    let step = steps.into_iter().next().unwrap();
    assert!(step_commit(step, false).is_none());
}

#[test]
fn deletion_sweeps_only_while_admitted() {
    let a = dev(1, "aa:aa:aa:aa:aa:aa", 7, true);
    let b = dev(2, "bb:bb:bb:bb:bb:bb", 7, false);

    // Identity still admitted: every record is deleted, pushed ones are
    // revoked first.
    let steps = delete_user_plan(true, &vec![a.clone(), b.clone()]);
    assert_eq!(steps.len(), 2);
    let r0 = steps[0].revoke.as_ref().expect("pushed endpoint is revoked");
    assert_eq!(r0.kind, ActionKind::Revoke);
    assert_eq!(r0.target, "aa:aa:aa:aa:aa:aa");
    assert_eq!(steps[0].device_id, 1);
    assert!(steps[1].revoke.is_none());
    assert_eq!(steps[1].device_id, 2);

    // Identity already blocked: the sweep is skipped.
    let steps = delete_user_plan(false, &vec![a, b]);
    assert!(steps.is_empty());
}

#[test]
fn full_resync_is_flush_then_admits_of_pushed_state() {
    let a = dev(1, "aa:aa:aa:aa:aa:aa", 7, true);
    let b = dev(2, "bb:bb:bb:bb:bb:bb", 7, false);
    let c = dev(3, "cc:cc:cc:cc:cc:cc", 8, true);
    let actions = resync_plan(&vec![a, b, c]);
    assert_eq!(actions.len(), 3);
    assert_eq!(actions[0].kind, ActionKind::Flush);
    assert_eq!(actions[0].target, "");
    assert_eq!(actions[1].kind, ActionKind::Admit);
    assert_eq!(actions[1].target, "aa:aa:aa:aa:aa:aa");
    assert_eq!(actions[2].kind, ActionKind::Admit);
    assert_eq!(actions[2].target, "cc:cc:cc:cc:cc:cc");
}

#[test]
fn patch_without_the_flag_plans_no_toggle() {
    // The stored states disagree with everything, yet a patch that does
    // not carry is_allowed must issue no call and no device write.
    let x = dev(1, "aa:aa:aa:aa:aa:aa", 7, true);
    let y = dev(2, "bb:bb:bb:bb:bb:bb", 7, false);
    assert!(patch_toggle_plan(None, &vec![x.clone(), y.clone()], 9).is_empty());

    // With the flag present it is exactly the bulk toggle.
    let steps = patch_toggle_plan(Some(false), &vec![x, y], 9);
    assert_eq!(steps.len(), 1);
    assert_eq!(steps[0].action.kind, ActionKind::Revoke);
    assert_eq!(steps[0].action.target, "aa:aa:aa:aa:aa:aa");
}

#[test]
fn failed_revoke_blocks_the_record_deletion() {
    let a = dev(1, "aa:aa:aa:aa:aa:aa", 7, true);
    let b = dev(2, "bb:bb:bb:bb:bb:bb", 7, false);
    let steps = delete_user_plan(true, &vec![a, b]);

    // The pushed endpoint's record may be deleted only after its revoke
    // succeeded.
    assert_eq!(delete_step_commit(&steps[0], false), None);
    assert_eq!(delete_step_commit(&steps[0], true), Some(1));

    // A step without a revoke has nothing to wait for.
    assert_eq!(delete_step_commit(&steps[1], true), Some(2));
}

#[test]
fn resync_ignores_a_failed_flush_but_stops_on_a_failed_admit() {
    // Step zero is the Flush: its failure is discarded.
    let failed = AgentResponse { success: false, body: "tool down".to_string() };
    assert!(resync_step_outcome(0, failed).is_ok());

    // A later step is an Admit: success continues, failure aborts with
    // the transport error carrying the agent's text.
    let ok = AgentResponse { success: true, body: String::new() };
    assert!(resync_step_outcome(1, ok).is_ok());
    let failed = AgentResponse { success: false, body: "no such set".to_string() };
    match resync_step_outcome(2, failed) {
        Err(Error::TransportFailure(detail)) => assert_eq!(detail, "no such set"),
        other => panic!("expected a transport failure, got {other:?}"),
    }
}

#[test]
fn fresh_authorization_reads_the_flag_or_fails_typed() {
    let u = User {
        id: 7,
        username: "ada".to_string(),
        firstname: "Ada".to_string(),
        lastname: "Lovelace".to_string(),
        email: "ada@example.org".to_string(),
        password: "hashed".to_string(),
        phone: "0612345678".to_string(),
        role: "user".to_string(),
        is_allowed: true,
    };
    assert_eq!(fresh_authorization(&Some(u)).unwrap(), true);
    assert!(matches!(fresh_authorization(&None), Err(Error::UserDoesNotExist)));
}

#[test]
fn full_resync_of_nothing_still_flushes() {
    let actions = resync_plan(&vec![]);
    assert_eq!(actions.len(), 1);
    assert_eq!(actions[0].kind, ActionKind::Flush);
}
