//! The dispatcher's fan-in decision and the declared per-job policy table.

use cio_sync::dispatch::{
    capture_outcome, decide, exit_code, failed_indices, Concurrency, FailurePolicy,
    InvocationOutcome, JobKind, SyncResult,
};
use cio_sync::entity::Tenant;
use cio_sync::errors::SyncError;

fn tenant(id: i32, name: &str) -> Tenant {
    Tenant {
        id,
        name: name.to_string(),
        airtable_base_id_assets: "base".to_string(),
        printer_url: String::new(),
    }
}

fn results(outcomes: &[Option<&str>]) -> Vec<SyncResult> {
    outcomes
        .iter()
        .enumerate()
        .map(|(i, cause)| {
            let t = tenant(i as i32 + 1, &format!("tenant{}", i + 1));
            let outcome = match cause {
                None => Ok(()),
                Some(msg) => Err(SyncError::Fetch(msg.to_string())),
            };
            capture_outcome(&t, JobKind::SyncFinance, outcome)
        })
        .collect()
}

#[test]
fn continue_policy_tolerates_partial_failure() {
    let rs = results(&[None, Some("listing failed"), None]);
    let logged = failed_indices(&rs);
    assert_eq!(logged, vec![1]);
    let o = decide(FailurePolicy::Continue, rs);
    assert_eq!(o, InvocationOutcome::Success);
    assert_eq!(exit_code(&o), 0);
}

#[test]
fn continue_policy_fails_when_all_tenants_fail() {
    let rs = results(&[Some("a"), Some("b"), Some("c")]);
    let logged = failed_indices(&rs);
    assert_eq!(logged.len(), 3);
    let o = decide(FailurePolicy::Continue, rs);
    assert_ne!(exit_code(&o), 0);
    match o {
        InvocationOutcome::Failure(r) => assert_eq!(r.tenant_id, 1),
        InvocationOutcome::Success => panic!("expected failure"),
    }
}

#[test]
fn fail_fast_surfaces_first_failure() {
    let rs = results(&[None, Some("boom"), Some("later")]);
    let o = decide(FailurePolicy::Abort, rs);
    assert_eq!(exit_code(&o), 1);
    match o {
        InvocationOutcome::Failure(r) => {
            assert_eq!(r.tenant_id, 2);
            assert_eq!(r.tenant_name, "tenant2");
            assert_eq!(r.error, Some(SyncError::Fetch("boom".to_string())));
        }
        InvocationOutcome::Success => panic!("expected failure"),
    }
}

#[test]
fn fail_fast_succeeds_without_failures() {
    let rs = results(&[None, None]);
    let o = decide(FailurePolicy::Abort, rs);
    assert_eq!(o, InvocationOutcome::Success);
    assert_eq!(exit_code(&o), 0);
}

#[test]
fn empty_tenant_set_succeeds_under_both_policies() {
    assert_eq!(decide(FailurePolicy::Abort, Vec::new()), InvocationOutcome::Success);
    assert_eq!(decide(FailurePolicy::Continue, Vec::new()), InvocationOutcome::Success);
}

#[test]
fn policy_table_matches_declared_jobs() {
    assert_eq!(JobKind::SyncFinance.concurrency(), Concurrency::Parallel);
    assert_eq!(JobKind::SyncFinance.failure_policy(), FailurePolicy::Continue);
    assert_eq!(JobKind::SyncConfigs.concurrency(), Concurrency::Parallel);
    assert_eq!(JobKind::SyncConfigs.failure_policy(), FailurePolicy::Continue);
    assert_eq!(JobKind::SyncAssetInventory.concurrency(), Concurrency::Sequential);
    assert_eq!(JobKind::SyncAssetInventory.failure_policy(), FailurePolicy::Abort);
    assert_eq!(JobKind::SyncRepos.concurrency(), Concurrency::Parallel);
    assert_eq!(JobKind::SyncRepos.failure_policy(), FailurePolicy::Abort);
    assert!(JobKind::SyncAssetInventory.per_tenant());
    assert!(!JobKind::SyncCompanies.per_tenant());
    assert!(!JobKind::SyncShorturls.per_tenant());
}

#[test]
fn capture_keeps_the_cause() {
    let t = tenant(9, "nine");
    let ok = capture_outcome(&t, JobKind::SyncAssetInventory, Ok(()));
    assert_eq!(ok.error, None);
    assert_eq!(ok.tenant_id, 9);
    let err = capture_outcome(
        &t,
        JobKind::SyncAssetInventory,
        Err(SyncError::Persist("no".to_string())),
    );
    assert_eq!(err.error, Some(SyncError::Persist("no".to_string())));
}
