//! The command dispatcher's verified core: the closed set of sync jobs with
//! their declared per-job policy (fan-out mode and failure handling), the
//! capture of one tenant task's outcome, and the fan-in decision over all
//! collected results.

use vstd::prelude::*;

use crate::entity::Tenant;
use crate::errors::SyncError;

verus! {

/// Whether a job fans its tenants out concurrently or runs them one at a
/// time.
#[derive(Debug, Clone, Copy, PartialEq, Eq, Structural)]
pub enum Concurrency {
    /// One task per tenant, started immediately and joined at the fan-in.
    Parallel,
    /// Tenants are run to completion one after the other.
    Sequential,
}

/// Whether one tenant's failure aborts the whole invocation or is recorded
/// while the run continues.
#[derive(Debug, Clone, Copy, PartialEq, Eq, Structural)]
pub enum FailurePolicy {
    /// The first tenant failure fails the invocation (after every started
    /// task has finished).
    Abort,
    /// Failures are logged individually; the invocation fails only when
    /// every tenant failed.
    Continue,
}

/// The closed set of sync jobs, one per invokable command.
#[derive(Debug, Clone, Copy, PartialEq, Eq, Structural)]
pub enum JobKind {
    SendRfdChangelog,
    SyncAnalytics,
    SyncApiTokens,
    SyncApplications,
    SyncAssetInventory,
    SyncCompanies,
    SyncConfigs,
    SyncFinance,
    SyncFunctions,
    SyncHuddles,
    SyncInterviews,
    SyncJournalClubs,
    SyncMailingLists,
    SyncRecordedMeetings,
    SyncRepos,
    SyncRfds,
    SyncOther,
    SyncShipments,
    SyncShorturls,
    SyncSwagInventory,
    SyncTravel,
}

impl JobKind {
    /// The declared fan-out mode of each job.
    pub open spec fn spec_concurrency(self) -> Concurrency {
        match self {
            JobKind::SyncAnalytics => Concurrency::Parallel,
            JobKind::SyncApiTokens => Concurrency::Parallel,
            JobKind::SyncConfigs => Concurrency::Parallel,
            JobKind::SyncFinance => Concurrency::Parallel,
            JobKind::SyncRepos => Concurrency::Parallel,
            JobKind::SyncShipments => Concurrency::Parallel,
            JobKind::SyncTravel => Concurrency::Parallel,
            _ => Concurrency::Sequential,
        }
    }

    /// Executable form of [`JobKind::spec_concurrency`].
    pub fn concurrency(&self) -> (r: Concurrency)
        ensures
            r == self.spec_concurrency(),
    {
        match self {
            JobKind::SyncAnalytics => Concurrency::Parallel,
            JobKind::SyncApiTokens => Concurrency::Parallel,
            JobKind::SyncConfigs => Concurrency::Parallel,
            JobKind::SyncFinance => Concurrency::Parallel,
            JobKind::SyncRepos => Concurrency::Parallel,
            JobKind::SyncShipments => Concurrency::Parallel,
            JobKind::SyncTravel => Concurrency::Parallel,
            _ => Concurrency::Sequential,
        }
    }

    /// The declared failure policy of each job.
    pub open spec fn spec_failure_policy(self) -> FailurePolicy {
        match self {
            JobKind::SyncConfigs => FailurePolicy::Continue,
            JobKind::SyncFinance => FailurePolicy::Continue,
            _ => FailurePolicy::Abort,
        }
    }

    /// Executable form of [`JobKind::spec_failure_policy`].
    pub fn failure_policy(&self) -> (r: FailurePolicy)
        ensures
            r == self.spec_failure_policy(),
    {
        match self {
            JobKind::SyncConfigs => FailurePolicy::Continue,
            JobKind::SyncFinance => FailurePolicy::Continue,
            _ => FailurePolicy::Abort,
        }
    }

    /// Whether the job runs once per tenant; the remaining jobs run once
    /// globally.
    pub open spec fn spec_per_tenant(self) -> bool {
        match self {
            JobKind::SyncCompanies => false,
            JobKind::SyncFunctions => false,
            JobKind::SyncShorturls => false,
            _ => true,
        }
    }

    /// Executable form of [`JobKind::spec_per_tenant`].
    pub fn per_tenant(&self) -> (r: bool)
        ensures
            r == self.spec_per_tenant(),
    {
        match self {
            JobKind::SyncCompanies => false,
            JobKind::SyncFunctions => false,
            JobKind::SyncShorturls => false,
            _ => true,
        }
    }
}

/// Per-tenant, per-job outcome; collected at the fan-in and never silently
/// dropped.
#[derive(Debug, PartialEq)]
pub struct SyncResult {
    /// The tenant the task ran for.
    pub tenant_id: i32,
    /// The tenant's display name, for the failure report.
    pub tenant_name: String,
    /// The job that ran.
    pub job: JobKind,
    /// `None` on success, the cause otherwise.
    pub error: Option<SyncError>,
}

/// Whether one result is a failure.
pub open spec fn failed(r: SyncResult) -> bool {
    r.error is Some
}

/// Wraps one (tenant, job) execution outcome into a result the dispatcher
/// collects; a failure is captured, never propagated past the task.
pub fn capture_outcome(tenant: &Tenant, job: JobKind, outcome: Result<(), SyncError>) -> (r:
    SyncResult)
    ensures
        r.tenant_id == tenant.id,
        r.tenant_name@ == tenant.name@,
        r.job == job,
        failed(r) <==> outcome is Err,
        outcome is Err ==> r.error == Some(outcome->Err_0),
{
    SyncResult {
        tenant_id: tenant.id,
        tenant_name: tenant.name.clone(),
        job,
        error: match outcome {
            Ok(_) => None,
            Err(e) => Some(e),
        },
    }
}

/// How many of the collected results failed.
pub open spec fn count_failed(rs: Seq<SyncResult>) -> nat
    decreases rs.len(),
{
    if rs.len() == 0 {
        0
    } else {
        count_failed(rs.drop_last()) + if failed(rs.last()) {
            1nat
        } else {
            0nat
        }
    }
}

/// The index of the first failed result, or `-1` when none failed.
pub open spec fn first_failed(rs: Seq<SyncResult>) -> int
    decreases rs.len(),
{
    if rs.len() == 0 {
        -1
    } else {
        let r = first_failed(rs.drop_last());
        if r != -1 {
            r
        } else if failed(rs.last()) {
            rs.len() - 1
        } else {
            -1
        }
    }
}

/// Whether the invocation as a whole fails, per the declared policy: under
/// fail-fast any tenant failure fails it; under continue it fails only when
/// every tenant failed.
pub open spec fn invocation_fails(policy: FailurePolicy, rs: Seq<SyncResult>) -> bool {
    match policy {
        FailurePolicy::Abort => count_failed(rs) > 0,
        FailurePolicy::Continue => rs.len() > 0 && count_failed(rs) == rs.len(),
    }
}

/// At most every result fails, and some result failed exactly when the
/// count is positive, with the first failure a well-defined index.
pub proof fn lemma_count_failed_shape(rs: Seq<SyncResult>)
    ensures
        count_failed(rs) <= rs.len(),
        (count_failed(rs) > 0 <==> exists|i: int| 0 <= i < rs.len() && failed(#[trigger] rs[i])),
        count_failed(rs) > 0 ==> {
            &&& 0 <= first_failed(rs) < rs.len()
            &&& failed(rs[first_failed(rs)])
            &&& forall|j: int| 0 <= j < first_failed(rs) ==> !failed(#[trigger] rs[j])
        },
        count_failed(rs) == 0 ==> first_failed(rs) == -1,
    decreases rs.len(),
{
    if rs.len() > 0 {
        let d = rs.drop_last();
        lemma_count_failed_shape(d);
        if count_failed(rs) > 0 {
            if count_failed(d) > 0 {
                assert(first_failed(rs) == first_failed(d));
                assert(failed(d[first_failed(d)]));
                assert(rs[first_failed(rs)] == d[first_failed(d)]);
                assert forall|j: int| 0 <= j < first_failed(rs) implies !failed(
                    #[trigger] rs[j],
                ) by {
                    assert(rs[j] == d[j]);
                }
            } else {
                assert(first_failed(d) == -1);
                assert(failed(rs.last()));
                assert(first_failed(rs) == rs.len() - 1);
                assert forall|j: int| 0 <= j < first_failed(rs) implies !failed(
                    #[trigger] rs[j],
                ) by {
                    if failed(rs[j]) {
                        assert(failed(d[j]));
                    }
                }
            }
            if failed(rs.last()) {
                assert(failed(rs[rs.len() - 1]));
            } else {
                let w = choose|i: int| 0 <= i < d.len() && failed(#[trigger] d[i]);
                assert(failed(rs[w]));
            }
        }
        if exists|i: int| 0 <= i < rs.len() && failed(#[trigger] rs[i]) {
            let w = choose|i: int| 0 <= i < rs.len() && failed(#[trigger] rs[i]);
            if w < rs.len() - 1 {
                assert(failed(d[w]));
            }
            assert(count_failed(rs) > 0);
        }
    }
}

/// The invocation's terminal state: success (exit code zero) or failure
/// with the first failing result attached.
#[derive(Debug, PartialEq)]
pub enum InvocationOutcome {
    /// Every policy condition held; the invocation exits zero.
    Success,
    /// The invocation fails, carrying the first failing tenant result.
    Failure(SyncResult),
}

/// The fan-in decision: applies the declared failure policy to the complete
/// set of collected results (one per started tenant task, none abandoned).
pub fn decide(policy: FailurePolicy, results: Vec<SyncResult>) -> (o: InvocationOutcome)
    ensures
        o is Failure <==> invocation_fails(policy, results@),
        o is Failure ==> 0 <= first_failed(results@) < results@.len() && o->0 == results@[first_failed(results@)],
{
    let ghost rs = results@;
    let mut results = results;
    let mut count: usize = 0;
    let mut first: usize = 0;
    let mut have_first = false;
    let mut i: usize = 0;
    while i < results.len()
        invariant
            results@ == rs,
            i <= rs.len(),
            count == count_failed(rs.subrange(0, i as int)),
            have_first <==> count > 0,
            have_first ==> first < i && first == first_failed(rs.subrange(0, i as int)),
            !have_first ==> first_failed(rs.subrange(0, i as int)) == -1,
        decreases rs.len() - i,
    {
        proof {
            let pre = rs.subrange(0, i as int);
            let ext = rs.subrange(0, i as int + 1);
            assert(ext.drop_last() =~= pre);
            assert(ext.last() == rs[i as int]);
            lemma_count_failed_shape(pre);
        }
        let is_err = match &results[i].error {
            Some(_) => true,
            None => false,
        };
        if is_err {
            count = count + 1;
            if !have_first {
                first = i;
                have_first = true;
            }
        }
        i += 1;
    }
    proof {
        assert(rs.subrange(0, rs.len() as int) =~= rs);
        lemma_count_failed_shape(rs);
    }
    let fails = match policy {
        FailurePolicy::Abort => count > 0,
        FailurePolicy::Continue => results.len() > 0 && count == results.len(),
    };
    if fails {
        let witness = results.remove(first);
        InvocationOutcome::Failure(witness)
    } else {
        InvocationOutcome::Success
    }
}

/// The process exit code for a decided invocation: zero exactly on success.
pub fn exit_code(o: &InvocationOutcome) -> (c: i32)
    ensures
        c == 0 <==> o is Success,
        o is Failure ==> c == 1,
{
    match o {
        InvocationOutcome::Success => 0,
        InvocationOutcome::Failure(_) => 1,
    }
}

/// The indices of the failed results, in order: what a continue-policy run
/// logs individually. There are exactly as many as failed results.
pub fn failed_indices(results: &Vec<SyncResult>) -> (v: Vec<usize>)
    ensures
        v@.len() == count_failed(results@),
        forall|k: int| 0 <= k < v@.len() ==> (#[trigger] v@[k]) < results@.len() && failed(
            results@[v@[k] as int],
        ),
        forall|k: int| 0 <= k < v@.len() - 1 ==> v@[k] < #[trigger] v@[k + 1],
{
    let mut v: Vec<usize> = Vec::new();
    let mut i: usize = 0;
    while i < results.len()
        invariant
            i <= results@.len(),
            v@.len() == count_failed(results@.subrange(0, i as int)),
            forall|k: int| 0 <= k < v@.len() ==> (#[trigger] v@[k]) < i && failed(
                results@[v@[k] as int],
            ),
            forall|k: int| 0 <= k < v@.len() - 1 ==> v@[k] < #[trigger] v@[k + 1],
        decreases results@.len() - i,
    {
        proof {
            let pre = results@.subrange(0, i as int);
            let ext = results@.subrange(0, i as int + 1);
            assert(ext.drop_last() =~= pre);
            assert(ext.last() == results@[i as int]);
        }
        let is_err = match &results[i].error {
            Some(_) => true,
            None => false,
        };
        if is_err {
            proof {
                assert(failed(results@[i as int]));
            }
            let ghost oldv = v@;
            v.push(i);
            proof {
                assert(v@ == oldv.push(i));
                assert forall|k: int| 0 <= k < v@.len() implies (#[trigger] v@[k]) < i + 1
                    && failed(results@[v@[k] as int]) by {
                    if k < oldv.len() {
                        assert(v@[k] == oldv[k]);
                    } else {
                        assert(v@[k] == i);
                    }
                }
                assert forall|k: int| 0 <= k < v@.len() - 1 implies v@[k] < #[trigger] v@[k
                    + 1] by {
                    if k + 1 < oldv.len() {
                        assert(v@[k] == oldv[k] && v@[k + 1] == oldv[k + 1]);
                    } else {
                        assert(v@[k] == oldv[k] && v@[k + 1] == i);
                        assert(oldv[k] < i);
                    }
                }
            }
        }
        i += 1;
    }
    proof {
        assert(results@.subrange(0, results@.len() as int) =~= results@);
    }
    v
}

/// Law: fan-in completeness for a concurrent continue-policy job. With `n`
/// collected tenant results of which `k` failed: when `k < n` the invocation
/// succeeds (exit code zero) while exactly `k` failures are logged; when
/// `k == n` and there was at least one tenant, the invocation fails.
pub proof fn lemma_fan_in_continue(rs: Seq<SyncResult>)
    ensures
        count_failed(rs) < rs.len() ==> !invocation_fails(FailurePolicy::Continue, rs),
        rs.len() > 0 && count_failed(rs) == rs.len() ==> invocation_fails(
            FailurePolicy::Continue,
            rs,
        ),
{
    lemma_count_failed_shape(rs);
}

/// Law: fan-in fail-fast. For a fail-fast job, any single tenant failure
/// among the collected results (one per started task, all drained before
/// the decision) fails the invocation, and the surfaced failure is the
/// first failing result.
pub proof fn lemma_fan_in_fail_fast(rs: Seq<SyncResult>)
    ensures
        (exists|i: int| 0 <= i < rs.len() && failed(#[trigger] rs[i])) ==> invocation_fails(
            FailurePolicy::Abort,
            rs,
        ) && 0 <= first_failed(rs) < rs.len() && failed(rs[first_failed(rs)]),
        !(exists|i: int| 0 <= i < rs.len() && failed(#[trigger] rs[i])) ==> !invocation_fails(
            FailurePolicy::Abort,
            rs,
        ),
{
    lemma_count_failed_shape(rs);
}

} // verus!
