//! The operation orchestrator: runs one user action against every
//! selected backend independently, in the fixed order directory first,
//! then cluster, and aggregates the per-backend results into a single
//! outcome. There is no cross-backend transaction and no rollback: a
//! failure on one backend never prevents attempting the other.

use vstd::prelude::*;

use crate::cli::Modifiable;
use crate::cli::UserToAdd;
use crate::listing::ListedUsers;
use crate::resolve::Config;
use crate::resolve::Credential;
use crate::resolve::ResolvedContext;
use crate::selector::TargetSelector;
use crate::text::TrimmedNonEmptyText;

verus! {

/// A user-facing action the orchestrator can run.
#[derive(Debug)]
pub enum Action {
    Add(UserToAdd),
    Modify(Modifiable),
    Delete(TrimmedNonEmptyText),
}

/// A directory backend's own error, carried opaquely.
#[derive(Clone, Debug, PartialEq, Eq)]
pub enum DirErr {
    Connection(String),
    Operation(String),
}

/// A cluster backend's own error, carried opaquely.
#[derive(Clone, Debug, PartialEq, Eq)]
pub enum ClusterErr {
    Timeout,
    Connection(String),
    Command(String),
}

/// The error of whichever backend failed first, verbatim.
#[derive(Clone, Debug, PartialEq, Eq)]
pub enum BackendFailure {
    Directory(DirErr),
    Cluster(ClusterErr),
}

/// The aggregated answer of one orchestrated operation. Partial failure
/// is a first-class outcome, not an exception: callers branch on it.
#[derive(Clone, Debug, PartialEq, Eq)]
pub enum OperationOutcome {
    /// Every selected backend succeeded.
    Success,
    /// Some selected backends succeeded and some failed; `cause` is the
    /// first failed backend's error in the fixed order.
    PartialFailure { succeeded: TargetSelector, failed: TargetSelector, cause: BackendFailure },
    /// Every selected backend failed; `cause` is the first error.
    TotalFailure { cause: BackendFailure },
}

/// The directory capability: LDAP create, modify, delete and search.
/// Implemented by a collaborator outside the library; the orchestrator
/// depends only on these signatures.
pub trait DirectoryBackend {
    fn create(&mut self, config: &Config, credential: &Credential, user: &UserToAdd) -> Result<
        (),
        DirErr,
    >;

    fn modify(&mut self, config: &Config, credential: &Credential, data: &Modifiable) -> Result<
        (),
        DirErr,
    >;

    fn delete(
        &mut self,
        config: &Config,
        credential: &Credential,
        username: &TrimmedNonEmptyText,
    ) -> Result<(), DirErr>;

    fn search(&mut self, config: &Config, credential: &Credential, filter: &str) -> Result<
        ListedUsers,
        DirErr,
    >;
}

/// The cluster capability: Slurm account create, modify, delete and list,
/// driven over a remote-shell session that each call may establish anew
/// from the given SSH credential.
pub trait ClusterBackend {
    fn create(&mut self, config: &Config, ssh: &Option<Credential>, user: &UserToAdd) -> Result<
        (),
        ClusterErr,
    >;

    fn modify(&mut self, config: &Config, ssh: &Option<Credential>, data: &Modifiable) -> Result<
        (),
        ClusterErr,
    >;

    fn delete(
        &mut self,
        config: &Config,
        ssh: &Option<Credential>,
        username: &TrimmedNonEmptyText,
    ) -> Result<(), ClusterErr>;

    fn list(&mut self, config: &Config, ssh: &Option<Credential>) -> Result<
        ListedUsers,
        ClusterErr,
    >;
}

/// Each selected backend has a recorded result, and only those.
pub open spec fn results_match(
    sel: TargetSelector,
    dir: Option<Result<(), DirErr>>,
    cl: Option<Result<(), ClusterErr>>,
) -> bool {
    &&& dir is Some <==> sel.directory
    &&& cl is Some <==> sel.cluster
}

/// The first failed backend's error, in the fixed order directory first.
pub open spec fn first_cause(
    dir: Option<Result<(), DirErr>>,
    cl: Option<Result<(), ClusterErr>>,
) -> BackendFailure {
    match dir {
        Some(Err(e)) => BackendFailure::Directory(e),
        _ => match cl {
            Some(Err(e)) => BackendFailure::Cluster(e),
            _ => arbitrary(),
        },
    }
}

/// How per-backend results fold into one outcome.
pub open spec fn aggregate_spec(
    sel: TargetSelector,
    dir: Option<Result<(), DirErr>>,
    cl: Option<Result<(), ClusterErr>>,
) -> OperationOutcome {
    let dir_failed = sel.directory && dir matches Some(Err(_));
    let cluster_failed = sel.cluster && cl matches Some(Err(_));
    if !dir_failed && !cluster_failed {
        OperationOutcome::Success
    } else if (!sel.directory || dir_failed) && (!sel.cluster || cluster_failed) {
        OperationOutcome::TotalFailure { cause: first_cause(dir, cl) }
    } else {
        OperationOutcome::PartialFailure {
            succeeded: TargetSelector {
                directory: sel.directory && !dir_failed,
                cluster: sel.cluster && !cluster_failed,
            },
            failed: TargetSelector { directory: dir_failed, cluster: cluster_failed },
            cause: first_cause(dir, cl),
        }
    }
}

/// Folds the recorded per-backend results into the operation's outcome.
pub fn aggregate(
    selector: &TargetSelector,
    directory: Option<Result<(), DirErr>>,
    cluster: Option<Result<(), ClusterErr>>,
) -> (r: OperationOutcome)
    requires
        selector.wf(),
        results_match(*selector, directory, cluster),
    ensures
        r == aggregate_spec(*selector, directory, cluster),
{
    let dir_failed = match &directory {
        Some(Err(_)) => true,
        _ => false,
    };
    let cluster_failed = match &cluster {
        Some(Err(_)) => true,
        _ => false,
    };
    if !dir_failed && !cluster_failed {
        return OperationOutcome::Success;
    }
    let cause = match directory {
        Some(Err(e)) => BackendFailure::Directory(e),
        _ => match cluster {
            Some(Err(e)) => BackendFailure::Cluster(e),
            _ => {
                // Some backend failed, or the early return above fired.
                proof {
                    assert(false);
                }
                BackendFailure::Cluster(ClusterErr::Timeout)
            },
        },
    };
    if (!selector.directory || dir_failed) && (!selector.cluster || cluster_failed) {
        OperationOutcome::TotalFailure { cause }
    } else {
        OperationOutcome::PartialFailure {
            succeeded: TargetSelector {
                directory: selector.directory && !dir_failed,
                cluster: selector.cluster && !cluster_failed,
            },
            failed: TargetSelector { directory: dir_failed, cluster: cluster_failed },
            cause,
        }
    }
}

/// Law: the outcome is `Success` exactly when every selected backend
/// succeeded, `TotalFailure` exactly when every selected backend failed,
/// and `PartialFailure` otherwise, with `succeeded` and `failed` disjoint,
/// non-empty, and together covering the selector.
pub proof fn lemma_aggregate_partition(
    sel: TargetSelector,
    dir: Option<Result<(), DirErr>>,
    cl: Option<Result<(), ClusterErr>>,
)
    requires
        sel.wf(),
        results_match(sel, dir, cl),
    ensures
        aggregate_spec(sel, dir, cl) is Success <==> ((sel.directory ==> dir matches Some(
            Ok(_),
        )) && (sel.cluster ==> cl matches Some(Ok(_)))),
        aggregate_spec(sel, dir, cl) is TotalFailure <==> ((sel.directory ==> dir matches Some(
            Err(_),
        )) && (sel.cluster ==> cl matches Some(Err(_)))),
        aggregate_spec(sel, dir, cl) matches OperationOutcome::PartialFailure {
            succeeded,
            failed,
            cause,
        } ==> {
            &&& succeeded@.union(failed@) =~= sel@
            &&& succeeded@.intersect(failed@) =~= Set::<crate::selector::Backend>::empty()
            &&& succeeded.wf()
            &&& failed.wf()
        },
{
}

/// Runs `action` against every backend `selector` names, directory first,
/// and aggregates the results. The backends decide success or failure on
/// their own; whatever they answer, the outcome is exactly the
/// aggregation of the recorded results.
pub fn perform<D: DirectoryBackend, C: ClusterBackend>(
    action: &Action,
    selector: &TargetSelector,
    ctx: &ResolvedContext,
    directory: &mut D,
    cluster: &mut C,
) -> (r: OperationOutcome)
    requires
        selector.wf(),
        ctx.covers(*selector),
    ensures
        exists|dir: Option<Result<(), DirErr>>, cl: Option<Result<(), ClusterErr>>|
            results_match(*selector, dir, cl) && r == aggregate_spec(*selector, dir, cl),
        r matches OperationOutcome::PartialFailure { succeeded, failed, cause } ==> {
            &&& succeeded@.union(failed@) =~= selector@
            &&& succeeded@.disjoint(failed@)
            &&& succeeded.wf()
            &&& failed.wf()
        },
{
    let mut dir_res: Option<Result<(), DirErr>> = None;
    if selector.directory {
        match &ctx.directory_credential {
            Some(credential) => {
                let res = match action {
                    Action::Add(user) => directory.create(&ctx.config, credential, user),
                    Action::Modify(data) => directory.modify(&ctx.config, credential, data),
                    Action::Delete(name) => directory.delete(&ctx.config, credential, name),
                };
                dir_res = Some(res);
            },
            None => {
                // A selected directory is covered by a credential.
                proof {
                    assert(false);
                }
            },
        }
    }
    let mut cl_res: Option<Result<(), ClusterErr>> = None;
    if selector.cluster {
        let res = match action {
            Action::Add(user) => cluster.create(&ctx.config, &ctx.cluster_credential, user),
            Action::Modify(data) => cluster.modify(&ctx.config, &ctx.cluster_credential, data),
            Action::Delete(name) => cluster.delete(&ctx.config, &ctx.cluster_credential, name),
        };
        cl_res = Some(res);
    }
    let ghost recorded_dir = dir_res;
    let ghost recorded_cl = cl_res;
    let r = aggregate(selector, dir_res, cl_res);
    proof {
        assert(results_match(*selector, recorded_dir, recorded_cl) && r == aggregate_spec(
            *selector,
            recorded_dir,
            recorded_cl,
        ));
        lemma_aggregate_partition(*selector, recorded_dir, recorded_cl);
    }
    r
}

/// The terminal value a task slot stores after a delete: the deleted
/// username on full success, the outcome itself otherwise.
pub fn outcome_to_task_result(outcome: OperationOutcome, username: String) -> (r: Result<
    String,
    OperationOutcome,
>)
    ensures
        outcome is Success ==> (r matches Ok(u) && u == username),
        !(outcome is Success) ==> (r matches Err(e) && e == outcome),
{
    match outcome {
        OperationOutcome::Success => Ok(username),
        other => Err(other),
    }
}

} // verus!
