//! Materialization plan for a repository clone: the ordered filesystem and
//! git actions that put a working tree for a record on local storage, pinned
//! to its recorded commit.  A pre-existing directory for the same repository
//! id is always removed before anything else runs.

use vstd::prelude::*;

use crate::orchestrator::Repository;

verus! {

/// One step of materializing a repository clone.  The actions are performed
/// in plan order by the runtime; any failing action aborts the plan and
/// surfaces a materialization error.
#[derive(Clone, Debug, PartialEq, Eq)]
pub enum MatAction {
    /// Recursively delete the existing clone directory.
    RemoveExisting,
    /// Create the (now absent) clone directory.
    CreateDir,
    /// Clone the remote at this URL into the clone directory.
    CloneRemote { url: String },
    /// Point the head at this branch.
    SetBranch { branch: String },
    /// Check out the tree of this commit.
    CheckoutCommit { sha: String },
    /// Detach the head at this commit.
    DetachHead { sha: String },
}

/// The plan that materializes `repo`, given whether a clone directory for its
/// id already exists.
pub open spec fn materialize_plan(repo: Repository, dir_exists: bool) -> Seq<MatAction> {
    (if dir_exists {
        seq![MatAction::RemoveExisting]
    } else {
        Seq::<MatAction>::empty()
    }) + seq![
        MatAction::CreateDir,
        MatAction::CloneRemote { url: repo.url },
        MatAction::SetBranch { branch: repo.default_branch },
        MatAction::CheckoutCommit { sha: repo.last_commit_sha },
        MatAction::DetachHead { sha: repo.last_commit_sha },
    ]
}

/// Computes the ordered actions that materialize `repo` on local storage.
pub fn materialize_actions(repo: &Repository, dir_exists: bool) -> (r: Vec<MatAction>)
    ensures
        r@ == materialize_plan(*repo, dir_exists),
{
    let mut r: Vec<MatAction> = Vec::new();
    if dir_exists {
        r.push(MatAction::RemoveExisting);
    }
    r.push(MatAction::CreateDir);
    r.push(MatAction::CloneRemote { url: repo.url.clone() });
    r.push(MatAction::SetBranch { branch: repo.default_branch.clone() });
    r.push(MatAction::CheckoutCommit { sha: repo.last_commit_sha.clone() });
    r.push(MatAction::DetachHead { sha: repo.last_commit_sha.clone() });
    proof {
        assert(r@ =~= materialize_plan(*repo, dir_exists));
    }
    r
}

/// Re-materializing over an existing clone never mixes old and new contents:
/// the plan removes the old directory first, strictly before the clone runs,
/// so the second clone starts from nothing.
pub proof fn lemma_rematerialization_removes_old_clone(repo: Repository)
    ensures
        materialize_plan(repo, true)[0] == MatAction::RemoveExisting,
        forall|i: int|
            0 <= i < materialize_plan(repo, true).len() && (#[trigger] materialize_plan(
                repo,
                true,
            )[i] matches MatAction::CloneRemote { .. }) ==> i > 0,
{
    let plan = materialize_plan(repo, true);
    assert(plan[0] == MatAction::RemoveExisting);
}

} // verus!
