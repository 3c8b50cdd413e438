//! Repository records, analysis requests, and the orchestration rules of the
//! documentation pipeline: find-or-create of the repository record and the
//! strict materialize -> sanitize -> render -> dispatch stage order.

use vstd::prelude::*;

verus! {

/// A persisted repository record. Identifiers and timestamps are carried as
/// plain values: the id is the hyphenated text form of a version-4 UUID and
/// the timestamps are Unix seconds.
#[derive(Clone, Debug)]
pub struct Repository {
    pub id: String,
    pub name: String,
    pub url: String,
    pub owner_id: String,
    pub default_branch: String,
    pub last_commit_sha: String,
    pub created_at: i64,
    pub updated_at: i64,
}

/// An incoming repository-analysis request.
#[derive(Clone, Debug)]
pub struct AnalyzeRepositoryDto {
    pub url: String,
    pub name: String,
    pub owner: String,
    pub branch: String,
    pub commit_sha: Option<String>,
    pub pr_target_branch: Option<String>,
}

/// Whether a pull-request target branch is acceptable: only the two common
/// default branch names are.
pub open spec fn target_branch_ok(branch: Seq<char>) -> bool {
    branch == "main"@ || branch == "master"@
}

/// Accepts a pull-request target branch only if it is a default branch name.
pub fn validate_target_branch(branch: &str) -> (r: bool)
    ensures
        r == target_branch_ok(branch@),
{
    crate::text::str_eq(branch, "main") || crate::text::str_eq(branch, "master")
}

/// Relies on uuid::Uuid::new_v4 and its Display form: a fresh random id in
/// the hyphenated text form, which is always 36 characters.  Nothing else is
/// promised of its value.
#[verifier::external_body]
pub fn fresh_id() -> (r: String)
    ensures
        r@.len() == 36,
{
    uuid::Uuid::new_v4().to_string()
}

/// Relies on chrono::Utc::now: the current time as Unix seconds.  Nothing is
/// promised of its value.  The underlying call panics only if the system
/// clock reads before 1970, an environmental failure.
#[verifier::external_body]
pub fn now_timestamp() -> i64 {
    chrono::Utc::now().timestamp()
}

/// The pinned commit a new record takes from a request.
pub open spec fn requested_sha(dto: AnalyzeRepositoryDto) -> Seq<char> {
    match dto.commit_sha {
        Some(s) => s@,
        None => Seq::<char>::empty(),
    }
}

/// Find-or-create of the repository record for an analysis request: a record
/// already stored under the request's name is reused unchanged — a second
/// analysis of the same name keeps the first record's id and stores nothing
/// new — while an absent name gets a fresh record built from the request and
/// its owner.  The flag says whether the caller must persist the record.
pub fn get_or_create(found: Option<Repository>, dto: &AnalyzeRepositoryDto, owner_id: &str) -> (r:
    (Repository, bool))
    ensures
        found matches Some(existing) ==> (r.0 == existing && !r.1),
        found is None ==> {
            &&& r.1
            &&& r.0.name@ == dto.name@
            &&& r.0.url@ == dto.url@
            &&& r.0.owner_id@ == owner_id@
            &&& r.0.default_branch@ == dto.branch@
            &&& r.0.last_commit_sha@ == requested_sha(*dto)
            &&& r.0.id@.len() == 36
            &&& r.0.created_at == r.0.updated_at
        },
{
    match found {
        Some(existing) => (existing, false),
        None => {
            let id = fresh_id();
            let now = now_timestamp();
            let sha = match &dto.commit_sha {
                Some(s) => s.clone(),
                None => String::new(),
            };
            let record = Repository {
                id,
                name: dto.name.clone(),
                url: dto.url.clone(),
                owner_id: owner_id.to_owned(),
                default_branch: dto.branch.clone(),
                last_commit_sha: sha,
                created_at: now,
                updated_at: now,
            };
            (record, true)
        },
    }
}

/// The clone directory of a repository id under the configured clone root.
pub open spec fn clone_dir_text(clone_root: Seq<char>, id: Seq<char>) -> Seq<char> {
    clone_root + "/"@ + id
}

/// Computes the clone directory for a repository id: one deterministic
/// subdirectory of the clone root per id.
pub fn clone_target_dir(clone_root: &str, id: &str) -> (r: String)
    ensures
        r@ == clone_dir_text(clone_root@, id@),
{
    let r = clone_root.to_owned().concat("/").concat(id);
    proof {
        assert(r@ =~= clone_dir_text(clone_root@, id@));
    }
    r
}

/// Where a documentation-generation run stands.  Within one run the stages
/// are strictly sequential — each consumes the previous stage's output — and
/// the first failure aborts the rest.
#[derive(Clone, Copy, Debug, PartialEq, Eq, Structural)]
pub enum Stage {
    /// Look the repository record up by name, creating it if absent.
    FindOrCreate,
    /// Clone and pin the working tree.
    Materialize,
    /// Apply the ignore patterns and the size policy to the clone.
    Sanitize,
    /// Produce the textual tree listing.
    Render,
    /// Notify the owner and request generation, concurrently.
    Dispatch,
    /// The run succeeded.
    Done,
    /// The run aborted on a failed stage.
    Failed,
}

/// The stage that follows `s` when it ends with the given outcome: the fixed
/// find-or-create, materialize, sanitize, render, dispatch order on success,
/// and an abort on any failure.
pub open spec fn stage_after(s: Stage, ok: bool) -> Stage {
    if !ok {
        Stage::Failed
    } else {
        match s {
            Stage::FindOrCreate => Stage::Materialize,
            Stage::Materialize => Stage::Sanitize,
            Stage::Sanitize => Stage::Render,
            Stage::Render => Stage::Dispatch,
            Stage::Dispatch => Stage::Done,
            Stage::Done => Stage::Done,
            Stage::Failed => Stage::Failed,
        }
    }
}

/// Advances a documentation-generation run by one completed stage.
pub fn next_stage(s: Stage, ok: bool) -> (r: Stage)
    ensures
        r == stage_after(s, ok),
{
    if !ok {
        Stage::Failed
    } else {
        match s {
            Stage::FindOrCreate => Stage::Materialize,
            Stage::Materialize => Stage::Sanitize,
            Stage::Sanitize => Stage::Render,
            Stage::Render => Stage::Dispatch,
            Stage::Dispatch => Stage::Done,
            Stage::Done => Stage::Done,
            Stage::Failed => Stage::Failed,
        }
    }
}

} // verus!
