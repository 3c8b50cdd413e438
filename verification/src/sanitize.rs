//! Sanitization of a materialized clone: planning which entries the ignore
//! patterns remove, and validating that no remaining file exceeds the
//! per-file size ceiling.  The walk itself and the removals are filesystem
//! work done by the runtime; the decisions here are pure and verified.

use vstd::prelude::*;

use crate::errors::RepositoryError;
use crate::ignore::{ignored_path, globset_patterns, should_ignore_path};
use crate::text::{dec_str, u64_to_string};
use crate::BYTES_PER_MB;

verus! {

/// The report for a clone path that is not on local storage.
pub open spec fn missing_path_message(path: Seq<char>) -> Seq<char> {
    "Repository path does not exist: "@ + path
}

/// Gate of a sanitization run: the clone path must exist on local storage,
/// which the runtime reports; an absent path fails the run at once.
pub fn validate_path_exists(path_exists: bool, path: &str) -> (r: Result<(), RepositoryError>)
    ensures
        path_exists ==> r is Ok,
        !path_exists ==> (r matches Err(e) && e matches RepositoryError::Sanitization(m) && m@
            == missing_path_message(path@)),
{
    if path_exists {
        Ok(())
    } else {
        let msg = String::from_str("Repository path does not exist: ").concat(path);
        proof {
            assert(msg@ =~= missing_path_message(path@));
        }
        Err(RepositoryError::Sanitization(msg))
    }
}

/// One entry of a directory walk, by its path relative to the clone root.
/// Walks yield parents before their children, so a plan built in walk order
/// and then reversed removes children before parents.
#[derive(Clone, Debug)]
pub struct FsEntry {
    pub path: String,
    pub is_dir: bool,
    pub size: u64,
}

/// The paths among `entries`, in walk order, that the ignore patterns match.
/// The walk root itself (the empty relative path) is never a candidate.
pub open spec fn matched_paths(entries: Seq<FsEntry>, pats: Seq<Seq<char>>) -> Seq<Seq<char>>
    decreases entries.len(),
{
    if entries.len() == 0 {
        Seq::<Seq<char>>::empty()
    } else {
        (if entries[0].path@.len() > 0 && ignored_path(pats, entries[0].path@) {
            seq![entries[0].path@]
        } else {
            Seq::<Seq<char>>::empty()
        }) + matched_paths(entries.skip(1), pats)
    }
}

/// The removal plan: the matched paths in reverse walk order, so children
/// are removed before their parents.
pub open spec fn removal_plan(entries: Seq<FsEntry>, pats: Seq<Seq<char>>) -> Seq<Seq<char>> {
    matched_paths(entries, pats).reverse()
}

/// Computes the removal plan for a walked clone: every entry whose relative
/// path matches the compiled ignore set, children before parents.
pub fn plan_removals(entries: &Vec<FsEntry>, set: &globset::GlobSet) -> (r: Vec<String>)
    ensures
        r.deep_view() == removal_plan(entries@, globset_patterns(*set)),
{
    let ghost pats = globset_patterns(*set);
    let mut matched: Vec<String> = Vec::new();
    let mut i: usize = 0;
    proof {
        assert(entries@.skip(0) =~= entries@);
        assert(matched.deep_view() + matched_paths(entries@, pats) =~= matched_paths(
            entries@,
            pats,
        ));
    }
    while i < entries.len()
        invariant
            i <= entries.len(),
            matched_paths(entries@, pats) == matched.deep_view() + matched_paths(
                entries@.skip(i as int),
                pats,
            ),
            pats == globset_patterns(*set),
        decreases entries.len() - i,
    {
        let ghost rest = entries@.skip(i as int);
        proof {
            assert(rest[0] == entries@[i as int]);
            assert(rest.skip(1) =~= entries@.skip(i + 1));
        }
        let entry = &entries[i];
        let ghost before = matched.deep_view();
        if entry.path.unicode_len() > 0 && should_ignore_path(set, entry.path.as_str()) {
            matched.push(entry.path.clone());
            proof {
                assert(matched.deep_view() =~= before + seq![entries@[i as int].path@]);
                assert(matched.deep_view() + matched_paths(entries@.skip(i + 1), pats)
                    =~= matched_paths(entries@, pats));
            }
        } else {
            proof {
                assert(matched_paths(rest, pats) =~= matched_paths(entries@.skip(i + 1), pats));
            }
        }
        i += 1;
    }
    proof {
        assert(entries@.skip(entries@.len() as int) =~= Seq::<FsEntry>::empty());
        assert(matched.deep_view() =~= matched.deep_view() + matched_paths(
            entries@.skip(entries@.len() as int),
            pats,
        ));
    }
    let total = matched.len();
    let mut plan: Vec<String> = Vec::new();
    let mut k: usize = total;
    while k > 0
        invariant
            k <= total,
            total == matched.len(),
            matched.deep_view() == matched_paths(entries@, pats),
            plan.len() == total - k,
            forall|j: int|
                0 <= j < plan.len() ==> plan.deep_view()[j] == matched.deep_view()[total - 1 - j],
        decreases k,
    {
        k -= 1;
        let ghost before = plan.deep_view();
        plan.push(matched[k].clone());
        proof {
            assert(matched.deep_view()[k as int] == matched@[k as int]@);
            assert(plan.deep_view() =~= before.push(matched@[k as int]@));
        }
    }
    proof {
        assert(plan.deep_view() =~= matched_paths(entries@, pats).reverse());
    }
    plan
}

/// Every matched entry is in the removal plan: after the plan is applied no
/// entry whose relative path the ignore set matches remains under the clone
/// root, whether it is a file or a directory.
pub proof fn lemma_plan_is_complete(entries: Seq<FsEntry>, pats: Seq<Seq<char>>, j: int)
    requires
        0 <= j < entries.len(),
        entries[j].path@.len() > 0,
        ignored_path(pats, entries[j].path@),
    ensures
        removal_plan(entries, pats).contains(entries[j].path@),
    decreases j,
{
    if j == 0 {
        assert(matched_paths(entries, pats)[0] == entries[0].path@);
    } else {
        lemma_plan_is_complete(entries.skip(1), pats, j - 1);
        let tail = matched_paths(entries.skip(1), pats);
        let i = choose|i: int| 0 <= i < tail.len() && tail[i] == entries[j].path@;
        let head = matched_paths(entries, pats);
        assert(entries.skip(1)[j - 1] == entries[j]);
        assert(head == (if entries[0].path@.len() > 0 && ignored_path(pats, entries[0].path@) {
            seq![entries[0].path@]
        } else {
            Seq::<Seq<char>>::empty()
        }) + tail);
        assert(head[head.len() - tail.len() + i] == entries[j].path@);
    }
    let m = matched_paths(entries, pats);
    let i = choose|i: int| 0 <= i < m.len() && m[i] == entries[j].path@;
    assert(m.reverse()[m.len() - 1 - i] == entries[j].path@);
}

/// Only matched entries are in the removal plan: sanitization removes
/// nothing that the ignore set does not match.
pub proof fn lemma_plan_is_sound(entries: Seq<FsEntry>, pats: Seq<Seq<char>>, p: Seq<char>)
    requires
        removal_plan(entries, pats).contains(p),
    ensures
        p.len() > 0,
        ignored_path(pats, p),
        exists|j: int| 0 <= j < entries.len() && entries[j].path@ == p,
    decreases entries.len(),
{
    let m = matched_paths(entries, pats);
    let r = m.reverse();
    let i = choose|i: int| 0 <= i < r.len() && r[i] == p;
    assert(m[m.len() - 1 - i] == p);
    lemma_matched_paths_sound(entries, pats, p);
}

/// Every path in `matched_paths` comes from a matched entry.
proof fn lemma_matched_paths_sound(entries: Seq<FsEntry>, pats: Seq<Seq<char>>, p: Seq<char>)
    requires
        matched_paths(entries, pats).contains(p),
    ensures
        p.len() > 0,
        ignored_path(pats, p),
        exists|j: int| 0 <= j < entries.len() && entries[j].path@ == p,
    decreases entries.len(),
{
    let m = matched_paths(entries, pats);
    let i = choose|i: int| 0 <= i < m.len() && m[i] == p;
    if entries[0].path@.len() > 0 && ignored_path(pats, entries[0].path@) {
        if i == 0 {
            assert(entries[0].path@ == p);
        } else {
            assert(matched_paths(entries.skip(1), pats)[i - 1] == p);
            lemma_matched_paths_sound(entries.skip(1), pats, p);
            let j = choose|j: int|
                0 <= j < entries.skip(1).len() && entries.skip(1)[j].path@ == p;
            assert(entries[j + 1].path@ == p);
        }
    } else {
        assert(matched_paths(entries.skip(1), pats)[i] == p);
        lemma_matched_paths_sound(entries.skip(1), pats, p);
        let j = choose|j: int| 0 <= j < entries.skip(1).len() && entries.skip(1)[j].path@ == p;
        assert(entries[j + 1].path@ == p);
    }
}

/// Whether a byte count is over the per-file ceiling of `max_mb` megabytes:
/// the size itself is bounded, so even one byte past the limit is over it.
pub open spec fn exceeds_size_limit(bytes: u64, max_mb: u64) -> bool {
    bytes > max_mb * BYTES_PER_MB
}

/// A byte count in megabytes, rounded up; how the size report states it.
pub open spec fn size_in_whole_mb(bytes: u64) -> u64 {
    ((bytes / BYTES_PER_MB) + (if bytes % BYTES_PER_MB > 0 {
        1u64
    } else {
        0u64
    })) as u64
}

/// Whether every file among the walked entries fits the per-file ceiling.
pub open spec fn all_files_within(entries: Seq<FsEntry>, max_mb: u64) -> bool {
    forall|j: int|
        0 <= j < entries.len() ==> (entries[j].is_dir || !exceeds_size_limit(
            #[trigger] entries[j].size,
            max_mb,
        ))
}

/// A byte count is over the ceiling exactly when its whole megabytes exceed
/// the limit or they meet it with bytes left over; this is how the check
/// computes the comparison without overflowing.
proof fn lemma_limit_by_parts(bytes: u64, max_mb: u64)
    ensures
        exceeds_size_limit(bytes, max_mb) == (bytes / BYTES_PER_MB > max_mb || (bytes / BYTES_PER_MB
            == max_mb && bytes % BYTES_PER_MB > 0)),
{
    vstd::arithmetic::div_mod::lemma_fundamental_div_mod(bytes as int, BYTES_PER_MB as int);
    vstd::arithmetic::div_mod::lemma_mod_bound(bytes as int, BYTES_PER_MB as int);
    vstd::arithmetic::div_mod::lemma_div_pos_is_pos(bytes as int, BYTES_PER_MB as int);
    let q = (bytes as int) / (BYTES_PER_MB as int);
    let r = (bytes as int) % (BYTES_PER_MB as int);
    assert((bytes as int > max_mb as int * (BYTES_PER_MB as int)) == (q > max_mb as int || (q
        == max_mb as int && r > 0))) by (nonlinear_arith)
        requires
            bytes as int == (BYTES_PER_MB as int) * q + r,
            0 <= r < BYTES_PER_MB as int,
            q >= 0,
            BYTES_PER_MB as int > 0,
    ;
}

/// The report for an oversized file: its path, its size and the limit.
pub open spec fn oversize_message(path: Seq<char>, mb: u64, max_mb: u64) -> Seq<char> {
    "File '"@ + path + "' exceeds maximum size: "@ + dec_str(mb as nat) + " MB > "@ + dec_str(
        max_mb as nat,
    ) + " MB"@
}

/// Builds the report for an oversized file.
fn build_oversize_message(path: &String, mb: u64, max_mb: u64) -> (r: String)
    ensures
        r@ == oversize_message(path@, mb, max_mb),
{
    let r = String::from_str("File '").concat(path.as_str()).concat(
        "' exceeds maximum size: ",
    ).concat(u64_to_string(mb).as_str()).concat(" MB > ").concat(
        u64_to_string(max_mb).as_str(),
    ).concat(" MB");
    proof {
        assert(r@ =~= oversize_message(path@, mb, max_mb));
    }
    r
}

/// Whether entry `j` is the first file over the ceiling: it is an oversized
/// file and every file before it fits.
pub open spec fn first_oversize(entries: Seq<FsEntry>, max_mb: u64, j: int) -> bool {
    &&& 0 <= j < entries.len()
    &&& !entries[j].is_dir
    &&& exceeds_size_limit(entries[j].size, max_mb)
    &&& all_files_within(entries.take(j), max_mb)
}

/// Validates the per-file size ceiling over the remaining entries.  The
/// ceiling bounds the byte size itself — a file even one byte over
/// `max_mb` megabytes is over it — and the report rounds the offender's
/// size up to whole megabytes.  Succeeds exactly when every file is at most
/// `max_mb` megabytes; otherwise fails hard with a sanitization error naming
/// the first oversized file, its size and the limit.
pub fn check_file_sizes(entries: &Vec<FsEntry>, max_mb: u64) -> (r: Result<(), RepositoryError>)
    ensures
        r is Ok <==> all_files_within(entries@, max_mb),
        r matches Err(e) ==> exists|j: int|
            #[trigger] first_oversize(entries@, max_mb, j) && (e matches
            RepositoryError::Sanitization(m) && m@ == oversize_message(
                entries@[j].path@,
                size_in_whole_mb(entries@[j].size),
                max_mb,
            )),
{
    let mut i: usize = 0;
    while i < entries.len()
        invariant
            i <= entries.len(),
            all_files_within(entries@.take(i as int), max_mb),
        decreases entries.len() - i,
    {
        let entry = &entries[i];
        if !entry.is_dir {
            let mb_floor = entry.size / BYTES_PER_MB;
            let remainder = entry.size % BYTES_PER_MB;
            proof {
                lemma_limit_by_parts(entry.size, max_mb);
            }
            if mb_floor > max_mb || (mb_floor == max_mb && remainder > 0) {
                proof {
                    vstd::arithmetic::div_mod::lemma_div_is_ordered(
                        entry.size as int,
                        u64::MAX as int,
                        BYTES_PER_MB as int,
                    );
                }
                let reported = if remainder > 0 {
                    mb_floor + 1
                } else {
                    mb_floor
                };
                let msg = build_oversize_message(&entry.path, reported, max_mb);
                proof {
                    assert(first_oversize(entries@, max_mb, i as int));
                    assert(!all_files_within(entries@, max_mb));
                }
                return Err(RepositoryError::Sanitization(msg));
            }
        }
        proof {
            assert(entries@.take(i + 1) =~= entries@.take(i as int).push(entries@[i as int]));
            assert(all_files_within(entries@.take(i + 1), max_mb));
        }
        i += 1;
    }
    proof {
        assert(entries@.take(entries@.len() as int) =~= entries@);
    }
    Ok(())
}

} // verus!
