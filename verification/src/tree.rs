//! The tree renderer's verified half: the two listing commands run inside
//! the clone directory — a flat sorted file list and an indented hierarchy —
//! and the reading of their outcomes.  The subprocesses themselves are run
//! concurrently by the runtime, which hands back exit statuses and captured
//! output; the render fails as soon as either command does.

use vstd::prelude::*;

use crate::errors::RepositoryError;

verus! {

/// The shell command that lists every file of the clone, honouring the
/// configured ignore file, as a flat sorted listing.
pub open spec fn listing_command_text(rignore_file_path: Seq<char>) -> Seq<char> {
    "rg --files --hidden --no-ignore --ignore-file "@ + rignore_file_path
        + " --glob '!.git' | sort"@
}

/// Builds the flat-listing command for the configured ignore file.
pub fn listing_command(rignore_file_path: &str) -> (r: String)
    ensures
        r@ == listing_command_text(rignore_file_path@),
{
    let r = String::from_str("rg --files --hidden --no-ignore --ignore-file ").concat(
        rignore_file_path,
    ).concat(" --glob '!.git' | sort");
    proof {
        assert(r@ =~= listing_command_text(rignore_file_path@));
    }
    r
}

/// The shell command that renders the clone as an indented hierarchy: the
/// same file list, with each directory level turned into two spaces of
/// indentation before the entry's own name.
pub open spec fn hierarchy_command_text(rignore_file_path: Seq<char>) -> Seq<char> {
    "rg --files --hidden --no-ignore --ignore-file "@ + rignore_file_path
        + " --glob '!.git' | sort | sed -E 's|[^/]+/|  |g'"@
}

/// Builds the indented-hierarchy command for the configured ignore file.
pub fn hierarchy_command(rignore_file_path: &str) -> (r: String)
    ensures
        r@ == hierarchy_command_text(rignore_file_path@),
{
    let r = String::from_str("rg --files --hidden --no-ignore --ignore-file ").concat(
        rignore_file_path,
    ).concat(" --glob '!.git' | sort | sed -E 's|[^/]+/|  |g'");
    proof {
        assert(r@ =~= hierarchy_command_text(rignore_file_path@));
    }
    r
}

/// The report for a listing command that exited with a non-zero status.
pub open spec fn listing_failure_text(stderr: Seq<char>) -> Seq<char> {
    "Failed to generate repository tree: "@ + stderr
}

/// Reads the outcome of the listing command: on success the captured
/// standard output is the rendered tree; a non-zero exit is a rendering
/// error carrying the captured standard error.
pub fn listing_output(success: bool, stdout: String, stderr: &str) -> (r: Result<
    String,
    RepositoryError,
>)
    ensures
        success ==> (r matches Ok(t) && t == stdout),
        !success ==> (r matches Err(e) && e matches RepositoryError::Rendering(m) && m@
            == listing_failure_text(stderr@)),
{
    if success {
        Ok(stdout)
    } else {
        let msg = String::from_str("Failed to generate repository tree: ").concat(stderr);
        proof {
            assert(msg@ =~= listing_failure_text(stderr@));
        }
        Err(RepositoryError::Rendering(msg))
    }
}

/// Reads the outcomes of the two concurrent listing commands: both must
/// succeed for the render to succeed, and the first failing one — the flat
/// listing read before the hierarchy — decides the error.
pub fn render_outputs(
    flat_success: bool,
    flat_stdout: String,
    flat_stderr: &str,
    hierarchy_success: bool,
    hierarchy_stdout: String,
    hierarchy_stderr: &str,
) -> (r: Result<(String, String), RepositoryError>)
    ensures
        flat_success && hierarchy_success ==> (r matches Ok(t) && t.0 == flat_stdout && t.1
            == hierarchy_stdout),
        !flat_success ==> (r matches Err(e) && e matches RepositoryError::Rendering(m) && m@
            == listing_failure_text(flat_stderr@)),
        flat_success && !hierarchy_success ==> (r matches Err(e) && e matches
        RepositoryError::Rendering(m) && m@ == listing_failure_text(hierarchy_stderr@)),
{
    let flat = match listing_output(flat_success, flat_stdout, flat_stderr) {
        Ok(t) => t,
        Err(e) => {
            return Err(e);
        },
    };
    let hierarchy = match listing_output(hierarchy_success, hierarchy_stdout, hierarchy_stderr) {
        Ok(t) => t,
        Err(e) => {
            return Err(e);
        },
    };
    Ok((flat, hierarchy))
}

} // verus!
