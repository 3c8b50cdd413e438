use code_lens::materialize::{materialize_actions, MatAction};
use code_lens::orchestrator::{
    clone_target_dir, get_or_create, next_stage, validate_target_branch, AnalyzeRepositoryDto,
    Repository, Stage,
};
use code_lens::tree::{hierarchy_command, listing_command, listing_output, render_outputs};
use code_lens::errors::RepositoryError;

fn request(name: &str) -> AnalyzeRepositoryDto {
    AnalyzeRepositoryDto {
        url: "https://example.com/owner/repo.git".to_string(),
        name: name.to_string(),
        owner: "owner".to_string(),
        branch: "main".to_string(),
        commit_sha: Some("abc123".to_string()),
        pr_target_branch: None,
    }
}

fn record(id: &str, name: &str) -> Repository {
    Repository {
        id: id.to_string(),
        name: name.to_string(),
        url: "https://example.com/owner/repo.git".to_string(),
        owner_id: "owner-id".to_string(),
        default_branch: "main".to_string(),
        last_commit_sha: "abc123".to_string(),
        created_at: 1000,
        updated_at: 1000,
    }
}

#[test]
fn rematerialization_removes_the_old_clone_first() {
    let repo = record("id-1", "repo");
    let plan = materialize_actions(&repo, true);
    assert_eq!(plan.len(), 6);
    assert_eq!(plan[0], MatAction::RemoveExisting);
    assert_eq!(plan[1], MatAction::CreateDir);
    assert_eq!(
        plan[2],
        MatAction::CloneRemote { url: "https://example.com/owner/repo.git".to_string() }
    );
    assert_eq!(plan[3], MatAction::SetBranch { branch: "main".to_string() });
    assert_eq!(plan[4], MatAction::CheckoutCommit { sha: "abc123".to_string() });
    assert_eq!(plan[5], MatAction::DetachHead { sha: "abc123".to_string() });
}

#[test]
fn first_materialization_skips_the_removal() {
    let repo = record("id-1", "repo");
    let plan = materialize_actions(&repo, false);
    assert_eq!(plan.len(), 5);
    assert_eq!(plan[0], MatAction::CreateDir);
    assert!(!plan.contains(&MatAction::RemoveExisting));
}

#[test]
fn clone_directory_is_keyed_by_repository_id() {
    assert_eq!(clone_target_dir("/srv/clones", "id-7"), "/srv/clones/id-7");
}

#[test]
fn second_analysis_of_a_name_reuses_the_record() {
    let existing = record("id-first", "repo");
    let (reused, must_save) = get_or_create(Some(existing.clone()), &request("repo"), "owner-id");
    assert!(!must_save);
    assert_eq!(reused.id, "id-first");
    assert_eq!(reused.created_at, existing.created_at);
}

#[test]
fn first_analysis_of_a_name_creates_a_record() {
    let (created, must_save) = get_or_create(None, &request("fresh"), "owner-9");
    assert!(must_save);
    assert_eq!(created.name, "fresh");
    assert_eq!(created.url, "https://example.com/owner/repo.git");
    assert_eq!(created.owner_id, "owner-9");
    assert_eq!(created.default_branch, "main");
    assert_eq!(created.last_commit_sha, "abc123");
    assert_eq!(created.id.len(), 36);
    assert_eq!(created.created_at, created.updated_at);
}

#[test]
fn two_creations_draw_distinct_ids() {
    let (a, _) = get_or_create(None, &request("one"), "owner");
    let (b, _) = get_or_create(None, &request("two"), "owner");
    assert_ne!(a.id, b.id);
}

#[test]
fn stages_run_in_order_and_abort_on_failure() {
    let mut s = Stage::FindOrCreate;
    s = next_stage(s, true);
    assert_eq!(s, Stage::Materialize);
    s = next_stage(s, true);
    assert_eq!(s, Stage::Sanitize);
    s = next_stage(s, true);
    assert_eq!(s, Stage::Render);
    s = next_stage(s, true);
    assert_eq!(s, Stage::Dispatch);
    s = next_stage(s, true);
    assert_eq!(s, Stage::Done);
    assert_eq!(next_stage(Stage::Sanitize, false), Stage::Failed);
}

#[test]
fn target_branch_rule_accepts_only_default_branches() {
    assert!(validate_target_branch("main"));
    assert!(validate_target_branch("master"));
    assert!(!validate_target_branch("develop"));
    assert!(!validate_target_branch(""));
}

#[test]
fn listing_command_names_the_ignore_file() {
    assert_eq!(
        listing_command("/etc/code-lens/.rignore"),
        "rg --files --hidden --no-ignore --ignore-file /etc/code-lens/.rignore --glob '!.git' | sort"
    );
}

#[test]
fn listing_success_returns_the_captured_output() {
    let tree = listing_output(true, "a.txt\nb.txt\n".to_string(), "").unwrap();
    assert_eq!(tree, "a.txt\nb.txt\n");
}

#[test]
fn listing_failure_is_a_rendering_error_with_the_stderr() {
    let err = listing_output(false, String::new(), "rg: not found").unwrap_err();
    match &err {
        RepositoryError::Rendering(m) => {
            assert_eq!(m, "Failed to generate repository tree: rg: not found");
        }
        other => panic!("unexpected error: {:?}", other),
    }
}

#[test]
fn hierarchy_command_indents_by_directory_level() {
    assert_eq!(
        hierarchy_command("/etc/code-lens/rignore"),
        "rg --files --hidden --no-ignore --ignore-file /etc/code-lens/rignore --glob '!.git' | sort | sed -E 's|[^/]+/|  |g'"
    );
}

#[test]
fn render_succeeds_only_when_both_listings_do() {
    let both = render_outputs(true, "flat\n".to_string(), "", true, "  deep\n".to_string(), "");
    assert_eq!(both.unwrap(), ("flat\n".to_string(), "  deep\n".to_string()));
    let flat_failed =
        render_outputs(false, String::new(), "rg: boom", true, "x".to_string(), "");
    match flat_failed.unwrap_err() {
        RepositoryError::Rendering(m) => {
            assert_eq!(m, "Failed to generate repository tree: rg: boom");
        }
        other => panic!("unexpected error: {:?}", other),
    }
    let hierarchy_failed =
        render_outputs(true, "x".to_string(), "", false, String::new(), "sed: boom");
    match hierarchy_failed.unwrap_err() {
        RepositoryError::Rendering(m) => {
            assert_eq!(m, "Failed to generate repository tree: sed: boom");
        }
        other => panic!("unexpected error: {:?}", other),
    }
}
