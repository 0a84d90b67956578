use wtm::git::{
    add_worktree, find_repo_root, finalize_worktree, is_flag_set, list_worktrees,
    parse_worktree_list, remove_worktree, run_git, Field, WorktreeInfo,
};
use wtm::status::{parse_branch_line, parse_status_output, status};

#[test]
fn parse_worktree_output_handles_multiple_entries() {
    let output = "\
worktree /repo/main
HEAD 1234567890abcdef
branch refs/heads/main

worktree /repo/feature
HEAD fedcba0987654321
branch refs/heads/feature
option locked

";
    let repo = "/repo";
    let worktrees = parse_worktree_list(output, repo);
    assert_eq!(worktrees.len(), 2);
    assert_eq!(worktrees[0].branch.as_deref(), Some("main"));
    assert!(!worktrees[0].is_locked);
    assert!(worktrees[1].is_locked);
}

#[test]
fn parse_worktree_output_closes_last_block_at_end() {
    let worktrees = parse_worktree_list("worktree sub/dir\nHEAD abc\nprunable gone", "/repo");
    assert_eq!(worktrees.len(), 1);
    assert_eq!(worktrees[0].path, "/repo/sub/dir");
    assert_eq!(worktrees[0].head.as_deref(), Some("abc"));
    assert_eq!(worktrees[0].branch, None);
    assert!(worktrees[0].is_prunable);
    assert!(!worktrees[0].is_locked);
}

#[test]
fn parse_worktree_output_skips_blocks_without_worktree() {
    let worktrees = parse_worktree_list("HEAD abc\n\n\nworktree /w\r\nbranch other\n", "/repo");
    assert_eq!(worktrees.len(), 1);
    assert_eq!(worktrees[0].path, "/w");
    assert_eq!(worktrees[0].branch.as_deref(), Some("other"));
    assert!(parse_worktree_list("", "/repo").is_empty());
}

#[test]
fn flags_are_found_as_keyword_or_option() {
    let block = vec![
        Field { key: "worktree".into(), value: "/w".into() },
        Field { key: "locked".into(), value: "".into() },
        Field { key: "option".into(), value: "prunable".into() },
    ];
    assert!(is_flag_set(&block, "locked"));
    assert!(is_flag_set(&block, "prunable"));
    assert!(!is_flag_set(&block, "bare"));
    let info = finalize_worktree(&block, "/repo").unwrap();
    assert!(info.is_locked && info.is_prunable);
    assert!(finalize_worktree(&Vec::new(), "/repo").is_none());
}

#[test]
fn worktree_name_is_last_component_or_path() {
    let info = WorktreeInfo {
        path: "/repo/feature".into(),
        head: None,
        branch: None,
        is_locked: false,
        is_prunable: false,
    };
    assert_eq!(info.name(), "feature");
    assert_eq!(info.path(), "/repo/feature");
    let root = WorktreeInfo { path: "/".into(), ..info.duplicate() };
    assert_eq!(root.name(), "/");
}

#[test]
fn run_git_errors_when_command_fails() {
    let err = run_git(false, String::new(), " fatal: not a git repository \n").unwrap_err();
    assert!(err.to_string().contains("git command failed"));
    assert_eq!(err, "git command failed: fatal: not a git repository");
    assert_eq!(run_git(true, "out".to_string(), "warn"), Ok("out".to_string()));
}

#[test]
fn find_repo_root_trims_and_rejects_empty() {
    assert_eq!(find_repo_root(Ok("/repo\n".to_string())), Ok("/repo".to_string()));
    assert_eq!(
        find_repo_root(Ok("  \n".to_string())),
        Err("git rev-parse returned an empty path".to_string())
    );
    assert_eq!(find_repo_root(Err("boom".to_string())), Err("boom".to_string()));
}

#[test]
fn list_worktrees_passes_errors_on() {
    assert_eq!(list_worktrees(Err("nope".to_string()), "/repo").unwrap_err(), "nope");
    let list = list_worktrees(Ok("worktree /repo\n".to_string()), "/repo").unwrap();
    assert_eq!(list.len(), 1);
}

#[test]
fn git_arguments_are_built_in_order() {
    assert_eq!(add_worktree("/w/x", Some("feat")), vec!["worktree", "add", "-b", "feat", "/w/x"]);
    assert_eq!(add_worktree("/w/x", None), vec!["worktree", "add", "/w/x"]);
    assert_eq!(remove_worktree("/w/x", true), vec!["worktree", "remove", "--force", "/w/x"]);
    assert_eq!(remove_worktree("/w/x", false), vec!["worktree", "remove", "/w/x"]);
}

#[test]
fn parse_status_output_tracks_branch_metadata() {
    let sample =
        "# branch.head feature/context\n# branch.upstream origin/main\n# branch.ab +2 -1\n";
    let summary = parse_status_output(sample);
    assert_eq!(summary.branch.as_deref(), Some("feature/context"));
    assert_eq!(summary.upstream.as_deref(), Some("origin/main"));
    assert_eq!(summary.ahead, 2);
    assert_eq!(summary.behind, 1);
}

#[test]
fn parse_status_output_counts_file_states() {
    let sample = "\
# branch.head main\n\
1 M. N... 100644 100644 100644 abcdef1234567890abcdef1234567890abcdef12 file1\n\
1 .M N... 100644 100644 100644 abcdef1234567890abcdef1234567890abcdef12 file2\n\
2 AA N... 100644 100644 100644 100644 abcdef1234567890abcdef1234567890abcdef12 file3\n\
? new_file\n\
u UU N... 100644 100644 100644 100644 abcdef1234567890abcdef1234567890abcdef12 file4\n";
    let summary = parse_status_output(sample);
    assert_eq!(summary.staged, 2);
    assert_eq!(summary.unstaged, 2);
    assert_eq!(summary.untracked, 1);
    assert_eq!(summary.conflicts, 1);
}

#[test]
fn parse_branch_line_reads_counts_leniently() {
    let mut summary = parse_status_output("");
    parse_branch_line("branch.ab ++7 -x", &mut summary);
    assert_eq!(summary.ahead, 7);
    assert_eq!(summary.behind, 0);
    parse_branch_line("branch.ab +4294967296 -+3", &mut summary);
    assert_eq!(summary.ahead, 0);
    assert_eq!(summary.behind, 3);
    parse_branch_line("branch.ab +5", &mut summary);
    assert_eq!(summary.ahead, 5);
    assert_eq!(summary.behind, 3);
    parse_branch_line("branch.head", &mut summary);
    assert_eq!(summary.branch, None);
    parse_branch_line("branch.oid abc", &mut summary);
    assert_eq!(summary.ahead, 5);
}

#[test]
fn status_passes_errors_on() {
    assert_eq!(status(Err("no git".to_string())).unwrap_err(), "no git");
    let summary = status(Ok("? a\n? b\n1 .x\n1\n".to_string())).unwrap();
    assert_eq!(summary.untracked, 2);
    assert_eq!(summary.staged, 0);
    assert_eq!(summary.unstaged, 1);
}
