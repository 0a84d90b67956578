use wtm::commands::{
    collect_workspace_telemetry, delete_workspace, format_flags, list_workspaces,
    locate_workspace_summary, matches_selector, normalise_workspace_path, resolve_single_workspace,
    resolve_target_path, resolve_workspaces, select_error_message, text_before,
    workspace_telemetry, SelectError, TelemetryOptions, WorkspaceSelector, WorkspaceSummary,
};
use wtm::completions::{
    branch_suggestions, collect_suggestions, filter_suggestions, format_for_bash, format_for_zsh,
    format_suggestions, CompletionSuggestion, SuggestionDomain, SuggestionShellFormat,
};
use wtm::git::WorktreeInfo;
use wtm::jira::JiraTicket;
use wtm::status::parse_status_output;

fn worktree(path: &str, branch: Option<&str>) -> WorktreeInfo {
    WorktreeInfo {
        path: path.to_string(),
        head: Some("0123456789abcdef".to_string()),
        branch: branch.map(|b| b.to_string()),
        is_locked: false,
        is_prunable: false,
    }
}

fn worktrees() -> Vec<WorktreeInfo> {
    vec![
        worktree("/repo", Some("main")),
        worktree("/repo/.wtm/workspaces/zeta", Some("feature/z")),
        worktree("/repo/.wtm/workspaces/alpha", Some("feature/a")),
        worktree("/elsewhere/alpha", None),
    ]
}

fn by_name(name: &str) -> WorkspaceSelector {
    WorkspaceSelector { name: Some(name.to_string()), branch: None, path: None }
}

const ROOT: &str = "/repo/.wtm/workspaces";

#[test]
fn selector_is_empty_without_parts() {
    let empty = WorkspaceSelector { name: None, branch: None, path: None };
    assert!(empty.is_empty());
    assert!(!by_name("x").is_empty());
}

#[test]
fn selector_parts_must_all_match() {
    let list = worktrees();
    assert!(matches_selector(&list[1], ROOT, &by_name("zeta")));
    assert!(!matches_selector(&list[1], ROOT, &by_name("alpha")));
    let both = WorkspaceSelector {
        name: Some("alpha".to_string()),
        branch: Some("feature/a".to_string()),
        path: Some("alpha".to_string()),
    };
    assert!(matches_selector(&list[2], ROOT, &both));
    assert!(!matches_selector(&list[3], ROOT, &both));
    let by_path = WorkspaceSelector {
        name: None,
        branch: None,
        path: Some("/elsewhere/alpha/".to_string()),
    };
    assert!(matches_selector(&list[3], ROOT, &by_path));
    let everything = WorkspaceSelector { name: None, branch: None, path: None };
    assert!(matches_selector(&list[0], ROOT, &everything));
}

#[test]
fn resolved_workspaces_are_ordered_by_name() {
    let list = worktrees();
    let all = WorkspaceSelector { name: None, branch: None, path: None };
    let found = resolve_workspaces(&list, ROOT, &all).unwrap();
    let paths: Vec<&str> = found.iter().map(|w| w.path.as_str()).collect();
    assert_eq!(
        paths,
        vec![
            "/repo/.wtm/workspaces/alpha",
            "/elsewhere/alpha",
            "/repo",
            "/repo/.wtm/workspaces/zeta"
        ]
    );
    assert_eq!(resolve_workspaces(&list, ROOT, &by_name("nope")).err(), Some(SelectError::NoMatch));
    assert!(text_before("alpha", "repo"));
    assert!(text_before("a", "ab"));
    assert!(!text_before("b", "ab"));
    assert!(!text_before("same", "same"));
    assert!(text_before("", "a"));
}

#[test]
fn single_workspace_must_be_unique() {
    let list = worktrees();
    assert_eq!(resolve_single_workspace(&list, ROOT, &by_name("alpha")).err(), Some(SelectError::Ambiguous));
    assert_eq!(resolve_single_workspace(&list, ROOT, &by_name("none")).err(), Some(SelectError::NoMatch));
    let one = resolve_single_workspace(&list, ROOT, &by_name("zeta")).unwrap();
    assert_eq!(one.path, "/repo/.wtm/workspaces/zeta");
}

#[test]
fn delete_refuses_bad_targets() {
    let list = worktrees();
    let empty = WorkspaceSelector { name: None, branch: None, path: None };
    assert_eq!(delete_workspace(&list, "/repo", ROOT, &empty).err(), Some(SelectError::EmptySelector));
    assert_eq!(delete_workspace(&list, "/repo", ROOT, &by_name("x")).err(), Some(SelectError::NoMatch));
    assert_eq!(
        delete_workspace(&list, "/repo", ROOT, &by_name("alpha")).err(), Some(SelectError::Ambiguous));
    assert_eq!(delete_workspace(&list, "/repo", ROOT, &by_name("repo")).err(), Some(SelectError::Primary));
    let summary = delete_workspace(&list, "/repo", ROOT, &by_name("zeta")).unwrap();
    assert_eq!(summary.name, "zeta");
    assert_eq!(summary.path, "/repo/.wtm/workspaces/zeta");
    assert_eq!(summary.branch.as_deref(), Some("feature/z"));
}

#[test]
fn telemetry_covers_all_or_selected() {
    let list = worktrees();
    let empty = WorkspaceSelector { name: None, branch: None, path: None };
    let all = workspace_telemetry(&list, ROOT, &empty).unwrap();
    assert_eq!(all.len(), 4);
    assert_eq!(all[0].path, "/repo");
    let some = workspace_telemetry(&list, ROOT, &by_name("alpha")).unwrap();
    assert_eq!(some.len(), 2);
    assert_eq!(workspace_telemetry(&list, ROOT, &by_name("q")).err(), Some(SelectError::NoMatch));
}

#[test]
fn telemetry_keeps_only_what_was_asked_for() {
    let list = worktrees();
    let status = parse_status_output("? a\n");
    let both = collect_workspace_telemetry(
        &list[1],
        TelemetryOptions::default(),
        Ok(status.clone()),
        Err("denied".to_string()),
    );
    assert_eq!(both.summary.name, "zeta");
    assert_eq!(both.status.unwrap().untracked, 1);
    assert_eq!(both.status_error, None);
    assert_eq!(both.disk_usage_bytes, None);
    assert_eq!(both.disk_usage_error.as_deref(), Some("denied"));
    let none = collect_workspace_telemetry(
        &list[1],
        TelemetryOptions { include_status: false, include_disk_usage: false },
        Err("x".to_string()),
        Ok(9),
    );
    assert!(none.status.is_none() && none.status_error.is_none());
    assert!(none.disk_usage_bytes.is_none() && none.disk_usage_error.is_none());
    let size = collect_workspace_telemetry(
        &list[1],
        TelemetryOptions { include_status: false, include_disk_usage: true },
        Ok(status),
        Ok(4096),
    );
    assert_eq!(size.disk_usage_bytes, Some(4096));
}

#[test]
fn summaries_follow_the_worktrees() {
    let list = worktrees();
    let summaries = list_workspaces(&list);
    assert_eq!(summaries.len(), 4);
    assert_eq!(summaries[0].name, "repo");
    assert_eq!(summaries[3].branch, None);
    let one = WorkspaceSummary::from_worktree(&list[2]);
    assert_eq!(one.head.as_deref(), Some("0123456789abcdef"));
    assert_eq!(locate_workspace_summary(&list, "/repo", ".wtm/workspaces/zeta").unwrap().name, "zeta");
    assert_eq!(locate_workspace_summary(&list, "/repo", "/elsewhere/alpha").unwrap().name, "alpha");
    assert_eq!(locate_workspace_summary(&list, "/repo", "missing").err(), Some(SelectError::NotFound));
    assert_eq!(
        select_error_message(SelectError::NotFound, "/repo/missing"),
        "unable to locate workspace at /repo/missing"
    );
    assert_eq!(
        select_error_message(SelectError::NoMatch, ""),
        "No workspaces match the provided selector."
    );
}

#[test]
fn target_paths_are_normalised_or_found() {
    assert_eq!(normalise_workspace_path("x/y", ROOT), "/repo/.wtm/workspaces/x/y");
    assert_eq!(normalise_workspace_path("/abs", ROOT), "/abs");
    let taken = vec![format!("{}/feat", ROOT)];
    assert_eq!(resolve_target_path(ROOT, Some("here"), "feat", &taken), format!("{}/here", ROOT));
    assert_eq!(resolve_target_path(ROOT, None, "feat", &taken), format!("{}/feat-1", ROOT));
}

#[test]
fn flags_are_listed() {
    assert_eq!(format_flags(false, false), "none");
    assert_eq!(format_flags(true, false), "locked");
    assert_eq!(format_flags(false, true), "prunable");
    assert_eq!(format_flags(true, true), "locked, prunable");
}

fn tickets() -> Vec<JiraTicket> {
    vec![
        JiraTicket { key: "PROJ-7".into(), summary: "Dynamic branch".into() },
        JiraTicket { key: "PROJ-7".into(), summary: "Dynamic branch".into() },
    ]
}

#[test]
fn branch_suggestions_are_unique_by_value() {
    let locals = vec!["feature/example".to_string(), "PROJ-7-Dynamic-branch".to_string()];
    let remotes = vec![
        "origin/feature/widget".to_string(),
        "origin".to_string(),
        "upstream/feature-widget".to_string(),
        "origin/plain".to_string(),
    ];
    let all = branch_suggestions(&tickets(), &locals, &remotes);
    let values: Vec<&str> = all.iter().map(|s| s.value.as_str()).collect();
    assert_eq!(values, vec!["PROJ-7-Dynamic-branch", "feature/example", "feature-widget", "plain"]);
    assert_eq!(all[0].source.as_deref(), Some("ticket"));
    assert_eq!(all[0].description.as_deref(), Some("PROJ-7 Dynamic branch"));
    assert_eq!(all[1].source.as_deref(), Some("local"));
    assert_eq!(all[1].description.as_deref(), Some("local branch"));
    assert_eq!(all[2].source.as_deref(), Some("remote:origin"));
    assert_eq!(all[2].upstream.as_deref(), Some("origin/feature/widget"));
    assert_eq!(
        all[2].description.as_deref(),
        Some("remote branch origin/feature/widget \u{21d2} feature-widget")
    );
    assert_eq!(all[3].description.as_deref(), Some("remote branch origin/plain"));
    let same = collect_suggestions(SuggestionDomain::Branches, &tickets(), &locals, &remotes);
    assert_eq!(same.len(), 4);
}

#[test]
fn suggestions_are_filtered_and_formatted() {
    let list = vec![
        CompletionSuggestion {
            value: "feature-widget".into(),
            description: Some("remote branch".into()),
            upstream: Some("Origin/feature/widget".into()),
            source: None,
        },
        CompletionSuggestion { value: "main".into(), description: None, upstream: None, source: None },
    ];
    assert_eq!(filter_suggestions(&list, None).len(), 2);
    assert_eq!(filter_suggestions(&list, Some("ORIGIN")).len(), 1);
    assert_eq!(filter_suggestions(&list, Some("REMOTE"))[0].value, "feature-widget");
    assert_eq!(filter_suggestions(&list, Some("zzz")).len(), 0);
    assert_eq!(format_for_bash(&list[0]), "feature-widget\tremote branch");
    assert_eq!(format_for_zsh(&list[0]), "feature-widget:remote branch");
    assert_eq!(format_for_bash(&list[1]), "main");
    assert_eq!(format_suggestions(&list, None, None), vec!["feature-widget", "main"]);
    assert_eq!(
        format_suggestions(&list, Some("ma"), Some(SuggestionShellFormat::Zsh)),
        vec!["main"]
    );
    assert_eq!(
        format_suggestions(&list, Some("widget"), Some(SuggestionShellFormat::Bash)),
        vec!["feature-widget\tremote branch"]
    );
}
