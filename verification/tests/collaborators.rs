use wtm::add_worktree::{AddWorktreeState, InputStyle};
use wtm::app::App;
use wtm::commands::{workspace_summary_line, WorkspaceSummary};
use wtm::config::{quick_action_from_entry, QuickAction};
use wtm::context::{append_git_status, gather_workspace_context, WorkspaceContext};
use wtm::docker::{container_from_entry, describe_container, DockerContainer};
use wtm::git::WorktreeInfo;
use wtm::jira::{
    acli_outcome, cache_path, cached_tickets, fetch_tickets, lines_to_tickets, parse_acli_output,
    value_to_ticket, CacheStep, JiraTicket,
};
use wtm::size::TerminalSize;
use wtm::status::parse_status_output;

fn some(text: &str) -> Option<String> {
    Some(text.to_string())
}

#[test]
fn parse_acli_output_handles_json_array() {
    let output = r#"[
            {"key":"ABC-1","summary":"Build automation"},
            {"key":"ABC-2","summary":"Write docs"}
        ]"#;
    let tickets = parse_acli_output(output);
    assert_eq!(tickets.len(), 2);
    assert_eq!(tickets[0].key, "ABC-1");
    assert_eq!(tickets[0].summary, "Build automation");
}

#[test]
fn parse_acli_output_handles_nested_fields() {
    let output = r#"{"issues":[{"key":"ABC-3","fields":{"summary":"Nested summary"}}]}"#;
    let tickets = parse_acli_output(output);
    assert_eq!(tickets.len(), 1);
    assert_eq!(tickets[0].key, "ABC-3");
    assert_eq!(tickets[0].summary, "Nested summary");
}

#[test]
fn parse_acli_output_handles_plain_text() {
    let output = "ABC-4 implement endpoint";
    let tickets = parse_acli_output(output);
    assert_eq!(tickets.len(), 1);
    assert_eq!(tickets[0].key, "ABC-4");
    assert_eq!(tickets[0].summary, "implement endpoint");
}

#[test]
fn value_to_ticket_returns_empty_summary_when_missing() {
    let value: serde_json::Value = serde_json::from_str(r#"{"key": "ABC-5"}"#).unwrap();
    let ticket = value_to_ticket(&value).unwrap();
    assert_eq!(ticket.key, "ABC-5");
    assert_eq!(ticket.summary, "");
}

#[test]
fn value_to_ticket_needs_a_text_key() {
    let no_key: serde_json::Value = serde_json::from_str(r#"{"summary": "x"}"#).unwrap();
    assert!(value_to_ticket(&no_key).is_none());
    let number_key: serde_json::Value = serde_json::from_str(r#"{"key": 5}"#).unwrap();
    assert!(value_to_ticket(&number_key).is_none());
    let prefers_direct: serde_json::Value =
        serde_json::from_str(r#"{"key":"K","summary":"top","fields":{"summary":"nested"}}"#)
            .unwrap();
    assert_eq!(value_to_ticket(&prefers_direct).unwrap().summary, "top");
    let odd_summary: serde_json::Value =
        serde_json::from_str(r#"{"key":"K","summary":7,"fields":{"summary":"nested"}}"#).unwrap();
    assert_eq!(value_to_ticket(&odd_summary).unwrap().summary, "nested");
}

#[test]
fn parse_acli_output_falls_back_to_lines() {
    assert!(parse_acli_output("").is_empty());
    let other_json = parse_acli_output(r#"{"total": 0}"#);
    assert_eq!(other_json.len(), 1);
    assert_eq!(other_json[0].key, "{\"total\":");
    assert_eq!(other_json[0].summary, "0}");
    let skipped = parse_acli_output(r#"[{"key":"A-1"}, 3, {"nokey":true}]"#);
    assert_eq!(skipped.len(), 1);
    let text = lines_to_tickets("  ABC-1   many   spaces here \n\n\t\nXYZ-2\r\n");
    assert_eq!(text.len(), 2);
    assert_eq!(text[0].key, "ABC-1");
    assert_eq!(text[0].summary, "many spaces here");
    assert_eq!(text[1].key, "XYZ-2");
    assert_eq!(text[1].summary, "");
}

#[test]
fn ticket_fetching_falls_back_and_reports_both_errors() {
    let ticket = || vec![JiraTicket { key: "A-1".into(), summary: "s".into() }];
    assert_eq!(fetch_tickets(Ok(ticket()), Err("unused".into())).unwrap().len(), 1);
    assert_eq!(fetch_tickets(Err("new".into()), Ok(ticket())).unwrap()[0].key, "A-1");
    assert_eq!(
        fetch_tickets(Err("new".into()), Err("old".into())).unwrap_err(),
        "failed to fetch Jira tickets via acli: new (legacy fallback error: old)"
    );
    let ok = acli_outcome(true, "  A-2 two\n", "ignored", "acli failed: ").unwrap();
    assert_eq!(ok[0].summary, "two");
    assert_eq!(
        acli_outcome(false, "A-2 two", " denied \n", "acli failed: ").unwrap_err(),
        "acli failed: denied"
    );
    assert!(matches!(cached_tickets(None), CacheStep::Fetch));
    assert!(matches!(cached_tickets(Some(ticket())), CacheStep::Use(list) if list.len() == 1));
    assert_eq!(cache_path("/repo"), "/repo/.wtm/jira_cache.json");
    assert_eq!(ticket()[0].slug(), "A-1-s");
}

#[test]
fn parse_ps_output_extracts_name_and_status() {
    let web = container_from_entry(some("project-web-1"), some("web"), some("running"), some("healthy"));
    assert_eq!(web.service, "web");
    assert_eq!(web.name, "project-web-1");
    assert_eq!(web.status, "running (healthy)");
    let db = container_from_entry(some("project-db-1"), some("db"), some("exited"), some(""));
    assert_eq!(db.service, "db");
    assert_eq!(db.status, "exited");
}

#[test]
fn parse_ps_output_handles_missing_fields() {
    let orphan = container_from_entry(some("orphan"), None, some("running"), None);
    assert_eq!(orphan.service, "orphan");
    assert_eq!(orphan.status, "running");
    let empty_service = container_from_entry(some("n"), some(""), None, some("starting"));
    assert_eq!(empty_service.service, "n");
    assert_eq!(empty_service.status, "(starting)");
    let nothing = container_from_entry(None, None, None, None);
    assert_eq!(nothing.service, "unknown");
    assert_eq!(nothing.name, "");
    assert_eq!(nothing.status, "");
}

#[test]
fn containers_are_described_in_one_line() {
    let both = DockerContainer { service: "web".into(), name: "p-web-1".into(), status: "up".into() };
    assert_eq!(describe_container(&both), "web (p-web-1) \u{2014} up");
    let same = DockerContainer { service: "db".into(), name: "db".into(), status: "".into() };
    assert_eq!(describe_container(&same), "db \u{2014} unknown");
    let unnamed = DockerContainer { service: "".into(), name: "x".into(), status: "up".into() };
    assert_eq!(describe_container(&unnamed), "x \u{2014} up");
}

#[test]
fn load_quick_actions_filters_and_formats_entries() {
    let first = quick_action_from_entry(some(" Deploy "), some("deploy.sh"), some("command")).unwrap();
    assert_eq!(first.label, "Deploy");
    assert_eq!(first.command, "deploy.sh");
    let second = quick_action_from_entry(None, some("status.sh"), some("command")).unwrap();
    assert_eq!(second.label, "status.sh");
    assert_eq!(second.command, "status.sh");
    assert!(quick_action_from_entry(some("Not a command"), some("noop"), some("link")).is_none());
    assert!(quick_action_from_entry(some("x"), None, None).is_none());
    let untyped = quick_action_from_entry(some("   "), some("run"), None).unwrap();
    assert_eq!(untyped.label, "run");
}

fn worktree() -> WorktreeInfo {
    WorktreeInfo {
        path: "/repo/w".into(),
        head: some("0123456789abcdef"),
        branch: some("feature/x"),
        is_locked: true,
        is_prunable: false,
    }
}

#[test]
fn context_gathers_lines_and_errors() {
    let status = parse_status_output("# branch.upstream origin/main\n# branch.ab +2 -0\n? a\n");
    let containers = vec![DockerContainer {
        service: "web".into(),
        name: "web".into(),
        status: "running".into(),
    }];
    let context = gather_workspace_context(&worktree(), Ok(status), Ok(containers));
    assert_eq!(
        context.git,
        vec![
            "Path: /repo/w",
            "Branch: feature/x",
            "HEAD: 0123456",
            "Flags: locked",
            "Upstream: origin/main",
            "Ahead 2 \u{2022} Behind 0",
            "Changes \u{2014} staged: 0, unstaged: 0, untracked: 1, conflicts: 0",
        ]
    );
    assert_eq!(context.docker, vec!["web \u{2014} running"]);
    assert!(context.errors.is_empty());

    let mut bare = worktree();
    bare.branch = None;
    bare.head = some("abc");
    bare.is_locked = false;
    let failed = gather_workspace_context(&bare, Err("no git".into()), Err("no docker".into()));
    assert_eq!(failed.git, vec!["Path: /repo/w", "Branch: (detached)", "HEAD: abc"]);
    assert!(failed.docker.is_empty());
    assert_eq!(
        failed.errors,
        vec!["git status unavailable: no git", "docker compose unavailable: no docker"]
    );
    let empty = gather_workspace_context(&bare, Ok(parse_status_output("")), Ok(Vec::new()));
    assert_eq!(empty.docker, vec!["No docker compose services detected."]);
    assert_eq!(empty.git[3], "In sync with upstream");
    let mut context = WorkspaceContext::new();
    context.add_error("boom".to_string());
    append_git_status(&mut context, &parse_status_output("u x\n"));
    assert_eq!(context.errors, vec!["boom"]);
    assert_eq!(context.git.len(), 2);
}

#[test]
fn summary_line_lists_columns() {
    let summary = WorkspaceSummary::from_worktree(&worktree());
    assert_eq!(
        workspace_summary_line(&summary),
        "w | /repo/w | branch: feature/x | HEAD: 0123456 | locked"
    );
}

#[test]
fn form_status_line_tells_the_target() {
    let mut form = AddWorktreeState::from_lists(
        Vec::new(),
        vec!["main".to_string()],
        vec!["origin/feature/x".to_string()],
        InputStyle::Sanitized,
    );
    let none: Vec<String> = Vec::new();
    assert_eq!(
        form.status_line("/ws", &none),
        "[ADD] Branch: <branch> \u{21d2} /ws/worktree \u{2022} enter a branch name \u{2022} Enter: confirm \u{2022} Esc: cancel \u{2022} Tab: insert suggestion"
    );
    form.selection = Some(1);
    assert!(form.accept_selection());
    assert_eq!(
        form.status_line("/ws", &vec!["/ws/feature-x".to_string()]),
        "[ADD] Branch: feature-x \u{21d2} /ws/feature-x-1 \u{2022} upstream: origin/feature/x \u{2022} Enter: confirm \u{2022} Esc: cancel \u{2022} Tab: insert suggestion"
    );
    form.branch = "main".into();
    form.recompute_filters();
    assert!(form.status_line("/ws", &none).contains(" \u{2022} existing branch \u{2022} upstream"));
}

#[test]
fn help_text_lists_quick_actions() {
    let plain = App::new("/repo", Vec::new(), Vec::new(), TerminalSize::new(24, 80)).unwrap();
    let text = plain.help_text();
    assert!(text.starts_with("Navigation\n  \u{2191}/\u{2193}: switch worktree\n"));
    assert!(text.ends_with("\n  Esc: cancel"));
    assert_eq!(text.lines().count(), 22);
    assert_eq!(plain.status_text(), "q: quit \u{2022} a: add \u{2022} p: prune \u{2022} ?: help");
    let mut with = App::new(
        "/repo",
        Vec::new(),
        vec![QuickAction { label: "Deploy".into(), command: "deploy.sh".into() }],
        TerminalSize::new(24, 80),
    )
    .unwrap();
    assert!(with.help_text().ends_with("\n\nQuick actions:\n  Deploy \u{2014} deploy.sh"));
    with.set_status("busy".to_string());
    assert_eq!(with.status_text(), "busy");
}
