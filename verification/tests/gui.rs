use wtm::commands::{
    attach_workspace, create_workspace, is_occupied, move_workspace, PlanError, SelectError,
    WorkspaceSelector,
};
use wtm::git::WorktreeInfo;
use wtm::gui::{
    screen_to_string, spawn_quick_command, GuiForms, StatusKind, StatusMessage, WorkspaceAction,
};
use wtm::title::{parse_hundredths, parse_process_line, parse_process_table};

#[test]
fn create_worktree_rejects_empty_branch() {
    let mut gui = GuiForms::new();
    assert!(gui.create_worktree().is_none());
    let status = gui.status.expect("status set");
    assert!(status.text.contains("Enter a branch name"));
    assert!(matches!(status.kind, StatusKind::Error));
}

#[test]
fn create_worktree_invokes_backend_and_resets_state() {
    let mut gui = GuiForms::new();
    gui.new_branch = "feature/test".into();
    gui.pending_removal = Some("/tmp/other".into());
    let request = gui.create_worktree().unwrap();
    assert_eq!(request.branch, "feature/test");
    assert_eq!(request.dir_name, "feature-test");
    assert!(gui.status.is_none());
    gui.worktree_created(".wtm/workspaces/feature-test", Ok(()));
    assert!(matches!(gui.status.as_ref().map(|s| &s.kind), Some(StatusKind::Info)));
    assert_eq!(gui.status.as_ref().unwrap().text, "Created worktree at .wtm/workspaces/feature-test");
    assert!(gui.new_branch.is_empty());
    assert!(gui.pending_removal.is_none());
    gui.new_branch = " x ".into();
    gui.worktree_created("/p", Err("exists".to_string()));
    assert_eq!(gui.status.as_ref().unwrap().text, "Failed to create worktree: exists");
    assert!(matches!(gui.status.as_ref().unwrap().kind, StatusKind::Error));
    assert_eq!(gui.new_branch, " x ");
}

#[test]
fn handle_workspace_actions_update_state() {
    let mut gui = GuiForms::new();
    gui.pending_removal = Some("/tmp/worktree".into());
    gui.status = None;
    assert!(gui.handle_workspace_action(WorkspaceAction::CancelRemoval, 2).is_none());
    assert!(gui.pending_removal.is_none());
    assert!(gui.status.as_ref().map(|s| s.text == "Cancelled removal").unwrap_or(false));

    gui.handle_workspace_action(WorkspaceAction::StageRemoval("/w/a".into(), "a".into()), 2);
    assert_eq!(gui.pending_removal.as_deref(), Some("/w/a"));
    assert_eq!(gui.status.as_ref().unwrap().text, "Confirm removal of a");
    gui.handle_workspace_action(WorkspaceAction::Select(5), 2);
    assert_eq!(gui.selected_workspace, 0);
    assert!(gui.pending_removal.is_some());
    gui.handle_workspace_action(WorkspaceAction::Select(1), 2);
    assert_eq!(gui.selected_workspace, 1);
    assert!(gui.pending_removal.is_none());
    gui.force_remove = true;
    let request = gui
        .handle_workspace_action(WorkspaceAction::ConfirmRemoval("/w/a".into()), 2)
        .unwrap();
    assert_eq!(request.path, "/w/a");
    assert!(request.force);
    assert_eq!(gui.remove_worktree("/w/b").path, "/w/b");
    gui.pending_removal = Some("/w/a".into());
    gui.worktree_removed("/w/a", Err("dirty".to_string()));
    assert_eq!(gui.status.as_ref().unwrap().text, "Failed to remove worktree: dirty");
    assert!(gui.pending_removal.is_some());
    gui.worktree_removed("/w/a", Ok(()));
    assert_eq!(gui.status.as_ref().unwrap().text, "Removed worktree /w/a");
    assert!(gui.pending_removal.is_none());
    gui.selected_workspace = 4;
    gui.pending_removal = Some("/gone".into());
    gui.sync_workspaces(2, false);
    assert_eq!(gui.selected_workspace, 1);
    assert!(gui.pending_removal.is_none());
    gui.sync_workspaces(0, true);
    assert_eq!(gui.selected_workspace, 0);
}

#[test]
fn run_quick_action_records_backend_invocation() {
    let mut gui = GuiForms::new();
    assert_eq!(spawn_quick_command("echo ok"), Ok(()));
    gui.quick_action_started("Deploy", Ok(()));
    assert!(matches!(gui.status.as_ref().map(|s| &s.kind), Some(StatusKind::Info)));
    assert_eq!(gui.status.as_ref().unwrap().text, "Started `Deploy`");
    assert_eq!(spawn_quick_command("  \t"), Err("quick action command is empty".to_string()));
    gui.quick_action_started("Deploy", Err("quick action command is empty".to_string()));
    assert_eq!(
        gui.status.as_ref().unwrap().text,
        "Failed to start `Deploy`: quick action command is empty"
    );
    assert!(matches!(StatusMessage::info("x".to_string()).kind, StatusKind::Info));
    assert!(matches!(StatusMessage::error("x".to_string()).kind, StatusKind::Error));
}

#[test]
fn screen_text_drops_trailing_spaces() {
    assert_eq!(screen_to_string("ab  \n  cd \n\n x"), "ab\n  cd\n\n x");
    assert_eq!(screen_to_string("   "), "");
    assert_eq!(screen_to_string(""), "");
    assert_eq!(screen_to_string("a\t \n"), "a\t");
}

#[test]
fn workspace_create_sanitizes_branch_name() {
    let none: Vec<String> = Vec::new();
    let plan = create_workspace("/repo/.wtm/workspaces", "feature branch", None, &none).unwrap();
    assert_eq!(plan.branch, "feature-branch");
    assert_eq!(plan.path, "/repo/.wtm/workspaces/feature-branch");
    assert_eq!(create_workspace("/ws", " / ", None, &none).err(), Some(PlanError::BranchRequired));
    let taken = vec!["/ws/x".to_string(), "/ws/here/".to_string()];
    assert_eq!(create_workspace("/ws", "x", None, &taken).unwrap().path, "/ws/x-1");
    assert_eq!(create_workspace("/ws", "x", Some("here"), &taken).err(), Some(PlanError::TargetExists));
    assert_eq!(create_workspace("/ws", "x", Some("/abs/new"), &taken).unwrap().path, "/abs/new");
    assert!(is_occupied(&taken, "/ws//here"));
    assert!(!is_occupied(&taken, "/ws/there"));
}

#[test]
fn attach_keeps_the_branch_name() {
    let none: Vec<String> = Vec::new();
    let plan = attach_workspace("/ws", "  feature/x ", None, &none).unwrap();
    assert_eq!(plan.branch, "feature/x");
    assert_eq!(plan.path, "/ws/feature-x");
    assert_eq!(attach_workspace("/ws", "   ", None, &none).err(), Some(PlanError::BranchRequired));
    let taken = vec!["/ws/t".to_string()];
    assert_eq!(attach_workspace("/ws", "b", Some("t"), &taken).err(), Some(PlanError::TargetExists));
}

#[test]
fn move_checks_source_and_destination() {
    let worktree = |path: &str| WorktreeInfo {
        path: path.to_string(),
        head: None,
        branch: None,
        is_locked: false,
        is_prunable: false,
    };
    let list = vec![worktree("/repo"), worktree("/ws/a"), worktree("/ws/b")];
    let by = |name: &str| WorkspaceSelector { name: Some(name.to_string()), branch: None, path: None };
    let taken = vec!["/ws/a".to_string(), "/ws/b".to_string()];
    let (summary, target) = move_workspace(&list, "/repo", "/ws", &by("a"), "c", &taken).unwrap();
    assert_eq!(summary.path, "/ws/a");
    assert_eq!(target, "/ws/c");
    assert_eq!(
        move_workspace(&list, "/repo", "/ws", &by("a"), "b", &taken).err(),
        Some(PlanError::TargetExists)
    );
    assert_eq!(
        move_workspace(&list, "/repo", "/ws", &by("repo"), "c", &taken).err(),
        Some(PlanError::Select(SelectError::Primary))
    );
    assert_eq!(
        move_workspace(&list, "/repo", "/ws", &by("zz"), "c", &taken).err(),
        Some(PlanError::Select(SelectError::NoMatch))
    );
    let empty = WorkspaceSelector { name: None, branch: None, path: None };
    assert_eq!(
        move_workspace(&list, "/repo", "/ws", &empty, "c", &taken).err(),
        Some(PlanError::Select(SelectError::EmptySelector))
    );
}

#[test]
fn process_listing_is_read_line_by_line() {
    let table = parse_process_table(
        "    1     0 Ss    0.0 /sbin/init\n  812     1 R+   12.5 cargo build\nbad line\n 900 812 S 3 rustc\n 7 x S 1.0 y\n",
    );
    assert_eq!(table.len(), 3);
    assert_eq!((table[0].pid, table[0].parent, table[0].cpu, table[0].runnable), (1, 0, 0, false));
    assert_eq!(table[0].name, "/sbin/init");
    assert_eq!((table[1].pid, table[1].parent, table[1].cpu, table[1].runnable), (812, 1, 1250, true));
    assert_eq!(table[1].name, "cargo build");
    assert_eq!(table[2].cpu, 300);
    assert!(parse_process_line("1 2 R 0.5").is_none());
    assert_eq!(parse_hundredths("0.07"), Some(7));
    assert_eq!(parse_hundredths("99.999"), Some(9999));
    assert_eq!(parse_hundredths("7."), Some(700));
    assert_eq!(parse_hundredths("7.x5"), Some(705));
    assert_eq!(parse_hundredths(".5"), None);
    assert_eq!(parse_hundredths("42949672.96"), None);
    assert_eq!(parse_hundredths("42949672.95"), Some(4294967295));
}
