use wtm::config::QuickAction;
use wtm::git::WorktreeInfo;
use wtm::session::SpawnFailure;
use wtm::size::TerminalSize;
use wtm::workspace::{
    action_tab_title, next_index, plain_tab_title, QuickActionState, RemoveWorktreeState,
    WorkspaceState,
};

fn info(path: &str) -> WorktreeInfo {
    WorktreeInfo {
        path: path.to_string(),
        head: None,
        branch: Some("main".to_string()),
        is_locked: false,
        is_prunable: false,
    }
}

fn size() -> TerminalSize {
    TerminalSize::new(24, 80)
}

fn workspace_with(tabs: usize) -> (WorkspaceState, usize) {
    let mut next = 1;
    let mut ws = WorkspaceState::new(info("/repo/w"), size(), &mut next, Ok(())).unwrap();
    for _ in 1..tabs {
        ws.spawn_tab(&mut next, size(), Ok(())).unwrap();
    }
    (ws, next)
}

#[test]
fn workspace_quick_action_state_wraps_navigation() {
    let mut state = QuickActionState::default();
    state.selected = 0;
    state.move_up(5);
    assert_eq!(state.selected, 4);
    state.move_down(5);
    assert_eq!(state.selected, 0);
    state.selected = 10;
    state.clamp(3);
    assert_eq!(state.selected, 2);
}

#[test]
fn quick_action_state_handles_empty_lists() {
    let mut state = QuickActionState { selected: 3 };
    state.move_up(0);
    state.move_down(0);
    assert_eq!(state.selected, 3);
    state.clamp(0);
    assert_eq!(state.selected, 0);
    assert_eq!(next_index(usize::MAX, 4), 0);
    assert_eq!(next_index(6, 4), 3);
    assert_eq!(next_index(0, 1), 0);
}

#[test]
fn fresh_workspace_has_one_session_and_active_index_zero() {
    let mut next = 7;
    let ws = WorkspaceState::new(info("/repo/w"), size(), &mut next, Ok(())).unwrap();
    assert_eq!(ws.tabs_len(), 1);
    assert_eq!(ws.active_tab_index(), 0);
    assert_eq!(next, 8);
    assert_eq!(ws.tab_titles(), vec!["Tab 7"]);
    assert!(ws.has_tabs());
    let tab = ws.active_tab().unwrap();
    assert_eq!(tab.id(), 7);
    assert_eq!(tab.size(), size());
    assert!(!tab.is_terminated());
}

#[test]
fn failed_spawn_registers_nothing() {
    let mut next = 1;
    let failure = SpawnFailure { reason: "no pty".to_string() };
    let out = WorkspaceState::new(info("/repo/w"), size(), &mut next, Err(failure));
    assert_eq!(out.unwrap_err().reason, "no pty");
    assert_eq!(next, 2);

    let (mut ws, mut next) = workspace_with(1);
    let out = ws.spawn_tab(&mut next, size(), Err(SpawnFailure { reason: "full".to_string() }));
    assert_eq!(out.unwrap_err().reason, "full");
    assert_eq!(ws.tabs_len(), 1);
    assert_eq!(next, 3);
}

#[test]
fn spawned_tab_becomes_active() {
    let (mut ws, mut next) = workspace_with(2);
    assert_eq!(ws.active_tab_index(), 1);
    let action = QuickAction { label: "Deploy".to_string(), command: "deploy.sh".to_string() };
    ws.spawn_quick_action_tab(&mut next, size(), &action, Ok(())).unwrap();
    assert_eq!(ws.active_tab_index(), 2);
    assert_eq!(ws.tab_titles(), vec!["Tab 1", "Tab 2", "Deploy (3)"]);
    assert_eq!(plain_tab_title(120), "Tab 120");
    assert_eq!(action_tab_title("x", 0), "x (0)");
}

#[test]
fn ensure_tab_only_fills_an_empty_workspace() {
    let (mut ws, mut next) = workspace_with(1);
    ws.ensure_tab(&mut next, size(), Err(SpawnFailure { reason: "unused".to_string() })).unwrap();
    assert_eq!(ws.tabs_len(), 1);
    assert_eq!(next, 2);
}

#[test]
fn close_active_tab_keeps_the_last_session() {
    let (mut ws, _) = workspace_with(1);
    assert!(ws.close_active_tab().is_none());
    assert_eq!(ws.tabs_len(), 1);
    assert_eq!(ws.active_tab_index(), 0);
}

#[test]
fn close_active_tab_removes_and_clamps() {
    let (mut ws, _) = workspace_with(3);
    let closed = ws.close_active_tab().unwrap();
    assert_eq!(closed.id(), 3);
    assert_eq!(ws.tabs_len(), 2);
    assert_eq!(ws.active_tab_index(), 1);
    ws.set_active_tab(0);
    let closed = ws.close_active_tab().unwrap();
    assert_eq!(closed.id(), 1);
    assert_eq!(ws.tabs_len(), 1);
    assert_eq!(ws.active_tab_index(), 0);
    assert_eq!(ws.tab_titles(), vec!["Tab 2"]);
}

#[test]
fn tab_selection_is_circular() {
    let (mut ws, _) = workspace_with(3);
    ws.select_next_tab();
    assert_eq!(ws.active_tab_index(), 0);
    ws.select_prev_tab();
    assert_eq!(ws.active_tab_index(), 2);
    ws.select_prev_tab();
    assert_eq!(ws.active_tab_index(), 1);
    ws.set_active_tab(9);
    assert_eq!(ws.active_tab_index(), 1);
}

#[test]
fn reap_removes_only_terminated_sessions() {
    let (mut ws, _) = workspace_with(4);
    ws.record_exit(2, true);
    ws.record_exit(4, false);
    ws.record_exit(99, true);
    let finished = ws.reap_finished_children();
    assert_eq!(finished.len(), 2);
    assert_eq!(finished[0].id(), 2);
    assert_eq!(finished[1].id(), 4);
    assert!(finished.iter().all(|tab| tab.is_terminated()));
    assert_eq!(ws.tab_titles(), vec!["Tab 1", "Tab 3"]);
    assert_eq!(ws.active_tab_index(), 1);
    assert!(ws.reap_finished_children().is_empty());
    assert_eq!(ws.tabs_len(), 2);
}

#[test]
fn reap_may_leave_the_workspace_empty() {
    let (mut ws, _) = workspace_with(2);
    ws.record_exit(1, true);
    ws.record_exit(2, true);
    assert_eq!(ws.reap_finished_children().len(), 2);
    assert_eq!(ws.tabs_len(), 0);
    assert!(!ws.has_tabs());
    assert!(ws.active_tab().is_none());
    ws.select_next_tab();
    ws.select_prev_tab();
    assert!(ws.close_active_tab().is_none());
    assert!(ws.resize_active(TerminalSize::new(1, 1)).is_none());
}

#[test]
fn resize_active_asks_once_per_size() {
    let (mut ws, _) = workspace_with(1);
    let other = TerminalSize::new(30, 100);
    let request = ws.resize_active(other).unwrap();
    assert_eq!((request.rows, request.cols), (30, 100));
    assert_eq!((request.pixel_width, request.pixel_height), (0, 0));
    assert!(ws.resize_active(other).is_none());
    assert_eq!(ws.active_tab().unwrap().size(), other);
}

#[test]
fn sidebar_label_marks_the_workspace() {
    let (mut ws, _) = workspace_with(1);
    assert_eq!(ws.sidebar_label("/repo"), "w [main]");
    assert_eq!(ws.sidebar_label("/repo/w/"), "w [main] (primary)");
    let mut locked = info("/repo/w");
    locked.is_locked = true;
    locked.branch = None;
    ws.update_info(locked);
    assert_eq!(ws.sidebar_label("/repo"), "w (locked)");
    let mut both = info("/repo/w");
    both.is_locked = true;
    both.is_prunable = true;
    ws.update_info(both);
    assert_eq!(ws.sidebar_label("/repo"), "w [main] (prunable)");
    assert_eq!(ws.display_path(), "/repo/w");
    assert_eq!(ws.path(), "/repo/w");
    assert!(ws.info().is_prunable);
    assert!(!ws.is_primary("/repo"));
}

#[test]
fn removal_state_toggles_force() {
    let mut state = RemoveWorktreeState::new("/repo/w");
    assert_eq!(state.target(), "/repo/w");
    assert!(!state.force());
    state.toggle_force();
    assert!(state.force());
    state.toggle_force();
    assert!(!state.force());
}
