use wtm::add_worktree::{split_remote_branch, AddWorktreeState, InputStyle, Suggestion};
use wtm::jira::JiraTicket;
use wtm::paths::branch_dir_name;
use wtm::workspace::QuickActionState;

fn sample_state() -> AddWorktreeState {
    let tickets = vec![JiraTicket {
        key: "PROJ-1".into(),
        summary: "Implement feature".into(),
    }];
    let local_branches = vec!["feature/local".into()];
    let remote_branches = vec!["origin/feature/widget".into()];
    AddWorktreeState::from_lists(tickets, local_branches, remote_branches, InputStyle::Verbatim)
}

#[test]
fn app_split_remote_branch_extracts_remote_and_branch() {
    let result = split_remote_branch("origin/feature/foo");
    assert_eq!(result, Some(("origin".into(), "feature/foo".into())));
}

#[test]
fn app_split_remote_branch_returns_none_without_branch() {
    assert_eq!(split_remote_branch("origin"), None);
    assert_eq!(split_remote_branch("origin/"), None);
}

#[test]
fn app_suggestion_matches_ticket_fields() {
    let ticket = JiraTicket {
        key: "ABC-42".into(),
        summary: "Improve performance".into(),
    };
    let suggestion = Suggestion::Ticket(ticket);
    assert!(suggestion.matches("abc"));
    assert!(suggestion.matches("performance"));
}

#[test]
fn app_suggestion_matches_remote_branch_components() {
    let suggestion = Suggestion::RemoteBranch {
        remote: "origin".into(),
        branch: "feature/widget".into(),
        upstream: "origin/feature/widget".into(),
    };
    assert!(suggestion.matches("origin"));
    assert!(suggestion.matches("widget"));
    assert!(suggestion.matches("origin/feature"));
}

#[test]
fn app_accept_selection_for_remote_branch_sets_upstream() {
    let mut state = sample_state();
    state.selection = Some(2);
    assert!(state.accept_selection());
    assert_eq!(state.branch_trimmed(), "feature/widget");
    assert_eq!(state.branch_upstream(), Some("origin/feature/widget"));
}

#[test]
fn app_accept_selection_for_ticket_generates_slug() {
    let mut state = sample_state();
    state.selection = Some(0);
    assert!(state.accept_selection());
    let expected = branch_dir_name("PROJ-1 Implement feature");
    assert_eq!(state.branch_trimmed(), expected);
    assert_eq!(state.branch_upstream(), None);
}

#[test]
fn app_recompute_filters_filters_by_query() {
    let mut state = sample_state();
    state.branch = "widget".into();
    state.recompute_filters();
    assert_eq!(state.filtered.len(), 1);
    state.selection = Some(0);
    assert!(state.accept_selection());
    assert_eq!(state.branch_trimmed(), "feature/widget");
}

#[test]
fn app_toggle_overlay_disables_when_no_results() {
    let mut state = sample_state();
    state.suggestions.clear();
    state.filtered.clear();
    state.show_overlay = true;
    state.toggle_overlay();
    assert!(!state.overlay_visible());
}

#[test]
fn app_backspace_clears_branch_upstream() {
    let mut state = sample_state();
    state.selection = Some(2);
    assert!(state.accept_selection());
    assert!(state.branch_upstream().is_some());
    state.backspace();
    assert!(state.branch_upstream().is_none());
}

#[test]
fn app_move_selection_wraps_around() {
    let mut state = sample_state();
    state
        .suggestions
        .push(Suggestion::LocalBranch("feature/extra".into()));
    state.filtered = vec![0, 1, 2, 3];
    state.selection = Some(3);
    state.move_selection_down();
    assert_eq!(state.selected_filtered_index(), Some(0));
    state.move_selection_up();
    assert_eq!(state.selected_filtered_index(), Some(3));
}

#[test]
fn app_branch_exists_detects_local_match() {
    let mut state = sample_state();
    state.branch = "feature/local".into();
    state.recompute_filters();
    assert!(state.branch_exists());
}

#[test]
fn app_quick_action_state_wraps_navigation() {
    let mut state = QuickActionState::default();
    state.selected = 0;
    state.move_up(5);
    assert_eq!(state.selected, 4);
    state.move_down(5);
    assert_eq!(state.selected, 0);
    state.selected = 10;
    state.clamp(3);
    assert_eq!(state.selected, 2);
}
