use wtm::add_worktree::{split_remote_branch, AddWorktreeState, InputStyle, Suggestion};
use wtm::jira::JiraTicket;
use wtm::paths::branch_dir_name;

fn sample_state() -> AddWorktreeState {
    let tickets = vec![JiraTicket {
        key: "PROJ-1".into(),
        summary: "Implement feature".into(),
    }];
    let local_branches = vec!["feature/local".into()];
    let remote_branches = vec!["origin/feature/widget".into()];
    AddWorktreeState::from_lists(tickets, local_branches, remote_branches, InputStyle::Sanitized)
}

#[test]
fn add_worktree_split_remote_branch_extracts_remote_and_branch() {
    let result = split_remote_branch("origin/feature/foo");
    assert_eq!(result, Some(("origin".into(), "feature/foo".into())));
}

#[test]
fn add_worktree_split_remote_branch_returns_none_without_branch() {
    assert_eq!(split_remote_branch("origin"), None);
    assert_eq!(split_remote_branch("origin/"), None);
}

#[test]
fn add_worktree_suggestion_matches_ticket_fields() {
    let ticket = JiraTicket {
        key: "ABC-42".into(),
        summary: "Improve performance".into(),
    };
    let suggestion = Suggestion::Ticket(ticket);
    assert!(suggestion.matches("abc"));
    assert!(suggestion.matches("performance"));
}

#[test]
fn add_worktree_suggestion_matches_remote_branch_components() {
    let suggestion = Suggestion::RemoteBranch {
        remote: "origin".into(),
        branch: "feature/widget".into(),
        upstream: "origin/feature/widget".into(),
    };
    assert!(suggestion.matches("origin"));
    assert!(suggestion.matches("widget"));
    assert!(suggestion.matches("origin/feature"));
}

#[test]
fn add_worktree_accept_selection_for_remote_branch_sets_upstream() {
    let mut state = sample_state();
    state.selection = Some(2);
    assert!(state.accept_selection());
    assert_eq!(state.branch_trimmed(), "feature-widget");
    assert_eq!(state.branch_upstream(), Some("origin/feature/widget"));
}

#[test]
fn add_worktree_accept_selection_for_ticket_generates_slug() {
    let mut state = sample_state();
    state.selection = Some(0);
    assert!(state.accept_selection());
    let expected = branch_dir_name("PROJ-1 Implement feature");
    assert_eq!(state.branch_trimmed(), expected);
    assert_eq!(state.branch_upstream(), None);
}

#[test]
fn add_worktree_recompute_filters_filters_by_query() {
    let mut state = sample_state();
    state.branch = "widget".into();
    state.recompute_filters();
    assert_eq!(state.filtered.len(), 1);
    state.selection = Some(0);
    assert!(state.accept_selection());
    assert_eq!(state.branch_trimmed(), "feature-widget");
}

#[test]
fn add_worktree_toggle_overlay_disables_when_no_results() {
    let mut state = sample_state();
    state.suggestions.clear();
    state.filtered.clear();
    state.show_overlay = true;
    state.toggle_overlay();
    assert!(!state.overlay_visible());
}

#[test]
fn add_worktree_backspace_clears_branch_upstream() {
    let mut state = sample_state();
    state.selection = Some(2);
    assert!(state.accept_selection());
    assert!(state.branch_upstream().is_some());
    state.backspace();
    assert!(state.branch_upstream().is_none());
}

#[test]
fn add_worktree_move_selection_wraps_around() {
    let mut state = sample_state();
    state
        .suggestions
        .push(Suggestion::LocalBranch("feature/extra".into()));
    state.filtered = vec![0, 1, 2, 3];
    state.selection = Some(3);
    state.move_selection_down();
    assert_eq!(state.selected_filtered_index(), Some(0));
    state.move_selection_up();
    assert_eq!(state.selected_filtered_index(), Some(3));
}

#[test]
fn add_worktree_branch_exists_detects_local_match() {
    let mut state = sample_state();
    state.branch = "feature/local".into();
    state.recompute_filters();
    assert!(state.branch_exists());
}

#[test]
fn typed_characters_are_sanitized() {
    let mut state = sample_state();
    for c in "fe@t_x".chars() {
        state.push_char(c);
    }
    assert_eq!(state.branch, "fet_x");
    state.push_char('/');
    assert_eq!(state.branch, "fet_x");
    state.push_char('-');
    state.push_char('y');
    assert_eq!(state.branch, "fet_xy");
    state.branch = "a--b-".into();
    state.backspace();
    assert_eq!(state.branch, "a--b");
    assert_eq!(state.normalized_branch(), "a-b");
    assert_eq!(state.workspace_dir_name(), "a-b");
}

#[test]
fn verbatim_style_keeps_typed_characters() {
    let mut state = AddWorktreeState::from_lists(vec![], vec![], vec![], InputStyle::Verbatim);
    for c in "a/ b".chars() {
        state.push_char(c);
    }
    assert_eq!(state.branch, "a/ b");
    assert_eq!(state.branch_display(), "a/ b");
    assert!(!state.accept_selection());
}

#[test]
fn opened_form_lists_every_suggestion() {
    let state = sample_state();
    assert_eq!(state.suggestions.len(), 3);
    assert_eq!(state.filtered, vec![0, 1, 2]);
    assert_eq!(state.selected_filtered_index(), Some(0));
    assert!(state.overlay_visible());
    assert!(!state.branch_exists());
    assert_eq!(state.branch_display(), "<branch>");
    assert!(matches!(state.selected_suggestion(), Some(Suggestion::Ticket(_))));
}

#[test]
fn remote_references_without_branch_give_no_suggestion() {
    let state = AddWorktreeState::from_lists(
        vec![],
        vec![],
        vec!["origin".into(), "origin/".into(), "up/x".into()],
        InputStyle::Sanitized,
    );
    assert_eq!(state.suggestions.len(), 1);
}

#[test]
fn query_is_matched_without_regard_to_case() {
    let mut state = sample_state();
    state.branch = "  IMPLEMENT ".into();
    state.recompute_filters();
    assert_eq!(state.filtered, vec![0]);
    state.branch = "no-such-thing".into();
    state.selection = Some(2);
    state.recompute_filters();
    assert!(state.filtered.is_empty());
    assert_eq!(state.selected_filtered_index(), None);
    state.move_selection_down();
    assert_eq!(state.selected_filtered_index(), None);
    state.toggle_overlay();
    assert!(!state.overlay_visible());
}

#[test]
fn selection_is_clamped_into_the_matches() {
    let mut state = sample_state();
    state.selection = Some(9);
    state.recompute_filters();
    assert_eq!(state.selected_filtered_index(), Some(2));
    state.selection = Some(5);
    state.move_selection_down();
    assert_eq!(state.selected_filtered_index(), Some(0));
    state.selection = Some(7);
    state.move_selection_up();
    assert_eq!(state.selected_filtered_index(), Some(6));
}

#[test]
fn new_reports_what_failed_to_load() {
    let (state, warning) = AddWorktreeState::new(
        Err("no cache".to_string()),
        Ok(vec!["main".to_string()]),
        Err("offline".to_string()),
    );
    assert_eq!(state.suggestions.len(), 1);
    assert_eq!(
        warning.as_deref(),
        Some("Failed to load Jira cache: no cache | Failed to list remote branches: offline")
    );
    let (_, none) = AddWorktreeState::new(Ok(vec![]), Ok(vec![]), Ok(vec![]));
    assert_eq!(none, None);
    let (_, one) = AddWorktreeState::new(Ok(vec![]), Err("x".to_string()), Ok(vec![]));
    assert_eq!(one.as_deref(), Some("Failed to list git branches: x"));
}

#[test]
fn refresh_and_clear_rebuild_the_suggestions() {
    let mut state = sample_state();
    state.show_overlay = false;
    let count = state.refresh_data(
        vec![
            JiraTicket { key: "A-1".into(), summary: "x".into() },
            JiraTicket { key: "A-2".into(), summary: "y".into() },
        ],
        vec![],
        vec![],
    );
    assert_eq!(count, 2);
    assert_eq!(state.suggestions.len(), 2);
    assert!(state.overlay_visible());
    state.clear_cache();
    assert!(state.suggestions.is_empty());
    assert!(!state.overlay_visible());
    assert_eq!(state.selected_filtered_index(), None);
}

#[test]
fn target_preview_is_first_free_path() {
    let mut state = sample_state();
    state.branch = "feature/x".into();
    let taken = vec!["/ws/feature-x".to_string()];
    assert_eq!(state.target_preview("/ws", &taken), "/ws/feature-x-1");
    assert_eq!(state.target_preview("/ws", &Vec::new()), "/ws/feature-x");
}

#[test]
fn existing_branch_is_kept_verbatim() {
    let mut state = sample_state();
    state.branch = " feature/local ".into();
    state.recompute_filters();
    assert!(state.branch_exists());
    assert_eq!(state.normalized_branch(), "feature/local");
    assert_eq!(state.workspace_dir_name(), "feature-local");
}
