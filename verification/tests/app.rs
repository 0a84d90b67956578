use wtm::app::{App, Effect, Event, Mode, SuggestionData, WorktreeUpdate};
use wtm::config::QuickAction;
use wtm::git::WorktreeInfo;
use wtm::jira::JiraTicket;
use wtm::keymap::{KeyCode, KeyInput, KeyModifiers};
use wtm::session::SpawnFailure;
use wtm::size::TerminalSize;
use wtm::title::ProcessInfo;

fn update(path: &str) -> WorktreeUpdate {
    WorktreeUpdate {
        info: WorktreeInfo {
            path: path.to_string(),
            head: None,
            branch: Some("main".to_string()),
            is_locked: false,
            is_prunable: false,
        },
        started: Ok(()),
    }
}

fn failed(path: &str, reason: &str) -> WorktreeUpdate {
    WorktreeUpdate { started: Err(SpawnFailure { reason: reason.to_string() }), ..update(path) }
}

fn actions() -> Vec<QuickAction> {
    vec![
        QuickAction { label: "Deploy".to_string(), command: "deploy.sh".to_string() },
        QuickAction { label: "Status".to_string(), command: "git status".to_string() },
    ]
}

fn app() -> App {
    App::new(
        "/repo",
        vec![update("/repo"), update("/repo/.wtm/workspaces/feat")],
        actions(),
        TerminalSize::new(24, 80),
    )
    .unwrap()
}

fn key(code: KeyCode) -> KeyInput {
    KeyInput::new(code, KeyModifiers::none())
}

fn ch(c: char) -> KeyInput {
    key(KeyCode::Char(c))
}

fn ctrl(c: char) -> KeyInput {
    KeyInput::new(KeyCode::Char(c), KeyModifiers::control())
}

fn press(app: &mut App, input: KeyInput) -> Effect {
    app.handle_event(Event::Key(input))
}

fn nothing(effect: Effect) {
    assert!(matches!(effect, Effect::Nothing));
}

#[test]
fn new_app_opens_one_workspace_per_worktree() {
    let app = app();
    assert_eq!(app.workspaces().len(), 2);
    assert_eq!(app.selected_workspace(), 0);
    assert!(matches!(app.mode(), Mode::Navigation));
    assert!(!app.should_quit());
    assert_eq!(app.next_tab_id(), 3);
    assert_eq!(app.workspaces()[0].tab_titles(), vec!["Tab 1"]);
    assert_eq!(app.workspaces()[1].tab_titles(), vec!["Tab 2"]);
    assert_eq!(app.repo_root(), "/repo");
    assert_eq!(app.workspace_root(), "/repo/.wtm/workspaces");
    assert_eq!(app.status_message(), None);
    assert_eq!(app.quick_actions().len(), 2);
}

#[test]
fn new_app_fails_when_a_session_does_not_start() {
    let out = App::new(
        "/repo",
        vec![update("/repo"), failed("/repo/x", "no pty"), update("/repo/y")],
        Vec::new(),
        TerminalSize::new(24, 80),
    );
    assert_eq!(out.unwrap_err().reason, "no pty");
}

#[test]
fn navigation_moves_between_workspaces_and_tabs() {
    let mut app = app();
    nothing(press(&mut app, key(KeyCode::Up)));
    assert_eq!(app.selected_workspace(), 1);
    nothing(press(&mut app, key(KeyCode::Down)));
    assert_eq!(app.selected_workspace(), 0);
    nothing(press(&mut app, key(KeyCode::Down)));
    assert_eq!(app.selected_workspace(), 1);
    nothing(press(&mut app, key(KeyCode::Right)));
    nothing(press(&mut app, key(KeyCode::Left)));
    assert_eq!(app.workspaces()[1].active_tab_index(), 0);
    nothing(press(&mut app, ch('z')));
    nothing(press(&mut app, ch('q')));
    assert!(app.should_quit());
}

#[test]
fn new_tab_is_registered_after_the_report() {
    let mut app = app();
    match press(&mut app, ch('n')) {
        Effect::StartTab { cwd, size } => {
            assert_eq!(cwd, "/repo");
            assert_eq!(size, TerminalSize::new(24, 80));
        }
        other => panic!("unexpected effect {:?}", other),
    }
    assert_eq!(app.workspaces()[0].tabs_len(), 1);
    app.set_status("stale".to_string());
    app.tab_started(Ok(())).unwrap();
    assert_eq!(app.workspaces()[0].tab_titles(), vec!["Tab 1", "Tab 3"]);
    assert_eq!(app.workspaces()[0].active_tab_index(), 1);
    assert_eq!(app.status_message(), None);
    assert_eq!(app.next_tab_id(), 4);

    app.set_status("kept".to_string());
    let out = app.tab_started(Err(SpawnFailure { reason: "limit".to_string() }));
    assert_eq!(out.unwrap_err().reason, "limit");
    assert_eq!(app.workspaces()[0].tabs_len(), 2);
    assert_eq!(app.status_message(), Some("kept"));
    assert_eq!(app.next_tab_id(), 5);
}

#[test]
fn new_tab_uses_the_view_size_when_known() {
    let mut app = app();
    app.set_terminal_view_size(Some(TerminalSize::new(20, 50)));
    assert_eq!(app.tab_size(), TerminalSize::new(20, 50));
    assert!(matches!(press(&mut app, ch('n')), Effect::StartTab { size, .. } if size.rows == 20));
    app.set_terminal_view_size(None);
    nothing(app.handle_event(Event::Resize { width: 0, height: 30 }));
    assert_eq!(app.tab_size(), TerminalSize::new(30, 1));
    nothing(app.handle_event(Event::Other));
}

#[test]
fn closing_a_tab_hands_the_session_back() {
    let mut app = app();
    nothing(press(&mut app, ch('x')));
    assert_eq!(app.workspaces()[0].tabs_len(), 1);
    press(&mut app, ch('n'));
    app.tab_started(Ok(())).unwrap();
    match press(&mut app, ch('x')) {
        Effect::Teardown(session) => assert_eq!(session.id(), 3),
        other => panic!("unexpected effect {:?}", other),
    }
    assert_eq!(app.workspaces()[0].tab_titles(), vec!["Tab 1"]);
}

#[test]
fn terminal_input_forwards_keys_until_the_exit_chord() {
    let mut app = app();
    nothing(press(&mut app, key(KeyCode::Enter)));
    assert!(matches!(app.mode(), Mode::TerminalInput));
    match press(&mut app, ch('q')) {
        Effect::Write { session, bytes } => {
            assert_eq!(session, 1);
            assert_eq!(bytes, vec![b'q']);
        }
        other => panic!("unexpected effect {:?}", other),
    }
    assert!(!app.should_quit());
    match press(&mut app, ctrl('c')) {
        Effect::Write { bytes, .. } => assert_eq!(bytes, vec![0x03]),
        other => panic!("unexpected effect {:?}", other),
    }
    nothing(press(&mut app, key(KeyCode::Unmapped)));
    assert!(matches!(app.mode(), Mode::TerminalInput));
    nothing(press(&mut app, ctrl(' ')));
    assert!(matches!(app.mode(), Mode::Navigation));
    press(&mut app, key(KeyCode::Enter));
    nothing(press(&mut app, key(KeyCode::Esc)));
    assert!(matches!(app.mode(), Mode::Navigation));
}

#[test]
fn help_is_left_by_escape_or_question_mark() {
    let mut app = app();
    app.set_status("x".to_string());
    nothing(press(&mut app, ch('?')));
    assert!(matches!(app.mode(), Mode::Help));
    assert_eq!(app.status_message(), None);
    nothing(press(&mut app, ch('q')));
    assert!(matches!(app.mode(), Mode::Help));
    assert!(!app.should_quit());
    nothing(press(&mut app, ch('?')));
    assert!(matches!(app.mode(), Mode::Navigation));
    press(&mut app, ch('?'));
    nothing(press(&mut app, key(KeyCode::Esc)));
    assert!(matches!(app.mode(), Mode::Navigation));
}

#[test]
fn primary_worktree_is_not_pruned() {
    let mut app = app();
    nothing(press(&mut app, ch('p')));
    assert!(matches!(app.mode(), Mode::Navigation));
    assert_eq!(app.status_message(), Some("Cannot prune the primary worktree."));
}

#[test]
fn removal_is_confirmed_with_optional_force() {
    let mut app = app();
    press(&mut app, key(KeyCode::Down));
    nothing(press(&mut app, ch('p')));
    match app.mode() {
        Mode::Removing(state) => {
            assert_eq!(state.target(), "/repo/.wtm/workspaces/feat");
            assert!(!state.force());
        }
        other => panic!("unexpected mode {:?}", other),
    }
    nothing(press(&mut app, ch('f')));
    nothing(press(&mut app, ch('k')));
    match press(&mut app, ch('y')) {
        Effect::RemoveWorktree { target, force } => {
            assert_eq!(target, "/repo/.wtm/workspaces/feat");
            assert!(force);
        }
        other => panic!("unexpected effect {:?}", other),
    }
    assert!(matches!(app.mode(), Mode::Navigation));
    let gone = app
        .worktree_removed("/repo/.wtm/workspaces/feat", Ok(vec![update("/repo")]))
        .unwrap();
    assert_eq!(gone.len(), 1);
    assert_eq!(gone[0].path(), "/repo/.wtm/workspaces/feat");
    assert_eq!(app.workspaces().len(), 1);
    assert_eq!(app.selected_workspace(), 0);
    assert_eq!(app.status_message(), Some("Removed worktree /repo/.wtm/workspaces/feat"));
}

#[test]
fn removal_can_be_cancelled_or_fail() {
    let mut app = app();
    press(&mut app, key(KeyCode::Down));
    press(&mut app, ch('p'));
    nothing(press(&mut app, ch('n')));
    assert!(matches!(app.mode(), Mode::Navigation));
    press(&mut app, ch('p'));
    nothing(press(&mut app, key(KeyCode::Esc)));
    assert!(matches!(app.mode(), Mode::Navigation));
    let gone = app.worktree_removed("/x", Err("dirty".to_string())).unwrap();
    assert!(gone.is_empty());
    assert_eq!(app.workspaces().len(), 2);
    assert_eq!(app.status_message(), Some("Failed to remove worktree: dirty"));
}

#[test]
fn quick_actions_need_configuration() {
    let mut app =
        App::new("/repo", vec![update("/repo")], Vec::new(), TerminalSize::new(24, 80)).unwrap();
    nothing(press(&mut app, ch('c')));
    assert!(matches!(app.mode(), Mode::Navigation));
    assert_eq!(app.status_message(), Some("No quick actions configured."));
}

#[test]
fn quick_action_starts_a_titled_tab() {
    let mut app = app();
    nothing(press(&mut app, ch('c')));
    assert!(matches!(app.mode(), Mode::QuickActions(state) if state.selected == 0));
    nothing(press(&mut app, key(KeyCode::Up)));
    assert!(matches!(app.mode(), Mode::QuickActions(state) if state.selected == 1));
    nothing(press(&mut app, key(KeyCode::Down)));
    nothing(press(&mut app, key(KeyCode::Down)));
    nothing(press(&mut app, ch('j')));
    match press(&mut app, key(KeyCode::Enter)) {
        Effect::StartQuickAction { cwd, action, command, .. } => {
            assert_eq!(cwd, "/repo");
            assert_eq!(action, 1);
            assert_eq!(command, b"git status\r\n".to_vec());
        }
        other => panic!("unexpected effect {:?}", other),
    }
    assert!(matches!(app.mode(), Mode::Navigation));
    app.quick_action_started(1, Ok(())).unwrap();
    assert_eq!(app.workspaces()[0].tab_titles(), vec!["Tab 1", "Status (3)"]);
    let out = app.quick_action_started(0, Err(SpawnFailure { reason: "gone".to_string() }));
    assert_eq!(out.unwrap_err().reason, "gone");
    assert_eq!(app.workspaces()[0].tabs_len(), 2);
    app.quick_action_started(9, Ok(())).unwrap();
    assert_eq!(app.workspaces()[0].tabs_len(), 2);
    press(&mut app, ch('c'));
    nothing(press(&mut app, key(KeyCode::Esc)));
    assert!(matches!(app.mode(), Mode::Navigation));
}

fn tickets() -> Vec<JiraTicket> {
    vec![JiraTicket { key: "PROJ-1".into(), summary: "Implement feature".into() }]
}

fn open_form(app: &mut App) {
    assert!(matches!(press(app, ch('a')), Effect::LoadSuggestions));
    app.begin_adding(
        Ok(tickets()),
        Ok(vec!["feature/local".to_string()]),
        Ok(vec!["origin/feature/widget".to_string()]),
    );
}

#[test]
fn adding_opens_with_what_could_be_loaded() {
    let mut app = app();
    assert!(matches!(press(&mut app, ch('a')), Effect::LoadSuggestions));
    assert!(matches!(app.mode(), Mode::Navigation));
    app.begin_adding(Err("no cache".to_string()), Ok(vec!["main".to_string()]), Ok(Vec::new()));
    match app.mode() {
        Mode::Adding(form) => assert_eq!(form.suggestions.len(), 1),
        other => panic!("unexpected mode {:?}", other),
    }
    assert_eq!(app.status_message(), Some("Failed to load Jira cache: no cache"));
    nothing(press(&mut app, key(KeyCode::Esc)));
    assert!(matches!(app.mode(), Mode::Navigation));
}

#[test]
fn adding_requires_a_branch_name() {
    let mut app = app();
    open_form(&mut app);
    nothing(press(&mut app, key(KeyCode::Enter)));
    assert!(matches!(app.mode(), Mode::Adding(_)));
    assert_eq!(app.status_message(), Some("Branch name is required."));
}

#[test]
fn adding_types_filters_and_confirms() {
    let mut app = app();
    open_form(&mut app);
    for c in "wid".chars() {
        nothing(press(&mut app, ch(c)));
    }
    nothing(press(&mut app, ctrl('x')));
    nothing(press(&mut app, KeyInput::new(
        KeyCode::Char('y'),
        KeyModifiers { shift: false, control: false, alt: true, logo: false },
    )));
    match app.mode() {
        Mode::Adding(form) => {
            assert_eq!(form.branch, "wid");
            assert_eq!(form.filtered, vec![2]);
        }
        other => panic!("unexpected mode {:?}", other),
    }
    nothing(press(&mut app, key(KeyCode::Tab)));
    match app.mode() {
        Mode::Adding(form) => {
            assert_eq!(form.branch, "feature-widget");
            assert!(!form.overlay_visible());
        }
        other => panic!("unexpected mode {:?}", other),
    }
    match press(&mut app, key(KeyCode::Enter)) {
        Effect::AddWorktree { branch, dir_name, existing_branch, upstream } => {
            assert_eq!(branch, "feature-widget");
            assert_eq!(dir_name, "feature-widget");
            assert!(!existing_branch);
            assert_eq!(upstream.as_deref(), Some("origin/feature/widget"));
        }
        other => panic!("unexpected effect {:?}", other),
    }
    assert!(matches!(app.mode(), Mode::Navigation));
    let path = "/repo/.wtm/workspaces/feature-widget";
    let gone = app
        .worktree_added(
            path,
            "feature-widget",
            false,
            Ok(vec![update("/repo"), update(path), update("/repo/.wtm/workspaces/feat")]),
        )
        .unwrap();
    assert!(gone.is_empty());
    assert_eq!(app.workspaces().len(), 3);
    assert_eq!(app.selected_workspace(), 1);
    assert_eq!(app.workspaces()[1].tab_titles(), vec!["Tab 3"]);
    assert_eq!(app.workspaces()[2].tab_titles(), vec!["Tab 2"]);
    assert_eq!(
        app.status_message(),
        Some("Created worktree /repo/.wtm/workspaces/feature-widget for new branch feature-widget")
    );
}

#[test]
fn adding_reports_failures_in_the_status() {
    let mut app = app();
    let gone = app.worktree_added("/p", "b", true, Err("exists".to_string())).unwrap();
    assert!(gone.is_empty());
    assert_eq!(app.status_message(), Some("Failed to create worktree: exists"));
    assert_eq!(app.workspaces().len(), 2);
    let out = app.worktree_added("/repo/n", "b", true, Ok(vec![update("/repo"), failed("/repo/n", "pty")]));
    assert_eq!(out.unwrap_err().reason, "pty");
    assert_eq!(app.workspaces().len(), 2);
    assert_eq!(app.workspaces()[1].tab_titles(), vec!["Tab 2"]);
    assert_eq!(app.next_tab_id(), 3);
    assert_eq!(app.status_message(), Some("Added worktree /repo/n for existing branch b"));
}

#[test]
fn adding_navigates_and_toggles_suggestions() {
    let mut app = app();
    open_form(&mut app);
    nothing(press(&mut app, key(KeyCode::Up)));
    assert!(matches!(app.mode(), Mode::Adding(form) if form.selection == Some(2)));
    nothing(press(&mut app, key(KeyCode::Down)));
    assert!(matches!(app.mode(), Mode::Adding(form) if form.selection == Some(0)));
    nothing(press(&mut app, ctrl(' ')));
    assert!(matches!(app.mode(), Mode::Adding(form) if !form.overlay_visible()));
    nothing(press(&mut app, ch('q')));
    nothing(press(&mut app, key(KeyCode::Tab)));
    assert_eq!(app.status_message(), Some("No suggestion selected."));
    nothing(press(&mut app, key(KeyCode::Backspace)));
    assert!(matches!(app.mode(), Mode::Adding(form) if form.branch.is_empty()));
}

#[test]
fn adding_refreshes_and_clears_tickets() {
    let mut app = app();
    open_form(&mut app);
    assert!(matches!(press(&mut app, ctrl('r')), Effect::RefreshSuggestions));
    app.suggestions_refreshed(Ok(SuggestionData {
        tickets: Vec::new(),
        local_branches: vec!["a".to_string(), "b".to_string()],
        remote_branches: Vec::new(),
    }));
    assert_eq!(app.status_message(), Some("Refreshed Jira tickets (0)"));
    assert!(matches!(app.mode(), Mode::Adding(form) if form.suggestions.len() == 2));
    app.suggestions_refreshed(Err("timeout".to_string()));
    assert_eq!(app.status_message(), Some("Failed to refresh Jira tickets: timeout"));
    let shifted = KeyInput::new(
        KeyCode::Char('R'),
        KeyModifiers { shift: true, control: true, alt: false, logo: false },
    );
    assert!(matches!(press(&mut app, shifted), Effect::ClearTicketCache));
    app.ticket_cache_cleared(Ok(()));
    assert_eq!(app.status_message(), Some("Cleared Jira ticket cache."));
    app.ticket_cache_cleared(Err("busy".to_string()));
    assert_eq!(app.status_message(), Some("Failed to clear Jira cache: busy"));
    press(&mut app, key(KeyCode::Esc));
    app.clear_status();
    app.ticket_cache_cleared(Ok(()));
    app.suggestions_refreshed(Err("late".to_string()));
    assert_eq!(app.status_message(), None);
}

#[test]
fn refresh_keeps_known_workspaces_and_clamps_selection() {
    let mut app = app();
    press(&mut app, key(KeyCode::Down));
    let gone = app
        .refresh_worktrees(vec![failed("/repo/.wtm/workspaces/feat/", "unused"), update("/new")])
        .unwrap();
    assert_eq!(gone.len(), 1);
    assert_eq!(gone[0].path(), "/repo");
    assert_eq!(app.workspaces().len(), 2);
    assert_eq!(app.workspaces()[0].path(), "/repo/.wtm/workspaces/feat/");
    assert_eq!(app.workspaces()[0].tab_titles(), vec!["Tab 2"]);
    assert_eq!(app.workspaces()[1].tab_titles(), vec!["Tab 3"]);
    assert_eq!(app.index_of_path("/new/"), Some(1));
    assert_eq!(app.index_of_path("/repo"), None);
    let rest = app.refresh_worktrees(Vec::new()).unwrap();
    assert_eq!(rest.len(), 2);
    assert_eq!(app.selected_workspace(), 0);
    nothing(press(&mut app, key(KeyCode::Down)));
    nothing(press(&mut app, ch('n')));
    nothing(press(&mut app, ch('x')));
    nothing(press(&mut app, key(KeyCode::Enter)));
    assert!(matches!(app.mode(), Mode::Navigation));
    app.tab_started(Ok(())).unwrap();
    assert_eq!(app.next_tab_id(), 4);
}

#[test]
fn reaping_drops_finished_sessions_everywhere() {
    let mut app = app();
    press(&mut app, ch('n'));
    app.tab_started(Ok(())).unwrap();
    assert!(app.reap_finished_children().is_empty());
    assert_eq!(app.workspaces()[0].tabs_len(), 2);
    assert_eq!(app.workspaces()[1].tabs_len(), 1);
}

#[test]
fn exits_and_titles_reach_sessions_by_number() {
    let mut app = app();
    let table = vec![
        ProcessInfo { pid: 10, parent: 1, name: "zsh".into(), cpu: 0, runnable: false },
        ProcessInfo { pid: 11, parent: 10, name: "htop".into(), cpu: 120, runnable: true },
    ];
    assert!(app.refresh_title(2, &table, 10));
    assert_eq!(app.workspaces()[1].tab_titles(), vec!["htop - Tab 2"]);
    assert_eq!(app.workspaces()[0].tab_titles(), vec!["Tab 1"]);
    assert!(!app.refresh_title(9, &table, 10));
    app.record_exit(2, true);
    assert!(!app.refresh_title(2, &table, 10));
    let finished = app.reap_finished_children();
    assert_eq!(finished.len(), 1);
    assert_eq!(finished[0].id(), 2);
    assert_eq!(app.workspaces()[1].tabs_len(), 0);
    assert_eq!(app.workspaces()[0].tabs_len(), 1);
    press(&mut app, key(KeyCode::Down));
    nothing(press(&mut app, key(KeyCode::Enter)));
    assert!(matches!(app.mode(), Mode::Navigation));
}

#[test]
fn active_tab_is_resized_once_per_size() {
    let mut app = app();
    let view = TerminalSize::new(30, 100);
    let (id, geometry) = app.resize_active(view).unwrap();
    assert_eq!(id, 1);
    assert_eq!((geometry.rows, geometry.cols), (30, 100));
    assert!(app.resize_active(view).is_none());
    assert!(app.resize_active(TerminalSize::new(24, 80)).is_some());
}

#[test]
fn failed_refresh_keeps_every_workspace() {
    let mut app = app();
    press(&mut app, key(KeyCode::Down));
    let out = app.refresh_worktrees(vec![
        update("/repo/.wtm/workspaces/feat"),
        update("/new"),
        failed("/other", "no pty"),
        update("/repo"),
    ]);
    assert_eq!(out.unwrap_err().reason, "no pty");
    assert_eq!(app.workspaces().len(), 2);
    assert_eq!(app.workspaces()[0].path(), "/repo");
    assert_eq!(app.workspaces()[0].tab_titles(), vec!["Tab 1"]);
    assert_eq!(app.workspaces()[1].path(), "/repo/.wtm/workspaces/feat");
    assert_eq!(app.selected_workspace(), 1);
    assert_eq!(app.next_tab_id(), 3);
    let gone = app
        .refresh_worktrees(vec![failed("/repo", "unused"), update("/new"), failed("/repo", "twice")])
        .unwrap_err();
    assert_eq!(gone.reason, "twice");
    assert_eq!(app.workspaces().len(), 2);
    let rest = app.refresh_worktrees(vec![failed("/repo", "unused"), update("/new")]).unwrap();
    assert_eq!(rest.len(), 1);
    assert_eq!(app.workspaces()[1].tab_titles(), vec!["Tab 3"]);
}
