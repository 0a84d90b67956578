//! The application: the workspaces and the interaction mode.
//!
//! The application owns no operating-system resource. A key changes the
//! state and asks the caller for at most one piece of outside work (an
//! [`Effect`]); the caller carries it out and reports what became of it.

use vstd::prelude::*;
use vstd::string::*;
use crate::add_worktree::{
    load_warning, loaded_names, loaded_tickets, opened, AddView, AddWorktreeState, InputStyle,
};
use crate::config::{action_views, ActionView, QuickAction};
use crate::git::{WorktreeInfo, WorktreeView};
use crate::jira::{ticket_views, JiraTicket};
use crate::keymap::{key_bytes, KeyCode, KeyInput};
use crate::paths::{branch_dir_name, dir_name, path_eq, same_path, workspace_root, workspace_root_of};
use crate::session::{
    command_line, fresh_session, resize_step, PtyGeometry, PtySession, SessionView, SpawnFailure,
};
use crate::title::ProcessInfo;
use crate::size::{at_least_one, TerminalSize};
use crate::text::{concat2, concat3, decimal, decimal_string, opt_text, texts};
use crate::workspace::{
    clamp_index, index_down, index_up, quick_action_title, tab_title, QuickActionState,
    RemoveView, RemoveWorktreeState, WorkspaceState, WorkspaceView,
};

verus! {

/// The interaction mode, each with the state that lives only in it.
#[derive(Debug)]
pub enum Mode {
    /// Moving between workspaces and tabs.
    Navigation,
    /// Keys go to the active session.
    TerminalInput,
    /// The form for adding a worktree is open.
    Adding(AddWorktreeState),
    /// A removal waits to be confirmed.
    Removing(RemoveWorktreeState),
    /// The list of quick actions is open.
    QuickActions(QuickActionState),
    /// The help overlay is shown.
    Help,
}

/// The mathematical value of a mode.
pub enum ModeView {
    Navigation,
    TerminalInput,
    Adding(AddView),
    Removing(RemoveView),
    QuickActions(usize),
    Help,
}

impl View for Mode {
    type V = ModeView;

    open spec fn view(&self) -> ModeView {
        match self {
            Mode::Navigation => ModeView::Navigation,
            Mode::TerminalInput => ModeView::TerminalInput,
            Mode::Adding(form) => ModeView::Adding(form@),
            Mode::Removing(removal) => ModeView::Removing(removal@),
            Mode::QuickActions(list) => ModeView::QuickActions(list.selected),
            Mode::Help => ModeView::Help,
        }
    }
}

/// An input event.
#[derive(Clone, Copy, Debug)]
pub enum Event {
    /// A key was pressed.
    Key(KeyInput),
    /// The terminal was resized.
    Resize { width: u16, height: u16 },
    /// Anything else.
    Other,
}

/// A worktree reported by the version-control collaborator, with what became
/// of starting a first session for it. The outcome is looked at only when
/// the worktree is new to the application.
#[derive(Debug)]
pub struct WorktreeUpdate {
    pub info: WorktreeInfo,
    pub started: Result<(), SpawnFailure>,
}

/// The mathematical value of the application.
pub struct AppView {
    pub repo_root: Seq<char>,
    pub workspace_root: Seq<char>,
    pub workspaces: Seq<WorkspaceView>,
    pub selected_workspace: usize,
    pub mode: ModeView,
    pub quick_actions: Seq<ActionView>,
    pub next_tab_id: usize,
    pub should_quit: bool,
    pub terminal_size: TerminalSize,
    pub terminal_view_size: Option<TerminalSize>,
    pub status_message: Option<Seq<char>>,
}

/// The application.
#[derive(Debug)]
pub struct App {
    repo_root: String,
    workspace_root: String,
    workspaces: Vec<WorkspaceState>,
    selected_workspace: usize,
    mode: Mode,
    quick_actions: Vec<QuickAction>,
    next_tab_id: usize,
    should_quit: bool,
    terminal_size: TerminalSize,
    terminal_view_size: Option<TerminalSize>,
    status_message: Option<String>,
}

/// The values of a list of workspaces.
pub open spec fn workspace_views(list: Seq<WorkspaceState>) -> Seq<WorkspaceView> {
    Seq::new(list.len(), |i: int| list[i]@)
}

impl View for App {
    type V = AppView;

    closed spec fn view(&self) -> AppView {
        AppView {
            repo_root: self.repo_root@,
            workspace_root: self.workspace_root@,
            workspaces: workspace_views(self.workspaces@),
            selected_workspace: self.selected_workspace,
            mode: self.mode@,
            quick_actions: action_views(self.quick_actions@),
            next_tab_id: self.next_tab_id,
            should_quit: self.should_quit,
            terminal_size: self.terminal_size,
            terminal_view_size: self.terminal_view_size,
            status_message: opt_text(self.status_message),
        }
    }
}

/// Pushing a workspace adds its value to the values.
pub proof fn lemma_workspaces_push(list: Seq<WorkspaceState>, workspace: WorkspaceState)
    ensures
        workspace_views(list.push(workspace)) == workspace_views(list).push(workspace@),
{
    assert(workspace_views(list.push(workspace)) =~= workspace_views(list).push(workspace@));
}

/// Removing a workspace removes its value from the values.
pub proof fn lemma_workspaces_remove(list: Seq<WorkspaceState>, at: int)
    requires
        0 <= at < list.len(),
    ensures
        workspace_views(list.remove(at)) == workspace_views(list).remove(at),
{
    assert(workspace_views(list.remove(at)) =~= workspace_views(list).remove(at));
}

/// The index of the first workspace at or after `from` whose worktree is at
/// `path`; `list.len()` if there is none.
pub open spec fn position_of(list: Seq<WorkspaceView>, path: Seq<char>, from: int) -> int
    decreases list.len() - from,
{
    if from < 0 || from >= list.len() {
        list.len() as int
    } else if path_eq(list[from].info.path, path) {
        from
    } else {
        position_of(list, path, from + 1)
    }
}

/// The state of a rebuild of the workspace list: the workspaces not yet
/// claimed by a reported worktree, the new list so far, the next tab number,
/// and the failure that stopped the rebuild, if one did.
pub struct Rebuild {
    pub remaining: Seq<WorkspaceView>,
    pub rebuilt: Seq<WorkspaceView>,
    pub next_tab_id: int,
    pub failure: Option<SpawnFailure>,
}

/// The values of a list of updates.
pub struct UpdateView {
    pub info: WorktreeView,
    pub started: Result<(), SpawnFailure>,
}

/// The values of a list of updates.
pub open spec fn update_views(list: Seq<WorktreeUpdate>) -> Seq<UpdateView> {
    Seq::new(list.len(), |i: int| UpdateView { info: list[i].info@, started: list[i].started })
}

/// A rebuild after one more reported worktree. A worktree whose path a
/// remaining workspace has takes that workspace, with the new description. A
/// worktree that is new takes the next tab number and becomes a workspace
/// with one tab, unless its session failed to start: the failure stops the
/// rebuild. After a failure nothing more is done.
pub open spec fn rebuild_step(state: Rebuild, update: UpdateView, size: TerminalSize) -> Rebuild {
    if state.failure is Some {
        state
    } else {
        let at = position_of(state.remaining, update.info.path, 0);
        if at < state.remaining.len() {
            Rebuild {
                remaining: state.remaining.remove(at),
                rebuilt: state.rebuilt.push(
                    WorkspaceView { info: update.info, ..state.remaining[at] },
                ),
                ..state
            }
        } else {
            match update.started {
                Ok(_) => Rebuild {
                    rebuilt: state.rebuilt.push(
                        WorkspaceView {
                            info: update.info,
                            tabs: seq![
                                fresh_session(
                                    state.next_tab_id as usize,
                                    tab_title(state.next_tab_id as usize),
                                    size,
                                ),
                            ],
                            active_tab: 0,
                        },
                    ),
                    next_tab_id: state.next_tab_id + 1,
                    ..state
                },
                Err(failure) => Rebuild {
                    next_tab_id: state.next_tab_id + 1,
                    failure: Some(failure),
                    ..state
                },
            }
        }
    }
}

/// The rebuild after the first `n` reported worktrees.
pub open spec fn rebuild_upto(
    workspaces: Seq<WorkspaceView>,
    updates: Seq<UpdateView>,
    size: TerminalSize,
    next_tab_id: usize,
    n: int,
) -> Rebuild
    decreases n,
{
    if n <= 0 {
        Rebuild {
            remaining: workspaces,
            rebuilt: seq![],
            next_tab_id: next_tab_id as int,
            failure: None,
        }
    } else {
        rebuild_step(
            rebuild_upto(workspaces, updates, size, next_tab_id, n - 1),
            updates[n - 1],
            size,
        )
    }
}

/// The rebuild after all reported worktrees.
pub open spec fn rebuild_all(
    workspaces: Seq<WorkspaceView>,
    updates: Seq<UpdateView>,
    size: TerminalSize,
    next_tab_id: usize,
) -> Rebuild {
    rebuild_upto(workspaces, updates, size, next_tab_id, updates.len() as int)
}

/// The selected index brought into a list of `len` workspaces.
pub open spec fn clamp_selected(selected: usize, len: nat) -> usize {
    if len == 0 {
        0
    } else if selected >= len {
        (len - 1) as usize
    } else {
        selected
    }
}

/// The index of the first workspace at or after `from` whose worktree is at
/// `path`.
fn find_workspace(list: &Vec<WorkspaceState>, path: &str) -> (at: usize)
    ensures
        at == position_of(workspace_views(list@), path@, 0),
        at <= list.len(),
{
    let mut at: usize = 0;
    while at < list.len()
        invariant
            at <= list.len(),
            position_of(workspace_views(list@), path@, 0) == position_of(
                workspace_views(list@),
                path@,
                at as int,
            ),
        decreases list.len() - at,
    {
        if same_path(list[at].path(), path) {
            return at;
        }
        at += 1;
    }
    at
}

/// The workspaces of `start` that the indices `left` name, in their order.
pub open spec fn picked(start: Seq<WorkspaceView>, left: Seq<usize>) -> Seq<WorkspaceView> {
    Seq::new(left.len(), |k: int| start[left[k] as int])
}

/// Finds, without changing anything, the reported worktree whose failed
/// start would stop a rebuild: the first that no remaining workspace is open
/// for and whose session did not start. `None` if the rebuild would go
/// through.
fn first_failed_start(
    workspaces: &Vec<WorkspaceState>,
    updates: &Vec<WorktreeUpdate>,
    size: TerminalSize,
    next_tab_id: usize,
) -> (at: Option<usize>)
    ensures
        ({
            let result = rebuild_all(
                workspace_views(workspaces@),
                update_views(updates@),
                size,
                next_tab_id,
            );
            &&& at is Some == result.failure is Some
            &&& at is Some ==> at->0 < updates.len() && updates@[at->0 as int].started is Err
                && result.failure == Some(updates@[at->0 as int].started->Err_0)
        }),
{
    let ghost start = workspace_views(workspaces@);
    let ghost all = update_views(updates@);
    let mut left: Vec<usize> = Vec::new();
    let mut k: usize = 0;
    while k < workspaces.len()
        invariant
            k <= workspaces.len(),
            left.len() == k,
            forall|j: int| 0 <= j < k ==> left@[j] == j,
        decreases workspaces.len() - k,
    {
        left.push(k);
        k += 1;
    }
    assert(picked(start, left@) =~= start);
    let mut i: usize = 0;
    while i < updates.len()
        invariant
            i <= updates.len(),
            start == workspace_views(workspaces@),
            all == update_views(updates@),
            forall|j: int| 0 <= j < left.len() ==> left@[j] < workspaces.len(),
            rebuild_upto(start, all, size, next_tab_id, i as int).failure is None,
            rebuild_upto(start, all, size, next_tab_id, i as int).remaining == picked(start, left@),
        decreases updates.len() - i,
    {
        let update = &updates[i];
        assert(all[i as int].info == update.info@ && all[i as int].started == update.started);
        let ghost remaining = picked(start, left@);
        let mut at: usize = 0;
        while at < left.len() && !same_path(workspaces[left[at]].path(), update.info.path())
            invariant
                at <= left.len(),
                start == workspace_views(workspaces@),
                remaining == picked(start, left@),
                forall|j: int| 0 <= j < left.len() ==> left@[j] < workspaces.len(),
                position_of(remaining, update.info@.path, 0) == position_of(
                    remaining,
                    update.info@.path,
                    at as int,
                ),
            decreases left.len() - at,
        {
            assert(remaining[at as int] == workspaces@[left@[at as int] as int]@);
            at += 1;
        }
        proof {
            if at < left.len() {
                assert(remaining[at as int] == workspaces@[left@[at as int] as int]@);
            }
        }
        if at < left.len() {
            left.remove(at);
            assert(picked(start, left@) =~= remaining.remove(at as int));
        } else if update.started.is_err() {
            proof {
                lemma_rebuild_stays_failed(
                    start,
                    all,
                    size,
                    next_tab_id,
                    i as int + 1,
                    updates.len() as int,
                );
            }
            return Some(i);
        }
        i += 1;
    }
    None
}

/// Rebuilds a list of workspaces from the worktrees reported. Returns the new
/// list, the workspaces that no reported worktree claimed, and the failure
/// that stopped the rebuild, if one did.
fn rebuild_workspaces(
    workspaces: Vec<WorkspaceState>,
    updates: Vec<WorktreeUpdate>,
    size: TerminalSize,
    next_tab_id: &mut usize,
) -> (out: (Vec<WorkspaceState>, Vec<WorkspaceState>, Option<SpawnFailure>))
    requires
        *old(next_tab_id) + updates.len() < usize::MAX,
    ensures
        ({
            let result = rebuild_all(
                workspace_views(workspaces@),
                update_views(updates@),
                size,
                *old(next_tab_id),
            );
            &&& workspace_views(out.0@) == result.rebuilt
            &&& workspace_views(out.1@) == result.remaining
            &&& out.2 == result.failure
            &&& *final(next_tab_id) == result.next_tab_id
        }),
{
    let ghost start = workspace_views(workspaces@);
    let ghost all = update_views(updates@);
    let ghost first_id = *next_tab_id;
    let total = updates.len();
    let mut remaining = workspaces;
    let mut updates = updates;
    let mut rebuilt: Vec<WorkspaceState> = Vec::new();
    let mut failure: Option<SpawnFailure> = None;
    let mut done: usize = 0;
    assert(workspace_views(rebuilt@) =~= Seq::<WorkspaceView>::empty());
    assert(update_views(updates@) =~= all.skip(0));
    while updates.len() > 0 && failure.is_none()
        invariant
            done + updates.len() == total == all.len(),
            update_views(updates@) == all.skip(done as int),
            first_id + total < usize::MAX,
            first_id <= *next_tab_id <= first_id + done,
            ({
                let state = rebuild_upto(start, all, size, first_id, done as int);
                &&& workspace_views(rebuilt@) == state.rebuilt
                &&& workspace_views(remaining@) == state.remaining
                &&& failure == state.failure
                &&& *next_tab_id == state.next_tab_id
            }),
        decreases updates.len(),
    {
        let ghost before = updates@;
        let update = updates.remove(0);
        proof {
            assert(update_views(before)[0] == all.skip(done as int)[0]);
            assert(update.info@ == all[done as int].info);
            assert(update.started == all[done as int].started);
            assert forall|i: int| 0 <= i < updates@.len() implies update_views(updates@)[i]
                == all.skip(done + 1)[i] by {
                assert(update_views(before)[i + 1] == all.skip(done as int)[i + 1]);
            }
            assert(update_views(updates@) =~= all.skip(done + 1));
        }
        let at = find_workspace(&remaining, update.info.path());
        if at < remaining.len() {
            proof {
                lemma_workspaces_remove(remaining@, at as int);
            }
            let mut workspace = remaining.remove(at);
            workspace.update_info(update.info);
            proof {
                lemma_workspaces_push(rebuilt@, workspace);
            }
            rebuilt.push(workspace);
        } else {
            match WorkspaceState::new(update.info, size, next_tab_id, update.started) {
                Ok(workspace) => {
                    proof {
                        lemma_workspaces_push(rebuilt@, workspace);
                    }
                    rebuilt.push(workspace);
                },
                Err(stopped) => {
                    failure = Some(stopped);
                },
            }
        }
        done += 1;
    }
    proof {
        lemma_rebuild_stays_failed(start, all, size, first_id, done as int, total as int);
    }
    (rebuilt, remaining, failure)
}

/// Once a rebuild has failed, or once all updates are taken, taking the rest
/// changes nothing.
proof fn lemma_rebuild_stays_failed(
    workspaces: Seq<WorkspaceView>,
    updates: Seq<UpdateView>,
    size: TerminalSize,
    next_tab_id: usize,
    done: int,
    total: int,
)
    requires
        0 <= done <= total,
        done == total || rebuild_upto(workspaces, updates, size, next_tab_id, done).failure is Some,
    ensures
        rebuild_upto(workspaces, updates, size, next_tab_id, total) == rebuild_upto(
            workspaces,
            updates,
            size,
            next_tab_id,
            done,
        ),
    decreases total - done,
{
    if done < total {
        lemma_rebuild_stays_failed(workspaces, updates, size, next_tab_id, done, total - 1);
    }
}

impl AppView {
    /// With at least one workspace the selected index names one, and every
    /// workspace keeps its own invariant.
    pub open spec fn wf(self) -> bool {
        &&& self.workspaces.len() > 0 ==> self.selected_workspace < self.workspaces.len()
        &&& forall|i: int| 0 <= i < self.workspaces.len() ==> (#[trigger] self.workspaces[i]).wf()
    }

    /// The size for a new tab: that of the terminal view if it is known, else
    /// that of the whole terminal.
    pub open spec fn tab_size(self) -> TerminalSize {
        match self.terminal_view_size {
            Some(size) => size,
            None => self.terminal_size,
        }
    }

    /// The application with `text` as its status message.
    pub open spec fn with_status(self, text: Seq<char>) -> AppView {
        AppView { status_message: Some(text), ..self }
    }

    /// The application without a status message.
    pub open spec fn cleared(self) -> AppView {
        AppView { status_message: None, ..self }
    }

    /// The application in mode `mode`.
    pub open spec fn in_mode(self, mode: ModeView) -> AppView {
        AppView { mode, ..self }
    }

    /// Whether a workspace is selected.
    pub open spec fn has_selected(self) -> bool {
        self.selected_workspace < self.workspaces.len()
    }

    /// The selected workspace.
    pub open spec fn selected(self) -> WorkspaceView {
        self.workspaces[self.selected_workspace as int]
    }

    /// The application with the selected workspace replaced.
    pub open spec fn with_selected(self, workspace: WorkspaceView) -> AppView {
        AppView {
            workspaces: self.workspaces.update(self.selected_workspace as int, workspace),
            ..self
        }
    }

    /// The application after the workspace list was rebuilt from the reported
    /// worktrees. If the session of a new worktree failed to start nothing
    /// changes: every workspace stays as it was.
    pub open spec fn refreshed(self, updates: Seq<UpdateView>) -> AppView {
        let result = rebuild_all(self.workspaces, updates, self.terminal_size, self.next_tab_id);
        if result.failure is Some {
            self
        } else {
            AppView {
                workspaces: result.rebuilt,
                next_tab_id: result.next_tab_id as usize,
                selected_workspace: clamp_selected(self.selected_workspace, result.rebuilt.len()),
                ..self
            }
        }
    }

    /// The application after every workspace dropped the sessions that have
    /// ended.
    pub open spec fn reaped(self) -> AppView {
        AppView {
            workspaces: Seq::new(self.workspaces.len(), |i: int| self.workspaces[i].reaped()),
            ..self
        }
    }
}

impl App {
    /// Whether the application's own invariant holds.
    pub open spec fn wf(&self) -> bool {
        self@.wf()
    }

    /// An application for the repository at `repo_root` with one workspace
    /// for each worktree, in navigation mode. Each workspace takes one tab
    /// number, starting at 1. If a session failed to start there is no
    /// application.
    pub fn new(
        repo_root: &str,
        worktrees: Vec<WorktreeUpdate>,
        quick_actions: Vec<QuickAction>,
        size: TerminalSize,
    ) -> (out: Result<App, SpawnFailure>)
        requires
            worktrees.len() + 1 < usize::MAX,
        ensures
            ({
                let result = rebuild_all(seq![], update_views(worktrees@), size, 1);
                &&& out is Err == result.failure is Some
                &&& out is Err ==> Some(out->Err_0) == result.failure
                &&& out is Ok ==> out->Ok_0@ == (AppView {
                    repo_root: repo_root@,
                    workspace_root: workspace_root_of(repo_root@),
                    workspaces: result.rebuilt,
                    selected_workspace: 0,
                    mode: ModeView::Navigation,
                    quick_actions: action_views(quick_actions@),
                    next_tab_id: result.next_tab_id as usize,
                    should_quit: false,
                    terminal_size: size,
                    terminal_view_size: None,
                    status_message: None,
                })
            }),
    {
        let mut next_tab_id: usize = 1;
        let none: Vec<WorkspaceState> = Vec::new();
        assert(workspace_views(none@) =~= Seq::<WorkspaceView>::empty());
        let (workspaces, _, failure) = rebuild_workspaces(none, worktrees, size, &mut next_tab_id);
        match failure {
            Some(stopped) => Err(stopped),
            None => Ok(
                App {
                    repo_root: repo_root.to_owned(),
                    workspace_root: workspace_root(repo_root),
                    workspaces,
                    selected_workspace: 0,
                    mode: Mode::Navigation,
                    quick_actions,
                    next_tab_id,
                    should_quit: false,
                    terminal_size: size,
                    terminal_view_size: None,
                    status_message: None,
                },
            ),
        }
    }

    /// Whether the user asked to quit.
    pub fn should_quit(&self) -> (quit: bool)
        ensures
            quit == self@.should_quit,
    {
        self.should_quit
    }

    /// The interaction mode.
    pub fn mode(&self) -> (mode: &Mode)
        ensures
            mode@ == self@.mode,
    {
        &self.mode
    }

    /// The workspaces, in order.
    pub fn workspaces(&self) -> (list: &Vec<WorkspaceState>)
        ensures
            workspace_views(list@) == self@.workspaces,
    {
        &self.workspaces
    }

    /// The index of the selected workspace.
    pub fn selected_workspace(&self) -> (index: usize)
        ensures
            index == self@.selected_workspace,
    {
        self.selected_workspace
    }

    /// The quick actions that are configured.
    pub fn quick_actions(&self) -> (list: &Vec<QuickAction>)
        ensures
            action_views(list@) == self@.quick_actions,
    {
        &self.quick_actions
    }

    /// The status message, if one is shown.
    pub fn status_message(&self) -> (message: Option<&str>)
        ensures
            message is Some == self@.status_message is Some,
            message is Some ==> message->0@ == self@.status_message->0,
    {
        match &self.status_message {
            Some(text) => Some(text.as_str()),
            None => None,
        }
    }

    /// The root of the repository.
    pub fn repo_root(&self) -> (path: &str)
        ensures
            path@ == self@.repo_root,
    {
        self.repo_root.as_str()
    }

    /// The directory that holds the workspaces.
    pub fn workspace_root(&self) -> (path: &str)
        ensures
            path@ == self@.workspace_root,
    {
        self.workspace_root.as_str()
    }

    /// The number the next tab will take.
    pub fn next_tab_id(&self) -> (id: usize)
        ensures
            id == self@.next_tab_id,
    {
        self.next_tab_id
    }

    /// The size for a new tab.
    pub fn tab_size(&self) -> (size: TerminalSize)
        ensures
            size == self@.tab_size(),
    {
        match self.terminal_view_size {
            Some(size) => size,
            None => self.terminal_size,
        }
    }

    /// Records the size of the area that shows the active session, or that
    /// no session is shown.
    pub fn set_terminal_view_size(&mut self, size: Option<TerminalSize>)
        ensures
            final(self)@ == (AppView { terminal_view_size: size, ..old(self)@ }),
    {
        self.terminal_view_size = size;
    }

    /// Records the size of the whole terminal.
    pub fn set_terminal_size(&mut self, size: TerminalSize)
        ensures
            final(self)@ == (AppView { terminal_size: size, ..old(self)@ }),
    {
        self.terminal_size = size;
    }

    /// Shows `message` as the status message.
    pub fn set_status(&mut self, message: String)
        ensures
            final(self)@ == old(self)@.with_status(message@),
    {
        self.status_message = Some(message);
    }

    /// Takes the status message away.
    pub fn clear_status(&mut self)
        ensures
            final(self)@ == old(self)@.cleared(),
    {
        self.status_message = None;
    }

    /// The index of the first workspace whose worktree is at `path`.
    pub fn index_of_path(&self, path: &str) -> (index: Option<usize>)
        ensures
            index == if position_of(self@.workspaces, path@, 0) < self@.workspaces.len() {
                Some(position_of(self@.workspaces, path@, 0) as usize)
            } else {
                None
            },
    {
        let at = find_workspace(&self.workspaces, path);
        if at < self.workspaces.len() {
            Some(at)
        } else {
            None
        }
    }

    /// Rebuilds the workspace list from the worktrees reported, in their
    /// order. A worktree that a workspace is open for keeps that workspace,
    /// with the new description; a new worktree becomes a workspace with one
    /// tab. The workspaces whose worktree is gone are handed back for tearing
    /// down. The selected index is brought into the new list. If a new
    /// worktree's session failed to start the failure is returned and the
    /// application stays as it was, with every workspace and session it
    /// had.
    pub fn refresh_worktrees(&mut self, updates: Vec<WorktreeUpdate>) -> (out: Result<
        Vec<WorkspaceState>,
        SpawnFailure,
    >)
        requires
            old(self)@.next_tab_id + updates.len() < usize::MAX,
        ensures
            final(self)@ == old(self)@.refreshed(update_views(updates@)),
            ({
                let result = rebuild_all(
                    old(self)@.workspaces,
                    update_views(updates@),
                    old(self)@.terminal_size,
                    old(self)@.next_tab_id,
                );
                &&& out is Err == result.failure is Some
                &&& out is Err ==> Some(out->Err_0) == result.failure
                &&& out is Ok ==> workspace_views(out->Ok_0@) == result.remaining
            }),
    {
        let mut updates = updates;
        let ghost asked = update_views(updates@);
        match first_failed_start(&self.workspaces, &updates, self.terminal_size, self.next_tab_id) {
            Some(at) => {
                let update = updates.remove(at);
                assert(update.started == asked[at as int].started);
                return match update.started {
                    Err(stopped) => Err(stopped),
                    Ok(_) => Ok(Vec::new()),
                };
            },
            None => {},
        }
        let mut current: Vec<WorkspaceState> = Vec::new();
        core::mem::swap(&mut self.workspaces, &mut current);
        let (rebuilt, remaining, failure) = rebuild_workspaces(
            current,
            updates,
            self.terminal_size,
            &mut self.next_tab_id,
        );
        self.workspaces = rebuilt;
        if self.workspaces.len() == 0 {
            self.selected_workspace = 0;
        } else if self.selected_workspace >= self.workspaces.len() {
            self.selected_workspace = self.workspaces.len() - 1;
        }
        Ok(remaining)
    }

    /// Drops from every workspace the sessions whose child has ended and
    /// hands them back, workspace by workspace, for tearing down.
    pub fn reap_finished_children(&mut self) -> (finished: Vec<PtySession>)
        ensures
            final(self)@ == old(self)@.reaped(),
            old(self).wf() ==> final(self).wf(),
            forall|i: int|
                0 <= i < finished.len() ==> (#[trigger] finished[i])@.exit_status is Some,
    {
        let mut finished: Vec<PtySession> = Vec::new();
        let mut i: usize = 0;
        let n = self.workspaces.len();
        while i < n
            invariant
                i <= n == self.workspaces.len() == old(self).workspaces.len(),
                self.repo_root == old(self).repo_root,
                self.workspace_root == old(self).workspace_root,
                self.selected_workspace == old(self).selected_workspace,
                self.mode == old(self).mode,
                self.quick_actions == old(self).quick_actions,
                self.next_tab_id == old(self).next_tab_id,
                self.should_quit == old(self).should_quit,
                self.terminal_size == old(self).terminal_size,
                self.terminal_view_size == old(self).terminal_view_size,
                self.status_message == old(self).status_message,
                forall|j: int| 0 <= j < i ==> self.workspaces@[j]@ == old(self).workspaces@[j]@.reaped(),
                forall|j: int| i <= j < n ==> self.workspaces@[j] == old(self).workspaces@[j],
                forall|j: int|
                    0 <= j < finished.len() ==> (#[trigger] finished[j])@.exit_status is Some,
            decreases n - i,
        {
            let mut gone = self.workspaces[i].reap_finished_children();
            proof {
                let ended = old(self).workspaces@[i as int]@.tabs.filter(
                    |s: SessionView| crate::workspace::ended(s),
                );
                assert forall|j: int| 0 <= j < gone.len() implies (#[trigger] gone[j])@.exit_status is Some by {
                    assert(crate::workspace::views(gone@)[j] == ended[j]);
                    old(self).workspaces@[i as int]@.tabs.lemma_filter_pred(
                        |s: SessionView| crate::workspace::ended(s),
                        j,
                    );
                }
            }
            finished.append(&mut gone);
            i += 1;
        }
        assert(self@.workspaces =~= old(self)@.reaped().workspaces);
        proof {
            if old(self).wf() {
                assert forall|j: int| 0 <= j < self@.workspaces.len() implies (#[trigger] self@.workspaces[j]).wf() by {
                    crate::workspace::lemma_reap_keeps_running(old(self)@.workspaces[j]);
                }
            }
        }
        finished
    }
}

/// The outside work a key asks for. The caller carries it out and reports
/// with the method named at each variant before it handles another event.
#[derive(Debug)]
pub enum Effect {
    /// Nothing to do.
    Nothing,
    /// Start a session in `cwd` with `size`; report with [`App::tab_started`].
    StartTab { cwd: String, size: TerminalSize },
    /// Start a session in `cwd` with `size` and write `command` to it;
    /// report with [`App::quick_action_started`], naming `action`.
    StartQuickAction { cwd: String, size: TerminalSize, action: usize, command: Vec<u8> },
    /// Tear the session down.
    Teardown(PtySession),
    /// Write `bytes` to the session with number `session` and flush.
    Write { session: usize, bytes: Vec<u8> },
    /// Load the tickets and the branch lists; report with
    /// [`App::begin_adding`].
    LoadSuggestions,
    /// Load the tickets and the branch lists afresh; report with
    /// [`App::suggestions_refreshed`].
    RefreshSuggestions,
    /// Clear the ticket cache; report with [`App::ticket_cache_cleared`].
    ClearTicketCache,
    /// Make a worktree for `branch` in a free directory named after
    /// `dir_name`: attached to the branch if it exists, else on a new branch,
    /// started from `upstream` if there is one. Report with
    /// [`App::worktree_added`].
    AddWorktree { branch: String, dir_name: String, existing_branch: bool, upstream: Option<String> },
    /// Remove the worktree at `target`; report with
    /// [`App::worktree_removed`].
    RemoveWorktree { target: String, force: bool },
}

/// The mathematical value of an effect.
pub enum EffectView {
    Nothing,
    StartTab { cwd: Seq<char>, size: TerminalSize },
    StartQuickAction { cwd: Seq<char>, size: TerminalSize, action: usize, command: Seq<u8> },
    Teardown(SessionView),
    Write { session: usize, bytes: Seq<u8> },
    LoadSuggestions,
    RefreshSuggestions,
    ClearTicketCache,
    AddWorktree {
        branch: Seq<char>,
        dir_name: Seq<char>,
        existing_branch: bool,
        upstream: Option<Seq<char>>,
    },
    RemoveWorktree { target: Seq<char>, force: bool },
}

impl View for Effect {
    type V = EffectView;

    open spec fn view(&self) -> EffectView {
        match self {
            Effect::Nothing => EffectView::Nothing,
            Effect::StartTab { cwd, size } => EffectView::StartTab { cwd: cwd@, size: *size },
            Effect::StartQuickAction { cwd, size, action, command } => EffectView::StartQuickAction {
                cwd: cwd@,
                size: *size,
                action: *action,
                command: command@,
            },
            Effect::Teardown(session) => EffectView::Teardown(session@),
            Effect::Write { session, bytes } => EffectView::Write {
                session: *session,
                bytes: bytes@,
            },
            Effect::LoadSuggestions => EffectView::LoadSuggestions,
            Effect::RefreshSuggestions => EffectView::RefreshSuggestions,
            Effect::ClearTicketCache => EffectView::ClearTicketCache,
            Effect::AddWorktree { branch, dir_name, existing_branch, upstream } => EffectView::AddWorktree {
                branch: branch@,
                dir_name: dir_name@,
                existing_branch: *existing_branch,
                upstream: opt_text(*upstream),
            },
            Effect::RemoveWorktree { target, force } => EffectView::RemoveWorktree {
                target: target@,
                force: *force,
            },
        }
    }
}

/// The index before `selected` among `len` workspaces, around the end.
pub open spec fn workspace_up(selected: usize, len: nat) -> usize {
    if len == 0 {
        selected
    } else if selected == 0 {
        (len - 1) as usize
    } else {
        (selected - 1) as usize
    }
}

/// The index after `selected` among `len` workspaces, around the end.
pub open spec fn workspace_down(selected: usize, len: nat) -> usize {
    if len == 0 {
        selected
    } else {
        ((selected + 1) % (len as int)) as usize
    }
}

/// What a key does in navigation mode.
pub open spec fn navigate(app: AppView, key: KeyInput) -> (AppView, EffectView) {
    match key.code {
        KeyCode::Char(c) => if c == 'q' {
            (AppView { should_quit: true, ..app }, EffectView::Nothing)
        } else if c == 'n' {
            if app.has_selected() {
                (app, EffectView::StartTab { cwd: app.selected().info.path, size: app.tab_size() })
            } else {
                (app, EffectView::Nothing)
            }
        } else if c == 'x' {
            if app.has_selected() {
                let workspace = app.selected();
                (
                    app.with_selected(workspace.without_active()).cleared(),
                    if workspace.tabs.len() > 1 && workspace.active_tab < workspace.tabs.len() {
                        EffectView::Teardown(workspace.tabs[workspace.active_tab as int])
                    } else {
                        EffectView::Nothing
                    },
                )
            } else {
                (app, EffectView::Nothing)
            }
        } else if c == 'a' {
            (app, EffectView::LoadSuggestions)
        } else if c == 'p' {
            if app.has_selected() {
                if path_eq(app.selected().info.path, app.repo_root) {
                    (app.with_status("Cannot prune the primary worktree."@), EffectView::Nothing)
                } else {
                    (
                        app.in_mode(
                            ModeView::Removing(
                                RemoveView { target: app.selected().info.path, force: false },
                            ),
                        ).cleared(),
                        EffectView::Nothing,
                    )
                }
            } else {
                (app, EffectView::Nothing)
            }
        } else if c == '?' {
            (app.in_mode(ModeView::Help).cleared(), EffectView::Nothing)
        } else if c == 'c' {
            if app.quick_actions.len() == 0 {
                (app.with_status("No quick actions configured."@), EffectView::Nothing)
            } else {
                (app.in_mode(ModeView::QuickActions(0)).cleared(), EffectView::Nothing)
            }
        } else {
            (app, EffectView::Nothing)
        },
        KeyCode::Up => (
            AppView {
                selected_workspace: workspace_up(app.selected_workspace, app.workspaces.len()),
                ..app
            },
            EffectView::Nothing,
        ),
        KeyCode::Down => (
            AppView {
                selected_workspace: workspace_down(app.selected_workspace, app.workspaces.len()),
                ..app
            },
            EffectView::Nothing,
        ),
        KeyCode::Left => if app.has_selected() {
            (app.with_selected(app.selected().prev_selected()), EffectView::Nothing)
        } else {
            (app, EffectView::Nothing)
        },
        KeyCode::Right => if app.has_selected() {
            (app.with_selected(app.selected().next_selected()), EffectView::Nothing)
        } else {
            (app, EffectView::Nothing)
        },
        KeyCode::Enter => if app.has_selected() && app.selected().tabs.len() > 0 {
            (app.in_mode(ModeView::TerminalInput).cleared(), EffectView::Nothing)
        } else {
            (app, EffectView::Nothing)
        },
        _ => (app, EffectView::Nothing),
    }
}

/// Whether a key leaves terminal input: control with space, or escape.
pub open spec fn leaves_terminal(key: KeyInput) -> bool {
    (key.code == KeyCode::Char(' ') && key.modifiers.control) || key.code == KeyCode::Esc
}

/// What a key does in terminal-input mode: the exit chord goes back to
/// navigation; any other key is sent to the active session, if it has bytes.
pub open spec fn terminal_step(app: AppView, key: KeyInput) -> (AppView, EffectView) {
    if leaves_terminal(key) {
        (app.in_mode(ModeView::Navigation), EffectView::Nothing)
    } else if app.has_selected() && app.selected().active_tab < app.selected().tabs.len() {
        match key_bytes(key) {
            Some(bytes) => (
                app,
                EffectView::Write {
                    session: app.selected().tabs[app.selected().active_tab as int].id,
                    bytes,
                },
            ),
            None => (app, EffectView::Nothing),
        }
    } else {
        (app, EffectView::Nothing)
    }
}

/// Whether a key is a letter `r` in either case.
pub open spec fn is_r(code: KeyCode) -> bool {
    code == KeyCode::Char('r') || code == KeyCode::Char('R')
}

/// What a key does while the form for adding a worktree is open.
pub open spec fn adding_step(app: AppView, form: AddView, key: KeyInput) -> (AppView, EffectView) {
    if key.modifiers.control && is_r(key.code) {
        (
            app,
            if key.modifiers.shift {
                EffectView::ClearTicketCache
            } else {
                EffectView::RefreshSuggestions
            },
        )
    } else if key.modifiers.control && key.code == KeyCode::Char(' ') {
        (app.in_mode(ModeView::Adding(form.toggled())), EffectView::Nothing)
    } else {
        match key.code {
            KeyCode::Esc => (app.in_mode(ModeView::Navigation), EffectView::Nothing),
            KeyCode::Enter => if form.trimmed().len() == 0 {
                (app.with_status("Branch name is required."@), EffectView::Nothing)
            } else {
                (
                    app.in_mode(ModeView::Navigation),
                    EffectView::AddWorktree {
                        branch: form.trimmed(),
                        dir_name: dir_name(form.trimmed()),
                        existing_branch: form.branch_exists,
                        upstream: form.branch_upstream,
                    },
                )
            },
            KeyCode::Up => (app.in_mode(ModeView::Adding(form.moved_up())), EffectView::Nothing),
            KeyCode::Down => (
                app.in_mode(ModeView::Adding(form.moved_down())),
                EffectView::Nothing,
            ),
            KeyCode::Tab => if form.selected() is Some {
                (app.in_mode(ModeView::Adding(form.accepted())), EffectView::Nothing)
            } else {
                (app.with_status("No suggestion selected."@), EffectView::Nothing)
            },
            KeyCode::Backspace => (
                app.in_mode(ModeView::Adding(form.erased())),
                EffectView::Nothing,
            ),
            KeyCode::Char(c) => if key.modifiers.control || key.modifiers.alt
                || key.modifiers.logo {
                (app, EffectView::Nothing)
            } else {
                (app.in_mode(ModeView::Adding(form.typed(c))), EffectView::Nothing)
            },
            _ => (app, EffectView::Nothing),
        }
    }
}

/// What a key does while a removal waits to be confirmed.
pub open spec fn removing_step(app: AppView, removal: RemoveView, key: KeyInput) -> (
    AppView,
    EffectView,
) {
    match key.code {
        KeyCode::Esc => (app.in_mode(ModeView::Navigation), EffectView::Nothing),
        KeyCode::Char(c) => if c == 'n' {
            (app.in_mode(ModeView::Navigation), EffectView::Nothing)
        } else if c == 'f' {
            (
                app.in_mode(ModeView::Removing(RemoveView { force: !removal.force, ..removal })),
                EffectView::Nothing,
            )
        } else if c == 'y' {
            (
                app.in_mode(ModeView::Navigation),
                EffectView::RemoveWorktree { target: removal.target, force: removal.force },
            )
        } else {
            (app, EffectView::Nothing)
        },
        _ => (app, EffectView::Nothing),
    }
}

/// What a key does while the list of quick actions is open.
pub open spec fn quick_actions_step(app: AppView, selected: usize, key: KeyInput) -> (
    AppView,
    EffectView,
) {
    let len = app.quick_actions.len() as usize;
    if len == 0 {
        (app.in_mode(ModeView::Navigation), EffectView::Nothing)
    } else {
        let at = clamp_index(selected, len);
        match key.code {
            KeyCode::Esc => (app.in_mode(ModeView::Navigation), EffectView::Nothing),
            KeyCode::Up => (
                app.in_mode(ModeView::QuickActions(index_up(at, len))),
                EffectView::Nothing,
            ),
            KeyCode::Down => (
                app.in_mode(ModeView::QuickActions(index_down(at, len))),
                EffectView::Nothing,
            ),
            KeyCode::Enter => if app.has_selected() {
                (
                    app.in_mode(ModeView::Navigation),
                    EffectView::StartQuickAction {
                        cwd: app.selected().info.path,
                        size: app.tab_size(),
                        action: at,
                        command: command_line(app.quick_actions[at as int].command),
                    },
                )
            } else {
                (
                    app.in_mode(ModeView::Navigation).with_status("No workspace selected."@),
                    EffectView::Nothing,
                )
            },
            _ => (app.in_mode(ModeView::QuickActions(at)), EffectView::Nothing),
        }
    }
}

/// What a key does while the help overlay is shown.
pub open spec fn help_step(app: AppView, key: KeyInput) -> (AppView, EffectView) {
    if key.code == KeyCode::Esc || key.code == KeyCode::Char('?') {
        (app.in_mode(ModeView::Navigation), EffectView::Nothing)
    } else {
        (app, EffectView::Nothing)
    }
}

/// What a key does, by the mode the application is in.
pub open spec fn key_step(app: AppView, key: KeyInput) -> (AppView, EffectView) {
    match app.mode {
        ModeView::Navigation => navigate(app, key),
        ModeView::TerminalInput => terminal_step(app, key),
        ModeView::Adding(form) => adding_step(app, form, key),
        ModeView::Removing(removal) => removing_step(app, removal, key),
        ModeView::QuickActions(selected) => quick_actions_step(app, selected, key),
        ModeView::Help => help_step(app, key),
    }
}

/// What an event does: a key acts by the mode, a resize sets the terminal
/// size, anything else does nothing.
pub open spec fn event_step(app: AppView, event: Event) -> (AppView, EffectView) {
    match event {
        Event::Key(key) => key_step(app, key),
        Event::Resize { width, height } => (
            AppView {
                terminal_size: TerminalSize {
                    rows: at_least_one(height),
                    cols: at_least_one(width),
                },
                ..app
            },
            EffectView::Nothing,
        ),
        Event::Other => (app, EffectView::Nothing),
    }
}

/// Tickets and branch lists loaded for the form.
#[derive(Debug)]
pub struct SuggestionData {
    pub tickets: Vec<JiraTicket>,
    pub local_branches: Vec<String>,
    pub remote_branches: Vec<String>,
}

/// The status shown after the tickets were loaded afresh.
pub open spec fn refreshed_status(count: usize) -> Seq<char> {
    "Refreshed Jira tickets ("@ + decimal(count as nat) + ")"@
}

/// The status shown after a worktree was made.
pub open spec fn added_status(path: Seq<char>, branch: Seq<char>, existing_branch: bool) -> Seq<
    char,
> {
    if existing_branch {
        "Added worktree "@ + path + " for existing branch "@ + branch
    } else {
        "Created worktree "@ + path + " for new branch "@ + branch
    }
}

impl AppView {
    /// The application after the caller reported on starting a plain tab in
    /// the selected workspace.
    pub open spec fn tab_started(self, started: Result<(), SpawnFailure>) -> AppView {
        if !self.has_selected() {
            self
        } else {
            let id = self.next_tab_id;
            let used = AppView { next_tab_id: (id + 1) as usize, ..self };
            match started {
                Ok(_) => used.with_selected(
                    self.selected().with_tab(fresh_session(id, tab_title(id), self.tab_size())),
                ).cleared(),
                Err(_) => used,
            }
        }
    }

    /// The application after the caller reported on starting the tab of
    /// quick action `action` in the selected workspace.
    pub open spec fn quick_action_started(
        self,
        action: usize,
        started: Result<(), SpawnFailure>,
    ) -> AppView {
        if !self.has_selected() || action >= self.quick_actions.len() {
            self
        } else {
            let id = self.next_tab_id;
            let used = AppView { next_tab_id: (id + 1) as usize, ..self };
            match started {
                Ok(_) => used.with_selected(
                    self.selected().with_tab(
                        fresh_session(
                            id,
                            quick_action_title(self.quick_actions[action as int].label, id),
                            self.tab_size(),
                        ),
                    ),
                ).cleared(),
                Err(_) => used,
            }
        }
    }

    /// The application after its workspace list was rebuilt and the
    /// workspace at `path`, if there is one, was selected.
    pub open spec fn refreshed_at(self, updates: Seq<UpdateView>, path: Seq<char>) -> AppView {
        let after = self.refreshed(updates);
        let at = position_of(after.workspaces, path, 0);
        if at < after.workspaces.len() {
            AppView { selected_workspace: at as usize, ..after }
        } else {
            after
        }
    }
}

impl App {
    /// Handles one event and says what outside work it asks for.
    pub fn handle_event(&mut self, event: Event) -> (effect: Effect)
        ensures
            final(self)@ == event_step(old(self)@, event).0,
            effect@ == event_step(old(self)@, event).1,
    {
        match event {
            Event::Key(key) => self.handle_key(key),
            Event::Resize { width, height } => {
                self.terminal_size = TerminalSize::new(height, width);
                Effect::Nothing
            },
            Event::Other => Effect::Nothing,
        }
    }

    /// Handles one key by the mode the application is in.
    pub fn handle_key(&mut self, key: KeyInput) -> (effect: Effect)
        ensures
            final(self)@ == key_step(old(self)@, key).0,
            effect@ == key_step(old(self)@, key).1,
    {
        let mut mode = Mode::Navigation;
        core::mem::swap(&mut self.mode, &mut mode);
        match mode {
            Mode::Navigation => self.handle_navigation_key(key),
            Mode::TerminalInput => {
                self.mode = Mode::TerminalInput;
                self.handle_terminal_key(key)
            },
            Mode::Adding(form) => self.handle_add_worktree_key(form, key),
            Mode::Removing(removal) => self.handle_remove_worktree_key(removal, key),
            Mode::QuickActions(list) => self.handle_quick_actions_key(list, key),
            Mode::Help => {
                let leave = match key.code {
                    KeyCode::Esc => true,
                    KeyCode::Char(c) => c == '?',
                    _ => false,
                };
                if !leave {
                    self.mode = Mode::Help;
                }
                Effect::Nothing
            },
        }
    }

    /// Handles a key in navigation mode.
    fn handle_navigation_key(&mut self, key: KeyInput) -> (effect: Effect)
        requires
            old(self)@.mode is Navigation,
        ensures
            final(self)@ == navigate(old(self)@, key).0,
            effect@ == navigate(old(self)@, key).1,
    {
        let len = self.workspaces.len();
        let at = self.selected_workspace;
        match key.code {
            KeyCode::Char(c) => {
                if c == 'q' {
                    self.should_quit = true;
                    Effect::Nothing
                } else if c == 'n' {
                    if at < len {
                        Effect::StartTab {
                            cwd: self.workspaces[at].path().to_owned(),
                            size: self.tab_size(),
                        }
                    } else {
                        Effect::Nothing
                    }
                } else if c == 'x' {
                    if at < len {
                        let closed = self.workspaces[at].close_active_tab();
                        self.status_message = None;
                        assert(workspace_views(self.workspaces@) =~= old(self)@.workspaces.update(
                            at as int,
                            old(self)@.selected().without_active(),
                        ));
                        match closed {
                            Some(session) => Effect::Teardown(session),
                            None => Effect::Nothing,
                        }
                    } else {
                        Effect::Nothing
                    }
                } else if c == 'a' {
                    Effect::LoadSuggestions
                } else if c == 'p' {
                    if at < len {
                        if self.workspaces[at].is_primary(self.repo_root.as_str()) {
                            self.status_message = Some(
                                "Cannot prune the primary worktree.".to_owned(),
                            );
                        } else {
                            self.mode = Mode::Removing(
                                RemoveWorktreeState::new(self.workspaces[at].path()),
                            );
                            self.status_message = None;
                        }
                    }
                    Effect::Nothing
                } else if c == '?' {
                    self.mode = Mode::Help;
                    self.status_message = None;
                    Effect::Nothing
                } else if c == 'c' {
                    if self.quick_actions.len() == 0 {
                        self.status_message = Some("No quick actions configured.".to_owned());
                    } else {
                        self.mode = Mode::QuickActions(QuickActionState { selected: 0 });
                        self.status_message = None;
                    }
                    Effect::Nothing
                } else {
                    Effect::Nothing
                }
            },
            KeyCode::Up => {
                if len > 0 {
                    if at == 0 {
                        self.selected_workspace = len - 1;
                    } else {
                        self.selected_workspace = at - 1;
                    }
                }
                Effect::Nothing
            },
            KeyCode::Down => {
                if len > 0 {
                    self.selected_workspace = crate::workspace::next_index(at, len);
                }
                Effect::Nothing
            },
            KeyCode::Left => {
                if at < len {
                    self.workspaces[at].select_prev_tab();
                    assert(workspace_views(self.workspaces@) =~= old(self)@.workspaces.update(
                        at as int,
                        old(self)@.selected().prev_selected(),
                    ));
                }
                Effect::Nothing
            },
            KeyCode::Right => {
                if at < len {
                    self.workspaces[at].select_next_tab();
                    assert(workspace_views(self.workspaces@) =~= old(self)@.workspaces.update(
                        at as int,
                        old(self)@.selected().next_selected(),
                    ));
                }
                Effect::Nothing
            },
            KeyCode::Enter => {
                if at < len && self.workspaces[at].has_tabs() {
                    self.mode = Mode::TerminalInput;
                    self.status_message = None;
                }
                Effect::Nothing
            },
            _ => Effect::Nothing,
        }
    }

    /// Handles a key in terminal-input mode.
    fn handle_terminal_key(&mut self, key: KeyInput) -> (effect: Effect)
        requires
            old(self)@.mode is TerminalInput,
        ensures
            final(self)@ == terminal_step(old(self)@, key).0,
            effect@ == terminal_step(old(self)@, key).1,
    {
        let leave = match key.code {
            KeyCode::Char(c) => c == ' ' && key.modifiers.control,
            KeyCode::Esc => true,
            _ => false,
        };
        if leave {
            self.mode = Mode::Navigation;
            return Effect::Nothing;
        }
        if self.selected_workspace < self.workspaces.len() {
            match self.workspaces[self.selected_workspace].active_tab() {
                Some(tab) => match tab.handle_key_event(key) {
                    Some(bytes) => Effect::Write { session: tab.id(), bytes },
                    None => Effect::Nothing,
                },
                None => Effect::Nothing,
            }
        } else {
            Effect::Nothing
        }
    }

    /// Handles a key while the form for adding a worktree is open. The form
    /// has been taken out of the mode.
    fn handle_add_worktree_key(&mut self, form: AddWorktreeState, key: KeyInput) -> (effect: Effect)
        requires
            old(self)@.mode is Navigation,
        ensures
            final(self)@ == adding_step(
                old(self)@.in_mode(ModeView::Adding(form@)),
                form@,
                key,
            ).0,
            effect@ == adding_step(old(self)@.in_mode(ModeView::Adding(form@)), form@, key).1,
    {
        let mut form = form;
        let is_r = match key.code {
            KeyCode::Char(c) => c == 'r' || c == 'R',
            _ => false,
        };
        let is_space = match key.code {
            KeyCode::Char(c) => c == ' ',
            _ => false,
        };
        if key.modifiers.control && is_r {
            self.mode = Mode::Adding(form);
            return if key.modifiers.shift {
                Effect::ClearTicketCache
            } else {
                Effect::RefreshSuggestions
            };
        }
        if key.modifiers.control && is_space {
            form.toggle_overlay();
            self.mode = Mode::Adding(form);
            return Effect::Nothing;
        }
        match key.code {
            KeyCode::Esc => Effect::Nothing,
            KeyCode::Enter => {
                let branch = form.branch_trimmed();
                if branch.as_str().unicode_len() == 0 {
                    self.status_message = Some("Branch name is required.".to_owned());
                    self.mode = Mode::Adding(form);
                    Effect::Nothing
                } else {
                    let dir_name = branch_dir_name(branch.as_str());
                    let upstream = match form.branch_upstream() {
                        Some(reference) => Some(reference.to_owned()),
                        None => None,
                    };
                    Effect::AddWorktree {
                        branch,
                        dir_name,
                        existing_branch: form.branch_exists(),
                        upstream,
                    }
                }
            },
            KeyCode::Up => {
                form.move_selection_up();
                self.mode = Mode::Adding(form);
                Effect::Nothing
            },
            KeyCode::Down => {
                form.move_selection_down();
                self.mode = Mode::Adding(form);
                Effect::Nothing
            },
            KeyCode::Tab => {
                if !form.accept_selection() {
                    self.status_message = Some("No suggestion selected.".to_owned());
                }
                self.mode = Mode::Adding(form);
                Effect::Nothing
            },
            KeyCode::Backspace => {
                form.backspace();
                self.mode = Mode::Adding(form);
                Effect::Nothing
            },
            KeyCode::Char(c) => {
                if !(key.modifiers.control || key.modifiers.alt || key.modifiers.logo) {
                    form.push_char(c);
                }
                self.mode = Mode::Adding(form);
                Effect::Nothing
            },
            _ => {
                self.mode = Mode::Adding(form);
                Effect::Nothing
            },
        }
    }

    /// Handles a key while a removal waits to be confirmed. The removal has
    /// been taken out of the mode.
    fn handle_remove_worktree_key(&mut self, removal: RemoveWorktreeState, key: KeyInput) -> (effect:
        Effect)
        requires
            old(self)@.mode is Navigation,
        ensures
            final(self)@ == removing_step(
                old(self)@.in_mode(ModeView::Removing(removal@)),
                removal@,
                key,
            ).0,
            effect@ == removing_step(
                old(self)@.in_mode(ModeView::Removing(removal@)),
                removal@,
                key,
            ).1,
    {
        let mut removal = removal;
        match key.code {
            KeyCode::Esc => Effect::Nothing,
            KeyCode::Char(c) => {
                if c == 'n' {
                    Effect::Nothing
                } else if c == 'f' {
                    removal.toggle_force();
                    self.mode = Mode::Removing(removal);
                    Effect::Nothing
                } else if c == 'y' {
                    Effect::RemoveWorktree {
                        target: removal.target().to_owned(),
                        force: removal.force(),
                    }
                } else {
                    self.mode = Mode::Removing(removal);
                    Effect::Nothing
                }
            },
            _ => {
                self.mode = Mode::Removing(removal);
                Effect::Nothing
            },
        }
    }

    /// Handles a key while the list of quick actions is open. The selection
    /// has been taken out of the mode.
    fn handle_quick_actions_key(&mut self, list: QuickActionState, key: KeyInput) -> (effect: Effect)
        requires
            old(self)@.mode is Navigation,
        ensures
            final(self)@ == quick_actions_step(
                old(self)@.in_mode(ModeView::QuickActions(list.selected)),
                list.selected,
                key,
            ).0,
            effect@ == quick_actions_step(
                old(self)@.in_mode(ModeView::QuickActions(list.selected)),
                list.selected,
                key,
            ).1,
    {
        let mut list = list;
        let len = self.quick_actions.len();
        if len == 0 {
            return Effect::Nothing;
        }
        list.clamp(len);
        match key.code {
            KeyCode::Esc => Effect::Nothing,
            KeyCode::Up => {
                list.move_up(len);
                self.mode = Mode::QuickActions(list);
                Effect::Nothing
            },
            KeyCode::Down => {
                list.move_down(len);
                self.mode = Mode::QuickActions(list);
                Effect::Nothing
            },
            KeyCode::Enter => {
                let at = list.selected;
                if self.selected_workspace < self.workspaces.len() {
                    let workspace = &self.workspaces[self.selected_workspace];
                    let action = &self.quick_actions[at];
                    let mut command = action.command.as_str().as_bytes_vec();
                    command.push(0x0d);
                    command.push(0x0a);
                    assert(command@ =~= command_line(action.command@));
                    assert(action_views(self.quick_actions@)[at as int] == action@);
                    assert(workspace_views(self.workspaces@)[self.selected_workspace as int]
                        == workspace@);
                    Effect::StartQuickAction {
                        cwd: workspace.path().to_owned(),
                        size: self.tab_size(),
                        action: at,
                        command,
                    }
                } else {
                    self.status_message = Some("No workspace selected.".to_owned());
                    Effect::Nothing
                }
            },
            _ => {
                self.mode = Mode::QuickActions(list);
                Effect::Nothing
            },
        }
    }

    /// Takes the caller's report on an [`Effect::StartTab`]: a session that
    /// started becomes the active tab of the selected workspace and the
    /// status message goes; a failure is handed back and no tab is added.
    /// The tab number is used up either way.
    pub fn tab_started(&mut self, started: Result<(), SpawnFailure>) -> (out: Result<
        (),
        SpawnFailure,
    >)
        requires
            old(self)@.next_tab_id < usize::MAX,
        ensures
            final(self)@ == old(self)@.tab_started(started),
            out is Ok == started is Ok,
            out is Err ==> out->Err_0 == started->Err_0,
    {
        let at = self.selected_workspace;
        if at < self.workspaces.len() {
            let size = self.tab_size();
            let out = self.workspaces[at].spawn_tab(&mut self.next_tab_id, size, started);
            if out.is_ok() {
                self.status_message = None;
                assert(workspace_views(self.workspaces@) =~= old(self)@.workspaces.update(
                    at as int,
                    old(self)@.selected().with_tab(
                        fresh_session(
                            old(self)@.next_tab_id,
                            tab_title(old(self)@.next_tab_id),
                            old(self)@.tab_size(),
                        ),
                    ),
                ));
            } else {
                assert(workspace_views(self.workspaces@) =~= old(self)@.workspaces);
            }
            out
        } else {
            started
        }
    }

    /// Takes the caller's report on an [`Effect::StartQuickAction`]: a
    /// session that started and took the command becomes the active tab of
    /// the selected workspace, titled after the action, and the status
    /// message goes; a failure is handed back and no tab is added.
    pub fn quick_action_started(&mut self, action: usize, started: Result<(), SpawnFailure>) -> (out:
        Result<(), SpawnFailure>)
        requires
            old(self)@.next_tab_id < usize::MAX,
        ensures
            final(self)@ == old(self)@.quick_action_started(action, started),
            out is Ok == started is Ok,
            out is Err ==> out->Err_0 == started->Err_0,
    {
        let at = self.selected_workspace;
        if at < self.workspaces.len() && action < self.quick_actions.len() {
            let size = self.tab_size();
            let out = self.workspaces[at].spawn_quick_action_tab(
                &mut self.next_tab_id,
                size,
                &self.quick_actions[action],
                started,
            );
            if out.is_ok() {
                self.status_message = None;
                assert(workspace_views(self.workspaces@) =~= old(self)@.workspaces.update(
                    at as int,
                    old(self)@.selected().with_tab(
                        fresh_session(
                            old(self)@.next_tab_id,
                            quick_action_title(
                                old(self)@.quick_actions[action as int].label,
                                old(self)@.next_tab_id,
                            ),
                            old(self)@.tab_size(),
                        ),
                    ),
                ));
            } else {
                assert(workspace_views(self.workspaces@) =~= old(self)@.workspaces);
            }
            out
        } else {
            started
        }
    }

    /// Takes the caller's report on an [`Effect::LoadSuggestions`] and opens
    /// the form. A list that failed to load is taken as empty and named in
    /// the status message.
    pub fn begin_adding(
        &mut self,
        tickets: Result<Vec<JiraTicket>, String>,
        locals: Result<Vec<String>, String>,
        remotes: Result<Vec<String>, String>,
    )
        ensures
            final(self)@ == (AppView {
                mode: ModeView::Adding(
                    opened(
                        loaded_tickets(tickets),
                        loaded_names(locals),
                        loaded_names(remotes),
                        InputStyle::Sanitized,
                    ),
                ),
                status_message: load_warning(tickets, locals, remotes),
                ..old(self)@
            }),
    {
        let (form, warning) = AddWorktreeState::new(tickets, locals, remotes);
        self.mode = Mode::Adding(form);
        self.status_message = warning;
    }

    /// Takes the caller's report on an [`Effect::RefreshSuggestions`]. While
    /// the form is open, fresh lists replace the old ones and the status
    /// tells the number of tickets; a failure is told in the status. Outside
    /// the form the report is dropped.
    pub fn suggestions_refreshed(&mut self, loaded: Result<SuggestionData, String>)
        ensures
            !(old(self)@.mode is Adding) ==> final(self)@ == old(self)@,
            old(self)@.mode is Adding ==> final(self)@ == match loaded {
                Ok(data) => old(self)@.in_mode(
                    ModeView::Adding(
                        (AddView {
                            tickets: ticket_views(data.tickets@),
                            local_branches: texts(data.local_branches@),
                            remote_branches: texts(data.remote_branches@),
                            show_overlay: true,
                            ..old(self)@.mode->Adding_0
                        }).rebuilt().recomputed(),
                    ),
                ).with_status(refreshed_status(data.tickets.len())),
                Err(error) => old(self)@.with_status("Failed to refresh Jira tickets: "@ + error@),
            },
    {
        let mut mode = Mode::Navigation;
        core::mem::swap(&mut self.mode, &mut mode);
        match mode {
            Mode::Adding(form) => {
                let mut form = form;
                match loaded {
                    Ok(data) => {
                        let count = form.refresh_data(
                            data.tickets,
                            data.local_branches,
                            data.remote_branches,
                        );
                        let number = decimal_string(count as u64);
                        self.status_message = Some(
                            concat3("Refreshed Jira tickets (", number.as_str(), ")"),
                        );
                    },
                    Err(error) => {
                        self.status_message = Some(
                            concat2("Failed to refresh Jira tickets: ", error.as_str()),
                        );
                    },
                }
                self.mode = Mode::Adding(form);
            },
            other => {
                self.mode = other;
            },
        }
    }

    /// Takes the caller's report on an [`Effect::ClearTicketCache`]. While
    /// the form is open, a cleared cache takes the tickets out of the form; a
    /// failure is told in the status. Outside the form the report is dropped.
    pub fn ticket_cache_cleared(&mut self, outcome: Result<(), String>)
        ensures
            !(old(self)@.mode is Adding) ==> final(self)@ == old(self)@,
            old(self)@.mode is Adding ==> final(self)@ == match outcome {
                Ok(_) => old(self)@.in_mode(
                    ModeView::Adding(
                        (AddView {
                            selection: None,
                            show_overlay: false,
                            ..(AddView { tickets: seq![], ..old(self)@.mode->Adding_0 }).rebuilt()
                        }).recomputed(),
                    ),
                ).with_status("Cleared Jira ticket cache."@),
                Err(error) => old(self)@.with_status("Failed to clear Jira cache: "@ + error@),
            },
    {
        let mut mode = Mode::Navigation;
        core::mem::swap(&mut self.mode, &mut mode);
        match mode {
            Mode::Adding(form) => {
                let mut form = form;
                match outcome {
                    Ok(_) => {
                        form.clear_cache();
                        self.status_message = Some("Cleared Jira ticket cache.".to_owned());
                    },
                    Err(error) => {
                        self.status_message = Some(
                            concat2("Failed to clear Jira cache: ", error.as_str()),
                        );
                    },
                }
                self.mode = Mode::Adding(form);
            },
            other => {
                self.mode = other;
            },
        }
    }

    /// Takes the caller's report on an [`Effect::AddWorktree`]. `outcome` is
    /// the error of the version-control collaborator, or the worktrees it
    /// lists after the new one was made at `path`. A failure is told in the
    /// status and changes nothing else. On success the status names the new
    /// worktree, the workspace list is rebuilt as by
    /// [`App::refresh_worktrees`], and the new workspace is selected.
    pub fn worktree_added(
        &mut self,
        path: &str,
        branch: &str,
        existing_branch: bool,
        outcome: Result<Vec<WorktreeUpdate>, String>,
    ) -> (out: Result<Vec<WorkspaceState>, SpawnFailure>)
        requires
            outcome is Ok ==> old(self)@.next_tab_id + outcome->Ok_0.len() < usize::MAX,
        ensures
            outcome is Err ==> out is Ok && out->Ok_0.len() == 0 && final(self)@ == old(self)@.with_status("Failed to create worktree: "@ + outcome->Err_0@),
            outcome is Ok ==> {
                let told = old(self)@.with_status(added_status(path@, branch@, existing_branch));
                let updates = update_views(outcome->Ok_0@);
                let result = rebuild_all(
                    told.workspaces,
                    updates,
                    told.terminal_size,
                    told.next_tab_id,
                );
                &&& out is Err == result.failure is Some
                &&& out is Err ==> Some(out->Err_0) == result.failure && final(self)@
                    == told.refreshed(updates)
                &&& out is Ok ==> workspace_views(out->Ok_0@) == result.remaining && final(self)@
                    == told.refreshed_at(updates, path@)
            },
    {
        match outcome {
            Err(error) => {
                self.status_message = Some(
                    concat2("Failed to create worktree: ", error.as_str()),
                );
                Ok(Vec::new())
            },
            Ok(updates) => {
                let mut text: Vec<char> = Vec::new();
                if existing_branch {
                    crate::text::push_str(&mut text, "Added worktree ");
                    crate::text::push_str(&mut text, path);
                    crate::text::push_str(&mut text, " for existing branch ");
                } else {
                    crate::text::push_str(&mut text, "Created worktree ");
                    crate::text::push_str(&mut text, path);
                    crate::text::push_str(&mut text, " for new branch ");
                }
                crate::text::push_str(&mut text, branch);
                assert(text@ =~= added_status(path@, branch@, existing_branch));
                self.status_message = Some(crate::text::string_of(&text));
                match self.refresh_worktrees(updates) {
                    Ok(gone) => {
                        match self.index_of_path(path) {
                            Some(at) => {
                                self.selected_workspace = at;
                            },
                            None => {},
                        }
                        Ok(gone)
                    },
                    Err(failure) => Err(failure),
                }
            },
        }
    }

    /// Takes the caller's report on an [`Effect::RemoveWorktree`]. `outcome`
    /// is the error of the version-control collaborator, or the worktrees it
    /// lists after the removal. A failure is told in the status and changes
    /// nothing else. On success the status names the removed worktree and
    /// the workspace list is rebuilt as by [`App::refresh_worktrees`].
    pub fn worktree_removed(&mut self, target: &str, outcome: Result<Vec<WorktreeUpdate>, String>) -> (out:
        Result<Vec<WorkspaceState>, SpawnFailure>)
        requires
            outcome is Ok ==> old(self)@.next_tab_id + outcome->Ok_0.len() < usize::MAX,
        ensures
            outcome is Err ==> out is Ok && out->Ok_0.len() == 0 && final(self)@ == old(self)@.with_status("Failed to remove worktree: "@ + outcome->Err_0@),
            outcome is Ok ==> {
                let told = old(self)@.with_status("Removed worktree "@ + target@);
                let updates = update_views(outcome->Ok_0@);
                let result = rebuild_all(
                    told.workspaces,
                    updates,
                    told.terminal_size,
                    told.next_tab_id,
                );
                &&& final(self)@ == told.refreshed(updates)
                &&& out is Err == result.failure is Some
                &&& out is Err ==> Some(out->Err_0) == result.failure
                &&& out is Ok ==> workspace_views(out->Ok_0@) == result.remaining
            },
    {
        match outcome {
            Err(error) => {
                self.status_message = Some(
                    concat2("Failed to remove worktree: ", error.as_str()),
                );
                Ok(Vec::new())
            },
            Ok(updates) => {
                self.status_message = Some(concat2("Removed worktree ", target));
                self.refresh_worktrees(updates)
            },
        }
    }
}

impl AppView {
    /// The application after the child of the session with number `id`
    /// ended.
    pub open spec fn exited(self, id: usize, success: bool) -> AppView {
        AppView {
            workspaces: Seq::new(
                self.workspaces.len(),
                |i: int| self.workspaces[i].exited(id, success),
            ),
            ..self
        }
    }

    /// Whether some workspace has a running session with number `id`.
    pub open spec fn monitors(self, id: usize) -> bool {
        exists|w: int| 0 <= w < self.workspaces.len() && (#[trigger] self.workspaces[w]).monitors(id)
    }

    /// The application after the title monitor of the session with number
    /// `id` looked at the process table.
    pub open spec fn retitled(self, id: usize, table: Seq<ProcessInfo>, shell: u32) -> AppView {
        AppView {
            workspaces: Seq::new(
                self.workspaces.len(),
                |i: int| self.workspaces[i].retitled(id, table, shell),
            ),
            ..self
        }
    }
}

impl App {
    /// Records that the child of the session with number `id` ended,
    /// wherever that session is. The first record of a session stands.
    pub fn record_exit(&mut self, id: usize, success: bool)
        ensures
            final(self)@ == old(self)@.exited(id, success),
    {
        let n = self.workspaces.len();
        let mut i: usize = 0;
        while i < n
            invariant
                i <= n == self.workspaces.len() == old(self).workspaces.len(),
                self.repo_root == old(self).repo_root,
                self.workspace_root == old(self).workspace_root,
                self.selected_workspace == old(self).selected_workspace,
                self.mode == old(self).mode,
                self.quick_actions == old(self).quick_actions,
                self.next_tab_id == old(self).next_tab_id,
                self.should_quit == old(self).should_quit,
                self.terminal_size == old(self).terminal_size,
                self.terminal_view_size == old(self).terminal_view_size,
                self.status_message == old(self).status_message,
                forall|j: int|
                    0 <= j < i ==> self.workspaces@[j]@ == old(self).workspaces@[j]@.exited(
                        id,
                        success,
                    ),
                forall|j: int| i <= j < n ==> self.workspaces@[j] == old(self).workspaces@[j],
            decreases n - i,
        {
            self.workspaces[i].record_exit(id, success);
            i += 1;
        }
        assert(self@.workspaces =~= old(self)@.exited(id, success).workspaces);
    }

    /// One round of the title monitor of the session with number `id`.
    /// Returns whether the monitor goes on: it stops once the session has
    /// ended or is gone.
    pub fn refresh_title(&mut self, id: usize, table: &Vec<ProcessInfo>, shell: u32) -> (keep_going:
        bool)
        ensures
            final(self)@ == old(self)@.retitled(id, table@, shell),
            keep_going == old(self)@.monitors(id),
    {
        let n = self.workspaces.len();
        let mut keep_going = false;
        let mut i: usize = 0;
        while i < n
            invariant
                i <= n == self.workspaces.len() == old(self).workspaces.len(),
                self.repo_root == old(self).repo_root,
                self.workspace_root == old(self).workspace_root,
                self.selected_workspace == old(self).selected_workspace,
                self.mode == old(self).mode,
                self.quick_actions == old(self).quick_actions,
                self.next_tab_id == old(self).next_tab_id,
                self.should_quit == old(self).should_quit,
                self.terminal_size == old(self).terminal_size,
                self.terminal_view_size == old(self).terminal_view_size,
                self.status_message == old(self).status_message,
                forall|j: int|
                    0 <= j < i ==> self.workspaces@[j]@ == old(self).workspaces@[j]@.retitled(
                        id,
                        table@,
                        shell,
                    ),
                forall|j: int| i <= j < n ==> self.workspaces@[j] == old(self).workspaces@[j],
                keep_going == exists|w: int|
                    0 <= w < i && (#[trigger] old(self)@.workspaces[w]).monitors(id),
            decreases n - i,
        {
            assert(old(self)@.workspaces[i as int] == old(self).workspaces@[i as int]@);
            if self.workspaces[i].refresh_title(id, table, shell) {
                keep_going = true;
            }
            i += 1;
        }
        assert(self@.workspaces =~= old(self)@.retitled(id, table@, shell).workspaces);
        keep_going
    }

    /// Gives the active tab of the selected workspace the size of the area
    /// it is shown in. Returns the number of the session and the geometry to
    /// apply to its screen and pseudo-terminal, if the size changed.
    pub fn resize_active(&mut self, size: TerminalSize) -> (request: Option<(usize, PtyGeometry)>)
        ensures
            ({
                let app = old(self)@;
                if app.has_selected() && app.selected().active_tab < app.selected().tabs.len() {
                    let at = app.selected().active_tab as int;
                    let tab = app.selected().tabs[at];
                    &&& final(self)@ == app.with_selected(
                        WorkspaceView {
                            tabs: app.selected().tabs.update(at, resize_step(tab, size).0),
                            ..app.selected()
                        },
                    )
                    &&& request == match resize_step(tab, size).1 {
                        Some(geometry) => Some((tab.id, geometry)),
                        None => None,
                    }
                } else {
                    final(self)@ == app && request is None
                }
            }),
    {
        let at = self.selected_workspace;
        if at < self.workspaces.len() {
            let id = match self.workspaces[at].active_tab() {
                Some(tab) => tab.id(),
                None => {
                    return None;
                },
            };
            let request = self.workspaces[at].resize_active(size);
            assert(workspace_views(self.workspaces@) =~= old(self)@.workspaces.update(
                at as int,
                self.workspaces@[at as int]@,
            ));
            match request {
                Some(geometry) => Some((id, geometry)),
                None => None,
            }
        } else {
            None
        }
    }
}

/// The fixed lines of the help overlay.
pub open spec fn help_lines() -> Seq<Seq<char>> {
    seq![
        "Navigation"@,
        "  \u{2191}/\u{2193}: switch worktree"@,
        "  \u{2190}/\u{2192}: cycle tabs"@,
        "  Enter: focus terminal"@,
        "  n: new tab"@,
        "  x: close tab"@,
        "  a: add worktree"@,
        "  p: prune worktree"@,
        "  c: quick actions"@,
        "  q: quit"@,
        ""@,
        "Terminal"@,
        "  Ctrl+Space or Esc: back to navigation"@,
        ""@,
        "Add worktree"@,
        "  Type to filter tickets/branches"@,
        "  \u{2191}/\u{2193}: select suggestion"@,
        "  Tab: accept selection"@,
        "  Ctrl+R: refresh tickets"@,
        "  Ctrl+Shift+R: clear cache"@,
        "  Ctrl+Space: toggle overlay"@,
        "  Esc: cancel"@,
    ]
}

/// The help line of a quick action.
pub open spec fn action_line(action: ActionView) -> Seq<char> {
    "  "@ + action.label + " \u{2014} "@ + action.command
}

/// The lines of the help overlay: the fixed lines and, if quick actions are
/// configured, an empty line, a heading and one line for each.
pub open spec fn help_with_actions(actions: Seq<ActionView>) -> Seq<Seq<char>> {
    if actions.len() == 0 {
        help_lines()
    } else {
        help_lines() + seq![""@, "Quick actions:"@] + Seq::new(
            actions.len(),
            |i: int| action_line(actions[i]),
        )
    }
}

/// What the status line shows while there is no message.
pub open spec fn idle_status() -> Seq<char> {
    "q: quit \u{2022} a: add \u{2022} p: prune \u{2022} ?: help"@
}

impl App {
    /// The text of the help overlay, one line after another.
    pub fn help_text(&self) -> (text: String)
        ensures
            text@ == crate::text::joined_texts(
                help_with_actions(self@.quick_actions),
                seq!['\n'],
            ),
    {
        let mut lines: Vec<String> = Vec::new();
        lines.push("Navigation".to_owned());
        lines.push("  \u{2191}/\u{2193}: switch worktree".to_owned());
        lines.push("  \u{2190}/\u{2192}: cycle tabs".to_owned());
        lines.push("  Enter: focus terminal".to_owned());
        lines.push("  n: new tab".to_owned());
        lines.push("  x: close tab".to_owned());
        lines.push("  a: add worktree".to_owned());
        lines.push("  p: prune worktree".to_owned());
        lines.push("  c: quick actions".to_owned());
        lines.push("  q: quit".to_owned());
        lines.push("".to_owned());
        lines.push("Terminal".to_owned());
        lines.push("  Ctrl+Space or Esc: back to navigation".to_owned());
        lines.push("".to_owned());
        lines.push("Add worktree".to_owned());
        lines.push("  Type to filter tickets/branches".to_owned());
        lines.push("  \u{2191}/\u{2193}: select suggestion".to_owned());
        lines.push("  Tab: accept selection".to_owned());
        lines.push("  Ctrl+R: refresh tickets".to_owned());
        lines.push("  Ctrl+Shift+R: clear cache".to_owned());
        lines.push("  Ctrl+Space: toggle overlay".to_owned());
        lines.push("  Esc: cancel".to_owned());
        assert(texts(lines@) =~= help_lines());
        let n = self.quick_actions.len();
        if n > 0 {
            lines.push("".to_owned());
            lines.push("Quick actions:".to_owned());
            let ghost head = texts(lines@);
            assert(head =~= help_lines() + seq![""@, "Quick actions:"@]);
            let mut i: usize = 0;
            while i < n
                invariant
                    i <= n == self.quick_actions.len(),
                    texts(lines@) == head + Seq::new(
                        i as nat,
                        |j: int| action_line(self.quick_actions@[j]@),
                    ),
                decreases n - i,
            {
                let action = &self.quick_actions[i];
                let mut line: Vec<char> = Vec::new();
                crate::text::push_str(&mut line, "  ");
                crate::text::push_str(&mut line, action.label.as_str());
                crate::text::push_str(&mut line, " \u{2014} ");
                crate::text::push_str(&mut line, action.command.as_str());
                assert(line@ =~= action_line(action@));
                let line = crate::text::string_of(&line);
                proof {
                    crate::text::lemma_texts_push(lines@, line);
                    assert(texts(lines@).push(line@) =~= head + Seq::new(
                        (i + 1) as nat,
                        |j: int| action_line(self.quick_actions@[j]@),
                    ));
                }
                lines.push(line);
                i += 1;
            }
            assert(texts(lines@) =~= help_with_actions(self@.quick_actions));
        }
        proof {
            reveal_strlit("\n");
            assert("\n"@ =~= seq!['\n']);
        }
        crate::text::join_strings(&lines, "\n")
    }

    /// The text of the status line: the message, or the keys while there is
    /// none.
    pub fn status_text(&self) -> (text: String)
        ensures
            text@ == match self@.status_message {
                Some(message) => message,
                None => idle_status(),
            },
    {
        match &self.status_message {
            Some(message) => message.clone(),
            None => "q: quit \u{2022} a: add \u{2022} p: prune \u{2022} ?: help".to_owned(),
        }
    }
}

/// Replacing the selected workspace by a well-formed one keeps the
/// application well formed.
proof fn lemma_with_selected_wf(app: AppView, workspace: WorkspaceView)
    requires
        app.wf(),
        app.has_selected(),
        workspace.wf(),
    ensures
        app.with_selected(workspace).wf(),
{
    let after = app.with_selected(workspace);
    assert forall|i: int| 0 <= i < after.workspaces.len() implies (#[trigger] after.workspaces[i]).wf() by {
        if i != app.selected_workspace {
            assert(after.workspaces[i] == app.workspaces[i]);
        }
    }
}

/// No event takes a well-formed application out of well-formedness: after
/// every key, resize or other event the selected index still names a
/// workspace whenever there is one, and in every workspace the active index
/// still names a tab whenever there is one.
pub proof fn lemma_event_keeps_wf(app: AppView, event: Event)
    requires
        app.wf(),
    ensures
        event_step(app, event).0.wf(),
{
    match event {
        Event::Key(key) => {
            match app.mode {
                ModeView::Navigation => {
                    if app.has_selected() {
                        let workspace = app.selected();
                        assert(workspace.wf());
                        crate::workspace::lemma_close_active_tab(workspace);
                        lemma_with_selected_wf(app, workspace.without_active());
                        lemma_with_selected_wf(app, workspace.prev_selected());
                        if workspace.tabs.len() > 0 {
                            crate::workspace::lemma_wrap(
                                workspace.active_tab as int,
                                workspace.tabs.len() as int,
                            );
                        }
                        lemma_with_selected_wf(app, workspace.next_selected());
                    }
                    if app.workspaces.len() > 0 {
                        crate::workspace::lemma_wrap(
                            app.selected_workspace as int,
                            app.workspaces.len() as int,
                        );
                    }
                },
                _ => {},
            }
        },
        _ => {},
    }
}

/// Registering a started tab keeps a well-formed application well formed.
pub proof fn lemma_tab_started_keeps_wf(app: AppView, started: Result<(), SpawnFailure>)
    requires
        app.wf(),
    ensures
        app.tab_started(started).wf(),
{
    if app.has_selected() {
        let id = app.next_tab_id;
        let used = AppView { next_tab_id: (id + 1) as usize, ..app };
        let workspace = app.selected().with_tab(fresh_session(id, tab_title(id), app.tab_size()));
        assert(used.wf());
        lemma_with_selected_wf(used, workspace);
    }
}

} // verus!
