//! A workspace: one git worktree with its ordered tabs and the active tab.

use vstd::prelude::*;
use crate::config::QuickAction;
use crate::git::{worktree_name, WorktreeInfo, WorktreeView};
use crate::paths::{path_eq, same_path};
use crate::session::{
    exit_recorded, fresh_session, resize_step, title_after, PtyGeometry, PtySession, SessionView,
    SpawnFailure,
};
use crate::title::ProcessInfo;
use crate::size::TerminalSize;
use crate::text::{decimal, push_decimal, push_str, string_of};

verus! {

/// The mathematical value of a workspace.
pub struct WorkspaceView {
    pub info: WorktreeView,
    pub tabs: Seq<SessionView>,
    pub active_tab: usize,
}

/// A worktree with its tabs.
#[derive(Debug)]
pub struct WorkspaceState {
    info: WorktreeInfo,
    tabs: Vec<PtySession>,
    active_tab: usize,
}

/// The values of a list of sessions.
pub open spec fn views(tabs: Seq<PtySession>) -> Seq<SessionView> {
    Seq::new(tabs.len(), |i: int| tabs[i]@)
}

impl View for WorkspaceState {
    type V = WorkspaceView;

    closed spec fn view(&self) -> WorkspaceView {
        WorkspaceView { info: self.info@, tabs: views(self.tabs@), active_tab: self.active_tab }
    }
}

/// Whether a session's child is still running.
pub open spec fn running(session: SessionView) -> bool {
    session.exit_status is None
}

/// Whether a session's child has ended.
pub open spec fn ended(session: SessionView) -> bool {
    session.exit_status is Some
}

/// The active index brought into range for `len` tabs: an index past the end
/// becomes the last one. With no tab left the index stays as it is.
pub open spec fn clamped(active: usize, len: nat) -> usize {
    if active >= len && len > 0 {
        (len - 1) as usize
    } else {
        active
    }
}

/// The title of the plain tab with number `id`.
pub open spec fn tab_title(id: usize) -> Seq<char> {
    "Tab "@ + decimal(id as nat)
}

/// The title of the quick-action tab with number `id`.
pub open spec fn quick_action_title(label: Seq<char>, id: usize) -> Seq<char> {
    label + " ("@ + decimal(id as nat) + ")"@
}

/// The label of a workspace in the side bar: its name, its branch in
/// brackets, and one mark: primary before prunable before locked.
pub open spec fn sidebar_text(info: WorktreeView, repo_root: Seq<char>) -> Seq<char> {
    worktree_name(info.path) + match info.branch {
        Some(branch) => " ["@ + branch + "]"@,
        None => seq![],
    } + if path_eq(info.path, repo_root) {
        " (primary)"@
    } else if info.is_prunable {
        " (prunable)"@
    } else if info.is_locked {
        " (locked)"@
    } else {
        seq![]
    }
}

/// The workspace for a worktree as it opens: one tab, which has the number
/// `id` and the plain title of that number, and is the active one.
pub open spec fn fresh_workspace(info: WorktreeView, id: usize, size: TerminalSize) -> WorkspaceView {
    WorkspaceView { info, tabs: seq![fresh_session(id, tab_title(id), size)], active_tab: 0 }
}

/// A workspace as it opens has exactly one session, which is running, and
/// its active index is 0.
pub proof fn lemma_fresh_workspace(info: WorktreeView, id: usize, size: TerminalSize)
    ensures
        fresh_workspace(info, id, size).tabs.len() == 1,
        fresh_workspace(info, id, size).active_tab == 0,
        running(fresh_workspace(info, id, size).tabs[0]),
        fresh_workspace(info, id, size).wf(),
        fresh_workspace(info, id, size).fits(),
{
}

impl WorkspaceView {
    /// The number of tabs is one that the machine can count. This holds of
    /// the value of every workspace.
    pub open spec fn fits(self) -> bool {
        self.tabs.len() <= usize::MAX
    }

    /// With at least one tab, the active index names one of them.
    pub open spec fn wf(self) -> bool {
        self.tabs.len() > 0 ==> self.active_tab < self.tabs.len()
    }

    /// The workspace with one more tab, which becomes the active one.
    pub open spec fn with_tab(self, session: SessionView) -> WorkspaceView {
        WorkspaceView {
            tabs: self.tabs.push(session),
            active_tab: self.tabs.len() as usize,
            ..self
        }
    }

    /// The workspace after closing the active tab: the last remaining tab is
    /// never closed, and an active index that names no tab closes nothing.
    pub open spec fn without_active(self) -> WorkspaceView {
        if self.tabs.len() <= 1 || self.active_tab >= self.tabs.len() {
            self
        } else {
            WorkspaceView {
                tabs: self.tabs.remove(self.active_tab as int),
                active_tab: clamped(self.active_tab, (self.tabs.len() - 1) as nat),
                ..self
            }
        }
    }

    /// The workspace after dropping every session whose child has ended.
    pub open spec fn reaped(self) -> WorkspaceView {
        let kept = self.tabs.filter(|s: SessionView| running(s));
        WorkspaceView { tabs: kept, active_tab: clamped(self.active_tab, kept.len()), ..self }
    }

    /// The workspace after the child of the session with number `id` ended:
    /// that session's completion flag is set unless it was set before.
    pub open spec fn exited(self, id: usize, success: bool) -> WorkspaceView {
        WorkspaceView {
            tabs: Seq::new(
                self.tabs.len(),
                |i: int|
                    if self.tabs[i].id == id {
                        SessionView {
                            exit_status: exit_recorded(self.tabs[i].exit_status, success),
                            ..self.tabs[i]
                        }
                    } else {
                        self.tabs[i]
                    },
            ),
            ..self
        }
    }

    /// Whether the workspace has a running session with number `id`.
    pub open spec fn monitors(self, id: usize) -> bool {
        exists|i: int| 0 <= i < self.tabs.len() && (#[trigger] self.tabs[i]).id == id && running(
            self.tabs[i],
        )
    }

    /// The workspace after the title monitor of the session with number `id`
    /// looked at the process table.
    pub open spec fn retitled(self, id: usize, table: Seq<ProcessInfo>, shell: u32) -> WorkspaceView {
        WorkspaceView {
            tabs: Seq::new(
                self.tabs.len(),
                |i: int|
                    if self.tabs[i].id == id {
                        SessionView { title: title_after(self.tabs[i], table, shell), ..self.tabs[i] }
                    } else {
                        self.tabs[i]
                    },
            ),
            ..self
        }
    }

    /// The workspace after moving to the tab before the active one, from the
    /// first tab to the last.
    pub open spec fn prev_selected(self) -> WorkspaceView {
        if self.tabs.len() == 0 {
            self
        } else if self.active_tab == 0 {
            WorkspaceView { active_tab: (self.tabs.len() - 1) as usize, ..self }
        } else {
            WorkspaceView { active_tab: (self.active_tab - 1) as usize, ..self }
        }
    }

    /// The workspace after moving to the tab after the active one, from the
    /// last tab to the first.
    pub open spec fn next_selected(self) -> WorkspaceView {
        if self.tabs.len() == 0 {
            self
        } else {
            WorkspaceView {
                active_tab: ((self.active_tab + 1) % (self.tabs.len() as int)) as usize,
                ..self
            }
        }
    }
}

/// The title of the plain tab with number `id`.
pub fn plain_tab_title(id: usize) -> (title: String)
    ensures
        title@ == tab_title(id),
{
    let mut out: Vec<char> = Vec::new();
    push_str(&mut out, "Tab ");
    push_decimal(&mut out, id as u64);
    string_of(&out)
}

/// The title of the quick-action tab with number `id`.
pub fn action_tab_title(label: &str, id: usize) -> (title: String)
    ensures
        title@ == quick_action_title(label@, id),
{
    let mut out: Vec<char> = Vec::new();
    push_str(&mut out, label);
    push_str(&mut out, " (");
    push_decimal(&mut out, id as u64);
    push_str(&mut out, ")");
    string_of(&out)
}

/// Pushing a session adds its value to the values.
pub proof fn lemma_views_push(tabs: Seq<PtySession>, session: PtySession)
    ensures
        views(tabs.push(session)) == views(tabs).push(session@),
{
    assert(views(tabs.push(session)) =~= views(tabs).push(session@));
}

impl WorkspaceState {
    /// Whether the workspace's own invariant holds.
    pub open spec fn wf(&self) -> bool {
        self@.wf()
    }

    /// The tabs of a workspace are never more than the machine can count, so
    /// an index or a length taken from its value is that very number.
    pub proof fn lemma_fits(&self)
        ensures
            self@.fits(),
    {
        vstd::std_specs::vec::axiom_spec_len(&self.tabs);
        assert(vstd::std_specs::vec::spec_vec_len(&self.tabs) == self.tabs@.len());
    }

    /// A workspace for `info` with exactly one tab, which takes the next tab
    /// number. `started` is what became of starting that tab's session: on a
    /// failure there is no workspace. The tab number is used up either way.
    pub fn new(
        info: WorktreeInfo,
        size: TerminalSize,
        next_tab_id: &mut usize,
        started: Result<(), SpawnFailure>,
    ) -> (out: Result<Self, SpawnFailure>)
        requires
            *old(next_tab_id) < usize::MAX,
        ensures
            *final(next_tab_id) == *old(next_tab_id) + 1,
            started is Err ==> out is Err && out->Err_0 == started->Err_0,
            started is Ok ==> out is Ok && out->Ok_0@ == fresh_workspace(
                info@,
                *old(next_tab_id),
                size,
            ),
            out is Ok ==> out->Ok_0.wf() && out->Ok_0@.fits(),
    {
        let mut workspace = WorkspaceState { info, tabs: Vec::new(), active_tab: 0 };
        assert(views(workspace.tabs@) =~= Seq::<SessionView>::empty());
        match workspace.ensure_tab(next_tab_id, size, started) {
            Ok(_) => {
                assert(workspace@.tabs =~= fresh_workspace(info@, *old(next_tab_id), size).tabs);
                Ok(workspace)
            },
            Err(failure) => Err(failure),
        }
    }

    /// Replaces the description of the worktree.
    pub fn update_info(&mut self, info: WorktreeInfo)
        ensures
            final(self)@ == (WorkspaceView { info: info@, ..old(self)@ }),
    {
        self.info = info;
    }

    /// The label of the workspace in the side bar.
    pub fn sidebar_label(&self, repo_root: &str) -> (label: String)
        ensures
            label@ == sidebar_text(self@.info, repo_root@),
    {
        let name = self.info.name();
        let mut out: Vec<char> = Vec::new();
        push_str(&mut out, name.as_str());
        match &self.info.branch {
            Some(branch) => {
                push_str(&mut out, " [");
                push_str(&mut out, branch.as_str());
                push_str(&mut out, "]");
            },
            None => {},
        }
        if self.is_primary(repo_root) {
            push_str(&mut out, " (primary)");
        } else if self.info.is_prunable {
            push_str(&mut out, " (prunable)");
        } else if self.info.is_locked {
            push_str(&mut out, " (locked)");
        }
        assert(out@ =~= sidebar_text(self@.info, repo_root@));
        string_of(&out)
    }

    /// The path of the worktree as shown.
    pub fn display_path(&self) -> (path: String)
        ensures
            path@ == self@.info.path,
    {
        self.info.path.clone()
    }

    /// The description of the worktree.
    pub fn info(&self) -> (info: &WorktreeInfo)
        ensures
            info@ == self@.info,
    {
        &self.info
    }

    /// The titles of the tabs, in order.
    pub fn tab_titles(&self) -> (titles: Vec<String>)
        ensures
            titles.len() == self@.tabs.len(),
            forall|i: int| 0 <= i < titles.len() ==> titles[i]@ == self@.tabs[i].title,
    {
        let mut titles: Vec<String> = Vec::new();
        let mut i: usize = 0;
        while i < self.tabs.len()
            invariant
                i <= self.tabs.len(),
                titles.len() == i,
                forall|j: int| 0 <= j < i ==> titles[j]@ == self.tabs@[j]@.title,
            decreases self.tabs.len() - i,
        {
            titles.push(self.tabs[i].title().to_owned());
            i += 1;
        }
        titles
    }

    /// The number of tabs.
    pub fn tabs_len(&self) -> (len: usize)
        ensures
            len == self@.tabs.len(),
    {
        self.tabs.len()
    }

    /// The index of the active tab.
    pub fn active_tab_index(&self) -> (index: usize)
        ensures
            index == self@.active_tab,
    {
        self.active_tab
    }

    /// The active tab, if the active index names one.
    pub fn active_tab(&self) -> (tab: Option<&PtySession>)
        ensures
            tab is Some == (self@.active_tab < self@.tabs.len()),
            tab is Some ==> tab->0@ == self@.tabs[self@.active_tab as int],
    {
        if self.active_tab < self.tabs.len() {
            Some(&self.tabs[self.active_tab])
        } else {
            None
        }
    }

    /// Makes tab `index` the active one; an index that names no tab changes
    /// nothing.
    pub fn set_active_tab(&mut self, index: usize)
        ensures
            final(self)@ == if index < old(self)@.tabs.len() {
                WorkspaceView { active_tab: index, ..old(self)@ }
            } else {
                old(self)@
            },
    {
        if index < self.tabs.len() {
            self.active_tab = index;
        }
    }

    /// Whether the workspace has a tab.
    pub fn has_tabs(&self) -> (any: bool)
        ensures
            any == (self@.tabs.len() > 0),
    {
        self.tabs.len() > 0
    }

    /// Opens a first tab in a workspace that has none. A workspace with a tab
    /// is left alone, and neither a tab number nor `started` is used.
    pub fn ensure_tab(
        &mut self,
        next_tab_id: &mut usize,
        size: TerminalSize,
        started: Result<(), SpawnFailure>,
    ) -> (out: Result<(), SpawnFailure>)
        requires
            *old(next_tab_id) < usize::MAX,
        ensures
            old(self)@.tabs.len() > 0 ==> out is Ok && final(self)@ == old(self)@ && *final(next_tab_id) == *old(next_tab_id),
            old(self)@.tabs.len() == 0 ==> {
                &&& *final(next_tab_id) == *old(next_tab_id) + 1
                &&& started is Err ==> out is Err && out->Err_0 == started->Err_0 && final(self)@
                    == old(self)@
                &&& started is Ok ==> out is Ok && final(self)@ == old(self)@.with_tab(
                    fresh_session(*old(next_tab_id), tab_title(*old(next_tab_id)), size),
                )
            },
            old(self)@.fits() && final(self)@.fits(),
    {
        if self.tabs.len() == 0 {
            self.spawn_tab(next_tab_id, size, started)
        } else {
            Ok(())
        }
    }

    /// Opens a new tab and makes it the active one. The tab takes the next
    /// tab number, which is used up even when starting the session failed;
    /// on a failure no tab is added.
    pub fn spawn_tab(
        &mut self,
        next_tab_id: &mut usize,
        size: TerminalSize,
        started: Result<(), SpawnFailure>,
    ) -> (out: Result<(), SpawnFailure>)
        requires
            *old(next_tab_id) < usize::MAX,
        ensures
            *final(next_tab_id) == *old(next_tab_id) + 1,
            started is Err ==> out is Err && out->Err_0 == started->Err_0 && final(self)@ == old(self)@,
            started is Ok ==> out is Ok && final(self)@ == old(self)@.with_tab(
                fresh_session(*old(next_tab_id), tab_title(*old(next_tab_id)), size),
            ),
            out is Ok ==> final(self).wf(),
            old(self)@.fits() && final(self)@.fits(),
    {
        let tab_id = *next_tab_id;
        *next_tab_id = tab_id + 1;
        let title = plain_tab_title(tab_id);
        self.register(tab_id, title.as_str(), size, started)
    }

    /// Opens a new tab for a quick action and makes it the active one.
    /// `started` is what became of starting the session and sending it the
    /// action's command. The tab is titled with the action's label and the
    /// tab number.
    pub fn spawn_quick_action_tab(
        &mut self,
        next_tab_id: &mut usize,
        size: TerminalSize,
        action: &QuickAction,
        started: Result<(), SpawnFailure>,
    ) -> (out: Result<(), SpawnFailure>)
        requires
            *old(next_tab_id) < usize::MAX,
        ensures
            *final(next_tab_id) == *old(next_tab_id) + 1,
            started is Err ==> out is Err && out->Err_0 == started->Err_0 && final(self)@ == old(self)@,
            started is Ok ==> out is Ok && final(self)@ == old(self)@.with_tab(
                fresh_session(
                    *old(next_tab_id),
                    quick_action_title(action.label@, *old(next_tab_id)),
                    size,
                ),
            ),
            out is Ok ==> final(self).wf(),
            old(self)@.fits() && final(self)@.fits(),
    {
        let tab_id = *next_tab_id;
        *next_tab_id = tab_id + 1;
        let title = action_tab_title(action.label.as_str(), tab_id);
        self.register(tab_id, title.as_str(), size, started)
    }

    /// Adds the session with the given number and title as the active tab, if
    /// it was started.
    fn register(
        &mut self,
        tab_id: usize,
        title: &str,
        size: TerminalSize,
        started: Result<(), SpawnFailure>,
    ) -> (out: Result<(), SpawnFailure>)
        ensures
            started is Err ==> out is Err && out->Err_0 == started->Err_0 && final(self)@ == old(self)@,
            started is Ok ==> out is Ok && final(self)@ == old(self)@.with_tab(
                fresh_session(tab_id, title@, size),
            ),
            out is Ok ==> final(self).wf(),
            old(self)@.fits() && final(self)@.fits(),
    {
        proof {
            self.lemma_fits();
        }
        match PtySession::spawn(tab_id, title, size, started) {
            Ok(tab) => {
                proof {
                    lemma_views_push(self.tabs@, tab);
                }
                self.tabs.push(tab);
                self.active_tab = self.tabs.len() - 1;
                Ok(())
            },
            Err(failure) => Err(failure),
        }
    }

    /// Moves to the tab before the active one, around the end.
    pub fn select_prev_tab(&mut self)
        ensures
            final(self)@ == old(self)@.prev_selected(),
            old(self)@.fits(),
    {
        proof {
            self.lemma_fits();
        }
        if self.tabs.len() == 0 {
            return ;
        }
        if self.active_tab == 0 {
            self.active_tab = self.tabs.len() - 1;
        } else {
            self.active_tab -= 1;
        }
    }

    /// Moves to the tab after the active one, around the end.
    pub fn select_next_tab(&mut self)
        ensures
            final(self)@ == old(self)@.next_selected(),
            final(self).wf(),
            old(self)@.fits(),
    {
        if self.tabs.len() == 0 {
            return ;
        }
        self.active_tab = next_index(self.active_tab, self.tabs.len());
    }

    /// Closes the active tab and hands its session back for tearing down.
    /// The last remaining tab is never closed.
    pub fn close_active_tab(&mut self) -> (closed: Option<PtySession>)
        ensures
            final(self)@ == old(self)@.without_active(),
            closed is Some == (old(self)@.tabs.len() > 1 && old(self)@.active_tab < old(self)@.tabs.len()),
            closed is Some ==> closed->0@ == old(self)@.tabs[old(self)@.active_tab as int],
    {
        if self.tabs.len() <= 1 {
            return None;
        }
        if self.active_tab < self.tabs.len() {
            let tab = self.tabs.remove(self.active_tab);
            if self.active_tab >= self.tabs.len() && self.tabs.len() > 0 {
                self.active_tab = self.tabs.len() - 1;
            }
            assert(views(self.tabs@) =~= old(self)@.tabs.remove(old(self)@.active_tab as int));
            Some(tab)
        } else {
            None
        }
    }

    /// Records that the child of the session with number `id` ended. A
    /// session that has ended already keeps its first record; a number that
    /// names no tab changes nothing.
    pub fn record_exit(&mut self, id: usize, success: bool)
        ensures
            final(self)@ == old(self)@.exited(id, success),
    {
        let mut i: usize = 0;
        while i < self.tabs.len()
            invariant
                i <= self.tabs.len(),
                self.info == old(self).info,
                self.active_tab == old(self).active_tab,
                self.tabs.len() == old(self).tabs.len(),
                forall|j: int| i <= j < self.tabs.len() ==> self.tabs@[j] == old(self).tabs@[j],
                forall|j: int|
                    0 <= j < i ==> #[trigger] self.tabs@[j]@ == old(self)@.exited(id, success).tabs[j],
            decreases self.tabs.len() - i,
        {
            if self.tabs[i].id() == id {
                self.tabs[i].record_exit(success);
            }
            i += 1;
        }
        assert(views(self.tabs@) =~= old(self)@.exited(id, success).tabs);
    }

    /// One round of the title monitor of the session with number `id`: see
    /// [`PtySession::refresh_title`]. Returns whether the monitor goes on: it
    /// stops once the session has ended or is gone.
    pub fn refresh_title(&mut self, id: usize, table: &Vec<ProcessInfo>, shell: u32) -> (keep_going:
        bool)
        ensures
            final(self)@ == old(self)@.retitled(id, table@, shell),
            keep_going == old(self)@.monitors(id),
    {
        let mut keep_going = false;
        let mut i: usize = 0;
        while i < self.tabs.len()
            invariant
                i <= self.tabs.len(),
                self.info == old(self).info,
                self.active_tab == old(self).active_tab,
                self.tabs.len() == old(self).tabs.len(),
                forall|j: int| i <= j < self.tabs.len() ==> self.tabs@[j] == old(self).tabs@[j],
                forall|j: int|
                    0 <= j < i ==> #[trigger] self.tabs@[j]@ == old(self)@.retitled(
                        id,
                        table@,
                        shell,
                    ).tabs[j],
                keep_going == exists|k: int|
                    0 <= k < i && (#[trigger] old(self)@.tabs[k]).id == id && running(
                        old(self)@.tabs[k],
                    ),
            decreases self.tabs.len() - i,
        {
            assert(old(self)@.tabs[i as int] == old(self).tabs@[i as int]@);
            if self.tabs[i].id() == id {
                let going = self.tabs[i].refresh_title(table, shell);
                if going {
                    keep_going = true;
                }
            }
            i += 1;
        }
        assert(views(self.tabs@) =~= old(self)@.retitled(id, table@, shell).tabs);
        keep_going
    }

    /// Gives the active tab a new size. Returns the geometry to apply to its
    /// screen and pseudo-terminal, if the size changed and there is an active
    /// tab.
    pub fn resize_active(&mut self, size: TerminalSize) -> (request: Option<PtyGeometry>)
        ensures
            old(self)@.active_tab >= old(self)@.tabs.len() ==> request is None && final(self)@
                == old(self)@,
            old(self)@.active_tab < old(self)@.tabs.len() ==> {
                let at = old(self)@.active_tab as int;
                &&& request == resize_step(old(self)@.tabs[at], size).1
                &&& final(self)@ == (WorkspaceView {
                    tabs: old(self)@.tabs.update(at, resize_step(old(self)@.tabs[at], size).0),
                    ..old(self)@
                })
            },
    {
        if self.active_tab < self.tabs.len() {
            let request = self.tabs[self.active_tab].resize_to(size);
            assert(views(self.tabs@) =~= old(self)@.tabs.update(
                old(self)@.active_tab as int,
                resize_step(old(self)@.tabs[old(self)@.active_tab as int], size).0,
            ));
            request
        } else {
            None
        }
    }

    /// Drops every session whose child has ended and hands those sessions
    /// back, in order, for tearing down. The sessions still running keep
    /// their order. If none is left the workspace stays without tabs.
    pub fn reap_finished_children(&mut self) -> (finished: Vec<PtySession>)
        ensures
            final(self)@ == old(self)@.reaped(),
            views(finished@) == old(self)@.tabs.filter(|s: SessionView| ended(s)),
            old(self).wf() ==> final(self).wf(),
    {
        let ghost all = views(self.tabs@);
        let ghost keep = |s: SessionView| running(s);
        let ghost drop = |s: SessionView| ended(s);
        let mut kept: Vec<PtySession> = Vec::new();
        let mut finished: Vec<PtySession> = Vec::new();
        let n = self.tabs.len();
        let mut k: usize = 0;
        proof {
            reveal(Seq::filter);
            assert(all.take(0) =~= Seq::<SessionView>::empty());
            assert(views(kept@) =~= all.take(0).filter(keep));
            assert(views(finished@) =~= all.take(0).filter(drop));
            assert(views(self.tabs@) =~= all.skip(0));
        }
        while self.tabs.len() > 0
            invariant
                k + self.tabs.len() == n == all.len(),
                self.info == old(self).info,
                self.active_tab == old(self).active_tab,
                views(self.tabs@) == all.skip(k as int),
                views(kept@) == all.take(k as int).filter(keep),
                views(finished@) == all.take(k as int).filter(drop),
                keep == |s: SessionView| running(s),
                drop == |s: SessionView| ended(s),
            decreases self.tabs.len(),
        {
            let ghost before = self.tabs@;
            let tab = self.tabs.remove(0);
            proof {
                reveal(Seq::filter);
                assert(tab@ == all[k as int]) by {
                    assert(views(before)[0] == all.skip(k as int)[0]);
                }
                assert(all.take(k + 1).drop_last() == all.take(k as int));
                assert forall|i: int| 0 <= i < self.tabs@.len() implies views(self.tabs@)[i]
                    == all.skip(k + 1)[i] by {
                    assert(views(before)[i + 1] == all.skip(k as int)[i + 1]);
                }
                assert(views(self.tabs@) =~= all.skip(k + 1));
            }
            if tab.is_terminated() {
                proof {
                    lemma_views_push(finished@, tab);
                }
                finished.push(tab);
            } else {
                proof {
                    lemma_views_push(kept@, tab);
                }
                kept.push(tab);
            }
            k += 1;
        }
        assert(all.take(n as int) == all);
        self.tabs = kept;
        if self.active_tab >= self.tabs.len() && self.tabs.len() > 0 {
            self.active_tab = self.tabs.len() - 1;
        }
        finished
    }

    /// The directory of the worktree.
    pub fn path(&self) -> (path: &str)
        ensures
            path@ == self@.info.path,
    {
        self.info.path.as_str()
    }

    /// Gives up the workspace and hands its sessions over, in order, for
    /// tearing down.
    pub fn into_tabs(self) -> (tabs: Vec<PtySession>)
        ensures
            views(tabs@) == self@.tabs,
    {
        self.tabs
    }

    /// Whether this is the worktree of the repository itself.
    pub fn is_primary(&self, repo_root: &str) -> (primary: bool)
        ensures
            primary == path_eq(self@.info.path, repo_root@),
    {
        same_path(self.info.path.as_str(), repo_root)
    }
}

/// Closing the active tab of a workspace with two or more tabs leaves one
/// tab fewer and an active index that names a tab; with one tab or none it
/// changes nothing.
pub proof fn lemma_close_active_tab(w: WorkspaceView)
    requires
        w.wf(),
    ensures
        w.tabs.len() >= 2 ==> w.without_active().tabs.len() == w.tabs.len() - 1
            && w.without_active().active_tab < w.without_active().tabs.len(),
        w.tabs.len() <= 1 ==> w.without_active() == w,
        w.without_active().wf(),
{
}

/// Reaping removes no session that is still running, keeps the running
/// sessions in their order, keeps no session that has ended, and leaves an
/// active index that names a tab whenever a tab is left.
pub proof fn lemma_reap_keeps_running(w: WorkspaceView)
    ensures
        forall|i: int|
            0 <= i < w.tabs.len() && running(#[trigger] w.tabs[i]) ==> w.reaped().tabs.contains(
                w.tabs[i],
            ),
        forall|i: int| 0 <= i < w.reaped().tabs.len() ==> running(#[trigger] w.reaped().tabs[i]),
        w.reaped().tabs.len() <= w.tabs.len(),
        w.reaped().wf(),
        (forall|i: int| 0 <= i < w.tabs.len() ==> running(#[trigger] w.tabs[i])) ==> w.reaped().tabs
            == w.tabs,
{
    let keep = |s: SessionView| running(s);
    broadcast use vstd::seq_lib::group_filter_ensures;

    w.tabs.lemma_filter_len(keep);
    assert forall|i: int| 0 <= i < w.tabs.len() && running(#[trigger] w.tabs[i]) implies w.reaped().tabs.contains(
        w.tabs[i],
    ) by {
        w.tabs.lemma_filter_contains(keep, i);
    }
    assert forall|i: int| 0 <= i < w.reaped().tabs.len() implies running(
        #[trigger] w.reaped().tabs[i],
    ) by {
        w.tabs.lemma_filter_pred(keep, i);
    }
    if forall|i: int| 0 <= i < w.tabs.len() ==> running(#[trigger] w.tabs[i]) {
        lemma_filter_all(w.tabs);
    }
}

/// Filtering a list whose every session is running keeps the whole list.
proof fn lemma_filter_all(tabs: Seq<SessionView>)
    requires
        forall|i: int| 0 <= i < tabs.len() ==> running(#[trigger] tabs[i]),
    ensures
        tabs.filter(|s: SessionView| running(s)) == tabs,
    decreases tabs.len(),
{
    reveal(Seq::filter);
    if tabs.len() > 0 {
        lemma_filter_all(tabs.drop_last());
        assert(tabs.drop_last().push(tabs.last()) =~= tabs);
    }
}

/// The worktree picked for removal and whether to force it.
#[derive(Debug)]
pub struct RemoveWorktreeState {
    target: String,
    force: bool,
}

/// The mathematical value of a pending removal.
pub struct RemoveView {
    pub target: Seq<char>,
    pub force: bool,
}

impl View for RemoveWorktreeState {
    type V = RemoveView;

    closed spec fn view(&self) -> RemoveView {
        RemoveView { target: self.target@, force: self.force }
    }
}

impl RemoveWorktreeState {
    /// A pending removal of the worktree at `target`, not forced.
    pub fn new(target: &str) -> (state: Self)
        ensures
            state@ == (RemoveView { target: target@, force: false }),
    {
        RemoveWorktreeState { target: target.to_owned(), force: false }
    }

    /// The path of the worktree to remove.
    pub fn target(&self) -> (target: &str)
        ensures
            target@ == self@.target,
    {
        self.target.as_str()
    }

    /// Switches forcing on or off.
    pub fn toggle_force(&mut self)
        ensures
            final(self)@ == (RemoveView { force: !old(self)@.force, ..old(self)@ }),
    {
        self.force = !self.force;
    }

    /// Whether the removal is forced.
    pub fn force(&self) -> (force: bool)
        ensures
            force == self@.force,
    {
        self.force
    }
}

/// The selection in the list of quick actions.
#[derive(Debug)]
pub struct QuickActionState {
    pub selected: usize,
}

/// The selection brought into a list of `len` entries.
pub open spec fn clamp_index(selected: usize, len: usize) -> usize {
    if len == 0 {
        0
    } else if selected >= len {
        (len - 1) as usize
    } else {
        selected
    }
}

/// The selection one entry up in a list of `len` entries, around the end.
pub open spec fn index_up(selected: usize, len: usize) -> usize {
    if len == 0 {
        selected
    } else if selected == 0 {
        (len - 1) as usize
    } else {
        (selected - 1) as usize
    }
}

/// The selection one entry down in a list of `len` entries, around the end.
pub open spec fn index_down(selected: usize, len: usize) -> usize {
    if len == 0 {
        selected
    } else {
        ((selected + 1) % (len as int)) as usize
    }
}

impl Default for QuickActionState {
    fn default() -> (state: Self)
        ensures
            state.selected == 0,
    {
        QuickActionState { selected: 0 }
    }
}

impl QuickActionState {
    /// Brings the selection into a list of `len` entries.
    pub fn clamp(&mut self, len: usize)
        ensures
            final(self).selected == clamp_index(old(self).selected, len),
    {
        if len == 0 {
            self.selected = 0;
        } else if self.selected >= len {
            self.selected = len - 1;
        }
    }

    /// Moves the selection up one entry, around the end.
    pub fn move_up(&mut self, len: usize)
        ensures
            final(self).selected == index_up(old(self).selected, len),
    {
        if len == 0 {
            return ;
        }
        if self.selected == 0 {
            self.selected = len - 1;
        } else {
            self.selected -= 1;
        }
    }

    /// Moves the selection down one entry, around the end.
    pub fn move_down(&mut self, len: usize)
        ensures
            final(self).selected == index_down(old(self).selected, len),
    {
        if len == 0 {
            return ;
        }
        self.selected = next_index(self.selected, len);
    }
}

/// Moving up and then down in a list, or down and then up, comes back to
/// the entry it started from.
pub proof fn lemma_index_round_trip(selected: usize, len: usize)
    requires
        selected < len,
    ensures
        index_down(index_up(selected, len), len) == selected,
        index_up(index_down(selected, len), len) == selected,
        index_up(selected, len) < len,
        index_down(selected, len) < len,
{
    lemma_wrap(selected as int, len as int);
    if selected > 0 {
        lemma_wrap(selected as int - 1, len as int);
    } else {
        lemma_wrap(len as int - 1, len as int);
    }
}

/// The index after `current` in a list of `len` entries, around the end.
/// Any `current` is taken, also one past the list.
pub fn next_index(current: usize, len: usize) -> (next: usize)
    requires
        len > 0,
    ensures
        next == (current + 1) % (len as int),
        next < len,
{
    let r = current % len;
    proof {
        vstd::arithmetic::div_mod::lemma_add_mod_noop(current as int, 1, len as int);
        vstd::arithmetic::div_mod::lemma_mod_bound(current as int, len as int);
        if len == 1 {
            vstd::arithmetic::div_mod::lemma_mod_self_0(1);
            assert((current + 1) % 1 == 0) by (nonlinear_arith);
        } else {
            vstd::arithmetic::div_mod::lemma_small_mod(1, len as nat);
            lemma_wrap(r as int, len as int);
        }
    }
    if r + 1 == len {
        0
    } else {
        r + 1
    }
}

/// The successor of an index, around the end of a list of `len` entries.
pub proof fn lemma_wrap(index: int, len: int)
    requires
        0 <= index < len,
    ensures
        (index + 1) % len == if index + 1 == len {
            0
        } else {
            index + 1
        },
{
    if index + 1 == len {
        vstd::arithmetic::div_mod::lemma_mod_self_0(len);
    } else {
        vstd::arithmetic::div_mod::lemma_small_mod((index + 1) as nat, len as nat);
    }
}

} // verus!
