//! Choosing workspaces for the command line: selectors, summaries and the
//! checks made before a workspace is removed.

use vstd::prelude::*;
use vstd::string::*;
use crate::git::{worktree_name, worktree_views, WorktreeInfo, WorktreeView};
use crate::paths::{
    branch_dir_name, dir_name, is_absolute, is_first_free, join, joined,
    next_available_workspace_path, path_eq, path_is_absolute, same_path, sanitize_branch_input,
    sanitized,
};
use crate::status::GitStatusSummary;
use crate::text::{
    chars_of, copy_opt, join_strings, joined_texts, opt_text, same_text, string_of_range, texts,
    trim, trimmed,
};

verus! {

/// What a workspace is chosen by. Every part that is given must match.
#[derive(Debug, Clone)]
pub struct WorkspaceSelector {
    /// The directory name of the workspace.
    pub name: Option<String>,
    /// The branch the workspace is attached to.
    pub branch: Option<String>,
    /// The path of the workspace; a relative path is taken from the
    /// workspace root.
    pub path: Option<String>,
}

/// The mathematical value of a selector.
pub struct SelectorView {
    pub name: Option<Seq<char>>,
    pub branch: Option<Seq<char>>,
    pub path: Option<Seq<char>>,
}

impl View for WorkspaceSelector {
    type V = SelectorView;

    open spec fn view(&self) -> SelectorView {
        SelectorView {
            name: opt_text(self.name),
            branch: opt_text(self.branch),
            path: opt_text(self.path),
        }
    }
}

/// A workspace as the command line shows it.
#[derive(Debug, Clone)]
pub struct WorkspaceSummary {
    pub name: String,
    pub path: String,
    pub branch: Option<String>,
    pub head: Option<String>,
    pub is_locked: bool,
    pub is_prunable: bool,
}

/// The mathematical value of a summary.
pub struct SummaryView {
    pub name: Seq<char>,
    pub path: Seq<char>,
    pub branch: Option<Seq<char>>,
    pub head: Option<Seq<char>>,
    pub is_locked: bool,
    pub is_prunable: bool,
}

impl View for WorkspaceSummary {
    type V = SummaryView;

    open spec fn view(&self) -> SummaryView {
        SummaryView {
            name: self.name@,
            path: self.path@,
            branch: opt_text(self.branch),
            head: opt_text(self.head),
            is_locked: self.is_locked,
            is_prunable: self.is_prunable,
        }
    }
}

/// What is known of a workspace's state: each part is either measured or has
/// the error that kept it from being measured, or was not asked for.
#[derive(Debug, Clone)]
pub struct WorkspaceTelemetry {
    pub summary: WorkspaceSummary,
    pub status: Option<GitStatusSummary>,
    pub status_error: Option<String>,
    pub disk_usage_bytes: Option<u64>,
    pub disk_usage_error: Option<String>,
}

/// Which parts of the telemetry to gather.
#[derive(Debug, Clone, Copy)]
pub struct TelemetryOptions {
    pub include_status: bool,
    pub include_disk_usage: bool,
}

impl Default for TelemetryOptions {
    fn default() -> (options: Self)
        ensures
            options.include_status,
            options.include_disk_usage,
    {
        TelemetryOptions { include_status: true, include_disk_usage: true }
    }
}

/// Why no workspace could be chosen.
#[derive(Debug, Clone, Copy, PartialEq, Eq, Structural)]
pub enum SelectError {
    /// The selector names nothing to choose by.
    EmptySelector,
    /// No workspace matches the selector.
    NoMatch,
    /// More than one workspace matches the selector.
    Ambiguous,
    /// The workspace chosen is the repository's own worktree.
    Primary,
    /// No workspace is at the path.
    NotFound,
}

/// The summary of a worktree.
pub open spec fn summary_of(worktree: WorktreeView) -> SummaryView {
    SummaryView {
        name: worktree_name(worktree.path),
        path: worktree.path,
        branch: worktree.branch,
        head: worktree.head,
        is_locked: worktree.is_locked,
        is_prunable: worktree.is_prunable,
    }
}

/// A path given on the command line, taken from the workspace root unless
/// it is absolute.
pub open spec fn normalised(path: Seq<char>, workspace_root: Seq<char>) -> Seq<char> {
    if is_absolute(path) {
        path
    } else {
        joined(workspace_root, path)
    }
}

/// Whether a worktree matches a selector: every part of the selector that is
/// given agrees with the worktree.
pub open spec fn selects(
    selector: SelectorView,
    worktree: WorktreeView,
    workspace_root: Seq<char>,
) -> bool {
    &&& selector.name is Some ==> worktree_name(worktree.path) == selector.name->0
    &&& selector.branch is Some ==> worktree.branch == selector.branch
    &&& selector.path is Some ==> path_eq(
        worktree.path,
        normalised(selector.path->0, workspace_root),
    )
}

/// Whether `a` comes before `b` in the order of texts: character by
/// character, a proper prefix first.
pub open spec fn text_lt(a: Seq<char>, b: Seq<char>) -> bool
    decreases a.len(),
{
    if b.len() == 0 {
        false
    } else if a.len() == 0 {
        true
    } else if a[0] != b[0] {
        a[0] < b[0]
    } else {
        text_lt(a.drop_first(), b.drop_first())
    }
}

/// Where a worktree is inserted into a list ordered by name: after every
/// worktree whose name does not come after its own.
pub open spec fn insert_at(sorted: Seq<WorktreeView>, name: Seq<char>) -> int
    decreases sorted.len(),
{
    if sorted.len() == 0 {
        0
    } else if text_lt(name, worktree_name(sorted.last().path)) {
        insert_at(sorted.drop_last(), name)
    } else {
        sorted.len() as int
    }
}

/// The worktrees among the first `n` that the selector matches, ordered by
/// name; worktrees with the same name keep their order.
pub open spec fn resolved_upto(
    worktrees: Seq<WorktreeView>,
    selector: SelectorView,
    workspace_root: Seq<char>,
    n: int,
) -> Seq<WorktreeView>
    decreases n,
{
    if n <= 0 {
        seq![]
    } else {
        let before = resolved_upto(worktrees, selector, workspace_root, n - 1);
        let next = worktrees[n - 1];
        if selects(selector, next, workspace_root) {
            before.insert(insert_at(before, worktree_name(next.path)), next)
        } else {
            before
        }
    }
}

/// The worktrees that the selector matches, ordered by name.
pub open spec fn resolved(
    worktrees: Seq<WorktreeView>,
    selector: SelectorView,
    workspace_root: Seq<char>,
) -> Seq<WorktreeView> {
    resolved_upto(worktrees, selector, workspace_root, worktrees.len() as int)
}

/// Where [`insert_at`] lies, and what stands on either side of it.
pub proof fn lemma_insert_at(sorted: Seq<WorktreeView>, name: Seq<char>)
    ensures
        0 <= insert_at(sorted, name) <= sorted.len(),
        forall|i: int|
            insert_at(sorted, name) <= i < sorted.len() ==> text_lt(
                name,
                worktree_name((#[trigger] sorted[i]).path),
            ),
        insert_at(sorted, name) > 0 ==> !text_lt(
            name,
            worktree_name(sorted[insert_at(sorted, name) - 1].path),
        ),
    decreases sorted.len(),
{
    if sorted.len() > 0 && text_lt(name, worktree_name(sorted.last().path)) {
        lemma_insert_at(sorted.drop_last(), name);
        assert forall|i: int| insert_at(sorted, name) <= i < sorted.len() implies text_lt(
            name,
            worktree_name((#[trigger] sorted[i]).path),
        ) by {
            if i < sorted.len() - 1 {
                assert(sorted.drop_last()[i] == sorted[i]);
            }
        }
    }
}

impl WorkspaceSelector {
    /// Whether the selector names nothing to choose by.
    pub fn is_empty(&self) -> (empty: bool)
        ensures
            empty == (self@.name is None && self@.branch is None && self@.path is None),
    {
        self.name.is_none() && self.branch.is_none() && self.path.is_none()
    }
}

impl WorkspaceSummary {
    /// The summary of a worktree.
    pub fn from_worktree(worktree: &WorktreeInfo) -> (summary: Self)
        ensures
            summary@ == summary_of(worktree@),
    {
        WorkspaceSummary {
            name: worktree.name(),
            path: worktree.path.clone(),
            branch: copy_opt(&worktree.branch),
            head: copy_opt(&worktree.head),
            is_locked: worktree.is_locked,
            is_prunable: worktree.is_prunable,
        }
    }
}

/// Decides [`text_lt`].
pub fn text_before(a: &str, b: &str) -> (before: bool)
    ensures
        before == text_lt(a@, b@),
{
    let x = chars_of(a);
    let y = chars_of(b);
    let mut i: usize = 0;
    assert(x@.skip(0) == x@);
    assert(y@.skip(0) == y@);
    loop
        invariant
            i <= x.len(),
            i <= y.len(),
            x@ == a@,
            y@ == b@,
            text_lt(x@, y@) == text_lt(x@.skip(i as int), y@.skip(i as int)),
        decreases x.len() - i,
    {
        assert(x@.skip(i as int).len() == x.len() - i);
        assert(y@.skip(i as int).len() == y.len() - i);
        if i >= y.len() {
            return false;
        }
        if i >= x.len() {
            return true;
        }
        assert(x@.skip(i as int)[0] == x@[i as int]);
        assert(y@.skip(i as int)[0] == y@[i as int]);
        if x[i] != y[i] {
            return x[i] < y[i];
        }
        assert(x@.skip(i as int).drop_first() == x@.skip(i + 1));
        assert(y@.skip(i as int).drop_first() == y@.skip(i + 1));
        i += 1;
    }
}

/// A path given on the command line, taken from the workspace root unless
/// it is absolute.
pub fn normalise_workspace_path(path: &str, workspace_root: &str) -> (out: String)
    ensures
        out@ == normalised(path@, workspace_root@),
{
    if path_is_absolute(path) {
        path.to_owned()
    } else {
        join(workspace_root, path)
    }
}

/// The path for a new workspace: the one given, normalised, or else the
/// first free path for `fallback_name` under the workspace root.
pub fn resolve_target_path(
    workspace_root: &str,
    explicit: Option<&str>,
    fallback_name: &str,
    existing: &Vec<String>,
) -> (path: String)
    ensures
        explicit is Some ==> path@ == normalised(explicit->0@, workspace_root@),
        explicit is None ==> is_first_free(workspace_root@, fallback_name@, existing@, path@),
{
    match explicit {
        Some(given) => normalise_workspace_path(given, workspace_root),
        None => next_available_workspace_path(workspace_root, fallback_name, existing),
    }
}

/// Whether an optional text is given and equals `text`.
fn opt_is(given: &Option<String>, text: &str) -> (same: bool)
    ensures
        same == (opt_text(*given) == Some(text@)),
{
    match given {
        Some(value) => same_text(value.as_str(), text),
        None => false,
    }
}

/// Whether a worktree matches a selector.
pub fn matches_selector(worktree: &WorktreeInfo, workspace_root: &str, selector: &WorkspaceSelector) -> (found:
    bool)
    ensures
        found == selects(selector@, worktree@, workspace_root@),
{
    match &selector.name {
        Some(name) => {
            let own = worktree.name();
            if !same_text(own.as_str(), name.as_str()) {
                return false;
            }
        },
        None => {},
    }
    match &selector.branch {
        Some(branch) => {
            if !opt_is(&worktree.branch, branch.as_str()) {
                return false;
            }
        },
        None => {},
    }
    match &selector.path {
        Some(path) => {
            let target = normalise_workspace_path(path.as_str(), workspace_root);
            if !same_path(worktree.path.as_str(), target.as_str()) {
                return false;
            }
        },
        None => {},
    }
    true
}

/// The worktrees that the selector matches, ordered by name; `NoMatch` if
/// there is none.
pub fn resolve_workspaces(
    worktrees: &Vec<WorktreeInfo>,
    workspace_root: &str,
    selector: &WorkspaceSelector,
) -> (out: Result<Vec<WorktreeInfo>, SelectError>)
    ensures
        out is Ok == (resolved(worktree_views(worktrees@), selector@, workspace_root@).len() > 0),
        out is Ok ==> worktree_views(out->Ok_0@) == resolved(
            worktree_views(worktrees@),
            selector@,
            workspace_root@,
        ),
        out is Err ==> out->Err_0 == SelectError::NoMatch,
{
    let ghost all = worktree_views(worktrees@);
    let mut found: Vec<WorktreeInfo> = Vec::new();
    assert(worktree_views(found@) =~= Seq::<WorktreeView>::empty());
    let mut i: usize = 0;
    while i < worktrees.len()
        invariant
            i <= worktrees.len(),
            all == worktree_views(worktrees@),
            worktree_views(found@) == resolved_upto(all, selector@, workspace_root@, i as int),
        decreases worktrees.len() - i,
    {
        let next = &worktrees[i];
        assert(all[i as int] == next@);
        if matches_selector(next, workspace_root, selector) {
            let name = next.name();
            let ghost sorted = worktree_views(found@);
            let mut at: usize = found.len();
            assert(sorted.take(found.len() as int) == sorted);
            while at > 0 && text_before(name.as_str(), found[at - 1].name().as_str())
                invariant
                    at <= found.len(),
                    sorted == worktree_views(found@),
                    name@ == worktree_name(next@.path),
                    insert_at(sorted, name@) == insert_at(sorted.take(at as int), name@),
                decreases at,
            {
                assert(sorted.take(at as int).last() == found@[at - 1]@);
                assert(sorted.take(at as int).drop_last() == sorted.take(at - 1));
                at -= 1;
            }
            proof {
                assert(sorted.take(found.len() as int) == sorted);
                if at > 0 {
                    assert(sorted.take(at as int).last() == found@[at - 1]@);
                }
            }
            let copy = next.duplicate();
            found.insert(at, copy);
            assert(worktree_views(found@) =~= sorted.insert(at as int, next@));
        }
        i += 1;
    }
    if found.len() == 0 {
        Err(SelectError::NoMatch)
    } else {
        Ok(found)
    }
}

/// The one worktree that the selector matches: `NoMatch` if there is none,
/// `Ambiguous` if there are several.
pub fn resolve_single_workspace(
    worktrees: &Vec<WorktreeInfo>,
    workspace_root: &str,
    selector: &WorkspaceSelector,
) -> (out: Result<WorktreeInfo, SelectError>)
    ensures
        ({
            let found = resolved(worktree_views(worktrees@), selector@, workspace_root@);
            &&& found.len() == 0 ==> out == Err::<WorktreeInfo, SelectError>(SelectError::NoMatch)
            &&& found.len() > 1 ==> out == Err::<WorktreeInfo, SelectError>(SelectError::Ambiguous)
            &&& found.len() == 1 ==> out is Ok && out->Ok_0@ == found[0]
        }),
{
    match resolve_workspaces(worktrees, workspace_root, selector) {
        Err(error) => Err(error),
        Ok(found) => {
            let mut found = found;
            if found.len() > 1 {
                Err(SelectError::Ambiguous)
            } else {
                assert(worktree_views(found@)[0] == found@[0]@);
                Ok(found.remove(0))
            }
        },
    }
}

/// The summaries of the worktrees, in order.
pub fn list_workspaces(worktrees: &Vec<WorktreeInfo>) -> (out: Vec<WorkspaceSummary>)
    ensures
        out.len() == worktrees.len(),
        forall|i: int| 0 <= i < out.len() ==> (#[trigger] out[i])@ == summary_of(worktrees[i]@),
{
    let mut out: Vec<WorkspaceSummary> = Vec::new();
    let mut i: usize = 0;
    while i < worktrees.len()
        invariant
            i <= worktrees.len(),
            out.len() == i,
            forall|j: int| 0 <= j < i ==> (#[trigger] out[j])@ == summary_of(worktrees[j]@),
        decreases worktrees.len() - i,
    {
        out.push(WorkspaceSummary::from_worktree(&worktrees[i]));
        i += 1;
    }
    out
}

/// Chooses the workspace to delete. An empty selector is refused, then a
/// selector that matches no workspace or several, then the repository's own
/// worktree. The summary of the workspace to remove is returned.
pub fn delete_workspace(
    worktrees: &Vec<WorktreeInfo>,
    repo_root: &str,
    workspace_root: &str,
    selector: &WorkspaceSelector,
) -> (out: Result<WorkspaceSummary, SelectError>)
    ensures
        ({
            let found = resolved(worktree_views(worktrees@), selector@, workspace_root@);
            let empty = selector@.name is None && selector@.branch is None && selector@.path
                is None;
            &&& empty ==> out == Err::<WorkspaceSummary, SelectError>(SelectError::EmptySelector)
            &&& !empty && found.len() == 0 ==> out == Err::<WorkspaceSummary, SelectError>(
                SelectError::NoMatch,
            )
            &&& !empty && found.len() > 1 ==> out == Err::<WorkspaceSummary, SelectError>(
                SelectError::Ambiguous,
            )
            &&& !empty && found.len() == 1 && path_eq(found[0].path, repo_root@) ==> out == Err::<
                WorkspaceSummary,
                SelectError,
            >(SelectError::Primary)
            &&& !empty && found.len() == 1 && !path_eq(found[0].path, repo_root@) ==> out is Ok
                && out->Ok_0@ == summary_of(found[0])
        }),
{
    if selector.is_empty() {
        return Err(SelectError::EmptySelector);
    }
    match resolve_single_workspace(worktrees, workspace_root, selector) {
        Err(error) => Err(error),
        Ok(worktree) => {
            if same_path(worktree.path.as_str(), repo_root) {
                Err(SelectError::Primary)
            } else {
                Ok(WorkspaceSummary::from_worktree(&worktree))
            }
        },
    }
}

/// Chooses the worktrees to gather telemetry for: all of them, in their
/// order, for an empty selector; else those the selector matches, ordered by
/// name, and `NoMatch` if there is none.
pub fn workspace_telemetry(
    worktrees: &Vec<WorktreeInfo>,
    workspace_root: &str,
    selector: &WorkspaceSelector,
) -> (out: Result<Vec<WorktreeInfo>, SelectError>)
    ensures
        ({
            let found = resolved(worktree_views(worktrees@), selector@, workspace_root@);
            let empty = selector@.name is None && selector@.branch is None && selector@.path
                is None;
            &&& empty ==> out is Ok && worktree_views(out->Ok_0@) == worktree_views(worktrees@)
            &&& !empty && found.len() == 0 ==> out == Err::<Vec<WorktreeInfo>, SelectError>(
                SelectError::NoMatch,
            )
            &&& !empty && found.len() > 0 ==> out is Ok && worktree_views(out->Ok_0@) == found
        }),
{
    if selector.is_empty() {
        let mut all: Vec<WorktreeInfo> = Vec::new();
        let mut i: usize = 0;
        while i < worktrees.len()
            invariant
                i <= worktrees.len(),
                all.len() == i,
                forall|j: int| 0 <= j < i ==> all@[j]@ == worktrees@[j]@,
            decreases worktrees.len() - i,
        {
            all.push(worktrees[i].duplicate());
            i += 1;
        }
        assert(worktree_views(all@) =~= worktree_views(worktrees@));
        Ok(all)
    } else {
        resolve_workspaces(worktrees, workspace_root, selector)
    }
}

/// The telemetry of a worktree from what was measured. A part that was not
/// asked for stays empty, whatever was handed in for it.
pub fn collect_workspace_telemetry(
    worktree: &WorktreeInfo,
    options: TelemetryOptions,
    status: Result<GitStatusSummary, String>,
    disk_usage: Result<u64, String>,
) -> (out: WorkspaceTelemetry)
    ensures
        out.summary@ == summary_of(worktree@),
        out.status == if options.include_status && status is Ok {
            Some(status->Ok_0)
        } else {
            None
        },
        out.status_error == if options.include_status && status is Err {
            Some(status->Err_0)
        } else {
            None
        },
        out.disk_usage_bytes == if options.include_disk_usage && disk_usage is Ok {
            Some(disk_usage->Ok_0)
        } else {
            None
        },
        out.disk_usage_error == if options.include_disk_usage && disk_usage is Err {
            Some(disk_usage->Err_0)
        } else {
            None
        },
{
    let mut telemetry = WorkspaceTelemetry {
        summary: WorkspaceSummary::from_worktree(worktree),
        status: None,
        status_error: None,
        disk_usage_bytes: None,
        disk_usage_error: None,
    };
    if options.include_status {
        match status {
            Ok(summary) => {
                telemetry.status = Some(summary);
            },
            Err(error) => {
                telemetry.status_error = Some(error);
            },
        }
    }
    if options.include_disk_usage {
        match disk_usage {
            Ok(size) => {
                telemetry.disk_usage_bytes = Some(size);
            },
            Err(error) => {
                telemetry.disk_usage_error = Some(error);
            },
        }
    }
    telemetry
}

/// The summary of the workspace at `path`; a relative path is taken from
/// the repository root. `NotFound` if no worktree has exactly that path.
pub fn locate_workspace_summary(worktrees: &Vec<WorktreeInfo>, repo_root: &str, path: &str) -> (out:
    Result<WorkspaceSummary, SelectError>)
    ensures
        ({
            let target = normalised(path@, repo_root@);
            &&& out is Err ==> out->Err_0 == SelectError::NotFound && forall|i: int|
                0 <= i < worktrees.len() ==> !path_eq((#[trigger] worktrees[i])@.path, target)
            &&& out is Ok ==> exists|i: int|
                0 <= i < worktrees.len() && path_eq((#[trigger] worktrees[i])@.path, target)
                    && out->Ok_0@ == summary_of(worktrees[i]@) && forall|j: int|
                    0 <= j < i ==> !path_eq((#[trigger] worktrees[j])@.path, target)
        }),
{
    let target = normalise_workspace_path(path, repo_root);
    let mut i: usize = 0;
    while i < worktrees.len()
        invariant
            i <= worktrees.len(),
            target@ == normalised(path@, repo_root@),
            forall|j: int| 0 <= j < i ==> !path_eq((#[trigger] worktrees[j])@.path, target@),
        decreases worktrees.len() - i,
    {
        if same_path(worktrees[i].path.as_str(), target.as_str()) {
            return Ok(WorkspaceSummary::from_worktree(&worktrees[i]));
        }
        i += 1;
    }
    Err(SelectError::NotFound)
}

/// The flags of a workspace as a text.
pub open spec fn flags_text(is_locked: bool, is_prunable: bool) -> Seq<char> {
    if is_locked && is_prunable {
        "locked, prunable"@
    } else if is_locked {
        "locked"@
    } else if is_prunable {
        "prunable"@
    } else {
        "none"@
    }
}

/// The flags of a workspace as a text: `locked`, `prunable`, both, or
/// `none`.
pub fn format_flags(is_locked: bool, is_prunable: bool) -> (text: String)
    ensures
        text@ == flags_text(is_locked, is_prunable),
{
    if is_locked && is_prunable {
        "locked, prunable".to_owned()
    } else if is_locked {
        "locked".to_owned()
    } else if is_prunable {
        "prunable".to_owned()
    } else {
        "none".to_owned()
    }
}

/// The message for an error.
pub fn select_error_message(error: SelectError, path: &str) -> (text: String)
    ensures
        text@ == match error {
            SelectError::EmptySelector => "Provide at least one selector (name, branch or path)."@,
            SelectError::NoMatch => "No workspaces match the provided selector."@,
            SelectError::Ambiguous => "Multiple workspaces match the provided selector; narrow the query."@,
            SelectError::Primary => "Refusing to touch the primary repository worktree."@,
            SelectError::NotFound => "unable to locate workspace at "@ + path@,
        },
{
    match error {
        SelectError::EmptySelector => "Provide at least one selector (name, branch or path).".to_owned(),
        SelectError::NoMatch => "No workspaces match the provided selector.".to_owned(),
        SelectError::Ambiguous => "Multiple workspaces match the provided selector; narrow the query.".to_owned(),
        SelectError::Primary => "Refusing to touch the primary repository worktree.".to_owned(),
        SelectError::NotFound => crate::text::concat2("unable to locate workspace at ", path),
    }
}

/// The columns of the line printed for a workspace: its name, its path, its
/// branch, the first seven characters of its head, and its flags.
pub open spec fn summary_columns(summary: SummaryView) -> Seq<Seq<char>> {
    seq![summary.name, summary.path] + (match summary.branch {
        Some(branch) => seq!["branch: "@ + branch],
        None => seq![],
    }) + (match summary.head {
        Some(head) => seq!["HEAD: "@ + crate::context::prefix(head, 7)],
        None => seq![],
    }) + (if summary.is_locked {
        seq!["locked"@]
    } else {
        seq![]
    }) + (if summary.is_prunable {
        seq!["prunable"@]
    } else {
        seq![]
    })
}

/// The line printed for a workspace: its columns with ` | ` between them.
pub fn workspace_summary_line(summary: &WorkspaceSummary) -> (line: String)
    ensures
        line@ == joined_texts(summary_columns(summary@), " | "@),
{
    let mut columns: Vec<String> = Vec::new();
    columns.push(summary.name.clone());
    columns.push(summary.path.clone());
    match &summary.branch {
        Some(branch) => {
            columns.push(crate::text::concat2("branch: ", branch.as_str()));
        },
        None => {},
    }
    match &summary.head {
        Some(head) => {
            let chars = chars_of(head.as_str());
            let short = if chars.len() <= 7 {
                assert(chars@.subrange(0, chars.len() as int) == chars@);
                string_of_range(&chars, 0, chars.len())
            } else {
                string_of_range(&chars, 0, 7)
            };
            columns.push(crate::text::concat2("HEAD: ", short.as_str()));
        },
        None => {},
    }
    if summary.is_locked {
        columns.push("locked".to_owned());
    }
    if summary.is_prunable {
        columns.push("prunable".to_owned());
    }
    assert(texts(columns@) =~= summary_columns(summary@));
    join_strings(&columns, " | ")
}

/// The order of texts is strict: no text comes before itself, and of two
/// texts at most one comes before the other.
pub proof fn lemma_text_lt_strict(a: Seq<char>, b: Seq<char>)
    ensures
        !text_lt(a, a),
        text_lt(a, b) ==> !text_lt(b, a),
    decreases a.len(),
{
    if a.len() > 0 {
        lemma_text_lt_strict(a.drop_first(), a.drop_first());
        if b.len() > 0 && a[0] == b[0] {
            lemma_text_lt_strict(a.drop_first(), b.drop_first());
        }
    }
}

/// If `c` does not come before `b` and `b` does not come before `a`, then
/// `c` does not come before `a`.
pub proof fn lemma_text_order_chain(a: Seq<char>, b: Seq<char>, c: Seq<char>)
    requires
        !text_lt(b, a),
        !text_lt(c, b),
    ensures
        !text_lt(c, a),
    decreases a.len(),
{
    if a.len() > 0 && b.len() > 0 && c.len() > 0 {
        if a[0] == b[0] && b[0] == c[0] {
            lemma_text_order_chain(a.drop_first(), b.drop_first(), c.drop_first());
        }
    }
}

/// Whether a list of worktrees is ordered by name.
pub open spec fn ordered_by_name(list: Seq<WorktreeView>) -> bool {
    forall|i: int, j: int|
        0 <= i < j < list.len() ==> !text_lt(
            worktree_name((#[trigger] list[j]).path),
            worktree_name((#[trigger] list[i]).path),
        )
}

/// The worktrees that a selector resolves to are ordered by name, each of
/// them matches the selector, and there are as many of them as worktrees
/// that match.
pub proof fn lemma_resolved_ordered(
    worktrees: Seq<WorktreeView>,
    selector: SelectorView,
    workspace_root: Seq<char>,
    n: int,
)
    requires
        0 <= n <= worktrees.len(),
    ensures
        ordered_by_name(resolved_upto(worktrees, selector, workspace_root, n)),
        forall|i: int|
            0 <= i < resolved_upto(worktrees, selector, workspace_root, n).len() ==> selects(
                selector,
                #[trigger] resolved_upto(worktrees, selector, workspace_root, n)[i],
                workspace_root,
            ),
        resolved_upto(worktrees, selector, workspace_root, n).len() <= n,
    decreases n,
{
    if n > 0 {
        lemma_resolved_ordered(worktrees, selector, workspace_root, n - 1);
        let before = resolved_upto(worktrees, selector, workspace_root, n - 1);
        let next = worktrees[n - 1];
        if selects(selector, next, workspace_root) {
            let name = worktree_name(next.path);
            let at = insert_at(before, name);
            lemma_insert_at(before, name);
            let after = before.insert(at, next);
            assert forall|i: int, j: int| 0 <= i < j < after.len() implies !text_lt(
                worktree_name((#[trigger] after[j]).path),
                worktree_name((#[trigger] after[i]).path),
            ) by {
                if j == at {
                    if at > 0 {
                        assert(after[i] == before[i]);
                        if i < at - 1 {
                            assert(!text_lt(
                                worktree_name(before[at - 1].path),
                                worktree_name(before[i].path),
                            ));
                        } else {
                            lemma_text_lt_strict(
                                worktree_name(before[i].path),
                                worktree_name(before[i].path),
                            );
                        }
                        lemma_text_order_chain(
                            worktree_name(before[i].path),
                            worktree_name(before[at - 1].path),
                            name,
                        );
                    }
                } else if i == at {
                    assert(after[j] == before[j - 1]);
                    assert(text_lt(name, worktree_name(before[j - 1].path)));
                    lemma_text_lt_strict(name, worktree_name(before[j - 1].path));
                } else {
                    let bi = if i < at {
                        i
                    } else {
                        i - 1
                    };
                    let bj = if j < at {
                        j
                    } else {
                        j - 1
                    };
                    assert(after[i] == before[bi]);
                    assert(after[j] == before[bj]);
                    assert(!text_lt(worktree_name(before[bj].path), worktree_name(before[bi].path)));
                }
            }
            assert forall|i: int| 0 <= i < after.len() implies selects(
                selector,
                #[trigger] after[i],
                workspace_root,
            ) by {
                if i < at {
                    assert(after[i] == before[i]);
                } else if i > at {
                    assert(after[i] == before[i - 1]);
                }
            }
        }
    }
}

/// Why a workspace cannot be made or moved.
#[derive(Debug, Clone, Copy, PartialEq, Eq, Structural)]
pub enum PlanError {
    /// No branch name is left once the name given is cleaned.
    BranchRequired,
    /// Something is at the target path already.
    TargetExists,
    /// No workspace could be chosen to move.
    Select(SelectError),
}

/// What to ask of the version-control collaborator for a new workspace.
#[derive(Debug)]
pub struct WorkspacePlan {
    /// The branch to create or attach.
    pub branch: String,
    /// Where the workspace goes.
    pub path: String,
}

/// Whether something is at `path`: a path of `existing` names the same
/// place.
pub open spec fn occupied(existing: Seq<String>, path: Seq<char>) -> bool {
    exists|i: int| 0 <= i < existing.len() && path_eq((#[trigger] existing[i])@, path)
}

/// Whether `path` is where a workspace named `fallback` goes: the path given,
/// normalised, or else the first free path for the name.
pub open spec fn is_target(
    workspace_root: Seq<char>,
    explicit: Option<Seq<char>>,
    fallback: Seq<char>,
    existing: Seq<String>,
    path: Seq<char>,
) -> bool {
    match explicit {
        Some(given) => path == normalised(given, workspace_root),
        None => is_first_free(workspace_root, fallback, existing, path),
    }
}

/// Decides [`occupied`].
pub fn is_occupied(existing: &Vec<String>, path: &str) -> (taken: bool)
    ensures
        taken == occupied(existing@, path@),
{
    let mut i: usize = 0;
    while i < existing.len()
        invariant
            i <= existing.len(),
            forall|j: int| 0 <= j < i ==> !path_eq((#[trigger] existing@[j])@, path@),
        decreases existing.len() - i,
    {
        if same_path(existing[i].as_str(), path) {
            return true;
        }
        i += 1;
    }
    false
}

/// The text of an optional string slice.
pub open spec fn given_text(given: Option<&str>) -> Option<Seq<char>> {
    match given {
        Some(text) => Some(text@),
        None => None,
    }
}

/// The target path for a workspace, unless something is there already.
fn free_target(
    workspace_root: &str,
    explicit: Option<&str>,
    fallback: &str,
    existing: &Vec<String>,
) -> (out: Result<String, PlanError>)
    ensures
        out is Ok ==> is_target(
            workspace_root@,
            given_text(explicit),
            fallback@,
            existing@,
            out->Ok_0@,
        ) && !occupied(existing@, out->Ok_0@),
        out is Err ==> out->Err_0 == PlanError::TargetExists && exists|path: Seq<char>|
            #[trigger] is_target(
                workspace_root@,
                given_text(explicit),
                fallback@,
                existing@,
                path,
            ) && occupied(existing@, path),
{
    let path = resolve_target_path(workspace_root, explicit, fallback, existing);
    if is_occupied(existing, path.as_str()) {
        assert(is_target(
            workspace_root@,
            given_text(explicit),
            fallback@,
            existing@,
            path@,
        ));
        Err(PlanError::TargetExists)
    } else {
        Ok(path)
    }
}

/// Plans a workspace on a new branch. The branch name is cleaned as typed
/// branch names are, and must not come out empty. The workspace goes to the
/// path given or else to the first free path for the branch's directory
/// name, and nothing may be there yet. `existing` lists the paths that are
/// taken.
pub fn create_workspace(
    workspace_root: &str,
    branch: &str,
    explicit_path: Option<&str>,
    existing: &Vec<String>,
) -> (out: Result<WorkspacePlan, PlanError>)
    ensures
        sanitized(branch@).len() == 0 ==> out is Err && out->Err_0 == PlanError::BranchRequired,
        sanitized(branch@).len() > 0 ==> {
            let explicit = given_text(explicit_path);
            let name = dir_name(sanitized(branch@));
            &&& out is Ok ==> out->Ok_0.branch@ == sanitized(branch@) && is_target(
                workspace_root@,
                explicit,
                name,
                existing@,
                out->Ok_0.path@,
            ) && !occupied(existing@, out->Ok_0.path@)
            &&& out is Err ==> out->Err_0 == PlanError::TargetExists && exists|path: Seq<char>|
                #[trigger] is_target(workspace_root@, explicit, name, existing@, path) && occupied(
                    existing@,
                    path,
                )
        },
{
    let clean = sanitize_branch_input(branch);
    if clean.as_str().unicode_len() == 0 {
        return Err(PlanError::BranchRequired);
    }
    let name = branch_dir_name(clean.as_str());
    match free_target(workspace_root, explicit_path, name.as_str(), existing) {
        Ok(path) => Ok(WorkspacePlan { branch: clean, path }),
        Err(error) => Err(error),
    }
}

/// Plans a workspace on an existing branch. The branch name is trimmed and
/// must not come out empty; the path is chosen as for a new branch.
pub fn attach_workspace(
    workspace_root: &str,
    branch: &str,
    explicit_path: Option<&str>,
    existing: &Vec<String>,
) -> (out: Result<WorkspacePlan, PlanError>)
    ensures
        trim(branch@).len() == 0 ==> out is Err && out->Err_0 == PlanError::BranchRequired,
        trim(branch@).len() > 0 ==> {
            let explicit = given_text(explicit_path);
            let name = dir_name(trim(branch@));
            &&& out is Ok ==> out->Ok_0.branch@ == trim(branch@) && is_target(
                workspace_root@,
                explicit,
                name,
                existing@,
                out->Ok_0.path@,
            ) && !occupied(existing@, out->Ok_0.path@)
            &&& out is Err ==> out->Err_0 == PlanError::TargetExists && exists|path: Seq<char>|
                #[trigger] is_target(workspace_root@, explicit, name, existing@, path) && occupied(
                    existing@,
                    path,
                )
        },
{
    let clean = trimmed(branch);
    if clean.as_str().unicode_len() == 0 {
        return Err(PlanError::BranchRequired);
    }
    let name = branch_dir_name(clean.as_str());
    match free_target(workspace_root, explicit_path, name.as_str(), existing) {
        Ok(path) => Ok(WorkspacePlan { branch: clean, path }),
        Err(error) => Err(error),
    }
}

/// Plans the move of a workspace to `destination`. The workspace is chosen
/// as for a deletion, with the same refusals; the destination is normalised
/// and nothing may be there yet. Returns the summary of the workspace and the
/// path it moves to.
pub fn move_workspace(
    worktrees: &Vec<WorktreeInfo>,
    repo_root: &str,
    workspace_root: &str,
    selector: &WorkspaceSelector,
    destination: &str,
    existing: &Vec<String>,
) -> (out: Result<(WorkspaceSummary, String), PlanError>)
    ensures
        ({
            let found = resolved(worktree_views(worktrees@), selector@, workspace_root@);
            let empty = selector@.name is None && selector@.branch is None && selector@.path
                is None;
            let target = normalised(destination@, workspace_root@);
            let refused = if empty {
                Some(SelectError::EmptySelector)
            } else if found.len() == 0 {
                Some(SelectError::NoMatch)
            } else if found.len() > 1 {
                Some(SelectError::Ambiguous)
            } else if path_eq(found[0].path, repo_root@) {
                Some(SelectError::Primary)
            } else {
                None
            };
            &&& refused is Some ==> out is Err && out->Err_0 == PlanError::Select(refused->0)
            &&& refused is None && occupied(existing@, target) ==> out is Err && out->Err_0
                == PlanError::TargetExists
            &&& refused is None && !occupied(existing@, target) ==> out is Ok && ({
                let plan = out->Ok_0;
                plan.0@ == summary_of(found[0]) && plan.1@ == target
            })
        }),
{
    match delete_workspace(worktrees, repo_root, workspace_root, selector) {
        Err(error) => Err(PlanError::Select(error)),
        Ok(summary) => {
            let target = normalise_workspace_path(destination, workspace_root);
            if is_occupied(existing, target.as_str()) {
                Err(PlanError::TargetExists)
            } else {
                Ok((summary, target))
            }
        },
    }
}

} // verus!
