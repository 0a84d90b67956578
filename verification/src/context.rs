//! The context panel of a workspace: what is known of its worktree, its git
//! state and its containers, as lines of text.

use vstd::prelude::*;
use vstd::string::*;
use crate::docker::{container_line, describe_container, ContainerView, DockerContainer};
use crate::git::{WorktreeInfo, WorktreeView};
use crate::status::{GitStatusSummary, StatusView};
use crate::text::{
    chars_of, concat2, decimal, lemma_texts_push, push_decimal, push_str, string_of,
    string_of_range, texts,
};

verus! {

/// The lines of the context panel.
#[derive(Debug)]
pub struct WorkspaceContext {
    pub git: Vec<String>,
    pub docker: Vec<String>,
    pub errors: Vec<String>,
}

/// The mathematical value of the context panel.
pub struct ContextView {
    pub git: Seq<Seq<char>>,
    pub docker: Seq<Seq<char>>,
    pub errors: Seq<Seq<char>>,
}

impl View for WorkspaceContext {
    type V = ContextView;

    open spec fn view(&self) -> ContextView {
        ContextView { git: texts(self.git@), docker: texts(self.docker@), errors: texts(self.errors@) }
    }
}

/// The first `n` characters of a text, or all of it if it is shorter.
pub open spec fn prefix(text: Seq<char>, n: nat) -> Seq<char> {
    if text.len() <= n {
        text
    } else {
        text.take(n as int)
    }
}

/// The lines that describe a worktree: its path, its branch or that it is
/// detached, the first seven characters of its head, and its flags.
pub open spec fn worktree_lines(info: WorktreeView) -> Seq<Seq<char>> {
    seq!["Path: "@ + info.path] + seq![
        match info.branch {
            Some(branch) => "Branch: "@ + branch,
            None => "Branch: (detached)"@,
        },
    ] + (match info.head {
        Some(head) => seq!["HEAD: "@ + prefix(head, 7)],
        None => seq![],
    }) + (if info.is_locked && info.is_prunable {
        seq!["Flags: locked, prunable"@]
    } else if info.is_locked {
        seq!["Flags: locked"@]
    } else if info.is_prunable {
        seq!["Flags: prunable"@]
    } else {
        seq![]
    })
}

/// The line that tells how far the branch is from its upstream.
pub open spec fn sync_line(summary: StatusView) -> Seq<char> {
    if summary.ahead > 0 || summary.behind > 0 {
        "Ahead "@ + decimal(summary.ahead as nat) + " \u{2022} Behind "@ + decimal(
            summary.behind as nat,
        )
    } else {
        "In sync with upstream"@
    }
}

/// The line that counts the changes.
pub open spec fn changes_line(summary: StatusView) -> Seq<char> {
    "Changes \u{2014} staged: "@ + decimal(summary.staged) + ", unstaged: "@ + decimal(
        summary.unstaged,
    ) + ", untracked: "@ + decimal(summary.untracked) + ", conflicts: "@ + decimal(
        summary.conflicts,
    )
}

/// The lines that describe a status summary.
pub open spec fn status_lines(summary: StatusView) -> Seq<Seq<char>> {
    (match summary.upstream {
        Some(upstream) => seq!["Upstream: "@ + upstream],
        None => seq![],
    }) + seq![sync_line(summary), changes_line(summary)]
}

/// The lines that describe the containers: one for each, or one that says
/// there is none.
pub open spec fn container_lines(containers: Seq<ContainerView>) -> Seq<Seq<char>> {
    if containers.len() == 0 {
        seq!["No docker compose services detected."@]
    } else {
        Seq::new(containers.len(), |i: int| container_line(containers[i]))
    }
}

/// The context of a worktree, from what the collaborators reported. The git
/// lines describe the worktree and then its status; a report that failed is
/// told among the errors.
pub open spec fn gathered(
    info: WorktreeView,
    status: Result<StatusView, Seq<char>>,
    containers: Result<Seq<ContainerView>, Seq<char>>,
) -> ContextView {
    ContextView {
        git: worktree_lines(info) + match status {
            Ok(summary) => status_lines(summary),
            Err(_) => seq![],
        },
        docker: match containers {
            Ok(list) => container_lines(list),
            Err(_) => seq![],
        },
        errors: (match status {
            Ok(_) => seq![],
            Err(error) => seq!["git status unavailable: "@ + error],
        }) + (match containers {
            Ok(_) => seq![],
            Err(error) => seq!["docker compose unavailable: "@ + error],
        }),
    }
}

/// Appends a line to a list of lines.
fn push_line(list: &mut Vec<String>, line: String)
    ensures
        texts(final(list)@) == texts(old(list)@).push(line@),
{
    proof {
        lemma_texts_push(list@, line);
    }
    list.push(line);
}

impl WorkspaceContext {
    /// An empty context.
    pub fn new() -> (context: Self)
        ensures
            context@ == (ContextView { git: seq![], docker: seq![], errors: seq![] }),
    {
        let context = WorkspaceContext { git: Vec::new(), docker: Vec::new(), errors: Vec::new() };
        assert(texts(context.git@) =~= Seq::<Seq<char>>::empty());
        assert(texts(context.docker@) =~= Seq::<Seq<char>>::empty());
        assert(texts(context.errors@) =~= Seq::<Seq<char>>::empty());
        context
    }

    /// Adds an error to the context.
    pub fn add_error(&mut self, message: String)
        ensures
            final(self)@ == (ContextView { errors: old(self)@.errors.push(message@), ..old(self)@ }),
    {
        push_line(&mut self.errors, message);
    }
}

/// Appends the lines that describe a worktree to the git lines.
fn append_worktree(context: &mut WorkspaceContext, info: &WorktreeInfo)
    ensures
        final(context)@ == (ContextView {
            git: old(context)@.git + worktree_lines(info@),
            ..old(context)@
        }),
{
    push_line(&mut context.git, concat2("Path: ", info.path.as_str()));
    match &info.branch {
        Some(branch) => {
            push_line(&mut context.git, concat2("Branch: ", branch.as_str()));
        },
        None => {
            push_line(&mut context.git, "Branch: (detached)".to_owned());
        },
    }
    match &info.head {
        Some(head) => {
            let chars = chars_of(head.as_str());
            let short = if chars.len() <= 7 {
                assert(chars@.subrange(0, chars.len() as int) == chars@);
                string_of_range(&chars, 0, chars.len())
            } else {
                string_of_range(&chars, 0, 7)
            };
            push_line(&mut context.git, concat2("HEAD: ", short.as_str()));
        },
        None => {},
    }
    if info.is_locked && info.is_prunable {
        push_line(&mut context.git, "Flags: locked, prunable".to_owned());
    } else if info.is_locked {
        push_line(&mut context.git, "Flags: locked".to_owned());
    } else if info.is_prunable {
        push_line(&mut context.git, "Flags: prunable".to_owned());
    }
    assert(context@.git =~= old(context)@.git + worktree_lines(info@));
}

/// Appends the lines that describe a status summary to the git lines.
pub fn append_git_status(context: &mut WorkspaceContext, summary: &GitStatusSummary)
    ensures
        final(context)@ == (ContextView {
            git: old(context)@.git + status_lines(summary@),
            ..old(context)@
        }),
{
    match &summary.upstream {
        Some(upstream) => {
            push_line(&mut context.git, concat2("Upstream: ", upstream.as_str()));
        },
        None => {},
    }
    if summary.ahead > 0 || summary.behind > 0 {
        let mut line: Vec<char> = Vec::new();
        push_str(&mut line, "Ahead ");
        push_decimal(&mut line, summary.ahead as u64);
        push_str(&mut line, " \u{2022} Behind ");
        push_decimal(&mut line, summary.behind as u64);
        assert(line@ =~= sync_line(summary@));
        push_line(&mut context.git, string_of(&line));
    } else {
        push_line(&mut context.git, "In sync with upstream".to_owned());
    }
    let mut line: Vec<char> = Vec::new();
    push_str(&mut line, "Changes \u{2014} staged: ");
    push_decimal(&mut line, summary.staged as u64);
    push_str(&mut line, ", unstaged: ");
    push_decimal(&mut line, summary.unstaged as u64);
    push_str(&mut line, ", untracked: ");
    push_decimal(&mut line, summary.untracked as u64);
    push_str(&mut line, ", conflicts: ");
    push_decimal(&mut line, summary.conflicts as u64);
    assert(line@ =~= changes_line(summary@));
    push_line(&mut context.git, string_of(&line));
    assert(context@.git =~= old(context)@.git + status_lines(summary@));
}

/// The values of a list of containers.
pub open spec fn container_views(list: Seq<DockerContainer>) -> Seq<ContainerView> {
    Seq::new(list.len(), |i: int| list[i]@)
}

/// What a report that may have failed holds, as values.
pub open spec fn status_outcome(status: Result<GitStatusSummary, String>) -> Result<
    StatusView,
    Seq<char>,
> {
    match status {
        Ok(summary) => Ok(summary@),
        Err(error) => Err(error@),
    }
}

/// What a report that may have failed holds, as values.
pub open spec fn containers_outcome(containers: Result<Vec<DockerContainer>, String>) -> Result<
    Seq<ContainerView>,
    Seq<char>,
> {
    match containers {
        Ok(list) => Ok(container_views(list@)),
        Err(error) => Err(error@),
    }
}

/// Gathers the context of a worktree from what the version-control and the
/// container collaborator reported.
pub fn gather_workspace_context(
    info: &WorktreeInfo,
    status: Result<GitStatusSummary, String>,
    containers: Result<Vec<DockerContainer>, String>,
) -> (context: WorkspaceContext)
    ensures
        context@ == gathered(info@, status_outcome(status), containers_outcome(containers)),
{
    let mut context = WorkspaceContext::new();
    append_worktree(&mut context, info);
    match &status {
        Ok(summary) => {
            append_git_status(&mut context, summary);
        },
        Err(error) => {
            context.add_error(concat2("git status unavailable: ", error.as_str()));
        },
    }
    match &containers {
        Ok(list) => {
            if list.len() == 0 {
                push_line(&mut context.docker, "No docker compose services detected.".to_owned());
            } else {
                let ghost git = context.git;
                let ghost errors = context.errors;
                let mut i: usize = 0;
                assert(texts(context.docker@) =~= Seq::new(
                    0nat,
                    |j: int| container_line(list@[j]@),
                ));
                while i < list.len()
                    invariant
                        i <= list.len(),
                        context.git == git,
                        context.errors == errors,
                        texts(context.docker@) == Seq::new(
                            i as nat,
                            |j: int| container_line(list@[j]@),
                        ),
                    decreases list.len() - i,
                {
                    let line = describe_container(&list[i]);
                    push_line(&mut context.docker, line);
                    assert(texts(context.docker@) =~= Seq::new(
                        (i + 1) as nat,
                        |j: int| container_line(list@[j]@),
                    ));
                    i += 1;
                }
                assert(texts(context.docker@) =~= container_lines(container_views(list@)));
            }
        },
        Err(error) => {
            context.add_error(concat2("docker compose unavailable: ", error.as_str()));
        },
    }
    assert(context@.git =~= gathered(
        info@,
        status_outcome(status),
        containers_outcome(containers),
    ).git);
    assert(context@.docker =~= gathered(
        info@,
        status_outcome(status),
        containers_outcome(containers),
    ).docker);
    assert(context@.errors =~= gathered(
        info@,
        status_outcome(status),
        containers_outcome(containers),
    ).errors);
    context
}

} // verus!
