//! The state of the graphical front end's forms: the branch being typed, the
//! removal that waits to be confirmed, and the status shown.
//!
//! As in the application, outside work is asked for and reported on: a
//! method that needs the version-control collaborator returns what to ask of
//! it, and a second method takes what came back.

use vstd::prelude::*;
use vstd::string::*;
use crate::paths::{branch_dir_name, dir_name};
use crate::text::{
    chars_of, concat2, concat3, join_strings, joined_texts, lemma_texts_push, lines, lines_of,
    opt_text, string_of_range, strip_end, texts, trim, trimmed,
};

verus! {

/// Whether a status tells of success or of a failure.
#[derive(Clone, Copy, Debug, PartialEq, Eq, Structural)]
pub enum StatusKind {
    Info,
    Error,
}

/// A status with its kind.
#[derive(Clone, Debug)]
pub struct StatusMessage {
    pub text: String,
    pub kind: StatusKind,
}

/// The mathematical value of a status.
pub struct StatusMessageView {
    pub text: Seq<char>,
    pub kind: StatusKind,
}

impl View for StatusMessage {
    type V = StatusMessageView;

    open spec fn view(&self) -> StatusMessageView {
        StatusMessageView { text: self.text@, kind: self.kind }
    }
}

impl StatusMessage {
    /// A status that tells of success.
    pub fn info(message: String) -> (status: Self)
        ensures
            status@ == (StatusMessageView { text: message@, kind: StatusKind::Info }),
    {
        StatusMessage { text: message, kind: StatusKind::Info }
    }

    /// A status that tells of a failure.
    pub fn error(message: String) -> (status: Self)
        ensures
            status@ == (StatusMessageView { text: message@, kind: StatusKind::Error }),
    {
        StatusMessage { text: message, kind: StatusKind::Error }
    }
}

/// What the user did in the list of workspaces.
#[derive(Debug)]
pub enum WorkspaceAction {
    /// Chose the workspace at an index.
    Select(usize),
    /// Asked to remove the workspace at a path, with the name shown for it.
    StageRemoval(String, String),
    /// Confirmed the removal of the workspace at a path.
    ConfirmRemoval(String),
    /// Took the request to remove back.
    CancelRemoval,
}

/// What to ask for a new worktree.
#[derive(Debug)]
pub struct CreateRequest {
    /// The branch to create, as typed and trimmed.
    pub branch: String,
    /// The name of the directory to put the worktree in.
    pub dir_name: String,
}

/// What to ask to remove a worktree.
#[derive(Debug)]
pub struct RemoveRequest {
    pub path: String,
    pub force: bool,
}

/// The mathematical value of the forms.
pub struct FormsView {
    pub selected_workspace: usize,
    pub new_branch: Seq<char>,
    pub status: Option<StatusMessageView>,
    pub pending_removal: Option<Seq<char>>,
    pub force_remove: bool,
}

/// The forms of the graphical front end.
#[derive(Debug)]
pub struct GuiForms {
    pub selected_workspace: usize,
    pub new_branch: String,
    pub status: Option<StatusMessage>,
    pub pending_removal: Option<String>,
    pub force_remove: bool,
}

/// The value of an optional status.
pub open spec fn status_view(status: Option<StatusMessage>) -> Option<StatusMessageView> {
    match status {
        Some(message) => Some(message@),
        None => None,
    }
}

impl View for GuiForms {
    type V = FormsView;

    open spec fn view(&self) -> FormsView {
        FormsView {
            selected_workspace: self.selected_workspace,
            new_branch: self.new_branch@,
            status: status_view(self.status),
            pending_removal: opt_text(self.pending_removal),
            force_remove: self.force_remove,
        }
    }
}

/// A status of success with the given text.
pub open spec fn info_of(text: Seq<char>) -> Option<StatusMessageView> {
    Some(StatusMessageView { text, kind: StatusKind::Info })
}

/// A status of failure with the given text.
pub open spec fn error_of(text: Seq<char>) -> Option<StatusMessageView> {
    Some(StatusMessageView { text, kind: StatusKind::Error })
}

impl FormsView {
    /// The forms after the user acted on the list of `len` workspaces.
    pub open spec fn acted(self, action: WorkspaceAction, len: usize) -> FormsView {
        match action {
            WorkspaceAction::Select(index) => if index < len {
                FormsView { selected_workspace: index, pending_removal: None, ..self }
            } else {
                self
            },
            WorkspaceAction::StageRemoval(path, name) => FormsView {
                pending_removal: Some(path@),
                status: info_of("Confirm removal of "@ + name@),
                ..self
            },
            WorkspaceAction::ConfirmRemoval(_) => self,
            WorkspaceAction::CancelRemoval => FormsView {
                pending_removal: None,
                status: info_of("Cancelled removal"@),
                ..self
            },
        }
    }

    /// The forms after the workspace list changed to one of `len` workspaces
    /// of which `pending_known` tells whether the one to be removed is still
    /// among them.
    pub open spec fn synced(self, len: usize, pending_known: bool) -> FormsView {
        FormsView {
            selected_workspace: if self.selected_workspace >= len {
                if len == 0 {
                    0
                } else {
                    (len - 1) as usize
                }
            } else {
                self.selected_workspace
            },
            pending_removal: if pending_known {
                self.pending_removal
            } else {
                None
            },
            ..self
        }
    }
}

impl GuiForms {
    /// Empty forms.
    pub fn new() -> (forms: Self)
        ensures
            forms@ == (FormsView {
                selected_workspace: 0,
                new_branch: seq![],
                status: None,
                pending_removal: None,
                force_remove: false,
            }),
    {
        let forms = GuiForms {
            selected_workspace: 0,
            new_branch: String::new(),
            status: None,
            pending_removal: None,
            force_remove: false,
        };
        assert(forms.new_branch@ =~= Seq::<char>::empty());
        forms
    }

    /// Asks for a worktree on the branch typed. A blank name is refused with
    /// a status and asks for nothing.
    pub fn create_worktree(&mut self) -> (request: Option<CreateRequest>)
        ensures
            trim(old(self)@.new_branch).len() == 0 ==> request is None && final(self)@ == (FormsView {
                status: error_of("Enter a branch name before creating a worktree"@),
                ..old(self)@
            }),
            trim(old(self)@.new_branch).len() > 0 ==> request is Some && request->0.branch@ == trim(
                old(self)@.new_branch,
            ) && request->0.dir_name@ == dir_name(trim(old(self)@.new_branch)) && final(self)@
                == old(self)@,
    {
        let branch = trimmed(self.new_branch.as_str());
        if branch.as_str().unicode_len() == 0 {
            self.status = Some(
                StatusMessage::error("Enter a branch name before creating a worktree".to_owned()),
            );
            None
        } else {
            let dir_name = branch_dir_name(branch.as_str());
            Some(CreateRequest { branch, dir_name })
        }
    }

    /// Takes what became of making the worktree at `path`: success clears
    /// the branch typed and the pending removal; either way the status tells.
    pub fn worktree_created(&mut self, path: &str, outcome: Result<(), String>)
        ensures
            final(self)@ == match outcome {
                Ok(_) => FormsView {
                    status: info_of("Created worktree at "@ + path@),
                    new_branch: seq![],
                    pending_removal: None,
                    ..old(self)@
                },
                Err(error) => FormsView {
                    status: error_of("Failed to create worktree: "@ + error@),
                    ..old(self)@
                },
            },
    {
        match outcome {
            Ok(_) => {
                self.status = Some(StatusMessage::info(concat2("Created worktree at ", path)));
                self.new_branch = String::new();
                self.pending_removal = None;
                assert(self.new_branch@ =~= Seq::<char>::empty());
            },
            Err(error) => {
                self.status = Some(
                    StatusMessage::error(concat2("Failed to create worktree: ", error.as_str())),
                );
            },
        }
    }

    /// Asks to remove the worktree at `path`, forced if the form says so.
    pub fn remove_worktree(&self, path: &str) -> (request: RemoveRequest)
        ensures
            request.path@ == path@,
            request.force == self@.force_remove,
    {
        RemoveRequest { path: path.to_owned(), force: self.force_remove }
    }

    /// Takes what became of removing the worktree at `path`: success clears
    /// the pending removal; either way the status tells.
    pub fn worktree_removed(&mut self, path: &str, outcome: Result<(), String>)
        ensures
            final(self)@ == match outcome {
                Ok(_) => FormsView {
                    status: info_of("Removed worktree "@ + path@),
                    pending_removal: None,
                    ..old(self)@
                },
                Err(error) => FormsView {
                    status: error_of("Failed to remove worktree: "@ + error@),
                    ..old(self)@
                },
            },
    {
        match outcome {
            Ok(_) => {
                self.status = Some(StatusMessage::info(concat2("Removed worktree ", path)));
                self.pending_removal = None;
            },
            Err(error) => {
                self.status = Some(
                    StatusMessage::error(concat2("Failed to remove worktree: ", error.as_str())),
                );
            },
        }
    }

    /// Takes what the user did in the list of `len` workspaces. A confirmed
    /// removal is handed back as the request to make.
    pub fn handle_workspace_action(&mut self, action: WorkspaceAction, len: usize) -> (request:
        Option<RemoveRequest>)
        ensures
            final(self)@ == old(self)@.acted(action, len),
            request is Some == action is ConfirmRemoval,
            request is Some ==> request->0.path == action->ConfirmRemoval_0 && request->0.force
                == old(self)@.force_remove,
    {
        match action {
            WorkspaceAction::Select(index) => {
                if index < len {
                    self.selected_workspace = index;
                    self.pending_removal = None;
                }
                None
            },
            WorkspaceAction::StageRemoval(path, name) => {
                self.pending_removal = Some(path);
                self.status = Some(StatusMessage::info(concat2("Confirm removal of ", name.as_str())));
                None
            },
            WorkspaceAction::ConfirmRemoval(path) => Some(
                RemoveRequest { path, force: self.force_remove },
            ),
            WorkspaceAction::CancelRemoval => {
                self.pending_removal = None;
                self.status = Some(StatusMessage::info("Cancelled removal".to_owned()));
                None
            },
        }
    }

    /// Takes what became of starting a quick action: the status tells.
    pub fn quick_action_started(&mut self, label: &str, outcome: Result<(), String>)
        ensures
            final(self)@ == (FormsView {
                status: match outcome {
                    Ok(_) => info_of("Started `"@ + label@ + "`"@),
                    Err(error) => error_of("Failed to start `"@ + label@ + "`: "@ + error@),
                },
                ..old(self)@
            }),
    {
        match outcome {
            Ok(_) => {
                self.status = Some(StatusMessage::info(concat3("Started `", label, "`")));
            },
            Err(error) => {
                let head = concat3("Failed to start `", label, "`: ");
                self.status = Some(StatusMessage::error(concat2(head.as_str(), error.as_str())));
            },
        }
    }

    /// Brings the forms in line with a workspace list that changed: see
    /// [`FormsView::synced`].
    pub fn sync_workspaces(&mut self, len: usize, pending_known: bool)
        ensures
            final(self)@ == old(self)@.synced(len, pending_known),
    {
        if self.selected_workspace >= len {
            self.selected_workspace = if len == 0 {
                0
            } else {
                len - 1
            };
        }
        if !pending_known {
            self.pending_removal = None;
        }
    }
}

/// Checks the command of a quick action before it is run: a blank command
/// is refused.
pub fn spawn_quick_command(command: &str) -> (out: Result<(), String>)
    ensures
        out is Err == (trim(command@).len() == 0),
        out is Err ==> out->Err_0@ == "quick action command is empty"@,
{
    if crate::text::is_blank(command) {
        Err("quick action command is empty".to_owned())
    } else {
        Ok(())
    }
}

/// The text of a screen as shown: each line without the spaces at its end,
/// the lines joined by line feeds.
pub open spec fn shown_text(contents: Seq<char>) -> Seq<char> {
    let all = lines(contents);
    joined_texts(Seq::new(all.len(), |i: int| strip_end(all[i], ' ')), seq!['\n'])
}

/// The text of a screen as shown.
pub fn screen_to_string(contents: &str) -> (text: String)
    ensures
        text@ == shown_text(contents@),
{
    let all = lines_of(contents);
    let mut trimmed_lines: Vec<String> = Vec::new();
    let mut i: usize = 0;
    while i < all.len()
        invariant
            i <= all.len(),
            texts(all@) == lines(contents@),
            texts(trimmed_lines@) == Seq::new(i as nat, |j: int| strip_end(texts(all@)[j], ' ')),
        decreases all.len() - i,
    {
        let chars = chars_of(all[i].as_str());
        assert(texts(all@)[i as int] == chars@);
        let mut to: usize = chars.len();
        assert(chars@.subrange(0, to as int) == chars@);
        while to > 0 && chars[to - 1] == ' '
            invariant
                to <= chars.len(),
                strip_end(chars@, ' ') == strip_end(chars@.subrange(0, to as int), ' '),
            decreases to,
        {
            assert(chars@.subrange(0, to as int).drop_last() == chars@.subrange(0, to - 1));
            to -= 1;
        }
        let line = string_of_range(&chars, 0, to);
        proof {
            lemma_texts_push(trimmed_lines@, line);
            assert(texts(trimmed_lines@).push(line@) =~= Seq::new(
                (i + 1) as nat,
                |j: int| strip_end(texts(all@)[j], ' '),
            ));
        }
        trimmed_lines.push(line);
        i += 1;
    }
    proof {
        reveal_strlit("\n");
        assert("\n"@ =~= seq!['\n']);
        assert(texts(trimmed_lines@) =~= Seq::new(
            lines(contents@).len(),
            |j: int| strip_end(lines(contents@)[j], ' '),
        ));
    }
    join_strings(&trimmed_lines, "\n")
}

} // verus!
