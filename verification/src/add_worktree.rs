//! The form for adding a worktree: a branch name being typed, and the
//! suggestions (tickets, local branches, remote branches) that match it.

use vstd::prelude::*;
use crate::jira::{ticket_slug, ticket_views, JiraTicket, TicketView};
use crate::paths::{
    branch_dir_name, dir_name, is_first_free, next_available_workspace_path, sanitize_branch_input,
    sanitized,
};
use crate::text::{
    chars_of, concat2, contains, find_char, index_of_from, join_strings, joined_texts,
    lemma_texts_push, list_contains, lists, lowercase, opt_text, string_of, string_of_range,
    text_contains, texts, to_lowercase, trim, trimmed,
};

verus! {

/// How a typed or accepted branch name is taken into the form.
#[derive(Clone, Copy, Debug, PartialEq, Eq, Structural)]
pub enum InputStyle {
    /// Names are taken as they are.
    Verbatim,
    /// Typed text is sanitized after every key, and an accepted remote branch
    /// is turned into its directory name.
    Sanitized,
}

/// One proposal for the branch name.
#[derive(Debug, Clone)]
pub enum Suggestion {
    Ticket(JiraTicket),
    LocalBranch(String),
    RemoteBranch { remote: String, branch: String, upstream: String },
}

/// The mathematical value of a suggestion.
pub enum SuggestionView {
    Ticket(TicketView),
    LocalBranch(Seq<char>),
    RemoteBranch { remote: Seq<char>, branch: Seq<char>, upstream: Seq<char> },
}

impl View for Suggestion {
    type V = SuggestionView;

    open spec fn view(&self) -> SuggestionView {
        match self {
            Suggestion::Ticket(ticket) => SuggestionView::Ticket(ticket@),
            Suggestion::LocalBranch(branch) => SuggestionView::LocalBranch(branch@),
            Suggestion::RemoteBranch { remote, branch, upstream } => SuggestionView::RemoteBranch {
                remote: remote@,
                branch: branch@,
                upstream: upstream@,
            },
        }
    }
}

/// The values of a list of suggestions.
pub open spec fn suggestion_views(list: Seq<Suggestion>) -> Seq<SuggestionView> {
    Seq::new(list.len(), |i: int| list[i]@)
}

/// Whether `text`, in lower case, contains `query`.
pub open spec fn mentions(text: Seq<char>, query: Seq<char>) -> bool {
    contains(lowercase(text), query)
}

/// Whether a suggestion matches a query that is already in lower case: one
/// of its fields mentions the query. A ticket is matched by key, summary and
/// proposed branch name; a remote branch by remote, branch and full
/// reference.
pub open spec fn suggestion_matches(suggestion: SuggestionView, query: Seq<char>) -> bool {
    match suggestion {
        SuggestionView::Ticket(ticket) => mentions(ticket.key, query) || mentions(
            ticket.summary,
            query,
        ) || mentions(ticket_slug(ticket), query),
        SuggestionView::LocalBranch(branch) => mentions(branch, query),
        SuggestionView::RemoteBranch { remote, branch, upstream } => mentions(remote, query)
            || mentions(branch, query) || mentions(upstream, query),
    }
}

/// The remote and the branch of a reference `remote/branch`, split at the
/// first `/`. `None` when there is no `/` or nothing after it.
pub open spec fn remote_parts(reference: Seq<char>) -> Option<(Seq<char>, Seq<char>)> {
    let k = index_of_from(reference, '/', 0);
    if k + 1 >= reference.len() {
        None
    } else {
        Some((reference.take(k), reference.skip(k + 1)))
    }
}

/// Decides whether `text`, in lower case, contains `query`.
fn field_mentions(text: &str, query: &str) -> (found: bool)
    ensures
        found == mentions(text@, query@),
{
    let lower = to_lowercase(text);
    text_contains(lower.as_str(), query)
}

impl Suggestion {
    /// Whether the suggestion matches `query`, which is expected in lower
    /// case.
    pub fn matches(&self, query: &str) -> (found: bool)
        ensures
            found == suggestion_matches(self@, query@),
    {
        match self {
            Suggestion::Ticket(ticket) => {
                let slug = ticket.slug();
                field_mentions(ticket.key.as_str(), query) || field_mentions(
                    ticket.summary.as_str(),
                    query,
                ) || field_mentions(slug.as_str(), query)
            },
            Suggestion::LocalBranch(branch) => field_mentions(branch.as_str(), query),
            Suggestion::RemoteBranch { remote, branch, upstream } => field_mentions(
                remote.as_str(),
                query,
            ) || field_mentions(branch.as_str(), query) || field_mentions(upstream.as_str(), query),
        }
    }

    /// A copy of the suggestion.
    pub fn duplicate(&self) -> (copy: Self)
        ensures
            copy@ == self@,
    {
        match self {
            Suggestion::Ticket(ticket) => Suggestion::Ticket(ticket.duplicate()),
            Suggestion::LocalBranch(branch) => Suggestion::LocalBranch(branch.clone()),
            Suggestion::RemoteBranch { remote, branch, upstream } => Suggestion::RemoteBranch {
                remote: remote.clone(),
                branch: branch.clone(),
                upstream: upstream.clone(),
            },
        }
    }
}

/// Splits a remote reference into the remote's name and the branch.
pub fn split_remote_branch(reference: &str) -> (parts: Option<(String, String)>)
    ensures
        parts is Some == remote_parts(reference@) is Some,
        parts is Some ==> ({
            let got = parts->0;
            let want = remote_parts(reference@)->0;
            got.0@ == want.0 && got.1@ == want.1
        }),
{
    let chars = chars_of(reference);
    let k = find_char(&chars, '/', 0);
    if k >= chars.len() || k + 1 >= chars.len() {
        None
    } else {
        let remote = string_of_range(&chars, 0, k);
        let branch = string_of_range(&chars, k + 1, chars.len());
        Some((remote, branch))
    }
}

/// The mathematical value of the form.
pub struct AddView {
    pub branch: Seq<char>,
    pub tickets: Seq<TicketView>,
    pub local_branches: Seq<Seq<char>>,
    pub remote_branches: Seq<Seq<char>>,
    pub suggestions: Seq<SuggestionView>,
    pub filtered: Seq<usize>,
    pub selection: Option<usize>,
    pub show_overlay: bool,
    pub branch_exists: bool,
    pub branch_upstream: Option<Seq<char>>,
    pub style: InputStyle,
}

/// The form for adding a worktree.
///
/// `suggestions` is built from the three lists; `filtered` holds the indices
/// of the suggestions that match the typed text; `selection` is an index into
/// `filtered`. Every method works on any value of the fields: an index that
/// names nothing selects nothing.
#[derive(Debug)]
pub struct AddWorktreeState {
    pub branch: String,
    pub tickets: Vec<JiraTicket>,
    pub local_branches: Vec<String>,
    pub remote_branches: Vec<String>,
    pub suggestions: Vec<Suggestion>,
    pub filtered: Vec<usize>,
    pub selection: Option<usize>,
    pub show_overlay: bool,
    pub branch_exists: bool,
    pub branch_upstream: Option<String>,
    pub style: InputStyle,
}

impl View for AddWorktreeState {
    type V = AddView;

    open spec fn view(&self) -> AddView {
        AddView {
            branch: self.branch@,
            tickets: ticket_views(self.tickets@),
            local_branches: texts(self.local_branches@),
            remote_branches: texts(self.remote_branches@),
            suggestions: suggestion_views(self.suggestions@),
            filtered: self.filtered@,
            selection: self.selection,
            show_overlay: self.show_overlay,
            branch_exists: self.branch_exists,
            branch_upstream: opt_text(self.branch_upstream),
            style: self.style,
        }
    }
}

/// The suggestions for the first `n` remote references: one for each that
/// splits into a remote and a branch.
pub open spec fn remote_suggestions(remotes: Seq<Seq<char>>, n: int) -> Seq<SuggestionView>
    decreases n,
{
    if n <= 0 {
        seq![]
    } else {
        let before = remote_suggestions(remotes, n - 1);
        match remote_parts(remotes[n - 1]) {
            Some((remote, branch)) => before.push(
                SuggestionView::RemoteBranch { remote, branch, upstream: remotes[n - 1] },
            ),
            None => before,
        }
    }
}

/// The suggestions built from the three lists: the tickets, then the local
/// branches, then the remote branches.
pub open spec fn built_suggestions(
    tickets: Seq<TicketView>,
    locals: Seq<Seq<char>>,
    remotes: Seq<Seq<char>>,
) -> Seq<SuggestionView> {
    Seq::new(tickets.len(), |i: int| SuggestionView::Ticket(tickets[i])) + Seq::new(
        locals.len(),
        |i: int| SuggestionView::LocalBranch(locals[i]),
    ) + remote_suggestions(remotes, remotes.len() as int)
}

/// The indices below `n` of the suggestions that match `query`, in order.
pub open spec fn matching(suggestions: Seq<SuggestionView>, query: Seq<char>, n: int) -> Seq<usize>
    decreases n,
{
    if n <= 0 {
        seq![]
    } else {
        let before = matching(suggestions, query, n - 1);
        if suggestion_matches(suggestions[n - 1], query) {
            before.push((n - 1) as usize)
        } else {
            before
        }
    }
}

/// The indices `0, 1, ..., n - 1`.
pub open spec fn all_indices(n: nat) -> Seq<usize> {
    Seq::new(n, |i: int| i as usize)
}

/// The branch name that accepting a suggestion puts into the form.
pub open spec fn accepted_branch(suggestion: SuggestionView, style: InputStyle) -> Seq<char> {
    match suggestion {
        SuggestionView::Ticket(ticket) => ticket_slug(ticket),
        SuggestionView::LocalBranch(branch) => branch,
        SuggestionView::RemoteBranch { remote, branch, upstream } => match style {
            InputStyle::Verbatim => branch,
            InputStyle::Sanitized => dir_name(branch),
        },
    }
}

/// The upstream reference that accepting a suggestion records: that of a
/// remote branch, and none for any other.
pub open spec fn accepted_upstream(suggestion: SuggestionView) -> Option<Seq<char>> {
    match suggestion {
        SuggestionView::RemoteBranch { remote, branch, upstream } => Some(upstream),
        _ => None,
    }
}

impl AddView {
    /// The indices in `filtered` name suggestions, and the selection names an
    /// entry of `filtered` exactly when there is one.
    pub open spec fn wf(self) -> bool {
        &&& forall|i: int| 0 <= i < self.filtered.len() ==> self.filtered[i] < self.suggestions.len()
        &&& self.filtered.len() == 0 ==> self.selection is None
        &&& self.filtered.len() > 0 ==> self.selection is Some && self.selection->0
            < self.filtered.len()
    }

    /// The typed text without surrounding white space.
    pub open spec fn trimmed(self) -> Seq<char> {
        trim(self.branch)
    }

    /// The form with its suggestions built anew from its three lists.
    pub open spec fn rebuilt(self) -> AddView {
        AddView {
            suggestions: built_suggestions(self.tickets, self.local_branches, self.remote_branches),
            ..self
        }
    }

    /// The form with what follows from the typed text computed anew: whether
    /// the text names a local branch, which suggestions match it (all of
    /// them while nothing is typed), and a selection kept within those.
    pub open spec fn recomputed(self) -> AddView {
        let typed = self.trimmed();
        let filtered = if typed.len() == 0 {
            all_indices(self.suggestions.len())
        } else {
            matching(self.suggestions, lowercase(typed), self.suggestions.len() as int)
        };
        AddView {
            branch_exists: typed.len() > 0 && self.local_branches.contains(typed),
            filtered,
            selection: if filtered.len() == 0 {
                None
            } else {
                let wanted = match self.selection {
                    Some(index) => index,
                    None => 0,
                };
                Some(
                    if wanted <= filtered.len() - 1 {
                        wanted
                    } else {
                        (filtered.len() - 1) as usize
                    },
                )
            },
            ..self
        }
    }

    /// The suggestion under the selection, if the selection names one.
    pub open spec fn selected(self) -> Option<SuggestionView> {
        match self.selection {
            Some(index) => if index < self.filtered.len() && self.filtered[index as int]
                < self.suggestions.len() {
                Some(self.suggestions[self.filtered[index as int] as int])
            } else {
                None
            },
            None => None,
        }
    }

    /// The form after the selection moved up one entry, around the end.
    pub open spec fn moved_up(self) -> AddView {
        if self.filtered.len() == 0 {
            AddView { selection: None, ..self }
        } else {
            let current = match self.selection {
                Some(index) => index,
                None => 0,
            };
            AddView {
                selection: Some(
                    if current == 0 {
                        (self.filtered.len() - 1) as usize
                    } else {
                        (current - 1) as usize
                    },
                ),
                ..self
            }
        }
    }

    /// The form after the selection moved down one entry, around the end.
    pub open spec fn moved_down(self) -> AddView {
        if self.filtered.len() == 0 {
            AddView { selection: None, ..self }
        } else {
            let current = match self.selection {
                Some(index) => index,
                None => 0,
            };
            AddView {
                selection: Some(((current + 1) % (self.filtered.len() as int)) as usize),
                ..self
            }
        }
    }

    /// The form after accepting the selected suggestion; unchanged when
    /// nothing is selected.
    pub open spec fn accepted(self) -> AddView {
        match self.selected() {
            Some(suggestion) => (AddView {
                branch: accepted_branch(suggestion, self.style),
                branch_upstream: accepted_upstream(suggestion),
                show_overlay: false,
                ..self
            }).recomputed(),
            None => self,
        }
    }

    /// The form after the last typed character was deleted.
    pub open spec fn erased(self) -> AddView {
        (AddView {
            branch: if self.branch.len() > 0 {
                self.branch.drop_last()
            } else {
                self.branch
            },
            branch_upstream: None,
            ..self
        }).recomputed()
    }

    /// The form after `c` was typed.
    pub open spec fn typed(self, c: char) -> AddView {
        (AddView {
            branch: match self.style {
                InputStyle::Verbatim => self.branch.push(c),
                InputStyle::Sanitized => sanitized(self.branch.push(c)),
            },
            branch_upstream: None,
            ..self
        }).recomputed()
    }

    /// The form after the overlay was toggled: without a matching suggestion
    /// the overlay is switched off.
    pub open spec fn toggled(self) -> AddView {
        AddView { show_overlay: self.filtered.len() > 0 && !self.show_overlay, ..self }
    }

    /// The branch name to create or attach: the typed name if it names a
    /// local branch, else its directory-safe form.
    pub open spec fn normalized(self) -> Seq<char> {
        if self.branch_exists {
            self.trimmed()
        } else {
            dir_name(self.trimmed())
        }
    }
}

/// The form as it opens: nothing typed, the overlay shown, the suggestions
/// built from the three lists and all of them listed.
pub open spec fn opened(
    tickets: Seq<TicketView>,
    locals: Seq<Seq<char>>,
    remotes: Seq<Seq<char>>,
    style: InputStyle,
) -> AddView {
    (AddView {
        branch: seq![],
        tickets,
        local_branches: locals,
        remote_branches: remotes,
        suggestions: seq![],
        filtered: seq![],
        selection: None,
        show_overlay: true,
        branch_exists: false,
        branch_upstream: None,
        style,
    }).rebuilt().recomputed()
}

/// Pushing a suggestion adds its value to the values.
pub proof fn lemma_suggestions_push(list: Seq<Suggestion>, suggestion: Suggestion)
    ensures
        suggestion_views(list.push(suggestion)) == suggestion_views(list).push(suggestion@),
{
    assert(suggestion_views(list.push(suggestion)) =~= suggestion_views(list).push(suggestion@));
}

/// A text is listed exactly when the list's texts contain it.
pub proof fn lemma_lists_contains(list: Seq<String>, text: Seq<char>)
    ensures
        lists(list, text) == texts(list).contains(text),
{
    if lists(list, text) {
        let i = choose|i: int| 0 <= i < list.len() && #[trigger] list[i]@ == text;
        assert(texts(list)[i] == text);
    }
    if texts(list).contains(text) {
        let i = choose|i: int| 0 <= i < texts(list).len() && texts(list)[i] == text;
        assert(list[i]@ == text);
    }
}

/// Builds the suggestions from the three lists.
pub fn build_suggestions(
    tickets: &Vec<JiraTicket>,
    locals: &Vec<String>,
    remotes: &Vec<String>,
) -> (out: Vec<Suggestion>)
    ensures
        suggestion_views(out@) == built_suggestions(
            ticket_views(tickets@),
            texts(locals@),
            texts(remotes@),
        ),
{
    let mut out: Vec<Suggestion> = Vec::new();
    let ghost first = Seq::new(
        tickets@.len(),
        |i: int| SuggestionView::Ticket(ticket_views(tickets@)[i]),
    );
    let ghost second = Seq::new(
        locals@.len(),
        |i: int| SuggestionView::LocalBranch(texts(locals@)[i]),
    );
    let mut i: usize = 0;
    while i < tickets.len()
        invariant
            i <= tickets.len(),
            suggestion_views(out@) == first.take(i as int),
            first.len() == tickets.len(),
            forall|j: int| 0 <= j < first.len() ==> first[j] == SuggestionView::Ticket(tickets@[j]@),
        decreases tickets.len() - i,
    {
        let item = Suggestion::Ticket(tickets[i].duplicate());
        proof {
            lemma_suggestions_push(out@, item);
            assert(first.take(i + 1) =~= first.take(i as int).push(first[i as int]));
        }
        out.push(item);
        i += 1;
    }
    assert(first.take(tickets.len() as int) == first);
    let mut i: usize = 0;
    while i < locals.len()
        invariant
            i <= locals.len(),
            suggestion_views(out@) == first + second.take(i as int),
            second.len() == locals.len(),
            forall|j: int|
                0 <= j < second.len() ==> second[j] == SuggestionView::LocalBranch(locals@[j]@),
        decreases locals.len() - i,
    {
        let item = Suggestion::LocalBranch(locals[i].clone());
        proof {
            lemma_suggestions_push(out@, item);
            assert(second.take(i + 1) =~= second.take(i as int).push(second[i as int]));
            assert((first + second.take(i as int)).push(second[i as int]) =~= first + second.take(
                i + 1,
            ));
        }
        out.push(item);
        i += 1;
    }
    assert(second.take(locals.len() as int) == second);
    let mut i: usize = 0;
    while i < remotes.len()
        invariant
            i <= remotes.len(),
            suggestion_views(out@) == first + second + remote_suggestions(texts(remotes@), i as int),
        decreases remotes.len() - i,
    {
        let reference = &remotes[i];
        assert(texts(remotes@)[i as int] == reference@);
        match split_remote_branch(reference.as_str()) {
            Some((remote, branch)) => {
                let item = Suggestion::RemoteBranch { remote, branch, upstream: reference.clone() };
                proof {
                    lemma_suggestions_push(out@, item);
                    assert((first + second + remote_suggestions(texts(remotes@), i as int)).push(
                        item@,
                    ) =~= first + second + remote_suggestions(texts(remotes@), i as int).push(
                        item@,
                    ));
                }
                out.push(item);
            },
            None => {},
        }
        i += 1;
    }
    out
}

impl AddWorktreeState {
    /// The form as it opens with the given lists.
    pub fn from_lists(
        tickets: Vec<JiraTicket>,
        local_branches: Vec<String>,
        remote_branches: Vec<String>,
        style: InputStyle,
    ) -> (state: Self)
        ensures
            state@ == opened(
                ticket_views(tickets@),
                texts(local_branches@),
                texts(remote_branches@),
                style,
            ),
    {
        let mut state = AddWorktreeState {
            branch: String::new(),
            tickets,
            local_branches,
            remote_branches,
            suggestions: Vec::new(),
            filtered: Vec::new(),
            selection: None,
            show_overlay: true,
            branch_exists: false,
            branch_upstream: None,
            style,
        };
        assert(state@.suggestions =~= Seq::<SuggestionView>::empty());
        assert(state@.branch =~= Seq::<char>::empty());
        state.rebuild_suggestions();
        state.recompute_filters();
        state
    }

    /// Replaces the three lists by freshly loaded ones and shows the overlay.
    /// Returns the number of tickets.
    pub fn refresh_data(
        &mut self,
        tickets: Vec<JiraTicket>,
        local_branches: Vec<String>,
        remote_branches: Vec<String>,
    ) -> (count: usize)
        ensures
            count == tickets.len(),
            final(self)@ == (AddView {
                tickets: ticket_views(tickets@),
                local_branches: texts(local_branches@),
                remote_branches: texts(remote_branches@),
                show_overlay: true,
                ..old(self)@
            }).rebuilt().recomputed(),
    {
        self.tickets = tickets;
        self.local_branches = local_branches;
        self.remote_branches = remote_branches;
        self.show_overlay = true;
        self.rebuild_suggestions();
        self.recompute_filters();
        self.tickets.len()
    }

    /// Forgets the tickets, after the ticket cache was cleared: their
    /// suggestions go, nothing is selected and the overlay is hidden.
    pub fn clear_cache(&mut self)
        ensures
            final(self)@ == (AddView {
                selection: None,
                show_overlay: false,
                ..(AddView { tickets: seq![], ..old(self)@ }).rebuilt()
            }).recomputed(),
    {
        self.tickets = Vec::new();
        assert(ticket_views(self.tickets@) =~= Seq::<TicketView>::empty());
        self.rebuild_suggestions();
        self.selection = None;
        self.show_overlay = false;
        self.recompute_filters();
    }

    /// The typed text without surrounding white space.
    pub fn branch_trimmed(&self) -> (text: String)
        ensures
            text@ == self@.trimmed(),
    {
        trimmed(self.branch.as_str())
    }

    /// The typed text as shown: a placeholder while nothing is typed.
    pub fn branch_display(&self) -> (text: String)
        ensures
            text@ == if self@.branch.len() == 0 {
                "<branch>"@
            } else {
                self@.trimmed()
            },
    {
        let chars = chars_of(self.branch.as_str());
        if chars.len() == 0 {
            "<branch>".to_owned()
        } else {
            self.branch_trimmed()
        }
    }

    /// Whether the typed text names a local branch.
    pub fn branch_exists(&self) -> (exists: bool)
        ensures
            exists == self@.branch_exists,
    {
        self.branch_exists
    }

    /// The branch name to create or attach.
    pub fn normalized_branch(&self) -> (name: String)
        ensures
            name@ == self@.normalized(),
    {
        let typed = self.branch_trimmed();
        if self.branch_exists {
            typed
        } else {
            branch_dir_name(typed.as_str())
        }
    }

    /// The directory name for the typed branch.
    pub fn workspace_dir_name(&self) -> (name: String)
        ensures
            name@ == dir_name(self@.trimmed()),
    {
        let typed = self.branch_trimmed();
        branch_dir_name(typed.as_str())
    }

    /// The path at which the worktree would be made: the first free path
    /// for the typed branch's directory name under `workspace_root`.
    pub fn target_preview(&self, workspace_root: &str, existing: &Vec<String>) -> (path: String)
        ensures
            is_first_free(workspace_root@, dir_name(self@.trimmed()), existing@, path@),
    {
        let name = self.workspace_dir_name();
        next_available_workspace_path(workspace_root, name.as_str(), existing)
    }

    /// Whether the overlay with the suggestions is shown.
    pub fn overlay_visible(&self) -> (visible: bool)
        ensures
            visible == (self@.show_overlay && self@.filtered.len() > 0),
    {
        self.show_overlay && self.filtered.len() > 0
    }

    /// The index of the selection among the matching suggestions.
    pub fn selected_filtered_index(&self) -> (index: Option<usize>)
        ensures
            index == self@.selection,
    {
        self.selection
    }

    /// The upstream reference recorded for the branch, if any.
    pub fn branch_upstream(&self) -> (upstream: Option<&str>)
        ensures
            upstream is Some == self@.branch_upstream is Some,
            upstream is Some ==> upstream->0@ == self@.branch_upstream->0,
    {
        match &self.branch_upstream {
            Some(reference) => Some(reference.as_str()),
            None => None,
        }
    }

    /// Moves the selection up one entry, around the end.
    pub fn move_selection_up(&mut self)
        ensures
            final(self)@ == old(self)@.moved_up(),
    {
        if self.filtered.len() == 0 {
            self.selection = None;
            return ;
        }
        let len = self.filtered.len();
        let current = match self.selection {
            Some(index) => index,
            None => 0,
        };
        let next = if current == 0 {
            len - 1
        } else {
            current - 1
        };
        self.selection = Some(next);
    }

    /// Moves the selection down one entry, around the end.
    pub fn move_selection_down(&mut self)
        ensures
            final(self)@ == old(self)@.moved_down(),
    {
        if self.filtered.len() == 0 {
            self.selection = None;
            return ;
        }
        let len = self.filtered.len();
        let current = match self.selection {
            Some(index) => index,
            None => 0,
        };
        self.selection = Some(crate::workspace::next_index(current, len));
    }

    /// The suggestion under the selection, if the selection names one.
    pub fn selected_suggestion(&self) -> (suggestion: Option<&Suggestion>)
        ensures
            suggestion is Some == self@.selected() is Some,
            suggestion is Some ==> suggestion->0@ == self@.selected()->0,
    {
        match self.selection {
            Some(index) => {
                if index < self.filtered.len() {
                    let at = self.filtered[index];
                    if at < self.suggestions.len() {
                        return Some(&self.suggestions[at]);
                    }
                }
                None
            },
            None => None,
        }
    }

    /// Takes the selected suggestion as the branch name and hides the
    /// overlay. A remote branch also records its upstream reference; any
    /// other suggestion clears it. Returns `false`, and changes nothing, when
    /// nothing is selected.
    pub fn accept_selection(&mut self) -> (accepted: bool)
        ensures
            accepted == old(self)@.selected() is Some,
            final(self)@ == old(self)@.accepted(),
    {
        let (branch, upstream) = match self.selected_suggestion() {
            Some(suggestion) => match suggestion {
                Suggestion::Ticket(ticket) => (ticket.slug(), None),
                Suggestion::LocalBranch(branch) => (branch.clone(), None),
                Suggestion::RemoteBranch { remote, branch, upstream } => match self.style {
                    InputStyle::Verbatim => (branch.clone(), Some(upstream.clone())),
                    InputStyle::Sanitized => (
                        branch_dir_name(branch.as_str()),
                        Some(upstream.clone()),
                    ),
                },
            },
            None => {
                return false;
            },
        };
        self.branch = branch;
        self.branch_upstream = upstream;
        self.show_overlay = false;
        self.recompute_filters();
        true
    }

    /// Deletes the last typed character and forgets the upstream reference.
    pub fn backspace(&mut self)
        ensures
            final(self)@ == old(self)@.erased(),
    {
        self.branch_upstream = None;
        let chars = chars_of(self.branch.as_str());
        if chars.len() > 0 {
            self.branch = string_of_range(&chars, 0, chars.len() - 1);
        }
        self.recompute_filters();
    }

    /// Types `c` and forgets the upstream reference.
    pub fn push_char(&mut self, c: char)
        ensures
            final(self)@ == old(self)@.typed(c),
    {
        self.branch_upstream = None;
        let mut chars = chars_of(self.branch.as_str());
        chars.push(c);
        let text = string_of(&chars);
        self.branch = match self.style {
            InputStyle::Verbatim => text,
            InputStyle::Sanitized => sanitize_branch_input(text.as_str()),
        };
        self.recompute_filters();
    }

    /// Shows or hides the overlay; without a matching suggestion it is
    /// hidden.
    pub fn toggle_overlay(&mut self)
        ensures
            final(self)@ == old(self)@.toggled(),
    {
        if self.filtered.len() == 0 {
            self.show_overlay = false;
        } else {
            self.show_overlay = !self.show_overlay;
        }
    }

    /// Builds the suggestions anew from the three lists.
    pub fn rebuild_suggestions(&mut self)
        ensures
            final(self)@ == old(self)@.rebuilt(),
    {
        self.suggestions = build_suggestions(
            &self.tickets,
            &self.local_branches,
            &self.remote_branches,
        );
    }

    /// Computes anew what follows from the typed text: see
    /// [`AddView::recomputed`].
    pub fn recompute_filters(&mut self)
        ensures
            final(self)@ == old(self)@.recomputed(),
            final(self)@.wf(),
    {
        let typed = trimmed(self.branch.as_str());
        let typed_chars = chars_of(typed.as_str());
        proof {
            lemma_lists_contains(self.local_branches@, typed@);
        }
        self.branch_exists = typed_chars.len() > 0 && list_contains(
            &self.local_branches,
            typed.as_str(),
        );
        let n = self.suggestions.len();
        let mut filtered: Vec<usize> = Vec::new();
        if typed_chars.len() == 0 {
            let mut i: usize = 0;
            while i < n
                invariant
                    i <= n,
                    filtered@ == all_indices(n as nat).take(i as int),
                decreases n - i,
            {
                filtered.push(i);
                assert(all_indices(n as nat).take(i + 1) =~= all_indices(n as nat).take(
                    i as int,
                ).push(i));
                i += 1;
            }
            assert(all_indices(n as nat).take(n as int) == all_indices(n as nat));
        } else {
            let query = to_lowercase(typed.as_str());
            let mut i: usize = 0;
            while i < n
                invariant
                    i <= n == self.suggestions.len(),
                    filtered@ == matching(suggestion_views(self.suggestions@), query@, i as int),
                    forall|j: int| 0 <= j < filtered.len() ==> filtered@[j] < n,
                decreases n - i,
            {
                if self.suggestions[i].matches(query.as_str()) {
                    filtered.push(i);
                }
                i += 1;
            }
        }
        self.filtered = filtered;
        if self.filtered.len() == 0 {
            self.selection = None;
        } else {
            let wanted = match self.selection {
                Some(index) => index,
                None => 0,
            };
            let last = self.filtered.len() - 1;
            self.selection = Some(
                if wanted <= last {
                    wanted
                } else {
                    last
                },
            );
        }
    }
}

/// A form whose dependent fields were just computed is well formed, whatever
/// it held before.
pub proof fn lemma_recomputed_wf(form: AddView)
    ensures
        form.recomputed().wf(),
        form.recomputed().recomputed() == form.recomputed(),
{
    let typed = form.trimmed();
    if typed.len() != 0 {
        lemma_matching_in_range(form.suggestions, lowercase(typed), form.suggestions.len() as int);
    }
}

/// Matching indices are below the bound they were searched under.
pub proof fn lemma_matching_in_range(suggestions: Seq<SuggestionView>, query: Seq<char>, n: int)
    requires
        n <= suggestions.len(),
    ensures
        forall|i: int|
            0 <= i < matching(suggestions, query, n).len() ==> 0 <= #[trigger] matching(
                suggestions,
                query,
                n,
            )[i] < n,
        matching(suggestions, query, n).len() <= if n < 0 {
            0
        } else {
            n
        },
    decreases n,
{
    if n > 0 {
        lemma_matching_in_range(suggestions, query, n - 1);
    }
}

/// The tickets that were loaded, or none if loading failed.
pub open spec fn loaded_tickets(loaded: Result<Vec<JiraTicket>, String>) -> Seq<TicketView> {
    match loaded {
        Ok(tickets) => ticket_views(tickets@),
        Err(_) => seq![],
    }
}

/// The names that were loaded, or none if loading failed.
pub open spec fn loaded_names(loaded: Result<Vec<String>, String>) -> Seq<Seq<char>> {
    match loaded {
        Ok(names) => texts(names@),
        Err(_) => seq![],
    }
}

/// The warnings for what failed to load, in the order tickets, local
/// branches, remote branches.
pub open spec fn load_warnings(
    tickets: Result<Vec<JiraTicket>, String>,
    locals: Result<Vec<String>, String>,
    remotes: Result<Vec<String>, String>,
) -> Seq<Seq<char>> {
    (match tickets {
        Ok(_) => seq![],
        Err(error) => seq!["Failed to load Jira cache: "@ + error@],
    }) + (match locals {
        Ok(_) => seq![],
        Err(error) => seq!["Failed to list git branches: "@ + error@],
    }) + (match remotes {
        Ok(_) => seq![],
        Err(error) => seq!["Failed to list remote branches: "@ + error@],
    })
}

/// The one warning shown for what failed to load, if anything did.
pub open spec fn load_warning(
    tickets: Result<Vec<JiraTicket>, String>,
    locals: Result<Vec<String>, String>,
    remotes: Result<Vec<String>, String>,
) -> Option<Seq<char>> {
    let warnings = load_warnings(tickets, locals, remotes);
    if warnings.len() == 0 {
        None
    } else {
        Some(joined_texts(warnings, " | "@))
    }
}

impl AddWorktreeState {
    /// Opens the form with what could be loaded. A list that failed to load
    /// is taken as empty and named in the warning that is returned with the
    /// form; the warnings are joined by ` | `.
    pub fn new(
        tickets: Result<Vec<JiraTicket>, String>,
        locals: Result<Vec<String>, String>,
        remotes: Result<Vec<String>, String>,
    ) -> (out: (Self, Option<String>))
        ensures
            out.0@ == opened(
                loaded_tickets(tickets),
                loaded_names(locals),
                loaded_names(remotes),
                InputStyle::Sanitized,
            ),
            opt_text(out.1) == load_warning(tickets, locals, remotes),
    {
        let mut warnings: Vec<String> = Vec::new();
        assert(texts(warnings@) =~= Seq::<Seq<char>>::empty());
        let ticket_list = match tickets {
            Ok(list) => list,
            Err(error) => {
                let message = concat2("Failed to load Jira cache: ", error.as_str());
                proof {
                    lemma_texts_push(warnings@, message);
                }
                warnings.push(message);
                let empty: Vec<JiraTicket> = Vec::new();
                assert(ticket_views(empty@) =~= Seq::<TicketView>::empty());
                empty
            },
        };
        let local_list = match locals {
            Ok(list) => list,
            Err(error) => {
                let message = concat2("Failed to list git branches: ", error.as_str());
                proof {
                    lemma_texts_push(warnings@, message);
                }
                warnings.push(message);
                let empty: Vec<String> = Vec::new();
                assert(texts(empty@) =~= Seq::<Seq<char>>::empty());
                empty
            },
        };
        let remote_list = match remotes {
            Ok(list) => list,
            Err(error) => {
                let message = concat2("Failed to list remote branches: ", error.as_str());
                proof {
                    lemma_texts_push(warnings@, message);
                }
                warnings.push(message);
                let empty: Vec<String> = Vec::new();
                assert(texts(empty@) =~= Seq::<Seq<char>>::empty());
                empty
            },
        };
        assert(texts(warnings@) =~= load_warnings(tickets, locals, remotes));
        let state = AddWorktreeState::from_lists(
            ticket_list,
            local_list,
            remote_list,
            InputStyle::Sanitized,
        );
        let warning = if warnings.len() == 0 {
            None
        } else {
            Some(join_strings(&warnings, " | "))
        };
        (state, warning)
    }
}

/// The status line of the form, for a target path `target`: the branch as
/// shown, the path, whether the branch exists or is still missing, the
/// upstream reference if one is recorded, and the keys.
pub open spec fn form_status(form: AddView, target: Seq<char>) -> Seq<char> {
    "[ADD] Branch: "@ + (if form.branch.len() == 0 {
        "<branch>"@
    } else {
        form.trimmed()
    }) + " \u{21d2} "@ + target + (if form.branch_exists {
        " \u{2022} existing branch"@
    } else if form.trimmed().len() == 0 {
        " \u{2022} enter a branch name"@
    } else {
        seq![]
    }) + (match form.branch_upstream {
        Some(upstream) => " \u{2022} upstream: "@ + upstream,
        None => seq![],
    }) + " \u{2022} Enter: confirm \u{2022} Esc: cancel \u{2022} Tab: insert suggestion"@
}

impl AddWorktreeState {
    /// The status line of the form. The path shown is the first free path
    /// for the typed branch under `workspace_root`.
    pub fn status_line(&self, workspace_root: &str, existing: &Vec<String>) -> (line: String)
        ensures
            exists|target: Seq<char>|
                is_first_free(workspace_root@, dir_name(self@.trimmed()), existing@, target)
                    && line@ == #[trigger] form_status(self@, target),
    {
        let target = self.target_preview(workspace_root, existing);
        let mut out: Vec<char> = Vec::new();
        crate::text::push_str(&mut out, "[ADD] Branch: ");
        let shown = self.branch_display();
        crate::text::push_str(&mut out, shown.as_str());
        crate::text::push_str(&mut out, " \u{21d2} ");
        crate::text::push_str(&mut out, target.as_str());
        let typed = self.branch_trimmed();
        if self.branch_exists {
            crate::text::push_str(&mut out, " \u{2022} existing branch");
        } else if chars_of(typed.as_str()).len() == 0 {
            crate::text::push_str(&mut out, " \u{2022} enter a branch name");
        }
        match &self.branch_upstream {
            Some(upstream) => {
                crate::text::push_str(&mut out, " \u{2022} upstream: ");
                crate::text::push_str(&mut out, upstream.as_str());
            },
            None => {},
        }
        crate::text::push_str(
            &mut out,
            " \u{2022} Enter: confirm \u{2022} Esc: cancel \u{2022} Tab: insert suggestion",
        );
        assert(out@ =~= form_status(self@, target@));
        string_of(&out)
    }
}

} // verus!
