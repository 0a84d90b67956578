//! Suggestions for shell completion: branch names from tickets, local
//! branches and remote branches.

use vstd::prelude::*;
use crate::add_worktree::{remote_parts, split_remote_branch};
use crate::jira::{ticket_slug, ticket_views, JiraTicket, TicketView};
use crate::paths::{branch_dir_name, dir_name};
use crate::text::{
    concat2, concat3, contains, copy_opt, lowercase, opt_text, push_str,
    same_text, string_of, text_contains, texts, to_lowercase,
};

verus! {

/// One suggestion for the shell.
#[derive(Debug, Clone)]
pub struct CompletionSuggestion {
    pub value: String,
    pub description: Option<String>,
    pub upstream: Option<String>,
    pub source: Option<String>,
}

/// What suggestions are asked for.
#[derive(Copy, Clone, Debug)]
pub enum SuggestionDomain {
    Branches,
}

/// The shells a completion script exists for.
#[derive(Copy, Clone, Debug)]
pub enum CompletionShell {
    Bash,
    Zsh,
}

/// The shells suggestions can be formatted for.
#[derive(Copy, Clone, Debug)]
pub enum SuggestionShellFormat {
    Bash,
    Zsh,
}

/// The mathematical value of a suggestion.
pub struct CompletionView {
    pub value: Seq<char>,
    pub description: Option<Seq<char>>,
    pub upstream: Option<Seq<char>>,
    pub source: Option<Seq<char>>,
}

impl View for CompletionSuggestion {
    type V = CompletionView;

    open spec fn view(&self) -> CompletionView {
        CompletionView {
            value: self.value@,
            description: opt_text(self.description),
            upstream: opt_text(self.upstream),
            source: opt_text(self.source),
        }
    }
}

/// The values of a list of suggestions.
pub open spec fn completion_views(list: Seq<CompletionSuggestion>) -> Seq<CompletionView> {
    Seq::new(list.len(), |i: int| list[i]@)
}

/// Pushing a suggestion adds its value to the values.
pub proof fn lemma_completions_push(list: Seq<CompletionSuggestion>, item: CompletionSuggestion)
    ensures
        completion_views(list.push(item)) == completion_views(list).push(item@),
{
    assert(completion_views(list.push(item)) =~= completion_views(list).push(item@));
}

/// Whether a suggestion with the value `value` is in the list.
pub open spec fn suggested(list: Seq<CompletionView>, value: Seq<char>) -> bool {
    exists|i: int| 0 <= i < list.len() && (#[trigger] list[i]).value == value
}

/// The list with `item` added, unless its value is suggested already.
pub open spec fn with_unique(list: Seq<CompletionView>, item: CompletionView) -> Seq<
    CompletionView,
> {
    if suggested(list, item.value) {
        list
    } else {
        list.push(item)
    }
}

/// The suggestion for a ticket.
pub open spec fn ticket_completion(ticket: TicketView) -> CompletionView {
    CompletionView {
        value: ticket_slug(ticket),
        description: Some(ticket.key + seq![' '] + ticket.summary),
        upstream: None,
        source: Some("ticket"@),
    }
}

/// The suggestion for a local branch.
pub open spec fn local_completion(branch: Seq<char>) -> CompletionView {
    CompletionView {
        value: branch,
        description: Some("local branch"@),
        upstream: None,
        source: Some("local"@),
    }
}

/// The suggestion for a remote reference that names the branch `branch` of
/// the remote `remote`. The value is the directory name of the branch; the
/// description tells when that differs from the branch.
pub open spec fn remote_completion(reference: Seq<char>, remote: Seq<char>, branch: Seq<char>) -> CompletionView {
    CompletionView {
        value: dir_name(branch),
        description: Some(
            if dir_name(branch) == branch {
                "remote branch "@ + reference
            } else {
                "remote branch "@ + reference + " \u{21d2} "@ + dir_name(branch)
            },
        ),
        upstream: Some(reference),
        source: Some("remote:"@ + remote),
    }
}

/// The list after the first `n` tickets were added.
pub open spec fn with_tickets(list: Seq<CompletionView>, tickets: Seq<TicketView>, n: int) -> Seq<
    CompletionView,
>
    decreases n,
{
    if n <= 0 {
        list
    } else {
        with_unique(with_tickets(list, tickets, n - 1), ticket_completion(tickets[n - 1]))
    }
}

/// The list after the first `n` local branches were added.
pub open spec fn with_locals(list: Seq<CompletionView>, locals: Seq<Seq<char>>, n: int) -> Seq<
    CompletionView,
>
    decreases n,
{
    if n <= 0 {
        list
    } else {
        with_unique(with_locals(list, locals, n - 1), local_completion(locals[n - 1]))
    }
}

/// The list after the first `n` remote references were added; a reference
/// without a branch part adds nothing.
pub open spec fn with_remotes(list: Seq<CompletionView>, remotes: Seq<Seq<char>>, n: int) -> Seq<
    CompletionView,
>
    decreases n,
{
    if n <= 0 {
        list
    } else {
        let before = with_remotes(list, remotes, n - 1);
        match remote_parts(remotes[n - 1]) {
            Some((remote, branch)) => with_unique(
                before,
                remote_completion(remotes[n - 1], remote, branch),
            ),
            None => before,
        }
    }
}

/// The branch suggestions from the three lists: tickets first, then local
/// branches, then remote branches; a value is suggested once, by the first
/// that gives it.
pub open spec fn branch_completions(
    tickets: Seq<TicketView>,
    locals: Seq<Seq<char>>,
    remotes: Seq<Seq<char>>,
) -> Seq<CompletionView> {
    with_remotes(
        with_locals(
            with_tickets(seq![], tickets, tickets.len() as int),
            locals,
            locals.len() as int,
        ),
        remotes,
        remotes.len() as int,
    )
}

/// Whether a suggestion matches a query: its value, its description or its
/// upstream reference contains the query, all taken in lower case.
pub open spec fn completion_matches(item: CompletionView, query: Seq<char>) -> bool {
    let needle = lowercase(query);
    contains(lowercase(item.value), needle) || (match item.description {
        Some(text) => contains(lowercase(text), needle),
        None => false,
    }) || (match item.upstream {
        Some(text) => contains(lowercase(text), needle),
        None => false,
    })
}

/// The suggestions among the first `n` that a query keeps, in order;
/// without a query all of them.
pub open spec fn kept(list: Seq<CompletionView>, query: Option<Seq<char>>, n: int) -> Seq<
    CompletionView,
>
    decreases n,
{
    if n <= 0 {
        seq![]
    } else {
        let before = kept(list, query, n - 1);
        match query {
            Some(text) => if completion_matches(list[n - 1], text) {
                before.push(list[n - 1])
            } else {
                before
            },
            None => before.push(list[n - 1]),
        }
    }
}

/// The line for a suggestion: its value and, where the shell shows one, its
/// description after a tab (bash) or a colon (zsh).
pub open spec fn completion_line(item: CompletionView, shell: Option<SuggestionShellFormat>) -> Seq<
    char,
> {
    match (shell, item.description) {
        (Some(SuggestionShellFormat::Bash), Some(text)) => item.value + seq!['\t'] + text,
        (Some(SuggestionShellFormat::Zsh), Some(text)) => item.value + seq![':'] + text,
        _ => item.value,
    }
}

/// The lines for the suggestions that a query keeps.
pub open spec fn completion_lines(
    list: Seq<CompletionView>,
    query: Option<Seq<char>>,
    shell: Option<SuggestionShellFormat>,
) -> Seq<Seq<char>> {
    let chosen = kept(list, query, list.len() as int);
    Seq::new(chosen.len(), |i: int| completion_line(chosen[i], shell))
}

impl CompletionSuggestion {
    /// A copy of the suggestion.
    pub fn duplicate(&self) -> (copy: Self)
        ensures
            copy@ == self@,
    {
        CompletionSuggestion {
            value: self.value.clone(),
            description: copy_opt(&self.description),
            upstream: copy_opt(&self.upstream),
            source: copy_opt(&self.source),
        }
    }
}

/// Adds `item` to the list unless its value is suggested already.
fn push_unique(list: &mut Vec<CompletionSuggestion>, item: CompletionSuggestion)
    ensures
        completion_views(final(list)@) == with_unique(completion_views(old(list)@), item@),
{
    let mut i: usize = 0;
    while i < list.len()
        invariant
            i <= list.len(),
            list == old(list),
            forall|j: int| 0 <= j < i ==> (#[trigger] completion_views(list@)[j]).value != item@.value,
        decreases list.len() - i,
    {
        assert(completion_views(list@)[i as int] == list@[i as int]@);
        if same_text(list[i].value.as_str(), item.value.as_str()) {
            return ;
        }
        i += 1;
    }
    proof {
        lemma_completions_push(list@, item);
    }
    list.push(item);
}

/// The suggestion for a remote reference.
fn remote_suggestion(reference: &str, remote: &str, branch: &str) -> (item: CompletionSuggestion)
    ensures
        item@ == remote_completion(reference@, remote@, branch@),
{
    let value = branch_dir_name(branch);
    let description = if same_text(value.as_str(), branch) {
        concat2("remote branch ", reference)
    } else {
        let head = concat3("remote branch ", reference, " \u{21d2} ");
        concat2(head.as_str(), value.as_str())
    };
    CompletionSuggestion {
        value,
        description: Some(description),
        upstream: Some(reference.to_owned()),
        source: Some(concat2("remote:", remote)),
    }
}

/// The branch suggestions from what could be loaded: a list that failed to
/// load gives none.
pub fn branch_suggestions(
    tickets: &Vec<JiraTicket>,
    locals: &Vec<String>,
    remotes: &Vec<String>,
) -> (out: Vec<CompletionSuggestion>)
    ensures
        completion_views(out@) == branch_completions(
            ticket_views(tickets@),
            texts(locals@),
            texts(remotes@),
        ),
{
    let mut out: Vec<CompletionSuggestion> = Vec::new();
    assert(completion_views(out@) =~= Seq::<CompletionView>::empty());
    let mut i: usize = 0;
    while i < tickets.len()
        invariant
            i <= tickets.len(),
            completion_views(out@) == with_tickets(seq![], ticket_views(tickets@), i as int),
        decreases tickets.len() - i,
    {
        let ticket = &tickets[i];
        assert(ticket_views(tickets@)[i as int] == ticket@);
        let item = CompletionSuggestion {
            value: ticket.slug(),
            description: Some(concat3(ticket.key.as_str(), " ", ticket.summary.as_str())),
            upstream: None,
            source: Some("ticket".to_owned()),
        };
        proof {
            reveal_strlit(" ");
            assert(" "@ =~= seq![' ']);
        }
        push_unique(&mut out, item);
        i += 1;
    }
    let ghost first = completion_views(out@);
    let mut i: usize = 0;
    while i < locals.len()
        invariant
            i <= locals.len(),
            completion_views(out@) == with_locals(first, texts(locals@), i as int),
        decreases locals.len() - i,
    {
        let branch = &locals[i];
        assert(texts(locals@)[i as int] == branch@);
        let item = CompletionSuggestion {
            value: branch.clone(),
            description: Some("local branch".to_owned()),
            upstream: None,
            source: Some("local".to_owned()),
        };
        push_unique(&mut out, item);
        i += 1;
    }
    let ghost second = completion_views(out@);
    let mut i: usize = 0;
    while i < remotes.len()
        invariant
            i <= remotes.len(),
            completion_views(out@) == with_remotes(second, texts(remotes@), i as int),
        decreases remotes.len() - i,
    {
        let reference = &remotes[i];
        assert(texts(remotes@)[i as int] == reference@);
        match split_remote_branch(reference.as_str()) {
            Some((remote, branch)) => {
                let item = remote_suggestion(reference.as_str(), remote.as_str(), branch.as_str());
                push_unique(&mut out, item);
            },
            None => {},
        }
        i += 1;
    }
    out
}

/// The suggestions of a domain.
pub fn collect_suggestions(
    domain: SuggestionDomain,
    tickets: &Vec<JiraTicket>,
    locals: &Vec<String>,
    remotes: &Vec<String>,
) -> (out: Vec<CompletionSuggestion>)
    ensures
        completion_views(out@) == branch_completions(
            ticket_views(tickets@),
            texts(locals@),
            texts(remotes@),
        ),
{
    match domain {
        SuggestionDomain::Branches => branch_suggestions(tickets, locals, remotes),
    }
}

/// Whether a text, in lower case, contains `needle`.
fn lower_contains(text: &str, needle: &str) -> (found: bool)
    ensures
        found == contains(lowercase(text@), needle@),
{
    let lower = to_lowercase(text);
    text_contains(lower.as_str(), needle)
}

/// Whether an optional text, in lower case, contains `needle`.
fn lower_contains_opt(text: &Option<String>, needle: &str) -> (found: bool)
    ensures
        found == match opt_text(*text) {
            Some(value) => contains(lowercase(value), needle@),
            None => false,
        },
{
    match text {
        Some(value) => lower_contains(value.as_str(), needle),
        None => false,
    }
}

/// The suggestions that a query keeps, in order; without a query all of
/// them.
pub fn filter_suggestions(suggestions: &Vec<CompletionSuggestion>, query: Option<&str>) -> (out:
    Vec<CompletionSuggestion>)
    ensures
        completion_views(out@) == kept(
            completion_views(suggestions@),
            match query {
                Some(text) => Some(text@),
                None => None,
            },
            suggestions.len() as int,
        ),
{
    let ghost asked: Option<Seq<char>> = match query {
        Some(text) => Some(text@),
        None => None,
    };
    let needle = match query {
        Some(text) => Some(to_lowercase(text)),
        None => None,
    };
    let mut out: Vec<CompletionSuggestion> = Vec::new();
    assert(completion_views(out@) =~= Seq::<CompletionView>::empty());
    let mut i: usize = 0;
    while i < suggestions.len()
        invariant
            i <= suggestions.len(),
            asked == match query {
                Some(text) => Some(text@),
                None => None,
            },
            needle is Some == query is Some,
            needle is Some ==> needle->0@ == lowercase(query->0@),
            completion_views(out@) == kept(completion_views(suggestions@), asked, i as int),
        decreases suggestions.len() - i,
    {
        let item = &suggestions[i];
        assert(completion_views(suggestions@)[i as int] == item@);
        let keep = match &needle {
            Some(text) => lower_contains(item.value.as_str(), text.as_str()) || lower_contains_opt(
                &item.description,
                text.as_str(),
            ) || lower_contains_opt(&item.upstream, text.as_str()),
            None => true,
        };
        if keep {
            let copy = item.duplicate();
            proof {
                lemma_completions_push(out@, copy);
            }
            out.push(copy);
        }
        i += 1;
    }
    out
}

/// The line for bash: the value and, after a tab, the description.
pub fn format_for_bash(suggestion: &CompletionSuggestion) -> (line: String)
    ensures
        line@ == completion_line(suggestion@, Some(SuggestionShellFormat::Bash)),
{
    match &suggestion.description {
        Some(text) => {
            let mut out: Vec<char> = Vec::new();
            push_str(&mut out, suggestion.value.as_str());
            out.push('\t');
            push_str(&mut out, text.as_str());
            assert(out@ =~= suggestion@.value + seq!['\t'] + text@);
            string_of(&out)
        },
        None => suggestion.value.clone(),
    }
}

/// The line for zsh: the value and, after a colon, the description.
pub fn format_for_zsh(suggestion: &CompletionSuggestion) -> (line: String)
    ensures
        line@ == completion_line(suggestion@, Some(SuggestionShellFormat::Zsh)),
{
    match &suggestion.description {
        Some(text) => {
            let mut out: Vec<char> = Vec::new();
            push_str(&mut out, suggestion.value.as_str());
            out.push(':');
            push_str(&mut out, text.as_str());
            assert(out@ =~= suggestion@.value + seq![':'] + text@);
            string_of(&out)
        },
        None => suggestion.value.clone(),
    }
}

/// The lines to print for the suggestions that the query keeps, formatted
/// for the shell; without a shell each line is the value alone.
pub fn format_suggestions(
    suggestions: &Vec<CompletionSuggestion>,
    query: Option<&str>,
    shell: Option<SuggestionShellFormat>,
) -> (out: Vec<String>)
    ensures
        texts(out@) == completion_lines(
            completion_views(suggestions@),
            match query {
                Some(text) => Some(text@),
                None => None,
            },
            shell,
        ),
{
    let chosen = filter_suggestions(suggestions, query);
    let ghost want = completion_views(chosen@);
    let mut out: Vec<String> = Vec::new();
    let mut i: usize = 0;
    while i < chosen.len()
        invariant
            i <= chosen.len(),
            want == completion_views(chosen@),
            out.len() == i,
            forall|j: int| 0 <= j < i ==> out@[j]@ == completion_line(want[j], shell),
        decreases chosen.len() - i,
    {
        let item = &chosen[i];
        assert(want[i as int] == item@);
        let line = match shell {
            Some(SuggestionShellFormat::Bash) => format_for_bash(item),
            Some(SuggestionShellFormat::Zsh) => format_for_zsh(item),
            None => item.value.clone(),
        };
        out.push(line);
        i += 1;
    }
    assert(texts(out@) =~= Seq::new(want.len(), |i: int| completion_line(want[i], shell)));
    out
}

} // verus!
