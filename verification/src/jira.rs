//! Tickets of the issue tracker, as the ticket cache hands them over.

use vstd::prelude::*;
use vstd::string::*;
use crate::paths::{branch_dir_name, dir_name, join, joined};
use crate::text::{
    concat2, join_strings, joined_texts, lines, lines_of, push_str, string_of, texts,
    trim, trimmed, words, words_of,
};

verus! {

/// A ticket: its key and its one-line summary.
#[derive(Debug, Clone)]
pub struct JiraTicket {
    pub key: String,
    pub summary: String,
}

/// The mathematical value of a ticket.
pub struct TicketView {
    pub key: Seq<char>,
    pub summary: Seq<char>,
}

impl View for JiraTicket {
    type V = TicketView;

    open spec fn view(&self) -> TicketView {
        TicketView { key: self.key@, summary: self.summary@ }
    }
}

/// The branch name proposed for a ticket: the directory name of its key and
/// summary with a space between them.
pub open spec fn ticket_slug(ticket: TicketView) -> Seq<char> {
    dir_name(ticket.key + seq![' '] + ticket.summary)
}

/// The values of a list of tickets.
pub open spec fn ticket_views(tickets: Seq<JiraTicket>) -> Seq<TicketView> {
    Seq::new(tickets.len(), |i: int| tickets[i]@)
}

impl JiraTicket {
    /// The branch name proposed for the ticket.
    pub fn slug(&self) -> (slug: String)
        ensures
            slug@ == ticket_slug(self@),
    {
        let mut text: Vec<char> = Vec::new();
        push_str(&mut text, self.key.as_str());
        text.push(' ');
        push_str(&mut text, self.summary.as_str());
        assert(text@ =~= self@.key + seq![' '] + self@.summary);
        let joined = string_of(&text);
        branch_dir_name(joined.as_str())
    }

    /// A copy of the ticket.
    pub fn duplicate(&self) -> (copy: Self)
        ensures
            copy@ == self@,
    {
        JiraTicket { key: self.key.clone(), summary: self.summary.clone() }
    }
}

/// Pushing a ticket adds its value to the values.
pub proof fn lemma_tickets_push(list: Seq<JiraTicket>, ticket: JiraTicket)
    ensures
        ticket_views(list.push(ticket)) == ticket_views(list).push(ticket@),
{
    assert(ticket_views(list.push(ticket)) =~= ticket_views(list).push(ticket@));
}

/// A JSON value of the `serde_json` crate. Its inside is opaque here.
#[verifier::external_type_specification]
#[verifier::external_body]
pub struct ExJsonValue(serde_json::Value);

/// The value that `serde_json::from_str` reads from a text, if the text is
/// JSON.
pub uninterp spec fn json_document(text: Seq<char>) -> Option<serde_json::Value>;

/// The elements of a JSON value, as `Value::as_array` gives them: those of
/// an array, and none for any other value.
pub uninterp spec fn json_elements(value: serde_json::Value) -> Option<Seq<serde_json::Value>>;

/// The member of a JSON value under a key, as `Value::get` gives it: that of
/// an object that has the key, and none for any other value.
pub uninterp spec fn json_member(value: serde_json::Value, key: Seq<char>) -> Option<
    serde_json::Value,
>;

/// The text of a JSON value, as `Value::as_str` gives it: that of a string,
/// and none for any other value.
pub uninterp spec fn json_text(value: serde_json::Value) -> Option<Seq<char>>;

/// Reads a text as JSON. Wraps `serde_json::from_str` for `Value`; a text
/// that is not JSON gives nothing.
#[verifier::external_body]
fn read_json(text: &str) -> (value: Option<serde_json::Value>)
    ensures
        value == json_document(text@),
{
    serde_json::from_str::<serde_json::Value>(text).ok()
}

/// The elements of a JSON array. Wraps `Value::as_array` and copies the
/// elements.
#[verifier::external_body]
fn elements_of(value: &serde_json::Value) -> (items: Option<Vec<serde_json::Value>>)
    ensures
        items is Some == json_elements(*value) is Some,
        items is Some ==> items->0@ == json_elements(*value)->0,
{
    value.as_array().cloned()
}

/// The member of a JSON object under `key`. Wraps `Value::get` and copies
/// the member.
#[verifier::external_body]
fn member_of(value: &serde_json::Value, key: &str) -> (member: Option<serde_json::Value>)
    ensures
        member == json_member(*value, key@),
{
    value.get(key).cloned()
}

/// The text of a JSON string. Wraps `Value::as_str` and copies the text.
#[verifier::external_body]
fn text_of(value: &serde_json::Value) -> (text: Option<String>)
    ensures
        text is Some == json_text(*value) is Some,
        text is Some ==> text->0@ == json_text(*value)->0,
{
    value.as_str().map(str::to_owned)
}

/// The text of the member under `key`, if that member is a string.
pub open spec fn member_text(value: serde_json::Value, key: Seq<char>) -> Option<Seq<char>> {
    match json_member(value, key) {
        Some(member) => json_text(member),
        None => None,
    }
}

/// The ticket a JSON value describes: its `key` member, and as summary its
/// `summary` member or else the `summary` member of its `fields` member or
/// else nothing. A value without a `key` that is a string describes no
/// ticket.
pub open spec fn ticket_of(value: serde_json::Value) -> Option<TicketView> {
    match member_text(value, "key"@) {
        None => None,
        Some(key) => Some(
            TicketView {
                key,
                summary: match member_text(value, "summary"@) {
                    Some(summary) => summary,
                    None => match json_member(value, "fields"@) {
                        Some(fields) => match member_text(fields, "summary"@) {
                            Some(summary) => summary,
                            None => seq![],
                        },
                        None => seq![],
                    },
                },
            },
        ),
    }
}

/// The tickets that the first `n` values describe, in order.
pub open spec fn tickets_of(values: Seq<serde_json::Value>, n: int) -> Seq<TicketView>
    decreases n,
{
    if n <= 0 {
        seq![]
    } else {
        let before = tickets_of(values, n - 1);
        match ticket_of(values[n - 1]) {
            Some(ticket) => before.push(ticket),
            None => before,
        }
    }
}

/// The ticket a line of plain text names: its first word is the key and the
/// other words, with one space between them, are the summary. A line without
/// a word names no ticket.
pub open spec fn line_ticket(line: Seq<char>) -> Option<TicketView> {
    let list = words(line);
    if list.len() == 0 {
        None
    } else {
        Some(TicketView { key: list[0], summary: joined_texts(list.skip(1), seq![' ']) })
    }
}

/// The tickets that the first `n` lines name, in order.
pub open spec fn line_tickets(all: Seq<Seq<char>>, n: int) -> Seq<TicketView>
    decreases n,
{
    if n <= 0 {
        seq![]
    } else {
        let before = line_tickets(all, n - 1);
        match line_ticket(all[n - 1]) {
            Some(ticket) => before.push(ticket),
            None => before,
        }
    }
}

/// The elements that hold the tickets of a JSON document: the document
/// itself if it is an array, else its `issues` member if that is one.
pub open spec fn ticket_elements(document: serde_json::Value) -> Option<Seq<serde_json::Value>> {
    match json_elements(document) {
        Some(items) => Some(items),
        None => match json_member(document, "issues"@) {
            Some(issues) => json_elements(issues),
            None => None,
        },
    }
}

/// The tickets in what the ticket command printed. An empty text has none.
/// A JSON array, or a JSON object with an array under `issues`, gives the
/// tickets its elements describe. Any other text is read line by line.
pub open spec fn parsed_tickets(output: Seq<char>) -> Seq<TicketView> {
    if output.len() == 0 {
        seq![]
    } else {
        let elements = match json_document(output) {
            Some(document) => ticket_elements(document),
            None => None,
        };
        match elements {
            Some(items) => tickets_of(items, items.len() as int),
            None => line_tickets(lines(output), lines(output).len() as int),
        }
    }
}

/// The ticket a JSON value describes.
pub fn value_to_ticket(value: &serde_json::Value) -> (ticket: Option<JiraTicket>)
    ensures
        ticket is Some == ticket_of(*value) is Some,
        ticket is Some ==> ticket->0@ == ticket_of(*value)->0,
{
    let key = match member_of(value, "key") {
        Some(member) => match text_of(&member) {
            Some(text) => text,
            None => {
                return None;
            },
        },
        None => {
            return None;
        },
    };
    let direct = match member_of(value, "summary") {
        Some(member) => text_of(&member),
        None => None,
    };
    let summary = match direct {
        Some(text) => text,
        None => {
            let nested = match member_of(value, "fields") {
                Some(fields) => match member_of(&fields, "summary") {
                    Some(member) => text_of(&member),
                    None => None,
                },
                None => None,
            };
            match nested {
                Some(text) => text,
                None => String::new(),
            }
        },
    };
    Some(JiraTicket { key, summary })
}

/// The tickets that a list of JSON values describes.
pub fn values_to_tickets(values: &Vec<serde_json::Value>) -> (tickets: Vec<JiraTicket>)
    ensures
        ticket_views(tickets@) == tickets_of(values@, values.len() as int),
{
    let mut tickets: Vec<JiraTicket> = Vec::new();
    assert(ticket_views(tickets@) =~= Seq::<TicketView>::empty());
    let mut i: usize = 0;
    while i < values.len()
        invariant
            i <= values.len(),
            ticket_views(tickets@) == tickets_of(values@, i as int),
        decreases values.len() - i,
    {
        match value_to_ticket(&values[i]) {
            Some(ticket) => {
                proof {
                    lemma_tickets_push(tickets@, ticket);
                }
                tickets.push(ticket);
            },
            None => {},
        }
        i += 1;
    }
    tickets
}

/// The tickets that the lines of a plain text name.
pub fn lines_to_tickets(output: &str) -> (tickets: Vec<JiraTicket>)
    ensures
        ticket_views(tickets@) == line_tickets(lines(output@), lines(output@).len() as int),
{
    let all = lines_of(output);
    let mut tickets: Vec<JiraTicket> = Vec::new();
    assert(ticket_views(tickets@) =~= Seq::<TicketView>::empty());
    let mut i: usize = 0;
    while i < all.len()
        invariant
            i <= all.len(),
            texts(all@) == lines(output@),
            ticket_views(tickets@) == line_tickets(texts(all@), i as int),
        decreases all.len() - i,
    {
        let line = &all[i];
        assert(texts(all@)[i as int] == line@);
        let mut list = words_of(line.as_str());
        if list.len() > 0 {
            let ghost whole = texts(list@);
            let key = list.remove(0);
            assert(texts(list@) =~= whole.skip(1));
            let summary = join_strings(&list, " ");
            proof {
                reveal_strlit(" ");
                assert(" "@ =~= seq![' ']);
            }
            let ticket = JiraTicket { key, summary };
            proof {
                lemma_tickets_push(tickets@, ticket);
            }
            tickets.push(ticket);
        }
        i += 1;
    }
    tickets
}

/// Reads the tickets from what the ticket command printed: JSON in either
/// of its two shapes, or else plain text with one ticket on a line.
pub fn parse_acli_output(output: &str) -> (tickets: Vec<JiraTicket>)
    ensures
        ticket_views(tickets@) == parsed_tickets(output@),
{
    if output.unicode_len() == 0 {
        let none: Vec<JiraTicket> = Vec::new();
        assert(ticket_views(none@) =~= Seq::<TicketView>::empty());
        return none;
    }
    match read_json(output) {
        Some(document) => {
            match elements_of(&document) {
                Some(items) => {
                    return values_to_tickets(&items);
                },
                None => {},
            }
            match member_of(&document, "issues") {
                Some(issues) => match elements_of(&issues) {
                    Some(items) => {
                        return values_to_tickets(&items);
                    },
                    None => {},
                },
                None => {},
            }
        },
        None => {},
    }
    lines_to_tickets(output)
}

/// Where the ticket cache of a repository is kept.
pub fn cache_path(repo_root: &str) -> (path: String)
    ensures
        path@ == joined(joined(repo_root@, ".wtm"@), "jira_cache.json"@),
{
    let dir = join(repo_root, ".wtm");
    join(dir.as_str(), "jira_cache.json")
}

/// What to do for the tickets: use the cached ones or fetch them.
#[derive(Debug)]
pub enum CacheStep {
    /// The cache holds these tickets.
    Use(Vec<JiraTicket>),
    /// There is no cache: fetch the tickets and write them to the cache.
    Fetch,
}

/// Decides from what the cache held whether the tickets have to be fetched.
pub fn cached_tickets(cached: Option<Vec<JiraTicket>>) -> (step: CacheStep)
    ensures
        step == match cached {
            Some(tickets) => CacheStep::Use(tickets),
            None => CacheStep::Fetch,
        },
{
    match cached {
        Some(tickets) => CacheStep::Use(tickets),
        None => CacheStep::Fetch,
    }
}

/// The tickets from a run of the ticket command: what it printed, trimmed
/// and parsed, or the message `failure` with its trimmed standard error.
pub fn acli_outcome(success: bool, stdout: &str, stderr: &str, failure: &str) -> (out: Result<
    Vec<JiraTicket>,
    String,
>)
    ensures
        success ==> out is Ok && ticket_views(out->Ok_0@) == parsed_tickets(trim(stdout@)),
        !success ==> out is Err && out->Err_0@ == failure@ + trim(stderr@),
{
    if success {
        let printed = trimmed(stdout);
        Ok(parse_acli_output(printed.as_str()))
    } else {
        let reason = trimmed(stderr);
        Err(concat2(failure, reason.as_str()))
    }
}

/// The tickets from the two ways of fetching them: those of the first if it
/// worked, else those of the fallback, else one error that tells both.
pub fn fetch_tickets(
    primary: Result<Vec<JiraTicket>, String>,
    fallback: Result<Vec<JiraTicket>, String>,
) -> (out: Result<Vec<JiraTicket>, String>)
    ensures
        primary is Ok ==> out == primary,
        primary is Err && fallback is Ok ==> out == fallback,
        primary is Err && fallback is Err ==> out is Err && out->Err_0@
            == "failed to fetch Jira tickets via acli: "@ + primary->Err_0@
            + " (legacy fallback error: "@ + fallback->Err_0@ + ")"@,
{
    match primary {
        Ok(tickets) => Ok(tickets),
        Err(first) => match fallback {
            Ok(tickets) => Ok(tickets),
            Err(second) => {
                let mut text: Vec<char> = Vec::new();
                push_str(&mut text, "failed to fetch Jira tickets via acli: ");
                push_str(&mut text, first.as_str());
                push_str(&mut text, " (legacy fallback error: ");
                push_str(&mut text, second.as_str());
                push_str(&mut text, ")");
                assert(text@ =~= "failed to fetch Jira tickets via acli: "@ + first@
                    + " (legacy fallback error: "@ + second@ + ")"@);
                Err(string_of(&text))
            },
        },
    }
}

} // verus!
