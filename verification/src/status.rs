//! The state of a worktree as `git status --porcelain=v2 --branch` tells it.

use vstd::prelude::*;
use crate::text::{
    chars_of, copy_opt, lines, lines_of, matches_at, opt_text, parse_u32, parsed_u32, same_text,
    starts_with, string_of_range, strip_bounds, strip_start, texts, words, words_of,
};

verus! {

/// A summary of a worktree's state.
#[derive(Debug, Clone)]
pub struct GitStatusSummary {
    pub branch: Option<String>,
    pub upstream: Option<String>,
    pub ahead: u32,
    pub behind: u32,
    pub staged: usize,
    pub unstaged: usize,
    pub untracked: usize,
    pub conflicts: usize,
}

/// The mathematical value of a summary.
pub struct StatusView {
    pub branch: Option<Seq<char>>,
    pub upstream: Option<Seq<char>>,
    pub ahead: u32,
    pub behind: u32,
    pub staged: nat,
    pub unstaged: nat,
    pub untracked: nat,
    pub conflicts: nat,
}

impl View for GitStatusSummary {
    type V = StatusView;

    open spec fn view(&self) -> StatusView {
        StatusView {
            branch: opt_text(self.branch),
            upstream: opt_text(self.upstream),
            ahead: self.ahead,
            behind: self.behind,
            staged: self.staged as nat,
            unstaged: self.unstaged as nat,
            untracked: self.untracked as nat,
            conflicts: self.conflicts as nat,
        }
    }
}

/// The summary of an empty report.
pub open spec fn empty_status() -> StatusView {
    StatusView {
        branch: None,
        upstream: None,
        ahead: 0,
        behind: 0,
        staged: 0,
        unstaged: 0,
        untracked: 0,
        conflicts: 0,
    }
}

/// The number after the sign `sign`, or zero if what follows is no number.
pub open spec fn count_after(word: Seq<char>, sign: char) -> u32 {
    match parsed_u32(strip_start(word, sign)) {
        Some(n) => n,
        None => 0,
    }
}

/// The word at index `i`, if there is one.
pub open spec fn word_at(list: Seq<Seq<char>>, i: int) -> Option<Seq<char>> {
    if 0 <= i < list.len() {
        Some(list[i])
    } else {
        None
    }
}

/// The summary after a header line, given without its `# `: `branch.head`
/// names the branch, `branch.upstream` the upstream, and `branch.ab` the
/// counts ahead (after `+`) and behind (after `-`).
pub open spec fn header_step(summary: StatusView, line: Seq<char>) -> StatusView {
    let list = words(line);
    let key = match word_at(list, 0) {
        Some(word) => word,
        None => seq![],
    };
    if key == "branch.head"@ {
        StatusView { branch: word_at(list, 1), ..summary }
    } else if key == "branch.upstream"@ {
        StatusView { upstream: word_at(list, 1), ..summary }
    } else if key == "branch.ab"@ {
        StatusView {
            ahead: match word_at(list, 1) {
                Some(word) => count_after(word, '+'),
                None => summary.ahead,
            },
            behind: match word_at(list, 2) {
                Some(word) => count_after(word, '-'),
                None => summary.behind,
            },
            ..summary
        }
    } else {
        summary
    }
}

/// One if the character at index `i` of a two-letter state stands for a
/// change, else zero.
pub open spec fn changed(state: Seq<char>, i: int) -> nat {
    if 0 <= i < state.len() && state[i] != '.' {
        1
    } else {
        0
    }
}

/// The summary after one line of the report. A `# ` line is a header. A line
/// that starts with `1` or `2` is a changed entry: the first letter of its
/// second word counts as staged, the second as unstaged, unless it is `.`. A
/// line that starts with `u` is a conflict, one with `?` an untracked file.
pub open spec fn status_step(summary: StatusView, line: Seq<char>) -> StatusView {
    if starts_with(line, "# "@) {
        header_step(summary, line.skip("# "@.len() as int))
    } else if line.len() > 0 && (line[0] == '1' || line[0] == '2') {
        match word_at(words(line), 1) {
            Some(state) => StatusView {
                staged: summary.staged + changed(state, 0),
                unstaged: summary.unstaged + changed(state, 1),
                ..summary
            },
            None => summary,
        }
    } else if line.len() > 0 && line[0] == 'u' {
        StatusView { conflicts: summary.conflicts + 1, ..summary }
    } else if line.len() > 0 && line[0] == '?' {
        StatusView { untracked: summary.untracked + 1, ..summary }
    } else {
        summary
    }
}

/// The summary after the first `n` lines.
pub open spec fn status_upto(all: Seq<Seq<char>>, n: int) -> StatusView
    decreases n,
{
    if n <= 0 {
        empty_status()
    } else {
        status_step(status_upto(all, n - 1), all[n - 1])
    }
}

/// The summary of the report `output`.
pub open spec fn parsed_status(output: Seq<char>) -> StatusView {
    status_upto(lines(output), lines(output).len() as int)
}

/// No count of a summary is larger than the number of lines read.
pub proof fn lemma_status_counts(all: Seq<Seq<char>>, n: int)
    requires
        0 <= n,
    ensures
        status_upto(all, n).staged <= n,
        status_upto(all, n).unstaged <= n,
        status_upto(all, n).untracked <= n,
        status_upto(all, n).conflicts <= n,
    decreases n,
{
    if n > 0 {
        lemma_status_counts(all, n - 1);
    }
}

/// A copy of the word at index `i`.
fn word_copy(list: &Vec<String>, i: usize) -> (word: Option<String>)
    ensures
        opt_text(word) == word_at(texts(list@), i as int),
{
    if i < list.len() {
        assert(texts(list@)[i as int] == list@[i as int]@);
        Some(list[i].clone())
    } else {
        None
    }
}

/// The number after the sign `sign`, or zero.
fn read_count(word: &str, sign: char) -> (n: u32)
    ensures
        n == count_after(word@, sign),
{
    let chars = chars_of(word);
    let (from, _) = strip_bounds(&chars, sign);
    let rest = string_of_range(&chars, from, chars.len());
    match parse_u32(rest.as_str()) {
        Some(n) => n,
        None => 0,
    }
}

/// Takes one header line, given without its `# `, into the summary.
pub fn parse_branch_line(line: &str, summary: &mut GitStatusSummary)
    ensures
        final(summary)@ == header_step(old(summary)@, line@),
{
    let list = words_of(line);
    let key = match word_copy(&list, 0) {
        Some(word) => word,
        None => String::new(),
    };
    if same_text(key.as_str(), "branch.head") {
        summary.branch = word_copy(&list, 1);
    } else if same_text(key.as_str(), "branch.upstream") {
        summary.upstream = word_copy(&list, 1);
    } else if same_text(key.as_str(), "branch.ab") {
        match word_copy(&list, 1) {
            Some(word) => {
                summary.ahead = read_count(word.as_str(), '+');
            },
            None => {},
        }
        match word_copy(&list, 2) {
            Some(word) => {
                summary.behind = read_count(word.as_str(), '-');
            },
            None => {},
        }
    }
}

/// Takes one line of the report into the summary.
fn parse_status_line(line: &str, summary: &mut GitStatusSummary)
    requires
        old(summary).staged < usize::MAX,
        old(summary).unstaged < usize::MAX,
        old(summary).untracked < usize::MAX,
        old(summary).conflicts < usize::MAX,
    ensures
        final(summary)@ == status_step(old(summary)@, line@),
{
    let chars = chars_of(line);
    let mark = chars_of("# ");
    if matches_at(&chars, &mark, 0) {
        let rest = string_of_range(&chars, mark.len(), chars.len());
        parse_branch_line(rest.as_str(), summary);
        return ;
    }
    if chars.len() == 0 {
        return ;
    }
    let first = chars[0];
    if first == '1' || first == '2' {
        let list = words_of(line);
        match word_copy(&list, 1) {
            Some(word) => {
                let state = chars_of(word.as_str());
                if state.len() > 0 && state[0] != '.' {
                    summary.staged += 1;
                }
                if state.len() > 1 && state[1] != '.' {
                    summary.unstaged += 1;
                }
            },
            None => {},
        }
    } else if first == 'u' {
        summary.conflicts += 1;
    } else if first == '?' {
        summary.untracked += 1;
    }
}

/// Reads a status report in the second porcelain format.
pub fn parse_status_output(output: &str) -> (summary: GitStatusSummary)
    ensures
        summary@ == parsed_status(output@),
{
    let all = lines_of(output);
    let mut summary = GitStatusSummary {
        branch: None,
        upstream: None,
        ahead: 0,
        behind: 0,
        staged: 0,
        unstaged: 0,
        untracked: 0,
        conflicts: 0,
    };
    let mut i: usize = 0;
    while i < all.len()
        invariant
            i <= all.len(),
            texts(all@) == lines(output@),
            summary@ == status_upto(texts(all@), i as int),
        decreases all.len() - i,
    {
        proof {
            lemma_status_counts(texts(all@), i as int);
        }
        let line = &all[i];
        assert(texts(all@)[i as int] == line@);
        parse_status_line(line.as_str(), &mut summary);
        i += 1;
    }
    summary
}

/// The summary from what the status command gave.
pub fn status(outcome: Result<String, String>) -> (summary: Result<GitStatusSummary, String>)
    ensures
        outcome is Err ==> summary is Err && summary->Err_0 == outcome->Err_0,
        outcome is Ok ==> summary is Ok && summary->Ok_0@ == parsed_status(outcome->Ok_0@),
{
    match outcome {
        Err(error) => Err(error),
        Ok(output) => Ok(parse_status_output(output.as_str())),
    }
}

impl GitStatusSummary {
    /// A copy of the summary.
    pub fn duplicate(&self) -> (copy: Self)
        ensures
            copy@ == self@,
    {
        GitStatusSummary {
            branch: copy_opt(&self.branch),
            upstream: copy_opt(&self.upstream),
            ahead: self.ahead,
            behind: self.behind,
            staged: self.staged,
            unstaged: self.unstaged,
            untracked: self.untracked,
            conflicts: self.conflicts,
        }
    }
}

} // verus!
