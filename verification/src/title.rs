//! Tab titles from the foreground program of a session's shell.
//!
//! The process table is a plain snapshot: a list of entries, each with its
//! process id, its parent's id, its name, its CPU usage and whether it is
//! runnable. Nothing is assumed of it: ids may repeat and parent links may
//! form cycles.

use vstd::prelude::*;
use crate::text::{
    chars_of, extend_chars, find_char, index_of_from, is_digit, join_strings, joined_texts,
    lemma_texts_push, lines, lines_of, parse_u32, parsed_u32, slice_of, string_of,
    string_of_range, texts, words, words_of,
};

verus! {

/// One entry of a process-table snapshot. `cpu` is the CPU usage in
/// hundredths of a percent.
#[derive(Clone, Debug)]
pub struct ProcessInfo {
    pub pid: u32,
    pub parent: u32,
    pub name: String,
    pub cpu: u32,
    pub runnable: bool,
}

/// The longest program label shown in a title, in characters.
pub const PROGRAM_LABEL_MAX: usize = 80;

/// The longest base title shown in a title, in characters.
pub const BASE_TITLE_MAX: usize = 40;

/// The mark that ends a label that was cut.
pub const ELLIPSIS: char = '\u{2026}';

/// Whether entry `i` of `table` is a child of process `of`. A process is not
/// its own child.
pub open spec fn is_child(table: Seq<ProcessInfo>, i: int, of: u32) -> bool {
    0 <= i < table.len() && table[i].parent == of && table[i].pid != of
}

/// Whether `a` is more likely than `b` to be the foreground program: a
/// runnable process before one that is not; then the higher CPU usage; then
/// the smaller process id.
pub open spec fn preferred(a: ProcessInfo, b: ProcessInfo) -> bool {
    (a.runnable && !b.runnable) || (a.runnable == b.runnable && (a.cpu > b.cpu || (a.cpu == b.cpu
        && a.pid < b.pid)))
}

/// Whether `pid` is the id of a child of `of` over which no child of `of` is
/// preferred.
pub open spec fn is_best_child(table: Seq<ProcessInfo>, of: u32, pid: u32) -> bool {
    exists|i: int|
        #![trigger table[i]]
        is_child(table, i, of) && table[i].pid == pid && forall|j: int|
            #![trigger table[j]]
            is_child(table, j, of) ==> !preferred(table[j], table[i])
}

/// The id of the best child of `of`, if `of` has a child.
pub open spec fn best_child(table: Seq<ProcessInfo>, of: u32) -> Option<u32> {
    if exists|pid: u32| is_best_child(table, of, pid) {
        Some(choose|pid: u32| is_best_child(table, of, pid))
    } else {
        None
    }
}

/// Two best children of one process have the same id.
pub proof fn lemma_best_child_unique(table: Seq<ProcessInfo>, of: u32, p: u32, q: u32)
    requires
        is_best_child(table, of, p),
        is_best_child(table, of, q),
    ensures
        p == q,
{
    let i = choose|i: int|
        #![trigger table[i]]
        is_child(table, i, of) && table[i].pid == p && forall|j: int|
            #![trigger table[j]]
            is_child(table, j, of) ==> !preferred(table[j], table[i]);
    let k = choose|k: int|
        #![trigger table[k]]
        is_child(table, k, of) && table[k].pid == q && forall|j: int|
            #![trigger table[j]]
            is_child(table, j, of) ==> !preferred(table[j], table[k]);
    assert(!preferred(table[k], table[i]));
    assert(!preferred(table[i], table[k]));
}

/// The process reached from `pid` by going to the best child up to `steps`
/// times, stopping early at a process without children.
pub open spec fn descend(table: Seq<ProcessInfo>, pid: u32, steps: nat) -> u32
    decreases steps,
{
    if steps == 0 {
        pid
    } else {
        match best_child(table, pid) {
            None => pid,
            Some(child) => descend(table, child, (steps - 1) as nat),
        }
    }
}

/// The foreground process of the shell `shell`: the end of the walk from the
/// shell along best children. The walk takes at most as many steps as the
/// table has entries, so it ends on every table.
pub open spec fn foreground_process(table: Seq<ProcessInfo>, shell: u32) -> u32 {
    descend(table, shell, table.len())
}

/// The index of the first entry at or after `from` with id `pid`;
/// `table.len()` if there is none.
pub open spec fn entry_of(table: Seq<ProcessInfo>, pid: u32, from: int) -> int
    decreases table.len() - from,
{
    if from < 0 || from >= table.len() {
        table.len() as int
    } else if table[from].pid == pid {
        from
    } else {
        entry_of(table, pid, from + 1)
    }
}

/// The name of process `pid`, taken from its first entry.
pub open spec fn process_name(table: Seq<ProcessInfo>, pid: u32) -> Option<Seq<char>> {
    let at = entry_of(table, pid, 0);
    if at < table.len() {
        Some(table[at].name@)
    } else {
        None
    }
}

/// `text` cut to at most `max` characters: a longer text keeps its first
/// `max - 1` characters and ends in the ellipsis mark.
pub open spec fn truncated(text: Seq<char>, max: nat) -> Seq<char> {
    if text.len() <= max {
        text
    } else if max == 0 {
        seq![]
    } else {
        text.take(max - 1).push(ELLIPSIS)
    }
}

/// The title of a tab whose foreground program is `program`: the program
/// label, ` - `, and the base title, each side cut on its own.
pub open spec fn composed_title(program: Seq<char>, base: Seq<char>) -> Seq<char> {
    truncated(program, PROGRAM_LABEL_MAX as nat) + seq![' ', '-', ' '] + truncated(
        base,
        BASE_TITLE_MAX as nat,
    )
}

/// The title for a session whose shell is `shell`, if the foreground process
/// has an entry in the table.
pub open spec fn resolved_title(table: Seq<ProcessInfo>, shell: u32, base: Seq<char>) -> Option<
    Seq<char>,
> {
    match process_name(table, foreground_process(table, shell)) {
        Some(program) => Some(composed_title(program, base)),
        None => None,
    }
}

/// Decides [`preferred`].
pub fn is_preferred(a: &ProcessInfo, b: &ProcessInfo) -> (better: bool)
    ensures
        better == preferred(*a, *b),
{
    (a.runnable && !b.runnable) || (a.runnable == b.runnable && (a.cpu > b.cpu || (a.cpu == b.cpu
        && a.pid < b.pid)))
}

/// Chooses among the children of `of` the one most likely to be in the
/// foreground.
pub fn pick_child(table: &Vec<ProcessInfo>, of: u32) -> (child: Option<u32>)
    ensures
        child == best_child(table@, of),
{
    let mut best: Option<usize> = None;
    let mut i: usize = 0;
    while i < table.len()
        invariant
            i <= table.len(),
            best is None ==> forall|j: int| #![trigger table@[j]] 0 <= j < i ==> !is_child(table@, j, of),
            best is Some ==> best->0 < i && is_child(table@, best->0 as int, of) && forall|j: int|
                #![trigger table@[j]]
                0 <= j < i && is_child(table@, j, of) ==> !preferred(
                    table@[j],
                    table@[best->0 as int],
                ),
        decreases table.len() - i,
    {
        let entry = &table[i];
        if entry.parent == of && entry.pid != of {
            match best {
                None => {
                    best = Some(i);
                },
                Some(b) => {
                    if is_preferred(entry, &table[b]) {
                        proof {
                            lemma_preferred_transitive_step(table@, of, b as int, i as int);
                        }
                        best = Some(i);
                    }
                },
            }
        }
        i += 1;
    }
    match best {
        None => {
            proof {
                assert forall|pid: u32| !is_best_child(table@, of, pid) by {
                    if is_best_child(table@, of, pid) {
                        let k = choose|k: int|
                            #![trigger table@[k]]
                            is_child(table@, k, of) && table@[k].pid == pid;
                        assert(!is_child(table@, k, of));
                    }
                }
            }
            None
        },
        Some(b) => {
            let pid = table[b].pid;
            proof {
                assert(is_child(table@, b as int, of));
                assert(is_best_child(table@, of, pid));
                let chosen = choose|p: u32| is_best_child(table@, of, p);
                lemma_best_child_unique(table@, of, pid, chosen);
            }
            Some(pid)
        },
    }
}

/// If entry `next` is preferred over entry `best`, then whatever was not
/// preferred over `best` is not preferred over `next` either.
proof fn lemma_preferred_transitive_step(table: Seq<ProcessInfo>, of: u32, best: int, next: int)
    requires
        0 <= best < table.len(),
        0 <= next < table.len(),
        preferred(table[next], table[best]),
    ensures
        forall|j: int|
            #![trigger table[j]]
            0 <= j < table.len() && !preferred(table[j], table[best]) ==> !preferred(
                table[j],
                table[next],
            ),
{
}

/// Walks from `shell` to its foreground process.
pub fn resolve_foreground(table: &Vec<ProcessInfo>, shell: u32) -> (pid: u32)
    ensures
        pid == foreground_process(table@, shell),
{
    let mut current = shell;
    let mut left: usize = table.len();
    while left > 0
        invariant
            descend(table@, shell, table@.len()) == descend(table@, current, left as nat),
        decreases left,
    {
        match pick_child(table, current) {
            None => {
                return current;
            },
            Some(child) => {
                current = child;
                left -= 1;
            },
        }
    }
    current
}

/// The name of the first entry with id `pid`.
pub fn lookup_name(table: &Vec<ProcessInfo>, pid: u32) -> (name: Option<String>)
    ensures
        name is Some == process_name(table@, pid) is Some,
        name is Some ==> name->0@ == process_name(table@, pid)->0,
{
    let mut i: usize = 0;
    while i < table.len()
        invariant
            i <= table.len(),
            entry_of(table@, pid, 0) == entry_of(table@, pid, i as int),
        decreases table.len() - i,
    {
        if table[i].pid == pid {
            return Some(table[i].name.clone());
        }
        i += 1;
    }
    None
}

/// Cuts `text` to at most `max` characters, marking a cut with the ellipsis.
pub fn truncate_label(text: &str, max: usize) -> (out: Vec<char>)
    ensures
        out@ == truncated(text@, max as nat),
{
    let chars = chars_of(text);
    if chars.len() <= max {
        chars
    } else if max == 0 {
        Vec::new()
    } else {
        let mut out = slice_of(&chars, 0, max - 1);
        out.push(ELLIPSIS);
        out
    }
}

/// Composes the title of a tab from the foreground program and the base
/// title.
pub fn compose_title(program: &str, base: &str) -> (title: String)
    ensures
        title@ == composed_title(program@, base@),
{
    let mut out = truncate_label(program, PROGRAM_LABEL_MAX);
    out.push(' ');
    out.push('-');
    out.push(' ');
    let tail = truncate_label(base, BASE_TITLE_MAX);
    extend_chars(&mut out, &tail);
    string_of(&out)
}

/// Resolves the title of the session whose shell has process id `shell`:
/// walks the table to the foreground process and composes its name with the
/// base title. `None` when that process has no entry in the table.
pub fn resolve_title(table: &Vec<ProcessInfo>, shell: u32, base: &str) -> (title: Option<String>)
    ensures
        title is Some == resolved_title(table@, shell, base@) is Some,
        title is Some ==> title->0@ == resolved_title(table@, shell, base@)->0,
{
    let pid = resolve_foreground(table, shell);
    match lookup_name(table, pid) {
        Some(program) => Some(compose_title(program.as_str(), base)),
        None => None,
    }
}

/// The value of the digit at index `i` of a text; zero where the text has no
/// digit there.
pub open spec fn digit_at(text: Seq<char>, i: int) -> nat {
    if 0 <= i < text.len() && is_digit(text[i]) {
        ((text[i] as u32) - 48) as nat
    } else {
        0
    }
}

/// A percentage written with a decimal point, in hundredths: the number
/// before the point times a hundred, plus the first two digits after it.
/// `None` where the part before the point is no number or the result does
/// not fit.
pub open spec fn hundredths(text: Seq<char>) -> Option<u32> {
    let point = index_of_from(text, '.', 0);
    match parsed_u32(text.take(point)) {
        None => None,
        Some(whole) => {
            let value = whole * 100 + digit_at(text, point + 1) * 10 + digit_at(text, point + 2);
            if value <= u32::MAX {
                Some(value as u32)
            } else {
                None
            }
        },
    }
}

/// The entry that one line of a process listing gives. The line holds, with
/// white space between them: the process id, the parent's id, the state, the
/// CPU usage in percent, and the command. A process is runnable if its state
/// starts with `R`. A line with fewer fields, or with a number that cannot
/// be read, gives nothing.
pub open spec fn listed_process(line: Seq<char>) -> Option<ProcessView> {
    let fields = words(line);
    if fields.len() < 5 {
        None
    } else {
        match (parsed_u32(fields[0]), parsed_u32(fields[1]), hundredths(fields[3])) {
            (Some(pid), Some(parent), Some(cpu)) => Some(
                ProcessView {
                    pid,
                    parent,
                    name: joined_texts(fields.skip(4), seq![' ']),
                    cpu,
                    runnable: fields[2].len() > 0 && fields[2][0] == 'R',
                },
            ),
            _ => None,
        }
    }
}

/// The mathematical value of a process entry.
pub struct ProcessView {
    pub pid: u32,
    pub parent: u32,
    pub name: Seq<char>,
    pub cpu: u32,
    pub runnable: bool,
}

impl View for ProcessInfo {
    type V = ProcessView;

    open spec fn view(&self) -> ProcessView {
        ProcessView {
            pid: self.pid,
            parent: self.parent,
            name: self.name@,
            cpu: self.cpu,
            runnable: self.runnable,
        }
    }
}

/// The values of a list of process entries.
pub open spec fn process_views(list: Seq<ProcessInfo>) -> Seq<ProcessView> {
    Seq::new(list.len(), |i: int| list[i]@)
}

/// The entries that the first `n` lines of a listing give, in order.
pub open spec fn listed_upto(all: Seq<Seq<char>>, n: int) -> Seq<ProcessView>
    decreases n,
{
    if n <= 0 {
        seq![]
    } else {
        let before = listed_upto(all, n - 1);
        match listed_process(all[n - 1]) {
            Some(entry) => before.push(entry),
            None => before,
        }
    }
}

/// The value of the digit at index `i`, or zero.
fn digit_value(chars: &Vec<char>, i: usize) -> (d: u64)
    ensures
        d == digit_at(chars@, i as int),
        d <= 9,
{
    if i < chars.len() && '0' <= chars[i] && chars[i] <= '9' {
        (chars[i] as u32 - 48) as u64
    } else {
        0
    }
}

/// Reads a percentage in hundredths.
pub fn parse_hundredths(text: &str) -> (out: Option<u32>)
    ensures
        out == hundredths(text@),
{
    let chars = chars_of(text);
    let point = find_char(&chars, '.', 0);
    let head = string_of_range(&chars, 0, point);
    assert(chars@.subrange(0, point as int) == chars@.take(point as int));
    match parse_u32(head.as_str()) {
        None => None,
        Some(whole) => {
            let first = if point < usize::MAX {
                digit_value(&chars, point + 1)
            } else {
                0
            };
            let second = if point < usize::MAX - 1 {
                digit_value(&chars, point + 2)
            } else {
                0
            };
            let value: u64 = whole as u64 * 100 + first * 10 + second;
            if value <= u32::MAX as u64 {
                Some(value as u32)
            } else {
                None
            }
        },
    }
}

/// Reads one line of a process listing.
pub fn parse_process_line(line: &str) -> (entry: Option<ProcessInfo>)
    ensures
        entry is Some == listed_process(line@) is Some,
        entry is Some ==> entry->0@ == listed_process(line@)->0,
{
    let mut fields = words_of(line);
    if fields.len() < 5 {
        return None;
    }
    let ghost all = texts(fields@);
    assert(all[0] == fields@[0]@ && all[1] == fields@[1]@ && all[2] == fields@[2]@ && all[3]
        == fields@[3]@);
    let pid = parse_u32(fields[0].as_str());
    let parent = parse_u32(fields[1].as_str());
    let cpu = parse_hundredths(fields[3].as_str());
    let state = chars_of(fields[2].as_str());
    let runnable = state.len() > 0 && state[0] == 'R';
    match (pid, parent, cpu) {
        (Some(pid), Some(parent), Some(cpu)) => {
            let mut rest: Vec<String> = Vec::new();
            let mut i: usize = 4;
            while i < fields.len()
                invariant
                    4 <= i <= fields.len(),
                    all == texts(fields@),
                    texts(rest@) == all.subrange(4, i as int),
                decreases fields.len() - i,
            {
                let field = fields[i].clone();
                proof {
                    lemma_texts_push(rest@, field);
                    assert(all.subrange(4, i as int).push(all[i as int]) =~= all.subrange(
                        4,
                        i + 1,
                    ));
                }
                rest.push(field);
                i += 1;
            }
            assert(all.subrange(4, fields.len() as int) =~= all.skip(4));
            proof {
                reveal_strlit(" ");
                assert(" "@ =~= seq![' ']);
            }
            let name = join_strings(&rest, " ");
            Some(ProcessInfo { pid, parent, name, cpu, runnable })
        },
        _ => None,
    }
}

/// Reads a process listing: one entry for each line that gives one.
pub fn parse_process_table(output: &str) -> (table: Vec<ProcessInfo>)
    ensures
        process_views(table@) == listed_upto(lines(output@), lines(output@).len() as int),
{
    let all = lines_of(output);
    let mut table: Vec<ProcessInfo> = Vec::new();
    assert(process_views(table@) =~= Seq::<ProcessView>::empty());
    let mut i: usize = 0;
    while i < all.len()
        invariant
            i <= all.len(),
            texts(all@) == lines(output@),
            process_views(table@) == listed_upto(texts(all@), i as int),
        decreases all.len() - i,
    {
        assert(texts(all@)[i as int] == all@[i as int]@);
        match parse_process_line(all[i].as_str()) {
            Some(entry) => {
                assert(process_views(table@.push(entry)) =~= process_views(table@).push(entry@));
                table.push(entry);
            },
            None => {},
        }
        i += 1;
    }
    table
}

} // verus!
