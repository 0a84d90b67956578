//! Workspace paths and directory names.
//!
//! A path is a text with `/` between its components. Two paths are the same
//! when they have the same components: repeated and trailing separators and
//! `.` components after the first do not count.

use vstd::prelude::*;
use crate::text::{
    chars_of, decimal, extend_chars, lemma_decimal_injective, lemma_texts_push, list_contains,
    lemma_strip, lists, push_decimal, same_text, split, split_chars, string_of, string_of_range,
    strip, strip_bounds, texts,
};

verus! {

/// Whether `path` starts at the root.
pub open spec fn is_absolute(path: Seq<char>) -> bool {
    path.len() > 0 && path[0] == '/'
}

/// `base` extended by `rel`: an absolute `rel` replaces `base`; otherwise
/// `rel` is appended, after a separator unless `base` is empty or ends in one.
pub open spec fn joined(base: Seq<char>, rel: Seq<char>) -> Seq<char> {
    if is_absolute(rel) || base.len() == 0 {
        rel
    } else if base.last() == '/' {
        base + rel
    } else {
        base.push('/') + rel
    }
}

/// Whether segment `i` of a path split at its separators is a component:
/// it is not empty, and it is not `.` unless it is the first segment.
pub open spec fn is_component(segments: Seq<Seq<char>>, i: int) -> bool {
    segments[i].len() > 0 && (segments[i] != seq!['.'] || i == 0)
}

/// The components among the first `n` segments, in order.
pub open spec fn components_upto(segments: Seq<Seq<char>>, n: int) -> Seq<Seq<char>>
    decreases n,
{
    if n <= 0 {
        seq![]
    } else {
        let before = components_upto(segments, n - 1);
        if is_component(segments, n - 1) {
            before.push(segments[n - 1])
        } else {
            before
        }
    }
}

/// The components of `path`.
pub open spec fn components(path: Seq<char>) -> Seq<Seq<char>> {
    components_upto(split(path, '/'), split(path, '/').len() as int)
}

/// Whether `a` and `b` name the same place: both absolute or both relative,
/// with the same components.
pub open spec fn path_eq(a: Seq<char>, b: Seq<char>) -> bool {
    is_absolute(a) == is_absolute(b) && components(a) == components(b)
}

/// The last component of `path`, unless the path has none or ends in `.` or
/// `..`.
pub open spec fn file_name(path: Seq<char>) -> Option<Seq<char>> {
    let parts = components(path);
    if parts.len() == 0 || parts.last() == seq!['.'] || parts.last() == seq!['.', '.'] {
        None
    } else {
        Some(parts.last())
    }
}

/// The directory that holds the workspaces of the repository at `repo_root`.
pub open spec fn workspace_root_of(repo_root: Seq<char>) -> Seq<char> {
    joined(repo_root, ".wtm/workspaces"@)
}

/// Decides [`is_absolute`].
pub fn path_is_absolute(path: &str) -> (absolute: bool)
    ensures
        absolute == is_absolute(path@),
{
    let chars = chars_of(path);
    chars.len() > 0 && chars[0] == '/'
}

/// Extends `base` by `rel`.
pub fn join(base: &str, rel: &str) -> (path: String)
    ensures
        path@ == joined(base@, rel@),
{
    let tail = chars_of(rel);
    let mut head = chars_of(base);
    if (tail.len() > 0 && tail[0] == '/') || head.len() == 0 {
        return string_of(&tail);
    }
    if head[head.len() - 1] != '/' {
        head.push('/');
    }
    extend_chars(&mut head, &tail);
    string_of(&head)
}

/// The components of `path`, in order.
pub fn path_components(path: &str) -> (parts: Vec<String>)
    ensures
        texts(parts@) == components(path@),
{
    let chars = chars_of(path);
    let segments = split_chars(&chars, '/');
    let mut parts: Vec<String> = Vec::new();
    let mut i: usize = 0;
    while i < segments.len()
        invariant
            i <= segments.len(),
            texts(segments@) == split(path@, '/'),
            texts(parts@) == components_upto(texts(segments@), i as int),
        decreases segments.len() - i,
    {
        let segment = chars_of(segments[i].as_str());
        assert(texts(segments@)[i as int] == segment@);
        let dot = segment.len() == 1 && segment[0] == '.';
        assert(dot == (segment@ == seq!['.'])) by {
            if dot {
                assert(segment@ =~= seq!['.']);
            }
        }
        if segment.len() > 0 && (!dot || i == 0) {
            let part = string_of(&segment);
            proof {
                lemma_texts_push(parts@, part);
            }
            parts.push(part);
        }
        i += 1;
    }
    parts
}

/// Whether two lists of strings hold the same texts in the same order.
pub fn same_texts(a: &Vec<String>, b: &Vec<String>) -> (eq: bool)
    ensures
        eq == (texts(a@) == texts(b@)),
{
    if a.len() != b.len() {
        assert(texts(a@).len() != texts(b@).len());
        return false;
    }
    let mut i: usize = 0;
    while i < a.len()
        invariant
            i <= a.len(),
            a.len() == b.len(),
            forall|j: int| 0 <= j < i ==> a@[j]@ == b@[j]@,
        decreases a.len() - i,
    {
        if !same_text(a[i].as_str(), b[i].as_str()) {
            assert(texts(a@)[i as int] != texts(b@)[i as int]);
            return false;
        }
        i += 1;
    }
    assert(texts(a@) =~= texts(b@));
    true
}

/// Whether two paths name the same place.
pub fn same_path(a: &str, b: &str) -> (eq: bool)
    ensures
        eq == path_eq(a@, b@),
{
    if path_is_absolute(a) != path_is_absolute(b) {
        return false;
    }
    let x = path_components(a);
    let y = path_components(b);
    same_texts(&x, &y)
}

/// The last component of `path`, if it names a file or directory.
pub fn path_file_name(path: &str) -> (name: Option<String>)
    ensures
        name is Some == file_name(path@) is Some,
        name is Some ==> name->0@ == file_name(path@)->0,
{
    let mut parts = path_components(path);
    let ghost all = parts@;
    match parts.pop() {
        None => {
            assert(texts(all).len() == 0);
            None
        },
        Some(last) => {
            assert(components(path@).last() == last@) by {
                assert(texts(all)[all.len() - 1] == last@);
            }
            let chars = chars_of(last.as_str());
            let dot = chars.len() == 1 && chars[0] == '.';
            let dots = chars.len() == 2 && chars[0] == '.' && chars[1] == '.';
            assert(dot == (chars@ == seq!['.'])) by {
                if dot {
                    assert(chars@ =~= seq!['.']);
                }
            }
            assert(dots == (chars@ == seq!['.', '.'])) by {
                if dots {
                    assert(chars@ =~= seq!['.', '.']);
                }
            }
            if dot || dots {
                None
            } else {
                Some(last)
            }
        },
    }
}

/// The `.wtm/workspaces` directory under the repository root.
pub fn workspace_root(repo_root: &str) -> (root: String)
    ensures
        root@ == workspace_root_of(repo_root@),
{
    join(repo_root, ".wtm/workspaces")
}

/// Whether `c` may stand in a directory name: an ASCII letter or digit, `_`
/// or `-`.
pub open spec fn is_safe(c: char) -> bool {
    ('a' <= c && c <= 'z') || ('A' <= c && c <= 'Z') || ('0' <= c && c <= '9') || c == '_' || c
        == '-'
}

/// `c` if it is safe, else `-`.
pub open spec fn safe_char(c: char) -> char {
    if is_safe(c) {
        c
    } else {
        '-'
    }
}

/// `s` with every unsafe character replaced by `-` and every run of `-`
/// shortened to one.
pub open spec fn squeezed(s: Seq<char>) -> Seq<char>
    decreases s.len(),
{
    if s.len() == 0 {
        seq![]
    } else {
        let before = squeezed(s.drop_last());
        let c = safe_char(s.last());
        if c == '-' && before.len() > 0 && before.last() == '-' {
            before
        } else {
            before.push(c)
        }
    }
}

/// The branch name as typed into a form: unsafe characters become `-`, runs
/// of `-` become one, and `-` at either end is dropped.
pub open spec fn sanitized(branch: Seq<char>) -> Seq<char> {
    strip(squeezed(branch), '-')
}

/// The directory name for a branch: its sanitized form, or `worktree` when
/// nothing is left of it.
pub open spec fn dir_name(branch: Seq<char>) -> Seq<char> {
    if sanitized(branch).len() == 0 {
        "worktree"@
    } else {
        sanitized(branch)
    }
}

/// Decides [`is_safe`].
pub fn is_safe_char(c: char) -> (safe: bool)
    ensures
        safe == is_safe(c),
{
    ('a' <= c && c <= 'z') || ('A' <= c && c <= 'Z') || ('0' <= c && c <= '9') || c == '_' || c
        == '-'
}

/// Replaces unsafe characters by `-` and shortens runs of `-` to one.
pub fn squeeze(s: &str) -> (out: Vec<char>)
    ensures
        out@ == squeezed(s@),
{
    let chars = chars_of(s);
    let mut out: Vec<char> = Vec::new();
    let mut i: usize = 0;
    while i < chars.len()
        invariant
            i <= chars.len(),
            out@ == squeezed(chars@.take(i as int)),
        decreases chars.len() - i,
    {
        assert(chars@.take(i + 1).drop_last() == chars@.take(i as int));
        let c = if is_safe_char(chars[i]) {
            chars[i]
        } else {
            '-'
        };
        if !(c == '-' && out.len() > 0 && out[out.len() - 1] == '-') {
            out.push(c);
        }
        i += 1;
    }
    assert(chars@.take(chars.len() as int) == chars@);
    out
}

/// Makes a typed branch name safe: see [`sanitized`].
pub fn sanitize_branch_input(value: &str) -> (out: String)
    ensures
        out@ == sanitized(value@),
{
    let squeezed = squeeze(value);
    let (from, to) = strip_bounds(&squeezed, '-');
    string_of_range(&squeezed, from, to)
}

/// A directory name that is safe on every file system for the branch.
pub fn branch_dir_name(branch: &str) -> (name: String)
    ensures
        name@ == dir_name(branch@),
{
    let squeezed = squeeze(branch);
    let (from, to) = strip_bounds(&squeezed, '-');
    if from == to {
        "worktree".to_owned()
    } else {
        string_of_range(&squeezed, from, to)
    }
}

/// The name tried in round `round` of the search for a free directory: the
/// base name itself first, then the base name with `-1`, `-2` and so on.
pub open spec fn numbered(base: Seq<char>, round: nat) -> Seq<char> {
    if round == 0 {
        base
    } else {
        base + seq!['-'] + decimal(round)
    }
}

/// The path tried in round `round`.
pub open spec fn candidate(root: Seq<char>, base: Seq<char>, round: nat) -> Seq<char> {
    joined(root, numbered(base, round))
}

/// Whether `path` is the first candidate that is not among `existing`.
pub open spec fn is_first_free(
    root: Seq<char>,
    base: Seq<char>,
    existing: Seq<String>,
    path: Seq<char>,
) -> bool {
    exists|round: nat|
        {
            &&& path == #[trigger] candidate(root, base, round)
            &&& !lists(existing, path)
            &&& forall|earlier: nat|
                earlier < round ==> lists(existing, #[trigger] candidate(root, base, earlier))
        }
}

/// Candidates of different rounds are different paths.
pub proof fn lemma_candidates_differ(root: Seq<char>, base: Seq<char>, a: nat, b: nat)
    requires
        a != b,
    ensures
        candidate(root, base, a) != candidate(root, base, b),
{
    let x = numbered(base, a);
    let y = numbered(base, b);
    assert(x != y) by {
        if x == y {
            if a == 0 {
                assert(y.len() > base.len());
            } else if b == 0 {
                assert(x.len() > base.len());
            } else {
                let head = base + seq!['-'];
                assert(x.skip(head.len() as int) =~= decimal(a));
                assert(y.skip(head.len() as int) =~= decimal(b));
                lemma_decimal_injective(a, b);
            }
        }
    }
    assert(is_absolute(x) == is_absolute(y)) by {
        if base.len() > 0 {
            assert(x[0] == base[0]);
            assert(y[0] == base[0]);
        } else {
            if a > 0 {
                assert(x[0] == '-');
            }
            if b > 0 {
                assert(y[0] == '-');
            }
        }
    }
    let p = candidate(root, base, a);
    let q = candidate(root, base, b);
    if p == q {
        if is_absolute(x) || root.len() == 0 {
        } else if root.last() == '/' {
            assert(p.skip(root.len() as int) =~= x);
            assert(q.skip(root.len() as int) =~= y);
        } else {
            assert(p.skip(root.len() as int + 1) =~= x);
            assert(q.skip(root.len() as int + 1) =~= y);
        }
    }
}

/// A list of distinct indices into a list of `n` items has at most `n`
/// entries.
proof fn lemma_distinct_indices_bounded(hits: Seq<int>, n: nat)
    requires
        hits.no_duplicates(),
        forall|i: int| 0 <= i < hits.len() ==> 0 <= #[trigger] hits[i] < n,
    ensures
        hits.len() <= n,
{
    let range = Set::new(|i: int| 0 <= i < n);
    vstd::set_lib::lemma_int_range(0, n as int);
    assert(range =~= vstd::set_lib::set_int_range(0, n as int));
    hits.unique_seq_to_set();
    assert(hits.to_set().subset_of(range)) by {
        assert forall|v: int| hits.to_set().contains(v) implies range.contains(v) by {
            let i = choose|i: int| 0 <= i < hits.len() && hits[i] == v;
            assert(0 <= hits[i] < n);
        }
    }
    vstd::set_lib::lemma_len_subset(hits.to_set(), range);
}

/// The path tried in round `round`.
fn candidate_path(root: &str, base: &str, round: u64) -> (path: String)
    ensures
        path@ == candidate(root@, base@, round as nat),
{
    let mut name = chars_of(base);
    if round > 0 {
        name.push('-');
        push_decimal(&mut name, round);
    }
    assert(name@ =~= numbered(base@, round as nat));
    let name = string_of(&name);
    join(root, name.as_str())
}

/// The first workspace path under `root` that is free: `root/base_name` if
/// it is not among `existing`, else the first of `root/base_name-1`,
/// `root/base_name-2`, ... that is not. `existing` lists the paths that are
/// taken; since it is finite a free path is always found.
pub fn next_available_workspace_path(root: &str, base_name: &str, existing: &Vec<String>) -> (path:
    String)
    ensures
        is_first_free(root@, base_name@, existing@, path@),
{
    let mut round: u64 = 0;
    let ghost mut hits: Seq<int> = Seq::empty();
    loop
        invariant
            hits.len() == round,
            hits.no_duplicates(),
            forall|j: int|
                0 <= j < hits.len() ==> 0 <= #[trigger] hits[j] < existing.len() && existing@[hits[j]]@
                    == candidate(root@, base_name@, j as nat),
        decreases existing.len() - hits.len(),
    {
        proof {
            lemma_distinct_indices_bounded(hits, existing.len() as nat);
        }
        let path = candidate_path(root, base_name, round);
        if !list_contains(existing, path.as_str()) {
            proof {
                assert forall|earlier: nat| earlier < round implies lists(
                    existing@,
                    #[trigger] candidate(root@, base_name@, earlier),
                ) by {
                    assert(existing@[hits[earlier as int]]@ == candidate(
                        root@,
                        base_name@,
                        earlier,
                    ));
                }
            }
            return path;
        }
        proof {
            let at = choose|i: int| 0 <= i < existing.len() && #[trigger] existing@[i]@ == path@;
            assert forall|j: int| 0 <= j < hits.len() implies hits[j] != at by {
                lemma_candidates_differ(root@, base_name@, j as nat, round as nat);
            }
            hits = hits.push(at);
            lemma_distinct_indices_bounded(hits, existing.len() as nat);
        }
        round += 1;
    }
}

/// Whether a text may name a directory: it is not empty, holds safe
/// characters only, neither starts nor ends with `-`, and has no two `-` in
/// a row.
pub open spec fn is_dir_name(name: Seq<char>) -> bool {
    &&& name.len() > 0
    &&& forall|i: int| 0 <= i < name.len() ==> is_safe(#[trigger] name[i])
    &&& name.first() != '-'
    &&& name.last() != '-'
    &&& forall|i: int| 0 <= i < name.len() - 1 ==> !(#[trigger] name[i] == '-' && name[i + 1] == '-')
}

/// A squeezed text holds safe characters only and has no two `-` in a row.
pub proof fn lemma_squeezed(s: Seq<char>)
    ensures
        forall|i: int| 0 <= i < squeezed(s).len() ==> is_safe(#[trigger] squeezed(s)[i]),
        forall|i: int|
            0 <= i < squeezed(s).len() - 1 ==> !(#[trigger] squeezed(s)[i] == '-' && squeezed(s)[i
                + 1] == '-'),
    decreases s.len(),
{
    if s.len() > 0 {
        lemma_squeezed(s.drop_last());
        let before = squeezed(s.drop_last());
        let c = safe_char(s.last());
        let after = squeezed(s);
        assert(is_safe(c));
        if c == '-' && before.len() > 0 && before.last() == '-' {
            assert(after == before);
        } else {
            assert(after == before.push(c));
            assert forall|i: int| 0 <= i < after.len() implies is_safe(#[trigger] after[i]) by {
                if i < before.len() {
                    assert(after[i] == before[i]);
                }
            }
            assert forall|i: int| 0 <= i < after.len() - 1 implies !(#[trigger] after[i] == '-'
                && after[i + 1] == '-') by {
                assert(after[i] == before[i]);
                if i + 1 < before.len() {
                    assert(after[i + 1] == before[i + 1]);
                }
            }
        }
    }
}

/// The directory name of every branch may name a directory.
pub proof fn lemma_dir_name(branch: Seq<char>)
    ensures
        is_dir_name(dir_name(branch)),
{
    let squeezed = squeezed(branch);
    lemma_squeezed(branch);
    lemma_strip(squeezed, '-');
    let (from, to) = choose|from: int, to: int|
        0 <= from <= to <= squeezed.len() && strip(squeezed, '-') == #[trigger] squeezed.subrange(
            from,
            to,
        );
    let name = sanitized(branch);
    assert forall|i: int| 0 <= i < name.len() implies is_safe(#[trigger] name[i]) by {
        assert(name[i] == squeezed[from + i]);
    }
    assert forall|i: int| 0 <= i < name.len() - 1 implies !(#[trigger] name[i] == '-' && name[i
        + 1] == '-') by {
        assert(name[i] == squeezed[from + i]);
        assert(name[i + 1] == squeezed[from + i + 1]);
    }
    if name.len() == 0 {
        reveal_strlit("worktree");
    }
}

} // verus!
