//! Git worktrees as the version-control collaborator reports them.

use vstd::prelude::*;
use vstd::string::*;
use crate::paths::{file_name, is_absolute, join, joined, path_file_name, path_is_absolute};
use crate::text::{
    chars_of, concat2, copy_opt, find_char, index_of_from, is_blank, lines, lines_of,
    matches_at, opt_text, same_text, starts_with, string_of_range, texts, trim, trimmed,
};

verus! {

/// One git worktree.
#[derive(Debug, Clone)]
pub struct WorktreeInfo {
    pub path: String,
    pub head: Option<String>,
    pub branch: Option<String>,
    pub is_locked: bool,
    pub is_prunable: bool,
}

/// The mathematical value of a worktree.
pub struct WorktreeView {
    pub path: Seq<char>,
    pub head: Option<Seq<char>>,
    pub branch: Option<Seq<char>>,
    pub is_locked: bool,
    pub is_prunable: bool,
}

impl View for WorktreeInfo {
    type V = WorktreeView;

    open spec fn view(&self) -> WorktreeView {
        WorktreeView {
            path: self.path@,
            head: opt_text(self.head),
            branch: opt_text(self.branch),
            is_locked: self.is_locked,
            is_prunable: self.is_prunable,
        }
    }
}

/// The name shown for the worktree at `path`: the last component of the
/// path, or the whole path when it has no such component.
pub open spec fn worktree_name(path: Seq<char>) -> Seq<char> {
    match file_name(path) {
        Some(name) => name,
        None => path,
    }
}

impl WorktreeInfo {
    /// The name shown for the worktree.
    pub fn name(&self) -> (name: String)
        ensures
            name@ == worktree_name(self@.path),
    {
        match path_file_name(self.path.as_str()) {
            Some(name) => name,
            None => self.path.clone(),
        }
    }

    /// The directory of the worktree.
    pub fn path(&self) -> (path: &str)
        ensures
            path@ == self@.path,
    {
        self.path.as_str()
    }

    /// A copy of the worktree's description.
    pub fn duplicate(&self) -> (copy: Self)
        ensures
            copy@ == self@,
    {
        WorktreeInfo {
            path: self.path.clone(),
            head: copy_opt(&self.head),
            branch: copy_opt(&self.branch),
            is_locked: self.is_locked,
            is_prunable: self.is_prunable,
        }
    }
}

/// The values of a list of worktrees.
pub open spec fn worktree_views(list: Seq<WorktreeInfo>) -> Seq<WorktreeView> {
    Seq::new(list.len(), |i: int| list[i]@)
}

/// Pushing a worktree adds its value to the values.
pub proof fn lemma_worktrees_push(list: Seq<WorktreeInfo>, info: WorktreeInfo)
    ensures
        worktree_views(list.push(info)) == worktree_views(list).push(info@),
{
    assert(worktree_views(list.push(info)) =~= worktree_views(list).push(info@));
}

/// One line of a worktree listing: the keyword and what follows the first
/// space.
#[derive(Debug)]
pub struct Field {
    pub key: String,
    pub value: String,
}

/// The mathematical value of a field.
pub struct FieldView {
    pub key: Seq<char>,
    pub value: Seq<char>,
}

impl View for Field {
    type V = FieldView;

    open spec fn view(&self) -> FieldView {
        FieldView { key: self.key@, value: self.value@ }
    }
}

/// The values of a list of fields.
pub open spec fn field_views(list: Seq<Field>) -> Seq<FieldView> {
    Seq::new(list.len(), |i: int| list[i]@)
}

/// The field of a line: split at the first space; a line without a space is
/// all keyword.
pub open spec fn field_of(line: Seq<char>) -> FieldView {
    let k = index_of_from(line, ' ', 0);
    if k >= line.len() {
        FieldView { key: line, value: seq![] }
    } else {
        FieldView { key: line.take(k), value: line.skip(k + 1) }
    }
}

/// The value of the first field at or after `from` with keyword `key`.
pub open spec fn first_value(block: Seq<FieldView>, key: Seq<char>, from: int) -> Option<Seq<char>>
    decreases block.len() - from,
{
    if from < 0 || from >= block.len() {
        None
    } else if block[from].key == key {
        Some(block[from].value)
    } else {
        first_value(block, key, from + 1)
    }
}

/// Whether a block marks a flag: by a field with the flag as keyword, or by
/// an `option` field with the flag as value.
pub open spec fn flag_set(block: Seq<FieldView>, flag: Seq<char>) -> bool {
    exists|i: int| 0 <= i < block.len() && marks(#[trigger] block[i], flag)
}

/// Whether a field marks a flag.
pub open spec fn marks(field: FieldView, flag: Seq<char>) -> bool {
    field.key == flag || (field.key == "option"@ && field.value == flag)
}

/// A branch reference without the prefix of local branches.
pub open spec fn short_branch(reference: Seq<char>) -> Seq<char> {
    if starts_with(reference, "refs/heads/"@) {
        reference.skip("refs/heads/"@.len() as int)
    } else {
        reference
    }
}

/// The worktree a block of fields describes; none for a block without a
/// `worktree` field. A relative path is taken from the repository root.
pub open spec fn finalized(block: Seq<FieldView>, repo_root: Seq<char>) -> Option<WorktreeView> {
    match first_value(block, "worktree"@, 0) {
        None => None,
        Some(path) => Some(
            WorktreeView {
                path: if is_absolute(path) {
                    path
                } else {
                    joined(repo_root, path)
                },
                head: first_value(block, "HEAD"@, 0),
                branch: match first_value(block, "branch"@, 0) {
                    Some(reference) => Some(short_branch(reference)),
                    None => None,
                },
                is_locked: flag_set(block, "locked"@),
                is_prunable: flag_set(block, "prunable"@),
            },
        ),
    }
}

/// The state of reading a listing: the worktrees found and the fields of the
/// block being read.
pub struct Listing {
    pub done: Seq<WorktreeView>,
    pub block: Seq<FieldView>,
}

/// The listing after one more line: a blank line closes the block, any other
/// line adds its field to it.
pub open spec fn listing_step(state: Listing, line: Seq<char>, repo_root: Seq<char>) -> Listing {
    if trim(line).len() == 0 {
        Listing {
            done: match finalized(state.block, repo_root) {
                Some(worktree) => state.done.push(worktree),
                None => state.done,
            },
            block: seq![],
        }
    } else {
        Listing { done: state.done, block: state.block.push(field_of(line)) }
    }
}

/// The listing after the first `n` lines.
pub open spec fn listing_upto(all: Seq<Seq<char>>, repo_root: Seq<char>, n: int) -> Listing
    decreases n,
{
    if n <= 0 {
        Listing { done: seq![], block: seq![] }
    } else {
        listing_step(listing_upto(all, repo_root, n - 1), all[n - 1], repo_root)
    }
}

/// The worktrees that the porcelain listing `output` describes, in order.
/// The end of the text closes the last block.
pub open spec fn parsed_worktrees(output: Seq<char>, repo_root: Seq<char>) -> Seq<WorktreeView> {
    let all = lines(output);
    listing_step(listing_upto(all, repo_root, all.len() as int), seq![], repo_root).done
}

/// The value of the first field with keyword `key`.
fn value_of(block: &Vec<Field>, key: &str) -> (value: Option<String>)
    ensures
        opt_text(value) == first_value(field_views(block@), key@, 0),
{
    let mut i: usize = 0;
    while i < block.len()
        invariant
            i <= block.len(),
            first_value(field_views(block@), key@, 0) == first_value(
                field_views(block@),
                key@,
                i as int,
            ),
        decreases block.len() - i,
    {
        if same_text(block[i].key.as_str(), key) {
            return Some(block[i].value.clone());
        }
        i += 1;
    }
    None
}

/// Whether a block marks the flag `flag`.
pub fn is_flag_set(block: &Vec<Field>, flag: &str) -> (set: bool)
    ensures
        set == flag_set(field_views(block@), flag@),
{
    let mut i: usize = 0;
    while i < block.len()
        invariant
            i <= block.len(),
            forall|j: int| 0 <= j < i ==> !marks(#[trigger] field_views(block@)[j], flag@),
        decreases block.len() - i,
    {
        let field = &block[i];
        assert(field_views(block@)[i as int] == field@);
        if same_text(field.key.as_str(), flag) || (same_text(field.key.as_str(), "option")
            && same_text(field.value.as_str(), flag)) {
            assert(marks(field_views(block@)[i as int], flag@));
            return true;
        }
        i += 1;
    }
    false
}

/// The worktree that a block of fields describes.
pub fn finalize_worktree(block: &Vec<Field>, repo_root: &str) -> (info: Option<WorktreeInfo>)
    ensures
        info is Some == finalized(field_views(block@), repo_root@) is Some,
        info is Some ==> info->0@ == finalized(field_views(block@), repo_root@)->0,
{
    let path = match value_of(block, "worktree") {
        Some(path) => path,
        None => {
            return None;
        },
    };
    let branch = match value_of(block, "branch") {
        Some(reference) => {
            let chars = chars_of(reference.as_str());
            let prefix = chars_of("refs/heads/");
            if matches_at(&chars, &prefix, 0) {
                Some(string_of_range(&chars, prefix.len(), chars.len()))
            } else {
                Some(reference)
            }
        },
        None => None,
    };
    let path = if path_is_absolute(path.as_str()) {
        path
    } else {
        join(repo_root, path.as_str())
    };
    Some(
        WorktreeInfo {
            path,
            head: value_of(block, "HEAD"),
            branch,
            is_locked: is_flag_set(block, "locked"),
            is_prunable: is_flag_set(block, "prunable"),
        },
    )
}

/// The field of a line.
fn split_field(line: &str) -> (field: Field)
    ensures
        field@ == field_of(line@),
{
    let chars = chars_of(line);
    let k = find_char(&chars, ' ', 0);
    if k >= chars.len() {
        assert(chars@.subrange(0, chars.len() as int) == chars@);
        Field { key: string_of_range(&chars, 0, chars.len()), value: String::new() }
    } else {
        Field {
            key: string_of_range(&chars, 0, k),
            value: string_of_range(&chars, k + 1, chars.len()),
        }
    }
}

/// Reads the porcelain listing of the worktrees: blocks of `keyword value`
/// lines, closed by a blank line or the end of the text. A block without a
/// `worktree` line gives nothing.
pub fn parse_worktree_list(output: &str, repo_root: &str) -> (worktrees: Vec<WorktreeInfo>)
    ensures
        worktree_views(worktrees@) == parsed_worktrees(output@, repo_root@),
{
    let all = lines_of(output);
    let mut worktrees: Vec<WorktreeInfo> = Vec::new();
    let mut block: Vec<Field> = Vec::new();
    let mut i: usize = 0;
    assert(worktree_views(worktrees@) =~= Seq::<WorktreeView>::empty());
    assert(field_views(block@) =~= Seq::<FieldView>::empty());
    while i < all.len()
        invariant
            i <= all.len(),
            texts(all@) == lines(output@),
            worktree_views(worktrees@) == listing_upto(texts(all@), repo_root@, i as int).done,
            field_views(block@) == listing_upto(texts(all@), repo_root@, i as int).block,
        decreases all.len() - i,
    {
        let line = &all[i];
        assert(texts(all@)[i as int] == line@);
        if is_blank(line.as_str()) {
            match finalize_worktree(&block, repo_root) {
                Some(info) => {
                    proof {
                        lemma_worktrees_push(worktrees@, info);
                    }
                    worktrees.push(info);
                },
                None => {},
            }
            block = Vec::new();
            assert(field_views(block@) =~= Seq::<FieldView>::empty());
        } else {
            let field = split_field(line.as_str());
            assert(field_views(block@.push(field)) =~= field_views(block@).push(field@));
            block.push(field);
        }
        i += 1;
    }
    assert(trim(Seq::<char>::empty()).len() == 0);
    match finalize_worktree(&block, repo_root) {
        Some(info) => {
            proof {
                lemma_worktrees_push(worktrees@, info);
            }
            worktrees.push(info);
        },
        None => {},
    }
    worktrees
}

/// What a run of git gave: its standard output if it succeeded, else the
/// message `git command failed: ` with its trimmed standard error.
pub fn run_git(success: bool, stdout: String, stderr: &str) -> (out: Result<String, String>)
    ensures
        success ==> out is Ok && out->Ok_0 == stdout,
        !success ==> out is Err && out->Err_0@ == "git command failed: "@ + trim(stderr@),
{
    if success {
        Ok(stdout)
    } else {
        let reason = trimmed(stderr);
        Err(concat2("git command failed: ", reason.as_str()))
    }
}

/// The root of the repository from what `git rev-parse --show-toplevel`
/// gave: the trimmed output, which must not be empty.
pub fn find_repo_root(outcome: Result<String, String>) -> (root: Result<String, String>)
    ensures
        outcome is Err ==> root is Err && root->Err_0 == outcome->Err_0,
        outcome is Ok && trim(outcome->Ok_0@).len() == 0 ==> root is Err && root->Err_0@
            == "git rev-parse returned an empty path"@,
        outcome is Ok && trim(outcome->Ok_0@).len() > 0 ==> root is Ok && root->Ok_0@ == trim(
            outcome->Ok_0@,
        ),
{
    match outcome {
        Err(error) => Err(error),
        Ok(output) => {
            let repo = trimmed(output.as_str());
            if repo.as_str().unicode_len() == 0 {
                Err("git rev-parse returned an empty path".to_owned())
            } else {
                Ok(repo)
            }
        },
    }
}

/// The worktrees from what `git worktree list --porcelain` gave.
pub fn list_worktrees(outcome: Result<String, String>, repo_root: &str) -> (list: Result<
    Vec<WorktreeInfo>,
    String,
>)
    ensures
        outcome is Err ==> list is Err && list->Err_0 == outcome->Err_0,
        outcome is Ok ==> list is Ok && worktree_views(list->Ok_0@) == parsed_worktrees(
            outcome->Ok_0@,
            repo_root@,
        ),
{
    match outcome {
        Err(error) => Err(error),
        Ok(output) => Ok(parse_worktree_list(output.as_str(), repo_root)),
    }
}

/// The arguments of the git command that makes a worktree.
pub open spec fn add_arguments(path: Seq<char>, branch: Option<Seq<char>>) -> Seq<Seq<char>> {
    seq!["worktree"@, "add"@] + (match branch {
        Some(name) => seq!["-b"@, name],
        None => seq![],
    }) + seq![path]
}

/// The arguments of the git command that removes a worktree.
pub open spec fn remove_arguments(path: Seq<char>, force: bool) -> Seq<Seq<char>> {
    seq!["worktree"@, "remove"@] + (if force {
        seq!["--force"@]
    } else {
        seq![]
    }) + seq![path]
}

/// The arguments to run git with to make a worktree at `path`, on a new
/// branch if one is named.
pub fn add_worktree(path: &str, branch: Option<&str>) -> (args: Vec<String>)
    ensures
        texts(args@) == add_arguments(
            path@,
            match branch {
                Some(name) => Some(name@),
                None => None,
            },
        ),
{
    let mut args: Vec<String> = Vec::new();
    args.push("worktree".to_owned());
    args.push("add".to_owned());
    match branch {
        Some(name) => {
            args.push("-b".to_owned());
            args.push(name.to_owned());
        },
        None => {},
    }
    args.push(path.to_owned());
    assert(texts(args@) =~= add_arguments(
        path@,
        match branch {
            Some(name) => Some(name@),
            None => None,
        },
    ));
    args
}

/// The arguments to run git with to remove the worktree at `path`.
pub fn remove_worktree(path: &str, force: bool) -> (args: Vec<String>)
    ensures
        texts(args@) == remove_arguments(path@, force),
{
    let mut args: Vec<String> = Vec::new();
    args.push("worktree".to_owned());
    args.push("remove".to_owned());
    if force {
        args.push("--force".to_owned());
    }
    args.push(path.to_owned());
    assert(texts(args@) =~= remove_arguments(path@, force));
    args
}

} // verus!
