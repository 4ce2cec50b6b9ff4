//! Decisions of the repository management operations that surround the
//! protocol: listing, creation, deletion and inspection.

use vstd::prelude::*;
use crate::exchange::GitCommand;
use crate::locator::{is_safe_repo_name, repo_path_spec, AppState};
use crate::models::RepoInfo;
use crate::reply::{failure, failure_view, Reply, ReplyView};
use crate::service::ErrorKind;

verus! {

/// What probing one entry of the repository root found.
#[derive(Debug)]
pub struct EntryFacts {
    /// The entry's name, where it is valid UTF-8.
    pub name: Option<String>,
    pub is_dir: bool,
    pub has_marker: bool,
}

/// The names of the entries that are repositories, in the order found.
pub open spec fn listed_names(entries: Seq<EntryFacts>) -> Seq<Seq<char>>
    decreases entries.len(),
{
    if entries.len() == 0 {
        Seq::empty()
    } else {
        let e = entries.last();
        let rest = listed_names(entries.drop_last());
        if e.is_dir && e.has_marker && e.name is Some {
            rest.push(e.name->Some_0@)
        } else {
            rest
        }
    }
}

/// Lists the entries that are directories holding the root marker.
pub fn collect_repos(entries: Vec<EntryFacts>) -> (r: Vec<RepoInfo>)
    ensures
        r@.map_values(|i: RepoInfo| i.name@) == listed_names(entries@),
{
    let ghost all = entries@;
    let mut out: Vec<RepoInfo> = Vec::new();
    let mut rest = entries;
    let n = rest.len();
    let mut i: usize = 0;
    while i < n
        invariant
            n == all.len(),
            i <= n,
            rest@ == all.subrange(i as int, n as int),
            out@.map_values(|x: RepoInfo| x.name@) == listed_names(all.subrange(0, i as int)),
        decreases n - i,
    {
        let e = rest.remove(0);
        assert(e == all[i as int]);
        assert(all.subrange(0, i + 1).drop_last() =~= all.subrange(0, i as int));
        assert(all.subrange(0, i + 1).last() == e);
        if e.is_dir && e.has_marker {
            match e.name {
                Some(name) => {
                    out.push(RepoInfo { name });
                    assert(out@.map_values(|x: RepoInfo| x.name@) =~= listed_names(
                        all.subrange(0, i as int),
                    ).push(e.name->Some_0@));
                },
                None => {},
            }
        }
        i = i + 1;
    }
    assert(all.subrange(0, n as int) =~= all);
    out
}

/// `init --bare <path>`
pub open spec fn init_args(path: Seq<char>) -> Seq<Seq<char>> {
    seq!["init"@, "--bare"@, path]
}

/// The command that creates a bare repository at `path`.
pub fn init_command(path: &String) -> (r: GitCommand)
    ensures
        r@ == init_args(path@),
{
    let mut args: Vec<String> = Vec::new();
    args.push(String::from_str("init"));
    args.push(String::from_str("--bare"));
    args.push(path.clone());
    let r = GitCommand { args };
    assert(r@ =~= init_args(path@));
    r
}

/// The reply to a creation request that names no repository.
pub open spec fn name_required_view() -> ReplyView {
    ReplyView::Plain { status: 400, message: "Repository name is required"@ }
}

impl AppState {
    /// Where a repository named `name` is to be created. A missing name is
    /// answered with its own message; an unsafe one is a client error.
    pub fn creation_target(&self, name: Option<&str>) -> (r: Result<String, Reply>)
        ensures
            (name matches Some(n) && is_safe_repo_name(n@)) ==> (r matches Ok(p) && p@
                == repo_path_spec(self.git_root@, name->Some_0@)),
            (name matches Some(n) && !is_safe_repo_name(n@)) ==> (r matches Err(e) && e@
                == failure_view(ErrorKind::Client)),
            name is None ==> (r matches Err(e) && e@ == name_required_view()),
    {
        match name {
            Some(n) => match self.repo_path(n) {
                Some(p) => Ok(p),
                None => Err(failure(ErrorKind::Client)),
            },
            None => Err(
                Reply::Plain { status: 400, message: String::from_str("Repository name is required") },
            ),
        }
    }
}

/// Whether a repository may be created where something `exists` or not:
/// an existing path is a conflict.
pub fn creation_gate(exists: bool) -> (r: Result<(), Reply>)
    ensures
        exists ==> (r matches Err(e) && e@ == failure_view(ErrorKind::Conflict)),
        !exists ==> r is Ok,
{
    if exists {
        Err(failure(ErrorKind::Conflict))
    } else {
        Ok(())
    }
}

/// Whether a repository may be deleted: it must exist.
pub fn deletion_gate(exists: bool) -> (r: Result<(), Reply>)
    ensures
        !exists ==> (r matches Err(e) && e@ == failure_view(ErrorKind::NotFound)),
        exists ==> r is Ok,
{
    if !exists {
        Err(failure(ErrorKind::NotFound))
    } else {
        Ok(())
    }
}

/// The reply to inspecting a path that is not a repository.
pub open spec fn not_a_repository_view() -> ReplyView {
    ReplyView::Plain { status: 400, message: "Not a valid Git repository"@ }
}

/// Whether a repository can be inspected: it must exist, and hold its root
/// marker to be a repository at all.
pub fn inspection_gate(exists: bool, has_marker: bool) -> (r: Result<(), Reply>)
    ensures
        !exists ==> (r matches Err(e) && e@ == failure_view(ErrorKind::NotFound)),
        exists && !has_marker ==> (r matches Err(e) && e@ == not_a_repository_view()),
        exists && has_marker ==> r is Ok,
{
    if !exists {
        Err(failure(ErrorKind::NotFound))
    } else if !has_marker {
        Err(Reply::Plain { status: 400, message: String::from_str("Not a valid Git repository") })
    } else {
        Ok(())
    }
}

/// `--git-dir <path> log -1 --format=%cd --date=format:%Y-%m-%d`
pub open spec fn last_commit_args(path: Seq<char>) -> Seq<Seq<char>> {
    seq!["--git-dir"@, path, "log"@, "-1"@, "--format=%cd"@, "--date=format:%Y-%m-%d"@]
}

/// `--git-dir <path> branch --list`
pub open spec fn branches_args(path: Seq<char>) -> Seq<Seq<char>> {
    seq!["--git-dir"@, path, "branch"@, "--list"@]
}

/// `--git-dir <path> rev-list --count --all`
pub open spec fn commit_count_args(path: Seq<char>) -> Seq<Seq<char>> {
    seq!["--git-dir"@, path, "rev-list"@, "--count"@, "--all"@]
}

/// The command that prints the day of the last commit.
pub fn last_commit_command(path: &String) -> (r: GitCommand)
    ensures
        r@ == last_commit_args(path@),
{
    let mut args: Vec<String> = Vec::new();
    args.push(String::from_str("--git-dir"));
    args.push(path.clone());
    args.push(String::from_str("log"));
    args.push(String::from_str("-1"));
    args.push(String::from_str("--format=%cd"));
    args.push(String::from_str("--date=format:%Y-%m-%d"));
    let r = GitCommand { args };
    assert(r@ =~= last_commit_args(path@));
    r
}

/// The command that lists the branches, one per line.
pub fn branches_command(path: &String) -> (r: GitCommand)
    ensures
        r@ == branches_args(path@),
{
    let mut args: Vec<String> = Vec::new();
    args.push(String::from_str("--git-dir"));
    args.push(path.clone());
    args.push(String::from_str("branch"));
    args.push(String::from_str("--list"));
    let r = GitCommand { args };
    assert(r@ =~= branches_args(path@));
    r
}

/// The command that prints the number of commits.
pub fn commit_count_command(path: &String) -> (r: GitCommand)
    ensures
        r@ == commit_count_args(path@),
{
    let mut args: Vec<String> = Vec::new();
    args.push(String::from_str("--git-dir"));
    args.push(path.clone());
    args.push(String::from_str("rev-list"));
    args.push(String::from_str("--count"));
    args.push(String::from_str("--all"));
    let r = GitCommand { args };
    assert(r@ =~= commit_count_args(path@));
    r
}

} // verus!
