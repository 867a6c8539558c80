//! The git invocations that clone the repository and carry a batch to the
//! remote. Each is run, in order, by the host process; any failure is fatal.
use vstd::prelude::*;

verus! {

/// One invocation of `git` with these arguments, run in the worktree when
/// `in_worktree` holds, else in the current directory.
pub struct GitCommand {
    pub args: Vec<String>,
    pub in_worktree: bool,
}

pub open spec fn args_view(c: GitCommand) -> Seq<Seq<char>> {
    c.args@.map_values(|s: String| s@)
}

fn command(words: &[&str], in_worktree: bool) -> (r: GitCommand)
    ensures
        args_view(r) == words@.map_values(|w: &str| w@),
        r.in_worktree == in_worktree,
{
    let mut args: Vec<String> = Vec::new();
    let mut i: usize = 0;
    while i < words.len()
        invariant
            i <= words@.len(),
            args@.map_values(|s: String| s@) == words@.subrange(0, i as int).map_values(
                |w: &str| w@,
            ),
        decreases words@.len() - i,
    {
        let next: &str = words[i];
        let word = next.to_owned();
        let ghost before = args@;
        args.push(word);
        proof {
            assert(args@ =~= before.push(word));
            assert(words@.subrange(0, i + 1) =~= words@.subrange(0, i as int).push(words@[i as int]));
            assert(args@.map_values(|s: String| s@) =~= before.map_values(|s: String| s@).push(
                word@,
            ));
            assert(words@.subrange(0, i + 1).map_values(|w: &str| w@) =~= words@.subrange(
                0,
                i as int,
            ).map_values(|w: &str| w@).push(words@[i as int]@));
        }
        i = i + 1;
        assert(args@.map_values(|s: String| s@) =~= words@.subrange(0, i as int).map_values(
            |w: &str| w@,
        ));
    }
    assert(words@.subrange(0, i as int) =~= words@);
    GitCommand { args, in_worktree }
}

/// The commands that make a shallow clone of `branch` of `repo_url` into
/// `worktree` and set the commit identity to `user`.
pub fn git_clone(repo_url: &str, branch: &str, worktree: &str, user: &str) -> (r: Vec<GitCommand>)
    ensures
        r@.len() == 3,
        args_view(r@[0]) == seq![
            "clone"@,
            "--depth"@,
            "1"@,
            "--branch"@,
            branch@,
            repo_url@,
            worktree@,
        ],
        !r@[0].in_worktree,
        args_view(r@[1]) == seq!["config"@, "user.email"@, user@],
        r@[1].in_worktree,
        args_view(r@[2]) == seq!["config"@, "user.name"@, user@],
        r@[2].in_worktree,
{
    let clone = command(&["clone", "--depth", "1", "--branch", branch, repo_url, worktree], false);
    let email = command(&["config", "user.email", user], true);
    let name = command(&["config", "user.name", user], true);
    assert(args_view(clone) =~= seq![
        "clone"@,
        "--depth"@,
        "1"@,
        "--branch"@,
        branch@,
        repo_url@,
        worktree@,
    ]);
    assert(args_view(email) =~= seq!["config"@, "user.email"@, user@]);
    assert(args_view(name) =~= seq!["config"@, "user.name"@, user@]);
    vec![clone, email, name]
}

/// The command that brings the remote's changes into the worktree.
pub fn pull_commands() -> (r: Vec<GitCommand>)
    ensures
        r@.len() == 1,
        args_view(r@[0]) == seq!["pull"@],
        r@[0].in_worktree,
{
    let pull = command(&["pull"], true);
    assert(args_view(pull) =~= seq!["pull"@]);
    vec![pull]
}

/// The commands that stage every change, commit it with a fixed message and
/// push it.
pub fn push_commands() -> (r: Vec<GitCommand>)
    ensures
        r@.len() == 3,
        args_view(r@[0]) == seq!["add"@, "."@],
        args_view(r@[1]) == seq!["commit"@, "-m"@, "Sync updates"@],
        args_view(r@[2]) == seq!["push"@],
        r@[0].in_worktree && r@[1].in_worktree && r@[2].in_worktree,
{
    let add = command(&["add", "."], true);
    let commit = command(&["commit", "-m", "Sync updates"], true);
    let push = command(&["push"], true);
    assert(args_view(add) =~= seq!["add"@, "."@]);
    assert(args_view(commit) =~= seq!["commit"@, "-m"@, "Sync updates"@]);
    assert(args_view(push) =~= seq!["push"@]);
    vec![add, commit, push]
}

} // verus!
