//! The argument lists of the three git commands that a run issues. Running
//! them is the caller's part.

use vstd::prelude::*;
use vstd::string::*;
use crate::cli::texts;

verus! {

/// The remote whose branch a run follows.
pub open spec fn remote_name() -> Seq<char> {
    "origin"@
}

/// The name of a branch as the remote has it: remote, a slash, branch.
pub open spec fn tracking_branch(remote: Seq<char>, branch: Seq<char>) -> Seq<char> {
    remote + "/"@ + branch
}

/// The full name of a local branch.
pub open spec fn branch_ref(branch: Seq<char>) -> Seq<char> {
    "refs/heads/"@ + branch
}

/// The arguments that ask git whether the working directory lies in a
/// repository.
pub open spec fn rev_parse_command() -> Seq<Seq<char>> {
    seq!["rev-parse"@]
}

/// The arguments that ask git for the newest revision of a remote's branch.
pub open spec fn rev_list_command(remote: Seq<char>, branch: Seq<char>) -> Seq<Seq<char>> {
    seq!["rev-list"@, "--max-count=1"@, tracking_branch(remote, branch)]
}

/// The arguments that make git point a local branch at a revision.
pub open spec fn update_ref_command(branch: Seq<char>, revision: Seq<char>) -> Seq<Seq<char>> {
    seq!["update-ref"@, branch_ref(branch), revision]
}

/// The arguments of the repository check.
pub fn rev_parse_args() -> (args: Vec<String>)
    ensures
        texts(args@) == rev_parse_command(),
{
    let mut args: Vec<String> = Vec::new();
    args.push(String::from_str("rev-parse"));
    assert(texts(args@) =~= rev_parse_command());
    args
}

/// The arguments of the revision lookup for `branch` on `remote`. Neither
/// name is checked or changed.
pub fn rev_list_args(remote: &str, branch: &str) -> (args: Vec<String>)
    ensures
        texts(args@) == rev_list_command(remote@, branch@),
{
    let mut target = String::from_str(remote);
    target.append("/");
    target.append(branch);
    let mut args: Vec<String> = Vec::new();
    args.push(String::from_str("rev-list"));
    args.push(String::from_str("--max-count=1"));
    args.push(target);
    assert(texts(args@) =~= rev_list_command(remote@, branch@));
    args
}

/// The arguments of the update that points the local `branch` at `revision`.
/// The revision is handed on as it was read, a trailing newline included.
pub fn update_ref_args(branch: &str, revision: &str) -> (args: Vec<String>)
    ensures
        texts(args@) == update_ref_command(branch@, revision@),
{
    let mut reference = String::from_str("refs/heads/");
    reference.append(branch);
    let mut args: Vec<String> = Vec::new();
    args.push(String::from_str("update-ref"));
    args.push(reference);
    args.push(String::from_str(revision));
    assert(texts(args@) =~= update_ref_command(branch@, revision@));
    args
}

} // verus!
