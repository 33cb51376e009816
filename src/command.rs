//! The git commands that the browser issues, and the errors it reports.

use vstd::prelude::*;
use vstd::string::*;
use crate::branch::{LocalBranch, RemoteBranch, LocalModel, ParseError, ParseErrorKind};
use crate::tab::{Tab, string_views};
use crate::text::chars_of;

verus! {

/// What a command's result is for, so that its outcome can be dispatched.
#[derive(Clone, Copy, PartialEq, Eq, Debug, Structural)]
pub enum CommandTag {
    ListLocalBranches,
    ListRemoteBranches,
    Switch,
    Create,
    Delete,
    Fetch,
    TrackRemote,
}

/// A git invocation: the arguments after `git`, and its tag.
#[derive(Clone, Debug)]
pub struct GitCommand {
    pub args: Vec<String>,
    pub tag: CommandTag,
}

pub struct CommandModel {
    pub args: Seq<Seq<char>>,
    pub tag: CommandTag,
}

impl View for GitCommand {
    type V = CommandModel;

    open spec fn view(&self) -> CommandModel {
        CommandModel { args: string_views(self.args@), tag: self.tag }
    }
}

/// An action refused before any command is issued.
#[derive(Clone, Copy, PartialEq, Eq, Debug, Structural)]
pub enum ActionError {
    /// No record is selected.
    NoSelection,
    /// The branch tracks no upstream branch.
    NoUpstream,
    /// The upstream name has no `/` between remote and branch.
    InvalidUpstream,
}

impl ActionError {
    pub open spec fn text(self) -> Seq<char> {
        match self {
            ActionError::NoSelection => "No branch selected"@,
            ActionError::NoUpstream => "Local branch does not track any remote branch"@,
            ActionError::InvalidUpstream => "Invalid upstream"@,
        }
    }

    pub fn message(&self) -> (r: String)
        ensures
            r@ == self.text(),
    {
        match self {
            ActionError::NoSelection => String::from_str("No branch selected"),
            ActionError::NoUpstream => String::from_str(
                "Local branch does not track any remote branch",
            ),
            ActionError::InvalidUpstream => String::from_str("Invalid upstream"),
        }
    }
}

impl ParseError {
    pub open spec fn text(self) -> Seq<char> {
        match self.kind {
            ParseErrorKind::Name => "Failed to parse branch line: expected a branch name"@,
            ParseErrorKind::CommitSha => "Failed to parse branch line: expected a commit sha"@,
            ParseErrorKind::LineEnding => "Failed to parse branch line: unexpected carriage return"@,
            ParseErrorKind::Reference => "Failed to parse branch line: expected a commit or a `->` pointer"@,
            ParseErrorKind::Upstream => "Failed to parse branch line: expected a closing `]`"@,
        }
    }

    pub fn message(&self) -> (r: String)
        ensures
            r@ == self.text(),
    {
        match self.kind {
            ParseErrorKind::Name => String::from_str(
                "Failed to parse branch line: expected a branch name",
            ),
            ParseErrorKind::CommitSha => String::from_str(
                "Failed to parse branch line: expected a commit sha",
            ),
            ParseErrorKind::LineEnding => String::from_str(
                "Failed to parse branch line: unexpected carriage return",
            ),
            ParseErrorKind::Reference => String::from_str(
                "Failed to parse branch line: expected a commit or a `->` pointer",
            ),
            ParseErrorKind::Upstream => String::from_str(
                "Failed to parse branch line: expected a closing `]`",
            ),
        }
    }
}

fn arg(s: &str) -> (r: String)
    ensures
        r@ == s@,
{
    String::from_str(s)
}

fn command2(a: &str, b: &str, tag: CommandTag) -> (r: GitCommand)
    ensures
        r@.args == seq![a@, b@],
        r.tag == tag,
{
    let mut args: Vec<String> = Vec::new();
    args.push(arg(a));
    args.push(arg(b));
    assert(string_views(args@) =~= seq![a@, b@]);
    GitCommand { args, tag }
}

fn command3(a: &str, b: &str, c: &str, tag: CommandTag) -> (r: GitCommand)
    ensures
        r@.args == seq![a@, b@, c@],
        r.tag == tag,
{
    let mut args: Vec<String> = Vec::new();
    args.push(arg(a));
    args.push(arg(b));
    args.push(arg(c));
    assert(string_views(args@) =~= seq![a@, b@, c@]);
    GitCommand { args, tag }
}

pub fn list_local_branches() -> (r: GitCommand)
    ensures
        r@.args == seq!["branch"@, "-vv"@],
        r.tag == CommandTag::ListLocalBranches,
{
    command2("branch", "-vv", CommandTag::ListLocalBranches)
}

pub fn list_remote_branches() -> (r: GitCommand)
    ensures
        r@.args == seq!["branch"@, "-r"@, "-v"@],
        r.tag == CommandTag::ListRemoteBranches,
{
    command3("branch", "-r", "-v", CommandTag::ListRemoteBranches)
}

pub fn switch_to_branch(branch: &LocalBranch) -> (r: GitCommand)
    ensures
        r@.args == seq!["switch"@, branch.name@],
        r.tag == CommandTag::Switch,
{
    command2("switch", branch.name.as_str(), CommandTag::Switch)
}

pub fn switch_to_previous_branch() -> (r: GitCommand)
    ensures
        r@.args == seq!["switch"@, "-"@],
        r.tag == CommandTag::Switch,
{
    command2("switch", "-", CommandTag::Switch)
}

pub open spec fn delete_flag(force_delete: bool) -> Seq<char> {
    if force_delete {
        "-D"@
    } else {
        "-d"@
    }
}

pub fn delete_branch(branch_name: &str, force_delete: bool) -> (r: GitCommand)
    ensures
        r@.args == seq!["branch"@, delete_flag(force_delete), branch_name@],
        r.tag == CommandTag::Delete,
{
    command3("branch", if force_delete { "-D" } else { "-d" }, branch_name, CommandTag::Delete)
}

pub fn track_remote_branch(remote_branch: &RemoteBranch) -> (r: GitCommand)
    ensures
        r@.args == seq!["checkout"@, "--track"@, remote_branch.name@],
        r.tag == CommandTag::TrackRemote,
{
    command3("checkout", "--track", remote_branch.name.as_str(), CommandTag::TrackRemote)
}

impl Tab<LocalBranch> {
    /// Creates a branch named by the query and checks it out.
    pub fn create_branch(&self) -> (r: GitCommand)
        ensures
            r@.args == seq!["checkout"@, "-b"@, self.input@],
            r.tag == CommandTag::Create,
    {
        command3("checkout", "-b", self.input.as_str(), CommandTag::Create)
    }
}

/// The first position of `c` in `s` at or after `i`, or the length.
pub open spec fn index_from(s: Seq<char>, c: char, i: int) -> int
    decreases s.len() - i,
{
    if i < 0 || i >= s.len() {
        s.len() as int
    } else if s[i] == c {
        i
    } else {
        index_from(s, c, i + 1)
    }
}

pub open spec fn index_of(s: Seq<char>, c: char) -> int {
    index_from(s, c, 0)
}

/// The arguments that fetch a branch's upstream into it: the upstream name
/// is split at its first `/` into remote and remote branch, and the remote
/// branch is cut at its first `:`.
pub open spec fn fetch_args(b: LocalModel) -> Result<Seq<Seq<char>>, ActionError> {
    match b.upstream {
        None => Err(ActionError::NoUpstream),
        Some(u) => {
            let k = index_of(u.name, '/');
            if k >= u.name.len() {
                Err(ActionError::InvalidUpstream)
            } else {
                let remote_ref = u.name.subrange(k + 1, u.name.len() as int);
                let j = index_of(remote_ref, ':');
                Ok(
                    seq![
                        "fetch"@,
                        u.name.subrange(0, k),
                        remote_ref.subrange(0, j) + seq![':'] + b.name,
                    ],
                )
            }
        },
    }
}

fn find_char(s: &str, c: char) -> (r: usize)
    ensures
        r == index_of(s@, c),
        r <= s@.len(),
{
    let chars = chars_of(s);
    let n = chars.len();
    let mut i: usize = 0;
    while i < n && chars[i] != c
        invariant
            chars@ == s@,
            n == s@.len(),
            i <= n,
            index_of(s@, c) == index_from(s@, c, i as int),
        decreases n - i,
    {
        i = i + 1;
    }
    i
}

/// Fetches the upstream of `branch` into it.
pub fn fetch(branch: &LocalBranch) -> (r: Result<GitCommand, ActionError>)
    ensures
        match (r, fetch_args(branch@)) {
            (Ok(c), Ok(a)) => c@.args == a && c.tag == CommandTag::Fetch,
            (Err(e), Err(f)) => e == f,
            _ => false,
        },
{
    match &branch.upstream_info {
        None => Err(ActionError::NoUpstream),
        Some(upstream_info) => {
            let name = upstream_info.name.as_str();
            let n = name.unicode_len();
            let k = find_char(name, '/');
            if k >= n {
                return Err(ActionError::InvalidUpstream);
            }
            let remote = name.substring_char(0, k);
            let remote_ref = name.substring_char(k + 1, n);
            let j = find_char(remote_ref, ':');
            let mut refspec = remote_ref.substring_char(0, j).to_owned();
            refspec.append(":");
            refspec.append(branch.name.as_str());
            proof {
                reveal_strlit(":");
            }
            let mut args: Vec<String> = Vec::new();
            args.push(arg("fetch"));
            args.push(remote.to_owned());
            args.push(refspec);
            proof {
                let u = branch@.upstream->0;
                assert(u.name == name@);
                assert(remote_ref@ == u.name.subrange(k + 1, u.name.len() as int));
                assert(refspec@ == remote_ref@.subrange(0, j as int) + seq![':'] + branch.name@);
                assert(string_views(args@)[0] == "fetch"@);
                assert(string_views(args@)[1] == u.name.subrange(0, k as int));
                assert(string_views(args@)[2] == refspec@);
            }
            assert(string_views(args@) =~= fetch_args(branch@)->Ok_0);
            Ok(GitCommand { args, tag: CommandTag::Fetch })
        },
    }
}

} // verus!
