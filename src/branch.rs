//! Branch records and the grammar of the two `git branch` listings.

use vstd::prelude::*;
use crate::text::{CharClass, run_end, skip_blank, lemma_run_end, scan_run, chars_of};

verus! {

/// What a branch listing says of an upstream branch: its name, and the
/// free-form relationship text (`ahead 1, behind 2`) when there is one.
#[derive(Clone, Debug)]
pub struct UpstreamInfo {
    pub name: String,
    pub relationship: Option<String>,
}

/// One line of `git branch -vv`.
#[derive(Clone, Debug)]
pub struct LocalBranch {
    pub name: String,
    pub current: bool,
    pub commit_sha: String,
    pub upstream_info: Option<UpstreamInfo>,
    pub commit_message: String,
}

/// What a remote branch refers to: another ref, or a commit.
#[derive(Clone, Debug)]
pub enum RemoteBranchRef {
    Branch(String),
    Commit { sha: String, message: String },
}

/// One line of `git branch -r -v`.
#[derive(Clone, Debug)]
pub struct RemoteBranch {
    pub name: String,
    pub reference: RemoteBranchRef,
}

/// What the list views need of a record: its name, whether it is the
/// branch checked out, and an exact copy of it.
pub trait Branch: Sized {
    spec fn spec_name(&self) -> Seq<char>;

    spec fn spec_current(&self) -> bool;

    fn name(&self) -> (r: &str)
        ensures
            r@ == self.spec_name(),
    ;

    fn is_current(&self) -> (r: bool)
        ensures
            r == self.spec_current(),
    ;

    fn duplicate(&self) -> (r: Self)
        ensures
            r == *self,
    ;
}

/// The part of a line that could not be parsed.
#[derive(Clone, Copy, PartialEq, Eq, Debug, Structural)]
pub enum ParseErrorKind {
    /// No branch name where one was expected.
    Name,
    /// No hexadecimal commit sha where one was expected, or one that runs
    /// into a character other than a blank.
    CommitSha,
    /// A carriage return that does not end the line.
    LineEnding,
    /// Neither a commit nor a `-> ` pointer after a remote branch name.
    Reference,
    /// A `[` that no `]` closes, or that closes on nothing.
    Upstream,
}

/// A line that is not a branch record: what was expected, and the character
/// position at which it was not found.
#[derive(Clone, Copy, PartialEq, Eq, Debug, Structural)]
pub struct ParseError {
    pub kind: ParseErrorKind,
    pub offset: usize,
}

pub struct UpstreamModel {
    pub name: Seq<char>,
    pub relationship: Option<Seq<char>>,
}

pub struct LocalModel {
    pub name: Seq<char>,
    pub current: bool,
    pub commit_sha: Seq<char>,
    pub upstream: Option<UpstreamModel>,
    pub commit_message: Seq<char>,
}

pub enum RefModel {
    Branch(Seq<char>),
    Commit { sha: Seq<char>, message: Seq<char> },
}

pub struct RemoteModel {
    pub name: Seq<char>,
    pub reference: RefModel,
}

impl View for UpstreamInfo {
    type V = UpstreamModel;

    open spec fn view(&self) -> UpstreamModel {
        UpstreamModel {
            name: self.name@,
            relationship: match self.relationship {
                Some(r) => Some(r@),
                None => None,
            },
        }
    }
}

pub open spec fn upstream_view(u: Option<UpstreamInfo>) -> Option<UpstreamModel> {
    match u {
        Some(u) => Some(u@),
        None => None,
    }
}

impl View for LocalBranch {
    type V = LocalModel;

    open spec fn view(&self) -> LocalModel {
        LocalModel {
            name: self.name@,
            current: self.current,
            commit_sha: self.commit_sha@,
            upstream: upstream_view(self.upstream_info),
            commit_message: self.commit_message@,
        }
    }
}

impl View for RemoteBranchRef {
    type V = RefModel;

    open spec fn view(&self) -> RefModel {
        match self {
            RemoteBranchRef::Branch(b) => RefModel::Branch(b@),
            RemoteBranchRef::Commit { sha, message } => RefModel::Commit {
                sha: sha@,
                message: message@,
            },
        }
    }
}

impl View for RemoteBranch {
    type V = RemoteModel;

    open spec fn view(&self) -> RemoteModel {
        RemoteModel { name: self.name@, reference: self.reference@ }
    }
}

// ---------------------------------------------------------------------------
// The grammar, over the characters of a line.
// ---------------------------------------------------------------------------

/// A branch name at `i`, as (start, end, next). Where a `(` opens a run of
/// ASCII letters, digits and whitespace that a `)` closes, the name is that
/// run (without the parentheses); where the run reaches the end of the line,
/// the `(` is never closed and there is no name; else the name is a run of
/// characters other than space and tab.
pub open spec fn name_at(s: Seq<char>, i: int) -> Option<(int, int, int)> {
    let q = run_end(s, i + 1, CharClass::ParenInner);
    let t = run_end(s, i, CharClass::NotSpace);
    let opens = 0 <= i < s.len() && s[i] == '(';
    if opens && q > i + 1 && q < s.len() && s[q] == ')' {
        Some((i + 1, q, q + 1))
    } else if opens && q >= s.len() {
        None
    } else if t > i {
        Some((i, t, t))
    } else {
        None
    }
}

/// The rest of the line from `i` up to a line feed or a `\r\n`; `None`
/// where a carriage return stands that no line feed follows.
pub open spec fn message_at(s: Seq<char>, i: int) -> Option<Seq<char>> {
    let m = run_end(s, i, CharClass::NotLineEnd);
    if m < s.len() && s[m] == '\r' && !(m + 1 < s.len() && s[m + 1] == '\n') {
        None
    } else {
        Some(s.subrange(i, m))
    }
}

/// The first position at or after `i` where `": "` starts, or the length.
pub open spec fn separator_at(s: Seq<char>, i: int) -> int
    decreases s.len() - i,
{
    if i < 0 || i + 1 >= s.len() {
        s.len() as int
    } else if s[i] == ':' && s[i + 1] == ' ' {
        i
    } else {
        separator_at(s, i + 1)
    }
}

/// An upstream descriptor split at its first `": "` into name and
/// relationship.
pub open spec fn upstream_of(d: Seq<char>) -> UpstreamModel {
    let k = separator_at(d, 0);
    if k < d.len() {
        UpstreamModel { name: d.subrange(0, k), relationship: Some(d.subrange(k + 2, d.len() as int)) }
    } else {
        UpstreamModel { name: d, relationship: None }
    }
}

/// The bracketed upstream descriptor at `i`, if one stands there, with the
/// position after it.
pub open spec fn upstream_at(s: Seq<char>, i: int) -> Option<(Seq<char>, int)> {
    let k = run_end(s, i + 1, CharClass::NotCloseBracket);
    if 0 <= i < s.len() && s[i] == '[' && k < s.len() && k > i + 1 {
        Some((s.subrange(i + 1, k), k + 1))
    } else {
        None
    }
}

/// A sha that ends at `h` is followed by a blank or by the end of the line.
pub open spec fn ends_field(s: Seq<char>, h: int) -> bool {
    h >= s.len() || crate::text::is_blank(s[h])
}

pub open spec fn error_at(kind: ParseErrorKind, i: int) -> ParseError {
    ParseError { kind, offset: i as usize }
}

/// A line of the local listing: `[*] <name> <sha> [[<upstream>]] <message>`,
/// the fields separated by blanks.
pub open spec fn parse_local(s: Seq<char>) -> Result<LocalModel, ParseError> {
    let start = skip_blank(s, 0);
    let current = start < s.len() && s[start] == '*';
    let name_pos = skip_blank(s, if current { start + 1 } else { start });
    match name_at(s, name_pos) {
        None => Err(error_at(ParseErrorKind::Name, name_pos)),
        Some((a, b, n)) => {
            let sha_pos = skip_blank(s, n);
            let h = run_end(s, sha_pos, CharClass::Hex);
            let upstream_pos = skip_blank(s, h);
            let opens = upstream_pos < s.len() && s[upstream_pos] == '[';
            if h == sha_pos || !ends_field(s, h) {
                Err(error_at(ParseErrorKind::CommitSha, sha_pos))
            } else if opens && upstream_at(s, upstream_pos) is None {
                Err(error_at(ParseErrorKind::Upstream, upstream_pos))
            } else {
                let (upstream, after_upstream) = match upstream_at(s, upstream_pos) {
                    Some((d, next)) => (Some(upstream_of(d)), next),
                    None => (None, upstream_pos),
                };
                let message_pos = skip_blank(s, after_upstream);
                match message_at(s, message_pos) {
                    None => Err(error_at(ParseErrorKind::LineEnding, run_end(s, message_pos, CharClass::NotLineEnd))),
                    Some(m) => Ok(LocalModel {
                        name: s.subrange(a, b),
                        current,
                        commit_sha: s.subrange(sha_pos, h),
                        upstream,
                        commit_message: m,
                    }),
                }
            }
        }
    }
}

/// The reference of a remote line at `i`: a commit (`<sha> <message>`, the
/// sha a whole field of hexadecimal digits), tried first, or a pointer
/// (`-> <target>`).
pub open spec fn reference_at(s: Seq<char>, i: int) -> Result<RefModel, ParseError> {
    let h = run_end(s, i, CharClass::Hex);
    let commit = if h > i && ends_field(s, h) {
        match message_at(s, skip_blank(s, h)) {
            Some(m) => Some(RefModel::Commit { sha: s.subrange(i, h), message: m }),
            None => None,
        }
    } else {
        None
    };
    match commit {
        Some(r) => Ok(r),
        None => if i + 3 <= s.len() && s[i] == '-' && s[i + 1] == '>' && s[i + 2] == ' ' {
            match message_at(s, i + 3) {
                Some(t) => Ok(RefModel::Branch(t)),
                None => Err(error_at(ParseErrorKind::Reference, i)),
            }
        } else {
            Err(error_at(ParseErrorKind::Reference, i))
        },
    }
}

/// A line of the remote listing: `<name> <sha> <message>` or
/// `<name> -> <target>`.
pub open spec fn parse_remote(s: Seq<char>) -> Result<RemoteModel, ParseError> {
    let start = skip_blank(s, 0);
    match name_at(s, start) {
        None => Err(error_at(ParseErrorKind::Name, start)),
        Some((a, b, n)) => match reference_at(s, skip_blank(s, n)) {
            Ok(r) => Ok(RemoteModel { name: s.subrange(a, b), reference: r }),
            Err(e) => Err(e),
        },
    }
}


// ---------------------------------------------------------------------------
// Parsing.
// ---------------------------------------------------------------------------

fn slice_string(s: &str, from: usize, to: usize) -> (r: String)
    requires
        from <= to <= s@.len(),
    ensures
        r@ == s@.subrange(from as int, to as int),
{
    s.substring_char(from, to).to_owned()
}

/// Whether a current-branch marker `*` stands at `i`.
fn parse_current(chars: &Vec<char>, i: usize) -> (r: bool)
    ensures
        r == (i < chars@.len() && chars@[i as int] == '*'),
{
    i < chars.len() && chars[i] == '*'
}

fn parse_name(chars: &Vec<char>, s: &str, i: usize) -> (r: Option<(String, usize)>)
    requires
        chars@ == s@,
        i <= chars@.len(),
    ensures
        match (r, name_at(s@, i as int)) {
            (Some((name, next)), Some((a, b, n))) => name@ == s@.subrange(a, b) && next == n
                && next <= s@.len(),
            (None, None) => true,
            _ => false,
        },
{
    let n = chars.len();
    if i < n && chars[i] == '(' {
        let q = scan_run(chars, i + 1, CharClass::ParenInner);
        if q > i + 1 && q < n && chars[q] == ')' {
            return Some((slice_string(s, i + 1, q), q + 1));
        }
        if q >= n {
            return None;
        }
    }
    let t = scan_run(chars, i, CharClass::NotSpace);
    if t > i {
        Some((slice_string(s, i, t), t))
    } else {
        None
    }
}

/// The end of the run of hexadecimal digits at `i`.
fn parse_commit_sha(chars: &Vec<char>, i: usize) -> (r: usize)
    requires
        i <= chars@.len(),
    ensures
        r == run_end(chars@, i as int, CharClass::Hex),
        i <= r <= chars@.len(),
{
    scan_run(chars, i, CharClass::Hex)
}

fn parse_commit_message(chars: &Vec<char>, s: &str, i: usize) -> (r: Option<String>)
    requires
        chars@ == s@,
        i <= chars@.len(),
    ensures
        match (r, message_at(s@, i as int)) {
            (Some(m), Some(sm)) => m@ == sm,
            (None, None) => true,
            _ => false,
        },
{
    let n = chars.len();
    let m = scan_run(chars, i, CharClass::NotLineEnd);
    if m < n && chars[m] == '\r' && !(m + 1 < n && chars[m + 1] == '\n') {
        None
    } else {
        Some(slice_string(s, i, m))
    }
}

/// The target of a `-> <target>` pointer at `i`.
fn parse_branch_pointer(chars: &Vec<char>, s: &str, i: usize) -> (r: Option<String>)
    requires
        chars@ == s@,
        i <= chars@.len(),
    ensures
        match r {
            Some(t) => i + 3 <= s@.len() && s@[i as int] == '-' && s@[i + 1] == '>'
                && s@[i + 2] == ' ' && message_at(s@, i + 3) == Some(t@),
            None => !(i + 3 <= s@.len() && s@[i as int] == '-' && s@[i + 1] == '>'
                && s@[i + 2] == ' ' && message_at(s@, i + 3) is Some),
        },
{
    let n = chars.len();
    if i < n && n - i >= 3 && chars[i] == '-' && chars[i + 1] == '>' && chars[i + 2] == ' ' {
        parse_commit_message(chars, s, i + 3)
    } else {
        None
    }
}

fn parse_upstream_branch(chars: &Vec<char>, s: &str, i: usize) -> (r: Option<(String, usize)>)
    requires
        chars@ == s@,
        i <= chars@.len(),
    ensures
        match (r, upstream_at(s@, i as int)) {
            (Some((d, next)), Some((sd, n))) => d@ == sd && next == n && next <= s@.len(),
            (None, None) => true,
            _ => false,
        },
{
    let n = chars.len();
    if i < n && chars[i] == '[' {
        let k = scan_run(chars, i + 1, CharClass::NotCloseBracket);
        if k < n && k > i + 1 {
            return Some((slice_string(s, i + 1, k), k + 1));
        }
    }
    None
}

fn ends_field_at(chars: &Vec<char>, h: usize) -> (r: bool)
    ensures
        r == ends_field(chars@, h as int),
{
    h >= chars.len() || crate::text::char_in_class(CharClass::Blank, chars[h])
}

/// The blanks at `i` skipped.
fn skip_blanks(chars: &Vec<char>, i: usize) -> (r: usize)
    requires
        i <= chars@.len(),
    ensures
        r == skip_blank(chars@, i as int),
        i <= r <= chars@.len(),
{
    scan_run(chars, i, CharClass::Blank)
}

impl UpstreamInfo {
    /// Splits an upstream descriptor (`origin/main: ahead 1`) at its first
    /// `": "`.
    pub fn from_descriptor(d: &str) -> (r: UpstreamInfo)
        ensures
            r@ == upstream_of(d@),
    {
        let chars = chars_of(d);
        let n = chars.len();
        let mut k: usize = 0;
        while k < n && n - k > 1 && !(chars[k] == ':' && chars[k + 1] == ' ')
            invariant
                chars@ == d@,
                n == chars@.len(),
                k <= n,
                separator_at(d@, 0) == separator_at(d@, k as int),
            decreases n - k,
        {
            k = k + 1;
        }
        if k < n && n - k > 1 {
            UpstreamInfo {
                name: slice_string(d, 0, k),
                relationship: Some(slice_string(d, k + 2, n)),
            }
        } else {
            proof {
                assert(d@.subrange(0, d@.len() as int) =~= d@);
            }
            UpstreamInfo { name: slice_string(d, 0, n), relationship: None }
        }
    }
}

impl LocalBranch {
    /// Parses one line of `git branch -vv`.
    pub fn parse(s: &str) -> (r: Result<LocalBranch, ParseError>)
        ensures
            match r {
                Ok(b) => parse_local(s@) == Ok::<LocalModel, ParseError>(b@),
                Err(e) => parse_local(s@) == Err::<LocalModel, ParseError>(e),
            },
    {
        let chars = chars_of(s);
        let start = skip_blanks(&chars, 0);
        let current = parse_current(&chars, start);
        let name_pos = skip_blanks(&chars, if current { start + 1 } else { start });
        let (name, n) = match parse_name(&chars, s, name_pos) {
            Some(x) => x,
            None => return Err(ParseError { kind: ParseErrorKind::Name, offset: name_pos }),
        };
        let sha_pos = skip_blanks(&chars, n);
        let h = parse_commit_sha(&chars, sha_pos);
        if h == sha_pos || !ends_field_at(&chars, h) {
            return Err(ParseError { kind: ParseErrorKind::CommitSha, offset: sha_pos });
        }
        let commit_sha = slice_string(s, sha_pos, h);
        let upstream_pos = skip_blanks(&chars, h);
        let opens = upstream_pos < chars.len() && chars[upstream_pos] == '[';
        let (upstream_info, after_upstream) = match parse_upstream_branch(&chars, s, upstream_pos) {
            Some((d, next)) => (Some(UpstreamInfo::from_descriptor(d.as_str())), next),
            None => {
                if opens {
                    return Err(ParseError { kind: ParseErrorKind::Upstream, offset: upstream_pos });
                }
                (None, upstream_pos)
            },
        };
        let message_pos = skip_blanks(&chars, after_upstream);
        match parse_commit_message(&chars, s, message_pos) {
            Some(commit_message) => Ok(LocalBranch { name, current, commit_sha, upstream_info, commit_message }),
            None => Err(ParseError {
                kind: ParseErrorKind::LineEnding,
                offset: scan_run(&chars, message_pos, CharClass::NotLineEnd),
            }),
        }
    }
}

impl RemoteBranch {
    fn parse_reference(chars: &Vec<char>, s: &str, i: usize) -> (r: Result<RemoteBranchRef, ParseError>)
        requires
            chars@ == s@,
            i <= chars@.len(),
        ensures
            match r {
                Ok(b) => reference_at(s@, i as int) == Ok::<RefModel, ParseError>(b@),
                Err(e) => reference_at(s@, i as int) == Err::<RefModel, ParseError>(e),
            },
    {
        let h = parse_commit_sha(chars, i);
        if h > i && ends_field_at(chars, h) {
            let p = skip_blanks(chars, h);
            if let Some(message) = parse_commit_message(chars, s, p) {
                return Ok(RemoteBranchRef::Commit { sha: slice_string(s, i, h), message });
            }
        }
        match parse_branch_pointer(chars, s, i) {
            Some(t) => Ok(RemoteBranchRef::Branch(t)),
            None => Err(ParseError { kind: ParseErrorKind::Reference, offset: i }),
        }
    }

    /// Parses one line of `git branch -r -v`.
    pub fn parse(s: &str) -> (r: Result<RemoteBranch, ParseError>)
        ensures
            match r {
                Ok(b) => parse_remote(s@) == Ok::<RemoteModel, ParseError>(b@),
                Err(e) => parse_remote(s@) == Err::<RemoteModel, ParseError>(e),
            },
    {
        let chars = chars_of(s);
        let start = skip_blanks(&chars, 0);
        let (name, n) = match parse_name(&chars, s, start) {
            Some(x) => x,
            None => return Err(ParseError { kind: ParseErrorKind::Name, offset: start }),
        };
        let ref_pos = skip_blanks(&chars, n);
        match Self::parse_reference(&chars, s, ref_pos) {
            Ok(reference) => Ok(RemoteBranch { name, reference }),
            Err(e) => Err(e),
        }
    }
}

impl UpstreamInfo {
    pub fn duplicate(&self) -> (r: UpstreamInfo)
        ensures
            r == *self,
    {
        UpstreamInfo {
            name: self.name.clone(),
            relationship: match &self.relationship {
                Some(r) => Some(r.clone()),
                None => None,
            },
        }
    }
}

impl Branch for LocalBranch {
    open spec fn spec_name(&self) -> Seq<char> {
        self.name@
    }

    open spec fn spec_current(&self) -> bool {
        self.current
    }

    fn name(&self) -> (r: &str) {
        self.name.as_str()
    }

    fn is_current(&self) -> (r: bool) {
        self.current
    }

    fn duplicate(&self) -> (r: LocalBranch) {
        LocalBranch {
            name: self.name.clone(),
            current: self.current,
            commit_sha: self.commit_sha.clone(),
            upstream_info: match &self.upstream_info {
                Some(u) => Some(u.duplicate()),
                None => None,
            },
            commit_message: self.commit_message.clone(),
        }
    }
}

impl Branch for RemoteBranch {
    open spec fn spec_name(&self) -> Seq<char> {
        self.name@
    }

    /// A remote listing marks no branch as checked out.
    open spec fn spec_current(&self) -> bool {
        false
    }

    fn name(&self) -> (r: &str) {
        self.name.as_str()
    }

    fn is_current(&self) -> (r: bool) {
        false
    }

    fn duplicate(&self) -> (r: RemoteBranch) {
        RemoteBranch {
            name: self.name.clone(),
            reference: match &self.reference {
                RemoteBranchRef::Branch(b) => RemoteBranchRef::Branch(b.clone()),
                RemoteBranchRef::Commit { sha, message } => RemoteBranchRef::Commit {
                    sha: sha.clone(),
                    message: message.clone(),
                },
            },
        }
    }
}

impl core::str::FromStr for LocalBranch {
    type Err = ParseError;

    fn from_str(s: &str) -> (r: Result<LocalBranch, ParseError>)
        ensures
            match r {
                Ok(b) => parse_local(s@) == Ok::<LocalModel, ParseError>(b@),
                Err(e) => parse_local(s@) == Err::<LocalModel, ParseError>(e),
            },
    {
        LocalBranch::parse(s)
    }
}

impl core::str::FromStr for RemoteBranch {
    type Err = ParseError;

    fn from_str(s: &str) -> (r: Result<RemoteBranch, ParseError>)
        ensures
            match r {
                Ok(b) => parse_remote(s@) == Ok::<RemoteModel, ParseError>(b@),
                Err(e) => parse_remote(s@) == Err::<RemoteModel, ParseError>(e),
            },
    {
        RemoteBranch::parse(s)
    }
}

} // verus!
