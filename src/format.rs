//! Rendering branch records back into listing lines, and the laws that tie
//! rendering to parsing.

use vstd::prelude::*;
use vstd::string::*;
use crate::text::{CharClass, chars_of, char_in_class, in_class, is_blank, is_hex, run_end,
    skip_blank, lemma_run_end_at};
use crate::branch::{LocalBranch, RemoteBranch, RemoteBranchRef, UpstreamInfo, LocalModel,
    RemoteModel, RefModel, UpstreamModel, name_at, message_at, separator_at, upstream_of,
    parse_local, parse_remote, ParseError};

verus! {

/// A `(`-led name whose run of letters, digits and whitespace after the `(`
/// stops, inside the name, at a character other than `)`: it is read bare.
pub open spec fn paren_falls_back(n: Seq<char>) -> bool {
    let k = run_end(n, 1, CharClass::ParenInner);
    k < n.len() && n[k] != ')'
}

/// A name that stands bare in a line: no blanks, and not read as a
/// parenthesised name.
pub open spec fn bare_name_ok(n: Seq<char>) -> bool {
    &&& n.len() > 0
    &&& (n[0] != '(' || paren_falls_back(n))
    &&& forall|k: int| 0 <= k < n.len() ==> !is_blank(#[trigger] n[k])
}

/// A name that can stand in parentheses: ASCII letters, digits, whitespace.
pub open spec fn paren_name_ok(n: Seq<char>) -> bool {
    &&& n.len() > 0
    &&& forall|k: int| 0 <= k < n.len() ==> in_class(CharClass::ParenInner, #[trigger] n[k])
}

pub open spec fn valid_name(n: Seq<char>) -> bool {
    bare_name_ok(n) || paren_name_ok(n)
}

pub open spec fn render_name(n: Seq<char>) -> Seq<char> {
    if bare_name_ok(n) {
        n
    } else {
        seq!['('] + n + seq![')']
    }
}

pub open spec fn valid_sha(s: Seq<char>) -> bool {
    s.len() > 0 && forall|k: int| 0 <= k < s.len() ==> is_hex(#[trigger] s[k])
}

/// Text that runs to the end of a line: no carriage return, no line feed.
pub open spec fn one_line(s: Seq<char>) -> bool {
    forall|k: int| 0 <= k < s.len() ==> #[trigger] s[k] != '\r' && s[k] != '\n'
}

/// A message that follows a blank: on one line, and not starting with a blank.
pub open spec fn valid_message(m: Seq<char>) -> bool {
    one_line(m) && (m.len() > 0 ==> !is_blank(m[0]))
}

pub open spec fn no_separator(s: Seq<char>) -> bool {
    forall|k: int| 0 <= k < s.len() - 1 ==> !(#[trigger] s[k] == ':' && s[k + 1] == ' ')
}

pub open spec fn no_close_bracket(s: Seq<char>) -> bool {
    forall|k: int| 0 <= k < s.len() ==> #[trigger] s[k] != ']'
}

pub open spec fn valid_upstream(u: UpstreamModel) -> bool {
    &&& u.name.len() > 0
    &&& no_separator(u.name)
    &&& no_close_bracket(u.name)
    &&& match u.relationship {
        Some(r) => no_close_bracket(r),
        None => true,
    }
}

pub open spec fn render_upstream(u: UpstreamModel) -> Seq<char> {
    match u.relationship {
        Some(r) => u.name + seq![':', ' '] + r,
        None => u.name,
    }
}

/// A local record that its rendering parses back to.
pub open spec fn valid_local(b: LocalModel) -> bool {
    &&& valid_name(b.name)
    &&& b.name[0] != '*'
    &&& valid_sha(b.commit_sha)
    &&& valid_message(b.commit_message)
    &&& match b.upstream {
        Some(u) => valid_upstream(u),
        None => b.commit_message.len() > 0 ==> b.commit_message[0] != '[',
    }
}

pub open spec fn render_local(b: LocalModel) -> Seq<char> {
    (if b.current { seq!['*', ' '] } else { seq![' ', ' '] }) + render_name(b.name) + seq![' ']
        + b.commit_sha + seq![' '] + match b.upstream {
        Some(u) => seq!['['] + render_upstream(u) + seq![']', ' '],
        None => Seq::<char>::empty(),
    } + b.commit_message
}

/// A remote record that its rendering parses back to.
pub open spec fn valid_remote(b: RemoteModel) -> bool {
    &&& valid_name(b.name)
    &&& match b.reference {
        RefModel::Branch(t) => one_line(t),
        RefModel::Commit { sha, message } => valid_sha(sha) && valid_message(message),
    }
}

pub open spec fn render_reference(r: RefModel) -> Seq<char> {
    match r {
        RefModel::Branch(t) => seq!['-', '>', ' '] + t,
        RefModel::Commit { sha, message } => sha + seq![' '] + message,
    }
}

pub open spec fn render_remote(b: RemoteModel) -> Seq<char> {
    render_name(b.name) + seq![' '] + render_reference(b.reference)
}

// ---------------------------------------------------------------------------
// Lemmas on the pieces of a rendered line.
// ---------------------------------------------------------------------------

/// A valid name rendered at `i`, and followed by a space, is read back.
proof fn lemma_name_read(s: Seq<char>, i: int, n: Seq<char>)
    requires
        valid_name(n),
        0 <= i,
        i + render_name(n).len() < s.len(),
        s.subrange(i, i + render_name(n).len()) == render_name(n),
        s[i + render_name(n).len()] == ' ',
    ensures
        name_at(s, i) matches Some((a, b, e)) && s.subrange(a, b) == n && e == i + render_name(
            n,
        ).len(),
        !is_blank(s[i]),
{
    let r = render_name(n);
    assert(s[i] == r[0]);
    if bare_name_ok(n) {
        assert forall|k: int| i <= k < i + n.len() implies in_class(CharClass::NotSpace, #[trigger] s[k]) by {
            assert(s[k] == s.subrange(i, i + r.len())[k - i]);
        }
        lemma_run_end_at(s, i, i + n.len(), CharClass::NotSpace);
        assert(s.subrange(i, i + n.len()) == n);
        if n[0] == '(' {
            let k = run_end(n, 1, CharClass::ParenInner);
            crate::text::lemma_run_end(n, 1, CharClass::ParenInner);
            assert forall|j: int| i + 1 <= j < i + k implies in_class(CharClass::ParenInner, #[trigger] s[j]) by {
                assert(s[j] == s.subrange(i, i + r.len())[j - i]);
                assert(n[j - i] == s[j]);
            }
            assert(s[i + k] == s.subrange(i, i + r.len())[k]);
            lemma_run_end_at(s, i + 1, i + k, CharClass::ParenInner);
        }
    } else {
        assert(r[0] == '(');
        assert forall|k: int| i + 1 <= k < i + 1 + n.len() implies in_class(CharClass::ParenInner, #[trigger] s[k]) by {
            assert(s[k] == s.subrange(i, i + r.len())[k - i]);
            assert(r[k - i] == n[k - i - 1]);
        }
        assert(s[i + 1 + n.len()] == s.subrange(i, i + r.len())[n.len() + 1int]);
        assert(r[n.len() + 1int] == ')');
        lemma_run_end_at(s, i + 1, i + 1 + n.len(), CharClass::ParenInner);
        assert(s.subrange(i + 1, i + 1 + n.len()) =~= n) by {
            assert forall|k: int| 0 <= k < n.len() implies s.subrange(i + 1, i + 1 + n.len())[k] == n[k] by {
                assert(s[i + 1 + k] == s.subrange(i, i + r.len())[k + 1]);
                assert(r[k + 1] == n[k]);
            }
        }
    }
}

/// A run of `cls` characters written at `i` and then ended is read back.
proof fn lemma_run_read(s: Seq<char>, i: int, t: Seq<char>, cls: CharClass)
    requires
        0 <= i,
        i + t.len() <= s.len(),
        s.subrange(i, i + t.len()) == t,
        forall|k: int| 0 <= k < t.len() ==> in_class(cls, #[trigger] t[k]),
        i + t.len() < s.len() ==> !in_class(cls, s[i + t.len()]),
    ensures
        run_end(s, i, cls) == i + t.len(),
{
    assert forall|k: int| i <= k < i + t.len() implies in_class(cls, #[trigger] s[k]) by {
        assert(s[k] == s.subrange(i, i + t.len())[k - i]);
    }
    lemma_run_end_at(s, i, i + t.len(), cls);
}

/// A valid message that ends the line at `i` is read back.
proof fn lemma_message_read(s: Seq<char>, i: int, m: Seq<char>)
    requires
        one_line(m),
        0 <= i,
        i + m.len() == s.len(),
        s.subrange(i, s.len() as int) == m,
    ensures
        message_at(s, i) == Some(m),
{
    lemma_run_read(s, i, m, CharClass::NotLineEnd);
}

/// The blanks at `i` end at `i + 1` where one blank stands before a non-blank.
proof fn lemma_one_blank(s: Seq<char>, i: int)
    requires
        0 <= i < s.len(),
        is_blank(s[i]),
        i + 1 < s.len() ==> !is_blank(s[i + 1]),
    ensures
        skip_blank(s, i) == i + 1,
{
    lemma_run_end_at(s, i, i + 1, CharClass::Blank);
}

proof fn lemma_no_blank(s: Seq<char>, i: int)
    requires
        0 <= i <= s.len(),
        i < s.len() ==> !is_blank(s[i]),
    ensures
        skip_blank(s, i) == i,
{
    lemma_run_end_at(s, i, i, CharClass::Blank);
}

proof fn lemma_upstream_split(u: UpstreamModel)
    requires
        valid_upstream(u),
    ensures
        upstream_of(render_upstream(u)) == u,
{
    let d = render_upstream(u);
    let n = u.name;
    assert(d.subrange(0, n.len() as int) =~= n);
    lemma_separator_skip(d, 0, n);
    match u.relationship {
        Some(r) => {
            assert(d[n.len() as int] == ':' && d[n.len() + 1int] == ' ');
            assert(separator_at(d, n.len() as int) == n.len());
            assert(separator_at(d, 0) == n.len());
            assert(d.subrange(0, n.len() as int) =~= n);
            assert(d.subrange(n.len() + 2int, d.len() as int) =~= r);
        },
        None => {
            assert(separator_at(d, n.len() as int) == d.len());
            assert(separator_at(d, 0) == d.len());
        },
    }
}

proof fn lemma_separator_skip(d: Seq<char>, k: int, n: Seq<char>)
    requires
        0 <= k <= n.len(),
        n.len() <= d.len(),
        d.subrange(0, n.len() as int) == n,
        no_separator(n),
        n.len() < d.len() ==> d[n.len() as int] == ':',
    ensures
        separator_at(d, k) == separator_at(d, n.len() as int),
    decreases n.len() - k,
{
    if k < n.len() {
        assert(d[k] == n[k]);
        if k + 1 < n.len() {
            assert(d[k + 1] == n[k + 1]);
        }
        lemma_separator_skip(d, k + 1, n);
    }
}


// ---------------------------------------------------------------------------
// Round trip.
// ---------------------------------------------------------------------------

/// Rendering a local record as a line of `git branch -vv` and parsing that
/// line gives the record back.
#[verifier::rlimit(40)]
pub proof fn lemma_local_round_trip(b: LocalModel)
    requires
        valid_local(b),
    ensures
        parse_local(render_local(b)) == Ok::<LocalModel, ParseError>(b),
{
    let s = render_local(b);
    let pre = if b.current { seq!['*', ' '] } else { seq![' ', ' '] };
    let rn = render_name(b.name);
    let sha = b.commit_sha;
    let m = b.commit_message;
    let up = match b.upstream {
        Some(u) => seq!['['] + render_upstream(u) + seq![']', ' '],
        None => Seq::<char>::empty(),
    };
    let c = pre.len() as int;
    let l = rn.len() as int;
    let h0 = c + l + 1;
    let h1 = h0 + sha.len();
    let u0 = h1 + 1;
    let m0 = u0 + up.len();
    assert(s =~= pre + rn + seq![' '] + sha + seq![' '] + up + m);
    assert(s.len() == m0 + m.len());
    assert(s.subrange(c, c + l) =~= rn);
    assert(s[c + l] == ' ');
    lemma_name_read(s, c, b.name);
    // the marker
    if b.current {
        assert(s[0] == '*');
        lemma_no_blank(s, 0);
        assert(s[1] == ' ');
        lemma_one_blank(s, 1);
    } else {
        assert(s[0] == ' ' && s[1] == ' ');
        assert(s[2] == rn[0]);
        lemma_run_end_at(s, 0, 2, CharClass::Blank);
        lemma_no_blank(s, 2);
    }
    assert(skip_blank(s, 0) < s.len() && s[skip_blank(s, 0)] == '*' <==> b.current);
    // the sha
    assert(s[h0] == sha[0]);
    lemma_one_blank(s, c + l);
    assert(s.subrange(h0, h1) =~= sha);
    assert(s[h1] == ' ');
    assert(is_blank(s[h1]));
    lemma_run_read(s, h0, sha, CharClass::Hex);
    // the upstream and the message
    assert(s.subrange(m0, s.len() as int) =~= m);
    lemma_message_read(s, m0, m);
    match b.upstream {
        Some(u) => {
            let d = render_upstream(u);
            assert(s[u0] == '[');
            lemma_one_blank(s, h1);
            assert(s.subrange(u0 + 1, u0 + 1 + d.len()) =~= d);
            assert(no_close_bracket(d)) by {
                assert forall|k: int| 0 <= k < d.len() implies #[trigger] d[k] != ']' by {
                    if k >= u.name.len() + 2 {
                        assert(d[k] == u.relationship->0[k - u.name.len() - 2]);
                    } else if k < u.name.len() {
                        assert(d[k] == u.name[k]);
                    }
                }
            }
            assert(s[u0 + 1 + d.len()] == ']');
            lemma_run_read(s, u0 + 1, d, CharClass::NotCloseBracket);
            lemma_upstream_split(u);
            assert(s[u0 + 2 + d.len()] == ' ');
            if m.len() > 0 {
                assert(s[m0] == m[0]);
            }
            lemma_one_blank(s, u0 + 2 + d.len());
        },
        None => {
            if m.len() > 0 {
                assert(s[u0] == m[0]);
            }
            lemma_one_blank(s, h1);
            lemma_no_blank(s, u0);
        },
    }
    assert(s.subrange(c, c + l) == rn);
}

/// Rendering a remote record as a line of `git branch -r -v` and parsing
/// that line gives the record back.
pub proof fn lemma_remote_round_trip(b: RemoteModel)
    requires
        valid_remote(b),
    ensures
        parse_remote(render_remote(b)) == Ok::<RemoteModel, ParseError>(b),
{
    let s = render_remote(b);
    let rn = render_name(b.name);
    let rr = render_reference(b.reference);
    let l = rn.len() as int;
    assert(s =~= rn + seq![' '] + rr);
    assert(s.subrange(0, l) =~= rn);
    assert(s[l] == ' ');
    lemma_name_read(s, 0, b.name);
    lemma_no_blank(s, 0);
    assert(s[l + 1] == rr[0]);
    lemma_one_blank(s, l);
    let i = l + 1;
    match b.reference {
        RefModel::Branch(t) => {
            assert(s[i] == '-' && s[i + 1] == '>' && s[i + 2] == ' ');
            lemma_run_end_at(s, i, i, CharClass::Hex);
            assert(s.subrange(i + 3, s.len() as int) =~= t);
            lemma_message_read(s, i + 3, t);
        },
        RefModel::Commit { sha, message } => {
            let h = i + sha.len();
            assert(s.subrange(i, h) =~= sha);
            assert(s[h] == ' ');
            assert(is_blank(s[h]));
            lemma_run_read(s, i, sha, CharClass::Hex);
            if message.len() > 0 {
                assert(s[h + 1] == message[0]);
            }
            lemma_one_blank(s, h);
            assert(s.subrange(h + 1, s.len() as int) =~= message);
            lemma_message_read(s, h + 1, message);
        },
    }
    assert(s.subrange(0, l) == rn);
}

// ---------------------------------------------------------------------------
// Rendering.
// ---------------------------------------------------------------------------

fn is_bare_name(name: &str) -> (r: bool)
    ensures
        r == bare_name_ok(name@),
{
    let chars = chars_of(name);
    let n = chars.len();
    if n == 0 {
        return false;
    }
    if chars[0] == '(' {
        let k = crate::text::scan_run(&chars, 1, CharClass::ParenInner);
        if !(k < n && chars[k] != ')') {
            return false;
        }
    }
    let mut i: usize = 0;
    while i < n
        invariant
            chars@ == name@,
            n == chars@.len(),
            i <= n,
            forall|k: int| 0 <= k < i ==> !is_blank(#[trigger] chars@[k]),
        decreases n - i,
    {
        if char_in_class(CharClass::Blank, chars[i]) {
            return false;
        }
        i = i + 1;
    }
    true
}

fn push_name(line: &mut String, name: &str)
    ensures
        final(line)@ == old(line)@ + render_name(name@),
{
    if is_bare_name(name) {
        line.append(name);
    } else {
        line.append("(");
        line.append(name);
        line.append(")");
        proof {
            reveal_strlit("(");
            reveal_strlit(")");
            assert(final(line)@ =~= old(line)@ + render_name(name@));
        }
    }
}

impl UpstreamInfo {
    /// The descriptor as a listing shows it: `name` or `name: relationship`.
    pub fn descriptor(&self) -> (r: String)
        ensures
            r@ == render_upstream(self@),
    {
        let mut d = self.name.clone();
        if let Some(r) = &self.relationship {
            d.append(": ");
            d.append(r.as_str());
            proof {
                reveal_strlit(": ");
            }
        }
        d
    }
}

impl LocalBranch {
    /// This record as a line of `git branch -vv`.
    pub fn to_line(&self) -> (r: String)
        ensures
            r@ == render_local(self@),
    {
        let mut line = if self.current {
            String::from_str("* ")
        } else {
            String::from_str("  ")
        };
        push_name(&mut line, self.name.as_str());
        line.append(" ");
        line.append(self.commit_sha.as_str());
        line.append(" ");
        let ghost before_upstream = line@;
        match &self.upstream_info {
            Some(u) => {
                line.append("[");
                line.append(u.name.as_str());
                if let Some(r) = &u.relationship {
                    line.append(": ");
                    line.append(r.as_str());
                }
                line.append("] ");
            },
            None => {},
        }
        line.append(self.commit_message.as_str());
        proof {
            reveal_strlit("* ");
            reveal_strlit("  ");
            reveal_strlit(" ");
            reveal_strlit("[");
            reveal_strlit(": ");
            reveal_strlit("] ");
            assert(line@ =~= render_local(self@));
        }
        line
    }
}

impl RemoteBranch {
    /// This record as a line of `git branch -r -v`.
    pub fn to_line(&self) -> (r: String)
        ensures
            r@ == render_remote(self@),
    {
        let mut line = String::new();
        push_name(&mut line, self.name.as_str());
        line.append(" ");
        match &self.reference {
            RemoteBranchRef::Branch(t) => {
                line.append("-> ");
                line.append(t.as_str());
            },
            RemoteBranchRef::Commit { sha, message } => {
                line.append(sha.as_str());
                line.append(" ");
                line.append(message.as_str());
            },
        }
        proof {
            reveal_strlit(" ");
            reveal_strlit("-> ");
            assert(line@ =~= render_remote(self@));
        }
        line
    }
}
} // verus!
