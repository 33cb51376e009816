//! Character classes and scanning over the characters of one listing line.

use vstd::prelude::*;

verus! {

/// The classes of characters that the line grammar scans runs of.
#[derive(Clone, Copy, PartialEq, Eq, Debug)]
pub enum CharClass {
    /// Space, tab, carriage return or line feed.
    Blank,
    /// Anything but a space or a tab.
    NotSpace,
    /// An ASCII hexadecimal digit.
    Hex,
    /// An ASCII letter or digit, or ASCII whitespace.
    ParenInner,
    /// Anything but a closing bracket.
    NotCloseBracket,
    /// Anything but a carriage return or a line feed.
    NotLineEnd,
}

pub open spec fn is_blank(c: char) -> bool {
    c == ' ' || c == '\t' || c == '\r' || c == '\n'
}

pub open spec fn is_space(c: char) -> bool {
    c == ' ' || c == '\t'
}

pub open spec fn is_hex(c: char) -> bool {
    ('0' <= c && c <= '9') || ('a' <= c && c <= 'f') || ('A' <= c && c <= 'F')
}

pub open spec fn is_ascii_whitespace(c: char) -> bool {
    c == ' ' || c == '\t' || c == '\n' || c == '\x0C' || c == '\r'
}

pub open spec fn is_alnum(c: char) -> bool {
    ('0' <= c && c <= '9') || ('a' <= c && c <= 'z') || ('A' <= c && c <= 'Z')
}

pub open spec fn in_class(cls: CharClass, c: char) -> bool {
    match cls {
        CharClass::Blank => is_blank(c),
        CharClass::NotSpace => !is_space(c),
        CharClass::Hex => is_hex(c),
        CharClass::ParenInner => is_alnum(c) || is_ascii_whitespace(c),
        CharClass::NotCloseBracket => c != ']',
        CharClass::NotLineEnd => c != '\r' && c != '\n',
    }
}

/// The end of the longest run of `cls` characters that starts at `i`.
pub open spec fn run_end(s: Seq<char>, i: int, cls: CharClass) -> int
    decreases s.len() - i,
{
    if 0 <= i < s.len() && in_class(cls, s[i]) {
        run_end(s, i + 1, cls)
    } else {
        i
    }
}

/// The position after the blanks that start at `i`.
pub open spec fn skip_blank(s: Seq<char>, i: int) -> int {
    run_end(s, i, CharClass::Blank)
}

pub proof fn lemma_run_end(s: Seq<char>, i: int, cls: CharClass)
    requires
        0 <= i <= s.len(),
    ensures
        i <= run_end(s, i, cls) <= s.len(),
        forall|k: int| i <= k < run_end(s, i, cls) ==> in_class(cls, #[trigger] s[k]),
        run_end(s, i, cls) < s.len() ==> !in_class(cls, s[run_end(s, i, cls)]),
    decreases s.len() - i,
{
    if i < s.len() && in_class(cls, s[i]) {
        lemma_run_end(s, i + 1, cls);
    }
}

/// A run that is known to hold only `cls` characters, and to be followed by
/// the end or by another character, ends where that character stands.
pub proof fn lemma_run_end_at(s: Seq<char>, i: int, j: int, cls: CharClass)
    requires
        0 <= i <= j <= s.len(),
        forall|k: int| i <= k < j ==> in_class(cls, #[trigger] s[k]),
        j < s.len() ==> !in_class(cls, s[j]),
    ensures
        run_end(s, i, cls) == j,
    decreases j - i,
{
    if i < j {
        lemma_run_end_at(s, i + 1, j, cls);
    }
}

pub fn char_in_class(cls: CharClass, c: char) -> (r: bool)
    ensures
        r == in_class(cls, c),
{
    match cls {
        CharClass::Blank => c == ' ' || c == '\t' || c == '\r' || c == '\n',
        CharClass::NotSpace => !(c == ' ' || c == '\t'),
        CharClass::Hex => ('0' <= c && c <= '9') || ('a' <= c && c <= 'f') || ('A' <= c
            && c <= 'F'),
        CharClass::ParenInner => ('0' <= c && c <= '9') || ('a' <= c && c <= 'z') || ('A' <= c
            && c <= 'Z') || c == ' ' || c == '\t' || c == '\n' || c == '\x0C' || c == '\r',
        CharClass::NotCloseBracket => c != ']',
        CharClass::NotLineEnd => c != '\r' && c != '\n',
    }
}

/// The end of the run of `cls` characters in `chars` that starts at `i`.
pub fn scan_run(chars: &Vec<char>, i: usize, cls: CharClass) -> (r: usize)
    requires
        i <= chars.len(),
    ensures
        r == run_end(chars@, i as int, cls),
        i <= r <= chars.len(),
{
    proof {
        lemma_run_end(chars@, i as int, cls);
    }
    let mut j: usize = i;
    while j < chars.len() && char_in_class(cls, chars[j])
        invariant
            i <= j <= chars.len(),
            i <= run_end(chars@, i as int, cls) <= chars.len(),
            run_end(chars@, i as int, cls) == run_end(chars@, j as int, cls),
        decreases chars.len() - j,
    {
        j = j + 1;
    }
    j
}

/// The characters of `s`, one per element.
pub fn chars_of(s: &str) -> (r: Vec<char>)
    ensures
        r@ == s@,
{
    let n = s.unicode_len();
    let mut out: Vec<char> = Vec::new();
    let mut i: usize = 0;
    while i < n
        invariant
            n == s@.len(),
            i <= n,
            out@ == s@.subrange(0, i as int),
        decreases n - i,
    {
        out.push(s.get_char(i));
        i = i + 1;
    }
    assert(out@ =~= s@);
    out
}

} // verus!
