//! Whole listings: one record per line, accepted only when every line is.

use vstd::prelude::*;
use crate::branch::{LocalBranch, RemoteBranch, LocalModel, RemoteModel, ParseError, parse_local,
    parse_remote};
use crate::format::{valid_local, valid_remote, render_local, render_remote,
    lemma_local_round_trip, lemma_remote_round_trip};

verus! {

/// The records of a local listing, or the error of its first bad line.
pub open spec fn parse_local_listing(lines: Seq<Seq<char>>) -> Result<Seq<LocalModel>, ParseError>
    decreases lines.len(),
{
    if lines.len() == 0 {
        Ok(Seq::empty())
    } else {
        match parse_local_listing(lines.drop_last()) {
            Err(e) => Err(e),
            Ok(v) => match parse_local(lines.last()) {
                Ok(b) => Ok(v.push(b)),
                Err(e) => Err(e),
            },
        }
    }
}

/// The records of a remote listing, or the error of its first bad line.
pub open spec fn parse_remote_listing(lines: Seq<Seq<char>>) -> Result<Seq<RemoteModel>, ParseError>
    decreases lines.len(),
{
    if lines.len() == 0 {
        Ok(Seq::empty())
    } else {
        match parse_remote_listing(lines.drop_last()) {
            Err(e) => Err(e),
            Ok(v) => match parse_remote(lines.last()) {
                Ok(b) => Ok(v.push(b)),
                Err(e) => Err(e),
            },
        }
    }
}

pub open spec fn line_views(lines: Seq<String>) -> Seq<Seq<char>> {
    lines.map_values(|l: String| l@)
}

pub open spec fn local_views(bs: Seq<LocalBranch>) -> Seq<LocalModel> {
    bs.map_values(|b: LocalBranch| b@)
}

pub open spec fn remote_views(bs: Seq<RemoteBranch>) -> Seq<RemoteModel> {
    bs.map_values(|b: RemoteBranch| b@)
}

proof fn lemma_local_error_stays(lines: Seq<Seq<char>>, i: int, e: ParseError)
    requires
        0 <= i <= lines.len(),
        parse_local_listing(lines.take(i)) == Err::<Seq<LocalModel>, ParseError>(e),
    ensures
        parse_local_listing(lines) == Err::<Seq<LocalModel>, ParseError>(e),
    decreases lines.len() - i,
{
    if i < lines.len() {
        assert(lines.take(i + 1).drop_last() =~= lines.take(i));
        lemma_local_error_stays(lines, i + 1, e);
    } else {
        assert(lines.take(i) =~= lines);
    }
}

proof fn lemma_remote_error_stays(lines: Seq<Seq<char>>, i: int, e: ParseError)
    requires
        0 <= i <= lines.len(),
        parse_remote_listing(lines.take(i)) == Err::<Seq<RemoteModel>, ParseError>(e),
    ensures
        parse_remote_listing(lines) == Err::<Seq<RemoteModel>, ParseError>(e),
    decreases lines.len() - i,
{
    if i < lines.len() {
        assert(lines.take(i + 1).drop_last() =~= lines.take(i));
        lemma_remote_error_stays(lines, i + 1, e);
    } else {
        assert(lines.take(i) =~= lines);
    }
}

/// Parses every line of `git branch -vv`; fails with the first bad line's
/// error, and then yields no record at all.
pub fn parse_local_branches(lines: &Vec<String>) -> (r: Result<Vec<LocalBranch>, ParseError>)
    ensures
        match r {
            Ok(v) => parse_local_listing(line_views(lines@)) == Ok::<Seq<LocalModel>, ParseError>(
                local_views(v@),
            ),
            Err(e) => parse_local_listing(line_views(lines@)) == Err::<Seq<LocalModel>, ParseError>(
                e,
            ),
        },
{
    let ghost ls = line_views(lines@);
    let mut out: Vec<LocalBranch> = Vec::new();
    let mut i: usize = 0;
    assert(ls.take(0) =~= Seq::<Seq<char>>::empty());
    assert(local_views(out@) =~= Seq::empty());
    while i < lines.len()
        invariant
            ls == line_views(lines@),
            i <= lines.len(),
            parse_local_listing(ls.take(i as int)) == Ok::<Seq<LocalModel>, ParseError>(
                local_views(out@),
            ),
        decreases lines.len() - i,
    {
        assert(ls.take(i + 1).drop_last() =~= ls.take(i as int));
        assert(ls.take(i + 1).last() == lines@[i as int]@);
        match LocalBranch::parse(lines[i].as_str()) {
            Ok(b) => {
                let ghost prev = out@;
                out.push(b);
                assert(local_views(out@) =~= local_views(prev).push(b@));
            },
            Err(e) => {
                proof {
                    lemma_local_error_stays(ls, i + 1, e);
                }
                return Err(e);
            },
        }
        i = i + 1;
    }
    assert(ls.take(i as int) =~= ls);
    Ok(out)
}

/// Parses every line of `git branch -r -v`; fails with the first bad line's
/// error, and then yields no record at all.
pub fn parse_remote_branches(lines: &Vec<String>) -> (r: Result<Vec<RemoteBranch>, ParseError>)
    ensures
        match r {
            Ok(v) => parse_remote_listing(line_views(lines@)) == Ok::<Seq<RemoteModel>, ParseError>(
                remote_views(v@),
            ),
            Err(e) => parse_remote_listing(line_views(lines@)) == Err::<
                Seq<RemoteModel>,
                ParseError,
            >(e),
        },
{
    let ghost ls = line_views(lines@);
    let mut out: Vec<RemoteBranch> = Vec::new();
    let mut i: usize = 0;
    assert(ls.take(0) =~= Seq::<Seq<char>>::empty());
    assert(remote_views(out@) =~= Seq::empty());
    while i < lines.len()
        invariant
            ls == line_views(lines@),
            i <= lines.len(),
            parse_remote_listing(ls.take(i as int)) == Ok::<Seq<RemoteModel>, ParseError>(
                remote_views(out@),
            ),
        decreases lines.len() - i,
    {
        assert(ls.take(i + 1).drop_last() =~= ls.take(i as int));
        assert(ls.take(i + 1).last() == lines@[i as int]@);
        match RemoteBranch::parse(lines[i].as_str()) {
            Ok(b) => {
                let ghost prev = out@;
                out.push(b);
                assert(remote_views(out@) =~= remote_views(prev).push(b@));
            },
            Err(e) => {
                proof {
                    lemma_remote_error_stays(ls, i + 1, e);
                }
                return Err(e);
            },
        }
        i = i + 1;
    }
    assert(ls.take(i as int) =~= ls);
    Ok(out)
}

proof fn lemma_local_prefix_ok(rs: Seq<LocalModel>, k: int, bad: Seq<char>, j: int)
    requires
        forall|i: int| 0 <= i < rs.len() ==> valid_local(#[trigger] rs[i]),
        0 <= j <= k < rs.len(),
    ensures
        parse_local_listing(rs.map_values(|b: LocalModel| render_local(b)).update(k, bad).take(j))
            == Ok::<Seq<LocalModel>, ParseError>(rs.take(j)),
    decreases j,
{
    let lines = rs.map_values(|b: LocalModel| render_local(b)).update(k, bad);
    if j == 0 {
        assert(lines.take(0) =~= Seq::<Seq<char>>::empty());
        assert(rs.take(0) =~= Seq::<LocalModel>::empty());
    } else {
        lemma_local_prefix_ok(rs, k, bad, j - 1);
        assert(lines.take(j).drop_last() =~= lines.take(j - 1));
        assert(lines.take(j).last() == render_local(rs[j - 1]));
        lemma_local_round_trip(rs[j - 1]);
        assert(rs.take(j - 1).push(rs[j - 1]) =~= rs.take(j));
    }
}

/// A listing rendered from valid local records, with one line replaced by a
/// line that does not parse, fails as a whole with that line's error.
pub proof fn lemma_local_batch_atomicity(rs: Seq<LocalModel>, k: int, bad: Seq<char>)
    requires
        forall|i: int| 0 <= i < rs.len() ==> valid_local(#[trigger] rs[i]),
        0 <= k < rs.len(),
        parse_local(bad) is Err,
    ensures
        parse_local_listing(rs.map_values(|b: LocalModel| render_local(b)).update(k, bad))
            == Err::<Seq<LocalModel>, ParseError>(parse_local(bad)->Err_0),
{
    let lines = rs.map_values(|b: LocalModel| render_local(b)).update(k, bad);
    lemma_local_prefix_ok(rs, k, bad, k);
    assert(lines.take(k + 1).drop_last() =~= lines.take(k));
    assert(lines.take(k + 1).last() == bad);
    lemma_local_error_stays(lines, k + 1, parse_local(bad)->Err_0);
}

proof fn lemma_remote_prefix_ok(rs: Seq<RemoteModel>, k: int, bad: Seq<char>, j: int)
    requires
        forall|i: int| 0 <= i < rs.len() ==> valid_remote(#[trigger] rs[i]),
        0 <= j <= k < rs.len(),
    ensures
        parse_remote_listing(rs.map_values(|b: RemoteModel| render_remote(b)).update(k, bad).take(j))
            == Ok::<Seq<RemoteModel>, ParseError>(rs.take(j)),
    decreases j,
{
    let lines = rs.map_values(|b: RemoteModel| render_remote(b)).update(k, bad);
    if j == 0 {
        assert(lines.take(0) =~= Seq::<Seq<char>>::empty());
        assert(rs.take(0) =~= Seq::<RemoteModel>::empty());
    } else {
        lemma_remote_prefix_ok(rs, k, bad, j - 1);
        assert(lines.take(j).drop_last() =~= lines.take(j - 1));
        assert(lines.take(j).last() == render_remote(rs[j - 1]));
        lemma_remote_round_trip(rs[j - 1]);
        assert(rs.take(j - 1).push(rs[j - 1]) =~= rs.take(j));
    }
}

/// A listing rendered from valid remote records, with one line replaced by a
/// line that does not parse, fails as a whole with that line's error.
pub proof fn lemma_remote_batch_atomicity(rs: Seq<RemoteModel>, k: int, bad: Seq<char>)
    requires
        forall|i: int| 0 <= i < rs.len() ==> valid_remote(#[trigger] rs[i]),
        0 <= k < rs.len(),
        parse_remote(bad) is Err,
    ensures
        parse_remote_listing(rs.map_values(|b: RemoteModel| render_remote(b)).update(k, bad))
            == Err::<Seq<RemoteModel>, ParseError>(parse_remote(bad)->Err_0),
{
    let lines = rs.map_values(|b: RemoteModel| render_remote(b)).update(k, bad);
    lemma_remote_prefix_ok(rs, k, bad, k);
    assert(lines.take(k + 1).drop_last() =~= lines.take(k));
    assert(lines.take(k + 1).last() == bad);
    lemma_remote_error_stays(lines, k + 1, parse_remote(bad)->Err_0);
}

} // verus!
