use git_branches::branch::{
    LocalBranch, ParseError, ParseErrorKind, RemoteBranch, RemoteBranchRef, UpstreamInfo,
};
use git_branches::listing::{parse_local_branches, parse_remote_branches};

fn local(name: &str, current: bool, sha: &str, upstream: Option<(&str, Option<&str>)>, msg: &str) -> LocalBranch {
    LocalBranch {
        name: name.to_string(),
        current,
        commit_sha: sha.to_string(),
        upstream_info: upstream.map(|(n, r)| UpstreamInfo {
            name: n.to_string(),
            relationship: r.map(|r| r.to_string()),
        }),
        commit_message: msg.to_string(),
    }
}

fn same_local(a: &LocalBranch, b: &LocalBranch) -> bool {
    a.name == b.name
        && a.current == b.current
        && a.commit_sha == b.commit_sha
        && a.commit_message == b.commit_message
        && match (&a.upstream_info, &b.upstream_info) {
            (Some(x), Some(y)) => x.name == y.name && x.relationship == y.relationship,
            (None, None) => true,
            _ => false,
        }
}

fn same_remote(a: &RemoteBranch, b: &RemoteBranch) -> bool {
    a.name == b.name
        && match (&a.reference, &b.reference) {
            (RemoteBranchRef::Branch(x), RemoteBranchRef::Branch(y)) => x == y,
            (
                RemoteBranchRef::Commit { sha: s1, message: m1 },
                RemoteBranchRef::Commit { sha: s2, message: m2 },
            ) => s1 == s2 && m1 == m2,
            _ => false,
        }
}

#[test]
fn local_listing_line() {
    let b = LocalBranch::parse("* main  a1b2c3d [origin/main] Initial commit").unwrap();
    assert_eq!(b.name, "main");
    assert!(b.current);
    assert_eq!(b.commit_sha, "a1b2c3d");
    let u = b.upstream_info.unwrap();
    assert_eq!(u.name, "origin/main");
    assert_eq!(u.relationship, None);
    assert_eq!(b.commit_message, "Initial commit");
}

#[test]
fn local_line_with_relationship() {
    let b = LocalBranch::parse("  feature/x 0f3e [origin/feature/x: ahead 1, behind 2] Fix it").unwrap();
    assert_eq!(b.name, "feature/x");
    assert!(!b.current);
    assert_eq!(b.commit_sha, "0f3e");
    let u = b.upstream_info.unwrap();
    assert_eq!(u.name, "origin/feature/x");
    assert_eq!(u.relationship.as_deref(), Some("ahead 1, behind 2"));
    assert_eq!(b.commit_message, "Fix it");
}

#[test]
fn local_line_without_upstream() {
    let b = LocalBranch::parse("  topic deadBEEF  Some   spaced message").unwrap();
    assert_eq!(b.name, "topic");
    assert!(b.upstream_info.is_none());
    assert_eq!(b.commit_sha, "deadBEEF");
    assert_eq!(b.commit_message, "Some   spaced message");
}

#[test]
fn local_line_parenthesised_name() {
    let b = LocalBranch::parse("* (HEAD detached at 1a2b) 1a2b Message").unwrap();
    assert_eq!(b.name, "HEAD detached at 1a2b");
    assert!(b.current);
    assert_eq!(b.commit_sha, "1a2b");
    assert_eq!(b.commit_message, "Message");
}

#[test]
fn local_line_unclosed_bracket_is_error() {
    assert_eq!(
        LocalBranch::parse("main abc [not closed").unwrap_err(),
        ParseError { kind: ParseErrorKind::Upstream, offset: 9 }
    );
    assert_eq!(
        LocalBranch::parse("  main a1b2 [origin/main ahead 1").unwrap_err().kind,
        ParseErrorKind::Upstream
    );
    assert_eq!(
        LocalBranch::parse("main abc [] x").unwrap_err(),
        ParseError { kind: ParseErrorKind::Upstream, offset: 9 }
    );
}

#[test]
fn local_line_sha_with_non_hex_is_error() {
    assert_eq!(
        LocalBranch::parse("  main a1b2g3 msg").unwrap_err(),
        ParseError { kind: ParseErrorKind::CommitSha, offset: 7 }
    );
    assert!(LocalBranch::parse("  main").is_err());
    assert!(LocalBranch::parse("* main").is_err());
    assert!(LocalBranch::parse("").is_err());
}

#[test]
fn local_line_unclosed_paren_is_error() {
    assert_eq!(
        LocalBranch::parse("* (no branch 1a2b msg").unwrap_err(),
        ParseError { kind: ParseErrorKind::Name, offset: 2 }
    );
    assert_eq!(
        LocalBranch::parse("* (no branch, rebasing foo) 1a2b msg").unwrap_err(),
        ParseError { kind: ParseErrorKind::CommitSha, offset: 6 }
    );
}

#[test]
fn local_line_paren_with_other_char_is_bare() {
    let b = LocalBranch::parse("  (a,b) 1a2b msg").unwrap();
    assert_eq!(b.name, "(a,b)");
    assert_eq!(b.commit_sha, "1a2b");
    assert_eq!(b.commit_message, "msg");
    let r = RemoteBranch::parse("(a,b) -> origin/main").unwrap();
    assert_eq!(r.name, "(a,b)");
}

#[test]
fn local_line_ahead_relationship() {
    let b: LocalBranch = "  dev 0f0f [origin/dev: ahead 2] wip".parse().unwrap();
    assert!(!b.current);
    assert_eq!(b.name, "dev");
    let u = b.upstream_info.unwrap();
    assert_eq!(u.name, "origin/dev");
    assert_eq!(u.relationship.as_deref(), Some("ahead 2"));
    assert_eq!(b.commit_message, "wip");
}

#[test]
fn remote_line_sha_with_non_hex_is_error() {
    assert_eq!(
        RemoteBranch::parse("origin/x a1g2 top").unwrap_err(),
        ParseError { kind: ParseErrorKind::Reference, offset: 9 }
    );
    assert!(RemoteBranch::parse("origin/x zz top").is_err());
    assert!(RemoteBranch::parse("origin/x").is_err());
}

#[test]
fn local_line_empty_is_name_error() {
    assert_eq!(
        LocalBranch::parse("   ").unwrap_err(),
        ParseError { kind: ParseErrorKind::Name, offset: 3 }
    );
}

#[test]
fn local_line_bad_sha() {
    assert_eq!(
        LocalBranch::parse("main xyz message").unwrap_err(),
        ParseError { kind: ParseErrorKind::CommitSha, offset: 5 }
    );
}

#[test]
fn local_line_lone_carriage_return() {
    assert_eq!(
        LocalBranch::parse("main abc one\rtwo").unwrap_err(),
        ParseError { kind: ParseErrorKind::LineEnding, offset: 12 }
    );
}

#[test]
fn remote_pointer_line() {
    let b = RemoteBranch::parse("origin/HEAD -> origin/main").unwrap();
    assert_eq!(b.name, "origin/HEAD");
    match b.reference {
        RemoteBranchRef::Branch(t) => assert_eq!(t, "origin/main"),
        _ => panic!("expected a pointer"),
    }
}

#[test]
fn remote_commit_line() {
    let b = RemoteBranch::parse("  origin/dev  c0ffee Merge things").unwrap();
    assert_eq!(b.name, "origin/dev");
    match b.reference {
        RemoteBranchRef::Commit { sha, message } => {
            assert_eq!(sha, "c0ffee");
            assert_eq!(message, "Merge things");
        }
        _ => panic!("expected a commit"),
    }
}

#[test]
fn remote_line_without_reference() {
    assert_eq!(
        RemoteBranch::parse("origin/dev => x").unwrap_err(),
        ParseError { kind: ParseErrorKind::Reference, offset: 11 }
    );
}

#[test]
fn remote_line_empty_is_name_error() {
    assert_eq!(
        RemoteBranch::parse("").unwrap_err(),
        ParseError { kind: ParseErrorKind::Name, offset: 0 }
    );
}

#[test]
fn local_round_trip() {
    let records = vec![
        local("main", true, "a1b2c3d", Some(("origin/main", None)), "Initial commit"),
        local("feature/x", false, "0f", Some(("origin/feature/x", Some("ahead 1"))), "Work"),
        local("topic", false, "abc", None, ""),
        local("HEAD detached at 1a2b", false, "1a2b", None, "Detached"),
        local("(a,b)", false, "1a2b", None, "Odd name"),
    ];
    for r in &records {
        let line = r.to_line();
        let back = LocalBranch::parse(&line).unwrap();
        assert!(same_local(r, &back), "{line}");
    }
    assert_eq!(records[0].to_line(), "* main a1b2c3d [origin/main] Initial commit");
    assert_eq!(records[3].to_line(), "  (HEAD detached at 1a2b) 1a2b Detached");
    assert_eq!(records[2].to_line(), "  topic abc ");
    assert_eq!(records[4].to_line(), "  (a,b) 1a2b Odd name");
}

#[test]
fn remote_round_trip() {
    let records = vec![
        RemoteBranch {
            name: "origin/HEAD".to_string(),
            reference: RemoteBranchRef::Branch("origin/main".to_string()),
        },
        RemoteBranch {
            name: "origin/main".to_string(),
            reference: RemoteBranchRef::Commit {
                sha: "a1b2".to_string(),
                message: "A message".to_string(),
            },
        },
    ];
    for r in &records {
        let back = RemoteBranch::parse(&r.to_line()).unwrap();
        assert!(same_remote(r, &back));
    }
    assert_eq!(records[0].to_line(), "origin/HEAD -> origin/main");
}

#[test]
fn corrupt_line_fails_whole_listing() {
    let records = vec![
        local("main", true, "a1", None, "one"),
        local("dev", false, "b2", None, "two"),
        local("old", false, "c3", None, "three"),
    ];
    let mut lines: Vec<String> = records.iter().map(|r| r.to_line()).collect();
    let all = parse_local_branches(&lines).unwrap();
    assert_eq!(all.len(), 3);
    lines[1] = "dev zz two".to_string();
    assert_eq!(
        parse_local_branches(&lines).unwrap_err(),
        ParseError { kind: ParseErrorKind::CommitSha, offset: 4 }
    );
}

#[test]
fn remote_listing_parses_every_line() {
    let lines = vec![
        "  origin/HEAD -> origin/main".to_string(),
        "  origin/main a1b2 Initial".to_string(),
    ];
    let bs = parse_remote_branches(&lines).unwrap();
    assert_eq!(bs.len(), 2);
    assert_eq!(bs[1].name, "origin/main");
    let bad = vec!["origin/x".to_string()];
    assert_eq!(parse_remote_branches(&bad).unwrap_err().kind, ParseErrorKind::Reference);
}

#[test]
fn upstream_descriptor_split() {
    let u = UpstreamInfo::from_descriptor("origin/main: behind 3");
    assert_eq!(u.name, "origin/main");
    assert_eq!(u.relationship.as_deref(), Some("behind 3"));
    let v = UpstreamInfo::from_descriptor("origin/main");
    assert_eq!(v.name, "origin/main");
    assert_eq!(v.relationship, None);
}

#[test]
fn lines_parse_through_from_str() {
    let b: LocalBranch = "  dev 1a2b Dev".parse().unwrap();
    assert_eq!(b.name, "dev");
    let r: Result<RemoteBranch, ParseError> = "origin/x".parse();
    assert!(r.is_err());
}
