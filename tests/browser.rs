use git_branches::branch::{LocalBranch, UpstreamInfo};
use git_branches::browser::{Action, BranchType, Git, Key};
use git_branches::command::{fetch, ActionError, CommandTag};

fn local(name: &str, current: bool, upstream: Option<&str>) -> LocalBranch {
    LocalBranch {
        name: name.to_string(),
        current,
        commit_sha: "abc".to_string(),
        upstream_info: upstream.map(|u| UpstreamInfo { name: u.to_string(), relationship: None }),
        commit_message: String::new(),
    }
}

fn run_args(a: &Option<Action>) -> (Vec<String>, CommandTag) {
    match a {
        Some(Action::Run(c)) => (c.args.clone(), c.tag),
        _ => panic!("expected a command"),
    }
}

fn strings(v: &[&str]) -> Vec<String> {
    v.iter().map(|s| s.to_string()).collect()
}

fn loaded() -> Git {
    let mut g = Git::new(false, strings(&["--oneline"]));
    let lines = strings(&["  dev 1a2b [origin/dev] Dev work", "* main a1b2 [origin/main: ahead 1] Main"]);
    g.handle_command_result(Some(0), Some(CommandTag::ListLocalBranches), &lines, String::new());
    g
}

#[test]
fn listing_result_selects_current() {
    let g = loaded();
    assert_eq!(g.local_branches_tab.view.branches.len(), 2);
    assert_eq!(g.local_branches_tab.view.selected_index, 1);
    assert!(g.error_message.is_none());
}

#[test]
fn corrupt_listing_keeps_previous_records() {
    let mut g = loaded();
    let bad = strings(&["  dev 1a2b Dev", "* main zz Main"]);
    let out = g.handle_command_result(Some(0), Some(CommandTag::ListLocalBranches), &bad, String::new());
    assert!(out.render);
    assert_eq!(g.local_branches_tab.view.branches.len(), 2);
    assert_eq!(g.local_branches_tab.view.branches[0].name, "dev");
    assert_eq!(g.local_branches_tab.view.selected_index, 1);
    assert_eq!(
        g.error_message.as_deref(),
        Some("Failed to parse branch line: expected a commit sha")
    );
}

#[test]
fn enter_switches_to_selected() {
    let mut g = loaded();
    let out = g.handle_key_input(Key::Enter);
    assert_eq!(run_args(&out.action), (strings(&["switch", "main"]), CommandTag::Switch));
}

#[test]
fn keys_issue_commands() {
    let mut g = loaded();
    let out = g.handle_key_input(Key::Ctrl('d'));
    assert_eq!(run_args(&out.action), (strings(&["branch", "-d", "main"]), CommandTag::Delete));
    let out = g.handle_key_input(Key::Ctrl('x'));
    assert_eq!(run_args(&out.action), (strings(&["branch", "-D", "main"]), CommandTag::Delete));
    let out = g.handle_key_input(Key::Ctrl('p'));
    assert_eq!(run_args(&out.action), (strings(&["switch", "-"]), CommandTag::Switch));
    let out = g.handle_key_input(Key::Ctrl('r'));
    assert_eq!(run_args(&out.action), (strings(&["branch", "-vv"]), CommandTag::ListLocalBranches));
    let out = g.handle_key_input(Key::Ctrl('f'));
    assert_eq!(run_args(&out.action), (strings(&["fetch", "origin", "main:main"]), CommandTag::Fetch));
    match g.handle_key_input(Key::Ctrl('l')).action {
        Some(Action::OpenLog { args, floating }) => {
            assert_eq!(args, strings(&["log", "--oneline", "main"]));
            assert!(!floating);
        }
        _ => panic!("expected a log pane"),
    }
}

#[test]
fn typing_creates_branch_from_query() {
    let mut g = loaded();
    g.handle_key_input(Key::Char('n'));
    g.handle_key_input(Key::Char('e'));
    g.handle_key_input(Key::Char('w'));
    assert_eq!(g.local_branches_tab.input, "new");
    let out = g.handle_key_input(Key::Ctrl('c'));
    assert_eq!(run_args(&out.action), (strings(&["checkout", "-b", "new"]), CommandTag::Create));
    g.handle_key_input(Key::Backspace);
    assert_eq!(g.local_branches_tab.input, "ne");
}

#[test]
fn no_selection_is_an_error_then_dismissed() {
    let mut g = Git::new(false, Vec::new());
    let out = g.handle_key_input(Key::Enter);
    assert!(out.action.is_none());
    assert_eq!(g.error_message.as_deref(), Some("No branch selected"));
    let out = g.handle_key_input(Key::Esc);
    assert!(out.render && out.action.is_none());
    assert!(g.error_message.is_none());
    let out = g.handle_key_input(Key::Esc);
    assert!(matches!(out.action, Some(Action::Close)));
}

#[test]
fn failed_command_shows_stderr() {
    let mut g = loaded();
    let out = g.handle_command_result(Some(1), Some(CommandTag::Switch), &Vec::new(), "fatal: nope".to_string());
    assert!(out.render);
    assert_eq!(g.error_message.as_deref(), Some("fatal: nope"));
    let mut h = loaded();
    h.handle_command_result(None, Some(CommandTag::Switch), &Vec::new(), "killed".to_string());
    assert_eq!(h.error_message.as_deref(), Some("killed"));
}

#[test]
fn success_of_changing_command_relists() {
    let mut g = loaded();
    let out = g.handle_command_result(Some(0), Some(CommandTag::Delete), &Vec::new(), String::new());
    assert_eq!(run_args(&out.action), (strings(&["branch", "-vv"]), CommandTag::ListLocalBranches));
    g.branch_type = BranchType::Remote;
    let out = g.handle_command_result(Some(0), Some(CommandTag::TrackRemote), &Vec::new(), String::new());
    assert_eq!(g.branch_type, BranchType::Local);
    assert_eq!(run_args(&out.action).1, CommandTag::ListLocalBranches);
    let out = g.handle_command_result(Some(0), None, &Vec::new(), String::new());
    assert!(!out.render && out.action.is_none());
}

#[test]
fn remote_tab_tracks_and_switches_back() {
    let mut g = loaded();
    g.handle_key_input(Key::Tab);
    assert_eq!(g.branch_type, BranchType::Remote);
    let first = g.begin_render().unwrap();
    assert_eq!(first.args, strings(&["branch", "-r", "-v"]));
    assert!(g.begin_render().is_none());
    let lines = strings(&["  origin/HEAD -> origin/main", "  origin/topic 9f8e Topic"]);
    g.handle_command_result(Some(0), Some(CommandTag::ListRemoteBranches), &lines, String::new());
    g.handle_key_input(Key::Down);
    let out = g.handle_key_input(Key::Enter);
    assert_eq!(
        run_args(&out.action),
        (strings(&["checkout", "--track", "origin/topic"]), CommandTag::TrackRemote)
    );
    g.handle_key_input(Key::Tab);
    assert_eq!(g.branch_type, BranchType::Local);
}

#[test]
fn fetch_errors() {
    assert_eq!(fetch(&local("x", false, None)).unwrap_err(), ActionError::NoUpstream);
    assert_eq!(fetch(&local("x", false, Some("nosep"))).unwrap_err(), ActionError::InvalidUpstream);
    let c = fetch(&local("x", false, Some("up/stream:rest"))).unwrap();
    assert_eq!(c.args, strings(&["fetch", "up", "stream:x"]));
    assert_eq!(ActionError::NoUpstream.message(), "Local branch does not track any remote branch");
}
