use git_branches::branch::{Branch, LocalBranch, RemoteBranch, RemoteBranchRef};
use git_branches::tab::Tab;

fn local(name: &str, current: bool) -> LocalBranch {
    LocalBranch {
        name: name.to_string(),
        current,
        commit_sha: "abc".to_string(),
        upstream_info: None,
        commit_message: String::new(),
    }
}

fn names<T: Branch>(bs: &[T]) -> Vec<String> {
    bs.iter().map(|b| b.name().to_string()).collect()
}

#[test]
fn type_to_filter() {
    let mut tab: Tab<LocalBranch> = Tab::default();
    tab.refresh(vec![local("main", false), local("feature/foo", false), local("release", false)]);
    for c in "fea".chars() {
        tab.push_to_input(c);
    }
    let f = tab.filtered_view.as_ref().unwrap();
    assert_eq!(names(&f.branches), vec!["feature/foo".to_string()]);
    assert_eq!(f.selected_index, 0);
    assert_eq!(tab.current_view().branches.len(), 1);
    assert_eq!(tab.view.branches.len(), 3);
}

#[test]
fn filtered_names_come_from_full_view() {
    let mut tab: Tab<LocalBranch> = Tab::default();
    tab.refresh(vec![local("main", false), local("maint", false), local("dev", false)]);
    tab.push_to_input('m');
    let full = names(&tab.view.branches);
    for n in names(&tab.filtered_view.as_ref().unwrap().branches) {
        assert!(full.contains(&n));
    }
    assert_eq!(tab.filtered_view.as_ref().unwrap().branches.len(), 2);
}

#[test]
fn erasing_query_drops_filter() {
    let mut tab: Tab<LocalBranch> = Tab::default();
    tab.refresh(vec![local("main", false), local("dev", false)]);
    tab.push_to_input('d');
    tab.push_to_input('e');
    assert_eq!(tab.input, "de");
    tab.pop_from_input();
    assert_eq!(tab.input, "d");
    assert!(tab.filtered_view.is_some());
    tab.pop_from_input();
    assert_eq!(tab.input, "");
    assert!(tab.filtered_view.is_none());
    tab.pop_from_input();
    assert!(tab.filtered_view.is_none());
}

#[test]
fn filter_selection_reset_when_out_of_range() {
    let mut tab: Tab<LocalBranch> = Tab::default();
    tab.refresh(vec![local("abc", false), local("abd", false), local("xyz", false)]);
    tab.push_to_input('a');
    tab.select_down();
    assert_eq!(tab.current_view().selected_index, 1);
    tab.push_to_input('b');
    assert_eq!(tab.current_view().selected_index, 1);
    tab.push_to_input('c');
    assert_eq!(tab.current_view().branches.len(), 1);
    assert_eq!(tab.current_view().selected_index, 0);
}

#[test]
fn refresh_preserves_current() {
    let mut tab: Tab<LocalBranch> = Tab::default();
    tab.refresh(vec![local("a", false), local("b", false), local("c", false), local("d", false)]);
    tab.select_down();
    tab.select_down();
    tab.select_down();
    assert_eq!(tab.view.selected_index, 3);
    tab.refresh(vec![local("a", false), local("b", false), local("c", true), local("d", false)]);
    assert_eq!(tab.view.selected_index, 2);
}

#[test]
fn refresh_without_current_selects_first() {
    let mut tab: Tab<RemoteBranch> = Tab::default();
    let r = |n: &str| RemoteBranch {
        name: n.to_string(),
        reference: RemoteBranchRef::Branch("x".to_string()),
    };
    tab.refresh(vec![r("origin/a"), r("origin/b")]);
    tab.select_down();
    assert_eq!(tab.view.selected_index, 1);
    tab.refresh(vec![r("origin/a"), r("origin/b"), r("origin/c")]);
    assert_eq!(tab.view.selected_index, 0);
}

#[test]
fn refresh_recomputes_filter() {
    let mut tab: Tab<LocalBranch> = Tab::default();
    tab.refresh(vec![local("main", false)]);
    tab.push_to_input('d');
    tab.push_to_input('e');
    tab.push_to_input('v');
    assert_eq!(tab.filtered_view.as_ref().unwrap().branches.len(), 0);
    tab.refresh(vec![local("main", false), local("dev", true)]);
    assert_eq!(names(&tab.filtered_view.as_ref().unwrap().branches), vec!["dev".to_string()]);
}

#[test]
fn tab_scroll_on_active_view() {
    let mut tab: Tab<LocalBranch> = Tab::default();
    let bs: Vec<LocalBranch> = (0..10).map(|i| local(&format!("b{i}"), false)).collect();
    tab.refresh(bs);
    for _ in 0..8 {
        tab.select_down();
    }
    tab.reconcile_scroll(3);
    assert_eq!(tab.view.scroll_offset, 5);
    tab.select_up();
    assert_eq!(tab.view.selected_index, 7);
}
