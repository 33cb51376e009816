use git_branches::view::BranchesView;

#[test]
fn selection_clamps() {
    let mut v = BranchesView::new(vec![1u8, 2, 3, 4]);
    v.move_selection(2);
    assert_eq!(v.selected_index, 2);
    v.move_selection(10);
    assert_eq!(v.selected_index, 3);
    v.move_selection(-1);
    assert_eq!(v.selected_index, 2);
    v.move_selection(isize::MIN);
    assert_eq!(v.selected_index, 0);
    v.move_selection(isize::MAX);
    assert_eq!(v.selected_index, 3);
    v.move_selection(0);
    assert_eq!(v.selected_index, 3);
}

#[test]
fn selection_on_empty_list() {
    let mut v: BranchesView<u8> = BranchesView::new(Vec::new());
    v.move_selection(5);
    assert_eq!(v.selected_index, 0);
    v.move_selection(-5);
    assert_eq!(v.selected_index, 0);
    assert!(v.selected_branch().is_none());
}

#[test]
fn selected_branch_reads_selection() {
    let mut v = BranchesView::new(vec![10u8, 20, 30]);
    assert_eq!(v.selected_branch(), Some(&10));
    v.move_selection(1);
    assert_eq!(v.selected_branch(), Some(&20));
}

#[test]
fn scroll_window_follows_selection() {
    let mut v = BranchesView::new((0u8..20).collect::<Vec<_>>());
    v.move_selection(12);
    v.reconcile_scroll(5);
    assert_eq!(v.scroll_offset, 7);
    assert!(v.scroll_offset <= v.selected_index && v.selected_index <= v.scroll_offset + 5);
    v.reconcile_scroll(5);
    assert_eq!(v.scroll_offset, 7);
    v.move_selection(-10);
    v.reconcile_scroll(5);
    assert_eq!(v.scroll_offset, 2);
    assert_eq!(v.selected_index, 2);
    v.move_selection(3);
    v.reconcile_scroll(5);
    assert_eq!(v.scroll_offset, 2);
}
