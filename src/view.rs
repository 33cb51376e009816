//! An ordered list of records with a selection and a scroll offset.

use vstd::prelude::*;
use crate::branch::Branch;

verus! {

/// A list of records, the index of the selected one, and the index of the
/// first one shown.
pub struct BranchesView<T> {
    pub branches: Vec<T>,
    pub selected_index: usize,
    pub scroll_offset: usize,
}

/// `i` moved into `[0, len - 1]`.
pub open spec fn clamp_index(i: int, len: int) -> int {
    if i < 0 {
        0
    } else if i >= len {
        len - 1
    } else {
        i
    }
}

/// The scroll offset that keeps `selected` within `capacity` rows below it:
/// pulled up to the selection, or pushed down to it, or left.
pub open spec fn reconciled_offset(selected: int, offset: int, capacity: int) -> int {
    if selected < offset {
        selected
    } else if selected > offset + capacity {
        selected - capacity
    } else {
        offset
    }
}

/// The first index of a record that is the branch checked out, if any.
pub open spec fn first_current<T: Branch>(bs: Seq<T>) -> Option<int>
    decreases bs.len(),
{
    if bs.len() == 0 {
        None
    } else if bs[0].spec_current() {
        Some(0)
    } else {
        match first_current(bs.drop_first()) {
            Some(i) => Some(i + 1),
            None => None,
        }
    }
}

impl<T> BranchesView<T> {
    /// The selection is a record's index, or 0 in an empty list.
    pub open spec fn wf(&self) -> bool {
        if self.branches.len() == 0 {
            self.selected_index == 0
        } else {
            self.selected_index < self.branches.len()
        }
    }

    /// The selected record, where the selection is a record's index.
    pub open spec fn spec_selected(&self) -> Option<T> {
        if self.selected_index < self.branches.len() {
            Some(self.branches@[self.selected_index as int])
        } else {
            None
        }
    }

    pub fn new(branches: Vec<T>) -> (r: BranchesView<T>)
        ensures
            r.branches == branches,
            r.selected_index == 0,
            r.scroll_offset == 0,
            r.wf(),
    {
        BranchesView { branches, selected_index: 0, scroll_offset: 0 }
    }

    /// The selected record; `None` where the selection is no record's index.
    pub fn selected_branch(&self) -> (r: Option<&T>)
        ensures
            r == (if self.selected_index < self.branches.len() {
                Some(&self.branches@[self.selected_index as int])
            } else {
                None
            }),
            self.wf() ==> (r is None <==> self.branches.len() == 0),
    {
        if self.selected_index < self.branches.len() {
            Some(&self.branches[self.selected_index])
        } else {
            None
        }
    }

    /// Moves the selection by `delta`, saturating at the first and the last
    /// record; does nothing on an empty list.
    pub fn move_selection(&mut self, delta: isize)
        ensures
            final(self).branches == old(self).branches,
            final(self).scroll_offset == old(self).scroll_offset,
            old(self).branches.len() == 0 ==> final(self).selected_index
                == old(self).selected_index,
            old(self).branches.len() > 0 ==> final(self).selected_index == clamp_index(
                old(self).selected_index + delta,
                old(self).branches.len() as int,
            ),
            old(self).branches.len() > 0 ==> 0 <= final(self).selected_index
                < final(self).branches.len(),
            old(self).wf() ==> final(self).wf(),
    {
        let len = self.branches.len();
        if len == 0 {
            return;
        }
        let last = len - 1;
        let sel = self.selected_index;
        let next = if delta >= 0 {
            let d = delta as usize;
            if sel >= last || d >= last - sel {
                last
            } else {
                sel + d
            }
        } else {
            let d = ((-(delta + 1)) as usize) + 1;
            if d >= sel {
                0
            } else if sel - d > last {
                last
            } else {
                sel - d
            }
        };
        self.selected_index = next;
    }

    /// Moves the scroll offset so that the selection lies in the window of
    /// `capacity` rows after it.
    pub fn reconcile_scroll(&mut self, capacity: usize)
        ensures
            final(self).branches == old(self).branches,
            final(self).selected_index == old(self).selected_index,
            final(self).scroll_offset == reconciled_offset(
                old(self).selected_index as int,
                old(self).scroll_offset as int,
                capacity as int,
            ),
            final(self).scroll_offset <= final(self).selected_index <= final(self).scroll_offset
                + capacity,
            old(self).wf() ==> final(self).wf(),
    {
        let sel = self.selected_index;
        if sel < self.scroll_offset {
            self.scroll_offset = sel;
        } else if sel - self.scroll_offset > capacity {
            self.scroll_offset = sel - capacity;
        }
    }
}

impl<T> Default for BranchesView<T> {
    fn default() -> (r: BranchesView<T>)
        ensures
            r.branches@.len() == 0,
            r.selected_index == 0,
            r.scroll_offset == 0,
            r.wf(),
    {
        BranchesView::new(Vec::new())
    }
}

impl<T: Branch> BranchesView<T> {
    /// Selects the first record that is the branch checked out, or the first
    /// record where there is none.
    pub fn select_current(&mut self)
        ensures
            final(self).branches == old(self).branches,
            final(self).scroll_offset == old(self).scroll_offset,
            final(self).selected_index == match first_current(old(self).branches@) {
                Some(i) => i,
                None => 0,
            },
            final(self).wf(),
    {
        let n = self.branches.len();
        let mut i: usize = 0;
        while i < n
            invariant
                n == self.branches.len(),
                self.branches == old(self).branches,
                self.scroll_offset == old(self).scroll_offset,
                i <= n,
                forall|k: int| 0 <= k < i ==> !(#[trigger] self.branches@[k]).spec_current(),
            decreases n - i,
        {
            if self.branches[i].is_current() {
                proof {
                    lemma_first_current(self.branches@, i as int);
                }
                self.selected_index = i;
                return;
            }
            i = i + 1;
        }
        proof {
            lemma_first_current(self.branches@, n as int);
        }
        self.selected_index = 0;
    }
}

/// Where no record before `i` is current, and `i` is the end or a current
/// record, `first_current` gives `i` (or nothing at the end).
proof fn lemma_first_current<T: Branch>(bs: Seq<T>, i: int)
    requires
        0 <= i <= bs.len(),
        forall|k: int| 0 <= k < i ==> !(#[trigger] bs[k]).spec_current(),
        i < bs.len() ==> bs[i].spec_current(),
    ensures
        first_current(bs) == (if i < bs.len() {
            Some(i)
        } else {
            None::<int>
        }),
    decreases bs.len(),
{
    if bs.len() > 0 && i > 0 {
        assert forall|k: int| 0 <= k < i - 1 implies !(#[trigger] bs.drop_first()[k]).spec_current() by {
            assert(bs.drop_first()[k] == bs[k + 1]);
        }
        lemma_first_current(bs.drop_first(), i - 1);
    }
}

/// Pulling or pushing the window a second time changes nothing.
pub proof fn lemma_reconcile_idempotent(selected: int, offset: int, capacity: int)
    requires
        capacity >= 0,
    ensures
        reconciled_offset(selected, reconciled_offset(selected, offset, capacity), capacity)
            == reconciled_offset(selected, offset, capacity),
{
}

} // verus!
