//! A tab: the full list of records, and a list narrowed by a typed query.

use vstd::prelude::*;
use crate::branch::Branch;
use crate::view::{BranchesView, first_current};

verus! {

/// The names that the fuzzy matcher keeps of `names` for `query`, best
/// match first.
pub uninterp spec fn fuzzy_matches(query: Seq<char>, names: Seq<Seq<char>>) -> Seq<Seq<char>>;

pub open spec fn string_views(v: Seq<String>) -> Seq<Seq<char>> {
    v.map_values(|s: String| s@)
}

/// Relies on nucleo_matcher's `Pattern::parse` (smart case, smart
/// normalisation) and `Pattern::match_list` with the default matcher
/// configuration: the names that match, ordered by descending score. The
/// outcome depends on the query and the names alone, and holds only names
/// that were handed in, at most as many as were handed in.
#[verifier::external_body]
fn rank_names(query: &str, names: &Vec<String>) -> (r: Vec<String>)
    ensures
        string_views(r@) == fuzzy_matches(query@, string_views(names@)),
        forall|i: int| 0 <= i < r@.len() ==> string_views(names@).contains(#[trigger] r@[i]@),
        r@.len() <= names@.len(),
{
    let mut matcher = nucleo_matcher::Matcher::new(nucleo_matcher::Config::DEFAULT);
    nucleo_matcher::pattern::Pattern::parse(
        query,
        nucleo_matcher::pattern::CaseMatching::Smart,
        nucleo_matcher::pattern::Normalization::Smart,
    ).match_list(names.iter().map(|n| n.as_str()), &mut matcher).into_iter().map(
        |(n, _)| String::from(n),
    ).collect()
}

/// Relies on `String::push`: appends one character.
#[verifier::external_body]
fn push_char(s: &mut String, c: char)
    ensures
        final(s)@ == old(s)@.push(c),
{
    s.push(c)
}

/// Removes the last character, if any.
fn drop_last_char(s: &mut String)
    ensures
        old(s)@.len() == 0 ==> final(s)@ == old(s)@,
        old(s)@.len() > 0 ==> final(s)@ == old(s)@.drop_last(),
{
    let n = s.as_str().unicode_len();
    if n > 0 {
        let t = s.as_str().substring_char(0, n - 1).to_owned();
        assert(t@ =~= s@.drop_last());
        *s = t;
    }
}

pub open spec fn names_of<T: Branch>(bs: Seq<T>) -> Seq<Seq<char>> {
    bs.map_values(|b: T| b.spec_name())
}

/// The index of the last record named `n`.
pub open spec fn last_named<T: Branch>(bs: Seq<T>, n: Seq<char>) -> Option<int>
    decreases bs.len(),
{
    if bs.len() == 0 {
        None
    } else if bs.last().spec_name() == n {
        Some(bs.len() - 1)
    } else {
        last_named(bs.drop_last(), n)
    }
}

/// For each name in turn, the last record of that name; names that no
/// record has are passed over.
pub open spec fn ranked_records<T: Branch>(bs: Seq<T>, names: Seq<Seq<char>>) -> Seq<T>
    decreases names.len(),
{
    if names.len() == 0 {
        Seq::empty()
    } else {
        let rest = ranked_records(bs, names.drop_last());
        match last_named(bs, names.last()) {
            Some(i) => rest.push(bs[i]),
            None => rest,
        }
    }
}

/// The filtered records for `query` over the full records `bs`.
pub open spec fn filtered_records<T: Branch>(bs: Seq<T>, query: Seq<char>) -> Seq<T> {
    ranked_records(bs, fuzzy_matches(query, names_of(bs)))
}

proof fn lemma_last_named<T: Branch>(bs: Seq<T>, n: Seq<char>)
    ensures
        last_named(bs, n) matches Some(i) ==> 0 <= i < bs.len() && bs[i].spec_name() == n,
    decreases bs.len(),
{
    if bs.len() > 0 && bs.last().spec_name() != n {
        lemma_last_named(bs.drop_last(), n);
    }
}

proof fn lemma_ranked_from<T: Branch>(bs: Seq<T>, names: Seq<Seq<char>>)
    ensures
        forall|i: int|
            0 <= i < ranked_records(bs, names).len() ==> exists|j: int|
                0 <= j < bs.len() && #[trigger] ranked_records(bs, names)[i] == bs[j],
    decreases names.len(),
{
    if names.len() > 0 {
        lemma_ranked_from(bs, names.drop_last());
        lemma_last_named(bs, names.last());
        let rest = ranked_records(bs, names.drop_last());
        assert forall|i: int| 0 <= i < ranked_records(bs, names).len() implies exists|j: int|
            0 <= j < bs.len() && #[trigger] ranked_records(bs, names)[i] == bs[j] by {
            if i < rest.len() {
                assert(ranked_records(bs, names)[i] == rest[i]);
            } else {
                let k = last_named(bs, names.last())->0;
                assert(ranked_records(bs, names)[i] == bs[k]);
            }
        }
    }
}

proof fn lemma_named_found<T: Branch>(bs: Seq<T>, n: Seq<char>)
    requires
        names_of(bs).contains(n),
    ensures
        last_named(bs, n) is Some,
    decreases bs.len(),
{
    let k = choose|k: int| 0 <= k < names_of(bs).len() && names_of(bs)[k] == n;
    if bs.last().spec_name() != n {
        assert(k < bs.len() - 1);
        assert(names_of(bs.drop_last())[k] == n);
        lemma_named_found(bs.drop_last(), n);
    }
}

/// Where every ranked name is a record's name, each gives one record.
proof fn lemma_ranked_len<T: Branch>(bs: Seq<T>, names: Seq<Seq<char>>)
    requires
        forall|i: int| 0 <= i < names.len() ==> names_of(bs).contains(#[trigger] names[i]),
    ensures
        ranked_records(bs, names).len() == names.len(),
    decreases names.len(),
{
    if names.len() > 0 {
        assert forall|i: int| 0 <= i < names.drop_last().len() implies names_of(bs).contains(
            #[trigger] names.drop_last()[i],
        ) by {
            assert(names.drop_last()[i] == names[i]);
        }
        lemma_ranked_len(bs, names.drop_last());
        lemma_named_found(bs, names.last());
    }
}

/// A tab over records of type `T`: the full view, and, while the query is
/// not empty, a view of the records that match it.
pub struct Tab<T> {
    pub inited: bool,
    pub input: String,
    pub view: BranchesView<T>,
    pub filtered_view: Option<BranchesView<T>>,
}

impl<T: Branch> Tab<T> {
    /// The full view is well formed; the filtered view is there exactly
    /// while the query is not empty, and then it is well formed and holds the
    /// records that the matcher ranks for the query.
    pub open spec fn wf(&self) -> bool {
        &&& self.view.wf()
        &&& (self.filtered_view is None <==> self.input@.len() == 0)
        &&& match self.filtered_view {
            Some(f) => f.wf() && f.branches@ == filtered_records(self.view.branches@, self.input@),
            None => true,
        }
    }

    /// The view that selection and navigation go to.
    pub open spec fn active(&self) -> BranchesView<T> {
        match self.filtered_view {
            Some(f) => f,
            None => self.view,
        }
    }
}

/// `new` is `old` with the active view's selection moved by `delta`.
pub open spec fn stepped<T: Branch>(old: Tab<T>, new: Tab<T>, delta: int) -> bool {
    &&& new.wf()
    &&& new.input == old.input
    &&& new.inited == old.inited
    &&& new.active().branches == old.active().branches
    &&& new.active().scroll_offset == old.active().scroll_offset
    &&& (old.active().branches.len() == 0 ==> new.active().selected_index
        == old.active().selected_index)
    &&& (old.active().branches.len() > 0 ==> new.active().selected_index == crate::view::clamp_index(
        old.active().selected_index + delta,
        old.active().branches.len() as int,
    ))
    &&& (old.filtered_view is Some ==> new.view == old.view)
    &&& (old.filtered_view is None ==> new.filtered_view is None)
}

/// `new` is `old` with `c` typed into the query.
pub open spec fn typed<T: Branch>(old: Tab<T>, new: Tab<T>, c: char) -> bool {
    &&& new.wf()
    &&& new.input@ == old.input@.push(c)
    &&& new.view == old.view
    &&& new.inited == old.inited
    &&& new.filtered_view matches Some(f) && rebuilt(
        old.filtered_view,
        f,
        filtered_records(old.view.branches@, new.input@),
    )
}

/// `new` is `old` with the last character of the query erased.
pub open spec fn erased<T: Branch>(old: Tab<T>, new: Tab<T>) -> bool {
    &&& new.wf()
    &&& new.input@ == (if old.input@.len() == 0 {
        old.input@
    } else {
        old.input@.drop_last()
    })
    &&& new.view == old.view
    &&& new.inited == old.inited
    &&& (new.input@.len() == 0 ==> new.filtered_view is None)
    &&& (new.input@.len() > 0 ==> (new.filtered_view matches Some(f) && rebuilt(
        old.filtered_view,
        f,
        filtered_records(old.view.branches@, new.input@),
    )))
}

/// `new` is `old` refreshed with the records `bs`.
pub open spec fn refreshed<T: Branch>(old: Tab<T>, new: Tab<T>, bs: Seq<T>) -> bool {
    &&& new.wf()
    &&& new.view.branches@ == bs
    &&& new.view.selected_index == match first_current(bs) {
        Some(i) => i,
        None => 0,
    }
    &&& new.view.scroll_offset == old.view.scroll_offset
    &&& new.input == old.input
    &&& new.inited == old.inited
    &&& (old.input@.len() == 0 ==> new.filtered_view is None)
    &&& (old.input@.len() > 0 ==> (new.filtered_view matches Some(f) && rebuilt(
        old.filtered_view,
        f,
        filtered_records(bs, old.input@),
    )))
}

impl<T: Branch> Default for Tab<T> {
    fn default() -> (r: Tab<T>)
        ensures
            r.wf(),
            !r.inited,
            r.input@.len() == 0,
            r.view.branches@.len() == 0,
            r.view.selected_index == 0,
            r.view.scroll_offset == 0,
    {
        Tab { inited: false, input: String::new(), view: BranchesView::new(Vec::new()), filtered_view: None }
    }
}

impl<T: Branch> Tab<T> {
    pub fn select_down(&mut self)
        requires
            old(self).wf(),
        ensures
            stepped(*old(self), *final(self), 1),
    {
        match &mut self.filtered_view {
            Some(f) => f.move_selection(1),
            None => self.view.move_selection(1),
        }
    }

    pub fn select_up(&mut self)
        requires
            old(self).wf(),
        ensures
            stepped(*old(self), *final(self), -1),
    {
        match &mut self.filtered_view {
            Some(f) => f.move_selection(-1),
            None => self.view.move_selection(-1),
        }
    }

    /// Fits the active view's scroll offset to a viewport of `capacity`
    /// rows.
    pub fn reconcile_scroll(&mut self, capacity: usize)
        requires
            old(self).wf(),
        ensures
            final(self).wf(),
            final(self).input == old(self).input,
            final(self).inited == old(self).inited,
            final(self).active().branches == old(self).active().branches,
            final(self).active().selected_index == old(self).active().selected_index,
            final(self).active().scroll_offset == crate::view::reconciled_offset(
                old(self).active().selected_index as int,
                old(self).active().scroll_offset as int,
                capacity as int,
            ),
            old(self).filtered_view is Some ==> final(self).view == old(self).view,
            old(self).filtered_view is None ==> final(self).filtered_view is None,
    {
        match &mut self.filtered_view {
            Some(f) => f.reconcile_scroll(capacity),
            None => self.view.reconcile_scroll(capacity),
        }
    }

    /// The filtered view while there is one, else the full view.
    pub fn current_view(&self) -> (r: &BranchesView<T>)
        ensures
            *r == self.active(),
    {
        match &self.filtered_view {
            Some(filtered_view) => filtered_view,
            None => &self.view,
        }
    }
}

/// The selection of a rebuilt filtered view of `n` records: the previous
/// one where it is still in range, else the first record.
pub open spec fn kept_selection<T>(prev: Option<BranchesView<T>>, n: int) -> int {
    match prev {
        Some(f) => if f.selected_index < n {
            f.selected_index as int
        } else {
            0
        },
        None => 0,
    }
}

pub open spec fn kept_offset<T>(prev: Option<BranchesView<T>>) -> int {
    match prev {
        Some(f) => f.scroll_offset as int,
        None => 0,
    }
}

/// The filtered view rebuilt over `records` from the previous one.
pub open spec fn rebuilt<T>(prev: Option<BranchesView<T>>, f: BranchesView<T>, records: Seq<T>) -> bool {
    &&& f.branches@ == records
    &&& f.selected_index == kept_selection(prev, records.len() as int)
    &&& f.scroll_offset == kept_offset(prev)
}

fn find_last_named<T: Branch>(bs: &Vec<T>, name: &String) -> (r: Option<usize>)
    ensures
        match (r, last_named(bs@, name@)) {
            (Some(i), Some(j)) => i == j && i < bs@.len(),
            (None, None) => true,
            _ => false,
        },
{
    let mut i: usize = bs.len();
    assert(bs@.take(i as int) =~= bs@);
    while i > 0
        invariant
            i <= bs@.len(),
            last_named(bs@, name@) == last_named(bs@.take(i as int), name@),
        decreases i,
    {
        assert(bs@.take(i as int).drop_last() =~= bs@.take(i - 1));
        assert(bs@.take(i as int).last() == bs@[i - 1]);
        let candidate = bs[i - 1].name().to_owned();
        if candidate == *name {
            return Some(i - 1);
        }
        i = i - 1;
    }
    None
}

fn collect_names<T: Branch>(bs: &Vec<T>) -> (r: Vec<String>)
    ensures
        string_views(r@) == names_of(bs@),
{
    let mut names: Vec<String> = Vec::new();
    let mut i: usize = 0;
    while i < bs.len()
        invariant
            i <= bs@.len(),
            string_views(names@) == names_of(bs@.take(i as int)),
        decreases bs@.len() - i,
    {
        let ghost prev = names@;
        names.push(bs[i].name().to_owned());
        assert(string_views(names@) =~= string_views(prev).push(bs@[i as int].spec_name()));
        assert(names_of(bs@.take(i + 1)) =~= names_of(bs@.take(i as int)).push(bs@[i as int].spec_name()));
        i = i + 1;
    }
    assert(bs@.take(i as int) =~= bs@);
    names
}

impl<T: Branch> Tab<T> {
    /// Rebuilds the filtered view from names ranked by the matcher: for each
    /// name, the last record of the full view that has it. The selection is
    /// kept where it is still in range, else it is the first record.
    pub fn apply_ranking(&mut self, ranked: &Vec<String>)
        ensures
            final(self).view == old(self).view,
            final(self).input == old(self).input,
            final(self).inited == old(self).inited,
            final(self).filtered_view matches Some(f) && rebuilt(
                old(self).filtered_view,
                f,
                ranked_records(old(self).view.branches@, string_views(ranked@)),
            ),
    {
        let ghost names = string_views(ranked@);
        let mut records: Vec<T> = Vec::new();
        let mut i: usize = 0;
        assert(names.take(0) =~= Seq::<Seq<char>>::empty());
        while i < ranked.len()
            invariant
                names == string_views(ranked@),
                i <= ranked@.len(),
                self.view == old(self).view,
                self.input == old(self).input,
                self.inited == old(self).inited,
                self.filtered_view == old(self).filtered_view,
                records@ == ranked_records(self.view.branches@, names.take(i as int)),
            decreases ranked@.len() - i,
        {
            assert(names.take(i + 1).drop_last() =~= names.take(i as int));
            assert(names.take(i + 1).last() == ranked@[i as int]@);
            match find_last_named(&self.view.branches, &ranked[i]) {
                Some(k) => {
                    records.push(self.view.branches[k].duplicate());
                },
                None => {},
            }
            i = i + 1;
        }
        assert(names.take(i as int) =~= names);
        let n = records.len();
        match &mut self.filtered_view {
            Some(f) => {
                f.branches = records;
                if f.selected_index >= n {
                    f.selected_index = 0;
                }
            },
            None => {
                self.filtered_view = Some(BranchesView::new(records));
            },
        }
    }

    /// Rebuilds the filtered view for the current query.
    pub fn update_filtered_view(&mut self)
        ensures
            final(self).view == old(self).view,
            final(self).input == old(self).input,
            final(self).inited == old(self).inited,
            final(self).filtered_view matches Some(f) && rebuilt(
                old(self).filtered_view,
                f,
                filtered_records(old(self).view.branches@, old(self).input@),
            ),
            final(self).filtered_view matches Some(f) && f.branches@.len() == fuzzy_matches(
                old(self).input@,
                names_of(old(self).view.branches@),
            ).len(),
    {
        let names = collect_names(&self.view.branches);
        let ranked = rank_names(self.input.as_str(), &names);
        proof {
            let rv = string_views(ranked@);
            assert forall|i: int| 0 <= i < rv.len() implies names_of(self.view.branches@).contains(
                #[trigger] rv[i],
            ) by {
                assert(rv[i] == ranked@[i]@);
            }
            lemma_ranked_len(self.view.branches@, rv);
        }
        self.apply_ranking(&ranked);
    }

    /// Appends `c` to the query and rebuilds the filtered view.
    pub fn push_to_input(&mut self, c: char)
        requires
            old(self).wf(),
        ensures
            typed(*old(self), *final(self), c),
    {
        push_char(&mut self.input, c);
        self.update_filtered_view();
        proof {
            let f = self.filtered_view->0;
            assert(f.wf());
        }
    }

    /// Removes the last character of the query; with the query empty the
    /// filtered view is dropped, else it is rebuilt.
    pub fn pop_from_input(&mut self)
        requires
            old(self).wf(),
        ensures
            erased(*old(self), *final(self)),
    {
        drop_last_char(&mut self.input);
        if self.input.as_str().is_empty() {
            self.filtered_view = None;
        } else {
            self.update_filtered_view();
        }
    }

    /// Replaces the full list, selects the branch checked out (or the first
    /// record), and rebuilds the filtered view while there is a query.
    pub fn refresh(&mut self, branches: Vec<T>)
        requires
            old(self).wf(),
        ensures
            refreshed(*old(self), *final(self), branches@),
    {
        self.view.branches = branches;
        self.view.select_current();
        if !self.input.as_str().is_empty() {
            self.update_filtered_view();
        }
    }
}

/// Every record of the filtered view is a record of the full view, so its
/// names are among the full view's names; and with an empty query there is
/// no filtered view.
pub proof fn lemma_filter_narrowing<T: Branch>(tab: Tab<T>)
    requires
        tab.wf(),
    ensures
        tab.input@.len() == 0 ==> tab.filtered_view is None,
        tab.filtered_view matches Some(f) ==> forall|i: int|
            0 <= i < f.branches@.len() ==> exists|j: int|
                0 <= j < tab.view.branches@.len() && (#[trigger] f.branches@[i]).spec_name()
                    == tab.view.branches@[j].spec_name(),
{
    if let Some(f) = tab.filtered_view {
        let bs = tab.view.branches@;
        lemma_ranked_from(bs, fuzzy_matches(tab.input@, names_of(bs)));
        assert forall|i: int| 0 <= i < f.branches@.len() implies exists|j: int|
            0 <= j < bs.len() && (#[trigger] f.branches@[i]).spec_name() == bs[j].spec_name() by {
            let j = choose|j: int| 0 <= j < bs.len() && f.branches@[i] == bs[j];
            assert(f.branches@[i].spec_name() == bs[j].spec_name());
        }
    }
}

} // verus!
