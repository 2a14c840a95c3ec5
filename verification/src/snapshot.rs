//! A complete aggregation result: one tally per category.
//!
//! A snapshot maps category ids to tallies and remembers the order in which
//! the categories were first inserted. It is handed over whole and replaced
//! whole; nothing patches a snapshot after it was delivered.

use crate::tally::{PullTally, PullTallyView};
use vstd::prelude::*;

verus! {

/// One category of a snapshot with its tally.
#[derive(Debug, PartialEq, Eq)]
pub struct CategoryTally {
    pub category_id: i32,
    pub tally: PullTally,
}

/// Mathematical value of a [`CategoryTally`].
pub struct CategoryTallyView {
    pub category_id: int,
    pub tally: PullTallyView,
}

impl View for CategoryTally {
    type V = CategoryTallyView;

    open spec fn view(&self) -> CategoryTallyView {
        CategoryTallyView { category_id: self.category_id as int, tally: self.tally@ }
    }
}

impl Clone for CategoryTally {
    fn clone(&self) -> (c: CategoryTally)
        ensures
            c@ == self@,
    {
        CategoryTally { category_id: self.category_id, tally: self.tally.clone() }
    }
}

/// Mathematical value of a snapshot: its categories in insertion order.
pub type SnapshotView = Seq<CategoryTallyView>;

/// The views of a sequence of entries, in order.
pub open spec fn entry_views(entries: Seq<CategoryTally>) -> SnapshotView {
    entries.map_values(|e: CategoryTally| e@)
}

/// No category id occurs twice.
pub open spec fn distinct_categories(s: SnapshotView) -> bool {
    forall|i: int, j: int|
        0 <= i < s.len() && 0 <= j < s.len() && (#[trigger] s[i]).category_id == (#[trigger] s[j]).category_id
            ==> i == j
}

/// `s` holds a tally for `category_id`.
pub open spec fn has_category(s: SnapshotView, category_id: int) -> bool {
    exists|i: int| 0 <= i < s.len() && (#[trigger] s[i]).category_id == category_id
}

/// What a snapshot is: categories are distinct and every tally satisfies the
/// tier invariant.
pub open spec fn snapshot_valid(s: SnapshotView) -> bool {
    &&& distinct_categories(s)
    &&& forall|i: int| 0 <= i < s.len() ==> (#[trigger] s[i]).tally.consistent()
}

/// `s` after inserting `entry`: the tally of a category already present is
/// replaced in place, a new category goes to the end.
pub open spec fn with_entry(s: SnapshotView, entry: CategoryTallyView) -> SnapshotView {
    if has_category(s, entry.category_id) {
        let i = choose|i: int| 0 <= i < s.len() && (#[trigger] s[i]).category_id == entry.category_id;
        s.update(i, entry)
    } else {
        s.push(entry)
    }
}

/// Inserting a consistent tally into a valid snapshot gives a valid snapshot
/// that holds the category, and grows it by one exactly when the category is
/// new.
pub proof fn lemma_with_entry_valid(s: SnapshotView, entry: CategoryTallyView)
    requires
        snapshot_valid(s),
        entry.tally.consistent(),
    ensures
        snapshot_valid(with_entry(s, entry)),
        has_category(with_entry(s, entry), entry.category_id),
        with_entry(s, entry).len() == s.len() + (if has_category(s, entry.category_id) {
            0int
        } else {
            1int
        }),
{
    let t = with_entry(s, entry);
    if has_category(s, entry.category_id) {
        let i = choose|i: int| 0 <= i < s.len() && (#[trigger] s[i]).category_id == entry.category_id;
        assert(t[i].category_id == entry.category_id);
        assert forall|a: int, b: int|
            0 <= a < t.len() && 0 <= b < t.len() && (#[trigger] t[a]).category_id == (
            #[trigger] t[b]).category_id implies a == b by {
            assert(s[a].category_id == t[a].category_id);
            assert(s[b].category_id == t[b].category_id);
        }
    } else {
        assert(t[s.len() as int].category_id == entry.category_id);
        assert forall|a: int, b: int|
            0 <= a < t.len() && 0 <= b < t.len() && (#[trigger] t[a]).category_id == (
            #[trigger] t[b]).category_id implies a == b by {
            if a < s.len() {
                assert(s[a].category_id == t[a].category_id);
            }
            if b < s.len() {
                assert(s[b].category_id == t[b].category_id);
            }
        }
    }
}

/// Tallies of all categories at one point in time.
#[derive(Debug, PartialEq, Eq)]
pub struct StatisticsSnapshot {
    entries: Vec<CategoryTally>,
}

impl View for StatisticsSnapshot {
    type V = SnapshotView;

    closed spec fn view(&self) -> SnapshotView {
        entry_views(self.entries@)
    }
}

impl Clone for StatisticsSnapshot {
    fn clone(&self) -> (s: StatisticsSnapshot)
        ensures
            s@ == self@,
    {
        proof {
            use_type_invariant(self);
        }
        let mut entries: Vec<CategoryTally> = Vec::new();
        let mut i: usize = 0;
        while i < self.entries.len()
            invariant
                i <= self.entries.len(),
                entries.len() == i,
                forall|j: int| 0 <= j < i ==> (#[trigger] entries[j])@ == self.entries[j]@,
            decreases self.entries.len() - i,
        {
            entries.push(self.entries[i].clone());
            i = i + 1;
        }
        assert(entry_views(entries@) =~= entry_views(self.entries@));
        StatisticsSnapshot { entries }
    }
}

impl StatisticsSnapshot {
    /// Holds of every snapshot.
    #[verifier::type_invariant]
    pub open spec fn valid(&self) -> bool {
        snapshot_valid(self@)
    }

    /// A snapshot without categories.
    pub fn new() -> (s: StatisticsSnapshot)
        ensures
            s@ == SnapshotView::empty(),
    {
        let s = StatisticsSnapshot { entries: Vec::new() };
        assert(s@ =~= SnapshotView::empty());
        s
    }

    /// Number of categories.
    pub fn len(&self) -> (n: usize)
        ensures
            n == self@.len(),
    {
        self.entries.len()
    }

    /// Whether the snapshot has no category.
    pub fn is_empty(&self) -> (b: bool)
        ensures
            b == (self@.len() == 0),
    {
        self.entries.len() == 0
    }

    /// The category at position `index` of the insertion order, if there is
    /// one. Categories are distinct, and every tally satisfies the tier
    /// invariant.
    pub fn entry(&self, index: usize) -> (r: Option<&CategoryTally>)
        ensures
            snapshot_valid(self@),
            match r {
                Some(e) => index < self@.len() && e@ == self@[index as int],
                None => index >= self@.len(),
            },
    {
        proof {
            use_type_invariant(self);
        }
        if index < self.entries.len() {
            Some(&self.entries[index])
        } else {
            None
        }
    }

    /// The tally of `category_id`, if the snapshot has one.
    pub fn get(&self, category_id: i32) -> (r: Option<&PullTally>)
        ensures
            snapshot_valid(self@),
            match r {
                Some(t) => exists|i: int|
                    0 <= i < self@.len() && #[trigger] self@[i] == (CategoryTallyView {
                        category_id: category_id as int,
                        tally: t@,
                    }),
                None => !has_category(self@, category_id as int),
            },
    {
        proof {
            use_type_invariant(self);
        }
        match self.position(category_id) {
            Some(i) => {
                let e = &self.entries[i];
                assert(self@[i as int] == e@);
                Some(&e.tally)
            },
            None => None,
        }
    }

    /// Whether the snapshot has a tally for `category_id`.
    pub fn contains(&self, category_id: i32) -> (b: bool)
        ensures
            b == has_category(self@, category_id as int),
    {
        self.position(category_id).is_some()
    }

    /// Sets the tally of `category_id`. A category already present keeps its
    /// place in the order; a new one goes to the end.
    pub fn insert(&mut self, category_id: i32, tally: PullTally)
        ensures
            final(self)@ == with_entry(
                old(self)@,
                CategoryTallyView { category_id: category_id as int, tally: tally@ },
            ),
    {
        proof {
            use_type_invariant(&*self);
            use_type_invariant(&tally);
        }
        let ghost before = self@;
        let ghost entry = CategoryTallyView { category_id: category_id as int, tally: tally@ };
        proof {
            lemma_with_entry_valid(before, entry);
        }
        match self.position(category_id) {
            Some(i) => {
                proof {
                    let c = choose|c: int|
                        0 <= c < before.len() && (#[trigger] before[c]).category_id == entry.category_id;
                    assert(before[i as int].category_id == before[c].category_id);
                    assert(c == i);
                }
                let mut entries: Vec<CategoryTally> = Vec::new();
                std::mem::swap(&mut entries, &mut self.entries);
                entries.set(i, CategoryTally { category_id, tally });
                assert(entry_views(entries@) =~= before.update(i as int, entry));
                self.entries = entries;
            },
            None => {
                let mut entries: Vec<CategoryTally> = Vec::new();
                std::mem::swap(&mut entries, &mut self.entries);
                entries.push(CategoryTally { category_id, tally });
                assert(entry_views(entries@) =~= before.push(entry));
                self.entries = entries;
            },
        }
    }

    /// Position of `category_id` in the insertion order.
    fn position(&self, category_id: i32) -> (r: Option<usize>)
        ensures
            match r {
                Some(i) => i < self@.len() && self@[i as int].category_id == category_id,
                None => !has_category(self@, category_id as int),
            },
    {
        let mut i: usize = 0;
        while i < self.entries.len()
            invariant
                i <= self.entries.len(),
                forall|j: int| 0 <= j < i ==> (#[trigger] self@[j]).category_id != category_id,
            decreases self.entries.len() - i,
        {
            if self.entries[i].category_id == category_id {
                return Some(i);
            }
            i = i + 1;
        }
        None
    }
}

} // verus!
