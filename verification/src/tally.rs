//! Per-category counters of a pull history.
//!
//! A [`PullTally`] carries the lifetime total, the pity count, the three tier
//! counts and the top-tier results grouped by name. Every tally that exists
//! satisfies the tier invariant: its high-tier count is the sum of its
//! highlight counts, and no highlight has a count of zero.

use vstd::prelude::*;

verus! {

/// One top-tier result, grouped by name, with how often it was pulled.
#[derive(Debug, PartialEq, Eq)]
pub struct Highlight {
    pub name: String,
    pub count: u32,
}

/// Mathematical value of a [`Highlight`].
pub struct HighlightView {
    pub name: Seq<char>,
    pub count: nat,
}

impl View for Highlight {
    type V = HighlightView;

    open spec fn view(&self) -> HighlightView {
        HighlightView { name: self.name@, count: self.count as nat }
    }
}

impl Highlight {
    /// A highlight of `count` pulls under `name`.
    pub fn new(name: String, count: u32) -> (h: Highlight)
        ensures
            h@ == (HighlightView { name: name@, count: count as nat }),
    {
        Highlight { name, count }
    }
}

impl Clone for Highlight {
    fn clone(&self) -> (h: Highlight)
        ensures
            h@ == self@,
    {
        Highlight { name: self.name.clone(), count: self.count }
    }
}

/// Copies a list of highlights, entry by entry.
pub fn duplicate_highlights(hs: &Vec<Highlight>) -> (copy: Vec<Highlight>)
    ensures
        highlight_views(copy@) == highlight_views(hs@),
{
    let mut copy: Vec<Highlight> = Vec::new();
    let mut i: usize = 0;
    while i < hs.len()
        invariant
            i <= hs.len(),
            copy.len() == i,
            forall|j: int| 0 <= j < i ==> (#[trigger] copy[j])@ == hs[j]@,
        decreases hs.len() - i,
    {
        copy.push(hs[i].clone());
        i = i + 1;
    }
    assert(highlight_views(copy@) =~= highlight_views(hs@));
    copy
}

/// The views of a sequence of highlights, in order.
pub open spec fn highlight_views(hs: Seq<Highlight>) -> Seq<HighlightView> {
    hs.map_values(|h: Highlight| h@)
}

/// Sum of the counts of `hs`.
pub open spec fn highlight_total(hs: Seq<HighlightView>) -> nat
    decreases hs.len(),
{
    if hs.len() == 0 {
        0
    } else {
        highlight_total(hs.drop_last()) + hs.last().count
    }
}

/// The sum over a prefix never exceeds the sum over the whole sequence.
pub proof fn lemma_highlight_total_prefix(hs: Seq<HighlightView>, n: int)
    requires
        0 <= n <= hs.len(),
    ensures
        highlight_total(hs.take(n)) <= highlight_total(hs),
    decreases hs.len(),
{
    if n == hs.len() {
        assert(hs.take(n) =~= hs);
    } else {
        assert(hs.drop_last().take(n) =~= hs.take(n));
        lemma_highlight_total_prefix(hs.drop_last(), n);
    }
}

/// Counts of the three fixed tiers.
#[derive(Debug, Clone, Copy, PartialEq, Eq, Structural)]
pub struct TierCounts {
    pub low: u32,
    pub mid: u32,
    pub high: u32,
}

/// Mathematical value of a [`PullTally`].
pub struct PullTallyView {
    pub total: nat,
    pub pity_count: nat,
    pub low: nat,
    pub mid: nat,
    pub high: nat,
    pub highlights: Seq<HighlightView>,
}

impl PullTallyView {
    /// The tier invariant: every highlight was pulled at least once, and the
    /// high-tier count is the sum of the highlight counts.
    pub open spec fn consistent(self) -> bool {
        &&& forall|i: int| 0 <= i < self.highlights.len() ==> (#[trigger] self.highlights[i]).count >= 1
        &&& self.high == highlight_total(self.highlights)
    }

    /// The tally of a category without pulls.
    pub open spec fn zero() -> PullTallyView {
        PullTallyView { total: 0, pity_count: 0, low: 0, mid: 0, high: 0, highlights: Seq::empty() }
    }
}

/// Why a tally could not be built.
#[derive(Debug, Clone, Copy, PartialEq, Eq, Structural)]
pub enum TallyError {
    /// Some highlight has a count of zero.
    EmptyHighlight,
    /// The high-tier count differs from the sum of the highlight counts.
    HighTierMismatch,
}

/// Aggregated counters of one category.
#[derive(Debug, PartialEq, Eq)]
pub struct PullTally {
    total: u32,
    pity_count: u32,
    tiers: TierCounts,
    highlights: Vec<Highlight>,
}

impl View for PullTally {
    type V = PullTallyView;

    closed spec fn view(&self) -> PullTallyView {
        PullTallyView {
            total: self.total as nat,
            pity_count: self.pity_count as nat,
            low: self.tiers.low as nat,
            mid: self.tiers.mid as nat,
            high: self.tiers.high as nat,
            highlights: highlight_views(self.highlights@),
        }
    }
}

impl Clone for PullTally {
    fn clone(&self) -> (t: PullTally)
        ensures
            t@ == self@,
    {
        proof {
            use_type_invariant(self);
        }
        PullTally {
            total: self.total,
            pity_count: self.pity_count,
            tiers: self.tiers,
            highlights: duplicate_highlights(&self.highlights),
        }
    }
}

impl PullTally {
    /// Holds of every tally.
    #[verifier::type_invariant]
    pub open spec fn tier_invariant(&self) -> bool {
        self@.consistent()
    }

    /// Builds a tally, checking the tier invariant.
    ///
    /// Fails with `EmptyHighlight` exactly when some highlight has a count of
    /// zero, and otherwise with `HighTierMismatch` exactly when `tiers.high`
    /// is not the sum of the highlight counts.
    pub fn new(total: u32, pity_count: u32, tiers: TierCounts, highlights: Vec<Highlight>) -> (r: Result<
        PullTally,
        TallyError,
    >)
        ensures
            match r {
                Ok(t) => {
                    &&& t@ == (PullTallyView {
                        total: total as nat,
                        pity_count: pity_count as nat,
                        low: tiers.low as nat,
                        mid: tiers.mid as nat,
                        high: tiers.high as nat,
                        highlights: highlight_views(highlights@),
                    })
                    &&& t@.consistent()
                },
                Err(TallyError::EmptyHighlight) => exists|i: int|
                    0 <= i < highlights.len() && (#[trigger] highlights[i]).count == 0,
                Err(TallyError::HighTierMismatch) => {
                    &&& forall|i: int| 0 <= i < highlights.len() ==> (#[trigger] highlights[i]).count >= 1
                    &&& tiers.high != highlight_total(highlight_views(highlights@))
                },
            },
    {
        let ghost views = highlight_views(highlights@);
        let n: usize = highlights.len();
        let mut i: usize = 0;
        while i < n
            invariant
                n == highlights.len(),
                i <= n,
                forall|j: int| 0 <= j < i ==> (#[trigger] highlights[j]).count >= 1,
            decreases n - i,
        {
            if highlights[i].count == 0 {
                return Err(TallyError::EmptyHighlight);
            }
            i = i + 1;
        }
        let mut sum: u64 = 0;
        let mut k: usize = 0;
        while k < n
            invariant
                n == highlights.len(),
                views == highlight_views(highlights@),
                k <= n,
                sum == highlight_total(views.take(k as int)),
                sum <= tiers.high,
                forall|j: int| 0 <= j < n ==> (#[trigger] highlights[j]).count >= 1,
            decreases n - k,
        {
            proof {
                assert(views.take(k + 1).drop_last() =~= views.take(k as int));
                assert(views.take(k + 1).last() == highlights[k as int]@);
            }
            sum = sum + highlights[k].count as u64;
            k = k + 1;
            if sum > tiers.high as u64 {
                proof {
                    lemma_highlight_total_prefix(views, k as int);
                }
                return Err(TallyError::HighTierMismatch);
            }
        }
        proof {
            assert(views.take(n as int) =~= views);
        }
        if sum != tiers.high as u64 {
            return Err(TallyError::HighTierMismatch);
        }
        Ok(PullTally { total, pity_count, tiers, highlights })
    }

    /// The tally of a category without pulls: all counters zero, no highlights.
    pub fn empty() -> (t: PullTally)
        ensures
            t@ == PullTallyView::zero(),
    {
        let t = PullTally {
            total: 0,
            pity_count: 0,
            tiers: TierCounts { low: 0, mid: 0, high: 0 },
            highlights: Vec::new(),
        };
        assert(t@.highlights =~= Seq::empty());
        t
    }

    /// Lifetime pulls in the category.
    pub fn total(&self) -> (n: u32)
        ensures
            n == self@.total,
    {
        self.total
    }

    /// Pulls since the last top-tier result.
    pub fn pity_count(&self) -> (n: u32)
        ensures
            n == self@.pity_count,
    {
        self.pity_count
    }

    /// The three tier counts. The high-tier count is the sum of the highlight
    /// counts.
    pub fn tier_counts(&self) -> (t: TierCounts)
        ensures
            t.low == self@.low,
            t.mid == self@.mid,
            t.high == self@.high,
            t.high == highlight_total(self@.highlights),
    {
        proof {
            use_type_invariant(self);
        }
        self.tiers
    }

    /// The top-tier results in first-seen order, each pulled at least once.
    pub fn highlights(&self) -> (hs: &Vec<Highlight>)
        ensures
            highlight_views(hs@) == self@.highlights,
            self@.consistent(),
    {
        proof {
            use_type_invariant(self);
        }
        &self.highlights
    }
}

} // verus!
