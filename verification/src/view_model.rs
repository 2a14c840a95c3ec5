//! From a snapshot to what the presentation layer draws.
//!
//! [`build_view`] turns a snapshot into one [`RenderUnit`] per category, in
//! the snapshot's order. [`ViewModel`] caches that sequence, so that it is
//! built once per snapshot and not on every frame.

use crate::snapshot::{snapshot_valid, CategoryTally, CategoryTallyView, SnapshotView, StatisticsSnapshot};
use crate::tally::{duplicate_highlights, highlight_total, highlight_views, Highlight, HighlightView, PullTallyView};
use vstd::prelude::*;

verus! {

/// Number of the low tier on the tier axis.
pub const TIER_LOW: i32 = 1;

/// Number of the middle tier on the tier axis.
pub const TIER_MID: i32 = 2;

/// Number of the high tier on the tier axis.
pub const TIER_HIGH: i32 = 3;

/// How many render units are laid out side by side.
pub const UNITS_PER_ROW: usize = 3;

/// One bar of a tier series: a tier and how many pulls fell into it.
#[derive(Debug, Clone, Copy, PartialEq, Eq, Structural)]
pub struct TierPoint {
    pub tier: i32,
    pub count: u32,
}

/// Mathematical value of a [`TierPoint`].
pub struct TierPointView {
    pub tier: int,
    pub count: nat,
}

impl View for TierPoint {
    type V = TierPointView;

    open spec fn view(&self) -> TierPointView {
        TierPointView { tier: self.tier as int, count: self.count as nat }
    }
}

/// Everything needed to draw one category.
#[derive(Debug, PartialEq, Eq)]
pub struct RenderUnit {
    pub category_id: i32,
    pub total: u32,
    pub pity_count: u32,
    /// The low, middle and high tier, in this order.
    pub tier_series: Vec<TierPoint>,
    pub highlights: Vec<Highlight>,
}

/// Mathematical value of a [`RenderUnit`].
pub struct RenderUnitView {
    pub category_id: int,
    pub total: nat,
    pub pity_count: nat,
    pub tier_series: Seq<TierPointView>,
    pub highlights: Seq<HighlightView>,
}

impl View for RenderUnit {
    type V = RenderUnitView;

    open spec fn view(&self) -> RenderUnitView {
        RenderUnitView {
            category_id: self.category_id as int,
            total: self.total as nat,
            pity_count: self.pity_count as nat,
            tier_series: self.tier_series@.map_values(|p: TierPoint| p@),
            highlights: highlight_views(self.highlights@),
        }
    }
}

/// The views of a sequence of render units, in order.
pub open spec fn unit_views(units: Seq<RenderUnit>) -> Seq<RenderUnitView> {
    units.map_values(|u: RenderUnit| u@)
}

/// The tier series of a tally: low, middle, high.
pub open spec fn tier_series_of(tally: PullTallyView) -> Seq<TierPointView> {
    seq![
        TierPointView { tier: TIER_LOW as int, count: tally.low },
        TierPointView { tier: TIER_MID as int, count: tally.mid },
        TierPointView { tier: TIER_HIGH as int, count: tally.high },
    ]
}

/// The render unit of one category.
pub open spec fn render_unit(entry: CategoryTallyView) -> RenderUnitView {
    RenderUnitView {
        category_id: entry.category_id,
        total: entry.tally.total,
        pity_count: entry.tally.pity_count,
        tier_series: tier_series_of(entry.tally),
        highlights: entry.tally.highlights,
    }
}

/// The render units of a snapshot: one per category, in the snapshot's
/// order. A category without pulls has its unit like any other.
pub open spec fn render_units(snapshot: SnapshotView) -> Seq<RenderUnitView> {
    snapshot.map_values(|entry: CategoryTallyView| render_unit(entry))
}

/// What a cache holds after it was asked to be ready for `snapshot`: what it
/// held before, unless it was empty.
pub open spec fn refreshed(cache: Seq<RenderUnitView>, snapshot: SnapshotView) -> Seq<RenderUnitView> {
    if cache.len() == 0 {
        render_units(snapshot)
    } else {
        cache
    }
}

/// Building is stable: asking twice for the same snapshot, with nothing
/// invalidating the cache in between, gives what asking once gave, and the
/// second request builds nothing unless there is nothing to build.
pub proof fn lemma_refresh_is_stable(cache: Seq<RenderUnitView>, snapshot: SnapshotView)
    ensures
        refreshed(refreshed(cache, snapshot), snapshot) == refreshed(cache, snapshot),
        snapshot.len() > 0 ==> refreshed(cache, snapshot).len() > 0,
{
}

/// The render units carry the tier invariant: in each unit the series has
/// the three tiers in order, and the count of the high tier is the sum of
/// the unit's highlight counts.
pub proof fn lemma_units_keep_tier_invariant(snapshot: SnapshotView)
    requires
        snapshot_valid(snapshot),
    ensures
        render_units(snapshot).len() == snapshot.len(),
        forall|i: int|
            0 <= i < snapshot.len() ==> {
                let unit = #[trigger] render_units(snapshot)[i];
                &&& unit.category_id == snapshot[i].category_id
                &&& unit.tier_series.len() == 3
                &&& unit.tier_series[0].tier == 1
                &&& unit.tier_series[1].tier == 2
                &&& unit.tier_series[2].tier == 3
                &&& unit.tier_series[2].count == highlight_total(unit.highlights)
            },
{
    assert forall|i: int| 0 <= i < snapshot.len() implies {
        let unit = #[trigger] render_units(snapshot)[i];
        &&& unit.category_id == snapshot[i].category_id
        &&& unit.tier_series.len() == 3
        &&& unit.tier_series[0].tier == 1
        &&& unit.tier_series[1].tier == 2
        &&& unit.tier_series[2].tier == 3
        &&& unit.tier_series[2].count == highlight_total(unit.highlights)
    } by {
        assert(snapshot[i].tally.consistent());
    }
}

/// Builds the render unit of one category.
pub fn build_unit(entry: &CategoryTally) -> (unit: RenderUnit)
    ensures
        unit@ == render_unit(entry@),
{
    let tiers = entry.tally.tier_counts();
    let mut tier_series: Vec<TierPoint> = Vec::new();
    tier_series.push(TierPoint { tier: TIER_LOW, count: tiers.low });
    tier_series.push(TierPoint { tier: TIER_MID, count: tiers.mid });
    tier_series.push(TierPoint { tier: TIER_HIGH, count: tiers.high });
    let unit = RenderUnit {
        category_id: entry.category_id,
        total: entry.tally.total(),
        pity_count: entry.tally.pity_count(),
        tier_series,
        highlights: duplicate_highlights(entry.tally.highlights()),
    };
    assert(unit@.tier_series =~= tier_series_of(entry@.tally));
    unit
}

/// Builds the render units of a snapshot: one per category, in the
/// snapshot's order.
pub fn build_view(snapshot: &StatisticsSnapshot) -> (units: Vec<RenderUnit>)
    ensures
        unit_views(units@) == render_units(snapshot@),
{
    let mut units: Vec<RenderUnit> = Vec::new();
    let n: usize = snapshot.len();
    let mut i: usize = 0;
    while i < n
        invariant
            n == snapshot@.len(),
            i <= n,
            units.len() == i,
            forall|j: int| 0 <= j < i ==> (#[trigger] units[j])@ == render_unit(snapshot@[j]),
        decreases n - i,
    {
        match snapshot.entry(i) {
            Some(entry) => {
                units.push(build_unit(entry));
            },
            None => {
                assert(false);
            },
        }
        i = i + 1;
    }
    assert(unit_views(units@) =~= render_units(snapshot@));
    units
}

/// The render units of the snapshot last built for, kept until invalidated.
#[derive(Debug, PartialEq, Eq)]
pub struct ViewModel {
    units: Vec<RenderUnit>,
}

impl View for ViewModel {
    type V = Seq<RenderUnitView>;

    closed spec fn view(&self) -> Seq<RenderUnitView> {
        unit_views(self.units@)
    }
}

impl ViewModel {
    /// An empty cache.
    pub fn new() -> (m: ViewModel)
        ensures
            m@ == Seq::<RenderUnitView>::empty(),
    {
        let m = ViewModel { units: Vec::new() };
        assert(m@ =~= Seq::<RenderUnitView>::empty());
        m
    }

    /// Whether the cache holds render units.
    pub fn is_built(&self) -> (b: bool)
        ensures
            b == (self@.len() > 0),
    {
        self.units.len() > 0
    }

    /// Number of cached render units.
    pub fn len(&self) -> (n: usize)
        ensures
            n == self@.len(),
    {
        self.units.len()
    }

    /// The cached render units, in order.
    pub fn units(&self) -> (units: &Vec<RenderUnit>)
        ensures
            unit_views(units@) == self@,
    {
        &self.units
    }

    /// Empties the cache, so that the next request builds anew.
    pub fn invalidate(&mut self)
        ensures
            final(self)@ == Seq::<RenderUnitView>::empty(),
    {
        self.units = Vec::new();
        assert(self@ =~= Seq::<RenderUnitView>::empty());
    }

    /// Makes the cache ready for drawing: builds the render units of
    /// `snapshot` if the cache is empty and leaves the cache untouched
    /// otherwise. Returns whether it built.
    pub fn ensure_built(&mut self, snapshot: &StatisticsSnapshot) -> (rebuilt: bool)
        ensures
            rebuilt == (old(self)@.len() == 0),
            final(self)@ == refreshed(old(self)@, snapshot@),
            !rebuilt ==> *final(self) == *old(self),
    {
        if self.units.len() == 0 {
            self.units = build_view(snapshot);
            true
        } else {
            false
        }
    }
}

/// The label shown for a category.
pub open spec fn category_label_text(category_id: int) -> Seq<char> {
    if category_id == 1 {
        "角色活动唤取"@
    } else if category_id == 2 {
        "武器活动唤取"@
    } else if category_id == 3 {
        "角色常驻唤取"@
    } else if category_id == 4 {
        "武器常驻唤取"@
    } else if category_id == 5 {
        "新手唤取"@
    } else if category_id == 6 {
        "新手自选唤取"@
    } else if category_id == 7 {
        "新手自选唤取（感恩定向唤取）"@
    } else {
        "新卡池"@
    }
}

/// The label of a category; an id without a label of its own gets the
/// label for new categories.
pub fn category_label(category_id: i32) -> (label: &'static str)
    ensures
        label@ == category_label_text(category_id as int),
{
    match category_id {
        1 => "角色活动唤取",
        2 => "武器活动唤取",
        3 => "角色常驻唤取",
        4 => "武器常驻唤取",
        5 => "新手唤取",
        6 => "新手自选唤取",
        7 => "新手自选唤取（感恩定向唤取）",
        _ => "新卡池",
    }
}

/// The label shown at a mark of the tier axis.
pub open spec fn tier_label_text(tier: int) -> Seq<char> {
    if tier == TIER_LOW {
        "3星"@
    } else if tier == TIER_MID {
        "4星"@
    } else if tier == TIER_HIGH {
        "5星"@
    } else {
        ""@
    }
}

/// The label of a tier; a mark that is no tier has an empty label.
pub fn tier_label(tier: i32) -> (label: &'static str)
    ensures
        label@ == tier_label_text(tier as int),
{
    if tier == TIER_LOW {
        "3星"
    } else if tier == TIER_MID {
        "4星"
    } else if tier == TIER_HIGH {
        "5星"
    } else {
        ""
    }
}

/// Number of rows that `units` render units fill, `UNITS_PER_ROW` to a row.
pub open spec fn rows_needed(units: nat) -> nat {
    (units + UNITS_PER_ROW - 1) as nat / (UNITS_PER_ROW as nat)
}

/// Number of rows that `units` render units fill: the least number of rows
/// that hold them all.
pub fn row_count(units: usize) -> (rows: usize)
    ensures
        rows == rows_needed(units as nat),
        rows * UNITS_PER_ROW >= units,
        rows > 0 ==> (rows - 1) * UNITS_PER_ROW < units,
{
    let full: usize = units / UNITS_PER_ROW;
    if units % UNITS_PER_ROW == 0 {
        full
    } else {
        full + 1
    }
}

/// The positions `start..end` of the render units in row `row`, when
/// `units` units are laid out. A row past the last one is empty.
pub fn row_bounds(units: usize, row: usize) -> (bounds: (usize, usize))
    ensures
        bounds.0 <= bounds.1 <= units,
        row < rows_needed(units as nat) ==> bounds.0 == row * UNITS_PER_ROW,
        row < rows_needed(units as nat) ==> bounds.1 == if row * UNITS_PER_ROW + UNITS_PER_ROW <= units {
            row * UNITS_PER_ROW + UNITS_PER_ROW
        } else {
            units as int
        },
        row >= rows_needed(units as nat) ==> bounds.0 == units && bounds.1 == units,
{
    if row >= row_count(units) {
        (units, units)
    } else {
        let start: usize = row * UNITS_PER_ROW;
        let end: usize = if units - start >= UNITS_PER_ROW {
            start + UNITS_PER_ROW
        } else {
            units
        };
        (start, end)
    }
}

} // verus!
