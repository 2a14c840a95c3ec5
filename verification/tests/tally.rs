use gacha_stats::snapshot::StatisticsSnapshot;
use gacha_stats::tally::{duplicate_highlights, Highlight, PullTally, TallyError, TierCounts};

fn tiers(low: u32, mid: u32, high: u32) -> TierCounts {
    TierCounts { low, mid, high }
}

fn highlight(name: &str, count: u32) -> Highlight {
    Highlight::new(name.to_string(), count)
}

#[test]
fn tally_keeps_what_it_was_built_from() {
    let t = PullTally::new(10, 2, tiers(8, 1, 1), vec![highlight("Rare Item", 1)]).unwrap();
    assert_eq!(t.total(), 10);
    assert_eq!(t.pity_count(), 2);
    assert_eq!(t.tier_counts(), tiers(8, 1, 1));
    assert_eq!(t.highlights().len(), 1);
    assert_eq!(t.highlights()[0].name, "Rare Item");
    assert_eq!(t.highlights()[0].count, 1);
}

#[test]
fn high_tier_is_sum_of_highlights() {
    let hs = vec![highlight("a", 2), highlight("b", 3), highlight("c", 1)];
    let t = PullTally::new(100, 7, tiers(80, 14, 6), hs).unwrap();
    let sum: u32 = t.highlights().iter().map(|h| h.count).sum();
    assert_eq!(t.tier_counts().high, sum);
    assert_eq!(sum, 6);
}

#[test]
fn tally_rejects_high_tier_above_sum() {
    let r = PullTally::new(10, 0, tiers(8, 1, 2), vec![highlight("a", 1)]);
    assert_eq!(r, Err(TallyError::HighTierMismatch));
}

#[test]
fn tally_rejects_high_tier_below_sum() {
    let r = PullTally::new(10, 0, tiers(8, 1, 1), vec![highlight("a", 1), highlight("b", 1)]);
    assert_eq!(r, Err(TallyError::HighTierMismatch));
}

#[test]
fn tally_rejects_high_tier_without_highlights() {
    let r = PullTally::new(10, 0, tiers(8, 1, 1), vec![]);
    assert_eq!(r, Err(TallyError::HighTierMismatch));
}

#[test]
fn tally_rejects_highlight_with_zero_count() {
    let r = PullTally::new(10, 0, tiers(8, 1, 1), vec![highlight("a", 1), highlight("b", 0)]);
    assert_eq!(r, Err(TallyError::EmptyHighlight));
}

#[test]
fn zero_count_is_reported_before_mismatch() {
    let r = PullTally::new(10, 0, tiers(8, 1, 1), vec![highlight("a", 5), highlight("b", 0)]);
    assert_eq!(r, Err(TallyError::EmptyHighlight));
}

#[test]
fn tally_sums_large_counts_without_wrapping() {
    let hs = vec![highlight("a", u32::MAX), highlight("b", 1)];
    let r = PullTally::new(0, 0, tiers(0, 0, 0), hs);
    assert_eq!(r, Err(TallyError::HighTierMismatch));
    let ok = PullTally::new(0, 0, tiers(0, 0, u32::MAX), vec![highlight("a", u32::MAX - 1), highlight("b", 1)]);
    assert!(ok.is_ok());
}

#[test]
fn empty_tally_is_all_zero() {
    let t = PullTally::empty();
    assert_eq!(t.total(), 0);
    assert_eq!(t.pity_count(), 0);
    assert_eq!(t.tier_counts(), tiers(0, 0, 0));
    assert!(t.highlights().is_empty());
    assert_eq!(t, PullTally::new(0, 0, tiers(0, 0, 0), vec![]).unwrap());
}

#[test]
fn tally_clone_is_equal() {
    let t = PullTally::new(10, 2, tiers(8, 1, 1), vec![highlight("Rare Item", 1)]).unwrap();
    assert_eq!(t.clone(), t);
}

#[test]
fn duplicate_highlights_copies_in_order() {
    let hs = vec![highlight("a", 2), highlight("b", 3)];
    assert_eq!(duplicate_highlights(&hs), hs);
    assert!(duplicate_highlights(&Vec::new()).is_empty());
}

#[test]
fn snapshot_starts_empty() {
    let s = StatisticsSnapshot::new();
    assert_eq!(s.len(), 0);
    assert!(s.is_empty());
    assert!(s.entry(0).is_none());
    assert!(s.get(1).is_none());
    assert!(!s.contains(1));
}

#[test]
fn snapshot_keeps_insertion_order() {
    let mut s = StatisticsSnapshot::new();
    s.insert(5, PullTally::empty());
    s.insert(1, PullTally::new(3, 3, tiers(3, 0, 0), vec![]).unwrap());
    s.insert(3, PullTally::empty());
    assert_eq!(s.len(), 3);
    assert!(!s.is_empty());
    assert_eq!(s.entry(0).unwrap().category_id, 5);
    assert_eq!(s.entry(1).unwrap().category_id, 1);
    assert_eq!(s.entry(2).unwrap().category_id, 3);
    assert!(s.entry(3).is_none());
    assert_eq!(s.get(1).unwrap().total(), 3);
    assert!(s.contains(3));
    assert!(!s.contains(2));
    assert!(s.get(2).is_none());
}

#[test]
fn snapshot_insert_replaces_in_place() {
    let mut s = StatisticsSnapshot::new();
    s.insert(5, PullTally::empty());
    s.insert(1, PullTally::empty());
    s.insert(5, PullTally::new(9, 1, tiers(9, 0, 0), vec![]).unwrap());
    assert_eq!(s.len(), 2);
    assert_eq!(s.entry(0).unwrap().category_id, 5);
    assert_eq!(s.entry(0).unwrap().tally.total(), 9);
    assert_eq!(s.entry(1).unwrap().category_id, 1);
    assert_eq!(s.get(5).unwrap().pity_count(), 1);
}

#[test]
fn snapshot_clone_is_equal() {
    let mut s = StatisticsSnapshot::new();
    s.insert(-4, PullTally::new(2, 0, tiers(0, 0, 2), vec![highlight("x", 2)]).unwrap());
    s.insert(i32::MAX, PullTally::empty());
    let c = s.clone();
    assert_eq!(c, s);
    assert_eq!(c.entry(0).unwrap().category_id, -4);
    assert_eq!(c.entry(1).unwrap().category_id, i32::MAX);
}
