use std::sync::Arc;

use skim_core::item::MatchRange;
use skim_core::item::MatchedItem;
use skim_core::item::Rank;
use skim_core::item::RankBuilder;
use skim_core::item::RankCriteria;
use skim_core::item::rank_cmp;

#[test]
fn score_forced_when_absent() {
    let b = RankBuilder::new(vec![RankCriteria::Begin, RankCriteria::End]);
    assert_eq!(
        b.criterion(),
        vec![RankCriteria::Score, RankCriteria::Begin, RankCriteria::End]
    );
    // slot 0 holds the negated score
    let r = b.build_rank(10, 1, 2, 3, 4);
    assert_eq!(r, Rank(-10, 1, 2, 0, 0));
}

#[test]
fn neg_score_counts_as_score() {
    let b = RankBuilder::new(vec![RankCriteria::NegScore]);
    assert_eq!(b.criterion(), vec![RankCriteria::NegScore]);
}

#[test]
fn duplicates_keep_first_occurrence() {
    let b = RankBuilder::new(vec![
        RankCriteria::Begin,
        RankCriteria::Score,
        RankCriteria::Begin,
        RankCriteria::End,
        RankCriteria::Score,
    ]);
    assert_eq!(
        b.criterion(),
        vec![RankCriteria::Begin, RankCriteria::Score, RankCriteria::End]
    );
}

#[test]
fn criteria_capped_at_five() {
    let b = RankBuilder::new(vec![
        RankCriteria::Score,
        RankCriteria::Begin,
        RankCriteria::End,
        RankCriteria::Length,
        RankCriteria::Index,
        RankCriteria::NegBegin,
    ]);
    assert_eq!(b.criterion().len(), 5);
    assert_eq!(
        b.criterion(),
        vec![
            RankCriteria::Score,
            RankCriteria::Begin,
            RankCriteria::End,
            RankCriteria::Length,
            RankCriteria::Index,
        ]
    );
}

#[test]
fn build_rank_is_pure_and_signs_scores() {
    let b = RankBuilder::new(vec![
        RankCriteria::Score,
        RankCriteria::NegScore,
        RankCriteria::NegEnd,
        RankCriteria::NegLength,
        RankCriteria::NegIndex,
    ]);
    let r1 = b.build_rank(42, 7, 9, 11, 13);
    let r2 = b.build_rank(42, 7, 9, 11, 13);
    assert_eq!(r1, r2);
    assert_eq!(r1, Rank(-42, 42, -9, -11, -13));
}

#[test]
fn default_builder_ranks_score_begin_end() {
    let b = RankBuilder::default();
    assert_eq!(
        b.criterion(),
        vec![RankCriteria::Score, RankCriteria::Begin, RankCriteria::End]
    );
    let r = b.build_rank(5, 1, 3, 7, 2);
    assert_eq!(r, Rank(-5, 1, 3, 0, 0));
}

#[test]
fn equal_ranks_compare_equal() {
    let a = MatchedItem {
        item: Arc::new(String::from("alpha")),
        rank: Rank(-3, 1, 4, 0, 0),
        matched_range: Some(MatchRange::CharRange(1, 4)),
        item_idx: 0,
    };
    let b = MatchedItem {
        item: Arc::new(String::from("beta")),
        rank: Rank(-3, 1, 4, 0, 0),
        matched_range: None,
        item_idx: 99,
    };
    assert!(a == b);
    assert_eq!(a.partial_cmp(&b), Some(std::cmp::Ordering::Equal));
    assert_eq!(a.cmp(&b), std::cmp::Ordering::Equal);
}

#[test]
fn rank_order_is_lexicographic() {
    assert_eq!(
        rank_cmp(&Rank(-10, 5, 0, 0, 0), &Rank(-5, 0, 0, 0, 0)),
        std::cmp::Ordering::Less
    );
    assert_eq!(
        rank_cmp(&Rank(1, 2, 3, 4, 5), &Rank(1, 2, 3, 4, 4)),
        std::cmp::Ordering::Greater
    );
    assert_eq!(
        rank_cmp(&Rank(1, 2, 3, 4, 5), &Rank(1, 2, 3, 4, 5)),
        std::cmp::Ordering::Equal
    );
    let better = MatchedItem {
        item: Arc::new(0u64),
        rank: Rank(-10, 0, 0, 0, 0),
        matched_range: None,
        item_idx: 7,
    };
    let worse = MatchedItem {
        item: Arc::new(1u64),
        rank: Rank(-5, 0, 0, 0, 0),
        matched_range: None,
        item_idx: 2,
    };
    assert!(better < worse);
}

#[test]
fn criteria_tokens() {
    assert_eq!(RankCriteria::Score.token(), "score");
    assert_eq!(RankCriteria::NegScore.token(), "-score");
    assert_eq!(RankCriteria::Begin.token(), "begin");
    assert_eq!(RankCriteria::NegBegin.token(), "-begin");
    assert_eq!(RankCriteria::End.token(), "end");
    assert_eq!(RankCriteria::NegEnd.token(), "-end");
    assert_eq!(RankCriteria::Length.token(), "length");
    assert_eq!(RankCriteria::NegLength.token(), "-length");
    assert_eq!(RankCriteria::Index.token(), "index");
    assert_eq!(RankCriteria::NegIndex.token(), "-index");
}

#[test]
fn all_value_variants_listed() {
    let v = RankCriteria::value_variants();
    assert_eq!(v.len(), 10);
    assert_eq!(v[0], RankCriteria::Score);
    assert_eq!(v[9], RankCriteria::NegIndex);
}
