use supermemo2::{Error, Item, Quality, EF_DEFAULT, EF_FLOOR};

#[test]
fn correct_default_values() {
    let item = Item::default();
    assert_eq!(item.repetitions(), 0);
    assert_eq!(item.efactor(), 250);
}

#[test]
#[should_panic]
fn quality_above_5_returns_error() {
    let item = Item::default();
    item.review(6).unwrap();
}

#[test]
fn review_gives_correct_repetitions_and_efactor() {
    let item = Item::new(3, 240);
    let new_item = item.review(5).unwrap();
    assert_eq!(new_item.repetitions(), 4);
    assert_eq!(new_item.efactor(), 250);
}

#[test]
fn calculate_interval() {
    let item = Item::new(5, 390);
    assert_eq!(item.interval(), 356);
}

#[test]
fn default_item_is_due_immediately() {
    let item = Item::default();
    assert_eq!(item.repetitions(), 0);
    assert_eq!(item.efactor(), EF_DEFAULT);
    assert_eq!(item.interval(), 0);
}

#[test]
fn quality_accepts_the_full_domain() {
    for raw in 0..=5u8 {
        let q = Quality::new(raw).unwrap();
        assert_eq!(q.value(), raw);
    }
}

#[test]
fn quality_rejects_six() {
    assert_eq!(Quality::new(6), Err(Error::QualityAboveFiveError(6)));
}

#[test]
fn quality_rejects_unsigned_max() {
    assert_eq!(Quality::new(255), Err(Error::QualityAboveFiveError(255)));
}

#[test]
fn review_error_carries_the_offending_value() {
    let item = Item::default();
    assert_eq!(item.review(7), Err(Error::QualityAboveFiveError(7)));
    assert_eq!(item.review(255), Err(Error::QualityAboveFiveError(255)));
}

#[test]
fn lapse_resets_repetitions_to_one() {
    for reps in [1usize, 2, 7, 1000] {
        for quality in 0..=2u8 {
            let item = Item::new(reps, 250);
            let reviewed = item.review(quality).unwrap();
            assert_eq!(reviewed.repetitions(), 1);
        }
    }
}

#[test]
fn success_advances_repetitions_by_one() {
    for reps in [0usize, 1, 3, 41] {
        for quality in 3..=5u8 {
            let item = Item::new(reps, 250);
            let reviewed = item.review(quality).unwrap();
            assert_eq!(reviewed.repetitions(), reps + 1);
        }
    }
}

#[test]
fn ef_floor_is_applied_when_read_not_when_stored() {
    // A stored factor of 0.5 is reported verbatim by the accessor...
    let item = Item::new(1, 50);
    assert_eq!(item.efactor(), 50);
    // ...but a review reads it through the 1.3 floor: a perfect answer
    // yields 1.3 + 0.1 = 1.4, not 0.5 + 0.1.
    let reviewed = item.review(5).unwrap();
    assert_eq!(reviewed.efactor(), 140);
}

#[test]
fn review_can_store_a_factor_below_the_floor() {
    // quality 0 on a factor at the floor: 1.3 - 0.8 = 0.5, stored unclamped.
    let item = Item::new(4, EF_FLOOR);
    let reviewed = item.review(0).unwrap();
    assert_eq!(reviewed.efactor(), 50);
    assert!(reviewed.efactor() < EF_FLOOR);
}

#[test]
fn interval_boundary_table() {
    for efactor in [50u64, 130, 250, 999] {
        assert_eq!(Item::new(0, efactor).interval(), 0);
        assert_eq!(Item::new(1, efactor).interval(), 1);
        assert_eq!(Item::new(2, efactor).interval(), 6);
    }
}

#[test]
fn interval_grows_geometrically_from_the_third_repetition() {
    // ceil(6 * 2.5) = 15, ceil(6 * 2.5^2) = ceil(37.5) = 38.
    assert_eq!(Item::new(3, 250).interval(), 15);
    assert_eq!(Item::new(4, 250).interval(), 38);
}

#[test]
fn end_to_end_review_sequence_reaches_fifteen_days() {
    let interval = Item::default()
        .review(4)
        .unwrap()
        .review(3)
        .unwrap()
        .review(5)
        .unwrap()
        .interval();
    assert_eq!(interval, 15);
}

#[test]
fn review_with_validated_quality_cannot_fail() {
    let quality = Quality::new(4).unwrap();
    let reviewed = Item::new(2, 250).review_with(quality);
    assert_eq!(reviewed.repetitions(), 3);
    assert_eq!(reviewed.efactor(), 250);
}

#[test]
fn review_in_place_matches_the_immutable_form() {
    let mut item = Item::new(3, 240);
    assert_eq!(item.review_in_place(5), Ok(()));
    assert_eq!(item.repetitions(), 4);
    assert_eq!(item.efactor(), 250);
}

#[test]
fn rejected_review_in_place_leaves_the_item_unchanged() {
    let mut item = Item::new(3, 240);
    assert_eq!(item.review_in_place(9), Err(Error::QualityAboveFiveError(9)));
    assert_eq!(item.repetitions(), 3);
    assert_eq!(item.efactor(), 240);
}

#[test]
fn try_interval_agrees_with_interval_and_reports_the_edge() {
    let item = Item::new(5, 390);
    assert_eq!(item.try_interval(), Some(356));
    assert_eq!(Item::new(2, 250).try_interval(), Some(6));
    // A state far beyond any real review history: the exact power no
    // longer fits 128 bits, and the total query says so.
    assert_eq!(Item::new(1000, 250).try_interval(), None);
}

#[test]
fn interval_query_is_idempotent() {
    let item = Item::new(5, 390);
    assert_eq!(item.interval(), item.interval());
    let fresh = Item::default();
    assert_eq!(fresh.interval(), fresh.interval());
}
