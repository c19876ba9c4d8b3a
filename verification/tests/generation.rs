use xberg::generation::{
    degenerate_tail_period, is_periodic, stop_if_degenerate, truncate_degenerate_tail,
    REPEAT_GUARD_MAX_PERIOD, REPEAT_GUARD_WINDOW,
};

#[test]
fn should_detect_period_one_run_of_sixty_four_identical_tokens() {
    let ids = vec![7u32; REPEAT_GUARD_WINDOW];
    assert_eq!(
        degenerate_tail_period(&ids, REPEAT_GUARD_WINDOW, REPEAT_GUARD_MAX_PERIOD),
        Some(1)
    );
}

#[test]
fn should_detect_period_three_run_and_truncate_to_prefix_plus_one_unit() {
    let unit = [1u32, 2, 3];
    let mut ids: Vec<u32> = unit.iter().copied().cycle().take(3 * 22).collect();
    assert_eq!(
        degenerate_tail_period(&ids, REPEAT_GUARD_WINDOW, REPEAT_GUARD_MAX_PERIOD),
        Some(3)
    );

    truncate_degenerate_tail(&mut ids, 3);
    assert_eq!(ids, vec![1, 2, 3]);
}

#[test]
fn should_not_flag_a_strictly_increasing_sequence() {
    let ids: Vec<u32> = (0..64).collect();
    assert_eq!(
        degenerate_tail_period(&ids, REPEAT_GUARD_WINDOW, REPEAT_GUARD_MAX_PERIOD),
        None
    );
}

#[test]
fn should_not_flag_a_sequence_shorter_than_the_window() {
    let ids = vec![9u32; REPEAT_GUARD_WINDOW - 1];
    assert_eq!(
        degenerate_tail_period(&ids, REPEAT_GUARD_WINDOW, REPEAT_GUARD_MAX_PERIOD),
        None
    );
}

#[test]
fn should_not_flag_a_period_nine_run_because_it_exceeds_max_period() {
    let unit = [1u32, 2, 3, 4, 5, 6, 7, 8, 9];
    let ids: Vec<u32> = unit.iter().copied().cycle().take(9 * 8).collect();
    assert_eq!(
        degenerate_tail_period(&ids, REPEAT_GUARD_WINDOW, REPEAT_GUARD_MAX_PERIOD),
        None
    );
}

#[test]
fn should_truncate_only_the_periodic_tail_and_keep_the_non_periodic_prefix() {
    let prefix: Vec<u32> = (1..=19).collect();
    let unit = [5u32, 6];
    let mut ids = prefix.clone();
    ids.extend(unit.iter().copied().cycle().take(2 * 40));

    assert_eq!(
        degenerate_tail_period(&ids, REPEAT_GUARD_WINDOW, REPEAT_GUARD_MAX_PERIOD),
        Some(2)
    );

    truncate_degenerate_tail(&mut ids, 2);

    let mut expected = prefix;
    expected.extend_from_slice(&unit);
    assert_eq!(ids, expected);
}

#[test]
fn should_report_and_truncate_via_the_combined_helper() {
    let unit = [1u32, 2, 3];
    let mut ids: Vec<u32> = unit.iter().copied().cycle().take(3 * 22).collect();
    assert_eq!(stop_if_degenerate(&mut ids), Some(3));
    assert_eq!(ids, vec![1, 2, 3]);
}

#[test]
fn periodicity_needs_a_positive_period() {
    assert!(!is_periodic(&[1, 1, 1], 0));
    assert!(is_periodic(&[1, 1, 1], 1));
    assert!(is_periodic(&[1, 2, 1, 2, 1], 2));
    assert!(!is_periodic(&[1, 2, 1, 3], 2));
    assert!(is_periodic(&[1, 2, 3], 7));
    assert!(is_periodic(&[], 1));
}

#[test]
fn a_period_may_be_as_long_as_the_window() {
    let ids = [4u32, 1, 2, 3];
    assert_eq!(degenerate_tail_period(&ids, 3, 8), Some(3));
    assert_eq!(degenerate_tail_period(&ids, 3, 2), None);
    assert_eq!(degenerate_tail_period(&ids, 0, 8), None);
    assert_eq!(degenerate_tail_period(&ids, 3, 0), None);
}

#[test]
fn the_smallest_period_is_reported() {
    let ids = vec![1u32, 2, 1, 2, 1, 2, 1, 2];
    assert_eq!(degenerate_tail_period(&ids, 8, 8), Some(2));
}

#[test]
fn truncation_ignores_an_unusable_period() {
    let mut ids = vec![1u32, 1, 1];
    truncate_degenerate_tail(&mut ids, 0);
    assert_eq!(ids, vec![1, 1, 1]);
    truncate_degenerate_tail(&mut ids, 4);
    assert_eq!(ids, vec![1, 1, 1]);
    truncate_degenerate_tail(&mut ids, usize::MAX);
    assert_eq!(ids, vec![1, 1, 1]);
}

#[test]
fn truncation_cuts_whole_units_only_and_is_idempotent() {
    let mut ids = vec![9u32, 2, 1, 2, 1, 2];
    truncate_degenerate_tail(&mut ids, 2);
    assert_eq!(ids, vec![9, 2, 1, 2]);
    truncate_degenerate_tail(&mut ids, 2);
    assert_eq!(ids, vec![9, 2, 1, 2]);
}

#[test]
fn the_guard_leaves_healthy_output_alone() {
    let mut ids: Vec<u32> = (0..100).collect();
    assert_eq!(stop_if_degenerate(&mut ids), None);
    assert_eq!(ids, (0..100).collect::<Vec<u32>>());
}

#[test]
fn the_guard_drops_at_least_forty_nine_ids() {
    let unit = [1u32, 2, 3, 4, 5, 6, 7, 8];
    let mut ids: Vec<u32> = (100..110).collect();
    ids.extend(unit.iter().copied().cycle().take(64));
    let before = ids.len();
    assert_eq!(stop_if_degenerate(&mut ids), Some(8));
    assert!(before - ids.len() >= 49);
    assert_eq!(&ids[..10], (100..110).collect::<Vec<u32>>().as_slice());
    assert_eq!(&ids[10..], &unit);
}

#[test]
fn most_of_a_degenerate_window_is_dropped() {
    let mut ids: Vec<u32> = [1u32, 2, 3, 4, 5, 6].iter().copied().cycle().take(64).collect();
    assert_eq!(stop_if_degenerate(&mut ids), Some(6));
    assert_eq!(ids, vec![1, 2, 3, 4, 5, 6, 1, 2, 3, 4]);
}
