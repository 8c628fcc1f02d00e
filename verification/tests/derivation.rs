use rust_nuke::derivation::derivation_counts;

#[test]
fn count_zero_derives_nothing() {
    assert_eq!(derivation_counts(0), (0, 0));
}

#[test]
fn count_one_takes_one_level() {
    assert_eq!(derivation_counts(1), (4, 1));
}

#[test]
fn count_four_still_fits_one_level() {
    assert_eq!(derivation_counts(4), (4, 1));
}

#[test]
fn count_five_needs_two_levels() {
    assert_eq!(derivation_counts(5), (20, 5));
}

#[test]
fn count_six_needs_two_levels() {
    assert_eq!(derivation_counts(6), (20, 5));
}

#[test]
fn count_sixteen_fits_two_levels() {
    assert_eq!(derivation_counts(16), (20, 5));
}

#[test]
fn count_seventeen_fits_two_levels() {
    assert_eq!(derivation_counts(17), (20, 5));
}

#[test]
fn count_twenty_is_a_boundary() {
    assert_eq!(derivation_counts(20), (20, 5));
    assert_eq!(derivation_counts(21), (84, 21));
}

#[test]
fn total_is_four_times_extra() {
    for count in [1u64, 2, 3, 4, 5, 100, 1_000_000] {
        let (total, extra) = derivation_counts(count);
        assert!(total >= count);
        assert_eq!(total, 4 * extra);
    }
}
