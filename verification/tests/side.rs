use sierpinski_carpet::side::{
    aligned_side, benchmark_side, image_side, power_of_three, side_fits, ALIGNED_FLOOR, MIN_SIDE,
};

#[test]
fn powers_of_three() {
    assert_eq!(power_of_three(0), Some(1));
    assert_eq!(power_of_three(1), Some(3));
    assert_eq!(power_of_three(2), Some(9));
    assert_eq!(power_of_three(6), Some(729));
    assert_eq!(power_of_three(10), Some(59049));
    assert_eq!(power_of_three(20), Some(3_486_784_401));
}

#[test]
fn powers_of_three_beyond_a_u32() {
    assert_eq!(power_of_three(21), None);
    assert_eq!(power_of_three(22), None);
    assert_eq!(power_of_three(u32::MAX), None);
}

#[test]
fn image_side_has_a_floor() {
    assert_eq!(MIN_SIDE, 743);
    for steps in 0..=6 {
        assert_eq!(image_side(steps), Some(743));
    }
}

#[test]
fn image_side_is_the_power_above_the_floor() {
    assert_eq!(image_side(7), Some(2187));
    assert_eq!(image_side(8), Some(6561));
    assert_eq!(image_side(10), Some(59049));
    assert_eq!(image_side(20), Some(3_486_784_401));
    assert_eq!(image_side(21), None);
}

#[test]
fn image_side_matches_the_plain_maximum() {
    for steps in 0..=20 {
        assert_eq!(image_side(steps), Some(std::cmp::max(743, 3u32.pow(steps))));
    }
}

#[test]
fn benchmark_side_is_at_least_three() {
    assert_eq!(benchmark_side(0), Some(3));
    assert_eq!(benchmark_side(1), Some(3));
    assert_eq!(benchmark_side(2), Some(9));
    assert_eq!(benchmark_side(9), Some(19683));
    assert_eq!(benchmark_side(20), Some(3_486_784_401));
    assert_eq!(benchmark_side(21), None);
}

#[test]
fn aligned_side_is_a_power_of_three() {
    assert_eq!(ALIGNED_FLOOR, 729);
    for steps in 0..=6 {
        assert_eq!(aligned_side(steps), Some(729));
    }
    assert_eq!(aligned_side(7), Some(2187));
    assert_eq!(aligned_side(20), Some(3_486_784_401));
    assert_eq!(aligned_side(21), None);
}

#[test]
fn aligned_side_matches_repeated_tripling() {
    for steps in 0..=20 {
        let mut side = 3u32.pow(steps);
        while side < 729 {
            side *= 3;
        }
        assert_eq!(aligned_side(steps), Some(side));
    }
}

#[test]
fn a_side_fits_while_its_buffer_can_be_allocated() {
    assert!(side_fits(0));
    assert!(side_fits(743));
    assert!(side_fits(59049));
    let limit = isize::MAX as u128;
    for side in [26_754u32, 26_755, 1_162_261_467, 1_753_413_056, 1_753_413_057, u32::MAX] {
        let bytes = 3 * (side as u128) * (side as u128);
        assert_eq!(side_fits(side), bytes <= limit);
    }
    assert!(!side_fits(3_486_784_401));
}
