use beverley::{depth_levels, levels_for_bits, DepthLevels, DEFAULT_BITS, MAX_BITS, MIN_BITS};

#[test]
fn default_depth_has_fifteen_levels() {
    assert_eq!(levels_for_bits(DEFAULT_BITS), 15);
}

#[test]
fn two_bits_give_three_levels() {
    assert_eq!(levels_for_bits(2), 3);
}

#[test]
fn one_bit_gives_one_level() {
    assert_eq!(levels_for_bits(MIN_BITS), 1);
}

#[test]
fn zero_bits_are_clamped_to_one_bit() {
    assert_eq!(levels_for_bits(0), 1);
}

#[test]
fn sixteen_bits_give_full_range() {
    assert_eq!(levels_for_bits(16), 65535);
}

#[test]
fn largest_depth_fits_i32() {
    assert_eq!(levels_for_bits(MAX_BITS), i32::MAX);
}

#[test]
fn whole_depth_uses_one_grid_for_both_quantizers() {
    assert_eq!(depth_levels(4, 4), DepthLevels { low: 15, high: 15 });
}

#[test]
fn fractional_depth_uses_neighbouring_grids() {
    let levels = depth_levels(3, 4);
    assert_eq!(levels.low, 7);
    assert_eq!(levels.high, 15);
}

#[test]
fn depth_below_one_bit_keeps_both_quantizers_defined() {
    assert_eq!(depth_levels(0, 1), DepthLevels { low: 1, high: 1 });
}

#[test]
fn level_counts_grow_with_depth() {
    let mut previous = levels_for_bits(0);
    for bits in 1..=MAX_BITS {
        let current = levels_for_bits(bits);
        assert!(current >= previous);
        previous = current;
    }
}
