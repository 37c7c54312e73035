use clearing_house::roots::fourth_root;

#[test]
fn fourth_root_small_values() {
    assert_eq!(fourth_root(0), 0);
    assert_eq!(fourth_root(1), 1);
    assert_eq!(fourth_root(15), 1);
    assert_eq!(fourth_root(16), 2);
    assert_eq!(fourth_root(80), 2);
    assert_eq!(fourth_root(81), 3);
    assert_eq!(fourth_root(255), 3);
    assert_eq!(fourth_root(256), 4);
}

#[test]
fn fourth_root_exact_powers() {
    assert_eq!(fourth_root(100_000_000), 100);
    assert_eq!(fourth_root(10_000 * 10_000 * 10_000 * 10_000), 10_000);
}

#[test]
fn fourth_root_time_curve_values() {
    // One tick and sixty ticks of age, scaled by 10^8 as the reward
    // curve does.
    assert_eq!(fourth_root(100_000_000), 100);
    assert_eq!(fourth_root(6_000_000_000), 278);
}

#[test]
fn fourth_root_largest_input() {
    let root = fourth_root(u128::MAX);
    assert_eq!(root, (1u128 << 32) - 1);
}
