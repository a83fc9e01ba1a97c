use titan_integration_template::drfraudsworth::math::amm_math::{calculate_effective_input, calculate_swap_output};

#[test]
fn fee_100bps_on_1000() {
    assert_eq!(calculate_effective_input(1000, 100), Some(990));
}

#[test]
fn fee_zero_bps() {
    assert_eq!(calculate_effective_input(1000, 0), Some(1000));
}

#[test]
fn fee_over_10000_bps() {
    assert_eq!(calculate_effective_input(1000, 10001), None);
}

#[test]
fn fee_on_zero_amount() {
    assert_eq!(calculate_effective_input(0, 100), Some(0));
}

#[test]
fn swap_equal_reserves_1m() {
    assert_eq!(calculate_swap_output(1_000_000, 1_000_000, 1000), Some(999));
}

#[test]
fn swap_zero_effective_input() {
    assert_eq!(calculate_swap_output(1_000_000, 1_000_000, 0), Some(0));
}

#[test]
fn swap_zero_reserve_in_zero_effective() {
    assert_eq!(calculate_swap_output(0, 1_000_000, 0), None);
}

#[test]
fn fee_rounds_down_to_whole_atoms() {
    // 999 * (10000 - 30) / 10000 = 996.003 -> 996
    assert_eq!(calculate_effective_input(999, 30), Some(996));
}

#[test]
fn full_fee_leaves_nothing() {
    assert_eq!(calculate_effective_input(123_456, 10_000), Some(0));
}

#[test]
fn swap_output_stays_below_reserve_out() {
    // A huge input can never drain the whole output reserve.
    let out = calculate_swap_output(1_000, 5_000, 1_000_000_000_000).unwrap();
    assert_eq!(out, 4_999);
}

#[test]
fn swap_output_is_monotone_in_input() {
    let mut prev = 0;
    for e in [0u128, 1, 10, 1_000, 1_000_000, 1_000_000_000] {
        let out = calculate_swap_output(10_000_000, 20_000_000, e).unwrap();
        assert!(out >= prev);
        prev = out;
    }
}
