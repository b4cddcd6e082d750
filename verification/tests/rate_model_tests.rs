use rwrd_programs::rates::{calculate_borrow_apr, calculate_deposit_apr, utilization};

#[test]
fn utilization_zero_when_pool_empty() {
    assert_eq!(utilization(0, 12_345), 0);
}

#[test]
fn utilization_half_borrowed() {
    assert_eq!(utilization(1_000_000, 500_000), 5_000);
}

#[test]
fn utilization_fully_borrowed() {
    assert_eq!(utilization(777, 777), 10_000);
}

#[test]
fn utilization_above_one_hundred_percent() {
    assert_eq!(utilization(500_000, 1_000_000), 20_000);
}

#[test]
fn utilization_truncates_to_sixty_four_bits() {
    // u64::MAX * 10000 / 1 overflows 64 bits; the value keeps its low bits,
    // which is 2^64 - 10000.
    assert_eq!(utilization(1, u64::MAX), 18_446_744_073_709_541_616);
}

#[test]
fn borrow_apr_scenario_half_utilized() {
    // utilization 5000 bps; premium 5000 * 1000 / 10000 = 500; total 700.
    assert_eq!(calculate_borrow_apr(200, 1_000, 1_000_000, 500_000), 700);
}

#[test]
fn borrow_apr_equals_base_when_nothing_borrowed() {
    assert_eq!(calculate_borrow_apr(200, 1_000, 1_000_000, 0), 200);
}

#[test]
fn borrow_apr_saturates_at_max() {
    // Premium 10000 * 10000 / 10000 = 10000 on top of a maximal base.
    assert_eq!(calculate_borrow_apr(u64::MAX, 10_000, 1, 1), u64::MAX);
}

#[test]
fn deposit_apr_exact_value() {
    // 700 * 5000 / 10000 = 350; 350 * 90 / 100 = 315.
    assert_eq!(calculate_deposit_apr(700, 5_000, 10), 315);
}

#[test]
fn deposit_apr_no_fee() {
    assert_eq!(calculate_deposit_apr(700, 5_000, 0), 350);
}

#[test]
fn deposit_apr_full_fee_is_zero() {
    assert_eq!(calculate_deposit_apr(700, 5_000, 100), 0);
}

#[test]
fn deposit_apr_zero_utilization_is_zero() {
    assert_eq!(calculate_deposit_apr(700, 0, 10), 0);
}
