use metastable_pool::error::ContractError;
use metastable_pool::math::{compute_d, compute_y};

#[test]
fn invariant_of_balanced_pool() {
    // balanced normalized balances: D is exactly their sum
    assert_eq!(compute_d(10_000, 100, 100), Ok(200));
    assert_eq!(compute_d(10_000, 200_000, 200_000), Ok(400_000));
    // empty pool
    assert_eq!(compute_d(10_000, 0, 0), Ok(0));
}

#[test]
fn solver_round_trip() {
    // compute_y(x0, compute_d(x0, x1), amp) recovers x1 within one
    // unit of truncation
    let d = compute_d(10_000, 100, 100).unwrap();
    assert_eq!(compute_y(10_000, 100, d), Ok(100));

    let d = compute_d(10_000, 500, 100).unwrap();
    assert_eq!(d, 598);
    let y = compute_y(10_000, 500, d).unwrap();
    assert!(y <= 100 && 100 - y <= 1, "y = {}", y);

    let d = compute_d(10_000, 1_000_000_000_000, 3_000_000_000_000).unwrap();
    let y = compute_y(10_000, 1_000_000_000_000, d).unwrap();
    let diff = if y >= 3_000_000_000_000 {
        y - 3_000_000_000_000
    } else {
        3_000_000_000_000 - y
    };
    assert!(diff <= 1, "y = {}", y);
}

#[test]
fn solver_failure_modes() {
    // a single zero balance has no usable invariant
    assert_eq!(compute_d(10_000, 0, 5), Err(ContractError::Overflow));
    assert_eq!(compute_d(10_000, 5, 0), Err(ContractError::Overflow));
    assert_eq!(compute_y(10_000, 0, 5), Err(ContractError::Overflow));
    // inputs on which the Newton iteration oscillates without
    // reaching unit tolerance within the iteration bound
    assert_eq!(
        compute_d(101, 8_303_332_323, 6_910),
        Err(ContractError::ConvergenceError)
    );
    // cube-scale intermediates that cannot fit 128 bits overflow
    let big: u128 = 1 << 126;
    assert_eq!(compute_d(10_000, big, big), Err(ContractError::Overflow));
}
