use bankineco_amm::errors::MathError;
use bankineco_amm::quote::required_input_amount_u128;

#[test]
fn exact_integer_fixture_minting() {
    // desired_out = 1_000_000, both prices 1_000_000, fee 10 bps:
    // ceil(1_000_000 * 1_000_000 * 10_000 / (1_000_000 * 9_990)) = 1_001_002.
    let r = required_input_amount_u128(true, 1_000_000, 1_000_000, 1_000_000, 10);
    assert_eq!(r, Ok(1_001_002u128));
}

#[test]
fn exact_integer_fixture_burning() {
    // Burning swaps the two price roles; with equal prices the result matches.
    let r = required_input_amount_u128(false, 1_000_000, 1_000_000, 1_000_000, 10);
    assert_eq!(r, Ok(1_001_002u128));
}

#[test]
fn direction_symmetry_on_fixtures() {
    // Flipping the direction flag while swapping the two mint prices gives
    // the same required input.
    let cases: [(u64, u64, u64, u16); 4] = [
        (742_500, 1_500_000, 2_000_000, 100),
        (1, 3, 7, 0),
        (999_999_999, 123_456, 654_321, 9_999),
        (5, 1, 1, 1),
    ];
    for (desired, y, b, fee) in cases {
        let one = required_input_amount_u128(true, desired, y, b, fee);
        let two = required_input_amount_u128(false, desired, b, y, fee);
        assert_eq!(one, two);
    }
}

#[test]
fn fee_of_ten_thousand_bps_is_rejected() {
    let r = required_input_amount_u128(true, 1_000_000, 1_000_000, 1_000_000, 10_000);
    assert_eq!(r, Err(MathError::FeeTooHigh));
}

#[test]
fn fee_above_ten_thousand_bps_is_rejected() {
    let r = required_input_amount_u128(false, 1, 1, 1, u16::MAX);
    assert_eq!(r, Err(MathError::FeeTooHigh));
}

#[test]
fn zero_input_price_is_rejected() {
    // Minting reads the yield price as the input price.
    let r = required_input_amount_u128(true, 5, 0, 5, 0);
    assert_eq!(r, Err(MathError::ZeroPrice));
}

#[test]
fn max_amount_times_max_price_overflows() {
    // The output price is the reserve price when minting: the triple
    // product u64::MAX * u64::MAX * 10_000 exceeds 128 bits.
    let r = required_input_amount_u128(true, u64::MAX, 1, u64::MAX, 0);
    assert_eq!(r, Err(MathError::Overflow));
}

#[test]
fn ceiling_is_sufficient_and_tight_on_fixture() {
    // Feeding the required input forward through the floor-rounding rule
    // realizes at least the desired output, and one unit less falls short.
    let desired: u128 = 742_500;
    let price_in: u128 = 1_500_000;
    let price_out: u128 = 2_000_000;
    let fee: u128 = 100;
    let r = required_input_amount_u128(true, desired as u64, price_in as u64, price_out as u64, fee as u16)
        .unwrap();
    let forward = |x: u128| (x * (price_in * (10_000 - fee))) / (price_out * 10_000);
    assert!(forward(r) >= desired);
    assert!(forward(r - 1) < desired);
    assert_eq!(r, 1_000_000);
}

#[test]
fn exact_in_of_one_unit() {
    // Smallest non-trivial request: one output unit at equal unit prices
    // with no fee needs exactly one input unit.
    let r = required_input_amount_u128(true, 1, 1, 1, 0);
    assert_eq!(r, Ok(1u128));
}
