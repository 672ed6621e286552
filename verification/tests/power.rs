use governance_v2::math::{below_percentage, exceeds_percentage, percentage_of};
use governance_v2::power::{be_bytes_to_u128, voting_power};

#[test]
fn voting_power_is_the_truncated_square_root() {
    assert_eq!(voting_power(0), 0);
    assert_eq!(voting_power(1), 1);
    assert_eq!(voting_power(3), 1);
    assert_eq!(voting_power(4), 2);
    assert_eq!(voting_power(16), 4);
    assert_eq!(voting_power(24), 4);
    assert_eq!(voting_power(1_000_000), 1_000);
    assert_eq!(voting_power(u128::MAX), u64::MAX as u128);
    assert_eq!(voting_power(1u128 << 126), 1u128 << 63);
}

#[test]
fn big_endian_bytes_are_read_back() {
    assert_eq!(be_bytes_to_u128(&vec![]), Some(0));
    assert_eq!(be_bytes_to_u128(&vec![1, 0]), Some(256));
    assert_eq!(be_bytes_to_u128(&vec![0, 0, 7]), Some(7));
    assert_eq!(be_bytes_to_u128(&vec![255; 16]), Some(u128::MAX));
    assert_eq!(be_bytes_to_u128(&vec![1; 17]), None);
    let mut padded = vec![0u8; 4];
    padded.extend(vec![255u8; 16]);
    assert_eq!(be_bytes_to_u128(&padded), Some(u128::MAX));
}

#[test]
fn percentage_of_rounds_down() {
    assert_eq!(percentage_of(1_000, 5_000), 500);
    assert_eq!(percentage_of(999, 3_333), 332);
    assert_eq!(percentage_of(1, 9_999), 0);
    assert_eq!(percentage_of(u128::MAX, 10_000), u128::MAX);
    assert_eq!(percentage_of(u128::MAX, 0), 0);
    assert_eq!(percentage_of(12_345, 10_000), 12_345);
}

#[test]
fn shares_are_compared_exactly() {
    assert!(exceeds_percentage(34, 3_333, 100));
    assert!(!exceeds_percentage(33, 3_333, 100));
    assert!(!exceeds_percentage(1, 5_000, 2));
    assert!(exceeds_percentage(2, 5_000, 3));
    assert!(below_percentage(1, 5_000, 3));
    assert!(!below_percentage(1, 5_000, 2));
    assert!(!below_percentage(2, 5_000, 3));
    assert!(below_percentage(u128::MAX - 1, 10_000, u128::MAX));
    assert!(!exceeds_percentage(u128::MAX, 10_000, u128::MAX));
}
