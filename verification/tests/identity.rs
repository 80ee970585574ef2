use steam_bridge::identity::BigInt;

#[test]
fn identity_round_trips_through_wide_form() {
    let wide = BigInt::from_u64(76561197985341433);
    assert!(!wide.sign_bit);
    assert_eq!(wide.words, vec![76561197985341433u64]);
    assert_eq!(wide.get_u64(), (false, 76561197985341433, true));
}

#[test]
fn identity_above_two_to_the_53_is_exact() {
    // 2^53 + 1 is the first integer that a double cannot hold.
    let id: u64 = 9_007_199_254_740_993;
    assert_eq!(BigInt::from_u64(id).get_u64().1, id);
    assert_eq!(BigInt::from_u64(u64::MAX).get_u64(), (false, u64::MAX, true));
}

#[test]
fn zero_identity_has_one_word() {
    let wide = BigInt::from_u64(0);
    assert_eq!(wide.words, vec![0u64]);
    assert_eq!(wide.get_u64(), (false, 0, true));
}

#[test]
fn wider_value_reads_as_truncated_low_word() {
    let wide = BigInt { sign_bit: false, words: vec![7, 1] };
    assert_eq!(wide.get_u64(), (false, 7, false));
}

#[test]
fn negative_value_reads_as_signed_and_incomplete() {
    let wide = BigInt { sign_bit: true, words: vec![7] };
    assert_eq!(wide.get_u64(), (true, 7, false));
}
