use nft_simple::token_id::dec_string_u128;

#[test]
fn single_digits() {
    assert_eq!(dec_string_u128(0).as_str(), "0");
    assert_eq!(dec_string_u128(7).as_str(), "7");
    assert_eq!(dec_string_u128(9).as_str(), "9");
}

#[test]
fn multi_digit_numbers() {
    assert_eq!(dec_string_u128(10).as_str(), "10");
    assert_eq!(dec_string_u128(3007).as_str(), "3007");
    assert_eq!(dec_string_u128(1234567890).as_str(), "1234567890");
}

#[test]
fn very_large_numbers() {
    assert_eq!(dec_string_u128(u128::MAX).as_str(), "340282366920938463463374607431768211455");
}
