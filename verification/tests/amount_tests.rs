use helium_wallet::amount::units_from_decimal;
use helium_wallet::text::decimal_text;
use helium_wallet::result::Error;

#[test]
fn converts_decimal_tokens_to_units() {
    assert_eq!(units_from_decimal(0, 0), Ok(0));
    assert_eq!(units_from_decimal(1, 0), Ok(100_000_000));
    assert_eq!(units_from_decimal(15, 1), Ok(150_000_000));
    assert_eq!(units_from_decimal(1, 8), Ok(1));
    assert_eq!(units_from_decimal(12_345_678_901, 8), Ok(12_345_678_901));
    assert_eq!(units_from_decimal(100, 0), Ok(10_000_000_000));
}

#[test]
fn refuses_amounts_that_are_no_units() {
    assert_eq!(units_from_decimal(-1, 0), Err(Error::AmountNegative));
    assert_eq!(units_from_decimal(i128::MIN, 8), Err(Error::AmountNegative));
    assert_eq!(units_from_decimal(1, 9), Err(Error::AmountPrecision));
    assert_eq!(units_from_decimal(-1, 9), Err(Error::AmountPrecision));
    assert_eq!(units_from_decimal(10, 9), Err(Error::AmountPrecision));
    assert_eq!(units_from_decimal(184_467_440_738, 0), Err(Error::AmountOverflow));
    assert_eq!(units_from_decimal(i128::MAX, 0), Err(Error::AmountOverflow));
    assert_eq!(units_from_decimal(u64::MAX as i128 + 1, 8), Err(Error::AmountOverflow));
}

#[test]
fn takes_the_largest_amounts() {
    assert_eq!(units_from_decimal(u64::MAX as i128, 8), Ok(u64::MAX));
    assert_eq!(units_from_decimal(184_467_440_737, 0), Ok(18_446_744_073_700_000_000));
    assert_eq!(units_from_decimal(1_844_674_407_370_955_161, 7), Ok(18_446_744_073_709_551_610));
    assert_eq!(
        units_from_decimal(1_844_674_407_370_955_162, 7),
        Err(Error::AmountOverflow)
    );
}

#[test]
fn agrees_with_helium_api_on_amounts_it_converts() {
    for text in ["0", "1", "1.5", "0.00000001", "123.456", "100", "184467440737.09551615"] {
        let hnt: helium_api::models::Hnt = text.parse().unwrap();
        let d = hnt.get_decimal();
        assert_eq!(units_from_decimal(d.mantissa(), d.scale()), Ok(u64::from(hnt)), "{}", text);
    }
}

#[test]
fn writes_decimal_numerals() {
    assert_eq!(decimal_text(0), "0");
    assert_eq!(decimal_text(7), "7");
    assert_eq!(decimal_text(10), "10");
    assert_eq!(decimal_text(1_000_000), "1000000");
    assert_eq!(decimal_text(u64::MAX), "18446744073709551615");
    for n in [1u64, 9, 11, 99, 100, 12_345, 9_999_999_999] {
        assert_eq!(decimal_text(n), n.to_string());
    }
}
