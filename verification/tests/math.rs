use dao::errors::Error;
use dao::math::{per_mil_of, per_mil_of_as_u32, to_per_mils};
use dao::u256::U256;

fn b(v: u64) -> U256 {
    U256::from_u64(v)
}

#[test]
fn test_per_mils_of() {
    assert_eq!(per_mil_of(b(1000), b(1)).unwrap(), b(1));
    assert_eq!(per_mil_of(b(1000), b(999)).unwrap(), b(999));
    assert_eq!(per_mil_of(b(6), b(334)).unwrap(), b(2));
    assert_eq!(per_mil_of(b(6), b(333)).unwrap(), b(1));
    assert_eq!(per_mil_of(b(10), b(750)).unwrap(), b(7));
}

#[test]
fn per_mil_of_is_symmetric() {
    assert_eq!(per_mil_of(b(334), b(6)).unwrap(), per_mil_of(b(6), b(334)).unwrap());
    assert_eq!(per_mil_of(b(750), b(10)).unwrap(), b(7));
}

#[test]
fn per_mil_of_divides_first_when_the_product_overflows() {
    // 2^255 * 4 does not fit; (2^255 / 1000) * 4 does.
    let big = U256::from_words([0, 0, 0, 1u64 << 63]);
    let r = per_mil_of(big, b(4)).unwrap();
    // 2^255 / 1000 * 4, computed on the words with 128-bit arithmetic
    let mut words = [0u64; 4];
    let mut rem: u128 = 0;
    let src = big.words();
    for i in (0..4).rev() {
        let cur = (rem << 64) | src[i] as u128;
        words[i] = (cur / 1000) as u64;
        rem = cur % 1000;
    }
    let mut carry: u128 = 0;
    for w in words.iter_mut() {
        let cur = (*w as u128) * 4 + carry;
        *w = cur as u64;
        carry = cur >> 64;
    }
    assert_eq!(r, U256::from_words(words));
}

#[test]
fn per_mil_of_overflows() {
    let max = U256::from_words([u64::MAX; 4]);
    assert_eq!(per_mil_of(max, max), Err(Error::ArithmeticOverflow));
}

#[test]
fn per_mil_of_as_u32_fits_or_fails() {
    assert_eq!(per_mil_of_as_u32(b(500), b(10)), Ok(5));
    assert_eq!(
        per_mil_of_as_u32(b(1000), b(u32::MAX as u64 + 1)),
        Err(Error::ArithmeticOverflow)
    );
}

#[test]
fn to_per_mils_divides_by_a_thousand() {
    assert_eq!(to_per_mils(b(10000)), b(10));
    assert_eq!(to_per_mils(b(999)), b(0));
}

#[test]
fn u256_arithmetic_goes_through_the_framework() {
    // products and quotients
    assert_eq!(per_mil_of(b(7000), b(6)), Ok(b(42)));
    // carries across words: 2^64 * 1000 / 1000
    let two64 = U256::from_words([0, 1, 0, 0]);
    assert_eq!(per_mil_of(two64, b(1000)), Ok(two64));
    // conversion to u32
    assert_eq!(per_mil_of_as_u32(b(70_000_000), b(1000)), Ok(70_000_000));
}
