//! Fixed-point numbers, ratios, account ids and storage maps.

use loans::account::pallet_account;
use loans::fixed::{FixedU128, Ratio, DIV};
use loans::storage_map::StorageMap;
use loans::types::AccountId;

const MAX: u128 = u128::MAX;

fn fixed(inner: u128) -> FixedU128 {
    FixedU128::from_inner(inner)
}

/// The product of two words, as a high and a low word.
fn wide_product(a: u128, b: u128) -> (u128, u128) {
    let mask = (1u128 << 64) - 1;
    let (a1, a0) = (a >> 64, a & mask);
    let (b1, b0) = (b >> 64, b & mask);
    let low = a0 * b0;
    let mid1 = a1 * b0;
    let mid2 = a0 * b1;
    let mid = (low >> 64) + (mid1 & mask) + (mid2 & mask);
    let high = a1 * b1 + (mid1 >> 64) + (mid2 >> 64) + (mid >> 64);
    (high, (mid << 64) | (low & mask))
}

/// Quotient and remainder of a double word, where the quotient fits in one word.
fn wide_quotient(high: u128, low: u128, c: u128) -> Option<(u128, u128)> {
    if high >= c {
        return None;
    }
    let mut rest = high;
    let mut quotient = 0u128;
    for i in (0..128).rev() {
        let carry = rest >> 127;
        rest = (rest << 1) | ((low >> i) & 1);
        quotient <<= 1;
        if carry == 1 || rest >= c {
            rest = rest.wrapping_sub(c);
            quotient |= 1;
        }
    }
    Some((quotient, rest))
}

/// `a * b / c`, rounded as the numbers round.
fn reference(a: u128, b: u128, c: u128) -> Option<u128> {
    let (high, low) = wide_product(a, b);
    let (quotient, rest) = wide_quotient(high, low, c)?;
    if high > 0 && c > u32::MAX as u128 && rest > c / 2 {
        quotient.checked_add(1)
    } else {
        Some(quotient)
    }
}

/// Numbers of all widths, from a fixed seed.
struct Numbers {
    state: u64,
}

impl Numbers {
    fn word(&mut self) -> u64 {
        self.state = self.state.wrapping_mul(6364136223846793005).wrapping_add(1442695040888963407);
        let x = self.state;
        (x ^ (x >> 29)).wrapping_mul(0xbf58476d1ce4e5b9) ^ (x >> 32)
    }

    fn next(&mut self) -> u128 {
        let wide = ((self.word() as u128) << 64) | self.word() as u128;
        wide >> (self.word() % 128)
    }
}

#[test]
fn products_and_quotients_round_as_stated() {
    let mut numbers = Numbers { state: 7 };
    for _ in 0..20_000 {
        let a = numbers.next();
        let b = numbers.next();
        let product = reference(a, b, DIV);
        assert_eq!(fixed(a).checked_mul(&fixed(b)).map(|x| x.inner), product);
        assert_eq!(fixed(a).checked_mul_int(b), product);
        let quotient = if b == 0 { None } else { reference(a, DIV, b) };
        assert_eq!(fixed(a).checked_div(&fixed(b)).map(|x| x.inner), quotient);
        if b != 0 {
            assert_eq!(
                FixedU128::saturating_from_rational(a, b).inner,
                quotient.unwrap_or(MAX)
            );
        }
    }
}

#[test]
fn products_of_fixed_numbers() {
    // 2.5 * 0.4 = 1
    assert_eq!(
        fixed(2_500_000_000_000_000_000).checked_mul(&fixed(400_000_000_000_000_000)),
        Some(FixedU128::one())
    );
    // rounded down
    assert_eq!(fixed(3).checked_mul(&fixed(DIV / 2)), Some(fixed(1)));
    // a wide product is rounded to the nearest
    let a = 1u128 << 100;
    assert_eq!(fixed(a).checked_mul(&fixed(a)), None);
    let wide = 5 * (1u128 << 90);
    let exact = reference(wide, 1_234_567_890_123_456_789, DIV).unwrap();
    assert_eq!(fixed(wide).checked_mul_int(1_234_567_890_123_456_789), Some(exact));
    assert_eq!(fixed(MAX).checked_mul(&FixedU128::one()), Some(fixed(MAX)));
    assert_eq!(fixed(MAX).checked_mul(&fixed(DIV + 1)), None);
    assert_eq!(fixed(0).checked_mul(&fixed(MAX)), Some(fixed(0)));
}

#[test]
fn quotients_of_fixed_numbers() {
    assert_eq!(FixedU128::one().checked_div(&fixed(4 * DIV)), Some(fixed(DIV / 4)));
    assert_eq!(FixedU128::one().checked_div(&fixed(3 * DIV)), Some(fixed(DIV / 3)));
    assert_eq!(FixedU128::one().checked_div(&FixedU128::zero()), None);
    assert_eq!(fixed(MAX).checked_div(&fixed(1)), None);
    assert_eq!(fixed(MAX).checked_div(&FixedU128::one()), Some(fixed(MAX)));
}

#[test]
fn numbers_from_rationals() {
    assert_eq!(FixedU128::saturating_from_rational(2, 100).inner, 20_000_000_000_000_000);
    assert_eq!(FixedU128::saturating_from_rational(1, 3).inner, 333_333_333_333_333_333);
    assert_eq!(FixedU128::saturating_from_rational(MAX, 1).inner, MAX);
    assert_eq!(FixedU128::saturating_from_rational(0, 5), FixedU128::zero());
}

#[test]
fn sums_and_differences_of_fixed_numbers() {
    assert_eq!(fixed(3).checked_add(&fixed(4)), Some(fixed(7)));
    assert_eq!(fixed(MAX).checked_add(&fixed(1)), None);
    assert_eq!(fixed(4).checked_sub(&fixed(3)), Some(fixed(1)));
    assert_eq!(fixed(3).checked_sub(&fixed(4)), None);
    assert!(FixedU128::zero().is_zero());
    assert!(!FixedU128::one().is_zero());
    assert_eq!(FixedU128::one().into_inner(), DIV);
}

#[test]
fn ratios_round_up() {
    let half = Ratio::from_parts(500_000);
    assert_eq!(half.mul_ceil(10), 5);
    assert_eq!(half.mul_ceil(11), 6);
    assert_eq!(half.mul_ceil(0), 0);
    assert_eq!(Ratio::from_parts(1).mul_ceil(1), 1);
    assert_eq!(Ratio::from_parts(0).mul_ceil(MAX), 0);
    assert_eq!(Ratio::from_parts(1_000_000).mul_ceil(MAX), MAX);
    assert_eq!(half.mul_ceil(MAX), MAX / 2 + 1);
    let mut numbers = Numbers { state: 11 };
    for _ in 0..20_000 {
        let x = numbers.next();
        let parts = (numbers.word() % 1_000_001) as u32;
        let (high, low) = wide_product(x, parts as u128);
        let (quotient, rest) = wide_quotient(high, low, 1_000_000).unwrap();
        let expected = if rest > 0 { quotient + 1 } else { quotient };
        assert_eq!(Ratio::from_parts(parts).mul_ceil(x), expected);
    }
}

#[test]
fn ratios_are_at_most_the_whole() {
    assert_eq!(Ratio::from_parts(1_000_001), Ratio::from_parts(1_000_000));
    assert_eq!(Ratio::from_parts(7).deconstruct(), 7);
    assert!(!Ratio::from_parts(0).is_proper());
    assert!(Ratio::from_parts(1).is_proper());
    assert!(Ratio::from_parts(999_999).is_proper());
    assert!(!Ratio::from_parts(1_000_000).is_proper());
}

#[test]
fn pallet_account_is_modl_and_the_id() {
    let mut bytes = [0u8; 32];
    bytes[..12].copy_from_slice(b"modlpar/loan");
    assert_eq!(pallet_account(*b"par/loan"), AccountId::from_bytes(&bytes));
    assert_eq!(
        pallet_account(*b"par/loan"),
        AccountId { high: 0x6d6f646c_7061722f_6c6f616e_00000000, low: 0 }
    );
}

#[test]
fn accounts_are_read_big_endian() {
    let mut bytes = [0u8; 32];
    for (i, byte) in bytes.iter_mut().enumerate() {
        *byte = i as u8;
    }
    let account = AccountId::from_bytes(&bytes);
    assert_eq!(account.high, 0x000102030405060708090a0b0c0d0e0f);
    assert_eq!(account.low, 0x101112131415161718191a1b1c1d1e1f);
}

#[test]
fn maps_walk_in_the_order_of_insertion() {
    let mut map: StorageMap<u32, u128> = StorageMap::new();
    assert_eq!(map.len(), 0);
    map.insert(3, 30);
    map.insert(1, 10);
    map.insert(2, 20);
    map.insert(3, 31);
    assert_eq!(map.len(), 3);
    assert_eq!((map.key_at(0), map.key_at(1), map.key_at(2)), (3, 1, 2));
    assert_eq!(map.get(&3), Some(31));
    assert_eq!(map.get(&4), None);
    map.remove(&1);
    assert!(!map.contains_key(&1));
    assert_eq!((map.len(), map.key_at(0), map.key_at(1)), (2, 3, 2));
    map.remove(&9);
    assert_eq!(map.len(), 2);
    map.insert(1, 11);
    assert_eq!(map.key_at(2), 1);
    let copy = map.copied();
    map.insert(5, 50);
    assert_eq!(copy.len(), 3);
    assert_eq!((copy.key_at(2), copy.get(&1), copy.get(&5)), (1, Some(11), None));
}
