use subscription_ledger::primitives::Address;
use subscription_ledger::primitives::U256;

#[test]
fn zero_word_is_the_word_of_zero() {
    assert_eq!(U256::zero(), U256::from_u64(0));
    assert_eq!(U256::zero(), U256::from_usize(0));
    assert_eq!(U256::zero(), U256::from_halves(0, 0));
    assert_eq!(U256::zero().to_usize(), Some(0));
}

#[test]
fn small_words_agree_across_constructors() {
    assert_eq!(U256::from_u64(2592000), U256::from_usize(2592000));
    assert_eq!(U256::from_u64(100), U256::from_halves(0, 100));
    assert_ne!(U256::from_u64(100), U256::from_u64(101));
    assert_ne!(U256::from_halves(1, 0), U256::from_halves(0, 1));
}

#[test]
fn to_usize_returns_the_number_where_it_fits() {
    assert_eq!(U256::from_u64(7).to_usize(), Some(7));
    assert_eq!(U256::from_usize(usize::MAX).to_usize(), Some(usize::MAX));
}

#[test]
fn to_usize_is_none_above_the_machine_word() {
    assert_eq!(U256::from_halves(1, 0).to_usize(), None);
    assert_eq!(U256::from_halves(1, 5).to_usize(), None);
    assert_eq!(U256::from_halves(0, u128::MAX).to_usize(), None);
    assert_eq!(U256::from_halves(u128::MAX, u128::MAX).to_usize(), None);
}

#[test]
fn lt_orders_by_high_half_first() {
    let small = U256::from_halves(0, u128::MAX);
    let large = U256::from_halves(1, 0);
    assert!(small.lt(&large));
    assert!(!large.lt(&small));
    assert!(U256::from_u64(3).lt(&U256::from_u64(4)));
    assert!(!U256::from_u64(4).lt(&U256::from_u64(3)));
    assert!(U256::from_halves(2, 9).lt(&U256::from_halves(2, 10)));
}

#[test]
fn lt_is_irreflexive() {
    for word in [U256::zero(), U256::from_u64(1), U256::from_halves(3, 4)] {
        assert!(!word.lt(&word));
    }
}

#[test]
fn zero_address_is_twenty_zero_bytes() {
    assert_eq!(Address::zero().to_bytes(), [0u8; 20]);
    assert_eq!(Address::zero(), Address::from_bytes([0u8; 20]));
}

#[test]
fn address_bytes_round_trip() {
    let mut bytes = [0u8; 20];
    for (i, byte) in bytes.iter_mut().enumerate() {
        *byte = (i * 13 + 1) as u8;
    }
    let address = Address::from_bytes(bytes);
    assert_eq!(address.to_bytes(), bytes);
    assert_ne!(address, Address::zero());
}

#[test]
fn addresses_differ_where_one_byte_differs() {
    let mut bytes = [0xabu8; 20];
    let first = Address::from_bytes(bytes);
    bytes[19] = 0xac;
    assert_ne!(first, Address::from_bytes(bytes));
}
