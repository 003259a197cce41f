use payment_gateway::types::Amount;

#[test]
fn zero_is_zero() {
    assert!(Amount::zero().is_zero());
    assert_eq!(Amount::zero(), Amount::from_u64(0));
    assert_eq!(Amount::zero().to_limbs(), [0, 0, 0, 0]);
}

#[test]
fn from_u64_fills_lowest_word() {
    let amount = Amount::from_u64(100);
    assert_eq!(amount, Amount { word3: 0, word2: 0, word1: 0, word0: 100 });
    assert!(!amount.is_zero());
}

#[test]
fn limbs_are_least_significant_first() {
    let amount = Amount::from_limbs([1, 2, 3, 4]);
    assert_eq!(amount, Amount { word3: 4, word2: 3, word1: 2, word0: 1 });
    assert_eq!(amount.to_limbs(), [1, 2, 3, 4]);
}

#[test]
fn high_word_alone_is_not_zero() {
    assert!(!Amount::from_limbs([0, 0, 0, 1]).is_zero());
    assert!(!Amount::from_limbs([0, 1, 0, 0]).is_zero());
}

#[test]
fn ge_is_closed_at_equality() {
    let a = Amount::from_u64(100);
    assert!(a.ge(&Amount::from_u64(100)));
    assert!(Amount::from_u64(150).ge(&a));
    assert!(!Amount::from_u64(50).ge(&a));
    assert!(!Amount::from_u64(99).ge(&a));
}

#[test]
fn ge_compares_high_words_first() {
    // 2^64 against 2^64 - 1: the higher word decides, not the lower.
    let high = Amount::from_limbs([0, 1, 0, 0]);
    let low = Amount::from_limbs([u64::MAX, 0, 0, 0]);
    assert!(high.ge(&low));
    assert!(!low.ge(&high));
    // 2^192 against everything below it.
    let top = Amount::from_limbs([0, 0, 0, 1]);
    let below = Amount::from_limbs([u64::MAX, u64::MAX, u64::MAX, 0]);
    assert!(top.ge(&below));
    assert!(!below.ge(&top));
    // Equal high words: the next word decides.
    let x = Amount::from_limbs([5, 7, 9, 1]);
    let y = Amount::from_limbs([6, 7, 9, 1]);
    assert!(y.ge(&x));
    assert!(!x.ge(&y));
    let z = Amount::from_limbs([0, 8, 9, 1]);
    assert!(z.ge(&y));
    assert!(!y.ge(&z));
}

#[test]
fn ge_is_unsigned_at_full_width() {
    let max = Amount::from_limbs([u64::MAX, u64::MAX, u64::MAX, u64::MAX]);
    assert!(max.ge(&Amount::zero()));
    assert!(max.ge(&max));
    assert!(!Amount::zero().ge(&max));
    assert!(Amount::zero().ge(&Amount::zero()));
}
