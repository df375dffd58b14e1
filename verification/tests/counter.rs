use raxc::counter::Counter;
use raxc::primitives::U256;

#[test]
fn test_counter() {
    let mut contract = Counter::new();
    assert_eq!(U256::zero(), contract.number());
    contract.increment();
    assert_eq!(U256::from_u64(1), contract.number());
    contract.add_number(U256::from_u64(3));
    assert_eq!(U256::from_u64(4), contract.number());
    contract.mul_number(U256::from_u64(2));
    assert_eq!(U256::from_u64(8), contract.number());
    contract.set_number(U256::from_u64(100));
    assert_eq!(U256::from_u64(100), contract.number());
    contract.set_value(U256::from_u64(2));
    contract.add_from_msg_value();
    assert_eq!(U256::from_u64(102), contract.number());
}

#[test]
fn counter_wraps_modulo_two_to_the_256() {
    let max = U256::from_limbs([u64::MAX; 4]);
    let mut contract = Counter::new();
    contract.set_number(max);
    contract.increment();
    assert_eq!(contract.number(), U256::zero());
    contract.set_number(U256::from_limbs([0, 0, 0, 1 << 63]));
    contract.mul_number(U256::from_u64(2));
    assert_eq!(contract.number(), U256::zero());
    contract.set_number(max);
    contract.add_number(U256::from_u64(5));
    assert_eq!(contract.number(), U256::from_u64(4));
}

#[test]
fn counter_carries_across_limbs() {
    let mut contract = Counter::new();
    contract.set_number(U256::from_u64(u64::MAX));
    contract.increment();
    assert_eq!(contract.number(), U256::from_limbs([0, 1, 0, 0]));
    contract.mul_number(U256::from_limbs([0, 1, 0, 0]));
    assert_eq!(contract.number(), U256::from_limbs([0, 0, 1, 0]));
}
