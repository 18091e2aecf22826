use luxbin_core::erc4337::{bundle_step, gas_cost, Error, Pallet as Erc4337, UserOperation};
use luxbin_core::hash::H160;

fn operation(nonce: u64, call_gas_limit: u64, max_fee_per_gas: u128) -> UserOperation {
    UserOperation {
        sender: H160([0x11; 20]),
        nonce,
        init_code: vec![0xaa, 0xbb],
        call_data: vec![0xcc],
        call_gas_limit,
        verification_gas_limit: 2,
        pre_verification_gas: 3,
        max_fee_per_gas,
        max_priority_fee_per_gas: 5,
        paymaster_and_data: vec![0xdd],
        signature: vec![0xee],
    }
}

#[test]
fn gas_cost_exact() {
    assert_eq!(gas_cost(&operation(0, 21000, 10)), 210000);
    assert_eq!(gas_cost(&operation(0, 0, 10)), 0);
    // The product is held at the largest 64-bit value.
    assert_eq!(gas_cost(&operation(0, u64::MAX, 2)), u64::MAX as u128);
    // Only the low 64 bits of the fee count.
    assert_eq!(gas_cost(&operation(0, 21000, (1u128 << 64) + 3)), 63000);
    assert_eq!(gas_cost(&operation(0, 21000, 1u128 << 64)), 0);
}

#[test]
fn validation_rules() {
    let op = operation(4, 21000, 10);
    assert_eq!(Erc4337::validate_user_operation(&op, 4, 210000), Ok(()));
    assert_eq!(Erc4337::validate_user_operation(&op, 4, 209999), Err(Error::InsufficientFunds));
    assert_eq!(Erc4337::validate_user_operation(&op, 5, 210000), Err(Error::InvalidNonce));
    assert_eq!(Erc4337::validate_user_operation(&op, 3, 0), Err(Error::InvalidNonce));
}

#[test]
fn preimage_layout() {
    let op = operation(0x0102, 7, 0x0a0b);
    let data = Erc4337::hash_user_operation(&op);
    let mut expected = vec![0x11u8; 20];
    expected.extend_from_slice(&0x0102u64.to_be_bytes());
    expected.extend_from_slice(&[0xaa, 0xbb]);
    expected.extend_from_slice(&[0xcc]);
    expected.extend_from_slice(&7u64.to_be_bytes());
    expected.extend_from_slice(&2u64.to_be_bytes());
    expected.extend_from_slice(&3u64.to_be_bytes());
    expected.extend_from_slice(&0x0a0bu128.to_be_bytes());
    expected.extend_from_slice(&5u128.to_be_bytes());
    assert_eq!(data, expected);
    assert_eq!(data.len(), 20 + 8 + 2 + 1 + 8 + 8 + 8 + 16 + 16);

    let large = operation(u64::MAX, u64::MAX, u128::MAX);
    let data = Erc4337::hash_user_operation(&large);
    assert_eq!(&data[20..28], &[0xff; 8]);
    assert_eq!(&data[55..71], &[0xff; 16]);
}

#[test]
fn submit_checks_then_identifies() {
    let op = operation(4, 21000, 10);
    assert_eq!(
        Erc4337::submit_user_operation(&op, 4, 210000),
        Ok(Erc4337::hash_user_operation(&op))
    );
    assert_eq!(Erc4337::submit_user_operation(&op, 0, 210000), Err(Error::InvalidNonce));
    assert_eq!(Erc4337::submit_user_operation(&op, 4, 1), Err(Error::InsufficientFunds));
}

#[test]
fn execution_charges_the_sender() {
    let op = operation(4, 21000, 10);
    let mut nonce = 4u64;
    let mut balance = 500000u128;
    assert_eq!(Erc4337::execute_user_operation(&op, &mut nonce, &mut balance), Ok(21000));
    assert_eq!(nonce, 5);
    assert_eq!(balance, 290000);

    let mut nonce = u64::MAX;
    let mut balance = 1000u128;
    assert_eq!(Erc4337::execute_user_operation(&op, &mut nonce, &mut balance), Ok(21000));
    assert_eq!(nonce, u64::MAX);
    assert_eq!(balance, 0);
}

#[test]
fn bundle_totals() {
    assert_eq!(Erc4337::execute_bundle(&[]), (0, 0));
    let ops = vec![operation(0, 21000, 1), operation(1, 9000, 1), operation(2, 0, 1)];
    assert_eq!(Erc4337::execute_bundle(&ops), (3, 30000));
    let edge = vec![operation(0, u64::MAX - 1, 1), operation(1, 1, 1)];
    assert_eq!(Erc4337::execute_bundle(&edge), (2, u64::MAX));
}

#[test]
fn deposits_and_withdrawals() {
    assert_eq!(Erc4337::deposit(100, 50), 150);
    assert_eq!(Erc4337::deposit(u128::MAX - 1, 50), u128::MAX);
    assert_eq!(Erc4337::withdraw(100, 50), Ok(50));
    assert_eq!(Erc4337::withdraw(100, 100), Ok(0));
    assert_eq!(Erc4337::withdraw(100, 101), Err(Error::InsufficientFunds));
}

#[test]
fn bundle_steps() {
    assert_eq!(bundle_step((0, 0), &Ok(21000)), Some((1, 21000)));
    assert_eq!(bundle_step((3, 100), &Ok(0)), Some((4, 100)));
    assert_eq!(bundle_step((3, 100), &Err(Error::ExecutionFailed)), Some((3, 100)));
    assert_eq!(bundle_step((3, u64::MAX - 5), &Ok(5)), Some((4, u64::MAX)));
    assert_eq!(bundle_step((3, u64::MAX - 5), &Ok(6)), None);
    assert_eq!(bundle_step((u32::MAX, 0), &Ok(1)), None);
    assert_eq!(bundle_step((u32::MAX, 0), &Err(Error::InvalidNonce)), Some((u32::MAX, 0)));
}
