//! Account abstraction: the rules by which a user operation is checked,
//! charged and identified.

use crate::bytes::{append_bytes, be_bytes, to_be_bytes};
use crate::hash::H160;
use vstd::prelude::*;

verus! {

/// A user operation of a smart wallet.
#[derive(Clone, Debug, PartialEq, Eq)]
pub struct UserOperation {
    pub sender: H160,
    pub nonce: u64,
    pub init_code: Vec<u8>,
    pub call_data: Vec<u8>,
    pub call_gas_limit: u64,
    pub verification_gas_limit: u64,
    pub pre_verification_gas: u64,
    pub max_fee_per_gas: u128,
    pub max_priority_fee_per_gas: u128,
    pub paymaster_and_data: Vec<u8>,
    pub signature: Vec<u8>,
}

/// Why a user operation was turned down.
#[derive(Clone, Copy, Debug, PartialEq, Eq, Structural)]
pub enum Error {
    /// Invalid user operation.
    InvalidUserOperation,
    /// The deposit does not cover the request.
    InsufficientFunds,
    /// The bundle is too large.
    BundleTooLarge,
    /// Execution failed.
    ExecutionFailed,
    /// Invalid signature.
    InvalidSignature,
    /// The sender account is not deployed.
    SenderNotDeployed,
    /// The nonce is not the next nonce of the sender.
    InvalidNonce,
}

/// The most that an operation can cost: its gas limit times the low 64
/// bits of its fee per gas, held at the largest 64-bit value.
pub open spec fn max_gas_cost(user_op: UserOperation) -> nat {
    let fee = user_op.max_fee_per_gas as nat % 0x1_0000_0000_0000_0000;
    if user_op.call_gas_limit * fee <= u64::MAX {
        user_op.call_gas_limit as nat * fee
    } else {
        u64::MAX as nat
    }
}

/// What the check of an operation returns, given the next nonce of its
/// sender and the sender's deposit.
pub open spec fn validation(user_op: UserOperation, current_nonce: u64, deposited: u128) -> Result<
    (),
    Error,
> {
    if user_op.nonce != current_nonce {
        Err(Error::InvalidNonce)
    } else if deposited < max_gas_cost(user_op) {
        Err(Error::InsufficientFunds)
    } else {
        Ok(())
    }
}

/// The bytes that identify an operation: sender, nonce, init code, call
/// data, the three gas values and the two fees, numbers written highest
/// byte first.
pub open spec fn hash_preimage(user_op: UserOperation) -> Seq<u8> {
    user_op.sender@ + be_bytes(user_op.nonce as nat, 8) + user_op.init_code@
        + user_op.call_data@ + be_bytes(user_op.call_gas_limit as nat, 8) + be_bytes(
        user_op.verification_gas_limit as nat,
        8,
    ) + be_bytes(user_op.pre_verification_gas as nat, 8) + be_bytes(
        user_op.max_fee_per_gas as nat,
        16,
    ) + be_bytes(user_op.max_priority_fee_per_gas as nat, 16)
}

/// Sum of the gas limits of a bundle.
pub open spec fn bundle_gas(user_ops: Seq<UserOperation>) -> nat
    decreases user_ops.len(),
{
    if user_ops.len() == 0 {
        0
    } else {
        bundle_gas(user_ops.drop_last()) + user_ops.last().call_gas_limit as nat
    }
}

/// The gas of a bundle grows with each operation.
proof fn lemma_bundle_gas_step(user_ops: Seq<UserOperation>, i: int)
    requires
        0 <= i < user_ops.len(),
    ensures
        bundle_gas(user_ops.take(i + 1)) == bundle_gas(user_ops.take(i))
            + user_ops[i].call_gas_limit as nat,
{
    assert(user_ops.take(i + 1).drop_last() =~= user_ops.take(i));
}

/// The gas of a part of a bundle is no more than that of the whole.
proof fn lemma_bundle_gas_prefix(user_ops: Seq<UserOperation>, i: int)
    requires
        0 <= i <= user_ops.len(),
    ensures
        bundle_gas(user_ops.take(i)) <= bundle_gas(user_ops),
    decreases user_ops.len() - i,
{
    if i < user_ops.len() {
        lemma_bundle_gas_step(user_ops, i);
        lemma_bundle_gas_prefix(user_ops, i + 1);
    } else {
        assert(user_ops.take(i) =~= user_ops);
    }
}

/// The most that an operation can cost.
pub fn gas_cost(user_op: &UserOperation) -> (cost: u128)
    ensures
        cost == max_gas_cost(*user_op),
        cost <= u64::MAX,
{
    let fee: u64 = (user_op.max_fee_per_gas % 0x1_0000_0000_0000_0000) as u64;
    match user_op.call_gas_limit.checked_mul(fee) {
        Some(cost) => cost as u128,
        None => u64::MAX as u128,
    }
}

/// The totals of a bundle after one more operation: an operation that was
/// executed counts, with the gas that it used; one that failed leaves the
/// totals as they were. `None` where a total would pass its type.
pub open spec fn next_totals(totals: (u32, u64), outcome: Result<u64, Error>) -> Option<(u32, u64)> {
    match outcome {
        Ok(gas_used) => if totals.0 < u32::MAX && totals.1 + gas_used <= u64::MAX {
            Some(((totals.0 + 1) as u32, (totals.1 + gas_used) as u64))
        } else {
            None
        },
        Err(_) => Some(totals),
    }
}

/// Adds the outcome of one operation to the totals of its bundle.
pub fn bundle_step(totals: (u32, u64), outcome: &Result<u64, Error>) -> (next: Option<(u32, u64)>)
    ensures
        next == next_totals(totals, *outcome),
{
    match outcome {
        Ok(gas_used) => {
            if totals.0 < u32::MAX && *gas_used <= u64::MAX - totals.1 {
                Some((totals.0 + 1, totals.1 + *gas_used))
            } else {
                None
            }
        },
        Err(_) => Some(totals),
    }
}

/// The anchor type of the account abstraction functions.
pub struct Pallet;

impl Pallet {
    /// Checks an operation against the next nonce of its sender and the
    /// sender's deposit.
    pub fn validate_user_operation(
        user_op: &UserOperation,
        current_nonce: u64,
        deposited: u128,
    ) -> (result: Result<(), Error>)
        ensures
            result == validation(*user_op, current_nonce, deposited),
    {
        if user_op.nonce != current_nonce {
            return Err(Error::InvalidNonce);
        }
        let max_cost: u128 = gas_cost(user_op);
        if deposited < max_cost {
            return Err(Error::InsufficientFunds);
        }
        Ok(())
    }

    /// Writes the bytes that identify an operation.
    pub fn hash_user_operation(user_op: &UserOperation) -> (data: Vec<u8>)
        ensures
            data@ == hash_preimage(*user_op),
    {
        let mut data: Vec<u8> = Vec::new();
        append_bytes(&mut data, user_op.sender.as_bytes());
        append_bytes(&mut data, to_be_bytes(user_op.nonce as u128, 8).as_slice());
        append_bytes(&mut data, user_op.init_code.as_slice());
        append_bytes(&mut data, user_op.call_data.as_slice());
        append_bytes(&mut data, to_be_bytes(user_op.call_gas_limit as u128, 8).as_slice());
        append_bytes(&mut data, to_be_bytes(user_op.verification_gas_limit as u128, 8).as_slice());
        append_bytes(&mut data, to_be_bytes(user_op.pre_verification_gas as u128, 8).as_slice());
        append_bytes(&mut data, to_be_bytes(user_op.max_fee_per_gas, 16).as_slice());
        append_bytes(&mut data, to_be_bytes(user_op.max_priority_fee_per_gas, 16).as_slice());
        assert(data@ =~= hash_preimage(*user_op));
        data
    }

    /// Takes in an operation: checks it, and returns the bytes that
    /// identify it.
    pub fn submit_user_operation(
        user_op: &UserOperation,
        current_nonce: u64,
        deposited: u128,
    ) -> (result: Result<Vec<u8>, Error>)
        ensures
            match result {
                Ok(data) => validation(*user_op, current_nonce, deposited) is Ok && data@
                    == hash_preimage(*user_op),
                Err(e) => validation(*user_op, current_nonce, deposited) == Err::<(), Error>(e),
            },
    {
        match Self::validate_user_operation(user_op, current_nonce, deposited) {
            Ok(()) => Ok(Self::hash_user_operation(user_op)),
            Err(e) => Err(e),
        }
    }

    /// Executes an operation: the nonce of the sender goes up by one and the
    /// deposit down by the cost, both saturating. Returns the gas used, which
    /// is the gas limit.
    pub fn execute_user_operation(user_op: &UserOperation, nonce: &mut u64, balance: &mut u128) -> (result:
        Result<u64, Error>)
        ensures
            result == Ok::<u64, Error>(user_op.call_gas_limit),
            *final(nonce) == if *old(nonce) < u64::MAX {
                (*old(nonce) + 1) as u64
            } else {
                u64::MAX
            },
            *final(balance) == if *old(balance) >= max_gas_cost(*user_op) {
                (*old(balance) - max_gas_cost(*user_op)) as u128
            } else {
                0
            },
    {
        *nonce = nonce.saturating_add(1);
        let cost: u128 = gas_cost(user_op);
        *balance = balance.saturating_sub(cost);
        Ok(user_op.call_gas_limit)
    }

    /// The totals of a bundle: the number of operations executed, and the
    /// gas that they used.
    pub fn execute_bundle(user_ops: &[UserOperation]) -> (totals: (u32, u64))
        requires
            user_ops@.len() <= u32::MAX,
            bundle_gas(user_ops@) <= u64::MAX,
        ensures
            totals.0 == user_ops@.len(),
            totals.1 == bundle_gas(user_ops@),
    {
        let mut total_gas: u64 = 0;
        let mut executed_ops: u32 = 0;
        let mut i: usize = 0;
        while i < user_ops.len()
            invariant
                i <= user_ops@.len() <= u32::MAX,
                executed_ops == i,
                total_gas == bundle_gas(user_ops@.take(i as int)),
                bundle_gas(user_ops@) <= u64::MAX,
            decreases user_ops@.len() - i,
        {
            proof {
                lemma_bundle_gas_step(user_ops@, i as int);
                lemma_bundle_gas_prefix(user_ops@, i + 1);
            }
            total_gas += user_ops[i].call_gas_limit;
            executed_ops += 1;
            i += 1;
        }
        assert(user_ops@.take(i as int) =~= user_ops@);
        (executed_ops, total_gas)
    }

    /// The deposit after `amount` came in: the sum, saturating.
    pub fn deposit(balance: u128, amount: u128) -> (after: u128)
        ensures
            after == if balance + amount <= u128::MAX {
                (balance + amount) as u128
            } else {
                u128::MAX
            },
    {
        balance.saturating_add(amount)
    }

    /// The deposit after `amount` went out. More than the deposit cannot be
    /// withdrawn.
    pub fn withdraw(balance: u128, amount: u128) -> (result: Result<u128, Error>)
        ensures
            result == if balance < amount {
                Err::<u128, Error>(Error::InsufficientFunds)
            } else {
                Ok::<u128, Error>((balance - amount) as u128)
            },
    {
        if balance < amount {
            return Err(Error::InsufficientFunds);
        }
        Ok(balance.saturating_sub(amount))
    }
}

} // verus!
