//! The withdrawal fee: a proportional cut in basis points, rounded down.

use vstd::prelude::*;
use crate::errors::BridgeError;

verus! {

/// The fee withheld from a withdrawal of `amount` at a rate of
/// `fee_percentage` basis points: `floor(amount * fee_percentage / 10000)`.
pub open spec fn spec_fee(amount: u64, fee_percentage: u16) -> int {
    (amount * fee_percentage) / 10000
}

/// Computes the withdrawal fee with explicit overflow checking, exactly as
/// the ledger applies it: `Overflow` if and only if the intermediate product
/// `amount * fee_percentage` exceeds 64 bits.
pub fn compute_fee(amount: u64, fee_percentage: u16) -> (r: Result<u64, BridgeError>)
    ensures
        amount * fee_percentage <= u64::MAX ==> r == Ok::<u64, BridgeError>(
            (spec_fee(amount, fee_percentage)) as u64,
        ),
        amount * fee_percentage > u64::MAX ==> r == Err::<u64, BridgeError>(BridgeError::Overflow),
{
    match amount.checked_mul(fee_percentage as u64) {
        Some(product) => match product.checked_div(10000) {
            Some(fee) => Ok(fee),
            None => Err(BridgeError::Overflow),
        },
        None => Err(BridgeError::Overflow),
    }
}

/// The fee is a well-defined share of the amount: it is non-negative, and
/// what is left after the fee, added back to the fee, is exactly the amount.
pub proof fn lemma_fee_split(amount: u64, fee_percentage: u16)
    ensures
        0 <= spec_fee(amount, fee_percentage),
        amount - spec_fee(amount, fee_percentage) + spec_fee(amount, fee_percentage) == amount,
{
    vstd::arithmetic::mul::lemma_mul_nonnegative(amount as int, fee_percentage as int);
    vstd::arithmetic::div_mod::lemma_div_is_ordered(0, amount * fee_percentage, 10000);
}

/// With a fee rate of at most 100% (10000 basis points) the fee never
/// exceeds the amount, so the subtraction in a withdrawal cannot fail.
pub proof fn lemma_fee_le_amount(amount: u64, fee_percentage: u16)
    requires
        fee_percentage <= 10000,
    ensures
        spec_fee(amount, fee_percentage) <= amount,
{
    vstd::arithmetic::mul::lemma_mul_inequality(
        fee_percentage as int,
        10000,
        amount as int,
    );
    vstd::arithmetic::mul::lemma_mul_is_commutative(amount as int, fee_percentage as int);
    vstd::arithmetic::div_mod::lemma_div_is_ordered(
        amount * fee_percentage,
        amount * 10000,
        10000,
    );
    vstd::arithmetic::div_mod::lemma_div_multiples_vanish(amount as int, 10000);
    vstd::arithmetic::mul::lemma_mul_is_commutative(amount as int, 10000);
}

} // verus!
