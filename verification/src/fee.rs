//! The settlement split: a flat five percent cut, rounded down, for the
//! treasury and the remainder for the campaign's creator.

use vstd::prelude::*;

verus! {

/// The treasury takes one part in this many of the settled balance.
pub const FEE_DIVISOR: u128 = 20;

/// The treasury's cut of `balance`.
pub open spec fn fee_of(balance: nat) -> nat {
    balance / 20
}

/// What is left of `balance` for the creator once the treasury's cut is taken.
pub open spec fn payout_of(balance: nat) -> nat {
    (balance - fee_of(balance)) as nat
}

/// Splits a settled balance into the creator's payout and the treasury's fee,
/// in that order. Nothing of the balance is lost or created by the split.
pub fn split(balance: u128) -> (parts: (u128, u128))
    ensures
        parts.0 == payout_of(balance as nat),
        parts.1 == fee_of(balance as nat),
        parts.0 + parts.1 == balance,
        balance < 20 ==> parts.1 == 0 && parts.0 == balance,
{
    let fee: u128 = balance / FEE_DIVISOR;
    let payout: u128 = balance - fee;
    (payout, fee)
}

} // verus!
