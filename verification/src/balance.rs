//! The orchestrator's own resource budget, in a wide and a narrow reading.
//!
//! The wide reading always tells the budget. The narrow one tells it in 64
//! bits and fails when that cannot be done; callers that need headroom use
//! the wide one.

use vstd::prelude::*;
use vstd::string::*;

verus! {

/// The budget is too large to be told in 64 bits.
#[derive(Debug, Clone, Copy, PartialEq, Eq)]
pub struct RepresentationOverflow;

impl RepresentationOverflow {
    /// The text that is handed to the caller.
    pub fn describe(&self) -> (text: String)
        ensures
            text@ == "Balance exceeded a 64-bit value; call `wallet_balance128`"@,
    {
        String::from_str("Balance exceeded a 64-bit value; call `wallet_balance128`")
    }
}

/// A snapshot of the resource budget, held at full precision.
#[derive(Debug, Clone, Copy, PartialEq, Eq)]
pub struct Balance {
    amount: u128,
}

impl Balance {
    /// The wide reading of the snapshot: the amount itself.
    pub closed spec fn wide(self) -> nat {
        self.amount as nat
    }

    /// The narrow reading of the snapshot: the amount when it fits 64 bits,
    /// and an overflow when it does not.
    pub open spec fn narrow(self) -> Result<u64, RepresentationOverflow> {
        if self.wide() <= u64::MAX {
            Ok(self.wide() as u64)
        } else {
            Err(RepresentationOverflow)
        }
    }

    pub fn new(amount: u128) -> (balance: Balance)
        ensures
            balance.wide() == amount,
    {
        Balance { amount }
    }

    /// The budget in the wide representation.
    pub fn wide_balance(&self) -> (amount: u128)
        ensures
            amount == self.wide(),
    {
        self.amount
    }

    /// The budget in the 64-bit representation.
    pub fn narrow_balance(&self) -> (amount: Result<u64, RepresentationOverflow>)
        ensures
            amount == self.narrow(),
    {
        if self.amount <= 0xffff_ffff_ffff_ffffu128 {
            Ok(self.amount as u64)
        } else {
            Err(RepresentationOverflow)
        }
    }
}

/// The two readings agree: whenever the wide one fits 64 bits the narrow one
/// tells the same amount, and in every other case the narrow one fails.
pub proof fn readings_agree(balance: Balance)
    ensures
        balance.wide() <= u64::MAX ==> balance.narrow() is Ok && balance.narrow()->Ok_0
            == balance.wide(),
        balance.wide() > u64::MAX ==> balance.narrow() == Err::<u64, RepresentationOverflow>(
            RepresentationOverflow,
        ),
{
}

} // verus!
