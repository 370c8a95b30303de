//! Checks on the custody purse: what a deposit must have added to it and when
//! a withdrawal may draw from it.
use vstd::prelude::*;

verus! {

/// Why value could not be moved into custody.
#[derive(Clone, Copy, Debug, PartialEq, Eq, Structural)]
pub enum CustodyError {
    /// The custody purse did not grow by exactly the amount handed over.
    ShortCredit,
}

/// Checks that the custody purse, which held `before`, holds `after` once
/// `amount` was moved into it: a transfer that delivers less (or more) is
/// refused.
pub fn confirm_credit(before: u128, amount: u128, after: u128) -> (r: Result<(), CustodyError>)
    ensures
        r == if after == before + amount {
            Ok::<(), CustodyError>(())
        } else {
            Err(CustodyError::ShortCredit)
        },
{
    match before.checked_add(amount) {
        Some(expected) => {
            if expected == after {
                Ok(())
            } else {
                Err(CustodyError::ShortCredit)
            }
        },
        None => Err(CustodyError::ShortCredit),
    }
}

/// Decides whether a withdrawal of `requested` goes ahead: the caller must hold
/// at least that many pegged tokens and custody at least that much base
/// currency.
pub fn admit_withdrawal(caller_balance: u128, custody_balance: u128, requested: u128) -> (r: bool)
    ensures
        r == (caller_balance >= requested && custody_balance >= requested),
{
    caller_balance >= requested && custody_balance >= requested
}

} // verus!
