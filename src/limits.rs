//! The admission policy for deposits: a cap per depositor and a cap on the
//! whole pegged supply, both in pegged-token units.
use vstd::prelude::*;

verus! {

/// Largest pegged balance one depositor may reach by depositing (100 units of
/// nine decimals).
pub const USER_LIMIT: u128 = 100_000_000_000;

/// Largest pegged total supply that deposits may reach (200 units of nine
/// decimals).
pub const CONTRACT_LIMIT: u128 = 200_000_000_000;

/// Why a deposit was refused.
#[derive(Clone, Copy, Debug, PartialEq, Eq, Structural)]
pub enum DepositError {
    /// The depositor's pegged balance would exceed `USER_LIMIT`.
    ExceedUserLimit,
    /// The pegged total supply would exceed `CONTRACT_LIMIT`.
    ExceedContractLimit,
}

/// The user error code that a refusal is reported under.
pub open spec fn deposit_error_code(e: DepositError) -> u16 {
    match e {
        DepositError::ExceedUserLimit => 0,
        DepositError::ExceedContractLimit => 1,
    }
}

/// Relies on casper_types' `From<ApiError> for u32`: the user error `code` is
/// reported to the host as `65536 + code`.
#[verifier::external_body]
fn user_error_code(code: u16) -> (r: u32)
    ensures
        r == 65536 + code,
{
    u32::from(casper_types::ApiError::User(code))
}

impl DepositError {
    /// The user error code of this refusal.
    pub fn code(&self) -> (r: u16)
        ensures
            r == deposit_error_code(*self),
    {
        match self {
            DepositError::ExceedUserLimit => 0,
            DepositError::ExceedContractLimit => 1,
        }
    }

    /// The code under which the host reports this refusal when the
    /// invocation aborts with it.
    pub fn api_code(&self) -> (r: u32)
        ensures
            r == 65536 + deposit_error_code(*self),
    {
        user_error_code(self.code())
    }
}

/// What the policy decides for a deposit of `amount` when the pegged supply is
/// `total_supply` and the depositor already holds `sender_balance`: the global
/// cap is checked first, and both caps are inclusive.
pub open spec fn admission(total_supply: int, sender_balance: int, amount: int) -> Result<
    (),
    DepositError,
> {
    if total_supply + amount > CONTRACT_LIMIT {
        Err(DepositError::ExceedContractLimit)
    } else if sender_balance + amount > USER_LIMIT {
        Err(DepositError::ExceedUserLimit)
    } else {
        Ok(())
    }
}

/// Decides whether a deposit of `amount` may go ahead.
pub fn admit_deposit(total_supply: u128, sender_balance: u128, amount: u128) -> (r: Result<
    (),
    DepositError,
>)
    ensures
        r == admission(total_supply as int, sender_balance as int, amount as int),
{
    if amount > CONTRACT_LIMIT || total_supply > CONTRACT_LIMIT - amount {
        return Err(DepositError::ExceedContractLimit);
    }
    if amount > USER_LIMIT || sender_balance > USER_LIMIT - amount {
        return Err(DepositError::ExceedUserLimit);
    }
    Ok(())
}

} // verus!
