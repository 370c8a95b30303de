//! What holds of the vault across calls of its entry points.
use vstd::prelude::*;
use crate::identity::{resolved_caller, Address, CallerPolicy, Frame, Hash32};
use crate::limits::{admission, DepositError, CONTRACT_LIMIT, USER_LIMIT};
use crate::vault::{
    deposit_effect, fund_effect, holding, init_effect, installed, well_kept, withdraw_effect,
    VaultView, Withdrawal,
};

verus! {

/// The peg holds in every reachable state: a freshly installed vault keeps the
/// invariant, every entry point that succeeds keeps it, and the invariant
/// makes the pegged supply equal to what custody holds.
pub proof fn law_peg_invariant(
    v: VaultView,
    fresh_purse: Hash32,
    account: Hash32,
    signer: Hash32,
    stack: Seq<Frame>,
    amount: nat,
)
    requires
        well_kept(v),
    ensures
        well_kept(installed()),
        v.supply == v.custody,
        well_kept(init_effect(v, fresh_purse)),
        fund_effect(v, account, amount) matches Some(w) ==> well_kept(w),
        deposit_effect(v, signer, stack, amount) matches Ok(w) ==> well_kept(w),
        withdraw_effect(v, stack, amount) matches Ok((w, _)) ==> well_kept(w),
{
    assert(installed().supply == installed().custody);
    if let Some(w) = fund_effect(v, account, amount) {
        let owner = Address::Account(account);
        assert forall|a: Address| #[trigger] w.purses.contains_key(a) implies w.purses[a]
            <= u128::MAX by {
            if a != owner {
                assert(v.purses.contains_key(a));
            }
        }
    }
    if let Ok(w) = deposit_effect(v, signer, stack, amount) {
        let caller = resolved_caller(stack, CallerPolicy::Immediate)->Ok_0;
        let payer = Address::Account(signer);
        assert(v.supply + amount <= CONTRACT_LIMIT);
        assert(holding(v.tokens, caller) + amount <= USER_LIMIT);
        assert forall|a: Address| #[trigger] w.tokens.contains_key(a) implies w.tokens[a]
            <= u128::MAX by {
            if a != caller {
                assert(v.tokens.contains_key(a));
            }
        }
        assert forall|a: Address| #[trigger] w.purses.contains_key(a) implies w.purses[a]
            <= u128::MAX by {
            if a != payer {
                assert(v.purses.contains_key(a));
            }
        }
    }
    if let Ok((w, _)) = withdraw_effect(v, stack, amount) {
        let caller = resolved_caller(stack, CallerPolicy::Immediate)->Ok_0;
        assert forall|a: Address| #[trigger] w.tokens.contains_key(a) implies w.tokens[a]
            <= u128::MAX by {
            if a != caller {
                assert(v.tokens.contains_key(a));
            }
        }
        assert forall|a: Address| #[trigger] w.purses.contains_key(a) implies w.purses[a]
            <= u128::MAX by {
            if a != caller {
                assert(v.purses.contains_key(a));
            }
        }
    }
}

/// Calling `init` twice leaves the state that calling it once leaves.
pub proof fn law_init_idempotent(v: VaultView, first_purse: Hash32, second_purse: Hash32)
    ensures
        init_effect(init_effect(v, first_purse), second_purse) == init_effect(v, first_purse),
{
}

/// Both caps are inclusive: reaching a cap exactly is admitted, one unit
/// beyond is refused with that cap's error, and when both caps are breached
/// the global one is reported.
pub proof fn law_limit_boundary(total_supply: nat, sender_balance: nat, amount: nat)
    ensures
        total_supply + amount <= CONTRACT_LIMIT && sender_balance + amount == USER_LIMIT
            ==> admission(total_supply as int, sender_balance as int, amount as int) is Ok,
        total_supply + amount <= CONTRACT_LIMIT && sender_balance + amount == USER_LIMIT + 1
            ==> admission(total_supply as int, sender_balance as int, amount as int) == Err::<
            (),
            DepositError,
        >(DepositError::ExceedUserLimit),
        total_supply + amount == CONTRACT_LIMIT && sender_balance + amount <= USER_LIMIT
            ==> admission(total_supply as int, sender_balance as int, amount as int) is Ok,
        total_supply + amount == CONTRACT_LIMIT + 1 ==> admission(
            total_supply as int,
            sender_balance as int,
            amount as int,
        ) == Err::<(), DepositError>(DepositError::ExceedContractLimit),
        total_supply + amount > CONTRACT_LIMIT && sender_balance + amount > USER_LIMIT
            ==> admission(total_supply as int, sender_balance as int, amount as int) == Err::<
            (),
            DepositError,
        >(DepositError::ExceedContractLimit),
{
}

/// Depositing `n` and then withdrawing `n` by the same account returns custody
/// and the pegged supply to what they were, and the withdrawal puts `n` back
/// into the account's purse, with no fee.
pub proof fn law_round_trip(v: VaultView, signer: Hash32, stack: Seq<Frame>, n: nat)
    requires
        well_kept(v),
        resolved_caller(stack, CallerPolicy::Immediate) == Ok::<Address, crate::identity::CallerError>(
            Address::Account(signer),
        ),
        deposit_effect(v, signer, stack, n) is Ok,
    ensures
        match deposit_effect(v, signer, stack, n) {
            Ok(d) => match withdraw_effect(d, stack, n) {
                Ok((w, outcome)) => {
                    &&& outcome == Withdrawal::Released
                    &&& w.custody == v.custody
                    &&& w.supply == v.supply
                    &&& holding(w.tokens, Address::Account(signer)) == holding(
                        v.tokens,
                        Address::Account(signer),
                    )
                    &&& holding(w.purses, Address::Account(signer)) == holding(
                        d.purses,
                        Address::Account(signer),
                    ) + n
                    &&& holding(w.purses, Address::Account(signer)) == holding(
                        v.purses,
                        Address::Account(signer),
                    )
                },
                Err(_) => false,
            },
            Err(_) => false,
        },
{
    let me = Address::Account(signer);
    if !v.purses.contains_key(me) {
        assert(holding(v.purses, me) == 0);
    } else {
        assert(v.purses[me] <= u128::MAX);
    }
}

/// Asking to withdraw more than the caller holds moves nothing: custody, the
/// pegged supply and every purse stay as they were.
pub proof fn law_insufficient_withdrawal(v: VaultView, stack: Seq<Frame>, amount: nat)
    requires
        well_kept(v),
        resolved_caller(stack, CallerPolicy::Immediate) matches Ok(caller) && holding(
            v.tokens,
            caller,
        ) < amount,
    ensures
        withdraw_effect(v, stack, amount) == if v.initialized {
            Ok::<(VaultView, Withdrawal), crate::vault::VaultError>((v, Withdrawal::Skipped))
        } else {
            Err(crate::vault::VaultError::NotInitialized)
        },
{
    if v.initialized {
        let w = VaultView { snapshot: Some(v.custody), ..v };
        assert(w == v);
    }
}

} // verus!
