//! The vault's persisted state and its entry points, init, deposit and
//! withdraw, each as an exact transition. A failed entry point leaves the
//! state as it was, as the host's revert does.
use vstd::prelude::*;
use crate::book::Book;
use crate::custody::{admit_withdrawal, confirm_credit};
use crate::identity::{
    account_hash_of, get_immediate_caller_address, resolved_caller, Address, CallerPolicy, Frame,
    Hash32,
};
use crate::limits::{admission, admit_deposit, DepositError};

verus! {

/// Why an entry point aborted.
#[derive(Clone, Copy, Debug, PartialEq, Eq, Structural)]
pub enum VaultError {
    /// `init` has not run: there is no custody purse yet.
    NotInitialized,
    /// No caller could be resolved from the call stack.
    InvalidContext,
    /// The deposit breaches a cap.
    Refused(DepositError),
    /// A purse could not pay or could not take the amount.
    Transfer,
    /// The custody purse did not grow by the deposited amount.
    ShortCredit,
    /// Base currency can only be released to an account, not to a contract.
    NotAnAccount,
}

/// What a withdrawal that did not abort did.
#[derive(Clone, Copy, Debug, PartialEq, Eq, Structural)]
pub enum Withdrawal {
    /// Tokens were burnt and base currency released to the caller.
    Released,
    /// The caller or custody held too little: nothing moved.
    Skipped,
}

/// The vault as the host holds it: the persisted slots, the custody purse, the
/// pegged token's ledger and the accounts' own purses.
pub struct VaultView {
    /// The `initialized` slot.
    pub initialized: bool,
    /// The `main_purse` slot: the custody purse's handle.
    pub main_purse: Option<Hash32>,
    /// The `cspr_balance` slot: the cached custody balance.
    pub snapshot: Option<nat>,
    /// What the custody purse actually holds.
    pub custody: nat,
    /// The pegged token's total supply.
    pub supply: nat,
    /// Pegged-token balances.
    pub tokens: Map<Address, nat>,
    /// Base currency in the accounts' own purses.
    pub purses: Map<Address, nat>,
}

/// What `a` holds in `m`; nothing recorded is zero.
pub open spec fn holding(m: Map<Address, nat>, a: Address) -> nat {
    if m.contains_key(a) {
        m[a]
    } else {
        0
    }
}

/// The invariant of every reachable state: the pegged supply equals what
/// custody holds, the cached balance is current once initialized, and every
/// amount fits the executable representation.
pub open spec fn well_kept(v: VaultView) -> bool {
    &&& v.supply == v.custody
    &&& v.custody <= u128::MAX
    &&& (v.initialized <==> v.main_purse is Some)
    &&& v.snapshot == if v.initialized {
        Some(v.custody)
    } else {
        None::<nat>
    }
    &&& forall|a: Address| #[trigger] v.tokens.contains_key(a) ==> v.tokens[a] <= u128::MAX
    &&& forall|a: Address| #[trigger] v.purses.contains_key(a) ==> v.purses[a] <= u128::MAX
}

/// The state before `init` has run: nothing is held anywhere.
pub open spec fn installed() -> VaultView {
    VaultView {
        initialized: false,
        main_purse: None,
        snapshot: None,
        custody: 0,
        supply: 0,
        tokens: Map::empty(),
        purses: Map::empty(),
    }
}

/// `init`: on first call records `fresh_purse` as the custody purse, sets the
/// flag and caches the custody balance; afterwards it changes nothing.
pub open spec fn init_effect(v: VaultView, fresh_purse: Hash32) -> VaultView {
    if v.initialized {
        v
    } else {
        VaultView {
            initialized: true,
            main_purse: Some(fresh_purse),
            snapshot: Some(v.custody),
            ..v
        }
    }
}

/// Base currency arriving in `account`'s purse from outside the vault; it
/// fails when the purse cannot hold the sum.
pub open spec fn fund_effect(v: VaultView, account: Hash32, amount: nat) -> Option<VaultView> {
    let owner = Address::Account(account);
    if holding(v.purses, owner) + amount > u128::MAX {
        None
    } else {
        Some(VaultView { purses: v.purses.insert(owner, holding(v.purses, owner) + amount), ..v })
    }
}

/// A deposit of `amount` signed by `signer`, whose contract step sees the call
/// stack `stack`. The session step moves the amount from the signer's purse
/// into a hand-off purse; the contract step resolves its immediate caller,
/// applies the caps, moves the hand-off into the custody purse (which `init`
/// must have created), mints the same amount to the caller and caches the
/// custody balance. Failures are reported in that order.
pub open spec fn deposit_effect(
    v: VaultView,
    signer: Hash32,
    stack: Seq<Frame>,
    amount: nat,
) -> Result<VaultView, VaultError> {
    let payer = Address::Account(signer);
    if holding(v.purses, payer) < amount {
        Err(VaultError::Transfer)
    } else {
        match resolved_caller(stack, CallerPolicy::Immediate) {
            Err(_) => Err(VaultError::InvalidContext),
            Ok(caller) => {
                let held = holding(v.tokens, caller);
                match admission(v.supply as int, held as int, amount as int) {
                    Err(e) => Err(VaultError::Refused(e)),
                    Ok(_) => if !v.initialized {
                        Err(VaultError::NotInitialized)
                    } else {
                        Ok(
                            VaultView {
                                snapshot: Some(v.custody + amount),
                                custody: v.custody + amount,
                                supply: v.supply + amount,
                                tokens: v.tokens.insert(caller, held + amount),
                                purses: v.purses.insert(
                                    payer,
                                    (holding(v.purses, payer) - amount) as nat,
                                ),
                                ..v
                            },
                        )
                    },
                }
            },
        }
    }
}

/// A withdrawal of `amount` by the immediate caller of the call stack `stack`.
/// When the caller holds fewer pegged tokens, or custody less base currency,
/// than `amount`, nothing moves and the call still succeeds. Otherwise the
/// amount goes from custody to the caller's purse, the same amount of tokens
/// is burnt from the caller, and the custody balance is cached.
pub open spec fn withdraw_effect(v: VaultView, stack: Seq<Frame>, amount: nat) -> Result<
    (VaultView, Withdrawal),
    VaultError,
> {
    match resolved_caller(stack, CallerPolicy::Immediate) {
        Err(_) => Err(VaultError::InvalidContext),
        Ok(caller) => if !v.initialized {
            Err(VaultError::NotInitialized)
        } else if !(holding(v.tokens, caller) >= amount && v.custody >= amount) {
            Ok((VaultView { snapshot: Some(v.custody), ..v }, Withdrawal::Skipped))
        } else if caller is Contract {
            Err(VaultError::NotAnAccount)
        } else if holding(v.purses, caller) + amount > u128::MAX {
            Err(VaultError::Transfer)
        } else {
            Ok(
                (
                    VaultView {
                        snapshot: Some((v.custody - amount) as nat),
                        custody: (v.custody - amount) as nat,
                        supply: (v.supply - amount) as nat,
                        tokens: v.tokens.insert(caller, (holding(v.tokens, caller) - amount) as nat),
                        purses: v.purses.insert(caller, holding(v.purses, caller) + amount),
                        ..v
                    },
                    Withdrawal::Released,
                ),
            )
        },
    }
}

/// The vault's state.
pub struct Vault {
    initialized: bool,
    main_purse: Option<Hash32>,
    snapshot: Option<u128>,
    custody: u128,
    supply: u128,
    tokens: Book,
    purses: Book,
}

impl View for Vault {
    type V = VaultView;

    closed spec fn view(&self) -> VaultView {
        VaultView {
            initialized: self.initialized,
            main_purse: self.main_purse,
            snapshot: match self.snapshot {
                Some(s) => Some(s as nat),
                None => None,
            },
            custody: self.custody as nat,
            supply: self.supply as nat,
            tokens: self.tokens@,
            purses: self.purses@,
        }
    }
}

impl Vault {
    /// The books are consistent and the state is one that the entry points
    /// can reach.
    pub closed spec fn wf(&self) -> bool {
        &&& self.tokens.wf()
        &&& self.purses.wf()
        &&& well_kept(self@)
    }

    /// A freshly installed vault, before `init`.
    pub fn new() -> (r: Vault)
        ensures
            r.wf(),
            r@ == installed(),
    {
        Vault {
            initialized: false,
            main_purse: None,
            snapshot: None,
            custody: 0,
            supply: 0,
            tokens: Book::new(),
            purses: Book::new(),
        }
    }

    /// Every vault that `new` and the entry points produce keeps the
    /// invariant, the peg among it.
    pub proof fn lemma_well_kept(&self)
        requires
            self.wf(),
        ensures
            well_kept(self@),
    {
    }

    /// Credits `amount` of base currency to `account`'s purse from outside the
    /// vault; returns false, changing nothing, when the purse cannot hold it.
    pub fn fund(&mut self, account: Hash32, amount: u128) -> (r: bool)
        requires
            old(self).wf(),
        ensures
            final(self).wf(),
            match fund_effect(old(self)@, account, amount as nat) {
                Some(w) => r && final(self)@ == w,
                None => !r && final(self)@ == old(self)@,
            },
    {
        let owner = Address::Account(account);
        let funds = self.purses.get(&owner);
        if funds > u128::MAX - amount {
            return false;
        }
        self.purses.set(owner, funds + amount);
        true
    }

    /// Sets the vault up once: records `fresh_purse` as the custody purse.
    /// Later calls change nothing.
    pub fn init(&mut self, fresh_purse: Hash32)
        requires
            old(self).wf(),
        ensures
            final(self).wf(),
            final(self)@ == init_effect(old(self)@, fresh_purse),
    {
        if !self.initialized {
            self.main_purse = Some(fresh_purse);
            self.initialized = true;
            self.snapshot = Some(self.custody);
        }
    }

    /// Deposits `amount` from `signer`'s purse and mints as many pegged tokens
    /// to the immediate caller of `stack`. On failure nothing changes.
    pub fn deposit(&mut self, signer: Hash32, stack: &Vec<Frame>, amount: u128) -> (r: Result<
        (),
        VaultError,
    >)
        requires
            old(self).wf(),
        ensures
            final(self).wf(),
            match r {
                Ok(_) => deposit_effect(old(self)@, signer, stack@, amount as nat) == Ok::<
                    VaultView,
                    VaultError,
                >(final(self)@),
                Err(e) => deposit_effect(old(self)@, signer, stack@, amount as nat) == Err::<
                    VaultView,
                    VaultError,
                >(e) && final(self)@ == old(self)@,
            },
    {
        let payer = Address::Account(signer);
        let payer_funds = self.purses.get(&payer);
        if payer_funds < amount {
            return Err(VaultError::Transfer);
        }
        let caller = match get_immediate_caller_address(stack) {
            Ok(c) => c,
            Err(_) => return Err(VaultError::InvalidContext),
        };
        let held = self.tokens.get(&caller);
        match admit_deposit(self.supply, held, amount) {
            Ok(_) => {},
            Err(e) => return Err(VaultError::Refused(e)),
        }
        if !self.initialized {
            return Err(VaultError::NotInitialized);
        }
        // Session step: from the signer's purse into the hand-off purse.
        self.purses.set(payer, payer_funds - amount);
        let handoff = amount;
        // Contract step: from the hand-off purse into custody.
        let before = self.custody;
        self.custody = before + handoff;
        match confirm_credit(before, handoff, self.custody) {
            Ok(_) => {},
            Err(_) => return Err(VaultError::ShortCredit),
        }
        self.tokens.set(caller, held + amount);
        self.supply = self.supply + amount;
        self.snapshot = Some(self.custody);
        Ok(())
    }

    /// Burns `amount` pegged tokens of the immediate caller of `stack` and
    /// releases as much base currency to its purse, or does nothing when the
    /// caller or custody holds too little. On failure nothing changes.
    pub fn withdraw(&mut self, stack: &Vec<Frame>, amount: u128) -> (r: Result<
        Withdrawal,
        VaultError,
    >)
        requires
            old(self).wf(),
        ensures
            final(self).wf(),
            match r {
                Ok(w) => withdraw_effect(old(self)@, stack@, amount as nat) == Ok::<
                    (VaultView, Withdrawal),
                    VaultError,
                >((final(self)@, w)),
                Err(e) => withdraw_effect(old(self)@, stack@, amount as nat) == Err::<
                    (VaultView, Withdrawal),
                    VaultError,
                >(e) && final(self)@ == old(self)@,
            },
    {
        let caller = match get_immediate_caller_address(stack) {
            Ok(c) => c,
            Err(_) => return Err(VaultError::InvalidContext),
        };
        if !self.initialized {
            return Err(VaultError::NotInitialized);
        }
        let held = self.tokens.get(&caller);
        let custody = self.custody;
        if !admit_withdrawal(held, custody, amount) {
            self.snapshot = Some(custody);
            return Ok(Withdrawal::Skipped);
        }
        if account_hash_of(&caller).is_none() {
            return Err(VaultError::NotAnAccount);
        }
        let funds = self.purses.get(&caller);
        if funds > u128::MAX - amount {
            return Err(VaultError::Transfer);
        }
        self.custody = custody - amount;
        self.purses.set(caller, funds + amount);
        self.tokens.set(caller, held - amount);
        self.supply = self.supply - amount;
        self.snapshot = Some(self.custody);
        Ok(Withdrawal::Released)
    }

    /// Whether `init` has run.
    pub fn is_initialized(&self) -> (r: bool)
        ensures
            r == self@.initialized,
    {
        self.initialized
    }

    /// The custody purse's handle, once `init` has run.
    pub fn main_purse(&self) -> (r: Option<Hash32>)
        ensures
            r == self@.main_purse,
    {
        self.main_purse
    }

    /// The cached custody balance, once `init` has run.
    pub fn contract_cspr_balance(&self) -> (r: Option<u128>)
        ensures
            match r {
                Some(b) => self@.snapshot == Some(b as nat),
                None => self@.snapshot is None,
            },
    {
        self.snapshot
    }

    /// What the custody purse holds.
    pub fn custody_balance(&self) -> (r: u128)
        ensures
            r == self@.custody,
    {
        self.custody
    }

    /// The pegged token's total supply.
    pub fn total_supply(&self) -> (r: u128)
        ensures
            r == self@.supply,
    {
        self.supply
    }

    /// The pegged-token balance of `owner`.
    pub fn balance_of(&self, owner: &Address) -> (r: u128)
        requires
            self.wf(),
        ensures
            r == holding(self@.tokens, *owner),
    {
        self.tokens.get(owner)
    }

    /// The base currency in `account`'s own purse.
    pub fn purse_balance(&self, account: &Hash32) -> (r: u128)
        requires
            self.wf(),
        ensures
            r == holding(self@.purses, Address::Account(*account)),
    {
        self.purses.get(&Address::Account(*account))
    }
}

} // verus!
