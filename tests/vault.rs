use wcspr::identity::{Address, Frame, Hash32};
use wcspr::limits::{DepositError, CONTRACT_LIMIT, USER_LIMIT};
use wcspr::vault::{Vault, VaultError, Withdrawal};

const NINE_DECIMALS: u128 = 1_000_000_000;

fn hash(b: u8) -> Hash32 {
    Hash32 { bytes: [b; 32] }
}

fn contract() -> Frame {
    Frame::StoredContract { contract_package_hash: hash(200), contract_hash: hash(201) }
}

/// The call stack that the deposit and withdraw entry points see when `who`
/// calls them from session code.
fn stack_of(who: Hash32) -> Vec<Frame> {
    vec![Frame::Session { account_hash: who }, contract()]
}

struct Fixture {
    vault: Vault,
    ali: Hash32,
    bob: Hash32,
    joe: Hash32,
}

impl Fixture {
    const FUNDS: u128 = 1_000_000 * NINE_DECIMALS;

    fn install_contract() -> Fixture {
        let mut vault = Vault::new();
        let (ali, bob, joe) = (hash(1), hash(2), hash(3));
        for who in [ali, bob, joe] {
            assert!(vault.fund(who, Self::FUNDS));
        }
        vault.init(hash(100));
        Fixture { vault, ali, bob, joe }
    }

    fn balance_of(&self, who: Hash32) -> u128 {
        self.vault.balance_of(&Address::Account(who))
    }

    fn cspr_balance(&self) -> u128 {
        self.vault.contract_cspr_balance().unwrap()
    }

    fn deposit(&mut self, who: Hash32, amount: u128) {
        match self.vault.deposit(who, &stack_of(who), amount) {
            Ok(()) => {}
            Err(VaultError::Refused(e)) => {
                panic!("ApiError::User({}) [{}]", e.code(), e.api_code())
            }
            Err(e) => panic!("deposit failed: {:?}", e),
        }
    }

    fn withdraw(&mut self, who: Hash32, amount: u128) -> Withdrawal {
        self.vault.withdraw(&stack_of(who), amount).unwrap()
    }
}

#[test]
fn should_deposit() {
    let mut fixture = Fixture::install_contract();

    let cspr_deposit_amount: u128 = 100;
    let deposited_wcspr: u128 = 100;
    let sender = fixture.ali;

    let initial_balance = fixture.balance_of(fixture.ali);
    let expected_balance = initial_balance + deposited_wcspr;

    fixture.deposit(sender, cspr_deposit_amount);

    assert_eq!(fixture.balance_of(fixture.ali), expected_balance);
    assert_eq!(fixture.cspr_balance(), cspr_deposit_amount);
}

#[test]
fn should_deposit_max_user_limit() {
    let mut fixture = Fixture::install_contract();
    let cspr_deposit_amount: u128 = 100 * 10u128.pow(9);
    let deposited_wcspr: u128 = 100 * 10u128.pow(9);
    let sender = fixture.ali;

    let initial_balance = fixture.balance_of(fixture.ali);
    let expected_balance = initial_balance + deposited_wcspr;

    fixture.deposit(sender, cspr_deposit_amount);

    assert_eq!(fixture.balance_of(fixture.ali), expected_balance);
    assert_eq!(fixture.cspr_balance(), cspr_deposit_amount);
}

#[should_panic(expected = "ApiError::User(0) [65536]")]
#[test]
fn should_not_deposit_more_then_user_limit_1() {
    let mut fixture = Fixture::install_contract();

    let cspr_deposit_amount: u128 = 101 * 10u128.pow(9);
    let sender = fixture.ali;

    fixture.deposit(sender, cspr_deposit_amount);
}

#[should_panic(expected = "ApiError::User(0) [65536]")]
#[test]
fn should_not_deposit_more_then_user_limit_2() {
    let mut fixture = Fixture::install_contract();

    let cspr_deposit_amount: u128 = 55 * 10u128.pow(9);
    let deposited_wcspr: u128 = 55 * 10u128.pow(9);
    let sender = fixture.ali;

    let initial_balance = fixture.balance_of(fixture.ali);
    let expected_balance = initial_balance + deposited_wcspr;

    fixture.deposit(sender, cspr_deposit_amount);

    assert_eq!(fixture.balance_of(fixture.ali), expected_balance);
    assert_eq!(fixture.cspr_balance(), cspr_deposit_amount);

    fixture.deposit(sender, cspr_deposit_amount);
}

#[test]
fn should_withdraw() {
    let mut fixture = Fixture::install_contract();

    let cspr_deposit_amount: u128 = 42;
    let deposited_wcspr: u128 = 42;
    let sender = fixture.ali;

    let initial_balance = fixture.balance_of(fixture.ali);
    let expected_balance = initial_balance + deposited_wcspr;

    fixture.deposit(sender, cspr_deposit_amount);
    assert_eq!(fixture.cspr_balance(), cspr_deposit_amount);
    assert_eq!(fixture.balance_of(fixture.ali), expected_balance);

    let withdraw_amount1: u128 = 12;
    let withdraw_amount1_u256: u128 = 12;
    assert_eq!(fixture.withdraw(sender, withdraw_amount1), Withdrawal::Released);

    assert_eq!(fixture.cspr_balance(), cspr_deposit_amount - withdraw_amount1);
    assert_eq!(
        fixture.balance_of(fixture.ali),
        initial_balance + deposited_wcspr - withdraw_amount1_u256
    );
}

#[test]
fn deposit_hundred_then_withdraw_twelve() {
    let mut fixture = Fixture::install_contract();
    let ali = fixture.ali;
    fixture.deposit(ali, 100);
    assert_eq!(fixture.balance_of(ali), 100);
    assert_eq!(fixture.vault.custody_balance(), 100);
    assert_eq!(fixture.vault.total_supply(), 100);
    let before = fixture.vault.purse_balance(&ali);
    assert_eq!(fixture.withdraw(ali, 12), Withdrawal::Released);
    assert_eq!(fixture.balance_of(ali), 88);
    assert_eq!(fixture.vault.custody_balance(), 88);
    assert_eq!(fixture.cspr_balance(), 88);
    assert_eq!(fixture.vault.purse_balance(&ali), before + 12);
}

#[test]
fn third_depositor_hits_contract_limit() {
    let mut fixture = Fixture::install_contract();
    let (ali, bob, joe) = (fixture.ali, fixture.bob, fixture.joe);
    fixture.deposit(ali, USER_LIMIT);
    fixture.deposit(bob, USER_LIMIT);
    assert_eq!(fixture.vault.total_supply(), CONTRACT_LIMIT);
    let before = (fixture.vault.purse_balance(&joe), fixture.vault.custody_balance());
    let r = fixture.vault.deposit(joe, &stack_of(joe), 1);
    assert_eq!(r, Err(VaultError::Refused(DepositError::ExceedContractLimit)));
    assert_eq!(DepositError::ExceedContractLimit.api_code(), 65537);
    assert_eq!(before, (fixture.vault.purse_balance(&joe), fixture.vault.custody_balance()));
    assert_eq!(fixture.vault.total_supply(), CONTRACT_LIMIT);
    assert_eq!(fixture.balance_of(joe), 0);
}

#[test]
fn user_limit_is_inclusive() {
    let mut fixture = Fixture::install_contract();
    let ali = fixture.ali;
    fixture.deposit(ali, USER_LIMIT - 1);
    fixture.deposit(ali, 1);
    assert_eq!(fixture.balance_of(ali), USER_LIMIT);
    let r = fixture.vault.deposit(ali, &stack_of(ali), 1);
    assert_eq!(r, Err(VaultError::Refused(DepositError::ExceedUserLimit)));
}

#[test]
fn round_trip_restores_custody_supply_and_purse() {
    let mut fixture = Fixture::install_contract();
    let (ali, bob) = (fixture.ali, fixture.bob);
    fixture.deposit(bob, 7);
    let custody = fixture.vault.custody_balance();
    let supply = fixture.vault.total_supply();
    let purse = fixture.vault.purse_balance(&ali);
    fixture.deposit(ali, 500);
    assert_eq!(fixture.vault.purse_balance(&ali), purse - 500);
    assert_eq!(fixture.withdraw(ali, 500), Withdrawal::Released);
    assert_eq!(fixture.vault.custody_balance(), custody);
    assert_eq!(fixture.vault.total_supply(), supply);
    assert_eq!(fixture.vault.purse_balance(&ali), purse);
    assert_eq!(fixture.balance_of(ali), 0);
}

#[test]
fn withdrawing_more_than_held_changes_nothing() {
    let mut fixture = Fixture::install_contract();
    let (ali, bob) = (fixture.ali, fixture.bob);
    fixture.deposit(ali, 30);
    fixture.deposit(bob, 70);
    let purse = fixture.vault.purse_balance(&ali);
    assert_eq!(fixture.withdraw(ali, 31), Withdrawal::Skipped);
    assert_eq!(fixture.vault.custody_balance(), 100);
    assert_eq!(fixture.vault.total_supply(), 100);
    assert_eq!(fixture.cspr_balance(), 100);
    assert_eq!(fixture.vault.purse_balance(&ali), purse);
    assert_eq!(fixture.balance_of(ali), 30);
}

#[test]
fn init_twice_keeps_the_first_purse() {
    let mut vault = Vault::new();
    assert!(!vault.is_initialized());
    assert_eq!(vault.main_purse(), None);
    assert_eq!(vault.contract_cspr_balance(), None);
    vault.init(hash(100));
    assert!(vault.is_initialized());
    assert_eq!(vault.main_purse(), Some(hash(100)));
    assert_eq!(vault.contract_cspr_balance(), Some(0));
    vault.init(hash(101));
    assert!(vault.is_initialized());
    assert_eq!(vault.main_purse(), Some(hash(100)));
    assert_eq!(vault.contract_cspr_balance(), Some(0));
}

#[test]
fn entry_points_before_init_abort() {
    let mut vault = Vault::new();
    let ali = hash(1);
    assert!(vault.fund(ali, 50));
    assert_eq!(vault.deposit(ali, &stack_of(ali), 10), Err(VaultError::NotInitialized));
    assert_eq!(vault.withdraw(&stack_of(ali), 10), Err(VaultError::NotInitialized));
    assert_eq!(vault.purse_balance(&ali), 50);
    assert_eq!(vault.custody_balance(), 0);
}

#[test]
fn deposit_beyond_own_purse_changes_nothing() {
    let mut vault = Vault::new();
    let ali = hash(1);
    assert!(vault.fund(ali, 50));
    vault.init(hash(100));
    assert_eq!(vault.deposit(ali, &stack_of(ali), 51), Err(VaultError::Transfer));
    assert_eq!(vault.purse_balance(&ali), 50);
    assert_eq!(vault.custody_balance(), 0);
    assert_eq!(vault.total_supply(), 0);
    assert_eq!(vault.balance_of(&Address::Account(ali)), 0);
}

#[test]
fn refused_deposit_changes_nothing() {
    let mut fixture = Fixture::install_contract();
    let ali = fixture.ali;
    let purse = fixture.vault.purse_balance(&ali);
    let r = fixture.vault.deposit(ali, &stack_of(ali), USER_LIMIT + 1);
    assert_eq!(r, Err(VaultError::Refused(DepositError::ExceedUserLimit)));
    assert_eq!(fixture.vault.purse_balance(&ali), purse);
    assert_eq!(fixture.vault.custody_balance(), 0);
    assert_eq!(fixture.vault.total_supply(), 0);
}

#[test]
fn call_stack_without_caller_is_invalid_context() {
    let mut fixture = Fixture::install_contract();
    let ali = fixture.ali;
    let alone = vec![contract()];
    assert_eq!(fixture.vault.deposit(ali, &alone, 5), Err(VaultError::InvalidContext));
    assert_eq!(fixture.vault.withdraw(&alone, 5), Err(VaultError::InvalidContext));
    assert_eq!(fixture.vault.withdraw(&Vec::new(), 5), Err(VaultError::InvalidContext));
}

#[test]
fn deposit_through_a_contract_mints_to_that_contract() {
    let mut fixture = Fixture::install_contract();
    let ali = fixture.ali;
    let relay = Frame::StoredContract { contract_package_hash: hash(50), contract_hash: hash(51) };
    let stack = vec![Frame::Session { account_hash: ali }, relay, contract()];
    assert_eq!(fixture.vault.deposit(ali, &stack, 9), Ok(()));
    assert_eq!(fixture.vault.balance_of(&Address::Contract(hash(50))), 9);
    assert_eq!(fixture.balance_of(ali), 0);
    assert_eq!(fixture.vault.withdraw(&stack, 9), Err(VaultError::NotAnAccount));
    assert_eq!(fixture.vault.custody_balance(), 9);
}

#[test]
fn fund_refuses_an_overflowing_purse() {
    let mut vault = Vault::new();
    let ali = hash(1);
    assert!(vault.fund(ali, u128::MAX));
    assert!(!vault.fund(ali, 1));
    assert_eq!(vault.purse_balance(&ali), u128::MAX);
}
