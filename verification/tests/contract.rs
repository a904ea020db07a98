use cnear::account::AccountId;
use cnear::contract::Contract;
use cnear::metadata::TokenMetadata;
use cnear::model::ContractError;
use near_sdk::test_utils::{accounts, VMContextBuilder};
use near_sdk::NearToken;

const ONE_NEAR: u128 = 1_000_000_000_000_000_000_000_000;

// 100 trillion tokens at 24 decimals.
const TOTAL_SUPPLY: u128 = 100_000_000_000_000 * ONE_NEAR;
// 1 NEAR per token, in yoctoNEAR.
const INITIAL_PRICE: u128 = ONE_NEAR;

const DATA_IMAGE_SVG_NEAR_ICON: &str = "data:image/svg+xml,%3Csvg xmlns='http://www.w3.org/2000/svg' viewBox='0 0 288 288'%3E%3Cg id='l' data-name='l'%3E%3Cpath d='M187.58,79.81l-30.1,44.69a3.2,3.2,0,0,0,4.75,4.2L191.86,103a1.2,1.2,0,0,1,2,.91v80.46a1.2,1.2,0,0,1-2.12.77L102.18,77.93A15.35,15.35,0,0,0,90.47,72.5H87.34A15.34,15.34,0,0,0,72,87.84V201.16A15.34,15.34,0,0,0,87.34,216.5h0a15.35,15.35,0,0,0,13.08-7.31l30.1-44.69a3.2,3.2,0,0,0-4.75-4.2L96.14,186a1.2,1.2,0,0,1-2-.91V104.61a1.2,1.2,0,0,1,2.12-.77l89.55,107.23a15.35,15.35,0,0,0,11.71,5.43h3.13A15.34,15.34,0,0,0,216,201.16V87.84A15.34,15.34,0,0,0,200.66,72.5h0A15.35,15.35,0,0,0,187.58,79.81Z'/%3E%3C/g%3E%3C/svg%3E";

fn id(account: near_sdk::AccountId) -> AccountId {
    AccountId::parse(account.as_str()).unwrap()
}

fn near(account: &AccountId) -> near_sdk::AccountId {
    account.as_str().parse().unwrap()
}

fn current() -> AccountId {
    id(accounts(0))
}

fn owner() -> AccountId {
    id(accounts(1))
}

fn user1() -> AccountId {
    id(accounts(2))
}

fn user2() -> AccountId {
    id(accounts(3))
}

fn set_env(context: near_sdk::VMContext) {
    let storage = near_sdk::mock::with_mocked_blockchain(|b| b.take_storage());
    near_sdk::env::set_blockchain_interface(near_sdk::MockedBlockchain::new(
        context,
        near_sdk::test_vm_config(),
        near_sdk::RuntimeFeesConfig::test(),
        Default::default(),
        storage,
        Default::default(),
        None,
    ));
}

/// What a contract call returned; a refusal panics with its message, as it does on chain.
fn ok<T>(result: Result<T, ContractError>) -> T {
    match result {
        Ok(value) => value,
        Err(error) => panic!("{}", error.message("sender", "receiver")),
    }
}

fn metadata() -> TokenMetadata {
    TokenMetadata {
        spec: "ft-1.0.0".to_string(),
        name: "Example NEAR fungible token".to_string(),
        symbol: "EXAMPLE".to_string(),
        icon: Some(DATA_IMAGE_SVG_NEAR_ICON.to_string()),
        reference: None,
        reference_hash: None,
        decimals: 24,
    }
}

fn setup() -> (Contract, VMContextBuilder) {
    let mut context = VMContextBuilder::new();
    context.current_account_id(near(&current()));
    context.predecessor_account_id(near(&current()));
    set_env(context.build());

    let contract = ok(Contract::new(owner(), TOTAL_SUPPLY, metadata(), INITIAL_PRICE));

    context.storage_usage(near_sdk::env::storage_usage());
    set_env(context.build());

    (contract, context)
}

#[test]
fn test_new() {
    let (contract, _) = setup();

    assert_eq!(contract.ft_total_supply(), TOTAL_SUPPLY);
    assert_eq!(contract.ft_balance_of(&owner()), TOTAL_SUPPLY);
}

#[test]
fn test_metadata() {
    let (contract, _) = setup();

    assert_eq!(contract.ft_metadata().decimals, 24);
    assert!(contract.ft_metadata().icon.is_some());
    assert!(!contract.ft_metadata().spec.is_empty());
    assert!(!contract.ft_metadata().name.is_empty());
    assert!(!contract.ft_metadata().symbol.is_empty());
}


#[test]
fn test_deposit() {
    let (mut contract, mut context) = setup();

    set_env(context
        .predecessor_account_id(near(&user1()))
        .attached_deposit(NearToken::from_yoctonear(contract.storage_balance_bounds().min))
        .build());

    assert!(contract.storage_balance_of(&user1()).is_none());

    ok(contract.storage_deposit(None, None));

    let storage_balance = contract.storage_balance_of(&user1()).unwrap();
    assert_eq!(storage_balance.total, contract.storage_balance_bounds().min);
    assert!(storage_balance.available == 0);
}

#[test]
fn test_deposit_on_behalf_of_another_user() {
    let (mut contract, mut context) = setup();

    set_env(context
        .predecessor_account_id(near(&user1()))
        .attached_deposit(NearToken::from_yoctonear(contract.storage_balance_bounds().min))
        .build());

    assert!(contract.storage_balance_of(&user2()).is_none());

    // predecessor is user1, but deposit is for user2
    ok(contract.storage_deposit(Some(user2()), None));

    let storage_balance = contract.storage_balance_of(&user2()).unwrap();
    assert_eq!(storage_balance.total, contract.storage_balance_bounds().min);
    assert!(storage_balance.available == 0);

    // ensure that user1's storage wasn't affected
    assert!(contract.storage_balance_of(&user1()).is_none());
}

#[should_panic]
#[test]
fn test_deposit_panics_on_less_amount() {
    let (mut contract, mut context) = setup();

    set_env(context
        .predecessor_account_id(near(&user1()))
        .attached_deposit(NearToken::from_yoctonear(100))
        .build());

    assert!(contract.storage_balance_of(&user1()).is_none());

    // this panics
    ok(contract.storage_deposit(None, None));
}

#[test]
fn test_deposit_account_twice() {
    let (mut contract, mut context) = setup();

    set_env(context
        .predecessor_account_id(near(&user1()))
        .attached_deposit(NearToken::from_yoctonear(contract.storage_balance_bounds().min))
        .build());

    // this registers the predecessor
    ok(contract.storage_deposit(None, None));

    let storage_balance = contract.storage_balance_of(&user1()).unwrap();
    assert_eq!(storage_balance.total, contract.storage_balance_bounds().min);

    // this doesn't panic, and just refunds the deposit as the account is registered already
    ok(contract.storage_deposit(None, None));

    // this indicates that total balance hasn't changed
    let storage_balance = contract.storage_balance_of(&user1()).unwrap();
    assert_eq!(storage_balance.total, contract.storage_balance_bounds().min);
}

#[test]
fn test_unregister() {
    let (mut contract, mut context) = setup();

    set_env(context
        .predecessor_account_id(near(&user1()))
        .attached_deposit(NearToken::from_yoctonear(contract.storage_balance_bounds().min))
        .build());

    ok(contract.storage_deposit(None, None));

    assert!(contract.storage_balance_of(&user1()).is_some());

    set_env(context
        .predecessor_account_id(near(&user1()))
        .attached_deposit(NearToken::from_yoctonear(1))
        .build());

    assert!(ok(contract.storage_unregister(None)));

    assert!(contract.storage_balance_of(&user1()).is_none());
}

#[should_panic]
#[test]
fn test_unregister_panics_on_zero_deposit() {
    let (mut contract, mut context) = setup();

    set_env(context
        .predecessor_account_id(near(&user1()))
        .attached_deposit(NearToken::from_yoctonear(contract.storage_balance_bounds().min))
        .build());

    ok(contract.storage_deposit(None, None));

    assert!(contract.storage_balance_of(&user1()).is_some());

    set_env(context
        .predecessor_account_id(near(&user1()))
        .attached_deposit(NearToken::from_yoctonear(0))
        .build());

    ok(contract.storage_unregister(None));
}

#[test]
fn test_unregister_of_non_registered_account() {
    let (mut contract, mut context) = setup();

    set_env(context
        .predecessor_account_id(near(&user1()))
        .attached_deposit(NearToken::from_yoctonear(1))
        .build());

    // "false" indicates that the account wasn't registered
    assert!(!ok(contract.storage_unregister(None)));
}

#[should_panic]
#[test]
fn test_unregister_panics_on_non_zero_balance() {
    let (mut contract, mut context) = setup();

    set_env(context
        .predecessor_account_id(near(&user1()))
        .attached_deposit(NearToken::from_yoctonear(contract.storage_balance_bounds().min))
        .build());

    ok(contract.storage_deposit(None, None));

    assert!(contract.storage_balance_of(&user1()).is_some());

    set_env(context
        .predecessor_account_id(near(&owner()))
        .attached_deposit(NearToken::from_yoctonear(1))
        .build());
    let transfer_amount = TOTAL_SUPPLY / 10;

    ok(contract.ft_transfer(user1(), transfer_amount, None));

    set_env(context
        .predecessor_account_id(near(&user1()))
        .attached_deposit(NearToken::from_yoctonear(1))
        .build());

    ok(contract.storage_unregister(None));
}

#[should_panic(expected = "cannot unregister an account that still holds cNEAR")]
#[test]
fn test_unregister_with_force_cannot_burn_balance() {
    let (mut contract, mut context) = setup();

    set_env(context
        .predecessor_account_id(near(&user1()))
        .attached_deposit(NearToken::from_yoctonear(contract.storage_balance_bounds().min))
        .build());

    ok(contract.storage_deposit(None, None));

    assert!(contract.storage_balance_of(&user1()).is_some());

    set_env(context
        .predecessor_account_id(near(&owner()))
        .attached_deposit(NearToken::from_yoctonear(1))
        .build());
    let transfer_amount = TOTAL_SUPPLY / 10;

    ok(contract.ft_transfer(user1(), transfer_amount, None));

    set_env(context
        .predecessor_account_id(near(&user1()))
        .attached_deposit(NearToken::from_yoctonear(1))
        .build());

    // `force` must NOT destroy a positive balance: otherwise a frozen
    // holder could zero out the balance the owner needs to recover.
    ok(contract.storage_unregister(Some(true)));
}

#[test]
fn test_unregister_succeeds_after_emptying_balance() {
    let (mut contract, mut context) = setup();
    register_user(&mut contract, &mut context, user1());

    set_env(context
        .predecessor_account_id(near(&owner()))
        .attached_deposit(NearToken::from_yoctonear(1))
        .build());
    let transfer_amount = TOTAL_SUPPLY / 10;
    ok(contract.ft_transfer(user1(), transfer_amount, None));

    // Send it back, then close the account: the documented exit path.
    set_env(context
        .predecessor_account_id(near(&user1()))
        .attached_deposit(NearToken::from_yoctonear(1))
        .build());
    ok(contract.ft_transfer(owner(), transfer_amount, None));
    assert!(ok(contract.storage_unregister(Some(true))));

    assert!(contract.storage_balance_of(&user1()).is_none());
    assert_eq!(
        contract.ft_total_supply(),
        TOTAL_SUPPLY,
        "unregistering must not destroy tokens"
    );
}

#[should_panic(expected = "cannot unregister an account that still holds cNEAR")]
#[test]
fn test_frozen_account_cannot_burn_balance_via_unregister() {
    let (mut contract, mut context) = setup();
    register_user(&mut contract, &mut context, user1());

    set_env(context
        .predecessor_account_id(near(&owner()))
        .attached_deposit(NearToken::from_yoctonear(1))
        .build());
    ok(contract.force_ft_transfer(owner(), user1(), TOTAL_SUPPLY / 10, None));

    set_env(context.predecessor_account_id(near(&owner())).build());
    ok(contract.freeze_account(user1()));

    // The freeze exists to preserve this balance for owner recovery.
    set_env(context
        .predecessor_account_id(near(&user1()))
        .attached_deposit(NearToken::from_yoctonear(1))
        .build());
    ok(contract.storage_unregister(Some(true)));
}

#[should_panic(expected = "cannot unregister an account that still holds cNEAR")]
#[test]
fn test_paused_account_cannot_burn_balance_via_unregister() {
    let (mut contract, mut context) = setup();
    register_user(&mut contract, &mut context, user1());

    set_env(context
        .predecessor_account_id(near(&owner()))
        .attached_deposit(NearToken::from_yoctonear(1))
        .build());
    ok(contract.force_ft_transfer(owner(), user1(), TOTAL_SUPPLY / 10, None));

    set_env(context.predecessor_account_id(near(&owner())).build());
    ok(contract.pause_contract());

    set_env(context
        .predecessor_account_id(near(&user1()))
        .attached_deposit(NearToken::from_yoctonear(1))
        .build());
    ok(contract.storage_unregister(Some(true)));
}

#[test]
fn test_withdraw() {
    let (mut contract, mut context) = setup();

    set_env(context
        .predecessor_account_id(near(&user1()))
        .attached_deposit(NearToken::from_yoctonear(contract.storage_balance_bounds().min))
        .build());

    ok(contract.storage_deposit(None, None));

    set_env(context
        .predecessor_account_id(near(&user1()))
        .attached_deposit(NearToken::from_yoctonear(1))
        .build());

    // Basic Fungible Token implementation never transfers Near to caller
    // See: https://github.com/near/near-sdk-rs/blob/5a4c595125364ffe8d7866aa0418a3c92b1c3a6a/near-contract-standards/src/fungible_token/storage_impl.rs#L82
    let storage_balance = ok(contract.storage_withdraw(None));
    assert_eq!(storage_balance.total, contract.storage_balance_bounds().min);
    assert!(storage_balance.available == 0);

    // Basic Fungible Token implementation never transfers Near to caller
    // See: https://github.com/near/near-sdk-rs/blob/5a4c595125364ffe8d7866aa0418a3c92b1c3a6a/near-contract-standards/src/fungible_token/storage_impl.rs#L82
    let storage_balance = ok(contract.storage_withdraw(None));
    assert_eq!(storage_balance.total, contract.storage_balance_bounds().min);
    assert!(storage_balance.available == 0);
}

#[should_panic]
#[test]
fn test_withdraw_panics_on_non_registered_account() {
    let (mut contract, mut context) = setup();

    set_env(context
        .predecessor_account_id(near(&user1()))
        .attached_deposit(NearToken::from_yoctonear(1))
        .build());

    ok(contract.storage_withdraw(None));
}

#[should_panic]
#[test]
fn test_withdraw_panics_on_zero_deposit() {
    let (mut contract, mut context) = setup();

    set_env(context
        .predecessor_account_id(near(&user1()))
        .attached_deposit(NearToken::from_yoctonear(0))
        .build());

    ok(contract.storage_withdraw(None));
}

#[should_panic]
#[test]
fn test_withdraw_panics_on_amount_greater_than_zero() {
    let (mut contract, mut context) = setup();

    set_env(context
        .predecessor_account_id(near(&user1()))
        .attached_deposit(NearToken::from_yoctonear(1))
        .build());

    // Basic Fungible Token implementation sets storage_balance_bounds.min == storage_balance_bounds.max
    // which means available balance will always be 0
    // See: https://github.com/near/near-sdk-rs/blob/5a4c595125364ffe8d7866aa0418a3c92b1c3a6a/near-contract-standards/src/fungible_token/storage_impl.rs#L82
    ok(contract.storage_withdraw(Some(1)));
}

#[test]
fn test_transfer() {
    let (mut contract, mut context) = setup();

    set_env(context
        .predecessor_account_id(near(&user1()))
        .attached_deposit(NearToken::from_yoctonear(contract.storage_balance_bounds().min))
        .build());

    // Paying for account registration of user1, aka storage deposit
    ok(contract.storage_deposit(None, None));

    set_env(context
        .predecessor_account_id(near(&owner()))
        .attached_deposit(NearToken::from_yoctonear(1))
        .build());
    let transfer_amount = TOTAL_SUPPLY / 10;

    ok(contract.ft_transfer(user1(), transfer_amount, None));

    assert_eq!(
        contract.ft_balance_of(&owner()),
        (TOTAL_SUPPLY - transfer_amount)
    );
    assert_eq!(contract.ft_balance_of(&user1()), transfer_amount);
}

#[should_panic]
#[test]
fn test_transfer_panics_on_self_receiver() {
    let (mut contract, mut context) = setup();

    set_env(context
        .predecessor_account_id(near(&user1()))
        .attached_deposit(NearToken::from_yoctonear(contract.storage_balance_bounds().min))
        .build());

    // Paying for account registration of user1, aka storage deposit
    ok(contract.storage_deposit(None, None));

    set_env(context
        .predecessor_account_id(near(&owner()))
        .attached_deposit(NearToken::from_yoctonear(1))
        .build());
    let transfer_amount = TOTAL_SUPPLY / 10;

    ok(contract.ft_transfer(owner(), transfer_amount, None));
}

#[should_panic]
#[test]
fn test_transfer_panics_on_zero_amount() {
    let (mut contract, mut context) = setup();

    set_env(context
        .predecessor_account_id(near(&user1()))
        .attached_deposit(NearToken::from_yoctonear(contract.storage_balance_bounds().min))
        .build());

    // Paying for account registration of user1, aka storage deposit
    ok(contract.storage_deposit(None, None));

    set_env(context
        .predecessor_account_id(near(&owner()))
        .attached_deposit(NearToken::from_yoctonear(1))
        .build());

    ok(contract.ft_transfer(user1(), 0, None));
}

#[should_panic]
#[test]
fn test_transfer_panics_on_zero_deposit() {
    let (mut contract, mut context) = setup();

    set_env(context
        .predecessor_account_id(near(&user1()))
        .attached_deposit(NearToken::from_yoctonear(contract.storage_balance_bounds().min))
        .build());

    // Paying for account registration of user1, aka storage deposit
    ok(contract.storage_deposit(None, None));

    set_env(context
        .predecessor_account_id(near(&owner()))
        .attached_deposit(NearToken::from_yoctonear(0))
        .build());

    let transfer_amount = TOTAL_SUPPLY / 10;
    ok(contract.ft_transfer(user1(), transfer_amount, None));
}

#[should_panic]
#[test]
fn test_transfer_panics_on_non_registered_sender() {
    let (mut contract, mut context) = setup();

    set_env(context
        .predecessor_account_id(near(&user1()))
        .attached_deposit(NearToken::from_yoctonear(1))
        .build());

    let transfer_amount = TOTAL_SUPPLY / 10;
    ok(contract.ft_transfer(user1(), transfer_amount, None));
}

#[should_panic]
#[test]
fn test_transfer_panics_on_non_registered_receiver() {
    let (mut contract, mut context) = setup();

    set_env(context
        .predecessor_account_id(near(&owner()))
        .attached_deposit(NearToken::from_yoctonear(1))
        .build());

    let transfer_amount = TOTAL_SUPPLY / 10;
    ok(contract.ft_transfer(user1(), transfer_amount, None));
}

#[should_panic]
#[test]
fn test_transfer_panics_on_amount_greater_than_balance() {
    let (mut contract, mut context) = setup();

    set_env(context
        .predecessor_account_id(near(&user1()))
        .attached_deposit(NearToken::from_yoctonear(contract.storage_balance_bounds().min))
        .build());

    // Paying for account registration of user1, aka storage deposit
    ok(contract.storage_deposit(None, None));

    set_env(context
        .predecessor_account_id(near(&owner()))
        .attached_deposit(NearToken::from_yoctonear(1))
        .build());

    let transfer_amount = TOTAL_SUPPLY + 10;
    ok(contract.ft_transfer(user1(), transfer_amount, None));
}

#[test]
fn test_transfer_call() {
    let (mut contract, mut context) = setup();

    set_env(context
        .predecessor_account_id(near(&user1()))
        .attached_deposit(NearToken::from_yoctonear(contract.storage_balance_bounds().min))
        .build());

    // Paying for account registration of user1, aka storage deposit
    ok(contract.storage_deposit(None, None));

    set_env(context
        .predecessor_account_id(near(&owner()))
        .attached_deposit(NearToken::from_yoctonear(1))
        .build());
    let transfer_amount = TOTAL_SUPPLY / 10;

    let _ = ok(contract.ft_transfer_call(user1(), transfer_amount, None, "".to_string()));

    assert_eq!(
        contract.ft_balance_of(&owner()),
        (TOTAL_SUPPLY - transfer_amount)
    );
    assert_eq!(contract.ft_balance_of(&user1()), transfer_amount);
}

#[should_panic]
#[test]
fn test_transfer_call_panics_on_self_receiver() {
    let (mut contract, mut context) = setup();

    set_env(context
        .predecessor_account_id(near(&user1()))
        .attached_deposit(NearToken::from_yoctonear(contract.storage_balance_bounds().min))
        .build());

    // Paying for account registration of user1, aka storage deposit
    ok(contract.storage_deposit(None, None));

    set_env(context
        .predecessor_account_id(near(&owner()))
        .attached_deposit(NearToken::from_yoctonear(1))
        .build());
    let transfer_amount = TOTAL_SUPPLY / 10;

    let _ = ok(contract.ft_transfer_call(owner(), transfer_amount, None, "".to_string()));
}

#[should_panic]
#[test]
fn test_transfer_call_panics_on_zero_amount() {
    let (mut contract, mut context) = setup();

    set_env(context
        .predecessor_account_id(near(&user1()))
        .attached_deposit(NearToken::from_yoctonear(contract.storage_balance_bounds().min))
        .build());

    // Paying for account registration of user1, aka storage deposit
    ok(contract.storage_deposit(None, None));

    set_env(context
        .predecessor_account_id(near(&owner()))
        .attached_deposit(NearToken::from_yoctonear(1))
        .build());

    let _ = ok(contract.ft_transfer_call(user1(), 0, None, "".to_string()));
}

#[should_panic]
#[test]
fn test_transfer_call_panics_on_zero_deposit() {
    let (mut contract, mut context) = setup();

    set_env(context
        .predecessor_account_id(near(&user1()))
        .attached_deposit(NearToken::from_yoctonear(contract.storage_balance_bounds().min))
        .build());

    // Paying for account registration of user1, aka storage deposit
    ok(contract.storage_deposit(None, None));

    set_env(context
        .predecessor_account_id(near(&owner()))
        .attached_deposit(NearToken::from_yoctonear(0))
        .build());

    let transfer_amount = TOTAL_SUPPLY / 10;
    let _ = ok(contract.ft_transfer_call(user1(), transfer_amount, None, "".to_string()));
}

#[should_panic]
#[test]
fn test_transfer_call_panics_on_non_registered_sender() {
    let (mut contract, mut context) = setup();

    set_env(context
        .predecessor_account_id(near(&user1()))
        .attached_deposit(NearToken::from_yoctonear(1))
        .build());

    let transfer_amount = TOTAL_SUPPLY / 10;
    let _ = ok(contract.ft_transfer_call(user1(), transfer_amount, None, "".to_string()));
}

#[should_panic]
#[test]
fn test_transfer_call_panics_on_non_registered_receiver() {
    let (mut contract, mut context) = setup();

    set_env(context
        .predecessor_account_id(near(&owner()))
        .attached_deposit(NearToken::from_yoctonear(1))
        .build());

    let transfer_amount = TOTAL_SUPPLY / 10;
    let _ = ok(contract.ft_transfer_call(user1(), transfer_amount, None, "".to_string()));
}

#[should_panic]
#[test]
fn test_transfer_call_panics_on_amount_greater_than_balance() {
    let (mut contract, mut context) = setup();

    set_env(context
        .predecessor_account_id(near(&user1()))
        .attached_deposit(NearToken::from_yoctonear(contract.storage_balance_bounds().min))
        .build());

    // Paying for account registration of user1, aka storage deposit
    ok(contract.storage_deposit(None, None));

    set_env(context
        .predecessor_account_id(near(&owner()))
        .attached_deposit(NearToken::from_yoctonear(1))
        .build());

    let transfer_amount = TOTAL_SUPPLY + 10;
    let _ = ok(contract.ft_transfer_call(user1(), transfer_amount, None, "".to_string()));
}

fn register_user(
    contract: &mut Contract,
    context: &mut VMContextBuilder,
    account_id: AccountId,
) {
    set_env(context
        .predecessor_account_id(near(&account_id))
        .attached_deposit(NearToken::from_yoctonear(contract.storage_balance_bounds().min))
        .build());
    ok(contract.storage_deposit(None, None));
}

#[test]
fn test_force_transfer() {
    let (mut contract, mut context) = setup();
    register_user(&mut contract, &mut context, user1());
    register_user(&mut contract, &mut context, user2());

    set_env(context
        .predecessor_account_id(near(&owner()))
        .attached_deposit(NearToken::from_yoctonear(1))
        .build());
    let transfer_amount = TOTAL_SUPPLY / 10;
    ok(contract.force_ft_transfer(owner(), user1(), transfer_amount, None));

    assert_eq!(
        contract.ft_balance_of(&owner()),
        TOTAL_SUPPLY - transfer_amount
    );
    assert_eq!(contract.ft_balance_of(&user1()), transfer_amount);
}

#[test]
fn test_force_transfer_between_non_owner_accounts() {
    let (mut contract, mut context) = setup();
    register_user(&mut contract, &mut context, user1());
    register_user(&mut contract, &mut context, user2());

    set_env(context
        .predecessor_account_id(near(&owner()))
        .attached_deposit(NearToken::from_yoctonear(1))
        .build());
    let transfer_amount = TOTAL_SUPPLY / 10;
    ok(contract.force_ft_transfer(owner(), user1(), transfer_amount, None));

    set_env(context
        .predecessor_account_id(near(&owner()))
        .attached_deposit(NearToken::from_yoctonear(1))
        .build());
    ok(contract.force_ft_transfer(user1(), user2(), transfer_amount, None));

    assert_eq!(contract.ft_balance_of(&user1()), 0);
    assert_eq!(contract.ft_balance_of(&user2()), transfer_amount);
}

#[should_panic]
#[test]
fn test_force_transfer_panics_on_zero_deposit() {
    let (mut contract, mut context) = setup();
    register_user(&mut contract, &mut context, user1());

    set_env(context
        .predecessor_account_id(near(&owner()))
        .attached_deposit(NearToken::from_yoctonear(0))
        .build());
    ok(contract.force_ft_transfer(owner(), user1(), TOTAL_SUPPLY / 10, None));
}

#[test]
fn test_freeze_account() {
    let (mut contract, mut context) = setup();

    set_env(context.predecessor_account_id(near(&owner())).build());
    ok(contract.freeze_account(user1()));

    assert!(contract.is_frozen(&user1()));
    assert!(!contract.is_frozen(&user2()));
}

#[test]
fn test_unfreeze_account() {
    let (mut contract, mut context) = setup();

    set_env(context.predecessor_account_id(near(&owner())).build());
    ok(contract.freeze_account(user1()));
    assert!(contract.is_frozen(&user1()));

    ok(contract.unfreeze_account(user1()));
    assert!(!contract.is_frozen(&user1()));
}

#[should_panic(expected = "Sender account is frozen")]
#[test]
fn test_transfer_panics_when_sender_frozen() {
    let (mut contract, mut context) = setup();
    register_user(&mut contract, &mut context, user1());
    register_user(&mut contract, &mut context, user2());

    set_env(context
        .predecessor_account_id(near(&owner()))
        .attached_deposit(NearToken::from_yoctonear(1))
        .build());
    ok(contract.force_ft_transfer(owner(), user1(), TOTAL_SUPPLY / 10, None));

    set_env(context.predecessor_account_id(near(&owner())).build());
    ok(contract.freeze_account(user1()));

    set_env(context
        .predecessor_account_id(near(&user1()))
        .attached_deposit(NearToken::from_yoctonear(1))
        .build());
    ok(contract.ft_transfer(user2(), TOTAL_SUPPLY / 10, None));
}

#[should_panic(expected = "Receiver account is frozen")]
#[test]
fn test_transfer_panics_when_receiver_frozen() {
    let (mut contract, mut context) = setup();
    register_user(&mut contract, &mut context, user1());

    set_env(context.predecessor_account_id(near(&owner())).build());
    ok(contract.freeze_account(user1()));

    set_env(context
        .predecessor_account_id(near(&owner()))
        .attached_deposit(NearToken::from_yoctonear(1))
        .build());
    ok(contract.ft_transfer(user1(), TOTAL_SUPPLY / 10, None));
}

#[test]
fn test_transfer_succeeds_after_unfreeze() {
    let (mut contract, mut context) = setup();
    register_user(&mut contract, &mut context, user1());

    set_env(context.predecessor_account_id(near(&owner())).build());
    ok(contract.freeze_account(user1()));
    ok(contract.unfreeze_account(user1()));

    set_env(context
        .predecessor_account_id(near(&owner()))
        .attached_deposit(NearToken::from_yoctonear(1))
        .build());
    let transfer_amount = TOTAL_SUPPLY / 10;
    ok(contract.ft_transfer(user1(), transfer_amount, None));

    assert_eq!(contract.ft_balance_of(&user1()), transfer_amount);
}

#[test]
fn test_pause_by_owner() {
    let (mut contract, mut context) = setup();

    set_env(context.predecessor_account_id(near(&owner())).build());
    ok(contract.pause_contract());

    assert!(contract.is_paused());
}

#[test]
fn test_unpause_by_owner() {
    let (mut contract, mut context) = setup();

    set_env(context.predecessor_account_id(near(&owner())).build());
    ok(contract.pause_contract());
    assert!(contract.is_paused());

    ok(contract.unpause());
    assert!(!contract.is_paused());
}

#[should_panic(expected = "Token transfers paused")]
#[test]
fn test_transfer_panics_when_paused() {
    let (mut contract, mut context) = setup();
    register_user(&mut contract, &mut context, user1());

    set_env(context
        .predecessor_account_id(near(&owner()))
        .attached_deposit(NearToken::from_yoctonear(1))
        .build());
    let transfer_amount = TOTAL_SUPPLY / 10;
    ok(contract.ft_transfer(user1(), transfer_amount, None));

    set_env(context.predecessor_account_id(near(&owner())).build());
    ok(contract.pause_contract());

    set_env(context
        .predecessor_account_id(near(&owner()))
        .attached_deposit(NearToken::from_yoctonear(1))
        .build());
    ok(contract.ft_transfer(user1(), transfer_amount, None));
}

#[should_panic(expected = "Token transfers paused")]
#[test]
fn test_transfer_call_panics_when_paused() {
    let (mut contract, mut context) = setup();
    register_user(&mut contract, &mut context, user1());

    set_env(context.predecessor_account_id(near(&owner())).build());
    ok(contract.pause_contract());

    set_env(context
        .predecessor_account_id(near(&owner()))
        .attached_deposit(NearToken::from_yoctonear(1))
        .build());
    let _ =
        ok(contract.ft_transfer_call(user1(), TOTAL_SUPPLY / 10, None, "".to_string()));
}

#[test]
fn test_is_paused_returns_false_initially() {
    let (contract, _) = setup();
    assert!(!contract.is_paused());
}

#[test]
fn test_is_frozen_returns_false_initially() {
    let (contract, _) = setup();
    assert!(!contract.is_frozen(&user1()));
}

#[test]
fn test_pause_idempotent() {
    let (mut contract, mut context) = setup();

    set_env(context.predecessor_account_id(near(&owner())).build());
    ok(contract.pause_contract());
    assert!(contract.is_paused());

    ok(contract.pause_contract());
    assert!(contract.is_paused());
}

#[should_panic(expected = "Sender account is frozen")]
#[test]
fn test_transfer_panics_on_both_frozen_sender_first() {
    let (mut contract, mut context) = setup();
    register_user(&mut contract, &mut context, user1());
    register_user(&mut contract, &mut context, user2());

    set_env(context
        .predecessor_account_id(near(&owner()))
        .attached_deposit(NearToken::from_yoctonear(1))
        .build());
    let transfer_amount = TOTAL_SUPPLY / 10;
    ok(contract.force_ft_transfer(owner(), user1(), transfer_amount, None));

    set_env(context.predecessor_account_id(near(&owner())).build());
    ok(contract.freeze_account(user1()));
    ok(contract.freeze_account(user2()));

    set_env(context
        .predecessor_account_id(near(&user1()))
        .attached_deposit(NearToken::from_yoctonear(1))
        .build());
    ok(contract.ft_transfer(user2(), transfer_amount, None));
}

#[should_panic(expected = "Token transfers paused")]
#[test]
fn test_transfer_paused_check_before_frozen_check() {
    let (mut contract, mut context) = setup();
    register_user(&mut contract, &mut context, user1());

    set_env(context.predecessor_account_id(near(&owner())).build());
    ok(contract.pause_contract());
    ok(contract.freeze_account(user1()));

    set_env(context
        .predecessor_account_id(near(&owner()))
        .attached_deposit(NearToken::from_yoctonear(1))
        .build());
    let transfer_amount = TOTAL_SUPPLY / 10;
    ok(contract.ft_transfer(user1(), transfer_amount, None));
}

#[test]
fn test_transfer_after_pause_unpause_cycle() {
    let (mut contract, mut context) = setup();
    register_user(&mut contract, &mut context, user1());

    set_env(context.predecessor_account_id(near(&owner())).build());
    ok(contract.pause_contract());
    ok(contract.unpause());

    set_env(context
        .predecessor_account_id(near(&owner()))
        .attached_deposit(NearToken::from_yoctonear(1))
        .build());
    let transfer_amount = TOTAL_SUPPLY / 10;
    ok(contract.ft_transfer(user1(), transfer_amount, None));

    assert_eq!(contract.ft_balance_of(&user1()), transfer_amount);
}

#[test]
fn test_latest_price_set_initially() {
    let (contract, _) = setup();
    assert_eq!(contract.get_latest_price(), INITIAL_PRICE);
}

#[test]
fn test_set_latest_price_by_owner() {
    let (mut contract, mut context) = setup();

    set_env(context.predecessor_account_id(near(&owner())).build());
    ok(contract.set_latest_price(1_000_000));

    assert_eq!(contract.get_latest_price(), 1_000_000);
}

#[should_panic]
#[test]
fn test_set_latest_price_panics_on_non_owner() {
    let (mut contract, mut context) = setup();

    set_env(context.predecessor_account_id(near(&user1())).build());
    ok(contract.set_latest_price(1_000_000));
}

#[should_panic(expected = "Receiver account is frozen")]
#[test]
fn test_transfer_call_panics_on_frozen_receiver() {
    let (mut contract, mut context) = setup();
    register_user(&mut contract, &mut context, user1());

    set_env(context.predecessor_account_id(near(&owner())).build());
    ok(contract.freeze_account(user1()));

    set_env(context
        .predecessor_account_id(near(&owner()))
        .attached_deposit(NearToken::from_yoctonear(1))
        .build());
    let _ =
        ok(contract.ft_transfer_call(user1(), TOTAL_SUPPLY / 10, None, "".to_string()));
}

fn cnear_events() -> Vec<String> {
    near_sdk::test_utils::get_logs()
        .into_iter()
        .filter(|log| log.starts_with("EVENT_JSON:") && log.contains("\"standard\":\"cnear\""))
        .collect()
}

#[test]
fn test_pause_emits_event_on_every_call() {
    let (mut contract, mut context) = setup();

    set_env(context.predecessor_account_id(near(&owner())).build());
    ok(contract.pause_contract());
    let events = cnear_events();
    assert_eq!(events.len(), 1);
    assert!(events[0].contains("\"event\":\"paused\""));
    assert!(events[0].contains(&format!("\"by\":\"{}\"", owner().as_str())));

    // Privileged actions are audited unconditionally: re-pausing an
    // already-paused contract still emits an event.
    ok(contract.pause_contract());
    assert_eq!(cnear_events().len(), 2);
}

#[test]
fn test_pause_contract_emits_exactly_one_event() {
    let (mut contract, mut context) = setup();

    set_env(context.predecessor_account_id(near(&owner())).build());
    ok(contract.pause_contract());
    let events = cnear_events();
    assert_eq!(events.len(), 1);
    assert!(events[0].contains("\"event\":\"paused\""));
}

#[test]
fn test_unpause_emits_event_on_every_call() {
    let (mut contract, mut context) = setup();

    set_env(context.predecessor_account_id(near(&owner())).build());
    // Unpausing an unpaused contract is a state no-op but is still audited.
    ok(contract.unpause());
    let events = cnear_events();
    assert_eq!(events.len(), 1);
    assert!(events[0].contains("\"event\":\"unpaused\""));

    ok(contract.pause_contract());
    ok(contract.unpause());
    let events = cnear_events();
    assert_eq!(events.len(), 3);
    assert!(events[1].contains("\"event\":\"paused\""));
    assert!(events[2].contains("\"event\":\"unpaused\""));
}

#[test]
fn test_freeze_unfreeze_emit_events_on_every_call() {
    let (mut contract, mut context) = setup();

    set_env(context.predecessor_account_id(near(&owner())).build());
    ok(contract.freeze_account(user1()));
    ok(contract.freeze_account(user1())); // state no-op, still audited
    ok(contract.unfreeze_account(user1()));
    ok(contract.unfreeze_account(user1())); // state no-op, still audited

    let events = cnear_events();
    assert_eq!(events.len(), 4);
    assert!(events[0].contains("\"event\":\"account_frozen\""));
    assert!(events[0].contains(&format!("\"account_id\":\"{}\"", user1().as_str())));
    assert!(events[1].contains("\"event\":\"account_frozen\""));
    assert!(events[2].contains("\"event\":\"account_unfrozen\""));
    assert!(events[3].contains("\"event\":\"account_unfrozen\""));
}

#[test]
fn test_set_latest_price_emits_event_with_old_and_new_values() {
    let (mut contract, mut context) = setup();

    set_env(context.predecessor_account_id(near(&owner())).build());
    ok(contract.set_latest_price(1_000_000));

    let events = cnear_events();
    assert_eq!(events.len(), 1);
    assert!(events[0].contains("\"event\":\"price_updated\""));
    assert!(events[0].contains(&format!("\"old_price\":\"{INITIAL_PRICE}\"")));
    assert!(events[0].contains("\"new_price\":\"1000000\""));
}

/// Transfer ownership the way a real operator would: propose, then accept.
fn transfer_ownership_to(
    contract: &mut Contract,
    context: &mut VMContextBuilder,
    from: AccountId,
    to: AccountId,
) {
    set_env(context.predecessor_account_id(near(&from)).build());
    ok(contract.owner_set(to.clone()));
    set_env(context.predecessor_account_id(near(&to)).build());
    ok(contract.owner_accept());
}

#[test]
fn test_owner_set_only_proposes() {
    let (mut contract, mut context) = setup();

    set_env(context.predecessor_account_id(near(&owner())).build());
    ok(contract.owner_set(user1()));

    // Ownership has NOT moved yet.
    assert_eq!(contract.owner_get(), owner());
    assert_eq!(contract.pending_owner_get(), Some(user1()));

    let events = cnear_events();
    assert_eq!(events.len(), 1);
    assert!(events[0].contains("\"event\":\"ownership_transfer_started\""));
    assert!(events[0].contains(&format!("\"previous_owner\":\"{}\"", owner().as_str())));
    assert!(events[0].contains(&format!("\"new_owner\":\"{}\"", user1().as_str())));
}

#[test]
fn test_owner_accept_completes_transfer() {
    let (mut contract, mut context) = setup();
    transfer_ownership_to(&mut contract, &mut context, owner(), user1());

    assert_eq!(contract.owner_get(), user1());
    assert_eq!(contract.pending_owner_get(), None);

    // `testing_env!` clears logs per context, so only the acceptance
    // phase's event is visible here; the proposal event is asserted in
    // `test_owner_set_only_proposes`.
    let events = cnear_events();
    assert_eq!(events.len(), 1);
    assert!(events[0].contains("\"event\":\"owner_changed\""));
    assert!(events[0].contains(&format!("\"old_owner\":\"{}\"", owner().as_str())));
    assert!(events[0].contains(&format!("\"new_owner\":\"{}\"", user1().as_str())));
}

#[should_panic(expected = "Ownable2Step: caller is not the pending owner")]
#[test]
fn test_only_pending_owner_can_accept() {
    let (mut contract, mut context) = setup();

    set_env(context.predecessor_account_id(near(&owner())).build());
    ok(contract.owner_set(user1()));

    // user2 was not proposed, so it cannot take ownership.
    set_env(context.predecessor_account_id(near(&user2())).build());
    ok(contract.owner_accept());
}

#[should_panic(expected = "Ownable2Step: caller is not the pending owner")]
#[test]
fn test_cannot_accept_without_a_pending_transfer() {
    let (mut contract, mut context) = setup();

    set_env(context.predecessor_account_id(near(&user1())).build());
    ok(contract.owner_accept());
}

#[test]
fn test_owner_set_replaces_a_pending_transfer() {
    let (mut contract, mut context) = setup();

    set_env(context.predecessor_account_id(near(&owner())).build());
    ok(contract.owner_set(user1()));
    ok(contract.owner_set(user2()));
    assert_eq!(contract.pending_owner_get(), Some(user2()));

    // The superseded proposal is no longer acceptable.
    set_env(context.predecessor_account_id(near(&user2())).build());
    ok(contract.owner_accept());
    assert_eq!(contract.owner_get(), user2());
}

#[test]
fn test_cancel_pending_transfer() {
    let (mut contract, mut context) = setup();

    set_env(context.predecessor_account_id(near(&owner())).build());
    ok(contract.owner_set(user1()));
    ok(contract.owner_cancel_transfer());

    assert_eq!(contract.pending_owner_get(), None);
    assert_eq!(contract.owner_get(), owner());

    let events = cnear_events();
    assert_eq!(events.len(), 2);
    assert!(events[1].contains("\"event\":\"ownership_transfer_cancelled\""));
    assert!(events[1].contains(&format!("\"by\":\"{}\"", owner().as_str())));
    assert!(events[1].contains(&format!("\"pending_owner\":\"{}\"", user1().as_str())));
}

// Privileged actions are audited unconditionally: cancelling when no
// transfer is pending still emits the event.
#[test]
fn test_cancel_without_pending_transfer_emits_event() {
    let (mut contract, mut context) = setup();

    set_env(context.predecessor_account_id(near(&owner())).build());
    ok(contract.owner_cancel_transfer());

    let events = cnear_events();
    assert_eq!(events.len(), 1);
    assert!(events[0].contains("\"event\":\"ownership_transfer_cancelled\""));
    assert!(events[0].contains("\"pending_owner\":null"));
}

/// TOB-CNEAR-9: `owner_get` is the single source of truth for ownership.
/// TOB-CNEAR-13: a previous owner keeps no authority after a transfer.
#[test]
fn test_ownership_transfer_leaves_previous_owner_powerless() {
    let (mut contract, mut context) = setup();

    transfer_ownership_to(&mut contract, &mut context, owner(), user1());

    // The reported owner is the only owner.
    assert_eq!(contract.owner_get(), user1());

    // The new owner can exercise ownership...
    set_env(context.predecessor_account_id(near(&user1())).build());
    ok(contract.pause_contract());
    assert!(contract.is_paused());

    // ...and the old owner can no longer act, nor take ownership back.
    set_env(context.predecessor_account_id(near(&owner())).build());
    assert!(!contract.owner_is(), "the previous owner must not be owner");
}

#[should_panic(expected = "Ownable: Method must be called from owner")]
#[test]
fn test_previous_owner_cannot_act_after_transfer() {
    let (mut contract, mut context) = setup();

    transfer_ownership_to(&mut contract, &mut context, owner(), user1());

    // The previous owner has no role, admin or super-admin left to fall
    // back on: the attempt simply fails.
    set_env(context.predecessor_account_id(near(&owner())).build());
    ok(contract.pause_contract());
}

#[should_panic(expected = "Ownable: Method must be called from owner")]
#[test]
fn test_previous_owner_cannot_reclaim_ownership() {
    let (mut contract, mut context) = setup();

    transfer_ownership_to(&mut contract, &mut context, owner(), user1());

    set_env(context.predecessor_account_id(near(&owner())).build());
    ok(contract.owner_set(owner()));
}

/// The `Ownable` trait's single-step setter is refused outright, so
/// `transfer_ownership` stays the only writer of `owner_id` and there is no
/// way to clear the owner or to skip the propose/accept flow.
#[should_panic(expected = "cNEAR has no single-step ownership transfer")]
#[test]
fn test_trait_owner_set_is_unsupported() {
    let (mut contract, mut context) = setup();

    set_env(context.predecessor_account_id(near(&owner())).build());
    ok(contract.owner_set_single_step(Some(user1())));
}

#[should_panic(expected = "cNEAR has no single-step ownership transfer")]
#[test]
fn test_owner_cannot_be_cleared() {
    let (mut contract, mut context) = setup();

    set_env(context.predecessor_account_id(near(&owner())).build());
    ok(contract.owner_set_single_step(None));
}

#[test]
fn test_force_transfer_emits_dedicated_event() {
    let (mut contract, mut context) = setup();
    register_user(&mut contract, &mut context, user1());

    set_env(context
        .predecessor_account_id(near(&owner()))
        .attached_deposit(NearToken::from_yoctonear(1))
        .build());
    ok(contract.force_ft_transfer(owner(), user1(), TOTAL_SUPPLY / 10, None));

    let events = cnear_events();
    assert_eq!(events.len(), 1);
    assert!(events[0].contains("\"event\":\"force_ft_transfer\""));
    assert!(events[0].contains(&format!("\"sender_id\":\"{}\"", owner().as_str())));
    assert!(events[0].contains(&format!("\"receiver_id\":\"{}\"", user1().as_str())));
    // The standard NEP-141 FtTransfer event must also still be emitted.
    assert!(near_sdk::test_utils::get_logs()
        .iter()
        .any(|log| log.contains("\"standard\":\"nep141\"") && log.contains("ft_transfer")));
}

fn act_as(context: &mut VMContextBuilder, account: AccountId) {
    set_env(context
        .predecessor_account_id(near(&account))
        .attached_deposit(NearToken::from_yoctonear(1))
        .build());
}

#[test]
fn test_total_supply() {
    let (contract, _) = setup();
    assert_eq!(contract.ft_total_supply(), TOTAL_SUPPLY);
    assert_eq!(contract.ft_balance_of(&owner()), TOTAL_SUPPLY);
}

#[test]
fn test_token_control_methods() {
    let (mut contract, mut context) = setup();
    register_user(&mut contract, &mut context, user1());

    act_as(&mut context, owner());
    ok(contract.pause_contract());
    assert!(contract.is_paused(), "should be paused");
    ok(contract.unpause());
    assert!(!contract.is_paused(), "should not be paused");
    ok(contract.freeze_account(user1()));
    assert!(contract.is_frozen(&user1()), "should be frozen");
    ok(contract.unfreeze_account(user1()));
    assert!(!contract.is_frozen(&user1()), "should not be frozen");
}

#[test]
fn test_pause_blocks_transfers() {
    let (mut contract, mut context) = setup();
    register_user(&mut contract, &mut context, user1());
    register_user(&mut contract, &mut context, user2());

    act_as(&mut context, owner());
    ok(contract.force_ft_transfer(owner(), user1(), 1_000_000_000_000, None));
    ok(contract.pause_contract());
    act_as(&mut context, user1());
    assert!(
        contract.ft_transfer(user2(), 1_000, None).is_err(),
        "transfer should fail while the token is paused"
    );

    act_as(&mut context, owner());
    ok(contract.unpause());
    act_as(&mut context, user1());
    assert!(
        contract.ft_transfer(user2(), 1_000, None).is_ok(),
        "transfer should succeed once unpaused"
    );
    assert_eq!(contract.ft_balance_of(&user2()), 1_000);
}

#[test]
fn test_freeze_prevents_transfers() {
    let (mut contract, mut context) = setup();
    register_user(&mut contract, &mut context, user1());
    register_user(&mut contract, &mut context, user2());

    act_as(&mut context, owner());
    ok(contract.force_ft_transfer(owner(), user1(), 1_000_000_000_000, None));
    ok(contract.freeze_account(user1()));
    act_as(&mut context, user1());
    assert!(
        contract.ft_transfer(user2(), 1_000, None).is_err(),
        "a frozen account should not be able to transfer"
    );

    act_as(&mut context, owner());
    ok(contract.force_ft_transfer(user1(), user2(), 1_000, None));
    ok(contract.unfreeze_account(user1()));
    act_as(&mut context, user1());
    assert!(
        contract.ft_transfer(user2(), 1_000, None).is_ok(),
        "transfer should succeed once unfrozen"
    );
    assert_eq!(contract.ft_balance_of(&user2()), 2_000);
}
