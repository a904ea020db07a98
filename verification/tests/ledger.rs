use cnear::account::AccountId;
use cnear::contract::{check_init, Contract, StorageKey};
use cnear::events::ContractEvent;
use cnear::frozen::FrozenAccounts;
use cnear::host::Callback;
use cnear::metadata::TokenMetadata;
use cnear::model::ContractError;
use near_sdk::mock::MockAction;
use near_sdk::test_utils::{get_created_receipts, get_logs, VMContextBuilder};
use near_sdk::{NearToken, PromiseResult};

const SUPPLY: u128 = 1_000;

fn id(text: &str) -> AccountId {
    AccountId::parse(text).unwrap()
}

fn call_with(caller: &str, deposit: u128, results: Vec<PromiseResult>) {
    let mut context = VMContextBuilder::new();
    context.current_account_id("cnear.near".parse().unwrap());
    context.predecessor_account_id(caller.parse().unwrap());
    context.attached_deposit(NearToken::from_yoctonear(deposit));
    context.account_balance(NearToken::from_near(1_000));
    let storage = near_sdk::mock::with_mocked_blockchain(|b| b.take_storage());
    near_sdk::env::set_blockchain_interface(near_sdk::MockedBlockchain::new(
        context.build(),
        near_sdk::test_vm_config(),
        near_sdk::RuntimeFeesConfig::test(),
        results,
        storage,
        Default::default(),
        None,
    ));
}

fn call(caller: &str, deposit: u128) {
    call_with(caller, deposit, Vec::new());
}

fn metadata() -> TokenMetadata {
    TokenMetadata {
        spec: "ft-1.0.0".to_string(),
        name: "cNEAR".to_string(),
        symbol: "cNEAR".to_string(),
        icon: Some("data:,".to_string()),
        reference: Some("https://near.org".to_string()),
        reference_hash: Some((0u8..32).collect()),
        decimals: 24,
    }
}

/// A contract over empty storage.
fn setup() -> Contract {
    drop(near_sdk::mock::with_mocked_blockchain(|b| b.take_storage()));
    call("owner.near", 0);
    Contract::new(id("owner.near"), SUPPLY, metadata(), 7).unwrap()
}

fn register(contract: &mut Contract, account: &str) {
    let cost = contract.storage_balance_bounds().min;
    call(account, cost);
    contract.storage_deposit(None, None).unwrap();
}

fn transfers(receipts: &[near_sdk::mock::Receipt]) -> Vec<(String, u128)> {
    let mut paid = Vec::new();
    for receipt in receipts {
        for action in &receipt.actions {
            if let MockAction::Transfer { deposit, .. } = action {
                paid.push((receipt.receiver_id.to_string(), deposit.as_yoctonear()));
            }
        }
    }
    paid
}

#[test]
fn a_new_contract_mints_its_supply() {
    let contract = setup();
    assert_eq!(contract.ft_total_supply(), SUPPLY);
    assert_eq!(contract.ft_balance_of(&id("owner.near")), SUPPLY);
    assert_eq!(contract.get_latest_price(), 7);
    assert_eq!(
        get_logs(),
        vec!["EVENT_JSON:{\"standard\":\"nep141\",\"version\":\"1.0.0\",\"event\":\"ft_mint\",\"data\":[{\"owner_id\":\"owner.near\",\"amount\":\"1000\",\"memo\":\"new tokens are minted\"}]}".to_string()]
    );
    let kept = contract.ft_metadata();
    assert_eq!(kept.reference.as_deref(), Some("https://near.org"));
    assert_eq!(kept.reference_hash.unwrap(), (0u8..32).collect::<Vec<u8>>());
    assert_eq!(kept.icon.as_deref(), Some("data:,"));
    assert_eq!(kept.decimals, 24);
}

#[test]
fn setting_up_is_refused_for_a_reason() {
    let refused = |metadata: TokenMetadata| {
        Contract::new(id("owner.near"), SUPPLY, metadata, 7).err().unwrap()
    };
    call("owner.near", 0);
    let mut wrong = metadata();
    wrong.spec = "ft-2.0.0".to_string();
    assert_eq!(refused(wrong), ContractError::InvalidMetadata);
    let mut unpaired = metadata();
    unpaired.reference = None;
    assert_eq!(refused(unpaired), ContractError::InvalidMetadata);
    let mut short = metadata();
    short.reference_hash = Some(vec![0; 31]);
    assert_eq!(refused(short), ContractError::MetadataHashLength);
    let first = Contract::new(id("owner.near"), SUPPLY, metadata(), 7);
    assert!(first.is_ok());
    assert_eq!(refused(metadata()), ContractError::AlreadyRegistered);
    near_sdk::env::state_write(&1u8);
    assert_eq!(refused(metadata()), ContractError::AlreadyInitialized);
    assert_eq!(check_init(true, &metadata()), Err(ContractError::AlreadyInitialized));
    assert_eq!(check_init(false, &metadata()), Ok(()));
}

#[test]
fn collections_have_prefixes_of_their_own() {
    assert_eq!(StorageKey::FungibleToken.prefix(), vec![0]);
    assert_eq!(StorageKey::Metadata.prefix(), vec![1]);
    assert_eq!(StorageKey::FrozenAccounts.prefix(), vec![2]);
}

#[test]
fn a_contract_survives_being_taken_apart() {
    let mut contract = setup();
    call("owner.near", 0);
    contract.freeze_account(id("eve.near")).unwrap();
    contract.owner_set(id("bob.near")).unwrap();
    contract.pause_contract().unwrap();
    let contract = Contract::from_parts(contract.into_parts());
    assert!(contract.is_paused());
    assert!(contract.is_frozen(&id("eve.near")));
    assert!(!contract.is_frozen(&id("bob.near")));
    assert_eq!(contract.pending_owner_get(), Some(id("bob.near")));
    assert_eq!(contract.owner_get(), id("owner.near"));
    assert_eq!(contract.ft_balance_of(&id("owner.near")), SUPPLY);
    assert_eq!(contract.ft_metadata().name, "cNEAR");
}

#[test]
fn upgrades_are_checked_before_they_are_scheduled() {
    let mut contract = setup();
    let code = b"\0asm\x01".to_vec();
    call("eve.near", 1);
    assert_eq!(contract.upgrade(code.clone(), None).err(), Some(ContractError::NotOwner));
    call("owner.near", 0);
    assert_eq!(contract.upgrade(code.clone(), None).err(), Some(ContractError::OneYocto));
    call("owner.near", 2);
    assert_eq!(contract.upgrade(code.clone(), None).err(), Some(ContractError::OneYocto));
    call("owner.near", 1);
    assert_eq!(contract.upgrade(code.clone(), Some(1)).err(), Some(ContractError::StateMigration));
    assert_eq!(contract.upgrade(b"\0asn\x01".to_vec(), None).err(), Some(ContractError::NotWasm));
    assert_eq!(contract.upgrade(b"\0as".to_vec(), None).err(), Some(ContractError::NotWasm));
    assert!(get_created_receipts().is_empty());
    drop(contract.upgrade(code.clone(), None).unwrap());
    let receipts = get_created_receipts();
    assert_eq!(receipts.len(), 1);
    assert_eq!(receipts[0].receiver_id.as_str(), "cnear.near");
    assert!(receipts[0].actions.iter().any(
        |action| matches!(action, MockAction::DeployContract { code: deployed, .. } if *deployed == code)
    ));
}

#[test]
fn transfers_are_refused_for_a_reason() {
    let mut contract = setup();
    register(&mut contract, "alice.near");
    let send = |contract: &mut Contract, to: &str, amount: u128| {
        contract.ft_transfer(id(to), amount, None).err()
    };
    call("owner.near", 0);
    assert_eq!(send(&mut contract, "alice.near", 1), Some(ContractError::OneYocto));
    call("owner.near", 1);
    assert_eq!(send(&mut contract, "owner.near", 1), Some(ContractError::SameAccount));
    assert_eq!(send(&mut contract, "alice.near", 0), Some(ContractError::ZeroAmount));
    assert_eq!(send(&mut contract, "alice.near", SUPPLY + 1), Some(ContractError::NotEnoughBalance));
    assert_eq!(send(&mut contract, "bob.near", 1), Some(ContractError::ReceiverNotRegistered));
    assert_eq!(send(&mut contract, "alice.near", 300), None);
    assert_eq!(contract.ft_balance_of(&id("alice.near")), 300);
    assert_eq!(contract.ft_balance_of(&id("owner.near")), 700);
    call("bob.near", 1);
    assert_eq!(send(&mut contract, "alice.near", 1), Some(ContractError::SenderNotRegistered));
    call("owner.near", 0);
    contract.freeze_account(id("alice.near")).unwrap();
    call("owner.near", 1);
    assert_eq!(send(&mut contract, "alice.near", 1), Some(ContractError::ReceiverFrozen));
    call("alice.near", 1);
    assert_eq!(send(&mut contract, "owner.near", 1), Some(ContractError::SenderFrozen));
    call("owner.near", 0);
    contract.pause_contract().unwrap();
    call("alice.near", 1);
    assert_eq!(send(&mut contract, "owner.near", 1), Some(ContractError::Paused));
    assert_eq!(contract.ft_balance_of(&id("alice.near")), 300);
}

#[test]
fn refusals_are_told_in_words() {
    let message = |error: ContractError| error.message("alice.near", "bob.near");
    assert_eq!(message(ContractError::SenderNotRegistered), "The account alice.near is not registered");
    assert_eq!(message(ContractError::ReceiverNotRegistered), "The account bob.near is not registered");
    assert_eq!(message(ContractError::NotWasm), "code is not a WASM module (expected the \\0asm magic bytes)");
    assert_eq!(message(ContractError::OneYocto), "Requires attached deposit of exactly 1 yoctoNEAR");
}

#[test]
fn a_receiver_is_told_what_was_sent() {
    let mut contract = setup();
    register(&mut contract, "dex.near");
    call("owner.near", 1);
    let told = contract
        .ft_transfer_call(id("dex.near"), 40, Some("memo".to_string()), "swap".to_string())
        .unwrap();
    assert_eq!(told.sender_id, id("owner.near"));
    assert_eq!(told.receiver_id, id("dex.near"));
    assert_eq!(told.amount, 40);
    assert_eq!(told.msg, "swap");
    assert_eq!(contract.ft_balance_of(&id("dex.near")), 40);
    assert!(get_logs()[0].contains("\"event\":\"ft_transfer\""));
    assert!(get_logs()[0].contains("\"memo\":\"memo\""));
}

fn sent(amount: u128) -> Contract {
    let mut contract = setup();
    register(&mut contract, "alice.near");
    register(&mut contract, "dex.near");
    call("owner.near", 1);
    contract.ft_transfer(id("alice.near"), 100, None).unwrap();
    call("alice.near", 1);
    contract
        .ft_transfer_call(id("dex.near"), amount, None, String::new())
        .unwrap();
    contract
}

fn resolve(contract: &mut Contract, amount: u128, result: PromiseResult) -> Result<u128, ContractError> {
    call_with("cnear.near", 0, vec![result]);
    contract.ft_resolve_transfer(id("alice.near"), id("dex.near"), amount)
}

#[test]
fn what_a_receiver_did_not_use_goes_back() {
    let mut contract = sent(60);
    assert_eq!(resolve(&mut contract, 60, PromiseResult::Successful(b"\"25\"".to_vec())), Ok(35));
    assert_eq!(contract.ft_balance_of(&id("alice.near")), 65);
    assert_eq!(contract.ft_balance_of(&id("dex.near")), 35);
    assert_eq!(contract.ft_total_supply(), SUPPLY);

    let mut none = sent(60);
    assert_eq!(resolve(&mut none, 60, PromiseResult::Successful(b"\"0\"".to_vec())), Ok(60));
    assert_eq!(none.ft_balance_of(&id("dex.near")), 60);
}

#[test]
fn a_reply_that_failed_or_is_no_amount_gives_all_back() {
    for result in [
        PromiseResult::Failed,
        PromiseResult::Successful(b"nonsense".to_vec()),
        PromiseResult::Successful(b"\"999\"".to_vec()),
    ] {
        let mut contract = sent(60);
        assert_eq!(resolve(&mut contract, 60, result), Ok(0));
        assert_eq!(contract.ft_balance_of(&id("alice.near")), 100);
        assert_eq!(contract.ft_balance_of(&id("dex.near")), 0);
    }
}

#[test]
fn no_more_goes_back_than_the_receiver_holds() {
    let mut contract = sent(60);
    call("dex.near", 1);
    contract.ft_transfer(id("owner.near"), 50, None).unwrap();
    assert_eq!(resolve(&mut contract, 60, PromiseResult::Failed), Ok(50));
    assert_eq!(contract.ft_balance_of(&id("alice.near")), 50);
    assert_eq!(contract.ft_balance_of(&id("dex.near")), 0);
}

#[test]
fn what_would_go_back_to_a_closed_account_is_burned() {
    let mut contract = sent(100);
    call("alice.near", 1);
    assert_eq!(contract.storage_unregister(None), Ok(true));
    assert_eq!(resolve(&mut contract, 100, PromiseResult::Successful(b"\"30\"".to_vec())), Ok(100));
    assert_eq!(contract.ft_total_supply(), SUPPLY - 30);
    assert_eq!(contract.ft_balance_of(&id("dex.near")), 70);
    assert_eq!(get_logs().last().unwrap(), "Account @alice.near burned 30");
}

#[test]
fn a_transfer_is_settled_only_in_its_callback() {
    let mut contract = sent(60);
    call("cnear.near", 0);
    assert_eq!(
        contract.ft_resolve_transfer(id("alice.near"), id("dex.near"), 60),
        Err(ContractError::NoPromiseResult)
    );
    assert_eq!(contract.ft_balance_of(&id("dex.near")), 60);
}

#[test]
fn registering_gives_back_what_is_too_much() {
    let mut contract = setup();
    let cost = contract.storage_balance_bounds().min;
    assert_eq!(contract.storage_balance_bounds().max, Some(cost));
    assert_eq!(cost % 10_000_000_000_000_000_000, 0);
    call("alice.near", cost - 1);
    assert_eq!(contract.storage_deposit(None, None), Err(ContractError::DepositTooSmall));
    call("alice.near", cost + 5);
    let balance = contract.storage_deposit(None, Some(true)).unwrap();
    assert_eq!((balance.total, balance.available), (cost, 0));
    assert_eq!(transfers(&get_created_receipts()), vec![("alice.near".to_string(), 5)]);
    call("bob.near", cost);
    contract.storage_deposit(Some(id("alice.near")), None).unwrap();
    assert_eq!(transfers(&get_created_receipts()), vec![("bob.near".to_string(), cost)]);
    assert_eq!(get_logs(), vec!["The account is already registered, refunding the deposit".to_string()]);
    assert_eq!(contract.storage_balance_of(&id("bob.near")), None);
}

#[test]
fn storage_deposits_have_nothing_to_withdraw() {
    let mut contract = setup();
    register(&mut contract, "alice.near");
    call("alice.near", 0);
    assert_eq!(contract.storage_withdraw(None), Err(ContractError::OneYocto));
    call("alice.near", 1);
    assert_eq!(contract.storage_withdraw(Some(1)), Err(ContractError::WithdrawTooMuch));
    assert_eq!(contract.storage_withdraw(Some(0)).unwrap().available, 0);
    assert!(contract.storage_withdraw(None).is_ok());
    call("bob.near", 1);
    assert_eq!(contract.storage_withdraw(None), Err(ContractError::CallerNotRegistered));
}

#[test]
fn closing_an_account_pays_its_deposit_out() {
    let mut contract = setup();
    register(&mut contract, "alice.near");
    let cost = contract.storage_balance_bounds().min;
    call("alice.near", 0);
    assert_eq!(contract.storage_unregister(None), Err(ContractError::OneYocto));
    call("alice.near", 1);
    assert_eq!(contract.storage_unregister(Some(true)), Ok(true));
    assert_eq!(transfers(&get_created_receipts()), vec![("alice.near".to_string(), cost + 1)]);
    assert_eq!(get_logs(), vec!["Closed @alice.near with 0".to_string()]);
    call("alice.near", 1);
    assert_eq!(contract.storage_unregister(None), Ok(false));
    assert!(get_created_receipts().is_empty());
    assert_eq!(get_logs(), vec!["The account alice.near is not registered".to_string()]);
    call("owner.near", 1);
    assert_eq!(contract.storage_unregister(Some(true)), Err(ContractError::HoldsBalance));
}

#[test]
fn events_are_logged_as_json() {
    let event = ContractEvent::ForceFtTransfer {
        by: id("owner.near"),
        sender_id: id("alice.near"),
        receiver_id: id("bob.near"),
        amount: 12,
        memo: Some("a \"memo\"\n".to_string()),
    };
    assert_eq!(
        event.log_line(),
        "EVENT_JSON:{\"standard\":\"cnear\",\"version\":\"1.0.0\",\"event\":\"force_ft_transfer\",\"data\":{\"by\":\"owner.near\",\"sender_id\":\"alice.near\",\"receiver_id\":\"bob.near\",\"amount\":\"12\",\"memo\":\"a \\\"memo\\\"\\n\"}}"
    );
    let cancelled = ContractEvent::OwnershipTransferCancelled {
        by: id("owner.near"),
        pending_owner: None,
    };
    assert!(cancelled.log_line().ends_with("\"data\":{\"by\":\"owner.near\",\"pending_owner\":null}}"));
}

#[test]
fn callers_can_be_named() {
    let mut contract = setup();
    let owner = id("owner.near");
    let eve = id("eve.near");
    assert_eq!(contract.pause_by(&eve).err(), Some(ContractError::NotOwner));
    assert!(matches!(contract.pause_by(&owner), Ok(ContractEvent::Paused { by }) if by == owner));
    assert!(contract.is_paused());
    assert_eq!(contract.owner_accept_by(&eve).err(), Some(ContractError::NotPendingOwner));
    contract.owner_set_by(&owner, eve.clone()).unwrap();
    contract.owner_accept_by(&eve).unwrap();
    assert!(contract.is_owner(&eve) && !contract.is_owner(&owner));
    assert_eq!(contract.unpause_by(&owner).err(), Some(ContractError::NotOwner));
    assert!(get_logs().len() == 1);
}

#[test]
fn frozen_accounts_lie_under_their_prefix() {
    let mut contract = setup();
    call("owner.near", 0);
    contract.freeze_account(id("alice.near")).unwrap();
    let mut key = StorageKey::FrozenAccounts.prefix();
    assert_eq!(key, vec![2]);
    key.extend_from_slice(&10u32.to_le_bytes());
    key.extend_from_slice(b"alice.near");
    assert!(near_sdk::env::storage_has_key(&key));
    let mut parts = contract.into_parts();
    parts.frozen_accounts = FrozenAccounts::open();
    let mut reopened = Contract::from_parts(parts);
    assert!(reopened.is_frozen(&id("alice.near")));
    reopened.unfreeze_account(id("alice.near")).unwrap();
    assert!(!near_sdk::env::storage_has_key(&key));
}

fn ledger_event(name: &str, data: &str) -> String {
    format!(
        "EVENT_JSON:{{\"standard\":\"nep141\",\"version\":\"1.0.0\",\"event\":\"{name}\",\"data\":[{data}]}}"
    )
}

#[test]
fn a_forced_transfer_logs_the_transfer_before_its_own_event() {
    let mut contract = setup();
    register(&mut contract, "alice.near");
    call("owner.near", 1);
    contract
        .force_ft_transfer(id("owner.near"), id("alice.near"), 12, Some("why".to_string()))
        .unwrap();
    let logs = get_logs();
    assert_eq!(logs.len(), 2);
    assert_eq!(
        logs[0],
        ledger_event(
            "ft_transfer",
            "{\"old_owner_id\":\"owner.near\",\"new_owner_id\":\"alice.near\",\"amount\":\"12\",\"memo\":\"why\"}"
        )
    );
    assert!(logs[1].contains("\"event\":\"force_ft_transfer\""));
}

#[test]
fn a_refund_is_logged_as_a_transfer_back() {
    let mut contract = sent(60);
    resolve(&mut contract, 60, PromiseResult::Successful(b"\"25\"".to_vec())).unwrap();
    assert_eq!(
        get_logs(),
        vec![ledger_event(
            "ft_transfer",
            "{\"old_owner_id\":\"dex.near\",\"new_owner_id\":\"alice.near\",\"amount\":\"25\",\"memo\":\"refund\"}"
        )]
    );
}

#[test]
fn a_refund_to_a_closed_account_is_logged_as_burned() {
    let mut contract = sent(100);
    call("alice.near", 1);
    contract.storage_unregister(None).unwrap();
    resolve(&mut contract, 100, PromiseResult::Successful(b"\"30\"".to_vec())).unwrap();
    assert_eq!(
        get_logs(),
        vec![
            "The account of the sender was deleted".to_string(),
            ledger_event(
                "ft_burn",
                "{\"owner_id\":\"dex.near\",\"amount\":\"30\",\"memo\":\"refund\"}"
            ),
            "Account @alice.near burned 30".to_string(),
        ]
    );
}

#[test]
fn a_callback_is_one_with_promise_results() {
    let mut contract = sent(60);
    call("cnear.near", 0);
    assert!(Callback::current().is_none());
    call_with("cnear.near", 0, vec![PromiseResult::Failed]);
    let callback = Callback::current().unwrap();
    assert_eq!(contract.settle(&callback, &id("alice.near"), &id("dex.near"), 60), Ok((0, 0)));
}

#[test]
fn settling_is_refused_only_for_what_goes_back() {
    let mut contract = setup();
    register(&mut contract, "alice.near");
    register(&mut contract, "dex.near");
    let mut parts = contract.into_parts();
    parts.token.accounts.insert(&"alice.near".parse().unwrap(), &(u128::MAX - 30));
    parts.token.accounts.insert(&"dex.near".parse().unwrap(), &100);
    let mut contract = Contract::from_parts(parts);
    assert_eq!(
        resolve(&mut contract, 100, PromiseResult::Successful(b"\"31\"".to_vec())),
        Err(ContractError::SenderBalanceOverflow)
    );
    assert_eq!(
        resolve(&mut contract, 100, PromiseResult::Successful(b"\"30\"".to_vec())),
        Ok(70)
    );
    assert_eq!(contract.ft_balance_of(&id("alice.near")), u128::MAX);
}

#[test]
fn a_reply_says_what_was_not_used() {
    for (reply, unused) in [
        (PromiseResult::Successful(b"\"25\"".to_vec()), 25),
        (PromiseResult::Successful(b"\"340282366920938463463374607431768211455\"".to_vec()), 60),
        (PromiseResult::Successful(b"\"+000340282366920938463463374607431768211455\"".to_vec()), 60),
        (PromiseResult::Successful(b"25".to_vec()), 60),
        (PromiseResult::Failed, 60),
    ] {
        setup();
        call_with("cnear.near", 0, vec![reply]);
        assert_eq!(Callback::current().unwrap().unused(60), unused);
    }
}

#[test]
fn an_upgrade_goes_to_the_account_that_is_named() {
    let mut contract = setup();
    call("owner.near", 1);
    let code = vec![0, 0x61, 0x73, 0x6d, 1];
    assert!(contract
        .upgrade_by(&id("alice.near"), 1, &id("cnear.near"), code.clone(), None)
        .is_err());
    contract
        .upgrade_by(&id("owner.near"), 1, &id("cnear.near"), code.clone(), None)
        .ok()
        .unwrap()
        .detach();
    let receipts = get_created_receipts();
    assert_eq!(receipts.len(), 1);
    assert_eq!(receipts[0].receiver_id.as_str(), "cnear.near");
    assert!(matches!(&receipts[0].actions[0], MockAction::DeployContract { code: sent, .. } if *sent == code));
}
