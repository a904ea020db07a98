use cnear::account::AccountId;
use cnear::deploy::actions::{
    asks_for_state, begin, check_account, conclude, confirm, confirm_mainnet, created_account,
    deploy, deploy_contracts, ensure_account, needs_confirmation, preflight, Course, Phase,
    SignerRole, StepResult,
};
use cnear::deploy::cli::{translate_legacy_args, DeployArgs, Network};
use cnear::deploy::config::{build_config, check_arguments, read_wasm, DeploymentConfig, WasmFile};
use cnear::deploy::credentials::{
    credential_path, credentials_dir, list_credentials, load_credentials, parse_account_id,
    persist_generated_credentials, select_signer, selected_credentials, validate_private_file_mode,
    CredentialFile, Credentials, FileState, SignerSource,
};
use cnear::deploy::nonces::NonceTracker;
use cnear::deploy::prompt::{
    parse_network, parse_with_default, prompt_with_default, run, summary_lines, Replies,
};
use cnear::deploy::rpc::{
    access_key, account, full_access, has_contract_state, verify_ownership, AccessKeyPermission,
    AccessKeyView, AccountView, BlockReference, CryptoHash, QueryError, QueryReply, RpcSnapshot,
};
use cnear::deploy::sending::{SendEvent, SendStage};
use cnear::deploy::transaction::{
    call_action, create_account_actions, delete_action, deploy_actions,
    is_confirmed_transaction_failure, is_pre_broadcast_near_api_error, is_retryable_status_error,
    is_unresolved_transaction, reconcile_all, settle_nonce, submit, Action, Broadcast,
    ConfirmedTransactionFailure, PostSubmit, Reconciliation, SendFailure, StatusFailure,
    StatusReply, SubmissionOutcome, SubmitStep, Transaction, TransactionError,
    UnresolvedTransaction,
};
use cnear::near_amount::{TokenAmount, ONE_NEAR};
use cnear::secret_key::SecretKey;
use near_crypto::KeyType;

fn id(text: &str) -> AccountId {
    AccountId::parse(text).unwrap()
}

fn argv(words: &[&str]) -> Vec<String> {
    words.iter().map(|word| word.to_string()).collect()
}

fn key(seed: &str) -> near_crypto::SecretKey {
    near_crypto::SecretKey::from_seed(KeyType::ED25519, seed)
}

fn credentials(seed: &str) -> Credentials {
    Credentials {
        account_id: id("alice.testnet"),
        secret_key: SecretKey::parse(&key(seed).to_string()).unwrap(),
    }
}

fn near(amount: u128) -> TokenAmount {
    TokenAmount { yocto: amount * ONE_NEAR }
}

fn hash(byte: u8) -> CryptoHash {
    CryptoHash { bytes: [byte; 32] }
}

#[test]
fn network_subdirs_match_credentials_layout() {
    assert_eq!(Network::Testnet.subdir(), "testnet");
    assert_eq!(Network::Mainnet.subdir(), "mainnet");
}

#[test]
fn network_rpc_urls_are_stable() {
    assert_eq!(Network::Testnet.rpc_url(), "https://rpc.testnet.near.org");
    assert_eq!(Network::Mainnet.rpc_url(), "https://rpc.mainnet.near.org");
}

#[test]
fn cli_defaults_are_sane() {
    let args = DeployArgs::defaults();
    assert_eq!(args.network, Network::Testnet);
    assert_eq!(args.token_symbol, "cNEAR");
    assert_eq!(args.token_decimals, 24);
    assert_eq!(args.total_supply, 1_000_000_000_000_000);
    assert_eq!(args.initial_price, ONE_NEAR);
    assert_eq!(args.initial_balance, 10 * ONE_NEAR);
}

#[test]
fn cli_accepts_near_token_amounts() {
    let read = |text: &str| parse_with_default(text, near(0)).unwrap().yocto;
    assert_eq!(read("0.000000001 NEAR"), 1_000_000_000_000_000);
    assert_eq!(read("1 NEAR"), ONE_NEAR);
    assert_eq!(read("0.5 N"), ONE_NEAR / 2);
}

#[test]
fn legacy_test_maps_to_ephemeral_testnet() {
    assert_eq!(
        translate_legacy_args(argv(&["cnear-deploy", "test"])),
        argv(&["cnear-deploy", "deploy", "--network", "testnet", "--test-mode"])
    );
    assert_eq!(
        translate_legacy_args(argv(&["cnear-deploy", "test", "alice.testnet", "--dry-run"])),
        argv(&[
            "cnear-deploy",
            "deploy",
            "--network",
            "testnet",
            "--test-mode",
            "--signer-id",
            "alice.testnet",
            "--dry-run"
        ])
    );
}

#[test]
fn legacy_network_words_map_to_typed_network() {
    assert_eq!(
        translate_legacy_args(argv(&["cnear-deploy", "testnet"])),
        argv(&["cnear-deploy", "deploy", "--network", "testnet"])
    );
    assert_eq!(
        translate_legacy_args(argv(&["cnear-deploy", "mainnet"])),
        argv(&["cnear-deploy", "deploy", "--network", "mainnet"])
    );
    assert_eq!(
        translate_legacy_args(argv(&["cnear-deploy", "mainnet", "bob.near", "--dry-run"])),
        argv(&[
            "cnear-deploy",
            "deploy",
            "--network",
            "mainnet",
            "--signer-id",
            "bob.near",
            "--dry-run"
        ])
    );
}

#[test]
fn legacy_flags_and_subcommands_pass_through() {
    // Explicit subcommands are untouched.
    assert_eq!(
        translate_legacy_args(argv(&["cnear-deploy", "clean-accounts"])),
        argv(&["cnear-deploy", "clean-accounts"])
    );
    // Aliases of clean-accounts also pass through untouched.
    assert_eq!(
        translate_legacy_args(argv(&["cnear-deploy", "clean-up"])),
        argv(&["cnear-deploy", "clean-up"])
    );
    assert_eq!(
        translate_legacy_args(argv(&["cnear-deploy", "deploy", "--yes"])),
        argv(&["cnear-deploy", "deploy", "--yes"])
    );
    // A leading flag defaults to the deploy subcommand.
    assert_eq!(
        translate_legacy_args(argv(&["cnear-deploy", "--network", "mainnet", "--yes"])),
        argv(&["cnear-deploy", "deploy", "--network", "mainnet", "--yes"])
    );
    // A bare account without a network word is treated as the signer.
    assert_eq!(
        translate_legacy_args(argv(&["cnear-deploy", "alice.testnet"])),
        argv(&["cnear-deploy", "deploy", "--signer-id", "alice.testnet"])
    );
    // No arguments at all are passed through.
    assert_eq!(translate_legacy_args(argv(&["cnear-deploy"])), argv(&["cnear-deploy"]));
}

#[test]
fn only_the_first_bare_word_names_the_signer() {
    assert_eq!(
        translate_legacy_args(argv(&["p", "testnet", "--yes", "a.near", "b.near"])),
        argv(&["p", "deploy", "--network", "testnet", "--yes", "--signer-id", "a.near", "b.near"])
    );
    assert_eq!(
        translate_legacy_args(argv(&["p", "testnet", "--signer-id", "a.near"])),
        argv(&["p", "deploy", "--network", "testnet", "--signer-id", "a.near"])
    );
    let once = translate_legacy_args(argv(&["p", "test", "a.near"]));
    assert_eq!(translate_legacy_args(once.clone()), once);
}

#[test]
fn wasm_validation_checks_magic_and_hash() {
    let artifact = read_wasm("file", WasmFile::Read(8, b"\0asm\x01\0\0\0".to_vec())).unwrap();
    assert_eq!(artifact.bytes.len(), 8);
    assert_eq!(artifact.sha256.len(), 64);
    assert_eq!(
        artifact.sha256,
        "93a44bbb96c751218e4c00d479e4c14358122a389acca16205b1e4d0dc5f9476"
    );
}

#[test]
fn wasm_validation_rejects_non_wasm() {
    assert!(read_wasm("file", WasmFile::Read(17, b"not wasm bytes...".to_vec())).is_err());
}

#[test]
fn code_that_cannot_be_used_says_why() {
    let fail = |file: WasmFile| read_wasm("f", file).unwrap_err();
    assert_eq!(fail(WasmFile::Missing), "cannot stat WASM f");
    assert_eq!(fail(WasmFile::NotAFile), "WASM path is not a regular file: f");
    assert_eq!(fail(WasmFile::Read(7, b"\0asm123".to_vec())), "WASM file is too small: f");
    assert_eq!(fail(WasmFile::Unreadable(3)), "WASM file is too small: f");
    assert_eq!(fail(WasmFile::Unreadable(8)), "cannot read WASM f");
    assert_eq!(fail(WasmFile::Read(8, b"wasm1234".to_vec())), "file is not a WebAssembly binary: f");
    assert_eq!(fail(WasmFile::Read(8, Vec::new())), "file is not a WebAssembly binary: f");
}

#[test]
fn account_ids_are_strictly_validated() {
    assert!(parse_account_id("alice.testnet", "signer").is_ok());
    assert!(parse_account_id("ALICE.testnet", "signer").is_err());
    assert!(parse_account_id("not an account", "signer").is_err());
    assert_eq!(
        parse_account_id("A", "token").unwrap_err(),
        "invalid token account ID: \"A\""
    );
    for text in ["ab", "a-b_c.d", "0123456789012345678901234567890123456789012345678901234567890123"] {
        assert!(parse_account_id(text, "signer").is_ok(), "{text}");
    }
    for text in ["", "a", ".a", "a.", "a..b", "a-_b", "ä.near", "01234567890123456789012345678901234567890123456789012345678901234"] {
        assert!(parse_account_id(text, "signer").is_err(), "{text}");
    }
}

fn file(public: &near_crypto::SecretKey, private: &near_crypto::SecretKey) -> CredentialFile {
    CredentialFile {
        account_id: "alice.testnet".to_string(),
        public_key: public.public_key().to_string(),
        private_key: private.to_string(),
    }
}

#[test]
fn credentials_require_matching_keys_and_secure_permissions() {
    let secret = key("credential-test");
    let other = key("credential-mismatch");
    let account_id = id("alice.testnet");
    let load = |state: FileState| load_credentials("f", &state, Some(&account_id));

    let loaded = load(FileState::Read(0o100600, file(&secret, &secret))).unwrap();
    assert_eq!(loaded.account_id, account_id);
    assert_eq!(loaded.secret_key.as_str(), secret.to_string());

    assert_eq!(
        load(FileState::Read(0o100600, file(&other, &secret))).err().unwrap(),
        "credential public_key does not match private_key"
    );
    assert_eq!(
        load(FileState::Read(0o100644, file(&secret, &secret))).err().unwrap(),
        "credential file f must have permissions 600, found 644"
    );
    assert_eq!(
        load_credentials("f", &FileState::Read(0o600, file(&secret, &secret)), Some(&id("bob.near")))
            .err()
            .unwrap(),
        "credential account_id does not match requested signer"
    );
}

#[test]
fn credentials_reject_symlinks() {
    let load = |state: FileState| load_credentials("f", &state, None).err().unwrap();
    assert_eq!(load(FileState::Symlink), "credential path must not be a symlink: f");
    assert_eq!(load(FileState::Missing), "credential file not found: f");
    assert_eq!(load(FileState::NotAFile), "credential path is not a regular file: f");
    assert_eq!(load(FileState::Unreadable(0o600)), "cannot read credential file f");
    assert_eq!(load(FileState::Malformed(0o600)), "invalid NEAR credential JSON");
    assert_eq!(
        load(FileState::Malformed(0o777)),
        "credential file f must have permissions 600, found 777"
    );
    let mut bad = file(&key("a"), &key("a"));
    bad.account_id = "Alice".to_string();
    assert_eq!(load(FileState::Read(0o600, bad)), "invalid NEAR credential JSON");
    let mut unsigned = file(&key("a"), &key("a"));
    unsigned.private_key = "secret".to_string();
    assert_eq!(load(FileState::Read(0o600, unsigned)), "invalid NEAR credential JSON");
}

#[test]
fn a_public_key_may_leave_its_prefix_out() {
    let secret = key("prefix");
    let mut short = file(&secret, &secret);
    short.public_key = short.public_key.replace("ed25519:", "");
    assert!(load_credentials("f", &FileState::Read(0o600, short), None).is_ok());
}

#[test]
fn permissions_are_compared_without_the_file_type() {
    assert!(validate_private_file_mode("f", 0o100600, 0o600).is_ok());
    assert_eq!(
        validate_private_file_mode("f", 0o100007, 0o640).unwrap_err(),
        "credential file f must have permissions 640, found 007"
    );
}

#[test]
fn credentials_are_found_by_network_and_signer() {
    let home = Some("/home/op".to_string());
    assert_eq!(
        credentials_dir(Network::Testnet, &None, &home).unwrap(),
        "/home/op/.near-credentials/testnet"
    );
    assert_eq!(
        credentials_dir(Network::Mainnet, &Some("/k".to_string()), &None).unwrap(),
        "/k/mainnet"
    );
    assert_eq!(credentials_dir(Network::Mainnet, &None, &None).unwrap_err(), "HOME is not set");
    let alice = id("alice.near");
    let dir = Ok("/k".to_string());
    assert_eq!(credential_path(&dir, Some(&alice), None).unwrap(), "/k/alice.near.json");
    assert_eq!(credential_path(&dir, Some(&alice), Some("/x.json")).unwrap(), "/x.json");
    assert_eq!(
        credential_path(&dir, None, None).unwrap_err(),
        "signer ID is required for implicit credential path"
    );
    let homeless = Err("HOME is not set".to_string());
    assert_eq!(credential_path(&homeless, Some(&alice), Some("/x")).unwrap(), "/x");
    assert_eq!(credential_path(&homeless, Some(&alice), None).unwrap_err(), "HOME is not set");
    assert!(select_signer(&homeless, None, Some("/x")).is_ok());
    assert_eq!(select_signer(&homeless, None, None).err().unwrap(), "HOME is not set");
}

#[test]
fn a_signer_is_selected_only_where_none_is_named() {
    let dir = Ok("/k".to_string());
    assert!(matches!(select_signer(&dir, None, None), Ok(SignerSource::Selection)));
    match select_signer(&dir, Some("a.near"), None) {
        Ok(SignerSource::File(path, Some(expected))) => {
            assert_eq!(path, "/k/a.near.json");
            assert_eq!(expected.as_str(), "a.near");
        }
        _ => panic!("the signer's own file is used"),
    }
    assert!(matches!(select_signer(&dir, None, Some("/x")), Ok(SignerSource::File(path, None)) if path == "/x"));
    assert_eq!(
        select_signer(&dir, Some("A"), None).err().unwrap(),
        "invalid signer account ID: \"A\""
    );
    let listed = list_credentials("/k", &argv(&["b.json", "a.json", "c.txt"])).unwrap();
    assert_eq!(listed, argv(&["a.json", "b.json"]));
    assert_eq!(
        list_credentials("/k", &argv(&["c.txt", ".json"])).unwrap_err(),
        "no JSON credentials found in /k"
    );
    assert_eq!(selected_credentials(&listed, "").unwrap(), "a.json");
    assert_eq!(selected_credentials(&listed, "0").unwrap(), "a.json");
    assert_eq!(selected_credentials(&listed, " 2\n").unwrap(), "b.json");
    assert_eq!(selected_credentials(&listed, "two").unwrap(), "a.json");
    assert_eq!(selected_credentials(&listed, "3").unwrap_err(), "invalid signer selection");
}

#[test]
fn generated_credentials_read_back() {
    let made = credentials("generated");
    let text = persist_generated_credentials(&made);
    let value: serde_json::Value = serde_json::from_str(&text).unwrap();
    let read = CredentialFile {
        account_id: value["account_id"].as_str().unwrap().to_string(),
        public_key: value["public_key"].as_str().unwrap().to_string(),
        private_key: value["private_key"].as_str().unwrap().to_string(),
    };
    let back = load_credentials("f", &FileState::Read(0o600, read), Some(&made.account_id)).unwrap();
    assert_eq!(back.secret_key.as_str(), made.secret_key.as_str());
    assert_eq!(text, serde_json::to_string_pretty(&value).unwrap());
}

#[test]
fn network_choice_parses() {
    assert_eq!(parse_network("").unwrap(), Network::Testnet);
    assert_eq!(parse_network("1").unwrap(), Network::Testnet);
    assert_eq!(parse_network("2").unwrap(), Network::Mainnet);
    assert!(parse_network("3").is_err());
    assert!(parse_network("testnet").is_err());
    assert_eq!(
        parse_network("3").unwrap_err(),
        "invalid network choice: \"3\" (choose 1 or 2)"
    );
}

#[test]
fn parse_with_default_falls_back_on_blank_input() {
    assert_eq!(parse_with_default("", 24_u8).unwrap(), 24);
    assert_eq!(
        parse_with_default("  ", "cNEAR".to_string()).unwrap(),
        "cNEAR"
    );
}

#[test]
fn parse_with_default_uses_near_token_units() {
    assert_eq!(parse_with_default("10 NEAR", near(1)).unwrap(), near(10));
    assert_eq!(
        parse_with_default("0.5 N", near(1)).unwrap(),
        TokenAmount { yocto: ONE_NEAR / 2 }
    );
    assert!(parse_with_default("not an amount", near(1)).is_err());
    assert_eq!(parse_with_default("  3 yoctoNEAR ", near(1)).unwrap().yocto, 3);
    assert_eq!(prompt_with_default(" 7 ", 24_u8).unwrap(), 7);
    assert_eq!(
        prompt_with_default(" 256 ", 24_u8).unwrap_err(),
        "invalid value \"256\": number too large to fit in target type"
    );
    assert_eq!(
        parse_with_default("5 \"UAH\"", near(1)).unwrap_err(),
        "invalid value \"5 \\\"UAH\\\"\": invalid token unit: 5 \"UAH\""
    );
}

fn replies() -> Replies {
    Replies {
        controller_id: String::new(),
        token_id: String::new(),
        token_name: String::new(),
        token_symbol: String::new(),
        token_decimals: String::new(),
        total_supply: String::new(),
        initial_price: String::new(),
        initial_balance: String::new(),
    }
}

#[test]
fn a_blank_session_gives_the_defaults() {
    let args = run(Network::Mainnet, &id("alice.near"), &replies()).unwrap();
    let defaults = DeployArgs::defaults();
    assert_eq!(args.network, Network::Mainnet);
    assert_eq!(args.signer_id.as_deref(), Some("alice.near"));
    assert_eq!(args.controller_id.as_deref(), Some("controller.alice.near"));
    assert_eq!(args.token_id.as_deref(), Some("token.alice.near"));
    assert_eq!(args.token_name, defaults.token_name);
    assert_eq!(args.total_supply, defaults.total_supply);
    assert_eq!(args.initial_balance, defaults.initial_balance);
    let lines = summary_lines(&args);
    assert_eq!(lines.len(), 11);
    assert_eq!(lines[1], "network:         Mainnet");
    assert_eq!(lines[8], "total supply:    <0.001 NEAR (1000000000000000 yoctoNEAR)");
    assert_eq!(lines[10], "initial balance: 10.00 NEAR (10000000000000000000000000 yoctoNEAR)");
}

#[test]
fn a_session_refuses_the_first_wrong_answer() {
    let mut wrong = replies();
    wrong.token_decimals = "many".to_string();
    wrong.total_supply = "much".to_string();
    assert_eq!(
        run(Network::Testnet, &id("alice.near"), &wrong).unwrap_err(),
        "invalid value \"many\": invalid digit found in string"
    );
    wrong.token_decimals = "8".to_string();
    assert_eq!(
        run(Network::Testnet, &id("alice.near"), &wrong).unwrap_err(),
        "invalid value \"much\": invalid token unit: much"
    );
    wrong.total_supply = "1.5 NEAR".to_string();
    let args = run(Network::Testnet, &id("alice.near"), &wrong).unwrap();
    assert_eq!(args.token_decimals, 8);
    assert_eq!(args.total_supply, 3 * ONE_NEAR / 2);
}

fn wasm(code: &[u8]) -> WasmFile {
    let mut bytes = b"\0asm\x01\0\0\0".to_vec();
    bytes.extend_from_slice(code);
    WasmFile::Read(bytes.len() as u64, bytes)
}

fn config() -> DeploymentConfig {
    build_config(DeployArgs::defaults(), Ok(credentials("config")), wasm(b"c"), wasm(b"t"))
        .unwrap_or_else(|message| panic!("{message}"))
}

#[test]
fn a_configuration_is_put_together() {
    let config = config();
    assert_eq!(config.controller_id.as_str(), "controller.alice.testnet");
    assert_eq!(config.token_id.as_str(), "token.alice.testnet");
    assert_eq!(config.token_name, "Controlled NEAR");
    assert_eq!(config.token_wasm.bytes.len(), 9);
    assert_ne!(config.token_wasm.sha256, config.controller_wasm.sha256);
}

#[test]
fn a_configuration_tells_the_first_thing_that_is_wrong() {
    let fail = |change: fn(&mut DeployArgs)| {
        let mut args = DeployArgs::defaults();
        change(&mut args);
        build_config(args, Ok(credentials("config")), wasm(b"c"), WasmFile::Missing).err().unwrap()
    };
    assert_eq!(fail(|args| args.token_decimals = 0), "token decimals must be between 1 and 255");
    assert_eq!(
        fail(|args| args.token_symbol = " ".to_string()),
        "token name and symbol must not be empty"
    );
    assert_eq!(
        fail(|args| args.controller_id = Some("C".to_string())),
        "invalid controller account ID: \"C\""
    );
    assert_eq!(
        fail(|args| args.token_id = Some("T".to_string())),
        "invalid token account ID: \"T\""
    );
    assert_eq!(fail(|args| args.total_supply = 0), "total supply must be greater than zero");
    assert_eq!(fail(|args| args.initial_price = 0), "initial price must be greater than zero");
    assert_eq!(fail(|_| {}), "cannot stat WASM target/near/fungible_token.wasm");
    assert_eq!(
        build_config(DeployArgs::defaults(), Err("no signer".to_string()), wasm(b"c"), wasm(b"t"))
            .err()
            .unwrap(),
        "no signer"
    );
    assert!(check_arguments(&DeployArgs::defaults()).is_ok());
}

#[test]
fn snapshot_uses_a_specific_block_hash() {
    let snapshot = RpcSnapshot { block_hash: hash(7) };
    match snapshot.block_reference() {
        BlockReference::Hash(block) => assert_eq!(block.bytes, [7; 32]),
        BlockReference::Final => panic!("a snapshot names its block"),
    }
}

#[test]
fn full_access_detects_full_access_keys() {
    assert!(full_access(&AccessKeyPermission::FullAccess));
    assert!(!full_access(&AccessKeyPermission::FunctionCall {
        allowance: None,
        receiver_id: "receiver.testnet".to_string(),
        method_names: vec![],
    }));
}

fn view(byte: u8) -> AccountView {
    AccountView { amount: "1".to_string(), locked: "0".to_string(), code_hash: hash(byte) }
}

#[test]
fn only_an_unknown_account_is_absent() {
    assert!(account(Ok(QueryReply::Account(view(0)))).unwrap().is_some());
    assert!(account(Err(QueryError::UnknownAccount)).unwrap().is_none());
    assert_eq!(
        account(Err(QueryError::Other("timeout".to_string()))).err().unwrap(),
        "NEAR RPC account query failed: timeout"
    );
    assert_eq!(
        account(Ok(QueryReply::Other)).err().unwrap(),
        "RPC returned an unexpected account response"
    );
    assert_eq!(has_contract_state(Ok(QueryReply::State(0))), Ok(false));
    assert_eq!(has_contract_state(Ok(QueryReply::State(2))), Ok(true));
    assert_eq!(has_contract_state(Err(QueryError::NoContractCode)), Ok(false));
    assert_eq!(
        has_contract_state(Err(QueryError::Other("down".to_string()))).unwrap_err(),
        "NEAR RPC contract-state query failed: down"
    );
    assert_eq!(
        access_key(Err(QueryError::UnknownAccount)).err().unwrap(),
        "NEAR RPC access-key query failed"
    );
}

#[test]
fn the_owner_of_the_token_is_verified() {
    let expected = id("controller.near");
    let reply = |bytes: &[u8]| Ok(QueryReply::CallResult(bytes.to_vec()));
    assert!(verify_ownership(&reply(b"\"controller.near\""), &expected).is_ok());
    assert_eq!(
        verify_ownership(&reply(b"\"alice.near\""), &expected).unwrap_err(),
        "ownership verification failed: expected controller.near, got alice.near"
    );
    assert_eq!(
        verify_ownership(&reply(b"\"Alice\""), &expected).unwrap_err(),
        "owner_get returned invalid JSON"
    );
    assert_eq!(
        verify_ownership(&reply(b"7"), &expected).unwrap_err(),
        "owner_get returned invalid JSON"
    );
    assert_eq!(
        verify_ownership(&Ok(QueryReply::Other), &expected).unwrap_err(),
        "RPC returned an unexpected owner response"
    );
    assert_eq!(
        verify_ownership(&Err(QueryError::UnknownAccount), &expected).unwrap_err(),
        "NEAR RPC ownership query failed"
    );
}

#[test]
fn nonce_tracker_reuses_and_advances_local_nonce() {
    let credentials = credentials("nonce-tracker-test");
    let mut tracker = NonceTracker::new();

    assert_eq!(tracker.merge_rpc_nonce(&credentials, 7).unwrap(), 8);
    assert_eq!(tracker.len(), 1);
    assert_eq!(tracker.next_nonce(&credentials), Some(8));
    assert_eq!(tracker.merge_rpc_nonce(&credentials, 7).unwrap(), 8);
    tracker.confirmed(&credentials, 8).unwrap();
    assert_eq!(tracker.next_nonce(&credentials), Some(9));

    // A stale RPC value must not move the local next nonce backwards.
    assert_eq!(tracker.merge_rpc_nonce(&credentials, 7).unwrap(), 9);
    tracker.invalidate(&credentials);
    assert_eq!(tracker.len(), 0);
}

#[test]
fn nonces_are_kept_by_account_and_key() {
    let mut tracker = NonceTracker::new();
    let first = credentials("first");
    let second = credentials("second");
    tracker.merge_rpc_nonce(&first, 1).unwrap();
    tracker.merge_rpc_nonce(&second, 5).unwrap();
    assert_eq!(tracker.len(), 2);
    tracker.invalidate(&first);
    assert_eq!(tracker.next_nonce(&first), None);
    assert_eq!(tracker.next_nonce(&second), Some(6));
    assert_eq!(
        tracker.merge_rpc_nonce(&first, u64::MAX).unwrap_err(),
        "transaction nonce overflow"
    );
    let limited = AccessKeyView {
        nonce: 9,
        permission: AccessKeyPermission::FunctionCall {
            allowance: None,
            receiver_id: String::new(),
            method_names: vec![],
        },
    };
    assert_eq!(
        tracker.refresh(&first, &limited).unwrap_err(),
        "signer access key is not full access"
    );
    let full = AccessKeyView { nonce: 9, permission: AccessKeyPermission::FullAccess };
    assert_eq!(tracker.refresh(&first, &full), Ok(10));
}

#[test]
fn near_api_action_builders_use_typed_values() {
    let public_key = key("near-api-actions-test").public_key().to_string();
    let actions = create_account_actions(1, &public_key);
    assert_eq!(actions.len(), 3);
    assert!(matches!(&actions[0], Action::CreateAccount));
    assert!(matches!(&actions[1], Action::Transfer(1)));
    assert!(matches!(&actions[2], Action::AddFullAccessKey(added) if *added == public_key));
    assert_eq!(deploy_actions(vec![1], None, String::new()).len(), 1);
    let deployed = deploy_actions(vec![1], Some("new"), "{}".to_string());
    assert!(matches!(
        &deployed[1],
        Action::FunctionCall { method_name, deposit: 0, gas: 300_000_000_000_000, .. } if method_name == "new"
    ));
    assert!(matches!(call_action("m", "{}".to_string(), 5), Action::FunctionCall { deposit: 5, .. }));
    assert!(matches!(delete_action(id("a.near")), Action::DeleteAccount(heir) if heir.as_str() == "a.near"));
}

#[test]
fn a_transaction_collects_its_actions() {
    let transaction = Transaction::new(credentials("tx"), id("bob.near"))
        .add_action(Action::CreateAccount)
        .add_action(Action::Transfer(3));
    assert_eq!(transaction.batch.len(), 2);
    let replaced = transaction.actions(vec![Action::Transfer(4)]);
    assert!(matches!(replaced.batch[..], [Action::Transfer(4)]));
    assert_eq!(replaced.receiver.as_str(), "bob.near");
}

#[test]
fn transaction_builder_success_advances_nonce_without_refresh() {
    let credentials = credentials("tx-success-test");
    let mut tracker = NonceTracker::new();
    tracker.merge_rpc_nonce(&credentials, 7).unwrap();
    assert_eq!(tracker.next_nonce(&credentials), Some(8));

    let post = settle_nonce(
        &mut tracker,
        &credentials,
        8,
        Ok(SubmissionOutcome { was_ambiguous: false }),
    )
    .unwrap();

    assert_eq!(post, PostSubmit::Confirmed);
    assert_eq!(tracker.next_nonce(&credentials), Some(9));
}

#[test]
fn transaction_builder_ambiguous_outcome_confirms_then_needs_refresh() {
    let credentials = credentials("tx-ambiguous-test");
    let mut tracker = NonceTracker::new();
    tracker.merge_rpc_nonce(&credentials, 7).unwrap();

    let post = settle_nonce(
        &mut tracker,
        &credentials,
        8,
        Ok(SubmissionOutcome { was_ambiguous: true }),
    )
    .unwrap();

    assert_eq!(post, PostSubmit::NeedsRefresh);
    // The nonce was consumed before the caller's RPC refresh step, so even a later
    // refresh failure cannot reuse this nonce for another transaction.
    assert_eq!(tracker.next_nonce(&credentials), Some(9));
    // A lagging replica that still reports the previous nonce must not move the
    // locally confirmed value backwards.
    tracker.merge_rpc_nonce(&credentials, 7).unwrap();
    assert_eq!(tracker.next_nonce(&credentials), Some(9));
}

#[test]
fn transaction_builder_confirmed_failure_consumes_nonce() {
    let credentials = credentials("tx-failure-test");
    let mut tracker = NonceTracker::new();
    tracker.merge_rpc_nonce(&credentials, 7).unwrap();

    let result = settle_nonce(
        &mut tracker,
        &credentials,
        8,
        Err(TransactionError::ConfirmedFailure(ConfirmedTransactionFailure {
            tx_hash: hash(0),
            detail: "execution failed".to_string(),
        })),
    );

    let error = result.unwrap_err();
    assert!(is_confirmed_transaction_failure(&error));
    // A finalized execution failure still consumed the nonce.
    assert_eq!(tracker.next_nonce(&credentials), Some(9));
}

#[test]
fn transaction_builder_unknown_error_invalidates_nonce() {
    let credentials = credentials("tx-invalidate-test");
    let mut tracker = NonceTracker::new();
    tracker.merge_rpc_nonce(&credentials, 7).unwrap();

    let result = settle_nonce(
        &mut tracker,
        &credentials,
        8,
        Err(TransactionError::Unresolved(UnresolvedTransaction { tx_hash: hash(0) })),
    );

    assert!(is_unresolved_transaction(&result.unwrap_err()));
    // The cached nonce must never be reused for another transaction.
    assert_eq!(tracker.len(), 0);
}

#[test]
fn a_transaction_is_sent_once_and_then_asked_for() {
    let tx_hash = hash(1);
    assert!(matches!(
        submit(tx_hash, &Broadcast::Final(true)),
        SubmitStep::Succeeded(SubmissionOutcome { was_ambiguous: false })
    ));
    assert!(matches!(
        submit(tx_hash, &Broadcast::Final(false)),
        SubmitStep::Failed(TransactionError::ConfirmedFailure(_))
    ));
    assert!(matches!(submit(tx_hash, &Broadcast::Pending), SubmitStep::Reconcile));
    assert!(matches!(submit(tx_hash, &Broadcast::TimedOut), SubmitStep::Reconcile));
    assert!(matches!(
        submit(tx_hash, &Broadcast::Failed(SendFailure::Broadcast, "lost".to_string())),
        SubmitStep::Reconcile
    ));
    match submit(tx_hash, &Broadcast::Failed(SendFailure::Signer, "no key".to_string())) {
        SubmitStep::Failed(error) => {
            assert_eq!(error.message(), "near-api transaction preparation failed: no key")
        }
        _ => panic!("a transaction that was not sent has failed"),
    }
    assert!(is_pre_broadcast_near_api_error(SendFailure::PreQuery));
    assert!(!is_pre_broadcast_near_api_error(SendFailure::Broadcast));
}

#[test]
fn a_fate_is_asked_for_at_most_thirty_times() {
    let mut search = Reconciliation::reconcile_transaction(hash(1));
    for _ in 0..29 {
        assert!(search.reply(&StatusReply::NotStarted).is_none());
    }
    match search.reply(&StatusReply::NoOutcome) {
        Some(Err(error)) => assert!(is_unresolved_transaction(&error)),
        _ => panic!("the last attempt must end the search"),
    }
}

#[test]
fn a_fate_is_what_the_node_tells_first() {
    let tell = |replies: Vec<StatusReply>| reconcile_all(hash(1), &replies);
    assert!(tell(vec![StatusReply::TimedOut, StatusReply::Started]).is_none());
    assert!(matches!(
        tell(vec![
            StatusReply::Error(StatusFailure::UnknownTransaction),
            StatusReply::Succeeded,
            StatusReply::Failed("late".to_string())
        ]),
        Some(Ok(()))
    ));
    match tell(vec![StatusReply::Failed("out of gas".to_string())]) {
        Some(Err(error)) => assert!(is_confirmed_transaction_failure(&error)),
        _ => panic!("an executed failure is told"),
    }
    match tell(vec![StatusReply::Error(StatusFailure::Other)]) {
        Some(Err(error)) => assert!(is_unresolved_transaction(&error)),
        _ => panic!("an error that will not go away ends the search"),
    }
    assert!(is_retryable_status_error(StatusFailure::Transport));
    assert!(!is_retryable_status_error(StatusFailure::Other));
}

#[test]
fn errors_name_their_transaction() {
    let unresolved = UnresolvedTransaction { tx_hash: hash(0) };
    assert_eq!(
        unresolved.message(),
        "transaction 11111111111111111111111111111111 remains unresolved after broadcast"
    );
    let failed = TransactionError::ConfirmedFailure(ConfirmedTransactionFailure {
        tx_hash: hash(0),
        detail: "out of gas".to_string(),
    });
    assert_eq!(
        failed.message(),
        "transaction 11111111111111111111111111111111 executed but failed: out of gas"
    );
}

#[test]
fn mainnet_is_confirmed_by_its_name() {
    assert!(needs_confirmation(Network::Mainnet, false, false));
    assert!(!needs_confirmation(Network::Mainnet, true, false));
    assert!(!needs_confirmation(Network::Mainnet, false, true));
    assert!(!needs_confirmation(Network::Testnet, false, false));
    assert!(confirm_mainnet(" mainnet\n").is_ok());
    assert_eq!(confirm_mainnet("yes").unwrap_err(), "mainnet deployment not confirmed");
}

#[test]
fn contracts_are_not_replaced_unasked() {
    let account = id("token.near");
    assert!(preflight(&account, &None, false, false).is_ok());
    assert!(preflight(&account, &Some(view(0)), false, false).is_ok());
    assert_eq!(
        preflight(&account, &Some(view(0)), true, true).unwrap_err(),
        "account token.near already contains contract state; refusing automatic redeploy"
    );
    assert_eq!(
        preflight(&account, &Some(view(1)), false, false).unwrap_err(),
        "account token.near already has deployed code; use --redeploy explicitly"
    );
    assert!(preflight(&account, &Some(view(1)), false, true).is_ok());
    assert!(asks_for_state(&Some(view(0))));
    assert!(!asks_for_state(&Some(view(1))));
    assert!(!asks_for_state(&None));
}

#[test]
fn existing_accounts_need_full_access() {
    let account = id("alice.testnet");
    let full = || Ok(AccessKeyView { nonce: 1, permission: AccessKeyPermission::FullAccess });
    let limited = || {
        Ok(AccessKeyView {
            nonce: 1,
            permission: AccessKeyPermission::FunctionCall {
                allowance: None,
                receiver_id: String::new(),
                method_names: vec![],
            },
        })
    };
    let missing = || Err("gone".to_string());
    let handle = ensure_account(&account, &view(0), &full(), Ok(credentials("e")), &full())
        .unwrap_or_else(|message| panic!("{message}"));
    assert!(!handle.created && handle.needs_initialization);
    let fail = |signer, own, key| ensure_account(&account, &view(1), &signer, own, &key).err().unwrap();
    assert_eq!(
        fail(missing(), Ok(credentials("e")), full()),
        "signer access key is unavailable at the preflight snapshot"
    );
    assert_eq!(
        fail(limited(), Ok(credentials("e")), full()),
        "signer access key is not full access at the preflight snapshot"
    );
    assert_eq!(
        fail(full(), Err("no file".to_string()), full()),
        "existing account alice.testnet requires a matching 0600 full-access credential file"
    );
    assert_eq!(
        fail(full(), Ok(credentials("e")), missing()),
        "credential for existing account alice.testnet is not an active key"
    );
    assert_eq!(
        fail(full(), Ok(credentials("e")), limited()),
        "credential for existing account alice.testnet is not full access"
    );
    let made = created_account(credentials("e"), "/k/a.json".to_string());
    assert!(made.created && made.needs_initialization);
}

#[test]
fn new_contracts_are_initialized_and_handed_over() {
    let plan = deploy_contracts(&config(), true, true);
    assert_eq!(plan.len(), 4);
    assert_eq!(plan[0].signer, SignerRole::Controller);
    assert_eq!(plan[1].receiver.as_str(), "token.alice.testnet");
    assert!(matches!(
        &plan[0].actions[1],
        Action::FunctionCall { args, .. } if args == "{\"dao\":\"alice.testnet\"}"
    ));
    assert!(matches!(
        &plan[1].actions[1],
        Action::FunctionCall { args, .. }
            if args == "{\"latest_price\":\"1000000000000000000000000\",\"metadata\":{\"decimals\":24,\"name\":\"Controlled NEAR\",\"spec\":\"ft-1.0.0\",\"symbol\":\"cNEAR\"},\"owner_id\":\"alice.testnet\",\"total_supply\":\"1000000000000000\"}"
    ));
    assert!(matches!(
        &plan[2].actions[0],
        Action::FunctionCall { method_name, args, deposit: 0, .. }
            if method_name == "owner_set" && args == "{\"new_owner\":\"controller.alice.testnet\"}"
    ));
    assert_eq!(plan[2].signer, SignerRole::Signer);
    assert_eq!(plan[2].receiver.as_str(), "token.alice.testnet");
    assert_eq!(plan[3].signer, SignerRole::Signer);
    assert_eq!(plan[3].receiver.as_str(), "controller.alice.testnet");
    assert!(matches!(
        &plan[3].actions[0],
        Action::FunctionCall { method_name, args, deposit: 1, .. }
            if method_name == "delegate_execution"
                && args == "{\"actions\":[{\"amount\":\"0\",\"arguments\":\"\",\"function_name\":\"owner_accept\",\"gas\":\"20000000000000\"}],\"receiver_id\":\"token.alice.testnet\"}"
    ));
    let again = deploy_contracts(&config(), false, false);
    assert_eq!(again.len(), 2);
    assert_eq!(again[1].actions.len(), 1);
}

#[test]
fn a_dry_run_sends_nothing() {
    let mut course = begin(Network::Mainnet, false, true, true);
    assert_eq!(course.phase, Phase::ReadingBlock);
    let mut steps = 0;
    while course.phase != Phase::Done {
        course = deploy(course, StepResult::Done);
        steps += 1;
    }
    assert_eq!(steps, 6);
    assert!(!course.failed);
}

/// A deployment on testnet after its checks.
fn checked(test_mode: bool) -> Course {
    let mut course = begin(Network::Testnet, false, false, test_mode);
    while course.phase != Phase::PreparingController {
        course = deploy(course, StepResult::Done);
    }
    course
}

#[test]
fn a_refused_check_ends_a_deployment() {
    let asked = begin(Network::Mainnet, false, false, true);
    assert_eq!(asked.phase, Phase::Confirming);
    let (refused, message) = confirm(asked, "yes");
    assert!(refused.phase == Phase::Done && refused.failed);
    assert_eq!(message.unwrap_err(), "mainnet deployment not confirmed");
    let (mut course, _) = confirm(asked, " mainnet\n");
    assert_eq!(course.phase, Phase::ReadingBlock);
    while course.phase != Phase::CheckingController {
        course = deploy(course, StepResult::Done);
    }
    let state = Some(AccountView {
        amount: "1".to_string(),
        locked: "0".to_string(),
        code_hash: hash(1),
    });
    let (refused, message) = check_account(course, &id("c.near"), &state, false, false);
    assert!(refused.phase == Phase::Done && refused.failed);
    assert!(message.is_err());
    let (course, _) = check_account(course, &id("c.near"), &state, false, true);
    assert_eq!(course.phase, Phase::CheckingToken);
    let (course, _) = check_account(course, &id("t.near"), &None, false, false);
    assert_eq!(course.phase, Phase::PreparingController);
}

#[test]
fn a_test_run_deletes_the_token_before_the_controller() {
    let mut course = checked(true);
    for result in [StepResult::Created, StepResult::Created, StepResult::Failed] {
        course = deploy(course, result);
    }
    assert_eq!(course.phase, Phase::DeletingToken);
    course = deploy(course, StepResult::Done);
    assert_eq!(course.phase, Phase::DeletingController);
    course = deploy(course, StepResult::Failed);
    assert!(course.phase == Phase::Done && course.failed && course.cleanup_failed);
}

#[test]
fn nothing_is_cleaned_up_after_an_unresolved_transaction() {
    let mut course = checked(true);
    for result in [StepResult::Created, StepResult::Created, StepResult::Unresolved] {
        course = deploy(course, result);
    }
    assert!(course.phase == Phase::Done && course.unresolved && course.failed);
    let mut kept = checked(false);
    for result in [StepResult::Created, StepResult::Done, StepResult::Done] {
        kept = deploy(kept, result);
    }
    assert!(kept.phase == Phase::Done && !kept.failed);
}

#[test]
fn endings_tell_both_failures() {
    assert_eq!(conclude(None, None), Ok(()));
    assert_eq!(conclude(Some("a".to_string()), None).unwrap_err(), "a");
    assert_eq!(
        conclude(None, Some("b".to_string())).unwrap_err(),
        "one or more cleanup transactions failed: b"
    );
    assert_eq!(
        conclude(Some("a".to_string()), Some("b".to_string())).unwrap_err(),
        "cleanup also failed: one or more cleanup transactions failed: a"
    );
}

fn full_key(nonce: u64) -> SendEvent {
    SendEvent::Key(Ok(AccessKeyView { nonce, permission: AccessKeyPermission::FullAccess }))
}

#[test]
fn a_transaction_asks_for_a_nonce_that_is_not_known() {
    let credentials = credentials("sending");
    let transaction = Transaction::new(credentials.copy(), id("bob.near"));
    let mut tracker = NonceTracker::new();
    let mut sending = transaction.send(&tracker);
    assert_eq!(sending.stage(), SendStage::Asking);
    sending.reply(&mut tracker, &SendEvent::Status(StatusReply::Succeeded));
    assert_eq!(sending.stage(), SendStage::Asking);
    sending.reply(&mut tracker, &full_key(41));
    assert_eq!((sending.stage(), sending.nonce()), (SendStage::Broadcasting, 42));
    sending.reply(&mut tracker, &SendEvent::Sent(hash(1), Broadcast::Final(true)));
    assert!(matches!(sending.result(), Some(Ok(()))));
    assert_eq!(tracker.next_nonce(&credentials), Some(43));

    let again = transaction.send(&tracker);
    assert_eq!((again.stage(), again.nonce()), (SendStage::Broadcasting, 43));
}

#[test]
fn an_ambiguous_broadcast_is_polled_and_never_repeated() {
    let credentials = credentials("ambiguous");
    let transaction = Transaction::new(credentials.copy(), id("bob.near"));
    let mut tracker = NonceTracker::new();
    tracker.merge_rpc_nonce(&credentials, 7).unwrap();
    let mut sending = transaction.send(&tracker);
    sending.reply(&mut tracker, &SendEvent::Sent(hash(1), Broadcast::TimedOut));
    assert_eq!(sending.stage(), SendStage::Polling);
    sending.reply(&mut tracker, &SendEvent::Sent(hash(2), Broadcast::Final(true)));
    assert_eq!(sending.stage(), SendStage::Polling);
    sending.reply(&mut tracker, &SendEvent::Status(StatusReply::Started));
    sending.reply(&mut tracker, &SendEvent::Status(StatusReply::Succeeded));
    assert_eq!(sending.stage(), SendStage::Refreshing);
    assert_eq!(tracker.next_nonce(&credentials), Some(9));
    sending.reply(&mut tracker, &full_key(20));
    assert!(matches!(sending.result(), Some(Ok(()))));
    assert_eq!(tracker.next_nonce(&credentials), Some(21));
}

#[test]
fn a_transaction_that_is_never_found_is_unresolved() {
    let credentials = credentials("unresolved");
    let transaction = Transaction::new(credentials.copy(), id("bob.near"));
    let mut tracker = NonceTracker::new();
    tracker.merge_rpc_nonce(&credentials, 7).unwrap();
    let mut sending = transaction.send(&tracker);
    sending.reply(&mut tracker, &SendEvent::Sent(hash(1), Broadcast::Pending));
    for _ in 0..30 {
        assert_eq!(sending.stage(), SendStage::Polling);
        sending.reply(
            &mut tracker,
            &SendEvent::Status(StatusReply::Error(StatusFailure::UnknownTransaction)),
        );
    }
    match sending.result() {
        Some(Err(error)) => assert!(is_unresolved_transaction(&error)),
        _ => panic!("the fate of the transaction is not known"),
    }
    assert_eq!(tracker.next_nonce(&credentials), None);
}

#[test]
fn a_transaction_that_cannot_be_signed_keeps_its_nonce() {
    let credentials = credentials("unsigned");
    let transaction = Transaction::new(credentials.copy(), id("bob.near"));
    let mut tracker = NonceTracker::new();
    tracker.merge_rpc_nonce(&credentials, 7).unwrap();
    let mut sending = transaction.send(&tracker);
    sending.reply(&mut tracker, &SendEvent::Unprepared("no block".to_string()));
    assert!(matches!(sending.result(), Some(Err(TransactionError::Other(reason))) if reason == "no block"));
    assert_eq!(tracker.next_nonce(&credentials), Some(8));
    let mut asking = transaction.send(&NonceTracker::new());
    let mut empty = NonceTracker::new();
    asking.reply(&mut empty, &SendEvent::Key(Err("down".to_string())));
    assert_eq!(asking.stage(), SendStage::Done);
}
