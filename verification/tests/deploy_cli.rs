use cnear::account::AccountId;
use cnear::deploy_cli::amounts::{
    blob_deposit, parse_near_amount, parse_u128, tokens_to_yocto, NearAmountError, SupplyFault,
};
use cnear::deploy_cli::config::{build_config, settled_network, Config, Replies, Session};
use cnear::deploy_cli::credentials::{
    check_credentials_dir, check_key_file, check_signer, credentials_dir, read_credentials,
    store_near_cli_credentials,
};
use cnear::deploy_cli::deployment::{proceed, Progress, Role, Stage, Terms, Verdict};
use cnear::deploy_cli::dry_run::dry_run_lines;
use cnear::deploy_cli::keys::{finalize, KeyRemoval, KeyReply, KeyTask};
use cnear::deploy_cli::options::{parse_command, parse_options, Command, NetworkName, Options, OptionsError};
use cnear::deploy_cli::prompt::{
    choose_signer, credential_accounts, prompt_default, prompt_line, prompt_network, prompt_yes_no,
    ChoiceError,
};
use cnear::deploy_cli::report::{
    configuration_lines, controller_wasm, target_dir, token_init_args, token_wasm,
    validate_wasm_files,
};
use cnear::deploy_cli::runner::{
    check_owner, check_recorded_hash, verify_ownership, verify_registration, Deployment,
};
use cnear::deploy_cli::tasks::{account_does_not_exist, subaccount_prefix, Reply, Task};
use cnear::near_amount::{near_amount_arg, ONE_NEAR};
use cnear::secret_key::SecretKey;

fn id(text: &str) -> AccountId {
    AccountId::parse(text).unwrap()
}

fn words(list: &[&str]) -> Vec<String> {
    list.iter().map(|word| word.to_string()).collect()
}

fn no_replies() -> Replies {
    Replies {
        controller_id: String::new(),
        token_id: String::new(),
        token_name: String::new(),
        token_symbol: String::new(),
        token_decimals: String::new(),
        total_supply: String::new(),
        initial_price: String::new(),
        initial_balance: String::new(),
    }
}

fn session(signer: &str) -> Session {
    Session {
        network_reply: String::new(),
        signer: signer.to_string(),
        credentials_found: true,
        credentials_path: "/keys/testnet/signer.json".to_string(),
        replies: no_replies(),
    }
}

fn config(test_mode: bool) -> Config {
    let flags = if test_mode { words(&["test", "alice.testnet"]) } else { words(&["testnet", "alice.testnet"]) };
    build_config(parse_options(&flags).unwrap(), session("")).unwrap()
}

#[test]
fn parses_amounts() {
    assert_eq!(parse_near_amount("10").unwrap(), 10 * 10u128.pow(24));
    assert_eq!(parse_near_amount("1.5").unwrap(), 15 * 10u128.pow(23));
}

#[test]
fn rejects_invalid_amounts() {
    assert!(parse_near_amount("1.0000000000000000000000001").is_err());
    assert!(parse_near_amount("1.2.3").is_err());
}

#[test]
fn amounts_of_near_are_read_exactly() {
    assert_eq!(parse_near_amount(" 0.000000000000000000000001 "), Ok(1));
    assert_eq!(parse_near_amount("+7."), Ok(7 * ONE_NEAR));
    assert_eq!(parse_near_amount("340282366920938.463463374607431768211455"), Ok(u128::MAX));
    assert_eq!(
        parse_near_amount("340282366920938.463463374607431768211456"),
        Err(NearAmountError::TooLarge)
    );
    assert_eq!(parse_near_amount("340282366920939"), Err(NearAmountError::TooLarge));
    assert_eq!(parse_near_amount(".5"), Err(NearAmountError::MissingWhole));
    assert_eq!(parse_near_amount(""), Err(NearAmountError::MissingWhole));
    for text in ["10 NEAR", "-1"] {
        let fault = parse_near_amount(text).unwrap_err();
        assert!(matches!(fault, NearAmountError::InvalidWhole(_)));
        assert_eq!(fault.message(), "invalid digit found in string");
    }
    assert_eq!(
        parse_near_amount("340282366920938463463374607431768211456").unwrap_err().message(),
        "number too large to fit in target type"
    );
    assert_eq!(parse_near_amount("1.2x"), Err(NearAmountError::BadFraction));
    assert_eq!(parse_near_amount("1.+5"), Err(NearAmountError::BadFraction));
    assert_eq!(NearAmountError::BadFraction.message(), "NEAR amount must have at most 24 decimal places");
}

#[test]
fn parses_test_alias() {
    let options = parse_options(&["test".into(), "--dry-run".into()]).unwrap();
    assert_eq!(options.network, Some(NetworkName::Testnet));
    assert!(options.test_mode && options.dry_run);
}

#[test]
fn bare_dry_run_uses_defaults_without_explicit_mode() {
    let options = parse_options(&["--dry-run".into()]).unwrap();
    assert_eq!(options.network, None);
    assert!(options.dry_run);
    assert!(!options.test_mode);
    assert!(!options.interactive);
}

#[test]
fn options_are_read_in_order_and_refused_by_name() {
    let options = parse_options(&words(&["testnet", "bob.near", "mainnet", "--test-mode"])).unwrap();
    assert_eq!(options.network, Some(NetworkName::Mainnet));
    assert_eq!(options.signer_id.as_deref(), Some("bob.near"));
    assert!(options.test_mode);
    assert!(parse_options(&[]).unwrap().interactive);
    assert!(matches!(parse_options(&words(&["-h"])), Err(OptionsError::HelpRequested)));
    assert!(matches!(parse_options(&words(&["testnet", "--help", "--bad"])), Err(OptionsError::HelpRequested)));
    match parse_options(&words(&["--bad"])) {
        Err(OptionsError::UnknownOption(word)) => assert_eq!(word, "--bad"),
        _ => panic!("an unknown option must be refused"),
    }
    match parse_options(&words(&["a.near", "b.near"])) {
        Err(OptionsError::UnknownArgument(word)) => assert_eq!(word, "b.near"),
        _ => panic!("a second signer must be refused"),
    }
}

#[test]
fn commands_are_told_apart() {
    assert_eq!(parse_command(&[]), Command::Help);
    assert_eq!(parse_command(&words(&["deploy", "testnet"])), Command::Deploy);
    assert_eq!(parse_command(&words(&["finalize"])), Command::Finalize);
    assert_eq!(parse_command(&words(&["testnet"])), Command::Unknown);
}

#[test]
fn only_the_not_found_condition_counts_as_absence() {
    let absent = words(&["account alice.near does not exist while viewing"]);
    assert!(account_does_not_exist(&absent));

    // The failures that matter: an unreachable endpoint, a timeout, a
    // rejected request. None of these say anything about the account.
    for message in [
        "unable to fulfill the query request",
        "error sending request for url (https://rpc.mainnet.near.org/)",
        "operation timed out",
        "429 Too Many Requests",
    ] {
        assert!(
            !account_does_not_exist(&words(&[message])),
            "{message:?} must not be read as the account being absent"
        );
    }
}

#[test]
fn finds_the_not_found_condition_through_a_source_chain() {
    assert!(account_does_not_exist(&words(&[
        "unable to fulfill the query request",
        "account bob.near does not exist while viewing",
    ])));
}

#[test]
fn whole_tokens_scale_by_the_decimals() {
    assert_eq!(
        tokens_to_yocto(100_000_000_000_000, 24, "supply").unwrap(),
        100_000_000_000_000 * ONE_NEAR
    );
    assert_eq!(tokens_to_yocto(1, 24, "supply").unwrap(), ONE_NEAR);
}

#[test]
fn a_supply_that_cannot_be_represented_is_rejected() {
    assert!(tokens_to_yocto(0, 24, "supply").is_err(), "zero supply");
    assert!(
        tokens_to_yocto(u128::MAX, 24, "supply").is_err(),
        "overflowing supply must not wrap"
    );
}

#[test]
fn a_refused_supply_says_why() {
    let zero = tokens_to_yocto(0, 24, "total supply").unwrap_err();
    assert_eq!(zero.fault, SupplyFault::Zero);
    assert_eq!(zero.message, "total supply must be greater than zero");
    assert_eq!(tokens_to_yocto(3, 38, "supply").unwrap(), 3 * 10u128.pow(38));
    let decimals = tokens_to_yocto(1, 39, "supply").unwrap_err();
    assert_eq!(decimals.fault, SupplyFault::TooManyDecimals);
    assert_eq!(decimals.message, "39 decimals is too many to represent");
    let large = tokens_to_yocto(4, 38, "supply").unwrap_err();
    assert_eq!(large.fault, SupplyFault::Overflow);
    assert_eq!(large.message, "supply of 4 tokens at 38 decimals overflows a u128");
}

#[test]
fn numbers_are_read_with_a_label() {
    assert_eq!(parse_u128("340282366920938463463374607431768211455", "price"), Ok(u128::MAX));
    assert_eq!(
        parse_u128("340282366920938463463374607431768211456", "price").unwrap_err(),
        "invalid price: 340282366920938463463374607431768211456"
    );
    assert!(parse_u128("", "price").is_err());
    assert!(parse_u128("+", "price").is_err());
    assert!(parse_u128("1 ", "price").is_err());
}

#[test]
fn answers_fall_back_on_their_defaults() {
    assert_eq!(prompt_line("value\r\n"), "value");
    assert_eq!(prompt_line("a\n\n"), "a");
    assert_eq!(prompt_default(" \u{2003}", "default"), "default");
    assert_eq!(prompt_default("  text ", "default"), "text");
    assert!(prompt_yes_no(" YeS "));
    assert!(prompt_yes_no("y"));
    assert!(!prompt_yes_no("yess"));
    assert!(!prompt_yes_no(""));
    assert_eq!(prompt_network(" "), (NetworkName::Testnet, true));
    assert_eq!(prompt_network("2"), (NetworkName::Mainnet, true));
    assert_eq!(prompt_network("mainnet"), (NetworkName::Testnet, false));
}

#[test]
fn signers_are_listed_in_order_and_chosen_by_number() {
    let accounts = credential_accounts(&words(&["b.near.json", ".json", "notes.txt", "a-1.near.json", "a.near.json"]));
    assert_eq!(accounts, words(&["a-1.near", "a.near", "b.near"]));
    assert_eq!(choose_signer(&accounts, "").unwrap(), "a-1.near");
    assert_eq!(choose_signer(&accounts, " 3 ").unwrap(), "b.near");
    assert!(matches!(choose_signer(&accounts, "0"), Err(ChoiceError::InvalidChoice)));
    assert!(matches!(choose_signer(&accounts, "4"), Err(ChoiceError::InvalidChoice)));
    assert!(matches!(choose_signer(&accounts, "x"), Err(ChoiceError::InvalidChoice)));
    assert!(matches!(choose_signer(&Vec::new(), "1"), Err(ChoiceError::NoAccounts)));
}

#[test]
fn a_configuration_without_questions_uses_the_defaults() {
    let config = config(false);
    assert_eq!(config.network, NetworkName::Testnet);
    assert_eq!(config.signer_id.as_str(), "alice.testnet");
    assert_eq!(config.controller_id.as_str(), "controller.alice.testnet");
    assert_eq!(config.token_id.as_str(), "token.alice.testnet");
    assert_eq!(config.token_name, "cNEAR");
    assert_eq!(config.token_decimals, 24);
    assert_eq!(config.total_supply_tokens, 100_000_000_000_000);
    assert_eq!(config.total_supply_yocto, 100_000_000_000_000 * ONE_NEAR);
    assert_eq!(config.initial_price, ONE_NEAR);
    assert_eq!(config.initial_balance, 10 * ONE_NEAR);
}

#[test]
fn blank_answers_configure_the_defaults() {
    let asked = build_config(parse_options(&[]).unwrap(), session("alice.testnet")).unwrap();
    let default = config(false);
    assert_eq!(asked.controller_id, default.controller_id);
    assert_eq!(asked.token_id, default.token_id);
    assert_eq!(asked.token_decimals, default.token_decimals);
    assert_eq!(asked.total_supply_yocto, default.total_supply_yocto);
    assert_eq!(asked.initial_price, default.initial_price);
    assert_eq!(asked.initial_balance, 10 * ONE_NEAR);
}

#[test]
fn a_configuration_with_questions_uses_the_answers() {
    let mut asked = session("bob.near");
    asked.network_reply = "2".to_string();
    asked.replies.controller_id = " ctl.bob.near ".to_string();
    asked.replies.token_decimals = "2".to_string();
    asked.replies.total_supply = "1000".to_string();
    asked.replies.initial_price = "5 yocto".to_string();
    asked.replies.initial_balance = "0.5".to_string();
    let config = build_config(parse_options(&[]).unwrap(), asked).unwrap();
    assert_eq!(config.network, NetworkName::Mainnet);
    assert_eq!(config.controller_id.as_str(), "ctl.bob.near");
    assert_eq!(config.token_id.as_str(), "token.bob.near");
    assert_eq!(config.total_supply_yocto, 100_000);
    assert_eq!(config.initial_price, 5);
    assert_eq!(config.initial_balance, ONE_NEAR / 2);
}

#[test]
fn a_configuration_names_the_first_thing_that_is_wrong() {
    let fail = |options: Options, session: Session| build_config(options, session).unwrap_err();
    assert_eq!(
        fail(parse_options(&words(&["Bob"])).unwrap(), session("")),
        "invalid signer account ID: Bob"
    );
    let mut missing = session("bob.near");
    missing.credentials_found = false;
    assert_eq!(
        fail(parse_options(&words(&["mainnet"])).unwrap(), missing),
        "credentials file not found: /keys/testnet/signer.json"
    );
    let mut dry = session("bob.near");
    dry.credentials_found = false;
    assert!(build_config(parse_options(&words(&["--dry-run"])).unwrap(), dry).is_ok());
    let mut decimals = session("bob.near");
    decimals.replies.token_decimals = "256".to_string();
    assert_eq!(
        fail(parse_options(&[]).unwrap(), decimals),
        "token decimals must be an integer between 0 and 255"
    );
    let mut supply = session("bob.near");
    supply.replies.total_supply = "many".to_string();
    assert_eq!(fail(parse_options(&[]).unwrap(), supply), "invalid total supply: many");
    let mut price = session("bob.near");
    price.replies.initial_price = "free of charge".to_string();
    assert_eq!(fail(parse_options(&[]).unwrap(), price), "invalid initial price: free");
    let mut controller = session("bob.near");
    controller.replies.controller_id = "Ctl".to_string();
    assert_eq!(fail(parse_options(&[]).unwrap(), controller), "invalid controller account ID: Ctl");
    let mut token = session("bob.near");
    token.replies.token_id = "to ken".to_string();
    assert_eq!(fail(parse_options(&[]).unwrap(), token), "invalid token account ID: to ken");
    let mut zero = session("bob.near");
    zero.replies.total_supply = "0".to_string();
    assert_eq!(fail(parse_options(&[]).unwrap(), zero), "total supply must be greater than zero");
}

#[test]
fn the_network_is_settled_by_the_command_line() {
    assert_eq!(settled_network(&parse_options(&words(&["mainnet"])).unwrap()), Some(NetworkName::Mainnet));
    assert_eq!(settled_network(&parse_options(&words(&["--test-mode"])).unwrap()), Some(NetworkName::Testnet));
    assert_eq!(settled_network(&parse_options(&[]).unwrap()), None);
}

#[test]
fn code_is_looked_for_below_the_target_directory() {
    assert_eq!(token_wasm(&target_dir(None)), "target/near/fungible_token.wasm");
    assert_eq!(
        controller_wasm(&target_dir(Some("/build/".to_string()))),
        "/build/near/aurora-controller-factory.wasm"
    );
    assert!(validate_wasm_files(true, true, "t", "c").is_ok());
    assert_eq!(
        validate_wasm_files(false, false, "t", "c").unwrap_err(),
        "token wasm not found at t\nRun: just build-token"
    );
    assert_eq!(
        validate_wasm_files(true, false, "t", "c").unwrap_err(),
        "controller wasm not found at c\nRun: just build-controller"
    );
}

#[test]
fn the_token_is_initialized_as_configured() {
    let mut config = config(false);
    config.token_name = "a \"quoted\"\tname\u{1}".to_string();
    assert_eq!(
        token_init_args(&config),
        "{\"latest_price\":\"1000000000000000000000000\",\"metadata\":{\"decimals\":24,\"name\":\"a \\\"quoted\\\"\\tname\\u0001\",\"spec\":\"ft-1.0.0\",\"symbol\":\"cNEAR\"},\"owner_id\":\"alice.testnet\",\"total_supply\":\"100000000000000000000000000000000000000\"}"
    );
}

#[test]
fn the_configuration_is_summed_up() {
    let lines = configuration_lines(&config(false));
    assert_eq!(lines.len(), 12);
    assert_eq!(lines[0], "\n\x1b[0;34m=== Deployment Summary ===\x1b[0m");
    assert_eq!(lines[1], "Network:           testnet");
    assert_eq!(
        lines[8],
        "Total Supply:      100000000000000 tokens (100000000000000000000000000000000000000 yoctoNEAR at 24 decimals)"
    );
    assert_eq!(lines[9], "Initial Price:     1000000000000000000000000 yoctoNEAR (1 NEAR per cNEAR)");
    assert_eq!(lines[10], "Dry Run:           false");
}

#[test]
fn a_dry_run_shows_every_command() {
    let lines = dry_run_lines(&config(false), "t.wasm", "c.wasm", Some(250_000));
    let commands: Vec<&String> = lines.iter().filter(|line| line.contains("Command:")).collect();
    assert_eq!(commands.len(), 9);
    assert_eq!(
        commands[0].as_str(),
        "\x1b[0;34mCommand:\x1b[0m near deploy controller.alice.testnet c.wasm --initFunction new --initArgs '{\"dao\":\"alice.testnet\"}' --networkId testnet"
    );
    assert!(commands[5].ends_with("--networkId testnet --amount 3.5 < t.wasm"));
    assert!(lines[1].contains("Checking Account Existence"));
    assert!(lines.last().unwrap().contains("No changes made"));
}

#[test]
fn a_dry_run_in_test_mode_creates_and_deletes() {
    let lines = dry_run_lines(&config(true), "t.wasm", "c.wasm", None);
    let commands: Vec<&String> = lines.iter().filter(|line| line.contains("Command:")).collect();
    assert_eq!(commands.len(), 13);
    assert!(commands[0].ends_with(
        "near create-account controller.alice.testnet --masterAccount alice.testnet --initialBalance 10.00 NEAR --networkId testnet"
    ));
    assert!(commands[7].ends_with("--amount 0 < t.wasm"));
    assert!(commands[11].ends_with("near delete-account token.alice.testnet alice.testnet --networkId testnet"));
    assert!(commands[12].ends_with("near delete-account controller.alice.testnet alice.testnet --networkId testnet"));
}

#[test]
fn amounts_are_shown_as_bare_numbers() {
    assert_eq!(near_amount_arg(0), "0");
    assert_eq!(near_amount_arg(500), "500");
    assert_eq!(near_amount_arg(15 * 10u128.pow(23)), "1.5");
    assert_eq!(near_amount_arg(1_234_567_890_123_456_789_000_000), "1.234567890123456789");
    assert_eq!(near_amount_arg(ONE_NEAR + 1), "1.000000000000000000000001");
}

#[test]
fn a_release_is_paid_for_by_its_size() {
    assert_eq!(blob_deposit(0), ONE_NEAR);
    assert_eq!(blob_deposit(100_000), 2 * ONE_NEAR);
}

#[test]
fn subaccounts_lie_below_their_parent() {
    assert_eq!(subaccount_prefix(&id("token.alice.near"), &id("alice.near")).as_deref(), Some("token"));
    assert_eq!(subaccount_prefix(&id("a.b.alice.near"), &id("alice.near")).as_deref(), Some("a.b"));
    assert_eq!(subaccount_prefix(&id("alice.near"), &id("alice.near")), None);
    assert_eq!(subaccount_prefix(&id("tokenalice.near"), &id("alice.near")), None);
}

fn drive(deployment: &mut Deployment, code: &[u8], fail_at: Option<Stage>) -> Vec<Stage> {
    let mut stages = Vec::new();
    let mut hash = String::new();
    loop {
        let stage = deployment.progress().stage;
        let task = deployment.task();
        if matches!(task, Task::Finish) {
            return stages;
        }
        stages.push(stage);
        let reply = if fail_at == Some(stage) {
            Reply::Rejected("no".to_string())
        } else {
            match task {
                Task::ViewAccount { .. } => {
                    Reply::Errors(words(&["query", "account does not exist while viewing"]))
                }
                Task::ConfirmCreate { .. } => Reply::Answer(true),
                Task::CreateAccount { account_id, .. } => Reply::Named(account_id.as_str().to_string()),
                Task::Deploy { code: Role::Token, .. } => Reply::Deployed(code.to_vec()),
                Task::Call { method, args, .. } => {
                    if method == "add_release_info" {
                        let at = args.find("\"hash\":\"").unwrap() + 8;
                        hash = args[at..at + 64].to_string();
                    }
                    Reply::Done
                }
                Task::View { method, .. } => {
                    if method == "owner_get" {
                        Reply::Bytes(b"\"controller.alice.testnet\"".to_vec())
                    } else {
                        Reply::Bytes(format!("{{\"hash\":\"{hash}\"}}").into_bytes())
                    }
                }
                _ => Reply::Done,
            }
        };
        deployment.reply(&reply);
    }
}

#[test]
fn deployment_registers_and_transfers_ownership() {
    let mut deployment = Deployment::deploy_with_signer(config(false));
    let stages = drive(&mut deployment, b"abc", None);
    assert_eq!(
        stages,
        vec![
            Stage::Viewing(Role::Controller),
            Stage::Confirming(Role::Controller),
            Stage::Creating(Role::Controller),
            Stage::Storing(Role::Controller),
            Stage::Viewing(Role::Token),
            Stage::Confirming(Role::Token),
            Stage::Creating(Role::Token),
            Stage::Storing(Role::Token),
            Stage::Deploying(Role::Controller),
            Stage::Deploying(Role::Token),
            Stage::Proposing,
            Stage::Accepting,
            Stage::AddingRelease,
            Stage::UploadingRelease,
            Stage::AddingDeployment,
            Stage::ReadingDeployment,
            Stage::ReadingOwner,
        ]
    );
    assert_eq!(deployment.result(), Some(Ok(())));
}

#[test]
fn a_test_deployment_deletes_what_it_created() {
    let mut deployment = Deployment::deploy_with_signer(config(true));
    let stages = drive(&mut deployment, b"abc", None);
    assert_eq!(&stages[stages.len() - 2..], &[Stage::Deleting(Role::Token), Stage::Deleting(Role::Controller)]);
    assert_eq!(deployment.result(), Some(Ok(())));

    let mut dirty = Deployment::deploy_with_signer(config(true));
    drive(&mut dirty, b"abc", Some(Stage::Deleting(Role::Token)));
    assert_eq!(dirty.result(), Some(Err("test mode cleanup was incomplete".to_string())));
}

#[test]
fn a_failed_deployment_deletes_what_it_created() {
    let mut deployment = Deployment::deploy_with_signer(config(false));
    let stages = drive(&mut deployment, b"abc", Some(Stage::Accepting));
    assert_eq!(&stages[stages.len() - 2..], &[Stage::Deleting(Role::Token), Stage::Deleting(Role::Controller)]);
    assert_eq!(
        deployment.result(),
        Some(Err("controller failed to accept token ownership: no".to_string()))
    );

    let mut early = Deployment::deploy_with_signer(config(false));
    let stages = drive(&mut early, b"abc", Some(Stage::Creating(Role::Controller)));
    assert_eq!(stages.last(), Some(&Stage::Creating(Role::Controller)));
    assert_eq!(early.result(), Some(Err("account creation failed: no".to_string())));
}

#[test]
fn the_deployed_code_is_the_registered_code() {
    let mut deployment = Deployment::deploy_with_signer(config(true));
    while deployment.progress().stage != Stage::Deploying(Role::Token) {
        let reply = match deployment.task() {
            Task::CreateAccount { account_id, .. } => Reply::Named(account_id.as_str().to_string()),
            _ => Reply::Done,
        };
        deployment.reply(&reply);
    }
    deployment.reply(&Reply::Deployed(b"abc".to_vec()));
    deployment.reply(&Reply::Done);
    deployment.reply(&Reply::Done);
    match deployment.task() {
        Task::Call { method, args, deposit, .. } => {
            assert_eq!(method, "add_release_info");
            assert_eq!(deposit, 1);
            assert_eq!(
                args,
                "{\"description\":\"cNEAR\",\"downgrade_hash\":null,\"hash\":\"ba7816bf8f01cfea414140de5dae2223b00361a396177a9cb410ff61f20015ad\",\"is_latest\":true,\"version\":\"1.0.0\"}"
            );
        }
        _ => panic!("the release must be registered next"),
    }
    deployment.reply(&Reply::Done);
    match deployment.task() {
        Task::Upload { receiver_id, method, args, deposit } => {
            assert_eq!(receiver_id.as_str(), "controller.alice.testnet");
            assert_eq!(method, "add_release_blob");
            assert_eq!(args, b"abc");
            assert_eq!(deposit, blob_deposit(3));
        }
        _ => panic!("the release must be uploaded next"),
    }
}

#[test]
fn accounts_outside_the_signer_are_not_created() {
    let mut far = config(true);
    far.controller_id = id("controller.bob.testnet");
    let deployment = Deployment::deploy_with_signer(far);
    assert!(matches!(deployment.task(), Task::Finish));
    assert_eq!(
        deployment.result(),
        Some(Err("account controller.bob.testnet must be a subaccount of alice.testnet".to_string()))
    );
}

#[test]
fn replies_are_judged_by_their_stage() {
    let result = |stage: Stage, reply: Reply| {
        let mut deployment = Deployment::deploy_with_signer(config(false));
        while deployment.progress().stage != stage {
            let next = match deployment.task() {
                Task::LoadAccount { account_id } => Reply::Named(account_id.as_str().to_string()),
                Task::Deploy { code: Role::Token, .. } => Reply::Deployed(Vec::new()),
                Task::View { .. } => Reply::Bytes(
                    b"{\"hash\":\"e3b0c44298fc1c149afbf4c8996fb92427ae41e4649b934ca495991b7852b855\"}".to_vec(),
                ),
                _ => Reply::Done,
            };
            deployment.reply(&next);
        }
        deployment.reply(&reply);
        deployment.result()
    };
    let controller = Stage::Loading(Role::Controller);
    assert_eq!(
        result(controller, Reply::NoFile("/keys/c.json".to_string())),
        Some(Err("account controller.alice.testnet exists but credentials are missing at /keys/c.json".to_string()))
    );
    assert_eq!(
        result(controller, Reply::Named("eve.testnet".to_string())),
        Some(Err("credentials for controller.alice.testnet belong to eve.testnet".to_string()))
    );
    assert_eq!(
        result(Stage::Viewing(Role::Token), Reply::Errors(words(&["429 Too Many Requests"]))),
        Some(Err("failed to check account token.alice.testnet".to_string()))
    );
    assert_eq!(
        result(Stage::ReadingDeployment, Reply::Bytes(b"{}".to_vec())),
        Some(Err("deployment registration failed: controller recorded hash None, expected e3b0c44298fc1c149afbf4c8996fb92427ae41e4649b934ca495991b7852b855".to_string()))
    );
    assert_eq!(
        result(Stage::ReadingOwner, Reply::Bytes(b"\"alice.testnet\"".to_vec())),
        Some(Err("ownership verification failed: expected controller.alice.testnet, got alice.testnet".to_string()))
    );
    assert_eq!(
        result(Stage::ReadingOwner, Reply::Failed("down".to_string())),
        Some(Err("could not read the token's owner: down".to_string()))
    );
    assert_eq!(
        result(Stage::Proposing, Reply::Answer(true)),
        Some(Err("the reply does not belong to the task".to_string()))
    );
}

#[test]
fn a_declined_account_ends_the_deployment() {
    let mut deployment = Deployment::deploy_with_signer(config(false));
    deployment.reply(&Reply::Errors(words(&["does not exist while viewing"])));
    deployment.reply(&Reply::Answer(false));
    assert_eq!(
        deployment.result(),
        Some(Err("account controller.alice.testnet does not exist and was not created; aborting".to_string()))
    );
}

#[test]
fn a_machine_that_is_done_stays_done() {
    let terms = Terms { dry_run: false, test_mode: false, controller_below: true, token_below: true };
    let done = Progress {
        stage: Stage::Done,
        created_controller: true,
        created_token: true,
        failed: false,
        cleaned: true,
    };
    assert_eq!(proceed(done, terms, Verdict::Bad), done);
}

#[test]
fn ownership_verification_fails_when_the_owner_is_wrong() {
    let expected = id("controller.near");
    assert!(verify_ownership(&b"\"controller.near\"".to_vec(), &expected).is_ok());
    assert_eq!(
        verify_ownership(&b"\"alice.near\"".to_vec(), &expected).unwrap_err(),
        "ownership verification failed: expected controller.near, got alice.near"
    );
    assert_eq!(
        verify_ownership(&b"not json".to_vec(), &expected).unwrap_err(),
        "could not parse the token's owner"
    );
    assert!(check_owner("controller.near", &expected).is_ok());
    assert!(check_owner("", &expected).is_err());
}

#[test]
fn a_registration_must_record_the_hash() {
    assert!(verify_registration(&b"{\"hash\":\"aa\",\"version\":\"1.0.0\"}".to_vec(), "aa").is_ok());
    assert_eq!(
        verify_registration(&b"{\"hash\":\"bb\"}".to_vec(), "aa").unwrap_err(),
        "deployment registration failed: controller recorded hash Some(\"bb\"), expected aa"
    );
    assert_eq!(
        verify_registration(&b"{\"hash\":1}".to_vec(), "aa").unwrap_err(),
        "deployment registration failed: controller recorded hash None, expected aa"
    );
    assert_eq!(
        verify_registration(&b"{".to_vec(), "aa").unwrap_err(),
        "EOF while parsing an object at line 1 column 1"
    );
    assert!(check_recorded_hash(&None, "aa").is_err());
    assert!(check_recorded_hash(&Some("aa".to_string()), "aa").is_ok());
}

#[test]
fn removes_every_key_from_the_token_account() {
    let targets = finalize(&config(false), true).unwrap();
    assert_eq!(targets[0].account_id.as_str(), "token.alice.testnet");
    assert!(targets[0].remove_all && !targets[1].remove_all);
    assert_eq!(
        finalize(&config(false), false).unwrap_err(),
        "finalization aborted: run the functional checks first"
    );

    let mut removal = KeyRemoval::remove_access_keys(id("token.near"), true);
    let mut keys = words(&["ed25519:1", "ed25519:2"]);
    loop {
        let reply = match removal.task() {
            KeyTask::List => KeyReply::Keys(keys.clone()),
            KeyTask::Load => KeyReply::Done,
            KeyTask::Remove(key) => {
                keys.retain(|held| *held != key);
                KeyReply::Done
            }
            KeyTask::Ask(_) => panic!("nothing is asked where every key goes"),
            KeyTask::Finish => break,
        };
        removal.reply(reply);
    }
    assert!(keys.is_empty());
    assert_eq!(removal.result(), Some(Ok(0)));
}

#[test]
fn is_a_no_op_on_an_account_that_is_already_keyless() {
    let mut removal = KeyRemoval::remove_access_keys(id("token.near"), true);
    removal.reply(KeyReply::Keys(Vec::new()));
    assert!(matches!(removal.task(), KeyTask::Finish));
    assert_eq!(removal.result(), Some(Ok(0)));
}

#[test]
fn keys_are_kept_unless_the_operator_lets_them_go() {
    let mut removal = KeyRemoval::remove_access_keys(id("ctl.near"), false);
    removal.reply(KeyReply::Keys(words(&["k1", "k2"])));
    removal.reply(KeyReply::Done);
    assert!(matches!(removal.task(), KeyTask::Ask(key) if key == "k1"));
    removal.reply(KeyReply::Answer(false));
    removal.reply(KeyReply::Answer(true));
    assert!(matches!(removal.task(), KeyTask::Remove(key) if key == "k2"));
    removal.reply(KeyReply::Done);
    removal.reply(KeyReply::Keys(words(&["k1"])));
    assert_eq!(removal.result(), Some(Ok(1)));
}

#[test]
fn a_removal_that_fails_says_so() {
    let mut left = KeyRemoval::remove_access_keys(id("token.near"), true);
    left.reply(KeyReply::Keys(words(&["k1"])));
    left.reply(KeyReply::Done);
    left.reply(KeyReply::Done);
    left.reply(KeyReply::Keys(words(&["k9"])));
    assert_eq!(
        left.result(),
        Some(Err("token.near still has 1 access key(s) after finalization".to_string()))
    );
    let mut listing = KeyRemoval::remove_access_keys(id("token.near"), true);
    listing.reply(KeyReply::Failed("down".to_string()));
    assert_eq!(listing.result(), Some(Err("failed to list access keys on token.near".to_string())));
    let mut deleting = KeyRemoval::remove_access_keys(id("token.near"), true);
    deleting.reply(KeyReply::Keys(words(&["k1"])));
    deleting.reply(KeyReply::Done);
    deleting.reply(KeyReply::Rejected("no such key".to_string()));
    assert_eq!(deleting.result(), Some(Err("failed to delete k1 from token.near".to_string())));
    let mut missing = KeyRemoval::remove_access_keys(id("token.near"), true);
    missing.reply(KeyReply::Keys(words(&["k1"])));
    missing.reply(KeyReply::Failed("/keys/token.near.json".to_string()));
    assert_eq!(
        missing.result(),
        Some(Err("need credentials for token.near at /keys/token.near.json".to_string()))
    );
}

#[test]
fn credentials_are_kept_by_network() {
    let root = Some("/keys".to_string());
    let home = Some("/home/op".to_string());
    assert_eq!(credentials_dir(NetworkName::Mainnet, &root, &home).unwrap(), "/keys/mainnet");
    assert_eq!(
        credentials_dir(NetworkName::Testnet, &None, &home).unwrap(),
        "/home/op/.near-credentials/testnet"
    );
    assert_eq!(
        credentials_dir(NetworkName::Testnet, &None, &None).unwrap_err(),
        "HOME is not set and NEAR_CREDENTIALS is not set"
    );
    assert!(check_credentials_dir("/k", true, NetworkName::Testnet).is_ok());
    assert_eq!(
        check_credentials_dir("/k", false, NetworkName::Testnet).unwrap_err(),
        "NEAR credentials directory does not exist: /k\nExpected: ~/.near-credentials/testnet or $NEAR_CREDENTIALS/testnet"
    );
    assert!(check_signer("a.near", &id("a.near")).is_ok());
    assert_eq!(
        check_signer("b.near", &id("a.near")).unwrap_err(),
        "credentials file belongs to b.near, not a.near"
    );
}

#[test]
fn created_credentials_are_written_for_near_cli() {
    let key = near_crypto::SecretKey::from_seed(near_crypto::KeyType::ED25519, "near-cli");
    let secret = SecretKey::parse(&key.to_string()).unwrap();
    assert_eq!(secret.public_key(), key.public_key().to_string());
    assert_eq!(
        store_near_cli_credentials(&id("token.near"), &secret),
        format!(
            "{{\"account_id\":\"token.near\",\"private_key\":\"{}\",\"public_key\":\"{}\"}}",
            key,
            key.public_key()
        )
    );
    assert!(SecretKey::parse("ed25519:nonsense").is_none());
}

#[test]
fn the_shown_deposit_reads_back() {
    for bytes in [0, 1, 3, 340_000, u64::MAX] {
        let deposit = blob_deposit(bytes);
        assert_eq!(parse_near_amount(&near_amount_arg(deposit)), Ok(deposit));
    }
    assert_eq!(near_amount_arg(blob_deposit(3)), "1.00003");
    assert_eq!(parse_near_amount(&near_amount_arg(0)), Ok(0));
    assert_eq!(parse_near_amount(&near_amount_arg(1001)), Ok(1001));
    assert_eq!(parse_near_amount(&near_amount_arg(u128::MAX)), Ok(u128::MAX));
    assert_ne!(parse_near_amount(&near_amount_arg(1000)), Ok(1000));
}

#[test]
fn a_whole_removal_deletes_what_was_let_go() {
    let mut removal = KeyRemoval::remove_access_keys(id("controller.near"), false);
    let mut asked = Vec::new();
    let mut removed = Vec::new();
    let mut listed = 0;
    while removal.result().is_none() {
        let reply = match removal.task() {
            KeyTask::List => {
                listed += 1;
                KeyReply::Keys(words(if listed == 1 { &["k1", "k2", "k3"] } else { &["k2"] }))
            }
            KeyTask::Load => KeyReply::Done,
            KeyTask::Ask(key) => {
                let go = key != "k2";
                asked.push(key);
                KeyReply::Answer(go)
            }
            KeyTask::Remove(key) => {
                removed.push(key);
                KeyReply::Done
            }
            KeyTask::Finish => panic!("the removal is not done"),
        };
        removal.reply(reply);
    }
    assert_eq!(asked, ["k1", "k2", "k3"]);
    assert_eq!(removed, ["k1", "k3"]);
    assert_eq!(removal.result(), Some(Ok(1)));
}

#[test]
fn a_deployment_that_is_a_dry_run_is_done_from_the_start() {
    let mut dry = config(false);
    dry.dry_run = true;
    let mut deployment = Deployment::deploy_with_signer(dry);
    assert!(matches!(deployment.task(), Task::Finish));
    assert_eq!(deployment.result(), Some(Ok(())));
    deployment.reply(&Reply::Done);
    assert_eq!(deployment.result(), Some(Ok(())));
}

#[test]
fn a_registry_that_answers_no_json_is_refused_with_the_reason() {
    assert_eq!(
        verify_registration(&b"nonsense".to_vec(), "aa").unwrap_err(),
        "expected ident at line 1 column 2"
    );
}

#[test]
fn stored_credentials_read_back() {
    let random = near_crypto::SecretKey::from_seed(near_crypto::KeyType::ED25519, "read-back");
    let key = SecretKey::parse(&random.to_string()).unwrap();
    let stored = store_near_cli_credentials(&id("alice.near"), &key);
    let read = read_credentials(&stored.clone().into_bytes()).ok().unwrap();
    assert_eq!(read.account_id.as_str(), "alice.near");
    assert_eq!(read.secret_key.as_str(), key.as_str());
    let renamed = stored.replace("private_key", "secret_key");
    assert!(read_credentials(&renamed.into_bytes()).is_ok());
    let other = near_crypto::SecretKey::from_seed(near_crypto::KeyType::ED25519, "other");
    let mixed = stored.replace(key.public_key(), &other.public_key().to_string());
    assert_eq!(
        read_credentials(&mixed.into_bytes()).err().unwrap(),
        "public key does not correspond to secret key in key file"
    );
    assert!(read_credentials(&b"{}".to_vec()).is_err());
    assert_eq!(
        check_key_file("A", key.public_key(), key.as_str()).err().unwrap(),
        "invalid account ID: A"
    );
    assert_eq!(
        check_key_file("a.near", key.public_key(), "nonsense").err().unwrap(),
        "could not read the secret key"
    );
}
