//! The rehearsal of a deployment: every command that it would execute, none of them executed.
use crate::arguments::{controller_args_text, token_args_text};
use crate::deploy_cli::amounts::{blob_deposit, release_deposit};
use crate::deploy_cli::config::{Config, ConfigView};
use crate::deploy_cli::options::network_text;
use crate::deploy_cli::report::{
    add_command, command_lines, controller_init_args, paint, painted, token_init_args,
    token_terms, Color,
};
use crate::near_amount::{
    exact_amount, near_amount_arg, rounded_amount, rounded_amount_display,
};
use crate::account::AccountId;
use crate::text::{add_line, first_word_of, join2, texts};
use vstd::prelude::*;

verus! {

/// Creates `id` below the signer.
pub open spec fn create_account_text(c: ConfigView, id: Seq<char>) -> Seq<char> {
    "near create-account "@ + id + " --masterAccount "@ + c.signer_id + " --initialBalance "@
        + rounded_amount(c.initial_balance) + " --networkId "@ + network_text(c.network)
}

/// Deploys the code at `path` on `id` and initializes it.
pub open spec fn deploy_text(
    c: ConfigView,
    id: Seq<char>,
    path: Seq<char>,
    args: Seq<char>,
) -> Seq<char> {
    "near deploy "@ + id + " "@ + path + " --initFunction new --initArgs '"@ + args
        + "' --networkId "@ + network_text(c.network)
}

/// Offers the token to the controller.
pub open spec fn propose_owner_text(c: ConfigView) -> Seq<char> {
    "near call "@ + c.token_id + " owner_set '{\"new_owner\":\""@ + c.controller_id
        + "\"}' --accountId "@ + c.signer_id + " --networkId "@ + network_text(c.network)
}

/// Has the controller accept the token.
pub open spec fn accept_owner_text(c: ConfigView) -> Seq<char> {
    "near call "@ + c.controller_id + " delegate_execution '{\"receiver_id\":\""@ + c.token_id
        + "\",\"actions\":[{\"function_name\":\"owner_accept\",\"arguments\":\"\",\"amount\":\"0\",\"gas\":\"20000000000000\"}]}' --accountId "@
        + c.signer_id + " --networkId "@ + network_text(c.network)
        + " --amount 0.000000000000000000000001"@
}

/// Registers the release.
pub open spec fn release_info_text(c: ConfigView) -> Seq<char> {
    "near call "@ + c.controller_id
        + " add_release_info '{\"hash\":\"<token-wasm-sha256>\",\"version\":\"1.0.0\",\"is_latest\":true}' --accountId "@
        + c.signer_id + " --networkId "@ + network_text(c.network)
        + " --amount 0.000000000000000000000001"@
}

/// The deposit that uploads the token's code; nothing where its size is not known.
pub open spec fn upload_deposit(bytes: Option<u64>) -> u128 {
    match bytes {
        Some(n) => release_deposit(n as nat) as u128,
        None => 0,
    }
}

/// Uploads the release. The code is kept in the controller's state, so the call carries a deposit
/// that covers it.
pub open spec fn release_blob_text(c: ConfigView, path: Seq<char>, bytes: Option<u64>) -> Seq<char> {
    "near call "@ + c.controller_id + " add_release_blob --accountId "@ + c.signer_id
        + " --networkId "@ + network_text(c.network) + " --amount "@ + first_word_of(
        exact_amount(upload_deposit(bytes)),
    ) + " < "@ + path
}

/// Registers the deployment.
pub open spec fn deployment_info_text(c: ConfigView) -> Seq<char> {
    "near call "@ + c.controller_id + " add_deployment_info '{\"contract_id\":\""@ + c.token_id
        + "\",...}' --accountId "@ + c.signer_id + " --networkId "@ + network_text(c.network)
        + " --amount 0.000000000000000000000001"@
}

/// Reads the deployment back.
pub open spec fn read_deployment_text(c: ConfigView) -> Seq<char> {
    "near view "@ + c.controller_id + " get_deployment '{\"account_id\":\""@ + c.token_id
        + "\"}' --networkId "@ + network_text(c.network)
}

/// Reads the token's owner.
pub open spec fn read_owner_text(c: ConfigView) -> Seq<char> {
    "near view "@ + c.token_id + " owner_get '{}' --networkId "@ + network_text(c.network)
}

/// Deletes `id` in favour of the signer.
pub open spec fn delete_account_text(c: ConfigView, id: Seq<char>) -> Seq<char> {
    "near delete-account "@ + id + " "@ + c.signer_id + " --networkId "@ + network_text(c.network)
}

fn on_network(mut command: String, config: &Config) -> (r: String)
    ensures
        r@ == command@ + " --networkId "@ + network_text(config@.network),
{
    command.append(" --networkId ");
    command.append(config.network.as_str());
    command
}

fn create_account_command(config: &Config, id: &AccountId) -> (r: String)
    ensures
        r@ == create_account_text(config@, id@),
{
    let mut s: String = "near create-account ".to_owned();
    s.append(id.as_str());
    s.append(" --masterAccount ");
    s.append(config.signer_id.as_str());
    s.append(" --initialBalance ");
    s.append(rounded_amount_display(config.initial_balance).as_str());
    on_network(s, config)
}

fn deploy_command(config: &Config, id: &AccountId, path: &str, args: &str) -> (r: String)
    ensures
        r@ == deploy_text(config@, id@, path@, args@),
{
    let mut s: String = "near deploy ".to_owned();
    s.append(id.as_str());
    s.append(" ");
    s.append(path);
    s.append(" --initFunction new --initArgs '");
    s.append(args);
    s.append("' --networkId ");
    s.append(config.network.as_str());
    s
}

fn propose_owner_command(config: &Config) -> (r: String)
    ensures
        r@ == propose_owner_text(config@),
{
    let mut s: String = "near call ".to_owned();
    s.append(config.token_id.as_str());
    s.append(" owner_set '{\"new_owner\":\"");
    s.append(config.controller_id.as_str());
    s.append("\"}' --accountId ");
    s.append(config.signer_id.as_str());
    on_network(s, config)
}

fn accept_owner_command(config: &Config) -> (r: String)
    ensures
        r@ == accept_owner_text(config@),
{
    let mut s: String = "near call ".to_owned();
    s.append(config.controller_id.as_str());
    s.append(" delegate_execution '{\"receiver_id\":\"");
    s.append(config.token_id.as_str());
    s.append(
        "\",\"actions\":[{\"function_name\":\"owner_accept\",\"arguments\":\"\",\"amount\":\"0\",\"gas\":\"20000000000000\"}]}' --accountId ",
    );
    s.append(config.signer_id.as_str());
    let mut s: String = on_network(s, config);
    s.append(" --amount 0.000000000000000000000001");
    s
}

fn release_info_command(config: &Config) -> (r: String)
    ensures
        r@ == release_info_text(config@),
{
    let mut s: String = "near call ".to_owned();
    s.append(config.controller_id.as_str());
    s.append(
        " add_release_info '{\"hash\":\"<token-wasm-sha256>\",\"version\":\"1.0.0\",\"is_latest\":true}' --accountId ",
    );
    s.append(config.signer_id.as_str());
    let mut s: String = on_network(s, config);
    s.append(" --amount 0.000000000000000000000001");
    s
}

fn release_blob_command(config: &Config, path: &str, bytes: Option<u64>) -> (r: String)
    ensures
        r@ == release_blob_text(config@, path@, bytes),
{
    let deposit: u128 = match bytes {
        Some(n) => blob_deposit(n),
        None => 0,
    };
    let mut s: String = "near call ".to_owned();
    s.append(config.controller_id.as_str());
    s.append(" add_release_blob --accountId ");
    s.append(config.signer_id.as_str());
    let mut s: String = on_network(s, config);
    s.append(" --amount ");
    s.append(near_amount_arg(deposit).as_str());
    s.append(" < ");
    s.append(path);
    s
}

fn deployment_info_command(config: &Config) -> (r: String)
    ensures
        r@ == deployment_info_text(config@),
{
    let mut s: String = "near call ".to_owned();
    s.append(config.controller_id.as_str());
    s.append(" add_deployment_info '{\"contract_id\":\"");
    s.append(config.token_id.as_str());
    s.append("\",...}' --accountId ");
    s.append(config.signer_id.as_str());
    let mut s: String = on_network(s, config);
    s.append(" --amount 0.000000000000000000000001");
    s
}

fn read_deployment_command(config: &Config) -> (r: String)
    ensures
        r@ == read_deployment_text(config@),
{
    let mut s: String = "near view ".to_owned();
    s.append(config.controller_id.as_str());
    s.append(" get_deployment '{\"account_id\":\"");
    s.append(config.token_id.as_str());
    s.append("\"}' --networkId ");
    s.append(config.network.as_str());
    s
}

fn read_owner_command(config: &Config) -> (r: String)
    ensures
        r@ == read_owner_text(config@),
{
    let mut s: String = "near view ".to_owned();
    s.append(config.token_id.as_str());
    s.append(" owner_get '{}' --networkId ");
    s.append(config.network.as_str());
    s
}

fn delete_account_command(config: &Config, id: &AccountId) -> (r: String)
    ensures
        r@ == delete_account_text(config@, id@),
{
    let mut s: String = "near delete-account ".to_owned();
    s.append(id.as_str());
    s.append(" ");
    s.append(config.signer_id.as_str());
    on_network(s, config)
}

/// The start of a rehearsal: the accounts are created in test mode, and not looked up otherwise.
pub open spec fn accounts_part(c: ConfigView) -> Seq<Seq<char>> {
    let banner = seq![
        painted(
            Color::Yellow,
            "=== DRY RUN MODE - Commands will be displayed but not executed ==="@,
        ) + "\n"@,
    ];
    if c.test_mode {
        banner + seq![painted(Color::Green, "=== Test Mode: Creating Subaccounts ==="@)]
            + command_lines(create_account_text(c, c.controller_id)) + command_lines(
            create_account_text(c, c.token_id),
        )
    } else {
        banner + seq![
            painted(Color::Green, "=== Checking Account Existence ==="@),
            painted(Color::Yellow, "Skipping account existence check in dry-run mode"@),
        ]
    }
}

/// The deployment of both contracts and the move of the token to the controller.
pub open spec fn contracts_part(
    c: ConfigView,
    token_path: Seq<char>,
    controller_path: Seq<char>,
) -> Seq<Seq<char>> {
    seq![painted(Color::Green, "=== Step 1: Deploy Controller ==="@)] + command_lines(
        deploy_text(c, c.controller_id, controller_path, controller_args_text(c.signer_id)),
    ) + seq![
        painted(Color::Green, "=== Step 2: Deploy Token with Signer as Initial Owner ==="@),
    ] + command_lines(deploy_text(c, c.token_id, token_path, token_args_text(token_terms(c)))) + seq![
        painted(Color::Green, "=== Step 3: Propose Controller as Token Owner ==="@),
    ] + command_lines(propose_owner_text(c)) + seq![
        painted(Color::Green, "=== Step 4: Accept Token Ownership as Controller ==="@),
    ] + command_lines(accept_owner_text(c))
}

/// The registration of the deployment, and the check of the owner.
pub open spec fn registry_part(
    c: ConfigView,
    token_path: Seq<char>,
    bytes: Option<u64>,
) -> Seq<Seq<char>> {
    seq![painted(Color::Green, "=== Step 5: Register Token Deployment with Controller ==="@)]
        + command_lines(release_info_text(c)) + command_lines(
        release_blob_text(c, token_path, bytes),
    ) + command_lines(deployment_info_text(c)) + command_lines(read_deployment_text(c)) + seq![
        painted(Color::Green, "=== Step 6: Verify Ownership ==="@),
    ] + command_lines(read_owner_text(c))
}

/// The end of a rehearsal: in test mode the accounts are deleted again.
pub open spec fn end_part(c: ConfigView) -> Seq<Seq<char>> {
    let done = seq![painted(Color::Yellow, "=== Dry Run Complete - No changes made ==="@)];
    if c.test_mode {
        seq!["\n"@ + painted(Color::Yellow, "=== Test Mode Cleanup (Dry Run) ==="@)]
            + command_lines(delete_account_text(c, c.token_id)) + command_lines(
            delete_account_text(c, c.controller_id),
        ) + done
    } else {
        done
    }
}

/// All lines of a rehearsal.
pub open spec fn dry_run_text(
    c: ConfigView,
    token_path: Seq<char>,
    controller_path: Seq<char>,
    bytes: Option<u64>,
) -> Seq<Seq<char>> {
    accounts_part(c) + contracts_part(c, token_path, controller_path) + registry_part(
        c,
        token_path,
        bytes,
    ) + end_part(c)
}

fn add_heading(out: &mut Vec<String>, text: &str)
    ensures
        texts(final(out)@) == texts(old(out)@) + seq![painted(Color::Green, text@)],
{
    let ghost before = texts(out@);
    add_line(out, paint(Color::Green, text));
    assert(texts(out@) =~= before + seq![painted(Color::Green, text@)]);
}

fn add_accounts(out: &mut Vec<String>, config: &Config)
    ensures
        texts(final(out)@) == texts(old(out)@) + accounts_part(config@),
{
    let ghost before = texts(out@);
    let mut banner: String = paint(
        Color::Yellow,
        "=== DRY RUN MODE - Commands will be displayed but not executed ===",
    );
    banner.append("\n");
    add_line(out, banner);
    if config.test_mode {
        add_heading(out, "=== Test Mode: Creating Subaccounts ===");
        add_command(out, create_account_command(config, &config.controller_id));
        add_command(out, create_account_command(config, &config.token_id));
    } else {
        add_heading(out, "=== Checking Account Existence ===");
        add_line(
            out,
            paint(Color::Yellow, "Skipping account existence check in dry-run mode"),
        );
    }
    assert(texts(out@) =~= before + accounts_part(config@));
}

fn add_contracts(out: &mut Vec<String>, config: &Config, token_path: &str, controller_path: &str)
    ensures
        texts(final(out)@) == texts(old(out)@) + contracts_part(
            config@,
            token_path@,
            controller_path@,
        ),
{
    let ghost before = texts(out@);
    add_heading(out, "=== Step 1: Deploy Controller ===");
    let controller_args: String = controller_init_args(config);
    add_command(
        out,
        deploy_command(config, &config.controller_id, controller_path, controller_args.as_str()),
    );
    add_heading(out, "=== Step 2: Deploy Token with Signer as Initial Owner ===");
    let token_args: String = token_init_args(config);
    add_command(out, deploy_command(config, &config.token_id, token_path, token_args.as_str()));
    add_heading(out, "=== Step 3: Propose Controller as Token Owner ===");
    add_command(out, propose_owner_command(config));
    add_heading(out, "=== Step 4: Accept Token Ownership as Controller ===");
    add_command(out, accept_owner_command(config));
    assert(texts(out@) =~= before + contracts_part(config@, token_path@, controller_path@));
}

fn add_registry(out: &mut Vec<String>, config: &Config, token_path: &str, bytes: Option<u64>)
    ensures
        texts(final(out)@) == texts(old(out)@) + registry_part(config@, token_path@, bytes),
{
    let ghost before = texts(out@);
    add_heading(out, "=== Step 5: Register Token Deployment with Controller ===");
    add_command(out, release_info_command(config));
    add_command(out, release_blob_command(config, token_path, bytes));
    add_command(out, deployment_info_command(config));
    add_command(out, read_deployment_command(config));
    add_heading(out, "=== Step 6: Verify Ownership ===");
    add_command(out, read_owner_command(config));
    assert(texts(out@) =~= before + registry_part(config@, token_path@, bytes));
}

fn add_end(out: &mut Vec<String>, config: &Config)
    ensures
        texts(final(out)@) == texts(old(out)@) + end_part(config@),
{
    let ghost before = texts(out@);
    if config.test_mode {
        add_line(
            out,
            join2("\n", paint(Color::Yellow, "=== Test Mode Cleanup (Dry Run) ===").as_str()),
        );
        add_command(out, delete_account_command(config, &config.token_id));
        add_command(out, delete_account_command(config, &config.controller_id));
    }
    add_line(out, paint(Color::Yellow, "=== Dry Run Complete - No changes made ==="));
    assert(texts(out@) =~= before + end_part(config@));
}

/// The lines of a rehearsal of `config`, with the code of token and controller at these paths;
/// `token_bytes` is the size of the token's code, where it is known.
pub fn dry_run_lines(
    config: &Config,
    token_path: &str,
    controller_path: &str,
    token_bytes: Option<u64>,
) -> (r: Vec<String>)
    ensures
        texts(r@) == dry_run_text(config@, token_path@, controller_path@, token_bytes),
{
    let mut out: Vec<String> = Vec::new();
    add_accounts(&mut out, config);
    add_contracts(&mut out, config, token_path, controller_path);
    add_registry(&mut out, config, token_path, token_bytes);
    add_end(&mut out, config);
    assert(texts(out@) =~= dry_run_text(config@, token_path@, controller_path@, token_bytes));
    out
}

} // verus!
