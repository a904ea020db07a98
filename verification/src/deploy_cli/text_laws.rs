//! What the texts of the guided tool name: the arguments of the registry's calls, the files of
//! credentials, and the commands of a rehearsal.
use crate::arguments::{controller_args_text, propose_args_text, token_args_text, TokenTerms};
use crate::deploy::credentials::{credential_contents, CredentialsView};
use crate::deploy_cli::config::ConfigView;
use crate::deploy_cli::credentials::near_cli_text;
use crate::deploy_cli::dry_run::{
    accept_owner_text, accounts_part, contracts_part, create_account_text, delete_account_text,
    deploy_text, deployment_info_text, dry_run_text, end_part, propose_owner_text,
    read_deployment_text, read_owner_text, registry_part, release_blob_text, release_info_text,
};
use crate::deploy_cli::report::{command_lines, painted, token_terms, Color};
use crate::deploy_cli::tasks::{deployment_args_text, deployment_query_text, release_args_text};
use crate::json::{json_field, json_text, quoted};
use crate::near_amount::{exact_amount, rounded_amount};
use crate::text::{
    contains_text, first_word_of, lemma_stands_after, lemma_stands_before, lemma_stands_in_itself,
};
use vstd::prelude::*;

verus! {

/// The registry's calls name the hash of the code, and the token's account, by their fields.
pub proof fn law_the_registry_is_told_by_name(token: Seq<char>, hash: Seq<char>)
    ensures
        contains_text(release_args_text(hash), "\"hash\":\""@ + hash + "\""@),
        contains_text(deployment_args_text(token, hash), "\"contract_id\":\""@ + token + "\""@),
        contains_text(deployment_args_text(token, hash), "\"hash\":\""@ + hash + "\""@),
        contains_text(deployment_query_text(token), "\"account_id\":\""@ + token + "\""@),
{
    let h = json_field("hash"@, quoted(hash));
    let id = json_field("contract_id"@, quoted(token));
    let account = json_field("account_id"@, quoted(token));
    assert(h == "\"hash\":\""@ + hash + "\""@) by {
        reveal_strlit("\"");
        reveal_strlit(":");
        reveal_strlit("hash");
        reveal_strlit("\"hash\":\"");
        assert(h =~= "\"hash\":\""@ + hash + "\""@);
    }
    assert(id == "\"contract_id\":\""@ + token + "\""@) by {
        reveal_strlit("\"");
        reveal_strlit(":");
        reveal_strlit("contract_id");
        reveal_strlit("\"contract_id\":\"");
        assert(id =~= "\"contract_id\":\""@ + token + "\""@);
    }
    assert(account == "\"account_id\":\""@ + token + "\""@) by {
        reveal_strlit("\"");
        reveal_strlit(":");
        reveal_strlit("account_id");
        reveal_strlit("\"account_id\":\"");
        assert(account =~= "\"account_id\":\""@ + token + "\""@);
    }
    lemma_between(
        "{\"description\":\"cNEAR\",\"downgrade_hash\":null,"@,
        h,
        ",\"is_latest\":true,\"version\":\"1.0.0\"}"@,
    );
    let tail = ",\"init_args\":\"\",\"upgrade_times\":{},\"version\":\"1.0.0\"}}"@;
    let middle = ",\"deployment_info\":{\"deployment_time\":0,"@;
    lemma_between("{"@ + id + middle, h, tail);
    lemma_between("{"@, id, middle);
    lemma_stands_before("{"@ + id + middle, h, id);
    lemma_stands_before("{"@ + id + middle + h, tail, id);
    lemma_between("{"@, account, "}"@);
}

/// What stands between two texts stands in the whole.
proof fn lemma_between(x: Seq<char>, part: Seq<char>, y: Seq<char>)
    ensures
        contains_text(x + part + y, part),
{
    lemma_stands_in_itself(part);
    lemma_stands_after(x, part, part);
    lemma_stands_before(x + part, y, part);
}

/// A file of credentials names the account, the secret key and the public key by their fields, in both
/// forms in which one is written.
pub proof fn law_a_credential_file_names_its_keys(c: CredentialsView)
    ensures
        ({
            let file = near_cli_text(c.account, (c.secret_key, c.public_key));
            &&& contains_text(file, "\"account_id\":\""@ + c.account + "\""@)
            &&& contains_text(file, "\"private_key\":"@ + json_text(c.secret_key))
            &&& contains_text(file, "\"public_key\":"@ + json_text(c.public_key))
        }),
        ({
            let file = credential_contents(c);
            &&& contains_text(file, "\"account_id\": "@ + quoted(c.account))
            &&& contains_text(file, "\"private_key\": "@ + json_text(c.secret_key))
            &&& contains_text(file, "\"public_key\": "@ + json_text(c.public_key))
        }),
{
    let id = json_field("account_id"@, quoted(c.account));
    let secret = json_field("private_key"@, json_text(c.secret_key));
    let public = json_field("public_key"@, json_text(c.public_key));
    assert(id == "\"account_id\":\""@ + c.account + "\""@) by {
        reveal_strlit("\"");
        reveal_strlit(":");
        reveal_strlit("account_id");
        reveal_strlit("\"account_id\":\"");
        assert(id =~= "\"account_id\":\""@ + c.account + "\""@);
    }
    assert(secret == "\"private_key\":"@ + json_text(c.secret_key)) by {
        reveal_strlit("\"");
        reveal_strlit(":");
        reveal_strlit("private_key");
        reveal_strlit("\"private_key\":");
        assert(secret =~= "\"private_key\":"@ + json_text(c.secret_key));
    }
    assert(public == "\"public_key\":"@ + json_text(c.public_key)) by {
        reveal_strlit("\"");
        reveal_strlit(":");
        reveal_strlit("public_key");
        reveal_strlit("\"public_key\":");
        assert(public =~= "\"public_key\":"@ + json_text(c.public_key));
    }
    let s1 = "{"@ + id;
    let s2 = s1 + ","@;
    let s3 = s2 + secret;
    let s4 = s3 + ","@;
    let s5 = s4 + public;
    lemma_stands_in_itself(id);
    lemma_stands_after("{"@, id, id);
    lemma_stands_before(s1, ","@, id);
    lemma_stands_before(s2, secret, id);
    lemma_stands_before(s3, ","@, id);
    lemma_stands_before(s4, public, id);
    lemma_stands_before(s5, "}"@, id);
    lemma_between(s2, secret, ","@);
    lemma_stands_before(s4, public, secret);
    lemma_stands_before(s5, "}"@, secret);
    lemma_between(s4, public, "}"@);
    lemma_contents(c);
}

proof fn lemma_contents(c: CredentialsView)
    ensures
        contains_text(credential_contents(c), "\"account_id\": "@ + quoted(c.account)),
        contains_text(credential_contents(c), "\"private_key\": "@ + json_text(c.secret_key)),
        contains_text(credential_contents(c), "\"public_key\": "@ + json_text(c.public_key)),
{
    let id = "\"account_id\": "@;
    let secret = "\"private_key\": "@;
    let public = "\"public_key\": "@;
    assert("{\n  \"account_id\": "@ == "{\n  "@ + id) by {
        reveal_strlit("{\n  \"account_id\": ");
        reveal_strlit("{\n  ");
        reveal_strlit("\"account_id\": ");
        assert("{\n  \"account_id\": "@ =~= "{\n  "@ + id);
    }
    assert(",\n  \"private_key\": "@ == ",\n  "@ + secret) by {
        reveal_strlit(",\n  \"private_key\": ");
        reveal_strlit(",\n  ");
        reveal_strlit("\"private_key\": ");
        assert(",\n  \"private_key\": "@ =~= ",\n  "@ + secret);
    }
    assert(",\n  \"public_key\": "@ == ",\n  "@ + public) by {
        reveal_strlit(",\n  \"public_key\": ");
        reveal_strlit(",\n  ");
        reveal_strlit("\"public_key\": ");
        assert(",\n  \"public_key\": "@ =~= ",\n  "@ + public);
    }
    let s1 = "{\n  \"account_id\": "@ + quoted(c.account);
    let s2 = s1 + ",\n  \"private_key\": "@ + json_text(c.secret_key);
    let s3 = s2 + ",\n  \"public_key\": "@ + json_text(c.public_key);
    lemma_key_value("{\n  "@, Seq::empty(), id, quoted(c.account));
    assert(Seq::<char>::empty() + "{\n  \"account_id\": "@ =~= "{\n  \"account_id\": "@);
    lemma_stands_before(s1, ",\n  \"private_key\": "@, id + quoted(c.account));
    lemma_stands_before(
        s1 + ",\n  \"private_key\": "@,
        json_text(c.secret_key),
        id + quoted(c.account),
    );
    lemma_stands_before(s2, ",\n  \"public_key\": "@, id + quoted(c.account));
    lemma_stands_before(
        s2 + ",\n  \"public_key\": "@,
        json_text(c.public_key),
        id + quoted(c.account),
    );
    lemma_stands_before(s3, "\n}"@, id + quoted(c.account));
    lemma_key_value(",\n  "@, s1, secret, json_text(c.secret_key));
    lemma_stands_before(s2, ",\n  \"public_key\": "@, secret + json_text(c.secret_key));
    lemma_stands_before(
        s2 + ",\n  \"public_key\": "@,
        json_text(c.public_key),
        secret + json_text(c.secret_key),
    );
    lemma_stands_before(s3, "\n}"@, secret + json_text(c.secret_key));
    lemma_key_value(",\n  "@, s2, public, json_text(c.public_key));
    lemma_stands_before(s3, "\n}"@, public + json_text(c.public_key));
}

proof fn lemma_key_value(space: Seq<char>, before: Seq<char>, key: Seq<char>, value: Seq<char>)
    ensures
        contains_text(before + (space + key) + value, key + value),
{
    assert(before + (space + key) + value =~= before + space + (key + value));
    lemma_stands_in_itself(key + value);
    lemma_stands_after(before + space, key + value, key + value);
}

/// Whether one of the lines shows a text.
pub open spec fn shows(lines: Seq<Seq<char>>, part: Seq<char>) -> bool {
    exists|i: int| 0 <= i < lines.len() && contains_text(#[trigger] lines[i], part)
}

proof fn lemma_shows_before(x: Seq<Seq<char>>, y: Seq<Seq<char>>, part: Seq<char>)
    requires
        shows(x, part),
    ensures
        shows(x + y, part),
{
    let i = choose|i: int| 0 <= i < x.len() && contains_text(#[trigger] x[i], part);
    assert((x + y)[i] == x[i]);
}

proof fn lemma_shows_after(x: Seq<Seq<char>>, y: Seq<Seq<char>>, part: Seq<char>)
    requires
        shows(y, part),
    ensures
        shows(x + y, part),
{
    let i = choose|i: int| 0 <= i < y.len() && contains_text(#[trigger] y[i], part);
    assert((x + y)[x.len() + i] == y[i]);
}

proof fn lemma_command_shown(command: Seq<char>, part: Seq<char>)
    requires
        contains_text(command, part),
    ensures
        shows(command_lines(command), part),
{
    lemma_stands_after(painted(Color::Blue, "Command:"@) + " "@, command, part);
    assert(contains_text(command_lines(command)[0], part));
}

/// What a part of the rehearsal shows, the rehearsal shows.
proof fn lemma_rehearsed(
    c: ConfigView,
    token_path: Seq<char>,
    controller_path: Seq<char>,
    bytes: Option<u64>,
    part: Seq<char>,
)
    requires
        shows(accounts_part(c), part) || shows(contracts_part(c, token_path, controller_path), part)
            || shows(registry_part(c, token_path, bytes), part) || shows(end_part(c), part),
    ensures
        shows(dry_run_text(c, token_path, controller_path, bytes), part),
{
    let a = accounts_part(c);
    let b = contracts_part(c, token_path, controller_path);
    let r = registry_part(c, token_path, bytes);
    let e = end_part(c);
    if shows(a, part) {
        lemma_shows_before(a, b, part);
    }
    if shows(b, part) {
        lemma_shows_after(a, b, part);
    }
    if shows(a + b, part) {
        lemma_shows_before(a + b, r, part);
    }
    if shows(r, part) {
        lemma_shows_after(a + b, r, part);
    }
    if shows(a + b + r, part) {
        lemma_shows_before(a + b + r, e, part);
    }
    if shows(e, part) {
        lemma_shows_after(a + b + r, e, part);
    }
}

proof fn lemma_contracts_shown(
    c: ConfigView,
    token_path: Seq<char>,
    controller_path: Seq<char>,
    part: Seq<char>,
)
    requires
        ({
            let deploy_controller = deploy_text(
                c,
                c.controller_id,
                controller_path,
                controller_args_text(c.signer_id),
            );
            let deploy_token = deploy_text(
                c,
                c.token_id,
                token_path,
                token_args_text(token_terms(c)),
            );
            let offer = propose_owner_text(c);
            let accept = accept_owner_text(c);
            ||| contains_text(deploy_controller, part)
            ||| contains_text(deploy_token, part)
            ||| contains_text(offer, part)
            ||| contains_text(accept, part)
        }),
    ensures
        shows(contracts_part(c, token_path, controller_path), part),
{
    let deploy_controller = deploy_text(
        c,
        c.controller_id,
        controller_path,
        controller_args_text(c.signer_id),
    );
    let deploy_token = deploy_text(
        c,
        c.token_id,
        token_path,
        token_args_text(token_terms(c)),
    );
    let offer = propose_owner_text(c);
    let accept = accept_owner_text(c);
    let h1 = seq![painted(Color::Green, "=== Step 1: Deploy Controller ==="@)];
    let h2 = seq![
        painted(Color::Green, "=== Step 2: Deploy Token with Signer as Initial Owner ==="@),
    ];
    let h3 = seq![painted(Color::Green, "=== Step 3: Propose Controller as Token Owner ==="@)];
    let h4 = seq![painted(Color::Green, "=== Step 4: Accept Token Ownership as Controller ==="@)];
    let s0 = h1;
    let s1 = s0 + command_lines(deploy_controller);
    if contains_text(deploy_controller, part) {
        lemma_command_shown(deploy_controller, part);
        lemma_shows_after(s0, command_lines(deploy_controller), part);
    }
    if shows(s0, part) {
        lemma_shows_before(s0, command_lines(deploy_controller), part);
    }
    let s2 = s1 + h2;
    if shows(s1, part) {
        lemma_shows_before(s1, h2, part);
    }
    let s3 = s2 + command_lines(deploy_token);
    if contains_text(deploy_token, part) {
        lemma_command_shown(deploy_token, part);
        lemma_shows_after(s2, command_lines(deploy_token), part);
    }
    if shows(s2, part) {
        lemma_shows_before(s2, command_lines(deploy_token), part);
    }
    let s4 = s3 + h3;
    if shows(s3, part) {
        lemma_shows_before(s3, h3, part);
    }
    let s5 = s4 + command_lines(offer);
    if contains_text(offer, part) {
        lemma_command_shown(offer, part);
        lemma_shows_after(s4, command_lines(offer), part);
    }
    if shows(s4, part) {
        lemma_shows_before(s4, command_lines(offer), part);
    }
    let s6 = s5 + h4;
    if shows(s5, part) {
        lemma_shows_before(s5, h4, part);
    }
    let s7 = s6 + command_lines(accept);
    if contains_text(accept, part) {
        lemma_command_shown(accept, part);
        lemma_shows_after(s6, command_lines(accept), part);
    }
    if shows(s6, part) {
        lemma_shows_before(s6, command_lines(accept), part);
    }
    assert(contracts_part(c, token_path, controller_path) == s7);
}

proof fn lemma_registry_shown(
    c: ConfigView,
    token_path: Seq<char>,
    bytes: Option<u64>,
    part: Seq<char>,
)
    requires
        ({
            let release = release_info_text(c);
            let upload = release_blob_text(c, token_path, bytes);
            let record = deployment_info_text(c);
            let read = read_deployment_text(c);
            let owner = read_owner_text(c);
            ||| contains_text(release, part)
            ||| contains_text(upload, part)
            ||| contains_text(record, part)
            ||| contains_text(read, part)
            ||| contains_text(owner, part)
        }),
    ensures
        shows(registry_part(c, token_path, bytes), part),
{
    let release = release_info_text(c);
    let upload = release_blob_text(c, token_path, bytes);
    let record = deployment_info_text(c);
    let read = read_deployment_text(c);
    let owner = read_owner_text(c);
    let h5 = seq![
        painted(Color::Green, "=== Step 5: Register Token Deployment with Controller ==="@),
    ];
    let h6 = seq![painted(Color::Green, "=== Step 6: Verify Ownership ==="@)];
    let s0 = h5;
    let s1 = s0 + command_lines(release);
    if contains_text(release, part) {
        lemma_command_shown(release, part);
        lemma_shows_after(s0, command_lines(release), part);
    }
    if shows(s0, part) {
        lemma_shows_before(s0, command_lines(release), part);
    }
    let s2 = s1 + command_lines(upload);
    if contains_text(upload, part) {
        lemma_command_shown(upload, part);
        lemma_shows_after(s1, command_lines(upload), part);
    }
    if shows(s1, part) {
        lemma_shows_before(s1, command_lines(upload), part);
    }
    let s3 = s2 + command_lines(record);
    if contains_text(record, part) {
        lemma_command_shown(record, part);
        lemma_shows_after(s2, command_lines(record), part);
    }
    if shows(s2, part) {
        lemma_shows_before(s2, command_lines(record), part);
    }
    let s4 = s3 + command_lines(read);
    if contains_text(read, part) {
        lemma_command_shown(read, part);
        lemma_shows_after(s3, command_lines(read), part);
    }
    if shows(s3, part) {
        lemma_shows_before(s3, command_lines(read), part);
    }
    let s5 = s4 + h6;
    if shows(s4, part) {
        lemma_shows_before(s4, h6, part);
    }
    let s6 = s5 + command_lines(owner);
    if contains_text(owner, part) {
        lemma_command_shown(owner, part);
        lemma_shows_after(s5, command_lines(owner), part);
    }
    if shows(s5, part) {
        lemma_shows_before(s5, command_lines(owner), part);
    }
    assert(registry_part(c, token_path, bytes) == s6);
}

proof fn lemma_accounts_shown(c: ConfigView, part: Seq<char>)
    requires
        c.test_mode,
        ({
            let create_controller = create_account_text(c, c.controller_id);
            let create_token = create_account_text(c, c.token_id);
            ||| contains_text(create_controller, part)
            ||| contains_text(create_token, part)
        }),
    ensures
        shows(accounts_part(c), part),
{
    let create_controller = create_account_text(c, c.controller_id);
    let create_token = create_account_text(c, c.token_id);
    let banner = seq![
        painted(
            Color::Yellow,
            "=== DRY RUN MODE - Commands will be displayed but not executed ==="@,
        ) + "\n"@,
    ];
    let heading = seq![painted(Color::Green, "=== Test Mode: Creating Subaccounts ==="@)];
    let s0 = banner;
    let s1 = s0 + heading;
    if shows(s0, part) {
        lemma_shows_before(s0, heading, part);
    }
    let s2 = s1 + command_lines(create_controller);
    if contains_text(create_controller, part) {
        lemma_command_shown(create_controller, part);
        lemma_shows_after(s1, command_lines(create_controller), part);
    }
    if shows(s1, part) {
        lemma_shows_before(s1, command_lines(create_controller), part);
    }
    let s3 = s2 + command_lines(create_token);
    if contains_text(create_token, part) {
        lemma_command_shown(create_token, part);
        lemma_shows_after(s2, command_lines(create_token), part);
    }
    if shows(s2, part) {
        lemma_shows_before(s2, command_lines(create_token), part);
    }
    assert(accounts_part(c) == s3);
}

proof fn lemma_end_shown(c: ConfigView, part: Seq<char>)
    requires
        c.test_mode,
        ({
            let delete_token = delete_account_text(c, c.token_id);
            let delete_controller = delete_account_text(c, c.controller_id);
            ||| contains_text(delete_token, part)
            ||| contains_text(delete_controller, part)
        }),
    ensures
        shows(end_part(c), part),
{
    let delete_token = delete_account_text(c, c.token_id);
    let delete_controller = delete_account_text(c, c.controller_id);
    let heading = seq![
        "\n"@ + painted(Color::Yellow, "=== Test Mode Cleanup (Dry Run) ==="@),
    ];
    let done = seq![
        painted(Color::Yellow, "=== Dry Run Complete - No changes made ==="@),
    ];
    let s0 = heading;
    let s1 = s0 + command_lines(delete_token);
    if contains_text(delete_token, part) {
        lemma_command_shown(delete_token, part);
        lemma_shows_after(s0, command_lines(delete_token), part);
    }
    if shows(s0, part) {
        lemma_shows_before(s0, command_lines(delete_token), part);
    }
    let s2 = s1 + command_lines(delete_controller);
    if contains_text(delete_controller, part) {
        lemma_command_shown(delete_controller, part);
        lemma_shows_after(s1, command_lines(delete_controller), part);
    }
    if shows(s1, part) {
        lemma_shows_before(s1, command_lines(delete_controller), part);
    }
    let s3 = s2 + done;
    if shows(s2, part) {
        lemma_shows_before(s2, done, part);
    }
    assert(end_part(c) == s3);
}

/// A rehearsal shows a command for each contract, on its own account, with its own file and its own
/// initialization: the controller for the signer, and the token with the signer as its owner and the
/// values that were configured.
pub proof fn law_a_rehearsal_deploys_each_contract(
    c: ConfigView,
    token_path: Seq<char>,
    controller_path: Seq<char>,
    bytes: Option<u64>,
)
    ensures
        ({
            let lines = dry_run_text(c, token_path, controller_path, bytes);
            let network = if c.network is Mainnet {
                "mainnet"@
            } else {
                "testnet"@
            };
            &&& shows(
                lines,
                "near deploy "@ + c.controller_id + " "@ + controller_path
                    + " --initFunction new --initArgs '"@ + controller_args_text(c.signer_id)
                    + "' --networkId "@ + network,
            )
            &&& shows(
                lines,
                "near deploy "@ + c.token_id + " "@ + token_path
                    + " --initFunction new --initArgs '"@ + token_args_text(
                    TokenTerms {
                        name: c.token_name,
                        symbol: c.token_symbol,
                        decimals: c.token_decimals,
                        owner: c.signer_id,
                        supply: c.total_supply_yocto,
                        price: c.initial_price,
                    },
                ) + "' --networkId "@ + network,
            )
        }),
{
    let x = deploy_text(c, c.controller_id, controller_path, controller_args_text(c.signer_id));
    let y = deploy_text(c, c.token_id, token_path, token_args_text(token_terms(c)));
    lemma_stands_in_itself(x);
    lemma_stands_in_itself(y);
    lemma_contracts_shown(c, token_path, controller_path, x);
    lemma_contracts_shown(c, token_path, controller_path, y);
    lemma_rehearsed(c, token_path, controller_path, bytes, x);
    lemma_rehearsed(c, token_path, controller_path, bytes, y);
}

/// A rehearsal hands the token over as a deployment does: the signer offers it to the controller, with
/// the arguments of the offer that is made, and has the controller accept it.
pub proof fn law_a_rehearsal_hands_the_token_over(
    c: ConfigView,
    token_path: Seq<char>,
    controller_path: Seq<char>,
    bytes: Option<u64>,
)
    ensures
        ({
            let lines = dry_run_text(c, token_path, controller_path, bytes);
            &&& shows(
                lines,
                "near call "@ + c.token_id + " owner_set '"@ + propose_args_text(c.controller_id)
                    + "' --accountId "@ + c.signer_id,
            )
            &&& shows(
                lines,
                "near call "@ + c.controller_id + " delegate_execution '{\"receiver_id\":\""@
                    + c.token_id + "\""@,
            )
        }),
{
    let offer = "near call "@ + c.token_id + " owner_set '"@ + propose_args_text(c.controller_id)
        + "' --accountId "@ + c.signer_id;
    let network = if c.network is Mainnet {
        "mainnet"@
    } else {
        "testnet"@
    };
    assert(" owner_set '{\"new_owner\":\""@ == " owner_set '"@ + "{\"new_owner\":\""@) by {
        reveal_strlit(" owner_set '{\"new_owner\":\"");
        reveal_strlit(" owner_set '");
        reveal_strlit("{\"new_owner\":\"");
        assert(" owner_set '{\"new_owner\":\""@ =~= " owner_set '"@ + "{\"new_owner\":\""@);
    }
    assert("\"}' --accountId "@ == "\"}"@ + "' --accountId "@) by {
        reveal_strlit("\"}' --accountId ");
        reveal_strlit("\"}");
        reveal_strlit("' --accountId ");
        assert("\"}' --accountId "@ =~= "\"}"@ + "' --accountId "@);
    }
    assert(propose_args_text(c.controller_id) == "{\"new_owner\":\""@ + c.controller_id + "\"}"@) by {
        reveal_strlit("{");
        reveal_strlit("}");
        reveal_strlit("\"");
        reveal_strlit(":");
        reveal_strlit("new_owner");
        reveal_strlit("{\"new_owner\":\"");
        reveal_strlit("\"}");
        assert(propose_args_text(c.controller_id) =~= "{\"new_owner\":\""@ + c.controller_id
            + "\"}"@);
    }
    lemma_offer_regroups(
        "near call "@ + c.token_id,
        " owner_set '"@,
        "{\"new_owner\":\""@,
        c.controller_id,
        "\"}"@,
        "' --accountId "@,
        c.signer_id,
    );
    assert(propose_owner_text(c) == offer + " --networkId "@ + network);
    lemma_stands_in_itself(offer);
    lemma_stands_before(offer, " --networkId "@, offer);
    lemma_stands_before(offer + " --networkId "@, network, offer);
    lemma_contracts_shown(c, token_path, controller_path, offer);
    lemma_rehearsed(c, token_path, controller_path, bytes, offer);
    lemma_acceptance_shown(c, token_path, controller_path, bytes);
}

proof fn lemma_offer_regroups(
    head: Seq<char>,
    a: Seq<char>,
    b: Seq<char>,
    id: Seq<char>,
    d: Seq<char>,
    e: Seq<char>,
    f: Seq<char>,
)
    ensures
        head + (a + b) + id + (d + e) + f == head + a + (b + id + d) + e + f,
{
    assert(head + (a + b) + id + (d + e) + f =~= head + a + (b + id + d) + e + f);
}

proof fn lemma_acceptance_shown(
    c: ConfigView,
    token_path: Seq<char>,
    controller_path: Seq<char>,
    bytes: Option<u64>,
)
    ensures
        shows(
            dry_run_text(c, token_path, controller_path, bytes),
            "near call "@ + c.controller_id + " delegate_execution '{\"receiver_id\":\""@
                + c.token_id + "\""@,
        ),
{
    let start = "near call "@ + c.controller_id + " delegate_execution '{\"receiver_id\":\""@
        + c.token_id;
    let part = start + "\""@;
    let rest = ",\"actions\":[{\"function_name\":\"owner_accept\",\"arguments\":\"\",\"amount\":\"0\",\"gas\":\"20000000000000\"}]}' --accountId "@;
    lemma_actions_text();
    let network = if c.network is Mainnet {
        "mainnet"@
    } else {
        "testnet"@
    };
    assert(start + ("\""@ + rest) =~= part + rest);
    let s1 = part + rest;
    lemma_stands_in_itself(part);
    lemma_stands_before(part, rest, part);
    lemma_stands_before(s1, c.signer_id, part);
    lemma_stands_before(s1 + c.signer_id, " --networkId "@, part);
    lemma_stands_before(s1 + c.signer_id + " --networkId "@, network, part);
    lemma_stands_before(
        s1 + c.signer_id + " --networkId "@ + network,
        " --amount 0.000000000000000000000001"@,
        part,
    );
    assert(accept_owner_text(c) == s1 + c.signer_id + " --networkId "@ + network
        + " --amount 0.000000000000000000000001"@);
    lemma_contracts_shown(c, token_path, controller_path, part);
    lemma_rehearsed(c, token_path, controller_path, bytes, part);
}

proof fn lemma_actions_text()
    ensures
        "\",\"actions\":[{\"function_name\":\"owner_accept\",\"arguments\":\"\",\"amount\":\"0\",\"gas\":\"20000000000000\"}]}' --accountId "@
            == "\""@
            + ",\"actions\":[{\"function_name\":\"owner_accept\",\"arguments\":\"\",\"amount\":\"0\",\"gas\":\"20000000000000\"}]}' --accountId "@,
{
    reveal_strlit(
        "\",\"actions\":[{\"function_name\":\"owner_accept\",\"arguments\":\"\",\"amount\":\"0\",\"gas\":\"20000000000000\"}]}' --accountId ",
    );
    reveal_strlit(
        ",\"actions\":[{\"function_name\":\"owner_accept\",\"arguments\":\"\",\"amount\":\"0\",\"gas\":\"20000000000000\"}]}' --accountId ",
    );
    reveal_strlit("\"");
    assert("\",\"actions\":[{\"function_name\":\"owner_accept\",\"arguments\":\"\",\"amount\":\"0\",\"gas\":\"20000000000000\"}]}' --accountId "@
        =~= "\""@
        + ",\"actions\":[{\"function_name\":\"owner_accept\",\"arguments\":\"\",\"amount\":\"0\",\"gas\":\"20000000000000\"}]}' --accountId "@);
}

/// A rehearsal registers the token with the controller and reads both back: the upload takes the
/// token's file, with the deposit that its size asks for, and the owner is read from the token.
pub proof fn law_a_rehearsal_registers_the_token(
    c: ConfigView,
    token_path: Seq<char>,
    controller_path: Seq<char>,
    size: u64,
)
    ensures
        ({
            let lines = dry_run_text(c, token_path, controller_path, Some(size));
            let network = if c.network is Mainnet {
                "mainnet"@
            } else {
                "testnet"@
            };
            let deposit = (10_000_000_000_000_000_000 * size
                + 1_000_000_000_000_000_000_000_000) as u128;
            &&& shows(
                lines,
                "near call "@ + c.controller_id + " add_release_blob --accountId "@ + c.signer_id
                    + " --networkId "@ + network + " --amount "@ + first_word_of(
                    exact_amount(deposit),
                ) + " < "@ + token_path,
            )
            &&& shows(
                lines,
                "near call "@ + c.controller_id + " add_deployment_info '{\"contract_id\":\""@
                    + c.token_id,
            )
            &&& shows(
                lines,
                "near view "@ + c.controller_id + " get_deployment '{\"account_id\":\""@
                    + c.token_id,
            )
            &&& shows(
                lines,
                "near view "@ + c.token_id + " owner_get '{}' --networkId "@ + network,
            )
        }),
{
    let bytes = Some(size);
    let network = if c.network is Mainnet {
        "mainnet"@
    } else {
        "testnet"@
    };
    assert(size * 10_000_000_000_000_000_000 == 10_000_000_000_000_000_000 * size);
    let upload = release_blob_text(c, token_path, bytes);
    lemma_stands_in_itself(upload);
    lemma_registry_shown(c, token_path, bytes, upload);
    lemma_rehearsed(c, token_path, controller_path, bytes, upload);
    let record = "near call "@ + c.controller_id + " add_deployment_info '{\"contract_id\":\""@
        + c.token_id;
    let r1 = record + "\",...}' --accountId "@;
    lemma_stands_in_itself(record);
    lemma_stands_before(record, "\",...}' --accountId "@, record);
    lemma_stands_before(r1, c.signer_id, record);
    lemma_stands_before(r1 + c.signer_id, " --networkId "@, record);
    lemma_stands_before(r1 + c.signer_id + " --networkId "@, network, record);
    lemma_stands_before(
        r1 + c.signer_id + " --networkId "@ + network,
        " --amount 0.000000000000000000000001"@,
        record,
    );
    lemma_registry_shown(c, token_path, bytes, record);
    lemma_rehearsed(c, token_path, controller_path, bytes, record);
    let read = "near view "@ + c.controller_id + " get_deployment '{\"account_id\":\""@ + c.token_id;
    lemma_stands_in_itself(read);
    lemma_stands_before(read, "\"}' --networkId "@, read);
    lemma_stands_before(read + "\"}' --networkId "@, network, read);
    lemma_registry_shown(c, token_path, bytes, read);
    lemma_rehearsed(c, token_path, controller_path, bytes, read);
    let owner = read_owner_text(c);
    lemma_stands_in_itself(owner);
    lemma_registry_shown(c, token_path, bytes, owner);
    lemma_rehearsed(c, token_path, controller_path, bytes, owner);
}

/// In test mode a rehearsal creates both accounts below the signer, with the balance that was
/// configured, and deletes both in favour of the signer.
pub proof fn law_a_rehearsed_test_creates_and_deletes(
    c: ConfigView,
    token_path: Seq<char>,
    controller_path: Seq<char>,
    bytes: Option<u64>,
    id: Seq<char>,
)
    requires
        c.test_mode,
        id == c.controller_id || id == c.token_id,
    ensures
        ({
            let lines = dry_run_text(c, token_path, controller_path, bytes);
            let network = if c.network is Mainnet {
                "mainnet"@
            } else {
                "testnet"@
            };
            &&& shows(
                lines,
                "near create-account "@ + id + " --masterAccount "@ + c.signer_id
                    + " --initialBalance "@ + rounded_amount(c.initial_balance) + " --networkId "@
                    + network,
            )
            &&& shows(
                lines,
                "near delete-account "@ + id + " "@ + c.signer_id + " --networkId "@ + network,
            )
        }),
{
    let created = create_account_text(c, id);
    let deleted = delete_account_text(c, id);
    lemma_stands_in_itself(created);
    lemma_stands_in_itself(deleted);
    lemma_accounts_shown(c, created);
    lemma_end_shown(c, deleted);
    lemma_rehearsed(c, token_path, controller_path, bytes, created);
    lemma_rehearsed(c, token_path, controller_path, bytes, deleted);
}

} // verus!
