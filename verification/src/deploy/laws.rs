//! What holds of a deployment over JSON-RPC as a whole: what may be replaced, what must be confirmed,
//! what success means, and where each answer, flag and file ends up.
use crate::account::is_account_id;
use crate::deploy::actions::{
    check_result, checks_made, codes_on, confirmation_fault, course_after, course_start,
    course_through, ending, existing_fault, law_each_account_gets_its_own_code, plan_of,
    preflight_fault, sends, went_well, Course, Phase, StepResult,
};
use crate::deploy::cli::{
    is_flag, law_flags_stay_as_they_are, translated, with_word, with_words, DeployArgs, Network,
};
use crate::deploy::config::{argument_fault, config_fault, configures, DeploymentConfig, WasmFile};
use crate::deploy::credentials::{
    credential_file_text, credential_names, credentials_dir_text, loaded, octal_text, permissions,
    selected_place, trusted, CredentialFile, Credentials, CredentialsView, FileState, PRIVATE_MODE,
};
use crate::deploy::nonces::{nonce_key, NonceKey};
use crate::deploy::prompt::{amount_line, answers, summary_text, Replies};
use crate::deploy::rpc::{owner_name_fault, AccessKeyView, CryptoHash};
use crate::deploy::sending::{refreshed, send_after, SendEvent, SendView};
use crate::deploy::transaction::{
    after_settling, fate_at, submitted, Broadcast, PostSubmit, StatusFailure, StatusReply,
    SubmissionOutcome, TransactionFault,
};
use crate::model::wasm_magic;
use crate::near_amount::{read_amount, rounded_amount};
use crate::paths::below;
use crate::secret_key::{public_key_text, secret_key_texts};
use crate::text::{
    all_digits, contains_text, decimal_text, digits_value, ends_with, law_decimal_text_reads_back,
    lemma_decimal_stays_trimmed, lemma_stands_after, lemma_stands_before, lemma_stands_in_itself,
    opt_text, starts_with, trimmed,
};
use vstd::prelude::*;

verus! {

/// A contract goes on an account that does not exist yet, on one with code only where that is asked
/// for, and on one without code only where it has no state. A refusal names the account.
pub proof fn law_code_is_replaced_only_on_request(
    id: Seq<char>,
    code_hash: Option<Seq<u8>>,
    has_state: bool,
    redeploy: bool,
)
    ensures
        ({
            let refused = preflight_fault(id, code_hash, has_state, redeploy);
            let has_code = code_hash is Some && exists|i: int|
                0 <= i < code_hash->0.len() && code_hash->0[i] != 0;
            &&& code_hash is None ==> refused is None
            &&& has_code ==> (refused is None <==> redeploy)
            &&& code_hash is Some && !has_code ==> (refused is None <==> !has_state)
            &&& refused is Some ==> contains_text(refused->0, id)
        }),
{
    lemma_stands_in_itself(id);
    lemma_stands_after("account "@, id, id);
    lemma_stands_before(
        "account "@ + id,
        " already contains contract state; refusing automatic redeploy"@,
        id,
    );
    lemma_stands_before(
        "account "@ + id,
        " already has deployed code; use --redeploy explicitly"@,
        id,
    );
}

/// An account that exists is taken over exactly where the signer's key and the account's own are
/// there with full access and the account's credentials are at hand.
pub proof fn law_an_existing_account_takes_full_access(
    id: Seq<char>,
    signer_key: Result<AccessKeyView, String>,
    credentials: Result<Credentials, String>,
    account_key: Result<AccessKeyView, String>,
)
    ensures
        existing_fault(id, signer_key, credentials, account_key) is None <==> {
            &&& signer_key is Ok
            &&& signer_key->Ok_0.permission is FullAccess
            &&& credentials is Ok
            &&& account_key is Ok
            &&& account_key->Ok_0.permission is FullAccess
        },
{
}

/// On mainnet, where the flag does not say yes, nothing is sent before the operator was asked and
/// typed the network's name; anything else ends the deployment. Elsewhere nobody is asked.
pub proof fn law_mainnet_takes_the_operators_word(
    network: Network,
    yes: bool,
    test_mode: bool,
    input: Seq<char>,
    later: Seq<StepResult>,
)
    ensures
        ({
            let start = course_start(network, yes, false, test_mode);
            let said = course_after(start, check_result(confirmation_fault(input)));
            &&& start.phase is Confirming <==> network is Mainnet && !yes
            &&& network is Mainnet && !yes ==> {
                &&& trimmed(input) == "mainnet"@ ==> !said.failed && !(said.phase is Done)
                &&& trimmed(input) != "mainnet"@ ==> {
                    &&& said.failed
                    &&& !sends(course_through(said, later).phase)
                }
            }
        }),
{
    let start = course_start(network, yes, false, test_mode);
    let said = course_after(start, check_result(confirmation_fault(input)));
    if said.phase is Done {
        lemma_done_stays(said, later);
    }
}

proof fn lemma_done_stays(c: Course, later: Seq<StepResult>)
    requires
        c.phase is Done,
    ensures
        course_through(c, later) == c,
    decreases later.len(),
{
    if later.len() > 0 {
        lemma_done_stays(c, later.drop_last());
    }
}

/// The place of a phase in a deployment that goes well.
spec fn place(c: Course) -> int {
    match c.phase {
        Phase::Confirming => 0,
        Phase::ReadingBlock => 1,
        Phase::ReadingKey => 2,
        Phase::ViewingController => 3,
        Phase::ViewingToken => 4,
        Phase::CheckingController => 5,
        Phase::CheckingToken => 6,
        Phase::PreparingController => 7,
        Phase::PreparingToken => 8,
        Phase::Deploying => 9,
        _ => if c.dry_run {
            7
        } else {
            10
        },
    }
}

proof fn lemma_went_well(
    network: Network,
    yes: bool,
    dry_run: bool,
    test_mode: bool,
    results: Seq<StepResult>,
)
    ensures
        ({
            let c = course_through(course_start(network, yes, dry_run, test_mode), results);
            let made = checks_made(network, yes, dry_run);
            let steps = place(c) - (7 - made);
            &&& c.dry_run == dry_run
            &&& c.test_mode == test_mode
            &&& c.phase is PreparingController || c.phase is PreparingToken || c.phase is Deploying
                || c.phase is DeletingToken || c.phase is DeletingController ==> !dry_run
            &&& !c.failed ==> {
                &&& results.len() >= steps
                &&& !(c.phase is Done || c.phase is DeletingToken || c.phase is DeletingController)
                    ==> results.len() == steps
                &&& forall|i: int| 0 <= i < steps ==> went_well(#[trigger] results[i])
                &&& place(c) >= 8 ==> c.created_controller == (results[made] == StepResult::Created)
                &&& place(c) >= 9 ==> c.created_token == (results[made + 1] == StepResult::Created)
                &&& c.phase is DeletingToken ==> results.len() == made + 3 && c.created_token
                    && test_mode
                &&& c.phase is DeletingController ==> c.created_controller && test_mode
                    && results.len() == made + 3 + if c.created_token {
                    1int
                } else {
                    0int
                } && (c.created_token && !c.cleanup_failed ==> went_well(results[made + 3]))
                &&& c.phase is Done && !c.cleanup_failed && test_mode && !dry_run ==> {
                    &&& c.created_token ==> results.len() > made + 3 && went_well(
                        results[made + 3],
                    )
                    &&& c.created_controller ==> {
                        let at = made + 3 + if c.created_token {
                            1int
                        } else {
                            0int
                        };
                        results.len() > at && went_well(results[at])
                    }
                }
            }
        }),
    decreases results.len(),
{
    if results.len() > 0 {
        let before = results.drop_last();
        lemma_went_well(network, yes, dry_run, test_mode, before);
        assert(forall|i: int| 0 <= i < before.len() ==> before[i] == results[i]);
        let c = course_through(course_start(network, yes, dry_run, test_mode), before);
        let d = course_after(c, results.last());
        let made = checks_made(network, yes, dry_run);
        assert(results[results.len() - 1] == results.last());
        assert(made < before.len() ==> before[made] == results[made]);
        assert(made + 1 < before.len() ==> before[made + 1] == results[made + 1]);
        assert(made + 3 < before.len() ==> before[made + 3] == results[made + 3]);
        assert(made + 4 < before.len() ==> before[made + 4] == results[made + 4]);
        if !d.failed {
            assert(!c.failed);
            let steps = place(c) - (7 - made);
            assert forall|i: int| 0 <= i < place(d) - (7 - made) implies went_well(
                #[trigger] results[i],
            ) by {
                if i < steps {
                    assert(went_well(before[i]));
                }
            }
        }
    }
}

/// A deployment that ends well made every check, had both accounts and deployed the contracts, and
/// every one of these steps came out well; a dry run made every check. In test mode each account that
/// was created was deleted again.
pub proof fn law_success_means_every_step_went_well(
    network: Network,
    yes: bool,
    dry_run: bool,
    test_mode: bool,
    results: Seq<StepResult>,
)
    requires
        ({
            let c = course_through(course_start(network, yes, dry_run, test_mode), results);
            c.phase is Done && !c.failed && !c.cleanup_failed
        }),
    ensures
        ({
            let made: int = if network is Mainnet && !yes && !dry_run {
                7
            } else {
                6
            };
            let steps = if dry_run {
                made
            } else {
                made + 3
            };
            &&& results.len() >= steps
            &&& forall|i: int| 0 <= i < steps ==> went_well(#[trigger] results[i])
            &&& !dry_run && test_mode && results[made + 1] == StepResult::Created ==> {
                &&& results.len() > made + 3
                &&& went_well(results[made + 3])
            }
            &&& !dry_run && test_mode && results[made] == StepResult::Created ==> {
                let at = if results[made + 1] == StepResult::Created {
                    made + 4
                } else {
                    made + 3
                };
                results.len() > at && went_well(results[at])
            }
        }),
{
    lemma_went_well(network, yes, dry_run, test_mode, results);
}

/// A transaction that the node calls final is taken as it says; one that failed before it could leave
/// was not sent, and the reason is told; of any other only its fate can tell, and it is not judged.
pub proof fn law_a_broadcast_is_judged_by_its_answer(tx_hash: Seq<u8>, broadcast: Broadcast)
    ensures
        ({
            let judged = submitted(tx_hash, broadcast);
            match broadcast {
                Broadcast::Final(well) => {
                    &&& judged is Some
                    &&& judged->0 is Ok <==> well
                    &&& well ==> !judged->0->Ok_0.was_ambiguous
                    &&& !well ==> judged->0->Err_0 is ConfirmedFailure
                        && judged->0->Err_0->ConfirmedFailure_0 == tx_hash
                },
                Broadcast::Failed(at, reason) => {
                    &&& judged is None <==> at is Broadcast
                    &&& judged is Some ==> judged->0 is Err && judged->0->Err_0 is Other && ends_with(
                        judged->0->Err_0->Other_0,
                        reason@,
                    )
                },
                _ => judged is None,
            }
        }),
{
    match broadcast {
        Broadcast::Failed(at, reason) => {
            lemma_ends_with("near-api transaction preparation failed: "@, reason@);
        },
        _ => {},
    }
}

proof fn lemma_ends_with(x: Seq<char>, y: Seq<char>)
    ensures
        ends_with(x + y, y),
{
    assert((x + y).skip((x + y).len() - y.len()) =~= y);
}

/// What a node says of a transaction that was executed is its fate, of that transaction and with the
/// node's words. Where the node says nothing of it, or cannot be reached, it is asked again, thirty
/// times in all, and then the fate is not known; so it is at once where asking again is no use.
pub proof fn law_a_fate_is_what_the_node_says(asked: nat, reply: StatusReply, tx_hash: Seq<u8>)
    ensures
        ({
            let told = fate_at(asked, reply, tx_hash);
            let unresolved = Some(
                Err::<(), TransactionFault>(TransactionFault::Unresolved(tx_hash)),
            );
            match reply {
                StatusReply::Succeeded => told == Some(Ok::<(), TransactionFault>(())),
                StatusReply::Failed(detail) => told == Some(
                    Err::<(), TransactionFault>(
                        TransactionFault::ConfirmedFailure(tx_hash, detail@),
                    ),
                ),
                StatusReply::Error(StatusFailure::Other) => told == unresolved,
                _ => told == if asked >= 30 {
                    unresolved
                } else {
                    None
                },
            }
        }),
{
}

/// A success whose fate had to be asked for has the nonces compared before anything else is sent, and
/// one that was told at once has not. A failure is passed on as it is.
pub proof fn law_an_ambiguous_success_compares_nonces(
    nonce: u64,
    result: Result<SubmissionOutcome, TransactionFault>,
)
    requires
        nonce < u64::MAX,
    ensures
        match result {
            Ok(outcome) => after_settling(nonce, result) is Ok && (after_settling(nonce, result)->Ok_0
                is NeedsRefresh <==> outcome.was_ambiguous),
            Err(fault) => after_settling(nonce, result) == Err::<PostSubmit, TransactionFault>(
                fault,
            ),
        },
{
}

/// A node's key is used only with full access, and only while there is a nonce left after it.
pub proof fn law_only_full_access_signs(
    v: SendView,
    nonces: Map<NonceKey, u64>,
    key: AccessKeyView,
)
    requires
        v.stage is Asking,
    ensures
        ({
            let w = send_after(v, nonces, SendEvent::Key(Ok(key))).0;
            &&& refreshed(nonces, v.key, key) is Ok <==> key.permission is FullAccess && key.nonce
                < u64::MAX
            &&& w.stage is Broadcasting <==> key.permission is FullAccess && key.nonce < u64::MAX
            &&& w.stage is Broadcasting ==> w.nonce > key.nonce && w.key == v.key
            &&& !(w.stage is Broadcasting) ==> w.stage is Done && w.result is Some && w.result->0
                is Err
        }),
{
}

/// The owner is as expected exactly where the token names the expected account.
pub proof fn law_only_the_expected_owner_passes(owner: Option<Seq<char>>, expected: Seq<char>)
    requires
        is_account_id(expected),
    ensures
        owner_name_fault(owner, expected) is None <==> owner == Some(expected),
{
}

/// Whether a file that was read holds a WASM module.
pub open spec fn is_module(file: WasmFile) -> bool {
    match file {
        WasmFile::Read(size, bytes) => {
            &&& size >= 8
            &&& bytes@.len() >= 4
            &&& bytes@[0] == 0x00 && bytes@[1] == 0x61 && bytes@[2] == 0x73 && bytes@[3] == 0x6d
        },
        _ => false,
    }
}

/// Arguments are accepted exactly where the token has decimals, a name, a symbol, a supply and a
/// price, both accounts are valid and both files hold a WASM module.
pub proof fn law_a_configuration_is_sound(
    args: DeployArgs,
    signer: Seq<char>,
    controller_wasm: WasmFile,
    token_wasm: WasmFile,
)
    ensures
        ({
            let controller = match args.controller_id {
                Some(id) => id@,
                None => "controller."@ + signer,
            };
            let token = match args.token_id {
                Some(id) => id@,
                None => "token."@ + signer,
            };
            argument_fault(args) is None && config_fault(
                args,
                signer,
                controller_wasm,
                token_wasm,
            ) is None <==> {
                &&& args.token_decimals > 0
                &&& trimmed(args.token_name@).len() > 0
                &&& trimmed(args.token_symbol@).len() > 0
                &&& args.total_supply > 0
                &&& args.initial_price > 0
                &&& is_account_id(controller)
                &&& is_account_id(token)
                &&& is_module(controller_wasm)
                &&& is_module(token_wasm)
            }
        }),
{
    lemma_module(controller_wasm);
    lemma_module(token_wasm);
}

proof fn lemma_module(file: WasmFile)
    ensures
        file matches WasmFile::Read(size, bytes) ==> (bytes@.len() >= 4 && bytes@.take(4)
            == wasm_magic() <==> bytes@.len() >= 4 && bytes@[0] == 0x00 && bytes@[1] == 0x61
            && bytes@[2] == 0x73 && bytes@[3] == 0x6d),
{
    if file is Read && file->Read_1@.len() >= 4 {
        let bytes = file->Read_1@;
        let head = bytes.take(4);
        assert(head[0] == bytes[0] && head[1] == bytes[1] && head[2] == bytes[2] && head[3]
            == bytes[3]);
        if bytes[0] == 0x00 && bytes[1] == 0x61 && bytes[2] == 0x73 && bytes[3] == 0x6d {
            assert(head =~= wasm_magic());
        }
    }
}

/// What is deployed on each account is what was read in the file that was named for it, on the
/// accounts that were named or else lie below the signer.
pub proof fn law_the_files_that_were_read_are_deployed(
    args: DeployArgs,
    signer: CredentialsView,
    controller_wasm: WasmFile,
    token_wasm: WasmFile,
    c: DeploymentConfig,
    new_controller: bool,
    new_token: bool,
)
    requires
        configures(args, signer, controller_wasm, token_wasm, c),
        c.controller_id@ != c.token_id@,
        controller_wasm is Read,
        token_wasm is Read,
    ensures
        ({
            let plan = plan_of(c, new_controller, new_token);
            let controller = match args.controller_id {
                Some(id) => id@,
                None => "controller."@ + signer.account,
            };
            let token = match args.token_id {
                Some(id) => id@,
                None => "token."@ + signer.account,
            };
            &&& codes_on(plan, controller) == seq![controller_wasm->Read_1@]
            &&& codes_on(plan, token) == seq![token_wasm->Read_1@]
        }),
{
    let other = c.controller_id@ + c.token_id@ + "x"@;
    assert(other != c.controller_id@ && other != c.token_id@) by {
        reveal_strlit("x");
        assert("x"@.len() == 1);
        assert(other.len() > c.controller_id@.len());
        assert(other.len() > c.token_id@.len());
    }
    law_each_account_gets_its_own_code(c, new_controller, new_token, other, 0);
}

/// The values and switches of a configuration are those of the arguments, each under its own name.
pub proof fn law_arguments_reach_the_configuration(
    args: DeployArgs,
    signer: CredentialsView,
    controller_wasm: WasmFile,
    token_wasm: WasmFile,
    c: DeploymentConfig,
)
    requires
        configures(args, signer, controller_wasm, token_wasm, c),
    ensures
        c.network == args.network,
        c.signer@ == signer,
        c.token_name@ == args.token_name@,
        c.token_symbol@ == args.token_symbol@,
        c.token_decimals == args.token_decimals,
        c.total_supply == args.total_supply,
        c.initial_price == args.initial_price,
        c.initial_balance == args.initial_balance,
        c.redeploy == args.redeploy,
        c.dry_run == args.dry_run,
        c.test_mode == args.test_mode,
        c.yes == args.yes,
{
}

/// Every answer that is not blank becomes the argument that was asked for with it.
pub proof fn law_every_answer_becomes_its_argument(
    network: Network,
    signer: Seq<char>,
    replies: Replies,
    args: DeployArgs,
)
    requires
        answers(network, signer, replies, args),
    ensures
        args.network == network,
        opt_text(args.signer_id) == Some(signer),
        trimmed(replies.controller_id@).len() > 0 ==> opt_text(args.controller_id) == Some(
            trimmed(replies.controller_id@),
        ),
        trimmed(replies.token_id@).len() > 0 ==> opt_text(args.token_id) == Some(
            trimmed(replies.token_id@),
        ),
        trimmed(replies.token_name@).len() > 0 ==> args.token_name@ == trimmed(replies.token_name@),
        trimmed(replies.token_symbol@).len() > 0 ==> args.token_symbol@ == trimmed(
            replies.token_symbol@,
        ),
        trimmed(replies.token_decimals@).len() > 0 && all_digits(trimmed(replies.token_decimals@))
            ==> args.token_decimals == digits_value(trimmed(replies.token_decimals@)),
        trimmed(replies.total_supply@).len() > 0 ==> read_amount(trimmed(replies.total_supply@))
            == Ok::<u128, Seq<char>>(args.total_supply),
        trimmed(replies.initial_price@).len() > 0 ==> read_amount(trimmed(replies.initial_price@))
            == Ok::<u128, Seq<char>>(args.initial_price),
        trimmed(replies.initial_balance@).len() > 0 ==> read_amount(
            trimmed(replies.initial_balance@),
        ) == Ok::<u128, Seq<char>>(args.initial_balance),
        !args.redeploy,
        !args.dry_run,
        !args.test_mode,
        !args.yes,
{
}

/// The summary of a session shows, line by line under its label, the network, the signer, both
/// accounts, and the name, symbol and decimals of the token; the supply, the price and the balance it
/// shows to the last yoctoNEAR.
pub proof fn law_the_summary_shows_the_arguments(args: DeployArgs)
    requires
        args.signer_id is Some,
        args.controller_id is Some,
        args.token_id is Some,
    ensures
        ({
            let lines = summary_text(args);
            &&& lines.len() == 11
            &&& lines[1] == "network:         "@ + if args.network is Mainnet {
                "Mainnet"@
            } else {
                "Testnet"@
            }
            &&& lines[2] == "signer:          "@ + args.signer_id->0@
            &&& lines[3] == "controller:      "@ + args.controller_id->0@
            &&& lines[4] == "token:           "@ + args.token_id->0@
            &&& lines[5] == "token name:      "@ + args.token_name@
            &&& lines[6] == "token symbol:    "@ + args.token_symbol@
            &&& lines[7] == "token decimals:  "@ + decimal_text(args.token_decimals as nat)
            &&& starts_with(lines[8], "total supply:    "@)
            &&& ends_with(
                lines[8],
                " ("@ + decimal_text(args.total_supply as nat) + " yoctoNEAR)"@,
            )
            &&& starts_with(lines[9], "initial price:   "@)
            &&& ends_with(
                lines[9],
                " ("@ + decimal_text(args.initial_price as nat) + " yoctoNEAR)"@,
            )
            &&& starts_with(lines[10], "initial balance: "@)
            &&& ends_with(
                lines[10],
                " ("@ + decimal_text(args.initial_balance as nat) + " yoctoNEAR)"@,
            )
        }),
{
    lemma_amount_line("total supply:    "@, args.total_supply);
    lemma_amount_line("initial price:   "@, args.initial_price);
    lemma_amount_line("initial balance: "@, args.initial_balance);
}

proof fn lemma_amount_line(label: Seq<char>, yocto: u128)
    ensures
        starts_with(amount_line(label, yocto), label),
        ends_with(
            amount_line(label, yocto),
            " ("@ + decimal_text(yocto as nat) + " yoctoNEAR)"@,
        ),
{
    let tail = " ("@ + decimal_text(yocto as nat) + " yoctoNEAR)"@;
    let line = amount_line(label, yocto);
    assert(line =~= label + rounded_amount(yocto) + tail);
    assert(line.take(label.len() as int) =~= label);
    lemma_ends_with(label + rounded_amount(yocto), tail);
}

/// The older form of a command line deploys on the network that it names; `test` is testnet in test
/// mode, and the others are not in test mode by themselves. Of what follows, everything stays in its
/// order, and the first word that is no flag becomes the signer.
pub proof fn law_the_older_form_keeps_its_meaning(args: Seq<Seq<char>>, k: int)
    requires
        args.len() >= 2,
        args[0] != "--signer-id"@,
        args[1] == "test"@ || args[1] == "testnet"@ || args[1] == "mainnet"@,
        2 <= k <= args.len(),
        forall|i: int| 2 <= i < k ==> is_flag(#[trigger] args[i]) && args[i] != "--signer-id"@,
        k < args.len() ==> !is_flag(args[k]),
    ensures
        ({
            let head = seq![
                args[0],
                "deploy"@,
                "--network"@,
                if args[1] == "mainnet"@ {
                    "mainnet"@
                } else {
                    "testnet"@
                },
            ];
            let start = if args[1] == "test"@ {
                head.push("--test-mode"@)
            } else {
                head
            };
            translated(args) == if k < args.len() {
                start + args.subrange(2, k) + seq!["--signer-id"@] + args.skip(k)
            } else {
                start + args.skip(2)
            }
        }),
{
    lemma_words_differ();
    let start = if args[1] == "test"@ {
        seq![args[0], "deploy"@, "--network"@, "testnet"@, "--test-mode"@]
    } else {
        seq![args[0], "deploy"@, "--network"@, args[1]]
    };
    let words = args.skip(2);
    assert(!start.contains("--signer-id"@));
    lemma_first_word(start, words, k - 2);
    assert(words.take(k - 2) =~= args.subrange(2, k));
    assert(words.skip(k - 2) =~= args.skip(k));
    if k < args.len() {
        assert(start + words.take(k - 2) + seq!["--signer-id"@] + words.skip(k - 2) =~= start
            + args.subrange(2, k) + seq!["--signer-id"@] + args.skip(k));
    } else {
        assert(words.take(k - 2) =~= words);
    }
    if args[1] == "test"@ {
        assert(seq![args[0], "deploy"@, "--network"@, "testnet"@].push("--test-mode"@) =~= start);
    }
}

proof fn lemma_words_differ()
    ensures
        "--signer-id"@ != "deploy"@,
        "--signer-id"@ != "--network"@,
        "--signer-id"@ != "testnet"@,
        "--signer-id"@ != "mainnet"@,
        "--signer-id"@ != "--test-mode"@,
        "test"@ != "testnet"@,
        "test"@ != "mainnet"@,
        "testnet"@ != "mainnet"@,
{
    reveal_strlit("--signer-id");
    reveal_strlit("deploy");
    reveal_strlit("--network");
    reveal_strlit("test");
    reveal_strlit("testnet");
    reveal_strlit("mainnet");
    reveal_strlit("--test-mode");
    assert("--signer-id"@.len() == 11);
    assert("deploy"@.len() == 6);
    assert("--network"@.len() == 9);
    assert("test"@.len() == 4);
    assert("testnet"@.len() == 7);
    assert("mainnet"@.len() == 7);
    assert("testnet"@[0] == 't');
    assert("mainnet"@[0] == 'm');
    assert("--signer-id"@[2] == 's');
    assert("--test-mode"@[2] == 't');
}

proof fn lemma_first_word(out: Seq<Seq<char>>, words: Seq<Seq<char>>, k: int)
    requires
        !out.contains("--signer-id"@),
        0 <= k <= words.len(),
        forall|i: int| 0 <= i < k ==> is_flag(#[trigger] words[i]) && words[i] != "--signer-id"@,
        k < words.len() ==> !is_flag(words[k]),
    ensures
        with_words(out, words) == if k < words.len() {
            out + words.take(k) + seq!["--signer-id"@] + words.skip(k)
        } else {
            out + words
        },
    decreases words.len(),
{
    if k == words.len() {
        law_flags_stay_as_they_are(out, words);
    } else {
        let before = words.drop_last();
        assert(before.take(k) =~= words.take(k));
        if k == words.len() - 1 {
            law_flags_stay_as_they_are(out, before);
            assert(!(out + before).contains("--signer-id"@)) by {
                assert forall|i: int| 0 <= i < (out + before).len() implies (out + before)[i]
                    != "--signer-id"@ by {
                    if i < out.len() {
                        assert(out.contains(out[i]));
                    } else {
                        assert((out + before)[i] == words[i - out.len()]);
                    }
                }
            }
            assert(words.last() == words[k]);
            assert(with_word(out + before, words.last()) =~= out + words.take(k)
                + seq!["--signer-id"@] + words.skip(k));
        } else {
            assert(before[k] == words[k]);
            lemma_first_word(out, before, k);
            let sofar = out + before.take(k) + seq!["--signer-id"@] + before.skip(k);
            assert(sofar[out.len() + k] == "--signer-id"@);
            assert(sofar.contains("--signer-id"@));
            assert(sofar.push(words.last()) =~= out + words.take(k) + seq!["--signer-id"@]
                + words.skip(k));
        }
    }
}

/// A command stays as it is. Anything else that names no network is a deployment: with the flags as
/// they are, or by the signer that the first word names.
pub proof fn law_other_command_lines_deploy(args: Seq<Seq<char>>)
    requires
        args.len() >= 2,
        args[1] != "test"@,
        args[1] != "testnet"@,
        args[1] != "mainnet"@,
    ensures
        ({
            let named = args[1] == "deploy"@ || args[1] == "clean-accounts"@ || args[1]
                == "clean-up"@ || args[1] == "delete-accounts"@ || args[1] == "help"@;
            let out = translated(args);
            &&& named ==> out == args
            &&& !named && is_flag(args[1]) ==> out == seq![args[0], "deploy"@] + args.skip(1)
            &&& !named && !is_flag(args[1]) ==> out == seq![
                args[0],
                "deploy"@,
                "--signer-id"@,
            ] + args.skip(1)
        }),
{
}

/// A transaction ends as the node says, with its own hash: at once where the broadcast tells, after
/// the nonces were compared where its fate had to be asked for, and with the fate not known only after
/// thirty questions or where asking is no use.
pub proof fn law_a_sending_ends_as_the_node_says(
    v: SendView,
    nonces: Map<NonceKey, u64>,
    hash: CryptoHash,
    broadcast: Broadcast,
    reply: StatusReply,
)
    requires
        v.nonce < u64::MAX,
    ensures
        v.stage is Broadcasting ==> {
            let w = send_after(v, nonces, SendEvent::Sent(hash, broadcast)).0;
            match broadcast {
                Broadcast::Final(true) => w.stage is Done && w.result == Some(
                    Ok::<(), TransactionFault>(()),
                ),
                Broadcast::Final(false) => {
                    &&& w.stage is Done
                    &&& w.result is Some
                    &&& w.result->0 is Err
                    &&& w.result->0->Err_0 is ConfirmedFailure
                    &&& w.result->0->Err_0->ConfirmedFailure_0 == hash@
                },
                Broadcast::Pending | Broadcast::TimedOut => w.stage is Polling && w.hash == hash@,
                Broadcast::Failed(at, _) => if at is Broadcast {
                    w.stage is Polling && w.hash == hash@
                } else {
                    &&& w.stage is Done
                    &&& w.result is Some
                    &&& w.result->0 is Err
                    &&& w.result->0->Err_0 is Other
                },
            }
        },
        v.stage is Polling ==> {
            let w = send_after(v, nonces, SendEvent::Status(reply)).0;
            match reply {
                StatusReply::Succeeded => w.stage is Refreshing,
                StatusReply::Failed(detail) => w.stage is Done && w.result == Some(
                    Err::<(), TransactionFault>(
                        TransactionFault::ConfirmedFailure(v.hash, detail@),
                    ),
                ),
                StatusReply::Error(StatusFailure::Other) => w.stage is Done && w.result == Some(
                    Err::<(), TransactionFault>(TransactionFault::Unresolved(v.hash)),
                ),
                _ => if v.asked + 1 >= 30 {
                    w.stage is Done && w.result == Some(
                        Err::<(), TransactionFault>(TransactionFault::Unresolved(v.hash)),
                    )
                } else {
                    w.stage is Polling && w.asked == v.asked + 1 && w.hash == v.hash
                },
            }
        },
{
}

/// The nonces of two signers are kept apart exactly where their accounts or their keys differ.
pub proof fn law_nonces_are_kept_by_account_and_key(a: CredentialsView, b: CredentialsView)
    ensures
        nonce_key(a) == nonce_key(b) <==> a.account == b.account && a.public_key == b.public_key,
{
}

/// A deployment is said to have succeeded exactly where nothing failed, and the failure of the
/// deployment itself is the one that is told.
pub proof fn law_the_deployments_failure_is_told(
    failure: Option<Seq<char>>,
    cleanup_failure: Option<Seq<char>>,
)
    ensures
        ending(failure, cleanup_failure) is None <==> failure is None && cleanup_failure is None,
        failure is Some ==> ends_with(ending(failure, cleanup_failure)->0, failure->0),
        failure is None && cleanup_failure is Some ==> ends_with(
            ending(failure, cleanup_failure)->0,
            cleanup_failure->0,
        ),
{
    if failure is Some {
        lemma_ends_with(
            "cleanup also failed: one or more cleanup transactions failed: "@,
            failure->0,
        );
        assert(failure->0.skip(0) =~= failure->0);
    } else if cleanup_failure is Some {
        lemma_ends_with("one or more cleanup transactions failed: "@, cleanup_failure->0);
    }
}

/// A file of credentials is used only where its owner alone may read and write it: its nine bits of
/// permissions are exactly the two of the owner. The refusal of another names the file.
pub proof fn law_only_the_owner_may_read_a_key(
    path: Seq<char>,
    mode: u32,
    contents: CredentialFile,
    expected: Option<Seq<char>>,
)
    ensures
        mode % 512 != 384 ==> {
            let refused = loaded(path, FileState::Read(mode, contents), expected);
            refused is Err && contains_text(refused->Err_0, path)
        },
        mode % 512 == 384 ==> loaded(path, FileState::Read(mode, contents), expected) == trusted(
            contents,
            expected,
        ),
        loaded(path, FileState::Symlink, expected) is Err,
        loaded(path, FileState::NotAFile, expected) is Err,
        loaded(path, FileState::Missing, expected) is Err,
{
    let head = "credential file "@ + path;
    let s1 = head + " must have permissions "@;
    let s2 = s1 + octal_text(PRIVATE_MODE);
    let s3 = s2 + ", found "@;
    lemma_stands_in_itself(path);
    lemma_stands_after("credential file "@, path, path);
    lemma_stands_before(head, " must have permissions "@, path);
    lemma_stands_before(s1, octal_text(PRIVATE_MODE), path);
    lemma_stands_before(s2, ", found "@, path);
    lemma_stands_before(s3, octal_text(permissions(mode)), path);
}

/// Credentials are trusted exactly where the account and both keys are well formed, the keys belong
/// together, and the account is the one that was asked for, if any was.
pub proof fn law_credentials_are_trusted_where_they_match(
    file: CredentialFile,
    expected: Option<Seq<char>>,
)
    ensures
        trusted(file, expected) is Ok <==> {
            &&& is_account_id(file.account_id@)
            &&& secret_key_texts(file.private_key@) is Some
            &&& public_key_text(file.public_key@) is Some
            &&& ({
                let (secret, public) = secret_key_texts(file.private_key@)->0;
                public_key_text(file.public_key@)->0 == public
            })
            &&& expected is Some ==> expected->0 == file.account_id@
        },
        trusted(file, expected) is Ok ==> trusted(file, expected)->Ok_0.account == file.account_id@,
{
}

/// The credentials of two networks lie in different directories, and in a directory each account has
/// its own file, which is named after it.
pub proof fn law_every_account_has_its_own_file(
    dir: Seq<char>,
    a: Seq<char>,
    b: Seq<char>,
    root: Option<Seq<char>>,
    home: Option<Seq<char>>,
)
    ensures
        ends_with(credential_file_text(dir, a), a + ".json"@),
        starts_with(credential_file_text(dir, a), dir),
        credential_file_text(dir, a) == credential_file_text(dir, b) ==> a == b,
        credentials_dir_text(Network::Testnet, root, home) is Some ==> ends_with(
            credentials_dir_text(Network::Testnet, root, home)->0,
            "testnet"@,
        ),
        credentials_dir_text(Network::Mainnet, root, home) is Some ==> ends_with(
            credentials_dir_text(Network::Mainnet, root, home)->0,
            "mainnet"@,
        ),
        credentials_dir_text(Network::Testnet, root, home) is None <==> root is None && home is None,
        credentials_dir_text(Network::Mainnet, root, home) is None <==> root is None && home is None,
{
    lemma_below(dir, a + ".json"@);
    lemma_below(dir, b + ".json"@);
    if credential_file_text(dir, a) == credential_file_text(dir, b) {
        let x = credential_file_text(dir, a);
        let m = a + ".json"@;
        let n = b + ".json"@;
        assert(m.len() == n.len());
        assert(m =~= n);
        assert(m.take(a.len() as int) =~= a);
        assert(n.take(b.len() as int) =~= b);
    }
    match root {
        Some(root) => {
            lemma_below(root, "testnet"@);
            lemma_below(root, "mainnet"@);
        },
        None => match home {
            Some(home) => {
                lemma_below(below(home, ".near-credentials"@), "testnet"@);
                lemma_below(below(home, ".near-credentials"@), "mainnet"@);
            },
            None => {},
        },
    }
}

proof fn lemma_below(dir: Seq<char>, rest: Seq<char>)
    ensures
        ends_with(below(dir, rest), rest),
        starts_with(below(dir, rest), dir),
        below(dir, rest).len() == dir.len() + rest.len() || below(dir, rest).len() == dir.len() + 1
            + rest.len(),
        below(dir, rest).len() == dir.len() + rest.len() <==> dir.len() == 0 || ends_with(dir, "/"@),
{
    reveal_strlit("/");
    assert("/"@.len() == 1);
    lemma_ends_with(dir, rest);
    lemma_ends_with(dir + "/"@, rest);
    assert((dir + rest).take(dir.len() as int) =~= dir);
    assert((dir + "/"@ + rest).take(dir.len() as int) =~= dir);
}

/// The place of a file in a list is selected by its number, counted from one.
pub proof fn law_a_number_selects_its_place(n: nat)
    requires
        1 <= n <= usize::MAX,
    ensures
        selected_place(decimal_text(n)) == n - 1,
{
    law_decimal_text_reads_back(n, usize::MAX as nat);
    lemma_decimal_stays_trimmed(n);
}

/// A file is listed as credentials exactly where its name is something and `.json`.
pub proof fn law_json_files_are_listed(names: Seq<Seq<char>>, account: Seq<char>)
    requires
        account.len() > 0,
    ensures
        credential_names(names).contains(account + ".json"@) <==> names.contains(account + ".json"@),
        forall|i: int|
            0 <= i < credential_names(names).len() ==> ends_with(
                #[trigger] credential_names(names)[i],
                ".json"@,
            ) && names.contains(credential_names(names)[i]),
    decreases names.len(),
{
    reveal_strlit(".json");
    assert(".json"@.len() == 5);
    if names.len() > 0 {
        let before = names.drop_last();
        law_json_files_are_listed(before, account);
        lemma_ends_with(account, ".json"@);
        let listed = credential_names(names);
        let earlier = credential_names(before);
        let name = account + ".json"@;
        assert(names =~= before.push(names.last()));
        assert forall|i: int| 0 <= i < listed.len() implies ends_with(
            #[trigger] listed[i],
            ".json"@,
        ) && names.contains(listed[i]) by {
            if i < earlier.len() {
                assert(listed[i] == earlier[i]);
                let j = choose|j: int| 0 <= j < before.len() && before[j] == earlier[i];
                assert(names[j] == listed[i]);
            } else {
                assert(listed[i] == names.last());
                assert(names[names.len() - 1] == listed[i]);
            }
        }
        if names.contains(name) {
            let j = choose|j: int| 0 <= j < names.len() && names[j] == name;
            if j < before.len() {
                assert(before[j] == name);
                assert(before.contains(name));
                let k = choose|k: int| 0 <= k < earlier.len() && earlier[k] == name;
                assert(listed[k] == name);
            } else {
                assert(names.last() == name);
                assert(listed[listed.len() - 1] == name);
            }
        }
    }
}

/// In test mode a step that fails has what was created deleted, the token's account first, and then
/// the controller's; without test mode, or where nothing was created, the deployment ends. It has
/// failed either way.
pub proof fn law_a_failed_step_deletes_what_was_created(c: Course)
    requires
        c.phase is PreparingController || c.phase is PreparingToken || c.phase is Deploying,
    ensures
        ({
            let d = course_after(c, StepResult::Failed);
            &&& d.failed
            &&& d.created_token == c.created_token
            &&& d.created_controller == c.created_controller
            &&& d.phase is DeletingToken <==> c.test_mode && c.created_token
            &&& d.phase is DeletingController <==> c.test_mode && !c.created_token
                && c.created_controller
            &&& d.phase is Done <==> !c.test_mode || !c.created_token && !c.created_controller
        }),
{
}

} // verus!
