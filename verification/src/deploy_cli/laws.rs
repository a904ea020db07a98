//! What holds of the guided tool's configuration and of its replies: where each word and answer ends
//! up, what a reply must be to count as done, and that a deployment of which every task is performed
//! succeeds.
use crate::account::is_account_id;
use crate::deploy_cli::amounts::{
    fraction_part, law_whole_tokens_scale_as_near, near_amount, supply_fault, SupplyFault,
};
use crate::deploy_cli::config::{
    asks_for_values, config_of, ConfigView, Session, DEFAULT_TOTAL_SUPPLY_TOKENS,
};
use crate::deploy_cli::deployment::{
    law_a_deployment_ends, progress_after, succeeded, Role, Stage, Terms, Verdict,
};
use crate::deploy_cli::options::{no_options, options_of, read_args, NetworkName, OptionsView};
use crate::deploy_cli::prompt::{accounts_among, chosen_place, credential_account};
use crate::deploy_cli::report::configuration_text;
use crate::deploy_cli::runner::{context_of, judgement, verdict_of};
use crate::deploy_cli::tasks::{release_hash, says_absent, Reply};
use crate::json::{member_text, string_text};
use crate::near_amount::exact_amount;
use crate::text::{
    all_digits, decimal_text, digits_value, ends_with, first_word_of, law_decimal_text_reads_back,
    lemma_decimal_stays_trimmed, lemma_decimal_text, starts_with, texts, trimmed,
};
use vstd::arithmetic::power::{lemma_pow_positive, pow};
use vstd::prelude::*;

verus! {

/// Whole tokens are scaled exactly where there are any and the result fits a `u128`.
pub proof fn law_a_supply_is_scaled_where_it_fits(tokens: u128, decimals: u8)
    ensures
        supply_fault(tokens, decimals) is None <==> tokens > 0 && tokens * pow(10, decimals as nat)
            <= u128::MAX,
        supply_fault(tokens, decimals) == Some(SupplyFault::Zero) <==> tokens == 0,
{
    lemma_pow_positive(10, decimals as nat);
    let p = pow(10, decimals as nat);
    assert(tokens > 0 && p > u128::MAX ==> tokens * p > u128::MAX) by (nonlinear_arith);
}

/// Every answer that is not blank is configured under what was asked for with it. The price may be
/// followed by a remark, and the balance is in NEAR.
pub proof fn law_every_answer_is_configured(o: OptionsView, s: Session)
    requires
        asks_for_values(o),
        config_of(o, s) is Ok,
    ensures
        ({
            let c = config_of(o, s)->Ok_0;
            let r = s.replies;
            &&& trimmed(r.controller_id@).len() > 0 ==> c.controller_id == trimmed(r.controller_id@)
            &&& trimmed(r.token_id@).len() > 0 ==> c.token_id == trimmed(r.token_id@)
            &&& trimmed(r.token_name@).len() > 0 ==> c.token_name == trimmed(r.token_name@)
            &&& trimmed(r.token_symbol@).len() > 0 ==> c.token_symbol == trimmed(r.token_symbol@)
            &&& trimmed(r.token_decimals@).len() > 0 && all_digits(trimmed(r.token_decimals@))
                ==> c.token_decimals == digits_value(trimmed(r.token_decimals@))
            &&& trimmed(r.total_supply@).len() > 0 && all_digits(trimmed(r.total_supply@))
                ==> c.total_supply_tokens == digits_value(trimmed(r.total_supply@))
            &&& trimmed(r.initial_price@).len() > 0 && all_digits(
                first_word_of(trimmed(r.initial_price@)),
            ) ==> c.initial_price == digits_value(first_word_of(trimmed(r.initial_price@)))
            &&& trimmed(r.initial_balance@).len() > 0 ==> {
                &&& near_amount(trimmed(r.initial_balance@)) is Ok
                &&& near_amount(trimmed(r.initial_balance@))->Ok_0 == c.initial_balance
            }
        }),
{
    let fraction = fraction_part(trimmed(trimmed(s.replies.initial_balance@)));
    if fraction.len() <= 24 {
        let p = pow(10, (24 - fraction.len()) as nat);
        lemma_pow_positive(10, (24 - fraction.len()) as nat);
        let digits = digits_value(fraction);
        assert(digits * p >= 0) by (nonlinear_arith)
            requires
                digits >= 0,
                p > 0,
        ;
    }
}

/// The signer is the one that the command line names, else the one that was chosen. The network is
/// the one that the command line names, testnet in test mode, else the one that was answered: mainnet
/// for `2` alone. Where nothing is asked, the accounts lie below the signer.
pub proof fn law_signer_and_network_are_as_named(o: OptionsView, s: Session)
    requires
        config_of(o, s) is Ok,
    ensures
        ({
            let c = config_of(o, s)->Ok_0;
            &&& o.signer_id is Some ==> c.signer_id == o.signer_id->0
            &&& o.signer_id is None ==> c.signer_id == s.signer@
            &&& o.network is Some ==> c.network == o.network->0
            &&& o.network is None && o.test_mode ==> c.network is Testnet
            &&& o.network is None && !o.test_mode ==> (c.network is Mainnet <==> trimmed(
                s.network_reply@,
            ) == "2"@)
            &&& !asks_for_values(o) ==> {
                &&& c.controller_id == "controller."@ + c.signer_id
                &&& c.token_id == "token."@ + c.signer_id
            }
            &&& o.dry_run || s.credentials_found
        }),
{
    reveal_strlit("1");
    reveal_strlit("2");
    assert("1"@.len() == 1 && "2"@.len() == 1);
    assert("1"@[0] == '1' && "2"@[0] == '2');
}

/// Without a question a valid signer is always configured, given its credentials or in a dry run, as
/// long as the names of the accounts below it are valid.
pub proof fn law_a_named_signer_is_configured(o: OptionsView, s: Session)
    requires
        !asks_for_values(o),
        ({
            let signer = match o.signer_id {
                Some(id) => id,
                None => s.signer@,
            };
            &&& is_account_id(signer)
            &&& is_account_id("controller."@ + signer)
            &&& is_account_id("token."@ + signer)
        }),
        o.dry_run || s.credentials_found,
    ensures
        config_of(o, s) is Ok,
{
    law_whole_tokens_scale_as_near(DEFAULT_TOTAL_SUPPLY_TOKENS);
}

/// A task counts as performed exactly where its own reply says so: an account that was loaded or
/// created must be the one that was asked for, the operator must have said yes, the token's code must
/// be told, and what the registry and the token answer must be right. A lookup that failed counts as
/// absence only on a node's word.
pub proof fn law_a_task_is_performed_by_its_own_reply(
    c: ConfigView,
    code: Seq<u8>,
    stage: Stage,
    reply: Reply,
)
    ensures
        ({
            let verdict = verdict_of(judgement(c, code, stage, reply));
            &&& verdict is Good <==> match stage {
                Stage::Loading(role) | Stage::Creating(role) => reply is Named && reply->Named_0@
                    == match role {
                    Role::Controller => c.controller_id,
                    Role::Token => c.token_id,
                },
                Stage::Confirming(_) => reply == Reply::Answer(true),
                Stage::Deploying(Role::Token) => reply is Deployed,
                Stage::ReadingDeployment => reply is Bytes && member_text(
                    reply->Bytes_0@,
                    "hash"@,
                ) == Ok::<Option<Seq<char>>, Seq<char>>(Some(release_hash(code))),
                Stage::ReadingOwner => reply is Bytes && string_text(reply->Bytes_0@) == Some(
                    c.controller_id,
                ),
                Stage::Done => false,
                _ => reply is Done,
            }
            &&& verdict is Absent <==> stage is Viewing && reply is Errors && says_absent(
                texts(reply->Errors_0@),
            )
        }),
{
}

proof fn lemma_all_good(terms: Terms, verdicts: Seq<Verdict>)
    requires
        terms.test_mode ==> terms.controller_below && terms.token_below,
        forall|i: int| 0 <= i < verdicts.len() ==> (#[trigger] verdicts[i]) is Good,
    ensures
        !progress_after(terms, verdicts).failed,
        progress_after(terms, verdicts).cleaned,
        !(progress_after(terms, verdicts).stage is Confirming),
        progress_after(terms, verdicts).stage is Creating ==> terms.test_mode,
    decreases verdicts.len(),
{
    if verdicts.len() > 0 {
        let before = verdicts.drop_last();
        assert forall|i: int| 0 <= i < before.len() implies (#[trigger] before[i]) is Good by {
            assert(before[i] == verdicts[i]);
        }
        lemma_all_good(terms, before);
        assert(verdicts[verdicts.len() - 1] is Good);
    }
}

/// A deployment of which every task is performed succeeds, where in test mode both accounts lie below
/// the signer.
pub proof fn law_a_deployment_that_goes_well_succeeds(terms: Terms, verdicts: Seq<Verdict>)
    requires
        terms.test_mode ==> terms.controller_below && terms.token_below,
        forall|i: int| 0 <= i < verdicts.len() ==> (#[trigger] verdicts[i]) is Good,
        verdicts.len() >= 22,
    ensures
        succeeded(progress_after(terms, verdicts)),
{
    law_a_deployment_ends(terms, verdicts);
    lemma_all_good(terms, verdicts);
}

/// The summary of a configuration shows each of its values on the line of its label.
pub proof fn law_the_summary_shows_the_configuration(c: ConfigView)
    ensures
        ({
            let lines = configuration_text(c);
            &&& lines.len() == 12
            &&& lines[1] == "Network:           "@ + if c.network is Mainnet {
                "mainnet"@
            } else {
                "testnet"@
            }
            &&& lines[2] == "Signer:            "@ + c.signer_id
            &&& lines[3] == "Controller:        "@ + c.controller_id
            &&& lines[4] == "Token:             "@ + c.token_id
            &&& lines[5] == "Token Name:        "@ + c.token_name
            &&& lines[6] == "Token Symbol:      "@ + c.token_symbol
            &&& lines[7] == "Token Decimals:    "@ + decimal_text(c.token_decimals as nat)
            &&& starts_with(
                lines[8],
                "Total Supply:      "@ + decimal_text(c.total_supply_tokens as nat) + " tokens ("@
                    + decimal_text(c.total_supply_yocto as nat) + " yoctoNEAR"@,
            )
            &&& starts_with(
                lines[9],
                "Initial Price:     "@ + decimal_text(c.initial_price as nat) + " yoctoNEAR ("@
                    + exact_amount(c.initial_price),
            )
            &&& lines[10] == "Dry Run:           "@ + if c.dry_run {
                "true"@
            } else {
                "false"@
            }
        }),
{
    let supply = "Total Supply:      "@ + decimal_text(c.total_supply_tokens as nat)
        + " tokens ("@ + decimal_text(c.total_supply_yocto as nat);
    let decimals = decimal_text(c.token_decimals as nat);
    assert(" yoctoNEAR at "@ == " yoctoNEAR"@ + " at "@) by {
        reveal_strlit(" yoctoNEAR at ");
        reveal_strlit(" yoctoNEAR");
        reveal_strlit(" at ");
        assert(" yoctoNEAR at "@ =~= " yoctoNEAR"@ + " at "@);
    }
    let line = supply + " yoctoNEAR at "@ + decimals + " decimals)"@;
    let shown = supply + " yoctoNEAR"@;
    assert(line =~= shown + (" at "@ + decimals + " decimals)"@));
    assert(line.take(shown.len() as int) =~= shown);
    let price = "Initial Price:     "@ + decimal_text(c.initial_price as nat) + " yoctoNEAR ("@
        + exact_amount(c.initial_price);
    assert((price + " per cNEAR)"@).take(price.len() as int) =~= price);
}

/// Whether a word names a network; `test` names testnet.
pub open spec fn names_network(word: Seq<char>) -> bool {
    word == "testnet"@ || word == "mainnet"@ || word == "test"@
}

proof fn lemma_network_named(o: OptionsView, args: Seq<Seq<char>>, i: int)
    requires
        read_args(o, args) is Ok,
        0 <= i < args.len(),
        names_network(args[i]),
        forall|j: int| i < j < args.len() ==> !names_network(#[trigger] args[j]),
    ensures
        read_args(o, args)->Ok_0.network == Some(
            if args[i] == "mainnet"@ {
                NetworkName::Mainnet
            } else {
                NetworkName::Testnet
            },
        ),
    decreases args.len(),
{
    reveal_strlit("testnet");
    reveal_strlit("mainnet");
    reveal_strlit("test");
    assert("testnet"@.len() == 7 && "mainnet"@.len() == 7 && "test"@.len() == 4);
    assert("testnet"@[0] == 't' && "mainnet"@[0] == 'm');
    let before = args.drop_last();
    if i < args.len() - 1 {
        assert(before[i] == args[i]);
        assert forall|j: int| i < j < before.len() implies !names_network(#[trigger] before[j]) by {
            assert(before[j] == args[j]);
        }
        lemma_network_named(o, before, i);
        assert(!names_network(args[args.len() - 1]));
    }
}

proof fn lemma_no_network_named(o: OptionsView, args: Seq<Seq<char>>)
    requires
        read_args(o, args) is Ok,
        forall|j: int| 0 <= j < args.len() ==> !names_network(#[trigger] args[j]),
    ensures
        read_args(o, args)->Ok_0.network == o.network,
    decreases args.len(),
{
    if args.len() > 0 {
        let before = args.drop_last();
        assert forall|j: int| 0 <= j < before.len() implies !names_network(#[trigger] before[j]) by {
            assert(before[j] == args[j]);
        }
        lemma_no_network_named(o, before);
        assert(!names_network(args[args.len() - 1]));
    }
}

/// The network that a command line names last is the one that counts; where it names none, none is
/// settled.
pub proof fn law_the_last_network_counts(args: Seq<Seq<char>>, i: int)
    requires
        options_of(args) is Ok,
        -1 <= i < args.len(),
        i >= 0 ==> names_network(args[i]),
        forall|j: int| i < j < args.len() ==> !names_network(#[trigger] args[j]),
    ensures
        options_of(args)->Ok_0.network == if i < 0 {
            None
        } else if args[i] == "mainnet"@ {
            Some(NetworkName::Mainnet)
        } else {
            Some(NetworkName::Testnet)
        },
{
    if i < 0 {
        lemma_no_network_named(no_options(args.len() == 0), args);
    } else {
        lemma_network_named(no_options(args.len() == 0), args, i);
    }
}

/// Whether a word is neither a network nor a flag.
pub open spec fn is_other_word(word: Seq<char>) -> bool {
    !names_network(word) && !starts_with(word, "-"@)
}

proof fn lemma_other_words(o: OptionsView, args: Seq<Seq<char>>)
    requires
        read_args(o, args) is Ok,
        o.signer_id is None,
    ensures
        forall|i: int|
            0 <= i < args.len() && is_other_word(#[trigger] args[i]) ==> read_args(
                o,
                args,
            )->Ok_0.signer_id == Some(args[i]),
        read_args(o, args)->Ok_0.signer_id is Some ==> exists|i: int|
            0 <= i < args.len() && is_other_word(#[trigger] args[i]),
    decreases args.len(),
{
    if args.len() > 0 {
        let before = args.drop_last();
        lemma_flag_words();
        lemma_other_words(o, before);
        let read = read_args(o, before)->Ok_0;
        assert forall|i: int| 0 <= i < args.len() && is_other_word(#[trigger] args[i]) implies read_args(
            o,
            args,
        )->Ok_0.signer_id == Some(args[i]) by {
            if i < before.len() {
                assert(before[i] == args[i]);
                assert(read.signer_id == Some(args[i]));
            } else {
                assert(args[i] == args.last());
            }
        }
        if read_args(o, args)->Ok_0.signer_id is Some {
            if read.signer_id is Some {
                let i = choose|i: int| 0 <= i < before.len() && is_other_word(#[trigger] before[i]);
                assert(args[i] == before[i]);
                assert(is_other_word(args[i]));
            } else {
                assert(is_other_word(args[args.len() - 1]));
            }
        }
    }
}

proof fn lemma_flag_words()
    ensures
        starts_with("--dry-run"@, "-"@),
        starts_with("--test-mode"@, "-"@),
        starts_with("--help"@, "-"@),
        starts_with("-h"@, "-"@),
{
    reveal_strlit("-");
    reveal_strlit("--dry-run");
    reveal_strlit("--test-mode");
    reveal_strlit("--help");
    reveal_strlit("-h");
    assert("--dry-run"@.take(1) =~= "-"@);
    assert("--test-mode"@.take(1) =~= "-"@);
    assert("--help"@.take(1) =~= "-"@);
    assert("-h"@.take(1) =~= "-"@);
}

/// The one word of a command line that is neither a network nor a flag names the signer; without one
/// no signer is named.
pub proof fn law_the_other_word_names_the_signer(args: Seq<Seq<char>>)
    requires
        options_of(args) is Ok,
    ensures
        forall|i: int|
            0 <= i < args.len() && is_other_word(#[trigger] args[i])
                ==> options_of(args)->Ok_0.signer_id == Some(args[i]),
        options_of(args)->Ok_0.signer_id is Some ==> exists|i: int|
            0 <= i < args.len() && is_other_word(#[trigger] args[i]),
        options_of(args)->Ok_0.interactive <==> args.len() == 0,
{
    lemma_other_words(no_options(args.len() == 0), args);
    lemma_interactive_stays(no_options(args.len() == 0), args);
}

proof fn lemma_interactive_stays(o: OptionsView, args: Seq<Seq<char>>)
    requires
        read_args(o, args) is Ok,
    ensures
        read_args(o, args)->Ok_0.interactive == o.interactive,
    decreases args.len(),
{
    if args.len() > 0 {
        lemma_interactive_stays(o, args.drop_last());
    }
}

proof fn lemma_two_words(o: OptionsView, args: Seq<Seq<char>>, i: int, j: int)
    requires
        0 <= i < j < args.len(),
        is_other_word(args[i]),
        is_other_word(args[j]),
        o.signer_id is None,
    ensures
        read_args(o, args) is Err,
    decreases args.len(),
{
    lemma_flag_words();
    let before = args.drop_last();
    if j < args.len() - 1 {
        assert(before[i] == args[i] && before[j] == args[j]);
        lemma_two_words(o, before, i, j);
    } else if read_args(o, before) is Ok {
        lemma_other_words(o, before);
        assert(before[i] == args[i]);
        assert(is_other_word(before[i]));
        assert(args.last() == args[j]);
    }
}

/// A command line with two words that are neither a network nor a flag gives no options.
pub proof fn law_two_signers_are_refused(args: Seq<Seq<char>>, i: int, j: int)
    requires
        0 <= i < j < args.len(),
        is_other_word(args[i]),
        is_other_word(args[j]),
    ensures
        options_of(args) is Err,
{
    lemma_two_words(no_options(args.len() == 0), args, i, j);
}

proof fn lemma_read_well(o: OptionsView, args: Seq<Seq<char>>)
    requires
        forall|i: int|
            0 <= i < args.len() && starts_with(#[trigger] args[i], "-"@) ==> args[i] == "--dry-run"@
                || args[i] == "--test-mode"@,
        forall|i: int, j: int|
            0 <= i < j < args.len() ==> !(is_other_word(#[trigger] args[i]) && is_other_word(
                #[trigger] args[j],
            )),
        o.signer_id is None,
    ensures
        read_args(o, args) is Ok,
    decreases args.len(),
{
    if args.len() > 0 {
        lemma_flag_words();
        let before = args.drop_last();
        assert forall|i: int|
            0 <= i < before.len() && starts_with(#[trigger] before[i], "-"@) implies before[i]
            == "--dry-run"@ || before[i] == "--test-mode"@ by {
            assert(before[i] == args[i]);
        }
        assert forall|i: int, j: int| 0 <= i < j < before.len() implies !(is_other_word(
            #[trigger] before[i],
        ) && is_other_word(#[trigger] before[j])) by {
            assert(before[i] == args[i] && before[j] == args[j]);
            assert(!(is_other_word(args[i]) && is_other_word(args[j])));
        }
        lemma_read_well(o, before);
        lemma_other_words(o, before);
        let read = read_args(o, before)->Ok_0;
        let last = args.len() - 1;
        assert(args.last() == args[last]);
        assert(starts_with(args[last], "-"@) ==> args[last] == "--dry-run"@ || args[last]
            == "--test-mode"@);
        if is_other_word(args[last]) && read.signer_id is Some {
            let i = choose|i: int| 0 <= i < before.len() && is_other_word(#[trigger] before[i]);
            assert(before[i] == args[i]);
            assert(is_other_word(args[i]) && is_other_word(args[last]));
        }
    }
}

/// A command line of networks, known flags and at most one other word always gives options.
pub proof fn law_a_plain_command_line_is_read(args: Seq<Seq<char>>)
    requires
        forall|i: int|
            0 <= i < args.len() && starts_with(#[trigger] args[i], "-"@) ==> args[i] == "--dry-run"@
                || args[i] == "--test-mode"@,
        forall|i: int, j: int|
            0 <= i < j < args.len() ==> !(is_other_word(#[trigger] args[i]) && is_other_word(
                #[trigger] args[j],
            )),
    ensures
        options_of(args) is Ok,
{
    lemma_read_well(no_options(args.len() == 0), args);
}

/// The place of an account in a list is chosen by its number, counted from one, and no other number
/// chooses one; a blank answer chooses the first.
pub proof fn law_a_number_chooses_its_place(n: nat, count: nat, blank: Seq<char>)
    requires
        trimmed(blank).len() == 0,
    ensures
        chosen_place(decimal_text(n), count) == if 1 <= n <= count {
            Some(n - 1)
        } else {
            None
        },
        chosen_place(blank, count) == Some(0int),
{
    lemma_decimal_stays_trimmed(n);
    lemma_decimal_text(n);
    law_decimal_text_reads_back(n, if n <= count {
        count
    } else {
        n
    });
}

/// The accounts that are offered are those of which there is a file that is named after the account.
pub proof fn law_accounts_with_a_file_are_offered(names: Seq<Seq<char>>, account: Seq<char>)
    requires
        account.len() > 0,
    ensures
        accounts_among(names).contains(account) <==> names.contains(account + ".json"@),
    decreases names.len(),
{
    reveal_strlit(".json");
    assert(".json"@.len() == 5);
    if names.len() > 0 {
        let before = names.drop_last();
        law_accounts_with_a_file_are_offered(before, account);
        let name = account + ".json"@;
        let last = names.last();
        assert(name.skip(name.len() - 5) =~= ".json"@);
        assert(name.take(name.len() - 5) =~= account);
        assert(credential_account(name) == Some(account));
        if credential_account(last) == Some(account) {
            assert(last =~= last.take(last.len() - 5) + last.skip(last.len() - 5));
            assert(last == name);
        }
        let offered = accounts_among(names);
        let earlier = accounts_among(before);
        if offered.contains(account) {
            let i = choose|i: int| 0 <= i < offered.len() && offered[i] == account;
            if i < earlier.len() {
                assert(earlier[i] == account);
                assert(earlier.contains(account));
                let j = choose|j: int| 0 <= j < before.len() && before[j] == name;
                assert(names[j] == name);
            } else {
                assert(names[names.len() - 1] == name);
            }
        }
        if names.contains(name) {
            let j = choose|j: int| 0 <= j < names.len() && names[j] == name;
            if j < before.len() {
                assert(before[j] == name);
                assert(before.contains(name));
                let i = choose|i: int| 0 <= i < earlier.len() && earlier[i] == account;
                assert(offered[i] == account);
            } else {
                assert(offered[offered.len() - 1] == account);
            }
        }
    }
}

/// What is told of a task that failed, or was refused, ends with the reason that was given for it.
pub proof fn law_the_reason_of_a_failure_is_told(
    c: ConfigView,
    code: Seq<u8>,
    stage: Stage,
    reason: String,
)
    ensures
        judgement(c, code, stage, Reply::Failed(reason)) is Err,
        ends_with(judgement(c, code, stage, Reply::Failed(reason))->Err_0, reason@),
        judgement(c, code, stage, Reply::Rejected(reason)) is Err,
        ends_with(judgement(c, code, stage, Reply::Rejected(reason))->Err_0, reason@),
{
    let context = context_of(stage);
    assert((context + reason@).skip((context + reason@).len() - reason@.len()) =~= reason@);
    assert(reason@.skip(0) =~= reason@);
}

} // verus!
