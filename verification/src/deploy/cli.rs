//! The command line: networks, arguments and the words of the older script.
use crate::text::{has_prefix, has_text, same_text, starts_with, texts};
use vstd::prelude::*;

verus! {

/// The networks on which the tool deploys.
#[derive(Clone, Copy, PartialEq, Eq, Structural, Debug)]
pub enum Network {
    Testnet,
    Mainnet,
}

/// The address of a network's JSON-RPC service.
pub open spec fn rpc_url_text(network: Network) -> Seq<char> {
    match network {
        Network::Testnet => "https://rpc.testnet.near.org"@,
        Network::Mainnet => "https://rpc.mainnet.near.org"@,
    }
}

/// The directory that holds a network's credentials.
pub open spec fn subdir_text(network: Network) -> Seq<char> {
    match network {
        Network::Testnet => "testnet"@,
        Network::Mainnet => "mainnet"@,
    }
}

impl Network {
    pub fn rpc_url(self) -> (r: &'static str)
        ensures
            r@ == rpc_url_text(self),
    {
        match self {
            Network::Testnet => "https://rpc.testnet.near.org",
            Network::Mainnet => "https://rpc.mainnet.near.org",
        }
    }

    pub fn subdir(self) -> (r: &'static str)
        ensures
            r@ == subdir_text(self),
    {
        match self {
            Network::Testnet => "testnet",
            Network::Mainnet => "mainnet",
        }
    }
}

/// What the tool is asked to do.
#[derive(Debug)]
pub enum Cli {
    /// Deploy the contracts.
    Deploy(DeployArgs),
    /// Delete accounts and send what they hold to a beneficiary.
    CleanAccounts(CleanAccountsArgs),
}

/// The arguments of a deployment. Amounts are in yoctoNEAR.
#[derive(Debug)]
pub struct DeployArgs {
    pub network: Network,
    pub signer_id: Option<String>,
    /// The path of the signer's credentials.
    pub credentials: Option<String>,
    pub controller_wasm: String,
    pub token_wasm: String,
    pub controller_id: Option<String>,
    pub token_id: Option<String>,
    pub token_name: String,
    pub token_symbol: String,
    pub token_decimals: u8,
    pub total_supply: u128,
    pub initial_price: u128,
    pub initial_balance: u128,
    pub redeploy: bool,
    pub dry_run: bool,
    pub test_mode: bool,
    pub yes: bool,
}

/// The arguments of a cleanup.
#[derive(Debug)]
pub struct CleanAccountsArgs {
    pub network: Network,
    pub signer_id: Option<String>,
    pub credentials: Option<String>,
    pub controller_id: Option<String>,
    pub token_id: Option<String>,
    pub beneficiary: Option<String>,
}

/// The supply that is used where none is given: a billionth of one NEAR, in yoctoNEAR.
pub const DEFAULT_TOTAL_SUPPLY: u128 = 1_000_000_000_000_000;

/// The price that is used where none is given: one NEAR.
pub const DEFAULT_INITIAL_PRICE: u128 = 1_000_000_000_000_000_000_000_000;

/// What a new account is given where nothing else is said: ten NEAR.
pub const DEFAULT_INITIAL_BALANCE: u128 = 10_000_000_000_000_000_000_000_000;

pub const DEFAULT_TOKEN_DECIMALS: u8 = 24;

/// Whether the arguments are those of a deployment for which no flag was given.
pub open spec fn are_defaults(args: DeployArgs) -> bool {
    &&& args.network == Network::Testnet
    &&& args.signer_id is None
    &&& args.credentials is None
    &&& args.controller_wasm@ == "target/near/aurora-controller-factory.wasm"@
    &&& args.token_wasm@ == "target/near/fungible_token.wasm"@
    &&& args.controller_id is None
    &&& args.token_id is None
    &&& args.token_name@ == "Controlled NEAR"@
    &&& args.token_symbol@ == "cNEAR"@
    &&& args.token_decimals == DEFAULT_TOKEN_DECIMALS
    &&& args.total_supply == DEFAULT_TOTAL_SUPPLY
    &&& args.initial_price == DEFAULT_INITIAL_PRICE
    &&& args.initial_balance == DEFAULT_INITIAL_BALANCE
    &&& !args.redeploy && !args.dry_run && !args.test_mode && !args.yes
}

impl DeployArgs {
    /// The arguments of a deployment for which no flag was given.
    pub fn defaults() -> (r: DeployArgs)
        ensures
            are_defaults(r),
    {
        DeployArgs {
            network: Network::Testnet,
            signer_id: None,
            credentials: None,
            controller_wasm: "target/near/aurora-controller-factory.wasm".to_owned(),
            token_wasm: "target/near/fungible_token.wasm".to_owned(),
            controller_id: None,
            token_id: None,
            token_name: "Controlled NEAR".to_owned(),
            token_symbol: "cNEAR".to_owned(),
            token_decimals: DEFAULT_TOKEN_DECIMALS,
            total_supply: DEFAULT_TOTAL_SUPPLY,
            initial_price: DEFAULT_INITIAL_PRICE,
            initial_balance: DEFAULT_INITIAL_BALANCE,
            redeploy: false,
            dry_run: false,
            test_mode: false,
            yes: false,
        }
    }
}

/// Whether `word` is a flag.
pub open spec fn is_flag(word: Seq<char>) -> bool {
    starts_with(word, "-"@)
}

/// Whether `word` names a command.
pub open spec fn is_command(word: Seq<char>) -> bool {
    ||| word == "deploy"@
    ||| word == "clean-accounts"@
    ||| word == "clean-up"@
    ||| word == "delete-accounts"@
    ||| word == "help"@
}

/// One more word of the older form: the first that is no flag names the signer.
pub open spec fn with_word(out: Seq<Seq<char>>, word: Seq<char>) -> Seq<Seq<char>> {
    if !is_flag(word) && !out.contains("--signer-id"@) {
        out.push("--signer-id"@).push(word)
    } else {
        out.push(word)
    }
}

/// Further words of the older form.
pub open spec fn with_words(out: Seq<Seq<char>>, words: Seq<Seq<char>>) -> Seq<Seq<char>>
    decreases words.len(),
{
    if words.len() == 0 {
        out
    } else {
        with_word(with_words(out, words.drop_last()), words.last())
    }
}

/// A command line in the form of the typed commands.
///
/// - `test` is a deployment on testnet in test mode;
/// - `testnet` and `mainnet` are deployments there;
/// - the first word after these that is no flag names the signer;
/// - a command stays as it is, and so does a command line without a word;
/// - anything else is a deployment: with these flags, or by the signer that the word names.
pub open spec fn translated(args: Seq<Seq<char>>) -> Seq<Seq<char>> {
    if args.len() < 2 {
        args
    } else if args[1] == "test"@ {
        with_words(
            seq![args[0], "deploy"@, "--network"@, "testnet"@, "--test-mode"@],
            args.skip(2),
        )
    } else if args[1] == "testnet"@ || args[1] == "mainnet"@ {
        with_words(seq![args[0], "deploy"@, "--network"@, args[1]], args.skip(2))
    } else if is_command(args[1]) {
        args
    } else if is_flag(args[1]) {
        seq![args[0], "deploy"@] + args.skip(1)
    } else {
        seq![args[0], "deploy"@, "--signer-id"@] + args.skip(1)
    }
}

fn push_text(out: &mut Vec<String>, word: &str)
    ensures
        texts(final(out)@) == texts(old(out)@).push(word@),
{
    let ghost before = texts(out@);
    out.push(word.to_owned());
    assert(texts(out@) =~= before.push(word@));
}

fn push_words(out: &mut Vec<String>, args: &Vec<String>, from: usize)
    requires
        from <= args.len(),
    ensures
        texts(final(out)@) == with_words(texts(old(out)@), texts(args@).skip(from as int)),
{
    let ghost start = texts(out@);
    let ghost words = texts(args@).skip(from as int);
    let mut i: usize = from;
    assert(words.take(0) =~= Seq::empty());
    while i < args.len()
        invariant
            from <= i <= args.len(),
            words == texts(args@).skip(from as int),
            texts(out@) == with_words(start, words.take(i - from)),
        decreases args.len() - i,
    {
        let word: &str = args[i].as_str();
        assert(words.take(i - from + 1).drop_last() =~= words.take(i - from));
        assert(words.take(i - from + 1).last() == word@);
        if !has_prefix(word, "-") && !has_text(out, "--signer-id") {
            push_text(out, "--signer-id");
        }
        push_text(out, word);
        i += 1;
    }
    assert(words.take(i - from) =~= words);
}

fn push_all(out: &mut Vec<String>, args: &Vec<String>, from: usize)
    requires
        from <= args.len(),
    ensures
        texts(final(out)@) == texts(old(out)@) + texts(args@).skip(from as int),
{
    let ghost start = texts(out@);
    let ghost words = texts(args@).skip(from as int);
    let mut i: usize = from;
    assert(start + words.take(0) =~= start);
    while i < args.len()
        invariant
            from <= i <= args.len(),
            words == texts(args@).skip(from as int),
            texts(out@) == start + words.take(i - from),
        decreases args.len() - i,
    {
        push_text(out, args[i].as_str());
        assert(texts(out@) =~= start + words.take(i - from + 1));
        i += 1;
    }
    assert(words.take(i - from) =~= words);
}

/// Puts a command line of the older form into the form of the typed commands. The first word is
/// the program's name.
pub fn translate_legacy_args(args: Vec<String>) -> (r: Vec<String>)
    ensures
        texts(r@) == translated(texts(args@)),
{
    if args.len() < 2 {
        return args;
    }
    let ghost all = texts(args@);
    assert(all[0] == args[0]@);
    assert(all[1] == args[1]@);
    let program: &str = args[0].as_str();
    let first: &str = args[1].as_str();
    let mut out: Vec<String> = Vec::new();
    assert(texts(out@) =~= Seq::empty());
    if same_text(first, "test") {
        push_text(&mut out, program);
        push_text(&mut out, "deploy");
        push_text(&mut out, "--network");
        push_text(&mut out, "testnet");
        push_text(&mut out, "--test-mode");
        assert(texts(out@) =~= seq![
            all[0],
            "deploy"@,
            "--network"@,
            "testnet"@,
            "--test-mode"@,
        ]);
        push_words(&mut out, &args, 2);
        return out;
    }
    if same_text(first, "testnet") || same_text(first, "mainnet") {
        push_text(&mut out, program);
        push_text(&mut out, "deploy");
        push_text(&mut out, "--network");
        push_text(&mut out, first);
        assert(texts(out@) =~= seq![all[0], "deploy"@, "--network"@, all[1]]);
        push_words(&mut out, &args, 2);
        return out;
    }
    if same_text(first, "deploy") || same_text(first, "clean-accounts") || same_text(
        first,
        "clean-up",
    ) || same_text(first, "delete-accounts") || same_text(first, "help") {
        return args;
    }
    push_text(&mut out, program);
    push_text(&mut out, "deploy");
    if !has_prefix(first, "-") {
        push_text(&mut out, "--signer-id");
        assert(texts(out@) =~= seq![all[0], "deploy"@, "--signer-id"@]);
    } else {
        assert(texts(out@) =~= seq![all[0], "deploy"@]);
    }
    push_all(&mut out, &args, 1);
    out
}

proof fn lemma_with_words_keeps_start(out: Seq<Seq<char>>, words: Seq<Seq<char>>)
    ensures
        with_words(out, words).len() >= out.len(),
        forall|i: int| 0 <= i < out.len() ==> with_words(out, words)[i] == out[i],
    decreases words.len(),
{
    if words.len() > 0 {
        lemma_with_words_keeps_start(out, words.drop_last());
    }
}

/// A command line that was put into the new form is in the new form.
pub proof fn law_translating_twice_is_translating_once(args: Seq<Seq<char>>)
    ensures
        translated(translated(args)) == translated(args),
{
    if args.len() >= 2 {
        lemma_deploy_is_no_network();
        let by_network = seq![args[0], "deploy"@, "--network"@, args[1]];
        let by_test = seq![args[0], "deploy"@, "--network"@, "testnet"@, "--test-mode"@];
        lemma_with_words_keeps_start(by_network, args.skip(2));
        lemma_with_words_keeps_start(by_test, args.skip(2));
        assert(by_network[1] == "deploy"@);
        assert(by_test[1] == "deploy"@);
    }
}

proof fn lemma_deploy_is_no_network()
    ensures
        "deploy"@ != "test"@,
        "deploy"@ != "testnet"@,
        "deploy"@ != "mainnet"@,
{
    reveal_strlit("deploy");
    reveal_strlit("test");
    reveal_strlit("testnet");
    reveal_strlit("mainnet");
    assert("deploy"@.len() == 6);
    assert("test"@.len() == 4);
    assert("testnet"@.len() == 7);
    assert("mainnet"@.len() == 7);
}

/// The program's name stays in front, and every command line with a word names a command after it.
pub proof fn law_a_command_is_always_named(args: Seq<Seq<char>>)
    requires
        args.len() >= 2,
    ensures
        translated(args).len() >= 2,
        translated(args)[0] == args[0],
        is_command(translated(args)[1]),
{
    let by_network = seq![args[0], "deploy"@, "--network"@, args[1]];
    let by_test = seq![args[0], "deploy"@, "--network"@, "testnet"@, "--test-mode"@];
    lemma_with_words_keeps_start(by_network, args.skip(2));
    lemma_with_words_keeps_start(by_test, args.skip(2));
    assert(by_network[0] == args[0] && by_network[1] == "deploy"@);
    assert(by_test[0] == args[0] && by_test[1] == "deploy"@);
}

/// Flags after a network's name stay as they are, in their order.
pub proof fn law_flags_stay_as_they_are(out: Seq<Seq<char>>, words: Seq<Seq<char>>)
    requires
        forall|i: int| 0 <= i < words.len() ==> is_flag(#[trigger] words[i]),
    ensures
        with_words(out, words) == out + words,
    decreases words.len(),
{
    if words.len() > 0 {
        let before = words.drop_last();
        assert forall|i: int| 0 <= i < before.len() implies is_flag(#[trigger] before[i]) by {
            assert(before[i] == words[i]);
        }
        law_flags_stay_as_they_are(out, before);
        assert(is_flag(words[words.len() - 1]));
        assert(out + words =~= (out + before).push(words.last()));
    } else {
        assert(out + words =~= out);
    }
}

} // verus!
