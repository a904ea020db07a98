//! The command line: which command, which network, which signer.
use crate::text::{has_prefix, opt_text, same_text, starts_with, texts};
use vstd::prelude::*;

verus! {

/// The networks on which the tool deploys.
#[derive(Clone, Copy, PartialEq, Eq, Structural, Debug)]
pub enum NetworkName {
    Testnet,
    Mainnet,
}

/// A network's name.
pub open spec fn network_text(network: NetworkName) -> Seq<char> {
    match network {
        NetworkName::Testnet => "testnet"@,
        NetworkName::Mainnet => "mainnet"@,
    }
}

impl NetworkName {
    pub fn as_str(self) -> (r: &'static str)
        ensures
            r@ == network_text(self),
    {
        match self {
            NetworkName::Testnet => "testnet",
            NetworkName::Mainnet => "mainnet",
        }
    }
}

/// What the operator asked for.
#[derive(Debug)]
pub struct Options {
    pub network: Option<NetworkName>,
    pub signer_id: Option<String>,
    pub dry_run: bool,
    pub test_mode: bool,
    /// No argument was given at all.
    pub interactive: bool,
}

/// [`Options`], as mathematical values.
pub ghost struct OptionsView {
    pub network: Option<NetworkName>,
    pub signer_id: Option<Seq<char>>,
    pub dry_run: bool,
    pub test_mode: bool,
    pub interactive: bool,
}

impl View for Options {
    type V = OptionsView;

    open spec fn view(&self) -> OptionsView {
        OptionsView {
            network: self.network,
            signer_id: opt_text(self.signer_id),
            dry_run: self.dry_run,
            test_mode: self.test_mode,
            interactive: self.interactive,
        }
    }
}

/// Why arguments give no options.
#[derive(Debug)]
pub enum OptionsError {
    /// The operator asked for help.
    HelpRequested,
    /// An argument that starts with a dash and is no option.
    UnknownOption(String),
    /// An argument after the signer was named.
    UnknownArgument(String),
}

/// An [`OptionsError`], as mathematical values.
pub ghost enum OptionsFault {
    HelpRequested,
    UnknownOption(Seq<char>),
    UnknownArgument(Seq<char>),
}

impl View for OptionsError {
    type V = OptionsFault;

    open spec fn view(&self) -> OptionsFault {
        match *self {
            OptionsError::HelpRequested => OptionsFault::HelpRequested,
            OptionsError::UnknownOption(arg) => OptionsFault::UnknownOption(arg@),
            OptionsError::UnknownArgument(arg) => OptionsFault::UnknownArgument(arg@),
        }
    }
}

/// The options before any argument was read.
pub open spec fn no_options(interactive: bool) -> OptionsView {
    OptionsView { network: None, signer_id: None, dry_run: false, test_mode: false, interactive }
}

/// The options after one more argument.
pub open spec fn read_arg(o: OptionsView, arg: Seq<char>) -> Result<OptionsView, OptionsFault> {
    if arg == "testnet"@ {
        Ok(OptionsView { network: Some(NetworkName::Testnet), ..o })
    } else if arg == "mainnet"@ {
        Ok(OptionsView { network: Some(NetworkName::Mainnet), ..o })
    } else if arg == "test"@ {
        Ok(OptionsView { network: Some(NetworkName::Testnet), test_mode: true, ..o })
    } else if arg == "--dry-run"@ {
        Ok(OptionsView { dry_run: true, ..o })
    } else if arg == "--test-mode"@ {
        Ok(OptionsView { test_mode: true, ..o })
    } else if arg == "--help"@ || arg == "-h"@ {
        Err(OptionsFault::HelpRequested)
    } else if starts_with(arg, "-"@) {
        Err(OptionsFault::UnknownOption(arg))
    } else if o.signer_id is None {
        Ok(OptionsView { signer_id: Some(arg), ..o })
    } else {
        Err(OptionsFault::UnknownArgument(arg))
    }
}

/// The options that `args` give, read from the first to the last, starting from `o`.
pub open spec fn read_args(o: OptionsView, args: Seq<Seq<char>>) -> Result<OptionsView, OptionsFault>
    decreases args.len(),
{
    if args.len() == 0 {
        Ok(o)
    } else {
        match read_args(o, args.drop_last()) {
            Ok(before) => read_arg(before, args.last()),
            Err(e) => Err(e),
        }
    }
}

/// The options that a command line gives.
pub open spec fn options_of(args: Seq<Seq<char>>) -> Result<OptionsView, OptionsFault> {
    read_args(no_options(args.len() == 0), args)
}

/// What went wrong in the first arguments goes wrong in all of them.
proof fn lemma_fault_stays(o: OptionsView, args: Seq<Seq<char>>, i: int)
    requires
        0 <= i <= args.len(),
        read_args(o, args.take(i)) is Err,
    ensures
        read_args(o, args) == read_args(o, args.take(i)),
    decreases args.len() - i,
{
    if i == args.len() {
        assert(args.take(i) =~= args);
    } else {
        assert(args.take(i + 1).drop_last() =~= args.take(i));
        lemma_fault_stays(o, args, i + 1);
    }
}

/// Reads the arguments of a command.
pub fn parse_options(args: &[String]) -> (r: Result<Options, OptionsError>)
    ensures
        match r {
            Ok(o) => options_of(texts(args@)) == Ok::<OptionsView, OptionsFault>(o@),
            Err(e) => options_of(texts(args@)) == Err::<OptionsView, OptionsFault>(e@),
        },
{
    let mut network: Option<NetworkName> = None;
    let mut signer_id: Option<String> = None;
    let mut dry_run: bool = false;
    let mut test_mode: bool = false;
    let interactive: bool = args.len() == 0;
    let ghost all = texts(args@);
    let ghost start = no_options(interactive);
    let mut i: usize = 0;
    assert(all.take(0) =~= Seq::empty());
    while i < args.len()
        invariant
            i <= args.len(),
            all == texts(args@),
            start == no_options(interactive),
            interactive == (args.len() == 0),
            read_args(start, all.take(i as int)) == Ok::<OptionsView, OptionsFault>(
                OptionsView {
                    network,
                    signer_id: opt_text(signer_id),
                    dry_run,
                    test_mode,
                    interactive,
                },
            ),
        decreases args.len() - i,
    {
        let arg: &str = args[i].as_str();
        proof {
            assert(all.take(i + 1).drop_last() =~= all.take(i as int));
            assert(all[i as int] == arg@);
            assert(all.take(i + 1).last() == arg@);
            if read_args(start, all.take(i + 1)) is Err {
                lemma_fault_stays(start, all, i + 1);
            }
        }
        if same_text(arg, "testnet") {
            network = Some(NetworkName::Testnet);
        } else if same_text(arg, "mainnet") {
            network = Some(NetworkName::Mainnet);
        } else if same_text(arg, "test") {
            network = Some(NetworkName::Testnet);
            test_mode = true;
        } else if same_text(arg, "--dry-run") {
            dry_run = true;
        } else if same_text(arg, "--test-mode") {
            test_mode = true;
        } else if same_text(arg, "--help") || same_text(arg, "-h") {
            return Err(OptionsError::HelpRequested);
        } else if has_prefix(arg, "-") {
            return Err(OptionsError::UnknownOption(arg.to_owned()));
        } else if signer_id.is_none() {
            signer_id = Some(arg.to_owned());
        } else {
            return Err(OptionsError::UnknownArgument(arg.to_owned()));
        }
        i += 1;
    }
    assert(all.take(i as int) =~= all);
    Ok(Options { network, signer_id, dry_run, test_mode, interactive })
}

/// The commands of the tool.
#[derive(Clone, Copy, PartialEq, Eq, Structural, Debug)]
pub enum Command {
    Deploy,
    Finalize,
    /// No command was given: the help is shown and nothing is wrong.
    Help,
    /// Something else was given: the help is shown and the tool fails.
    Unknown,
}

/// The command that a command line names in its first argument.
pub open spec fn command_of(args: Seq<Seq<char>>) -> Command {
    if args.len() == 0 {
        Command::Help
    } else if args[0] == "deploy"@ {
        Command::Deploy
    } else if args[0] == "finalize"@ {
        Command::Finalize
    } else {
        Command::Unknown
    }
}

/// Reads the command.
pub fn parse_command(args: &[String]) -> (r: Command)
    ensures
        r == command_of(texts(args@)),
{
    if args.len() == 0 {
        return Command::Help;
    }
    assert(texts(args@)[0] == args@[0]@);
    if same_text(args[0].as_str(), "deploy") {
        Command::Deploy
    } else if same_text(args[0].as_str(), "finalize") {
        Command::Finalize
    } else {
        Command::Unknown
    }
}

/// A dry run is asked for exactly by `--dry-run`, wherever it stands.
pub proof fn law_dry_run_is_asked_for_by_its_flag(args: Seq<Seq<char>>)
    requires
        options_of(args) is Ok,
    ensures
        options_of(args)->Ok_0.dry_run == args.contains("--dry-run"@),
{
    lemma_flags(no_options(args.len() == 0), args);
}

/// Test mode is asked for exactly by `--test-mode` or `test`, wherever they stand.
pub proof fn law_test_mode_is_asked_for_by_its_words(args: Seq<Seq<char>>)
    requires
        options_of(args) is Ok,
    ensures
        options_of(args)->Ok_0.test_mode == (args.contains("--test-mode"@) || args.contains(
            "test"@,
        )),
{
    lemma_flags(no_options(args.len() == 0), args);
}

/// A command line that asks for help, or holds an unknown option, gives no options.
pub proof fn law_no_options_with_help_or_unknown(args: Seq<Seq<char>>, i: int)
    requires
        0 <= i < args.len(),
        starts_with(args[i], "-"@),
        args[i] != "--dry-run"@,
        args[i] != "--test-mode"@,
    ensures
        options_of(args) is Err,
{
    let o = no_options(args.len() == 0);
    lemma_words_are_no_options();
    assert(args.take(i + 1).drop_last() =~= args.take(i));
    assert(args.take(i + 1).last() == args[i]);
    assert(read_args(o, args.take(i + 1)) is Err);
    lemma_fault_stays(o, args, i + 1);
}

proof fn lemma_words_are_no_options()
    ensures
        !starts_with("testnet"@, "-"@),
        !starts_with("mainnet"@, "-"@),
        !starts_with("test"@, "-"@),
{
    reveal_strlit("testnet");
    reveal_strlit("mainnet");
    reveal_strlit("test");
    reveal_strlit("-");
    assert("-"@[0] == '-');
    assert("testnet"@.take(1)[0] == 't');
    assert("mainnet"@.take(1)[0] == 'm');
    assert("test"@.take(1)[0] == 't');
}

proof fn lemma_flags(o: OptionsView, args: Seq<Seq<char>>)
    requires
        read_args(o, args) is Ok,
        !o.dry_run,
        !o.test_mode,
    ensures
        read_args(o, args)->Ok_0.dry_run == args.contains("--dry-run"@),
        read_args(o, args)->Ok_0.test_mode == (args.contains("--test-mode"@) || args.contains(
            "test"@,
        )),
    decreases args.len(),
{
    if args.len() > 0 {
        let before = args.drop_last();
        lemma_flags(o, before);
        lemma_distinct_words();
        lemma_contains_last(args, "--dry-run"@);
        lemma_contains_last(args, "--test-mode"@);
        lemma_contains_last(args, "test"@);
    }
}

proof fn lemma_contains_last(args: Seq<Seq<char>>, word: Seq<char>)
    requires
        args.len() > 0,
    ensures
        args.contains(word) == (args.drop_last().contains(word) || args.last() == word),
{
    if args.contains(word) {
        let i = choose|i: int| 0 <= i < args.len() && args[i] == word;
        if i < args.len() - 1 {
            assert(args.drop_last()[i] == word);
        }
    }
    if args.drop_last().contains(word) {
        let i = choose|i: int| 0 <= i < args.drop_last().len() && args.drop_last()[i] == word;
        assert(args[i] == word);
    }
    if args.last() == word {
        assert(args[args.len() - 1] == word);
    }
}

proof fn lemma_distinct_words()
    ensures
        "testnet"@ != "test"@,
        "mainnet"@ != "test"@,
        "testnet"@ != "--dry-run"@,
        "mainnet"@ != "--dry-run"@,
        "test"@ != "--dry-run"@,
        "testnet"@ != "--test-mode"@,
        "mainnet"@ != "--test-mode"@,
        "test"@ != "--test-mode"@,
        "--dry-run"@ != "--test-mode"@,
{
    reveal_strlit("testnet");
    reveal_strlit("mainnet");
    reveal_strlit("test");
    reveal_strlit("--dry-run");
    reveal_strlit("--test-mode");
    assert("testnet"@.len() == 7);
    assert("mainnet"@.len() == 7);
    assert("test"@.len() == 4);
    assert("--dry-run"@.len() == 9);
    assert("--test-mode"@.len() == 11);
}

} // verus!
