//! The interactive session: every value is read as the matching flag is, with the same defaults.
use crate::account::AccountId;
use crate::deploy::cli::{
    DeployArgs, Network, DEFAULT_INITIAL_BALANCE, DEFAULT_INITIAL_PRICE, DEFAULT_TOKEN_DECIMALS,
    DEFAULT_TOTAL_SUPPLY,
};
use crate::near_amount::{
    parse_amount, read_amount, rounded_amount, rounded_amount_display, TokenAmount,
};
use crate::text::{
    add_line, answer_or, bounded_number, debug_text, decimal, decimal_text, is_white, join2,
    opt_text, read_u8, same_text, show_debug, texts, trim, trim_end, trim_start, trimmed, u8_fault,
};
use vstd::prelude::*;

verus! {

/// A value that the operator can type.
pub trait FieldValue: Sized {
    /// Whether `text` writes a value.
    spec fn readable(text: Seq<char>) -> bool;

    /// Whether `text` writes this value.
    spec fn written(self, text: Seq<char>) -> bool;

    /// What is wrong with a `text` that writes no value.
    spec fn fault(text: Seq<char>) -> Seq<char>;

    /// The value that `text`, which is trimmed, writes.
    fn read(text: &str) -> (r: Result<Self, String>)
        requires
            trimmed(text@) == text@,
        ensures
            match r {
                Ok(v) => Self::readable(text@) && v.written(text@),
                Err(fault) => !Self::readable(text@) && fault@ == Self::fault(text@),
            },
    ;
}

impl FieldValue for u8 {
    open spec fn readable(text: Seq<char>) -> bool {
        bounded_number(text, u8::MAX as nat) is Some
    }

    open spec fn written(self, text: Seq<char>) -> bool {
        bounded_number(text, u8::MAX as nat) == Some(self as nat)
    }

    open spec fn fault(text: Seq<char>) -> Seq<char> {
        u8_fault(text)
    }

    fn read(text: &str) -> (r: Result<u8, String>) {
        read_u8(text)
    }
}

impl FieldValue for String {
    open spec fn readable(text: Seq<char>) -> bool {
        true
    }

    open spec fn written(self, text: Seq<char>) -> bool {
        self@ == text
    }

    open spec fn fault(text: Seq<char>) -> Seq<char> {
        Seq::empty()
    }

    fn read(text: &str) -> (r: Result<String, String>) {
        Ok(text.to_owned())
    }
}

impl FieldValue for TokenAmount {
    open spec fn readable(text: Seq<char>) -> bool {
        read_amount(text) is Ok
    }

    open spec fn written(self, text: Seq<char>) -> bool {
        read_amount(text) == Ok::<u128, Seq<char>>(self.yocto)
    }

    open spec fn fault(text: Seq<char>) -> Seq<char> {
        read_amount(text)->Err_0
    }

    fn read(text: &str) -> (r: Result<TokenAmount, String>) {
        match parse_amount(text) {
            Ok(yocto) => Ok(TokenAmount { yocto }),
            Err(fault) => Err(fault),
        }
    }
}

proof fn lemma_trim_end_stays(s: Seq<char>)
    ensures
        trim_end(trim_end(s)) == trim_end(s),
        s.len() > 0 && !is_white(s[0]) ==> trim_end(s).len() > 0
            && trim_end(s)[0] == s[0],
    decreases s.len(),
{
    if s.len() > 0 && is_white(s.last()) {
        lemma_trim_end_stays(s.drop_last());
    }
}

proof fn lemma_trim_start_stays(s: Seq<char>)
    ensures
        trim_start(s).len() > 0 ==> !is_white(
            trim_start(s)[0],
        ),
    decreases s.len(),
{
    if s.len() > 0 && is_white(s[0]) {
        lemma_trim_start_stays(s.skip(1));
    }
}

/// Trimmed text stays as it is when it is trimmed.
pub proof fn lemma_trimmed_stays(s: Seq<char>)
    ensures
        trimmed(trimmed(s)) == trimmed(s),
{
    let t = trim_start(s);
    lemma_trim_start_stays(s);
    lemma_trim_end_stays(t);
    let u = trim_end(t);
    if t.len() > 0 {
        assert(u.len() > 0 && u[0] == t[0]);
    }
    assert(trim_start(u) == u);
}

/// What is said of an answer that writes no value, and of what is wrong with it.
pub open spec fn invalid_text(input: Seq<char>, fault: Seq<char>) -> Seq<char> {
    "invalid value "@ + debug_text(input) + ": "@ + fault
}

/// The value that `input` writes, or `default` where it is blank.
pub fn parse_with_default<T: FieldValue>(input: &str, default: T) -> (r: Result<T, String>)
    ensures
        trimmed(input@).len() == 0 ==> r == Ok::<T, String>(default),
        trimmed(input@).len() > 0 ==> match r {
            Ok(v) => T::readable(trimmed(input@)) && v.written(trimmed(input@)),
            Err(message) => !T::readable(trimmed(input@)) && message@ == invalid_text(
                input@,
                T::fault(trimmed(input@)),
            ),
        },
{
    let text: &str = trim(input);
    if text.is_empty() {
        return Ok(default);
    }
    proof {
        lemma_trimmed_stays(input@);
    }
    match T::read(text) {
        Ok(v) => Ok(v),
        Err(fault) => {
            let mut message: String = join2("invalid value ", show_debug(input).as_str());
            message.append(": ");
            message.append(fault.as_str());
            Err(message)
        },
    }
}

/// The value that a typed line writes, or `default` where it is blank. The line is trimmed as it
/// is read.
pub fn prompt_with_default<T: FieldValue>(line: &str, default: T) -> (r: Result<T, String>)
    ensures
        trimmed(line@).len() == 0 ==> r == Ok::<T, String>(default),
        trimmed(line@).len() > 0 ==> match r {
            Ok(v) => T::readable(trimmed(line@)) && v.written(trimmed(line@)),
            Err(message) => !T::readable(trimmed(line@)) && message@ == invalid_text(
                trimmed(line@),
                T::fault(trimmed(line@)),
            ),
        },
{
    proof {
        lemma_trimmed_stays(line@);
    }
    parse_with_default(trim(line), default)
}

/// Reads the choice of a network: testnet by `1` or a blank answer, mainnet by `2`.
pub fn parse_network(input: &str) -> (r: Result<Network, String>)
    ensures
        match r {
            Ok(Network::Testnet) => trimmed(input@).len() == 0 || trimmed(input@) == "1"@,
            Ok(Network::Mainnet) => trimmed(input@) == "2"@,
            Err(message) => trimmed(input@).len() > 0 && trimmed(input@) != "1"@ && trimmed(input@)
                != "2"@ && message@ == "invalid network choice: "@ + debug_text(input@)
                + " (choose 1 or 2)"@,
        },
{
    let text: &str = trim(input);
    if text.is_empty() || same_text(text, "1") {
        Ok(Network::Testnet)
    } else if same_text(text, "2") {
        Ok(Network::Mainnet)
    } else {
        let mut message: String = join2("invalid network choice: ", show_debug(input).as_str());
        message.append(" (choose 1 or 2)");
        Err(message)
    }
}

/// The lines that the operator typed, in the order of the questions.
#[derive(Debug)]
pub struct Replies {
    pub controller_id: String,
    pub token_id: String,
    pub token_name: String,
    pub token_symbol: String,
    pub token_decimals: String,
    pub total_supply: String,
    pub initial_price: String,
    pub initial_balance: String,
}

/// The number that a line writes, or the default where it is blank.
pub open spec fn number_or(line: Seq<char>, default: u8) -> Option<u8> {
    if trimmed(line).len() == 0 {
        Some(default)
    } else {
        match bounded_number(trimmed(line), u8::MAX as nat) {
            Some(n) => Some(n as u8),
            None => None,
        }
    }
}

/// The amount that a line writes, or the default where it is blank.
pub open spec fn amount_or(line: Seq<char>, default: u128) -> Option<u128> {
    if trimmed(line).len() == 0 {
        Some(default)
    } else {
        match read_amount(trimmed(line)) {
            Ok(yocto) => Some(yocto),
            Err(_) => None,
        }
    }
}

/// What is said of a line that writes no number.
pub open spec fn number_refusal(line: Seq<char>) -> Seq<char> {
    invalid_text(trimmed(line), u8_fault(trimmed(line)))
}

/// What is said of a line that writes no amount.
pub open spec fn amount_refusal(line: Seq<char>) -> Seq<char> {
    invalid_text(trimmed(line), read_amount(trimmed(line))->Err_0)
}

/// What the first line that writes no value is refused for.
pub open spec fn refusal(replies: Replies) -> Option<Seq<char>> {
    if number_or(replies.token_decimals@, DEFAULT_TOKEN_DECIMALS) is None {
        Some(number_refusal(replies.token_decimals@))
    } else if amount_or(replies.total_supply@, DEFAULT_TOTAL_SUPPLY) is None {
        Some(amount_refusal(replies.total_supply@))
    } else if amount_or(replies.initial_price@, DEFAULT_INITIAL_PRICE) is None {
        Some(amount_refusal(replies.initial_price@))
    } else if amount_or(replies.initial_balance@, DEFAULT_INITIAL_BALANCE) is None {
        Some(amount_refusal(replies.initial_balance@))
    } else {
        None
    }
}

/// Whether `args` are the arguments that a session gives.
pub open spec fn answers(network: Network, signer: Seq<char>, replies: Replies, args: DeployArgs) -> bool {
    &&& args.network == network
    &&& opt_text(args.signer_id) == Some(signer)
    &&& args.credentials is None
    &&& args.controller_wasm@ == "target/near/aurora-controller-factory.wasm"@
    &&& args.token_wasm@ == "target/near/fungible_token.wasm"@
    &&& opt_text(args.controller_id) == Some(
        answer_or(replies.controller_id@, "controller."@ + signer),
    )
    &&& opt_text(args.token_id) == Some(answer_or(replies.token_id@, "token."@ + signer))
    &&& args.token_name@ == answer_or(replies.token_name@, "Controlled NEAR"@)
    &&& args.token_symbol@ == answer_or(replies.token_symbol@, "cNEAR"@)
    &&& Some(args.token_decimals) == number_or(replies.token_decimals@, DEFAULT_TOKEN_DECIMALS)
    &&& Some(args.total_supply) == amount_or(replies.total_supply@, DEFAULT_TOTAL_SUPPLY)
    &&& Some(args.initial_price) == amount_or(replies.initial_price@, DEFAULT_INITIAL_PRICE)
    &&& Some(args.initial_balance) == amount_or(replies.initial_balance@, DEFAULT_INITIAL_BALANCE)
    &&& !args.redeploy && !args.dry_run && !args.test_mode && !args.yes
}

fn text_reply(line: &str, default: &str) -> (r: String)
    ensures
        r@ == answer_or(line@, default@),
{
    match prompt_with_default::<String>(line, default.to_owned()) {
        Ok(text) => text,
        Err(_) => default.to_owned(),
    }
}

fn amount_reply(line: &str, default: u128) -> (r: Result<u128, String>)
    ensures
        match r {
            Ok(n) => amount_or(line@, default) == Some(n),
            Err(message) => amount_or(line@, default) is None && message@ == amount_refusal(line@),
        },
{
    match prompt_with_default(line, TokenAmount { yocto: default }) {
        Ok(amount) => Ok(amount.yocto),
        Err(message) => Err(message),
    }
}

fn number_reply(line: &str, default: u8) -> (r: Result<u8, String>)
    ensures
        match r {
            Ok(n) => number_or(line@, default) == Some(n),
            Err(message) => number_or(line@, default) is None && message@ == number_refusal(line@),
        },
{
    prompt_with_default(line, default)
}

/// The arguments that an interactive session gives, once network and signer are chosen.
pub fn run(network: Network, signer_id: &AccountId, replies: &Replies) -> (r: Result<
    DeployArgs,
    String,
>)
    ensures
        match r {
            Ok(args) => refusal(*replies) is None && answers(
                network,
                signer_id@,
                *replies,
                args,
            ),
            Err(message) => refusal(*replies) == Some(message@),
        },
{
    let token_decimals: u8 = match number_reply(
        replies.token_decimals.as_str(),
        DEFAULT_TOKEN_DECIMALS,
    ) {
        Ok(n) => n,
        Err(message) => {
            return Err(message);
        },
    };
    let total_supply: u128 = match amount_reply(
        replies.total_supply.as_str(),
        DEFAULT_TOTAL_SUPPLY,
    ) {
        Ok(n) => n,
        Err(message) => {
            return Err(message);
        },
    };
    let initial_price: u128 = match amount_reply(
        replies.initial_price.as_str(),
        DEFAULT_INITIAL_PRICE,
    ) {
        Ok(n) => n,
        Err(message) => {
            return Err(message);
        },
    };
    let initial_balance: u128 = match amount_reply(
        replies.initial_balance.as_str(),
        DEFAULT_INITIAL_BALANCE,
    ) {
        Ok(n) => n,
        Err(message) => {
            return Err(message);
        },
    };
    let signer: &str = signer_id.as_str();
    Ok(
        DeployArgs {
            network,
            signer_id: Some(signer.to_owned()),
            credentials: None,
            controller_wasm: "target/near/aurora-controller-factory.wasm".to_owned(),
            token_wasm: "target/near/fungible_token.wasm".to_owned(),
            controller_id: Some(
                text_reply(replies.controller_id.as_str(), join2("controller.", signer).as_str()),
            ),
            token_id: Some(text_reply(replies.token_id.as_str(), join2("token.", signer).as_str())),
            token_name: text_reply(replies.token_name.as_str(), "Controlled NEAR"),
            token_symbol: text_reply(replies.token_symbol.as_str(), "cNEAR"),
            token_decimals,
            total_supply,
            initial_price,
            initial_balance,
            redeploy: false,
            dry_run: false,
            test_mode: false,
            yes: false,
        },
    )
}

/// An amount as a session sums it up: rounded, and exactly in yoctoNEAR.
pub open spec fn amount_line(label: Seq<char>, yocto: u128) -> Seq<char> {
    label + rounded_amount(yocto) + " ("@ + decimal_text(yocto as nat) + " yoctoNEAR)"@
}

fn amount_summary(label: &str, yocto: u128) -> (r: String)
    ensures
        r@ == amount_line(label@, yocto),
{
    let mut r: String = join2(label, rounded_amount_display(yocto).as_str());
    r.append(" (");
    r.append(decimal(yocto).as_str());
    r.append(" yoctoNEAR)");
    r
}

/// A session summed up, line by line.
pub open spec fn summary_text(args: DeployArgs) -> Seq<Seq<char>> {
    seq![
        "=== Deployment Summary ==="@,
        "network:         "@ + match args.network {
            Network::Testnet => "Testnet"@,
            Network::Mainnet => "Mainnet"@,
        },
        "signer:          "@ + opt_text(args.signer_id)->0,
        "controller:      "@ + opt_text(args.controller_id)->0,
        "token:           "@ + opt_text(args.token_id)->0,
        "token name:      "@ + args.token_name@,
        "token symbol:    "@ + args.token_symbol@,
        "token decimals:  "@ + decimal_text(args.token_decimals as nat),
        amount_line("total supply:    "@, args.total_supply),
        amount_line("initial price:   "@, args.initial_price),
        amount_line("initial balance: "@, args.initial_balance),
    ]
}

/// The lines that sum a session up, whose signer and accounts are named.
pub fn summary_lines(args: &DeployArgs) -> (r: Vec<String>)
    requires
        args.signer_id is Some,
        args.controller_id is Some,
        args.token_id is Some,
    ensures
        texts(r@) == summary_text(*args),
{
    let signer: &str = match &args.signer_id {
        Some(id) => id.as_str(),
        None => "",
    };
    let controller: &str = match &args.controller_id {
        Some(id) => id.as_str(),
        None => "",
    };
    let token: &str = match &args.token_id {
        Some(id) => id.as_str(),
        None => "",
    };
    let mut out: Vec<String> = Vec::new();
    add_line(&mut out, "=== Deployment Summary ===".to_owned());
    add_line(
        &mut out,
        join2(
            "network:         ",
            match args.network {
                Network::Testnet => "Testnet",
                Network::Mainnet => "Mainnet",
            },
        ),
    );
    add_line(&mut out, join2("signer:          ", signer));
    add_line(&mut out, join2("controller:      ", controller));
    add_line(&mut out, join2("token:           ", token));
    add_line(&mut out, join2("token name:      ", args.token_name.as_str()));
    add_line(&mut out, join2("token symbol:    ", args.token_symbol.as_str()));
    add_line(&mut out, join2("token decimals:  ", decimal(args.token_decimals as u128).as_str()));
    add_line(&mut out, amount_summary("total supply:    ", args.total_supply));
    add_line(&mut out, amount_summary("initial price:   ", args.initial_price));
    add_line(&mut out, amount_summary("initial balance: ", args.initial_balance));
    assert(texts(out@) =~= summary_text(*args));
    out
}

/// A session in which every line is blank gives what the flags default to, for the signer's own
/// accounts.
pub proof fn law_blank_answers_are_the_defaults(
    network: Network,
    signer: Seq<char>,
    replies: Replies,
    args: DeployArgs,
)
    requires
        trimmed(replies.controller_id@).len() == 0,
        trimmed(replies.token_id@).len() == 0,
        trimmed(replies.token_name@).len() == 0,
        trimmed(replies.token_symbol@).len() == 0,
        trimmed(replies.token_decimals@).len() == 0,
        trimmed(replies.total_supply@).len() == 0,
        trimmed(replies.initial_price@).len() == 0,
        trimmed(replies.initial_balance@).len() == 0,
        answers(network, signer, replies, args),
    ensures
        refusal(replies) is None,
        opt_text(args.controller_id) == Some("controller."@ + signer),
        opt_text(args.token_id) == Some("token."@ + signer),
        args.token_name@ == "Controlled NEAR"@,
        args.token_symbol@ == "cNEAR"@,
        args.token_decimals == DEFAULT_TOKEN_DECIMALS,
        args.total_supply == DEFAULT_TOTAL_SUPPLY,
        args.initial_price == DEFAULT_INITIAL_PRICE,
        args.initial_balance == DEFAULT_INITIAL_BALANCE,
{
}

} // verus!
