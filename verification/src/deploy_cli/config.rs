//! The configuration of a deployment.
use crate::account::{is_account_id, AccountId};
use crate::deploy_cli::amounts::{
    lemma_first_point, lemma_ten_to_24, near_amount, near_amount_text, parse_near_amount,
    parse_u128, supply_fault, supply_message, tokens_to_yocto, whole_part,
};
use crate::deploy_cli::options::{NetworkName, Options, OptionsView};
use crate::deploy_cli::prompt::{network_choice, prompt_default, prompt_network};
use crate::text::{
    all_digits, answer_or, bounded_number, digits_value, first_word, first_word_of, is_digit,
    join2, lemma_word_len, number_value, parse_number, trimmed, without_plus,
};
use vstd::arithmetic::power::{lemma_pow0, lemma_pow_positive, pow};
use vstd::prelude::*;

verus! {

pub const DEFAULT_TOKEN_DECIMALS: u8 = 24;

/// A hundred trillion cNEAR, more than will ever be needed.
pub const DEFAULT_TOTAL_SUPPLY_TOKENS: u128 = 100_000_000_000_000;

/// One NEAR for one cNEAR, in yoctoNEAR.
pub const DEFAULT_INITIAL_PRICE: u128 = 1_000_000_000_000_000_000_000_000;

/// Ten NEAR, in yoctoNEAR.
pub const DEFAULT_INITIAL_BALANCE: u128 = 10_000_000_000_000_000_000_000_000;

/// What is to be deployed, and where.
#[derive(Debug)]
pub struct Config {
    pub network: NetworkName,
    pub signer_id: AccountId,
    pub controller_id: AccountId,
    pub token_id: AccountId,
    pub token_name: String,
    pub token_symbol: String,
    pub token_decimals: u8,
    /// Whole tokens, as the operator gave them.
    pub total_supply_tokens: u128,
    /// `total_supply_tokens` scaled by `token_decimals`: what the token is initialized with.
    pub total_supply_yocto: u128,
    /// yoctoNEAR for one whole cNEAR.
    pub initial_price: u128,
    /// What a new account is given, in yoctoNEAR.
    pub initial_balance: u128,
    pub dry_run: bool,
    pub test_mode: bool,
}

/// A [`Config`], as mathematical values.
pub ghost struct ConfigView {
    pub network: NetworkName,
    pub signer_id: Seq<char>,
    pub controller_id: Seq<char>,
    pub token_id: Seq<char>,
    pub token_name: Seq<char>,
    pub token_symbol: Seq<char>,
    pub token_decimals: u8,
    pub total_supply_tokens: u128,
    pub total_supply_yocto: u128,
    pub initial_price: u128,
    pub initial_balance: u128,
    pub dry_run: bool,
    pub test_mode: bool,
}

impl View for Config {
    type V = ConfigView;

    open spec fn view(&self) -> ConfigView {
        ConfigView {
            network: self.network,
            signer_id: self.signer_id@,
            controller_id: self.controller_id@,
            token_id: self.token_id@,
            token_name: self.token_name@,
            token_symbol: self.token_symbol@,
            token_decimals: self.token_decimals,
            total_supply_tokens: self.total_supply_tokens,
            total_supply_yocto: self.total_supply_yocto,
            initial_price: self.initial_price,
            initial_balance: self.initial_balance,
            dry_run: self.dry_run,
            test_mode: self.test_mode,
        }
    }
}

/// The answers to the questions of an interactive session, as they were typed.
#[derive(Debug)]
pub struct Replies {
    pub controller_id: String,
    pub token_id: String,
    pub token_name: String,
    pub token_symbol: String,
    pub token_decimals: String,
    pub total_supply: String,
    pub initial_price: String,
    pub initial_balance: String,
}

/// What a session found out around the command line.
#[derive(Debug)]
pub struct Session {
    /// The answer to the question for a network, where it was asked.
    pub network_reply: String,
    /// The account that was chosen to sign, where the command line names none.
    pub signer: String,
    pub credentials_found: bool,
    pub credentials_path: String,
    pub replies: Replies,
}

/// What is configured besides network and signer.
#[derive(Debug)]
pub struct Values {
    pub controller: String,
    pub token: String,
    pub name: String,
    pub symbol: String,
    pub decimals: u8,
    pub supply: u128,
    pub price: u128,
    pub balance: u128,
}

/// [`Values`], as mathematical values.
pub ghost struct ValuesView {
    pub controller: Seq<char>,
    pub token: Seq<char>,
    pub name: Seq<char>,
    pub symbol: Seq<char>,
    pub decimals: u8,
    pub supply: u128,
    pub price: u128,
    pub balance: u128,
}

impl View for Values {
    type V = ValuesView;

    open spec fn view(&self) -> ValuesView {
        ValuesView {
            controller: self.controller@,
            token: self.token@,
            name: self.name@,
            symbol: self.symbol@,
            decimals: self.decimals,
            supply: self.supply,
            price: self.price,
            balance: self.balance,
        }
    }
}

/// What is configured where nothing is asked.
pub open spec fn default_values_for(signer: Seq<char>) -> ValuesView {
    ValuesView {
        controller: "controller."@ + signer,
        token: "token."@ + signer,
        name: "cNEAR"@,
        symbol: "cNEAR"@,
        decimals: DEFAULT_TOKEN_DECIMALS,
        supply: DEFAULT_TOTAL_SUPPLY_TOKENS,
        price: DEFAULT_INITIAL_PRICE,
        balance: DEFAULT_INITIAL_BALANCE,
    }
}

/// What the answers of an interactive session configure, or what the first wrong one is refused
/// for.
pub open spec fn asked_values_for(signer: Seq<char>, replies: Replies) -> Result<
    ValuesView,
    Seq<char>,
> {
    let d = default_values_for(signer);
    let decimals = bounded_number(answer_or(replies.token_decimals@, "24"@), u8::MAX as nat);
    let supply_text = answer_or(replies.total_supply@, "100000000000000"@);
    let supply = bounded_number(supply_text, u128::MAX as nat);
    let price_text = first_word_of(
        answer_or(replies.initial_price@, "1000000000000000000000000 (1 NEAR)"@),
    );
    let price = bounded_number(price_text, u128::MAX as nat);
    let balance = near_amount(answer_or(replies.initial_balance@, "10"@));
    if decimals is None {
        Err("token decimals must be an integer between 0 and 255"@)
    } else if supply is None {
        Err("invalid "@ + "total supply"@ + ": "@ + supply_text)
    } else if price is None {
        Err("invalid "@ + "initial price"@ + ": "@ + price_text)
    } else if balance is Err {
        Err(near_amount_text(balance->Err_0))
    } else {
        Ok(
            ValuesView {
                controller: answer_or(replies.controller_id@, d.controller),
                token: answer_or(replies.token_id@, d.token),
                name: answer_or(replies.token_name@, d.name),
                symbol: answer_or(replies.token_symbol@, d.symbol),
                decimals: decimals->0 as u8,
                supply: supply->0 as u128,
                price: price->0 as u128,
                balance: balance->Ok_0 as u128,
            },
        )
    }
}

/// The configuration that is used without a question.
pub fn default_values(signer: &AccountId) -> (r: Values)
    ensures
        r@ == default_values_for(signer@),
{
    Values {
        controller: join2("controller.", signer.as_str()),
        token: join2("token.", signer.as_str()),
        name: "cNEAR".to_owned(),
        symbol: "cNEAR".to_owned(),
        decimals: DEFAULT_TOKEN_DECIMALS,
        supply: DEFAULT_TOTAL_SUPPLY_TOKENS,
        price: DEFAULT_INITIAL_PRICE,
        balance: DEFAULT_INITIAL_BALANCE,
    }
}

/// Reads the decimals of the token.
pub fn parse_decimals(text: &str) -> (r: Result<u8, String>)
    ensures
        match r {
            Ok(n) => bounded_number(text@, u8::MAX as nat) == Some(n as nat),
            Err(message) => bounded_number(text@, u8::MAX as nat) is None && message@
                == "token decimals must be an integer between 0 and 255"@,
        },
{
    match parse_number(text, u8::MAX as u128) {
        Some(n) => Ok(n as u8),
        None => Err("token decimals must be an integer between 0 and 255".to_owned()),
    }
}

/// The configuration that the answers of an interactive session give.
pub fn asked_values(signer: &AccountId, replies: &Replies) -> (r: Result<Values, String>)
    ensures
        match r {
            Ok(v) => asked_values_for(signer@, *replies) == Ok::<ValuesView, Seq<char>>(v@),
            Err(message) => asked_values_for(signer@, *replies) == Err::<ValuesView, Seq<char>>(
                message@,
            ),
        },
{
    let d: Values = default_values(signer);
    let decimals: u8 = match parse_decimals(
        prompt_default(replies.token_decimals.as_str(), "24").as_str(),
    ) {
        Ok(n) => n,
        Err(message) => {
            return Err(message);
        },
    };
    let supply: u128 = match parse_u128(
        prompt_default(replies.total_supply.as_str(), "100000000000000").as_str(),
        "total supply",
    ) {
        Ok(n) => n,
        Err(message) => {
            return Err(message);
        },
    };
    let price_reply: String = prompt_default(
        replies.initial_price.as_str(),
        "1000000000000000000000000 (1 NEAR)",
    );
    let price: u128 = match parse_u128(first_word(price_reply.as_str()), "initial price") {
        Ok(n) => n,
        Err(message) => {
            return Err(message);
        },
    };
    let balance: u128 = match parse_near_amount(
        prompt_default(replies.initial_balance.as_str(), "10").as_str(),
    ) {
        Ok(n) => n,
        Err(e) => {
            return Err(e.message());
        },
    };
    Ok(
        Values {
            controller: prompt_default(replies.controller_id.as_str(), d.controller.as_str()),
            token: prompt_default(replies.token_id.as_str(), d.token.as_str()),
            name: prompt_default(replies.token_name.as_str(), d.name.as_str()),
            symbol: prompt_default(replies.token_symbol.as_str(), d.symbol.as_str()),
            decimals,
            supply,
            price,
            balance,
        },
    )
}

/// The network of a deployment: the one that was named, testnet in test mode, else the answer.
pub open spec fn network_of(o: OptionsView, reply: Seq<char>) -> NetworkName {
    match o.network {
        Some(network) => network,
        None => if o.test_mode {
            NetworkName::Testnet
        } else {
            network_choice(reply).0
        },
    }
}

/// The signer of a deployment: the one that was named, else the one that was chosen.
pub open spec fn signer_of(o: OptionsView, chosen: Seq<char>) -> Seq<char> {
    match o.signer_id {
        Some(id) => id,
        None => chosen,
    }
}

/// Whether the values are asked for one by one.
pub open spec fn asks_for_values(o: OptionsView) -> bool {
    o.interactive && !o.test_mode
}

/// What a session configures besides network and signer.
pub open spec fn values_of(o: OptionsView, signer: Seq<char>, replies: Replies) -> Result<
    ValuesView,
    Seq<char>,
> {
    if asks_for_values(o) {
        asked_values_for(signer, replies)
    } else {
        Ok(default_values_for(signer))
    }
}

/// The configuration that a command line and a session give, or what is wrong with them.
pub open spec fn config_of(o: OptionsView, s: Session) -> Result<ConfigView, Seq<char>> {
    let signer = signer_of(o, s.signer@);
    if !is_account_id(signer) {
        Err("invalid "@ + "signer"@ + " account ID: "@ + signer)
    } else if !s.credentials_found && !o.dry_run {
        Err("credentials file not found: "@ + s.credentials_path@)
    } else {
        match values_of(o, signer, s.replies) {
            Err(message) => Err(message),
            Ok(v) => if !is_account_id(v.controller) {
                Err("invalid "@ + "controller"@ + " account ID: "@ + v.controller)
            } else if !is_account_id(v.token) {
                Err("invalid "@ + "token"@ + " account ID: "@ + v.token)
            } else if supply_fault(v.supply, v.decimals) is Some {
                Err(
                    supply_message(
                        supply_fault(v.supply, v.decimals)->0,
                        v.supply,
                        v.decimals,
                        "total supply"@,
                    ),
                )
            } else {
                Ok(
                    ConfigView {
                        network: network_of(o, s.network_reply@),
                        signer_id: signer,
                        controller_id: v.controller,
                        token_id: v.token,
                        token_name: v.name,
                        token_symbol: v.symbol,
                        token_decimals: v.decimals,
                        total_supply_tokens: v.supply,
                        total_supply_yocto: (v.supply * pow(10, v.decimals as nat)) as u128,
                        initial_price: v.price,
                        initial_balance: v.balance,
                        dry_run: o.dry_run,
                        test_mode: o.test_mode,
                    },
                )
            },
        }
    }
}

/// Reads an account identifier, with a message that names what it was to be.
pub fn parse_account_id(value: &str, label: &str) -> (r: Result<AccountId, String>)
    ensures
        match r {
            Ok(id) => is_account_id(value@) && id@ == value@,
            Err(message) => !is_account_id(value@) && message@ == "invalid "@ + label@
                + " account ID: "@ + value@,
        },
{
    match AccountId::parse(value) {
        Some(id) => Ok(id),
        None => {
            let mut message: String = "invalid ".to_owned();
            message.append(label);
            message.append(" account ID: ");
            message.append(value);
            Err(message)
        },
    }
}

/// The network that is deployed on without a question, if the command line settles it.
pub fn settled_network(options: &Options) -> (r: Option<NetworkName>)
    ensures
        match r {
            Some(network) => forall|reply: Seq<char>| network_of(options@, reply) == network,
            None => forall|reply: Seq<char>|
                network_of(options@, reply) == network_choice(reply).0,
        },
        r is None <==> options@.network is None && !options@.test_mode,
{
    match options.network {
        Some(network) => Some(network),
        None => if options.test_mode {
            Some(NetworkName::Testnet)
        } else {
            None
        },
    }
}

/// Whether a signer may be used whose credentials are there or not: in a dry run it is, either
/// way.
pub fn check_credentials_file(found: bool, dry_run: bool, path: &str) -> (r: Result<(), String>)
    ensures
        match r {
            Ok(()) => found || dry_run,
            Err(message) => !found && !dry_run && message@ == "credentials file not found: "@
                + path@,
        },
{
    if found || dry_run {
        Ok(())
    } else {
        Err(join2("credentials file not found: ", path))
    }
}

/// Puts the configuration of a deployment together.
pub fn build_config(options: Options, session: Session) -> (r: Result<Config, String>)
    ensures
        match r {
            Ok(c) => config_of(options@, session) == Ok::<ConfigView, Seq<char>>(c@),
            Err(message) => config_of(options@, session) == Err::<ConfigView, Seq<char>>(message@),
        },
{
    let network: NetworkName = match settled_network(&options) {
        Some(network) => network,
        None => prompt_network(session.network_reply.as_str()).0,
    };
    let signer_text: &str = match &options.signer_id {
        Some(id) => id.as_str(),
        None => session.signer.as_str(),
    };
    let signer_id: AccountId = match parse_account_id(signer_text, "signer") {
        Ok(id) => id,
        Err(message) => {
            return Err(message);
        },
    };
    match check_credentials_file(
        session.credentials_found,
        options.dry_run,
        session.credentials_path.as_str(),
    ) {
        Ok(()) => {},
        Err(message) => {
            return Err(message);
        },
    }
    let values: Values = if options.interactive && !options.test_mode {
        match asked_values(&signer_id, &session.replies) {
            Ok(v) => v,
            Err(message) => {
                return Err(message);
            },
        }
    } else {
        default_values(&signer_id)
    };
    let controller_id: AccountId = match parse_account_id(values.controller.as_str(), "controller") {
        Ok(id) => id,
        Err(message) => {
            return Err(message);
        },
    };
    let token_id: AccountId = match parse_account_id(values.token.as_str(), "token") {
        Ok(id) => id,
        Err(message) => {
            return Err(message);
        },
    };
    let total_supply_yocto: u128 = match tokens_to_yocto(
        values.supply,
        values.decimals,
        "total supply",
    ) {
        Ok(n) => n,
        Err(e) => {
            return Err(e.message);
        },
    };
    Ok(
        Config {
            network,
            signer_id,
            controller_id,
            token_id,
            token_name: values.name,
            token_symbol: values.symbol,
            token_decimals: values.decimals,
            total_supply_tokens: values.supply,
            total_supply_yocto,
            initial_price: values.price,
            initial_balance: values.balance,
            dry_run: options.dry_run,
            test_mode: options.test_mode,
        },
    )
}

/// A configuration that was put together holds whole tokens scaled exactly, and valid accounts.
pub proof fn law_a_configuration_is_sound(o: OptionsView, s: Session)
    requires
        config_of(o, s) is Ok,
    ensures
        ({
            let c = config_of(o, s)->Ok_0;
            &&& c.total_supply_tokens > 0
            &&& c.total_supply_yocto == c.total_supply_tokens * pow(10, c.token_decimals as nat)
            &&& is_account_id(c.signer_id)
            &&& is_account_id(c.controller_id)
            &&& is_account_id(c.token_id)
            &&& c.dry_run == o.dry_run
            &&& c.test_mode == o.test_mode
        }),
{
    let v = values_of(o, signer_of(o, s.signer@), s.replies)->Ok_0;
    let p = pow(10, v.decimals as nat);
    vstd::arithmetic::power::lemma_pow_positive(10, v.decimals as nat);
    assert(v.supply * p >= 0) by (nonlinear_arith)
        requires
            p > 0,
    ;
}

/// A one that `k` zeros follow writes ten to the power of `k`.
proof fn lemma_power_text(s: Seq<char>, k: nat)
    requires
        s.len() == k + 1,
        s[0] == '1',
        forall|i: int| 1 <= i <= k ==> s[i] == '0',
    ensures
        number_value(s) == Some(pow(10, k) as nat),
        all_digits(s),
    decreases k,
{
    assert forall|i: int| 0 <= i < s.len() implies is_digit(#[trigger] s[i]) by {
        if i > 0 {
            assert(s[i] == '0');
        }
    }
    let rest = s.drop_last();
    if k == 0 {
        lemma_pow0(10);
        assert(rest =~= Seq::empty());
        assert(digits_value(rest) == 0);
        assert(s.last() == '1');
    } else {
        lemma_power_text(rest, (k - 1) as nat);
        reveal(pow);
        assert(s.last() == s[k as int]);
        assert(without_plus(rest) == rest);
    }
    lemma_pow_positive(10, k);
}

/// In a session in which every line is blank, everything is configured as without a question.
pub proof fn law_blank_answers_are_the_defaults(signer: Seq<char>, replies: Replies)
    requires
        trimmed(replies.controller_id@).len() == 0,
        trimmed(replies.token_id@).len() == 0,
        trimmed(replies.token_name@).len() == 0,
        trimmed(replies.token_symbol@).len() == 0,
        trimmed(replies.token_decimals@).len() == 0,
        trimmed(replies.total_supply@).len() == 0,
        trimmed(replies.initial_price@).len() == 0,
        trimmed(replies.initial_balance@).len() == 0,
    ensures
        asked_values_for(signer, replies) == Ok::<ValuesView, Seq<char>>(
            default_values_for(signer),
        ),
{
    reveal_strlit("24");
    let decimals = "24"@;
    assert(decimals.drop_last().drop_last() =~= Seq::empty());
    reveal_with_fuel(digits_value, 3);
    assert(number_value(decimals) == Some(24nat));

    reveal_strlit("100000000000000");
    lemma_power_text("100000000000000"@, 14);
    reveal_with_fuel(pow, 15);
    assert(pow(10, 14) == DEFAULT_TOTAL_SUPPLY_TOKENS);

    reveal_strlit("1000000000000000000000000 (1 NEAR)");
    let price = "1000000000000000000000000 (1 NEAR)"@;
    lemma_word_len(price, 25);
    assert(first_word_of(price) =~= price.take(25));
    lemma_power_text(price.take(25), 24);
    lemma_ten_to_24();

    reveal_strlit("10");
    let balance = "10"@;
    assert(trimmed(balance) =~= balance);
    lemma_first_point(balance, 2);
    assert(whole_part(balance) =~= balance);
    lemma_power_text(balance, 1);
    assert(pow(10, 1) == 10);
    assert(digits_value(Seq::<char>::empty()) == 0);
}

/// Without a question, accounts and token are configured by the signer alone.
pub proof fn law_defaults_depend_on_the_signer_alone(o: OptionsView, s: Session, t: Session)
    requires
        !asks_for_values(o),
        config_of(o, s) is Ok,
        config_of(o, t) is Ok,
        s.signer@ == t.signer@,
        s.network_reply@ == t.network_reply@,
    ensures
        config_of(o, s) == config_of(o, t),
{
}

} // verus!
