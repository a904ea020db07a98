//! What the tool shows: the configuration, and the commands of a dry run.
use crate::arguments::{
    controller_args, controller_args_text, token_args, token_args_text, TokenTerms,
};
use crate::deploy_cli::config::{Config, ConfigView};
use crate::deploy_cli::options::network_text;
use crate::near_amount::{exact_amount, exact_amount_display};
use crate::paths::{below, join_path};
use crate::text::{add_line, decimal, decimal_text, join2, texts};
use vstd::prelude::*;

verus! {

/// The colours of the terminal.
#[derive(Clone, Copy, PartialEq, Eq, Structural, Debug)]
pub enum Color {
    Blue,
    Green,
    Red,
    Yellow,
}

/// The escape sequence that turns a colour on.
pub open spec fn color_code(color: Color) -> Seq<char> {
    match color {
        Color::Blue => "\x1b[0;34m"@,
        Color::Green => "\x1b[0;32m"@,
        Color::Red => "\x1b[0;31m"@,
        Color::Yellow => "\x1b[1;33m"@,
    }
}

/// `s` in a colour.
pub open spec fn painted(color: Color, s: Seq<char>) -> Seq<char> {
    color_code(color) + s + "\x1b[0m"@
}

/// `text` in a colour.
pub fn paint(color: Color, text: &str) -> (r: String)
    ensures
        r@ == painted(color, text@),
{
    let mut r: String = match color {
        Color::Blue => "\x1b[0;34m".to_owned(),
        Color::Green => "\x1b[0;32m".to_owned(),
        Color::Red => "\x1b[0;31m".to_owned(),
        Color::Yellow => "\x1b[1;33m".to_owned(),
    };
    r.append(text);
    r.append("\x1b[0m");
    r
}

/// The directory of build results: the one that was set, else `target`.
pub fn target_dir(set: Option<String>) -> (r: String)
    ensures
        r@ == match set {
            Some(dir) => dir@,
            None => "target"@,
        },
{
    match set {
        Some(dir) => dir,
        None => "target".to_owned(),
    }
}

/// Where the token's code is built.
pub fn token_wasm(target_dir: &str) -> (r: String)
    ensures
        r@ == below(target_dir@, "near/fungible_token.wasm"@),
{
    join_path(target_dir, "near/fungible_token.wasm")
}

/// Where the controller's code is built.
pub fn controller_wasm(target_dir: &str) -> (r: String)
    ensures
        r@ == below(target_dir@, "near/aurora-controller-factory.wasm"@),
{
    join_path(target_dir, "near/aurora-controller-factory.wasm")
}

/// What is missing among the files that are deployed, with what to do about it.
pub fn validate_wasm_files(
    token_found: bool,
    controller_found: bool,
    token_path: &str,
    controller_path: &str,
) -> (r: Result<(), String>)
    ensures
        match r {
            Ok(()) => token_found && controller_found,
            Err(message) => if !token_found {
                message@ == "token wasm not found at "@ + token_path@ + "\nRun: just build-token"@
            } else {
                !controller_found && message@ == "controller wasm not found at "@ + controller_path@
                    + "\nRun: just build-controller"@
            },
        },
{
    if !token_found {
        let mut message: String = "token wasm not found at ".to_owned();
        message.append(token_path);
        message.append("\nRun: just build-token");
        return Err(message);
    }
    if !controller_found {
        let mut message: String = "controller wasm not found at ".to_owned();
        message.append(controller_path);
        message.append("\nRun: just build-controller");
        return Err(message);
    }
    Ok(())
}

/// What a configuration has the token initialized with: the signer owns it and holds the supply.
pub open spec fn token_terms(c: ConfigView) -> TokenTerms {
    TokenTerms {
        name: c.token_name,
        symbol: c.token_symbol,
        decimals: c.token_decimals,
        owner: c.signer_id,
        supply: c.total_supply_yocto,
        price: c.initial_price,
    }
}

/// The controller's initialization.
pub fn controller_init_args(config: &Config) -> (r: String)
    ensures
        r@ == controller_args_text(config@.signer_id),
{
    controller_args(config.signer_id.as_str())
}

/// The token's initialization.
pub fn token_init_args(config: &Config) -> (r: String)
    ensures
        r@ == token_args_text(token_terms(config@)),
{
    token_args(
        config.token_name.as_str(),
        config.token_symbol.as_str(),
        config.token_decimals,
        config.signer_id.as_str(),
        config.total_supply_yocto,
        config.initial_price,
    )
}

/// What is shown of a command that a dry run does not execute.
pub open spec fn command_lines(command: Seq<char>) -> Seq<Seq<char>> {
    seq![
        painted(Color::Blue, "Command:"@) + " "@ + command,
        painted(Color::Yellow, "[DRY RUN - not executed]"@) + "\n"@,
    ]
}

pub(crate) fn add_command(out: &mut Vec<String>, command: String)
    ensures
        texts(final(out)@) == texts(old(out)@) + command_lines(command@),
{
    let ghost before = texts(out@);
    let mut line: String = paint(Color::Blue, "Command:");
    line.append(" ");
    line.append(command.as_str());
    add_line(out, line);
    let mut note: String = paint(Color::Yellow, "[DRY RUN - not executed]");
    note.append("\n");
    add_line(out, note);
    assert(texts(out@) =~= before + command_lines(command@));
}

/// The summary of a configuration, line by line.
pub open spec fn configuration_text(c: ConfigView) -> Seq<Seq<char>> {
    seq![
        "\n"@ + painted(Color::Blue, "=== Deployment Summary ==="@),
        "Network:           "@ + network_text(c.network),
        "Signer:            "@ + c.signer_id,
        "Controller:        "@ + c.controller_id,
        "Token:             "@ + c.token_id,
        "Token Name:        "@ + c.token_name,
        "Token Symbol:      "@ + c.token_symbol,
        "Token Decimals:    "@ + decimal_text(c.token_decimals as nat),
        "Total Supply:      "@ + decimal_text(c.total_supply_tokens as nat) + " tokens ("@
            + decimal_text(c.total_supply_yocto as nat) + " yoctoNEAR at "@ + decimal_text(
            c.token_decimals as nat,
        ) + " decimals)"@,
        "Initial Price:     "@ + decimal_text(c.initial_price as nat) + " yoctoNEAR ("@
            + exact_amount(c.initial_price) + " per cNEAR)"@,
        "Dry Run:           "@ + if c.dry_run {
            "true"@
        } else {
            "false"@
        },
        Seq::empty(),
    ]
}

/// The lines that sum a configuration up.
pub fn configuration_lines(config: &Config) -> (r: Vec<String>)
    ensures
        texts(r@) == configuration_text(config@),
{
    let mut out: Vec<String> = Vec::new();
    add_line(&mut out, join2("\n", paint(Color::Blue, "=== Deployment Summary ===").as_str()));
    add_line(&mut out, join2("Network:           ", config.network.as_str()));
    add_line(&mut out, join2("Signer:            ", config.signer_id.as_str()));
    add_line(&mut out, join2("Controller:        ", config.controller_id.as_str()));
    add_line(&mut out, join2("Token:             ", config.token_id.as_str()));
    add_line(&mut out, join2("Token Name:        ", config.token_name.as_str()));
    add_line(&mut out, join2("Token Symbol:      ", config.token_symbol.as_str()));
    add_line(
        &mut out,
        join2("Token Decimals:    ", decimal(config.token_decimals as u128).as_str()),
    );
    let mut supply: String = "Total Supply:      ".to_owned();
    supply.append(decimal(config.total_supply_tokens).as_str());
    supply.append(" tokens (");
    supply.append(decimal(config.total_supply_yocto).as_str());
    supply.append(" yoctoNEAR at ");
    supply.append(decimal(config.token_decimals as u128).as_str());
    supply.append(" decimals)");
    add_line(&mut out, supply);
    let mut price: String = "Initial Price:     ".to_owned();
    price.append(decimal(config.initial_price).as_str());
    price.append(" yoctoNEAR (");
    price.append(exact_amount_display(config.initial_price).as_str());
    price.append(" per cNEAR)");
    add_line(&mut out, price);
    add_line(
        &mut out,
        join2(
            "Dry Run:           ",
            if config.dry_run {
                "true"
            } else {
                "false"
            },
        ),
    );
    add_line(&mut out, String::new());
    assert(texts(out@) =~= configuration_text(config@));
    out
}

} // verus!
