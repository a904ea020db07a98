//! Where the tool finds and keeps credentials.
use crate::account::{is_account_id, AccountId};
use crate::deploy::credentials::{Credentials, CredentialsView};
use crate::deploy_cli::options::{network_text, NetworkName};
use crate::json::{json_field, json_string, json_text, push_field, quote, quoted};
use crate::paths::{below, join_path};
use crate::secret_key::{secret_key_texts, SecretKey};
use crate::text::{join2, opt_text, same_text};
use vstd::prelude::*;

verus! {

/// The directory of a network's credentials: below the root that was set, else below the home
/// directory; nothing where neither is known.
pub open spec fn credentials_dir_text(
    network: NetworkName,
    root: Option<Seq<char>>,
    home: Option<Seq<char>>,
) -> Option<Seq<char>> {
    match root {
        Some(root) => Some(below(root, network_text(network))),
        None => match home {
            Some(home) => Some(below(below(home, ".near-credentials"@), network_text(network))),
            None => None,
        },
    }
}

/// What is said of a directory that is not there.
pub open spec fn missing_dir_text(dir: Seq<char>, network: NetworkName) -> Seq<char> {
    "NEAR credentials directory does not exist: "@ + dir + "\nExpected: ~/.near-credentials/"@
        + network_text(network) + " or $NEAR_CREDENTIALS/"@ + network_text(network)
}

/// The directory of a network's credentials, given the variables `NEAR_CREDENTIALS` and `HOME`.
pub fn credentials_dir(network: NetworkName, root: &Option<String>, home: &Option<String>) -> (r: Result<
    String,
    String,
>)
    ensures
        match r {
            Ok(dir) => credentials_dir_text(network, opt_text(*root), opt_text(*home)) == Some(
                dir@,
            ),
            Err(message) => root is None && home is None && message@
                == "HOME is not set and NEAR_CREDENTIALS is not set"@,
        },
{
    match root {
        Some(root) => Ok(join_path(root.as_str(), network.as_str())),
        None => match home {
            Some(home) => {
                let base: String = join_path(home.as_str(), ".near-credentials");
                Ok(join_path(base.as_str(), network.as_str()))
            },
            None => Err("HOME is not set and NEAR_CREDENTIALS is not set".to_owned()),
        },
    }
}

/// Whether the directory of credentials is there.
pub fn check_credentials_dir(dir: &str, found: bool, network: NetworkName) -> (r: Result<(), String>)
    ensures
        match r {
            Ok(()) => found,
            Err(message) => !found && message@ == missing_dir_text(dir@, network),
        },
{
    if found {
        return Ok(());
    }
    let mut message: String = "NEAR credentials directory does not exist: ".to_owned();
    message.append(dir);
    message.append("\nExpected: ~/.near-credentials/");
    message.append(network.as_str());
    message.append(" or $NEAR_CREDENTIALS/");
    message.append(network.as_str());
    Err(message)
}

/// Whether the signer's credentials are those of the signer.
pub fn check_signer(found: &str, wanted: &AccountId) -> (r: Result<(), String>)
    ensures
        match r {
            Ok(()) => found@ == wanted@,
            Err(message) => found@ != wanted@ && message@ == "credentials file belongs to "@
                + found@ + ", not "@ + wanted@,
        },
{
    if wanted.is(found) {
        return Ok(());
    }
    let mut message: String = "credentials file belongs to ".to_owned();
    message.append(found);
    message.append(", not ");
    message.append(wanted.as_str());
    Err(message)
}

/// The contents of a file of credentials, in the form that both near-cli and near-workspaces read.
pub open spec fn near_cli_text(account: Seq<char>, key: (Seq<char>, Seq<char>)) -> Seq<char> {
    "{"@ + json_field("account_id"@, quoted(account)) + ","@ + json_field(
        "private_key"@,
        json_text(key.0),
    ) + ","@ + json_field("public_key"@, json_text(key.1)) + "}"@
}

/// What is written to the file of a created account's credentials.
pub fn store_near_cli_credentials(account_id: &AccountId, secret_key: &SecretKey) -> (r: String)
    ensures
        r@ == near_cli_text(account_id@, secret_key@),
{
    let mut r: String = "{".to_owned();
    push_field(&mut r, "account_id", quote(account_id.as_str()).as_str());
    r.append(",");
    push_field(&mut r, "private_key", json_string(secret_key.as_str()).as_str());
    r.append(",");
    push_field(&mut r, "public_key", json_string(secret_key.public_key()).as_str());
    r.append("}");
    r
}

/// Account, public key and secret key in the file of credentials that `bytes` are, each in its full
/// form; what is said of the bytes where they are none.
pub uninterp spec fn key_file_texts(bytes: Seq<u8>) -> Result<
    (Seq<char>, Seq<char>, Seq<char>),
    Seq<char>,
>;

/// The view of what a file of credentials holds.
pub open spec fn key_file_view(r: Result<(String, String, String), String>) -> Result<
    (Seq<char>, Seq<char>, Seq<char>),
    Seq<char>,
> {
    match r {
        Ok((account, public_key, secret_key)) => Ok((account@, public_key@, secret_key@)),
        Err(fault) => Err(fault@),
    }
}

/// Calls `serde_json::from_slice` for near-crypto's `KeyFile`, which holds an account, a public key
/// and a secret key, the last under the name `secret_key` or `private_key`.
#[verifier::external_body]
fn key_file(bytes: &Vec<u8>) -> (r: Result<(String, String, String), String>)
    ensures
        key_file_view(r) == key_file_texts(bytes@),
{
    match serde_json::from_slice::<near_crypto::KeyFile>(bytes) {
        Ok(f) => {
            Ok((f.account_id.to_string(), f.public_key.to_string(), f.secret_key.to_string()))
        },
        Err(fault) => Err(fault.to_string()),
    }
}

/// The credentials that account, public key and secret key make up, or what is wrong with them: the
/// public key must be the one of the secret key.
pub open spec fn key_file_credentials(
    account: Seq<char>,
    public_key: Seq<char>,
    secret_key: Seq<char>,
) -> Result<CredentialsView, Seq<char>> {
    match secret_key_texts(secret_key) {
        None => Err("could not read the secret key"@),
        Some(key) => if key.1 != public_key {
            Err("public key does not correspond to secret key in key file"@)
        } else if !is_account_id(account) {
            Err("invalid account ID: "@ + account)
        } else {
            Ok(CredentialsView { account, secret_key: key.0, public_key: key.1 })
        },
    }
}

/// The view of credentials that were read.
pub open spec fn credentials_view(r: Result<Credentials, String>) -> Result<
    CredentialsView,
    Seq<char>,
> {
    match r {
        Ok(credentials) => Ok(credentials@),
        Err(fault) => Err(fault@),
    }
}

/// Puts credentials together from the texts of a file.
pub fn check_key_file(account: &str, public_key: &str, secret_key: &str) -> (r: Result<
    Credentials,
    String,
>)
    ensures
        credentials_view(r) == key_file_credentials(account@, public_key@, secret_key@),
{
    let key: SecretKey = match SecretKey::parse(secret_key) {
        Some(key) => key,
        None => {
            return Err("could not read the secret key".to_owned());
        },
    };
    if !same_text(key.public_key(), public_key) {
        return Err("public key does not correspond to secret key in key file".to_owned());
    }
    match AccountId::parse(account) {
        Some(account_id) => Ok(Credentials { account_id, secret_key: key }),
        None => Err(join2("invalid account ID: ", account)),
    }
}

/// Reads a file of credentials.
pub fn read_credentials(bytes: &Vec<u8>) -> (r: Result<Credentials, String>)
    ensures
        credentials_view(r) == match key_file_texts(bytes@) {
            Ok((account, public_key, secret_key)) => key_file_credentials(
                account,
                public_key,
                secret_key,
            ),
            Err(fault) => Err(fault),
        },
{
    match key_file(bytes) {
        Ok((account, public_key, secret_key)) => check_key_file(
            account.as_str(),
            public_key.as_str(),
            secret_key.as_str(),
        ),
        Err(fault) => Err(fault),
    }
}

} // verus!
