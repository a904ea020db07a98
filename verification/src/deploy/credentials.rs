//! Credentials: where they are kept, and when they are trusted.
use crate::account::{is_account_id, opt_account, AccountId};
use crate::deploy::cli::{subdir_text, Network};
use crate::deploy_cli::prompt::credential_account;
use crate::json::{json_text, json_string, quote, quoted};
use crate::paths::{below, join_path};
use crate::secret_key::{full_form, normal_public_key, public_key_text, secret_key_texts, SecretKey};
use crate::sorting::{in_order, sort_texts};
use crate::text::{
    bounded_number, debug_text, decimal, digit_char, join2, opt_text, parse_number, same_text,
    show_debug, strip_suffix, texts, trim, trimmed,
};
use vstd::prelude::*;

verus! {

/// An account with its signing key.
pub struct Credentials {
    pub account_id: AccountId,
    pub secret_key: SecretKey,
}

/// [`Credentials`], as mathematical values: account, secret key and public key.
pub ghost struct CredentialsView {
    pub account: Seq<char>,
    pub secret_key: Seq<char>,
    pub public_key: Seq<char>,
}

impl View for Credentials {
    type V = CredentialsView;

    open spec fn view(&self) -> CredentialsView {
        CredentialsView {
            account: self.account_id@,
            secret_key: self.secret_key@.0,
            public_key: self.secret_key@.1,
        }
    }
}

impl Credentials {
    /// The same credentials again.
    pub fn copy(&self) -> (r: Credentials)
        ensures
            r@ == self@,
    {
        Credentials { account_id: self.account_id.copy(), secret_key: self.secret_key.copy() }
    }
}

/// The directory of a network's credentials: below the root that was set, else below the home
/// directory; nothing where neither is known.
pub open spec fn credentials_dir_text(
    network: Network,
    root: Option<Seq<char>>,
    home: Option<Seq<char>>,
) -> Option<Seq<char>> {
    match root {
        Some(root) => Some(below(root, subdir_text(network))),
        None => match home {
            Some(home) => Some(below(below(home, ".near-credentials"@), subdir_text(network))),
            None => None,
        },
    }
}

/// The directory of a network's credentials, given the variables `NEAR_CREDENTIALS` and `HOME`.
pub fn credentials_dir(network: Network, root: &Option<String>, home: &Option<String>) -> (r: Result<
    String,
    String,
>)
    ensures
        match r {
            Ok(dir) => credentials_dir_text(
                network,
                opt_text(*root),
                opt_text(*home),
            ) == Some(dir@),
            Err(message) => root is None && home is None && message@ == "HOME is not set"@,
        },
{
    match root {
        Some(root) => Ok(join_path(root.as_str(), network.subdir())),
        None => match home {
            Some(home) => {
                let base: String = join_path(home.as_str(), ".near-credentials");
                Ok(join_path(base.as_str(), network.subdir()))
            },
            None => Err("HOME is not set".to_owned()),
        },
    }
}

/// The file of an account's credentials.
pub open spec fn credential_file_text(dir: Seq<char>, account: Seq<char>) -> Seq<char> {
    below(dir, account + ".json"@)
}

/// The file of an account's credentials.
pub fn credential_file(dir: &str, account_id: &AccountId) -> (r: String)
    ensures
        r@ == credential_file_text(dir@, account_id@),
{
    join_path(dir, join2(account_id.as_str(), ".json").as_str())
}

/// The file that holds the signer's credentials: the one that was named, else the one of the signer
/// in the directory, which is looked up only then.
pub fn credential_path(
    dir: &Result<String, String>,
    signer_id: Option<&AccountId>,
    explicit: Option<&str>,
) -> (r: Result<String, String>)
    ensures
        match r {
            Ok(path) => match explicit {
                Some(given) => path@ == given@,
                None => *dir is Ok && signer_id is Some && path@ == credential_file_text(
                    dir->Ok_0@,
                    signer_id->0@,
                ),
            },
            Err(message) => explicit is None && match *dir {
                Err(fault) => message@ == fault@,
                Ok(_) => signer_id is None && message@
                    == "signer ID is required for implicit credential path"@,
            },
        },
{
    match explicit {
        Some(path) => Ok(path.to_owned()),
        None => match dir {
            Err(fault) => Err(fault.clone()),
            Ok(dir) => match signer_id {
                Some(id) => Ok(credential_file(dir.as_str(), id)),
                None => Err("signer ID is required for implicit credential path".to_owned()),
            },
        },
    }
}

/// The permissions that a file of credentials must have: the owner reads and writes it.
pub const PRIVATE_MODE: u32 = 0o600;

/// The last nine bits of a file's mode: its permissions.
pub open spec fn permissions(mode: u32) -> u32 {
    mode % 512
}

/// A number below 512 in three octal digits.
pub open spec fn octal_text(n: u32) -> Seq<char> {
    seq![
        digit_char((n / 64) as nat),
        digit_char((n / 8 % 8) as nat),
        digit_char((n % 8) as nat),
    ]
}

fn octal(n: u32) -> (r: String)
    requires
        n < 512,
    ensures
        r@ == octal_text(n),
{
    let mut r: String = decimal((n / 64) as u128);
    r.append(decimal((n / 8 % 8) as u128).as_str());
    r.append(decimal((n % 8) as u128).as_str());
    assert(r@ =~= octal_text(n));
    r
}

/// What a file's permissions are refused for.
pub open spec fn mode_fault(path: Seq<char>, actual: u32, wanted: u32) -> Option<Seq<char>> {
    if permissions(actual) == wanted {
        None
    } else {
        Some(
            "credential file "@ + path + " must have permissions "@ + octal_text(wanted)
                + ", found "@ + octal_text(permissions(actual)),
        )
    }
}

/// Whether a file has the permissions that it must have.
pub fn validate_private_file_mode(path: &str, actual: u32, wanted: u32) -> (r: Result<(), String>)
    requires
        wanted < 512,
    ensures
        match r {
            Ok(()) => mode_fault(path@, actual, wanted) is None,
            Err(message) => mode_fault(path@, actual, wanted) == Some(message@),
        },
{
    let found: u32 = actual % 512;
    if found == wanted {
        return Ok(());
    }
    let mut message: String = join2("credential file ", path);
    message.append(" must have permissions ");
    message.append(octal(wanted).as_str());
    message.append(", found ");
    message.append(octal(found).as_str());
    Err(message)
}

/// What a file of credentials says.
#[derive(Debug)]
pub struct CredentialFile {
    pub account_id: String,
    pub public_key: String,
    pub private_key: String,
}

/// What was found where a file of credentials was looked for.
#[derive(Debug)]
pub enum FileState {
    Missing,
    Symlink,
    /// Something that is no regular file.
    NotAFile,
    /// A file with this mode that could not be read.
    Unreadable(u32),
    /// A file with this mode whose contents are no credentials.
    Malformed(u32),
    /// A file with this mode and these contents.
    Read(u32, CredentialFile),
}

/// The credentials that a file says, or why they are not trusted: its account and keys must be
/// well formed, the keys must belong together, and the account must be the one that was wanted.
pub open spec fn trusted(file: CredentialFile, expected: Option<Seq<char>>) -> Result<
    CredentialsView,
    Seq<char>,
> {
    let keys = secret_key_texts(file.private_key@);
    let (own_secret, own_public) = keys->0;
    let public_key = public_key_text(file.public_key@);
    if !is_account_id(file.account_id@) || keys is None || public_key is None {
        Err("invalid NEAR credential JSON"@)
    } else if public_key->0 != own_public {
        Err("credential public_key does not match private_key"@)
    } else if expected is Some && expected->0 != file.account_id@ {
        Err("credential account_id does not match requested signer"@)
    } else {
        Ok(
            CredentialsView {
                account: file.account_id@,
                secret_key: own_secret,
                public_key: own_public,
            },
        )
    }
}

/// The credentials in a file, or why they are not used.
pub open spec fn loaded(path: Seq<char>, file: FileState, expected: Option<Seq<char>>) -> Result<
    CredentialsView,
    Seq<char>,
> {
    match file {
        FileState::Missing => Err("credential file not found: "@ + path),
        FileState::Symlink => Err("credential path must not be a symlink: "@ + path),
        FileState::NotAFile => Err("credential path is not a regular file: "@ + path),
        FileState::Unreadable(mode) => match mode_fault(path, mode, PRIVATE_MODE) {
            Some(message) => Err(message),
            None => Err("cannot read credential file "@ + path),
        },
        FileState::Malformed(mode) => match mode_fault(path, mode, PRIVATE_MODE) {
            Some(message) => Err(message),
            None => Err("invalid NEAR credential JSON"@),
        },
        FileState::Read(mode, contents) => match mode_fault(path, mode, PRIVATE_MODE) {
            Some(message) => Err(message),
            None => trusted(contents, expected),
        },
    }
}

/// Whether `r` says what `spec` says.
pub open spec fn same_credentials(
    r: Result<Credentials, String>,
    spec: Result<CredentialsView, Seq<char>>,
) -> bool {
    match r {
        Ok(c) => spec == Ok::<CredentialsView, Seq<char>>(c@),
        Err(message) => spec == Err::<CredentialsView, Seq<char>>(message@),
    }
}

/// The view of an optional account.
pub open spec fn opt_account_ref(id: Option<&AccountId>) -> Option<Seq<char>> {
    match id {
        Some(id) => Some(id@),
        None => None,
    }
}

/// The credentials that a file says, once its keys are read: `keys` are the secret key and its
/// public key, `public_key` is the public key that the file names.
pub fn check_credentials(
    account_id: &str,
    keys: Option<SecretKey>,
    public_key: Option<String>,
    expected: Option<&AccountId>,
) -> (r: Result<Credentials, String>)
    ensures
        match r {
            Ok(c) => is_account_id(account_id@) && c.account_id@ == account_id@ && keys is Some
                && c.secret_key@ == keys->0@ && public_key is Some && public_key->0@ == keys->0@.1
                && (expected is Some ==> expected->0@ == account_id@),
            Err(message) => if !is_account_id(account_id@) || keys is None || public_key is None {
                message@ == "invalid NEAR credential JSON"@
            } else if public_key->0@ != keys->0@.1 {
                message@ == "credential public_key does not match private_key"@
            } else {
                expected is Some && expected->0@ != account_id@ && message@
                    == "credential account_id does not match requested signer"@
            },
        },
{
    let id: AccountId = match AccountId::parse(account_id) {
        Some(id) => id,
        None => {
            return Err("invalid NEAR credential JSON".to_owned());
        },
    };
    let secret_key: SecretKey = match keys {
        Some(key) => key,
        None => {
            return Err("invalid NEAR credential JSON".to_owned());
        },
    };
    match public_key {
        Some(key) => {
            if !same_text(key.as_str(), secret_key.public_key()) {
                return Err("credential public_key does not match private_key".to_owned());
            }
        },
        None => {
            return Err("invalid NEAR credential JSON".to_owned());
        },
    }
    match expected {
        Some(wanted) => {
            if !wanted.same(&id) {
                return Err("credential account_id does not match requested signer".to_owned());
            }
        },
        None => {},
    }
    Ok(Credentials { account_id: id, secret_key })
}

/// The credentials in the file at `path`, if the file and what it says can be trusted.
pub fn load_credentials(path: &str, file: &FileState, expected: Option<&AccountId>) -> (r: Result<
    Credentials,
    String,
>)
    ensures
        same_credentials(r, loaded(path@, *file, opt_account_ref(expected))),
{
    match file {
        FileState::Missing => Err(join2("credential file not found: ", path)),
        FileState::Symlink => Err(join2("credential path must not be a symlink: ", path)),
        FileState::NotAFile => Err(join2("credential path is not a regular file: ", path)),
        FileState::Unreadable(mode) => match validate_private_file_mode(path, *mode, PRIVATE_MODE) {
            Err(message) => Err(message),
            Ok(()) => Err(join2("cannot read credential file ", path)),
        },
        FileState::Malformed(mode) => match validate_private_file_mode(path, *mode, PRIVATE_MODE) {
            Err(message) => Err(message),
            Ok(()) => Err("invalid NEAR credential JSON".to_owned()),
        },
        FileState::Read(mode, contents) => match validate_private_file_mode(
            path,
            *mode,
            PRIVATE_MODE,
        ) {
            Err(message) => Err(message),
            Ok(()) => {
                let keys: Option<SecretKey> = SecretKey::parse(contents.private_key.as_str());
                let public_key: Option<String> = normal_public_key(contents.public_key.as_str());
                check_credentials(contents.account_id.as_str(), keys, public_key, expected)
            },
        },
    }
}

/// Reads an account identifier, with a message that names what it was to be.
pub fn parse_account_id(value: &str, field: &str) -> (r: Result<AccountId, String>)
    ensures
        match r {
            Ok(id) => is_account_id(value@) && id@ == value@,
            Err(message) => !is_account_id(value@) && message@ == "invalid "@ + field@
                + " account ID: "@ + debug_text(value@),
        },
{
    match AccountId::parse(value) {
        Some(id) => Ok(id),
        None => {
            let mut message: String = join2("invalid ", field);
            message.append(" account ID: ");
            message.append(show_debug(value).as_str());
            Err(message)
        },
    }
}

/// The files of credentials among files of these names, in the order of the files.
pub open spec fn credential_names(names: Seq<Seq<char>>) -> Seq<Seq<char>>
    decreases names.len(),
{
    if names.len() == 0 {
        Seq::empty()
    } else if credential_account(names.last()) is Some {
        credential_names(names.drop_last()).push(names.last())
    } else {
        credential_names(names.drop_last())
    }
}

/// The files of credentials among the files of the directory `dir`, in order.
pub fn list_credentials(dir: &str, names: &Vec<String>) -> (r: Result<Vec<String>, String>)
    ensures
        match r {
            Ok(list) => in_order(texts(list@)) && list@.len() > 0 && texts(list@).to_multiset()
                == credential_names(texts(names@)).to_multiset(),
            Err(message) => credential_names(texts(names@)).len() == 0 && message@
                == "no JSON credentials found in "@ + dir@,
        },
{
    let mut found: Vec<String> = Vec::new();
    let ghost all = texts(names@);
    let mut i: usize = 0;
    proof {
        reveal_strlit(".json");
        assert(".json"@.len() == 5);
    }
    assert(texts(found@) =~= Seq::empty());
    assert(all.take(0) =~= Seq::empty());
    while i < names.len()
        invariant
            i <= names.len(),
            all == texts(names@),
            ".json"@.len() == 5,
            texts(found@) == credential_names(all.take(i as int)),
        decreases names.len() - i,
    {
        let name: &str = names[i].as_str();
        assert(all.take(i + 1).drop_last() =~= all.take(i as int));
        assert(all.take(i + 1).last() == name@);
        match strip_suffix(name, ".json") {
            Some(account) => {
                if !account.is_empty() {
                    let ghost before = texts(found@);
                    found.push(name.to_owned());
                    assert(texts(found@) =~= before.push(name@));
                }
            },
            None => {},
        }
        i += 1;
    }
    assert(all.take(i as int) =~= all);
    if found.len() == 0 {
        return Err(join2("no JSON credentials found in ", dir));
    }
    let list: Vec<String> = sort_texts(&found);
    proof {
        broadcast use vstd::seq_lib::group_to_multiset_ensures;

        assert(texts(list@).len() == texts(list@).to_multiset().len());
        assert(texts(found@).len() == texts(found@).to_multiset().len());
    }
    Ok(list)
}

/// The place in a list that an answer selects: the number, counted from one, or the first where
/// the answer is no number.
pub open spec fn selected_place(input: Seq<char>) -> nat {
    match bounded_number(trimmed(input), usize::MAX as nat) {
        Some(n) => if n == 0 {
            0
        } else {
            (n - 1) as nat
        },
        None => 0,
    }
}

/// The file of credentials that an answer selects.
pub fn selected_credentials(paths: &Vec<String>, input: &str) -> (r: Result<String, String>)
    ensures
        match r {
            Ok(path) => selected_place(input@) < paths@.len() && path@ == texts(
                paths@,
            )[selected_place(input@) as int],
            Err(message) => selected_place(input@) >= paths@.len() && message@
                == "invalid signer selection"@,
        },
{
    let number: usize = match parse_number(trim(input), usize::MAX as u128) {
        Some(n) => n as usize,
        None => 1,
    };
    let place: usize = if number == 0 {
        0
    } else {
        number - 1
    };
    if place < paths.len() {
        Ok(paths[place].clone())
    } else {
        Err("invalid signer selection".to_owned())
    }
}

/// Where the signer's credentials come from.
#[derive(Debug)]
pub enum SignerSource {
    /// From this file, for this account if one was named.
    File(String, Option<AccountId>),
    /// From one of the files of the network's directory, as the operator selects.
    Selection,
}

/// Where the signer's credentials come from: the operator selects them only where neither a file
/// nor an account was named. The directory counts only where no file was named.
pub fn select_signer(
    dir: &Result<String, String>,
    signer_id: Option<&str>,
    credentials: Option<&str>,
) -> (r: Result<SignerSource, String>)
    ensures
        match r {
            Ok(SignerSource::File(path, expected)) => {
                &&& opt_account(expected) == match signer_id {
                    Some(text) => Some(text@),
                    None => None,
                }
                &&& signer_id is Some ==> is_account_id(signer_id->0@)
                &&& match credentials {
                    Some(given) => path@ == given@,
                    None => *dir is Ok && signer_id is Some && path@ == credential_file_text(
                        dir->Ok_0@,
                        signer_id->0@,
                    ),
                }
            },
            Ok(SignerSource::Selection) => signer_id is None && credentials is None && *dir is Ok,
            Err(message) => if signer_id is Some && !is_account_id(signer_id->0@) {
                message@ == "invalid "@ + "signer"@ + " account ID: "@ + debug_text(
                    signer_id->0@,
                )
            } else {
                credentials is None && *dir is Err && message@ == dir->Err_0@
            },
        },
{
    let expected: Option<AccountId> = match signer_id {
        Some(text) => match parse_account_id(text, "signer") {
            Ok(id) => Some(id),
            Err(message) => {
                return Err(message);
            },
        },
        None => None,
    };
    match credentials {
        Some(path) => Ok(SignerSource::File(path.to_owned(), expected)),
        None => match dir {
            Err(fault) => Err(fault.clone()),
            Ok(dir) => match expected {
                Some(id) => {
                    let path: String = credential_file(dir.as_str(), &id);
                    Ok(SignerSource::File(path, Some(id)))
                },
                None => Ok(SignerSource::Selection),
            },
        },
    }
}

/// The contents of a file of credentials, for generated keys.
pub open spec fn credential_contents(c: CredentialsView) -> Seq<char> {
    "{\n  \"account_id\": "@ + quoted(c.account) + ",\n  \"private_key\": "@ + json_text(
        c.secret_key,
    ) + ",\n  \"public_key\": "@ + json_text(c.public_key) + "\n}"@
}

/// Whether these can be credentials: a valid account, and keys in their full form.
pub open spec fn sound_credentials(c: CredentialsView) -> bool {
    is_account_id(c.account) && full_form((c.secret_key, c.public_key))
}

/// What is written to the file of generated credentials.
pub fn persist_generated_credentials(credentials: &Credentials) -> (r: String)
    ensures
        r@ == credential_contents(credentials@),
        sound_credentials(credentials@),
{
    let mut r: String = "{\n  \"account_id\": ".to_owned();
    r.append(quote(credentials.account_id.as_str()).as_str());
    r.append(",\n  \"private_key\": ");
    r.append(json_string(credentials.secret_key.as_str()).as_str());
    r.append(",\n  \"public_key\": ");
    r.append(json_string(credentials.secret_key.public_key()).as_str());
    r.append("\n}");
    r
}

/// A private file that holds what was written for generated credentials gives the same credentials
/// back, for their own account.
pub proof fn law_generated_credentials_read_back(
    path: Seq<char>,
    c: CredentialsView,
    file: CredentialFile,
)
    requires
        sound_credentials(c),
        file.account_id@ == c.account,
        file.private_key@ == c.secret_key,
        file.public_key@ == c.public_key,
    ensures
        loaded(path, FileState::Read(PRIVATE_MODE, file), Some(c.account)) == Ok::<
            CredentialsView,
            Seq<char>,
        >(c),
        loaded(path, FileState::Read(PRIVATE_MODE, file), None) == Ok::<
            CredentialsView,
            Seq<char>,
        >(c),
{
}

/// Credentials are used only from a private regular file, and only if its keys belong together.
pub proof fn law_credentials_are_private_and_matching(
    path: Seq<char>,
    file: FileState,
    expected: Option<Seq<char>>,
)
    requires
        loaded(path, file, expected) is Ok,
    ensures
        file is Read,
        permissions(file->Read_0) == PRIVATE_MODE,
        ({
            let c = loaded(path, file, expected)->Ok_0;
            let contents = file->Read_1;
            &&& public_key_text(contents.public_key@) == Some(c.public_key)
            &&& secret_key_texts(contents.private_key@) == Some((c.secret_key, c.public_key))
            &&& expected is Some ==> c.account == expected->0
        }),
{
}

} // verus!
