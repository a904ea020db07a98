//! The tasks of a deployment, and how their results are judged.
use crate::account::AccountId;
use crate::arguments::{
    accept_args, accept_args_text, controller_args_text, propose_args, propose_args_text,
    token_args_text,
};
use crate::deploy_cli::amounts::{blob_deposit, release_deposit};
use crate::deploy_cli::config::{Config, ConfigView};
use crate::deploy_cli::deployment::{Role, Stage, Terms};
use crate::deploy_cli::report::{controller_init_args, token_init_args, token_terms};
use crate::digest::{hex_text, sha256_hex, sha256_of};
use crate::json::{json_field, push_field, quote, quoted};
use crate::text::{
    contains_text, copy_bytes, ends_with, has_substring, opt_text, strip_suffix, texts,
};
use vstd::prelude::*;

verus! {

/// What is to be done next in a deployment.
#[allow(inconsistent_fields)]
#[derive(Debug)]
pub enum Task {
    /// Look up whether the account exists.
    ViewAccount { account_id: AccountId },
    /// Read the account's credentials.
    LoadAccount { account_id: AccountId },
    /// Ask whether the account is to be created with so much, in yoctoNEAR.
    ConfirmCreate { account_id: AccountId, balance: u128 },
    /// Create the account, whose name starts with `prefix`, below the signer's.
    CreateAccount { account_id: AccountId, prefix: String, balance: u128 },
    /// Keep the credentials of a created account.
    StoreCredentials { account_id: AccountId },
    /// Deploy the contract of a role and initialize it with `new`.
    Deploy { account_id: AccountId, code: Role, init_args: String },
    /// Call a method as the signer, with a deposit in yoctoNEAR.
    Call { receiver_id: AccountId, method: String, args: String, deposit: u128, max_gas: bool },
    /// Call a method as the signer, with these bytes for its argument and all gas.
    Upload { receiver_id: AccountId, method: String, args: Vec<u8>, deposit: u128 },
    /// Read from a contract.
    View { receiver_id: AccountId, method: String, args: String },
    /// Delete an account; what it holds goes to the beneficiary.
    Delete { account_id: AccountId, beneficiary: AccountId },
    /// Nothing is left to do.
    Finish,
}

/// A [`Task`], as mathematical values.
#[allow(inconsistent_fields)]
pub ghost enum TaskView {
    ViewAccount { account_id: Seq<char> },
    LoadAccount { account_id: Seq<char> },
    ConfirmCreate { account_id: Seq<char>, balance: u128 },
    CreateAccount { account_id: Seq<char>, prefix: Seq<char>, balance: u128 },
    StoreCredentials { account_id: Seq<char> },
    Deploy { account_id: Seq<char>, code: Role, init_args: Seq<char> },
    Call { receiver_id: Seq<char>, method: Seq<char>, args: Seq<char>, deposit: u128, max_gas: bool },
    Upload { receiver_id: Seq<char>, method: Seq<char>, args: Seq<u8>, deposit: u128 },
    View { receiver_id: Seq<char>, method: Seq<char>, args: Seq<char> },
    Delete { account_id: Seq<char>, beneficiary: Seq<char> },
    Finish,
}

impl View for Task {
    type V = TaskView;

    open spec fn view(&self) -> TaskView {
        match *self {
            Task::ViewAccount { account_id } => TaskView::ViewAccount { account_id: account_id@ },
            Task::LoadAccount { account_id } => TaskView::LoadAccount { account_id: account_id@ },
            Task::ConfirmCreate { account_id, balance } => TaskView::ConfirmCreate {
                account_id: account_id@,
                balance,
            },
            Task::CreateAccount { account_id, prefix, balance } => TaskView::CreateAccount {
                account_id: account_id@,
                prefix: prefix@,
                balance,
            },
            Task::StoreCredentials { account_id } => TaskView::StoreCredentials {
                account_id: account_id@,
            },
            Task::Deploy { account_id, code, init_args } => TaskView::Deploy {
                account_id: account_id@,
                code,
                init_args: init_args@,
            },
            Task::Call { receiver_id, method, args, deposit, max_gas } => TaskView::Call {
                receiver_id: receiver_id@,
                method: method@,
                args: args@,
                deposit,
                max_gas,
            },
            Task::Upload { receiver_id, method, args, deposit } => TaskView::Upload {
                receiver_id: receiver_id@,
                method: method@,
                args: args@,
                deposit,
            },
            Task::View { receiver_id, method, args } => TaskView::View {
                receiver_id: receiver_id@,
                method: method@,
                args: args@,
            },
            Task::Delete { account_id, beneficiary } => TaskView::Delete {
                account_id: account_id@,
                beneficiary: beneficiary@,
            },
            Task::Finish => TaskView::Finish,
        }
    }
}

/// What came of a task.
#[derive(Debug)]
pub enum Reply {
    /// It is done.
    Done,
    /// The token's contract is deployed, with this code.
    Deployed(Vec<u8>),
    /// The task could not be tried, for this reason.
    Failed(String),
    /// The task was tried and came to nothing, for this reason.
    Rejected(String),
    /// A lookup failed, for these reasons, each the cause of the one before.
    Errors(Vec<String>),
    /// There are no credentials at this path.
    NoFile(String),
    /// The credentials, or the created account, are those of this account.
    Named(String),
    /// What the operator answered.
    Answer(bool),
    /// What a contract answered.
    Bytes(Vec<u8>),
}

/// The text by which a node says that an account does not exist.
pub open spec fn absence_text() -> Seq<char> {
    "does not exist while viewing"@
}

/// Whether a lookup failed because the account does not exist: one of its reasons says so. No other
/// failure counts as absence.
pub open spec fn says_absent(reasons: Seq<Seq<char>>) -> bool {
    exists|i: int| 0 <= i < reasons.len() && contains_text(#[trigger] reasons[i], absence_text())
}

/// Whether a lookup that failed for these reasons, each the cause of the one before, failed because
/// the account does not exist.
pub fn account_does_not_exist(reasons: &Vec<String>) -> (r: bool)
    ensures
        r == says_absent(texts(reasons@)),
{
    let mut i: usize = 0;
    while i < reasons.len()
        invariant
            i <= reasons.len(),
            forall|j: int|
                0 <= j < i ==> !contains_text(#[trigger] texts(reasons@)[j], absence_text()),
        decreases reasons.len() - i,
    {
        assert(texts(reasons@)[i as int] == reasons[i as int]@);
        if has_substring(reasons[i].as_str(), "does not exist while viewing") {
            return true;
        }
        i += 1;
    }
    false
}

/// The name that an account adds to the account above it; nothing where it does not lie directly
/// or indirectly below.
pub open spec fn prefix_below(id: Seq<char>, above: Seq<char>) -> Option<Seq<char>> {
    if ends_with(id, "."@ + above) && id.len() > above.len() + 1 {
        Some(id.take(id.len() - (above.len() + 1)))
    } else {
        None
    }
}

/// The name that an account adds to the signer's.
pub fn subaccount_prefix(id: &AccountId, signer: &AccountId) -> (r: Option<String>)
    ensures
        opt_text(r) == prefix_below(id@, signer@),
{
    proof {
        reveal_strlit(".");
        assert("."@.len() == 1);
    }
    let mut suffix: String = ".".to_owned();
    suffix.append(signer.as_str());
    match strip_suffix(id.as_str(), suffix.as_str()) {
        Some(prefix) => if prefix.is_empty() {
            None
        } else {
            Some(prefix.to_owned())
        },
        None => None,
    }
}

/// The account of a role.
pub open spec fn account_of(c: ConfigView, role: Role) -> Seq<char> {
    match role {
        Role::Controller => c.controller_id,
        Role::Token => c.token_id,
    }
}

fn account(config: &Config, role: Role) -> (r: AccountId)
    ensures
        r@ == account_of(config@, role),
{
    match role {
        Role::Controller => config.controller_id.copy(),
        Role::Token => config.token_id.copy(),
    }
}

/// The terms that a configuration sets.
pub open spec fn terms_of(c: ConfigView) -> Terms {
    Terms {
        dry_run: c.dry_run,
        test_mode: c.test_mode,
        controller_below: prefix_below(c.controller_id, c.signer_id) is Some,
        token_below: prefix_below(c.token_id, c.signer_id) is Some,
    }
}

/// The record of a release.
pub open spec fn release_args_text(hash: Seq<char>) -> Seq<char> {
    "{\"description\":\"cNEAR\",\"downgrade_hash\":null,"@ + json_field("hash"@, quoted(hash))
        + ",\"is_latest\":true,\"version\":\"1.0.0\"}"@
}

/// The record of the token's deployment.
pub open spec fn deployment_args_text(token: Seq<char>, hash: Seq<char>) -> Seq<char> {
    "{"@ + json_field("contract_id"@, quoted(token))
        + ",\"deployment_info\":{\"deployment_time\":0,"@ + json_field("hash"@, quoted(hash))
        + ",\"init_args\":\"\",\"upgrade_times\":{},\"version\":\"1.0.0\"}}"@
}

/// The question for the record of the token's deployment.
pub open spec fn deployment_query_text(token: Seq<char>) -> Seq<char> {
    "{"@ + json_field("account_id"@, quoted(token)) + "}"@
}

/// The hash by which the registry knows code: its SHA-256 hash in hexadecimal.
pub open spec fn release_hash(code: Seq<u8>) -> Seq<char> {
    hex_text(sha256_of(code))
}

/// The task of a stage, where `code` is the token's code that was deployed.
pub open spec fn task_of(c: ConfigView, code: Seq<u8>, stage: Stage) -> TaskView {
    match stage {
        Stage::Viewing(role) => TaskView::ViewAccount { account_id: account_of(c, role) },
        Stage::Loading(role) => TaskView::LoadAccount { account_id: account_of(c, role) },
        Stage::Confirming(role) => TaskView::ConfirmCreate {
            account_id: account_of(c, role),
            balance: c.initial_balance,
        },
        Stage::Creating(role) => TaskView::CreateAccount {
            account_id: account_of(c, role),
            prefix: match prefix_below(account_of(c, role), c.signer_id) {
                Some(prefix) => prefix,
                None => Seq::empty(),
            },
            balance: c.initial_balance,
        },
        Stage::Storing(role) => TaskView::StoreCredentials { account_id: account_of(c, role) },
        Stage::Deploying(Role::Controller) => TaskView::Deploy {
            account_id: c.controller_id,
            code: Role::Controller,
            init_args: controller_args_text(c.signer_id),
        },
        Stage::Deploying(Role::Token) => TaskView::Deploy {
            account_id: c.token_id,
            code: Role::Token,
            init_args: token_args_text(token_terms(c)),
        },
        Stage::Proposing => TaskView::Call {
            receiver_id: c.token_id,
            method: "owner_set"@,
            args: propose_args_text(c.controller_id),
            deposit: 0,
            max_gas: false,
        },
        Stage::Accepting => TaskView::Call {
            receiver_id: c.controller_id,
            method: "delegate_execution"@,
            args: accept_args_text(c.token_id),
            deposit: 1,
            max_gas: true,
        },
        Stage::AddingRelease => TaskView::Call {
            receiver_id: c.controller_id,
            method: "add_release_info"@,
            args: release_args_text(release_hash(code)),
            deposit: 1,
            max_gas: true,
        },
        Stage::UploadingRelease => TaskView::Upload {
            receiver_id: c.controller_id,
            method: "add_release_blob"@,
            args: code,
            deposit: release_deposit(code.len()) as u128,
        },
        Stage::AddingDeployment => TaskView::Call {
            receiver_id: c.controller_id,
            method: "add_deployment_info"@,
            args: deployment_args_text(c.token_id, release_hash(code)),
            deposit: 1,
            max_gas: true,
        },
        Stage::ReadingDeployment => TaskView::View {
            receiver_id: c.controller_id,
            method: "get_deployment"@,
            args: deployment_query_text(c.token_id),
        },
        Stage::ReadingOwner => TaskView::View {
            receiver_id: c.token_id,
            method: "owner_get"@,
            args: Seq::empty(),
        },
        Stage::Deleting(role) => TaskView::Delete {
            account_id: account_of(c, role),
            beneficiary: c.signer_id,
        },
        Stage::Done => TaskView::Finish,
    }
}

fn release_args(hash: &str) -> (r: String)
    ensures
        r@ == release_args_text(hash@),
{
    let mut r: String = "{\"description\":\"cNEAR\",\"downgrade_hash\":null,".to_owned();
    push_field(&mut r, "hash", quote(hash).as_str());
    r.append(",\"is_latest\":true,\"version\":\"1.0.0\"}");
    r
}

fn deployment_args(token: &str, hash: &str) -> (r: String)
    ensures
        r@ == deployment_args_text(token@, hash@),
{
    let mut r: String = "{".to_owned();
    push_field(&mut r, "contract_id", quote(token).as_str());
    r.append(",\"deployment_info\":{\"deployment_time\":0,");
    push_field(&mut r, "hash", quote(hash).as_str());
    r.append(",\"init_args\":\"\",\"upgrade_times\":{},\"version\":\"1.0.0\"}}");
    r
}

fn deployment_query(token: &str) -> (r: String)
    ensures
        r@ == deployment_query_text(token@),
{
    let mut r: String = "{".to_owned();
    push_field(&mut r, "account_id", quote(token).as_str());
    r.append("}");
    r
}

/// The task of a stage.
pub fn task(config: &Config, code: &Vec<u8>, stage: Stage) -> (r: Task)
    ensures
        r@ == task_of(config@, code@, stage),
{
    match stage {
        Stage::Viewing(role) => Task::ViewAccount { account_id: account(config, role) },
        Stage::Loading(role) => Task::LoadAccount { account_id: account(config, role) },
        Stage::Confirming(role) => Task::ConfirmCreate {
            account_id: account(config, role),
            balance: config.initial_balance,
        },
        Stage::Creating(role) => {
            let account_id: AccountId = account(config, role);
            let prefix: String = match subaccount_prefix(&account_id, &config.signer_id) {
                Some(prefix) => prefix,
                None => String::new(),
            };
            Task::CreateAccount { account_id, prefix, balance: config.initial_balance }
        },
        Stage::Storing(role) => Task::StoreCredentials { account_id: account(config, role) },
        Stage::Deploying(Role::Controller) => Task::Deploy {
            account_id: config.controller_id.copy(),
            code: Role::Controller,
            init_args: controller_init_args(config),
        },
        Stage::Deploying(Role::Token) => Task::Deploy {
            account_id: config.token_id.copy(),
            code: Role::Token,
            init_args: token_init_args(config),
        },
        Stage::Proposing => Task::Call {
            receiver_id: config.token_id.copy(),
            method: "owner_set".to_owned(),
            args: propose_args(config.controller_id.as_str()),
            deposit: 0,
            max_gas: false,
        },
        Stage::Accepting => Task::Call {
            receiver_id: config.controller_id.copy(),
            method: "delegate_execution".to_owned(),
            args: accept_args(config.token_id.as_str()),
            deposit: 1,
            max_gas: true,
        },
        Stage::AddingRelease => Task::Call {
            receiver_id: config.controller_id.copy(),
            method: "add_release_info".to_owned(),
            args: release_args(sha256_hex(code).as_str()),
            deposit: 1,
            max_gas: true,
        },
        Stage::UploadingRelease => Task::Upload {
            receiver_id: config.controller_id.copy(),
            method: "add_release_blob".to_owned(),
            args: copy_bytes(code),
            deposit: blob_deposit(code.len() as u64),
        },
        Stage::AddingDeployment => Task::Call {
            receiver_id: config.controller_id.copy(),
            method: "add_deployment_info".to_owned(),
            args: deployment_args(config.token_id.as_str(), sha256_hex(code).as_str()),
            deposit: 1,
            max_gas: true,
        },
        Stage::ReadingDeployment => Task::View {
            receiver_id: config.controller_id.copy(),
            method: "get_deployment".to_owned(),
            args: deployment_query(config.token_id.as_str()),
        },
        Stage::ReadingOwner => Task::View {
            receiver_id: config.token_id.copy(),
            method: "owner_get".to_owned(),
            args: String::new(),
        },
        Stage::Deleting(role) => Task::Delete {
            account_id: account(config, role),
            beneficiary: config.signer_id.copy(),
        },
        Stage::Done => Task::Finish,
    }
}

} // verus!
