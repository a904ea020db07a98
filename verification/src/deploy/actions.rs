//! The course of a deployment over JSON-RPC: what is checked before it, which transactions it
//! sends, and what is cleaned up after it.
use crate::account::AccountId;
use crate::arguments::{
    accept_args, accept_args_text, controller_args, controller_args_text, propose_args,
    propose_args_text, token_args, token_args_text, TokenTerms,
};
use crate::contract::initial_state;
use crate::contract_laws::step;
use crate::deploy::cli::Network;
use crate::deploy::config::DeploymentConfig;
use crate::deploy::credentials::Credentials;
use crate::deploy::rpc::{full_access, is_zero_hash, AccessKeyView, AccountView};
use crate::deploy::transaction::{
    action_views, call_action, call_view, deploy_actions, Action, ActionView,
};
use crate::metadata::MetadataView;
use crate::model::{called_by, Call, Op, State};
use crate::text::{copy_bytes, join2, opt_text, same_text, trim, trimmed};
use vstd::prelude::*;

verus! {

/// Whether a deployment must be confirmed.
pub open spec fn must_confirm(network: Network, yes: bool, dry_run: bool) -> bool {
    network == Network::Mainnet && !yes && !dry_run
}

/// Whether the operator must confirm a deployment: on mainnet, unless it was confirmed by a flag or
/// nothing is sent.
pub fn needs_confirmation(network: Network, yes: bool, dry_run: bool) -> (r: bool)
    ensures
        r == must_confirm(network, yes, dry_run),
{
    match network {
        Network::Mainnet => !yes && !dry_run,
        Network::Testnet => false,
    }
}

/// Whether the operator confirmed a deployment on mainnet.
pub fn confirm_mainnet(input: &str) -> (r: Result<(), String>)
    ensures
        refusal_of(r) == confirmation_fault(input@),
{
    if same_text(trim(input), "mainnet") {
        Ok(())
    } else {
        Err("mainnet deployment not confirmed".to_owned())
    }
}

/// Whether it is to be asked if an account has state: where it exists and has no code.
pub fn asks_for_state(state: &Option<AccountView>) -> (r: bool)
    ensures
        r == (*state is Some && is_zero_hash(state->0.code_hash@)),
{
    match state {
        Some(view) => view.code_hash.is_zero(),
        None => false,
    }
}

/// What an account is refused for: state without code, or code that is not to be replaced.
pub open spec fn preflight_fault(
    id: Seq<char>,
    code_hash: Option<Seq<u8>>,
    has_state: bool,
    redeploy: bool,
) -> Option<Seq<char>> {
    match code_hash {
        None => None,
        Some(hash) => if is_zero_hash(hash) && has_state {
            Some(
                "account "@ + id
                    + " already contains contract state; refusing automatic redeploy"@,
            )
        } else if !is_zero_hash(hash) && !redeploy {
            Some(
                "account "@ + id + " already has deployed code; use --redeploy explicitly"@,
            )
        } else {
            None
        },
    }
}

/// The hash of an account's code, if the account exists.
pub open spec fn code_hash_of(state: Option<AccountView>) -> Option<Seq<u8>> {
    match state {
        Some(view) => Some(view.code_hash@),
        None => None,
    }
}

/// Whether a contract may be deployed on an account; `has_state` counts only where it is asked for.
pub fn preflight(
    account_id: &AccountId,
    state: &Option<AccountView>,
    has_state: bool,
    redeploy: bool,
) -> (r: Result<(), String>)
    ensures
        match r {
            Ok(()) => preflight_fault(account_id@, code_hash_of(*state), has_state, redeploy)
                is None,
            Err(message) => preflight_fault(
                account_id@,
                code_hash_of(*state),
                has_state,
                redeploy,
            ) == Some(message@),
        },
{
    let zero: bool = match state {
        Some(view) => view.code_hash.is_zero(),
        None => {
            return Ok(());
        },
    };
    if zero && has_state {
        let mut message: String = join2("account ", account_id.as_str());
        message.append(" already contains contract state; refusing automatic redeploy");
        return Err(message);
    }
    if !zero && !redeploy {
        let mut message: String = join2("account ", account_id.as_str());
        message.append(" already has deployed code; use --redeploy explicitly");
        return Err(message);
    }
    Ok(())
}

/// An account that is ready for a contract.
pub struct AccountHandle {
    pub credentials: Credentials,
    /// It was created by this deployment.
    pub created: bool,
    /// Its contract is new and must be initialized.
    pub needs_initialization: bool,
    /// The file of its generated credentials.
    pub credential_path: Option<String>,
}

/// What an account that exists is refused for. The signer's key and the account's own must be there
/// and be full access keys, and the account's credentials must be at hand.
pub open spec fn existing_fault(
    id: Seq<char>,
    signer_key: Result<AccessKeyView, String>,
    credentials: Result<Credentials, String>,
    account_key: Result<AccessKeyView, String>,
) -> Option<Seq<char>> {
    if signer_key is Err {
        Some("signer access key is unavailable at the preflight snapshot"@)
    } else if !(signer_key->Ok_0.permission is FullAccess) {
        Some("signer access key is not full access at the preflight snapshot"@)
    } else if credentials is Err {
        Some(
            "existing account "@ + id
                + " requires a matching 0600 full-access credential file"@,
        )
    } else if account_key is Err {
        Some("credential for existing account "@ + id + " is not an active key"@)
    } else if !(account_key->Ok_0.permission is FullAccess) {
        Some("credential for existing account "@ + id + " is not full access"@)
    } else {
        None
    }
}

/// Takes an account that exists, with what was found of it and its keys.
pub fn ensure_account(
    account_id: &AccountId,
    state: &AccountView,
    signer_key: &Result<AccessKeyView, String>,
    credentials: Result<Credentials, String>,
    account_key: &Result<AccessKeyView, String>,
) -> (r: Result<AccountHandle, String>)
    ensures
        match r {
            Ok(handle) => existing_fault(account_id@, *signer_key, credentials, *account_key)
                is None && handle.credentials@ == credentials->Ok_0@ && !handle.created
                && handle.needs_initialization == is_zero_hash(state.code_hash@)
                && handle.credential_path is None,
            Err(message) => existing_fault(account_id@, *signer_key, credentials, *account_key)
                == Some(message@),
        },
{
    match signer_key {
        Err(_) => {
            return Err("signer access key is unavailable at the preflight snapshot".to_owned());
        },
        Ok(key) => {
            if !full_access(&key.permission) {
                return Err(
                    "signer access key is not full access at the preflight snapshot".to_owned(),
                );
            }
        },
    }
    let credentials: Credentials = match credentials {
        Ok(c) => c,
        Err(_) => {
            let mut message: String = join2("existing account ", account_id.as_str());
            message.append(" requires a matching 0600 full-access credential file");
            return Err(message);
        },
    };
    match account_key {
        Err(_) => {
            let mut message: String = join2(
                "credential for existing account ",
                account_id.as_str(),
            );
            message.append(" is not an active key");
            return Err(message);
        },
        Ok(key) => {
            if !full_access(&key.permission) {
                let mut message: String = join2(
                    "credential for existing account ",
                    account_id.as_str(),
                );
                message.append(" is not full access");
                return Err(message);
            }
        },
    }
    Ok(
        AccountHandle {
            credentials,
            created: false,
            needs_initialization: state.code_hash.is_zero(),
            credential_path: None,
        },
    )
}

/// An account that this deployment created, with its generated credentials.
pub fn created_account(credentials: Credentials, path: String) -> (r: AccountHandle)
    ensures
        r.credentials@ == credentials@,
        r.created,
        r.needs_initialization,
        opt_text(r.credential_path) == Some(path@),
{
    AccountHandle {
        credentials,
        created: true,
        needs_initialization: true,
        credential_path: Some(path),
    }
}

/// Who signs a transaction of a deployment.
#[derive(Clone, Copy, PartialEq, Eq, Structural, Debug)]
pub enum SignerRole {
    Controller,
    Token,
    Signer,
}

/// A transaction of a deployment.
#[derive(Debug)]
pub struct PlannedTransaction {
    pub signer: SignerRole,
    pub receiver: AccountId,
    pub actions: Vec<Action>,
}

/// A [`PlannedTransaction`], as mathematical values.
pub ghost struct PlannedView {
    pub signer: SignerRole,
    pub receiver: Seq<char>,
    pub actions: Seq<ActionView>,
}

impl View for PlannedTransaction {
    type V = PlannedView;

    open spec fn view(&self) -> PlannedView {
        PlannedView {
            signer: self.signer,
            receiver: self.receiver@,
            actions: action_views(self.actions@),
        }
    }
}

/// The views of a plan.
pub open spec fn plan_views(plan: Seq<PlannedTransaction>) -> Seq<PlannedView> {
    plan.map_values(|p: PlannedTransaction| p@)
}

/// What a configuration has the token initialized with: the signer owns it and holds the supply.
pub open spec fn token_terms(c: DeploymentConfig) -> TokenTerms {
    TokenTerms {
        name: c.token_name@,
        symbol: c.token_symbol@,
        decimals: c.token_decimals,
        owner: c.signer@.account,
        supply: c.total_supply,
        price: c.initial_price,
    }
}

/// Code, and its initialization where it is new.
pub open spec fn deployment_views(code: Seq<u8>, init: Option<Seq<char>>) -> Seq<ActionView> {
    match init {
        Some(args) => seq![ActionView::DeployContract(code), call_view("new"@, args, 0)],
        None => seq![ActionView::DeployContract(code)],
    }
}

/// The transactions of a deployment, in order: the controller's code, the token's code, and, for a
/// token that is new, the offer of the token to the controller and its acceptance, which the
/// signer has the controller make.
pub open spec fn plan_of(c: DeploymentConfig, new_controller: bool, new_token: bool) -> Seq<
    PlannedView,
> {
    let code = seq![
        PlannedView {
            signer: SignerRole::Controller,
            receiver: c.controller_id@,
            actions: deployment_views(
                c.controller_wasm.bytes@,
                if new_controller {
                    Some(controller_args_text(c.signer@.account))
                } else {
                    None
                },
            ),
        },
        PlannedView {
            signer: SignerRole::Token,
            receiver: c.token_id@,
            actions: deployment_views(
                c.token_wasm.bytes@,
                if new_token {
                    Some(token_args_text(token_terms(c)))
                } else {
                    None
                },
            ),
        },
    ];
    if new_token {
        code.push(
            PlannedView {
                signer: SignerRole::Signer,
                receiver: c.token_id@,
                actions: seq![call_view("owner_set"@, propose_args_text(c.controller_id@), 0)],
            },
        ).push(
            PlannedView {
                signer: SignerRole::Signer,
                receiver: c.controller_id@,
                actions: seq![call_view("delegate_execution"@, accept_args_text(c.token_id@), 1)],
            },
        )
    } else {
        code
    }
}

fn code_actions(code: &Vec<u8>, init: Option<String>) -> (r: Vec<Action>)
    ensures
        action_views(r@) == deployment_views(code@, opt_text(init)),
{
    let bytes: Vec<u8> = copy_bytes(code);
    match init {
        Some(args) => deploy_actions(bytes, Some("new"), args),
        None => deploy_actions(bytes, None, String::new()),
    }
}

/// One call by the signer.
fn call_plan(receiver: &AccountId, call: Action) -> (r: PlannedTransaction)
    ensures
        r@ == (PlannedView {
            signer: SignerRole::Signer,
            receiver: receiver@,
            actions: seq![call@],
        }),
{
    let mut actions: Vec<Action> = Vec::new();
    actions.push(call);
    assert(action_views(actions@) =~= seq![call@]);
    PlannedTransaction { signer: SignerRole::Signer, receiver: receiver.copy(), actions }
}

/// The transactions of a deployment, in order. After them the token's owner is verified.
pub fn deploy_contracts(config: &DeploymentConfig, new_controller: bool, new_token: bool) -> (r: Vec<
    PlannedTransaction,
>)
    ensures
        plan_views(r@) == plan_of(*config, new_controller, new_token),
{
    let mut plan: Vec<PlannedTransaction> = Vec::new();
    let controller_args: Option<String> = if new_controller {
        Some(controller_args(config.signer.account_id.as_str()))
    } else {
        None
    };
    plan.push(
        PlannedTransaction {
            signer: SignerRole::Controller,
            receiver: config.controller_id.copy(),
            actions: code_actions(&config.controller_wasm.bytes, controller_args),
        },
    );
    let token_args: Option<String> = if new_token {
        Some(
            token_args(
                config.token_name.as_str(),
                config.token_symbol.as_str(),
                config.token_decimals,
                config.signer.account_id.as_str(),
                config.total_supply,
                config.initial_price,
            ),
        )
    } else {
        None
    };
    plan.push(
        PlannedTransaction {
            signer: SignerRole::Token,
            receiver: config.token_id.copy(),
            actions: code_actions(&config.token_wasm.bytes, token_args),
        },
    );
    if new_token {
        plan.push(
            call_plan(
                &config.token_id,
                call_action("owner_set", propose_args(config.controller_id.as_str()), 0),
            ),
        );
        plan.push(
            call_plan(
                &config.controller_id,
                call_action("delegate_execution", accept_args(config.token_id.as_str()), 1),
            ),
        );
    }
    assert(plan_views(plan@) =~= plan_of(*config, new_controller, new_token));
    plan
}

/// Where a deployment stands: the step whose result it waits for.
#[derive(Clone, Copy, PartialEq, Eq, Structural, Debug)]
pub enum Phase {
    /// The operator is asked to confirm a deployment on mainnet.
    Confirming,
    /// The last final block is looked up, by which everything is checked.
    ReadingBlock,
    /// The signer's key is looked up.
    ReadingKey,
    ViewingController,
    ViewingToken,
    /// Whether a contract may be deployed on the controller's account is checked.
    CheckingController,
    /// Whether a contract may be deployed on the token's account is checked.
    CheckingToken,
    PreparingController,
    PreparingToken,
    /// The contracts are deployed and the owner is verified.
    Deploying,
    /// The token's account, created by this deployment, is deleted.
    DeletingToken,
    /// The controller's account, created by this deployment, is deleted.
    DeletingController,
    Done,
}

/// What came of a step.
#[derive(Clone, Copy, PartialEq, Eq, Structural, Debug)]
pub enum StepResult {
    /// It is done. An account that was prepared existed before.
    Done,
    /// The account that was prepared was created.
    Created,
    Failed,
    /// It failed, and the fate of a transaction is not known.
    Unresolved,
}

/// How far a deployment has come.
#[derive(Clone, Copy, PartialEq, Eq, Structural, Debug)]
pub struct Course {
    pub phase: Phase,
    /// Nothing is sent after the checks.
    pub dry_run: bool,
    pub test_mode: bool,
    pub created_controller: bool,
    pub created_token: bool,
    /// The deployment failed.
    pub failed: bool,
    /// A deletion failed.
    pub cleanup_failed: bool,
    /// The fate of a transaction is not known.
    pub unresolved: bool,
}

/// How a deployment starts: with its checks, the first of which is the operator's word where that
/// must be given.
pub open spec fn course_start(network: Network, yes: bool, dry_run: bool, test_mode: bool) -> Course {
    Course {
        phase: if must_confirm(network, yes, dry_run) {
            Phase::Confirming
        } else {
            Phase::ReadingBlock
        },
        dry_run,
        test_mode,
        created_controller: false,
        created_token: false,
        failed: false,
        cleanup_failed: false,
        unresolved: false,
    }
}

/// Whether a phase checks, and sends nothing.
pub open spec fn checks(phase: Phase) -> bool {
    match phase {
        Phase::Confirming | Phase::ReadingBlock | Phase::ReadingKey | Phase::ViewingController
        | Phase::ViewingToken | Phase::CheckingController | Phase::CheckingToken => true,
        _ => false,
    }
}

/// Whether a phase sends transactions.
pub open spec fn sends(phase: Phase) -> bool {
    !checks(phase) && phase != Phase::Done
}

/// The phase after a check that came out well: a dry run ends with the last.
pub open spec fn after_check(phase: Phase, dry_run: bool) -> Phase {
    match phase {
        Phase::Confirming => Phase::ReadingBlock,
        Phase::ReadingBlock => Phase::ReadingKey,
        Phase::ReadingKey => Phase::ViewingController,
        Phase::ViewingController => Phase::ViewingToken,
        Phase::ViewingToken => Phase::CheckingController,
        Phase::CheckingController => Phase::CheckingToken,
        _ => if dry_run {
            Phase::Done
        } else {
            Phase::PreparingController
        },
    }
}

/// Goes on to delete what was created, in test mode; the token's account before the controller's.
pub open spec fn course_cleanup(c: Course) -> Course {
    Course {
        phase: if !c.test_mode {
            Phase::Done
        } else if c.created_token {
            Phase::DeletingToken
        } else if c.created_controller {
            Phase::DeletingController
        } else {
            Phase::Done
        },
        ..c
    }
}

/// After a failure: nothing more is sent where the fate of a transaction is not known.
pub open spec fn course_failed(c: Course, result: StepResult) -> Course {
    if result == StepResult::Unresolved {
        Course { phase: Phase::Done, failed: true, unresolved: true, ..c }
    } else {
        course_cleanup(Course { failed: true, ..c })
    }
}

/// Whether a step came out well.
pub open spec fn went_well(result: StepResult) -> bool {
    result == StepResult::Done || result == StepResult::Created
}

/// How a deployment goes on from what came of its step.
pub open spec fn course_after(c: Course, result: StepResult) -> Course {
    match c.phase {
        Phase::Confirming | Phase::ReadingBlock | Phase::ReadingKey | Phase::ViewingController
        | Phase::ViewingToken | Phase::CheckingController | Phase::CheckingToken => if went_well(
            result,
        ) {
            Course { phase: after_check(c.phase, c.dry_run), ..c }
        } else {
            Course {
                phase: Phase::Done,
                failed: true,
                unresolved: c.unresolved || result == StepResult::Unresolved,
                ..c
            }
        },
        Phase::PreparingController => if went_well(result) {
            Course {
                phase: Phase::PreparingToken,
                created_controller: result == StepResult::Created,
                ..c
            }
        } else {
            course_failed(c, result)
        },
        Phase::PreparingToken => if went_well(result) {
            Course {
                phase: Phase::Deploying,
                created_token: result == StepResult::Created,
                ..c
            }
        } else {
            course_failed(c, result)
        },
        Phase::Deploying => if went_well(result) {
            course_cleanup(c)
        } else {
            course_failed(c, result)
        },
        Phase::DeletingToken => {
            let d = Course { cleanup_failed: c.cleanup_failed || !went_well(result), ..c };
            if result == StepResult::Unresolved {
                Course { phase: Phase::Done, unresolved: true, ..d }
            } else {
                Course {
                    phase: if c.created_controller {
                        Phase::DeletingController
                    } else {
                        Phase::Done
                    },
                    ..d
                }
            }
        },
        Phase::DeletingController => Course {
            phase: Phase::Done,
            cleanup_failed: c.cleanup_failed || !went_well(result),
            unresolved: c.unresolved || result == StepResult::Unresolved,
            ..c
        },
        Phase::Done => c,
    }
}

fn to_cleanup(c: Course) -> (r: Course)
    ensures
        r == course_cleanup(c),
{
    let phase: Phase = if !c.test_mode {
        Phase::Done
    } else if c.created_token {
        Phase::DeletingToken
    } else if c.created_controller {
        Phase::DeletingController
    } else {
        Phase::Done
    };
    Course { phase, ..c }
}

fn to_failed(c: Course, result: StepResult) -> (r: Course)
    ensures
        r == course_failed(c, result),
{
    match result {
        StepResult::Unresolved => Course {
            phase: Phase::Done,
            failed: true,
            unresolved: true,
            ..c
        },
        _ => to_cleanup(Course { failed: true, ..c }),
    }
}

fn is_well(result: StepResult) -> (r: bool)
    ensures
        r == went_well(result),
{
    match result {
        StepResult::Done => true,
        StepResult::Created => true,
        _ => false,
    }
}

fn is_created(result: StepResult) -> (r: bool)
    ensures
        r == (result == StepResult::Created),
{
    match result {
        StepResult::Created => true,
        _ => false,
    }
}

fn is_unresolved(result: StepResult) -> (r: bool)
    ensures
        r == (result == StepResult::Unresolved),
{
    match result {
        StepResult::Unresolved => true,
        _ => false,
    }
}

fn to_after_check(phase: Phase, dry_run: bool) -> (r: Phase)
    ensures
        r == after_check(phase, dry_run),
{
    match phase {
        Phase::Confirming => Phase::ReadingBlock,
        Phase::ReadingBlock => Phase::ReadingKey,
        Phase::ReadingKey => Phase::ViewingController,
        Phase::ViewingController => Phase::ViewingToken,
        Phase::ViewingToken => Phase::CheckingController,
        Phase::CheckingController => Phase::CheckingToken,
        _ => if dry_run {
            Phase::Done
        } else {
            Phase::PreparingController
        },
    }
}

/// How a deployment starts.
pub fn begin(network: Network, yes: bool, dry_run: bool, test_mode: bool) -> (r: Course)
    ensures
        r == course_start(network, yes, dry_run, test_mode),
{
    Course {
        phase: if needs_confirmation(network, yes, dry_run) {
            Phase::Confirming
        } else {
            Phase::ReadingBlock
        },
        dry_run,
        test_mode,
        created_controller: false,
        created_token: false,
        failed: false,
        cleanup_failed: false,
        unresolved: false,
    }
}

/// What came of a check: it failed where it was refused.
pub open spec fn check_result(fault: Option<Seq<char>>) -> StepResult {
    if fault is None {
        StepResult::Done
    } else {
        StepResult::Failed
    }
}

/// What a confirmation is refused for.
pub open spec fn confirmation_fault(input: Seq<char>) -> Option<Seq<char>> {
    if trimmed(input) == "mainnet"@ {
        None
    } else {
        Some("mainnet deployment not confirmed"@)
    }
}

/// What a refusal says, if it is one.
pub open spec fn refusal_of(r: Result<(), String>) -> Option<Seq<char>> {
    match r {
        Ok(()) => None,
        Err(message) => Some(message@),
    }
}

fn to_check_result(checked: &Result<(), String>) -> (r: StepResult)
    ensures
        r == check_result(refusal_of(*checked)),
{
    match checked {
        Ok(()) => StepResult::Done,
        Err(_) => StepResult::Failed,
    }
}

/// Goes on from what the operator typed to confirm a deployment on mainnet.
pub fn confirm(c: Course, input: &str) -> (r: (Course, Result<(), String>))
    ensures
        refusal_of(r.1) == confirmation_fault(input@),
        r.0 == course_after(c, check_result(confirmation_fault(input@))),
{
    let checked: Result<(), String> = confirm_mainnet(input);
    (deploy(c, to_check_result(&checked)), checked)
}

/// Goes on from what was found of an account, on which a contract is to be deployed.
pub fn check_account(
    c: Course,
    account_id: &AccountId,
    state: &Option<AccountView>,
    has_state: bool,
    redeploy: bool,
) -> (r: (Course, Result<(), String>))
    ensures
        refusal_of(r.1) == preflight_fault(
            account_id@,
            code_hash_of(*state),
            has_state,
            redeploy,
        ),
        r.0 == course_after(
            c,
            check_result(
                preflight_fault(account_id@, code_hash_of(*state), has_state, redeploy),
            ),
        ),
{
    let checked: Result<(), String> = preflight(account_id, state, has_state, redeploy);
    (deploy(c, to_check_result(&checked)), checked)
}

/// How a deployment goes on from what came of its step.
pub fn deploy(c: Course, result: StepResult) -> (r: Course)
    ensures
        r == course_after(c, result),
{
    let well: bool = is_well(result);
    match c.phase {
        Phase::Confirming | Phase::ReadingBlock | Phase::ReadingKey | Phase::ViewingController
        | Phase::ViewingToken | Phase::CheckingController | Phase::CheckingToken => if well {
            Course { phase: to_after_check(c.phase, c.dry_run), ..c }
        } else {
            Course {
                phase: Phase::Done,
                failed: true,
                unresolved: c.unresolved || is_unresolved(result),
                ..c
            }
        },
        Phase::PreparingController => if well {
            Course {
                phase: Phase::PreparingToken,
                created_controller: is_created(result),
                ..c
            }
        } else {
            to_failed(c, result)
        },
        Phase::PreparingToken => if well {
            Course { phase: Phase::Deploying, created_token: is_created(result), ..c }
        } else {
            to_failed(c, result)
        },
        Phase::Deploying => if well {
            to_cleanup(c)
        } else {
            to_failed(c, result)
        },
        Phase::DeletingToken => {
            let d = Course { cleanup_failed: c.cleanup_failed || !well, ..c };
            if is_unresolved(result) {
                Course { phase: Phase::Done, unresolved: true, ..d }
            } else {
                Course {
                    phase: if c.created_controller {
                        Phase::DeletingController
                    } else {
                        Phase::Done
                    },
                    ..d
                }
            }
        },
        Phase::DeletingController => Course {
            phase: Phase::Done,
            cleanup_failed: c.cleanup_failed || !well,
            unresolved: c.unresolved || is_unresolved(result),
            ..c
        },
        Phase::Done => c,
    }
}

/// What a deployment that is done says: the failure, with a note that the cleanup failed where it
/// did too; the failure of the cleanup; or nothing, where it succeeded.
pub open spec fn ending(failure: Option<Seq<char>>, cleanup_failure: Option<Seq<char>>) -> Option<
    Seq<char>,
> {
    match failure {
        Some(f) => match cleanup_failure {
            Some(_) => Some(
                "cleanup also failed: one or more cleanup transactions failed: "@ + f,
            ),
            None => Some(f),
        },
        None => match cleanup_failure {
            Some(c) => Some("one or more cleanup transactions failed: "@ + c),
            None => None,
        },
    }
}

/// What a deployment that is done says, given its first failure and the first of its cleanup.
pub fn conclude(failure: Option<String>, cleanup_failure: Option<String>) -> (r: Result<(), String>)
    ensures
        match r {
            Ok(()) => ending(opt_text(failure), opt_text(cleanup_failure)) is None,
            Err(message) => ending(opt_text(failure), opt_text(cleanup_failure)) == Some(message@),
        },
{
    match failure {
        Some(f) => match cleanup_failure {
            Some(_) => Err(
                join2(
                    "cleanup also failed: one or more cleanup transactions failed: ",
                    f.as_str(),
                ),
            ),
            None => Err(f),
        },
        None => match cleanup_failure {
            Some(c) => Err(join2("one or more cleanup transactions failed: ", c.as_str())),
            None => Ok(()),
        },
    }
}

/// The account of a role.
pub open spec fn role_account(c: DeploymentConfig, role: SignerRole) -> Seq<char> {
    match role {
        SignerRole::Controller => c.controller_id@,
        SignerRole::Token => c.token_id@,
        SignerRole::Signer => c.signer@.account,
    }
}

/// What a planned transaction calls on the token, and as whom: the offer as its signer, and, where
/// the signer, which governs the controller, has it accept, the acceptance as the controller.
pub open spec fn token_call(c: DeploymentConfig, p: PlannedView) -> Option<(Call, Op)> {
    if p.receiver == c.token_id@ && p.actions == seq![
        call_view("owner_set"@, propose_args_text(c.controller_id@), 0),
    ] {
        Some(
            (
                called_by(role_account(c, p.signer)),
                Op::ProposeOwner { account: c.controller_id@ },
            ),
        )
    } else if p.receiver == c.controller_id@ && role_account(c, p.signer) == c.signer@.account
        && p.actions == seq![
        call_view("delegate_execution"@, accept_args_text(c.token_id@), 1),
    ] {
        Some((called_by(c.controller_id@), Op::AcceptOwner))
    } else {
        None
    }
}

/// The token's state after the transactions of a plan.
pub open spec fn token_through(c: DeploymentConfig, s: State, plan: Seq<PlannedView>) -> State
    decreases plan.len(),
{
    if plan.len() == 0 {
        s
    } else {
        let before = token_through(c, s, plan.drop_last());
        match token_call(c, plan.last()) {
            Some((call, op)) => step(before, call, op),
            None => before,
        }
    }
}

/// The state in which a token's initialization leaves it.
pub open spec fn token_initialized(
    c: DeploymentConfig,
    balances: Map<Seq<char>, u128>,
    account_bytes: u64,
    frozen: Set<Seq<char>>,
) -> State {
    let t = token_terms(c);
    initial_state(
        balances,
        account_bytes,
        frozen,
        t.owner,
        t.supply,
        MetadataView {
            spec: "ft-1.0.0"@,
            name: t.name,
            symbol: t.symbol,
            icon: None,
            reference: None,
            reference_hash: None,
            decimals: t.decimals,
        },
        t.price,
    )
}

/// After the whole plan for a new token, the controller owns it: the signer, as which the token is
/// initialized, offers it, and the controller accepts. Nothing else of the token changes.
pub proof fn law_a_new_token_ends_with_the_controller(
    c: DeploymentConfig,
    new_controller: bool,
    balances: Map<Seq<char>, u128>,
    account_bytes: u64,
    frozen: Set<Seq<char>>,
)
    ensures
        ({
            let s = token_initialized(c, balances, account_bytes, frozen);
            let t = token_through(c, s, plan_of(c, new_controller, true));
            &&& t.owner == c.controller_id@
            &&& t.pending is None
            &&& t == (State { owner: c.controller_id@, ..s })
        }),
{
    let s = token_initialized(c, balances, account_bytes, frozen);
    let plan = plan_of(c, new_controller, true);
    lemma_code_calls_nothing(c, s, new_controller, true);
    let code = plan.drop_last().drop_last();
    assert(code =~= plan_of(c, new_controller, true).take(2));
    reveal_strlit("owner_set");
    reveal_strlit("delegate_execution");
    assert("owner_set"@.len() == 9 && "delegate_execution"@.len() == 18);
    let accept = plan.last();
    assert(accept.actions[0] == call_view("delegate_execution"@, accept_args_text(c.token_id@), 1));
    assert(seq![call_view("owner_set"@, propose_args_text(c.controller_id@), 0)][0]
        != accept.actions[0]);
    assert(token_call(c, accept) == Some((called_by(c.controller_id@), Op::AcceptOwner)));
    let offered = token_through(c, s, plan.drop_last());
    assert(token_call(c, plan.drop_last().last()) == Some(
        (called_by(c.signer@.account), Op::ProposeOwner { account: c.controller_id@ }),
    ));
    assert(offered == (State { pending: Some(c.controller_id@), ..s }));
}

/// Where the token is not new, the plan leaves it as it is, and so its owner.
pub proof fn law_a_known_token_keeps_its_owner(c: DeploymentConfig, new_controller: bool, s: State)
    ensures
        token_through(c, s, plan_of(c, new_controller, false)) == s,
{
    lemma_code_calls_nothing(c, s, new_controller, false);
    assert(plan_of(c, new_controller, false).take(2) =~= plan_of(c, new_controller, false));
}

proof fn lemma_code_calls_nothing(
    c: DeploymentConfig,
    s: State,
    new_controller: bool,
    new_token: bool,
)
    ensures
        token_through(c, s, plan_of(c, new_controller, new_token).take(2)) == s,
{
    let code = plan_of(c, new_controller, new_token).take(2);
    assert forall|i: int| 0 <= i < 2 implies token_call(c, #[trigger] code[i]) is None by {
        assert(code[i].actions[0] is DeployContract);
        assert(seq![call_view("owner_set"@, propose_args_text(c.controller_id@), 0)][0]
            != code[i].actions[0]);
        assert(seq![call_view("delegate_execution"@, accept_args_text(c.token_id@), 1)][0]
            != code[i].actions[0]);
    }
    assert(code.last() == code[1]);
    assert(code.drop_last().last() == code[0]);
    reveal_with_fuel(token_through, 3);
}

/// The code that a list of actions deploys, in order.
pub open spec fn codes_in(actions: Seq<ActionView>) -> Seq<Seq<u8>>
    decreases actions.len(),
{
    if actions.len() == 0 {
        Seq::empty()
    } else {
        match actions.last() {
            ActionView::DeployContract(code) => codes_in(actions.drop_last()).push(code),
            _ => codes_in(actions.drop_last()),
        }
    }
}

/// The arguments of the calls of a method in a list of actions, in order.
pub open spec fn calls_in(actions: Seq<ActionView>, method: Seq<char>) -> Seq<Seq<char>>
    decreases actions.len(),
{
    if actions.len() == 0 {
        Seq::empty()
    } else {
        match actions.last() {
            ActionView::FunctionCall { method_name, args, .. } => if method_name == method {
                calls_in(actions.drop_last(), method).push(args)
            } else {
                calls_in(actions.drop_last(), method)
            },
            _ => calls_in(actions.drop_last(), method),
        }
    }
}

/// The code that a plan deploys on an account, in order.
pub open spec fn codes_on(plan: Seq<PlannedView>, id: Seq<char>) -> Seq<Seq<u8>>
    decreases plan.len(),
{
    if plan.len() == 0 {
        Seq::empty()
    } else if plan.last().receiver == id {
        codes_on(plan.drop_last(), id) + codes_in(plan.last().actions)
    } else {
        codes_on(plan.drop_last(), id)
    }
}

/// The arguments with which a plan calls a method of an account, in order.
pub open spec fn calls_on(plan: Seq<PlannedView>, id: Seq<char>, method: Seq<char>) -> Seq<Seq<char>>
    decreases plan.len(),
{
    if plan.len() == 0 {
        Seq::empty()
    } else if plan.last().receiver == id {
        calls_on(plan.drop_last(), id, method) + calls_in(plan.last().actions, method)
    } else {
        calls_on(plan.drop_last(), id, method)
    }
}

proof fn lemma_actions_of_code(code: Seq<u8>, init: Option<Seq<char>>)
    ensures
        codes_in(deployment_views(code, init)) == seq![code],
        calls_in(deployment_views(code, init), "new"@) == match init {
            Some(args) => seq![args],
            None => Seq::empty(),
        },
{
    let actions = deployment_views(code, init);
    reveal_with_fuel(codes_in, 3);
    reveal_with_fuel(calls_in, 3);
    match init {
        Some(args) => {
            assert(actions.drop_last() =~= seq![ActionView::DeployContract(code)]);
            assert(actions.drop_last().drop_last() =~= Seq::empty());
            assert(codes_in(actions) =~= seq![code]);
            assert(calls_in(actions, "new"@) =~= seq![args]);
        },
        None => {
            assert(actions.drop_last() =~= Seq::empty());
            assert(codes_in(actions) =~= seq![code]);
        },
    }
}

proof fn lemma_actions_of_call(method: Seq<char>, args: Seq<char>, deposit: u128)
    requires
        method != "new"@,
    ensures
        codes_in(seq![call_view(method, args, deposit)]) == Seq::<Seq<u8>>::empty(),
        calls_in(seq![call_view(method, args, deposit)], "new"@) == Seq::<Seq<char>>::empty(),
{
    let actions = seq![call_view(method, args, deposit)];
    reveal_with_fuel(codes_in, 2);
    reveal_with_fuel(calls_in, 2);
    assert(actions.drop_last() =~= Seq::empty());
}

/// The token's account gets the token's code and the controller's account the controller's, each
/// once, signed by the account itself, and no other account gets any. A contract that is new is
/// initialized once: the controller for the signer, and the token with the signer as its owner and
/// with the name, symbol, decimals, supply and price that were configured. One that is not new is
/// not initialized again.
pub proof fn law_each_account_gets_its_own_code(
    c: DeploymentConfig,
    new_controller: bool,
    new_token: bool,
    other: Seq<char>,
    i: int,
)
    requires
        c.controller_id@ != c.token_id@,
        other != c.controller_id@,
        other != c.token_id@,
        0 <= i < plan_of(c, new_controller, new_token).len(),
    ensures
        ({
            let plan = plan_of(c, new_controller, new_token);
            &&& codes_on(plan, c.token_id@) == seq![c.token_wasm.bytes@]
            &&& codes_on(plan, c.controller_id@) == seq![c.controller_wasm.bytes@]
            &&& codes_on(plan, other) == Seq::<Seq<u8>>::empty()
            &&& codes_in(plan[i].actions).len() > 0 ==> role_account(c, plan[i].signer)
                == plan[i].receiver
            &&& calls_on(plan, c.controller_id@, "new"@) == if new_controller {
                seq![controller_args_text(c.signer@.account)]
            } else {
                Seq::empty()
            }
            &&& calls_on(plan, c.token_id@, "new"@) == if new_token {
                seq![
                    token_args_text(
                        TokenTerms {
                            name: c.token_name@,
                            symbol: c.token_symbol@,
                            decimals: c.token_decimals,
                            owner: c.signer@.account,
                            supply: c.total_supply,
                            price: c.initial_price,
                        },
                    ),
                ]
            } else {
                Seq::empty()
            }
            &&& calls_on(plan, other, "new"@) == Seq::<Seq<char>>::empty()
        }),
{
    let plan = plan_of(c, new_controller, new_token);
    let controller_init = if new_controller {
        Some(controller_args_text(c.signer@.account))
    } else {
        None
    };
    let token_init = if new_token {
        Some(token_args_text(token_terms(c)))
    } else {
        None
    };
    lemma_actions_of_code(c.controller_wasm.bytes@, controller_init);
    lemma_actions_of_code(c.token_wasm.bytes@, token_init);
    reveal_strlit("new");
    reveal_strlit("owner_set");
    reveal_strlit("delegate_execution");
    assert("new"@.len() == 3 && "owner_set"@.len() == 9 && "delegate_execution"@.len() == 18);
    lemma_actions_of_call("owner_set"@, propose_args_text(c.controller_id@), 0);
    lemma_actions_of_call("delegate_execution"@, accept_args_text(c.token_id@), 1);
    assert(plan[0].actions == deployment_views(c.controller_wasm.bytes@, controller_init));
    assert(plan[1].actions == deployment_views(c.token_wasm.bytes@, token_init));
    let two = plan.take(2);
    let one = plan.take(1);
    assert(two.drop_last() =~= one);
    assert(one.drop_last() =~= Seq::empty());
    assert(two.last() == plan[1] && one.last() == plan[0]);
    if new_token {
        let three = plan.take(3);
        assert(plan.drop_last() =~= three);
        assert(three.drop_last() =~= two);
        assert(plan.last() == plan[3] && three.last() == plan[2]);
        lemma_on_grows(plan, c.token_id@);
        lemma_on_grows(plan, c.controller_id@);
        lemma_on_grows(plan, other);
        lemma_on_grows(three, c.token_id@);
        lemma_on_grows(three, c.controller_id@);
        lemma_on_grows(three, other);
    } else {
        assert(two =~= plan);
    }
    lemma_on_grows(two, c.token_id@);
    lemma_on_grows(two, c.controller_id@);
    lemma_on_grows(two, other);
    lemma_on_grows(one, c.token_id@);
    lemma_on_grows(one, c.controller_id@);
    lemma_on_grows(one, other);
    assert(codes_on(plan, c.token_id@) =~= seq![c.token_wasm.bytes@]);
    assert(codes_on(plan, c.controller_id@) =~= seq![c.controller_wasm.bytes@]);
}

proof fn lemma_on_grows(plan: Seq<PlannedView>, id: Seq<char>)
    requires
        plan.len() > 0,
    ensures
        plan.last().receiver == id ==> codes_on(plan, id) == codes_on(plan.drop_last(), id)
            + codes_in(plan.last().actions) && calls_on(plan, id, "new"@) == calls_on(
            plan.drop_last(),
            id,
            "new"@,
        ) + calls_in(plan.last().actions, "new"@),
        plan.last().receiver != id ==> codes_on(plan, id) == codes_on(plan.drop_last(), id)
            && calls_on(plan, id, "new"@) == calls_on(plan.drop_last(), id, "new"@),
        plan.len() == 1 ==> codes_on(plan.drop_last(), id) == Seq::<Seq<u8>>::empty() && calls_on(
            plan.drop_last(),
            id,
            "new"@,
        ) == Seq::<Seq<char>>::empty(),
{
}

/// A dry run makes the same checks and sends nothing, whatever comes of them.
pub proof fn law_a_dry_run_sends_nothing(
    network: Network,
    yes: bool,
    test_mode: bool,
    results: Seq<StepResult>,
)
    ensures
        !sends(course_through(course_start(network, yes, true, test_mode), results).phase),
        course_through(course_start(network, yes, true, test_mode), results).dry_run,
    decreases results.len(),
{
    if results.len() > 0 {
        law_a_dry_run_sends_nothing(network, yes, test_mode, results.drop_last());
    }
}

/// A check that is refused ends the deployment as a failure.
pub proof fn law_a_refused_check_ends_the_course(c: Course, result: StepResult)
    requires
        checks(c.phase),
        !went_well(result),
    ensures
        course_after(c, result).phase == Phase::Done,
        course_after(c, result).failed,
{
}

/// The place of a check among all checks.
pub open spec fn check_place(phase: Phase) -> int {
    match phase {
        Phase::Confirming => 0,
        Phase::ReadingBlock => 1,
        Phase::ReadingKey => 2,
        Phase::ViewingController => 3,
        Phase::ViewingToken => 4,
        Phase::CheckingController => 5,
        _ => 6,
    }
}

/// How many checks a deployment makes.
pub open spec fn checks_made(network: Network, yes: bool, dry_run: bool) -> int {
    if must_confirm(network, yes, dry_run) {
        7
    } else {
        6
    }
}

/// Nothing is sent, and no account is created, before every check came out well: the operator's word
/// where it must be given, the lookups, and the checks of both accounts, in this order.
pub proof fn law_nothing_is_sent_before_every_check(
    network: Network,
    yes: bool,
    dry_run: bool,
    test_mode: bool,
    results: Seq<StepResult>,
)
    requires
        sends(course_through(course_start(network, yes, dry_run, test_mode), results).phase),
    ensures
        !dry_run,
        results.len() >= checks_made(network, yes, dry_run),
        forall|i: int|
            0 <= i < checks_made(network, yes, dry_run) ==> went_well(#[trigger] results[i]),
{
    lemma_checked(network, yes, dry_run, test_mode, results);
}

proof fn lemma_checked(
    network: Network,
    yes: bool,
    dry_run: bool,
    test_mode: bool,
    results: Seq<StepResult>,
)
    ensures
        ({
            let c = course_through(course_start(network, yes, dry_run, test_mode), results);
            let made = checks_made(network, yes, dry_run);
            &&& c.dry_run == dry_run
            &&& checks(c.phase) ==> {
                &&& results.len() == check_place(c.phase) - (7 - made)
                &&& forall|i: int| 0 <= i < results.len() ==> went_well(#[trigger] results[i])
            }
            &&& sends(c.phase) ==> {
                &&& !dry_run
                &&& results.len() >= made
                &&& forall|i: int| 0 <= i < made ==> went_well(#[trigger] results[i])
            }
        }),
    decreases results.len(),
{
    if results.len() > 0 {
        let before = results.drop_last();
        lemma_checked(network, yes, dry_run, test_mode, before);
        assert(forall|i: int| 0 <= i < before.len() ==> before[i] == results[i]);
        let c = course_through(course_start(network, yes, dry_run, test_mode), before);
        let made = checks_made(network, yes, dry_run);
        let d = course_after(c, results.last());
        if checks(c.phase) && !(d.phase is Done) {
            assert forall|i: int| 0 <= i < results.len() implies went_well(
                #[trigger] results[i],
            ) by {
                if i < before.len() {
                    assert(went_well(before[i]));
                }
            }
        } else if sends(c.phase) {
            assert forall|i: int| 0 <= i < made implies went_well(#[trigger] results[i]) by {
                assert(went_well(before[i]));
            }
        }
    }
}

/// Once the fate of a transaction is not known, nothing more is sent.
pub proof fn law_nothing_is_sent_after_an_unresolved_transaction(c: Course, result: StepResult)
    requires
        result == StepResult::Unresolved,
    ensures
        course_after(c, result).phase == Phase::Done,
        c.phase != Phase::Done ==> course_after(c, result).unresolved,
        course_after(course_after(c, result), result) == course_after(c, result),
{
}

/// Accounts are deleted only in test mode, and only those that this deployment created.
pub proof fn law_only_created_test_accounts_are_deleted(c: Course, result: StepResult)
    requires
        c.phase != Phase::DeletingToken && c.phase != Phase::DeletingController,
    ensures
        course_after(c, result).phase == Phase::DeletingToken ==> c.test_mode && c.created_token,
        course_after(c, result).phase == Phase::DeletingController ==> c.test_mode
            && c.created_controller && !c.created_token,
{
}

/// The token's account is deleted before the controller's.
pub proof fn law_the_token_goes_before_the_controller(c: Course, result: StepResult)
    requires
        c.phase == Phase::Deploying,
        c.test_mode,
        c.created_token,
        result != StepResult::Unresolved,
    ensures
        course_after(c, result).phase == Phase::DeletingToken,
        c.created_controller ==> course_after(
            course_after(c, result),
            StepResult::Done,
        ).phase == Phase::DeletingController,
{
}

/// The whole of a deployment, for the results of its steps.
pub open spec fn course_through(c: Course, results: Seq<StepResult>) -> Course
    decreases results.len(),
{
    if results.len() == 0 {
        c
    } else {
        course_after(course_through(c, results.drop_last()), results.last())
    }
}

/// A deployment ends after at most twelve steps, of which up to seven are checks.
pub proof fn law_a_course_ends(
    network: Network,
    yes: bool,
    dry_run: bool,
    test_mode: bool,
    results: Seq<StepResult>,
)
    requires
        results.len() >= 12,
    ensures
        course_through(course_start(network, yes, dry_run, test_mode), results).phase
            == Phase::Done,
{
    lemma_course_left(course_start(network, yes, dry_run, test_mode), results);
}

/// The most steps that are left.
pub open spec fn steps_left(phase: Phase) -> nat {
    match phase {
        Phase::Confirming => 12,
        Phase::ReadingBlock => 11,
        Phase::ReadingKey => 10,
        Phase::ViewingController => 9,
        Phase::ViewingToken => 8,
        Phase::CheckingController => 7,
        Phase::CheckingToken => 6,
        Phase::PreparingController => 5,
        Phase::PreparingToken => 4,
        Phase::Deploying => 3,
        Phase::DeletingToken => 2,
        Phase::DeletingController => 1,
        Phase::Done => 0,
    }
}

proof fn lemma_course_left(c: Course, results: Seq<StepResult>)
    ensures
        steps_left(course_through(c, results).phase) + results.len() <= steps_left(c.phase)
            || course_through(c, results).phase == Phase::Done,
    decreases results.len(),
{
    if results.len() > 0 {
        lemma_course_left(c, results.drop_last());
    }
}

/// A deployment whose contracts failed, or whose accounts were not all there, does not end well.
pub proof fn law_a_failed_course_stays_failed(c: Course, results: Seq<StepResult>)
    requires
        c.failed,
        c.phase == Phase::DeletingToken || c.phase == Phase::DeletingController || c.phase
            == Phase::Done,
    ensures
        course_through(c, results).failed,
    decreases results.len(),
{
    if results.len() > 0 {
        lemma_failed_phase(c, results.drop_last());
        law_a_failed_course_stays_failed(c, results.drop_last());
    }
}

proof fn lemma_failed_phase(c: Course, results: Seq<StepResult>)
    requires
        c.phase == Phase::DeletingToken || c.phase == Phase::DeletingController || c.phase
            == Phase::Done,
    ensures
        course_through(c, results).phase == Phase::DeletingToken || course_through(
            c,
            results,
        ).phase == Phase::DeletingController || course_through(c, results).phase == Phase::Done,
    decreases results.len(),
{
    if results.len() > 0 {
        lemma_failed_phase(c, results.drop_last());
    }
}

} // verus!
