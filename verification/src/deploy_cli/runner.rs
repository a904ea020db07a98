//! A deployment that runs: each reply is judged, and gives the next task.
use crate::account::AccountId;
use crate::deploy_cli::amounts::release_deposit;
use crate::deploy_cli::config::{Config, ConfigView};
use crate::deploy_cli::deployment::{
    advance, begin, proceed, start, succeeded, untouched, Progress, Role, Stage, Terms, Verdict,
};
use crate::deploy_cli::tasks::{
    account_does_not_exist, account_of, deployment_args_text, release_args_text, release_hash,
    says_absent, subaccount_prefix, task, task_of, terms_of, Reply, Task, TaskView,
};
use crate::digest::sha256_hex;
use crate::json::{json_member, json_string_value, member_text, string_text};
use crate::text::{copy_bytes, debug_text, join2, opt_text, same_text, show_debug, texts};
use vstd::prelude::*;

verus! {

/// What an answer of the registry is refused for: it records another hash, or none.
pub open spec fn recorded_hash_fault(recorded: Option<Seq<char>>, hash: Seq<char>) -> Option<
    Seq<char>,
> {
    if recorded == Some(hash) {
        None
    } else {
        Some(
            "deployment registration failed: controller recorded hash "@ + match recorded {
                Some(h) => "Some("@ + debug_text(h) + ")"@,
                None => "None"@,
            } + ", expected "@ + hash,
        )
    }
}

/// Whether the registry recorded the hash of the token's code.
pub fn check_recorded_hash(recorded: &Option<String>, hash: &str) -> (r: Result<(), String>)
    ensures
        match r {
            Ok(()) => recorded_hash_fault(opt_text(*recorded), hash@) is None,
            Err(message) => recorded_hash_fault(opt_text(*recorded), hash@) == Some(message@),
        },
{
    let found: String = match recorded {
        Some(h) => {
            if same_text(h.as_str(), hash) {
                return Ok(());
            }
            let mut shown: String = join2("Some(", show_debug(h.as_str()).as_str());
            shown.append(")");
            shown
        },
        None => "None".to_owned(),
    };
    let mut message: String =
        "deployment registration failed: controller recorded hash ".to_owned();
    message.append(found.as_str());
    message.append(", expected ");
    message.append(hash);
    Err(message)
}

/// What an owner is refused for: it is not the one that was expected.
pub open spec fn owner_fault(owner: Seq<char>, expected: Seq<char>) -> Option<Seq<char>> {
    if owner == expected {
        None
    } else {
        Some("ownership verification failed: expected "@ + expected + ", got "@ + owner)
    }
}

/// Whether the token's owner is the one that was expected.
pub fn check_owner(owner: &str, expected: &AccountId) -> (r: Result<(), String>)
    ensures
        match r {
            Ok(()) => owner_fault(owner@, expected@) is None,
            Err(message) => owner_fault(owner@, expected@) == Some(message@),
        },
{
    if expected.is(owner) {
        return Ok(());
    }
    let mut message: String = "ownership verification failed: expected ".to_owned();
    message.append(expected.as_str());
    message.append(", got ");
    message.append(owner);
    Err(message)
}

/// What the token's answer to the question for its owner is refused for.
pub open spec fn owner_reply_fault(reply: Seq<u8>, expected: Seq<char>) -> Option<Seq<char>> {
    match string_text(reply) {
        None => Some("could not parse the token's owner"@),
        Some(owner) => owner_fault(owner, expected),
    }
}

/// Reads the token's answer to the question for its owner, and fails unless it is `expected`.
pub fn verify_ownership(reply: &Vec<u8>, expected: &AccountId) -> (r: Result<(), String>)
    ensures
        match r {
            Ok(()) => owner_reply_fault(reply@, expected@) is None,
            Err(message) => owner_reply_fault(reply@, expected@) == Some(message@),
        },
{
    match json_string_value(reply) {
        None => Err("could not parse the token's owner".to_owned()),
        Some(owner) => check_owner(owner.as_str(), expected),
    }
}

/// What the registry's answer to the question for the token's deployment is refused for.
pub open spec fn registry_reply_fault(reply: Seq<u8>, hash: Seq<char>) -> Option<Seq<char>> {
    match member_text(reply, "hash"@) {
        Err(fault) => Some(fault),
        Ok(recorded) => recorded_hash_fault(recorded, hash),
    }
}

/// Reads the registry's answer to the question for the token's deployment, and fails unless it
/// records `hash`.
pub fn verify_registration(reply: &Vec<u8>, hash: &str) -> (r: Result<(), String>)
    ensures
        match r {
            Ok(()) => registry_reply_fault(reply@, hash@) is None,
            Err(message) => registry_reply_fault(reply@, hash@) == Some(message@),
        },
{
    match json_member(reply, "hash") {
        Err(fault) => Err(fault),
        Ok(recorded) => check_recorded_hash(&recorded, hash),
    }
}

/// What is said before the reason why a task came to nothing.
pub open spec fn context_of(stage: Stage) -> Seq<char> {
    match stage {
        Stage::Creating(_) => "account creation failed: "@,
        Stage::Deploying(_) => "contract deployment or initialization failed: "@,
        Stage::Proposing => "proposing the controller as token owner failed: "@,
        Stage::Accepting => "controller failed to accept token ownership: "@,
        Stage::AddingRelease => "registering the release with the controller failed: "@,
        Stage::UploadingRelease => "uploading the release blob to the controller failed: "@,
        Stage::AddingDeployment => "registering the deployment with the controller failed: "@,
        Stage::ReadingOwner => "could not read the token's owner: "@,
        _ => ""@,
    }
}

fn context(stage: Stage) -> (r: &'static str)
    ensures
        r@ == context_of(stage),
{
    match stage {
        Stage::Creating(_) => "account creation failed: ",
        Stage::Deploying(_) => "contract deployment or initialization failed: ",
        Stage::Proposing => "proposing the controller as token owner failed: ",
        Stage::Accepting => "controller failed to accept token ownership: ",
        Stage::AddingRelease => "registering the release with the controller failed: ",
        Stage::UploadingRelease => "uploading the release blob to the controller failed: ",
        Stage::AddingDeployment => "registering the deployment with the controller failed: ",
        Stage::ReadingOwner => "could not read the token's owner: ",
        _ => "",
    }
}

/// The last words on a reply that does not answer its task.
pub open spec fn mismatch_text() -> Seq<char> {
    "the reply does not belong to the task"@
}

/// How a reply is judged: well (`Good`), as an account that is missing (`Absent`), or as a failure
/// with its message. `code` is the token's code that was deployed.
pub open spec fn judgement(c: ConfigView, code: Seq<u8>, stage: Stage, reply: Reply) -> Result<
    Verdict,
    Seq<char>,
> {
    match reply {
        Reply::Failed(reason) => if stage == Stage::ReadingOwner {
            Err(context_of(stage) + reason@)
        } else {
            Err(reason@)
        },
        Reply::Rejected(reason) => Err(context_of(stage) + reason@),
        Reply::Done => match stage {
            Stage::Viewing(_) | Stage::Storing(_) | Stage::Deploying(Role::Controller)
            | Stage::Proposing | Stage::Accepting | Stage::AddingRelease
            | Stage::UploadingRelease | Stage::AddingDeployment | Stage::Deleting(_) => Ok(
                Verdict::Good,
            ),
            _ => Err(mismatch_text()),
        },
        Reply::Deployed(_) => if stage == Stage::Deploying(Role::Token) {
            Ok(Verdict::Good)
        } else {
            Err(mismatch_text())
        },
        Reply::Errors(reasons) => match stage {
            Stage::Viewing(role) => if says_absent(texts(reasons@)) {
                Ok(Verdict::Absent)
            } else {
                Err("failed to check account "@ + account_of(c, role))
            },
            _ => Err(mismatch_text()),
        },
        Reply::NoFile(path) => match stage {
            Stage::Loading(role) => Err(
                "account "@ + account_of(c, role) + " exists but credentials are missing at "@
                    + path@,
            ),
            _ => Err(mismatch_text()),
        },
        Reply::Named(id) => match stage {
            Stage::Loading(role) => if id@ == account_of(c, role) {
                Ok(Verdict::Good)
            } else {
                Err("credentials for "@ + account_of(c, role) + " belong to "@ + id@)
            },
            Stage::Creating(role) => if id@ == account_of(c, role) {
                Ok(Verdict::Good)
            } else {
                Err("created unexpected account "@ + id@ + " instead of "@ + account_of(c, role))
            },
            _ => Err(mismatch_text()),
        },
        Reply::Answer(yes) => match stage {
            Stage::Confirming(role) => if yes {
                Ok(Verdict::Good)
            } else {
                Err(
                    "account "@ + account_of(c, role)
                        + " does not exist and was not created; aborting"@,
                )
            },
            _ => Err(mismatch_text()),
        },
        Reply::Bytes(bytes) => match stage {
            Stage::ReadingDeployment => match registry_reply_fault(bytes@, release_hash(code)) {
                None => Ok(Verdict::Good),
                Some(message) => Err(message),
            },
            Stage::ReadingOwner => match owner_reply_fault(bytes@, c.controller_id) {
                None => Ok(Verdict::Good),
                Some(message) => Err(message),
            },
            _ => Err(mismatch_text()),
        },
    }
}

fn role_account(config: &Config, role: Role) -> (r: &str)
    ensures
        r@ == account_of(config@, role),
{
    match role {
        Role::Controller => config.controller_id.as_str(),
        Role::Token => config.token_id.as_str(),
    }
}

fn mismatch() -> (r: Result<Verdict, String>)
    ensures
        r is Err,
        r->Err_0@ == mismatch_text(),
{
    Err("the reply does not belong to the task".to_owned())
}

/// Whether `r` says what `spec` says.
pub open spec fn same_judgement(r: Result<Verdict, String>, spec: Result<Verdict, Seq<char>>) -> bool {
    match r {
        Ok(v) => spec == Ok::<Verdict, Seq<char>>(v),
        Err(message) => spec == Err::<Verdict, Seq<char>>(message@),
    }
}

/// Judges a reply.
pub fn judge(config: &Config, code: &Vec<u8>, stage: Stage, reply: &Reply) -> (r: Result<
    Verdict,
    String,
>)
    ensures
        same_judgement(r, judgement(config@, code@, stage, *reply)),
{
    match reply {
        Reply::Failed(reason) => match stage {
            Stage::ReadingOwner => Err(join2(context(stage), reason.as_str())),
            _ => Err(reason.clone()),
        },
        Reply::Rejected(reason) => Err(join2(context(stage), reason.as_str())),
        Reply::Done => match stage {
            Stage::Viewing(_) | Stage::Storing(_) | Stage::Deploying(Role::Controller)
            | Stage::Proposing | Stage::Accepting | Stage::AddingRelease
            | Stage::UploadingRelease | Stage::AddingDeployment | Stage::Deleting(_) => Ok(
                Verdict::Good,
            ),
            _ => mismatch(),
        },
        Reply::Deployed(_) => match stage {
            Stage::Deploying(Role::Token) => Ok(Verdict::Good),
            _ => mismatch(),
        },
        Reply::Errors(reasons) => match stage {
            Stage::Viewing(role) => if account_does_not_exist(reasons) {
                Ok(Verdict::Absent)
            } else {
                Err(join2("failed to check account ", role_account(config, role)))
            },
            _ => mismatch(),
        },
        Reply::NoFile(path) => match stage {
            Stage::Loading(role) => {
                let mut message: String = join2("account ", role_account(config, role));
                message.append(" exists but credentials are missing at ");
                message.append(path.as_str());
                Err(message)
            },
            _ => mismatch(),
        },
        Reply::Named(id) => match stage {
            Stage::Loading(role) => if same_text(id.as_str(), role_account(config, role)) {
                Ok(Verdict::Good)
            } else {
                let mut message: String = join2("credentials for ", role_account(config, role));
                message.append(" belong to ");
                message.append(id.as_str());
                Err(message)
            },
            Stage::Creating(role) => if same_text(id.as_str(), role_account(config, role)) {
                Ok(Verdict::Good)
            } else {
                let mut message: String = join2("created unexpected account ", id.as_str());
                message.append(" instead of ");
                message.append(role_account(config, role));
                Err(message)
            },
            _ => mismatch(),
        },
        Reply::Answer(yes) => match stage {
            Stage::Confirming(role) => if *yes {
                Ok(Verdict::Good)
            } else {
                let mut message: String = join2("account ", role_account(config, role));
                message.append(" does not exist and was not created; aborting");
                Err(message)
            },
            _ => mismatch(),
        },
        Reply::Bytes(bytes) => match stage {
            Stage::ReadingDeployment => match verify_registration(bytes, sha256_hex(code).as_str()) {
                Ok(()) => Ok(Verdict::Good),
                Err(message) => Err(message),
            },
            Stage::ReadingOwner => match verify_ownership(bytes, &config.controller_id) {
                Ok(()) => Ok(Verdict::Good),
                Err(message) => Err(message),
            },
            _ => mismatch(),
        },
    }
}

/// The verdict of a judgement.
pub open spec fn verdict_of(j: Result<Verdict, Seq<char>>) -> Verdict {
    match j {
        Ok(v) => v,
        Err(_) => Verdict::Bad,
    }
}

/// The account that could not be created after a stage that came out well.
pub open spec fn unplaced(stage: Stage) -> Role {
    match stage {
        Stage::Confirming(role) => role,
        _ => Role::Token,
    }
}

/// What is said of an account that the signer cannot create.
pub open spec fn not_below_text(c: ConfigView, role: Role) -> Seq<char> {
    "account "@ + account_of(c, role) + " must be a subaccount of "@ + c.signer_id
}

/// A running deployment.
pub struct Deployment {
    config: Config,
    terms: Terms,
    progress: Progress,
    /// The token's code, once it is deployed.
    code: Vec<u8>,
    /// What failed first.
    message: Option<String>,
}

/// A [`Deployment`], as mathematical values.
pub ghost struct DeploymentView {
    pub config: ConfigView,
    pub progress: Progress,
    pub code: Seq<u8>,
    pub message: Option<Seq<char>>,
}

impl View for Deployment {
    type V = DeploymentView;

    closed spec fn view(&self) -> DeploymentView {
        DeploymentView {
            config: self.config@,
            progress: self.progress,
            code: self.code@,
            message: opt_text(self.message),
        }
    }
}

/// How a deployment starts.
pub open spec fn started(c: ConfigView) -> DeploymentView {
    DeploymentView {
        config: c,
        progress: start(terms_of(c)),
        code: Seq::empty(),
        message: if start(terms_of(c)).failed {
            Some(not_below_text(c, Role::Controller))
        } else {
            None
        },
    }
}

/// How a deployment goes on from a reply: as the machine does. The first failure is remembered, and
/// so is the token's code that was deployed.
pub open spec fn replied(d: DeploymentView, reply: Reply) -> DeploymentView {
    let j = judgement(d.config, d.code, d.progress.stage, reply);
    let after = advance(d.progress, terms_of(d.config), verdict_of(j));
    let deployed = j is Ok && reply is Deployed;
    DeploymentView {
        config: d.config,
        progress: after,
        code: if deployed {
            reply->Deployed_0@
        } else {
            d.code
        },
        message: if after.failed && !d.progress.failed {
            match j {
                Err(message) => Some(message),
                Ok(_) => Some(not_below_text(d.config, unplaced(d.progress.stage))),
            }
        } else {
            d.message
        },
    }
}

fn not_below(config: &Config, role: Role) -> (r: String)
    ensures
        r@ == not_below_text(config@, role),
{
    let mut message: String = join2("account ", role_account(config, role));
    message.append(" must be a subaccount of ");
    message.append(config.signer_id.as_str());
    message
}

impl Deployment {
    /// The terms are those that the configuration sets.
    pub closed spec fn wf(&self) -> bool {
        self.terms == terms_of(self.config@)
    }

    /// Starts a deployment. One that is configured as a dry run is done from the start.
    pub fn deploy_with_signer(config: Config) -> (r: Deployment)
        ensures
            r.wf(),
            r@ == started(config@),
    {
        let terms = Terms {
            dry_run: config.dry_run,
            test_mode: config.test_mode,
            controller_below: subaccount_prefix(
                &config.controller_id,
                &config.signer_id,
            ).is_some(),
            token_below: subaccount_prefix(&config.token_id, &config.signer_id).is_some(),
        };
        let progress: Progress = begin(terms);
        let message: Option<String> = if progress.failed {
            Some(not_below(&config, Role::Controller))
        } else {
            None
        };
        Deployment { config, terms, progress, code: Vec::new(), message }
    }

    /// The task that is to be performed now.
    pub fn task(&self) -> (r: Task)
        ensures
            r@ == task_of(self@.config, self@.code, self@.progress.stage),
    {
        task(&self.config, &self.code, self.progress.stage)
    }

    /// Goes on from what came of the task.
    pub fn reply(&mut self, reply: &Reply)
        requires
            old(self).wf(),
        ensures
            final(self).wf(),
            final(self)@ == replied(old(self)@, *reply),
    {
        let judged: Result<Verdict, String> = judge(
            &self.config,
            &self.code,
            self.progress.stage,
            reply,
        );
        let before: Progress = self.progress;
        let verdict: Verdict = match &judged {
            Ok(v) => *v,
            Err(_) => Verdict::Bad,
        };
        self.progress = proceed(before, self.terms, verdict);
        match reply {
            Reply::Deployed(code) => {
                if judged.is_ok() {
                    self.code = copy_bytes(code);
                }
            },
            _ => {},
        }
        if self.progress.failed && !before.failed {
            let role: Role = match before.stage {
                Stage::Confirming(role) => role,
                _ => Role::Token,
            };
            self.message =
            Some(
                match judged {
                    Err(message) => message,
                    Ok(_) => not_below(&self.config, role),
                },
            );
        }
    }

    /// How far the deployment has come.
    pub fn progress(&self) -> (r: Progress)
        ensures
            r == self@.progress,
    {
        self.progress
    }

    /// How the deployment ended, once it is done: with the first failure; with a failure where
    /// what had to be deleted was not; or well.
    pub fn result(&self) -> (r: Option<Result<(), String>>)
        ensures
            r is Some <==> self@.progress.stage == Stage::Done,
            r is Some ==> (r->0 is Ok <==> succeeded(self@.progress)),
            r is Some && r->0 is Err ==> r->0->Err_0@ == match self@.message {
                Some(message) => message,
                None => "test mode cleanup was incomplete"@,
            },
    {
        match self.progress.stage {
            Stage::Done => {
                if !self.progress.failed && self.progress.cleaned {
                    return Some(Ok(()));
                }
                match &self.message {
                    Some(message) => Some(Err(message.clone())),
                    None => Some(Err("test mode cleanup was incomplete".to_owned())),
                }
            },
            _ => None,
        }
    }
}

/// What a deployment remembers of its failure agrees with whether it failed.
pub open spec fn remembers(d: DeploymentView) -> bool {
    d.message is Some <==> d.progress.failed
}

/// A failure has its message, from the start and after every reply.
pub proof fn law_every_failure_has_its_message(c: ConfigView, d: DeploymentView, reply: Reply)
    ensures
        remembers(started(c)),
        remembers(d) ==> remembers(replied(d, reply)),
{
}

/// The first failure is the one that is told in the end.
pub proof fn law_the_first_failure_is_told(d: DeploymentView, reply: Reply)
    requires
        d.progress.failed,
    ensures
        replied(d, reply).message == d.message,
{
}

/// A deployment goes past the registry only if the registry recorded the hash of the code that was
/// deployed, and past the owner only if the token's owner is the controller.
pub proof fn law_verification_cannot_be_skipped(d: DeploymentView, reply: Reply)
    requires
        !d.progress.failed,
        !replied(d, reply).progress.failed,
    ensures
        d.progress.stage == Stage::ReadingDeployment ==> reply is Bytes && member_text(
            reply->Bytes_0@,
            "hash"@,
        ) == Ok::<Option<Seq<char>>, Seq<char>>(Some(release_hash(d.code))),
        d.progress.stage == Stage::ReadingOwner ==> reply is Bytes && string_text(reply->Bytes_0@)
            == Some(d.config.controller_id),
{
}

/// A deployment that is configured as a dry run has nothing performed, from the start and after
/// whatever it is told.
pub proof fn law_a_dry_run_executes_nothing(c: ConfigView, reply: Reply)
    requires
        c.dry_run,
    ensures
        started(c).progress == untouched(),
        succeeded(started(c).progress),
        next_task(started(c)) == TaskView::Finish,
        replied(started(c), reply).progress == untouched(),
        next_task(replied(started(c), reply)) == TaskView::Finish,
{
}

/// What a deployment has performed next.
pub open spec fn next_task(d: DeploymentView) -> TaskView {
    task_of(d.config, d.code, d.progress.stage)
}

/// The code that a deployment remembers is the code that was deployed on the token's account, from
/// then on to the end.
pub proof fn law_the_deployed_code_is_remembered(d: DeploymentView, reply: Reply)
    ensures
        d.progress.stage == Stage::Deploying(Role::Token) && reply is Deployed ==> replied(
            d,
            reply,
        ).code == reply->Deployed_0@,
        d.progress.stage != Stage::Deploying(Role::Token) ==> replied(d, reply).code == d.code,
{
}

/// What is uploaded to the registry has the hash under which it was announced, is paid for by its
/// size, and is recorded as the token's deployment under that hash. The three calls go to the
/// controller, one after another, each only when the one before came out well.
pub proof fn law_what_is_uploaded_has_the_registered_hash(
    d: DeploymentView,
    announced: Reply,
    uploaded: Reply,
)
    requires
        d.progress.stage == Stage::AddingRelease,
        verdict_of(judgement(d.config, d.code, Stage::AddingRelease, announced)) == Verdict::Good,
        verdict_of(judgement(d.config, d.code, Stage::UploadingRelease, uploaded))
            == Verdict::Good,
    ensures
        ({
            let upload = replied(d, announced);
            let record = replied(upload, uploaded);
            let hash = release_hash(next_task(upload)->Upload_args);
            &&& next_task(d) == TaskView::Call {
                receiver_id: d.config.controller_id,
                method: "add_release_info"@,
                args: release_args_text(hash),
                deposit: 1,
                max_gas: true,
            }
            &&& next_task(upload) == TaskView::Upload {
                receiver_id: d.config.controller_id,
                method: "add_release_blob"@,
                args: d.code,
                deposit: release_deposit(d.code.len()) as u128,
            }
            &&& next_task(record) == TaskView::Call {
                receiver_id: d.config.controller_id,
                method: "add_deployment_info"@,
                args: deployment_args_text(d.config.token_id, hash),
                deposit: 1,
                max_gas: true,
            }
        }),
{
}

/// Only a node's word that an account does not exist has it created; any other failure of a lookup
/// ends the deployment.
pub proof fn law_only_absence_leads_to_creation(d: DeploymentView, role: Role, reply: Reply)
    requires
        d.progress.stage == Stage::Viewing(role),
        replied(d, reply).progress.stage == Stage::Confirming(role),
    ensures
        reply is Errors,
        says_absent(texts(reply->Errors_0@)),
{
}

} // verus!
