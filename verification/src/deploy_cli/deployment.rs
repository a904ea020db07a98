//! The course of a deployment: what is done next, given what came of the last task.
//!
//! [`advance`] is the machine. Whoever drives it performs each task and hands back what came of it.
use vstd::prelude::*;

verus! {

/// The two accounts of a deployment.
#[derive(Clone, Copy, PartialEq, Eq, Structural, Debug)]
pub enum Role {
    Controller,
    Token,
}

/// Where a deployment stands: the task whose result it waits for.
#[derive(Clone, Copy, PartialEq, Eq, Structural, Debug)]
pub enum Stage {
    /// Whether an account exists is looked up.
    Viewing(Role),
    /// The credentials of an account that exists are read.
    Loading(Role),
    /// The operator is asked whether a missing account is to be created.
    Confirming(Role),
    Creating(Role),
    /// The credentials of a created account are kept.
    Storing(Role),
    Deploying(Role),
    /// The token is offered to the controller.
    Proposing,
    /// The controller accepts the token.
    Accepting,
    AddingRelease,
    UploadingRelease,
    AddingDeployment,
    ReadingDeployment,
    ReadingOwner,
    /// A created account is deleted again.
    Deleting(Role),
    Done,
}

/// What came of a task.
#[derive(Clone, Copy, PartialEq, Eq, Structural, Debug)]
pub enum Verdict {
    Good,
    /// The account that was looked up does not exist.
    Absent,
    Bad,
}

/// What a deployment is given to start with.
#[derive(Clone, Copy, PartialEq, Eq, Structural, Debug)]
pub struct Terms {
    /// Nothing is to be done.
    pub dry_run: bool,
    /// Both accounts are created, and deleted in the end.
    pub test_mode: bool,
    /// The controller's account lies below the signer's, so that the signer can create it.
    pub controller_below: bool,
    pub token_below: bool,
}

/// How far a deployment has come.
#[derive(Clone, Copy, PartialEq, Eq, Structural, Debug)]
pub struct Progress {
    pub stage: Stage,
    /// The account was created by this deployment and has not been deleted since.
    pub created_controller: bool,
    pub created_token: bool,
    pub failed: bool,
    /// Every deletion so far succeeded.
    pub cleaned: bool,
}

/// The start of the deletions: the token's account first, then the controller's.
pub open spec fn cleaning(p: Progress) -> Progress {
    Progress {
        stage: if p.created_token {
            Stage::Deleting(Role::Token)
        } else if p.created_controller {
            Stage::Deleting(Role::Controller)
        } else {
            Stage::Done
        },
        ..p
    }
}

/// After a failure: what was created is deleted again.
pub open spec fn failing(p: Progress) -> Progress {
    cleaning(Progress { failed: true, ..p })
}

/// Whether the signer can create the account.
pub open spec fn creatable(terms: Terms, role: Role) -> bool {
    match role {
        Role::Controller => terms.controller_below,
        Role::Token => terms.token_below,
    }
}

/// Goes on to create an account, if it can be created.
pub open spec fn creating(p: Progress, terms: Terms, role: Role) -> Progress {
    if creatable(terms, role) {
        Progress { stage: Stage::Creating(role), ..p }
    } else {
        failing(p)
    }
}

/// Goes on to have an account: it is created in test mode, and looked up otherwise.
pub open spec fn settling(p: Progress, terms: Terms, role: Role) -> Progress {
    if terms.test_mode {
        creating(p, terms, role)
    } else {
        Progress { stage: Stage::Viewing(role), ..p }
    }
}

/// Goes on once an account is there.
pub open spec fn settled_account(p: Progress, terms: Terms, role: Role) -> Progress {
    match role {
        Role::Controller => settling(p, terms, Role::Token),
        Role::Token => Progress { stage: Stage::Deploying(Role::Controller), ..p },
    }
}

/// Notes that an account was created.
pub open spec fn with_created(p: Progress, role: Role) -> Progress {
    match role {
        Role::Controller => Progress { created_controller: true, ..p },
        Role::Token => Progress { created_token: true, ..p },
    }
}

/// A deployment of which nothing was done.
pub open spec fn untouched() -> Progress {
    Progress {
        stage: Stage::Done,
        created_controller: false,
        created_token: false,
        failed: false,
        cleaned: true,
    }
}

/// How a deployment starts; a dry run ends there.
pub open spec fn start(terms: Terms) -> Progress {
    if terms.dry_run {
        untouched()
    } else {
        settling(untouched(), terms, Role::Controller)
    }
}

/// How a deployment goes on from what came of its task.
pub open spec fn advance(p: Progress, terms: Terms, verdict: Verdict) -> Progress {
    match p.stage {
        Stage::Viewing(role) => match verdict {
            Verdict::Good => Progress { stage: Stage::Loading(role), ..p },
            Verdict::Absent => Progress { stage: Stage::Confirming(role), ..p },
            Verdict::Bad => failing(p),
        },
        Stage::Deleting(role) => {
            let q = Progress { cleaned: p.cleaned && verdict == Verdict::Good, ..p };
            match role {
                Role::Token => cleaning(Progress { created_token: false, ..q }),
                Role::Controller => cleaning(Progress { created_controller: false, ..q }),
            }
        },
        Stage::Done => p,
        _ => if verdict != Verdict::Good {
            failing(p)
        } else {
            match p.stage {
                Stage::Loading(role) => settled_account(p, terms, role),
                Stage::Confirming(role) => creating(p, terms, role),
                Stage::Creating(role) => if terms.test_mode {
                    settled_account(with_created(p, role), terms, role)
                } else {
                    Progress { stage: Stage::Storing(role), ..with_created(p, role) }
                },
                Stage::Storing(role) => settled_account(p, terms, role),
                Stage::Deploying(Role::Controller) => Progress {
                    stage: Stage::Deploying(Role::Token),
                    ..p
                },
                Stage::Deploying(Role::Token) => Progress { stage: Stage::Proposing, ..p },
                Stage::Proposing => Progress { stage: Stage::Accepting, ..p },
                Stage::Accepting => Progress { stage: Stage::AddingRelease, ..p },
                Stage::AddingRelease => Progress { stage: Stage::UploadingRelease, ..p },
                Stage::UploadingRelease => Progress { stage: Stage::AddingDeployment, ..p },
                Stage::AddingDeployment => Progress { stage: Stage::ReadingDeployment, ..p },
                Stage::ReadingDeployment => Progress { stage: Stage::ReadingOwner, ..p },
                Stage::ReadingOwner => if terms.test_mode {
                    cleaning(p)
                } else {
                    Progress { stage: Stage::Done, ..p }
                },
                _ => p,
            }
        },
    }
}

/// Whether a deployment that is done succeeded: nothing failed, and what had to be deleted was.
pub open spec fn succeeded(p: Progress) -> bool {
    p.stage == Stage::Done && !p.failed && p.cleaned
}

fn to_cleaning(p: Progress) -> (r: Progress)
    ensures
        r == cleaning(p),
{
    let stage: Stage = if p.created_token {
        Stage::Deleting(Role::Token)
    } else if p.created_controller {
        Stage::Deleting(Role::Controller)
    } else {
        Stage::Done
    };
    Progress { stage, ..p }
}

fn to_failing(p: Progress) -> (r: Progress)
    ensures
        r == failing(p),
{
    to_cleaning(Progress { failed: true, ..p })
}

fn to_creating(p: Progress, terms: Terms, role: Role) -> (r: Progress)
    ensures
        r == creating(p, terms, role),
{
    let can: bool = match role {
        Role::Controller => terms.controller_below,
        Role::Token => terms.token_below,
    };
    if can {
        Progress { stage: Stage::Creating(role), ..p }
    } else {
        to_failing(p)
    }
}

fn to_settling(p: Progress, terms: Terms, role: Role) -> (r: Progress)
    ensures
        r == settling(p, terms, role),
{
    if terms.test_mode {
        to_creating(p, terms, role)
    } else {
        Progress { stage: Stage::Viewing(role), ..p }
    }
}

fn to_settled_account(p: Progress, terms: Terms, role: Role) -> (r: Progress)
    ensures
        r == settled_account(p, terms, role),
{
    match role {
        Role::Controller => to_settling(p, terms, Role::Token),
        Role::Token => Progress { stage: Stage::Deploying(Role::Controller), ..p },
    }
}

fn to_with_created(p: Progress, role: Role) -> (r: Progress)
    ensures
        r == with_created(p, role),
{
    match role {
        Role::Controller => Progress { created_controller: true, ..p },
        Role::Token => Progress { created_token: true, ..p },
    }
}

/// How a deployment starts.
pub fn begin(terms: Terms) -> (r: Progress)
    ensures
        r == start(terms),
{
    let untouched = Progress {
        stage: Stage::Done,
        created_controller: false,
        created_token: false,
        failed: false,
        cleaned: true,
    };
    if terms.dry_run {
        untouched
    } else {
        to_settling(untouched, terms, Role::Controller)
    }
}

/// How a deployment goes on from what came of its task.
pub fn proceed(p: Progress, terms: Terms, verdict: Verdict) -> (r: Progress)
    ensures
        r == advance(p, terms, verdict),
{
    let good: bool = match verdict {
        Verdict::Good => true,
        _ => false,
    };
    match p.stage {
        Stage::Viewing(role) => match verdict {
            Verdict::Good => Progress { stage: Stage::Loading(role), ..p },
            Verdict::Absent => Progress { stage: Stage::Confirming(role), ..p },
            Verdict::Bad => to_failing(p),
        },
        Stage::Deleting(role) => {
            let q = Progress { cleaned: p.cleaned && good, ..p };
            match role {
                Role::Token => to_cleaning(Progress { created_token: false, ..q }),
                Role::Controller => to_cleaning(Progress { created_controller: false, ..q }),
            }
        },
        Stage::Done => p,
        _ => {
            if !good {
                return to_failing(p);
            }
            match p.stage {
                Stage::Loading(role) => to_settled_account(p, terms, role),
                Stage::Confirming(role) => to_creating(p, terms, role),
                Stage::Creating(role) => {
                    let q: Progress = to_with_created(p, role);
                    if terms.test_mode {
                        to_settled_account(q, terms, role)
                    } else {
                        Progress { stage: Stage::Storing(role), ..q }
                    }
                },
                Stage::Storing(role) => to_settled_account(p, terms, role),
                Stage::Deploying(Role::Controller) => Progress {
                    stage: Stage::Deploying(Role::Token),
                    ..p
                },
                Stage::Deploying(Role::Token) => Progress { stage: Stage::Proposing, ..p },
                Stage::Proposing => Progress { stage: Stage::Accepting, ..p },
                Stage::Accepting => Progress { stage: Stage::AddingRelease, ..p },
                Stage::AddingRelease => Progress { stage: Stage::UploadingRelease, ..p },
                Stage::UploadingRelease => Progress { stage: Stage::AddingDeployment, ..p },
                Stage::AddingDeployment => Progress { stage: Stage::ReadingDeployment, ..p },
                Stage::ReadingDeployment => Progress { stage: Stage::ReadingOwner, ..p },
                Stage::ReadingOwner => if terms.test_mode {
                    to_cleaning(p)
                } else {
                    Progress { stage: Stage::Done, ..p }
                },
                _ => p,
            }
        },
    }
}

/// How far a deployment has come after the tasks that came out so.
pub open spec fn progress_after(terms: Terms, verdicts: Seq<Verdict>) -> Progress
    decreases verdicts.len(),
{
    if verdicts.len() == 0 {
        start(terms)
    } else {
        advance(progress_after(terms, verdicts.drop_last()), terms, verdicts.last())
    }
}

/// A number that falls with every task until the deployment is done.
pub open spec fn tasks_left(p: Progress) -> nat {
    match p.stage {
        Stage::Viewing(Role::Controller) => 22,
        Stage::Loading(Role::Controller) => 21,
        Stage::Confirming(Role::Controller) => 21,
        Stage::Creating(Role::Controller) => 20,
        Stage::Storing(Role::Controller) => 19,
        Stage::Viewing(Role::Token) => 18,
        Stage::Loading(Role::Token) => 17,
        Stage::Confirming(Role::Token) => 17,
        Stage::Creating(Role::Token) => 16,
        Stage::Storing(Role::Token) => 15,
        Stage::Deploying(Role::Controller) => 14,
        Stage::Deploying(Role::Token) => 13,
        Stage::Proposing => 12,
        Stage::Accepting => 11,
        Stage::AddingRelease => 10,
        Stage::UploadingRelease => 9,
        Stage::AddingDeployment => 8,
        Stage::ReadingDeployment => 7,
        Stage::ReadingOwner => 6,
        Stage::Deleting(Role::Token) => 2,
        Stage::Deleting(Role::Controller) => 1,
        Stage::Done => 0,
    }
}

/// What always holds of how far a deployment has come.
pub open spec fn orderly(p: Progress, terms: Terms) -> bool {
    &&& p.stage == Stage::Deleting(Role::Token) ==> p.created_token
    &&& p.stage == Stage::Deleting(Role::Controller) ==> p.created_controller && !p.created_token
    &&& p.stage == Stage::Done && (p.failed || terms.test_mode) ==> !p.created_token
        && !p.created_controller
    &&& !(p.stage is Deleting) && p.stage != Stage::Done ==> !p.failed && p.cleaned
    &&& p.stage is Deleting ==> p.failed || terms.test_mode
    &&& !p.failed && !terms.test_mode ==> p.cleaned
    &&& match p.stage {
        Stage::Viewing(Role::Controller) | Stage::Loading(Role::Controller)
        | Stage::Confirming(Role::Controller) | Stage::Creating(Role::Controller) =>
            !p.created_controller && !p.created_token,
        Stage::Storing(Role::Controller) => p.created_controller && !p.created_token,
        Stage::Viewing(Role::Token) | Stage::Loading(Role::Token) | Stage::Confirming(Role::Token)
        | Stage::Creating(Role::Token) => !p.created_token,
        Stage::Storing(Role::Token) => p.created_token,
        _ => true,
    }
}

proof fn lemma_advance_is_orderly(p: Progress, terms: Terms, verdict: Verdict)
    requires
        orderly(p, terms),
    ensures
        orderly(advance(p, terms, verdict), terms),
        p.stage != Stage::Done ==> tasks_left(advance(p, terms, verdict)) < tasks_left(p),
{
}

proof fn lemma_progress_is_orderly(terms: Terms, verdicts: Seq<Verdict>)
    ensures
        orderly(progress_after(terms, verdicts), terms),
        tasks_left(progress_after(terms, verdicts)) + verdicts.len() <= 22 || progress_after(
            terms,
            verdicts,
        ).stage == Stage::Done,
    decreases verdicts.len(),
{
    if verdicts.len() > 0 {
        lemma_progress_is_orderly(terms, verdicts.drop_last());
        lemma_advance_is_orderly(
            progress_after(terms, verdicts.drop_last()),
            terms,
            verdicts.last(),
        );
    }
}

/// A deployment deletes only accounts that it created itself.
pub proof fn law_only_created_accounts_are_deleted(terms: Terms, verdicts: Seq<Verdict>, role: Role)
    requires
        progress_after(terms, verdicts).stage == Stage::Deleting(role),
    ensures
        match role {
            Role::Controller => progress_after(terms, verdicts).created_controller,
            Role::Token => progress_after(terms, verdicts).created_token,
        },
        exists|i: int|
            0 <= i < verdicts.len() && verdicts[i] == Verdict::Good && #[trigger] progress_after(
                terms,
                verdicts.take(i),
            ).stage == Stage::Creating(role),
{
    lemma_progress_is_orderly(terms, verdicts);
    lemma_created_was_creating(terms, verdicts, role);
}

proof fn lemma_created_was_creating(terms: Terms, verdicts: Seq<Verdict>, role: Role)
    requires
        match role {
            Role::Controller => progress_after(terms, verdicts).created_controller,
            Role::Token => progress_after(terms, verdicts).created_token,
        },
    ensures
        exists|i: int|
            0 <= i < verdicts.len() && verdicts[i] == Verdict::Good && #[trigger] progress_after(
                terms,
                verdicts.take(i),
            ).stage == Stage::Creating(role),
    decreases verdicts.len(),
{
    if verdicts.len() > 0 {
        let before = verdicts.drop_last();
        let n = before.len() as int;
        let p = progress_after(terms, before);
        let was = match role {
            Role::Controller => p.created_controller,
            Role::Token => p.created_token,
        };
        assert(verdicts.take(n) =~= before);
        if was {
            lemma_created_was_creating(terms, before, role);
            let i = choose|i: int|
                0 <= i < before.len() && before[i] == Verdict::Good && #[trigger] progress_after(
                    terms,
                    before.take(i),
                ).stage == Stage::Creating(role);
            assert(verdicts.take(i) =~= before.take(i));
            assert(verdicts[i] == before[i]);
        } else {
            assert(p.stage == Stage::Creating(role));
            assert(verdicts[n] == Verdict::Good);
        }
    }
}

/// A deployment ends after at most twenty-two tasks.
pub proof fn law_a_deployment_ends(terms: Terms, verdicts: Seq<Verdict>)
    requires
        verdicts.len() >= 22,
    ensures
        progress_after(terms, verdicts).stage == Stage::Done,
{
    lemma_progress_is_orderly(terms, verdicts);
}

/// After a failure, and always in test mode, a deployment ends only when it has tried to delete
/// every account that it created.
pub proof fn law_nothing_created_is_left(terms: Terms, verdicts: Seq<Verdict>)
    requires
        progress_after(terms, verdicts).stage == Stage::Done,
        progress_after(terms, verdicts).failed || terms.test_mode,
    ensures
        !progress_after(terms, verdicts).created_token,
        !progress_after(terms, verdicts).created_controller,
{
    lemma_progress_is_orderly(terms, verdicts);
}

/// Once something failed, a deployment does not succeed, whatever comes after.
pub proof fn law_a_failure_is_not_forgotten(
    terms: Terms,
    verdicts: Seq<Verdict>,
    more: Seq<Verdict>,
)
    requires
        progress_after(terms, verdicts).failed,
    ensures
        progress_after(terms, verdicts + more).failed,
        !succeeded(progress_after(terms, verdicts + more)),
    decreases more.len(),
{
    if more.len() > 0 {
        law_a_failure_is_not_forgotten(terms, verdicts, more.drop_last());
        assert((verdicts + more).drop_last() =~= verdicts + more.drop_last());
        let p = progress_after(terms, verdicts + more.drop_last());
        lemma_progress_is_orderly(terms, verdicts + more.drop_last());
    } else {
        assert(verdicts + more =~= verdicts);
    }
}

/// The stages that a deployment must pass, in their order, once both accounts are there.
pub open spec fn milestone(k: int) -> Stage {
    if k == 0 {
        Stage::Deploying(Role::Controller)
    } else if k == 1 {
        Stage::Deploying(Role::Token)
    } else if k == 2 {
        Stage::Proposing
    } else if k == 3 {
        Stage::Accepting
    } else if k == 4 {
        Stage::AddingRelease
    } else if k == 5 {
        Stage::UploadingRelease
    } else if k == 6 {
        Stage::AddingDeployment
    } else if k == 7 {
        Stage::ReadingDeployment
    } else {
        Stage::ReadingOwner
    }
}

/// A deployment reaches a milestone only from the one before it, and only when that came out well:
/// ownership is accepted after it was proposed, and the owner is read after the registry was.
pub proof fn law_milestones_come_in_order(p: Progress, terms: Terms, verdict: Verdict, k: int)
    requires
        1 <= k <= 8,
        advance(p, terms, verdict).stage == milestone(k),
    ensures
        p.stage == milestone(k - 1),
        verdict == Verdict::Good,
{
}

/// A dry run performs no task: it is done from the start, whatever it is told, and ends well.
pub proof fn law_a_dry_run_performs_nothing(terms: Terms, verdicts: Seq<Verdict>)
    requires
        terms.dry_run,
    ensures
        progress_after(terms, verdicts) == untouched(),
        succeeded(progress_after(terms, verdicts)),
    decreases verdicts.len(),
{
    if verdicts.len() > 0 {
        law_a_dry_run_performs_nothing(terms, verdicts.drop_last());
    }
}

/// A deployment that is no dry run and succeeds has read the owner of the token and found it right.
pub proof fn law_success_means_verified(terms: Terms, verdicts: Seq<Verdict>)
    requires
        !terms.dry_run,
        succeeded(progress_after(terms, verdicts)),
    ensures
        exists|i: int|
            0 <= i < verdicts.len() && verdicts[i] == Verdict::Good && #[trigger] progress_after(
                terms,
                verdicts.take(i),
            ).stage == Stage::ReadingOwner,
    decreases verdicts.len(),
{
    lemma_verified(terms, verdicts);
}

proof fn lemma_verified(terms: Terms, verdicts: Seq<Verdict>)
    requires
        !terms.dry_run,
        !progress_after(terms, verdicts).failed,
        progress_after(terms, verdicts).stage == Stage::Done || progress_after(
            terms,
            verdicts,
        ).stage is Deleting,
    ensures
        exists|i: int|
            0 <= i < verdicts.len() && verdicts[i] == Verdict::Good && #[trigger] progress_after(
                terms,
                verdicts.take(i),
            ).stage == Stage::ReadingOwner,
    decreases verdicts.len(),
{
    if verdicts.len() > 0 {
        let before = verdicts.drop_last();
        let n = before.len() as int;
        let p = progress_after(terms, before);
        assert(verdicts.take(n) =~= before);
        if p.stage == Stage::Done || p.stage is Deleting {
            lemma_verified(terms, before);
            let i = choose|i: int|
                0 <= i < before.len() && before[i] == Verdict::Good && #[trigger] progress_after(
                    terms,
                    before.take(i),
                ).stage == Stage::ReadingOwner;
            assert(verdicts.take(i) =~= before.take(i));
            assert(verdicts[i] == before[i]);
        } else {
            assert(p.stage == Stage::ReadingOwner);
            assert(verdicts[n] == Verdict::Good);
        }
    }
}

} // verus!
