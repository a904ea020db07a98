//! What holds of a guided deployment as a whole: what its tasks do to the token, and which accounts
//! and amounts they concern.
use crate::arguments::{
    accept_args_text, controller_args_text, law_an_offer_names_one_account, propose_args_text,
    token_args_text, TokenTerms,
};
use crate::contract::initial_state;
use crate::contract_laws::step;
use crate::deploy_cli::amounts::release_deposit;
use crate::deploy_cli::config::ConfigView;
use crate::deploy_cli::deployment::{
    advance, law_nothing_created_is_left, law_success_means_verified, progress_after, succeeded,
    Progress, Role, Stage, Verdict,
};
use crate::deploy_cli::runner::{judgement, next_task, replied, started, verdict_of, DeploymentView};
use crate::deploy_cli::tasks::{
    deployment_query_text, prefix_below, task_of, terms_of, Reply, TaskView,
};
use crate::json::string_text;
use crate::metadata::MetadataView;
use crate::model::{called_by, Op, State};
use crate::text::ends_with;
use crate::token::byte_cost;
use vstd::prelude::*;

verus! {

/// A deployment after the replies to its tasks.
pub open spec fn deployment_through(d: DeploymentView, replies: Seq<Reply>) -> DeploymentView
    decreases replies.len(),
{
    if replies.len() == 0 {
        d
    } else {
        replied(deployment_through(d, replies.drop_last()), replies.last())
    }
}

/// Whether a reply says that the task of a deployment was performed.
pub open spec fn performed(d: DeploymentView, reply: Reply) -> bool {
    verdict_of(judgement(d.config, d.code, d.progress.stage, reply)) == Verdict::Good
}

/// The account to which arguments of `owner_set` offer the token.
pub open spec fn offered_to(args: Seq<char>) -> Option<Seq<char>> {
    if exists|id: Seq<char>| args == #[trigger] propose_args_text(id) {
        Some(choose|id: Seq<char>| args == #[trigger] propose_args_text(id))
    } else {
        None
    }
}

/// What lies under the token's account before it is initialized.
pub ghost struct Ground {
    pub balances: Map<Seq<char>, u128>,
    pub account_bytes: u64,
    pub frozen: Set<Seq<char>>,
}

/// The state in which a token is initialized whose owner is the signer, as it is configured.
pub open spec fn token_as_configured(c: ConfigView, ground: Ground) -> State {
    initial_state(
        ground.balances,
        ground.account_bytes,
        ground.frozen,
        c.signer_id,
        c.total_supply_yocto,
        MetadataView {
            spec: "ft-1.0.0"@,
            name: c.token_name,
            symbol: c.token_symbol,
            icon: None,
            reference: None,
            reference_hash: None,
            decimals: c.token_decimals,
        },
        c.initial_price,
    )
}

/// What a task that is performed does to the token, of which there is none before it is initialized.
/// Calls are the signer's; the controller, which the signer governs, calls what it is told to.
pub open spec fn token_after(
    c: ConfigView,
    ground: Ground,
    token: Option<State>,
    task: TaskView,
) -> Option<State> {
    match task {
        TaskView::Deploy { account_id, code, init_args } => if account_id == c.token_id {
            if code == Role::Token && init_args == token_args_text(
                TokenTerms {
                    name: c.token_name,
                    symbol: c.token_symbol,
                    decimals: c.token_decimals,
                    owner: c.signer_id,
                    supply: c.total_supply_yocto,
                    price: c.initial_price,
                },
            ) {
                Some(token_as_configured(c, ground))
            } else {
                None
            }
        } else {
            token
        },
        TaskView::Call { receiver_id, method, args, deposit, .. } => match token {
            None => None,
            Some(s) => if receiver_id == c.token_id && method == "owner_set"@ && deposit == 0
                && offered_to(args) is Some {
                Some(
                    step(
                        s,
                        called_by(c.signer_id),
                        Op::ProposeOwner { account: offered_to(args)->0 },
                    ),
                )
            } else if receiver_id == c.controller_id && method == "delegate_execution"@ && deposit
                == 1 && args == accept_args_text(c.token_id) {
                Some(step(s, called_by(c.controller_id), Op::AcceptOwner))
            } else {
                Some(s)
            },
        },
        _ => token,
    }
}

/// The token after the tasks that were performed in a run.
pub open spec fn token_through(c: ConfigView, ground: Ground, replies: Seq<Reply>) -> Option<State>
    decreases replies.len(),
{
    if replies.len() == 0 {
        None
    } else {
        let before = token_through(c, ground, replies.drop_last());
        let d = deployment_through(started(c), replies.drop_last());
        if performed(d, replies.last()) {
            token_after(c, ground, before, next_task(d))
        } else {
            before
        }
    }
}

/// Where the token stands at a stage of a run that did not fail.
spec fn expected_token(c: ConfigView, ground: Ground, stage: Stage) -> Option<State> {
    let s = token_as_configured(c, ground);
    match stage {
        Stage::Viewing(_) | Stage::Loading(_) | Stage::Confirming(_) | Stage::Creating(_)
        | Stage::Storing(_) | Stage::Deploying(_) => None,
        Stage::Proposing => Some(s),
        Stage::Accepting => Some(State { pending: Some(c.controller_id), ..s }),
        _ => Some(State { owner: c.controller_id, pending: None, ..s }),
    }
}

proof fn lemma_offer(id: Seq<char>)
    ensures
        offered_to(propose_args_text(id)) == Some(id),
{
    let args = propose_args_text(id);
    assert(exists|x: Seq<char>| args == #[trigger] propose_args_text(x));
    let x = choose|x: Seq<char>| args == #[trigger] propose_args_text(x);
    law_an_offer_names_one_account(x, id);
}

/// Where the token stands once the task of a stage was performed.
spec fn token_afterwards(c: ConfigView, ground: Ground, stage: Stage) -> Option<State> {
    match stage {
        Stage::Deploying(Role::Token) => expected_token(c, ground, Stage::Proposing),
        Stage::Proposing => expected_token(c, ground, Stage::Accepting),
        Stage::Accepting => expected_token(c, ground, Stage::AddingRelease),
        _ => expected_token(c, ground, stage),
    }
}

proof fn lemma_methods_differ()
    ensures
        "owner_set"@ != "delegate_execution"@,
        "owner_set"@ != "add_release_info"@,
        "owner_set"@ != "add_deployment_info"@,
        "delegate_execution"@ != "add_release_info"@,
        "delegate_execution"@ != "add_deployment_info"@,
{
    reveal_strlit("owner_set");
    reveal_strlit("delegate_execution");
    reveal_strlit("add_release_info");
    reveal_strlit("add_deployment_info");
    assert("owner_set"@.len() == 9);
    assert("delegate_execution"@.len() == 18);
    assert("add_release_info"@.len() == 16);
    assert("add_deployment_info"@.len() == 19);
}

proof fn lemma_task_moves_token(c: ConfigView, ground: Ground, code: Seq<u8>, stage: Stage)
    requires
        c.controller_id != c.token_id,
    ensures
        token_after(c, ground, expected_token(c, ground, stage), task_of(c, code, stage))
            == token_afterwards(c, ground, stage),
{
    lemma_methods_differ();
    let s = token_as_configured(c, ground);
    match stage {
        Stage::Proposing => {
            lemma_offer(c.controller_id);
            assert(step(s, called_by(c.signer_id), Op::ProposeOwner { account: c.controller_id })
                == (State { pending: Some(c.controller_id), ..s }));
        },
        Stage::Accepting => {
            let offered = State { pending: Some(c.controller_id), ..s };
            assert(step(offered, called_by(c.controller_id), Op::AcceptOwner) == (State {
                owner: c.controller_id,
                pending: None,
                ..s
            }));
        },
        _ => {},
    }
}

proof fn lemma_stage_moves_token(c: ConfigView, ground: Ground, p: Progress, verdict: Verdict)
    requires
        !advance(p, terms_of(c), verdict).failed,
    ensures
        !p.failed,
        expected_token(c, ground, advance(p, terms_of(c), verdict).stage) == if verdict
            == Verdict::Good {
            token_afterwards(c, ground, p.stage)
        } else {
            expected_token(c, ground, p.stage)
        },
{
}

proof fn lemma_token_stands(c: ConfigView, ground: Ground, replies: Seq<Reply>)
    requires
        !c.dry_run,
        c.controller_id != c.token_id,
    ensures
        deployment_through(started(c), replies).config == c,
        !deployment_through(started(c), replies).progress.failed ==> token_through(
            c,
            ground,
            replies,
        ) == expected_token(c, ground, deployment_through(started(c), replies).progress.stage),
    decreases replies.len(),
{
    if replies.len() > 0 {
        let before = replies.drop_last();
        lemma_token_stands(c, ground, before);
        let d = deployment_through(started(c), before);
        let verdict = verdict_of(judgement(d.config, d.code, d.progress.stage, replies.last()));
        if !advance(d.progress, terms_of(c), verdict).failed {
            lemma_stage_moves_token(c, ground, d.progress, verdict);
            lemma_task_moves_token(c, ground, d.code, d.progress.stage);
        }
    }
}

/// A guided deployment that succeeds leaves the token with the controller: applied to the token, the
/// tasks that were performed initialize it as configured, with the signer as its owner, and then hand
/// it over. In the end the controller owns it, no offer is open, the signer holds the whole supply,
/// and nothing else differs from the configuration.
pub proof fn law_a_deployed_token_ends_with_the_controller(
    c: ConfigView,
    ground: Ground,
    replies: Seq<Reply>,
)
    requires
        !c.dry_run,
        c.controller_id != c.token_id,
        succeeded(deployment_through(started(c), replies).progress),
    ensures
        ({
            let token = token_through(c, ground, replies);
            &&& token is Some
            &&& token->0.owner == c.controller_id
            &&& token->0.pending is None
            &&& token->0.supply == c.total_supply_yocto
            &&& token->0.balance(c.signer_id) == c.total_supply_yocto
            &&& token->0.price == c.initial_price
            &&& token->0.metadata is Some
            &&& token->0.metadata->0.name == c.token_name
            &&& token->0.metadata->0.symbol == c.token_symbol
            &&& token->0.metadata->0.decimals == c.token_decimals
            &&& !token->0.paused
        }),
{
    lemma_token_stands(c, ground, replies);
}

/// Every task concerns the account that it should: the controller's code goes to the controller's
/// account and the token's to the token's; the controller is initialized for the signer; an account
/// is created below the signer, with the balance that was configured, and deleted in favour of the
/// signer; the registry is the controller's, and the owner that is read is the token's.
pub proof fn law_every_task_concerns_its_account(c: ConfigView, code: Seq<u8>, stage: Stage)
    ensures
        match task_of(c, code, stage) {
            TaskView::Deploy { account_id, code, init_args } => match code {
                Role::Controller => account_id == c.controller_id && init_args
                    == controller_args_text(c.signer_id),
                Role::Token => account_id == c.token_id,
            },
            TaskView::CreateAccount { account_id, prefix, balance } => {
                &&& balance == c.initial_balance
                &&& account_id == c.controller_id || account_id == c.token_id
                &&& prefix_below(account_id, c.signer_id) is Some ==> account_id == prefix + "."@
                    + c.signer_id && prefix.len() > 0
            },
            TaskView::ConfirmCreate { account_id, balance } => balance == c.initial_balance && (
            account_id == c.controller_id || account_id == c.token_id),
            TaskView::Delete { account_id, beneficiary } => beneficiary == c.signer_id && (
            account_id == c.controller_id || account_id == c.token_id),
            TaskView::Upload { receiver_id, method, args, deposit } => {
                &&& receiver_id == c.controller_id
                &&& args == code
                &&& release_deposit(code.len()) <= u128::MAX ==> deposit == byte_cost()
                    * code.len() + 1_000_000_000_000_000_000_000_000
            },
            TaskView::View { receiver_id, method, args } => {
                ||| receiver_id == c.controller_id && method == "get_deployment"@ && args
                    == "{\"account_id\":\""@ + c.token_id + "\"}"@
                ||| receiver_id == c.token_id && method == "owner_get"@ && args.len() == 0
            },
            TaskView::Call { receiver_id, method, deposit, max_gas, .. } => if receiver_id
                == c.token_id && method == "owner_set"@ {
                deposit == 0 && !max_gas
            } else {
                receiver_id == c.controller_id && deposit == 1 && max_gas
            },
            _ => true,
        },
        stage matches Stage::Creating(role) ==> concerns(c, role, task_of(c, code, stage)),
        stage matches Stage::Viewing(role) ==> concerns(c, role, task_of(c, code, stage)),
        stage matches Stage::Loading(role) ==> concerns(c, role, task_of(c, code, stage)),
        stage matches Stage::Confirming(role) ==> concerns(c, role, task_of(c, code, stage)),
        stage matches Stage::Storing(role) ==> concerns(c, role, task_of(c, code, stage)),
        stage matches Stage::Deploying(role) ==> concerns(c, role, task_of(c, code, stage)),
        stage matches Stage::Deleting(role) ==> concerns(c, role, task_of(c, code, stage)),
{
    lemma_methods_differ();
    law_the_upload_pays_for_its_storage(code.len());
    let query = "{\"account_id\":\""@ + c.token_id + "\"}"@;
    assert(deployment_query_text(c.token_id) == query) by {
        reveal_strlit("{");
        reveal_strlit("}");
        reveal_strlit("\"");
        reveal_strlit(":");
        reveal_strlit("account_id");
        reveal_strlit("{\"account_id\":\"");
        reveal_strlit("\"}");
        assert(deployment_query_text(c.token_id) =~= query);
    }
    match stage {
        Stage::Creating(role) => {
            let id = match role {
                Role::Controller => c.controller_id,
                Role::Token => c.token_id,
            };
            let suffix = "."@ + c.signer_id;
            if prefix_below(id, c.signer_id) is Some {
                reveal_strlit(".");
                assert("."@.len() == 1);
                assert(ends_with(id, suffix));
                let prefix = prefix_below(id, c.signer_id)->0;
                assert(id =~= prefix + id.skip(id.len() - suffix.len()));
                assert(prefix + suffix =~= prefix + "."@ + c.signer_id);
            }
        },
        _ => {},
    }
}

/// The account that a task is about is the one of the role.
pub open spec fn concerns(c: ConfigView, role: Role, task: TaskView) -> bool {
    let id = match role {
        Role::Controller => c.controller_id,
        Role::Token => c.token_id,
    };
    match task {
        TaskView::ViewAccount { account_id } => account_id == id,
        TaskView::LoadAccount { account_id } => account_id == id,
        TaskView::ConfirmCreate { account_id, .. } => account_id == id,
        TaskView::CreateAccount { account_id, .. } => account_id == id,
        TaskView::StoreCredentials { account_id } => account_id == id,
        TaskView::Deploy { account_id, code, .. } => account_id == id && code == role,
        TaskView::Delete { account_id, .. } => account_id == id,
        _ => false,
    }
}

/// The deposit of an upload pays for the storage of its bytes, as the runtime charges it, and for one
/// NEAR besides.
pub proof fn law_the_upload_pays_for_its_storage(bytes: nat)
    ensures
        release_deposit(bytes) == byte_cost() * bytes + 1_000_000_000_000_000_000_000_000,
{
    assert(byte_cost() * bytes == bytes * byte_cost()) by (nonlinear_arith);
}

/// An account lies below another exactly where its name ends with a point and the other's name; what
/// stands before is the name that it adds.
pub proof fn law_an_account_below_adds_its_prefix(
    id: Seq<char>,
    prefix: Seq<char>,
    above: Seq<char>,
)
    ensures
        prefix.len() > 0 && id == prefix + "."@ + above <==> prefix_below(id, above) == Some(prefix),
{
    reveal_strlit(".");
    assert("."@.len() == 1);
    let suffix = "."@ + above;
    if prefix.len() > 0 && id == prefix + "."@ + above {
        assert(id =~= prefix + suffix);
        assert(id.skip(id.len() - suffix.len()) =~= suffix);
        assert(id.take(id.len() - (above.len() + 1)) =~= prefix);
    }
    if prefix_below(id, above) == Some(prefix) {
        assert(id =~= prefix + id.skip(id.len() - suffix.len()));
        assert(prefix + suffix =~= prefix + "."@ + above);
    }
}

/// A deployment starts as it is configured: a dry run is done, a test creates the controller's account
/// or fails where that does not lie below the signer, and any other looks that account up.
pub proof fn law_a_deployment_starts_as_configured(c: ConfigView)
    ensures
        ({
            let p = started(c).progress;
            let below = prefix_below(c.controller_id, c.signer_id) is Some;
            &&& c.dry_run ==> p.stage is Done && !p.failed
            &&& !c.dry_run && c.test_mode && below ==> p.stage == Stage::Creating(Role::Controller)
            &&& !c.dry_run && c.test_mode && !below ==> p.stage is Done && p.failed
            &&& !c.dry_run && !c.test_mode ==> p.stage == Stage::Viewing(Role::Controller)
            &&& !p.created_controller && !p.created_token
        }),
{
}

/// What came of the tasks of a run.
pub open spec fn verdicts_of(c: ConfigView, replies: Seq<Reply>) -> Seq<Verdict>
    decreases replies.len(),
{
    if replies.len() == 0 {
        Seq::empty()
    } else {
        let d = deployment_through(started(c), replies.drop_last());
        verdicts_of(c, replies.drop_last()).push(
            verdict_of(judgement(d.config, d.code, d.progress.stage, replies.last())),
        )
    }
}

proof fn lemma_run_is_a_course(c: ConfigView, replies: Seq<Reply>)
    ensures
        deployment_through(started(c), replies).config == c,
        deployment_through(started(c), replies).progress == progress_after(
            terms_of(c),
            verdicts_of(c, replies),
        ),
        verdicts_of(c, replies).len() == replies.len(),
    decreases replies.len(),
{
    if replies.len() > 0 {
        lemma_run_is_a_course(c, replies.drop_last());
        let verdicts = verdicts_of(c, replies);
        assert(verdicts.drop_last() =~= verdicts_of(c, replies.drop_last()));
    }
}

proof fn lemma_verdicts_up_to(c: ConfigView, replies: Seq<Reply>, i: int)
    requires
        0 <= i <= replies.len(),
    ensures
        verdicts_of(c, replies).take(i) == verdicts_of(c, replies.take(i)),
    decreases replies.len(),
{
    lemma_run_is_a_course(c, replies);
    lemma_run_is_a_course(c, replies.take(i));
    if i == replies.len() {
        assert(replies.take(i) =~= replies);
        assert(verdicts_of(c, replies).take(i) =~= verdicts_of(c, replies));
    } else {
        let before = replies.drop_last();
        lemma_verdicts_up_to(c, before, i);
        lemma_run_is_a_course(c, before);
        assert(before.take(i) =~= replies.take(i));
        assert(verdicts_of(c, replies).take(i) =~= verdicts_of(c, before).take(i));
    }
}

/// A test that is over, well or not, has tried to delete every account that it created; and so has any
/// deployment that failed.
pub proof fn law_a_test_leaves_no_account(c: ConfigView, replies: Seq<Reply>)
    requires
        ({
            let p = deployment_through(started(c), replies).progress;
            p.stage is Done && (c.test_mode || p.failed)
        }),
    ensures
        ({
            let p = deployment_through(started(c), replies).progress;
            !p.created_controller && !p.created_token
        }),
{
    lemma_run_is_a_course(c, replies);
    law_nothing_created_is_left(terms_of(c), verdicts_of(c, replies));
}

/// In a run that succeeds the token's owner was read back, and it was the controller.
pub proof fn law_a_run_that_succeeds_read_the_owner_back(c: ConfigView, replies: Seq<Reply>)
    requires
        !c.dry_run,
        succeeded(deployment_through(started(c), replies).progress),
    ensures
        exists|i: int|
            {
                &&& 0 <= i < replies.len()
                &&& next_task(#[trigger] deployment_through(started(c), replies.take(i)))
                    == TaskView::View {
                    receiver_id: c.token_id,
                    method: "owner_get"@,
                    args: Seq::empty(),
                }
                &&& replies[i] is Bytes
                &&& string_text(replies[i]->Bytes_0@) == Some(c.controller_id)
            },
{
    lemma_run_is_a_course(c, replies);
    let verdicts = verdicts_of(c, replies);
    law_success_means_verified(terms_of(c), verdicts);
    let i = choose|i: int|
        0 <= i < verdicts.len() && verdicts[i] == Verdict::Good && #[trigger] progress_after(
            terms_of(c),
            verdicts.take(i),
        ).stage == Stage::ReadingOwner;
    lemma_verdicts_up_to(c, replies, i);
    lemma_verdicts_up_to(c, replies, i + 1);
    lemma_run_is_a_course(c, replies.take(i));
    let d = deployment_through(started(c), replies.take(i));
    assert(d.progress.stage == Stage::ReadingOwner);
    assert(replies.take(i + 1).drop_last() =~= replies.take(i));
    assert(replies.take(i + 1).last() == replies[i]);
    assert(verdicts.take(i + 1)[i] == verdicts[i]);
    lemma_run_is_a_course(c, replies.take(i));
    assert(verdicts_of(c, replies.take(i + 1))[i] == verdict_of(
        judgement(c, d.code, d.progress.stage, replies[i]),
    ));
}

} // verus!
