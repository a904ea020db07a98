//! What holds of the contract's calls as the runtime makes them: for the account that it told to have
//! called, the deposit that it told to be attached, and the reply that it handed over.
use crate::contract::{
    burn_text, closes_for_caller, closing_text, error_text, performs_for_caller,
    settles_in_callback, storage_balance, upgrades_for_caller,
};
use crate::events::EventView;
use crate::host::{Answer, Request};
use crate::json::amount_value;
use crate::model::{after, event, fault, wasm_magic, Call, ContractError, Op, State};
use crate::text::{
    contains_text, decimal_text, ends_with, lemma_stands_after, lemma_stands_before,
    lemma_stands_in_itself, starts_with,
};
use vstd::prelude::*;

verus! {

/// The runtime told, after `heard`, that `caller` called.
pub open spec fn told_caller(heard: Seq<Answer>, heard_after: Seq<Answer>, caller: Seq<char>) -> bool {
    &&& heard_after.len() > heard.len()
    &&& heard_after[heard.len() as int] == Answer::Caller { id: caller }
}

/// The runtime told, after `heard`, that `caller` called and attached `deposit`.
pub open spec fn told_call(
    heard: Seq<Answer>,
    heard_after: Seq<Answer>,
    caller: Seq<char>,
    deposit: u128,
) -> bool {
    &&& told_caller(heard, heard_after, caller)
    &&& heard_after.len() > heard.len() + 1
    &&& heard_after[heard.len() as int + 1] == Answer::Deposit { amount: deposit }
}

/// Whoever the runtime told to have called is refused everything that is the owner's, unless it is
/// the owner: nothing changes, and nothing is asked of the runtime.
pub proof fn law_the_owners_calls_are_the_owners(
    pre: State,
    asked: Seq<Request>,
    heard: Seq<Answer>,
    op: Op,
    post: State,
    asked_after: Seq<Request>,
    heard_after: Seq<Answer>,
    error: Option<ContractError>,
    caller: Seq<char>,
)
    requires
        performs_for_caller(pre, asked, heard, op, post, asked_after, heard_after, error),
        told_caller(heard, heard_after, caller),
        caller != pre.owner,
        op is Pause || op is Unpause || op is Freeze || op is Unfreeze || op is SetPrice
            || op is ProposeOwner || op is CancelTransfer || op is Upgrade || op is ForceTransfer,
    ensures
        error == Some(ContractError::NotOwner),
        post == pre,
        asked_after == asked,
{
}

/// Ownership is taken only by the account that the runtime told to have called, and only where it
/// was offered to it.
pub proof fn law_ownership_goes_to_the_caller(
    pre: State,
    asked: Seq<Request>,
    heard: Seq<Answer>,
    post: State,
    asked_after: Seq<Request>,
    heard_after: Seq<Answer>,
    error: Option<ContractError>,
    caller: Seq<char>,
)
    requires
        performs_for_caller(
            pre,
            asked,
            heard,
            Op::AcceptOwner,
            post,
            asked_after,
            heard_after,
            error,
        ),
        told_caller(heard, heard_after, caller),
    ensures
        error is None <==> pre.pending == Some(caller),
        error is None ==> post == (State { owner: caller, pending: None, ..pre }),
        error is Some ==> post == pre && asked_after == asked,
{
}

/// A forced transfer succeeds exactly for the owner, with one yoctoNEAR attached, between two
/// registered accounts of which the first holds the amount, paused or frozen or not. It moves the
/// amount and nothing else, and logs the transfer with its memo.
pub proof fn law_a_forced_transfer_moves_for_the_owner(
    pre: State,
    asked: Seq<Request>,
    heard: Seq<Answer>,
    sender: Seq<char>,
    receiver: Seq<char>,
    amount: u128,
    memo: Option<Seq<char>>,
    post: State,
    asked_after: Seq<Request>,
    heard_after: Seq<Answer>,
    error: Option<ContractError>,
    caller: Seq<char>,
    deposit: u128,
)
    requires
        performs_for_caller(
            pre,
            asked,
            heard,
            Op::ForceTransfer { sender, receiver, amount, memo },
            post,
            asked_after,
            heard_after,
            error,
        ),
        told_call(heard, heard_after, caller, deposit),
    ensures
        error is None <==> {
            &&& caller == pre.owner
            &&& deposit == 1
            &&& sender != receiver
            &&& 0 < amount <= pre.balance(sender)
            &&& amount <= pre.supply
            &&& pre.registered(sender)
            &&& pre.registered(receiver)
            &&& pre.balance(receiver) + amount <= u128::MAX
        },
        error is Some ==> post == pre && asked_after == asked,
        error is None ==> {
            &&& moves(pre, sender, receiver, amount, post)
            &&& asked_after.len() == asked.len() + 2
            &&& asked_after[asked.len() as int] == Request::Transfer {
                sender,
                receiver,
                amount,
                memo,
            }
        },
{
    if error is None {
        assert(post.balances.dom() =~= pre.balances.dom());
    }
}

/// `post` is `pre` with `amount` moved from `sender` to `receiver` and nothing else changed.
pub open spec fn moves(
    pre: State,
    sender: Seq<char>,
    receiver: Seq<char>,
    amount: u128,
    post: State,
) -> bool {
    &&& post.balance(sender) == pre.balance(sender) - amount
    &&& post.balance(receiver) == pre.balance(receiver) + amount
    &&& forall|id: Seq<char>|
        id != sender && id != receiver ==> #[trigger] post.balance(id) == pre.balance(id)
    &&& post.balances.dom() == pre.balances.dom()
    &&& post == (State { balances: post.balances, ..pre })
}

/// A holder's transfer moves the tokens of the account that the runtime told to have called, with
/// one yoctoNEAR attached, and only while transfers are not paused and neither account is frozen.
pub proof fn law_a_transfer_moves_the_callers_tokens(
    pre: State,
    asked: Seq<Request>,
    heard: Seq<Answer>,
    receiver: Seq<char>,
    amount: u128,
    memo: Option<Seq<char>>,
    post: State,
    asked_after: Seq<Request>,
    heard_after: Seq<Answer>,
    error: Option<ContractError>,
    caller: Seq<char>,
    deposit: u128,
)
    requires
        performs_for_caller(
            pre,
            asked,
            heard,
            Op::Transfer { receiver, amount, memo },
            post,
            asked_after,
            heard_after,
            error,
        ),
        told_call(heard, heard_after, caller, deposit),
    ensures
        error is None <==> {
            &&& !pre.paused
            &&& !pre.frozen.contains(caller)
            &&& !pre.frozen.contains(receiver)
            &&& deposit == 1
            &&& caller != receiver
            &&& 0 < amount <= pre.balance(caller)
            &&& amount <= pre.supply
            &&& pre.registered(caller)
            &&& pre.registered(receiver)
            &&& pre.balance(receiver) + amount <= u128::MAX
        },
        error is Some ==> post == pre && asked_after == asked,
        error is None ==> {
            &&& moves(pre, caller, receiver, amount, post)
            &&& asked_after == asked.push(
                Request::Transfer { sender: caller, receiver, amount, memo },
            )
        },
{
    if error is None {
        assert(post.balances.dom() =~= pre.balances.dom());
        assert(asked_after =~= asked.push(
            Request::Transfer { sender: caller, receiver, amount, memo },
        ));
    }
}

/// The payments among the requests after the first `from`.
pub open spec fn pays(asked: Seq<Request>, from: int) -> Seq<(Seq<char>, u128)>
    decreases asked.len(),
{
    if asked.len() <= from || asked.len() == 0 {
        Seq::empty()
    } else {
        let earlier = pays(asked.drop_last(), from);
        match asked.last() {
            Request::Pay { to, amount } => earlier.push((to, amount)),
            _ => earlier,
        }
    }
}

/// Registering succeeds exactly where the account is registered already or the deposit covers its
/// cost, and touches no balance and no other account. What was attached beyond the cost of a new
/// account, and all of it where nothing was registered, goes back in one payment to the account that
/// the runtime told to have called, whichever account is registered.
pub proof fn law_registering_pays_back_the_caller(
    pre: State,
    asked: Seq<Request>,
    heard: Seq<Answer>,
    account: Option<Seq<char>>,
    post: State,
    asked_after: Seq<Request>,
    heard_after: Seq<Answer>,
    error: Option<ContractError>,
    caller: Seq<char>,
    deposit: u128,
)
    requires
        performs_for_caller(
            pre,
            asked,
            heard,
            Op::Register { account },
            post,
            asked_after,
            heard_after,
            error,
        ),
        told_call(heard, heard_after, caller, deposit),
    ensures
        ({
            let id = match account {
                Some(named) => named,
                None => caller,
            };
            let back = if pre.registered(id) {
                deposit as int
            } else {
                deposit - pre.account_cost()
            };
            &&& error is None <==> pre.registered(id) || deposit >= pre.account_cost()
            &&& error is Some ==> post == pre && asked_after == asked
            &&& error is None ==> {
                &&& post.balances.dom() == pre.balances.dom().insert(id)
                &&& forall|other: Seq<char>| #[trigger] post.balance(other) == pre.balance(other)
                &&& post == (State { balances: post.balances, ..pre })
                &&& back == 0 ==> pays(asked_after, asked.len() as int) == Seq::<
                    (Seq<char>, u128),
                >::empty()
                &&& back > 0 ==> pays(asked_after, asked.len() as int) == seq![
                    (caller, back as u128),
                ]
            }
        }),
{
    let id = match account {
        Some(named) => named,
        None => caller,
    };
    if error is None {
        assert(post.balances.dom() =~= pre.balances.dom().insert(id));
        let n = asked.len() as int;
        let added = asked_after.len() - n;
        assert(added <= 2);
        reveal_with_fuel(pays, 4);
        assert(pays(asked_after.take(n), n) =~= Seq::empty());
        if added >= 1 {
            assert(asked_after.take(n + 1).drop_last() =~= asked_after.take(n));
        }
        if added == 2 {
            assert(asked_after.drop_last() =~= asked_after.take(n + 1));
        } else if added == 1 {
            assert(asked_after.take(n + 1) =~= asked_after);
        } else {
            assert(asked_after.take(n) =~= asked_after);
        }
    }
}

/// What a registered account's storage balance says is what registering it costs, which is what its
/// bytes of storage cost at ten quintillion yoctoNEAR each: with exactly that attached an
/// account is registered and nothing goes back.
pub proof fn law_the_storage_balance_is_the_cost(s: State, caller: Seq<char>, account: Seq<char>)
    requires
        !s.registered(account),
    ensures
        ({
            let total = storage_balance(s).total;
            let op = Op::Register { account: Some(account) };
            &&& total == 10_000_000_000_000_000_000 * s.account_bytes
            &&& storage_balance(s).available == 0
            &&& fault(s, Call { caller, deposit: total }, op) is None
            &&& total > 0 ==> fault(s, Call { caller, deposit: (total - 1) as u128 }, op) == Some(
                ContractError::DepositTooSmall,
            )
            &&& storage_balance(after(s, Call { caller, deposit: total }, op)) == storage_balance(s)
        }),
{
}

/// Withdrawing changes nothing and pays nothing: there is never anything available. It succeeds
/// exactly for a registered caller with one yoctoNEAR attached who asks for nothing back.
pub proof fn law_withdrawing_moves_nothing(
    pre: State,
    asked: Seq<Request>,
    heard: Seq<Answer>,
    amount: Option<u128>,
    post: State,
    asked_after: Seq<Request>,
    heard_after: Seq<Answer>,
    error: Option<ContractError>,
    caller: Seq<char>,
    deposit: u128,
)
    requires
        performs_for_caller(
            pre,
            asked,
            heard,
            Op::Withdraw { amount },
            post,
            asked_after,
            heard_after,
            error,
        ),
        told_call(heard, heard_after, caller, deposit),
    ensures
        post == pre,
        asked_after == asked,
        error is None <==> deposit == 1 && pre.registered(caller) && (amount is None || amount->0
            == 0),
{
    assert(asked + Seq::<Request>::empty() + Seq::<Request>::empty() =~= asked);
}

/// Closing closes the account that the runtime told to have called, and only an empty one. Its
/// storage cost and the attached yoctoNEAR go back in one payment to that account; nobody else's
/// account and no balance is touched.
pub proof fn law_closing_pays_out_the_caller(
    pre: State,
    asked: Seq<Request>,
    heard: Seq<Answer>,
    post: State,
    asked_after: Seq<Request>,
    heard_after: Seq<Answer>,
    r: Result<bool, ContractError>,
    caller: Seq<char>,
    deposit: u128,
)
    requires
        closes_for_caller(pre, asked, heard, post, asked_after, heard_after, r),
        told_call(heard, heard_after, caller, deposit),
        pre.account_cost() < u128::MAX,
    ensures
        r is Ok <==> deposit == 1 && pre.balance(caller) == 0,
        r is Ok ==> {
            &&& r->Ok_0 == pre.registered(caller)
            &&& post.balances.dom() == pre.balances.dom().remove(caller)
            &&& forall|other: Seq<char>| #[trigger] post.balance(other) == pre.balance(other)
            &&& post == (State { balances: post.balances, ..pre })
            &&& pays(asked_after, asked.len() as int) == if pre.registered(caller) {
                seq![(caller, (pre.account_cost() + deposit) as u128)]
            } else {
                Seq::empty()
            }
        },
        r is Err ==> post == pre && asked_after == asked,
{
    if r is Ok {
        assert(post.balances.dom() =~= pre.balances.dom().remove(caller));
        let n = asked.len() as int;
        reveal_with_fuel(pays, 4);
        assert(pays(asked_after.take(n), n) =~= Seq::empty());
        assert(asked_after.take(n + 1).drop_last() =~= asked_after.take(n));
        if pre.registered(caller) {
            assert(asked_after.drop_last() =~= asked_after.take(n + 1));
        } else {
            assert(asked_after.take(n + 1) =~= asked_after);
        }
    }
}

/// An upgrade deploys exactly the code that was handed over, once, on the account that the runtime
/// told to be the contract's own; and only for the owner, with one yoctoNEAR attached, for a WASM
/// module and without a migration. The state does not change.
pub proof fn law_an_upgrade_goes_to_the_contract_itself(
    pre: State,
    asked: Seq<Request>,
    heard: Seq<Answer>,
    code: Seq<u8>,
    migration_gas: Option<u64>,
    post: State,
    asked_after: Seq<Request>,
    heard_after: Seq<Answer>,
    error: Option<ContractError>,
    caller: Seq<char>,
    deposit: u128,
    own: Seq<char>,
)
    requires
        upgrades_for_caller(
            pre,
            asked,
            heard,
            code,
            migration_gas,
            post,
            asked_after,
            heard_after,
            error,
        ),
        told_call(heard, heard_after, caller, deposit),
        heard_after.len() == heard.len() + 3,
        heard_after[heard.len() as int + 2] == (Answer::OwnAccount { id: own }),
    ensures
        post == pre,
        error is None <==> {
            &&& caller == pre.owner
            &&& deposit == 1
            &&& migration_gas is None
            &&& code.len() >= 4
            &&& code[0] == 0x00 && code[1] == 0x61 && code[2] == 0x73 && code[3] == 0x6d
        },
        asked_after == if error is None {
            asked.push(Request::Deploy { account: own, code })
        } else {
            asked
        },
{
    if code.len() >= 4 {
        assert(code.take(4).len() == 4);
        assert(code.take(4) == wasm_magic() ==> {
            &&& code[0] == code.take(4)[0]
            &&& code[1] == code.take(4)[1]
            &&& code[2] == code.take(4)[2]
            &&& code[3] == code.take(4)[3]
        });
        if code[0] == 0x00 && code[1] == 0x61 && code[2] == 0x73 && code[3] == 0x6d {
            assert(code.take(4) =~= wasm_magic());
        }
    }
}

/// A transfer with a call is refused for want of a reply exactly where the runtime told that the call
/// was handed none. Otherwise it is settled on the reply that the runtime handed over: what the
/// receiver says it did not use, all where it failed or says no amount, but never more than was sent
/// or than it still holds, goes back to the sender, and the rest counts as used. With the sender no
/// longer registered, so much is destroyed instead, and all counts as used.
pub proof fn law_a_transfer_is_settled_on_its_reply(
    pre: State,
    asked: Seq<Request>,
    heard: Seq<Answer>,
    sender: Seq<char>,
    receiver: Seq<char>,
    amount: u128,
    post: State,
    asked_after: Seq<Request>,
    heard_after: Seq<Answer>,
    r: Result<u128, ContractError>,
    count: u64,
    back: u128,
)
    requires
        settles_in_callback(
            pre,
            asked,
            heard,
            sender,
            receiver,
            amount,
            post,
            asked_after,
            heard_after,
            r,
        ),
        heard_after.len() > heard.len(),
        heard_after[heard.len() as int] == (Answer::Results { count }),
        sender != receiver,
        count > 0 ==> heard_after.len() > heard.len() + 1 && heard_after[heard.len() as int + 1] is Reply
            && takes_back(
            pre,
            receiver,
            amount,
            heard_after[heard.len() as int + 1]->Reply_bytes,
            back,
        ),
    ensures
        r == Err::<u128, ContractError>(ContractError::NoPromiseResult) <==> count == 0,
        r is Err ==> post == pre && asked_after == asked,
        count > 0 && pre.registered(sender) ==> {
            &&& r is Ok <==> pre.balance(sender) + back <= u128::MAX
            &&& r is Ok ==> {
                &&& r->Ok_0 == amount - back
                &&& back > 0 ==> moves(pre, receiver, sender, back, post)
                &&& back == 0 ==> post == pre
            }
        },
        count > 0 && !pre.registered(sender) ==> {
            &&& r is Ok <==> back <= pre.supply
            &&& r is Ok ==> {
                &&& r->Ok_0 == amount
                &&& post.supply == pre.supply - back
                &&& post.balance(receiver) == pre.balance(receiver) - back
                &&& forall|id: Seq<char>|
                    id != receiver ==> #[trigger] post.balance(id) == pre.balance(id)
            }
        },
{
    if count > 0 && r is Ok {
        assert(post.balances.dom() =~= pre.balances.dom());
        if back == 0 {
            assert(post =~= pre);
        }
    }
    if count > 0 && r is Err {
        assert(asked_after =~= asked);
    }
}

/// `back` is what is taken back from `receiver` of a transfer of `amount` to which it replied
/// `reply`: what it says, all where it says no amount, capped at the amount and at what it holds.
pub open spec fn takes_back(
    pre: State,
    receiver: Seq<char>,
    amount: u128,
    reply: Option<Seq<u8>>,
    back: u128,
) -> bool {
    let said = match reply {
        Some(bytes) => amount_value(bytes),
        None => None,
    };
    &&& back <= amount
    &&& back <= pre.balance(receiver)
    &&& said is Some ==> back <= said->0
    &&& back == amount || back == pre.balance(receiver) || said == Some(back)
}

/// Every call of the contract asks the runtime who calls before anything else, and what is attached
/// where that counts. An upgrade asks for the contract's own account besides; settling a transfer
/// asks how many promise results there are, and for the first where there is one. What was heard
/// before stays as it was.
pub proof fn law_every_call_asks_who_calls(
    pre: State,
    asked: Seq<Request>,
    heard: Seq<Answer>,
    op: Op,
    post: State,
    asked_after: Seq<Request>,
    heard_after: Seq<Answer>,
    error: Option<ContractError>,
    closed: Result<bool, ContractError>,
    used: Result<u128, ContractError>,
    sender: Seq<char>,
    receiver: Seq<char>,
    amount: u128,
    code: Seq<u8>,
    migration_gas: Option<u64>,
)
    ensures
        performs_for_caller(pre, asked, heard, op, post, asked_after, heard_after, error) ==> {
            &&& heard_after.len() > heard.len()
            &&& heard_after.take(heard.len() as int) == heard
            &&& heard_after[heard.len() as int] is Caller
            &&& op is ForceTransfer || op is Transfer || op is Register || op is Withdraw ==> {
                &&& heard_after.len() > heard.len() + 1
                &&& heard_after[heard.len() as int + 1] is Deposit
            }
        },
        closes_for_caller(pre, asked, heard, post, asked_after, heard_after, closed) ==> {
            &&& heard_after.len() > heard.len() + 1
            &&& heard_after.take(heard.len() as int) == heard
            &&& heard_after[heard.len() as int] is Caller
            &&& heard_after[heard.len() as int + 1] is Deposit
        },
        upgrades_for_caller(
            pre,
            asked,
            heard,
            code,
            migration_gas,
            post,
            asked_after,
            heard_after,
            error,
        ) ==> {
            &&& heard_after.len() == heard.len() + 3
            &&& heard_after.take(heard.len() as int) == heard
            &&& heard_after[heard.len() as int] is Caller
            &&& heard_after[heard.len() as int + 1] is Deposit
            &&& heard_after[heard.len() as int + 2] is OwnAccount
        },
        settles_in_callback(
            pre,
            asked,
            heard,
            sender,
            receiver,
            amount,
            post,
            asked_after,
            heard_after,
            used,
        ) ==> {
            &&& heard_after.len() > heard.len()
            &&& heard_after.take(heard.len() as int) == heard
            &&& heard_after[heard.len() as int] is Results
            &&& heard_after[heard.len() as int]->Results_count > 0 ==> {
                &&& heard_after.len() > heard.len() + 1
                &&& heard_after[heard.len() as int + 1] is Reply
            }
        },
{
    if performs_for_caller(pre, asked, heard, op, post, asked_after, heard_after, error) {
        assert(heard_after.take(heard.len() as int) =~= heard);
    }
    if closes_for_caller(pre, asked, heard, post, asked_after, heard_after, closed) {
        assert(heard_after.take(heard.len() as int) =~= heard);
    }
    if upgrades_for_caller(
        pre,
        asked,
        heard,
        code,
        migration_gas,
        post,
        asked_after,
        heard_after,
        error,
    ) {
        assert(heard_after.take(heard.len() as int) =~= heard);
    }
    if settles_in_callback(
        pre,
        asked,
        heard,
        sender,
        receiver,
        amount,
        post,
        asked_after,
        heard_after,
        used,
    ) {
        assert(heard_after.take(heard.len() as int) =~= heard);
    }
}

/// A movement of tokens between two accounts.
pub ghost struct Movement {
    pub sender: Seq<char>,
    pub receiver: Seq<char>,
    pub amount: u128,
}

/// The movement that an operation asks for.
pub open spec fn movement(call: Call, op: Op) -> Option<Movement> {
    match op {
        Op::Transfer { receiver, amount, .. } => Some(
            Movement { sender: call.caller, receiver, amount },
        ),
        Op::ForceTransfer { sender, receiver, amount, .. } => Some(
            Movement { sender, receiver, amount },
        ),
        _ => None,
    }
}

/// A call is refused for a reason that holds of it: for every error, what it says is so.
pub proof fn law_a_refusal_is_true_of_the_call(s: State, call: Call, op: Op)
    requires
        fault(s, call, op) is Some,
    ensures
        ({
            let m = movement(call, op);
            match fault(s, call, op)->0 {
                ContractError::NotOwner => call.caller != s.owner && !(op is Transfer) && !(
                op is Settle) && !(op is Register) && !(op is Withdraw) && !(op is Unregister) && !(
                op is AcceptOwner),
                ContractError::NotPendingOwner => op is AcceptOwner && s.pending != Some(
                    call.caller,
                ),
                ContractError::OneYocto => call.deposit != 1 && (m is Some || op is Upgrade
                    || op is Withdraw || op is Unregister),
                ContractError::Paused => op is Transfer && s.paused,
                ContractError::SenderFrozen => op is Transfer && s.frozen.contains(call.caller),
                ContractError::ReceiverFrozen => op is Transfer && s.frozen.contains(m->0.receiver),
                ContractError::SameAccount => m is Some && m->0.sender == m->0.receiver,
                ContractError::ZeroAmount => m is Some && m->0.amount == 0,
                ContractError::SenderNotRegistered => m is Some && !s.registered(m->0.sender),
                ContractError::ReceiverNotRegistered => m is Some && !s.registered(m->0.receiver),
                ContractError::NotEnoughBalance => m is Some && s.registered(m->0.sender) && s.balance(
                    m->0.sender,
                ) < m->0.amount,
                ContractError::BalanceOverflow => m is Some && s.balance(m->0.receiver) + m->0.amount
                    > u128::MAX,
                ContractError::SupplyOverflow => m is Some && s.supply < m->0.amount || op is Settle
                    && !s.registered(op->Settle_sender),
                ContractError::SenderBalanceOverflow => op is Settle && s.registered(
                    op->Settle_sender,
                ),
                ContractError::CallerNotRegistered => op is Withdraw && !s.registered(call.caller),
                ContractError::WithdrawTooMuch => op is Withdraw && op->Withdraw_amount is Some
                    && op->Withdraw_amount->0 > 0,
                ContractError::HoldsBalance => op is Unregister && s.balance(call.caller) > 0,
                ContractError::DepositTooSmall => op is Register && call.deposit
                    < s.account_cost(),
                ContractError::StateMigration => op is Upgrade && op->Upgrade_migration_gas is Some,
                ContractError::NotWasm => op is Upgrade && !(op->Upgrade_code.len() >= 4
                    && op->Upgrade_code[0] == 0x00 && op->Upgrade_code[1] == 0x61
                    && op->Upgrade_code[2] == 0x73 && op->Upgrade_code[3] == 0x6d),
                _ => false,
            }
        }),
{
    if op is Upgrade && op->Upgrade_code.len() >= 4 {
        let code = op->Upgrade_code;
        if code[0] == 0x00 && code[1] == 0x61 && code[2] == 0x73 && code[3] == 0x6d {
            assert(code.take(4) =~= wasm_magic());
        }
    }
}

/// Whoever may not act is told so first, a holder is told of a pause before anything else, and of a
/// frozen account before a fault of the transfer.
pub proof fn law_the_first_reason_is_told(s: State, call: Call, op: Op)
    ensures
        call.caller != s.owner && (op is ForceTransfer || op is Upgrade) ==> fault(s, call, op)
            == Some(ContractError::NotOwner),
        op is Transfer && s.paused ==> fault(s, call, op) == Some(ContractError::Paused),
        op is Transfer && !s.paused && s.frozen.contains(call.caller) ==> fault(s, call, op) == Some(
            ContractError::SenderFrozen,
        ),
        op is Transfer && !s.paused && !s.frozen.contains(call.caller) && s.frozen.contains(
            op->Transfer_receiver,
        ) ==> fault(s, call, op) == Some(ContractError::ReceiverFrozen),
        op is Withdraw && call.deposit != 1 ==> fault(s, call, op) == Some(ContractError::OneYocto),
        op is Unregister && s.balance(call.caller) > 0 ==> fault(s, call, op) == Some(
            ContractError::HoldsBalance,
        ),
{
}

/// Settling a transfer of an account to itself changes nothing: what goes back comes from where it
/// goes. What the account says it did not use, as far as it holds it, does not count as used.
pub proof fn law_settling_with_oneself_changes_nothing(
    pre: State,
    asked: Seq<Request>,
    heard: Seq<Answer>,
    account: Seq<char>,
    amount: u128,
    post: State,
    asked_after: Seq<Request>,
    heard_after: Seq<Answer>,
    r: Result<u128, ContractError>,
    count: u64,
    back: u128,
)
    requires
        settles_in_callback(
            pre,
            asked,
            heard,
            account,
            account,
            amount,
            post,
            asked_after,
            heard_after,
            r,
        ),
        heard_after.len() > heard.len() + 1,
        heard_after[heard.len() as int] == (Answer::Results { count }),
        heard_after[heard.len() as int + 1] is Reply,
        takes_back(
            pre,
            account,
            amount,
            heard_after[heard.len() as int + 1]->Reply_bytes,
            back,
        ),
    ensures
        post == pre,
        r == Ok::<u128, ContractError>((amount - back) as u128),
{
    assert(post.balances =~= pre.balances);
}

/// Every event tells what its call did: who called, the account that is frozen or not afterwards,
/// the price before and after, the owner before and after, the offer that is open afterwards or was
/// open before, and the accounts between which an amount moved.
pub proof fn law_events_tell_what_happened(s: State, call: Call, op: Op)
    requires
        fault(s, call, op) is None,
        event(s, call, op) is Some,
    ensures
        ({
            let t = after(s, call, op);
            match event(s, call, op)->0 {
                EventView::Paused { by } => by == call.caller && t == (State { paused: true, ..s }),
                EventView::Unpaused { by } => by == call.caller && t == (State {
                    paused: false,
                    ..s
                }),
                EventView::AccountFrozen { by, account_id } => by == call.caller && t == (State {
                    frozen: s.frozen.insert(account_id),
                    ..s
                }),
                EventView::AccountUnfrozen { by, account_id } => by == call.caller && t == (State {
                    frozen: s.frozen.remove(account_id),
                    ..s
                }),
                EventView::PriceUpdated { by, old_price, new_price } => by == call.caller
                    && old_price == s.price && t == (State { price: new_price, ..s }),
                EventView::OwnershipTransferStarted { previous_owner, new_owner } =>
                    previous_owner == s.owner && t == (State { pending: Some(new_owner), ..s }),
                EventView::OwnershipTransferCancelled { by, pending_owner } => by == s.owner
                    && pending_owner == s.pending && t == (State { pending: None, ..s }),
                EventView::OwnerChanged { old_owner, new_owner } => old_owner == s.owner
                    && new_owner == call.caller && t == (State {
                    owner: new_owner,
                    pending: None,
                    ..s
                }),
                EventView::ForceFtTransfer { by, sender_id, receiver_id, amount, memo } => by
                    == call.caller && moves(s, sender_id, receiver_id, amount, t) && op == (
                Op::ForceTransfer { sender: sender_id, receiver: receiver_id, amount, memo }),
            }
        }),
{
    assert(after(s, call, op).balances.dom() =~= s.balances.dom());
}

/// What each administrative call does to the state, and that it does nothing else.
pub proof fn law_administration_changes_only_its_subject(s: State, call: Call, op: Op)
    requires
        call.caller == s.owner,
    ensures
        op is Pause ==> after(s, call, op) == (State { paused: true, ..s }),
        op is Unpause ==> after(s, call, op) == (State { paused: false, ..s }),
        op matches Op::Freeze { account } ==> after(s, call, op) == (State {
            frozen: s.frozen.insert(account),
            ..s
        }),
        op matches Op::Unfreeze { account } ==> after(s, call, op) == (State {
            frozen: s.frozen.remove(account),
            ..s
        }),
        op matches Op::SetPrice { price } ==> after(s, call, op) == (State { price, ..s }),
        op matches Op::ProposeOwner { account } ==> after(s, call, op) == (State {
            pending: Some(account),
            ..s
        }),
        op is CancelTransfer ==> after(s, call, op) == (State { pending: None, ..s }),
        op is Pause || op is Unpause || op is Freeze || op is Unfreeze || op is SetPrice
            || op is ProposeOwner || op is CancelTransfer ==> fault(s, call, op) is None,
{
}

/// What is logged of burned tokens names the sender and the amount, and what is logged of an account
/// that was to be closed names the account and tells whether there was one.
pub proof fn law_log_lines_name_their_account(id: Seq<char>, burned: u128)
    ensures
        contains_text(burn_text(id, burned), id),
        ends_with(burn_text(id, burned), decimal_text(burned as nat)),
        contains_text(closing_text(id, true), id),
        contains_text(closing_text(id, false), id),
        starts_with(closing_text(id, true), "Closed @"@),
        ends_with(closing_text(id, false), " is not registered"@),
{
    let amount = decimal_text(burned as nat);
    lemma_stands_in_itself(id);
    lemma_stands_after("Account @"@, id, id);
    lemma_stands_before("Account @"@ + id, " burned "@, id);
    lemma_stands_before("Account @"@ + id + " burned "@, amount, id);
    let line = burn_text(id, burned);
    assert(line.skip(line.len() - amount.len()) =~= amount);
    lemma_stands_after("Closed @"@, id, id);
    lemma_stands_before("Closed @"@ + id, " with 0"@, id);
    lemma_stands_after("The account "@, id, id);
    lemma_stands_before("The account "@ + id, " is not registered"@, id);
    let closed = closing_text(id, true);
    assert(closed.take("Closed @"@.len() as int) =~= "Closed @"@);
    let unknown = closing_text(id, false);
    assert(unknown.skip(unknown.len() - " is not registered"@.len()) =~= " is not registered"@);
}

/// An account that is not registered is named by the message that says so: the sender where the sender
/// is not, or whoever calls, and the receiver where the receiver is not.
pub proof fn law_a_message_names_the_missing_account(sender: Seq<char>, receiver: Seq<char>)
    ensures
        contains_text(error_text(ContractError::SenderNotRegistered, sender, receiver), sender),
        contains_text(error_text(ContractError::CallerNotRegistered, sender, receiver), sender),
        contains_text(error_text(ContractError::ReceiverNotRegistered, sender, receiver), receiver),
{
    lemma_stands_in_itself(sender);
    lemma_stands_after("The account "@, sender, sender);
    lemma_stands_before("The account "@ + sender, " is not registered"@, sender);
    lemma_stands_in_itself(receiver);
    lemma_stands_after("The account "@, receiver, receiver);
    lemma_stands_before("The account "@ + receiver, " is not registered"@, receiver);
}

} // verus!
