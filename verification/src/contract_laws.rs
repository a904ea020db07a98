//! What holds of the contract as a whole, over [`crate::model`].
use crate::contract::{init_fault, initial_state, ledger_requests, requests};
use crate::events::{event_log, EventView};
use crate::host::Request;
use crate::metadata::MetadataView;
use crate::model::{
    after, called_by, event, fault, move_fault, moved, privileged, registered_account, Call,
    ContractError, Op, State,
};
use crate::token::{balance_in, refund_of};
use vstd::prelude::*;

verus! {

/// The sum of all balances.
pub open spec fn total(balances: Map<Seq<char>, u128>) -> nat
    decreases balances.dom().len(),
    when balances.dom().finite()
{
    if balances.dom().len() == 0 {
        0
    } else {
        let id = balances.dom().choose();
        balances[id] as nat + total(balances.remove(id))
    }
}

/// The reported supply is the sum of all balances.
pub open spec fn consistent(s: State) -> bool {
    s.balances.dom().finite() && total(s.balances) == s.supply
}

/// The amounts of a settlement are in order: not more is unused than was sent.
pub open spec fn sensible(op: Op) -> bool {
    match op {
        Op::Settle { amount, unused, .. } => unused <= amount,
        _ => true,
    }
}

/// The state after a call, which is the state before where the call is refused.
pub open spec fn step(s: State, call: Call, op: Op) -> State {
    if fault(s, call, op) is None {
        after(s, call, op)
    } else {
        s
    }
}

/// The state after a history of calls.
pub open spec fn run(s: State, history: Seq<(Call, Op)>) -> State
    decreases history.len(),
{
    if history.len() == 0 {
        s
    } else {
        let last = history.last();
        step(run(s, history.drop_last()), last.0, last.1)
    }
}

proof fn lemma_total_remove(m: Map<Seq<char>, u128>, id: Seq<char>)
    requires
        m.dom().finite(),
        m.dom().contains(id),
    ensures
        total(m) == m[id] as nat + total(m.remove(id)),
    decreases m.dom().len(),
{
    let k = m.dom().choose();
    assert(m.dom().contains(k));
    assert(m.remove(k).dom() =~= m.dom().remove(k));
    if k != id {
        lemma_total_remove(m.remove(k), id);
        assert(m.remove(id).dom() =~= m.dom().remove(id));
        lemma_total_remove(m.remove(id), k);
        assert(m.remove(k).remove(id) =~= m.remove(id).remove(k));
    }
}

proof fn lemma_total_insert(m: Map<Seq<char>, u128>, id: Seq<char>, v: u128)
    requires
        m.dom().finite(),
    ensures
        total(m.insert(id, v)) + balance_in(m, id) == total(m) + v,
        m.insert(id, v).dom().finite(),
{
    let n = m.insert(id, v);
    assert(n.dom() =~= m.dom().insert(id));
    lemma_total_remove(n, id);
    if m.dom().contains(id) {
        lemma_total_remove(m, id);
        assert(n.remove(id) =~= m.remove(id));
    } else {
        assert(n.remove(id) =~= m);
    }
}

proof fn lemma_balance_below_total(m: Map<Seq<char>, u128>, id: Seq<char>)
    requires
        m.dom().finite(),
    ensures
        balance_in(m, id) <= total(m),
{
    if m.dom().contains(id) {
        lemma_total_remove(m, id);
    }
}

proof fn lemma_two_balances_below_total(m: Map<Seq<char>, u128>, a: Seq<char>, b: Seq<char>)
    requires
        m.dom().finite(),
        a != b,
    ensures
        balance_in(m, a) + balance_in(m, b) <= total(m),
{
    if m.dom().contains(a) {
        lemma_total_remove(m, a);
        assert(m.remove(a).dom() =~= m.dom().remove(a));
        lemma_balance_below_total(m.remove(a), b);
        if m.dom().contains(b) {
            assert(m.remove(a).dom().contains(b));
        }
    } else {
        lemma_balance_below_total(m, b);
    }
}

proof fn lemma_total_moved(s: State, sender: Seq<char>, receiver: Seq<char>, amount: u128)
    requires
        s.balances.dom().finite(),
        move_fault(s, sender, receiver, amount) is None,
    ensures
        moved(s, sender, receiver, amount).balances.dom().finite(),
        total(moved(s, sender, receiver, amount).balances) == total(s.balances),
{
    let less = s.balances.insert(sender, (s.balances[sender] - amount) as u128);
    lemma_total_insert(s.balances, sender, (s.balances[sender] - amount) as u128);
    lemma_total_insert(less, receiver, (s.balances[receiver] + amount) as u128);
}

/// A new contract over an empty ledger has all of its supply with the owner, and the supply is the
/// sum of all balances. It is not paused, ownership is offered to nobody, and the supply, the metadata
/// and the price are those it was given.
pub proof fn law_new_contract_is_consistent(
    account_bytes: u64,
    frozen: Set<Seq<char>>,
    owner: Seq<char>,
    supply: u128,
    m: MetadataView,
    price: u128,
)
    ensures
        ({
            let s = initial_state(Map::empty(), account_bytes, frozen, owner, supply, m, price);
            &&& consistent(s)
            &&& s.balance(owner) == supply
            &&& forall|id: Seq<char>| id != owner ==> !s.registered(id)
            &&& s.owner == owner
            &&& s.pending is None
            &&& !s.paused
            &&& s.supply == supply
            &&& s.metadata == Some(m)
            &&& s.price == price
        }),
{
    let none = Map::<Seq<char>, u128>::empty();
    lemma_total_insert(none, owner, supply);
    assert(none.dom().len() == 0);
}

/// Every call keeps the supply equal to the sum of all balances.
pub proof fn law_supply_is_the_sum_of_balances(s: State, call: Call, op: Op)
    requires
        consistent(s),
        sensible(op),
    ensures
        consistent(step(s, call, op)),
{
    if fault(s, call, op) is None {
        match op {
            Op::ForceTransfer { sender, receiver, amount, .. } => {
                lemma_total_moved(s, sender, receiver, amount);
            },
            Op::Transfer { receiver, amount, .. } => {
                lemma_total_moved(s, call.caller, receiver, amount);
            },
            Op::Register { account } => {
                let id = registered_account(call, account);
                lemma_total_insert(s.balances, id, 0);
            },
            Op::Unregister => {
                let rest = s.balances.remove(call.caller);
                assert(rest.dom() =~= s.balances.dom().remove(call.caller));
                if s.registered(call.caller) {
                    lemma_total_remove(s.balances, call.caller);
                } else {
                    assert(rest =~= s.balances);
                }
            },
            Op::Settle { sender, receiver, amount, unused } => {
                let refund = refund_of(s.balances, receiver, unused);
                if refund > 0 {
                    let taken = s.balances.insert(
                        receiver,
                        (s.balances[receiver] - refund) as u128,
                    );
                    lemma_total_insert(
                        s.balances,
                        receiver,
                        (s.balances[receiver] - refund) as u128,
                    );
                    lemma_balance_below_total(s.balances, receiver);
                    if s.registered(sender) {
                        lemma_total_insert(taken, sender, (taken[sender] + refund) as u128);
                        if sender != receiver {
                            lemma_two_balances_below_total(s.balances, sender, receiver);
                        }
                    }
                }
            },
            _ => {},
        }
    }
}

/// Whatever is called, in whatever order, the supply stays the sum of all balances.
pub proof fn law_every_history_is_consistent(s: State, history: Seq<(Call, Op)>)
    requires
        consistent(s),
        forall|i: int| 0 <= i < history.len() ==> sensible((#[trigger] history[i]).1),
    ensures
        consistent(run(s, history)),
    decreases history.len(),
{
    if history.len() > 0 {
        let before = history.drop_last();
        assert forall|i: int| 0 <= i < before.len() implies sensible((#[trigger] before[i]).1) by {
            assert(before[i] == history[i]);
        }
        law_every_history_is_consistent(s, before);
        assert(sensible(history[history.len() - 1].1));
        law_supply_is_the_sum_of_balances(
            run(s, before),
            history.last().0,
            history.last().1,
        );
    }
}

/// Where the supply is the sum of all balances, no call fails for want of room in a `u128`.
pub proof fn law_no_overflow(s: State, call: Call, op: Op)
    requires
        consistent(s),
    ensures
        fault(s, call, op) != Some(ContractError::BalanceOverflow),
        fault(s, call, op) != Some(ContractError::SupplyOverflow),
        fault(s, call, op) != Some(ContractError::SenderBalanceOverflow),
{
    match op {
        Op::ForceTransfer { sender, receiver, .. } => {
            lemma_balance_below_total(s.balances, sender);
            if sender != receiver {
                lemma_two_balances_below_total(s.balances, sender, receiver);
            }
        },
        Op::Transfer { receiver, .. } => {
            lemma_balance_below_total(s.balances, call.caller);
            if call.caller != receiver {
                lemma_two_balances_below_total(s.balances, call.caller, receiver);
            }
        },
        Op::Settle { sender, receiver, .. } => {
            lemma_balance_below_total(s.balances, receiver);
            if sender != receiver {
                lemma_two_balances_below_total(s.balances, sender, receiver);
            }
        },
        _ => {},
    }
}

/// The supply changes only where a transfer is settled whose sender is not registered any more;
/// closing an account never destroys tokens.
pub proof fn law_only_a_lost_sender_burns(s: State, call: Call, op: Op)
    requires
        !(op is Settle) || s.registered(op->Settle_sender),
    ensures
        step(s, call, op).supply == s.supply,
{
}

/// A settled transfer takes back at most what was unused and at most what the receiver holds; with
/// the sender still registered, the sender gains what the receiver loses.
pub proof fn law_settlement_moves_at_most_the_unused(
    s: State,
    sender: Seq<char>,
    receiver: Seq<char>,
    amount: u128,
    unused: u128,
)
    requires
        unused <= amount,
        sender != receiver,
        fault(s, called_by(s.owner), Op::Settle { sender, receiver, amount, unused }) is None,
    ensures
        ({
            let t = after(s, called_by(s.owner), Op::Settle { sender, receiver, amount, unused });
            let back = s.balance(receiver) - t.balance(receiver);
            &&& 0 <= back <= unused
            &&& back == unused || t.balance(receiver) == 0
            &&& s.registered(sender) ==> t.balance(sender) == s.balance(sender) + back
            &&& !s.registered(sender) ==> t.supply == s.supply - back
            &&& forall|id: Seq<char>|
                id != sender && id != receiver ==> t.balance(id) == s.balance(id)
        }),
{
}

/// A transfer takes the amount from the sender, gives it to the receiver and touches nobody else.
pub proof fn law_transfer_moves_exactly(
    s: State,
    sender: Seq<char>,
    receiver: Seq<char>,
    amount: u128,
)
    requires
        move_fault(s, sender, receiver, amount) is None,
    ensures
        ({
            let t = moved(s, sender, receiver, amount);
            &&& t.balance(sender) == s.balance(sender) - amount
            &&& t.balance(receiver) == s.balance(receiver) + amount
            &&& forall|id: Seq<char>|
                id != sender && id != receiver ==> t.balance(id) == s.balance(id)
            &&& t.balances.dom() == s.balances.dom()
        }),
{
    let t = moved(s, sender, receiver, amount);
    assert(t.balances.dom() =~= s.balances.dom());
}

/// Sending an amount back restores the state.
pub proof fn law_transfer_back_restores(
    s: State,
    sender: Seq<char>,
    receiver: Seq<char>,
    amount: u128,
)
    requires
        move_fault(s, sender, receiver, amount) is None,
    ensures
        move_fault(moved(s, sender, receiver, amount), receiver, sender, amount) is None,
        moved(moved(s, sender, receiver, amount), receiver, sender, amount) == s,
{
    let t = moved(s, sender, receiver, amount);
    assert(moved(t, receiver, sender, amount).balances =~= s.balances);
}

/// A privileged call succeeds only for the owner, and everything that only the owner may change is
/// changed by nobody else.
pub proof fn law_only_the_owner_governs(s: State, call: Call, op: Op)
    requires
        call.caller != s.owner,
    ensures
        privileged(op) ==> fault(s, call, op) == Some(ContractError::NotOwner),
        step(s, call, op).paused == s.paused,
        step(s, call, op).frozen == s.frozen,
        step(s, call, op).price == s.price,
        step(s, call, op).owner != s.owner ==> op is AcceptOwner && s.pending == Some(call.caller),
        step(s, call, op).pending != s.pending ==> op is AcceptOwner && s.pending == Some(
            call.caller,
        ),
{
}

/// Nobody moves a holder's tokens but the holder, the owner and the settling of a transfer that
/// the contract made.
pub proof fn law_balances_fall_only_by_authority(s: State, call: Call, op: Op, id: Seq<char>)
    requires
        sensible(op),
        step(s, call, op).balance(id) < s.balance(id),
    ensures
        match op {
            Op::Transfer { .. } => call.caller == id,
            Op::ForceTransfer { sender, .. } => call.caller == s.owner && sender == id,
            Op::Settle { receiver, .. } => receiver == id,
            _ => false,
        },
{
}

/// Ownership moves only to the account that it was offered to, and only when that account takes it.
pub proof fn law_ownership_moves_only_by_acceptance(s: State, call: Call, op: Op)
    requires
        step(s, call, op).owner != s.owner,
    ensures
        op is AcceptOwner,
        s.pending == Some(call.caller),
        step(s, call, op).owner == call.caller,
        step(s, call, op).pending is None,
{
}

/// Offering ownership leaves the owner in place; exactly the account to which it was last offered
/// can take it; and the former owner is then refused every privileged call.
pub proof fn law_ownership_takes_two_steps(s: State, new_owner: Seq<char>, other: Seq<char>, op: Op)
    requires
        other != new_owner,
    ensures
        ({
            let offered = step(s, called_by(s.owner), Op::ProposeOwner { account: new_owner });
            let taken = step(offered, called_by(new_owner), Op::AcceptOwner);
            &&& offered == (State { pending: Some(new_owner), ..s })
            &&& fault(offered, called_by(other), Op::AcceptOwner) == Some(
                ContractError::NotPendingOwner,
            )
            &&& fault(offered, called_by(new_owner), Op::AcceptOwner) is None
            &&& taken == (State { owner: new_owner, pending: None, ..s })
            &&& s.owner != new_owner && privileged(op) ==> fault(taken, called_by(s.owner), op)
                == Some(ContractError::NotOwner)
            &&& fault(taken, called_by(s.owner), Op::AcceptOwner) == Some(
                ContractError::NotPendingOwner,
            )
        }),
{
}

/// A later offer replaces an earlier one.
pub proof fn law_an_offer_is_replaced(s: State, first: Seq<char>, second: Seq<char>)
    requires
        first != second,
    ensures
        ({
            let once = step(s, called_by(s.owner), Op::ProposeOwner { account: first });
            let twice = step(once, called_by(s.owner), Op::ProposeOwner { account: second });
            &&& twice == step(s, called_by(s.owner), Op::ProposeOwner { account: second })
            &&& fault(twice, called_by(first), Op::AcceptOwner) == Some(
                ContractError::NotPendingOwner,
            )
        }),
{
}

/// After an offer was withdrawn nobody can take ownership.
pub proof fn law_a_cancelled_offer_is_void(s: State, anyone: Seq<char>)
    ensures
        ({
            let cancelled = step(s, called_by(s.owner), Op::CancelTransfer);
            &&& cancelled == (State { pending: None, ..s })
            &&& fault(cancelled, called_by(anyone), Op::AcceptOwner) == Some(
                ContractError::NotPendingOwner,
            )
        }),
{
}

/// Whether no call of a history offers ownership to `id`.
pub open spec fn never_offered(history: Seq<(Call, Op)>, id: Seq<char>) -> bool {
    forall|i: int|
        0 <= i < history.len() ==> (#[trigger] history[i]).1 != (Op::ProposeOwner { account: id })
}

proof fn lemma_stays_out(s: State, history: Seq<(Call, Op)>, id: Seq<char>)
    requires
        s.owner != id,
        s.pending != Some(id),
        never_offered(history, id),
    ensures
        run(s, history).owner != id,
        run(s, history).pending != Some(id),
    decreases history.len(),
{
    if history.len() > 0 {
        let before = history.drop_last();
        assert forall|i: int| 0 <= i < before.len() implies (#[trigger] before[i]).1
            != (Op::ProposeOwner { account: id }) by {
            assert(before[i] == history[i]);
        }
        lemma_stays_out(s, before, id);
        assert(history[history.len() - 1].1 != (Op::ProposeOwner { account: id }));
    }
}

/// Once ownership was handed over, the former owner stays out, through any later history in which it
/// is not offered ownership again: every privileged call and every acceptance of the former owner is
/// refused.
pub proof fn law_a_former_owner_stays_out(
    s: State,
    new_owner: Seq<char>,
    history: Seq<(Call, Op)>,
    deposit: u128,
    op: Op,
)
    requires
        s.owner != new_owner,
        never_offered(history, s.owner),
    ensures
        ({
            let offered = step(s, called_by(s.owner), Op::ProposeOwner { account: new_owner });
            let taken = step(offered, called_by(new_owner), Op::AcceptOwner);
            let later = run(taken, history);
            let call = Call { caller: s.owner, deposit };
            &&& later.owner != s.owner
            &&& privileged(op) ==> fault(later, call, op) == Some(ContractError::NotOwner)
            &&& fault(later, call, Op::AcceptOwner) == Some(ContractError::NotPendingOwner)
        }),
{
    let offered = step(s, called_by(s.owner), Op::ProposeOwner { account: new_owner });
    let taken = step(offered, called_by(new_owner), Op::AcceptOwner);
    lemma_stays_out(taken, history, s.owner);
}

/// A cancelled offer stays void through any later history in which it is not made again: the account
/// to which it was made does not become the owner and cannot accept.
pub proof fn law_a_cancelled_offer_stays_void(
    s: State,
    account: Seq<char>,
    history: Seq<(Call, Op)>,
    deposit: u128,
)
    requires
        s.owner != account,
        never_offered(history, account),
    ensures
        ({
            let offered = step(s, called_by(s.owner), Op::ProposeOwner { account });
            let cancelled = step(offered, called_by(s.owner), Op::CancelTransfer);
            let later = run(cancelled, history);
            &&& later.owner != account
            &&& later.pending != Some(account)
            &&& fault(later, Call { caller: account, deposit }, Op::AcceptOwner) == Some(
                ContractError::NotPendingOwner,
            )
        }),
{
    let offered = step(s, called_by(s.owner), Op::ProposeOwner { account });
    let cancelled = step(offered, called_by(s.owner), Op::CancelTransfer);
    lemma_stays_out(cancelled, history, account);
}

/// While transfers are paused no transfer of a holder succeeds; whether an account is frozen does
/// not matter then.
pub proof fn law_pausing_stops_transfers(
    s: State,
    call: Call,
    receiver: Seq<char>,
    amount: u128,
    memo: Option<Seq<char>>,
)
    ensures
        ({
            let paused = step(s, called_by(s.owner), Op::Pause);
            &&& paused == (State { paused: true, ..s })
            &&& fault(paused, call, Op::Transfer { receiver, amount, memo }) == Some(
                ContractError::Paused,
            )
        }),
{
}

/// Pausing twice is pausing once, and unpausing gives back the contract as it was before.
pub proof fn law_unpausing_undoes_pausing(s: State)
    ensures
        ({
            let paused = step(s, called_by(s.owner), Op::Pause);
            &&& step(paused, called_by(s.owner), Op::Pause) == paused
            &&& step(paused, called_by(s.owner), Op::Unpause) == (State { paused: false, ..s })
            &&& !s.paused ==> step(paused, called_by(s.owner), Op::Unpause) == s
        }),
{
}

/// A frozen account neither sends nor receives by a holder's transfer, and the sender is named
/// first where both are frozen.
pub proof fn law_freezing_stops_transfers(
    s: State,
    call: Call,
    account: Seq<char>,
    receiver: Seq<char>,
    amount: u128,
    memo: Option<Seq<char>>,
)
    requires
        !s.paused,
        account == call.caller || account == receiver,
    ensures
        ({
            let frozen = step(s, called_by(s.owner), Op::Freeze { account });
            let refused = fault(frozen, call, Op::Transfer { receiver, amount, memo });
            &&& account == call.caller ==> refused == Some(ContractError::SenderFrozen)
            &&& account != call.caller ==> refused == Some(ContractError::SenderFrozen) || refused
                == Some(ContractError::ReceiverFrozen)
        }),
{
}

/// Freezing twice is freezing once, and unfreezing gives back the contract as it was before.
pub proof fn law_unfreezing_undoes_freezing(s: State, account: Seq<char>)
    ensures
        ({
            let frozen = step(s, called_by(s.owner), Op::Freeze { account });
            let thawed = step(frozen, called_by(s.owner), Op::Unfreeze { account });
            &&& step(frozen, called_by(s.owner), Op::Freeze { account }) == frozen
            &&& !thawed.frozen.contains(account)
            &&& !s.frozen.contains(account) ==> thawed == s
        }),
{
    let frozen = step(s, called_by(s.owner), Op::Freeze { account });
    let thawed = step(frozen, called_by(s.owner), Op::Unfreeze { account });
    assert(step(frozen, called_by(s.owner), Op::Freeze { account }) =~= frozen);
    if !s.frozen.contains(account) {
        assert(thawed =~= s);
    }
}

/// What a forced transfer does to the balances, and whether it is refused, does not depend on what
/// is paused or frozen.
pub proof fn law_forced_transfers_ignore_pause_and_freeze(
    s: State,
    paused: bool,
    frozen: Set<Seq<char>>,
    call: Call,
    sender: Seq<char>,
    receiver: Seq<char>,
    amount: u128,
    memo: Option<Seq<char>>,
)
    ensures
        ({
            let t = State { paused, frozen, ..s };
            let op = Op::ForceTransfer { sender, receiver, amount, memo };
            &&& fault(t, call, op) == fault(s, call, op)
            &&& after(t, call, op).balances == after(s, call, op).balances
        }),
{
}

/// An account that holds tokens is never closed, and closing one changes no balance.
pub proof fn law_closing_destroys_nothing(s: State, call: Call, id: Seq<char>)
    ensures
        s.balance(call.caller) > 0 ==> fault(s, call, Op::Unregister) == Some(
            ContractError::HoldsBalance,
        ),
        step(s, call, Op::Unregister).balance(id) == s.balance(id),
        step(s, call, Op::Unregister).supply == s.supply,
{
}

/// Closing an account that was just registered gives back the contract as it was before.
pub proof fn law_closing_undoes_registering(s: State, caller: Seq<char>, deposit: u128)
    requires
        !s.registered(caller),
        deposit >= s.account_cost(),
    ensures
        ({
            let opened = step(s, Call { caller, deposit }, Op::Register { account: None });
            &&& opened.registered(caller)
            &&& opened.balance(caller) == 0
            &&& step(opened, Call { caller, deposit: 1 }, Op::Unregister) == s
        }),
{
    let opened = step(s, Call { caller, deposit }, Op::Register { account: None });
    assert(step(opened, Call { caller, deposit: 1 }, Op::Unregister) =~= s);
}

/// Registering an account that is registered changes nothing.
pub proof fn law_registering_twice_is_registering_once(s: State, call: Call, account: Option<Seq<char>>)
    requires
        fault(s, call, Op::Register { account }) is None,
    ensures
        ({
            let once = after(s, call, Op::Register { account });
            &&& fault(once, call, Op::Register { account }) is None
            &&& after(once, call, Op::Register { account }) == once
        }),
{
}

/// Every successful administrative call logs one event, also where it changes nothing, and no
/// other call does; it is the last thing that the call asks, and the only one but for what the
/// ledger logs of a forced transfer. The one privileged call without an event of its own is the
/// upgrade. A refused call asks nothing of the runtime.
pub proof fn law_every_administrative_call_reports(s: State, call: Call, op: Op)
    ensures
        event(s, call, op) is Some <==> (privileged(op) && !(op is Upgrade)) || op is AcceptOwner,
        event(s, call, op) is Some && fault(s, call, op) is None ==> requests(s, call, op)
            == ledger_requests(s, call, op).push(
            Request::Log { text: event_log(event(s, call, op)->0) },
        ),
        !(op is ForceTransfer) && !(op is Transfer) && !(op is Settle) ==> ledger_requests(
            s,
            call,
            op,
        ) == Seq::<Request>::empty(),
        fault(s, call, op) is Some ==> requests(s, call, op) == Seq::<Request>::empty(),
{
    if event(s, call, op) is Some && fault(s, call, op) is None {
        assert(requests(s, call, op) =~= ledger_requests(s, call, op).push(
            Request::Log { text: event_log(event(s, call, op)->0) },
        ));
    }
}

/// Every successful transfer, by a holder or by the owner, logs one NEP-141 event of a transfer,
/// with its accounts, its amount and its memo. So does settling a transfer, for what goes back to the
/// sender, and no other call does.
pub proof fn law_every_transfer_is_logged(s: State, call: Call, op: Op)
    requires
        fault(s, call, op) is None,
    ensures
        op matches Op::Transfer { receiver, amount, memo } ==> requests(s, call, op) == seq![
            Request::Transfer { sender: call.caller, receiver, amount, memo },
        ],
        op matches Op::ForceTransfer { sender, receiver, amount, memo } ==> {
            &&& requests(s, call, op).len() == 2
            &&& requests(s, call, op)[0] == Request::Transfer { sender, receiver, amount, memo }
            &&& requests(s, call, op)[1] is Log
        },
        op matches Op::Settle { sender, receiver, unused, .. } ==> {
            let refund = refund_of(s.balances, receiver, unused);
            &&& refund == 0 ==> requests(s, call, op) == Seq::<Request>::empty()
            &&& refund > 0 && s.registered(sender) ==> requests(s, call, op) == seq![
                Request::Transfer {
                    sender: receiver,
                    receiver: sender,
                    amount: refund,
                    memo: Some("refund"@),
                },
            ]
        },
        !(op is Transfer) && !(op is ForceTransfer) && !(op is Settle) ==> forall|i: int|
            0 <= i < requests(s, call, op).len() ==> !(#[trigger] requests(s, call, op)[i]
                is Transfer),
{
    if op is Transfer {
        assert(requests(s, call, op) =~= ledger_requests(s, call, op));
    }
}

/// Only registering and closing an account pay out, and only to the caller: the deposit where the
/// account was registered before, what exceeds the cost of an account where it was not, and that
/// cost with the attached yoctoNEAR where an account is closed.
pub proof fn law_payouts_are_covered(s: State, call: Call, op: Op, i: int)
    requires
        s.account_cost() < u128::MAX,
        0 <= i < requests(s, call, op).len(),
        requests(s, call, op)[i] is Pay,
    ensures
        requests(s, call, op)[i]->Pay_to == call.caller,
        op is Register && s.registered(registered_account(call, op->Register_account))
            ==> requests(s, call, op)[i]->Pay_amount == call.deposit,
        op is Register && !s.registered(registered_account(call, op->Register_account))
            ==> requests(s, call, op)[i]->Pay_amount + s.account_cost() == call.deposit,
        op is Unregister ==> requests(s, call, op)[i]->Pay_amount == s.account_cost()
            + call.deposit,
        op is Register || op is Unregister,
{
}

/// The price that is read is the price that was last published, and its report holds both.
pub proof fn law_price_reads_back(s: State, price: u128)
    ensures
        step(s, called_by(s.owner), Op::SetPrice { price }) == (State { price, ..s }),
        event(s, called_by(s.owner), Op::SetPrice { price }) == Some(
            EventView::PriceUpdated { by: s.owner, old_price: s.price, new_price: price },
        ),
{
}

/// No call changes the metadata or the storage that an account takes, and none but a registration
/// and a closing changes who is registered.
pub proof fn law_what_no_call_changes(s: State, call: Call, op: Op)
    ensures
        step(s, call, op).metadata == s.metadata,
        step(s, call, op).account_bytes == s.account_bytes,
        !(op is Register) && !(op is Unregister) ==> step(s, call, op).balances.dom()
            == s.balances.dom(),
{
    assert(!(op is Register) && !(op is Unregister) ==> step(s, call, op).balances.dom()
        =~= s.balances.dom());
}

/// A contract is set up exactly where it has no state yet and its metadata is of version `ft-1.0.0`,
/// has a link and a hash or neither, and a hash of 32 bytes.
pub proof fn law_only_sound_metadata_is_accepted(exists: bool, m: MetadataView)
    ensures
        init_fault(exists, m) is None <==> {
            &&& !exists
            &&& m.spec == "ft-1.0.0"@
            &&& m.reference is Some <==> m.reference_hash is Some
            &&& m.reference_hash is Some ==> m.reference_hash->0.len() == 32
        },
        exists ==> init_fault(exists, m) == Some(ContractError::AlreadyInitialized),
        init_fault(exists, m) == Some(ContractError::MetadataHashLength) ==> m.reference_hash is Some
            && m.reference_hash->0.len() != 32,
{
}

} // verus!
