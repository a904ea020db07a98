//! The contract as a mathematical state machine: what each call is refused for, what it changes
//! and what it reports.
use crate::events::EventView;
use crate::metadata::MetadataView;
use crate::token::{balance_in, burned_by, refund_of, refunded, registration_cost};
use vstd::prelude::*;

verus! {

/// Why the contract refuses a call.
#[derive(Clone, Copy, PartialEq, Eq, Structural, Debug)]
pub enum ContractError {
    /// A privileged method was called by someone who is not the owner.
    NotOwner,
    /// Ownership was accepted by someone to whom it was not offered.
    NotPendingOwner,
    /// Ownership cannot be moved in one step.
    SingleStepTransfer,
    /// The method wants exactly one yoctoNEAR attached.
    OneYocto,
    /// Token transfers are paused.
    Paused,
    SenderFrozen,
    ReceiverFrozen,
    /// Sender and receiver are one account.
    SameAccount,
    ZeroAmount,
    SenderNotRegistered,
    ReceiverNotRegistered,
    /// The caller has no account with the token.
    CallerNotRegistered,
    NotEnoughBalance,
    BalanceOverflow,
    SupplyOverflow,
    SenderBalanceOverflow,
    /// The contract has state already.
    AlreadyInitialized,
    /// The account has an entry in the ledger already.
    AlreadyRegistered,
    /// The metadata has a version other than `ft-1.0.0`, or a link without a hash.
    InvalidMetadata,
    /// The hash in the metadata does not have 32 bytes.
    MetadataHashLength,
    /// An upgrade asked for a state migration.
    StateMigration,
    /// The code of an upgrade is not a WASM module.
    NotWasm,
    /// The account that is to be closed still holds tokens.
    HoldsBalance,
    /// The deposit does not cover the storage of an account.
    DepositTooSmall,
    /// More was asked back than the storage balance has available.
    WithdrawTooMuch,
    /// A transfer is settled outside the callback that has its result.
    NoPromiseResult,
}

/// The state of the contract.
#[verifier::ext_equal]
pub ghost struct State {
    /// Registered accounts with their balances.
    pub balances: Map<Seq<char>, u128>,
    pub supply: u128,
    /// The bytes of storage that one account takes.
    pub account_bytes: u64,
    pub metadata: Option<MetadataView>,
    pub frozen: Set<Seq<char>>,
    pub paused: bool,
    pub owner: Seq<char>,
    /// The account to which ownership is offered.
    pub pending: Option<Seq<char>>,
    pub price: u128,
}

/// Who calls and what is attached, in yoctoNEAR.
pub ghost struct Call {
    pub caller: Seq<char>,
    pub deposit: u128,
}

/// What is called.
#[allow(inconsistent_fields)]
pub ghost enum Op {
    Pause,
    Unpause,
    Freeze { account: Seq<char> },
    Unfreeze { account: Seq<char> },
    SetPrice { price: u128 },
    ProposeOwner { account: Seq<char> },
    AcceptOwner,
    CancelTransfer,
    Upgrade { code: Seq<u8>, migration_gas: Option<u64> },
    ForceTransfer { sender: Seq<char>, receiver: Seq<char>, amount: u128, memo: Option<Seq<char>> },
    /// A transfer by the caller, with or without a call to the receiver.
    Transfer { receiver: Seq<char>, amount: u128, memo: Option<Seq<char>> },
    /// The settling of a transfer with a call, of which `unused` was not used.
    Settle { sender: Seq<char>, receiver: Seq<char>, amount: u128, unused: u128 },
    /// The registration of an account; of the caller where none is named.
    Register { account: Option<Seq<char>> },
    Withdraw { amount: Option<u128> },
    Unregister,
}

/// A call without a deposit.
pub open spec fn called_by(caller: Seq<char>) -> Call {
    Call { caller, deposit: 0 }
}

impl State {
    pub open spec fn registered(self, id: Seq<char>) -> bool {
        self.balances.dom().contains(id)
    }

    pub open spec fn balance(self, id: Seq<char>) -> u128 {
        balance_in(self.balances, id)
    }

    /// The deposit that registers an account.
    pub open spec fn account_cost(self) -> u128 {
        registration_cost(self.account_bytes)
    }
}

/// Only the owner may do this.
pub open spec fn privileged(op: Op) -> bool {
    match op {
        Op::Pause | Op::Unpause | Op::Freeze { .. } | Op::Unfreeze { .. } | Op::SetPrice { .. }
        | Op::ProposeOwner { .. } | Op::CancelTransfer | Op::Upgrade { .. }
        | Op::ForceTransfer { .. } => true,
        _ => false,
    }
}

/// The account that a registration is for.
pub open spec fn registered_account(call: Call, account: Option<Seq<char>>) -> Seq<char> {
    match account {
        Some(id) => id,
        None => call.caller,
    }
}

/// The bytes with which a WASM module starts.
pub open spec fn wasm_magic() -> Seq<u8> {
    seq![0u8, 0x61, 0x73, 0x6d]
}

/// Why `amount` cannot move from `sender` to `receiver`.
pub open spec fn move_fault(
    s: State,
    sender: Seq<char>,
    receiver: Seq<char>,
    amount: u128,
) -> Option<ContractError> {
    if sender == receiver {
        Some(ContractError::SameAccount)
    } else if amount == 0 {
        Some(ContractError::ZeroAmount)
    } else if !s.registered(sender) {
        Some(ContractError::SenderNotRegistered)
    } else if s.balance(sender) < amount {
        Some(ContractError::NotEnoughBalance)
    } else if s.supply < amount {
        Some(ContractError::SupplyOverflow)
    } else if !s.registered(receiver) {
        Some(ContractError::ReceiverNotRegistered)
    } else if s.balance(receiver) + amount > u128::MAX {
        Some(ContractError::BalanceOverflow)
    } else {
        None
    }
}

/// The state after `amount` moved from `sender` to `receiver`.
pub open spec fn moved(s: State, sender: Seq<char>, receiver: Seq<char>, amount: u128) -> State {
    State {
        balances: s.balances.insert(sender, (s.balances[sender] - amount) as u128).insert(
            receiver,
            (s.balances[receiver] + amount) as u128,
        ),
        ..s
    }
}

/// Why an upgrade is refused, once it is the owner who asks.
pub open spec fn upgrade_fault(
    deposit: u128,
    code: Seq<u8>,
    migration_gas: Option<u64>,
) -> Option<ContractError> {
    if deposit != 1 {
        Some(ContractError::OneYocto)
    } else if migration_gas is Some {
        Some(ContractError::StateMigration)
    } else if !(code.len() >= 4 && code.take(4) == wasm_magic()) {
        Some(ContractError::NotWasm)
    } else {
        None
    }
}

/// Why a transfer of which `unused` was not used cannot be settled: what goes back would leave the
/// range of `u128`.
pub open spec fn settle_fault(
    s: State,
    sender: Seq<char>,
    receiver: Seq<char>,
    unused: u128,
) -> Option<ContractError> {
    let refund = refund_of(s.balances, receiver, unused);
    if s.registered(sender) {
        if sender != receiver && s.balance(sender) + refund > u128::MAX {
            Some(ContractError::SenderBalanceOverflow)
        } else {
            None
        }
    } else if s.supply < refund {
        Some(ContractError::SupplyOverflow)
    } else {
        None
    }
}

/// What a call is refused for.
pub open spec fn fault(s: State, call: Call, op: Op) -> Option<ContractError> {
    if privileged(op) && call.caller != s.owner {
        Some(ContractError::NotOwner)
    } else {
        match op {
            Op::Pause | Op::Unpause | Op::Freeze { .. } | Op::Unfreeze { .. }
            | Op::SetPrice { .. } | Op::ProposeOwner { .. } | Op::CancelTransfer => None,
            Op::AcceptOwner => if s.pending == Some(call.caller) {
                None
            } else {
                Some(ContractError::NotPendingOwner)
            },
            Op::Upgrade { code, migration_gas } => upgrade_fault(call.deposit, code, migration_gas),
            Op::ForceTransfer { sender, receiver, amount, .. } => if call.deposit != 1 {
                Some(ContractError::OneYocto)
            } else {
                move_fault(s, sender, receiver, amount)
            },
            Op::Transfer { receiver, amount, .. } => if s.paused {
                Some(ContractError::Paused)
            } else if s.frozen.contains(call.caller) {
                Some(ContractError::SenderFrozen)
            } else if s.frozen.contains(receiver) {
                Some(ContractError::ReceiverFrozen)
            } else if call.deposit != 1 {
                Some(ContractError::OneYocto)
            } else {
                move_fault(s, call.caller, receiver, amount)
            },
            Op::Settle { sender, receiver, unused, .. } => settle_fault(
                s,
                sender,
                receiver,
                unused,
            ),
            Op::Register { account } => if !s.registered(registered_account(call, account))
                && call.deposit < s.account_cost() {
                Some(ContractError::DepositTooSmall)
            } else {
                None
            },
            Op::Withdraw { amount } => if call.deposit != 1 {
                Some(ContractError::OneYocto)
            } else if !s.registered(call.caller) {
                Some(ContractError::CallerNotRegistered)
            } else if amount is Some && amount->0 > 0 {
                Some(ContractError::WithdrawTooMuch)
            } else {
                None
            },
            Op::Unregister => if s.balance(call.caller) != 0 {
                Some(ContractError::HoldsBalance)
            } else if call.deposit != 1 {
                Some(ContractError::OneYocto)
            } else {
                None
            },
        }
    }
}

/// The state after a call that is not refused.
pub open spec fn after(s: State, call: Call, op: Op) -> State {
    match op {
        Op::Pause => State { paused: true, ..s },
        Op::Unpause => State { paused: false, ..s },
        Op::Freeze { account } => State { frozen: s.frozen.insert(account), ..s },
        Op::Unfreeze { account } => State { frozen: s.frozen.remove(account), ..s },
        Op::SetPrice { price } => State { price, ..s },
        Op::ProposeOwner { account } => State { pending: Some(account), ..s },
        Op::AcceptOwner => State { owner: call.caller, pending: None, ..s },
        Op::CancelTransfer => State { pending: None, ..s },
        Op::Upgrade { .. } => s,
        Op::ForceTransfer { sender, receiver, amount, .. } => moved(s, sender, receiver, amount),
        Op::Transfer { receiver, amount, .. } => moved(s, call.caller, receiver, amount),
        Op::Settle { sender, receiver, unused, .. } => {
            let refund = refund_of(s.balances, receiver, unused);
            State {
                balances: refunded(s.balances, sender, receiver, refund),
                supply: (s.supply - burned_by(s.balances, sender, refund)) as u128,
                ..s
            }
        },
        Op::Register { account } => {
            let id = registered_account(call, account);
            if s.registered(id) {
                s
            } else {
                State { balances: s.balances.insert(id, 0), ..s }
            }
        },
        Op::Withdraw { .. } => s,
        Op::Unregister => State { balances: s.balances.remove(call.caller), ..s },
    }
}

/// The event that a successful call reports.
pub open spec fn event(s: State, call: Call, op: Op) -> Option<EventView> {
    match op {
        Op::Pause => Some(EventView::Paused { by: call.caller }),
        Op::Unpause => Some(EventView::Unpaused { by: call.caller }),
        Op::Freeze { account } => Some(
            EventView::AccountFrozen { by: call.caller, account_id: account },
        ),
        Op::Unfreeze { account } => Some(
            EventView::AccountUnfrozen { by: call.caller, account_id: account },
        ),
        Op::SetPrice { price } => Some(
            EventView::PriceUpdated { by: call.caller, old_price: s.price, new_price: price },
        ),
        Op::ProposeOwner { account } => Some(
            EventView::OwnershipTransferStarted { previous_owner: s.owner, new_owner: account },
        ),
        Op::AcceptOwner => Some(
            EventView::OwnerChanged { old_owner: s.owner, new_owner: call.caller },
        ),
        Op::CancelTransfer => Some(
            EventView::OwnershipTransferCancelled { by: s.owner, pending_owner: s.pending },
        ),
        Op::ForceTransfer { sender, receiver, amount, memo } => Some(
            EventView::ForceFtTransfer {
                by: call.caller,
                sender_id: sender,
                receiver_id: receiver,
                amount,
                memo,
            },
        ),
        _ => None,
    }
}

/// `op` in `call` takes `pre` to `post` and ends with `error`: a refused call changes nothing.
pub open spec fn performs(
    pre: State,
    call: Call,
    op: Op,
    post: State,
    error: Option<ContractError>,
) -> bool {
    &&& error == fault(pre, call, op)
    &&& post == if fault(pre, call, op) is None {
        after(pre, call, op)
    } else {
        pre
    }
}

/// The error of a result, if it has one.
pub open spec fn error_of<T>(r: Result<T, ContractError>) -> Option<ContractError> {
    match r {
        Ok(_) => None,
        Err(e) => Some(e),
    }
}

} // verus!
