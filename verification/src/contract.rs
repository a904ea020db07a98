//! The cNEAR contract: a fungible token whose owner can pause transfers, freeze accounts, move
//! balances, publish a price and hand the contract over in two steps.
//!
//! A method that depends on the call around it (who called, what was attached) reads that from the
//! runtime and hands it to a method that takes it as an argument, whose name ends in `_by`.
use crate::account::{copy_opt_account, opt_account, AccountId};
use crate::events::{event_log, ContractEvent};
use crate::frozen::{self, frozen_members, FrozenAccounts};
use crate::host::{self, unused_of, Answer, Callback, Journal, Request};
use crate::metadata::{
    self, metadata_fault, stored_metadata, MetadataFault, MetadataView, TokenMetadata,
};
use crate::model::{
    called_by, error_of, event, fault, move_fault, moved, performs, registered_account,
    wasm_magic, Call, ContractError, Op, State,
};
use crate::text::{copy_opt, decimal, decimal_text, opt_text};
use crate::token::{
    self, burned_by, refund_of, refund_requests, saturated,
    token_account_bytes, token_balances, token_supply,
};
use near_contract_standards::fungible_token::metadata::FungibleTokenMetadata;
use near_contract_standards::fungible_token::FungibleToken;
use near_sdk::collections::LazyOption;
use near_sdk::Promise;
use vstd::prelude::*;

verus! {

/// Where the contract keeps its collections.
#[derive(Clone, Copy, PartialEq, Eq, Structural, Debug)]
pub enum StorageKey {
    FungibleToken,
    Metadata,
    FrozenAccounts,
}

/// The prefix under which a collection is stored: the number of the key, as one byte.
pub open spec fn key_bytes(key: StorageKey) -> Seq<u8> {
    match key {
        StorageKey::FungibleToken => seq![0u8],
        StorageKey::Metadata => seq![1u8],
        StorageKey::FrozenAccounts => seq![2u8],
    }
}

impl StorageKey {
    /// The prefix of the collection.
    pub fn prefix(self) -> (r: Vec<u8>)
        ensures
            r@ == key_bytes(self),
    {
        let mut r: Vec<u8> = Vec::new();
        match self {
            StorageKey::FungibleToken => r.push(0),
            StorageKey::Metadata => r.push(1),
            StorageKey::FrozenAccounts => r.push(2),
        }
        r
    }
}

/// The storage deposit of an account, in yoctoNEAR.
#[derive(Clone, Copy, PartialEq, Eq, Structural, Debug)]
pub struct StorageBalance {
    pub total: u128,
    pub available: u128,
}

/// The least and greatest storage deposit of an account, in yoctoNEAR.
#[derive(Clone, Copy, PartialEq, Eq, Structural, Debug)]
pub struct StorageBalanceBounds {
    pub min: u128,
    pub max: Option<u128>,
}

/// What a registration did.
#[derive(Clone, Copy, PartialEq, Eq, Structural, Debug)]
pub struct Registration {
    pub balance: StorageBalance,
    /// Whether the account was registered before.
    pub known: bool,
    /// What goes back to the caller, in yoctoNEAR.
    pub refund: u128,
}

/// The call that a transfer makes to its receiver.
#[derive(Debug)]
pub struct ReceiverCall {
    pub sender_id: AccountId,
    pub receiver_id: AccountId,
    pub amount: u128,
    pub msg: String,
}

/// The contract.
pub struct Contract {
    token: FungibleToken,
    metadata: LazyOption<FungibleTokenMetadata>,
    frozen_accounts: FrozenAccounts,
    paused: bool,
    owner_id: AccountId,
    /// The proposed next owner, until it accepts or the transfer is cancelled.
    pending_owner: Option<AccountId>,
    latest_price: u128,
    journal: Journal,
}

impl View for Contract {
    type V = State;

    closed spec fn view(&self) -> State {
        State {
            balances: token_balances(self.token),
            supply: token_supply(self.token),
            account_bytes: token_account_bytes(self.token),
            metadata: stored_metadata(self.metadata),
            frozen: frozen_members(self.frozen_accounts),
            paused: self.paused,
            owner: self.owner_id@,
            pending: opt_account(self.pending_owner),
            price: self.latest_price,
        }
    }
}

/// The contract taken apart, to be kept in storage between calls.
pub struct ContractParts {
    pub token: FungibleToken,
    pub metadata: LazyOption<FungibleTokenMetadata>,
    pub frozen_accounts: FrozenAccounts,
    pub paused: bool,
    pub owner_id: AccountId,
    pub pending_owner: Option<AccountId>,
    pub latest_price: u128,
}

impl View for ContractParts {
    type V = State;

    open spec fn view(&self) -> State {
        State {
            balances: token_balances(self.token),
            supply: token_supply(self.token),
            account_bytes: token_account_bytes(self.token),
            metadata: stored_metadata(self.metadata),
            frozen: frozen_members(self.frozen_accounts),
            paused: self.paused,
            owner: self.owner_id@,
            pending: opt_account(self.pending_owner),
            price: self.latest_price,
        }
    }
}

impl Contract {
    /// What was asked of the runtime through this value, in order.
    pub closed spec fn journal(self) -> Seq<Request> {
        self.journal@
    }

    /// What the runtime told this value of the calls that ran, in order.
    pub closed spec fn heard(self) -> Seq<Answer> {
        self.journal.answers()
    }

    /// The contract that `parts` make up.
    pub fn from_parts(parts: ContractParts) -> (r: Contract)
        ensures
            r@ == parts@,
            r.journal() == Seq::<Request>::empty(),
            r.heard() == Seq::<Answer>::empty(),
    {
        Contract {
            token: parts.token,
            metadata: parts.metadata,
            frozen_accounts: parts.frozen_accounts,
            paused: parts.paused,
            owner_id: parts.owner_id,
            pending_owner: parts.pending_owner,
            latest_price: parts.latest_price,
            journal: Journal::new(),
        }
    }

    /// The parts of the contract.
    pub fn into_parts(self) -> (r: ContractParts)
        ensures
            r@ == self@,
    {
        ContractParts {
            token: self.token,
            metadata: self.metadata,
            frozen_accounts: self.frozen_accounts,
            paused: self.paused,
            owner_id: self.owner_id,
            pending_owner: self.pending_owner,
            latest_price: self.latest_price,
        }
    }
}

/// Why a contract cannot be set up.
pub open spec fn init_fault(exists: bool, m: MetadataView) -> Option<ContractError> {
    if exists {
        Some(ContractError::AlreadyInitialized)
    } else {
        match metadata_fault(m) {
            Some(MetadataFault::HashLength) => Some(ContractError::MetadataHashLength),
            Some(_) => Some(ContractError::InvalidMetadata),
            None => None,
        }
    }
}

/// The state of a new contract over a ledger that holds `balances` already.
pub open spec fn initial_state(
    balances: Map<Seq<char>, u128>,
    account_bytes: u64,
    frozen: Set<Seq<char>>,
    owner: Seq<char>,
    supply: u128,
    m: MetadataView,
    price: u128,
) -> State {
    State {
        balances: balances.insert(owner, supply),
        supply,
        account_bytes,
        metadata: Some(m),
        frozen,
        paused: false,
        owner,
        pending: None,
        price,
    }
}

/// Whether a contract may be set up: it has no state yet and the metadata is sound.
pub fn check_init(exists: bool, metadata: &TokenMetadata) -> (r: Result<(), ContractError>)
    ensures
        error_of(r) == init_fault(exists, metadata@),
{
    if exists {
        return Err(ContractError::AlreadyInitialized);
    }
    match metadata.check() {
        Ok(()) => Ok(()),
        Err(MetadataFault::HashLength) => Err(ContractError::MetadataHashLength),
        Err(_) => Err(ContractError::InvalidMetadata),
    }
}

/// The storage deposit of every registered account.
pub open spec fn storage_balance(s: State) -> StorageBalance {
    StorageBalance { total: s.account_cost(), available: 0 }
}

/// What a registration reports: all of the deposit goes back where the account was registered
/// before, and what exceeds the cost of an account otherwise.
pub open spec fn registration(s: State, call: Call, account: Option<Seq<char>>) -> Registration {
    let known = s.registered(registered_account(call, account));
    Registration {
        balance: storage_balance(s),
        known,
        refund: if known {
            call.deposit
        } else {
            (call.deposit - s.account_cost()) as u128
        },
    }
}

/// What settling a transfer of which `unused` was not used reports: the amount that counts as used,
/// and the amount that was burned.
pub open spec fn settlement(
    s: State,
    sender: Seq<char>,
    receiver: Seq<char>,
    amount: u128,
    unused: u128,
) -> (u128, u128) {
    let refund = refund_of(s.balances, receiver, unused);
    let burned = burned_by(s.balances, sender, refund);
    ((amount - (refund - burned)) as u128, burned)
}

/// Setting up.
impl Contract {
    /// Sets the contract up with `total_supply` tokens, all held by `owner_id`.
    pub fn new(
        owner_id: AccountId,
        total_supply: u128,
        metadata: TokenMetadata,
        latest_price: u128,
    ) -> (r: Result<Contract, ContractError>)
        ensures
            match r {
                Ok(c) => metadata_fault(metadata@) is None && c.heard() == seq![
                    Answer::StateExists { exists: false },
                ] && c.journal() == seq![
                    Request::Mint {
                        owner: owner_id@,
                        amount: total_supply,
                        memo: "new tokens are minted"@,
                    },
                ] && exists|
                    balances: Map<Seq<char>, u128>,
                    account_bytes: u64,
                    frozen: Set<Seq<char>>,
                |
                    !balances.dom().contains(owner_id@) && c@ == #[trigger] initial_state(
                        balances,
                        account_bytes,
                        frozen,
                        owner_id@,
                        total_supply,
                        metadata@,
                        latest_price,
                    ),
                Err(e) => {
                    ||| e == ContractError::AlreadyInitialized
                    ||| init_fault(false, metadata@) == Some(e)
                    ||| metadata_fault(metadata@) is None && e == ContractError::AlreadyRegistered
                },
            },
    {
        let mut journal: Journal = Journal::new();
        match check_init(host::state_exists(&mut journal), &metadata) {
            Ok(()) => {},
            Err(e) => {
                return Err(e);
            },
        }
        let token: FungibleToken = token::new_token(StorageKey::FungibleToken.prefix());
        let owner: AccountId = owner_id.copy();
        match Contract::assemble(
            token,
            FrozenAccounts::open(),
            owner_id,
            total_supply,
            metadata,
            latest_price,
        ) {
            Ok(contract) => {
                let mut contract: Contract = contract;
                contract.journal = journal;
                contract.journal.mint(&owner, total_supply, "new tokens are minted");
                Ok(contract)
            },
            Err(e) => Err(e),
        }
    }

    /// Sets the contract up over a token without supply.
    pub fn assemble(
        token: FungibleToken,
        frozen_accounts: FrozenAccounts,
        owner_id: AccountId,
        total_supply: u128,
        metadata: TokenMetadata,
        latest_price: u128,
    ) -> (r: Result<Contract, ContractError>)
        requires
            token_supply(token) == 0,
        ensures
            match r {
                Ok(c) => !token_balances(token).dom().contains(owner_id@) && c.journal()
                    == Seq::<Request>::empty() && c.heard() == Seq::<Answer>::empty() && c@
                    == initial_state(
                    token_balances(token),
                    token_account_bytes(token),
                    frozen_members(frozen_accounts),
                    owner_id@,
                    total_supply,
                    metadata@,
                    latest_price,
                ),
                Err(e) => token_balances(token).dom().contains(owner_id@) && e
                    == ContractError::AlreadyRegistered,
            },
    {
        let mut token: FungibleToken = token;
        let ghost before = token_balances(token);
        if token::balance(&token, &owner_id).is_some() {
            return Err(ContractError::AlreadyRegistered);
        }
        let cell = metadata::store(StorageKey::Metadata.prefix(), metadata);
        token::register(&mut token, &owner_id);
        token::deposit(&mut token, &owner_id, total_supply);
        assert(token_balances(token) =~= before.insert(owner_id@, total_supply));
        Ok(
            Contract {
                token,
                metadata: cell,
                frozen_accounts,
                paused: false,
                owner_id,
                pending_owner: None,
                latest_price,
                journal: Journal::new(),
            },
        )
    }
}


/// The owner's methods, for a caller that is named.
impl Contract {
    fn only_owner(&self, caller: &AccountId) -> (r: Result<(), ContractError>)
        ensures
            error_of(r) == if caller@ == self@.owner {
                None
            } else {
                Some(ContractError::NotOwner)
            },
    {
        if self.owner_id.same(caller) {
            Ok(())
        } else {
            Err(ContractError::NotOwner)
        }
    }

    /// Pauses all transfers that are not the owner's.
    pub fn pause_by(&mut self, caller: &AccountId) -> (r: Result<ContractEvent, ContractError>)
        ensures
            final(self).heard() == old(self).heard(),
            final(self).journal() == old(self).journal(),
            performs(old(self)@, called_by(caller@), Op::Pause, final(self)@, error_of(r)),
            r is Ok ==> event(old(self)@, called_by(caller@), Op::Pause) == Some(r->Ok_0@),
    {
        match self.only_owner(caller) {
            Ok(()) => {},
            Err(e) => {
                return Err(e);
            },
        }
        self.paused = true;
        Ok(ContractEvent::Paused { by: caller.copy() })
    }

    /// Allows transfers again.
    pub fn unpause_by(&mut self, caller: &AccountId) -> (r: Result<ContractEvent, ContractError>)
        ensures
            final(self).heard() == old(self).heard(),
            final(self).journal() == old(self).journal(),
            performs(old(self)@, called_by(caller@), Op::Unpause, final(self)@, error_of(r)),
            r is Ok ==> event(old(self)@, called_by(caller@), Op::Unpause) == Some(r->Ok_0@),
    {
        match self.only_owner(caller) {
            Ok(()) => {},
            Err(e) => {
                return Err(e);
            },
        }
        self.paused = false;
        Ok(ContractEvent::Unpaused { by: caller.copy() })
    }

    /// Bars an account from transfers that are not the owner's.
    pub fn freeze_account_by(&mut self, caller: &AccountId, account_id: AccountId) -> (r: Result<
        ContractEvent,
        ContractError,
    >)
        ensures
            final(self).heard() == old(self).heard(),
            final(self).journal() == old(self).journal(),
            performs(
                old(self)@,
                called_by(caller@),
                Op::Freeze { account: account_id@ },
                final(self)@,
                error_of(r),
            ),
            r is Ok ==> event(
                old(self)@,
                called_by(caller@),
                Op::Freeze { account: account_id@ },
            ) == Some(r->Ok_0@),
    {
        match self.only_owner(caller) {
            Ok(()) => {},
            Err(e) => {
                return Err(e);
            },
        }
        frozen::insert(&mut self.frozen_accounts, &account_id);
        Ok(ContractEvent::AccountFrozen { by: caller.copy(), account_id })
    }

    /// Lets a frozen account transfer again.
    pub fn unfreeze_account_by(&mut self, caller: &AccountId, account_id: AccountId) -> (r: Result<
        ContractEvent,
        ContractError,
    >)
        ensures
            final(self).heard() == old(self).heard(),
            final(self).journal() == old(self).journal(),
            performs(
                old(self)@,
                called_by(caller@),
                Op::Unfreeze { account: account_id@ },
                final(self)@,
                error_of(r),
            ),
            r is Ok ==> event(
                old(self)@,
                called_by(caller@),
                Op::Unfreeze { account: account_id@ },
            ) == Some(r->Ok_0@),
    {
        match self.only_owner(caller) {
            Ok(()) => {},
            Err(e) => {
                return Err(e);
            },
        }
        frozen::remove(&mut self.frozen_accounts, &account_id);
        Ok(ContractEvent::AccountUnfrozen { by: caller.copy(), account_id })
    }

    /// Publishes a price.
    pub fn set_latest_price_by(&mut self, caller: &AccountId, price: u128) -> (r: Result<
        ContractEvent,
        ContractError,
    >)
        ensures
            final(self).heard() == old(self).heard(),
            final(self).journal() == old(self).journal(),
            performs(
                old(self)@,
                called_by(caller@),
                Op::SetPrice { price },
                final(self)@,
                error_of(r),
            ),
            r is Ok ==> event(old(self)@, called_by(caller@), Op::SetPrice { price }) == Some(
                r->Ok_0@,
            ),
    {
        match self.only_owner(caller) {
            Ok(()) => {},
            Err(e) => {
                return Err(e);
            },
        }
        let old_price: u128 = self.latest_price;
        self.latest_price = price;
        Ok(ContractEvent::PriceUpdated { by: caller.copy(), old_price, new_price: price })
    }

    /// Offers ownership to `new_owner`, in place of any earlier offer.
    pub fn owner_set_by(&mut self, caller: &AccountId, new_owner: AccountId) -> (r: Result<
        ContractEvent,
        ContractError,
    >)
        ensures
            final(self).heard() == old(self).heard(),
            final(self).journal() == old(self).journal(),
            performs(
                old(self)@,
                called_by(caller@),
                Op::ProposeOwner { account: new_owner@ },
                final(self)@,
                error_of(r),
            ),
            r is Ok ==> event(
                old(self)@,
                called_by(caller@),
                Op::ProposeOwner { account: new_owner@ },
            ) == Some(r->Ok_0@),
    {
        match self.only_owner(caller) {
            Ok(()) => {},
            Err(e) => {
                return Err(e);
            },
        }
        self.pending_owner = Some(new_owner.copy());
        Ok(
            ContractEvent::OwnershipTransferStarted {
                previous_owner: self.owner_id.copy(),
                new_owner,
            },
        )
    }

    /// Takes ownership that was offered to the caller.
    pub fn owner_accept_by(&mut self, caller: &AccountId) -> (r: Result<
        ContractEvent,
        ContractError,
    >)
        ensures
            final(self).heard() == old(self).heard(),
            final(self).journal() == old(self).journal(),
            performs(old(self)@, called_by(caller@), Op::AcceptOwner, final(self)@, error_of(r)),
            r is Ok ==> event(old(self)@, called_by(caller@), Op::AcceptOwner) == Some(r->Ok_0@),
    {
        let offered: bool = match &self.pending_owner {
            Some(id) => id.same(caller),
            None => false,
        };
        if !offered {
            return Err(ContractError::NotPendingOwner);
        }
        Ok(self.transfer_ownership(caller))
    }

    /// Moves ownership and clears any offer. Nothing is left to the old owner.
    fn transfer_ownership(&mut self, new_owner: &AccountId) -> (r: ContractEvent)
        ensures
            final(self).heard() == old(self).heard(),
            final(self).journal() == old(self).journal(),
            final(self)@ == (State { owner: new_owner@, pending: None, ..old(self)@ }),
            r@ == (crate::events::EventView::OwnerChanged {
                old_owner: old(self)@.owner,
                new_owner: new_owner@,
            }),
    {
        self.pending_owner = None;
        let old_owner: AccountId = self.owner_id.copy();
        self.owner_id = new_owner.copy();
        ContractEvent::OwnerChanged { old_owner, new_owner: new_owner.copy() }
    }

    /// Withdraws an offer of ownership.
    pub fn owner_cancel_transfer_by(&mut self, caller: &AccountId) -> (r: Result<
        ContractEvent,
        ContractError,
    >)
        ensures
            final(self).heard() == old(self).heard(),
            final(self).journal() == old(self).journal(),
            performs(old(self)@, called_by(caller@), Op::CancelTransfer, final(self)@, error_of(r)),
            r is Ok ==> event(old(self)@, called_by(caller@), Op::CancelTransfer) == Some(
                r->Ok_0@,
            ),
    {
        match self.only_owner(caller) {
            Ok(()) => {},
            Err(e) => {
                return Err(e);
            },
        }
        let pending_owner: Option<AccountId> = copy_opt_account(&self.pending_owner);
        self.pending_owner = None;
        Ok(
            ContractEvent::OwnershipTransferCancelled {
                by: self.owner_id.copy(),
                pending_owner,
            },
        )
    }

    /// Whether the contract may be upgraded to `code`.
    pub fn check_upgrade(
        &self,
        caller: &AccountId,
        deposit: u128,
        code: &Vec<u8>,
        state_migration_gas: Option<u64>,
    ) -> (r: Result<(), ContractError>)
        ensures
            error_of(r) == fault(
                self@,
                Call { caller: caller@, deposit },
                Op::Upgrade { code: code@, migration_gas: state_migration_gas },
            ),
    {
        match self.only_owner(caller) {
            Ok(()) => {},
            Err(e) => {
                return Err(e);
            },
        }
        if deposit != 1 {
            return Err(ContractError::OneYocto);
        }
        if state_migration_gas.is_some() {
            return Err(ContractError::StateMigration);
        }
        if code.len() < 4 || code[0] != 0 || code[1] != 0x61 || code[2] != 0x73 || code[3] != 0x6d {
            assert(code@.len() >= 4 && code@.take(4) == wasm_magic() ==> {
                &&& code@[0] == code@.take(4)[0]
                &&& code@[1] == code@.take(4)[1]
                &&& code@[2] == code@.take(4)[2]
                &&& code@[3] == code@.take(4)[3]
            });
            return Err(ContractError::NotWasm);
        }
        assert(code@.take(4) =~= wasm_magic());
        Ok(())
    }

    /// Upgrades the contract to `code`, on `account`, which is its own.
    pub fn upgrade_by(
        &mut self,
        caller: &AccountId,
        deposit: u128,
        account: &AccountId,
        code: Vec<u8>,
        state_migration_gas: Option<u64>,
    ) -> (r: Result<Promise, ContractError>)
        ensures
            final(self).heard() == old(self).heard(),
            performs(
                old(self)@,
                (Call { caller: caller@, deposit }),
                (Op::Upgrade { code: code@, migration_gas: state_migration_gas }),
                final(self)@,
                error_of(r),
            ),
            final(self).journal() == if r is Ok {
                old(self).journal().push(deployment(account@, code@))
            } else {
                old(self).journal()
            },
    {
        match self.check_upgrade(caller, deposit, &code, state_migration_gas) {
            Ok(()) => Ok(self.journal.deploy(account, code)),
            Err(e) => Err(e),
        }
    }

    /// Moves tokens between any two accounts, paused or frozen or not.
    pub fn force_ft_transfer_by(
        &mut self,
        caller: &AccountId,
        deposit: u128,
        sender_id: AccountId,
        receiver_id: AccountId,
        amount: u128,
        memo: Option<String>,
    ) -> (r: Result<ContractEvent, ContractError>)
        ensures
            final(self).heard() == old(self).heard(),
            final(self).journal() == old(self).journal() + ledger_requests(
                old(self)@,
                (Call { caller: caller@, deposit }),
                (Op::ForceTransfer {
                    sender: sender_id@,
                    receiver: receiver_id@,
                    amount,
                    memo: opt_text(memo),
                }),
            ),
            performs(
                old(self)@,
                (Call { caller: caller@, deposit }),
                (Op::ForceTransfer {
                    sender: sender_id@,
                    receiver: receiver_id@,
                    amount,
                    memo: opt_text(memo),
                }),
                final(self)@,
                error_of(r),
            ),
            r is Ok ==> event(
                old(self)@,
                (Call { caller: caller@, deposit }),
                (Op::ForceTransfer {
                    sender: sender_id@,
                    receiver: receiver_id@,
                    amount,
                    memo: opt_text(memo),
                }),
            ) == Some(r->Ok_0@),
    {
        match self.only_owner(caller) {
            Ok(()) => {},
            Err(e) => {
                return Err(e);
            },
        }
        if deposit != 1 {
            return Err(ContractError::OneYocto);
        }
        match self.move_tokens(&sender_id, &receiver_id, amount, copy_opt(&memo)) {
            Ok(()) => {},
            Err(e) => {
                return Err(e);
            },
        }
        Ok(
            ContractEvent::ForceFtTransfer {
                by: caller.copy(),
                sender_id,
                receiver_id,
                amount,
                memo,
            },
        )
    }

    /// Moves `amount` from one account to another.
    fn move_tokens(
        &mut self,
        sender: &AccountId,
        receiver: &AccountId,
        amount: u128,
        memo: Option<String>,
    ) -> (r: Result<(), ContractError>)
        ensures
            final(self).heard() == old(self).heard(),
            final(self).journal() == if r is Ok {
                old(self).journal().push(
                    Request::Transfer {
                        sender: sender@,
                        receiver: receiver@,
                        amount,
                        memo: opt_text(memo),
                    },
                )
            } else {
                old(self).journal()
            },
            error_of(r) == move_fault(old(self)@, sender@, receiver@, amount),
            final(self)@ == if r is Ok {
                moved(old(self)@, sender@, receiver@, amount)
            } else {
                old(self)@
            },
    {
        if sender.same(receiver) {
            return Err(ContractError::SameAccount);
        }
        if amount == 0 {
            return Err(ContractError::ZeroAmount);
        }
        match token::balance(&self.token, sender) {
            None => {
                return Err(ContractError::SenderNotRegistered);
            },
            Some(b) => {
                if b < amount {
                    return Err(ContractError::NotEnoughBalance);
                }
            },
        }
        if token::supply(&self.token) < amount {
            return Err(ContractError::SupplyOverflow);
        }
        match token::balance(&self.token, receiver) {
            None => {
                return Err(ContractError::ReceiverNotRegistered);
            },
            Some(b) => {
                if b.checked_add(amount).is_none() {
                    return Err(ContractError::BalanceOverflow);
                }
            },
        }
        token::transfer(&mut self.token, &mut self.journal, sender, receiver, amount, memo);
        Ok(())
    }
}

/// The holders' methods, for a caller that is named.
impl Contract {
    /// Moves tokens of the caller, unless transfers are paused or an account is frozen.
    pub fn ft_transfer_by(
        &mut self,
        caller: &AccountId,
        deposit: u128,
        receiver_id: &AccountId,
        amount: u128,
        memo: Option<String>,
    ) -> (r: Result<(), ContractError>)
        ensures
            final(self).heard() == old(self).heard(),
            final(self).journal() == old(self).journal() + ledger_requests(
                old(self)@,
                (Call { caller: caller@, deposit }),
                (Op::Transfer { receiver: receiver_id@, amount, memo: opt_text(memo) }),
            ),
            performs(
                old(self)@,
                (Call { caller: caller@, deposit }),
                (Op::Transfer { receiver: receiver_id@, amount, memo: opt_text(memo) }),
                final(self)@,
                error_of(r),
            ),
    {
        if self.paused {
            return Err(ContractError::Paused);
        }
        if frozen::contains(&self.frozen_accounts, caller) {
            return Err(ContractError::SenderFrozen);
        }
        if frozen::contains(&self.frozen_accounts, receiver_id) {
            return Err(ContractError::ReceiverFrozen);
        }
        if deposit != 1 {
            return Err(ContractError::OneYocto);
        }
        self.move_tokens(caller, receiver_id, amount, memo)
    }

    /// Settles a transfer with a call, in the callback that has the receiver's reply: what was not
    /// used goes back to the sender, or is burned where the sender is not registered any more.
    ///
    /// The result is the amount that was used and the amount that was burned.
    pub fn settle(
        &mut self,
        callback: &Callback,
        sender_id: &AccountId,
        receiver_id: &AccountId,
        amount: u128,
    ) -> (r: Result<(u128, u128), ContractError>)
        requires
            callback.results() > 0,
        ensures
            final(self).heard() == old(self).heard(),
            performs(
                old(self)@,
                called_by(old(self)@.owner),
                (Op::Settle {
                    sender: sender_id@,
                    receiver: receiver_id@,
                    amount,
                    unused: unused_of(callback.reply(), amount),
                }),
                final(self)@,
                error_of(r),
            ),
            final(self).journal() == old(self).journal() + ledger_requests(
                old(self)@,
                called_by(old(self)@.owner),
                (Op::Settle {
                    sender: sender_id@,
                    receiver: receiver_id@,
                    amount,
                    unused: unused_of(callback.reply(), amount),
                }),
            ),
            r is Ok ==> r->Ok_0 == settlement(
                old(self)@,
                sender_id@,
                receiver_id@,
                amount,
                unused_of(callback.reply(), amount),
            ),
    {
        let unused: u128 = callback.unused(amount);
        let held: u128 = match token::balance(&self.token, receiver_id) {
            Some(b) => b,
            None => 0,
        };
        let refund: u128 = if held <= unused {
            held
        } else {
            unused
        };
        match token::balance(&self.token, sender_id) {
            Some(b) => {
                if !sender_id.same(receiver_id) && b.checked_add(refund).is_none() {
                    return Err(ContractError::SenderBalanceOverflow);
                }
            },
            None => {
                if token::supply(&self.token) < refund {
                    return Err(ContractError::SupplyOverflow);
                }
            },
        }
        Ok(
            token::resolve_transfer(
                &mut self.token,
                &mut self.journal,
                callback,
                sender_id,
                receiver_id,
                amount,
            ),
        )
    }

    fn is_registered(&self, id: &AccountId) -> (r: bool)
        ensures
            r == self@.registered(id@),
    {
        token::balance(&self.token, id).is_some()
    }

    /// Registers an account, paid for by the caller.
    pub fn storage_deposit_by(
        &mut self,
        caller: &AccountId,
        deposit: u128,
        account_id: &Option<AccountId>,
    ) -> (r: Result<Registration, ContractError>)
        ensures
            final(self).heard() == old(self).heard(),
            final(self).journal() == old(self).journal(),
            performs(
                old(self)@,
                (Call { caller: caller@, deposit }),
                (Op::Register { account: opt_account(*account_id) }),
                final(self)@,
                error_of(r),
            ),
            r is Ok ==> r->Ok_0 == registration(
                old(self)@,
                (Call { caller: caller@, deposit }),
                opt_account(*account_id),
            ),
    {
        let id: &AccountId = match account_id {
            Some(id) => id,
            None => caller,
        };
        let cost: u128 = token::storage_cost(&self.token);
        let balance = StorageBalance { total: cost, available: 0 };
        if self.is_registered(id) {
            return Ok(Registration { balance, known: true, refund: deposit });
        }
        if deposit < cost {
            return Err(ContractError::DepositTooSmall);
        }
        token::register(&mut self.token, id);
        Ok(Registration { balance, known: false, refund: deposit - cost })
    }

    /// Gives back what the caller's storage deposit has available, which is always nothing.
    pub fn storage_withdraw_by(
        &mut self,
        caller: &AccountId,
        deposit: u128,
        amount: Option<u128>,
    ) -> (r: Result<StorageBalance, ContractError>)
        ensures
            final(self).heard() == old(self).heard(),
            final(self).journal() == old(self).journal(),
            performs(
                old(self)@,
                (Call { caller: caller@, deposit }),
                (Op::Withdraw { amount }),
                final(self)@,
                error_of(r),
            ),
            r is Ok ==> r->Ok_0 == storage_balance(old(self)@),
    {
        if deposit != 1 {
            return Err(ContractError::OneYocto);
        }
        match self.storage_balance_of(caller) {
            None => Err(ContractError::CallerNotRegistered),
            Some(balance) => match amount {
                Some(a) => if a > 0 {
                    Err(ContractError::WithdrawTooMuch)
                } else {
                    Ok(balance)
                },
                None => Ok(balance),
            },
        }
    }

    /// Closes the caller's account, which must be empty, whatever is forced. Gives what is paid
    /// out to the caller, or nothing where the caller is not registered.
    pub fn storage_unregister_by(
        &mut self,
        caller: &AccountId,
        deposit: u128,
        force: Option<bool>,
    ) -> (r: Result<Option<u128>, ContractError>)
        ensures
            final(self).heard() == old(self).heard(),
            final(self).journal() == old(self).journal(),
            performs(
                old(self)@,
                (Call { caller: caller@, deposit }),
                Op::Unregister,
                final(self)@,
                error_of(r),
            ),
            r is Ok ==> r->Ok_0 == if old(self)@.registered(caller@) {
                Some(closing_payout(old(self)@))
            } else {
                None
            },
    {
        let held: Option<u128> = token::balance(&self.token, caller);
        match held {
            Some(b) => {
                if b != 0 {
                    return Err(ContractError::HoldsBalance);
                }
            },
            None => {},
        }
        if deposit != 1 {
            return Err(ContractError::OneYocto);
        }
        if held.is_none() {
            assert(self@.balances.remove(caller@) =~= self@.balances);
            return Ok(None);
        }
        let cost: u128 = token::storage_cost(&self.token);
        let payout: u128 = match cost.checked_add(1) {
            Some(p) => p,
            None => u128::MAX,
        };
        token::remove(&mut self.token, caller);
        Ok(Some(payout))
    }
}

/// What is read from the contract.
impl Contract {
    pub fn is_paused(&self) -> (r: bool)
        ensures
            r == self@.paused,
    {
        self.paused
    }

    pub fn is_frozen(&self, account_id: &AccountId) -> (r: bool)
        ensures
            r == self@.frozen.contains(account_id@),
    {
        frozen::contains(&self.frozen_accounts, account_id)
    }

    /// The price of one cNEAR in yoctoNEAR, as the owner last published it.
    ///
    /// It is indicative: no quote for a redemption, and no price oracle.
    pub fn get_latest_price(&self) -> (r: u128)
        ensures
            r == self@.price,
    {
        self.latest_price
    }

    pub fn owner_get(&self) -> (r: AccountId)
        ensures
            r@ == self@.owner,
    {
        self.owner_id.copy()
    }

    /// The account to which ownership is offered.
    pub fn pending_owner_get(&self) -> (r: Option<AccountId>)
        ensures
            opt_account(r) == self@.pending,
    {
        copy_opt_account(&self.pending_owner)
    }

    /// Whether `id` owns the contract.
    pub fn is_owner(&self, id: &AccountId) -> (r: bool)
        ensures
            r == (id@ == self@.owner),
    {
        self.owner_id.same(id)
    }

    pub fn ft_total_supply(&self) -> (r: u128)
        ensures
            r == self@.supply,
    {
        token::supply(&self.token)
    }

    pub fn ft_balance_of(&self, account_id: &AccountId) -> (r: u128)
        ensures
            r == self@.balance(account_id@),
    {
        match token::balance(&self.token, account_id) {
            Some(b) => b,
            None => 0,
        }
    }

    pub fn storage_balance_bounds(&self) -> (r: StorageBalanceBounds)
        ensures
            r.min == self@.account_cost(),
            r.max == Some(self@.account_cost()),
    {
        let cost: u128 = token::storage_cost(&self.token);
        StorageBalanceBounds { min: cost, max: Some(cost) }
    }

    pub fn storage_balance_of(&self, account_id: &AccountId) -> (r: Option<StorageBalance>)
        ensures
            r == if self@.registered(account_id@) {
                Some(storage_balance(self@))
            } else {
                None
            },
    {
        if self.is_registered(account_id) {
            Some(StorageBalance { total: token::storage_cost(&self.token), available: 0 })
        } else {
            None
        }
    }

    /// The token's metadata.
    pub fn ft_metadata(&self) -> (r: TokenMetadata)
        requires
            self@.metadata is Some,
        ensures
            self@.metadata == Some(r@),
    {
        match metadata::load(&self.metadata) {
            Some(m) => m,
            None => vstd::pervasive::unreached(),
        }
    }
}

/// What the ledger logs of a call by itself: the NEP-141 event of a transfer, or of a refund.
pub open spec fn ledger_requests(s: State, call: Call, op: Op) -> Seq<Request> {
    if fault(s, call, op) is Some {
        Seq::empty()
    } else {
        match op {
            Op::ForceTransfer { sender, receiver, amount, memo } => seq![
                Request::Transfer { sender, receiver, amount, memo },
            ],
            Op::Transfer { receiver, amount, memo } => seq![
                Request::Transfer { sender: call.caller, receiver, amount, memo },
            ],
            Op::Settle { sender, receiver, unused, .. } => refund_requests(
                s.balances,
                sender,
                receiver,
                refund_of(s.balances, receiver, unused),
            ),
            _ => Seq::empty(),
        }
    }
}

/// What a call asks of the runtime: nothing where it is refused, what the ledger logs of it, and
/// its event where it has one.
///
/// Registering and closing an account log a line and pay out what is due to the caller. Settling a
/// transfer logs a line where tokens were burned. An upgrade asks for its deployment besides, on the
/// account that the runtime names as the contract's own.
pub open spec fn requests(s: State, call: Call, op: Op) -> Seq<Request> {
    if fault(s, call, op) is Some {
        Seq::empty()
    } else {
        match op {
            Op::Register { account } => {
                let done = registration(s, call, account);
                let line = if done.known {
                    seq![Request::Log { text: known_text() }]
                } else {
                    Seq::empty()
                };
                if done.refund > 0 {
                    line.push(Request::Pay { to: call.caller, amount: done.refund })
                } else {
                    line
                }
            },
            Op::Unregister => {
                let line = Request::Log {
                    text: closing_text(call.caller, s.registered(call.caller)),
                };
                if s.registered(call.caller) {
                    seq![Request::Pay { to: call.caller, amount: closing_payout(s) }, line]
                } else {
                    seq![line]
                }
            },
            Op::Settle { sender, receiver, unused, .. } => {
                let burned = burned_by(
                    s.balances,
                    sender,
                    refund_of(s.balances, receiver, unused),
                );
                if burned > 0 {
                    ledger_requests(s, call, op).push(
                        Request::Log { text: burn_text(sender, burned) },
                    )
                } else {
                    ledger_requests(s, call, op)
                }
            },
            _ => ledger_requests(s, call, op) + match event(s, call, op) {
                Some(e) => seq![Request::Log { text: event_log(e) }],
                None => Seq::empty(),
            },
        }
    }
}

/// Whether what is attached counts for an operation.
pub open spec fn reads_deposit(op: Op) -> bool {
    match op {
        Op::Upgrade { .. } | Op::ForceTransfer { .. } | Op::Transfer { .. } | Op::Register { .. }
        | Op::Withdraw { .. } | Op::Unregister => true,
        _ => false,
    }
}

/// What was heard, once the runtime told of `call`, in which `op` is asked for, who called and, where
/// that counts, what is attached.
pub open spec fn hearing(heard: Seq<Answer>, call: Call, op: Op) -> Seq<Answer> {
    let called = heard.push(Answer::Caller { id: call.caller });
    if reads_deposit(op) {
        called.push(Answer::Deposit { amount: call.deposit })
    } else {
        called
    }
}

/// The account that the runtime told last to have called.
pub open spec fn last_caller(heard: Seq<Answer>) -> Seq<char> {
    heard.last()->Caller_id
}

/// `op` was performed for the call that runs, of which the runtime told who called and what is
/// attached, and the runtime was asked what belongs to that.
pub open spec fn performs_for_caller(
    pre: State,
    asked: Seq<Request>,
    heard: Seq<Answer>,
    op: Op,
    post: State,
    asked_after: Seq<Request>,
    heard_after: Seq<Answer>,
    error: Option<ContractError>,
) -> bool {
    exists|call: Call|
        {
            &&& #[trigger] performs(pre, call, op, post, error)
            &&& asked_after == asked + requests(pre, call, op)
            &&& heard_after == hearing(heard, call, op)
        }
}

/// An upgrade to `code` was checked for the account that called and, where it is not refused,
/// asked of the runtime for the account that it told to be the contract's own.
pub open spec fn upgrades_for_caller(
    pre: State,
    asked: Seq<Request>,
    heard: Seq<Answer>,
    code: Seq<u8>,
    migration_gas: Option<u64>,
    post: State,
    asked_after: Seq<Request>,
    heard_after: Seq<Answer>,
    error: Option<ContractError>,
) -> bool {
    exists|call: Call, account: Seq<char>|
        {
            &&& #[trigger] performs(pre, call, Op::Upgrade { code, migration_gas }, post, error)
            &&& asked_after == if error is None {
                asked.push(#[trigger] deployment(account, code))
            } else {
                asked
            }
            &&& heard_after == hearing(heard, call, Op::Upgrade { code, migration_gas }).push(
                Answer::OwnAccount { id: account },
            )
        }
}

/// New code for an account.
pub open spec fn deployment(account: Seq<char>, code: Seq<u8>) -> Request {
    Request::Deploy { account, code }
}

/// The caller's account was closed, or there was none: `r` tells which.
pub open spec fn closes_for_caller(
    pre: State,
    asked: Seq<Request>,
    heard: Seq<Answer>,
    post: State,
    asked_after: Seq<Request>,
    heard_after: Seq<Answer>,
    r: Result<bool, ContractError>,
) -> bool {
    exists|call: Call|
        {
            &&& #[trigger] performs(pre, call, Op::Unregister, post, error_of(r))
            &&& asked_after == asked + requests(pre, call, Op::Unregister)
            &&& heard_after == hearing(heard, call, Op::Unregister)
            &&& r is Ok ==> r->Ok_0 == pre.registered(call.caller)
        }
}

/// A transfer was settled on the receiver's reply, with `r` used or the refusal.
pub open spec fn settles_on(
    pre: State,
    asked: Seq<Request>,
    sender: Seq<char>,
    receiver: Seq<char>,
    amount: u128,
    reply: Option<Seq<u8>>,
    post: State,
    asked_after: Seq<Request>,
    r: Result<u128, ContractError>,
) -> bool {
    let unused = unused_of(reply, amount);
    let op = Op::Settle { sender, receiver, amount, unused };
    &&& performs(pre, called_by(pre.owner), op, post, error_of(r))
    &&& asked_after == asked + requests(pre, called_by(pre.owner), op)
    &&& r is Ok ==> r->Ok_0 == settlement(pre, sender, receiver, amount, unused).0
}

/// A transfer was settled on the reply that the runtime handed to the call that runs, or refused
/// exactly where that call was handed no promise result.
pub open spec fn settles_in_callback(
    pre: State,
    asked: Seq<Request>,
    heard: Seq<Answer>,
    sender: Seq<char>,
    receiver: Seq<char>,
    amount: u128,
    post: State,
    asked_after: Seq<Request>,
    heard_after: Seq<Answer>,
    r: Result<u128, ContractError>,
) -> bool {
    ||| {
        &&& heard_after == heard.push(Answer::Results { count: 0 })
        &&& r == Err::<u128, ContractError>(ContractError::NoPromiseResult)
        &&& post == pre
        &&& asked_after == asked
    }
    ||| exists|count: u64, reply: Option<Seq<u8>>|
        {
            &&& count > 0
            &&& heard_after == heard.push(#[trigger] results_told(count)).push(
                Answer::Reply { bytes: reply },
            )
            &&& #[trigger] settles_on(
                pre,
                asked,
                sender,
                receiver,
                amount,
                reply,
                post,
                asked_after,
                r,
            )
        }
}

/// How many promise results the call that runs was handed.
pub open spec fn results_told(count: u64) -> Answer {
    Answer::Results { count }
}

/// What is logged when tokens are burned.
pub open spec fn burn_text(sender: Seq<char>, burned: u128) -> Seq<char> {
    "Account @"@ + sender + " burned "@ + decimal_text(burned as nat)
}

/// The line that reports burned tokens, where any were burned.
pub fn burn_log(sender_id: &AccountId, burned: u128) -> (r: Option<String>)
    ensures
        opt_text(r) == if burned > 0 {
            Some(burn_text(sender_id@, burned))
        } else {
            None
        },
{
    if burned == 0 {
        return None;
    }
    let mut line: String = "Account @".to_owned();
    line.append(sender_id.as_str());
    line.append(" burned ");
    line.append(decimal(burned).as_str());
    Some(line)
}

/// What is logged when an account that is registered already is registered.
pub open spec fn known_text() -> Seq<char> {
    "The account is already registered, refunding the deposit"@
}

/// What is logged of an account that was to be closed.
pub open spec fn closing_text(id: Seq<char>, closed: bool) -> Seq<char> {
    if closed {
        "Closed @"@ + id + " with 0"@
    } else {
        "The account "@ + id + " is not registered"@
    }
}

/// What is paid to the holder of an account that is closed: its storage deposit and the attached
/// yoctoNEAR.
pub open spec fn closing_payout(s: State) -> u128 {
    saturated(s.account_cost() as nat + 1)
}

/// The line that reports what became of an account that was to be closed.
pub fn closing_log(account_id: &AccountId, closed: bool) -> (r: String)
    ensures
        r@ == closing_text(account_id@, closed),
{
    let mut line: String = if closed {
        "Closed @".to_owned()
    } else {
        "The account ".to_owned()
    };
    line.append(account_id.as_str());
    line.append(
        if closed {
            " with 0"
        } else {
            " is not registered"
        },
    );
    line
}

/// The contract's methods, for whoever calls.
impl Contract {
    /// Logs the event of a call that was not refused.
    fn report(&mut self, r: Result<ContractEvent, ContractError>) -> (out: Result<
        (),
        ContractError,
    >)
        ensures
            final(self)@ == old(self)@,
            final(self).heard() == old(self).heard(),
            error_of(out) == error_of(r),
            final(self).journal() == old(self).journal() + match r {
                Ok(e) => seq![Request::Log { text: event_log(e@) }],
                Err(_) => Seq::empty(),
            },
    {
        match r {
            Ok(event) => {
                event.emit(&mut self.journal);
                Ok(())
            },
            Err(e) => Err(e),
        }
    }

    /// Pauses all transfers that are not the owner's (`ft_transfer`, `ft_transfer_call`). The
    /// owner's methods go on working. Reports `Paused`, also where the contract is paused already.
    pub fn pause_contract(&mut self) -> (r: Result<(), ContractError>)
        ensures
            performs_for_caller(
                old(self)@,
                old(self).journal(),
                old(self).heard(),
                Op::Pause,
                final(self)@,
                final(self).journal(),
                final(self).heard(),
                error_of(r),
            ),
    {
        let caller: AccountId = host::caller(&mut self.journal);
        let ghost pre = self@;
        let r = self.pause_by(&caller);
        assert(performs(pre, called_by(caller@), Op::Pause, self@, error_of(r)));
        self.report(r)
    }

    /// Allows transfers again. Reports `Unpaused`, also where the contract is not paused.
    pub fn unpause(&mut self) -> (r: Result<(), ContractError>)
        ensures
            performs_for_caller(
                old(self)@,
                old(self).journal(),
                old(self).heard(),
                Op::Unpause,
                final(self)@,
                final(self).journal(),
                final(self).heard(),
                error_of(r),
            ),
    {
        let caller: AccountId = host::caller(&mut self.journal);
        let ghost pre = self@;
        let r = self.unpause_by(&caller);
        assert(performs(pre, called_by(caller@), Op::Unpause, self@, error_of(r)));
        self.report(r)
    }

    /// Upgrades the contract's code. The controller that does this attaches one yoctoNEAR, which a
    /// function-call access key cannot.
    pub fn upgrade(&mut self, code: Vec<u8>, state_migration_gas: Option<u64>) -> (r: Result<
        Promise,
        ContractError,
    >)
        ensures
            upgrades_for_caller(
                old(self)@,
                old(self).journal(),
                old(self).heard(),
                code@,
                state_migration_gas,
                final(self)@,
                final(self).journal(),
                final(self).heard(),
                error_of(r),
            ),
    {
        let caller: AccountId = host::caller(&mut self.journal);
        let deposit: u128 = host::attached_deposit(&mut self.journal);
        let account: AccountId = host::current_account(&mut self.journal);
        let ghost pre = self@;
        let ghost asked = self.journal();
        let ghost bytes = code@;
        let r = self.upgrade_by(&caller, deposit, &account, code, state_migration_gas);
        assert(performs(
            pre,
            Call { caller: caller@, deposit },
            Op::Upgrade { code: bytes, migration_gas: state_migration_gas },
            self@,
            error_of(r),
        ));
        assert(self.journal() == if error_of(r) is None {
            asked.push(deployment(account@, bytes))
        } else {
            asked
        });
        r
    }

    /// Bars an account from transfers that are not the owner's. Reports `AccountFrozen`, also
    /// where the account is frozen already.
    ///
    /// The storage of the entry is paid from the contract's own balance.
    pub fn freeze_account(&mut self, account_id: AccountId) -> (r: Result<(), ContractError>)
        ensures
            performs_for_caller(
                old(self)@,
                old(self).journal(),
                old(self).heard(),
                Op::Freeze { account: account_id@ },
                final(self)@,
                final(self).journal(),
                final(self).heard(),
                error_of(r),
            ),
    {
        let caller: AccountId = host::caller(&mut self.journal);
        let ghost pre = self@;
        let ghost op = Op::Freeze { account: account_id@ };
        let r = self.freeze_account_by(&caller, account_id);
        assert(performs(pre, called_by(caller@), op, self@, error_of(r)));
        self.report(r)
    }

    /// Lets a frozen account transfer again. Reports `AccountUnfrozen`, also where the account is
    /// not frozen.
    pub fn unfreeze_account(&mut self, account_id: AccountId) -> (r: Result<(), ContractError>)
        ensures
            performs_for_caller(
                old(self)@,
                old(self).journal(),
                old(self).heard(),
                Op::Unfreeze { account: account_id@ },
                final(self)@,
                final(self).journal(),
                final(self).heard(),
                error_of(r),
            ),
    {
        let caller: AccountId = host::caller(&mut self.journal);
        let ghost pre = self@;
        let ghost op = Op::Unfreeze { account: account_id@ };
        let r = self.unfreeze_account_by(&caller, account_id);
        assert(performs(pre, called_by(caller@), op, self@, error_of(r)));
        self.report(r)
    }

    /// Publishes a price and reports it with the previous one.
    pub fn set_latest_price(&mut self, price: u128) -> (r: Result<(), ContractError>)
        ensures
            performs_for_caller(
                old(self)@,
                old(self).journal(),
                old(self).heard(),
                Op::SetPrice { price },
                final(self)@,
                final(self).journal(),
                final(self).heard(),
                error_of(r),
            ),
    {
        let caller: AccountId = host::caller(&mut self.journal);
        let ghost pre = self@;
        let r = self.set_latest_price_by(&caller, price);
        assert(performs(pre, called_by(caller@), Op::SetPrice { price }, self@, error_of(r)));
        self.report(r)
    }

    /// Offers ownership to `new_owner`, in place of any earlier offer. Ownership does not move
    /// until `new_owner` calls [`Self::owner_accept`].
    pub fn owner_set(&mut self, new_owner: AccountId) -> (r: Result<(), ContractError>)
        ensures
            performs_for_caller(
                old(self)@,
                old(self).journal(),
                old(self).heard(),
                Op::ProposeOwner { account: new_owner@ },
                final(self)@,
                final(self).journal(),
                final(self).heard(),
                error_of(r),
            ),
    {
        let caller: AccountId = host::caller(&mut self.journal);
        let ghost pre = self@;
        let ghost op = Op::ProposeOwner { account: new_owner@ };
        let r = self.owner_set_by(&caller, new_owner);
        assert(performs(pre, called_by(caller@), op, self@, error_of(r)));
        self.report(r)
    }

    /// Takes ownership that was offered to the caller.
    pub fn owner_accept(&mut self) -> (r: Result<(), ContractError>)
        ensures
            performs_for_caller(
                old(self)@,
                old(self).journal(),
                old(self).heard(),
                Op::AcceptOwner,
                final(self)@,
                final(self).journal(),
                final(self).heard(),
                error_of(r),
            ),
    {
        let caller: AccountId = host::caller(&mut self.journal);
        let ghost pre = self@;
        let r = self.owner_accept_by(&caller);
        assert(performs(pre, called_by(caller@), Op::AcceptOwner, self@, error_of(r)));
        self.report(r)
    }

    /// Withdraws an offer of ownership. Reports `OwnershipTransferCancelled`, also where there is
    /// no offer.
    pub fn owner_cancel_transfer(&mut self) -> (r: Result<(), ContractError>)
        ensures
            performs_for_caller(
                old(self)@,
                old(self).journal(),
                old(self).heard(),
                Op::CancelTransfer,
                final(self)@,
                final(self).journal(),
                final(self).heard(),
                error_of(r),
            ),
    {
        let caller: AccountId = host::caller(&mut self.journal);
        let ghost pre = self@;
        let r = self.owner_cancel_transfer_by(&caller);
        assert(performs(pre, called_by(caller@), Op::CancelTransfer, self@, error_of(r)));
        self.report(r)
    }

    /// Ownership in a single step, which is always refused: there is no way to clear the owner or
    /// to skip the offer.
    pub fn owner_set_single_step(&mut self, owner: Option<AccountId>) -> (r: Result<
        (),
        ContractError,
    >)
        ensures
            final(self).heard() == old(self).heard(),
            final(self).journal() == old(self).journal(),
            r == Err::<(), ContractError>(ContractError::SingleStepTransfer),
            final(self)@ == old(self)@,
    {
        Err(ContractError::SingleStepTransfer)
    }

    /// Whether the caller owns the contract. It asks the runtime who called, and changes nothing.
    pub fn owner_is(&mut self) -> (r: bool)
        ensures
            final(self)@ == old(self)@,
            final(self).journal() == old(self).journal(),
            final(self).heard() == old(self).heard().push(
                Answer::Caller { id: last_caller(final(self).heard()) },
            ),
            r == (last_caller(final(self).heard()) == old(self)@.owner),
    {
        let caller: AccountId = host::caller(&mut self.journal);
        self.is_owner(&caller)
    }

    /// Moves tokens between any two accounts, whether transfers are paused, an account is frozen,
    /// or not. Reports `ForceFtTransfer` besides the standard event of a transfer.
    pub fn force_ft_transfer(
        &mut self,
        sender_id: AccountId,
        receiver_id: AccountId,
        amount: u128,
        memo: Option<String>,
    ) -> (r: Result<(), ContractError>)
        ensures
            performs_for_caller(
                old(self)@,
                old(self).journal(),
                old(self).heard(),
                (Op::ForceTransfer {
                    sender: sender_id@,
                    receiver: receiver_id@,
                    amount,
                    memo: opt_text(memo),
                }),
                final(self)@,
                final(self).journal(),
                final(self).heard(),
                error_of(r),
            ),
    {
        let caller: AccountId = host::caller(&mut self.journal);
        let deposit: u128 = host::attached_deposit(&mut self.journal);
        let ghost pre = self@;
        let ghost asked = self.journal();
        let ghost op = Op::ForceTransfer {
            sender: sender_id@,
            receiver: receiver_id@,
            amount,
            memo: opt_text(memo),
        };
        let r = self.force_ft_transfer_by(&caller, deposit, sender_id, receiver_id, amount, memo);
        assert(performs(pre, Call { caller: caller@, deposit }, op, self@, error_of(r)));
        let out = self.report(r);
        assert(self.journal() =~= asked + requests(pre, Call { caller: caller@, deposit }, op));
        out
    }

    /// Moves tokens of the caller.
    pub fn ft_transfer(&mut self, receiver_id: AccountId, amount: u128, memo: Option<String>) -> (r:
        Result<(), ContractError>)
        ensures
            performs_for_caller(
                old(self)@,
                old(self).journal(),
                old(self).heard(),
                (Op::Transfer { receiver: receiver_id@, amount, memo: opt_text(memo) }),
                final(self)@,
                final(self).journal(),
                final(self).heard(),
                error_of(r),
            ),
    {
        let caller: AccountId = host::caller(&mut self.journal);
        let deposit: u128 = host::attached_deposit(&mut self.journal);
        let ghost pre = self@;
        let ghost asked = self.journal();
        let ghost op = Op::Transfer { receiver: receiver_id@, amount, memo: opt_text(memo) };
        let r = self.ft_transfer_by(&caller, deposit, &receiver_id, amount, memo);
        assert(performs(pre, Call { caller: caller@, deposit }, op, self@, error_of(r)));
        assert(self.journal() =~= asked + requests(pre, Call { caller: caller@, deposit }, op));
        r
    }

    /// Moves tokens of the caller and gives the call that tells the receiver. After that call,
    /// [`Self::ft_resolve_transfer`] settles what the receiver did not use.
    pub fn ft_transfer_call(
        &mut self,
        receiver_id: AccountId,
        amount: u128,
        memo: Option<String>,
        msg: String,
    ) -> (r: Result<ReceiverCall, ContractError>)
        ensures
            performs_for_caller(
                old(self)@,
                old(self).journal(),
                old(self).heard(),
                (Op::Transfer { receiver: receiver_id@, amount, memo: opt_text(memo) }),
                final(self)@,
                final(self).journal(),
                final(self).heard(),
                error_of(r),
            ),
            r is Ok ==> {
                &&& performs(
                    old(self)@,
                    (Call { caller: r->Ok_0.sender_id@, deposit: 1 }),
                    (Op::Transfer { receiver: receiver_id@, amount, memo: opt_text(memo) }),
                    final(self)@,
                    None,
                )
                &&& r->Ok_0.receiver_id@ == receiver_id@
                &&& r->Ok_0.amount == amount
                &&& r->Ok_0.msg@ == msg@
                &&& last_caller(final(self).heard().drop_last()) == r->Ok_0.sender_id@
            },
    {
        let caller: AccountId = host::caller(&mut self.journal);
        let deposit: u128 = host::attached_deposit(&mut self.journal);
        let ghost pre = self@;
        let ghost asked = self.journal();
        let ghost op = Op::Transfer { receiver: receiver_id@, amount, memo: opt_text(memo) };
        let r = self.ft_transfer_by(&caller, deposit, &receiver_id, amount, memo);
        assert(performs(pre, Call { caller: caller@, deposit }, op, self@, error_of(r)));
        assert(self.journal() =~= asked + requests(pre, Call { caller: caller@, deposit }, op));
        match r {
            Ok(()) => Ok(ReceiverCall { sender_id: caller, receiver_id, amount, msg }),
            Err(e) => Err(e),
        }
    }

    /// Settles a transfer with a call, as the callback of the receiver's call, and logs what was
    /// burned. Gives the amount that the receiver used.
    pub fn ft_resolve_transfer(
        &mut self,
        sender_id: AccountId,
        receiver_id: AccountId,
        amount: u128,
    ) -> (r: Result<u128, ContractError>)
        ensures
            settles_in_callback(
                old(self)@,
                old(self).journal(),
                old(self).heard(),
                sender_id@,
                receiver_id@,
                amount,
                final(self)@,
                final(self).journal(),
                final(self).heard(),
                r,
            ),
    {
        let callback: Callback = match Callback::running(&mut self.journal) {
            Some(callback) => callback,
            None => {
                return Err(ContractError::NoPromiseResult);
            },
        };
        let ghost pre = self@;
        let ghost asked = self.journal();
        let r: Result<u128, ContractError> = match self.settle(
            &callback,
            &sender_id,
            &receiver_id,
            amount,
        ) {
            Err(e) => Err(e),
            Ok((used, burned)) => {
                match burn_log(&sender_id, burned) {
                    Some(line) => self.journal.log(line.as_str()),
                    None => {},
                }
                Ok(used)
            },
        };
        proof {
            let op = Op::Settle {
                sender: sender_id@,
                receiver: receiver_id@,
                amount,
                unused: unused_of(callback.reply(), amount),
            };
            assert(self.heard() == old(self).heard().push(results_told(callback.results())).push(
                Answer::Reply { bytes: callback.reply() },
            ));
            assert(self.journal() =~= asked + requests(pre, called_by(pre.owner), op));
            assert(settles_on(
                pre,
                asked,
                sender_id@,
                receiver_id@,
                amount,
                callback.reply(),
                self@,
                self.journal(),
                r,
            ));
        }
        r
    }

    /// Registers an account, the caller's where none is named. What was attached beyond the cost
    /// goes back to the caller.
    pub fn storage_deposit(
        &mut self,
        account_id: Option<AccountId>,
        registration_only: Option<bool>,
    ) -> (r: Result<StorageBalance, ContractError>)
        ensures
            performs_for_caller(
                old(self)@,
                old(self).journal(),
                old(self).heard(),
                (Op::Register { account: opt_account(account_id) }),
                final(self)@,
                final(self).journal(),
                final(self).heard(),
                error_of(r),
            ),
            r is Ok ==> r->Ok_0 == storage_balance(old(self)@),
    {
        let caller: AccountId = host::caller(&mut self.journal);
        let deposit: u128 = host::attached_deposit(&mut self.journal);
        let ghost pre = self@;
        let ghost asked = self.journal();
        let ghost call = Call { caller: caller@, deposit };
        let ghost op = Op::Register { account: opt_account(account_id) };
        let r = self.storage_deposit_by(&caller, deposit, &account_id);
        let out: Result<StorageBalance, ContractError> = match r {
            Ok(done) => {
                if done.known {
                    self.journal.log("The account is already registered, refunding the deposit");
                }
                if done.refund > 0 {
                    self.journal.pay(&caller, done.refund);
                }
                Ok(done.balance)
            },
            Err(e) => Err(e),
        };
        assert(performs(pre, call, op, self@, error_of(out)));
        assert(self.journal() =~= asked + requests(pre, call, op));
        out
    }

    /// Gives the caller's storage balance, of which nothing is ever available.
    pub fn storage_withdraw(&mut self, amount: Option<u128>) -> (r: Result<
        StorageBalance,
        ContractError,
    >)
        ensures
            performs_for_caller(
                old(self)@,
                old(self).journal(),
                old(self).heard(),
                (Op::Withdraw { amount }),
                final(self)@,
                final(self).journal(),
                final(self).heard(),
                error_of(r),
            ),
            r is Ok ==> r->Ok_0 == storage_balance(old(self)@),
    {
        let caller: AccountId = host::caller(&mut self.journal);
        let deposit: u128 = host::attached_deposit(&mut self.journal);
        let ghost pre = self@;
        let ghost asked = self.journal();
        let ghost call = Call { caller: caller@, deposit };
        let r = self.storage_withdraw_by(&caller, deposit, amount);
        assert(performs(pre, call, Op::Withdraw { amount }, self@, error_of(r)));
        assert(self.journal() =~= asked + requests(pre, call, Op::Withdraw { amount }));
        r
    }

    /// Closes the caller's account and pays its storage deposit out. An account that holds tokens
    /// is not closed, forced or not: otherwise a frozen holder could destroy the balance that the
    /// owner is to recover.
    pub fn storage_unregister(&mut self, force: Option<bool>) -> (r: Result<bool, ContractError>)
        ensures
            closes_for_caller(
                old(self)@,
                old(self).journal(),
                old(self).heard(),
                final(self)@,
                final(self).journal(),
                final(self).heard(),
                r,
            ),
    {
        let caller: AccountId = host::caller(&mut self.journal);
        let deposit: u128 = host::attached_deposit(&mut self.journal);
        let ghost pre = self@;
        let ghost asked = self.journal();
        let ghost call = Call { caller: caller@, deposit };
        let r = self.storage_unregister_by(&caller, deposit, force);
        let out: Result<bool, ContractError> = match r {
            Ok(Some(amount)) => {
                self.journal.pay(&caller, amount);
                self.journal.log(closing_log(&caller, true).as_str());
                Ok(true)
            },
            Ok(None) => {
                self.journal.log(closing_log(&caller, false).as_str());
                Ok(false)
            },
            Err(e) => Err(e),
        };
        assert(performs(pre, call, Op::Unregister, self@, error_of(out)));
        assert(self.journal() =~= asked + requests(pre, call, Op::Unregister));
        out
    }
}

/// The text of an error, for a call that concerns `sender` and `receiver`.
pub open spec fn error_text(e: ContractError, sender: Seq<char>, receiver: Seq<char>) -> Seq<char> {
    match e {
        ContractError::NotOwner => "Ownable: Method must be called from owner"@,
        ContractError::NotPendingOwner => "Ownable2Step: caller is not the pending owner"@,
        ContractError::SingleStepTransfer =>
            "cNEAR has no single-step ownership transfer: use owner_set(new_owner) followed by owner_accept() from the proposed account"@,
        ContractError::OneYocto => "Requires attached deposit of exactly 1 yoctoNEAR"@,
        ContractError::Paused => "Token transfers paused"@,
        ContractError::SenderFrozen => "Sender account is frozen"@,
        ContractError::ReceiverFrozen => "Receiver account is frozen"@,
        ContractError::SameAccount => "Sender and receiver should be different"@,
        ContractError::ZeroAmount => "The amount should be a positive number"@,
        ContractError::SenderNotRegistered => "The account "@ + sender + " is not registered"@,
        ContractError::ReceiverNotRegistered => "The account "@ + receiver + " is not registered"@,
        ContractError::CallerNotRegistered => "The account "@ + sender + " is not registered"@,
        ContractError::NotEnoughBalance => "The account doesn't have enough balance"@,
        ContractError::BalanceOverflow => "Balance overflow"@,
        ContractError::SupplyOverflow => "Total supply overflow"@,
        ContractError::SenderBalanceOverflow => "Sender balance overflow"@,
        ContractError::AlreadyInitialized => "Already initialized"@,
        ContractError::AlreadyRegistered => "The account is already registered"@,
        ContractError::InvalidMetadata => "require! assertion failed"@,
        ContractError::MetadataHashLength => "Hash has to be 32 bytes"@,
        ContractError::StateMigration =>
            "state migration is not supported: state_migration_gas must be null"@,
        ContractError::NotWasm => "code is not a WASM module (expected the \\0asm magic bytes)"@,
        ContractError::HoldsBalance =>
            "cannot unregister an account that still holds cNEAR: transfer the balance out first"@,
        ContractError::DepositTooSmall =>
            "The attached deposit is less than the minimum storage balance"@,
        ContractError::WithdrawTooMuch =>
            "The amount is greater than the available storage balance"@,
        ContractError::NoPromiseResult => "Contract expected a single result on the callback"@,
    }
}

impl ContractError {
    /// What the contract says when it refuses a call that concerns `sender` (the caller, in a call
    /// on its own account) and `receiver`.
    pub fn message(self, sender: &str, receiver: &str) -> (r: String)
        ensures
            r@ == error_text(self, sender@, receiver@),
    {
        match self {
            ContractError::NotOwner => "Ownable: Method must be called from owner".to_owned(),
            ContractError::NotPendingOwner =>
                "Ownable2Step: caller is not the pending owner".to_owned(),
            ContractError::SingleStepTransfer =>
                "cNEAR has no single-step ownership transfer: use owner_set(new_owner) followed by owner_accept() from the proposed account".to_owned(),
            ContractError::OneYocto =>
                "Requires attached deposit of exactly 1 yoctoNEAR".to_owned(),
            ContractError::Paused => "Token transfers paused".to_owned(),
            ContractError::SenderFrozen => "Sender account is frozen".to_owned(),
            ContractError::ReceiverFrozen => "Receiver account is frozen".to_owned(),
            ContractError::SameAccount => "Sender and receiver should be different".to_owned(),
            ContractError::ZeroAmount => "The amount should be a positive number".to_owned(),
            ContractError::SenderNotRegistered => not_registered(sender),
            ContractError::ReceiverNotRegistered => not_registered(receiver),
            ContractError::CallerNotRegistered => not_registered(sender),
            ContractError::NotEnoughBalance =>
                "The account doesn't have enough balance".to_owned(),
            ContractError::BalanceOverflow => "Balance overflow".to_owned(),
            ContractError::SupplyOverflow => "Total supply overflow".to_owned(),
            ContractError::SenderBalanceOverflow => "Sender balance overflow".to_owned(),
            ContractError::AlreadyInitialized => "Already initialized".to_owned(),
            ContractError::AlreadyRegistered => "The account is already registered".to_owned(),
            ContractError::InvalidMetadata => "require! assertion failed".to_owned(),
            ContractError::MetadataHashLength => "Hash has to be 32 bytes".to_owned(),
            ContractError::StateMigration =>
                "state migration is not supported: state_migration_gas must be null".to_owned(),
            ContractError::NotWasm =>
                "code is not a WASM module (expected the \\0asm magic bytes)".to_owned(),
            ContractError::HoldsBalance =>
                "cannot unregister an account that still holds cNEAR: transfer the balance out first".to_owned(),
            ContractError::DepositTooSmall =>
                "The attached deposit is less than the minimum storage balance".to_owned(),
            ContractError::WithdrawTooMuch =>
                "The amount is greater than the available storage balance".to_owned(),
            ContractError::NoPromiseResult =>
                "Contract expected a single result on the callback".to_owned(),
        }
    }
}

fn not_registered(id: &str) -> (r: String)
    ensures
        r@ == "The account "@ + id@ + " is not registered"@,
{
    let mut r: String = "The account ".to_owned();
    r.append(id);
    r.append(" is not registered");
    r
}

} // verus!
