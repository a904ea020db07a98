//! The NEP-141 ledger that the contract keeps: `FungibleToken` of near-contract-standards.
//!
//! Every function here hands one call to that type. What the contracts say of the ledger holds
//! while nothing else writes under the storage prefix that the token was made with: there is one
//! live token over a contract's storage. Limits of the
//! runtime (gas, storage stake, total length of the logs) can still abort a call from outside.
use crate::account::AccountId;
use crate::host::{unused_of, Callback, Journal, Request};
use crate::text::opt_text;
use near_contract_standards::fungible_token::{FungibleToken, FungibleTokenCore};
use near_contract_standards::storage_management::StorageManagement;
use vstd::prelude::*;

verus! {

#[verifier::external_type_specification]
#[verifier::external_body]
pub struct ExFungibleToken(FungibleToken);

/// The registered accounts of a token, each with its balance (the field `accounts`).
pub uninterp spec fn token_balances(token: FungibleToken) -> Map<Seq<char>, u128>;

/// The supply that a token reports (the field `total_supply`).
pub uninterp spec fn token_supply(token: FungibleToken) -> u128;

/// The bytes of storage that a token reckons for one account (`account_storage_usage`).
pub uninterp spec fn token_account_bytes(token: FungibleToken) -> u64;

/// What one byte of storage costs, in yoctoNEAR.
pub open spec fn byte_cost() -> nat {
    10_000_000_000_000_000_000
}

/// `n`, or the largest `u128` where `n` is larger.
pub open spec fn saturated(n: nat) -> u128 {
    if n <= u128::MAX {
        n as u128
    } else {
        u128::MAX
    }
}

/// The deposit that registers an account, for an account that takes `bytes` of storage.
pub open spec fn registration_cost(bytes: u64) -> u128 {
    saturated(byte_cost() * bytes as nat)
}

/// The balance of an account; zero where it is not registered.
pub open spec fn balance_in(balances: Map<Seq<char>, u128>, id: Seq<char>) -> u128 {
    if balances.dom().contains(id) {
        balances[id]
    } else {
        0
    }
}

/// The smaller of two amounts.
pub open spec fn lesser(a: u128, b: u128) -> u128 {
    if a <= b {
        a
    } else {
        b
    }
}

/// What is taken back from the receiver of a transfer of which `unused` was not used.
pub open spec fn refund_of(
    balances: Map<Seq<char>, u128>,
    receiver: Seq<char>,
    unused: u128,
) -> u128 {
    lesser(balance_in(balances, receiver), unused)
}

/// The balances after `refund` went from the receiver to the sender, where the sender is still
/// registered, or left the ledger, where it is not.
pub open spec fn refunded(
    balances: Map<Seq<char>, u128>,
    sender: Seq<char>,
    receiver: Seq<char>,
    refund: u128,
) -> Map<Seq<char>, u128> {
    if refund == 0 {
        balances
    } else {
        let taken = balances.insert(receiver, (balances[receiver] - refund) as u128);
        if taken.dom().contains(sender) {
            taken.insert(sender, (taken[sender] + refund) as u128)
        } else {
            taken
        }
    }
}

/// The tokens that a refund destroys: all of it where the sender is no longer registered.
pub open spec fn burned_by(
    balances: Map<Seq<char>, u128>,
    sender: Seq<char>,
    refund: u128,
) -> u128 {
    if balances.dom().contains(sender) {
        0
    } else {
        refund
    }
}

/// What a refund logs: the event of a transfer back, or, where the sender is no longer registered,
/// a line and the event of the tokens that were destroyed.
pub open spec fn refund_requests(
    balances: Map<Seq<char>, u128>,
    sender: Seq<char>,
    receiver: Seq<char>,
    refund: u128,
) -> Seq<Request> {
    if refund == 0 {
        Seq::empty()
    } else if balances.dom().contains(sender) {
        seq![
            Request::Transfer {
                sender: receiver,
                receiver: sender,
                amount: refund,
                memo: Some("refund"@),
            },
        ]
    } else {
        seq![
            Request::Log { text: "The account of the sender was deleted"@ },
            Request::Burn { owner: receiver, amount: refund, memo: "refund"@ },
        ]
    }
}

/// Calls `FungibleToken::new` with `prefix`: a token with no supply.
///
/// Nothing is said of the balances: storage under the prefix may hold entries already. Nothing is
/// said of the bytes for one account either, which the token measures on the host.
#[verifier::external_body]
pub(crate) fn new_token(prefix: Vec<u8>) -> (r: FungibleToken)
    ensures
        token_supply(r) == 0,
{
    FungibleToken::new(prefix)
}

/// Calls `get` on the token's `accounts`: the balance of a registered account.
#[verifier::external_body]
pub(crate) fn balance(token: &FungibleToken, id: &AccountId) -> (r: Option<u128>)
    ensures
        match r {
            Some(b) => token_balances(*token).dom().contains(id@) && b == token_balances(
                *token,
            )[id@],
            None => !token_balances(*token).dom().contains(id@),
        },
{
    token.accounts.get(&id.as_str().parse().unwrap())
}

/// Calls `FungibleToken::ft_total_supply`.
#[verifier::external_body]
pub(crate) fn supply(token: &FungibleToken) -> (r: u128)
    ensures
        r == token_supply(*token),
{
    token.ft_total_supply().0
}

/// Calls `FungibleToken::storage_balance_bounds`, whose least and greatest deposit are the same
/// amount: the cost of one byte times the bytes for one account, capped at the largest `u128`.
#[verifier::external_body]
pub(crate) fn storage_cost(token: &FungibleToken) -> (r: u128)
    ensures
        r == registration_cost(token_account_bytes(*token)),
{
    token.storage_balance_bounds().min.as_yoctonear()
}

/// Calls `FungibleToken::internal_register_account`, which panics on a registered account: the
/// account is entered with a balance of zero.
#[verifier::external_body]
pub(crate) fn register(token: &mut FungibleToken, id: &AccountId)
    requires
        !token_balances(*old(token)).dom().contains(id@),
    ensures
        token_balances(*final(token)) == token_balances(*old(token)).insert(id@, 0),
        token_supply(*final(token)) == token_supply(*old(token)),
        token_account_bytes(*final(token)) == token_account_bytes(*old(token)),
{
    token.internal_register_account(&id.as_str().parse().unwrap())
}

/// Calls `FungibleToken::internal_deposit`, which panics on an account that is not registered and
/// where the balance or the supply would not fit: both grow by the amount.
#[verifier::external_body]
pub(crate) fn deposit(token: &mut FungibleToken, id: &AccountId, amount: u128)
    requires
        token_balances(*old(token)).dom().contains(id@),
        token_balances(*old(token))[id@] + amount <= u128::MAX,
        token_supply(*old(token)) + amount <= u128::MAX,
    ensures
        token_balances(*final(token)) == token_balances(*old(token)).insert(
            id@,
            (token_balances(*old(token))[id@] + amount) as u128,
        ),
        token_supply(*final(token)) == token_supply(*old(token)) + amount,
        token_account_bytes(*final(token)) == token_account_bytes(*old(token)),
{
    token.internal_deposit(&id.as_str().parse().unwrap(), amount)
}

/// Calls `FungibleToken::internal_transfer`, which moves the amount and logs the NEP-141
/// `ft_transfer` event with the memo. It panics on equal accounts, a zero amount, an account that is not
/// registered, and where a balance or the supply would leave the range of `u128`.
#[verifier::external_body]
pub(crate) fn transfer(
    token: &mut FungibleToken,
    journal: &mut Journal,
    sender: &AccountId,
    receiver: &AccountId,
    amount: u128,
    memo: Option<String>,
)
    requires
        sender@ != receiver@,
        amount > 0,
        token_balances(*old(token)).dom().contains(sender@),
        token_balances(*old(token)).dom().contains(receiver@),
        token_balances(*old(token))[sender@] >= amount,
        token_supply(*old(token)) >= amount,
        token_balances(*old(token))[receiver@] + amount <= u128::MAX,
    ensures
        token_balances(*final(token)) == token_balances(*old(token)).insert(
            sender@,
            (token_balances(*old(token))[sender@] - amount) as u128,
        ).insert(receiver@, (token_balances(*old(token))[receiver@] + amount) as u128),
        token_supply(*final(token)) == token_supply(*old(token)),
        token_account_bytes(*final(token)) == token_account_bytes(*old(token)),
        final(journal)@ == old(journal)@.push(
            Request::Transfer {
                sender: sender@,
                receiver: receiver@,
                amount,
                memo: opt_text(memo),
            },
        ),
        final(journal).answers() == old(journal).answers(),
{
    let from = sender.as_str().parse().unwrap();
    let to = receiver.as_str().parse().unwrap();
    token.internal_transfer(&from, &to, amount, memo)
}

/// Calls `FungibleToken::internal_ft_resolve_transfer`, which settles a transfer with a call.
///
/// It reads the receiver's reply, the first promise result, of at most [`MAX_REPLY`] bytes, which
/// `callback` holds too: how much was not used. So much, capped at what the receiver still holds,
/// goes back to the sender, or is burned where the sender is not registered any more. The NEP-141
/// event of either is logged with the memo `refund`. It panics where there is no promise result, and
/// where the sender's balance or the supply would leave the range of `u128`.
///
/// The result is the amount that counts as used and the amount that was burned.
///
/// [`MAX_REPLY`]: crate::host::MAX_REPLY
#[verifier::external_body]
pub(crate) fn resolve_transfer(
    token: &mut FungibleToken,
    journal: &mut Journal,
    callback: &Callback,
    sender: &AccountId,
    receiver: &AccountId,
    amount: u128,
) -> (r: (u128, u128))
    requires
        callback.results() > 0,
        token_balances(*old(token)).dom().contains(sender@) && sender@ != receiver@
            ==> token_balances(*old(token))[sender@] + refund_of(
            token_balances(*old(token)),
            receiver@,
            unused_of(callback.reply(), amount),
        ) <= u128::MAX,
        !token_balances(*old(token)).dom().contains(sender@) ==> token_supply(*old(token))
            >= refund_of(
            token_balances(*old(token)),
            receiver@,
            unused_of(callback.reply(), amount),
        ),
    ensures
        settled(
            token_balances(*old(token)),
            token_supply(*old(token)),
            sender@,
            receiver@,
            amount,
            unused_of(callback.reply(), amount),
            token_balances(*final(token)),
            token_supply(*final(token)),
            r,
        ),
        final(journal)@ == old(journal)@ + refund_requests(
            token_balances(*old(token)),
            sender@,
            receiver@,
            refund_of(
                token_balances(*old(token)),
                receiver@,
                unused_of(callback.reply(), amount),
            ),
        ),
        token_account_bytes(*final(token)) == token_account_bytes(*old(token)),
        final(journal).answers() == old(journal).answers(),
{
    let from = sender.as_str().parse().unwrap();
    let to = receiver.as_str().parse().unwrap();
    token.internal_ft_resolve_transfer(&from, to, amount.into())
}

/// What settling a transfer of which `unused` was not used does to balances and supply, and the
/// used and burned amounts that it reports.
pub open spec fn settled(
    balances: Map<Seq<char>, u128>,
    supply: u128,
    sender: Seq<char>,
    receiver: Seq<char>,
    amount: u128,
    unused: u128,
    balances_after: Map<Seq<char>, u128>,
    supply_after: u128,
    r: (u128, u128),
) -> bool {
    let refund = refund_of(balances, receiver, unused);
    let burned = burned_by(balances, sender, refund);
    &&& balances_after == refunded(balances, sender, receiver, refund)
    &&& supply_after == supply - burned
    &&& r.0 == amount - (refund - burned)
    &&& r.1 == burned
}

/// Calls `remove` on the token's `accounts`: the account is no longer registered.
#[verifier::external_body]
pub(crate) fn remove(token: &mut FungibleToken, id: &AccountId)
    ensures
        token_balances(*final(token)) == token_balances(*old(token)).remove(id@),
        token_supply(*final(token)) == token_supply(*old(token)),
        token_account_bytes(*final(token)) == token_account_bytes(*old(token)),
{
    token.accounts.remove(&id.as_str().parse().unwrap());
}

} // verus!
