//! The NEAR runtime around a call: who called, what was attached, what is logged and sent.
//!
//! What the runtime answers differs from call to call, so nothing is promised of it beyond the
//! form of the answer; what it did answer is noted. The runtime ends a call that goes beyond its limits (gas, the length of the
//! log, the balance to pay from) and undoes what the call did; the contracts speak of the calls
//! that it lets finish.
use crate::account::AccountId;
use crate::json::{amount_value, json_amount_value};
use crate::metadata::opt_bytes;
use near_contract_standards::fungible_token::events::FtMint;
use near_sdk::{NearToken, Promise};
use vstd::prelude::*;

verus! {

#[verifier::external_type_specification]
#[verifier::external_body]
pub struct ExPromise(Promise);

/// Something that the contract asks of the runtime.
#[allow(inconsistent_fields)]
pub ghost enum Request {
    /// A line in the log.
    Log { text: Seq<char> },
    /// The NEP-141 event for tokens that were created.
    Mint { owner: Seq<char>, amount: u128, memo: Seq<char> },
    /// The NEP-141 event for tokens that moved.
    Transfer { sender: Seq<char>, receiver: Seq<char>, amount: u128, memo: Option<Seq<char>> },
    /// The NEP-141 event for tokens that were destroyed.
    Burn { owner: Seq<char>, amount: u128, memo: Seq<char> },
    /// A payment in yoctoNEAR.
    Pay { to: Seq<char>, amount: u128 },
    /// New code for an account.
    Deploy { account: Seq<char>, code: Seq<u8> },
}

/// Something that the runtime told of the call that runs.
#[allow(inconsistent_fields)]
pub ghost enum Answer {
    /// The account that called.
    Caller { id: Seq<char> },
    /// What is attached, in yoctoNEAR.
    Deposit { amount: u128 },
    /// The contract's own account.
    OwnAccount { id: Seq<char> },
    /// Whether the contract was initialized before.
    StateExists { exists: bool },
    /// How many promise results the call was handed.
    Results { count: u64 },
    /// The first promise result; nothing where that call failed or replied too much.
    Reply { bytes: Option<Seq<u8>> },
}

/// The way to the runtime, with what was asked through it and what it told, each in order.
///
/// Only the functions that make the outside calls, here and in the ledger, say that something was
/// asked or told.
pub struct Journal {
    requests: Ghost<Seq<Request>>,
    answers: Ghost<Seq<Answer>>,
}

impl View for Journal {
    type V = Seq<Request>;

    closed spec fn view(&self) -> Seq<Request> {
        self.requests@
    }
}

impl Journal {
    /// A journal through which nothing was asked yet.
    pub fn new() -> (r: Journal)
        ensures
            r@ == Seq::<Request>::empty(),
            r.answers() == Seq::<Answer>::empty(),
    {
        Journal { requests: Ghost(Seq::empty()), answers: Ghost(Seq::empty()) }
    }

    /// What the runtime told through this journal, in order.
    pub closed spec fn answers(&self) -> Seq<Answer> {
        self.answers@
    }

    /// Logs `text` with `near_sdk::env::log_str`.
    #[verifier::external_body]
    pub(crate) fn log(&mut self, text: &str)
        ensures
            final(self)@ == old(self)@.push(Request::Log { text: text@ }),
            final(self).answers() == old(self).answers(),
    {
        near_sdk::env::log_str(text)
    }

    /// Logs the NEP-141 `ft_mint` event of `FtMint::emit`, for one owner.
    #[verifier::external_body]
    pub(crate) fn mint(&mut self, owner: &AccountId, amount: u128, memo: &str)
        ensures
            final(self)@ == old(self)@.push(Request::Mint { owner: owner@, amount, memo: memo@ }),
            final(self).answers() == old(self).answers(),
    {
        let owner_id: near_sdk::AccountId = owner.as_str().parse().unwrap();
        FtMint { owner_id: &owner_id, amount: amount.into(), memo: Some(memo) }.emit()
    }

    /// Schedules a payment of `amount` yoctoNEAR out of the contract's balance with
    /// `Promise::transfer`.
    #[verifier::external_body]
    pub(crate) fn pay(&mut self, to: &AccountId, amount: u128)
        ensures
            final(self)@ == old(self)@.push(Request::Pay { to: to@, amount }),
            final(self).answers() == old(self).answers(),
    {
        let to: near_sdk::AccountId = to.as_str().parse().unwrap();
        Promise::new(to).transfer(NearToken::from_yoctonear(amount)).detach()
    }

    /// Schedules the deployment of `code` on `account` with `Promise::deploy_contract`.
    #[verifier::external_body]
    pub(crate) fn deploy(&mut self, account: &AccountId, code: Vec<u8>) -> (r: Promise)
        ensures
            final(self)@ == old(self)@.push(Request::Deploy { account: account@, code: code@ }),
            final(self).answers() == old(self).answers(),
    {
        let account: near_sdk::AccountId = account.as_str().parse().unwrap();
        Promise::new(account).deploy_contract(code)
    }
}

/// The longest reply that is read: the largest amount in decimal, with a plus sign and quotes.
pub const MAX_REPLY: usize = 42;

/// A callback that was handed promise results, with the first of them. It is made only from what
/// the runtime says of the call that runs.
pub struct Callback {
    results: u64,
    reply: Option<Vec<u8>>,
}

/// How much of `amount` a receiver that replied `reply` did not use: what it says, at most all; all
/// where it failed or said no amount.
pub open spec fn unused_of(reply: Option<Seq<u8>>, amount: u128) -> u128 {
    match reply {
        None => amount,
        Some(bytes) => match amount_value(bytes) {
            None => amount,
            Some(n) => if n <= amount {
                n
            } else {
                amount
            },
        },
    }
}

impl Callback {
    /// How many promise results the callback was handed.
    pub closed spec fn results(self) -> u64 {
        self.results
    }

    /// The first of the promise results; nothing where that call failed or replied too much.
    pub closed spec fn reply(self) -> Option<Seq<u8>> {
        opt_bytes(self.reply)
    }

    /// The callback that runs, where the call is one that was handed promise results.
    pub fn current() -> (r: Option<Callback>)
        ensures
            r is Some ==> r->0.results() > 0,
    {
        let mut journal: Journal = Journal::new();
        Callback::running(&mut journal)
    }

    /// The callback that runs, by what the runtime tells through `journal`: there is one exactly where
    /// the call was handed a promise result, and it holds the first.
    pub fn running(journal: &mut Journal) -> (r: Option<Callback>)
        ensures
            final(journal)@ == old(journal)@,
            match r {
                Some(callback) => callback.results() > 0 && final(journal).answers() == old(
                    journal,
                ).answers().push(Answer::Results { count: callback.results() }).push(
                    Answer::Reply { bytes: callback.reply() },
                ),
                None => final(journal).answers() == old(journal).answers().push(
                    Answer::Results { count: 0 },
                ),
            },
    {
        let results: u64 = promise_results(journal);
        if results > 0 {
            Some(Callback { results, reply: promise_reply(journal, results, MAX_REPLY) })
        } else {
            None
        }
    }

    /// How much of `amount` the receiver did not use.
    pub fn unused(&self, amount: u128) -> (r: u128)
        ensures
            r == unused_of(self.reply(), amount),
    {
        match &self.reply {
            None => amount,
            Some(bytes) => match json_amount_value(bytes) {
                None => amount,
                Some(n) => if n <= amount {
                    n
                } else {
                    amount
                },
            },
        }
    }
}

/// `near_sdk::env::predecessor_account_id`: the account that called the contract. The answer is
/// noted in the journal.
#[verifier::external_body]
pub(crate) fn caller(journal: &mut Journal) -> (r: AccountId)
    ensures
        final(journal)@ == old(journal)@,
        final(journal).answers() == old(journal).answers().push(Answer::Caller { id: r@ }),
{
    AccountId::parse(near_sdk::env::predecessor_account_id().as_str()).unwrap()
}

/// `near_sdk::env::current_account_id`: the contract's own account. The answer is noted in the
/// journal.
#[verifier::external_body]
pub(crate) fn current_account(journal: &mut Journal) -> (r: AccountId)
    ensures
        final(journal)@ == old(journal)@,
        final(journal).answers() == old(journal).answers().push(Answer::OwnAccount { id: r@ }),
{
    AccountId::parse(near_sdk::env::current_account_id().as_str()).unwrap()
}

/// `near_sdk::env::attached_deposit`, in yoctoNEAR. The answer is noted in the journal.
#[verifier::external_body]
pub(crate) fn attached_deposit(journal: &mut Journal) -> (r: u128)
    ensures
        final(journal)@ == old(journal)@,
        final(journal).answers() == old(journal).answers().push(Answer::Deposit { amount: r }),
{
    near_sdk::env::attached_deposit().as_yoctonear()
}

/// `near_sdk::env::state_exists`: whether the contract was initialized before. The answer is noted
/// in the journal.
#[verifier::external_body]
pub(crate) fn state_exists(journal: &mut Journal) -> (r: bool)
    ensures
        final(journal)@ == old(journal)@,
        final(journal).answers() == old(journal).answers().push(Answer::StateExists { exists: r }),
{
    near_sdk::env::state_exists()
}

/// `near_sdk::env::promise_results_count`: how many promise results a callback was handed. The answer
/// is noted in the journal.
#[verifier::external_body]
fn promise_results(journal: &mut Journal) -> (r: u64)
    ensures
        final(journal)@ == old(journal)@,
        final(journal).answers() == old(journal).answers().push(Answer::Results { count: r }),
{
    near_sdk::env::promise_results_count()
}

/// `near_sdk::env::promise_result_checked` for the first promise result: its bytes, where that call
/// succeeded and replied with at most `max_len` of them. It aborts where the call that runs was
/// handed no promise result; `results` is how many it was handed. The answer is noted in the journal.
#[verifier::external_body]
fn promise_reply(journal: &mut Journal, results: u64, max_len: usize) -> (r: Option<Vec<u8>>)
    requires
        results > 0,
    ensures
        final(journal)@ == old(journal)@,
        final(journal).answers() == old(journal).answers().push(
            Answer::Reply { bytes: opt_bytes(r) },
        ),
{
    near_sdk::env::promise_result_checked(0, max_len).ok()
}

} // verus!
