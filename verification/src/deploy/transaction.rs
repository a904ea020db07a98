//! Transactions: what they do, how their fate is found out, and what that means for the nonce.
use crate::account::AccountId;
use crate::deploy::credentials::Credentials;
use crate::deploy::nonces::{merged, nonce_key, NonceKey, NonceTracker};
use crate::deploy::rpc::{hash_text, CryptoHash};
use crate::text::join2;
use vstd::prelude::*;

verus! {

/// Gas that goes with a call.
pub const DEFAULT_GAS: u64 = 300_000_000_000_000;

/// How often the fate of a transaction is asked for.
pub const STATUS_POLL_ATTEMPTS: u32 = 30;

/// One thing that a transaction does.
#[derive(Debug)]
pub enum Action {
    CreateAccount,
    /// Sends so much yoctoNEAR.
    Transfer(u128),
    /// Adds a full access key.
    AddFullAccessKey(String),
    DeployContract(Vec<u8>),
    /// Calls a method with JSON arguments.
    FunctionCall { method_name: String, args: String, gas: u64, deposit: u128 },
    /// Deletes the account in favour of another.
    DeleteAccount(AccountId),
}

/// An [`Action`], as mathematical values.
pub ghost enum ActionView {
    CreateAccount,
    Transfer(u128),
    AddFullAccessKey(Seq<char>),
    DeployContract(Seq<u8>),
    FunctionCall { method_name: Seq<char>, args: Seq<char>, gas: u64, deposit: u128 },
    DeleteAccount(Seq<char>),
}

impl View for Action {
    type V = ActionView;

    open spec fn view(&self) -> ActionView {
        match *self {
            Action::CreateAccount => ActionView::CreateAccount,
            Action::Transfer(amount) => ActionView::Transfer(amount),
            Action::AddFullAccessKey(key) => ActionView::AddFullAccessKey(key@),
            Action::DeployContract(code) => ActionView::DeployContract(code@),
            Action::FunctionCall { method_name, args, gas, deposit } => ActionView::FunctionCall {
                method_name: method_name@,
                args: args@,
                gas,
                deposit,
            },
            Action::DeleteAccount(id) => ActionView::DeleteAccount(id@),
        }
    }
}

/// The views of a list of actions.
pub open spec fn action_views(actions: Seq<Action>) -> Seq<ActionView> {
    actions.map_values(|a: Action| a@)
}

/// The call of a method, with the usual gas.
pub open spec fn call_view(method: Seq<char>, args: Seq<char>, deposit: u128) -> ActionView {
    ActionView::FunctionCall { method_name: method, args, gas: DEFAULT_GAS, deposit }
}

/// Creates an account with so much yoctoNEAR and a full access key.
pub fn create_account_actions(amount: u128, public_key: &str) -> (r: Vec<Action>)
    ensures
        action_views(r@) == seq![
            ActionView::CreateAccount,
            ActionView::Transfer(amount),
            ActionView::AddFullAccessKey(public_key@),
        ],
{
    let mut actions: Vec<Action> = Vec::new();
    actions.push(Action::CreateAccount);
    actions.push(Action::Transfer(amount));
    actions.push(Action::AddFullAccessKey(public_key.to_owned()));
    assert(action_views(actions@) =~= seq![
        ActionView::CreateAccount,
        ActionView::Transfer(amount),
        ActionView::AddFullAccessKey(public_key@),
    ]);
    actions
}

/// Deploys code, and initializes it where a method is named.
pub fn deploy_actions(wasm: Vec<u8>, method: Option<&str>, args: String) -> (r: Vec<Action>)
    ensures
        action_views(r@) == match method {
            Some(m) => seq![ActionView::DeployContract(wasm@), call_view(m@, args@, 0)],
            None => seq![ActionView::DeployContract(wasm@)],
        },
{
    let mut actions: Vec<Action> = Vec::new();
    actions.push(Action::DeployContract(wasm));
    match method {
        Some(m) => {
            actions.push(call_action(m, args, 0));
            assert(action_views(actions@) =~= seq![
                ActionView::DeployContract(wasm@),
                call_view(m@, args@, 0),
            ]);
        },
        None => {
            assert(action_views(actions@) =~= seq![ActionView::DeployContract(wasm@)]);
        },
    }
    actions
}

/// Calls a method with JSON arguments and a deposit in yoctoNEAR.
pub fn call_action(method: &str, args: String, deposit: u128) -> (r: Action)
    ensures
        r@ == call_view(method@, args@, deposit),
{
    Action::FunctionCall { method_name: method.to_owned(), args, gas: DEFAULT_GAS, deposit }
}

/// Deletes the account; what it holds goes to the beneficiary.
pub fn delete_action(beneficiary_id: AccountId) -> (r: Action)
    ensures
        r@ == ActionView::DeleteAccount(beneficiary_id@),
{
    Action::DeleteAccount(beneficiary_id)
}

/// A batch of actions, signed and sent as one transaction.
pub struct Transaction {
    pub signer: Credentials,
    pub receiver: AccountId,
    pub batch: Vec<Action>,
}

impl Transaction {
    /// A transaction that does nothing yet.
    pub fn new(signer: Credentials, receiver: AccountId) -> (r: Transaction)
        ensures
            r.signer@ == signer@,
            r.receiver@ == receiver@,
            r.batch@.len() == 0,
    {
        Transaction { signer, receiver, batch: Vec::new() }
    }

    /// Adds one action.
    pub fn add_action(self, action: Action) -> (r: Transaction)
        ensures
            r.signer@ == self.signer@,
            r.receiver@ == self.receiver@,
            r.batch@ == self.batch@.push(action),
    {
        let mut batch: Vec<Action> = self.batch;
        batch.push(action);
        Transaction { signer: self.signer, receiver: self.receiver, batch }
    }

    /// Does these actions and no others.
    pub fn actions(self, actions: Vec<Action>) -> (r: Transaction)
        ensures
            r.signer@ == self.signer@,
            r.receiver@ == self.receiver@,
            r.batch@ == actions@,
    {
        Transaction { signer: self.signer, receiver: self.receiver, batch: actions }
    }
}

/// A transaction whose fate is not known.
#[derive(Debug)]
pub struct UnresolvedTransaction {
    pub tx_hash: CryptoHash,
}

/// A transaction that was executed and failed.
#[derive(Debug)]
pub struct ConfirmedTransactionFailure {
    pub tx_hash: CryptoHash,
    pub detail: String,
}

impl UnresolvedTransaction {
    pub fn message(&self) -> (r: String)
        ensures
            r@ == "transaction "@ + hash_text(self.tx_hash@)
                + " remains unresolved after broadcast"@,
    {
        let mut r: String = join2("transaction ", self.tx_hash.text().as_str());
        r.append(" remains unresolved after broadcast");
        r
    }
}

impl ConfirmedTransactionFailure {
    pub fn message(&self) -> (r: String)
        ensures
            r@ == "transaction "@ + hash_text(self.tx_hash@) + " executed but failed: "@
                + self.detail@,
    {
        let mut r: String = join2("transaction ", self.tx_hash.text().as_str());
        r.append(" executed but failed: ");
        r.append(self.detail.as_str());
        r
    }
}

/// Why a transaction did not succeed.
#[derive(Debug)]
pub enum TransactionError {
    Unresolved(UnresolvedTransaction),
    ConfirmedFailure(ConfirmedTransactionFailure),
    /// It was not sent, for this reason.
    Other(String),
}

/// A [`TransactionError`], as mathematical values.
pub ghost enum TransactionFault {
    Unresolved(Seq<u8>),
    ConfirmedFailure(Seq<u8>, Seq<char>),
    Other(Seq<char>),
}

impl View for TransactionError {
    type V = TransactionFault;

    open spec fn view(&self) -> TransactionFault {
        match *self {
            TransactionError::Unresolved(u) => TransactionFault::Unresolved(u.tx_hash@),
            TransactionError::ConfirmedFailure(f) => TransactionFault::ConfirmedFailure(
                f.tx_hash@,
                f.detail@,
            ),
            TransactionError::Other(reason) => TransactionFault::Other(reason@),
        }
    }
}

/// Whether the fate of a transaction is not known.
pub fn is_unresolved_transaction(error: &TransactionError) -> (r: bool)
    ensures
        r == (error@ is Unresolved),
{
    match error {
        TransactionError::Unresolved(_) => true,
        _ => false,
    }
}

/// Whether a transaction was executed and failed.
pub fn is_confirmed_transaction_failure(error: &TransactionError) -> (r: bool)
    ensures
        r == (error@ is ConfirmedFailure),
{
    match error {
        TransactionError::ConfirmedFailure(_) => true,
        _ => false,
    }
}

impl TransactionError {
    pub fn message(&self) -> (r: String)
        ensures
            r@ == match self@ {
                TransactionFault::Unresolved(hash) => "transaction "@ + hash_text(hash)
                    + " remains unresolved after broadcast"@,
                TransactionFault::ConfirmedFailure(hash, detail) => "transaction "@ + hash_text(
                    hash,
                ) + " executed but failed: "@ + detail,
                TransactionFault::Other(reason) => reason,
            },
    {
        match self {
            TransactionError::Unresolved(u) => u.message(),
            TransactionError::ConfirmedFailure(f) => f.message(),
            TransactionError::Other(reason) => reason.clone(),
        }
    }
}

/// At which point sending a transaction failed.
#[derive(Clone, Copy, PartialEq, Eq, Structural, Debug)]
pub enum SendFailure {
    ArgumentValidation,
    PreQuery,
    Validation,
    MetaSign,
    Signer,
    DataConversion,
    /// After the transaction may have left.
    Broadcast,
}

/// Whether a transaction that failed so was certainly not sent.
pub fn is_pre_broadcast_near_api_error(failure: SendFailure) -> (r: bool)
    ensures
        r == (failure != SendFailure::Broadcast),
{
    match failure {
        SendFailure::Broadcast => false,
        _ => true,
    }
}

/// What came of sending a transaction once.
#[derive(Debug)]
pub enum Broadcast {
    /// It is final, and succeeded or not.
    Final(bool),
    /// It was accepted, and is not final yet.
    Pending,
    /// No answer came in time.
    TimedOut,
    /// Sending failed at this point, for this reason.
    Failed(SendFailure, String),
}

/// How a transaction succeeded.
#[derive(Clone, Copy, PartialEq, Eq, Structural, Debug)]
pub struct SubmissionOutcome {
    /// Its fate had to be asked for.
    pub was_ambiguous: bool,
}

/// What follows from sending a transaction once.
#[derive(Debug)]
pub enum SubmitStep {
    /// It succeeded.
    Succeeded(SubmissionOutcome),
    /// Its fate is asked for by its hash; it is not sent again.
    Reconcile,
    Failed(TransactionError),
}

/// What follows from sending a transaction once: its outcome or failure, or nothing where only its
/// fate can tell.
pub open spec fn submitted(tx_hash: Seq<u8>, broadcast: Broadcast) -> Option<
    Result<SubmissionOutcome, TransactionFault>,
> {
    match broadcast {
        Broadcast::Final(true) => Some(Ok(SubmissionOutcome { was_ambiguous: false })),
        Broadcast::Final(false) => Some(
            Err(
                TransactionFault::ConfirmedFailure(
                    tx_hash,
                    "final execution status reported failure"@,
                ),
            ),
        ),
        Broadcast::Pending | Broadcast::TimedOut => None,
        Broadcast::Failed(failure, reason) => if failure == SendFailure::Broadcast {
            None
        } else {
            Some(
                Err(
                    TransactionFault::Other(
                        "near-api transaction preparation failed: "@ + reason@,
                    ),
                ),
            )
        },
    }
}

/// Decides what follows from sending a transaction once: where it may have left, its fate is asked
/// for and it is never sent again.
pub fn submit(tx_hash: CryptoHash, broadcast: &Broadcast) -> (r: SubmitStep)
    ensures
        match r {
            SubmitStep::Succeeded(outcome) => submitted(tx_hash@, *broadcast) == Some(
                Ok::<SubmissionOutcome, TransactionFault>(outcome),
            ),
            SubmitStep::Failed(error) => submitted(tx_hash@, *broadcast) == Some(
                Err::<SubmissionOutcome, TransactionFault>(error@),
            ),
            SubmitStep::Reconcile => submitted(tx_hash@, *broadcast) is None,
        },
{
    match broadcast {
        Broadcast::Final(succeeded) => if *succeeded {
            SubmitStep::Succeeded(SubmissionOutcome { was_ambiguous: false })
        } else {
            SubmitStep::Failed(
                TransactionError::ConfirmedFailure(
                    ConfirmedTransactionFailure {
                        tx_hash,
                        detail: "final execution status reported failure".to_owned(),
                    },
                ),
            )
        },
        Broadcast::Pending => SubmitStep::Reconcile,
        Broadcast::TimedOut => SubmitStep::Reconcile,
        Broadcast::Failed(failure, reason) => if is_pre_broadcast_near_api_error(*failure) {
            SubmitStep::Failed(
                TransactionError::Other(
                    join2("near-api transaction preparation failed: ", reason.as_str()),
                ),
            )
        } else {
            SubmitStep::Reconcile
        },
    }
}

/// Why the question for a transaction's fate was not answered.
#[derive(Clone, Copy, PartialEq, Eq, Structural, Debug)]
pub enum StatusFailure {
    Transport,
    /// The node gave up waiting.
    Timeout,
    /// The node does not know the transaction, perhaps not yet.
    UnknownTransaction,
    Other,
}

/// Whether it is worth asking again.
pub fn is_retryable_status_error(failure: StatusFailure) -> (r: bool)
    ensures
        r == (failure != StatusFailure::Other),
{
    match failure {
        StatusFailure::Other => false,
        _ => true,
    }
}

/// What a node answers to the question for a transaction's fate.
#[derive(Debug)]
pub enum StatusReply {
    /// No answer came in time.
    TimedOut,
    /// There is no outcome yet.
    NoOutcome,
    NotStarted,
    Started,
    Succeeded,
    /// It was executed and failed, as told.
    Failed(String),
    Error(StatusFailure),
}

/// The fate that a reply tells: none yet; success; failure; or that it will not be known.
pub open spec fn fate(reply: StatusReply, tx_hash: Seq<u8>) -> Option<Result<(), TransactionFault>> {
    match reply {
        StatusReply::TimedOut | StatusReply::NoOutcome | StatusReply::NotStarted
        | StatusReply::Started => None,
        StatusReply::Succeeded => Some(Ok(())),
        StatusReply::Failed(detail) => Some(
            Err(TransactionFault::ConfirmedFailure(tx_hash, detail@)),
        ),
        StatusReply::Error(failure) => if failure == StatusFailure::Other {
            Some(Err(TransactionFault::Unresolved(tx_hash)))
        } else {
            None
        },
    }
}

/// The fate of a transaction that was asked for so often, the last time with this reply.
pub open spec fn fate_at(asked: nat, reply: StatusReply, tx_hash: Seq<u8>) -> Option<
    Result<(), TransactionFault>,
> {
    match fate(reply, tx_hash) {
        Some(told) => Some(told),
        None => if asked >= STATUS_POLL_ATTEMPTS {
            Some(Err(TransactionFault::Unresolved(tx_hash)))
        } else {
            None
        },
    }
}

/// The fate of a transaction after the replies so far: what the first reply that tells it says;
/// unresolved when the last attempt told nothing; nothing while there are attempts left.
pub open spec fn fate_after(replies: Seq<StatusReply>, tx_hash: Seq<u8>) -> Option<
    Result<(), TransactionFault>,
>
    decreases replies.len(),
{
    if replies.len() == 0 {
        None
    } else {
        match fate_after(replies.drop_last(), tx_hash) {
            Some(told) => Some(told),
            None => fate_at(replies.len(), replies.last(), tx_hash),
        }
    }
}

/// The view of an optional fate.
pub open spec fn fate_view(r: Option<Result<(), TransactionError>>) -> Option<
    Result<(), TransactionFault>,
> {
    match r {
        None => None,
        Some(Ok(())) => Some(Ok(())),
        Some(Err(e)) => Some(Err(e@)),
    }
}

/// The search for a transaction's fate.
#[derive(Debug)]
pub struct Reconciliation {
    tx_hash: CryptoHash,
    /// How often it was asked for.
    asked: u32,
}

impl Reconciliation {
    pub closed spec fn hash(&self) -> Seq<u8> {
        self.tx_hash@
    }

    /// How often the fate was asked for.
    pub closed spec fn count(&self) -> nat {
        self.asked as nat
    }

    /// Starts to ask for the fate of a transaction.
    pub fn reconcile_transaction(tx_hash: CryptoHash) -> (r: Reconciliation)
        ensures
            r.hash() == tx_hash@,
            r.count() == 0,
    {
        Reconciliation { tx_hash, asked: 0 }
    }

    /// Takes an answer, and gives the fate once it is told or there are no attempts left. Until
    /// then it is to be asked for again, after a pause.
    pub fn reply(&mut self, reply: &StatusReply) -> (r: Option<Result<(), TransactionError>>)
        requires
            old(self).count() < STATUS_POLL_ATTEMPTS,
        ensures
            final(self).hash() == old(self).hash(),
            final(self).count() == old(self).count() + 1,
            fate_view(r) == fate_at(final(self).count(), *reply, old(self).hash()),
            r is None ==> final(self).count() < STATUS_POLL_ATTEMPTS,
    {
        self.asked = self.asked + 1;
        let tx_hash: CryptoHash = self.tx_hash;
        match reply {
            StatusReply::Succeeded => {
                return Some(Ok(()));
            },
            StatusReply::Failed(detail) => {
                return Some(
                    Err(
                        TransactionError::ConfirmedFailure(
                            ConfirmedTransactionFailure { tx_hash, detail: detail.clone() },
                        ),
                    ),
                );
            },
            StatusReply::Error(failure) => {
                if !is_retryable_status_error(*failure) {
                    return Some(
                        Err(TransactionError::Unresolved(UnresolvedTransaction { tx_hash })),
                    );
                }
            },
            _ => {},
        }
        if self.asked >= STATUS_POLL_ATTEMPTS {
            Some(Err(TransactionError::Unresolved(UnresolvedTransaction { tx_hash })))
        } else {
            None
        }
    }
}

/// The fate of a transaction, for answers that were given one after another.
pub fn reconcile_all(tx_hash: CryptoHash, replies: &Vec<StatusReply>) -> (r: Option<
    Result<(), TransactionError>,
>)
    ensures
        fate_view(r) == fate_after(replies@, tx_hash@),
{
    let mut search: Reconciliation = Reconciliation::reconcile_transaction(tx_hash);
    let mut i: usize = 0;
    assert(replies@.take(0) =~= Seq::empty());
    while i < replies.len()
        invariant
            i <= replies.len(),
            search.hash() == tx_hash@,
            search.count() == i,
            i < STATUS_POLL_ATTEMPTS,
            fate_after(replies@.take(i as int), tx_hash@) is None,
        decreases replies.len() - i,
    {
        assert(replies@.take(i + 1).drop_last() =~= replies@.take(i as int));
        assert(replies@.take(i + 1).last() == replies@[i as int]);
        match search.reply(&replies[i]) {
            Some(told) => {
                proof {
                    lemma_fate_stays(replies@, i + 1, tx_hash@);
                }
                return Some(told);
            },
            None => {},
        }
        i += 1;
    }
    assert(replies@.take(i as int) =~= replies@);
    None
}

proof fn lemma_fate_stays(replies: Seq<StatusReply>, i: int, tx_hash: Seq<u8>)
    requires
        0 <= i <= replies.len(),
        fate_after(replies.take(i), tx_hash) is Some,
    ensures
        fate_after(replies, tx_hash) == fate_after(replies.take(i), tx_hash),
    decreases replies.len() - i,
{
    if i == replies.len() {
        assert(replies.take(i) =~= replies);
    } else {
        assert(replies.take(i + 1).drop_last() =~= replies.take(i));
        lemma_fate_stays(replies, i + 1, tx_hash);
    }
}

/// What is to be done once the nonce is settled.
#[derive(Clone, Copy, PartialEq, Eq, Structural, Debug)]
pub enum PostSubmit {
    Confirmed,
    /// The nonce is to be compared with the node's before anything else is sent.
    NeedsRefresh,
}

/// The view of what came of a transaction.
pub open spec fn outcome_view(result: Result<SubmissionOutcome, TransactionError>) -> Result<
    SubmissionOutcome,
    TransactionFault,
> {
    match result {
        Ok(outcome) => Ok(outcome),
        Err(error) => Err(error@),
    }
}

/// The nonces after a transaction with this nonce was submitted: executed, well or not, it used the
/// nonce; otherwise the nonce is forgotten, for the transaction may have been executed after all.
pub open spec fn settled(
    nonces: Map<NonceKey, u64>,
    k: NonceKey,
    nonce: u64,
    result: Result<SubmissionOutcome, TransactionFault>,
) -> Map<NonceKey, u64> {
    if result is Ok || result->Err_0 is ConfirmedFailure {
        if nonce < u64::MAX {
            merged(nonces, k, nonce)
        } else {
            nonces
        }
    } else {
        nonces.remove(k)
    }
}

/// What is to be done once the nonce is settled, or why the transaction did not succeed.
pub open spec fn after_settling(nonce: u64, result: Result<SubmissionOutcome, TransactionFault>) -> Result<
    PostSubmit,
    TransactionFault,
> {
    match result {
        Ok(outcome) => if nonce == u64::MAX {
            Err(TransactionFault::Other("transaction nonce overflow"@))
        } else if outcome.was_ambiguous {
            Ok(PostSubmit::NeedsRefresh)
        } else {
            Ok(PostSubmit::Confirmed)
        },
        Err(fault) => if fault is ConfirmedFailure && nonce == u64::MAX {
            Err(TransactionFault::Other("transaction nonce overflow"@))
        } else {
            Err(fault)
        },
    }
}

/// Settles the nonce after a transaction was submitted.
pub fn settle_nonce(
    nonce_tracker: &mut NonceTracker,
    signer: &Credentials,
    nonce: u64,
    result: Result<SubmissionOutcome, TransactionError>,
) -> (r: Result<PostSubmit, TransactionError>)
    requires
        old(nonce_tracker).wf(),
    ensures
        final(nonce_tracker).wf(),
        final(nonce_tracker)@ == settled(
            old(nonce_tracker)@,
            nonce_key(signer@),
            nonce,
            outcome_view(result),
        ),
        match r {
            Ok(post) => after_settling(nonce, outcome_view(result)) == Ok::<
                PostSubmit,
                TransactionFault,
            >(post),
            Err(error) => after_settling(nonce, outcome_view(result)) == Err::<
                PostSubmit,
                TransactionFault,
            >(error@),
        },
{
    match result {
        Ok(outcome) => {
            match nonce_tracker.confirmed(signer, nonce) {
                Ok(()) => {},
                Err(message) => {
                    return Err(TransactionError::Other(message));
                },
            }
            if outcome.was_ambiguous {
                Ok(PostSubmit::NeedsRefresh)
            } else {
                Ok(PostSubmit::Confirmed)
            }
        },
        Err(error) => {
            if is_confirmed_transaction_failure(&error) {
                match nonce_tracker.confirmed(signer, nonce) {
                    Ok(()) => {},
                    Err(message) => {
                        return Err(TransactionError::Other(message));
                    },
                }
            } else {
                nonce_tracker.invalidate(signer);
            }
            Err(error)
        },
    }
}

/// A transaction that was executed, well or not, has used its nonce: the next is a later one.
pub proof fn law_an_executed_transaction_uses_its_nonce(
    nonces: Map<NonceKey, u64>,
    k: NonceKey,
    nonce: u64,
    result: Result<SubmissionOutcome, TransactionFault>,
)
    requires
        nonce < u64::MAX,
        result is Ok || result->Err_0 is ConfirmedFailure,
    ensures
        settled(nonces, k, nonce, result).dom().contains(k),
        settled(nonces, k, nonce, result)[k] > nonce,
{
}

/// The nonce of a transaction whose fate is not known is not used again before the node was asked.
pub proof fn law_an_unresolved_nonce_is_forgotten(
    nonces: Map<NonceKey, u64>,
    k: NonceKey,
    nonce: u64,
    tx_hash: Seq<u8>,
)
    ensures
        ({
            let after = settled(nonces, k, nonce, Err(TransactionFault::Unresolved(tx_hash)));
            &&& !after.dom().contains(k)
            &&& forall|q: NonceKey|
                q != k && nonces.dom().contains(q) ==> #[trigger] after.dom().contains(q)
                    && after[q] == nonces[q]
        }),
{
}

/// The fate of a transaction is told after thirty questions at the latest.
pub proof fn law_a_fate_is_told_in_time(replies: Seq<StatusReply>, tx_hash: Seq<u8>)
    requires
        replies.len() >= STATUS_POLL_ATTEMPTS,
    ensures
        fate_after(replies, tx_hash) is Some,
{
    let first = replies.take(STATUS_POLL_ATTEMPTS as int);
    assert(first.len() == STATUS_POLL_ATTEMPTS);
    assert(fate_after(first, tx_hash) is Some);
    lemma_fate_stays(replies, STATUS_POLL_ATTEMPTS as int, tx_hash);
}

/// A transaction counts as succeeded, or as failed, only where a node said so.
pub proof fn law_only_a_node_tells_success_or_failure(replies: Seq<StatusReply>, tx_hash: Seq<u8>)
    requires
        fate_after(replies, tx_hash) is Some,
        !(fate_after(replies, tx_hash)->0 is Err
            && fate_after(replies, tx_hash)->0->Err_0 is Unresolved),
    ensures
        exists|i: int|
            0 <= i < replies.len() && fate(#[trigger] replies[i], tx_hash) == fate_after(
                replies,
                tx_hash,
            ),
    decreases replies.len(),
{
    if replies.len() > 0 {
        let before = replies.drop_last();
        if fate_after(before, tx_hash) is Some {
            law_only_a_node_tells_success_or_failure(before, tx_hash);
            let i = choose|i: int|
                0 <= i < before.len() && fate(#[trigger] before[i], tx_hash) == fate_after(
                    before,
                    tx_hash,
                );
            assert(replies[i] == before[i]);
        } else {
            let n = replies.len() - 1;
            assert(fate(replies[n], tx_hash) == fate_after(replies, tx_hash));
        }
    }
}

} // verus!
