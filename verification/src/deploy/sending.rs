//! The sending of a transaction: which nonce it takes, what is asked of the node, and how it ends.
use crate::deploy::credentials::Credentials;
use crate::deploy::nonces::{merged, nonce_key, NonceKey, NonceTracker};
use crate::deploy::rpc::{AccessKeyView, CryptoHash};
use crate::deploy::transaction::{
    after_settling, fate_at, fate_view, outcome_view, settle_nonce, settled, submit, submitted, Broadcast,
    PostSubmit, Reconciliation, StatusReply, SubmissionOutcome, SubmitStep, Transaction,
    TransactionError, TransactionFault, STATUS_POLL_ATTEMPTS,
};
use vstd::prelude::*;

verus! {

/// What a transaction that is being sent waits for.
#[derive(Clone, Copy, PartialEq, Eq, Structural, Debug)]
pub enum SendStage {
    /// The node is asked for the signer's key, whose nonce is not known.
    Asking,
    /// The transaction is signed and broadcast, once.
    Broadcasting,
    /// The node is asked for the fate of the transaction.
    Polling,
    /// The node is asked for the signer's key again, after a broadcast that did not tell the fate.
    Refreshing,
    Done,
}

/// What came of a stage.
#[derive(Debug)]
pub enum SendEvent {
    /// The signer's key, or why there is none.
    Key(Result<AccessKeyView, String>),
    /// The transaction could not be signed, for this reason.
    Unprepared(String),
    /// The transaction with this hash was broadcast.
    Sent(CryptoHash, Broadcast),
    /// What the node said of the transaction's fate.
    Status(StatusReply),
}

/// A transaction that is being sent, as mathematical values.
pub ghost struct SendView {
    pub key: NonceKey,
    pub stage: SendStage,
    /// The nonce that the transaction takes, once it is known.
    pub nonce: u64,
    /// The hash of the transaction, once it was broadcast.
    pub hash: Seq<u8>,
    /// How often its fate was asked for.
    pub asked: nat,
    /// How it ended.
    pub result: Option<Result<(), TransactionFault>>,
}

/// The nonces after the node showed the signer's key, or why the key is not used.
pub open spec fn refreshed(nonces: Map<NonceKey, u64>, k: NonceKey, key: AccessKeyView) -> Result<
    Map<NonceKey, u64>,
    Seq<char>,
> {
    if !(key.permission is FullAccess) {
        Err("signer access key is not full access"@)
    } else if key.nonce == u64::MAX {
        Err("transaction nonce overflow"@)
    } else {
        Ok(merged(nonces, k, key.nonce))
    }
}

/// How the sending starts: with the nonce that is known, else with the question for it.
pub open spec fn send_start(k: NonceKey, nonces: Map<NonceKey, u64>) -> SendView {
    SendView {
        key: k,
        stage: if nonces.dom().contains(k) {
            SendStage::Broadcasting
        } else {
            SendStage::Asking
        },
        nonce: if nonces.dom().contains(k) {
            nonces[k]
        } else {
            0
        },
        hash: Seq::empty(),
        asked: 0,
        result: None,
    }
}

/// The sending has ended.
pub open spec fn ended(v: SendView, result: Result<(), TransactionFault>) -> SendView {
    SendView { stage: SendStage::Done, result: Some(result), ..v }
}

/// How the sending goes on once it is known what came of the transaction.
pub open spec fn send_settled(
    v: SendView,
    nonces: Map<NonceKey, u64>,
    outcome: Result<SubmissionOutcome, TransactionFault>,
) -> (SendView, Map<NonceKey, u64>) {
    (
        match after_settling(v.nonce, outcome) {
            Ok(PostSubmit::Confirmed) => ended(v, Ok(())),
            Ok(PostSubmit::NeedsRefresh) => SendView { stage: SendStage::Refreshing, ..v },
            Err(fault) => ended(v, Err(fault)),
        },
        settled(nonces, v.key, v.nonce, outcome),
    )
}

/// How the sending, and the nonces, go on from an event. An event that does not belong to the stage
/// changes nothing.
pub open spec fn send_after(v: SendView, nonces: Map<NonceKey, u64>, event: SendEvent) -> (
    SendView,
    Map<NonceKey, u64>,
) {
    match event {
        SendEvent::Key(Err(reason)) => if v.stage == SendStage::Asking || v.stage
            == SendStage::Refreshing {
            (ended(v, Err(TransactionFault::Other(reason@))), nonces)
        } else {
            (v, nonces)
        },
        SendEvent::Key(Ok(key)) => if v.stage == SendStage::Asking || v.stage
            == SendStage::Refreshing {
            match refreshed(nonces, v.key, key) {
                Err(reason) => (ended(v, Err(TransactionFault::Other(reason))), nonces),
                Ok(after) => if v.stage == SendStage::Refreshing {
                    (ended(v, Ok(())), after)
                } else {
                    (SendView { stage: SendStage::Broadcasting, nonce: after[v.key], ..v }, after)
                },
            }
        } else {
            (v, nonces)
        },
        SendEvent::Unprepared(reason) => if v.stage == SendStage::Broadcasting {
            (ended(v, Err(TransactionFault::Other(reason@))), nonces)
        } else {
            (v, nonces)
        },
        SendEvent::Sent(hash, broadcast) => if v.stage == SendStage::Broadcasting {
            let sent = SendView { hash: hash@, ..v };
            match submitted(hash@, broadcast) {
                Some(outcome) => send_settled(sent, nonces, outcome),
                None => (SendView { stage: SendStage::Polling, ..sent }, nonces),
            }
        } else {
            (v, nonces)
        },
        SendEvent::Status(reply) => if v.stage == SendStage::Polling {
            let asked = SendView { asked: v.asked + 1, ..v };
            match fate_at(asked.asked, reply, v.hash) {
                Some(Ok(())) => send_settled(
                    asked,
                    nonces,
                    Ok(SubmissionOutcome { was_ambiguous: true }),
                ),
                Some(Err(fault)) => send_settled(asked, nonces, Err(fault)),
                None => (asked, nonces),
            }
        } else {
            (v, nonces)
        },
    }
}

/// A transaction that is being sent.
pub struct Sending {
    signer: Credentials,
    stage: SendStage,
    nonce: u64,
    search: Option<Reconciliation>,
    result: Option<Result<(), TransactionError>>,
}

impl View for Sending {
    type V = SendView;

    closed spec fn view(&self) -> SendView {
        SendView {
            key: nonce_key(self.signer@),
            stage: self.stage,
            nonce: self.nonce,
            hash: match self.search {
                Some(search) => search.hash(),
                None => Seq::empty(),
            },
            asked: match self.search {
                Some(search) => search.count(),
                None => 0,
            },
            result: fate_view(self.result),
        }
    }
}

impl Transaction {
    /// Starts to send the transaction.
    pub fn send(&self, nonces: &NonceTracker) -> (r: Sending)
        requires
            nonces.wf(),
        ensures
            r.wf(),
            r@ == send_start(nonce_key(self.signer@), nonces@),
    {
        let known: Option<u64> = nonces.next_nonce(&self.signer);
        let signer: Credentials = self.signer.copy();
        match known {
            Some(nonce) => Sending {
                signer,
                stage: SendStage::Broadcasting,
                nonce,
                search: None,
                result: None,
            },
            None => Sending {
                signer,
                stage: SendStage::Asking,
                nonce: 0,
                search: None,
                result: None,
            },
        }
    }
}

impl Sending {
    /// The fate of the transaction is asked for only after the broadcast, and while there are
    /// attempts left.
    pub closed spec fn wf(&self) -> bool {
        &&& self.stage == SendStage::Asking || self.stage == SendStage::Broadcasting
            ==> self.search is None
        &&& self.stage == SendStage::Polling ==> self.search is Some && self.search->0.count()
            < STATUS_POLL_ATTEMPTS
    }

    /// What the transaction waits for.
    pub fn stage(&self) -> (r: SendStage)
        ensures
            r == self@.stage,
    {
        self.stage
    }

    /// The nonce that the transaction takes, once it is known.
    pub fn nonce(&self) -> (r: u64)
        ensures
            r == self@.nonce,
    {
        self.nonce
    }

    fn end(&mut self, result: Result<(), TransactionError>)
        ensures
            final(self).wf(),
            final(self)@ == ended(old(self)@, fate_view(Some(result))->0),
    {
        self.stage = SendStage::Done;
        self.result = Some(result);
    }

    fn settle(
        &mut self,
        nonces: &mut NonceTracker,
        outcome: Result<SubmissionOutcome, TransactionError>,
    )
        requires
            old(nonces).wf(),
        ensures
            final(nonces).wf(),
            final(self).wf(),
            (final(self)@, final(nonces)@) == send_settled(
                old(self)@,
                old(nonces)@,
                outcome_view(outcome),
            ),
    {
        match settle_nonce(nonces, &self.signer, self.nonce, outcome) {
            Ok(PostSubmit::Confirmed) => self.end(Ok(())),
            Ok(PostSubmit::NeedsRefresh) => {
                self.stage = SendStage::Refreshing;
            },
            Err(error) => self.end(Err(error)),
        }
    }

    fn take_key(&mut self, nonces: &mut NonceTracker, key: &AccessKeyView)
        requires
            old(self).wf(),
            old(nonces).wf(),
            old(self)@.stage == SendStage::Asking || old(self)@.stage == SendStage::Refreshing,
        ensures
            final(nonces).wf(),
            final(self).wf(),
            match refreshed(old(nonces)@, old(self)@.key, *key) {
                Err(reason) => final(self)@ == ended(
                    old(self)@,
                    Err(TransactionFault::Other(reason)),
                ) && final(nonces)@ == old(nonces)@,
                Ok(after) => final(nonces)@ == after && final(self)@ == if old(self)@.stage
                    == SendStage::Refreshing {
                    ended(old(self)@, Ok(()))
                } else {
                    SendView {
                        stage: SendStage::Broadcasting,
                        nonce: after[old(self)@.key],
                        ..old(self)@
                    }
                },
            },
    {
        match nonces.refresh(&self.signer, key) {
            Err(reason) => self.end(Err(TransactionError::Other(reason))),
            Ok(next) => match self.stage {
                SendStage::Refreshing => self.end(Ok(())),
                _ => {
                    self.nonce = next;
                    self.stage = SendStage::Broadcasting;
                },
            },
        }
    }

    fn broadcast(&mut self, nonces: &mut NonceTracker, hash: CryptoHash, broadcast: &Broadcast)
        requires
            old(self).wf(),
            old(nonces).wf(),
            old(self)@.stage == SendStage::Broadcasting,
        ensures
            final(self).wf(),
            final(nonces).wf(),
            (final(self)@, final(nonces)@) == send_after(
                old(self)@,
                old(nonces)@,
                SendEvent::Sent(hash, *broadcast),
            ),
    {
        self.search = Some(Reconciliation::reconcile_transaction(hash));
        match submit(hash, broadcast) {
            SubmitStep::Succeeded(outcome) => self.settle(nonces, Ok(outcome)),
            SubmitStep::Failed(error) => self.settle(nonces, Err(error)),
            SubmitStep::Reconcile => {
                self.stage = SendStage::Polling;
            },
        }
    }

    fn poll(&mut self, nonces: &mut NonceTracker, reply: &StatusReply)
        requires
            old(self).wf(),
            old(nonces).wf(),
            old(self)@.stage == SendStage::Polling,
        ensures
            final(self).wf(),
            final(nonces).wf(),
            (final(self)@, final(nonces)@) == send_after(
                old(self)@,
                old(nonces)@,
                SendEvent::Status(*reply),
            ),
    {
        let told: Option<Result<(), TransactionError>> = match self.search.take() {
            Some(found) => {
                let mut search: Reconciliation = found;
                let told = search.reply(reply);
                self.search = Some(search);
                told
            },
            None => None,
        };
        match told {
            Some(Ok(())) => self.settle(nonces, Ok(SubmissionOutcome { was_ambiguous: true })),
            Some(Err(error)) => self.settle(nonces, Err(error)),
            None => {},
        }
    }

    /// Goes on from what came of the stage.
    pub fn reply(&mut self, nonces: &mut NonceTracker, event: &SendEvent)
        requires
            old(self).wf(),
            old(nonces).wf(),
        ensures
            final(self).wf(),
            final(nonces).wf(),
            (final(self)@, final(nonces)@) == send_after(old(self)@, old(nonces)@, *event),
    {
        match self.stage {
            SendStage::Asking | SendStage::Refreshing => match event {
                SendEvent::Key(Ok(key)) => self.take_key(nonces, key),
                SendEvent::Key(Err(reason)) => self.end(
                    Err(TransactionError::Other(reason.clone())),
                ),
                _ => {},
            },
            SendStage::Broadcasting => match event {
                SendEvent::Unprepared(reason) => self.end(
                    Err(TransactionError::Other(reason.clone())),
                ),
                SendEvent::Sent(hash, broadcast) => self.broadcast(nonces, *hash, broadcast),
                _ => {},
            },
            SendStage::Polling => match event {
                SendEvent::Status(reply) => self.poll(nonces, reply),
                _ => {},
            },
            SendStage::Done => {},
        }
    }

    /// How the sending ended, once it is done.
    pub fn result(self) -> (r: Option<Result<(), TransactionError>>)
        ensures
            fate_view(r) == self@.result,
    {
        self.result
    }
}

/// The whole of a sending, for the events of its stages.
pub open spec fn send_through(v: SendView, nonces: Map<NonceKey, u64>, events: Seq<SendEvent>) -> (
    SendView,
    Map<NonceKey, u64>,
)
    decreases events.len(),
{
    if events.len() == 0 {
        (v, nonces)
    } else {
        let (w, between) = send_through(v, nonces, events.drop_last());
        send_after(w, between, events.last())
    }
}

/// After a transaction was broadcast, whatever came of it, it is never broadcast again.
pub proof fn law_a_transaction_is_broadcast_once(
    v: SendView,
    nonces: Map<NonceKey, u64>,
    hash: CryptoHash,
    broadcast: Broadcast,
    later: Seq<SendEvent>,
)
    requires
        v.stage == SendStage::Broadcasting,
    ensures
        ({
            let (w, after) = send_after(v, nonces, SendEvent::Sent(hash, broadcast));
            &&& w.stage != SendStage::Broadcasting
            &&& send_through(w, after, later).0.stage != SendStage::Broadcasting
        }),
{
    let (w, after) = send_after(v, nonces, SendEvent::Sent(hash, broadcast));
    lemma_sent_stays_sent(w, after, later);
}

proof fn lemma_sent_stays_sent(v: SendView, nonces: Map<NonceKey, u64>, later: Seq<SendEvent>)
    requires
        v.stage != SendStage::Broadcasting,
        v.stage != SendStage::Asking,
    ensures
        send_through(v, nonces, later).0.stage != SendStage::Broadcasting,
        send_through(v, nonces, later).0.stage != SendStage::Asking,
    decreases later.len(),
{
    if later.len() > 0 {
        lemma_sent_stays_sent(v, nonces, later.drop_last());
    }
}

/// A transaction takes the nonce that comes next for its key: the one that is known, or the one
/// after the nonce that the node shows.
pub proof fn law_a_transaction_takes_the_next_nonce(
    k: NonceKey,
    nonces: Map<NonceKey, u64>,
    key: AccessKeyView,
)
    ensures
        nonces.dom().contains(k) ==> send_start(k, nonces).stage == SendStage::Broadcasting
            && send_start(k, nonces).nonce == nonces[k],
        !nonces.dom().contains(k) ==> ({
            let (w, after) = send_after(
                send_start(k, nonces),
                nonces,
                SendEvent::Key(Ok(key)),
            );
            w.stage == SendStage::Broadcasting ==> w.nonce == key.nonce + 1 && after
                == nonces.insert(k, w.nonce)
        }),
{
}

/// What holds of a sending in every state: success means that the nonce was used up, and a fate
/// that is not known means that the nonce was forgotten.
pub open spec fn nonce_is_settled(v: SendView, nonces: Map<NonceKey, u64>) -> bool {
    &&& v.stage == SendStage::Refreshing || v.result == Some(Ok::<(), TransactionFault>(()))
        ==> nonces.dom().contains(v.key) && nonces[v.key] > v.nonce
    &&& v.result is Some && v.result->0 is Err && v.result->0->Err_0 is Unresolved
        ==> !nonces.dom().contains(v.key)
    &&& v.result is Some <==> v.stage == SendStage::Done
}

/// A sending settles its nonce: after success the next nonce is a later one, and after an unknown
/// fate the node must be asked before the key is used again.
pub proof fn law_a_sending_settles_its_nonce(
    k: NonceKey,
    v: SendView,
    nonces: Map<NonceKey, u64>,
    event: SendEvent,
)
    requires
        nonce_is_settled(v, nonces),
    ensures
        nonce_is_settled(send_start(k, nonces), nonces),
        nonce_is_settled(
            send_after(v, nonces, event).0,
            send_after(v, nonces, event).1,
        ),
{
}

/// Sending a transaction touches no other key's nonce.
pub proof fn law_a_sending_touches_its_own_nonce(
    v: SendView,
    nonces: Map<NonceKey, u64>,
    event: SendEvent,
    other: NonceKey,
)
    requires
        other != v.key,
    ensures
        ({
            let after = send_after(v, nonces, event).1;
            &&& after.dom().contains(other) == nonces.dom().contains(other)
            &&& nonces.dom().contains(other) ==> after[other] == nonces[other]
        }),
{
}

} // verus!
