//! The removal of access keys once a deployment is final: all of the token's, and those of the
//! controller that the operator does not want to keep.
use crate::account::AccountId;
use crate::deploy_cli::config::Config;
use crate::text::{decimal, decimal_text, join2, opt_text, texts};
use vstd::prelude::*;

verus! {

/// An account whose access keys are removed.
#[derive(Debug)]
pub struct KeyTarget {
    pub account_id: AccountId,
    /// Every key goes, without a question.
    pub remove_all: bool,
}

/// What finalizing is refused for.
pub open spec fn abort_text() -> Seq<char> {
    "finalization aborted: run the functional checks first"@
}

/// The accounts that are finalized, in order, once the operator has confirmed that the release,
/// pause, freeze and upgrade checks passed: without a key, a contract whose upgrade path is broken
/// cannot be repaired.
pub fn finalize(config: &Config, confirmed: bool) -> (r: Result<Vec<KeyTarget>, String>)
    ensures
        match r {
            Ok(targets) => confirmed && targets@.len() == 2 && targets@[0].account_id@
                == config@.token_id && targets@[0].remove_all && targets@[1].account_id@
                == config@.controller_id && !targets@[1].remove_all,
            Err(message) => !confirmed && message@ == abort_text(),
        },
{
    if !confirmed {
        return Err("finalization aborted: run the functional checks first".to_owned());
    }
    let mut targets: Vec<KeyTarget> = Vec::new();
    targets.push(KeyTarget { account_id: config.token_id.copy(), remove_all: true });
    targets.push(KeyTarget { account_id: config.controller_id.copy(), remove_all: false });
    Ok(targets)
}

/// Where a removal stands: the task whose result it waits for.
#[derive(Clone, Copy, PartialEq, Eq, Structural, Debug)]
pub enum KeyStage {
    Listing,
    /// The account's credentials are read.
    Loading,
    /// The operator is asked whether this key, by its place in the list, is to go.
    Asking(usize),
    Removing(usize),
    /// The keys are read back.
    Relisting,
    Done,
}

/// What came of a task.
#[derive(Debug)]
pub enum KeyReply {
    /// The account has these keys.
    Keys(Vec<String>),
    Done,
    /// The task could not be tried, for this reason; for the credentials, the path where they are
    /// missing.
    Failed(String),
    /// The task was tried and came to nothing, for this reason.
    Rejected(String),
    /// What the operator answered.
    Answer(bool),
}

/// What is to be done next.
#[derive(Debug)]
pub enum KeyTask {
    /// List the account's keys.
    List,
    /// Read the account's credentials.
    Load,
    /// Ask whether the key is to go.
    Ask(String),
    /// Delete the key from the account.
    Remove(String),
    Finish,
}

/// A [`KeyTask`], as mathematical values.
pub ghost enum KeyTaskView {
    List,
    Load,
    Ask(Seq<char>),
    Remove(Seq<char>),
    Finish,
}

impl View for KeyTask {
    type V = KeyTaskView;

    open spec fn view(&self) -> KeyTaskView {
        match *self {
            KeyTask::List => KeyTaskView::List,
            KeyTask::Load => KeyTaskView::Load,
            KeyTask::Ask(key) => KeyTaskView::Ask(key@),
            KeyTask::Remove(key) => KeyTaskView::Remove(key@),
            KeyTask::Finish => KeyTaskView::Finish,
        }
    }
}

/// A removal, as mathematical values.
pub ghost struct RemovalView {
    pub account: Seq<char>,
    pub remove_all: bool,
    /// The keys that the account had.
    pub keys: Seq<Seq<char>>,
    pub stage: KeyStage,
    /// How many keys were left when they were read back.
    pub remaining: nat,
    /// What failed.
    pub failure: Option<Seq<char>>,
}

/// How a removal starts.
pub open spec fn removal_start(account: Seq<char>, remove_all: bool) -> RemovalView {
    RemovalView {
        account,
        remove_all,
        keys: Seq::empty(),
        stage: KeyStage::Listing,
        remaining: 0,
        failure: None,
    }
}

/// Goes on to the key at this place; reads the keys back after the last.
pub open spec fn at_key(v: RemovalView, i: int) -> RemovalView {
    RemovalView {
        stage: if i >= v.keys.len() {
            KeyStage::Relisting
        } else if v.remove_all {
            KeyStage::Removing(i as usize)
        } else {
            KeyStage::Asking(i as usize)
        },
        ..v
    }
}

/// Ends with a failure.
pub open spec fn key_failure(v: RemovalView, message: Seq<char>) -> RemovalView {
    RemovalView { stage: KeyStage::Done, failure: Some(message), ..v }
}

/// The last words on a reply that does not answer its task.
pub open spec fn key_mismatch_text() -> Seq<char> {
    "the reply does not belong to the task"@
}

/// How a removal goes on from what came of its task.
pub open spec fn key_replied(v: RemovalView, reply: KeyReply) -> RemovalView {
    match v.stage {
        KeyStage::Listing => match reply {
            KeyReply::Keys(keys) => if keys@.len() == 0 {
                RemovalView { stage: KeyStage::Done, ..v }
            } else {
                RemovalView { stage: KeyStage::Loading, keys: texts(keys@), ..v }
            },
            KeyReply::Failed(_) => key_failure(v, "failed to list access keys on "@ + v.account),
            _ => key_failure(v, key_mismatch_text()),
        },
        KeyStage::Loading => match reply {
            KeyReply::Done => at_key(v, 0),
            KeyReply::Failed(reason) => key_failure(
                v,
                "need credentials for "@ + v.account + " at "@ + reason@,
            ),
            _ => key_failure(v, key_mismatch_text()),
        },
        KeyStage::Asking(i) => match reply {
            KeyReply::Answer(yes) => if yes {
                RemovalView { stage: KeyStage::Removing(i), ..v }
            } else {
                at_key(v, i + 1)
            },
            KeyReply::Failed(reason) => key_failure(v, reason@),
            _ => key_failure(v, key_mismatch_text()),
        },
        KeyStage::Removing(i) => match reply {
            KeyReply::Done => at_key(v, i + 1),
            KeyReply::Failed(reason) => key_failure(v, reason@),
            KeyReply::Rejected(_) => key_failure(
                v,
                "failed to delete "@ + v.keys[i as int] + " from "@ + v.account,
            ),
            _ => key_failure(v, key_mismatch_text()),
        },
        KeyStage::Relisting => match reply {
            KeyReply::Keys(keys) => {
                let left = RemovalView { remaining: keys@.len(), ..v };
                if v.remove_all && keys@.len() > 0 {
                    key_failure(
                        left,
                        v.account + " still has "@ + decimal_text(keys@.len())
                            + " access key(s) after finalization"@,
                    )
                } else {
                    RemovalView { stage: KeyStage::Done, ..left }
                }
            },
            KeyReply::Failed(_) => key_failure(
                v,
                "failed to re-read access keys on "@ + v.account,
            ),
            _ => key_failure(v, key_mismatch_text()),
        },
        KeyStage::Done => v,
    }
}

/// The task of a removal.
pub open spec fn key_task_of(v: RemovalView) -> KeyTaskView {
    match v.stage {
        KeyStage::Listing => KeyTaskView::List,
        KeyStage::Loading => KeyTaskView::Load,
        KeyStage::Asking(i) => KeyTaskView::Ask(v.keys[i as int]),
        KeyStage::Removing(i) => KeyTaskView::Remove(v.keys[i as int]),
        KeyStage::Relisting => KeyTaskView::List,
        KeyStage::Done => KeyTaskView::Finish,
    }
}

/// A removal of access keys that runs.
pub struct KeyRemoval {
    account_id: AccountId,
    remove_all: bool,
    keys: Vec<String>,
    stage: KeyStage,
    remaining: usize,
    failure: Option<String>,
}

impl View for KeyRemoval {
    type V = RemovalView;

    closed spec fn view(&self) -> RemovalView {
        RemovalView {
            account: self.account_id@,
            remove_all: self.remove_all,
            keys: texts(self.keys@),
            stage: self.stage,
            remaining: self.remaining as nat,
            failure: opt_text(self.failure),
        }
    }
}

impl KeyRemoval {
    /// The key that is worked on is in the list.
    pub closed spec fn wf(&self) -> bool {
        match self.stage {
            KeyStage::Asking(i) => i < self.keys@.len(),
            KeyStage::Removing(i) => i < self.keys@.len(),
            _ => true,
        }
    }

    /// Starts to remove the keys of an account: all of them, or those that the operator lets go.
    pub fn remove_access_keys(account_id: AccountId, remove_all: bool) -> (r: KeyRemoval)
        ensures
            r.wf(),
            r@ == removal_start(account_id@, remove_all),
    {
        let keys: Vec<String> = Vec::new();
        assert(texts(keys@) =~= Seq::empty());
        KeyRemoval {
            account_id,
            remove_all,
            keys,
            stage: KeyStage::Listing,
            remaining: 0,
            failure: None,
        }
    }

    /// The task that is to be performed now.
    pub fn task(&self) -> (r: KeyTask)
        requires
            self.wf(),
        ensures
            r@ == key_task_of(self@),
    {
        match self.stage {
            KeyStage::Listing => KeyTask::List,
            KeyStage::Loading => KeyTask::Load,
            KeyStage::Asking(i) => KeyTask::Ask(self.keys[i].clone()),
            KeyStage::Removing(i) => KeyTask::Remove(self.keys[i].clone()),
            KeyStage::Relisting => KeyTask::List,
            KeyStage::Done => KeyTask::Finish,
        }
    }

    fn fail(&mut self, message: String)
        ensures
            final(self).wf(),
            final(self)@ == key_failure(old(self)@, message@),
    {
        self.stage = KeyStage::Done;
        self.failure = Some(message);
    }

    fn go_to(&mut self, i: usize)
        ensures
            final(self).wf(),
            final(self)@ == at_key(old(self)@, i as int),
    {
        self.stage =
        if i >= self.keys.len() {
            KeyStage::Relisting
        } else if self.remove_all {
            KeyStage::Removing(i)
        } else {
            KeyStage::Asking(i)
        };
    }

    /// Goes on from what came of the task.
    pub fn reply(&mut self, reply: KeyReply)
        requires
            old(self).wf(),
        ensures
            final(self).wf(),
            final(self)@ == key_replied(old(self)@, reply),
    {
        assert(self.keys.len() <= usize::MAX);
        match self.stage {
            KeyStage::Listing => match reply {
                KeyReply::Keys(keys) => {
                    if keys.len() == 0 {
                        self.stage = KeyStage::Done;
                    } else {
                        self.keys = keys;
                        self.stage = KeyStage::Loading;
                    }
                },
                KeyReply::Failed(_) => {
                    let message: String = join2(
                        "failed to list access keys on ",
                        self.account_id.as_str(),
                    );
                    self.fail(message);
                },
                _ => self.fail("the reply does not belong to the task".to_owned()),
            },
            KeyStage::Loading => match reply {
                KeyReply::Done => self.go_to(0),
                KeyReply::Failed(reason) => {
                    let mut message: String = join2(
                        "need credentials for ",
                        self.account_id.as_str(),
                    );
                    message.append(" at ");
                    message.append(reason.as_str());
                    self.fail(message);
                },
                _ => self.fail("the reply does not belong to the task".to_owned()),
            },
            KeyStage::Asking(i) => match reply {
                KeyReply::Answer(yes) => {
                    if yes {
                        self.stage = KeyStage::Removing(i);
                    } else {
                        self.go_to(i + 1);
                    }
                },
                KeyReply::Failed(reason) => self.fail(reason),
                _ => self.fail("the reply does not belong to the task".to_owned()),
            },
            KeyStage::Removing(i) => match reply {
                KeyReply::Done => self.go_to(i + 1),
                KeyReply::Failed(reason) => self.fail(reason),
                KeyReply::Rejected(_) => {
                    let mut message: String = join2("failed to delete ", self.keys[i].as_str());
                    message.append(" from ");
                    message.append(self.account_id.as_str());
                    self.fail(message);
                },
                _ => self.fail("the reply does not belong to the task".to_owned()),
            },
            KeyStage::Relisting => match reply {
                KeyReply::Keys(keys) => {
                    self.remaining = keys.len();
                    if self.remove_all && keys.len() > 0 {
                        let mut message: String = self.account_id.as_str().to_owned();
                        message.append(" still has ");
                        message.append(decimal(keys.len() as u128).as_str());
                        message.append(" access key(s) after finalization");
                        self.fail(message);
                    } else {
                        self.stage = KeyStage::Done;
                    }
                },
                KeyReply::Failed(_) => {
                    let message: String = join2(
                        "failed to re-read access keys on ",
                        self.account_id.as_str(),
                    );
                    self.fail(message);
                },
                _ => self.fail("the reply does not belong to the task".to_owned()),
            },
            KeyStage::Done => {},
        }
    }

    /// How the removal ended, once it is done: with the number of keys that are left, or with what
    /// failed.
    pub fn result(&self) -> (r: Option<Result<usize, String>>)
        ensures
            match r {
                None => self@.stage != KeyStage::Done,
                Some(Ok(n)) => self@.stage == KeyStage::Done && self@.failure is None && n
                    == self@.remaining,
                Some(Err(message)) => self@.stage == KeyStage::Done && self@.failure == Some(
                    message@,
                ),
            },
    {
        match self.stage {
            KeyStage::Done => match &self.failure {
                None => Some(Ok(self.remaining)),
                Some(message) => Some(Err(message.clone())),
            },
            _ => None,
        }
    }
}

/// A key is deleted only where every key goes or the operator said that this one does.
pub proof fn law_no_key_goes_without_leave(v: RemovalView, reply: KeyReply, i: usize)
    requires
        v.stage != KeyStage::Removing(i),
        key_replied(v, reply).stage == KeyStage::Removing(i),
    ensures
        v.remove_all || (v.stage == KeyStage::Asking(i) && reply == KeyReply::Answer(true)),
{
}

/// The key that is worked on is in the list.
pub open spec fn in_list(v: RemovalView) -> bool {
    match v.stage {
        KeyStage::Asking(i) => i < v.keys.len(),
        KeyStage::Removing(i) => i < v.keys.len(),
        KeyStage::Loading => v.keys.len() > 0,
        _ => true,
    }
}

/// Where every key goes, nothing is asked, and the keys are read back only when each of them was
/// deleted, from the first to the last.
pub proof fn law_every_key_goes(v: RemovalView, reply: KeyReply)
    requires
        v.remove_all,
        v.keys.len() <= usize::MAX,
        in_list(v),
        !(v.stage is Asking),
    ensures
        ({
            let w = key_replied(v, reply);
            &&& in_list(w)
            &&& !(w.stage is Asking)
            &&& w.stage is Removing ==> {
                ||| w.stage == KeyStage::Removing(0) && v.stage == KeyStage::Loading
                ||| v.stage == KeyStage::Removing((w.stage->Removing_0 - 1) as usize)
                    && reply is Done
            }
            &&& w.stage == KeyStage::Relisting ==> v.stage == KeyStage::Removing(
                (v.keys.len() - 1) as usize,
            ) && reply is Done
        }),
{
}

/// Where every key goes, success means that the account was read back and has none.
pub proof fn law_success_means_no_key_is_left(v: RemovalView, reply: KeyReply)
    requires
        v.remove_all,
        v.stage != KeyStage::Done,
        v.failure is None,
        key_replied(v, reply).stage == KeyStage::Done,
        key_replied(v, reply).failure is None,
    ensures
        reply is Keys,
        reply->Keys_0@.len() == 0,
{
}

/// A removal after the replies to its tasks.
pub open spec fn removal_through(v: RemovalView, replies: Seq<KeyReply>) -> RemovalView
    decreases replies.len(),
{
    if replies.len() == 0 {
        v
    } else {
        key_replied(removal_through(v, replies.drop_last()), replies.last())
    }
}

/// The keys that were deleted in a run, in order.
pub open spec fn keys_removed(v: RemovalView, replies: Seq<KeyReply>) -> Seq<Seq<char>>
    decreases replies.len(),
{
    if replies.len() == 0 {
        Seq::empty()
    } else {
        let earlier = keys_removed(v, replies.drop_last());
        match key_task_of(removal_through(v, replies.drop_last())) {
            KeyTaskView::Remove(key) => if replies.last() is Done {
                earlier.push(key)
            } else {
                earlier
            },
            _ => earlier,
        }
    }
}

/// The keys that the operator was asked about in a run, in order.
pub open spec fn keys_asked(v: RemovalView, replies: Seq<KeyReply>) -> Seq<Seq<char>>
    decreases replies.len(),
{
    if replies.len() == 0 {
        Seq::empty()
    } else {
        let earlier = keys_asked(v, replies.drop_last());
        match key_task_of(removal_through(v, replies.drop_last())) {
            KeyTaskView::Ask(key) => earlier.push(key),
            _ => earlier,
        }
    }
}

/// The keys that the operator let go in a run, in order.
pub open spec fn keys_let_go(v: RemovalView, replies: Seq<KeyReply>) -> Seq<Seq<char>>
    decreases replies.len(),
{
    if replies.len() == 0 {
        Seq::empty()
    } else {
        let earlier = keys_let_go(v, replies.drop_last());
        match key_task_of(removal_through(v, replies.drop_last())) {
            KeyTaskView::Ask(key) => if replies.last() == KeyReply::Answer(true) {
                earlier.push(key)
            } else {
                earlier
            },
            _ => earlier,
        }
    }
}

/// What has become of the keys of the list, up to where a removal stands.
spec fn accounted(
    v: RemovalView,
    removed: Seq<Seq<char>>,
    asked: Seq<Seq<char>>,
    let_go: Seq<Seq<char>>,
) -> bool {
    &&& v.keys.len() <= usize::MAX
    &&& v.remove_all ==> asked.len() == 0
    &&& match v.stage {
        KeyStage::Listing => v.keys.len() == 0 && removed.len() == 0 && asked.len() == 0
            && let_go.len() == 0 && v.remaining == 0 && v.failure is None,
        KeyStage::Loading => v.keys.len() > 0 && removed.len() == 0 && asked.len() == 0
            && let_go.len() == 0 && v.failure is None,
        KeyStage::Asking(i) => {
            &&& !v.remove_all
            &&& i < v.keys.len()
            &&& asked == v.keys.take(i as int)
            &&& removed == let_go
            &&& v.failure is None
        },
        KeyStage::Removing(i) => {
            &&& i < v.keys.len()
            &&& v.failure is None
            &&& if v.remove_all {
                removed == v.keys.take(i as int)
            } else {
                asked == v.keys.take(i + 1) && let_go == removed.push(v.keys[i as int])
            }
        },
        KeyStage::Relisting => {
            &&& v.failure is None
            &&& if v.remove_all {
                removed == v.keys
            } else {
                asked == v.keys && removed == let_go
            }
        },
        KeyStage::Done => v.failure is None ==> if v.remove_all {
            removed == v.keys && v.remaining == 0
        } else {
            asked == v.keys && removed == let_go
        },
    }
}

proof fn lemma_listed_once(account: Seq<char>, remove_all: bool, replies: Seq<KeyReply>)
    requires
        replies.len() > 0,
    ensures
        removal_through(removal_start(account, remove_all), replies).stage != KeyStage::Listing,
    decreases replies.len(),
{
    if replies.len() > 1 {
        lemma_listed_once(account, remove_all, replies.drop_last());
    } else {
        assert(removal_through(removal_start(account, remove_all), replies.drop_last())
            == removal_start(account, remove_all));
    }
}

proof fn lemma_accounted(account: Seq<char>, remove_all: bool, replies: Seq<KeyReply>)
    ensures
        removal_through(removal_start(account, remove_all), replies).remove_all == remove_all,
        replies.len() > 0 && removal_through(
            removal_start(account, remove_all),
            replies,
        ).failure is None ==> replies[0] is Keys && removal_through(
            removal_start(account, remove_all),
            replies,
        ).keys == texts(replies[0]->Keys_0@),
        accounted(
            removal_through(removal_start(account, remove_all), replies),
            keys_removed(removal_start(account, remove_all), replies),
            keys_asked(removal_start(account, remove_all), replies),
            keys_let_go(removal_start(account, remove_all), replies),
        ),
    decreases replies.len(),
{
    if replies.len() > 0 {
        let start = removal_start(account, remove_all);
        let before = replies.drop_last();
        let reply = replies.last();
        lemma_accounted(account, remove_all, before);
        let v = removal_through(start, before);
        let w = removal_through(start, replies);
        match reply {
            KeyReply::Keys(keys) => {
                assert(keys.len() <= usize::MAX);
                assert(texts(keys@).len() == keys@.len());
            },
            _ => {},
        }
        assert(v.keys.take(0) =~= Seq::empty());
        match v.stage {
            KeyStage::Listing => {
                assert(keys_removed(start, replies) =~= Seq::empty());
                assert(keys_asked(start, replies) =~= Seq::empty());
                assert(keys_let_go(start, replies) =~= Seq::empty());
                assert(w.stage == KeyStage::Done && w.failure is None ==> w.keys =~= texts(
                    reply->Keys_0@,
                ));
                if before.len() > 0 {
                    lemma_listed_once(account, remove_all, before);
                }
            },
            KeyStage::Loading => {
                assert(keys_removed(start, replies) =~= Seq::empty());
                assert(keys_asked(start, replies) =~= Seq::empty());
                assert(keys_let_go(start, replies) =~= Seq::empty());
            },
            KeyStage::Asking(i) => {
                assert(v.keys.take(i + 1) =~= v.keys.take(i as int).push(v.keys[i as int]));
                if i + 1 == v.keys.len() {
                    assert(v.keys.take(i + 1) =~= v.keys);
                }
            },
            KeyStage::Removing(i) => {
                assert(v.keys.take(i + 1) =~= v.keys.take(i as int).push(v.keys[i as int]));
                if i + 1 == v.keys.len() {
                    assert(v.keys.take(i + 1) =~= v.keys);
                }
            },
            _ => {},
        }
    }
}

/// What a whole run that ends well has done: where every key was to go, every key of the list was
/// deleted, in its order and without a question, and none was left when the keys were read back;
/// otherwise the operator was asked about every key of the list, in its order, and exactly the keys
/// that were let go were deleted.
pub proof fn law_what_a_whole_removal_does(
    account: Seq<char>,
    remove_all: bool,
    replies: Seq<KeyReply>,
)
    requires
        removal_through(removal_start(account, remove_all), replies).stage == KeyStage::Done,
        removal_through(removal_start(account, remove_all), replies).failure is None,
    ensures
        ({
            let start = removal_start(account, remove_all);
            let end = removal_through(start, replies);
            &&& replies[0] is Keys
            &&& end.keys == texts(replies[0]->Keys_0@)
            &&& if remove_all {
                &&& keys_removed(start, replies) == end.keys
                &&& keys_asked(start, replies).len() == 0
                &&& end.remaining == 0
            } else {
                &&& keys_asked(start, replies) == end.keys
                &&& keys_removed(start, replies) == keys_let_go(start, replies)
            }
        }),
{
    assert(replies.len() > 0);
    lemma_accounted(account, remove_all, replies);
}

/// A removal goes on, without a failure, from every reply that belongs to its task; only keys that are
/// left although every key was to go end it with one.
pub proof fn law_a_removal_goes_on_from_its_replies(v: RemovalView, reply: KeyReply)
    requires
        v.failure is None,
        match v.stage {
            KeyStage::Listing => reply is Keys,
            KeyStage::Loading => reply is Done,
            KeyStage::Asking(_) => reply is Answer,
            KeyStage::Removing(_) => reply is Done,
            KeyStage::Relisting => reply is Keys,
            KeyStage::Done => true,
        },
    ensures
        key_replied(v, reply).failure is Some <==> v.stage is Relisting && v.remove_all
            && reply->Keys_0@.len() > 0,
        key_replied(v, reply).account == v.account,
        key_replied(v, reply).remove_all == v.remove_all,
{
}

/// Any other reply ends a removal with a failure.
pub proof fn law_a_failed_task_ends_the_removal(v: RemovalView, reply: KeyReply)
    requires
        v.stage != KeyStage::Done,
        reply is Failed || reply is Rejected,
    ensures
        key_replied(v, reply).stage == KeyStage::Done,
        key_replied(v, reply).failure is Some,
{
}

} // verus!
