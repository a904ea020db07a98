//! The nonces of transactions: which one comes next for each signing key.
use crate::account::AccountId;
use crate::deploy::credentials::{Credentials, CredentialsView};
use crate::deploy::rpc::{full_access, AccessKeyView};
use crate::text::same_text;
use vstd::prelude::*;

verus! {

/// The next nonce of one account with one key.
#[derive(Debug)]
struct NonceEntry {
    account_id: AccountId,
    public_key: String,
    next: u64,
}

/// A signing account and its key.
pub ghost struct NonceKey {
    pub account: Seq<char>,
    pub public_key: Seq<char>,
}

/// The account and key that credentials sign with.
pub open spec fn nonce_key(c: CredentialsView) -> NonceKey {
    NonceKey { account: c.account, public_key: c.public_key }
}

/// The nonces that come next, by account and key.
#[derive(Debug)]
pub struct NonceTracker {
    entries: Vec<NonceEntry>,
}

spec fn entry_key(e: NonceEntry) -> NonceKey {
    NonceKey { account: e.account_id@, public_key: e.public_key@ }
}

spec fn holds_key(entries: Seq<NonceEntry>, k: NonceKey) -> bool {
    exists|i: int| 0 <= i < entries.len() && entry_key(#[trigger] entries[i]) == k
}

spec fn place_of(entries: Seq<NonceEntry>, k: NonceKey) -> int {
    choose|i: int| 0 <= i < entries.len() && entry_key(#[trigger] entries[i]) == k
}

spec fn no_key_twice(entries: Seq<NonceEntry>) -> bool {
    forall|i: int, j: int|
        0 <= i < entries.len() && 0 <= j < entries.len() && entry_key(#[trigger] entries[i])
            == entry_key(#[trigger] entries[j]) ==> i == j
}

impl View for NonceTracker {
    type V = Map<NonceKey, u64>;

    closed spec fn view(&self) -> Map<NonceKey, u64> {
        Map::new(
            |k: NonceKey| holds_key(self.entries@, k),
            |k: NonceKey| self.entries@[place_of(self.entries@, k)].next,
        )
    }
}

/// The larger of two nonces.
pub open spec fn later(a: u64, b: u64) -> u64 {
    if a >= b {
        a
    } else {
        b
    }
}

/// The nonces after a node, or a confirmed transaction, showed that `used` was used: the next one
/// follows it, and never moves backwards.
pub open spec fn merged(nonces: Map<NonceKey, u64>, k: NonceKey, used: u64) -> Map<NonceKey, u64> {
    let next = (used + 1) as u64;
    nonces.insert(
        k,
        if nonces.dom().contains(k) {
            later(nonces[k], next)
        } else {
            next
        },
    )
}

impl NonceTracker {
    /// No account and key are entered twice.
    pub closed spec fn wf(&self) -> bool {
        no_key_twice(self.entries@)
    }

    /// A tracker that knows no nonce.
    pub fn new() -> (r: NonceTracker)
        ensures
            r.wf(),
            r@ == Map::<NonceKey, u64>::empty(),
    {
        let r = NonceTracker { entries: Vec::new() };
        assert(r@ =~= Map::<NonceKey, u64>::empty());
        r
    }

    fn find(&self, credentials: &Credentials) -> (r: Option<usize>)
        ensures
            match r {
                Some(i) => i < self.entries@.len() && entry_key(self.entries@[i as int])
                    == nonce_key(credentials@),
                None => !holds_key(self.entries@, nonce_key(credentials@)),
            },
    {
        let mut i: usize = 0;
        while i < self.entries.len()
            invariant
                i <= self.entries.len(),
                forall|j: int|
                    0 <= j < i ==> entry_key(#[trigger] self.entries@[j]) != nonce_key(
                        credentials@,
                    ),
            decreases self.entries.len() - i,
        {
            if self.entries[i].account_id.same(&credentials.account_id) && same_text(
                self.entries[i].public_key.as_str(),
                credentials.secret_key.public_key(),
            ) {
                return Some(i);
            }
            i += 1;
        }
        None
    }

    proof fn lemma_lookup(&self, i: int)
        requires
            self.wf(),
            0 <= i < self.entries@.len(),
        ensures
            self@.dom().contains(entry_key(self.entries@[i])),
            self@[entry_key(self.entries@[i])] == self.entries@[i].next,
    {
        let k = entry_key(self.entries@[i]);
        assert(holds_key(self.entries@, k));
        assert(place_of(self.entries@, k) == i);
    }

    /// The number of accounts with keys whose nonce is known.
    pub fn len(&self) -> (r: usize)
        requires
            self.wf(),
        ensures
            self@.dom().finite(),
            r == self@.dom().len(),
    {
        proof {
            let keys = self.entries@.map_values(|e: NonceEntry| entry_key(e));
            assert(keys.no_duplicates()) by {
                assert forall|i: int, j: int|
                    0 <= i < keys.len() && 0 <= j < keys.len() && i != j implies keys[i]
                    != keys[j] by {
                    assert(keys[i] == entry_key(self.entries@[i]));
                    assert(keys[j] == entry_key(self.entries@[j]));
                }
            }
            assert(self@.dom() =~= keys.to_set()) by {
                assert forall|q: NonceKey| self@.dom().contains(q) == keys.to_set().contains(q) by {
                    if holds_key(self.entries@, q) {
                        assert(keys[place_of(self.entries@, q)] == q);
                    }
                    if keys.contains(q) {
                        let i = choose|i: int| 0 <= i < keys.len() && keys[i] == q;
                        assert(entry_key(self.entries@[i]) == q);
                    }
                }
            }
            keys.unique_seq_to_set();
            vstd::seq_lib::seq_to_set_is_finite(keys);
        }
        self.entries.len()
    }

    /// The nonce that comes next, if it is known; otherwise the node must be asked.
    pub fn next_nonce(&self, credentials: &Credentials) -> (r: Option<u64>)
        requires
            self.wf(),
        ensures
            match r {
                Some(n) => self@.dom().contains(nonce_key(credentials@)) && n == self@[nonce_key(
                    credentials@,
                )],
                None => !self@.dom().contains(nonce_key(credentials@)),
            },
    {
        match self.find(credentials) {
            Some(i) => {
                proof {
                    self.lemma_lookup(i as int);
                }
                Some(self.entries[i].next)
            },
            None => None,
        }
    }

    /// Takes note that `rpc_nonce` was used, and gives the nonce that comes next.
    pub fn merge_rpc_nonce(&mut self, credentials: &Credentials, rpc_nonce: u64) -> (r: Result<
        u64,
        String,
    >)
        requires
            old(self).wf(),
        ensures
            final(self).wf(),
            match r {
                Ok(n) => rpc_nonce < u64::MAX && final(self)@ == merged(
                    old(self)@,
                    nonce_key(credentials@),
                    rpc_nonce,
                ) && n == final(self)@[nonce_key(credentials@)],
                Err(message) => rpc_nonce == u64::MAX && final(self)@ == old(self)@ && message@
                    == "transaction nonce overflow"@,
            },
    {
        let next: u64 = match rpc_nonce.checked_add(1) {
            Some(n) => n,
            None => {
                return Err("transaction nonce overflow".to_owned());
            },
        };
        let ghost before = *self;
        let ghost k = nonce_key(credentials@);
        match self.find(credentials) {
            Some(i) => {
                proof {
                    self.lemma_lookup(i as int);
                }
                let known: u64 = self.entries[i].next;
                let value: u64 = if known < next {
                    next
                } else {
                    known
                };
                let entry = NonceEntry {
                    account_id: credentials.account_id.copy(),
                    public_key: credentials.secret_key.public_key().to_owned(),
                    next: value,
                };
                self.entries.set(i, entry);
                proof {
                    assert(entry_key(self.entries@[i as int]) == k);
                    assert forall|j: int| 0 <= j < self.entries@.len() implies entry_key(
                        #[trigger] self.entries@[j],
                    ) == entry_key(before.entries@[j]) by {}
                    assert(no_key_twice(self.entries@)) by {
                        assert forall|a: int, b: int|
                            0 <= a < self.entries@.len() && 0 <= b < self.entries@.len()
                                && entry_key(#[trigger] self.entries@[a]) == entry_key(
                                #[trigger] self.entries@[b],
                            ) implies a == b by {
                            assert(entry_key(before.entries@[a]) == entry_key(before.entries@[b]));
                        }
                    }
                    self.lemma_lookup(i as int);
                    assert(self@ =~= merged(before@, k, rpc_nonce)) by {
                        assert forall|q: NonceKey| self@.dom().contains(q) == merged(
                            before@,
                            k,
                            rpc_nonce,
                        ).dom().contains(q) by {
                            if holds_key(self.entries@, q) {
                                let j = place_of(self.entries@, q);
                                assert(entry_key(before.entries@[j]) == q);
                            }
                            if holds_key(before.entries@, q) {
                                let j = place_of(before.entries@, q);
                                assert(entry_key(self.entries@[j]) == q);
                            }
                        }
                        assert forall|q: NonceKey| self@.dom().contains(q) implies self@[q]
                            == merged(before@, k, rpc_nonce)[q] by {
                            let j = place_of(self.entries@, q);
                            assert(entry_key(self.entries@[j]) == q);
                            self.lemma_lookup(j);
                            before.lemma_lookup(j);
                            if q != k {
                                assert(j != i);
                            }
                        }
                    }
                }
                Ok(value)
            },
            None => {
                let entry = NonceEntry {
                    account_id: credentials.account_id.copy(),
                    public_key: credentials.secret_key.public_key().to_owned(),
                    next,
                };
                let ghost n = self.entries@.len() as int;
                self.entries.push(entry);
                proof {
                    assert(entry_key(self.entries@[n]) == k);
                    assert forall|j: int| 0 <= j < n implies #[trigger] self.entries@[j]
                        == before.entries@[j] by {}
                    assert(no_key_twice(self.entries@)) by {
                        assert forall|a: int, b: int|
                            0 <= a < self.entries@.len() && 0 <= b < self.entries@.len()
                                && entry_key(#[trigger] self.entries@[a]) == entry_key(
                                #[trigger] self.entries@[b],
                            ) implies a == b by {
                            if a < n && b < n {
                                assert(entry_key(before.entries@[a]) == entry_key(
                                    before.entries@[b],
                                ));
                            } else if a < n {
                                assert(entry_key(before.entries@[a]) == k);
                            } else if b < n {
                                assert(entry_key(before.entries@[b]) == k);
                            }
                        }
                    }
                    self.lemma_lookup(n);
                    assert(self@ =~= merged(before@, k, rpc_nonce)) by {
                        assert forall|q: NonceKey| self@.dom().contains(q) == merged(
                            before@,
                            k,
                            rpc_nonce,
                        ).dom().contains(q) by {
                            if holds_key(self.entries@, q) {
                                let j = place_of(self.entries@, q);
                                if j < n {
                                    assert(entry_key(before.entries@[j]) == q);
                                }
                            }
                            if holds_key(before.entries@, q) {
                                let j = place_of(before.entries@, q);
                                assert(entry_key(self.entries@[j]) == q);
                            }
                        }
                        assert forall|q: NonceKey| self@.dom().contains(q) implies self@[q]
                            == merged(before@, k, rpc_nonce)[q] by {
                            let j = place_of(self.entries@, q);
                            assert(entry_key(self.entries@[j]) == q);
                            self.lemma_lookup(j);
                            if j < n {
                                before.lemma_lookup(j);
                                assert(q != k) by {
                                    if q == k {
                                        assert(entry_key(before.entries@[j]) == k);
                                    }
                                }
                            }
                        }
                    }
                }
                Ok(next)
            },
        }
    }

    /// Takes over the nonce that a node shows for a key, which must be a full access key, and gives
    /// the nonce that comes next.
    pub fn refresh(&mut self, credentials: &Credentials, key: &AccessKeyView) -> (r: Result<
        u64,
        String,
    >)
        requires
            old(self).wf(),
        ensures
            final(self).wf(),
            match r {
                Ok(n) => key.permission is FullAccess && key.nonce < u64::MAX && final(self)@
                    == merged(old(self)@, nonce_key(credentials@), key.nonce) && n
                    == final(self)@[nonce_key(credentials@)],
                Err(message) => final(self)@ == old(self)@ && if !(key.permission is FullAccess) {
                    message@ == "signer access key is not full access"@
                } else {
                    key.nonce == u64::MAX && message@ == "transaction nonce overflow"@
                },
            },
    {
        if !full_access(&key.permission) {
            return Err("signer access key is not full access".to_owned());
        }
        self.merge_rpc_nonce(credentials, key.nonce)
    }

    /// Takes note that a transaction with this nonce was executed.
    pub fn confirmed(&mut self, credentials: &Credentials, used_nonce: u64) -> (r: Result<
        (),
        String,
    >)
        requires
            old(self).wf(),
        ensures
            final(self).wf(),
            match r {
                Ok(()) => used_nonce < u64::MAX && final(self)@ == merged(
                    old(self)@,
                    nonce_key(credentials@),
                    used_nonce,
                ),
                Err(message) => used_nonce == u64::MAX && final(self)@ == old(self)@ && message@
                    == "transaction nonce overflow"@,
            },
    {
        match self.merge_rpc_nonce(credentials, used_nonce) {
            Ok(_) => Ok(()),
            Err(message) => Err(message),
        }
    }

    /// Forgets the nonce of a key: the node must be asked before the key is used again.
    pub fn invalidate(&mut self, credentials: &Credentials)
        requires
            old(self).wf(),
        ensures
            final(self).wf(),
            final(self)@ == old(self)@.remove(nonce_key(credentials@)),
    {
        let ghost before = *self;
        let ghost k = nonce_key(credentials@);
        match self.find(credentials) {
            Some(i) => {
                let removed: NonceEntry = self.entries.remove(i);
                proof {
                    assert forall|j: int| 0 <= j < self.entries@.len() implies (#[trigger] self.entries@[j])
                        == before.entries@[if j < i { j } else { j + 1 }] by {}
                    assert(no_key_twice(self.entries@)) by {
                        assert forall|a: int, b: int|
                            0 <= a < self.entries@.len() && 0 <= b < self.entries@.len()
                                && entry_key(#[trigger] self.entries@[a]) == entry_key(
                                #[trigger] self.entries@[b],
                            ) implies a == b by {
                            let x = if a < i { a } else { a + 1 };
                            let y = if b < i { b } else { b + 1 };
                            assert(entry_key(before.entries@[x]) == entry_key(before.entries@[y]));
                        }
                    }
                    assert(self@ =~= before@.remove(k)) by {
                        assert forall|q: NonceKey| self@.dom().contains(q) == before@.remove(
                            k,
                        ).dom().contains(q) by {
                            if holds_key(self.entries@, q) {
                                let j = place_of(self.entries@, q);
                                let x = if j < i { j } else { j + 1 };
                                assert(entry_key(before.entries@[x]) == q);
                                assert(x != i);
                                assert(entry_key(before.entries@[i as int]) == k);
                            }
                            if holds_key(before.entries@, q) && q != k {
                                let x = place_of(before.entries@, q);
                                assert(entry_key(before.entries@[x]) == q);
                                assert(x != i);
                                let j = if x < i { x } else { x - 1 };
                                assert(entry_key(self.entries@[j]) == q);
                            }
                        }
                        assert forall|q: NonceKey| self@.dom().contains(q) implies self@[q]
                            == before@.remove(k)[q] by {
                            let j = place_of(self.entries@, q);
                            let x = if j < i { j } else { j + 1 };
                            assert(entry_key(self.entries@[j]) == q);
                            self.lemma_lookup(j);
                            before.lemma_lookup(x);
                        }
                    }
                }
            },
            None => {
                assert(self@ =~= before@.remove(k));
            },
        }
    }
}

/// A nonce never moves backwards, whatever a node shows.
pub proof fn law_nonces_never_move_back(nonces: Map<NonceKey, u64>, k: NonceKey, used: u64)
    requires
        used < u64::MAX,
    ensures
        merged(nonces, k, used)[k] > used,
        nonces.dom().contains(k) ==> merged(nonces, k, used)[k] >= nonces[k],
        forall|q: NonceKey|
            q != k && nonces.dom().contains(q) ==> merged(nonces, k, used)[q] == nonces[q],
{
}

/// A node that lags behind changes nothing.
pub proof fn law_a_stale_nonce_changes_nothing(nonces: Map<NonceKey, u64>, k: NonceKey, used: u64)
    requires
        nonces.dom().contains(k),
        used < nonces[k],
    ensures
        merged(nonces, k, used) == nonces,
{
    assert(merged(nonces, k, used) =~= nonces);
}

/// Taking note of the same nonce twice is taking note of it once.
pub proof fn law_merging_twice_is_merging_once(nonces: Map<NonceKey, u64>, k: NonceKey, used: u64)
    requires
        used < u64::MAX,
    ensures
        merged(merged(nonces, k, used), k, used) == merged(nonces, k, used),
{
    assert(merged(merged(nonces, k, used), k, used) =~= merged(nonces, k, used));
}

} // verus!
