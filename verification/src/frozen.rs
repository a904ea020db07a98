//! The set of frozen accounts: a `LookupSet` of near-sdk.
use crate::account::AccountId;
use crate::contract::{key_bytes, StorageKey};
use near_sdk::store::LookupSet;
use vstd::prelude::*;

verus! {

/// Frozen accounts, kept in the contract's storage by `near_sdk::store::LookupSet`.
///
/// What is said of its members holds while nothing else writes under its storage prefix: there is
/// one live set over a contract's storage.
#[verifier::external_body]
pub struct FrozenAccounts {
    members: LookupSet<near_sdk::AccountId>,
}

impl FrozenAccounts {
    /// The contract's frozen accounts: the set under the prefix that the contract keeps for them.
    /// The members live in storage: nothing is said of them here.
    pub fn open() -> (r: FrozenAccounts)
        ensures
            frozen_prefix(r) == key_bytes(StorageKey::FrozenAccounts),
    {
        new_set(StorageKey::FrozenAccounts.prefix())
    }
}

/// The accounts that the set holds.
pub uninterp spec fn frozen_members(set: FrozenAccounts) -> Set<Seq<char>>;

/// The prefix under which the set was made to keep its members in storage.
pub uninterp spec fn frozen_prefix(set: FrozenAccounts) -> Seq<u8>;

/// Calls `LookupSet::new` with `prefix`: a set that keeps its members under it.
///
/// Nothing is said of the members: storage under the prefix may hold entries already.
#[verifier::external_body]
fn new_set(prefix: Vec<u8>) -> (r: FrozenAccounts)
    ensures
        frozen_prefix(r) == prefix@,
{
    FrozenAccounts { members: LookupSet::new(prefix) }
}

/// Calls `LookupSet::insert`: the account is a member afterwards, and the set stays where it is.
#[verifier::external_body]
pub(crate) fn insert(set: &mut FrozenAccounts, id: &AccountId)
    ensures
        frozen_members(*final(set)) == frozen_members(*old(set)).insert(id@),
        frozen_prefix(*final(set)) == frozen_prefix(*old(set)),
{
    set.members.insert(id.as_str().parse().unwrap());
}

/// Calls `LookupSet::remove`: the account is no member afterwards, and the set stays where it is.
#[verifier::external_body]
pub(crate) fn remove(set: &mut FrozenAccounts, id: &AccountId)
    ensures
        frozen_members(*final(set)) == frozen_members(*old(set)).remove(id@),
        frozen_prefix(*final(set)) == frozen_prefix(*old(set)),
{
    let id: near_sdk::AccountId = id.as_str().parse().unwrap();
    set.members.remove(&id);
}

/// Calls `LookupSet::contains`: whether the account is a member.
#[verifier::external_body]
pub(crate) fn contains(set: &FrozenAccounts, id: &AccountId) -> (r: bool)
    ensures
        r == frozen_members(*set).contains(id@),
{
    let id: near_sdk::AccountId = id.as_str().parse().unwrap();
    set.members.contains(&id)
}

} // verus!
