//! What a node answers, and what is made of it.
use crate::account::{is_account_id, AccountId};
use crate::json::{json_string_value, string_text};
use crate::text::join2;
use vstd::prelude::*;

verus! {

/// A hash of 32 bytes: of a block, of code, of a transaction.
#[derive(Clone, Copy, Debug)]
pub struct CryptoHash {
    pub bytes: [u8; 32],
}

impl View for CryptoHash {
    type V = Seq<u8>;

    open spec fn view(&self) -> Seq<u8> {
        self.bytes@
    }
}

/// Whether a hash is all zeros, which stands for no code.
pub open spec fn is_zero_hash(hash: Seq<u8>) -> bool {
    forall|i: int| 0 <= i < hash.len() ==> hash[i] == 0
}

/// How a hash is shown: in base 58.
pub uninterp spec fn hash_text(hash: Seq<u8>) -> Seq<char>;

/// Calls `Display` of `near_primitives::hash::CryptoHash`.
#[verifier::external_body]
fn show_hash(bytes: [u8; 32]) -> (r: String)
    ensures
        r@ == hash_text(bytes@),
{
    near_primitives::hash::CryptoHash(bytes).to_string()
}

impl CryptoHash {
    /// Whether the hash is all zeros.
    pub fn is_zero(&self) -> (r: bool)
        ensures
            r == is_zero_hash(self@),
    {
        let mut i: usize = 0;
        while i < 32
            invariant
                i <= 32,
                forall|j: int| 0 <= j < i ==> self.bytes@[j] == 0,
            decreases 32 - i,
        {
            if self.bytes[i] != 0 {
                assert(self@[i as int] != 0);
                return false;
            }
            i += 1;
        }
        true
    }

    /// The hash in base 58.
    pub fn text(&self) -> (r: String)
        ensures
            r@ == hash_text(self@),
    {
        show_hash(self.bytes)
    }
}

/// The state of an account.
#[derive(Debug)]
pub struct AccountView {
    pub amount: String,
    pub locked: String,
    /// The hash of the account's code; zeros where it has none.
    pub code_hash: CryptoHash,
}

/// What an access key may be used for.
#[derive(Debug)]
pub enum AccessKeyPermission {
    FullAccess,
    FunctionCall { allowance: Option<u128>, receiver_id: String, method_names: Vec<String> },
}

/// An access key, as a node shows it.
#[derive(Debug)]
pub struct AccessKeyView {
    pub nonce: u64,
    pub permission: AccessKeyPermission,
}

/// The block at which a question is asked.
#[derive(Clone, Copy, Debug)]
pub enum BlockReference {
    /// The last final block.
    Final,
    /// The block with this hash.
    Hash(CryptoHash),
}

/// A block that all questions before a deployment are asked at.
#[derive(Clone, Copy, Debug)]
pub struct RpcSnapshot {
    pub block_hash: CryptoHash,
}

impl RpcSnapshot {
    /// The block of the snapshot, by its hash.
    pub fn block_reference(self) -> (r: BlockReference)
        ensures
            r == BlockReference::Hash(self.block_hash),
    {
        BlockReference::Hash(self.block_hash)
    }
}

/// What a node answers to a question.
#[derive(Debug)]
pub enum QueryReply {
    Account(AccountView),
    /// So many entries of a contract's state.
    State(usize),
    AccessKey(AccessKeyView),
    CallResult(Vec<u8>),
    Other,
}

/// Why a node does not answer a question.
#[derive(Debug)]
pub enum QueryError {
    UnknownAccount,
    NoContractCode,
    /// For another reason.
    Other(String),
}

/// The account that a node shows: none where it says that the account does not exist; every other
/// failure is a failure.
pub fn account(reply: Result<QueryReply, QueryError>) -> (r: Result<Option<AccountView>, String>)
    ensures
        match reply {
            Ok(QueryReply::Account(view)) => r == Ok::<Option<AccountView>, String>(Some(view)),
            Ok(_) => r is Err && r->Err_0@ == "RPC returned an unexpected account response"@,
            Err(QueryError::UnknownAccount) => r == Ok::<Option<AccountView>, String>(None),
            Err(QueryError::NoContractCode) => r is Err && r->Err_0@
                == "NEAR RPC account query failed: "@ + "no contract code"@,
            Err(QueryError::Other(reason)) => r is Err && r->Err_0@
                == "NEAR RPC account query failed: "@ + reason@,
        },
{
    match reply {
        Ok(QueryReply::Account(view)) => Ok(Some(view)),
        Ok(_) => Err("RPC returned an unexpected account response".to_owned()),
        Err(QueryError::UnknownAccount) => Ok(None),
        Err(QueryError::NoContractCode) => Err(
            join2("NEAR RPC account query failed: ", "no contract code"),
        ),
        Err(QueryError::Other(reason)) => Err(
            join2("NEAR RPC account query failed: ", reason.as_str()),
        ),
    }
}

/// Whether a contract has state: it has none where the account has no code.
pub fn has_contract_state(reply: Result<QueryReply, QueryError>) -> (r: Result<bool, String>)
    ensures
        match reply {
            Ok(QueryReply::State(entries)) => r == Ok::<bool, String>(entries > 0),
            Ok(_) => r is Err && r->Err_0@ == "RPC returned an unexpected contract-state response"@,
            Err(QueryError::NoContractCode) => r == Ok::<bool, String>(false),
            Err(QueryError::UnknownAccount) => r is Err && r->Err_0@
                == "NEAR RPC contract-state query failed: "@ + "unknown account"@,
            Err(QueryError::Other(reason)) => r is Err && r->Err_0@
                == "NEAR RPC contract-state query failed: "@ + reason@,
        },
{
    match reply {
        Ok(QueryReply::State(entries)) => Ok(entries > 0),
        Ok(_) => Err("RPC returned an unexpected contract-state response".to_owned()),
        Err(QueryError::NoContractCode) => Ok(false),
        Err(QueryError::UnknownAccount) => Err(
            join2("NEAR RPC contract-state query failed: ", "unknown account"),
        ),
        Err(QueryError::Other(reason)) => Err(
            join2("NEAR RPC contract-state query failed: ", reason.as_str()),
        ),
    }
}

/// The access key that a node shows.
pub fn access_key(reply: Result<QueryReply, QueryError>) -> (r: Result<AccessKeyView, String>)
    ensures
        match reply {
            Ok(QueryReply::AccessKey(view)) => r == Ok::<AccessKeyView, String>(view),
            Ok(_) => r is Err && r->Err_0@ == "RPC returned an unexpected access-key response"@,
            Err(_) => r is Err && r->Err_0@ == "NEAR RPC access-key query failed"@,
        },
{
    match reply {
        Ok(QueryReply::AccessKey(view)) => Ok(view),
        Ok(_) => Err("RPC returned an unexpected access-key response".to_owned()),
        Err(_) => Err("NEAR RPC access-key query failed".to_owned()),
    }
}

/// Whether an access key may be used for everything.
pub fn full_access(permission: &AccessKeyPermission) -> (r: bool)
    ensures
        r == (*permission is FullAccess),
{
    match permission {
        AccessKeyPermission::FullAccess => true,
        _ => false,
    }
}

/// What the owner that a token names is refused for.
pub open spec fn owner_name_fault(owner: Option<Seq<char>>, expected: Seq<char>) -> Option<Seq<char>> {
    match owner {
        None => Some("owner_get returned invalid JSON"@),
        Some(id) => if !is_account_id(id) {
            Some("owner_get returned invalid JSON"@)
        } else if id != expected {
            Some("ownership verification failed: expected "@ + expected + ", got "@ + id)
        } else {
            None
        },
    }
}

/// Whether the owner that a token names is the one that was expected.
pub fn check_owner_name(owner: &Option<String>, expected: &AccountId) -> (r: Result<(), String>)
    ensures
        match r {
            Ok(()) => owner_name_fault(crate::text::opt_text(*owner), expected@) is None,
            Err(message) => owner_name_fault(crate::text::opt_text(*owner), expected@) == Some(
                message@,
            ),
        },
{
    let name: &str = match owner {
        Some(name) => name.as_str(),
        None => {
            return Err("owner_get returned invalid JSON".to_owned());
        },
    };
    match AccountId::parse(name) {
        None => Err("owner_get returned invalid JSON".to_owned()),
        Some(id) => {
            if id.same(expected) {
                Ok(())
            } else {
                let mut message: String = join2(
                    "ownership verification failed: expected ",
                    expected.as_str(),
                );
                message.append(", got ");
                message.append(id.as_str());
                Err(message)
            }
        },
    }
}

/// Fails unless the token answered with the owner that was expected.
pub fn verify_ownership(reply: &Result<QueryReply, QueryError>, expected: &AccountId) -> (r: Result<
    (),
    String,
>)
    ensures
        match *reply {
            Ok(QueryReply::CallResult(bytes)) => match r {
                Ok(()) => owner_name_fault(string_text(bytes@), expected@) is None,
                Err(message) => owner_name_fault(string_text(bytes@), expected@) == Some(message@),
            },
            Ok(_) => r is Err && r->Err_0@ == "RPC returned an unexpected owner response"@,
            Err(_) => r is Err && r->Err_0@ == "NEAR RPC ownership query failed"@,
        },
{
    match reply {
        Ok(QueryReply::CallResult(bytes)) => check_owner_name(&json_string_value(bytes), expected),
        Ok(_) => Err("RPC returned an unexpected owner response".to_owned()),
        Err(_) => Err("NEAR RPC ownership query failed".to_owned()),
    }
}

} // verus!
