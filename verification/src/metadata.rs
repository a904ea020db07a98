//! The token's NEP-148 metadata and the storage cell that keeps it.
use crate::text::{opt_text, same_text};
use near_contract_standards::fungible_token::metadata::FungibleTokenMetadata;
use near_sdk::collections::LazyOption;
use vstd::prelude::*;

verus! {

/// Metadata of a fungible token.
#[derive(Debug)]
pub struct TokenMetadata {
    /// The version of the metadata standard.
    pub spec: String,
    pub name: String,
    pub symbol: String,
    pub icon: Option<String>,
    /// A link to more data on the token.
    pub reference: Option<String>,
    /// The SHA-256 hash of what the link points to.
    pub reference_hash: Option<Vec<u8>>,
    pub decimals: u8,
}

/// What [`TokenMetadata`] says, as mathematical values.
pub ghost struct MetadataView {
    pub spec: Seq<char>,
    pub name: Seq<char>,
    pub symbol: Seq<char>,
    pub icon: Option<Seq<char>>,
    pub reference: Option<Seq<char>>,
    pub reference_hash: Option<Seq<u8>>,
    pub decimals: u8,
}

/// The view of optional bytes.
pub open spec fn opt_bytes(bytes: Option<Vec<u8>>) -> Option<Seq<u8>> {
    match bytes {
        Some(b) => Some(b@),
        None => None,
    }
}

impl View for TokenMetadata {
    type V = MetadataView;

    open spec fn view(&self) -> MetadataView {
        MetadataView {
            spec: self.spec@,
            name: self.name@,
            symbol: self.symbol@,
            icon: opt_text(self.icon),
            reference: opt_text(self.reference),
            reference_hash: opt_bytes(self.reference_hash),
            decimals: self.decimals,
        }
    }
}

/// Why metadata is refused.
#[derive(Clone, Copy, PartialEq, Eq, Structural, Debug)]
pub enum MetadataFault {
    /// The version is not `ft-1.0.0`.
    WrongSpec,
    /// There is a link without a hash, or a hash without a link.
    UnpairedReference,
    /// The hash does not have 32 bytes.
    HashLength,
}

/// The first fault of `m`, if it has one.
pub open spec fn metadata_fault(m: MetadataView) -> Option<MetadataFault> {
    if m.spec != "ft-1.0.0"@ {
        Some(MetadataFault::WrongSpec)
    } else if (m.reference is Some) != (m.reference_hash is Some) {
        Some(MetadataFault::UnpairedReference)
    } else if m.reference_hash is Some && m.reference_hash->0.len() != 32 {
        Some(MetadataFault::HashLength)
    } else {
        None
    }
}

impl TokenMetadata {
    /// Whether the metadata is sound, and what is wrong with it otherwise.
    pub fn check(&self) -> (r: Result<(), MetadataFault>)
        ensures
            match r {
                Ok(()) => metadata_fault(self@) is None,
                Err(fault) => metadata_fault(self@) == Some(fault),
            },
    {
        if !same_text(self.spec.as_str(), "ft-1.0.0") {
            return Err(MetadataFault::WrongSpec);
        }
        if self.reference.is_some() != self.reference_hash.is_some() {
            return Err(MetadataFault::UnpairedReference);
        }
        match &self.reference_hash {
            Some(hash) => {
                if hash.len() != 32 {
                    return Err(MetadataFault::HashLength);
                }
            },
            None => {},
        }
        Ok(())
    }
}

#[verifier::external_type_specification]
#[verifier::external_body]
pub struct ExFungibleTokenMetadata(FungibleTokenMetadata);

#[verifier::external_type_specification]
#[verifier::external_body]
#[verifier::reject_recursive_types(T)]
pub struct ExLazyOption<T>(LazyOption<T>);

/// The metadata that a storage cell holds: one value, or none.
///
/// It is what the cell gives back while nothing else writes under its storage key.
pub uninterp spec fn stored_metadata(cell: LazyOption<FungibleTokenMetadata>) -> Option<MetadataView>;

/// Calls `LazyOption::new` with a value, which is written to storage under `key`.
#[verifier::external_body]
pub(crate) fn store(key: Vec<u8>, metadata: TokenMetadata) -> (r: LazyOption<FungibleTokenMetadata>)
    ensures
        stored_metadata(r) == Some(metadata@),
{
    let value = FungibleTokenMetadata {
        spec: metadata.spec,
        name: metadata.name,
        symbol: metadata.symbol,
        icon: metadata.icon,
        reference: metadata.reference,
        reference_hash: metadata.reference_hash.map(near_sdk::json_types::Base64VecU8),
        decimals: metadata.decimals,
    };
    LazyOption::new(key, Some(&value))
}

/// Calls `LazyOption::get`: the value in storage, if there is one.
#[verifier::external_body]
pub(crate) fn load(cell: &LazyOption<FungibleTokenMetadata>) -> (r: Option<TokenMetadata>)
    ensures
        match r {
            Some(m) => stored_metadata(*cell) == Some(m@),
            None => stored_metadata(*cell) is None,
        },
{
    cell.get().map(|m| TokenMetadata {
        spec: m.spec,
        name: m.name,
        symbol: m.symbol,
        icon: m.icon,
        reference: m.reference,
        reference_hash: m.reference_hash.map(|hash| hash.0),
        decimals: m.decimals,
    })
}

} // verus!
