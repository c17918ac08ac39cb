//! What the handlers learn from outside the store: the chain's answers and
//! off-chain metadata, handed in as plain values.
use crate::message::Event;
use vstd::prelude::*;

verus! {

/// Why an outside lookup failed.
#[derive(Debug)]
pub enum FetchError {
    /// A query of the chain failed.
    ChainQuery(String),
    /// Fetching an off-chain metadata document failed.
    MetadataFetch(String),
}

/// A contract's name and symbol.
#[derive(Debug)]
pub struct ContractInfo {
    pub name: String,
    pub symbol: String,
}

/// The number of tokens a contract has minted.
#[derive(Debug)]
pub struct Supply {
    pub count: u32,
}

/// The chain's record of one token.
#[derive(Debug)]
pub struct NftInfo {
    pub token_uri: String,
    /// The royalty percentage, as decimal text.
    pub royalty: Option<String>,
}

/// One trait of an off-chain NFT metadata document.
#[derive(Debug)]
pub struct AttributeParams {
    pub trait_type: Option<String>,
    pub kind: Option<String>,
    pub value: Option<String>,
    pub display_type: Option<String>,
}

/// An off-chain NFT metadata document.
#[derive(Debug)]
pub struct NftMetadata {
    pub name: Option<String>,
    pub description: Option<String>,
    pub image: Option<String>,
    pub attributes: Vec<AttributeParams>,
}

/// An off-chain collection metadata document.
#[derive(Debug)]
pub struct CollectionMetadata {
    pub description: Option<String>,
    pub pfp: Option<String>,
    pub banner: Option<String>,
    /// The socials, as JSON text.
    pub socials: Option<String>,
}

/// One price of an auction.
#[derive(Debug)]
pub struct Price {
    pub amount: String,
    pub denom: String,
}

/// A live auction of the auction contract.
#[derive(Debug)]
pub struct PalletAuction {
    pub created_at: u32,
    pub expiration_time: u32,
    pub prices: Vec<Price>,
}

/// The auction contract's record of one NFT.
#[derive(Debug)]
pub struct PalletListing {
    pub nft_address: String,
    pub token_id: String,
    pub owner: String,
    pub auction: Option<PalletAuction>,
}

/// The answers that handling one action may need. Each is consulted only
/// where the handler reaches the point that needs it.
#[derive(Debug)]
pub struct Lookups {
    pub nft_info: Result<NftInfo, FetchError>,
    pub nft_metadata: Result<NftMetadata, FetchError>,
    pub collection_metadata: Result<CollectionMetadata, FetchError>,
    pub supply: Result<Supply, FetchError>,
    pub contract_info: Result<ContractInfo, FetchError>,
    pub listing: Result<PalletListing, FetchError>,
    pub tx_events: Result<Vec<Event>, FetchError>,
}

} // verus!
