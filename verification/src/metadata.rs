//! What is asked of the metadata service.
//!
//! The metadata service ties a descriptive record to an asset: a name, a
//! symbol, a URI, who created it and what share of a resale is owed to them.
//! It is a collaborator; the request that the issuer makes of it is built
//! here.
use vstd::prelude::*;

use crate::address::Address;
use crate::text::MetadataUri;

verus! {

/// The royalty on a credential, in hundredths of a percent: five percent.
pub const SELLER_FEE_BASIS_POINTS: u16 = 500;

/// The share of the royalty that goes to the sole creator, in percent.
pub const SOLE_CREATOR_SHARE: u8 = 100;

/// The size with which a credential is marked as the root of a collection.
pub const COLLECTION_ROOT_SIZE: u64 = 0;

/// A creator named in an asset's metadata.
#[derive(Clone, Copy, Debug, PartialEq, Eq)]
pub struct Creator {
    /// Who the creator is.
    pub address: Address,
    /// Whether the creator has signed for the asset.
    pub verified: bool,
    /// The creator's share of the royalty, in percent.
    pub share: u8,
}

/// Marks an asset as the root of a collection of `size` members.
#[derive(Clone, Copy, Debug, PartialEq, Eq)]
pub struct CollectionDetails {
    pub size: u64,
}

/// A request to the metadata service to describe an asset. The asset is made
/// a member of no collection and is given no limit of uses.
#[derive(Debug, PartialEq, Eq)]
pub struct MetadataRequest {
    /// The asset to describe.
    pub mint: Address,
    /// The asset's mint authority, which signs the request.
    pub mint_authority: Address,
    /// Who may change the metadata later.
    pub update_authority: Address,
    /// Who pays for the metadata's account.
    pub payer: Address,
    /// The asset's name.
    pub name: String,
    /// The asset's symbol.
    pub symbol: String,
    /// Where the asset's description is found.
    pub uri: MetadataUri,
    /// The royalty, in hundredths of a percent.
    pub seller_fee_basis_points: u16,
    /// The one creator of the asset.
    pub creator: Creator,
    /// Whether the metadata may be changed later.
    pub is_mutable: bool,
    /// Whether the update authority signs the request.
    pub update_authority_is_signer: bool,
    /// Whether, and with what size, the asset is the root of a collection.
    pub collection_details: Option<CollectionDetails>,
}

/// The view of a [`MetadataRequest`].
pub struct MetadataRequestView {
    pub mint: Address,
    pub mint_authority: Address,
    pub update_authority: Address,
    pub payer: Address,
    pub name: Seq<char>,
    pub symbol: Seq<char>,
    pub uri: Seq<char>,
    pub seller_fee_basis_points: u16,
    pub creator: Creator,
    pub is_mutable: bool,
    pub update_authority_is_signer: bool,
    pub collection_details: Option<CollectionDetails>,
}

impl View for MetadataRequest {
    type V = MetadataRequestView;

    open spec fn view(&self) -> MetadataRequestView {
        MetadataRequestView {
            mint: self.mint,
            mint_authority: self.mint_authority,
            update_authority: self.update_authority,
            payer: self.payer,
            name: self.name@,
            symbol: self.symbol@,
            uri: self.uri@,
            seller_fee_basis_points: self.seller_fee_basis_points,
            creator: self.creator,
            is_mutable: self.is_mutable,
            update_authority_is_signer: self.update_authority_is_signer,
            collection_details: self.collection_details,
        }
    }
}

/// The description that a credential gets: the given name, symbol and URI, a
/// royalty of five percent, `authority` as its only creator, verified and with
/// the whole share, and the mark of a collection root of size zero. The
/// metadata stays changeable, by `authority`.
pub open spec fn credential_metadata(
    mint: Address,
    authority: Address,
    payer: Address,
    name: Seq<char>,
    symbol: Seq<char>,
    uri: Seq<char>,
) -> MetadataRequestView {
    MetadataRequestView {
        mint,
        mint_authority: authority,
        update_authority: authority,
        payer,
        name,
        symbol,
        uri,
        seller_fee_basis_points: SELLER_FEE_BASIS_POINTS,
        creator: Creator { address: authority, verified: true, share: SOLE_CREATOR_SHARE },
        is_mutable: true,
        update_authority_is_signer: true,
        collection_details: Some(CollectionDetails { size: COLLECTION_ROOT_SIZE }),
    }
}

impl MetadataRequest {
    /// Builds the request that describes a credential: see
    /// [`credential_metadata`].
    pub fn for_credential(
        mint: Address,
        authority: Address,
        payer: Address,
        name: String,
        symbol: String,
        uri: MetadataUri,
    ) -> (request: MetadataRequest)
        ensures
            request@ == credential_metadata(mint, authority, payer, name@, symbol@, uri@),
    {
        MetadataRequest {
            mint,
            mint_authority: authority,
            update_authority: authority,
            payer,
            name,
            symbol,
            uri,
            seller_fee_basis_points: SELLER_FEE_BASIS_POINTS,
            creator: Creator { address: authority, verified: true, share: SOLE_CREATOR_SHARE },
            is_mutable: true,
            update_authority_is_signer: true,
            collection_details: Some(CollectionDetails { size: COLLECTION_ROOT_SIZE }),
        }
    }
}

} // verus!
