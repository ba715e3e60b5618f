//! What the token service holds and what is asked of it.
//!
//! The token service creates assets, mints units of them to token accounts and
//! knows who holds how many. It is a collaborator: the values here carry its
//! state into the crate and the crate's requests out to it.
use vstd::prelude::*;

use crate::address::{is_address, Address};

verus! {

/// The number of units of a credential that exist: exactly one.
pub const CREDENTIAL_SUPPLY: u64 = 1;

/// The number of decimals of a credential: none, a unit cannot be split.
pub const CREDENTIAL_DECIMALS: u8 = 0;

/// An asset as the token service knows it.
#[derive(Clone, Copy, Debug, PartialEq, Eq)]
pub struct Mint {
    /// The handle of the asset.
    pub address: Address,
    /// Who may mint units of the asset, if anybody.
    pub mint_authority: Option<Address>,
    /// Who may freeze holdings of the asset, if anybody.
    pub freeze_authority: Option<Address>,
    /// How many units exist.
    pub supply: u64,
    /// Into how many decimals a unit can be split.
    pub decimals: u8,
}

/// A holding: how many units of one asset one owner has.
#[derive(Clone, Copy, Debug, PartialEq, Eq)]
pub struct TokenAccount {
    /// The asset held.
    pub mint: Address,
    /// The owner of the holding.
    pub owner: Address,
    /// The number of units held.
    pub amount: u64,
}

/// A request to the token service for a new asset.
#[derive(Clone, Copy, Debug, PartialEq, Eq)]
pub struct AssetRequest {
    /// Who pays for the asset's account.
    pub payer: Address,
    /// Who is to be the asset's mint authority.
    pub mint_authority: Address,
    /// Who is to be the asset's freeze authority.
    pub freeze_authority: Address,
    /// The decimals that the asset is to have.
    pub decimals: u8,
}

/// A request to the token service to mint units of an asset.
#[derive(Clone, Copy, Debug, PartialEq, Eq)]
pub struct MintOrder {
    /// The asset of which units are minted.
    pub mint: Address,
    /// The owner whose holding receives the units.
    pub to: Address,
    /// The mint authority that signs the request.
    pub authority: Address,
    /// The number of units to mint.
    pub amount: u64,
}

impl Mint {
    /// Whether the asset is what `request` asked for and nothing has been
    /// minted of it: the authorities are the ones asked for, a unit cannot be
    /// split, and no unit exists yet. Only of such an asset can one unit be
    /// minted and be known to be the only one.
    pub open spec fn answers(self, request: AssetRequest) -> bool {
        &&& self.mint_authority == Some(request.mint_authority)
        &&& self.freeze_authority == Some(request.freeze_authority)
        &&& self.decimals == request.decimals
        &&& self.supply == 0
    }

    /// Decides [`Mint::answers`].
    pub fn is_answer_to(&self, request: &AssetRequest) -> (fresh: bool)
        ensures
            fresh == self.answers(*request),
    {
        is_address(&self.mint_authority, &request.mint_authority) && is_address(
            &self.freeze_authority,
            &request.freeze_authority,
        ) && self.decimals == request.decimals && self.supply == 0
    }
}

} // verus!
