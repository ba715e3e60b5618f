//! The credential issuer.
//!
//! Issuing a credential takes four steps. The token service creates a new
//! asset; the metadata service describes it; the token service mints one unit
//! of it to the recipient; and then the campaign's record is made. The issuer
//! talks to none of the services. It is a state machine: it says what to ask
//! next, is told how that went, and says what follows. Whoever drives it
//! performs each request and hands back the reply.
//!
//! The order of the requests, what each holds, and that a failure ends the
//! issuance at once are all decided here.
use vstd::prelude::*;

use crate::address::Address;
use crate::campaign::{CampaignData, CampaignDraft, CampaignDraftView};
use crate::error::AccessError;
use crate::metadata::{credential_metadata, MetadataRequest, MetadataRequestView};
use crate::text::{CampaignId, MetadataUri};
use crate::token::{AssetRequest, Mint, MintOrder, CREDENTIAL_DECIMALS, CREDENTIAL_SUPPLY};

verus! {

/// What a request to issue a credential brings.
#[derive(Debug)]
pub struct MintAccessNFT {
    /// Who pays for the accounts that are made.
    pub payer: Address,
    /// The issuing authority: mint and freeze authority of the new asset and
    /// authority of the campaign.
    pub mint_authority: Address,
    /// The owner of the holding that receives the credential.
    pub recipient: Address,
    /// The record that is stored for the campaign already, if there is one.
    pub campaign_data: Option<CampaignData>,
    /// The bump seed of the address under which the record will be stored.
    pub bump: u8,
}

/// All that was asked for in one issuance.
#[derive(Debug, PartialEq, Eq)]
pub struct IssueOrder {
    pub campaign_id: CampaignId,
    pub name: String,
    pub symbol: String,
    pub uri: MetadataUri,
    pub agent_count: u32,
    pub payer: Address,
    pub mint_authority: Address,
    pub recipient: Address,
    pub bump: u8,
}

/// The view of an [`IssueOrder`].
pub struct IssueOrderView {
    pub campaign_id: Seq<char>,
    pub name: Seq<char>,
    pub symbol: Seq<char>,
    pub uri: Seq<char>,
    pub agent_count: u32,
    pub payer: Address,
    pub mint_authority: Address,
    pub recipient: Address,
    pub bump: u8,
}

impl View for IssueOrder {
    type V = IssueOrderView;

    open spec fn view(&self) -> IssueOrderView {
        IssueOrderView {
            campaign_id: self.campaign_id@,
            name: self.name@,
            symbol: self.symbol@,
            uri: self.uri@,
            agent_count: self.agent_count,
            payer: self.payer,
            mint_authority: self.mint_authority,
            recipient: self.recipient,
            bump: self.bump,
        }
    }
}

impl IssueOrderView {
    /// The asset to ask of the token service: one whose units cannot be
    /// split, with the issuing authority as its mint and freeze authority.
    pub open spec fn asset_request(self) -> AssetRequest {
        AssetRequest {
            payer: self.payer,
            mint_authority: self.mint_authority,
            freeze_authority: self.mint_authority,
            decimals: CREDENTIAL_DECIMALS,
        }
    }

    /// The description to ask of the metadata service for the asset `mint`.
    pub open spec fn metadata_request(self, mint: Address) -> MetadataRequestView {
        credential_metadata(
            mint,
            self.mint_authority,
            self.payer,
            self.name,
            self.symbol,
            self.uri,
        )
    }

    /// The minting to ask of the token service: exactly one unit of `mint`,
    /// to the recipient.
    pub open spec fn mint_order(self, mint: Address) -> MintOrder {
        MintOrder {
            mint,
            to: self.recipient,
            authority: self.mint_authority,
            amount: CREDENTIAL_SUPPLY,
        }
    }

    /// The record to make for the campaign once `mint` is its credential.
    pub open spec fn draft(self, mint: Address) -> CampaignDraftView {
        CampaignDraftView {
            id: self.campaign_id,
            mint,
            uri: self.uri,
            agent_count: self.agent_count,
            bump: self.bump,
        }
    }
}

/// How far an issuance has come.
#[derive(Debug, PartialEq, Eq)]
pub enum Issuance {
    /// The token service has been asked for a new asset.
    CreatingAsset { order: IssueOrder },
    /// The asset `mint` exists; the metadata service has been asked to
    /// describe it.
    AttachingMetadata { order: IssueOrder, mint: Address },
    /// The asset is described; the token service has been asked to mint the
    /// one unit.
    Minting { order: IssueOrder, mint: Address },
    /// The credential `mint` is with the recipient and the record of the
    /// campaign has been handed over to be made.
    Finished { campaign_id: CampaignId, mint: Address },
    /// The issuance was given up.
    Aborted { error: AccessError },
}

/// The view of an [`Issuance`].
pub enum IssuanceView {
    CreatingAsset { order: IssueOrderView },
    AttachingMetadata { order: IssueOrderView, mint: Address },
    Minting { order: IssueOrderView, mint: Address },
    Finished { campaign_id: Seq<char>, mint: Address },
    Aborted { error: AccessError },
}

impl View for Issuance {
    type V = IssuanceView;

    open spec fn view(&self) -> IssuanceView {
        match self {
            Issuance::CreatingAsset { order } => IssuanceView::CreatingAsset { order: order@ },
            Issuance::AttachingMetadata { order, mint } => IssuanceView::AttachingMetadata {
                order: order@,
                mint: *mint,
            },
            Issuance::Minting { order, mint } => IssuanceView::Minting {
                order: order@,
                mint: *mint,
            },
            Issuance::Finished { campaign_id, mint } => IssuanceView::Finished {
                campaign_id: campaign_id@,
                mint: *mint,
            },
            Issuance::Aborted { error } => IssuanceView::Aborted { error: *error },
        }
    }
}

/// What a collaborator answered to the request that was made of it.
#[derive(Clone, Copy, Debug, PartialEq, Eq)]
pub enum ServiceReply {
    /// The token service created the asset and this is how it stands.
    AssetCreated(Mint),
    /// The metadata service described the asset.
    MetadataAttached,
    /// The token service minted the units.
    UnitsMinted,
    /// The collaborator could not do what it was asked.
    Failed,
}

/// What is to be done next in an issuance.
#[derive(Debug, PartialEq, Eq)]
pub enum IssuanceAction {
    /// Ask the token service for a new asset.
    CreateAsset(AssetRequest),
    /// Ask the metadata service to describe the asset.
    AttachMetadata(MetadataRequest),
    /// Ask the token service to mint units of the asset.
    MintUnits(MintOrder),
    /// Make the campaign's record. The issuance is complete.
    CreateRecord(CampaignDraft),
    /// Give up with this error and keep nothing of what was done.
    Abort(AccessError),
    /// Nothing: the issuance was over before.
    Halt,
}

/// The view of an [`IssuanceAction`].
pub enum IssuanceActionView {
    CreateAsset(AssetRequest),
    AttachMetadata(MetadataRequestView),
    MintUnits(MintOrder),
    CreateRecord(CampaignDraftView),
    Abort(AccessError),
    Halt,
}

impl View for IssuanceAction {
    type V = IssuanceActionView;

    open spec fn view(&self) -> IssuanceActionView {
        match self {
            IssuanceAction::CreateAsset(request) => IssuanceActionView::CreateAsset(*request),
            IssuanceAction::AttachMetadata(request) => IssuanceActionView::AttachMetadata(
                request@,
            ),
            IssuanceAction::MintUnits(order) => IssuanceActionView::MintUnits(*order),
            IssuanceAction::CreateRecord(draft) => IssuanceActionView::CreateRecord(draft@),
            IssuanceAction::Abort(error) => IssuanceActionView::Abort(*error),
            IssuanceAction::Halt => IssuanceActionView::Halt,
        }
    }
}

/// Giving up with `error`.
pub open spec fn aborted(error: AccessError) -> (IssuanceView, IssuanceActionView) {
    (IssuanceView::Aborted { error }, IssuanceActionView::Abort(error))
}

/// How an issuance begins. Where the campaign has a record already it ends
/// at once with `DuplicateCampaign`; otherwise the token service is asked for
/// a new asset.
pub open spec fn issuance_start(occupied: bool, order: IssueOrderView) -> (
    IssuanceView,
    IssuanceActionView,
) {
    if occupied {
        aborted(AccessError::DuplicateCampaign)
    } else {
        (
            IssuanceView::CreatingAsset { order },
            IssuanceActionView::CreateAsset(order.asset_request()),
        )
    }
}

/// How an issuance goes on when `reply` comes in.
///
/// * While the asset is awaited: an asset that answers the request and of
///   which nothing is minted yet leads to the request for its metadata; any
///   other reply is a failure of the token service.
/// * While the metadata is awaited: the confirmation leads to the minting of
///   the one unit; any other reply is a failure of the metadata service.
/// * While the minting is awaited: the confirmation leads to the making of
///   the record, which completes the issuance; any other reply is a failure of
///   the token service.
/// * Once the issuance is complete or given up, nothing follows.
pub open spec fn issuance_step(state: IssuanceView, reply: ServiceReply) -> (
    IssuanceView,
    IssuanceActionView,
) {
    match state {
        IssuanceView::CreatingAsset { order } => {
            match reply {
                ServiceReply::AssetCreated(mint) => {
                    if mint.answers(order.asset_request()) {
                        (
                            IssuanceView::AttachingMetadata { order, mint: mint.address },
                            IssuanceActionView::AttachMetadata(
                                order.metadata_request(mint.address),
                            ),
                        )
                    } else {
                        aborted(AccessError::TokenServiceFailure)
                    }
                },
                _ => aborted(AccessError::TokenServiceFailure),
            }
        },
        IssuanceView::AttachingMetadata { order, mint } => {
            if reply is MetadataAttached {
                (
                    IssuanceView::Minting { order, mint },
                    IssuanceActionView::MintUnits(order.mint_order(mint)),
                )
            } else {
                aborted(AccessError::MetadataServiceFailure)
            }
        },
        IssuanceView::Minting { order, mint } => {
            if reply is UnitsMinted {
                (
                    IssuanceView::Finished { campaign_id: order.campaign_id, mint },
                    IssuanceActionView::CreateRecord(order.draft(mint)),
                )
            } else {
                aborted(AccessError::TokenServiceFailure)
            }
        },
        IssuanceView::Finished { .. } => (state, IssuanceActionView::Halt),
        IssuanceView::Aborted { .. } => (state, IssuanceActionView::Halt),
    }
}

/// The order that a request to issue a credential amounts to.
pub open spec fn order_view(
    ctx: MintAccessNFT,
    campaign_id: Seq<char>,
    name: Seq<char>,
    symbol: Seq<char>,
    uri: Seq<char>,
    agent_count: u32,
) -> IssueOrderView {
    IssueOrderView {
        campaign_id,
        name,
        symbol,
        uri,
        agent_count,
        payer: ctx.payer,
        mint_authority: ctx.mint_authority,
        recipient: ctx.recipient,
        bump: ctx.bump,
    }
}

/// Begins the issuance of the credential of the campaign named
/// `campaign_id`: an asset with the given name, symbol and URI, one unit of
/// which goes to the recipient, and a record of the campaign with the URI and
/// the agent count. Returns the state of the issuance and what to do first, as
/// [`issuance_start`] says; [`Issuance::advance`] takes it from there.
pub fn mint_access_nft(
    ctx: MintAccessNFT,
    campaign_id: CampaignId,
    name: String,
    symbol: String,
    uri: MetadataUri,
    agent_count: u32,
) -> (begun: (Issuance, IssuanceAction))
    ensures
        (begun.0@, begun.1@) == issuance_start(
            ctx.campaign_data is Some,
            order_view(ctx, campaign_id@, name@, symbol@, uri@, agent_count),
        ),
        ctx.campaign_data is Some <==> begun.1@ == IssuanceActionView::Abort(
            AccessError::DuplicateCampaign,
        ),
        ctx.campaign_data is None <==> begun.1@ is CreateAsset,
{
    if ctx.campaign_data.is_some() {
        return abort(AccessError::DuplicateCampaign);
    }
    let order = IssueOrder {
        campaign_id,
        name,
        symbol,
        uri,
        agent_count,
        payer: ctx.payer,
        mint_authority: ctx.mint_authority,
        recipient: ctx.recipient,
        bump: ctx.bump,
    };
    let request = order.asset_request();
    (Issuance::CreatingAsset { order }, IssuanceAction::CreateAsset(request))
}

fn abort(error: AccessError) -> (given_up: (Issuance, IssuanceAction))
    ensures
        (given_up.0@, given_up.1@) == aborted(error),
{
    (Issuance::Aborted { error }, IssuanceAction::Abort(error))
}

impl IssueOrder {
    /// The asset to ask of the token service.
    pub fn asset_request(&self) -> (request: AssetRequest)
        ensures
            request == self@.asset_request(),
    {
        AssetRequest {
            payer: self.payer,
            mint_authority: self.mint_authority,
            freeze_authority: self.mint_authority,
            decimals: CREDENTIAL_DECIMALS,
        }
    }

    /// The description to ask of the metadata service for the asset `mint`.
    pub fn metadata_request(&self, mint: Address) -> (request: MetadataRequest)
        ensures
            request@ == self@.metadata_request(mint),
    {
        MetadataRequest::for_credential(
            mint,
            self.mint_authority,
            self.payer,
            self.name.clone(),
            self.symbol.clone(),
            self.uri.clone(),
        )
    }

    /// The minting to ask of the token service.
    pub fn mint_order(&self, mint: Address) -> (order: MintOrder)
        ensures
            order == self@.mint_order(mint),
    {
        MintOrder {
            mint,
            to: self.recipient,
            authority: self.mint_authority,
            amount: CREDENTIAL_SUPPLY,
        }
    }

    /// The record to make for the campaign once `mint` is its credential.
    pub fn into_draft(self, mint: Address) -> (draft: CampaignDraft)
        ensures
            draft@ == self@.draft(mint),
    {
        CampaignDraft {
            id: self.campaign_id,
            mint,
            uri: self.uri,
            agent_count: self.agent_count,
            bump: self.bump,
        }
    }
}

impl Issuance {
    /// Whether the issuance is over, complete or given up.
    pub fn is_over(&self) -> (over: bool)
        ensures
            over == (self@ is Finished || self@ is Aborted),
    {
        match self {
            Issuance::Finished { .. } => true,
            Issuance::Aborted { .. } => true,
            _ => false,
        }
    }

    /// Takes the reply to the request that was made last and returns the new
    /// state and what to do next, as [`issuance_step`] says.
    pub fn advance(self, reply: ServiceReply) -> (next: (Issuance, IssuanceAction))
        ensures
            (next.0@, next.1@) == issuance_step(self@, reply),
    {
        match self {
            Issuance::CreatingAsset { order } => {
                let request = order.asset_request();
                match reply {
                    ServiceReply::AssetCreated(mint) => {
                        if mint.is_answer_to(&request) {
                            let metadata = order.metadata_request(mint.address);
                            (
                                Issuance::AttachingMetadata { order, mint: mint.address },
                                IssuanceAction::AttachMetadata(metadata),
                            )
                        } else {
                            abort(AccessError::TokenServiceFailure)
                        }
                    },
                    _ => abort(AccessError::TokenServiceFailure),
                }
            },
            Issuance::AttachingMetadata { order, mint } => {
                match reply {
                    ServiceReply::MetadataAttached => {
                        let units = order.mint_order(mint);
                        (Issuance::Minting { order, mint }, IssuanceAction::MintUnits(units))
                    },
                    _ => abort(AccessError::MetadataServiceFailure),
                }
            },
            Issuance::Minting { order, mint } => {
                match reply {
                    ServiceReply::UnitsMinted => {
                        let campaign_id = order.campaign_id.clone();
                        let draft = order.into_draft(mint);
                        (
                            Issuance::Finished { campaign_id, mint },
                            IssuanceAction::CreateRecord(draft),
                        )
                    },
                    _ => abort(AccessError::TokenServiceFailure),
                }
            },
            Issuance::Finished { campaign_id, mint } => (
                Issuance::Finished { campaign_id, mint },
                IssuanceAction::Halt,
            ),
            Issuance::Aborted { error } => (Issuance::Aborted { error }, IssuanceAction::Halt),
        }
    }
}

} // verus!
