//! Changing a campaign's record, and reading it.
//!
//! A record says nothing of who may change it. That is settled by the
//! campaign's credential: the mint authority that the token service has on
//! file for the credential's asset is the authority of the campaign. So an
//! update brings the asset along, as the token service knows it, and is
//! accepted only if that asset is the one in the record and its mint
//! authority is the caller.
//!
//! The authority could have been written into the record instead. It is not:
//! the record stays what is stored for a campaign and no more, and the right
//! to change it cannot drift away from the credential. The price is that
//! every update has to be given the asset's state.
use vstd::prelude::*;

use crate::address::{is_address, Address};
use crate::campaign::{CampaignData, CampaignRecord};
use crate::error::AccessError;
use crate::text::{CampaignId, MetadataUri};
use crate::token::Mint;

verus! {

/// What a request to change a campaign brings.
#[derive(Debug)]
pub struct UpdateCampaignData {
    /// Who asks for the change.
    pub authority: Address,
    /// The record of the campaign.
    pub campaign_data: CampaignData,
    /// The asset of the campaign's credential, as the token service knows it.
    pub mint: Mint,
}

/// What a request to read a campaign brings.
#[derive(Debug)]
pub struct GetCampaignInfo {
    /// The record of the campaign.
    pub campaign_data: CampaignData,
}

/// Whether `authority` may change the campaign: `mint` is the asset of the
/// campaign's credential and names `authority` as its mint authority. An
/// asset without a mint authority gives the right to nobody.
pub open spec fn is_campaign_authority(
    record: CampaignRecord,
    authority: Address,
    mint: Mint,
) -> bool {
    mint.address == record.mint && mint.mint_authority == Some(authority)
}

/// The record after a change: each of the two fields that is given replaces
/// the one in the record, and all else stays.
pub open spec fn updated_record(
    record: CampaignRecord,
    new_uri: Option<Seq<char>>,
    new_agent_count: Option<u32>,
) -> CampaignRecord {
    CampaignRecord {
        uri: match new_uri {
            Some(uri) => uri,
            None => record.uri,
        },
        agent_count: match new_agent_count {
            Some(count) => count,
            None => record.agent_count,
        },
        ..record
    }
}

/// The answer to a request to change the campaign named `campaign_id`:
/// `UnauthorizedUpdate` unless the caller is the campaign's authority,
/// `CampaignNotFound` if the record shown is that of another campaign, and
/// the changed record otherwise.
pub open spec fn update_decision(
    record: CampaignRecord,
    authority: Address,
    mint: Mint,
    campaign_id: Seq<char>,
    new_uri: Option<Seq<char>>,
    new_agent_count: Option<u32>,
) -> Result<CampaignRecord, AccessError> {
    if !is_campaign_authority(record, authority, mint) {
        Err(AccessError::UnauthorizedUpdate)
    } else if record.id != campaign_id {
        Err(AccessError::CampaignNotFound)
    } else {
        Ok(updated_record(record, new_uri, new_agent_count))
    }
}

/// The view of a URI that may be absent.
pub open spec fn uri_view(uri: Option<MetadataUri>) -> Option<Seq<char>> {
    match uri {
        Some(uri) => Some(uri@),
        None => None,
    }
}

/// Changes the URI, the agent count, both or neither of the campaign named
/// `campaign_id`, for the campaign's authority. The outcome is
/// [`update_decision`]: on success the record in `ctx` is the changed one, on
/// refusal it is as it was. The identifier, the asset and the time of making
/// never change.
pub fn update_campaign_data(
    ctx: &mut UpdateCampaignData,
    campaign_id: &CampaignId,
    new_uri: Option<MetadataUri>,
    new_agent_count: Option<u32>,
) -> (done: Result<(), AccessError>)
    ensures
        final(ctx).authority == old(ctx).authority,
        final(ctx).mint == old(ctx).mint,
        match update_decision(
            old(ctx).campaign_data@,
            old(ctx).authority,
            old(ctx).mint,
            campaign_id@,
            uri_view(new_uri),
            new_agent_count,
        ) {
            Ok(record) => done is Ok && final(ctx).campaign_data@ == record,
            Err(error) => done == Err::<(), AccessError>(error) && final(ctx).campaign_data@ == old(
                ctx,
            ).campaign_data@,
        },
        done is Ok <==> is_campaign_authority(
            old(ctx).campaign_data@,
            old(ctx).authority,
            old(ctx).mint,
        ) && old(ctx).campaign_data@.id == campaign_id@,
        !is_campaign_authority(old(ctx).campaign_data@, old(ctx).authority, old(ctx).mint) ==> done
            == Err::<(), AccessError>(AccessError::UnauthorizedUpdate),
        new_uri is None && new_agent_count is None ==> final(ctx).campaign_data@ == old(
            ctx,
        ).campaign_data@,
        final(ctx).campaign_data@.id == old(ctx).campaign_data@.id,
        final(ctx).campaign_data@.mint == old(ctx).campaign_data@.mint,
        final(ctx).campaign_data@.created_at == old(ctx).campaign_data@.created_at,
        final(ctx).campaign_data@.bump == old(ctx).campaign_data@.bump,
{
    let authorized = ctx.mint.address == ctx.campaign_data.mint && is_address(
        &ctx.mint.mint_authority,
        &ctx.authority,
    );
    if !authorized {
        return Err(AccessError::UnauthorizedUpdate);
    }
    if ctx.campaign_data.id != *campaign_id {
        return Err(AccessError::CampaignNotFound);
    }
    if let Some(uri) = new_uri {
        ctx.campaign_data.uri = uri;
    }
    if let Some(count) = new_agent_count {
        ctx.campaign_data.agent_count = count;
    }
    Ok(())
}

/// The answer to a request to read the campaign named `campaign_id`: the
/// record, or `CampaignNotFound` if the record shown is that of another
/// campaign.
pub open spec fn info_decision(record: CampaignRecord, campaign_id: Seq<char>) -> Result<
    CampaignRecord,
    AccessError,
> {
    if record.id != campaign_id {
        Err(AccessError::CampaignNotFound)
    } else {
        Ok(record)
    }
}

/// The view of the outcome of an operation that gives a record.
pub open spec fn record_view(outcome: Result<CampaignData, AccessError>) -> Result<
    CampaignRecord,
    AccessError,
> {
    match outcome {
        Ok(record) => Ok(record@),
        Err(error) => Err(error),
    }
}

/// Reads the campaign named `campaign_id`. Nothing is changed: the answer is
/// [`info_decision`].
pub fn get_campaign_info(ctx: &GetCampaignInfo, campaign_id: &CampaignId) -> (info: Result<
    CampaignData,
    AccessError,
>)
    ensures
        record_view(info) == info_decision(ctx.campaign_data@, campaign_id@),
{
    if ctx.campaign_data.id != *campaign_id {
        Err(AccessError::CampaignNotFound)
    } else {
        Ok(ctx.campaign_data.clone())
    }
}

} // verus!
