//! The access verifier: does a holding prove access to a campaign?
//!
//! Access is given to whoever holds the campaign's credential, and to nobody
//! else. There is no list of who may enter: the holding is the permission.
use vstd::prelude::*;

use crate::address::Address;
use crate::campaign::{CampaignData, CampaignRecord};
use crate::error::AccessError;
use crate::text::CampaignId;
use crate::token::TokenAccount;

verus! {

/// What a request for access brings.
#[derive(Debug)]
pub struct VerifyAccess {
    /// Who asks for access.
    pub user: Address,
    /// The holding that `user` shows.
    pub user_token_account: TokenAccount,
    /// The record of the campaign.
    pub campaign_data: CampaignData,
}

/// Whether `account` shows that `user` holds the credential of the campaign:
/// it is a holding of the campaign's asset, it is `user`'s own, and there is
/// at least one unit in it.
pub open spec fn holds_credential(
    record: CampaignRecord,
    user: Address,
    account: TokenAccount,
) -> bool {
    &&& account.mint == record.mint
    &&& account.owner == user
    &&& account.amount >= 1
}

/// The answer to a request for access to the campaign named `campaign_id`:
/// `InsufficientTokens` unless the holding is that of the credential,
/// `CampaignNotFound` if the record shown is that of another campaign, and
/// access otherwise.
pub open spec fn access_decision(
    record: CampaignRecord,
    user: Address,
    account: TokenAccount,
    campaign_id: Seq<char>,
) -> Result<(), AccessError> {
    if !holds_credential(record, user, account) {
        Err(AccessError::InsufficientTokens)
    } else if record.id != campaign_id {
        Err(AccessError::CampaignNotFound)
    } else {
        Ok(())
    }
}

/// Checks that the user holds the credential of the campaign named
/// `campaign_id`. Nothing is changed: the answer is [`access_decision`].
pub fn verify_access(ctx: &VerifyAccess, campaign_id: &CampaignId) -> (granted: Result<
    (),
    AccessError,
>)
    ensures
        granted == access_decision(
            ctx.campaign_data@,
            ctx.user,
            ctx.user_token_account,
            campaign_id@,
        ),
        granted is Ok <==> holds_credential(ctx.campaign_data@, ctx.user, ctx.user_token_account)
            && ctx.campaign_data@.id == campaign_id@,
{
    let account = &ctx.user_token_account;
    let held = account.mint == ctx.campaign_data.mint && account.owner == ctx.user
        && account.amount >= 1;
    if !held {
        Err(AccessError::InsufficientTokens)
    } else if ctx.campaign_data.id != *campaign_id {
        Err(AccessError::CampaignNotFound)
    } else {
        Ok(())
    }
}

} // verus!
