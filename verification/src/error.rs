//! The errors that the operations report.
use vstd::prelude::*;

verus! {

/// Why an operation was refused. Every refusal has its own name; none is
/// replaced by a default.
#[derive(Clone, Copy, Debug, PartialEq, Eq, Hash, Structural)]
pub enum AccessError {
    /// Insufficient credential: the holding shown does not prove possession
    /// of the campaign's credential.
    InsufficientTokens,
    /// The caller is not the authority of the campaign's credential.
    UnauthorizedUpdate,
    /// The text is too long to be a campaign identifier.
    InvalidCampaignId,
    /// Record not found: there is no record for the campaign that was named.
    CampaignNotFound,
    /// A record for the campaign exists already.
    DuplicateCampaign,
    /// The text is too long to be stored as a campaign's metadata URI.
    InvalidMetadataUri,
    /// A collaborator failed: the token service did not do what it was
    /// asked.
    TokenServiceFailure,
    /// A collaborator failed: the metadata service did not do what it was
    /// asked.
    MetadataServiceFailure,
}

impl AccessError {
    /// The text of the message that goes with each error.
    pub open spec fn message_text(self) -> Seq<char> {
        match self {
            AccessError::InsufficientTokens => "Insufficient tokens for access"@,
            AccessError::UnauthorizedUpdate => "Unauthorized to update campaign data"@,
            AccessError::InvalidCampaignId => "Invalid campaign ID"@,
            AccessError::CampaignNotFound => "Campaign not found"@,
            AccessError::DuplicateCampaign => "Campaign already exists"@,
            AccessError::InvalidMetadataUri => "Invalid metadata URI"@,
            AccessError::TokenServiceFailure => "Token service failure"@,
            AccessError::MetadataServiceFailure => "Metadata service failure"@,
        }
    }

    /// A short message for a person to read.
    pub fn message(&self) -> (text: &'static str)
        ensures
            text@ == self.message_text(),
    {
        match self {
            AccessError::InsufficientTokens => "Insufficient tokens for access",
            AccessError::UnauthorizedUpdate => "Unauthorized to update campaign data",
            AccessError::InvalidCampaignId => "Invalid campaign ID",
            AccessError::CampaignNotFound => "Campaign not found",
            AccessError::DuplicateCampaign => "Campaign already exists",
            AccessError::InvalidMetadataUri => "Invalid metadata URI",
            AccessError::TokenServiceFailure => "Token service failure",
            AccessError::MetadataServiceFailure => "Metadata service failure",
        }
    }
}

} // verus!
