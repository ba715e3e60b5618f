//! Campaign-scoped access control.
//!
//! Each campaign is gated by a credential: a unique asset of which exactly one
//! unit exists. Whoever holds that unit may act within the campaign. The crate
//! holds the rules of that scheme and proves them:
//!
//! * [`mint_access_nft`] and [`Issuance::advance`] decide, step by step, what to
//!   ask of the token service and the metadata service when a credential is
//!   issued, and what to record once both have answered;
//! * [`verify_access`] decides whether a holding proves access to a campaign;
//! * [`update_campaign_data`] changes a campaign's mutable fields for the
//!   authority of its credential and for nobody else;
//! * [`get_campaign_info`] reads a campaign back;
//! * [`CampaignRegistry`] keeps one record for each campaign identifier.
//!
//! The token service, the metadata service and the ledger that stores the
//! records are collaborators. The crate never calls them: it is handed what
//! they hold as plain values and says what is to be done next.
pub mod access;
pub mod address;
pub mod campaign;
pub mod error;
pub mod issuer;
pub mod laws;
pub mod metadata;
pub mod registry;
pub mod text;
pub mod token;
pub mod update;

pub use access::{verify_access, VerifyAccess};
pub use address::Address;
pub use campaign::{CampaignData, CampaignDraft, CampaignRecord};
pub use error::AccessError;
pub use issuer::{mint_access_nft, Issuance, IssuanceAction, IssueOrder, MintAccessNFT, ServiceReply};
pub use metadata::{CollectionDetails, Creator, MetadataRequest};
pub use registry::CampaignRegistry;
pub use text::{CampaignId, MetadataUri};
pub use token::{AssetRequest, Mint, MintOrder, TokenAccount};
pub use update::{get_campaign_info, update_campaign_data, GetCampaignInfo, UpdateCampaignData};
