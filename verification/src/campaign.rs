//! The record that is kept for each campaign.
use vstd::prelude::*;
use vstd::std_specs::cmp::PartialEqSpecImpl;

use crate::address::Address;
use crate::text::{is_campaign_id, is_metadata_uri, utf8_len, CampaignId, MetadataUri};

verus! {

/// What a campaign record says, as mathematics: the view of a
/// [`CampaignData`].
pub struct CampaignRecord {
    pub id: Seq<char>,
    pub mint: Address,
    pub uri: Seq<char>,
    pub agent_count: u32,
    pub created_at: i64,
    pub bump: u8,
}

impl CampaignRecord {
    /// Whether the identifier and the URI are within their bounds. This holds
    /// of the view of every [`CampaignData`].
    pub open spec fn fits(self) -> bool {
        is_campaign_id(self.id) && is_metadata_uri(self.uri)
    }

    /// The number of bytes that the record takes where it is stored: eight
    /// bytes that tell the kind of record, then each field in turn, a text as
    /// four bytes of length and its bytes in UTF-8.
    pub open spec fn packed_len(self) -> nat {
        8 + (4 + utf8_len(self.id)) + 32 + (4 + utf8_len(self.uri)) + 4 + 8 + 1
    }
}

/// The record of one campaign.
#[derive(Debug, Eq)]
pub struct CampaignData {
    /// The campaign's identifier. No two records have the same.
    pub id: CampaignId,
    /// The asset whose single unit is the campaign's credential. It is set
    /// when the record is made and stays.
    pub mint: Address,
    /// Where the campaign's metadata is found. The credential's authority may
    /// change it.
    pub uri: MetadataUri,
    /// The number of agents in the campaign. The credential's authority may
    /// change it.
    pub agent_count: u32,
    /// When the record was made, in seconds since the Unix epoch. It is set
    /// once and stays.
    pub created_at: i64,
    /// The bump seed of the address under which the record is stored.
    pub bump: u8,
}

impl View for CampaignData {
    type V = CampaignRecord;

    open spec fn view(&self) -> CampaignRecord {
        CampaignRecord {
            id: self.id@,
            mint: self.mint,
            uri: self.uri@,
            agent_count: self.agent_count,
            created_at: self.created_at,
            bump: self.bump,
        }
    }
}

impl PartialEq for CampaignData {
    fn eq(&self, other: &CampaignData) -> (same: bool) {
        self.id == other.id && self.mint == other.mint && self.uri == other.uri
            && self.agent_count == other.agent_count && self.created_at == other.created_at
            && self.bump == other.bump
    }
}

impl PartialEqSpecImpl for CampaignData {
    open spec fn obeys_eq_spec() -> bool {
        true
    }

    open spec fn eq_spec(&self, other: &CampaignData) -> bool {
        self@ == other@
    }
}

impl Clone for CampaignData {
    fn clone(&self) -> (copy: CampaignData)
        ensures
            copy@ == self@,
    {
        CampaignData {
            id: self.id.clone(),
            mint: self.mint,
            uri: self.uri.clone(),
            agent_count: self.agent_count,
            created_at: self.created_at,
            bump: self.bump,
        }
    }
}

impl CampaignData {
    /// The space set aside for a stored record, in bytes: enough for the
    /// longest identifier and the longest URI.
    pub const LEN: usize = 8 + 4 + 32 + 32 + 4 + 200 + 4 + 8 + 1;

    /// The number of bytes that this record takes where it is stored. It never
    /// exceeds [`CampaignData::LEN`].
    pub fn packed_len(&self) -> (bytes: usize)
        ensures
            bytes == self@.packed_len(),
            bytes <= CampaignData::LEN,
            self@.fits(),
    {
        8 + (4 + self.id.len()) + 32 + (4 + self.uri.len()) + 4 + 8 + 1
    }
}

/// A record that is yet to be made: all of it but the time, which is taken
/// when the record is made.
#[derive(Debug, Eq)]
pub struct CampaignDraft {
    pub id: CampaignId,
    pub mint: Address,
    pub uri: MetadataUri,
    pub agent_count: u32,
    pub bump: u8,
}

/// The view of a [`CampaignDraft`].
pub struct CampaignDraftView {
    pub id: Seq<char>,
    pub mint: Address,
    pub uri: Seq<char>,
    pub agent_count: u32,
    pub bump: u8,
}

impl CampaignDraftView {
    /// The record that the draft becomes when it is made at `created_at`.
    pub open spec fn stamped(self, created_at: i64) -> CampaignRecord {
        CampaignRecord {
            id: self.id,
            mint: self.mint,
            uri: self.uri,
            agent_count: self.agent_count,
            created_at,
            bump: self.bump,
        }
    }
}

impl View for CampaignDraft {
    type V = CampaignDraftView;

    open spec fn view(&self) -> CampaignDraftView {
        CampaignDraftView {
            id: self.id@,
            mint: self.mint,
            uri: self.uri@,
            agent_count: self.agent_count,
            bump: self.bump,
        }
    }
}

impl PartialEq for CampaignDraft {
    fn eq(&self, other: &CampaignDraft) -> (same: bool) {
        self.id == other.id && self.mint == other.mint && self.uri == other.uri
            && self.agent_count == other.agent_count && self.bump == other.bump
    }
}

impl PartialEqSpecImpl for CampaignDraft {
    open spec fn obeys_eq_spec() -> bool {
        true
    }

    open spec fn eq_spec(&self, other: &CampaignDraft) -> bool {
        self@ == other@
    }
}

impl CampaignDraft {
    /// Makes the record, with `created_at` as the time of its making.
    pub fn stamp(self, created_at: i64) -> (record: CampaignData)
        ensures
            record@ == self@.stamped(created_at),
    {
        CampaignData {
            id: self.id,
            mint: self.mint,
            uri: self.uri,
            agent_count: self.agent_count,
            created_at,
            bump: self.bump,
        }
    }
}

/// A record within its bounds takes no more than the space set aside for it.
pub proof fn lemma_record_fits_its_space(record: CampaignRecord)
    requires
        record.fits(),
    ensures
        record.packed_len() <= CampaignData::LEN,
{
}

} // verus!
