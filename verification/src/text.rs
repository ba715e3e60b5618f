//! Length-checked strings.
//!
//! A campaign's identifier and its metadata URI are stored in fields of fixed
//! capacity. Each has a type of its own here, which can only be made from text
//! that fits: the length is checked once, where the text enters, and every
//! value of the type is known to fit from then on.
use vstd::prelude::*;
use vstd::std_specs::cmp::PartialEqSpecImpl;
use vstd::utf8::encode_utf8;

use crate::error::AccessError;

verus! {

/// The most bytes that a campaign identifier may take in UTF-8.
pub const MAX_CAMPAIGN_ID_LEN: usize = 32;

/// The most bytes that a metadata URI may take in UTF-8.
pub const MAX_METADATA_URI_LEN: usize = 200;

/// The number of bytes that `text` takes in UTF-8.
pub open spec fn utf8_len(text: Seq<char>) -> nat {
    encode_utf8(text).len()
}

/// Whether `text` is short enough to be a campaign identifier.
pub open spec fn is_campaign_id(text: Seq<char>) -> bool {
    utf8_len(text) <= MAX_CAMPAIGN_ID_LEN
}

/// Whether `text` is short enough to be a metadata URI.
pub open spec fn is_metadata_uri(text: Seq<char>) -> bool {
    utf8_len(text) <= MAX_METADATA_URI_LEN
}

/// The identifier of a campaign: text of at most 32 bytes.
#[derive(Debug, Eq)]
pub struct CampaignId {
    text: String,
}

impl View for CampaignId {
    type V = Seq<char>;

    closed spec fn view(&self) -> Seq<char> {
        self.text@
    }
}

impl PartialEq for CampaignId {
    fn eq(&self, other: &CampaignId) -> (same: bool) {
        self.text == other.text
    }
}

impl PartialEqSpecImpl for CampaignId {
    open spec fn obeys_eq_spec() -> bool {
        true
    }

    open spec fn eq_spec(&self, other: &CampaignId) -> bool {
        self@ == other@
    }
}

impl Clone for CampaignId {
    fn clone(&self) -> (copy: CampaignId)
        ensures
            copy@ == self@,
    {
        proof {
            use_type_invariant(self);
        }
        CampaignId { text: self.text.clone() }
    }
}

impl CampaignId {
    #[verifier::type_invariant]
    closed spec fn fits(&self) -> bool {
        is_campaign_id(self.text@)
    }

    /// Checks `text` and makes an identifier of it. Text of more than 32
    /// bytes is refused with `InvalidCampaignId`; all other text is accepted
    /// as it is.
    pub fn new(text: String) -> (made: Result<CampaignId, AccessError>)
        ensures
            is_campaign_id(text@) ==> made is Ok && made->Ok_0@ == text@,
            !is_campaign_id(text@) ==> made == Err::<CampaignId, AccessError>(
                AccessError::InvalidCampaignId,
            ),
    {
        if text.as_str().as_bytes().len() <= MAX_CAMPAIGN_ID_LEN {
            Ok(CampaignId { text })
        } else {
            Err(AccessError::InvalidCampaignId)
        }
    }

    /// The identifier as text.
    pub fn as_str(&self) -> (text: &str)
        ensures
            text@ == self@,
            is_campaign_id(text@),
    {
        proof {
            use_type_invariant(self);
        }
        self.text.as_str()
    }

    /// The number of bytes that the identifier takes.
    pub fn len(&self) -> (bytes: usize)
        ensures
            bytes == utf8_len(self@),
            bytes <= MAX_CAMPAIGN_ID_LEN,
    {
        proof {
            use_type_invariant(self);
        }
        self.text.as_str().as_bytes().len()
    }
}

/// The URI of a campaign's metadata: text of at most 200 bytes.
#[derive(Debug, Eq)]
pub struct MetadataUri {
    text: String,
}

impl View for MetadataUri {
    type V = Seq<char>;

    closed spec fn view(&self) -> Seq<char> {
        self.text@
    }
}

impl PartialEq for MetadataUri {
    fn eq(&self, other: &MetadataUri) -> (same: bool) {
        self.text == other.text
    }
}

impl PartialEqSpecImpl for MetadataUri {
    open spec fn obeys_eq_spec() -> bool {
        true
    }

    open spec fn eq_spec(&self, other: &MetadataUri) -> bool {
        self@ == other@
    }
}

impl Clone for MetadataUri {
    fn clone(&self) -> (copy: MetadataUri)
        ensures
            copy@ == self@,
    {
        proof {
            use_type_invariant(self);
        }
        MetadataUri { text: self.text.clone() }
    }
}

impl MetadataUri {
    #[verifier::type_invariant]
    closed spec fn fits(&self) -> bool {
        is_metadata_uri(self.text@)
    }

    /// Checks `text` and makes a URI of it. Text of more than 200 bytes is
    /// refused with `InvalidMetadataUri`; all other text is accepted as it
    /// is.
    pub fn new(text: String) -> (made: Result<MetadataUri, AccessError>)
        ensures
            is_metadata_uri(text@) ==> made is Ok && made->Ok_0@ == text@,
            !is_metadata_uri(text@) ==> made == Err::<MetadataUri, AccessError>(
                AccessError::InvalidMetadataUri,
            ),
    {
        if text.as_str().as_bytes().len() <= MAX_METADATA_URI_LEN {
            Ok(MetadataUri { text })
        } else {
            Err(AccessError::InvalidMetadataUri)
        }
    }

    /// The URI as text.
    pub fn as_str(&self) -> (text: &str)
        ensures
            text@ == self@,
            is_metadata_uri(text@),
    {
        proof {
            use_type_invariant(self);
        }
        self.text.as_str()
    }

    /// The number of bytes that the URI takes.
    pub fn len(&self) -> (bytes: usize)
        ensures
            bytes == utf8_len(self@),
            bytes <= MAX_METADATA_URI_LEN,
    {
        proof {
            use_type_invariant(self);
        }
        self.text.as_str().as_bytes().len()
    }
}

} // verus!
