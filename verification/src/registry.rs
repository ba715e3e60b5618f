//! The campaign registry: one record for each campaign identifier.
//!
//! The registry is a store of records, keyed by the campaign's identifier. A
//! record is made once, when the campaign's credential is issued, and there
//! is never a second one for the same identifier. Its URI and agent count
//! change only for the authority of the credential. Nothing is ever removed.
use vstd::prelude::*;

use crate::access::{access_decision, verify_access, VerifyAccess};
use crate::address::Address;
use crate::campaign::{CampaignData, CampaignDraft, CampaignDraftView, CampaignRecord};
use crate::error::AccessError;
use crate::text::{CampaignId, MetadataUri};
use crate::token::{Mint, TokenAccount};
use crate::update::{
    record_view, update_campaign_data, update_decision, uri_view, UpdateCampaignData,
};

verus! {

/// What a registry holds, as mathematics: the record of each campaign under
/// the campaign's identifier.
pub type Store = Map<Seq<char>, CampaignRecord>;

/// Whether no two of the records have the same identifier.
pub open spec fn distinct_ids(entries: Seq<CampaignRecord>) -> bool {
    forall|i: int, j: int| 0 <= i < j < entries.len() ==> entries[i].id != entries[j].id
}

/// Whether one of the records has the identifier `id`.
pub open spec fn has_id(entries: Seq<CampaignRecord>, id: Seq<char>) -> bool {
    exists|i: int| 0 <= i < entries.len() && (#[trigger] entries[i]).id == id
}

/// The place of a record with the identifier `id`, where there is one.
pub open spec fn place_of(entries: Seq<CampaignRecord>, id: Seq<char>) -> int {
    choose|i: int| 0 <= i < entries.len() && (#[trigger] entries[i]).id == id
}

/// The records, each under its identifier.
pub open spec fn by_id(entries: Seq<CampaignRecord>) -> Store {
    Map::new(|id: Seq<char>| has_id(entries, id), |id: Seq<char>| entries[place_of(entries, id)])
}

/// Whether every record of the store is kept under its own identifier.
pub open spec fn keyed_by_id(store: Store) -> bool {
    forall|id: Seq<char>| #[trigger] store.contains_key(id) ==> store[id].id == id
}

/// What making a record does to a store. Where the campaign has a record
/// already, nothing changes and the answer is `DuplicateCampaign`. Otherwise
/// the draft becomes a record, made at `now`, and the store holds it.
pub open spec fn store_create(store: Store, draft: CampaignDraftView, now: i64) -> (
    Store,
    Result<CampaignRecord, AccessError>,
) {
    if store.contains_key(draft.id) {
        (store, Err(AccessError::DuplicateCampaign))
    } else {
        (store.insert(draft.id, draft.stamped(now)), Ok(draft.stamped(now)))
    }
}

/// What reading a campaign gives: its record, or `CampaignNotFound`.
pub open spec fn store_get(store: Store, campaign_id: Seq<char>) -> Result<
    CampaignRecord,
    AccessError,
> {
    if store.contains_key(campaign_id) {
        Ok(store[campaign_id])
    } else {
        Err(AccessError::CampaignNotFound)
    }
}

/// What a request for access gives: `CampaignNotFound` where the campaign
/// has no record, and what [`access_decision`] says of its record otherwise.
pub open spec fn store_verify(
    store: Store,
    campaign_id: Seq<char>,
    user: Address,
    account: TokenAccount,
) -> Result<(), AccessError> {
    if store.contains_key(campaign_id) {
        access_decision(store[campaign_id], user, account, campaign_id)
    } else {
        Err(AccessError::CampaignNotFound)
    }
}

/// What a request for a change does to a store. Where the campaign has no
/// record the answer is `CampaignNotFound`; where [`update_decision`] refuses,
/// its error; in both cases nothing changes. Otherwise the changed record
/// takes the place of the old one, and is the answer.
pub open spec fn store_update(
    store: Store,
    campaign_id: Seq<char>,
    authority: Address,
    mint: Mint,
    new_uri: Option<Seq<char>>,
    new_agent_count: Option<u32>,
) -> (Store, Result<CampaignRecord, AccessError>) {
    if store.contains_key(campaign_id) {
        match update_decision(
            store[campaign_id],
            authority,
            mint,
            campaign_id,
            new_uri,
            new_agent_count,
        ) {
            Ok(record) => (store.insert(campaign_id, record), Ok(record)),
            Err(error) => (store, Err(error)),
        }
    } else {
        (store, Err(AccessError::CampaignNotFound))
    }
}

/// In records with distinct identifiers, each is the one found under its
/// identifier.
proof fn lemma_found_under_own_id(entries: Seq<CampaignRecord>, i: int)
    requires
        distinct_ids(entries),
        0 <= i < entries.len(),
    ensures
        by_id(entries).contains_key(entries[i].id),
        by_id(entries)[entries[i].id] == entries[i],
{
    let id = entries[i].id;
    assert(has_id(entries, id));
    let j = place_of(entries, id);
    assert(0 <= j < entries.len() && entries[j].id == id);
    if i < j {
        assert(entries[i].id != entries[j].id);
    } else if j < i {
        assert(entries[j].id != entries[i].id);
    }
}

/// Every record that is found under an identifier has that identifier.
pub proof fn lemma_by_id_is_keyed(entries: Seq<CampaignRecord>)
    ensures
        keyed_by_id(by_id(entries)),
{
    assert forall|id: Seq<char>| #[trigger] by_id(entries).contains_key(id) implies by_id(
        entries,
    )[id].id == id by {
        assert(has_id(entries, id));
        let j = place_of(entries, id);
        assert(0 <= j < entries.len() && entries[j].id == id);
    }
}

/// Adding a record with a new identifier keeps the identifiers distinct and
/// puts the record under its identifier.
proof fn lemma_push_inserts(entries: Seq<CampaignRecord>, record: CampaignRecord)
    requires
        distinct_ids(entries),
        !has_id(entries, record.id),
    ensures
        distinct_ids(entries.push(record)),
        by_id(entries.push(record)) == by_id(entries).insert(record.id, record),
{
    let after = entries.push(record);
    assert forall|i: int, j: int| 0 <= i < j < after.len() implies after[i].id != after[j].id by {
        if j == entries.len() {
            assert(entries[i].id != record.id);
        } else {
            assert(entries[i].id != entries[j].id);
        }
    }
    assert forall|id: Seq<char>| has_id(after, id) <==> (id == record.id || has_id(
        entries,
        id,
    )) by {
        if has_id(after, id) {
            let k = place_of(after, id);
            if k < entries.len() {
                assert(entries[k].id == id);
            }
        }
        if id == record.id {
            assert(after[entries.len() as int].id == id);
        }
        if has_id(entries, id) {
            let k = place_of(entries, id);
            assert(after[k].id == id);
        }
    }
    assert forall|id: Seq<char>| #[trigger] has_id(after, id) implies by_id(after)[id] == by_id(
        entries,
    ).insert(record.id, record)[id] by {
        let k = place_of(after, id);
        lemma_found_under_own_id(after, k);
        if k < entries.len() {
            lemma_found_under_own_id(entries, k);
        }
    }
    assert(by_id(after) =~= by_id(entries).insert(record.id, record));
}

/// Replacing a record by one with the same identifier keeps the identifiers
/// distinct and puts the new record under that identifier.
proof fn lemma_update_inserts(entries: Seq<CampaignRecord>, i: int, record: CampaignRecord)
    requires
        distinct_ids(entries),
        0 <= i < entries.len(),
        record.id == entries[i].id,
    ensures
        distinct_ids(entries.update(i, record)),
        by_id(entries.update(i, record)) == by_id(entries).insert(record.id, record),
{
    let after = entries.update(i, record);
    assert forall|a: int, b: int| 0 <= a < b < after.len() implies after[a].id != after[b].id by {
        assert(entries[a].id != entries[b].id);
    }
    assert forall|id: Seq<char>| has_id(after, id) <==> has_id(entries, id) by {
        if has_id(after, id) {
            let k = place_of(after, id);
            assert(entries[k].id == id);
        }
        if has_id(entries, id) {
            let k = place_of(entries, id);
            assert(after[k].id == id);
        }
    }
    assert(has_id(entries, record.id)) by {
        assert(entries[i].id == record.id);
    }
    assert forall|id: Seq<char>| #[trigger] has_id(after, id) implies by_id(after)[id] == by_id(
        entries,
    ).insert(record.id, record)[id] by {
        let k = place_of(after, id);
        lemma_found_under_own_id(after, k);
        if k != i {
            lemma_found_under_own_id(entries, k);
        }
    }
    assert(by_id(after) =~= by_id(entries).insert(record.id, record));
}

/// Records with distinct identifiers stand under as many identifiers as
/// there are records.
pub proof fn lemma_as_many_campaigns_as_records(entries: Seq<CampaignRecord>)
    requires
        distinct_ids(entries),
    ensures
        by_id(entries).dom().finite(),
        by_id(entries).dom().len() == entries.len(),
    decreases entries.len(),
{
    if entries.len() == 0 {
        assert(by_id(entries).dom() =~= Set::<Seq<char>>::empty());
    } else {
        let front = entries.drop_last();
        let last = entries.last();
        assert(entries =~= front.push(last));
        assert(distinct_ids(front)) by {
            assert forall|i: int, j: int| 0 <= i < j < front.len() implies front[i].id
                != front[j].id by {
                assert(entries[i].id != entries[j].id);
            }
        }
        assert(!has_id(front, last.id)) by {
            if has_id(front, last.id) {
                let k = choose|k: int| 0 <= k < front.len() && (#[trigger] front[k]).id == last.id;
                assert(entries[k].id != entries[entries.len() - 1].id);
            }
        }
        lemma_as_many_campaigns_as_records(front);
        lemma_push_inserts(front, last);
        assert(by_id(entries).dom() =~= by_id(front).dom().insert(last.id));
        assert(!by_id(front).dom().contains(last.id));
    }
}

/// The registry of campaigns.
#[derive(Debug)]
pub struct CampaignRegistry {
    records: Vec<CampaignData>,
}

impl View for CampaignRegistry {
    type V = Store;

    /// The record of each campaign, under the campaign's identifier.
    open spec fn view(&self) -> Store {
        by_id(self.entries())
    }
}

impl CampaignRegistry {
    /// The records, in the order in which they were made.
    pub closed spec fn entries(&self) -> Seq<CampaignRecord> {
        Seq::new(self.records@.len(), |i: int| self.records@[i]@)
    }

    /// The invariant of the registry: no two records have the same
    /// identifier. Every registry that this module hands out satisfies it.
    #[verifier::type_invariant]
    pub open spec fn well_formed(&self) -> bool {
        distinct_ids(self.entries())
    }

    /// A registry without records.
    pub fn new() -> (registry: CampaignRegistry)
        ensures
            registry.well_formed(),
            registry.entries() == Seq::<CampaignRecord>::empty(),
            registry@ == Store::empty(),
    {
        let registry = CampaignRegistry { records: Vec::new() };
        assert(registry@ =~= Store::empty());
        registry
    }

    /// The number of records, which is the number of campaigns: each
    /// campaign has one record.
    pub fn len(&self) -> (count: usize)
        ensures
            count == self.entries().len(),
            self@.dom().finite(),
            count == self@.dom().len(),
    {
        proof {
            use_type_invariant(self);
            lemma_as_many_campaigns_as_records(self.entries());
        }
        self.records.len()
    }

    fn position(&self, campaign_id: &CampaignId) -> (place: Option<usize>)
        ensures
            self.well_formed(),
            match place {
                Some(i) => i < self.entries().len() && self.entries()[i as int].id
                    == campaign_id@ && self.records@[i as int]@ == self.entries()[i as int],
                None => !has_id(self.entries(), campaign_id@),
            },
            place is Some <==> self@.contains_key(campaign_id@),
            place matches Some(i) ==> self@[campaign_id@] == self.entries()[i as int],
    {
        proof {
            use_type_invariant(self);
        }
        let mut i: usize = 0;
        while i < self.records.len()
            invariant
                self.well_formed(),
                i <= self.records@.len(),
                self.entries().len() == self.records@.len(),
                forall|k: int| 0 <= k < i ==> (#[trigger] self.entries()[k]).id != campaign_id@,
            decreases self.records@.len() - i,
        {
            if self.records[i].id == *campaign_id {
                proof {
                    lemma_found_under_own_id(self.entries(), i as int);
                }
                return Some(i);
            }
            i += 1;
        }
        None
    }

    /// Whether the campaign named `campaign_id` has a record.
    pub fn contains(&self, campaign_id: &CampaignId) -> (found: bool)
        ensures
            found == self@.contains_key(campaign_id@),
    {
        self.position(campaign_id).is_some()
    }

    /// The record of the campaign named `campaign_id`, if it has one.
    pub fn lookup(&self, campaign_id: &CampaignId) -> (found: Option<CampaignData>)
        ensures
            found is Some <==> self@.contains_key(campaign_id@),
            found matches Some(record) ==> record@ == self@[campaign_id@],
    {
        match self.position(campaign_id) {
            Some(i) => Some(self.records[i].clone()),
            None => None,
        }
    }

    /// Makes the record of a campaign from `draft`, with `now` as the time of
    /// its making, as [`store_create`] says: a campaign that has a record
    /// gets no second one.
    pub fn create_campaign(&mut self, draft: CampaignDraft, now: i64) -> (made: Result<
        CampaignData,
        AccessError,
    >)
        ensures
            final(self).well_formed(),
            (final(self)@, record_view(made)) == store_create(old(self)@, draft@, now),
            made is Ok ==> final(self).entries() == old(self).entries().push(
                draft@.stamped(now),
            ),
            made is Err ==> final(self).entries() == old(self).entries(),
    {
        match self.position(&draft.id) {
            Some(_) => Err(AccessError::DuplicateCampaign),
            None => {
                let record = draft.stamp(now);
                let copy = record.clone();
                proof {
                    lemma_push_inserts(self.entries(), record@);
                    assert(self.entries().push(record@) =~= Seq::new(
                        self.records@.push(record).len(),
                        |i: int| self.records@.push(record)[i]@,
                    ));
                }
                let mut records = Vec::new();
                std::mem::swap(&mut records, &mut self.records);
                records.push(record);
                self.records = records;
                Ok(copy)
            },
        }
    }

    /// Reads the campaign named `campaign_id`, as [`store_get`] says.
    pub fn get_campaign(&self, campaign_id: &CampaignId) -> (info: Result<
        CampaignData,
        AccessError,
    >)
        ensures
            record_view(info) == store_get(self@, campaign_id@),
    {
        match self.lookup(campaign_id) {
            Some(record) => Ok(record),
            None => Err(AccessError::CampaignNotFound),
        }
    }

    /// Checks that `user` holds the credential of the campaign named
    /// `campaign_id`, as [`store_verify`] says. `account` is the holding that
    /// `user` shows.
    pub fn verify_access(
        &self,
        campaign_id: &CampaignId,
        user: Address,
        account: TokenAccount,
    ) -> (granted: Result<(), AccessError>)
        ensures
            granted == store_verify(self@, campaign_id@, user, account),
    {
        match self.lookup(campaign_id) {
            Some(record) => {
                let ctx = VerifyAccess { user, user_token_account: account, campaign_data: record };
                verify_access(&ctx, campaign_id)
            },
            None => Err(AccessError::CampaignNotFound),
        }
    }

    /// Changes the campaign named `campaign_id` for `authority`, as
    /// [`store_update`] says. `mint` is the asset of the campaign's
    /// credential, as the token service knows it. No other campaign is
    /// touched.
    pub fn update_campaign(
        &mut self,
        campaign_id: &CampaignId,
        authority: Address,
        mint: Mint,
        new_uri: Option<MetadataUri>,
        new_agent_count: Option<u32>,
    ) -> (changed: Result<CampaignData, AccessError>)
        ensures
            final(self).well_formed(),
            (final(self)@, record_view(changed)) == store_update(
                old(self)@,
                campaign_id@,
                authority,
                mint,
                uri_view(new_uri),
                new_agent_count,
            ),
            final(self).entries().len() == old(self).entries().len(),
    {
        match self.position(campaign_id) {
            None => Err(AccessError::CampaignNotFound),
            Some(i) => {
                let mut ctx = UpdateCampaignData {
                    authority,
                    campaign_data: self.records[i].clone(),
                    mint,
                };
                match update_campaign_data(&mut ctx, campaign_id, new_uri, new_agent_count) {
                    Err(error) => Err(error),
                    Ok(()) => {
                        let copy = ctx.campaign_data.clone();
                        proof {
                            lemma_update_inserts(self.entries(), i as int, ctx.campaign_data@);
                            assert(self.entries().update(i as int, ctx.campaign_data@) =~= Seq::new(
                                self.records@.update(i as int, ctx.campaign_data).len(),
                                |k: int| self.records@.update(i as int, ctx.campaign_data)[k]@,
                            ));
                        }
                        let mut records = Vec::new();
                        std::mem::swap(&mut records, &mut self.records);
                        records[i] = ctx.campaign_data;
                        self.records = records;
                        Ok(copy)
                    },
                }
            },
        }
    }
}

} // verus!
