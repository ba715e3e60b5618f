//! What holds of the operations taken together.
//!
//! Each operation's own contract says what one call does. The statements
//! here are about several calls, or about every state that can be reached:
//! they are proved from the definitions that the contracts are written in.
use vstd::prelude::*;

use crate::access::{access_decision, holds_credential};
use crate::address::Address;
use crate::campaign::{CampaignDraftView, CampaignRecord};
use crate::error::AccessError;
use crate::issuer::{
    aborted, issuance_start, issuance_step, IssuanceActionView, IssuanceView, IssueOrderView,
    ServiceReply,
};
use crate::registry::{
    keyed_by_id, lemma_by_id_is_keyed, store_create, store_get, store_update, store_verify,
    CampaignRegistry, Store,
};
use crate::token::{Mint, MintOrder, TokenAccount};
use crate::update::{is_campaign_authority, updated_record};

verus! {

// ---------------------------------------------------------------------------
// One record for each campaign
// ---------------------------------------------------------------------------

/// No campaign has two records: two records of a registry with the same
/// identifier are one and the same.
pub proof fn lemma_one_record_per_campaign(registry: CampaignRegistry, i: int, j: int)
    requires
        registry.well_formed(),
        0 <= i < registry.entries().len(),
        0 <= j < registry.entries().len(),
        registry.entries()[i].id == registry.entries()[j].id,
    ensures
        i == j,
{
    let entries = registry.entries();
    if i < j {
        assert(entries[i].id != entries[j].id);
    } else if j < i {
        assert(entries[j].id != entries[i].id);
    }
}

/// One thing that can be asked of a registry and that may change it.
pub enum RegistryRequest {
    /// Make the record of a campaign, at the given time.
    Create { draft: CampaignDraftView, now: i64 },
    /// Change the record of a campaign.
    Update {
        campaign_id: Seq<char>,
        authority: Address,
        mint: Mint,
        new_uri: Option<Seq<char>>,
        new_agent_count: Option<u32>,
    },
}

/// The store after one request.
pub open spec fn store_after(store: Store, request: RegistryRequest) -> Store {
    match request {
        RegistryRequest::Create { draft, now } => store_create(store, draft, now).0,
        RegistryRequest::Update { campaign_id, authority, mint, new_uri, new_agent_count } => {
            store_update(store, campaign_id, authority, mint, new_uri, new_agent_count).0
        },
    }
}

/// The store after a sequence of requests, carried out one after the other.
pub open spec fn store_after_all(store: Store, requests: Seq<RegistryRequest>) -> Store
    decreases requests.len(),
{
    if requests.len() == 0 {
        store
    } else {
        store_after_all(store_after(store, requests[0]), requests.drop_first())
    }
}

/// Whatever is asked of a registry, in whatever order and whether it is
/// granted or refused:
///
/// * every record stays under its own identifier, so there is never more
///   than one record for a campaign, nor a record of one campaign in the
///   place of another;
/// * no record is ever removed;
/// * the identifier, the credential's asset, the time of making and the bump
///   seed of a record are for ever what they were when the record was made.
pub proof fn lemma_requests_keep_one_record_per_campaign(
    store: Store,
    requests: Seq<RegistryRequest>,
)
    requires
        keyed_by_id(store),
    ensures
        keyed_by_id(store_after_all(store, requests)),
        forall|a: Seq<char>, b: Seq<char>|
            #![trigger store_after_all(store, requests)[a], store_after_all(store, requests)[b]]
            {
                let after = store_after_all(store, requests);
                after.contains_key(a) && after.contains_key(b) && after[a].id == after[b].id ==> a
                    == b
            },
        forall|id: Seq<char>| #[trigger]
            store.contains_key(id) ==> {
                let after = store_after_all(store, requests);
                &&& after.contains_key(id)
                &&& after[id].id == store[id].id
                &&& after[id].mint == store[id].mint
                &&& after[id].created_at == store[id].created_at
                &&& after[id].bump == store[id].bump
            },
    decreases requests.len(),
{
    if requests.len() > 0 {
        let next = store_after(store, requests[0]);
        assert(keyed_by_id(next)) by {
            assert forall|id: Seq<char>| #[trigger] next.contains_key(id) implies next[id].id
                == id by {
                if store.contains_key(id) {
                    assert(store[id].id == id);
                }
            }
        }
        lemma_requests_keep_one_record_per_campaign(next, requests.drop_first());
        assert forall|id: Seq<char>| #[trigger] store.contains_key(id) implies next.contains_key(
            id,
        ) && next[id].id == store[id].id && next[id].mint == store[id].mint && next[id].created_at
            == store[id].created_at && next[id].bump == store[id].bump by {
            assert(store[id].id == id);
        }
    }
    let after = store_after_all(store, requests);
    assert forall|a: Seq<char>, b: Seq<char>|
        after.contains_key(a) && after.contains_key(b) && after[a].id == after[b].id implies a
        == b by {
        assert(after[a].id == a);
        assert(after[b].id == b);
    }
}

/// What a registry holds is kept under its own identifier, so the law above
/// speaks of every registry.
pub proof fn lemma_registry_is_keyed_by_id(registry: CampaignRegistry)
    ensures
        keyed_by_id(registry@),
{
    lemma_by_id_is_keyed(registry.entries());
}

/// Of two attempts to make the record of one campaign, the first that comes
/// is granted and the other is refused with `DuplicateCampaign`, leaving the
/// store as the first made it. So it is whichever way round they come.
pub proof fn lemma_second_record_is_refused(
    store: Store,
    first: CampaignDraftView,
    first_time: i64,
    second: CampaignDraftView,
    second_time: i64,
)
    requires
        first.id == second.id,
        !store.contains_key(first.id),
    ensures
        store_create(store, first, first_time) == (
            store.insert(first.id, first.stamped(first_time)),
            Ok::<CampaignRecord, AccessError>(first.stamped(first_time)),
        ),
        store_create(store_create(store, first, first_time).0, second, second_time) == (
            store_create(store, first, first_time).0,
            Err::<CampaignRecord, AccessError>(AccessError::DuplicateCampaign),
        ),
{
}

// ---------------------------------------------------------------------------
// The issuance
// ---------------------------------------------------------------------------

/// An issuance that is told of each success in turn asks for the asset, then
/// for its metadata, then for one unit to the recipient, then for the record,
/// each with what the order says, and is complete.
pub proof fn lemma_issuance_goes_step_by_step(order: IssueOrderView, mint: Mint)
    requires
        mint.answers(order.asset_request()),
    ensures
        ({
            let (begun, first) = issuance_start(false, order);
            let (described, second) = issuance_step(begun, ServiceReply::AssetCreated(mint));
            let (minted, third) = issuance_step(described, ServiceReply::MetadataAttached);
            let (finished, fourth) = issuance_step(minted, ServiceReply::UnitsMinted);
            &&& first == IssuanceActionView::CreateAsset(order.asset_request())
            &&& second == IssuanceActionView::AttachMetadata(order.metadata_request(mint.address))
            &&& third == IssuanceActionView::MintUnits(order.mint_order(mint.address))
            &&& third->MintUnits_0.amount == 1
            &&& third->MintUnits_0.to == order.recipient
            &&& fourth == IssuanceActionView::CreateRecord(order.draft(mint.address))
            &&& finished == IssuanceView::Finished {
                campaign_id: order.campaign_id,
                mint: mint.address,
            }
        }),
{
}

/// Whether the issuance is over.
pub open spec fn is_over(state: IssuanceView) -> bool {
    state is Finished || state is Aborted
}

/// Whether `reply` is the confirmation that the issuance waits for in
/// `state`.
pub open spec fn is_awaited(state: IssuanceView, reply: ServiceReply) -> bool {
    match state {
        IssuanceView::CreatingAsset { order } => reply matches ServiceReply::AssetCreated(mint)
            && mint.answers(order.asset_request()),
        IssuanceView::AttachingMetadata { .. } => reply is MetadataAttached,
        IssuanceView::Minting { .. } => reply is UnitsMinted,
        IssuanceView::Finished { .. } => false,
        IssuanceView::Aborted { .. } => false,
    }
}

/// The collaborator that the issuance waits for in `state` has failed.
pub open spec fn failure_in(state: IssuanceView) -> AccessError {
    if state is AttachingMetadata {
        AccessError::MetadataServiceFailure
    } else {
        AccessError::TokenServiceFailure
    }
}

/// A failure at any step ends the issuance: whatever comes back that is not
/// the confirmation awaited, the issuance is given up with the failure of
/// the collaborator that was asked, nothing more is requested, and no record
/// is asked for.
pub proof fn lemma_failure_ends_issuance(state: IssuanceView, reply: ServiceReply)
    requires
        !is_over(state),
        !is_awaited(state, reply),
    ensures
        issuance_step(state, reply) == aborted(failure_in(state)),
{
}

/// The states and the actions of an issuance that is handed `replies` one
/// after the other, starting in `state`.
pub open spec fn issuance_run(state: IssuanceView, replies: Seq<ServiceReply>) -> (
    IssuanceView,
    Seq<IssuanceActionView>,
)
    decreases replies.len(),
{
    if replies.len() == 0 {
        (state, Seq::empty())
    } else {
        let (next, action) = issuance_step(state, replies[0]);
        let (last, actions) = issuance_run(next, replies.drop_first());
        (last, seq![action] + actions)
    }
}

/// The number of units that the actions ask the token service to mint.
pub open spec fn units_ordered(actions: Seq<IssuanceActionView>) -> nat
    decreases actions.len(),
{
    if actions.len() == 0 {
        0
    } else {
        let rest = units_ordered(actions.drop_first());
        match actions[0] {
            IssuanceActionView::MintUnits(order) => order.amount as nat + rest,
            _ => rest,
        }
    }
}

/// The number of records that the actions ask for.
pub open spec fn records_ordered(actions: Seq<IssuanceActionView>) -> nat
    decreases actions.len(),
{
    if actions.len() == 0 {
        0
    } else {
        let rest = records_ordered(actions.drop_first());
        match actions[0] {
            IssuanceActionView::CreateRecord(_) => 1 + rest,
            _ => rest,
        }
    }
}

/// The number of units that an issuance in `state` may still ask for.
pub open spec fn units_ahead(state: IssuanceView) -> nat {
    match state {
        IssuanceView::CreatingAsset { .. } => 1,
        IssuanceView::AttachingMetadata { .. } => 1,
        _ => 0,
    }
}

/// Whatever replies an issuance is handed, and however many, it asks for no
/// more units than are still ahead of it, and for as many records as it
/// completes: one if it ends complete and was not so before, none otherwise.
pub proof fn lemma_run_orders_within_bounds(state: IssuanceView, replies: Seq<ServiceReply>)
    ensures
        units_ordered(issuance_run(state, replies).1) <= units_ahead(state),
        records_ordered(issuance_run(state, replies).1) <= 1,
        records_ordered(issuance_run(state, replies).1) == 1 ==> issuance_run(state, replies).0
            is Finished && !is_over(state) && units_ordered(issuance_run(state, replies).1)
            == units_ahead(state),
        is_over(state) ==> issuance_run(state, replies).0 == state && records_ordered(
            issuance_run(state, replies).1,
        ) == 0,
    decreases replies.len(),
{
    if replies.len() > 0 {
        let (next, action) = issuance_step(state, replies[0]);
        let (last, actions) = issuance_run(next, replies.drop_first());
        lemma_run_orders_within_bounds(next, replies.drop_first());
        let all = seq![action] + actions;
        assert(all.drop_first() =~= actions);
        assert(all[0] == action);
    }
}

/// An issuance never asks for more than one unit of the credential, whatever
/// it is told and however long it is driven: there is no way to a second
/// unit. And it asks for the record only when that one unit has been asked
/// for.
pub proof fn lemma_at_most_one_unit(
    occupied: bool,
    order: IssueOrderView,
    replies: Seq<ServiceReply>,
)
    ensures
        ({
            let (begun, first) = issuance_start(occupied, order);
            let (last, actions) = issuance_run(begun, replies);
            &&& !(first is MintUnits)
            &&& units_ordered(actions) <= 1
            &&& records_ordered(actions) <= 1
            &&& records_ordered(actions) == 1 ==> units_ordered(actions) == 1 && last is Finished
        }),
{
    let (begun, first) = issuance_start(occupied, order);
    lemma_run_orders_within_bounds(begun, replies);
}

/// An asset of which a unit exists already is not taken for a credential:
/// the issuance is given up before anything is minted. So no asset becomes
/// the credential of two campaigns, as long as the token service reports the
/// supply as it is.
pub proof fn lemma_minted_asset_is_refused(order: IssueOrderView, mint: Mint)
    requires
        mint.supply >= 1,
    ensures
        issuance_step(IssuanceView::CreatingAsset { order }, ServiceReply::AssetCreated(mint))
            == aborted(AccessError::TokenServiceFailure),
{
}

// ---------------------------------------------------------------------------
// Access after an issuance
// ---------------------------------------------------------------------------

/// The holdings that the token service keeps: the number of units that each
/// owner has of each asset. A pair that is absent has none.
pub type Holdings = Map<(Address, Address), nat>;

/// The number of units of `asset` that `owner` has.
pub open spec fn units_held(holdings: Holdings, owner: Address, asset: Address) -> nat {
    if holdings.contains_key((owner, asset)) {
        holdings[(owner, asset)]
    } else {
        0
    }
}

/// The holdings after the token service has carried out `order`: the units
/// are added to what the receiver had of the asset, and nothing else changes.
pub open spec fn after_minting(holdings: Holdings, order: MintOrder) -> Holdings {
    holdings.insert(
        (order.to, order.mint),
        (units_held(holdings, order.to, order.mint) + order.amount) as nat,
    )
}

/// Whether `account` is what the token service reports of the holding of
/// `owner` in `asset`.
pub open spec fn reports(
    holdings: Holdings,
    account: TokenAccount,
    owner: Address,
    asset: Address,
) -> bool {
    account.owner == owner && account.mint == asset && account.amount == units_held(
        holdings,
        owner,
        asset,
    )
}

/// After an issuance the recipient has access to the campaign and whoever
/// holds nothing of the credential has not.
///
/// The asset is new: before the minting nobody holds a unit of it. Once the
/// issuance's one order to mint is carried out and the record is made, the
/// recipient holds exactly one unit, nobody else holds any, the recipient's
/// holding is granted access to the campaign, and a holding without a unit,
/// whoever shows it, is refused with `InsufficientTokens`.
pub proof fn lemma_access_follows_issuance(
    store: Store,
    holdings: Holdings,
    order: IssueOrderView,
    mint: Address,
    now: i64,
    account: TokenAccount,
    other: Address,
    empty: TokenAccount,
)
    requires
        !store.contains_key(order.campaign_id),
        forall|owner: Address| units_held(holdings, owner, mint) == 0,
        reports(after_minting(holdings, order.mint_order(mint)), account, order.recipient, mint),
        empty.amount == 0,
    ensures
        ({
            let held = after_minting(holdings, order.mint_order(mint));
            let (registered, made) = store_create(store, order.draft(mint), now);
            &&& made == Ok::<CampaignRecord, AccessError>(order.draft(mint).stamped(now))
            &&& units_held(held, order.recipient, mint) == 1
            &&& other != order.recipient ==> units_held(held, other, mint) == 0
            &&& store_verify(registered, order.campaign_id, order.recipient, account) == Ok::<
                (),
                AccessError,
            >(())
            &&& store_verify(registered, order.campaign_id, other, empty) == Err::<
                (),
                AccessError,
            >(AccessError::InsufficientTokens)
        }),
{
    assert(units_held(holdings, order.recipient, mint) == 0);
    assert(units_held(holdings, other, mint) == 0);
}

/// A holding without a unit in it gives access to no campaign, and the
/// refusal is always `InsufficientTokens`.
pub proof fn lemma_empty_holding_is_refused(
    record: CampaignRecord,
    user: Address,
    account: TokenAccount,
    campaign_id: Seq<char>,
)
    requires
        account.amount == 0,
    ensures
        access_decision(record, user, account, campaign_id) == Err::<(), AccessError>(
            AccessError::InsufficientTokens,
        ),
{
}

/// Access is given to the holder of the credential and to nobody else.
pub proof fn lemma_access_is_possession(
    store: Store,
    campaign_id: Seq<char>,
    user: Address,
    account: TokenAccount,
)
    requires
        keyed_by_id(store),
        store.contains_key(campaign_id),
    ensures
        store_verify(store, campaign_id, user, account) is Ok <==> holds_credential(
            store[campaign_id],
            user,
            account,
        ),
        store_verify(store, campaign_id, user, account) is Err ==> store_verify(
            store,
            campaign_id,
            user,
            account,
        ) == Err::<(), AccessError>(AccessError::InsufficientTokens),
{
    assert(store[campaign_id].id == campaign_id);
}

// ---------------------------------------------------------------------------
// Updates
// ---------------------------------------------------------------------------

/// An update that gives neither a URI nor an agent count changes nothing, and
/// is granted to the campaign's authority all the same.
pub proof fn lemma_empty_update_changes_nothing(
    store: Store,
    campaign_id: Seq<char>,
    authority: Address,
    mint: Mint,
)
    requires
        keyed_by_id(store),
        store.contains_key(campaign_id),
        is_campaign_authority(store[campaign_id], authority, mint),
    ensures
        updated_record(store[campaign_id], None, None) == store[campaign_id],
        store_update(store, campaign_id, authority, mint, None, None) == (
            store,
            Ok::<CampaignRecord, AccessError>(store[campaign_id]),
        ),
{
    assert(store[campaign_id].id == campaign_id);
    assert(store.insert(campaign_id, store[campaign_id]) =~= store);
}

/// An update by anybody but the campaign's authority is refused with
/// `UnauthorizedUpdate`, whatever it asks for, and changes nothing.
pub proof fn lemma_stranger_cannot_update(
    store: Store,
    campaign_id: Seq<char>,
    caller: Address,
    mint: Mint,
    new_uri: Option<Seq<char>>,
    new_agent_count: Option<u32>,
)
    requires
        store.contains_key(campaign_id),
        !is_campaign_authority(store[campaign_id], caller, mint),
    ensures
        store_update(store, campaign_id, caller, mint, new_uri, new_agent_count) == (
            store,
            Err::<CampaignRecord, AccessError>(AccessError::UnauthorizedUpdate),
        ),
{
}

/// An update changes the URI and the agent count at most: the identifier,
/// the credential's asset, the time of making and the bump seed of a record
/// are for ever what they were when the record was made.
pub proof fn lemma_update_keeps_what_is_fixed(
    store: Store,
    campaign_id: Seq<char>,
    authority: Address,
    mint: Mint,
    new_uri: Option<Seq<char>>,
    new_agent_count: Option<u32>,
)
    requires
        store.contains_key(campaign_id),
    ensures
        ({
            let after = store_update(
                store,
                campaign_id,
                authority,
                mint,
                new_uri,
                new_agent_count,
            ).0;
            &&& after.contains_key(campaign_id)
            &&& after[campaign_id].id == store[campaign_id].id
            &&& after[campaign_id].mint == store[campaign_id].mint
            &&& after[campaign_id].created_at == store[campaign_id].created_at
            &&& after[campaign_id].bump == store[campaign_id].bump
        }),
{
}

/// An update of one campaign never touches another: every other campaign
/// has the record that it had, or none as before.
pub proof fn lemma_update_touches_one_campaign(
    store: Store,
    campaign_id: Seq<char>,
    authority: Address,
    mint: Mint,
    new_uri: Option<Seq<char>>,
    new_agent_count: Option<u32>,
    other: Seq<char>,
)
    requires
        other != campaign_id,
    ensures
        ({
            let after = store_update(
                store,
                campaign_id,
                authority,
                mint,
                new_uri,
                new_agent_count,
            ).0;
            &&& after.contains_key(other) == store.contains_key(other)
            &&& after[other] == store[other]
            &&& store_get(after, other) == store_get(store, other)
        }),
{
}

/// Two campaigns with different identifiers get a record each, and each
/// record has the asset that was created for its own campaign: where the
/// assets differ, so do the records' credentials.
pub proof fn lemma_campaigns_are_independent(
    store: Store,
    one: CampaignDraftView,
    one_time: i64,
    two: CampaignDraftView,
    two_time: i64,
)
    requires
        one.id != two.id,
        !store.contains_key(one.id),
        !store.contains_key(two.id),
    ensures
        ({
            let after = store_create(store_create(store, one, one_time).0, two, two_time).0;
            &&& store_get(after, one.id) == Ok::<CampaignRecord, AccessError>(
                one.stamped(one_time),
            )
            &&& store_get(after, two.id) == Ok::<CampaignRecord, AccessError>(
                two.stamped(two_time),
            )
            &&& one.mint != two.mint ==> after[one.id].mint != after[two.id].mint
        }),
{
}

} // verus!
