use access_nft::{
    mint_access_nft, AccessError, Address, AssetRequest, CampaignData, CampaignDraft, CampaignId,
    CollectionDetails, Creator, Issuance, IssuanceAction, MetadataRequest, MetadataUri, Mint,
    MintAccessNFT, MintOrder, ServiceReply,
};

fn who(tag: u8) -> Address {
    Address::new([tag; 32])
}

const PAYER: u8 = 1;
const AUTHORITY: u8 = 2;
const RECIPIENT: u8 = 3;
const ASSET: u8 = 9;

fn begin(existing: Option<CampaignData>) -> (Issuance, IssuanceAction) {
    let ctx = MintAccessNFT {
        payer: who(PAYER),
        mint_authority: who(AUTHORITY),
        recipient: who(RECIPIENT),
        campaign_data: existing,
        bump: 251,
    };
    mint_access_nft(
        ctx,
        CampaignId::new("launch1".to_string()).unwrap(),
        "Launch One".to_string(),
        "L1".to_string(),
        MetadataUri::new("ipfs://x".to_string()).unwrap(),
        5,
    )
}

fn new_asset() -> Mint {
    Mint {
        address: who(ASSET),
        mint_authority: Some(who(AUTHORITY)),
        freeze_authority: Some(who(AUTHORITY)),
        supply: 0,
        decimals: 0,
    }
}

fn after(replies: &[ServiceReply]) -> (Issuance, IssuanceAction) {
    let (mut state, mut action) = begin(None);
    for reply in replies {
        let next = state.advance(*reply);
        state = next.0;
        action = next.1;
    }
    (state, action)
}

#[test]
fn issuance_first_asks_for_the_asset() {
    let (state, action) = begin(None);
    assert_eq!(
        action,
        IssuanceAction::CreateAsset(AssetRequest {
            payer: who(PAYER),
            mint_authority: who(AUTHORITY),
            freeze_authority: who(AUTHORITY),
            decimals: 0,
        })
    );
    assert!(matches!(state, Issuance::CreatingAsset { .. }));
    assert!(!state.is_over());
}

#[test]
fn issuance_then_asks_for_the_metadata() {
    let (state, action) = after(&[ServiceReply::AssetCreated(new_asset())]);
    let expected = MetadataRequest {
        mint: who(ASSET),
        mint_authority: who(AUTHORITY),
        update_authority: who(AUTHORITY),
        payer: who(PAYER),
        name: "Launch One".to_string(),
        symbol: "L1".to_string(),
        uri: MetadataUri::new("ipfs://x".to_string()).unwrap(),
        seller_fee_basis_points: 500,
        creator: Creator { address: who(AUTHORITY), verified: true, share: 100 },
        is_mutable: true,
        update_authority_is_signer: true,
        collection_details: Some(CollectionDetails { size: 0 }),
    };
    assert_eq!(action, IssuanceAction::AttachMetadata(expected));
    assert!(matches!(state, Issuance::AttachingMetadata { .. }));
}

#[test]
fn issuance_then_mints_exactly_one_unit_to_the_recipient() {
    let (state, action) = after(&[ServiceReply::AssetCreated(new_asset()), ServiceReply::MetadataAttached]);
    assert_eq!(
        action,
        IssuanceAction::MintUnits(MintOrder { mint: who(ASSET), to: who(RECIPIENT), authority: who(AUTHORITY), amount: 1 })
    );
    assert!(matches!(state, Issuance::Minting { .. }));
}

#[test]
fn issuance_ends_with_the_record() {
    let (state, action) =
        after(&[ServiceReply::AssetCreated(new_asset()), ServiceReply::MetadataAttached, ServiceReply::UnitsMinted]);
    assert_eq!(
        action,
        IssuanceAction::CreateRecord(CampaignDraft {
            id: CampaignId::new("launch1".to_string()).unwrap(),
            mint: who(ASSET),
            uri: MetadataUri::new("ipfs://x".to_string()).unwrap(),
            agent_count: 5,
            bump: 251,
        })
    );
    assert_eq!(
        state,
        Issuance::Finished { campaign_id: CampaignId::new("launch1".to_string()).unwrap(), mint: who(ASSET) }
    );
    assert!(state.is_over());
}

#[test]
fn issuance_for_a_campaign_with_a_record_is_a_duplicate() {
    let existing = CampaignData {
        id: CampaignId::new("launch1".to_string()).unwrap(),
        mint: who(8),
        uri: MetadataUri::new("ipfs://old".to_string()).unwrap(),
        agent_count: 1,
        created_at: 1,
        bump: 251,
    };
    let (state, action) = begin(Some(existing));
    assert_eq!(action, IssuanceAction::Abort(AccessError::DuplicateCampaign));
    assert_eq!(state, Issuance::Aborted { error: AccessError::DuplicateCampaign });
    assert!(state.is_over());
}

#[test]
fn failure_to_create_the_asset_is_a_token_service_failure() {
    let (state, action) = after(&[ServiceReply::Failed]);
    assert_eq!(action, IssuanceAction::Abort(AccessError::TokenServiceFailure));
    assert_eq!(state, Issuance::Aborted { error: AccessError::TokenServiceFailure });
}

#[test]
fn failure_to_attach_the_metadata_is_a_metadata_service_failure() {
    let (state, action) = after(&[ServiceReply::AssetCreated(new_asset()), ServiceReply::Failed]);
    assert_eq!(action, IssuanceAction::Abort(AccessError::MetadataServiceFailure));
    assert_eq!(state, Issuance::Aborted { error: AccessError::MetadataServiceFailure });
}

#[test]
fn failure_to_mint_is_a_token_service_failure() {
    let (state, action) = after(&[ServiceReply::AssetCreated(new_asset()), ServiceReply::MetadataAttached, ServiceReply::Failed]);
    assert_eq!(action, IssuanceAction::Abort(AccessError::TokenServiceFailure));
    assert_eq!(state, Issuance::Aborted { error: AccessError::TokenServiceFailure });
}

#[test]
fn asset_with_a_unit_in_existence_is_refused() {
    let mut used = new_asset();
    used.supply = 1;
    let (state, action) = after(&[ServiceReply::AssetCreated(used)]);
    assert_eq!(action, IssuanceAction::Abort(AccessError::TokenServiceFailure));
    assert!(state.is_over());
}

#[test]
fn asset_whose_units_can_be_split_is_refused() {
    let mut divisible = new_asset();
    divisible.decimals = 6;
    let (_, action) = after(&[ServiceReply::AssetCreated(divisible)]);
    assert_eq!(action, IssuanceAction::Abort(AccessError::TokenServiceFailure));
}

#[test]
fn asset_under_another_authority_is_refused() {
    let mut foreign = new_asset();
    foreign.mint_authority = Some(who(7));
    let (_, action) = after(&[ServiceReply::AssetCreated(foreign)]);
    assert_eq!(action, IssuanceAction::Abort(AccessError::TokenServiceFailure));

    let mut unfrozen = new_asset();
    unfrozen.freeze_authority = None;
    let (_, action) = after(&[ServiceReply::AssetCreated(unfrozen)]);
    assert_eq!(action, IssuanceAction::Abort(AccessError::TokenServiceFailure));
}

#[test]
fn reply_out_of_turn_ends_the_issuance() {
    let (_, action) = after(&[ServiceReply::UnitsMinted]);
    assert_eq!(action, IssuanceAction::Abort(AccessError::TokenServiceFailure));
    let (_, action) = after(&[ServiceReply::AssetCreated(new_asset()), ServiceReply::UnitsMinted]);
    assert_eq!(action, IssuanceAction::Abort(AccessError::MetadataServiceFailure));
    let (_, action) =
        after(&[ServiceReply::AssetCreated(new_asset()), ServiceReply::MetadataAttached, ServiceReply::MetadataAttached]);
    assert_eq!(action, IssuanceAction::Abort(AccessError::TokenServiceFailure));
}

#[test]
fn nothing_follows_the_end_of_an_issuance() {
    let done = [ServiceReply::AssetCreated(new_asset()), ServiceReply::MetadataAttached, ServiceReply::UnitsMinted];
    for extra in [ServiceReply::UnitsMinted, ServiceReply::MetadataAttached, ServiceReply::Failed, ServiceReply::AssetCreated(new_asset())] {
        let mut replies = done.to_vec();
        replies.push(extra);
        let (state, action) = after(&replies);
        assert_eq!(action, IssuanceAction::Halt);
        assert!(matches!(state, Issuance::Finished { .. }));

        let (state, action) = after(&[ServiceReply::Failed, extra]);
        assert_eq!(action, IssuanceAction::Halt);
        assert_eq!(state, Issuance::Aborted { error: AccessError::TokenServiceFailure });
    }
}

#[test]
fn no_run_of_replies_mints_a_second_unit() {
    let kinds = [
        ServiceReply::AssetCreated(new_asset()),
        ServiceReply::MetadataAttached,
        ServiceReply::UnitsMinted,
        ServiceReply::Failed,
    ];
    // every run of five replies
    for code in 0..(4usize.pow(5)) {
        let (mut state, mut action) = begin(None);
        let mut units = 0u64;
        let mut records = 0u32;
        let mut rest = code;
        for _ in 0..5 {
            let next = state.advance(kinds[rest % 4]);
            rest /= 4;
            state = next.0;
            action = next.1;
            match &action {
                IssuanceAction::MintUnits(order) => units += order.amount,
                IssuanceAction::CreateRecord(_) => records += 1,
                _ => {}
            }
        }
        assert!(units <= 1);
        assert!(records <= 1);
        assert!(records == 0 || units == 1);
        assert!(state.is_over());
        assert_eq!(action, IssuanceAction::Halt);
    }
}
