use access_nft::{
    mint_access_nft, AccessError, Address, CampaignData, CampaignDraft, CampaignId,
    CampaignRegistry, Issuance, IssuanceAction, MetadataUri, Mint, MintAccessNFT, MintOrder,
    ServiceReply, TokenAccount,
};

fn address(tag: u8) -> Address {
    Address::new([tag; 32])
}

fn id(text: &str) -> CampaignId {
    CampaignId::new(text.to_string()).unwrap()
}

fn uri(text: &str) -> MetadataUri {
    MetadataUri::new(text.to_string()).unwrap()
}

/// A stand-in for the token service: it creates assets as asked and keeps
/// count of who holds what.
struct Tokens {
    mints: Vec<Mint>,
    accounts: Vec<TokenAccount>,
}

impl Tokens {
    fn new() -> Tokens {
        Tokens { mints: Vec::new(), accounts: Vec::new() }
    }

    fn create(&mut self, asset: Address, authority: Address, decimals: u8) -> Mint {
        let mint = Mint {
            address: asset,
            mint_authority: Some(authority),
            freeze_authority: Some(authority),
            supply: 0,
            decimals,
        };
        self.mints.push(mint);
        mint
    }

    fn mint(&mut self, order: &MintOrder) {
        for mint in self.mints.iter_mut() {
            if mint.address == order.mint {
                mint.supply += order.amount;
            }
        }
        for account in self.accounts.iter_mut() {
            if account.mint == order.mint && account.owner == order.to {
                account.amount += order.amount;
                return;
            }
        }
        self.accounts.push(TokenAccount { mint: order.mint, owner: order.to, amount: order.amount });
    }

    fn asset(&self, asset: Address) -> Mint {
        *self.mints.iter().find(|mint| mint.address == asset).unwrap()
    }

    fn holding(&self, asset: Address, owner: Address) -> TokenAccount {
        self.accounts
            .iter()
            .find(|account| account.mint == asset && account.owner == owner)
            .copied()
            .unwrap_or(TokenAccount { mint: asset, owner, amount: 0 })
    }
}

/// Drives one issuance to its end against the registry and the stand-in.
fn issue(
    registry: &mut CampaignRegistry,
    tokens: &mut Tokens,
    asset: Address,
    authority: Address,
    recipient: Address,
    campaign: &str,
    link: &str,
    agent_count: u32,
    now: i64,
) -> Result<CampaignData, AccessError> {
    let campaign_id = id(campaign);
    let ctx = MintAccessNFT {
        payer: authority,
        mint_authority: authority,
        recipient,
        campaign_data: registry.lookup(&campaign_id),
        bump: 254,
    };
    let (mut state, mut action) = mint_access_nft(
        ctx,
        campaign_id,
        "Access".to_string(),
        "ACC".to_string(),
        uri(link),
        agent_count,
    );
    loop {
        let reply = match action {
            IssuanceAction::CreateAsset(request) => {
                ServiceReply::AssetCreated(tokens.create(asset, request.mint_authority, request.decimals))
            }
            IssuanceAction::AttachMetadata(_) => ServiceReply::MetadataAttached,
            IssuanceAction::MintUnits(order) => {
                tokens.mint(&order);
                ServiceReply::UnitsMinted
            }
            IssuanceAction::CreateRecord(draft) => {
                assert!(matches!(state, Issuance::Finished { .. }));
                return registry.create_campaign(draft, now);
            }
            IssuanceAction::Abort(error) => return Err(error),
            IssuanceAction::Halt => unreachable!(),
        };
        let next = state.advance(reply);
        state = next.0;
        action = next.1;
    }
}

#[test]
fn example_scenario_launch1() {
    let authority = address(1);
    let recipient = address(2);
    let stranger = address(3);
    let asset = address(10);
    let mut registry = CampaignRegistry::new();
    let mut tokens = Tokens::new();

    let made = issue(&mut registry, &mut tokens, asset, authority, recipient, "launch1", "ipfs://x", 5, 1_700_000_000)
        .unwrap();
    assert_eq!(made.mint, asset);

    let info = registry.get_campaign(&id("launch1")).unwrap();
    assert_eq!(info.agent_count, 5);
    assert_eq!(info.uri.as_str(), "ipfs://x");
    assert_eq!(info.id.as_str(), "launch1");
    assert_eq!(info.created_at, 1_700_000_000);
    assert_eq!(info.bump, 254);

    assert_eq!(
        registry.verify_access(&id("launch1"), recipient, tokens.holding(asset, recipient)),
        Ok(())
    );
    assert_eq!(
        registry.verify_access(&id("launch1"), stranger, tokens.holding(asset, stranger)),
        Err(AccessError::InsufficientTokens)
    );

    let changed = registry
        .update_campaign(&id("launch1"), authority, tokens.asset(asset), None, Some(9))
        .unwrap();
    assert_eq!(changed.agent_count, 9);
    assert_eq!(changed.uri.as_str(), "ipfs://x");
    let info = registry.get_campaign(&id("launch1")).unwrap();
    assert_eq!(info.agent_count, 9);
    assert_eq!(info.uri.as_str(), "ipfs://x");
    assert_eq!(info.created_at, 1_700_000_000);
}

#[test]
fn reissuing_launch1_is_a_duplicate() {
    let authority = address(1);
    let recipient = address(2);
    let mut registry = CampaignRegistry::new();
    let mut tokens = Tokens::new();
    issue(&mut registry, &mut tokens, address(10), authority, recipient, "launch1", "ipfs://x", 5, 100).unwrap();

    let again = issue(&mut registry, &mut tokens, address(11), authority, recipient, "launch1", "ipfs://y", 7, 200);
    assert_eq!(again, Err(AccessError::DuplicateCampaign));

    assert_eq!(registry.len(), 1);
    let info = registry.get_campaign(&id("launch1")).unwrap();
    assert_eq!(info.agent_count, 5);
    assert_eq!(info.uri.as_str(), "ipfs://x");
    assert_eq!(info.mint, address(10));
    // nothing was asked of the token service for the second attempt
    assert_eq!(tokens.mints.len(), 1);
}

#[test]
fn two_campaigns_are_independent() {
    let authority = address(1);
    let recipient = address(2);
    let mut registry = CampaignRegistry::new();
    let mut tokens = Tokens::new();
    let a = issue(&mut registry, &mut tokens, address(10), authority, recipient, "camp-A", "ipfs://a", 1, 100).unwrap();
    let b = issue(&mut registry, &mut tokens, address(11), authority, recipient, "camp-B", "ipfs://b", 2, 200).unwrap();
    assert_ne!(a.mint, b.mint);
    assert_eq!(registry.len(), 2);

    registry
        .update_campaign(&id("camp-A"), authority, tokens.asset(a.mint), Some(uri("ipfs://a2")), Some(50))
        .unwrap();

    let a_now = registry.get_campaign(&id("camp-A")).unwrap();
    assert_eq!(a_now.uri.as_str(), "ipfs://a2");
    assert_eq!(a_now.agent_count, 50);
    assert_eq!(registry.get_campaign(&id("camp-B")).unwrap(), b);

    registry.update_campaign(&id("camp-B"), authority, tokens.asset(b.mint), None, Some(3)).unwrap();
    assert_eq!(registry.get_campaign(&id("camp-A")).unwrap(), a_now);
    assert_eq!(registry.get_campaign(&id("camp-B")).unwrap().agent_count, 3);
}

#[test]
fn credential_of_one_campaign_opens_no_other() {
    let authority = address(1);
    let mut registry = CampaignRegistry::new();
    let mut tokens = Tokens::new();
    issue(&mut registry, &mut tokens, address(10), authority, address(2), "camp-A", "ipfs://a", 1, 100).unwrap();
    issue(&mut registry, &mut tokens, address(11), authority, address(3), "camp-B", "ipfs://b", 2, 200).unwrap();

    let holding_a = tokens.holding(address(10), address(2));
    assert_eq!(holding_a.amount, 1);
    assert_eq!(registry.verify_access(&id("camp-A"), address(2), holding_a), Ok(()));
    assert_eq!(
        registry.verify_access(&id("camp-B"), address(2), holding_a),
        Err(AccessError::InsufficientTokens)
    );
    assert_eq!(
        registry.verify_access(&id("camp-B"), address(2), tokens.holding(address(11), address(2))),
        Err(AccessError::InsufficientTokens)
    );
    assert_eq!(
        registry.verify_access(&id("camp-B"), address(3), tokens.holding(address(11), address(3))),
        Ok(())
    );
}

#[test]
fn recipient_holds_exactly_one_unit_after_issuance() {
    let mut registry = CampaignRegistry::new();
    let mut tokens = Tokens::new();
    issue(&mut registry, &mut tokens, address(10), address(1), address(2), "solo", "ipfs://s", 0, 1).unwrap();
    assert_eq!(tokens.holding(address(10), address(2)).amount, 1);
    assert_eq!(tokens.asset(address(10)).supply, 1);
    assert_eq!(tokens.holding(address(10), address(1)).amount, 0);
}

#[test]
fn a_race_for_one_campaign_has_one_winner() {
    let mut registry = CampaignRegistry::new();
    let first = CampaignDraft { id: id("race"), mint: address(10), uri: uri("ipfs://1"), agent_count: 1, bump: 255 };
    let second = CampaignDraft { id: id("race"), mint: address(11), uri: uri("ipfs://2"), agent_count: 2, bump: 255 };
    // both issuances began while the campaign had no record
    assert!(registry.lookup(&id("race")).is_none());
    let won = registry.create_campaign(second, 20).unwrap();
    assert_eq!(registry.create_campaign(first, 10), Err(AccessError::DuplicateCampaign));
    assert_eq!(registry.len(), 1);
    assert_eq!(registry.get_campaign(&id("race")).unwrap(), won);
    assert_eq!(won.mint, address(11));
    assert_eq!(won.created_at, 20);
}
