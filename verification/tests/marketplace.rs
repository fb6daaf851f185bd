use prompt_market::address::{Addr, Auth, Executable, LedgerInfo};
use prompt_market::marketplace::{MktError, PromptMarketplace};
use prompt_market::token::{AccError, MyToken, TokenManager};

struct Ctx {
    token: MyToken,
    mkt: PromptMarketplace,
    admin: Addr,
    creator: Addr,
    buyer: Addr,
    uri: Vec<u8>,
}

fn addr(text: &str) -> Addr {
    Addr::from_bytes(text.as_bytes())
}

/// Deploys the token and the marketplace, and binds the marketplace to the
/// token as a deployment does.
fn market_setup() -> Ctx {
    let admin = addr("GADMINXXXXXXXXXXXXXXXXXXXXXXXXXXXXXXXXXXXXXXXXXXXXXXXXXX");
    let creator = addr("GCREATORXXXXXXXXXXXXXXXXXXXXXXXXXXXXXXXXXXXXXXXXXXXXXXXX");
    let buyer = addr("GBUYERXXXXXXXXXXXXXXXXXXXXXXXXXXXXXXXXXXXXXXXXXXXXXXXXXX");
    let token_id = addr("CTOKENXXXXXXXXXXXXXXXXXXXXXXXXXXXXXXXXXXXXXXXXXXXXXXXXXX");
    let mkt_id = addr("CMARKETXXXXXXXXXXXXXXXXXXXXXXXXXXXXXXXXXXXXXXXXXXXXXXXXX");
    let mut token = MyToken::new(
        token_id.duplicate(),
        admin.duplicate(),
        b"PromptToken".to_vec(),
        b"PRMPT".to_vec(),
        7,
    );
    let mkt = PromptMarketplace::new(mkt_id.duplicate(), admin.duplicate(), token_id);
    token
        .set_marketplace(&Auth::signed_by(&admin), &mkt_id, Some(Executable::Wasm))
        .unwrap();
    Ctx { token, mkt, admin, creator, buyer, uri: b"ipfs://QmTest".to_vec() }
}

fn fund(c: &mut Ctx, amount: i128) {
    let buyer = c.buyer.duplicate();
    TokenManager::mint(&mut c.token, &buyer, amount).unwrap();
}

/// SHA-256 of "PMPT_V1" || 0 || "private-test-prompt" || 0 || a fixed
/// 32-byte salt: the documented commitment format, on fixed test inputs.
fn private_commitment() -> Vec<u8> {
    vec![
        0xb7, 0xcf, 0x00, 0xfe, 0x97, 0xb1, 0x8e, 0xc0, 0xbb, 0x85, 0x0d, 0x05, 0xce, 0x54, 0x6f, 0x06,
        0x4d, 0xc1, 0xd1, 0x0c, 0xdb, 0xdb, 0x91, 0x44, 0x7e, 0x26, 0x74, 0x56, 0xdf, 0xd4, 0x4a, 0xf6,
    ]
}

fn hash_of(seed: u8) -> Vec<u8> {
    let mut h = vec![0u8; 32];
    h[0] = seed;
    h[31] = 0x7d;
    h
}

#[test]
fn test_register_and_query_prompt() {
    let mut c = market_setup();
    let pid = b"alpha".to_vec();
    c.mkt.register_prompt(&Auth::signed_by(&c.admin), &pid, 500, &c.creator, &c.uri).unwrap();
    assert_eq!(c.mkt.get_price(&pid), Ok(500));
    assert_eq!(c.mkt.get_owner(&pid).unwrap().bytes, c.creator.bytes);
    assert_eq!(c.mkt.get_content_uri(&pid).unwrap(), c.uri);
}

#[test]
fn test_update_price() {
    let mut c = market_setup();
    let pid = b"dynamic".to_vec();
    c.mkt.register_prompt(&Auth::signed_by(&c.admin), &pid, 100, &c.creator, &c.uri).unwrap();
    assert_eq!(c.mkt.get_price(&pid), Ok(100));
    c.mkt.update_price(&Auth::signed_by(&c.admin), &pid, 250).unwrap();
    assert_eq!(c.mkt.get_price(&pid), Ok(250));
}

#[test]
fn test_remove_prompt() {
    let mut c = market_setup();
    let pid = b"temp".to_vec();
    c.mkt.register_prompt(&Auth::signed_by(&c.admin), &pid, 50, &c.creator, &c.uri).unwrap();
    assert!(c.mkt.get_price(&pid).unwrap() > 0);
    c.mkt.remove_prompt(&Auth::signed_by(&c.admin), &pid).unwrap();
    c.mkt.remove_prompt(&Auth::signed_by(&c.admin), &pid).unwrap();
}

#[test]
fn test_multiple_prompts_independent() {
    let mut c = market_setup();
    let pid_a = b"a".to_vec();
    let pid_b = b"b".to_vec();
    c.mkt.register_prompt(&Auth::signed_by(&c.admin), &pid_a, 100, &c.creator, &c.uri).unwrap();
    c.mkt.register_prompt(&Auth::signed_by(&c.admin), &pid_b, 200, &c.buyer, &c.uri).unwrap();
    assert_eq!(c.mkt.get_price(&pid_a), Ok(100));
    assert_eq!(c.mkt.get_price(&pid_b), Ok(200));
    assert_eq!(c.mkt.get_owner(&pid_a).unwrap().bytes, c.creator.bytes);
    assert_eq!(c.mkt.get_owner(&pid_b).unwrap().bytes, c.buyer.bytes);
}

#[test]
fn test_register_max_price() {
    let mut c = market_setup();
    let pid = b"max".to_vec();
    let max_price = i128::MAX;
    c.mkt.register_prompt(&Auth::signed_by(&c.admin), &pid, max_price, &c.creator, &c.uri).unwrap();
    assert_eq!(c.mkt.get_price(&pid), Ok(max_price));
}

#[test]
fn test_register_after_remove() {
    let mut c = market_setup();
    let pid = b"reborn".to_vec();
    c.mkt.register_prompt(&Auth::signed_by(&c.admin), &pid, 100, &c.creator, &c.uri).unwrap();
    c.mkt.remove_prompt(&Auth::signed_by(&c.admin), &pid).unwrap();
    c.mkt.register_prompt(&Auth::signed_by(&c.admin), &pid, 200, &c.creator, &c.uri).unwrap();
    assert_eq!(c.mkt.get_price(&pid), Ok(200));
}

#[test]
fn test_has_access_unregistered() {
    let c = market_setup();
    let pid = b"unknown".to_vec();
    assert!(!c.mkt.has_access(&c.buyer, &pid));
}

#[test]
fn tests_test_token_mint_and_balance() {
    let mut c = market_setup();
    fund(&mut c, 1000);
    assert_eq!(c.token.balance(&c.buyer), 1000);
}

#[test]
fn test_buy_prompt_cross_contract() {
    let mut c = market_setup();
    let pid = b"cross-contract".to_vec();
    fund(&mut c, 1000);
    c.mkt.register_prompt(&Auth::signed_by(&c.admin), &pid, 500, &c.creator, &c.uri).unwrap();
    c.mkt.buy_prompt(&mut c.token, &Auth::signed_by(&c.buyer), &c.buyer, &pid).unwrap();
    assert_eq!(c.token.balance(&c.buyer), 500, "buyer's tokens must be burned via sell_forwarded");
}

#[test]
fn test_has_access_after_buy() {
    let mut c = market_setup();
    let pid = b"access-flow".to_vec();
    fund(&mut c, 1000);
    c.mkt.register_prompt(&Auth::signed_by(&c.admin), &pid, 200, &c.creator, &c.uri).unwrap();
    assert!(!c.mkt.has_access(&c.buyer, &pid), "no access before purchase");
    c.mkt.buy_prompt(&mut c.token, &Auth::signed_by(&c.buyer), &c.buyer, &pid).unwrap();
    assert!(c.mkt.has_access(&c.buyer, &pid), "access granted after purchase");
}

#[test]
fn test_buy_prompt_emits_event() {
    let mut c = market_setup();
    let pid = b"event-flow".to_vec();
    fund(&mut c, 1000);
    c.mkt.register_prompt(&Auth::signed_by(&c.admin), &pid, 300, &c.creator, &c.uri).unwrap();
    let (sell, ev) =
        c.mkt.buy_prompt(&mut c.token, &Auth::signed_by(&c.buyer), &c.buyer, &pid).unwrap();
    assert_eq!(ev.buyer.bytes, c.buyer.bytes);
    assert_eq!(ev.prompt_id, pid);
    assert_eq!(ev.price, 300);
    assert_eq!(sell.seller.bytes, c.buyer.bytes);
    assert_eq!(sell.amount, 300);
}

#[test]
fn test_remint_cross_contract() {
    let mut c = market_setup();
    c.mkt.remint(&mut c.token, &Auth::signed_by(&c.admin), &c.buyer, 2000).unwrap();
    assert_eq!(c.token.balance(&c.buyer), 2000, "tokens must be minted via mint_forwarded");
}

#[test]
fn test_remint_emits_event() {
    let mut c = market_setup();
    let (_mint, ev) = c.mkt.remint(&mut c.token, &Auth::signed_by(&c.admin), &c.buyer, 1000).unwrap();
    assert_eq!(ev.admin.bytes, c.admin.bytes);
    assert_eq!(ev.to.bytes, c.buyer.bytes);
    assert_eq!(ev.amount, 1000);
}

#[test]
fn test_register_and_buy_private_prompt() {
    let mut c = market_setup();
    let prompt_hash = private_commitment();
    fund(&mut c, 1000);
    c.mkt.register_private_prompt(&Auth::signed_by(&c.admin), &prompt_hash, 500, &c.creator).unwrap();
    assert!(!c.mkt.has_private_access(&c.buyer, &prompt_hash));
    let (_sell, ev) = c
        .mkt
        .buy_private_prompt(&mut c.token, &Auth::signed_by(&c.buyer), &c.buyer, &prompt_hash)
        .unwrap();
    assert!(ev.buyer.bytes == c.buyer.bytes && ev.prompt_hash == prompt_hash && ev.price == 500);
    assert!(c.mkt.has_private_access(&c.buyer, &prompt_hash));
    assert_eq!(c.token.balance(&c.buyer), 500);
}

#[test]
fn test_register_private_prompt_emits_event() {
    let mut c = market_setup();
    let prompt_hash = private_commitment();
    let ev = c
        .mkt
        .register_private_prompt(&Auth::signed_by(&c.admin), &prompt_hash, 500, &c.creator)
        .unwrap();
    assert!(
        ev.admin.bytes == c.admin.bytes
            && ev.owner.bytes == c.creator.bytes
            && ev.prompt_hash == prompt_hash
            && ev.price == 500
    );
}

#[test]
fn test_cross_user_cannot_spend_another_buyers_authorization() {
    let mut c = market_setup();
    let buyer2 = addr("GBUYER2XXXXXXXXXXXXXXXXXXXXXXXXXXXXXXXXXXXXXXXXXXXXXXXXX");
    let prompt_hash = vec![6u8; 32];
    c.mkt.register_private_prompt(&Auth::signed_by(&c.admin), &prompt_hash, 500, &c.creator).unwrap();
    fund(&mut c, 1000);
    c.mkt
        .buy_private_prompt(&mut c.token, &Auth::signed_by(&c.buyer), &c.buyer, &prompt_hash)
        .unwrap();
    assert!(c.mkt.has_private_access(&c.buyer, &prompt_hash));
    assert!(!c.mkt.has_private_access(&buyer2, &prompt_hash));
    let result =
        c.mkt.buy_private_prompt(&mut c.token, &Auth::signed_by(&buyer2), &c.buyer, &prompt_hash);
    assert!(result.is_err());
    assert!(!c.mkt.has_private_access(&buyer2, &prompt_hash));
}

#[test]
fn test_atomicity_fail_burn() {
    let mut c = market_setup();
    let prompt_hash = private_commitment();
    fund(&mut c, 100);
    c.mkt.register_private_prompt(&Auth::signed_by(&c.admin), &prompt_hash, 500, &c.creator).unwrap();
    let result =
        c.mkt.buy_private_prompt(&mut c.token, &Auth::signed_by(&c.buyer), &c.buyer, &prompt_hash);
    assert!(result.is_err());
    assert!(!c.mkt.has_private_access(&c.buyer, &prompt_hash));
    assert_eq!(c.token.balance(&c.buyer), 100);
}

#[test]
fn test_migration_compatibility() {
    let mut c = market_setup();
    let prompt_id = b"legacy_prompt".to_vec();
    let prompt_hash = private_commitment();
    fund(&mut c, 2000);
    c.mkt.register_prompt(&Auth::signed_by(&c.admin), &prompt_id, 500, &c.creator, &c.uri).unwrap();
    c.mkt.register_private_prompt(&Auth::signed_by(&c.admin), &prompt_hash, 500, &c.creator).unwrap();
    c.mkt.buy_prompt(&mut c.token, &Auth::signed_by(&c.buyer), &c.buyer, &prompt_id).unwrap();
    c.mkt
        .buy_private_prompt(&mut c.token, &Auth::signed_by(&c.buyer), &c.buyer, &prompt_hash)
        .unwrap();
    assert!(c.mkt.has_access(&c.buyer, &prompt_id));
    assert!(c.mkt.has_private_access(&c.buyer, &prompt_hash));
}

#[test]
fn test_admin_can_revoke_private_access() {
    let mut c = market_setup();
    let prompt_hash = private_commitment();
    fund(&mut c, 1000);
    c.mkt.register_private_prompt(&Auth::signed_by(&c.admin), &prompt_hash, 500, &c.creator).unwrap();
    c.mkt
        .buy_private_prompt(&mut c.token, &Auth::signed_by(&c.buyer), &c.buyer, &prompt_hash)
        .unwrap();
    c.mkt.revoke_private_access(&Auth::signed_by(&c.admin), &c.buyer, &prompt_hash).unwrap();
    assert!(!c.mkt.has_private_access(&c.buyer, &prompt_hash));
}

// ─── Refusals, each with its reason ─────────────

#[test]
fn duplicate_registration_is_refused() {
    let mut c = market_setup();
    let pid = b"dup".to_vec();
    c.mkt.register_prompt(&Auth::signed_by(&c.admin), &pid, 100, &c.creator, &c.uri).unwrap();
    let r = c.mkt.register_prompt(&Auth::signed_by(&c.admin), &pid, 200, &c.creator, &c.uri);
    assert!(matches!(r, Err(MktError::AlreadyRegistered)));
    assert_eq!(c.mkt.get_price(&pid), Ok(100));
}

#[test]
fn price_of_unregistered_prompt_is_not_found() {
    let c = market_setup();
    assert_eq!(c.mkt.get_price(b"ghost"), Err(MktError::PromptNotFound));
    assert!(matches!(c.mkt.get_owner(b"ghost"), Err(MktError::PromptNotFound)));
    assert!(matches!(c.mkt.get_content_uri(b"ghost"), Err(MktError::PromptNotFound)));
}

#[test]
fn non_admin_cannot_change_the_catalogue() {
    let mut c = market_setup();
    let pid = b"guarded".to_vec();
    let by_buyer = Auth::signed_by(&c.buyer);
    assert!(matches!(
        c.mkt.register_prompt(&by_buyer, b"hack", 100, &c.creator, &c.uri),
        Err(MktError::Unauthorized)
    ));
    c.mkt.register_prompt(&Auth::signed_by(&c.admin), &pid, 100, &c.creator, &c.uri).unwrap();
    assert!(matches!(c.mkt.update_price(&by_buyer, &pid, 999), Err(MktError::Unauthorized)));
    assert!(matches!(c.mkt.remove_prompt(&by_buyer, &pid), Err(MktError::Unauthorized)));
    assert!(matches!(
        c.mkt.remint(&mut c.token, &by_buyer, &c.buyer, 100),
        Err(MktError::Unauthorized)
    ));
    assert!(matches!(
        c.mkt.register_private_prompt(&by_buyer, &hash_of(1), 500, &c.creator),
        Err(MktError::Unauthorized)
    ));
    assert_eq!(c.mkt.get_price(&pid), Ok(100));
    assert_eq!(c.token.balance(&c.buyer), 0);
}

#[test]
fn non_positive_prices_are_refused() {
    let mut c = market_setup();
    let pid = b"discount".to_vec();
    let by_admin = Auth::signed_by(&c.admin);
    assert!(matches!(
        c.mkt.register_prompt(&by_admin, b"free", 0, &c.creator, &c.uri),
        Err(MktError::PriceMustBePositive)
    ));
    c.mkt.register_prompt(&by_admin, &pid, 100, &c.creator, &c.uri).unwrap();
    assert!(matches!(c.mkt.update_price(&by_admin, &pid, 0), Err(MktError::PriceMustBePositive)));
    assert!(matches!(
        c.mkt.register_private_prompt(&by_admin, &hash_of(2), -5, &c.creator),
        Err(MktError::PriceMustBePositive)
    ));
    assert!(matches!(
        c.mkt.remint(&mut c.token, &by_admin, &c.buyer, 0),
        Err(MktError::AmountMustBePositive)
    ));
    assert_eq!(c.mkt.get_price(&pid), Ok(100));
}

#[test]
fn updating_an_unregistered_prompt_is_refused() {
    let mut c = market_setup();
    let r = c.mkt.update_price(&Auth::signed_by(&c.admin), b"phantom", 500);
    assert!(matches!(r, Err(MktError::PromptNotFound)));
}

#[test]
fn buying_refusals_change_nothing() {
    let mut c = market_setup();
    let pid = b"one-time-prompt".to_vec();
    fund(&mut c, 1000);
    let by_buyer = Auth::signed_by(&c.buyer);
    assert!(matches!(
        c.mkt.buy_prompt(&mut c.token, &by_buyer, &c.buyer, b"missing-prompt"),
        Err(MktError::PromptNotFound)
    ));
    c.mkt.register_prompt(&Auth::signed_by(&c.admin), &pid, 250, &c.creator, &c.uri).unwrap();
    c.mkt.buy_prompt(&mut c.token, &by_buyer, &c.buyer, &pid).unwrap();
    assert!(matches!(
        c.mkt.buy_prompt(&mut c.token, &by_buyer, &c.buyer, &pid),
        Err(MktError::AlreadyPurchased)
    ));
    assert_eq!(c.token.balance(&c.buyer), 750);
    assert_eq!(c.token.total_supply(), 750);
}

#[test]
fn buying_beyond_the_balance_is_refused_by_the_token() {
    let mut c = market_setup();
    let pid = b"expensive-prompt".to_vec();
    fund(&mut c, 100);
    c.mkt.register_prompt(&Auth::signed_by(&c.admin), &pid, 500, &c.creator, &c.uri).unwrap();
    let r = c.mkt.buy_prompt(&mut c.token, &Auth::signed_by(&c.buyer), &c.buyer, &pid);
    assert!(matches!(r, Err(MktError::Token(AccError::InsufficientBalance))));
    assert!(!c.mkt.has_access(&c.buyer, &pid));
    assert_eq!(c.token.balance(&c.buyer), 100);
}

#[test]
fn private_replay_and_unknown_hash_are_refused() {
    let mut c = market_setup();
    let prompt_hash = private_commitment();
    fund(&mut c, 1000);
    let by_buyer = Auth::signed_by(&c.buyer);
    assert!(matches!(
        c.mkt.buy_private_prompt(&mut c.token, &by_buyer, &c.buyer, &prompt_hash),
        Err(MktError::PromptNotFound)
    ));
    c.mkt.register_private_prompt(&Auth::signed_by(&c.admin), &prompt_hash, 500, &c.creator).unwrap();
    assert!(matches!(
        c.mkt.register_private_prompt(&Auth::signed_by(&c.admin), &prompt_hash, 700, &c.creator),
        Err(MktError::AlreadyRegistered)
    ));
    c.mkt.buy_private_prompt(&mut c.token, &by_buyer, &c.buyer, &prompt_hash).unwrap();
    assert!(matches!(
        c.mkt.buy_private_prompt(&mut c.token, &by_buyer, &c.buyer, &prompt_hash),
        Err(MktError::AlreadyPurchased)
    ));
    assert_eq!(c.token.balance(&c.buyer), 500);
}

#[test]
fn revoking_absent_access_is_refused_and_revoked_buyer_may_buy_again() {
    let mut c = market_setup();
    let prompt_hash = private_commitment();
    fund(&mut c, 1000);
    let by_admin = Auth::signed_by(&c.admin);
    assert!(matches!(
        c.mkt.revoke_private_access(&by_admin, &c.buyer, &prompt_hash),
        Err(MktError::AccessNotFound)
    ));
    c.mkt.register_private_prompt(&by_admin, &prompt_hash, 400, &c.creator).unwrap();
    let by_buyer = Auth::signed_by(&c.buyer);
    c.mkt.buy_private_prompt(&mut c.token, &by_buyer, &c.buyer, &prompt_hash).unwrap();
    assert!(matches!(
        c.mkt.revoke_private_access(&by_buyer, &c.buyer, &prompt_hash),
        Err(MktError::Unauthorized)
    ));
    let ev = c.mkt.revoke_private_access(&by_admin, &c.buyer, &prompt_hash).unwrap();
    assert_eq!(ev.buyer.bytes, c.buyer.bytes);
    c.mkt.buy_private_prompt(&mut c.token, &by_buyer, &c.buyer, &prompt_hash).unwrap();
    assert!(c.mkt.has_private_access(&c.buyer, &prompt_hash));
    assert_eq!(c.token.balance(&c.buyer), 200);
}

#[test]
fn an_unbound_token_refuses_marketplace_purchases_and_remints() {
    let admin = addr("GADMIN");
    let buyer = addr("GBUYER");
    let mut token = MyToken::new(addr("CTOKEN"), admin.duplicate(), b"T".to_vec(), b"T".to_vec(), 7);
    let mut mkt = PromptMarketplace::new(addr("CMARKET"), admin.duplicate(), addr("CTOKEN"));
    TokenManager::mint(&mut token, &buyer, 1000).unwrap();
    mkt.register_prompt(&Auth::signed_by(&admin), b"p", 10, &admin, b"uri").unwrap();
    let r = mkt.buy_prompt(&mut token, &Auth::signed_by(&buyer), &buyer, b"p");
    assert!(matches!(r, Err(MktError::Token(AccError::NotInitialized))));
    assert!(!mkt.has_access(&buyer, b"p"));
    let r = mkt.remint(&mut token, &Auth::signed_by(&admin), &buyer, 5);
    assert!(matches!(r, Err(MktError::Token(AccError::NotInitialized))));
    assert_eq!(token.balance(&buyer), 1000);
}

#[test]
fn a_marketplace_bound_elsewhere_cannot_burn_or_mint() {
    let mut c = market_setup();
    fund(&mut c, 1000);
    let mut other = PromptMarketplace::new(addr("COTHERMARKET"), c.admin.duplicate(), c.token.address());
    other.register_prompt(&Auth::signed_by(&c.admin), b"p", 10, &c.admin, b"uri").unwrap();
    let r = other.buy_prompt(&mut c.token, &Auth::signed_by(&c.buyer), &c.buyer, b"p");
    assert!(matches!(r, Err(MktError::Token(AccError::Unauthorized))));
    let r = other.remint(&mut c.token, &Auth::signed_by(&c.admin), &c.buyer, 5);
    assert!(matches!(r, Err(MktError::Token(AccError::Unauthorized))));
    assert_eq!(c.token.balance(&c.buyer), 1000);
    assert_eq!(c.token.total_supply(), 1000);
}

#[test]
fn purchase_then_remint_restores_the_supply() {
    let mut c = market_setup();
    let pid = b"loop".to_vec();
    fund(&mut c, 1000);
    c.mkt.register_prompt(&Auth::signed_by(&c.admin), &pid, 400, &c.creator, &c.uri).unwrap();
    c.mkt.buy_prompt(&mut c.token, &Auth::signed_by(&c.buyer), &c.buyer, &pid).unwrap();
    assert_eq!(c.token.total_supply(), 600);
    c.mkt.remint(&mut c.token, &Auth::signed_by(&c.admin), &c.buyer, 400).unwrap();
    assert_eq!(c.token.total_supply(), 1000);
    assert_eq!(c.token.balance(&c.buyer), 1000);
}

#[test]
fn removing_a_prompt_keeps_purchases_but_stops_sales() {
    let mut c = market_setup();
    let pid = b"gone".to_vec();
    fund(&mut c, 1000);
    c.mkt.register_prompt(&Auth::signed_by(&c.admin), &pid, 100, &c.creator, &c.uri).unwrap();
    c.mkt.buy_prompt(&mut c.token, &Auth::signed_by(&c.buyer), &c.buyer, &pid).unwrap();
    c.mkt.remove_prompt(&Auth::signed_by(&c.admin), &pid).unwrap();
    assert!(c.mkt.has_access(&c.buyer, &pid));
    let other = addr("GOTHER");
    assert!(matches!(
        c.mkt.buy_prompt(&mut c.token, &Auth::signed_by(&other), &other, &pid),
        Err(MktError::PromptNotFound)
    ));
}

#[test]
fn getters_report_deployment() {
    let c = market_setup();
    assert_eq!(c.mkt.get_admin().bytes, c.admin.bytes);
    assert_eq!(c.mkt.get_token().bytes, c.token.address().bytes);
    assert_eq!(c.token.get_marketplace().unwrap().bytes, c.mkt.address().bytes);
}

#[test]
fn private_grants_persist_until_revoked() {
    let mut c = market_setup();
    let prompt_hash = private_commitment();
    fund(&mut c, 1000);
    let by_admin = Auth::signed_by(&c.admin);
    c.mkt.register_private_prompt(&by_admin, &prompt_hash, 100, &c.creator).unwrap();
    c.mkt
        .buy_private_prompt(&mut c.token, &Auth::signed_by(&c.buyer), &c.buyer, &prompt_hash)
        .unwrap();
    c.mkt.register_prompt(&by_admin, b"named", 50, &c.creator, &c.uri).unwrap();
    c.mkt.update_price(&by_admin, b"named", 60).unwrap();
    c.mkt.buy_prompt(&mut c.token, &Auth::signed_by(&c.buyer), &c.buyer, b"named").unwrap();
    c.mkt.remove_prompt(&by_admin, b"named").unwrap();
    c.mkt.register_private_prompt(&by_admin, &hash_of(9), 70, &c.creator).unwrap();
    c.mkt.remint(&mut c.token, &by_admin, &c.buyer, 10).unwrap();
    assert!(c.mkt.has_private_access(&c.buyer, &prompt_hash));
    assert_eq!(c.token.balance(&c.buyer), 850);
    c.mkt.revoke_private_access(&by_admin, &c.buyer, &prompt_hash).unwrap();
    assert!(!c.mkt.has_private_access(&c.buyer, &prompt_hash));
}

#[test]
fn remint_fails_once_token_ownership_is_renounced() {
    let mut c = market_setup();
    let pid = b"after-renounce".to_vec();
    fund(&mut c, 300);
    let ledger = LedgerInfo { sequence: 10, max_live_until_ledger: 1000 };
    c.token.renounce_ownership(&Auth::signed_by(&c.admin), ledger).unwrap();
    let r = c.mkt.remint(&mut c.token, &Auth::signed_by(&c.admin), &c.buyer, 100);
    assert!(matches!(r, Err(MktError::Token(AccError::OwnerNotSet))));
    assert_eq!(c.token.total_supply(), 300);
    c.mkt.register_prompt(&Auth::signed_by(&c.admin), &pid, 100, &c.creator, &c.uri).unwrap();
    c.mkt.buy_prompt(&mut c.token, &Auth::signed_by(&c.buyer), &c.buyer, &pid).unwrap();
    assert_eq!(c.token.balance(&c.buyer), 200);
}

#[test]
fn a_paused_token_holds_purchases_back_until_unpaused() {
    let mut c = market_setup();
    let pid = b"held".to_vec();
    fund(&mut c, 1000);
    c.mkt.register_prompt(&Auth::signed_by(&c.admin), &pid, 300, &c.creator, &c.uri).unwrap();
    c.token.pause(&Auth::signed_by(&c.admin), &c.admin).unwrap();
    let r = c.mkt.buy_prompt(&mut c.token, &Auth::signed_by(&c.buyer), &c.buyer, &pid);
    assert!(matches!(r, Err(MktError::Token(AccError::ContractPaused))));
    assert!(!c.mkt.has_access(&c.buyer, &pid));
    assert_eq!(c.token.balance(&c.buyer), 1000);
    c.token.unpause(&Auth::signed_by(&c.admin), &c.admin).unwrap();
    c.mkt.buy_prompt(&mut c.token, &Auth::signed_by(&c.buyer), &c.buyer, &pid).unwrap();
    assert!(c.mkt.has_access(&c.buyer, &pid));
    assert_eq!(c.token.balance(&c.buyer), 700);
}

#[test]
fn named_purchases_persist_through_later_operations() {
    let mut c = market_setup();
    let pid = b"kept".to_vec();
    fund(&mut c, 1000);
    let by_admin = Auth::signed_by(&c.admin);
    let by_buyer = Auth::signed_by(&c.buyer);
    c.mkt.register_prompt(&by_admin, &pid, 100, &c.creator, &c.uri).unwrap();
    c.mkt.buy_prompt(&mut c.token, &by_buyer, &c.buyer, &pid).unwrap();
    c.mkt.update_price(&by_admin, &pid, 150).unwrap();
    c.mkt.register_private_prompt(&by_admin, &hash_of(3), 50, &c.creator).unwrap();
    c.mkt.buy_private_prompt(&mut c.token, &by_buyer, &c.buyer, &hash_of(3)).unwrap();
    c.mkt.revoke_private_access(&by_admin, &c.buyer, &hash_of(3)).unwrap();
    c.mkt.remint(&mut c.token, &by_admin, &c.buyer, 20).unwrap();
    c.mkt.remove_prompt(&by_admin, &pid).unwrap();
    assert!(c.mkt.has_access(&c.buyer, &pid));
    assert!(matches!(
        c.mkt.buy_prompt(&mut c.token, &by_buyer, &c.buyer, &pid),
        Err(MktError::PromptNotFound)
    ));
    c.mkt.register_prompt(&by_admin, &pid, 200, &c.creator, &c.uri).unwrap();
    assert!(c.mkt.has_access(&c.buyer, &pid));
    assert!(matches!(
        c.mkt.buy_prompt(&mut c.token, &by_buyer, &c.buyer, &pid),
        Err(MktError::AlreadyPurchased)
    ));
    assert_eq!(c.token.balance(&c.buyer), 870);
}

// ─── The same refusals, each reported by a panic of the caller ───────

/// Panics, where `r` is a refusal, with the message that the deployed
/// contract traps with for that refusal.
fn or_trap<T>(r: Result<T, MktError>) -> T {
    match r {
        Ok(v) => v,
        Err(MktError::PromptNotFound) => panic!("prompt not found"),
        Err(MktError::AlreadyPurchased) => panic!("already purchased"),
        Err(MktError::PriceMustBePositive) => panic!("price must be positive"),
        Err(MktError::AmountMustBePositive) => panic!("amount must be positive"),
        Err(MktError::AlreadyRegistered) => panic!("prompt already registered"),
        Err(MktError::AccessNotFound) => panic!("private access not found"),
        Err(MktError::Unauthorized) => panic!("Error(Auth, InvalidAction): Unauthorized"),
        Err(MktError::Token(AccError::InsufficientBalance)) => panic!("Error(Contract, #100)"),
        Err(e) => panic!("{:?}", e),
    }
}

#[test]
#[should_panic(expected = "prompt already registered")]
fn test_duplicate_registration_panics() {
    let mut c = market_setup();
    let pid = b"dup".to_vec();
    let by_admin = Auth::signed_by(&c.admin);
    or_trap(c.mkt.register_prompt(&by_admin, &pid, 100, &c.creator, &c.uri));
    or_trap(c.mkt.register_prompt(&by_admin, &pid, 200, &c.creator, &c.uri));
}

#[test]
#[should_panic(expected = "prompt not found")]
fn test_get_price_unregistered_panics() {
    let c = market_setup();
    or_trap(c.mkt.get_price(b"ghost"));
}

#[test]
#[should_panic(expected = "Unauthorized")]
fn test_non_admin_cannot_register() {
    let mut c = market_setup();
    let pid = b"hack".to_vec();
    or_trap(c.mkt.register_prompt(&Auth::signed_by(&c.buyer), &pid, 100, &c.creator, &c.uri));
}

#[test]
#[should_panic(expected = "Unauthorized")]
fn test_non_admin_cannot_update_price() {
    let mut c = market_setup();
    let pid = b"guarded".to_vec();
    or_trap(c.mkt.register_prompt(&Auth::signed_by(&c.admin), &pid, 100, &c.creator, &c.uri));
    or_trap(c.mkt.update_price(&Auth::signed_by(&c.buyer), &pid, 999));
}

#[test]
#[should_panic(expected = "Unauthorized")]
fn test_non_admin_cannot_remove() {
    let mut c = market_setup();
    let pid = b"protected".to_vec();
    or_trap(c.mkt.register_prompt(&Auth::signed_by(&c.admin), &pid, 100, &c.creator, &c.uri));
    or_trap(c.mkt.remove_prompt(&Auth::signed_by(&c.buyer), &pid));
}

#[test]
#[should_panic(expected = "Unauthorized")]
fn test_non_admin_cannot_remint() {
    let mut c = market_setup();
    or_trap(c.mkt.remint(&mut c.token, &Auth::signed_by(&c.buyer), &c.buyer, 100));
}

#[test]
#[should_panic(expected = "price must be positive")]
fn test_register_zero_price_panics() {
    let mut c = market_setup();
    let pid = b"free".to_vec();
    or_trap(c.mkt.register_prompt(&Auth::signed_by(&c.admin), &pid, 0, &c.creator, &c.uri));
}

#[test]
#[should_panic(expected = "price must be positive")]
fn test_update_price_zero_panics() {
    let mut c = market_setup();
    let pid = b"discount".to_vec();
    or_trap(c.mkt.register_prompt(&Auth::signed_by(&c.admin), &pid, 100, &c.creator, &c.uri));
    or_trap(c.mkt.update_price(&Auth::signed_by(&c.admin), &pid, 0));
}

#[test]
#[should_panic(expected = "prompt not found")]
fn test_update_unregistered_prompt_panics() {
    let mut c = market_setup();
    let pid = b"phantom".to_vec();
    or_trap(c.mkt.update_price(&Auth::signed_by(&c.admin), &pid, 500));
}

#[test]
#[should_panic(expected = "prompt not found")]
fn test_buy_prompt_unregistered_panics() {
    let mut c = market_setup();
    let pid = b"missing-prompt".to_vec();
    or_trap(c.mkt.buy_prompt(&mut c.token, &Auth::signed_by(&c.buyer), &c.buyer, &pid));
}

#[test]
#[should_panic(expected = "Error(Contract, #100)")]
fn test_buy_prompt_insufficient_balance_panics() {
    let mut c = market_setup();
    let pid = b"expensive-prompt".to_vec();
    fund(&mut c, 100);
    or_trap(c.mkt.register_prompt(&Auth::signed_by(&c.admin), &pid, 500, &c.creator, &c.uri));
    or_trap(c.mkt.buy_prompt(&mut c.token, &Auth::signed_by(&c.buyer), &c.buyer, &pid));
}

#[test]
#[should_panic(expected = "already purchased")]
fn test_buy_prompt_same_prompt_twice_panics() {
    let mut c = market_setup();
    let pid = b"one-time-prompt".to_vec();
    fund(&mut c, 1000);
    or_trap(c.mkt.register_prompt(&Auth::signed_by(&c.admin), &pid, 250, &c.creator, &c.uri));
    or_trap(c.mkt.buy_prompt(&mut c.token, &Auth::signed_by(&c.buyer), &c.buyer, &pid));
    or_trap(c.mkt.buy_prompt(&mut c.token, &Auth::signed_by(&c.buyer), &c.buyer, &pid));
}

#[test]
#[should_panic(expected = "already purchased")]
fn test_buy_private_prompt_replay_panics() {
    let mut c = market_setup();
    let prompt_hash = private_commitment();
    fund(&mut c, 1000);
    let by_buyer = Auth::signed_by(&c.buyer);
    or_trap(c.mkt.register_private_prompt(&Auth::signed_by(&c.admin), &prompt_hash, 500, &c.creator));
    or_trap(c.mkt.buy_private_prompt(&mut c.token, &by_buyer, &c.buyer, &prompt_hash));
    or_trap(c.mkt.buy_private_prompt(&mut c.token, &by_buyer, &c.buyer, &prompt_hash));
}

#[test]
#[should_panic(expected = "Unauthorized")]
fn test_unauthorized_private_prompt_registration() {
    let mut c = market_setup();
    let prompt_hash = private_commitment();
    or_trap(c.mkt.register_private_prompt(&Auth::signed_by(&c.buyer), &prompt_hash, 500, &c.creator));
}

#[test]
#[should_panic(expected = "prompt not found")]
fn test_buy_unregistered_private_prompt_panics() {
    let mut c = market_setup();
    let prompt_hash = private_commitment();
    or_trap(c.mkt.buy_private_prompt(&mut c.token, &Auth::signed_by(&c.buyer), &c.buyer, &prompt_hash));
}
