use adw3::{
    auction_id, commit_batch, AdRequest, AdResponse, AdW3Error, AuctionRecord, ExchangeVault, Key, Location,
    PlaceAsk, PlaceAskBumps, PlaceBid, PlaceBidBumps, ProtocolConfig, Publisher, RegisterDSP, RegisterDSPBumps,
    RegisterPublisher, RegisterPublisherBumps, RequestStatus, Residency, ResponseStatus, DSP,
    REQUEST_LIFETIME_SECS,
};

fn key(b: u8) -> Key {
    [b; 32]
}

fn config(paused: bool) -> ProtocolConfig {
    ProtocolConfig {
        authority: key(1),
        platform_fee_percentage: 10,
        publisher_rev_share: 80,
        is_paused: paused,
        token_mint: key(2),
        bump: 0,
    }
}

fn empty_publisher() -> Publisher {
    Publisher {
        authority: [0u8; 32],
        payment_address: [0u8; 32],
        name: String::new(),
        domain: String::new(),
        total_revenue: 0,
        created_at: 0,
        bump: 0,
    }
}

fn empty_dsp() -> DSP {
    DSP { authority: [0u8; 32], name: String::new(), domain: String::new(), balance: 0, created_at: 0, bump: 0 }
}

fn empty_request() -> AdRequest {
    AdRequest {
        publisher: [0u8; 32],
        request_id: [0u8; 32],
        floor_price: 0,
        expiration: 0,
        status: RequestStatus::Open,
        bump: 0,
    }
}

fn empty_record() -> AuctionRecord {
    AuctionRecord {
        id: [0u8; 32],
        ad_request_id: [0u8; 32],
        publisher: [0u8; 32],
        winning_dsp: None,
        bid_amount: 0,
        clearing_price: 0,
        publisher_payment: 0,
        platform_fee: 0,
        timestamp: 0,
        is_settled: false,
        bump: 0,
    }
}

fn empty_response() -> AdResponse {
    AdResponse {
        dsp: [0u8; 32],
        request_id: [0u8; 32],
        bid_amount: 0,
        creative_id: [0u8; 32],
        created_at: 0,
        status: ResponseStatus::Submitted,
        bump: 0,
    }
}

fn vault(total: u64) -> ExchangeVault {
    ExchangeVault {
        authority: key(1),
        total_balance: total,
        pending_settlements: 0,
        fee_balance: 0,
        token_mint: key(2),
        token_account: key(5),
        bump: 0,
    }
}

#[test]
fn auction_id_is_prefix_and_hex_of_request() {
    let mut rid = [0u8; 32];
    rid[0] = 0xde;
    rid[1] = 0xad;
    rid[2] = 0xbe;
    rid[3] = 0xef;
    rid[4] = 0x01;
    rid[5] = 0x23;
    rid[6] = 0x45;
    rid[7] = 0x67;
    rid[8] = 0xff;
    let id = auction_id(&rid);
    let mut expected = [0u8; 32];
    expected[..24].copy_from_slice(b"auction-deadbeef01234567");
    assert_eq!(id, expected);
}

#[test]
fn publisher_registration_defaults_payment_address() {
    let mut ctx = RegisterPublisher { publisher: key(3), publisher_state: empty_publisher(), adw_config: config(false) };
    ctx.register(String::from("news"), String::from("news.example"), None, RegisterPublisherBumps { publisher_state: 9 }, 77)
        .unwrap();
    assert_eq!(ctx.publisher_state.authority, key(3));
    assert_eq!(ctx.publisher_state.payment_address, key(3));
    assert_eq!(ctx.publisher_state.name, "news");
    assert_eq!(ctx.publisher_state.created_at, 77);
    assert_eq!(ctx.publisher_state.bump, 9);
}

#[test]
fn publisher_registration_keeps_given_payment_address() {
    let mut ctx = RegisterPublisher { publisher: key(3), publisher_state: empty_publisher(), adw_config: config(false) };
    ctx.register(String::from("a"), String::from("b"), Some(key(4)), RegisterPublisherBumps { publisher_state: 9 }, 77)
        .unwrap();
    assert_eq!(ctx.publisher_state.payment_address, key(4));
}

#[test]
fn names_longer_than_fifty_bytes_are_refused() {
    let mut ctx = RegisterPublisher { publisher: key(3), publisher_state: empty_publisher(), adw_config: config(false) };
    let long = "x".repeat(51);
    let r = ctx.register(long, String::from("b"), None, RegisterPublisherBumps { publisher_state: 9 }, 77);
    assert_eq!(r.unwrap_err(), AdW3Error::StringTooLong);
    let exact = "x".repeat(50);
    assert!(ctx.register(exact, String::from("b"), None, RegisterPublisherBumps { publisher_state: 9 }, 77).is_ok());
}

#[test]
fn multibyte_name_counts_bytes() {
    let mut ctx = RegisterDSP { dsp: key(10), dsp_state: empty_dsp(), adw_config: config(false) };
    let name = "é".repeat(26);
    let r = ctx.register(String::from("ok"), name, RegisterDSPBumps { dsp_state: 1 }, 5);
    assert_eq!(r.unwrap_err(), AdW3Error::StringTooLong);
}

#[test]
fn registration_while_paused_is_refused() {
    let mut ctx = RegisterDSP { dsp: key(10), dsp_state: empty_dsp(), adw_config: config(true) };
    let r = ctx.register(String::from("dsp"), String::from("dsp.example"), RegisterDSPBumps { dsp_state: 1 }, 5);
    assert_eq!(r.unwrap_err(), AdW3Error::ProtocolPaused);
    assert_eq!(ctx.dsp_state.authority, [0u8; 32]);
}

#[test]
fn dsp_registration_starts_at_zero_balance() {
    let mut ctx = RegisterDSP { dsp: key(10), dsp_state: empty_dsp(), adw_config: config(false) };
    ctx.register(String::from("dsp"), String::from("dsp.example"), RegisterDSPBumps { dsp_state: 1 }, 5).unwrap();
    assert_eq!(ctx.dsp_state.authority, key(10));
    assert_eq!(ctx.dsp_state.balance, 0);
    assert_eq!(ctx.dsp_state.domain, "dsp.example");
}

fn place_ask_ctx(paused: bool) -> PlaceAsk {
    let mut publisher_state = empty_publisher();
    publisher_state.authority = key(3);
    PlaceAsk {
        publisher: key(3),
        publisher_state,
        adw_config: config(paused),
        auction_record: empty_record(),
        ad_request: empty_request(),
    }
}

#[test]
fn ask_opens_request_for_twelve_hours() {
    let mut ctx = place_ask_ctx(false);
    let rid = [0xabu8; 32];
    ctx.place_ask(rid, 100, PlaceAskBumps { auction_record: 1, ad_request: 2 }, 1_000).unwrap();
    assert_eq!(ctx.ad_request.expiration, 1_000 + 43_200);
    assert_eq!(REQUEST_LIFETIME_SECS, 43_200);
    assert_eq!(ctx.ad_request.floor_price, 100);
    assert_eq!(ctx.ad_request.status, RequestStatus::Open);
    assert_eq!(ctx.ad_request.publisher, key(3));
    assert_eq!(ctx.ad_request.bump, 2);
    assert_eq!(ctx.auction_record.ad_request_id, rid);
    assert_eq!(&ctx.auction_record.id[..24], b"auction-abababababababab");
    assert_eq!(ctx.auction_record.id[24..], [0u8; 8]);
    assert!(!ctx.auction_record.is_settled);
    assert_eq!(ctx.auction_record.bump, 1);
}

#[test]
fn ask_while_paused_is_refused() {
    let mut ctx = place_ask_ctx(true);
    let r = ctx.place_ask([1u8; 32], 100, PlaceAskBumps { auction_record: 1, ad_request: 2 }, 1_000);
    assert_eq!(r.unwrap_err(), AdW3Error::ProtocolPaused);
}

#[test]
fn ask_expiry_overflow_is_refused() {
    let mut ctx = place_ask_ctx(false);
    let r = ctx.place_ask([1u8; 32], 100, PlaceAskBumps { auction_record: 1, ad_request: 2 }, i64::MAX - 10);
    assert_eq!(r.unwrap_err(), AdW3Error::Overflow);
}

#[test]
fn ask_by_unregistered_publisher_is_refused() {
    let mut ctx = place_ask_ctx(false);
    ctx.publisher = key(4);
    let r = ctx.place_ask([1u8; 32], 100, PlaceAskBumps { auction_record: 1, ad_request: 2 }, 1_000);
    assert_eq!(r.unwrap_err(), AdW3Error::InvalidPublisher);
}

fn place_bid_ctx(total: u64) -> PlaceBid {
    let mut dsp_state = empty_dsp();
    dsp_state.authority = key(10);
    PlaceBid {
        dsp: key(10),
        dsp_state,
        ad_dsp_response: empty_response(),
        adw_config: config(false),
        exchange_vault_state: vault(total),
    }
}

#[test]
fn bid_is_recorded_and_escrowed() {
    let mut ctx = place_bid_ctx(500);
    ctx.place_bid([7u8; 32], 150, [9u8; 32], PlaceBidBumps { ad_dsp_response: 4 }, 60).unwrap();
    assert_eq!(ctx.ad_dsp_response.dsp, key(10));
    assert_eq!(ctx.ad_dsp_response.request_id, [7u8; 32]);
    assert_eq!(ctx.ad_dsp_response.bid_amount, 150);
    assert_eq!(ctx.ad_dsp_response.creative_id, [9u8; 32]);
    assert_eq!(ctx.ad_dsp_response.created_at, 60);
    assert_eq!(ctx.ad_dsp_response.status, ResponseStatus::Submitted);
    assert_eq!(ctx.exchange_vault_state.total_balance, 650);
}

#[test]
fn bid_overflowing_vault_is_refused() {
    let mut ctx = place_bid_ctx(u64::MAX - 1);
    let r = ctx.place_bid([7u8; 32], 2, [9u8; 32], PlaceBidBumps { ad_dsp_response: 4 }, 60);
    assert_eq!(r.unwrap_err(), AdW3Error::Overflow);
    assert_eq!(ctx.exchange_vault_state.total_balance, u64::MAX - 1);
}

#[test]
fn bid_by_unregistered_bidder_is_refused() {
    let mut ctx = place_bid_ctx(0);
    ctx.dsp = key(11);
    let r = ctx.place_bid([7u8; 32], 2, [9u8; 32], PlaceBidBumps { ad_dsp_response: 4 }, 60);
    assert_eq!(r.unwrap_err(), AdW3Error::InvalidDSP);
}

#[test]
fn delegation_round_trip() {
    let mut r = Residency::new(key(3));
    assert!(r.writable_in(Location::Primary));
    assert_eq!(r.delegate(&key(4)).unwrap_err(), AdW3Error::UnauthorizedAccess);
    r.delegate(&key(3)).unwrap();
    assert!(r.writable_in(Location::Secondary));
    assert!(!r.writable_in(Location::Primary));
    assert_eq!(r.delegate(&key(3)).unwrap_err(), AdW3Error::AccountAlreadyDelegated);
    r.record_write().unwrap();
    assert!(r.uncommitted);
    r.commit().unwrap();
    assert!(!r.uncommitted);
    assert_eq!(r.location, Location::Secondary);
    r.record_write().unwrap();
    r.commit_and_undelegate().unwrap();
    assert_eq!(r.location, Location::Primary);
    assert!(!r.uncommitted);
    assert_eq!(r.commit().unwrap_err(), AdW3Error::AccountNotDelegated);
    assert_eq!(r.record_write().unwrap_err(), AdW3Error::AccountNotDelegated);
}

#[test]
fn batch_commit_is_all_or_nothing() {
    let mut a = Residency::new(key(3));
    a.delegate(&key(3)).unwrap();
    a.record_write().unwrap();
    let b = Residency::new(key(4));
    let mut batch = vec![a, b];
    assert_eq!(commit_batch(&mut batch).unwrap_err(), AdW3Error::AccountNotDelegated);
    assert!(batch[0].uncommitted);
    batch[1].delegate(&key(4)).unwrap();
    batch[1].record_write().unwrap();
    commit_batch(&mut batch).unwrap();
    assert!(!batch[0].uncommitted);
    assert!(!batch[1].uncommitted);
    assert_eq!(batch[1].location, Location::Secondary);
}
