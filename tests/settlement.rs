use adw3::{
    share_amount, AdW3Error, AuctionRecord, ExchangeVault, Initialize, InitializeBumps, Key,
    ProcessAuctionResults, ProtocolConfig, Publisher, SettleAuction,
};

const REQUEST: [u8; 32] = [7u8; 32];

fn key(b: u8) -> Key {
    [b; 32]
}

fn config(fee: u8, share: u8) -> ProtocolConfig {
    ProtocolConfig {
        authority: key(1),
        platform_fee_percentage: fee,
        publisher_rev_share: share,
        is_paused: false,
        token_mint: key(2),
        bump: 0,
    }
}

fn publisher(revenue: u64) -> Publisher {
    Publisher {
        authority: key(3),
        payment_address: key(4),
        name: String::from("news"),
        domain: String::from("news.example"),
        total_revenue: revenue,
        created_at: 0,
        bump: 0,
    }
}

fn vault(total: u64, pending: u64, fees: u64) -> ExchangeVault {
    ExchangeVault {
        authority: key(1),
        total_balance: total,
        pending_settlements: pending,
        fee_balance: fees,
        token_mint: key(2),
        token_account: key(5),
        bump: 0,
    }
}

fn record(clearing_price: u64) -> AuctionRecord {
    AuctionRecord {
        id: [0u8; 32],
        ad_request_id: REQUEST,
        publisher: key(3),
        winning_dsp: Some(key(10)),
        bid_amount: clearing_price + 50,
        clearing_price,
        publisher_payment: 0,
        platform_fee: 0,
        timestamp: 500,
        is_settled: false,
        bump: 0,
    }
}

fn booking(clearing_price: u64, v: ExchangeVault) -> ProcessAuctionResults {
    ProcessAuctionResults {
        authority: key(1),
        auction_record: record(clearing_price),
        publisher: publisher(0),
        adw_config: config(10, 80),
        exchange_vault_state: v,
    }
}

fn payout_of(b: &ProcessAuctionResults) -> SettleAuction {
    SettleAuction {
        authority: key(1),
        auction_record: b.auction_record,
        publisher: b.publisher.clone(),
        adw_config: b.adw_config,
        exchange_vault_state: b.exchange_vault_state,
    }
}

#[test]
fn fee_split_of_a_thousand() {
    let mut b = booking(1000, vault(5000, 200, 30));
    b.process_results(REQUEST).unwrap();
    assert_eq!(b.auction_record.platform_fee, 100);
    assert_eq!(b.auction_record.publisher_payment, 800);
    assert_eq!(b.publisher.total_revenue, 800);
    assert_eq!(b.exchange_vault_state.pending_settlements, 200 + 900);
    let mut s = payout_of(&b);
    let paid = s.settle().unwrap();
    assert_eq!(paid, 800);
    assert_eq!(s.exchange_vault_state.fee_balance, 30 + 100);
    assert_eq!(s.exchange_vault_state.pending_settlements, 200);
    assert_eq!(s.exchange_vault_state.total_balance, 5000);
    assert!(s.auction_record.is_settled);
}

#[test]
fn shares_round_down() {
    assert_eq!(share_amount(999, 10), 99);
    assert_eq!(share_amount(7, 33), 2);
    assert_eq!(share_amount(u64::MAX, 100), u64::MAX);
    assert_eq!(share_amount(u64::MAX, 0), 0);
}

#[test]
fn settled_record_refuses_booking_and_payout() {
    let mut b = booking(1000, vault(5000, 0, 0));
    b.process_results(REQUEST).unwrap();
    let mut s = payout_of(&b);
    s.settle().unwrap();
    let vault_after = s.exchange_vault_state;
    assert_eq!(s.settle().unwrap_err(), AdW3Error::AuctionAlreadySettled);
    assert_eq!(s.exchange_vault_state.pending_settlements, vault_after.pending_settlements);
    assert_eq!(s.exchange_vault_state.fee_balance, vault_after.fee_balance);
    let mut again = ProcessAuctionResults {
        authority: key(1),
        auction_record: s.auction_record,
        publisher: s.publisher.clone(),
        adw_config: s.adw_config,
        exchange_vault_state: s.exchange_vault_state,
    };
    assert_eq!(again.process_results(REQUEST).unwrap_err(), AdW3Error::AuctionAlreadySettled);
    assert_eq!(again.publisher.total_revenue, 800);
}

#[test]
fn booking_beyond_vault_funds_is_refused() {
    let mut b = booking(1000, vault(950, 0, 100));
    assert_eq!(b.process_results(REQUEST).unwrap_err(), AdW3Error::InsufficientFunds);
    assert_eq!(b.exchange_vault_state.pending_settlements, 0);
    assert_eq!(b.publisher.total_revenue, 0);
    assert_eq!(b.auction_record.platform_fee, 0);
}

#[test]
fn booking_with_wrong_request_id_is_refused() {
    let mut b = booking(1000, vault(5000, 0, 0));
    assert_eq!(b.process_results([9u8; 32]).unwrap_err(), AdW3Error::InvalidAuctionId);
}

#[test]
fn booking_for_another_publisher_is_refused() {
    let mut b = booking(1000, vault(5000, 0, 0));
    b.publisher.authority = key(42);
    assert_eq!(b.process_results(REQUEST).unwrap_err(), AdW3Error::InvalidPublisher);
}

#[test]
fn booking_overflowing_revenue_is_refused() {
    let mut b = booking(1000, vault(5000, 0, 0));
    b.publisher.total_revenue = u64::MAX - 10;
    assert_eq!(b.process_results(REQUEST).unwrap_err(), AdW3Error::Overflow);
    assert_eq!(b.exchange_vault_state.pending_settlements, 0);
}

#[test]
fn booking_while_paused_is_refused() {
    let mut b = booking(1000, vault(5000, 0, 0));
    b.adw_config.is_paused = true;
    assert_eq!(b.process_results(REQUEST).unwrap_err(), AdW3Error::ProtocolPaused);
}

#[test]
fn payout_without_reservation_underflows() {
    let mut b = booking(1000, vault(5000, 0, 0));
    b.process_results(REQUEST).unwrap();
    let mut s = payout_of(&b);
    s.exchange_vault_state.pending_settlements = 10;
    assert_eq!(s.settle().unwrap_err(), AdW3Error::Overflow);
    assert!(!s.auction_record.is_settled);
}

#[test]
fn payout_to_another_publisher_is_refused() {
    let mut b = booking(1000, vault(5000, 0, 0));
    b.process_results(REQUEST).unwrap();
    let mut s = payout_of(&b);
    s.publisher.authority = key(42);
    assert_eq!(s.settle().unwrap_err(), AdW3Error::InvalidPublisher);
}

#[test]
fn vault_invariant_survives_a_round() {
    let mut b = booking(1000, vault(1000, 0, 0));
    b.process_results(REQUEST).unwrap();
    let v = b.exchange_vault_state;
    assert!(v.total_balance >= v.pending_settlements + v.fee_balance);
    let mut s = payout_of(&b);
    s.settle().unwrap();
    let v = s.exchange_vault_state;
    assert!(v.total_balance >= v.pending_settlements + v.fee_balance);
}

fn fresh_init() -> Initialize {
    Initialize {
        authority: key(1),
        token_mint: key(2),
        exchange_vault: key(5),
        adw_config: config(0, 0),
        exchange_vault_state: vault(0, 0, 0),
    }
}

#[test]
fn init_accepts_shares_summing_to_hundred() {
    let mut i = fresh_init();
    i.init(20, 80, InitializeBumps { adw_config: 3, exchange_vault_state: 4 }).unwrap();
    assert_eq!(i.adw_config.platform_fee_percentage, 20);
    assert_eq!(i.adw_config.publisher_rev_share, 80);
    assert!(!i.adw_config.is_paused);
    assert_eq!(i.adw_config.bump, 3);
    assert_eq!(i.exchange_vault_state.total_balance, 0);
    assert_eq!(i.exchange_vault_state.token_account, key(5));
    assert_eq!(i.exchange_vault_state.bump, 4);
}

#[test]
fn init_rejects_fee_over_hundred() {
    let mut i = fresh_init();
    let r = i.init(101, 0, InitializeBumps { adw_config: 3, exchange_vault_state: 4 });
    assert_eq!(r.unwrap_err(), AdW3Error::InvalidFeePercentage);
}

#[test]
fn init_rejects_share_over_hundred() {
    let mut i = fresh_init();
    let r = i.init(0, 101, InitializeBumps { adw_config: 3, exchange_vault_state: 4 });
    assert_eq!(r.unwrap_err(), AdW3Error::InvalidRevenueShare);
}

#[test]
fn init_rejects_sum_over_hundred() {
    let mut i = fresh_init();
    let r = i.init(30, 71, InitializeBumps { adw_config: 3, exchange_vault_state: 4 });
    assert_eq!(r.unwrap_err(), AdW3Error::InvalidFeePercentage);
    assert_eq!(i.adw_config.platform_fee_percentage, 0);
}
