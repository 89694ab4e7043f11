//! Matching and settlement engine of an advertising exchange: publishers post
//! asks, bidders post offers, a second-price auction picks the winner, and an
//! escrow vault books and pays out the result. Auctions are resolved in a
//! fast secondary execution context that records are delegated to, and
//! settled in the durable primary one.

pub mod auction;
pub mod error;
pub mod initialize;
pub mod registry;
pub mod resolver;
pub mod rollup;
pub mod settlement;
pub mod state;

pub use auction::{auction_id, PlaceAsk, PlaceAskBumps, PlaceBid, PlaceBidBumps, REQUEST_LIFETIME_SECS};
pub use error::AdW3Error;
pub use initialize::{Initialize, InitializeBumps};
pub use registry::{RegisterDSP, RegisterDSPBumps, RegisterPublisher, RegisterPublisherBumps, MAX_TEXT_LEN};
pub use resolver::{
    counted_bids, is_counted_bid, is_valid_bid, process_auction, resolve_bids, AuctionOutcome, BidEntry,
    ProcessAuction, Resolution,
};
pub use rollup::{commit_batch, Location, Residency};
pub use settlement::{share_amount, ProcessAuctionResults, SettleAuction};
pub use state::{
    compare_keys, keys_equal, AdRequest, AdResponse, AuctionCompleted, AuctionRecord, ExchangeVault, Key,
    ProtocolConfig,
    Publisher, RequestDelegated, RequestStatus, ResponseStatus, DSP,
};
