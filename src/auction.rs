use vstd::prelude::*;

use crate::error::AdW3Error;
use crate::state::{
    keys_equal, vault_step, AdRequest, AdResponse, AuctionRecord, ExchangeVault, Key, ProtocolConfig,
    Publisher, RequestStatus, ResponseStatus, DSP,
};

verus! {

/// How long an ask stays open: twelve hours.
pub const REQUEST_LIFETIME_SECS: i64 = 60 * 60 * 12;

/// The lowercase hexadecimal digit of `n`, for `0 <= n < 16`.
pub open spec fn hex_digit(n: int) -> char {
    seq!['0', '1', '2', '3', '4', '5', '6', '7', '8', '9', 'a', 'b', 'c', 'd', 'e', 'f'][n]
}

/// Lowercase hexadecimal text of `bytes`: two digits per byte, high nibble
/// first.
pub open spec fn hex_of(bytes: Seq<u8>) -> Seq<char> {
    Seq::new(
        2 * bytes.len(),
        |i: int|
            if i % 2 == 0 {
                hex_digit(bytes[i / 2] as int / 16)
            } else {
                hex_digit(bytes[i / 2] as int % 16)
            },
    )
}

/// The bytes of the text `auction-`.
pub open spec fn auction_id_prefix() -> Seq<u8> {
    seq![97u8, 117u8, 99u8, 116u8, 105u8, 111u8, 110u8, 45u8]
}

/// The display id of the auction of a request: the text `auction-`
/// followed by the hex of the request id's first eight bytes, padded with
/// zero bytes to 32.
pub open spec fn auction_id_of(request_id: Seq<u8>) -> Seq<u8> {
    let digits = hex_of(request_id.subrange(0, 8));
    Seq::new(
        32,
        |i: int|
            if i < 8 {
                auction_id_prefix()[i]
            } else if i < 24 {
                digits[i - 8] as u8
            } else {
                0u8
            },
    )
}

/// Relies on hex::encode: two lowercase hexadecimal digits per byte, high
/// nibble first.
#[verifier::external_body]
fn hex_encode(data: &[u8]) -> (r: String)
    ensures
        r@ == hex_of(data@),
{
    hex::encode(data)
}

/// Computes the display id of the auction of request `ad_request_id`.
pub fn auction_id(ad_request_id: &[u8; 32]) -> (id: [u8; 32])
    ensures
        id@ == auction_id_of(ad_request_id@),
{
    let mut head: Vec<u8> = Vec::new();
    let mut k: usize = 0;
    while k < 8
        invariant
            k <= 8,
            head@ == ad_request_id@.subrange(0, k as int),
        decreases 8 - k,
    {
        head.push(ad_request_id[k]);
        k = k + 1;
        proof {
            assert(head@ =~= ad_request_id@.subrange(0, k as int));
        }
    }
    let digits = hex_encode(head.as_slice());
    let text = digits.as_str();
    let prefix: [u8; 8] = [97, 117, 99, 116, 105, 111, 110, 45];
    proof {
        assert(prefix@ =~= auction_id_prefix());
    }
    let mut id: [u8; 32] = [0u8; 32];
    let mut i: usize = 0;
    while i < 32
        invariant
            i <= 32,
            text@ == hex_of(ad_request_id@.subrange(0, 8)),
            prefix@ == auction_id_prefix(),
            forall|j: int| 0 <= j < i ==> id@[j] == auction_id_of(ad_request_id@)[j],
        decreases 32 - i,
    {
        let b: u8 = if i < 8 {
            prefix[i]
        } else if i < 24 {
            text.get_char(i - 8) as u8
        } else {
            0
        };
        id[i] = b;
        i = i + 1;
    }
    assert(id@ =~= auction_id_of(ad_request_id@));
    id
}


/// The accounts that posting an ask reads and writes.
#[derive(Clone, Debug)]
pub struct PlaceAsk {
    pub publisher: Key,
    pub publisher_state: Publisher,
    pub adw_config: ProtocolConfig,
    pub auction_record: AuctionRecord,
    pub ad_request: AdRequest,
}

/// Bump seeds of the accounts that posting an ask creates.
#[derive(Clone, Copy, Debug)]
pub struct PlaceAskBumps {
    pub auction_record: u8,
    pub ad_request: u8,
}

/// Why posting an ask would be refused, in the order the checks are made.
pub open spec fn place_ask_error(s: PlaceAsk, now: i64) -> Option<AdW3Error> {
    if s.adw_config.is_paused {
        Some(AdW3Error::ProtocolPaused)
    } else if s.publisher_state.authority@ != s.publisher@ {
        Some(AdW3Error::InvalidPublisher)
    } else if now + REQUEST_LIFETIME_SECS > i64::MAX {
        Some(AdW3Error::Overflow)
    } else {
        None
    }
}

impl PlaceAsk {
    /// Opens an ask at time `now`: a request with floor price
    /// `ad_floor_price` that expires twelve hours later, and its empty
    /// auction record. On an error nothing changes.
    pub fn place_ask(&mut self, ad_request_id: [u8; 32], ad_floor_price: u64, bumps: PlaceAskBumps, now: i64) -> (r:
        Result<(), AdW3Error>)
        ensures
            match r {
                Ok(()) => {
                    &&& place_ask_error(*old(self), now) is None
                    &&& final(self).publisher == old(self).publisher
                    &&& final(self).publisher_state == old(self).publisher_state
                    &&& final(self).adw_config == old(self).adw_config
                    &&& final(self).ad_request == (AdRequest {
                        publisher: old(self).publisher,
                        request_id: ad_request_id,
                        floor_price: ad_floor_price,
                        expiration: (now + REQUEST_LIFETIME_SECS) as i64,
                        status: RequestStatus::Open,
                        bump: bumps.ad_request,
                    })
                    &&& final(self).auction_record.id@ == auction_id_of(ad_request_id@)
                    &&& final(self).auction_record.ad_request_id == ad_request_id
                    &&& final(self).auction_record.publisher == old(self).publisher
                    &&& final(self).auction_record.winning_dsp is None
                    &&& final(self).auction_record.bid_amount == 0
                    &&& final(self).auction_record.clearing_price == 0
                    &&& final(self).auction_record.publisher_payment == 0
                    &&& final(self).auction_record.platform_fee == 0
                    &&& final(self).auction_record.timestamp == 0
                    &&& !final(self).auction_record.is_settled
                    &&& final(self).auction_record.bump == bumps.auction_record
                },
                Err(e) => {
                    &&& place_ask_error(*old(self), now) == Some(e)
                    &&& *final(self) == *old(self)
                },
            },
    {
        if self.adw_config.is_paused {
            return Err(AdW3Error::ProtocolPaused);
        }
        if !keys_equal(&self.publisher_state.authority, &self.publisher) {
            return Err(AdW3Error::InvalidPublisher);
        }
        let expiration = match now.checked_add(REQUEST_LIFETIME_SECS) {
            Some(t) => t,
            None => return Err(AdW3Error::Overflow),
        };
        let id = auction_id(&ad_request_id);
        self.ad_request = AdRequest {
            publisher: self.publisher,
            request_id: ad_request_id,
            floor_price: ad_floor_price,
            expiration,
            status: RequestStatus::Open,
            bump: bumps.ad_request,
        };
        self.auction_record = AuctionRecord {
            id,
            ad_request_id,
            publisher: self.publisher,
            winning_dsp: None,
            bid_amount: 0,
            clearing_price: 0,
            publisher_payment: 0,
            platform_fee: 0,
            timestamp: 0,
            is_settled: false,
            bump: bumps.auction_record,
        };
        Ok(())
    }
}

/// The accounts that posting a bid reads and writes.
#[derive(Clone, Debug)]
pub struct PlaceBid {
    pub dsp: Key,
    pub dsp_state: DSP,
    pub ad_dsp_response: AdResponse,
    pub adw_config: ProtocolConfig,
    pub exchange_vault_state: ExchangeVault,
}

/// Bump seed of the bid account that posting a bid creates.
#[derive(Clone, Copy, Debug)]
pub struct PlaceBidBumps {
    pub ad_dsp_response: u8,
}

/// Why posting a bid would be refused, in the order the checks are made.
pub open spec fn place_bid_error(s: PlaceBid, bid_amount: u64) -> Option<AdW3Error> {
    if s.adw_config.is_paused {
        Some(AdW3Error::ProtocolPaused)
    } else if s.dsp_state.authority@ != s.dsp@ {
        Some(AdW3Error::InvalidDSP)
    } else if s.exchange_vault_state.total_balance + bid_amount > u64::MAX {
        Some(AdW3Error::Overflow)
    } else {
        None
    }
}

impl PlaceBid {
    /// Records a bid of `bid_amount` on request `ad_request_id` at time
    /// `now`, and books the deposit of the bid into the vault (escrow on
    /// bid). The deposit itself, `bid_amount` from the bidder to the vault,
    /// belongs to the same transaction. On an error nothing changes.
    pub fn place_bid(
        &mut self,
        ad_request_id: [u8; 32],
        bid_amount: u64,
        creative_id: [u8; 32],
        bumps: PlaceBidBumps,
        now: i64,
    ) -> (r: Result<(), AdW3Error>)
        ensures
            match r {
                Ok(()) => {
                    &&& place_bid_error(*old(self), bid_amount) is None
                    &&& final(self).dsp == old(self).dsp
                    &&& final(self).dsp_state == old(self).dsp_state
                    &&& final(self).adw_config == old(self).adw_config
                    &&& final(self).ad_dsp_response == (AdResponse {
                        dsp: old(self).dsp,
                        request_id: ad_request_id,
                        bid_amount,
                        creative_id,
                        created_at: now,
                        status: ResponseStatus::Submitted,
                        bump: bumps.ad_dsp_response,
                    })
                    &&& final(self).exchange_vault_state == (ExchangeVault {
                        total_balance: (old(self).exchange_vault_state.total_balance + bid_amount) as u64,
                        ..old(self).exchange_vault_state
                    })
                },
                Err(e) => {
                    &&& place_bid_error(*old(self), bid_amount) == Some(e)
                    &&& *final(self) == *old(self)
                },
            },
            old(self).exchange_vault_state.wf() ==> final(self).exchange_vault_state.wf(),
            vault_step(old(self).exchange_vault_state, final(self).exchange_vault_state),
    {
        if self.adw_config.is_paused {
            return Err(AdW3Error::ProtocolPaused);
        }
        if !keys_equal(&self.dsp_state.authority, &self.dsp) {
            return Err(AdW3Error::InvalidDSP);
        }
        let total = match self.exchange_vault_state.total_balance.checked_add(bid_amount) {
            Some(v) => v,
            None => return Err(AdW3Error::Overflow),
        };
        self.ad_dsp_response = AdResponse {
            dsp: self.dsp,
            request_id: ad_request_id,
            bid_amount,
            creative_id,
            created_at: now,
            status: ResponseStatus::Submitted,
            bump: bumps.ad_dsp_response,
        };
        self.exchange_vault_state.total_balance = total;
        Ok(())
    }
}

} // verus!
