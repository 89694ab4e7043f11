use vstd::prelude::*;

use crate::error::AdW3Error;
use crate::state::{keys_equal, vault_step, AuctionRecord, ExchangeVault, Key, ProtocolConfig, Publisher};

verus! {

/// `percentage` percent of `price`, rounded down.
pub open spec fn share_of(price: u64, percentage: u8) -> int {
    (price * percentage) / 100
}

/// `percentage` percent of `price`, rounded down.
pub fn share_amount(price: u64, percentage: u8) -> (r: u64)
    requires
        percentage <= 100,
    ensures
        r == share_of(price, percentage),
        r <= price,
{
    proof {
        assert((price as int) * (percentage as int) <= (price as int) * 100) by (nonlinear_arith)
            requires
                percentage <= 100,
        ;
    }
    let wide: u128 = (price as u128) * (percentage as u128) / 100;
    wide as u64
}

/// The accounts that booking an auction's settlement reads and writes.
#[derive(Clone, Debug)]
pub struct ProcessAuctionResults {
    pub authority: Key,
    pub auction_record: AuctionRecord,
    pub publisher: Publisher,
    pub adw_config: ProtocolConfig,
    pub exchange_vault_state: ExchangeVault,
}

/// Why booking would be refused, in the order the checks are made.
pub open spec fn booking_error(s: ProcessAuctionResults, ad_request_id: Seq<u8>) -> Option<AdW3Error> {
    let price = s.auction_record.clearing_price;
    let fee = share_of(price, s.adw_config.platform_fee_percentage);
    let payment = share_of(price, s.adw_config.publisher_rev_share);
    let vault = s.exchange_vault_state;
    if s.auction_record.is_settled {
        Some(AdW3Error::AuctionAlreadySettled)
    } else if s.adw_config.is_paused {
        Some(AdW3Error::ProtocolPaused)
    } else if s.publisher.authority@ != s.auction_record.publisher@ {
        Some(AdW3Error::InvalidPublisher)
    } else if s.auction_record.ad_request_id@ != ad_request_id {
        Some(AdW3Error::InvalidAuctionId)
    } else if s.publisher.total_revenue + payment > u64::MAX {
        Some(AdW3Error::Overflow)
    } else if vault.pending_settlements + payment + fee > u64::MAX {
        Some(AdW3Error::Overflow)
    } else if vault.pending_settlements + payment + fee + vault.fee_balance > vault.total_balance {
        Some(AdW3Error::InsufficientFunds)
    } else {
        None
    }
}

/// `new` is `old` with the settlement of its record booked: the fee split
/// stored on the record, the payment added to the publisher's revenue, and
/// payment and fee reserved in the vault.
pub open spec fn booked(old: ProcessAuctionResults, new: ProcessAuctionResults, ad_request_id: Seq<u8>) -> bool {
    let price = old.auction_record.clearing_price;
    let fee = share_of(price, old.adw_config.platform_fee_percentage);
    let payment = share_of(price, old.adw_config.publisher_rev_share);
    &&& booking_error(old, ad_request_id) is None
    &&& new.authority == old.authority
    &&& new.adw_config == old.adw_config
    &&& new.auction_record == (AuctionRecord {
        platform_fee: fee as u64,
        publisher_payment: payment as u64,
        ..old.auction_record
    })
    &&& new.publisher.authority == old.publisher.authority
    &&& new.publisher.payment_address == old.publisher.payment_address
    &&& new.publisher.name == old.publisher.name
    &&& new.publisher.domain == old.publisher.domain
    &&& new.publisher.created_at == old.publisher.created_at
    &&& new.publisher.bump == old.publisher.bump
    &&& new.publisher.total_revenue == old.publisher.total_revenue + payment
    &&& new.exchange_vault_state == (ExchangeVault {
        pending_settlements: (old.exchange_vault_state.pending_settlements + payment + fee) as u64,
        ..old.exchange_vault_state
    })
}

impl ProcessAuctionResults {
    /// Books the settlement of a resolved, unsettled auction: computes the
    /// platform fee and the publisher's payment from the clearing price,
    /// adds the payment to the publisher's revenue and reserves payment and
    /// fee in the vault. No funds move. All or nothing: on an error nothing
    /// changes.
    pub fn process_results(&mut self, ad_request_id: [u8; 32]) -> (r: Result<(), AdW3Error>)
        requires
            old(self).adw_config.wf(),
        ensures
            match r {
                Ok(()) => booked(*old(self), *final(self), ad_request_id@),
                Err(e) => {
                    &&& booking_error(*old(self), ad_request_id@) == Some(e)
                    &&& *final(self) == *old(self)
                },
            },
            old(self).auction_record.is_settled ==> r == Err::<(), AdW3Error>(AdW3Error::AuctionAlreadySettled),
            r is Ok ==> final(self).exchange_vault_state.wf(),
            old(self).exchange_vault_state.wf() ==> final(self).exchange_vault_state.wf(),
            vault_step(old(self).exchange_vault_state, final(self).exchange_vault_state),
    {
        if self.auction_record.is_settled {
            return Err(AdW3Error::AuctionAlreadySettled);
        }
        if self.adw_config.is_paused {
            return Err(AdW3Error::ProtocolPaused);
        }
        if !keys_equal(&self.publisher.authority, &self.auction_record.publisher) {
            return Err(AdW3Error::InvalidPublisher);
        }
        if !keys_equal(&self.auction_record.ad_request_id, &ad_request_id) {
            return Err(AdW3Error::InvalidAuctionId);
        }
        let clearing_price = self.auction_record.clearing_price;
        let platform_fee = share_amount(clearing_price, self.adw_config.platform_fee_percentage);
        let publisher_payment = share_amount(clearing_price, self.adw_config.publisher_rev_share);
        let total_revenue = match self.publisher.total_revenue.checked_add(publisher_payment) {
            Some(v) => v,
            None => return Err(AdW3Error::Overflow),
        };
        let pending = match self.exchange_vault_state.pending_settlements.checked_add(publisher_payment) {
            Some(v) => match v.checked_add(platform_fee) {
                Some(w) => w,
                None => return Err(AdW3Error::Overflow),
            },
            None => return Err(AdW3Error::Overflow),
        };
        if pending > self.exchange_vault_state.total_balance
            || self.exchange_vault_state.total_balance - pending < self.exchange_vault_state.fee_balance {
            return Err(AdW3Error::InsufficientFunds);
        }
        self.auction_record.platform_fee = platform_fee;
        self.auction_record.publisher_payment = publisher_payment;
        self.publisher.total_revenue = total_revenue;
        self.exchange_vault_state.pending_settlements = pending;
        Ok(())
    }
}


/// The accounts that paying out an auction reads and writes.
#[derive(Clone, Debug)]
pub struct SettleAuction {
    pub authority: Key,
    pub auction_record: AuctionRecord,
    pub publisher: Publisher,
    pub adw_config: ProtocolConfig,
    pub exchange_vault_state: ExchangeVault,
}

/// Why a payout would be refused, in the order the checks are made.
pub open spec fn payout_error(s: SettleAuction) -> Option<AdW3Error> {
    let rec = s.auction_record;
    let vault = s.exchange_vault_state;
    if rec.is_settled {
        Some(AdW3Error::AuctionAlreadySettled)
    } else if s.adw_config.is_paused {
        Some(AdW3Error::ProtocolPaused)
    } else if s.publisher.authority@ != rec.publisher@ {
        Some(AdW3Error::InvalidPublisher)
    } else if rec.publisher_payment + rec.platform_fee > u64::MAX {
        Some(AdW3Error::Overflow)
    } else if vault.pending_settlements < rec.publisher_payment + rec.platform_fee {
        Some(AdW3Error::Overflow)
    } else if vault.fee_balance + rec.platform_fee > u64::MAX {
        Some(AdW3Error::Overflow)
    } else {
        None
    }
}

/// `new` is `old` after the payout of its record: the reservation released,
/// the fee collected, and the record sealed.
pub open spec fn paid_out(old: SettleAuction, new: SettleAuction) -> bool {
    let rec = old.auction_record;
    let vault = old.exchange_vault_state;
    &&& payout_error(old) is None
    &&& new.authority == old.authority
    &&& new.adw_config == old.adw_config
    &&& new.publisher == old.publisher
    &&& new.auction_record == (AuctionRecord { is_settled: true, ..rec })
    &&& new.exchange_vault_state == (ExchangeVault {
        pending_settlements: (vault.pending_settlements - rec.publisher_payment - rec.platform_fee) as u64,
        fee_balance: (vault.fee_balance + rec.platform_fee) as u64,
        ..vault
    })
}

impl SettleAuction {
    /// Final settlement of a booked auction: releases the reservation of
    /// payment and fee, collects the fee and marks the record settled. The
    /// result is the amount that must be transferred from the vault to the
    /// publisher's payment address in the same transaction. On an error
    /// nothing changes; a settled record refuses every further payout.
    pub fn settle(&mut self) -> (r: Result<u64, AdW3Error>)
        ensures
            match r {
                Ok(amount) => {
                    &&& paid_out(*old(self), *final(self))
                    &&& amount == old(self).auction_record.publisher_payment
                },
                Err(e) => {
                    &&& payout_error(*old(self)) == Some(e)
                    &&& *final(self) == *old(self)
                },
            },
            old(self).auction_record.is_settled ==> r == Err::<u64, AdW3Error>(AdW3Error::AuctionAlreadySettled),
            old(self).exchange_vault_state.wf() ==> final(self).exchange_vault_state.wf(),
            vault_step(old(self).exchange_vault_state, final(self).exchange_vault_state),
    {
        if self.auction_record.is_settled {
            return Err(AdW3Error::AuctionAlreadySettled);
        }
        if self.adw_config.is_paused {
            return Err(AdW3Error::ProtocolPaused);
        }
        if !keys_equal(&self.publisher.authority, &self.auction_record.publisher) {
            return Err(AdW3Error::InvalidPublisher);
        }
        let payment = self.auction_record.publisher_payment;
        let fee = self.auction_record.platform_fee;
        let reserved = match payment.checked_add(fee) {
            Some(v) => v,
            None => return Err(AdW3Error::Overflow),
        };
        let pending = match self.exchange_vault_state.pending_settlements.checked_sub(reserved) {
            Some(v) => v,
            None => return Err(AdW3Error::Overflow),
        };
        let fee_balance = match self.exchange_vault_state.fee_balance.checked_add(fee) {
            Some(v) => v,
            None => return Err(AdW3Error::Overflow),
        };
        self.exchange_vault_state.pending_settlements = pending;
        self.exchange_vault_state.fee_balance = fee_balance;
        self.auction_record.is_settled = true;
        Ok(payment)
    }
}

/// Booking an auction and then paying it out returns the vault's pending
/// settlements to where they stood before the booking, adds the platform
/// fee to the collected fees, credits the publisher with its share, and
/// seals the record.
pub proof fn lemma_booking_then_payout(
    before: ProcessAuctionResults,
    booked_state: ProcessAuctionResults,
    payout: SettleAuction,
    after: SettleAuction,
    ad_request_id: Seq<u8>,
)
    requires
        booked(before, booked_state, ad_request_id),
        payout.auction_record == booked_state.auction_record,
        payout.exchange_vault_state == booked_state.exchange_vault_state,
        paid_out(payout, after),
    ensures
        after.exchange_vault_state.pending_settlements == before.exchange_vault_state.pending_settlements,
        after.exchange_vault_state.fee_balance == before.exchange_vault_state.fee_balance + share_of(
            before.auction_record.clearing_price,
            before.adw_config.platform_fee_percentage,
        ),
        booked_state.publisher.total_revenue == before.publisher.total_revenue + share_of(
            before.auction_record.clearing_price,
            before.adw_config.publisher_rev_share,
        ),
        after.exchange_vault_state.total_balance == before.exchange_vault_state.total_balance,
        after.auction_record.is_settled,
{
}

/// Once a record is settled, neither booking nor payout can touch it again.
pub proof fn lemma_settled_is_final(
    booking: ProcessAuctionResults,
    payout: SettleAuction,
    ad_request_id: Seq<u8>,
)
    requires
        booking.auction_record.is_settled,
        payout.auction_record.is_settled,
    ensures
        booking_error(booking, ad_request_id) == Some(AdW3Error::AuctionAlreadySettled),
        payout_error(payout) == Some(AdW3Error::AuctionAlreadySettled),
{
}

} // verus!
