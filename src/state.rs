use vstd::prelude::*;

verus! {

/// A 32-byte account address.
pub type Key = [u8; 32];

/// A registered publisher of ad requests.
#[derive(Clone, Debug)]
pub struct Publisher {
    pub authority: Key,
    pub payment_address: Key,
    pub name: String,
    pub domain: String,
    pub total_revenue: u64,
    pub created_at: i64,
    pub bump: u8,
}

/// A registered bidder (a demand-side platform).
#[derive(Clone, Debug)]
pub struct DSP {
    pub authority: Key,
    pub name: String,
    pub domain: String,
    pub balance: u64,
    pub created_at: i64,
    pub bump: u8,
}

/// The pooled escrow of the exchange and its fee accounting.
#[derive(Clone, Copy, Debug)]
pub struct ExchangeVault {
    pub authority: Key,
    pub total_balance: u64,
    /// Funds reserved for settlements that are booked but not paid out.
    pub pending_settlements: u64,
    /// Platform fees collected.
    pub fee_balance: u64,
    pub token_mint: Key,
    pub token_account: Key,
    pub bump: u8,
}

impl ExchangeVault {
    /// The vault never owes more than it holds.
    pub open spec fn wf(&self) -> bool {
        self.total_balance >= self.pending_settlements + self.fee_balance
    }
}

/// A deposit: only the total grows.
pub open spec fn deposit_step(v0: ExchangeVault, v1: ExchangeVault) -> bool {
    &&& v1 == (ExchangeVault { total_balance: v1.total_balance, ..v0 })
    &&& v1.total_balance >= v0.total_balance
}

/// A booking: only the pending settlements grow, and never past what the
/// vault holds beside the collected fees.
pub open spec fn booking_step(v0: ExchangeVault, v1: ExchangeVault) -> bool {
    &&& v1 == (ExchangeVault { pending_settlements: v1.pending_settlements, ..v0 })
    &&& v1.pending_settlements >= v0.pending_settlements
    &&& v1.pending_settlements + v1.fee_balance <= v1.total_balance
}

/// A payout: a reservation is released, and at most that much is collected
/// as fees.
pub open spec fn payout_step(v0: ExchangeVault, v1: ExchangeVault) -> bool {
    &&& v1 == (ExchangeVault {
        pending_settlements: v1.pending_settlements,
        fee_balance: v1.fee_balance,
        ..v0
    })
    &&& v1.pending_settlements <= v0.pending_settlements
    &&& v1.fee_balance >= v0.fee_balance
    &&& v1.fee_balance - v0.fee_balance <= v0.pending_settlements - v1.pending_settlements
}

/// Any change that an operation of the exchange makes to the vault.
pub open spec fn vault_step(v0: ExchangeVault, v1: ExchangeVault) -> bool {
    ||| v1 == v0
    ||| deposit_step(v0, v1)
    ||| booking_step(v0, v1)
    ||| payout_step(v0, v1)
}

/// The vault invariant holds after every sequence of operations that starts
/// from a vault where it holds.
pub proof fn lemma_vault_invariant_holds(history: Seq<ExchangeVault>)
    requires
        history.len() > 0,
        history[0].wf(),
        forall|i: int| 0 <= i < history.len() - 1 ==> vault_step(#[trigger] history[i], history[i + 1]),
    ensures
        forall|i: int| 0 <= i < history.len() ==> #[trigger] history[i].wf(),
    decreases history.len(),
{
    if history.len() > 1 {
        let prefix = history.drop_last();
        assert forall|i: int| 0 <= i < prefix.len() - 1 implies vault_step(#[trigger] prefix[i], prefix[i + 1]) by {
            assert(vault_step(history[i], history[i + 1]));
        }
        lemma_vault_invariant_holds(prefix);
        let n = history.len() - 1;
        assert(prefix[n - 1].wf());
        assert(vault_step(history[n - 1], history[n]));
        assert forall|i: int| 0 <= i < history.len() implies #[trigger] history[i].wf() by {
            if i < n {
                assert(prefix[i].wf());
            }
        }
    }
}

/// The outcome of one auction, one-to-one with its request.
#[derive(Clone, Copy, Debug)]
pub struct AuctionRecord {
    pub id: [u8; 32],
    pub ad_request_id: [u8; 32],
    pub publisher: Key,
    pub winning_dsp: Option<Key>,
    pub bid_amount: u64,
    pub clearing_price: u64,
    pub publisher_payment: u64,
    pub platform_fee: u64,
    pub timestamp: i64,
    pub is_settled: bool,
    pub bump: u8,
}

/// Lifecycle of an ad request; it only ever moves forward.
#[derive(Clone, Copy, Debug, PartialEq, Eq, Structural)]
pub enum RequestStatus {
    Open,
    AuctionInProgress,
    Completed,
}

/// Lifecycle of a bid.
#[derive(Clone, Copy, Debug, PartialEq, Eq, Structural)]
pub enum ResponseStatus {
    Submitted,
    AuctionInProgress,
    Win,
    Loss,
}

/// A publisher's ask: a floor price and an expiry.
#[derive(Clone, Copy, Debug)]
pub struct AdRequest {
    pub publisher: Key,
    pub request_id: [u8; 32],
    pub floor_price: u64,
    pub expiration: i64,
    pub status: RequestStatus,
    pub bump: u8,
}

/// A bidder's offer against one request.
#[derive(Clone, Copy, Debug)]
pub struct AdResponse {
    pub dsp: Key,
    pub request_id: [u8; 32],
    pub bid_amount: u64,
    pub creative_id: [u8; 32],
    pub created_at: i64,
    pub status: ResponseStatus,
    pub bump: u8,
}

/// Protocol-wide settings.
#[derive(Clone, Copy, Debug)]
pub struct ProtocolConfig {
    pub authority: Key,
    pub platform_fee_percentage: u8,
    pub publisher_rev_share: u8,
    pub is_paused: bool,
    pub token_mint: Key,
    pub bump: u8,
}

impl ProtocolConfig {
    /// Fee and revenue share together never exceed the clearing price.
    pub open spec fn wf(&self) -> bool {
        self.platform_fee_percentage + self.publisher_rev_share <= 100
    }
}

/// Emitted when an ad request is handed to the secondary context.
#[derive(Clone, Copy, Debug)]
pub struct RequestDelegated {
    pub request_id: [u8; 32],
    pub publisher: Key,
    pub timestamp: i64,
}

/// Emitted when an auction found a winner.
#[derive(Clone, Copy, Debug)]
pub struct AuctionCompleted {
    pub request_id: [u8; 32],
    pub publisher: Key,
    pub winning_dsp: Key,
    pub clearing_price: u64,
    pub timestamp: i64,
}

/// `a` sorts strictly before `b`, byte by byte.
pub open spec fn key_less(a: Seq<u8>, b: Seq<u8>) -> bool {
    exists|k: int|
        #![trigger a[k], b[k]]
        0 <= k < a.len() && k < b.len() && a[k] < b[k] && forall|j: int| 0 <= j < k ==> a[j] == b[j]
}

/// The byte order of keys is transitive.
pub proof fn lemma_key_less_transitive(a: Seq<u8>, b: Seq<u8>, c: Seq<u8>)
    requires
        key_less(a, b),
        key_less(b, c),
    ensures
        key_less(a, c),
{
    let k1 = choose|k: int|
        #![trigger a[k], b[k]]
        0 <= k < a.len() && k < b.len() && a[k] < b[k] && forall|j: int| 0 <= j < k ==> a[j] == b[j];
    let k2 = choose|k: int|
        #![trigger b[k], c[k]]
        0 <= k < b.len() && k < c.len() && b[k] < c[k] && forall|j: int| 0 <= j < k ==> b[j] == c[j];
    let k = if k1 < k2 { k1 } else { k2 };
    assert(a[k] < c[k]);
    assert(forall|j: int| 0 <= j < k ==> a[j] == c[j]);
}

/// The byte order of keys is asymmetric.
pub proof fn lemma_key_less_asymmetric(a: Seq<u8>, b: Seq<u8>)
    requires
        key_less(a, b),
    ensures
        !key_less(b, a),
{
    let k1 = choose|k: int|
        #![trigger a[k], b[k]]
        0 <= k < a.len() && k < b.len() && a[k] < b[k] && forall|j: int| 0 <= j < k ==> a[j] == b[j];
    if key_less(b, a) {
        let k2 = choose|k: int|
            #![trigger b[k], a[k]]
            0 <= k < b.len() && k < a.len() && b[k] < a[k] && forall|j: int| 0 <= j < k ==> b[j] == a[j];
        if k1 < k2 {
            assert(b[k1] == a[k1]);
        } else if k2 < k1 {
            assert(a[k2] == b[k2]);
        }
    }
}

/// Three-way byte-wise comparison of two keys: negative when `a` sorts
/// first, zero when they are equal, positive when `b` sorts first.
pub fn compare_keys(a: &[u8; 32], b: &[u8; 32]) -> (r: i8)
    ensures
        r < 0 <==> key_less(a@, b@),
        r == 0 <==> a@ == b@,
        r > 0 <==> key_less(b@, a@),
{
    let mut i: usize = 0;
    while i < 32
        invariant
            i <= 32,
            forall|j: int| 0 <= j < i ==> a@[j] == b@[j],
        decreases 32 - i,
    {
        if a[i] != b[i] {
            proof {
                assert(a@[i as int] != b@[i as int]);
                assert(a@ != b@);
            }
            if a[i] < b[i] {
                proof {
                    assert(a@[i as int] < b@[i as int]);
                    assert(key_less(a@, b@));
                    lemma_key_less_asymmetric(a@, b@);
                }
                return -1;
            } else {
                proof {
                    assert(b@[i as int] < a@[i as int]);
                    assert(key_less(b@, a@));
                    lemma_key_less_asymmetric(b@, a@);
                }
                return 1;
            }
        }
        i = i + 1;
    }
    assert(a@ =~= b@);
    proof {
        if key_less(a@, b@) {
            let k = choose|k: int|
                #![trigger a@[k], b@[k]]
                0 <= k < a@.len() && k < b@.len() && a@[k] < b@[k] && forall|j: int| 0 <= j < k ==> a@[j] == b@[j];
            assert(a@[k] == b@[k]);
        }
        if key_less(b@, a@) {
            let k = choose|k: int|
                #![trigger b@[k], a@[k]]
                0 <= k < b@.len() && k < a@.len() && b@[k] < a@[k] && forall|j: int| 0 <= j < k ==> b@[j] == a@[j];
            assert(a@[k] == b@[k]);
        }
    }
    0
}

/// Byte-wise equality of two 32-byte values.
pub fn keys_equal(a: &[u8; 32], b: &[u8; 32]) -> (r: bool)
    ensures
        r == (a@ == b@),
{
    let mut i: usize = 0;
    while i < 32
        invariant
            i <= 32,
            forall|j: int| 0 <= j < i ==> a@[j] == b@[j],
        decreases 32 - i,
    {
        if a[i] != b[i] {
            return false;
        }
        i = i + 1;
    }
    assert(a@ =~= b@);
    true
}

} // verus!
