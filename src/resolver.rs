use vstd::prelude::*;

use crate::error::AdW3Error;
use crate::state::{
    compare_keys, key_less, keys_equal, lemma_key_less_asymmetric, lemma_key_less_transitive, AdRequest,
    AdResponse, AuctionCompleted, AuctionRecord, Key, ProtocolConfig, RequestStatus, ResponseStatus,
};

verus! {

/// One account handed to the resolver as a possible bid: its address, and the
/// bid it holds, or `None` when it could not be read as a bid.
#[derive(Clone, Copy, Debug)]
pub struct BidEntry {
    pub key: Key,
    pub response: Option<AdResponse>,
}

/// The winner of an auction, as an index into the bid list, and what it pays.
#[derive(Clone, Copy, Debug, PartialEq, Eq, Structural)]
pub struct Resolution {
    pub winner: usize,
    pub clearing_price: u64,
}

/// `e` holds a bid on `request_id` at or above the floor price.
pub open spec fn valid_entry(e: BidEntry, request_id: Seq<u8>, floor_price: u64) -> bool {
    &&& e.response matches Some(r)
    &&& r.request_id@ == request_id
    &&& r.bid_amount >= floor_price
}

/// Entry `i` of `bids` exists and is valid.
pub open spec fn valid_at(bids: Seq<BidEntry>, i: int, request_id: Seq<u8>, floor_price: u64) -> bool {
    0 <= i < bids.len() && valid_entry(bids[i], request_id, floor_price)
}

/// Entry `i` is valid and is the first valid entry of its account: an
/// account listed more than once takes part in the auction once.
pub open spec fn counted_at(bids: Seq<BidEntry>, i: int, request_id: Seq<u8>, floor_price: u64) -> bool {
    &&& valid_at(bids, i, request_id, floor_price)
    &&& forall|j: int| #![trigger valid_at(bids, j, request_id, floor_price)]
        0 <= j < i && valid_at(bids, j, request_id, floor_price) ==> bids[j].key@ != bids[i].key@
}

pub open spec fn amount_at(bids: Seq<BidEntry>, i: int) -> u64 {
    match bids[i].response {
        Some(r) => r.bid_amount,
        None => 0,
    }
}

pub open spec fn created_at(bids: Seq<BidEntry>, i: int) -> i64 {
    match bids[i].response {
        Some(r) => r.created_at,
        None => 0,
    }
}

/// The ranking of bids: higher amount first; on equal amounts the earlier
/// submission; on equal times the account whose key sorts first. It does
/// not depend on the order of the list.
pub open spec fn outranks(bids: Seq<BidEntry>, i: int, j: int) -> bool {
    ||| amount_at(bids, i) > amount_at(bids, j)
    ||| amount_at(bids, i) == amount_at(bids, j) && created_at(bids, i) < created_at(bids, j)
    ||| amount_at(bids, i) == amount_at(bids, j) && created_at(bids, i) == created_at(bids, j) && key_less(
        bids[i].key@,
        bids[j].key@,
    )
}

/// The ranking is transitive.
pub proof fn lemma_outranks_transitive(bids: Seq<BidEntry>, i: int, j: int, k: int)
    requires
        outranks(bids, i, j),
        outranks(bids, j, k),
    ensures
        outranks(bids, i, k),
{
    if amount_at(bids, i) == amount_at(bids, j) && amount_at(bids, j) == amount_at(bids, k) && created_at(bids, i)
        == created_at(bids, j) && created_at(bids, j) == created_at(bids, k) {
        lemma_key_less_transitive(bids[i].key@, bids[j].key@, bids[k].key@);
    }
}

/// The ranking is asymmetric.
pub proof fn lemma_outranks_asymmetric(bids: Seq<BidEntry>, i: int, j: int)
    requires
        outranks(bids, i, j),
    ensures
        !outranks(bids, j, i),
{
    if amount_at(bids, i) == amount_at(bids, j) && created_at(bids, i) == created_at(bids, j) {
        lemma_key_less_asymmetric(bids[i].key@, bids[j].key@);
    }
}

/// No entry is a valid bid.
pub open spec fn no_valid_bid(bids: Seq<BidEntry>, request_id: Seq<u8>, floor_price: u64) -> bool {
    forall|j: int| !valid_at(bids, j, request_id, floor_price)
}

/// Entry `w` is counted and outranks every other counted entry.
pub open spec fn is_winner(bids: Seq<BidEntry>, w: int, request_id: Seq<u8>, floor_price: u64) -> bool {
    &&& counted_at(bids, w, request_id, floor_price)
    &&& forall|j: int| #![trigger counted_at(bids, j, request_id, floor_price)]
        counted_at(bids, j, request_id, floor_price) && j != w ==> outranks(bids, w, j)
}

/// Some counted entry other than `w` exists: a second bidding account.
pub open spec fn has_rival(bids: Seq<BidEntry>, w: int, request_id: Seq<u8>, floor_price: u64) -> bool {
    exists|j: int| counted_at(bids, j, request_id, floor_price) && j != w
}

/// `p` is the highest amount among the counted entries other than `w`.
pub open spec fn is_runner_up_amount(
    bids: Seq<BidEntry>,
    w: int,
    request_id: Seq<u8>,
    floor_price: u64,
    p: u64,
) -> bool {
    &&& exists|j: int| counted_at(bids, j, request_id, floor_price) && j != w && amount_at(bids, j) == p
    &&& forall|j: int| #![trigger counted_at(bids, j, request_id, floor_price)]
        counted_at(bids, j, request_id, floor_price) && j != w ==> amount_at(bids, j) <= p
}

/// The second-price rule: the runner-up's amount when there is a runner-up,
/// else the floor price.
pub open spec fn is_clearing_price(
    bids: Seq<BidEntry>,
    w: int,
    request_id: Seq<u8>,
    floor_price: u64,
    p: u64,
) -> bool {
    if has_rival(bids, w, request_id, floor_price) {
        is_runner_up_amount(bids, w, request_id, floor_price, p)
    } else {
        p == floor_price
    }
}

/// What resolving `bids` must yield.
pub open spec fn resolves_to(
    bids: Seq<BidEntry>,
    request_id: Seq<u8>,
    floor_price: u64,
    r: Option<Resolution>,
) -> bool {
    match r {
        None => no_valid_bid(bids, request_id, floor_price),
        Some(res) => {
            &&& is_winner(bids, res.winner as int, request_id, floor_price)
            &&& is_clearing_price(bids, res.winner as int, request_id, floor_price, res.clearing_price)
        },
    }
}

/// Resolution is deterministic: the same bids, request and floor price admit
/// exactly one outcome.
pub proof fn lemma_resolution_unique(
    bids: Seq<BidEntry>,
    request_id: Seq<u8>,
    floor_price: u64,
    r1: Option<Resolution>,
    r2: Option<Resolution>,
)
    requires
        resolves_to(bids, request_id, floor_price, r1),
        resolves_to(bids, request_id, floor_price, r2),
    ensures
        r1 == r2,
{
    match (r1, r2) {
        (Some(a), Some(b)) => {
            let wa = a.winner as int;
            let wb = b.winner as int;
            if wa != wb {
                assert(counted_at(bids, wb, request_id, floor_price));
                assert(outranks(bids, wa, wb));
                lemma_outranks_asymmetric(bids, wa, wb);
            }
            if has_rival(bids, wa, request_id, floor_price) {
                let ja = choose|j: int|
                    counted_at(bids, j, request_id, floor_price) && j != wa && amount_at(bids, j) == a.clearing_price;
                let jb = choose|j: int|
                    counted_at(bids, j, request_id, floor_price) && j != wb && amount_at(bids, j) == b.clearing_price;
                assert(amount_at(bids, jb) <= a.clearing_price);
                assert(amount_at(bids, ja) <= b.clearing_price);
            }
        },
        (Some(a), None) => {
            assert(valid_at(bids, a.winner as int, request_id, floor_price));
        },
        (None, Some(b)) => {
            assert(valid_at(bids, b.winner as int, request_id, floor_price));
        },
        (None, None) => {},
    }
}

/// With two or more bidding accounts the clearing price is the highest
/// amount among the accounts other than the winner, and it never exceeds
/// the winning amount.
pub proof fn lemma_second_price(bids: Seq<BidEntry>, request_id: Seq<u8>, floor_price: u64, res: Resolution)
    requires
        resolves_to(bids, request_id, floor_price, Some(res)),
        has_rival(bids, res.winner as int, request_id, floor_price),
    ensures
        is_runner_up_amount(bids, res.winner as int, request_id, floor_price, res.clearing_price),
        res.clearing_price <= amount_at(bids, res.winner as int),
        floor_price <= res.clearing_price,
{
    let w = res.winner as int;
    let j = choose|j: int|
        counted_at(bids, j, request_id, floor_price) && j != w && amount_at(bids, j) == res.clearing_price;
    assert(outranks(bids, w, j));
}

/// With exactly one bidding account the clearing price is the floor price.
pub proof fn lemma_single_bid_pays_floor(bids: Seq<BidEntry>, request_id: Seq<u8>, floor_price: u64, res: Resolution)
    requires
        resolves_to(bids, request_id, floor_price, Some(res)),
        !has_rival(bids, res.winner as int, request_id, floor_price),
    ensures
        res.clearing_price == floor_price,
{
}

/// Tests whether `entry` is a bid on `request_id` at or above `floor_price`.
pub fn is_valid_bid(entry: &BidEntry, request_id: &[u8; 32], floor_price: u64) -> (r: bool)
    ensures
        r == valid_entry(*entry, request_id@, floor_price),
{
    match &entry.response {
        Some(resp) => keys_equal(&resp.request_id, request_id) && resp.bid_amount >= floor_price,
        None => false,
    }
}

/// Tests whether entry `i` is valid and the first valid entry of its account.
pub fn is_counted_bid(bids: &Vec<BidEntry>, i: usize, request_id: &[u8; 32], floor_price: u64) -> (r: bool)
    requires
        i < bids@.len(),
    ensures
        r == counted_at(bids@, i as int, request_id@, floor_price),
{
    if !is_valid_bid(&bids[i], request_id, floor_price) {
        return false;
    }
    let mut j: usize = 0;
    while j < i
        invariant
            i < bids@.len(),
            j <= i,
            valid_at(bids@, i as int, request_id@, floor_price),
            forall|k: int| #![trigger valid_at(bids@, k, request_id@, floor_price)]
                0 <= k < j && valid_at(bids@, k, request_id@, floor_price) ==> bids@[k].key@ != bids@[i as int].key@,
        decreases i - j,
    {
        if is_valid_bid(&bids[j], request_id, floor_price) && keys_equal(&bids[j].key, &bids[i].key) {
            proof {
                assert(valid_at(bids@, j as int, request_id@, floor_price));
            }
            return false;
        }
        j = j + 1;
    }
    true
}

/// Second-price auction over `bids`: drops entries that are not bids on
/// `request_id`, are below `floor_price` or repeat an account already seen,
/// picks the highest-ranked of the rest, and charges it the next highest
/// amount (the floor price when it is alone).
pub fn resolve_bids(bids: &Vec<BidEntry>, request_id: &[u8; 32], floor_price: u64) -> (r: Option<Resolution>)
    ensures
        resolves_to(bids@, request_id@, floor_price, r),
        r matches Some(res) ==> {
            &&& floor_price <= res.clearing_price
            &&& res.clearing_price <= amount_at(bids@, res.winner as int)
        },
{
    let ghost s = bids@;
    let ghost rid = request_id@;
    let mut best: Option<usize> = None;
    let mut second: Option<u64> = None;
    let mut i: usize = 0;
    while i < bids.len()
        invariant
            s == bids@,
            rid == request_id@,
            i <= s.len(),
            best matches None ==> forall|j: int| 0 <= j < i ==> !valid_at(s, j, rid, floor_price),
            best matches None ==> second matches None,
            best matches Some(b) ==> {
                &&& b < i
                &&& counted_at(s, b as int, rid, floor_price)
                &&& forall|j: int| #![trigger counted_at(s, j, rid, floor_price)]
                    0 <= j < i && counted_at(s, j, rid, floor_price) && j != b ==> outranks(s, b as int, j)
            },
            best is Some && second is None ==> forall|j: int|
                #![trigger counted_at(s, j, rid, floor_price)]
                0 <= j < i && counted_at(s, j, rid, floor_price) ==> j == best->0,
            best is Some && second is Some ==> {
                &&& exists|j: int|
                    0 <= j < i && counted_at(s, j, rid, floor_price) && j != best->0 && amount_at(s, j) == second->0
                &&& forall|j: int| #![trigger counted_at(s, j, rid, floor_price)]
                    0 <= j < i && counted_at(s, j, rid, floor_price) && j != best->0 ==> amount_at(s, j) <= second->0
            },
        decreases s.len() - i,
    {
        let valid = is_valid_bid(&bids[i], request_id, floor_price);
        let counted = is_counted_bid(bids, i, request_id, floor_price);
        if valid && counted {
            let entry = &bids[i];
            let amount = match &entry.response {
                Some(resp) => resp.bid_amount,
                None => 0,
            };
            let created = match &entry.response {
                Some(resp) => resp.created_at,
                None => 0,
            };
            match best {
                None => {
                    best = Some(i);
                },
                Some(b) => {
                    let best_amount = match &bids[b].response {
                        Some(resp) => resp.bid_amount,
                        None => 0,
                    };
                    let best_created = match &bids[b].response {
                        Some(resp) => resp.created_at,
                        None => 0,
                    };
                    let key_order = compare_keys(&entry.key, &bids[b].key);
                    let beats_best = amount > best_amount || (amount == best_amount && created < best_created) || (
                    amount == best_amount && created == best_created && key_order < 0);
                    if beats_best {
                        proof {
                            assert(outranks(s, i as int, b as int));
                            assert forall|j: int| #![trigger counted_at(s, j, rid, floor_price)]
                                0 <= j < i + 1 && counted_at(s, j, rid, floor_price) && j != i implies outranks(
                                s,
                                i as int,
                                j,
                            ) by {
                                if j != b {
                                    lemma_outranks_transitive(s, i as int, b as int, j);
                                }
                            }
                        }
                        best = Some(i);
                        second = Some(best_amount);
                    } else {
                        proof {
                            assert(valid_at(s, b as int, rid, floor_price));
                            assert(s[b as int].key@ != s[i as int].key@);
                            assert(outranks(s, b as int, i as int));
                        }
                        second = match second {
                            None => Some(amount),
                            Some(p) => if amount > p { Some(amount) } else { Some(p) },
                        };
                    }
                },
            }
        }
        i = i + 1;
    }
    match best {
        None => None,
        Some(b) => {
            let price = match second {
                None => floor_price,
                Some(p) => p,
            };
            // A runner-up is itself valid, so it never sits below the floor.
            let price = if price < floor_price { floor_price } else { price };
            Some(Resolution { winner: b, clearing_price: price })
        },
    }
}

/// The accounts that resolving one auction reads and writes.
#[derive(Clone, Copy, Debug)]
pub struct ProcessAuction {
    pub authority: Key,
    pub ad_request: AdRequest,
    pub publisher: Key,
    pub adw_config: ProtocolConfig,
    pub auction_record: AuctionRecord,
}

/// What a successful resolution did.
#[derive(Clone, Debug)]
pub struct AuctionOutcome {
    /// Positions of the bids that took part, one per bidding account,
    /// ascending; each of them now has the status `Win` or `Loss`. These
    /// accounts, the request and the record are committed to the primary
    /// context together, as one batch.
    pub valid_bids: Vec<usize>,
    pub resolution: Option<Resolution>,
    /// The event to announce, present when there is a winner.
    pub completed: Option<AuctionCompleted>,
}

/// Why resolving would be refused, in the order the checks are made.
pub open spec fn process_auction_error(ctx: ProcessAuction, ad_request_id: Seq<u8>, now: i64) -> Option<AdW3Error> {
    if ctx.ad_request.status == RequestStatus::Completed {
        Some(AdW3Error::RequestClosed)
    } else if ctx.adw_config.is_paused {
        Some(AdW3Error::ProtocolPaused)
    } else if now >= ctx.ad_request.expiration {
        Some(AdW3Error::RequestExpired)
    } else if ctx.ad_request.request_id@ != ad_request_id || ctx.auction_record.ad_request_id@ != ad_request_id {
        Some(AdW3Error::InvalidAuctionId)
    } else if ctx.auction_record.is_settled {
        Some(AdW3Error::AuctionAlreadySettled)
    } else {
        None
    }
}

/// `e` with the status of its bid replaced.
pub open spec fn with_status(e: BidEntry, status: ResponseStatus) -> BidEntry {
    match e.response {
        Some(resp) => BidEntry { response: Some(AdResponse { status, ..resp }), ..e },
        None => e,
    }
}

/// Entry `i` after the auction: a valid bid is marked `Win` if it is the
/// winning account and `Loss` otherwise; every other entry is left alone.
pub open spec fn marked_entry(
    bids: Seq<BidEntry>,
    i: int,
    request_id: Seq<u8>,
    floor_price: u64,
    resolution: Option<Resolution>,
) -> BidEntry {
    if valid_at(bids, i, request_id, floor_price) {
        if resolution matches Some(res) && bids[i].key@ == bids[res.winner as int].key@ {
            with_status(bids[i], ResponseStatus::Win)
        } else {
            with_status(bids[i], ResponseStatus::Loss)
        }
    } else {
        bids[i]
    }
}

/// `idx` lists, ascending, exactly the positions of the counted bids: one
/// position per bidding account.
pub open spec fn lists_counted_bids(idx: Seq<usize>, bids: Seq<BidEntry>, request_id: Seq<u8>, floor_price: u64) -> bool {
    &&& forall|k: int| 0 <= k < idx.len() ==> counted_at(bids, #[trigger] idx[k] as int, request_id, floor_price)
    &&& forall|k1: int, k2: int| 0 <= k1 < k2 < idx.len() ==> idx[k1] < idx[k2]
    &&& forall|j: int| #![trigger counted_at(bids, j, request_id, floor_price)]
        counted_at(bids, j, request_id, floor_price) ==> exists|k: int| 0 <= k < idx.len() && idx[k] == j
}

/// Positions of the counted bids, ascending.
pub fn counted_bids(bids: &Vec<BidEntry>, request_id: &[u8; 32], floor_price: u64) -> (idx: Vec<usize>)
    ensures
        lists_counted_bids(idx@, bids@, request_id@, floor_price),
{
    let ghost s = bids@;
    let ghost rid = request_id@;
    let mut idx: Vec<usize> = Vec::new();
    let mut i: usize = 0;
    while i < bids.len()
        invariant
            s == bids@,
            rid == request_id@,
            i <= s.len(),
            forall|k: int| 0 <= k < idx@.len() ==> #[trigger] idx@[k] < i,
            forall|k: int| 0 <= k < idx@.len() ==> counted_at(s, #[trigger] idx@[k] as int, rid, floor_price),
            forall|k1: int, k2: int| 0 <= k1 < k2 < idx@.len() ==> idx@[k1] < idx@[k2],
            forall|j: int| #![trigger counted_at(s, j, rid, floor_price)]
                0 <= j < i && counted_at(s, j, rid, floor_price) ==> exists|k: int| 0 <= k < idx@.len() && idx@[k] == j,
        decreases s.len() - i,
    {
        if is_counted_bid(bids, i, request_id, floor_price) {
            let ghost listed = idx@;
            idx.push(i);
            proof {
                let n = idx@.len() - 1;
                assert(idx@[n as int] == i);
                assert forall|j: int| #![trigger counted_at(s, j, rid, floor_price)]
                    0 <= j < i + 1 && counted_at(s, j, rid, floor_price) implies exists|k: int|
                        0 <= k < idx@.len() && idx@[k] == j by {
                    if j == i {
                        assert(idx@[n as int] == j);
                    } else {
                        let k0 = choose|k: int| 0 <= k < listed.len() && listed[k] == j;
                        assert(idx@[k0] == j);
                    }
                }
            }
        }
        i = i + 1;
    }
    idx
}

/// Resolves the auction of `ctx.ad_request` over the accounts in
/// `remaining_accounts`, at time `now`.
///
/// The request must be neither completed nor expired, the protocol not
/// paused, the ids consistent and the record unsettled; otherwise nothing
/// changes. On success the request is completed; when a winner exists, the
/// record holds the winner, its bid and the clearing price, and every valid
/// bid is marked `Win` or `Loss`. Entries below the floor or for another
/// request keep their status.
pub fn process_auction(
    ctx: &mut ProcessAuction,
    remaining_accounts: &mut Vec<BidEntry>,
    ad_request_id: [u8; 32],
    now: i64,
) -> (r: Result<AuctionOutcome, AdW3Error>)
    ensures
        match r {
            Err(e) => {
                &&& process_auction_error(*old(ctx), ad_request_id@, now) == Some(e)
                &&& *final(ctx) == *old(ctx)
                &&& final(remaining_accounts)@ == old(remaining_accounts)@
            },
            Ok(out) => {
                let bids = old(remaining_accounts)@;
                let floor = old(ctx).ad_request.floor_price;
                &&& process_auction_error(*old(ctx), ad_request_id@, now) is None
                &&& resolves_to(bids, ad_request_id@, floor, out.resolution)
                &&& final(ctx).ad_request == (AdRequest { status: RequestStatus::Completed, ..old(ctx).ad_request })
                &&& final(ctx).authority == old(ctx).authority
                &&& final(ctx).publisher == old(ctx).publisher
                &&& final(ctx).adw_config == old(ctx).adw_config
                &&& final(remaining_accounts)@.len() == bids.len()
                &&& forall|i: int| 0 <= i < bids.len() ==> #[trigger] final(remaining_accounts)@[i]
                    == marked_entry(bids, i, ad_request_id@, floor, out.resolution)
                &&& lists_counted_bids(out.valid_bids@, bids, ad_request_id@, floor)
                &&& match out.resolution {
                    None => {
                        &&& final(ctx).auction_record == old(ctx).auction_record
                        &&& out.completed is None
                    },
                    Some(res) => {
                        let dsp = bids[res.winner as int].response->0.dsp;
                        &&& final(ctx).auction_record == (AuctionRecord {
                            winning_dsp: Some(dsp),
                            bid_amount: amount_at(bids, res.winner as int),
                            clearing_price: res.clearing_price,
                            timestamp: now,
                            ..old(ctx).auction_record
                        })
                        &&& out.completed == Some(AuctionCompleted {
                            request_id: ad_request_id,
                            publisher: old(ctx).publisher,
                            winning_dsp: dsp,
                            clearing_price: res.clearing_price,
                            timestamp: now,
                        })
                    },
                }
            },
        },
        old(ctx).ad_request.status == RequestStatus::Completed ==> r == Err::<AuctionOutcome, AdW3Error>(
            AdW3Error::RequestClosed,
        ),
        r is Ok ==> final(ctx).ad_request.status == RequestStatus::Completed,
{
    if ctx.ad_request.status == RequestStatus::Completed {
        return Err(AdW3Error::RequestClosed);
    }
    if ctx.adw_config.is_paused {
        return Err(AdW3Error::ProtocolPaused);
    }
    if now >= ctx.ad_request.expiration {
        return Err(AdW3Error::RequestExpired);
    }
    if !keys_equal(&ctx.ad_request.request_id, &ad_request_id) || !keys_equal(
        &ctx.auction_record.ad_request_id,
        &ad_request_id,
    ) {
        return Err(AdW3Error::InvalidAuctionId);
    }
    if ctx.auction_record.is_settled {
        return Err(AdW3Error::AuctionAlreadySettled);
    }
    ctx.ad_request.status = RequestStatus::AuctionInProgress;
    let floor_price = ctx.ad_request.floor_price;
    let ghost bids = remaining_accounts@;
    let resolution = resolve_bids(remaining_accounts, &ad_request_id, floor_price);
    let ghost rid = ad_request_id@;
    let valid_bids = counted_bids(remaining_accounts, &ad_request_id, floor_price);
    let mut completed: Option<AuctionCompleted> = None;
    if let Some(res) = resolution {
        proof {
            assert(valid_at(bids, res.winner as int, rid, floor_price));
        }
        let winner_key = remaining_accounts[res.winner].key;
        let winner_resp = remaining_accounts[res.winner].response.unwrap();
        ctx.auction_record.winning_dsp = Some(winner_resp.dsp);
        ctx.auction_record.bid_amount = winner_resp.bid_amount;
        ctx.auction_record.clearing_price = res.clearing_price;
        ctx.auction_record.timestamp = now;
        completed = Some(AuctionCompleted {
            request_id: ad_request_id,
            publisher: ctx.publisher,
            winning_dsp: winner_resp.dsp,
            clearing_price: res.clearing_price,
            timestamp: now,
        });
        let mut i: usize = 0;
        while i < remaining_accounts.len()
            invariant
                bids.len() == remaining_accounts@.len(),
                rid == ad_request_id@,
                resolution == Some(res),
                res.winner < bids.len(),
                winner_key@ == bids[res.winner as int].key@,
                i <= bids.len(),
                forall|j: int| 0 <= j < i ==> #[trigger] remaining_accounts@[j]
                    == marked_entry(bids, j, rid, floor_price, resolution),
                forall|j: int| i <= j < bids.len() ==> #[trigger] remaining_accounts@[j] == bids[j],
            decreases bids.len() - i,
        {
            let entry = remaining_accounts[i];
            if is_valid_bid(&entry, &ad_request_id, floor_price) {
                let status = if keys_equal(&entry.key, &winner_key) {
                    ResponseStatus::Win
                } else {
                    ResponseStatus::Loss
                };
                let marked = match entry.response {
                    Some(resp) => BidEntry { response: Some(AdResponse { status, ..resp }), ..entry },
                    None => entry,
                };
                remaining_accounts[i] = marked;
            }
            i = i + 1;
        }
    }
    ctx.ad_request.status = RequestStatus::Completed;
    Ok(AuctionOutcome { valid_bids, resolution, completed })
}


/// A request that an auction has completed refuses every further
/// resolution with a state error, whatever the bids, ids or time.
pub proof fn lemma_completed_request_refuses(ctx: ProcessAuction, ad_request_id: Seq<u8>, now: i64)
    requires
        ctx.ad_request.status == RequestStatus::Completed,
    ensures
        process_auction_error(ctx, ad_request_id, now) == Some(AdW3Error::RequestClosed),
{
}

} // verus!
