//! The handlers of the auction dialect: listing on auction creation, sale on
//! buy-now, delisting on cancellation. Each listing change is one write
//! session.
use crate::classify::CONTRACT_EVENT;
use crate::handlers::{
    auction_missing, create_nft_or_update_owner, opt_view, market_unchanged, nft_number, nfts_unchanged, nfts_upserted,
    reports_missing, upsert_error, value_of, HandlerError, DENOM,
};
use crate::json::same_text;
use crate::lookup::{Lookups, PalletAuction, PalletListing};
use crate::message::{find_attribute, first_value, Event};
use crate::store::{
    listing_exists, removed_at, without_listing, NftActivityKind, ActivityRow, ListingRow, Marketplace, SaleRow, Store,
};
use vstd::prelude::*;

verus! {

/// The buyer named by a transaction's events: the `recipient` of the first
/// contract-level event that has one.
pub open spec fn buyer_in(events: Seq<Event>) -> Option<Seq<char>>
    decreases events.len(),
{
    if events.len() == 0 {
        None
    } else if events[0].kind@ == CONTRACT_EVENT@ && first_value(events[0].attributes@, "recipient"@) is Some {
        first_value(events[0].attributes@, "recipient"@)
    } else {
        buyer_in(events.drop_first())
    }
}

/// Finds the buyer of a sale among the events of its transaction.
pub fn find_buyer_address_from_tx(events: &Vec<Event>) -> (r: Option<String>)
    ensures
        r is Some <==> buyer_in(events@) is Some,
        r is Some ==> buyer_in(events@) == Some(r->0@),
{
    let mut i: usize = 0;
    assert(events@.subrange(0, events@.len() as int) =~= events@);
    while i < events.len()
        invariant
            0 <= i <= events@.len(),
            buyer_in(events@) == buyer_in(events@.subrange(i as int, events@.len() as int)),
        decreases events@.len() - i,
    {
        assert(events@.subrange(i as int, events@.len() as int).drop_first()
            =~= events@.subrange(i as int + 1, events@.len() as int));
        assert(events@.subrange(i as int, events@.len() as int)[0] == events@[i as int]);
        if same_text(&events[i].kind, CONTRACT_EVENT) {
            let found = find_attribute(&events[i], "recipient");
            if found.is_some() {
                return found;
            }
        }
        i = i + 1;
    }
    None
}

/// The active listing of the NFT numbered `nft_id`.
pub open spec fn listing_of(listings: Seq<ListingRow>, nft_id: u64) -> ListingRow {
    listings[choose|i: int| 0 <= i < listings.len() && #[trigger] listings[i].nft_id == nft_id]
}

/// The decimal that a price text reads as, in its normal text form; `None`
/// where the text is not a decimal.
pub uninterp spec fn decimal_text(amount: Seq<char>) -> Option<Seq<char>>;

/// Relies on rust_decimal's `Decimal::from_str`, and its `Display` for the
/// text of the result: the decimal the text reads as, or an error where it
/// reads as none.
#[verifier::external_body]
fn parse_decimal(amount: &str) -> (r: Option<String>)
    ensures
        r is Some <==> decimal_text(amount@) is Some,
        r is Some ==> decimal_text(amount@) == Some(r->0@),
{
    match <rust_decimal::Decimal as std::str::FromStr>::from_str(amount) {
        Ok(d) => Some(d.to_string()),
        Err(_) => None,
    }
}

/// `l` is the listing, at price `price`, that a live auction of `owner` gives
/// the NFT.
pub open spec fn listing_from(
    l: ListingRow,
    nft_id: int,
    address: Seq<char>,
    tx_hash: Seq<char>,
    owner: String,
    a: PalletAuction,
    price: Seq<char>,
) -> bool {
    &&& l.nft_id == nft_id
    &&& l.collection_address@ == address
    &&& l.seller == owner
    &&& l.price@ == price
    &&& l.denom@ == DENOM@
    &&& l.created_at == a.created_at as i64
    &&& l.expiration_time == a.expiration_time
    &&& l.tx_hash@ == tx_hash
    &&& l.marketplace == Marketplace::Pallet
}

/// `v` is the activity of a listing `l`, dated at its creation.
pub open spec fn list_activity(v: ActivityRow, l: ListingRow) -> bool {
    &&& v.nft_id == l.nft_id
    &&& v.kind == NftActivityKind::List
    &&& v.marketplace == Marketplace::Pallet
    &&& v.price == l.price
    &&& v.denom@ == DENOM@
    &&& v.buyer is None
    &&& v.seller == Some(l.seller)
    &&& v.tx_hash@ == l.tx_hash@
    &&& v.date == l.created_at
}

/// `after` holds the rows of `before` and one more, `row`, at the end.
pub open spec fn appended<T>(before: Seq<T>, after: Seq<T>) -> bool {
    after.len() == before.len() + 1 && after.drop_last() == before
}

/// The listing tables after listing the NFT for a live auction at a parsed
/// price: nothing is written where the price is not a decimal; otherwise the
/// NFT's old listing, if any, gives way to the new one, with its activity.
pub open spec fn listed_at(
    before: Store,
    after: Store,
    nft_id: int,
    address: Seq<char>,
    tx_hash: Seq<char>,
    owner: String,
    a: PalletAuction,
    price: Option<Seq<char>>,
    r: Result<(), HandlerError>,
) -> bool {
    match price {
        None => r == Err::<(), HandlerError>(HandlerError::MalformedPrice) && market_unchanged(before, after),
        Some(p) => {
            &&& r is Ok
            &&& after.sales@ == before.sales@
            &&& after.listings@.len() >= 1
            &&& without_listing(before.listings@, after.listings@.drop_last(), nft_id as u64)
            &&& appended(before.activities@, after.activities@)
            &&& listing_from(after.listings@.last(), nft_id, address, tx_hash, owner, a, p)
            &&& list_activity(after.activities@.last(), after.listings@.last())
        },
    }
}

/// Lists an NFT for a live auction of `owner`, given the auction's first
/// price as parsed: in one write session the NFT's old listing, if any, is
/// replaced by the new one and its "list" activity, dated at the auction's
/// creation. A price that is not a decimal fails the action, writing nothing.
pub fn list_auction(
    store: &mut Store,
    nft_id: u64,
    address: String,
    tx_hash: &String,
    owner: &String,
    auction: &PalletAuction,
    price: Option<String>,
) -> (r: Result<(), HandlerError>)
    requires
        old(store).wf(),
    ensures
        final(store).wf(),
        nfts_unchanged(*old(store), *final(store)),
        final(store).traces@ == old(store).traces@,
        listed_at(
            *old(store),
            *final(store),
            nft_id as int,
            address@,
            tx_hash@,
            *owner,
            *auction,
            match price {
                Some(p) => Some(p@),
                None => None,
            },
            r,
        ),
{
    let price = match price {
        Some(p) => p,
        None => return Err(HandlerError::MalformedPrice),
    };
    let created_at = auction.created_at as i64;
    let listing = ListingRow {
        nft_id,
        collection_address: address,
        seller: owner.clone(),
        price: price.clone(),
        denom: DENOM.to_owned(),
        created_at,
        expiration_time: auction.expiration_time,
        tx_hash: tx_hash.clone(),
        marketplace: Marketplace::Pallet,
    };
    let activity = ActivityRow {
        nft_id,
        kind: NftActivityKind::List,
        marketplace: Marketplace::Pallet,
        price,
        denom: DENOM.to_owned(),
        buyer: None,
        seller: Some(owner.clone()),
        tx_hash: tx_hash.clone(),
        date: created_at,
    };
    let ghost mid = *store;
    store.list(listing, activity);
    proof {
        assert(final(store).activities@.drop_last() =~= mid.activities@);
    }
    Ok(())
}

/// The listing tables after a live auction is looked up for the NFT.
pub open spec fn listed(before: Store, after: Store, nft_id: int, address: Seq<char>, tx_hash: Seq<char>, lookups: Lookups, r: Result<(), HandlerError>) -> bool {
    match lookups.listing {
        Err(e) => r == Err::<(), HandlerError>(HandlerError::Fetch(e)) && market_unchanged(before, after),
        Ok(pl) => match pl.auction {
            None => r is Ok && market_unchanged(before, after),
            Some(a) => if a.prices@.len() == 0 {
                r == Err::<(), HandlerError>(HandlerError::MissingPrice) && market_unchanged(before, after)
            } else {
                listed_at(before, after, nft_id, address, tx_hash, pl.owner, a, decimal_text(a.prices@[0].amount@), r)
            },
        },
    }
}

/// The effect and result of handling an auction creation.
pub open spec fn create_auction_handled(before: Store, after: Store, event: Event, tx_hash: Seq<char>, lookups: Lookups, r: Result<(), HandlerError>) -> bool {
    match auction_missing(event) {
        Some(k) => reports_missing(r, k) && nfts_unchanged(before, after) && market_unchanged(before, after),
        None => {
            let address = value_of(event, "collection_address"@);
            let token_id = value_of(event, "token_id"@);
            &&& nfts_upserted(before, after, address, token_id, None, lookups)
            &&& match upsert_error(before, address, token_id, lookups) {
                Some(e) => r == Err::<(), HandlerError>(e) && market_unchanged(before, after),
                None => listed(before, after, nft_number(before.nfts@, address, token_id), address, tx_hash, lookups, r),
            }
        },
    }
}

/// Handles an auction creation: upserts the NFT, then, where the auction
/// contract reports a live auction, lists the NFT at the auction's first price
/// in one write session with its "list" activity.
pub fn handle_create_auction(store: &mut Store, event: &Event, tx_hash: &String, lookups: &Lookups) -> (r: Result<(), HandlerError>)
    requires
        old(store).wf(),
    ensures
        final(store).wf(),
        final(store).traces@ == old(store).traces@,
        create_auction_handled(*old(store), *final(store), *event, tx_hash@, *lookups, r),
{
    let token_address = match find_attribute(event, "collection_address") {
        Some(v) => v,
        None => return Err(HandlerError::MissingAttribute("collection_address".to_owned())),
    };
    let token_id = match find_attribute(event, "token_id") {
        Some(v) => v,
        None => return Err(HandlerError::MissingAttribute("token_id".to_owned())),
    };
    let address = token_address.clone();
    let nft_id = match create_nft_or_update_owner(store, token_address, token_id, None, lookups) {
        Ok(id) => id,
        Err(e) => return Err(e),
    };
    let pallet_listing: &PalletListing = match &lookups.listing {
        Ok(l) => l,
        Err(e) => return Err(HandlerError::Fetch(crate::handlers::copy_fetch_error(e))),
    };
    let auction: &PalletAuction = match &pallet_listing.auction {
        Some(a) => a,
        None => return Ok(()),
    };
    if auction.prices.len() == 0 {
        return Err(HandlerError::MissingPrice);
    }
    let price = parse_decimal(auction.prices[0].amount.as_str());
    list_auction(store, nft_id, address, tx_hash, &pallet_listing.owner, auction, price)
}

/// The listing of the NFT numbered `nft_id` is gone: `after` is `before`
/// without it.
pub open spec fn listing_closed(before: Seq<ListingRow>, after: Seq<ListingRow>, nft_id: u64) -> bool {
    &&& !listing_exists(after, nft_id)
    &&& exists|i: int| 0 <= i < before.len() && before[i].nft_id == nft_id && #[trigger] removed_at(before, after, i)
}

/// `v` is the activity of the sale of listing `l` to `buyer`.
pub open spec fn sale_activity(v: ActivityRow, l: ListingRow, buyer: Seq<char>, tx_hash: Seq<char>, now: i64) -> bool {
    &&& v.nft_id == l.nft_id
    &&& v.kind == NftActivityKind::Sale
    &&& v.marketplace == Marketplace::Pallet
    &&& v.price == l.price
    &&& v.denom@ == DENOM@
    &&& opt_view(v.buyer) == Some(buyer)
    &&& v.seller == Some(l.seller)
    &&& v.tx_hash@ == tx_hash
    &&& v.date == now
}

/// `s` is the volume record of the sale of listing `l` to `buyer`.
pub open spec fn sale_record(s: SaleRow, l: ListingRow, address: Seq<char>, buyer: Seq<char>, tx_hash: Seq<char>, now: i64) -> bool {
    &&& s.tx_hash@ == tx_hash
    &&& s.volume == l.price
    &&& s.collection_address@ == address
    &&& s.buyer@ == buyer
    &&& s.seller == l.seller
    &&& s.date == now
    &&& s.marketplace == Marketplace::Pallet
}

/// `v` is the activity of the withdrawal of listing `l`.
pub open spec fn delist_activity(v: ActivityRow, l: ListingRow, tx_hash: Seq<char>, now: i64) -> bool {
    &&& v.nft_id == l.nft_id
    &&& v.kind == NftActivityKind::Delist
    &&& v.marketplace == Marketplace::Pallet
    &&& v.price == l.price
    &&& v.denom@ == DENOM@
    &&& v.buyer is None
    &&& v.seller == Some(l.seller)
    &&& v.tx_hash@ == tx_hash
    &&& v.date == now
}

/// The listing tables after a sale of the NFT numbered `nft_id`.
pub open spec fn sold(before: Store, after: Store, nft_id: u64, address: Seq<char>, tx_hash: Seq<char>, lookups: Lookups, now: i64, r: Result<(), HandlerError>) -> bool {
    if !listing_exists(before.listings@, nft_id) {
        r is Ok && market_unchanged(before, after)
    } else {
        match lookups.tx_events {
            Err(e) => r == Err::<(), HandlerError>(HandlerError::Fetch(e)) && market_unchanged(before, after),
            Ok(events) => match buyer_in(events@) {
                None => r == Err::<(), HandlerError>(HandlerError::MissingBuyer) && market_unchanged(before, after),
                Some(buyer) => {
                    let l = listing_of(before.listings@, nft_id);
                    &&& r is Ok
                    &&& listing_closed(before.listings@, after.listings@, nft_id)
                    &&& appended(before.activities@, after.activities@)
                    &&& appended(before.sales@, after.sales@)
                    &&& sale_activity(after.activities@.last(), l, buyer, tx_hash, now)
                    &&& sale_record(after.sales@.last(), l, address, buyer, tx_hash, now)
                },
            },
        }
    }
}

/// The listing tables after a cancellation for the NFT numbered `nft_id`.
pub open spec fn delisted(before: Store, after: Store, nft_id: u64, tx_hash: Seq<char>, now: i64, r: Result<(), HandlerError>) -> bool {
    if !listing_exists(before.listings@, nft_id) {
        r is Ok && market_unchanged(before, after)
    } else {
        &&& r is Ok
        &&& listing_closed(before.listings@, after.listings@, nft_id)
        &&& appended(before.activities@, after.activities@)
        &&& after.sales@ == before.sales@
        &&& delist_activity(after.activities@.last(), listing_of(before.listings@, nft_id), tx_hash, now)
    }
}

/// The effect and result of handling a buy-now.
pub open spec fn buy_now_handled(before: Store, after: Store, event: Event, tx_hash: Seq<char>, lookups: Lookups, now: i64, r: Result<(), HandlerError>) -> bool {
    match auction_missing(event) {
        Some(k) => reports_missing(r, k) && nfts_unchanged(before, after) && market_unchanged(before, after),
        None => {
            let address = value_of(event, "collection_address"@);
            let token_id = value_of(event, "token_id"@);
            &&& nfts_upserted(before, after, address, token_id, None, lookups)
            &&& match upsert_error(before, address, token_id, lookups) {
                Some(e) => r == Err::<(), HandlerError>(e) && market_unchanged(before, after),
                None => sold(before, after, nft_number(before.nfts@, address, token_id) as u64, address, tx_hash, lookups, now, r),
            }
        },
    }
}

/// The effect and result of handling a cancellation.
pub open spec fn cancel_handled(before: Store, after: Store, event: Event, tx_hash: Seq<char>, lookups: Lookups, now: i64, r: Result<(), HandlerError>) -> bool {
    match auction_missing(event) {
        Some(k) => reports_missing(r, k) && nfts_unchanged(before, after) && market_unchanged(before, after),
        None => {
            let address = value_of(event, "collection_address"@);
            let token_id = value_of(event, "token_id"@);
            &&& nfts_upserted(before, after, address, token_id, None, lookups)
            &&& match upsert_error(before, address, token_id, lookups) {
                Some(e) => r == Err::<(), HandlerError>(e) && market_unchanged(before, after),
                None => delisted(before, after, nft_number(before.nfts@, address, token_id) as u64, tx_hash, now, r),
            }
        },
    }
}

/// The position of the active listing of an NFT, which is the one listing
/// that `listing_of` names.
fn locate_listing(store: &Store, nft_id: u64) -> (r: Option<usize>)
    requires
        store.wf(),
    ensures
        r matches Some(i) ==> i < store.listings@.len() && listing_exists(store.listings@, nft_id)
            && store.listings@[i as int] == listing_of(store.listings@, nft_id),
        r is None ==> !listing_exists(store.listings@, nft_id),
{
    let found = store.find_listing(nft_id);
    proof {
        if let Some(i) = found {
            assert(store.listings@[i as int].nft_id == nft_id);
            let j = choose|j: int| 0 <= j < store.listings@.len() && #[trigger] store.listings@[j].nft_id == nft_id;
            if j != i as int {
                assert(store.listings@[j].nft_id != store.listings@[i as int].nft_id);
            }
        }
    }
    found
}

/// Handles a buy-now: upserts the NFT; where it is listed, finds the buyer in
/// the sale's transaction and, in one write session, removes the listing and
/// records the sale activity and the volume record.
pub fn handle_buy_now(store: &mut Store, event: &Event, tx_hash: &String, lookups: &Lookups, now: i64) -> (r: Result<(), HandlerError>)
    requires
        old(store).wf(),
    ensures
        final(store).wf(),
        final(store).traces@ == old(store).traces@,
        buy_now_handled(*old(store), *final(store), *event, tx_hash@, *lookups, now, r),
{
    let token_address = match find_attribute(event, "collection_address") {
        Some(v) => v,
        None => return Err(HandlerError::MissingAttribute("collection_address".to_owned())),
    };
    let token_id = match find_attribute(event, "token_id") {
        Some(v) => v,
        None => return Err(HandlerError::MissingAttribute("token_id".to_owned())),
    };
    let address = token_address.clone();
    let nft_id = match create_nft_or_update_owner(store, token_address, token_id, None, lookups) {
        Ok(id) => id,
        Err(e) => return Err(e),
    };
    let index = match locate_listing(store, nft_id) {
        Some(i) => i,
        None => return Ok(()),
    };
    let events: &Vec<Event> = match &lookups.tx_events {
        Ok(events) => events,
        Err(e) => return Err(HandlerError::Fetch(crate::handlers::copy_fetch_error(e))),
    };
    let buyer = match find_buyer_address_from_tx(events) {
        Some(b) => b,
        None => return Err(HandlerError::MissingBuyer),
    };
    let price = store.listings[index].price.clone();
    let seller = store.listings[index].seller.clone();
    let activity = ActivityRow {
        nft_id,
        kind: NftActivityKind::Sale,
        marketplace: Marketplace::Pallet,
        price: price.clone(),
        denom: DENOM.to_owned(),
        buyer: Some(buyer.clone()),
        seller: Some(seller.clone()),
        tx_hash: tx_hash.clone(),
        date: now,
    };
    let sale = SaleRow {
        tx_hash: tx_hash.clone(),
        volume: price,
        collection_address: address,
        buyer,
        seller,
        date: now,
        marketplace: Marketplace::Pallet,
    };
    let ghost mid = *store;
    match store.close_listing(nft_id, activity, Some(sale)) {
        Ok(()) => {
            proof {
                assert(final(store).activities@.drop_last() =~= mid.activities@);
                assert(final(store).sales@.drop_last() =~= mid.sales@);
            }
            Ok(())
        },
        Err(e) => Err(HandlerError::Store(e)),
    }
}

/// Handles a cancellation: upserts the NFT; where it is listed, removes the
/// listing and records the "delist" activity in one write session.
pub fn handle_cancel_auction(store: &mut Store, event: &Event, tx_hash: &String, lookups: &Lookups, now: i64) -> (r: Result<(), HandlerError>)
    requires
        old(store).wf(),
    ensures
        final(store).wf(),
        final(store).traces@ == old(store).traces@,
        cancel_handled(*old(store), *final(store), *event, tx_hash@, *lookups, now, r),
{
    let token_address = match find_attribute(event, "collection_address") {
        Some(v) => v,
        None => return Err(HandlerError::MissingAttribute("collection_address".to_owned())),
    };
    let token_id = match find_attribute(event, "token_id") {
        Some(v) => v,
        None => return Err(HandlerError::MissingAttribute("token_id".to_owned())),
    };
    let nft_id = match create_nft_or_update_owner(store, token_address, token_id, None, lookups) {
        Ok(id) => id,
        Err(e) => return Err(e),
    };
    let index = match locate_listing(store, nft_id) {
        Some(i) => i,
        None => return Ok(()),
    };
    let activity = ActivityRow {
        nft_id,
        kind: NftActivityKind::Delist,
        marketplace: Marketplace::Pallet,
        price: store.listings[index].price.clone(),
        denom: DENOM.to_owned(),
        buyer: None,
        seller: Some(store.listings[index].seller.clone()),
        tx_hash: tx_hash.clone(),
        date: now,
    };
    let ghost mid = *store;
    match store.close_listing(nft_id, activity, None) {
        Ok(()) => {
            proof {
                assert(final(store).activities@.drop_last() =~= mid.activities@);
            }
            Ok(())
        },
        Err(e) => Err(HandlerError::Store(e)),
    }
}

/// A buy-now is all or nothing: either the listing is gone and both the sale
/// activity and the volume record are appended, or the listing, activity and
/// volume tables are as they were.
pub proof fn lemma_buy_now_atomic(
    before: Store,
    after: Store,
    event: Event,
    tx_hash: Seq<char>,
    lookups: Lookups,
    now: i64,
    r: Result<(), HandlerError>,
)
    requires
        buy_now_handled(before, after, event, tx_hash, lookups, now, r),
    ensures
        market_unchanged(before, after) || {
            &&& r is Ok
            &&& exists|nft_id: u64| #[trigger] listing_exists(before.listings@, nft_id)
                && listing_closed(before.listings@, after.listings@, nft_id)
            &&& appended(before.activities@, after.activities@)
            &&& after.activities@.last().kind == NftActivityKind::Sale
            &&& appended(before.sales@, after.sales@)
        },
{
}

} // verus!
