use base64::Engine;
use nft_stream::auction::{find_buyer_address_from_tx, list_auction};
use nft_stream::classify::{AuctionAction, TokenAction};
use nft_stream::handlers::{create_nft_or_update_owner, trait_row, HandlerError};
use nft_stream::lookup::{
    AttributeParams, CollectionMetadata, ContractInfo, FetchError, Lookups, NftInfo, NftMetadata, PalletAuction,
    PalletListing, Price, Supply,
};
use nft_stream::classify::token_actions;
use nft_stream::json::Json;
use nft_stream::message::{read_message, Attribute, Event};
use nft_stream::pipeline::{auction_needs, process_auction_event, process_token_event, token_needs};
use nft_stream::store::{NftActivityKind, Store, StoreError, StreamContext};

fn event(kind: &str, attributes: &[(&str, &str)]) -> Event {
    Event {
        kind: kind.to_string(),
        attributes: attributes
            .iter()
            .map(|(k, v)| Attribute { key: k.to_string(), value: v.to_string() })
            .collect(),
    }
}

fn chain_down() -> FetchError {
    FetchError::ChainQuery("unreachable".to_string())
}

fn lookups() -> Lookups {
    Lookups {
        nft_info: Ok(NftInfo { token_uri: "ipfs://7".to_string(), royalty: Some("5".to_string()) }),
        nft_metadata: Ok(NftMetadata {
            name: Some("Seven".to_string()),
            description: Some("seventh".to_string()),
            image: Some("ipfs://7.png".to_string()),
            attributes: vec![AttributeParams {
                trait_type: Some("eyes".to_string()),
                kind: None,
                value: Some("blue".to_string()),
                display_type: None,
            }],
        }),
        collection_metadata: Ok(CollectionMetadata {
            description: Some("a collection".to_string()),
            pfp: Some("pfp.png".to_string()),
            banner: None,
            socials: None,
        }),
        supply: Ok(Supply { count: 100 }),
        contract_info: Ok(ContractInfo { name: "Abc".to_string(), symbol: "ABC".to_string() }),
        listing: Ok(PalletListing {
            nft_address: "sei1abc".to_string(),
            token_id: "7".to_string(),
            owner: "sei1seller".to_string(),
            auction: Some(PalletAuction {
                created_at: 1_700_000_000,
                expiration_time: 1_800_000_000,
                prices: vec![Price { amount: "12.5".to_string(), denom: "usei".to_string() }],
            }),
        }),
        tx_events: Ok(vec![
            event("coin_received", &[("recipient", "sei1fee")]),
            event("wasm", &[("action", "transfer_nft"), ("recipient", "sei1buyer")]),
        ]),
    }
}

fn mint(owner: &str) -> Event {
    event("wasm", &[("action", "mint"), ("_contract_address", "sei1abc"), ("token_id", "7"), ("owner", owner)])
}

fn auction(kind: &str) -> Event {
    event(kind, &[("collection_address", "sei1abc"), ("token_id", "7")])
}

#[test]
fn mint_creates_collection_nft_and_trace() {
    let mut store = Store::new();
    let tx = "H1".to_string();
    let r = process_token_event(&mut store, &tx, &mint("sei1xyz"), TokenAction::Mint, &lookups(), 10);
    assert!(r.is_ok());
    assert_eq!(store.collections.len(), 1);
    assert_eq!(store.collections[0].address, "sei1abc");
    assert_eq!(store.collections[0].symbol, "ABC");
    assert_eq!(store.collections[0].supply, 100);
    assert_eq!(store.collections[0].royalty, Some("5".to_string()));
    assert_eq!(store.nfts.len(), 1);
    let nft = &store.nfts[0];
    assert_eq!(nft.id, 1);
    assert_eq!((nft.token_address.as_str(), nft.token_id.as_str()), ("sei1abc", "7"));
    assert_eq!(nft.owner, Some("sei1xyz".to_string()));
    assert_eq!(nft.token_uri, "ipfs://7");
    assert_eq!(nft.traits.len(), 1);
    assert_eq!(nft.traits[0].attribute, "eyes");
    assert_eq!(store.traces.len(), 1);
    assert_eq!(store.traces[0].action, "mint");
    assert!(!store.traces[0].is_failure);
    assert_eq!(store.traces[0].message, None);
    assert_eq!(store.traces[0].context, StreamContext::Cw721);
    assert_eq!(store.traces[0].tx_hash, "H1");
}

#[test]
fn upsert_twice_keeps_one_row_with_latest_owner() {
    let mut store = Store::new();
    let first = create_nft_or_update_owner(&mut store, "sei1abc".to_string(), "7".to_string(), Some("alice".to_string()), &lookups());
    let mut later = lookups();
    later.nft_info = Err(chain_down());
    let second = create_nft_or_update_owner(&mut store, "sei1abc".to_string(), "7".to_string(), Some("bob".to_string()), &later);
    assert_eq!(first.ok(), Some(1));
    assert_eq!(second.ok(), Some(1));
    assert_eq!(store.nfts.len(), 1);
    assert_eq!(store.nfts[0].owner, Some("bob".to_string()));
    assert_eq!(store.collections.len(), 1);
}

#[test]
fn upsert_without_owner_keeps_owner() {
    let mut store = Store::new();
    create_nft_or_update_owner(&mut store, "sei1abc".to_string(), "7".to_string(), Some("alice".to_string()), &lookups()).unwrap();
    create_nft_or_update_owner(&mut store, "sei1abc".to_string(), "7".to_string(), None, &lookups()).unwrap();
    assert_eq!(store.nfts[0].owner, Some("alice".to_string()));
}

#[test]
fn transfer_and_send_set_recipient() {
    let mut store = Store::new();
    let tx = "H".to_string();
    process_token_event(&mut store, &tx, &mint("a"), TokenAction::Mint, &lookups(), 1).unwrap();
    let transfer = event("wasm", &[("action", "transfer_nft"), ("_contract_address", "sei1abc"), ("token_id", "7"), ("recipient", "b")]);
    process_token_event(&mut store, &tx, &transfer, TokenAction::TransferNft, &lookups(), 2).unwrap();
    assert_eq!(store.nfts[0].owner, Some("b".to_string()));
    let send = event("wasm", &[("action", "send_nft"), ("_contract_address", "sei1abc"), ("token_id", "7"), ("recipient", "c")]);
    process_token_event(&mut store, &tx, &send, TokenAction::SendNft, &lookups(), 3).unwrap();
    assert_eq!(store.nfts[0].owner, Some("c".to_string()));
    assert_eq!(store.nfts.len(), 1);
    assert_eq!(store.traces.len(), 3);
}

#[test]
fn missing_attribute_is_traced_as_failure() {
    let mut store = Store::new();
    let tx = "H".to_string();
    let e = event("wasm", &[("action", "transfer_nft"), ("_contract_address", "sei1abc"), ("token_id", "7")]);
    let r = process_token_event(&mut store, &tx, &e, TokenAction::TransferNft, &lookups(), 1);
    assert!(matches!(&r, Err(HandlerError::MissingAttribute(k)) if k == "recipient"));
    assert_eq!(store.nfts.len(), 0);
    assert_eq!(store.traces.len(), 1);
    assert!(store.traces[0].is_failure);
    assert_eq!(store.traces[0].message, Some("missing attribute recipient".to_string()));
    assert_eq!(store.traces[0].event.attributes.len(), 3);
}

#[test]
fn chain_failure_is_traced_and_writes_nothing() {
    let mut store = Store::new();
    let mut l = lookups();
    l.supply = Err(chain_down());
    let r = process_token_event(&mut store, &"H".to_string(), &mint("a"), TokenAction::Mint, &l, 1);
    assert!(matches!(r, Err(HandlerError::Fetch(FetchError::ChainQuery(_)))));
    assert_eq!(store.nfts.len(), 0);
    assert_eq!(store.collections.len(), 0);
    assert!(store.traces[0].is_failure);
}

#[test]
fn metadata_failure_is_reported() {
    let mut store = Store::new();
    let mut l = lookups();
    l.nft_metadata = Err(FetchError::MetadataFetch("404".to_string()));
    let r = process_token_event(&mut store, &"H".to_string(), &mint("a"), TokenAction::Mint, &l, 1);
    assert!(matches!(r, Err(HandlerError::Fetch(FetchError::MetadataFetch(_)))));
    assert_eq!(store.traces[0].message, Some("metadata fetch failed: 404".to_string()));
}

#[test]
fn create_auction_lists_with_activity() {
    let mut store = Store::new();
    let r = process_auction_event(&mut store, &"HL".to_string(), &auction("wasm-create_auction"), AuctionAction::CreateAuction, &lookups(), 5);
    assert!(r.is_ok());
    assert_eq!(store.nfts[0].owner, None);
    assert_eq!(store.listings.len(), 1);
    let l = &store.listings[0];
    assert_eq!((l.nft_id, l.price.as_str(), l.seller.as_str(), l.denom.as_str()), (1, "12.5", "sei1seller", "usei"));
    assert_eq!(l.created_at, 1_700_000_000);
    assert_eq!(l.expiration_time, 1_800_000_000);
    assert_eq!(store.activities.len(), 1);
    assert_eq!(store.activities[0].kind, NftActivityKind::List);
    assert_eq!(store.activities[0].seller, Some("sei1seller".to_string()));
    assert_eq!(store.traces[0].action, "wasm-create_auction");
    assert_eq!(store.traces[0].context, StreamContext::Pallet);
}

#[test]
fn create_auction_without_live_auction_writes_no_listing() {
    let mut store = Store::new();
    let mut l = lookups();
    if let Ok(pl) = &mut l.listing {
        pl.auction = None;
    }
    let r = process_auction_event(&mut store, &"H".to_string(), &auction("wasm-create_auction"), AuctionAction::CreateAuction, &l, 5);
    assert!(r.is_ok());
    assert_eq!(store.listings.len(), 0);
    assert_eq!(store.nfts.len(), 1);
}

#[test]
fn create_auction_without_price_fails() {
    let mut store = Store::new();
    let mut l = lookups();
    if let Ok(pl) = &mut l.listing {
        pl.auction.as_mut().unwrap().prices.clear();
    }
    let r = process_auction_event(&mut store, &"H".to_string(), &auction("wasm-create_auction"), AuctionAction::CreateAuction, &l, 5);
    assert!(matches!(r, Err(HandlerError::MissingPrice)));
    assert!(store.traces[0].is_failure);
}

#[test]
fn second_listing_replaces_first() {
    let mut store = Store::new();
    let e = auction("wasm-create_auction");
    process_auction_event(&mut store, &"H1".to_string(), &e, AuctionAction::CreateAuction, &lookups(), 5).unwrap();
    let mut l = lookups();
    if let Ok(pl) = &mut l.listing {
        pl.auction.as_mut().unwrap().prices[0].amount = "20".to_string();
    }
    let r = process_auction_event(&mut store, &"H2".to_string(), &e, AuctionAction::CreateAuction, &l, 6);
    assert!(r.is_ok());
    assert_eq!(store.listings.len(), 1);
    assert_eq!(store.listings[0].price, "20");
    assert_eq!(store.listings[0].tx_hash, "H2");
    assert_eq!(store.activities.len(), 2);
    assert_eq!(store.activities[1].kind, NftActivityKind::List);
    assert_eq!(store.traces.len(), 2);
    assert!(!store.traces[1].is_failure);
}

#[test]
fn create_auction_with_price_that_is_not_decimal_fails() {
    let mut store = Store::new();
    let mut l = lookups();
    if let Ok(pl) = &mut l.listing {
        pl.auction.as_mut().unwrap().prices[0].amount = "abc".to_string();
    }
    let r = process_auction_event(&mut store, &"H".to_string(), &auction("wasm-create_auction"), AuctionAction::CreateAuction, &l, 5);
    assert!(matches!(r, Err(HandlerError::MalformedPrice)));
    assert_eq!(store.listings.len(), 0);
    assert_eq!(store.activities.len(), 0);
    assert_eq!(store.nfts.len(), 1);
    assert!(store.traces[0].is_failure);
    assert_eq!(store.traces[0].message, Some("the auction's price is not a decimal".to_string()));
}

#[test]
fn list_auction_normalises_decimal_price() {
    let mut store = Store::new();
    let auction = PalletAuction { created_at: 3, expiration_time: 4, prices: vec![] };
    let r = list_auction(&mut store, 1, "sei1abc".to_string(), &"H".to_string(), &"s".to_string(), &auction, Some("7.50".to_string()));
    assert!(r.is_ok());
    assert_eq!(store.listings[0].price, "7.50");
    assert_eq!(store.listings[0].created_at, 3);
    let r = list_auction(&mut store, 1, "sei1abc".to_string(), &"H".to_string(), &"s".to_string(), &auction, None);
    assert!(matches!(r, Err(HandlerError::MalformedPrice)));
    assert_eq!(store.listings.len(), 1);
}

#[test]
fn decimal_price_text_comes_from_the_decimal() {
    let mut store = Store::new();
    let mut l = lookups();
    if let Ok(pl) = &mut l.listing {
        pl.auction.as_mut().unwrap().prices[0].amount = "+012.500".to_string();
    }
    process_auction_event(&mut store, &"H".to_string(), &auction("wasm-create_auction"), AuctionAction::CreateAuction, &l, 5).unwrap();
    assert_eq!(store.listings[0].price, "12.500");
}

#[test]
fn buy_now_closes_listing_and_records_sale() {
    let mut store = Store::new();
    process_auction_event(&mut store, &"HL".to_string(), &auction("wasm-create_auction"), AuctionAction::CreateAuction, &lookups(), 5).unwrap();
    let r = process_auction_event(&mut store, &"HB".to_string(), &auction("wasm-buy_now"), AuctionAction::BuyNow, &lookups(), 9);
    assert!(r.is_ok());
    assert_eq!(store.listings.len(), 0);
    assert_eq!(store.activities.len(), 2);
    let sale = &store.activities[1];
    assert_eq!(sale.kind, NftActivityKind::Sale);
    assert_eq!(sale.buyer, Some("sei1buyer".to_string()));
    assert_eq!(sale.seller, Some("sei1seller".to_string()));
    assert_eq!(sale.price, "12.5");
    assert_eq!(sale.date, 9);
    assert_eq!(store.sales.len(), 1);
    assert_eq!(store.sales[0].volume, "12.5");
    assert_eq!(store.sales[0].tx_hash, "HB");
    assert_eq!(store.sales[0].collection_address, "sei1abc");
}

#[test]
fn buy_now_without_buyer_changes_nothing() {
    let mut store = Store::new();
    process_auction_event(&mut store, &"HL".to_string(), &auction("wasm-create_auction"), AuctionAction::CreateAuction, &lookups(), 5).unwrap();
    let mut l = lookups();
    l.tx_events = Ok(vec![event("wasm", &[("action", "buy_now")])]);
    let r = process_auction_event(&mut store, &"HB".to_string(), &auction("wasm-buy_now"), AuctionAction::BuyNow, &l, 9);
    assert!(matches!(r, Err(HandlerError::MissingBuyer)));
    assert_eq!(store.listings.len(), 1);
    assert_eq!(store.activities.len(), 1);
    assert_eq!(store.sales.len(), 0);
    assert!(store.traces[1].is_failure);
}

#[test]
fn buy_now_with_failed_transaction_lookup_changes_nothing() {
    let mut store = Store::new();
    process_auction_event(&mut store, &"HL".to_string(), &auction("wasm-create_auction"), AuctionAction::CreateAuction, &lookups(), 5).unwrap();
    let mut l = lookups();
    l.tx_events = Err(chain_down());
    let r = process_auction_event(&mut store, &"HB".to_string(), &auction("wasm-buy_now"), AuctionAction::BuyNow, &l, 9);
    assert!(matches!(r, Err(HandlerError::Fetch(_))));
    assert_eq!(store.listings.len(), 1);
    assert_eq!(store.activities.len(), 1);
    assert_eq!(store.sales.len(), 0);
}

#[test]
fn buy_now_without_listing_is_a_no_op() {
    let mut store = Store::new();
    let r = process_auction_event(&mut store, &"HB".to_string(), &auction("wasm-buy_now"), AuctionAction::BuyNow, &lookups(), 9);
    assert!(r.is_ok());
    assert_eq!(store.activities.len(), 0);
    assert_eq!(store.sales.len(), 0);
    assert!(!store.traces[0].is_failure);
}

#[test]
fn cancel_without_listing_is_a_traced_success() {
    let mut store = Store::new();
    let r = process_auction_event(&mut store, &"HC".to_string(), &auction("wasm-cancel_auction"), AuctionAction::CancelAuction, &lookups(), 9);
    assert!(r.is_ok());
    assert_eq!(store.listings.len(), 0);
    assert_eq!(store.activities.len(), 0);
    assert_eq!(store.traces.len(), 1);
    assert!(!store.traces[0].is_failure);
    assert_eq!(store.traces[0].action, "wasm-cancel_auction");
}

#[test]
fn cancel_closes_listing_with_delist_activity() {
    let mut store = Store::new();
    process_auction_event(&mut store, &"HL".to_string(), &auction("wasm-create_auction"), AuctionAction::CreateAuction, &lookups(), 5).unwrap();
    process_auction_event(&mut store, &"HC".to_string(), &auction("wasm-cancel_auction"), AuctionAction::CancelAuction, &lookups(), 8).unwrap();
    assert_eq!(store.listings.len(), 0);
    assert_eq!(store.activities.len(), 2);
    assert_eq!(store.activities[1].kind, NftActivityKind::Delist);
    assert_eq!(store.activities[1].buyer, None);
    assert_eq!(store.activities[1].date, 8);
    assert_eq!(store.sales.len(), 0);
}

#[test]
fn auction_missing_attribute() {
    let mut store = Store::new();
    let e = event("wasm-buy_now", &[("token_id", "7")]);
    let r = process_auction_event(&mut store, &"H".to_string(), &e, AuctionAction::BuyNow, &lookups(), 1);
    assert!(matches!(&r, Err(HandlerError::MissingAttribute(k)) if k == "collection_address"));
    assert!(store.traces[0].is_failure);
}

#[test]
fn buyer_is_recipient_of_first_contract_event() {
    let events = vec![
        event("transfer", &[("recipient", "x")]),
        event("wasm", &[("action", "buy")]),
        event("wasm", &[("recipient", "y")]),
        event("wasm", &[("recipient", "z")]),
    ];
    assert_eq!(find_buyer_address_from_tx(&events), Some("y".to_string()));
    assert_eq!(find_buyer_address_from_tx(&vec![]), None);
}

#[test]
fn trait_defaults() {
    let t = trait_row(&AttributeParams { trait_type: None, kind: Some("bg".to_string()), value: None, display_type: Some("n".to_string()) });
    assert_eq!(t.attribute, "bg");
    assert_eq!(t.value, "unknown");
    assert_eq!(t.display_type, Some("n".to_string()));
    let t = trait_row(&AttributeParams { trait_type: None, kind: None, value: Some("v".to_string()), display_type: None });
    assert_eq!(t.attribute, "unknown");
}

#[test]
fn needs_follow_the_store() {
    let mut store = Store::new();
    let n = token_needs(&store, &mint("a"), TokenAction::Mint);
    assert!(n.nft && n.collection && !n.listing && !n.tx_events);
    process_token_event(&mut store, &"H".to_string(), &mint("a"), TokenAction::Mint, &lookups(), 1).unwrap();
    let n = token_needs(&store, &mint("b"), TokenAction::Mint);
    assert!(!n.nft && !n.collection);
    let n = auction_needs(&store, &auction("wasm-buy_now"), AuctionAction::BuyNow);
    assert!(!n.nft && !n.tx_events && !n.listing);
    process_auction_event(&mut store, &"HL".to_string(), &auction("wasm-create_auction"), AuctionAction::CreateAuction, &lookups(), 5).unwrap();
    let n = auction_needs(&store, &auction("wasm-buy_now"), AuctionAction::BuyNow);
    assert!(n.tx_events && !n.listing);
    let n = auction_needs(&store, &auction("wasm-create_auction"), AuctionAction::CreateAuction);
    assert!(n.listing);
    let n = token_needs(&store, &event("wasm", &[("action", "mint")]), TokenAction::Mint);
    assert!(!n.nft);
}

fn text(s: &str) -> Json {
    Json::Text(s.to_string())
}

fn object(members: Vec<(&str, Json)>) -> Json {
    Json::Object(members.into_iter().map(|(k, v)| (k.to_string(), v)).collect())
}

fn encoded(s: &str) -> Json {
    text(&base64::engine::general_purpose::STANDARD.encode(s))
}

#[test]
fn mint_event_end_to_end() {
    let attributes = [("action", "mint"), ("_contract_address", "sei1abc"), ("token_id", "7"), ("owner", "sei1xyz")];
    let wasm = object(vec![
        ("type", text("wasm")),
        (
            "attributes",
            Json::Array(attributes.iter().map(|(k, v)| object(vec![("key", encoded(k)), ("value", encoded(v))])).collect()),
        ),
    ]);
    let envelope = object(vec![(
        "result",
        object(vec![
            ("events", object(vec![("tx.hash", Json::Array(vec![text("TXH")]))])),
            (
                "data",
                object(vec![(
                    "value",
                    object(vec![("TxResult", object(vec![("result", object(vec![("events", Json::Array(vec![wasm]))]))]))]),
                )]),
            ),
        ]),
    )]);
    let tx = match read_message("{\"result\":...}", Some(envelope)) {
        Ok(Some(tx)) => tx,
        _ => panic!("expected a transaction"),
    };
    let mut store = Store::new();
    for (i, action) in token_actions(&tx) {
        process_token_event(&mut store, &tx.tx_hash, &tx.events[i], action, &lookups(), 42).unwrap();
    }
    assert_eq!(store.collections.len(), 1);
    assert_eq!(store.collections[0].address, "sei1abc");
    assert_eq!(store.nfts.len(), 1);
    assert_eq!(store.nfts[0].token_address, "sei1abc");
    assert_eq!(store.nfts[0].token_id, "7");
    assert_eq!(store.nfts[0].owner, Some("sei1xyz".to_string()));
    assert_eq!(store.traces.len(), 1);
    assert_eq!(store.traces[0].action, "mint");
    assert!(!store.traces[0].is_failure);
    assert_eq!(store.traces[0].tx_hash, "TXH");
}

#[test]
fn mint_for_known_collection_creates_no_second_collection() {
    let mut store = Store::new();
    let tx = "H".to_string();
    process_token_event(&mut store, &tx, &mint("a"), TokenAction::Mint, &lookups(), 1).unwrap();
    let other = event("wasm", &[("action", "mint"), ("_contract_address", "sei1abc"), ("token_id", "8"), ("owner", "b")]);
    let mut l = lookups();
    l.contract_info = Err(chain_down());
    process_token_event(&mut store, &tx, &other, TokenAction::Mint, &l, 2).unwrap();
    assert_eq!(store.collections.len(), 1);
    assert_eq!(store.nfts.len(), 2);
    assert_eq!(store.nfts[1].id, 2);
}

#[test]
fn error_descriptions() {
    assert_eq!(HandlerError::MissingBuyer.describe(), "the sale names no buyer");
    assert_eq!(HandlerError::Store(StoreError::NoListing).describe(), "no active listing");
    assert_eq!(
        HandlerError::Fetch(FetchError::ChainQuery("x".to_string())).describe(),
        "chain query failed: x"
    );
}
