use nft_stream::classify::{retrieve_pallet_events, token_actions};
use nft_stream::message::Transaction;
use nft_stream::store::{
    ActivityRow, CollectionRow, CreateNftParams, ListingRow, Marketplace, NftActivityKind, Store, StoreError,
};

fn activity(nft_id: u64, kind: NftActivityKind) -> ActivityRow {
    ActivityRow {
        nft_id,
        kind,
        marketplace: Marketplace::Pallet,
        price: "1".to_string(),
        denom: "usei".to_string(),
        buyer: None,
        seller: Some("s".to_string()),
        tx_hash: "H".to_string(),
        date: 0,
    }
}

fn listing(nft_id: u64) -> ListingRow {
    ListingRow {
        nft_id,
        collection_address: "c".to_string(),
        seller: "s".to_string(),
        price: "1".to_string(),
        denom: "usei".to_string(),
        created_at: 0,
        expiration_time: 0,
        tx_hash: "H".to_string(),
        marketplace: Marketplace::Pallet,
    }
}

fn nft(address: &str, token_id: &str) -> CreateNftParams {
    CreateNftParams {
        token_address: address.to_string(),
        token_id: token_id.to_string(),
        token_uri: "u".to_string(),
        name: None,
        image: None,
        traits: vec![],
        description: None,
        owner_address: None,
    }
}

#[test]
fn empty_transaction_has_no_actions() {
    let tx = Transaction { tx_hash: "H".to_string(), events: vec![] };
    assert!(token_actions(&tx).is_empty());
    assert!(retrieve_pallet_events(&tx).is_empty());
}

#[test]
fn nft_insert_is_conflict_safe() {
    let mut store = Store::new();
    assert_eq!(store.insert_nft_if_absent(nft("a", "1")), Ok(1));
    assert_eq!(store.insert_nft_if_absent(nft("a", "2")), Ok(2));
    assert_eq!(store.insert_nft_if_absent(nft("a", "1")), Ok(1));
    assert_eq!(store.nfts.len(), 2);
    assert_eq!(store.find_nft("a", "2"), Some(1));
    assert_eq!(store.find_nft("b", "1"), None);
}

#[test]
fn collection_insert_is_conflict_safe() {
    let mut store = Store::new();
    let row = |name: &str| CollectionRow {
        address: "c".to_string(),
        name: name.to_string(),
        symbol: "S".to_string(),
        supply: 1,
        description: None,
        image: None,
        banner: None,
        socials: None,
        royalty: None,
    };
    store.insert_collection_if_absent(row("first"));
    store.insert_collection_if_absent(row("second"));
    assert_eq!(store.collections.len(), 1);
    assert_eq!(store.collections[0].name, "first");
    assert!(store.has_collection("c"));
    assert!(!store.has_collection("d"));
}

#[test]
fn closing_a_missing_listing_writes_nothing() {
    let mut store = Store::new();
    assert_eq!(store.close_listing(1, activity(1, NftActivityKind::Delist), None), Err(StoreError::NoListing));
    assert_eq!(store.activities.len(), 0);
}

#[test]
fn listing_session_replaces_old_listing() {
    let mut store = Store::new();
    store.list(listing(1), activity(1, NftActivityKind::List));
    store.list(listing(1), activity(1, NftActivityKind::List));
    assert_eq!(store.listings.len(), 1);
    assert_eq!(store.activities.len(), 2);
    store.list(listing(2), activity(2, NftActivityKind::List));
    assert_eq!(store.find_listing(2), Some(1));
    assert_eq!(store.close_listing(1, activity(1, NftActivityKind::Delist), None), Ok(()));
    assert_eq!(store.listings.len(), 1);
    assert_eq!(store.listings[0].nft_id, 2);
    assert_eq!(store.find_listing(1), None);
}
