//! The domain handlers: idempotent NFT upsert, the listing lifecycle, and the
//! trace of each handled action.
use crate::classify::TokenAction;
use crate::lookup::{AttributeParams, CollectionMetadata, ContractInfo, FetchError, Lookups, NftInfo, NftMetadata, Supply};
use crate::message::{find_attribute, first_value, Event};
use crate::store::{collection_exists, has_key, nft_exists, CollectionRow, CreateNftParams, NftRow, Store, StoreError, TraitRow};
use vstd::prelude::*;
use vstd::string::StringExecFns;

verus! {

/// Why handling one action failed.
#[derive(Debug)]
pub enum HandlerError {
    /// The event lacks an attribute that the action requires.
    MissingAttribute(String),
    /// An outside lookup failed.
    Fetch(FetchError),
    /// The write session was refused.
    Store(StoreError),
    /// The live auction has no price.
    MissingPrice,
    /// The auction's price is not a decimal.
    MalformedPrice,
    /// The sale's transaction names no buyer.
    MissingBuyer,
}

/// The text of an optional string.
pub open spec fn opt_view(o: Option<String>) -> Option<Seq<char>> {
    match o {
        Some(s) => Some(s@),
        None => None,
    }
}

/// A copy of an optional string.
pub fn copy_opt(o: &Option<String>) -> (r: Option<String>)
    ensures
        r == *o,
{
    match o {
        Some(s) => Some(s.clone()),
        None => None,
    }
}

/// The trait name of a metadata trait: its `trait_type`, else its `type`, else
/// `unknown`.
pub open spec fn trait_name(p: AttributeParams) -> Seq<char> {
    match p.trait_type {
        Some(t) => t@,
        None => match p.kind {
            Some(k) => k@,
            None => "unknown"@,
        },
    }
}

/// The value of a metadata trait, `unknown` where it has none.
pub open spec fn trait_value(p: AttributeParams) -> Seq<char> {
    match p.value {
        Some(v) => v@,
        None => "unknown"@,
    }
}

/// `t` is the stored form of the metadata trait `p`.
pub open spec fn trait_from(p: AttributeParams, t: TraitRow) -> bool {
    &&& t.attribute@ == trait_name(p)
    &&& t.value@ == trait_value(p)
    &&& t.display_type == p.display_type
}

/// The stored form of one metadata trait.
pub fn trait_row(p: &AttributeParams) -> (r: TraitRow)
    ensures
        trait_from(*p, r),
{
    let attribute = match &p.trait_type {
        Some(t) => t.clone(),
        None => match &p.kind {
            Some(k) => k.clone(),
            None => "unknown".to_owned(),
        },
    };
    let value = match &p.value {
        Some(v) => v.clone(),
        None => "unknown".to_owned(),
    };
    TraitRow { attribute, display_type: copy_opt(&p.display_type), value }
}

/// The stored forms of the traits of a metadata document, in order.
pub fn trait_rows(attributes: &Vec<AttributeParams>) -> (r: Vec<TraitRow>)
    ensures
        r@.len() == attributes@.len(),
        forall|i: int| 0 <= i < r@.len() ==> #[trigger] trait_from(attributes@[i], r@[i]),
{
    let mut r: Vec<TraitRow> = Vec::new();
    let mut i: usize = 0;
    while i < attributes.len()
        invariant
            0 <= i <= attributes@.len(),
            r@.len() == i,
            forall|k: int| 0 <= k < i ==> #[trigger] trait_from(attributes@[k], r@[k]),
        decreases attributes@.len() - i,
    {
        r.push(trait_row(&attributes[i]));
        i = i + 1;
    }
    r
}

/// A copy of a lookup error.
pub fn copy_fetch_error(e: &FetchError) -> (r: FetchError)
    ensures
        r == *e,
{
    match e {
        FetchError::ChainQuery(m) => FetchError::ChainQuery(m.clone()),
        FetchError::MetadataFetch(m) => FetchError::MetadataFetch(m.clone()),
    }
}

/// The first failed lookup among those that creating a collection needs:
/// metadata, then supply, then contract info.
pub open spec fn collection_error(lookups: Lookups) -> Option<FetchError> {
    match (lookups.collection_metadata, lookups.supply, lookups.contract_info) {
        (Err(e), _, _) => Some(e),
        (Ok(_), Err(e), _) => Some(e),
        (Ok(_), Ok(_), Err(e)) => Some(e),
        _ => None,
    }
}

/// `row` is the collection that the lookups describe for `address`.
pub open spec fn collection_from(row: CollectionRow, address: Seq<char>, royalty: Option<String>, lookups: Lookups) -> bool {
    match (lookups.collection_metadata, lookups.supply, lookups.contract_info) {
        (Ok(m), Ok(s), Ok(c)) => {
            &&& row.address@ == address
            &&& row.name == c.name
            &&& row.symbol == c.symbol
            &&& row.supply == s.count
            &&& row.description == m.description
            &&& row.image == m.pfp
            &&& row.banner == m.banner
            &&& row.socials == m.socials
            &&& row.royalty == royalty
        },
        _ => false,
    }
}

/// Creates the collection at `address` from the lookups, unless it is stored
/// already. A failed lookup aborts, writing nothing.
pub fn create_collection_if_not_exist(store: &mut Store, address: &String, royalty: Option<String>, lookups: &Lookups) -> (r: Result<(), HandlerError>)
    requires
        old(store).wf(),
    ensures
        final(store).wf(),
        final(store).nfts@ == old(store).nfts@,
        market_unchanged(*old(store), *final(store)),
        final(store).traces@ == old(store).traces@,
        collection_exists(old(store).collections@, address@) ==> r is Ok && final(store).collections@ == old(store).collections@,
        !collection_exists(old(store).collections@, address@) ==> match collection_error(*lookups) {
            Some(e) => r == Err::<(), HandlerError>(HandlerError::Fetch(e))
                && final(store).collections@ == old(store).collections@,
            None => r is Ok && final(store).collections@.len() == old(store).collections@.len() + 1
                && final(store).collections@.drop_last() == old(store).collections@
                && collection_from(final(store).collections@.last(), address@, royalty, *lookups),
        },
{
    if store.has_collection(address.as_str()) {
        return Ok(());
    }
    let metadata: &CollectionMetadata = match &lookups.collection_metadata {
        Ok(m) => m,
        Err(e) => return Err(HandlerError::Fetch(copy_fetch_error(e))),
    };
    let supply: &Supply = match &lookups.supply {
        Ok(s) => s,
        Err(e) => return Err(HandlerError::Fetch(copy_fetch_error(e))),
    };
    let info: &ContractInfo = match &lookups.contract_info {
        Ok(c) => c,
        Err(e) => return Err(HandlerError::Fetch(copy_fetch_error(e))),
    };
    let row = CollectionRow {
        address: address.clone(),
        name: info.name.clone(),
        symbol: info.symbol.clone(),
        supply: supply.count,
        description: copy_opt(&metadata.description),
        image: copy_opt(&metadata.pfp),
        banner: copy_opt(&metadata.banner),
        socials: copy_opt(&metadata.socials),
        royalty,
    };
    store.insert_collection_if_absent(row);
    proof {
        assert(final(store).collections@.drop_last() =~= old(store).collections@);
    }
    Ok(())
}

/// The collection table after making sure the collection at `address` exists.
pub open spec fn collection_ensured(
    before: Seq<CollectionRow>,
    after: Seq<CollectionRow>,
    address: Seq<char>,
    royalty: Option<String>,
    lookups: Lookups,
) -> bool {
    if collection_exists(before, address) || collection_error(lookups) is Some {
        after == before
    } else {
        &&& after.len() == before.len() + 1
        &&& after.drop_last() == before
        &&& collection_from(after.last(), address, royalty, lookups)
    }
}

/// Two NFT rows agree on everything but the owner.
pub open spec fn same_but_owner(a: NftRow, b: NftRow) -> bool {
    &&& a.id == b.id
    &&& a.token_address == b.token_address
    &&& a.token_id == b.token_id
    &&& a.token_uri == b.token_uri
    &&& a.name == b.name
    &&& a.description == b.description
    &&& a.image == b.image
    &&& a.traits == b.traits
}

/// The NFT table after applying an owner, where one is given, to the stored
/// NFT `(address, token_id)`.
pub open spec fn owner_applied(
    before: Seq<NftRow>,
    after: Seq<NftRow>,
    address: Seq<char>,
    token_id: Seq<char>,
    owner: Option<Seq<char>>,
) -> bool {
    match owner {
        None => after == before,
        Some(o) => {
            &&& after.len() == before.len()
            &&& forall|i: int| 0 <= i < before.len() ==> if has_key(#[trigger] before[i], address, token_id) {
                same_but_owner(before[i], after[i]) && opt_view(after[i].owner) == Some(o)
            } else {
                after[i] == before[i]
            }
        },
    }
}

/// Why creating the NFT `(address, _)` fails, if it does: the chain's token
/// record, then its metadata document, then the collection's lookups where
/// the collection is new, then the store.
pub open spec fn nft_error(before: Store, address: Seq<char>, lookups: Lookups) -> Option<HandlerError> {
    match (lookups.nft_info, lookups.nft_metadata) {
        (Err(e), _) => Some(HandlerError::Fetch(e)),
        (Ok(_), Err(e)) => Some(HandlerError::Fetch(e)),
        _ => if !collection_exists(before.collections@, address) && collection_error(lookups) is Some {
            Some(HandlerError::Fetch(collection_error(lookups)->0))
        } else if before.nfts@.len() + 1 >= u64::MAX {
            Some(HandlerError::Store(StoreError::Full))
        } else {
            None
        },
    }
}

/// `row` is the NFT numbered `id` that the lookups describe.
pub open spec fn nft_from(
    row: NftRow,
    id: int,
    address: Seq<char>,
    token_id: Seq<char>,
    owner: Option<Seq<char>>,
    lookups: Lookups,
) -> bool {
    match (lookups.nft_info, lookups.nft_metadata) {
        (Ok(info), Ok(meta)) => {
            &&& row.id == id
            &&& has_key(row, address, token_id)
            &&& row.token_uri == info.token_uri
            &&& row.name == meta.name
            &&& row.description == meta.description
            &&& row.image == meta.image
            &&& opt_view(row.owner) == owner
            &&& row.traits@.len() == meta.attributes@.len()
            &&& forall|j: int| 0 <= j < row.traits@.len() ==> #[trigger] trait_from(meta.attributes@[j], row.traits@[j])
        },
        _ => false,
    }
}

/// The NFT and collection tables after the idempotent upsert of
/// `(address, token_id)` with an optional owner.
pub open spec fn nfts_upserted(
    before: Store,
    after: Store,
    address: Seq<char>,
    token_id: Seq<char>,
    owner: Option<Seq<char>>,
    lookups: Lookups,
) -> bool {
    if nft_exists(before.nfts@, address, token_id) {
        &&& after.collections@ == before.collections@
        &&& owner_applied(before.nfts@, after.nfts@, address, token_id, owner)
    } else {
        &&& match (lookups.nft_info, lookups.nft_metadata) {
            (Ok(info), Ok(_)) => collection_ensured(before.collections@, after.collections@, address, info.royalty, lookups),
            _ => after.collections@ == before.collections@,
        }
        &&& match nft_error(before, address, lookups) {
            Some(_) => after.nfts@ == before.nfts@,
            None => {
                &&& after.nfts@.len() == before.nfts@.len() + 1
                &&& after.nfts@.drop_last() == before.nfts@
                &&& nft_from(after.nfts@.last(), before.nfts@.len() + 1 as int, address, token_id, owner, lookups)
            },
        }
    }
}

/// Why the upsert of `(address, token_id)` fails, if it does: only the
/// creation of a new NFT can fail.
pub open spec fn upsert_error(before: Store, address: Seq<char>, token_id: Seq<char>, lookups: Lookups) -> Option<HandlerError> {
    if nft_exists(before.nfts@, address, token_id) {
        None
    } else {
        nft_error(before, address, lookups)
    }
}

/// The number that the NFT `(address, token_id)` has, or gets when it is
/// created.
pub open spec fn nft_number(nfts: Seq<NftRow>, address: Seq<char>, token_id: Seq<char>) -> int {
    if nft_exists(nfts, address, token_id) {
        (choose|i: int| 0 <= i < nfts.len() && #[trigger] has_key(nfts[i], address, token_id)) + 1
    } else {
        nfts.len() + 1 as int
    }
}

/// The tables of the listing lifecycle are as they were.
pub open spec fn market_unchanged(before: Store, after: Store) -> bool {
    &&& after.listings@ == before.listings@
    &&& after.activities@ == before.activities@
    &&& after.sales@ == before.sales@
}

/// Looks up the NFT `(token_address, token_id)`. Where it is stored, sets its
/// owner when one is given and gives its number. Where it is not, builds it
/// from the chain's token record and metadata document, creating its
/// collection first if need be, and stores it with the given owner.
pub fn create_nft_or_update_owner(
    store: &mut Store,
    token_address: String,
    token_id: String,
    owner: Option<String>,
    lookups: &Lookups,
) -> (r: Result<u64, HandlerError>)
    requires
        old(store).wf(),
    ensures
        final(store).wf(),
        nfts_upserted(*old(store), *final(store), token_address@, token_id@, opt_view(owner), *lookups),
        market_unchanged(*old(store), *final(store)),
        final(store).traces@ == old(store).traces@,
        match upsert_error(*old(store), token_address@, token_id@, *lookups) {
            Some(e) => r == Err::<u64, HandlerError>(e),
            None => r == Ok::<u64, HandlerError>(nft_number(old(store).nfts@, token_address@, token_id@) as u64),
        },
        r matches Ok(id) ==> 1 <= id <= final(store).nfts@.len() && has_key(final(store).nfts@[id - 1], token_address@, token_id@),
{
    match store.find_nft(token_address.as_str(), token_id.as_str()) {
        Some(i) => {
            let id = store.nfts[i].id;
            match owner {
                Some(o) => {
                    store.set_owner(i, o);
                    proof {
                        assert forall|k: int| 0 <= k < old(store).nfts@.len() && #[trigger] has_key(old(store).nfts@[k], token_address@, token_id@)
                            implies k == i as int by {
                            if k != i as int {
                                assert(!has_key(old(store).nfts@[k], old(store).nfts@[i as int].token_address@, old(store).nfts@[i as int].token_id@));
                            }
                        }
                    }
                },
                None => {},
            }
            return Ok(id);
        },
        None => {},
    }
    let info: &NftInfo = match &lookups.nft_info {
        Ok(info) => info,
        Err(e) => return Err(HandlerError::Fetch(copy_fetch_error(e))),
    };
    let metadata: &NftMetadata = match &lookups.nft_metadata {
        Ok(m) => m,
        Err(e) => return Err(HandlerError::Fetch(copy_fetch_error(e))),
    };
    match create_collection_if_not_exist(store, &token_address, copy_opt(&info.royalty), lookups) {
        Ok(()) => {},
        Err(e) => return Err(e),
    }
    let traits = trait_rows(&metadata.attributes);
    let inserted = store.insert_nft_if_absent(CreateNftParams {
        token_address,
        token_id,
        token_uri: info.token_uri.clone(),
        name: copy_opt(&metadata.name),
        image: copy_opt(&metadata.image),
        traits,
        description: copy_opt(&metadata.description),
        owner_address: owner,
    });
    match inserted {
        Ok(id) => {
            proof {
                assert(final(store).nfts@.drop_last() =~= old(store).nfts@);
            }
            Ok(id)
        },
        Err(e) => Err(HandlerError::Store(e)),
    }
}

/// After a successful upsert the NFT is stored.
pub proof fn lemma_upserted_exists(
    before: Store,
    after: Store,
    address: Seq<char>,
    token_id: Seq<char>,
    owner: Option<Seq<char>>,
    lookups: Lookups,
)
    requires
        nfts_upserted(before, after, address, token_id, owner, lookups),
        upsert_error(before, address, token_id, lookups) is None,
    ensures
        nft_exists(after.nfts@, address, token_id),
{
    if nft_exists(before.nfts@, address, token_id) {
        let i = choose|i: int| 0 <= i < before.nfts@.len() && #[trigger] has_key(before.nfts@[i], address, token_id);
        assert(has_key(after.nfts@[i], address, token_id));
    } else {
        let last = after.nfts@.len() - 1;
        assert(has_key(after.nfts@[last], address, token_id));
    }
}

/// Upserting one NFT twice, with two owners, where the first upsert succeeds:
/// the second needs no lookup and cannot fail, adds no row, and leaves exactly
/// one row for the NFT, owned by the second owner.
pub proof fn lemma_upsert_idempotent(
    s0: Store,
    s1: Store,
    s2: Store,
    address: Seq<char>,
    token_id: Seq<char>,
    first_owner: Seq<char>,
    second_owner: Seq<char>,
    first_lookups: Lookups,
    second_lookups: Lookups,
)
    requires
        s0.wf(),
        s1.wf(),
        s2.wf(),
        nfts_upserted(s0, s1, address, token_id, Some(first_owner), first_lookups),
        upsert_error(s0, address, token_id, first_lookups) is None,
        nfts_upserted(s1, s2, address, token_id, Some(second_owner), second_lookups),
    ensures
        upsert_error(s1, address, token_id, second_lookups) is None,
        s2.nfts@.len() == s1.nfts@.len(),
        exists|i: int|
            0 <= i < s2.nfts@.len() && #[trigger] has_key(s2.nfts@[i], address, token_id)
                && opt_view(s2.nfts@[i].owner) == Some(second_owner),
        forall|i: int, j: int|
            0 <= i < s2.nfts@.len() && 0 <= j < s2.nfts@.len() && has_key(#[trigger] s2.nfts@[i], address, token_id)
                && has_key(#[trigger] s2.nfts@[j], address, token_id) ==> i == j,
{
    lemma_upserted_exists(s0, s1, address, token_id, Some(first_owner), first_lookups);
    let i = choose|i: int| 0 <= i < s1.nfts@.len() && #[trigger] has_key(s1.nfts@[i], address, token_id);
    assert(has_key(s2.nfts@[i], address, token_id));
    assert forall|a: int, b: int|
        0 <= a < s2.nfts@.len() && 0 <= b < s2.nfts@.len() && has_key(#[trigger] s2.nfts@[a], address, token_id)
            && has_key(#[trigger] s2.nfts@[b], address, token_id) implies a == b by {
        if a != b {
            assert(!has_key(s2.nfts@[a], s2.nfts@[b].token_address@, s2.nfts@[b].token_id@));
        }
    }
}

/// The denomination of the auction contract's prices.
pub const DENOM: &'static str = "usei";

/// The value of the first attribute of an event with the key.
pub open spec fn value_of(event: Event, key: Seq<char>) -> Seq<char> {
    first_value(event.attributes@, key)->0
}

/// The attribute that names the new owner of a token action.
pub open spec fn owner_key(action: TokenAction) -> Seq<char> {
    match action {
        TokenAction::Mint => "owner"@,
        _ => "recipient"@,
    }
}

/// The first attribute, among those a token action requires, that the event
/// lacks.
pub open spec fn token_missing(event: Event, action: TokenAction) -> Option<Seq<char>> {
    if first_value(event.attributes@, "_contract_address"@) is None {
        Some("_contract_address"@)
    } else if first_value(event.attributes@, "token_id"@) is None {
        Some("token_id"@)
    } else if first_value(event.attributes@, owner_key(action)) is None {
        Some(owner_key(action))
    } else {
        None
    }
}

/// The first attribute, among those an auction action requires, that the
/// event lacks.
pub open spec fn auction_missing(event: Event) -> Option<Seq<char>> {
    if first_value(event.attributes@, "collection_address"@) is None {
        Some("collection_address"@)
    } else if first_value(event.attributes@, "token_id"@) is None {
        Some("token_id"@)
    } else {
        None
    }
}

/// `r` reports the missing attribute `key`.
pub open spec fn reports_missing<T>(r: Result<T, HandlerError>, key: Seq<char>) -> bool {
    r matches Err(HandlerError::MissingAttribute(m)) && m@ == key
}

/// The NFT and collection tables are as they were.
pub open spec fn nfts_unchanged(before: Store, after: Store) -> bool {
    &&& after.nfts@ == before.nfts@
    &&& after.collections@ == before.collections@
}

/// The value of a required attribute.
fn required(event: &Event, key: &str) -> (r: Result<String, HandlerError>)
    ensures
        r matches Ok(v) ==> first_value(event.attributes@, key@) == Some(v@),
        r is Err ==> first_value(event.attributes@, key@) is None && reports_missing(r, key@),
{
    match find_attribute(event, key) {
        Some(v) => Ok(v),
        None => Err(HandlerError::MissingAttribute(key.to_owned())),
    }
}

/// The effect and result of handling a token action.
pub open spec fn token_handled(
    before: Store,
    after: Store,
    event: Event,
    action: TokenAction,
    lookups: Lookups,
    r: Result<(), HandlerError>,
) -> bool {
    &&& market_unchanged(before, after)
    &&& match token_missing(event, action) {
        Some(k) => reports_missing(r, k) && nfts_unchanged(before, after),
        None => {
            let address = value_of(event, "_contract_address"@);
            let token_id = value_of(event, "token_id"@);
            &&& nfts_upserted(before, after, address, token_id, Some(value_of(event, owner_key(action))), lookups)
            &&& match upsert_error(before, address, token_id, lookups) {
                Some(e) => r == Err::<(), HandlerError>(e),
                None => r is Ok,
            }
        },
    }
}

/// Handles a mint, transfer or send: upserts the NFT with the new owner
/// (`owner` for a mint, `recipient` otherwise).
pub fn handle_token_action(store: &mut Store, event: &Event, action: TokenAction, lookups: &Lookups) -> (r: Result<(), HandlerError>)
    requires
        old(store).wf(),
    ensures
        final(store).wf(),
        final(store).traces@ == old(store).traces@,
        token_handled(*old(store), *final(store), *event, action, *lookups, r),
{
    let token_address = match required(event, "_contract_address") {
        Ok(v) => v,
        Err(e) => return Err(e),
    };
    let token_id = match required(event, "token_id") {
        Ok(v) => v,
        Err(e) => return Err(e),
    };
    let owner_key: &str = match action {
        TokenAction::Mint => "owner",
        _ => "recipient",
    };
    let owner = match required(event, owner_key) {
        Ok(v) => v,
        Err(e) => return Err(e),
    };
    match create_nft_or_update_owner(store, token_address, token_id, Some(owner), lookups) {
        Ok(_) => Ok(()),
        Err(e) => Err(e),
    }
}

/// A token action handled with success leaves exactly one row for its NFT,
/// owned by the owner that the event names (`owner` for a mint, `recipient`
/// otherwise). The store's row-count limit is part of what success means.
pub proof fn lemma_token_action_owner(
    before: Store,
    after: Store,
    event: Event,
    action: TokenAction,
    lookups: Lookups,
    r: Result<(), HandlerError>,
)
    requires
        before.wf(),
        after.wf(),
        token_handled(before, after, event, action, lookups, r),
        r is Ok,
    ensures
        token_missing(event, action) is None,
        exists|i: int|
            0 <= i < after.nfts@.len() && #[trigger] has_key(
                after.nfts@[i],
                value_of(event, "_contract_address"@),
                value_of(event, "token_id"@),
            ) && opt_view(after.nfts@[i].owner) == Some(value_of(event, owner_key(action))),
        forall|i: int, j: int|
            0 <= i < after.nfts@.len() && 0 <= j < after.nfts@.len()
                && has_key(#[trigger] after.nfts@[i], value_of(event, "_contract_address"@), value_of(event, "token_id"@))
                && has_key(#[trigger] after.nfts@[j], value_of(event, "_contract_address"@), value_of(event, "token_id"@))
                ==> i == j,
{
    let address = value_of(event, "_contract_address"@);
    let token_id = value_of(event, "token_id"@);
    let owner = value_of(event, owner_key(action));
    if nft_exists(before.nfts@, address, token_id) {
        let i = choose|i: int| 0 <= i < before.nfts@.len() && #[trigger] has_key(before.nfts@[i], address, token_id);
        assert(has_key(after.nfts@[i], address, token_id));
    } else {
        let last = after.nfts@.len() - 1;
        assert(has_key(after.nfts@[last], address, token_id));
    }
    assert forall|i: int, j: int|
        0 <= i < after.nfts@.len() && 0 <= j < after.nfts@.len()
            && has_key(#[trigger] after.nfts@[i], address, token_id)
            && has_key(#[trigger] after.nfts@[j], address, token_id) implies i == j by {
        if i != j {
            assert(!has_key(after.nfts@[i], after.nfts@[j].token_address@, after.nfts@[j].token_id@));
        }
    }
}

impl HandlerError {
    /// A human-readable account of the error.
    pub fn describe(&self) -> (r: String)
        ensures
            r@ == match *self {
                HandlerError::MissingAttribute(k) => "missing attribute "@ + k@,
                HandlerError::Fetch(FetchError::ChainQuery(m)) => "chain query failed: "@ + m@,
                HandlerError::Fetch(FetchError::MetadataFetch(m)) => "metadata fetch failed: "@ + m@,
                HandlerError::Store(StoreError::NoListing) => "no active listing"@,
                HandlerError::Store(StoreError::Full) => "no further NFT can be stored"@,
                HandlerError::MissingPrice => "the auction has no price"@,
                HandlerError::MalformedPrice => "the auction's price is not a decimal"@,
                HandlerError::MissingBuyer => "the sale names no buyer"@,
            },
            r@.len() > 0,
    {
        proof {
            reveal_strlit("missing attribute ");
            reveal_strlit("chain query failed: ");
            reveal_strlit("metadata fetch failed: ");
            reveal_strlit("the auction's price is not a decimal");
            reveal_strlit("no active listing");
            reveal_strlit("no further NFT can be stored");
            reveal_strlit("the auction has no price");
            reveal_strlit("the sale names no buyer");
        }
        match self {
            HandlerError::MissingAttribute(k) => "missing attribute ".to_owned().concat(k.as_str()),
            HandlerError::Fetch(FetchError::ChainQuery(m)) => "chain query failed: ".to_owned().concat(m.as_str()),
            HandlerError::Fetch(FetchError::MetadataFetch(m)) => "metadata fetch failed: ".to_owned().concat(m.as_str()),
            HandlerError::Store(StoreError::NoListing) => "no active listing".to_owned(),
            HandlerError::Store(StoreError::Full) => "no further NFT can be stored".to_owned(),
            HandlerError::MissingPrice => "the auction has no price".to_owned(),
            HandlerError::MalformedPrice => "the auction's price is not a decimal".to_owned(),
            HandlerError::MissingBuyer => "the sale names no buyer".to_owned(),
        }
    }
}

} // verus!
