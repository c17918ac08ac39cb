//! The projected state: NFTs, collections, listings, activity, sales and
//! traces, with point lookups, conflict-safe inserts and all-or-nothing write
//! sessions.
use crate::message::Event;
use vstd::prelude::*;

verus! {

/// One trait of an NFT.
#[derive(Debug)]
pub struct TraitRow {
    pub attribute: String,
    pub display_type: Option<String>,
    pub value: String,
}

/// An NFT. Its identity is `(token_address, token_id)`; `id` is its row number,
/// counted from 1.
#[derive(Debug)]
pub struct NftRow {
    pub id: u64,
    pub token_address: String,
    pub token_id: String,
    pub token_uri: String,
    pub name: Option<String>,
    pub description: Option<String>,
    pub image: Option<String>,
    pub owner: Option<String>,
    pub traits: Vec<TraitRow>,
}

/// The fields of a new NFT row; its number is given on insertion.
#[derive(Debug)]
pub struct CreateNftParams {
    pub token_address: String,
    pub token_id: String,
    pub token_uri: String,
    pub name: Option<String>,
    pub image: Option<String>,
    pub traits: Vec<TraitRow>,
    pub description: Option<String>,
    pub owner_address: Option<String>,
}

/// A collection, identified by its contract address.
#[derive(Debug)]
pub struct CollectionRow {
    pub address: String,
    pub name: String,
    pub symbol: String,
    pub supply: u32,
    pub description: Option<String>,
    pub image: Option<String>,
    pub banner: Option<String>,
    pub socials: Option<String>,
    pub royalty: Option<String>,
}

/// The marketplace that an activity or a listing belongs to.
#[derive(PartialEq, Eq, Structural, Clone, Copy, Debug)]
pub enum Marketplace {
    Mrkt,
    Pallet,
}

/// The kind of an activity row.
#[derive(PartialEq, Eq, Structural, Clone, Copy, Debug)]
pub enum NftActivityKind {
    List,
    Delist,
    Sale,
}

/// Which dialect's worker handled an action.
#[derive(PartialEq, Eq, Structural, Clone, Copy, Debug)]
pub enum StreamContext {
    Cw721,
    Pallet,
}

/// The active listing of an NFT; at most one per NFT.
#[derive(Debug)]
pub struct ListingRow {
    pub nft_id: u64,
    pub collection_address: String,
    pub seller: String,
    pub price: String,
    pub denom: String,
    pub created_at: i64,
    pub expiration_time: u32,
    pub tx_hash: String,
    pub marketplace: Marketplace,
}

/// An append-only record of a listing, a delisting or a sale.
#[derive(Debug)]
pub struct ActivityRow {
    pub nft_id: u64,
    pub kind: NftActivityKind,
    pub marketplace: Marketplace,
    pub price: String,
    pub denom: String,
    pub buyer: Option<String>,
    pub seller: Option<String>,
    pub tx_hash: String,
    pub date: i64,
}

/// The volume record of a sale.
#[derive(Debug)]
pub struct SaleRow {
    pub tx_hash: String,
    pub volume: String,
    pub collection_address: String,
    pub buyer: String,
    pub seller: String,
    pub date: i64,
    pub marketplace: Marketplace,
}

/// The outcome of one handled action.
#[derive(Debug)]
pub struct TraceRow {
    pub tx_hash: String,
    pub action: String,
    pub context: StreamContext,
    pub date: i64,
    pub is_failure: bool,
    pub message: Option<String>,
    pub event: Event,
}

/// Why a write session was refused; a refused session writes nothing.
#[derive(PartialEq, Eq, Structural, Clone, Copy, Debug)]
pub enum StoreError {
    /// The NFT has no active listing.
    NoListing,
    /// No further NFT row can be numbered.
    Full,
}

/// The whole projected state.
#[derive(Debug)]
pub struct Store {
    pub nfts: Vec<NftRow>,
    pub collections: Vec<CollectionRow>,
    pub listings: Vec<ListingRow>,
    pub activities: Vec<ActivityRow>,
    pub sales: Vec<SaleRow>,
    pub traces: Vec<TraceRow>,
}

/// Whether an NFT row has the identity `(address, token_id)`.
pub open spec fn has_key(row: NftRow, address: Seq<char>, token_id: Seq<char>) -> bool {
    row.token_address@ == address && row.token_id@ == token_id
}

/// Whether an NFT with the identity `(address, token_id)` is stored.
pub open spec fn nft_exists(nfts: Seq<NftRow>, address: Seq<char>, token_id: Seq<char>) -> bool {
    exists|i: int| 0 <= i < nfts.len() && #[trigger] has_key(nfts[i], address, token_id)
}

/// Whether a collection with the address is stored.
pub open spec fn collection_exists(collections: Seq<CollectionRow>, address: Seq<char>) -> bool {
    exists|i: int| 0 <= i < collections.len() && #[trigger] collections[i].address@ == address
}

/// Whether the NFT numbered `nft_id` has an active listing.
pub open spec fn listing_exists(listings: Seq<ListingRow>, nft_id: u64) -> bool {
    exists|i: int| 0 <= i < listings.len() && #[trigger] listings[i].nft_id == nft_id
}

/// `after` is `before` without its entries at `index`.
pub open spec fn removed_at<T>(before: Seq<T>, after: Seq<T>, index: int) -> bool {
    after == before.remove(index)
}

/// `after` is `before` without the listing of the NFT numbered `nft_id`, if
/// there is one.
pub open spec fn without_listing(before: Seq<ListingRow>, after: Seq<ListingRow>, nft_id: u64) -> bool {
    if listing_exists(before, nft_id) {
        exists|i: int| 0 <= i < before.len() && before[i].nft_id == nft_id && #[trigger] removed_at(before, after, i)
    } else {
        after == before
    }
}

/// Listings unique by NFT stay so when one is removed, and the removed NFT is
/// left without one.
proof fn lemma_removed_listing(before: Seq<ListingRow>, after: Seq<ListingRow>, i: int, nft_id: u64)
    requires
        0 <= i < before.len(),
        before[i].nft_id == nft_id,
        removed_at(before, after, i),
        forall|a: int, b: int|
            0 <= a < before.len() && 0 <= b < before.len() && a != b
                ==> (#[trigger] before[a]).nft_id != (#[trigger] before[b]).nft_id,
    ensures
        !listing_exists(after, nft_id),
        forall|a: int, b: int|
            0 <= a < after.len() && 0 <= b < after.len() && a != b
                ==> (#[trigger] after[a]).nft_id != (#[trigger] after[b]).nft_id,
{
    assert forall|k: int| 0 <= k < after.len() implies #[trigger] after[k].nft_id != nft_id by {
        if k < i {
            assert(after[k] == before[k]);
        } else {
            assert(after[k] == before[k + 1]);
        }
    }
    assert forall|a: int, b: int|
        0 <= a < after.len() && 0 <= b < after.len() && a != b
            implies (#[trigger] after[a]).nft_id != (#[trigger] after[b]).nft_id by {
        let oa = if a < i { a } else { a + 1 };
        let ob = if b < i { b } else { b + 1 };
        assert(after[a] == before[oa]);
        assert(after[b] == before[ob]);
    }
}

impl Store {
    /// The store's invariant: NFT rows numbered by position and unique by
    /// identity; collections unique by address; at most one listing per NFT.
    pub open spec fn wf(&self) -> bool {
        &&& forall|i: int| 0 <= i < self.nfts@.len() ==> (#[trigger] self.nfts@[i]).id == i + 1
        &&& forall|i: int, j: int|
            0 <= i < self.nfts@.len() && 0 <= j < self.nfts@.len() && i != j ==> !has_key(
                #[trigger] self.nfts@[i],
                (#[trigger] self.nfts@[j]).token_address@,
                self.nfts@[j].token_id@,
            )
        &&& forall|i: int, j: int|
            0 <= i < self.collections@.len() && 0 <= j < self.collections@.len() && i != j
                ==> (#[trigger] self.collections@[i]).address@ != (#[trigger] self.collections@[j]).address@
        &&& forall|i: int, j: int|
            0 <= i < self.listings@.len() && 0 <= j < self.listings@.len() && i != j
                ==> (#[trigger] self.listings@[i]).nft_id != (#[trigger] self.listings@[j]).nft_id
    }

    /// An empty store.
    pub fn new() -> (r: Store)
        ensures
            r.wf(),
            r.nfts@.len() == 0,
            r.collections@.len() == 0,
            r.listings@.len() == 0,
            r.activities@.len() == 0,
            r.sales@.len() == 0,
            r.traces@.len() == 0,
    {
        Store {
            nfts: Vec::new(),
            collections: Vec::new(),
            listings: Vec::new(),
            activities: Vec::new(),
            sales: Vec::new(),
            traces: Vec::new(),
        }
    }

    /// The position of the NFT with identity `(address, token_id)`.
    pub fn find_nft(&self, address: &str, token_id: &str) -> (r: Option<usize>)
        ensures
            r matches Some(i) ==> i < self.nfts@.len() && has_key(self.nfts@[i as int], address@, token_id@),
            r is None ==> !nft_exists(self.nfts@, address@, token_id@),
    {
        let mut i: usize = 0;
        while i < self.nfts.len()
            invariant
                0 <= i <= self.nfts@.len(),
                forall|k: int| 0 <= k < i ==> !#[trigger] has_key(self.nfts@[k], address@, token_id@),
            decreases self.nfts@.len() - i,
        {
            let row = &self.nfts[i];
            if crate::json::same_text(&row.token_address, address) && crate::json::same_text(&row.token_id, token_id) {
                return Some(i);
            }
            i = i + 1;
        }
        None
    }

    /// Whether a collection with the address is stored.
    pub fn has_collection(&self, address: &str) -> (r: bool)
        ensures
            r == collection_exists(self.collections@, address@),
    {
        let mut i: usize = 0;
        while i < self.collections.len()
            invariant
                0 <= i <= self.collections@.len(),
                forall|k: int| 0 <= k < i ==> #[trigger] self.collections@[k].address@ != address@,
            decreases self.collections@.len() - i,
        {
            if crate::json::same_text(&self.collections[i].address, address) {
                return true;
            }
            i = i + 1;
        }
        false
    }

    /// The position of the active listing of the NFT numbered `nft_id`.
    pub fn find_listing(&self, nft_id: u64) -> (r: Option<usize>)
        ensures
            r matches Some(i) ==> i < self.listings@.len() && self.listings@[i as int].nft_id == nft_id,
            r is None ==> !listing_exists(self.listings@, nft_id),
    {
        let mut i: usize = 0;
        while i < self.listings.len()
            invariant
                0 <= i <= self.listings@.len(),
                forall|k: int| 0 <= k < i ==> #[trigger] self.listings@[k].nft_id != nft_id,
            decreases self.listings@.len() - i,
        {
            if self.listings[i].nft_id == nft_id {
                return Some(i);
            }
            i = i + 1;
        }
        None
    }

    /// Inserts a collection unless one with its address is stored already.
    pub fn insert_collection_if_absent(&mut self, row: CollectionRow)
        requires
            old(self).wf(),
        ensures
            final(self).wf(),
            collection_exists(old(self).collections@, row.address@) ==> final(self).collections@ == old(self).collections@,
            !collection_exists(old(self).collections@, row.address@) ==> final(self).collections@ == old(self).collections@.push(row),
            final(self).nfts@ == old(self).nfts@,
            final(self).listings@ == old(self).listings@,
            final(self).activities@ == old(self).activities@,
            final(self).sales@ == old(self).sales@,
            final(self).traces@ == old(self).traces@,
    {
        if !self.has_collection(row.address.as_str()) {
            self.collections.push(row);
        }
    }

    /// Inserts an NFT row unless one with its identity is stored already; the
    /// row is numbered after the last one. Gives the number of the stored row.
    pub fn insert_nft_if_absent(
        &mut self,
        params: CreateNftParams,
    ) -> (r: Result<u64, StoreError>)
        requires
            old(self).wf(),
        ensures
            final(self).wf(),
            final(self).collections@ == old(self).collections@,
            final(self).listings@ == old(self).listings@,
            final(self).activities@ == old(self).activities@,
            final(self).sales@ == old(self).sales@,
            final(self).traces@ == old(self).traces@,
            nft_exists(old(self).nfts@, params.token_address@, params.token_id@) ==> {
                &&& final(self).nfts@ == old(self).nfts@
                &&& r matches Ok(id) && 1 <= id <= old(self).nfts@.len()
                    && has_key(old(self).nfts@[id - 1], params.token_address@, params.token_id@)
            },
            !nft_exists(old(self).nfts@, params.token_address@, params.token_id@) && old(self).nfts@.len() + 1 >= u64::MAX
                ==> r == Err::<u64, StoreError>(StoreError::Full) && final(self).nfts@ == old(self).nfts@,
            !nft_exists(old(self).nfts@, params.token_address@, params.token_id@) && old(self).nfts@.len() + 1 < u64::MAX ==> {
                &&& r == Ok::<u64, StoreError>((old(self).nfts@.len() + 1) as u64)
                &&& final(self).nfts@ == old(self).nfts@.push(NftRow {
                    id: (old(self).nfts@.len() + 1) as u64,
                    token_address: params.token_address,
                    token_id: params.token_id,
                    token_uri: params.token_uri,
                    name: params.name,
                    description: params.description,
                    image: params.image,
                    owner: params.owner_address,
                    traits: params.traits,
                })
            },
    {
        match self.find_nft(params.token_address.as_str(), params.token_id.as_str()) {
            Some(i) => {
                return Ok(self.nfts[i].id);
            },
            None => {},
        }
        let n = self.nfts.len();
        if n as u64 >= u64::MAX - 1 {
            return Err(StoreError::Full);
        }
        let id = n as u64 + 1;
        let row = NftRow {
            id,
            token_address: params.token_address,
            token_id: params.token_id,
            token_uri: params.token_uri,
            name: params.name,
            description: params.description,
            image: params.image,
            owner: params.owner_address,
            traits: params.traits,
        };
        self.nfts.push(row);
        proof {
            assert forall|i: int, j: int|
                0 <= i < self.nfts@.len() && 0 <= j < self.nfts@.len() && i != j implies !has_key(
                    #[trigger] self.nfts@[i],
                    (#[trigger] self.nfts@[j]).token_address@,
                    self.nfts@[j].token_id@,
                ) by {
                if i == n as int {
                    assert(!has_key(old(self).nfts@[j], self.nfts@[i].token_address@, self.nfts@[i].token_id@));
                } else if j == n as int {
                    assert(!has_key(old(self).nfts@[i], self.nfts@[j].token_address@, self.nfts@[j].token_id@));
                }
            }
        }
        Ok(id)
    }

    /// Sets the owner of the NFT at a position.
    pub fn set_owner(&mut self, index: usize, owner: String)
        requires
            old(self).wf(),
            index < old(self).nfts@.len(),
        ensures
            final(self).wf(),
            final(self).nfts@ == old(self).nfts@.update(index as int, NftRow {
                owner: Some(owner),
                ..old(self).nfts@[index as int]
            }),
            final(self).collections@ == old(self).collections@,
            final(self).listings@ == old(self).listings@,
            final(self).activities@ == old(self).activities@,
            final(self).sales@ == old(self).sales@,
            final(self).traces@ == old(self).traces@,
    {
        self.nfts[index].owner = Some(owner);
        proof {
            assert forall|i: int, j: int|
                0 <= i < self.nfts@.len() && 0 <= j < self.nfts@.len() && i != j implies !has_key(
                    #[trigger] self.nfts@[i],
                    (#[trigger] self.nfts@[j]).token_address@,
                    self.nfts@[j].token_id@,
                ) by {
                assert(!has_key(old(self).nfts@[i], old(self).nfts@[j].token_address@, old(self).nfts@[j].token_id@));
            }
        }
    }

    /// A write session that lists an NFT, delete-then-create: removes the
    /// NFT's active listing, if any, then inserts the new listing and its
    /// "list" activity together.
    pub fn list(&mut self, listing: ListingRow, activity: ActivityRow)
        requires
            old(self).wf(),
        ensures
            final(self).wf(),
            final(self).nfts@ == old(self).nfts@,
            final(self).collections@ == old(self).collections@,
            final(self).sales@ == old(self).sales@,
            final(self).traces@ == old(self).traces@,
            final(self).listings@.len() >= 1,
            final(self).listings@.last() == listing,
            without_listing(old(self).listings@, final(self).listings@.drop_last(), listing.nft_id),
            final(self).activities@ == old(self).activities@.push(activity),
    {
        let ghost before = self.listings@;
        match self.find_listing(listing.nft_id) {
            Some(i) => {
                self.listings.remove(i);
                proof {
                    assert(removed_at(before, self.listings@, i as int));
                    lemma_removed_listing(before, self.listings@, i as int, listing.nft_id);
                }
            },
            None => {},
        }
        let ghost kept = self.listings@;
        self.listings.push(listing);
        proof {
            assert(self.listings@.drop_last() =~= kept);
            assert forall|a: int, b: int|
                0 <= a < self.listings@.len() && 0 <= b < self.listings@.len() && a != b
                    implies (#[trigger] self.listings@[a]).nft_id != (#[trigger] self.listings@[b]).nft_id by {
                if a < kept.len() && b < kept.len() {
                    assert(self.listings@[a] == kept[a]);
                    assert(self.listings@[b] == kept[b]);
                } else if a < kept.len() {
                    assert(self.listings@[a] == kept[a]);
                } else {
                    assert(self.listings@[b] == kept[b]);
                }
            }
        }
        self.activities.push(activity);
    }

    /// A write session that closes the listing of an NFT: removes it and
    /// appends the activity, and the sale record where one is given; where
    /// the NFT is not listed, writes nothing.
    pub fn close_listing(&mut self, nft_id: u64, activity: ActivityRow, sale: Option<SaleRow>) -> (r: Result<(), StoreError>)
        requires
            old(self).wf(),
        ensures
            final(self).wf(),
            final(self).nfts@ == old(self).nfts@,
            final(self).collections@ == old(self).collections@,
            final(self).traces@ == old(self).traces@,
            !listing_exists(old(self).listings@, nft_id) ==> {
                &&& r == Err::<(), StoreError>(StoreError::NoListing)
                &&& final(self).listings@ == old(self).listings@
                &&& final(self).activities@ == old(self).activities@
                &&& final(self).sales@ == old(self).sales@
            },
            listing_exists(old(self).listings@, nft_id) ==> {
                &&& r is Ok
                &&& !listing_exists(final(self).listings@, nft_id)
                &&& exists|i: int| 0 <= i < old(self).listings@.len() && old(self).listings@[i].nft_id == nft_id
                    && #[trigger] removed_at(old(self).listings@, final(self).listings@, i)
                &&& final(self).activities@ == old(self).activities@.push(activity)
                &&& final(self).sales@ == match sale {
                    Some(row) => old(self).sales@.push(row),
                    None => old(self).sales@,
                }
            },
    {
        let i = match self.find_listing(nft_id) {
            Some(i) => i,
            None => return Err(StoreError::NoListing),
        };
        let ghost before = self.listings@;
        self.listings.remove(i);
        proof {
            assert(removed_at(before, self.listings@, i as int));
            lemma_removed_listing(before, self.listings@, i as int, nft_id);
        }
        self.activities.push(activity);
        match sale {
            Some(row) => self.sales.push(row),
            None => {},
        }
        Ok(())
    }

    /// Appends the trace of one handled action.
    pub fn record_trace(&mut self, trace: TraceRow)
        requires
            old(self).wf(),
        ensures
            final(self).wf(),
            final(self).traces@ == old(self).traces@.push(trace),
            final(self).nfts@ == old(self).nfts@,
            final(self).collections@ == old(self).collections@,
            final(self).listings@ == old(self).listings@,
            final(self).activities@ == old(self).activities@,
            final(self).sales@ == old(self).sales@,
    {
        self.traces.push(trace);
    }
}

} // verus!
